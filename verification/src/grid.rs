//! A dense, bounds-checked 2D buffer, used both as the character
//! framebuffer and as the depth buffer.
//!
//! Cells live in a row-major backing vector (`index = y * width + x`).
//! Out-of-range access is a recoverable condition (`None` / `false`),
//! never a crash: the rasterizer relies on this to clip pixel writes at
//! the buffer edges.

use vstd::prelude::*;

verus! {

pub struct Grid<T> {
    pub data: Vec<T>,
    pub width: usize,
    pub height: usize,
}

impl<T> View for Grid<T> {
    type V = Seq<T>;

    open spec fn view(&self) -> Seq<T> {
        self.data@
    }
}

/// A valid row-major position is in range of the backing store.
pub proof fn lemma_row_major(w: int, h: int, x: int, y: int)
    requires
        0 <= x < w,
        0 <= y < h,
    ensures
        0 <= y * w + x < w * h,
        y * w + x <= w * h - 1,
{
    assert(0 <= y * w + x <= w * h - 1) by (nonlinear_arith)
        requires
            0 <= x < w,
            0 <= y < h,
    ;
}

impl<T> Grid<T> {
    /// The backing store holds exactly one cell per in-range position.
    pub open spec fn wf(&self) -> bool {
        self@.len() == self.width * self.height
    }

    pub open spec fn in_range(&self, x: int, y: int) -> bool {
        0 <= x < self.width && 0 <= y < self.height
    }

    /// The cell at (x, y), for in-range positions.
    pub open spec fn at(&self, x: int, y: int) -> T {
        self@[y * self.width + x]
    }

    /// Read a cell; out-of-range positions yield `None`.
    pub fn get(&self, x: usize, y: usize) -> (r: Option<&T>)
        requires
            self.wf(),
        ensures
            match r {
                Some(v) => self.in_range(x as int, y as int) && *v == self.at(x as int, y as int),
                None => !self.in_range(x as int, y as int),
            },
    {
        if x < self.width && y < self.height {
            // reading the length ties the backing size to the usize
            // range, so the index arithmetic below cannot overflow
            let n: usize = self.data.len();
            proof {
                assert(n == self@.len());
                lemma_row_major(self.width as int, self.height as int, x as int, y as int);
            }
            let index: usize = y * self.width + x;
            Some(&self.data[index])
        } else {
            None
        }
    }

    /// Overwrite a cell and report true; out-of-range positions leave
    /// the buffer untouched and report false.
    pub fn set(&mut self, value: T, x: usize, y: usize) -> (r: bool)
        requires
            old(self).wf(),
        ensures
            final(self).wf(),
            final(self).width == old(self).width,
            final(self).height == old(self).height,
            r == old(self).in_range(x as int, y as int),
            r ==> final(self)@ == old(self)@.update(y * old(self).width + x, value),
            !r ==> final(self)@ == old(self)@,
    {
        if x < self.width && y < self.height {
            // reading the length ties the backing size to the usize
            // range, so the index arithmetic below cannot overflow
            let n: usize = self.data.len();
            proof {
                assert(n == self@.len());
                lemma_row_major(self.width as int, self.height as int, x as int, y as int);
            }
            let index: usize = y * self.width + x;
            self.data.set(index, value);
            true
        } else {
            false
        }
    }

    /// Reset every in-range cell to `value`.
    pub fn clear(&mut self, value: T) where T: Copy
        requires
            old(self).wf(),
        ensures
            final(self).wf(),
            final(self).width == old(self).width,
            final(self).height == old(self).height,
            final(self)@.len() == old(self)@.len(),
            forall|i: int| 0 <= i < final(self)@.len() ==> final(self)@[i] == value,
    {
        let w: usize = self.width;
        let h: usize = self.height;
        let mut y: usize = 0;
        while y < h
            invariant
                y <= h,
                self.wf(),
                self.width == w,
                self.height == h,
                forall|i: int| 0 <= i < y * w ==> self@[i] == value,
            decreases h - y,
        {
            let mut x: usize = 0;
            while x < w
                invariant
                    x <= w,
                    y < h,
                    self.wf(),
                    self.width == w,
                    self.height == h,
                    forall|i: int| 0 <= i < y * w + x ==> self@[i] == value,
                decreases w - x,
            {
                proof {
                    lemma_row_major(w as int, h as int, x as int, y as int);
                }
                self.set(value, x, y);
                x = x + 1;
            }
            proof {
                assert((y + 1) * w == y * w + w) by (nonlinear_arith);
            }
            y = y + 1;
        }
        proof {
            assert(h * w == w * h) by (nonlinear_arith);
        }
    }
}

impl<T: Copy> Grid<T> {
    /// A fresh buffer of the given dimensions, every cell `fill_value`.
    pub fn new(fill_value: T, width: usize, height: usize) -> (r: Grid<T>)
        requires
            width * height <= usize::MAX,
        ensures
            r.wf(),
            r.width == width,
            r.height == height,
            forall|i: int| 0 <= i < r@.len() ==> r@[i] == fill_value,
    {
        let n: usize = width * height;
        let mut data: Vec<T> = Vec::new();
        let mut i: usize = 0;
        while i < n
            invariant
                i <= n,
                data@.len() == i,
                forall|j: int| 0 <= j < i ==> data@[j] == fill_value,
            decreases n - i,
        {
            data.push(fill_value);
            i = i + 1;
        }
        Grid { data, width, height }
    }
}

/// One row of the rendered text: the row's cells, then a newline.
pub open spec fn row_chars(g: &Grid<char>, y: int) -> Seq<char> {
    Seq::new(g.width as nat, |x: int| g.at(x, y)).push('\n')
}

/// The first `y` rows of the rendered text.
pub open spec fn rows_chars(g: &Grid<char>, y: int) -> Seq<char>
    decreases y,
{
    if y <= 0 {
        Seq::empty()
    } else {
        rows_chars(g, y - 1) + row_chars(g, y - 1)
    }
}

/// Relies on std's String::push: appends exactly one character.
#[verifier::external_body]
fn push_char(s: &mut String, c: char)
    ensures
        final(s)@ == old(s)@.push(c),
{
    s.push(c);
}

impl Grid<char> {
    /// Serialize row-major: one line per row, no separator between
    /// columns, a newline after every row (the last included).
    pub fn display(&self) -> (r: String)
        requires
            self.wf(),
        ensures
            r@ == rows_chars(self, self.height as int),
    {
        let mut s: String = String::new();
        let mut y: usize = 0;
        while y < self.height
            invariant
                y <= self.height,
                self.wf(),
                s@ == rows_chars(self, y as int),
            decreases self.height - y,
        {
            let mut x: usize = 0;
            while x < self.width
                invariant
                    x <= self.width,
                    y < self.height,
                    self.wf(),
                    s@ == rows_chars(self, y as int) + Seq::new(
                        x as nat,
                        |i: int| self.at(i, y as int),
                    ),
                decreases self.width - x,
            {
                let c: char = match self.get(x, y) {
                    Some(v) => *v,
                    None => ' ',
                };
                push_char(&mut s, c);
                proof {
                    assert(s@ =~= rows_chars(self, y as int) + Seq::new(
                        (x + 1) as nat,
                        |i: int| self.at(i, y as int),
                    ));
                }
                x = x + 1;
            }
            push_char(&mut s, '\n');
            proof {
                assert(s@ =~= rows_chars(self, y as int + 1));
            }
            y = y + 1;
        }
        s
    }
}

} // verus!
