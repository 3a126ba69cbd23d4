//! Two-component vectors (texture coordinates, planar math).

use vstd::prelude::*;

use crate::fx::{
    fdiv, fits, fmul, isqrt, lemma_fmul_bound, lemma_isqrt_bounds, lemma_tdiv_mag, Fx, FX_BOUND,
    SCALE,
};

verus! {

#[derive(Clone, Copy, Debug, PartialEq, Eq, Structural)]
pub struct Vector2 {
    pub x: Fx,
    pub y: Fx,
}

impl Vector2 {
    /// All components within `[-b, b]` (raw units).
    pub open spec fn bounded(self, b: int) -> bool {
        &&& -b <= self.x@ <= b
        &&& -b <= self.y@ <= b
    }

    /// Exact sum of the squares of the raw components.
    pub open spec fn len2(self) -> int {
        self.x@ * self.x@ + self.y@ * self.y@
    }

    /// Raw Euclidean length: the integer square root of `len2`.
    pub open spec fn len_raw(self) -> int {
        isqrt(self.len2())
    }

    pub open spec fn is_zero(self) -> bool {
        self.x@ == 0 && self.y@ == 0
    }

    pub fn new(x: Fx, y: Fx) -> (r: Vector2)
        ensures
            r.x == x,
            r.y == y,
    {
        Vector2 { x, y }
    }

    /// Componentwise sum.
    pub fn add(self, o: Vector2) -> (r: Vector2)
        requires
            fits(self.x@ + o.x@),
            fits(self.y@ + o.y@),
        ensures
            r.x@ == self.x@ + o.x@,
            r.y@ == self.y@ + o.y@,
    {
        Vector2 { x: self.x.add(o.x), y: self.y.add(o.y) }
    }

    /// Componentwise difference.
    pub fn sub(self, o: Vector2) -> (r: Vector2)
        requires
            fits(self.x@ - o.x@),
            fits(self.y@ - o.y@),
        ensures
            r.x@ == self.x@ - o.x@,
            r.y@ == self.y@ - o.y@,
    {
        Vector2 { x: self.x.sub(o.x), y: self.y.sub(o.y) }
    }

    pub fn neg(self) -> (r: Vector2)
        requires
            self.x@ != i64::MIN,
            self.y@ != i64::MIN,
        ensures
            r.x@ == -self.x@,
            r.y@ == -self.y@,
    {
        Vector2 { x: self.x.neg(), y: self.y.neg() }
    }

    /// Add a scalar to every component.
    pub fn scalar_add(self, s: Fx) -> (r: Vector2)
        requires
            fits(self.x@ + s@),
            fits(self.y@ + s@),
        ensures
            r.x@ == self.x@ + s@,
            r.y@ == self.y@ + s@,
    {
        Vector2 { x: self.x.add(s), y: self.y.add(s) }
    }

    /// Subtract a scalar from every component.
    pub fn scalar_sub(self, s: Fx) -> (r: Vector2)
        requires
            fits(self.x@ - s@),
            fits(self.y@ - s@),
        ensures
            r.x@ == self.x@ - s@,
            r.y@ == self.y@ - s@,
    {
        Vector2 { x: self.x.sub(s), y: self.y.sub(s) }
    }

    /// Multiply every component by a scalar.
    pub fn scale(self, s: Fx) -> (r: Vector2)
        requires
            self.bounded(FX_BOUND as int),
            -FX_BOUND <= s@ <= FX_BOUND,
        ensures
            r.x@ == fmul(self.x@, s@),
            r.y@ == fmul(self.y@, s@),
    {
        proof {
            lemma_fmul_bound(self.x@, s@);
            lemma_fmul_bound(self.y@, s@);
        }
        Vector2 { x: self.x.mul(s), y: self.y.mul(s) }
    }

    /// Componentwise (Hadamard) product.
    pub fn hadamard(self, o: Vector2) -> (r: Vector2)
        requires
            self.bounded(FX_BOUND as int),
            o.bounded(FX_BOUND as int),
        ensures
            r.x@ == fmul(self.x@, o.x@),
            r.y@ == fmul(self.y@, o.y@),
    {
        proof {
            lemma_fmul_bound(self.x@, o.x@);
            lemma_fmul_bound(self.y@, o.y@);
        }
        Vector2 { x: self.x.mul(o.x), y: self.y.mul(o.y) }
    }

    /// Sum of the componentwise products.
    pub fn dot(self, o: Vector2) -> (r: Fx)
        requires
            self.bounded(FX_BOUND as int),
            o.bounded(FX_BOUND as int),
        ensures
            r@ == fmul(self.x@, o.x@) + fmul(self.y@, o.y@),
    {
        proof {
            lemma_fmul_bound(self.x@, o.x@);
            lemma_fmul_bound(self.y@, o.y@);
        }
        self.x.mul(o.x).add(self.y.mul(o.y))
    }

    /// Euclidean length: the integer square root of the exact sum of
    /// squared raw components.
    pub fn length(self) -> (r: Fx)
        requires
            self.bounded(FX_BOUND as int),
        ensures
            r@ == self.len_raw(),
            r@ >= 0,
    {
        let v3 = crate::vector3::Vector3 { x: self.x, y: self.y, z: Fx { raw: 0 } };
        let r = v3.length();
        proof {
            assert(v3.len2() == self.len2());
        }
        r
    }

    /// The vector divided by its own length; the zero vector is ruled
    /// out by precondition.
    pub fn normalize(self) -> (r: Vector2)
        requires
            self.bounded(FX_BOUND as int),
            !self.is_zero(),
        ensures
            r.x@ == fdiv(self.x@, self.len_raw()),
            r.y@ == fdiv(self.y@, self.len_raw()),
    {
        let l: Fx = self.length();
        proof {
            lemma_len2_pos(self);
            lemma_isqrt_bounds(self.len2());
            let lr = self.len_raw();
            assert(lr >= 1) by (nonlinear_arith)
                requires
                    self.len2() >= 1,
                    lr >= 0,
                    self.len2() < (lr + 1) * (lr + 1),
            ;
            lemma_tdiv_mag(self.x@ * SCALE, l@);
            lemma_tdiv_mag(self.y@ * SCALE, l@);
        }
        Vector2 { x: self.x.div(l), y: self.y.div(l) }
    }

    /// Component by position: 0 is x, 1 is y.
    pub fn index(self, i: usize) -> (r: Fx)
        requires
            i < 2,
        ensures
            r == (if i == 0 {
                self.x
            } else {
                self.y
            }),
    {
        if i == 0 {
            self.x
        } else {
            self.y
        }
    }
}

/// A non-zero vector has a positive sum of squares.
proof fn lemma_len2_pos(v: Vector2)
    requires
        !v.is_zero(),
    ensures
        v.len2() >= 1,
{
    assert(v.len2() >= 1) by (nonlinear_arith)
        requires
            !(v.x@ == 0 && v.y@ == 0),
    ;
}

} // verus!
