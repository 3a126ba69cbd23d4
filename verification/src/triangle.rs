//! Per-primitive geometry: a vertex (position plus optional texture
//! coordinate and normal), a triangle of three vertices, and the
//! clamped screen-space bounding box the rasterizer iterates over.

use vstd::prelude::*;

use crate::fx::{tdiv, SCALE};
use crate::vector2::Vector2;
use crate::vector3::Vector3;

verus! {

/// Grids wider or taller than this are not rasterized into; keeps all
/// pixel-center coordinates well inside the exact-arithmetic range.
pub const DIM_LIMIT: usize = 0x10_0000;

#[derive(Clone, Copy, Debug, PartialEq, Eq, Structural)]
pub struct Vertex {
    pub pos: Vector3,
    pub tex_coord: Option<Vector2>,
    pub normal: Option<Vector3>,
}

#[derive(Clone, Copy, Debug, PartialEq, Eq, Structural)]
pub struct Triangle {
    pub a: Vertex,
    pub b: Vertex,
    pub c: Vertex,
}

/// A raw coordinate truncated to a whole pixel position and clamped
/// into `[0, hi]`; `hi` is the grid's exclusive dimension.
pub open spec fn bb_clamp(v: int, hi: int) -> int {
    let t = tdiv(v, SCALE as int);
    if t < 0 {
        0
    } else if t > hi {
        hi
    } else {
        t
    }
}

pub open spec fn min3(a: int, b: int, c: int) -> int {
    if a <= b && a <= c {
        a
    } else if b <= c {
        b
    } else {
        c
    }
}

pub open spec fn max3(a: int, b: int, c: int) -> int {
    if a >= b && a >= c {
        a
    } else if b >= c {
        b
    } else {
        c
    }
}

/// The clamped bounding box `(min_x, min_y, max_x, max_y)` of the
/// triangle's projected vertices in a `width x height` grid.
pub open spec fn bbox_spec(t: Triangle, width: int, height: int) -> (int, int, int, int) {
    (
        bb_clamp(min3(t.a.pos.x@, t.b.pos.x@, t.c.pos.x@), width),
        bb_clamp(min3(t.a.pos.y@, t.b.pos.y@, t.c.pos.y@), height),
        bb_clamp(max3(t.a.pos.x@, t.b.pos.x@, t.c.pos.x@), width),
        bb_clamp(max3(t.a.pos.y@, t.b.pos.y@, t.c.pos.y@), height),
    )
}

impl Vertex {
    pub fn from_pos(pos: Vector3) -> (r: Vertex)
        ensures
            r.pos == pos,
            r.tex_coord is None,
            r.normal is None,
    {
        Vertex { pos, tex_coord: None, normal: None }
    }
}

/// Clamp a truncated coordinate into `[0, hi]`.
fn clamp_pixel(t: i64, hi: usize) -> (r: usize)
    requires
        hi <= DIM_LIMIT,
    ensures
        r == bb_clamp_t(t as int, hi as int),
{
    if t < 0 {
        0
    } else if t > hi as i64 {
        hi
    } else {
        t as usize
    }
}

/// `bb_clamp` with the truncation already done.
pub open spec fn bb_clamp_t(t: int, hi: int) -> int {
    if t < 0 {
        0
    } else if t > hi {
        hi
    } else {
        t
    }
}

impl Triangle {
    /// All projected x/y coordinates within `[-b, b]` (raw units).
    pub open spec fn xy_bounded(self, b: int) -> bool {
        &&& -b <= self.a.pos.x@ <= b && -b <= self.a.pos.y@ <= b
        &&& -b <= self.b.pos.x@ <= b && -b <= self.b.pos.y@ <= b
        &&& -b <= self.c.pos.x@ <= b && -b <= self.c.pos.y@ <= b
    }

    pub fn new(a: Vertex, b: Vertex, c: Vertex) -> (r: Triangle)
        ensures
            r.a == a,
            r.b == b,
            r.c == c,
    {
        Triangle { a, b, c }
    }

    /// The triangle's bounding box, truncated to whole pixels and
    /// clamped into `[0, width] x [0, height]`: clamped, never
    /// wrapped, so iterating it cannot leave the grid by more than
    /// the exclusive upper edge (which `Grid` clips).
    pub fn get_bounding_box(&self, width: usize, height: usize) -> (r: (usize, usize, usize,
        usize))
        requires
            width <= DIM_LIMIT,
            height <= DIM_LIMIT,
        ensures
            r.0 == bbox_spec(*self, width as int, height as int).0,
            r.1 == bbox_spec(*self, width as int, height as int).1,
            r.2 == bbox_spec(*self, width as int, height as int).2,
            r.3 == bbox_spec(*self, width as int, height as int).3,
            r.0 <= width && r.1 <= height && r.2 <= width && r.3 <= height,
    {
        let ax: i64 = self.a.pos.x.trunc();
        let ay: i64 = self.a.pos.y.trunc();
        let bx: i64 = self.b.pos.x.trunc();
        let by: i64 = self.b.pos.y.trunc();
        let cx: i64 = self.c.pos.x.trunc();
        let cy: i64 = self.c.pos.y.trunc();
        let min_x: usize = clamp_pixel(min3_i64(ax, bx, cx), width);
        let min_y: usize = clamp_pixel(min3_i64(ay, by, cy), height);
        let max_x: usize = clamp_pixel(max3_i64(ax, bx, cx), width);
        let max_y: usize = clamp_pixel(max3_i64(ay, by, cy), height);
        proof {
            lemma_trunc_min3(self.a.pos.x@, self.b.pos.x@, self.c.pos.x@);
            lemma_trunc_min3(self.a.pos.y@, self.b.pos.y@, self.c.pos.y@);
        }
        (min_x, min_y, max_x, max_y)
    }
}

/// Truncation is monotone, so truncating then taking min/max equals
/// taking min/max then truncating.
proof fn lemma_trunc_min3(a: int, b: int, c: int)
    ensures
        min3(tdiv(a, SCALE as int), tdiv(b, SCALE as int), tdiv(c, SCALE as int)) == tdiv(
            min3(a, b, c),
            SCALE as int,
        ),
        max3(tdiv(a, SCALE as int), tdiv(b, SCALE as int), tdiv(c, SCALE as int)) == tdiv(
            max3(a, b, c),
            SCALE as int,
        ),
{
    if a <= b {
        lemma_tdiv_monotone(a, b);
    } else {
        lemma_tdiv_monotone(b, a);
    }
    if a <= c {
        lemma_tdiv_monotone(a, c);
    } else {
        lemma_tdiv_monotone(c, a);
    }
    if b <= c {
        lemma_tdiv_monotone(b, c);
    } else {
        lemma_tdiv_monotone(c, b);
    }
}

/// Truncating division toward zero is monotone.
proof fn lemma_tdiv_monotone(a: int, b: int)
    requires
        a <= b,
    ensures
        tdiv(a, SCALE as int) <= tdiv(b, SCALE as int),
{
    let s = SCALE as int;
    if a >= 0 {
        vstd::arithmetic::div_mod::lemma_div_is_ordered(a, b, s);
    } else if b < 0 {
        vstd::arithmetic::div_mod::lemma_div_is_ordered(-b, -a, s);
    } else {
        assert(tdiv(a, s) == -((-a) / s));
        assert((-a) / s >= 0 && b / s >= 0) by (nonlinear_arith)
            requires
                -a >= 0,
                b >= 0,
                s >= 1,
        ;
    }
}

fn min3_i64(a: i64, b: i64, c: i64) -> (r: i64)
    ensures
        r == min3(a as int, b as int, c as int),
{
    if a <= b && a <= c {
        a
    } else if b <= c {
        b
    } else {
        c
    }
}

fn max3_i64(a: i64, b: i64, c: i64) -> (r: i64)
    ensures
        r == max3(a as int, b as int, c as int),
{
    if a >= b && a >= c {
        a
    } else if b >= c {
        b
    } else {
        c
    }
}

} // verus!
