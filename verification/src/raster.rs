//! The triangle rasterizer: edge-function fill, perspective-correct
//! depth interpolation computed exactly in integers, depth buffering,
//! and flat Lambertian shading onto a character grid.
//!
//! Screen-space coordinates are fixed-point; pixel centers sit at whole
//! units.  Edge values, barycentric weights and interpolated depths are
//! computed on exact integer products, so containment and occlusion are
//! decided exactly (no rounding enters before the final depth value).

use vstd::prelude::*;

use crate::fx::{Fx, SCALE};
use crate::grid::{lemma_row_major, Grid};
use crate::triangle::{bbox_spec, Triangle, DIM_LIMIT};
use crate::vector3::Vector3;

verus! {

/// Screen-space coordinates the rasterizer accepts (2^36 raw units):
/// all edge products then fit comfortably in an `i128`.
pub const RASTER_BOUND: i64 = 0x10_0000_0000;

/// The signed edge function: twice the signed area of the triangle
/// `(a, b, p)`; positive when `p` lies to the left of the directed
/// line from `a` to `b`.
pub open spec fn edge_raw(ax: int, ay: int, bx: int, by: int, px: int, py: int) -> int {
    (py - ay) * (bx - ax) - (px - ax) * (by - ay)
}

/// Edge value of the pair (a, b) against a point.
pub open spec fn e_ab(t: Triangle, px: int, py: int) -> int {
    edge_raw(t.a.pos.x@, t.a.pos.y@, t.b.pos.x@, t.b.pos.y@, px, py)
}

/// Edge value of the pair (b, c) against a point.
pub open spec fn e_bc(t: Triangle, px: int, py: int) -> int {
    edge_raw(t.b.pos.x@, t.b.pos.y@, t.c.pos.x@, t.c.pos.y@, px, py)
}

/// Edge value of the pair (c, a) against a point.
pub open spec fn e_ca(t: Triangle, px: int, py: int) -> int {
    edge_raw(t.c.pos.x@, t.c.pos.y@, t.a.pos.x@, t.a.pos.y@, px, py)
}

/// Twice the triangle's signed area: the common denominator of the
/// barycentric weights.
pub open spec fn tri_area2(t: Triangle) -> int {
    edge_raw(t.a.pos.x@, t.a.pos.y@, t.b.pos.x@, t.b.pos.y@, t.c.pos.x@, t.c.pos.y@)
}

/// A point is inside when the three edge values agree in sign (all at
/// least 0 or all at most 0): winding-order agnostic.
pub open spec fn covered_raw(t: Triangle, px: int, py: int) -> bool {
    ||| (e_ab(t, px, py) >= 0 && e_bc(t, px, py) >= 0 && e_ca(t, px, py) >= 0)
    ||| (e_ab(t, px, py) <= 0 && e_bc(t, px, py) <= 0 && e_ca(t, px, py) <= 0)
}

/// Containment of the pixel center `(x, y, 0)`.
pub open spec fn covered(t: Triangle, x: int, y: int) -> bool {
    covered_raw(t, x * SCALE, y * SCALE)
}

pub open spec fn abs_i(v: int) -> int {
    if v >= 0 {
        v
    } else {
        -v
    }
}

/// The exact denominator of the perspective-correct depth at a pixel:
/// each vertex's (unsigned) barycentric weight times the other two
/// vertices' depths.  Algebraically this is `area * sum(w_i / z_i)`
/// with the divisions cleared.
pub open spec fn pix_denom(t: Triangle, x: int, y: int) -> int {
    abs_i(e_bc(t, x * SCALE, y * SCALE)) * (t.b.pos.z@ * t.c.pos.z@) + abs_i(
        e_ca(t, x * SCALE, y * SCALE),
    ) * (t.a.pos.z@ * t.c.pos.z@) + abs_i(e_ab(t, x * SCALE, y * SCALE)) * (t.a.pos.z@
        * t.b.pos.z@)
}

/// The perspective-correct interpolated depth at a pixel: the inverse
/// of the barycentric combination of the vertices' inverse depths,
/// computed exactly on cleared denominators (defined when
/// `pix_denom > 0`).
pub open spec fn pix_depth(t: Triangle, x: int, y: int) -> int {
    abs_i(tri_area2(t)) * (t.a.pos.z@ * (t.b.pos.z@ * t.c.pos.z@)) / pix_denom(t, x, y)
}

/// All three depths lie in the canonical `[0, 1]` range.
pub open spec fn z_ok(t: Triangle) -> bool {
    &&& 0 <= t.a.pos.z@ <= SCALE
    &&& 0 <= t.b.pos.z@ <= SCALE
    &&& 0 <= t.c.pos.z@ <= SCALE
}

pub open spec fn in_bbox(bb: (int, int, int, int), x: int, y: int) -> bool {
    bb.0 <= x <= bb.2 && bb.1 <= y <= bb.3
}

/// The triangle wins a pixel outright: it covers the center, the
/// interpolated depth is defined, and it beats the stored depth
/// strictly (nearer-wins; on exact ties the first writer keeps the
/// pixel).
pub open spec fn wins(t: Triangle, x: int, y: int, stored: int) -> bool {
    &&& covered(t, x, y)
    &&& pix_denom(t, x, y) > 0
    &&& pix_depth(t, x, y) < stored
}

/// Whether the rasterizer writes a pixel: it lies in the clamped
/// bounding box and the triangle wins it.
pub open spec fn pix_writes(t: Triangle, x: int, y: int, bb: (int, int, int, int), stored: int,
) -> bool {
    in_bbox(bb, x, y) && wins(t, x, y, stored)
}

/// The three edge values against any point sum to the doubled area:
/// the sub-triangles at a point partition the whole triangle.
pub proof fn lemma_edge_sum(t: Triangle, px: int, py: int)
    ensures
        e_ab(t, px, py) + e_bc(t, px, py) + e_ca(t, px, py) == tri_area2(t),
{
    lemma_edge_sum_raw(
        t.a.pos.x@,
        t.a.pos.y@,
        t.b.pos.x@,
        t.b.pos.y@,
        t.c.pos.x@,
        t.c.pos.y@,
        px,
        py,
    );
}

/// The edge-sum identity on plain integers: each product is expanded
/// by distributivity and the monomials cancel linearly.
proof fn lemma_edge_sum_raw(
    ax: int,
    ay: int,
    bx: int,
    by: int,
    cx: int,
    cy: int,
    px: int,
    py: int,
)
    ensures
        ((py - ay) * (bx - ax) - (px - ax) * (by - ay)) + ((py - by) * (cx - bx) - (px - bx) * (cy
            - by)) + ((py - cy) * (ax - cx) - (px - cx) * (ay - cy)) == (cy - ay) * (bx - ax) - (cx
            - ax) * (by - ay),
{
    assert((py - ay) * (bx - ax) == bx * py - ax * py - ay * bx + ax * ay) by (nonlinear_arith);
    assert((px - ax) * (by - ay) == by * px - ay * px - ax * by + ax * ay) by (nonlinear_arith);
    assert((py - by) * (cx - bx) == cx * py - bx * py - by * cx + bx * by) by (nonlinear_arith);
    assert((px - bx) * (cy - by) == cy * px - by * px - bx * cy + bx * by) by (nonlinear_arith);
    assert((py - cy) * (ax - cx) == ax * py - cx * py - ax * cy + cx * cy) by (nonlinear_arith);
    assert((px - cx) * (ay - cy) == ay * px - cy * px - ay * cx + cx * cy) by (nonlinear_arith);
    assert((cy - ay) * (bx - ax) == bx * cy - ax * cy - ay * bx + ax * ay) by (nonlinear_arith);
    assert((cx - ax) * (by - ay) == by * cx - ay * cx - ax * by + ax * ay) by (nonlinear_arith);
}

/// The exact edge function on wide integers.
fn edge_i128(ax: i128, ay: i128, bx: i128, by: i128, px: i128, py: i128) -> (r: i128)
    requires
        -0x10_0000_0000 <= ax <= 0x10_0000_0000,
        -0x10_0000_0000 <= ay <= 0x10_0000_0000,
        -0x10_0000_0000 <= bx <= 0x10_0000_0000,
        -0x10_0000_0000 <= by <= 0x10_0000_0000,
        -0x10_0000_0000 <= px <= 0x10_0000_0000,
        -0x10_0000_0000 <= py <= 0x10_0000_0000,
    ensures
        r == edge_raw(ax as int, ay as int, bx as int, by as int, px as int, py as int),
        -0x800_0000_0000_0000_0000 <= r <= 0x800_0000_0000_0000_0000,
{
    proof {
        assert((py - ay) * (bx - ax) <= 0x400_0000_0000_0000_0000 && (py - ay) * (bx - ax)
            >= -0x400_0000_0000_0000_0000 && (px - ax) * (by - ay) <= 0x400_0000_0000_0000_0000
            && (px - ax) * (by - ay) >= -0x400_0000_0000_0000_0000) by (nonlinear_arith)
            requires
                -0x20_0000_0000 <= py - ay <= 0x20_0000_0000,
                -0x20_0000_0000 <= bx - ax <= 0x20_0000_0000,
                -0x20_0000_0000 <= px - ax <= 0x20_0000_0000,
                -0x20_0000_0000 <= by - ay <= 0x20_0000_0000,
        ;
    }
    (py - ay) * (bx - ax) - (px - ax) * (by - ay)
}

/// The signed edge function on screen-space points, as a fixed-point
/// value (the exact doubled area scaled back down).
pub fn edge_function(a: &Vector3, b: &Vector3, c: &Vector3) -> (r: Fx)
    requires
        a.bounded(RASTER_BOUND as int),
        b.bounded(RASTER_BOUND as int),
        c.bounded(RASTER_BOUND as int),
    ensures
        r@ == crate::fx::tdiv(
            edge_raw(a.x@, a.y@, b.x@, b.y@, c.x@, c.y@),
            SCALE as int,
        ),
{
    let e: i128 = edge_i128(
        a.x.raw as i128,
        a.y.raw as i128,
        b.x.raw as i128,
        b.y.raw as i128,
        c.x.raw as i128,
        c.y.raw as i128,
    );
    let q: i128 = crate::fx::tdiv_i128(e, SCALE as i128);
    proof {
        crate::fx::lemma_tdiv_mag(e as int, SCALE as int);
    }
    Fx { raw: q as i64 }
}

/// Whether a screen-space point lies inside the triangle: the three
/// edge values agree in sign, whichever way the vertices wind.
pub fn check_inside(tri: &Triangle, p: &Vector3) -> (r: bool)
    requires
        tri.xy_bounded(RASTER_BOUND as int),
        p.bounded(RASTER_BOUND as int),
    ensures
        r == covered_raw(*tri, p.x@, p.y@),
{
    let px: i128 = p.x.raw as i128;
    let py: i128 = p.y.raw as i128;
    let e0: i128 = edge_i128(
        tri.a.pos.x.raw as i128,
        tri.a.pos.y.raw as i128,
        tri.b.pos.x.raw as i128,
        tri.b.pos.y.raw as i128,
        px,
        py,
    );
    let e1: i128 = edge_i128(
        tri.b.pos.x.raw as i128,
        tri.b.pos.y.raw as i128,
        tri.c.pos.x.raw as i128,
        tri.c.pos.y.raw as i128,
        px,
        py,
    );
    let e2: i128 = edge_i128(
        tri.c.pos.x.raw as i128,
        tri.c.pos.y.raw as i128,
        tri.a.pos.x.raw as i128,
        tri.a.pos.y.raw as i128,
        px,
        py,
    );
    (e0 >= 0 && e1 >= 0 && e2 >= 0) || (e0 <= 0 && e1 <= 0 && e2 <= 0)
}

/// Sample the triangle at a pixel center: `Some` holds the exact
/// interpolated depth when the pixel is covered and the depth is
/// defined; `None` otherwise.
fn pixel_sample(t: &Triangle, x: usize, y: usize) -> (r: Option<i64>)
    requires
        t.xy_bounded(RASTER_BOUND as int),
        z_ok(*t),
        x <= DIM_LIMIT,
        y <= DIM_LIMIT,
    ensures
        match r {
            Some(d) => covered(*t, x as int, y as int) && pix_denom(*t, x as int, y as int) > 0
                && d == pix_depth(*t, x as int, y as int) && 0 <= d
                <= SCALE as int * SCALE as int * SCALE as int,
            None => !(covered(*t, x as int, y as int) && pix_denom(*t, x as int, y as int) > 0),
        },
{
    let px: i128 = (x as i128) * 65536;
    let py: i128 = (y as i128) * 65536;
    let ax: i128 = t.a.pos.x.raw as i128;
    let ay: i128 = t.a.pos.y.raw as i128;
    let bx: i128 = t.b.pos.x.raw as i128;
    let by: i128 = t.b.pos.y.raw as i128;
    let cx: i128 = t.c.pos.x.raw as i128;
    let cy: i128 = t.c.pos.y.raw as i128;
    let e0: i128 = edge_i128(ax, ay, bx, by, px, py);
    let e1: i128 = edge_i128(bx, by, cx, cy, px, py);
    let e2: i128 = edge_i128(cx, cy, ax, ay, px, py);
    let inside: bool = (e0 >= 0 && e1 >= 0 && e2 >= 0) || (e0 <= 0 && e1 <= 0 && e2 <= 0);
    if !inside {
        return None;
    }
    let wa: i128 = if e1 >= 0 {
        e1
    } else {
        -e1
    };
    let wb: i128 = if e2 >= 0 {
        e2
    } else {
        -e2
    };
    let wc: i128 = if e0 >= 0 {
        e0
    } else {
        -e0
    };
    let za: i128 = t.a.pos.z.raw as i128;
    let zb: i128 = t.b.pos.z.raw as i128;
    let zc: i128 = t.c.pos.z.raw as i128;
    proof {
        lemma_denom_terms(wa as int, wb as int, wc as int, za as int, zb as int, zc as int);
    }
    let denom: i128 = wa * (zb * zc) + wb * (za * zc) + wc * (za * zb);
    if denom <= 0 {
        return None;
    }
    let abc: i128 = edge_i128(ax, ay, bx, by, cx, cy);
    let aa: i128 = if abc >= 0 {
        abc
    } else {
        -abc
    };
    proof {
        lemma_num_bound(aa as int, za as int, zb as int, zc as int);
    }
    let num: i128 = aa * (za * (zb * zc));
    let q: u128 = (num as u128) / (denom as u128);
    proof {
        lemma_edge_sum(*t, px as int, py as int);
        lemma_depth_fits(
            wa as int,
            wb as int,
            wc as int,
            za as int,
            zb as int,
            zc as int,
            aa as int,
        );
        vstd::arithmetic::div_mod::lemma_div_pos_is_pos(num as int, denom as int);
    }
    Some(q as i64)
}

/// The denominator's three terms are products of bounded nonnegative
/// factors: each fits far inside an `i128` and is nonnegative.
proof fn lemma_denom_terms(wa: int, wb: int, wc: int, za: int, zb: int, zc: int)
    requires
        0 <= wa <= 0x800_0000_0000_0000_0000,
        0 <= wb <= 0x800_0000_0000_0000_0000,
        0 <= wc <= 0x800_0000_0000_0000_0000,
        0 <= za <= SCALE,
        0 <= zb <= SCALE,
        0 <= zc <= SCALE,
    ensures
        0 <= za * zb <= 0x1_0000_0000,
        0 <= za * zc <= 0x1_0000_0000,
        0 <= zb * zc <= 0x1_0000_0000,
        0 <= za * (zb * zc) <= 0x1_0000_0000_0000,
        0 <= wa * (zb * zc) <= 0x8_0000_0000_0000_0000_0000_0000_0000,
        0 <= wb * (za * zc) <= 0x8_0000_0000_0000_0000_0000_0000_0000,
        0 <= wc * (za * zb) <= 0x8_0000_0000_0000_0000_0000_0000_0000,
{
    assert(0 <= za * zb <= 0x1_0000_0000 && 0 <= za * zc <= 0x1_0000_0000 && 0 <= zb * zc
        <= 0x1_0000_0000 && 0 <= za * (zb * zc) <= 0x1_0000_0000_0000 && 0 <= wa * (zb * zc)
        <= 0x8_0000_0000_0000_0000_0000_0000_0000 && 0 <= wb * (za * zc)
        <= 0x8_0000_0000_0000_0000_0000_0000_0000 && 0 <= wc * (za * zb)
        <= 0x8_0000_0000_0000_0000_0000_0000_0000) by (nonlinear_arith)
        requires
            0 <= wa <= 0x800_0000_0000_0000_0000,
            0 <= wb <= 0x800_0000_0000_0000_0000,
            0 <= wc <= 0x800_0000_0000_0000_0000,
            0 <= za <= 0x1_0000,
            0 <= zb <= 0x1_0000,
            0 <= zc <= 0x1_0000,
    ;
}

/// The numerator fits far inside an `i128` and is nonnegative.
proof fn lemma_num_bound(aa: int, za: int, zb: int, zc: int)
    requires
        0 <= aa <= 0x800_0000_0000_0000_0000,
        0 <= za <= SCALE,
        0 <= zb <= SCALE,
        0 <= zc <= SCALE,
    ensures
        0 <= aa * (za * (zb * zc)) <= 0x8000000000000000000000000000000,
{
    assert(0 <= aa * (za * (zb * zc)) <= 0x8000000000000000000000000000000)
        by (nonlinear_arith)
        requires
            0 <= aa <= 0x800_0000_0000_0000_0000,
            0 <= za <= 0x1_0000,
            0 <= zb <= 0x1_0000,
            0 <= zc <= 0x1_0000,
    ;
}

/// The interpolated depth never exceeds the product of the three
/// depths (so it fits in an `i64`): when no depth is zero the
/// denominator dominates the doubled area, and when one is zero the
/// numerator vanishes.
proof fn lemma_depth_fits(wa: int, wb: int, wc: int, za: int, zb: int, zc: int, aa: int)
    requires
        0 <= wa,
        0 <= wb,
        0 <= wc,
        0 <= za <= SCALE,
        0 <= zb <= SCALE,
        0 <= zc <= SCALE,
        wa + wb + wc == aa,
        wa * (zb * zc) + wb * (za * zc) + wc * (za * zb) > 0,
    ensures
        0 <= aa * (za * (zb * zc)) / (wa * (zb * zc) + wb * (za * zc) + wc * (za * zb)) <= SCALE
            as int * SCALE as int * SCALE as int,
{
    let denom = wa * (zb * zc) + wb * (za * zc) + wc * (za * zb);
    let num = aa * (za * (zb * zc));
    assert(num >= 0) by (nonlinear_arith)
        requires
            0 <= aa,
            0 <= za,
            0 <= zb,
            0 <= zc,
            num == aa * (za * (zb * zc)),
    ;
    vstd::arithmetic::div_mod::lemma_div_pos_is_pos(num, denom);
    if za == 0 || zb == 0 || zc == 0 {
        assert(num == 0) by (nonlinear_arith)
            requires
                za == 0 || zb == 0 || zc == 0,
                num == aa * (za * (zb * zc)),
        ;
        vstd::arithmetic::div_mod::lemma_div_of0(denom);
        assert(0x1_0000 * (0x1_0000 * 0x1_0000) > 0) by (nonlinear_arith);
        assert(SCALE as int * SCALE as int * SCALE as int > 0);
    } else {
        assert(denom >= aa) by (nonlinear_arith)
            requires
                1 <= za,
                1 <= zb,
                1 <= zc,
                0 <= wa,
                0 <= wb,
                0 <= wc,
                wa + wb + wc == aa,
                denom == wa * (zb * zc) + wb * (za * zc) + wc * (za * zb),
        ;
        assert(num <= denom * (za * (zb * zc))) by (nonlinear_arith)
            requires
                aa <= denom,
                0 <= za,
                0 <= zb,
                0 <= zc,
                num == aa * (za * (zb * zc)),
        ;
        vstd::arithmetic::div_mod::lemma_multiply_divide_le(num, denom, za * (zb * zc));
        assert(za * (zb * zc) <= SCALE as int * SCALE as int * SCALE as int) by (nonlinear_arith)
            requires
                0 <= za <= SCALE,
                0 <= zb <= SCALE,
                0 <= zc <= SCALE,
        ;
    }
}

/// The pixel a finished rasterization leaves in the color buffer.
pub open spec fn color_after(
    t: Triangle,
    glyph: char,
    c0: char,
    stored: int,
    x: int,
    y: int,
    bb: (int, int, int, int),
) -> char {
    if pix_writes(t, x, y, bb, stored) {
        glyph
    } else {
        c0
    }
}

/// The depth a finished rasterization leaves in the depth buffer.
pub open spec fn depth_after(t: Triangle, d0: Fx, x: int, y: int, bb: (int, int, int, int)) -> Fx {
    if pix_writes(t, x, y, bb, d0@) {
        crate::fx::fx_raw(pix_depth(t, x, y))
    } else {
        d0
    }
}

/// Pixels strictly before the scan position `(cx, cy)` in row-major
/// order have been processed.
pub open spec fn scanned(xx: int, yy: int, cx: int, cy: int) -> bool {
    yy < cy || (yy == cy && xx < cx)
}

/// Distinct in-range positions map to distinct row-major indices.
proof fn lemma_idx_inj(w: int, h: int, x1: int, y1: int, x2: int, y2: int)
    requires
        0 <= x1 < w,
        0 <= y1 < h,
        0 <= x2 < w,
        0 <= y2 < h,
        !(x1 == x2 && y1 == y2),
    ensures
        y1 * w + x1 != y2 * w + x2,
{
    assert(y1 * w + x1 != y2 * w + x2) by (nonlinear_arith)
        requires
            0 <= x1 < w,
            0 <= y1 < h,
            0 <= x2 < w,
            0 <= y2 < h,
            !(x1 == x2 && y1 == y2),
    ;
}


/// Process one pixel: test containment and depth, and overwrite the
/// two buffers when the triangle wins the pixel.
fn raster_pixel(color: &mut Grid<char>, depth: &mut Grid<Fx>, tri: &Triangle, glyph: char,
    x: usize, y: usize)
    requires
        old(color).wf(),
        old(depth).wf(),
        old(color).width == old(depth).width,
        old(color).height == old(depth).height,
        old(color).width <= DIM_LIMIT,
        old(color).height <= DIM_LIMIT,
        x <= DIM_LIMIT,
        y <= DIM_LIMIT,
        tri.xy_bounded(RASTER_BOUND as int),
        z_ok(*tri),
    ensures
        final(color).wf() && final(depth).wf(),
        final(color).width == old(color).width && final(color).height == old(color).height,
        final(depth).width == old(depth).width && final(depth).height == old(depth).height,
        !(x < old(color).width && y < old(color).height) ==> final(color)@ == old(color)@
            && final(depth)@ == old(depth)@,
        (x < old(color).width && y < old(color).height && wins(
            *tri,
            x as int,
            y as int,
            old(depth).at(x as int, y as int)@,
        )) ==> final(color)@ == old(color)@.update(y as int * old(color).width + x, glyph)
            && final(depth)@ == old(depth)@.update(
            y as int * old(color).width + x,
            crate::fx::fx_raw(pix_depth(*tri, x as int, y as int)),
        ),
        (x < old(color).width && y < old(color).height && !wins(
            *tri,
            x as int,
            y as int,
            old(depth).at(x as int, y as int)@,
        )) ==> final(color)@ == old(color)@ && final(depth)@ == old(depth)@,
{
    let stored_opt = depth.get(x, y);
    match stored_opt {
        None => {},
        Some(stored_ref) => {
            let stored: Fx = *stored_ref;
            let samp: Option<i64> = pixel_sample(tri, x, y);
            match samp {
                None => {},
                Some(d) => {
                    if d < stored.raw {
                        color.set(glyph, x, y);
                        depth.set(Fx { raw: d }, x, y);
                    }
                },
            }
        },
    }
}

/// Rasterize one screen-space triangle with a fixed glyph.
///
/// Whole triangles with any vertex depth outside `[0, 1]` are
/// discarded (a coarse culling approximation, deliberately not per-edge
/// clipping), and zero-area triangles are skipped before any division
/// can happen.  Otherwise every pixel of the clamped bounding box is
/// tested, and exactly those covered pixels whose interpolated depth
/// strictly beats the stored depth are overwritten.
pub fn draw_triangle(color: &mut Grid<char>, depth: &mut Grid<Fx>, tri: &Triangle, glyph: char)
    requires
        old(color).wf(),
        old(depth).wf(),
        old(color).width == old(depth).width,
        old(color).height == old(depth).height,
        old(color).width <= DIM_LIMIT,
        old(color).height <= DIM_LIMIT,
        tri.xy_bounded(RASTER_BOUND as int),
    ensures
        final(color).wf() && final(depth).wf(),
        final(color).width == old(color).width && final(color).height == old(color).height,
        final(depth).width == old(depth).width && final(depth).height == old(depth).height,
        !(z_ok(*tri) && tri_area2(*tri) != 0) ==> final(color)@ == old(color)@ && final(depth)@
            == old(depth)@,
        (z_ok(*tri) && tri_area2(*tri) != 0) ==> forall|xx: int, yy: int|
            #![trigger old(depth).at(xx, yy)]
            0 <= xx < old(color).width && 0 <= yy < old(color).height ==> final(color).at(xx, yy)
                == color_after(
                *tri,
                glyph,
                old(color).at(xx, yy),
                old(depth).at(xx, yy)@,
                xx,
                yy,
                bbox_spec(*tri, old(color).width as int, old(color).height as int),
            ) && final(depth).at(xx, yy) == depth_after(
                *tri,
                old(depth).at(xx, yy),
                xx,
                yy,
                bbox_spec(*tri, old(color).width as int, old(color).height as int),
            ),
{
    let w: usize = color.width;
    let h: usize = color.height;
    if tri.a.pos.z.raw < 0 || tri.a.pos.z.raw > SCALE || tri.b.pos.z.raw < 0 || tri.b.pos.z.raw
        > SCALE || tri.c.pos.z.raw < 0 || tri.c.pos.z.raw > SCALE {
        return;
    }
    let abc: i128 = edge_i128(
        tri.a.pos.x.raw as i128,
        tri.a.pos.y.raw as i128,
        tri.b.pos.x.raw as i128,
        tri.b.pos.y.raw as i128,
        tri.c.pos.x.raw as i128,
        tri.c.pos.y.raw as i128,
    );
    if abc == 0 {
        return;
    }
    let bb4 = tri.get_bounding_box(w, h);
    let min_x: usize = bb4.0;
    let min_y: usize = bb4.1;
    let max_x: usize = bb4.2;
    let max_y: usize = bb4.3;
    let ghost bb = bbox_spec(*tri, w as int, h as int);
    let ghost c0 = color@;
    let ghost d0 = depth@;
    let mut y: usize = min_y;
    while y <= max_y
        invariant
            color.wf() && depth.wf(),
            color.width == w && color.height == h,
            depth.width == w && depth.height == h,
            w <= DIM_LIMIT && h <= DIM_LIMIT,
            tri.xy_bounded(RASTER_BOUND as int),
            z_ok(*tri),
            tri_area2(*tri) != 0,
            bb == bbox_spec(*tri, w as int, h as int),
            min_x == bb.0 && min_y == bb.1 && max_x == bb.2 && max_y == bb.3,
            max_x <= w && max_y <= h,
            min_y <= y,
            y <= max_y + 1 || y == min_y,
            c0.len() == color@.len() && d0.len() == depth@.len(),
            forall|xx: int, yy: int|
                #![trigger c0[yy * w + xx]]
                    #![trigger d0[yy * w + xx]]
                0 <= xx < w && 0 <= yy < h ==> (scanned(xx, yy, min_x as int, y as int) ==> color@[yy * w + xx] == color_after(
                    *tri,
                    glyph,
                    c0[yy * w + xx],
                    d0[yy * w + xx]@,
                    xx,
                    yy,
                    bb,
                ) && depth@[yy * w + xx] == depth_after(*tri, d0[yy * w + xx], xx, yy, bb))
                && (!scanned(xx, yy, min_x as int, y as int) ==> color@[yy * w + xx] == c0[yy * w + xx]
                    && depth@[yy * w + xx] == d0[yy * w + xx]),
        decreases max_y + 1 - y,
    {
        let mut x: usize = min_x;
        while x <= max_x
            invariant
                color.wf() && depth.wf(),
                color.width == w && color.height == h,
                depth.width == w && depth.height == h,
                w <= DIM_LIMIT && h <= DIM_LIMIT,
                tri.xy_bounded(RASTER_BOUND as int),
                z_ok(*tri),
                tri_area2(*tri) != 0,
                bb == bbox_spec(*tri, w as int, h as int),
                min_x == bb.0 && min_y == bb.1 && max_x == bb.2 && max_y == bb.3,
                max_x <= w && max_y <= h,
                min_y <= y <= max_y,
                min_x <= x,
                x <= max_x + 1 || x == min_x,
                c0.len() == color@.len() && d0.len() == depth@.len(),
                forall|xx: int, yy: int|
                    #![trigger c0[yy * w + xx]]
                    #![trigger d0[yy * w + xx]]
                    0 <= xx < w && 0 <= yy < h ==> (scanned(xx, yy, x as int, y as int) ==> color@[yy * w + xx] == color_after(
                        *tri,
                        glyph,
                        c0[yy * w + xx],
                        d0[yy * w + xx]@,
                        xx,
                        yy,
                        bb,
                    ) && depth@[yy * w + xx] == depth_after(*tri, d0[yy * w + xx], xx, yy, bb))
                    && (!scanned(xx, yy, x as int, y as int) ==> color@[yy * w + xx] == c0[yy * w + xx]
                        && depth@[yy * w + xx] == d0[yy * w + xx]),
            decreases max_x + 1 - x,
        {
            raster_pixel(color, depth, tri, glyph, x, y);
            proof {
                assert forall|xx: int, yy: int|
                    #![trigger c0[yy * w + xx]]
                    #![trigger d0[yy * w + xx]]
                    0 <= xx < w && 0 <= yy < h implies (scanned(xx, yy, x as int + 1, y as int) ==> color@[yy * w + xx] == color_after(
                        *tri,
                        glyph,
                        c0[yy * w + xx],
                        d0[yy * w + xx]@,
                        xx,
                        yy,
                        bb,
                    ) && depth@[yy * w + xx] == depth_after(*tri, d0[yy * w + xx], xx, yy, bb))
                    && (!scanned(xx, yy, x as int + 1, y as int) ==> color@[yy * w + xx] == c0[yy * w + xx]
                        && depth@[yy * w + xx] == d0[yy * w + xx]) by {
                    lemma_row_major(w as int, h as int, xx, yy);
                    if x < w && y < h {
                        lemma_row_major(w as int, h as int, x as int, y as int);
                        if !(xx == x as int && yy == y as int) {
                            lemma_idx_inj(w as int, h as int, xx, yy, x as int, y as int);
                        }
                    }
                }
            }
            x = x + 1;
        }
        proof {
            assert forall|xx: int, yy: int|
                #![trigger c0[yy * w + xx]]
                    #![trigger d0[yy * w + xx]]
                0 <= xx < w && 0 <= yy < h implies (scanned(xx, yy, min_x as int, y as int + 1) ==> color@[yy * w + xx] == color_after(
                    *tri,
                    glyph,
                    c0[yy * w + xx],
                    d0[yy * w + xx]@,
                    xx,
                    yy,
                    bb,
                ) && depth@[yy * w + xx] == depth_after(*tri, d0[yy * w + xx], xx, yy, bb))
                && (!scanned(xx, yy, min_x as int, y as int + 1) ==> color@[yy * w + xx] == c0[yy * w + xx]
                    && depth@[yy * w + xx] == d0[yy * w + xx]) by {
                lemma_row_major(w as int, h as int, xx, yy);
            }
        }
        y = y + 1;
    }
    proof {
        assert forall|xx: int, yy: int|
            #![trigger c0[yy * w + xx]]
                    #![trigger d0[yy * w + xx]]
            0 <= xx < w && 0 <= yy < h implies color@[yy * w + xx] == color_after(
            *tri,
            glyph,
            c0[yy * w + xx],
            d0[yy * w + xx]@,
            xx,
            yy,
            bb,
        ) && depth@[yy * w + xx] == depth_after(*tri, d0[yy * w + xx], xx, yy, bb) by {
            lemma_row_major(w as int, h as int, xx, yy);
        }
    }
}

/// A normalized vector's components never exceed one unit: each raw
/// component is bounded by the vector's raw length.
pub proof fn lemma_normalize_unit_bound(v: Vector3)
    requires
        v.bounded(crate::fx::FX_BOUND as int),
        !v.is_zero(),
    ensures
        -SCALE <= crate::fx::fdiv(v.x@, v.len_raw()) <= SCALE,
        -SCALE <= crate::fx::fdiv(v.y@, v.len_raw()) <= SCALE,
        -SCALE <= crate::fx::fdiv(v.z@, v.len_raw()) <= SCALE,
{
    crate::vector3::lemma_len_raw_pos(v);
    crate::fx::lemma_isqrt_bounds(v.len2());
    let lr = v.len_raw();
    assert(v.x@ * v.x@ <= v.len2() && v.y@ * v.y@ <= v.len2() && v.z@ * v.z@ <= v.len2())
        by (nonlinear_arith)
        requires
            v.len2() == v.x@ * v.x@ + v.y@ * v.y@ + v.z@ * v.z@,
    ;
    lemma_comp_le_len(v.x@, v.len2(), lr);
    lemma_comp_le_len(v.y@, v.len2(), lr);
    lemma_comp_le_len(v.z@, v.len2(), lr);
    lemma_unit_quotient(v.x@, lr);
    lemma_unit_quotient(v.y@, lr);
    lemma_unit_quotient(v.z@, lr);
}

/// A component whose square is part of the length's square cannot
/// exceed the length.
proof fn lemma_comp_le_len(x: int, n: int, lr: int)
    requires
        x * x <= n,
        0 <= lr,
        n < (lr + 1) * (lr + 1),
    ensures
        -lr <= x <= lr,
{
    assert(-lr <= x <= lr) by (nonlinear_arith)
        requires
            x * x <= n,
            0 <= lr,
            n < (lr + 1) * (lr + 1),
    ;
}

/// Dividing a component by a length at least as large keeps the
/// quotient within one fixed-point unit.
proof fn lemma_unit_quotient(x: int, lr: int)
    requires
        1 <= lr,
        -lr <= x <= lr,
    ensures
        -SCALE <= crate::fx::fdiv(x, lr) <= SCALE,
{
    let am = if x >= 0 { x } else { -x };
    assert(am * SCALE <= lr * SCALE) by (nonlinear_arith)
        requires
            am <= lr,
            SCALE >= 1,
    ;
    vstd::arithmetic::div_mod::lemma_div_is_ordered(am * SCALE, lr * SCALE, lr);
    vstd::arithmetic::div_mod::lemma_div_multiples_vanish(SCALE as int, lr);
    vstd::arithmetic::div_mod::lemma_div_pos_is_pos(am * SCALE, lr);
    assert(-(am * SCALE) == (-am) * SCALE) by (nonlinear_arith);
}

/// The Lambertian intensity of the canonical shading formula:
/// `clamp(dot(normal, normalize(light - normal)), 0, 1)`.  The light
/// term subtracts the normal itself rather than using a
/// surface-to-light vector; this non-physical formula is canonical
/// here and preserved exactly.
pub open spec fn lambert_spec(n: Vector3, l: Vector3) -> int {
    let dx = l.x@ - n.x@;
    let dy = l.y@ - n.y@;
    let dz = l.z@ - n.z@;
    let len = crate::fx::isqrt(dx * dx + dy * dy + dz * dz);
    let ix = crate::fx::fmul(n.x@, crate::fx::fdiv(dx, len)) + crate::fx::fmul(
        n.y@,
        crate::fx::fdiv(dy, len),
    ) + crate::fx::fmul(n.z@, crate::fx::fdiv(dz, len));
    if ix < 0 {
        0
    } else if ix > SCALE {
        SCALE as int
    } else {
        ix
    }
}

/// Half of `FX_BOUND`: shading operands stay below this so their
/// difference still fits the algebra's range.
pub const SHADE_BOUND: i64 = 0x20_0000_0000;

/// The Lambertian intensity, clamped into `[0, 1]`.
pub fn shade_intensity(normal: &Vector3, light: &Vector3) -> (r: Fx)
    requires
        normal.bounded(SHADE_BOUND as int),
        light.bounded(SHADE_BOUND as int),
        !(light.x@ == normal.x@ && light.y@ == normal.y@ && light.z@ == normal.z@),
    ensures
        r@ == lambert_spec(*normal, *light),
        0 <= r@ <= SCALE,
{
    let d: Vector3 = light.sub(*normal);
    let dn: Vector3 = d.normalize();
    proof {
        lemma_normalize_unit_bound(d);
    }
    let i: Fx = normal.dot(dn);
    i.clamp(Fx { raw: 0 }, Fx { raw: SCALE })
}

/// The ramp slot for an intensity: `round(intensity * (len - 1))`.
pub open spec fn ramp_index_spec(i: int, len: int) -> int {
    (i * (len - 1) + (SCALE as int) / 2) / (SCALE as int)
}

/// Map a clamped intensity to an index into a gradient ramp of the
/// given length: always in range.
pub fn ramp_index(intensity: Fx, len: usize) -> (r: usize)
    requires
        0 <= intensity@ <= SCALE,
        1 <= len <= 0x1000,
    ensures
        r == ramp_index_spec(intensity@, len as int),
        r < len,
{
    proof {
        assert(0 <= intensity.raw * ((len - 1) as int) <= 0xFFF_0000) by (nonlinear_arith)
            requires
                0 <= intensity.raw <= 0x1_0000,
                0 <= (len - 1) as int <= 0xFFF,
        ;
    }
    let t: u64 = (intensity.raw as u64) * ((len - 1) as u64) + (SCALE as u64) / 2;
    proof {
        assert(t < len * (SCALE as int)) by (nonlinear_arith)
            requires
                t == intensity.raw * ((len - 1) as int) + (SCALE as int) / 2,
                0 <= intensity.raw <= SCALE,
                1 <= len <= 0x1000,
        ;
        vstd::arithmetic::div_mod::lemma_multiply_divide_lt(
            t as int,
            SCALE as int,
            len as int,
        );
        vstd::arithmetic::div_mod::lemma_div_pos_is_pos(t as int, SCALE as int);
    }
    (t / (SCALE as u64)) as usize
}

/// The glyph the shading stage picks for a triangle.
pub open spec fn glyph_spec(n: Vector3, l: Vector3, ramp: Seq<char>) -> char {
    ramp[ramp_index_spec(lambert_spec(n, l), ramp.len() as int)]
}

/// Shade a triangle: intensity mapped into a fixed ASCII gradient
/// ramp.
pub fn shade_char(normal: &Vector3, light: &Vector3, ramp: &Vec<char>) -> (r: char)
    requires
        normal.bounded(SHADE_BOUND as int),
        light.bounded(SHADE_BOUND as int),
        !(light.x@ == normal.x@ && light.y@ == normal.y@ && light.z@ == normal.z@),
        1 <= ramp@.len() <= 0x1000,
    ensures
        r == glyph_spec(*normal, *light, ramp@),
{
    let i: Fx = shade_intensity(normal, light);
    let idx: usize = ramp_index(i, ramp.len());
    ramp[idx]
}

/// Rasterize one triangle with Lambertian shading: the glyph comes
/// from the normal, the light direction and the gradient ramp, and
/// the fill follows `draw_triangle`'s exact per-pixel contract.
pub fn render_triangle(
    color: &mut Grid<char>,
    depth: &mut Grid<Fx>,
    tri: &Triangle,
    normal: &Vector3,
    light: &Vector3,
    ramp: &Vec<char>,
) -> (g: char)
    requires
        old(color).wf(),
        old(depth).wf(),
        old(color).width == old(depth).width,
        old(color).height == old(depth).height,
        old(color).width <= DIM_LIMIT,
        old(color).height <= DIM_LIMIT,
        tri.xy_bounded(RASTER_BOUND as int),
        normal.bounded(SHADE_BOUND as int),
        light.bounded(SHADE_BOUND as int),
        !(light.x@ == normal.x@ && light.y@ == normal.y@ && light.z@ == normal.z@),
        1 <= ramp@.len() <= 0x1000,
    ensures
        g == glyph_spec(*normal, *light, ramp@),
        final(color).wf() && final(depth).wf(),
        final(color).width == old(color).width && final(color).height == old(color).height,
        final(depth).width == old(depth).width && final(depth).height == old(depth).height,
        !(z_ok(*tri) && tri_area2(*tri) != 0) ==> final(color)@ == old(color)@ && final(depth)@
            == old(depth)@,
        (z_ok(*tri) && tri_area2(*tri) != 0) ==> forall|xx: int, yy: int|
            #![trigger old(depth).at(xx, yy)]
            0 <= xx < old(color).width && 0 <= yy < old(color).height ==> final(color).at(xx, yy)
                == color_after(
                *tri,
                glyph_spec(*normal, *light, ramp@),
                old(color).at(xx, yy),
                old(depth).at(xx, yy)@,
                xx,
                yy,
                bbox_spec(*tri, old(color).width as int, old(color).height as int),
            ) && final(depth).at(xx, yy) == depth_after(
                *tri,
                old(depth).at(xx, yy),
                xx,
                yy,
                bbox_spec(*tri, old(color).width as int, old(color).height as int),
            ),
{
    let g: char = shade_char(normal, light, ramp);
    draw_triangle(color, depth, tri, g);
    g
}

/// Map a point from normalized device coordinates (x and y in
/// `[-1, 1]`, y up) to screen space: x across `[0, width - 1]`, y
/// down across `[0, height - 1]`, depth unchanged.
pub fn to_screen(ndc: &Vector3, width: usize, height: usize) -> (r: Vector3)
    requires
        ndc.bounded(crate::fx::FX_BOUND as int),
        1 <= width <= DIM_LIMIT,
        1 <= height <= DIM_LIMIT,
    ensures
        r.x@ == crate::fx::tdiv((ndc.x@ + SCALE) * (width - 1), 2),
        r.y@ == crate::fx::tdiv((SCALE - ndc.y@) * (height - 1), 2),
        r.z == ndc.z,
{
    proof {
        assert(-0x800_0000_0000_0000 <= (ndc.x@ + SCALE) * ((width - 1) as int)
            <= 0x800_0000_0000_0000 && -0x800_0000_0000_0000 <= (SCALE - ndc.y@) * ((
        height - 1) as int) <= 0x800_0000_0000_0000) by (nonlinear_arith)
            requires
                -0x40_0000_0000 <= ndc.x@ <= 0x40_0000_0000,
                -0x40_0000_0000 <= ndc.y@ <= 0x40_0000_0000,
                0 <= (width - 1) as int <= 0x10_0000,
                0 <= (height - 1) as int <= 0x10_0000,
        ;
    }
    let tx: i128 = (ndc.x.raw as i128 + SCALE as i128) * ((width - 1) as i128);
    let ty: i128 = (SCALE as i128 - ndc.y.raw as i128) * ((height - 1) as i128);
    let qx: i128 = crate::fx::tdiv_i128(tx, 2);
    let qy: i128 = crate::fx::tdiv_i128(ty, 2);
    proof {
        crate::fx::lemma_tdiv_mag(tx as int, 2);
        crate::fx::lemma_tdiv_mag(ty as int, 2);
    }
    Vector3 { x: Fx { raw: qx as i64 }, y: Fx { raw: qy as i64 }, z: ndc.z }
}

/// One pixel's (glyph, depth) state after one triangle is drawn over
/// it.
pub open spec fn pixel_after(
    t: Triangle,
    bb: (int, int, int, int),
    glyph: char,
    c: char,
    d: Fx,
    x: int,
    y: int,
) -> (char, Fx) {
    if pix_writes(t, x, y, bb, d@) {
        (glyph, crate::fx::fx_raw(pix_depth(t, x, y)))
    } else {
        (c, d)
    }
}

/// A defined interpolated depth lies in `[0, 1]` cubed-scale range
/// whenever the triangle passes the depth-range check.
pub proof fn lemma_pix_depth_bounds(t: Triangle, x: int, y: int)
    requires
        z_ok(t),
        covered(t, x, y),
        pix_denom(t, x, y) > 0,
    ensures
        0 <= pix_depth(t, x, y) <= SCALE as int * SCALE as int * SCALE as int,
{
    lemma_edge_sum(t, x * SCALE, y * SCALE);
    let wa = abs_i(e_bc(t, x * SCALE, y * SCALE));
    let wb = abs_i(e_ca(t, x * SCALE, y * SCALE));
    let wc = abs_i(e_ab(t, x * SCALE, y * SCALE));
    lemma_depth_fits(
        wa,
        wb,
        wc,
        t.a.pos.z@,
        t.b.pos.z@,
        t.c.pos.z@,
        abs_i(tri_area2(t)),
    );
}

/// Occlusion is draw-order independent: when two triangles both cover
/// a pixel with distinct defined depths, drawing them in either order
/// leaves the same glyph and depth; and when the nearer one also beats
/// the buffer, that is the glyph the pixel shows.
pub proof fn lemma_draw_order_independent(
    t1: Triangle,
    t2: Triangle,
    bb1: (int, int, int, int),
    bb2: (int, int, int, int),
    g1: char,
    g2: char,
    c: char,
    d: Fx,
    x: int,
    y: int,
)
    requires
        z_ok(t1) && z_ok(t2),
        in_bbox(bb1, x, y) && in_bbox(bb2, x, y),
        covered(t1, x, y) && covered(t2, x, y),
        pix_denom(t1, x, y) > 0 && pix_denom(t2, x, y) > 0,
        pix_depth(t1, x, y) != pix_depth(t2, x, y),
    ensures
        ({
            let p1 = pixel_after(t1, bb1, g1, c, d, x, y);
            pixel_after(t2, bb2, g2, p1.0, p1.1, x, y)
        }) == ({
            let p2 = pixel_after(t2, bb2, g2, c, d, x, y);
            pixel_after(t1, bb1, g1, p2.0, p2.1, x, y)
        }),
        (pix_depth(t1, x, y) < pix_depth(t2, x, y) && pix_depth(t1, x, y) < d@) ==> ({
            let p1 = pixel_after(t1, bb1, g1, c, d, x, y);
            pixel_after(t2, bb2, g2, p1.0, p1.1, x, y)
        }) == (g1, crate::fx::fx_raw(pix_depth(t1, x, y))),
        (pix_depth(t2, x, y) < pix_depth(t1, x, y) && pix_depth(t2, x, y) < d@) ==> ({
            let p1 = pixel_after(t1, bb1, g1, c, d, x, y);
            pixel_after(t2, bb2, g2, p1.0, p1.1, x, y)
        }) == (g2, crate::fx::fx_raw(pix_depth(t2, x, y))),
{
    lemma_pix_depth_bounds(t1, x, y);
    lemma_pix_depth_bounds(t2, x, y);
    assert(crate::fx::fx_raw(pix_depth(t1, x, y))@ == pix_depth(t1, x, y));
    assert(crate::fx::fx_raw(pix_depth(t2, x, y))@ == pix_depth(t2, x, y));
}

/// Object-space coordinates accepted by the flat-normal computation
/// (2^25 raw units): the cross product's entries then stay within the
/// algebra's range.
pub const NORMAL_BOUND: i64 = 0x200_0000;

/// The unnormalized flat normal: `cross(b - a, c - a)`.
pub open spec fn face_cross(t: Triangle) -> Vector3 {
    let ux = t.b.pos.x@ - t.a.pos.x@;
    let uy = t.b.pos.y@ - t.a.pos.y@;
    let uz = t.b.pos.z@ - t.a.pos.z@;
    let vx = t.c.pos.x@ - t.a.pos.x@;
    let vy = t.c.pos.y@ - t.a.pos.y@;
    let vz = t.c.pos.z@ - t.a.pos.z@;
    crate::matrix3::v3_raw(
        crate::fx::fmul(uy, vz) - crate::fx::fmul(uz, vy),
        crate::fx::fmul(uz, vx) - crate::fx::fmul(ux, vz),
        crate::fx::fmul(ux, vy) - crate::fx::fmul(uy, vx),
    )
}

/// The triangle's unit flat normal in object space, or `None` for a
/// degenerate (zero-area) triangle, whose normal is undefined.
pub fn face_normal(t: &Triangle) -> (r: Option<Vector3>)
    requires
        t.a.pos.bounded(NORMAL_BOUND as int),
        t.b.pos.bounded(NORMAL_BOUND as int),
        t.c.pos.bounded(NORMAL_BOUND as int),
    ensures
        r is Some <==> !face_cross(*t).is_zero(),
        r matches Some(n) ==> {
            &&& n.x@ == crate::fx::fdiv(face_cross(*t).x@, face_cross(*t).len_raw())
            &&& n.y@ == crate::fx::fdiv(face_cross(*t).y@, face_cross(*t).len_raw())
            &&& n.z@ == crate::fx::fdiv(face_cross(*t).z@, face_cross(*t).len_raw())
        },
{
    let ab: Vector3 = t.b.pos.sub(t.a.pos);
    let ac: Vector3 = t.c.pos.sub(t.a.pos);
    let cr: Vector3 = ab.cross(ac);
    proof {
        crate::fx::lemma_fmul_bounds(ab.y@, ac.z@, 0x400_0000, 0x400_0000);
        crate::fx::lemma_fmul_bounds(ab.z@, ac.y@, 0x400_0000, 0x400_0000);
        crate::fx::lemma_fmul_bounds(ab.z@, ac.x@, 0x400_0000, 0x400_0000);
        crate::fx::lemma_fmul_bounds(ab.x@, ac.z@, 0x400_0000, 0x400_0000);
        crate::fx::lemma_fmul_bounds(ab.x@, ac.y@, 0x400_0000, 0x400_0000);
        crate::fx::lemma_fmul_bounds(ab.y@, ac.x@, 0x400_0000, 0x400_0000);
    }
    if cr.x.raw == 0 && cr.y.raw == 0 && cr.z.raw == 0 {
        None
    } else {
        Some(cr.normalize())
    }
}

} // verus!
