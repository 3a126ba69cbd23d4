//! Fixed-point sine and cosine.
//!
//! An angle is reduced into `[-pi, pi]`, folded into the first quadrant
//! by the usual symmetries, and evaluated by a degree-7 (sine) or
//! degree-6 (cosine) Taylor polynomial, clamped into `[-1, 1]`.  The
//! contracts pin the computed value exactly: the spec functions below
//! are the definition of what the library means by sine and cosine.

use vstd::prelude::*;

use crate::fx::{lemma_tdiv_mag, lemma_tdiv_shrink, tdiv, Fx, SCALE};

verus! {

/// Fixed-point pi (rounded down).
pub const PI_FX: i64 = 205887;

/// Fixed-point 2*pi, kept at exactly twice `PI_FX`.
pub const TWO_PI_FX: i64 = 411774;

/// Fixed-point pi/2 (rounded to nearest).
pub const HALF_PI_FX: i64 = 102944;

/// Fixed-point pi/180, the radians in one degree (rounded to nearest).
pub const RAD_PER_DEG_FX: i64 = 1144;

/// Shift by whole turns until the angle lies in `[-PI_FX, PI_FX]`.
pub open spec fn reduce_rad(x: int) -> int
    decreases (if x >= 0 { x } else { -x }),
{
    if x > PI_FX {
        reduce_rad(x - TWO_PI_FX)
    } else if x < -PI_FX {
        reduce_rad(x + TWO_PI_FX)
    } else {
        x
    }
}

/// Taylor polynomial for sine on the first quadrant:
/// `x - x^3/6 + x^5/120 - x^7/5040`, each power scaled back down.
pub open spec fn sin_poly(x: int) -> int {
    let x2 = tdiv(x * x, SCALE as int);
    let x3 = tdiv(x2 * x, SCALE as int);
    let x5 = tdiv(x3 * x2, SCALE as int);
    let x7 = tdiv(x5 * x2, SCALE as int);
    x - tdiv(x3, 6) + tdiv(x5, 120) - tdiv(x7, 5040)
}

/// Taylor polynomial for cosine on the first quadrant:
/// `1 - x^2/2 + x^4/24 - x^6/720`, each power scaled back down.
pub open spec fn cos_poly(x: int) -> int {
    let x2 = tdiv(x * x, SCALE as int);
    let x4 = tdiv(x2 * x2, SCALE as int);
    let x6 = tdiv(x4 * x2, SCALE as int);
    SCALE - tdiv(x2, 2) + tdiv(x4, 24) - tdiv(x6, 720)
}

/// Fold a reduced angle into the first quadrant for sine:
/// `sin(pi - x) == sin(x)` and `sin(-pi - x) == -sin(pi + x)`.
pub open spec fn sin_fold(r: int) -> int {
    if r > HALF_PI_FX {
        sin_poly(PI_FX - r)
    } else if r < -HALF_PI_FX {
        -sin_poly(PI_FX + r)
    } else {
        sin_poly(r)
    }
}

/// Fold a reduced angle into the first quadrant for cosine:
/// cosine is even, and `cos(x) == -cos(pi - x)` past a quarter turn.
pub open spec fn cos_fold(r: int) -> int {
    let a = if r >= 0 { r } else { -r };
    if a > HALF_PI_FX {
        -cos_poly(PI_FX - a)
    } else {
        cos_poly(a)
    }
}

/// Clamp into the fixed-point interval `[-1, 1]`.
pub open spec fn clamp_one(v: int) -> int {
    if v > SCALE {
        SCALE as int
    } else if v < -SCALE {
        -(SCALE as int)
    } else {
        v
    }
}

/// What `sin_fx` computes of a raw angle in radians.
pub open spec fn sin_spec(x: int) -> int {
    clamp_one(sin_fold(reduce_rad(x)))
}

/// What `cos_fx` computes of a raw angle in radians.
pub open spec fn cos_spec(x: int) -> int {
    clamp_one(cos_fold(reduce_rad(x)))
}

/// Truncating division of `i64` values by a positive divisor.
fn tdiv64(a: i64, b: i64) -> (q: i64)
    requires
        b >= 1,
    ensures
        q == tdiv(a as int, b as int),
{
    proof {
        lemma_tdiv_mag(a as int, b as int);
    }
    let q: i128 = crate::fx::tdiv_i128(a as i128, b as i128);
    q as i64
}

/// Bring a raw angle into `[-PI_FX, PI_FX]` by whole turns.
pub fn reduce(a: Fx) -> (r: Fx)
    ensures
        r@ == reduce_rad(a@),
        -PI_FX <= r@ <= PI_FX,
{
    let mut v: i64 = a.raw;
    while v > PI_FX
        invariant
            reduce_rad(v as int) == reduce_rad(a@),
        decreases v + PI_FX,
    {
        proof {
            assert(reduce_rad(v as int) == reduce_rad(v - TWO_PI_FX));
        }
        v = v - TWO_PI_FX;
    }
    while v < -PI_FX
        invariant
            v <= PI_FX,
            reduce_rad(v as int) == reduce_rad(a@),
        decreases PI_FX - v,
    {
        proof {
            assert(reduce_rad(v as int) == reduce_rad(v + TWO_PI_FX));
        }
        v = v + TWO_PI_FX;
    }
    Fx { raw: v }
}

/// The sine Taylor polynomial on the first quadrant.
fn sin_poly_fx(x: i64) -> (r: i64)
    requires
        -HALF_PI_FX <= x <= HALF_PI_FX,
    ensures
        r == sin_poly(x as int),
        -3_000_000 <= r <= 3_000_000,
{
    proof {
        assert(0 <= x * x <= 10_597_467_136) by (nonlinear_arith)
            requires
                -102_944 <= x <= 102_944,
        ;
    }
    let xx: i64 = x * x;
    let x2: i64 = tdiv64(xx, SCALE);
    proof {
        lemma_tdiv_shrink(xx as int, 10_597_467_136);
        assert(0 <= x2 <= 161_704);
        assert(-16_646_456_576 <= x2 * x <= 16_646_456_576) by (nonlinear_arith)
            requires
                0 <= x2 <= 161_704,
                -102_944 <= x <= 102_944,
        ;
    }
    let x3: i64 = tdiv64(x2 * x, SCALE);
    proof {
        lemma_tdiv_shrink((x2 * x) as int, 16_646_456_576);
        assert(-254_004 <= x3 <= 254_004);
        assert(-41_073_462_816 <= x3 * x2 <= 41_073_462_816) by (nonlinear_arith)
            requires
                0 <= x2 <= 161_704,
                -254_004 <= x3 <= 254_004,
        ;
    }
    let x5: i64 = tdiv64(x3 * x2, SCALE);
    proof {
        lemma_tdiv_shrink((x3 * x2) as int, 41_073_462_816);
        assert(-626_731 <= x5 <= 626_731);
        assert(-101_344_909_624 <= x5 * x2 <= 101_344_909_624) by (nonlinear_arith)
            requires
                0 <= x2 <= 161_704,
                -626_731 <= x5 <= 626_731,
        ;
    }
    let x7: i64 = tdiv64(x5 * x2, SCALE);
    proof {
        lemma_tdiv_shrink((x5 * x2) as int, 101_344_909_624);
        assert(-1_546_400 <= x7 <= 1_546_400);
        lemma_tdiv_mag(x3 as int, 6);
        lemma_tdiv_mag(x5 as int, 120);
        lemma_tdiv_mag(x7 as int, 5040);
    }
    x - tdiv64(x3, 6) + tdiv64(x5, 120) - tdiv64(x7, 5040)
}

/// The cosine Taylor polynomial on the first quadrant.
fn cos_poly_fx(x: i64) -> (r: i64)
    requires
        0 <= x <= HALF_PI_FX,
    ensures
        r == cos_poly(x as int),
        -2_000_000 <= r <= 2_000_000,
{
    proof {
        assert(0 <= x * x <= 10_597_467_136) by (nonlinear_arith)
            requires
                0 <= x <= 102_944,
        ;
    }
    let xx: i64 = x * x;
    let x2: i64 = tdiv64(xx, SCALE);
    proof {
        lemma_tdiv_shrink(xx as int, 10_597_467_136);
        assert(0 <= x2 <= 161_704);
        assert(0 <= x2 * x2 <= 26_148_183_616) by (nonlinear_arith)
            requires
                0 <= x2 <= 161_704,
        ;
    }
    let x4: i64 = tdiv64(x2 * x2, SCALE);
    proof {
        lemma_tdiv_shrink((x2 * x2) as int, 26_148_183_616);
        assert(0 <= x4 <= 398_989);
        assert(0 <= x4 * x2 <= 64_518_117_256) by (nonlinear_arith)
            requires
                0 <= x2 <= 161_704,
                0 <= x4 <= 398_989,
        ;
    }
    let x6: i64 = tdiv64(x4 * x2, SCALE);
    proof {
        lemma_tdiv_shrink((x4 * x2) as int, 64_518_117_256);
        assert(0 <= x6 <= 984_468);
        lemma_tdiv_mag(x2 as int, 2);
        lemma_tdiv_mag(x4 as int, 24);
        lemma_tdiv_mag(x6 as int, 720);
    }
    SCALE - tdiv64(x2, 2) + tdiv64(x4, 24) - tdiv64(x6, 720)
}

/// Fixed-point sine of a raw angle in radians.
pub fn sin_fx(a: Fx) -> (r: Fx)
    ensures
        r@ == sin_spec(a@),
        -SCALE <= r@ <= SCALE,
{
    let red: Fx = reduce(a);
    let p: i64 = if red.raw > HALF_PI_FX {
        sin_poly_fx(PI_FX - red.raw)
    } else if red.raw < -HALF_PI_FX {
        -sin_poly_fx(PI_FX + red.raw)
    } else {
        sin_poly_fx(red.raw)
    };
    let c: i64 = if p > SCALE {
        SCALE
    } else if p < -SCALE {
        -SCALE
    } else {
        p
    };
    Fx { raw: c }
}

/// Fixed-point cosine of a raw angle in radians.
pub fn cos_fx(a: Fx) -> (r: Fx)
    ensures
        r@ == cos_spec(a@),
        -SCALE <= r@ <= SCALE,
{
    let red: Fx = reduce(a);
    let aa: i64 = if red.raw >= 0 {
        red.raw
    } else {
        -red.raw
    };
    let p: i64 = if aa > HALF_PI_FX {
        -cos_poly_fx(PI_FX - aa)
    } else {
        cos_poly_fx(aa)
    };
    let c: i64 = if p > SCALE {
        SCALE
    } else if p < -SCALE {
        -SCALE
    } else {
        p
    };
    Fx { raw: c }
}

/// At angle zero the polynomials are exact: sine 0 and cosine 1.
pub proof fn lemma_zero_angle()
    ensures
        sin_spec(0) == 0,
        cos_spec(0) == SCALE,
{
    assert(reduce_rad(0) == 0);
    vstd::arithmetic::div_mod::lemma_div_of0(SCALE as int);
    vstd::arithmetic::div_mod::lemma_div_of0(6);
    vstd::arithmetic::div_mod::lemma_div_of0(120);
    vstd::arithmetic::div_mod::lemma_div_of0(5040);
    vstd::arithmetic::div_mod::lemma_div_of0(2);
    vstd::arithmetic::div_mod::lemma_div_of0(24);
    vstd::arithmetic::div_mod::lemma_div_of0(720);
    assert(sin_poly(0) == 0);
    assert(cos_poly(0) == SCALE);
}

} // verus!
