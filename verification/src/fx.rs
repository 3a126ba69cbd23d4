//! The scalar type of the library: a signed 16.16 fixed-point number.
//!
//! Every arithmetic operation states its result exactly over the raw
//! integer representation, with division truncating toward zero (the
//! `tdiv` spec function).  Square roots are exact integer square roots.

use vstd::prelude::*;

verus! {

/// Number of raw units per 1.0: the 16.16 fixed-point scale.
pub const SCALE: i64 = 65536;

/// Division truncating toward zero, the rounding used by every
/// fixed-point operation of this library.
pub open spec fn tdiv(a: int, b: int) -> int
    recommends
        b != 0,
{
    let m = (if a >= 0 { a } else { -a }) / (if b >= 0 { b } else { -b });
    if (a >= 0) == (b >= 0) {
        m
    } else {
        -m
    }
}

/// The magnitude every vector and matrix entry is required to stay
/// within (2^38 raw units, about four million whole units): products of
/// two such values, scaled back down, sum four at a time without
/// overflowing an `i64`.
pub const FX_BOUND: i64 = 0x40_0000_0000;

/// Whether a mathematical integer fits in the raw `i64` representation.
pub open spec fn fits(x: int) -> bool {
    i64::MIN <= x <= i64::MAX
}

/// Raw-level fixed-point product: scale the exact product back down,
/// truncating toward zero.
pub open spec fn fmul(a: int, b: int) -> int {
    tdiv(a * b, SCALE as int)
}

/// Raw-level fixed-point quotient, truncating toward zero.
pub open spec fn fdiv(a: int, b: int) -> int
    recommends
        b != 0,
{
    tdiv(a * SCALE, b)
}

/// Spec-level constructor from a raw value.
pub open spec fn fx_raw(r: int) -> Fx {
    Fx { raw: r as i64 }
}

/// Multiplying by the fixed-point 1 is exact: no truncation happens.
pub proof fn lemma_fmul_one(a: int)
    ensures
        fmul(SCALE as int, a) == a,
        fmul(a, SCALE as int) == a,
{
    let s = SCALE as int;
    assert(a * s == s * a) by (nonlinear_arith);
    if a >= 0 {
        vstd::arithmetic::div_mod::lemma_div_multiples_vanish(a, s);
    } else {
        vstd::arithmetic::div_mod::lemma_div_multiples_vanish(-a, s);
        assert(-(s * a) == s * (-a)) by (nonlinear_arith);
    }
}

/// Multiplying by 0 gives 0 exactly.
pub proof fn lemma_fmul_zero(a: int)
    ensures
        fmul(0, a) == 0,
        fmul(a, 0) == 0,
{
    assert(0 * a == 0) by (nonlinear_arith);
    assert(a * 0 == 0) by (nonlinear_arith);
    vstd::arithmetic::div_mod::lemma_div_of0(SCALE as int);
}

/// Products of values bounded by `FX_BOUND` stay within 2^60, so four
/// of them sum inside an `i64`.
pub proof fn lemma_fmul_bound(a: int, b: int)
    requires
        -FX_BOUND <= a <= FX_BOUND,
        -FX_BOUND <= b <= FX_BOUND,
    ensures
        -0x1000_0000_0000_0000 <= fmul(a, b) <= 0x1000_0000_0000_0000,
{
    assert(-0x1000_0000_0000_0000 <= tdiv(a * b, SCALE as int) <= 0x1000_0000_0000_0000)
        by (nonlinear_arith)
        requires
            -0x40_0000_0000 <= a <= 0x40_0000_0000,
            -0x40_0000_0000 <= b <= 0x40_0000_0000,
    ;
}

/// Floor of the square root: the unique `r >= 0` with
/// `r * r <= n < (r + 1) * (r + 1)` (for `n >= 0`; 0 for negative `n`).
pub open spec fn isqrt(n: int) -> int
    decreases n,
{
    if n < 1 {
        0
    } else {
        let r = isqrt(n - 1);
        if (r + 1) * (r + 1) <= n {
            r + 1
        } else {
            r
        }
    }
}

pub proof fn lemma_isqrt_bounds(n: int)
    requires
        n >= 0,
    ensures
        0 <= isqrt(n),
        isqrt(n) * isqrt(n) <= n,
        n < (isqrt(n) + 1) * (isqrt(n) + 1),
    decreases n,
{
    if n >= 1 {
        lemma_isqrt_bounds(n - 1);
        let r = isqrt(n - 1);
        if (r + 1) * (r + 1) <= n {
            assert(n < ((r + 1) + 1) * ((r + 1) + 1)) by (nonlinear_arith)
                requires
                    n - 1 < (r + 1) * (r + 1),
                    r >= 0,
            ;
        }
    }
}

pub proof fn lemma_isqrt_unique(n: int, r: int)
    requires
        n >= 0,
        r >= 0,
        r * r <= n,
        n < (r + 1) * (r + 1),
    ensures
        r == isqrt(n),
{
    lemma_isqrt_bounds(n);
    let s = isqrt(n);
    if r < s {
        assert((r + 1) * (r + 1) <= s * s) by (nonlinear_arith)
            requires
                0 <= r,
                r + 1 <= s,
        ;
    }
    if s < r {
        assert((s + 1) * (s + 1) <= r * r) by (nonlinear_arith)
            requires
                0 <= s,
                s + 1 <= r,
        ;
    }
}

/// A signed 16.16 fixed-point scalar; `raw` holds the value times `SCALE`.
#[derive(Clone, Copy, Debug, PartialEq, Eq, Structural)]
pub struct Fx {
    pub raw: i64,
}

impl View for Fx {
    type V = int;

    open spec fn view(&self) -> int {
        self.raw as int
    }
}

/// The product of two `i64` values always fits in `i128`.
proof fn lemma_i64_mul_fits(a: i64, b: i64)
    ensures
        i64::MIN * i64::MAX <= a * b <= i64::MIN * i64::MIN,
{
    assert(i64::MIN * i64::MAX <= a * b <= i64::MIN * i64::MIN) by (nonlinear_arith)
        requires
            i64::MIN <= a <= i64::MAX,
            i64::MIN <= b <= i64::MAX,
    ;
}

/// Truncating division on `i128`, the executable counterpart of `tdiv`.
pub(crate) fn tdiv_i128(a: i128, b: i128) -> (q: i128)
    requires
        a != i128::MIN,
        b != i128::MIN,
        b != 0,
    ensures
        q == tdiv(a as int, b as int),
{
    let am: u128 = if a >= 0 {
        a as u128
    } else {
        (-a) as u128
    };
    let bm: u128 = if b >= 0 {
        b as u128
    } else {
        (-b) as u128
    };
    let m: u128 = am / bm;
    assert(m <= am) by (nonlinear_arith)
        requires
            bm >= 1,
            m == am / bm,
    ;
    if (a >= 0) == (b >= 0) {
        m as i128
    } else {
        -(m as i128)
    }
}

impl Fx {
    /// The value 0.
    pub fn zero() -> (r: Fx)
        ensures
            r@ == 0,
    {
        Fx { raw: 0 }
    }

    /// The value 1.
    pub fn one() -> (r: Fx)
        ensures
            r@ == SCALE,
    {
        Fx { raw: SCALE }
    }

    /// The exact fixed-point image of an integer.
    pub fn from_int(i: i64) -> (r: Fx)
        requires
            i64::MIN <= i * SCALE <= i64::MAX,
        ensures
            r@ == i * SCALE,
    {
        Fx { raw: i * SCALE }
    }

    /// The fixed-point image of the fraction `n / d`, truncated toward zero.
    pub fn from_ratio(n: i64, d: i64) -> (r: Fx)
        requires
            d != 0,
            i64::MIN <= tdiv(n * SCALE, d as int) <= i64::MAX,
        ensures
            r@ == tdiv(n * SCALE, d as int),
    {
        let p: i128 = (n as i128) * (SCALE as i128);
        let q: i128 = tdiv_i128(p, d as i128);
        Fx { raw: q as i64 }
    }

    pub fn add(self, o: Fx) -> (r: Fx)
        requires
            i64::MIN <= self@ + o@ <= i64::MAX,
        ensures
            r@ == self@ + o@,
    {
        Fx { raw: self.raw + o.raw }
    }

    pub fn sub(self, o: Fx) -> (r: Fx)
        requires
            i64::MIN <= self@ - o@ <= i64::MAX,
        ensures
            r@ == self@ - o@,
    {
        Fx { raw: self.raw - o.raw }
    }

    pub fn neg(self) -> (r: Fx)
        requires
            self@ != i64::MIN,
        ensures
            r@ == -self@,
    {
        Fx { raw: -self.raw }
    }

    /// Fixed-point product: the exact integer product scaled back down,
    /// truncated toward zero.
    pub fn mul(self, o: Fx) -> (r: Fx)
        requires
            i64::MIN <= tdiv(self@ * o@, SCALE as int) <= i64::MAX,
        ensures
            r@ == tdiv(self@ * o@, SCALE as int),
    {
        proof {
            lemma_i64_mul_fits(self.raw, o.raw);
        }
        let p: i128 = (self.raw as i128) * (o.raw as i128);
        let q: i128 = tdiv_i128(p, SCALE as i128);
        Fx { raw: q as i64 }
    }

    /// Fixed-point quotient, truncated toward zero.
    pub fn div(self, o: Fx) -> (r: Fx)
        requires
            o@ != 0,
            i64::MIN <= tdiv(self@ * SCALE, o@) <= i64::MAX,
        ensures
            r@ == tdiv(self@ * SCALE, o@),
    {
        proof {
            lemma_i64_mul_fits(self.raw, SCALE);
        }
        let p: i128 = (self.raw as i128) * (SCALE as i128);
        let q: i128 = tdiv_i128(p, o.raw as i128);
        Fx { raw: q as i64 }
    }

    pub fn abs(self) -> (r: Fx)
        requires
            self@ != i64::MIN,
        ensures
            r@ == (if self@ >= 0 { self@ } else { -self@ }),
    {
        if self.raw >= 0 {
            self
        } else {
            Fx { raw: -self.raw }
        }
    }

    pub fn min(self, o: Fx) -> (r: Fx)
        ensures
            r@ == (if self@ <= o@ { self@ } else { o@ }),
    {
        if self.raw <= o.raw {
            self
        } else {
            o
        }
    }

    pub fn max(self, o: Fx) -> (r: Fx)
        ensures
            r@ == (if self@ >= o@ { self@ } else { o@ }),
    {
        if self.raw >= o.raw {
            self
        } else {
            o
        }
    }

    /// Clamp into the closed interval `[lo, hi]`.
    pub fn clamp(self, lo: Fx, hi: Fx) -> (r: Fx)
        requires
            lo@ <= hi@,
        ensures
            r@ == (if self@ < lo@ { lo@ } else if self@ > hi@ { hi@ } else { self@ }),
    {
        if self.raw < lo.raw {
            lo
        } else if self.raw > hi.raw {
            hi
        } else {
            self
        }
    }

    pub fn lt(self, o: Fx) -> (r: bool)
        ensures
            r == (self@ < o@),
    {
        self.raw < o.raw
    }

    pub fn le(self, o: Fx) -> (r: bool)
        ensures
            r == (self@ <= o@),
    {
        self.raw <= o.raw
    }

    /// The integer part, truncated toward zero.
    pub fn trunc(self) -> (r: i64)
        ensures
            r == tdiv(self@, SCALE as int),
    {
        let q: i128 = tdiv_i128(self.raw as i128, SCALE as i128);
        proof {
            lemma_tdiv_bounds(self@, SCALE as int);
        }
        q as i64
    }

    /// Fixed-point square root: `isqrt` of the value scaled up, so that
    /// the result is again a 16.16 value.
    pub fn sqrt(self) -> (r: Fx)
        requires
            self@ >= 0,
        ensures
            r@ == isqrt(self@ * SCALE),
            r@ >= 0,
    {
        let m: u128 = (self.raw as u128) * (SCALE as u128);
        let r: u128 = isqrt_u128(m);
        proof {
            assert(r < 0x8000_0000_0000_0000u128) by (nonlinear_arith)
                requires
                    r * r <= m,
                    m < 0x4000_0000_0000_0000_0000_0000_0000_0000u128,
            ;
        }
        Fx { raw: r as i64 }
    }
}

/// For positive divisors, truncating division never grows magnitude.
pub proof fn lemma_tdiv_bounds(a: int, b: int)
    requires
        b >= 1,
    ensures
        (if a >= 0 { a } else { -a }) >= (if tdiv(a, b) >= 0 { tdiv(a, b) } else { -tdiv(a, b) }),
        a >= 0 ==> 0 <= tdiv(a, b) <= a,
        a < 0 ==> a <= tdiv(a, b) <= 0,
{
    let m = (if a >= 0 { a } else { -a }) / b;
    assert(0 <= m <= (if a >= 0 { a } else { -a })) by (nonlinear_arith)
        requires
            b >= 1,
            m == (if a >= 0 { a } else { -a }) / b,
    ;
}

/// A product of values within two magnitude bounds, scaled back down,
/// stays within the scaled-down product of the bounds.
pub proof fn lemma_fmul_bounds(x: int, y: int, bx: int, by: int)
    requires
        -bx <= x <= bx,
        -by <= y <= by,
        0 <= bx,
        0 <= by,
    ensures
        -((bx * by) / (SCALE as int)) <= fmul(x, y) <= (bx * by) / (SCALE as int),
{
    assert(-(bx * by) <= x * y <= bx * by) by (nonlinear_arith)
        requires
            -bx <= x <= bx,
            -by <= y <= by,
            0 <= bx,
            0 <= by,
    ;
    assert(0 <= bx * by) by (nonlinear_arith)
        requires
            0 <= bx,
            0 <= by,
    ;
    lemma_tdiv_shrink(x * y, bx * by);
}

/// Truncating division commutes with negation of the dividend.
pub proof fn lemma_tdiv_neg(a: int, b: int)
    requires
        b >= 1,
    ensures
        tdiv(-a, b) == -tdiv(a, b),
{
    vstd::arithmetic::div_mod::lemma_div_of0(b);
}

/// Products of values within the fixed-point unit interval stay within
/// it after scaling back down.
pub proof fn lemma_fmul_unit(a: int, b: int)
    requires
        -SCALE <= a <= SCALE,
        -SCALE <= b <= SCALE,
    ensures
        -SCALE <= fmul(a, b) <= SCALE,
{
    assert(-(SCALE * SCALE) <= a * b <= SCALE * SCALE) by (nonlinear_arith)
        requires
            -SCALE <= a <= SCALE,
            -SCALE <= b <= SCALE,
    ;
    lemma_tdiv_shrink(a * b, SCALE as int * SCALE as int);
}

/// Dividing by the scale shrinks a magnitude bound by the same factor.
pub proof fn lemma_tdiv_shrink(a: int, m: int)
    requires
        -m <= a <= m,
        0 <= m,
    ensures
        -(m / (SCALE as int)) <= tdiv(a, SCALE as int) <= m / (SCALE as int),
{
    let s = SCALE as int;
    let am = if a >= 0 { a } else { -a };
    vstd::arithmetic::div_mod::lemma_div_is_ordered(am, m, s);
    assert(am / s >= 0) by (nonlinear_arith)
        requires
            am >= 0,
            s >= 1,
    ;
}

/// Truncating division never grows magnitude (the divisor has magnitude
/// at least 1).
pub proof fn lemma_tdiv_mag(a: int, b: int)
    requires
        b != 0,
    ensures
        -(if a >= 0 { a } else { -a }) <= tdiv(a, b) <= (if a >= 0 { a } else { -a }),
{
    let am = if a >= 0 { a } else { -a };
    let bm = if b >= 0 { b } else { -b };
    assert(0 <= am / bm <= am) by (nonlinear_arith)
        requires
            am >= 0,
            bm >= 1,
    ;
}

/// Exact integer square root by binary search.
pub(crate) fn isqrt_u128(m: u128) -> (r: u128)
    ensures
        r == isqrt(m as int),
        r * r <= m,
        m < (r + 1) * (r + 1),
        r < 0x1_0000_0000_0000_0000u128,
{
    let mut lo: u128 = 0;
    let mut hi: u128 = 0x1_0000_0000_0000_0000u128;
    assert(hi * hi > m) by (nonlinear_arith)
        requires
            hi == 0x1_0000_0000_0000_0000u128,
            m <= u128::MAX,
    ;
    while lo + 1 < hi
        invariant
            lo < hi,
            hi <= 0x1_0000_0000_0000_0000u128,
            lo * lo <= m,
            m < hi * hi,
        decreases hi - lo,
    {
        let mid: u128 = lo + (hi - lo) / 2;
        assert(lo < mid < hi);
        assert(mid * mid < u128::MAX) by (nonlinear_arith)
            requires
                mid < 0x1_0000_0000_0000_0000u128,
        ;
        if mid * mid <= m {
            lo = mid;
        } else {
            hi = mid;
        }
    }
    proof {
        assert(m < (lo + 1) * (lo + 1));
        lemma_isqrt_unique(m as int, lo as int);
    }
    lo
}

} // verus!
