//! Three-component vectors: the workhorse of the pipeline.
//!
//! Arithmetic never mutates; every operation returns a new value whose
//! components are pinned exactly over the raw fixed-point representation.

use vstd::prelude::*;

use crate::fx::{
    fdiv, fits, fmul, isqrt, lemma_fmul_bound, lemma_isqrt_bounds, lemma_tdiv_mag, tdiv, Fx,
    FX_BOUND, SCALE,
};

verus! {

#[derive(Clone, Copy, Debug, PartialEq, Eq, Structural)]
pub struct Vector3 {
    pub x: Fx,
    pub y: Fx,
    pub z: Fx,
}

/// Spec-level componentwise negation.
pub open spec fn v3_neg(v: Vector3) -> Vector3 {
    Vector3 {
        x: crate::fx::fx_raw(-v.x@),
        y: crate::fx::fx_raw(-v.y@),
        z: crate::fx::fx_raw(-v.z@),
    }
}

impl Vector3 {
    /// All components within `[-b, b]` (raw units).
    pub open spec fn bounded(self, b: int) -> bool {
        &&& -b <= self.x@ <= b
        &&& -b <= self.y@ <= b
        &&& -b <= self.z@ <= b
    }

    /// Exact sum of the squares of the raw components.
    pub open spec fn len2(self) -> int {
        self.x@ * self.x@ + self.y@ * self.y@ + self.z@ * self.z@
    }

    /// Raw Euclidean length: the integer square root of `len2` (the raw
    /// scale cancels, so this is again a 16.16 value).
    pub open spec fn len_raw(self) -> int {
        isqrt(self.len2())
    }

    pub open spec fn is_zero(self) -> bool {
        self.x@ == 0 && self.y@ == 0 && self.z@ == 0
    }

    pub fn new(x: Fx, y: Fx, z: Fx) -> (r: Vector3)
        ensures
            r.x == x,
            r.y == y,
            r.z == z,
    {
        Vector3 { x, y, z }
    }

    /// Componentwise sum.
    pub fn add(self, o: Vector3) -> (r: Vector3)
        requires
            fits(self.x@ + o.x@),
            fits(self.y@ + o.y@),
            fits(self.z@ + o.z@),
        ensures
            r.x@ == self.x@ + o.x@,
            r.y@ == self.y@ + o.y@,
            r.z@ == self.z@ + o.z@,
    {
        Vector3 { x: self.x.add(o.x), y: self.y.add(o.y), z: self.z.add(o.z) }
    }

    /// Componentwise difference.
    pub fn sub(self, o: Vector3) -> (r: Vector3)
        requires
            fits(self.x@ - o.x@),
            fits(self.y@ - o.y@),
            fits(self.z@ - o.z@),
        ensures
            r.x@ == self.x@ - o.x@,
            r.y@ == self.y@ - o.y@,
            r.z@ == self.z@ - o.z@,
    {
        Vector3 { x: self.x.sub(o.x), y: self.y.sub(o.y), z: self.z.sub(o.z) }
    }

    pub fn neg(self) -> (r: Vector3)
        requires
            self.x@ != i64::MIN,
            self.y@ != i64::MIN,
            self.z@ != i64::MIN,
        ensures
            r.x@ == -self.x@,
            r.y@ == -self.y@,
            r.z@ == -self.z@,
    {
        Vector3 { x: self.x.neg(), y: self.y.neg(), z: self.z.neg() }
    }

    /// Add a scalar to every component.
    pub fn scalar_add(self, s: Fx) -> (r: Vector3)
        requires
            fits(self.x@ + s@),
            fits(self.y@ + s@),
            fits(self.z@ + s@),
        ensures
            r.x@ == self.x@ + s@,
            r.y@ == self.y@ + s@,
            r.z@ == self.z@ + s@,
    {
        Vector3 { x: self.x.add(s), y: self.y.add(s), z: self.z.add(s) }
    }

    /// Subtract a scalar from every component.
    pub fn scalar_sub(self, s: Fx) -> (r: Vector3)
        requires
            fits(self.x@ - s@),
            fits(self.y@ - s@),
            fits(self.z@ - s@),
        ensures
            r.x@ == self.x@ - s@,
            r.y@ == self.y@ - s@,
            r.z@ == self.z@ - s@,
    {
        Vector3 { x: self.x.sub(s), y: self.y.sub(s), z: self.z.sub(s) }
    }

    /// Multiply every component by a scalar.
    pub fn scale(self, s: Fx) -> (r: Vector3)
        requires
            self.bounded(FX_BOUND as int),
            -FX_BOUND <= s@ <= FX_BOUND,
        ensures
            r.x@ == fmul(self.x@, s@),
            r.y@ == fmul(self.y@, s@),
            r.z@ == fmul(self.z@, s@),
    {
        proof {
            lemma_fmul_bound(self.x@, s@);
            lemma_fmul_bound(self.y@, s@);
            lemma_fmul_bound(self.z@, s@);
        }
        Vector3 { x: self.x.mul(s), y: self.y.mul(s), z: self.z.mul(s) }
    }

    /// Divide every component by a scalar.
    pub fn scalar_div(self, s: Fx) -> (r: Vector3)
        requires
            self.bounded(FX_BOUND as int),
            s@ != 0,
        ensures
            r.x@ == fdiv(self.x@, s@),
            r.y@ == fdiv(self.y@, s@),
            r.z@ == fdiv(self.z@, s@),
    {
        proof {
            lemma_tdiv_mag(self.x@ * SCALE, s@);
            lemma_tdiv_mag(self.y@ * SCALE, s@);
            lemma_tdiv_mag(self.z@ * SCALE, s@);
        }
        Vector3 { x: self.x.div(s), y: self.y.div(s), z: self.z.div(s) }
    }

    /// Componentwise (Hadamard) product.
    pub fn hadamard(self, o: Vector3) -> (r: Vector3)
        requires
            self.bounded(FX_BOUND as int),
            o.bounded(FX_BOUND as int),
        ensures
            r.x@ == fmul(self.x@, o.x@),
            r.y@ == fmul(self.y@, o.y@),
            r.z@ == fmul(self.z@, o.z@),
    {
        proof {
            lemma_fmul_bound(self.x@, o.x@);
            lemma_fmul_bound(self.y@, o.y@);
            lemma_fmul_bound(self.z@, o.z@);
        }
        Vector3 { x: self.x.mul(o.x), y: self.y.mul(o.y), z: self.z.mul(o.z) }
    }

    /// Sum of the componentwise products.
    pub fn dot(self, o: Vector3) -> (r: Fx)
        requires
            self.bounded(FX_BOUND as int),
            o.bounded(FX_BOUND as int),
        ensures
            r@ == fmul(self.x@, o.x@) + fmul(self.y@, o.y@) + fmul(self.z@, o.z@),
    {
        proof {
            lemma_fmul_bound(self.x@, o.x@);
            lemma_fmul_bound(self.y@, o.y@);
            lemma_fmul_bound(self.z@, o.z@);
        }
        self.x.mul(o.x).add(self.y.mul(o.y)).add(self.z.mul(o.z))
    }

    /// The cross product `(ay bz - az by, az bx - ax bz, ax by - ay bx)`.
    pub fn cross(self, o: Vector3) -> (r: Vector3)
        requires
            self.bounded(FX_BOUND as int),
            o.bounded(FX_BOUND as int),
        ensures
            r.x@ == fmul(self.y@, o.z@) - fmul(self.z@, o.y@),
            r.y@ == fmul(self.z@, o.x@) - fmul(self.x@, o.z@),
            r.z@ == fmul(self.x@, o.y@) - fmul(self.y@, o.x@),
    {
        proof {
            lemma_fmul_bound(self.y@, o.z@);
            lemma_fmul_bound(self.z@, o.y@);
            lemma_fmul_bound(self.z@, o.x@);
            lemma_fmul_bound(self.x@, o.z@);
            lemma_fmul_bound(self.x@, o.y@);
            lemma_fmul_bound(self.y@, o.x@);
        }
        Vector3 {
            x: self.y.mul(o.z).sub(self.z.mul(o.y)),
            y: self.z.mul(o.x).sub(self.x.mul(o.z)),
            z: self.x.mul(o.y).sub(self.y.mul(o.x)),
        }
    }

    /// Euclidean length: the integer square root of the exact sum of
    /// squared raw components (the fixed-point scale cancels).
    pub fn length(self) -> (r: Fx)
        requires
            self.bounded(FX_BOUND as int),
        ensures
            r@ == self.len_raw(),
            r@ >= 0,
    {
        let xa: u128 = mag_u128(self.x);
        let ya: u128 = mag_u128(self.y);
        let za: u128 = mag_u128(self.z);
        proof {
            assert(xa * xa == self.x@ * self.x@ && xa * xa <= 0x4000_0000_0000_0000_0000u128
                && ya * ya == self.y@ * self.y@ && ya * ya <= 0x4000_0000_0000_0000_0000u128
                && za * za == self.z@ * self.z@ && za * za <= 0x4000_0000_0000_0000_0000u128)
                by (nonlinear_arith)
                requires
                    xa == (if self.x@ >= 0 { self.x@ } else { -self.x@ }),
                    ya == (if self.y@ >= 0 { self.y@ } else { -self.y@ }),
                    za == (if self.z@ >= 0 { self.z@ } else { -self.z@ }),
                    xa <= 0x40_0000_0000u128,
                    ya <= 0x40_0000_0000u128,
                    za <= 0x40_0000_0000u128,
            ;
        }
        let m: u128 = xa * xa + ya * ya + za * za;
        let r: u128 = crate::fx::isqrt_u128(m);
        proof {
            assert(r < 0x8000_0000_0000_0000u128) by (nonlinear_arith)
                requires
                    r * r <= m,
                    m <= 0xC000_0000_0000_0000_0000u128,
            ;
        }
        Fx { raw: r as i64 }
    }

    /// The vector divided by its own length; the zero vector is ruled
    /// out by precondition.
    pub fn normalize(self) -> (r: Vector3)
        requires
            self.bounded(FX_BOUND as int),
            !self.is_zero(),
        ensures
            r.x@ == fdiv(self.x@, self.len_raw()),
            r.y@ == fdiv(self.y@, self.len_raw()),
            r.z@ == fdiv(self.z@, self.len_raw()),
    {
        let l: Fx = self.length();
        proof {
            lemma_len_raw_pos(self);
        }
        self.scalar_div(l)
    }

    /// Component by position: 0 is x, 1 is y, 2 is z.
    pub fn index(self, i: usize) -> (r: Fx)
        requires
            i < 3,
        ensures
            r == (if i == 0 {
                self.x
            } else if i == 1 {
                self.y
            } else {
                self.z
            }),
    {
        if i == 0 {
            self.x
        } else if i == 1 {
            self.y
        } else {
            self.z
        }
    }
}

/// A non-zero vector has raw length at least 1.
pub proof fn lemma_len_raw_pos(v: Vector3)
    requires
        !v.is_zero(),
    ensures
        v.len_raw() >= 1,
        v.len2() >= 1,
{
    assert(v.len2() >= 1) by (nonlinear_arith)
        requires
            !(v.x@ == 0 && v.y@ == 0 && v.z@ == 0),
    ;
    lemma_isqrt_bounds(v.len2());
    let r = isqrt(v.len2());
    assert(r >= 1) by (nonlinear_arith)
        requires
            v.len2() >= 1,
            r >= 0,
            v.len2() < (r + 1) * (r + 1),
    ;
}

/// Magnitude of a scalar as an unsigned value.
fn mag_u128(a: Fx) -> (r: u128)
    requires
        a@ != i64::MIN,
    ensures
        r == (if a@ >= 0 { a@ } else { -a@ }),
{
    if a.raw >= 0 {
        a.raw as u128
    } else {
        (-a.raw) as u128
    }
}

/// The result of `normalize`, as a spec-level value.
pub open spec fn v3_normalized(v: Vector3) -> Vector3 {
    Vector3 {
        x: crate::fx::fx_raw(fdiv(v.x@, v.len_raw())),
        y: crate::fx::fx_raw(fdiv(v.y@, v.len_raw())),
        z: crate::fx::fx_raw(fdiv(v.z@, v.len_raw())),
    }
}

/// Bracketing facts about one normalized component: its magnitude
/// `qm = (|x| * SCALE) / L` is at most one unit, and `qm * L` brackets
/// `|x| * SCALE` from below and `(qm + 1) * L` from above -- squared
/// on both sides for the length computation.
proof fn lemma_comp_brackets(x: int, ll: int)
    requires
        1 <= ll,
        -ll <= x <= ll,
    ensures
        ({
            let am = if x >= 0 { x } else { -x };
            let qm = (am * SCALE) / ll;
            &&& 0 <= qm <= SCALE
            &&& tdiv(x * SCALE, ll) * tdiv(x * SCALE, ll) == qm * qm
            &&& qm * qm * (ll * ll) <= (x * x) * (SCALE as int * SCALE as int)
            &&& (x * x) * (SCALE as int * SCALE as int) < (qm + 1) * (qm + 1) * (ll * ll)
        }),
{
    let am = if x >= 0 { x } else { -x };
    let qm = (am * SCALE) / ll;
    assert(am * SCALE <= ll * SCALE) by (nonlinear_arith)
        requires
            0 <= am <= ll,
            SCALE >= 1,
    ;
    vstd::arithmetic::div_mod::lemma_div_is_ordered(am * SCALE, ll * SCALE, ll);
    vstd::arithmetic::div_mod::lemma_div_multiples_vanish(SCALE as int, ll);
    vstd::arithmetic::div_mod::lemma_div_pos_is_pos(am * SCALE, ll);
    vstd::arithmetic::div_mod::lemma_fundamental_div_mod(am * SCALE, ll);
    vstd::arithmetic::div_mod::lemma_mod_division_less_than_divisor(am * SCALE, ll);
    assert(qm * ll <= am * SCALE < (qm + 1) * ll) by (nonlinear_arith)
        requires
            am * SCALE == ll * ((am * SCALE) / ll) + (am * SCALE) % ll,
            0 <= (am * SCALE) % ll < ll,
            qm == (am * SCALE) / ll,
    ;
    assert(qm * qm * (ll * ll) <= (am * SCALE) * (am * SCALE)) by (nonlinear_arith)
        requires
            0 <= qm * ll <= am * SCALE,
    ;
    assert((am * SCALE) * (am * SCALE) < (qm + 1) * (qm + 1) * (ll * ll)) by (nonlinear_arith)
        requires
            0 <= am * SCALE,
            am * SCALE < (qm + 1) * ll,
    ;
    assert((am * SCALE) * (am * SCALE) == (x * x) * (SCALE as int * SCALE as int))
        by (nonlinear_arith)
        requires
            am == (if x >= 0 { x } else { -x }),
    ;
    assert(tdiv(x * SCALE, ll) * tdiv(x * SCALE, ll) == qm * qm) by {
        if x >= 0 {
        } else {
            assert(-(x * SCALE) == (-x) * SCALE) by (nonlinear_arith);
            assert(tdiv(x * SCALE, ll) == -qm);
            assert((-qm) * (-qm) == qm * qm) by (nonlinear_arith);
        }
    }
}

/// Normalizing keeps the length at one unit, within four raw units
/// below, for every vector whose length is at least one unit.
/// (Shorter vectors lose too much to truncation: normalizing the raw
/// vector (1, 1, 0), for instance, overshoots; such inputs are
/// excluded by the length precondition.)
pub proof fn lemma_normalize_unit_length(v: Vector3)
    requires
        v.bounded(FX_BOUND as int),
        v.len_raw() >= SCALE,
    ensures
        SCALE - 4 <= v3_normalized(v).len_raw() <= SCALE,
{
    let s = SCALE as int;
    let n = v.len2();
    let ll = v.len_raw();
    assert(v.x@ * v.x@ <= n && v.y@ * v.y@ <= n && v.z@ * v.z@ <= n && n >= 0)
        by (nonlinear_arith)
        requires
            n == v.x@ * v.x@ + v.y@ * v.y@ + v.z@ * v.z@,
    ;
    lemma_isqrt_bounds(n);
    assert(-ll <= v.x@ <= ll && -ll <= v.y@ <= ll && -ll <= v.z@ <= ll) by (nonlinear_arith)
        requires
            v.x@ * v.x@ <= n,
            v.y@ * v.y@ <= n,
            v.z@ * v.z@ <= n,
            0 <= ll,
            n < (ll + 1) * (ll + 1),
    ;
    lemma_comp_brackets(v.x@, ll);
    lemma_comp_brackets(v.y@, ll);
    lemma_comp_brackets(v.z@, ll);
    let qx = (if v.x@ >= 0 { v.x@ } else { -v.x@ }) * s / ll;
    let qy = (if v.y@ >= 0 { v.y@ } else { -v.y@ }) * s / ll;
    let qz = (if v.z@ >= 0 { v.z@ } else { -v.z@ }) * s / ll;
    let q2 = qx * qx + qy * qy + qz * qz;
    // the normalized vector's sum of squares is exactly q2
    let w = v3_normalized(v);
    assert(w.x@ == tdiv(v.x@ * s, ll) && w.y@ == tdiv(v.y@ * s, ll) && w.z@ == tdiv(
        v.z@ * s,
        ll,
    )) by {
        crate::fx::lemma_tdiv_mag(v.x@ * s, ll);
        crate::fx::lemma_tdiv_mag(v.y@ * s, ll);
        crate::fx::lemma_tdiv_mag(v.z@ * s, ll);
    }
    assert(w.len2() == q2);
    // upper bound: q2 <= S^2 + 2S
    assert(q2 * (ll * ll) <= n * (s * s)) by (nonlinear_arith)
        requires
            qx * qx * (ll * ll) <= (v.x@ * v.x@) * (s * s),
            qy * qy * (ll * ll) <= (v.y@ * v.y@) * (s * s),
            qz * qz * (ll * ll) <= (v.z@ * v.z@) * (s * s),
            q2 == qx * qx + qy * qy + qz * qz,
            n == v.x@ * v.x@ + v.y@ * v.y@ + v.z@ * v.z@,
    ;
    assert(q2 <= s * s + 2 * s) by (nonlinear_arith)
        requires
            q2 * (ll * ll) <= n * (s * s),
            n < (ll + 1) * (ll + 1),
            s <= ll,
            s == 65536,
            0 <= q2,
            0 <= n,
    ;
    // lower bound: q2 > S^2 - 6S - 3
    assert(n * (s * s) < (q2 + 2 * (qx + qy + qz) + 3) * (ll * ll)) by (nonlinear_arith)
        requires
            (v.x@ * v.x@) * (s * s) < (qx + 1) * (qx + 1) * (ll * ll),
            (v.y@ * v.y@) * (s * s) < (qy + 1) * (qy + 1) * (ll * ll),
            (v.z@ * v.z@) * (s * s) < (qz + 1) * (qz + 1) * (ll * ll),
            q2 == qx * qx + qy * qy + qz * qz,
            n == v.x@ * v.x@ + v.y@ * v.y@ + v.z@ * v.z@,
    ;
    assert(q2 > s * s - 6 * s - 3) by (nonlinear_arith)
        requires
            n * (s * s) < (q2 + 2 * (qx + qy + qz) + 3) * (ll * ll),
            (ll * ll) <= n,
            0 <= qx <= s,
            0 <= qy <= s,
            0 <= qz <= s,
            s == 65536,
            1 <= ll,
    ;
    // conclude through the integer square root
    lemma_isqrt_bounds(q2);
    let r = isqrt(q2);
    assert(r <= s) by (nonlinear_arith)
        requires
            r * r <= q2,
            q2 <= s * s + 2 * s,
            0 <= r,
            s == 65536,
    ;
    assert(r >= s - 4) by (nonlinear_arith)
        requires
            q2 < (r + 1) * (r + 1),
            q2 > s * s - 6 * s - 3,
            0 <= r,
            s == 65536,
    ;
}

} // verus!
