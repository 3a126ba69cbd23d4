//! Four-component vectors: homogeneous points (`w == 1`) and
//! directions (`w == 0`), and the columns of 4x4 matrices.

use vstd::prelude::*;

use crate::fx::{
    fdiv, fits, fmul, isqrt, lemma_fmul_bound, lemma_isqrt_bounds, lemma_tdiv_mag, Fx, FX_BOUND,
    SCALE,
};
use crate::vector3::Vector3;

verus! {

#[derive(Clone, Copy, Debug, PartialEq, Eq, Structural)]
pub struct Vector4 {
    pub x: Fx,
    pub y: Fx,
    pub z: Fx,
    pub w: Fx,
}

impl Vector4 {
    /// All components within `[-b, b]` (raw units).
    pub open spec fn bounded(self, b: int) -> bool {
        &&& -b <= self.x@ <= b
        &&& -b <= self.y@ <= b
        &&& -b <= self.z@ <= b
        &&& -b <= self.w@ <= b
    }

    /// Exact sum of the squares of the raw components.
    pub open spec fn len2(self) -> int {
        self.x@ * self.x@ + self.y@ * self.y@ + self.z@ * self.z@ + self.w@ * self.w@
    }

    /// Raw Euclidean length: the integer square root of `len2`.
    pub open spec fn len_raw(self) -> int {
        isqrt(self.len2())
    }

    pub open spec fn is_zero(self) -> bool {
        self.x@ == 0 && self.y@ == 0 && self.z@ == 0 && self.w@ == 0
    }

    pub fn new(x: Fx, y: Fx, z: Fx, w: Fx) -> (r: Vector4)
        ensures
            r.x == x,
            r.y == y,
            r.z == z,
            r.w == w,
    {
        Vector4 { x, y, z, w }
    }

    /// A point in homogeneous coordinates: `w` becomes 1.
    pub fn to_homogenous(v: Vector3) -> (r: Vector4)
        ensures
            r.x == v.x,
            r.y == v.y,
            r.z == v.z,
            r.w@ == SCALE,
    {
        Vector4 { x: v.x, y: v.y, z: v.z, w: Fx { raw: SCALE } }
    }

    /// Back to cartesian coordinates: divide x, y, z by w.
    pub fn to_cartesian(self) -> (r: Vector3)
        requires
            self.bounded(FX_BOUND as int),
            self.w@ != 0,
        ensures
            r.x@ == fdiv(self.x@, self.w@),
            r.y@ == fdiv(self.y@, self.w@),
            r.z@ == fdiv(self.z@, self.w@),
    {
        proof {
            lemma_tdiv_mag(self.x@ * SCALE, self.w@);
            lemma_tdiv_mag(self.y@ * SCALE, self.w@);
            lemma_tdiv_mag(self.z@ * SCALE, self.w@);
        }
        Vector3 { x: self.x.div(self.w), y: self.y.div(self.w), z: self.z.div(self.w) }
    }

    /// Componentwise sum.
    pub fn add(self, o: Vector4) -> (r: Vector4)
        requires
            fits(self.x@ + o.x@),
            fits(self.y@ + o.y@),
            fits(self.z@ + o.z@),
            fits(self.w@ + o.w@),
        ensures
            r.x@ == self.x@ + o.x@,
            r.y@ == self.y@ + o.y@,
            r.z@ == self.z@ + o.z@,
            r.w@ == self.w@ + o.w@,
    {
        Vector4 {
            x: self.x.add(o.x),
            y: self.y.add(o.y),
            z: self.z.add(o.z),
            w: self.w.add(o.w),
        }
    }

    /// Componentwise difference.
    pub fn sub(self, o: Vector4) -> (r: Vector4)
        requires
            fits(self.x@ - o.x@),
            fits(self.y@ - o.y@),
            fits(self.z@ - o.z@),
            fits(self.w@ - o.w@),
        ensures
            r.x@ == self.x@ - o.x@,
            r.y@ == self.y@ - o.y@,
            r.z@ == self.z@ - o.z@,
            r.w@ == self.w@ - o.w@,
    {
        Vector4 {
            x: self.x.sub(o.x),
            y: self.y.sub(o.y),
            z: self.z.sub(o.z),
            w: self.w.sub(o.w),
        }
    }

    pub fn neg(self) -> (r: Vector4)
        requires
            self.x@ != i64::MIN,
            self.y@ != i64::MIN,
            self.z@ != i64::MIN,
            self.w@ != i64::MIN,
        ensures
            r.x@ == -self.x@,
            r.y@ == -self.y@,
            r.z@ == -self.z@,
            r.w@ == -self.w@,
    {
        Vector4 { x: self.x.neg(), y: self.y.neg(), z: self.z.neg(), w: self.w.neg() }
    }

    /// Add a scalar to every component.
    pub fn scalar_add(self, s: Fx) -> (r: Vector4)
        requires
            fits(self.x@ + s@),
            fits(self.y@ + s@),
            fits(self.z@ + s@),
            fits(self.w@ + s@),
        ensures
            r.x@ == self.x@ + s@,
            r.y@ == self.y@ + s@,
            r.z@ == self.z@ + s@,
            r.w@ == self.w@ + s@,
    {
        Vector4 { x: self.x.add(s), y: self.y.add(s), z: self.z.add(s), w: self.w.add(s) }
    }

    /// Subtract a scalar from every component.
    pub fn scalar_sub(self, s: Fx) -> (r: Vector4)
        requires
            fits(self.x@ - s@),
            fits(self.y@ - s@),
            fits(self.z@ - s@),
            fits(self.w@ - s@),
        ensures
            r.x@ == self.x@ - s@,
            r.y@ == self.y@ - s@,
            r.z@ == self.z@ - s@,
            r.w@ == self.w@ - s@,
    {
        Vector4 { x: self.x.sub(s), y: self.y.sub(s), z: self.z.sub(s), w: self.w.sub(s) }
    }

    /// Multiply every component by a scalar.
    pub fn scale(self, s: Fx) -> (r: Vector4)
        requires
            self.bounded(FX_BOUND as int),
            -FX_BOUND <= s@ <= FX_BOUND,
        ensures
            r.x@ == fmul(self.x@, s@),
            r.y@ == fmul(self.y@, s@),
            r.z@ == fmul(self.z@, s@),
            r.w@ == fmul(self.w@, s@),
    {
        proof {
            lemma_fmul_bound(self.x@, s@);
            lemma_fmul_bound(self.y@, s@);
            lemma_fmul_bound(self.z@, s@);
            lemma_fmul_bound(self.w@, s@);
        }
        Vector4 { x: self.x.mul(s), y: self.y.mul(s), z: self.z.mul(s), w: self.w.mul(s) }
    }

    /// Componentwise (Hadamard) product.
    pub fn hadamard(self, o: Vector4) -> (r: Vector4)
        requires
            self.bounded(FX_BOUND as int),
            o.bounded(FX_BOUND as int),
        ensures
            r.x@ == fmul(self.x@, o.x@),
            r.y@ == fmul(self.y@, o.y@),
            r.z@ == fmul(self.z@, o.z@),
            r.w@ == fmul(self.w@, o.w@),
    {
        proof {
            lemma_fmul_bound(self.x@, o.x@);
            lemma_fmul_bound(self.y@, o.y@);
            lemma_fmul_bound(self.z@, o.z@);
            lemma_fmul_bound(self.w@, o.w@);
        }
        Vector4 {
            x: self.x.mul(o.x),
            y: self.y.mul(o.y),
            z: self.z.mul(o.z),
            w: self.w.mul(o.w),
        }
    }

    /// Sum of the componentwise products.
    pub fn dot(self, o: Vector4) -> (r: Fx)
        requires
            self.bounded(FX_BOUND as int),
            o.bounded(FX_BOUND as int),
        ensures
            r@ == fmul(self.x@, o.x@) + fmul(self.y@, o.y@) + fmul(self.z@, o.z@) + fmul(
                self.w@,
                o.w@,
            ),
    {
        proof {
            lemma_fmul_bound(self.x@, o.x@);
            lemma_fmul_bound(self.y@, o.y@);
            lemma_fmul_bound(self.z@, o.z@);
            lemma_fmul_bound(self.w@, o.w@);
        }
        self.x.mul(o.x).add(self.y.mul(o.y)).add(self.z.mul(o.z)).add(self.w.mul(o.w))
    }

    /// Euclidean length: the integer square root of the exact sum of
    /// squared raw components.
    pub fn length(self) -> (r: Fx)
        requires
            self.bounded(FX_BOUND as int),
        ensures
            r@ == self.len_raw(),
            r@ >= 0,
    {
        let xa: u128 = mag4(self.x);
        let ya: u128 = mag4(self.y);
        let za: u128 = mag4(self.z);
        let wa: u128 = mag4(self.w);
        proof {
            assert(xa * xa == self.x@ * self.x@ && xa * xa <= 0x4000_0000_0000_0000_0000u128
                && ya * ya == self.y@ * self.y@ && ya * ya <= 0x4000_0000_0000_0000_0000u128
                && za * za == self.z@ * self.z@ && za * za <= 0x4000_0000_0000_0000_0000u128
                && wa * wa == self.w@ * self.w@ && wa * wa <= 0x4000_0000_0000_0000_0000u128)
                by (nonlinear_arith)
                requires
                    xa == (if self.x@ >= 0 { self.x@ } else { -self.x@ }),
                    ya == (if self.y@ >= 0 { self.y@ } else { -self.y@ }),
                    za == (if self.z@ >= 0 { self.z@ } else { -self.z@ }),
                    wa == (if self.w@ >= 0 { self.w@ } else { -self.w@ }),
                    xa <= 0x40_0000_0000u128,
                    ya <= 0x40_0000_0000u128,
                    za <= 0x40_0000_0000u128,
                    wa <= 0x40_0000_0000u128,
            ;
        }
        let m: u128 = xa * xa + ya * ya + za * za + wa * wa;
        let r: u128 = crate::fx::isqrt_u128(m);
        proof {
            assert(r < 0x8000_0000_0000_0000u128) by (nonlinear_arith)
                requires
                    r * r <= m,
                    m <= 0x1_0000_0000_0000_0000_0000u128,
            ;
        }
        Fx { raw: r as i64 }
    }

    /// The vector divided by its own length; the zero vector is ruled
    /// out by precondition.
    pub fn normalize(self) -> (r: Vector4)
        requires
            self.bounded(FX_BOUND as int),
            !self.is_zero(),
        ensures
            r.x@ == fdiv(self.x@, self.len_raw()),
            r.y@ == fdiv(self.y@, self.len_raw()),
            r.z@ == fdiv(self.z@, self.len_raw()),
            r.w@ == fdiv(self.w@, self.len_raw()),
    {
        let l: Fx = self.length();
        proof {
            assert(self.len2() >= 1) by (nonlinear_arith)
                requires
                    !(self.x@ == 0 && self.y@ == 0 && self.z@ == 0 && self.w@ == 0),
            ;
            lemma_isqrt_bounds(self.len2());
            let lr = self.len_raw();
            assert(lr >= 1) by (nonlinear_arith)
                requires
                    self.len2() >= 1,
                    lr >= 0,
                    self.len2() < (lr + 1) * (lr + 1),
            ;
            lemma_tdiv_mag(self.x@ * SCALE, l@);
            lemma_tdiv_mag(self.y@ * SCALE, l@);
            lemma_tdiv_mag(self.z@ * SCALE, l@);
            lemma_tdiv_mag(self.w@ * SCALE, l@);
        }
        Vector4 { x: self.x.div(l), y: self.y.div(l), z: self.z.div(l), w: self.w.div(l) }
    }

    /// Component by position: 0 is x, 1 is y, 2 is z, 3 is w.
    pub fn index(self, i: usize) -> (r: Fx)
        requires
            i < 4,
        ensures
            r == (if i == 0 {
                self.x
            } else if i == 1 {
                self.y
            } else if i == 2 {
                self.z
            } else {
                self.w
            }),
    {
        if i == 0 {
            self.x
        } else if i == 1 {
            self.y
        } else if i == 2 {
            self.z
        } else {
            self.w
        }
    }
}

/// Magnitude of a scalar as an unsigned value.
fn mag4(a: Fx) -> (r: u128)
    requires
        a@ != i64::MIN,
    ensures
        r == (if a@ >= 0 { a@ } else { -a@ }),
{
    if a.raw >= 0 {
        a.raw as u128
    } else {
        (-a.raw) as u128
    }
}

} // verus!
