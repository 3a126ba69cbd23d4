//! 3x3 matrices stored as three column vectors.
//!
//! Every executable operation returns exactly the value of its spec-level
//! model (`m3_mul`, `m3_transpose`, ...), and the algebraic laws
//! (double transpose, multiplication by the identity) are proved of
//! those models for every matrix.

use vstd::prelude::*;

use crate::fx::{fmul, fx_raw, lemma_fmul_bound, lemma_fmul_one, lemma_fmul_zero, Fx, FX_BOUND,
    SCALE};
use crate::vector3::Vector3;

verus! {

#[derive(Clone, Copy, Debug, PartialEq, Eq, Structural)]
pub struct Matrix3 {
    pub x: Vector3,
    pub y: Vector3,
    pub z: Vector3,
}

/// Spec-level vector constructor from raw values.
pub open spec fn v3_raw(x: int, y: int, z: int) -> Vector3 {
    Vector3 { x: fx_raw(x), y: fx_raw(y), z: fx_raw(z) }
}

/// The identity matrix.
pub open spec fn m3_identity() -> Matrix3 {
    Matrix3 {
        x: v3_raw(SCALE as int, 0, 0),
        y: v3_raw(0, SCALE as int, 0),
        z: v3_raw(0, 0, SCALE as int),
    }
}

/// Columns become rows and rows become columns.
pub open spec fn m3_transpose(m: Matrix3) -> Matrix3 {
    Matrix3 {
        x: Vector3 { x: m.x.x, y: m.y.x, z: m.z.x },
        y: Vector3 { x: m.x.y, y: m.y.y, z: m.z.y },
        z: Vector3 { x: m.x.z, y: m.y.z, z: m.z.z },
    }
}

/// Matrix times vector: the linear combination of the columns weighted
/// by the vector's components.
pub open spec fn m3_mul_vec(m: Matrix3, v: Vector3) -> Vector3 {
    v3_raw(
        fmul(m.x.x@, v.x@) + fmul(m.y.x@, v.y@) + fmul(m.z.x@, v.z@),
        fmul(m.x.y@, v.x@) + fmul(m.y.y@, v.y@) + fmul(m.z.y@, v.z@),
        fmul(m.x.z@, v.x@) + fmul(m.y.z@, v.y@) + fmul(m.z.z@, v.z@),
    )
}

/// Matrix times matrix, column by column.
pub open spec fn m3_mul(a: Matrix3, b: Matrix3) -> Matrix3 {
    Matrix3 { x: m3_mul_vec(a, b.x), y: m3_mul_vec(a, b.y), z: m3_mul_vec(a, b.z) }
}

impl Matrix3 {
    /// All entries within `[-b, b]` (raw units).
    pub open spec fn bounded(self, b: int) -> bool {
        &&& self.x.bounded(b)
        &&& self.y.bounded(b)
        &&& self.z.bounded(b)
    }

    /// Build from nine entries given row-major, as they read on paper.
    pub fn new(
        m00: Fx,
        m01: Fx,
        m02: Fx,
        m10: Fx,
        m11: Fx,
        m12: Fx,
        m20: Fx,
        m21: Fx,
        m22: Fx,
    ) -> (r: Matrix3)
        ensures
            r.x.x == m00 && r.x.y == m10 && r.x.z == m20,
            r.y.x == m01 && r.y.y == m11 && r.y.z == m21,
            r.z.x == m02 && r.z.y == m12 && r.z.z == m22,
    {
        Matrix3 {
            x: Vector3 { x: m00, y: m10, z: m20 },
            y: Vector3 { x: m01, y: m11, z: m21 },
            z: Vector3 { x: m02, y: m12, z: m22 },
        }
    }

    pub fn from_cols(x: Vector3, y: Vector3, z: Vector3) -> (r: Matrix3)
        ensures
            r.x == x,
            r.y == y,
            r.z == z,
    {
        Matrix3 { x, y, z }
    }

    pub fn identity() -> (r: Matrix3)
        ensures
            r == m3_identity(),
    {
        Matrix3 {
            x: Vector3 { x: Fx { raw: SCALE }, y: Fx { raw: 0 }, z: Fx { raw: 0 } },
            y: Vector3 { x: Fx { raw: 0 }, y: Fx { raw: SCALE }, z: Fx { raw: 0 } },
            z: Vector3 { x: Fx { raw: 0 }, y: Fx { raw: 0 }, z: Fx { raw: SCALE } },
        }
    }

    /// Row by position (rows cut across the stored columns).
    pub fn row(&self, index: usize) -> (r: Vector3)
        requires
            index < 3,
        ensures
            r == (if index == 0 {
                m3_transpose(*self).x
            } else if index == 1 {
                m3_transpose(*self).y
            } else {
                m3_transpose(*self).z
            }),
    {
        if index == 0 {
            Vector3 { x: self.x.x, y: self.y.x, z: self.z.x }
        } else if index == 1 {
            Vector3 { x: self.x.y, y: self.y.y, z: self.z.y }
        } else {
            Vector3 { x: self.x.z, y: self.y.z, z: self.z.z }
        }
    }

    /// Column by position.
    pub fn col(&self, index: usize) -> (r: Vector3)
        requires
            index < 3,
        ensures
            r == (if index == 0 {
                self.x
            } else if index == 1 {
                self.y
            } else {
                self.z
            }),
    {
        if index == 0 {
            self.x
        } else if index == 1 {
            self.y
        } else {
            self.z
        }
    }

    /// Column by position, the indexing the original exposes.
    pub fn index(&self, index: usize) -> (r: Vector3)
        requires
            index < 3,
        ensures
            r == (if index == 0 {
                self.x
            } else if index == 1 {
                self.y
            } else {
                self.z
            }),
    {
        self.col(index)
    }

    pub fn transpose(&self) -> (r: Matrix3)
        ensures
            r == m3_transpose(*self),
    {
        Matrix3 {
            x: Vector3 { x: self.x.x, y: self.y.x, z: self.z.x },
            y: Vector3 { x: self.x.y, y: self.y.y, z: self.z.y },
            z: Vector3 { x: self.x.z, y: self.y.z, z: self.z.z },
        }
    }

    /// Matrix-vector product.
    pub fn mul_vector(&self, v: Vector3) -> (r: Vector3)
        requires
            self.bounded(FX_BOUND as int),
            v.bounded(FX_BOUND as int),
        ensures
            r == m3_mul_vec(*self, v),
    {
        proof {
            lemma_fmul_bound(self.x.x@, v.x@);
            lemma_fmul_bound(self.x.y@, v.x@);
            lemma_fmul_bound(self.x.z@, v.x@);
            lemma_fmul_bound(self.y.x@, v.y@);
            lemma_fmul_bound(self.y.y@, v.y@);
            lemma_fmul_bound(self.y.z@, v.y@);
            lemma_fmul_bound(self.z.x@, v.z@);
            lemma_fmul_bound(self.z.y@, v.z@);
            lemma_fmul_bound(self.z.z@, v.z@);
        }
        let tx = self.x.scale(v.x);
        let ty = self.y.scale(v.y);
        let tz = self.z.scale(v.z);
        tx.add(ty).add(tz)
    }

    /// Matrix-matrix product, column by column.
    pub fn mul_matrix(&self, o: &Matrix3) -> (r: Matrix3)
        requires
            self.bounded(FX_BOUND as int),
            o.bounded(FX_BOUND as int),
        ensures
            r == m3_mul(*self, *o),
    {
        Matrix3 {
            x: self.mul_vector(o.x),
            y: self.mul_vector(o.y),
            z: self.mul_vector(o.z),
        }
    }

    /// Multiply every entry by a scalar.
    pub fn scalar_mul(&self, s: Fx) -> (r: Matrix3)
        requires
            self.bounded(FX_BOUND as int),
            -FX_BOUND <= s@ <= FX_BOUND,
        ensures
            r.x.x@ == fmul(self.x.x@, s@) && r.x.y@ == fmul(self.x.y@, s@) && r.x.z@ == fmul(
                self.x.z@,
                s@,
            ),
            r.y.x@ == fmul(self.y.x@, s@) && r.y.y@ == fmul(self.y.y@, s@) && r.y.z@ == fmul(
                self.y.z@,
                s@,
            ),
            r.z.x@ == fmul(self.z.x@, s@) && r.z.y@ == fmul(self.z.y@, s@) && r.z.z@ == fmul(
                self.z.z@,
                s@,
            ),
    {
        Matrix3 { x: self.x.scale(s), y: self.y.scale(s), z: self.z.scale(s) }
    }

    /// Add a scalar to every entry.
    pub fn scalar_add(&self, s: Fx) -> (r: Matrix3)
        requires
            self.bounded(FX_BOUND as int),
            -FX_BOUND <= s@ <= FX_BOUND,
        ensures
            r.x.x@ == self.x.x@ + s@ && r.x.y@ == self.x.y@ + s@ && r.x.z@ == self.x.z@ + s@,
            r.y.x@ == self.y.x@ + s@ && r.y.y@ == self.y.y@ + s@ && r.y.z@ == self.y.z@ + s@,
            r.z.x@ == self.z.x@ + s@ && r.z.y@ == self.z.y@ + s@ && r.z.z@ == self.z.z@ + s@,
    {
        Matrix3 { x: self.x.scalar_add(s), y: self.y.scalar_add(s), z: self.z.scalar_add(s) }
    }

    /// Subtract a scalar from every entry.
    pub fn scalar_sub(&self, s: Fx) -> (r: Matrix3)
        requires
            self.bounded(FX_BOUND as int),
            -FX_BOUND <= s@ <= FX_BOUND,
        ensures
            r.x.x@ == self.x.x@ - s@ && r.x.y@ == self.x.y@ - s@ && r.x.z@ == self.x.z@ - s@,
            r.y.x@ == self.y.x@ - s@ && r.y.y@ == self.y.y@ - s@ && r.y.z@ == self.y.z@ - s@,
            r.z.x@ == self.z.x@ - s@ && r.z.y@ == self.z.y@ - s@ && r.z.z@ == self.z.z@ - s@,
    {
        Matrix3 { x: self.x.scalar_sub(s), y: self.y.scalar_sub(s), z: self.z.scalar_sub(s) }
    }

    /// Entrywise sum.
    pub fn add(&self, o: &Matrix3) -> (r: Matrix3)
        requires
            self.bounded(FX_BOUND as int),
            o.bounded(FX_BOUND as int),
        ensures
            r.x.x@ == self.x.x@ + o.x.x@ && r.x.y@ == self.x.y@ + o.x.y@ && r.x.z@ == self.x.z@
                + o.x.z@,
            r.y.x@ == self.y.x@ + o.y.x@ && r.y.y@ == self.y.y@ + o.y.y@ && r.y.z@ == self.y.z@
                + o.y.z@,
            r.z.x@ == self.z.x@ + o.z.x@ && r.z.y@ == self.z.y@ + o.z.y@ && r.z.z@ == self.z.z@
                + o.z.z@,
    {
        Matrix3 { x: self.x.add(o.x), y: self.y.add(o.y), z: self.z.add(o.z) }
    }

    /// Entrywise difference.
    pub fn sub(&self, o: &Matrix3) -> (r: Matrix3)
        requires
            self.bounded(FX_BOUND as int),
            o.bounded(FX_BOUND as int),
        ensures
            r.x.x@ == self.x.x@ - o.x.x@ && r.x.y@ == self.x.y@ - o.x.y@ && r.x.z@ == self.x.z@
                - o.x.z@,
            r.y.x@ == self.y.x@ - o.y.x@ && r.y.y@ == self.y.y@ - o.y.y@ && r.y.z@ == self.y.z@
                - o.y.z@,
            r.z.x@ == self.z.x@ - o.z.x@ && r.z.y@ == self.z.y@ - o.z.y@ && r.z.z@ == self.z.z@
                - o.z.z@,
    {
        Matrix3 { x: self.x.sub(o.x), y: self.y.sub(o.y), z: self.z.sub(o.z) }
    }

    /// A uniform scaling matrix: `s` down the diagonal.
    pub fn scaling(s: Fx) -> (r: Matrix3)
        ensures
            r.x == v3_raw(s@, 0, 0),
            r.y == v3_raw(0, s@, 0),
            r.z == v3_raw(0, 0, s@),
    {
        Matrix3 {
            x: Vector3 { x: s, y: Fx { raw: 0 }, z: Fx { raw: 0 } },
            y: Vector3 { x: Fx { raw: 0 }, y: s, z: Fx { raw: 0 } },
            z: Vector3 { x: Fx { raw: 0 }, y: Fx { raw: 0 }, z: s },
        }
    }
}

/// A product of bounded matrices is bounded: each entry is a sum of
/// three scaled-down products.
pub proof fn lemma_m3_mul_bounded(a: Matrix3, b: Matrix3, ba: int, bb: int)
    requires
        0 <= ba <= FX_BOUND,
        0 <= bb <= FX_BOUND,
        a.bounded(ba),
        b.bounded(bb),
    ensures
        m3_mul(a, b).bounded(3 * ((ba * bb) / (SCALE as int))),
{
    lemma_m3_col_bounded(a, b.x, ba, bb);
    lemma_m3_col_bounded(a, b.y, ba, bb);
    lemma_m3_col_bounded(a, b.z, ba, bb);
}

proof fn lemma_m3_col_bounded(a: Matrix3, v: Vector3, ba: int, bb: int)
    requires
        0 <= ba <= FX_BOUND,
        0 <= bb <= FX_BOUND,
        a.bounded(ba),
        v.bounded(bb),
    ensures
        m3_mul_vec(a, v).bounded(3 * ((ba * bb) / (SCALE as int))),
{
    crate::fx::lemma_fmul_bounds(a.x.x@, v.x@, ba, bb);
    crate::fx::lemma_fmul_bounds(a.x.y@, v.x@, ba, bb);
    crate::fx::lemma_fmul_bounds(a.x.z@, v.x@, ba, bb);
    crate::fx::lemma_fmul_bounds(a.y.x@, v.y@, ba, bb);
    crate::fx::lemma_fmul_bounds(a.y.y@, v.y@, ba, bb);
    crate::fx::lemma_fmul_bounds(a.y.z@, v.y@, ba, bb);
    crate::fx::lemma_fmul_bounds(a.z.x@, v.z@, ba, bb);
    crate::fx::lemma_fmul_bounds(a.z.y@, v.z@, ba, bb);
    crate::fx::lemma_fmul_bounds(a.z.z@, v.z@, ba, bb);
    assert(0 <= ba * bb <= 0x1000_0000_0000_0000_0000) by (nonlinear_arith)
        requires
            0 <= ba <= 0x40_0000_0000,
            0 <= bb <= 0x40_0000_0000,
    ;
    vstd::arithmetic::div_mod::lemma_div_is_ordered(
        ba * bb,
        0x1000_0000_0000_0000_0000,
        SCALE as int,
    );
    vstd::arithmetic::div_mod::lemma_div_pos_is_pos(ba * bb, SCALE as int);
}

/// Transposing twice gives back the original matrix, for every matrix.
pub proof fn lemma_transpose_involution(m: Matrix3)
    ensures
        m3_transpose(m3_transpose(m)) == m,
{
}

/// Multiplying by the identity on the right changes nothing, for every
/// matrix: the fixed-point products by 1 and 0 are exact.
pub proof fn lemma_mul_identity_right(m: Matrix3)
    ensures
        m3_mul(m, m3_identity()) == m,
{
    assert(m3_mul_vec(m, m3_identity().x) == m.x) by {
        lemma_fmul_one(m.x.x@);
        lemma_fmul_one(m.x.y@);
        lemma_fmul_one(m.x.z@);
        lemma_fmul_zero(m.y.x@);
        lemma_fmul_zero(m.y.y@);
        lemma_fmul_zero(m.y.z@);
        lemma_fmul_zero(m.z.x@);
        lemma_fmul_zero(m.z.y@);
        lemma_fmul_zero(m.z.z@);
    }
    assert(m3_mul_vec(m, m3_identity().y) == m.y) by {
        lemma_fmul_one(m.y.x@);
        lemma_fmul_one(m.y.y@);
        lemma_fmul_one(m.y.z@);
        lemma_fmul_zero(m.x.x@);
        lemma_fmul_zero(m.x.y@);
        lemma_fmul_zero(m.x.z@);
        lemma_fmul_zero(m.z.x@);
        lemma_fmul_zero(m.z.y@);
        lemma_fmul_zero(m.z.z@);
    }
    assert(m3_mul_vec(m, m3_identity().z) == m.z) by {
        lemma_fmul_one(m.z.x@);
        lemma_fmul_one(m.z.y@);
        lemma_fmul_one(m.z.z@);
        lemma_fmul_zero(m.x.x@);
        lemma_fmul_zero(m.x.y@);
        lemma_fmul_zero(m.x.z@);
        lemma_fmul_zero(m.y.x@);
        lemma_fmul_zero(m.y.y@);
        lemma_fmul_zero(m.y.z@);
    }
}

/// Multiplying by the identity on the left changes nothing either.
pub proof fn lemma_mul_identity_left(m: Matrix3)
    ensures
        m3_mul(m3_identity(), m) == m,
{
    lemma_id_mul_vec(m.x);
    lemma_id_mul_vec(m.y);
    lemma_id_mul_vec(m.z);
}

/// The identity matrix maps every vector to itself.
pub proof fn lemma_id_mul_vec(v: Vector3)
    ensures
        m3_mul_vec(m3_identity(), v) == v,
{
    lemma_fmul_one(v.x@);
    lemma_fmul_one(v.y@);
    lemma_fmul_one(v.z@);
    lemma_fmul_zero(v.x@);
    lemma_fmul_zero(v.y@);
    lemma_fmul_zero(v.z@);
}

} // verus!
