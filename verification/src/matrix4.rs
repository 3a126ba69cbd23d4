//! 4x4 matrices stored as four column vectors: the homogeneous
//! transforms of the pipeline.

use vstd::prelude::*;

use crate::fx::{fmul, fx_raw, lemma_fmul_bound, lemma_fmul_one, lemma_fmul_zero, Fx, FX_BOUND,
    SCALE};
use crate::matrix3::Matrix3;
use crate::vector3::Vector3;
use crate::vector4::Vector4;

verus! {

#[derive(Clone, Copy, Debug, PartialEq, Eq, Structural)]
pub struct Matrix4 {
    pub x: Vector4,
    pub y: Vector4,
    pub z: Vector4,
    pub w: Vector4,
}

/// Spec-level vector constructor from raw values.
pub open spec fn v4_raw(x: int, y: int, z: int, w: int) -> Vector4 {
    Vector4 { x: fx_raw(x), y: fx_raw(y), z: fx_raw(z), w: fx_raw(w) }
}

/// The identity matrix.
pub open spec fn m4_identity() -> Matrix4 {
    Matrix4 {
        x: v4_raw(SCALE as int, 0, 0, 0),
        y: v4_raw(0, SCALE as int, 0, 0),
        z: v4_raw(0, 0, SCALE as int, 0),
        w: v4_raw(0, 0, 0, SCALE as int),
    }
}

/// Columns become rows and rows become columns.
pub open spec fn m4_transpose(m: Matrix4) -> Matrix4 {
    Matrix4 {
        x: Vector4 { x: m.x.x, y: m.y.x, z: m.z.x, w: m.w.x },
        y: Vector4 { x: m.x.y, y: m.y.y, z: m.z.y, w: m.w.y },
        z: Vector4 { x: m.x.z, y: m.y.z, z: m.z.z, w: m.w.z },
        w: Vector4 { x: m.x.w, y: m.y.w, z: m.z.w, w: m.w.w },
    }
}

/// Matrix times vector: the linear combination of the columns weighted
/// by the vector's components.
pub open spec fn m4_mul_vec(m: Matrix4, v: Vector4) -> Vector4 {
    v4_raw(
        fmul(m.x.x@, v.x@) + fmul(m.y.x@, v.y@) + fmul(m.z.x@, v.z@) + fmul(m.w.x@, v.w@),
        fmul(m.x.y@, v.x@) + fmul(m.y.y@, v.y@) + fmul(m.z.y@, v.z@) + fmul(m.w.y@, v.w@),
        fmul(m.x.z@, v.x@) + fmul(m.y.z@, v.y@) + fmul(m.z.z@, v.z@) + fmul(m.w.z@, v.w@),
        fmul(m.x.w@, v.x@) + fmul(m.y.w@, v.y@) + fmul(m.z.w@, v.z@) + fmul(m.w.w@, v.w@),
    )
}

/// Matrix times matrix, column by column.
pub open spec fn m4_mul(a: Matrix4, b: Matrix4) -> Matrix4 {
    Matrix4 {
        x: m4_mul_vec(a, b.x),
        y: m4_mul_vec(a, b.y),
        z: m4_mul_vec(a, b.z),
        w: m4_mul_vec(a, b.w),
    }
}

/// A 3x3 matrix widened to homogeneous coordinates: the upper-left
/// block, with an identity fourth row and column.
pub open spec fn m4_from_m3(m: Matrix3) -> Matrix4 {
    Matrix4 {
        x: Vector4 { x: m.x.x, y: m.x.y, z: m.x.z, w: fx_raw(0) },
        y: Vector4 { x: m.y.x, y: m.y.y, z: m.y.z, w: fx_raw(0) },
        z: Vector4 { x: m.z.x, y: m.z.y, z: m.z.z, w: fx_raw(0) },
        w: v4_raw(0, 0, 0, SCALE as int),
    }
}

/// The homogeneous translation by `t`.
pub open spec fn m4_translation(t: Vector3) -> Matrix4 {
    Matrix4 {
        x: v4_raw(SCALE as int, 0, 0, 0),
        y: v4_raw(0, SCALE as int, 0, 0),
        z: v4_raw(0, 0, SCALE as int, 0),
        w: Vector4 { x: t.x, y: t.y, z: t.z, w: fx_raw(SCALE as int) },
    }
}

/// The homogeneous uniform scaling by a raw factor `s`.
pub open spec fn m4_scaling(s: int) -> Matrix4 {
    Matrix4 {
        x: v4_raw(s, 0, 0, 0),
        y: v4_raw(0, s, 0, 0),
        z: v4_raw(0, 0, s, 0),
        w: v4_raw(0, 0, 0, SCALE as int),
    }
}

impl Matrix4 {
    /// All entries within `[-b, b]` (raw units).
    pub open spec fn bounded(self, b: int) -> bool {
        &&& self.x.bounded(b)
        &&& self.y.bounded(b)
        &&& self.z.bounded(b)
        &&& self.w.bounded(b)
    }

    /// Build from sixteen entries given row-major, as they read on paper.
    pub fn new(
        m00: Fx,
        m01: Fx,
        m02: Fx,
        m03: Fx,
        m10: Fx,
        m11: Fx,
        m12: Fx,
        m13: Fx,
        m20: Fx,
        m21: Fx,
        m22: Fx,
        m23: Fx,
        m30: Fx,
        m31: Fx,
        m32: Fx,
        m33: Fx,
    ) -> (r: Matrix4)
        ensures
            r.x.x == m00 && r.x.y == m10 && r.x.z == m20 && r.x.w == m30,
            r.y.x == m01 && r.y.y == m11 && r.y.z == m21 && r.y.w == m31,
            r.z.x == m02 && r.z.y == m12 && r.z.z == m22 && r.z.w == m32,
            r.w.x == m03 && r.w.y == m13 && r.w.z == m23 && r.w.w == m33,
    {
        Matrix4 {
            x: Vector4 { x: m00, y: m10, z: m20, w: m30 },
            y: Vector4 { x: m01, y: m11, z: m21, w: m31 },
            z: Vector4 { x: m02, y: m12, z: m22, w: m32 },
            w: Vector4 { x: m03, y: m13, z: m23, w: m33 },
        }
    }

    pub fn from_cols(x: Vector4, y: Vector4, z: Vector4, w: Vector4) -> (r: Matrix4)
        ensures
            r.x == x,
            r.y == y,
            r.z == z,
            r.w == w,
    {
        Matrix4 { x, y, z, w }
    }

    /// Widen a 3x3 matrix with an identity fourth row and column.
    pub fn from_matrix3(m: Matrix3) -> (r: Matrix4)
        ensures
            r == m4_from_m3(m),
    {
        Matrix4 {
            x: Vector4 { x: m.x.x, y: m.x.y, z: m.x.z, w: Fx { raw: 0 } },
            y: Vector4 { x: m.y.x, y: m.y.y, z: m.y.z, w: Fx { raw: 0 } },
            z: Vector4 { x: m.z.x, y: m.z.y, z: m.z.z, w: Fx { raw: 0 } },
            w: Vector4 { x: Fx { raw: 0 }, y: Fx { raw: 0 }, z: Fx { raw: 0 }, w: Fx {
                raw: SCALE,
            } },
        }
    }

    pub fn identity() -> (r: Matrix4)
        ensures
            r == m4_identity(),
    {
        Matrix4 {
            x: Vector4 { x: Fx { raw: SCALE }, y: Fx { raw: 0 }, z: Fx { raw: 0 }, w: Fx {
                raw: 0,
            } },
            y: Vector4 { x: Fx { raw: 0 }, y: Fx { raw: SCALE }, z: Fx { raw: 0 }, w: Fx {
                raw: 0,
            } },
            z: Vector4 { x: Fx { raw: 0 }, y: Fx { raw: 0 }, z: Fx { raw: SCALE }, w: Fx {
                raw: 0,
            } },
            w: Vector4 { x: Fx { raw: 0 }, y: Fx { raw: 0 }, z: Fx { raw: 0 }, w: Fx {
                raw: SCALE,
            } },
        }
    }

    /// The translation that moves every point by `t`.
    pub fn translation(t: Vector3) -> (r: Matrix4)
        ensures
            r == m4_translation(t),
    {
        Matrix4 {
            x: Vector4 { x: Fx { raw: SCALE }, y: Fx { raw: 0 }, z: Fx { raw: 0 }, w: Fx {
                raw: 0,
            } },
            y: Vector4 { x: Fx { raw: 0 }, y: Fx { raw: SCALE }, z: Fx { raw: 0 }, w: Fx {
                raw: 0,
            } },
            z: Vector4 { x: Fx { raw: 0 }, y: Fx { raw: 0 }, z: Fx { raw: SCALE }, w: Fx {
                raw: 0,
            } },
            w: Vector4 { x: t.x, y: t.y, z: t.z, w: Fx { raw: SCALE } },
        }
    }

    /// The uniform scaling by `s` of the three spatial axes.
    pub fn scaling(s: Fx) -> (r: Matrix4)
        ensures
            r == m4_scaling(s@),
    {
        Matrix4 {
            x: Vector4 { x: s, y: Fx { raw: 0 }, z: Fx { raw: 0 }, w: Fx { raw: 0 } },
            y: Vector4 { x: Fx { raw: 0 }, y: s, z: Fx { raw: 0 }, w: Fx { raw: 0 } },
            z: Vector4 { x: Fx { raw: 0 }, y: Fx { raw: 0 }, z: s, w: Fx { raw: 0 } },
            w: Vector4 { x: Fx { raw: 0 }, y: Fx { raw: 0 }, z: Fx { raw: 0 }, w: Fx {
                raw: SCALE,
            } },
        }
    }

    /// Row by position (rows cut across the stored columns).
    pub fn row(&self, index: usize) -> (r: Vector4)
        requires
            index < 4,
        ensures
            r == (if index == 0 {
                m4_transpose(*self).x
            } else if index == 1 {
                m4_transpose(*self).y
            } else if index == 2 {
                m4_transpose(*self).z
            } else {
                m4_transpose(*self).w
            }),
    {
        if index == 0 {
            Vector4 { x: self.x.x, y: self.y.x, z: self.z.x, w: self.w.x }
        } else if index == 1 {
            Vector4 { x: self.x.y, y: self.y.y, z: self.z.y, w: self.w.y }
        } else if index == 2 {
            Vector4 { x: self.x.z, y: self.y.z, z: self.z.z, w: self.w.z }
        } else {
            Vector4 { x: self.x.w, y: self.y.w, z: self.z.w, w: self.w.w }
        }
    }

    /// Column by position.
    pub fn col(&self, index: usize) -> (r: Vector4)
        requires
            index < 4,
        ensures
            r == (if index == 0 {
                self.x
            } else if index == 1 {
                self.y
            } else if index == 2 {
                self.z
            } else {
                self.w
            }),
    {
        if index == 0 {
            self.x
        } else if index == 1 {
            self.y
        } else if index == 2 {
            self.z
        } else {
            self.w
        }
    }

    /// Column by position, the indexing the original exposes.
    pub fn index(&self, index: usize) -> (r: Vector4)
        requires
            index < 4,
        ensures
            r == (if index == 0 {
                self.x
            } else if index == 1 {
                self.y
            } else if index == 2 {
                self.z
            } else {
                self.w
            }),
    {
        self.col(index)
    }

    pub fn transpose(&self) -> (r: Matrix4)
        ensures
            r == m4_transpose(*self),
    {
        Matrix4 {
            x: Vector4 { x: self.x.x, y: self.y.x, z: self.z.x, w: self.w.x },
            y: Vector4 { x: self.x.y, y: self.y.y, z: self.z.y, w: self.w.y },
            z: Vector4 { x: self.x.z, y: self.y.z, z: self.z.z, w: self.w.z },
            w: Vector4 { x: self.x.w, y: self.y.w, z: self.z.w, w: self.w.w },
        }
    }

    /// Matrix-vector product.
    pub fn mul_vector(&self, v: Vector4) -> (r: Vector4)
        requires
            self.bounded(FX_BOUND as int),
            v.bounded(FX_BOUND as int),
        ensures
            r == m4_mul_vec(*self, v),
    {
        proof {
            lemma_fmul_bound(self.x.x@, v.x@);
            lemma_fmul_bound(self.x.y@, v.x@);
            lemma_fmul_bound(self.x.z@, v.x@);
            lemma_fmul_bound(self.x.w@, v.x@);
            lemma_fmul_bound(self.y.x@, v.y@);
            lemma_fmul_bound(self.y.y@, v.y@);
            lemma_fmul_bound(self.y.z@, v.y@);
            lemma_fmul_bound(self.y.w@, v.y@);
            lemma_fmul_bound(self.z.x@, v.z@);
            lemma_fmul_bound(self.z.y@, v.z@);
            lemma_fmul_bound(self.z.z@, v.z@);
            lemma_fmul_bound(self.z.w@, v.z@);
            lemma_fmul_bound(self.w.x@, v.w@);
            lemma_fmul_bound(self.w.y@, v.w@);
            lemma_fmul_bound(self.w.z@, v.w@);
            lemma_fmul_bound(self.w.w@, v.w@);
        }
        let tx = self.x.scale(v.x);
        let ty = self.y.scale(v.y);
        let tz = self.z.scale(v.z);
        let tw = self.w.scale(v.w);
        tx.add(ty).add(tz).add(tw)
    }

    /// Matrix-matrix product, column by column.
    pub fn mul_matrix(&self, o: &Matrix4) -> (r: Matrix4)
        requires
            self.bounded(FX_BOUND as int),
            o.bounded(FX_BOUND as int),
        ensures
            r == m4_mul(*self, *o),
    {
        Matrix4 {
            x: self.mul_vector(o.x),
            y: self.mul_vector(o.y),
            z: self.mul_vector(o.z),
            w: self.mul_vector(o.w),
        }
    }

    /// Multiply every entry by a scalar.
    pub fn scalar_mul(&self, s: Fx) -> (r: Matrix4)
        requires
            self.bounded(FX_BOUND as int),
            -FX_BOUND <= s@ <= FX_BOUND,
        ensures
            r.x.x@ == fmul(self.x.x@, s@) && r.x.y@ == fmul(self.x.y@, s@) && r.x.z@ == fmul(
                self.x.z@,
                s@,
            ) && r.x.w@ == fmul(self.x.w@, s@),
            r.y.x@ == fmul(self.y.x@, s@) && r.y.y@ == fmul(self.y.y@, s@) && r.y.z@ == fmul(
                self.y.z@,
                s@,
            ) && r.y.w@ == fmul(self.y.w@, s@),
            r.z.x@ == fmul(self.z.x@, s@) && r.z.y@ == fmul(self.z.y@, s@) && r.z.z@ == fmul(
                self.z.z@,
                s@,
            ) && r.z.w@ == fmul(self.z.w@, s@),
            r.w.x@ == fmul(self.w.x@, s@) && r.w.y@ == fmul(self.w.y@, s@) && r.w.z@ == fmul(
                self.w.z@,
                s@,
            ) && r.w.w@ == fmul(self.w.w@, s@),
    {
        Matrix4 {
            x: self.x.scale(s),
            y: self.y.scale(s),
            z: self.z.scale(s),
            w: self.w.scale(s),
        }
    }

    /// Add a scalar to every entry.
    pub fn scalar_add(&self, s: Fx) -> (r: Matrix4)
        requires
            self.bounded(FX_BOUND as int),
            -FX_BOUND <= s@ <= FX_BOUND,
        ensures
            r.x.x@ == self.x.x@ + s@ && r.x.y@ == self.x.y@ + s@ && r.x.z@ == self.x.z@ + s@
                && r.x.w@ == self.x.w@ + s@,
            r.y.x@ == self.y.x@ + s@ && r.y.y@ == self.y.y@ + s@ && r.y.z@ == self.y.z@ + s@
                && r.y.w@ == self.y.w@ + s@,
            r.z.x@ == self.z.x@ + s@ && r.z.y@ == self.z.y@ + s@ && r.z.z@ == self.z.z@ + s@
                && r.z.w@ == self.z.w@ + s@,
            r.w.x@ == self.w.x@ + s@ && r.w.y@ == self.w.y@ + s@ && r.w.z@ == self.w.z@ + s@
                && r.w.w@ == self.w.w@ + s@,
    {
        Matrix4 {
            x: self.x.scalar_add(s),
            y: self.y.scalar_add(s),
            z: self.z.scalar_add(s),
            w: self.w.scalar_add(s),
        }
    }

    /// Subtract a scalar from every entry.
    pub fn scalar_sub(&self, s: Fx) -> (r: Matrix4)
        requires
            self.bounded(FX_BOUND as int),
            -FX_BOUND <= s@ <= FX_BOUND,
        ensures
            r.x.x@ == self.x.x@ - s@ && r.x.y@ == self.x.y@ - s@ && r.x.z@ == self.x.z@ - s@
                && r.x.w@ == self.x.w@ - s@,
            r.y.x@ == self.y.x@ - s@ && r.y.y@ == self.y.y@ - s@ && r.y.z@ == self.y.z@ - s@
                && r.y.w@ == self.y.w@ - s@,
            r.z.x@ == self.z.x@ - s@ && r.z.y@ == self.z.y@ - s@ && r.z.z@ == self.z.z@ - s@
                && r.z.w@ == self.z.w@ - s@,
            r.w.x@ == self.w.x@ - s@ && r.w.y@ == self.w.y@ - s@ && r.w.z@ == self.w.z@ - s@
                && r.w.w@ == self.w.w@ - s@,
    {
        Matrix4 {
            x: self.x.scalar_sub(s),
            y: self.y.scalar_sub(s),
            z: self.z.scalar_sub(s),
            w: self.w.scalar_sub(s),
        }
    }

    /// Entrywise sum.
    pub fn add(&self, o: &Matrix4) -> (r: Matrix4)
        requires
            self.bounded(FX_BOUND as int),
            o.bounded(FX_BOUND as int),
        ensures
            r.x.x@ == self.x.x@ + o.x.x@ && r.x.y@ == self.x.y@ + o.x.y@ && r.x.z@ == self.x.z@
                + o.x.z@ && r.x.w@ == self.x.w@ + o.x.w@,
            r.y.x@ == self.y.x@ + o.y.x@ && r.y.y@ == self.y.y@ + o.y.y@ && r.y.z@ == self.y.z@
                + o.y.z@ && r.y.w@ == self.y.w@ + o.y.w@,
            r.z.x@ == self.z.x@ + o.z.x@ && r.z.y@ == self.z.y@ + o.z.y@ && r.z.z@ == self.z.z@
                + o.z.z@ && r.z.w@ == self.z.w@ + o.z.w@,
            r.w.x@ == self.w.x@ + o.w.x@ && r.w.y@ == self.w.y@ + o.w.y@ && r.w.z@ == self.w.z@
                + o.w.z@ && r.w.w@ == self.w.w@ + o.w.w@,
    {
        Matrix4 {
            x: self.x.add(o.x),
            y: self.y.add(o.y),
            z: self.z.add(o.z),
            w: self.w.add(o.w),
        }
    }

    /// Entrywise difference.
    pub fn sub(&self, o: &Matrix4) -> (r: Matrix4)
        requires
            self.bounded(FX_BOUND as int),
            o.bounded(FX_BOUND as int),
        ensures
            r.x.x@ == self.x.x@ - o.x.x@ && r.x.y@ == self.x.y@ - o.x.y@ && r.x.z@ == self.x.z@
                - o.x.z@ && r.x.w@ == self.x.w@ - o.x.w@,
            r.y.x@ == self.y.x@ - o.y.x@ && r.y.y@ == self.y.y@ - o.y.y@ && r.y.z@ == self.y.z@
                - o.y.z@ && r.y.w@ == self.y.w@ - o.y.w@,
            r.z.x@ == self.z.x@ - o.z.x@ && r.z.y@ == self.z.y@ - o.z.y@ && r.z.z@ == self.z.z@
                - o.z.z@ && r.z.w@ == self.z.w@ - o.z.w@,
            r.w.x@ == self.w.x@ - o.w.x@ && r.w.y@ == self.w.y@ - o.w.y@ && r.w.z@ == self.w.z@
                - o.w.z@ && r.w.w@ == self.w.w@ - o.w.w@,
    {
        Matrix4 {
            x: self.x.sub(o.x),
            y: self.y.sub(o.y),
            z: self.z.sub(o.z),
            w: self.w.sub(o.w),
        }
    }
}

/// A product of bounded matrices is bounded: each entry is a sum of
/// four scaled-down products.
pub proof fn lemma_m4_mul_bounded(a: Matrix4, b: Matrix4, ba: int, bb: int)
    requires
        0 <= ba <= FX_BOUND,
        0 <= bb <= FX_BOUND,
        a.bounded(ba),
        b.bounded(bb),
    ensures
        m4_mul(a, b).bounded(4 * ((ba * bb) / (SCALE as int))),
{
    lemma_m4_col_bounded(a, b.x, ba, bb);
    lemma_m4_col_bounded(a, b.y, ba, bb);
    lemma_m4_col_bounded(a, b.z, ba, bb);
    lemma_m4_col_bounded(a, b.w, ba, bb);
}

proof fn lemma_m4_col_bounded(a: Matrix4, v: Vector4, ba: int, bb: int)
    requires
        0 <= ba <= FX_BOUND,
        0 <= bb <= FX_BOUND,
        a.bounded(ba),
        v.bounded(bb),
    ensures
        m4_mul_vec(a, v).bounded(4 * ((ba * bb) / (SCALE as int))),
{
    crate::fx::lemma_fmul_bounds(a.x.x@, v.x@, ba, bb);
    crate::fx::lemma_fmul_bounds(a.x.y@, v.x@, ba, bb);
    crate::fx::lemma_fmul_bounds(a.x.z@, v.x@, ba, bb);
    crate::fx::lemma_fmul_bounds(a.x.w@, v.x@, ba, bb);
    crate::fx::lemma_fmul_bounds(a.y.x@, v.y@, ba, bb);
    crate::fx::lemma_fmul_bounds(a.y.y@, v.y@, ba, bb);
    crate::fx::lemma_fmul_bounds(a.y.z@, v.y@, ba, bb);
    crate::fx::lemma_fmul_bounds(a.y.w@, v.y@, ba, bb);
    crate::fx::lemma_fmul_bounds(a.z.x@, v.z@, ba, bb);
    crate::fx::lemma_fmul_bounds(a.z.y@, v.z@, ba, bb);
    crate::fx::lemma_fmul_bounds(a.z.z@, v.z@, ba, bb);
    crate::fx::lemma_fmul_bounds(a.z.w@, v.z@, ba, bb);
    crate::fx::lemma_fmul_bounds(a.w.x@, v.w@, ba, bb);
    crate::fx::lemma_fmul_bounds(a.w.y@, v.w@, ba, bb);
    crate::fx::lemma_fmul_bounds(a.w.z@, v.w@, ba, bb);
    crate::fx::lemma_fmul_bounds(a.w.w@, v.w@, ba, bb);
    assert(0 <= ba * bb <= 0x1000_0000_0000_0000_0000) by (nonlinear_arith)
        requires
            0 <= ba <= 0x40_0000_0000,
            0 <= bb <= 0x40_0000_0000,
    ;
    vstd::arithmetic::div_mod::lemma_div_is_ordered(
        ba * bb,
        0x1000_0000_0000_0000_0000,
        SCALE as int,
    );
    vstd::arithmetic::div_mod::lemma_div_pos_is_pos(ba * bb, SCALE as int);
}

/// Transposing twice gives back the original matrix, for every matrix.
pub proof fn lemma_transpose_involution_m4(m: Matrix4)
    ensures
        m4_transpose(m4_transpose(m)) == m,
{
}

/// The identity matrix maps every vector to itself.
pub proof fn lemma_id_mul_vec_m4(v: Vector4)
    ensures
        m4_mul_vec(m4_identity(), v) == v,
{
    lemma_fmul_one(v.x@);
    lemma_fmul_one(v.y@);
    lemma_fmul_one(v.z@);
    lemma_fmul_one(v.w@);
    lemma_fmul_zero(v.x@);
    lemma_fmul_zero(v.y@);
    lemma_fmul_zero(v.z@);
    lemma_fmul_zero(v.w@);
}

/// Multiplying by the identity on the right changes nothing, for every
/// matrix: the fixed-point products by 1 and 0 are exact.
pub proof fn lemma_mul_identity_right_m4(m: Matrix4)
    ensures
        m4_mul(m, m4_identity()) == m,
{
    assert(m4_mul_vec(m, m4_identity().x) == m.x) by {
        lemma_m4_col_id(m.x);
        lemma_m4_col_id(m.y);
        lemma_m4_col_id(m.z);
        lemma_m4_col_id(m.w);
    }
    assert(m4_mul_vec(m, m4_identity().y) == m.y) by {
        lemma_m4_col_id(m.x);
        lemma_m4_col_id(m.y);
        lemma_m4_col_id(m.z);
        lemma_m4_col_id(m.w);
    }
    assert(m4_mul_vec(m, m4_identity().z) == m.z) by {
        lemma_m4_col_id(m.x);
        lemma_m4_col_id(m.y);
        lemma_m4_col_id(m.z);
        lemma_m4_col_id(m.w);
    }
    assert(m4_mul_vec(m, m4_identity().w) == m.w) by {
        lemma_m4_col_id(m.x);
        lemma_m4_col_id(m.y);
        lemma_m4_col_id(m.z);
        lemma_m4_col_id(m.w);
    }
}

/// Multiplying by the identity on the left changes nothing either.
pub proof fn lemma_mul_identity_left_m4(m: Matrix4)
    ensures
        m4_mul(m4_identity(), m) == m,
{
    lemma_id_mul_vec_m4(m.x);
    lemma_id_mul_vec_m4(m.y);
    lemma_id_mul_vec_m4(m.z);
    lemma_id_mul_vec_m4(m.w);
}

/// Every entry of a column survives the products by 1 and 0 that a
/// product with an identity column performs.
proof fn lemma_m4_col_id(c: Vector4)
    ensures
        fmul(c.x@, SCALE as int) == c.x@ && fmul(SCALE as int, c.x@) == c.x@,
        fmul(c.y@, SCALE as int) == c.y@ && fmul(SCALE as int, c.y@) == c.y@,
        fmul(c.z@, SCALE as int) == c.z@ && fmul(SCALE as int, c.z@) == c.z@,
        fmul(c.w@, SCALE as int) == c.w@ && fmul(SCALE as int, c.w@) == c.w@,
        fmul(c.x@, 0) == 0 && fmul(0, c.x@) == 0,
        fmul(c.y@, 0) == 0 && fmul(0, c.y@) == 0,
        fmul(c.z@, 0) == 0 && fmul(0, c.z@) == 0,
        fmul(c.w@, 0) == 0 && fmul(0, c.w@) == 0,
{
    lemma_fmul_one(c.x@);
    lemma_fmul_one(c.y@);
    lemma_fmul_one(c.z@);
    lemma_fmul_one(c.w@);
    lemma_fmul_zero(c.x@);
    lemma_fmul_zero(c.y@);
    lemma_fmul_zero(c.z@);
    lemma_fmul_zero(c.w@);
}

} // verus!
