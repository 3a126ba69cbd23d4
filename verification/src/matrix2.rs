//! 2x2 matrices stored as two column vectors.

use vstd::prelude::*;

use crate::fx::{fdiv, fmul, fx_raw, lemma_fmul_bound, lemma_fmul_one, lemma_fmul_zero,
    lemma_tdiv_mag, Fx, FX_BOUND, SCALE};
use crate::vector2::Vector2;

verus! {

#[derive(Clone, Copy, Debug, PartialEq, Eq, Structural)]
pub struct Matrix2 {
    pub x: Vector2,
    pub y: Vector2,
}

/// Spec-level vector constructor from raw values.
pub open spec fn v2_raw(x: int, y: int) -> Vector2 {
    Vector2 { x: fx_raw(x), y: fx_raw(y) }
}

/// The identity matrix.
pub open spec fn m2_identity() -> Matrix2 {
    Matrix2 { x: v2_raw(SCALE as int, 0), y: v2_raw(0, SCALE as int) }
}

/// Columns become rows and rows become columns.
pub open spec fn m2_transpose(m: Matrix2) -> Matrix2 {
    Matrix2 {
        x: Vector2 { x: m.x.x, y: m.y.x },
        y: Vector2 { x: m.x.y, y: m.y.y },
    }
}

/// Matrix times vector: the linear combination of the columns weighted
/// by the vector's components.
pub open spec fn m2_mul_vec(m: Matrix2, v: Vector2) -> Vector2 {
    v2_raw(
        fmul(m.x.x@, v.x@) + fmul(m.y.x@, v.y@),
        fmul(m.x.y@, v.x@) + fmul(m.y.y@, v.y@),
    )
}

/// Matrix times matrix, column by column.
pub open spec fn m2_mul(a: Matrix2, b: Matrix2) -> Matrix2 {
    Matrix2 { x: m2_mul_vec(a, b.x), y: m2_mul_vec(a, b.y) }
}

impl Matrix2 {
    /// All entries within `[-b, b]` (raw units).
    pub open spec fn bounded(self, b: int) -> bool {
        &&& self.x.bounded(b)
        &&& self.y.bounded(b)
    }

    /// Build from four entries given row-major, as they read on paper.
    pub fn new(m00: Fx, m01: Fx, m10: Fx, m11: Fx) -> (r: Matrix2)
        ensures
            r.x.x == m00 && r.x.y == m10,
            r.y.x == m01 && r.y.y == m11,
    {
        Matrix2 { x: Vector2 { x: m00, y: m10 }, y: Vector2 { x: m01, y: m11 } }
    }

    pub fn from_cols(x: Vector2, y: Vector2) -> (r: Matrix2)
        ensures
            r.x == x,
            r.y == y,
    {
        Matrix2 { x, y }
    }

    pub fn identity() -> (r: Matrix2)
        ensures
            r == m2_identity(),
    {
        Matrix2 {
            x: Vector2 { x: Fx { raw: SCALE }, y: Fx { raw: 0 } },
            y: Vector2 { x: Fx { raw: 0 }, y: Fx { raw: SCALE } },
        }
    }

    /// Row by position (rows cut across the stored columns).
    pub fn row(&self, index: usize) -> (r: Vector2)
        requires
            index < 2,
        ensures
            r == (if index == 0 {
                m2_transpose(*self).x
            } else {
                m2_transpose(*self).y
            }),
    {
        if index == 0 {
            Vector2 { x: self.x.x, y: self.y.x }
        } else {
            Vector2 { x: self.x.y, y: self.y.y }
        }
    }

    /// Column by position.
    pub fn col(&self, index: usize) -> (r: Vector2)
        requires
            index < 2,
        ensures
            r == (if index == 0 {
                self.x
            } else {
                self.y
            }),
    {
        if index == 0 {
            self.x
        } else {
            self.y
        }
    }

    /// Column by position, the indexing the original exposes.
    pub fn index(&self, index: usize) -> (r: Vector2)
        requires
            index < 2,
        ensures
            r == (if index == 0 {
                self.x
            } else {
                self.y
            }),
    {
        self.col(index)
    }

    pub fn transpose(&self) -> (r: Matrix2)
        ensures
            r == m2_transpose(*self),
    {
        Matrix2 {
            x: Vector2 { x: self.x.x, y: self.y.x },
            y: Vector2 { x: self.x.y, y: self.y.y },
        }
    }

    /// Matrix-vector product.
    pub fn mul_vector(&self, v: Vector2) -> (r: Vector2)
        requires
            self.bounded(FX_BOUND as int),
            v.bounded(FX_BOUND as int),
        ensures
            r == m2_mul_vec(*self, v),
    {
        proof {
            lemma_fmul_bound(self.x.x@, v.x@);
            lemma_fmul_bound(self.x.y@, v.x@);
            lemma_fmul_bound(self.y.x@, v.y@);
            lemma_fmul_bound(self.y.y@, v.y@);
        }
        self.x.scale(v.x).add(self.y.scale(v.y))
    }

    /// Matrix-matrix product, column by column.
    pub fn mul_matrix(&self, o: &Matrix2) -> (r: Matrix2)
        requires
            self.bounded(FX_BOUND as int),
            o.bounded(FX_BOUND as int),
        ensures
            r == m2_mul(*self, *o),
    {
        Matrix2 { x: self.mul_vector(o.x), y: self.mul_vector(o.y) }
    }

    /// Multiply every entry by a scalar.
    pub fn scalar_mul(&self, s: Fx) -> (r: Matrix2)
        requires
            self.bounded(FX_BOUND as int),
            -FX_BOUND <= s@ <= FX_BOUND,
        ensures
            r.x.x@ == fmul(self.x.x@, s@) && r.x.y@ == fmul(self.x.y@, s@),
            r.y.x@ == fmul(self.y.x@, s@) && r.y.y@ == fmul(self.y.y@, s@),
    {
        Matrix2 { x: self.x.scale(s), y: self.y.scale(s) }
    }

    /// Divide every entry by a scalar.
    pub fn scalar_div(&self, s: Fx) -> (r: Matrix2)
        requires
            self.bounded(FX_BOUND as int),
            s@ != 0,
        ensures
            r.x.x@ == fdiv(self.x.x@, s@) && r.x.y@ == fdiv(self.x.y@, s@),
            r.y.x@ == fdiv(self.y.x@, s@) && r.y.y@ == fdiv(self.y.y@, s@),
    {
        proof {
            lemma_tdiv_mag(self.x.x@ * SCALE, s@);
            lemma_tdiv_mag(self.x.y@ * SCALE, s@);
            lemma_tdiv_mag(self.y.x@ * SCALE, s@);
            lemma_tdiv_mag(self.y.y@ * SCALE, s@);
        }
        Matrix2 {
            x: Vector2 { x: self.x.x.div(s), y: self.x.y.div(s) },
            y: Vector2 { x: self.y.x.div(s), y: self.y.y.div(s) },
        }
    }

    /// Divide a scalar by every entry (the reciprocal-style scalar
    /// division the original operators expose): every entry must be
    /// non-zero.
    pub fn scalar_rdiv(&self, s: Fx) -> (r: Matrix2)
        requires
            -FX_BOUND <= s@ <= FX_BOUND,
            self.x.x@ != 0 && self.x.y@ != 0 && self.y.x@ != 0 && self.y.y@ != 0,
        ensures
            r.x.x@ == fdiv(s@, self.x.x@) && r.x.y@ == fdiv(s@, self.x.y@),
            r.y.x@ == fdiv(s@, self.y.x@) && r.y.y@ == fdiv(s@, self.y.y@),
    {
        proof {
            lemma_tdiv_mag(s@ * SCALE, self.x.x@);
            lemma_tdiv_mag(s@ * SCALE, self.x.y@);
            lemma_tdiv_mag(s@ * SCALE, self.y.x@);
            lemma_tdiv_mag(s@ * SCALE, self.y.y@);
        }
        Matrix2 {
            x: Vector2 { x: s.div(self.x.x), y: s.div(self.x.y) },
            y: Vector2 { x: s.div(self.y.x), y: s.div(self.y.y) },
        }
    }

    /// Add a scalar to every entry.
    pub fn scalar_add(&self, s: Fx) -> (r: Matrix2)
        requires
            self.bounded(FX_BOUND as int),
            -FX_BOUND <= s@ <= FX_BOUND,
        ensures
            r.x.x@ == self.x.x@ + s@ && r.x.y@ == self.x.y@ + s@,
            r.y.x@ == self.y.x@ + s@ && r.y.y@ == self.y.y@ + s@,
    {
        Matrix2 { x: self.x.scalar_add(s), y: self.y.scalar_add(s) }
    }

    /// Subtract a scalar from every entry.
    pub fn scalar_sub(&self, s: Fx) -> (r: Matrix2)
        requires
            self.bounded(FX_BOUND as int),
            -FX_BOUND <= s@ <= FX_BOUND,
        ensures
            r.x.x@ == self.x.x@ - s@ && r.x.y@ == self.x.y@ - s@,
            r.y.x@ == self.y.x@ - s@ && r.y.y@ == self.y.y@ - s@,
    {
        Matrix2 { x: self.x.scalar_sub(s), y: self.y.scalar_sub(s) }
    }

    /// Entrywise sum.
    pub fn add(&self, o: &Matrix2) -> (r: Matrix2)
        requires
            self.bounded(FX_BOUND as int),
            o.bounded(FX_BOUND as int),
        ensures
            r.x.x@ == self.x.x@ + o.x.x@ && r.x.y@ == self.x.y@ + o.x.y@,
            r.y.x@ == self.y.x@ + o.y.x@ && r.y.y@ == self.y.y@ + o.y.y@,
    {
        Matrix2 { x: self.x.add(o.x), y: self.y.add(o.y) }
    }

    /// Entrywise difference.
    pub fn sub(&self, o: &Matrix2) -> (r: Matrix2)
        requires
            self.bounded(FX_BOUND as int),
            o.bounded(FX_BOUND as int),
        ensures
            r.x.x@ == self.x.x@ - o.x.x@ && r.x.y@ == self.x.y@ - o.x.y@,
            r.y.x@ == self.y.x@ - o.y.x@ && r.y.y@ == self.y.y@ - o.y.y@,
    {
        Matrix2 { x: self.x.sub(o.x), y: self.y.sub(o.y) }
    }

    /// Entrywise negation.
    pub fn neg(&self) -> (r: Matrix2)
        requires
            self.bounded(FX_BOUND as int),
        ensures
            r.x.x@ == -self.x.x@ && r.x.y@ == -self.x.y@,
            r.y.x@ == -self.y.x@ && r.y.y@ == -self.y.y@,
    {
        Matrix2 { x: self.x.neg(), y: self.y.neg() }
    }
}

/// Transposing twice gives back the original matrix, for every matrix.
pub proof fn lemma_transpose_involution_m2(m: Matrix2)
    ensures
        m2_transpose(m2_transpose(m)) == m,
{
}

/// Multiplying by the identity on the right changes nothing, for every
/// matrix.
pub proof fn lemma_mul_identity_right_m2(m: Matrix2)
    ensures
        m2_mul(m, m2_identity()) == m,
{
    lemma_fmul_one(m.x.x@);
    lemma_fmul_one(m.x.y@);
    lemma_fmul_one(m.y.x@);
    lemma_fmul_one(m.y.y@);
    lemma_fmul_zero(m.x.x@);
    lemma_fmul_zero(m.x.y@);
    lemma_fmul_zero(m.y.x@);
    lemma_fmul_zero(m.y.y@);
}

/// Multiplying by the identity on the left changes nothing either.
pub proof fn lemma_mul_identity_left_m2(m: Matrix2)
    ensures
        m2_mul(m2_identity(), m) == m,
{
    lemma_fmul_one(m.x.x@);
    lemma_fmul_one(m.x.y@);
    lemma_fmul_one(m.y.x@);
    lemma_fmul_one(m.y.y@);
    lemma_fmul_zero(m.x.x@);
    lemma_fmul_zero(m.x.y@);
    lemma_fmul_zero(m.y.x@);
    lemma_fmul_zero(m.y.y@);
}

} // verus!
