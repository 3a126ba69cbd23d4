//! An object's placement, and the matrices derived from it: the model
//! matrix `Translation * Rotation * Scale` and the camera's view
//! matrix `transpose(rotation) * Translation(-position)` (valid
//! because rotation matrices are orthonormal: transpose is inverse).

use vstd::prelude::*;

use crate::fx::{Fx, FX_BOUND, SCALE};
use crate::matrix4::{lemma_m4_mul_bounded, m4_from_m3, m4_mul, m4_scaling, m4_translation,
    m4_transpose, Matrix4};
use crate::rotation::{angle_rad, angle_wf, rot3_composite, Angle, Rotation4};
use crate::vector3::{v3_neg, Vector3};

verus! {

/// Positions and scale factors the transform builders accept (2^30 raw
/// units, about 16 thousand whole units): products through the matrix
/// pipeline then stay within `FX_BOUND`.
pub const POSE_BOUND: i64 = 0x4000_0000;

/// One object's placement: orientation, position and uniform scale.
#[derive(Clone, Copy, Debug, PartialEq, Eq, Structural)]
pub struct Transform {
    pub yaw: Angle,
    pub pitch: Angle,
    pub roll: Angle,
    pub position: Vector3,
    pub scale: Fx,
}

/// The matrices composed by `model_matrix`, in the exact order
/// `Translation * Rotation * Scale`.
pub open spec fn model_matrix_spec(t: Transform) -> Matrix4 {
    m4_mul(
        m4_mul(
            m4_translation(t.position),
            m4_from_m3(rot3_composite(angle_rad(t.yaw), angle_rad(t.pitch), angle_rad(t.roll))),
        ),
        m4_scaling(t.scale@),
    )
}

pub open spec fn transform_wf(t: Transform) -> bool {
    &&& angle_wf(t.yaw)
    &&& angle_wf(t.pitch)
    &&& angle_wf(t.roll)
    &&& t.position.bounded(POSE_BOUND as int)
    &&& -POSE_BOUND <= t.scale@ <= POSE_BOUND
}

/// The matrix composed by `view_matrix`.
pub open spec fn view_matrix_spec(rotation: Matrix4, position: Vector3) -> Matrix4 {
    m4_mul(m4_transpose(rotation), m4_translation(v3_neg(position)))
}

impl Transform {
    /// The object-to-world matrix: `Translation * Rotation * Scale`.
    pub fn model_matrix(&self) -> (r: Matrix4)
        requires
            transform_wf(*self),
        ensures
            r == model_matrix_spec(*self),
    {
        let tr: Matrix4 = Matrix4::translation(self.position);
        let rot: Matrix4 = Rotation4::rotation_matrix(self.yaw, self.pitch, self.roll);
        let sc: Matrix4 = Matrix4::scaling(self.scale);
        proof {
            lemma_composite_bounded(
                angle_rad(self.yaw),
                angle_rad(self.pitch),
                angle_rad(self.roll),
            );
            lemma_m4_mul_bounded(tr, rot, POSE_BOUND as int, 9 * SCALE);
        }
        tr.mul_matrix(&rot).mul_matrix(&sc)
    }
}

impl Transform {
    /// The matrix that carries surface normals to world space.  For a
    /// model matrix with uniform scale, the inverse-transpose of the
    /// upper block is the rotation itself up to a positive factor,
    /// and that factor cancels when the normal is normalized.
    pub fn normal_matrix(&self) -> (r: crate::matrix3::Matrix3)
        requires
            transform_wf(*self),
        ensures
            r == rot3_composite(angle_rad(self.yaw), angle_rad(self.pitch), angle_rad(self.roll)),
    {
        crate::rotation::Rotation3::rotation_matrix(self.yaw, self.pitch, self.roll)
    }
}

/// The camera's world-to-view matrix: the inverse of its world
/// transform, computed as `transpose(rotation) * Translation(-position)`.
/// This is valid only for orthonormal (pure-rotation) matrices, whose
/// transpose is their inverse.
pub fn view_matrix(rotation: &Matrix4, position: Vector3) -> (r: Matrix4)
    requires
        rotation.bounded(FX_BOUND as int),
        position.bounded(FX_BOUND as int),
    ensures
        r == view_matrix_spec(*rotation, position),
{
    let np: Vector3 = position.neg();
    let tr: Matrix4 = Matrix4::translation(np);
    rotation.transpose().mul_matrix(&tr)
}

/// The composite rotation's entries stay within nine units.
pub proof fn lemma_composite_bounded(yaw: int, pitch: int, roll: int)
    ensures
        rot3_composite(yaw, pitch, roll).bounded(9 * SCALE),
{
    let rz = crate::rotation::z_rot3_cs(crate::trig::cos_spec(roll), crate::trig::sin_spec(roll));
    let ry = crate::rotation::y_rot3_cs(
        crate::trig::cos_spec(pitch),
        crate::trig::sin_spec(pitch),
    );
    let rx = crate::rotation::x_rot3_cs(crate::trig::cos_spec(yaw), crate::trig::sin_spec(yaw));
    assert(rz.bounded(SCALE as int));
    assert(ry.bounded(SCALE as int));
    assert(rx.bounded(SCALE as int));
    crate::matrix3::lemma_m3_mul_bounded(rz, ry, SCALE as int, SCALE as int);
    crate::matrix3::lemma_m3_mul_bounded(
        crate::matrix3::m3_mul(rz, ry),
        rx,
        3 * SCALE,
        SCALE as int,
    );
}

} // verus!
