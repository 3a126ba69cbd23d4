//! Rotation builders: elementary rotations about each axis and their
//! composite, `R = Rz(roll) * Ry(pitch) * Rx(yaw)` -- this exact,
//! non-commutative order is part of the design.
//!
//! Orthonormality is proved as a law: whenever the sine/cosine pair
//! satisfies the fixed-point Pythagorean identity exactly, the rotation
//! times its transpose is exactly the identity.

use vstd::prelude::*;

use crate::fx::{fmul, lemma_fmul_bound, lemma_fmul_one, lemma_fmul_unit, lemma_fmul_zero,
    lemma_tdiv_neg, Fx, FX_BOUND, SCALE};
use crate::matrix3::{m3_identity, m3_mul, m3_mul_vec, m3_transpose, v3_raw, Matrix3};
use crate::matrix4::{m4_from_m3, Matrix4};
use crate::trig::{cos_fx, cos_spec, lemma_zero_angle, sin_fx, sin_spec, RAD_PER_DEG_FX};

verus! {

/// An angle, in degrees or radians; rotation builders normalize to
/// radians internally.
#[derive(Clone, Copy, Debug, PartialEq, Eq, Structural)]
pub enum Angle {
    Radians(Fx),
    Degrees(Fx),
}

/// The angle in raw fixed-point radians.
pub open spec fn angle_rad(a: Angle) -> int {
    match a {
        Angle::Radians(r) => r@,
        Angle::Degrees(d) => fmul(d@, RAD_PER_DEG_FX as int),
    }
}

/// Degrees large enough to overflow the conversion are ruled out.
pub open spec fn angle_wf(a: Angle) -> bool {
    match a {
        Angle::Radians(r) => true,
        Angle::Degrees(d) => -FX_BOUND <= d@ <= FX_BOUND,
    }
}

/// Normalize an angle to raw radians.
pub fn to_radians(a: Angle) -> (r: Fx)
    requires
        angle_wf(a),
    ensures
        r@ == angle_rad(a),
{
    match a {
        Angle::Radians(r) => r,
        Angle::Degrees(d) => {
            proof {
                lemma_fmul_bound(d@, RAD_PER_DEG_FX as int);
            }
            d.mul(Fx { raw: RAD_PER_DEG_FX })
        },
    }
}

/// Rotation about the x axis with the given cosine and sine.
pub open spec fn x_rot3_cs(c: int, s: int) -> Matrix3 {
    Matrix3 { x: v3_raw(SCALE as int, 0, 0), y: v3_raw(0, c, s), z: v3_raw(0, -s, c) }
}

/// Rotation about the y axis with the given cosine and sine.
pub open spec fn y_rot3_cs(c: int, s: int) -> Matrix3 {
    Matrix3 { x: v3_raw(c, 0, -s), y: v3_raw(0, SCALE as int, 0), z: v3_raw(s, 0, c) }
}

/// Rotation about the z axis with the given cosine and sine.
pub open spec fn z_rot3_cs(c: int, s: int) -> Matrix3 {
    Matrix3 { x: v3_raw(c, s, 0), y: v3_raw(-s, c, 0), z: v3_raw(0, 0, SCALE as int) }
}

/// The composite rotation: `Rz(roll) * Ry(pitch) * Rx(yaw)`.
pub open spec fn rot3_composite(yaw: int, pitch: int, roll: int) -> Matrix3 {
    m3_mul(
        m3_mul(
            z_rot3_cs(cos_spec(roll), sin_spec(roll)),
            y_rot3_cs(cos_spec(pitch), sin_spec(pitch)),
        ),
        x_rot3_cs(cos_spec(yaw), sin_spec(yaw)),
    )
}

pub struct Rotation3;

impl Rotation3 {
    pub fn x_rotation_matrix(angle: Angle) -> (r: Matrix3)
        requires
            angle_wf(angle),
        ensures
            r == x_rot3_cs(cos_spec(angle_rad(angle)), sin_spec(angle_rad(angle))),
            r.bounded(SCALE as int),
    {
        let rad: Fx = to_radians(angle);
        let c: Fx = cos_fx(rad);
        let s: Fx = sin_fx(rad);
        Matrix3::new(
            Fx::one(),
            Fx::zero(),
            Fx::zero(),
            Fx::zero(),
            c,
            s.neg(),
            Fx::zero(),
            s,
            c,
        )
    }

    pub fn y_rotation_matrix(angle: Angle) -> (r: Matrix3)
        requires
            angle_wf(angle),
        ensures
            r == y_rot3_cs(cos_spec(angle_rad(angle)), sin_spec(angle_rad(angle))),
            r.bounded(SCALE as int),
    {
        let rad: Fx = to_radians(angle);
        let c: Fx = cos_fx(rad);
        let s: Fx = sin_fx(rad);
        Matrix3::new(
            c,
            Fx::zero(),
            s,
            Fx::zero(),
            Fx::one(),
            Fx::zero(),
            s.neg(),
            Fx::zero(),
            c,
        )
    }

    pub fn z_rotation_matrix(angle: Angle) -> (r: Matrix3)
        requires
            angle_wf(angle),
        ensures
            r == z_rot3_cs(cos_spec(angle_rad(angle)), sin_spec(angle_rad(angle))),
            r.bounded(SCALE as int),
    {
        let rad: Fx = to_radians(angle);
        let c: Fx = cos_fx(rad);
        let s: Fx = sin_fx(rad);
        Matrix3::new(
            c,
            s.neg(),
            Fx::zero(),
            s,
            c,
            Fx::zero(),
            Fx::zero(),
            Fx::zero(),
            Fx::one(),
        )
    }

    /// The composite rotation, combining the elementary rotations in
    /// the exact order `Rz(roll) * Ry(pitch) * Rx(yaw)`.
    pub fn rotation_matrix(yaw: Angle, pitch: Angle, roll: Angle) -> (r: Matrix3)
        requires
            angle_wf(yaw),
            angle_wf(pitch),
            angle_wf(roll),
        ensures
            r == rot3_composite(angle_rad(yaw), angle_rad(pitch), angle_rad(roll)),
    {
        let rz: Matrix3 = Self::z_rotation_matrix(roll);
        let ry: Matrix3 = Self::y_rotation_matrix(pitch);
        let rx: Matrix3 = Self::x_rotation_matrix(yaw);
        proof {
            lemma_m3_mul_bounded_unit(rz, ry);
        }
        rz.mul_matrix(&ry).mul_matrix(&rx)
    }
}

pub struct Rotation4;

impl Rotation4 {
    pub fn x_rotation_matrix(angle: Angle) -> (r: Matrix4)
        requires
            angle_wf(angle),
        ensures
            r == m4_from_m3(x_rot3_cs(cos_spec(angle_rad(angle)), sin_spec(angle_rad(angle)))),
    {
        Matrix4::from_matrix3(Rotation3::x_rotation_matrix(angle))
    }

    pub fn y_rotation_matrix(angle: Angle) -> (r: Matrix4)
        requires
            angle_wf(angle),
        ensures
            r == m4_from_m3(y_rot3_cs(cos_spec(angle_rad(angle)), sin_spec(angle_rad(angle)))),
    {
        Matrix4::from_matrix3(Rotation3::y_rotation_matrix(angle))
    }

    pub fn z_rotation_matrix(angle: Angle) -> (r: Matrix4)
        requires
            angle_wf(angle),
        ensures
            r == m4_from_m3(z_rot3_cs(cos_spec(angle_rad(angle)), sin_spec(angle_rad(angle)))),
    {
        Matrix4::from_matrix3(Rotation3::z_rotation_matrix(angle))
    }

    /// The composite rotation widened to homogeneous coordinates.
    pub fn rotation_matrix(yaw: Angle, pitch: Angle, roll: Angle) -> (r: Matrix4)
        requires
            angle_wf(yaw),
            angle_wf(pitch),
            angle_wf(roll),
        ensures
            r == m4_from_m3(rot3_composite(angle_rad(yaw), angle_rad(pitch), angle_rad(roll))),
    {
        Matrix4::from_matrix3(Rotation3::rotation_matrix(yaw, pitch, roll))
    }
}

/// The product of two matrices with entries within the unit interval
/// has entries within three units: safe for further multiplication.
pub proof fn lemma_m3_mul_bounded_unit(a: Matrix3, b: Matrix3)
    requires
        a.bounded(SCALE as int),
        b.bounded(SCALE as int),
    ensures
        m3_mul(a, b).bounded(3 * SCALE),
{
    lemma_col_bounded(a, b.x);
    lemma_col_bounded(a, b.y);
    lemma_col_bounded(a, b.z);
}

/// One column of such a product stays within three units.
proof fn lemma_col_bounded(a: Matrix3, v: crate::vector3::Vector3)
    requires
        a.bounded(SCALE as int),
        v.bounded(SCALE as int),
    ensures
        m3_mul_vec(a, v).bounded(3 * SCALE),
{
    lemma_fmul_unit(a.x.x@, v.x@);
    lemma_fmul_unit(a.x.y@, v.x@);
    lemma_fmul_unit(a.x.z@, v.x@);
    lemma_fmul_unit(a.y.x@, v.y@);
    lemma_fmul_unit(a.y.y@, v.y@);
    lemma_fmul_unit(a.y.z@, v.y@);
    lemma_fmul_unit(a.z.x@, v.z@);
    lemma_fmul_unit(a.z.y@, v.z@);
    lemma_fmul_unit(a.z.z@, v.z@);
}

/// The fixed-point facts every orthonormality entry computation needs:
/// products by 1 and 0, commuted and negated products.
proof fn lemma_cs_facts(c: int, s: int)
    ensures
        fmul(SCALE as int, SCALE as int) == SCALE,
        fmul(0, 0) == 0,
        fmul(c, 0) == 0 && fmul(0, c) == 0,
        fmul(s, 0) == 0 && fmul(0, s) == 0,
        fmul(-s, 0) == 0 && fmul(0, -s) == 0,
        fmul(c, SCALE as int) == c && fmul(SCALE as int, c) == c,
        fmul(s, SCALE as int) == s && fmul(SCALE as int, s) == s,
        fmul(-s, -s) == fmul(s, s),
        fmul(s, c) == fmul(c, s),
        fmul(c, -s) == -fmul(c, s),
        fmul(-s, c) == -fmul(c, s),
{
    lemma_fmul_one(SCALE as int);
    lemma_fmul_one(c);
    lemma_fmul_one(s);
    lemma_fmul_zero(c);
    lemma_fmul_zero(s);
    lemma_fmul_zero(-s);
    lemma_fmul_zero(0);
    assert((-s) * (-s) == s * s) by (nonlinear_arith);
    assert(s * c == c * s) by (nonlinear_arith);
    assert(c * (-s) == -(c * s)) by (nonlinear_arith);
    assert((-s) * c == -(c * s)) by (nonlinear_arith);
    lemma_tdiv_neg(c * s, SCALE as int);
}

/// Orthonormality of the x-axis rotation: whenever the cosine/sine
/// pair satisfies the fixed-point Pythagorean identity exactly, the
/// rotation times its transpose is exactly the identity.
pub proof fn lemma_x_rotation_orthonormal(c: int, s: int)
    requires
        -SCALE <= c <= SCALE,
        -SCALE <= s <= SCALE,
        fmul(c, c) + fmul(s, s) == SCALE,
    ensures
        m3_mul(x_rot3_cs(c, s), m3_transpose(x_rot3_cs(c, s))) == m3_identity(),
{
    lemma_cs_facts(c, s);
    let r = x_rot3_cs(c, s);
    let t = m3_transpose(r);
    assert(r.x.x@ == SCALE && r.y.y@ == c && r.y.z@ == s && r.z.y@ == -s && r.z.z@ == c);
    assert(r.x.y@ == 0 && r.x.z@ == 0 && r.y.x@ == 0 && r.z.x@ == 0);
    assert(m3_mul_vec(r, t.x) == m3_identity().x);
    assert(m3_mul_vec(r, t.y) == m3_identity().y);
    assert(m3_mul_vec(r, t.z) == m3_identity().z);
}

/// Orthonormality of the y-axis rotation.
pub proof fn lemma_y_rotation_orthonormal(c: int, s: int)
    requires
        -SCALE <= c <= SCALE,
        -SCALE <= s <= SCALE,
        fmul(c, c) + fmul(s, s) == SCALE,
    ensures
        m3_mul(y_rot3_cs(c, s), m3_transpose(y_rot3_cs(c, s))) == m3_identity(),
{
    lemma_cs_facts(c, s);
    let r = y_rot3_cs(c, s);
    let t = m3_transpose(r);
    assert(r.x.x@ == c && r.x.z@ == -s && r.z.x@ == s && r.z.z@ == c && r.y.y@ == SCALE);
    assert(r.x.y@ == 0 && r.y.x@ == 0 && r.y.z@ == 0 && r.z.y@ == 0);
    assert(m3_mul_vec(r, t.x) == m3_identity().x);
    assert(m3_mul_vec(r, t.y) == m3_identity().y);
    assert(m3_mul_vec(r, t.z) == m3_identity().z);
}

/// Orthonormality of the z-axis rotation.
pub proof fn lemma_z_rotation_orthonormal(c: int, s: int)
    requires
        -SCALE <= c <= SCALE,
        -SCALE <= s <= SCALE,
        fmul(c, c) + fmul(s, s) == SCALE,
    ensures
        m3_mul(z_rot3_cs(c, s), m3_transpose(z_rot3_cs(c, s))) == m3_identity(),
{
    lemma_cs_facts(c, s);
    let r = z_rot3_cs(c, s);
    let t = m3_transpose(r);
    assert(r.x.x@ == c && r.x.y@ == s && r.y.x@ == -s && r.y.y@ == c && r.z.z@ == SCALE);
    assert(r.x.z@ == 0 && r.y.z@ == 0 && r.z.x@ == 0 && r.z.y@ == 0);
    assert(m3_mul_vec(r, t.x) == m3_identity().x);
    assert(m3_mul_vec(r, t.y) == m3_identity().y);
    assert(m3_mul_vec(r, t.z) == m3_identity().z);
}

/// Composition order matters, but a yaw-only composite collapses to
/// the single-axis rotation exactly: with pitch and roll zero, the
/// pitch and roll factors are exactly the identity.
pub proof fn lemma_yaw_only_rotation(yaw: int)
    ensures
        rot3_composite(yaw, 0, 0) == x_rot3_cs(cos_spec(yaw), sin_spec(yaw)),
{
    lemma_zero_angle();
    assert(z_rot3_cs(cos_spec(0), sin_spec(0)) == m3_identity());
    assert(y_rot3_cs(cos_spec(0), sin_spec(0)) == m3_identity());
    crate::matrix3::lemma_mul_identity_left(m3_identity());
    crate::matrix3::lemma_mul_identity_left(x_rot3_cs(cos_spec(yaw), sin_spec(yaw)));
}

} // verus!
