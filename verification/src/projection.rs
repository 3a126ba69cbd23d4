//! Projection matrices: perspective (field of view, near/far planes,
//! aspect ratio) and orthographic (box to normalized coordinates).
//!
//! Both map the depth range onto `[0, 1]`: a projected point's z is 0
//! at the near plane and 1 at the far plane, the convention the
//! rasterizer's whole-triangle reject step assumes.

use vstd::prelude::*;

use crate::fx::{fdiv, fmul, lemma_tdiv_mag, tdiv, Fx, FX_BOUND, SCALE};
use crate::matrix4::{v4_raw, Matrix4};
use crate::rotation::{angle_rad, angle_wf, to_radians, Angle};
use crate::trig::{cos_fx, cos_spec, sin_fx, sin_spec};

verus! {

/// Half of an angle in raw radians.
pub open spec fn half_rad(a: Angle) -> int {
    tdiv(angle_rad(a), 2)
}

/// The perspective matrix built from a field-of-view angle, aspect
/// ratio and near/far planes, with `f = cos(fov/2) / sin(fov/2)` the
/// focal factor: maps view space to clip space so that after the
/// homogeneous divide x/y lie in [-1, 1] and z in [0, 1].
pub open spec fn perspective_spec(fov: Angle, aspect: int, near: int, far: int) -> Matrix4 {
    let f = fdiv(cos_spec(half_rad(fov)), sin_spec(half_rad(fov)));
    Matrix4 {
        x: v4_raw(fdiv(f, aspect), 0, 0, 0),
        y: v4_raw(0, f, 0, 0),
        z: v4_raw(0, 0, fdiv(far, far - near), SCALE as int),
        w: v4_raw(0, 0, -fdiv(fmul(near, far), far - near), 0),
    }
}

/// Whether the perspective parameters admit a matrix: the half-angle's
/// sine must not vanish, the aspect ratio must not be zero, and the
/// near and far planes must be distinct.
pub open spec fn perspective_ok(fov: Angle, aspect: int, near: int, far: int) -> bool {
    &&& sin_spec(half_rad(fov)) != 0
    &&& aspect != 0
    &&& far != near
}

/// Build the perspective matrix; `None` exactly when the parameters
/// admit none.
pub fn perspective_matrix(fov: Angle, aspect: Fx, near: Fx, far: Fx) -> (r: Option<Matrix4>)
    requires
        angle_wf(fov),
        aspect@ != i64::MIN,
        -(crate::transform::POSE_BOUND as int) <= near@ <= crate::transform::POSE_BOUND as int,
        -(crate::transform::POSE_BOUND as int) <= far@ <= crate::transform::POSE_BOUND as int,
    ensures
        r is Some <==> perspective_ok(fov, aspect@, near@, far@),
        r matches Some(m) ==> m == perspective_spec(fov, aspect@, near@, far@),
{
    let rad: Fx = to_radians(fov);
    let hq: i128 = crate::fx::tdiv_i128(rad.raw as i128, 2);
    proof {
        lemma_tdiv_mag(rad@, 2);
    }
    let half: Fx = Fx { raw: hq as i64 };
    let s: Fx = sin_fx(half);
    let c: Fx = cos_fx(half);
    if s.raw == 0 {
        return None;
    }
    if aspect.raw == 0 {
        return None;
    }
    if far.raw == near.raw {
        return None;
    }
    proof {
        lemma_tdiv_mag(c@ * SCALE, s@);
        lemma_tdiv_mag(fdiv(c@, s@) * SCALE, aspect@);
        lemma_tdiv_mag(far@ * SCALE, far@ - near@);
        crate::fx::lemma_fmul_bounds(
            near@,
            far@,
            crate::transform::POSE_BOUND as int,
            crate::transform::POSE_BOUND as int,
        );
        lemma_tdiv_mag(fmul(near@, far@) * SCALE, far@ - near@);
    }
    let f: Fx = c.div(s);
    let fa: Fx = f.div(aspect);
    let d: Fx = far.sub(near);
    let za: Fx = far.div(d);
    let zb: Fx = near.mul(far).div(d).neg();
    Some(
        Matrix4::new(
            fa,
            Fx::zero(),
            Fx::zero(),
            Fx::zero(),
            Fx::zero(),
            f,
            Fx::zero(),
            Fx::zero(),
            Fx::zero(),
            Fx::zero(),
            za,
            zb,
            Fx::zero(),
            Fx::zero(),
            Fx::one(),
            Fx::zero(),
        ),
    )
}

/// The orthographic matrix for the box `[left, right] x [bottom, top]
/// x [near, far]`, mapped to x/y in [-1, 1] and z in [0, 1].
pub open spec fn orthographic_spec(
    left: int,
    right: int,
    bottom: int,
    top: int,
    near: int,
    far: int,
) -> Matrix4 {
    Matrix4 {
        x: v4_raw(fdiv(2 * SCALE, right - left), 0, 0, 0),
        y: v4_raw(0, fdiv(2 * SCALE, top - bottom), 0, 0),
        z: v4_raw(0, 0, fdiv(SCALE as int, far - near), 0),
        w: v4_raw(
            -fdiv(right + left, right - left),
            -fdiv(top + bottom, top - bottom),
            -fdiv(near, far - near),
            SCALE as int,
        ),
    }
}

/// Whether the orthographic box is non-degenerate on every axis.
pub open spec fn orthographic_ok(
    left: int,
    right: int,
    bottom: int,
    top: int,
    near: int,
    far: int,
) -> bool {
    right != left && top != bottom && far != near
}

/// Build the orthographic matrix; `None` exactly when the box is
/// degenerate on some axis.
pub fn orthographic_matrix(left: Fx, right: Fx, bottom: Fx, top: Fx, near: Fx, far: Fx) -> (r:
    Option<Matrix4>)
    requires
        -FX_BOUND <= left@ <= FX_BOUND,
        -FX_BOUND <= right@ <= FX_BOUND,
        -FX_BOUND <= bottom@ <= FX_BOUND,
        -FX_BOUND <= top@ <= FX_BOUND,
        -FX_BOUND <= near@ <= FX_BOUND,
        -FX_BOUND <= far@ <= FX_BOUND,
    ensures
        r is Some <==> orthographic_ok(left@, right@, bottom@, top@, near@, far@),
        r matches Some(m) ==> m == orthographic_spec(left@, right@, bottom@, top@, near@, far@),
{
    if right.raw == left.raw || top.raw == bottom.raw || far.raw == near.raw {
        return None;
    }
    let rl: Fx = right.sub(left);
    let tb: Fx = top.sub(bottom);
    let fne: Fx = far.sub(near);
    let two: Fx = Fx { raw: 2 * SCALE };
    proof {
        lemma_tdiv_mag(two@ * SCALE, rl@);
        lemma_tdiv_mag(two@ * SCALE, tb@);
        lemma_tdiv_mag(SCALE as int * SCALE, fne@);
        lemma_tdiv_mag((right@ + left@) * SCALE, rl@);
        lemma_tdiv_mag((top@ + bottom@) * SCALE, tb@);
        lemma_tdiv_mag(near@ * SCALE, fne@);
    }
    let sx: Fx = two.div(rl);
    let sy: Fx = two.div(tb);
    let sz: Fx = Fx::one().div(fne);
    let tx: Fx = right.add(left).div(rl).neg();
    let ty: Fx = top.add(bottom).div(tb).neg();
    let tz: Fx = near.div(fne).neg();
    Some(
        Matrix4::new(
            sx,
            Fx::zero(),
            Fx::zero(),
            tx,
            Fx::zero(),
            sy,
            Fx::zero(),
            ty,
            Fx::zero(),
            Fx::zero(),
            sz,
            tz,
            Fx::zero(),
            Fx::zero(),
            Fx::zero(),
            Fx::one(),
        ),
    )
}

} // verus!
