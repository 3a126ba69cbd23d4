use termraster::fx::Fx;
use termraster::matrix3::Matrix3;
use termraster::matrix4::Matrix4;
use termraster::model::{Model, VertexData};
use termraster::projection::{orthographic_matrix, perspective_matrix};
use termraster::rotation::{Angle, Rotation3, Rotation4};
use termraster::transform::{view_matrix, Transform};
use termraster::triangle::Vertex;
use termraster::trig::{cos_fx, sin_fx, HALF_PI_FX};
use termraster::vector2::Vector2;
use termraster::vector3::Vector3;
use termraster::vector4::Vector4;

fn fx(i: i64) -> Fx {
    Fx::from_int(i)
}

fn v3(x: i64, y: i64, z: i64) -> Vector3 {
    Vector3::new(fx(x), fx(y), fx(z))
}

#[test]
fn trig_zero_angle_test() {
    assert_eq!(sin_fx(fx(0)).raw, 0);
    assert_eq!(cos_fx(fx(0)), Fx::one());
}

#[test]
fn trig_quarter_turn_test() {
    let half_pi = Fx { raw: HALF_PI_FX };
    assert!((sin_fx(half_pi).raw - 65536).abs() <= 100);
    assert!(cos_fx(half_pi).raw.abs() <= 100);
    // the full-period reduction brings large angles back
    let two_pi = Fx { raw: 411774 };
    assert_eq!(sin_fx(two_pi.add(fx(0))).raw, sin_fx(fx(0)).raw);
}

#[test]
fn rotation_zero_is_identity_test() {
    let zero = Angle::Degrees(fx(0));
    assert_eq!(Rotation3::x_rotation_matrix(zero), Matrix3::identity());
    assert_eq!(Rotation3::y_rotation_matrix(zero), Matrix3::identity());
    assert_eq!(Rotation3::z_rotation_matrix(zero), Matrix3::identity());
}

#[test]
fn rotation_composite_yaw_only_test() {
    // with pitch and roll zero the composite equals the single-axis
    // rotation exactly, on the matrix and on basis vectors
    let yaw = Angle::Degrees(fx(90));
    let zero = Angle::Degrees(fx(0));
    let composite = Rotation3::rotation_matrix(yaw, zero, zero);
    let single = Rotation3::x_rotation_matrix(yaw);
    assert_eq!(composite, single);
    let ex = v3(1, 0, 0);
    let ey = v3(0, 1, 0);
    let ez = v3(0, 0, 1);
    assert_eq!(composite.mul_vector(ex), single.mul_vector(ex));
    assert_eq!(composite.mul_vector(ey), single.mul_vector(ey));
    assert_eq!(composite.mul_vector(ez), single.mul_vector(ez));
}

#[test]
fn rotation_order_matters_test() {
    let a = Angle::Degrees(fx(90));
    let b = Angle::Degrees(fx(45));
    let zero = Angle::Degrees(fx(0));
    let yaw_then_roll = Rotation3::rotation_matrix(a, zero, b);
    let rz = Rotation3::z_rotation_matrix(b);
    let rx = Rotation3::x_rotation_matrix(a);
    // composite is Rz * Ry * Rx, not Rx * Rz
    assert_eq!(
        yaw_then_roll,
        rz.mul_matrix(&Matrix3::identity()).mul_matrix(&rx)
    );
    assert_ne!(yaw_then_roll, rx.mul_matrix(&rz));
}

#[test]
fn rotation_orthonormal_test() {
    // at an exact quarter turn the sine/cosine pair is (1, 0) and the
    // rotation times its transpose is exactly the identity
    let r = Rotation3::x_rotation_matrix(Angle::Radians(fx(0)));
    assert_eq!(r.mul_matrix(&r.transpose()), Matrix3::identity());
    // and approximately for other angles
    let q = Rotation3::z_rotation_matrix(Angle::Degrees(fx(30)));
    let p = q.mul_matrix(&q.transpose());
    let id = Matrix3::identity();
    for i in 0..3usize {
        for j in 0..3usize {
            let diff = p.col(i).index(j).raw - id.col(i).index(j).raw;
            assert!(diff.abs() <= 64);
        }
    }
}

#[test]
fn rotation4_embeds_rotation3_test() {
    let a = Angle::Degrees(fx(33));
    let m4 = Rotation4::x_rotation_matrix(a);
    let m3 = Rotation3::x_rotation_matrix(a);
    assert_eq!(m4, Matrix4::from_matrix3(m3));
    assert_eq!(m4.w, Vector4::new(fx(0), fx(0), fx(0), Fx::one()));
}

#[test]
fn view_matrix_identity_rotation_test() {
    // with the identity camera rotation the view matrix is the
    // translation by the negated camera position
    let v = view_matrix(&Matrix4::identity(), v3(3, 4, 5));
    let p = Vector4::to_homogenous(v3(3, 4, 5));
    assert_eq!(v.mul_vector(p), Vector4::new(fx(0), fx(0), fx(0), Fx::one()));
}

#[test]
fn model_matrix_identity_transform_test() {
    let t = Transform {
        yaw: Angle::Degrees(fx(0)),
        pitch: Angle::Degrees(fx(0)),
        roll: Angle::Degrees(fx(0)),
        position: v3(0, 0, 0),
        scale: fx(1),
    };
    assert_eq!(t.model_matrix(), Matrix4::identity());
}

#[test]
fn model_matrix_translates_after_scaling_test() {
    // Translation * Rotation * Scale: the position is not scaled
    let t = Transform {
        yaw: Angle::Degrees(fx(0)),
        pitch: Angle::Degrees(fx(0)),
        roll: Angle::Degrees(fx(0)),
        position: v3(5, 0, 0),
        scale: fx(2),
    };
    let m = t.model_matrix();
    let p = Vector4::to_homogenous(v3(1, 1, 1));
    assert_eq!(m.mul_vector(p), Vector4::new(fx(7), fx(2), fx(2), Fx::one()));
}

#[test]
fn normal_matrix_is_rotation_test() {
    let t = Transform {
        yaw: Angle::Degrees(fx(25)),
        pitch: Angle::Degrees(fx(10)),
        roll: Angle::Degrees(fx(5)),
        position: v3(9, 9, 9),
        scale: fx(3),
    };
    let n = t.normal_matrix();
    let r = Rotation3::rotation_matrix(t.yaw, t.pitch, t.roll);
    assert_eq!(n, r);
}

#[test]
fn perspective_matrix_success_test() {
    let fov = Angle::Degrees(fx(90));
    let m = perspective_matrix(fov, fx(1), fx(1), fx(2)).unwrap();
    // the lower 2x2 depth block: z row is (0 0 A B), w row is (0 0 1 0)
    assert_eq!(m.row(3), Vector4::new(fx(0), fx(0), Fx::one(), fx(0)));
    assert_eq!(m.z.z, fx(2));
    assert_eq!(m.w.z, fx(-2));
    // off-diagonal upper entries vanish
    assert_eq!(m.x.y.raw, 0);
    assert_eq!(m.y.x.raw, 0);
}

#[test]
fn perspective_matrix_rejects_degenerate_test() {
    let fov = Angle::Degrees(fx(90));
    assert!(perspective_matrix(fov, fx(1), fx(1), fx(1)).is_none());
    assert!(perspective_matrix(fov, fx(0), fx(1), fx(2)).is_none());
    assert!(perspective_matrix(Angle::Radians(fx(0)), fx(1), fx(1), fx(2)).is_none());
}

#[test]
fn orthographic_matrix_test() {
    let m = orthographic_matrix(fx(-1), fx(1), fx(-1), fx(1), fx(0), fx(1)).unwrap();
    assert_eq!(m.x.x, Fx::one());
    assert_eq!(m.y.y, Fx::one());
    assert_eq!(m.z.z, Fx::one());
    assert_eq!(m.w, Vector4::new(fx(0), fx(0), fx(0), Fx::one()));
    assert!(orthographic_matrix(fx(1), fx(1), fx(-1), fx(1), fx(0), fx(1)).is_none());
}

#[test]
fn vertex_lookup_test() {
    let mut m = Model::empty();
    m.vertices.push(v3(1, 2, 3));
    m.vertices.push(v3(4, 5, 6));
    m.tex_coords.push(Vector2::new(fx(7), fx(8)));
    m.normals.push(v3(0, 0, 1));
    let d = VertexData { pos: 2, tex_coord: Some(1), normal: Some(1) };
    let v = Vertex::new(&d, &m);
    assert_eq!(v.pos, v3(4, 5, 6));
    assert_eq!(v.tex_coord, Some(Vector2::new(fx(7), fx(8))));
    assert_eq!(v.normal, Some(v3(0, 0, 1)));
    let bare = VertexData { pos: 1, tex_coord: None, normal: None };
    let b = Vertex::new(&bare, &m);
    assert_eq!(b.pos, v3(1, 2, 3));
    assert!(b.tex_coord.is_none());
    assert!(b.normal.is_none());
}

#[test]
fn perspective_depth_maps_near_far_test() {
    // near-plane points project to z = 0, far-plane points to z = 1
    let fov = Angle::Degrees(fx(90));
    let m = perspective_matrix(fov, fx(1), fx(1), fx(2)).unwrap();
    let near_pt = m.mul_vector(Vector4::to_homogenous(v3(0, 0, 1))).to_cartesian();
    assert_eq!(near_pt.z.raw, 0);
    let far_pt = m.mul_vector(Vector4::to_homogenous(v3(0, 0, 2))).to_cartesian();
    assert_eq!(far_pt.z, Fx::one());
}
