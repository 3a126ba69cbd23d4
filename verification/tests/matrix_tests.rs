use termraster::fx::Fx;
use termraster::matrix2::Matrix2;
use termraster::matrix3::Matrix3;
use termraster::matrix4::Matrix4;
use termraster::vector2::Vector2;
use termraster::vector4::Vector4;

fn fx(i: i64) -> Fx {
    Fx::from_int(i)
}

fn m2(a: i64, b: i64, c: i64, d: i64) -> Matrix2 {
    Matrix2::new(fx(a), fx(b), fx(c), fx(d))
}

#[test]
fn matrix2_indexing_test() {
    let x = Vector2::new(fx(10), fx(5));
    let y = Vector2::new(fx(7), fx(2));
    let mat = Matrix2::from_cols(x, y);
    // First index (column), second index (row)
    assert_eq!(mat.index(0).index(0), fx(10));
    assert_eq!(mat.index(0).index(1), fx(5));
    assert_eq!(mat.index(1).index(0), fx(7));
    assert_eq!(mat.index(1).index(1), fx(2));
}

#[test]
fn transpose_test() {
    let a = m2(1, 2, 3, 4);
    let t = m2(1, 3, 2, 4);
    assert_eq!(a.transpose(), t);
}

#[test]
fn matrix_vector_multiplication_test() {
    let a = m2(1, 2, 3, 2);
    let b = Vector2::new(fx(4), fx(5));
    let res = Vector2::new(fx(14), fx(22));
    assert_eq!(a.mul_vector(b), res);
}

#[test]
fn matrix_multiplication_test() {
    let a = m2(1, 2, 3, 2);
    let b = m2(3, 2, 1, 5);
    let res = m2(5, 12, 11, 16);
    assert_eq!(a.mul_matrix(&b), res);
}

#[test]
fn matrix_scalar_multiplication_test() {
    let a = m2(1, 2, 3, 2);
    let res = m2(2, 4, 6, 4);
    assert_eq!(a.scalar_mul(fx(2)), res);
    assert_eq!(a.scalar_mul(fx(2)), res);
}

#[test]
fn matrix_scalar_division_test() {
    let a = m2(2, 4, 6, 4);
    let b = m2(1, 2, 3, 2);
    let c = Matrix2::new(
        fx(1),
        Fx::from_ratio(1, 2),
        Fx::from_ratio(1, 3),
        Fx::from_ratio(1, 2),
    );
    assert_eq!(a.scalar_div(fx(2)), b);
    assert_eq!(a.scalar_rdiv(fx(2)), c);
}

#[test]
fn matrix_scalar_addition_test() {
    let a = m2(1, 2, 3, 2);
    let res = m2(3, 4, 5, 4);
    assert_eq!(a.scalar_add(fx(2)), res);
    assert_eq!(a.scalar_add(fx(2)), res);
}

#[test]
fn matrix_scalar_subtraction_test() {
    let a = m2(1, 2, 3, 2);
    let res = m2(-1, 0, 1, 0);
    assert_eq!(a.scalar_sub(fx(2)), res);
    assert_eq!(a.scalar_sub(fx(2)).neg(), res.neg());
}

#[test]
fn matrix_addition_test() {
    let a = m2(1, 2, 3, 2);
    let b = Matrix2::new(Fx::from_ratio(3, 2), fx(12), fx(5), fx(-2));
    let res = Matrix2::new(Fx::from_ratio(5, 2), fx(14), fx(8), fx(0));
    assert_eq!(a.add(&b), res);
    assert_eq!(b.add(&a), res);
}

#[test]
fn matrix_subtraction_test() {
    let a = m2(1, 2, 3, 2);
    let b = Matrix2::new(Fx::from_ratio(3, 2), fx(12), fx(5), fx(-2));
    let res = Matrix2::new(Fx::from_ratio(-1, 2), fx(-10), fx(-2), fx(4));
    assert_eq!(a.sub(&b), res);
    assert_eq!(b.sub(&a), res.neg());
}

#[test]
fn matrix2_identity_product_test() {
    let a = m2(1, 2, 3, 2);
    assert_eq!(a.mul_matrix(&Matrix2::identity()), a);
    assert_eq!(Matrix2::identity().mul_matrix(&a), a);
}

#[test]
fn matrix3_identity_product_test() {
    let m = Matrix3::new(
        fx(1),
        fx(2),
        fx(3),
        fx(4),
        fx(5),
        fx(6),
        fx(7),
        fx(8),
        fx(-9),
    );
    assert_eq!(m.mul_matrix(&Matrix3::identity()), m);
    assert_eq!(Matrix3::identity().mul_matrix(&m), m);
}

#[test]
fn matrix3_double_transpose_test() {
    let m = Matrix3::new(
        fx(1),
        fx(2),
        fx(3),
        fx(4),
        fx(5),
        fx(6),
        fx(7),
        fx(8),
        fx(-9),
    );
    assert_eq!(m.transpose().transpose(), m);
    assert_ne!(m.transpose(), m);
}

#[test]
fn matrix4_identity_product_test() {
    let m = Matrix4::translation(termraster::vector3::Vector3::new(fx(3), fx(-1), fx(7)));
    assert_eq!(m.mul_matrix(&Matrix4::identity()), m);
    assert_eq!(Matrix4::identity().mul_matrix(&m), m);
}

#[test]
fn matrix4_double_transpose_test() {
    let m = Matrix4::new(
        fx(1),
        fx(2),
        fx(3),
        fx(4),
        fx(5),
        fx(6),
        fx(7),
        fx(8),
        fx(9),
        fx(10),
        fx(11),
        fx(12),
        fx(13),
        fx(14),
        fx(15),
        fx(16),
    );
    assert_eq!(m.transpose().transpose(), m);
}

#[test]
fn matrix4_row_col_test() {
    let m = Matrix4::new(
        fx(1),
        fx(2),
        fx(3),
        fx(4),
        fx(5),
        fx(6),
        fx(7),
        fx(8),
        fx(9),
        fx(10),
        fx(11),
        fx(12),
        fx(13),
        fx(14),
        fx(15),
        fx(16),
    );
    assert_eq!(m.row(0), Vector4::new(fx(1), fx(2), fx(3), fx(4)));
    assert_eq!(m.col(0), Vector4::new(fx(1), fx(5), fx(9), fx(13)));
    assert_eq!(m.row(3), Vector4::new(fx(13), fx(14), fx(15), fx(16)));
}

#[test]
fn matrix4_translation_moves_points_test() {
    let t = Matrix4::translation(termraster::vector3::Vector3::new(fx(1), fx(2), fx(3)));
    let p = Vector4::to_homogenous(termraster::vector3::Vector3::new(fx(10), fx(20), fx(30)));
    let q = t.mul_vector(p);
    assert_eq!(q, Vector4::new(fx(11), fx(22), fx(33), Fx::one()));
}

#[test]
fn matrix4_scaling_test() {
    let s = Matrix4::scaling(fx(3));
    let p = Vector4::to_homogenous(termraster::vector3::Vector3::new(fx(1), fx(2), fx(-3)));
    assert_eq!(
        s.mul_vector(p),
        Vector4::new(fx(3), fx(6), fx(-9), Fx::one())
    );
}
