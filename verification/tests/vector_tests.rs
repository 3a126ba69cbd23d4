use termraster::fx::Fx;
use termraster::vector2::Vector2;
use termraster::vector3::Vector3;
use termraster::vector4::Vector4;

fn fx(i: i64) -> Fx {
    Fx::from_int(i)
}

fn v2(x: i64, y: i64) -> Vector2 {
    Vector2::new(fx(x), fx(y))
}

fn v3(x: i64, y: i64, z: i64) -> Vector3 {
    Vector3::new(fx(x), fx(y), fx(z))
}

#[test]
fn vector2_scalar_multiplication_test() {
    let vec = v2(5, 10);
    assert_eq!(vec.scale(fx(2)), v2(10, 20));
    assert_eq!(vec.scale(fx(2)), v2(10, 20));
}

#[test]
fn vector2_scalar_addition_test() {
    let vec = v2(10, 20);
    let res = v2(12, 22);
    assert_eq!(vec.scalar_add(fx(2)), res);
    assert_eq!(vec.scalar_add(fx(2)), res);
}

#[test]
fn vector2_scalar_subtraction_test() {
    let vec = v2(10, 20);
    let res = v2(8, 18);
    assert_eq!(vec.scalar_sub(fx(2)).neg(), res.neg());
    assert_eq!(vec.scalar_sub(fx(2)), res);
}

#[test]
fn vector2_vector_addition_test() {
    let a = v2(10, 39);
    let b = v2(2, 520);
    let res = v2(12, 559);
    assert_eq!(a.add(b), res);
    assert_eq!(b.add(a), res);
}

#[test]
fn vector2_vector_subtraction_test() {
    let a = v2(10, 39);
    let b = v2(3, 519);
    let res = v2(7, -480);
    assert_eq!(a.sub(b), res);
    assert_eq!(b.sub(a), res.neg());
}

#[test]
fn vector2_negation_test() {
    let vec = v2(10, 20);
    let res = v2(-10, -20);
    assert_eq!(vec.neg(), res);
}

#[test]
fn vector2_magnitude_test() {
    let a = v2(3, 4);
    assert_eq!(a.length(), fx(5));
}

#[test]
fn vector2_dot_product_test() {
    let a = v2(10, 2);
    let b = v2(4, 2);
    assert_eq!(a.dot(b), fx(44));
    println!("{:?}", b);
}

#[test]
fn vector2_hadamard_product_test() {
    let a = v2(10, 2);
    let b = v2(4, 2);
    let res = v2(40, 4);
    assert_eq!(a.hadamard(b), res);
    assert_eq!(b.hadamard(a), res);
}

#[test]
fn vector2_normalize_test() {
    let a = v2(3, 4);
    let b = Vector2::new(Fx::from_ratio(3, 5), Fx::from_ratio(4, 5));
    assert_eq!(a.normalize(), b);
}

#[test]
fn vector2_indexing_test() {
    let a = v2(10, 5);
    assert_eq!(a.index(0), fx(10));
    assert_eq!(a.index(1), fx(5));
}

#[test]
fn vector3_scalar_multiplication_test() {
    let a = v3(5, 10, 10);
    let res = v3(10, 20, 20);
    assert_eq!(a.scale(fx(2)), res);
    assert_eq!(a.scale(fx(2)), res);
}

#[test]
fn vector3_normalize_test() {
    let a = v3(10, 5, 20);
    let s21 = fx(21).sqrt();
    let b = Vector3::new(fx(2).div(s21), fx(1).div(s21), fx(4).div(s21));
    assert!(a.normalize().sub(b).length().raw <= 66);
}

#[test]
fn vector3_scalar_subtraction_test() {
    let vec = v3(10, 20, 5);
    let res = v3(8, 18, 3);
    assert_eq!(vec.scalar_sub(fx(2)).neg(), res.neg());
    assert_eq!(vec.scalar_sub(fx(2)), res);
}

#[test]
fn vector3_negation_test() {
    let vec = v3(10, 20, 5);
    let res = v3(-10, -20, -5);
    assert_eq!(vec.neg(), res);
}

#[test]
fn vector3_vector_addition_test() {
    let a = v3(10, 39, 29);
    let b = v3(2, 520, 25);
    let res = v3(12, 559, 54);
    assert_eq!(a.add(b), res);
    assert_eq!(b.add(a), res);
}

#[test]
fn vector3_vector_subtraction_test() {
    let a = v3(10, 39, 23);
    let b = v3(3, 519, 4);
    let res = v3(7, -480, 19);
    assert_eq!(a.sub(b), res);
    assert_eq!(b.sub(a), res.neg());
}

#[test]
fn vector3_magnitude_test() {
    let a = v3(10, 18, 2);
    assert_eq!(a.length(), fx(428).sqrt());
}

#[test]
fn vector3_dot_product_test() {
    let a = v3(1, 2, 3);
    let b = v3(3, 4, 5);
    assert_eq!(a.dot(b), fx(26));
}

#[test]
fn cross_product_test() {
    let a = v3(1, 2, 3);
    let b = v3(12, 4, 5);
    let res = v3(-2, 31, -20);
    assert_eq!(a.cross(b), res);
}

#[test]
fn vector4_homogeneous_round_trip_test() {
    let p = v3(7, -3, 2);
    let h = Vector4::to_homogenous(p);
    assert_eq!(h.w, Fx::one());
    assert_eq!(h.to_cartesian(), p);
}

#[test]
fn vector4_cartesian_divides_by_w_test() {
    let h = Vector4::new(fx(8), fx(4), fx(2), fx(2));
    assert_eq!(h.to_cartesian(), v3(4, 2, 1));
}

#[test]
fn vector4_length_test() {
    let a = Vector4::new(fx(2), fx(4), fx(4), fx(0));
    assert_eq!(a.length(), fx(6));
}

#[test]
fn fx_truncation_semantics_test() {
    // division truncates toward zero, also for negative values
    assert_eq!(Fx::from_ratio(-1, 3).raw, -21845);
    assert_eq!(Fx::from_ratio(1, 3).raw, 21845);
    assert_eq!(fx(2).sqrt().raw, 92681);
    assert_eq!(fx(4).sqrt(), fx(2));
}

#[test]
fn normalize_length_near_one_test() {
    // the length of a normalized vector is within a few raw units of 1
    let n = v3(3, 4, 0).normalize();
    assert_eq!(n.length().raw, 65535);
    let m = v3(1, 0, 0).normalize();
    assert_eq!(m.length(), Fx::one());
}
