use linalg::scalar::isqrt;
use linalg::{Mat, Vec2, Vec3, Vec4};

#[test]
fn identity_scenario() {
    let a: Mat<2, 2> = Mat::new(vec![vec![1, 2], vec![3, 4]]);
    let id: Mat<2, 2> = Mat::identity();
    assert_eq!(a.mul(&id), Mat::new(vec![vec![1, 2], vec![3, 4]]));
    assert_eq!(id.mul(&a), Mat::new(vec![vec![1, 2], vec![3, 4]]));
}

#[test]
fn add_sub_cancel() {
    let a: Mat<2, 3> = Mat::new(vec![vec![1, -2, 3], vec![-4, 5, -6]]);
    let b: Mat<2, 3> = Mat::new(vec![vec![7, 8, -9], vec![10, -11, 12]]);
    assert_eq!(a.add(&b).sub(&b), a);
}

#[test]
fn neg_involution() {
    let a: Mat<2, 2> = Mat::new(vec![vec![1, -2], vec![-3, 4]]);
    assert_eq!(a.neg().neg(), a);
}

#[test]
fn mul_associative() {
    let a: Mat<2, 3> = Mat::new(vec![vec![1, 2, 3], vec![4, 5, 6]]);
    let b: Mat<3, 2> = Mat::new(vec![vec![7, 8], vec![9, 10], vec![11, 12]]);
    let c: Mat<2, 2> = Mat::new(vec![vec![13, 14], vec![15, 16]]);
    assert_eq!(a.mul(&b).mul(&c), a.mul(&b.mul(&c)));
}

#[test]
fn dot_symmetric() {
    let a2 = Vec2::new(-7, 11);
    let b2 = Vec2::new(5, -3);
    assert_eq!(a2.dot(b2), b2.dot(a2));
    let a3 = Vec3::new(2, -4, 6);
    let b3 = Vec3::new(-1, 3, -5);
    assert_eq!(a3.dot(b3), b3.dot(a3));
    let a4 = Vec4::new(1, 2, 3, 4);
    let b4 = Vec4::new(8, 7, 6, 5);
    assert_eq!(a4.dot(b4), b4.dot(a4));
}

#[test]
fn cross_anticommutative() {
    let a = Vec3::new(3, -3, 1);
    let b = Vec3::new(4, 9, 2);
    assert_eq!(a.cross(b), b.cross(a).neg());
}

#[test]
fn cross_antiparallel() {
    let a = Vec3::new(1, -2, 3);
    let b = Vec3::new(-2, 4, -6);
    assert_eq!(a.cross(b), Vec3::zero());
    assert_eq!(a.cross(a), Vec3::zero());
}

#[test]
fn column_roundtrip() {
    let v2 = Vec2::new(9, -8);
    let m2: Mat<2, 1> = v2.to_col();
    assert_eq!(m2.at(0, 0), 9);
    assert_eq!(m2.at(1, 0), -8);

    let v3 = Vec3::new(1, 2, 3);
    let m3: Mat<3, 1> = v3.to_col();
    assert_eq!(m3.at(0, 0), 1);
    assert_eq!(m3.at(1, 0), 2);
    assert_eq!(m3.at(2, 0), 3);

    let v4 = Vec4::new(-1, 0, 1, 2);
    let m4: Mat<4, 1> = v4.to_col();
    assert_eq!(m4.at(0, 0), -1);
    assert_eq!(m4.at(1, 0), 0);
    assert_eq!(m4.at(2, 0), 1);
    assert_eq!(m4.at(3, 0), 2);
}

#[test]
fn diagonal_entries() {
    let m: Mat<3, 3> = Mat::diagonal(2);
    assert_eq!(
        m,
        Mat::new(vec![vec![2, 0, 0], vec![0, 2, 0], vec![0, 0, 2]])
    );
}

#[test]
fn matrix_add_assign() {
    let mut a: Mat<2, 2> = Mat::new(vec![vec![1, 2], vec![3, 4]]);
    a.add_assign(&Mat::<2, 2>::fill(10));
    assert_eq!(a, Mat::new(vec![vec![11, 12], vec![13, 14]]));
}

#[test]
fn matrix_sub_assign() {
    let mut a: Mat<2, 2> = Mat::new(vec![vec![11, 12], vec![13, 14]]);
    a.sub_assign(&Mat::<2, 2>::fill(10));
    assert_eq!(a, Mat::new(vec![vec![1, 2], vec![3, 4]]));
}

#[test]
fn matrix_mul_assign() {
    let mut a: Mat<2, 2> = Mat::new(vec![vec![1, 2], vec![3, 4]]);
    let b: Mat<2, 2> = Mat::new(vec![vec![5, 6], vec![7, 8]]);
    a.mul_assign(&b);
    assert_eq!(a, Mat::new(vec![vec![19, 22], vec![43, 50]]));
}

#[test]
fn set_at_writes_one_cell() {
    let mut a: Mat<2, 3> = Mat::zero();
    a.set_at(1, 2, 42);
    assert_eq!(
        a,
        Mat::new(vec![vec![0, 0, 0], vec![0, 0, 42]])
    );
}

#[test]
fn one_by_one() {
    let a: Mat<1, 1> = Mat::new(vec![vec![7]]);
    let id: Mat<1, 1> = Mat::identity();
    assert_eq!(a.mul(&id), a);
    assert_eq!(a.at(0, 0), 7);
}

#[test]
fn vector_assign_ops() {
    let mut v2 = Vec2::new(5, 5);
    v2.add_assign(Vec2::new(1, 3));
    assert_eq!(v2, Vec2::new(6, 8));
    v2.sub_assign(Vec2::new(1, 3));
    assert_eq!(v2, Vec2::new(5, 5));

    let mut v3 = Vec3::new(5, 5, 5);
    v3.add_assign(Vec3::new(1, 2, 3));
    assert_eq!(v3, Vec3::new(6, 7, 8));
    v3.sub_assign(Vec3::new(1, 2, 3));
    assert_eq!(v3, Vec3::new(5, 5, 5));

    let mut v4 = Vec4::new(5, 5, 5, 5);
    v4.add_assign(Vec4::new(1, 2, 3, 4));
    assert_eq!(v4, Vec4::new(6, 7, 8, 9));
    v4.sub_assign(Vec4::new(1, 2, 3, 4));
    assert_eq!(v4, Vec4::new(5, 5, 5, 5));
}

#[test]
fn vector_neg() {
    assert_eq!(Vec2::new(1, -2).neg(), Vec2::new(-1, 2));
    assert_eq!(Vec3::new(1, -2, 3).neg(), Vec3::new(-1, 2, -3));
    assert_eq!(Vec4::new(1, -2, 3, -4).neg(), Vec4::new(-1, 2, -3, 4));
}

#[test]
fn vector_default_is_zero() {
    assert_eq!(Vec2::default(), Vec2::zero());
    assert_eq!(Vec3::default(), Vec3::zero());
    assert_eq!(Vec4::default(), Vec4::zero());
}

#[test]
fn magnitude() {
    assert_eq!(Vec2::new(3, 4).mag(), 5);
    assert_eq!(Vec2::zero().mag(), 0);
    assert_eq!(Vec3::new(2, 3, 6).mag(), 7);
    assert_eq!(Vec3::zero().mag(), 0);
    assert_eq!(Vec4::new(1, 1, 1, 1).mag(), 2);
    // Floor behaviour on a non-square dot product.
    assert_eq!(Vec2::new(1, 1).mag(), 1);
}

#[test]
fn isqrt_values() {
    assert_eq!(isqrt(0), 0);
    assert_eq!(isqrt(1), 1);
    assert_eq!(isqrt(15), 3);
    assert_eq!(isqrt(16), 4);
    assert_eq!(isqrt(i64::MAX), 3037000499);
}

#[test]
fn fill_one_by_three() {
    let m: Mat<1, 3> = Mat::fill(-5);
    assert_eq!(m, Mat::new(vec![vec![-5, -5, -5]]));
}
