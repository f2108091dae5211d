use linalg::{Mat, Vec2, Vec3, Vec4};

#[test]
fn new_1() {
    let mat: Mat<2, 3> = Mat::new(vec![vec![1, 2, 3], vec![4, 5, 6]]);

    assert_eq!(mat.at(0, 0), 1);
    assert_eq!(mat.at(0, 1), 2);
    assert_eq!(mat.at(0, 2), 3);
    assert_eq!(mat.at(1, 0), 4);
    assert_eq!(mat.at(1, 1), 5);
    assert_eq!(mat.at(1, 2), 6);
}

#[test]
fn new_2() {
    let mat: Mat<3, 2> = Mat::new(vec![vec![1, 2], vec![3, 4], vec![5, 6]]);

    assert_eq!(mat.at(0, 0), 1);
    assert_eq!(mat.at(0, 1), 2);
    assert_eq!(mat.at(1, 0), 3);
    assert_eq!(mat.at(1, 1), 4);
    assert_eq!(mat.at(2, 0), 5);
    assert_eq!(mat.at(2, 1), 6);
}

#[test]
fn fill_1() {
    assert_eq!(
        Mat::<2, 3>::fill(1),
        Mat::new(vec![vec![1, 1, 1], vec![1, 1, 1]])
    );
}

#[test]
fn fill_2() {
    assert_eq!(
        Mat::<3, 2>::fill(1),
        Mat::new(vec![vec![1, 1], vec![1, 1], vec![1, 1]])
    );
}

#[test]
fn zero_1() {
    assert_eq!(
        Mat::<2, 3>::zero(),
        Mat::new(vec![vec![0, 0, 0], vec![0, 0, 0]])
    );
}

#[test]
fn zero_2() {
    assert_eq!(
        Mat::<3, 2>::zero(),
        Mat::new(vec![vec![0, 0], vec![0, 0], vec![0, 0]])
    );
}

#[test]
fn neg() {
    let mat: Mat<2, 2> = Mat::new(vec![vec![1, 2], vec![3, 4]]);
    assert_eq!(mat.neg(), Mat::new(vec![vec![-1, -2], vec![-3, -4]]));
}

#[test]
fn matrix_add() {
    let mat: Mat<2, 2> = Mat::new(vec![vec![1, 2], vec![3, 4]]);
    assert_eq!(
        mat.add(&Mat::<2, 2>::fill(1)),
        Mat::new(vec![vec![2, 3], vec![4, 5]])
    );
}

#[test]
fn matrix_sub() {
    let mat: Mat<2, 2> = Mat::new(vec![vec![1, 2], vec![3, 4]]);
    assert_eq!(
        mat.sub(&Mat::<2, 2>::fill(1)),
        Mat::new(vec![vec![0, 1], vec![2, 3]])
    );
}

#[test]
fn mul_identity() {
    let mat: Mat<2, 2> = Mat::new(vec![vec![2, 3], vec![4, 5]]);
    assert_eq!(
        mat.mul(&Mat::<2, 2>::identity()),
        Mat::new(vec![vec![2, 3], vec![4, 5]])
    );
}

#[test]
fn mul_square_2x2() {
    let a: Mat<2, 2> = Mat::new(vec![vec![1, 2], vec![3, 4]]);
    let b: Mat<2, 2> = Mat::new(vec![vec![5, 6], vec![7, 8]]);
    assert_eq!(a.mul(&b), Mat::new(vec![vec![19, 22], vec![43, 50]]));
}

#[test]
fn mul_square_3x3() {
    let a: Mat<3, 3> = Mat::new(vec![vec![1, 2, 3], vec![4, 5, 6], vec![7, 8, 9]]);
    let b: Mat<3, 3> = Mat::new(vec![vec![9, 8, 7], vec![6, 5, 4], vec![3, 2, 1]]);
    assert_eq!(
        a.mul(&b),
        Mat::new(vec![vec![30, 24, 18], vec![84, 69, 54], vec![138, 114, 90]])
    );
}

#[test]
fn mul_2x3_3x2() {
    let a: Mat<2, 3> = Mat::new(vec![vec![1, 4, 2], vec![3, 0, 5]]);
    let b: Mat<3, 2> = Mat::new(vec![vec![2, 3], vec![1, 5], vec![4, 0]]);
    assert_eq!(a.mul(&b), Mat::new(vec![vec![14, 23], vec![26, 9]]));
}

#[test]
fn mul_2x3_3x4() {
    let a: Mat<2, 3> = Mat::new(vec![vec![2, 3, 4], vec![1, 0, 2]]);
    let b: Mat<3, 4> = Mat::new(vec![
        vec![0, 1, 2, 3],
        vec![1, 2, 3, 4],
        vec![4, 5, 6, 7],
    ]);
    assert_eq!(
        a.mul(&b),
        Mat::new(vec![vec![19, 28, 37, 46], vec![8, 11, 14, 17]])
    );
}

#[test]
fn mul_vec2() {
    let mat: Mat<4, 2> = Mat::new(vec![vec![1, 2], vec![3, 4], vec![5, 6], vec![7, 8]]);
    assert_eq!(
        mat.mul_vec2(Vec2::new(2, 1)),
        Mat::new(vec![vec![4], vec![10], vec![16], vec![22]])
    );
}

#[test]
fn mul_vec3() {
    let mat: Mat<4, 3> = Mat::new(vec![
        vec![1, 2, 3],
        vec![4, 5, 6],
        vec![7, 8, 9],
        vec![10, 11, 12],
    ]);
    assert_eq!(
        mat.mul_vec3(Vec3::new(3, 2, 1)),
        Mat::new(vec![vec![10], vec![28], vec![46], vec![64]])
    );
}

#[test]
fn mul_vec4() {
    let mat: Mat<4, 4> = Mat::new(vec![
        vec![1, 2, 3, 4],
        vec![5, 6, 7, 8],
        vec![9, 10, 11, 12],
        vec![13, 14, 15, 16],
    ]);
    assert_eq!(
        mat.mul_vec4(Vec4::new(4, 3, 2, 1)),
        Mat::new(vec![vec![20], vec![60], vec![100], vec![140]])
    );
}
