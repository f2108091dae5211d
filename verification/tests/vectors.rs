use linalg::{Mat, Vec2, Vec3, Vec4};

#[test]
fn vec2_new() {
    let vec = Vec2::new(1, 3);
    assert_eq!(vec.x, 1);
    assert_eq!(vec.y, 3);
}

#[test]
fn vec2_zero() {
    let vec = Vec2::zero();
    assert_eq!(vec, Vec2::new(0, 0));
}

#[test]
fn vec2_fill() {
    let vec = Vec2::fill(1);
    assert_eq!(vec, Vec2::new(1, 1));
}

#[test]
fn vec2_add() {
    let vec_a = Vec2::new(5, 5);
    let vec_b = Vec2::new(1, 3);
    assert_eq!(vec_a.add(vec_b), Vec2::new(6, 8));
}

#[test]
fn vec2_sub() {
    let vec_a = Vec2::new(5, 5);
    let vec_b = Vec2::new(1, 3);
    assert_eq!(vec_a.sub(vec_b), Vec2::new(4, 2));
}

#[test]
fn vec2_dot() {
    let vec_a = Vec2::new(5, 5);
    let vec_b = Vec2::new(1, 3);
    assert_eq!(vec_a.dot(vec_b), 20);
}

#[test]
fn vec3_new() {
    let vec = Vec3::new(1, 2, 3);
    assert_eq!(vec.x, 1);
    assert_eq!(vec.y, 2);
    assert_eq!(vec.z, 3);
}

#[test]
fn vec3_zero() {
    let vec = Vec3::zero();
    assert_eq!(vec, Vec3::new(0, 0, 0));
}

#[test]
fn vec3_fill() {
    let vec = Vec3::fill(1);
    assert_eq!(vec, Vec3::new(1, 1, 1));
}

#[test]
fn vec3_add() {
    let vec_a = Vec3::new(5, 5, 5);
    let vec_b = Vec3::new(1, 2, 3);
    assert_eq!(vec_a.add(vec_b), Vec3::new(6, 7, 8));
}

#[test]
fn vec3_sub() {
    let vec_a = Vec3::new(5, 5, 5);
    let vec_b = Vec3::new(1, 2, 3);
    assert_eq!(vec_a.sub(vec_b), Vec3::new(4, 3, 2));
}

#[test]
fn vec3_dot() {
    let vec_a = Vec3::new(5, 5, 5);
    let vec_b = Vec3::new(1, 2, 3);
    assert_eq!(vec_a.dot(vec_b), 30);
}

#[test]
fn cross_general_1() {
    let vec_a = Vec3::new(1, 2, 3);
    let vec_b = Vec3::new(4, 5, 6);
    assert_eq!(vec_a.cross(vec_b), Vec3::new(-3, 6, -3));
}

#[test]
fn cross_general_2() {
    let vec_a = Vec3::new(3, -3, 1);
    let vec_b = Vec3::new(4, 9, 2);
    assert_eq!(vec_a.cross(vec_b), Vec3::new(-15, -2, 39));
}

#[test]
fn cross_orthogonal() {
    let vec_a = Vec3::new(1, 0, 0);
    let vec_b = Vec3::new(0, 1, 0);
    assert_eq!(vec_a.cross(vec_b), Vec3::new(0, 0, 1));
}

#[test]
fn cross_parallel() {
    let vec_a = Vec3::new(2, 2, 2);
    let vec_b = Vec3::new(4, 4, 4);
    assert_eq!(vec_a.cross(vec_b), Vec3::zero());
}

#[test]
fn vec4_new() {
    let vec = Vec4::new(1, 2, 3, 4);
    assert_eq!(vec.x, 1);
    assert_eq!(vec.y, 2);
    assert_eq!(vec.z, 3);
    assert_eq!(vec.w, 4);
}

#[test]
fn vec4_zero() {
    let vec = Vec4::zero();
    assert_eq!(vec, Vec4::new(0, 0, 0, 0));
}

#[test]
fn vec4_fill() {
    let vec = Vec4::fill(1);
    assert_eq!(vec, Vec4::new(1, 1, 1, 1));
}

#[test]
fn vec4_add() {
    let vec_a = Vec4::new(5, 5, 5, 5);
    let vec_b = Vec4::new(1, 2, 3, 4);
    assert_eq!(vec_a.add(vec_b), Vec4::new(6, 7, 8, 9));
}

#[test]
fn vec4_sub() {
    let vec_a = Vec4::new(5, 5, 5, 5);
    let vec_b = Vec4::new(1, 2, 3, 4);
    assert_eq!(vec_a.sub(vec_b), Vec4::new(4, 3, 2, 1));
}

#[test]
fn vec4_dot() {
    let vec_a = Vec4::new(5, 5, 5, 5);
    let vec_b = Vec4::new(1, 2, 3, 4);
    assert_eq!(vec_a.dot(vec_b), 50);
}

#[test]
fn mul_mat() {
    let row: Mat<1, 4> = Mat::new(vec![vec![4, 3, 2, 1]]);
    assert_eq!(
        Vec4::new(1, 2, 3, 4).mul_mat(&row),
        Mat::new(vec![
            vec![4, 3, 2, 1],
            vec![8, 6, 4, 2],
            vec![12, 9, 6, 3],
            vec![16, 12, 8, 4],
        ])
    );
}
