use mat2::Matrix;
use mat2::Vector;
use mat2::flip_x;
use mat2::flip_y;
use mat2::identity;
use mat2::rotate_180;
use mat2::rotate_270;
use mat2::rotate_90;

#[test]
fn rotating() {
    let v: Vector<i32> = Vector::new(1, 2);

    assert_eq!(v, identity().mul_vector(v));
    assert_eq!(Vector::new(-2, 1), rotate_90().mul_vector(v));
    assert_eq!(Vector::new(-1, -2), rotate_180().mul_vector(v));
    assert_eq!(Vector::new(2, -1), rotate_270().mul_vector(v));

    assert_eq!(identity(), rotate_90().mul_matrix(rotate_270()));
}

#[test]
fn flipping() {
    let v: Vector<i32> = Vector::new(1, 2);

    assert_eq!(Vector::new(-1, 2), flip_x().mul_vector(v));
    assert_eq!(Vector::new(1, -2), flip_y().mul_vector(v));

    assert_eq!(identity(), flip_y().mul_matrix(flip_y()));
    assert_eq!(identity(), flip_x().mul_matrix(flip_x()));
}

#[test]
fn quarter_turns_compose() {
    assert_eq!(rotate_180(), rotate_90().mul_matrix(rotate_90()));
    assert_eq!(rotate_270(), rotate_180().mul_matrix(rotate_90()));
    assert_eq!(identity(), rotate_180().mul_matrix(rotate_180()));
}

#[test]
fn identity_fixes_any_vector() {
    let v: Vector<i32> = Vector::new(i32::MAX, i32::MIN);
    assert_eq!(v, identity().mul_vector(v));
}

#[test]
fn transform_entries() {
    assert_eq!(Matrix::new(1, 0, 0, 1), identity());
    assert_eq!(Matrix::new(0, -1, 1, 0), rotate_90());
    assert_eq!(Matrix::new(-1, 0, 0, -1), rotate_180());
    assert_eq!(Matrix::new(0, 1, -1, 0), rotate_270());
    assert_eq!(Matrix::new(-1, 0, 0, 1), flip_x());
    assert_eq!(Matrix::new(1, 0, 0, -1), flip_y());
}

#[test]
fn rotation_by_zero_radians_is_identity() {
    let radians: f64 = 0.0;
    let m: Matrix<f64> = Matrix::new(
        radians.cos(),
        -radians.sin(),
        radians.sin(),
        radians.cos(),
    );
    let eye = identity();
    assert!((m.a - eye.a as f64).abs() < 1e-12);
    assert!((m.b - eye.b as f64).abs() < 1e-12);
    assert!((m.c - eye.c as f64).abs() < 1e-12);
    assert!((m.d - eye.d as f64).abs() < 1e-12);
}
