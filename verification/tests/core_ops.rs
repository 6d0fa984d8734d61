use mat2::Matrix;
use mat2::Vector;

#[test]
fn initialize_stuff() {
    // combining vectors
    assert_eq!(
        Matrix::new(1, 2, 3, 4),
        Matrix::from_vectors(Vector::new(1, 3), Vector::new(2, 4))
    );

    // splitting matricies
    assert_eq!(Vector::new(1, 3), Matrix::new(1, 2, 3, 4).left());
    assert_eq!(Vector::new(2, 4), Matrix::new(1, 2, 3, 4).right());
}

#[test]
fn manipulate_stuff() {
    let m: Matrix<u32> = Matrix::new(1, 2, 3, 4);
    let v: Vector<u32> = Vector::new(5, 6);

    // scaling
    assert_eq!(Matrix::new(10, 20, 30, 40), m.scale(10));
    assert_eq!(Vector::new(50, 60), v.scale(10));

    // adding
    assert_eq!(Matrix::new(2, 4, 6, 8), m.add(m));
    assert_eq!(Vector::new(10, 12), v.add(v));

    // multiplying
    assert_eq!(Matrix::new(10, 20, 30, 40), m.mul_scalar(10));
    assert_eq!(Vector::new(50, 60), v.mul_scalar(10));
    assert_eq!(Matrix::new(7, 10, 15, 22), m.mul_matrix(m));
    assert_eq!(Vector::new(17, 39), m.mul_vector(v));
}

#[test]
fn columns_round_trip() {
    let m: Matrix<i32> = Matrix::new(9, -8, 7, -6);
    assert_eq!(m, Matrix::from_vectors(m.left(), m.right()));
}

#[test]
fn from_vectors_then_split() {
    let l: Vector<i32> = Vector::new(-1, 5);
    let r: Vector<i32> = Vector::new(4, -2);
    let m = Matrix::from_vectors(l, r);
    assert_eq!(l, m.left());
    assert_eq!(r, m.right());
}

#[test]
fn transpose_swaps_off_diagonal() {
    let m: Matrix<i32> = Matrix::new(1, 2, 3, 4);
    assert_eq!(Matrix::new(1, 3, 2, 4), m.transpose());
}

#[test]
fn transpose_twice_is_identity() {
    let m: Matrix<i64> = Matrix::new(11, -22, 33, -44);
    assert_eq!(m, m.transpose().transpose());
}

#[test]
fn adding_to_itself_is_scaling_by_two() {
    let m: Matrix<i32> = Matrix::new(-3, 0, 12, 7);
    let v: Vector<i32> = Vector::new(-9, 4);
    assert_eq!(m.scale(2), m.add(m));
    assert_eq!(v.scale(2), v.add(v));
}

#[test]
fn scale_agrees_with_scalar_multiply() {
    let m: Matrix<i64> = Matrix::new(5, -6, 7, -8);
    let v: Vector<i64> = Vector::new(-10, 11);
    assert_eq!(m.scale(-3), m.mul_scalar(-3));
    assert_eq!(v.scale(-3), v.mul_scalar(-3));
}

#[test]
fn large_entries_in_wide_type() {
    let m: Matrix<i64> = Matrix::new(1_000_000_007, 2, -3_000_000_000, 4);
    let v: Vector<i64> = Vector::new(2_000_000_011, -5);
    assert_eq!(
        Matrix::new(2_000_000_014, 4, -6_000_000_000, 8),
        m.mul_scalar(2)
    );
    assert_eq!(
        Vector::new(
            1_000_000_007 * 2_000_000_011 - 10,
            -3_000_000_000 * 2_000_000_011 - 20
        ),
        m.mul_vector(v)
    );
}

#[test]
fn scaling_the_largest_unsigned_entry_by_one() {
    let v: Vector<u32> = Vector::new(u32::MAX, 0);
    assert_eq!(v, v.scale(1));
    let m: Matrix<u32> = Matrix::new(u32::MAX, 0, 0, u32::MAX);
    assert_eq!(m, m.scale(1));
}

#[test]
fn float_entries_round_trip() {
    let m: Matrix<f64> = Matrix::new(0.5, -1.25, 2.75, 3.0);
    let back = Matrix::from_vectors(m.left(), m.right());
    assert_eq!(m.left().x, back.left().x);
    assert_eq!(m.left().y, back.left().y);
    assert_eq!(m.right().x, back.right().x);
    assert_eq!(m.right().y, back.right().y);
}
