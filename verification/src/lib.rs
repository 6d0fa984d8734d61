//! A minimal verified 2D linear-algebra library: a generic 2×2 matrix type,
//! a 2-component column-vector type, and a small catalogue of named integer
//! transforms (identity, quarter-turn rotations, axis flips).

mod matrix;
mod scalar;
mod transforms;
mod vector;

pub use matrix::Matrix;
pub use matrix::lemma_columns_round_trip;
pub use matrix::lemma_from_vectors_round_trip;
pub use matrix::lemma_matrix_double_is_scale_two_i32;
pub use matrix::lemma_matrix_double_is_scale_two_i64;
pub use matrix::lemma_matrix_double_is_scale_two_u32;
pub use matrix::lemma_matrix_scale_is_mul_scalar;
pub use matrix::lemma_transpose_involution;
pub use scalar::Scalar;
pub use transforms::flip_x;
pub use transforms::flip_x_spec;
pub use transforms::flip_y;
pub use transforms::flip_y_spec;
pub use transforms::identity;
pub use transforms::identity_spec;
pub use transforms::lemma_flip_x_involution;
pub use transforms::lemma_flip_y_involution;
pub use transforms::lemma_identity_fixes_vector;
pub use transforms::lemma_rotations_compose_to_identity;
pub use transforms::rotate_180;
pub use transforms::rotate_180_spec;
pub use transforms::rotate_270;
pub use transforms::rotate_270_spec;
pub use transforms::rotate_90;
pub use transforms::rotate_90_spec;
pub use vector::Vector;
pub use vector::lemma_vector_double_is_scale_two_i32;
pub use vector::lemma_vector_double_is_scale_two_i64;
pub use vector::lemma_vector_double_is_scale_two_u32;
pub use vector::lemma_vector_scale_is_mul_scalar;
