//! Dense matrices over any copyable element type.
//!
//! A [`Matrix`] owns a rectangular grid of elements together with its row and
//! column counts. Every operation returns a new matrix, and every contract is
//! stated over the mathematical content of a matrix, its [`Grid`].
//!
//! The element type is a parameter. Arithmetic on elements goes through the
//! standard operators of the element type, and zero is the element type's
//! default value. The contracts speak of elements through the operators' own
//! contracts, so they hold whether the element type is an integer or not.
//!
//! - [`matrix`]: the matrix type and its operations.
//! - [`grid`]: the mathematical content of a matrix, and the relations in
//!   which the contracts are stated.
//! - [`error`]: the failures that operations on two matrices report.
//! - [`laws`]: laws that relate the operations to one another.
//! - [`exact`]: what the contracts come to for element types with exact
//!   arithmetic.
pub mod error;
pub mod exact;
pub mod grid;
pub mod laws;
pub mod matrix;

pub use error::MatrixError;
pub use grid::Grid;
pub use matrix::Matrix;
