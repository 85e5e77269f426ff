//! The failures that operations on two matrices report.
use vstd::prelude::*;

verus! {

/// Why two matrices could not be combined.
///
/// Each variant carries the dimensions that disagreed, so that a caller can
/// say which operand was at fault.
#[derive(Debug, Clone, Copy, PartialEq, Eq)]
pub enum MatrixError {
    /// A cell-by-cell operation was asked of two matrices of different shape.
    DimensionMismatch { left_rows: usize, left_cols: usize, right_rows: usize, right_cols: usize },
    /// A product was asked where the left operand's column count differs from
    /// the right operand's row count.
    IncompatibleShapeForProduct { left_cols: usize, right_rows: usize },
}

impl MatrixError {
    /// A description of the failure for people to read.
    pub fn message(&self) -> (text: &'static str)
        ensures
            self is DimensionMismatch ==> text@
                == "Number of rows and columns of both matrices must be equal"@,
            self is IncompatibleShapeForProduct ==> text@
                == "Number of columns of first matrix must be equal to number of rows of second matrix"@,
    {
        match self {
            MatrixError::DimensionMismatch { .. } => {
                "Number of rows and columns of both matrices must be equal"
            },
            MatrixError::IncompatibleShapeForProduct { .. } => {
                "Number of columns of first matrix must be equal to number of rows of second matrix"
            },
        }
    }
}

} // verus!
