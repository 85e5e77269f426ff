//! The matrix type and its operations.
use core::ops::{Add, Mul, Sub};
use vstd::prelude::*;
use crate::error::MatrixError;
use crate::grid::{
    cellwise_defined, dot_defined, is_cell_product, is_cellwise, is_difference, is_dot,
    is_filled_by, is_mapped, is_product, is_sum, is_zero, product_defined, Grid,
};

verus! {

/// A dense matrix in row-major layout: `data[i][j]` is the element at row
/// `i`, column `j`.
#[derive(Debug, Clone)]
pub struct Matrix<T> {
    pub rows: usize,
    pub cols: usize,
    pub data: Vec<Vec<T>>,
}

impl<T> View for Matrix<T> {
    type V = Grid<T>;

    open spec fn view(&self) -> Grid<T> {
        Grid {
            rows: self.rows as nat,
            cols: self.cols as nat,
            cells: Seq::new(self.data@.len(), |i: int| self.data@[i]@),
        }
    }
}

impl<T: Copy> Matrix<T> {
    /// The fields agree: `data` holds `rows` rows of `cols` elements each.
    pub open spec fn wf(&self) -> bool {
        self@.wf()
    }

    /// Wraps a rectangular grid of elements. The row count is the number of
    /// rows given and the column count is the length of the first row.
    ///
    /// The grid must have at least one row, and all rows must be as long as
    /// the first. This is not checked: it is the caller's part of the
    /// contract.
    pub fn from(data: Vec<Vec<T>>) -> (m: Matrix<T>)
        requires
            data@.len() > 0,
            forall|i: int| 0 <= i < data@.len() ==> (#[trigger] data@[i])@.len() == data@[0]@.len(),
        ensures
            m.wf(),
            m.rows == data@.len(),
            m.cols == data@[0]@.len(),
            m.data == data,
    {
        let rows = data.len();
        let cols = data[0].len();
        Matrix { rows, cols, data }
    }

    /// A matrix of the given dimensions in which every element is zero, the
    /// element type's default value. Either dimension may be 0.
    pub fn zeros(rows: usize, cols: usize) -> (m: Matrix<T>) where T: Default
        ensures
            m.wf(),
            m.rows == rows,
            m.cols == cols,
            forall|i: int, j: int| m@.has(i, j) ==> is_zero(#[trigger] m@.cells[i][j]),
    {
        Self::fill(rows, cols, T::default)
    }

    /// A matrix of the given dimensions in which every element is one draw:
    /// the value of one call of `draw`. The draws are made row by row, and
    /// from left to right within a row.
    pub fn random<F: Fn() -> T>(rows: usize, cols: usize, draw: F) -> (m: Matrix<T>)
        requires
            call_requires(draw, ()),
        ensures
            m.wf(),
            m.rows == rows,
            m.cols == cols,
            is_filled_by(draw, rows as nat, cols as nat, m@),
    {
        Self::fill(rows, cols, draw)
    }

    /// Builds a matrix of the given dimensions from one call of `draw` for
    /// each element, in row-major order.
    fn fill<F: Fn() -> T>(rows: usize, cols: usize, draw: F) -> (m: Matrix<T>)
        requires
            call_requires(draw, ()),
        ensures
            m.rows == rows,
            m.cols == cols,
            is_filled_by(draw, rows as nat, cols as nat, m@),
    {
        let mut data: Vec<Vec<T>> = Vec::new();
        let mut i: usize = 0;
        while i < rows
            invariant
                i <= rows,
                data@.len() == i,
                call_requires(draw, ()),
                forall|r: int| 0 <= r < i ==> (#[trigger] data@[r])@.len() == cols,
                forall|r: int, c: int|
                    0 <= r < i && 0 <= c < cols ==> call_ensures(draw, (), #[trigger] data@[r]@[c]),
            decreases rows - i,
        {
            let mut row: Vec<T> = Vec::new();
            let mut j: usize = 0;
            while j < cols
                invariant
                    j <= cols,
                    row@.len() == j,
                    call_requires(draw, ()),
                    forall|c: int| 0 <= c < j ==> call_ensures(draw, (), #[trigger] row@[c]),
                decreases cols - j,
            {
                row.push(draw());
                j += 1;
            }
            data.push(row);
            i += 1;
        }
        Matrix { rows, cols, data }
    }

    /// The matrix product of `m1` and `m2`. Element `(i, j)` of the result is
    /// the sum over `k` of `m1[i][k] * m2[k][j]`, added up from zero with `k`
    /// ascending.
    ///
    /// Fails with [`MatrixError::IncompatibleShapeForProduct`] exactly when
    /// `m1` has not as many columns as `m2` has rows.
    ///
    /// Where the shapes agree, every multiplication and addition that the
    /// product makes must be one that the element type allows. For integers
    /// that means that none overflows; [`crate::exact`] has the lemmas by
    /// which a caller shows it.
    pub fn multiply(m1: &Matrix<T>, m2: &Matrix<T>) -> (res: Result<Matrix<T>, MatrixError>) where
        T: Default + Add<Output = T> + Mul<Output = T>,

        requires
            m1.wf(),
            m2.wf(),
            m1.cols == m2.rows ==> product_defined(m1@, m2@),
        ensures
            match res {
                Ok(m) => m.wf() && m1.cols == m2.rows && is_product(m1@, m2@, m@),
                Err(e) => m1.cols != m2.rows && e == (MatrixError::IncompatibleShapeForProduct {
                    left_cols: m1.cols,
                    right_rows: m2.rows,
                }),
            },
    {
        if m1.cols != m2.rows {
            return Err(
                MatrixError::IncompatibleShapeForProduct {
                    left_cols: m1.cols,
                    right_rows: m2.rows,
                },
            );
        }
        let mut data: Vec<Vec<T>> = Vec::new();
        let mut i: usize = 0;
        while i < m1.rows
            invariant
                i <= m1.rows,
                m1.wf(),
                m2.wf(),
                m1.cols == m2.rows,
                product_defined(m1@, m2@),
                data@.len() == i,
                forall|r: int| 0 <= r < i ==> (#[trigger] data@[r])@.len() == m2.cols,
                forall|r: int, c: int|
                    0 <= r < i && 0 <= c < m2.cols ==> is_dot(
                        m1@.cells[r],
                        m2@.col(c),
                        m1.cols as int,
                        #[trigger] data@[r]@[c],
                    ),
            decreases m1.rows - i,
        {
            let mut row: Vec<T> = Vec::new();
            let mut j: usize = 0;
            while j < m2.cols
                invariant
                    i < m1.rows,
                    j <= m2.cols,
                    m1.wf(),
                    m2.wf(),
                    m1.cols == m2.rows,
                    product_defined(m1@, m2@),
                    row@.len() == j,
                    forall|c: int|
                        0 <= c < j ==> is_dot(
                            m1@.cells[i as int],
                            m2@.col(c),
                            m1.cols as int,
                            #[trigger] row@[c],
                        ),
                decreases m2.cols - j,
            {
                row.push(Self::dot(m1, m2, i, j));
                j += 1;
            }
            data.push(row);
            i += 1;
        }
        Ok(Matrix { rows: m1.rows, cols: m2.cols, data })
    }

    /// Row `i` of `m1` times column `j` of `m2`.
    fn dot(m1: &Matrix<T>, m2: &Matrix<T>, i: usize, j: usize) -> (acc: T) where
        T: Default + Add<Output = T> + Mul<Output = T>,

        requires
            m1.wf(),
            m2.wf(),
            m1.cols == m2.rows,
            i < m1.rows,
            j < m2.cols,
            dot_defined(m1@.cells[i as int], m2@.col(j as int), m1.cols as int),
        ensures
            is_dot(m1@.cells[i as int], m2@.col(j as int), m1.cols as int, acc),
    {
        let ghost a = m1@.cells[i as int];
        let ghost b = m2@.col(j as int);
        let mut acc = T::default();
        let mut k: usize = 0;
        while k < m1.cols
            invariant
                k <= m1.cols,
                m1.wf(),
                m2.wf(),
                m1.cols == m2.rows,
                i < m1.rows,
                j < m2.cols,
                a == m1@.cells[i as int],
                b == m2@.col(j as int),
                dot_defined(a, b, m1.cols as int),
                is_dot(a, b, k as int, acc),
            decreases m1.cols - k,
        {
            let term = m1.data[i][k] * m2.data[k][j];
            acc = acc + term;
            k += 1;
        }
        acc
    }

    /// The sum of two matrices of the same shape, element by element.
    ///
    /// Fails with [`MatrixError::DimensionMismatch`] exactly when the shapes
    /// differ.
    pub fn add(m1: &Matrix<T>, m2: &Matrix<T>) -> (res: Result<Matrix<T>, MatrixError>) where
        T: Add<Output = T>,

        requires
            m1.wf(),
            m2.wf(),
            m1@.same_shape(m2@) ==> cellwise_defined(T::add, m1@, m2@),
        ensures
            match res {
                Ok(m) => m.wf() && m1@.same_shape(m2@) && is_sum(m1@, m2@, m@),
                Err(e) => !m1@.same_shape(m2@) && e == Self::mismatch(m1, m2),
            },
    {
        Self::zip_with(m1, m2, T::add)
    }

    /// The difference of two matrices of the same shape, element by element.
    ///
    /// Fails with [`MatrixError::DimensionMismatch`] exactly when the shapes
    /// differ.
    pub fn subtract(m1: &Matrix<T>, m2: &Matrix<T>) -> (res: Result<Matrix<T>, MatrixError>) where
        T: Sub<Output = T>,

        requires
            m1.wf(),
            m2.wf(),
            m1@.same_shape(m2@) ==> cellwise_defined(T::sub, m1@, m2@),
        ensures
            match res {
                Ok(m) => m.wf() && m1@.same_shape(m2@) && is_difference(m1@, m2@, m@),
                Err(e) => !m1@.same_shape(m2@) && e == Self::mismatch(m1, m2),
            },
    {
        Self::zip_with(m1, m2, T::sub)
    }

    /// The product of two matrices of the same shape, element by element.
    ///
    /// Fails with [`MatrixError::DimensionMismatch`] exactly when the shapes
    /// differ.
    pub fn dot_multiply(m1: &Matrix<T>, m2: &Matrix<T>) -> (res: Result<
        Matrix<T>,
        MatrixError,
    >) where T: Mul<Output = T>
        requires
            m1.wf(),
            m2.wf(),
            m1@.same_shape(m2@) ==> cellwise_defined(T::mul, m1@, m2@),
        ensures
            match res {
                Ok(m) => m.wf() && m1@.same_shape(m2@) && is_cell_product(m1@, m2@, m@),
                Err(e) => !m1@.same_shape(m2@) && e == Self::mismatch(m1, m2),
            },
    {
        Self::zip_with(m1, m2, T::mul)
    }

    /// The error that a cell-by-cell operation on `m1` and `m2` reports when
    /// their shapes differ.
    pub open spec fn mismatch(m1: &Matrix<T>, m2: &Matrix<T>) -> MatrixError {
        MatrixError::DimensionMismatch {
            left_rows: m1.rows,
            left_cols: m1.cols,
            right_rows: m2.rows,
            right_cols: m2.cols,
        }
    }

    /// Combines two matrices of the same shape with `op`, element by element.
    fn zip_with<F: Fn(T, T) -> T>(m1: &Matrix<T>, m2: &Matrix<T>, op: F) -> (res: Result<
        Matrix<T>,
        MatrixError,
    >)
        requires
            m1.wf(),
            m2.wf(),
            m1@.same_shape(m2@) ==> cellwise_defined(op, m1@, m2@),
        ensures
            match res {
                Ok(m) => m1@.same_shape(m2@) && is_cellwise(op, m1@, m2@, m@),
                Err(e) => !m1@.same_shape(m2@) && e == Self::mismatch(m1, m2),
            },
    {
        if m1.rows != m2.rows || m1.cols != m2.cols {
            return Err(
                MatrixError::DimensionMismatch {
                    left_rows: m1.rows,
                    left_cols: m1.cols,
                    right_rows: m2.rows,
                    right_cols: m2.cols,
                },
            );
        }
        let mut data: Vec<Vec<T>> = Vec::new();
        let mut i: usize = 0;
        while i < m1.rows
            invariant
                i <= m1.rows,
                m1.wf(),
                m2.wf(),
                m1@.same_shape(m2@),
                cellwise_defined(op, m1@, m2@),
                data@.len() == i,
                forall|r: int| 0 <= r < i ==> (#[trigger] data@[r])@.len() == m1.cols,
                forall|r: int, c: int|
                    0 <= r < i && 0 <= c < m1.cols ==> call_ensures(
                        op,
                        (m1@.cells[r][c], m2@.cells[r][c]),
                        #[trigger] data@[r]@[c],
                    ),
            decreases m1.rows - i,
        {
            let mut row: Vec<T> = Vec::new();
            let mut j: usize = 0;
            while j < m1.cols
                invariant
                    i < m1.rows,
                    j <= m1.cols,
                    m1.wf(),
                    m2.wf(),
                    m1@.same_shape(m2@),
                    cellwise_defined(op, m1@, m2@),
                    row@.len() == j,
                    forall|c: int|
                        0 <= c < j ==> call_ensures(
                            op,
                            (m1@.cells[i as int][c], m2@.cells[i as int][c]),
                            #[trigger] row@[c],
                        ),
                decreases m1.cols - j,
            {
                assert(m1@.cells[i as int] == m1.data@[i as int]@);
                row.push(op(m1.data[i][j], m2.data[i][j]));
                j += 1;
            }
            data.push(row);
            i += 1;
        }
        Ok(Matrix { rows: m1.rows, cols: m1.cols, data })
    }

    /// Applies `func` to every element. The result has the shape of `self`,
    /// and `self` is left as it was.
    pub fn map<F: Fn(T) -> T>(&mut self, func: F) -> (m: Matrix<T>)
        requires
            old(self).wf(),
            forall|i: int, j: int|
                old(self)@.has(i, j) ==> call_requires(func, (#[trigger] old(self)@.cells[i][j],)),
        ensures
            *final(self) == *old(self),
            m.wf(),
            is_mapped(func, old(self)@, m@),
    {
        let mut data: Vec<Vec<T>> = Vec::new();
        let mut i: usize = 0;
        while i < self.rows
            invariant
                i <= self.rows,
                *self == *old(self),
                self.wf(),
                forall|r: int, c: int|
                    self@.has(r, c) ==> call_requires(func, (#[trigger] self@.cells[r][c],)),
                data@.len() == i,
                forall|r: int| 0 <= r < i ==> (#[trigger] data@[r])@.len() == self.cols,
                forall|r: int, c: int|
                    0 <= r < i && 0 <= c < self.cols ==> call_ensures(
                        func,
                        (self@.cells[r][c],),
                        #[trigger] data@[r]@[c],
                    ),
            decreases self.rows - i,
        {
            let mut row: Vec<T> = Vec::new();
            let mut j: usize = 0;
            while j < self.cols
                invariant
                    i < self.rows,
                    j <= self.cols,
                    *self == *old(self),
                    self.wf(),
                    forall|r: int, c: int|
                        self@.has(r, c) ==> call_requires(func, (#[trigger] self@.cells[r][c],)),
                    row@.len() == j,
                    forall|c: int|
                        0 <= c < j ==> call_ensures(
                            func,
                            (self@.cells[i as int][c],),
                            #[trigger] row@[c],
                        ),
                decreases self.cols - j,
            {
                assert(self@.cells[i as int] == self.data@[i as int]@);
                row.push(func(self.data[i][j]));
                j += 1;
            }
            data.push(row);
            i += 1;
        }
        Matrix { rows: self.rows, cols: self.cols, data }
    }

    /// The matrix with rows and columns exchanged: element `(j, i)` of the
    /// result is element `(i, j)` of `self`.
    pub fn transpose(&self) -> (m: Matrix<T>)
        requires
            self.wf(),
        ensures
            m.wf(),
            m@ == self@.transpose(),
    {
        let mut data: Vec<Vec<T>> = Vec::new();
        let mut j: usize = 0;
        while j < self.cols
            invariant
                j <= self.cols,
                self.wf(),
                data@.len() == j,
                forall|c: int| 0 <= c < j ==> (#[trigger] data@[c])@.len() == self.rows,
                forall|c: int, r: int|
                    0 <= c < j && 0 <= r < self.rows ==> #[trigger] data@[c]@[r]
                        == self.data@[r]@[c],
            decreases self.cols - j,
        {
            let mut column: Vec<T> = Vec::new();
            let mut i: usize = 0;
            while i < self.rows
                invariant
                    i <= self.rows,
                    j < self.cols,
                    self.wf(),
                    column@.len() == i,
                    forall|r: int| 0 <= r < i ==> #[trigger] column@[r] == self.data@[r]@[j as int],
                decreases self.rows - i,
            {
                assert(self@.cells[i as int] == self.data@[i as int]@);
                column.push(self.data[i][j]);
                i += 1;
            }
            data.push(column);
            j += 1;
        }
        let m = Matrix { rows: self.cols, cols: self.rows, data };
        assert(m@.cells =~~= self@.transpose().cells);
        m
    }
}

} // verus!
