//! The mathematical content of a matrix, and what it means for one grid to be
//! the result of an operation on others.
//!
//! Elements are combined only by the operators of the element type, and the
//! relations speak of an operator through its own contract:
//! `call_requires(op, (x, y))` says that `op` may be called on `x` and `y`,
//! and `call_ensures(op, (x, y), r)` says that `r` is a value that this call
//! may return. Where the operator is a function of its operands, as it is for
//! the primitive integer types, that is one value.
use core::ops::{Add, Mul, Sub};
use vstd::prelude::*;

verus! {

/// A grid of values with its dimensions.
///
/// The dimensions are kept beside the cells because the cells alone do not
/// determine them: a grid without rows may still have any number of columns.
pub struct Grid<T> {
    pub rows: nat,
    pub cols: nat,
    pub cells: Seq<Seq<T>>,
}

impl<T> Grid<T> {
    /// The grid is rectangular: `rows` rows of `cols` cells each.
    pub open spec fn wf(self) -> bool {
        &&& self.cells.len() == self.rows
        &&& forall|i: int| 0 <= i < self.rows ==> (#[trigger] self.cells[i]).len() == self.cols
    }

    /// Whether `(i, j)` names a cell of the grid.
    pub open spec fn has(self, i: int, j: int) -> bool {
        0 <= i < self.rows && 0 <= j < self.cols
    }

    /// Whether `other` has the same number of rows and of columns.
    pub open spec fn same_shape(self, other: Grid<T>) -> bool {
        self.rows == other.rows && self.cols == other.cols
    }

    /// Column `j`, read from the first row to the last.
    pub open spec fn col(self, j: int) -> Seq<T> {
        Seq::new(self.rows, |i: int| self.cells[i][j])
    }

    /// The grid with rows and columns exchanged.
    pub open spec fn transpose(self) -> Grid<T> {
        Grid { rows: self.cols, cols: self.rows, cells: Seq::new(self.cols, |j: int| self.col(j)) }
    }
}

/// `x` is a value that the element type's `default` may return. For every
/// primitive number type that is its zero.
pub open spec fn is_zero<T: Default>(x: T) -> bool {
    call_ensures(T::default, (), x)
}

/// `r` has the given dimensions, and each of its cells is a value that a call
/// of `draw` may return.
pub open spec fn is_filled_by<T, F: Fn() -> T>(draw: F, rows: nat, cols: nat, r: Grid<T>) -> bool {
    &&& r.wf()
    &&& r.rows == rows
    &&& r.cols == cols
    &&& forall|i: int, j: int| r.has(i, j) ==> call_ensures(draw, (), #[trigger] r.cells[i][j])
}

/// `op` may be called on each pair of cells that lie at the same place in
/// `a` and in `b`.
pub open spec fn cellwise_defined<T, F: Fn(T, T) -> T>(op: F, a: Grid<T>, b: Grid<T>) -> bool {
    forall|i: int, j: int|
        a.has(i, j) ==> call_requires(op, (#[trigger] a.cells[i][j], b.cells[i][j]))
}

/// `r` has the shape of `a`, and each of its cells is a value that `op` may
/// return for the cells at the same place in `a` and in `b`.
pub open spec fn is_cellwise<T, F: Fn(T, T) -> T>(op: F, a: Grid<T>, b: Grid<T>, r: Grid<T>) -> bool {
    &&& r.wf()
    &&& r.same_shape(a)
    &&& forall|i: int, j: int|
        a.has(i, j) ==> call_ensures(op, (a.cells[i][j], b.cells[i][j]), #[trigger] r.cells[i][j])
}

/// `r` is `a + b`, cell by cell.
pub open spec fn is_sum<T: Add<Output = T>>(a: Grid<T>, b: Grid<T>, r: Grid<T>) -> bool {
    is_cellwise(T::add, a, b, r)
}

/// `r` is `a - b`, cell by cell.
pub open spec fn is_difference<T: Sub<Output = T>>(a: Grid<T>, b: Grid<T>, r: Grid<T>) -> bool {
    is_cellwise(T::sub, a, b, r)
}

/// `r` is `a * b`, cell by cell.
pub open spec fn is_cell_product<T: Mul<Output = T>>(a: Grid<T>, b: Grid<T>, r: Grid<T>) -> bool {
    is_cellwise(T::mul, a, b, r)
}

/// `r` has the shape of `a`, and each of its cells is a value that `f` may
/// return for the cell at the same place in `a`.
pub open spec fn is_mapped<T, F: Fn(T) -> T>(f: F, a: Grid<T>, r: Grid<T>) -> bool {
    &&& r.wf()
    &&& r.same_shape(a)
    &&& forall|i: int, j: int|
        a.has(i, j) ==> call_ensures(f, (a.cells[i][j],), #[trigger] r.cells[i][j])
}

/// `acc` is a value that may come of adding up the first `n` products
/// `a[k] * b[k]`, starting from zero and taking `k` in ascending order.
pub open spec fn is_dot<T: Default + Add<Output = T> + Mul<Output = T>>(
    a: Seq<T>,
    b: Seq<T>,
    n: int,
    acc: T,
) -> bool
    decreases n,
{
    if n <= 0 {
        is_zero(acc)
    } else {
        exists|prev: T, term: T|
            {
                &&& is_dot(a, b, n - 1, prev)
                &&& call_ensures(T::mul, (a[n - 1], b[n - 1]), term)
                &&& #[trigger] call_ensures(T::add, (prev, term), acc)
            }
    }
}

/// Every multiplication and every addition that adding up the first `n`
/// products `a[k] * b[k]` makes is one that the element type allows.
pub open spec fn dot_defined<T: Default + Add<Output = T> + Mul<Output = T>>(
    a: Seq<T>,
    b: Seq<T>,
    n: int,
) -> bool {
    &&& forall|k: int| 0 <= k < n ==> call_requires(T::mul, (#[trigger] a[k], b[k]))
    &&& forall|k: int, prev: T, term: T|
        #![trigger is_dot(a, b, k, prev), call_ensures(T::mul, (a[k], b[k]), term)]
        0 <= k < n && is_dot(a, b, k, prev) && call_ensures(T::mul, (a[k], b[k]), term)
            ==> call_requires(T::add, (prev, term))
}

/// The element type allows every operation that the product of `a` and `b`
/// makes.
pub open spec fn product_defined<T: Default + Add<Output = T> + Mul<Output = T>>(
    a: Grid<T>,
    b: Grid<T>,
) -> bool {
    forall|i: int, j: int|
        0 <= i < a.rows && 0 <= j < b.cols ==> #[trigger] dot_defined(
            a.cells[i],
            b.col(j),
            a.cols as int,
        )
}

/// `r` is the matrix product of `a` and `b`: `a` has as many columns as `b`
/// has rows, `r` has the rows of `a` and the columns of `b`, and its cell
/// `(i, j)` is row `i` of `a` times column `j` of `b`, added up in ascending
/// order.
pub open spec fn is_product<T: Default + Add<Output = T> + Mul<Output = T>>(
    a: Grid<T>,
    b: Grid<T>,
    r: Grid<T>,
) -> bool {
    &&& a.cols == b.rows
    &&& r.wf()
    &&& r.rows == a.rows
    &&& r.cols == b.cols
    &&& forall|i: int, j: int|
        r.has(i, j) ==> is_dot(a.cells[i], b.col(j), a.cols as int, #[trigger] r.cells[i][j])
}

} // verus!
