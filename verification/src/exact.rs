//! Element types with exact arithmetic.
//!
//! The contracts of the operations say of each element of a result that it is
//! a value that the element type's operator may return. For an element type
//! whose operators are functions of their operands, as those of the primitive
//! integer types are, that names one value. This module says which value it
//! is for the matrix product, and when every addition and multiplication that
//! the product makes is allowed.
//!
//! A caller who holds two matrices of `i64`, `a` of one row and two columns
//! and `b` of two rows and one column, shows that their product is defined
//! and learns its one cell like this:
//!
//! ```text
//! proof {
//!     reveal_with_fuel(dot_fits, 3);
//!     reveal_with_fuel(dot_value, 3);
//!     assert(dot_fits(0i64, a@.cells[0], b@.col(0), 2));
//!     lemma_product_defined(0i64, a@, b@);
//! }
//! let m = Matrix::multiply(&a, &b).unwrap();
//! proof {
//!     lemma_product_exact(0i64, a@, b@, m@);
//! }
//! ```
//!
//! For a larger product there is one such `assert` for each of its cells.
use core::ops::{Add, Mul};
use vstd::prelude::*;
use vstd::std_specs::ops::{AddSpec, MulSpec};
use crate::grid::{dot_defined, is_dot, is_product, is_zero, product_defined, Grid};

verus! {

/// The element type's `+` and `*` are functions of their operands, and
/// `zero` is the one value that its `default` returns.
pub open spec fn exact<T: Default + Add<Output = T> + Mul<Output = T>>(zero: T) -> bool {
    &&& T::obeys_add_spec()
    &&& T::obeys_mul_spec()
    &&& forall|z: T| is_zero(z) ==> z == zero
}

/// The sum of the first `n` products `a[k] * b[k]`, added up from `zero` with
/// `k` ascending.
pub open spec fn dot_value<T: Add<Output = T> + Mul<Output = T>>(
    zero: T,
    a: Seq<T>,
    b: Seq<T>,
    n: int,
) -> T
    decreases n,
{
    if n <= 0 {
        zero
    } else {
        dot_value(zero, a, b, n - 1).add_spec(a[n - 1].mul_spec(b[n - 1]))
    }
}

/// The element type allows each of the first `n` multiplications
/// `a[k] * b[k]`, and each addition of such a product to the sum of those
/// before it.
pub open spec fn dot_fits<T: Add<Output = T> + Mul<Output = T>>(
    zero: T,
    a: Seq<T>,
    b: Seq<T>,
    n: int,
) -> bool
    decreases n,
{
    n <= 0 || {
        &&& dot_fits(zero, a, b, n - 1)
        &&& a[n - 1].mul_req(b[n - 1])
        &&& dot_value(zero, a, b, n - 1).add_req(a[n - 1].mul_spec(b[n - 1]))
    }
}

/// What fits up to `n` fits up to each `k` before `n`.
proof fn lemma_dot_fits_at<T: Add<Output = T> + Mul<Output = T>>(
    zero: T,
    a: Seq<T>,
    b: Seq<T>,
    n: int,
    k: int,
)
    requires
        dot_fits(zero, a, b, n),
        0 <= k < n,
    ensures
        a[k].mul_req(b[k]),
        dot_value(zero, a, b, k).add_req(a[k].mul_spec(b[k])),
    decreases n,
{
    if k < n - 1 {
        lemma_dot_fits_at(zero, a, b, n - 1, k);
    }
}

/// With exact arithmetic, adding up the first `n` products can only give
/// `dot_value`.
pub proof fn lemma_dot_exact<T: Default + Add<Output = T> + Mul<Output = T>>(
    zero: T,
    a: Seq<T>,
    b: Seq<T>,
    n: int,
    acc: T,
)
    requires
        exact(zero),
        is_dot(a, b, n, acc),
    ensures
        acc == dot_value(zero, a, b, n),
    decreases n,
{
    if n > 0 {
        let (prev, term) = choose|prev: T, term: T|
            {
                &&& is_dot(a, b, n - 1, prev)
                &&& call_ensures(T::mul, (a[n - 1], b[n - 1]), term)
                &&& #[trigger] call_ensures(T::add, (prev, term), acc)
            };
        lemma_dot_exact(zero, a, b, n - 1, prev);
    }
}

/// With exact arithmetic, each cell of a product is the `dot_value` of its
/// row and column.
pub proof fn lemma_product_exact<T: Default + Add<Output = T> + Mul<Output = T>>(
    zero: T,
    a: Grid<T>,
    b: Grid<T>,
    r: Grid<T>,
)
    requires
        exact(zero),
        is_product(a, b, r),
    ensures
        forall|i: int, j: int|
            r.has(i, j) ==> #[trigger] r.cells[i][j] == dot_value(
                zero,
                a.cells[i],
                b.col(j),
                a.cols as int,
            ),
{
    assert forall|i: int, j: int| r.has(i, j) implies #[trigger] r.cells[i][j] == dot_value(
        zero,
        a.cells[i],
        b.col(j),
        a.cols as int,
    ) by {
        lemma_dot_exact(zero, a.cells[i], b.col(j), a.cols as int, r.cells[i][j]);
    }
}

/// With exact arithmetic, a product is defined where every row of `a` fits
/// with every column of `b`.
pub proof fn lemma_product_defined<T: Default + Add<Output = T> + Mul<Output = T>>(
    zero: T,
    a: Grid<T>,
    b: Grid<T>,
)
    requires
        exact(zero),
        forall|i: int, j: int|
            0 <= i < a.rows && 0 <= j < b.cols ==> #[trigger] dot_fits(
                zero,
                a.cells[i],
                b.col(j),
                a.cols as int,
            ),
    ensures
        product_defined(a, b),
{
    assert forall|i: int, j: int| 0 <= i < a.rows && 0 <= j < b.cols implies #[trigger] dot_defined(
        a.cells[i],
        b.col(j),
        a.cols as int,
    ) by {
        let x = a.cells[i];
        let y = b.col(j);
        let n = a.cols as int;
        assert forall|k: int| 0 <= k < n implies call_requires(T::mul, (#[trigger] x[k], y[k])) by {
            lemma_dot_fits_at(zero, x, y, n, k);
        }
        assert forall|k: int, prev: T, term: T|
            0 <= k < n && is_dot(x, y, k, prev) && call_ensures(
                T::mul,
                (x[k], y[k]),
                term,
            ) implies call_requires(T::add, (prev, term)) by {
            lemma_dot_exact(zero, x, y, k, prev);
            lemma_dot_fits_at(zero, x, y, n, k);
        }
    }
}

} // verus!
