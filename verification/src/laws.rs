//! Laws that relate the operations to one another.
//!
//! Each law is stated over grids and over the relations that the contracts of
//! the operations use, so it holds of whatever those operations return.
use core::ops::{Add, Mul, Sub};
use vstd::prelude::*;
use crate::grid::{is_difference, is_dot, is_product, is_sum, is_zero, Grid};

verus! {

/// Transposing keeps a grid rectangular, and exchanges its dimensions.
pub proof fn lemma_transpose_wf<T>(g: Grid<T>)
    requires
        g.wf(),
    ensures
        g.transpose().wf(),
        g.transpose().rows == g.cols,
        g.transpose().cols == g.rows,
{
}

/// Transposing twice gives the grid back, exactly.
pub proof fn lemma_transpose_involution<T>(g: Grid<T>)
    requires
        g.wf(),
    ensures
        g.transpose().transpose() == g,
{
    assert(g.transpose().transpose().cells =~~= g.cells);
}

/// A product of three grids has the same shape whichever pair is multiplied
/// first: the rows of the first and the columns of the last.
pub proof fn lemma_product_shape_associative<T: Default + Add<Output = T> + Mul<Output = T>>(
    a: Grid<T>,
    b: Grid<T>,
    c: Grid<T>,
    ab: Grid<T>,
    bc: Grid<T>,
    left: Grid<T>,
    right: Grid<T>,
)
    requires
        is_product(a, b, ab),
        is_product(b, c, bc),
        is_product(ab, c, left),
        is_product(a, bc, right),
    ensures
        left.same_shape(right),
        left.rows == a.rows,
        left.cols == c.cols,
{
}

/// Subtracting `b` from the sum of `a` and `b` gives `a` back, wherever the
/// element type's subtraction undoes its addition on the cells concerned.
pub proof fn lemma_subtract_undoes_add<T: Add<Output = T> + Sub<Output = T>>(
    a: Grid<T>,
    b: Grid<T>,
    sum: Grid<T>,
    back: Grid<T>,
)
    requires
        a.wf(),
        is_sum(a, b, sum),
        is_difference(sum, b, back),
        forall|i: int, j: int, s: T, d: T|
            #![trigger
                call_ensures(T::add, (a.cells[i][j], b.cells[i][j]), s),
                call_ensures(T::sub, (s, b.cells[i][j]), d)
            ]
            a.has(i, j) && call_ensures(T::add, (a.cells[i][j], b.cells[i][j]), s) && call_ensures(
                T::sub,
                (s, b.cells[i][j]),
                d,
            ) ==> d == a.cells[i][j],
    ensures
        back == a,
{
    assert forall|i: int, j: int| a.has(i, j) implies back.cells[i][j] == a.cells[i][j] by {
        assert(sum.has(i, j));
    }
    assert(back.cells =~~= a.cells);
}

/// `e` is the identity grid over `zero` and `one`: it is square, with `one`
/// on the diagonal and `zero` everywhere else.
pub open spec fn is_identity<T>(e: Grid<T>, zero: T, one: T) -> bool {
    &&& e.wf()
    &&& e.rows == e.cols
    &&& forall|i: int, j: int|
        e.has(i, j) ==> #[trigger] e.cells[i][j] == if i == j {
            one
        } else {
            zero
        }
}

/// On `x`, the element type's arithmetic treats `zero` and `one` as the
/// numbers 0 and 1: multiplying `x` by `one` gives `x`, multiplying it by
/// `zero` gives `zero`, and adding `zero` on either side gives `x`.
pub open spec fn neutral_on<T: Add<Output = T> + Mul<Output = T>>(zero: T, one: T, x: T) -> bool {
    &&& forall|p: T| #[trigger] call_ensures(T::mul, (x, one), p) ==> p == x
    &&& forall|p: T| #[trigger] call_ensures(T::mul, (x, zero), p) ==> p == zero
    &&& forall|s: T| #[trigger] call_ensures(T::add, (zero, x), s) ==> s == x
    &&& forall|s: T| #[trigger] call_ensures(T::add, (x, zero), s) ==> s == x
}

/// Adding up the first `n` products of a row `a` with a column `b` that
/// holds `one` at `j` and `zero` elsewhere gives `zero` as long as `n` has
/// not passed `j`, and `a[j]` from then on.
proof fn lemma_dot_with_unit_column<T: Default + Add<Output = T> + Mul<Output = T>>(
    a: Seq<T>,
    b: Seq<T>,
    j: int,
    zero: T,
    one: T,
    n: int,
    acc: T,
)
    requires
        0 <= j < a.len(),
        0 <= n <= a.len(),
        a.len() == b.len(),
        forall|k: int| 0 <= k < b.len() ==> #[trigger] b[k] == if k == j {
            one
        } else {
            zero
        },
        forall|z: T| is_zero(z) ==> z == zero,
        forall|s: T| #[trigger] call_ensures(T::add, (zero, zero), s) ==> s == zero,
        forall|k: int| 0 <= k < a.len() ==> neutral_on(zero, one, #[trigger] a[k]),
        is_dot(a, b, n, acc),
    ensures
        acc == if n > j {
            a[j]
        } else {
            zero
        },
    decreases n,
{
    if n > 0 {
        let (prev, term) = choose|prev: T, term: T|
            {
                &&& is_dot(a, b, n - 1, prev)
                &&& call_ensures(T::mul, (a[n - 1], b[n - 1]), term)
                &&& #[trigger] call_ensures(T::add, (prev, term), acc)
            };
        lemma_dot_with_unit_column(a, b, j, zero, one, n - 1, prev);
    }
}

/// Multiplying a grid by the identity grid on the right gives the grid back,
/// wherever the element type has one zero and its arithmetic treats `zero`
/// and `one` as the numbers 0 and 1 on the cells of the grid.
pub proof fn lemma_multiply_identity<T: Default + Add<Output = T> + Mul<Output = T>>(
    m: Grid<T>,
    e: Grid<T>,
    product: Grid<T>,
    zero: T,
    one: T,
)
    requires
        m.wf(),
        is_identity(e, zero, one),
        is_product(m, e, product),
        forall|z: T| is_zero(z) ==> z == zero,
        forall|s: T| #[trigger] call_ensures(T::add, (zero, zero), s) ==> s == zero,
        forall|i: int, j: int| m.has(i, j) ==> neutral_on(zero, one, #[trigger] m.cells[i][j]),
    ensures
        product == m,
{
    assert forall|i: int, j: int| m.has(i, j) implies product.cells[i][j] == m.cells[i][j] by {
        assert(product.has(i, j));
        lemma_dot_with_unit_column(
            m.cells[i],
            e.col(j),
            j,
            zero,
            one,
            m.cols as int,
            product.cells[i][j],
        );
    }
    assert(product.cells =~~= m.cells);
}

} // verus!
