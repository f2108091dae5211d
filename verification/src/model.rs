//! The mathematical model: matrices are grids of unbounded integers
//! (`Seq<Seq<int>>`, row-major), vectors are integer sequences. The executable
//! types in `matrix`, `vec2`, `vec3` and `vec4` state their contracts against
//! these functions, and `laws` proves the algebraic laws over them.

use vstd::prelude::*;

verus! {

/// Whether a mathematical integer fits in the executable scalar type.
pub open spec fn in_i64(x: int) -> bool {
    i64::MIN <= x <= i64::MAX
}

/// The grid of mathematical integers held by a row-major store of scalars.
pub open spec fn grid_view(rows: Seq<Vec<i64>>) -> Seq<Seq<int>> {
    rows.map_values(|row: Vec<i64>| row@.map_values(|x: i64| x as int))
}

/// How `grid_view` reads a single stored row.
pub proof fn lemma_grid_view_index(rows: Seq<Vec<i64>>, i: int)
    requires
        0 <= i < rows.len(),
    ensures
        grid_view(rows).len() == rows.len(),
        grid_view(rows)[i].len() == rows[i]@.len(),
        forall|j: int| 0 <= j < rows[i]@.len() ==> #[trigger] grid_view(rows)[i][j] == rows[i]@[j],
{
}

/// `grid_view` keeps the number of rows.
pub proof fn lemma_grid_view_len(rows: Seq<Vec<i64>>)
    ensures
        grid_view(rows).len() == rows.len(),
{
}

/// A well-formed `r` by `c` grid: `r` rows, each of `c` entries.
pub open spec fn is_grid(g: Seq<Seq<int>>, r: nat, c: nat) -> bool {
    g.len() == r && forall|i: int| 0 <= i < r ==> (#[trigger] g[i]).len() == c
}

/// Sum of the first `k` pairwise products of `a` and `b`, accumulated in
/// increasing index order starting from zero.
pub open spec fn dot_prefix(a: Seq<int>, b: Seq<int>, k: nat) -> int
    decreases k,
{
    if k == 0 {
        0
    } else {
        dot_prefix(a, b, (k - 1) as nat) + a[k - 1] * b[k - 1]
    }
}

/// Dot product: the sum of all pairwise products of `a` and `b`.
pub open spec fn spec_dot(a: Seq<int>, b: Seq<int>) -> int {
    dot_prefix(a, b, a.len())
}

/// Every pairwise product of `a` and `b`, and every partial sum of the dot
/// product taken in increasing index order, fits in the scalar type.
pub open spec fn dot_fits(a: Seq<int>, b: Seq<int>) -> bool {
    forall|k: nat|
        0 < k <= a.len() ==> in_i64(a[k - 1] * b[k - 1]) && in_i64(#[trigger] dot_prefix(a, b, k))
}

/// Column `j` of a grid, read from top to bottom.
pub open spec fn grid_col(g: Seq<Seq<int>>, j: int) -> Seq<int> {
    Seq::new(g.len(), |k: int| g[k][j])
}

/// The matrix product of `a` and `b`, where `b` has `cols` columns: entry
/// `(i, j)` is the dot product of row `i` of `a` with column `j` of `b`.
pub open spec fn spec_mul(a: Seq<Seq<int>>, b: Seq<Seq<int>>, cols: nat) -> Seq<Seq<int>> {
    Seq::new(a.len(), |i: int| Seq::new(cols, |j: int| spec_dot(a[i], grid_col(b, j))))
}

/// Every output cell of `spec_mul(a, b, cols)` can be accumulated without
/// leaving the scalar range.
pub open spec fn mul_fits(a: Seq<Seq<int>>, b: Seq<Seq<int>>, cols: nat) -> bool {
    forall|i: int, j: int|
        0 <= i < a.len() && 0 <= j < cols ==> #[trigger] dot_fits(a[i], grid_col(b, j))
}

/// Elementwise sum, over the shape of `a`.
pub open spec fn spec_add(a: Seq<Seq<int>>, b: Seq<Seq<int>>) -> Seq<Seq<int>> {
    Seq::new(a.len(), |i: int| Seq::new(a[i].len(), |j: int| a[i][j] + b[i][j]))
}

/// Elementwise difference, over the shape of `a`.
pub open spec fn spec_sub(a: Seq<Seq<int>>, b: Seq<Seq<int>>) -> Seq<Seq<int>> {
    Seq::new(a.len(), |i: int| Seq::new(a[i].len(), |j: int| a[i][j] - b[i][j]))
}

/// Elementwise negation.
pub open spec fn spec_neg(a: Seq<Seq<int>>) -> Seq<Seq<int>> {
    Seq::new(a.len(), |i: int| Seq::new(a[i].len(), |j: int| -a[i][j]))
}

/// Every elementwise sum of `a` and `b` fits in the scalar type.
pub open spec fn sum_fits(a: Seq<Seq<int>>, b: Seq<Seq<int>>) -> bool {
    forall|i: int, j: int|
        0 <= i < a.len() && 0 <= j < a[i].len() ==> in_i64((#[trigger] a[i][j]) + b[i][j])
}

/// Every elementwise difference of `a` and `b` fits in the scalar type.
pub open spec fn diff_fits(a: Seq<Seq<int>>, b: Seq<Seq<int>>) -> bool {
    forall|i: int, j: int|
        0 <= i < a.len() && 0 <= j < a[i].len() ==> in_i64((#[trigger] a[i][j]) - b[i][j])
}

/// Every negated entry of `a` fits in the scalar type.
pub open spec fn neg_fits(a: Seq<Seq<int>>) -> bool {
    forall|i: int, j: int|
        0 <= i < a.len() && 0 <= j < a[i].len() ==> in_i64(-(#[trigger] a[i][j]))
}

/// An `r` by `c` grid with `v` in every cell.
pub open spec fn spec_fill(v: int, r: nat, c: nat) -> Seq<Seq<int>> {
    Seq::new(r, |i: int| Seq::new(c, |j: int| v))
}

/// An `n` by `n` grid with `v` on the main diagonal and zero elsewhere.
pub open spec fn spec_diagonal(v: int, n: nat) -> Seq<Seq<int>> {
    Seq::new(n, |i: int| Seq::new(n, |j: int| if i == j { v } else { 0 }))
}

/// The `n` by `n` identity: one on the main diagonal, zero elsewhere.
pub open spec fn spec_identity(n: nat) -> Seq<Seq<int>> {
    spec_diagonal(1, n)
}

/// The single-column grid whose rows are the components of `v` in order.
pub open spec fn col_of(v: Seq<int>) -> Seq<Seq<int>> {
    Seq::new(v.len(), |i: int| seq![v[i]])
}

/// Elementwise negation of a vector.
pub open spec fn vec_neg(v: Seq<int>) -> Seq<int> {
    Seq::new(v.len(), |k: int| -v[k])
}

/// The cross product of two three-component vectors.
pub open spec fn spec_cross(a: Seq<int>, b: Seq<int>) -> Seq<int> {
    seq![
        a[1] * b[2] - b[1] * a[2],
        b[0] * a[2] - a[0] * b[2],
        a[0] * b[1] - b[0] * a[1],
    ]
}

} // verus!
