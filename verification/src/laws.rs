//! The algebraic laws of the model: identity and associativity of matrix
//! multiplication, cancellation of elementwise sum and difference, involution
//! of negation, symmetry of the dot product, anti-commutativity of the cross
//! product and its vanishing on parallel vectors, and the vector-to-column
//! round trip.

use crate::model::{
    col_of, dot_prefix, grid_col, is_grid, spec_add, spec_cross, spec_dot, spec_identity,
    spec_mul, spec_neg, spec_sub, vec_neg,
};
use vstd::prelude::*;

verus! {

proof fn lemma_dot_prefix_comm(a: Seq<int>, b: Seq<int>, k: nat)
    requires
        k <= a.len(),
        k <= b.len(),
    ensures
        dot_prefix(a, b, k) == dot_prefix(b, a, k),
    decreases k,
{
    if k > 0 {
        lemma_dot_prefix_comm(a, b, (k - 1) as nat);
        assert(a[k - 1] * b[k - 1] == b[k - 1] * a[k - 1]) by (nonlinear_arith);
    }
}

/// Dot symmetry: the dot product does not depend on the order of its
/// arguments.
pub proof fn lemma_dot_symmetry(a: Seq<int>, b: Seq<int>)
    requires
        a.len() == b.len(),
    ensures
        spec_dot(a, b) == spec_dot(b, a),
{
    lemma_dot_prefix_comm(a, b, a.len());
}

proof fn lemma_dot_prefix_unit(v: Seq<int>, e: Seq<int>, j: int, k: nat)
    requires
        k <= v.len(),
        k <= e.len(),
        0 <= j,
        forall|i: int| 0 <= i < k ==> #[trigger] e[i] == if i == j {
            1int
        } else {
            0int
        },
    ensures
        dot_prefix(v, e, k) == if j < k {
            v[j]
        } else {
            0int
        },
    decreases k,
{
    if k > 0 {
        lemma_dot_prefix_unit(v, e, j, (k - 1) as nat);
    }
}

proof fn lemma_dot_prefix_zero(u: Seq<int>, z: Seq<int>, k: nat)
    requires
        k <= u.len(),
        k <= z.len(),
        forall|i: int| 0 <= i < k ==> #[trigger] z[i] == 0,
    ensures
        dot_prefix(u, z, k) == 0,
    decreases k,
{
    if k > 0 {
        lemma_dot_prefix_zero(u, z, (k - 1) as nat);
    }
}

proof fn lemma_dot_prefix_affine(u: Seq<int>, p: Seq<int>, q: Seq<int>, d: Seq<int>, c: int, k: nat)
    requires
        k <= u.len(),
        k <= p.len(),
        k <= q.len(),
        k <= d.len(),
        forall|i: int| 0 <= i < k ==> #[trigger] q[i] == p[i] + d[i] * c,
    ensures
        dot_prefix(u, q, k) == dot_prefix(u, p, k) + dot_prefix(u, d, k) * c,
    decreases k,
{
    if k > 0 {
        lemma_dot_prefix_affine(u, p, q, d, c, (k - 1) as nat);
        let pp = dot_prefix(u, p, (k - 1) as nat);
        let dd = dot_prefix(u, d, (k - 1) as nat);
        let uu = u[k - 1];
        let pv = p[k - 1];
        let dv = d[k - 1];
        assert(pp + dd * c + uu * (pv + dv * c) == (pp + uu * pv) + (dd + uu * dv) * c)
            by (nonlinear_arith);
    }
}

proof fn lemma_dot_exchange_prefix(u: Seq<int>, b: Seq<Seq<int>>, w: Seq<int>, kk: nat)
    requires
        is_grid(b, u.len(), w.len()),
        kk <= w.len(),
    ensures
        dot_prefix(Seq::new(w.len(), |k: int| spec_dot(u, grid_col(b, k))), w, kk) == spec_dot(
            u,
            Seq::new(u.len(), |l: int| dot_prefix(b[l], w, kk)),
        ),
    decreases kk,
{
    let g = Seq::new(w.len(), |k: int| spec_dot(u, grid_col(b, k)));
    let h = Seq::new(u.len(), |l: int| dot_prefix(b[l], w, kk));
    if kk == 0 {
        lemma_dot_prefix_zero(u, h, u.len());
    } else {
        lemma_dot_exchange_prefix(u, b, w, (kk - 1) as nat);
        let hprev = Seq::new(u.len(), |l: int| dot_prefix(b[l], w, (kk - 1) as nat));
        let d = grid_col(b, kk - 1);
        let c = w[kk - 1];
        assert forall|l: int| 0 <= l < u.len() implies #[trigger] h[l] == hprev[l] + d[l] * c by {
            assert(b[l].len() == w.len());
        }
        lemma_dot_prefix_affine(u, hprev, h, d, c, u.len());
        assert(g[kk - 1] == spec_dot(u, d));
    }
}

/// Multiplying a square matrix by the identity on the right returns it
/// unchanged.
pub proof fn lemma_mul_identity_right(a: Seq<Seq<int>>, n: nat)
    requires
        is_grid(a, n, n),
    ensures
        spec_mul(a, spec_identity(n), n) == a,
{
    let id = spec_identity(n);
    let prod = spec_mul(a, id, n);
    assert forall|i: int| 0 <= i < n implies #[trigger] prod[i] == a[i] by {
        assert forall|j: int| 0 <= j < n implies #[trigger] prod[i][j] == a[i][j] by {
            let e = grid_col(id, j);
            assert(forall|kk: int| 0 <= kk < n ==> #[trigger] e[kk] == if kk == j {
                1int
            } else {
                0int
            });
            lemma_dot_prefix_unit(a[i], e, j, n);
        }
        assert(prod[i] =~= a[i]);
    }
    assert(prod =~= a);
}

/// Multiplying a square matrix by the identity on the left returns it
/// unchanged.
pub proof fn lemma_mul_identity_left(a: Seq<Seq<int>>, n: nat)
    requires
        is_grid(a, n, n),
    ensures
        spec_mul(spec_identity(n), a, n) == a,
{
    let id = spec_identity(n);
    let prod = spec_mul(id, a, n);
    assert forall|i: int| 0 <= i < n implies #[trigger] prod[i] == a[i] by {
        assert forall|j: int| 0 <= j < n implies #[trigger] prod[i][j] == a[i][j] by {
            let v = grid_col(a, j);
            let e = id[i];
            assert(forall|kk: int| 0 <= kk < n ==> #[trigger] e[kk] == if kk == i {
                1int
            } else {
                0int
            });
            lemma_dot_prefix_comm(e, v, n);
            lemma_dot_prefix_unit(v, e, i, n);
        }
        assert(prod[i] =~= a[i]);
    }
    assert(prod =~= a);
}

/// Adding a matrix and then subtracting it again returns the original.
pub proof fn lemma_add_sub_cancel(a: Seq<Seq<int>>, b: Seq<Seq<int>>, r: nat, c: nat)
    requires
        is_grid(a, r, c),
        is_grid(b, r, c),
    ensures
        spec_sub(spec_add(a, b), b) == a,
{
    let out = spec_sub(spec_add(a, b), b);
    assert forall|i: int| 0 <= i < r implies #[trigger] out[i] == a[i] by {
        assert(out[i] =~= a[i]);
    }
    assert(out =~= a);
}

/// Negating a matrix twice returns the original.
pub proof fn lemma_neg_neg(a: Seq<Seq<int>>, r: nat, c: nat)
    requires
        is_grid(a, r, c),
    ensures
        spec_neg(spec_neg(a)) == a,
{
    let out = spec_neg(spec_neg(a));
    assert forall|i: int| 0 <= i < r implies #[trigger] out[i] == a[i] by {
        assert(out[i] =~= a[i]);
    }
    assert(out =~= a);
}

/// Associativity of matrix multiplication for compatible shapes.
pub proof fn lemma_mul_assoc(
    a: Seq<Seq<int>>,
    b: Seq<Seq<int>>,
    c: Seq<Seq<int>>,
    m: nat,
    n: nat,
    p: nat,
    q: nat,
)
    requires
        is_grid(a, m, n),
        is_grid(b, n, p),
        is_grid(c, p, q),
    ensures
        spec_mul(spec_mul(a, b, p), c, q) == spec_mul(a, spec_mul(b, c, q), q),
{
    let ab = spec_mul(a, b, p);
    let bc = spec_mul(b, c, q);
    let lhs = spec_mul(ab, c, q);
    let rhs = spec_mul(a, bc, q);
    assert forall|i: int| 0 <= i < m implies #[trigger] lhs[i] == rhs[i] by {
        assert forall|j: int| 0 <= j < q implies #[trigger] lhs[i][j] == rhs[i][j] by {
            let u = a[i];
            let w = grid_col(c, j);
            let g = Seq::new(w.len(), |k: int| spec_dot(u, grid_col(b, k)));
            let h = Seq::new(u.len(), |l: int| dot_prefix(b[l], w, w.len()));
            lemma_dot_exchange_prefix(u, b, w, w.len());
            assert(ab[i] =~= g);
            assert(lhs[i][j] == dot_prefix(g, w, g.len()));
            assert(g.len() == w.len());
            assert forall|l: int| 0 <= l < n implies #[trigger] grid_col(bc, j)[l] == h[l] by {
                assert(b[l].len() == p);
            }
            assert(grid_col(bc, j) =~= h);
            assert(rhs[i][j] == spec_dot(u, h));
        }
        assert(lhs[i] =~= rhs[i]);
    }
    assert(lhs =~= rhs);
}

/// Cross anti-commutativity: swapping the arguments negates the result.
pub proof fn lemma_cross_antisymmetry(a: Seq<int>, b: Seq<int>)
    requires
        a.len() == 3,
        b.len() == 3,
    ensures
        spec_cross(a, b) == vec_neg(spec_cross(b, a)),
{
    assert(spec_cross(a, b) =~= vec_neg(spec_cross(b, a)));
}

proof fn lemma_parallel_component(a1: int, a2: int, b1: int, b2: int, s: int, t: int)
    requires
        s != 0 || t != 0,
        s * a1 == t * b1,
        s * a2 == t * b2,
    ensures
        a1 * b2 == b1 * a2,
{
    if s != 0 {
        assert(a1 * b2 == b1 * a2) by (nonlinear_arith)
            requires
                s != 0,
                s * a1 == t * b1,
                s * a2 == t * b2,
        ;
    } else {
        assert(a1 * b2 == b1 * a2) by (nonlinear_arith)
            requires
                t != 0,
                s * a1 == t * b1,
                s * a2 == t * b2,
        ;
    }
}

/// The cross product of parallel vectors is zero: if `s * a == t * b`
/// componentwise for some scalars not both zero (which covers identical,
/// scaled and anti-parallel pairs), the cross product vanishes.
pub proof fn lemma_cross_parallel(a: Seq<int>, b: Seq<int>, s: int, t: int)
    requires
        a.len() == 3,
        b.len() == 3,
        s != 0 || t != 0,
        forall|k: int| 0 <= k < 3 ==> s * #[trigger] a[k] == t * b[k],
    ensures
        spec_cross(a, b) == seq![0int, 0int, 0int],
{
    lemma_parallel_component(a[1], a[2], b[1], b[2], s, t);
    lemma_parallel_component(a[0], a[2], b[0], b[2], s, t);
    lemma_parallel_component(a[0], a[1], b[0], b[1], s, t);
    assert(spec_cross(a, b) =~= seq![0int, 0int, 0int]);
}

/// Vector-to-column-matrix round trip: the single column of `col_of(v)`
/// holds exactly the components of `v`, in order.
pub proof fn lemma_col_roundtrip(v: Seq<int>)
    ensures
        grid_col(col_of(v), 0) == v,
{
    assert(grid_col(col_of(v), 0) =~= v);
}

} // verus!
