//! The generic matrix type `Mat<R, C>`: a rectangular grid of `R` rows by `C`
//! columns of integer scalars, stored row-major. The row and column counts are
//! const generics, so multiplication is only well-formed when the inner
//! dimensions agree — a shape mismatch is rejected by the type checker, never
//! at runtime.

use crate::model::{
    col_of, diff_fits, dot_fits, dot_prefix, grid_col, grid_view, in_i64, is_grid,
    lemma_grid_view_index, lemma_grid_view_len, mul_fits, neg_fits, spec_add, spec_diagonal,
    spec_dot, spec_fill, spec_identity, spec_mul, spec_neg, spec_sub, sum_fits,
};
use crate::vec2::Vec2;
use crate::vec3::Vec3;
use crate::vec4::Vec4;
use vstd::prelude::*;

verus! {

/// A rectangular matrix of `R` rows by `C` columns of integer scalars.
#[derive(Clone, Debug)]
pub struct Mat<const R: usize, const C: usize> {
    pub rows: Vec<Vec<i64>>,
}

impl<const R: usize, const C: usize> View for Mat<R, C> {
    type V = Seq<Seq<int>>;

    open spec fn view(&self) -> Seq<Seq<int>> {
        grid_view(self.rows@)
    }
}

impl<const R: usize, const C: usize> Mat<R, C> {
    /// Well-formedness: the store really is an `R` by `C` grid.
    pub open spec fn wf(&self) -> bool {
        is_grid(self@, R as nat, C as nat)
    }

    /// Builds a matrix from an explicit row-major grid of elements.
    pub fn new(rows: Vec<Vec<i64>>) -> (m: Mat<R, C>)
        requires
            is_grid(grid_view(rows@), R as nat, C as nat),
        ensures
            m.wf(),
            m@ == grid_view(rows@),
    {
        Mat { rows }
    }

    /// Builds the matrix with `n` in every cell.
    pub fn fill(n: i64) -> (m: Mat<R, C>)
        ensures
            m.wf(),
            m@ == spec_fill(n as int, R as nat, C as nat),
    {
        let mut rows: Vec<Vec<i64>> = Vec::new();
        let mut i: usize = 0;
        while i < R
            invariant
                i <= R,
                rows@.len() == i,
                forall|ii: int| 0 <= ii < i ==> (#[trigger] rows@[ii])@.len() == C,
                forall|ii: int, jj: int|
                    0 <= ii < i && 0 <= jj < C ==> #[trigger] rows@[ii]@[jj] == n,
            decreases R - i,
        {
            let mut row: Vec<i64> = Vec::new();
            let mut j: usize = 0;
            while j < C
                invariant
                    j <= C,
                    row@.len() == j,
                    forall|jj: int| 0 <= jj < j ==> #[trigger] row@[jj] == n,
                decreases C - j,
            {
                row.push(n);
                j += 1;
            }
            rows.push(row);
            i += 1;
        }
        let m = Mat { rows };
        proof {
            let target = spec_fill(n as int, R as nat, C as nat);
            assert forall|ii: int| 0 <= ii < R implies #[trigger] m@[ii] == target[ii] by {
                lemma_grid_view_index(m.rows@, ii);
                assert(m@[ii] =~= target[ii]);
            }
            lemma_grid_view_len(m.rows@);
            assert(m@ =~= target);
        }
        m
    }

    /// Builds the all-zero matrix.
    pub fn zero() -> (m: Mat<R, C>)
        ensures
            m.wf(),
            m@ == spec_fill(0, R as nat, C as nat),
    {
        Self::fill(0)
    }

    /// Reads the element in row `i`, column `j`.
    pub fn at(&self, i: usize, j: usize) -> (v: i64)
        requires
            self.wf(),
            i < R,
            j < C,
        ensures
            v as int == self@[i as int][j as int],
    {
        proof {
            lemma_grid_view_len(self.rows@);
            lemma_grid_view_index(self.rows@, i as int);
        }
        self.rows[i][j]
    }

    /// Writes `v` into the element in row `i`, column `j`.
    pub fn set_at(&mut self, i: usize, j: usize, v: i64)
        requires
            old(self).wf(),
            i < R,
            j < C,
        ensures
            final(self).wf(),
            final(self)@ == old(self)@.update(
                i as int,
                old(self)@[i as int].update(j as int, v as int),
            ),
    {
        proof {
            lemma_grid_view_len(self.rows@);
            lemma_grid_view_index(self.rows@, i as int);
        }
        self.rows[i].set(j, v);
        proof {
            let target = old(self)@.update(
                i as int,
                old(self)@[i as int].update(j as int, v as int),
            );
            lemma_grid_view_len(self.rows@);
            assert forall|ii: int| 0 <= ii < R implies #[trigger] self@[ii] == target[ii] by {
                lemma_grid_view_index(self.rows@, ii);
                lemma_grid_view_index(old(self).rows@, ii);
                assert(self@[ii] =~= target[ii]);
            }
            assert(self@ =~= target);
        }
    }

    /// Elementwise negation; returns a new matrix of the same shape.
    pub fn neg(&self) -> (m: Mat<R, C>)
        requires
            self.wf(),
            neg_fits(self@),
        ensures
            m.wf(),
            m@ == spec_neg(self@),
    {
        let mut rows: Vec<Vec<i64>> = Vec::new();
        let mut i: usize = 0;
        while i < R
            invariant
                i <= R,
                self.wf(),
                neg_fits(self@),
                rows@.len() == i,
                forall|ii: int| 0 <= ii < i ==> (#[trigger] rows@[ii])@.len() == C,
                forall|ii: int, jj: int|
                    0 <= ii < i && 0 <= jj < C ==> #[trigger] rows@[ii]@[jj] == -self@[ii][jj],
            decreases R - i,
        {
            let mut row: Vec<i64> = Vec::new();
            let mut j: usize = 0;
            while j < C
                invariant
                    j <= C,
                    i < R,
                    self.wf(),
                    neg_fits(self@),
                    row@.len() == j,
                    forall|jj: int|
                        0 <= jj < j ==> #[trigger] row@[jj] == -self@[i as int][jj],
                decreases C - j,
            {
                proof {
                    lemma_grid_view_len(self.rows@);
                    lemma_grid_view_index(self.rows@, i as int);
                    assert(in_i64(-self@[i as int][j as int]));
                }
                let v: i64 = -self.rows[i][j];
                row.push(v);
                j += 1;
            }
            rows.push(row);
            i += 1;
        }
        let m = Mat { rows };
        proof {
            let target = spec_neg(self@);
            assert forall|ii: int| 0 <= ii < R implies #[trigger] m@[ii] == target[ii] by {
                lemma_grid_view_index(m.rows@, ii);
                assert(m@[ii] =~= target[ii]);
            }
            lemma_grid_view_len(m.rows@);
            assert(m@ =~= target);
        }
        m
    }

    /// Elementwise sum; returns a new matrix of the same shape.
    pub fn add(&self, rhs: &Mat<R, C>) -> (m: Mat<R, C>)
        requires
            self.wf(),
            rhs.wf(),
            sum_fits(self@, rhs@),
        ensures
            m.wf(),
            m@ == spec_add(self@, rhs@),
    {
        let mut rows: Vec<Vec<i64>> = Vec::new();
        let mut i: usize = 0;
        while i < R
            invariant
                i <= R,
                self.wf(),
                rhs.wf(),
                sum_fits(self@, rhs@),
                rows@.len() == i,
                forall|ii: int| 0 <= ii < i ==> (#[trigger] rows@[ii])@.len() == C,
                forall|ii: int, jj: int|
                    0 <= ii < i && 0 <= jj < C ==> #[trigger] rows@[ii]@[jj] == self@[ii][jj]
                        + rhs@[ii][jj],
            decreases R - i,
        {
            let mut row: Vec<i64> = Vec::new();
            let mut j: usize = 0;
            while j < C
                invariant
                    j <= C,
                    i < R,
                    self.wf(),
                    rhs.wf(),
                    sum_fits(self@, rhs@),
                    row@.len() == j,
                    forall|jj: int|
                        0 <= jj < j ==> #[trigger] row@[jj] == self@[i as int][jj] + rhs@[
                            i as int
                        ][jj],
                decreases C - j,
            {
                proof {
                    lemma_grid_view_len(self.rows@);
                    lemma_grid_view_index(self.rows@, i as int);
                    lemma_grid_view_len(rhs.rows@);
                    lemma_grid_view_index(rhs.rows@, i as int);
                    assert(in_i64(self@[i as int][j as int] + rhs@[i as int][j as int]));
                }
                let v: i64 = self.rows[i][j] + rhs.rows[i][j];
                row.push(v);
                j += 1;
            }
            rows.push(row);
            i += 1;
        }
        let m = Mat { rows };
        proof {
            let target = spec_add(self@, rhs@);
            assert forall|ii: int| 0 <= ii < R implies #[trigger] m@[ii] == target[ii] by {
                lemma_grid_view_index(m.rows@, ii);
                assert(m@[ii] =~= target[ii]);
            }
            lemma_grid_view_len(m.rows@);
            assert(m@ =~= target);
        }
        m
    }

    /// Elementwise difference; returns a new matrix of the same shape.
    pub fn sub(&self, rhs: &Mat<R, C>) -> (m: Mat<R, C>)
        requires
            self.wf(),
            rhs.wf(),
            diff_fits(self@, rhs@),
        ensures
            m.wf(),
            m@ == spec_sub(self@, rhs@),
    {
        let mut rows: Vec<Vec<i64>> = Vec::new();
        let mut i: usize = 0;
        while i < R
            invariant
                i <= R,
                self.wf(),
                rhs.wf(),
                diff_fits(self@, rhs@),
                rows@.len() == i,
                forall|ii: int| 0 <= ii < i ==> (#[trigger] rows@[ii])@.len() == C,
                forall|ii: int, jj: int|
                    0 <= ii < i && 0 <= jj < C ==> #[trigger] rows@[ii]@[jj] == self@[ii][jj]
                        - rhs@[ii][jj],
            decreases R - i,
        {
            let mut row: Vec<i64> = Vec::new();
            let mut j: usize = 0;
            while j < C
                invariant
                    j <= C,
                    i < R,
                    self.wf(),
                    rhs.wf(),
                    diff_fits(self@, rhs@),
                    row@.len() == j,
                    forall|jj: int|
                        0 <= jj < j ==> #[trigger] row@[jj] == self@[i as int][jj] - rhs@[
                            i as int
                        ][jj],
                decreases C - j,
            {
                proof {
                    lemma_grid_view_len(self.rows@);
                    lemma_grid_view_index(self.rows@, i as int);
                    lemma_grid_view_len(rhs.rows@);
                    lemma_grid_view_index(rhs.rows@, i as int);
                    assert(in_i64(self@[i as int][j as int] - rhs@[i as int][j as int]));
                }
                let v: i64 = self.rows[i][j] - rhs.rows[i][j];
                row.push(v);
                j += 1;
            }
            rows.push(row);
            i += 1;
        }
        let m = Mat { rows };
        proof {
            let target = spec_sub(self@, rhs@);
            assert forall|ii: int| 0 <= ii < R implies #[trigger] m@[ii] == target[ii] by {
                lemma_grid_view_index(m.rows@, ii);
                assert(m@[ii] =~= target[ii]);
            }
            lemma_grid_view_len(m.rows@);
            assert(m@ =~= target);
        }
        m
    }

    /// Compound sum: replaces the receiver by `self + rhs`.
    pub fn add_assign(&mut self, rhs: &Mat<R, C>)
        requires
            old(self).wf(),
            rhs.wf(),
            sum_fits(old(self)@, rhs@),
        ensures
            final(self).wf(),
            final(self)@ == spec_add(old(self)@, rhs@),
    {
        let m = self.add(rhs);
        *self = m;
    }

    /// Compound difference: replaces the receiver by `self - rhs`.
    pub fn sub_assign(&mut self, rhs: &Mat<R, C>)
        requires
            old(self).wf(),
            rhs.wf(),
            diff_fits(old(self)@, rhs@),
        ensures
            final(self).wf(),
            final(self)@ == spec_sub(old(self)@, rhs@),
    {
        let m = self.sub(rhs);
        *self = m;
    }

    /// Matrix product. The operand must have exactly `C` rows, so a shape
    /// mismatch does not type-check. Each output cell is accumulated from a
    /// zero start in increasing index order.
    pub fn mul<const K: usize>(&self, rhs: &Mat<C, K>) -> (m: Mat<R, K>)
        requires
            self.wf(),
            rhs.wf(),
            mul_fits(self@, rhs@, K as nat),
        ensures
            m.wf(),
            m@ == spec_mul(self@, rhs@, K as nat),
    {
        let mut rows: Vec<Vec<i64>> = Vec::new();
        let mut i: usize = 0;
        while i < R
            invariant
                i <= R,
                self.wf(),
                rhs.wf(),
                mul_fits(self@, rhs@, K as nat),
                rows@.len() == i,
                forall|ii: int| 0 <= ii < i ==> (#[trigger] rows@[ii])@.len() == K,
                forall|ii: int, jj: int|
                    0 <= ii < i && 0 <= jj < K ==> #[trigger] rows@[ii]@[jj] == spec_dot(
                        self@[ii],
                        grid_col(rhs@, jj),
                    ),
            decreases R - i,
        {
            let mut row: Vec<i64> = Vec::new();
            let mut j: usize = 0;
            while j < K
                invariant
                    j <= K,
                    i < R,
                    self.wf(),
                    rhs.wf(),
                    mul_fits(self@, rhs@, K as nat),
                    row@.len() == j,
                    forall|jj: int|
                        0 <= jj < j ==> #[trigger] row@[jj] == spec_dot(
                            self@[i as int],
                            grid_col(rhs@, jj),
                        ),
                decreases K - j,
            {
                let mut sum: i64 = 0;
                let mut k: usize = 0;
                while k < C
                    invariant
                        k <= C,
                        i < R,
                        j < K,
                        self.wf(),
                        rhs.wf(),
                        mul_fits(self@, rhs@, K as nat),
                        sum as int == dot_prefix(
                            self@[i as int],
                            grid_col(rhs@, j as int),
                            k as nat,
                        ),
                    decreases C - k,
                {
                    proof {
                        lemma_grid_view_len(self.rows@);
                        lemma_grid_view_index(self.rows@, i as int);
                        lemma_grid_view_len(rhs.rows@);
                        lemma_grid_view_index(rhs.rows@, k as int);
                        assert(dot_fits(self@[i as int], grid_col(rhs@, j as int)));
                        assert(in_i64(
                            dot_prefix(self@[i as int], grid_col(rhs@, j as int), (k + 1) as nat),
                        ));
                        assert(grid_col(rhs@, j as int)[k as int] == rhs@[k as int][j as int]);
                    }
                    sum = sum + self.rows[i][k] * rhs.rows[k][j];
                    k += 1;
                }
                proof {
                    assert(self@[i as int].len() == C);
                }
                row.push(sum);
                j += 1;
            }
            rows.push(row);
            i += 1;
        }
        let m = Mat { rows };
        proof {
            let target = spec_mul(self@, rhs@, K as nat);
            assert forall|ii: int| 0 <= ii < R implies #[trigger] m@[ii] == target[ii] by {
                lemma_grid_view_index(m.rows@, ii);
                assert(m@[ii] =~= target[ii]);
            }
            lemma_grid_view_len(m.rows@);
            assert(m@ =~= target);
        }
        m
    }
}

impl<const R: usize> Mat<R, 2> {
    /// Matrix–vector product: converts `v` to its 2-by-1 column form and
    /// multiplies, yielding an `R`-by-1 column matrix.
    pub fn mul_vec2(&self, v: Vec2) -> (m: Mat<R, 1>)
        requires
            self.wf(),
            mul_fits(self@, col_of(v@), 1),
        ensures
            m.wf(),
            m@ == spec_mul(self@, col_of(v@), 1),
    {
        self.mul(&v.to_col())
    }
}

impl<const R: usize> Mat<R, 3> {
    /// Matrix–vector product: converts `v` to its 3-by-1 column form and
    /// multiplies, yielding an `R`-by-1 column matrix.
    pub fn mul_vec3(&self, v: Vec3) -> (m: Mat<R, 1>)
        requires
            self.wf(),
            mul_fits(self@, col_of(v@), 1),
        ensures
            m.wf(),
            m@ == spec_mul(self@, col_of(v@), 1),
    {
        self.mul(&v.to_col())
    }
}

impl<const R: usize> Mat<R, 4> {
    /// Matrix–vector product: converts `v` to its 4-by-1 column form and
    /// multiplies, yielding an `R`-by-1 column matrix.
    pub fn mul_vec4(&self, v: Vec4) -> (m: Mat<R, 1>)
        requires
            self.wf(),
            mul_fits(self@, col_of(v@), 1),
        ensures
            m.wf(),
            m@ == spec_mul(self@, col_of(v@), 1),
    {
        self.mul(&v.to_col())
    }
}

impl<const R: usize, const C: usize> PartialEq for Mat<R, C> {
    /// Exact elementwise structural equality.
    fn eq(&self, other: &Mat<R, C>) -> (r: bool) {
        if self.rows.len() != other.rows.len() {
            proof {
                lemma_grid_view_len(self.rows@);
                lemma_grid_view_len(other.rows@);
            }
            return false;
        }
        let n = self.rows.len();
        let mut i: usize = 0;
        while i < n
            invariant
                i <= n,
                n == self.rows@.len(),
                self.rows@.len() == other.rows@.len(),
                forall|ii: int| 0 <= ii < i ==> #[trigger] self@[ii] == other@[ii],
            decreases n - i,
        {
            proof {
                lemma_grid_view_index(self.rows@, i as int);
                lemma_grid_view_index(other.rows@, i as int);
            }
            if self.rows[i].len() != other.rows[i].len() {
                proof {
                    assert(self@[i as int].len() != other@[i as int].len());
                }
                return false;
            }
            let c = self.rows[i].len();
            let mut j: usize = 0;
            while j < c
                invariant
                    j <= c,
                    i < self.rows@.len(),
                    i < other.rows@.len(),
                    c == self.rows@[i as int]@.len(),
                    c == other.rows@[i as int]@.len(),
                    forall|jj: int|
                        0 <= jj < j ==> #[trigger] self.rows@[i as int]@[jj] == other.rows@[
                            i as int
                        ]@[jj],
                decreases c - j,
            {
                if self.rows[i][j] != other.rows[i][j] {
                    proof {
                        lemma_grid_view_index(self.rows@, i as int);
                        lemma_grid_view_index(other.rows@, i as int);
                        assert(self@[i as int][j as int] != other@[i as int][j as int]);
                    }
                    return false;
                }
                j += 1;
            }
            proof {
                lemma_grid_view_index(self.rows@, i as int);
                lemma_grid_view_index(other.rows@, i as int);
                assert(self@[i as int] =~= other@[i as int]);
            }
            i += 1;
        }
        proof {
            lemma_grid_view_len(self.rows@);
            lemma_grid_view_len(other.rows@);
            assert(self@ =~= other@);
        }
        true
    }
}

impl<const R: usize, const C: usize> vstd::std_specs::cmp::PartialEqSpecImpl for Mat<R, C> {
    open spec fn obeys_eq_spec() -> bool {
        true
    }

    open spec fn eq_spec(&self, other: &Mat<R, C>) -> bool {
        self@ == other@
    }
}

impl<const N: usize> Mat<N, N> {
    /// Builds the square matrix with `n` on the main diagonal, zero elsewhere.
    pub fn diagonal(n: i64) -> (m: Mat<N, N>)
        ensures
            m.wf(),
            m@ == spec_diagonal(n as int, N as nat),
    {
        let mut rows: Vec<Vec<i64>> = Vec::new();
        let mut i: usize = 0;
        while i < N
            invariant
                i <= N,
                rows@.len() == i,
                forall|ii: int| 0 <= ii < i ==> (#[trigger] rows@[ii])@.len() == N,
                forall|ii: int, jj: int|
                    0 <= ii < i && 0 <= jj < N ==> #[trigger] rows@[ii]@[jj] == if ii == jj {
                        n
                    } else {
                        0i64
                    },
            decreases N - i,
        {
            let mut row: Vec<i64> = Vec::new();
            let mut j: usize = 0;
            while j < N
                invariant
                    j <= N,
                    row@.len() == j,
                    forall|jj: int|
                        0 <= jj < j ==> #[trigger] row@[jj] == if i == jj {
                            n
                        } else {
                            0i64
                        },
                decreases N - j,
            {
                if i == j {
                    row.push(n);
                } else {
                    row.push(0);
                }
                j += 1;
            }
            rows.push(row);
            i += 1;
        }
        let m = Mat { rows };
        proof {
            let target = spec_diagonal(n as int, N as nat);
            assert forall|ii: int| 0 <= ii < N implies #[trigger] m@[ii] == target[ii] by {
                lemma_grid_view_index(m.rows@, ii);
                assert(m@[ii] =~= target[ii]);
            }
            lemma_grid_view_len(m.rows@);
            assert(m@ =~= target);
        }
        m
    }

    /// Builds the identity matrix: one on the main diagonal, zero elsewhere.
    pub fn identity() -> (m: Mat<N, N>)
        ensures
            m.wf(),
            m@ == spec_identity(N as nat),
    {
        Self::diagonal(1)
    }

    /// Compound product, for square matrices only: replaces the receiver by
    /// `self * rhs`, computed as a whole new value before the receiver is
    /// overwritten.
    pub fn mul_assign(&mut self, rhs: &Mat<N, N>)
        requires
            old(self).wf(),
            rhs.wf(),
            mul_fits(old(self)@, rhs@, N as nat),
        ensures
            final(self).wf(),
            final(self)@ == spec_mul(old(self)@, rhs@, N as nat),
    {
        let m = self.mul(rhs);
        *self = m;
    }
}

} // verus!
