//! Two-component vectors of integer scalars, with elementwise arithmetic,
//! dot product, magnitude, and conversion to a 2-by-1 column matrix.

use crate::matrix::Mat;
use crate::model::{
    col_of, dot_prefix, grid_view, in_i64, is_grid, lemma_grid_view_index, lemma_grid_view_len,
    spec_dot,
};
use crate::scalar::isqrt;
use vstd::prelude::*;

verus! {

/// A fixed pair of integer scalar components.
#[derive(Clone, Copy, Debug, PartialEq, Eq, Structural, PartialOrd, Ord)]
pub struct Vec2 {
    pub x: i64,
    pub y: i64,
}

impl View for Vec2 {
    type V = Seq<int>;

    open spec fn view(&self) -> Seq<int> {
        seq![self.x as int, self.y as int]
    }
}

impl Default for Vec2 {
    /// The zero vector.
    fn default() -> (v: Vec2)
        ensures
            v.x == 0 && v.y == 0,
    {
        Vec2 { x: 0, y: 0 }
    }
}

impl Vec2 {
    /// Builds a vector from its components.
    pub fn new(x: i64, y: i64) -> (v: Vec2)
        ensures
            v.x == x && v.y == y,
    {
        Vec2 { x, y }
    }

    /// The vector with every component zero.
    pub fn zero() -> (v: Vec2)
        ensures
            v.x == 0 && v.y == 0,
    {
        Vec2 { x: 0, y: 0 }
    }

    /// The vector with every component equal to `n`.
    pub fn fill(n: i64) -> (v: Vec2)
        ensures
            v.x == n && v.y == n,
    {
        Vec2 { x: n, y: n }
    }

    /// Dot product: the sum of the pairwise component products.
    pub fn dot(self, other: Vec2) -> (r: i64)
        requires
            in_i64(self.x * other.x),
            in_i64(self.y * other.y),
            in_i64(self.x * other.x + self.y * other.y),
        ensures
            r == self.x * other.x + self.y * other.y,
            r == spec_dot(self@, other@),
    {
        proof {
            reveal_with_fuel(dot_prefix, 4);
        }
        self.x * other.x + self.y * other.y
    }

    /// Magnitude: the floor square root of the dot product of the vector
    /// with itself.
    pub fn mag(self) -> (r: i64)
        requires
            in_i64(self.x * self.x),
            in_i64(self.y * self.y),
            in_i64(self.x * self.x + self.y * self.y),
        ensures
            0 <= r,
            r * r <= spec_dot(self@, self@) < (r + 1) * (r + 1),
    {
        let d = self.dot(self);
        assert(self.x * self.x >= 0) by (nonlinear_arith);
        assert(self.y * self.y >= 0) by (nonlinear_arith);
        isqrt(d)
    }

    /// Elementwise sum; returns a new vector.
    pub fn add(self, rhs: Vec2) -> (v: Vec2)
        requires
            in_i64(self.x + rhs.x),
            in_i64(self.y + rhs.y),
        ensures
            v.x == self.x + rhs.x,
            v.y == self.y + rhs.y,
    {
        Vec2 { x: self.x + rhs.x, y: self.y + rhs.y }
    }

    /// Elementwise difference; returns a new vector.
    pub fn sub(self, rhs: Vec2) -> (v: Vec2)
        requires
            in_i64(self.x - rhs.x),
            in_i64(self.y - rhs.y),
        ensures
            v.x == self.x - rhs.x,
            v.y == self.y - rhs.y,
    {
        Vec2 { x: self.x - rhs.x, y: self.y - rhs.y }
    }

    /// Elementwise negation; returns a new vector.
    pub fn neg(self) -> (v: Vec2)
        requires
            in_i64(-self.x),
            in_i64(-self.y),
        ensures
            v.x == -self.x,
            v.y == -self.y,
    {
        Vec2 { x: -self.x, y: -self.y }
    }

    /// Compound sum: adds `rhs` into the receiver elementwise.
    pub fn add_assign(&mut self, rhs: Vec2)
        requires
            in_i64(old(self).x + rhs.x),
            in_i64(old(self).y + rhs.y),
        ensures
            final(self).x == old(self).x + rhs.x,
            final(self).y == old(self).y + rhs.y,
    {
        self.x = self.x + rhs.x;
        self.y = self.y + rhs.y;
    }

    /// Compound difference: subtracts `rhs` from the receiver elementwise.
    pub fn sub_assign(&mut self, rhs: Vec2)
        requires
            in_i64(old(self).x - rhs.x),
            in_i64(old(self).y - rhs.y),
        ensures
            final(self).x == old(self).x - rhs.x,
            final(self).y == old(self).y - rhs.y,
    {
        self.x = self.x - rhs.x;
        self.y = self.y - rhs.y;
    }

    /// The 2-by-1 column-matrix form: row `k` holds component `k`.
    pub fn to_col(self) -> (m: Mat<2, 1>)
        ensures
            m.wf(),
            m@ == col_of(self@),
    {
        let mut rows: Vec<Vec<i64>> = Vec::new();
        let mut r0: Vec<i64> = Vec::new();
        r0.push(self.x);
        rows.push(r0);
        let mut r1: Vec<i64> = Vec::new();
        r1.push(self.y);
        rows.push(r1);
        proof {
            lemma_grid_view_len(rows@);
            assert forall|i: int| 0 <= i < 2 implies (#[trigger] grid_view(rows@)[i]).len()
                == 1 by {
                lemma_grid_view_index(rows@, i);
            }
            assert(is_grid(grid_view(rows@), 2, 1));
        }
        let m = Mat::<2, 1>::new(rows);
        proof {
            lemma_grid_view_index(m.rows@, 0);
            lemma_grid_view_index(m.rows@, 1);
            assert(m@[0] =~= col_of(self@)[0]);
            assert(m@[1] =~= col_of(self@)[1]);
            assert(m@ =~= col_of(self@));
        }
        m
    }
}

} // verus!
