//! Four-component vectors of integer scalars, with elementwise arithmetic,
//! dot product, magnitude, conversion to a 4-by-1 column matrix, and the
//! outer-product-like expansion against a single-row matrix.

use crate::matrix::Mat;
use crate::model::{
    col_of, dot_prefix, grid_view, in_i64, is_grid, lemma_grid_view_index, lemma_grid_view_len,
    mul_fits, spec_dot, spec_mul,
};
use crate::scalar::isqrt;
use vstd::prelude::*;

verus! {

/// A fixed quadruple of integer scalar components.
#[derive(Clone, Copy, Debug, PartialEq, Eq, Structural, PartialOrd, Ord)]
pub struct Vec4 {
    pub x: i64,
    pub y: i64,
    pub z: i64,
    pub w: i64,
}

impl View for Vec4 {
    type V = Seq<int>;

    open spec fn view(&self) -> Seq<int> {
        seq![self.x as int, self.y as int, self.z as int, self.w as int]
    }
}

impl Default for Vec4 {
    /// The zero vector.
    fn default() -> (v: Vec4)
        ensures
            v.x == 0 && v.y == 0 && v.z == 0 && v.w == 0,
    {
        Vec4 { x: 0, y: 0, z: 0, w: 0 }
    }
}

impl Vec4 {
    /// Builds a vector from its components.
    pub fn new(x: i64, y: i64, z: i64, w: i64) -> (v: Vec4)
        ensures
            v.x == x && v.y == y && v.z == z && v.w == w,
    {
        Vec4 { x, y, z, w }
    }

    /// The vector with every component zero.
    pub fn zero() -> (v: Vec4)
        ensures
            v.x == 0 && v.y == 0 && v.z == 0 && v.w == 0,
    {
        Vec4 { x: 0, y: 0, z: 0, w: 0 }
    }

    /// The vector with every component equal to `n`.
    pub fn fill(n: i64) -> (v: Vec4)
        ensures
            v.x == n && v.y == n && v.z == n && v.w == n,
    {
        Vec4 { x: n, y: n, z: n, w: n }
    }

    /// Dot product: the sum of the pairwise component products, accumulated
    /// in component order.
    pub fn dot(self, other: Vec4) -> (r: i64)
        requires
            in_i64(self.x * other.x),
            in_i64(self.y * other.y),
            in_i64(self.z * other.z),
            in_i64(self.w * other.w),
            in_i64(self.x * other.x + self.y * other.y),
            in_i64(self.x * other.x + self.y * other.y + self.z * other.z),
            in_i64(self.x * other.x + self.y * other.y + self.z * other.z + self.w * other.w),
        ensures
            r == self.x * other.x + self.y * other.y + self.z * other.z + self.w * other.w,
            r == spec_dot(self@, other@),
    {
        proof {
            reveal_with_fuel(dot_prefix, 6);
        }
        self.x * other.x + self.y * other.y + self.z * other.z + self.w * other.w
    }

    /// Magnitude: the floor square root of the dot product of the vector
    /// with itself.
    pub fn mag(self) -> (r: i64)
        requires
            in_i64(self.x * self.x),
            in_i64(self.y * self.y),
            in_i64(self.z * self.z),
            in_i64(self.w * self.w),
            in_i64(self.x * self.x + self.y * self.y),
            in_i64(self.x * self.x + self.y * self.y + self.z * self.z),
            in_i64(self.x * self.x + self.y * self.y + self.z * self.z + self.w * self.w),
        ensures
            0 <= r,
            r * r <= spec_dot(self@, self@) < (r + 1) * (r + 1),
    {
        let d = self.dot(self);
        assert(self.x * self.x >= 0) by (nonlinear_arith);
        assert(self.y * self.y >= 0) by (nonlinear_arith);
        assert(self.z * self.z >= 0) by (nonlinear_arith);
        assert(self.w * self.w >= 0) by (nonlinear_arith);
        isqrt(d)
    }

    /// Elementwise sum; returns a new vector.
    pub fn add(self, rhs: Vec4) -> (v: Vec4)
        requires
            in_i64(self.x + rhs.x),
            in_i64(self.y + rhs.y),
            in_i64(self.z + rhs.z),
            in_i64(self.w + rhs.w),
        ensures
            v.x == self.x + rhs.x,
            v.y == self.y + rhs.y,
            v.z == self.z + rhs.z,
            v.w == self.w + rhs.w,
    {
        Vec4 { x: self.x + rhs.x, y: self.y + rhs.y, z: self.z + rhs.z, w: self.w + rhs.w }
    }

    /// Elementwise difference; returns a new vector.
    pub fn sub(self, rhs: Vec4) -> (v: Vec4)
        requires
            in_i64(self.x - rhs.x),
            in_i64(self.y - rhs.y),
            in_i64(self.z - rhs.z),
            in_i64(self.w - rhs.w),
        ensures
            v.x == self.x - rhs.x,
            v.y == self.y - rhs.y,
            v.z == self.z - rhs.z,
            v.w == self.w - rhs.w,
    {
        Vec4 { x: self.x - rhs.x, y: self.y - rhs.y, z: self.z - rhs.z, w: self.w - rhs.w }
    }

    /// Elementwise negation; returns a new vector.
    pub fn neg(self) -> (v: Vec4)
        requires
            in_i64(-self.x),
            in_i64(-self.y),
            in_i64(-self.z),
            in_i64(-self.w),
        ensures
            v.x == -self.x,
            v.y == -self.y,
            v.z == -self.z,
            v.w == -self.w,
    {
        Vec4 { x: -self.x, y: -self.y, z: -self.z, w: -self.w }
    }

    /// Compound sum: adds `rhs` into the receiver elementwise.
    pub fn add_assign(&mut self, rhs: Vec4)
        requires
            in_i64(old(self).x + rhs.x),
            in_i64(old(self).y + rhs.y),
            in_i64(old(self).z + rhs.z),
            in_i64(old(self).w + rhs.w),
        ensures
            final(self).x == old(self).x + rhs.x,
            final(self).y == old(self).y + rhs.y,
            final(self).z == old(self).z + rhs.z,
            final(self).w == old(self).w + rhs.w,
    {
        self.x = self.x + rhs.x;
        self.y = self.y + rhs.y;
        self.z = self.z + rhs.z;
        self.w = self.w + rhs.w;
    }

    /// Compound difference: subtracts `rhs` from the receiver elementwise.
    pub fn sub_assign(&mut self, rhs: Vec4)
        requires
            in_i64(old(self).x - rhs.x),
            in_i64(old(self).y - rhs.y),
            in_i64(old(self).z - rhs.z),
            in_i64(old(self).w - rhs.w),
        ensures
            final(self).x == old(self).x - rhs.x,
            final(self).y == old(self).y - rhs.y,
            final(self).z == old(self).z - rhs.z,
            final(self).w == old(self).w - rhs.w,
    {
        self.x = self.x - rhs.x;
        self.y = self.y - rhs.y;
        self.z = self.z - rhs.z;
        self.w = self.w - rhs.w;
    }

    /// The 4-by-1 column-matrix form: row `k` holds component `k`.
    pub fn to_col(self) -> (m: Mat<4, 1>)
        ensures
            m.wf(),
            m@ == col_of(self@),
    {
        let mut rows: Vec<Vec<i64>> = Vec::new();
        let mut r0: Vec<i64> = Vec::new();
        r0.push(self.x);
        rows.push(r0);
        let mut r1: Vec<i64> = Vec::new();
        r1.push(self.y);
        rows.push(r1);
        let mut r2: Vec<i64> = Vec::new();
        r2.push(self.z);
        rows.push(r2);
        let mut r3: Vec<i64> = Vec::new();
        r3.push(self.w);
        rows.push(r3);
        proof {
            lemma_grid_view_len(rows@);
            assert forall|i: int| 0 <= i < 4 implies (#[trigger] grid_view(rows@)[i]).len()
                == 1 by {
                lemma_grid_view_index(rows@, i);
            }
            assert(is_grid(grid_view(rows@), 4, 1));
        }
        let m = Mat::<4, 1>::new(rows);
        proof {
            lemma_grid_view_index(m.rows@, 0);
            lemma_grid_view_index(m.rows@, 1);
            lemma_grid_view_index(m.rows@, 2);
            lemma_grid_view_index(m.rows@, 3);
            assert(m@[0] =~= col_of(self@)[0]);
            assert(m@[1] =~= col_of(self@)[1]);
            assert(m@[2] =~= col_of(self@)[2]);
            assert(m@[3] =~= col_of(self@)[3]);
            assert(m@ =~= col_of(self@));
        }
        m
    }

    /// Product with a single-row matrix: the column form of the vector times
    /// `rhs`, an outer-product-like 4-by-`K` expansion.
    pub fn mul_mat<const K: usize>(self, rhs: &Mat<1, K>) -> (m: Mat<4, K>)
        requires
            rhs.wf(),
            mul_fits(col_of(self@), rhs@, K as nat),
        ensures
            m.wf(),
            m@ == spec_mul(col_of(self@), rhs@, K as nat),
    {
        self.to_col().mul(rhs)
    }
}

} // verus!
