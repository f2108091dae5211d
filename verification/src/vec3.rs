//! Three-component vectors of integer scalars, with elementwise arithmetic,
//! dot product, magnitude, cross product, and conversion to a 3-by-1 column
//! matrix.

use crate::matrix::Mat;
use crate::model::{
    col_of, dot_prefix, grid_view, in_i64, is_grid, lemma_grid_view_index, lemma_grid_view_len,
    spec_cross, spec_dot,
};
use crate::scalar::isqrt;
use vstd::prelude::*;

verus! {

/// A fixed triple of integer scalar components.
#[derive(Clone, Copy, Debug, PartialEq, Eq, Structural, PartialOrd, Ord)]
pub struct Vec3 {
    pub x: i64,
    pub y: i64,
    pub z: i64,
}

impl View for Vec3 {
    type V = Seq<int>;

    open spec fn view(&self) -> Seq<int> {
        seq![self.x as int, self.y as int, self.z as int]
    }
}

impl Default for Vec3 {
    /// The zero vector.
    fn default() -> (v: Vec3)
        ensures
            v.x == 0 && v.y == 0 && v.z == 0,
    {
        Vec3 { x: 0, y: 0, z: 0 }
    }
}

impl Vec3 {
    /// Builds a vector from its components.
    pub fn new(x: i64, y: i64, z: i64) -> (v: Vec3)
        ensures
            v.x == x && v.y == y && v.z == z,
    {
        Vec3 { x, y, z }
    }

    /// The vector with every component zero.
    pub fn zero() -> (v: Vec3)
        ensures
            v.x == 0 && v.y == 0 && v.z == 0,
    {
        Vec3 { x: 0, y: 0, z: 0 }
    }

    /// The vector with every component equal to `n`.
    pub fn fill(n: i64) -> (v: Vec3)
        ensures
            v.x == n && v.y == n && v.z == n,
    {
        Vec3 { x: n, y: n, z: n }
    }

    /// Dot product: the sum of the pairwise component products, accumulated
    /// in component order.
    pub fn dot(self, other: Vec3) -> (r: i64)
        requires
            in_i64(self.x * other.x),
            in_i64(self.y * other.y),
            in_i64(self.z * other.z),
            in_i64(self.x * other.x + self.y * other.y),
            in_i64(self.x * other.x + self.y * other.y + self.z * other.z),
        ensures
            r == self.x * other.x + self.y * other.y + self.z * other.z,
            r == spec_dot(self@, other@),
    {
        proof {
            reveal_with_fuel(dot_prefix, 5);
        }
        self.x * other.x + self.y * other.y + self.z * other.z
    }

    /// Magnitude: the floor square root of the dot product of the vector
    /// with itself.
    pub fn mag(self) -> (r: i64)
        requires
            in_i64(self.x * self.x),
            in_i64(self.y * self.y),
            in_i64(self.z * self.z),
            in_i64(self.x * self.x + self.y * self.y),
            in_i64(self.x * self.x + self.y * self.y + self.z * self.z),
        ensures
            0 <= r,
            r * r <= spec_dot(self@, self@) < (r + 1) * (r + 1),
    {
        let d = self.dot(self);
        assert(self.x * self.x >= 0) by (nonlinear_arith);
        assert(self.y * self.y >= 0) by (nonlinear_arith);
        assert(self.z * self.z >= 0) by (nonlinear_arith);
        isqrt(d)
    }

    /// Cross product: `(a.y b.z - b.y a.z, b.x a.z - a.x b.z, a.x b.y - b.x a.y)`.
    pub fn cross(self, other: Vec3) -> (v: Vec3)
        requires
            in_i64(self.y * other.z),
            in_i64(other.y * self.z),
            in_i64(self.y * other.z - other.y * self.z),
            in_i64(other.x * self.z),
            in_i64(self.x * other.z),
            in_i64(other.x * self.z - self.x * other.z),
            in_i64(self.x * other.y),
            in_i64(other.x * self.y),
            in_i64(self.x * other.y - other.x * self.y),
        ensures
            v.x == self.y * other.z - other.y * self.z,
            v.y == other.x * self.z - self.x * other.z,
            v.z == self.x * other.y - other.x * self.y,
            v@ == spec_cross(self@, other@),
    {
        let v = Vec3 {
            x: self.y * other.z - other.y * self.z,
            y: other.x * self.z - self.x * other.z,
            z: self.x * other.y - other.x * self.y,
        };
        proof {
            assert(v@ =~= spec_cross(self@, other@));
        }
        v
    }

    /// Elementwise sum; returns a new vector.
    pub fn add(self, rhs: Vec3) -> (v: Vec3)
        requires
            in_i64(self.x + rhs.x),
            in_i64(self.y + rhs.y),
            in_i64(self.z + rhs.z),
        ensures
            v.x == self.x + rhs.x,
            v.y == self.y + rhs.y,
            v.z == self.z + rhs.z,
    {
        Vec3 { x: self.x + rhs.x, y: self.y + rhs.y, z: self.z + rhs.z }
    }

    /// Elementwise difference; returns a new vector.
    pub fn sub(self, rhs: Vec3) -> (v: Vec3)
        requires
            in_i64(self.x - rhs.x),
            in_i64(self.y - rhs.y),
            in_i64(self.z - rhs.z),
        ensures
            v.x == self.x - rhs.x,
            v.y == self.y - rhs.y,
            v.z == self.z - rhs.z,
    {
        Vec3 { x: self.x - rhs.x, y: self.y - rhs.y, z: self.z - rhs.z }
    }

    /// Elementwise negation; returns a new vector.
    pub fn neg(self) -> (v: Vec3)
        requires
            in_i64(-self.x),
            in_i64(-self.y),
            in_i64(-self.z),
        ensures
            v.x == -self.x,
            v.y == -self.y,
            v.z == -self.z,
    {
        Vec3 { x: -self.x, y: -self.y, z: -self.z }
    }

    /// Compound sum: adds `rhs` into the receiver elementwise.
    pub fn add_assign(&mut self, rhs: Vec3)
        requires
            in_i64(old(self).x + rhs.x),
            in_i64(old(self).y + rhs.y),
            in_i64(old(self).z + rhs.z),
        ensures
            final(self).x == old(self).x + rhs.x,
            final(self).y == old(self).y + rhs.y,
            final(self).z == old(self).z + rhs.z,
    {
        self.x = self.x + rhs.x;
        self.y = self.y + rhs.y;
        self.z = self.z + rhs.z;
    }

    /// Compound difference: subtracts `rhs` from the receiver elementwise.
    pub fn sub_assign(&mut self, rhs: Vec3)
        requires
            in_i64(old(self).x - rhs.x),
            in_i64(old(self).y - rhs.y),
            in_i64(old(self).z - rhs.z),
        ensures
            final(self).x == old(self).x - rhs.x,
            final(self).y == old(self).y - rhs.y,
            final(self).z == old(self).z - rhs.z,
    {
        self.x = self.x - rhs.x;
        self.y = self.y - rhs.y;
        self.z = self.z - rhs.z;
    }

    /// The 3-by-1 column-matrix form: row `k` holds component `k`.
    pub fn to_col(self) -> (m: Mat<3, 1>)
        ensures
            m.wf(),
            m@ == col_of(self@),
    {
        let mut rows: Vec<Vec<i64>> = Vec::new();
        let mut r0: Vec<i64> = Vec::new();
        r0.push(self.x);
        rows.push(r0);
        let mut r1: Vec<i64> = Vec::new();
        r1.push(self.y);
        rows.push(r1);
        let mut r2: Vec<i64> = Vec::new();
        r2.push(self.z);
        rows.push(r2);
        proof {
            lemma_grid_view_len(rows@);
            assert forall|i: int| 0 <= i < 3 implies (#[trigger] grid_view(rows@)[i]).len()
                == 1 by {
                lemma_grid_view_index(rows@, i);
            }
            assert(is_grid(grid_view(rows@), 3, 1));
        }
        let m = Mat::<3, 1>::new(rows);
        proof {
            lemma_grid_view_index(m.rows@, 0);
            lemma_grid_view_index(m.rows@, 1);
            lemma_grid_view_index(m.rows@, 2);
            assert(m@[0] =~= col_of(self@)[0]);
            assert(m@[1] =~= col_of(self@)[1]);
            assert(m@[2] =~= col_of(self@)[2]);
            assert(m@ =~= col_of(self@));
        }
        m
    }
}

} // verus!
