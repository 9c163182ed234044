use vstd::prelude::*;

verus! {

use crate::scalar::{div_i64, div_trunc};

/// A 2D vector with `x` and `y` components.
#[derive(Debug, Clone, Copy, PartialEq, Eq, Structural)]
pub struct Vector2<T> {
    /// The x-component of the vector.
    pub x: T,
    /// The y-component of the vector.
    pub y: T,
}

impl<T> Vector2<T> {
    /// The component at index `i`, counting `x` as 0 and `y` as 1.
    pub open spec fn component(self, i: int) -> T {
        if i == 0 {
            self.x
        } else {
            self.y
        }
    }

    /// Creates a new `Vector2` with the given `x` and `y` components.
    pub fn new(x: T, y: T) -> (v: Self)
        ensures
            v.x == x,
            v.y == y,
    {
        Self { x, y }
    }
}

impl<T: Copy> Vector2<T> {
    /// Gathers the components at indices `x` and `y`, each counted from
    /// zero over the components of `self`; indices may repeat. An index
    /// outside the vector is a caller error, so it is ruled out here.
    pub fn swizzle(&self, x: usize, y: usize) -> (v: Self)
        requires
            x < 2,
            y < 2,
        ensures
            v.x == self.component(x as int),
            v.y == self.component(y as int),
    {
        let components = [self.x, self.y];
        Self { x: components[x], y: components[y] }
    }
}

impl Vector2<i64> {
    /// The componentwise sum, each component reduced to `i64`.
    pub open spec fn spec_add(self, rhs: Self) -> Self {
        Self { x: (self.x + rhs.x) as i64, y: (self.y + rhs.y) as i64 }
    }

    /// The componentwise difference, each component reduced to `i64`.
    pub open spec fn spec_sub(self, rhs: Self) -> Self {
        Self { x: (self.x - rhs.x) as i64, y: (self.y - rhs.y) as i64 }
    }

    /// The componentwise product, each component reduced to `i64`.
    pub open spec fn spec_mul(self, rhs: Self) -> Self {
        Self { x: (self.x * rhs.x) as i64, y: (self.y * rhs.y) as i64 }
    }

    /// The componentwise truncating quotient, each component reduced
    /// to `i64`.
    pub open spec fn spec_div(self, rhs: Self) -> Self {
        Self {
            x: div_trunc(self.x as int, rhs.x as int) as i64,
            y: div_trunc(self.y as int, rhs.y as int) as i64,
        }
    }

    /// Adds two vectors componentwise.
    pub fn add(self, rhs: Self) -> (v: Self)
        requires
            i64::MIN <= self.x + rhs.x <= i64::MAX,
            i64::MIN <= self.y + rhs.y <= i64::MAX,
        ensures
            v == self.spec_add(rhs),
    {
        Self { x: self.x + rhs.x, y: self.y + rhs.y }
    }

    /// Subtracts one vector from another componentwise.
    pub fn sub(self, rhs: Self) -> (v: Self)
        requires
            i64::MIN <= self.x - rhs.x <= i64::MAX,
            i64::MIN <= self.y - rhs.y <= i64::MAX,
        ensures
            v == self.spec_sub(rhs),
    {
        Self { x: self.x - rhs.x, y: self.y - rhs.y }
    }

    /// Multiplies two vectors componentwise.
    pub fn mul(self, rhs: Self) -> (v: Self)
        requires
            i64::MIN <= self.x * rhs.x <= i64::MAX,
            i64::MIN <= self.y * rhs.y <= i64::MAX,
        ensures
            v == self.spec_mul(rhs),
    {
        Self { x: self.x * rhs.x, y: self.y * rhs.y }
    }

    /// Divides one vector by another componentwise, each quotient
    /// rounded toward zero as Rust's `/` rounds. The excluded operand
    /// pairs are exactly those on which `/` panics.
    pub fn div(self, rhs: Self) -> (v: Self)
        requires
            rhs.x != 0,
            rhs.y != 0,
            !(self.x == i64::MIN && rhs.x == -1),
            !(self.y == i64::MIN && rhs.y == -1),
        ensures
            v == self.spec_div(rhs),
    {
        Self { x: div_i64(self.x, rhs.x), y: div_i64(self.y, rhs.y) }
    }
}

/// Vector addition is commutative: `a` plus `b` and `b` plus `a` are
/// the same vector.
pub proof fn lemma_add_comm(a: Vector2<i64>, b: Vector2<i64>)
    ensures
        a.spec_add(b) == b.spec_add(a),
{
}

} // verus!
