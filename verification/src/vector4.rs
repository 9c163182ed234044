use vstd::prelude::*;

verus! {

use crate::scalar::{div_i64, div_trunc};

/// A 4D vector with `x`, `y`, `z` and `w` components.
#[derive(Debug, Clone, Copy, PartialEq, Eq, Structural)]
pub struct Vector4<T> {
    /// The x-component of the vector.
    pub x: T,
    /// The y-component of the vector.
    pub y: T,
    /// The z-component of the vector.
    pub z: T,
    /// The w-component of the vector.
    pub w: T,
}

impl<T> Vector4<T> {
    /// The component at index `i`, counting `x` as 0, `y` as 1, `z` as
    /// 2 and `w` as 3.
    pub open spec fn component(self, i: int) -> T {
        if i == 0 {
            self.x
        } else if i == 1 {
            self.y
        } else if i == 2 {
            self.z
        } else {
            self.w
        }
    }

    /// Creates a new `Vector4` with the given `x`, `y`, `z` and `w`
    /// components.
    pub fn new(x: T, y: T, z: T, w: T) -> (v: Self)
        ensures
            v.x == x,
            v.y == y,
            v.z == z,
            v.w == w,
    {
        Self { x, y, z, w }
    }
}

impl<T: Copy> Vector4<T> {
    /// Gathers the components at indices `x`, `y`, `z` and `w`, each
    /// counted from zero over the components of `self`; indices may
    /// repeat. An index outside the vector is a caller error, so it is
    /// ruled out here.
    pub fn swizzle(&self, x: usize, y: usize, z: usize, w: usize) -> (v: Self)
        requires
            x < 4,
            y < 4,
            z < 4,
            w < 4,
        ensures
            v.x == self.component(x as int),
            v.y == self.component(y as int),
            v.z == self.component(z as int),
            v.w == self.component(w as int),
    {
        let components = [self.x, self.y, self.z, self.w];
        Self {
            x: components[x],
            y: components[y],
            z: components[z],
            w: components[w],
        }
    }
}

impl Vector4<i64> {
    /// The componentwise sum, each component reduced to `i64`.
    pub open spec fn spec_add(self, rhs: Self) -> Self {
        Self {
            x: (self.x + rhs.x) as i64,
            y: (self.y + rhs.y) as i64,
            z: (self.z + rhs.z) as i64,
            w: (self.w + rhs.w) as i64,
        }
    }

    /// The componentwise difference, each component reduced to `i64`.
    pub open spec fn spec_sub(self, rhs: Self) -> Self {
        Self {
            x: (self.x - rhs.x) as i64,
            y: (self.y - rhs.y) as i64,
            z: (self.z - rhs.z) as i64,
            w: (self.w - rhs.w) as i64,
        }
    }

    /// The componentwise product, each component reduced to `i64`.
    pub open spec fn spec_mul(self, rhs: Self) -> Self {
        Self {
            x: (self.x * rhs.x) as i64,
            y: (self.y * rhs.y) as i64,
            z: (self.z * rhs.z) as i64,
            w: (self.w * rhs.w) as i64,
        }
    }

    /// The componentwise truncating quotient, each component reduced
    /// to `i64`.
    pub open spec fn spec_div(self, rhs: Self) -> Self {
        Self {
            x: div_trunc(self.x as int, rhs.x as int) as i64,
            y: div_trunc(self.y as int, rhs.y as int) as i64,
            z: div_trunc(self.z as int, rhs.z as int) as i64,
            w: div_trunc(self.w as int, rhs.w as int) as i64,
        }
    }

    /// Adds two vectors componentwise.
    pub fn add(self, rhs: Self) -> (v: Self)
        requires
            i64::MIN <= self.x + rhs.x <= i64::MAX,
            i64::MIN <= self.y + rhs.y <= i64::MAX,
            i64::MIN <= self.z + rhs.z <= i64::MAX,
            i64::MIN <= self.w + rhs.w <= i64::MAX,
        ensures
            v == self.spec_add(rhs),
    {
        Self {
            x: self.x + rhs.x,
            y: self.y + rhs.y,
            z: self.z + rhs.z,
            w: self.w + rhs.w,
        }
    }

    /// Subtracts one vector from another componentwise.
    pub fn sub(self, rhs: Self) -> (v: Self)
        requires
            i64::MIN <= self.x - rhs.x <= i64::MAX,
            i64::MIN <= self.y - rhs.y <= i64::MAX,
            i64::MIN <= self.z - rhs.z <= i64::MAX,
            i64::MIN <= self.w - rhs.w <= i64::MAX,
        ensures
            v == self.spec_sub(rhs),
    {
        Self {
            x: self.x - rhs.x,
            y: self.y - rhs.y,
            z: self.z - rhs.z,
            w: self.w - rhs.w,
        }
    }

    /// Multiplies two vectors componentwise.
    pub fn mul(self, rhs: Self) -> (v: Self)
        requires
            i64::MIN <= self.x * rhs.x <= i64::MAX,
            i64::MIN <= self.y * rhs.y <= i64::MAX,
            i64::MIN <= self.z * rhs.z <= i64::MAX,
            i64::MIN <= self.w * rhs.w <= i64::MAX,
        ensures
            v == self.spec_mul(rhs),
    {
        Self {
            x: self.x * rhs.x,
            y: self.y * rhs.y,
            z: self.z * rhs.z,
            w: self.w * rhs.w,
        }
    }

    /// Divides one vector by another componentwise, each quotient
    /// rounded toward zero as Rust's `/` rounds. The excluded operand
    /// pairs are exactly those on which `/` panics.
    pub fn div(self, rhs: Self) -> (v: Self)
        requires
            rhs.x != 0,
            rhs.y != 0,
            rhs.z != 0,
            rhs.w != 0,
            !(self.x == i64::MIN && rhs.x == -1),
            !(self.y == i64::MIN && rhs.y == -1),
            !(self.z == i64::MIN && rhs.z == -1),
            !(self.w == i64::MIN && rhs.w == -1),
        ensures
            v == self.spec_div(rhs),
    {
        Self {
            x: div_i64(self.x, rhs.x),
            y: div_i64(self.y, rhs.y),
            z: div_i64(self.z, rhs.z),
            w: div_i64(self.w, rhs.w),
        }
    }
}

/// Vector addition is commutative: `a` plus `b` and `b` plus `a` are
/// the same vector.
pub proof fn lemma_add_comm(a: Vector4<i64>, b: Vector4<i64>)
    ensures
        a.spec_add(b) == b.spec_add(a),
{
}

} // verus!
