//! 3-D Cartesian vectors over Q16.16 scalars.

use vstd::prelude::*;
use crate::fx::{
    fx_add, fx_add_spec, fx_div, fx_div_spec, fx_mul, fx_mul_spec, fx_sqrt, fx_sqrt_spec,
    fx_sub, fx_sub_spec,
};

verus! {

/// A 3-D vector of Q16.16 scalars.
#[derive(Clone, Copy, Debug, PartialEq, Eq, Structural)]
pub struct Vec3 {
    pub x: i64,
    pub y: i64,
    pub z: i64,
}

/// Componentwise sum.
pub open spec fn v3_add_spec(a: Vec3, b: Vec3) -> Vec3 {
    Vec3 {
        x: fx_add_spec(a.x as int, b.x as int) as i64,
        y: fx_add_spec(a.y as int, b.y as int) as i64,
        z: fx_add_spec(a.z as int, b.z as int) as i64,
    }
}

/// Componentwise difference.
pub open spec fn v3_sub_spec(a: Vec3, b: Vec3) -> Vec3 {
    Vec3 {
        x: fx_sub_spec(a.x as int, b.x as int) as i64,
        y: fx_sub_spec(a.y as int, b.y as int) as i64,
        z: fx_sub_spec(a.z as int, b.z as int) as i64,
    }
}

/// The vector scaled by a Q16.16 scalar.
pub open spec fn v3_scale_spec(a: Vec3, s: int) -> Vec3 {
    Vec3 {
        x: fx_mul_spec(a.x as int, s) as i64,
        y: fx_mul_spec(a.y as int, s) as i64,
        z: fx_mul_spec(a.z as int, s) as i64,
    }
}

/// The dot product, accumulated left to right.
pub open spec fn v3_dot_spec(a: Vec3, b: Vec3) -> int {
    fx_add_spec(
        fx_add_spec(
            fx_mul_spec(a.x as int, b.x as int),
            fx_mul_spec(a.y as int, b.y as int),
        ),
        fx_mul_spec(a.z as int, b.z as int),
    )
}

/// The cross product.
pub open spec fn v3_cross_spec(a: Vec3, b: Vec3) -> Vec3 {
    Vec3 {
        x: fx_sub_spec(fx_mul_spec(a.y as int, b.z as int), fx_mul_spec(a.z as int, b.y as int))
            as i64,
        y: fx_sub_spec(fx_mul_spec(a.z as int, b.x as int), fx_mul_spec(a.x as int, b.z as int))
            as i64,
        z: fx_sub_spec(fx_mul_spec(a.x as int, b.y as int), fx_mul_spec(a.y as int, b.x as int))
            as i64,
    }
}

/// The squared Euclidean norm.
pub open spec fn v3_norm_squared_spec(a: Vec3) -> int {
    v3_dot_spec(a, a)
}

/// The Euclidean norm.
pub open spec fn v3_norm_spec(a: Vec3) -> int {
    fx_sqrt_spec(v3_norm_squared_spec(a))
}

/// The vector divided by its norm; the zero vector (whose norm is zero)
/// maps to itself as the documented degenerate case.
pub open spec fn v3_normalized_spec(a: Vec3) -> Vec3 {
    let n = v3_norm_spec(a);
    Vec3 {
        x: fx_div_spec(a.x as int, n) as i64,
        y: fx_div_spec(a.y as int, n) as i64,
        z: fx_div_spec(a.z as int, n) as i64,
    }
}

impl Vec3 {
    /// Build a vector from its Q16.16 components.
    pub fn new(x: i64, y: i64, z: i64) -> (r: Vec3)
        ensures
            r.x == x && r.y == y && r.z == z,
    {
        Vec3 { x, y, z }
    }

    /// The zero vector.
    pub fn zero() -> (r: Vec3)
        ensures
            r.x == 0 && r.y == 0 && r.z == 0,
    {
        Vec3 { x: 0, y: 0, z: 0 }
    }

    /// Componentwise saturating sum.
    pub fn add(self, other: Vec3) -> (r: Vec3)
        ensures
            r == v3_add_spec(self, other),
    {
        Vec3 {
            x: fx_add(self.x, other.x),
            y: fx_add(self.y, other.y),
            z: fx_add(self.z, other.z),
        }
    }

    /// Componentwise saturating difference.
    pub fn sub(self, other: Vec3) -> (r: Vec3)
        ensures
            r == v3_sub_spec(self, other),
    {
        Vec3 {
            x: fx_sub(self.x, other.x),
            y: fx_sub(self.y, other.y),
            z: fx_sub(self.z, other.z),
        }
    }

    /// The vector scaled by a Q16.16 scalar.
    pub fn scale(self, s: i64) -> (r: Vec3)
        ensures
            r == v3_scale_spec(self, s as int),
    {
        Vec3 {
            x: fx_mul(self.x, s),
            y: fx_mul(self.y, s),
            z: fx_mul(self.z, s),
        }
    }

    /// The dot product.
    pub fn dot(self, other: Vec3) -> (r: i64)
        ensures
            r as int == v3_dot_spec(self, other),
    {
        fx_add(
            fx_add(fx_mul(self.x, other.x), fx_mul(self.y, other.y)),
            fx_mul(self.z, other.z),
        )
    }

    /// The cross product.
    pub fn cross(self, other: Vec3) -> (r: Vec3)
        ensures
            r == v3_cross_spec(self, other),
    {
        Vec3 {
            x: fx_sub(fx_mul(self.y, other.z), fx_mul(self.z, other.y)),
            y: fx_sub(fx_mul(self.z, other.x), fx_mul(self.x, other.z)),
            z: fx_sub(fx_mul(self.x, other.y), fx_mul(self.y, other.x)),
        }
    }

    /// The squared Euclidean norm.
    pub fn norm_squared(self) -> (r: i64)
        ensures
            r as int == v3_norm_squared_spec(self),
    {
        self.dot(self)
    }

    /// The Euclidean norm.
    pub fn norm(self) -> (r: i64)
        ensures
            r as int == v3_norm_spec(self),
            0 <= r,
    {
        fx_sqrt(self.norm_squared())
    }

    /// The unit vector in this direction; the zero vector stays zero.
    pub fn normalized(self) -> (r: Vec3)
        ensures
            r == v3_normalized_spec(self),
    {
        let n = self.norm();
        Vec3 {
            x: fx_div(self.x, n),
            y: fx_div(self.y, n),
            z: fx_div(self.z, n),
        }
    }
}

} // verus!
