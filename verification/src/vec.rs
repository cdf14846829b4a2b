//! A 3-dimensional vector of IEEE-754 binary64 scalars, each component
//! carried as its `u64` bit pattern. Component-wise and scalar-broadcast
//! arithmetic, in pure and in-place forms; every operation is total, and
//! division by zero follows IEEE-754 (infinities and NaNs propagate
//! through the scalar operations rather than raising an error).

use vstd::prelude::*;
use crate::fp::{add_bits, sub_bits, mul_bits, div_bits, is_finite_bits};
use crate::fp::{add64, sub64, mul64, div64};

verus! {

/// Three binary64 components as bit patterns. A value type: the pure
/// operations build a new vector, the `_assign` forms overwrite the
/// receiver.
#[derive(Copy, Clone, Debug, PartialEq, Eq, Structural)]
pub struct Vec3 {
    pub x: u64,
    pub y: u64,
    pub z: u64,
}

/// The squared distance between two vectors: the sum of the squared
/// component differences, summed left to right.
pub open spec fn mag_sq_bits(a: Vec3, b: Vec3) -> u64 {
    add_bits(
        add_bits(
            mul_bits(sub_bits(a.x, b.x), sub_bits(a.x, b.x)),
            mul_bits(sub_bits(a.y, b.y), sub_bits(a.y, b.y)),
        ),
        mul_bits(sub_bits(a.z, b.z), sub_bits(a.z, b.z)),
    )
}

/// Every component holds a finite value.
pub open spec fn vec_finite(a: Vec3) -> bool {
    is_finite_bits(a.x) && is_finite_bits(a.y) && is_finite_bits(a.z)
}

impl Vec3 {
    /// Resets all components to positive zero and returns the zeroed
    /// value, whatever the prior state was.
    pub fn zero(&mut self) -> (r: Vec3)
        ensures
            final(self).x == 0 && final(self).y == 0 && final(self).z == 0,
            r == *final(self),
    {
        self.x = 0;
        self.y = 0;
        self.z = 0;
        *self
    }

    /// The squared distance to `o`. On a finite vector the squared
    /// distance to itself is exactly zero.
    pub fn mag_sq(&self, o: Vec3) -> (r: u64)
        ensures
            r == mag_sq_bits(*self, o),
            *self == o && vec_finite(*self) ==> r == 0,
    {
        let dx = sub64(self.x, o.x);
        let dy = sub64(self.y, o.y);
        let dz = sub64(self.z, o.z);
        add64(add64(mul64(dx, dx), mul64(dy, dy)), mul64(dz, dz))
    }

    /// Overwrites all three components unconditionally.
    pub fn set(&mut self, x: u64, y: u64, z: u64)
        ensures
            final(self).x == x && final(self).y == y && final(self).z == z,
    {
        self.x = x;
        self.y = y;
        self.z = z;
    }

    /// Component-wise sum.
    pub fn add(self, o: Vec3) -> (r: Vec3)
        ensures
            r.x == add_bits(self.x, o.x),
            r.y == add_bits(self.y, o.y),
            r.z == add_bits(self.z, o.z),
    {
        Vec3 { x: add64(self.x, o.x), y: add64(self.y, o.y), z: add64(self.z, o.z) }
    }

    /// Sum with a scalar broadcast to all three components.
    pub fn add_scalar(self, f: u64) -> (r: Vec3)
        ensures
            r.x == add_bits(self.x, f),
            r.y == add_bits(self.y, f),
            r.z == add_bits(self.z, f),
    {
        Vec3 { x: add64(self.x, f), y: add64(self.y, f), z: add64(self.z, f) }
    }

    /// In-place component-wise sum.
    pub fn add_assign(&mut self, o: Vec3)
        ensures
            final(self).x == add_bits(old(self).x, o.x),
            final(self).y == add_bits(old(self).y, o.y),
            final(self).z == add_bits(old(self).z, o.z),
    {
        *self = Vec3 { x: add64(self.x, o.x), y: add64(self.y, o.y), z: add64(self.z, o.z) };
    }

    /// In-place sum with a broadcast scalar.
    pub fn add_assign_scalar(&mut self, f: u64)
        ensures
            final(self).x == add_bits(old(self).x, f),
            final(self).y == add_bits(old(self).y, f),
            final(self).z == add_bits(old(self).z, f),
    {
        *self = Vec3 { x: add64(self.x, f), y: add64(self.y, f), z: add64(self.z, f) };
    }

    /// Component-wise difference.
    pub fn sub(self, o: Vec3) -> (r: Vec3)
        ensures
            r.x == sub_bits(self.x, o.x),
            r.y == sub_bits(self.y, o.y),
            r.z == sub_bits(self.z, o.z),
    {
        Vec3 { x: sub64(self.x, o.x), y: sub64(self.y, o.y), z: sub64(self.z, o.z) }
    }

    /// Difference with a scalar broadcast to all three components.
    pub fn sub_scalar(self, f: u64) -> (r: Vec3)
        ensures
            r.x == sub_bits(self.x, f),
            r.y == sub_bits(self.y, f),
            r.z == sub_bits(self.z, f),
    {
        Vec3 { x: sub64(self.x, f), y: sub64(self.y, f), z: sub64(self.z, f) }
    }

    /// In-place component-wise difference.
    pub fn sub_assign(&mut self, o: Vec3)
        ensures
            final(self).x == sub_bits(old(self).x, o.x),
            final(self).y == sub_bits(old(self).y, o.y),
            final(self).z == sub_bits(old(self).z, o.z),
    {
        *self = Vec3 { x: sub64(self.x, o.x), y: sub64(self.y, o.y), z: sub64(self.z, o.z) };
    }

    /// In-place difference with a broadcast scalar.
    pub fn sub_assign_scalar(&mut self, f: u64)
        ensures
            final(self).x == sub_bits(old(self).x, f),
            final(self).y == sub_bits(old(self).y, f),
            final(self).z == sub_bits(old(self).z, f),
    {
        *self = Vec3 { x: sub64(self.x, f), y: sub64(self.y, f), z: sub64(self.z, f) };
    }

    /// Component-wise product.
    pub fn mul(self, o: Vec3) -> (r: Vec3)
        ensures
            r.x == mul_bits(self.x, o.x),
            r.y == mul_bits(self.y, o.y),
            r.z == mul_bits(self.z, o.z),
    {
        Vec3 { x: mul64(self.x, o.x), y: mul64(self.y, o.y), z: mul64(self.z, o.z) }
    }

    /// Product with a scalar broadcast to all three components.
    pub fn mul_scalar(self, f: u64) -> (r: Vec3)
        ensures
            r.x == mul_bits(self.x, f),
            r.y == mul_bits(self.y, f),
            r.z == mul_bits(self.z, f),
    {
        Vec3 { x: mul64(self.x, f), y: mul64(self.y, f), z: mul64(self.z, f) }
    }

    /// In-place component-wise product.
    pub fn mul_assign(&mut self, o: Vec3)
        ensures
            final(self).x == mul_bits(old(self).x, o.x),
            final(self).y == mul_bits(old(self).y, o.y),
            final(self).z == mul_bits(old(self).z, o.z),
    {
        *self = Vec3 { x: mul64(self.x, o.x), y: mul64(self.y, o.y), z: mul64(self.z, o.z) };
    }

    /// In-place product with a broadcast scalar.
    pub fn mul_assign_scalar(&mut self, f: u64)
        ensures
            final(self).x == mul_bits(old(self).x, f),
            final(self).y == mul_bits(old(self).y, f),
            final(self).z == mul_bits(old(self).z, f),
    {
        *self = Vec3 { x: mul64(self.x, f), y: mul64(self.y, f), z: mul64(self.z, f) };
    }

    /// Component-wise quotient.
    pub fn div(self, o: Vec3) -> (r: Vec3)
        ensures
            r.x == div_bits(self.x, o.x),
            r.y == div_bits(self.y, o.y),
            r.z == div_bits(self.z, o.z),
    {
        Vec3 { x: div64(self.x, o.x), y: div64(self.y, o.y), z: div64(self.z, o.z) }
    }

    /// Quotient by a scalar broadcast to all three components.
    pub fn div_scalar(self, f: u64) -> (r: Vec3)
        ensures
            r.x == div_bits(self.x, f),
            r.y == div_bits(self.y, f),
            r.z == div_bits(self.z, f),
    {
        Vec3 { x: div64(self.x, f), y: div64(self.y, f), z: div64(self.z, f) }
    }

    /// In-place component-wise quotient.
    pub fn div_assign(&mut self, o: Vec3)
        ensures
            final(self).x == div_bits(old(self).x, o.x),
            final(self).y == div_bits(old(self).y, o.y),
            final(self).z == div_bits(old(self).z, o.z),
    {
        *self = Vec3 { x: div64(self.x, o.x), y: div64(self.y, o.y), z: div64(self.z, o.z) };
    }

    /// In-place quotient by a broadcast scalar.
    pub fn div_assign_scalar(&mut self, f: u64)
        ensures
            final(self).x == div_bits(old(self).x, f),
            final(self).y == div_bits(old(self).y, f),
            final(self).z == div_bits(old(self).z, f),
    {
        *self = Vec3 { x: div64(self.x, f), y: div64(self.y, f), z: div64(self.z, f) };
    }
}

} // verus!
