//! Points in space. A point receives translation under an affine transform;
//! a vector does not (the homogeneous coordinate is 1 rather than 0, modeled
//! by the distinct multiplication rules in the matrix module).

use crate::approx::{fx_approx, ApproxEq, EPSILON, LOW_EPSILON};
use crate::fx::{fx_add, fx_div, fx_mul, fx_neg, fx_new, fx_sub, Fx};
use crate::vector::Vector3;
use vstd::prelude::*;

verus! {

#[derive(Clone, Copy, Debug, PartialEq, Eq, Structural)]
pub struct Point {
    pub x: Fx,
    pub y: Fx,
    pub z: Fx,
}

impl Point {
    pub fn new(x: Fx, y: Fx, z: Fx) -> (p: Point)
        ensures
            p == (Point { x, y, z }),
    {
        Point { x, y, z }
    }

    pub fn zero() -> (p: Point)
        ensures
            p == (Point { x: fx_new(0), y: fx_new(0), z: fx_new(0) }),
    {
        Point { x: Fx::zero(), y: Fx::zero(), z: Fx::zero() }
    }
}

impl Default for Point {
    fn default() -> (p: Point)
        ensures
            p == (Point { x: fx_new(0), y: fx_new(0), z: fx_new(0) }),
    {
        Point { x: Fx::zero(), y: Fx::zero(), z: Fx::zero() }
    }
}

impl ApproxEq for Point {
    open spec fn approx_spec(&self, other: &Self) -> bool {
        fx_approx(self.x@, other.x@, EPSILON as int) && fx_approx(self.y@, other.y@, EPSILON as int)
            && fx_approx(self.z@, other.z@, EPSILON as int)
    }

    open spec fn approx_low_spec(&self, other: &Self) -> bool {
        fx_approx(self.x@, other.x@, LOW_EPSILON as int) && fx_approx(
            self.y@,
            other.y@,
            LOW_EPSILON as int,
        ) && fx_approx(self.z@, other.z@, LOW_EPSILON as int)
    }

    fn approx_eq(&self, other: &Self) -> (res: bool) {
        self.x.approx_eq(&other.x) && self.y.approx_eq(&other.y) && self.z.approx_eq(&other.z)
    }

    fn approx_eq_low(&self, other: &Self) -> (res: bool) {
        self.x.approx_eq_low(&other.x) && self.y.approx_eq_low(&other.y) && self.z.approx_eq_low(
            &other.z,
        )
    }
}

impl Point {
    /// The point with every coordinate negated.
    pub fn negate(&self) -> (r: Point)
        ensures
            r == (Point {
                x: fx_new(fx_neg(self.x@)),
                y: fx_new(fx_neg(self.y@)),
                z: fx_new(fx_neg(self.z@)),
            }),
    {
        Point { x: self.x.neg(), y: self.y.neg(), z: self.z.neg() }
    }

    /// Componentwise sum of two points.
    pub fn add(self, other: Point) -> (r: Point)
        ensures
            r == (Point {
                x: fx_new(fx_add(self.x@, other.x@)),
                y: fx_new(fx_add(self.y@, other.y@)),
                z: fx_new(fx_add(self.z@, other.z@)),
            }),
    {
        Point { x: self.x.add(other.x), y: self.y.add(other.y), z: self.z.add(other.z) }
    }

    /// Componentwise difference of two points.
    pub fn sub(self, other: Point) -> (r: Point)
        ensures
            r == (Point {
                x: fx_new(fx_sub(self.x@, other.x@)),
                y: fx_new(fx_sub(self.y@, other.y@)),
                z: fx_new(fx_sub(self.z@, other.z@)),
            }),
    {
        Point { x: self.x.sub(other.x), y: self.y.sub(other.y), z: self.z.sub(other.z) }
    }

    /// Componentwise product of two points.
    pub fn mul(self, other: Point) -> (r: Point)
        ensures
            r == (Point {
                x: fx_new(fx_mul(self.x@, other.x@)),
                y: fx_new(fx_mul(self.y@, other.y@)),
                z: fx_new(fx_mul(self.z@, other.z@)),
            }),
    {
        Point { x: self.x.mul(other.x), y: self.y.mul(other.y), z: self.z.mul(other.z) }
    }

    /// The point scaled by a scalar.
    pub fn mul_scalar(self, k: Fx) -> (r: Point)
        ensures
            r == (Point {
                x: fx_new(fx_mul(self.x@, k@)),
                y: fx_new(fx_mul(self.y@, k@)),
                z: fx_new(fx_mul(self.z@, k@)),
            }),
    {
        Point { x: self.x.mul(k), y: self.y.mul(k), z: self.z.mul(k) }
    }

    /// The point divided by a scalar.
    pub fn div_scalar(self, k: Fx) -> (r: Point)
        ensures
            r == (Point {
                x: fx_new(fx_div(self.x@, k@)),
                y: fx_new(fx_div(self.y@, k@)),
                z: fx_new(fx_div(self.z@, k@)),
            }),
    {
        Point { x: self.x.div(k), y: self.y.div(k), z: self.z.div(k) }
    }

    /// The point moved along a vector.
    pub fn add_vector(self, other: Vector3) -> (r: Point)
        ensures
            r == (Point {
                x: fx_new(fx_add(self.x@, other.x@)),
                y: fx_new(fx_add(self.y@, other.y@)),
                z: fx_new(fx_add(self.z@, other.z@)),
            }),
    {
        Point { x: self.x.add(other.x), y: self.y.add(other.y), z: self.z.add(other.z) }
    }

    /// The point moved back along a vector.
    pub fn sub_vector(self, other: Vector3) -> (r: Point)
        ensures
            r == (Point {
                x: fx_new(fx_sub(self.x@, other.x@)),
                y: fx_new(fx_sub(self.y@, other.y@)),
                z: fx_new(fx_sub(self.z@, other.z@)),
            }),
    {
        Point { x: self.x.sub(other.x), y: self.y.sub(other.y), z: self.z.sub(other.z) }
    }
}

} // verus!
