//! Rays: an origin and a direction, immutable once built.

use crate::fx::{fx_add, fx_mul, fx_new, Fx};
use crate::matrices::matrix4::{m4_mul_point, m4_mul_vector, Matrix4};
use crate::point::Point;
use crate::transformations::{Over, Transform, TransformBuilder, Transformable};
use crate::vector::Vector3;
use vstd::prelude::*;

verus! {

#[derive(Clone, Copy, Debug, PartialEq, Eq, Structural)]
pub struct Ray {
    pub origin: Point,
    pub direction: Vector3,
}

/// `origin + direction * time`.
pub open spec fn ray_position(ray: Ray, time: int) -> Point {
    Point {
        x: fx_new(fx_add(ray.origin.x@, fx_mul(ray.direction.x@, time))),
        y: fx_new(fx_add(ray.origin.y@, fx_mul(ray.direction.y@, time))),
        z: fx_new(fx_add(ray.origin.z@, fx_mul(ray.direction.z@, time))),
    }
}

/// Both parts of the ray taken through a matrix; the direction ignores the
/// translation column.
pub open spec fn ray_transform(ray: Ray, m: Matrix4) -> Ray {
    Ray { origin: m4_mul_point(m, ray.origin), direction: m4_mul_vector(m, ray.direction) }
}

impl Ray {
    pub fn new(origin: Point, direction: Vector3) -> (r: Ray)
        ensures
            r == (Ray { origin, direction }),
    {
        Ray { origin, direction }
    }

    /// The point the ray reaches at parameter `time`.
    pub fn position(&self, time: Fx) -> (p: Point)
        ensures
            p == ray_position(*self, time@),
    {
        Point {
            x: self.origin.x.add(self.direction.x.mul(time)),
            y: self.origin.y.add(self.direction.y.mul(time)),
            z: self.origin.z.add(self.direction.z.mul(time)),
        }
    }
}

impl Ray {
    /// Both parts of the ray taken through a matrix.
    pub fn transform(self, transformation: &Matrix4) -> (r: Ray)
        ensures
            r == ray_transform(self, *transformation),
    {
        Ray {
            origin: transformation.mul_point(self.origin),
            direction: transformation.mul_vector(self.direction),
        }
    }
}

impl Transformable for Ray {
    open spec fn transformed_spec(self, transformation: Matrix4) -> Ray {
        ray_transform(self, transformation)
    }

    open spec fn transform_req(self, transformation: Matrix4) -> bool {
        true
    }

    fn transform(self, transformation: &Matrix4) -> Ray {
        Ray::transform(self, transformation)
    }

    fn translate(self, x: Fx, y: Fx, z: Fx) -> TransformBuilder<Self> {
        TransformBuilder {
            transformation: Transform::Translate(x, y, z).transformation(),
            inner: self,
        }
    }

    fn rotate(self, over: Over, angle: Fx) -> TransformBuilder<Self> {
        TransformBuilder {
            transformation: Transform::Rotate(over, angle).transformation(),
            inner: self,
        }
    }

    fn scale(self, x: Fx, y: Fx, z: Fx) -> TransformBuilder<Self> {
        TransformBuilder { transformation: Transform::Scale(x, y, z).transformation(), inner: self }
    }

    fn shear(self, xy: Fx, xz: Fx, yx: Fx, yz: Fx, zx: Fx, zy: Fx) -> TransformBuilder<Self> {
        TransformBuilder {
            transformation: Transform::Shear(xy, xz, yx, yz, zx, zy).transformation(),
            inner: self,
        }
    }
}

impl Default for Ray {
    fn default() -> (r: Ray)
        ensures
            r.origin == (Point { x: fx_new(0), y: fx_new(0), z: fx_new(0) }),
            r.direction == (Vector3 { x: fx_new(0), y: fx_new(0), z: fx_new(0) }),
    {
        Ray { origin: Point::zero(), direction: Vector3::zero() }
    }
}

} // verus!
