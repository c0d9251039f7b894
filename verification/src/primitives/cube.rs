//! The axis-aligned cube spanning [-1, 1] on each local axis, intersected by
//! the per-axis slab test.

use crate::approx::{fx_approx, LOW_EPSILON};
use crate::fx::{fx_abs, fx_clip, fx_div, fx_max, fx_min, fx_new, fx_sub, Fx, SCALE};
use crate::intersections::{Intersection, Intersections};
use crate::material::Material;
use crate::matrices::matrix4::{m4_id, m4_invert, m4_is_invertible, m4_mul, m4_transpose, Matrix4};
use crate::matrices::Matrix;
use crate::point::Point;
use crate::primitives::{Primitive, PrimitiveShape};
use crate::ray::Ray;
use crate::transformations::{Over, Transform, TransformBuilder, Transformable};
use crate::vector::Vector3;
use vstd::prelude::*;

verus! {

#[derive(Clone, Copy, Debug, PartialEq, Eq, Structural)]
pub struct Cube {
    pub transformation: Matrix4,
    pub transformation_inverse: Matrix4,
    pub transformation_inverse_transpose: Matrix4,
    pub material: Material,
}

/// Entry and exit parameters for one slab. A zero direction saturates the
/// quotients, which plays the role the infinities do in a floating-point
/// slab test.
pub open spec fn check_axis_spec(origin: int, direction: int) -> (int, int) {
    let tmin = fx_div(fx_sub(-SCALE as int, origin), direction);
    let tmax = fx_div(fx_sub(SCALE as int, origin), direction);
    if tmin > tmax {
        (tmax, tmin)
    } else {
        (tmin, tmax)
    }
}

/// Slab test: the latest entry against the earliest exit.
pub open spec fn cube_local_intersect(c: Cube, ray: Ray) -> Seq<Intersection> {
    let tx = check_axis_spec(ray.origin.x@, ray.direction.x@);
    let ty = check_axis_spec(ray.origin.y@, ray.direction.y@);
    let tz = check_axis_spec(ray.origin.z@, ray.direction.z@);
    let tmin = fx_max(fx_max(tx.0, ty.0), tz.0);
    let tmax = fx_min(fx_min(tx.1, ty.1), tz.1);
    if tmin > tmax {
        Seq::empty()
    } else {
        seq![
            Intersection { time: fx_new(tmin), object: PrimitiveShape::CubeShape(c) },
            Intersection { time: fx_new(tmax), object: PrimitiveShape::CubeShape(c) },
        ]
    }
}

/// The face is picked by the largest absolute coordinate, ties broken in the
/// order x, y, z (within the loose tolerance, as the hit point carries
/// transform rounding).
pub open spec fn cube_local_normal(point: Point) -> Vector3 {
    let ax = fx_clip(fx_abs(point.x@));
    let ay = fx_clip(fx_abs(point.y@));
    let az = fx_clip(fx_abs(point.z@));
    let maxc = fx_max(fx_max(ax, ay), az);
    if fx_approx(maxc, ax, LOW_EPSILON as int) {
        Vector3 { x: point.x, y: fx_new(0), z: fx_new(0) }
    } else if fx_approx(maxc, ay, LOW_EPSILON as int) {
        Vector3 { x: fx_new(0), y: point.y, z: fx_new(0) }
    } else {
        Vector3 { x: fx_new(0), y: fx_new(0), z: point.z }
    }
}

fn check_axis(origin: Fx, direction: Fx) -> (r: (Fx, Fx))
    ensures
        (r.0@, r.1@) == check_axis_spec(origin@, direction@),
{
    let tmin = Fx::from_raw(-SCALE).sub(origin).div(direction);
    let tmax = Fx::from_raw(SCALE).sub(origin).div(direction);
    if tmin.raw > tmax.raw {
        (tmax, tmin)
    } else {
        (tmin, tmax)
    }
}

impl Cube {
    pub fn new(material: Material) -> (r: Cube)
        ensures
            r == (Cube {
                transformation: m4_id(),
                transformation_inverse: m4_id(),
                transformation_inverse_transpose: m4_id(),
                material,
            }),
    {
        Cube {
            transformation: Matrix4::identity(),
            transformation_inverse: Matrix4::identity(),
            transformation_inverse_transpose: Matrix4::identity(),
            material,
        }
    }

    pub fn apply_material(self, material: Material) -> (r: Cube)
        ensures
            r == (Cube { material, ..self }),
    {
        Cube { material, ..self }
    }
}

/// The cached matrices composed with one more transform. The composed
/// transform must be invertible — a singular one is a malformed scene, which
/// `transform` refuses by precondition.
pub open spec fn cube_transform_spec(s: Cube, transformation: Matrix4) -> Cube {
    let delta = m4_mul(transformation, s.transformation);
    let inverse = m4_invert(delta);
    Cube {
        transformation: delta,
        transformation_inverse: inverse,
        transformation_inverse_transpose: m4_transpose(inverse),
        ..s
    }
}

impl Cube {
    /// Local-space intersections (the caller brings the ray into this
    /// shape's space first).
    pub fn intersect(&self, ray: &Ray) -> (r: Intersections)
        ensures
            r@ == cube_local_intersect(*self, *ray),
    {
        let tx = check_axis(ray.origin.x, ray.direction.x);
        let ty = check_axis(ray.origin.y, ray.direction.y);
        let tz = check_axis(ray.origin.z, ray.direction.z);
        let tmin = tx.0.max(ty.0).max(tz.0);
        let tmax = tx.1.min(ty.1).min(tz.1);
        if tmin.raw > tmax.raw {
            Intersections::new()
        } else {
            Intersections::new().with(
                vec![
                    Intersection::new(tmin, PrimitiveShape::CubeShape(*self)),
                    Intersection::new(tmax, PrimitiveShape::CubeShape(*self)),
                ],
            )
        }
    }

    /// Local-space normal.
    pub fn normal(&self, point: &Point) -> (r: Vector3)
        ensures
            r == cube_local_normal(*point),
    {
        let ax = point.x.abs();
        let ay = point.y.abs();
        let az = point.z.abs();
        let maxc = ax.max(ay).max(az);
        if maxc.sub(ax).abs().raw < LOW_EPSILON {
            Vector3 { x: point.x, y: Fx::zero(), z: Fx::zero() }
        } else if maxc.sub(ay).abs().raw < LOW_EPSILON {
            Vector3 { x: Fx::zero(), y: point.y, z: Fx::zero() }
        } else {
            Vector3 { x: Fx::zero(), y: Fx::zero(), z: point.z }
        }
    }

    /// Compose a transform onto the cached matrices.
    pub fn transform(self, transformation: &Matrix4) -> (r: Cube)
        requires
            m4_is_invertible(m4_mul(*transformation, self.transformation)),
        ensures
            r == cube_transform_spec(self, *transformation),
    {
        let delta = transformation.mul_matrix(self.transformation);
        let mut delta_inverse = delta.invert();
        let transposed = delta_inverse.transpose();
        Cube {
            transformation: delta,
            transformation_inverse: delta_inverse,
            transformation_inverse_transpose: transposed,
            ..self
        }
    }
}

impl Primitive for Cube {
    fn intersect(&self, ray: &Ray) -> Intersections {
        Cube::intersect(self, ray)
    }

    fn normal(&self, point: &Point) -> Vector3 {
        Cube::normal(self, point)
    }

    fn material(&self) -> Material {
        self.material.clone()
    }

    fn transformation(&self) -> &Matrix4 {
        &self.transformation
    }

    fn transformation_invert(&self) -> &Matrix4 {
        &self.transformation_inverse
    }
}

impl Transformable for Cube {
    open spec fn transformed_spec(self, transformation: Matrix4) -> Cube {
        cube_transform_spec(self, transformation)
    }

    open spec fn transform_req(self, transformation: Matrix4) -> bool {
        m4_is_invertible(m4_mul(transformation, self.transformation))
    }

    fn transform(self, transformation: &Matrix4) -> Cube {
        Cube::transform(self, transformation)
    }

    fn translate(self, x: Fx, y: Fx, z: Fx) -> TransformBuilder<Self> {
        TransformBuilder {
            transformation: Transform::Translate(x, y, z).transformation(),
            inner: self,
        }
    }

    fn rotate(self, over: Over, angle: Fx) -> TransformBuilder<Self> {
        TransformBuilder {
            transformation: Transform::Rotate(over, angle).transformation(),
            inner: self,
        }
    }

    fn scale(self, x: Fx, y: Fx, z: Fx) -> TransformBuilder<Self> {
        TransformBuilder { transformation: Transform::Scale(x, y, z).transformation(), inner: self }
    }

    fn shear(self, xy: Fx, xz: Fx, yx: Fx, yz: Fx, zx: Fx, zy: Fx) -> TransformBuilder<Self> {
        TransformBuilder {
            transformation: Transform::Shear(xy, xz, yx, yz, zx, zy).transformation(),
            inner: self,
        }
    }
}

impl Default for Cube {
    fn default() -> (r: Cube)
        ensures
            r == (Cube {
                transformation: m4_id(),
                transformation_inverse: m4_id(),
                transformation_inverse_transpose: m4_id(),
                material: crate::material::material_default(),
            }),
    {
        Cube {
            transformation: Matrix4::identity(),
            transformation_inverse: Matrix4::identity(),
            transformation_inverse_transpose: Matrix4::identity(),
            material: Material::default(),
        }
    }
}

} // verus!
