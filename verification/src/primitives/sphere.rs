//! The unit sphere, centered at the local origin with radius one.

use crate::fx::{fx_add, fx_div, fx_mul, fx_neg, fx_new, fx_sqrt, fx_sub, Fx, SCALE};
use crate::intersections::{Intersection, Intersections};
use crate::material::Material;
use crate::matrices::matrix4::{m4_id, m4_invert, m4_is_invertible, m4_mul, m4_transpose, Matrix4};
use crate::matrices::Matrix;
use crate::point::Point;
use crate::primitives::{Primitive, PrimitiveShape};
use crate::ray::Ray;
use crate::transformations::{Over, Transform, TransformBuilder, Transformable};
use crate::vector::{dot_spec, Vector3};
use vstd::prelude::*;

verus! {

#[derive(Clone, Copy, Debug, PartialEq, Eq, Structural)]
pub struct Sphere {
    pub origin: Point,
    pub radius: Fx,
    pub transformation: Matrix4,
    pub transformation_inverse: Matrix4,
    pub transformation_inverse_transpose: Matrix4,
    pub material: Material,
}

/// Solve `a t^2 + b t + c = 0` against the unit sphere, in the sphere's
/// local space. A negative discriminant, like a zero direction, is a miss;
/// otherwise both roots come back, the smaller first.
pub open spec fn sphere_local_intersect(s: Sphere, ray: Ray) -> Seq<Intersection> {
    let to_ray = Vector3 { x: ray.origin.x, y: ray.origin.y, z: ray.origin.z };
    let a = dot_spec(ray.direction, ray.direction);
    let b = fx_mul(2 * SCALE, dot_spec(ray.direction, to_ray));
    let c = fx_sub(dot_spec(to_ray, to_ray), SCALE as int);
    let disc = fx_sub(fx_mul(b, b), fx_mul(fx_mul(4 * SCALE, a), c));
    if disc < 0 || a == 0 {
        Seq::empty()
    } else {
        let sq = fx_sqrt(disc);
        let denominator = fx_mul(2 * SCALE, a);
        seq![
            Intersection {
                time: fx_new(fx_div(fx_sub(fx_neg(b), sq), denominator)),
                object: PrimitiveShape::SphereShape(s),
            },
            Intersection {
                time: fx_new(fx_div(fx_add(fx_neg(b), sq), denominator)),
                object: PrimitiveShape::SphereShape(s),
            },
        ]
    }
}

/// The local normal: the hit point taken as a vector from the origin.
pub open spec fn sphere_local_normal(point: Point) -> Vector3 {
    Vector3 { x: point.x, y: point.y, z: point.z }
}

impl Sphere {
    pub fn new(origin: Point, radius: Fx, material: Material) -> (r: Sphere)
        ensures
            r == (Sphere {
                origin,
                radius,
                transformation: m4_id(),
                transformation_inverse: m4_id(),
                transformation_inverse_transpose: m4_id(),
                material,
            }),
    {
        Sphere {
            origin,
            radius,
            transformation: Matrix4::identity(),
            transformation_inverse: Matrix4::identity(),
            transformation_inverse_transpose: Matrix4::identity(),
            material,
        }
    }

    pub fn apply_material(self, material: Material) -> (r: Sphere)
        ensures
            r == (Sphere { material, ..self }),
    {
        Sphere { material, ..self }
    }
}

/// The cached matrices composed with one more transform. The composed
/// transform must be invertible — a singular one is a malformed scene, which
/// `transform` refuses by precondition.
pub open spec fn sphere_transform_spec(s: Sphere, transformation: Matrix4) -> Sphere {
    let delta = m4_mul(transformation, s.transformation);
    let inverse = m4_invert(delta);
    Sphere {
        transformation: delta,
        transformation_inverse: inverse,
        transformation_inverse_transpose: m4_transpose(inverse),
        ..s
    }
}

impl Sphere {
    /// Local-space intersections (the caller brings the ray into this
    /// shape's space first).
    pub fn intersect(&self, ray: &Ray) -> (r: Intersections)
        ensures
            r@ == sphere_local_intersect(*self, *ray),
    {
        let to_ray = Vector3 { x: ray.origin.x, y: ray.origin.y, z: ray.origin.z };
        let two = Fx::from_raw(2 * SCALE);
        let a = ray.direction.dot(&ray.direction);
        let b = two.mul(ray.direction.dot(&to_ray));
        let c = to_ray.dot(&to_ray).sub(Fx::one());
        let disc = b.mul(b).sub(Fx::from_raw(4 * SCALE).mul(a).mul(c));
        if disc.raw < 0 || a.raw == 0 {
            Intersections::new()
        } else {
            let sq = disc.sqrt();
            let denominator = two.mul(a);
            let t1 = b.neg().sub(sq).div(denominator);
            let t2 = b.neg().add(sq).div(denominator);
            Intersections::new().with(
                vec![
                    Intersection::new(t1, PrimitiveShape::SphereShape(*self)),
                    Intersection::new(t2, PrimitiveShape::SphereShape(*self)),
                ],
            )
        }
    }

    /// Local-space normal.
    pub fn normal(&self, point: &Point) -> (r: Vector3)
        ensures
            r == sphere_local_normal(*point),
    {
        Vector3 { x: point.x, y: point.y, z: point.z }
    }

    /// Compose a transform onto the cached matrices.
    pub fn transform(self, transformation: &Matrix4) -> (r: Sphere)
        requires
            m4_is_invertible(m4_mul(*transformation, self.transformation)),
        ensures
            r == sphere_transform_spec(self, *transformation),
    {
        let delta = transformation.mul_matrix(self.transformation);
        let mut delta_inverse = delta.invert();
        let transposed = delta_inverse.transpose();
        Sphere {
            transformation: delta,
            transformation_inverse: delta_inverse,
            transformation_inverse_transpose: transposed,
            ..self
        }
    }
}

impl Primitive for Sphere {
    fn intersect(&self, ray: &Ray) -> Intersections {
        Sphere::intersect(self, ray)
    }

    fn normal(&self, point: &Point) -> Vector3 {
        Sphere::normal(self, point)
    }

    fn material(&self) -> Material {
        self.material.clone()
    }

    fn transformation(&self) -> &Matrix4 {
        &self.transformation
    }

    fn transformation_invert(&self) -> &Matrix4 {
        &self.transformation_inverse
    }
}

impl Transformable for Sphere {
    open spec fn transformed_spec(self, transformation: Matrix4) -> Sphere {
        sphere_transform_spec(self, transformation)
    }

    open spec fn transform_req(self, transformation: Matrix4) -> bool {
        m4_is_invertible(m4_mul(transformation, self.transformation))
    }

    fn transform(self, transformation: &Matrix4) -> Sphere {
        Sphere::transform(self, transformation)
    }

    fn translate(self, x: Fx, y: Fx, z: Fx) -> TransformBuilder<Self> {
        TransformBuilder {
            transformation: Transform::Translate(x, y, z).transformation(),
            inner: self,
        }
    }

    fn rotate(self, over: Over, angle: Fx) -> TransformBuilder<Self> {
        TransformBuilder {
            transformation: Transform::Rotate(over, angle).transformation(),
            inner: self,
        }
    }

    fn scale(self, x: Fx, y: Fx, z: Fx) -> TransformBuilder<Self> {
        TransformBuilder { transformation: Transform::Scale(x, y, z).transformation(), inner: self }
    }

    fn shear(self, xy: Fx, xz: Fx, yx: Fx, yz: Fx, zx: Fx, zy: Fx) -> TransformBuilder<Self> {
        TransformBuilder {
            transformation: Transform::Shear(xy, xz, yx, yz, zx, zy).transformation(),
            inner: self,
        }
    }
}

impl Default for Sphere {
    fn default() -> (r: Sphere)
        ensures
            r == (Sphere {
                origin: Point { x: fx_new(0), y: fx_new(0), z: fx_new(0) },
                radius: fx_new(SCALE as int),
                transformation: m4_id(),
                transformation_inverse: m4_id(),
                transformation_inverse_transpose: m4_id(),
                material: crate::material::material_default(),
            }),
    {
        Sphere {
            origin: Point::zero(),
            radius: Fx::one(),
            transformation: Matrix4::identity(),
            transformation_inverse: Matrix4::identity(),
            transformation_inverse_transpose: Matrix4::identity(),
            material: Material::default(),
        }
    }
}

} // verus!
