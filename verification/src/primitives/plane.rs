//! The XZ plane through the local origin, with constant normal +Y.

use crate::approx::EPSILON;
use crate::fx::{fx_abs, fx_clip, fx_div, fx_neg, fx_new, Fx, SCALE};
use crate::intersections::{Intersection, Intersections};
use crate::material::Material;
use crate::matrices::matrix4::{m4_id, m4_invert, m4_is_invertible, m4_mul, m4_transpose, Matrix4};
use crate::matrices::Matrix;
use crate::point::Point;
use crate::primitives::{Primitive, PrimitiveShape};
use crate::ray::Ray;
use crate::transformations::{Over, Transform, TransformBuilder, Transformable};
use crate::vector::Vector3;
use vstd::prelude::*;

verus! {

#[derive(Clone, Copy, Debug, PartialEq, Eq, Structural)]
pub struct Plane {
    pub transformation: Matrix4,
    pub transformation_inverse: Matrix4,
    pub transformation_inverse_transpose: Matrix4,
    pub material: Material,
}

/// A ray parallel to the plane (|direction.y| within the tight tolerance,
/// the coplanar ray included) misses; any other ray crosses once, at
/// `-origin.y / direction.y`.
pub open spec fn plane_local_intersect(p: Plane, ray: Ray) -> Seq<Intersection> {
    if fx_clip(fx_abs(ray.direction.y@)) <= EPSILON {
        Seq::empty()
    } else {
        seq![
            Intersection {
                time: fx_new(fx_div(fx_neg(ray.origin.y@), ray.direction.y@)),
                object: PrimitiveShape::PlaneShape(p),
            },
        ]
    }
}

/// A ray parallel to the plane — the coplanar ray included — never
/// intersects it: the deliberate policy for degenerate geometry.
pub proof fn lemma_parallel_ray_misses_plane(p: Plane, ray: Ray)
    requires
        fx_clip(fx_abs(ray.direction.y@)) <= EPSILON,
    ensures
        plane_local_intersect(p, ray) == Seq::<Intersection>::empty(),
{
}

impl Plane {
    pub fn new(material: Material) -> (r: Plane)
        ensures
            r == (Plane {
                transformation: m4_id(),
                transformation_inverse: m4_id(),
                transformation_inverse_transpose: m4_id(),
                material,
            }),
    {
        Plane {
            transformation: Matrix4::identity(),
            transformation_inverse: Matrix4::identity(),
            transformation_inverse_transpose: Matrix4::identity(),
            material,
        }
    }

    pub fn apply_material(self, material: Material) -> (r: Plane)
        ensures
            r == (Plane { material, ..self }),
    {
        Plane { material, ..self }
    }
}

/// The cached matrices composed with one more transform. The composed
/// transform must be invertible — a singular one is a malformed scene, which
/// `transform` refuses by precondition.
pub open spec fn plane_transform_spec(s: Plane, transformation: Matrix4) -> Plane {
    let delta = m4_mul(transformation, s.transformation);
    let inverse = m4_invert(delta);
    Plane {
        transformation: delta,
        transformation_inverse: inverse,
        transformation_inverse_transpose: m4_transpose(inverse),
        ..s
    }
}

impl Plane {
    /// Local-space intersections (the caller brings the ray into this
    /// shape's space first).
    pub fn intersect(&self, ray: &Ray) -> (r: Intersections)
        ensures
            r@ == plane_local_intersect(*self, *ray),
    {
        if ray.direction.y.abs().raw <= EPSILON {
            Intersections::new()
        } else {
            let t = ray.origin.y.neg().div(ray.direction.y);
            Intersections::new().with(
                vec![Intersection::new(t, PrimitiveShape::PlaneShape(*self))],
            )
        }
    }

    /// Local-space normal.
    pub fn normal(&self, _point: &Point) -> (r: Vector3)
        ensures
            r == (Vector3 { x: fx_new(0), y: fx_new(SCALE as int), z: fx_new(0) }),
    {
        Vector3 { x: Fx::zero(), y: Fx::one(), z: Fx::zero() }
    }

    /// Compose a transform onto the cached matrices.
    pub fn transform(self, transformation: &Matrix4) -> (r: Plane)
        requires
            m4_is_invertible(m4_mul(*transformation, self.transformation)),
        ensures
            r == plane_transform_spec(self, *transformation),
    {
        let delta = transformation.mul_matrix(self.transformation);
        let mut delta_inverse = delta.invert();
        let transposed = delta_inverse.transpose();
        Plane {
            transformation: delta,
            transformation_inverse: delta_inverse,
            transformation_inverse_transpose: transposed,
            ..self
        }
    }
}

impl Primitive for Plane {
    fn intersect(&self, ray: &Ray) -> Intersections {
        Plane::intersect(self, ray)
    }

    fn normal(&self, point: &Point) -> Vector3 {
        Plane::normal(self, point)
    }

    fn material(&self) -> Material {
        self.material.clone()
    }

    fn transformation(&self) -> &Matrix4 {
        &self.transformation
    }

    fn transformation_invert(&self) -> &Matrix4 {
        &self.transformation_inverse
    }
}

impl Transformable for Plane {
    open spec fn transformed_spec(self, transformation: Matrix4) -> Plane {
        plane_transform_spec(self, transformation)
    }

    open spec fn transform_req(self, transformation: Matrix4) -> bool {
        m4_is_invertible(m4_mul(transformation, self.transformation))
    }

    fn transform(self, transformation: &Matrix4) -> Plane {
        Plane::transform(self, transformation)
    }

    fn translate(self, x: Fx, y: Fx, z: Fx) -> TransformBuilder<Self> {
        TransformBuilder {
            transformation: Transform::Translate(x, y, z).transformation(),
            inner: self,
        }
    }

    fn rotate(self, over: Over, angle: Fx) -> TransformBuilder<Self> {
        TransformBuilder {
            transformation: Transform::Rotate(over, angle).transformation(),
            inner: self,
        }
    }

    fn scale(self, x: Fx, y: Fx, z: Fx) -> TransformBuilder<Self> {
        TransformBuilder { transformation: Transform::Scale(x, y, z).transformation(), inner: self }
    }

    fn shear(self, xy: Fx, xz: Fx, yx: Fx, yz: Fx, zx: Fx, zy: Fx) -> TransformBuilder<Self> {
        TransformBuilder {
            transformation: Transform::Shear(xy, xz, yx, yz, zx, zy).transformation(),
            inner: self,
        }
    }
}

impl Default for Plane {
    fn default() -> (r: Plane)
        ensures
            r == (Plane {
                transformation: m4_id(),
                transformation_inverse: m4_id(),
                transformation_inverse_transpose: m4_id(),
                material: crate::material::material_default(),
            }),
    {
        Plane {
            transformation: Matrix4::identity(),
            transformation_inverse: Matrix4::identity(),
            transformation_inverse_transpose: Matrix4::identity(),
            material: Material::default(),
        }
    }
}

} // verus!
