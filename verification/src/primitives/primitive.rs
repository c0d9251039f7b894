//! The closed set of primitive shapes, as a tagged variant with value
//! semantics. The enum does the world/local bookkeeping once, uniformly:
//! rays are taken into a shape's local space through the cached inverse, and
//! local normals come back through the cached inverse transpose.

use crate::intersections::{Intersection, Intersections};
use crate::material::Material;
use crate::matrices::matrix4::{m4_mul_point, m4_mul_vector, Matrix4};
use crate::point::Point;
use crate::primitives::cube::{cube_local_intersect, cube_local_normal, Cube};
use crate::primitives::plane::{plane_local_intersect, Plane};
use crate::primitives::sphere::{sphere_local_intersect, sphere_local_normal, Sphere};
use crate::primitives::triangle::{triangle_local_intersect, Triangle};
use crate::ray::{ray_transform, Ray};
use crate::vector::{normalize_spec, Vector3};
use vstd::prelude::*;

verus! {

/// What a primitive answers: intersections and normals (in the space the
/// implementing type works in), and its material and cached transforms. The
/// contracts stand on the inherent methods these forward to.
pub trait Primitive: Sized {
    fn intersect(&self, ray: &Ray) -> Intersections;

    fn normal(&self, point: &Point) -> Vector3;

    fn material(&self) -> Material;

    fn transformation(&self) -> &Matrix4;

    fn transformation_invert(&self) -> &Matrix4;
}

#[derive(Clone, Copy, Debug, PartialEq, Eq, Structural)]
pub enum PrimitiveShape {
    SphereShape(Sphere),
    PlaneShape(Plane),
    CubeShape(Cube),
    TriangleShape(Triangle),
}

pub open spec fn shape_material(shape: PrimitiveShape) -> Material {
    match shape {
        PrimitiveShape::SphereShape(s) => s.material,
        PrimitiveShape::PlaneShape(p) => p.material,
        PrimitiveShape::CubeShape(c) => c.material,
        PrimitiveShape::TriangleShape(t) => t.material,
    }
}

pub open spec fn shape_transformation(shape: PrimitiveShape) -> Matrix4 {
    match shape {
        PrimitiveShape::SphereShape(s) => s.transformation,
        PrimitiveShape::PlaneShape(p) => p.transformation,
        PrimitiveShape::CubeShape(c) => c.transformation,
        PrimitiveShape::TriangleShape(t) => t.transformation,
    }
}

pub open spec fn shape_transformation_inverse(shape: PrimitiveShape) -> Matrix4 {
    match shape {
        PrimitiveShape::SphereShape(s) => s.transformation_inverse,
        PrimitiveShape::PlaneShape(p) => p.transformation_inverse,
        PrimitiveShape::CubeShape(c) => c.transformation_inverse,
        PrimitiveShape::TriangleShape(t) => t.transformation_inverse,
    }
}

pub open spec fn shape_transformation_inverse_transpose(shape: PrimitiveShape) -> Matrix4 {
    match shape {
        PrimitiveShape::SphereShape(s) => s.transformation_inverse_transpose,
        PrimitiveShape::PlaneShape(p) => p.transformation_inverse_transpose,
        PrimitiveShape::CubeShape(c) => c.transformation_inverse_transpose,
        PrimitiveShape::TriangleShape(t) => t.transformation_inverse_transpose,
    }
}

/// The ray taken into the shape's local space through the cached inverse.
pub open spec fn shape_local_ray(shape: PrimitiveShape, ray: Ray) -> Ray {
    ray_transform(ray, shape_transformation_inverse(shape))
}

/// World-space intersections: the ray goes through the cached inverse first,
/// and each kind intersects in its own local space.
pub open spec fn shape_intersect_spec(shape: PrimitiveShape, ray: Ray) -> Seq<Intersection> {
    match shape {
        PrimitiveShape::SphereShape(s) => sphere_local_intersect(s, shape_local_ray(shape, ray)),
        PrimitiveShape::PlaneShape(p) => plane_local_intersect(p, shape_local_ray(shape, ray)),
        PrimitiveShape::CubeShape(c) => cube_local_intersect(c, shape_local_ray(shape, ray)),
        PrimitiveShape::TriangleShape(t) => triangle_local_intersect(
            t,
            shape_local_ray(shape, ray),
        ),
    }
}

/// The local normal at a local point, by shape kind.
pub open spec fn shape_local_normal(shape: PrimitiveShape, local: Point) -> Vector3 {
    match shape {
        PrimitiveShape::SphereShape(_) => sphere_local_normal(local),
        PrimitiveShape::PlaneShape(_) => Vector3 {
            x: crate::fx::fx_new(0),
            y: crate::fx::fx_new(crate::fx::SCALE as int),
            z: crate::fx::fx_new(0),
        },
        PrimitiveShape::CubeShape(_) => cube_local_normal(local),
        PrimitiveShape::TriangleShape(t) => t.normal,
    }
}

/// World-space normal: the point goes to local space through the cached
/// inverse, and the local normal comes back through the cached inverse
/// transpose, normalized.
pub open spec fn shape_normal_spec(shape: PrimitiveShape, point: Point) -> Vector3 {
    let local = m4_mul_point(shape_transformation_inverse(shape), point);
    normalize_spec(
        m4_mul_vector(shape_transformation_inverse_transpose(shape), shape_local_normal(shape, local)),
    )
}

impl PrimitiveShape {
    /// World-space intersections of the ray with this shape.
    pub fn intersect(&self, ray: &Ray) -> (r: Intersections)
        ensures
            r@ == shape_intersect_spec(*self, *ray),
    {
        match self {
            PrimitiveShape::SphereShape(sphere) => {
                let local = ray.transform(&sphere.transformation_inverse);
                sphere.intersect(&local)
            },
            PrimitiveShape::PlaneShape(plane) => {
                let local = ray.transform(&plane.transformation_inverse);
                plane.intersect(&local)
            },
            PrimitiveShape::CubeShape(cube) => {
                let local = ray.transform(&cube.transformation_inverse);
                cube.intersect(&local)
            },
            PrimitiveShape::TriangleShape(triangle) => {
                let local = ray.transform(&triangle.transformation_inverse);
                triangle.intersect(&local)
            },
        }
    }

    /// World-space surface normal at a world point.
    pub fn normal(&self, point: &Point) -> (r: Vector3)
        ensures
            r == shape_normal_spec(*self, *point),
    {
        match self {
            PrimitiveShape::SphereShape(sphere) => {
                let local_point = sphere.transformation_inverse.mul_point(*point);
                let local_normal = sphere.normal(&local_point);
                let world_normal = sphere.transformation_inverse_transpose.mul_vector(local_normal);
                world_normal.normalize()
            },
            PrimitiveShape::PlaneShape(plane) => {
                let local_point = plane.transformation_inverse.mul_point(*point);
                let local_normal = plane.normal(&local_point);
                let world_normal = plane.transformation_inverse_transpose.mul_vector(local_normal);
                world_normal.normalize()
            },
            PrimitiveShape::CubeShape(cube) => {
                let local_point = cube.transformation_inverse.mul_point(*point);
                let local_normal = cube.normal(&local_point);
                let world_normal = cube.transformation_inverse_transpose.mul_vector(local_normal);
                world_normal.normalize()
            },
            PrimitiveShape::TriangleShape(triangle) => {
                let local_point = triangle.transformation_inverse.mul_point(*point);
                let local_normal = triangle.normal(&local_point);
                let world_normal = triangle.transformation_inverse_transpose.mul_vector(
                    local_normal,
                );
                world_normal.normalize()
            },
        }
    }

    /// The shape's material.
    pub fn material(&self) -> (r: Material)
        ensures
            r == shape_material(*self),
    {
        match self {
            PrimitiveShape::SphereShape(sphere) => sphere.material.clone(),
            PrimitiveShape::PlaneShape(plane) => plane.material.clone(),
            PrimitiveShape::CubeShape(cube) => cube.material.clone(),
            PrimitiveShape::TriangleShape(triangle) => triangle.material.clone(),
        }
    }

    /// The shape's transform.
    pub fn transformation(&self) -> (r: &Matrix4)
        ensures
            *r == shape_transformation(*self),
    {
        match self {
            PrimitiveShape::SphereShape(sphere) => &sphere.transformation,
            PrimitiveShape::PlaneShape(plane) => &plane.transformation,
            PrimitiveShape::CubeShape(cube) => &cube.transformation,
            PrimitiveShape::TriangleShape(triangle) => &triangle.transformation,
        }
    }

    /// The cached inverse of the shape's transform.
    pub fn transformation_invert(&self) -> (r: &Matrix4)
        ensures
            *r == shape_transformation_inverse(*self),
    {
        match self {
            PrimitiveShape::SphereShape(sphere) => &sphere.transformation_inverse,
            PrimitiveShape::PlaneShape(plane) => &plane.transformation_inverse,
            PrimitiveShape::CubeShape(cube) => &cube.transformation_inverse,
            PrimitiveShape::TriangleShape(triangle) => &triangle.transformation_inverse,
        }
    }
}

impl Primitive for PrimitiveShape {
    fn intersect(&self, ray: &Ray) -> Intersections {
        PrimitiveShape::intersect(self, ray)
    }

    fn normal(&self, point: &Point) -> Vector3 {
        PrimitiveShape::normal(self, point)
    }

    fn material(&self) -> Material {
        PrimitiveShape::material(self)
    }

    fn transformation(&self) -> &Matrix4 {
        PrimitiveShape::transformation(self)
    }

    fn transformation_invert(&self) -> &Matrix4 {
        PrimitiveShape::transformation_invert(self)
    }
}

} // verus!
