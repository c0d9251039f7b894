//! A single triangle with precomputed edges and a constant normal,
//! intersected by the Möller–Trumbore parametric test.

use crate::approx::EPSILON;
use crate::fx::{fx_abs, fx_clip, fx_div, fx_mul, fx_new, fx_sub, Fx, SCALE};
use crate::intersections::{Intersection, Intersections};
use crate::material::Material;
use crate::matrices::matrix4::{m4_id, m4_invert, m4_is_invertible, m4_mul, m4_transpose, Matrix4};
use crate::matrices::Matrix;
use crate::point::Point;
use crate::primitives::{Primitive, PrimitiveShape};
use crate::ray::Ray;
use crate::transformations::{Over, Transform, TransformBuilder, Transformable};
use crate::vector::{cross_spec, dot_spec, normalize_spec, Vector3};
use vstd::prelude::*;

verus! {

#[derive(Clone, Copy, Debug, PartialEq, Eq, Structural)]
pub struct Triangle {
    pub point_a: Point,
    pub point_b: Point,
    pub point_c: Point,
    pub e_hit_a: Vector3,
    pub e_hit_b: Vector3,
    pub normal: Vector3,
    pub transformation: Matrix4,
    pub transformation_inverse: Matrix4,
    pub transformation_inverse_transpose: Matrix4,
    pub material: Material,
}

/// Möller–Trumbore: a near-zero determinant is a parallel miss; the
/// barycentric bounds reject hits outside the triangle; otherwise the ray
/// crosses once at `t`.
pub open spec fn triangle_local_intersect(tr: Triangle, ray: Ray) -> Seq<Intersection> {
    let p = cross_spec(ray.direction, tr.e_hit_b);
    let det = dot_spec(tr.e_hit_a, p);
    if fx_clip(fx_abs(det)) < EPSILON {
        Seq::empty()
    } else {
        let f = fx_div(SCALE as int, det);
        let s = Vector3 {
            x: fx_new(fx_sub(ray.origin.x@, tr.point_a.x@)),
            y: fx_new(fx_sub(ray.origin.y@, tr.point_a.y@)),
            z: fx_new(fx_sub(ray.origin.z@, tr.point_a.z@)),
        };
        let u = fx_mul(f, dot_spec(s, p));
        if u < 0 || u > SCALE {
            Seq::empty()
        } else {
            let q = cross_spec(s, tr.e_hit_a);
            let v = fx_mul(f, dot_spec(ray.direction, q));
            if v < 0 || fx_clip(u + v) > SCALE {
                Seq::empty()
            } else {
                let t = fx_mul(f, dot_spec(tr.e_hit_b, q));
                seq![
                    Intersection { time: fx_new(t), object: PrimitiveShape::TriangleShape(tr) },
                ]
            }
        }
    }
}

impl Triangle {
    pub fn new() -> (r: Triangle)
        ensures
            r == triangle_default(),
    {
        Triangle::default()
    }

    /// Build from three local vertices, precomputing the two edges from `pa`
    /// and the constant normal `normalize(e2 x e1)`.
    pub fn from(pa: Point, pb: Point, pc: Point) -> (r: Triangle)
        ensures
            r.point_a == pa,
            r.point_b == pb,
            r.point_c == pc,
            r.e_hit_a == (Vector3 {
                x: fx_new(fx_sub(pb.x@, pa.x@)),
                y: fx_new(fx_sub(pb.y@, pa.y@)),
                z: fx_new(fx_sub(pb.z@, pa.z@)),
            }),
            r.e_hit_b == (Vector3 {
                x: fx_new(fx_sub(pc.x@, pa.x@)),
                y: fx_new(fx_sub(pc.y@, pa.y@)),
                z: fx_new(fx_sub(pc.z@, pa.z@)),
            }),
            r.normal == normalize_spec(cross_spec(r.e_hit_b, r.e_hit_a)),
            r.transformation == m4_id(),
            r.transformation_inverse == m4_id(),
            r.transformation_inverse_transpose == m4_id(),
            r.material == crate::material::material_default(),
    {
        let e1 = Vector3 { x: pb.x.sub(pa.x), y: pb.y.sub(pa.y), z: pb.z.sub(pa.z) };
        let e2 = Vector3 { x: pc.x.sub(pa.x), y: pc.y.sub(pa.y), z: pc.z.sub(pa.z) };
        let normal = e2.cross(&e1).normalize();
        Triangle {
            point_a: pa,
            point_b: pb,
            point_c: pc,
            e_hit_a: e1,
            e_hit_b: e2,
            normal,
            transformation: Matrix4::identity(),
            transformation_inverse: Matrix4::identity(),
            transformation_inverse_transpose: Matrix4::identity(),
            material: Material::default(),
        }
    }

    pub fn apply_material(self, material: Material) -> (r: Triangle)
        ensures
            r == (Triangle { material, ..self }),
    {
        Triangle { material, ..self }
    }
}

/// The default triangle: all vertices at the origin, zero edges and normal.
pub open spec fn triangle_default() -> Triangle {
    Triangle {
        point_a: Point { x: fx_new(0), y: fx_new(0), z: fx_new(0) },
        point_b: Point { x: fx_new(0), y: fx_new(0), z: fx_new(0) },
        point_c: Point { x: fx_new(0), y: fx_new(0), z: fx_new(0) },
        e_hit_a: Vector3 { x: fx_new(0), y: fx_new(0), z: fx_new(0) },
        e_hit_b: Vector3 { x: fx_new(0), y: fx_new(0), z: fx_new(0) },
        normal: Vector3 { x: fx_new(0), y: fx_new(0), z: fx_new(0) },
        transformation: m4_id(),
        transformation_inverse: m4_id(),
        transformation_inverse_transpose: m4_id(),
        material: crate::material::material_default(),
    }
}

/// The cached matrices composed with one more transform. The composed
/// transform must be invertible — a singular one is a malformed scene, which
/// `transform` refuses by precondition.
pub open spec fn triangle_transform_spec(s: Triangle, transformation: Matrix4) -> Triangle {
    let delta = m4_mul(transformation, s.transformation);
    let inverse = m4_invert(delta);
    Triangle {
        transformation: delta,
        transformation_inverse: inverse,
        transformation_inverse_transpose: m4_transpose(inverse),
        ..s
    }
}

impl Triangle {
    /// Local-space intersections (the caller brings the ray into this
    /// shape's space first).
    pub fn intersect(&self, ray: &Ray) -> (r: Intersections)
        ensures
            r@ == triangle_local_intersect(*self, *ray),
    {
        let p = ray.direction.cross(&self.e_hit_b);
        let det = self.e_hit_a.dot(&p);
        if det.abs().raw < EPSILON {
            return Intersections::new();
        }
        let f = Fx::one().div(det);
        let s = Vector3 {
            x: ray.origin.x.sub(self.point_a.x),
            y: ray.origin.y.sub(self.point_a.y),
            z: ray.origin.z.sub(self.point_a.z),
        };
        let u = f.mul(s.dot(&p));
        if u.raw < 0 || u.raw > SCALE {
            return Intersections::new();
        }
        let q = s.cross(&self.e_hit_a);
        let v = f.mul(ray.direction.dot(&q));
        if v.raw < 0 || u.add(v).raw > SCALE {
            return Intersections::new();
        }
        let t = f.mul(self.e_hit_b.dot(&q));
        Intersections::new().with(
            vec![Intersection::new(t, PrimitiveShape::TriangleShape(*self))],
        )
    }

    /// Local-space normal.
    pub fn normal(&self, _point: &Point) -> (r: Vector3)
        ensures
            r == self.normal,
    {
        self.normal
    }

    /// Compose a transform onto the cached matrices.
    pub fn transform(self, transformation: &Matrix4) -> (r: Triangle)
        requires
            m4_is_invertible(m4_mul(*transformation, self.transformation)),
        ensures
            r == triangle_transform_spec(self, *transformation),
    {
        let delta = transformation.mul_matrix(self.transformation);
        let mut delta_inverse = delta.invert();
        let transposed = delta_inverse.transpose();
        Triangle {
            transformation: delta,
            transformation_inverse: delta_inverse,
            transformation_inverse_transpose: transposed,
            ..self
        }
    }
}

impl Primitive for Triangle {
    fn intersect(&self, ray: &Ray) -> Intersections {
        Triangle::intersect(self, ray)
    }

    fn normal(&self, point: &Point) -> Vector3 {
        Triangle::normal(self, point)
    }

    fn material(&self) -> Material {
        self.material.clone()
    }

    fn transformation(&self) -> &Matrix4 {
        &self.transformation
    }

    fn transformation_invert(&self) -> &Matrix4 {
        &self.transformation_inverse
    }
}

impl Transformable for Triangle {
    open spec fn transformed_spec(self, transformation: Matrix4) -> Triangle {
        triangle_transform_spec(self, transformation)
    }

    open spec fn transform_req(self, transformation: Matrix4) -> bool {
        m4_is_invertible(m4_mul(transformation, self.transformation))
    }

    fn transform(self, transformation: &Matrix4) -> Triangle {
        Triangle::transform(self, transformation)
    }

    fn translate(self, x: Fx, y: Fx, z: Fx) -> TransformBuilder<Self> {
        TransformBuilder {
            transformation: Transform::Translate(x, y, z).transformation(),
            inner: self,
        }
    }

    fn rotate(self, over: Over, angle: Fx) -> TransformBuilder<Self> {
        TransformBuilder {
            transformation: Transform::Rotate(over, angle).transformation(),
            inner: self,
        }
    }

    fn scale(self, x: Fx, y: Fx, z: Fx) -> TransformBuilder<Self> {
        TransformBuilder { transformation: Transform::Scale(x, y, z).transformation(), inner: self }
    }

    fn shear(self, xy: Fx, xz: Fx, yx: Fx, yz: Fx, zx: Fx, zy: Fx) -> TransformBuilder<Self> {
        TransformBuilder {
            transformation: Transform::Shear(xy, xz, yx, yz, zx, zy).transformation(),
            inner: self,
        }
    }
}

impl Default for Triangle {
    fn default() -> (r: Triangle)
        ensures
            r == triangle_default(),
    {
        Triangle {
            point_a: Point::zero(),
            point_b: Point::zero(),
            point_c: Point::zero(),
            e_hit_a: Vector3::zero(),
            e_hit_b: Vector3::zero(),
            normal: Vector3::zero(),
            transformation: Matrix4::identity(),
            transformation_inverse: Matrix4::identity(),
            transformation_inverse_transpose: Matrix4::identity(),
            material: Material::default(),
        }
    }
}

} // verus!
