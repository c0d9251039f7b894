//! The fluent transform builder. Each call pre-multiplies its elementary
//! matrix onto the accumulator, so `translate(..).rotate(..).scale(..)`
//! applies the scale first and the translation last — the order a reader
//! would describe, not call order.

use crate::fx::Fx;
use crate::matrices::matrix4::{m4_mul, Matrix4};
use crate::transformations::transformation::{transformation_spec, Over, Transform};
use vstd::prelude::*;

verus! {

/// An accumulated transform waiting to be applied to `inner`.
pub struct TransformBuilder<T> {
    pub transformation: Matrix4,
    pub inner: T,
}

/// A value an affine transform applies to. `transformed_spec` says what the
/// application means for the implementing type, and `transform_req` what it
/// asks of the matrix (the shapes need the composed transform invertible to
/// keep their caches; points, vectors and rays ask nothing).
pub trait Transformable: Sized {
    spec fn transformed_spec(self, transformation: Matrix4) -> Self;

    spec fn transform_req(self, transformation: Matrix4) -> bool;

    fn transform(self, transformation: &Matrix4) -> (r: Self)
        requires
            self.transform_req(*transformation),
        ensures
            r == self.transformed_spec(*transformation),
    ;

    fn translate(self, x: Fx, y: Fx, z: Fx) -> (b: TransformBuilder<Self>)
        ensures
            b.transformation == transformation_spec(Transform::Translate(x, y, z)),
            b.inner == self,
    ;

    fn rotate(self, over: Over, angle: Fx) -> (b: TransformBuilder<Self>)
        ensures
            b.transformation == transformation_spec(Transform::Rotate(over, angle)),
            b.inner == self,
    ;

    fn scale(self, x: Fx, y: Fx, z: Fx) -> (b: TransformBuilder<Self>)
        ensures
            b.transformation == transformation_spec(Transform::Scale(x, y, z)),
            b.inner == self,
    ;

    fn shear(self, xy: Fx, xz: Fx, yx: Fx, yz: Fx, zx: Fx, zy: Fx) -> (b: TransformBuilder<Self>)
        ensures
            b.transformation == transformation_spec(Transform::Shear(xy, xz, yx, yz, zx, zy)),
            b.inner == self,
    ;
}

impl<T: Transformable> TransformBuilder<T> {
    /// Apply the accumulated transform to the wrapped value.
    pub fn transform(self) -> (r: T)
        requires
            self.inner.transform_req(self.transformation),
        ensures
            r == self.inner.transformed_spec(self.transformation),
    {
        self.inner.transform(&self.transformation)
    }

    /// Pre-multiply a translation onto the accumulator.
    pub fn translate(self, x: Fx, y: Fx, z: Fx) -> (r: Self)
        ensures
            r.transformation == m4_mul(
                transformation_spec(Transform::Translate(x, y, z)),
                self.transformation,
            ),
            r.inner == self.inner,
    {
        let t = Transform::Translate(x, y, z).transformation().mul_matrix(self.transformation);
        TransformBuilder { transformation: t, inner: self.inner }
    }

    /// Pre-multiply a rotation onto the accumulator.
    pub fn rotate(self, over: Over, angle: Fx) -> (r: Self)
        ensures
            r.transformation == m4_mul(
                transformation_spec(Transform::Rotate(over, angle)),
                self.transformation,
            ),
            r.inner == self.inner,
    {
        let t = Transform::Rotate(over, angle).transformation().mul_matrix(self.transformation);
        TransformBuilder { transformation: t, inner: self.inner }
    }

    /// Pre-multiply a scaling onto the accumulator.
    pub fn scale(self, x: Fx, y: Fx, z: Fx) -> (r: Self)
        ensures
            r.transformation == m4_mul(
                transformation_spec(Transform::Scale(x, y, z)),
                self.transformation,
            ),
            r.inner == self.inner,
    {
        let t = Transform::Scale(x, y, z).transformation().mul_matrix(self.transformation);
        TransformBuilder { transformation: t, inner: self.inner }
    }

    /// Pre-multiply a shear onto the accumulator.
    pub fn shear(self, xy: Fx, xz: Fx, yx: Fx, yz: Fx, zx: Fx, zy: Fx) -> (r: Self)
        ensures
            r.transformation == m4_mul(
                transformation_spec(Transform::Shear(xy, xz, yx, yz, zx, zy)),
                self.transformation,
            ),
            r.inner == self.inner,
    {
        let t = Transform::Shear(xy, xz, yx, yz, zx, zy).transformation().mul_matrix(
            self.transformation,
        );
        TransformBuilder { transformation: t, inner: self.inner }
    }
}

impl Transformable for crate::point::Point {
    open spec fn transformed_spec(self, transformation: Matrix4) -> Self {
        crate::matrices::matrix4::m4_mul_point(transformation, self)
    }

    open spec fn transform_req(self, transformation: Matrix4) -> bool {
        true
    }

    fn transform(self, transformation: &Matrix4) -> Self {
        transformation.mul_point(self)
    }

    fn translate(self, x: Fx, y: Fx, z: Fx) -> TransformBuilder<Self> {
        TransformBuilder {
            transformation: Transform::Translate(x, y, z).transformation(),
            inner: self,
        }
    }

    fn rotate(self, over: Over, angle: Fx) -> TransformBuilder<Self> {
        TransformBuilder {
            transformation: Transform::Rotate(over, angle).transformation(),
            inner: self,
        }
    }

    fn scale(self, x: Fx, y: Fx, z: Fx) -> TransformBuilder<Self> {
        TransformBuilder { transformation: Transform::Scale(x, y, z).transformation(), inner: self }
    }

    fn shear(self, xy: Fx, xz: Fx, yx: Fx, yz: Fx, zx: Fx, zy: Fx) -> TransformBuilder<Self> {
        TransformBuilder {
            transformation: Transform::Shear(xy, xz, yx, yz, zx, zy).transformation(),
            inner: self,
        }
    }
}

impl Transformable for crate::vector::Vector3 {
    open spec fn transformed_spec(self, transformation: Matrix4) -> Self {
        crate::matrices::matrix4::m4_mul_vector(transformation, self)
    }

    open spec fn transform_req(self, transformation: Matrix4) -> bool {
        true
    }

    fn transform(self, transformation: &Matrix4) -> Self {
        transformation.mul_vector(self)
    }

    fn translate(self, x: Fx, y: Fx, z: Fx) -> TransformBuilder<Self> {
        TransformBuilder {
            transformation: Transform::Translate(x, y, z).transformation(),
            inner: self,
        }
    }

    fn rotate(self, over: Over, angle: Fx) -> TransformBuilder<Self> {
        TransformBuilder {
            transformation: Transform::Rotate(over, angle).transformation(),
            inner: self,
        }
    }

    fn scale(self, x: Fx, y: Fx, z: Fx) -> TransformBuilder<Self> {
        TransformBuilder { transformation: Transform::Scale(x, y, z).transformation(), inner: self }
    }

    fn shear(self, xy: Fx, xz: Fx, yx: Fx, yz: Fx, zx: Fx, zy: Fx) -> TransformBuilder<Self> {
        TransformBuilder {
            transformation: Transform::Shear(xy, xz, yx, yz, zx, zy).transformation(),
            inner: self,
        }
    }
}

} // verus!
