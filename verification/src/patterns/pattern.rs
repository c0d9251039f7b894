//! A pattern: one of the six color functions of a local point, together with
//! its own transform and that transform's cached inverse.

use crate::color::Color;
use crate::fx::Fx;
use crate::matrices::matrix4::{m4_id, m4_invert, m4_is_invertible, m4_mul, m4_mul_point, Matrix4};
use crate::matrices::Matrix;
use crate::patterns::checker::{checker_at_spec, CheckerPattern};
use crate::patterns::gradient::{gradient_at_spec, GradientPattern};
use crate::patterns::plain::PlainPattern;
use crate::patterns::ring::{ring_at_spec, RingPattern};
use crate::patterns::stripe::{stripe_at_spec, StripePattern};
use crate::point::Point;
use crate::primitives::primitive::{shape_transformation_inverse, PrimitiveShape};
use crate::transformations::{Over, Transform, TransformBuilder, Transformable};
use vstd::prelude::*;

verus! {

/// Diagnostic pattern: returns the point's own coordinates as a color.
#[derive(Clone, Copy, Debug, PartialEq, Eq, Structural)]
pub struct TestPattern {}

impl TestPattern {
    pub fn test_at(&self, point: &Point) -> (r: Color)
        ensures
            r == (Color { r: point.x, g: point.y, b: point.z }),
    {
        Color { r: point.x, g: point.y, b: point.z }
    }
}

#[derive(Clone, Copy, Debug, PartialEq, Eq, Structural)]
pub enum PatternType {
    Plain(PlainPattern),
    Stripe(StripePattern),
    Gradient(GradientPattern),
    Ring(RingPattern),
    Checker(CheckerPattern),
    Test(TestPattern),
}

/// The pattern's color at a point already in pattern space.
pub open spec fn pattern_type_at_spec(p: PatternType, point: Point) -> Color {
    match p {
        PatternType::Plain(plain) => plain.color,
        PatternType::Stripe(stripe) => stripe_at_spec(stripe, point),
        PatternType::Gradient(gradient) => gradient_at_spec(gradient, point),
        PatternType::Ring(ring) => ring_at_spec(ring, point),
        PatternType::Checker(checker) => checker_at_spec(checker, point),
        PatternType::Test(_) => Color { r: point.x, g: point.y, b: point.z },
    }
}

impl PatternType {
    pub fn pattern_at(&self, point: &Point) -> (r: Color)
        ensures
            r == pattern_type_at_spec(*self, *point),
    {
        match self {
            PatternType::Plain(pattern) => pattern.plain_at(*point),
            PatternType::Stripe(pattern) => pattern.stripe_at(*point),
            PatternType::Gradient(pattern) => pattern.gradient_at(*point),
            PatternType::Ring(pattern) => pattern.ring_at(*point),
            PatternType::Checker(pattern) => pattern.checker_at(point),
            PatternType::Test(pattern) => pattern.test_at(point),
        }
    }
}

#[derive(Clone, Copy, Debug, PartialEq, Eq, Structural)]
pub struct Pattern {
    pub pattern: PatternType,
    pub transformation: Matrix4,
    pub transformation_inverse: Matrix4,
}

/// World point to shape space through the shape's cached inverse, then to
/// pattern space through the pattern's own cached inverse, then evaluate.
pub open spec fn pattern_at_local_spec(
    p: Pattern,
    primitive: PrimitiveShape,
    world_point: Point,
) -> Color {
    let primitive_point = m4_mul_point(shape_transformation_inverse(primitive), world_point);
    let pattern_point = m4_mul_point(p.transformation_inverse, primitive_point);
    pattern_type_at_spec(p.pattern, pattern_point)
}

/// A fresh pattern of the given type, with the identity transform.
pub open spec fn pattern_new_spec(t: PatternType) -> Pattern {
    Pattern { pattern: t, transformation: m4_id(), transformation_inverse: m4_id() }
}

impl Pattern {
    pub fn new_stripe(color_a: Color, color_b: Color) -> (r: Pattern)
        ensures
            r == pattern_new_spec(PatternType::Stripe(StripePattern { color_a, color_b })),
    {
        Pattern {
            pattern: PatternType::Stripe(StripePattern::from(color_a, color_b)),
            transformation: Matrix4::identity(),
            transformation_inverse: Matrix4::identity(),
        }
    }

    pub fn new_gradient(color_a: Color, color_b: Color) -> (r: Pattern)
        ensures
            r == pattern_new_spec(
                PatternType::Gradient(GradientPattern { color_from: color_a, color_to: color_b }),
            ),
    {
        Pattern {
            pattern: PatternType::Gradient(GradientPattern::from(color_a, color_b)),
            transformation: Matrix4::identity(),
            transformation_inverse: Matrix4::identity(),
        }
    }

    pub fn new_ring(color_a: Color, color_b: Color) -> (r: Pattern)
        ensures
            r == pattern_new_spec(PatternType::Ring(RingPattern { color_a, color_b })),
    {
        Pattern {
            pattern: PatternType::Ring(RingPattern::from(color_a, color_b)),
            transformation: Matrix4::identity(),
            transformation_inverse: Matrix4::identity(),
        }
    }

    pub fn new_checker(color_a: Color, color_b: Color) -> (r: Pattern)
        ensures
            r == pattern_new_spec(PatternType::Checker(CheckerPattern { color_a, color_b })),
    {
        Pattern {
            pattern: PatternType::Checker(CheckerPattern::from(color_a, color_b)),
            transformation: Matrix4::identity(),
            transformation_inverse: Matrix4::identity(),
        }
    }

    pub fn new_plain(color: Color) -> (r: Pattern)
        ensures
            r == pattern_new_spec(PatternType::Plain(PlainPattern { color })),
    {
        Pattern {
            pattern: PatternType::Plain(PlainPattern::from(color)),
            transformation: Matrix4::identity(),
            transformation_inverse: Matrix4::identity(),
        }
    }

    pub fn new_test() -> (r: Pattern)
        ensures
            r == pattern_new_spec(PatternType::Test(TestPattern {  })),
    {
        Pattern {
            pattern: PatternType::Test(TestPattern {  }),
            transformation: Matrix4::identity(),
            transformation_inverse: Matrix4::identity(),
        }
    }

    /// The pattern's color at a point already in pattern space.
    pub fn pattern_at(&self, point: &Point) -> (r: Color)
        ensures
            r == pattern_type_at_spec(self.pattern, *point),
    {
        self.pattern.pattern_at(point)
    }

    /// The pattern's color at a world point on the given shape.
    pub fn pattern_at_local(&self, primitive: &PrimitiveShape, world_point: &Point) -> (r: Color)
        ensures
            r == pattern_at_local_spec(*self, *primitive, *world_point),
    {
        let primitive_point = primitive.transformation_invert().mul_point(*world_point);
        let pattern_point = self.transformation_inverse.mul_point(primitive_point);
        self.pattern_at(&pattern_point)
    }
}

impl Default for Pattern {
    fn default() -> (r: Pattern)
        ensures
            r == pattern_new_spec(
                PatternType::Plain(
                    PlainPattern {
                        color: Color {
                            r: crate::fx::fx_new(crate::fx::SCALE as int),
                            g: crate::fx::fx_new(crate::fx::SCALE as int),
                            b: crate::fx::fx_new(crate::fx::SCALE as int),
                        },
                    },
                ),
            ),
    {
        Pattern {
            pattern: PatternType::Plain(PlainPattern::default()),
            transformation: Matrix4::identity(),
            transformation_inverse: Matrix4::identity(),
        }
    }
}

/// The pattern's transform composed with one more, with the cached inverse
/// kept in step. The composed transform must be invertible — a singular one
/// is a malformed scene, which `transform` refuses by precondition.
pub open spec fn pattern_transform_spec(p: Pattern, transformation: Matrix4) -> Pattern {
    let delta = m4_mul(transformation, p.transformation);
    Pattern { transformation: delta, transformation_inverse: m4_invert(delta), ..p }
}

impl Pattern {
    /// Compose a transform onto the pattern's own transform.
    pub fn transform(self, transformation: &Matrix4) -> (r: Pattern)
        requires
            m4_is_invertible(m4_mul(*transformation, self.transformation)),
        ensures
            r == pattern_transform_spec(self, *transformation),
    {
        let delta = transformation.mul_matrix(self.transformation);
        let delta_inverse = delta.invert();
        Pattern { transformation: delta, transformation_inverse: delta_inverse, ..self }
    }
}

impl Transformable for Pattern {
    open spec fn transformed_spec(self, transformation: Matrix4) -> Pattern {
        pattern_transform_spec(self, transformation)
    }

    open spec fn transform_req(self, transformation: Matrix4) -> bool {
        m4_is_invertible(m4_mul(transformation, self.transformation))
    }

    fn transform(self, transformation: &Matrix4) -> Pattern {
        Pattern::transform(self, transformation)
    }

    fn translate(self, x: Fx, y: Fx, z: Fx) -> TransformBuilder<Self> {
        TransformBuilder {
            transformation: Transform::Translate(x, y, z).transformation(),
            inner: self,
        }
    }

    fn rotate(self, over: Over, angle: Fx) -> TransformBuilder<Self> {
        TransformBuilder {
            transformation: Transform::Rotate(over, angle).transformation(),
            inner: self,
        }
    }

    fn scale(self, x: Fx, y: Fx, z: Fx) -> TransformBuilder<Self> {
        TransformBuilder { transformation: Transform::Scale(x, y, z).transformation(), inner: self }
    }

    fn shear(self, xy: Fx, xz: Fx, yx: Fx, yz: Fx, zx: Fx, zy: Fx) -> TransformBuilder<Self> {
        TransformBuilder {
            transformation: Transform::Shear(xy, xz, yx, yz, zx, zy).transformation(),
            inner: self,
        }
    }
}

} // verus!
