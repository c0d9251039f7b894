//! Materials: the Phong coefficients, the reflection/refraction parameters,
//! and an optional pattern. Without a pattern the flat `color` shades the
//! surface.

use crate::color::{color_add, color_mul, color_scale, Color};
use crate::fx::{fx_floor, fx_neg, fx_new, fx_powi, fx_sub, Fx, SCALE};
use crate::lights::PointLight;
use crate::patterns::pattern::{pattern_at_local_spec, Pattern};
use crate::point::Point;
use crate::primitives::PrimitiveShape;
use crate::vector::{dot_spec, normalize_spec, reflect_spec, Vector3};
use vstd::prelude::*;

verus! {

#[derive(Clone, Copy, Debug, PartialEq, Eq, Structural)]
pub struct Material {
    pub color: Color,
    pub ambient: Fx,
    pub diffuse: Fx,
    pub specular: Fx,
    pub shininess: Fx,
    pub reflective: Fx,
    pub transparency: Fx,
    pub refractive_index: Fx,
    pub pattern: Option<Pattern>,
}

/// The default material: white, ambient 0.1, diffuse 0.9, specular 0.9,
/// shininess 200, no reflection or transparency, vacuum refractive index.
pub open spec fn material_default() -> Material {
    Material {
        color: Color {
            r: fx_new(SCALE as int),
            g: fx_new(SCALE as int),
            b: fx_new(SCALE as int),
        },
        ambient: fx_new(100_000_000),
        diffuse: fx_new(900_000_000),
        specular: fx_new(900_000_000),
        shininess: fx_new(200 * (SCALE as int)),
        reflective: fx_new(0),
        transparency: fx_new(0),
        refractive_index: fx_new(SCALE as int),
        pattern: None,
    }
}

/// The specular exponent: the integer part of `shininess`, clamped to `u32`.
pub open spec fn shininess_exponent(shininess: int) -> nat {
    let e = fx_floor(shininess);
    if e < 0 {
        0
    } else if e > 0xFFFF_FFFF {
        0xFFFF_FFFF
    } else {
        e as nat
    }
}

/// Local Phong illumination. The base color comes from the pattern if one is
/// attached, else the flat color. A shadowed point keeps only the ambient
/// term; diffuse needs the light on the outer side of the surface, and
/// specular additionally needs the reflected light toward the eye.
#[verifier::opaque]
pub open spec fn color_reflection_spec(
    m: Material,
    light: PointLight,
    primitive: PrimitiveShape,
    position: Point,
    eye_vector: Vector3,
    normal_vector: Vector3,
    in_shadow: bool,
) -> Color {
    let base = match m.pattern {
        Some(p) => pattern_at_local_spec(p, primitive, position),
        None => m.color,
    };
    let effective = color_mul(base, light.intensity);
    let ambient = color_scale(effective, m.ambient@);
    if in_shadow {
        ambient
    } else {
        let light_vector = normalize_spec(
            Vector3 {
                x: fx_new(fx_sub(light.position.x@, position.x@)),
                y: fx_new(fx_sub(light.position.y@, position.y@)),
                z: fx_new(fx_sub(light.position.z@, position.z@)),
            },
        );
        let light_dot_normal = dot_spec(light_vector, normal_vector);
        if light_dot_normal > 0 {
            let diffuse = color_scale(color_scale(effective, m.diffuse@), light_dot_normal);
            let reflect_vector = reflect_spec(
                Vector3 {
                    x: fx_new(fx_neg(light_vector.x@)),
                    y: fx_new(fx_neg(light_vector.y@)),
                    z: fx_new(fx_neg(light_vector.z@)),
                },
                normal_vector,
            );
            let reflect_dot_eye = dot_spec(reflect_vector, eye_vector);
            if reflect_dot_eye > 0 {
                let factor = fx_powi(reflect_dot_eye, shininess_exponent(m.shininess@));
                let specular = color_scale(color_scale(light.intensity, m.specular@), factor);
                color_add(color_add(ambient, diffuse), specular)
            } else {
                color_add(ambient, diffuse)
            }
        } else {
            ambient
        }
    }
}

impl Material {
    pub fn new(color: Color, ambient: Fx, diffuse: Fx, specular: Fx, shininess: Fx) -> (r:
        Material)
        ensures
            r == (Material {
                color,
                ambient,
                diffuse,
                specular,
                shininess,
                ..material_default()
            }),
    {
        Material {
            color,
            ambient,
            diffuse,
            specular,
            shininess,
            reflective: Fx::zero(),
            transparency: Fx::zero(),
            refractive_index: Fx::one(),
            pattern: None,
        }
    }

    /// Local illumination from one light at one surface point.
    pub fn color_reflection(
        &self,
        light: PointLight,
        primitive: PrimitiveShape,
        position: Point,
        eye_vector: Vector3,
        normal_vector: Vector3,
        in_shadow: bool,
    ) -> (r: Color)
        ensures
            r == color_reflection_spec(
                *self,
                light,
                primitive,
                position,
                eye_vector,
                normal_vector,
                in_shadow,
            ),
    {
        proof {
            reveal(color_reflection_spec);
        }
        let base = match &self.pattern {
            Some(p) => p.pattern_at_local(&primitive, &position),
            None => self.color,
        };
        let effective = base.mul(light.intensity);
        let ambient = effective.scale(self.ambient);
        if in_shadow {
            return ambient;
        }
        let light_vector = Vector3 {
            x: light.position.x.sub(position.x),
            y: light.position.y.sub(position.y),
            z: light.position.z.sub(position.z),
        }.normalize();
        let light_dot_normal = light_vector.dot(&normal_vector);
        if light_dot_normal.raw > 0 {
            let diffuse = effective.scale(self.diffuse).scale(light_dot_normal);
            let reflect_vector = light_vector.negate().reflect(&normal_vector);
            let reflect_dot_eye = reflect_vector.dot(&eye_vector);
            if reflect_dot_eye.raw > 0 {
                let ef = self.shininess.floor();
                let e: u32 = if ef < 0 {
                    0
                } else if ef > 4294967295i64 {
                    4294967295u32
                } else {
                    ef as u32
                };
                let factor = reflect_dot_eye.powi(e);
                let specular = light.intensity.scale(self.specular).scale(factor);
                ambient.add(diffuse).add(specular)
            } else {
                ambient.add(diffuse)
            }
        } else {
            ambient
        }
    }

    pub fn apply_pattern(self, pattern: Pattern) -> (r: Material)
        ensures
            r == (Material { pattern: Some(pattern), ..self }),
    {
        Material { pattern: Some(pattern), ..self }
    }

    pub fn color(self, color: Color) -> (r: Material)
        ensures
            r == (Material { color, ..self }),
    {
        Material { color, ..self }
    }

    pub fn ambient(self, ambient: Fx) -> (r: Material)
        ensures
            r == (Material { ambient, ..self }),
    {
        Material { ambient, ..self }
    }

    pub fn diffuse(self, diffuse: Fx) -> (r: Material)
        ensures
            r == (Material { diffuse, ..self }),
    {
        Material { diffuse, ..self }
    }

    pub fn specular(self, specular: Fx) -> (r: Material)
        ensures
            r == (Material { specular, ..self }),
    {
        Material { specular, ..self }
    }

    pub fn shininess(self, shininess: Fx) -> (r: Material)
        ensures
            r == (Material { shininess, ..self }),
    {
        Material { shininess, ..self }
    }

    pub fn reflective(self, reflective: Fx) -> (r: Material)
        ensures
            r == (Material { reflective, ..self }),
    {
        Material { reflective, ..self }
    }

    pub fn transparency(self, transparency: Fx) -> (r: Material)
        ensures
            r == (Material { transparency, ..self }),
    {
        Material { transparency, ..self }
    }

    pub fn refractive_index(self, refractive_index: Fx) -> (r: Material)
        ensures
            r == (Material { refractive_index, ..self }),
    {
        Material { refractive_index, ..self }
    }
}

impl Default for Material {
    fn default() -> (r: Material)
        ensures
            r == material_default(),
    {
        Material {
            color: Color::white(),
            ambient: Fx::from_raw(100_000_000),
            diffuse: Fx::from_raw(900_000_000),
            specular: Fx::from_raw(900_000_000),
            shininess: Fx::from_int(200),
            reflective: Fx::zero(),
            transparency: Fx::zero(),
            refractive_index: Fx::one(),
            pattern: None,
        }
    }
}

} // verus!
