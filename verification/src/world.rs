//! The scene: shapes, point lights, and a recursion budget. The world
//! intersects every shape, casts shadows, and computes the recursive color of
//! a ray: surface shading plus reflection plus refraction, each recursive
//! call spending one unit of the depth budget, so the recursion terminates.

use crate::approx::{fx_approx, LOW_EPSILON};
use crate::color::{color_add, color_scale, Color};
use crate::fx::{fx_div, fx_mul, fx_new, fx_powi, fx_sqrt, fx_sub, Fx, SCALE};
use crate::intersections::intersection::{hit_spec, sort_spec, Intersection, Intersections};
use crate::intersections::intersection_details::{details_from_many_spec, IntersectionDetails};
use crate::lights::PointLight;
use crate::material::color_reflection_spec;
use crate::point::Point;
use crate::primitives::primitive::{shape_intersect_spec, shape_material, PrimitiveShape};
use crate::ray::Ray;
use crate::vector::{dot_spec, magnitude_spec, normalize_spec, Vector3};
use vstd::prelude::*;

verus! {

#[derive(Clone, Debug)]
pub struct World {
    pub objects: Vec<PrimitiveShape>,
    pub light_sources: Vec<PointLight>,
    pub recursive_depth: usize,
}

/// Every shape's world-space intersections, in scene order.
pub open spec fn all_intersections(objects: Seq<PrimitiveShape>, ray: Ray) -> Seq<Intersection>
    decreases objects.len(),
{
    if objects.len() == 0 {
        Seq::empty()
    } else {
        all_intersections(objects.drop_last(), ray) + shape_intersect_spec(objects.last(), ray)
    }
}

/// The scene's intersections with a ray, sorted by time.
pub open spec fn intersect_objects_spec(objects: Seq<PrimitiveShape>, ray: Ray) -> Seq<
    Intersection,
> {
    sort_spec(all_intersections(objects, ray))
}

/// A point is shadowed when, toward some light, the nearest forward hit
/// falls short of that light.
pub open spec fn shadow_cast_spec(
    objects: Seq<PrimitiveShape>,
    lights: Seq<PointLight>,
    point: Point,
) -> bool
    decreases lights.len(),
{
    if lights.len() == 0 {
        false
    } else {
        let light = lights[0];
        let v = Vector3 {
            x: fx_new(fx_sub(light.position.x@, point.x@)),
            y: fx_new(fx_sub(light.position.y@, point.y@)),
            z: fx_new(fx_sub(light.position.z@, point.z@)),
        };
        let distance = magnitude_spec(v);
        let ray = Ray { origin: point, direction: normalize_spec(v) };
        let h = hit_spec(intersect_objects_spec(objects, ray));
        if h is Some && h->0.time@ < distance {
            true
        } else {
            shadow_cast_spec(objects, lights.drop_first(), point)
        }
    }
}

/// The recursive color of a ray: black on a miss, otherwise the shaded hit.
pub open spec fn color_at_spec(w: World, ray: Ray, depth: nat) -> Color
    decreases depth, 3int, 0int,
{
    let xs = intersect_objects_spec(w.objects@, ray);
    match hit_spec(xs) {
        Option::Some(h) => shade_hit_spec(w, details_from_many_spec(h, xs, ray), depth),
        Option::None => Color { r: fx_new(0), g: fx_new(0), b: fx_new(0) },
    }
}

/// The shaded color of a hit: the local illumination summed over the
/// lights, then the reflected and the refracted contribution added once.
pub open spec fn shade_hit_spec(w: World, details: IntersectionDetails, depth: nat) -> Color
    decreases depth, 2int, 1int,
{
    color_add(
        color_add(
            shade_lights_spec(w, details, w.light_sources@),
            reflect_color_spec(w, details, depth),
        ),
        refract_color_spec(w, details, depth),
    )
}

/// The surface terms alone: one local illumination per light.
pub open spec fn shade_lights_spec(
    w: World,
    details: IntersectionDetails,
    lights: Seq<PointLight>,
) -> Color
    decreases lights.len(),
{
    if lights.len() == 0 {
        Color { r: fx_new(0), g: fx_new(0), b: fx_new(0) }
    } else {
        let acc = shade_lights_spec(w, details, lights.drop_last());
        let shadowed = shadow_cast_spec(w.objects@, w.light_sources@, details.over_point);
        let surface = color_reflection_spec(
            shape_material(details.object),
            lights.last(),
            details.object,
            details.over_point,
            details.eye_vector,
            details.normal_vector,
            shadowed,
        );
        color_add(acc, surface)
    }
}

/// Black for a non-reflective surface or an exhausted budget; otherwise the
/// color along the reflection ray from the acne-safe point, attenuated.
pub open spec fn reflect_color_spec(w: World, details: IntersectionDetails, depth: nat) -> Color
    decreases depth, 0int, 0int,
{
    if fx_approx(shape_material(details.object).reflective@, 0, LOW_EPSILON as int) || depth == 0 {
        Color { r: fx_new(0), g: fx_new(0), b: fx_new(0) }
    } else {
        let ray = Ray { origin: details.over_point, direction: details.reflection_vector };
        color_scale(
            color_at_spec(w, ray, (depth - 1) as nat),
            shape_material(details.object).reflective@,
        )
    }
}

/// Black for an opaque surface, an exhausted budget, or total internal
/// reflection; otherwise Snell's law gives the refracted ray from the point
/// nudged under the surface, and the result is attenuated by transparency.
pub open spec fn refract_color_spec(w: World, details: IntersectionDetails, depth: nat) -> Color
    decreases depth, 0int, 1int,
{
    let m = shape_material(details.object);
    if fx_approx(m.transparency@, 0, LOW_EPSILON as int) || depth == 0 {
        Color { r: fx_new(0), g: fx_new(0), b: fx_new(0) }
    } else {
        let en_ratio = fx_div(details.n1@, details.n2@);
        let cos_i = dot_spec(details.eye_vector, details.normal_vector);
        let sin2_t = fx_mul(fx_powi(en_ratio, 2), fx_sub(SCALE as int, fx_powi(cos_i, 2)));
        if sin2_t > SCALE {
            Color { r: fx_new(0), g: fx_new(0), b: fx_new(0) }
        } else {
            let cos_t = fx_sqrt(fx_sub(SCALE as int, sin2_t));
            let factor = fx_sub(fx_mul(en_ratio, cos_i), cos_t);
            let direction = Vector3 {
                x: fx_new(
                    fx_sub(
                        fx_mul(details.normal_vector.x@, factor),
                        fx_mul(details.eye_vector.x@, en_ratio),
                    ),
                ),
                y: fx_new(
                    fx_sub(
                        fx_mul(details.normal_vector.y@, factor),
                        fx_mul(details.eye_vector.y@, en_ratio),
                    ),
                ),
                z: fx_new(
                    fx_sub(
                        fx_mul(details.normal_vector.z@, factor),
                        fx_mul(details.eye_vector.z@, en_ratio),
                    ),
                ),
            };
            let ray = Ray { origin: details.under_point, direction };
            color_scale(color_at_spec(w, ray, (depth - 1) as nat), m.transparency@)
        }
    }
}

impl World {
    /// An empty scene with the default recursion budget.
    pub fn new() -> (r: World)
        ensures
            r.objects@ == Seq::<PrimitiveShape>::empty(),
            r.light_sources@ == Seq::<PointLight>::empty(),
            r.recursive_depth == 4,
    {
        World { objects: Vec::new(), light_sources: Vec::new(), recursive_depth: 4 }
    }

    pub fn add_object(self, object: PrimitiveShape) -> (r: World)
        ensures
            r.objects@ == self.objects@.push(object),
            r.light_sources@ == self.light_sources@,
            r.recursive_depth == self.recursive_depth,
    {
        let mut w = self;
        w.objects.push(object);
        w
    }

    pub fn add_light_source(self, source: PointLight) -> (r: World)
        ensures
            r.objects@ == self.objects@,
            r.light_sources@ == self.light_sources@.push(source),
            r.recursive_depth == self.recursive_depth,
    {
        let mut w = self;
        w.light_sources.push(source);
        w
    }

    pub fn with_objects(self, objects: Vec<PrimitiveShape>) -> (r: World)
        ensures
            r.objects@ == objects@,
            r.light_sources@ == self.light_sources@,
            r.recursive_depth == self.recursive_depth,
    {
        World { objects, ..self }
    }

    pub fn with_light_sources(self, sources: Vec<PointLight>) -> (r: World)
        ensures
            r.objects@ == self.objects@,
            r.light_sources@ == sources@,
            r.recursive_depth == self.recursive_depth,
    {
        World { light_sources: sources, ..self }
    }

    /// Every shape's intersections with the ray, sorted by time.
    #[verifier::loop_isolation(false)]
    pub fn intersect_objects(&self, ray: &Ray) -> (r: Intersections)
        ensures
            r@ == intersect_objects_spec(self.objects@, *ray),
    {
        let mut intersections = Intersections::new();
        let mut i: usize = 0;
        let ghost objs = self.objects@;
        proof {
            assert(all_intersections(objs.take(0), *ray) =~= Seq::<Intersection>::empty());
            assert(intersections@ =~= all_intersections(objs.take(0), *ray));
        }
        while i < self.objects.len()
            invariant
                i <= objs.len(),
                intersections@ == all_intersections(objs.take(i as int), *ray),
            decreases objs.len() - i,
        {
            let shape_hits = self.objects[i].intersect(ray);
            intersections.merge(shape_hits);
            proof {
                assert(objs.take(i + 1).drop_last() =~= objs.take(i as int));
                assert(objs.take(i + 1).last() == objs[i as int]);
            }
            i = i + 1;
        }
        proof {
            assert(objs.take(objs.len() as int) =~= objs);
        }
        intersections.sort()
    }

    /// Whether some light is blocked before it reaches the point.
    #[verifier::loop_isolation(false)]
    pub fn shadow_cast(&self, point: Point) -> (r: bool)
        ensures
            r == shadow_cast_spec(self.objects@, self.light_sources@, point),
    {
        let ghost lights = self.light_sources@;
        let mut i: usize = 0;
        proof {
            assert(lights.skip(0) =~= lights);
        }
        while i < self.light_sources.len()
            invariant
                i <= lights.len(),
                shadow_cast_spec(self.objects@, lights, point) == shadow_cast_spec(
                    self.objects@,
                    lights.skip(i as int),
                    point,
                ),
            decreases lights.len() - i,
        {
            proof {
                assert(lights.skip(i as int)[0] == lights[i as int]);
                assert(lights.skip(i as int).drop_first() =~= lights.skip(i + 1));
            }
            let light = &self.light_sources[i];
            let v = Vector3 {
                x: light.position.x.sub(point.x),
                y: light.position.y.sub(point.y),
                z: light.position.z.sub(point.z),
            };
            let distance = v.magnitude();
            let direction = v.normalize();
            let ray = Ray::new(point, direction);
            let intersections = self.intersect_objects(&ray);
            match intersections.hit() {
                Option::Some(h) => {
                    if h.time.raw < distance.raw {
                        return true;
                    }
                },
                Option::None => {},
            }
            i = i + 1;
        }
        proof {
            assert(lights.skip(lights.len() as int) =~= Seq::<PointLight>::empty());
        }
        false
    }

    /// Local illumination summed over the lights, then the reflected and the
    /// refracted contribution added once, each with the remaining budget.
    #[verifier::loop_isolation(false)]
    #[verifier::rlimit(100)]
    pub fn shade_hit(&self, details: &IntersectionDetails, recursive_depth: usize) -> (r: Color)
        ensures
            r == shade_hit_spec(*self, *details, recursive_depth as nat),
        decreases recursive_depth, 2int,
    {
        let ghost lights = self.light_sources@;
        let mut acc = Color::black();
        let mut i: usize = 0;
        proof {
            assert(lights.take(0) =~= Seq::<PointLight>::empty());
        }
        while i < self.light_sources.len()
            invariant
                i <= lights.len(),
                acc == shade_lights_spec(*self, *details, lights.take(i as int)),
            decreases lights.len() - i,
        {
            let light = self.light_sources[i];
            let is_shadowed = self.shadow_cast(details.over_point);
            let color = details.object.material().color_reflection(
                light,
                details.object.clone(),
                details.over_point,
                details.eye_vector,
                details.normal_vector,
                is_shadowed,
            );
            acc = acc.add(color);
            proof {
                assert(lights.take(i + 1).drop_last() =~= lights.take(i as int));
                assert(lights.take(i + 1).last() == lights[i as int]);
            }
            i = i + 1;
        }
        proof {
            assert(lights.take(lights.len() as int) =~= lights);
        }
        let reflected_color = self.reflect_color(details, recursive_depth);
        let refracted_color = self.refracted_color(details, recursive_depth);
        acc.add(reflected_color).add(refracted_color)
    }

    /// The reflected contribution of a hit.
    pub fn reflect_color(&self, details: &IntersectionDetails, recursive_depth: usize) -> (r: Color)
        ensures
            r == reflect_color_spec(*self, *details, recursive_depth as nat),
        decreases recursive_depth, 1int,
    {
        let reflective = details.object.material().reflective;
        if reflective.abs().raw < LOW_EPSILON || recursive_depth == 0 {
            Color::black()
        } else {
            let reflected_ray = Ray::new(details.over_point, details.reflection_vector);
            let color = self.color_at_recursive(&reflected_ray, recursive_depth - 1);
            color.scale(reflective)
        }
    }

    /// The refracted contribution of a hit.
    pub fn refracted_color(&self, details: &IntersectionDetails, recursive_depth: usize) -> (r: Color)
        ensures
            r == refract_color_spec(*self, *details, recursive_depth as nat),
        decreases recursive_depth, 1int,
    {
        let transparency = details.object.material().transparency;
        if transparency.abs().raw < LOW_EPSILON || recursive_depth == 0 {
            Color::black()
        } else {
            let en_ratio = details.n1.div(details.n2);
            let cos_i = details.eye_vector.dot(&details.normal_vector);
            let sin2_t = en_ratio.powi(2).mul(Fx::one().sub(cos_i.powi(2)));
            if sin2_t.raw > SCALE {
                Color::black()
            } else {
                let cos_t = Fx::one().sub(sin2_t).sqrt();
                let factor = en_ratio.mul(cos_i).sub(cos_t);
                let direction_refracted = Vector3 {
                    x: details.normal_vector.x.mul(factor).sub(details.eye_vector.x.mul(en_ratio)),
                    y: details.normal_vector.y.mul(factor).sub(details.eye_vector.y.mul(en_ratio)),
                    z: details.normal_vector.z.mul(factor).sub(details.eye_vector.z.mul(en_ratio)),
                };
                let refract_ray = Ray { origin: details.under_point, direction: direction_refracted };
                self.color_at_recursive(&refract_ray, recursive_depth - 1).scale(transparency)
            }
        }
    }

    /// The color a ray produces, starting from the configured budget.
    pub fn color_at(&self, ray: &Ray) -> (r: Color)
        ensures
            r == color_at_spec(*self, *ray, self.recursive_depth as nat),
    {
        self.color_at_recursive(ray, self.recursive_depth)
    }

    /// The color a ray produces with an explicit remaining budget.
    pub fn color_at_recursive(&self, ray: &Ray, recursive_depth: usize) -> (r: Color)
        ensures
            r == color_at_spec(*self, *ray, recursive_depth as nat),
        decreases recursive_depth, 3int,
    {
        let intersections = self.intersect_objects(ray);
        match intersections.hit() {
            Option::Some(hit) => {
                let details = IntersectionDetails::from_many(hit, &intersections, ray);
                self.shade_hit(&details, recursive_depth)
            },
            Option::None => Color::black(),
        }
    }
}

impl Default for World {
    fn default() -> (r: World)
        ensures
            r.objects@ == Seq::<PrimitiveShape>::empty(),
            r.light_sources@ == Seq::<PointLight>::empty(),
            r.recursive_depth == 4,
    {
        World::new()
    }
}

} // verus!
