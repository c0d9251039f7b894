//! The precomputed shading context for one hit: world point, eye/normal/
//! reflection vectors, the epsilon-offset points that prevent acne, and the
//! refractive indices on both sides of the surface.

use crate::approx::LOW_EPSILON;
use crate::fx::{fx_add, fx_div, fx_mul, fx_neg, fx_new, fx_powi, fx_sqrt, fx_sub, Fx, SCALE};
use crate::intersections::{Intersection, Intersections};
use crate::point::Point;
use crate::primitives::primitive::{shape_material, shape_normal_spec, PrimitiveShape};
use crate::ray::{ray_position, Ray};
use crate::vector::{dot_spec, reflect_spec, Vector3};
use vstd::prelude::*;

verus! {

#[derive(Clone, Copy, Debug, PartialEq, Eq, Structural)]
pub struct IntersectionDetails {
    pub time: Fx,
    pub object: PrimitiveShape,
    pub point: Point,
    pub over_point: Point,
    pub normal_vector: Vector3,
    pub eye_vector: Vector3,
    pub reflection_vector: Vector3,
    pub inside: bool,
    pub n1: Fx,
    pub n2: Fx,
    pub under_point: Point,
}

/// Index of the first occurrence of `obj`, or -1.
pub open spec fn first_index(stack: Seq<PrimitiveShape>, obj: PrimitiveShape) -> int
    decreases stack.len(),
{
    if stack.len() == 0 {
        -1
    } else if stack[0] == obj {
        0
    } else {
        let rest = first_index(stack.drop_first(), obj);
        if rest < 0 {
            -1
        } else {
            rest + 1
        }
    }
}

/// Toggle membership: remove the first occurrence (the ray exits the shape),
/// or push (it enters).
pub open spec fn toggle(stack: Seq<PrimitiveShape>, obj: PrimitiveShape) -> Seq<PrimitiveShape> {
    let k = first_index(stack, obj);
    if k >= 0 {
        stack.remove(k)
    } else {
        stack.push(obj)
    }
}

/// The refractive index at the top of the containment stack, or the vacuum's.
pub open spec fn stack_index(stack: Seq<PrimitiveShape>) -> int {
    if stack.len() == 0 {
        SCALE as int
    } else {
        shape_material(stack.last()).refractive_index@
    }
}

/// Walk the ordered intersections keeping the stack of shapes the ray is
/// inside. At the target hit, `n1` is the index before its shape toggles and
/// `n2` the index after. A hit that never appears leaves both at the vacuum.
pub open spec fn walk_refraction(
    s: Seq<Intersection>,
    hit: Intersection,
    stack: Seq<PrimitiveShape>,
) -> (int, int)
    decreases s.len(),
{
    if s.len() == 0 {
        (SCALE as int, SCALE as int)
    } else {
        let x = s[0];
        let new_stack = toggle(stack, x.object);
        if x == hit {
            (stack_index(stack), stack_index(new_stack))
        } else {
            walk_refraction(s.drop_first(), hit, new_stack)
        }
    }
}

/// Everything `from_many` precomputes except `n1`/`n2`.
pub open spec fn details_base(
    intersection: Intersection,
    ray: Ray,
    n1: int,
    n2: int,
) -> IntersectionDetails {
    let point = ray_position(ray, intersection.time@);
    let eye_vector = Vector3 {
        x: fx_new(fx_neg(ray.direction.x@)),
        y: fx_new(fx_neg(ray.direction.y@)),
        z: fx_new(fx_neg(ray.direction.z@)),
    };
    let raw_normal = shape_normal_spec(intersection.object, point);
    let inside = dot_spec(raw_normal, eye_vector) < 0;
    let normal_vector = if inside {
        Vector3 {
            x: fx_new(fx_neg(raw_normal.x@)),
            y: fx_new(fx_neg(raw_normal.y@)),
            z: fx_new(fx_neg(raw_normal.z@)),
        }
    } else {
        raw_normal
    };
    IntersectionDetails {
        time: intersection.time,
        object: intersection.object,
        point,
        over_point: Point {
            x: fx_new(fx_add(point.x@, fx_mul(normal_vector.x@, LOW_EPSILON as int))),
            y: fx_new(fx_add(point.y@, fx_mul(normal_vector.y@, LOW_EPSILON as int))),
            z: fx_new(fx_add(point.z@, fx_mul(normal_vector.z@, LOW_EPSILON as int))),
        },
        normal_vector,
        eye_vector,
        reflection_vector: reflect_spec(ray.direction, normal_vector),
        inside,
        n1: fx_new(n1),
        n2: fx_new(n2),
        under_point: Point {
            x: fx_new(fx_sub(point.x@, fx_mul(normal_vector.x@, LOW_EPSILON as int))),
            y: fx_new(fx_sub(point.y@, fx_mul(normal_vector.y@, LOW_EPSILON as int))),
            z: fx_new(fx_sub(point.z@, fx_mul(normal_vector.z@, LOW_EPSILON as int))),
        },
    }
}

/// The full context for a hit inside a sorted intersection list.
pub open spec fn details_from_many_spec(
    hit: Intersection,
    intersections: Seq<Intersection>,
    ray: Ray,
) -> IntersectionDetails {
    let pair = walk_refraction(intersections, hit, Seq::empty());
    details_base(hit, ray, pair.0, pair.1)
}

/// Schlick's approximation to the Fresnel reflectance; total internal
/// reflection reports full reflectance.
pub open spec fn schlick_spec(d: IntersectionDetails) -> int {
    let cos0 = dot_spec(d.eye_vector, d.normal_vector);
    let r0_of = |cos: int|
        {
            let r0 = fx_powi(fx_div(fx_sub(d.n1@, d.n2@), fx_add(d.n1@, d.n2@)), 2);
            fx_add(r0, fx_mul(fx_sub(SCALE as int, r0), fx_powi(fx_sub(SCALE as int, cos), 5)))
        };
    if d.n1@ > d.n2@ {
        let n = fx_div(d.n1@, d.n2@);
        let sin2_t = fx_mul(fx_powi(n, 2), fx_sub(SCALE as int, fx_powi(cos0, 2)));
        if sin2_t > SCALE {
            SCALE as int
        } else {
            r0_of(fx_sqrt(fx_sub(SCALE as int, sin2_t)))
        }
    } else {
        r0_of(cos0)
    }
}

impl IntersectionDetails {
    /// The context for a lone hit; both refractive indices default to the
    /// vacuum's.
    pub fn from(intersection: &Intersection, ray: &Ray) -> (r: IntersectionDetails)
        ensures
            r == details_base(*intersection, *ray, SCALE as int, SCALE as int),
    {
        Self::build(intersection, ray, Fx::one(), Fx::one())
    }

    fn build(intersection: &Intersection, ray: &Ray, n1: Fx, n2: Fx) -> (r: IntersectionDetails)
        ensures
            r == details_base(*intersection, *ray, n1@, n2@),
    {
        let point = ray.position(intersection.time);
        let eye_vector = ray.direction.negate();
        let raw_normal = intersection.object.normal(&point);
        let inside = raw_normal.dot(&eye_vector).raw < 0;
        let normal_vector = if inside {
            raw_normal.negate()
        } else {
            raw_normal
        };
        let eps = Fx::from_raw(LOW_EPSILON);
        let over_point = Point {
            x: point.x.add(normal_vector.x.mul(eps)),
            y: point.y.add(normal_vector.y.mul(eps)),
            z: point.z.add(normal_vector.z.mul(eps)),
        };
        let under_point = Point {
            x: point.x.sub(normal_vector.x.mul(eps)),
            y: point.y.sub(normal_vector.y.mul(eps)),
            z: point.z.sub(normal_vector.z.mul(eps)),
        };
        let reflection_vector = ray.direction.reflect(&normal_vector);
        IntersectionDetails {
            time: intersection.time,
            object: intersection.object.clone(),
            point,
            over_point,
            normal_vector,
            eye_vector,
            reflection_vector,
            inside,
            n1,
            n2,
            under_point,
        }
    }

    /// The context for a hit within the full sorted intersection list, with
    /// `n1`/`n2` from the containment-stack walk.
    pub fn from_many(
        hit_intersection: &Intersection,
        intersections: &Intersections,
        ray: &Ray,
    ) -> (r: IntersectionDetails)
        ensures
            r == details_from_many_spec(*hit_intersection, intersections@, *ray),
    {
        let ghost s = intersections@;
        let mut container: Vec<PrimitiveShape> = Vec::new();
        let mut n1 = Fx::one();
        let mut n2 = Fx::one();
        let mut i: usize = 0;
        let mut found = false;
        proof {
            assert(s.skip(0) =~= s);
        }
        while i < intersections.intersections.len() && !found
            invariant
                i <= s.len(),
                intersections@ == s,
                !found ==> walk_refraction(s.skip(i as int), *hit_intersection, container@)
                    == walk_refraction(s, *hit_intersection, Seq::empty()),
                !found ==> n1@ == SCALE as int && n2@ == SCALE as int,
                found ==> (n1@, n2@) == walk_refraction(s, *hit_intersection, Seq::empty()),
            decreases s.len() - i,
        {
            let intersection = &intersections.intersections[i];
            let is_hit = *intersection == *hit_intersection;
            proof {
                assert(s.skip(i as int)[0] == s[i as int]);
                assert(s.skip(i as int).drop_first() =~= s.skip(i + 1));
            }
            if is_hit {
                n1 = if container.len() == 0 {
                    Fx::one()
                } else {
                    container[container.len() - 1].material().refractive_index
                };
            }
            toggle_exec(&mut container, intersection.object);
            if is_hit {
                n2 = if container.len() == 0 {
                    Fx::one()
                } else {
                    container[container.len() - 1].material().refractive_index
                };
                found = true;
            }
            i = i + 1;
        }
        proof {
            if !found {
                assert(s.skip(s.len() as int) =~= Seq::<Intersection>::empty());
            }
        }
        Self::build(hit_intersection, ray, n1, n2)
    }

    /// Schlick's reflectance approximation for this hit.
    pub fn schlick(&self) -> (r: Fx)
        ensures
            r@ == schlick_spec(*self),
            self.n1@ > self.n2@ && fx_mul(
                fx_powi(fx_div(self.n1@, self.n2@), 2),
                fx_sub(SCALE as int, fx_powi(dot_spec(self.eye_vector, self.normal_vector), 2)),
            ) > SCALE ==> r@ == SCALE as int,
    {
        let mut cos = self.eye_vector.dot(&self.normal_vector);
        if self.n1.raw > self.n2.raw {
            let n = self.n1.div(self.n2);
            let sin2_t = n.powi(2).mul(Fx::one().sub(cos.powi(2)));
            if sin2_t.raw > SCALE {
                return Fx::one();
            }
            cos = Fx::one().sub(sin2_t).sqrt();
        }
        let r0 = self.n1.sub(self.n2).div(self.n1.add(self.n2)).powi(2);
        r0.add(Fx::one().sub(r0).mul(Fx::one().sub(cos).powi(5)))
    }
}

/// Remove the first occurrence of `obj`, or push it: the executable toggle.
#[verifier::loop_isolation(false)]
fn toggle_exec(container: &mut Vec<PrimitiveShape>, obj: PrimitiveShape)
    ensures
        final(container)@ == toggle(old(container)@, obj),
{
    let ghost s = old(container)@;
    let mut j: usize = 0;
    while j < container.len()
        invariant
            j <= s.len(),
            container@ == s,
            forall|k: int| 0 <= k < j ==> s[k] != obj,
        decreases s.len() - j,
    {
        if container[j] == obj {
            proof {
                lemma_first_index_found(s, obj, j as int);
            }
            container.remove(j);
            return ;
        }
        j = j + 1;
    }
    proof {
        lemma_first_index_missing(s, obj);
    }
    container.push(obj);
}

/// If everything before `j` differs from `obj` and `s[j] == obj`, then `j`
/// is the first index.
proof fn lemma_first_index_found(s: Seq<PrimitiveShape>, obj: PrimitiveShape, j: int)
    requires
        0 <= j < s.len(),
        s[j] == obj,
        forall|k: int| 0 <= k < j ==> s[k] != obj,
    ensures
        first_index(s, obj) == j,
    decreases j,
{
    if j == 0 {
    } else {
        assert(s[0] != obj);
        lemma_first_index_found(s.drop_first(), obj, j - 1);
    }
}

/// If no element equals `obj`, the first index is -1.
proof fn lemma_first_index_missing(s: Seq<PrimitiveShape>, obj: PrimitiveShape)
    requires
        forall|k: int| 0 <= k < s.len() ==> s[k] != obj,
    ensures
        first_index(s, obj) == -1,
    decreases s.len(),
{
    if s.len() > 0 {
        lemma_first_index_missing(s.drop_first(), obj);
    }
}

} // verus!
