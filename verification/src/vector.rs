//! Direction vectors, with the dot, cross, length and reflection operations
//! the tracer is built on.

use crate::approx::{fx_approx, ApproxEq, EPSILON, LOW_EPSILON};
use crate::fx::{fx_abs, fx_add, fx_clip, fx_div, fx_min, fx_mul, fx_neg, fx_new, fx_sqrt, fx_sub, Fx, SCALE};
use crate::point::Point;
use vstd::prelude::*;

verus! {

#[derive(Clone, Copy, Debug, PartialEq, Eq, Structural)]
pub struct Vector3 {
    pub x: Fx,
    pub y: Fx,
    pub z: Fx,
}

/// Dot product, in raw units.
pub open spec fn dot_spec(a: Vector3, b: Vector3) -> int {
    fx_add(fx_add(fx_mul(a.x@, b.x@), fx_mul(a.y@, b.y@)), fx_mul(a.z@, b.z@))
}

/// Cross product.
pub open spec fn cross_spec(a: Vector3, b: Vector3) -> Vector3 {
    Vector3 {
        x: fx_new(fx_sub(fx_mul(a.y@, b.z@), fx_mul(a.z@, b.y@))),
        y: fx_new(fx_sub(fx_mul(a.z@, b.x@), fx_mul(a.x@, b.z@))),
        z: fx_new(fx_sub(fx_mul(a.x@, b.y@), fx_mul(a.y@, b.x@))),
    }
}

/// Length of a vector, in raw units.
pub open spec fn magnitude_spec(a: Vector3) -> int {
    fx_sqrt(dot_spec(a, a))
}

/// The vector scaled to length one (a zero vector saturates per `fx_div`).
pub open spec fn normalize_spec(a: Vector3) -> Vector3 {
    Vector3 {
        x: fx_new(fx_div(a.x@, magnitude_spec(a))),
        y: fx_new(fx_div(a.y@, magnitude_spec(a))),
        z: fx_new(fx_div(a.z@, magnitude_spec(a))),
    }
}

/// `a` reflected off a surface with normal `n`: `a - n * 2 * (a . n)`.
pub open spec fn reflect_spec(a: Vector3, n: Vector3) -> Vector3 {
    Vector3 {
        x: fx_new(fx_sub(a.x@, fx_mul(fx_mul(n.x@, 2 * SCALE), dot_spec(a, n)))),
        y: fx_new(fx_sub(a.y@, fx_mul(fx_mul(n.y@, 2 * SCALE), dot_spec(a, n)))),
        z: fx_new(fx_sub(a.z@, fx_mul(fx_mul(n.z@, 2 * SCALE), dot_spec(a, n)))),
    }
}

/// The refraction of `uv` through a surface with normal `n`, after the
/// perpendicular-plus-parallel decomposition.
pub open spec fn refract_spec(uv: Vector3, n: Vector3, eta: Fx) -> Vector3 {
    let cos_theta = fx_min(fx_neg(dot_spec(uv, n)), SCALE as int);
    let perp = Vector3 {
        x: fx_new(fx_mul(fx_add(uv.x@, fx_mul(n.x@, cos_theta)), eta@)),
        y: fx_new(fx_mul(fx_add(uv.y@, fx_mul(n.y@, cos_theta)), eta@)),
        z: fx_new(fx_mul(fx_add(uv.z@, fx_mul(n.z@, cos_theta)), eta@)),
    };
    let par_len = fx_neg(fx_sqrt(fx_clip(fx_abs(fx_sub(SCALE as int, magnitude_spec(perp))))));
    Vector3 {
        x: fx_new(fx_add(perp.x@, fx_mul(n.x@, par_len))),
        y: fx_new(fx_add(perp.y@, fx_mul(n.y@, par_len))),
        z: fx_new(fx_add(perp.z@, fx_mul(n.z@, par_len))),
    }
}

impl Vector3 {
    pub fn new(x: Fx, y: Fx, z: Fx) -> (v: Vector3)
        ensures
            v == (Vector3 { x, y, z }),
    {
        Vector3 { x, y, z }
    }

    pub fn zero() -> (v: Vector3)
        ensures
            v == (Vector3 { x: fx_new(0), y: fx_new(0), z: fx_new(0) }),
    {
        Vector3 { x: Fx::zero(), y: Fx::zero(), z: Fx::zero() }
    }

    /// The vector with every component negated.
    pub fn negate(&self) -> (r: Vector3)
        ensures
            r == (Vector3 {
                x: fx_new(fx_neg(self.x@)),
                y: fx_new(fx_neg(self.y@)),
                z: fx_new(fx_neg(self.z@)),
            }),
    {
        Vector3 { x: self.x.neg(), y: self.y.neg(), z: self.z.neg() }
    }

    /// Dot product of two vectors.
    pub fn dot(&self, other: &Vector3) -> (r: Fx)
        ensures
            r@ == dot_spec(*self, *other),
    {
        self.x.mul(other.x).add(self.y.mul(other.y)).add(self.z.mul(other.z))
    }

    /// Dot product against a point's coordinates.
    pub fn dot_point(&self, other: &Point) -> (r: Fx)
        ensures
            r@ == dot_spec(*self, Vector3 { x: other.x, y: other.y, z: other.z }),
    {
        self.x.mul(other.x).add(self.y.mul(other.y)).add(self.z.mul(other.z))
    }

    /// Cross product of two vectors.
    pub fn cross(&self, other: &Vector3) -> (r: Vector3)
        ensures
            r == cross_spec(*self, *other),
    {
        Vector3 {
            x: self.y.mul(other.z).sub(self.z.mul(other.y)),
            y: self.z.mul(other.x).sub(self.x.mul(other.z)),
            z: self.x.mul(other.y).sub(self.y.mul(other.x)),
        }
    }

    /// Length of the vector.
    pub fn magnitude(&self) -> (r: Fx)
        ensures
            r@ == magnitude_spec(*self),
    {
        self.dot(self).sqrt()
    }

    /// The vector scaled to length one.
    pub fn normalize(&self) -> (r: Vector3)
        ensures
            r == normalize_spec(*self),
    {
        let m = self.magnitude();
        Vector3 { x: self.x.div(m), y: self.y.div(m), z: self.z.div(m) }
    }

    /// The vector is shorter than 10^-8 on every axis.
    pub fn near_zero(&self) -> (r: bool)
        ensures
            r == (fx_approx(self.x@, 0, 10) && fx_approx(self.y@, 0, 10) && fx_approx(
                self.z@,
                0,
                10,
            )),
    {
        self.x.abs().raw < 10 && self.y.abs().raw < 10 && self.z.abs().raw < 10
    }

    /// Reflect off a surface with normal `normal`.
    pub fn reflect(&self, normal: &Vector3) -> (r: Vector3)
        ensures
            r == reflect_spec(*self, *normal),
    {
        let two = Fx::from_raw(2 * SCALE);
        let d = self.dot(normal);
        Vector3 {
            x: self.x.sub(normal.x.mul(two).mul(d)),
            y: self.y.sub(normal.y.mul(two).mul(d)),
            z: self.z.sub(normal.z.mul(two).mul(d)),
        }
    }

    /// Refract `uv` through a surface with normal `n` and ratio of refractive
    /// indices `etai_over_etat`.
    pub fn refract(uv: &Vector3, n: &Vector3, etai_over_etat: Fx) -> (r: Vector3)
        ensures
            r == refract_spec(*uv, *n, etai_over_etat),
    {
        let cos_theta = Fx::min(uv.dot(n).neg(), Fx::one());
        let perp_x = uv.x.add(n.x.mul(cos_theta)).mul(etai_over_etat);
        let perp_y = uv.y.add(n.y.mul(cos_theta)).mul(etai_over_etat);
        let perp_z = uv.z.add(n.z.mul(cos_theta)).mul(etai_over_etat);
        let perp = Vector3 { x: perp_x, y: perp_y, z: perp_z };
        let par_len = Fx::one().sub(perp.magnitude()).abs().sqrt().neg();
        Vector3 {
            x: perp.x.add(n.x.mul(par_len)),
            y: perp.y.add(n.y.mul(par_len)),
            z: perp.z.add(n.z.mul(par_len)),
        }
    }
}

impl Vector3 {
    /// The point's coordinates taken as a vector.
    pub fn from_point(p: Point) -> (r: Vector3)
        ensures
            r == (Vector3 { x: p.x, y: p.y, z: p.z }),
    {
        Vector3 { x: p.x, y: p.y, z: p.z }
    }

    /// Componentwise sum.
    pub fn add(self, other: Vector3) -> (r: Vector3)
        ensures
            r == (Vector3 {
                x: fx_new(fx_add(self.x@, other.x@)),
                y: fx_new(fx_add(self.y@, other.y@)),
                z: fx_new(fx_add(self.z@, other.z@)),
            }),
    {
        Vector3 { x: self.x.add(other.x), y: self.y.add(other.y), z: self.z.add(other.z) }
    }

    /// Componentwise difference.
    pub fn sub(self, other: Vector3) -> (r: Vector3)
        ensures
            r == (Vector3 {
                x: fx_new(fx_sub(self.x@, other.x@)),
                y: fx_new(fx_sub(self.y@, other.y@)),
                z: fx_new(fx_sub(self.z@, other.z@)),
            }),
    {
        Vector3 { x: self.x.sub(other.x), y: self.y.sub(other.y), z: self.z.sub(other.z) }
    }

    /// Componentwise product.
    pub fn mul(self, other: Vector3) -> (r: Vector3)
        ensures
            r == (Vector3 {
                x: fx_new(fx_mul(self.x@, other.x@)),
                y: fx_new(fx_mul(self.y@, other.y@)),
                z: fx_new(fx_mul(self.z@, other.z@)),
            }),
    {
        Vector3 { x: self.x.mul(other.x), y: self.y.mul(other.y), z: self.z.mul(other.z) }
    }

    /// The vector scaled by a scalar.
    pub fn mul_scalar(self, k: Fx) -> (r: Vector3)
        ensures
            r == (Vector3 {
                x: fx_new(fx_mul(self.x@, k@)),
                y: fx_new(fx_mul(self.y@, k@)),
                z: fx_new(fx_mul(self.z@, k@)),
            }),
    {
        Vector3 { x: self.x.mul(k), y: self.y.mul(k), z: self.z.mul(k) }
    }

    /// The vector divided by a scalar.
    pub fn div_scalar(self, k: Fx) -> (r: Vector3)
        ensures
            r == (Vector3 {
                x: fx_new(fx_div(self.x@, k@)),
                y: fx_new(fx_div(self.y@, k@)),
                z: fx_new(fx_div(self.z@, k@)),
            }),
    {
        Vector3 { x: self.x.div(k), y: self.y.div(k), z: self.z.div(k) }
    }
}

impl Default for Vector3 {
    fn default() -> (v: Vector3)
        ensures
            v == (Vector3 { x: fx_new(0), y: fx_new(0), z: fx_new(0) }),
    {
        Vector3 { x: Fx::zero(), y: Fx::zero(), z: Fx::zero() }
    }
}

impl ApproxEq for Vector3 {
    open spec fn approx_spec(&self, other: &Self) -> bool {
        fx_approx(self.x@, other.x@, EPSILON as int) && fx_approx(self.y@, other.y@, EPSILON as int)
            && fx_approx(self.z@, other.z@, EPSILON as int)
    }

    open spec fn approx_low_spec(&self, other: &Self) -> bool {
        fx_approx(self.x@, other.x@, LOW_EPSILON as int) && fx_approx(
            self.y@,
            other.y@,
            LOW_EPSILON as int,
        ) && fx_approx(self.z@, other.z@, LOW_EPSILON as int)
    }

    fn approx_eq(&self, other: &Self) -> (res: bool) {
        self.x.approx_eq(&other.x) && self.y.approx_eq(&other.y) && self.z.approx_eq(&other.z)
    }

    fn approx_eq_low(&self, other: &Self) -> (res: bool) {
        self.x.approx_eq_low(&other.x) && self.y.approx_eq_low(&other.y) && self.z.approx_eq_low(
            &other.z,
        )
    }
}

} // verus!
