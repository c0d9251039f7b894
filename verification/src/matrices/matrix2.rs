//! 2x2 matrices: the base case of the cofactor expansion.

use crate::approx::{fx_approx, ApproxEq, EPSILON, LOW_EPSILON};
use crate::fx::{fx_mul, fx_new, fx_sub, Fx};
use crate::matrices::Matrix;
use vstd::prelude::*;

verus! {

#[derive(Clone, Copy, Debug, PartialEq, Eq, Structural)]
pub struct Matrix2 {
    pub m00: Fx,
    pub m01: Fx,
    pub m10: Fx,
    pub m11: Fx,
}

/// `ad - bc`, in raw units.
pub open spec fn m2_det(m: Matrix2) -> int {
    fx_sub(fx_mul(m.m00@, m.m11@), fx_mul(m.m01@, m.m10@))
}

impl Matrix2 {
    pub fn new() -> (r: Matrix2)
        ensures
            r == (Matrix2 { m00: fx_new(0), m01: fx_new(0), m10: fx_new(0), m11: fx_new(0) }),
    {
        Matrix2 { m00: Fx::zero(), m01: Fx::zero(), m10: Fx::zero(), m11: Fx::zero() }
    }

    /// Build from row-major rows (rows beyond 2x2 are ignored).
    pub fn from(data: Vec<Vec<Fx>>) -> (r: Matrix2)
        requires
            data@.len() >= 2,
            data@[0]@.len() >= 2,
            data@[1]@.len() >= 2,
        ensures
            r == (Matrix2 {
                m00: data@[0]@[0],
                m01: data@[0]@[1],
                m10: data@[1]@[0],
                m11: data@[1]@[1],
            }),
    {
        let row0 = &data[0];
        let row1 = &data[1];
        Matrix2 { m00: row0[0], m01: row0[1], m10: row1[0], m11: row1[1] }
    }

    pub fn determinant(&self) -> (r: Fx)
        ensures
            r@ == m2_det(*self),
    {
        self.m00.mul(self.m11).sub(self.m01.mul(self.m10))
    }
}

impl Matrix2 {
    /// The multiplicative identity.
    pub fn identity() -> (r: Matrix2)
        ensures
            r == (Matrix2 {
                m00: fx_new(crate::fx::SCALE as int),
                m01: fx_new(0),
                m10: fx_new(0),
                m11: fx_new(crate::fx::SCALE as int),
            }),
    {
        Matrix2 { m00: Fx::one(), m01: Fx::zero(), m10: Fx::zero(), m11: Fx::one() }
    }

    /// Transpose in place; the transposed matrix also comes back.
    pub fn transpose(&mut self) -> (r: Matrix2)
        ensures
            *final(self) == (Matrix2 {
                m00: old(self).m00,
                m01: old(self).m10,
                m10: old(self).m01,
                m11: old(self).m11,
            }),
            r == *final(self),
    {
        let t = Matrix2 { m00: self.m00, m01: self.m10, m10: self.m01, m11: self.m11 };
        *self = t;
        t
    }

    /// Matrix product.
    pub fn mul_matrix(&self, rhs: Matrix2) -> (r: Matrix2)
        ensures
            r == (Matrix2 {
                m00: fx_new(crate::fx::fx_add(fx_mul(self.m00@, rhs.m00@), fx_mul(self.m01@, rhs.m10@))),
                m01: fx_new(crate::fx::fx_add(fx_mul(self.m00@, rhs.m01@), fx_mul(self.m01@, rhs.m11@))),
                m10: fx_new(crate::fx::fx_add(fx_mul(self.m10@, rhs.m00@), fx_mul(self.m11@, rhs.m10@))),
                m11: fx_new(crate::fx::fx_add(fx_mul(self.m10@, rhs.m01@), fx_mul(self.m11@, rhs.m11@))),
            }),
    {
        Matrix2 {
            m00: self.m00.mul(rhs.m00).add(self.m01.mul(rhs.m10)),
            m01: self.m00.mul(rhs.m01).add(self.m01.mul(rhs.m11)),
            m10: self.m10.mul(rhs.m00).add(self.m11.mul(rhs.m10)),
            m11: self.m10.mul(rhs.m01).add(self.m11.mul(rhs.m11)),
        }
    }
}

impl Matrix for Matrix2 {
    fn rows(&self) -> usize {
        2
    }

    fn columns(&self) -> usize {
        2
    }

    fn identity() -> Matrix2 {
        Matrix2::identity()
    }

    fn transpose(&mut self) -> Matrix2 {
        Matrix2::transpose(self)
    }
}

impl Default for Matrix2 {
    fn default() -> (r: Matrix2)
        ensures
            r == (Matrix2 { m00: fx_new(0), m01: fx_new(0), m10: fx_new(0), m11: fx_new(0) }),
    {
        Matrix2::new()
    }
}

impl ApproxEq for Matrix2 {
    open spec fn approx_spec(&self, other: &Self) -> bool {
        fx_approx(self.m00@, other.m00@, EPSILON as int) && fx_approx(
            self.m01@,
            other.m01@,
            EPSILON as int,
        ) && fx_approx(self.m10@, other.m10@, EPSILON as int) && fx_approx(
            self.m11@,
            other.m11@,
            EPSILON as int,
        )
    }

    open spec fn approx_low_spec(&self, other: &Self) -> bool {
        fx_approx(self.m00@, other.m00@, LOW_EPSILON as int) && fx_approx(
            self.m01@,
            other.m01@,
            LOW_EPSILON as int,
        ) && fx_approx(self.m10@, other.m10@, LOW_EPSILON as int) && fx_approx(
            self.m11@,
            other.m11@,
            LOW_EPSILON as int,
        )
    }

    fn approx_eq(&self, other: &Self) -> (res: bool) {
        self.m00.approx_eq(&other.m00) && self.m01.approx_eq(&other.m01) && self.m10.approx_eq(
            &other.m10,
        ) && self.m11.approx_eq(&other.m11)
    }

    fn approx_eq_low(&self, other: &Self) -> (res: bool) {
        self.m00.approx_eq_low(&other.m00) && self.m01.approx_eq_low(&other.m01)
            && self.m10.approx_eq_low(&other.m10) && self.m11.approx_eq_low(&other.m11)
    }
}

} // verus!
