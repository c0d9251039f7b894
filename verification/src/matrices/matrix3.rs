//! 3x3 matrices: the middle step of the cofactor expansion.

use crate::approx::{fx_approx, ApproxEq, LOW_EPSILON};
use crate::fx::{fx_add, fx_mul, fx_neg, fx_new, Fx};
use crate::matrices::{Matrix, Matrix2};
use vstd::prelude::*;

verus! {

#[derive(Clone, Copy, Debug, PartialEq, Eq, Structural)]
pub struct Matrix3 {
    pub m00: Fx,
    pub m01: Fx,
    pub m02: Fx,
    pub m10: Fx,
    pub m11: Fx,
    pub m12: Fx,
    pub m20: Fx,
    pub m21: Fx,
    pub m22: Fx,
}

pub open spec fn m3_at(m: Matrix3, r: int, c: int) -> Fx {
    if r == 0 {
        if c == 0 {
            m.m00
        } else if c == 1 {
            m.m01
        } else {
            m.m02
        }
    } else if r == 1 {
        if c == 0 {
            m.m10
        } else if c == 1 {
            m.m11
        } else {
            m.m12
        }
    } else {
        if c == 0 {
            m.m20
        } else if c == 1 {
            m.m21
        } else {
            m.m22
        }
    }
}

/// Strike row `row` and column `col`.
#[verifier::opaque]
pub open spec fn m3_submatrix(m: Matrix3, row: int, col: int) -> Matrix2 {
    let r0 = if row == 0 {
        1int
    } else {
        0int
    };
    let r1 = if row <= 1 {
        2int
    } else {
        1int
    };
    let c0 = if col == 0 {
        1int
    } else {
        0int
    };
    let c1 = if col <= 1 {
        2int
    } else {
        1int
    };
    Matrix2 {
        m00: m3_at(m, r0, c0),
        m01: m3_at(m, r0, c1),
        m10: m3_at(m, r1, c0),
        m11: m3_at(m, r1, c1),
    }
}

/// Determinant of the submatrix that strikes `row` and `col`.
#[verifier::opaque]
pub open spec fn m3_minor(m: Matrix3, row: int, col: int) -> int {
    crate::matrices::matrix2::m2_det(m3_submatrix(m, row, col))
}

/// Minor with the checkerboard sign.
#[verifier::opaque]
pub open spec fn m3_cofactor(m: Matrix3, row: int, col: int) -> int {
    if (row + col) % 2 == 0 {
        m3_minor(m, row, col)
    } else {
        fx_neg(m3_minor(m, row, col))
    }
}

/// Cofactor expansion along the first row.
#[verifier::opaque]
pub open spec fn m3_det(m: Matrix3) -> int {
    fx_add(
        fx_add(fx_mul(m.m00@, m3_cofactor(m, 0, 0)), fx_mul(m.m01@, m3_cofactor(m, 0, 1))),
        fx_mul(m.m02@, m3_cofactor(m, 0, 2)),
    )
}

impl Matrix3 {
    pub fn new() -> (r: Matrix3)
        ensures
            r == (Matrix3 {
                m00: fx_new(0),
                m01: fx_new(0),
                m02: fx_new(0),
                m10: fx_new(0),
                m11: fx_new(0),
                m12: fx_new(0),
                m20: fx_new(0),
                m21: fx_new(0),
                m22: fx_new(0),
            }),
    {
        Matrix3 {
            m00: Fx::zero(),
            m01: Fx::zero(),
            m02: Fx::zero(),
            m10: Fx::zero(),
            m11: Fx::zero(),
            m12: Fx::zero(),
            m20: Fx::zero(),
            m21: Fx::zero(),
            m22: Fx::zero(),
        }
    }

    /// Build from row-major rows (entries beyond 3x3 are ignored).
    pub fn from(data: Vec<Vec<Fx>>) -> (r: Matrix3)
        requires
            data@.len() >= 3,
            data@[0]@.len() >= 3,
            data@[1]@.len() >= 3,
            data@[2]@.len() >= 3,
        ensures
            r == (Matrix3 {
                m00: data@[0]@[0],
                m01: data@[0]@[1],
                m02: data@[0]@[2],
                m10: data@[1]@[0],
                m11: data@[1]@[1],
                m12: data@[1]@[2],
                m20: data@[2]@[0],
                m21: data@[2]@[1],
                m22: data@[2]@[2],
            }),
    {
        let row0 = &data[0];
        let row1 = &data[1];
        let row2 = &data[2];
        Matrix3 {
            m00: row0[0],
            m01: row0[1],
            m02: row0[2],
            m10: row1[0],
            m11: row1[1],
            m12: row1[2],
            m20: row2[0],
            m21: row2[1],
            m22: row2[2],
        }
    }

    pub fn at(&self, r: usize, c: usize) -> (v: Fx)
        requires
            r < 3,
            c < 3,
        ensures
            v == m3_at(*self, r as int, c as int),
    {
        if r == 0 {
            if c == 0 {
                self.m00
            } else if c == 1 {
                self.m01
            } else {
                self.m02
            }
        } else if r == 1 {
            if c == 0 {
                self.m10
            } else if c == 1 {
                self.m11
            } else {
                self.m12
            }
        } else {
            if c == 0 {
                self.m20
            } else if c == 1 {
                self.m21
            } else {
                self.m22
            }
        }
    }

    /// The 2x2 matrix left after striking `row` and `column`.
    pub fn submatrix(&self, row: usize, column: usize) -> (r: Matrix2)
        requires
            row < 3,
            column < 3,
        ensures
            r == m3_submatrix(*self, row as int, column as int),
    {
        proof {
            reveal(m3_submatrix);
        }
        let r0: usize = if row == 0 {
            1
        } else {
            0
        };
        let r1: usize = if row <= 1 {
            2
        } else {
            1
        };
        let c0: usize = if column == 0 {
            1
        } else {
            0
        };
        let c1: usize = if column <= 1 {
            2
        } else {
            1
        };
        Matrix2 {
            m00: self.at(r0, c0),
            m01: self.at(r0, c1),
            m10: self.at(r1, c0),
            m11: self.at(r1, c1),
        }
    }

    pub fn minor(&self, row: usize, column: usize) -> (r: Fx)
        requires
            row < 3,
            column < 3,
        ensures
            r@ == m3_minor(*self, row as int, column as int),
    {
        proof {
            reveal(m3_minor);
        }
        self.submatrix(row, column).determinant()
    }

    pub fn cofactor(&self, row: usize, column: usize) -> (r: Fx)
        requires
            row < 3,
            column < 3,
        ensures
            r@ == m3_cofactor(*self, row as int, column as int),
    {
        proof {
            reveal(m3_cofactor);
        }
        let minor = self.minor(row, column);
        if (row + column) % 2 == 0 {
            minor
        } else {
            minor.neg()
        }
    }

    pub fn determinant(&self) -> (r: Fx)
        ensures
            r@ == m3_det(*self),
    {
        proof {
            reveal(m3_det);
        }
        self.m00.mul(self.cofactor(0, 0)).add(self.m01.mul(self.cofactor(0, 1))).add(
            self.m02.mul(self.cofactor(0, 2)),
        )
    }
}

impl Matrix3 {
    /// The multiplicative identity.
    pub fn identity() -> (r: Matrix3)
        ensures
            r == (Matrix3 {
                m00: fx_new(crate::fx::SCALE as int),
                m01: fx_new(0),
                m02: fx_new(0),
                m10: fx_new(0),
                m11: fx_new(crate::fx::SCALE as int),
                m12: fx_new(0),
                m20: fx_new(0),
                m21: fx_new(0),
                m22: fx_new(crate::fx::SCALE as int),
            }),
    {
        Matrix3 {
            m00: Fx::one(),
            m01: Fx::zero(),
            m02: Fx::zero(),
            m10: Fx::zero(),
            m11: Fx::one(),
            m12: Fx::zero(),
            m20: Fx::zero(),
            m21: Fx::zero(),
            m22: Fx::one(),
        }
    }

    /// Transpose in place; the transposed matrix also comes back.
    pub fn transpose(&mut self) -> (r: Matrix3)
        ensures
            *final(self) == (Matrix3 {
                m00: old(self).m00,
                m01: old(self).m10,
                m02: old(self).m20,
                m10: old(self).m01,
                m11: old(self).m11,
                m12: old(self).m21,
                m20: old(self).m02,
                m21: old(self).m12,
                m22: old(self).m22,
            }),
            r == *final(self),
    {
        let t = Matrix3 {
            m00: self.m00,
            m01: self.m10,
            m02: self.m20,
            m10: self.m01,
            m11: self.m11,
            m12: self.m21,
            m20: self.m02,
            m21: self.m12,
            m22: self.m22,
        };
        *self = t;
        t
    }
}

impl Matrix for Matrix3 {
    fn rows(&self) -> usize {
        3
    }

    fn columns(&self) -> usize {
        3
    }

    fn identity() -> Matrix3 {
        Matrix3::identity()
    }

    fn transpose(&mut self) -> Matrix3 {
        Matrix3::transpose(self)
    }
}

impl Default for Matrix3 {
    fn default() -> (r: Matrix3)
        ensures
            r == (Matrix3 {
                m00: fx_new(0),
                m01: fx_new(0),
                m02: fx_new(0),
                m10: fx_new(0),
                m11: fx_new(0),
                m12: fx_new(0),
                m20: fx_new(0),
                m21: fx_new(0),
                m22: fx_new(0),
            }),
    {
        Matrix3::new()
    }
}

impl ApproxEq for Matrix3 {
    open spec fn approx_spec(&self, other: &Self) -> bool {
        self.approx_low_spec(other)
    }

    open spec fn approx_low_spec(&self, other: &Self) -> bool {
        fx_approx(self.m00@, other.m00@, LOW_EPSILON as int) && fx_approx(
            self.m01@,
            other.m01@,
            LOW_EPSILON as int,
        ) && fx_approx(self.m02@, other.m02@, LOW_EPSILON as int) && fx_approx(
            self.m10@,
            other.m10@,
            LOW_EPSILON as int,
        ) && fx_approx(self.m11@, other.m11@, LOW_EPSILON as int) && fx_approx(
            self.m12@,
            other.m12@,
            LOW_EPSILON as int,
        ) && fx_approx(self.m20@, other.m20@, LOW_EPSILON as int) && fx_approx(
            self.m21@,
            other.m21@,
            LOW_EPSILON as int,
        ) && fx_approx(self.m22@, other.m22@, LOW_EPSILON as int)
    }

    fn approx_eq(&self, other: &Self) -> (res: bool) {
        self.approx_eq_low(other)
    }

    fn approx_eq_low(&self, other: &Self) -> (res: bool) {
        self.m00.approx_eq_low(&other.m00) && self.m01.approx_eq_low(&other.m01)
            && self.m02.approx_eq_low(&other.m02) && self.m10.approx_eq_low(&other.m10)
            && self.m11.approx_eq_low(&other.m11) && self.m12.approx_eq_low(&other.m12)
            && self.m20.approx_eq_low(&other.m20) && self.m21.approx_eq_low(&other.m21)
            && self.m22.approx_eq_low(&other.m22)
    }
}

} // verus!
