//! 4x4 affine transform matrices: multiplication, transposition, and
//! adjugate-over-determinant inversion. Points receive the translation
//! column; vectors do not.

use crate::approx::{fx_approx, ApproxEq, EPSILON, LOW_EPSILON};
use crate::fx::{fx_add, fx_div, fx_mul, fx_neg, fx_new, Fx, SCALE};
use crate::matrices::{Matrix, Matrix3};
use crate::point::Point;
use crate::vector::Vector3;
use vstd::prelude::*;

verus! {

#[derive(Clone, Copy, Debug, PartialEq, Eq, Structural)]
pub struct Matrix4 {
    pub m00: Fx,
    pub m01: Fx,
    pub m02: Fx,
    pub m03: Fx,
    pub m10: Fx,
    pub m11: Fx,
    pub m12: Fx,
    pub m13: Fx,
    pub m20: Fx,
    pub m21: Fx,
    pub m22: Fx,
    pub m23: Fx,
    pub m30: Fx,
    pub m31: Fx,
    pub m32: Fx,
    pub m33: Fx,
}

pub open spec fn m4_at(m: Matrix4, r: int, c: int) -> Fx {
    if r == 0 {
        if c == 0 {
            m.m00
        } else if c == 1 {
            m.m01
        } else if c == 2 {
            m.m02
        } else {
            m.m03
        }
    } else if r == 1 {
        if c == 0 {
            m.m10
        } else if c == 1 {
            m.m11
        } else if c == 2 {
            m.m12
        } else {
            m.m13
        }
    } else if r == 2 {
        if c == 0 {
            m.m20
        } else if c == 1 {
            m.m21
        } else if c == 2 {
            m.m22
        } else {
            m.m23
        }
    } else {
        if c == 0 {
            m.m30
        } else if c == 1 {
            m.m31
        } else if c == 2 {
            m.m32
        } else {
            m.m33
        }
    }
}

/// The matrix with entry (`r`, `c`) replaced by `v`.
pub open spec fn m4_set(m: Matrix4, r: int, c: int, v: Fx) -> Matrix4 {
    Matrix4 {
        m00: if r == 0 && c == 0 { v } else { m.m00 },
        m01: if r == 0 && c == 1 { v } else { m.m01 },
        m02: if r == 0 && c == 2 { v } else { m.m02 },
        m03: if r == 0 && c == 3 { v } else { m.m03 },
        m10: if r == 1 && c == 0 { v } else { m.m10 },
        m11: if r == 1 && c == 1 { v } else { m.m11 },
        m12: if r == 1 && c == 2 { v } else { m.m12 },
        m13: if r == 1 && c == 3 { v } else { m.m13 },
        m20: if r == 2 && c == 0 { v } else { m.m20 },
        m21: if r == 2 && c == 1 { v } else { m.m21 },
        m22: if r == 2 && c == 2 { v } else { m.m22 },
        m23: if r == 2 && c == 3 { v } else { m.m23 },
        m30: if r == 3 && c == 0 { v } else { m.m30 },
        m31: if r == 3 && c == 1 { v } else { m.m31 },
        m32: if r == 3 && c == 2 { v } else { m.m32 },
        m33: if r == 3 && c == 3 { v } else { m.m33 },
    }
}

pub open spec fn m4_id() -> Matrix4 {
    Matrix4 {
        m00: fx_new(SCALE as int),
        m01: fx_new(0),
        m02: fx_new(0),
        m03: fx_new(0),
        m10: fx_new(0),
        m11: fx_new(SCALE as int),
        m12: fx_new(0),
        m13: fx_new(0),
        m20: fx_new(0),
        m21: fx_new(0),
        m22: fx_new(SCALE as int),
        m23: fx_new(0),
        m30: fx_new(0),
        m31: fx_new(0),
        m32: fx_new(0),
        m33: fx_new(SCALE as int),
    }
}

/// Strike row `row` and column `col`.
#[verifier::opaque]
pub open spec fn m4_submatrix(m: Matrix4, row: int, col: int) -> Matrix3 {
    let r0 = if row == 0 {
        1int
    } else {
        0int
    };
    let r1 = if row <= 1 {
        2int
    } else {
        1int
    };
    let r2 = if row <= 2 {
        3int
    } else {
        2int
    };
    let c0 = if col == 0 {
        1int
    } else {
        0int
    };
    let c1 = if col <= 1 {
        2int
    } else {
        1int
    };
    let c2 = if col <= 2 {
        3int
    } else {
        2int
    };
    Matrix3 {
        m00: m4_at(m, r0, c0),
        m01: m4_at(m, r0, c1),
        m02: m4_at(m, r0, c2),
        m10: m4_at(m, r1, c0),
        m11: m4_at(m, r1, c1),
        m12: m4_at(m, r1, c2),
        m20: m4_at(m, r2, c0),
        m21: m4_at(m, r2, c1),
        m22: m4_at(m, r2, c2),
    }
}

#[verifier::opaque]
pub open spec fn m4_minor(m: Matrix4, row: int, col: int) -> int {
    crate::matrices::matrix3::m3_det(m4_submatrix(m, row, col))
}

#[verifier::opaque]
pub open spec fn m4_cofactor(m: Matrix4, row: int, col: int) -> int {
    if (row + col) % 2 == 0 {
        m4_minor(m, row, col)
    } else {
        fx_neg(m4_minor(m, row, col))
    }
}

/// Cofactor expansion along the first row.
#[verifier::opaque]
pub open spec fn m4_det(m: Matrix4) -> int {
    fx_add(
        fx_add(
            fx_add(fx_mul(m.m00@, m4_cofactor(m, 0, 0)), fx_mul(m.m01@, m4_cofactor(m, 0, 1))),
            fx_mul(m.m02@, m4_cofactor(m, 0, 2)),
        ),
        fx_mul(m.m03@, m4_cofactor(m, 0, 3)),
    )
}

/// The determinant is not approximately zero.
pub open spec fn m4_is_invertible(m: Matrix4) -> bool {
    !fx_approx(m4_det(m), 0, EPSILON as int)
}

/// Adjugate over determinant: entry (`r`, `c`) is `cofactor(c, r) / det`.
#[verifier::opaque]
pub open spec fn m4_invert(m: Matrix4) -> Matrix4 {
    let d = m4_det(m);
    Matrix4 {
        m00: fx_new(fx_div(m4_cofactor(m, 0, 0), d)),
        m01: fx_new(fx_div(m4_cofactor(m, 1, 0), d)),
        m02: fx_new(fx_div(m4_cofactor(m, 2, 0), d)),
        m03: fx_new(fx_div(m4_cofactor(m, 3, 0), d)),
        m10: fx_new(fx_div(m4_cofactor(m, 0, 1), d)),
        m11: fx_new(fx_div(m4_cofactor(m, 1, 1), d)),
        m12: fx_new(fx_div(m4_cofactor(m, 2, 1), d)),
        m13: fx_new(fx_div(m4_cofactor(m, 3, 1), d)),
        m20: fx_new(fx_div(m4_cofactor(m, 0, 2), d)),
        m21: fx_new(fx_div(m4_cofactor(m, 1, 2), d)),
        m22: fx_new(fx_div(m4_cofactor(m, 2, 2), d)),
        m23: fx_new(fx_div(m4_cofactor(m, 3, 2), d)),
        m30: fx_new(fx_div(m4_cofactor(m, 0, 3), d)),
        m31: fx_new(fx_div(m4_cofactor(m, 1, 3), d)),
        m32: fx_new(fx_div(m4_cofactor(m, 2, 3), d)),
        m33: fx_new(fx_div(m4_cofactor(m, 3, 3), d)),
    }
}

pub open spec fn m4_transpose(m: Matrix4) -> Matrix4 {
    Matrix4 {
        m00: m.m00,
        m01: m.m10,
        m02: m.m20,
        m03: m.m30,
        m10: m.m01,
        m11: m.m11,
        m12: m.m21,
        m13: m.m31,
        m20: m.m02,
        m21: m.m12,
        m22: m.m22,
        m23: m.m32,
        m30: m.m03,
        m31: m.m13,
        m32: m.m23,
        m33: m.m33,
    }
}

/// Row `r` of `a` dotted with column `c` of `b`.
#[verifier::opaque]
pub open spec fn m4_rc(a: Matrix4, b: Matrix4, r: int, c: int) -> int {
    fx_add(
        fx_add(
            fx_add(
                fx_mul(m4_at(a, r, 0)@, m4_at(b, 0, c)@),
                fx_mul(m4_at(a, r, 1)@, m4_at(b, 1, c)@),
            ),
            fx_mul(m4_at(a, r, 2)@, m4_at(b, 2, c)@),
        ),
        fx_mul(m4_at(a, r, 3)@, m4_at(b, 3, c)@),
    )
}

#[verifier::opaque]
pub open spec fn m4_mul(a: Matrix4, b: Matrix4) -> Matrix4 {
    Matrix4 {
        m00: fx_new(m4_rc(a, b, 0, 0)),
        m01: fx_new(m4_rc(a, b, 0, 1)),
        m02: fx_new(m4_rc(a, b, 0, 2)),
        m03: fx_new(m4_rc(a, b, 0, 3)),
        m10: fx_new(m4_rc(a, b, 1, 0)),
        m11: fx_new(m4_rc(a, b, 1, 1)),
        m12: fx_new(m4_rc(a, b, 1, 2)),
        m13: fx_new(m4_rc(a, b, 1, 3)),
        m20: fx_new(m4_rc(a, b, 2, 0)),
        m21: fx_new(m4_rc(a, b, 2, 1)),
        m22: fx_new(m4_rc(a, b, 2, 2)),
        m23: fx_new(m4_rc(a, b, 2, 3)),
        m30: fx_new(m4_rc(a, b, 3, 0)),
        m31: fx_new(m4_rc(a, b, 3, 1)),
        m32: fx_new(m4_rc(a, b, 3, 2)),
        m33: fx_new(m4_rc(a, b, 3, 3)),
    }
}

/// Vectors take only the rotation/scale block: no translation.
#[verifier::opaque]
pub open spec fn m4_mul_vector(m: Matrix4, v: Vector3) -> Vector3 {
    Vector3 {
        x: fx_new(
            fx_add(
                fx_add(fx_mul(m.m00@, v.x@), fx_mul(m.m01@, v.y@)),
                fx_mul(m.m02@, v.z@),
            ),
        ),
        y: fx_new(
            fx_add(
                fx_add(fx_mul(m.m10@, v.x@), fx_mul(m.m11@, v.y@)),
                fx_mul(m.m12@, v.z@),
            ),
        ),
        z: fx_new(
            fx_add(
                fx_add(fx_mul(m.m20@, v.x@), fx_mul(m.m21@, v.y@)),
                fx_mul(m.m22@, v.z@),
            ),
        ),
    }
}

/// Points also receive the translation column.
#[verifier::opaque]
pub open spec fn m4_mul_point(m: Matrix4, p: Point) -> Point {
    Point {
        x: fx_new(
            fx_add(
                fx_add(
                    fx_add(fx_mul(m.m00@, p.x@), fx_mul(m.m01@, p.y@)),
                    fx_mul(m.m02@, p.z@),
                ),
                m.m03@,
            ),
        ),
        y: fx_new(
            fx_add(
                fx_add(
                    fx_add(fx_mul(m.m10@, p.x@), fx_mul(m.m11@, p.y@)),
                    fx_mul(m.m12@, p.z@),
                ),
                m.m13@,
            ),
        ),
        z: fx_new(
            fx_add(
                fx_add(
                    fx_add(fx_mul(m.m20@, p.x@), fx_mul(m.m21@, p.y@)),
                    fx_mul(m.m22@, p.z@),
                ),
                m.m23@,
            ),
        ),
    }
}

impl Matrix4 {
    pub fn new() -> (r: Matrix4)
        ensures
            forall|i: int, j: int| 0 <= i < 4 && 0 <= j < 4 ==> m4_at(r, i, j)@ == 0,
    {
        Matrix4 {
            m00: Fx::zero(),
            m01: Fx::zero(),
            m02: Fx::zero(),
            m03: Fx::zero(),
            m10: Fx::zero(),
            m11: Fx::zero(),
            m12: Fx::zero(),
            m13: Fx::zero(),
            m20: Fx::zero(),
            m21: Fx::zero(),
            m22: Fx::zero(),
            m23: Fx::zero(),
            m30: Fx::zero(),
            m31: Fx::zero(),
            m32: Fx::zero(),
            m33: Fx::zero(),
        }
    }

    /// Build from row-major rows (entries beyond 4x4 are ignored).
    pub fn from(data: Vec<Vec<Fx>>) -> (r: Matrix4)
        requires
            data@.len() >= 4,
            forall|i: int| 0 <= i < 4 ==> data@[i]@.len() >= 4,
        ensures
            forall|i: int, j: int|
                0 <= i < 4 && 0 <= j < 4 ==> m4_at(r, i, j) == data@[i]@[j],
    {
        let row0 = &data[0];
        let row1 = &data[1];
        let row2 = &data[2];
        let row3 = &data[3];
        Matrix4 {
            m00: row0[0],
            m01: row0[1],
            m02: row0[2],
            m03: row0[3],
            m10: row1[0],
            m11: row1[1],
            m12: row1[2],
            m13: row1[3],
            m20: row2[0],
            m21: row2[1],
            m22: row2[2],
            m23: row2[3],
            m30: row3[0],
            m31: row3[1],
            m32: row3[2],
            m33: row3[3],
        }
    }

    pub fn at(&self, r: usize, c: usize) -> (v: Fx)
        requires
            r < 4,
            c < 4,
        ensures
            v == m4_at(*self, r as int, c as int),
    {
        if r == 0 {
            if c == 0 {
                self.m00
            } else if c == 1 {
                self.m01
            } else if c == 2 {
                self.m02
            } else {
                self.m03
            }
        } else if r == 1 {
            if c == 0 {
                self.m10
            } else if c == 1 {
                self.m11
            } else if c == 2 {
                self.m12
            } else {
                self.m13
            }
        } else if r == 2 {
            if c == 0 {
                self.m20
            } else if c == 1 {
                self.m21
            } else if c == 2 {
                self.m22
            } else {
                self.m23
            }
        } else {
            if c == 0 {
                self.m30
            } else if c == 1 {
                self.m31
            } else if c == 2 {
                self.m32
            } else {
                self.m33
            }
        }
    }

    /// Replace one entry, builder style.
    pub fn set(self, row: usize, column: usize, value: Fx) -> (r: Matrix4)
        requires
            row < 4,
            column < 4,
        ensures
            r == m4_set(self, row as int, column as int, value),
    {
        let mut m = self;
        if row == 0 {
            if column == 0 {
                m.m00 = value;
            } else if column == 1 {
                m.m01 = value;
            } else if column == 2 {
                m.m02 = value;
            } else {
                m.m03 = value;
            }
        } else if row == 1 {
            if column == 0 {
                m.m10 = value;
            } else if column == 1 {
                m.m11 = value;
            } else if column == 2 {
                m.m12 = value;
            } else {
                m.m13 = value;
            }
        } else if row == 2 {
            if column == 0 {
                m.m20 = value;
            } else if column == 1 {
                m.m21 = value;
            } else if column == 2 {
                m.m22 = value;
            } else {
                m.m23 = value;
            }
        } else {
            if column == 0 {
                m.m30 = value;
            } else if column == 1 {
                m.m31 = value;
            } else if column == 2 {
                m.m32 = value;
            } else {
                m.m33 = value;
            }
        }
        m
    }

    /// The 3x3 matrix left after striking `row` and `column`.
    pub fn submatrix(&self, row: usize, column: usize) -> (r: Matrix3)
        requires
            row < 4,
            column < 4,
        ensures
            r == m4_submatrix(*self, row as int, column as int),
    {
        proof {
            reveal(m4_submatrix);
        }
        let r0: usize = if row == 0 {
            1
        } else {
            0
        };
        let r1: usize = if row <= 1 {
            2
        } else {
            1
        };
        let r2: usize = if row <= 2 {
            3
        } else {
            2
        };
        let c0: usize = if column == 0 {
            1
        } else {
            0
        };
        let c1: usize = if column <= 1 {
            2
        } else {
            1
        };
        let c2: usize = if column <= 2 {
            3
        } else {
            2
        };
        Matrix3 {
            m00: self.at(r0, c0),
            m01: self.at(r0, c1),
            m02: self.at(r0, c2),
            m10: self.at(r1, c0),
            m11: self.at(r1, c1),
            m12: self.at(r1, c2),
            m20: self.at(r2, c0),
            m21: self.at(r2, c1),
            m22: self.at(r2, c2),
        }
    }

    pub fn minor(&self, row: usize, column: usize) -> (r: Fx)
        requires
            row < 4,
            column < 4,
        ensures
            r@ == m4_minor(*self, row as int, column as int),
    {
        proof {
            reveal(m4_minor);
        }
        self.submatrix(row, column).determinant()
    }

    pub fn cofactor(&self, row: usize, column: usize) -> (r: Fx)
        requires
            row < 4,
            column < 4,
        ensures
            r@ == m4_cofactor(*self, row as int, column as int),
    {
        proof {
            reveal(m4_cofactor);
        }
        let minor = self.minor(row, column);
        if (row + column) % 2 == 0 {
            minor
        } else {
            minor.neg()
        }
    }

    pub fn determinant(&self) -> (r: Fx)
        ensures
            r@ == m4_det(*self),
    {
        proof {
            reveal(m4_det);
        }
        self.m00.mul(self.cofactor(0, 0)).add(self.m01.mul(self.cofactor(0, 1))).add(
            self.m02.mul(self.cofactor(0, 2)),
        ).add(self.m03.mul(self.cofactor(0, 3)))
    }

    pub fn is_invertible(&self) -> (r: bool)
        ensures
            r == m4_is_invertible(*self),
    {
        let d = self.determinant();
        !d.approx_eq(&Fx::zero())
    }

    /// The inverse. A singular matrix means a malformed scene, which the
    /// caller must rule out before asking.
    pub fn invert(&self) -> (r: Matrix4)
        requires
            m4_is_invertible(*self),
        ensures
            r == m4_invert(*self),
    {
        proof {
            reveal(m4_invert);
        }
        let dt = self.determinant();
        Matrix4 {
            m00: self.cofactor(0, 0).div(dt),
            m01: self.cofactor(1, 0).div(dt),
            m02: self.cofactor(2, 0).div(dt),
            m03: self.cofactor(3, 0).div(dt),
            m10: self.cofactor(0, 1).div(dt),
            m11: self.cofactor(1, 1).div(dt),
            m12: self.cofactor(2, 1).div(dt),
            m13: self.cofactor(3, 1).div(dt),
            m20: self.cofactor(0, 2).div(dt),
            m21: self.cofactor(1, 2).div(dt),
            m22: self.cofactor(2, 2).div(dt),
            m23: self.cofactor(3, 2).div(dt),
            m30: self.cofactor(0, 3).div(dt),
            m31: self.cofactor(1, 3).div(dt),
            m32: self.cofactor(2, 3).div(dt),
            m33: self.cofactor(3, 3).div(dt),
        }
    }
}

impl Matrix4 {
    /// Matrix product, as a named call with its own contract.
    pub fn mul_matrix(&self, rhs: Matrix4) -> (r: Matrix4)
        ensures
            r == m4_mul(*self, rhs),
    {
        proof {
            reveal(m4_mul);
            reveal(m4_rc);
        }
        Matrix4 {
            m00: self.m00.mul(rhs.m00).add(self.m01.mul(rhs.m10)).add(self.m02.mul(rhs.m20)).add(
                self.m03.mul(rhs.m30),
            ),
            m01: self.m00.mul(rhs.m01).add(self.m01.mul(rhs.m11)).add(self.m02.mul(rhs.m21)).add(
                self.m03.mul(rhs.m31),
            ),
            m02: self.m00.mul(rhs.m02).add(self.m01.mul(rhs.m12)).add(self.m02.mul(rhs.m22)).add(
                self.m03.mul(rhs.m32),
            ),
            m03: self.m00.mul(rhs.m03).add(self.m01.mul(rhs.m13)).add(self.m02.mul(rhs.m23)).add(
                self.m03.mul(rhs.m33),
            ),
            m10: self.m10.mul(rhs.m00).add(self.m11.mul(rhs.m10)).add(self.m12.mul(rhs.m20)).add(
                self.m13.mul(rhs.m30),
            ),
            m11: self.m10.mul(rhs.m01).add(self.m11.mul(rhs.m11)).add(self.m12.mul(rhs.m21)).add(
                self.m13.mul(rhs.m31),
            ),
            m12: self.m10.mul(rhs.m02).add(self.m11.mul(rhs.m12)).add(self.m12.mul(rhs.m22)).add(
                self.m13.mul(rhs.m32),
            ),
            m13: self.m10.mul(rhs.m03).add(self.m11.mul(rhs.m13)).add(self.m12.mul(rhs.m23)).add(
                self.m13.mul(rhs.m33),
            ),
            m20: self.m20.mul(rhs.m00).add(self.m21.mul(rhs.m10)).add(self.m22.mul(rhs.m20)).add(
                self.m23.mul(rhs.m30),
            ),
            m21: self.m20.mul(rhs.m01).add(self.m21.mul(rhs.m11)).add(self.m22.mul(rhs.m21)).add(
                self.m23.mul(rhs.m31),
            ),
            m22: self.m20.mul(rhs.m02).add(self.m21.mul(rhs.m12)).add(self.m22.mul(rhs.m22)).add(
                self.m23.mul(rhs.m32),
            ),
            m23: self.m20.mul(rhs.m03).add(self.m21.mul(rhs.m13)).add(self.m22.mul(rhs.m23)).add(
                self.m23.mul(rhs.m33),
            ),
            m30: self.m30.mul(rhs.m00).add(self.m31.mul(rhs.m10)).add(self.m32.mul(rhs.m20)).add(
                self.m33.mul(rhs.m30),
            ),
            m31: self.m30.mul(rhs.m01).add(self.m31.mul(rhs.m11)).add(self.m32.mul(rhs.m21)).add(
                self.m33.mul(rhs.m31),
            ),
            m32: self.m30.mul(rhs.m02).add(self.m31.mul(rhs.m12)).add(self.m32.mul(rhs.m22)).add(
                self.m33.mul(rhs.m32),
            ),
            m33: self.m30.mul(rhs.m03).add(self.m31.mul(rhs.m13)).add(self.m32.mul(rhs.m23)).add(
                self.m33.mul(rhs.m33),
            ),
        }
    }

    /// Matrix-point product (the point receives the translation column).
    pub fn mul_point(&self, rhs: Point) -> (r: Point)
        ensures
            r == m4_mul_point(*self, rhs),
    {
        proof {
            reveal(m4_mul_point);
        }
        Point {
            x: self.m00.mul(rhs.x).add(self.m01.mul(rhs.y)).add(self.m02.mul(rhs.z)).add(self.m03),
            y: self.m10.mul(rhs.x).add(self.m11.mul(rhs.y)).add(self.m12.mul(rhs.z)).add(self.m13),
            z: self.m20.mul(rhs.x).add(self.m21.mul(rhs.y)).add(self.m22.mul(rhs.z)).add(self.m23),
        }
    }

    /// Matrix-vector product (no translation).
    pub fn mul_vector(&self, rhs: Vector3) -> (r: Vector3)
        ensures
            r == m4_mul_vector(*self, rhs),
    {
        proof {
            reveal(m4_mul_vector);
        }
        Vector3 {
            x: self.m00.mul(rhs.x).add(self.m01.mul(rhs.y)).add(self.m02.mul(rhs.z)),
            y: self.m10.mul(rhs.x).add(self.m11.mul(rhs.y)).add(self.m12.mul(rhs.z)),
            z: self.m20.mul(rhs.x).add(self.m21.mul(rhs.y)).add(self.m22.mul(rhs.z)),
        }
    }
}

impl Matrix4 {
    /// The multiplicative identity.
    pub fn identity() -> (r: Matrix4)
        ensures
            r == m4_id(),
    {
        Matrix4 {
            m00: Fx::one(),
            m01: Fx::zero(),
            m02: Fx::zero(),
            m03: Fx::zero(),
            m10: Fx::zero(),
            m11: Fx::one(),
            m12: Fx::zero(),
            m13: Fx::zero(),
            m20: Fx::zero(),
            m21: Fx::zero(),
            m22: Fx::one(),
            m23: Fx::zero(),
            m30: Fx::zero(),
            m31: Fx::zero(),
            m32: Fx::zero(),
            m33: Fx::one(),
        }
    }

    /// The transposed matrix; the receiver itself is left as it was.
    pub fn transpose(&mut self) -> (r: Matrix4)
        ensures
            *final(self) == *old(self),
            r == m4_transpose(*old(self)),
    {
        m4_transpose_exec(*self)
    }
}

impl Matrix for Matrix4 {
    fn rows(&self) -> usize {
        4
    }

    fn columns(&self) -> usize {
        4
    }

    fn identity() -> Matrix4 {
        Matrix4::identity()
    }

    fn transpose(&mut self) -> Matrix4 {
        Matrix4::transpose(self)
    }
}

fn m4_transpose_exec(m: Matrix4) -> (r: Matrix4)
    ensures
        r == m4_transpose(m),
{
    Matrix4 {
        m00: m.m00,
        m01: m.m10,
        m02: m.m20,
        m03: m.m30,
        m10: m.m01,
        m11: m.m11,
        m12: m.m21,
        m13: m.m31,
        m20: m.m02,
        m21: m.m12,
        m22: m.m22,
        m23: m.m32,
        m30: m.m03,
        m31: m.m13,
        m32: m.m23,
        m33: m.m33,
    }
}

impl Default for Matrix4 {
    fn default() -> (r: Matrix4)
        ensures
            forall|i: int, j: int| 0 <= i < 4 && 0 <= j < 4 ==> m4_at(r, i, j)@ == 0,
    {
        Matrix4::new()
    }
}

impl ApproxEq for Matrix4 {
    open spec fn approx_spec(&self, other: &Self) -> bool {
        self.approx_low_spec(other)
    }

    open spec fn approx_low_spec(&self, other: &Self) -> bool {
        fx_approx(self.m00@, other.m00@, LOW_EPSILON as int) && fx_approx(
            self.m01@,
            other.m01@,
            LOW_EPSILON as int,
        ) && fx_approx(self.m02@, other.m02@, LOW_EPSILON as int) && fx_approx(
            self.m03@,
            other.m03@,
            LOW_EPSILON as int,
        ) && fx_approx(self.m10@, other.m10@, LOW_EPSILON as int) && fx_approx(
            self.m11@,
            other.m11@,
            LOW_EPSILON as int,
        ) && fx_approx(self.m12@, other.m12@, LOW_EPSILON as int) && fx_approx(
            self.m13@,
            other.m13@,
            LOW_EPSILON as int,
        ) && fx_approx(self.m20@, other.m20@, LOW_EPSILON as int) && fx_approx(
            self.m21@,
            other.m21@,
            LOW_EPSILON as int,
        ) && fx_approx(self.m22@, other.m22@, LOW_EPSILON as int) && fx_approx(
            self.m23@,
            other.m23@,
            LOW_EPSILON as int,
        ) && fx_approx(self.m30@, other.m30@, LOW_EPSILON as int) && fx_approx(
            self.m31@,
            other.m31@,
            LOW_EPSILON as int,
        ) && fx_approx(self.m32@, other.m32@, LOW_EPSILON as int) && fx_approx(
            self.m33@,
            other.m33@,
            LOW_EPSILON as int,
        )
    }

    fn approx_eq(&self, other: &Self) -> (res: bool) {
        self.approx_eq_low(other)
    }

    fn approx_eq_low(&self, other: &Self) -> (res: bool) {
        self.m00.approx_eq_low(&other.m00) && self.m01.approx_eq_low(&other.m01)
            && self.m02.approx_eq_low(&other.m02) && self.m03.approx_eq_low(&other.m03)
            && self.m10.approx_eq_low(&other.m10) && self.m11.approx_eq_low(&other.m11)
            && self.m12.approx_eq_low(&other.m12) && self.m13.approx_eq_low(&other.m13)
            && self.m20.approx_eq_low(&other.m20) && self.m21.approx_eq_low(&other.m21)
            && self.m22.approx_eq_low(&other.m22) && self.m23.approx_eq_low(&other.m23)
            && self.m30.approx_eq_low(&other.m30) && self.m31.approx_eq_low(&other.m31)
            && self.m32.approx_eq_low(&other.m32) && self.m33.approx_eq_low(&other.m33)
    }
}

} // verus!
