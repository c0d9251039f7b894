//! The elementary affine transforms: translation, rotation about an axis,
//! scaling, shearing, and the view orientation built from a camera basis.

use crate::fx::{fx_cos, fx_neg, fx_new, fx_sin, lemma_fx_identities, Fx, SCALE};
use crate::matrices::matrix4::{m4_mul, m4_mul_point, Matrix4};
use crate::matrices::Matrix;
use crate::point::Point;
use crate::vector::{cross_spec, normalize_spec, Vector3};
use vstd::prelude::*;

verus! {

/// The axis a rotation turns about.
#[derive(Clone, Copy, Debug, PartialEq, Eq, Structural)]
pub enum Over {
    X,
    Y,
    Z,
}

/// An elementary transform, waiting to be turned into its matrix.
#[derive(Clone, Copy, Debug, PartialEq, Eq, Structural)]
pub enum Transform {
    Translate(Fx, Fx, Fx),
    Rotate(Over, Fx),
    Scale(Fx, Fx, Fx),
    Shear(Fx, Fx, Fx, Fx, Fx, Fx),
    Orientation(Vector3, Vector3, Vector3),
}

pub open spec fn translate_spec(x: Fx, y: Fx, z: Fx) -> Matrix4 {
    Matrix4 {
        m00: fx_new(SCALE as int),
        m01: fx_new(0),
        m02: fx_new(0),
        m03: x,
        m10: fx_new(0),
        m11: fx_new(SCALE as int),
        m12: fx_new(0),
        m13: y,
        m20: fx_new(0),
        m21: fx_new(0),
        m22: fx_new(SCALE as int),
        m23: z,
        m30: fx_new(0),
        m31: fx_new(0),
        m32: fx_new(0),
        m33: fx_new(SCALE as int),
    }
}

pub open spec fn scale_spec(x: Fx, y: Fx, z: Fx) -> Matrix4 {
    Matrix4 {
        m00: x,
        m01: fx_new(0),
        m02: fx_new(0),
        m03: fx_new(0),
        m10: fx_new(0),
        m11: y,
        m12: fx_new(0),
        m13: fx_new(0),
        m20: fx_new(0),
        m21: fx_new(0),
        m22: z,
        m23: fx_new(0),
        m30: fx_new(0),
        m31: fx_new(0),
        m32: fx_new(0),
        m33: fx_new(SCALE as int),
    }
}

pub open spec fn shear_spec(xy: Fx, xz: Fx, yx: Fx, yz: Fx, zx: Fx, zy: Fx) -> Matrix4 {
    Matrix4 {
        m00: fx_new(SCALE as int),
        m01: xy,
        m02: xz,
        m03: fx_new(0),
        m10: yx,
        m11: fx_new(SCALE as int),
        m12: yz,
        m13: fx_new(0),
        m20: zx,
        m21: zy,
        m22: fx_new(SCALE as int),
        m23: fx_new(0),
        m30: fx_new(0),
        m31: fx_new(0),
        m32: fx_new(0),
        m33: fx_new(SCALE as int),
    }
}

pub open spec fn rotate_spec(over: Over, angle: Fx) -> Matrix4 {
    let s = fx_new(fx_sin(angle@));
    let ns = fx_new(fx_neg(fx_sin(angle@)));
    let c = fx_new(fx_cos(angle@));
    match over {
        Over::X => Matrix4 {
            m00: fx_new(SCALE as int),
            m01: fx_new(0),
            m02: fx_new(0),
            m03: fx_new(0),
            m10: fx_new(0),
            m11: c,
            m12: ns,
            m13: fx_new(0),
            m20: fx_new(0),
            m21: s,
            m22: c,
            m23: fx_new(0),
            m30: fx_new(0),
            m31: fx_new(0),
            m32: fx_new(0),
            m33: fx_new(SCALE as int),
        },
        Over::Y => Matrix4 {
            m00: c,
            m01: fx_new(0),
            m02: s,
            m03: fx_new(0),
            m10: fx_new(0),
            m11: fx_new(SCALE as int),
            m12: fx_new(0),
            m13: fx_new(0),
            m20: ns,
            m21: fx_new(0),
            m22: c,
            m23: fx_new(0),
            m30: fx_new(0),
            m31: fx_new(0),
            m32: fx_new(0),
            m33: fx_new(SCALE as int),
        },
        Over::Z => Matrix4 {
            m00: c,
            m01: ns,
            m02: fx_new(0),
            m03: fx_new(0),
            m10: s,
            m11: c,
            m12: fx_new(0),
            m13: fx_new(0),
            m20: fx_new(0),
            m21: fx_new(0),
            m22: fx_new(SCALE as int),
            m23: fx_new(0),
            m30: fx_new(0),
            m31: fx_new(0),
            m32: fx_new(0),
            m33: fx_new(SCALE as int),
        },
    }
}

/// The camera basis: `forward` toward the scene, `left`, and the corrected
/// `true_up`, composed with a translation that moves the eye to the origin.
pub open spec fn orientation_spec(from: Vector3, to: Vector3, up: Vector3) -> Matrix4 {
    let forward = normalize_spec(
        Vector3 {
            x: fx_new(crate::fx::fx_sub(to.x@, from.x@)),
            y: fx_new(crate::fx::fx_sub(to.y@, from.y@)),
            z: fx_new(crate::fx::fx_sub(to.z@, from.z@)),
        },
    );
    let left = cross_spec(forward, normalize_spec(up));
    let true_up = cross_spec(left, forward);
    let orientation = Matrix4 {
        m00: left.x,
        m01: left.y,
        m02: left.z,
        m03: fx_new(0),
        m10: true_up.x,
        m11: true_up.y,
        m12: true_up.z,
        m13: fx_new(0),
        m20: fx_new(fx_neg(forward.x@)),
        m21: fx_new(fx_neg(forward.y@)),
        m22: fx_new(fx_neg(forward.z@)),
        m23: fx_new(0),
        m30: fx_new(0),
        m31: fx_new(0),
        m32: fx_new(0),
        m33: fx_new(SCALE as int),
    };
    m4_mul(
        orientation,
        translate_spec(fx_new(fx_neg(from.x@)), fx_new(fx_neg(from.y@)), fx_new(fx_neg(from.z@))),
    )
}

/// The inverse round trip, on the fragment where fixed-point arithmetic is
/// exact: a pure translation taken forward and back returns every point
/// whose translate does not leave the representable range, exactly. (For
/// general transforms the round trip holds only within a tolerance, which
/// the tests exercise; truncation keeps it out of reach of a proof.)
pub proof fn lemma_translation_inverse_round_trip(x: Fx, y: Fx, z: Fx, p: Point)
    requires
        i64::MIN < x@ && i64::MIN < y@ && i64::MIN < z@,
        i64::MIN <= p.x@ + x@ <= i64::MAX,
        i64::MIN <= p.y@ + y@ <= i64::MAX,
        i64::MIN <= p.z@ + z@ <= i64::MAX,
    ensures
        m4_mul_point(
            crate::matrices::matrix4::m4_invert(translate_spec(x, y, z)),
            m4_mul_point(translate_spec(x, y, z), p),
        ) == p,
{
    reveal(crate::matrices::matrix4::m4_invert);
    reveal(crate::matrices::matrix4::m4_det);
    reveal(crate::matrices::matrix4::m4_cofactor);
    reveal(crate::matrices::matrix4::m4_minor);
    reveal(crate::matrices::matrix4::m4_submatrix);
    reveal(crate::matrices::matrix3::m3_det);
    reveal(crate::matrices::matrix3::m3_cofactor);
    reveal(crate::matrices::matrix3::m3_minor);
    reveal(crate::matrices::matrix3::m3_submatrix);
    reveal(crate::matrices::matrix4::m4_mul_point);
    let t = translate_spec(x, y, z);
    lemma_fx_identities();
    assert(crate::matrices::matrix4::m4_det(t) == SCALE);
    let inverse = crate::matrices::matrix4::m4_invert(t);
    assert(inverse == translate_spec(
        fx_new(fx_neg(x@)),
        fx_new(fx_neg(y@)),
        fx_new(fx_neg(z@)),
    ));
    let forward = m4_mul_point(t, p);
    assert(forward == (Point {
        x: fx_new(crate::fx::fx_add(p.x@, x@)),
        y: fx_new(crate::fx::fx_add(p.y@, y@)),
        z: fx_new(crate::fx::fx_add(p.z@, z@)),
    }));
    assert(m4_mul_point(inverse, forward) == p);
}

pub open spec fn transformation_spec(t: Transform) -> Matrix4 {
    match t {
        Transform::Translate(x, y, z) => translate_spec(x, y, z),
        Transform::Rotate(over, angle) => rotate_spec(over, angle),
        Transform::Scale(x, y, z) => scale_spec(x, y, z),
        Transform::Shear(xy, xz, yx, yz, zx, zy) => shear_spec(xy, xz, yx, yz, zx, zy),
        Transform::Orientation(from, to, up) => orientation_spec(from, to, up),
    }
}

impl Transform {
    /// The matrix of this elementary transform.
    pub fn transformation(self) -> (r: Matrix4)
        ensures
            r == transformation_spec(self),
    {
        match self {
            Transform::Translate(x, y, z) => Matrix4::identity().set(0, 3, x).set(1, 3, y).set(
                2,
                3,
                z,
            ),
            Transform::Rotate(over, angle) => match over {
                Over::X => Matrix4::identity().set(1, 1, angle.cos()).set(
                    1,
                    2,
                    angle.sin().neg(),
                ).set(2, 1, angle.sin()).set(2, 2, angle.cos()),
                Over::Y => Matrix4::identity().set(0, 0, angle.cos()).set(0, 2, angle.sin()).set(
                    2,
                    0,
                    angle.sin().neg(),
                ).set(2, 2, angle.cos()),
                Over::Z => Matrix4::identity().set(0, 0, angle.cos()).set(
                    0,
                    1,
                    angle.sin().neg(),
                ).set(1, 0, angle.sin()).set(1, 1, angle.cos()),
            },
            Transform::Scale(x, y, z) => Matrix4::identity().set(0, 0, x).set(1, 1, y).set(
                2,
                2,
                z,
            ),
            Transform::Shear(xy, xz, yx, yz, zx, zy) => Matrix4::identity().set(0, 1, xy).set(
                0,
                2,
                xz,
            ).set(1, 0, yx).set(1, 2, yz).set(2, 0, zx).set(2, 1, zy),
            Transform::Orientation(from, to, up) => {
                let forward = to.sub(from).normalize();
                let left = forward.cross(&up.normalize());
                let true_up = left.cross(&forward);
                let orientation = Matrix4::identity().set(0, 0, left.x).set(0, 1, left.y).set(
                    0,
                    2,
                    left.z,
                ).set(1, 0, true_up.x).set(1, 1, true_up.y).set(1, 2, true_up.z).set(
                    2,
                    0,
                    forward.x.neg(),
                ).set(2, 1, forward.y.neg()).set(2, 2, forward.z.neg());
                let translation = Matrix4::identity().set(0, 3, from.x.neg()).set(
                    1,
                    3,
                    from.y.neg(),
                ).set(2, 3, from.z.neg());
                orientation.mul_matrix(translation)
            },
        }
    }
}

} // verus!
