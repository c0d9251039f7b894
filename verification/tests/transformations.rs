use ray_tracer::approx::ApproxEq;
use ray_tracer::fx::Fx;
use ray_tracer::matrices::{Matrix, Matrix4};
use ray_tracer::point::Point;
use ray_tracer::transformations::Transform::{Orientation, Rotate, Scale, Shear, Translate};
use ray_tracer::transformations::{Over, Transformable};
use ray_tracer::vector::Vector3;

fn fxi(v: i64) -> Fx {
    Fx::from_int(v)
}

fn fxm(v: i64) -> Fx {
    Fx::from_micro(v)
}

fn p(x: i64, y: i64, z: i64) -> Point {
    Point::new(fxi(x), fxi(y), fxi(z))
}

fn v(x: i64, y: i64, z: i64) -> Vector3 {
    Vector3::new(fxi(x), fxi(y), fxi(z))
}

fn half_sqrt2() -> Fx {
    fxi(2).sqrt().div(fxi(2))
}

#[test]
fn transformation_transition_vector() {
    let transformation = Translate(fxi(5), fxi(-3), fxi(2)).transformation();
    let vector = v(-3, 4, 5);

    assert!(v(-3, 4, 5).approx_eq(&transformation.mul_vector(vector)));
}

#[test]
fn transformation_transition_point() {
    let transformation = Translate(fxi(5), fxi(-3), fxi(2)).transformation();
    let point = p(-3, 4, 5);

    assert!(p(2, 1, 7).approx_eq(&transformation.mul_point(point)));
}

#[test]
fn transformation_transition_inverse_point() {
    let transformation = Translate(fxi(5), fxi(-3), fxi(2)).transformation();
    let point = p(-3, 4, 5);

    assert!(p(-8, 7, 3).approx_eq(&transformation.invert().mul_point(point)));
}

#[test]
fn transformation_scaling_point() {
    let transformation = Scale(fxi(2), fxi(3), fxi(4)).transformation();
    let point = p(-4, 6, 8);

    assert!(p(-8, 18, 32).approx_eq(&transformation.mul_point(point)));
}

#[test]
fn transformation_scaling_vector() {
    let transformation = Scale(fxi(2), fxi(3), fxi(4)).transformation();
    let vector = v(-4, 6, 8);

    let scaled = transformation.mul_vector(vector);
    assert!(v(-8, 18, 32).approx_eq(&scaled));
    assert!(v(-8, 18, 32).magnitude().approx_eq(&scaled.magnitude()));
}

#[test]
fn transformation_scaling_inverse_vector() {
    let transformation = Scale(fxi(2), fxi(3), fxi(4)).transformation();
    let vector = v(-4, 6, 8);

    assert!(v(-2, 2, 2).approx_eq(&transformation.invert().mul_vector(vector)));
}

#[test]
fn transformation_scaling_reflect_vector() {
    let transformation = Scale(fxi(-1), fxi(1), fxi(1)).transformation();
    let vector = v(2, 3, 4);

    assert!(v(-2, 3, 4).approx_eq(&transformation.mul_vector(vector)));
}

#[test]
fn transformation_rotate_over_x_point() {
    let half_quarter = Rotate(Over::X, Fx::pi().div(fxi(4))).transformation();
    let full_quarter = Rotate(Over::X, Fx::pi().div(fxi(2))).transformation();
    let point = p(0, 1, 0);

    let expected_half = Point::new(fxi(0), half_sqrt2(), half_sqrt2());
    assert!(expected_half.approx_eq(&half_quarter.mul_point(point)));
    assert!(p(0, 0, 1).approx_eq(&full_quarter.mul_point(point)));
}

#[test]
fn transformation_rotate_over_x_inverse_point() {
    let half_quarter = Rotate(Over::X, Fx::pi().div(fxi(4))).transformation();
    let point = p(0, 1, 0);

    let expected_half = Point::new(fxi(0), half_sqrt2(), half_sqrt2().neg());
    assert!(expected_half.approx_eq(&half_quarter.invert().mul_point(point)));
}

#[test]
fn transformation_rotate_over_y_point() {
    let half_quarter = Rotate(Over::Y, Fx::pi().div(fxi(4))).transformation();
    let full_quarter = Rotate(Over::Y, Fx::pi().div(fxi(2))).transformation();
    let point = p(0, 0, 1);

    let expected_half = Point::new(half_sqrt2(), fxi(0), half_sqrt2());
    assert!(expected_half.approx_eq(&half_quarter.mul_point(point)));
    assert!(p(1, 0, 0).approx_eq(&full_quarter.mul_point(point)));
}

#[test]
fn transformation_rotate_over_z_point() {
    let half_quarter = Rotate(Over::Z, Fx::pi().div(fxi(4))).transformation();
    let full_quarter = Rotate(Over::Z, Fx::pi().div(fxi(2))).transformation();
    let point = p(0, 1, 0);

    let expected_half = Point::new(half_sqrt2().neg(), half_sqrt2(), fxi(0));
    assert!(expected_half.approx_eq(&half_quarter.mul_point(point)));
    assert!(p(-1, 0, 0).approx_eq(&full_quarter.mul_point(point)));
}

#[test]
fn transformation_shear_x_proportion_y() {
    let transformation = Shear(fxi(1), fxi(0), fxi(0), fxi(0), fxi(0), fxi(0)).transformation();
    assert!(p(5, 3, 4).approx_eq(&transformation.mul_point(p(2, 3, 4))));
}

#[test]
fn transformation_shear_x_proportion_z() {
    let transformation = Shear(fxi(0), fxi(1), fxi(0), fxi(0), fxi(0), fxi(0)).transformation();
    assert!(p(6, 3, 4).approx_eq(&transformation.mul_point(p(2, 3, 4))));
}

#[test]
fn transformation_shear_y_proportion_x() {
    let transformation = Shear(fxi(0), fxi(0), fxi(1), fxi(0), fxi(0), fxi(0)).transformation();
    assert!(p(2, 5, 4).approx_eq(&transformation.mul_point(p(2, 3, 4))));
}

#[test]
fn transformation_shear_y_proportion_z() {
    let transformation = Shear(fxi(0), fxi(0), fxi(0), fxi(1), fxi(0), fxi(0)).transformation();
    assert!(p(2, 7, 4).approx_eq(&transformation.mul_point(p(2, 3, 4))));
}

#[test]
fn transformation_shear_z_proportion_x() {
    let transformation = Shear(fxi(0), fxi(0), fxi(0), fxi(0), fxi(1), fxi(0)).transformation();
    assert!(p(2, 3, 6).approx_eq(&transformation.mul_point(p(2, 3, 4))));
}

#[test]
fn transformation_shear_z_proportion_y() {
    let transformation = Shear(fxi(0), fxi(0), fxi(0), fxi(0), fxi(0), fxi(1)).transformation();
    assert!(p(2, 3, 7).approx_eq(&transformation.mul_point(p(2, 3, 4))));
}

#[test]
fn transformation_default_orientation() {
    let from = v(0, 0, 0);
    let to = v(0, 0, -1);
    let up = v(0, 1, 0);

    assert!(Matrix4::identity().approx_eq_low(&Orientation(from, to, up).transformation()));
}

#[test]
fn transformation_orientation_looking_positive_z() {
    let from = v(0, 0, 0);
    let to = v(0, 0, 1);
    let up = v(0, 1, 0);

    let expected_matrix = Scale(fxi(-1), fxi(1), fxi(-1)).transformation();
    assert!(expected_matrix.approx_eq_low(&Orientation(from, to, up).transformation()));
}

#[test]
fn transformation_orientation_moves_world() {
    let from = v(0, 0, 8);
    let to = v(0, 0, 0);
    let up = v(0, 1, 0);

    let expected_matrix = Translate(fxi(0), fxi(0), fxi(-8)).transformation();
    assert!(expected_matrix.approx_eq_low(&Orientation(from, to, up).transformation()));
}

#[test]
fn transformation_orientation_arbitrary_view() {
    let from = v(1, 3, 2);
    let to = v(4, -2, 8);
    let up = Vector3::new(fxi(1), fxi(1), fxi(0));

    let rows: Vec<Vec<Fx>> = vec![
        vec![fxm(-507_093), fxm(507_093), fxm(676_123), fxm(-2_366_432)],
        vec![fxm(767_716), fxm(606_092), fxm(121_218), fxm(-2_828_427)],
        vec![fxm(-358_569), fxm(597_614), fxm(-717_137), fxm(0)],
        vec![fxm(0), fxm(0), fxm(0), fxm(1_000_000)],
    ];
    let expected_matrix = Matrix4::from(rows);

    assert!(expected_matrix.approx_eq_low(&Orientation(from, to, up).transformation()));
}

#[test]
fn builder_point() {
    let point = Point::new(fxi(1), fxi(0), fxi(1))
        .rotate(Over::X, Fx::pi().div(fxi(2)))
        .scale(fxi(5), fxi(5), fxi(5))
        .translate(fxi(10), fxi(5), fxi(7))
        .transform();

    assert!(p(15, 0, 7).approx_eq_low(&point));
}

#[test]
fn builder_vector() {
    let vector = Vector3::new(fxi(0), fxi(1), fxi(0))
        .rotate(Over::X, Fx::pi().div(fxi(2)))
        .transform()
        .scale(fxi(0), fxi(0), fxi(10))
        .transform();

    assert!(v(0, 0, 10).approx_eq_low(&vector));
}
