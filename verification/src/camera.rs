//! The camera: field of view, resolution and view transform, the mapping
//! from a pixel to its ray, and the render loop over the framebuffer.
//!
//! Both schedules — the single sequential pass and the pass over horizontal
//! bands — are specified by the same `render_spec`, so the band layout can
//! never change the picture; a surrounding program may hand the bands to
//! parallel workers and assemble the identical buffer.

use crate::canvas::{canvas_wf, Canvas};
use crate::color::Color;
use crate::fx::{fx_add, fx_clip, fx_div, fx_mul, fx_new, fx_sub, fx_tan, Fx, HALF, SCALE};
use crate::matrices::matrix4::{m4_invert, m4_is_invertible, m4_mul, m4_mul_point, Matrix4};
use crate::matrices::Matrix;
use crate::point::Point;
use crate::ray::Ray;
use crate::render::{Render, Rendering};
use crate::transformations::{Over, Transform, TransformBuilder, Transformable};
use crate::vector::{normalize_spec, Vector3};
use crate::world::{color_at_spec, World};
use vstd::prelude::*;

verus! {

/// Rows per band in the banded schedule.
pub const BAND_SIZE: usize = 3;

#[derive(Clone, Copy, Debug)]
pub struct Camera {
    pub horizontal_size: usize,
    pub vertical_size: usize,
    pub fov: Fx,
    pub transformation: Matrix4,
    pub pixel_size: Fx,
    pub half_width: Fx,
    pub half_height: Fx,
}

/// The derived view geometry: half the view through the tangent of half the
/// field of view, split into width and height by the aspect ratio.
pub open spec fn camera_new_spec(hsize: int, vsize: int, fov: Fx) -> Camera {
    let half_view = fx_tan(fx_div(fov@, fx_clip(2 * SCALE)));
    let aspect = fx_div(fx_clip(hsize * SCALE), fx_clip(vsize * SCALE));
    let half_width = if aspect >= SCALE {
        half_view
    } else {
        fx_mul(half_view, aspect)
    };
    let half_height = if aspect >= SCALE {
        fx_div(half_view, aspect)
    } else {
        half_view
    };
    Camera {
        horizontal_size: hsize as usize,
        vertical_size: vsize as usize,
        fov,
        transformation: crate::matrices::matrix4::m4_id(),
        pixel_size: fx_new(fx_div(fx_mul(half_width, fx_clip(2 * SCALE)), fx_clip(hsize * SCALE))),
        half_width: fx_new(half_width),
        half_height: fx_new(half_height),
    }
}

/// The ray through the middle of pixel (`px`, `py`): the canonical pixel
/// point and the canonical origin both go through the inverse of the view
/// transform, and the direction between them is normalized.
pub open spec fn ray_for_pixel_spec(c: Camera, px: int, py: int) -> Ray {
    let x_offset = fx_mul(fx_add(px, HALF as int), c.pixel_size@);
    let y_offset = fx_mul(fx_add(py, HALF as int), c.pixel_size@);
    let world_x = fx_sub(c.half_width@, x_offset);
    let world_y = fx_sub(c.half_height@, y_offset);
    let inv = m4_invert(c.transformation);
    let pixel = m4_mul_point(
        inv,
        Point { x: fx_new(world_x), y: fx_new(world_y), z: fx_new(-SCALE as int) },
    );
    let origin = m4_mul_point(inv, Point { x: fx_new(0), y: fx_new(0), z: fx_new(0) });
    let direction = normalize_spec(
        Vector3 {
            x: fx_new(fx_sub(pixel.x@, origin.x@)),
            y: fx_new(fx_sub(pixel.y@, origin.y@)),
            z: fx_new(fx_sub(pixel.z@, origin.z@)),
        },
    );
    Ray { origin, direction }
}

/// The ray for the pixel at integer grid coordinates.
pub open spec fn pixel_ray(c: Camera, x: int, y: int) -> Ray {
    ray_for_pixel_spec(c, fx_clip(x * SCALE), fx_clip(y * SCALE))
}

/// The whole picture as one row-major sequence: pixel `i` sits at column
/// `i % width` of row `i / width` and holds the color of its ray.
pub open spec fn render_spec(c: Camera, w: World) -> Seq<Color> {
    Seq::new(
        (c.vertical_size * c.horizontal_size) as nat,
        |i: int|
            color_at_spec(
                w,
                pixel_ray(c, i % (c.horizontal_size as int), i / (c.horizontal_size as int)),
                w.recursive_depth as nat,
            ),
    )
}

/// Rendering is a function of the camera and the scene alone: any two
/// buffers that meet the render contract are identical, whatever order the
/// pixels were produced in.
pub proof fn lemma_render_modes_agree(a: Canvas, b: Canvas, camera: Camera, world: World)
    requires
        a.pixels@ == render_spec(camera, world),
        b.pixels@ == render_spec(camera, world),
    ensures
        a.pixels@ == b.pixels@,
{
}

impl Camera {
    /// A camera at the identity view transform.
    pub fn new(hsize: usize, vsize: usize, fov: Fx) -> (r: Camera)
        requires
            hsize <= 0x7fff_ffff,
            vsize <= 0x7fff_ffff,
        ensures
            r == camera_new_spec(hsize as int, vsize as int, fov),
    {
        let half_view = fov.div(Fx::from_int(2)).tan();
        let aspect = Fx::from_int(hsize as i64).div(Fx::from_int(vsize as i64));
        let (half_width, half_height) = if aspect.raw >= SCALE {
            (half_view, half_view.div(aspect))
        } else {
            (half_view.mul(aspect), half_view)
        };
        let pixel_size = half_width.mul(Fx::from_int(2)).div(Fx::from_int(hsize as i64));
        Camera {
            horizontal_size: hsize,
            vertical_size: vsize,
            fov,
            transformation: Matrix4::identity(),
            pixel_size,
            half_width,
            half_height,
        }
    }

    /// The ray through the middle of a pixel. The view transform must be
    /// invertible — a singular one is a malformed scene.
    pub fn ray_for_pixel(&self, px: Fx, py: Fx) -> (r: Ray)
        requires
            m4_is_invertible(self.transformation),
        ensures
            r == ray_for_pixel_spec(*self, px@, py@),
    {
        let half = Fx::from_raw(HALF);
        let x_offset = px.add(half).mul(self.pixel_size);
        let y_offset = py.add(half).mul(self.pixel_size);
        let world_x = self.half_width.sub(x_offset);
        let world_y = self.half_height.sub(y_offset);
        let transformation_inv = self.transformation.invert();
        let pixel = transformation_inv.mul_point(
            Point { x: world_x, y: world_y, z: Fx::from_raw(-SCALE) },
        );
        let origin = transformation_inv.mul_point(Point::zero());
        let direction = Vector3 {
            x: pixel.x.sub(origin.x),
            y: pixel.y.sub(origin.y),
            z: pixel.z.sub(origin.z),
        }.normalize();
        Ray::new(origin, direction)
    }

    /// The colors of the rows `y_start .. y_end`, row major.
    #[verifier::loop_isolation(false)]
    pub fn render_band(&self, world: &World, y_start: usize, y_end: usize) -> (r: Vec<Color>)
        requires
            m4_is_invertible(self.transformation),
            self.horizontal_size <= 0x7fff_ffff,
            self.vertical_size <= 0x7fff_ffff,
            y_start <= y_end <= self.vertical_size,
        ensures
            r@.len() == (y_end - y_start) * self.horizontal_size,
            forall|i: int|
                0 <= i < r@.len() ==> r@[i] == render_spec(*self, *world)[y_start
                    * self.horizontal_size + i],
    {
        let h = self.horizontal_size;
        let mut pixels: Vec<Color> = Vec::new();
        let mut y: usize = y_start;
        proof {
            vstd::arithmetic::mul::lemma_mul_inequality(
                self.vertical_size as int,
                0x7fff_ffff,
                h as int,
            );
            vstd::arithmetic::mul::lemma_mul_inequality(y_end as int, self.vertical_size as int, h as int);
        }
        while y < y_end
            invariant
                y_start <= y <= y_end,
                pixels@.len() == (y - y_start) * h,
                forall|i: int|
                    0 <= i < pixels@.len() ==> pixels@[i] == render_spec(*self, *world)[y_start
                        * h + i],
            decreases y_end - y,
        {
            let mut x: usize = 0;
            proof {
                vstd::arithmetic::mul::lemma_mul_inequality(y as int, y_end as int, h as int);
                vstd::arithmetic::mul::lemma_mul_inequality(y + 1, y_end as int, h as int);
                assert((y + 1) * h == y * h + h) by (nonlinear_arith);
                assert((y - y_start) * h + h == (y + 1 - y_start) * h) by (nonlinear_arith);
            }
            while x < h
                invariant
                    x <= h,
                    pixels@.len() == (y - y_start) * h + x,
                    forall|i: int|
                        0 <= i < pixels@.len() ==> pixels@[i] == render_spec(*self, *world)[y_start
                            * h + i],
                decreases h - x,
            {
                let ray = self.ray_for_pixel(Fx::from_int(x as i64), Fx::from_int(y as i64));
                let color = world.color_at(&ray);
                proof {
                    let idx = y * h + x;
                    vstd::arithmetic::div_mod::lemma_fundamental_div_mod_converse(
                        idx as int,
                        h as int,
                        y as int,
                        x as int,
                    );
                    vstd::arithmetic::mul::lemma_mul_inequality(
                        self.vertical_size as int,
                        self.vertical_size as int,
                        h as int,
                    );
                    assert(idx < self.vertical_size * h) by (nonlinear_arith)
                        requires
                            idx == y * h + x,
                            x < h,
                            y < self.vertical_size,
                    ;
                    assert(render_spec(*self, *world)[idx as int] == color_at_spec(
                        *world,
                        pixel_ray(*self, x as int, y as int),
                        world.recursive_depth as nat,
                    ));
                    assert(y_start * h + ((y - y_start) * h + x) == idx) by (nonlinear_arith)
                        requires
                            idx == y * h + x,
                            y_start <= y,
                    ;
                }
                pixels.push(color);
                x = x + 1;
            }
            y = y + 1;
        }
        pixels
    }

    /// One pass over every row.
    pub fn sequential_render(&self, world: &World) -> (r: Canvas)
        requires
            m4_is_invertible(self.transformation),
            self.horizontal_size <= 0x7fff_ffff,
            self.vertical_size <= 0x7fff_ffff,
        ensures
            r.width == self.horizontal_size,
            r.height == self.vertical_size,
            canvas_wf(r),
            r.pixels@ == render_spec(*self, *world),
    {
        let pixels = self.render_band(world, 0, self.vertical_size);
        proof {
            assert forall|i: int| 0 <= i < pixels@.len() implies pixels@[i] == render_spec(
                *self,
                *world,
            )[i] by {
                assert(0 * self.horizontal_size + i == i) by (nonlinear_arith);
                assert(pixels@[i] == render_spec(*self, *world)[0 * self.horizontal_size + i]);
            }
            assert(pixels@ =~= render_spec(*self, *world));
        }
        Canvas { width: self.horizontal_size, height: self.vertical_size, pixels }
    }

    /// The same picture assembled from bands of `BAND_SIZE` rows. A
    /// surrounding program may compute the bands on parallel workers; each
    /// band is a function of the scene alone, so the assembly is identical.
    #[verifier::loop_isolation(false)]
    pub fn parallel_render(&self, world: &World) -> (r: Canvas)
        requires
            m4_is_invertible(self.transformation),
            self.horizontal_size <= 0x7fff_ffff,
            self.vertical_size <= 0x7fff_ffff,
        ensures
            r.width == self.horizontal_size,
            r.height == self.vertical_size,
            canvas_wf(r),
            r.pixels@ == render_spec(*self, *world),
    {
        let h = self.horizontal_size;
        let v = self.vertical_size;
        let mut pixels: Vec<Color> = Vec::new();
        let mut y: usize = 0;
        proof {
            vstd::arithmetic::mul::lemma_mul_inequality(v as int, 0x7fff_ffff, h as int);
        }
        while y < v
            invariant
                y <= v,
                pixels@.len() == y * h,
                forall|i: int|
                    0 <= i < pixels@.len() ==> pixels@[i] == render_spec(*self, *world)[i],
            decreases v - y,
        {
            let y_end = if y + BAND_SIZE <= v {
                y + BAND_SIZE
            } else {
                v
            };
            let mut band = self.render_band(world, y, y_end);
            let ghost old_pixels = pixels@;
            let ghost band_view = band@;
            pixels.append(&mut band);
            proof {
                assert(pixels@ == old_pixels + band_view);
                assert((y_end - y) * h + y * h == y_end * h) by (nonlinear_arith);
            }
            y = y_end;
        }
        proof {
            assert(pixels@ =~= render_spec(*self, *world));
        }
        Canvas { width: h, height: v, pixels }
    }

    /// Render with the chosen schedule; either way the same picture.
    pub fn render(&self, world: &World, setting: Render) -> (r: Canvas)
        requires
            m4_is_invertible(self.transformation),
            self.horizontal_size <= 0x7fff_ffff,
            self.vertical_size <= 0x7fff_ffff,
        ensures
            r.width == self.horizontal_size,
            r.height == self.vertical_size,
            canvas_wf(r),
            r.pixels@ == render_spec(*self, *world),
    {
        match setting.render_mode {
            Rendering::Parallel => self.parallel_render(world),
            Rendering::Sequential => self.sequential_render(world),
        }
    }

    /// Compose a transform onto the view transform.
    pub fn transform(self, transformation: &Matrix4) -> (r: Camera)
        ensures
            r == (Camera { transformation: m4_mul(*transformation, self.transformation), ..self }),
    {
        Camera { transformation: transformation.mul_matrix(self.transformation), ..self }
    }
}

impl Transformable for Camera {
    open spec fn transformed_spec(self, transformation: Matrix4) -> Camera {
        Camera { transformation: m4_mul(transformation, self.transformation), ..self }
    }

    open spec fn transform_req(self, transformation: Matrix4) -> bool {
        true
    }

    fn transform(self, transformation: &Matrix4) -> Camera {
        Camera::transform(self, transformation)
    }

    fn translate(self, x: Fx, y: Fx, z: Fx) -> TransformBuilder<Self> {
        TransformBuilder {
            transformation: Transform::Translate(x, y, z).transformation(),
            inner: self,
        }
    }

    fn rotate(self, over: Over, angle: Fx) -> TransformBuilder<Self> {
        TransformBuilder {
            transformation: Transform::Rotate(over, angle).transformation(),
            inner: self,
        }
    }

    fn scale(self, x: Fx, y: Fx, z: Fx) -> TransformBuilder<Self> {
        TransformBuilder { transformation: Transform::Scale(x, y, z).transformation(), inner: self }
    }

    fn shear(self, xy: Fx, xz: Fx, yx: Fx, yz: Fx, zx: Fx, zy: Fx) -> TransformBuilder<Self> {
        TransformBuilder {
            transformation: Transform::Shear(xy, xz, yx, yz, zx, zy).transformation(),
            inner: self,
        }
    }
}

} // verus!
