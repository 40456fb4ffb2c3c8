//! The camera: viewport geometry derived from the pose and field of view,
//! per-pixel sample generation with anti-aliasing jitter and thin-lens
//! defocus, and the render loops that fill the output buffer.
//!
//! Rendering is deterministic: every pixel draws from its own random stream,
//! derived from the render seed and the pixel index alone, so the sequential
//! and the parallel path produce the same bytes and the same seed always
//! reproduces the same image.

use crate::color::Color;
use crate::fx::{Fx, SCALE};
use crate::hittable_list::HittableList;
use crate::interval::Interval;
use crate::ray::Ray;
use crate::sphere::Sphere;
use crate::utilities::{deg_to_rad, mix_seed, spec_deg_to_rad, spec_mix_seed, spec_tan, tan, Rng};
use crate::vec3::{lemma_len_sq_pos_len_pos, Vec3};
use crate::Point;
use rayon::iter::{IntoParallelIterator, ParallelIterator};
use vstd::prelude::*;

verus! {

/// Derived, cached viewport geometry: image dimensions, the viewport's span
/// vectors, the per-pixel step vectors, and the center of pixel (0, 0).
#[derive(Clone, Copy, Debug, PartialEq, Eq, Structural)]
pub struct Viewport {
    pub image_width: usize,
    pub image_height: usize,
    pub viewport_width: Fx,
    pub viewport_height: Fx,
    pub viewport_u: Vec3,
    pub viewport_v: Vec3,
    pub pixel_delta_u: Vec3,
    pub pixel_delta_v: Vec3,
    pub pixel_00: Vec3,
}

impl Viewport {
    /// The image height: the width divided by the aspect ratio, truncated,
    /// and floored to one.
    pub open spec fn spec_image_height(aspect_ratio: Fx, image_width: usize) -> int {
        let q = Fx::spec_from_int(image_width as int).spec_div(aspect_ratio);
        let ih = if q@ <= 0 {
            0int
        } else {
            q@ / (SCALE as int)
        };
        if ih < 1 {
            1int
        } else {
            ih
        }
    }

    /// The full derived geometry.  The viewport sits on the focus plane:
    /// its height is `2 * h * focus_dist` for the half-angle tangent `h`,
    /// its width follows the realized (integer) image proportions, and the
    /// pixel grid is centered inside it.
    pub open spec fn spec_new(
        aspect_ratio: Fx,
        h: Fx,
        image_width: usize,
        focus_dist: Fx,
        center: Point,
        u: Vec3,
        v: Vec3,
        w: Vec3,
    ) -> Viewport
        recommends
            aspect_ratio@ > 0,
            1 <= image_width,
            Viewport::spec_image_height(aspect_ratio, image_width) <= usize::MAX,
    {
        let image_height = Viewport::spec_image_height(aspect_ratio, image_width) as usize;
        let wfx = Fx::spec_from_int(image_width as int);
        let hfx = Fx::spec_from_int(image_height as int);
        let viewport_height = h.spec_add(h).spec_mul(focus_dist);
        let viewport_width = viewport_height.spec_mul(wfx.spec_div(hfx));
        let viewport_u = u.spec_scale(viewport_width);
        let viewport_v = v.spec_neg_v().spec_scale(viewport_height);
        let pixel_delta_u = viewport_u.spec_div_k(wfx);
        let pixel_delta_v = viewport_v.spec_div_k(hfx);
        let half = Fx { raw: 32768 };
        let viewport_upper_left = center.spec_sub_v(w.spec_scale(focus_dist)).spec_sub_v(
            viewport_u.spec_scale(half),
        ).spec_sub_v(viewport_v.spec_scale(half));
        let pixel_00 = viewport_upper_left.spec_add_v(
            pixel_delta_u.spec_add_v(pixel_delta_v).spec_scale(half),
        );
        Viewport {
            image_width,
            image_height,
            viewport_width,
            viewport_height,
            viewport_u,
            viewport_v,
            pixel_delta_u,
            pixel_delta_v,
            pixel_00,
        }
    }

    pub fn new(
        aspect_ratio: Fx,
        h: Fx,
        image_width: usize,
        focus_dist: Fx,
        center: Point,
        u: Vec3,
        v: Vec3,
        w: Vec3,
    ) -> (r: Viewport)
        requires
            aspect_ratio@ > 0,
            1 <= image_width <= 10000,
            Viewport::spec_image_height(aspect_ratio, image_width) <= 10000,
        ensures
            r == Viewport::spec_new(
                aspect_ratio,
                h,
                image_width,
                focus_dist,
                center,
                u,
                v,
                w,
            ),
            1 <= r.image_height <= 10000,
            r.image_width == image_width,
    {
        let wfx = Fx::from_int(image_width as i64);
        let q = wfx.div(aspect_ratio);
        let ih_wide: u64 = if q.raw <= 0 {
            0
        } else {
            (q.raw as u64) / (SCALE as u64)
        };
        let image_height: usize = if ih_wide < 1 {
            1
        } else {
            proof {
                assert(ih_wide == Viewport::spec_image_height(aspect_ratio, image_width));
            }
            ih_wide as usize
        };
        let hfx = Fx::from_int(image_height as i64);
        let viewport_height = h.add(h).mul(focus_dist);
        let viewport_width = viewport_height.mul(wfx.div(hfx));
        let viewport_u = u.scale(viewport_width);
        let viewport_v = v.neg().scale(viewport_height);
        let pixel_delta_u = viewport_u.div(wfx);
        let pixel_delta_v = viewport_v.div(hfx);
        let half = Fx::from_raw(32768);
        // position the viewport plane, then center the pixel grid on it
        let viewport_upper_left = center.sub(w.scale(focus_dist)).sub(
            viewport_u.scale(half),
        ).sub(viewport_v.scale(half));
        let pixel_00 = viewport_upper_left.add(pixel_delta_u.add(pixel_delta_v).scale(half));
        Viewport {
            image_width,
            image_height,
            viewport_width,
            viewport_height,
            viewport_u,
            viewport_v,
            pixel_delta_u,
            pixel_delta_v,
            pixel_00,
        }
    }
}

#[derive(Clone, Copy, Debug, PartialEq, Eq, Structural)]
pub struct Camera {
    pub center: Point,
    pub viewport: Viewport,
    pub samples: u32,
    pub max_depth: u32,
    pub v_fov: Fx,
    pub lookfrom: Point,
    pub lookat: Point,
    pub vup: Vec3,
    pub u: Vec3,
    pub v: Vec3,
    pub w: Vec3,
    pub defocus_angle: Fx,
    pub focus_dist: Fx,
    pub defocus_disk_u: Vec3,
    pub defocus_disk_v: Vec3,
}

impl Camera {
    /// The pose admits an orthonormal basis: the look direction has usable
    /// length, and it is not parallel to the world-up direction.
    pub open spec fn spec_pose_ok(lookfrom: Point, lookat: Point) -> bool {
        let d = lookfrom.spec_sub_v(lookat);
        &&& d.spec_len_sq()@ >= 1
        &&& Vec3::spec_new(Fx { raw: 0 }, Fx { raw: SCALE }, Fx { raw: 0 }).spec_cross(
            d.spec_normalized(),
        ).spec_len_sq()@ >= 1
    }

    /// Dimensions and sample count a render can iterate over.
    pub open spec fn spec_wf(self) -> bool {
        &&& 1 <= self.viewport.image_width <= 10000
        &&& 1 <= self.viewport.image_height <= 10000
        &&& self.samples >= 1
    }

    /// Everything `new` derives from the configuration: the half-angle
    /// tangent of the field of view, the orthonormal basis, the viewport,
    /// and the defocus disk.
    pub open spec fn spec_new(
        aspect_ratio: Fx,
        image_width: usize,
        samples: u32,
        max_depth: u32,
        v_fov: Fx,
        lookfrom: Point,
        lookat: Point,
        focus_dist: Fx,
        defocus_angle: Fx,
    ) -> Camera {
        let half = Fx { raw: 32768 };
        let vup = Vec3::spec_new(Fx { raw: 0 }, Fx { raw: SCALE }, Fx { raw: 0 });
        let center = lookfrom;
        let theta = spec_deg_to_rad(v_fov);
        let h = spec_tan(theta.spec_mul(half));
        let w = lookfrom.spec_sub_v(lookat).spec_normalized();
        let u = vup.spec_cross(w).spec_normalized();
        let v = w.spec_cross(u);
        let viewport = Viewport::spec_new(
            aspect_ratio,
            h,
            image_width,
            focus_dist,
            center,
            u,
            v,
            w,
        );
        let defocus_radius = focus_dist.spec_mul(
            spec_tan(spec_deg_to_rad(defocus_angle.spec_mul(half))),
        );
        let defocus_disk_u = u.spec_scale(defocus_radius);
        let defocus_disk_v = v.spec_scale(defocus_radius);
        Camera {
            center,
            viewport,
            samples,
            max_depth,
            v_fov,
            lookfrom,
            lookat,
            vup,
            u,
            v,
            w,
            defocus_angle,
            focus_dist,
            defocus_disk_u,
            defocus_disk_v,
        }
    }

    pub fn new(
        aspect_ratio: Fx,
        image_width: usize,
        samples: u32,
        max_depth: u32,
        v_fov: Fx,
        lookfrom: Point,
        lookat: Point,
        focus_dist: Fx,
        defocus_angle: Fx,
    ) -> (r: Camera)
        requires
            aspect_ratio@ > 0,
            1 <= image_width <= 10000,
            Viewport::spec_image_height(aspect_ratio, image_width) <= 10000,
            samples >= 1,
            Camera::spec_pose_ok(lookfrom, lookat),
        ensures
            r == Camera::spec_new(
                aspect_ratio,
                image_width,
                samples,
                max_depth,
                v_fov,
                lookfrom,
                lookat,
                focus_dist,
                defocus_angle,
            ),
            r.spec_wf(),
    {
        let half = Fx::from_raw(32768);
        let vup = Vec3::up();
        let center = lookfrom;
        let theta = deg_to_rad(v_fov);
        let h = tan(theta.mul(half));
        let d = lookfrom.sub(lookat);
        proof {
            lemma_len_sq_pos_len_pos(d);
        }
        let w = d.normalized();
        let cr = Vec3::cross(&vup, &w);
        proof {
            lemma_len_sq_pos_len_pos(cr);
        }
        let u = cr.normalized();
        let v = Vec3::cross(&w, &u);
        let viewport = Viewport::new(aspect_ratio, h, image_width, focus_dist, center, u, v, w);
        let defocus_radius = focus_dist.mul(tan(deg_to_rad(defocus_angle.mul(half))));
        let defocus_disk_u = u.scale(defocus_radius);
        let defocus_disk_v = v.scale(defocus_radius);
        Camera {
            center,
            viewport,
            samples,
            max_depth,
            v_fov,
            lookfrom,
            lookat,
            vup,
            u,
            v,
            w,
            defocus_angle,
            focus_dist,
            defocus_disk_u,
            defocus_disk_v,
        }
    }

    /// A stock camera: a 16:9 image 400 pixels wide, ten samples, ten
    /// bounces, a 90 degree field of view, looking down the negative z axis
    /// with a pinhole lens focused ten units out.
    pub fn default() -> (r: Camera)
        ensures
            r == Camera::spec_new(
                Fx::spec_from_int(16).spec_div(Fx::spec_from_int(9)),
                400,
                10,
                10,
                Fx::spec_from_int(90),
                Vec3::spec_zero(),
                Vec3::spec_new(Fx { raw: 0 }, Fx { raw: 0 }, Fx::spec_from_int(-1)),
                Fx::spec_from_int(10),
                Fx { raw: 0 },
            ),
            r.spec_wf(),
    {
        proof {
            lemma_default_camera_setup();
        }
        let aspect_ratio = Fx::from_int(16).div(Fx::from_int(9));
        Camera::new(
            aspect_ratio,
            400,
            10,
            10,
            Fx::from_int(90),
            Point::zero(),
            Point::new(Fx::zero(), Fx::zero(), Fx::from_int(-1)),
            Fx::from_int(10),
            Fx::zero(),
        )
    }

    pub fn center(&self) -> (r: Point)
        ensures
            r == self.center,
    {
        self.center
    }

    pub fn height(&self) -> (r: usize)
        ensures
            r == self.viewport.image_height,
    {
        self.viewport.image_height
    }

    pub fn width(&self) -> (r: usize)
        ensures
            r == self.viewport.image_width,
    {
        self.viewport.image_width
    }

    /// A jitter offset within half a pixel step of the pixel center.
    pub open spec fn spec_pixel_sample_square(self, s: u64) -> (Vec3, u64) {
        let (ux, s1) = crate::utilities::spec_rand(s);
        let (uy, s2) = crate::utilities::spec_rand(s1);
        let px = Fx { raw: -32768i64 }.spec_add(ux);
        let py = Fx { raw: -32768i64 }.spec_add(uy);
        (
            self.viewport.pixel_delta_u.spec_scale(px).spec_add_v(
                self.viewport.pixel_delta_v.spec_scale(py),
            ),
            s2,
        )
    }

    fn pixel_sample_square(&self, rng: &mut Rng) -> (r: Vec3)
        ensures
            r == self.spec_pixel_sample_square(old(rng).state).0,
            final(rng).state == self.spec_pixel_sample_square(old(rng).state).1,
    {
        let px = Fx::from_raw(-32768).add(rng.rand());
        let py = Fx::from_raw(-32768).add(rng.rand());
        self.viewport.pixel_delta_u.scale(px).add(self.viewport.pixel_delta_v.scale(py))
    }

    /// A ray origin drawn from the defocus lens disk.
    pub open spec fn spec_defocus_disk_sample(self, s: u64) -> (Point, u64) {
        let (p, s1) = Vec3::spec_rand_in_disk(s, crate::vec3::SAMPLE_TRIES as nat);
        (
            self.center.spec_add_v(self.defocus_disk_u.spec_scale(p.x)).spec_add_v(
                self.defocus_disk_v.spec_scale(p.y),
            ),
            s1,
        )
    }

    fn defocus_disk_sample(&self, rng: &mut Rng) -> (r: Point)
        ensures
            r == self.spec_defocus_disk_sample(old(rng).state).0,
            final(rng).state == self.spec_defocus_disk_sample(old(rng).state).1,
    {
        let p = Point::rand_in_unit_disk(rng);
        self.center.add(self.defocus_disk_u.scale(p.x())).add(self.defocus_disk_v.scale(p.y()))
    }

    /// The sample ray for pixel `(i, j)`: aimed at the jittered pixel
    /// center, from the camera center or, with an open aperture, from a
    /// random point of the lens disk.
    pub open spec fn spec_get_ray(self, i: int, j: int, s: u64) -> (Ray, u64) {
        let pixel_center = self.viewport.pixel_00.spec_add_v(
            self.viewport.pixel_delta_u.spec_scale(Fx::spec_from_int(i)),
        ).spec_add_v(self.viewport.pixel_delta_v.spec_scale(Fx::spec_from_int(j)));
        let (square, s1) = self.spec_pixel_sample_square(s);
        let sample = pixel_center.spec_sub_v(square);
        let (origin, s2) = if self.defocus_angle@ <= 0 {
            (self.center, s1)
        } else {
            self.spec_defocus_disk_sample(s1)
        };
        (Ray { origin, direction: sample.spec_sub_v(origin) }, s2)
    }

    fn get_ray(&self, i: usize, j: usize, rng: &mut Rng) -> (r: Ray)
        requires
            i <= 10000,
            j <= 10000,
        ensures
            r == self.spec_get_ray(i as int, j as int, old(rng).state).0,
            final(rng).state == self.spec_get_ray(i as int, j as int, old(rng).state).1,
    {
        let pixel_center = self.viewport.pixel_00.add(
            self.viewport.pixel_delta_u.scale(Fx::from_int(i as i64)),
        ).add(self.viewport.pixel_delta_v.scale(Fx::from_int(j as i64)));
        let sample = pixel_center.sub(self.pixel_sample_square(rng));
        let ray_origin = if self.defocus_angle.raw <= 0 {
            self.center
        } else {
            self.defocus_disk_sample(rng)
        };
        let ray_direction = sample.sub(ray_origin);
        Ray::new(ray_origin, ray_direction)
    }

    /// The per-sample average weight, `1 / samples`.
    pub open spec fn spec_sample_scale(samples: u32) -> Fx {
        Fx { raw: SCALE }.spec_div(Fx::spec_from_int(samples as int))
    }

    /// One output channel: weight the summed radiance, gamma-encode, clamp
    /// into the unit range, and truncate `255 * value` to a byte.
    pub open spec fn spec_channel_byte(c: Fx, scale: Fx) -> u8 {
        let g = c.spec_mul(scale).spec_sqrt();
        let clamped = Interval::spec_new(Fx { raw: 0 }, Fx { raw: SCALE }).spec_clamp(g);
        let q = (clamped@ * 255) / (SCALE as int);
        if q > 255 {
            255u8
        } else {
            q as u8
        }
    }

    fn channel_byte(c: Fx, scale: Fx) -> (b: u8)
        ensures
            b == Camera::spec_channel_byte(c, scale),
    {
        let g = c.mul(scale).sqrt();
        let intensity = Interval::new(Fx::zero(), Fx::one());
        let clamped = intensity.clamp(g);
        proof {
            assert(0 <= clamped@ <= SCALE);
        }
        let q: u64 = (clamped.raw as u64) * 255 / (SCALE as u64);
        if q > 255 {
            255
        } else {
            q as u8
        }
    }

    /// The radiance summed over the pixel's samples, and the stream state
    /// the sampling ends in.
    pub open spec fn spec_sample_sum(
        self,
        objects: Seq<Sphere>,
        i: int,
        j: int,
        s: u64,
        n: nat,
    ) -> (Color, u64)
        decreases n,
    {
        if n == 0 {
            (Color::spec_black(), s)
        } else {
            let (prev, s1) = self.spec_sample_sum(objects, i, j, s, (n - 1) as nat);
            let (ray, s2) = self.spec_get_ray(i, j, s1);
            let (c, s3) = ray.spec_color(objects, self.max_depth, s2);
            (prev.spec_add_v(c), s3)
        }
    }

    fn sample_pixel(&self, world: &HittableList, i: usize, j: usize, rng: &mut Rng) -> (r: Color)
        requires
            i <= 10000,
            j <= 10000,
        ensures
            r == self.spec_sample_sum(
                world.objects@,
                i as int,
                j as int,
                old(rng).state,
                self.samples as nat,
            ).0,
            final(rng).state == self.spec_sample_sum(
                world.objects@,
                i as int,
                j as int,
                old(rng).state,
                self.samples as nat,
            ).1,
    {
        let ghost s0 = rng.state;
        let mut acc = Color::black();
        let mut s: u32 = 0;
        while s < self.samples
            invariant
                s <= self.samples,
                i <= 10000,
                j <= 10000,
                acc == self.spec_sample_sum(world.objects@, i as int, j as int, s0, s as nat).0,
                rng.state == self.spec_sample_sum(world.objects@, i as int, j as int, s0, s as nat).1,
            decreases self.samples - s,
        {
            let ray = self.get_ray(i, j, rng);
            let c = ray.color(world, self.max_depth, rng);
            acc = acc.add(c);
            s = s + 1;
        }
        acc
    }

    /// Average, gamma-encode and clamp the summed pixel color, and append
    /// its three bytes to the buffer.
    fn write_pixel(&self, color: &Color, samples: u32, image_data: &mut Vec<u8>)
        requires
            samples >= 1,
        ensures
            final(image_data)@ == old(image_data)@ + seq![
                Camera::spec_channel_byte(color.x, Camera::spec_sample_scale(samples)),
                Camera::spec_channel_byte(color.y, Camera::spec_sample_scale(samples)),
                Camera::spec_channel_byte(color.z, Camera::spec_sample_scale(samples)),
            ],
    {
        proof {
            assert(Fx::spec_from_int(samples as int)@ != 0);
        }
        let scale = Fx::one().div(Fx::from_int(samples as i64));
        let rb = Camera::channel_byte(color.x(), scale);
        let gb = Camera::channel_byte(color.y(), scale);
        let bb = Camera::channel_byte(color.z(), scale);
        image_data.push(rb);
        image_data.push(gb);
        image_data.push(bb);
        proof {
            assert(image_data@ =~= old(image_data)@ + seq![rb, gb, bb]);
        }
    }

    /// The three bytes of pixel `p` (row-major), rendered from the pixel's
    /// own random stream, which depends only on the render seed and `p`.
    pub open spec fn spec_pixel_triple(self, objects: Seq<Sphere>, p: int, seed: u64) -> (
        u8,
        u8,
        u8,
    )
        recommends
            self.spec_wf(),
            0 <= p,
    {
        let w = self.viewport.image_width as int;
        let i = p % w;
        let j = p / w;
        let s0 = spec_mix_seed(seed, p as u64);
        let sum = self.spec_sample_sum(objects, i, j, s0, self.samples as nat).0;
        let scale = Camera::spec_sample_scale(self.samples);
        (
            Camera::spec_channel_byte(sum.x, scale),
            Camera::spec_channel_byte(sum.y, scale),
            Camera::spec_channel_byte(sum.z, scale),
        )
    }

    /// The first `npix` pixels of the image as a flat byte sequence.
    pub open spec fn spec_render_px(self, objects: Seq<Sphere>, seed: u64, npix: nat) -> Seq<u8>
        decreases npix,
    {
        if npix == 0 {
            Seq::empty()
        } else {
            let t = self.spec_pixel_triple(objects, npix - 1, seed);
            self.spec_render_px(objects, seed, (npix - 1) as nat) + seq![t.0, t.1, t.2]
        }
    }

    /// The whole image: `width * height` pixels, row-major, three bytes
    /// each, as a function of the camera, the scene and the seed alone.
    pub open spec fn spec_render(self, objects: Seq<Sphere>, seed: u64) -> Seq<u8> {
        self.spec_render_px(
            objects,
            seed,
            (self.viewport.image_width * self.viewport.image_height) as nat,
        )
    }

    /// Sequential rendering: replaces the buffer's contents with the image.
    pub fn render(&self, world: &HittableList, image_data: &mut Vec<u8>, seed: u64)
        requires
            self.spec_wf(),
        ensures
            final(image_data)@ == self.spec_render(world.objects@, seed),
    {
        image_data.clear();
        proof {
            assert(self.viewport.image_width * self.viewport.image_height
                <= 100000000) by (nonlinear_arith)
                requires
                    1 <= self.viewport.image_width <= 10000,
                    1 <= self.viewport.image_height <= 10000,
            ;
        }
        let npix: usize = self.viewport.image_width * self.viewport.image_height;
        let mut p: usize = 0;
        while p < npix
            invariant
                self.spec_wf(),
                npix == self.viewport.image_width * self.viewport.image_height,
                npix <= 100000000,
                p <= npix,
                image_data@ == self.spec_render_px(world.objects@, seed, p as nat),
            decreases npix - p,
        {
            let i = p % self.viewport.image_width;
            let j = p / self.viewport.image_width;
            proof {
                vstd::arithmetic::div_mod::lemma_multiply_divide_lt(
                    p as int,
                    self.viewport.image_width as int,
                    self.viewport.image_height as int,
                );
            }
            let mut rng = Rng::new(mix_seed(seed, p as u64));
            let acc = self.sample_pixel(world, i, j, &mut rng);
            self.write_pixel(&acc, self.samples, image_data);
            proof {
                let t = self.spec_pixel_triple(world.objects@, p as int, seed);
                assert(image_data@ == self.spec_render_px(world.objects@, seed, p as nat)
                    + seq![t.0, t.1, t.2]);
                assert(image_data@ == self.spec_render_px(world.objects@, seed, (p + 1) as nat));
            }
            p = p + 1;
        }
    }

    #[verifier::rlimit(60)]
    fn render_pixel(cam: &Camera, world: &HittableList, p: usize, seed: u64) -> (r: (u8, u8, u8))
        requires
            cam.spec_wf(),
            p < cam.viewport.image_width * cam.viewport.image_height,
        ensures
            r == cam.spec_pixel_triple(world.objects@, p as int, seed),
    {
        proof {
            assert(cam.viewport.image_width * cam.viewport.image_height
                <= 100000000) by (nonlinear_arith)
                requires
                    1 <= cam.viewport.image_width <= 10000,
                    1 <= cam.viewport.image_height <= 10000,
            ;
        }
        let i = p % cam.viewport.image_width;
        let j = p / cam.viewport.image_width;
        proof {
            vstd::arithmetic::div_mod::lemma_multiply_divide_lt(
                p as int,
                cam.viewport.image_width as int,
                cam.viewport.image_height as int,
            );
        }
        let mut rng = Rng::new(mix_seed(seed, p as u64));
        let acc = cam.sample_pixel(world, i, j, &mut rng);
        proof {
            assert(Fx::spec_from_int(cam.samples as int)@ != 0);
        }
        let scale = Fx::one().div(Fx::from_int(cam.samples as i64));
        (
            Camera::channel_byte(acc.x(), scale),
            Camera::channel_byte(acc.y(), scale),
            Camera::channel_byte(acc.z(), scale),
        )
    }

    /// Parallel rendering: the same bytes as `render`, computed with one
    /// rayon task per pixel.  Each pixel owns its random stream, so the two
    /// paths agree byte for byte.
    #[verifier::rlimit(60)]
    pub fn render_parallel(&self, world: &HittableList, image_data: &mut Vec<u8>, seed: u64)
        requires
            self.spec_wf(),
        ensures
            final(image_data)@ == self.spec_render(world.objects@, seed),
    {
        proof {
            assert(self.viewport.image_width * self.viewport.image_height
                <= 100000000) by (nonlinear_arith)
                requires
                    1 <= self.viewport.image_width <= 10000,
                    1 <= self.viewport.image_height <= 10000,
            ;
        }
        let npix: usize = self.viewport.image_width * self.viewport.image_height;
        let pixels = par_render_pixels(self, world, seed, npix);
        image_data.clear();
        let mut p: usize = 0;
        while p < npix
            invariant
                npix == self.viewport.image_width * self.viewport.image_height,
                p <= npix,
                pixels@.len() == npix,
                forall|k: int|
                    0 <= k < npix ==> pixels@[k] == self.spec_pixel_triple(
                        world.objects@,
                        k,
                        seed,
                    ),
                image_data@ == self.spec_render_px(world.objects@, seed, p as nat),
            decreases npix - p,
        {
            let t = pixels[p];
            image_data.push(t.0);
            image_data.push(t.1);
            image_data.push(t.2);
            proof {
                let ts = self.spec_pixel_triple(world.objects@, p as int, seed);
                assert(image_data@ =~= self.spec_render_px(world.objects@, seed, p as nat)
                    + seq![ts.0, ts.1, ts.2]);
                assert(image_data@ == self.spec_render_px(world.objects@, seed, (p + 1) as nat));
            }
            p = p + 1;
        }
    }
}

/// The sequential and the parallel render path agree byte for byte: each
/// path's contract says its buffer equals the one image that the camera,
/// the scene and the seed determine, so two buffers produced by any mix of
/// the two paths are equal.
pub proof fn lemma_parallel_matches_sequential(
    cam: Camera,
    objects: Seq<Sphere>,
    seed: u64,
    sequential_out: Seq<u8>,
    parallel_out: Seq<u8>,
)
    requires
        sequential_out == cam.spec_render(objects, seed),
        parallel_out == cam.spec_render(objects, seed),
    ensures
        sequential_out == parallel_out,
{
}

/// The stock configuration satisfies the constructor's demands: its aspect
/// ratio lands on a 400 by 225 image, and its pose admits a basis.
proof fn lemma_default_camera_setup()
    ensures
        Fx::spec_from_int(16).spec_div(Fx::spec_from_int(9)) == (Fx { raw: 116508i64 }),
        Viewport::spec_image_height(Fx { raw: 116508i64 }, 400) == 225,
        Camera::spec_pose_ok(
            Vec3::spec_zero(),
            Vec3::spec_new(Fx { raw: 0 }, Fx { raw: 0 }, Fx::spec_from_int(-1)),
        ),
{
    assert(SCALE as int == 65536);
    let a16 = Fx::spec_from_int(16);
    let a9 = Fx::spec_from_int(9);
    assert(a16@ == 1048576);
    assert(a9@ == 589824);
    assert(a16@ * 65536 == 68719476736) by (nonlinear_arith)
        requires
            a16@ == 1048576,
    ;
    assert(116508 * 589824 + 262144 == 68719476736) by (nonlinear_arith);
    crate::fx::lemma_tz_div_eval(68719476736, 589824, 116508, 262144);
    assert(a16.spec_div(a9) == (Fx { raw: 116508i64 }));

    let asp = Fx { raw: 116508i64 };
    let w400 = Fx::spec_from_int(400);
    assert(w400@ == 26214400);
    assert(w400@ * 65536 == 1717986918400) by (nonlinear_arith)
        requires
            w400@ == 26214400,
    ;
    assert(14745656 * 116508 + 29152 == 1717986918400) by (nonlinear_arith);
    crate::fx::lemma_tz_div_eval(1717986918400, 116508, 14745656, 29152);
    assert(w400.spec_div(asp)@ == 14745656);
    assert(225 * 65536 + 56 == 14745656) by (nonlinear_arith);
    vstd::arithmetic::div_mod::lemma_fundamental_div_mod_converse(14745656, 65536, 225, 56);
    assert(Viewport::spec_image_height(asp, 400) == 225);

    let lookat = Vec3::spec_new(Fx { raw: 0 }, Fx { raw: 0 }, Fx::spec_from_int(-1));
    assert(Fx::spec_from_int(-1)@ == -65536);
    let d = Vec3::spec_zero().spec_sub_v(lookat);
    assert(d.x@ == 0 && d.y@ == 0 && d.z@ == 65536);
    assert(d.x@ * d.x@ == 0) by (nonlinear_arith)
        requires
            d.x@ == 0,
    ;
    assert(d.y@ * d.y@ == 0) by (nonlinear_arith)
        requires
            d.y@ == 0,
    ;
    assert(d.z@ * d.z@ == 4294967296) by (nonlinear_arith)
        requires
            d.z@ == 65536,
    ;
    assert(65536 * 65536 + 0 == 4294967296) by (nonlinear_arith);
    crate::fx::lemma_tz_div_eval(4294967296, 65536, 65536, 0);
    crate::fx::lemma_tz_div_eval(0, 65536, 0, 0);
    assert(d.spec_len_sq()@ == 65536);
    assert(d.spec_len_sq()@ * 65536 == 4294967296) by (nonlinear_arith)
        requires
            d.spec_len_sq()@ == 65536,
    ;
    assert(65537 * 65537 == 4295098369) by (nonlinear_arith);
    crate::fx::lemma_sqrt_floor_unique(4294967296, 65536);
    assert(d.spec_len()@ == 65536);
    assert(d.x@ * 65536 == 0) by (nonlinear_arith)
        requires
            d.x@ == 0,
    ;
    assert(d.z@ * 65536 == 4294967296) by (nonlinear_arith)
        requires
            d.z@ == 65536,
    ;
    let w = d.spec_normalized();
    assert(w.x@ == 0 && w.y@ == 0 && w.z@ == 65536);

    let up = Vec3::spec_new(Fx { raw: 0 }, Fx { raw: SCALE }, Fx { raw: 0 });
    assert(up.y@ * w.z@ == 4294967296) by (nonlinear_arith)
        requires
            up.y@ == 65536,
            w.z@ == 65536,
    ;
    assert(up.z@ * w.y@ == 0) by (nonlinear_arith)
        requires
            up.z@ == 0,
    ;
    assert(up.z@ * w.x@ == 0) by (nonlinear_arith)
        requires
            up.z@ == 0,
    ;
    assert(up.x@ * w.z@ == 0) by (nonlinear_arith)
        requires
            up.x@ == 0,
    ;
    assert(up.x@ * w.y@ == 0) by (nonlinear_arith)
        requires
            up.x@ == 0,
    ;
    assert(up.y@ * w.x@ == 0) by (nonlinear_arith)
        requires
            w.x@ == 0,
    ;
    let c = up.spec_cross(w);
    assert(c.x@ == 65536 && c.y@ == 0 && c.z@ == 0);
    assert(c.x@ * c.x@ == 4294967296) by (nonlinear_arith)
        requires
            c.x@ == 65536,
    ;
    assert(c.y@ * c.y@ == 0) by (nonlinear_arith)
        requires
            c.y@ == 0,
    ;
    assert(c.z@ * c.z@ == 0) by (nonlinear_arith)
        requires
            c.z@ == 0,
    ;
    assert(c.spec_len_sq()@ == 65536);
    assert(Camera::spec_pose_ok(Vec3::spec_zero(), lookat));
}

/// Relies on rayon: `(0..npix).into_par_iter().map(f).collect::<Vec<_>>()`
/// over a range is an indexed parallel iterator, so the collected vector
/// holds exactly `f(0), f(1), ..., f(npix - 1)` in index order.  The closure
/// only calls the verified per-pixel renderer, whose contract gives each
/// element's value.
#[verifier::external_body]
fn par_render_pixels(cam: &Camera, world: &HittableList, seed: u64, npix: usize) -> (r: Vec<
    (u8, u8, u8),
>)
    requires
        cam.spec_wf(),
        npix == cam.viewport.image_width * cam.viewport.image_height,
    ensures
        r@.len() == npix,
        forall|p: int|
            0 <= p < npix ==> r@[p] == cam.spec_pixel_triple(world.objects@, p, seed),
{
    (0..npix).into_par_iter().map(|p| Camera::render_pixel(cam, world, p, seed)).collect()
}

} // verus!
