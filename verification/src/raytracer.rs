//! The top-level renderer: a camera paired with its output buffer.

use crate::camera::Camera;
use crate::fx::Fx;
use crate::hittable_list::HittableList;
use crate::Point;
use vstd::prelude::*;

verus! {

/// How the render work is scheduled.
#[derive(Clone, Copy, Debug, PartialEq, Eq, Structural)]
pub enum ExecutionMethod {
    Single,
    Parallel,
}

/// Options of a render call: the schedule, and the seed that every sample
/// stream of the frame is derived from.
#[derive(Clone, Copy, Debug, PartialEq, Eq, Structural)]
pub struct RaytracerOptions {
    pub execution_method: ExecutionMethod,
    pub seed: u64,
}

impl RaytracerOptions {
    pub fn new(execution_method: ExecutionMethod) -> (r: RaytracerOptions)
        ensures
            r == (RaytracerOptions { execution_method, seed: 0u64 }),
    {
        RaytracerOptions { execution_method, seed: 0 }
    }

    /// The same options with a caller-chosen seed, so a harness can pin the
    /// random streams down.
    pub fn with_seed(self, seed: u64) -> (r: RaytracerOptions)
        ensures
            r == (RaytracerOptions { seed, ..self }),
    {
        RaytracerOptions { seed, ..self }
    }

    pub fn execution_method(&self) -> (r: ExecutionMethod)
        ensures
            r == self.execution_method,
    {
        self.execution_method
    }

    pub fn seed(&self) -> (r: u64)
        ensures
            r == self.seed,
    {
        self.seed
    }
}

/// A camera with the flat RGB byte buffer it renders into.
pub struct Raytracer {
    pub data: Vec<u8>,
    pub camera: Camera,
    pub components: i32,
}

impl Raytracer {
    pub fn new(
        aspect_ratio: Fx,
        image_width: usize,
        samples: u32,
        max_depth: u32,
        v_fov: Fx,
        lookfrom: Point,
        lookat: Point,
        focus_dist: Fx,
        defocus_angle: Fx,
    ) -> (r: Raytracer)
        requires
            aspect_ratio@ > 0,
            1 <= image_width <= 10000,
            crate::camera::Viewport::spec_image_height(aspect_ratio, image_width) <= 10000,
            samples >= 1,
            Camera::spec_pose_ok(lookfrom, lookat),
        ensures
            r.camera == Camera::spec_new(
                aspect_ratio,
                image_width,
                samples,
                max_depth,
                v_fov,
                lookfrom,
                lookat,
                focus_dist,
                defocus_angle,
            ),
            r.camera.spec_wf(),
            r.components == 3,
            r.data@.len() == r.camera.viewport.image_width * r.camera.viewport.image_height
                * 3,
            forall|k: int| 0 <= k < r.data@.len() ==> r.data@[k] == 0u8,
    {
        let camera = Camera::new(
            aspect_ratio,
            image_width,
            samples,
            max_depth,
            v_fov,
            lookfrom,
            lookat,
            focus_dist,
            defocus_angle,
        );
        proof {
            assert(camera.viewport.image_width * camera.viewport.image_height
                <= 100000000) by (nonlinear_arith)
                requires
                    1 <= camera.viewport.image_width <= 10000,
                    1 <= camera.viewport.image_height <= 10000,
            ;
        }
        let n: usize = camera.width() * camera.height() * 3;
        let mut data: Vec<u8> = Vec::new();
        let mut k: usize = 0;
        while k < n
            invariant
                k <= n,
                data@.len() == k,
                forall|m: int| 0 <= m < k ==> data@[m] == 0u8,
            decreases n - k,
        {
            data.push(0u8);
            k = k + 1;
        }
        Raytracer { data, camera, components: 3 }
    }

    /// Render `world` into the owned buffer.  Both schedules produce the
    /// same bytes: the whole frame is a function of the camera, the scene
    /// and the options' seed.
    pub fn render(&mut self, world: &HittableList, options: RaytracerOptions)
        requires
            old(self).camera.spec_wf(),
        ensures
            final(self).camera == old(self).camera,
            final(self).components == old(self).components,
            final(self).data@ == old(self).camera.spec_render(world.objects@, options.seed),
    {
        let cam = self.camera;
        match options.execution_method() {
            ExecutionMethod::Single => cam.render(world, &mut self.data, options.seed),
            ExecutionMethod::Parallel => cam.render_parallel(
                world,
                &mut self.data,
                options.seed,
            ),
        }
    }

    pub fn width(&self) -> (r: usize)
        ensures
            r == self.camera.viewport.image_width,
    {
        self.camera.width()
    }

    pub fn height(&self) -> (r: usize)
        ensures
            r == self.camera.viewport.image_height,
    {
        self.camera.height()
    }

    /// The rendered bytes, for a caller that persists them.
    pub fn data(&self) -> (r: &Vec<u8>)
        ensures
            r@ == self.data@,
    {
        &self.data
    }
}

} // verus!
