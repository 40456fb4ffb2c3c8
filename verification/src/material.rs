//! Surface scattering: diffuse, metallic and refractive materials.
//!
//! The material set is closed, so the polymorphic scatter capability is a
//! tagged sum rather than a trait object; primitives store their material by
//! value.  Every scatter routine threads the explicit random source, and its
//! contract pins both the outcome and the state the stream is left in.

use crate::color::Color;
use crate::fx::{Fx, SCALE};
use crate::hittable::HitResult;
use crate::ray::Ray;
use crate::utilities::{spec_rand, Rng};
use crate::vec3::{lemma_len_sq_nonneg, lemma_len_sq_pos_len_pos, Vec3};
use vstd::prelude::*;

verus! {

/// What a surface hands back when it does not absorb the ray: the filter to
/// apply to whatever the bounced ray returns, and the bounced ray itself.
#[derive(Clone, Copy, Debug, PartialEq, Eq, Structural)]
pub struct ScatterResult {
    pub attenuation: Color,
    pub scattered_ray: Ray,
}

impl ScatterResult {
    pub fn new(attenuation: Color, scattered_ray: Ray) -> (r: ScatterResult)
        ensures
            r == (ScatterResult { attenuation, scattered_ray }),
    {
        ScatterResult { attenuation, scattered_ray }
    }

    pub fn attenuation(&self) -> (r: Color)
        ensures
            r == self.attenuation,
    {
        self.attenuation
    }

    pub fn scattered_ray(&self) -> (r: &Ray)
        ensures
            *r == self.scattered_ray,
    {
        &self.scattered_ray
    }
}

/// Diffuse surface: scatters toward the normal jittered by a unit draw.
#[derive(Clone, Copy, Debug, PartialEq, Eq, Structural)]
pub struct Lambertian {
    pub albedo: Color,
}

/// Shiny surface: mirror reflection fuzzed by a scaled unit draw.
#[derive(Clone, Copy, Debug, PartialEq, Eq, Structural)]
pub struct Metal {
    pub albedo: Color,
    pub fuzz: Fx,
}

/// Clear surface: refracts when Snell's law allows it and a reflectance
/// draw does not override, reflects otherwise.
#[derive(Clone, Copy, Debug, PartialEq, Eq, Structural)]
pub struct Dielectric {
    pub refraction_index: Fx,
}

/// The closed set of surface behaviours.
#[derive(Clone, Copy, Debug, PartialEq, Eq, Structural)]
pub enum Material {
    Lambertian(Lambertian),
    Metal(Metal),
    Dielectric(Dielectric),
}

impl Lambertian {
    pub fn new(albedo: Color) -> (r: Lambertian)
        ensures
            r == (Lambertian { albedo }),
    {
        Lambertian { albedo }
    }

    /// The scatter direction is the surface normal plus a unit draw; if that
    /// sum is degenerate under the near-zero test, the normal itself stands
    /// in.  A diffuse surface never absorbs.
    pub open spec fn spec_scatter(self, hit_result: HitResult, s: u64) -> (
        Option<ScatterResult>,
        u64,
    ) {
        let (u, s1) = Vec3::spec_rand_unit(s);
        let candidate = hit_result.normal.spec_add_v(u);
        let dir = if candidate.spec_near_zero() {
            hit_result.normal
        } else {
            candidate
        };
        (
            Some(
                ScatterResult {
                    attenuation: self.albedo,
                    scattered_ray: Ray { origin: hit_result.location, direction: dir },
                },
            ),
            s1,
        )
    }

    pub fn scatter(&self, _ray: &Ray, hit_result: &HitResult, rng: &mut Rng) -> (r: Option<
        ScatterResult,
    >)
        ensures
            r == self.spec_scatter(*hit_result, old(rng).state).0,
            final(rng).state == self.spec_scatter(*hit_result, old(rng).state).1,
            r is Some,
    {
        let u = Vec3::rand_unit(rng);
        let mut scatter_dir = hit_result.normal().add(u);
        if scatter_dir.near_zero() {
            scatter_dir = *hit_result.normal();
        }
        Some(ScatterResult::new(self.albedo, Ray::new(*hit_result.location(), scatter_dir)))
    }
}

impl Metal {
    pub fn new(albedo: Color, fuzz: Fx) -> (r: Metal)
        ensures
            r == (Metal { albedo, fuzz }),
    {
        Metal { albedo, fuzz }
    }

    /// The perturbed reflection direction: the mirror image of the unit
    /// incoming direction, plus `fuzz` times the unit draw taken at `s`.
    pub open spec fn spec_scatter_dir(self, ray: Ray, hit_result: HitResult, s: u64) -> Vec3
        recommends
            ray.direction.spec_len()@ != 0,
    {
        let reflected = Vec3::spec_reflect(ray.direction.spec_normalized(), hit_result.normal);
        let (u, s1) = Vec3::spec_rand_unit(s);
        reflected.spec_add_v(u.spec_scale(self.fuzz))
    }

    /// Mirror reflection of the unit incoming direction, perturbed by `fuzz`
    /// times a unit draw.  The ray is absorbed exactly when the perturbed
    /// direction has nonpositive dot with the normal: grazing fuzz pushed it
    /// back into the surface.
    pub open spec fn spec_scatter(self, ray: Ray, hit_result: HitResult, s: u64) -> (
        Option<ScatterResult>,
        u64,
    )
        recommends
            ray.direction.spec_len()@ != 0,
    {
        let (u, s1) = Vec3::spec_rand_unit(s);
        let dir = self.spec_scatter_dir(ray, hit_result, s);
        if dir.spec_dot(hit_result.normal)@ <= 0 {
            (None, s1)
        } else {
            (
                Some(
                    ScatterResult {
                        attenuation: self.albedo,
                        scattered_ray: Ray { origin: hit_result.location, direction: dir },
                    },
                ),
                s1,
            )
        }
    }

    pub fn scatter(&self, ray: &Ray, hit_result: &HitResult, rng: &mut Rng) -> (r: Option<
        ScatterResult,
    >)
        requires
            ray.direction.spec_len_sq()@ != 0,
        ensures
            r == self.spec_scatter(*ray, *hit_result, old(rng).state).0,
            final(rng).state == self.spec_scatter(*ray, *hit_result, old(rng).state).1,
            (r is None) <==> self.spec_scatter_dir(*ray, *hit_result, old(rng).state).spec_dot(
                hit_result.normal,
            )@ <= 0,
    {
        proof {
            lemma_len_sq_nonneg(ray.direction);
            lemma_len_sq_pos_len_pos(ray.direction);
        }
        let reflected = Vec3::reflect(&ray.direction().normalized(), hit_result.normal());
        let u = Vec3::rand_unit(rng);
        let dir = reflected.add(u.scale(self.fuzz));
        if Vec3::dot(&dir, hit_result.normal()).raw <= 0 {
            return None;
        }
        Some(ScatterResult::new(self.albedo, Ray::new(*hit_result.location(), dir)))
    }
}

impl Dielectric {
    pub fn new(refraction_index: Fx) -> (r: Dielectric)
        ensures
            r == (Dielectric { refraction_index }),
    {
        Dielectric { refraction_index }
    }

    /// Schlick's reflectance approximation,
    /// `r0 + (1 - r0) * (1 - cos)^5` with `r0 = ((1 - n) / (1 + n))^2`.
    /// An index of exactly minus one would make `r0`'s quotient undefined;
    /// that degenerate surface counts as fully reflective.
    pub open spec fn spec_reflectance(self, cos: Fx) -> Fx {
        let one = Fx { raw: SCALE };
        let denom = one.spec_add(self.refraction_index);
        let r0_base = if denom@ == 0 {
            one
        } else {
            one.spec_sub(self.refraction_index).spec_div(denom)
        };
        let r0 = r0_base.spec_mul(r0_base);
        let p1 = one.spec_sub(cos);
        let p2 = p1.spec_mul(p1);
        let p4 = p2.spec_mul(p2);
        let p5 = p4.spec_mul(p1);
        r0.spec_add(one.spec_sub(r0).spec_mul(p5))
    }

    fn reflectance(&self, cos: Fx) -> (r: Fx)
        ensures
            r == self.spec_reflectance(cos),
    {
        let one = Fx::one();
        let denom = one.add(self.refraction_index);
        let r0_base = if denom.raw == 0 {
            one
        } else {
            one.sub(self.refraction_index).div(denom)
        };
        let r0 = r0_base.mul(r0_base);
        let p1 = one.sub(cos);
        let p2 = p1.mul(p1);
        let p4 = p2.mul(p2);
        let p5 = p4.mul(p1);
        r0.add(one.sub(r0).mul(p5))
    }

    /// Entering rays see the inverse index, exiting rays the index itself
    /// (an index of exactly zero has no inverse on the grid and yields a
    /// zero ratio, which always refracts).  The ray reflects when refraction
    /// is geometrically impossible (total internal reflection) or when the
    /// reflectance draw says so, and refracts otherwise; a clear surface
    /// never absorbs and never tints.
    pub open spec fn spec_scatter(self, ray: Ray, hit_result: HitResult, s: u64) -> (
        Option<ScatterResult>,
        u64,
    )
        recommends
            ray.direction.spec_len()@ != 0,
    {
        let one = Fx { raw: SCALE };
        let refraction_ratio = if hit_result.front_face {
            if self.refraction_index@ == 0 {
                Fx { raw: 0 }
            } else {
                one.spec_div(self.refraction_index)
            }
        } else {
            self.refraction_index
        };
        let unit_dir = ray.direction.spec_normalized();
        let cos_theta = unit_dir.spec_neg_v().spec_dot(hit_result.normal).spec_min(one);
        let sin_theta = one.spec_sub(cos_theta.spec_mul(cos_theta)).spec_sqrt();
        let cannot_refract = refraction_ratio.spec_mul(sin_theta)@ > SCALE;
        let (draw, s1) = spec_rand(s);
        let reflectance_condition = self.spec_reflectance(cos_theta)@ > draw@;
        let direction = if cannot_refract || reflectance_condition {
            Vec3::spec_reflect(unit_dir, hit_result.normal)
        } else {
            Vec3::spec_refract(unit_dir, hit_result.normal, refraction_ratio)
        };
        (
            Some(
                ScatterResult {
                    attenuation: Color::spec_white(),
                    scattered_ray: Ray { origin: hit_result.location, direction },
                },
            ),
            s1,
        )
    }

    pub fn scatter(&self, ray: &Ray, hit_result: &HitResult, rng: &mut Rng) -> (r: Option<
        ScatterResult,
    >)
        requires
            ray.direction.spec_len_sq()@ != 0,
        ensures
            r == self.spec_scatter(*ray, *hit_result, old(rng).state).0,
            final(rng).state == self.spec_scatter(*ray, *hit_result, old(rng).state).1,
            r is Some,
    {
        let one = Fx::one();
        let refraction_ratio = if hit_result.front_face() {
            if self.refraction_index.raw == 0 {
                Fx::zero()
            } else {
                one.div(self.refraction_index)
            }
        } else {
            self.refraction_index
        };
        proof {
            lemma_len_sq_nonneg(ray.direction);
            lemma_len_sq_pos_len_pos(ray.direction);
        }
        let unit_dir = ray.direction().normalized();
        let cos_theta = Vec3::dot(&unit_dir.neg(), hit_result.normal()).min(one);
        let sin_theta = one.sub(cos_theta.mul(cos_theta)).sqrt();
        let cannot_refract = refraction_ratio.mul(sin_theta).raw > SCALE;
        let draw = rng.rand();
        let reflectance_condition = self.reflectance(cos_theta).raw > draw.raw;
        let direction = if cannot_refract || reflectance_condition {
            Vec3::reflect(&unit_dir, hit_result.normal())
        } else {
            Vec3::refract(&unit_dir, hit_result.normal(), refraction_ratio)
        };
        Some(ScatterResult::new(Color::white(), Ray::new(*hit_result.location(), direction)))
    }
}

impl Material {
    pub open spec fn spec_scatter(self, ray: Ray, hit_result: HitResult, s: u64) -> (
        Option<ScatterResult>,
        u64,
    )
        recommends
            ray.direction.spec_len()@ != 0,
    {
        match self {
            Material::Lambertian(m) => m.spec_scatter(hit_result, s),
            Material::Metal(m) => m.spec_scatter(ray, hit_result, s),
            Material::Dielectric(m) => m.spec_scatter(ray, hit_result, s),
        }
    }

    pub fn scatter(&self, ray: &Ray, hit_result: &HitResult, rng: &mut Rng) -> (r: Option<
        ScatterResult,
    >)
        requires
            ray.direction.spec_len_sq()@ != 0,
        ensures
            r == self.spec_scatter(*ray, *hit_result, old(rng).state).0,
            final(rng).state == self.spec_scatter(*ray, *hit_result, old(rng).state).1,
    {
        match self {
            Material::Lambertian(m) => m.scatter(ray, hit_result, rng),
            Material::Metal(m) => m.scatter(ray, hit_result, rng),
            Material::Dielectric(m) => m.scatter(ray, hit_result, rng),
        }
    }
}

} // verus!
