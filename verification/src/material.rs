//! Materials: a closed union of the three reflectance models, and the
//! scattering rule that turns an incoming ray and a hit surface into an
//! attenuation color and an outgoing ray, or signals absorption.

use vstd::prelude::*;

use crate::fixed::Fx;
use crate::hittable::HitRecord;
use crate::ray::Ray;
use crate::rng::SeededRng;
use crate::utils::{random, schlick, spec_random, spec_schlick};
use crate::vec3::{Vec3, REJECT_TRIES};

verus! {

/// What a scatter event produces: the attenuation color and the outgoing ray.
#[derive(Clone, Copy, PartialEq, Eq, Structural, Debug)]
pub struct ScatterBundle {
    pub albedo: Vec3,
    pub ray: Ray,
}

impl ScatterBundle {
    pub fn new(albedo: Vec3, ray: Ray) -> (r: ScatterBundle)
        ensures
            r == (ScatterBundle { albedo, ray }),
    {
        ScatterBundle { albedo, ray }
    }

    /// Get the scatter bundle's albedo.
    pub fn albedo(&self) -> (r: Vec3)
        ensures
            r == self.albedo,
    {
        self.albedo
    }

    /// Get the scatter bundle's ray.
    pub fn ray(&self) -> (r: Ray)
        ensures
            r == self.ray,
    {
        self.ray
    }
}

/// The closed set of reflectance models: a diffuse surface with an albedo, a
/// metal with an albedo and a fuzz radius, and a clear dielectric with a
/// refractive index.
#[derive(Clone, Copy, PartialEq, Eq, Structural, Debug)]
pub enum MaterialType {
    Lambertian(Vec3),
    Metal(Vec3, Fx),
    Dielectric(Fx),
}

impl MaterialType {
    /// A material the scattering rule is defined on: a dielectric must have
    /// a positive refractive index. Scene construction owes this.
    pub open spec fn wf(self) -> bool {
        match self {
            MaterialType::Dielectric(ir) => ir.raw > 0,
            _ => true,
        }
    }

    /// What scattering this material produces for an incoming ray at a hit
    /// surface, given the position of the next random draw: the bundle (or
    /// absorption) and the position after the draws consumed.
    ///
    /// - Lambertian: the normal plus a random direction, falling back to the
    ///   normal itself when the sum degenerates to zero; always scatters.
    /// - Metal: the mirrored unit direction, perturbed by a random point in
    ///   the unit sphere scaled by the fuzz radius (taken clamped to `[0, 1]`);
    ///   absorbs when the result leaves the surface hemisphere.
    /// - Dielectric: white attenuation; reflects on total internal reflection
    ///   or a Schlick coin flip, refracts otherwise; always scatters.
    pub open spec fn spec_scatter(self, r_in: Ray, rec: HitRecord, seed: u64, k: nat) -> (
        Option<ScatterBundle>,
        nat,
    )
        recommends
            self.wf(),
    {
        match self {
            MaterialType::Lambertian(albedo) => {
                let p = Vec3::spec_random_unit_vector(seed, k);
                let scatter_dir = rec.normal.spec_plus(p.0);
                let dir = if scatter_dir.spec_near_zero() {
                    rec.normal
                } else {
                    scatter_dir
                };
                (
                    Option::Some(ScatterBundle { albedo, ray: Ray { orig: rec.p, dir } }),
                    p.1,
                )
            },
            MaterialType::Metal(albedo, fuzz) => {
                let f = if fuzz.raw < 0 {
                    Fx { raw: 0 }
                } else if fuzz.raw > 65536 {
                    Fx { raw: 65536 }
                } else {
                    fuzz
                };
                let reflected = r_in.dir.spec_unit_dir().spec_reflect(rec.normal);
                let p = Vec3::spec_random_in_unit_sphere(seed, k, REJECT_TRIES as nat);
                let scattered = Ray { orig: rec.p, dir: reflected.spec_plus(p.0.spec_scale(f)) };
                (
                    if scattered.dir.spec_dot(rec.normal).raw > 0 {
                        Option::Some(ScatterBundle { albedo, ray: scattered })
                    } else {
                        Option::None
                    },
                    p.1,
                )
            },
            MaterialType::Dielectric(ir) => {
                let one = Fx::spec_from_int(1);
                let refrac_ratio = if rec.front_face {
                    one.spec_div(ir)
                } else {
                    ir
                };
                let unit_dir = r_in.dir.spec_unit_dir();
                let cos = unit_dir.spec_scale(Fx::spec_from_int(-1i64)).spec_dot(
                    rec.normal,
                ).spec_min(one);
                let sin2 = one.spec_minus(cos.spec_times(cos));
                let sin2c = if sin2.raw < 0 {
                    Fx { raw: 0 }
                } else {
                    sin2
                };
                let cannot_refract = refrac_ratio.spec_times(sin2c.spec_sqrt()).raw > 65536;
                let white = Vec3 { x: one, y: one, z: one };
                if cannot_refract {
                    (
                        Option::Some(
                            ScatterBundle {
                                albedo: white,
                                ray: Ray { orig: rec.p, dir: unit_dir.spec_reflect(rec.normal) },
                            },
                        ),
                        k,
                    )
                } else {
                    let coin = spec_random(seed, k);
                    let dir = if spec_schlick(cos, refrac_ratio).raw > coin.raw {
                        unit_dir.spec_reflect(rec.normal)
                    } else {
                        unit_dir.spec_refract(rec.normal, refrac_ratio)
                    };
                    (
                        Option::Some(ScatterBundle { albedo: white, ray: Ray { orig: rec.p, dir } }),
                        (k + 1) as nat,
                    )
                }
            },
        }
    }

    /// Scatter an incoming ray at a hit surface, drawing from the generator.
    pub fn scatter(&self, r_in: Ray, rec: &HitRecord, rng: &mut SeededRng) -> (r: Option<
        ScatterBundle,
    >)
        requires
            self.wf(),
        ensures
            r == self.spec_scatter(r_in, *rec, old(rng).seed(), old(rng).idx()).0,
            final(rng).idx() == self.spec_scatter(r_in, *rec, old(rng).seed(), old(rng).idx()).1,
            final(rng).seed() == old(rng).seed(),
    {
        match self {
            MaterialType::Lambertian(albedo) => {
                let scatter_dir = rec.normal().plus(Vec3::random_unit_vector(rng));
                if scatter_dir.near_zero() {
                    Some(ScatterBundle::new(*albedo, Ray::new(rec.p(), rec.normal())))
                } else {
                    Some(ScatterBundle::new(*albedo, Ray::new(rec.p(), scatter_dir)))
                }
            },
            MaterialType::Metal(albedo, fuzz) => {
                let f = if fuzz.raw < 0 {
                    Fx { raw: 0 }
                } else if fuzz.raw > 65536 {
                    Fx { raw: 65536 }
                } else {
                    *fuzz
                };
                let reflected = r_in.dir().unit_dir().reflect(rec.normal());
                let scattered = Ray::new(
                    rec.p(),
                    reflected.plus(Vec3::random_in_unit_sphere(rng).scale(f)),
                );
                if scattered.dir().dot(rec.normal()).raw > 0 {
                    Some(ScatterBundle::new(*albedo, scattered))
                } else {
                    None
                }
            },
            MaterialType::Dielectric(ir) => {
                let one = Fx::from_int(1);
                let refrac_ratio = if rec.front_face() {
                    one.div(*ir)
                } else {
                    *ir
                };
                let unit_dir = r_in.dir().unit_dir();
                let cos = unit_dir.scale(Fx::from_int(-1)).dot(rec.normal()).min_fx(one);
                let sin2 = one.minus(cos.times(cos));
                let sin2c = if sin2.raw < 0 {
                    Fx { raw: 0 }
                } else {
                    sin2
                };
                let cannot_refract = refrac_ratio.times(sin2c.sqrt()).raw > 65536;
                let white = Vec3::new_singleton(one);
                if cannot_refract {
                    Some(ScatterBundle::new(white, Ray::new(rec.p(), unit_dir.reflect(rec.normal()))))
                } else {
                    proof {
                        lemma_ratio_not_negative_one(*ir, rec.front_face);
                    }
                    let coin = random(rng);
                    let s = schlick(cos, refrac_ratio);
                    let dir = if s.raw > coin.raw {
                        unit_dir.reflect(rec.normal())
                    } else {
                        unit_dir.refract(rec.normal(), refrac_ratio)
                    };
                    Some(ScatterBundle::new(white, Ray::new(rec.p(), dir)))
                }
            },
        }
    }
}

/// The effective refraction ratio of a well-formed dielectric is never the
/// value that would degenerate the Schlick denominator.
pub proof fn lemma_ratio_not_negative_one(ir: Fx, front_face: bool)
    requires
        ir.raw > 0,
    ensures
        (if front_face {
            Fx::spec_from_int(1).spec_div(ir)
        } else {
            ir
        }).raw != -65536,
{
    if front_face {
        let q = crate::fixed::qdiv(65536int * 65536, ir.raw as int);
        assert(q >= 0);
    }
}

} // verus!
