//! Materials: how a hit emits radiance and continues the light path —
//! deterministically (specular), by a sampled density (diffuse), or not at
//! all (emitters and absorbers).
use vstd::prelude::*;

verus! {

use crate::fixed::{
    fx_ok, spec_add, spec_sub, spec_mul, spec_div, spec_min, spec_clamp, spec_sqrt, fadd, fsub,
    fmul, fdiv, fsqrt, fmin, fclamp, ONE, PI,
};
use crate::vec3::{
    Vec3, vec_ok, spec_dot, spec_unit, spec_reflect, spec_refract, spec_v_neg,
};
use crate::ray::{Ray, ray_ok};
use crate::hittable::{HitRecord, rec_ok};
use crate::texture::{Texture, SolidColor, texture_ok, spec_texture_value};
use crate::pdf::{Pdf, CosinePdf, SpherePdf, pdf_ok};
use crate::onb::spec_onb_from;
use crate::rng::rng_unit;

/// The material that never scatters and never emits.
#[derive(Clone, Copy, PartialEq, Eq, Structural, Debug)]
pub struct EmptyMaterial;

#[derive(PartialEq, Eq, Debug)]
pub struct Lambertian {
    pub albedo: Texture,
}

#[derive(Clone, Copy, PartialEq, Eq, Structural, Debug)]
pub struct Metal {
    pub albedo: Vec3,
    pub fuzz: i64,
}

#[derive(Clone, Copy, PartialEq, Eq, Structural, Debug)]
pub struct Dielectric {
    pub ir: i64,
}

#[derive(PartialEq, Eq, Debug)]
pub struct DiffuseLight {
    pub emit: Texture,
}

#[derive(PartialEq, Eq, Debug)]
pub struct Isotropic {
    pub albedo: Texture,
}

/// The closed set of scattering models.
#[derive(PartialEq, Eq, Debug)]
pub enum Material {
    Empty(EmptyMaterial),
    Lambertian(Lambertian),
    Metal(Metal),
    Dielectric(Dielectric),
    DiffuseLight(DiffuseLight),
    Isotropic(Isotropic),
}

pub open spec fn material_ok(m: Material) -> bool {
    match m {
        Material::Empty(_) => true,
        Material::Lambertian(l) => texture_ok(l.albedo),
        Material::Metal(mt) => vec_ok(mt.albedo) && fx_ok(mt.fuzz as int),
        Material::Dielectric(d) => fx_ok(d.ir as int),
        Material::DiffuseLight(dl) => texture_ok(dl.emit),
        Material::Isotropic(i) => texture_ok(i.albedo),
    }
}

/// The scene's material arena: primitives refer to materials by index.
pub open spec fn arena_ok(ms: Vec<Material>) -> bool {
    forall|i: int| 0 <= i < ms@.len() ==> material_ok(#[trigger] ms@[i])
}

/// How a scatter continues the path: a deterministic specular ray, or a
/// density to draw a diffuse direction from, always with an attenuation.
pub struct ScatterRecord<'a> {
    pub specular_ray: Option<Ray>,
    pub attenuation: Vec3,
    pub pdf: Option<Pdf<'a>>,
}

pub open spec fn scatter_ok(s: ScatterRecord) -> bool {
    &&& match s.specular_ray {
        Some(r) => ray_ok(r),
        None => true,
    }
    &&& vec_ok(s.attenuation)
    &&& match s.pdf {
        Some(p) => pdf_ok(p),
        None => true,
    }
}

/// Whether a dielectric hit cannot refract: the total-internal-reflection
/// test sin(theta) * ratio > 1, over the same fixed-point quantities the
/// scatter computes.
pub open spec fn spec_cannot_refract(d: Dielectric, ray_in: Ray, rec: HitRecord) -> bool {
    let ratio = if rec.front_face {
        spec_div(ONE as int, d.ir as int)
    } else {
        d.ir as int
    };
    let u = spec_unit(ray_in.dir);
    let ct = spec_min(spec_dot(rec.normal, spec_v_neg(u)), ONE as int);
    let st = spec_sqrt(spec_sub(ONE as int, spec_mul(ct, ct)));
    spec_mul(ratio, st) > ONE
}

/// Schlick's reflectance approximation.
pub open spec fn spec_reflectance(cosine: int, ref_idx: int) -> int {
    let r0 = spec_div(spec_sub(ONE as int, ref_idx), spec_add(ONE as int, ref_idx));
    let r0sq = spec_mul(r0, r0);
    let x = spec_sub(ONE as int, cosine);
    let x2 = spec_mul(x, x);
    let x4 = spec_mul(x2, x2);
    let x5 = spec_mul(x4, x);
    spec_add(r0sq, spec_mul(spec_sub(ONE as int, r0sq), x5))
}

fn reflectance(cosine: i64, ref_idx: i64) -> (r: i64)
    requires
        fx_ok(cosine as int),
        fx_ok(ref_idx as int),
    ensures
        r == spec_reflectance(cosine as int, ref_idx as int),
        fx_ok(r as int),
{
    let r0 = fdiv(fsub(ONE, ref_idx), fadd(ONE, ref_idx));
    let r0sq = fmul(r0, r0);
    let x = fsub(ONE, cosine);
    let x2 = fmul(x, x);
    let x4 = fmul(x2, x2);
    let x5 = fmul(x4, x);
    fadd(r0sq, fmul(fsub(ONE, r0sq), x5))
}

impl Lambertian {
    pub fn new_with_color(color: Vec3) -> (r: Lambertian)
        ensures
            r.albedo == Texture::Solid(SolidColor { color }),
    {
        Lambertian { albedo: Texture::Solid(SolidColor::from_color(color)) }
    }

    pub fn new_with_texture(t: Texture) -> (r: Lambertian)
        ensures
            r.albedo == t,
    {
        Lambertian { albedo: t }
    }

    /// Ownership is by value here, so a shared texture is handed over.
    pub fn new_with_shared_texture(t: Texture) -> (r: Lambertian)
        ensures
            r.albedo == t,
    {
        Lambertian { albedo: t }
    }
}

impl Metal {
    /// The fuzz factor is clamped into [0, 1].
    pub fn new(color: Vec3, f: i64) -> (r: Metal)
        requires
            vec_ok(color),
            fx_ok(f as int),
        ensures
            r.albedo == color,
            r.fuzz == spec_clamp(f as int, 0, ONE as int),
            0 <= r.fuzz <= ONE,
    {
        Metal { albedo: color, fuzz: fclamp(f, 0, ONE) }
    }
}

impl Dielectric {
    pub fn new(index_of_refraction: i64) -> (r: Dielectric)
        requires
            fx_ok(index_of_refraction as int),
        ensures
            r.ir == index_of_refraction,
    {
        Dielectric { ir: index_of_refraction }
    }
}

impl DiffuseLight {
    pub fn new_with_color(color: Vec3) -> (r: DiffuseLight)
        ensures
            r.emit == Texture::Solid(SolidColor { color }),
    {
        DiffuseLight { emit: Texture::Solid(SolidColor::from_color(color)) }
    }

    pub fn new_with_texture(texture: Texture) -> (r: DiffuseLight)
        ensures
            r.emit == texture,
    {
        DiffuseLight { emit: texture }
    }
}

impl Isotropic {
    pub fn new_with_color(color: Vec3) -> (r: Isotropic)
        ensures
            r.albedo == Texture::Solid(SolidColor { color }),
    {
        Isotropic { albedo: Texture::Solid(SolidColor::from_color(color)) }
    }

    pub fn new_with_texture(texture: Texture) -> (r: Isotropic)
        ensures
            r.albedo == texture,
    {
        Isotropic { albedo: texture }
    }
}

impl Material {
    /// Attempt to scatter. Lambertian and isotropic materials always hand
    /// back a density; metal reflects, absorbing rays that end up under the
    /// surface; a dielectric always continues, reflecting or refracting;
    /// emitters and the empty material never scatter.
    pub fn scatter<'a>(&self, rng: &mut rand::rngs::StdRng, ray_in: &Ray, rec: &HitRecord) -> (r:
        Option<ScatterRecord<'a>>)
        requires
            material_ok(*self),
            ray_ok(*ray_in),
            rec_ok(*rec),
        ensures
            match r {
                Some(s) => scatter_ok(s),
                None => true,
            },
            self is Empty ==> r is None,
            self is DiffuseLight ==> r is None,
            self matches Material::Lambertian(l) ==> r matches Some(s) && s.specular_ray is None
                && s.attenuation == spec_texture_value(
                l.albedo,
                rec.u as int,
                rec.v as int,
                rec.p,
            ) && s.pdf == Some(Pdf::Cosine(CosinePdf { uvw: spec_onb_from(rec.normal) })),
            self matches Material::Isotropic(iso) ==> r matches Some(s) && s.specular_ray is None
                && s.attenuation == spec_texture_value(
                iso.albedo,
                rec.u as int,
                rec.v as int,
                rec.p,
            ) && s.pdf == Some(Pdf::Sphere(SpherePdf {  })),
            self matches Material::Metal(mt) ==> (match r {
                Some(s) => {
                    &&& s.attenuation == mt.albedo
                    &&& s.pdf is None
                    &&& (match s.specular_ray {
                        Some(sr) => {
                            &&& sr.orig == rec.p
                            &&& sr.tm == ray_in.tm
                            &&& spec_dot(sr.dir, rec.normal) > 0
                            &&& (mt.fuzz == 0 ==> sr.dir == spec_reflect(
                                spec_unit(ray_in.dir),
                                rec.normal,
                            ))
                        },
                        None => false,
                    })
                },
                None => true,
            }),
            self matches Material::Metal(mt) && mt.fuzz == 0 ==> (r is Some <==> spec_dot(
                spec_reflect(spec_unit(ray_in.dir), rec.normal),
                rec.normal,
            ) > 0),
            self matches Material::Dielectric(d) ==> r matches Some(s) && s.pdf is None
                && s.attenuation == (Vec3 { x: ONE, y: ONE, z: ONE }) && (match s.specular_ray {
                Some(sr) => {
                    &&& sr.orig == rec.p
                    &&& sr.tm == ray_in.tm
                    &&& (sr.dir == spec_reflect(spec_unit(ray_in.dir), rec.normal) || sr.dir
                        == spec_refract(
                        spec_unit(ray_in.dir),
                        rec.normal,
                        if rec.front_face {
                            spec_div(ONE as int, d.ir as int)
                        } else {
                            d.ir as int
                        },
                    ))
                    &&& (spec_cannot_refract(*d, *ray_in, *rec) ==> sr.dir == spec_reflect(
                        spec_unit(ray_in.dir),
                        rec.normal,
                    ))
                },
                None => false,
            }),
    {
        match self {
            Material::Empty(_) => None,
            Material::DiffuseLight(_) => None,
            Material::Lambertian(l) => {
                let attenuation = l.albedo.value(rec.u, rec.v, &rec.p);
                Some(
                    ScatterRecord {
                        specular_ray: None,
                        attenuation,
                        pdf: Some(Pdf::Cosine(CosinePdf::new(&rec.normal))),
                    },
                )
            },
            Material::Isotropic(iso) => {
                let attenuation = iso.albedo.value(rec.u, rec.v, &rec.p);
                Some(
                    ScatterRecord {
                        specular_ray: None,
                        attenuation,
                        pdf: Some(Pdf::Sphere(SpherePdf {  })),
                    },
                )
            },
            Material::Metal(mt) => {
                let reflected = ray_in.direction().unit_vector().reflect(&rec.normal);
                let dir = reflected.add(&Vec3::random_in_unit_sphere(rng).scale(mt.fuzz));
                let scattered = Ray::new(rec.p, dir, ray_in.time());
                if scattered.direction().dot(&rec.normal) > 0 {
                    proof {
                        if mt.fuzz == 0 {
                            crate::vec3::lemma_fuzz_zero_keeps_direction(reflected);
                        }
                    }
                    Some(
                        ScatterRecord {
                            specular_ray: Some(scattered),
                            attenuation: mt.albedo,
                            pdf: None,
                        },
                    )
                } else {
                    None
                }
            },
            Material::Dielectric(d) => {
                let refraction_ratio = if rec.front_face {
                    fdiv(ONE, d.ir)
                } else {
                    d.ir
                };
                let unit_direction = ray_in.direction().unit_vector();
                let cos_theta = fmin(rec.normal.dot(&unit_direction.neg()), ONE);
                let sin_theta = fsqrt(fsub(ONE, fmul(cos_theta, cos_theta)));
                let cannot_refract = fmul(refraction_ratio, sin_theta) > ONE;
                let draw = rng_unit(rng);
                let direction = if cannot_refract || reflectance(cos_theta, refraction_ratio)
                    > draw {
                    unit_direction.reflect(&rec.normal)
                } else {
                    unit_direction.refract(&rec.normal, refraction_ratio)
                };
                Some(
                    ScatterRecord {
                        specular_ray: Some(Ray::new(rec.p, direction, ray_in.time())),
                        attenuation: Vec3::new(ONE, ONE, ONE),
                        pdf: None,
                    },
                )
            },
        }
    }

    /// The density the material's own generator uses: cosine over pi for
    /// Lambertian, uniform over the sphere for isotropic, zero elsewhere.
    pub fn scattering_pdf(&self, _ray_in: &Ray, rec: &HitRecord, scattered: &Ray) -> (r: i64)
        requires
            material_ok(*self),
            rec_ok(*rec),
            ray_ok(*scattered),
        ensures
            r == spec_scattering_pdf(*self, *rec, *scattered),
            fx_ok(r as int),
    {
        match self {
            Material::Lambertian(_) => {
                let cosine = rec.normal.dot(&scattered.direction().unit_vector());
                if cosine < 0 {
                    0
                } else {
                    fdiv(cosine, PI)
                }
            },
            Material::Isotropic(_) => fdiv(ONE, 4 * PI),
            _ => 0,
        }
    }

    /// Emitted radiance: a light texture on its front face, black elsewhere.
    pub fn emitted(&self, _ray_in: &Ray, rec: &HitRecord, u: i64, v: i64, p: &Vec3) -> (r: Vec3)
        requires
            material_ok(*self),
            fx_ok(u as int),
            fx_ok(v as int),
            vec_ok(*p),
        ensures
            r == spec_emitted(*self, *rec, u as int, v as int, *p),
            vec_ok(r),
    {
        match self {
            Material::DiffuseLight(dl) => {
                if rec.front_face {
                    dl.emit.value(u, v, p)
                } else {
                    Vec3::zero()
                }
            },
            _ => Vec3::zero(),
        }
    }
}

pub open spec fn spec_scattering_pdf(m: Material, rec: HitRecord, scattered: Ray) -> int {
    match m {
        Material::Lambertian(_) => {
            let cosine = spec_dot(rec.normal, spec_unit(scattered.dir));
            if cosine < 0 {
                0
            } else {
                spec_div(cosine, PI as int)
            }
        },
        Material::Isotropic(_) => spec_div(ONE as int, 4 * PI),
        _ => 0,
    }
}

pub open spec fn spec_emitted(m: Material, rec: HitRecord, u: int, v: int, p: Vec3) -> Vec3 {
    match m {
        Material::DiffuseLight(dl) => if rec.front_face {
            spec_texture_value(dl.emit, u, v, p)
        } else {
            Vec3 { x: 0i64, y: 0i64, z: 0i64 }
        },
        _ => Vec3 { x: 0i64, y: 0i64, z: 0i64 },
    }
}

} // verus!
