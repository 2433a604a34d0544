//! A Monte-Carlo path tracer over fixed-point arithmetic: scenes of
//! spheres, rectangles, boxes, volumes and transform wrappers, accelerated
//! by a bounding volume hierarchy, shaded by importance-sampled materials.
//!
//! Scalars are `i64` values scaled by `fixed::ONE`; every numeric routine
//! carries an exact mathematical mirror of what it computes.
use vstd::prelude::*;

pub mod aabb;
pub mod block_box;
pub mod bvh_node;
pub mod constant_medium;
pub mod fixed;
pub mod flip_face;
pub mod hittable;
pub mod hittable_list;
pub mod material;
pub mod moving_sphere;
pub mod onb;
pub mod pdf;
pub mod perlin;
pub mod ray;
pub mod rect;
pub mod rng;
pub mod rotate;
pub mod sphere;
pub mod texture;
pub mod translate;
pub mod vec3;

pub use crate::aabb::AABB;
pub use crate::block_box::BlockBox;
pub use crate::bvh_node::BvhNode;
pub use crate::constant_medium::ConstantMedium;
pub use crate::fixed::{ONE, PI, SAT};
pub use crate::flip_face::FlipFace;
pub use crate::hittable::{HitRecord, Hittable, T_EPS};
pub use crate::hittable_list::HittableList;
pub use crate::material::{
    Dielectric, DiffuseLight, EmptyMaterial, Isotropic, Lambertian, Material, Metal, ScatterRecord,
};
pub use crate::moving_sphere::MovingSphere;
pub use crate::onb::Onb;
pub use crate::pdf::{CosinePdf, HittablePdf, MixturePdf, Pdf, SpherePdf};
pub use crate::perlin::Perlin;
pub use crate::ray::Ray;
pub use crate::rect::{random_range, XyRect, XzRect, YzRect};
pub use crate::rotate::{RotateX, RotateY, RotateZ};
pub use crate::sphere::Sphere;
pub use crate::texture::{CheckerTexture, ImageTexture, NoiseTexture, SolidColor, Texture};
pub use crate::translate::Translate;
pub use crate::vec3::Vec3;

verus! {

use crate::fixed::{
    fx_ok, spec_sub, spec_mul, spec_div, spec_sqrt, spec_clamp, div_floor, div_floor_i128,
    lemma_div_floor_pos, fsub, fmul, fdiv, fsqrt,
};
use crate::vec3::{vec_ok, spec_dot, spec_v_sub, spec_v_add};
use crate::ray::ray_ok;
use crate::hittable::{hittable_ok, no_medium, spec_hit};
use crate::material::{arena_ok, spec_emitted};

/// The standalone first-root query against a lone sphere.
pub open spec fn spec_hit_sphere(center: Vec3, radius: int, ray: Ray) -> Option<int> {
    let oc = spec_v_sub(ray.orig, center);
    let a = spec_dot(ray.dir, ray.dir);
    let half_b = spec_dot(oc, ray.dir);
    let c = spec_sub(spec_dot(oc, oc), spec_mul(radius, radius));
    let disc = spec_sub(spec_mul(half_b, half_b), spec_mul(a, c));
    if disc < 0 {
        None
    } else {
        Some(spec_div(spec_sub(-half_b, spec_sqrt(disc)), a))
    }
}

/// The nearer root of the sphere quadratic, if the ray meets the sphere.
pub fn hit_sphere(center: &Vec3, radius: i64, ray: &Ray) -> (r: Option<i64>)
    requires
        vec_ok(*center),
        fx_ok(radius as int),
        ray_ok(*ray),
    ensures
        match r {
            Some(t) => spec_hit_sphere(*center, radius as int, *ray) == Some(t as int) && fx_ok(
                t as int,
            ),
            None => spec_hit_sphere(*center, radius as int, *ray) is None,
        },
{
    let oc = ray.origin().sub(center);
    let a = ray.direction().length_squared();
    let half_b = oc.dot(&ray.direction());
    let c = fsub(oc.length_squared(), fmul(radius, radius));
    let disc = fsub(fmul(half_b, half_b), fmul(a, c));
    if disc < 0 {
        None
    } else {
        Some(fdiv(fsub(-half_b, fsqrt(disc)), a))
    }
}

/// The recursive radiance estimate along a ray.
///
/// An exhausted depth is black; a miss is the background; an emitter or
/// absorber ends the path with its emission; a specular scatter recurses
/// deterministically; a diffuse scatter draws its direction from an even
/// mixture of the light-sampling density and the material's own density,
/// weighting the recursion by the material's density over the mixture's.
pub fn ray_color(
    ray: &Ray,
    background: &Vec3,
    world: &Hittable,
    lights: &Hittable,
    materials: &Vec<Material>,
    depth: i32,
    rng: &mut rand::rngs::StdRng,
) -> (r: Vec3)
    requires
        ray_ok(*ray),
        vec_ok(*background),
        hittable_ok(*world),
        hittable_ok(*lights),
        arena_ok(*materials),
    ensures
        vec_ok(r),
        depth <= 0 ==> r == (Vec3 { x: 0i64, y: 0i64, z: 0i64 }),
        (depth > 0 && no_medium(*world)) ==> (match spec_hit(
            *world,
            *ray,
            T_EPS as int,
            SAT as int,
        ) {
            None => r == *background,
            Some(rec) => {
                &&& (rec.material is None ==> r == (Vec3 { x: 0i64, y: 0i64, z: 0i64 }))
                &&& (match rec.material {
                    Some(id) => {
                        &&& (id >= materials@.len() ==> r == (Vec3 {
                            x: 0i64,
                            y: 0i64,
                            z: 0i64,
                        }))
                        &&& (id < materials@.len() && (materials@[id as int] is DiffuseLight
                            || materials@[id as int] is Empty) ==> r == spec_emitted(
                            materials@[id as int],
                            rec,
                            rec.u as int,
                            rec.v as int,
                            rec.p,
                        ))
                        &&& (id < materials@.len() && depth == 1 && (materials@[id as int]
                            is Lambertian || materials@[id as int] is Isotropic) ==> r == (Vec3 {
                            x: 0i64,
                            y: 0i64,
                            z: 0i64,
                        }))
                    },
                    None => true,
                })
            },
        }),
    decreases depth,
{
    if depth <= 0 {
        return Vec3::zero();
    }
    let rec = match world.hit(rng, ray, T_EPS, SAT) {
        None => {
            return *background;
        },
        Some(rec) => rec,
    };
    let mat_id = match rec.material {
        Some(id) => id,
        None => {
            return Vec3::zero();
        },
    };
    if mat_id >= materials.len() {
        return Vec3::zero();
    }
    let mat = &materials[mat_id];
    let emitted = mat.emitted(ray, &rec, rec.u, rec.v, &rec.p);
    let srec = match mat.scatter(rng, ray, &rec) {
        None => {
            return emitted;
        },
        Some(s) => s,
    };
    match srec.specular_ray {
        Some(specular) => {
            let follow = ray_color(&specular, background, world, lights, materials, depth - 1, rng);
            return emitted.add(&srec.attenuation.mul(&follow));
        },
        None => {},
    }
    let mat_pdf = match srec.pdf {
        Some(p) => p,
        None => {
            return emitted;
        },
    };
    let light_pdf = Pdf::Hittable(HittablePdf::new(lights, rec.p));
    let mixed = MixturePdf::new(&light_pdf, &mat_pdf);
    let scattered = Ray::new(rec.p, mixed.generate(rng), ray.time());
    let pdf_val = mixed.value(&scattered.direction());
    let spdf = mat.scattering_pdf(ray, &rec, &scattered);
    let follow = ray_color(&scattered, background, world, lights, materials, depth - 1, rng);
    let scaled = srec.attenuation.scale(spdf);
    let contribution = scaled.mul(&follow).div(pdf_val);
    let result = emitted.add(&contribution);
    proof {
        crate::vec3::lemma_black_propagates(scaled, emitted, pdf_val as int);
    }
    result
}

/// The n-fold saturating accumulation of the background color: what a
/// pixel holds when all its samples miss.
pub open spec fn spec_bg_sum(bg: Vec3, n: int) -> Vec3
    decreases n,
{
    if n <= 0 {
        Vec3 { x: 0i64, y: 0i64, z: 0i64 }
    } else {
        spec_v_add(spec_bg_sum(bg, n - 1), bg)
    }
}

/// Accumulate radiance per pixel: each consecutive group of
/// `samples_per_pixel` rays is one pixel's samples, summed, not averaged.
/// A pixel whose samples all miss a medium-free world is exactly the
/// accumulated background.
pub fn render(
    world: &Hittable,
    lights: &Hittable,
    materials: &Vec<Material>,
    background: &Vec3,
    rays: &Vec<Ray>,
    samples_per_pixel: u32,
    max_depth: i32,
    rng: &mut rand::rngs::StdRng,
) -> (r: Vec<Vec3>)
    requires
        hittable_ok(*world),
        hittable_ok(*lights),
        arena_ok(*materials),
        vec_ok(*background),
        samples_per_pixel >= 1,
        forall|i: int| 0 <= i < rays@.len() ==> ray_ok(#[trigger] rays@[i]),
    ensures
        r@.len() == rays@.len() as int / samples_per_pixel as int,
        forall|i: int| 0 <= i < r@.len() ==> vec_ok(#[trigger] r@[i]),
        forall|i: int|
            0 <= i < r@.len() && max_depth > 0 && no_medium(*world) && (forall|q: int|
                0 <= q < samples_per_pixel ==> spec_hit(
                    *world,
                    #[trigger] rays@[i * (samples_per_pixel as int) + q],
                    T_EPS as int,
                    SAT as int,
                ) is None) ==> #[trigger] r@[i] == spec_bg_sum(
                *background,
                samples_per_pixel as int,
            ),
{
    let spp = samples_per_pixel as usize;
    let n_rays = rays.len();
    let pixels = n_rays / spp;
    proof {
        lemma_div_floor_pos(rays@.len() as int, spp as int);
    }
    let mut image: Vec<Vec3> = Vec::new();
    let mut i: usize = 0;
    while i < pixels
        invariant
            hittable_ok(*world),
            hittable_ok(*lights),
            arena_ok(*materials),
            vec_ok(*background),
            spp >= 1,
            forall|k: int| 0 <= k < rays@.len() ==> ray_ok(#[trigger] rays@[k]),
            pixels == rays@.len() as int / spp as int,
            spp as int * pixels as int <= n_rays,
            n_rays == rays@.len(),
            0 <= i <= pixels,
            image@.len() == i,
            spp == samples_per_pixel,
            forall|k: int| 0 <= k < image@.len() ==> vec_ok(#[trigger] image@[k]),
            forall|k: int|
                0 <= k < image@.len() && max_depth > 0 && no_medium(*world) && (forall|q: int|
                    0 <= q < spp ==> spec_hit(
                        *world,
                        #[trigger] rays@[k * (spp as int) + q],
                        T_EPS as int,
                        SAT as int,
                    ) is None) ==> #[trigger] image@[k] == spec_bg_sum(*background, spp as int),
        decreases pixels - i,
    {
        let mut color = Vec3::zero();
        let mut s: usize = 0;
        while s < spp
            invariant
                hittable_ok(*world),
                hittable_ok(*lights),
                arena_ok(*materials),
                vec_ok(*background),
                spp >= 1,
                forall|k: int| 0 <= k < rays@.len() ==> ray_ok(#[trigger] rays@[k]),
                spp as int * pixels as int <= n_rays,
                n_rays == rays@.len(),
                0 <= i < pixels,
                0 <= s <= spp,
                vec_ok(color),
                (max_depth > 0 && no_medium(*world) && (forall|q: int|
                    0 <= q < s ==> spec_hit(
                        *world,
                        #[trigger] rays@[i * (spp as int) + q],
                        T_EPS as int,
                        SAT as int,
                    ) is None)) ==> color == spec_bg_sum(*background, s as int),
            decreases spp - s,
        {
            proof {
                assert(i as int * spp as int + s < spp as int * pixels as int) by (nonlinear_arith)
                    requires
                        0 <= i < pixels as int,
                        0 <= s < spp as int,
                ;
                assert(i as int * spp as int + s >= 0) by (nonlinear_arith)
                    requires
                        0 <= i,
                        0 <= s,
                        0 <= spp,
                ;
            }
            let idx = i * spp + s;
            let ghost old_color = color;
            let ghost old_s = s as int;
            let sample = ray_color(&rays[idx], background, world, lights, materials, max_depth, rng);
            color = color.add(&sample);
            s = s + 1;
            proof {
                assert(idx as int == i as int * (spp as int) + old_s);
                if max_depth > 0 && no_medium(*world) && (forall|q: int|
                    0 <= q < s ==> spec_hit(
                        *world,
                        #[trigger] rays@[i as int * (spp as int) + q],
                        T_EPS as int,
                        SAT as int,
                    ) is None) {
                    assert(spec_hit(*world, rays@[idx as int], T_EPS as int, SAT as int) is None);
                    assert(sample == *background);
                    assert(old_color == spec_bg_sum(*background, old_s));
                    assert(color == spec_bg_sum(*background, s as int));
                }
            }
        }
        image.push(color);
        i = i + 1;
    }
    image
}

/// Elementwise sum of two per-pixel accumulators.
pub fn combine_images(a: &Vec<Vec3>, b: &Vec<Vec3>) -> (r: Vec<Vec3>)
    requires
        a@.len() == b@.len(),
        forall|i: int| 0 <= i < a@.len() ==> vec_ok(#[trigger] a@[i]),
        forall|i: int| 0 <= i < b@.len() ==> vec_ok(#[trigger] b@[i]),
    ensures
        r@.len() == a@.len(),
        forall|i: int| 0 <= i < r@.len() ==> #[trigger] r@[i] == spec_v_add(a@[i], b@[i]),
        forall|i: int| 0 <= i < r@.len() ==> vec_ok(#[trigger] r@[i]),
{
    let mut out: Vec<Vec3> = Vec::new();
    let mut i: usize = 0;
    while i < a.len()
        invariant
            a@.len() == b@.len(),
            forall|k: int| 0 <= k < a@.len() ==> vec_ok(#[trigger] a@[k]),
            forall|k: int| 0 <= k < b@.len() ==> vec_ok(#[trigger] b@[k]),
            0 <= i <= a@.len(),
            out@.len() == i,
            forall|k: int| 0 <= k < out@.len() ==> #[trigger] out@[k] == spec_v_add(a@[k], b@[k]),
            forall|k: int| 0 <= k < out@.len() ==> vec_ok(#[trigger] out@[k]),
        decreases a@.len() - i,
    {
        out.push(a[i].add(&b[i]));
        i = i + 1;
    }
    out
}

/// Law: combining accumulators is commutative, so the order worker results
/// are merged in cannot change the image.
pub proof fn lemma_combine_commutes(a: Vec3, b: Vec3)
    ensures
        spec_v_add(a, b) == spec_v_add(b, a),
{
}

/// Law: combining accumulators is associative as long as the running sums
/// stay representable, so grouping worker results cannot change the image
/// either. (At the saturation bound the grouping can matter, which is why
/// the hypothesis is needed.)
pub proof fn lemma_combine_associates(a: Vec3, b: Vec3, c: Vec3)
    requires
        fx_ok(a.x + b.x + c.x) && fx_ok(a.y + b.y + c.y) && fx_ok(a.z + b.z + c.z),
        fx_ok(a.x + b.x) && fx_ok(a.y + b.y) && fx_ok(a.z + b.z),
        fx_ok(b.x + c.x) && fx_ok(b.y + c.y) && fx_ok(b.z + c.z),
    ensures
        spec_v_add(spec_v_add(a, b), c) == spec_v_add(a, spec_v_add(b, c)),
{
}

/// One channel's tone mapping: average over the samples, gamma-correct by
/// square root, scale to the byte range and clamp.
pub open spec fn spec_rgb_byte(c: int, total_samples: int) -> int {
    let lin = spec_div(c, total_samples * fixed::ONE);
    let g = spec_sqrt(lin);
    spec_clamp(div_floor(spec_mul(g, 16777150), fixed::ONE as int), 0, 255)
}

fn rgb_byte(c: i64, divisor: i64, Ghost(total): Ghost<int>) -> (r: u8)
    requires
        fx_ok(c as int),
        fx_ok(divisor as int),
        divisor == total * fixed::ONE,
        divisor > 0,
    ensures
        r == spec_rgb_byte(c as int, total),
{
    let g = fsqrt(fdiv(c, divisor));
    let scaled = fmul(g, 16777150);
    proof {
        lemma_div_floor_pos(scaled as int, fixed::ONE as int);
    }
    let byte_val = div_floor_i128(scaled as i128, 65536);
    let clamped: i128 = if byte_val < 0 {
        0
    } else if byte_val > 255 {
        255
    } else {
        byte_val
    };
    clamped as u8
}

/// Tone-map an accumulated image into packed RGB bytes: each channel is
/// divided by the total sample count, gamma corrected by square root, and
/// quantized to 8 bits.
pub fn to_rgb_bytes(image: &Vec<Vec3>, total_samples: u32) -> (r: Vec<u8>)
    requires
        forall|i: int| 0 <= i < image@.len() ==> vec_ok(#[trigger] image@[i]),
        1 <= total_samples <= 32767,
    ensures
        r@.len() == 3 * image@.len(),
        forall|i: int|
            0 <= i < image@.len() ==> r@[3 * i] == spec_rgb_byte(
                (#[trigger] image@[i]).x as int,
                total_samples as int,
            ) && r@[3 * i + 1] == spec_rgb_byte(image@[i].y as int, total_samples as int) && r@[3
                * i + 2] == spec_rgb_byte(image@[i].z as int, total_samples as int),
{
    let divisor = (total_samples as i64) * fixed::ONE;
    proof {
        assert(divisor as int % fixed::ONE as int == 0) by (nonlinear_arith)
            requires
                divisor == total_samples as int * fixed::ONE as int,
        ;
        assert(divisor as int / fixed::ONE as int == total_samples as int) by {
            vstd::arithmetic::div_mod::lemma_div_multiples_vanish(
                total_samples as int,
                fixed::ONE as int,
            );
        }
    }
    let mut out: Vec<u8> = Vec::new();
    let mut i: usize = 0;
    while i < image.len()
        invariant
            forall|k: int| 0 <= k < image@.len() ==> vec_ok(#[trigger] image@[k]),
            1 <= total_samples <= 32767,
            divisor == total_samples as i64 * fixed::ONE,
            divisor as int % fixed::ONE as int == 0,
            divisor as int / fixed::ONE as int == total_samples as int,
            fx_ok(divisor as int),
            0 <= i <= image@.len(),
            out@.len() == 3 * i,
            forall|k: int|
                0 <= k < i ==> out@[3 * k] == spec_rgb_byte(
                    (#[trigger] image@[k]).x as int,
                    total_samples as int,
                ) && out@[3 * k + 1] == spec_rgb_byte(image@[k].y as int, total_samples as int)
                    && out@[3 * k + 2] == spec_rgb_byte(image@[k].z as int, total_samples as int),
        decreases image@.len() - i,
    {
        let px = image[i];
        out.push(rgb_byte(px.x, divisor, Ghost(total_samples as int)));
        out.push(rgb_byte(px.y, divisor, Ghost(total_samples as int)));
        out.push(rgb_byte(px.z, divisor, Ghost(total_samples as int)));
        i = i + 1;
    }
    out
}

} // verus!
