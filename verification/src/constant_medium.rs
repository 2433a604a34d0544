//! A homogeneous participating volume: rays entering its boundary scatter
//! after an exponentially drawn free-flight distance, or pass through.
use vstd::prelude::*;

verus! {

use crate::fixed::{
    fx_ok, spec_add, spec_sub, spec_mul, spec_div, spec_min, spec_max, spec_clamp, div_floor,
    fadd, fsub, fmul, fdiv, fmin, fmax, fclamp, ONE, SAT,
};
use crate::vec3::{Vec3, spec_length};
use crate::ray::{Ray, ray_ok, spec_at};
use crate::hittable::{Hittable, HitRecord, rec_ok};

/// The offset past the entry hit used to find the exit hit.
pub const MEDIUM_EPS: i64 = 7;

#[derive(PartialEq, Eq, Debug)]
pub struct ConstantMedium {
    pub boundary: Box<Hittable>,
    pub phase_material: usize,
    pub neg_inv_density: i64,
}

impl ConstantMedium {
    /// The phase material is the handle of the isotropic material the caller
    /// registered for this medium.
    pub fn new(boundary: Box<Hittable>, density: i64, phase_material: usize) -> (r: ConstantMedium)
        requires
            fx_ok(density as int),
        ensures
            r.boundary == boundary,
            r.phase_material == phase_material,
            r.neg_inv_density as int == -spec_div(ONE as int, density as int),
            fx_ok(r.neg_inv_density as int),
    {
        let inv = fdiv(ONE, density);
        ConstantMedium { boundary, phase_material, neg_inv_density: -inv }
    }
}

/// Given the boundary's entry and exit parameters, whether and where the
/// medium scatters: the entry is clamped into the query window, a free-flight
/// distance is taken from the drawn logarithm, and the scatter point is the
/// entry advanced by that distance, kept inside the traversed segment.
pub open spec fn spec_medium_scatter(
    nid: int,
    phase: usize,
    ray: Ray,
    r1t: int,
    r2t: int,
    tmin: int,
    tmax: int,
    ln_draw: int,
) -> Option<HitRecord> {
    let t1 = spec_max(r1t, tmin);
    let t2 = spec_min(r2t, tmax);
    if t1 >= t2 {
        None
    } else {
        let t1c = spec_max(t1, 0);
        let len = spec_length(ray.dir);
        let dist = spec_mul(spec_sub(t2, t1c), len);
        let hd = spec_mul(nid, ln_draw);
        if hd > dist {
            None
        } else {
            let t = spec_clamp(spec_add(t1c, spec_div(hd, len)), t1, t2);
            Some(
                HitRecord {
                    p: spec_at(ray, t as i64 as int),
                    normal: Vec3 { x: ONE, y: 0i64, z: 0i64 },
                    t: t as i64,
                    u: 0i64,
                    v: 0i64,
                    front_face: true,
                    material: Some(phase),
                },
            )
        }
    }
}

/// Exec twin of `spec_medium_scatter`.
pub fn medium_scatter(
    nid: i64,
    phase: usize,
    ray: &Ray,
    r1t: i64,
    r2t: i64,
    t_min: i64,
    t_max: i64,
    ln_draw: i64,
) -> (r: Option<HitRecord>)
    requires
        fx_ok(nid as int),
        ray_ok(*ray),
        fx_ok(r1t as int),
        fx_ok(r2t as int),
        fx_ok(t_min as int),
        fx_ok(t_max as int),
        fx_ok(ln_draw as int),
    ensures
        r == spec_medium_scatter(
            nid as int,
            phase,
            *ray,
            r1t as int,
            r2t as int,
            t_min as int,
            t_max as int,
            ln_draw as int,
        ),
        match r {
            Some(rec) => rec_ok(rec) && t_min <= rec.t <= t_max,
            None => true,
        },
{
    let t1 = fmax(r1t, t_min);
    let t2 = fmin(r2t, t_max);
    if t1 >= t2 {
        return None;
    }
    let t1c = fmax(t1, 0);
    let len = ray.direction().length();
    let dist = fmul(fsub(t2, t1c), len);
    let hd = fmul(nid, ln_draw);
    if hd > dist {
        return None;
    }
    let t = fclamp(fadd(t1c, fdiv(hd, len)), t1, t2);
    let p = ray.at(t);
    Some(
        HitRecord {
            p,
            normal: Vec3::new(ONE, 0, 0),
            t,
            u: 0,
            v: 0,
            front_face: true,
            material: Some(phase),
        },
    )
}

/// Law: at the infinite-density limit (where the stored negated inverse
/// density vanishes) a ray traversing the boundary scatters immediately at
/// its clamped entry point.
pub proof fn lemma_medium_infinite_density(
    phase: usize,
    ray: Ray,
    r1t: int,
    r2t: int,
    tmin: int,
    tmax: int,
    ln_draw: int,
)
    requires
        crate::ray::ray_ok(ray),
        fx_ok(r1t),
        fx_ok(r2t),
        fx_ok(tmin),
        fx_ok(tmax),
        spec_max(r1t, tmin) < spec_min(r2t, tmax),
        spec_min(r2t, tmax) >= 0,
    ensures
        match spec_medium_scatter(0, phase, ray, r1t, r2t, tmin, tmax, ln_draw) {
            Some(rec) => rec.t == spec_max(spec_max(r1t, tmin), 0),
            None => false,
        },
{
    let t1 = spec_max(r1t, tmin);
    let t2 = spec_min(r2t, tmax);
    let t1c = spec_max(t1, 0);
    let len = spec_length(ray.dir);
    crate::fixed::lemma_sqrt_nonneg(crate::vec3::spec_dot(ray.dir, ray.dir));
    crate::fixed::lemma_mul_nonneg(t2 - t1c, len);
    assert(spec_mul(0, ln_draw) == 0) by {
        assert(0 * ln_draw == 0) by (nonlinear_arith);
        crate::fixed::lemma_div_floor_pos(0, ONE as int);
        vstd::arithmetic::div_mod::lemma_basic_div(0int, ONE as int);
    }
    assert(spec_mul(spec_sub(t2, t1c), len) >= 0) by {
        assert(spec_sub(t2, t1c) == t2 - t1c);
    }
    assert(spec_div(0, len) == 0) by {
        if len != 0 {
            crate::fixed::lemma_div_floor_pos(0, if len > 0 {
                len
            } else {
                -len
            });
            vstd::arithmetic::div_mod::lemma_basic_div(0int, if len > 0 {
                len
            } else {
                -len
            });
        }
    }
}

/// Law: at a vanishing density (a stored negated inverse density so large
/// that the free-flight distance must exceed the traversed segment) the
/// medium never scatters: the ray passes through to the boundary's exit.
pub proof fn lemma_medium_vanishing_density(
    nid: int,
    phase: usize,
    ray: Ray,
    r1t: int,
    r2t: int,
    tmin: int,
    tmax: int,
    ln_draw: int,
    d: int,
)
    requires
        nid < 0,
        ln_draw <= -1,
        d == spec_mul(
            spec_sub(spec_min(r2t, tmax), spec_max(spec_max(r1t, tmin), 0)),
            spec_length(ray.dir),
        ),
        d < SAT,
        -nid >= (d + 2) * ONE,
    ensures
        spec_medium_scatter(nid, phase, ray, r1t, r2t, tmin, tmax, ln_draw) is None,
{
    let t1 = spec_max(r1t, tmin);
    let t2 = spec_min(r2t, tmax);
    if t1 >= t2 {
    } else {
        let prod = nid * ln_draw;
        assert(nid * ln_draw >= -nid) by (nonlinear_arith)
            requires
                nid < 0,
                ln_draw <= -1,
        ;
        crate::fixed::lemma_div_floor_pos(prod, ONE as int);
        crate::fixed::lemma_div_floor_pos((d + 2) * ONE, ONE as int);
        vstd::arithmetic::div_mod::lemma_div_is_ordered((d + 2) * ONE, prod, ONE as int);
        vstd::arithmetic::div_mod::lemma_div_multiples_vanish(d + 2, ONE as int);
        assert((d + 2) * ONE == (ONE as int) * (d + 2)) by (nonlinear_arith);
        assert(div_floor(prod, ONE as int) >= d + 2);
        assert(spec_mul(nid, ln_draw) > d);
    }
}

} // verus!
