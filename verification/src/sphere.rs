//! Spheres, intersected by the analytic quadratic. A negative radius is
//! legal and flips the outward normal, giving a hollow shell.
use vstd::prelude::*;

verus! {

use crate::fixed::{
    fx_ok, spec_add, spec_sub, spec_mul, spec_div, spec_sqrt, spec_clamp, spec_atan2, spec_acos,
    fadd, fsub, fmul, fdiv, fsqrt, fclamp, fatan2, facos, ONE, PI, TWO_PI,
};
use crate::vec3::{Vec3, vec_ok, spec_v_sub, spec_v_div, spec_dot};
use crate::ray::{Ray, ray_ok, spec_at};
use crate::aabb::{AABB, aabb_ok};
use crate::hittable::{HitRecord, spec_front_face, spec_oriented, rec_ok};

#[derive(Clone, PartialEq, Eq, Structural, Debug)]
pub struct Sphere {
    pub center: Vec3,
    pub radius: i64,
    pub material: Option<usize>,
}

pub open spec fn sphere_ok(s: Sphere) -> bool {
    vec_ok(s.center) && fx_ok(s.radius as int)
}

/// The accepted root of the sphere quadratic: the nearer one if it lies in
/// [tmin, tmax], else the farther one, else nothing.
pub open spec fn spec_sphere_root(center: Vec3, radius: int, r: Ray, tmin: int, tmax: int) -> Option<
    int,
> {
    let oc = spec_v_sub(r.orig, center);
    let a = spec_dot(r.dir, r.dir);
    let half_b = spec_dot(oc, r.dir);
    let c = spec_sub(spec_dot(oc, oc), spec_mul(radius, radius));
    let disc = spec_sub(spec_mul(half_b, half_b), spec_mul(a, c));
    if disc < 0 {
        None
    } else {
        let sq = spec_sqrt(disc);
        let r1 = spec_div(spec_sub(-half_b, sq), a);
        if tmin <= r1 <= tmax {
            Some(r1)
        } else {
            let r2 = spec_div(spec_add(-half_b, sq), a);
            if tmin <= r2 <= tmax {
                Some(r2)
            } else {
                None
            }
        }
    }
}

/// Spherical surface coordinates of an outward normal, both in [0, ONE].
pub open spec fn spec_get_uv(p: Vec3) -> (int, int) {
    let phi = spec_add(spec_atan2(-(p.z as int), p.x as int), PI as int);
    let theta = spec_acos(-(p.y as int));
    (
        spec_clamp(spec_div(phi, TWO_PI as int), 0, ONE as int),
        spec_clamp(spec_div(theta, PI as int), 0, ONE as int),
    )
}

pub open spec fn spec_sphere_hit(s: Sphere, r: Ray, tmin: int, tmax: int) -> Option<HitRecord> {
    match spec_sphere_root(s.center, s.radius as int, r, tmin, tmax) {
        None => None,
        Some(root) => {
            let p = spec_at(r, root);
            let outward = spec_v_div(spec_v_sub(p, s.center), s.radius as int);
            let uv = spec_get_uv(outward);
            Some(
                HitRecord {
                    p,
                    normal: spec_oriented(r.dir, outward),
                    t: root as i64,
                    u: uv.0 as i64,
                    v: uv.1 as i64,
                    front_face: spec_front_face(r.dir, outward),
                    material: s.material,
                },
            )
        },
    }
}

/// The cube of half-width `radius` around the center.
pub open spec fn spec_sphere_box(center: Vec3, radius: int) -> AABB {
    AABB {
        minimum: Vec3 {
            x: spec_sub(center.x as int, radius) as i64,
            y: spec_sub(center.y as int, radius) as i64,
            z: spec_sub(center.z as int, radius) as i64,
        },
        maximum: Vec3 {
            x: spec_add(center.x as int, radius) as i64,
            y: spec_add(center.y as int, radius) as i64,
            z: spec_add(center.z as int, radius) as i64,
        },
    }
}

/// The exec root finder mirroring `spec_sphere_root`.
pub fn sphere_root(center: &Vec3, radius: i64, ray: &Ray, t_min: i64, t_max: i64) -> (r: Option<
    i64,
>)
    requires
        vec_ok(*center),
        fx_ok(radius as int),
        ray_ok(*ray),
    ensures
        match r {
            Some(t) => {
                &&& spec_sphere_root(*center, radius as int, *ray, t_min as int, t_max as int)
                    == Some(t as int)
                &&& t_min <= t <= t_max
                &&& fx_ok(t as int)
            },
            None => spec_sphere_root(*center, radius as int, *ray, t_min as int, t_max as int)
                is None,
        },
{
    let oc = ray.origin().sub(center);
    let a = ray.direction().length_squared();
    let half_b = oc.dot(&ray.direction());
    let c = fsub(oc.length_squared(), fmul(radius, radius));
    let disc = fsub(fmul(half_b, half_b), fmul(a, c));
    if disc < 0 {
        return None;
    }
    let sq = fsqrt(disc);
    let r1 = fdiv(fsub(-half_b, sq), a);
    if t_min <= r1 && r1 <= t_max {
        return Some(r1);
    }
    let r2 = fdiv(fadd(-half_b, sq), a);
    if t_min <= r2 && r2 <= t_max {
        return Some(r2);
    }
    None
}

/// Law: a successful sphere hit reports a parameter inside the queried
/// window, a point that is exactly the ray evaluated there, and a normal
/// oriented against the incoming ray (nonpositive fixed-point dot product).
pub proof fn lemma_sphere_hit_props(s: Sphere, r: Ray, tmin: int, tmax: int)
    requires
        sphere_ok(s),
        ray_ok(r),
    ensures
        match spec_sphere_hit(s, r, tmin, tmax) {
            Some(rec) => {
                &&& tmin <= rec.t <= tmax
                &&& rec.p == spec_at(r, rec.t as int)
                &&& spec_dot(r.dir, rec.normal) <= 0
                &&& rec.material == s.material
            },
            None => true,
        },
{
    match spec_sphere_root(s.center, s.radius as int, r, tmin, tmax) {
        Some(root) => {
            let p = spec_at(r, root);
            let outward = crate::vec3::spec_v_div(crate::vec3::spec_v_sub(p, s.center), s.radius as int);
            crate::hittable::lemma_oriented_against_ray(r.dir, outward);
        },
        None => {},
    }
}

impl Sphere {
    pub fn new(center: Vec3, radius: i64, material: Option<usize>) -> (r: Sphere)
        requires
            vec_ok(center),
            fx_ok(radius as int),
        ensures
            r == (Sphere { center, radius, material }),
            sphere_ok(r),
    {
        Sphere { center, radius, material }
    }

    /// Spherical (u, v) of an outward normal, via arctangent and arccosine.
    pub fn get_uv(p: &Vec3) -> (r: (i64, i64))
        requires
            vec_ok(*p),
        ensures
            (r.0 as int, r.1 as int) == spec_get_uv(*p),
            0 <= r.0 <= ONE,
            0 <= r.1 <= ONE,
    {
        let phi = fadd(fatan2(-p.z, p.x), PI);
        let theta = facos(-p.y);
        (fclamp(fdiv(phi, TWO_PI), 0, ONE), fclamp(fdiv(theta, PI), 0, ONE))
    }

    pub fn hit(&self, ray: &Ray, t_min: i64, t_max: i64) -> (r: Option<HitRecord>)
        requires
            sphere_ok(*self),
            ray_ok(*ray),
        ensures
            r == spec_sphere_hit(*self, *ray, t_min as int, t_max as int),
            match r {
                Some(rec) => rec_ok(rec) && t_min <= rec.t <= t_max,
                None => true,
            },
    {
        match sphere_root(&self.center, self.radius, ray, t_min, t_max) {
            None => None,
            Some(root) => {
                let p = ray.at(root);
                let outward = p.sub(&self.center).div(self.radius);
                let uv = Sphere::get_uv(&outward);
                let mut rec = HitRecord {
                    p,
                    normal: outward,
                    t: root,
                    u: uv.0,
                    v: uv.1,
                    front_face: false,
                    material: self.material,
                };
                rec.set_face_normal(ray, outward);
                Some(rec)
            },
        }
    }

    pub fn bounding_box(&self, _time0: i64, _time1: i64) -> (r: Option<AABB>)
        requires
            sphere_ok(*self),
        ensures
            r == Some(spec_sphere_box(self.center, self.radius as int)),
            aabb_ok(r->Some_0),
    {
        let rv = Vec3::new(self.radius, self.radius, self.radius);
        Some(AABB::new(self.center.sub(&rv), self.center.add(&rv)))
    }
}

} // verus!
