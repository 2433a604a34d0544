//! Axis-aligned rectangles in the three orientations. Each intersects the
//! ray with its fixed-coordinate plane, and the light variants also report a
//! solid-angle density and sample directions toward themselves.
use vstd::prelude::*;

verus! {

use crate::fixed::{
    fx_ok, spec_add, spec_sub, spec_mul, spec_div, abs_i, fadd, fsub, fmul, fdiv, fabs,
    lemma_mul_by_unit, lemma_mul_nonneg, lemma_mul_nonneg_nonpos, ONE, SAT,
};
use crate::vec3::{Vec3, vec_ok, spec_dot, spec_v_sub};
use crate::ray::{Ray, ray_ok, spec_at};
use crate::aabb::{AABB, aabb_ok};
use crate::hittable::{HitRecord, spec_front_face, spec_oriented, rec_ok, T_EPS};
use crate::rng::rng_unit;

/// The thickness padding of a rectangle's bounding box along its fixed axis.
pub const RECT_PAD: i64 = 7;

/// A scalar drawn uniformly from [start, end); for a reversed range the
/// draw lands between the saturated far end and the start.
pub fn random_range(rng: &mut rand::rngs::StdRng, start: i64, end: i64) -> (r: i64)
    requires
        fx_ok(start as int),
        fx_ok(end as int),
    ensures
        fx_ok(r as int),
        start <= end ==> start <= r && r as int <= spec_add(start as int, spec_sub(end as int, start as int)),
        start > end ==> spec_add(start as int, spec_sub(end as int, start as int)) <= r && r <= start,
{
    let u = rng_unit(rng);
    let span = fsub(end, start);
    let step = fmul(u, span);
    proof {
        lemma_mul_by_unit(span as int, u as int);
        assert((u as int) * (span as int) == (span as int) * (u as int)) by (nonlinear_arith);
        assert(spec_mul(u as int, span as int) == spec_mul(span as int, u as int));
        if start <= end {
            lemma_mul_nonneg(u as int, span as int);
            assert(0 <= step <= span);
        } else {
            lemma_mul_nonneg_nonpos(u as int, span as int);
            assert(span <= step <= 0);
        }
    }
    fadd(start, step)
}

#[derive(Clone, PartialEq, Eq, Debug)]
pub struct XyRect {
    pub x0: i64,
    pub x1: i64,
    pub y0: i64,
    pub y1: i64,
    pub k: i64,
    pub material: usize,
}

#[derive(Clone, PartialEq, Eq, Debug)]
pub struct XzRect {
    pub x0: i64,
    pub x1: i64,
    pub z0: i64,
    pub z1: i64,
    pub k: i64,
    pub material: usize,
}

#[derive(Clone, PartialEq, Eq, Debug)]
pub struct YzRect {
    pub y0: i64,
    pub y1: i64,
    pub z0: i64,
    pub z1: i64,
    pub k: i64,
    pub material: usize,
}

pub open spec fn xy_rect_ok(rc: XyRect) -> bool {
    fx_ok(rc.x0 as int) && fx_ok(rc.x1 as int) && fx_ok(rc.y0 as int) && fx_ok(rc.y1 as int)
        && fx_ok(rc.k as int)
}

pub open spec fn xz_rect_ok(rc: XzRect) -> bool {
    fx_ok(rc.x0 as int) && fx_ok(rc.x1 as int) && fx_ok(rc.z0 as int) && fx_ok(rc.z1 as int)
        && fx_ok(rc.k as int)
}

pub open spec fn yz_rect_ok(rc: YzRect) -> bool {
    fx_ok(rc.y0 as int) && fx_ok(rc.y1 as int) && fx_ok(rc.z0 as int) && fx_ok(rc.z1 as int)
        && fx_ok(rc.k as int)
}

/// The shared plane-intersection shape: the plane parameter, the two in-plane
/// coordinates, and the record they produce when inside the extent.
pub open spec fn spec_plane_hit(
    a0: int,
    a1: int,
    b0: int,
    b1: int,
    k: int,
    oc: int,
    dc: int,
    oa: int,
    da: int,
    ob: int,
    db: int,
    tmin: int,
    tmax: int,
) -> Option<(int, int, int)> {
    let t = spec_div(spec_sub(k, oc), dc);
    if t < tmin || t > tmax {
        None
    } else {
        let a = spec_add(oa, spec_mul(t, da));
        let b = spec_add(ob, spec_mul(t, db));
        if a < a0 || a > a1 || b < b0 || b > b1 {
            None
        } else {
            let u = spec_div(spec_sub(a, a0), spec_sub(a1, a0));
            let v = spec_div(spec_sub(b, b0), spec_sub(b1, b0));
            Some((t, u, v))
        }
    }
}

/// Exec twin of `spec_plane_hit`.
fn plane_hit(
    a0: i64,
    a1: i64,
    b0: i64,
    b1: i64,
    k: i64,
    oc: i64,
    dc: i64,
    oa: i64,
    da: i64,
    ob: i64,
    db: i64,
    t_min: i64,
    t_max: i64,
) -> (r: Option<(i64, i64, i64)>)
    requires
        fx_ok(a0 as int),
        fx_ok(a1 as int),
        fx_ok(b0 as int),
        fx_ok(b1 as int),
        fx_ok(k as int),
        fx_ok(oc as int),
        fx_ok(dc as int),
        fx_ok(oa as int),
        fx_ok(da as int),
        fx_ok(ob as int),
        fx_ok(db as int),
    ensures
        match r {
            Some(tuv) => {
                &&& spec_plane_hit(
                    a0 as int,
                    a1 as int,
                    b0 as int,
                    b1 as int,
                    k as int,
                    oc as int,
                    dc as int,
                    oa as int,
                    da as int,
                    ob as int,
                    db as int,
                    t_min as int,
                    t_max as int,
                ) == Some((tuv.0 as int, tuv.1 as int, tuv.2 as int))
                &&& t_min <= tuv.0 <= t_max
                &&& fx_ok(tuv.0 as int) && fx_ok(tuv.1 as int) && fx_ok(tuv.2 as int)
            },
            None => spec_plane_hit(
                a0 as int,
                a1 as int,
                b0 as int,
                b1 as int,
                k as int,
                oc as int,
                dc as int,
                oa as int,
                da as int,
                ob as int,
                db as int,
                t_min as int,
                t_max as int,
            ) is None,
        },
{
    let t = fdiv(fsub(k, oc), dc);
    if t < t_min || t > t_max {
        return None;
    }
    let a = fadd(oa, fmul(t, da));
    let b = fadd(ob, fmul(t, db));
    if a < a0 || a > a1 || b < b0 || b > b1 {
        return None;
    }
    let u = fdiv(fsub(a, a0), fsub(a1, a0));
    let v = fdiv(fsub(b, b0), fsub(b1, b0));
    Some((t, u, v))
}

pub open spec fn spec_xy_hit(rc: XyRect, r: Ray, tmin: int, tmax: int) -> Option<HitRecord> {
    let outward = Vec3 { x: 0i64, y: 0i64, z: ONE };
    match spec_plane_hit(
        rc.x0 as int,
        rc.x1 as int,
        rc.y0 as int,
        rc.y1 as int,
        rc.k as int,
        r.orig.z as int,
        r.dir.z as int,
        r.orig.x as int,
        r.dir.x as int,
        r.orig.y as int,
        r.dir.y as int,
        tmin,
        tmax,
    ) {
        None => None,
        Some(tuv) => Some(
            HitRecord {
                p: spec_at(r, tuv.0),
                normal: spec_oriented(r.dir, outward),
                t: tuv.0 as i64,
                u: tuv.1 as i64,
                v: tuv.2 as i64,
                front_face: spec_front_face(r.dir, outward),
                material: Some(rc.material),
            },
        ),
    }
}

pub open spec fn spec_xz_hit(rc: XzRect, r: Ray, tmin: int, tmax: int) -> Option<HitRecord> {
    let outward = Vec3 { x: 0i64, y: ONE, z: 0i64 };
    match spec_plane_hit(
        rc.x0 as int,
        rc.x1 as int,
        rc.z0 as int,
        rc.z1 as int,
        rc.k as int,
        r.orig.y as int,
        r.dir.y as int,
        r.orig.x as int,
        r.dir.x as int,
        r.orig.z as int,
        r.dir.z as int,
        tmin,
        tmax,
    ) {
        None => None,
        Some(tuv) => Some(
            HitRecord {
                p: spec_at(r, tuv.0),
                normal: spec_oriented(r.dir, outward),
                t: tuv.0 as i64,
                u: tuv.1 as i64,
                v: tuv.2 as i64,
                front_face: spec_front_face(r.dir, outward),
                material: Some(rc.material),
            },
        ),
    }
}

pub open spec fn spec_yz_hit(rc: YzRect, r: Ray, tmin: int, tmax: int) -> Option<HitRecord> {
    let outward = Vec3 { x: ONE, y: 0i64, z: 0i64 };
    match spec_plane_hit(
        rc.y0 as int,
        rc.y1 as int,
        rc.z0 as int,
        rc.z1 as int,
        rc.k as int,
        r.orig.x as int,
        r.dir.x as int,
        r.orig.y as int,
        r.dir.y as int,
        r.orig.z as int,
        r.dir.z as int,
        tmin,
        tmax,
    ) {
        None => None,
        Some(tuv) => Some(
            HitRecord {
                p: spec_at(r, tuv.0),
                normal: spec_oriented(r.dir, outward),
                t: tuv.0 as i64,
                u: tuv.1 as i64,
                v: tuv.2 as i64,
                front_face: spec_front_face(r.dir, outward),
                material: Some(rc.material),
            },
        ),
    }
}

/// The solid-angle density of striking a rectangle of the given area from a
/// hit at distance-squared `dist_sq` under incidence cosine `cosine`.
pub open spec fn spec_rect_pdf(t: int, dir: Vec3, normal: Vec3, area: int) -> int {
    let dist_sq = spec_mul(spec_mul(t, t), spec_dot(dir, dir));
    let cosine = abs_i(spec_div(spec_dot(dir, normal), crate::vec3::spec_length(dir)));
    spec_div(dist_sq, spec_mul(cosine, area))
}

pub open spec fn spec_xy_box(rc: XyRect) -> AABB {
    AABB {
        minimum: Vec3 { x: rc.x0, y: rc.y0, z: spec_sub(rc.k as int, RECT_PAD as int) as i64 },
        maximum: Vec3 { x: rc.x1, y: rc.y1, z: spec_add(rc.k as int, RECT_PAD as int) as i64 },
    }
}

pub open spec fn spec_xz_box(rc: XzRect) -> AABB {
    AABB {
        minimum: Vec3 { x: rc.x0, y: spec_sub(rc.k as int, RECT_PAD as int) as i64, z: rc.z0 },
        maximum: Vec3 { x: rc.x1, y: spec_add(rc.k as int, RECT_PAD as int) as i64, z: rc.z1 },
    }
}

pub open spec fn spec_yz_box(rc: YzRect) -> AABB {
    AABB {
        minimum: Vec3 { x: spec_sub(rc.k as int, RECT_PAD as int) as i64, y: rc.y0, z: rc.z0 },
        maximum: Vec3 { x: spec_add(rc.k as int, RECT_PAD as int) as i64, y: rc.y1, z: rc.z1 },
    }
}

pub open spec fn spec_xy_pdf(rc: XyRect, o: Vec3, v: Vec3) -> int {
    match spec_xy_hit(rc, Ray { orig: o, dir: v, tm: 0i64 }, T_EPS as int, SAT as int) {
        Some(rec) => spec_rect_pdf(
            rec.t as int,
            v,
            rec.normal,
            spec_mul(spec_sub(rc.x1 as int, rc.x0 as int), spec_sub(rc.y1 as int, rc.y0 as int)),
        ),
        None => 0,
    }
}

pub open spec fn spec_xz_pdf(rc: XzRect, o: Vec3, v: Vec3) -> int {
    match spec_xz_hit(rc, Ray { orig: o, dir: v, tm: 0i64 }, T_EPS as int, SAT as int) {
        Some(rec) => spec_rect_pdf(
            rec.t as int,
            v,
            rec.normal,
            spec_mul(spec_sub(rc.x1 as int, rc.x0 as int), spec_sub(rc.z1 as int, rc.z0 as int)),
        ),
        None => 0,
    }
}

pub open spec fn spec_yz_pdf(rc: YzRect, o: Vec3, v: Vec3) -> int {
    match spec_yz_hit(rc, Ray { orig: o, dir: v, tm: 0i64 }, T_EPS as int, SAT as int) {
        Some(rec) => spec_rect_pdf(
            rec.t as int,
            v,
            rec.normal,
            spec_mul(spec_sub(rc.y1 as int, rc.y0 as int), spec_sub(rc.z1 as int, rc.z0 as int)),
        ),
        None => 0,
    }
}

/// The shared tail of `pdf_value`, verified once over the already-found hit.
pub fn rect_pdf_from_hit(t: i64, dir: &Vec3, normal: &Vec3, area: i64) -> (r: i64)
    requires
        fx_ok(t as int),
        vec_ok(*dir),
        vec_ok(*normal),
        fx_ok(area as int),
    ensures
        r == spec_rect_pdf(t as int, *dir, *normal, area as int),
        fx_ok(r as int),
{
    let dist_sq = fmul(fmul(t, t), dir.length_squared());
    let cosine = fabs(fdiv(dir.dot(normal), dir.length()));
    fdiv(dist_sq, fmul(cosine, area))
}

impl XyRect {
    pub fn new(x0: i64, x1: i64, y0: i64, y1: i64, k: i64, material: usize) -> (r: XyRect)
        requires
            fx_ok(x0 as int),
            fx_ok(x1 as int),
            fx_ok(y0 as int),
            fx_ok(y1 as int),
            fx_ok(k as int),
        ensures
            r == (XyRect { x0, x1, y0, y1, k, material }),
            xy_rect_ok(r),
    {
        XyRect { x0, x1, y0, y1, k, material }
    }

    pub fn hit(&self, ray: &Ray, t_min: i64, t_max: i64) -> (r: Option<HitRecord>)
        requires
            xy_rect_ok(*self),
            ray_ok(*ray),
        ensures
            r == spec_xy_hit(*self, *ray, t_min as int, t_max as int),
            match r {
                Some(rec) => rec_ok(rec) && t_min <= rec.t <= t_max,
                None => true,
            },
    {
        let outward = Vec3::new(0, 0, ONE);
        match plane_hit(
            self.x0,
            self.x1,
            self.y0,
            self.y1,
            self.k,
            ray.orig.z,
            ray.dir.z,
            ray.orig.x,
            ray.dir.x,
            ray.orig.y,
            ray.dir.y,
            t_min,
            t_max,
        ) {
            None => None,
            Some(tuv) => {
                let mut rec = HitRecord {
                    p: ray.at(tuv.0),
                    normal: outward,
                    t: tuv.0,
                    u: tuv.1,
                    v: tuv.2,
                    front_face: false,
                    material: Some(self.material),
                };
                rec.set_face_normal(ray, outward);
                Some(rec)
            },
        }
    }

    pub fn bounding_box(&self) -> (r: AABB)
        requires
            xy_rect_ok(*self),
        ensures
            r == spec_xy_box(*self),
            aabb_ok(r),
    {
        AABB::new(
            Vec3::new(self.x0, self.y0, fsub(self.k, RECT_PAD)),
            Vec3::new(self.x1, self.y1, fadd(self.k, RECT_PAD)),
        )
    }

    /// Density of hitting this rectangle from `o` along `v`; zero on a miss.
    pub fn pdf_value(&self, o: &Vec3, v: &Vec3) -> (r: i64)
        requires
            xy_rect_ok(*self),
            vec_ok(*o),
            vec_ok(*v),
        ensures
            fx_ok(r as int),
            r == spec_xy_pdf(*self, *o, *v),
    {
        let ray = Ray::new(*o, *v, 0);
        match self.hit(&ray, T_EPS, SAT) {
            None => 0,
            Some(rec) => {
                let area = fmul(fsub(self.x1, self.x0), fsub(self.y1, self.y0));
                rect_pdf_from_hit(rec.t, v, &rec.normal, area)
            },
        }
    }

    /// A direction from `o` toward a point drawn on the rectangle.
    pub fn random(&self, rng: &mut rand::rngs::StdRng, o: &Vec3) -> (r: Vec3)
        requires
            xy_rect_ok(*self),
            vec_ok(*o),
        ensures
            vec_ok(r),
            r.z == spec_sub(self.k as int, o.z as int),
    {
        let a = random_range(rng, self.x0, self.x1);
        let b = random_range(rng, self.y0, self.y1);
        Vec3::new(a, b, self.k).sub(o)
    }
}

impl XzRect {
    pub fn new(x0: i64, x1: i64, z0: i64, z1: i64, k: i64, material: usize) -> (r: XzRect)
        requires
            fx_ok(x0 as int),
            fx_ok(x1 as int),
            fx_ok(z0 as int),
            fx_ok(z1 as int),
            fx_ok(k as int),
        ensures
            r == (XzRect { x0, x1, z0, z1, k, material }),
            xz_rect_ok(r),
    {
        XzRect { x0, x1, z0, z1, k, material }
    }

    pub fn hit(&self, ray: &Ray, t_min: i64, t_max: i64) -> (r: Option<HitRecord>)
        requires
            xz_rect_ok(*self),
            ray_ok(*ray),
        ensures
            r == spec_xz_hit(*self, *ray, t_min as int, t_max as int),
            match r {
                Some(rec) => rec_ok(rec) && t_min <= rec.t <= t_max,
                None => true,
            },
    {
        let outward = Vec3::new(0, ONE, 0);
        match plane_hit(
            self.x0,
            self.x1,
            self.z0,
            self.z1,
            self.k,
            ray.orig.y,
            ray.dir.y,
            ray.orig.x,
            ray.dir.x,
            ray.orig.z,
            ray.dir.z,
            t_min,
            t_max,
        ) {
            None => None,
            Some(tuv) => {
                let mut rec = HitRecord {
                    p: ray.at(tuv.0),
                    normal: outward,
                    t: tuv.0,
                    u: tuv.1,
                    v: tuv.2,
                    front_face: false,
                    material: Some(self.material),
                };
                rec.set_face_normal(ray, outward);
                Some(rec)
            },
        }
    }

    pub fn bounding_box(&self) -> (r: AABB)
        requires
            xz_rect_ok(*self),
        ensures
            r == spec_xz_box(*self),
            aabb_ok(r),
    {
        AABB::new(
            Vec3::new(self.x0, fsub(self.k, RECT_PAD), self.z0),
            Vec3::new(self.x1, fadd(self.k, RECT_PAD), self.z1),
        )
    }

    pub fn pdf_value(&self, o: &Vec3, v: &Vec3) -> (r: i64)
        requires
            xz_rect_ok(*self),
            vec_ok(*o),
            vec_ok(*v),
        ensures
            fx_ok(r as int),
            r == spec_xz_pdf(*self, *o, *v),
    {
        let ray = Ray::new(*o, *v, 0);
        match self.hit(&ray, T_EPS, SAT) {
            None => 0,
            Some(rec) => {
                let area = fmul(fsub(self.x1, self.x0), fsub(self.z1, self.z0));
                rect_pdf_from_hit(rec.t, v, &rec.normal, area)
            },
        }
    }

    pub fn random(&self, rng: &mut rand::rngs::StdRng, o: &Vec3) -> (r: Vec3)
        requires
            xz_rect_ok(*self),
            vec_ok(*o),
        ensures
            vec_ok(r),
            r.y == spec_sub(self.k as int, o.y as int),
    {
        let a = random_range(rng, self.x0, self.x1);
        let b = random_range(rng, self.z0, self.z1);
        Vec3::new(a, self.k, b).sub(o)
    }
}

impl YzRect {
    pub fn new(y0: i64, y1: i64, z0: i64, z1: i64, k: i64, material: usize) -> (r: YzRect)
        requires
            fx_ok(y0 as int),
            fx_ok(y1 as int),
            fx_ok(z0 as int),
            fx_ok(z1 as int),
            fx_ok(k as int),
        ensures
            r == (YzRect { y0, y1, z0, z1, k, material }),
            yz_rect_ok(r),
    {
        YzRect { y0, y1, z0, z1, k, material }
    }

    pub fn hit(&self, ray: &Ray, t_min: i64, t_max: i64) -> (r: Option<HitRecord>)
        requires
            yz_rect_ok(*self),
            ray_ok(*ray),
        ensures
            r == spec_yz_hit(*self, *ray, t_min as int, t_max as int),
            match r {
                Some(rec) => rec_ok(rec) && t_min <= rec.t <= t_max,
                None => true,
            },
    {
        let outward = Vec3::new(ONE, 0, 0);
        match plane_hit(
            self.y0,
            self.y1,
            self.z0,
            self.z1,
            self.k,
            ray.orig.x,
            ray.dir.x,
            ray.orig.y,
            ray.dir.y,
            ray.orig.z,
            ray.dir.z,
            t_min,
            t_max,
        ) {
            None => None,
            Some(tuv) => {
                let mut rec = HitRecord {
                    p: ray.at(tuv.0),
                    normal: outward,
                    t: tuv.0,
                    u: tuv.1,
                    v: tuv.2,
                    front_face: false,
                    material: Some(self.material),
                };
                rec.set_face_normal(ray, outward);
                Some(rec)
            },
        }
    }

    pub fn bounding_box(&self) -> (r: AABB)
        requires
            yz_rect_ok(*self),
        ensures
            r == spec_yz_box(*self),
            aabb_ok(r),
    {
        AABB::new(
            Vec3::new(fsub(self.k, RECT_PAD), self.y0, self.z0),
            Vec3::new(fadd(self.k, RECT_PAD), self.y1, self.z1),
        )
    }

    pub fn pdf_value(&self, o: &Vec3, v: &Vec3) -> (r: i64)
        requires
            yz_rect_ok(*self),
            vec_ok(*o),
            vec_ok(*v),
        ensures
            fx_ok(r as int),
            r == spec_yz_pdf(*self, *o, *v),
    {
        let ray = Ray::new(*o, *v, 0);
        match self.hit(&ray, T_EPS, SAT) {
            None => 0,
            Some(rec) => {
                let area = fmul(fsub(self.y1, self.y0), fsub(self.z1, self.z0));
                rect_pdf_from_hit(rec.t, v, &rec.normal, area)
            },
        }
    }

    pub fn random(&self, rng: &mut rand::rngs::StdRng, o: &Vec3) -> (r: Vec3)
        requires
            yz_rect_ok(*self),
            vec_ok(*o),
        ensures
            vec_ok(r),
            r.x == spec_sub(self.k as int, o.x as int),
    {
        let a = random_range(rng, self.y0, self.y1);
        let b = random_range(rng, self.z0, self.z1);
        Vec3::new(self.k, a, b).sub(o)
    }
}

} // verus!
