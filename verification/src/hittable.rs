//! The intersection record, the closed set of geometry variants, and the
//! recursive hit, bounding-box and light-sampling queries over them.
//!
//! All queries are deterministic except where a constant medium draws its
//! free-flight distance; `spec_hit` therefore pins the result exactly for
//! any medium-free geometry, while every hit, medium or not, is guaranteed
//! well formed and inside the queried parameter window.
use vstd::prelude::*;

verus! {

use crate::fixed::{fx_ok, SAT, ONE};
use crate::vec3::{Vec3, vec_ok, spec_dot, spec_v_neg, spec_v_add, spec_v_sub, spec_rot_x, spec_rot_y, spec_rot_z};
use crate::ray::{Ray, ray_ok};
use crate::aabb::{AABB, aabb_ok, spec_surround};
use crate::rng::{rng_unit};
use crate::fixed::ln_unit;
use crate::sphere::{Sphere, sphere_ok, spec_sphere_hit, spec_sphere_box};
use crate::moving_sphere::{MovingSphere, moving_sphere_ok, spec_moving_sphere_hit, spec_center};
use crate::rect::{
    XyRect, XzRect, YzRect, xy_rect_ok, xz_rect_ok, yz_rect_ok, spec_xy_hit, spec_xz_hit,
    spec_yz_hit, spec_xy_box, spec_xz_box, spec_yz_box, spec_xy_pdf, spec_xz_pdf, spec_yz_pdf,
};
use crate::block_box::BlockBox;
use crate::constant_medium::{ConstantMedium, spec_medium_scatter, MEDIUM_EPS, medium_scatter};
use crate::translate::Translate;
use crate::rotate::{RotateX, RotateY, RotateZ};
use crate::flip_face::FlipFace;
use crate::hittable_list::HittableList;
use crate::bvh_node::BvhNode;

/// The parameter offset used as the near cutoff of secondary rays.
pub const T_EPS: i64 = 66;

/// What a successful intersection reports. The material is a handle into the
/// scene's material arena.
#[derive(Clone, Copy, PartialEq, Eq, Debug)]
pub struct HitRecord {
    pub p: Vec3,
    pub normal: Vec3,
    pub t: i64,
    pub u: i64,
    pub v: i64,
    pub front_face: bool,
    pub material: Option<usize>,
}

pub open spec fn rec_ok(rec: HitRecord) -> bool {
    vec_ok(rec.p) && vec_ok(rec.normal) && fx_ok(rec.t as int) && fx_ok(rec.u as int) && fx_ok(
        rec.v as int,
    )
}

/// Whether the outward normal faces the incoming ray.
pub open spec fn spec_front_face(dir: Vec3, outward: Vec3) -> bool {
    spec_dot(dir, outward) < 0
}

/// The stored normal: the outward normal turned against the incoming ray.
pub open spec fn spec_oriented(dir: Vec3, outward: Vec3) -> Vec3 {
    if spec_front_face(dir, outward) {
        outward
    } else {
        spec_v_neg(outward)
    }
}

impl HitRecord {
    /// Record which side was struck and orient the normal against the ray.
    pub fn set_face_normal(&mut self, ray: &Ray, outward_normal: Vec3)
        requires
            ray_ok(*ray),
            vec_ok(outward_normal),
        ensures
            final(self).front_face == spec_front_face(ray.dir, outward_normal),
            final(self).normal == spec_oriented(ray.dir, outward_normal),
            final(self).p == old(self).p && final(self).t == old(self).t && final(self).u == old(
                self,
            ).u && final(self).v == old(self).v && final(self).material == old(self).material,
            vec_ok(final(self).normal),
    {
        self.front_face = ray.direction().dot(&outward_normal) < 0;
        self.normal = if self.front_face {
            outward_normal
        } else {
            outward_normal.neg()
        };
    }
}

/// Law: after orienting, the normal never points with the incoming ray:
/// its fixed-point dot product with the direction is nonpositive.
pub proof fn lemma_oriented_against_ray(dir: Vec3, outward: Vec3)
    requires
        vec_ok(dir),
        vec_ok(outward),
    ensures
        spec_dot(dir, spec_oriented(dir, outward)) <= 0,
{
    if spec_front_face(dir, outward) {
    } else {
        crate::vec3::lemma_dot_neg_flip(dir, outward);
    }
}

/// Everything a ray can strike, as a closed set of variants.
#[derive(PartialEq, Eq, Debug)]
pub enum Hittable {
    /// The sentinel that nothing ever hits; a lone object's missing sibling
    /// in a tree node.
    Empty,
    Sphere(Sphere),
    MovingSphere(MovingSphere),
    XyRect(XyRect),
    XzRect(XzRect),
    YzRect(YzRect),
    BlockBox(BlockBox),
    Medium(ConstantMedium),
    Translate(Translate),
    RotateX(RotateX),
    RotateY(RotateY),
    RotateZ(RotateZ),
    FlipFace(FlipFace),
    List(HittableList),
    Bvh(BvhNode),
}

/// Well-formedness: every scalar inside lies in the representable range.
pub open spec fn hittable_ok(h: Hittable) -> bool
    decreases h, 1int,
{
    match h {
        Hittable::Empty => true,
        Hittable::Sphere(s) => sphere_ok(s),
        Hittable::MovingSphere(m) => moving_sphere_ok(m),
        Hittable::XyRect(rc) => xy_rect_ok(rc),
        Hittable::XzRect(rc) => xz_rect_ok(rc),
        Hittable::YzRect(rc) => yz_rect_ok(rc),
        Hittable::BlockBox(bb) => vec_ok(bb.box_min) && vec_ok(bb.box_max) && spec_list_wf(
            bb.sides.objects,
            0,
        ),
        Hittable::Medium(m) => hittable_ok(*m.boundary) && fx_ok(m.neg_inv_density as int),
        Hittable::Translate(t) => hittable_ok(*t.inner) && vec_ok(t.offset),
        Hittable::RotateX(ro) => hittable_ok(*ro.inner) && fx_ok(ro.sin_t as int) && fx_ok(
            ro.cos_t as int,
        ) && aabb_ok(ro.bbox),
        Hittable::RotateY(ro) => hittable_ok(*ro.inner) && fx_ok(ro.sin_t as int) && fx_ok(
            ro.cos_t as int,
        ) && aabb_ok(ro.bbox),
        Hittable::RotateZ(ro) => hittable_ok(*ro.inner) && fx_ok(ro.sin_t as int) && fx_ok(
            ro.cos_t as int,
        ) && aabb_ok(ro.bbox),
        Hittable::FlipFace(f) => hittable_ok(*f.ptr),
        Hittable::List(l) => spec_list_wf(l.objects, 0),
        Hittable::Bvh(b) => hittable_ok(*b.left) && hittable_ok(*b.right) && aabb_ok(b.bbox),
    }
}

pub open spec fn spec_list_wf(v: Vec<Hittable>, i: int) -> bool
    decreases v, v@.len() - i, 0int,
{
    if i < 0 || i >= v@.len() {
        true
    } else {
        hittable_ok(v@[i]) && spec_list_wf(v, i + 1)
    }
}

/// Whether no constant medium occurs anywhere inside: on such geometry the
/// hit query is deterministic and `spec_hit` pins it exactly.
pub open spec fn no_medium(h: Hittable) -> bool
    decreases h, 1int,
{
    match h {
        Hittable::Empty => true,
        Hittable::Sphere(_) => true,
        Hittable::MovingSphere(_) => true,
        Hittable::XyRect(_) => true,
        Hittable::XzRect(_) => true,
        Hittable::YzRect(_) => true,
        Hittable::BlockBox(bb) => spec_list_nm(bb.sides.objects, 0),
        Hittable::Medium(_) => false,
        Hittable::Translate(t) => no_medium(*t.inner),
        Hittable::RotateX(ro) => no_medium(*ro.inner),
        Hittable::RotateY(ro) => no_medium(*ro.inner),
        Hittable::RotateZ(ro) => no_medium(*ro.inner),
        Hittable::FlipFace(f) => no_medium(*f.ptr),
        Hittable::List(l) => spec_list_nm(l.objects, 0),
        Hittable::Bvh(b) => no_medium(*b.left) && no_medium(*b.right),
    }
}

pub open spec fn spec_list_nm(v: Vec<Hittable>, i: int) -> bool
    decreases v, v@.len() - i, 0int,
{
    if i < 0 || i >= v@.len() {
        true
    } else {
        no_medium(v@[i]) && spec_list_nm(v, i + 1)
    }
}

pub proof fn lemma_list_wf_index(v: Vec<Hittable>, i: int, j: int)
    requires
        0 <= i <= j < v@.len(),
        spec_list_wf(v, i),
    ensures
        hittable_ok(v@[j]),
    decreases j - i,
{
    if i < j {
        lemma_list_wf_index(v, i + 1, j);
    }
}

pub proof fn lemma_list_nm_index(v: Vec<Hittable>, i: int, j: int)
    requires
        0 <= i <= j < v@.len(),
        spec_list_nm(v, i),
    ensures
        no_medium(v@[j]),
    decreases j - i,
{
    if i < j {
        lemma_list_nm_index(v, i + 1, j);
    }
}

/// What the deterministic part of the hit query returns: the first hit in
/// (tmin, tmax), with composites keeping the closest child hit. A medium's
/// arm is the one place randomness enters, so this spec makes it a miss;
/// it binds the executable query only on medium-free geometry.
#[verifier::rlimit(60)]
pub open spec fn spec_hit(h: Hittable, r: Ray, tmin: int, tmax: int) -> Option<HitRecord>
    decreases h, 1int,
{
    match h {
        Hittable::Empty => None,
        Hittable::Sphere(s) => spec_sphere_hit(s, r, tmin, tmax),
        Hittable::MovingSphere(m) => spec_moving_sphere_hit(m, r, tmin, tmax),
        Hittable::XyRect(rc) => spec_xy_hit(rc, r, tmin, tmax),
        Hittable::XzRect(rc) => spec_xz_hit(rc, r, tmin, tmax),
        Hittable::YzRect(rc) => spec_yz_hit(rc, r, tmin, tmax),
        Hittable::BlockBox(bb) => spec_list_hit(bb.sides.objects, r, tmin, tmax, 0, None),
        Hittable::Medium(_) => None,
        Hittable::Translate(t) => {
            let moved = Ray { orig: spec_v_sub(r.orig, t.offset), dir: r.dir, tm: r.tm };
            match spec_hit(*t.inner, moved, tmin, tmax) {
                None => None,
                Some(rec0) => Some(
                    HitRecord {
                        p: spec_v_add(rec0.p, t.offset),
                        normal: spec_oriented(moved.dir, rec0.normal),
                        t: rec0.t,
                        u: rec0.u,
                        v: rec0.v,
                        front_face: spec_front_face(moved.dir, rec0.normal),
                        material: rec0.material,
                    },
                ),
            }
        },
        Hittable::RotateX(ro) => {
            let c = ro.cos_t as int;
            let s = ro.sin_t as int;
            let rotated = Ray {
                orig: spec_rot_x(r.orig, c, -s),
                dir: spec_rot_x(r.dir, c, -s),
                tm: r.tm,
            };
            match spec_hit(*ro.inner, rotated, tmin, tmax) {
                None => None,
                Some(rec0) => {
                    let n0 = spec_rot_x(rec0.normal, c, s);
                    Some(
                        HitRecord {
                            p: spec_rot_x(rec0.p, c, s),
                            normal: spec_oriented(rotated.dir, n0),
                            t: rec0.t,
                            u: rec0.u,
                            v: rec0.v,
                            front_face: spec_front_face(rotated.dir, n0),
                            material: rec0.material,
                        },
                    )
                },
            }
        },
        Hittable::RotateY(ro) => {
            let c = ro.cos_t as int;
            let s = ro.sin_t as int;
            let rotated = Ray {
                orig: spec_rot_y(r.orig, c, -s),
                dir: spec_rot_y(r.dir, c, -s),
                tm: r.tm,
            };
            match spec_hit(*ro.inner, rotated, tmin, tmax) {
                None => None,
                Some(rec0) => {
                    let n0 = spec_rot_y(rec0.normal, c, s);
                    Some(
                        HitRecord {
                            p: spec_rot_y(rec0.p, c, s),
                            normal: spec_oriented(rotated.dir, n0),
                            t: rec0.t,
                            u: rec0.u,
                            v: rec0.v,
                            front_face: spec_front_face(rotated.dir, n0),
                            material: rec0.material,
                        },
                    )
                },
            }
        },
        Hittable::RotateZ(ro) => {
            let c = ro.cos_t as int;
            let s = ro.sin_t as int;
            let rotated = Ray {
                orig: spec_rot_z(r.orig, c, -s),
                dir: spec_rot_z(r.dir, c, -s),
                tm: r.tm,
            };
            match spec_hit(*ro.inner, rotated, tmin, tmax) {
                None => None,
                Some(rec0) => {
                    let n0 = spec_rot_z(rec0.normal, c, s);
                    Some(
                        HitRecord {
                            p: spec_rot_z(rec0.p, c, s),
                            normal: spec_oriented(rotated.dir, n0),
                            t: rec0.t,
                            u: rec0.u,
                            v: rec0.v,
                            front_face: spec_front_face(rotated.dir, n0),
                            material: rec0.material,
                        },
                    )
                },
            }
        },
        Hittable::FlipFace(f) => {
            match spec_hit(*f.ptr, r, tmin, tmax) {
                None => None,
                Some(rec0) => Some(HitRecord { front_face: !rec0.front_face, ..rec0 }),
            }
        },
        Hittable::List(l) => spec_list_hit(l.objects, r, tmin, tmax, 0, None),
        Hittable::Bvh(b) => {
            if !crate::aabb::spec_aabb_hit(b.bbox, r, tmin, tmax) {
                None
            } else {
                let left = spec_hit(*b.left, r, tmin, tmax);
                let window = match left {
                    Some(rec) => rec.t as int,
                    None => tmax,
                };
                let right = spec_hit(*b.right, r, tmin, window);
                match right {
                    Some(rec) => Some(rec),
                    None => left,
                }
            }
        },
    }
}

/// The closest-hit fold over a list's tail from index i, carrying the best
/// hit so far and the shrunken upper window.
pub open spec fn spec_list_hit(
    v: Vec<Hittable>,
    r: Ray,
    tmin: int,
    cur_max: int,
    i: int,
    best: Option<HitRecord>,
) -> Option<HitRecord>
    decreases v, v@.len() - i, 2int,
{
    if i < 0 || i >= v@.len() {
        best
    } else {
        match spec_hit(v@[i], r, tmin, cur_max) {
            Some(rec) => spec_list_hit(v, r, tmin, rec.t as int, i + 1, Some(rec)),
            None => spec_list_hit(v, r, tmin, cur_max, i + 1, best),
        }
    }
}

/// The box covering the geometry over a time interval, where one exists.
pub open spec fn spec_bounding_box(h: Hittable, time0: int, time1: int) -> Option<AABB>
    decreases h, 1int,
{
    match h {
        Hittable::Empty => None,
        Hittable::Sphere(s) => Some(spec_sphere_box(s.center, s.radius as int)),
        Hittable::MovingSphere(m) => Some(
            spec_surround(
                spec_sphere_box(spec_center(m, time0), m.radius as int),
                spec_sphere_box(spec_center(m, time1), m.radius as int),
            ),
        ),
        Hittable::XyRect(rc) => Some(spec_xy_box(rc)),
        Hittable::XzRect(rc) => Some(spec_xz_box(rc)),
        Hittable::YzRect(rc) => Some(spec_yz_box(rc)),
        Hittable::BlockBox(bb) => Some(AABB { minimum: bb.box_min, maximum: bb.box_max }),
        Hittable::Medium(m) => spec_bounding_box(*m.boundary, time0, time1),
        Hittable::Translate(t) => match spec_bounding_box(*t.inner, time0, time1) {
            None => None,
            Some(b) => Some(
                AABB {
                    minimum: spec_v_add(b.minimum, t.offset),
                    maximum: spec_v_add(b.maximum, t.offset),
                },
            ),
        },
        Hittable::RotateX(ro) => if ro.hasbox {
            Some(ro.bbox)
        } else {
            None
        },
        Hittable::RotateY(ro) => if ro.hasbox {
            Some(ro.bbox)
        } else {
            None
        },
        Hittable::RotateZ(ro) => if ro.hasbox {
            Some(ro.bbox)
        } else {
            None
        },
        Hittable::FlipFace(f) => spec_bounding_box(*f.ptr, time0, time1),
        Hittable::List(l) => spec_list_box(l.objects, time0, time1, 0, None),
        Hittable::Bvh(b) => Some(b.bbox),
    }
}

/// The left fold of child boxes: any boxless child voids the whole box.
pub open spec fn spec_list_box(
    v: Vec<Hittable>,
    time0: int,
    time1: int,
    i: int,
    acc: Option<AABB>,
) -> Option<AABB>
    decreases v, v@.len() - i, 2int,
{
    if i < 0 || i >= v@.len() {
        acc
    } else {
        match spec_bounding_box(v@[i], time0, time1) {
            None => None,
            Some(b) => spec_list_box(
                v,
                time0,
                time1,
                i + 1,
                Some(
                    match acc {
                        None => b,
                        Some(a) => spec_surround(a, b),
                    },
                ),
            ),
        }
    }
}

/// The solid-angle density a light-shaped variant reports; zero elsewhere.
pub open spec fn spec_pdf_value(h: Hittable, o: Vec3, v: Vec3) -> int {
    match h {
        Hittable::XyRect(rc) => spec_xy_pdf(rc, o, v),
        Hittable::XzRect(rc) => spec_xz_pdf(rc, o, v),
        Hittable::YzRect(rc) => spec_yz_pdf(rc, o, v),
        _ => 0,
    }
}

impl Hittable {
    /// The first intersection with parameter in [t_min, t_max], composites
    /// keeping the closest. On medium-free geometry the result is exactly
    /// `spec_hit`; any result is well formed and inside the window.
    #[verifier::rlimit(100)]
    pub fn hit(&self, rng: &mut rand::rngs::StdRng, ray: &Ray, t_min: i64, t_max: i64) -> (r:
        Option<HitRecord>)
        requires
            hittable_ok(*self),
            ray_ok(*ray),
            fx_ok(t_min as int),
            fx_ok(t_max as int),
        ensures
            no_medium(*self) ==> r == spec_hit(*self, *ray, t_min as int, t_max as int),
            match r {
                Some(rec) => rec_ok(rec) && t_min <= rec.t <= t_max,
                None => true,
            },
            (self matches Hittable::Medium(m) && no_medium(*m.boundary) && spec_hit(
                *m.boundary,
                *ray,
                -(SAT as int),
                SAT as int,
            ) is None) ==> r is None,
        decreases *self,
    {
        match self {
            Hittable::Empty => None,
            Hittable::Sphere(s) => s.hit(ray, t_min, t_max),
            Hittable::MovingSphere(m) => m.hit(ray, t_min, t_max),
            Hittable::XyRect(rc) => rc.hit(ray, t_min, t_max),
            Hittable::XzRect(rc) => rc.hit(ray, t_min, t_max),
            Hittable::YzRect(rc) => rc.hit(ray, t_min, t_max),
            Hittable::BlockBox(bb) => hit_list(&bb.sides.objects, rng, ray, t_min, t_max),
            Hittable::Medium(m) => {
                let rec1 = match m.boundary.hit(rng, ray, -SAT, SAT) {
                    None => {
                        return None;
                    },
                    Some(x) => x,
                };
                let rec2 = match m.boundary.hit(rng, ray, crate::fixed::fadd(rec1.t, MEDIUM_EPS), SAT) {
                    None => {
                        return None;
                    },
                    Some(x) => x,
                };
                let draw = rng_unit(rng);
                if draw < 1 {
                    return None;
                }
                let ln = ln_unit(draw);
                medium_scatter(
                    m.neg_inv_density,
                    m.phase_material,
                    ray,
                    rec1.t,
                    rec2.t,
                    t_min,
                    t_max,
                    ln,
                )
            },
            Hittable::Translate(t) => {
                let moved = Ray::new(ray.origin().sub(&t.offset), ray.direction(), ray.time());
                match t.inner.hit(rng, &moved, t_min, t_max) {
                    None => None,
                    Some(rec0) => {
                        let mut rec = rec0;
                        rec.p = rec0.p.add(&t.offset);
                        rec.set_face_normal(&moved, rec0.normal);
                        Some(rec)
                    },
                }
            },
            Hittable::RotateX(ro) => {
                let rotated = Ray::new(
                    ray.origin().rotate_x_cs(ro.cos_t, -ro.sin_t),
                    ray.direction().rotate_x_cs(ro.cos_t, -ro.sin_t),
                    ray.time(),
                );
                match ro.inner.hit(rng, &rotated, t_min, t_max) {
                    None => None,
                    Some(rec0) => {
                        let mut rec = rec0;
                        rec.p = rec0.p.rotate_x_cs(ro.cos_t, ro.sin_t);
                        rec.set_face_normal(&rotated, rec0.normal.rotate_x_cs(ro.cos_t, ro.sin_t));
                        Some(rec)
                    },
                }
            },
            Hittable::RotateY(ro) => {
                let rotated = Ray::new(
                    ray.origin().rotate_y_cs(ro.cos_t, -ro.sin_t),
                    ray.direction().rotate_y_cs(ro.cos_t, -ro.sin_t),
                    ray.time(),
                );
                match ro.inner.hit(rng, &rotated, t_min, t_max) {
                    None => None,
                    Some(rec0) => {
                        let mut rec = rec0;
                        rec.p = rec0.p.rotate_y_cs(ro.cos_t, ro.sin_t);
                        rec.set_face_normal(&rotated, rec0.normal.rotate_y_cs(ro.cos_t, ro.sin_t));
                        Some(rec)
                    },
                }
            },
            Hittable::RotateZ(ro) => {
                let rotated = Ray::new(
                    ray.origin().rotate_z_cs(ro.cos_t, -ro.sin_t),
                    ray.direction().rotate_z_cs(ro.cos_t, -ro.sin_t),
                    ray.time(),
                );
                match ro.inner.hit(rng, &rotated, t_min, t_max) {
                    None => None,
                    Some(rec0) => {
                        let mut rec = rec0;
                        rec.p = rec0.p.rotate_z_cs(ro.cos_t, ro.sin_t);
                        rec.set_face_normal(&rotated, rec0.normal.rotate_z_cs(ro.cos_t, ro.sin_t));
                        Some(rec)
                    },
                }
            },
            Hittable::FlipFace(f) => {
                match f.ptr.hit(rng, ray, t_min, t_max) {
                    None => None,
                    Some(rec0) => {
                        let mut rec = rec0;
                        rec.front_face = !rec0.front_face;
                        Some(rec)
                    },
                }
            },
            Hittable::List(l) => hit_list(&l.objects, rng, ray, t_min, t_max),
            Hittable::Bvh(b) => {
                if !b.bbox.hit(ray, t_min, t_max) {
                    return None;
                }
                let left_res = b.left.hit(rng, ray, t_min, t_max);
                let new_max = match &left_res {
                    Some(rec) => rec.t,
                    None => t_max,
                };
                let right_res = b.right.hit(rng, ray, t_min, new_max);
                match right_res {
                    Some(rec) => Some(rec),
                    None => left_res,
                }
            },
        }
    }

    /// The covering box over [time0, time1], absent for unbounded geometry.
    pub fn bounding_box(&self, time0: i64, time1: i64) -> (r: Option<AABB>)
        requires
            hittable_ok(*self),
            fx_ok(time0 as int),
            fx_ok(time1 as int),
        ensures
            r == spec_bounding_box(*self, time0 as int, time1 as int),
            match r {
                Some(b) => aabb_ok(b),
                None => true,
            },
        decreases *self,
    {
        match self {
            Hittable::Empty => None,
            Hittable::Sphere(s) => s.bounding_box(time0, time1),
            Hittable::MovingSphere(m) => m.bounding_box(time0, time1),
            Hittable::XyRect(rc) => Some(rc.bounding_box()),
            Hittable::XzRect(rc) => Some(rc.bounding_box()),
            Hittable::YzRect(rc) => Some(rc.bounding_box()),
            Hittable::BlockBox(bb) => Some(AABB::new(bb.box_min, bb.box_max)),
            Hittable::Medium(m) => m.boundary.bounding_box(time0, time1),
            Hittable::Translate(t) => {
                match t.inner.bounding_box(time0, time1) {
                    None => None,
                    Some(b) => Some(
                        AABB::new(b.minimum.add(&t.offset), b.maximum.add(&t.offset)),
                    ),
                }
            },
            Hittable::RotateX(ro) => if ro.hasbox {
                Some(ro.bbox)
            } else {
                None
            },
            Hittable::RotateY(ro) => if ro.hasbox {
                Some(ro.bbox)
            } else {
                None
            },
            Hittable::RotateZ(ro) => if ro.hasbox {
                Some(ro.bbox)
            } else {
                None
            },
            Hittable::FlipFace(f) => f.ptr.bounding_box(time0, time1),
            Hittable::List(l) => box_list(&l.objects, time0, time1),
            Hittable::Bvh(b) => Some(b.bbox),
        }
    }

    /// The solid-angle density of striking this geometry from `o` along `v`;
    /// only the rectangle variants, used as lights, report one.
    pub fn pdf_value(&self, o: &Vec3, v: &Vec3) -> (r: i64)
        requires
            hittable_ok(*self),
            vec_ok(*o),
            vec_ok(*v),
        ensures
            r == spec_pdf_value(*self, *o, *v),
            fx_ok(r as int),
    {
        match self {
            Hittable::XyRect(rc) => rc.pdf_value(o, v),
            Hittable::XzRect(rc) => rc.pdf_value(o, v),
            Hittable::YzRect(rc) => rc.pdf_value(o, v),
            _ => 0,
        }
    }

    /// A direction from `o` toward the geometry; only the rectangle
    /// variants sample one, the rest answer a fixed axis direction. The
    /// component along a rectangle's fixed axis is deterministic.
    pub fn random(&self, rng: &mut rand::rngs::StdRng, o: &Vec3) -> (r: Vec3)
        requires
            hittable_ok(*self),
            vec_ok(*o),
        ensures
            vec_ok(r),
            self matches Hittable::XyRect(rc) ==> r.z == crate::fixed::spec_sub(
                rc.k as int,
                o.z as int,
            ),
            self matches Hittable::XzRect(rc) ==> r.y == crate::fixed::spec_sub(
                rc.k as int,
                o.y as int,
            ),
            self matches Hittable::YzRect(rc) ==> r.x == crate::fixed::spec_sub(
                rc.k as int,
                o.x as int,
            ),
            !(self is XyRect) && !(self is XzRect) && !(self is YzRect) ==> r == (Vec3 {
                x: ONE,
                y: 0i64,
                z: 0i64,
            }),
    {
        match self {
            Hittable::XyRect(rc) => rc.random(rng, o),
            Hittable::XzRect(rc) => rc.random(rng, o),
            Hittable::YzRect(rc) => rc.random(rng, o),
            _ => Vec3::new(ONE, 0, 0),
        }
    }
}

/// The closest-hit traversal of a child list.
fn hit_list(
    objects: &Vec<Hittable>,
    rng: &mut rand::rngs::StdRng,
    ray: &Ray,
    t_min: i64,
    t_max: i64,
) -> (r: Option<HitRecord>)
    requires
        spec_list_wf(*objects, 0),
        ray_ok(*ray),
        fx_ok(t_min as int),
        fx_ok(t_max as int),
    ensures
        spec_list_nm(*objects, 0) ==> r == spec_list_hit(
            *objects,
            *ray,
            t_min as int,
            t_max as int,
            0,
            None,
        ),
        match r {
            Some(rec) => rec_ok(rec) && t_min <= rec.t <= t_max,
            None => true,
        },
    decreases *objects,
{
    let ghost target = spec_list_hit(*objects, *ray, t_min as int, t_max as int, 0, None);
    let mut best: Option<HitRecord> = None;
    let mut closest: i64 = t_max;
    let mut i: usize = 0;
    while i < objects.len()
        invariant
            spec_list_wf(*objects, 0),
            ray_ok(*ray),
            fx_ok(t_min as int),
            fx_ok(t_max as int),
            fx_ok(closest as int),
            0 <= i <= objects@.len(),
            spec_list_nm(*objects, 0) ==> target == spec_list_hit(
                *objects,
                *ray,
                t_min as int,
                closest as int,
                i as int,
                best,
            ),
            match best {
                Some(rec) => rec_ok(rec) && t_min <= rec.t <= t_max && rec.t == closest,
                None => closest == t_max,
            },
            target == spec_list_hit(*objects, *ray, t_min as int, t_max as int, 0, None),
        decreases objects@.len() - i,
    {
        proof {
            lemma_list_wf_index(*objects, 0, i as int);
            if spec_list_nm(*objects, 0) {
                lemma_list_nm_index(*objects, 0, i as int);
            }
        }
        let res = objects[i].hit(rng, ray, t_min, closest);
        match res {
            Some(rec) => {
                best = Some(rec);
                closest = rec.t;
            },
            None => {},
        }
        i = i + 1;
    }
    best
}

/// The box fold over a child list.
fn box_list(objects: &Vec<Hittable>, time0: i64, time1: i64) -> (r: Option<AABB>)
    requires
        spec_list_wf(*objects, 0),
        fx_ok(time0 as int),
        fx_ok(time1 as int),
    ensures
        r == spec_list_box(*objects, time0 as int, time1 as int, 0, None),
        match r {
            Some(b) => aabb_ok(b),
            None => true,
        },
    decreases *objects,
{
    let ghost target = spec_list_box(*objects, time0 as int, time1 as int, 0, None);
    let mut acc: Option<AABB> = None;
    let mut i: usize = 0;
    while i < objects.len()
        invariant
            spec_list_wf(*objects, 0),
            fx_ok(time0 as int),
            fx_ok(time1 as int),
            0 <= i <= objects@.len(),
            target == spec_list_box(*objects, time0 as int, time1 as int, i as int, acc),
            match acc {
                Some(b) => aabb_ok(b),
                None => true,
            },
            target == spec_list_box(*objects, time0 as int, time1 as int, 0, None),
        decreases objects@.len() - i,
    {
        proof {
            lemma_list_wf_index(*objects, 0, i as int);
        }
        match objects[i].bounding_box(time0, time1) {
            None => {
                return None;
            },
            Some(b) => {
                acc = Some(
                    match acc {
                        None => b,
                        Some(a) => AABB::surrounding_box(a, b),
                    },
                );
            },
        }
        i = i + 1;
    }
    acc
}

} // verus!
