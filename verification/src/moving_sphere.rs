//! A sphere whose center interpolates linearly between two timestamps,
//! sampled at each ray's time for motion blur.
use vstd::prelude::*;

verus! {

use crate::fixed::{fx_ok, spec_sub, spec_div, fsub, fdiv};
use crate::vec3::{Vec3, vec_ok, spec_v_add, spec_v_sub, spec_v_scale, spec_v_div};
use crate::ray::{Ray, ray_ok, spec_at};
use crate::aabb::{AABB, aabb_ok, spec_surround};
use crate::hittable::{HitRecord, spec_front_face, spec_oriented, rec_ok};
use crate::sphere::{spec_sphere_root, spec_sphere_box, sphere_root};

#[derive(Clone, PartialEq, Eq, Debug)]
pub struct MovingSphere {
    pub center0: Vec3,
    pub center1: Vec3,
    pub time0: i64,
    pub time1: i64,
    pub radius: i64,
    pub material: usize,
}

pub open spec fn moving_sphere_ok(s: MovingSphere) -> bool {
    vec_ok(s.center0) && vec_ok(s.center1) && fx_ok(s.time0 as int) && fx_ok(s.time1 as int)
        && fx_ok(s.radius as int)
}

/// The center at a time: linear interpolation between the two endpoints.
pub open spec fn spec_center(s: MovingSphere, time: int) -> Vec3 {
    spec_v_add(
        s.center0,
        spec_v_scale(
            spec_v_sub(s.center1, s.center0),
            spec_div(spec_sub(time, s.time0 as int), spec_sub(s.time1 as int, s.time0 as int)),
        ),
    )
}

pub open spec fn spec_moving_sphere_hit(s: MovingSphere, r: Ray, tmin: int, tmax: int) -> Option<
    HitRecord,
> {
    let center = spec_center(s, r.tm as int);
    match spec_sphere_root(center, s.radius as int, r, tmin, tmax) {
        None => None,
        Some(root) => {
            let p = spec_at(r, root);
            let outward = spec_v_div(spec_v_sub(p, center), s.radius as int);
            Some(
                HitRecord {
                    p,
                    normal: spec_oriented(r.dir, outward),
                    t: root as i64,
                    u: 0i64,
                    v: 0i64,
                    front_face: spec_front_face(r.dir, outward),
                    material: Some(s.material),
                },
            )
        },
    }
}

impl MovingSphere {
    pub fn new(
        center0: Vec3,
        center1: Vec3,
        time0: i64,
        time1: i64,
        radius: i64,
        material: usize,
    ) -> (r: MovingSphere)
        requires
            vec_ok(center0),
            vec_ok(center1),
            fx_ok(time0 as int),
            fx_ok(time1 as int),
            fx_ok(radius as int),
        ensures
            r == (MovingSphere { center0, center1, time0, time1, radius, material }),
            moving_sphere_ok(r),
    {
        MovingSphere { center0, center1, time0, time1, radius, material }
    }

    pub fn center(&self, time: i64) -> (r: Vec3)
        requires
            moving_sphere_ok(*self),
            fx_ok(time as int),
        ensures
            r == spec_center(*self, time as int),
            vec_ok(r),
    {
        let frac = fdiv(fsub(time, self.time0), fsub(self.time1, self.time0));
        self.center0.add(&self.center1.sub(&self.center0).scale(frac))
    }

    pub fn hit(&self, ray: &Ray, t_min: i64, t_max: i64) -> (r: Option<HitRecord>)
        requires
            moving_sphere_ok(*self),
            ray_ok(*ray),
        ensures
            r == spec_moving_sphere_hit(*self, *ray, t_min as int, t_max as int),
            match r {
                Some(rec) => rec_ok(rec) && t_min <= rec.t <= t_max,
                None => true,
            },
    {
        let center = self.center(ray.time());
        match sphere_root(&center, self.radius, ray, t_min, t_max) {
            None => None,
            Some(root) => {
                let p = ray.at(root);
                let outward = p.sub(&center).div(self.radius);
                let mut rec = HitRecord {
                    p,
                    normal: outward,
                    t: root,
                    u: 0,
                    v: 0,
                    front_face: false,
                    material: Some(self.material),
                };
                rec.set_face_normal(ray, outward);
                Some(rec)
            },
        }
    }

    /// The union of the swept cubes at the two interval ends.
    pub fn bounding_box(&self, time0: i64, time1: i64) -> (r: Option<AABB>)
        requires
            moving_sphere_ok(*self),
            fx_ok(time0 as int),
            fx_ok(time1 as int),
        ensures
            r == Some(
                spec_surround(
                    spec_sphere_box(spec_center(*self, time0 as int), self.radius as int),
                    spec_sphere_box(spec_center(*self, time1 as int), self.radius as int),
                ),
            ),
            aabb_ok(r->Some_0),
    {
        let rv = Vec3::new(self.radius, self.radius, self.radius);
        let c0 = self.center(time0);
        let c1 = self.center(time1);
        Some(
            AABB::surrounding_box(
                AABB::new(c0.sub(&rv), c0.add(&rv)),
                AABB::new(c1.sub(&rv), c1.add(&rv)),
            ),
        )
    }
}

} // verus!
