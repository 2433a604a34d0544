//! A parametric ray: origin, direction, and a time stamp for motion blur.
use vstd::prelude::*;

verus! {

use crate::fixed::fx_ok;
use crate::vec3::{Vec3, vec_ok, spec_v_add, spec_v_scale};

#[derive(Clone, Copy, PartialEq, Eq, Structural, Debug)]
pub struct Ray {
    pub orig: Vec3,
    pub dir: Vec3,
    pub tm: i64,
}

pub open spec fn ray_ok(r: Ray) -> bool {
    vec_ok(r.orig) && vec_ok(r.dir) && fx_ok(r.tm as int)
}

/// The point reached after parameter t: origin + t * direction.
pub open spec fn spec_at(r: Ray, t: int) -> Vec3 {
    spec_v_add(r.orig, spec_v_scale(r.dir, t))
}

impl Ray {
    pub fn new(origin: Vec3, direction: Vec3, time: i64) -> (r: Ray)
        requires
            vec_ok(origin),
            vec_ok(direction),
            fx_ok(time as int),
        ensures
            r == (Ray { orig: origin, dir: direction, tm: time }),
            ray_ok(r),
    {
        Ray { orig: origin, dir: direction, tm: time }
    }

    pub fn origin(&self) -> (r: Vec3)
        ensures
            r == self.orig,
    {
        self.orig
    }

    pub fn direction(&self) -> (r: Vec3)
        ensures
            r == self.dir,
    {
        self.dir
    }

    pub fn time(&self) -> (r: i64)
        ensures
            r == self.tm,
    {
        self.tm
    }

    pub fn at(&self, t: i64) -> (r: Vec3)
        requires
            ray_ok(*self),
            fx_ok(t as int),
        ensures
            r == spec_at(*self, t as int),
            vec_ok(r),
    {
        self.orig.add(&self.dir.scale(t))
    }
}

} // verus!
