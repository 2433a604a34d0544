//! Axis-aligned bounding boxes: the slab intersection test and box union.
use vstd::prelude::*;

verus! {

use crate::fixed::{fx_ok, spec_min, spec_max, spec_sub, spec_div, fmin, fmax, fsub, fdiv};
use crate::vec3::{Vec3, vec_ok};
use crate::ray::{Ray, ray_ok};

#[derive(Clone, Copy, PartialEq, Eq, Structural, Debug)]
pub struct AABB {
    pub minimum: Vec3,
    pub maximum: Vec3,
}

pub open spec fn aabb_ok(b: AABB) -> bool {
    vec_ok(b.minimum) && vec_ok(b.maximum)
}

/// The componentwise union of two boxes.
pub open spec fn spec_surround(b0: AABB, b1: AABB) -> AABB {
    AABB {
        minimum: Vec3 {
            x: spec_min(b0.minimum.x as int, b1.minimum.x as int) as i64,
            y: spec_min(b0.minimum.y as int, b1.minimum.y as int) as i64,
            z: spec_min(b0.minimum.z as int, b1.minimum.z as int) as i64,
        },
        maximum: Vec3 {
            x: spec_max(b0.maximum.x as int, b1.maximum.x as int) as i64,
            y: spec_max(b0.maximum.y as int, b1.maximum.y as int) as i64,
            z: spec_max(b0.maximum.z as int, b1.maximum.z as int) as i64,
        },
    }
}

/// One slab of the test: intersect the ray's parameter interval with the
/// interval between the two planes of an axis.
pub open spec fn spec_axis_clip(minc: int, maxc: int, o: int, d: int, tmin: int, tmax: int) -> (
    int,
    int,
) {
    let t0 = spec_div(spec_sub(minc, o), d);
    let t1 = spec_div(spec_sub(maxc, o), d);
    let lo = if d < 0 {
        t1
    } else {
        t0
    };
    let hi = if d < 0 {
        t0
    } else {
        t1
    };
    (spec_max(lo, tmin), spec_min(hi, tmax))
}

/// The slab test over all three axes.
pub open spec fn spec_aabb_hit(b: AABB, r: Ray, tmin: int, tmax: int) -> bool {
    let px = spec_axis_clip(
        b.minimum.x as int,
        b.maximum.x as int,
        r.orig.x as int,
        r.dir.x as int,
        tmin,
        tmax,
    );
    if px.1 <= px.0 {
        false
    } else {
        let py = spec_axis_clip(
            b.minimum.y as int,
            b.maximum.y as int,
            r.orig.y as int,
            r.dir.y as int,
            px.0,
            px.1,
        );
        if py.1 <= py.0 {
            false
        } else {
            let pz = spec_axis_clip(
                b.minimum.z as int,
                b.maximum.z as int,
                r.orig.z as int,
                r.dir.z as int,
                py.0,
                py.1,
            );
            pz.1 > pz.0
        }
    }
}

/// One exec slab step, mirroring `spec_axis_clip`.
fn axis_clip(minc: i64, maxc: i64, o: i64, d: i64, tmin: i64, tmax: i64) -> (r: (i64, i64))
    requires
        fx_ok(minc as int),
        fx_ok(maxc as int),
        fx_ok(o as int),
        fx_ok(d as int),
    ensures
        (r.0 as int, r.1 as int) == spec_axis_clip(
            minc as int,
            maxc as int,
            o as int,
            d as int,
            tmin as int,
            tmax as int,
        ),
{
    let t0 = fdiv(fsub(minc, o), d);
    let t1 = fdiv(fsub(maxc, o), d);
    let (lo, hi) = if d < 0 {
        (t1, t0)
    } else {
        (t0, t1)
    };
    (fmax(lo, tmin), fmin(hi, tmax))
}

impl AABB {
    pub fn new(a: Vec3, b: Vec3) -> (r: AABB)
        requires
            vec_ok(a),
            vec_ok(b),
        ensures
            r == (AABB { minimum: a, maximum: b }),
            aabb_ok(r),
    {
        AABB { minimum: a, maximum: b }
    }

    pub fn zero() -> (r: AABB)
        ensures
            r == (AABB { minimum: Vec3 { x: 0i64, y: 0i64, z: 0i64 }, maximum: Vec3 { x: 0i64, y: 0i64, z: 0i64 } }),
            aabb_ok(r),
    {
        AABB { minimum: Vec3::zero(), maximum: Vec3::zero() }
    }

    pub fn surrounding_box(box0: AABB, box1: AABB) -> (r: AABB)
        requires
            aabb_ok(box0),
            aabb_ok(box1),
        ensures
            r == spec_surround(box0, box1),
            aabb_ok(r),
    {
        let small = Vec3::new(
            fmin(box0.minimum.x, box1.minimum.x),
            fmin(box0.minimum.y, box1.minimum.y),
            fmin(box0.minimum.z, box1.minimum.z),
        );
        let big = Vec3::new(
            fmax(box0.maximum.x, box1.maximum.x),
            fmax(box0.maximum.y, box1.maximum.y),
            fmax(box0.maximum.z, box1.maximum.z),
        );
        AABB { minimum: small, maximum: big }
    }

    pub fn min(&self) -> (r: Vec3)
        ensures
            r == self.minimum,
    {
        self.minimum
    }

    pub fn max(&self) -> (r: Vec3)
        ensures
            r == self.maximum,
    {
        self.maximum
    }

    /// Whether the ray's parameter interval survives all three slab clips.
    pub fn hit(&self, ray: &Ray, t_min: i64, t_max: i64) -> (r: bool)
        requires
            aabb_ok(*self),
            ray_ok(*ray),
        ensures
            r == spec_aabb_hit(*self, *ray, t_min as int, t_max as int),
    {
        let px = axis_clip(self.minimum.x, self.maximum.x, ray.orig.x, ray.dir.x, t_min, t_max);
        if px.1 <= px.0 {
            return false;
        }
        let py = axis_clip(self.minimum.y, self.maximum.y, ray.orig.y, ray.dir.y, px.0, px.1);
        if py.1 <= py.0 {
            return false;
        }
        let pz = axis_clip(self.minimum.z, self.maximum.z, ray.orig.z, ray.dir.z, py.0, py.1);
        pz.1 > pz.0
    }
}

/// The box inside an optional result, or the zero box when there is none:
/// the visibly wrong fallback for geometry that cannot report a box.
pub open spec fn box_or_zero(o: Option<AABB>) -> AABB {
    match o {
        Some(b) => b,
        None => AABB {
            minimum: Vec3 { x: 0i64, y: 0i64, z: 0i64 },
            maximum: Vec3 { x: 0i64, y: 0i64, z: 0i64 },
        },
    }
}

/// Law: the surrounding box does not depend on argument order.
pub proof fn lemma_surround_comm(a: AABB, b: AABB)
    ensures
        spec_surround(a, b) == spec_surround(b, a),
{
}

/// Law: surrounding a box with itself gives the box back.
pub proof fn lemma_surround_idem(a: AABB)
    ensures
        spec_surround(a, a) == a,
{
}

} // verus!
