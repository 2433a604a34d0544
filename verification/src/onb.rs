//! An orthonormal basis built from a normal, mapping sampled directions
//! from the local frame into world space.
use vstd::prelude::*;

verus! {

use crate::fixed::{fx_ok, abs_i};
use crate::vec3::{
    Vec3, vec_ok, spec_v_add, spec_v_scale, spec_unit, spec_cross,
};

#[derive(Clone, Copy, PartialEq, Eq, Structural, Debug)]
pub struct Onb {
    pub ax0: Vec3,
    pub ax1: Vec3,
    pub ax2: Vec3,
}

pub open spec fn onb_ok(o: Onb) -> bool {
    vec_ok(o.ax0) && vec_ok(o.ax1) && vec_ok(o.ax2)
}

/// The combination a*u + b*v + c*w of the three axes.
pub open spec fn spec_local(o: Onb, a: int, b: int, c: int) -> Vec3 {
    spec_v_add(spec_v_add(spec_v_scale(o.ax0, a), spec_v_scale(o.ax1, b)), spec_v_scale(o.ax2, c))
}

/// The basis the constructor derives from a normal: w along the normal,
/// u and v completing the frame via cross products.
pub open spec fn spec_onb_from(n: Vec3) -> Onb {
    let w = spec_unit(n);
    let a = if abs_i(w.x as int) > 58982 {
        Vec3 { x: 0i64, y: crate::fixed::ONE, z: 0i64 }
    } else {
        Vec3 { x: crate::fixed::ONE, y: 0i64, z: 0i64 }
    };
    let v = spec_unit(spec_cross(w, a));
    let u = spec_cross(w, v);
    Onb { ax0: u, ax1: v, ax2: w }
}

impl Onb {
    pub fn u(&self) -> (r: Vec3)
        ensures
            r == self.ax0,
    {
        self.ax0
    }

    pub fn v(&self) -> (r: Vec3)
        ensures
            r == self.ax1,
    {
        self.ax1
    }

    pub fn w(&self) -> (r: Vec3)
        ensures
            r == self.ax2,
    {
        self.ax2
    }

    pub fn local(&self, a: i64, b: i64, c: i64) -> (r: Vec3)
        requires
            onb_ok(*self),
            fx_ok(a as int),
            fx_ok(b as int),
            fx_ok(c as int),
        ensures
            r == spec_local(*self, a as int, b as int, c as int),
            vec_ok(r),
    {
        self.ax0.scale(a).add(&self.ax1.scale(b)).add(&self.ax2.scale(c))
    }

    pub fn local_v(&self, v: &Vec3) -> (r: Vec3)
        requires
            onb_ok(*self),
            vec_ok(*v),
        ensures
            r == spec_local(*self, v.x as int, v.y as int, v.z as int),
            vec_ok(r),
    {
        self.local(v.x, v.y, v.z)
    }

    /// Build the frame from a normal, w pointing along it.
    pub fn from_w(n: &Vec3) -> (r: Onb)
        requires
            vec_ok(*n),
        ensures
            r == spec_onb_from(*n),
            onb_ok(r),
    {
        let ax2 = n.unit_vector();
        let a = if crate::fixed::fabs(ax2.x) > 58982 {
            Vec3::new(0, crate::fixed::ONE, 0)
        } else {
            Vec3::new(crate::fixed::ONE, 0, 0)
        };
        let ax1 = ax2.cross(&a).unit_vector();
        let ax0 = ax2.cross(&ax1);
        Onb { ax0, ax1, ax2 }
    }
}

} // verus!
