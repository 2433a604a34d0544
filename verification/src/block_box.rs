//! A closed axis-aligned box assembled from six rectangles.
use vstd::prelude::*;

verus! {

use crate::vec3::{Vec3, vec_ok};
use crate::rect::{XyRect, XzRect, YzRect};
use crate::hittable::Hittable;
use crate::hittable_list::HittableList;

#[derive(PartialEq, Eq, Debug)]
pub struct BlockBox {
    pub box_min: Vec3,
    pub box_max: Vec3,
    pub sides: HittableList,
}

/// The six faces, in construction order.
pub open spec fn spec_block_sides(p0: Vec3, p1: Vec3, material: usize) -> Seq<Hittable> {
    seq![
        Hittable::XyRect(
            XyRect { x0: p0.x, x1: p1.x, y0: p0.y, y1: p1.y, k: p1.z, material },
        ),
        Hittable::XyRect(
            XyRect { x0: p0.x, x1: p1.x, y0: p0.y, y1: p1.y, k: p0.z, material },
        ),
        Hittable::XzRect(
            XzRect { x0: p0.x, x1: p1.x, z0: p0.z, z1: p1.z, k: p1.y, material },
        ),
        Hittable::XzRect(
            XzRect { x0: p0.x, x1: p1.x, z0: p0.z, z1: p1.z, k: p0.y, material },
        ),
        Hittable::YzRect(
            YzRect { y0: p0.y, y1: p1.y, z0: p0.z, z1: p1.z, k: p1.x, material },
        ),
        Hittable::YzRect(
            YzRect { y0: p0.y, y1: p1.y, z0: p0.z, z1: p1.z, k: p0.x, material },
        ),
    ]
}

impl BlockBox {
    pub fn new(p0: Vec3, p1: Vec3, material: usize) -> (r: BlockBox)
        requires
            vec_ok(p0),
            vec_ok(p1),
        ensures
            r.box_min == p0,
            r.box_max == p1,
            r.sides.objects@ =~= spec_block_sides(p0, p1, material),
    {
        let mut sides = HittableList::new();
        sides.add(Hittable::XyRect(XyRect::new(p0.x, p1.x, p0.y, p1.y, p1.z, material)));
        sides.add(Hittable::XyRect(XyRect::new(p0.x, p1.x, p0.y, p1.y, p0.z, material)));
        sides.add(Hittable::XzRect(XzRect::new(p0.x, p1.x, p0.z, p1.z, p1.y, material)));
        sides.add(Hittable::XzRect(XzRect::new(p0.x, p1.x, p0.z, p1.z, p0.y, material)));
        sides.add(Hittable::YzRect(YzRect::new(p0.y, p1.y, p0.z, p1.z, p1.x, material)));
        sides.add(Hittable::YzRect(YzRect::new(p0.y, p1.y, p0.z, p1.z, p0.x, material)));
        proof {
            assert(sides.objects@ =~= spec_block_sides(p0, p1, material));
        }
        BlockBox { box_min: p0, box_max: p1, sides }
    }
}

} // verus!
