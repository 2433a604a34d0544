//! The bounding volume hierarchy: a binary tree over hittables built by
//! sorting along a randomly chosen axis and splitting at the middle.
use vstd::prelude::*;

verus! {

use vstd::multiset::Multiset;
use vstd::seq_lib::lemma_multiset_commutative;
use crate::fixed::fx_ok;
use crate::aabb::{AABB, aabb_ok, spec_surround};
use crate::vec3::Vec3;
use crate::rng::rng_below;
use crate::hittable::{Hittable, hittable_ok, no_medium, spec_bounding_box};

#[derive(PartialEq, Eq, Debug)]
pub struct BvhNode {
    pub bbox: AABB,
    pub left: Box<Hittable>,
    pub right: Box<Hittable>,
}

/// The bag of leaf objects a tree holds: nodes contribute their subtrees,
/// the sentinel nothing, and anything else is itself a leaf.
pub open spec fn spec_leaf_ms(h: Hittable) -> Multiset<Hittable>
    decreases h,
{
    match h {
        Hittable::Bvh(b) => spec_leaf_ms(*b.left).add(spec_leaf_ms(*b.right)),
        Hittable::Empty => Multiset::empty(),
        _ => Multiset::empty().insert(h),
    }
}

/// The node box from two optional child boxes: their union where both
/// exist, the one that exists otherwise, and the visibly wrong zero box
/// when neither child can report one.
pub open spec fn spec_node_box(bl: Option<AABB>, br: Option<AABB>) -> AABB {
    match (bl, br) {
        (Some(a), Some(b)) => spec_surround(a, b),
        (Some(a), None) => a,
        (None, Some(b)) => b,
        (None, None) => AABB {
            minimum: Vec3 { x: 0i64, y: 0i64, z: 0i64 },
            maximum: Vec3 { x: 0i64, y: 0i64, z: 0i64 },
        },
    }
}

/// The sort key: the box minimum along the chosen axis, zero for boxless
/// geometry.
pub open spec fn spec_axis_key(h: Hittable, axis: int) -> int {
    match spec_bounding_box(h, 0, 0) {
        None => 0,
        Some(b) => if axis == 0 {
            b.minimum.x as int
        } else if axis == 1 {
            b.minimum.y as int
        } else {
            b.minimum.z as int
        },
    }
}

fn axis_key(h: &Hittable, axis: u64) -> (r: i64)
    requires
        hittable_ok(*h),
    ensures
        r == spec_axis_key(*h, axis as int),
{
    match h.bounding_box(0, 0) {
        None => 0,
        Some(b) => if axis == 0 {
            b.minimum.x
        } else if axis == 1 {
            b.minimum.y
        } else {
            b.minimum.z
        },
    }
}

/// Sort by ascending axis key, by repeatedly extracting a minimal element.
/// The bag of objects is preserved.
fn sort_by_axis(objects: Vec<Hittable>, axis: u64) -> (r: Vec<Hittable>)
    requires
        forall|j: int| 0 <= j < objects@.len() ==> hittable_ok(#[trigger] objects@[j]),
    ensures
        r@.to_multiset() == objects@.to_multiset(),
        r@.len() == objects@.len(),
        forall|j: int| 0 <= j < r@.len() ==> hittable_ok(#[trigger] r@[j]),
        forall|j: int| 0 <= j < r@.len() ==> objects@.contains(#[trigger] r@[j]),
{
    broadcast use vstd::seq_lib::group_to_multiset_ensures;
    broadcast use vstd::multiset::group_multiset_axioms;

    let ghost orig = objects@;
    let mut src = objects;
    let mut out: Vec<Hittable> = Vec::new();
    while src.len() > 0
        invariant
            out@.to_multiset().add(src@.to_multiset()) =~= orig.to_multiset(),
            out@.len() + src@.len() == orig.len(),
            forall|j: int| 0 <= j < src@.len() ==> hittable_ok(#[trigger] src@[j]),
            forall|j: int| 0 <= j < out@.len() ==> hittable_ok(#[trigger] out@[j]),
            forall|j: int| 0 <= j < src@.len() ==> orig.contains(#[trigger] src@[j]),
            forall|j: int| 0 <= j < out@.len() ==> orig.contains(#[trigger] out@[j]),
        decreases src@.len(),
    {
        let mut mi: usize = 0;
        let mut mk = axis_key(&src[0], axis);
        let mut j: usize = 1;
        while j < src.len()
            invariant
                0 <= mi < src@.len(),
                1 <= j <= src@.len(),
                forall|q: int| 0 <= q < src@.len() ==> hittable_ok(#[trigger] src@[q]),
                mk == spec_axis_key(src@[mi as int], axis as int),
            decreases src@.len() - j,
        {
            let k = axis_key(&src[j], axis);
            if k < mk {
                mi = j;
                mk = k;
            }
            j = j + 1;
        }
        let ghost old_src = src@;
        let ghost old_out = out@;
        proof {
            old_src.to_multiset_ensures();
            assert(old_src.contains(old_src[mi as int]));
            assert(old_src.to_multiset().count(old_src[mi as int]) > 0);
        }
        let x = src.remove(mi);
        out.push(x);
        proof {
            old_src.to_multiset_ensures();
            old_out.to_multiset_ensures();
            assert(src@ == old_src.remove(mi as int));
            assert(out@ == old_out.push(x));
            assert(out@.to_multiset() =~= old_out.to_multiset().insert(x));
            assert(src@.to_multiset() =~= old_src.to_multiset().remove(x));
            assert(out@.to_multiset().add(src@.to_multiset()) =~= orig.to_multiset());
        }
    }
    proof {
        assert(out@.to_multiset() =~= orig.to_multiset());
        assert(out@.len() == out@.to_multiset().len());
        assert(orig.len() == orig.to_multiset().len());
        assert forall|j: int| 0 <= j < out@.len() implies orig.contains(#[trigger] out@[j]) by {}
        assert forall|j: int| 0 <= j < out@.len() implies hittable_ok(#[trigger] out@[j]) by {}
    }
    out
}

/// The brute-force linear scan over a tree's leaves, in leaf order, keeping
/// the closest hit: the state is the best record so far and the shrunken
/// upper window. Anything that is not a tree node counts as one leaf.
pub open spec fn spec_scan_hit(
    h: Hittable,
    r: crate::ray::Ray,
    tmin: int,
    cur_max: int,
    best: Option<crate::hittable::HitRecord>,
) -> (Option<crate::hittable::HitRecord>, int)
    decreases h,
{
    match h {
        Hittable::Bvh(b) => {
            let s1 = spec_scan_hit(*b.left, r, tmin, cur_max, best);
            spec_scan_hit(*b.right, r, tmin, s1.1, s1.0)
        },
        Hittable::Empty => (best, cur_max),
        _ => match crate::hittable::spec_hit(h, r, tmin, cur_max) {
            Some(rec) => (Some(rec), rec.t as int),
            None => (best, cur_max),
        },
    }
}

/// Whether every node box in the tree prunes soundly: wherever the slab
/// test rejects a window, the node's whole subtree holds no hit in it.
/// Exact geometry guarantees this; fixed-point rounding of the slab test
/// need not, which is why it stands as a hypothesis.
pub open spec fn prune_sound(h: Hittable) -> bool
    decreases h,
{
    match h {
        Hittable::Bvh(b) => {
            &&& (forall|r: crate::ray::Ray, tmin: int, cmax: int, best: Option<
                crate::hittable::HitRecord,
            >|
                !crate::aabb::spec_aabb_hit(b.bbox, r, tmin, cmax)
                    ==> #[trigger] spec_scan_hit(h, r, tmin, cmax, best) == (best, cmax))
            &&& prune_sound(*b.left)
            &&& prune_sound(*b.right)
        },
        _ => true,
    }
}

/// Law: when every box prunes soundly, the tree traversal agrees exactly
/// with the brute-force scan over the same objects: same hit, same
/// parameter, starting from any window and running best.
pub proof fn lemma_bvh_hit_equals_scan(
    h: Hittable,
    r: crate::ray::Ray,
    tmin: int,
    cur_max: int,
    best: Option<crate::hittable::HitRecord>,
)
    requires
        prune_sound(h),
    ensures
        spec_scan_hit(h, r, tmin, cur_max, best) == (match crate::hittable::spec_hit(
            h,
            r,
            tmin,
            cur_max,
        ) {
            Some(rec) => (Some(rec), rec.t as int),
            None => (best, cur_max),
        }),
    decreases h,
{
    match h {
        Hittable::Bvh(b) => {
            if !crate::aabb::spec_aabb_hit(b.bbox, r, tmin, cur_max) {
                assert(spec_scan_hit(h, r, tmin, cur_max, best) == (best, cur_max));
            } else {
                lemma_bvh_hit_equals_scan(*b.left, r, tmin, cur_max, best);
                let s1 = spec_scan_hit(*b.left, r, tmin, cur_max, best);
                lemma_bvh_hit_equals_scan(*b.right, r, tmin, s1.1, s1.0);
            }
        },
        _ => {},
    }
}

impl BvhNode {
    /// Build a tree over at least one object: sort along a random axis,
    /// split at the middle index, and cover both halves' boxes. A single
    /// object gets the never-hit sentinel as its sibling. The inputs may
    /// not themselves be tree nodes or sentinels: the leaf-bag contract
    /// below counts exactly the given objects, and nothing assembles trees
    /// out of trees.
    pub fn new(objects: Vec<Hittable>, time0: i64, time1: i64, rng: &mut rand::rngs::StdRng) -> (r:
        BvhNode)
        requires
            objects@.len() >= 1,
            forall|j: int| 0 <= j < objects@.len() ==> hittable_ok(#[trigger] objects@[j]),
            forall|j: int|
                0 <= j < objects@.len() ==> !((#[trigger] objects@[j]) is Bvh) && !(objects@[j]
                    is Empty),
            fx_ok(time0 as int),
            fx_ok(time1 as int),
        ensures
            hittable_ok(Hittable::Bvh(r)),
            spec_leaf_ms(Hittable::Bvh(r)) == objects@.to_multiset(),
            r.bbox == spec_node_box(
                spec_bounding_box(*r.left, time0 as int, time1 as int),
                spec_bounding_box(*r.right, time0 as int, time1 as int),
            ),
            (forall|j: int| 0 <= j < objects@.len() ==> no_medium(#[trigger] objects@[j]))
                ==> no_medium(Hittable::Bvh(r)),
        decreases objects@.len(),
    {
        broadcast use vstd::seq_lib::group_to_multiset_ensures;
        broadcast use vstd::multiset::group_multiset_axioms;

        let ghost orig = objects@;
        let ghost nm_all = forall|j: int| 0 <= j < orig.len() ==> no_medium(#[trigger] orig[j]);
        let axis = rng_below(rng, 3);
        let mut objs = sort_by_axis(objects, axis);
        let ghost sorted = objs@;
        let len = objs.len();
        let (left, right): (Hittable, Hittable) = if len == 1 {
            let a = objs.remove(0);
            proof {
                assert(sorted.to_multiset() =~= Multiset::empty().insert(a)) by {
                    assert(sorted =~= seq![a]);
                    assert(seq![a].drop_first() =~= Seq::<Hittable>::empty());
                    vstd::seq_lib::lemma_multiset_commutative(Seq::<Hittable>::empty(), seq![a]);
                }
                assert(orig.contains(a));
                assert(!(a is Bvh) && !(a is Empty));
                assert(hittable_ok(a));
                assert(spec_leaf_ms(a) =~= Multiset::empty().insert(a));
                assert(spec_leaf_ms(a).add(spec_leaf_ms(Hittable::Empty)) =~= orig.to_multiset());
                if nm_all {
                    assert(no_medium(a));
                }
            }
            (a, Hittable::Empty)
        } else if len == 2 {
            let b = objs.remove(1);
            let a = objs.remove(0);
            proof {
                assert(sorted.to_multiset() =~= Multiset::empty().insert(a).add(
                    Multiset::empty().insert(b),
                )) by {
                    assert(sorted =~= seq![a] + seq![b]);
                    vstd::seq_lib::lemma_multiset_commutative(seq![a], seq![b]);
                    assert(seq![a].to_multiset() =~= Multiset::empty().insert(a)) by {
                        assert(seq![a].drop_first() =~= Seq::<Hittable>::empty());
                    }
                    assert(seq![b].to_multiset() =~= Multiset::empty().insert(b)) by {
                        assert(seq![b].drop_first() =~= Seq::<Hittable>::empty());
                    }
                }
                assert(orig.contains(a) && orig.contains(b));
                assert(!(a is Bvh) && !(a is Empty) && !(b is Bvh) && !(b is Empty));
                assert(hittable_ok(a) && hittable_ok(b));
                assert(spec_leaf_ms(a) =~= Multiset::empty().insert(a));
                assert(spec_leaf_ms(b) =~= Multiset::empty().insert(b));
                assert(spec_leaf_ms(a).add(spec_leaf_ms(b)) =~= orig.to_multiset());
                if nm_all {
                    assert(no_medium(a) && no_medium(b));
                }
            }
            (a, b)
        } else {
            let mid = len / 2;
            let second = objs.split_off(mid);
            proof {
                assert(sorted =~= objs@ + second@);
                lemma_multiset_commutative(objs@, second@);
                assert(forall|j: int|
                    0 <= j < objs@.len() ==> hittable_ok(#[trigger] objs@[j])) by {
                    assert(forall|j: int|
                        0 <= j < objs@.len() ==> objs@[j] == sorted[j]);
                }
                assert(forall|j: int|
                    0 <= j < second@.len() ==> hittable_ok(#[trigger] second@[j])) by {
                    assert(forall|j: int|
                        0 <= j < second@.len() ==> second@[j] == sorted[j + objs@.len()]);
                }
                assert(forall|j: int|
                    0 <= j < objs@.len() ==> !((#[trigger] objs@[j]) is Bvh) && !(objs@[j]
                        is Empty));
                assert(forall|j: int|
                    0 <= j < second@.len() ==> !((#[trigger] second@[j]) is Bvh) && !(second@[j]
                        is Empty));
                assert(forall|j: int|
                    0 <= j < objs@.len() ==> orig.contains(#[trigger] objs@[j]));
                assert(forall|j: int|
                    0 <= j < second@.len() ==> orig.contains(#[trigger] second@[j]));
                if nm_all {
                    assert(forall|j: int| 0 <= j < objs@.len() ==> no_medium(#[trigger] objs@[j]));
                    assert(forall|j: int|
                        0 <= j < second@.len() ==> no_medium(#[trigger] second@[j]));
                }
            }
            let ghost first_view = objs@;
            let lnode = BvhNode::new(objs, time0, time1, rng);
            let rnode = BvhNode::new(second, time0, time1, rng);
            proof {
                assert(spec_leaf_ms(Hittable::Bvh(lnode)).add(spec_leaf_ms(Hittable::Bvh(rnode)))
                    =~= orig.to_multiset()) by {
                    assert(spec_leaf_ms(Hittable::Bvh(lnode)) == first_view.to_multiset());
                    assert(spec_leaf_ms(Hittable::Bvh(rnode)) == second@.to_multiset());
                    assert((first_view + second@).to_multiset() =~= first_view.to_multiset().add(
                        second@.to_multiset(),
                    ));
                    assert(sorted.to_multiset() == orig.to_multiset());
                }
            }
            (Hittable::Bvh(lnode), Hittable::Bvh(rnode))
        };
        let bl = left.bounding_box(time0, time1);
        let br = right.bounding_box(time0, time1);
        let bbox = match (bl, br) {
            (Some(a), Some(b)) => AABB::surrounding_box(a, b),
            (Some(a), None) => a,
            (None, Some(b)) => b,
            (None, None) => AABB::zero(),
        };
        let node = BvhNode { bbox, left: Box::new(left), right: Box::new(right) };
        proof {
            assert(spec_leaf_ms(Hittable::Bvh(node)) =~= orig.to_multiset()) by {
                assert(spec_leaf_ms(Hittable::Bvh(node)) == spec_leaf_ms(left).add(
                    spec_leaf_ms(right),
                ));
            }
            if nm_all {
                assert(no_medium(left) && no_medium(right));
                assert(no_medium(Hittable::Bvh(node)));
            }
        }
        node
    }
}

} // verus!
