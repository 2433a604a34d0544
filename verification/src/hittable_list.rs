//! A composite of hittables, traversed keeping the closest hit.
use vstd::prelude::*;

verus! {

use crate::hittable::Hittable;

#[derive(PartialEq, Eq, Debug)]
pub struct HittableList {
    pub objects: Vec<Hittable>,
}

impl HittableList {
    pub fn new() -> (r: HittableList)
        ensures
            r.objects@.len() == 0,
    {
        HittableList { objects: Vec::new() }
    }

    pub fn new_with(object: Hittable) -> (r: HittableList)
        ensures
            r.objects@ =~= seq![object],
    {
        let mut list = HittableList::new();
        list.add(object);
        proof {
            assert(list.objects@ =~= seq![object]);
        }
        list
    }

    pub fn add(&mut self, object: Hittable)
        ensures
            final(self).objects@ == old(self).objects@.push(object),
    {
        self.objects.push(object);
    }

    /// Kept alongside `add` for parity: ownership is by value here, so
    /// sharing an object means handing it over.
    pub fn add_shared(&mut self, object: Hittable)
        ensures
            final(self).objects@ == old(self).objects@.push(object),
    {
        self.objects.push(object);
    }
}

} // verus!
