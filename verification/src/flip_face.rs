//! A decorator that inverts which side of its inner hittable counts as the
//! front, used to make lights emit from a chosen face.
use vstd::prelude::*;

verus! {

use crate::hittable::Hittable;

#[derive(PartialEq, Eq, Debug)]
pub struct FlipFace {
    pub ptr: Box<Hittable>,
}

impl FlipFace {
    pub fn new(p: Box<Hittable>) -> (r: FlipFace)
        ensures
            r == (FlipFace { ptr: p }),
    {
        FlipFace { ptr: p }
    }
}

} // verus!
