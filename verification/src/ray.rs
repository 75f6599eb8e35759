//! Rays: half-lines given by an origin and a direction.
use vstd::prelude::*;
use crate::vector::Vec3;

verus! {

/// A ray; the direction need not have unit length.
#[derive(Debug, Clone, Copy)]
pub struct Ray {
    pub origin: Vec3,
    pub direction: Vec3,
}

impl Ray {
    pub open spec fn spec_origin(&self) -> Vec3 {
        self.origin
    }

    pub open spec fn spec_direction(&self) -> Vec3 {
        self.direction
    }

    pub fn new(origin: Vec3, direction: Vec3) -> (r: Ray)
        ensures
            r == (Ray { origin, direction }),
    {
        Ray { origin, direction }
    }

    #[verifier::when_used_as_spec(spec_origin)]
    pub fn origin(&self) -> (o: Vec3)
        ensures
            o == self.origin,
    {
        self.origin
    }

    #[verifier::when_used_as_spec(spec_direction)]
    pub fn direction(&self) -> (d: Vec3)
        ensures
            d == self.direction,
    {
        self.direction
    }
}

} // verus!
