//! A half-line through the scene.

use vstd::prelude::*;
use crate::vec3::{Point3, Vec3};

verus! {

/// A ray: the points `origin + t * direction`. The direction need not have
/// unit length.
#[derive(Clone, Copy, Debug, PartialEq, Eq, Structural)]
pub struct Ray {
    pub origin: Point3,
    pub direction: Vec3,
}

impl Ray {
    pub fn new(origin: Point3, direction: Vec3) -> (r: Ray)
        ensures
            r == (Ray { origin, direction }),
    {
        Ray { origin, direction }
    }

    pub fn origin(&self) -> (p: Point3)
        ensures
            p == self.origin,
    {
        self.origin
    }

    pub fn direction(&self) -> (d: Vec3)
        ensures
            d == self.direction,
    {
        self.direction
    }
}

} // verus!
