//! A ray: an origin point and a direction, evaluated at a parametric
//! distance. Directions need not be normalized.

use vstd::prelude::*;

use crate::fixed::Fx;
use crate::vec3::Vec3;

verus! {

#[derive(Clone, Copy, PartialEq, Eq, Structural, Debug)]
pub struct Ray {
    pub orig: Vec3,
    pub dir: Vec3,
}

impl Ray {
    pub fn new(orig: Vec3, dir: Vec3) -> (r: Ray)
        ensures
            r == (Ray { orig, dir }),
    {
        Ray { orig, dir }
    }

    /// Get the ray's direction.
    pub fn dir(&self) -> (r: Vec3)
        ensures
            r == self.dir,
    {
        self.dir
    }

    /// Get the ray's origin.
    pub fn orig(&self) -> (r: Vec3)
        ensures
            r == self.orig,
    {
        self.orig
    }

    /// The point `orig + t * dir`.
    pub open spec fn spec_at(self, t: Fx) -> Vec3 {
        self.orig.spec_plus(self.dir.spec_scale(t))
    }

    pub fn at(&self, t: Fx) -> (r: Vec3)
        ensures
            r == self.spec_at(t),
    {
        self.orig().plus(self.dir().scale(t))
    }
}

} // verus!
