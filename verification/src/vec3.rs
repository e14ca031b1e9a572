//! Three scalars: a point, a direction or a colour.

use vstd::prelude::*;
use crate::scalar::{Scalar, ONE_BITS};

verus! {

/// The bit pattern of 1.0e-8, under which a component counts as zero.
pub const NEAR_ZERO_BITS: u32 = 0x322b_cc77;

/// A vector of three scalars.
#[derive(Clone, Copy, Debug, PartialEq, Eq, Structural)]
pub struct Vec3 {
    pub x: Scalar,
    pub y: Scalar,
    pub z: Scalar,
}

/// A place in the scene.
pub type Point3 = Vec3;

impl Vec3 {
    /// The vector with all components negated.
    pub open spec fn spec_neg(self) -> Vec3 {
        Vec3 { x: self.x.spec_neg(), y: self.y.spec_neg(), z: self.z.spec_neg() }
    }

    /// Whether each component is a number strictly between -1.0e-8 and
    /// 1.0e-8.
    pub open spec fn spec_is_near_zero(&self) -> bool {
        let eps = Scalar { bits: NEAR_ZERO_BITS };
        &&& self.x.spec_abs().spec_lt(eps)
        &&& self.y.spec_abs().spec_lt(eps)
        &&& self.z.spec_abs().spec_lt(eps)
    }

    pub fn new(x: Scalar, y: Scalar, z: Scalar) -> (v: Vec3)
        ensures
            v == (Vec3 { x, y, z }),
    {
        Vec3 { x, y, z }
    }

    pub fn x(&self) -> (r: Scalar)
        ensures
            r == self.x,
    {
        self.x
    }

    pub fn y(&self) -> (r: Scalar)
        ensures
            r == self.y,
    {
        self.y
    }

    pub fn z(&self) -> (r: Scalar)
        ensures
            r == self.z,
    {
        self.z
    }

    /// The opposite vector. Exact: only the sign bits change.
    #[verifier::when_used_as_spec(spec_neg)]
    pub fn neg(self) -> (v: Vec3)
        ensures
            v == self.spec_neg(),
    {
        Vec3 { x: self.x.neg(), y: self.y.neg(), z: self.z.neg() }
    }

    /// Whether the vector is too short to serve as a direction.
    #[verifier::when_used_as_spec(spec_is_near_zero)]
    pub fn is_near_zero(&self) -> (r: bool)
        ensures
            r == self.spec_is_near_zero(),
    {
        let eps = Scalar::from_bits(NEAR_ZERO_BITS);
        self.x.abs().lt(eps) && self.y.abs().lt(eps) && self.z.abs().lt(eps)
    }
}

/// Whether a vector of the given squared length is kept as a random point
/// of the unit sphere: every one but those of squared length 1 or more.
pub open spec fn spec_inside_unit_sphere(length_squared: Scalar) -> bool {
    !length_squared.spec_ge(Scalar { bits: ONE_BITS })
}

/// Whether a vector drawn from the cube around the unit sphere is kept as
/// a random point of the sphere, given its squared length. The caller
/// draws again until one is kept.
#[verifier::when_used_as_spec(spec_inside_unit_sphere)]
pub fn inside_unit_sphere(length_squared: Scalar) -> (r: bool)
    ensures
        r == spec_inside_unit_sphere(length_squared),
{
    !length_squared.ge(Scalar::one())
}

impl Default for Vec3 {
    /// The zero vector, which as a colour is black.
    fn default() -> (v: Vec3)
        ensures
            v == (Vec3 { x: Scalar { bits: 0 }, y: Scalar { bits: 0 }, z: Scalar { bits: 0 } }),
    {
        Vec3 { x: Scalar::zero(), y: Scalar::zero(), z: Scalar::zero() }
    }
}

} // verus!
