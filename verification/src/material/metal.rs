//! A mirror-like surface.

use vstd::prelude::*;
use crate::color::Color;
use crate::hit::Hit;
use crate::material::ScatterResult;
use crate::ray::Ray;
use crate::scalar::{Scalar, ONE_BITS};
use crate::scalar::lemma_magnitude_at_least_zero;
use crate::vec3::Vec3;

verus! {

/// A surface that reflects, the more blurred the larger its fuzz.
#[derive(Clone, Copy, Debug, PartialEq, Eq, Structural)]
pub struct Metal {
    pub albedo: Color,
    pub fuzz: Scalar,
}

/// A fuzz brought into the range from 0 to 1: a negative one becomes 0,
/// one above 1 becomes 1, and so does a NaN.
pub open spec fn clamped(fuzz: Scalar) -> Scalar {
    if fuzz.spec_lt(Scalar { bits: 0 }) {
        Scalar { bits: 0 }
    } else if fuzz.spec_le(Scalar { bits: ONE_BITS }) {
        fuzz
    } else {
        Scalar { bits: ONE_BITS }
    }
}

/// Whether a number lies in the range from 0 to 1.
pub open spec fn in_unit_range(fuzz: Scalar) -> bool {
    (Scalar { bits: 0 }).spec_le(fuzz) && fuzz.spec_le(Scalar { bits: ONE_BITS })
}

/// A clamped fuzz lies in the range from 0 to 1.
pub proof fn lemma_clamped_in_range(fuzz: Scalar)
    ensures
        in_unit_range(clamped(fuzz)),
{
    let one = Scalar { bits: ONE_BITS };
    lemma_magnitude_at_least_zero(one.magnitude_bits());
    lemma_magnitude_at_least_zero(0);
}

/// Clamping leaves a fuzz in the range from 0 to 1 as it is.
pub proof fn lemma_clamped_keeps(fuzz: Scalar)
    requires
        in_unit_range(fuzz),
    ensures
        clamped(fuzz) == fuzz,
{
}

impl Metal {
    /// Whether the fuzz lies in the range from 0 to 1.
    pub open spec fn well_formed(self) -> bool {
        in_unit_range(self.fuzz)
    }

    /// A metal of the given albedo, its fuzz brought into the range from 0
    /// to 1.
    pub fn new(albedo: Color, fuzz: Scalar) -> (m: Metal)
        ensures
            m == (Metal { albedo, fuzz: clamped(fuzz) }),
            m.well_formed(),
    {
        proof {
            lemma_clamped_in_range(fuzz);
        }
        let kept = if fuzz.lt(Scalar::zero()) {
            Scalar::zero()
        } else if fuzz.le(Scalar::one()) {
            fuzz
        } else {
            Scalar::one()
        };
        Metal { albedo, fuzz: kept }
    }

    /// Scatters a ray that hit the surface.
    ///
    /// `direction` is the mirror image of the incoming direction, moved by
    /// the fuzz times a random point of the unit sphere, and `facing` is
    /// its dot product with the hit's normal; the caller has worked out
    /// both. The ray is scattered exactly when `facing` is above zero, that
    /// is when `direction` leaves the surface; otherwise it is absorbed.
    pub fn scatter(&self, hit: &Hit, direction: Vec3, facing: Scalar) -> (s: Option<ScatterResult>)
        ensures
            s is Some <==> facing.spec_gt(Scalar { bits: 0 }),
            s is Some ==> s == Some(
                ScatterResult {
                    ray: Ray { origin: hit.position, direction },
                    attenuation: self.albedo,
                },
            ),
    {
        if facing.gt(Scalar::zero()) {
            Some(ScatterResult { ray: Ray::new(hit.position, direction), attenuation: self.albedo })
        } else {
            None
        }
    }

    /// What the surface gives off: nothing.
    pub fn emit(&self) -> (c: Color)
        ensures
            c == crate::color::spec_black(),
    {
        crate::color::black()
    }
}

} // verus!
