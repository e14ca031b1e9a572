//! A clear, refracting surface.

use vstd::prelude::*;
use crate::color::Color;
use crate::hit::Hit;
use crate::material::ScatterResult;
use crate::ray::Ray;
use crate::scalar::{Scalar, ONE_BITS};
use crate::vec3::Vec3;

verus! {

/// A surface such as glass or water, by its refractive index.
#[derive(Clone, Copy, Debug, PartialEq, Eq, Structural)]
pub struct Dielectric {
    pub ref_idx: Scalar,
}

/// What a refracting surface did with a ray.
#[derive(Clone, Copy, Debug, PartialEq, Eq, Structural)]
pub enum Bounce {
    Reflect,
    Refract,
}

impl Dielectric {
    /// Whether the refractive index is above zero.
    pub open spec fn well_formed(self) -> bool {
        self.ref_idx.spec_gt(Scalar { bits: 0 })
    }

    /// Whether a ray is reflected or refracted.
    ///
    /// `bend` is the refraction ratio times the sine of the angle of
    /// incidence: above 1, Snell's law has no solution and the ray must
    /// reflect. Below that the ray still reflects when `reflectance`
    /// exceeds the random `draw`.
    pub open spec fn spec_decide(bend: Scalar, reflectance: Scalar, draw: Scalar) -> Bounce {
        if bend.spec_gt(Scalar { bits: ONE_BITS }) || reflectance.spec_gt(draw) {
            Bounce::Reflect
        } else {
            Bounce::Refract
        }
    }

    pub fn new(ref_idx: Scalar) -> (d: Dielectric)
        ensures
            d == (Dielectric { ref_idx }),
    {
        Dielectric { ref_idx }
    }

    /// Whether a ray is reflected or refracted.
    #[verifier::when_used_as_spec(spec_decide)]
    pub fn decide(bend: Scalar, reflectance: Scalar, draw: Scalar) -> (b: Bounce)
        ensures
            b == Self::spec_decide(bend, reflectance, draw),
    {
        if bend.gt(Scalar::one()) || reflectance.gt(draw) {
            Bounce::Reflect
        } else {
            Bounce::Refract
        }
    }

    /// Scatters a ray that hit the surface.
    ///
    /// The caller has worked out, for the refraction ratio that the side of
    /// the hit calls for, `bend` (the ratio times the sine of the angle of
    /// incidence), the Schlick `reflectance`, the two directions the ray
    /// may take, and has drawn `draw` uniformly from 0 to 1. The surface
    /// always scatters, from the hit position, and absorbs nothing.
    pub fn scatter(
        &self,
        hit: &Hit,
        bend: Scalar,
        reflectance: Scalar,
        draw: Scalar,
        reflected: Vec3,
        refracted: Vec3,
    ) -> (s: Option<ScatterResult>)
        ensures
            s == Some(
                ScatterResult {
                    ray: Ray {
                        origin: hit.position,
                        direction: match Self::spec_decide(bend, reflectance, draw) {
                            Bounce::Reflect => reflected,
                            Bounce::Refract => refracted,
                        },
                    },
                    attenuation: crate::color::spec_white(),
                },
            ),
    {
        let direction = match Self::decide(bend, reflectance, draw) {
            Bounce::Reflect => reflected,
            Bounce::Refract => refracted,
        };
        Some(
            ScatterResult {
                ray: Ray::new(hit.position, direction),
                attenuation: crate::color::white(),
            },
        )
    }

    /// What the surface gives off: nothing.
    pub fn emit(&self) -> (c: Color)
        ensures
            c == crate::color::spec_black(),
    {
        crate::color::black()
    }
}

/// A ray that can refract, against a reflectance that does not exceed the
/// draw, refracts.
pub proof fn lemma_refracts_without_reflectance(bend: Scalar, reflectance: Scalar, draw: Scalar)
    requires
        !bend.spec_gt(Scalar { bits: ONE_BITS }),
        !reflectance.spec_gt(draw),
    ensures
        Dielectric::spec_decide(bend, reflectance, draw) == Bounce::Refract,
{
}

} // verus!
