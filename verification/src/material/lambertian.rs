//! A diffuse surface.

use vstd::prelude::*;
use crate::color::Color;
use crate::hit::Hit;
use crate::material::ScatterResult;
use crate::ray::Ray;
use crate::vec3::Vec3;

verus! {

/// A surface that scatters light evenly, tinted by its albedo.
#[derive(Clone, Copy, Debug, PartialEq, Eq, Structural)]
pub struct Lambertian {
    pub albedo: Color,
}

impl Lambertian {
    /// The direction a scattered ray takes: `bounce`, unless it is too
    /// short to be a direction, in which case the surface normal.
    pub open spec fn direction(hit: Hit, bounce: Vec3) -> Vec3 {
        if bounce.spec_is_near_zero() {
            hit.normal
        } else {
            bounce
        }
    }

    pub fn new(albedo: Color) -> (l: Lambertian)
        ensures
            l == (Lambertian { albedo }),
    {
        Lambertian { albedo }
    }

    /// Scatters a ray that hit the surface.
    ///
    /// `bounce` is the hit's normal plus a random unit vector, which the
    /// caller has added up. The surface always scatters, from the hit
    /// position, and always attenuates by its albedo.
    pub fn scatter(&self, hit: &Hit, bounce: Vec3) -> (s: Option<ScatterResult>)
        ensures
            s == Some(
                ScatterResult {
                    ray: Ray { origin: hit.position, direction: Self::direction(*hit, bounce) },
                    attenuation: self.albedo,
                },
            ),
    {
        let direction = if bounce.is_near_zero() {
            hit.normal
        } else {
            bounce
        };
        Some(ScatterResult { ray: Ray::new(hit.position, direction), attenuation: self.albedo })
    }

    /// What the surface gives off: nothing.
    pub fn emit(&self) -> (c: Color)
        ensures
            c == crate::color::spec_black(),
    {
        crate::color::black()
    }
}

} // verus!
