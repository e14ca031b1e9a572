//! A surface that gives off light.

use vstd::prelude::*;
use crate::color::Color;
use crate::material::ScatterResult;
use crate::scalar::Scalar;

verus! {

/// A light: it gives off its colour, scaled by its intensity, and scatters
/// nothing.
#[derive(Clone, Copy, Debug, PartialEq, Eq, Structural)]
pub struct DiffuseLight {
    pub color: Color,
    pub intensity: Scalar,
}

impl DiffuseLight {
    pub fn new(color: Color, intensity: Scalar) -> (l: DiffuseLight)
        ensures
            l == (DiffuseLight { color, intensity }),
    {
        DiffuseLight { color, intensity }
    }

    /// A light never scatters the ray that hit it.
    pub fn scatter(&self) -> (s: Option<ScatterResult>)
        ensures
            s is None,
    {
        None
    }
}

} // verus!
