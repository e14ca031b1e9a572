//! What a surface is made of.
//!
//! A [`Material`] is the flat record that travels with each sphere: a tag
//! and every numeric field any kind of surface may need, so that all
//! records have one size. A [`Surface`] is the same information as a closed
//! choice between the four kinds, each with the fields it reads.

pub mod dielectric;
pub mod diffuse_light;
pub mod lambertian;
pub mod metal;

use vstd::prelude::*;
use crate::color::Color;
use crate::ray::Ray;
use crate::scalar::{Scalar, MINUS_ONE_BITS};
use crate::vec3::Vec3;
use crate::material::dielectric::Dielectric;
use crate::material::diffuse_light::DiffuseLight;
use crate::material::lambertian::Lambertian;
use crate::material::metal::Metal;

verus! {

/// The tag of a diffuse surface.
pub const LAMBERTIAN: u32 = 0;

/// The tag of a mirror-like surface.
pub const METAL: u32 = 1;

/// The tag of a refracting surface.
pub const DIELECTRIC: u32 = 2;

/// The tag of a surface that gives off light.
pub const DIFFUSE_LIGHT: u32 = 3;

/// The number of words of a packed material.
pub const MATERIAL_WORDS: usize = 11;

/// A material as a flat record. A field the kind does not read holds -1.
#[derive(Clone, Copy, Debug, PartialEq, Eq, Structural)]
pub struct Material {
    pub mat_type: u32,
    pub color: Vec3,
    pub emission_intensity: Scalar,
    pub refractive_index: Scalar,
    pub fuzz: Scalar,
}

/// A ray leaving a surface, and the share of each colour channel that the
/// surface lets through.
#[derive(Clone, Copy, Debug, PartialEq, Eq, Structural)]
pub struct ScatterResult {
    pub ray: Ray,
    pub attenuation: Color,
}

/// A material as one of the four kinds of surface.
#[derive(Clone, Copy, Debug, PartialEq, Eq, Structural)]
pub enum Surface {
    Lambertian(Lambertian),
    Metal(Metal),
    Dielectric(Dielectric),
    DiffuseLight(DiffuseLight),
}

/// The value -1, which fills the fields a kind does not read.
pub open spec fn unused() -> Scalar {
    Scalar { bits: MINUS_ONE_BITS }
}

pub open spec fn spec_lambertian(color: Vec3) -> Material {
    Material {
        mat_type: LAMBERTIAN,
        color,
        emission_intensity: unused(),
        refractive_index: unused(),
        fuzz: unused(),
    }
}

pub open spec fn spec_metal(color: Vec3, fuzz: Scalar) -> Material {
    Material {
        mat_type: METAL,
        color,
        emission_intensity: unused(),
        refractive_index: unused(),
        fuzz,
    }
}

pub open spec fn spec_dielectric(refractive_index: Scalar) -> Material {
    Material {
        mat_type: DIELECTRIC,
        color: crate::color::spec_black(),
        emission_intensity: unused(),
        refractive_index,
        fuzz: unused(),
    }
}

pub open spec fn spec_diffuse_light(color: Vec3, emission_intensity: Scalar) -> Material {
    Material {
        mat_type: DIFFUSE_LIGHT,
        color,
        emission_intensity,
        refractive_index: unused(),
        fuzz: unused(),
    }
}

impl Material {
    /// The packed record: the tag, three words of padding, the colour, the
    /// emission intensity, the refractive index, the fuzz, and one more
    /// word of padding.
    pub open spec fn words(self) -> Seq<u32> {
        seq![
            self.mat_type,
            0u32,
            0u32,
            0u32,
            self.color.x.bits,
            self.color.y.bits,
            self.color.z.bits,
            self.emission_intensity.bits,
            self.refractive_index.bits,
            self.fuzz.bits,
            0u32,
        ]
    }

    /// The surface that the record describes; none under an unknown tag.
    /// A metal's fuzz is brought into the range from 0 to 1.
    pub open spec fn spec_surface(&self) -> Option<Surface> {
        if self.mat_type == LAMBERTIAN {
            Some(Surface::Lambertian(Lambertian { albedo: self.color }))
        } else if self.mat_type == METAL {
            Some(
                Surface::Metal(
                    Metal { albedo: self.color, fuzz: crate::material::metal::clamped(self.fuzz) },
                ),
            )
        } else if self.mat_type == DIELECTRIC {
            Some(Surface::Dielectric(Dielectric { ref_idx: self.refractive_index }))
        } else if self.mat_type == DIFFUSE_LIGHT {
            Some(
                Surface::DiffuseLight(
                    DiffuseLight { color: self.color, intensity: self.emission_intensity },
                ),
            )
        } else {
            None
        }
    }

    pub fn new(
        mat_type: u32,
        color: Vec3,
        emission_intensity: Scalar,
        refractive_index: Scalar,
        fuzz: Scalar,
    ) -> (m: Material)
        ensures
            m == (Material { mat_type, color, emission_intensity, refractive_index, fuzz }),
    {
        Material { mat_type, color, emission_intensity, refractive_index, fuzz }
    }

    /// Appends the packed record to `out`.
    pub fn pack(&self, out: &mut Vec<u32>)
        ensures
            final(out)@ == old(out)@ + self.words(),
            self.words().len() == MATERIAL_WORDS,
    {
        let ghost before = out@;
        out.push(self.mat_type);
        out.push(0);
        out.push(0);
        out.push(0);
        out.push(self.color.x.bits);
        out.push(self.color.y.bits);
        out.push(self.color.z.bits);
        out.push(self.emission_intensity.bits);
        out.push(self.refractive_index.bits);
        out.push(self.fuzz.bits);
        out.push(0);
        assert(out@ =~= before + self.words());
    }

    /// The surface that the record describes.
    #[verifier::when_used_as_spec(spec_surface)]
    pub fn surface(&self) -> (s: Option<Surface>)
        ensures
            s == self.spec_surface(),
    {
        if self.mat_type == LAMBERTIAN {
            Some(Surface::Lambertian(Lambertian::new(self.color)))
        } else if self.mat_type == METAL {
            Some(Surface::Metal(Metal::new(self.color, self.fuzz)))
        } else if self.mat_type == DIELECTRIC {
            Some(Surface::Dielectric(Dielectric::new(self.refractive_index)))
        } else if self.mat_type == DIFFUSE_LIGHT {
            Some(Surface::DiffuseLight(DiffuseLight::new(self.color, self.emission_intensity)))
        } else {
            None
        }
    }
}

impl Default for Material {
    /// The all-zero record: a black diffuse surface.
    fn default() -> (m: Material)
        ensures
            m == (Material {
                mat_type: 0,
                color: crate::color::spec_black(),
                emission_intensity: Scalar { bits: 0 },
                refractive_index: Scalar { bits: 0 },
                fuzz: Scalar { bits: 0 },
            }),
    {
        Material {
            mat_type: 0,
            color: crate::color::black(),
            emission_intensity: Scalar::zero(),
            refractive_index: Scalar::zero(),
            fuzz: Scalar::zero(),
        }
    }
}

impl Surface {
    /// The flat record of the surface.
    pub open spec fn spec_material(&self) -> Material {
        match self {
            Surface::Lambertian(l) => spec_lambertian(l.albedo),
            Surface::Metal(m) => spec_metal(m.albedo, m.fuzz),
            Surface::Dielectric(d) => spec_dielectric(d.ref_idx),
            Surface::DiffuseLight(l) => spec_diffuse_light(l.color, l.intensity),
        }
    }

    /// Whether the surface keeps what its kind asks of its fields.
    pub open spec fn well_formed(self) -> bool {
        match self {
            Surface::Metal(m) => m.well_formed(),
            Surface::Dielectric(d) => d.well_formed(),
            _ => true,
        }
    }

    /// The flat record of the surface.
    #[verifier::when_used_as_spec(spec_material)]
    pub fn material(&self) -> (m: Material)
        ensures
            m == self.spec_material(),
    {
        match self {
            Surface::Lambertian(l) => lambertian(l.albedo),
            Surface::Metal(m) => metal(m.albedo, m.fuzz),
            Surface::Dielectric(d) => dielectric(d.ref_idx),
            Surface::DiffuseLight(l) => diffuse_light(l.color, l.intensity),
        }
    }
}

/// A diffuse material of the given colour.
#[verifier::when_used_as_spec(spec_lambertian)]
pub fn lambertian(color: Vec3) -> (m: Material)
    ensures
        m == spec_lambertian(color),
{
    let u = Scalar::from_bits(MINUS_ONE_BITS);
    Material::new(LAMBERTIAN, color, u, u, u)
}

/// A metal of the given colour and roughness.
#[verifier::when_used_as_spec(spec_metal)]
pub fn metal(color: Vec3, fuzz: Scalar) -> (m: Material)
    ensures
        m == spec_metal(color, fuzz),
{
    let u = Scalar::from_bits(MINUS_ONE_BITS);
    Material::new(METAL, color, u, u, fuzz)
}

/// A clear material of the given refractive index.
#[verifier::when_used_as_spec(spec_dielectric)]
pub fn dielectric(refractive_index: Scalar) -> (m: Material)
    ensures
        m == spec_dielectric(refractive_index),
{
    let u = Scalar::from_bits(MINUS_ONE_BITS);
    Material::new(DIELECTRIC, crate::color::black(), u, refractive_index, u)
}

/// A light of the given colour and intensity.
#[verifier::when_used_as_spec(spec_diffuse_light)]
pub fn diffuse_light(color: Vec3, emission_intensity: Scalar) -> (m: Material)
    ensures
        m == spec_diffuse_light(color, emission_intensity),
{
    let u = Scalar::from_bits(MINUS_ONE_BITS);
    Material::new(DIFFUSE_LIGHT, color, emission_intensity, u, u)
}

/// Packing a surface into a record and reading the record back gives the
/// surface again.
pub proof fn lemma_surface_round_trip(s: Surface)
    requires
        s.well_formed(),
    ensures
        s.spec_material().spec_surface() == Some(s),
{
    if let Surface::Metal(m) = s {
        crate::material::metal::lemma_clamped_keeps(m.fuzz);
    }
}

/// Every record with a known tag describes a surface whose fields are in
/// order, and no other record describes one.
pub proof fn lemma_surface_well_formed(m: Material)
    ensures
        m.spec_surface() is Some <==> m.mat_type <= DIFFUSE_LIGHT,
        m.spec_surface() matches Some(Surface::Metal(metal)) ==> metal.well_formed(),
{
    crate::material::metal::lemma_clamped_in_range(m.fuzz);
}

} // verus!
