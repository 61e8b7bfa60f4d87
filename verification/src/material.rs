//! How the three kinds of material answer an incoming ray.
use vstd::prelude::*;
use crate::scalar::{is_positive, less, lt, positive};

verus! {

/// The kinds of surface.
#[derive(Clone, Copy, Debug, PartialEq, Eq, Structural)]
pub enum Material {
    /// Lambertian: scatters around the normal.
    Diffuse,
    /// Metal: mirrors the ray, blurred by its fuzz.
    Metal,
    /// Glass: reflects or refracts.
    Dielectric,
}

/// Whether a material of this kind sends the ray on, where `outward` is the
/// dot product of the outgoing direction with the surface normal: only metal
/// can absorb, and does so unless the outgoing direction leaves the surface.
pub open spec fn scatters_spec(material: Material, outward: u32) -> bool {
    match material {
        Material::Diffuse => true,
        Material::Metal => positive(outward),
        Material::Dielectric => true,
    }
}

/// Decides between scattering (`true`) and absorption (`false`).
pub fn scatters(material: Material, outward: u32) -> (scattered: bool)
    ensures
        scattered == scatters_spec(material, outward),
        material == Material::Diffuse ==> scattered,
        material == Material::Dielectric ==> scattered,
{
    match material {
        Material::Diffuse => true,
        Material::Metal => is_positive(outward),
        Material::Dielectric => true,
    }
}

/// On which side of a dielectric surface the incoming ray travels.
#[derive(Clone, Copy, Debug, PartialEq, Eq, Structural)]
pub enum Side {
    /// From outside into the medium: the normal is kept, the relative
    /// refractive index is the reciprocal of the material's.
    Entering,
    /// From inside the medium out: the normal is turned round, the relative
    /// refractive index is the material's.
    Exiting,
}

/// The side, from the dot product of the incoming direction with the normal.
pub open spec fn side_spec(incidence: u32) -> Side {
    if positive(incidence) {
        Side::Exiting
    } else {
        Side::Entering
    }
}

/// Tells whether the ray enters or leaves the medium.
pub fn side(incidence: u32) -> (s: Side)
    ensures
        s == side_spec(incidence),
{
    if is_positive(incidence) {
        Side::Exiting
    } else {
        Side::Entering
    }
}

/// The two ways a dielectric sends a ray on.
#[derive(Clone, Copy, Debug, PartialEq, Eq, Structural)]
pub enum Lobe {
    Reflect,
    Refract,
}

/// The lobe of a dielectric scatter event. `refraction` is the discriminant
/// of Snell's law (refraction has a real solution where it is positive),
/// `reflectance` the Schlick reflectance and `draw` one uniform random draw.
pub open spec fn lobe_spec(refraction: u32, reflectance: u32, draw: u32) -> Lobe {
    if !positive(refraction) {
        Lobe::Reflect
    } else if less(draw, reflectance) {
        Lobe::Reflect
    } else {
        Lobe::Refract
    }
}

/// Chooses between reflection and refraction: total internal reflection
/// reflects; otherwise the ray is reflected where the draw falls below the
/// reflectance, and refracted where it does not.
pub fn lobe(refraction: u32, reflectance: u32, draw: u32) -> (l: Lobe)
    ensures
        l == lobe_spec(refraction, reflectance, draw),
        !positive(refraction) ==> l == Lobe::Reflect,
{
    if !is_positive(refraction) {
        Lobe::Reflect
    } else if lt(draw, reflectance) {
        Lobe::Reflect
    } else {
        Lobe::Refract
    }
}

/// Where refraction is possible, a material that reflects nothing always
/// refracts, and one that reflects everything always reflects a draw from
/// `[0, 1)`.
pub proof fn lobe_at_the_extremes(refraction: u32, reflectance: u32, draw: u32)
    requires
        positive(refraction),
    ensures
        !positive(reflectance) && !less(draw, crate::scalar::ZERO) ==> lobe_spec(
            refraction,
            reflectance,
            draw,
        ) == Lobe::Refract,
        !less(reflectance, crate::scalar::ONE) && less(draw, crate::scalar::ONE) && !crate::scalar::is_nan(reflectance) ==> lobe_spec(
            refraction,
            reflectance,
            draw,
        ) == Lobe::Reflect,
{
}

} // verus!
