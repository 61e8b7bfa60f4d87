//! The random demonstration scene: which of its small spheres stand, and
//! what they are made of.
use vstd::prelude::*;
use crate::material::Material;
use crate::scalar::{less, lt};

verus! {

/// The bit pattern of 0.8: draws below it make a diffuse sphere.
pub const DIFFUSE_BELOW: u32 = 0x3f4c_cccd;

/// The bit pattern of 0.95: draws below it, and not below 0.8, make a metal
/// sphere; the others make a glass sphere.
pub const METAL_BELOW: u32 = 0x3f73_3333;

/// The bit pattern of 0.9: a small sphere stands only where its centre is
/// farther than this from the centre of the large metal sphere's place.
pub const CLEARANCE: u32 = 0x3f66_6666;

/// The material that a uniform draw selects.
pub open spec fn chosen(draw: u32) -> Material {
    if less(draw, DIFFUSE_BELOW) {
        Material::Diffuse
    } else if less(draw, METAL_BELOW) {
        Material::Metal
    } else {
        Material::Dielectric
    }
}

/// What stands in one cell of the grid: nothing where the centre is too
/// close, else a sphere of the chosen material.
pub open spec fn small_sphere_spec(draw: u32, distance: u32) -> Option<Material> {
    if less(CLEARANCE, distance) {
        Some(chosen(draw))
    } else {
        None
    }
}

/// Selects a material by a uniform draw.
pub fn choose_material(draw: u32) -> (material: Material)
    ensures
        material == chosen(draw),
{
    if lt(draw, DIFFUSE_BELOW) {
        Material::Diffuse
    } else if lt(draw, METAL_BELOW) {
        Material::Metal
    } else {
        Material::Dielectric
    }
}

/// Decides one cell of the grid from its draw and from the distance of its
/// centre to the point that must stay clear.
pub fn small_sphere(draw: u32, distance: u32) -> (sphere: Option<Material>)
    ensures
        sphere == small_sphere_spec(draw, distance),
        sphere is Some <==> less(CLEARANCE, distance),
{
    if lt(CLEARANCE, distance) {
        Some(choose_material(draw))
    } else {
        None
    }
}

} // verus!
