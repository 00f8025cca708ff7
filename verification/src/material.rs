//! The material for small screens.
//!
//! It keeps the two textures of a standard material that matter most and how
//! it blends, and always drops the faces that look away. A texture is held by
//! whatever reference `H` the renderer hands out; this crate only passes it
//! on.

use vstd::prelude::*;

verus! {

/// A side of a triangle.
#[derive(Clone, Copy, Debug, PartialEq, Eq, Structural)]
pub enum Face {
    Front,
    Back,
}

/// How a material lets through what lies behind it.
#[derive(Clone, Copy, Debug, PartialEq, Eq, Structural)]
pub enum AlphaMode {
    Opaque,
    /// Opaque from this alpha on and clear below it. The threshold is an IEEE
    /// 754 binary32 pattern.
    Mask(u32),
    Blend,
    Premultiplied,
    Add,
    Multiply,
}

/// What the mobile material takes over from a standard material.
#[derive(Clone, Debug, PartialEq)]
pub struct StandardMaterial<H> {
    pub base_color_texture: Option<H>,
    pub metallic_roughness_texture: Option<H>,
    pub alpha_mode: AlphaMode,
}

/// The material for small screens.
#[derive(Clone, Debug, PartialEq)]
pub struct MobilePBRMaterial<H> {
    pub base_color_texture: Option<H>,
    pub normal_metallic_roughness_texture: Option<H>,
    pub cull_mode: Option<Face>,
    pub alpha_mode: AlphaMode,
}

/// The mobile material in place of a standard one: its base colour texture,
/// its metallic and roughness texture and its way of blending, with the back
/// faces dropped.
pub open spec fn mobile_of<H>(standard: StandardMaterial<H>) -> MobilePBRMaterial<H> {
    MobilePBRMaterial {
        base_color_texture: standard.base_color_texture,
        normal_metallic_roughness_texture: standard.metallic_roughness_texture,
        cull_mode: Some(Face::Back),
        alpha_mode: standard.alpha_mode,
    }
}

impl<H> MobilePBRMaterial<H> {
    /// Where the fragment shader of the material lies among the assets.
    pub fn fragment_shader() -> (path: &'static str)
        ensures
            path@ == "shaders/mobile_pbr_material.wgsl"@,
    {
        "shaders/mobile_pbr_material.wgsl"
    }

    /// How the material blends.
    pub fn alpha_mode(&self) -> (mode: AlphaMode)
        ensures
            mode == self.alpha_mode,
    {
        self.alpha_mode
    }
}

impl<H> Default for MobilePBRMaterial<H> {
    /// A material without textures that is opaque and shows front faces only.
    fn default() -> (material: Self)
        ensures
            material == (MobilePBRMaterial::<H> {
                base_color_texture: None,
                normal_metallic_roughness_texture: None,
                cull_mode: Some(Face::Back),
                alpha_mode: AlphaMode::Opaque,
            }),
    {
        MobilePBRMaterial {
            base_color_texture: None,
            normal_metallic_roughness_texture: None,
            cull_mode: Some(Face::Back),
            alpha_mode: AlphaMode::Opaque,
        }
    }
}

impl<H> From<StandardMaterial<H>> for MobilePBRMaterial<H> {
    /// The mobile material in place of a standard one, as [`mobile_of`] gives
    /// it.
    fn from(value: StandardMaterial<H>) -> (material: Self) {
        MobilePBRMaterial {
            base_color_texture: value.base_color_texture,
            normal_metallic_roughness_texture: value.metallic_roughness_texture,
            cull_mode: Some(Face::Back),
            alpha_mode: value.alpha_mode,
        }
    }
}

/// The material to put in place of a standard material that was looked up:
/// the mobile material made from it, and nothing where the lookup found
/// nothing.
pub fn replacement<H>(found: Option<StandardMaterial<H>>) -> (custom: Option<MobilePBRMaterial<H>>)
    ensures
        custom == match found {
            Some(material) => Some(mobile_of(material)),
            None => None,
        },
{
    match found {
        Some(material) => Some(MobilePBRMaterial::from(material)),
        None => None,
    }
}

impl<H> vstd::std_specs::convert::FromSpecImpl<StandardMaterial<H>> for MobilePBRMaterial<H> {
    open spec fn obeys_from_spec() -> bool {
        true
    }

    open spec fn from_spec(value: StandardMaterial<H>) -> Self {
        mobile_of(value)
    }
}

} // verus!
