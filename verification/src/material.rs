//! The shading parameters of one renderable surface.

use crate::mode::SamplingMode;
use vstd::prelude::*;

verus! {

/// The parameters that are handed to the shader for one surface: the sampling
/// mode, and the colour texture if one is bound.
///
/// `H` is the type by which the renderer refers to a texture. A material only
/// carries such a handle: nothing here looks inside one.
#[derive(Debug, Clone)]
pub struct BlockyMaterial<H> {
    sampling_mode: SamplingMode,
    pub base_color_texture: Option<H>,
}

impl<H> BlockyMaterial<H> {
    /// The sampling mode of the material.
    pub closed spec fn mode(self) -> SamplingMode {
        self.sampling_mode
    }

    /// The colour texture of the material.
    pub closed spec fn texture(self) -> Option<H> {
        self.base_color_texture
    }

    /// The material with its mode replaced and its texture kept.
    pub closed spec fn with_mode(self, mode: SamplingMode) -> BlockyMaterial<H> {
        BlockyMaterial { sampling_mode: mode, base_color_texture: self.base_color_texture }
    }

    /// A material is its mode and its texture, and `with_mode` replaces the
    /// mode alone: replacing it by the mode it has, or a second time by the
    /// same mode, changes nothing.
    pub proof fn with_mode_replaces_the_mode(self, other: BlockyMaterial<H>, mode: SamplingMode)
        ensures
            self.with_mode(mode).mode() == mode,
            self.with_mode(mode).texture() == self.texture(),
            self.with_mode(self.mode()) == self,
            self.with_mode(mode).with_mode(mode) == self.with_mode(mode),
            self.mode() == other.mode() && self.texture() == other.texture() ==> self == other,
    {
    }

    /// Creates a material with the given texture, in the mode that materials
    /// start out in.
    pub fn new(texture: Option<H>) -> (material: BlockyMaterial<H>)
        ensures
            material.mode() == SamplingMode::AntialiasedBlocky,
            material.texture() == texture,
    {
        BlockyMaterial { sampling_mode: SamplingMode::AntialiasedBlocky, base_color_texture: texture }
    }

    /// Returns the sampling mode.
    pub fn sampling_mode(&self) -> (mode: SamplingMode)
        ensures
            mode == self.mode(),
    {
        self.sampling_mode
    }

    /// Sets the sampling mode and leaves the texture as it is.
    pub fn set_sampling_mode(&mut self, mode: SamplingMode)
        ensures
            *final(self) == old(self).with_mode(mode),
            final(self).mode() == mode,
            final(self).texture() == old(self).texture(),
    {
        self.sampling_mode = mode;
    }
}

} // verus!
