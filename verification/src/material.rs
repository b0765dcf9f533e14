//! The GPU-facing material: the uniform state the shader reads per draw,
//! and the store that owns one material per materialized UI element.

use vstd::prelude::*;
use crate::color::Rgba;
use crate::geometry::{Rect, SurfaceSize};
use crate::texture::{ImageHandle, NineSliceUiTexture};

verus! {

/// The two packed mix factors of a material, 0..=255 each for the [0, 1]
/// scale: blend strength first, gradient strength second.
#[derive(Clone, Copy, Debug, PartialEq, Eq, Structural)]
pub struct MixPair {
    pub blend: u8,
    pub gradient: u8,
}

/// The uniform state bound to the GPU for one nine-slice element.
#[derive(Clone, Copy, Debug, PartialEq, Eq, Structural)]
pub struct NineSliceMaterial {
    /// The atlas texture the shader samples.
    pub atlas: ImageHandle,
    /// The element's on-screen size at the last sync.
    pub surface_size: SurfaceSize,
    /// The resolved sub-region of the atlas, in atlas pixel space.
    pub bounds: Rect,
    /// The tint target; its alpha scales its own contribution.
    pub blend_color: Rgba,
    /// The 1-D color lookup texture.
    pub lookup_gradient: ImageHandle,
    /// Blend and gradient strengths.
    pub mix: MixPair,
}

/// The material snapshot that a sync pass derives from a texture
/// declaration, the element's current size and freshly resolved bounds.
pub open spec fn spec_material_from(
    texture: NineSliceUiTexture,
    surface_size: SurfaceSize,
    bounds: Rect,
) -> NineSliceMaterial {
    NineSliceMaterial {
        atlas: texture.atlas,
        surface_size,
        bounds,
        blend_color: texture.blend_color,
        lookup_gradient: texture.gradient,
        mix: MixPair { blend: texture.blend_mix, gradient: texture.gradient_mix },
    }
}

pub fn material_from(
    texture: &NineSliceUiTexture,
    surface_size: SurfaceSize,
    bounds: Rect,
) -> (m: NineSliceMaterial)
    ensures
        m == spec_material_from(*texture, surface_size, bounds),
{
    NineSliceMaterial {
        atlas: texture.atlas,
        surface_size,
        bounds,
        blend_color: texture.blend_color,
        lookup_gradient: texture.gradient,
        mix: MixPair { blend: texture.blend_mix, gradient: texture.gradient_mix },
    }
}

/// A key into the material store. The element only ever holds this key;
/// the store is the sole owner and mutator of the material itself.
#[derive(Clone, Copy, Debug, PartialEq, Eq, Structural)]
pub struct MaterialHandle {
    pub index: usize,
}

/// The render resource store for nine-slice materials. Materials are only
/// ever appended and mutated in place, so a handle stays valid for the
/// life of the store.
pub struct MaterialStore {
    materials: Vec<NineSliceMaterial>,
}

impl MaterialStore {
    pub closed spec fn view(self) -> Seq<NineSliceMaterial> {
        self.materials@
    }

    pub fn new() -> (s: MaterialStore)
        ensures
            s@ =~= Seq::<NineSliceMaterial>::empty(),
    {
        MaterialStore { materials: Vec::new() }
    }

    pub fn len(&self) -> (n: usize)
        ensures
            n == self@.len(),
    {
        self.materials.len()
    }

    /// Register a new material and hand back its key.
    pub fn add(&mut self, material: NineSliceMaterial) -> (h: MaterialHandle)
        ensures
            final(self)@ == old(self)@.push(material),
            h.index == old(self)@.len(),
    {
        let index = self.materials.len();
        self.materials.push(material);
        MaterialHandle { index }
    }

    /// Read the material behind a key; `None` for a key this store never
    /// issued.
    pub fn get(&self, handle: MaterialHandle) -> (r: Option<NineSliceMaterial>)
        ensures
            handle.index < self@.len() ==> r == Some(self@[handle.index as int]),
            handle.index >= self@.len() ==> r is None,
    {
        if handle.index < self.materials.len() {
            Some(self.materials[handle.index])
        } else {
            None
        }
    }

    /// Overwrite the material behind a key in place.
    pub fn write(&mut self, handle: MaterialHandle, material: NineSliceMaterial)
        requires
            handle.index < old(self)@.len(),
        ensures
            final(self)@ == old(self)@.update(handle.index as int, material),
    {
        self.materials[handle.index] = material;
    }
}

} // verus!
