//! The authored description of a nine-slice texture: which atlas to draw,
//! which sub-region of it, and the optional blend and gradient remapping.

use vstd::prelude::*;
use crate::color::Rgba;
use crate::geometry::Rect;

verus! {

/// A non-owning reference to an image held by the asset store.
///
/// The store hands out numeric identifiers; the default handle (id 0)
/// stands for "no image chosen".
#[derive(Clone, Copy, Debug, PartialEq, Eq, Structural)]
pub struct ImageHandle {
    pub id: u64,
}

impl ImageHandle {
    pub fn new(id: u64) -> (h: ImageHandle)
        ensures
            h.id == id,
    {
        ImageHandle { id }
    }
}

impl Default for ImageHandle {
    fn default() -> (h: ImageHandle)
        ensures
            h.id == 0,
    {
        ImageHandle { id: 0 }
    }
}

/// A component that describes a nine slice texture.
#[derive(Clone, Copy, Debug, PartialEq, Eq, Structural)]
pub struct NineSliceUiTexture {
    /// The atlas to use for the nine slice.
    pub atlas: ImageHandle,
    /// The bounds of the nine slice in the atlas; `None` means the whole
    /// image, resolved once the atlas has been decoded.
    pub bounds: Option<Rect>,
    /// The color to blend the nine slice with; its alpha scales its own
    /// contribution.
    pub blend_color: Rgba,
    /// Blend strength, 0..=255 for the [0, 1] scale; 0 leaves the sample
    /// untinted.
    pub blend_mix: u8,
    /// A 1-D texture to use as color lookup: the grayscale value of the
    /// original color is the sample position, dark to light, left to right.
    pub gradient: ImageHandle,
    /// Gradient strength, 0..=255 for the [0, 1] scale.
    pub gradient_mix: u8,
}

impl NineSliceUiTexture {
    /// Create a new nine-slice texture that uses a whole image.
    pub fn from_image(image: ImageHandle) -> (t: NineSliceUiTexture)
        ensures
            t.atlas == image,
            t.bounds is None,
            t.blend_color == (Rgba { r: 255, g: 255, b: 255, a: 255 }),
            t.blend_mix == 0,
            t.gradient.id == 0,
            t.gradient_mix == 0,
    {
        NineSliceUiTexture {
            atlas: image,
            bounds: None,
            blend_color: Rgba::default(),
            blend_mix: 0,
            gradient: ImageHandle::default(),
            gradient_mix: 0,
        }
    }

    /// Create a new nine-slice texture from a slice of an atlas.
    pub fn from_slice(atlas: ImageHandle, bounds: Rect) -> (t: NineSliceUiTexture)
        ensures
            t.atlas == atlas,
            t.bounds == Some(bounds),
            t.blend_color == (Rgba { r: 255, g: 255, b: 255, a: 255 }),
            t.blend_mix == 0,
            t.gradient.id == 0,
            t.gradient_mix == 0,
    {
        NineSliceUiTexture {
            atlas,
            bounds: Some(bounds),
            blend_color: Rgba::default(),
            blend_mix: 0,
            gradient: ImageHandle::default(),
            gradient_mix: 0,
        }
    }

    pub fn with_lookup_gradient(self, gradient: ImageHandle) -> (t: NineSliceUiTexture)
        ensures
            t == (NineSliceUiTexture { gradient, ..self }),
    {
        NineSliceUiTexture { gradient, ..self }
    }

    pub fn with_blend_mix(self, blend: u8) -> (t: NineSliceUiTexture)
        ensures
            t == (NineSliceUiTexture { blend_mix: blend, ..self }),
    {
        NineSliceUiTexture { blend_mix: blend, ..self }
    }

    pub fn with_gradient_mix(self, blend: u8) -> (t: NineSliceUiTexture)
        ensures
            t == (NineSliceUiTexture { gradient_mix: blend, ..self }),
    {
        NineSliceUiTexture { gradient_mix: blend, ..self }
    }

    pub fn with_blend_color(self, color: Rgba) -> (t: NineSliceUiTexture)
        ensures
            t == (NineSliceUiTexture { blend_color: color, ..self }),
    {
        NineSliceUiTexture { blend_color: color, ..self }
    }
}

} // verus!
