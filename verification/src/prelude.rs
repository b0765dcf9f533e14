//! The handful of items most hosts need.

pub use crate::material::NineSliceMaterial;
pub use crate::plugin::NineSliceUiPlugin;
pub use crate::texture::NineSliceUiTexture;
