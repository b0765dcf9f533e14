//! Nine-slice UI panels: resolve atlas bounds for a textured UI element,
//! keep a GPU-facing material in sync with the element's on-screen size,
//! and remap destination pixels onto the atlas so that corners keep their
//! scale while edges and the center stretch.

pub mod assets;
pub mod color;
pub mod engine;
pub mod geometry;
pub mod material;
pub mod plugin;
pub mod prelude;
pub mod resolve;
pub mod shader;
pub mod texture;
