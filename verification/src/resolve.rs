//! Resolving a texture's declared bounds into concrete atlas pixel bounds.
//!
//! Explicit bounds resolve immediately; otherwise the whole image is used
//! once the asset store reports the atlas decoded. Absence of a result is
//! the normal "still loading, retry next pass" condition, never an error.

use vstd::prelude::*;
use crate::assets::{DecodedImageMeta, ImageStore, spec_lookup};
use crate::geometry::Rect;
use crate::texture::NineSliceUiTexture;

verus! {

/// What `resolve` returns: the declared bounds when there are any, else the
/// full rectangle of the decoded atlas, else nothing while it still loads.
pub open spec fn spec_resolve(
    texture: NineSliceUiTexture,
    images: Seq<(u64, DecodedImageMeta)>,
) -> Option<Rect> {
    match texture.bounds {
        Some(r) => Some(r),
        None => match spec_lookup(images, texture.atlas.id) {
            Some(meta) => Some(
                Rect { min_x: 0, min_y: 0, max_x: meta.width, max_y: meta.height },
            ),
            None => None,
        },
    }
}

/// Turn a texture's declaration into concrete atlas pixel bounds, or `None`
/// while the atlas image is still loading.
pub fn resolve(texture: &NineSliceUiTexture, images: &ImageStore) -> (r: Option<Rect>)
    ensures
        r == spec_resolve(*texture, images@),
        texture.bounds is Some ==> r == texture.bounds,
        texture.bounds is None && spec_lookup(images@, texture.atlas.id) is None ==> r is None,
{
    match texture.bounds {
        Some(r) => Some(r),
        None => match images.get(texture.atlas.id) {
            Some(meta) => Some(Rect::of_image(meta.width, meta.height)),
            None => None,
        },
    }
}

/// Resolution is a pure function of the texture and of the asset store's
/// state: two results computed from the same inputs are the same value,
/// bit for bit, so once it is `Some` it stays that value while the inputs
/// stand.
pub proof fn lemma_resolve_deterministic(
    texture: NineSliceUiTexture,
    images: Seq<(u64, DecodedImageMeta)>,
    r1: Option<Rect>,
    r2: Option<Rect>,
)
    requires
        r1 == spec_resolve(texture, images),
        r2 == spec_resolve(texture, images),
    ensures
        r1 == r2,
{
}

/// Resolution reads nothing of the asset store beyond the atlas entry:
/// other images loading or unloading cannot change an answer.
pub proof fn lemma_resolve_depends_on_atlas_only(
    texture: NineSliceUiTexture,
    images1: Seq<(u64, DecodedImageMeta)>,
    images2: Seq<(u64, DecodedImageMeta)>,
)
    requires
        spec_lookup(images1, texture.atlas.id) == spec_lookup(images2, texture.atlas.id),
    ensures
        spec_resolve(texture, images1) == spec_resolve(texture, images2),
{
}

} // verus!
