//! The material synchronization engine.
//!
//! UI elements live in an explicit registry. Each tick the creation pass
//! gives every element whose bounds resolve a material of its own; on a
//! slower cadence the refresh pass pushes the element's latest size and
//! declaration into that material, in place. Both passes are total
//! functions of the registry, the material store and the asset store's
//! polled state, stated here as spec functions the executable passes are
//! proved equal to.

use vstd::prelude::*;
use crate::assets::{DecodedImageMeta, ImageStore};
use crate::color::Rgba;
use crate::geometry::SurfaceSize;
use crate::material::{
    MaterialHandle, MaterialStore, NineSliceMaterial, material_from, spec_material_from,
};
use crate::resolve::{resolve, spec_resolve};
use crate::texture::{ImageHandle, NineSliceUiTexture};

verus! {

/// One entry of the registry: an element that wants a nine-slice texture,
/// the size the layout system last computed for it, and the key of its
/// material once the creation pass has attached one.
#[derive(Clone, Copy, Debug, PartialEq, Eq, Structural)]
pub struct UiElement {
    /// Opaque identifier handed out by the host.
    pub id: u64,
    /// The authored nine-slice declaration.
    pub texture: NineSliceUiTexture,
    /// On-screen pixel size as of this tick.
    pub surface_size: SurfaceSize,
    /// The key of the element's material, `None` until creation succeeds.
    pub material: Option<MaterialHandle>,
    /// A flat background that shows until the material replaces it.
    pub background_color: Option<Rgba>,
}

/// What a host spawns to declare a nine-slice panel: the authored
/// texture plus the element state this engine reads. The layout,
/// transform and visibility components of a real UI node stay with the
/// host.
#[derive(Clone, Copy, Debug, PartialEq, Eq, Structural)]
pub struct NineSliceUiMaterialBundle {
    /// The nine slice component.
    pub nine_slice_texture: NineSliceUiTexture,
    /// The on-screen size, refined by the layout system each tick.
    pub surface_size: SurfaceSize,
    /// The flat background the material replaces once created.
    pub background_color: Option<Rgba>,
}

impl NineSliceUiMaterialBundle {
    /// The registry entry for a freshly spawned bundle: no material yet.
    pub fn into_element(self, id: u64) -> (e: UiElement)
        ensures
            e == (UiElement {
                id,
                texture: self.nine_slice_texture,
                surface_size: self.surface_size,
                material: None,
                background_color: self.background_color,
            }),
    {
        UiElement {
            id,
            texture: self.nine_slice_texture,
            surface_size: self.surface_size,
            material: None,
            background_color: self.background_color,
        }
    }
}

impl Default for NineSliceUiMaterialBundle {
    /// An empty bundle: the whole default image, not yet laid out.
    fn default() -> (b: NineSliceUiMaterialBundle)
        ensures
            b.nine_slice_texture.atlas.id == 0,
            b.nine_slice_texture.bounds is None,
            b.nine_slice_texture.blend_mix == 0,
            b.nine_slice_texture.gradient_mix == 0,
            b.surface_size == (SurfaceSize { width: 0, height: 0 }),
            b.background_color is None,
    {
        NineSliceUiMaterialBundle {
            nine_slice_texture: NineSliceUiTexture::from_image(ImageHandle::default()),
            surface_size: SurfaceSize { width: 0, height: 0 },
            background_color: None,
        }
    }
}

/// Every attached handle points into the material store.
pub open spec fn handles_valid(elements: Seq<UiElement>, n_materials: int) -> bool {
    forall|i: int|
        0 <= i < elements.len() ==> (#[trigger] elements[i].material matches Some(h) ==> h.index
            < n_materials)
}

/// No two elements share a material: exactly one material per element.
pub open spec fn handles_injective(elements: Seq<UiElement>) -> bool {
    forall|i: int, j: int|
        0 <= i < j < elements.len() && elements[i].material is Some
            && elements[j].material is Some ==> elements[i].material != elements[j].material
}

/// The registry invariant the two passes preserve.
pub open spec fn registry_wf(elements: Seq<UiElement>, n_materials: int) -> bool {
    handles_valid(elements, n_materials) && handles_injective(elements)
}

/// The creation pass takes an element on when it has no material yet and
/// its bounds resolve this tick.
pub open spec fn spec_spawns(e: UiElement, images: Seq<(u64, DecodedImageMeta)>) -> bool {
    e.material is None && spec_resolve(e.texture, images) is Some
}

/// An element right after creation: the new material's key attached, the
/// flat background removed so it no longer shows through.
pub open spec fn spec_spawned_element(e: UiElement, handle_index: int) -> UiElement {
    UiElement {
        material: Some(MaterialHandle { index: handle_index as usize }),
        background_color: None,
        ..e
    }
}

/// The creation pass over the whole registry, front to back: the new
/// registry and the new material store.
pub open spec fn spec_spawn_pass(
    elements: Seq<UiElement>,
    materials: Seq<NineSliceMaterial>,
    images: Seq<(u64, DecodedImageMeta)>,
) -> (Seq<UiElement>, Seq<NineSliceMaterial>)
    decreases elements.len(),
{
    if elements.len() == 0 {
        (elements, materials)
    } else {
        let e = elements[0];
        if spec_spawns(e, images) {
            let bounds = spec_resolve(e.texture, images)->Some_0;
            let m = spec_material_from(e.texture, e.surface_size, bounds);
            let rec = spec_spawn_pass(elements.drop_first(), materials.push(m), images);
            (seq![spec_spawned_element(e, materials.len() as int)] + rec.0, rec.1)
        } else {
            let rec = spec_spawn_pass(elements.drop_first(), materials, images);
            (seq![e] + rec.0, rec.1)
        }
    }
}

/// The refresh pass over the whole registry, front to back: the new
/// material store. Elements whose bounds no longer resolve, and keys the
/// store never issued, leave their material untouched.
pub open spec fn spec_sync_pass(
    elements: Seq<UiElement>,
    materials: Seq<NineSliceMaterial>,
    images: Seq<(u64, DecodedImageMeta)>,
) -> Seq<NineSliceMaterial>
    decreases elements.len(),
{
    if elements.len() == 0 {
        materials
    } else {
        let e = elements[0];
        let stepped = match e.material {
            Some(h) => match spec_resolve(e.texture, images) {
                Some(bounds) => if h.index < materials.len() {
                    materials.update(
                        h.index as int,
                        spec_material_from(e.texture, e.surface_size, bounds),
                    )
                } else {
                    materials
                },
                None => materials,
            },
            None => materials,
        };
        spec_sync_pass(elements.drop_first(), stepped, images)
    }
}

/// The creation pass keeps every element and only appends materials.
pub proof fn lemma_spawn_pass_len(
    elements: Seq<UiElement>,
    materials: Seq<NineSliceMaterial>,
    images: Seq<(u64, DecodedImageMeta)>,
)
    ensures
        spec_spawn_pass(elements, materials, images).0.len() == elements.len(),
        spec_spawn_pass(elements, materials, images).1.len() >= materials.len(),
    decreases elements.len(),
{
    if elements.len() > 0 {
        let e = elements[0];
        if spec_spawns(e, images) {
            let bounds = spec_resolve(e.texture, images)->Some_0;
            let m = spec_material_from(e.texture, e.surface_size, bounds);
            lemma_spawn_pass_len(elements.drop_first(), materials.push(m), images);
        } else {
            lemma_spawn_pass_len(elements.drop_first(), materials, images);
        }
    }
}

/// Materials that existed before the creation pass are untouched by it:
/// the pass only ever appends to the store.
pub proof fn lemma_spawn_pass_keeps_existing(
    elements: Seq<UiElement>,
    materials: Seq<NineSliceMaterial>,
    images: Seq<(u64, DecodedImageMeta)>,
)
    ensures
        spec_spawn_pass(elements, materials, images).1.take(materials.len() as int) =~= materials,
    decreases elements.len(),
{
    if elements.len() > 0 {
        let e = elements[0];
        if spec_spawns(e, images) {
            let bounds = spec_resolve(e.texture, images)->Some_0;
            let m = spec_material_from(e.texture, e.surface_size, bounds);
            let pushed = materials.push(m);
            lemma_spawn_pass_len(elements.drop_first(), pushed, images);
            lemma_spawn_pass_keeps_existing(elements.drop_first(), pushed, images);
            let rec = spec_spawn_pass(elements.drop_first(), pushed, images);
            assert(rec.1.take(pushed.len() as int) == pushed);
            assert forall|j: int| 0 <= j < materials.len() implies rec.1.take(
                materials.len() as int,
            )[j] == materials[j] by {
                assert(rec.1[j] == rec.1.take(pushed.len() as int)[j]);
                assert(pushed[j] == materials[j]);
            }
        } else {
            lemma_spawn_pass_keeps_existing(elements.drop_first(), materials, images);
        }
    }
}

/// The creation pass preserves the registry invariant: fresh keys point at
/// the slots it appended, and no two elements ever come to share one.
pub proof fn lemma_spawn_pass_preserves_wf(
    elements: Seq<UiElement>,
    materials: Seq<NineSliceMaterial>,
    images: Seq<(u64, DecodedImageMeta)>,
)
    requires
        registry_wf(elements, materials.len() as int),
        materials.len() + elements.len() <= usize::MAX,
    ensures
        registry_wf(
            spec_spawn_pass(elements, materials, images).0,
            spec_spawn_pass(elements, materials, images).1.len() as int,
        ),
        // an element that already had a material keeps exactly that key
        forall|k: int|
            0 <= k < elements.len() && elements[k].material is Some ==> spec_spawn_pass(
                elements,
                materials,
                images,
            ).0[k].material == elements[k].material,
        // a key attached by this pass points past the old end of the store
        forall|k: int|
            0 <= k < elements.len() && elements[k].material is None && spec_spawn_pass(
                elements,
                materials,
                images,
            ).0[k].material is Some ==> spec_spawn_pass(elements, materials, images).0[k].material->Some_0.index
                >= materials.len(),
    decreases elements.len(),
{
    lemma_spawn_pass_len(elements, materials, images);
    if elements.len() > 0 {
        let e = elements[0];
        let pass = spec_spawn_pass(elements, materials, images);
        let rest = elements.drop_first();
        assert forall|k: int| 0 <= k < rest.len() implies #[trigger] rest[k] == elements[k + 1]
        by {}
        if spec_spawns(e, images) {
            let bounds = spec_resolve(e.texture, images)->Some_0;
            let m = spec_material_from(e.texture, e.surface_size, bounds);
            let pushed = materials.push(m);
            let e2 = spec_spawned_element(e, materials.len() as int);
            assert(registry_wf(rest, pushed.len() as int));
            lemma_spawn_pass_len(rest, pushed, images);
            lemma_spawn_pass_preserves_wf(rest, pushed, images);
            let rec = spec_spawn_pass(rest, pushed, images);
            assert(pass.0 == seq![e2] + rec.0);
            assert(pass.1 == rec.1);
            assert(pass.0[0] == e2);
            assert(e2.material == Some(MaterialHandle { index: materials.len() as usize }));
            assert forall|k: int| 1 <= k < pass.0.len() implies #[trigger] pass.0[k] == rec.0[k
                - 1] by {}
            assert forall|k: int|
                0 <= k < pass.0.len() implies (#[trigger] pass.0[k].material matches Some(h)
                ==> h.index < pass.1.len() as int) by {
                if k == 0 {
                    assert(pass.0[0].material->Some_0.index == materials.len());
                    assert(rec.1.len() >= pushed.len());
                } else {
                    assert(pass.0[k] == rec.0[k - 1]);
                    assert(rec.0[k - 1].material matches Some(h) ==> h.index < rec.1.len());
                }
            }
            assert forall|k: int|
                0 <= k < elements.len() && elements[k].material is Some implies #[trigger] pass.0[k].material
                == elements[k].material by {
                if k >= 1 {
                    assert(rest[k - 1] == elements[k]);
                    assert(rest[k - 1].material is Some ==> rec.0[k - 1].material == rest[k
                        - 1].material);
                }
            }
            assert forall|k: int|
                0 <= k < elements.len() && elements[k].material is None
                    && #[trigger] pass.0[k].material is Some implies pass.0[k].material->Some_0.index
                >= materials.len() by {
                if k == 0 {
                    assert(pass.0[0].material->Some_0.index == materials.len());
                } else {
                    assert(rest[k - 1] == elements[k]);
                    assert(rest[k - 1].material is None && rec.0[k - 1].material is Some
                        ==> rec.0[k - 1].material->Some_0.index >= pushed.len());
                }
            }
            assert forall|i2: int, j2: int|
                0 <= i2 < j2 < pass.0.len() && pass.0[i2].material is Some
                    && pass.0[j2].material is Some implies #[trigger] pass.0[i2].material
                != #[trigger] pass.0[j2].material by {
                if i2 == 0 {
                    assert(pass.0[0].material->Some_0.index == materials.len());
                    assert(pass.0[j2] == rec.0[j2 - 1]);
                    if rest[j2 - 1].material is Some {
                        assert(rec.0[j2 - 1].material == rest[j2 - 1].material);
                        assert(rest[j2 - 1] == elements[j2]);
                        assert(elements[j2].material matches Some(h) ==> h.index
                            < materials.len());
                    } else {
                        assert(rec.0[j2 - 1].material->Some_0.index >= pushed.len());
                    }
                } else {
                    assert(pass.0[i2] == rec.0[i2 - 1]);
                    assert(pass.0[j2] == rec.0[j2 - 1]);
                }
            }
        } else {
            lemma_spawn_pass_len(rest, materials, images);
            lemma_spawn_pass_preserves_wf(rest, materials, images);
            let rec = spec_spawn_pass(rest, materials, images);
            assert(pass.0 == seq![e] + rec.0);
            assert(pass.1 == rec.1);
            assert(pass.0[0] == e);
            assert forall|k: int| 1 <= k < pass.0.len() implies #[trigger] pass.0[k] == rec.0[k
                - 1] by {}
            assert forall|k: int|
                0 <= k < pass.0.len() implies (#[trigger] pass.0[k].material matches Some(h)
                ==> h.index < pass.1.len() as int) by {
                if k == 0 {
                    assert(elements[0].material matches Some(h) ==> h.index < materials.len());
                } else {
                    assert(pass.0[k] == rec.0[k - 1]);
                    assert(rec.0[k - 1].material matches Some(h) ==> h.index < rec.1.len());
                }
            }
            assert forall|k: int|
                0 <= k < elements.len() && elements[k].material is Some implies #[trigger] pass.0[k].material
                == elements[k].material by {
                if k >= 1 {
                    assert(rest[k - 1] == elements[k]);
                    assert(rest[k - 1].material is Some ==> rec.0[k - 1].material == rest[k
                        - 1].material);
                }
            }
            assert forall|k: int|
                0 <= k < elements.len() && elements[k].material is None
                    && #[trigger] pass.0[k].material is Some implies pass.0[k].material->Some_0.index
                >= materials.len() by {
                if k >= 1 {
                    assert(rest[k - 1] == elements[k]);
                    assert(rest[k - 1].material is None && rec.0[k - 1].material is Some
                        ==> rec.0[k - 1].material->Some_0.index >= materials.len());
                }
            }
            assert forall|i2: int, j2: int|
                0 <= i2 < j2 < pass.0.len() && pass.0[i2].material is Some
                    && pass.0[j2].material is Some implies #[trigger] pass.0[i2].material
                != #[trigger] pass.0[j2].material by {
                if i2 == 0 {
                    assert(pass.0[j2] == rec.0[j2 - 1]);
                    assert(elements[0].material matches Some(h) ==> h.index < materials.len());
                    if rest[j2 - 1].material is Some {
                        assert(rec.0[j2 - 1].material == rest[j2 - 1].material);
                        assert(rest[j2 - 1] == elements[j2]);
                        assert(elements[0].material != elements[j2].material);
                    } else {
                        assert(rec.0[j2 - 1].material->Some_0.index >= materials.len());
                    }
                } else {
                    assert(pass.0[i2] == rec.0[i2 - 1]);
                    assert(pass.0[j2] == rec.0[j2 - 1]);
                }
            }
        }
    }
}

/// Creation is idempotent: running the creation pass on its own result
/// changes nothing, so an element is never given a second material.
pub proof fn lemma_spawn_pass_idempotent(
    elements: Seq<UiElement>,
    materials: Seq<NineSliceMaterial>,
    images: Seq<(u64, DecodedImageMeta)>,
)
    ensures
        ({
            let once = spec_spawn_pass(elements, materials, images);
            spec_spawn_pass(once.0, once.1, images) == once
        }),
    decreases elements.len(),
{
    let once = spec_spawn_pass(elements, materials, images);
    if elements.len() == 0 {
        assert(spec_spawn_pass(once.0, once.1, images) == once);
    } else {
        let e = elements[0];
        if spec_spawns(e, images) {
            let bounds = spec_resolve(e.texture, images)->Some_0;
            let m = spec_material_from(e.texture, e.surface_size, bounds);
            let e2 = spec_spawned_element(e, materials.len() as int);
            let rec = spec_spawn_pass(elements.drop_first(), materials.push(m), images);
            lemma_spawn_pass_idempotent(elements.drop_first(), materials.push(m), images);
            assert(once.0 == seq![e2] + rec.0);
            assert(once.0[0] == e2);
            assert(!spec_spawns(e2, images));
            assert(once.0.drop_first() =~= rec.0);
            assert(spec_spawn_pass(once.0, once.1, images) == (
                seq![e2] + spec_spawn_pass(rec.0, rec.1, images).0,
                spec_spawn_pass(rec.0, rec.1, images).1,
            ));
        } else {
            let rec = spec_spawn_pass(elements.drop_first(), materials, images);
            lemma_spawn_pass_idempotent(elements.drop_first(), materials, images);
            assert(once.0 == seq![e] + rec.0);
            assert(once.0[0] == e);
            assert(!spec_spawns(e, images));
            assert(once.0.drop_first() =~= rec.0);
            assert(spec_spawn_pass(once.0, once.1, images) == (
                seq![e] + spec_spawn_pass(rec.0, rec.1, images).0,
                spec_spawn_pass(rec.0, rec.1, images).1,
            ));
        }
    }
}

/// The refresh pass never creates or destroys a material.
pub proof fn lemma_sync_pass_len(
    elements: Seq<UiElement>,
    materials: Seq<NineSliceMaterial>,
    images: Seq<(u64, DecodedImageMeta)>,
)
    ensures
        spec_sync_pass(elements, materials, images).len() == materials.len(),
    decreases elements.len(),
{
    if elements.len() > 0 {
        let e = elements[0];
        let stepped = match e.material {
            Some(h) => match spec_resolve(e.texture, images) {
                Some(bounds) => if h.index < materials.len() {
                    materials.update(
                        h.index as int,
                        spec_material_from(e.texture, e.surface_size, bounds),
                    )
                } else {
                    materials
                },
                None => materials,
            },
            None => materials,
        };
        lemma_sync_pass_len(elements.drop_first(), stepped, images);
    }
}

/// A material slot that no element syncs into this pass keeps its value:
/// either no element holds its key, or the one that does cannot resolve
/// its bounds this tick.
pub proof fn lemma_sync_pass_untouched(
    elements: Seq<UiElement>,
    materials: Seq<NineSliceMaterial>,
    images: Seq<(u64, DecodedImageMeta)>,
    h: MaterialHandle,
)
    requires
        h.index < materials.len(),
        forall|k: int|
            0 <= k < elements.len() && elements[k].material == Some(h) ==> spec_resolve(
                elements[k].texture,
                images,
            ) is None,
    ensures
        spec_sync_pass(elements, materials, images)[h.index as int] == materials[h.index as int],
    decreases elements.len(),
{
    if elements.len() > 0 {
        let e = elements[0];
        let stepped = match e.material {
            Some(h0) => match spec_resolve(e.texture, images) {
                Some(bounds) => if h0.index < materials.len() {
                    materials.update(
                        h0.index as int,
                        spec_material_from(e.texture, e.surface_size, bounds),
                    )
                } else {
                    materials
                },
                None => materials,
            },
            None => materials,
        };
        assert(stepped[h.index as int] == materials[h.index as int]);
        assert forall|k: int| 0 <= k < elements.len() - 1 implies (
            elements.drop_first()[k] == elements[k + 1]
        ) by {}
        lemma_sync_pass_untouched(elements.drop_first(), stepped, images, h);
    }
}

/// Refresh correctness: under the registry invariant, an element whose
/// bounds resolve has its material overwritten, in place, with the
/// snapshot of its current declaration and current size — in particular
/// the fresh `surface_size` — and no material is created or replaced.
pub proof fn lemma_sync_pass_updates_element(
    elements: Seq<UiElement>,
    materials: Seq<NineSliceMaterial>,
    images: Seq<(u64, DecodedImageMeta)>,
    i: int,
)
    requires
        registry_wf(elements, materials.len() as int),
        0 <= i < elements.len(),
        elements[i].material is Some,
        spec_resolve(elements[i].texture, images) is Some,
    ensures
        spec_sync_pass(elements, materials, images).len() == materials.len(),
        spec_sync_pass(elements, materials, images)[elements[i].material->Some_0.index as int]
            == spec_material_from(
            elements[i].texture,
            elements[i].surface_size,
            spec_resolve(elements[i].texture, images)->Some_0,
        ),
    decreases elements.len(),
{
    lemma_sync_pass_len(elements, materials, images);
    let e = elements[0];
    let h = elements[i].material->Some_0;
    let target = spec_material_from(
        elements[i].texture,
        elements[i].surface_size,
        spec_resolve(elements[i].texture, images)->Some_0,
    );
    let stepped = match e.material {
        Some(h0) => match spec_resolve(e.texture, images) {
            Some(bounds) => if h0.index < materials.len() {
                materials.update(
                    h0.index as int,
                    spec_material_from(e.texture, e.surface_size, bounds),
                )
            } else {
                materials
            },
            None => materials,
        },
        None => materials,
    };
    assert forall|k: int| 0 <= k < elements.len() - 1 implies (
        elements.drop_first()[k] == elements[k + 1]
    ) by {}
    if i == 0 {
        assert(stepped[h.index as int] == target);
        assert forall|k: int|
            0 <= k < elements.drop_first().len() && elements.drop_first()[k].material == Some(h)
        implies spec_resolve(elements.drop_first()[k].texture, images) is None by {
            assert(elements[k + 1].material == elements[0].material);
        }
        lemma_sync_pass_untouched(elements.drop_first(), stepped, images, h);
    } else {
        lemma_sync_pass_updates_element(elements.drop_first(), stepped, images, i - 1);
    }
}

/// The creation pass: give every element that has a texture but no
/// material yet, and whose bounds resolve this tick, a material of its
/// own, and drop its flat background. Elements whose atlas is still
/// loading are skipped and retried on a later pass.
pub fn spawn_nine_slice(
    elements: &mut Vec<UiElement>,
    images: &ImageStore,
    materials: &mut MaterialStore,
)
    ensures
        final(elements)@ == spec_spawn_pass(old(elements)@, old(materials)@, images@).0,
        final(materials)@ == spec_spawn_pass(old(elements)@, old(materials)@, images@).1,
{
    let ghost g_elements = elements@;
    let ghost g_materials = materials@;
    let ghost target = spec_spawn_pass(g_elements, g_materials, images@);
    proof {
        lemma_spawn_pass_len(g_elements, g_materials, images@);
        assert(g_elements.skip(0) =~= g_elements);
        assert(target.0.skip(0) =~= target.0);
    }
    let n = elements.len();
    let mut i: usize = 0;
    while i < n
        invariant
            i <= n,
            n == elements.len(),
            elements@.len() == g_elements.len(),
            target == spec_spawn_pass(g_elements, g_materials, images@),
            target.0.len() == n,
            elements@.skip(i as int) =~= g_elements.skip(i as int),
            elements@.take(i as int) =~= target.0.take(i as int),
            spec_spawn_pass(elements@.skip(i as int), materials@, images@) == (
                target.0.skip(i as int),
                target.1,
            ),
        decreases n - i,
    {
        let ghost els_before = elements@;
        let ghost s = elements@.skip(i as int);
        let ghost m_before = materials@;
        let e = elements[i];
        proof {
            assert(s[0] == e);
            assert(s.drop_first() =~= els_before.skip(i as int + 1));
        }
        if e.material.is_none() {
            match resolve(&e.texture, images) {
                Some(bounds) => {
                    let m = material_from(&e.texture, e.surface_size, bounds);
                    let handle = materials.add(m);
                    elements[i] = UiElement {
                        material: Some(handle),
                        background_color: None,
                        ..e
                    };
                    proof {
                        let e2 = spec_spawned_element(e, m_before.len() as int);
                        let rec = spec_spawn_pass(s.drop_first(), m_before.push(m), images@);
                        assert(spec_spawns(e, images@));
                        assert(m == spec_material_from(
                            e.texture,
                            e.surface_size,
                            spec_resolve(e.texture, images@)->Some_0,
                        ));
                        assert(spec_spawn_pass(s, m_before, images@) == (
                            seq![e2] + rec.0,
                            rec.1,
                        ));
                        assert(target.0.skip(i as int) == seq![e2] + rec.0);
                        assert(target.0.skip(i as int)[0] == e2);
                        assert(target.0[i as int] == target.0.skip(i as int)[0]);
                        assert((seq![e2] + rec.0).drop_first() =~= rec.0);
                        assert(target.0.skip(i as int).drop_first() =~= target.0.skip(
                            i as int + 1,
                        ));
                        assert(rec == (target.0.skip(i as int + 1), target.1));
                        assert(elements@ == els_before.update(i as int, e2));
                        assert(elements@.skip(i as int + 1) =~= s.drop_first());
                        assert(materials@ == m_before.push(m));
                        assert(spec_spawn_pass(elements@.skip(i as int + 1), materials@, images@)
                            == (target.0.skip(i as int + 1), target.1));
                        assert(elements@.skip(i as int + 1) =~= g_elements.skip(i as int + 1));
                        assert(elements@.take(i as int + 1) =~= target.0.take(i as int + 1));
                    }
                },
                None => {
                    proof {
                        assert(!spec_spawns(e, images@));
                        lemma_spawn_step_skipped(s, m_before, images@, target, i as int);
                        assert(elements@.take(i as int + 1) =~= target.0.take(i as int + 1));
                    }
                },
            }
        } else {
            proof {
                assert(!spec_spawns(e, images@));
                lemma_spawn_step_skipped(s, m_before, images@, target, i as int);
                assert(elements@.take(i as int + 1) =~= target.0.take(i as int + 1));
            }
        }
        i = i + 1;
    }
    proof {
        assert(elements@.skip(n as int) =~= Seq::<UiElement>::empty());
        assert(materials@ == target.1);
        assert(elements@ =~= elements@.take(n as int));
        assert(target.0 =~= target.0.take(n as int));
    }
}

/// One skipped step of the creation pass: the suffix equation advances.
proof fn lemma_spawn_step_skipped(
    s: Seq<UiElement>,
    materials: Seq<NineSliceMaterial>,
    images: Seq<(u64, DecodedImageMeta)>,
    target: (Seq<UiElement>, Seq<NineSliceMaterial>),
    i: int,
)
    requires
        s.len() > 0,
        !spec_spawns(s[0], images),
        0 <= i < target.0.len(),
        spec_spawn_pass(s, materials, images) == (target.0.skip(i), target.1),
    ensures
        spec_spawn_pass(s.drop_first(), materials, images) == (target.0.skip(i + 1), target.1),
        target.0[i] == s[0],
{
    let rec = spec_spawn_pass(s.drop_first(), materials, images);
    assert(spec_spawn_pass(s, materials, images) == (seq![s[0]] + rec.0, rec.1));
    assert(target.0.skip(i)[0] == s[0]);
    assert(target.0[i] == target.0.skip(i)[0]);
    assert(target.0.skip(i).drop_first() =~= target.0.skip(i + 1));
    assert((seq![s[0]] + rec.0).drop_first() =~= rec.0);
}

/// The refresh pass: push every element's current declaration and
/// current on-screen size into its existing material, in place. An
/// element whose bounds no longer resolve, or that has no material yet,
/// leaves the store untouched this tick.
pub fn sync_nine_slice(
    elements: &Vec<UiElement>,
    images: &ImageStore,
    materials: &mut MaterialStore,
)
    ensures
        final(materials)@ == spec_sync_pass(elements@, old(materials)@, images@),
{
    let ghost g_materials = materials@;
    let ghost target = spec_sync_pass(elements@, g_materials, images@);
    proof {
        assert(elements@.skip(0) =~= elements@);
    }
    let n = elements.len();
    let mut i: usize = 0;
    while i < n
        invariant
            i <= n,
            n == elements.len(),
            target == spec_sync_pass(elements@, g_materials, images@),
            target == spec_sync_pass(elements@.skip(i as int), materials@, images@),
        decreases n - i,
    {
        let ghost s = elements@.skip(i as int);
        let ghost m_before = materials@;
        let e = elements[i];
        proof {
            assert(s[0] == e);
            assert(s.drop_first() =~= elements@.skip(i as int + 1));
        }
        match e.material {
            Some(handle) => {
                match resolve(&e.texture, images) {
                    Some(bounds) => {
                        if handle.index < materials.len() {
                            let m = material_from(&e.texture, e.surface_size, bounds);
                            materials.write(handle, m);
                        }
                    },
                    None => {},
                }
            },
            None => {},
        }
        i = i + 1;
    }
    proof {
        assert(elements@.skip(n as int) =~= Seq::<UiElement>::empty());
    }
}

} // verus!
