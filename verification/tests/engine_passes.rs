use nine_slice_ui::assets::{DecodedImageMeta, ImageStore};
use nine_slice_ui::color::Rgba;
use nine_slice_ui::engine::{
    NineSliceUiMaterialBundle, UiElement, spawn_nine_slice, sync_nine_slice,
};
use nine_slice_ui::geometry::{Rect, SurfaceSize};
use nine_slice_ui::material::{MaterialStore, MixPair, NineSliceMaterial};
use nine_slice_ui::texture::{ImageHandle, NineSliceUiTexture};

fn element(id: u64, texture: NineSliceUiTexture, width: u32, height: u32) -> UiElement {
    UiElement {
        id,
        texture,
        surface_size: SurfaceSize::new(width, height),
        material: None,
        background_color: Some(Rgba { r: 40, g: 40, b: 40, a: 255 }),
    }
}

#[test]
fn creation_pass_scenario() {
    // the panel atlas is 64 x 64 and already decoded; no explicit bounds
    let mut images = ImageStore::new();
    images.insert(7, DecodedImageMeta { width: 64, height: 64 });
    let texture = NineSliceUiTexture::from_image(ImageHandle::new(7));
    let mut elements = vec![element(1, texture, 150, 50)];
    let mut materials = MaterialStore::new();

    spawn_nine_slice(&mut elements, &images, &mut materials);

    assert_eq!(materials.len(), 1);
    let handle = elements[0].material.expect("material attached");
    assert_eq!(elements[0].background_color, None);
    let expected = NineSliceMaterial {
        atlas: ImageHandle::new(7),
        surface_size: SurfaceSize::new(150, 50),
        bounds: Rect { min_x: 0, min_y: 0, max_x: 64, max_y: 64 },
        blend_color: Rgba { r: 255, g: 255, b: 255, a: 255 },
        lookup_gradient: ImageHandle::default(),
        mix: MixPair { blend: 0, gradient: 0 },
    };
    assert_eq!(materials.get(handle), Some(expected));

    // after the node resizes, a refresh updates only the surface size,
    // in the same material slot
    let mut e = elements[0];
    e.surface_size = SurfaceSize::new(300, 50);
    elements[0] = e;
    sync_nine_slice(&elements, &images, &mut materials);

    assert_eq!(materials.len(), 1);
    assert_eq!(elements[0].material, Some(handle));
    let refreshed = NineSliceMaterial { surface_size: SurfaceSize::new(300, 50), ..expected };
    assert_eq!(materials.get(handle), Some(refreshed));
}

#[test]
fn default_bundle_is_whole_default_image() {
    let b = NineSliceUiMaterialBundle::default();
    assert_eq!(b.nine_slice_texture.atlas, ImageHandle::default());
    assert!(b.nine_slice_texture.bounds.is_none());
    assert_eq!(b.nine_slice_texture.blend_mix, 0);
    assert_eq!(b.nine_slice_texture.gradient_mix, 0);
    assert_eq!(b.surface_size, SurfaceSize::new(0, 0));
    assert!(b.background_color.is_none());

    let e = b.into_element(4);
    assert_eq!(e.id, 4);
    assert!(e.material.is_none());
    assert_eq!(e.texture, b.nine_slice_texture);
}

#[test]
fn creation_pass_is_idempotent() {
    let mut images = ImageStore::new();
    images.insert(3, DecodedImageMeta { width: 16, height: 16 });
    let texture = NineSliceUiTexture::from_image(ImageHandle::new(3));
    let mut elements = vec![element(1, texture, 100, 100)];
    let mut materials = MaterialStore::new();

    spawn_nine_slice(&mut elements, &images, &mut materials);
    let after_first = elements.clone();
    assert_eq!(materials.len(), 1);

    spawn_nine_slice(&mut elements, &images, &mut materials);
    assert_eq!(materials.len(), 1);
    assert_eq!(elements, after_first);
}

#[test]
fn creation_pass_skips_until_atlas_decodes() {
    let texture = NineSliceUiTexture::from_image(ImageHandle::new(9));
    let mut elements = vec![element(1, texture, 100, 100)];
    let mut images = ImageStore::new();
    let mut materials = MaterialStore::new();

    spawn_nine_slice(&mut elements, &images, &mut materials);
    assert_eq!(materials.len(), 0);
    assert_eq!(elements[0].material, None);
    assert!(elements[0].background_color.is_some());

    images.insert(9, DecodedImageMeta { width: 10, height: 10 });
    spawn_nine_slice(&mut elements, &images, &mut materials);
    assert_eq!(materials.len(), 1);
    assert!(elements[0].material.is_some());
    assert_eq!(elements[0].background_color, None);
}

#[test]
fn creation_pass_gives_each_element_its_own_material() {
    let mut images = ImageStore::new();
    images.insert(3, DecodedImageMeta { width: 16, height: 16 });
    let texture = NineSliceUiTexture::from_image(ImageHandle::new(3));
    let mut elements = vec![
        element(1, texture, 10, 10),
        element(2, texture, 20, 20),
        element(3, texture, 30, 30),
    ];
    let mut materials = MaterialStore::new();

    spawn_nine_slice(&mut elements, &images, &mut materials);

    assert_eq!(materials.len(), 3);
    let h0 = elements[0].material.unwrap();
    let h1 = elements[1].material.unwrap();
    let h2 = elements[2].material.unwrap();
    assert_ne!(h0, h1);
    assert_ne!(h1, h2);
    assert_ne!(h0, h2);
    assert_eq!(materials.get(h1).unwrap().surface_size, SurfaceSize::new(20, 20));
}

#[test]
fn refresh_updates_surface_size_in_place() {
    // surface (200, 100) at creation, (400, 100) at refresh
    let mut images = ImageStore::new();
    images.insert(2, DecodedImageMeta { width: 8, height: 8 });
    let texture = NineSliceUiTexture::from_image(ImageHandle::new(2));
    let mut elements = vec![element(1, texture, 200, 100)];
    let mut materials = MaterialStore::new();
    spawn_nine_slice(&mut elements, &images, &mut materials);
    let handle = elements[0].material.unwrap();
    assert_eq!(materials.get(handle).unwrap().surface_size, SurfaceSize::new(200, 100));

    let mut e = elements[0];
    e.surface_size = SurfaceSize::new(400, 100);
    elements[0] = e;
    sync_nine_slice(&elements, &images, &mut materials);

    assert_eq!(materials.len(), 1);
    assert_eq!(elements[0].material, Some(handle));
    assert_eq!(materials.get(handle).unwrap().surface_size, SurfaceSize::new(400, 100));
}

#[test]
fn refresh_picks_up_changed_declaration() {
    let mut images = ImageStore::new();
    images.insert(2, DecodedImageMeta { width: 8, height: 8 });
    let texture = NineSliceUiTexture::from_image(ImageHandle::new(2));
    let mut elements = vec![element(1, texture, 100, 100)];
    let mut materials = MaterialStore::new();
    spawn_nine_slice(&mut elements, &images, &mut materials);
    let handle = elements[0].material.unwrap();

    let mut e = elements[0];
    e.texture = e
        .texture
        .with_blend_color(Rgba { r: 200, g: 0, b: 0, a: 255 })
        .with_blend_mix(255);
    elements[0] = e;
    sync_nine_slice(&elements, &images, &mut materials);

    let m = materials.get(handle).unwrap();
    assert_eq!(m.blend_color, Rgba { r: 200, g: 0, b: 0, a: 255 });
    assert_eq!(m.mix, MixPair { blend: 255, gradient: 0 });
}

#[test]
fn refresh_leaves_material_untouched_while_swapped_atlas_loads() {
    let mut images = ImageStore::new();
    images.insert(2, DecodedImageMeta { width: 8, height: 8 });
    let texture = NineSliceUiTexture::from_image(ImageHandle::new(2));
    let mut elements = vec![element(1, texture, 100, 100)];
    let mut materials = MaterialStore::new();
    spawn_nine_slice(&mut elements, &images, &mut materials);
    let handle = elements[0].material.unwrap();
    let before = materials.get(handle).unwrap();

    // hot-swap to an atlas that has not decoded yet, and resize
    let mut e = elements[0];
    e.texture = NineSliceUiTexture::from_image(ImageHandle::new(99));
    e.surface_size = SurfaceSize::new(1, 1);
    e.material = Some(handle);
    elements[0] = e;
    sync_nine_slice(&elements, &images, &mut materials);

    assert_eq!(materials.get(handle), Some(before));
}
