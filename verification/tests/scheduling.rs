use nine_slice_ui::assets::{DecodedImageMeta, ImageStore};
use nine_slice_ui::color::Rgba;
use nine_slice_ui::engine::UiElement;
use nine_slice_ui::geometry::SurfaceSize;
use nine_slice_ui::material::MaterialStore;
use nine_slice_ui::plugin::{NineSliceUiPlugin, RefreshTimer, run_tick};
use nine_slice_ui::texture::{ImageHandle, NineSliceUiTexture};

#[test]
fn plugin_defaults_to_100ms() {
    let plugin = NineSliceUiPlugin::default();
    assert_eq!(plugin.sync_rate_ms, 100);
    let timer = plugin.refresh_timer();
    assert_eq!(timer.period_ms, 100);
    assert_eq!(timer.elapsed_ms, 0);
}

#[test]
fn plugin_takes_explicit_rate() {
    let plugin = NineSliceUiPlugin::new(250);
    assert_eq!(plugin.sync_rate_ms, 250);
}

#[test]
fn timer_fires_once_per_period_and_keeps_remainder() {
    let mut timer = RefreshTimer::new(100);
    assert!(!timer.tick(50));
    assert_eq!(timer.elapsed_ms, 50);
    assert!(timer.tick(50));
    assert_eq!(timer.elapsed_ms, 0);
    assert!(timer.tick(250));
    assert_eq!(timer.elapsed_ms, 50);
    assert!(!timer.tick(49));
    assert_eq!(timer.elapsed_ms, 99);
    assert!(timer.tick(1));
    assert_eq!(timer.elapsed_ms, 0);
}

#[test]
fn tick_creates_every_tick_and_refreshes_on_cadence() {
    let mut images = ImageStore::new();
    images.insert(7, DecodedImageMeta { width: 64, height: 64 });
    let mut elements = vec![UiElement {
        id: 1,
        texture: NineSliceUiTexture::from_image(ImageHandle::new(7)),
        surface_size: SurfaceSize::new(150, 50),
        material: None,
        background_color: Some(Rgba { r: 0, g: 0, b: 0, a: 255 }),
    }];
    let mut materials = MaterialStore::new();
    let mut timer = NineSliceUiPlugin::default().refresh_timer();

    // first tick: creation runs, the cadence has not elapsed yet
    let fired = run_tick(&mut elements, &images, &mut materials, &mut timer, 16);
    assert!(!fired);
    let handle = elements[0].material.expect("material attached on first tick");
    assert_eq!(materials.get(handle).unwrap().surface_size, SurfaceSize::new(150, 50));

    // the layout system resizes the node; the next tick crosses the
    // cadence, so the refresh pass pushes the new size into the material
    let mut e = elements[0];
    e.surface_size = SurfaceSize::new(300, 50);
    elements[0] = e;
    let fired = run_tick(&mut elements, &images, &mut materials, &mut timer, 84);
    assert!(fired);
    assert_eq!(materials.len(), 1);
    assert_eq!(materials.get(handle).unwrap().surface_size, SurfaceSize::new(300, 50));
}

#[test]
fn tick_below_cadence_leaves_material_stale() {
    let mut images = ImageStore::new();
    images.insert(7, DecodedImageMeta { width: 64, height: 64 });
    let mut elements = vec![UiElement {
        id: 1,
        texture: NineSliceUiTexture::from_image(ImageHandle::new(7)),
        surface_size: SurfaceSize::new(150, 50),
        material: None,
        background_color: None,
    }];
    let mut materials = MaterialStore::new();
    let mut timer = NineSliceUiPlugin::default().refresh_timer();

    run_tick(&mut elements, &images, &mut materials, &mut timer, 10);
    let handle = elements[0].material.unwrap();

    let mut e = elements[0];
    e.surface_size = SurfaceSize::new(999, 50);
    elements[0] = e;
    let fired = run_tick(&mut elements, &images, &mut materials, &mut timer, 10);
    assert!(!fired);
    // staleness up to one refresh period is the accepted trade-off
    assert_eq!(materials.get(handle).unwrap().surface_size, SurfaceSize::new(150, 50));
}
