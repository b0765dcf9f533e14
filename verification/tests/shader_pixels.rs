use nine_slice_ui::assets::ImageData;
use nine_slice_ui::color::{Rgba, luminance, mix_toward};
use nine_slice_ui::geometry::{Rect, SurfaceSize};
use nine_slice_ui::shader::{apply_blend, apply_gradient, default_margin, map_axis, shade_pixel};

fn checkered_atlas(width: u32, height: u32) -> ImageData {
    let mut pixels = Vec::new();
    for y in 0..height {
        for x in 0..width {
            pixels.push(Rgba { r: (x * 10) as u8, g: (y * 10) as u8, b: 7, a: 255 });
        }
    }
    ImageData::from_pixels(width, height, pixels).unwrap()
}

fn identity_ramp() -> ImageData {
    let mut pixels = Vec::new();
    for x in 0..256u32 {
        pixels.push(Rgba { r: x as u8, g: x as u8, b: x as u8, a: 255 });
    }
    ImageData::from_pixels(256, 1, pixels).unwrap()
}

#[test]
fn corner_cells_map_one_to_one() {
    // source 90 x 90, margin 30, destination 300 x 300: the pixel (5, 5)
    // lies in the top-left corner cell and maps unscaled
    assert_eq!(map_axis(5, 300, 90, 30), 5);
    // and against the far corner, 1:1 from the far edge
    assert_eq!(map_axis(295, 300, 90, 30), 85);
    assert_eq!(map_axis(299, 300, 90, 30), 89);
}

#[test]
fn center_pixel_samples_interior_center() {
    // the destination center samples the center of the un-margined
    // interior whatever the destination extent is
    assert_eq!(map_axis(150, 300, 90, 30), 45);
    assert_eq!(map_axis(300, 600, 90, 30), 45);
    assert_eq!(map_axis(2000, 4000, 90, 30), 45);
}

#[test]
fn edges_stretch_linearly() {
    // interior of 240 destination pixels maps onto 30 source pixels
    assert_eq!(map_axis(30, 300, 90, 30), 30);
    assert_eq!(map_axis(38, 300, 90, 30), 31);
    assert_eq!(map_axis(269, 300, 90, 30), 59);
}

#[test]
fn degenerate_extents_collapse_without_faulting() {
    // an empty source axis collapses to its first pixel
    assert_eq!(map_axis(0, 5, 0, 0), 0);
    assert_eq!(map_axis(4, 5, 0, 0), 0);
    // a destination narrower than the two margins still maps
    let r = map_axis(2, 4, 90, 30);
    assert!(r < 90);
}

#[test]
fn default_margin_is_third_of_shorter_extent() {
    assert_eq!(default_margin(&Rect { min_x: 0, min_y: 0, max_x: 90, max_y: 90 }), 30);
    assert_eq!(default_margin(&Rect { min_x: 0, min_y: 0, max_x: 4, max_y: 100 }), 1);
    assert_eq!(default_margin(&Rect { min_x: 10, min_y: 10, max_x: 10, max_y: 40 }), 0);
}

#[test]
fn shade_corner_pixel_samples_atlas_corner() {
    let atlas = checkered_atlas(4, 4);
    let bounds = Rect { min_x: 0, min_y: 0, max_x: 4, max_y: 4 };
    let surface = SurfaceSize::new(8, 8);
    let c = shade_pixel(
        0,
        0,
        surface,
        bounds,
        1,
        &atlas,
        Rgba { r: 255, g: 255, b: 255, a: 255 },
        0,
        None,
        0,
    );
    assert_eq!(c, atlas.pixel(0, 0));
}

#[test]
fn shade_center_pixel_samples_interior_center() {
    let atlas = checkered_atlas(4, 4);
    let bounds = Rect { min_x: 0, min_y: 0, max_x: 4, max_y: 4 };
    let surface = SurfaceSize::new(8, 8);
    let c = shade_pixel(
        4,
        4,
        surface,
        bounds,
        1,
        &atlas,
        Rgba { r: 255, g: 255, b: 255, a: 255 },
        0,
        None,
        0,
    );
    // map_axis(4, 8, 4, 1) == 1 + (4 - 1) * 2 / 6 == 2: the interior center
    assert_eq!(c, atlas.pixel(2, 2));
}

#[test]
fn shade_clamps_out_of_atlas_bounds() {
    // bounds collapsed to a point past the atlas edge: the sample clamps
    // to the nearest valid atlas pixel instead of faulting
    let atlas = checkered_atlas(4, 4);
    let bounds = Rect { min_x: 9, min_y: 9, max_x: 9, max_y: 9 };
    let surface = SurfaceSize::new(2, 2);
    let c = shade_pixel(
        1,
        1,
        surface,
        bounds,
        0,
        &atlas,
        Rgba { r: 255, g: 255, b: 255, a: 255 },
        0,
        None,
        0,
    );
    assert_eq!(c, atlas.pixel(3, 3));
}

#[test]
fn blend_mix_zero_keeps_sample() {
    let c = Rgba { r: 100, g: 100, b: 100, a: 255 };
    let t = Rgba { r: 200, g: 50, b: 0, a: 255 };
    assert_eq!(apply_blend(c, t, 0), c);
}

#[test]
fn blend_mix_full_opaque_is_blend_color() {
    let c = Rgba { r: 100, g: 100, b: 100, a: 255 };
    let t = Rgba { r: 200, g: 50, b: 0, a: 255 };
    assert_eq!(apply_blend(c, t, 255), t);
}

#[test]
fn blend_mix_half_interpolates() {
    let c = Rgba { r: 100, g: 100, b: 100, a: 255 };
    let t = Rgba { r: 200, g: 50, b: 0, a: 255 };
    // weight 255 * 128 / 255 == 128 of 255
    assert_eq!(apply_blend(c, t, 128), Rgba { r: 150, g: 74, b: 49, a: 255 });
}

#[test]
fn blend_alpha_scales_contribution() {
    let c = Rgba { r: 100, g: 100, b: 100, a: 255 };
    let t = Rgba { r: 200, g: 50, b: 0, a: 128 };
    // full mix, but the target's alpha halves the weight: 128 of 255
    assert_eq!(apply_blend(c, t, 255), Rgba { r: 150, g: 74, b: 49, a: 191 });
}

#[test]
fn mix_toward_endpoints_are_exact() {
    let c = Rgba { r: 1, g: 2, b: 3, a: 4 };
    let t = Rgba { r: 250, g: 251, b: 252, a: 253 };
    assert_eq!(mix_toward(c, t, 0), c);
    assert_eq!(mix_toward(c, t, 255), t);
}

#[test]
fn luminance_endpoints() {
    assert_eq!(luminance(Rgba { r: 0, g: 0, b: 0, a: 255 }), 0);
    assert_eq!(luminance(Rgba { r: 255, g: 255, b: 255, a: 0 }), 255);
    assert_eq!(luminance(Rgba { r: 10, g: 20, b: 30, a: 255 }), 18);
}

#[test]
fn gradient_identity_ramp_keeps_luminance() {
    let ramp = identity_ramp();
    let c = Rgba { r: 10, g: 20, b: 30, a: 255 };
    let out = apply_gradient(c, Some(&ramp), 255);
    assert_eq!(out, Rgba { r: 18, g: 18, b: 18, a: 255 });
    assert_eq!(luminance(out), luminance(c));
}

#[test]
fn gradient_mix_zero_keeps_color() {
    let ramp = identity_ramp();
    let c = Rgba { r: 10, g: 20, b: 30, a: 255 };
    assert_eq!(apply_gradient(c, Some(&ramp), 0), c);
}

#[test]
fn gradient_still_loading_is_skipped() {
    let c = Rgba { r: 10, g: 20, b: 30, a: 255 };
    assert_eq!(apply_gradient(c, None, 255), c);
}

#[test]
fn shade_composes_blend_then_gradient() {
    let atlas = checkered_atlas(4, 4);
    let bounds = Rect { min_x: 0, min_y: 0, max_x: 4, max_y: 4 };
    let surface = SurfaceSize::new(8, 8);
    let ramp = identity_ramp();
    let blend = Rgba { r: 200, g: 50, b: 0, a: 255 };
    let c = shade_pixel(0, 0, surface, bounds, 1, &atlas, blend, 128, Some(&ramp), 255);
    let expected = {
        let sampled = atlas.pixel(0, 0);
        let blended = apply_blend(sampled, blend, 128);
        apply_gradient(blended, Some(&ramp), 255)
    };
    assert_eq!(c, expected);
}
