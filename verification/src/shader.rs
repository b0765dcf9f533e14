//! The nine-slice per-pixel algorithm: map a destination pixel of the
//! element's surface onto the atlas so that the four corner cells keep
//! their 1:1 scale while the edges and the center stretch, then compose
//! the optional color blend and gradient lookup.
//!
//! All arithmetic is integer arithmetic: coordinates are pixels, mix
//! factors are 0..=255 for the [0, 1] scale, and sampling is point
//! sampling at the computed atlas pixel.

use vstd::prelude::*;
use vstd::arithmetic::div_mod::lemma_div_multiples_vanish;
use crate::assets::ImageData;
use crate::color::{Rgba, luminance, mix_toward, spec_luminance, spec_mix_toward};
use crate::geometry::{Rect, SurfaceSize};

verus! {

/// Where a destination coordinate `d` of an axis of length `dst_len`
/// samples along the matching source axis of length `src_len`, with a
/// border margin of `m` pixels: the left corner maps 1:1, the right
/// corner maps 1:1 against the far end, and the middle stretches
/// linearly between the margins.
pub open spec fn spec_map_axis(d: int, dst_len: int, src_len: int, m: int) -> int {
    if d < m {
        d
    } else if d + m >= dst_len {
        src_len - (dst_len - d)
    } else {
        m + (d - m) * (src_len - 2 * m) / (dst_len - 2 * m)
    }
}

pub fn map_axis(d: u32, dst_len: u32, src_len: u32, m: u32) -> (r: u32)
    requires
        d < dst_len,
        2 * m <= src_len,
    ensures
        r == spec_map_axis(d as int, dst_len as int, src_len as int, m as int),
        src_len > 0 ==> r < src_len,
        src_len == 0 ==> r == 0,
        d < m ==> r == d,
{
    if d < m {
        d
    } else if d as u64 + m as u64 >= dst_len as u64 {
        src_len - (dst_len - d)
    } else {
        // here m <= d and d + m < dst_len, so both stretched extents are
        // positive and the quotient stays below the source extent
        proof {
            assert((d - m) * (src_len - 2 * m) <= 0xffff_ffff * 0xffff_ffff)
                by (nonlinear_arith)
                requires
                    0 <= d - m <= 0xffff_ffff,
                    0 <= src_len - 2 * m <= 0xffff_ffff,
            ;
        }
        let num: u64 = (d - m) as u64 * (src_len - 2 * m) as u64;
        let den: u64 = (dst_len - 2 * m) as u64;
        let q: u64 = num / den;
        proof {
            lemma_stretch_quotient_bounds(
                d as int - m as int,
                dst_len as int - 2 * m as int,
                src_len as int - 2 * m as int,
            );
        }
        m + q as u32
    }
}

/// The stretched-cell quotient stays below the source extent: a
/// destination offset short of the destination extent cannot map past
/// the source extent, and maps strictly inside it when there is one.
proof fn lemma_stretch_quotient_bounds(off: int, den: int, s: int)
    by (nonlinear_arith)
    requires
        0 <= off < den,
        0 <= s,
    ensures
        0 <= off * s / den <= s,
        s > 0 ==> off * s / den < s,
{
}

/// The default border margin for a bounds rectangle: a third of the
/// shorter extent. It never exceeds half the extent on either axis, so
/// the margins of opposite edges cannot overlap.
pub open spec fn spec_default_margin(bounds: Rect) -> int {
    if bounds.spec_width() <= bounds.spec_height() {
        bounds.spec_width() / 3
    } else {
        bounds.spec_height() / 3
    }
}

pub fn default_margin(bounds: &Rect) -> (m: u32)
    requires
        bounds.wf(),
    ensures
        m == spec_default_margin(*bounds),
        2 * m <= bounds.spec_width(),
        2 * m <= bounds.spec_height(),
{
    let w = bounds.width();
    let h = bounds.height();
    let shorter = if w <= h {
        w
    } else {
        h
    };
    shorter / 3
}

/// The atlas pixel a destination pixel samples: the per-axis map applied
/// inside the bounds rectangle, clamped to the nearest valid atlas pixel
/// so that degenerate inputs collapse instead of faulting.
pub open spec fn spec_clamp_coord(v: int, extent: int) -> int {
    if v < extent {
        v
    } else {
        extent - 1
    }
}

pub open spec fn spec_sample_coord_x(
    dx: int,
    surface: SurfaceSize,
    bounds: Rect,
    margin: int,
    atlas: ImageData,
) -> int {
    spec_clamp_coord(
        bounds.min_x + spec_map_axis(dx, surface.width as int, bounds.spec_width(), margin),
        atlas.spec_width() as int,
    )
}

pub open spec fn spec_sample_coord_y(
    dy: int,
    surface: SurfaceSize,
    bounds: Rect,
    margin: int,
    atlas: ImageData,
) -> int {
    spec_clamp_coord(
        bounds.min_y + spec_map_axis(dy, surface.height as int, bounds.spec_height(), margin),
        atlas.spec_height() as int,
    )
}

/// The color the nine-slice map samples from the atlas for a destination
/// pixel, before any compositing.
pub open spec fn spec_sample(
    dx: int,
    dy: int,
    surface: SurfaceSize,
    bounds: Rect,
    margin: int,
    atlas: ImageData,
) -> Rgba {
    atlas.pixel_at(
        spec_sample_coord_x(dx, surface, bounds, margin, atlas),
        spec_sample_coord_y(dy, surface, bounds, margin, atlas),
    )
}

/// The blend stage's weight: the blend color's alpha scales its own
/// contribution, so the target counts for `alpha * mix` of the unit.
pub open spec fn spec_blend_weight(alpha: int, mix: int) -> int {
    alpha * mix / 255
}

/// The blend stage: move the sampled color toward the blend color by
/// the alpha-scaled blend strength; strength zero skips the stage.
pub open spec fn spec_apply_blend(c: Rgba, blend_color: Rgba, mix: int) -> Rgba {
    if mix > 0 {
        spec_mix_toward(c, blend_color, spec_blend_weight(blend_color.a as int, mix))
    } else {
        c
    }
}

pub fn apply_blend(c: Rgba, blend_color: Rgba, mix: u8) -> (r: Rgba)
    ensures
        r == spec_apply_blend(c, blend_color, mix as int),
{
    if mix > 0 {
        proof {
            lemma_blend_weight_range(blend_color.a as int, mix as int);
        }
        let w: u8 = ((blend_color.a as u32 * mix as u32) / 255) as u8;
        mix_toward(c, blend_color, w)
    } else {
        c
    }
}

proof fn lemma_blend_weight_range(alpha: int, mix: int)
    by (nonlinear_arith)
    requires
        0 <= alpha <= 255,
        0 <= mix <= 255,
    ensures
        0 <= spec_blend_weight(alpha, mix) <= 255,
        alpha * mix <= 255 * 255,
{
}

/// Where the gradient is sampled: the luminance, on the 0..=255 scale,
/// mapped over the gradient's width, dark at the left, light at the
/// right.
pub open spec fn spec_gradient_index(lum: int, width: int) -> int {
    lum * (width - 1) / 255
}

/// The gradient stage: look the current color's luminance up in the 1-D
/// gradient and move toward the found color by the gradient strength.
/// A missing or degenerate gradient image, or strength zero, skips the
/// stage for this invocation.
pub open spec fn spec_apply_gradient(c: Rgba, gradient: Option<ImageData>, mix: int) -> Rgba {
    if mix > 0 {
        match gradient {
            Some(g) => if g.spec_width() > 0 && g.spec_height() > 0 {
                spec_mix_toward(
                    c,
                    g.pixel_at(
                        spec_gradient_index(spec_luminance(c), g.spec_width() as int),
                        0,
                    ),
                    mix,
                )
            } else {
                c
            },
            None => c,
        }
    } else {
        c
    }
}

pub fn apply_gradient(c: Rgba, gradient: Option<&ImageData>, mix: u8) -> (r: Rgba)
    requires
        gradient matches Some(g) ==> g.wf(),
    ensures
        gradient matches Some(g) ==> r == spec_apply_gradient(c, Some(*g), mix as int),
        gradient is None ==> r == spec_apply_gradient(c, None, mix as int),
{
    if mix > 0 {
        match gradient {
            Some(g) => {
                let gw = g.width();
                if gw > 0 && g.height() > 0 {
                    let lum = luminance(c);
                    proof {
                        lemma_gradient_index_range(lum as int, gw as int);
                    }
                    let gi: u32 = ((lum as u64 * (gw - 1) as u64) / 255) as u32;
                    let gc = g.pixel(gi, 0);
                    mix_toward(c, gc, mix)
                } else {
                    c
                }
            },
            None => c,
        }
    } else {
        c
    }
}

proof fn lemma_gradient_index_range(lum: int, width: int)
    by (nonlinear_arith)
    requires
        0 <= lum <= 255,
        width > 0,
    ensures
        0 <= spec_gradient_index(lum, width) <= width - 1,
{
}

/// One shader invocation: sample the atlas through the nine-slice map,
/// then blend, then remap through the gradient.
pub open spec fn spec_shade_pixel(
    dx: int,
    dy: int,
    surface: SurfaceSize,
    bounds: Rect,
    margin: int,
    atlas: ImageData,
    blend_color: Rgba,
    blend_mix: int,
    gradient: Option<ImageData>,
    gradient_mix: int,
) -> Rgba {
    spec_apply_gradient(
        spec_apply_blend(
            spec_sample(dx, dy, surface, bounds, margin, atlas),
            blend_color,
            blend_mix,
        ),
        gradient,
        gradient_mix,
    )
}

/// Evaluate the shader for the destination pixel `(dx, dy)` of the
/// element's surface.
pub fn shade_pixel(
    dx: u32,
    dy: u32,
    surface: SurfaceSize,
    bounds: Rect,
    margin: u32,
    atlas: &ImageData,
    blend_color: Rgba,
    blend_mix: u8,
    gradient: Option<&ImageData>,
    gradient_mix: u8,
) -> (c: Rgba)
    requires
        dx < surface.width,
        dy < surface.height,
        bounds.wf(),
        2 * margin <= bounds.spec_width(),
        2 * margin <= bounds.spec_height(),
        atlas.wf(),
        atlas.spec_width() > 0,
        atlas.spec_height() > 0,
        gradient matches Some(g) ==> g.wf(),
    ensures
        gradient matches Some(g) ==> c == spec_shade_pixel(
            dx as int,
            dy as int,
            surface,
            bounds,
            margin as int,
            *atlas,
            blend_color,
            blend_mix as int,
            Some(*g),
            gradient_mix as int,
        ),
        gradient is None ==> c == spec_shade_pixel(
            dx as int,
            dy as int,
            surface,
            bounds,
            margin as int,
            *atlas,
            blend_color,
            blend_mix as int,
            None,
            gradient_mix as int,
        ),
{
    let sx = map_axis(dx, surface.width, bounds.width(), margin);
    let sy = map_axis(dy, surface.height, bounds.height(), margin);
    let vx: u64 = bounds.min_x as u64 + sx as u64;
    let vy: u64 = bounds.min_y as u64 + sy as u64;
    let ax: u32 = if vx < atlas.width() as u64 {
        vx as u32
    } else {
        atlas.width() - 1
    };
    let ay: u32 = if vy < atlas.height() as u64 {
        vy as u32
    } else {
        atlas.height() - 1
    };
    let sampled = atlas.pixel(ax, ay);
    let blended = apply_blend(sampled, blend_color, blend_mix);
    apply_gradient(blended, gradient, gradient_mix)
}

/// Corner preservation: a destination pixel inside the top-left corner
/// cell samples the atlas at the same offset from the bounds' min
/// corner, 1:1 and unstretched, whatever the surface size is.
pub proof fn lemma_corner_preserved(
    dx: int,
    dy: int,
    surface: SurfaceSize,
    bounds: Rect,
    margin: int,
    atlas: ImageData,
)
    requires
        bounds.wf(),
        0 <= dx < margin,
        0 <= dy < margin,
        2 * margin <= bounds.spec_width(),
        2 * margin <= bounds.spec_height(),
        bounds.max_x <= atlas.spec_width(),
        bounds.max_y <= atlas.spec_height(),
    ensures
        spec_sample(dx, dy, surface, bounds, margin, atlas) == atlas.pixel_at(
            bounds.min_x + dx,
            bounds.min_y + dy,
        ),
{
    assert(spec_map_axis(dx, surface.width as int, bounds.spec_width(), margin) == dx);
    assert(spec_map_axis(dy, surface.height as int, bounds.spec_height(), margin) == dy);
    assert(bounds.min_x + dx < atlas.spec_width());
    assert(bounds.min_y + dy < atlas.spec_height());
}

/// Center stretch: the destination pixel at the exact center of an axis
/// samples the exact center of the un-margined interior of the source
/// axis, however large the destination grows — the scale varies, the
/// offset stays fixed.
pub proof fn lemma_center_stretch(dst_len: int, src_len: int, m: int)
    requires
        0 <= m,
        2 * m <= src_len,
        dst_len > 2 * m,
        dst_len % 2 == 0,
        (src_len - 2 * m) % 2 == 0,
    ensures
        spec_map_axis(dst_len / 2, dst_len, src_len, m) == m + (src_len - 2 * m) / 2,
{
    let d = dst_len / 2;
    let den = dst_len - 2 * m;
    let s = src_len - 2 * m;
    assert(d - m == den / 2);
    assert(den % 2 == 0);
    assert((den / 2) * s == den * (s / 2)) by (nonlinear_arith)
        requires
            den % 2 == 0,
            s % 2 == 0,
    ;
    lemma_div_multiples_vanish(s / 2, den);
    assert(den * (s / 2) / den == s / 2);
}

/// Blend mix bounds: strength zero yields the unmodified sampled color,
/// and full strength with an opaque blend color yields exactly the blend
/// color.
pub proof fn lemma_blend_mix_bounds(c: Rgba, blend_color: Rgba)
    ensures
        spec_apply_blend(c, blend_color, 0) == c,
        blend_color.a == 255 ==> spec_apply_blend(c, blend_color, 255) == blend_color,
{
    if blend_color.a == 255 {
        assert(spec_blend_weight(255, 255) == 255);
        crate::color::lemma_mix_toward_full(c, blend_color);
    }
}

/// With both strengths zero the shader output is exactly the sampled
/// atlas color: no compositing stage touches it.
pub proof fn lemma_shade_uncomposited(
    dx: int,
    dy: int,
    surface: SurfaceSize,
    bounds: Rect,
    margin: int,
    atlas: ImageData,
    blend_color: Rgba,
    gradient: Option<ImageData>,
)
    ensures
        spec_shade_pixel(dx, dy, surface, bounds, margin, atlas, blend_color, 0, gradient, 0)
            == spec_sample(dx, dy, surface, bounds, margin, atlas),
{
}

/// At full blend strength with an opaque blend color, and the gradient
/// stage off, the shader output is exactly the blend color, whatever the
/// atlas holds.
pub proof fn lemma_shade_full_blend(
    dx: int,
    dy: int,
    surface: SurfaceSize,
    bounds: Rect,
    margin: int,
    atlas: ImageData,
    blend_color: Rgba,
    gradient: Option<ImageData>,
)
    requires
        blend_color.a == 255,
    ensures
        spec_shade_pixel(dx, dy, surface, bounds, margin, atlas, blend_color, 255, gradient, 0)
            == blend_color,
{
    lemma_blend_mix_bounds(spec_sample(dx, dy, surface, bounds, margin, atlas), blend_color);
}

/// A gradient image that is the identity ramp: 256 pixels wide, its
/// pixel at `x` the opaque gray of level `x`.
pub open spec fn is_identity_ramp(g: ImageData) -> bool {
    &&& g.wf()
    &&& g.spec_width() == 256
    &&& g.spec_height() >= 1
    &&& forall|x: int|
        0 <= x < 256 ==> #[trigger] g.pixel_at(x, 0) == (Rgba {
            r: x as u8,
            g: x as u8,
            b: x as u8,
            a: 255,
        })
}

/// Gradient round-trip: under an identity-ramp gradient at full strength
/// the output's luminance equals the input's luminance — the lookup is a
/// no-op on luminance.
pub proof fn lemma_gradient_identity_ramp(c: Rgba, g: ImageData)
    requires
        is_identity_ramp(g),
    ensures
        spec_luminance(spec_apply_gradient(c, Some(g), 255)) == spec_luminance(c),
{
    let lum = spec_luminance(c);
    crate::color::lemma_luminance_range(c);
    assert(spec_gradient_index(lum, 256) == lum);
    assert(g.pixel_at(lum, 0) == (Rgba { r: lum as u8, g: lum as u8, b: lum as u8, a: 255 }));
    crate::color::lemma_mix_toward_full(c, g.pixel_at(lum, 0));
    crate::color::lemma_luminance_of_gray(lum as u8);
}

} // verus!
