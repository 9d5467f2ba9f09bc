//! Decal imprint layer: a monochrome vector source rendered at the center of
//! the icon, filled with a darkened form of the icon's dominant color.
//!
//! The decal prefers the dominant color published by an upstream layer;
//! otherwise it samples the current image directly.

use palette::IntoColor;
use vstd::prelude::*;

use crate::hue_rotation::dominant_spec;
use crate::icon::{IconImage, IconView};
use crate::layer::{
    ChannelView, DependencyVersion, DominantColor, LayerConfig, LayerEffect, LayerVersions,
    RenderContext,
};
use crate::svg::{
    center_coord, center_offset, composite_over, composite_spec, render_source_spec,
    render_source_with_color, svg_source_eq, SvgSource,
};

verus! {

// ============================================================================
// Color darkening
// ============================================================================

/// The RGB triple that darkening `(r, g, b)` yields: the color is converted
/// to HSL, the given amount (in thousandths) is subtracted from the
/// lightness, floored at zero, and the color is converted back.
pub uninterp spec fn darkened(r: u8, g: u8, b: u8, amount_milli: u32) -> (u8, u8, u8);

/// Relies on `palette`'s `Srgb`/`Hsl` conversions: the color is converted to
/// HSL, the amount (handed over in thousandths, converted through an exact
/// integer-pair ratio) is subtracted from the lightness and floored at zero,
/// and the color is converted back. The result depends on the arguments
/// alone.
#[verifier::external_body]
fn darken_rgb(r: u8, g: u8, b: u8, amount_milli: u32) -> (res: (u8, u8, u8))
    ensures
        res == darkened(r, g, b, amount_milli),
{
    let rgb: palette::Srgb = palette::Srgb::new(r, g, b).into_format();
    let mut hsl: palette::Hsl = rgb.into_color();
    if let Some(ratio) = resvg::tiny_skia::IntSize::from_wh(amount_milli, 1000) {
        let amount = ratio.to_size().width() / ratio.to_size().height();
        let zero = amount - amount;
        hsl.lightness = (hsl.lightness - amount).max(zero);
    }
    let back: palette::Srgb = hsl.into_color();
    let out: palette::Srgb<u8> = back.into_format();
    (out.red, out.green, out.blue)
}

/// Darkens an RGBA color by reducing its lightness by `amount_milli`
/// thousandths, floored at zero. The alpha channel is preserved.
pub fn darken_color(color: (u8, u8, u8, u8), amount_milli: u32) -> (res: (u8, u8, u8, u8))
    ensures
        ({
            let d = darkened(color.0, color.1, color.2, amount_milli);
            res == (d.0, d.1, d.2, color.3)
        }),
{
    let d = darken_rgb(color.0, color.1, color.2, amount_milli);
    (d.0, d.1, d.2, color.3)
}

/// The fixed lightness delta a decal's fill color is darkened by, in
/// thousandths.
pub const DECAL_DARKEN_MILLI: u32 = 150;

// ============================================================================
// Configuration
// ============================================================================

/// Configuration for decal imprint.
///
/// A decal is a monochrome vector source rendered at the center of the icon,
/// filled with a color derived from the underlying pixels (slightly
/// darkened): all fills and strokes in the markup are replaced with this
/// computed color. For full-color sources, use the symbol overlay instead.
#[derive(Debug)]
pub struct DecalConfig {
    /// The vector source (should be monochrome, single-color markup).
    pub source: SvgSource,
    /// Scale factor relative to the icon's content bounds, in
    /// ten-thousandths, clamped to `[0, 10000]`.
    pub scale: u32,
}

impl DecalConfig {
    /// Creates a new decal config from raw markup text.
    ///
    /// The scale (in ten-thousandths) is clamped to `[0, 10000]`.
    pub fn new(svg: &str, scale: u32) -> (r: DecalConfig)
        ensures
            r.source is Raw,
            crate::svg::source_text(r.source) == svg@,
            r.scale == clamp_scale(scale),
    {
        DecalConfig { source: SvgSource::from_svg(svg), scale: clamp_scale_exec(scale) }
    }

    /// Creates a decal config from an existing source, primarily for use
    /// when applying exchanged settings.
    pub(crate) fn from_source(source: SvgSource, scale: u32) -> (r: DecalConfig)
        ensures
            r.source == source,
            r.scale == clamp_scale(scale),
    {
        DecalConfig { source, scale: clamp_scale_exec(scale) }
    }
}

/// A scale fraction in ten-thousandths, clamped to `[0, 10000]`.
pub open spec fn clamp_scale(scale: u32) -> u32 {
    if scale > 10000 {
        10000
    } else {
        scale
    }
}

/// Clamps a scale fraction to `[0, 10000]` ten-thousandths.
pub fn clamp_scale_exec(scale: u32) -> (r: u32)
    ensures
        r == clamp_scale(scale),
{
    if scale > 10000 {
        10000
    } else {
        scale
    }
}

impl Clone for DecalConfig {
    fn clone(&self) -> (r: Self)
        ensures
            svg_source_eq(r.source, self.source),
            r.scale == self.scale,
    {
        DecalConfig { source: self.source.clone(), scale: self.scale }
    }
}

impl LayerConfig for DecalConfig {
    /// Two decal configurations differ when their sources or scales differ
    /// (the scale is compared at its stored ten-thousandth resolution).
    open spec fn differs_spec(self, other: Self) -> bool {
        !svg_source_eq(self.source, other.source) || self.scale != other.scale
    }

    fn differs_from(&self, other: &Self) -> (r: bool) {
        !crate::svg::svg_source_matches(&self.source, &other.source) || self.scale != other.scale
    }
}

// ============================================================================
// Transformation
// ============================================================================

/// The fill color a decal resolves: the dominant color published on the
/// channel if there is one, otherwise the dominant color sampled directly
/// from the current image.
pub open spec fn decal_base_color(c: ChannelView) -> (u8, u8, u8, u8) {
    match c.dominant {
        Option::Some(d) => (d.r, d.g, d.b, d.a),
        Option::None => dominant_spec(c.image),
    }
}

/// The pixel edge length of a rendered decal or overlay: the smaller content
/// bound dimension scaled by the configured fraction, truncated.
pub open spec fn scaled_size(img: IconView, scale: u32) -> u32 {
    let min_dim: int = if img.bounds.width <= img.bounds.height {
        img.bounds.width as int
    } else {
        img.bounds.height as int
    };
    ((min_dim * scale) / 10000) as u32
}

/// Computes the scaled decal/overlay size in machine integers.
pub fn scaled_size_exec(img: &IconImage, scale: u32) -> (r: u32)
    requires
        scale <= 10000,
    ensures
        r == scaled_size(img@, scale),
{
    let bounds = img.content_bounds;
    let min_dim: u32 = if bounds.width <= bounds.height {
        bounds.width
    } else {
        bounds.height
    };
    proof {
        assert((min_dim as int) * (scale as int) <= (min_dim as int) * 10000 && 0 <= (
        min_dim as int) * (scale as int)) by (nonlinear_arith)
            requires
                0 <= scale <= 10000,
                0 <= min_dim,
        ;
        assert((min_dim as int) * (scale as int) / 10000 <= min_dim as int) by (nonlinear_arith)
            requires
                (min_dim as int) * (scale as int) <= (min_dim as int) * 10000,
        ;
    }
    (((min_dim as u64) * (scale as u64)) / 10000) as u32
}

/// What the decal stage does to the channel.
///
/// The fill color is the (published or sampled) dominant color, darkened by
/// the fixed lightness delta. The source is rendered recolored at the scaled
/// size and composited centered within the content bounds. A zero target
/// size or an unresolvable or unparsable source leaves the image untouched;
/// the property slots always pass through unchanged.
pub open spec fn decal_transform_spec(cfg: DecalConfig, c: ChannelView) -> ChannelView {
    let base = decal_base_color(c);
    let dark = darkened(base.0, base.1, base.2, DECAL_DARKEN_MILLI as u32);
    let fill = (dark.0, dark.1, dark.2, base.3);
    let size = scaled_size(c.image, clamp_scale(cfg.scale));
    if size == 0 {
        c
    } else {
        match render_source_spec(cfg.source, size, Some(fill)) {
            Option::None => c,
            Option::Some(decal_rv) => {
                let bounds = c.image.bounds;
                let cx = center_offset(bounds.x as int, bounds.width as int, decal_rv.width as int);
                let cy = center_offset(
                    bounds.y as int,
                    bounds.height as int,
                    decal_rv.height as int,
                );
                ChannelView {
                    image: IconView {
                        raster: composite_spec(c.image.raster, decal_rv, cx, cy),
                        scale: c.image.scale,
                        bounds: c.image.bounds,
                    },
                    dominant: c.dominant,
                }
            },
        }
    }
}

impl LayerEffect for DecalConfig {
    /// The decal depends on the hue layer: it consumes the dominant color
    /// the hue layer publishes, so a hue change must invalidate the decal's
    /// cache even when the decal's own configuration is unchanged.
    open spec fn deps_spec(versions: LayerVersions) -> u64 {
        versions.hue
    }

    open spec fn transform_spec(self, c: ChannelView) -> ChannelView {
        decal_transform_spec(self, c)
    }

    /// The decal publishes nothing.
    open spec fn emit_spec(self, c: ChannelView) -> ChannelView {
        c
    }

    fn dependencies(versions: &LayerVersions) -> (r: DependencyVersion) {
        DependencyVersion::from_version(versions.hue)
    }

    fn transform(&self, ctx: &mut RenderContext) {
        let base: (u8, u8, u8, u8) = match ctx.get() {
            Some(d) => (d.r, d.g, d.b, d.a),
            None => crate::hue_rotation::sample_dominant_color(ctx.image()),
        };
        let fill = darken_color(base, DECAL_DARKEN_MILLI);
        let scale = clamp_scale_exec(self.scale);
        let size = scaled_size_exec(ctx.image(), scale);
        if size == 0 {
            return;
        }
        match render_source_with_color(&self.source, size, Some(fill)) {
            None => {},
            Some(decal_img) => {
                let bounds = ctx.image().content_bounds;
                let cx = center_coord(bounds.x, bounds.width, decal_img.width());
                let cy = center_coord(bounds.y, bounds.height, decal_img.height());
                let mut image = ctx.image().clone();
                composite_over(&mut image.data, &decal_img, cx, cy);
                proof {
                    assert(image@ =~= decal_transform_spec(*self, old(ctx)@).image);
                }
                ctx.set_image(image);
            },
        }
    }

    fn emit(&self, ctx: &mut RenderContext) {
    }
}

// ============================================================================
// Property isolation
// ============================================================================

/// When the hue stage is inactive, no dominant color is published: the decal
/// falls back to sampling the un-rotated image directly, so its base color
/// is the dominant color of the image as it stands. When the hue stage is
/// active, the channel instead carries the dominant color of the already
/// rotated image, and that published value is what the decal consumes.
pub proof fn lemma_property_isolation(hue_cfg: crate::hue_rotation::HueRotationConfig, base: IconView)
    ensures
        ({
            let c0 = ChannelView { image: base, dominant: Option::None };
            let off = crate::layer::apply_pure(
                Option::<crate::hue_rotation::HueRotationConfig>::None,
                c0,
            );
            &&& off == c0
            &&& off.dominant is None
            &&& decal_base_color(off) == dominant_spec(base)
        }),
        ({
            let c0 = ChannelView { image: base, dominant: Option::None };
            let on = crate::layer::apply_pure(Some(hue_cfg), c0);
            let rotated = IconView {
                raster: crate::hue_rotation::rotate_raster_spec(base.raster, hue_cfg.millidegrees),
                scale: base.scale,
                bounds: base.bounds,
            };
            let d = dominant_spec(rotated);
            &&& on.image == rotated
            &&& on.dominant == Some(DominantColor { r: d.0, g: d.1, b: d.2, a: d.3 })
            &&& decal_base_color(on) == d
        }),
{
}

} // verus!
