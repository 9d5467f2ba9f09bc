//! Symbol overlay layer: a vector source rendered on top of all other
//! layers at a configured corner or centered position, without recoloring.

use vstd::prelude::*;

use crate::decal::{clamp_scale, clamp_scale_exec, scaled_size, scaled_size_exec};
use crate::icon::{IconView, RectPx};
use crate::layer::{
    ChannelView, DependencyVersion, LayerConfig, LayerEffect, LayerVersions, RenderContext,
};
use crate::svg::{
    center_coord, center_offset, composite_over, composite_spec, render_source_spec,
    render_source, svg_source_eq, SvgSource,
};

verus! {

/// Position for overlay placement within the icon's content bounds.
#[derive(Clone, Copy, PartialEq, Eq, Structural, Debug)]
pub enum OverlayPosition {
    /// Bottom-left corner of content bounds.
    BottomLeft,
    /// Bottom-right corner of content bounds.
    BottomRight,
    /// Top-left corner of content bounds.
    TopLeft,
    /// Top-right corner of content bounds.
    TopRight,
    /// Centered within content bounds.
    Center,
}

/// Configuration for the symbol overlay.
///
/// An overlay is rendered on top of all other layers at a specified
/// position, without recoloring; the source may be raw markup or an emoji
/// reference.
#[derive(Debug)]
pub struct SvgOverlayConfig {
    /// The vector source.
    pub source: SvgSource,
    /// Position within the icon's content bounds.
    pub position: OverlayPosition,
    /// Scale factor relative to the icon's content bounds, in
    /// ten-thousandths, clamped to `[0, 10000]`.
    pub scale: u32,
}

impl SvgOverlayConfig {
    /// Creates a new overlay config from a vector source.
    ///
    /// The scale (in ten-thousandths) is clamped to `[0, 10000]`.
    pub fn new(source: SvgSource, position: OverlayPosition, scale: u32) -> (r: SvgOverlayConfig)
        ensures
            r.source == source,
            r.position == position,
            r.scale == clamp_scale(scale),
    {
        SvgOverlayConfig { source, position, scale: clamp_scale_exec(scale) }
    }

    /// Creates a new overlay config from an emoji.
    ///
    /// Returns nothing if the emoji has no bundled asset.
    pub fn from_emoji(emoji: &str, position: OverlayPosition, scale: u32) -> (r: Option<
        SvgOverlayConfig,
    >)
        ensures
            match r {
                Option::Some(cfg) => crate::svg::emoji_markup_of(emoji@) is Some && cfg.source
                    is Emoji && crate::svg::source_text(cfg.source) == emoji@ && cfg.position
                    == position && cfg.scale == clamp_scale(scale),
                Option::None => crate::svg::emoji_markup_of(emoji@) is None,
            },
    {
        match SvgSource::from_emoji(emoji) {
            Some(source) => Some(
                SvgOverlayConfig { source, position, scale: clamp_scale_exec(scale) },
            ),
            None => None,
        }
    }

    /// The `(x, y)` coordinate the overlay is composited at: the configured
    /// corner of the content bounds, or centered within them.
    pub open spec fn position_spec(self, bounds: RectPx, ow: int, oh: int) -> (int, int) {
        let bx = bounds.x as int;
        let by = bounds.y as int;
        let bw = bounds.width as int;
        let bh = bounds.height as int;
        match self.position {
            OverlayPosition::TopLeft => (bx, by),
            OverlayPosition::TopRight => (bx + bw - ow, by),
            OverlayPosition::BottomLeft => (bx, by + bh - oh),
            OverlayPosition::BottomRight => (bx + bw - ow, by + bh - oh),
            OverlayPosition::Center => (
                center_offset(bx, bw, ow),
                center_offset(by, bh, oh),
            ),
        }
    }

    /// Calculates the overlay coordinate for the given bounds and rendered
    /// overlay dimensions.
    fn calculate_position(&self, bounds: &RectPx, overlay_width: u32, overlay_height: u32) -> (r: (
        i64,
        i64,
    ))
        ensures
            (r.0 as int, r.1 as int) == self.position_spec(
                *bounds,
                overlay_width as int,
                overlay_height as int,
            ),
    {
        let bx = bounds.x as i64;
        let by = bounds.y as i64;
        let bw = bounds.width as i64;
        let bh = bounds.height as i64;
        let ow = overlay_width as i64;
        let oh = overlay_height as i64;
        match self.position {
            OverlayPosition::TopLeft => (bx, by),
            OverlayPosition::TopRight => (bx + bw - ow, by),
            OverlayPosition::BottomLeft => (bx, by + bh - oh),
            OverlayPosition::BottomRight => (bx + bw - ow, by + bh - oh),
            OverlayPosition::Center => (
                center_coord(bounds.x, bounds.width, overlay_width),
                center_coord(bounds.y, bounds.height, overlay_height),
            ),
        }
    }
}

impl Clone for SvgOverlayConfig {
    fn clone(&self) -> (r: Self)
        ensures
            svg_source_eq(r.source, self.source),
            r.position == self.position,
            r.scale == self.scale,
    {
        SvgOverlayConfig { source: self.source.clone(), position: self.position, scale: self.scale }
    }
}

impl LayerConfig for SvgOverlayConfig {
    /// Two overlay configurations differ when their sources, positions or
    /// scales differ (the scale is compared at its stored ten-thousandth
    /// resolution).
    open spec fn differs_spec(self, other: Self) -> bool {
        !svg_source_eq(self.source, other.source) || self.position != other.position || self.scale
            != other.scale
    }

    fn differs_from(&self, other: &Self) -> (r: bool) {
        !crate::svg::svg_source_matches(&self.source, &other.source) || !(self.position
            == other.position) || self.scale != other.scale
    }
}

/// What the overlay stage does to the channel.
///
/// The source is rendered unrecolored at the scaled size and composited at
/// the configured position relative to the content bounds. A zero target
/// size or an unresolvable or unparsable source leaves the image untouched;
/// the property slots always pass through unchanged.
pub open spec fn overlay_transform_spec(cfg: SvgOverlayConfig, c: ChannelView) -> ChannelView {
    let size = scaled_size(c.image, clamp_scale(cfg.scale));
    if size == 0 {
        c
    } else {
        match render_source_spec(cfg.source, size, Option::None) {
            Option::None => c,
            Option::Some(overlay_rv) => {
                let pos = cfg.position_spec(
                    c.image.bounds,
                    overlay_rv.width as int,
                    overlay_rv.height as int,
                );
                ChannelView {
                    image: IconView {
                        raster: composite_spec(c.image.raster, overlay_rv, pos.0, pos.1),
                        scale: c.image.scale,
                        bounds: c.image.bounds,
                    },
                    dominant: c.dominant,
                }
            },
        }
    }
}

impl LayerEffect for SvgOverlayConfig {
    /// The overlay has no upstream dependencies: it is applied last and
    /// always drawn on top, whatever the prior stages produced.
    open spec fn deps_spec(versions: LayerVersions) -> u64 {
        0
    }

    open spec fn transform_spec(self, c: ChannelView) -> ChannelView {
        overlay_transform_spec(self, c)
    }

    /// The overlay publishes nothing.
    open spec fn emit_spec(self, c: ChannelView) -> ChannelView {
        c
    }

    fn dependencies(versions: &LayerVersions) -> (r: DependencyVersion) {
        DependencyVersion::none()
    }

    fn transform(&self, ctx: &mut RenderContext) {
        let scale = clamp_scale_exec(self.scale);
        let size = scaled_size_exec(ctx.image(), scale);
        if size == 0 {
            return;
        }
        match render_source(&self.source, size) {
            None => {},
            Some(overlay_img) => {
                let bounds = ctx.image().content_bounds;
                let (x, y) = self.calculate_position(
                    &bounds,
                    overlay_img.width(),
                    overlay_img.height(),
                );
                let mut image = ctx.image().clone();
                composite_over(&mut image.data, &overlay_img, x, y);
                proof {
                    assert(image@ =~= overlay_transform_spec(*self, old(ctx)@).image);
                }
                ctx.set_image(image);
            },
        }
    }

    fn emit(&self, ctx: &mut RenderContext) {
    }
}

} // verus!
