//! Icon customization library.
//!
//! A base raster icon is rendered through an ordered set of transformation
//! stages (hue rotation, centered monochrome decal, corner/centered symbol
//! overlay). Each stage owns an optional configuration, an enabled flag, a
//! monotonic version counter and a size-keyed cache, so that unchanged stages
//! are never recomputed.

mod customizer;
mod decal;
mod hue_rotation;
mod icon;
mod layer;
mod overlay;
mod profile;
mod svg;

pub use customizer::{Configurable, IconCustomizer};
pub use decal::{darken_color, DecalConfig};
pub use hue_rotation::{apply_hue_rotation, sample_dominant_color, HueRotationConfig};
pub use icon::{IconImage, IconSet, Pixel, Raster, RectPx, SizePx};
pub use layer::{
    CacheKey, CompositeLayer, DependencyVersion, DominantColor, Layer, LayerConfig, LayerEffect,
    LayerPipeline, LayerVersions, RenderContext,
};
pub use overlay::{OverlayPosition, SvgOverlayConfig};
pub use profile::{
    CustomizationProfile, DecalSettings, HueRotationSettings, OverlaySettings,
    SerializablePosition, SerializableSvgSource,
};
pub use svg::{
    alpha_blend, composite_over, render_source, render_source_with_color, render_svg,
    render_svg_with_color, replace_color_attr, replace_svg_colors, svg_source_matches,
    unpremultiply, SvgSource,
};
