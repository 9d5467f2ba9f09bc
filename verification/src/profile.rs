//! Exchangeable customization settings.
//!
//! A [`CustomizationProfile`] captures all layer settings as plain data that
//! an embedding can move across a process boundary (its textual encoding and
//! decoding live outside this library). It carries no caching or versioning
//! state: it maps one-to-one onto the three stage configurations plus each
//! stage's enabled flag.

use vstd::prelude::*;

use crate::overlay::OverlayPosition;
use crate::svg::{source_text, svg_source_eq, SvgSource};

verus! {

// ============================================================================
// Exchangeable vector source
// ============================================================================

/// Exchangeable representation of a vector source: either raw markup or an
/// emoji reference, one of the two fields set.
#[derive(Debug)]
pub struct SerializableSvgSource {
    /// Raw markup (mutually exclusive with `emoji`).
    pub svg_data: Option<String>,
    /// Emoji character to resolve at render time (mutually exclusive with
    /// `svg_data`).
    pub emoji: Option<String>,
}

impl SerializableSvgSource {
    /// Creates an exchangeable source from raw markup.
    pub fn from_svg(svg: &str) -> (r: SerializableSvgSource)
        ensures
            r.svg_data is Some && r.svg_data.unwrap()@ == svg@,
            r.emoji is None,
    {
        SerializableSvgSource { svg_data: Some(String::from_str(svg)), emoji: None }
    }

    /// Creates an exchangeable source from an emoji character.
    pub fn from_emoji(emoji: &str) -> (r: SerializableSvgSource)
        ensures
            r.svg_data is None,
            r.emoji is Some && r.emoji.unwrap()@ == emoji@,
    {
        SerializableSvgSource { svg_data: None, emoji: Some(String::from_str(emoji)) }
    }

    /// The exchangeable form of a rendering source: raw markup fills
    /// `svg_data`, an emoji reference fills `emoji`.
    pub fn of_source(source: &SvgSource) -> (r: SerializableSvgSource)
        ensures
            exchanges_source(r, *source),
    {
        match source {
            SvgSource::Raw(svg) => SerializableSvgSource {
                svg_data: Some(svg.clone()),
                emoji: None,
            },
            SvgSource::Emoji(emoji) => SerializableSvgSource {
                svg_data: None,
                emoji: Some(emoji.clone()),
            },
        }
    }

    /// The rendering source an exchangeable source stands for: the emoji
    /// field takes precedence, then raw markup; an empty record stands for
    /// empty raw markup.
    pub fn to_source(&self) -> (r: SvgSource)
        ensures
            source_of_exchange(*self, r),
    {
        match &self.emoji {
            Some(emoji) => SvgSource::Emoji(emoji.clone()),
            None => match &self.svg_data {
                Some(svg) => SvgSource::Raw(svg.clone()),
                None => SvgSource::Raw(String::new()),
            },
        }
    }
}

/// The exchangeable record `x` carries exactly the rendering source `s`.
pub open spec fn exchanges_source(x: SerializableSvgSource, s: SvgSource) -> bool {
    match s {
        SvgSource::Raw(text) => x.svg_data is Some && x.svg_data.unwrap()@ == text@ && x.emoji
            is None,
        SvgSource::Emoji(text) => x.svg_data is None && x.emoji is Some && x.emoji.unwrap()@
            == text@,
    }
}

/// The rendering source `s` is the one the exchangeable record `x` stands
/// for: the emoji field takes precedence, then raw markup, and an empty
/// record stands for empty raw markup.
pub open spec fn source_of_exchange(x: SerializableSvgSource, s: SvgSource) -> bool {
    match x.emoji {
        Option::Some(e) => s is Emoji && source_text(s) == e@,
        Option::None => match x.svg_data {
            Option::Some(d) => s is Raw && source_text(s) == d@,
            Option::None => s is Raw && source_text(s) == Seq::<char>::empty(),
        },
    }
}

impl Clone for SerializableSvgSource {
    fn clone(&self) -> (r: Self)
        ensures
            option_string_eq(r.svg_data, self.svg_data),
            option_string_eq(r.emoji, self.emoji),
    {
        SerializableSvgSource {
            svg_data: clone_option_string(&self.svg_data),
            emoji: clone_option_string(&self.emoji),
        }
    }
}

impl Default for SerializableSvgSource {
    fn default() -> (r: Self)
        ensures
            r.svg_data is None,
            r.emoji is None,
    {
        SerializableSvgSource { svg_data: None, emoji: None }
    }
}

/// Equality of optional strings by their text.
pub open spec fn option_string_eq(a: Option<String>, b: Option<String>) -> bool {
    match (a, b) {
        (Option::None, Option::None) => true,
        (Option::Some(x), Option::Some(y)) => x@ == y@,
        _ => false,
    }
}

/// Clones an optional string.
fn clone_option_string(s: &Option<String>) -> (r: Option<String>)
    ensures
        option_string_eq(r, *s),
{
    match s {
        Some(x) => Some(x.clone()),
        None => None,
    }
}

// ============================================================================
// Per-layer settings
// ============================================================================

/// Exchangeable settings for the hue rotation layer.
#[derive(Clone, Copy, PartialEq, Eq, Structural, Debug)]
pub struct HueRotationSettings {
    /// Rotation angle in thousandths of a degree; normalized into
    /// `[0, 360000)` when applied.
    pub millidegrees: i64,
    /// Whether this layer is enabled.
    pub enabled: bool,
}

/// Exchangeable settings for the decal imprint layer.
#[derive(Debug)]
pub struct DecalSettings {
    /// The vector source.
    pub source: SerializableSvgSource,
    /// Scale factor relative to the icon's content bounds, in
    /// ten-thousandths; clamped to `[0, 10000]` when applied.
    pub scale: u32,
    /// Whether this layer is enabled.
    pub enabled: bool,
}

impl Clone for DecalSettings {
    fn clone(&self) -> (r: Self)
        ensures
            option_string_eq(r.source.svg_data, self.source.svg_data),
            option_string_eq(r.source.emoji, self.source.emoji),
            r.scale == self.scale,
            r.enabled == self.enabled,
    {
        DecalSettings { source: self.source.clone(), scale: self.scale, enabled: self.enabled }
    }
}

/// Exchangeable settings for the symbol overlay layer.
#[derive(Debug)]
pub struct OverlaySettings {
    /// The vector source.
    pub source: SerializableSvgSource,
    /// Position within the icon's content bounds.
    pub position: SerializablePosition,
    /// Scale factor relative to the icon's content bounds, in
    /// ten-thousandths; clamped to `[0, 10000]` when applied.
    pub scale: u32,
    /// Whether this layer is enabled.
    pub enabled: bool,
}

impl Clone for OverlaySettings {
    fn clone(&self) -> (r: Self)
        ensures
            option_string_eq(r.source.svg_data, self.source.svg_data),
            option_string_eq(r.source.emoji, self.source.emoji),
            r.position == self.position,
            r.scale == self.scale,
            r.enabled == self.enabled,
    {
        OverlaySettings {
            source: self.source.clone(),
            position: self.position,
            scale: self.scale,
            enabled: self.enabled,
        }
    }
}

/// Exchangeable form of an overlay position.
#[derive(Clone, Copy, PartialEq, Eq, Structural, Debug)]
pub enum SerializablePosition {
    BottomLeft,
    BottomRight,
    TopLeft,
    TopRight,
    Center,
}

impl Default for SerializablePosition {
    fn default() -> (r: Self)
        ensures
            r == SerializablePosition::BottomRight,
    {
        SerializablePosition::BottomRight
    }
}

/// The overlay position an exchangeable position stands for.
pub open spec fn position_of_exchange(p: SerializablePosition) -> OverlayPosition {
    match p {
        SerializablePosition::BottomLeft => OverlayPosition::BottomLeft,
        SerializablePosition::BottomRight => OverlayPosition::BottomRight,
        SerializablePosition::TopLeft => OverlayPosition::TopLeft,
        SerializablePosition::TopRight => OverlayPosition::TopRight,
        SerializablePosition::Center => OverlayPosition::Center,
    }
}

/// The exchangeable form of an overlay position.
pub open spec fn exchange_of_position(p: OverlayPosition) -> SerializablePosition {
    match p {
        OverlayPosition::BottomLeft => SerializablePosition::BottomLeft,
        OverlayPosition::BottomRight => SerializablePosition::BottomRight,
        OverlayPosition::TopLeft => SerializablePosition::TopLeft,
        OverlayPosition::TopRight => SerializablePosition::TopRight,
        OverlayPosition::Center => SerializablePosition::Center,
    }
}

impl SerializablePosition {
    /// Converts to the rendering position.
    pub fn to_position(&self) -> (r: OverlayPosition)
        ensures
            r == position_of_exchange(*self),
    {
        match self {
            SerializablePosition::BottomLeft => OverlayPosition::BottomLeft,
            SerializablePosition::BottomRight => OverlayPosition::BottomRight,
            SerializablePosition::TopLeft => OverlayPosition::TopLeft,
            SerializablePosition::TopRight => OverlayPosition::TopRight,
            SerializablePosition::Center => OverlayPosition::Center,
        }
    }

    /// The exchangeable form of a rendering position.
    pub fn of_position(p: OverlayPosition) -> (r: SerializablePosition)
        ensures
            r == exchange_of_position(p),
    {
        match p {
            OverlayPosition::BottomLeft => SerializablePosition::BottomLeft,
            OverlayPosition::BottomRight => SerializablePosition::BottomRight,
            OverlayPosition::TopLeft => SerializablePosition::TopLeft,
            OverlayPosition::TopRight => SerializablePosition::TopRight,
            OverlayPosition::Center => SerializablePosition::Center,
        }
    }
}

// ============================================================================
// Profile
// ============================================================================

/// An exchangeable profile containing all customization settings.
///
/// Absent layer entries mean "no configuration".
#[derive(Debug)]
pub struct CustomizationProfile {
    /// Hue rotation settings; absent means no configuration.
    pub hue_rotation: Option<HueRotationSettings>,
    /// Decal settings; absent means no configuration.
    pub decal: Option<DecalSettings>,
    /// Overlay settings; absent means no configuration.
    pub overlay: Option<OverlaySettings>,
}

impl CustomizationProfile {
    /// Creates an empty profile with no layers configured.
    pub fn new() -> (r: CustomizationProfile)
        ensures
            r.hue_rotation is None,
            r.decal is None,
            r.overlay is None,
    {
        CustomizationProfile { hue_rotation: None, decal: None, overlay: None }
    }

    /// Sets hue rotation settings.
    pub fn with_hue_rotation(self, settings: HueRotationSettings) -> (r: CustomizationProfile)
        ensures
            r.hue_rotation == Some(settings),
            r.decal == self.decal,
            r.overlay == self.overlay,
    {
        CustomizationProfile { hue_rotation: Some(settings), decal: self.decal, overlay: self.overlay }
    }

    /// Sets decal settings.
    pub fn with_decal(self, settings: DecalSettings) -> (r: CustomizationProfile)
        ensures
            r.hue_rotation == self.hue_rotation,
            r.decal == Some(settings),
            r.overlay == self.overlay,
    {
        CustomizationProfile { hue_rotation: self.hue_rotation, decal: Some(settings), overlay: self.overlay }
    }

    /// Sets overlay settings.
    pub fn with_overlay(self, settings: OverlaySettings) -> (r: CustomizationProfile)
        ensures
            r.hue_rotation == self.hue_rotation,
            r.decal == self.decal,
            r.overlay == Some(settings),
    {
        CustomizationProfile { hue_rotation: self.hue_rotation, decal: self.decal, overlay: Some(settings) }
    }
}

impl Default for CustomizationProfile {
    fn default() -> (r: Self)
        ensures
            r.hue_rotation is None,
            r.decal is None,
            r.overlay is None,
    {
        CustomizationProfile { hue_rotation: None, decal: None, overlay: None }
    }
}

} // verus!
