use folco_renderer::{
    Configurable, CustomizationProfile, DecalSettings, HueRotationConfig, HueRotationSettings,
    IconCustomizer, IconSet, OverlaySettings, SerializablePosition, SerializableSvgSource,
    SvgSource,
};

#[test]
fn profile_apply_to_customizer() {
    let profile = CustomizationProfile::new()
        .with_hue_rotation(HueRotationSettings { millidegrees: 120_000, enabled: true })
        .with_decal(DecalSettings {
            source: SerializableSvgSource::from_svg("test-svg"),
            scale: 3000,
            enabled: false, // Disabled but config present
        });

    let mut customizer = IconCustomizer::new(IconSet::new());
    customizer.apply_profile(&profile);

    // Hue.
    assert!(customizer.pipeline.hue.is_active());
    assert_eq!(customizer.pipeline.hue.config().unwrap().millidegrees, 120_000);

    // Decal (has config but disabled).
    assert!(customizer.pipeline.decal.has_config());
    assert!(!customizer.pipeline.decal.is_enabled());
    assert!(!customizer.pipeline.decal.is_active());
    assert_eq!(
        customizer.pipeline.decal.config().unwrap().source,
        SvgSource::Raw("test-svg".into())
    );
}

#[test]
fn profile_export_from_customizer() {
    let mut customizer = IconCustomizer::new(IconSet::new());
    customizer.pipeline.hue.set_config(Some(HueRotationConfig::new(45_000)));
    customizer.pipeline.hue.set_enabled(false);

    let profile = customizer.export_profile();

    assert!(profile.hue_rotation.is_some());
    assert_eq!(profile.hue_rotation.as_ref().unwrap().millidegrees, 45_000);
    assert!(!profile.hue_rotation.as_ref().unwrap().enabled);
    assert!(profile.decal.is_none());
    assert!(profile.overlay.is_none());
}

#[test]
fn profile_round_trip_reproduces_settings() {
    let mut customizer = IconCustomizer::new(IconSet::new());
    customizer.pipeline.hue.set_config(Some(HueRotationConfig::new(210_000)));
    customizer.pipeline.hue.set_enabled(false);
    customizer.pipeline.decal.set_config(Some(folco_renderer::DecalConfig::new("<svg/>", 4000)));
    customizer.pipeline.overlay.set_config(Some(folco_renderer::SvgOverlayConfig::new(
        SvgSource::from_svg("<svg/>"),
        folco_renderer::OverlayPosition::TopLeft,
        2000,
    )));

    let exported = customizer.export_profile();
    let mut other = IconCustomizer::new(IconSet::new());
    other.apply_profile(&exported);

    assert_eq!(other.pipeline.hue.config().unwrap().millidegrees, 210_000);
    assert!(!other.pipeline.hue.is_enabled());
    assert_eq!(other.pipeline.decal.config().unwrap().source, SvgSource::Raw("<svg/>".into()));
    assert_eq!(other.pipeline.decal.config().unwrap().scale, 4000);
    assert!(other.pipeline.decal.is_enabled());
    assert_eq!(
        other.pipeline.overlay.config().unwrap().position,
        folco_renderer::OverlayPosition::TopLeft
    );
    assert_eq!(other.pipeline.overlay.config().unwrap().scale, 2000);
}

#[test]
fn profile_apply_none_clears_config_only() {
    let mut customizer = IconCustomizer::new(IconSet::new());
    customizer.pipeline.hue.set_config(Some(HueRotationConfig::new(90_000)));
    customizer.pipeline.hue.set_enabled(false);

    // An empty profile clears configurations but leaves enabled flags.
    customizer.apply_profile(&CustomizationProfile::new());
    assert!(customizer.pipeline.hue.config().is_none());
    assert!(!customizer.pipeline.hue.is_enabled());
}

#[test]
fn exchangeable_source_forms() {
    let raw = SerializableSvgSource::from_svg("<svg/>");
    assert_eq!(raw.svg_data.as_deref(), Some("<svg/>"));
    assert!(raw.emoji.is_none());

    let emoji = SerializableSvgSource::from_emoji("\u{1F986}");
    assert!(emoji.svg_data.is_none());
    assert_eq!(emoji.emoji.as_deref(), Some("\u{1F986}"));
}

#[test]
fn overlay_settings_carry_position() {
    let profile = CustomizationProfile::new().with_overlay(OverlaySettings {
        source: SerializableSvgSource::from_svg("icon"),
        position: SerializablePosition::TopLeft,
        scale: 2500,
        enabled: true,
    });
    assert_eq!(profile.overlay.as_ref().unwrap().position, SerializablePosition::TopLeft);
    assert_eq!(SerializablePosition::default(), SerializablePosition::BottomRight);
}
