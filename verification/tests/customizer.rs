use folco_renderer::{
    darken_color, sample_dominant_color, CacheKey, DecalConfig, DependencyVersion, DominantColor,
    HueRotationConfig,
    IconCustomizer, IconImage, IconSet, Layer, LayerEffect, LayerVersions, OverlayPosition, Pixel,
    Raster, RenderContext, SvgOverlayConfig, SvgSource,
};

fn filled(width: u32, height: u32, p: Pixel) -> Raster {
    let mut r = Raster::new(width, height);
    for y in 0..height {
        for x in 0..width {
            r.put_pixel(x, y, p);
        }
    }
    r
}

fn create_test_icon_set() -> IconSet {
    let mut set = IconSet::new();

    // A 16x16 red icon.
    set.add_image(IconImage::new_full_content(filled(16, 16, Pixel::new(255, 0, 0, 255)), 100));

    // A 32x32 green icon.
    set.add_image(IconImage::new_full_content(filled(32, 32, Pixel::new(0, 255, 0, 255)), 100));

    set
}

#[test]
fn customizer_creation() {
    let icons = create_test_icon_set();
    let customizer = IconCustomizer::new(icons);

    assert!(customizer.pipeline.hue.config().is_none());
    assert!(customizer.pipeline.decal.config().is_none());
    assert!(customizer.pipeline.overlay.config().is_none());
}

#[test]
fn hue_rotation_setting() {
    let icons = create_test_icon_set();
    let mut customizer = IconCustomizer::new(icons);

    customizer.pipeline.hue.set_config(Some(HueRotationConfig::new(180_000)));
    assert_eq!(customizer.pipeline.hue.config().unwrap().millidegrees, 180_000);

    // Normalization of angles beyond a full turn.
    customizer.pipeline.hue.set_config(Some(HueRotationConfig::new(450_000)));
    assert_eq!(customizer.pipeline.hue.config().unwrap().millidegrees, 90_000);

    customizer.pipeline.hue.set_config(None);
    assert!(customizer.pipeline.hue.config().is_none());
}

#[test]
fn render_without_customizations() {
    let icons = create_test_icon_set();
    let mut customizer = IconCustomizer::new(icons);

    let rendered = customizer.render(16).unwrap();
    assert_eq!(rendered.dimensions().width, 16);

    // The image is unchanged.
    let pixel = rendered.data.get_pixel(0, 0);
    assert_eq!((pixel.r, pixel.g, pixel.b, pixel.a), (255, 0, 0, 255));
}

#[test]
fn render_all_sizes() {
    let icons = create_test_icon_set();
    let mut customizer = IconCustomizer::new(icons);

    let result = customizer.render_all();
    assert_eq!(result.len(), 2);
}

#[test]
fn render_empty_set_is_none() {
    let mut customizer = IconCustomizer::new(IconSet::new());
    assert!(customizer.render(16).is_none());
}

#[test]
fn hue_rotation_applied() {
    let icons = create_test_icon_set();
    let mut customizer = IconCustomizer::new(icons);

    // Rotating red (hue 0) by 120 degrees gives something green-ish.
    customizer.pipeline.hue.set_config(Some(HueRotationConfig::new(120_000)));

    let rendered = customizer.render(16).unwrap();
    let pixel = rendered.data.get_pixel(0, 0);

    assert!(pixel.g > pixel.r, "Green should be > Red after 120 degree rotation");
    assert!(pixel.g > pixel.b, "Green should be > Blue after 120 degree rotation");
}

#[test]
fn cache_invalidation_on_hue_change() {
    let icons = create_test_icon_set();
    let mut customizer = IconCustomizer::new(icons);

    // First render.
    customizer.pipeline.hue.set_config(Some(HueRotationConfig::new(60_000)));
    let first = customizer.render(16).unwrap();

    // Change hue and render again.
    customizer.pipeline.hue.set_config(Some(HueRotationConfig::new(180_000)));
    let second = customizer.render(16).unwrap();

    // Results should differ.
    let p1 = first.data.get_pixel(0, 0);
    let p2 = second.data.get_pixel(0, 0);
    assert_ne!(
        (p1.r, p1.g, p1.b, p1.a),
        (p2.r, p2.g, p2.b, p2.a),
        "Different hue rotations should produce different results"
    );
}

#[test]
fn cache_reuse_same_config() {
    let icons = create_test_icon_set();
    let mut customizer = IconCustomizer::new(icons);

    customizer.pipeline.hue.set_config(Some(HueRotationConfig::new(90_000)));

    // Render twice with the same config.
    let first = customizer.render(16).unwrap();
    let second = customizer.render(16).unwrap();

    // Results are identical (from cache).
    assert_eq!(first.data.get_pixel(0, 0), second.data.get_pixel(0, 0));
}

#[test]
fn layer_generic_set_config() {
    let mut layer: Layer<DecalConfig> = Layer::default();

    // Enabled by default, but no config yet.
    assert!(layer.is_enabled());
    assert!(!layer.has_config());
    assert!(!layer.is_active()); // Not active without config
    assert_eq!(layer.version(), 0);

    // Setting config increments the version.
    let changed = layer.set_config(Some(DecalConfig::new("svg", 5000)));
    assert!(changed);
    assert!(layer.has_config());
    assert!(layer.is_active()); // Now active
    assert_eq!(layer.version(), 1);

    // Same config does not increment.
    let changed = layer.set_config(Some(DecalConfig::new("svg", 5000)));
    assert!(!changed);
    assert_eq!(layer.version(), 1);

    // Different config increments.
    let changed = layer.set_config(Some(DecalConfig::new("svg2", 5000)));
    assert!(changed);
    assert_eq!(layer.version(), 2);
}

#[test]
fn layer_toggle_without_losing_config() {
    let mut layer: Layer<DecalConfig> = Layer::default();

    // Set config.
    layer.set_config(Some(DecalConfig::new("my-svg", 5000)));
    assert!(layer.is_active());
    assert_eq!(layer.version(), 1);

    // Disable: the config is preserved.
    let changed = layer.set_enabled(false);
    assert!(changed);
    assert!(!layer.is_active());
    assert!(layer.has_config()); // Config still there!
    assert_eq!(layer.config().unwrap().source, SvgSource::Raw("my-svg".into()));
    assert_eq!(layer.version(), 2);

    // Re-enable: works with the same config.
    let changed = layer.set_enabled(true);
    assert!(changed);
    assert!(layer.is_active());
    assert_eq!(layer.config().unwrap().source, SvgSource::Raw("my-svg".into()));
    assert_eq!(layer.version(), 3);
}

#[test]
fn hue_rotation_toggle() {
    let icons = create_test_icon_set();
    let mut customizer = IconCustomizer::new(icons);

    // Set hue rotation.
    customizer.pipeline.hue.set_config(Some(HueRotationConfig::new(120_000)));
    assert!(customizer.pipeline.hue.is_enabled());
    let rotated = customizer.render(16).unwrap();
    let rp = rotated.data.get_pixel(0, 0);

    // Disable: renders as the original.
    customizer.pipeline.hue.set_enabled(false);
    assert!(!customizer.pipeline.hue.is_enabled());
    // Config preserved!
    assert_eq!(customizer.pipeline.hue.config().unwrap().millidegrees, 120_000);
    let disabled = customizer.render(16).unwrap();
    let dp = disabled.data.get_pixel(0, 0);
    assert_eq!((dp.r, dp.g, dp.b, dp.a), (255, 0, 0, 255)); // Original red

    // Re-enable: renders rotated again.
    customizer.pipeline.hue.set_enabled(true);
    let re_enabled = customizer.render(16).unwrap();
    assert_eq!(re_enabled.data.get_pixel(0, 0), rp);
}

#[test]
fn darken_color_works() {
    let original = (200, 100, 100, 255);
    let darkened = darken_color(original, 200);

    // The darkened color is less bright overall.
    let orig_brightness = (original.0 as u32 + original.1 as u32 + original.2 as u32) / 3;
    let dark_brightness = (darkened.0 as u32 + darkened.1 as u32 + darkened.2 as u32) / 3;
    assert!(dark_brightness < orig_brightness, "Darkened color should be less bright");

    // Alpha is preserved.
    assert_eq!(darkened.3, original.3);
}

#[test]
fn decal_config_creation() {
    let config = DecalConfig::new("<svg></svg>", 5000);
    assert_eq!(config.source, SvgSource::Raw("<svg></svg>".into()));
    assert_eq!(config.scale, 5000);

    // Clamping.
    let clamped = DecalConfig::new("svg", 15000);
    assert_eq!(clamped.scale, 10000);
}

#[test]
fn overlay_config_creation() {
    let config = SvgOverlayConfig::new(
        SvgSource::from_svg("<svg></svg>"),
        OverlayPosition::BottomRight,
        2500,
    );
    assert_eq!(config.position, OverlayPosition::BottomRight);
    assert_eq!(config.scale, 2500);
}

#[test]
fn decal_uses_hue_rotated_dominant_color() {
    // A solid red image.
    let red_icon = IconImage::new_full_content(filled(16, 16, Pixel::new(255, 0, 0, 255)), 100);

    // The dominant color of the red base, for comparison.
    let base_color = sample_dominant_color(&red_icon);
    assert_eq!(base_color, (255, 0, 0, 255), "Base should be red");

    // Apply hue rotation (120 degrees rotates red toward green).
    let hue_config = HueRotationConfig::new(120_000);
    let mut ctx = RenderContext::new(red_icon);
    hue_config.transform(&mut ctx);
    hue_config.emit(&mut ctx);

    // Hue rotation emitted a dominant color.
    let emitted = ctx.get();
    assert!(emitted.is_some(), "Hue rotation should emit DominantColor");

    let emitted_color = emitted.unwrap().as_tuple();
    // After a 120 degree rotation, red should become green-ish.
    assert!(
        emitted_color.1 > emitted_color.0,
        "Emitted color should have more green than red after 120 degree rotation"
    );

    // Now apply the decal: it consumes the emitted color and does not
    // overwrite it.
    let decal_config = DecalConfig::new("<svg></svg>", 5000);
    decal_config.transform(&mut ctx);

    let color_after_decal = ctx.get().unwrap().as_tuple();
    assert_eq!(
        color_after_decal, emitted_color,
        "Decal should consume but not overwrite DominantColor"
    );
}

#[test]
fn decal_samples_base_when_hue_disabled() {
    // A solid blue image.
    let blue_icon = IconImage::new_full_content(filled(16, 16, Pixel::new(0, 0, 255, 255)), 100);

    // Hue has a config but is DISABLED.
    let mut hue_layer: Layer<HueRotationConfig> = Layer::default();
    hue_layer.set_config(Some(HueRotationConfig::new(120_000)));
    hue_layer.set_enabled(false); // Disabled!

    let mut decal_layer: Layer<DecalConfig> = Layer::default();
    decal_layer.set_config(Some(DecalConfig::new("<svg></svg>", 5000)));

    let key = CacheKey::from_icon(&blue_icon);
    let mut ctx = RenderContext::new(blue_icon);
    let versions = LayerVersions {
        hue: hue_layer.version(),
        decal: decal_layer.version(),
        overlay: 0,
    };

    // Apply the hue layer (skipped because disabled).
    hue_layer.apply(&mut ctx, key, &versions);

    // No dominant color was emitted (hue was skipped).
    assert!(
        ctx.get().is_none(),
        "No DominantColor should exist when hue layer is disabled"
    );

    // The image is unchanged (still blue).
    let p = ctx.image.data.get_pixel(0, 0);
    assert_eq!((p.r, p.g, p.b, p.a), (0, 0, 255, 255), "Image should be unchanged when hue is disabled");

    // Apply the decal: it falls back to sampling the base blue image.
    decal_layer.apply(&mut ctx, key, &versions);

    // Image still blue (the test markup renders nothing).
    let q = ctx.image.data.get_pixel(0, 0);
    assert_eq!((q.r, q.g, q.b, q.a), (0, 0, 255, 255), "Image should still be blue");
}

#[test]
fn disabled_hue_layer_version_change_invalidates_decal_cache() {
    // A red test icon.
    let red_icon = IconImage::new_full_content(filled(16, 16, Pixel::new(255, 0, 0, 255)), 100);
    let key = CacheKey::from_icon(&red_icon);

    // Set up layers.
    let mut hue_layer: Layer<HueRotationConfig> = Layer::default();
    hue_layer.set_config(Some(HueRotationConfig::new(120_000)));
    let mut decal_layer: Layer<DecalConfig> = Layer::default();
    decal_layer.set_config(Some(DecalConfig::new("<svg></svg>", 5000)));

    // First render: hue enabled.
    let versions_v1 = LayerVersions {
        hue: hue_layer.version(),
        decal: decal_layer.version(),
        overlay: 0,
    };
    let mut ctx1 = RenderContext::new(red_icon.clone());
    hue_layer.apply(&mut ctx1, key, &versions_v1);
    decal_layer.apply(&mut ctx1, key, &versions_v1);

    // Hue emitted a dominant color (green-ish after the rotation).
    let emitted_with_hue = ctx1.get().unwrap().as_tuple();
    assert!(
        emitted_with_hue.1 > emitted_with_hue.0,
        "With hue enabled, emitted color should be green-ish"
    );

    // Disable hue: the version changes.
    let old_version = hue_layer.version();
    hue_layer.set_enabled(false);
    let new_version = hue_layer.version();
    assert_ne!(old_version, new_version, "Disabling layer should change its version");

    // Second render: hue disabled.
    let versions_v2 = LayerVersions {
        hue: hue_layer.version(), // New version!
        decal: decal_layer.version(),
        overlay: 0,
    };
    let mut ctx2 = RenderContext::new(red_icon.clone());
    hue_layer.apply(&mut ctx2, key, &versions_v2);
    decal_layer.apply(&mut ctx2, key, &versions_v2);

    // No dominant color was emitted (hue was skipped).
    assert!(
        ctx2.get().is_none(),
        "With hue disabled, no DominantColor should be emitted"
    );

    // The image is the original red (not rotated).
    let p = ctx2.image.data.get_pixel(0, 0);
    assert_eq!((p.r, p.g, p.b, p.a), (255, 0, 0, 255), "With hue disabled, image should be original red");
}

#[test]
fn pipeline_property_flow_with_hue_toggle() {
    // Integration test: the full pipeline handles a hue toggle correctly.
    let mut icons = IconSet::new();
    icons.add_image(IconImage::new_full_content(filled(16, 16, Pixel::new(255, 0, 0, 255)), 100));

    let mut customizer = IconCustomizer::new(icons);

    // Enable both hue rotation and decal.
    customizer.pipeline.hue.set_config(Some(HueRotationConfig::new(120_000)));
    customizer.pipeline.decal.set_config(Some(DecalConfig::new("<svg></svg>", 5000)));

    // Render with hue enabled.
    let with_hue = customizer.render(16).unwrap();
    let hue_pixel = with_hue.data.get_pixel(0, 0);

    // Disable hue but keep the decal.
    customizer.pipeline.hue.set_enabled(false);
    let without_hue = customizer.render(16).unwrap();
    let no_hue_pixel = without_hue.data.get_pixel(0, 0);

    // With hue: rotated (more green than red).
    assert!(hue_pixel.g > hue_pixel.r, "With hue enabled, green should dominate");

    // Without hue: the original red (the decal does not cover this corner
    // pixel).
    assert_eq!(
        (no_hue_pixel.r, no_hue_pixel.g, no_hue_pixel.b, no_hue_pixel.a),
        (255, 0, 0, 255),
        "With hue disabled, should be original red"
    );

    // Re-enable hue: back to the rotated result.
    customizer.pipeline.hue.set_enabled(true);
    let re_enabled = customizer.render(16).unwrap();
    assert_eq!(
        re_enabled.data.get_pixel(0, 0),
        hue_pixel,
        "Re-enabling hue should restore rotated result"
    );
}

#[test]
fn dominant_color_weighted_average() {
    // Two opaque pixels (white, black) and one transparent pixel: the
    // average weights by alpha and ignores the transparent one.
    let mut r = Raster::new(3, 1);
    r.put_pixel(0, 0, Pixel::new(255, 255, 255, 255));
    r.put_pixel(1, 0, Pixel::new(0, 0, 0, 255));
    r.put_pixel(2, 0, Pixel::new(9, 9, 9, 0));
    let icon = IconImage::new_full_content(r, 100);
    assert_eq!(sample_dominant_color(&icon), (127, 127, 127, 255));
}

#[test]
fn dominant_color_of_empty_region_is_gray() {
    let icon = IconImage::new_full_content(Raster::new(8, 8), 100);
    // Fully transparent content samples as the mid-gray default.
    assert_eq!(sample_dominant_color(&icon), (128, 128, 128, 255));
}

#[test]
fn render_context_slots() {
    let icon = IconImage::new_full_content(Raster::new(2, 2), 100);
    let mut ctx = RenderContext::new(icon);
    assert!(!ctx.has());
    assert!(ctx.get().is_none());
    ctx.set(DominantColor::new(1, 2, 3, 4));
    assert!(ctx.has());
    assert_eq!(ctx.get().unwrap().as_tuple(), (1, 2, 3, 4));
}

#[test]
fn set_enabled_without_change_is_silent() {
    let mut layer: Layer<DecalConfig> = Layer::default();
    // Enabling an already enabled layer changes nothing.
    assert!(!layer.set_enabled(true));
    assert_eq!(layer.version(), 0);
    // Clearing an absent configuration changes nothing either.
    assert!(!layer.set_config(None));
    assert_eq!(layer.version(), 0);
}

#[test]
fn dependency_version_combines_wrapping() {
    assert_eq!(DependencyVersion::combine(&[1, 2, 3]), DependencyVersion::from_version(6));
    assert_eq!(
        DependencyVersion::combine(&[u64::MAX, 1]),
        DependencyVersion::from_version(0)
    );
    assert_eq!(DependencyVersion::combine(&[]), DependencyVersion::none());
}
