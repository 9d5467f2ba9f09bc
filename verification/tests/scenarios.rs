//! End-to-end scenarios over concrete images.

use folco_renderer::{
    darken_color, sample_dominant_color, DecalConfig, HueRotationConfig, IconCustomizer,
    IconImage, IconSet, OverlayPosition, Pixel, Raster, SvgOverlayConfig, SvgSource,
};

fn filled(width: u32, height: u32, p: Pixel) -> Raster {
    let mut r = Raster::new(width, height);
    for y in 0..height {
        for x in 0..width {
            r.put_pixel(x, y, p);
        }
    }
    r
}

fn red_icon_set() -> IconSet {
    let mut set = IconSet::new();
    set.add_image(IconImage::new_full_content(filled(16, 16, Pixel::new(255, 0, 0, 255)), 100));
    set
}

#[test]
fn red_image_rotated_toward_green() {
    // A fully opaque red 16x16 image with a 120 degree hue rotation and no
    // decal or overlay renders with the green channel dominating.
    let mut customizer = IconCustomizer::new(red_icon_set());
    customizer.pipeline.hue.set_config(Some(HueRotationConfig::new(120_000)));

    let rendered = customizer.render(16).unwrap();
    let p = rendered.data.get_pixel(0, 0);
    assert!(p.g > p.r);
    assert!(p.g > p.b);
}

#[test]
fn disabled_hue_leaves_red_exact() {
    // The same red image with the hue stage configured at 120 degrees but
    // disabled renders pixel (0,0) as exactly (255, 0, 0, 255).
    let mut customizer = IconCustomizer::new(red_icon_set());
    customizer.pipeline.hue.set_config(Some(HueRotationConfig::new(120_000)));
    customizer.pipeline.hue.set_enabled(false);

    let rendered = customizer.render(16).unwrap();
    let p = rendered.data.get_pixel(0, 0);
    assert_eq!((p.r, p.g, p.b, p.a), (255, 0, 0, 255));
}

#[test]
fn decal_color_is_darkened_base_average() {
    // With hue disabled, the decal's resolved color is the alpha-weighted
    // average of the base image's content bounds, darkened by the fixed
    // lightness delta. The decal markup covers its whole target square, so
    // the center pixel of the render carries that color exactly.
    let markup = r##"<svg xmlns="http://www.w3.org/2000/svg" width="10" height="10"><rect x="0" y="0" width="10" height="10" fill="#000000"/></svg>"##;
    let mut customizer = IconCustomizer::new(red_icon_set());
    customizer.pipeline.hue.set_config(Some(HueRotationConfig::new(120_000)));
    customizer.pipeline.hue.set_enabled(false);
    customizer.pipeline.decal.set_config(Some(DecalConfig::new(markup, 5000)));

    let base = IconImage::new_full_content(filled(16, 16, Pixel::new(255, 0, 0, 255)), 100);
    let expected = darken_color(sample_dominant_color(&base), 150);

    let rendered = customizer.render(16).unwrap();
    // The decal spans the central 8x8 of the 16x16 icon.
    let p = rendered.data.get_pixel(8, 8);
    assert_eq!((p.r, p.g, p.b, p.a), expected);
    // A corner stays the base red.
    let q = rendered.data.get_pixel(0, 0);
    assert_eq!((q.r, q.g, q.b, q.a), (255, 0, 0, 255));
}

#[test]
fn logical_size_twenty_picks_sixteen() {
    // A base set with 16x16 and 32x32 entries at 1x: requesting a logical
    // size of 20 returns the 16x16 entry, the closer match.
    let mut set = IconSet::new();
    set.add_image(IconImage::new_full_content(filled(16, 16, Pixel::new(1, 2, 3, 255)), 100));
    set.add_image(IconImage::new_full_content(filled(32, 32, Pixel::new(4, 5, 6, 255)), 100));
    let mut customizer = IconCustomizer::new(set);
    let rendered = customizer.render(20).unwrap();
    assert_eq!(rendered.dimensions().width, 16);
}

#[test]
fn zero_scale_decal_is_no_op() {
    let markup = r##"<svg xmlns="http://www.w3.org/2000/svg" width="10" height="10"><rect width="10" height="10" fill="#ffffff"/></svg>"##;
    let mut customizer = IconCustomizer::new(red_icon_set());
    customizer.pipeline.decal.set_config(Some(DecalConfig::new(markup, 0)));
    let rendered = customizer.render(16).unwrap();
    let p = rendered.data.get_pixel(8, 8);
    assert_eq!((p.r, p.g, p.b, p.a), (255, 0, 0, 255));
}

#[test]
fn unparsable_decal_is_no_op() {
    let mut customizer = IconCustomizer::new(red_icon_set());
    customizer.pipeline.decal.set_config(Some(DecalConfig::new("not markup", 5000)));
    let rendered = customizer.render(16).unwrap();
    let p = rendered.data.get_pixel(8, 8);
    assert_eq!((p.r, p.g, p.b, p.a), (255, 0, 0, 255));
}

#[test]
fn overlay_drawn_at_corner() {
    let markup = r##"<svg xmlns="http://www.w3.org/2000/svg" width="10" height="10"><rect width="10" height="10" fill="#0000ff"/></svg>"##;
    let mut customizer = IconCustomizer::new(red_icon_set());
    customizer.pipeline.overlay.set_config(Some(SvgOverlayConfig::new(
        SvgSource::from_svg(markup),
        OverlayPosition::TopLeft,
        5000,
    )));
    let rendered = customizer.render(16).unwrap();
    // The top-left corner is covered by the opaque blue overlay.
    let p = rendered.data.get_pixel(1, 1);
    assert_eq!((p.r, p.g, p.b, p.a), (0, 0, 255, 255));
    // The bottom-right corner stays red.
    let q = rendered.data.get_pixel(15, 15);
    assert_eq!((q.r, q.g, q.b, q.a), (255, 0, 0, 255));
}

#[test]
fn clear_cache_keeps_output_stable() {
    // Rendering, clearing every cache, and rendering again yields byte-for
    // byte identical pixels: the cache hit path and the miss path agree.
    let mut customizer = IconCustomizer::new(red_icon_set());
    customizer.pipeline.hue.set_config(Some(HueRotationConfig::new(77_000)));
    let first = customizer.render(16).unwrap();
    let second = customizer.render(16).unwrap();
    customizer.clear_cache();
    let third = customizer.render(16).unwrap();
    for y in 0..16 {
        for x in 0..16 {
            assert_eq!(first.data.get_pixel(x, y), second.data.get_pixel(x, y));
            assert_eq!(first.data.get_pixel(x, y), third.data.get_pixel(x, y));
        }
    }
}
