use folco_renderer::{
    alpha_blend, composite_over, render_source, render_svg, render_svg_with_color,
    replace_svg_colors, unpremultiply, Pixel, Raster, SvgSource,
};

const SIMPLE_SVG: &str = r##"<svg xmlns="http://www.w3.org/2000/svg" width="100" height="100"><circle cx="50" cy="50" r="40" fill="#ff0000"/></svg>"##;

fn filled(width: u32, height: u32, p: Pixel) -> Raster {
    let mut r = Raster::new(width, height);
    for y in 0..height {
        for x in 0..width {
            r.put_pixel(x, y, p);
        }
    }
    r
}

fn contains_bytes(haystack: &[u8], needle: &[u8]) -> bool {
    haystack.windows(needle.len()).any(|w| w == needle)
}

#[test]
fn render_simple_svg() {
    let result = render_svg(SIMPLE_SVG, 50);
    assert!(result.is_some());

    let img = result.unwrap();
    assert!(img.width() <= 50);
    assert!(img.height() <= 50);
}

#[test]
fn render_svg_with_color_replacement() {
    let result = render_svg_with_color(SIMPLE_SVG, 50, Some((0, 255, 0, 255)));
    assert!(result.is_some());

    let img = result.unwrap();
    // The center pixel (inside the circle) should be green-ish.
    let center = img.get_pixel(img.width() / 2, img.height() / 2);
    assert!(center.g > center.r, "Green should dominate after color replacement");
}

#[test]
fn render_invalid_svg_is_none() {
    assert!(render_svg("not markup at all", 32).is_none());
    assert!(render_svg(SIMPLE_SVG, 0).is_none());
}

#[test]
fn composite_simple() {
    // A 10x10 red background.
    let mut dest = filled(10, 10, Pixel::new(255, 0, 0, 255));

    // A 4x4 blue overlay.
    let src = filled(4, 4, Pixel::new(0, 0, 255, 255));

    // Composite at (3, 3).
    composite_over(&mut dest, &src, 3, 3);

    // The overlay area is blue.
    let p = dest.get_pixel(5, 5);
    assert_eq!((p.r, p.g, p.b, p.a), (0, 0, 255, 255));

    // Outside the overlay is still red.
    let q = dest.get_pixel(0, 0);
    assert_eq!((q.r, q.g, q.b, q.a), (255, 0, 0, 255));
}

#[test]
fn composite_with_transparency() {
    // A 10x10 red background.
    let mut dest = filled(10, 10, Pixel::new(255, 0, 0, 255));

    // A 4x4 semi-transparent blue overlay.
    let src = filled(4, 4, Pixel::new(0, 0, 255, 128));

    // Composite at (0, 0).
    composite_over(&mut dest, &src, 0, 0);

    // The result is a blend of red and blue.
    let pixel = dest.get_pixel(0, 0);
    assert!(pixel.r > 0, "Should have some red");
    assert!(pixel.b > 0, "Should have some blue");
}

#[test]
fn composite_clips_outside_destination() {
    let mut dest = filled(4, 4, Pixel::new(10, 20, 30, 255));
    let src = filled(4, 4, Pixel::new(255, 255, 255, 255));
    composite_over(&mut dest, &src, -2, -2);
    // The overlapping quadrant is white, the rest untouched.
    let p = dest.get_pixel(0, 0);
    assert_eq!((p.r, p.g, p.b, p.a), (255, 255, 255, 255));
    let q = dest.get_pixel(3, 3);
    assert_eq!((q.r, q.g, q.b, q.a), (10, 20, 30, 255));
}

#[test]
fn alpha_blend_exact_values() {
    // An opaque source replaces the destination exactly.
    let s = Pixel::new(1, 2, 3, 255);
    let d = Pixel::new(200, 100, 50, 77);
    assert_eq!(alpha_blend(s, d), s);
    // Two fully transparent pixels blend to transparent black.
    let blank = alpha_blend(Pixel::new(9, 9, 9, 0), Pixel::new(7, 7, 7, 0));
    assert_eq!((blank.r, blank.g, blank.b, blank.a), (0, 0, 0, 0));
    // Half-transparent blue over opaque red: exact rational rounding.
    let mix = alpha_blend(Pixel::new(0, 0, 255, 128), Pixel::new(255, 0, 0, 255));
    assert_eq!((mix.r, mix.g, mix.b, mix.a), (127, 0, 128, 255));
}

#[test]
fn unpremultiply_exact_values() {
    assert_eq!(unpremultiply(10, 20, 30, 0), (0, 0, 0, 0));
    assert_eq!(unpremultiply(128, 64, 0, 128), (255, 128, 0, 128));
    assert_eq!(unpremultiply(255, 0, 255, 255), (255, 0, 255, 255));
}

#[test]
fn replace_color_preserves_none() {
    let svg = r##"<circle fill="none" stroke="#000000"/>"##;
    let result = replace_svg_colors(svg, 255, 0, 0);
    assert!(contains_bytes(&result, br#"fill="none""#));
    assert!(contains_bytes(&result, br##"stroke="#ff0000""##));
}

#[test]
fn replace_color_rewrites_all_values() {
    let svg = r##"<rect fill="#123456"/><circle fill="transparent" stroke="blue"/>"##;
    let result = replace_svg_colors(svg, 0, 16, 255);
    assert!(contains_bytes(&result, br##"fill="#0010ff""##));
    assert!(contains_bytes(&result, br#"fill="transparent""#));
    assert!(contains_bytes(&result, br##"stroke="#0010ff""##));
    assert!(!contains_bytes(&result, br#""blue""#));
}

#[test]
fn svg_source_from_raw() {
    let source = SvgSource::from_svg("<svg></svg>");
    assert!(source.is_raw());
    assert!(!source.is_emoji());
    assert_eq!(source.resolve().as_deref(), Some("<svg></svg>"));
}

#[test]
fn svg_source_from_emoji() {
    let source = SvgSource::from_emoji("\u{1F986}").expect("Duck emoji should be supported");
    assert!(source.is_emoji());
    assert!(!source.is_raw());

    let svg = source.resolve().expect("Should resolve to SVG");
    assert!(svg.contains("<svg"), "Should be valid SVG data");
}

#[test]
fn svg_source_invalid_emoji_returns_none() {
    // An invalid/unsupported string should return None.
    let source = SvgSource::from_emoji("not-an-emoji");
    assert!(source.is_none());
}

#[test]
fn render_emoji_source() {
    let source = SvgSource::from_emoji("\u{1F986}").unwrap();
    let img = render_source(&source, 64);
    assert!(img.is_some(), "Should render emoji to image");

    let img = img.unwrap();
    assert!(img.width() > 0);
    assert!(img.height() > 0);
}

#[test]
fn svg_source_equality() {
    assert_eq!(SvgSource::from_svg("<svg/>"), SvgSource::Raw("<svg/>".to_string()));
    assert_ne!(
        SvgSource::Raw("a".to_string()),
        SvgSource::Emoji("a".to_string())
    );
}

#[test]
fn svg_source_into_from_string() {
    let source: SvgSource = "<svg></svg>".into();
    assert!(source.is_raw());
    assert_eq!(source.resolve().as_deref(), Some("<svg></svg>"));
}
