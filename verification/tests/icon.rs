use folco_renderer::{IconImage, IconSet, Raster, RectPx, SizePx};

#[test]
fn rect_px_new() {
    let rect = RectPx::new(10, 20, 100, 200);
    assert_eq!(rect.x, 10);
    assert_eq!(rect.y, 20);
    assert_eq!(rect.width, 100);
    assert_eq!(rect.height, 200);
    assert_eq!(rect.right(), 110);
    assert_eq!(rect.bottom(), 220);
}

#[test]
fn size_px_is_square() {
    assert!(SizePx::new(100, 100).is_square());
    assert!(!SizePx::new(100, 200).is_square());
}

#[test]
fn icon_image_logical_size() {
    let img = IconImage::new_full_content(Raster::new(64, 64), 200);
    let (w, h) = img.logical_size();
    assert_eq!(w, 32);
    assert_eq!(h, 32);
}

#[test]
fn icon_set_operations() {
    let mut set = IconSet::new();
    assert!(set.is_empty());

    set.add_image(IconImage::new_full_content(Raster::new(16, 16), 100));
    set.add_image(IconImage::new_full_content(Raster::new(32, 32), 100));

    assert_eq!(set.len(), 2);
    assert!(!set.is_empty());

    // Find closest to a logical size of 20.
    let found = set.find_by_logical_size(20).unwrap();
    // Should find the 16x16 since |16-20| < |32-20|.
    assert_eq!(found.dimensions().width, 16);
}

#[test]
fn find_in_empty_set_is_none() {
    let set = IconSet::new();
    assert!(set.find_by_logical_size(16).is_none());
}

#[test]
fn find_prefers_scaled_variant() {
    let mut set = IconSet::new();
    // 64x64 at 2x has a logical width of 32; 16x16 at 1x has 16.
    set.add_image(IconImage::new_full_content(Raster::new(16, 16), 100));
    set.add_image(IconImage::new_full_content(Raster::new(64, 64), 200));
    let found = set.find_by_logical_size(30).unwrap();
    assert_eq!(found.dimensions().width, 64);
}

#[test]
fn find_ties_break_toward_first() {
    let mut set = IconSet::new();
    // Both entries lie at distance 2 from the requested size 18.
    set.add_image(IconImage::new_full_content(Raster::new(16, 16), 100));
    set.add_image(IconImage::new_full_content(Raster::new(20, 20), 100));
    let found = set.find_by_logical_size(18).unwrap();
    assert_eq!(found.dimensions().width, 16);
}

#[test]
fn raster_pixel_roundtrip() {
    let mut r = Raster::new(4, 4);
    assert_eq!(r.get_pixel(1, 2).a, 0);
    r.put_pixel(1, 2, folco_renderer::Pixel::new(9, 8, 7, 6));
    let p = r.get_pixel(1, 2);
    assert_eq!((p.r, p.g, p.b, p.a), (9, 8, 7, 6));
    // Neighbors are untouched.
    assert_eq!(r.get_pixel(2, 2).a, 0);
}
