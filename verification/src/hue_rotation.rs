//! Hue rotation layer: rotates the hue of every non-transparent pixel and
//! publishes the dominant color of the rotated image for downstream layers.

use palette::IntoColor;
use vstd::prelude::*;

use crate::icon::{IconImage, IconView, Pixel, Raster, RasterView};
use crate::layer::{
    ChannelView, DependencyVersion, DominantColor, LayerConfig, LayerEffect, LayerVersions,
    RenderContext,
};

verus! {

// ============================================================================
// Color-space boundary
// ============================================================================

/// The RGB triple that rotating the hue of `(r, g, b)` by the given angle
/// (in thousandths of a degree) yields, through the HSL color space.
pub uninterp spec fn hue_rotated(r: u8, g: u8, b: u8, millidegrees: u32) -> (u8, u8, u8);

/// Relies on `palette`'s `Srgb`/`Hsl` conversions: the pixel is converted to
/// HSL, the angle (handed over in thousandths of a degree, converted through
/// an exact integer-pair ratio) is added to the hue, and the pixel is
/// converted back. The result depends on the arguments alone.
#[verifier::external_body]
fn rotate_pixel_hue(r: u8, g: u8, b: u8, millidegrees: u32) -> (res: (u8, u8, u8))
    ensures
        res == hue_rotated(r, g, b, millidegrees),
{
    let rgb: palette::Srgb = palette::Srgb::new(r, g, b).into_format();
    let mut hsl: palette::Hsl = rgb.into_color();
    if let Some(ratio) = resvg::tiny_skia::IntSize::from_wh(millidegrees, 1000) {
        let degrees = ratio.to_size().width() / ratio.to_size().height();
        hsl.hue += degrees;
    }
    let back: palette::Srgb = hsl.into_color();
    let out: palette::Srgb<u8> = back.into_format();
    (out.red, out.green, out.blue)
}

/// One pixel of a hue-rotated image: fully transparent pixels pass through
/// untouched, all others have their hue rotated with the alpha preserved.
pub open spec fn rotate_px_spec(p: Pixel, millidegrees: u32) -> Pixel {
    if p.a == 0 {
        p
    } else {
        let t = hue_rotated(p.r, p.g, p.b, millidegrees);
        Pixel { r: t.0, g: t.1, b: t.2, a: p.a }
    }
}

/// A raster with every pixel hue-rotated by the given angle.
pub open spec fn rotate_raster_spec(rv: RasterView, millidegrees: u32) -> RasterView {
    RasterView {
        width: rv.width,
        height: rv.height,
        pixels: Seq::new(rv.pixels.len(), |i: int| rotate_px_spec(rv.pixels[i], millidegrees)),
    }
}

// ============================================================================
// Configuration
// ============================================================================

/// Configuration for hue rotation.
///
/// Rotates the hue of all pixels by a fixed angle, kept in thousandths of a
/// degree and normalized to `[0, 360000)`.
#[derive(Clone, Copy, PartialEq, Eq, Structural, Debug)]
pub struct HueRotationConfig {
    /// Rotation angle in thousandths of a degree, within `[0, 360000)`.
    pub millidegrees: u32,
}

impl HueRotationConfig {
    /// Creates a new hue rotation config with the given angle in thousandths
    /// of a degree; the angle is normalized to `[0, 360000)` by Euclidean
    /// remainder.
    pub fn new(millidegrees: i64) -> (r: HueRotationConfig)
        ensures
            r.millidegrees == (millidegrees as int) % 360000,
    {
        if millidegrees >= 0 {
            let m = ((millidegrees as u64) % 360000) as u32;
            HueRotationConfig { millidegrees: m }
        } else {
            let k: u64 = (-(millidegrees as i128)) as u64;
            let mag: u32 = (k % 360000) as u32;
            let m: u32 = if mag == 0 {
                0
            } else {
                360000 - mag
            };
            proof {
                let ghost v = millidegrees as int;
                let ghost q = if mag == 0 {
                    -((k as int) / 360000)
                } else {
                    -((k as int) / 360000) - 1
                };
                vstd::arithmetic::div_mod::lemma_fundamental_div_mod(k as int, 360000);
                assert(v == q * 360000 + m);
                vstd::arithmetic::div_mod::lemma_fundamental_div_mod_converse_mod(
                    v,
                    360000,
                    q,
                    m as int,
                );
            }
            HueRotationConfig { millidegrees: m }
        }
    }
}

impl LayerConfig for HueRotationConfig {
    /// Two hue configurations differ when their angles differ at the stored
    /// resolution of a thousandth of a degree.
    open spec fn differs_spec(self, other: Self) -> bool {
        self.millidegrees != other.millidegrees
    }

    fn differs_from(&self, other: &Self) -> (r: bool) {
        self.millidegrees != other.millidegrees
    }
}

// ============================================================================
// Sampling
// ============================================================================

/// Alpha-weighted channel sums over one row segment `[x0, x1)` of row `y`:
/// `(sum r*a, sum g*a, sum b*a, sum a, count)` over the pixels with nonzero
/// alpha.
pub open spec fn row_sums(rv: RasterView, y: int, x0: int, x1: int) -> (int, int, int, int, int)
    decreases x1 - x0,
{
    if x0 >= x1 {
        (0, 0, 0, 0, 0)
    } else {
        let rest = row_sums(rv, y, x0, x1 - 1);
        let p = rv.pix(x1 - 1, y);
        if p.a > 0 {
            (
                rest.0 + p.r * p.a,
                rest.1 + p.g * p.a,
                rest.2 + p.b * p.a,
                rest.3 + p.a,
                rest.4 + 1,
            )
        } else {
            rest
        }
    }
}

/// Alpha-weighted channel sums over the rectangle `[x0, x1) x [y0, y1)`.
pub open spec fn rect_sums(rv: RasterView, x0: int, x1: int, y0: int, y1: int) -> (
    int,
    int,
    int,
    int,
    int,
)
    decreases y1 - y0,
{
    if y0 >= y1 {
        (0, 0, 0, 0, 0)
    } else {
        let above = rect_sums(rv, x0, x1, y0, y1 - 1);
        let row = row_sums(rv, y1 - 1, x0, x1);
        (above.0 + row.0, above.1 + row.1, above.2 + row.2, above.3 + row.3, above.4 + row.4)
    }
}

/// The clipped sample region of an image: the content bounds, cut to the
/// image dimensions.
pub open spec fn sample_region(img: IconView) -> (int, int, int, int) {
    let x0 = img.bounds.x as int;
    let x1 = if img.bounds.x + img.bounds.width <= img.raster.width {
        img.bounds.x + img.bounds.width
    } else {
        img.raster.width as int
    };
    let y0 = img.bounds.y as int;
    let y1 = if img.bounds.y + img.bounds.height <= img.raster.height {
        img.bounds.y + img.bounds.height
    } else {
        img.raster.height as int
    };
    (x0, x1, y0, y1)
}

/// The dominant color of an image: the alpha-weighted average color over its
/// content bounds, or mid gray when the region holds no visible pixel.
pub open spec fn dominant_spec(img: IconView) -> (u8, u8, u8, u8) {
    let reg = sample_region(img);
    let s = rect_sums(img.raster, reg.0, reg.1, reg.2, reg.3);
    if s.4 == 0 || s.3 == 0 {
        (128u8, 128u8, 128u8, 255u8)
    } else {
        ((s.0 / s.3) as u8, (s.1 / s.3) as u8, (s.2 / s.3) as u8, (s.3 / s.4) as u8)
    }
}

/// Extending the processed rectangle by one full row keeps the count within
/// the enclosing area.
proof fn lemma_count_rect_bound(x0: int, x1: int, y0: int, y: int)
    requires
        x0 <= x1,
        y0 <= y,
    ensures
        (x1 - x0) * (y - y0) + (x1 - x0) == (x1 - x0) * (y + 1 - y0),
{
    assert((x1 - x0) * (y - y0) + (x1 - x0) == (x1 - x0) * (y + 1 - y0)) by (nonlinear_arith);
}

/// A horizontally empty region sums to zero over any rows.
proof fn lemma_rect_sums_empty_x(rv: RasterView, x0: int, x1: int, y0: int, y1: int)
    requires
        x0 >= x1,
    ensures
        rect_sums(rv, x0, x1, y0, y1) == (0int, 0int, 0int, 0int, 0int),
    decreases y1 - y0,
{
    if y0 < y1 {
        lemma_rect_sums_empty_x(rv, x0, x1, y0, y1 - 1);
    }
}

/// Samples the dominant (alpha-weighted average) color from the icon's
/// content bounds. Returns mid gray when no pixel in the region is visible.
pub fn sample_dominant_color(icon: &IconImage) -> (res: (u8, u8, u8, u8))
    ensures
        res == dominant_spec(icon@),
{
    proof {
        use_type_invariant(&icon.data);
    }
    let w = icon.data.width();
    let h = icon.data.height();
    let bounds = icon.content_bounds;
    let x0: u32 = if bounds.x <= w {
        bounds.x
    } else {
        w
    };
    let x1: u32 = if (bounds.x as u64) + (bounds.width as u64) <= (w as u64) {
        bounds.x + bounds.width
    } else {
        w
    };
    let y0: u32 = if bounds.y <= h {
        bounds.y
    } else {
        h
    };
    let y1: u32 = if (bounds.y as u64) + (bounds.height as u64) <= (h as u64) {
        bounds.y + bounds.height
    } else {
        h
    };
    let mut total_r: u64 = 0;
    let mut total_g: u64 = 0;
    let mut total_b: u64 = 0;
    let mut total_a: u64 = 0;
    let mut count: u64 = 0;
    let mut y: u32 = y0;
    while y < y1
        invariant
            icon@.raster.wf(),
            w == icon@.raster.width,
            h == icon@.raster.height,
            x0 <= x1 <= w,
            y0 <= y <= y1 <= h,
            (total_r as int, total_g as int, total_b as int, total_a as int, count as int)
                == rect_sums(icon@.raster, x0 as int, x1 as int, y0 as int, y as int),
            total_a <= 255 * count,
            count as int <= (x1 - x0) * (y - y0),
            total_r <= 255 * total_a,
            total_g <= 255 * total_a,
            total_b <= 255 * total_a,
        decreases y1 - y,
    {
        let mut x: u32 = x0;
        while x < x1
            invariant
                icon@.raster.wf(),
                w == icon@.raster.width,
                h == icon@.raster.height,
                x0 <= x <= x1 <= w,
                y0 <= y < y1 <= h,
                ({
                    let prev = rect_sums(icon@.raster, x0 as int, x1 as int, y0 as int, y as int);
                    let row = row_sums(icon@.raster, y as int, x0 as int, x as int);
                    (total_r as int, total_g as int, total_b as int, total_a as int, count as int)
                        == (
                    prev.0 + row.0,
                    prev.1 + row.1,
                    prev.2 + row.2,
                    prev.3 + row.3,
                    prev.4 + row.4,
                    )
                }),
                total_a <= 255 * count,
                count as int <= (x1 - x0) * (y - y0) + (x - x0),
                total_r <= 255 * total_a,
                total_g <= 255 * total_a,
                total_b <= 255 * total_a,
            decreases x1 - x,
        {
            let p = icon.data.get_pixel(x, y);
            if p.a > 0 {
                proof {
                    assert((p.r as int) * (p.a as int) <= 255 * (p.a as int) && (p.g as int) * (
                    p.a as int) <= 255 * (p.a as int) && (p.b as int) * (p.a as int) <= 255 * (
                    p.a as int) && (p.r as int) * (p.a as int) >= 0 && (p.g as int) * (p.a as int)
                        >= 0 && (p.b as int) * (p.a as int) >= 0) by (nonlinear_arith)
                        requires
                            0 <= p.r <= 255,
                            0 <= p.g <= 255,
                            0 <= p.b <= 255,
                            0 < p.a <= 255,
                    ;
                    assert((x1 - x0) * (y - y0) + (x - x0) < (w as int) * (h as int))
                        by (nonlinear_arith)
                        requires
                            0 <= x1 - x0 <= w,
                            0 <= y - y0,
                            y - y0 <= h - 1,
                            x0 <= x < x1,
                            w >= 1,
                            h >= 1,
                    ;
                }
                total_r = total_r + (p.r as u64) * (p.a as u64);
                total_g = total_g + (p.g as u64) * (p.a as u64);
                total_b = total_b + (p.b as u64) * (p.a as u64);
                total_a = total_a + (p.a as u64);
                count = count + 1;
            }
            x = x + 1;
        }
        proof {
            lemma_count_rect_bound(x0 as int, x1 as int, y0 as int, y as int);
        }
        y = y + 1;
    }
    let res: (u8, u8, u8, u8) = if count == 0 || total_a == 0 {
        (128, 128, 128, 255)
    } else {
        proof {
            assert(total_r / total_a <= 255 && total_g / total_a <= 255 && total_b / total_a
                <= 255 && total_a / count <= 255) by (nonlinear_arith)
                requires
                    total_a >= 1,
                    count >= 1,
                    total_r <= 255 * total_a,
                    total_g <= 255 * total_a,
                    total_b <= 255 * total_a,
                    total_a <= 255 * count,
            ;
        }
        (
            (total_r / total_a) as u8,
            (total_g / total_a) as u8,
            (total_b / total_a) as u8,
            (total_a / count) as u8,
        )
    };
    proof {
        let reg = sample_region(icon@);
        if bounds.x <= w && bounds.y <= h {
            assert(reg.0 == x0 as int && reg.1 == x1 as int && reg.2 == y0 as int && reg.3
                == y1 as int);
        } else {
            if bounds.x > w {
                lemma_rect_sums_empty_x(icon@.raster, reg.0, reg.1, reg.2, reg.3);
                lemma_rect_sums_empty_x(icon@.raster, x0 as int, x1 as int, y0 as int, y1 as int);
            } else {
                assert(bounds.y > h);
                assert(reg.2 >= reg.3);
                assert(y0 as int >= y1 as int);
            }
        }
        assert(res == dominant_spec(icon@));
    }
    res
}

// ============================================================================
// Transformation
// ============================================================================

/// Applies hue rotation to an icon image: every pixel with nonzero alpha has
/// its hue rotated by the configured angle, alpha preserved; fully
/// transparent pixels pass through untouched.
pub fn apply_hue_rotation(icon: &IconImage, config: &HueRotationConfig) -> (r: IconImage)
    ensures
        r@ == (IconView {
            raster: rotate_raster_spec(icon@.raster, config.millidegrees),
            scale: icon@.scale,
            bounds: icon@.bounds,
        }),
{
    proof {
        use_type_invariant(&icon.data);
    }
    let w = icon.data.width();
    let h = icon.data.height();
    let total: usize = (w as usize) * (h as usize);
    let ghost goal = rotate_raster_spec(icon@.raster, config.millidegrees);
    let mut pixels: Vec<Pixel> = Vec::new();
    let mut i: usize = 0;
    proof {
        assert(pixels@ =~= goal.pixels.take(0));
    }
    while i < total
        invariant
            icon@.raster.wf(),
            w == icon@.raster.width,
            h == icon@.raster.height,
            total == (w as int) * (h as int),
            goal == rotate_raster_spec(icon@.raster, config.millidegrees),
            i <= total,
            pixels@ =~= goal.pixels.take(i as int),
        decreases total - i,
    {
        proof {
            assert(i < icon@.raster.pixels.len());
            assert((i as int) / (w as int) < h && (i as int) % (w as int) < w && w >= 1)
                by (nonlinear_arith)
                requires
                    0 <= i,
                    (i as int) < (w as int) * (h as int),
            ;
            vstd::arithmetic::div_mod::lemma_fundamental_div_mod(i as int, w as int);
            assert(((i as u32) / w) as int * (icon@.raster.width as int) + ((i as u32) % w) as int
                == i as int) by (nonlinear_arith)
                requires
                    (i as u32) as int == i as int,
                    w as int == icon@.raster.width as int,
                    w >= 1,
                    i as int == (w as int) * ((i as int) / (w as int)) + (i as int) % (w as int),
                    ((i as u32) / w) as int == (i as int) / (w as int),
                    ((i as u32) % w) as int == (i as int) % (w as int),
            ;
        }
        let p = icon.data.get_pixel((i as u32) % w, (i as u32) / w);
        let q = if p.a == 0 {
            p
        } else {
            let t = rotate_pixel_hue(p.r, p.g, p.b, config.millidegrees);
            Pixel { r: t.0, g: t.1, b: t.2, a: p.a }
        };
        proof {
            assert(q == goal.pixels[i as int]);
            assert(pixels@.push(q) =~= goal.pixels.take(i + 1));
        }
        pixels.push(q);
        i = i + 1;
    }
    proof {
        assert(pixels@ =~= goal.pixels);
    }
    let data = Raster::from_pixels(w, h, pixels);
    let r = IconImage { data, scale: icon.scale, content_bounds: icon.content_bounds };
    proof {
        assert(r@.raster =~= goal);
    }
    r
}

impl LayerEffect for HueRotationConfig {
    /// Hue rotation has no upstream dependencies (root layer).
    open spec fn deps_spec(versions: LayerVersions) -> u64 {
        0
    }

    /// The image is hue-rotated; the property slots are untouched.
    open spec fn transform_spec(self, c: ChannelView) -> ChannelView {
        ChannelView {
            image: IconView {
                raster: rotate_raster_spec(c.image.raster, self.millidegrees),
                scale: c.image.scale,
                bounds: c.image.bounds,
            },
            dominant: c.dominant,
        }
    }

    /// The dominant color of the current (already rotated) image is
    /// published for downstream layers.
    open spec fn emit_spec(self, c: ChannelView) -> ChannelView {
        let d = dominant_spec(c.image);
        ChannelView {
            image: c.image,
            dominant: Some(DominantColor { r: d.0, g: d.1, b: d.2, a: d.3 }),
        }
    }

    fn dependencies(versions: &LayerVersions) -> (r: DependencyVersion) {
        DependencyVersion::none()
    }

    fn transform(&self, ctx: &mut RenderContext) {
        let rotated = apply_hue_rotation(ctx.image(), self);
        ctx.set_image(rotated);
    }

    fn emit(&self, ctx: &mut RenderContext) {
        let color = sample_dominant_color(ctx.image());
        ctx.set(DominantColor::new(color.0, color.1, color.2, color.3));
    }
}

} // verus!
