//! Icon types: pixels, raster buffers, and sized icon collections.
//!
//! A raster image is a flat RGBA pixel buffer together with a display scale
//! factor and a content-bounds rectangle (the sub-region holding the actual
//! artwork, excluding padding). The display scale is kept in hundredths, so
//! `100` stands for 1x and `200` for 2x; the logical size of an icon is its
//! pixel size divided by the scale.

use vstd::prelude::*;

verus! {

/// One RGBA pixel, 8 bits per channel.
#[derive(Clone, Copy, PartialEq, Eq, Structural, Debug)]
pub struct Pixel {
    pub r: u8,
    pub g: u8,
    pub b: u8,
    pub a: u8,
}

impl Pixel {
    pub fn new(r: u8, g: u8, b: u8, a: u8) -> (p: Pixel)
        ensures
            p == (Pixel { r, g, b, a }),
    {
        Pixel { r, g, b, a }
    }

    /// The fully transparent black pixel.
    pub fn clear() -> (p: Pixel)
        ensures
            p == (Pixel { r: 0u8, g: 0u8, b: 0u8, a: 0u8 }),
    {
        Pixel { r: 0, g: 0, b: 0, a: 0 }
    }
}

/// Mathematical view of a raster buffer: dimensions plus a row-major pixel
/// sequence of length `width * height`.
pub ghost struct RasterView {
    pub width: nat,
    pub height: nat,
    pub pixels: Seq<Pixel>,
}

impl RasterView {
    /// The pixel at column `x` of row `y`.
    pub open spec fn pix(self, x: int, y: int) -> Pixel {
        self.pixels[y * self.width + x]
    }

    pub open spec fn wf(self) -> bool {
        &&& self.pixels.len() == self.width * self.height
        &&& self.width * self.height <= 0xFFFF_FFFF
    }
}

/// An RGBA raster buffer in row-major order.
#[derive(Debug)]
pub struct Raster {
    width: u32,
    height: u32,
    pixels: Vec<Pixel>,
}

impl View for Raster {
    type V = RasterView;

    closed spec fn view(&self) -> RasterView {
        RasterView { width: self.width as nat, height: self.height as nat, pixels: self.pixels@ }
    }
}

impl Raster {
    #[verifier::type_invariant]
    pub(crate) open spec fn type_wf(self) -> bool {
        self@.wf()
    }

    /// Creates a `width` by `height` buffer filled with transparent black.
    ///
    /// The total pixel count is bounded so that later arithmetic over the
    /// buffer cannot overflow the machine integers it is done in.
    pub fn new(width: u32, height: u32) -> (r: Raster)
        requires
            width * height <= 0xFFFF_FFFF,
        ensures
            r@.width == width,
            r@.height == height,
            r@.pixels == Seq::new((width * height) as nat, |i: int| Pixel { r: 0u8, g: 0u8, b: 0u8, a: 0u8 }),
    {
        let count: usize = (width as usize) * (height as usize);
        let mut pixels: Vec<Pixel> = Vec::new();
        let mut i: usize = 0;
        while i < count
            invariant
                i <= count,
                count == width * height,
                pixels@ =~= Seq::new(i as nat, |k: int| Pixel { r: 0u8, g: 0u8, b: 0u8, a: 0u8 }),
            decreases count - i,
        {
            pixels.push(Pixel { r: 0, g: 0, b: 0, a: 0 });
            i = i + 1;
        }
        proof {
            assert(pixels@ =~= Seq::new((width * height) as nat, |k: int| Pixel { r: 0u8, g: 0u8, b: 0u8, a: 0u8 }));
        }
        Raster { width, height, pixels }
    }

    /// Creates a buffer from an explicit pixel vector.
    pub fn from_pixels(width: u32, height: u32, pixels: Vec<Pixel>) -> (r: Raster)
        requires
            pixels@.len() == width * height,
            width * height <= 0xFFFF_FFFF,
        ensures
            r@ == (RasterView { width: width as nat, height: height as nat, pixels: pixels@ }),
    {
        Raster { width, height, pixels }
    }

    pub fn width(&self) -> (w: u32)
        ensures
            w == self@.width,
    {
        self.width
    }

    pub fn height(&self) -> (h: u32)
        ensures
            h == self@.height,
    {
        self.height
    }

    /// Reads the pixel at `(x, y)`.
    pub fn get_pixel(&self, x: u32, y: u32) -> (p: Pixel)
        requires
            x < self@.width,
            y < self@.height,
        ensures
            p == self@.pix(x as int, y as int),
    {
        proof {
            use_type_invariant(self);
            lemma_row_major_index(self@, x as int, y as int);
        }
        let idx: usize = (y as usize) * (self.width as usize) + (x as usize);
        self.pixels[idx]
    }

    /// Replaces the pixel at `(x, y)`.
    pub fn put_pixel(&mut self, x: u32, y: u32, p: Pixel)
        requires
            x < old(self)@.width,
            y < old(self)@.height,
        ensures
            final(self)@.width == old(self)@.width,
            final(self)@.height == old(self)@.height,
            final(self)@.pixels == old(self)@.pixels.update(y * old(self)@.width + x, p),
    {
        proof {
            use_type_invariant(&*self);
            lemma_row_major_index(self@, x as int, y as int);
        }
        let idx: usize = (y as usize) * (self.width as usize) + (x as usize);
        self.pixels[idx] = p;
    }
}

impl Clone for Raster {
    fn clone(&self) -> (r: Self)
        ensures
            r@ == self@,
    {
        proof {
            use_type_invariant(self);
        }
        let mut pixels: Vec<Pixel> = Vec::new();
        let mut i: usize = 0;
        while i < self.pixels.len()
            invariant
                i <= self.pixels@.len(),
                pixels@ =~= self.pixels@.take(i as int),
            decreases self.pixels@.len() - i,
        {
            pixels.push(self.pixels[i]);
            i = i + 1;
        }
        proof {
            assert(pixels@ =~= self.pixels@);
        }
        Raster { width: self.width, height: self.height, pixels }
    }
}

/// A row-major index `y * width + x` stays inside a well-formed buffer.
proof fn lemma_row_major_index(rv: RasterView, x: int, y: int)
    requires
        rv.wf(),
        0 <= x < rv.width,
        0 <= y < rv.height,
    ensures
        0 <= y * rv.width + x < rv.pixels.len(),
{
    assert(y * rv.width + x < rv.height * rv.width) by (nonlinear_arith)
        requires
            0 <= x < rv.width,
            0 <= y < rv.height,
    ;
    assert(rv.height * rv.width == rv.width * rv.height) by (nonlinear_arith);
    assert(y * rv.width >= 0) by (nonlinear_arith)
        requires
            y >= 0,
            rv.width >= 0,
    ;
}

/// A rectangle in pixel coordinates.
///
/// Used to mark regions within an image, such as the content bounds holding
/// the actual icon artwork (excluding padding and margins).
#[derive(Clone, Copy, PartialEq, Eq, Structural, Debug)]
pub struct RectPx {
    /// X offset from the left edge of the image.
    pub x: u32,
    /// Y offset from the top edge of the image.
    pub y: u32,
    /// Width of the rectangle.
    pub width: u32,
    /// Height of the rectangle.
    pub height: u32,
}

impl RectPx {
    /// Creates a new rectangle with the given position and dimensions.
    pub fn new(x: u32, y: u32, width: u32, height: u32) -> (r: RectPx)
        ensures
            r == (RectPx { x, y, width, height }),
    {
        RectPx { x, y, width, height }
    }

    /// Creates a rectangle at the origin with the given dimensions.
    pub fn from_size(width: u32, height: u32) -> (r: RectPx)
        ensures
            r == (RectPx { x: 0u32, y: 0u32, width, height }),
    {
        RectPx { x: 0, y: 0, width, height }
    }

    /// Returns the right edge coordinate (`x + width`).
    pub fn right(&self) -> (r: u32)
        requires
            self.x + self.width <= u32::MAX,
        ensures
            r == self.x + self.width,
    {
        self.x + self.width
    }

    /// Returns the bottom edge coordinate (`y + height`).
    pub fn bottom(&self) -> (r: u32)
        requires
            self.y + self.height <= u32::MAX,
        ensures
            r == self.y + self.height,
    {
        self.y + self.height
    }
}

impl Default for RectPx {
    fn default() -> (r: Self)
        ensures
            r == (RectPx { x: 0u32, y: 0u32, width: 0u32, height: 0u32 }),
    {
        RectPx { x: 0, y: 0, width: 0, height: 0 }
    }
}

/// A 2D size in pixel units.
#[derive(Clone, Copy, PartialEq, Eq, Structural, Debug)]
pub struct SizePx {
    pub width: u32,
    pub height: u32,
}

impl SizePx {
    pub fn new(width: u32, height: u32) -> (s: SizePx)
        ensures
            s == (SizePx { width, height }),
    {
        SizePx { width, height }
    }

    /// Returns true if width equals height.
    pub fn is_square(&self) -> (b: bool)
        ensures
            b == (self.width == self.height),
    {
        self.width == self.height
    }
}

impl Default for SizePx {
    fn default() -> (s: Self)
        ensures
            s == (SizePx { width: 0u32, height: 0u32 }),
    {
        SizePx { width: 0, height: 0 }
    }
}

/// Mathematical view of an icon image: the raster contents plus its display
/// scale (in hundredths) and content bounds.
pub ghost struct IconView {
    pub raster: RasterView,
    pub scale: u32,
    pub bounds: RectPx,
}

impl IconView {
    pub open spec fn wf(self) -> bool {
        &&& self.raster.wf()
        &&& self.scale >= 1
    }
}

/// A single icon image with its associated metadata.
///
/// Icon sets typically contain multiple images at different sizes and scales,
/// such as 1x and 2x resolution variants of the same artwork.
#[derive(Debug)]
pub struct IconImage {
    /// The image data in RGBA format.
    pub data: Raster,
    /// The display scale factor in hundredths: `100` for 1x, `200` for 2x.
    ///
    /// The logical size of the icon is its pixel size divided by the scale.
    pub scale: u32,
    /// The region within the image that contains the actual icon content.
    ///
    /// If the icon fills the entire image, this equals
    /// `RectPx::from_size(width, height)`.
    pub content_bounds: RectPx,
}

impl View for IconImage {
    type V = IconView;

    open spec fn view(&self) -> IconView {
        IconView { raster: self.data@, scale: self.scale, bounds: self.content_bounds }
    }
}

impl IconImage {
    /// Creates a new icon image with the given data and metadata.
    pub fn new(data: Raster, scale: u32, content_bounds: RectPx) -> (r: IconImage)
        requires
            scale >= 1,
        ensures
            r@ == (IconView { raster: data@, scale, bounds: content_bounds }),
    {
        IconImage { data, scale, content_bounds }
    }

    /// Creates a new icon image assuming content fills the entire image.
    pub fn new_full_content(data: Raster, scale: u32) -> (r: IconImage)
        requires
            scale >= 1,
        ensures
            r@ == (IconView {
                raster: data@,
                scale,
                bounds: RectPx {
                    x: 0u32,
                    y: 0u32,
                    width: data@.width as u32,
                    height: data@.height as u32,
                },
            }),
    {
        let content_bounds = RectPx::from_size(data.width(), data.height());
        Self::new(data, scale, content_bounds)
    }

    /// Returns the pixel dimensions of the image.
    pub fn dimensions(&self) -> (s: SizePx)
        ensures
            s.width == self@.raster.width,
            s.height == self@.raster.height,
    {
        SizePx::new(self.data.width(), self.data.height())
    }

    /// Returns the logical size of the icon in whole logical pixels,
    /// truncated toward zero.
    ///
    /// For a 64x64 icon at scale 200 (2x), the logical size is (32, 32).
    pub fn logical_size(&self) -> (r: (u64, u64))
        requires
            self@.scale >= 1,
        ensures
            r.0 == 100 * self@.raster.width as int / self@.scale as int,
            r.1 == 100 * self@.raster.height as int / self@.scale as int,
    {
        let w: u64 = 100u64 * (self.data.width() as u64) / (self.scale as u64);
        let h: u64 = 100u64 * (self.data.height() as u64) / (self.scale as u64);
        (w, h)
    }
}

impl Clone for IconImage {
    fn clone(&self) -> (r: Self)
        ensures
            r@ == self@,
    {
        IconImage { data: self.data.clone(), scale: self.scale, content_bounds: self.content_bounds }
    }
}

/// The absolute value of an integer.
pub open spec fn abs_int(x: int) -> int {
    if x >= 0 {
        x
    } else {
        -x
    }
}

/// Numerator of the distance between an icon's logical width and a requested
/// logical size; the denominator is the icon's scale. Everything is kept in
/// hundredths so the comparison is exact.
pub open spec fn logical_dist_num(img: IconView, target: u32) -> int {
    abs_int(100 * img.raster.width - target * img.scale)
}

/// Exact comparison of the two rational distances `a` and `b` have from the
/// requested logical size, by cross multiplication.
pub open spec fn strictly_closer(a: IconView, b: IconView, target: u32) -> bool {
    logical_dist_num(a, target) * b.scale < logical_dist_num(b, target) * a.scale
}

/// The image at index `i` is the first of the set whose logical width is
/// nearest the requested size: no image is strictly closer, and every earlier
/// image is strictly farther.
pub open spec fn nearest_at(s: Seq<IconImage>, target: u32, i: int) -> bool {
    &&& 0 <= i < s.len()
    &&& forall|j: int| 0 <= j < s.len() ==> !strictly_closer(#[trigger] s[j]@, s[i]@, target)
    &&& forall|j: int| 0 <= j < i ==> strictly_closer(s[i]@, #[trigger] s[j]@, target)
}

/// Comparison by cross multiplication is transitive for nonnegative
/// numerators and positive denominators: if `k` is strictly closer than
/// `b`, and `j` is not strictly closer than `b`, then `k` is strictly
/// closer than `j`.
proof fn lemma_closer_trans(dj: int, sj: int, db: int, sb: int, dk: int, sk: int)
    requires
        dj >= 0 && db >= 0 && dk >= 0,
        sj >= 1 && sb >= 1 && sk >= 1,
        dk * sb < db * sk,
        dj * sb >= db * sj,
    ensures
        dk * sj < dj * sk,
{
    assert(dk * sj < dj * sk) by (nonlinear_arith)
        requires
            dj >= 0 && db >= 0 && dk >= 0,
            sj >= 1 && sb >= 1 && sk >= 1,
            dk * sb < db * sk,
            dj * sb >= db * sj,
    ;
}

/// The nearest index is unique: two indices that both satisfy `nearest_at`
/// are equal, so repeated searches with an unchanged set and size choose the
/// same image.
pub proof fn lemma_nearest_unique(s: Seq<IconImage>, target: u32, i: int, j: int)
    requires
        nearest_at(s, target, i),
        nearest_at(s, target, j),
    ensures
        i == j,
{
    if i < j {
        assert(strictly_closer(s[j]@, s[i]@, target));
        assert(!strictly_closer(s[j]@, s[i]@, target));
    }
    if j < i {
        assert(strictly_closer(s[i]@, s[j]@, target));
        assert(!strictly_closer(s[i]@, s[j]@, target));
    }
}

/// A collection of icon images representing one icon at various sizes and
/// scales.
#[derive(Debug)]
pub struct IconSet {
    /// The individual icon images, typically at various sizes/scales.
    pub images: Vec<IconImage>,
}

impl IconSet {
    /// Every image in the set is well formed (in particular, has a positive
    /// display scale).
    pub open spec fn wf(self) -> bool {
        forall|i: int| 0 <= i < self.images@.len() ==> (#[trigger] self.images@[i])@.wf()
    }
    /// Creates a new empty icon set.
    pub fn new() -> (r: IconSet)
        ensures
            r.images@.len() == 0,
    {
        IconSet { images: Vec::new() }
    }

    /// Creates an icon set from a vector of images.
    pub fn from_images(images: Vec<IconImage>) -> (r: IconSet)
        ensures
            r.images == images,
    {
        IconSet { images }
    }

    /// Adds an image to the icon set.
    pub fn add_image(&mut self, image: IconImage)
        ensures
            final(self).images@ == old(self).images@.push(image),
    {
        self.images.push(image);
    }

    /// Returns the number of images in the set.
    pub fn len(&self) -> (n: usize)
        ensures
            n == self.images@.len(),
    {
        self.images.len()
    }

    /// Returns true if the icon set contains no images.
    pub fn is_empty(&self) -> (b: bool)
        ensures
            b == (self.images@.len() == 0),
    {
        self.images.len() == 0
    }

    /// Finds the image whose logical width is nearest the requested logical
    /// size. Distances are compared exactly; ties are broken in favor of the
    /// earliest image in the set. Returns nothing only when the set is empty.
    pub fn find_by_logical_size(&self, target_size: u32) -> (r: Option<&IconImage>)
        requires
            self.wf(),
        ensures
            match r {
                None => self.images@.len() == 0,
                Some(img) => exists|i: int| nearest_at(self.images@, target_size, i) && *img == self.images@[i],
            },
    {
        if self.images.len() == 0 {
            return None;
        }
        let mut best: usize = 0;
        let mut k: usize = 1;
        while k < self.images.len()
            invariant
                self.wf(),
                1 <= k <= self.images@.len(),
                best < k,
                forall|j: int| 0 <= j < k ==> !strictly_closer(#[trigger] self.images@[j]@, self.images@[best as int]@, target_size),
                forall|j: int| 0 <= j < best ==> strictly_closer(self.images@[best as int]@, #[trigger] self.images@[j]@, target_size),
            decreases self.images@.len() - k,
        {
            if Self::closer(&self.images[k], &self.images[best], target_size) {
                proof {
                    let s = self.images@;
                    let b0 = best as int;
                    let ki = k as int;
                    assert forall|j: int| 0 <= j < ki implies strictly_closer(s[ki]@, #[trigger] s[j]@, target_size) by {
                        lemma_closer_trans(
                            logical_dist_num(s[j]@, target_size),
                            s[j]@.scale as int,
                            logical_dist_num(s[b0]@, target_size),
                            s[b0]@.scale as int,
                            logical_dist_num(s[ki]@, target_size),
                            s[ki]@.scale as int,
                        );
                    }
                }
                best = k;
            }
            k = k + 1;
        }
        Some(&self.images[best])
    }

    /// Exact test of whether `a` lies strictly closer to the requested logical
    /// size than `b` does.
    fn closer(a: &IconImage, b: &IconImage, target: u32) -> (r: bool)
        ensures
            r == strictly_closer(a@, b@, target),
    {
        let da: u64 = Self::dist_num(a, target);
        let db: u64 = Self::dist_num(b, target);
        proof {
            assert((da as int) * (b.scale as int) <= (u64::MAX as int) * (u32::MAX as int)
                && (db as int) * (a.scale as int) <= (u64::MAX as int) * (u32::MAX as int)) by (nonlinear_arith)
                requires
                    0 <= da <= u64::MAX,
                    0 <= db <= u64::MAX,
                    0 <= a.scale <= u32::MAX,
                    0 <= b.scale <= u32::MAX,
            ;
        }
        (da as u128) * (b.scale as u128) < (db as u128) * (a.scale as u128)
    }

    /// Numerator of an icon's distance from the requested logical size.
    fn dist_num(img: &IconImage, target: u32) -> (r: u64)
        ensures
            r == logical_dist_num(img@, target),
    {
        let lw: u64 = 100u64 * (img.data.width() as u64);
        proof {
            assert((target as int) * (img.scale as int) <= (u32::MAX as int) * (u32::MAX as int)
                && (target as int) * (img.scale as int) >= 0) by (nonlinear_arith)
                requires
                    0 <= target <= u32::MAX,
                    0 <= img.scale <= u32::MAX,
            ;
        }
        let ts: u64 = (target as u64) * (img.scale as u64);
        if lw >= ts {
            lw - ts
        } else {
            ts - lw
        }
    }
}

impl Default for IconSet {
    fn default() -> (r: Self)
        ensures
            r.images@.len() == 0,
    {
        IconSet { images: Vec::new() }
    }
}

} // verus!
