//! Vector-source handling and raster primitives.
//!
//! This module holds the markup sources a decal or overlay can be given, the
//! textual color-substitution routine used for monochrome recoloring, the
//! rasterizer boundary, and the pixel-level primitives: source-over alpha
//! compositing and premultiplied-alpha unpremultiplication. The compositing
//! and unpremultiplication arithmetic is exact: every channel is computed as
//! the correctly rounded value of the rational formula, carried out in
//! integers.

use resvg::tiny_skia::{IntSize, Pixmap, Transform};
use resvg::usvg;
use vstd::prelude::*;
use vstd::string::{StrSliceExecFns, StringExecFns};
use vstd::utf8::encode_utf8;

use crate::icon::{Pixel, Raster, RasterView};

verus! {

// ============================================================================
// Alpha blending
// ============================================================================

/// The correctly rounded value of `n / d` (round half up), for `d >= 1`.
pub open spec fn div_round(n: int, d: int) -> int {
    (2 * n + d) / (2 * d)
}

/// The coverage term `255*sa + da*(255 - sa)`, which is `out_a * 255^2` for
/// the source-over formula in normalized channel space. It is zero exactly
/// when both alphas are zero.
pub open spec fn blend_cover(sa: int, da: int) -> int {
    255 * sa + da * (255 - sa)
}

/// One output channel of the source-over blend, rounded exactly:
/// `(s*sa + d*da*(1-sa)) / out_a`, scaled back to bytes.
pub open spec fn blend_channel(sc: int, dc: int, sa: int, da: int) -> int {
    div_round(255 * sc * sa + dc * da * (255 - sa), blend_cover(sa, da))
}

/// Source-over alpha blend of two RGBA pixels, in exact rational
/// arithmetic: `out_a = sa + da*(1 - sa)`, and each channel is
/// `(s*sa + d*da*(1-sa)) / out_a` when `out_a > 0`, else transparent black.
pub open spec fn blend_spec(s: Pixel, d: Pixel) -> Pixel {
    let sa = s.a as int;
    let da = d.a as int;
    if blend_cover(sa, da) == 0 {
        Pixel { r: 0u8, g: 0u8, b: 0u8, a: 0u8 }
    } else {
        Pixel {
            r: blend_channel(s.r as int, d.r as int, sa, da) as u8,
            g: blend_channel(s.g as int, d.g as int, sa, da) as u8,
            b: blend_channel(s.b as int, d.b as int, sa, da) as u8,
            a: div_round(255 * blend_cover(sa, da), 65025int) as u8,
        }
    }
}

/// A blended channel stays within a byte.
proof fn lemma_blend_channel_bounds(sc: int, dc: int, sa: int, da: int)
    requires
        0 <= sc <= 255,
        0 <= dc <= 255,
        0 <= sa <= 255,
        0 <= da <= 255,
        blend_cover(sa, da) >= 1,
    ensures
        0 <= blend_channel(sc, dc, sa, da) <= 255,
        blend_cover(sa, da) <= 65025,
{
    let cover = blend_cover(sa, da);
    let n = 255 * sc * sa + dc * da * (255 - sa);
    assert(0 <= n <= 255 * cover && cover <= 65025) by (nonlinear_arith)
        requires
            0 <= sc <= 255,
            0 <= dc <= 255,
            0 <= sa <= 255,
            0 <= da <= 255,
            cover == 255 * sa + da * (255 - sa),
            n == 255 * sc * sa + dc * da * (255 - sa),
    ;
    assert(0 <= (2 * n + cover) / (2 * cover) <= 255) by (nonlinear_arith)
        requires
            cover >= 1,
            0 <= n <= 255 * cover,
    ;
}

/// Alpha blends two RGBA pixels (source over destination).
pub fn alpha_blend(src: Pixel, dst: Pixel) -> (r: Pixel)
    ensures
        r == blend_spec(src, dst),
{
    let sa: u64 = src.a as u64;
    let da: u64 = dst.a as u64;
    proof {
        assert(da * (255 - sa) <= 65025) by (nonlinear_arith)
            requires
                da <= 255,
                sa <= 255,
        ;
    }
    let cover: u64 = 255 * sa + da * (255 - sa);
    if cover == 0 {
        return Pixel { r: 0, g: 0, b: 0, a: 0 };
    }
    proof {
        lemma_blend_channel_bounds(src.r as int, dst.r as int, sa as int, da as int);
        lemma_blend_channel_bounds(src.g as int, dst.g as int, sa as int, da as int);
        lemma_blend_channel_bounds(src.b as int, dst.b as int, sa as int, da as int);
    }
    let r = blend_channel_exec(src.r, dst.r, sa, da, cover);
    let g = blend_channel_exec(src.g, dst.g, sa, da, cover);
    let b = blend_channel_exec(src.b, dst.b, sa, da, cover);
    proof {
        assert(cover <= 65025);
    }
    let a64: u64 = (2 * (255 * cover) + 65025) / (2 * 65025);
    proof {
        assert(a64 == div_round(255 * blend_cover(sa as int, da as int), 65025int));
        assert(a64 <= 255) by (nonlinear_arith)
            requires
                cover <= 65025,
                a64 == (2 * (255 * (cover as int)) + 65025) / 130050,
        ;
    }
    Pixel { r, g, b, a: a64 as u8 }
}

/// One exactly rounded channel of the source-over blend.
fn blend_channel_exec(sc: u8, dc: u8, sa: u64, da: u64, cover: u64) -> (r: u8)
    requires
        sa <= 255,
        da <= 255,
        cover == blend_cover(sa as int, da as int),
        cover >= 1,
    ensures
        r == blend_channel(sc as int, dc as int, sa as int, da as int),
{
    proof {
        lemma_blend_channel_bounds(sc as int, dc as int, sa as int, da as int);
        assert(255 * (sc as int) * (sa as int) <= 16581375
            && (dc as int) * (da as int) <= 65025
            && (dc as int) * (da as int) * (255 - sa as int) <= 16581375) by (nonlinear_arith)
            requires
                sc <= 255,
                dc <= 255,
                sa <= 255,
                da <= 255,
        ;
    }
    let n: u64 = 255 * (sc as u64) * sa + (dc as u64) * da * (255 - sa);
    let out: u64 = (2 * n + cover) / (2 * cover);
    proof {
        assert(out == blend_channel(sc as int, dc as int, sa as int, da as int));
    }
    out as u8
}

// ============================================================================
// Compositing
// ============================================================================

/// Whether destination position `(dx, dy)` is covered by a source raster of
/// the given dimensions placed at `(x, y)`.
pub open spec fn covers(src: RasterView, x: int, y: int, dx: int, dy: int) -> bool {
    x <= dx < x + src.width && y <= dy < y + src.height
}

/// The result of compositing `src` over `dst` at offset `(x, y)`: covered
/// destination pixels are blended source-over, pixels outside the source
/// (or with the source clipped off the destination) are left untouched.
pub open spec fn composite_spec(dst: RasterView, src: RasterView, x: int, y: int) -> RasterView {
    RasterView {
        width: dst.width,
        height: dst.height,
        pixels: Seq::new(
            dst.pixels.len(),
            |i: int|
                {
                    let dx = i % dst.width as int;
                    let dy = i / dst.width as int;
                    if covers(src, x, y, dx, dy) {
                        blend_spec(src.pix(dx - x, dy - y), dst.pixels[i])
                    } else {
                        dst.pixels[i]
                    }
                },
        ),
    }
}

/// Composites a source image onto a destination image at the specified
/// position, using source-over alpha blending. Source pixels falling
/// outside the destination bounds are clipped.
pub fn composite_over(dest: &mut Raster, src: &Raster, x: i64, y: i64)
    ensures
        final(dest)@ == composite_spec(old(dest)@, src@, x as int, y as int),
{
    proof {
        use_type_invariant(&*dest);
    }
    let dw = dest.width();
    let dh = dest.height();
    let total: usize = (dw as usize) * (dh as usize);
    let ghost spec_out = composite_spec(dest@, src@, x as int, y as int);
    let mut out: Vec<Pixel> = Vec::new();
    let mut i: usize = 0;
    while i < total
        invariant
            total == dw * dh,
            dw == dest@.width,
            dh == dest@.height,
            dest@ == old(dest)@,
            dest@.wf(),
            i <= total,
            spec_out == composite_spec(dest@, src@, x as int, y as int),
            out@ =~= spec_out.pixels.take(i as int),
        decreases total - i,
    {
        proof {
            assert(dw >= 1 && (i as int) / (dw as int) < dh && (i as int) % (dw as int) < dw)
                by (nonlinear_arith)
                requires
                    0 <= i,
                    (i as int) < (dw as int) * (dh as int),
            ;
            vstd::arithmetic::div_mod::lemma_fundamental_div_mod(i as int, dw as int);
        }
        let dx: u32 = (i as u32) % dw;
        let dy: u32 = (i as u32) / dw;
        let p = dest.get_pixel(dx, dy);
        let dxw: i128 = dx as i128;
        let dyw: i128 = dy as i128;
        let xw: i128 = x as i128;
        let yw: i128 = y as i128;
        let cov = xw <= dxw && dxw < xw + (src.width() as i128) && yw <= dyw && dyw < yw
            + (src.height() as i128);
        let q = if cov {
            let sx = (dxw - xw) as u32;
            let sy = (dyw - yw) as u32;
            alpha_blend(src.get_pixel(sx, sy), p)
        } else {
            p
        };
        proof {
            assert(i as int == (dw as int) * ((i as int) / (dw as int)) + (i as int) % (dw as int));
            assert((i as u32) as int == i as int);
            assert(dy as int == (i as int) / (dw as int));
            assert(dx as int == (i as int) % (dw as int));
            assert((dy as int) * (dest@.width as int) + (dx as int) == i as int) by (nonlinear_arith)
                requires
                    dy as int == (i as int) / (dw as int),
                    dx as int == (i as int) % (dw as int),
                    dw as int == dest@.width as int,
                    i as int == (dw as int) * ((i as int) / (dw as int)) + (i as int) % (dw as int),
            ;
            assert(p == dest@.pixels[i as int]);
            assert(cov == covers(src@, x as int, y as int, dx as int, dy as int));
            if cov {
                assert(src@.pix(dx - x as int, dy - y as int) == src@.pix(((dxw - xw) as u32) as int, ((dyw - yw) as u32) as int));
            }
            assert(q == spec_out.pixels[i as int]);
            assert(out@.push(q) =~= spec_out.pixels.take(i + 1));
        }
        out.push(q);
        i = i + 1;
    }
    proof {
        assert(out@ =~= spec_out.pixels.take(total as int));
        assert(spec_out.pixels.take(total as int) =~= spec_out.pixels);
    }
    let result = Raster::from_pixels(dw, dh, out);
    proof {
        assert(result@.pixels =~= spec_out.pixels);
        assert(result@ == spec_out);
    }
    *dest = result;
}

/// The coordinate that centers an item of the given extent within a span
/// starting at `base`: half the difference, rounded toward zero, as the
/// offset from `base`.
pub open spec fn center_offset(base: int, span: int, item: int) -> int {
    if span >= item {
        base + (span - item) / 2
    } else {
        base - (item - span) / 2
    }
}

/// Computes the centering coordinate in machine integers.
pub fn center_coord(base: u32, span: u32, item: u32) -> (r: i64)
    ensures
        r == center_offset(base as int, span as int, item as int),
{
    if span >= item {
        (base as i64) + (((span - item) / 2) as i64)
    } else {
        (base as i64) - (((item - span) / 2) as i64)
    }
}

// ============================================================================
// Unpremultiplication
// ============================================================================

/// Unpremultiplies one premultiplied-alpha pixel: transparent pixels become
/// transparent black, otherwise each channel is divided by the normalized
/// alpha, correctly rounded, and clamped to 255.
pub open spec fn unpremul_spec(r: u8, g: u8, b: u8, a: u8) -> Pixel {
    if a == 0 {
        Pixel { r: 0u8, g: 0u8, b: 0u8, a: 0u8 }
    } else {
        Pixel {
            r: unpremul_channel(r as int, a as int) as u8,
            g: unpremul_channel(g as int, a as int) as u8,
            b: unpremul_channel(b as int, a as int) as u8,
            a,
        }
    }
}

/// One unpremultiplied channel: `round(c * 255 / a)`, clamped to 255.
pub open spec fn unpremul_channel(c: int, a: int) -> int {
    let v = div_round(255 * c, a);
    if v > 255 {
        255
    } else {
        v
    }
}

/// Unpremultiplies a premultiplied alpha pixel.
pub fn unpremultiply(r: u8, g: u8, b: u8, a: u8) -> (res: (u8, u8, u8, u8))
    ensures
        unpremul_spec(r, g, b, a) == (Pixel { r: res.0, g: res.1, b: res.2, a: res.3 }),
{
    if a == 0 {
        (0, 0, 0, 0)
    } else {
        (
            unpremultiply_channel(r, a),
            unpremultiply_channel(g, a),
            unpremultiply_channel(b, a),
            a,
        )
    }
}

/// One exactly rounded, clamped channel division.
fn unpremultiply_channel(c: u8, a: u8) -> (r: u8)
    requires
        a >= 1,
    ensures
        r == unpremul_channel(c as int, a as int),
{
    let n: u64 = 255 * (c as u64);
    let v: u64 = (2 * n + (a as u64)) / (2 * (a as u64));
    if v > 255 {
        255
    } else {
        v as u8
    }
}

// ============================================================================
// Textual color substitution
// ============================================================================

/// The pattern occurs in `s` at position `i`.
pub open spec fn match_at(s: Seq<u8>, pat: Seq<u8>, i: int) -> bool {
    0 <= i && i + pat.len() <= s.len() && s.subrange(i, i + pat.len()) == pat
}

/// Position of the first occurrence of `pat` in `s`, if any.
pub open spec fn find_spec(s: Seq<u8>, pat: Seq<u8>) -> Option<int>
    decreases s.len(),
{
    if pat.len() == 0 {
        Option::Some(0)
    } else if s.len() < pat.len() {
        Option::None
    } else if s.take(pat.len() as int) == pat {
        Option::Some(0)
    } else {
        match find_spec(s.drop_first(), pat) {
            Option::None => Option::None,
            Option::Some(j) => Option::Some(j + 1),
        }
    }
}

/// `find_spec` returns exactly the first match position.
proof fn lemma_find_spec(s: Seq<u8>, pat: Seq<u8>)
    requires
        pat.len() >= 1,
    ensures
        match find_spec(s, pat) {
            Option::None => forall|i: int| !match_at(s, pat, i),
            Option::Some(i) => match_at(s, pat, i) && (forall|j: int|
                0 <= j < i ==> !match_at(s, pat, j)),
        },
    decreases s.len(),
{
    if s.len() < pat.len() {
        assert forall|i: int| !match_at(s, pat, i) by {}
    } else if s.take(pat.len() as int) == pat {
        assert(s.subrange(0, pat.len() as int) =~= s.take(pat.len() as int));
        assert(match_at(s, pat, 0));
    } else {
        lemma_find_spec(s.drop_first(), pat);
        assert forall|i: int| 1 <= i && i + pat.len() <= s.len() implies (match_at(s, pat, i)
            == match_at(s.drop_first(), pat, i - 1)) by {
            assert(s.drop_first().subrange(i - 1, i - 1 + pat.len()) =~= s.subrange(
                i,
                i + pat.len(),
            ));
        }
        assert(s.subrange(0, pat.len() as int) =~= s.take(pat.len() as int));
        assert(!match_at(s, pat, 0));
    }
}

/// The bytes of the value `none`.
pub open spec fn none_bytes() -> Seq<u8> {
    seq!['n' as u8, 'o' as u8, 'n' as u8, 'e' as u8]
}

/// The bytes of the value `transparent`.
pub open spec fn transparent_bytes() -> Seq<u8> {
    seq![
        't' as u8,
        'r' as u8,
        'a' as u8,
        'n' as u8,
        's' as u8,
        'p' as u8,
        'a' as u8,
        'r' as u8,
        'e' as u8,
        'n' as u8,
        't' as u8,
    ]
}

/// One-pass textual rewrite of every `pat`-introduced attribute value.
///
/// At each occurrence of `pat` (an attribute name followed by `="`), the
/// bytes up to the closing quote are replaced by `color`, except the values
/// literally equal to `none` or `transparent`, which are preserved verbatim.
/// Text after an occurrence with no closing quote is kept as it stands. This
/// is a best-effort textual transform, not a structural document rewrite.
pub open spec fn replace_attr_spec(s: Seq<u8>, pat: Seq<u8>, color: Seq<u8>) -> Seq<u8>
    decreases s.len(),
    via replace_attr_spec_decreases
{
    if pat.len() < 1 {
        s
    } else {
        match find_spec(s, pat) {
            Option::None => s,
            Option::Some(p) => {
                let head = s.take(p + pat.len());
                let rest = s.skip(p + pat.len());
                match find_spec(rest, seq!['"' as u8]) {
                    Option::None => head + replace_attr_spec(rest, pat, color),
                    Option::Some(e) => {
                        let value = rest.take(e);
                        let tail = rest.skip(e);
                        let kept = if value == none_bytes() || value == transparent_bytes() {
                            value
                        } else {
                            color
                        };
                        head + kept + replace_attr_spec(tail, pat, color)
                    },
                }
            },
        }
    }
}

#[via_fn]
proof fn replace_attr_spec_decreases(s: Seq<u8>, pat: Seq<u8>, color: Seq<u8>) {
    if pat.len() >= 1 {
        lemma_find_spec(s, pat);
        match find_spec(s, pat) {
            Option::None => {},
            Option::Some(p) => {
                let rest = s.skip(p + pat.len());
                lemma_find_spec(rest, seq!['"' as u8]);
            },
        }
    }
}

/// Byte-sequence equality of two vectors.
fn bytes_eq(a: &Vec<u8>, b: &Vec<u8>) -> (r: bool)
    ensures
        r == (a@ == b@),
{
    let n = a.len();
    if n != b.len() {
        return false;
    }
    let mut i: usize = 0;
    while i < n
        invariant
            n == a@.len(),
            n == b@.len(),
            i <= n,
            forall|k: int| 0 <= k < i ==> a@[k] == b@[k],
        decreases n - i,
    {
        if a[i] != b[i] {
            return false;
        }
        i = i + 1;
    }
    proof {
        assert(a@ =~= b@);
    }
    true
}

/// Whether `pat` occurs at position `i` of `s`, checked byte by byte.
fn match_here(s: &Vec<u8>, pat: &Vec<u8>, i: usize) -> (r: bool)
    requires
        i + pat@.len() <= s@.len(),
    ensures
        r == match_at(s@, pat@, i as int),
{
    let n = s.len();
    let m = pat.len();
    let mut t: usize = 0;
    while t < m
        invariant
            m == pat@.len(),
            n == s@.len(),
            i + m <= n,
            t <= m,
            forall|k: int| 0 <= k < t ==> s@[i + k] == pat@[k],
        decreases m - t,
    {
        if s[i + t] != pat[t] {
            proof {
                assert(s@.subrange(i as int, i + pat@.len())[t as int] == s@[i + t]);
            }
            return false;
        }
        t = t + 1;
    }
    proof {
        assert(s@.subrange(i as int, i + pat@.len()) =~= pat@);
    }
    true
}

/// Finds the first occurrence of `pat` at or after `from`.
fn find_from(s: &Vec<u8>, from: usize, pat: &Vec<u8>) -> (r: Option<usize>)
    requires
        from <= s@.len(),
        pat@.len() >= 1,
    ensures
        match r {
            Option::Some(i) => from <= i && match_at(s@, pat@, i as int) && (forall|j: int|
                from <= j < i ==> !match_at(s@, pat@, j)),
            Option::None => forall|j: int| j >= from ==> !match_at(s@, pat@, j),
        },
{
    let n = s.len();
    let m = pat.len();
    if n < m {
        return None;
    }
    let mut i: usize = from;
    while i <= n - m
        invariant
            n == s@.len(),
            m == pat@.len(),
            m >= 1,
            m <= n,
            from <= i,
            i <= n,
            forall|j: int| from <= j < i ==> !match_at(s@, pat@, j),
        decreases n - i,
    {
        if match_here(s, pat, i) {
            return Some(i);
        }
        i = i + 1;
    }
    None
}

/// `find_spec` on the suffix of `s` starting at `from` agrees with a
/// first-match scan of the whole text.
proof fn lemma_find_from_spec(s: Seq<u8>, pat: Seq<u8>, from: int, r: Option<int>)
    requires
        0 <= from <= s.len(),
        pat.len() >= 1,
        match r {
            Option::Some(i) => from <= i && match_at(s, pat, i) && (forall|j: int|
                from <= j < i ==> !match_at(s, pat, j)),
            Option::None => forall|j: int| j >= from ==> !match_at(s, pat, j),
        },
    ensures
        find_spec(s.skip(from), pat) == match r {
            Option::Some(i) => Option::Some(i - from),
            Option::None => Option::<int>::None,
        },
{
    let suf = s.skip(from);
    assert forall|k: int| 0 <= k implies match_at(suf, pat, k) == match_at(s, pat, from + k) by {
        if k + pat.len() <= suf.len() {
            assert(suf.subrange(k, k + pat.len()) =~= s.subrange(from + k, from + k + pat.len()));
        }
    }
    lemma_find_spec(suf, pat);
    match r {
        Option::Some(i) => {
            assert(match_at(suf, pat, i - from));
            match find_spec(suf, pat) {
                Option::None => {
                    assert(false);
                },
                Option::Some(k) => {
                    assert(match_at(s, pat, from + k));
                    if k < i - from {
                        assert(false);
                    }
                    if k > i - from {
                        assert(!match_at(suf, pat, i - from));
                        assert(false);
                    }
                },
            }
        },
        Option::None => {
            match find_spec(suf, pat) {
                Option::None => {},
                Option::Some(k) => {
                    assert(match_at(s, pat, from + k));
                    assert(false);
                },
            }
        },
    }
}

/// Appends `s[from..to]` to `out`.
fn push_range(out: &mut Vec<u8>, s: &Vec<u8>, from: usize, to: usize)
    requires
        from <= to <= s@.len(),
    ensures
        final(out)@ == old(out)@ + s@.subrange(from as int, to as int),
{
    let mut k: usize = from;
    while k < to
        invariant
            from <= k <= to <= s@.len(),
            out@ =~= old(out)@ + s@.subrange(from as int, k as int),
        decreases to - k,
    {
        out.push(s[k]);
        proof {
            assert(out@ =~= old(out)@ + s@.subrange(from as int, k + 1));
        }
        k = k + 1;
    }
    proof {
        assert(out@ =~= old(out)@ + s@.subrange(from as int, to as int));
    }
}

/// Replaces the values of every `attr="…"` occurrence in `svg` with
/// `new_color`, preserving the values `none` and `transparent` verbatim.
#[verifier::rlimit(100)]
#[verifier::spinoff_prover]
pub fn replace_color_attr(svg: &Vec<u8>, attr: &Vec<u8>, new_color: &Vec<u8>) -> (r: Vec<u8>)
    ensures
        r@ == replace_attr_spec(svg@, attr@ + seq!['=' as u8, '"' as u8], new_color@),
{
    let mut pat: Vec<u8> = Vec::new();
    push_range(&mut pat, attr, 0, attr.len());
    pat.push('=' as u8);
    pat.push('"' as u8);
    proof {
        assert(attr@.subrange(0, attr@.len() as int) =~= attr@);
        assert(pat@ =~= attr@ + seq!['=' as u8, '"' as u8]);
    }
    let quote_pat: Vec<u8> = vec!['"' as u8];
    proof {
        assert(quote_pat@ =~= seq!['"' as u8]);
    }
    let none_v: Vec<u8> = vec!['n' as u8, 'o' as u8, 'n' as u8, 'e' as u8];
    let transparent_v: Vec<u8> = vec![
        't' as u8,
        'r' as u8,
        'a' as u8,
        'n' as u8,
        's' as u8,
        'p' as u8,
        'a' as u8,
        'r' as u8,
        'e' as u8,
        'n' as u8,
        't' as u8,
    ];
    proof {
        assert(none_v@ =~= none_bytes());
        assert(transparent_v@ =~= transparent_bytes());
    }
    let ghost goal = replace_attr_spec(svg@, pat@, new_color@);
    let n = svg.len();
    let mut out: Vec<u8> = Vec::new();
    let mut pos: usize = 0;
    proof {
        assert(svg@.skip(0) =~= svg@);
        assert(out@ + replace_attr_spec(svg@, pat@, new_color@) =~= goal);
    }
    while pos < n
        invariant
            n == svg@.len(),
            pos <= n,
            pat@.len() >= 2,
            pat@ == attr@ + seq!['=' as u8, '"' as u8],
            quote_pat@ == seq!['"' as u8],
            none_v@ == none_bytes(),
            transparent_v@ == transparent_bytes(),
            goal == replace_attr_spec(svg@, pat@, new_color@),
            goal == out@ + replace_attr_spec(svg@.skip(pos as int), pat@, new_color@),
        decreases n - pos,
    {
        let ghost out0 = out@;
        let found = find_from(svg, pos, &pat);
        proof {
            lemma_find_from_spec(svg@, pat@, pos as int, match found {
                Option::Some(i) => Option::Some(i as int),
                Option::None => Option::None,
            });
        }
        match found {
            None => {
                push_range(&mut out, svg, pos, n);
                proof {
                    assert(replace_attr_spec(svg@.skip(pos as int), pat@, new_color@)
                        == svg@.skip(pos as int));
                    assert(svg@.subrange(pos as int, n as int) =~= svg@.skip(pos as int));
                    assert(out@ =~= goal);
                }
                return out;
            },
            Some(i) => {
                let head_end: usize = i + pat.len();
                let ghost suf = svg@.skip(pos as int);
                let ghost p_rel = i - pos;
                proof {
                    assert(find_spec(suf, pat@) == Option::Some(p_rel as int));
                    assert(suf.take(p_rel + pat@.len()) =~= svg@.subrange(pos as int, head_end as int));
                    assert(suf.skip(p_rel + pat@.len()) =~= svg@.skip(head_end as int));
                }
                push_range(&mut out, svg, pos, head_end);
                let quote = find_from(svg, head_end, &quote_pat);
                proof {
                    lemma_find_from_spec(svg@, quote_pat@, head_end as int, match quote {
                        Option::Some(e) => Option::Some(e as int),
                        Option::None => Option::None,
                    });
                }
                match quote {
                    None => {
                        proof {
                            let head = suf.take(p_rel + pat@.len());
                            let rest = suf.skip(p_rel + pat@.len());
                            assert(replace_attr_spec(suf, pat@, new_color@) == head
                                + replace_attr_spec(rest, pat@, new_color@));
                            assert(out@ =~= out0 + head);
                            assert(out@ + replace_attr_spec(svg@.skip(head_end as int), pat@, new_color@)
                                =~= out0 + replace_attr_spec(suf, pat@, new_color@));
                        }
                        pos = head_end;
                    },
                    Some(e) => {
                        let ghost rest = svg@.skip(head_end as int);
                        let ghost e_rel = e - head_end;
                        proof {
                            assert(find_spec(rest, seq!['"' as u8]) == Option::Some(e_rel as int));
                            assert(rest.take(e_rel as int) =~= svg@.subrange(head_end as int, e as int));
                            assert(rest.skip(e_rel as int) =~= svg@.skip(e as int));
                        }
                        let mut value: Vec<u8> = Vec::new();
                        push_range(&mut value, svg, head_end, e);
                        proof {
                            assert(value@ =~= svg@.subrange(head_end as int, e as int));
                        }
                        let is_kept = bytes_eq(&value, &none_v) || bytes_eq(&value, &transparent_v);
                        if is_kept {
                            let m = value.len();
                            push_range(&mut out, &value, 0, m);
                            proof {
                                assert(value@.subrange(0, value@.len() as int) =~= value@);
                            }
                        } else {
                            let m = new_color.len();
                            push_range(&mut out, new_color, 0, m);
                            proof {
                                assert(new_color@.subrange(0, new_color@.len() as int) =~= new_color@);
                            }
                        }
                        proof {
                            let head = suf.take(p_rel + pat@.len());
                            let rest2 = suf.skip(p_rel + pat@.len());
                            let value_s = rest2.take(e_rel as int);
                            let tail = rest2.skip(e_rel as int);
                            let kept = if value_s == none_bytes() || value_s == transparent_bytes() {
                                value_s
                            } else {
                                new_color@
                            };
                            assert(value_s =~= value@);
                            assert(replace_attr_spec(suf, pat@, new_color@) == head + kept
                                + replace_attr_spec(tail, pat@, new_color@));
                            assert(out@ =~= out0 + head + kept);
                            assert(out@ + replace_attr_spec(svg@.skip(e as int), pat@, new_color@)
                                =~= out0 + (head + kept + replace_attr_spec(tail, pat@, new_color@)));
                        }
                        pos = e;
                    },
                }
            },
        }
    }
    proof {
        assert(svg@.skip(pos as int) =~= Seq::<u8>::empty());
        if pat@.len() > svg@.skip(pos as int).len() {
            assert(find_spec(svg@.skip(pos as int), pat@) is None);
        }
        assert(replace_attr_spec(svg@.skip(pos as int), pat@, new_color@) == svg@.skip(pos as int));
        assert(goal == out@ + Seq::<u8>::empty());
        assert(out@ =~= goal);
    }
    out
}

// ============================================================================
// Recoloring
// ============================================================================

/// The lowercase hexadecimal digit for `n`.
pub open spec fn hex_digit_spec(n: int) -> u8 {
    if n < 10 {
        (48 + n) as u8
    } else {
        (87 + n) as u8
    }
}

/// The `#rrggbb` byte form of an RGB color, lowercase.
pub open spec fn hex_color_spec(r: u8, g: u8, b: u8) -> Seq<u8> {
    seq![
        '#' as u8,
        hex_digit_spec(r as int / 16),
        hex_digit_spec(r as int % 16),
        hex_digit_spec(g as int / 16),
        hex_digit_spec(g as int % 16),
        hex_digit_spec(b as int / 16),
        hex_digit_spec(b as int % 16),
    ]
}

fn hex_digit(n: u8) -> (r: u8)
    requires
        n < 16,
    ensures
        r == hex_digit_spec(n as int),
{
    if n < 10 {
        48 + n
    } else {
        87 + n
    }
}

fn hex_color(r: u8, g: u8, b: u8) -> (v: Vec<u8>)
    ensures
        v@ == hex_color_spec(r, g, b),
{
    let mut v: Vec<u8> = Vec::new();
    v.push('#' as u8);
    v.push(hex_digit(r / 16));
    v.push(hex_digit(r % 16));
    v.push(hex_digit(g / 16));
    v.push(hex_digit(g % 16));
    v.push(hex_digit(b / 16));
    v.push(hex_digit(b % 16));
    proof {
        assert(v@ =~= hex_color_spec(r, g, b));
    }
    v
}

/// The pattern bytes of a `fill` attribute opening, `fill="`.
pub open spec fn fill_pattern() -> Seq<u8> {
    seq!['f' as u8, 'i' as u8, 'l' as u8, 'l' as u8, '=' as u8, '"' as u8]
}

/// The pattern bytes of a `stroke` attribute opening, `stroke="`.
pub open spec fn stroke_pattern() -> Seq<u8> {
    seq!['s' as u8, 't' as u8, 'r' as u8, 'o' as u8, 'k' as u8, 'e' as u8, '=' as u8, '"' as u8]
}

/// The one-pass textual recoloring of a markup text: every `fill="…"` and
/// `stroke="…"` value is replaced by the hex form of the given color, with
/// `none` and `transparent` values preserved verbatim.
pub open spec fn replace_colors_spec(bytes: Seq<u8>, r: u8, g: u8, b: u8) -> Seq<u8> {
    replace_attr_spec(
        replace_attr_spec(bytes, fill_pattern(), hex_color_spec(r, g, b)),
        stroke_pattern(),
        hex_color_spec(r, g, b),
    )
}

/// Replaces the values of all `fill="…"` and `stroke="…"` attributes in the
/// markup with the given RGB color (as lowercase `#rrggbb`), preserving the
/// values `none` and `transparent` verbatim. Returns the rewritten markup
/// bytes.
pub fn replace_svg_colors(svg_data: &str, r: u8, g: u8, b: u8) -> (out: Vec<u8>)
    ensures
        out@ == replace_colors_spec(encode_utf8(svg_data@), r, g, b),
{
    let bytes = svg_data.as_bytes_vec();
    let color = hex_color(r, g, b);
    let fill_attr: Vec<u8> = vec!['f' as u8, 'i' as u8, 'l' as u8, 'l' as u8];
    let stroke_attr: Vec<u8> = vec![
        's' as u8,
        't' as u8,
        'r' as u8,
        'o' as u8,
        'k' as u8,
        'e' as u8,
    ];
    proof {
        assert(fill_attr@ + seq!['=' as u8, '"' as u8] =~= fill_pattern());
        assert(stroke_attr@ + seq!['=' as u8, '"' as u8] =~= stroke_pattern());
    }
    let pass1 = replace_color_attr(&bytes, &fill_attr, &color);
    let pass2 = replace_color_attr(&pass1, &stroke_attr, &color);
    pass2
}

// ============================================================================
// Markup sources
// ============================================================================

/// A source of vector markup: either raw markup text, or a symbolic emoji
/// reference resolved through the bundled asset table at render time.
#[derive(Debug)]
pub enum SvgSource {
    /// Raw markup text.
    Raw(String),
    /// An emoji character, resolved to its bundled markup when rendered.
    Emoji(String),
}

/// Equality of two markup sources: same kind, same text.
pub open spec fn svg_source_eq(a: SvgSource, b: SvgSource) -> bool {
    match (a, b) {
        (SvgSource::Raw(x), SvgSource::Raw(y)) => x@ == y@,
        (SvgSource::Emoji(x), SvgSource::Emoji(y)) => x@ == y@,
        _ => false,
    }
}

impl<'a> From<&'a str> for SvgSource {
    /// A plain string converts to a raw markup source.
    fn from(s: &'a str) -> (r: SvgSource) {
        SvgSource::Raw(String::from_str(s))
    }
}

impl<'a> vstd::std_specs::convert::FromSpecImpl<&'a str> for SvgSource {
    open spec fn obeys_from_spec() -> bool {
        false
    }

    open spec fn from_spec(s: &'a str) -> SvgSource {
        choose|src: SvgSource| src is Raw && source_text(src) == s@
    }
}

/// Tests whether two markup sources are equal: same kind, same text.
pub fn svg_source_matches(a: &SvgSource, b: &SvgSource) -> (r: bool)
    ensures
        r == svg_source_eq(*a, *b),
{
    match (a, b) {
        (SvgSource::Raw(x), SvgSource::Raw(y)) => String::eq(x, y),
        (SvgSource::Emoji(x), SvgSource::Emoji(y)) => String::eq(x, y),
        _ => false,
    }
}

impl PartialEq for SvgSource {
    fn eq(&self, other: &Self) -> bool {
        svg_source_matches(self, other)
    }
}

impl vstd::std_specs::cmp::PartialEqSpecImpl for SvgSource {
    open spec fn obeys_eq_spec() -> bool {
        false
    }

    open spec fn eq_spec(&self, other: &Self) -> bool {
        svg_source_eq(*self, *other)
    }
}

impl Clone for SvgSource {
    fn clone(&self) -> (r: Self)
        ensures
            svg_source_eq(r, *self),
    {
        match self {
            SvgSource::Raw(x) => SvgSource::Raw(x.clone()),
            SvgSource::Emoji(x) => SvgSource::Emoji(x.clone()),
        }
    }
}

/// The markup the asset table pairs with an emoji, if the emoji is known.
pub uninterp spec fn emoji_markup_of(emoji: Seq<char>) -> Option<Seq<char>>;

/// Relies on `twemoji_assets::svg::SvgTwemojiAsset::from_emoji`: the lookup
/// in the bundled asset table depends on the emoji string alone, and the
/// returned value is the asset's SVG markup string, or nothing when the
/// emoji has no asset.
#[verifier::external_body]
fn lookup_emoji_markup(emoji: &str) -> (r: Option<String>)
    ensures
        match r {
            Option::Some(markup) => emoji_markup_of(emoji@) == Some(markup@),
            Option::None => emoji_markup_of(emoji@) is None,
        },
{
    twemoji_assets::svg::SvgTwemojiAsset::from_emoji(emoji).map(|asset| asset.data.0.to_string())
}

/// The text a source carries: the raw markup, or the emoji character.
pub open spec fn source_text(s: SvgSource) -> Seq<char> {
    match s {
        SvgSource::Raw(x) => x@,
        SvgSource::Emoji(x) => x@,
    }
}

/// The markup a source resolves to: raw text directly, an emoji through the
/// asset table.
pub open spec fn resolve_spec(s: SvgSource) -> Option<Seq<char>> {
    match s {
        SvgSource::Raw(x) => Some(x@),
        SvgSource::Emoji(e) => emoji_markup_of(e@),
    }
}

impl SvgSource {
    /// Creates a source from raw markup.
    pub fn from_svg(svg: &str) -> (r: SvgSource)
        ensures
            r is Raw,
            source_text(r) == svg@,
    {
        SvgSource::Raw(String::from_str(svg))
    }

    /// Creates a source from an emoji character.
    ///
    /// Returns nothing if the emoji has no bundled asset.
    pub fn from_emoji(emoji: &str) -> (r: Option<SvgSource>)
        ensures
            match r {
                Option::Some(src) => emoji_markup_of(emoji@) is Some && src is Emoji
                    && source_text(src) == emoji@,
                Option::None => emoji_markup_of(emoji@) is None,
            },
    {
        match lookup_emoji_markup(emoji) {
            Some(_) => Some(SvgSource::Emoji(String::from_str(emoji))),
            None => None,
        }
    }

    /// Resolves this source to markup text: raw sources return their text,
    /// emoji sources are looked up in the bundled asset table.
    pub fn resolve(&self) -> (r: Option<String>)
        ensures
            match r {
                Option::Some(markup) => resolve_spec(*self) == Some(markup@),
                Option::None => resolve_spec(*self) is None,
            },
    {
        match self {
            SvgSource::Raw(svg) => Some(svg.clone()),
            SvgSource::Emoji(emoji) => lookup_emoji_markup(emoji.as_str()),
        }
    }

    /// Returns true if this is an emoji source.
    pub fn is_emoji(&self) -> (r: bool)
        ensures
            r == (self is Emoji),
    {
        match self {
            SvgSource::Emoji(_) => true,
            _ => false,
        }
    }

    /// Returns true if this is a raw markup source.
    pub fn is_raw(&self) -> (r: bool)
        ensures
            r == (self is Raw),
    {
        match self {
            SvgSource::Raw(_) => true,
            _ => false,
        }
    }
}

// ============================================================================
// Rasterization
// ============================================================================

/// What the rasterizer returns for given markup bytes and target size: the
/// pixmap dimensions and its premultiplied RGBA bytes, or nothing on a parse
/// failure.
pub uninterp spec fn rasterized(markup: Seq<u8>, size: u32) -> Option<(u32, u32, Seq<u8>)>;

/// Relies on `usvg::Tree::from_str`, `resvg::render` and
/// `tiny_skia::Pixmap`: parsing and rasterizing depend on the markup bytes
/// and the requested size alone. The href resolver for plain string image
/// references (by default a file read) is pinned to resolve nothing, and the
/// font database is empty, so nothing outside the arguments is consulted;
/// data-URL image references still resolve, purely from the markup. The
/// markup is scaled uniformly so that the larger of its intrinsic dimensions
/// maps to the requested pixel size, and the returned triple is the pixmap's
/// dimensions and its premultiplied RGBA bytes (4 per pixel); any parse or
/// allocation failure returns nothing.
#[verifier::external_body]
fn rasterize_markup(markup: &Vec<u8>, size: u32) -> (r: Option<(u32, u32, Vec<u8>)>)
    ensures
        match r {
            Option::Some(t) => rasterized(markup@, size) == Some((t.0, t.1, t.2@)) && t.2@.len()
                == 4 * (t.0 as int) * (t.1 as int),
            Option::None => rasterized(markup@, size) is None,
        },
{
    let mut opts = usvg::Options::default();
    opts.image_href_resolver.resolve_string = Box::new(|_, _| None);
    let tree = usvg::Tree::from_str(std::str::from_utf8(markup).ok()?, &opts).ok()?;
    let svg_size = tree.size();
    let scale = IntSize::from_wh(size, size)?.to_size().width() / svg_size.width().max(
        svg_size.height(),
    );
    let width = (svg_size.width() * scale).ceil() as u32;
    let height = (svg_size.height() * scale).ceil() as u32;
    let mut pixmap = Pixmap::new(width, height)?;
    resvg::render(&tree, Transform::from_scale(scale, scale), &mut pixmap.as_mut());
    Some((width, height, pixmap.take()))
}

/// The unpremultiplied raster a premultiplied RGBA byte buffer stands for.
pub open spec fn unpremul_raster(w: nat, h: nat, data: Seq<u8>) -> RasterView {
    RasterView {
        width: w,
        height: h,
        pixels: Seq::new(
            w * h,
            |i: int| unpremul_spec(data[4 * i], data[4 * i + 1], data[4 * i + 2], data[4 * i + 3]),
        ),
    }
}

/// The raster that rendering markup bytes at a target size produces: the
/// rasterizer's premultiplied output, unpremultiplied pixel by pixel;
/// nothing on a parse failure or an unusable pixmap.
pub open spec fn render_markup_spec(bytes: Seq<u8>, size: u32) -> Option<RasterView> {
    match rasterized(bytes, size) {
        Option::None => Option::None,
        Option::Some(t) => {
            let (w, h, data) = t;
            if 1 <= w && 1 <= h && (w as int) * (h as int) <= 0xFFFF_FFFF && data.len() == 4 * (
            w as int) * (h as int) {
                Option::Some(unpremul_raster(w as nat, h as nat, data))
            } else {
                Option::None
            }
        },
    }
}

/// Converts a premultiplied RGBA byte buffer into an unpremultiplied raster.
fn raster_from_premultiplied(w: u32, h: u32, data: &Vec<u8>) -> (r: Raster)
    requires
        1 <= w,
        1 <= h,
        (w as int) * (h as int) <= 0xFFFF_FFFF,
        data@.len() == 4 * (w as int) * (h as int),
    ensures
        r@ == unpremul_raster(w as nat, h as nat, data@),
{
    let total: usize = (w as usize) * (h as usize);
    let dlen: usize = data.len();
    let mut pixels: Vec<Pixel> = Vec::new();
    let mut i: usize = 0;
    proof {
        assert(pixels@ =~= unpremul_raster(w as nat, h as nat, data@).pixels.take(0));
        assert(4 * (w as int) * (h as int) == 4 * ((w as int) * (h as int))) by (nonlinear_arith);
    }
    while i < total
        invariant
            total == (w as int) * (h as int),
            total <= 0xFFFF_FFFF,
            dlen == data@.len(),
            data@.len() == 4 * total,
            i <= total,
            pixels@ =~= unpremul_raster(w as nat, h as nat, data@).pixels.take(i as int),
        decreases total - i,
    {
        let base: usize = 4 * i;
        let (pr, pg, pb, pa) = unpremultiply(data[base], data[base + 1], data[base + 2], data[
            base + 3]);
        pixels.push(Pixel { r: pr, g: pg, b: pb, a: pa });
        proof {
            assert(pixels@ =~= unpremul_raster(w as nat, h as nat, data@).pixels.take(i + 1));
        }
        i = i + 1;
    }
    proof {
        assert(pixels@ =~= unpremul_raster(w as nat, h as nat, data@).pixels);
    }
    let r = Raster::from_pixels(w, h, pixels);
    proof {
        assert(r@ =~= unpremul_raster(w as nat, h as nat, data@));
    }
    r
}

/// Renders markup bytes to an unpremultiplied raster at the given target
/// size, or nothing if the markup cannot be parsed or rasterized.
fn render_markup(markup: &Vec<u8>, size: u32) -> (r: Option<Raster>)
    ensures
        match r {
            Option::Some(img) => render_markup_spec(markup@, size) == Some(img@),
            Option::None => render_markup_spec(markup@, size) is None,
        },
{
    match rasterize_markup(markup, size) {
        None => None,
        Some((w, h, data)) => {
            proof {
                assert((w as int) * (h as int) <= 0xFFFF_FFFF_FFFF_FFFF) by (nonlinear_arith)
                    requires
                        w <= u32::MAX,
                        h <= u32::MAX,
                ;
            }
            if 1 <= w && 1 <= h && (w as u64) * (h as u64) <= 0xFFFF_FFFF {
                Some(raster_from_premultiplied(w, h, &data))
            } else {
                None
            }
        },
    }
}

/// What rendering a markup string at a size yields, with an optional
/// recoloring pass applied to the markup text first.
pub open spec fn render_svg_spec(chars: Seq<char>, size: u32, fill_color: Option<(u8, u8, u8, u8)>) -> Option<
    RasterView,
> {
    let bytes = match fill_color {
        Option::Some(c) => replace_colors_spec(encode_utf8(chars), c.0, c.1, c.2),
        Option::None => encode_utf8(chars),
    };
    render_markup_spec(bytes, size)
}

/// Renders a markup string to a raster at the specified size.
///
/// The markup is scaled to fit within `size x size` pixels while preserving
/// aspect ratio (the larger dimension will be `size`). Returns nothing if
/// the markup cannot be parsed or rendered.
pub fn render_svg(svg_data: &str, size: u32) -> (r: Option<Raster>)
    ensures
        match r {
            Option::Some(img) => render_svg_spec(svg_data@, size, Option::None) == Some(img@),
            Option::None => render_svg_spec(svg_data@, size, Option::None) is None,
        },
{
    render_svg_with_color(svg_data, size, None)
}

/// Renders a markup string to a raster, optionally replacing all fill and
/// stroke colors first. Useful for monochrome icon decals.
///
/// Returns nothing if the markup cannot be parsed or rendered.
pub fn render_svg_with_color(svg_data: &str, size: u32, fill_color: Option<(u8, u8, u8, u8)>) -> (r:
    Option<Raster>)
    ensures
        match r {
            Option::Some(img) => render_svg_spec(svg_data@, size, fill_color) == Some(img@),
            Option::None => render_svg_spec(svg_data@, size, fill_color) is None,
        },
{
    let bytes = match fill_color {
        Some(c) => replace_svg_colors(svg_data, c.0, c.1, c.2),
        None => svg_data.as_bytes_vec(),
    };
    render_markup(&bytes, size)
}

/// What rendering a resolved source yields: nothing for an unresolvable
/// source, otherwise the rendering of its markup.
pub open spec fn render_source_spec(src: SvgSource, size: u32, fill_color: Option<(u8, u8, u8, u8)>) -> Option<
    RasterView,
> {
    match resolve_spec(src) {
        Option::None => Option::None,
        Option::Some(chars) => render_svg_spec(chars, size, fill_color),
    }
}

/// Renders a markup source to a raster at the specified size.
pub fn render_source(source: &SvgSource, size: u32) -> (r: Option<Raster>)
    ensures
        match r {
            Option::Some(img) => render_source_spec(*source, size, Option::None) == Some(img@),
            Option::None => render_source_spec(*source, size, Option::None) is None,
        },
{
    render_source_with_color(source, size, None)
}

/// Renders a markup source to a raster, optionally replacing all fill and
/// stroke colors.
pub fn render_source_with_color(
    source: &SvgSource,
    size: u32,
    fill_color: Option<(u8, u8, u8, u8)>,
) -> (r: Option<Raster>)
    ensures
        match r {
            Option::Some(img) => render_source_spec(*source, size, fill_color) == Some(img@),
            Option::None => render_source_spec(*source, size, fill_color) is None,
        },
{
    match source.resolve() {
        None => None,
        Some(markup) => render_svg_with_color(markup.as_str(), size, fill_color),
    }
}

} // verus!
