//! Chunk cell rendering: the three-band cell geometry (upper caption band,
//! image band, lower caption band), the aspect-preserving image fit, caption
//! sizing, and the pixel fills and blends that draw one chunk into its cell.
//!
//! Rasterizing caption glyphs needs a font engine and stays with the caller:
//! it measures a line at a reference size, asks `fit_text_size` for the size
//! to use, rasterizes a coverage mask, and hands the mask to `overlay_mask`,
//! which performs the verified blend into the cell.

use vstd::prelude::*;
use vstd::math::*;
use vstd::arithmetic::div_mod::{
    lemma_div_by_multiple, lemma_div_is_ordered, lemma_div_pos_is_pos, lemma_fundamental_div_mod,
    lemma_fundamental_div_mod_converse_div,
};
use crate::color::Color;
use crate::config::BigImg;
use crate::imgbuf::{img_dims, img_pix, px, resized_pix, Bitmap};
use crate::compose::blit;

verus! {

/// Fills the rectangle `[x0, x0 + w) x [y0, y0 + h)` with `c`; every other
/// pixel keeps its value.
pub fn fill_rect(img: &mut Bitmap, x0: u32, y0: u32, w: u32, h: u32, c: Color)
    requires
        x0 as nat + w as nat <= img_dims(*old(img)).0,
        y0 as nat + h as nat <= img_dims(*old(img)).1,
    ensures
        img_dims(*final(img)) == img_dims(*old(img)),
        forall|x: int, y: int|
            x0 as int <= x < x0 as int + w as int && y0 as int <= y < y0 as int + h as int
                ==> img_pix(*final(img))[(x, y)] == px(c),
        forall|x: int, y: int|
            !(x0 as int <= x < x0 as int + w as int && y0 as int <= y < y0 as int + h as int)
                ==> img_pix(*final(img))[(x, y)] == img_pix(*old(img))[(x, y)],
{
    let iw = img.width();
    let ih = img.height();
    let mut y: u32 = 0;
    while y < h
        invariant
            iw as nat == img_dims(*img).0,
            ih as nat == img_dims(*img).1,
            x0 as nat + w as nat <= img_dims(*img).0,
            y0 as nat + h as nat <= img_dims(*img).1,
            y <= h,
            img_dims(*img) == img_dims(*old(img)),
            forall|gx: int, gy: int|
                x0 as int <= gx < x0 as int + w as int && y0 as int <= gy < y0 as int
                    + y as int ==> img_pix(*img)[(gx, gy)] == px(c),
            forall|gx: int, gy: int|
                !(x0 as int <= gx < x0 as int + w as int && y0 as int <= gy < y0 as int
                    + y as int) ==> img_pix(*img)[(gx, gy)] == img_pix(*old(img))[(gx, gy)],
        decreases h - y,
    {
        let mut x: u32 = 0;
        while x < w
            invariant
                iw as nat == img_dims(*img).0,
                ih as nat == img_dims(*img).1,
                x0 as nat + w as nat <= img_dims(*img).0,
                y0 as nat + h as nat <= img_dims(*img).1,
                x <= w,
                y < h,
                img_dims(*img) == img_dims(*old(img)),
                forall|gx: int, gy: int|
                    x0 as int <= gx < x0 as int + w as int && y0 as int <= gy < y0 as int
                        + y as int ==> img_pix(*img)[(gx, gy)] == px(c),
                forall|gx: int|
                    x0 as int <= gx < x0 as int + x as int ==> #[trigger] img_pix(*img)[
                        (gx, y0 as int + y as int)
                    ] == px(c),
                forall|gx: int, gy: int|
                    !(x0 as int <= gx < x0 as int + w as int && y0 as int <= gy < y0 as int
                        + y as int) && !(x0 as int <= gx < x0 as int + x as int && gy == y0 as int
                        + y as int) ==> img_pix(*img)[(gx, gy)] == img_pix(*old(img))[(gx, gy)],
            decreases w - x,
        {
            img.put(x0 + x, y0 + y, c);
            x += 1;
        }
        y += 1;
    }
}

/// One channel of a source-over blend of channel `t` onto channel `o` with
/// coverage `a` out of 255.
pub open spec fn blend_ch(t: int, o: int, a: int) -> int {
    (t * a + o * (255 - a)) / 255
}

/// The pixel that blending color `c` with coverage `a` onto `o` yields.
pub open spec fn blend_px(c: Color, o: (u8, u8, u8, u8), a: u8) -> (u8, u8, u8, u8) {
    (
        blend_ch(c.r as int, o.0 as int, a as int) as u8,
        blend_ch(c.g as int, o.1 as int, a as int) as u8,
        blend_ch(c.b as int, o.2 as int, a as int) as u8,
        blend_ch(c.a as int, o.3 as int, a as int) as u8,
    )
}

/// Blends one channel; the result never leaves the channel range.
fn blend_channel(t: u8, o: u8, a: u8) -> (r: u8)
    ensures
        r as int == blend_ch(t as int, o as int, a as int),
{
    proof {
        assert(t as int * a as int + o as int * (255 - a as int) <= 255 * 255) by (nonlinear_arith)
            requires
                t <= 255,
                o <= 255,
                0 <= a <= 255,
        ;
        assert((t as int * a as int + o as int * (255 - a as int)) / 255 <= 255);
        assert(t as int * a as int + o as int * (255 - a as int) >= 0) by (nonlinear_arith)
            requires
                0 <= t,
                0 <= o,
                0 <= a <= 255,
        ;
    }
    let v: u32 = (t as u32) * (a as u32) + (o as u32) * (255 - a as u32);
    (v / 255) as u8
}

/// Blends color `c` with coverage `a` onto the pixel value `o`.
fn blend(c: Color, o: Color, a: u8) -> (r: Color)
    ensures
        px(r) == blend_px(c, px(o), a),
{
    Color {
        r: blend_channel(c.r, o.r, a),
        g: blend_channel(c.g, o.g, a),
        b: blend_channel(c.b, o.b, a),
        a: blend_channel(c.a, o.a, a),
    }
}

/// Draws a coverage mask (rows of per-pixel coverage, all of width `mw`) in
/// color `c` with its top-left corner at (x0, y0): every covered position
/// becomes the blend of `c` onto what was beneath; every other pixel keeps
/// its value.
pub fn overlay_mask(img: &mut Bitmap, mask: &Vec<Vec<u8>>, mw: u32, x0: u32, y0: u32, c: Color)
    requires
        forall|r: int| 0 <= r < mask@.len() ==> (#[trigger] mask@[r])@.len() == mw as int,
        x0 as nat + mw as nat <= img_dims(*old(img)).0,
        y0 as nat + mask@.len() <= img_dims(*old(img)).1,
    ensures
        img_dims(*final(img)) == img_dims(*old(img)),
        forall|x: int, y: int|
            x0 as int <= x < x0 as int + mw as int && y0 as int <= y < y0 as int + mask@.len()
                ==> img_pix(*final(img))[(x, y)] == blend_px(
                c,
                img_pix(*old(img))[(x, y)],
                mask@[y - y0 as int]@[x - x0 as int],
            ),
        forall|x: int, y: int|
            !(x0 as int <= x < x0 as int + mw as int && y0 as int <= y < y0 as int
                + mask@.len()) ==> img_pix(*final(img))[(x, y)] == img_pix(*old(img))[(x, y)],
{
    let iw = img.width();
    let ih = img.height();
    let mut y: usize = 0;
    while y < mask.len()
        invariant
            forall|r: int| 0 <= r < mask@.len() ==> (#[trigger] mask@[r])@.len() == mw as int,
            x0 as nat + mw as nat <= img_dims(*img).0,
            y0 as nat + mask@.len() <= img_dims(*img).1,
            iw as nat == img_dims(*img).0,
            ih as nat == img_dims(*img).1,
            y <= mask@.len(),
            img_dims(*img) == img_dims(*old(img)),
            forall|gx: int, gy: int|
                x0 as int <= gx < x0 as int + mw as int && y0 as int <= gy < y0 as int
                    + y as int ==> img_pix(*img)[(gx, gy)] == blend_px(
                    c,
                    img_pix(*old(img))[(gx, gy)],
                    mask@[gy - y0 as int]@[gx - x0 as int],
                ),
            forall|gx: int, gy: int|
                !(x0 as int <= gx < x0 as int + mw as int && y0 as int <= gy < y0 as int
                    + y as int) ==> img_pix(*img)[(gx, gy)] == img_pix(*old(img))[(gx, gy)],
        decreases mask@.len() - y,
    {
        let row = &mask[y];
        let mut x: u32 = 0;
        while x < mw
            invariant
                forall|r: int| 0 <= r < mask@.len() ==> (#[trigger] mask@[r])@.len() == mw as int,
                x0 as nat + mw as nat <= img_dims(*img).0,
                y0 as nat + mask@.len() <= img_dims(*img).1,
                iw as nat == img_dims(*img).0,
                ih as nat == img_dims(*img).1,
                x <= mw,
                y < mask@.len(),
                row == &mask@[y as int],
                img_dims(*img) == img_dims(*old(img)),
                forall|gx: int, gy: int|
                    x0 as int <= gx < x0 as int + mw as int && y0 as int <= gy < y0 as int
                        + y as int ==> img_pix(*img)[(gx, gy)] == blend_px(
                        c,
                        img_pix(*old(img))[(gx, gy)],
                        mask@[gy - y0 as int]@[gx - x0 as int],
                    ),
                forall|gx: int|
                    x0 as int <= gx < x0 as int + x as int ==> #[trigger] img_pix(*img)[
                        (gx, y0 as int + y as int)
                    ] == blend_px(
                        c,
                        img_pix(*old(img))[(gx, y0 as int + y as int)],
                        mask@[y as int]@[gx - x0 as int],
                    ),
                forall|gx: int, gy: int|
                    !(x0 as int <= gx < x0 as int + mw as int && y0 as int <= gy < y0 as int
                        + y as int) && !(x0 as int <= gx < x0 as int + x as int && gy == y0 as int
                        + y as int) ==> img_pix(*img)[(gx, gy)] == img_pix(*old(img))[(gx, gy)],
            decreases mw - x,
        {
            let a = row[x as usize];
            let under = img.get(x0 + x, y0 + (y as u32));
            let blended = blend(c, under, a);
            img.put(x0 + x, y0 + (y as u32), blended);
            x += 1;
        }
        y += 1;
    }
}

/// The aspect-preserving fit of a `sw`-by-`sh` image into a `bw`-by-`bh` box:
/// the largest box-bounded size with the source's width-to-height ratio
/// (up to integer rounding), upscaled at most `max_scale`-fold, a dimension
/// that rounds to zero clamped to one pixel.
pub open spec fn fit_dims(sw: int, sh: int, bw: int, bh: int, max_scale: int) -> (int, int)
    recommends
        1 <= sw,
        1 <= sh,
        1 <= bw,
        1 <= bh,
        1 <= max_scale,
{
    let w1 = min(bw, sw * max_scale);
    let h1 = sh * w1 / sw;
    if h1 <= bh {
        (w1, max(h1, 1))
    } else {
        let h2 = min(bh, sh * max_scale);
        let w2 = sw * h2 / sh;
        (max(w2, 1), h2)
    }
}

/// The fit always lands inside the box, keeps both dimensions positive, and
/// never upscales beyond `max_scale` in either dimension.
pub proof fn lemma_fit_dims_bounds(sw: int, sh: int, bw: int, bh: int, ms: int)
    requires
        1 <= sw,
        1 <= sh,
        1 <= bw,
        1 <= bh,
        1 <= ms,
    ensures
        1 <= fit_dims(sw, sh, bw, bh, ms).0 <= bw,
        1 <= fit_dims(sw, sh, bw, bh, ms).1 <= bh,
        fit_dims(sw, sh, bw, bh, ms).0 <= sw * ms,
        fit_dims(sw, sh, bw, bh, ms).1 <= sh * ms,
{
    let w1 = min(bw, sw * ms);
    let h1 = sh * w1 / sw;
    assert(1 <= sw * ms && 1 <= sh * ms) by (nonlinear_arith)
        requires
            1 <= sw,
            1 <= sh,
            1 <= ms,
    ;
    assert(1 <= w1);
    assert(0 <= sh * w1) by (nonlinear_arith)
        requires
            1 <= sh,
            1 <= w1,
    ;
    lemma_div_pos_is_pos(sh * w1, sw);
    assert(sh * w1 <= (sh * ms) * sw) by (nonlinear_arith)
        requires
            1 <= sw,
            1 <= sh,
            w1 <= sw * ms,
    ;
    lemma_div_is_ordered(sh * w1, (sh * ms) * sw, sw);
    lemma_div_by_multiple(sh * ms, sw);
    assert(h1 <= sh * ms);
    if h1 <= bh {
    } else {
        let h2 = min(bh, sh * ms);
        let w2 = sw * h2 / sh;
        assert(0 <= sw * h2 && sw * h2 <= (sw * ms) * sh) by (nonlinear_arith)
            requires
                1 <= sw,
                1 <= sh,
                1 <= h2,
                h2 <= sh * ms,
        ;
        lemma_div_pos_is_pos(sw * h2, sh);
        lemma_div_is_ordered(sw * h2, (sw * ms) * sh, sh);
        lemma_div_by_multiple(sw * ms, sh);
        assert(w2 <= sw * ms);
        // the height-limited width stays under the width-limited one
        assert(h2 < h1);
        lemma_fundamental_div_mod(sh * w1, sw);
        assert(sw * h2 <= sh * w1 - 1) by (nonlinear_arith)
            requires
                1 <= sw,
                1 <= sh,
                h2 + 1 <= h1,
                h1 * sw <= sh * w1,
        ;
        lemma_div_is_ordered(sw * h2, sh * w1 - 1, sh);
        assert(sh * w1 - 1 == (w1 - 1) * sh + (sh - 1)) by (nonlinear_arith);
        lemma_fundamental_div_mod_converse_div(sh * w1 - 1, sh, w1 - 1, sh - 1);
        assert(w2 <= w1 - 1);
    }
}

/// The caption size for one line: the largest integer pixel size whose
/// extent stays inside the slot, judged by the line's measured extent at a
/// reference size (glyph metrics scale linearly with the pixel size), and at
/// least 1 so every line gets a drawable size.
pub fn fit_text_size(ref_size: u32, ref_w: u32, ref_h: u32, slot_w: u32, slot_h: u32) -> (s: u32)
    requires
        1 <= ref_size,
        1 <= ref_w,
        1 <= ref_h,
    ensures
        1 <= s,
        s == 1 || (s as int * ref_w as int <= slot_w as int * ref_size as int && s as int
            * ref_h as int <= slot_h as int * ref_size as int),
        (s as int + 1) * ref_w as int > slot_w as int * ref_size as int || (s as int + 1)
            * ref_h as int > slot_h as int * ref_size as int || s == u32::MAX,
{
    proof {
        assert(slot_w as int * ref_size as int <= u32::MAX as int * u32::MAX as int
            && slot_h as int * ref_size as int <= u32::MAX as int * u32::MAX as int && (u32::MAX
            as int * u32::MAX as int) < u64::MAX as int) by (nonlinear_arith)
            requires
                0 <= slot_w <= u32::MAX,
                0 <= slot_h <= u32::MAX,
                0 <= ref_size <= u32::MAX,
        ;
    }
    let sw = (slot_w as u64) * (ref_size as u64) / (ref_w as u64);
    let sh = (slot_h as u64) * (ref_size as u64) / (ref_h as u64);
    proof {
        lemma_fundamental_div_mod(slot_w as int * ref_size as int, ref_w as int);
        lemma_fundamental_div_mod(slot_h as int * ref_size as int, ref_h as int);
        lemma_div_pos_is_pos(slot_w as int * ref_size as int, ref_w as int);
        lemma_div_pos_is_pos(slot_h as int * ref_size as int, ref_h as int);
        assert(0 <= slot_w as int * ref_size as int && 0 <= slot_h as int * ref_size as int)
            by (nonlinear_arith)
            requires
                0 <= slot_w,
                0 <= slot_h,
                0 <= ref_size,
        ;
    }
    let m = if sw <= sh {
        sw
    } else {
        sh
    };
    let m = if m > u32::MAX as u64 {
        u32::MAX as u64
    } else {
        m
    };
    let s = if m < 1 {
        1u64
    } else {
        m
    };
    proof {
        let gw = slot_w as int * ref_size as int;
        let gh = slot_h as int * ref_size as int;
        let qw = gw / ref_w as int;
        let qh = gh / ref_h as int;
        assert(s as int <= qw && s as int <= qh || s == 1);
        assert(s as int <= qw ==> s as int * ref_w as int <= gw) by (nonlinear_arith)
            requires
                gw == ref_w as int * qw + gw % ref_w as int,
                0 <= gw % ref_w as int,
                1 <= ref_w,
        ;
        assert(s as int <= qh ==> s as int * ref_h as int <= gh) by (nonlinear_arith)
            requires
                gh == ref_h as int * qh + gh % ref_h as int,
                0 <= gh % ref_h as int,
                1 <= ref_h,
        ;
        if s < u32::MAX as int {
            if qw <= qh {
                assert(s as int + 1 > qw);
                assert((s as int + 1) * ref_w as int > gw) by (nonlinear_arith)
                    requires
                        s as int + 1 > qw,
                        gw == ref_w as int * qw + (gw % ref_w as int),
                        (gw % ref_w as int) < ref_w as int,
                        1 <= ref_w,
                ;
            } else {
                assert(s as int + 1 > qh);
                assert((s as int + 1) * ref_h as int > gh) by (nonlinear_arith)
                    requires
                        s as int + 1 > qh,
                        gh == ref_h as int * qh + (gh % ref_h as int),
                        (gh % ref_h as int) < ref_h as int,
                        1 <= ref_h,
                ;
            }
        }
    }
    s as u32
}

/// The vertical slots of `n` caption lines in a band that starts at `band_y`
/// and is `band_h` tall: the band is split evenly, line `i` getting the slot
/// that starts at `band_y + i * (band_h / n)` and is `band_h / n` tall, so
/// every slot stays inside the band.
pub fn line_slots(band_y: u32, band_h: u32, n: u32) -> (r: Vec<(u32, u32)>)
    requires
        1 <= n,
        band_y as int + band_h as int <= u32::MAX as int,
    ensures
        r@.len() == n as int,
        forall|i: int|
            0 <= i < n as int ==> (#[trigger] r@[i]).0 as int == band_y as int + i * (
            band_h as int / n as int) && r@[i].1 as int == band_h as int / n as int,
        forall|i: int|
            0 <= i < n as int ==> (#[trigger] r@[i]).0 as int + r@[i].1 as int <= band_y as int
                + band_h as int,
{
    let slot_h = band_h / n;
    proof {
        lemma_fundamental_div_mod(band_h as int, n as int);
    }
    let mut r: Vec<(u32, u32)> = Vec::new();
    let mut i: u32 = 0;
    let mut y: u32 = band_y;
    while i < n
        invariant
            1 <= n,
            band_y as int + band_h as int <= u32::MAX as int,
            slot_h as int == band_h as int / n as int,
            n as int * slot_h as int <= band_h as int,
            i <= n,
            y as int == band_y as int + i as int * slot_h as int,
            y as int + (n as int - i as int) * slot_h as int <= band_y as int + band_h as int,
            r@.len() == i as int,
            forall|t: int|
                0 <= t < i as int ==> (#[trigger] r@[t]).0 as int == band_y as int + t * (
                band_h as int / n as int) && r@[t].1 as int == band_h as int / n as int,
        decreases n - i,
    {
        proof {
            assert((n as int - i as int) * slot_h as int == slot_h as int + (n as int - i as int
                - 1) * slot_h as int) by (nonlinear_arith);
            assert(0 <= (n as int - i as int - 1) * slot_h as int) by (nonlinear_arith)
                requires
                    i as int + 1 <= n as int,
                    0 <= slot_h,
            ;
            assert((i as int + 1) * slot_h as int == i as int * slot_h as int + slot_h as int)
                by (nonlinear_arith);
        }
        r.push((y, slot_h));
        y = y + slot_h;
        i += 1;
    }
    proof {
        assert forall|t: int| 0 <= t < n as int implies (#[trigger] r@[t]).0 as int
            + r@[t].1 as int <= band_y as int + band_h as int by {
            assert((t + 1) * slot_h as int <= n as int * slot_h as int) by (nonlinear_arith)
                requires
                    t + 1 <= n as int,
                    0 <= slot_h,
            ;
            assert((t + 1) * slot_h as int == t * slot_h as int + slot_h as int)
                by (nonlinear_arith);
        }
    }
    r
}

impl BigImg {
    /// The fit of a source image into the image band of one cell.
    pub fn fit_rect(&self, sw: u32, sh: u32) -> (r: (u32, u32))
        requires
            1 <= sw,
            1 <= sh,
            1 <= self.width_chunk,
            1 <= self.pic_h,
            1 <= self.max_scale,
        ensures
            r.0 as int == fit_dims(
                sw as int,
                sh as int,
                self.width_chunk as int,
                self.pic_h as int,
                self.max_scale as int,
            ).0,
            r.1 as int == fit_dims(
                sw as int,
                sh as int,
                self.width_chunk as int,
                self.pic_h as int,
                self.max_scale as int,
            ).1,
            1 <= r.0 <= self.width_chunk,
            1 <= r.1 <= self.pic_h,
    {
        proof {
            lemma_fit_dims_bounds(
                sw as int,
                sh as int,
                self.width_chunk as int,
                self.pic_h as int,
                self.max_scale as int,
            );
        }
        let bw = self.width_chunk as u64;
        let bh = self.pic_h as u64;
        proof {
            assert(sw as int * self.max_scale as int <= u32::MAX as int * u32::MAX as int
                && sh as int * self.max_scale as int <= u32::MAX as int * u32::MAX as int
                && (u32::MAX as int * u32::MAX as int) < u64::MAX as int) by (nonlinear_arith)
                requires
                    sw <= u32::MAX,
                    sh <= u32::MAX,
                    self.max_scale <= u32::MAX,
                    0 <= sw,
                    0 <= sh,
                    0 <= self.max_scale,
            ;
        }
        let scaled_w = (sw as u64) * (self.max_scale as u64);
        let scaled_h = (sh as u64) * (self.max_scale as u64);
        let w1 = if bw <= scaled_w {
            bw
        } else {
            scaled_w
        };
        proof {
            assert(sh as int * w1 as int <= u32::MAX as int * u32::MAX as int) by (nonlinear_arith)
                requires
                    0 <= sh <= u32::MAX,
                    0 <= w1 <= u32::MAX,
            ;
        }
        let h1 = (sh as u64) * w1 / (sw as u64);
        if h1 <= bh {
            let h = if h1 >= 1 {
                h1
            } else {
                1
            };
            (w1 as u32, h as u32)
        } else {
            let h2 = if bh <= scaled_h {
                bh
            } else {
                scaled_h
            };
            proof {
                assert(sw as int * h2 as int <= u32::MAX as int * u32::MAX as int)
                    by (nonlinear_arith)
                    requires
                        0 <= sw <= u32::MAX,
                        0 <= h2 <= u32::MAX,
                ;
            }
            let w2 = (sw as u64) * h2 / (sh as u64);
            let w = if w2 >= 1 {
                w2
            } else {
                1
            };
            (w as u32, h2 as u32)
        }
    }
}


impl BigImg {
    /// Renders the fixed parts of one chunk cell, a `width_chunk`-by-
    /// `screen.1` bitmap of three bands: the upper caption band (top,
    /// `text_up_h` tall) filled with the first background color, the image
    /// band (middle, `pic_h` tall) holding the source image fitted with its
    /// aspect ratio preserved, upscaled at most `max_scale`-fold and
    /// centered over a zeroed backdrop, and the lower caption band (bottom,
    /// `text_down_h` tall) filled with the second background color. The
    /// caller then draws the caption lines into the two bands through
    /// `overlay_mask`.
    pub fn render_cell(&self, src: &Bitmap) -> (cell: Bitmap)
        requires
            self.wf(),
            1 <= self.max_scale,
            1 <= img_dims(*src).0,
            1 <= img_dims(*src).1,
            img_dims(*src).0 <= u32::MAX,
            img_dims(*src).1 <= u32::MAX,
            self.width_chunk as int * self.screen.1 as int * 4 <= usize::MAX as int,
        ensures
            ({
                let wc = self.width_chunk as int;
                let tuh = self.text_up_h as int;
                let pich = self.pic_h as int;
                let fit = fit_dims(
                    img_dims(*src).0 as int,
                    img_dims(*src).1 as int,
                    wc,
                    pich,
                    self.max_scale as int,
                );
                let ox = (wc - fit.0) / 2;
                let oy = tuh + (pich - fit.1) / 2;
                let scaled = resized_pix(
                    img_pix(*src),
                    img_dims(*src).0,
                    img_dims(*src).1,
                    fit.0 as nat,
                    fit.1 as nat,
                );
                &&& img_dims(cell) == (self.width_chunk as nat, self.screen.1 as nat)
                &&& forall|x: int, y: int|
                    0 <= x < wc && 0 <= y < tuh ==> img_pix(cell)[(x, y)] == px(
                        self.text_background_color.0,
                    )
                &&& forall|x: int, y: int|
                    0 <= x < wc && tuh + pich <= y < self.screen.1 as int ==> img_pix(cell)[
                        (x, y)
                    ] == px(self.text_background_color.1)
                &&& forall|x: int, y: int|
                    ox <= x < ox + fit.0 && oy <= y < oy + fit.1 ==> img_pix(cell)[(x, y)]
                        == scaled[(x - ox, y - oy)]
                &&& forall|x: int, y: int|
                    0 <= x < wc && tuh <= y < tuh + pich && !(ox <= x < ox + fit.0 && oy <= y < oy
                        + fit.1) ==> img_pix(cell)[(x, y)] == (0u8, 0u8, 0u8, 0u8)
            }),
    {
        let sw = src.width();
        let sh = src.height();
        let mut cell = Bitmap::new(self.width_chunk, self.screen.1);
        fill_rect(
            &mut cell,
            0,
            0,
            self.width_chunk,
            self.text_up_h,
            self.text_background_color.0,
        );
        fill_rect(
            &mut cell,
            0,
            self.text_up_h + self.pic_h,
            self.width_chunk,
            self.text_down_h,
            self.text_background_color.1,
        );
        let fit = self.fit_rect(sw, sh);
        proof {
            assert(fit.0 as int * fit.1 as int * 4 <= self.width_chunk as int
                * self.screen.1 as int * 4) by (nonlinear_arith)
                requires
                    0 <= fit.0 <= self.width_chunk,
                    0 <= fit.1 <= self.pic_h,
                    self.pic_h <= self.screen.1,
            ;
        }
        let scaled = src.resize(fit.0, fit.1);
        let ox = (self.width_chunk - fit.0) / 2;
        let oy = self.text_up_h + (self.pic_h - fit.1) / 2;
        proof {
            assert((self.width_chunk - fit.0) as int / 2 <= (self.width_chunk - fit.0) as int);
            assert((self.pic_h - fit.1) as int / 2 <= (self.pic_h - fit.1) as int);
        }
        blit(&mut cell, &scaled, ox, oy);
        cell
    }
}

} // verus!
