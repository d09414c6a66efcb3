//! Trusted interface to the `image` crate's in-memory RGBA buffers.
//!
//! A `Bitmap` holds one `image::RgbaImage`. Its pixel grid is modeled by
//! `img_pix` and its size by `img_dims`; every buffer the library creates
//! carries exactly `4 * width * height` bytes of row-major RGBA data, so the
//! raw-byte conversions below are exact. Decoding image files and saving
//! buffers to disk stay with the caller, which moves pixel data in and out
//! through `from_raw` and `into_raw`.

use vstd::prelude::*;
use crate::color::Color;

verus! {

/// One RGBA pixel buffer of the `image` crate, held opaquely.
#[verifier::external_body]
#[derive(Debug)]
pub struct Bitmap {
    inner: image::RgbaImage,
}

/// The pixel grid of a bitmap: channel values by (x, y) position.
pub uninterp spec fn img_pix(b: Bitmap) -> Map<(int, int), (u8, u8, u8, u8)>;

/// The (width, height) of a bitmap.
pub uninterp spec fn img_dims(b: Bitmap) -> (nat, nat);

/// The channels of `c` as the tuple the pixel grid stores.
pub open spec fn px(c: Color) -> (u8, u8, u8, u8) {
    (c.r, c.g, c.b, c.a)
}

/// What image::imageops::resize returns for the given pixel grid and
/// dimensions: a triangle-filtered resampling, a function of its arguments
/// alone.
pub uninterp spec fn resized_pix(
    pix: Map<(int, int), (u8, u8, u8, u8)>,
    sw: nat,
    sh: nat,
    w: nat,
    h: nat,
) -> Map<(int, int), (u8, u8, u8, u8)>;

impl Bitmap {
    /// Relies on image::ImageBuffer::new: a `w`-by-`h` buffer with every
    /// pixel zeroed. The precondition keeps the byte count inside a vector's
    /// limit, where the constructor would panic.
    #[verifier::external_body]
    pub fn new(w: u32, h: u32) -> (r: Bitmap)
        requires
            w as int * h as int * 4 <= usize::MAX as int,
        ensures
            img_dims(r) == (w as nat, h as nat),
            forall|x: int, y: int|
                0 <= x < w as int && 0 <= y < h as int ==> img_pix(r)[(x, y)] == (
                    0u8,
                    0u8,
                    0u8,
                    0u8,
                ),
    {
        Bitmap { inner: image::RgbaImage::new(w, h) }
    }

    /// Relies on image::ImageBuffer::width.
    #[verifier::external_body]
    pub fn width(&self) -> (w: u32)
        ensures
            w as nat == img_dims(*self).0,
    {
        self.inner.width()
    }

    /// Relies on image::ImageBuffer::height.
    #[verifier::external_body]
    pub fn height(&self) -> (h: u32)
        ensures
            h as nat == img_dims(*self).1,
    {
        self.inner.height()
    }

    /// Relies on image::ImageBuffer::put_pixel: replaces the pixel at
    /// (x, y), which must be in bounds (the method panics outside them).
    #[verifier::external_body]
    pub(crate) fn put(&mut self, x: u32, y: u32, c: Color)
        requires
            (x as nat) < img_dims(*old(self)).0,
            (y as nat) < img_dims(*old(self)).1,
        ensures
            img_dims(*final(self)) == img_dims(*old(self)),
            img_pix(*final(self)) == img_pix(*old(self)).insert((x as int, y as int), px(c)),
    {
        self.inner.put_pixel(x, y, image::Rgba([c.r, c.g, c.b, c.a]));
    }

    /// Relies on image::ImageBuffer::get_pixel: reads the pixel at (x, y),
    /// which must be in bounds (the method panics outside them).
    #[verifier::external_body]
    pub fn get(&self, x: u32, y: u32) -> (c: Color)
        requires
            (x as nat) < img_dims(*self).0,
            (y as nat) < img_dims(*self).1,
        ensures
            px(c) == img_pix(*self)[(x as int, y as int)],
    {
        let p = self.inner.get_pixel(x, y);
        Color { r: p.0[0], g: p.0[1], b: p.0[2], a: p.0[3] }
    }

    /// Relies on image::imageops::resize: an exact `w`-by-`h` resampling of
    /// the buffer. The precondition keeps the result's byte count inside a
    /// vector's limit, where allocating it would panic.
    #[verifier::external_body]
    pub(crate) fn resize(&self, w: u32, h: u32) -> (r: Bitmap)
        requires
            w as int * h as int * 4 <= usize::MAX as int,
        ensures
            img_dims(r) == (w as nat, h as nat),
            img_pix(r) == resized_pix(
                img_pix(*self),
                img_dims(*self).0,
                img_dims(*self).1,
                w as nat,
                h as nat,
            ),
    {
        Bitmap {
            inner: image::imageops::resize(&self.inner, w, h, image::imageops::FilterType::Triangle),
        }
    }

    /// Relies on image::ImageBuffer::from_raw: wraps `4 * w * h` bytes of
    /// row-major RGBA data, four consecutive bytes per pixel.
    #[verifier::external_body]
    pub fn from_raw(w: u32, h: u32, data: Vec<u8>) -> (r: Bitmap)
        requires
            w as int * h as int * 4 <= usize::MAX as int,
            data@.len() == w as int * h as int * 4,
        ensures
            img_dims(r) == (w as nat, h as nat),
            forall|x: int, y: int|
                0 <= x < w as int && 0 <= y < h as int ==> img_pix(r)[(x, y)] == (
                    data@[4 * (y * w as int + x)],
                    data@[4 * (y * w as int + x) + 1],
                    data@[4 * (y * w as int + x) + 2],
                    data@[4 * (y * w as int + x) + 3],
                ),
    {
        Bitmap { inner: image::RgbaImage::from_raw(w, h, data).unwrap() }
    }

    /// Relies on image::ImageBuffer::into_raw: the buffer's row-major RGBA
    /// bytes, four consecutive bytes per pixel.
    #[verifier::external_body]
    pub fn into_raw(self) -> (data: Vec<u8>)
        ensures
            data@.len() == 4 * img_dims(self).0 * img_dims(self).1,
            forall|x: int, y: int|
                0 <= x < img_dims(self).0 && 0 <= y < img_dims(self).1 ==> (
                    data@[4 * (y * img_dims(self).0 as int + x)],
                    data@[4 * (y * img_dims(self).0 as int + x) + 1],
                    data@[4 * (y * img_dims(self).0 as int + x) + 2],
                    data@[4 * (y * img_dims(self).0 as int + x) + 3],
                ) == img_pix(self)[(x, y)],
    {
        self.inner.into_raw()
    }
}

} // verus!
