//! Frame composition: horizontally concatenating rendered chunk cells into
//! one wide still image, pixel by pixel.

use vstd::prelude::*;
use crate::config::BigImg;
use crate::error::{Error, Kind};
use crate::imgbuf::{img_dims, img_pix, px, Bitmap};

verus! {

/// Copies `src` into `dst` with its top-left corner at (dx, dy): the target
/// rectangle becomes a copy of `src`, every other pixel keeps its value.
pub fn blit(dst: &mut Bitmap, src: &Bitmap, dx: u32, dy: u32)
    requires
        dx as nat + img_dims(*src).0 <= img_dims(*old(dst)).0,
        dy as nat + img_dims(*src).1 <= img_dims(*old(dst)).1,
    ensures
        img_dims(*final(dst)) == img_dims(*old(dst)),
        forall|x: int, y: int|
            dx as int <= x < dx as int + img_dims(*src).0 && dy as int <= y < dy as int
                + img_dims(*src).1 ==> img_pix(*final(dst))[(x, y)] == img_pix(*src)[
                (x - dx as int, y - dy as int)
            ],
        forall|x: int, y: int|
            !(dx as int <= x < dx as int + img_dims(*src).0 && dy as int <= y < dy as int
                + img_dims(*src).1) ==> img_pix(*final(dst))[(x, y)] == img_pix(*old(dst))[
                (x, y)
            ],
{
    let sw = src.width();
    let sh = src.height();
    let dw = dst.width();
    let dh = dst.height();
    let mut y: u32 = 0;
    while y < sh
        invariant
            sw as nat == img_dims(*src).0,
            sh as nat == img_dims(*src).1,
            dw as nat == img_dims(*dst).0,
            dh as nat == img_dims(*dst).1,
            dx as nat + sw as nat <= img_dims(*dst).0,
            dy as nat + sh as nat <= img_dims(*dst).1,
            y <= sh,
            img_dims(*dst) == img_dims(*old(dst)),
            forall|gx: int, gy: int|
                dx as int <= gx < dx as int + sw as int && dy as int <= gy < dy as int
                    + y as int ==> img_pix(*dst)[(gx, gy)] == img_pix(*src)[
                    (gx - dx as int, gy - dy as int)
                ],
            forall|gx: int, gy: int|
                !(dx as int <= gx < dx as int + sw as int && dy as int <= gy < dy as int
                    + y as int) ==> img_pix(*dst)[(gx, gy)] == img_pix(*old(dst))[(gx, gy)],
        decreases sh - y,
    {
        let mut x: u32 = 0;
        while x < sw
            invariant
                sw as nat == img_dims(*src).0,
                sh as nat == img_dims(*src).1,
                dw as nat == img_dims(*dst).0,
                dh as nat == img_dims(*dst).1,
                dx as nat + sw as nat <= img_dims(*dst).0,
                dy as nat + sh as nat <= img_dims(*dst).1,
                x <= sw,
                y < sh,
                img_dims(*dst) == img_dims(*old(dst)),
                forall|gx: int, gy: int|
                    dx as int <= gx < dx as int + sw as int && dy as int <= gy < dy as int
                        + y as int ==> img_pix(*dst)[(gx, gy)] == img_pix(*src)[
                        (gx - dx as int, gy - dy as int)
                    ],
                forall|gx: int|
                    dx as int <= gx < dx as int + x as int ==> #[trigger] img_pix(*dst)[
                        (gx, dy as int + y as int)
                    ] == img_pix(*src)[(gx - dx as int, y as int)],
                forall|gx: int, gy: int|
                    !(dx as int <= gx < dx as int + sw as int && dy as int <= gy < dy as int
                        + y as int) && !(dx as int <= gx < dx as int + x as int && gy == dy as int
                        + y as int) ==> img_pix(*dst)[(gx, gy)] == img_pix(*old(dst))[(gx, gy)],
            decreases sw - x,
        {
            let c = src.get(x, y);
            dst.put(dx + x, dy + y, c);
            x += 1;
        }
        y += 1;
    }
}

impl BigImg {
    /// Horizontally concatenates the rendered cells into one still image:
    /// cell `i` lands with its left edge at `i * width_chunk`.
    ///
    /// Composing no cells at all fails explicitly, and a cell count whose
    /// total width does not fit the width integer type fails with a
    /// numeric-range error; otherwise the still is `len * width_chunk` wide
    /// and `screen.1` tall, and every pixel comes from the cell that covers
    /// its column. Persisting the still is the caller's step.
    pub fn combain_chunk(&self, cells: &Vec<Bitmap>) -> (r: Result<Bitmap, Error>)
        requires
            forall|i: int|
                0 <= i < cells@.len() ==> img_dims(#[trigger] cells@[i]) == (
                    self.width_chunk as nat,
                    self.screen.1 as nat,
                ),
            cells@.len() as int * self.width_chunk as int <= u32::MAX ==> cells@.len() as int
                * self.width_chunk as int * self.screen.1 as int * 4 <= usize::MAX as int,
        ensures
            r is Ok <==> (1 <= cells@.len() && cells@.len() <= u32::MAX && cells@.len() as int
                * self.width_chunk as int <= u32::MAX),
            r matches Ok(img) ==> {
                &&& img_dims(img) == ((cells@.len() * self.width_chunk as nat) as nat,
                self.screen.1 as nat)
                &&& forall|x: int, y: int|
                    0 <= x < cells@.len() as int * self.width_chunk as int && 0 <= y
                        < self.screen.1 as int ==> img_pix(img)[(x, y)] == img_pix(
                        cells@[x / self.width_chunk as int],
                    )[(x % self.width_chunk as int, y)]
            },
            r matches Err(e) ==> (e.kind == Kind::Other <==> cells@.len() == 0) && (e.kind
                == Kind::TryFrom <==> cells@.len() > 0),
    {
        if cells.len() == 0 {
            return Err(Error::new(Kind::Other, "Empty chunk"));
        }
        if cells.len() > u32::MAX as usize {
            return Err(Error::new(Kind::TryFrom, "chunk count exceeds the width integer type"));
        }
        let len = cells.len() as u32;
        if self.width_chunk != 0 && len > u32::MAX / self.width_chunk {
            proof {
                assert(len as int * self.width_chunk as int > u32::MAX as int) by (nonlinear_arith)
                    requires
                        len as int > u32::MAX as int / self.width_chunk as int,
                        self.width_chunk >= 1,
                        u32::MAX as int == (u32::MAX as int / self.width_chunk as int)
                            * self.width_chunk as int + u32::MAX as int % self.width_chunk as int,
                        u32::MAX as int % self.width_chunk as int >= 0,
                        (u32::MAX as int % self.width_chunk as int) < self.width_chunk as int,
                ;
            }
            return Err(Error::new(Kind::TryFrom, "total width exceeds the width integer type"));
        }
        proof {
            if self.width_chunk != 0 {
                assert(len as int * self.width_chunk as int <= (u32::MAX as int
                    / self.width_chunk as int) * self.width_chunk as int) by (nonlinear_arith)
                    requires
                        len as int <= u32::MAX as int / self.width_chunk as int,
                        self.width_chunk >= 1,
                ;
                assert((u32::MAX as int / self.width_chunk as int) * self.width_chunk as int
                    <= u32::MAX as int) by (nonlinear_arith)
                    requires
                        self.width_chunk >= 1,
                ;
            } else {
                assert(len as int * self.width_chunk as int == 0) by (nonlinear_arith)
                    requires
                        self.width_chunk == 0,
                ;
            }
        }
        let total_w: u32 = len * self.width_chunk;
        let mut img = Bitmap::new(total_w, self.screen.1);
        let mut i: usize = 0;
        while i < cells.len()
            invariant
                cells@.len() == len as int,
                1 <= len,
                len as int * self.width_chunk as int <= u32::MAX as int,
                total_w as int == len as int * self.width_chunk as int,
                forall|k: int|
                    0 <= k < cells@.len() ==> img_dims(#[trigger] cells@[k]) == (
                        self.width_chunk as nat,
                        self.screen.1 as nat,
                    ),
                i <= cells@.len(),
                img_dims(img) == (total_w as nat, self.screen.1 as nat),
                forall|x: int, y: int|
                    0 <= x < i as int * self.width_chunk as int && 0 <= y
                        < self.screen.1 as int ==> img_pix(img)[(x, y)] == img_pix(
                        cells@[x / self.width_chunk as int],
                    )[(x % self.width_chunk as int, y)],
            decreases cells@.len() - i,
        {
            proof {
                assert((i as int + 1) * self.width_chunk as int == i as int
                    * self.width_chunk as int + self.width_chunk as int) by (nonlinear_arith);
                assert((i as int + 1) * self.width_chunk as int <= len as int
                    * self.width_chunk as int) by (nonlinear_arith)
                    requires
                        i as int + 1 <= len as int,
                        self.width_chunk >= 0,
                ;
                assert(i as int * self.width_chunk as int >= 0) by (nonlinear_arith)
                    requires
                        i >= 0,
                        self.width_chunk >= 0,
                ;
            }
            let x0: u32 = (i as u32) * self.width_chunk;
            blit(&mut img, &cells[i], x0, 0);
            proof {
                let wc = self.width_chunk as int;
                assert forall|x: int, y: int|
                    0 <= x < (i as int + 1) * wc && 0 <= y < self.screen.1 as int implies img_pix(
                    img,
                )[(x, y)] == img_pix(cells@[x / wc])[(x % wc, y)] by {
                    if x0 as int <= x {
                        assert(x / wc == i as int && x % wc == x - x0 as int) by (nonlinear_arith)
                            requires
                                x0 as int == i as int * wc,
                                x0 as int <= x < x0 as int + wc,
                                wc >= 1,
                        ;
                    }
                }
            }
            i += 1;
        }
        Ok(img)
    }
}

} // verus!
