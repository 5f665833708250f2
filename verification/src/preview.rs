//! A plain picture of the panel, three bytes per pixel, for showing what
//! the content generators draw without a panel.

use crate::color::{Pixel, Point, Size};
use crate::grid::{cell_index, lemma_cell_index_in_bounds, on_grid, valid_grid};
use core::convert::Infallible;
use vstd::prelude::*;

verus! {

/// The picture sizes that can be held: both sides fit a signed 32-bit
/// coordinate, and three bytes per pixel fit the machine.
pub open spec fn valid_picture(w: int, h: int) -> bool {
    &&& valid_grid(w, h)
    &&& w * h * 3 <= usize::MAX
}

/// Tells whether a picture of this size can be held.
pub fn picture_is_valid(w: usize, h: usize) -> (ok: bool)
    ensures
        ok == valid_picture(w as int, h as int),
{
    if !crate::grid::grid_is_valid(w, h) {
        return false;
    }
    (w * h).checked_mul(3).is_some()
}

/// A picture of `W` by `H` pixels: red, green and blue of each pixel, row
/// by row.
pub struct Buffer<const W: usize, const H: usize> {
    pub buffer: Vec<u8>,
}

/// The picture `picture` with the pixel at `(x, y)` set to `pixel`'s colour.
pub open spec fn with_pixel(picture: Seq<u8>, w: int, x: int, y: int, pixel: Pixel) -> Seq<u8> {
    let index = cell_index(w, x, y) * 3;
    picture.update(index, pixel.1.r).update(index + 1, pixel.1.g).update(index + 2, pixel.1.b)
}

/// The picture `picture` after `pixels` were drawn in order. A pixel that
/// is not in the picture leaves it as it is.
pub open spec fn painted(picture: Seq<u8>, w: int, h: int, pixels: Seq<Pixel>) -> Seq<u8>
    decreases pixels.len(),
{
    if pixels.len() == 0 {
        picture
    } else {
        let before = painted(picture, w, h, pixels.drop_last());
        let pixel = pixels.last();
        if on_grid(w, h, pixel.0.x as int, pixel.0.y as int) {
            with_pixel(before, w, pixel.0.x as int, pixel.0.y as int, pixel)
        } else {
            before
        }
    }
}

impl<const W: usize, const H: usize> Buffer<W, H> {
    /// A picture holds three bytes per pixel.
    pub open spec fn wf(&self) -> bool {
        &&& valid_picture(W as int, H as int)
        &&& self.buffer@.len() == W * H * 3
    }

    /// A black picture.
    pub fn new() -> (picture: Self)
        requires
            valid_picture(W as int, H as int),
        ensures
            picture.wf(),
            picture.buffer@ == Seq::new((W * H * 3) as nat, |i: int| 0u8),
    {
        let n: usize = W * H * 3;
        let mut buffer: Vec<u8> = Vec::new();
        let mut i: usize = 0;
        while i < n
            invariant
                i <= n,
                buffer@.len() == i,
                forall|k: int| 0 <= k < i ==> buffer@[k] == 0,
            decreases n - i,
        {
            buffer.push(0);
            i += 1;
        }
        assert(buffer@ =~= Seq::new((W * H * 3) as nat, |i: int| 0u8));
        Buffer { buffer }
    }

    /// Makes the picture black.
    pub fn clear(&mut self)
        requires
            old(self).wf(),
        ensures
            final(self).wf(),
            final(self).buffer@ == Seq::new((W * H * 3) as nat, |i: int| 0u8),
    {
        let n: usize = self.buffer.len();
        let mut i: usize = 0;
        while i < n
            invariant
                i <= n,
                n == self.buffer@.len(),
                self.wf(),
                forall|k: int| 0 <= k < i ==> self.buffer@[k] == 0,
            decreases n - i,
        {
            self.buffer[i] = 0;
            i += 1;
        }
        assert(self.buffer@ =~= Seq::new((W * H * 3) as nat, |i: int| 0u8));
    }

    /// The rectangle that the picture covers: its top left corner and its
    /// size.
    pub fn bounding_box(&self) -> (area: (Point, Size))
        requires
            self.wf(),
        ensures
            area.0 == (Point { x: 0, y: 0 }),
            area.1.width == W,
            area.1.height == H,
    {
        (Point::new(0, 0), Size::new(W as u32, H as u32))
    }

    /// Draws `pixels` in order. Pixels outside the picture are dropped, so
    /// drawing never fails.
    pub fn draw_iter(&mut self, pixels: &[Pixel]) -> (done: Result<(), Infallible>)
        requires
            old(self).wf(),
        ensures
            done is Ok,
            final(self).wf(),
            final(self).buffer@ == painted(old(self).buffer@, W as int, H as int, pixels@),
    {
        let n: usize = pixels.len();
        let mut i: usize = 0;
        while i < n
            invariant
                i <= n,
                n == pixels@.len(),
                self.wf(),
                self.buffer@ == painted(old(self).buffer@, W as int, H as int, pixels@.take(i as int)),
            decreases n - i,
        {
            let Pixel(point, colour) = pixels[i];
            proof {
                assert(pixels@.take(i + 1).drop_last() =~= pixels@.take(i as int));
                assert(pixels@.take(i + 1).last() == pixels@[i as int]);
            }
            if point.x >= 0 && point.x < W as i32 && point.y >= 0 && point.y < H as i32 {
                proof {
                    lemma_cell_index_in_bounds(W as int, H as int, point.x as int, point.y as int);
                    assert(cell_index(W as int, point.x as int, point.y as int) == W * point.y
                        + point.x) by (nonlinear_arith);
                }
                let index: usize = (W * point.y as usize + point.x as usize) * 3;
                self.buffer[index] = colour.r();
                self.buffer[index + 1] = colour.g();
                self.buffer[index + 2] = colour.b();
            }
            i += 1;
        }
        assert(pixels@.take(n as int) =~= pixels@);
        Ok(())
    }
}

} // verus!
