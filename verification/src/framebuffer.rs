//! The frame buffer in bit-plane form, as the pixel sequencer reads it.
//!
//! A buffer for `W` columns, `H` rows and `B` bit planes holds `W * H / 2 * B`
//! bytes. Two rows that are `H / 2` apart share a byte: bits 0 to 2 hold one
//! bit of red, green and blue of the row in the upper half, bits 3 to 5 those
//! of the row in the lower half. The panel is wired mirrored, so both axes are
//! flipped before a pixel is stored.

use crate::color::{Pixel, Rgb888, Size};
use crate::lut::Lut;
use core::convert::Infallible;
use vstd::arithmetic::div_mod::{
    lemma_fundamental_div_mod, lemma_fundamental_div_mod_converse, lemma_mod_sub_multiples_vanish,
    lemma_small_mod,
};
use vstd::arithmetic::power2::pow2;
use vstd::prelude::*;

verus! {

/// Frame buffer size in bytes, as a mathematical integer.
pub open spec fn fb_bytes_spec(w: int, h: int, b: int) -> int {
    w * h / 2 * b
}

/// Frame buffer size in bytes of a panel of 64 by 32 pixels with 8 bit
/// planes.
pub const FB_BYTES: usize = 64 * 32 / 2 * 8;

/// Frame buffer size in bytes.
pub fn fb_bytes(w: usize, h: usize, b: usize) -> (n: usize)
    requires
        w * h <= usize::MAX,
        fb_bytes_spec(w as int, h as int, b as int) <= usize::MAX,
    ensures
        n == fb_bytes_spec(w as int, h as int, b as int),
{
    w * h / 2 * b
}

/// The frame buffer of a dark panel: every byte is 0.
pub open spec fn blank_frame(w: int, h: int, b: int) -> Seq<u8> {
    Seq::new(fb_bytes_spec(w, h, b) as nat, |k: int| 0u8)
}

/// The panel sizes that a frame buffer can be made for: at least one column,
/// an even number of rows, 1 to 16 bit planes, and a byte count that the
/// machine can hold.
pub open spec fn valid_geometry(w: int, h: int, b: int) -> bool {
    &&& 1 <= w <= i32::MAX
    &&& 2 <= h <= i32::MAX
    &&& h % 2 == 0
    &&& 1 <= b <= 16
    &&& w * h <= usize::MAX
    &&& fb_bytes_spec(w, h, b) <= usize::MAX
}

/// Tells whether a frame buffer can be made for this panel size.
pub fn geometry_is_valid(w: usize, h: usize, b: usize) -> (ok: bool)
    ensures
        ok == valid_geometry(w as int, h as int, b as int),
{
    if w < 1 || w > 0x7fff_ffff || h < 2 || h > 0x7fff_ffff || h % 2 != 0 || b < 1 || b > 16 {
        return false;
    }
    match w.checked_mul(h) {
        Some(cells) => (cells / 2).checked_mul(b).is_some(),
        None => false,
    }
}

/// Column of `x` on the mirrored panel.
pub open spec fn mirrored_x(w: int, x: int) -> int {
    w - 1 - x
}

/// Row of `y` on the mirrored panel.
pub open spec fn mirrored_y(h: int, y: int) -> int {
    h - 1 - y
}

/// True if row `y` is stored in bits 3 to 5, false if in bits 0 to 2.
pub open spec fn in_lower_half(h: int, y: int) -> bool {
    mirrored_y(h, y) > h / 2 - 1
}

/// Position of the lowest of the three bits that row `y` is stored in.
pub open spec fn half_shift(h: int, y: int) -> u8 {
    if in_lower_half(h, y) {
        3
    } else {
        0
    }
}

/// The row pair that row `y` belongs to.
pub open spec fn row_pair(h: int, y: int) -> int {
    mirrored_y(h, y) % (h / 2)
}

/// Index of the byte that holds bit plane 0 of pixel `(x, y)`.
pub open spec fn base_index(w: int, h: int, b: int, x: int, y: int) -> int {
    mirrored_x(w, x) + row_pair(h, y) * w * b
}

/// Index of the byte that holds bit plane `plane` of pixel `(x, y)`.
pub open spec fn byte_index(w: int, h: int, b: int, x: int, y: int, plane: int) -> int {
    base_index(w, h, b, x, y) + plane * w
}

/// True if `(x, y)` is a position on a panel of `w` columns and `h` rows.
pub open spec fn on_panel(w: int, h: int, x: int, y: int) -> bool {
    0 <= x < w && 0 <= y < h
}

/// A channel value scaled by `brightness / 255`, rounded down.
pub open spec fn scaled(value: u16, brightness: u8) -> u16 {
    (value * brightness / 255) as u16
}

/// Bit `plane` of the three channels, packed as blue, green, red from bit 2
/// down to bit 0.
pub open spec fn plane_bits(levels: (u16, u16, u16), plane: usize) -> u8 {
    (((levels.2 >> plane) & 1) << 2 | ((levels.1 >> plane) & 1) << 1 | ((levels.0 >> plane)
        & 1)) as u8
}

/// Bit `plane` of a channel value: 0 or 1.
pub open spec fn channel_bit(value: u16, plane: nat) -> nat {
    (value as nat / pow2(plane)) % 2
}

/// The byte `old` with the three bits from `shift` upwards replaced by `bits`.
pub open spec fn merged(old: u8, bits: u8, shift: u8) -> u8 {
    (old & !(0b111u8 << shift)) | (bits << shift)
}

/// The three bits that `byte` holds from `shift` upwards.
pub open spec fn stored_bits(byte: u8, shift: u8) -> u8 {
    (byte >> shift) & 0b111
}

/// True if byte `i` holds one of the first `planes` bit planes of the pixel
/// whose plane 0 is at `base`.
pub open spec fn holds_plane(i: int, base: int, w: int, planes: int) -> bool {
    base <= i && (i - base) % w == 0 && (i - base) / w < planes
}

/// The buffer `old` after the first `planes` bit planes of pixel `(x, y)`
/// were written with `levels`. Every other byte, and the bits of the other
/// row in a byte that is written, stay as they are.
pub open spec fn written_planes(
    old: Seq<u8>,
    w: int,
    h: int,
    b: int,
    x: int,
    y: int,
    levels: (u16, u16, u16),
    planes: int,
) -> Seq<u8> {
    Seq::new(
        old.len(),
        |i: int|
            if holds_plane(i, base_index(w, h, b, x, y), w, planes) {
                merged(
                    old[i],
                    plane_bits(levels, ((i - base_index(w, h, b, x, y)) / w) as usize),
                    half_shift(h, y),
                )
            } else {
                old[i]
            },
    )
}

/// The buffer `old` after pixel `(x, y)` was written with `levels`.
pub open spec fn written(
    old: Seq<u8>,
    w: int,
    h: int,
    b: int,
    x: int,
    y: int,
    levels: (u16, u16, u16),
) -> Seq<u8> {
    written_planes(old, w, h, b, x, y, levels, b)
}

/// `w * h / 2` is `w` times the number of row pairs when `h` is even.
pub proof fn lemma_half_rows(w: int, h: int)
    requires
        h % 2 == 0,
    ensures
        w * h / 2 == w * (h / 2),
{
    let k = h / 2;
    assert(h == 2 * k);
    assert(w * h == 2 * (w * k)) by (nonlinear_arith)
        requires
            h == 2 * k,
    ;
}

/// Every bit plane of every pixel on the panel lies inside the buffer.
pub proof fn lemma_byte_index_in_bounds(w: int, h: int, b: int, x: int, y: int, plane: int)
    requires
        valid_geometry(w, h, b),
        0 <= x < w,
        0 <= y < h,
        0 <= plane < b,
    ensures
        0 <= base_index(w, h, b, x, y),
        base_index(w, h, b, x, y) <= byte_index(w, h, b, x, y, plane) < fb_bytes_spec(w, h, b),
        0 <= row_pair(h, y) < h / 2,
        row_pair(h, y) * w < w * h / 2,
        row_pair(h, y) * w * b < fb_bytes_spec(w, h, b),
        plane * w <= byte_index(w, h, b, x, y, plane),
{
    let k = h / 2;
    let row = row_pair(h, y);
    let xm = mirrored_x(w, x);
    lemma_half_rows(w, h);
    assert(0 <= row < k);
    assert(0 <= row * w && row * w + w <= w * k) by (nonlinear_arith)
        requires
            0 <= row < k,
            1 <= w,
    ;
    assert(0 <= row * w * b && row * w * b + w * b <= w * k * b) by (nonlinear_arith)
        requires
            0 <= row * w,
            row * w + w <= w * k,
            1 <= b,
    ;
    assert(0 <= plane * w && plane * w + w <= w * b) by (nonlinear_arith)
        requires
            0 <= plane < b,
            1 <= w,
    ;
}

/// A frame buffer of `W` columns, `H` rows and `B` bit planes, together with
/// the table and the brightness that colours are encoded with.
pub struct FrameBuffer<'a, L: Lut, const W: usize, const H: usize, const B: usize> {
    data: Vec<u8>,
    lut: &'a L,
    brightness: u8,
}

impl<'a, L: Lut, const W: usize, const H: usize, const B: usize> View for FrameBuffer<
    'a,
    L,
    W,
    H,
    B,
> {
    type V = Seq<u8>;

    /// The bytes of the buffer, in the order in which they are streamed.
    closed spec fn view(&self) -> Seq<u8> {
        self.data@
    }
}

impl<'a, L: Lut, const W: usize, const H: usize, const B: usize> FrameBuffer<'a, L, W, H, B> {
    #[verifier::type_invariant]
    spec fn well_formed(&self) -> bool {
        &&& valid_geometry(W as int, H as int, B as int)
        &&& self.data@.len() == fb_bytes_spec(W as int, H as int, B as int)
    }

    /// The table that colours are looked up in.
    pub closed spec fn lut_spec(&self) -> &'a L {
        self.lut
    }

    /// The brightness that looked-up levels are scaled by.
    pub closed spec fn brightness_spec(&self) -> u8 {
        self.brightness
    }

    /// The levels that `color` is stored as: looked up, then scaled by the
    /// brightness.
    pub open spec fn output_levels(&self, color: Rgb888) -> (u16, u16, u16) {
        let looked_up = self.lut_spec().lookup_spec(color);
        (
            scaled(looked_up.0, self.brightness_spec()),
            scaled(looked_up.1, self.brightness_spec()),
            scaled(looked_up.2, self.brightness_spec()),
        )
    }

    /// Wraps `data` as a frame buffer.
    pub fn new(data: Vec<u8>, lut: &'a L, brightness: u8) -> (fb: Self)
        requires
            valid_geometry(W as int, H as int, B as int),
            data@.len() == fb_bytes_spec(W as int, H as int, B as int),
        ensures
            fb@ == data@,
            fb.lut_spec() == lut,
            fb.brightness_spec() == brightness,
    {
        FrameBuffer { data, lut, brightness }
    }

    /// The bytes of the buffer.
    pub fn data(&self) -> (bytes: &[u8])
        ensures
            bytes@ == self@,
            bytes@.len() == fb_bytes_spec(W as int, H as int, B as int),
    {
        proof {
            use_type_invariant(self);
        }
        self.data.as_slice()
    }

    /// Stores `color` at `(x, y)`: mirrors both axes, looks the colour up,
    /// scales it by the brightness and writes one bit of each channel into
    /// each of the `B` bit planes. The bits of the row that shares the bytes
    /// are kept. A pixel that is not on the panel is dropped: the buffer
    /// stays as it is.
    pub fn set_pixel(&mut self, x: usize, y: usize, color: Rgb888)
        ensures
            final(self)@ == if on_panel(W as int, H as int, x as int, y as int) {
                written(
                    old(self)@,
                    W as int,
                    H as int,
                    B as int,
                    x as int,
                    y as int,
                    old(self).output_levels(color),
                )
            } else {
                old(self)@
            },
            final(self).lut_spec() == old(self).lut_spec(),
            final(self).brightness_spec() == old(self).brightness_spec(),
    {
        if x >= W || y >= H {
            return ;
        }
        proof {
            use_type_invariant(&*self);
            lemma_byte_index_in_bounds(W as int, H as int, B as int, x as int, y as int, 0);
        }
        // invert the screen
        let xm: usize = W - 1 - x;
        let ym: usize = H - 1 - y;
        // Half of the screen
        let lower: bool = ym > (H / 2) - 1;
        let shift: u8 = if lower {
            3
        } else {
            0
        };
        let (l_r, l_g, l_b) = self.lut.lookup(color);
        let c_r: u16 = scale(l_r, self.brightness);
        let c_g: u16 = scale(l_g, self.brightness);
        let c_b: u16 = scale(l_b, self.brightness);
        let base_idx: usize = xm + ((ym % (H / 2)) * W * B);
        let ghost levels = (c_r, c_g, c_b);
        let ghost before = self.data@;
        assert(self.data@ =~= written_planes(
            before,
            W as int,
            H as int,
            B as int,
            x as int,
            y as int,
            levels,
            0,
        ));
        let mut plane: usize = 0;
        while plane < B
            invariant
                plane <= B,
                x < W,
                y < H,
                valid_geometry(W as int, H as int, B as int),
                before.len() == fb_bytes_spec(W as int, H as int, B as int),
                base_idx == base_index(W as int, H as int, B as int, x as int, y as int),
                shift == half_shift(H as int, y as int),
                levels == (c_r, c_g, c_b),
                self.lut == old(self).lut,
                self.brightness == old(self).brightness,
                self.data@ == written_planes(
                    before,
                    W as int,
                    H as int,
                    B as int,
                    x as int,
                    y as int,
                    levels,
                    plane as int,
                ),
            decreases B - plane,
        {
            proof {
                lemma_byte_index_in_bounds(
                    W as int,
                    H as int,
                    B as int,
                    x as int,
                    y as int,
                    plane as int,
                );
            }
            // Extract the n-th bit of each component of the color and pack them
            let cr: u16 = (c_r >> plane) & 0b1;
            let cg: u16 = (c_g >> plane) & 0b1;
            let cb: u16 = (c_b >> plane) & 0b1;
            let packed_rgb: u8 = (cb << 2 | cg << 1 | cr) as u8;
            let idx: usize = base_idx + plane * W;
            let kept: u8 = self.data[idx] & !(0b111u8 << shift);
            self.data[idx] = kept | (packed_rgb << shift);
            proof {
                lemma_written_one_more_plane(
                    before,
                    W as int,
                    H as int,
                    B as int,
                    x as int,
                    y as int,
                    levels,
                    plane as int,
                );
                assert(self.data@ =~= written_planes(
                    before,
                    W as int,
                    H as int,
                    B as int,
                    x as int,
                    y as int,
                    levels,
                    plane + 1,
                ));
            }
            plane += 1;
        }
    }

    /// Sets every byte of the buffer to `value`.
    pub fn fill(&mut self, value: u8)
        ensures
            final(self)@ == Seq::new(old(self)@.len(), |i: int| value),
            final(self).lut_spec() == old(self).lut_spec(),
            final(self).brightness_spec() == old(self).brightness_spec(),
    {
        proof {
            use_type_invariant(&*self);
        }
        let n: usize = self.data.len();
        let mut i: usize = 0;
        while i < n
            invariant
                i <= n,
                n == self.data@.len(),
                n == old(self).data@.len(),
                valid_geometry(W as int, H as int, B as int),
                n == fb_bytes_spec(W as int, H as int, B as int),
                self.lut == old(self).lut,
                self.brightness == old(self).brightness,
                forall|k: int| 0 <= k < i ==> self.data@[k] == value,
            decreases n - i,
        {
            self.data[i] = value;
            i += 1;
        }
        assert(self.data@ =~= Seq::new(old(self)@.len(), |i: int| value));
    }

    /// Changes the brightness that later pixels are scaled by.
    pub fn set_brightness(&mut self, brightness: u8)
        ensures
            final(self)@ == old(self)@,
            final(self).lut_spec() == old(self).lut_spec(),
            final(self).brightness_spec() == brightness,
    {
        proof {
            use_type_invariant(&*self);
        }
        self.brightness = brightness;
    }

    /// The size of the panel in pixels.
    pub fn size(&self) -> (s: Size)
        ensures
            s.width == W,
            s.height == H,
    {
        proof {
            use_type_invariant(self);
        }
        Size::new(W as u32, H as u32)
    }

    /// The buffer `data` after `pixels` were drawn in order. A pixel that is
    /// not on the panel leaves the buffer as it is.
    pub open spec fn drawn(&self, data: Seq<u8>, pixels: Seq<Pixel>) -> Seq<u8>
        decreases pixels.len(),
    {
        if pixels.len() == 0 {
            data
        } else {
            let before = self.drawn(data, pixels.drop_last());
            let Pixel(point, color) = pixels.last();
            if on_panel(W as int, H as int, point.x as int, point.y as int) {
                written(
                    before,
                    W as int,
                    H as int,
                    B as int,
                    point.x as int,
                    point.y as int,
                    self.output_levels(color),
                )
            } else {
                before
            }
        }
    }

    /// Draws `pixels` in order. Pixels outside the panel are dropped, so
    /// drawing never fails.
    pub fn draw_iter(&mut self, pixels: &[Pixel]) -> (done: Result<(), Infallible>)
        ensures
            done is Ok,
            final(self)@ == old(self).drawn(old(self)@, pixels@),
            final(self)@.len() == old(self)@.len(),
            final(self).lut_spec() == old(self).lut_spec(),
            final(self).brightness_spec() == old(self).brightness_spec(),
    {
        proof {
            use_type_invariant(&*self);
        }
        let n: usize = pixels.len();
        let mut i: usize = 0;
        while i < n
            invariant
                i <= n,
                n == pixels@.len(),
                valid_geometry(W as int, H as int, B as int),
                self.lut == old(self).lut,
                self.brightness == old(self).brightness,
                self@ == old(self).drawn(old(self)@, pixels@.take(i as int)),
            decreases n - i,
        {
            let Pixel(coord, color) = pixels[i];
            proof {
                assert(pixels@.take(i + 1).drop_last() =~= pixels@.take(i as int));
                assert(pixels@.take(i + 1).last() == pixels@[i as int]);
            }
            if coord.x < W as i32 && coord.y < H as i32 && coord.x >= 0 && coord.y >= 0 {
                self.set_pixel(coord.x as usize, coord.y as usize, color);
            }
            i += 1;
        }
        assert(pixels@.take(n as int) =~= pixels@);
        proof {
            use_type_invariant(&*self);
        }
        Ok(())
    }
}

/// Drawing a pixel that is not on the panel leaves the buffer unchanged.
pub proof fn lemma_off_panel_pixel_changes_nothing<
    'a,
    L: Lut,
    const W: usize,
    const H: usize,
    const B: usize,
>(fb: FrameBuffer<'a, L, W, H, B>, data: Seq<u8>, pixel: Pixel)
    requires
        !on_panel(W as int, H as int, pixel.0.x as int, pixel.0.y as int),
    ensures
        fb.drawn(data, seq![pixel]) == data,
{
    assert(seq![pixel].drop_last() =~= Seq::<Pixel>::empty());
    assert(fb.drawn(data, Seq::<Pixel>::empty()) == data);
    assert(seq![pixel].last() == pixel);
}

/// What drawing does to a buffer depends only on the table and the
/// brightness of the frame buffer, not on what it holds.
pub proof fn lemma_drawn_depends_on_encoding<
    'a,
    L: Lut,
    const W: usize,
    const H: usize,
    const B: usize,
>(
    one: FrameBuffer<'a, L, W, H, B>,
    other: FrameBuffer<'a, L, W, H, B>,
    data: Seq<u8>,
    pixels: Seq<Pixel>,
)
    requires
        one.lut_spec() == other.lut_spec(),
        one.brightness_spec() == other.brightness_spec(),
    ensures
        one.drawn(data, pixels) == other.drawn(data, pixels),
    decreases pixels.len(),
{
    if pixels.len() > 0 {
        lemma_drawn_depends_on_encoding(one, other, data, pixels.drop_last());
    }
}

/// Scales a channel value by `brightness / 255`, rounding down.
pub fn scale(value: u16, brightness: u8) -> (out: u16)
    ensures
        out == scaled(value, brightness),
        out <= value,
{
    assert(value * brightness <= 65535 * 255) by (nonlinear_arith)
        requires
            value <= 65535,
            brightness <= 255,
    ;
    let product: u32 = value as u32 * brightness as u32;
    assert(product / 255 <= value) by (nonlinear_arith)
        requires
            product == value * brightness,
            brightness <= 255,
    ;
    (product / 255) as u16
}

/// Writing one more plane changes exactly the byte of that plane.
proof fn lemma_written_one_more_plane(
    old: Seq<u8>,
    w: int,
    h: int,
    b: int,
    x: int,
    y: int,
    levels: (u16, u16, u16),
    plane: int,
)
    requires
        valid_geometry(w, h, b),
        0 <= x < w,
        0 <= y < h,
        0 <= plane < b,
        old.len() == fb_bytes_spec(w, h, b),
    ensures
        written_planes(old, w, h, b, x, y, levels, plane + 1) == written_planes(
            old,
            w,
            h,
            b,
            x,
            y,
            levels,
            plane,
        ).update(
            byte_index(w, h, b, x, y, plane),
            merged(
                old[byte_index(w, h, b, x, y, plane)],
                plane_bits(levels, plane as usize),
                half_shift(h, y),
            ),
        ),
        written_planes(old, w, h, b, x, y, levels, plane)[byte_index(w, h, b, x, y, plane)]
            == old[byte_index(w, h, b, x, y, plane)],
{
    let base = base_index(w, h, b, x, y);
    let idx = byte_index(w, h, b, x, y, plane);
    lemma_byte_index_in_bounds(w, h, b, x, y, plane);
    lemma_fundamental_div_mod_converse(plane * w, w, plane, 0);
    assert forall|i: int| 0 <= i < old.len() implies (holds_plane(i, base, w, plane + 1) <==> (
    holds_plane(i, base, w, plane) || i == idx)) by {
        if base <= i && (i - base) % w == 0 {
            lemma_fundamental_div_mod(i - base, w);
            if (i - base) / w == plane {
                assert(w * ((i - base) / w) == w * plane);
                assert(w * plane == plane * w) by (nonlinear_arith);
            }
        }
    }
    assert(written_planes(old, w, h, b, x, y, levels, plane + 1) =~= written_planes(
        old,
        w,
        h,
        b,
        x,
        y,
        levels,
        plane,
    ).update(
        idx,
        merged(old[idx], plane_bits(levels, plane as usize), half_shift(h, y)),
    ));
}

/// The three bits that `data` holds for bit plane `plane` of pixel `(x, y)`:
/// red in bit 0, green in bit 1, blue in bit 2.
pub open spec fn pixel_bits(data: Seq<u8>, w: int, h: int, b: int, x: int, y: int, plane: int) -> u8 {
    stored_bits(data[byte_index(w, h, b, x, y, plane)], half_shift(h, y))
}

/// Two bit planes share a byte only if they are the same plane of the same
/// column in the same row pair.
pub proof fn lemma_byte_index_injective(
    w: int,
    h: int,
    b: int,
    x1: int,
    y1: int,
    plane1: int,
    x2: int,
    y2: int,
    plane2: int,
)
    requires
        valid_geometry(w, h, b),
        0 <= x1 < w,
        0 <= y1 < h,
        0 <= plane1 < b,
        0 <= x2 < w,
        0 <= y2 < h,
        0 <= plane2 < b,
        byte_index(w, h, b, x1, y1, plane1) == byte_index(w, h, b, x2, y2, plane2),
    ensures
        x1 == x2,
        plane1 == plane2,
        row_pair(h, y1) == row_pair(h, y2),
        y1 != y2 ==> half_shift(h, y1) != half_shift(h, y2),
{
    let row1 = row_pair(h, y1);
    let row2 = row_pair(h, y2);
    let idx = byte_index(w, h, b, x1, y1, plane1);
    lemma_byte_index_in_bounds(w, h, b, x1, y1, plane1);
    lemma_byte_index_in_bounds(w, h, b, x2, y2, plane2);
    assert(idx == (row1 * b + plane1) * w + mirrored_x(w, x1)) by (nonlinear_arith)
        requires
            idx == mirrored_x(w, x1) + row1 * w * b + plane1 * w,
    ;
    assert(idx == (row2 * b + plane2) * w + mirrored_x(w, x2)) by (nonlinear_arith)
        requires
            idx == mirrored_x(w, x2) + row2 * w * b + plane2 * w,
    ;
    lemma_fundamental_div_mod_converse(idx, w, row1 * b + plane1, mirrored_x(w, x1));
    lemma_fundamental_div_mod_converse(idx, w, row2 * b + plane2, mirrored_x(w, x2));
    let cell = row1 * b + plane1;
    assert(cell == row2 * b + plane2);
    lemma_fundamental_div_mod_converse(cell, b, row1, plane1);
    lemma_fundamental_div_mod_converse(cell, b, row2, plane2);
    if y1 != y2 {
        let k = h / 2;
        lemma_fundamental_div_mod(mirrored_y(h, y1), k);
        lemma_fundamental_div_mod(mirrored_y(h, y2), k);
        lemma_rows_of_a_pair(h, y1);
        lemma_rows_of_a_pair(h, y2);
    }
}

/// A row is its row pair, plus half the height if it is in the lower half.
proof fn lemma_rows_of_a_pair(h: int, y: int)
    requires
        2 <= h,
        h % 2 == 0,
        0 <= y < h,
    ensures
        mirrored_y(h, y) == row_pair(h, y) + if in_lower_half(h, y) {
            h / 2
        } else {
            0
        },
{
    let k = h / 2;
    let ym = mirrored_y(h, y);
    if ym < k {
        lemma_small_mod(ym as nat, k as nat);
    } else {
        lemma_small_mod((ym - k) as nat, k as nat);
        lemma_mod_sub_multiples_vanish(ym, k);
    }
}

/// The buffer is laid out as it is streamed: row pair by row pair, within a
/// row pair plane by plane, within a plane column by column. So the `w`
/// bytes of one plane of one row pair follow each other, which is the burst
/// that the pixel sequencer shifts out before it waits for the latch.
pub proof fn lemma_burst_layout(w: int, h: int, b: int, x: int, y: int, plane: int)
    requires
        valid_geometry(w, h, b),
        0 <= x < w,
        0 <= y < h,
        0 <= plane < b,
    ensures
        byte_index(w, h, b, x, y, plane) == (row_pair(h, y) * b + plane) * w + mirrored_x(w, x),
        byte_index(w, h, b, x, y, plane) % w == mirrored_x(w, x),
        (byte_index(w, h, b, x, y, plane) / w) % b == plane,
        (byte_index(w, h, b, x, y, plane) / w) / b == row_pair(h, y),
{
    let row = row_pair(h, y);
    let idx = byte_index(w, h, b, x, y, plane);
    lemma_byte_index_in_bounds(w, h, b, x, y, plane);
    assert(idx == (row * b + plane) * w + mirrored_x(w, x)) by (nonlinear_arith)
        requires
            idx == mirrored_x(w, x) + row * w * b + plane * w,
    ;
    lemma_fundamental_div_mod_converse(idx, w, row * b + plane, mirrored_x(w, x));
    lemma_fundamental_div_mod_converse(row * b + plane, b, row, plane);
}

/// The packed bits of a plane use bits 0 to 2 only.
pub proof fn lemma_plane_bits_fit(levels: (u16, u16, u16), plane: usize)
    requires
        plane < 16,
    ensures
        plane_bits(levels, plane) <= 7,
{
    let r = levels.0;
    let g = levels.1;
    let b = levels.2;
    let packed: u16 = ((b >> plane) & 1) << 2 | ((g >> plane) & 1) << 1 | ((r >> plane) & 1);
    assert(packed <= 7) by (bit_vector)
        requires
            packed == ((b >> plane) & 1) << 2 | ((g >> plane) & 1) << 1 | ((r >> plane) & 1),
    ;
}

/// The packed bits of a plane are bit `plane` of red, twice that of green
/// and four times that of blue.
pub proof fn lemma_plane_bits_are_channel_bits(levels: (u16, u16, u16), plane: usize)
    requires
        plane < 16,
    ensures
        plane_bits(levels, plane) == channel_bit(levels.0, plane as nat) + 2 * channel_bit(
            levels.1,
            plane as nat,
        ) + 4 * channel_bit(levels.2, plane as nat),
{
    let r = levels.0;
    let g = levels.1;
    let b = levels.2;
    let p = plane as u16;
    let weight: u16 = 1u16 << p;
    vstd::bits::lemma_u16_pow2_no_overflow(plane as nat);
    vstd::bits::lemma_u16_shl_is_mul(1, p);
    assert(weight == pow2(plane as nat));
    assert(weight > 0);
    assert((r >> p) & 1 == (r / weight) % 2) by (bit_vector)
        requires
            p < 16,
            weight == 1u16 << p,
    ;
    assert((g >> p) & 1 == (g / weight) % 2) by (bit_vector)
        requires
            p < 16,
            weight == 1u16 << p,
    ;
    assert((b >> p) & 1 == (b / weight) % 2) by (bit_vector)
        requires
            p < 16,
            weight == 1u16 << p,
    ;
    let rb: u16 = (r >> p) & 1;
    let gb: u16 = (g >> p) & 1;
    let bb: u16 = (b >> p) & 1;
    assert(bb << 2 | gb << 1 | rb == rb + 2 * gb + 4 * bb) by (bit_vector)
        requires
            rb <= 1,
            gb <= 1,
            bb <= 1,
    ;
    assert(r >> p == r >> plane);
    assert(g >> p == g >> plane);
    assert(b >> p == b >> plane);
}

/// Replacing the three bits of one half of a byte stores the new bits there,
/// keeps the three bits of the other half, and keeps bits 6 and 7.
pub proof fn lemma_merged_halves(old: u8, bits: u8)
    requires
        bits <= 7,
    ensures
        stored_bits(merged(old, bits, 0), 0) == bits,
        stored_bits(merged(old, bits, 3), 3) == bits,
        stored_bits(merged(old, bits, 0), 3) == stored_bits(old, 3),
        stored_bits(merged(old, bits, 3), 0) == stored_bits(old, 0),
        merged(old, bits, 0) >> 6 == old >> 6,
        merged(old, bits, 3) >> 6 == old >> 6,
{
    assert(((old & !(0b111u8 << 0u8)) | (bits << 0u8)) >> 0u8 & 0b111 == bits) by (bit_vector)
        requires
            bits <= 7,
    ;
    assert(((old & !(0b111u8 << 3u8)) | (bits << 3u8)) >> 3u8 & 0b111 == bits) by (bit_vector)
        requires
            bits <= 7,
    ;
    assert(((old & !(0b111u8 << 0u8)) | (bits << 0u8)) >> 3u8 & 0b111 == (old >> 3u8) & 0b111)
        by (bit_vector)
        requires
            bits <= 7,
    ;
    assert(((old & !(0b111u8 << 3u8)) | (bits << 3u8)) >> 0u8 & 0b111 == (old >> 0u8) & 0b111)
        by (bit_vector)
        requires
            bits <= 7,
    ;
    assert(((old & !(0b111u8 << 0u8)) | (bits << 0u8)) >> 6u8 == old >> 6u8) by (bit_vector)
        requires
            bits <= 7,
    ;
    assert(((old & !(0b111u8 << 3u8)) | (bits << 3u8)) >> 6u8 == old >> 6u8) by (bit_vector)
        requires
            bits <= 7,
    ;
}

/// The byte of a plane of `(x, y)` is the only one of its planes at that
/// index: reading `written` there gives the merged byte.
proof fn lemma_written_at_own_plane(
    old: Seq<u8>,
    w: int,
    h: int,
    b: int,
    x: int,
    y: int,
    levels: (u16, u16, u16),
    plane: int,
)
    requires
        valid_geometry(w, h, b),
        0 <= x < w,
        0 <= y < h,
        0 <= plane < b,
        old.len() == fb_bytes_spec(w, h, b),
    ensures
        written(old, w, h, b, x, y, levels)[byte_index(w, h, b, x, y, plane)] == merged(
            old[byte_index(w, h, b, x, y, plane)],
            plane_bits(levels, plane as usize),
            half_shift(h, y),
        ),
{
    let base = base_index(w, h, b, x, y);
    let idx = byte_index(w, h, b, x, y, plane);
    lemma_byte_index_in_bounds(w, h, b, x, y, plane);
    lemma_fundamental_div_mod_converse(plane * w, w, plane, 0);
    assert(holds_plane(idx, base, w, b));
}

/// After a pixel is written, each of its bit planes holds bit `plane` of the
/// three levels it was written with.
pub proof fn lemma_written_round_trip(
    old: Seq<u8>,
    w: int,
    h: int,
    b: int,
    x: int,
    y: int,
    levels: (u16, u16, u16),
    plane: int,
)
    requires
        valid_geometry(w, h, b),
        0 <= x < w,
        0 <= y < h,
        0 <= plane < b,
        old.len() == fb_bytes_spec(w, h, b),
    ensures
        pixel_bits(written(old, w, h, b, x, y, levels), w, h, b, x, y, plane) == plane_bits(
            levels,
            plane as usize,
        ),
{
    lemma_written_at_own_plane(old, w, h, b, x, y, levels, plane);
    lemma_plane_bits_fit(levels, plane as usize);
    lemma_merged_halves(
        old[byte_index(w, h, b, x, y, plane)],
        plane_bits(levels, plane as usize),
    );
}

/// Writing a pixel leaves the stored bits of every other pixel as they were.
pub proof fn lemma_written_keeps_other_pixels(
    old: Seq<u8>,
    w: int,
    h: int,
    b: int,
    x: int,
    y: int,
    levels: (u16, u16, u16),
    x2: int,
    y2: int,
    plane2: int,
)
    requires
        valid_geometry(w, h, b),
        0 <= x < w,
        0 <= y < h,
        0 <= x2 < w,
        0 <= y2 < h,
        0 <= plane2 < b,
        x2 != x || y2 != y,
        old.len() == fb_bytes_spec(w, h, b),
    ensures
        pixel_bits(written(old, w, h, b, x, y, levels), w, h, b, x2, y2, plane2) == pixel_bits(
            old,
            w,
            h,
            b,
            x2,
            y2,
            plane2,
        ),
{
    let base = base_index(w, h, b, x, y);
    let i2 = byte_index(w, h, b, x2, y2, plane2);
    lemma_byte_index_in_bounds(w, h, b, x2, y2, plane2);
    if holds_plane(i2, base, w, b) {
        let q = (i2 - base) / w;
        lemma_fundamental_div_mod(i2 - base, w);
        assert(w * q == q * w) by (nonlinear_arith);
        assert(0 <= q) by (nonlinear_arith)
            requires
                w * q == i2 - base,
                i2 - base >= 0,
                w >= 1,
        ;
        assert(i2 == byte_index(w, h, b, x, y, q));
        lemma_byte_index_injective(w, h, b, x, y, q, x2, y2, plane2);
        lemma_plane_bits_fit(levels, q as usize);
        lemma_merged_halves(old[i2], plane_bits(levels, q as usize));
    }
}

/// Writing a pixel never touches bits 6 and 7 of any byte.
pub proof fn lemma_written_keeps_spare_bits(
    old: Seq<u8>,
    w: int,
    h: int,
    b: int,
    x: int,
    y: int,
    levels: (u16, u16, u16),
    i: int,
)
    requires
        valid_geometry(w, h, b),
        0 <= x < w,
        0 <= y < h,
        0 <= i < old.len(),
        old.len() == fb_bytes_spec(w, h, b),
    ensures
        written(old, w, h, b, x, y, levels)[i] >> 6 == old[i] >> 6,
{
    let base = base_index(w, h, b, x, y);
    if holds_plane(i, base, w, b) {
        let q = (i - base) / w;
        lemma_fundamental_div_mod(i - base, w);
        assert(0 <= q) by (nonlinear_arith)
            requires
                w * q == i - base,
                i - base >= 0,
                w >= 1,
        ;
        lemma_plane_bits_fit(levels, q as usize);
        lemma_merged_halves(old[i], plane_bits(levels, q as usize));
    }
}

} // verus!
