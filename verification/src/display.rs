//! The memory that the streaming engines read, and the swap of the two
//! frame buffers.
//!
//! One buffer is streamed to the panel while the other is drawn. Which one
//! is streamed is decided by a single word, the indirection cell: the loop
//! transfer reads it once per pass. A swap is one write to that cell.
//!
//! The engine picks a new address up only at its next pass, so for a moment
//! after the write it still reads the old buffer. The policy here is that a
//! swap does not return before that pass has begun. The caller hands the
//! swap a `publish`, which is called with the new content of the cell: it
//! stores the address where the engine reads it, and returns once the loop
//! transfer has run. Only then is the old buffer cleared or given out for
//! drawing.

use crate::color::{Pixel, Rgb888, Size};
use crate::delay::{delays, dwell};
use crate::framebuffer::{
    blank_frame, fb_bytes, fb_bytes_spec, lemma_drawn_depends_on_encoding, on_panel,
    valid_geometry, written, FrameBuffer,
};
use crate::lut::Lut;
use crate::setup::{
    intensity_sequencer_config, pixel_sequencer_config, row_sequencer_config,
    setup_delay_state_machine, setup_rgb_state_machine, setup_row_state_machine, ClockDivider,
    Pins, SequencerConfig,
};
use crate::stream::{
    loop_transfer, main_transfer, setup_framebuffer_channel, setup_framebuffer_loop_channel,
    setup_oe_channel, setup_oe_loop_channel, IndirectionCell, StreamPair, TreqSel,
};
use crate::visualisation::Visualisation;
use core::convert::Infallible;
use vstd::prelude::*;

verus! {

/// What lies in memory for the streaming engines: the two frame buffers, the
/// indirection cell, the delay table and the cell that holds its address.
pub struct DisplayMemory<'a, L: Lut, const W: usize, const H: usize, const B: usize> {
    fbptr: IndirectionCell,
    fb0: FrameBuffer<'a, L, W, H, B>,
    fb1: FrameBuffer<'a, L, W, H, B>,
    addr0: u32,
    addr1: u32,
    drawing: usize,
    delays: [u32; B],
    delaysptr: u32,
}

impl<'a, L: Lut, const W: usize, const H: usize, const B: usize> DisplayMemory<'a, L, W, H, B> {
    /// The address in the indirection cell.
    pub closed spec fn cell(&self) -> u32 {
        self.fbptr@
    }

    /// Index of the buffer that is drawn: 0 or 1.
    pub closed spec fn drawing(&self) -> int {
        self.drawing as int
    }

    /// Index of the buffer that is not drawn.
    pub open spec fn showing(&self) -> int {
        1 - self.drawing()
    }

    /// Buffer `i`.
    pub closed spec fn framebuffer(&self, i: int) -> FrameBuffer<'a, L, W, H, B> {
        if i == 0 {
            self.fb0
        } else {
            self.fb1
        }
    }

    /// The address at which buffer `i` lies for the streaming engine.
    pub closed spec fn address(&self, i: int) -> u32 {
        if i == 0 {
            self.addr0
        } else {
            self.addr1
        }
    }

    /// The delay table.
    pub closed spec fn delay_table(&self) -> Seq<u32> {
        self.delays@
    }

    /// The content of the cell that holds the address of the delay table.
    pub closed spec fn delay_cell(&self) -> u32 {
        self.delaysptr
    }

    /// The memory is well formed if one of the two buffers is the one that
    /// is drawn, and the delay table holds the dwell time of each plane.
    pub open spec fn wf(&self) -> bool {
        &&& 0 <= self.drawing() <= 1
        &&& valid_geometry(W as int, H as int, B as int)
        &&& self.framebuffer(0)@.len() == fb_bytes_spec(W as int, H as int, B as int)
        &&& self.framebuffer(1)@.len() == fb_bytes_spec(W as int, H as int, B as int)
        &&& self.delay_table().len() == B
        &&& forall|i: int| 0 <= i < B ==> self.delay_table()[i] == dwell(i as nat)
    }

    /// The memory is bound once the addresses of its buffers are known. Then
    /// the two buffers lie at different addresses, and the cell holds the
    /// address of the buffer that is not drawn.
    pub open spec fn bound(&self) -> bool {
        &&& self.address(0) != self.address(1)
        &&& self.cell() == self.address(self.showing())
    }

    /// The buffer that is drawn is never the one whose address is in the
    /// indirection cell.
    pub open spec fn safe(&self) -> bool {
        &&& self.address(0) != self.address(1)
        &&& self.cell() != self.address(self.drawing())
    }

    /// Two dark buffers at full brightness, not yet bound to addresses.
    /// Pixels are drawn into the first buffer until the memory is bound.
    pub fn new(lut: &'a L) -> (memory: Self)
        requires
            valid_geometry(W as int, H as int, B as int),
        ensures
            memory.wf(),
            memory.drawing() == 0,
            memory.cell() == 0,
            memory.delay_cell() == 0,
            forall|i: int|
                0 <= i <= 1 ==> #[trigger] memory.framebuffer(i)@ == blank_frame(W as int, H as int, B as int),
            forall|i: int| 0 <= i <= 1 ==> (#[trigger] memory.framebuffer(i)).lut_spec() == lut,
            forall|i: int|
                0 <= i <= 1 ==> (#[trigger] memory.framebuffer(i)).brightness_spec() == 255,
    {
        let n: usize = fb_bytes(W, H, B);
        Self::from_buffers(lut, Self::dark(n), Self::dark(n))
    }

    /// The memory with the two frame buffers `fb0` and `fb1`, at full
    /// brightness, not yet bound to addresses.
    pub fn from_buffers(lut: &'a L, fb0: Vec<u8>, fb1: Vec<u8>) -> (memory: Self)
        requires
            valid_geometry(W as int, H as int, B as int),
            fb0@.len() == fb_bytes_spec(W as int, H as int, B as int),
            fb1@.len() == fb_bytes_spec(W as int, H as int, B as int),
        ensures
            memory.wf(),
            memory.drawing() == 0,
            memory.cell() == 0,
            memory.delay_cell() == 0,
            memory.framebuffer(0)@ == fb0@,
            memory.framebuffer(1)@ == fb1@,
            forall|i: int| 0 <= i <= 1 ==> (#[trigger] memory.framebuffer(i)).lut_spec() == lut,
            forall|i: int|
                0 <= i <= 1 ==> (#[trigger] memory.framebuffer(i)).brightness_spec() == 255,
    {
        let fb0 = FrameBuffer::new(fb0, lut, 255);
        let fb1 = FrameBuffer::new(fb1, lut, 255);
        let fbptr = IndirectionCell::new(0);
        let delays = delays();
        DisplayMemory { fbptr, fb0, fb1, addr0: 0, addr1: 0, drawing: 0, delays, delaysptr: 0 }
    }

    fn dark(n: usize) -> (bytes: Vec<u8>)
        ensures
            bytes@ == Seq::new(n as nat, |k: int| 0u8),
    {
        let mut bytes: Vec<u8> = Vec::new();
        let mut i: usize = 0;
        while i < n
            invariant
                i <= n,
                bytes@.len() == i,
                forall|k: int| 0 <= k < i ==> bytes@[k] == 0,
            decreases n - i,
        {
            bytes.push(0);
            i += 1;
        }
        assert(bytes@ =~= Seq::new(n as nat, |k: int| 0u8));
        bytes
    }

    /// The bytes of buffer 0, as the streaming engine reads them.
    pub fn fb0(&self) -> (bytes: &[u8])
        ensures
            bytes@ == self.framebuffer(0)@,
    {
        self.fb0.data()
    }

    /// The bytes of buffer 1, as the streaming engine reads them.
    pub fn fb1(&self) -> (bytes: &[u8])
        ensures
            bytes@ == self.framebuffer(1)@,
    {
        self.fb1.data()
    }

    /// The delay table, as the streaming engine reads it.
    pub fn delays(&self) -> (table: &[u32; B])
        ensures
            table@ == self.delay_table(),
    {
        &self.delays
    }

    /// The address that the indirection cell holds.
    pub fn fbptr(&self) -> (address: u32)
        ensures
            address == self.cell(),
    {
        self.fbptr.read()
    }

    /// The address that the cell of the delay table holds.
    pub fn delaysptr(&self) -> (address: u32)
        ensures
            address == self.delay_cell(),
    {
        self.delaysptr
    }

    /// Tells the memory where its buffers and its delay table lie. The
    /// engine is to start with buffer 0, so the cell gets its address and
    /// buffer 1 is drawn from now on.
    pub fn bind(&mut self, fb0: u32, fb1: u32, delays: u32)
        requires
            old(self).wf(),
            fb0 != fb1,
        ensures
            final(self).wf(),
            final(self).bound(),
            final(self).drawing() == 1,
            final(self).cell() == fb0,
            final(self).address(0) == fb0,
            final(self).address(1) == fb1,
            final(self).delay_cell() == delays,
            final(self).delay_table() == old(self).delay_table(),
            final(self).framebuffer(0) == old(self).framebuffer(0),
            final(self).framebuffer(1) == old(self).framebuffer(1),
    {
        self.addr0 = fb0;
        self.addr1 = fb1;
        self.fbptr.write(fb0);
        self.delaysptr = delays;
        self.drawing = 1;
    }

    /// Shows the buffer that was drawn and clears the other for the next
    /// frame. The address of the drawn buffer is written to the indirection
    /// cell; `publish` is then called once, with that address, and is to
    /// return once the streaming engine has begun its next pass; only then
    /// is the old buffer cleared.
    pub fn swap_buffers<F: FnOnce(u32)>(&mut self, publish: F)
        requires
            old(self).wf(),
            publish.requires((old(self).address(old(self).drawing()),)),
        ensures
            final(self).wf(),
            final(self).cell() == old(self).address(old(self).drawing()),
            final(self).drawing() == old(self).showing(),
            final(self).framebuffer(final(self).showing()) == old(self).framebuffer(
                old(self).drawing(),
            ),
            final(self).framebuffer(final(self).drawing())@ == blank_frame(W as int, H as int, B as int),
            final(self).framebuffer(final(self).drawing()).lut_spec() == old(self).framebuffer(
                old(self).showing(),
            ).lut_spec(),
            final(self).framebuffer(final(self).drawing()).brightness_spec() == old(
                self,
            ).framebuffer(old(self).showing()).brightness_spec(),
            final(self).address(0) == old(self).address(0),
            final(self).address(1) == old(self).address(1),
            final(self).delay_cell() == old(self).delay_cell(),
            final(self).delay_table() == old(self).delay_table(),
            old(self).bound() ==> final(self).bound(),
            old(self).safe() ==> final(self).safe(),
            publish.ensures((old(self).address(old(self).drawing()),), ()),
    {
        if self.drawing == 1 {
            self.fbptr.write(self.addr1);
            publish(self.addr1);
            self.fb0.fill(0);
            self.drawing = 0;
        } else {
            self.fbptr.write(self.addr0);
            publish(self.addr0);
            self.fb1.fill(0);
            self.drawing = 1;
        }
    }

    /// Sets the indirection cell to `address`. If that is the address of the
    /// buffer that is drawn, the other buffer is drawn from now on.
    pub fn point_at(&mut self, address: u32)
        requires
            old(self).wf(),
        ensures
            final(self).wf(),
            final(self).cell() == address,
            final(self).drawing() == if address == old(self).address(old(self).drawing()) {
                old(self).showing()
            } else {
                old(self).drawing()
            },
            final(self).address(0) == old(self).address(0),
            final(self).address(1) == old(self).address(1),
            final(self).delay_cell() == old(self).delay_cell(),
            final(self).delay_table() == old(self).delay_table(),
            final(self).framebuffer(0) == old(self).framebuffer(0),
            final(self).framebuffer(1) == old(self).framebuffer(1),
            old(self).address(0) != old(self).address(1) ==> final(self).safe(),
    {
        self.fbptr.write(address);
        if self.drawing == 1 {
            if address == self.addr1 {
                self.drawing = 0;
            }
        } else {
            if address == self.addr0 {
                self.drawing = 1;
            }
        }
    }

    /// The address at which the buffer that is drawn lies.
    pub fn drawing_address(&self) -> (address: u32)
        requires
            self.wf(),
        ensures
            address == self.address(self.drawing()),
    {
        if self.drawing == 1 {
            self.addr1
        } else {
            self.addr0
        }
    }

    /// The buffer that is drawn, for drawing. What is done to it changes
    /// nothing else: not the cell, and not the buffer that is shown.
    pub fn drawing_buffer(&mut self) -> (fb: &mut FrameBuffer<'a, L, W, H, B>)
        requires
            old(self).wf(),
        ensures
            *fb == old(self).framebuffer(old(self).drawing()),
            final(self).framebuffer(final(self).drawing()) == *final(fb),
            final(self).framebuffer(final(self).showing()) == old(self).framebuffer(
                old(self).showing(),
            ),
            final(self).cell() == old(self).cell(),
            final(self).drawing() == old(self).drawing(),
            final(self).address(0) == old(self).address(0),
            final(self).address(1) == old(self).address(1),
            final(self).delay_cell() == old(self).delay_cell(),
            final(self).delay_table() == old(self).delay_table(),
    {
        if self.drawing == 1 {
            &mut self.fb1
        } else {
            &mut self.fb0
        }
    }

    /// Stores `color` at `(x, y)` of the buffer that is drawn. A pixel that
    /// is not on the panel is dropped: the buffer stays as it is.
    pub fn set_pixel(&mut self, x: usize, y: usize, color: Rgb888)
        requires
            old(self).wf(),
        ensures
            final(self).wf(),
            final(self).framebuffer(final(self).drawing())@ == if on_panel(
                W as int,
                H as int,
                x as int,
                y as int,
            ) {
                written(
                    old(self).framebuffer(old(self).drawing())@,
                    W as int,
                    H as int,
                    B as int,
                    x as int,
                    y as int,
                    old(self).framebuffer(old(self).drawing()).output_levels(color),
                )
            } else {
                old(self).framebuffer(old(self).drawing())@
            },
            final(self).unchanged_but_drawn(old(self)),
    {
        if self.drawing == 1 {
            self.fb1.set_pixel(x, y, color);
        } else {
            self.fb0.set_pixel(x, y, color);
        }
    }

    /// True if `self` differs from `before` at most in the bytes of the
    /// buffer that is drawn: the cell, the addresses, the delay table and
    /// the buffer that is shown are the same.
    pub open spec fn unchanged_but_drawn(&self, before: &Self) -> bool {
        &&& self.cell() == before.cell()
        &&& self.drawing() == before.drawing()
        &&& self.address(0) == before.address(0)
        &&& self.address(1) == before.address(1)
        &&& self.delay_cell() == before.delay_cell()
        &&& self.delay_table() == before.delay_table()
        &&& self.framebuffer(self.showing()) == before.framebuffer(before.showing())
        &&& self.framebuffer(self.drawing()).lut_spec() == before.framebuffer(
            before.drawing(),
        ).lut_spec()
        &&& self.framebuffer(self.drawing()).brightness_spec() == before.framebuffer(
            before.drawing(),
        ).brightness_spec()
    }

    /// Changes the brightness that later pixels are scaled by, in both
    /// buffers.
    pub fn set_brightness(&mut self, brightness: u8)
        requires
            old(self).wf(),
        ensures
            final(self).wf(),
            final(self).cell() == old(self).cell(),
            final(self).drawing() == old(self).drawing(),
            final(self).address(0) == old(self).address(0),
            final(self).address(1) == old(self).address(1),
            final(self).delay_cell() == old(self).delay_cell(),
            final(self).delay_table() == old(self).delay_table(),
            forall|i: int|
                0 <= i <= 1 ==> (#[trigger] final(self).framebuffer(i))@ == old(self).framebuffer(
                    i,
                )@,
            forall|i: int|
                0 <= i <= 1 ==> (#[trigger] final(self).framebuffer(i)).lut_spec() == old(
                    self,
                ).framebuffer(i).lut_spec(),
            forall|i: int|
                0 <= i <= 1 ==> (#[trigger] final(self).framebuffer(i)).brightness_spec()
                    == brightness,
    {
        self.fb0.set_brightness(brightness);
        self.fb1.set_brightness(brightness);
    }

    /// The size of the panel in pixels.
    pub fn size(&self) -> (s: Size)
        ensures
            s.width == W,
            s.height == H,
    {
        self.fb0.size()
    }

    /// Draws `pixels` in order into the buffer that is drawn. Pixels outside
    /// the panel are dropped, so drawing never fails.
    pub fn draw_iter(&mut self, pixels: &[Pixel]) -> (done: Result<(), Infallible>)
        requires
            old(self).wf(),
        ensures
            done is Ok,
            final(self).wf(),
            final(self).framebuffer(final(self).drawing())@ == old(self).framebuffer(
                old(self).drawing(),
            ).drawn(old(self).framebuffer(old(self).drawing())@, pixels@),
            final(self).unchanged_but_drawn(old(self)),
    {
        if self.drawing == 1 {
            self.fb1.draw_iter(pixels)
        } else {
            self.fb0.draw_iter(pixels)
        }
    }
}

/// The four transfer engines that the driver uses.
#[derive(Clone, Copy, Debug, PartialEq, Eq, Structural)]
pub struct Channels {
    /// Streams the frame buffer to the pixel sequencer.
    pub fb: u8,
    /// Arms `fb` again from the indirection cell.
    pub fb_loop: u8,
    /// Streams the delay table to the intensity sequencer.
    pub oe: u8,
    /// Arms `oe` again.
    pub oe_loop: u8,
}

impl Channels {
    /// No engine is used twice.
    pub open spec fn valid(&self) -> bool {
        &&& self.fb != self.fb_loop
        &&& self.fb != self.oe
        &&& self.fb != self.oe_loop
        &&& self.fb_loop != self.oe
        &&& self.fb_loop != self.oe_loop
        &&& self.oe != self.oe_loop
    }

    /// Tells whether no engine is used twice.
    pub fn is_valid(&self) -> (ok: bool)
        ensures
            ok == self.valid(),
    {
        self.fb != self.fb_loop && self.fb != self.oe && self.fb != self.oe_loop && self.fb_loop
            != self.oe && self.fb_loop != self.oe_loop && self.oe != self.oe_loop
    }
}

/// Where the things lie that the transfer engines read and write.
#[derive(Clone, Copy, Debug, PartialEq, Eq, Structural)]
pub struct MemoryMap {
    /// The two frame buffers.
    pub fb0: u32,
    pub fb1: u32,
    /// The indirection cell.
    pub fb_cell: u32,
    /// The delay table, and the cell that holds its address.
    pub delays: u32,
    pub delays_cell: u32,
    /// The input queues of the pixel sequencer and the intensity sequencer.
    pub rgb_queue: u32,
    pub oe_queue: u32,
    /// The source address registers of the two main transfers.
    pub fb_read_addr: u32,
    pub oe_read_addr: u32,
}

/// The panels that the driver can run: a valid frame buffer geometry, at
/// most 16 row pairs for the four address lines, and a frame buffer that is
/// streamed in whole words.
pub open spec fn valid_panel(w: int, h: int, b: int) -> bool {
    &&& valid_geometry(w, h, b)
    &&& h / 2 <= 16
    &&& fb_bytes_spec(w, h, b) <= u32::MAX
    &&& fb_bytes_spec(w, h, b) % 4 == 0
}

/// Tells whether the driver can run a panel of this size.
pub fn panel_is_valid(w: usize, h: usize, b: usize) -> (ok: bool)
    ensures
        ok == valid_panel(w as int, h as int, b as int),
{
    if !crate::framebuffer::geometry_is_valid(w, h, b) {
        return false;
    }
    let bytes: usize = fb_bytes(w, h, b);
    h / 2 <= 16 && bytes <= 0xffff_ffff && bytes % 4 == 0
}

/// Length of one frame at 60 frames per second, in whole milliseconds.
pub const FRAME_MILLIS: u64 = 1000 / 60;

/// What is left of the time of one frame after `elapsed_us` microseconds, in
/// microseconds; `None` if the frame took longer than its time.
pub fn remaining_frame_time(elapsed_us: u64) -> (left: Option<u64>)
    ensures
        left == if elapsed_us <= 16000 {
            Some((16000 - elapsed_us) as u64)
        } else {
            None
        },
{
    (FRAME_MILLIS * 1000).checked_sub(elapsed_us)
}

/// The driver of one panel: the memory that is streamed, and how the three
/// sequencers and the two pipes that feed them are set up.
pub struct Display<'a, L: Lut, const W: usize, const H: usize, const B: usize> {
    memory: DisplayMemory<'a, L, W, H, B>,
    pins: Pins,
    channels: Channels,
    rgb: SequencerConfig,
    row: SequencerConfig,
    delay: SequencerConfig,
    fb_pipe: StreamPair,
    oe_pipe: StreamPair,
}

impl<'a, L: Lut, const W: usize, const H: usize, const B: usize> Display<'a, L, W, H, B> {
    /// The memory that is streamed.
    pub closed spec fn memory(&self) -> DisplayMemory<'a, L, W, H, B> {
        self.memory
    }

    /// The set-up of the pixel, the row and the intensity sequencer.
    pub closed spec fn sequencer_configs(&self) -> (
        SequencerConfig,
        SequencerConfig,
        SequencerConfig,
    ) {
        (self.rgb, self.row, self.delay)
    }

    /// The pipe that streams the frame buffer, and the pipe that streams the
    /// delay table.
    pub closed spec fn pipes(&self) -> (StreamPair, StreamPair) {
        (self.fb_pipe, self.oe_pipe)
    }

    /// The two pipes for the memory map `map`: the frame buffer pipe starts
    /// at buffer 0 and reads the indirection cell at each pass; the dwell
    /// pipe streams the `B` entries of the delay table for ever.
    pub open spec fn pipes_for(channels: Channels, map: MemoryMap) -> (StreamPair, StreamPair) {
        (
            StreamPair {
                main: main_transfer(
                    channels.fb,
                    channels.fb_loop,
                    TreqSel::Pio0Tx0,
                    map.fb0,
                    (fb_bytes_spec(W as int, H as int, B as int) / 4) as u32,
                    map.rgb_queue,
                ),
                looping: loop_transfer(channels.fb_loop, channels.fb, map.fb_cell, map.fb_read_addr),
            },
            StreamPair {
                main: main_transfer(
                    channels.oe,
                    channels.oe_loop,
                    TreqSel::Pio0Tx2,
                    map.delays,
                    B as u32,
                    map.oe_queue,
                ),
                looping: loop_transfer(
                    channels.oe_loop,
                    channels.oe,
                    map.delays_cell,
                    map.oe_read_addr,
                ),
            },
        )
    }

    /// The driver is well formed if its memory is, both pipes keep
    /// themselves running, and the buffer that is drawn is not the one whose
    /// address is in the indirection cell.
    pub open spec fn wf(&self) -> bool {
        &&& valid_panel(W as int, H as int, B as int)
        &&& self.memory().wf()
        &&& self.memory().safe()
        &&& self.pipes().0.self_retriggering()
        &&& self.pipes().1.self_retriggering()
    }

    /// Sets up the driver: the three sequencers for the pins `pins`, the two
    /// pipes for the engines `channels` and the memory map `map`, the two
    /// frame buffers `fb0` and `fb1` at full brightness, and the indirection
    /// cell pointing at buffer 0, so that buffer 1 is drawn first.
    pub fn new(
        lut: &'a L,
        pins: Pins,
        channels: Channels,
        map: MemoryMap,
        row_clock_divider: ClockDivider,
        delay_clock_divider: ClockDivider,
        fb0: Vec<u8>,
        fb1: Vec<u8>,
    ) -> (display: Self)
        requires
            valid_panel(W as int, H as int, B as int),
            pins.valid(),
            channels.valid(),
            map.fb0 != map.fb1,
            fb0@.len() == fb_bytes_spec(W as int, H as int, B as int),
            fb1@.len() == fb_bytes_spec(W as int, H as int, B as int),
        ensures
            display.wf(),
            display.memory().bound(),
            display.memory().drawing() == 1,
            display.memory().cell() == map.fb0,
            display.memory().address(0) == map.fb0,
            display.memory().address(1) == map.fb1,
            display.memory().delay_cell() == map.delays,
            display.memory().framebuffer(0)@ == fb0@,
            display.memory().framebuffer(1)@ == fb1@,
            forall|i: int|
                0 <= i <= 1 ==> (#[trigger] display.memory().framebuffer(i)).lut_spec() == lut,
            forall|i: int|
                0 <= i <= 1 ==> (#[trigger] display.memory().framebuffer(i)).brightness_spec()
                    == 255,
            display.sequencer_configs() == (
                pixel_sequencer_config(pins, W as int),
                row_sequencer_config(pins, H as int, B as int, row_clock_divider),
                intensity_sequencer_config(pins, delay_clock_divider),
            ),
            display.pipes() == Self::pipes_for(channels, map),
    {
        let mut memory = DisplayMemory::from_buffers(lut, fb0, fb1);
        memory.bind(map.fb0, map.fb1, map.delays);
        let rgb = setup_rgb_state_machine::<W>(&pins);
        let row = setup_row_state_machine::<H, B>(&pins, row_clock_divider);
        let delay = setup_delay_state_machine(&pins, delay_clock_divider);
        let fb_pipe = StreamPair {
            main: setup_framebuffer_channel::<W, H, B>(
                channels.fb,
                channels.fb_loop,
                TreqSel::Pio0Tx0,
                map.fb0,
                map.rgb_queue,
            ),
            looping: setup_framebuffer_loop_channel(
                channels.fb_loop,
                channels.fb,
                map.fb_cell,
                map.fb_read_addr,
            ),
        };
        let oe_pipe = StreamPair {
            main: setup_oe_channel(
                channels.oe,
                channels.oe_loop,
                TreqSel::Pio0Tx2,
                map.oe_queue,
                map.delays,
                B as u32,
            ),
            looping: setup_oe_loop_channel(
                channels.oe_loop,
                channels.oe,
                map.delays_cell,
                map.oe_read_addr,
            ),
        };
        proof {
            lemma_words_of_panel(W as int, H as int, B as int);
        }
        Display { memory, pins, channels, rgb, row, delay, fb_pipe, oe_pipe }
    }

    /// The set-up of the pixel sequencer.
    pub fn rgb_config(&self) -> (config: SequencerConfig)
        ensures
            config == self.sequencer_configs().0,
    {
        self.rgb
    }

    /// The set-up of the row sequencer.
    pub fn row_config(&self) -> (config: SequencerConfig)
        ensures
            config == self.sequencer_configs().1,
    {
        self.row
    }

    /// The set-up of the intensity sequencer.
    pub fn delay_config(&self) -> (config: SequencerConfig)
        ensures
            config == self.sequencer_configs().2,
    {
        self.delay
    }

    /// The pipe that streams the frame buffer.
    pub fn fb_pipe(&self) -> (pipe: StreamPair)
        ensures
            pipe == self.pipes().0,
    {
        self.fb_pipe
    }

    /// The pipe that streams the delay table.
    pub fn oe_pipe(&self) -> (pipe: StreamPair)
        ensures
            pipe == self.pipes().1,
    {
        self.oe_pipe
    }

    /// The memory, for reading.
    pub fn display_memory(&self) -> (memory: &DisplayMemory<'a, L, W, H, B>)
        ensures
            *memory == self.memory(),
    {
        &self.memory
    }

    /// The buffer that is not shown, for drawing. Nothing that is done to it
    /// touches the buffer whose address is in the indirection cell.
    pub fn get_framebuffer(&mut self) -> (fb: &mut FrameBuffer<'a, L, W, H, B>)
        requires
            old(self).wf(),
        ensures
            *fb == old(self).memory().framebuffer(old(self).memory().drawing()),
            final(self).memory().framebuffer(final(self).memory().drawing()) == *final(fb),
            final(self).memory().framebuffer(final(self).memory().showing()) == old(
                self,
            ).memory().framebuffer(old(self).memory().showing()),
            final(self).memory().cell() == old(self).memory().cell(),
            final(self).memory().drawing() == old(self).memory().drawing(),
            final(self).memory().address(0) == old(self).memory().address(0),
            final(self).memory().address(1) == old(self).memory().address(1),
            final(self).memory().delay_cell() == old(self).memory().delay_cell(),
            final(self).memory().delay_table() == old(self).memory().delay_table(),
            final(self).sequencer_configs() == old(self).sequencer_configs(),
            final(self).pipes() == old(self).pipes(),
    {
        self.memory.drawing_buffer()
    }

    /// Shows the buffer that was drawn: its address is written to the
    /// indirection cell. `publish` is then called once, with that address,
    /// and is to return once the streaming engine has begun its next pass. The
    /// buffer that was shown before is handed back by its address; it is
    /// the one that is drawn next, and it still holds the old frame.
    pub fn swap_framebuffers<F: FnOnce(u32)>(&mut self, publish: F) -> (free: u32)
        requires
            old(self).wf(),
            publish.requires((old(self).memory().address(old(self).memory().drawing()),)),
        ensures
            final(self).wf(),
            final(self).memory().cell() == old(self).memory().address(
                old(self).memory().drawing(),
            ),
            final(self).memory().drawing() == old(self).memory().showing(),
            free == final(self).memory().address(final(self).memory().drawing()),
            final(self).memory().framebuffer(0) == old(self).memory().framebuffer(0),
            final(self).memory().framebuffer(1) == old(self).memory().framebuffer(1),
            final(self).memory().address(0) == old(self).memory().address(0),
            final(self).memory().address(1) == old(self).memory().address(1),
            final(self).memory().delay_cell() == old(self).memory().delay_cell(),
            final(self).memory().delay_table() == old(self).memory().delay_table(),
            old(self).memory().bound() ==> final(self).memory().bound(),
            final(self).sequencer_configs() == old(self).sequencer_configs(),
            final(self).pipes() == old(self).pipes(),
            publish.ensures((old(self).memory().address(old(self).memory().drawing()),), ()),
    {
        let drawn = self.memory.drawing_address();
        self.memory.point_at(drawn);
        publish(drawn);
        self.memory.drawing_address()
    }

    /// Sets the indirection cell to `frame_buffer`, the address of a frame
    /// buffer of the panel's size. If it is the buffer that is drawn, the
    /// other one is drawn from now on.
    pub fn set_new_framebuffer(&mut self, frame_buffer: u32)
        requires
            old(self).wf(),
        ensures
            final(self).wf(),
            final(self).memory().cell() == frame_buffer,
            final(self).memory().drawing() == if frame_buffer == old(self).memory().address(
                old(self).memory().drawing(),
            ) {
                old(self).memory().showing()
            } else {
                old(self).memory().drawing()
            },
            final(self).memory().framebuffer(0) == old(self).memory().framebuffer(0),
            final(self).memory().framebuffer(1) == old(self).memory().framebuffer(1),
            final(self).memory().address(0) == old(self).memory().address(0),
            final(self).memory().address(1) == old(self).memory().address(1),
            final(self).memory().delay_cell() == old(self).memory().delay_cell(),
            final(self).memory().delay_table() == old(self).memory().delay_table(),
            final(self).sequencer_configs() == old(self).sequencer_configs(),
            final(self).pipes() == old(self).pipes(),
    {
        self.memory.point_at(frame_buffer);
    }

    /// Changes the brightness that later pixels are scaled by.
    pub fn set_brightness(&mut self, brightness: u8)
        requires
            old(self).wf(),
        ensures
            final(self).wf(),
            final(self).memory().cell() == old(self).memory().cell(),
            final(self).memory().drawing() == old(self).memory().drawing(),
            final(self).memory().address(0) == old(self).memory().address(0),
            final(self).memory().address(1) == old(self).memory().address(1),
            forall|i: int|
                0 <= i <= 1 ==> (#[trigger] final(self).memory().framebuffer(i))@ == old(
                    self,
                ).memory().framebuffer(i)@,
            forall|i: int|
                0 <= i <= 1 ==> (#[trigger] final(self).memory().framebuffer(i)).brightness_spec()
                    == brightness,
            forall|i: int|
                0 <= i <= 1 ==> (#[trigger] final(self).memory().framebuffer(i)).lut_spec() == old(
                    self,
                ).memory().framebuffer(i).lut_spec(),
            final(self).sequencer_configs() == old(self).sequencer_configs(),
            final(self).pipes() == old(self).pipes(),
    {
        self.memory.set_brightness(brightness);
    }

    /// One frame, in this order: `state` is advanced by `elapsed_us`
    /// microseconds, the buffer that is not shown is cleared, the frame of
    /// the advanced state is drawn into it, and the buffer is shown.
    pub fn render_frame<V: Visualisation, F: FnOnce(u32)>(
        &mut self,
        state: &mut V,
        elapsed_us: u32,
        publish: F,
    )
        requires
            old(self).wf(),
            old(state).wf(),
            publish.requires((old(self).memory().address(old(self).memory().drawing()),)),
        ensures
            final(self).wf(),
            final(state).wf(),
            final(self).memory().cell() == old(self).memory().address(
                old(self).memory().drawing(),
            ),
            final(self).memory().drawing() == old(self).memory().showing(),
            final(self).memory().framebuffer(final(self).memory().drawing()) == old(
                self,
            ).memory().framebuffer(old(self).memory().showing()),
            old(state).advanced_to(final(state), elapsed_us),
            final(self).memory().framebuffer(final(self).memory().showing())@ == old(
                self,
            ).memory().framebuffer(old(self).memory().drawing()).drawn(
                blank_frame(W as int, H as int, B as int),
                final(state).frame(),
            ),
            publish.ensures((old(self).memory().address(old(self).memory().drawing()),), ()),
    {
        let _ = state.update(elapsed_us);
        let current_framebuffer = self.get_framebuffer();
        let ghost pristine = *current_framebuffer;
        current_framebuffer.fill(0);
        let ghost cleared = *current_framebuffer;
        let pixels = state.draw();
        let _ = current_framebuffer.draw_iter(pixels.as_slice());
        let ghost finished = *current_framebuffer;
        proof {
            lemma_drawn_depends_on_encoding(pristine, cleared, cleared@, pixels@);
            assert(cleared@ =~= blank_frame(W as int, H as int, B as int));
            assert(finished@ == pristine.drawn(
                blank_frame(W as int, H as int, B as int),
                pixels@,
            ));
        }
        let _ = self.swap_framebuffers(publish);
        assert(self.memory().framebuffer(self.memory().showing()) == finished);
    }
}

/// The buffer that is handed out for drawing never lies where the
/// indirection cell points, so what is drawn is never what is streamed.
pub proof fn lemma_drawn_buffer_is_not_streamed<
    'a,
    L: Lut,
    const W: usize,
    const H: usize,
    const B: usize,
>(display: Display<'a, L, W, H, B>)
    requires
        display.wf(),
    ensures
        display.memory().address(display.memory().drawing()) != display.memory().cell(),
        display.memory().address(display.memory().drawing()) != display.memory().address(
            display.memory().showing(),
        ),
{
}

/// A frame buffer that is a whole number of words is streamed in at least
/// one word.
proof fn lemma_words_of_panel(w: int, h: int, b: int)
    requires
        valid_panel(w, h, b),
    ensures
        1 <= fb_bytes_spec(w, h, b) / 4 <= u32::MAX,
        1 <= b <= u32::MAX,
{
    crate::framebuffer::lemma_byte_index_in_bounds(w, h, b, 0, 0, 0);
}

} // verus!
