//! How the three sequencers are set up: their pins, clocks and queues, and
//! the parameters that are pushed to them once at start.

use vstd::prelude::*;

verus! {

/// A clock divisor as a fixed-point number with eight fractional bits.
#[derive(Clone, Copy, Debug, PartialEq, Eq, Structural)]
pub struct ClockDivider {
    pub bits: u32,
}

/// `fixed::FixedU32::<U8>::from_num` on a `u16`, then `to_bits`: the
/// fixed-point number with eight fractional bits that equals `whole`, as its
/// raw bits. Every `u16` fits, so the conversion neither panics nor wraps,
/// and the raw bits of a whole number are that number times 256.
#[verifier::external_body]
fn whole_number_bits(whole: u16) -> (bits: u32)
    ensures
        bits == whole * 256,
{
    fixed::FixedU32::<fixed::types::extra::U8>::from_num(whole).to_bits()
}

impl ClockDivider {
    /// The divisor that equals the whole number `whole`.
    pub fn from_int(whole: u16) -> (divider: Self)
        ensures
            divider.bits == whole * 256,
            divider.whole() == whole,
            divider.fraction() == 0,
    {
        let divider = ClockDivider { bits: whole_number_bits(whole) };
        assert((whole * 256) / 256 == whole && (whole * 256) % 256 == 0);
        divider
    }

    /// The divisor with the raw bits `bits`.
    pub fn from_bits(bits: u32) -> (divider: Self)
        ensures
            divider.bits == bits,
    {
        ClockDivider { bits }
    }

    /// The whole part of the divisor.
    pub open spec fn whole(&self) -> int {
        self.bits as int / 256
    }

    /// The fractional part of the divisor, in 256ths.
    pub open spec fn fraction(&self) -> int {
        self.bits as int % 256
    }
}

/// The end at which a shift register lets its bits out.
#[derive(Clone, Copy, Debug, PartialEq, Eq, Structural)]
pub enum ShiftDirection {
    Right,
    Left,
}

/// How the two queues of a sequencer are used.
#[derive(Clone, Copy, Debug, PartialEq, Eq, Structural)]
pub enum FifoJoin {
    /// One queue in each direction.
    Duplex,
    /// Both queues are joined into one long input queue.
    TxOnly,
}

/// The pins that the panel is wired to.
#[derive(Clone, Copy, Debug, PartialEq, Eq, Structural)]
pub struct Pins {
    pub r1: u8,
    pub g1: u8,
    pub b1: u8,
    pub r2: u8,
    pub g2: u8,
    pub b2: u8,
    pub a: u8,
    pub b: u8,
    pub c: u8,
    pub d: u8,
    pub clk: u8,
    pub lat: u8,
    pub oe: u8,
}

/// Number of pins that a sequencer can reach.
pub const PIN_COUNT: u8 = 32;

impl Pins {
    /// The six colour pins follow each other from `r1`, so that one byte of
    /// the frame buffer can be put on them at once.
    pub open spec fn colour_pins_consecutive(&self) -> bool {
        &&& self.g1 == self.r1 + 1
        &&& self.b1 == self.r1 + 2
        &&& self.r2 == self.r1 + 3
        &&& self.g2 == self.r1 + 4
        &&& self.b2 == self.r1 + 5
    }

    /// The four row address pins follow each other from `a`.
    pub open spec fn address_pins_consecutive(&self) -> bool {
        &&& self.b == self.a + 1
        &&& self.c == self.a + 2
        &&& self.d == self.a + 3
    }

    /// True if `pin` is one of the six colour pins.
    pub open spec fn is_colour_pin(&self, pin: u8) -> bool {
        self.r1 <= pin <= self.b2
    }

    /// True if `pin` is one of the four row address pins.
    pub open spec fn is_address_pin(&self, pin: u8) -> bool {
        self.a <= pin <= self.d
    }

    /// A pin assignment is valid if the colour pins and the address pins are
    /// consecutive, every pin exists, and no pin is used twice.
    pub open spec fn valid(&self) -> bool {
        &&& self.colour_pins_consecutive()
        &&& self.address_pins_consecutive()
        &&& self.b2 < PIN_COUNT
        &&& self.d < PIN_COUNT
        &&& self.clk < PIN_COUNT
        &&& self.lat < PIN_COUNT
        &&& self.oe < PIN_COUNT
        &&& (self.b2 < self.a || self.d < self.r1)
        &&& !self.is_colour_pin(self.clk) && !self.is_address_pin(self.clk)
        &&& !self.is_colour_pin(self.lat) && !self.is_address_pin(self.lat)
        &&& !self.is_colour_pin(self.oe) && !self.is_address_pin(self.oe)
        &&& self.clk != self.lat && self.clk != self.oe && self.lat != self.oe
    }

    /// Tells whether the pin assignment is valid.
    pub fn is_valid(&self) -> (ok: bool)
        ensures
            ok == self.valid(),
    {
        let colours: bool = self.r1 <= 250 && self.g1 == self.r1 + 1 && self.b1 == self.r1 + 2
            && self.r2 == self.r1 + 3 && self.g2 == self.r1 + 4 && self.b2 == self.r1 + 5;
        let addresses: bool = self.a <= 252 && self.b == self.a + 1 && self.c == self.a + 2
            && self.d == self.a + 3;
        if !colours || !addresses {
            return false;
        }
        let in_range: bool = self.b2 < PIN_COUNT && self.d < PIN_COUNT && self.clk < PIN_COUNT
            && self.lat < PIN_COUNT && self.oe < PIN_COUNT;
        let apart: bool = self.b2 < self.a || self.d < self.r1;
        let clk_free: bool = !(self.r1 <= self.clk && self.clk <= self.b2) && !(self.a <= self.clk
            && self.clk <= self.d);
        let lat_free: bool = !(self.r1 <= self.lat && self.lat <= self.b2) && !(self.a <= self.lat
            && self.lat <= self.d);
        let oe_free: bool = !(self.r1 <= self.oe && self.oe <= self.b2) && !(self.a <= self.oe
            && self.oe <= self.d);
        let distinct: bool = self.clk != self.lat && self.clk != self.oe && self.lat != self.oe;
        in_range && apart && clk_free && lat_free && oe_free && distinct
    }
}

/// How one sequencer is set up.
#[derive(Clone, Copy, Debug, PartialEq, Eq, Structural)]
pub struct SequencerConfig {
    /// The pin that the program drives beside its data.
    pub side_set_pin: u8,
    /// The lowest of the pins that data is put on, and how many there are.
    pub out_base: u8,
    pub out_count: u8,
    pub clock_divider: ClockDivider,
    pub shift_out_direction: ShiftDirection,
    /// Whether the output shift register refills itself from the queue.
    pub auto_fill: bool,
    pub fifo_join: FifoJoin,
    /// Number of parameters that are pushed to the queue once at start.
    pub parameter_count: u8,
    /// The parameters; those from `parameter_count` on are not used.
    pub first_parameter: u32,
    pub second_parameter: u32,
}

/// The set-up of the pixel sequencer for a panel of `w` columns.
pub open spec fn pixel_sequencer_config(pins: Pins, w: int) -> SequencerConfig {
    SequencerConfig {
        side_set_pin: pins.clk,
        out_base: pins.r1,
        out_count: 6,
        clock_divider: ClockDivider { bits: 1024 },
        shift_out_direction: ShiftDirection::Right,
        auto_fill: true,
        fifo_join: FifoJoin::TxOnly,
        parameter_count: 1,
        first_parameter: (w - 1) as u32,
        second_parameter: 0,
    }
}

/// The set-up of the row sequencer for a panel of `h` rows and `b` bit
/// planes.
pub open spec fn row_sequencer_config(
    pins: Pins,
    h: int,
    b: int,
    clock_divider: ClockDivider,
) -> SequencerConfig {
    SequencerConfig {
        side_set_pin: pins.lat,
        out_base: pins.a,
        out_count: 4,
        clock_divider,
        shift_out_direction: ShiftDirection::Right,
        auto_fill: false,
        fifo_join: FifoJoin::Duplex,
        parameter_count: 2,
        first_parameter: (h / 2 - 1) as u32,
        second_parameter: (b - 1) as u32,
    }
}

/// The set-up of the intensity sequencer.
pub open spec fn intensity_sequencer_config(pins: Pins, clock_divider: ClockDivider) -> SequencerConfig {
    SequencerConfig {
        side_set_pin: pins.oe,
        out_base: 0,
        out_count: 0,
        clock_divider,
        shift_out_direction: ShiftDirection::Right,
        auto_fill: true,
        fifo_join: FifoJoin::TxOnly,
        parameter_count: 0,
        first_parameter: 0,
        second_parameter: 0,
    }
}

/// Sets up the sequencer that clocks the pixels out: six colour pins from
/// `r1`, the column clock beside them, a quarter of the system clock, bytes
/// taken from the low end of each word. It is told the row length once, as
/// `W - 1`.
pub fn setup_rgb_state_machine<const W: usize>(pins: &Pins) -> (config: SequencerConfig)
    requires
        pins.valid(),
        1 <= W <= u32::MAX,
    ensures
        config == pixel_sequencer_config(*pins, W as int),
{
    SequencerConfig {
        side_set_pin: pins.clk,
        out_base: pins.r1,
        out_count: 6,
        clock_divider: ClockDivider::from_int(4),
        shift_out_direction: ShiftDirection::Right,
        auto_fill: true,
        fifo_join: FifoJoin::TxOnly,
        parameter_count: 1,
        first_parameter: W as u32 - 1,
        second_parameter: 0,
    }
}

/// Sets up the sequencer that addresses the rows: four address pins from
/// `a` and the latch beside them. It is told the number of row pairs and
/// the number of bit planes once, each less one.
pub fn setup_row_state_machine<const H: usize, const B: usize>(
    pins: &Pins,
    clock_divider: ClockDivider,
) -> (config: SequencerConfig)
    requires
        pins.valid(),
        2 <= H <= u32::MAX,
        1 <= B <= u32::MAX,
    ensures
        config == row_sequencer_config(*pins, H as int, B as int, clock_divider),
{
    SequencerConfig {
        side_set_pin: pins.lat,
        out_base: pins.a,
        out_count: 4,
        clock_divider,
        shift_out_direction: ShiftDirection::Right,
        auto_fill: false,
        fifo_join: FifoJoin::Duplex,
        parameter_count: 2,
        first_parameter: H as u32 / 2 - 1,
        second_parameter: B as u32 - 1,
    }
}

/// Sets up the sequencer that times the output-enable line. It has no
/// parameters: its dwell times are streamed to it.
pub fn setup_delay_state_machine(pins: &Pins, clock_divider: ClockDivider) -> (config:
    SequencerConfig)
    requires
        pins.valid(),
    ensures
        config == intensity_sequencer_config(*pins, clock_divider),
{
    SequencerConfig {
        side_set_pin: pins.oe,
        out_base: 0,
        out_count: 0,
        clock_divider,
        shift_out_direction: ShiftDirection::Right,
        auto_fill: true,
        fifo_join: FifoJoin::TxOnly,
        parameter_count: 0,
        first_parameter: 0,
        second_parameter: 0,
    }
}

} // verus!
