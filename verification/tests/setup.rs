use hub75_pico::setup::{
    setup_delay_state_machine, setup_rgb_state_machine, setup_row_state_machine, ClockDivider,
    FifoJoin, Pins, SequencerConfig, ShiftDirection,
};

fn pins() -> Pins {
    Pins { r1: 0, g1: 1, b1: 2, r2: 3, g2: 4, b2: 5, a: 6, b: 7, c: 8, d: 9, clk: 10, lat: 11, oe: 12 }
}

#[test]
fn whole_clock_divider_has_eight_fraction_bits() {
    assert_eq!(ClockDivider::from_int(4).bits, 1024);
    assert_eq!(ClockDivider::from_int(1).bits, 256);
    assert_eq!(ClockDivider::from_int(0).bits, 0);
    assert_eq!(ClockDivider::from_int(65535).bits, 65535 * 256);
    assert_eq!(ClockDivider::from_bits(307).bits, 307);
}

#[test]
fn pin_assignment_is_checked() {
    assert!(pins().is_valid());
    assert!(Pins { r1: 10, g1: 11, b1: 12, r2: 13, g2: 14, b2: 15, a: 0, b: 1, c: 2, d: 3, clk: 4, lat: 5, oe: 6 }.is_valid());
    assert!(!Pins { g1: 2, ..pins() }.is_valid());
    assert!(!Pins { d: 10, ..pins() }.is_valid());
    assert!(!Pins { clk: 3, ..pins() }.is_valid());
    assert!(!Pins { lat: 7, ..pins() }.is_valid());
    assert!(!Pins { oe: 10, ..pins() }.is_valid());
    assert!(!Pins { oe: 32, ..pins() }.is_valid());
    assert!(!Pins { a: 4, b: 5, c: 6, d: 7, ..pins() }.is_valid());
    assert!(!Pins { r1: 250, g1: 251, b1: 252, r2: 253, g2: 254, b2: 255, ..pins() }.is_valid());
    assert!(!Pins { r1: 251, g1: 252, b1: 253, r2: 254, g2: 255, b2: 0, ..pins() }.is_valid());
}

#[test]
fn pixel_sequencer_is_told_the_row_length_less_one() {
    assert_eq!(
        setup_rgb_state_machine::<64>(&pins()),
        SequencerConfig {
            side_set_pin: 10,
            out_base: 0,
            out_count: 6,
            clock_divider: ClockDivider { bits: 1024 },
            shift_out_direction: ShiftDirection::Right,
            auto_fill: true,
            fifo_join: FifoJoin::TxOnly,
            parameter_count: 1,
            first_parameter: 63,
            second_parameter: 0,
        }
    );
}

#[test]
fn row_sequencer_is_told_row_pairs_and_planes_less_one() {
    assert_eq!(
        setup_row_state_machine::<32, 8>(&pins(), ClockDivider::from_bits(307)),
        SequencerConfig {
            side_set_pin: 11,
            out_base: 6,
            out_count: 4,
            clock_divider: ClockDivider { bits: 307 },
            shift_out_direction: ShiftDirection::Right,
            auto_fill: false,
            fifo_join: FifoJoin::Duplex,
            parameter_count: 2,
            first_parameter: 15,
            second_parameter: 7,
        }
    );
}

#[test]
fn intensity_sequencer_has_no_parameters() {
    assert_eq!(
        setup_delay_state_machine(&pins(), ClockDivider::from_bits(307)),
        SequencerConfig {
            side_set_pin: 12,
            out_base: 0,
            out_count: 0,
            clock_divider: ClockDivider { bits: 307 },
            shift_out_direction: ShiftDirection::Right,
            auto_fill: true,
            fifo_join: FifoJoin::TxOnly,
            parameter_count: 0,
            first_parameter: 0,
            second_parameter: 0,
        }
    );
}
