use hub75_pico::color::{Pixel, Point, Rgb888};
use hub75_pico::display::{
    panel_is_valid, remaining_frame_time, Channels, Display, DisplayMemory, MemoryMap,
};
use hub75_pico::framebuffer::FB_BYTES;
use hub75_pico::lut::Identity;
use hub75_pico::setup::{ClockDivider, Pins};
use hub75_pico::stream::{IndirectionCell, StreamEngine, TreqSel};
use hub75_pico::turmite::Turmite;

fn pins() -> Pins {
    Pins { r1: 0, g1: 1, b1: 2, r2: 3, g2: 4, b2: 5, a: 6, b: 7, c: 8, d: 9, clk: 10, lat: 11, oe: 12 }
}

fn channels() -> Channels {
    Channels { fb: 0, fb_loop: 1, oe: 2, oe_loop: 3 }
}

fn map() -> MemoryMap {
    MemoryMap {
        fb0: 0x2000_0000,
        fb1: 0x2000_2000,
        fb_cell: 0x2000_4000,
        delays: 0x2000_4100,
        delays_cell: 0x2000_4200,
        rgb_queue: 0x5020_0010,
        oe_queue: 0x5020_0018,
        fb_read_addr: 0x5000_0000,
        oe_read_addr: 0x5000_0080,
    }
}

fn display(lut: &Identity) -> Display<'_, Identity, 64, 32, 8> {
    Display::new(
        lut,
        pins(),
        channels(),
        map(),
        ClockDivider::from_bits(307),
        ClockDivider::from_bits(307),
        vec![0u8; FB_BYTES],
        vec![0u8; FB_BYTES],
    )
}

#[test]
fn panel_check_accepts_and_rejects() {
    assert!(panel_is_valid(64, 32, 8));
    assert!(panel_is_valid(4, 2, 1));
    assert!(!panel_is_valid(64, 34, 8));
    assert!(!panel_is_valid(3, 2, 1));
    assert!(!panel_is_valid(64, 32, 0));
    assert!(!panel_is_valid(0, 32, 8));
}

#[test]
fn channels_must_differ() {
    assert!(channels().is_valid());
    assert!(!Channels { fb: 1, ..channels() }.is_valid());
    assert!(!Channels { oe_loop: 2, ..channels() }.is_valid());
    assert!(!Channels { oe: 0, ..channels() }.is_valid());
}

#[test]
fn frame_time_left_at_sixty_frames_per_second() {
    assert_eq!(remaining_frame_time(0), Some(16000));
    assert_eq!(remaining_frame_time(1), Some(15999));
    assert_eq!(remaining_frame_time(16000), Some(0));
    assert_eq!(remaining_frame_time(16001), None);
    assert_eq!(remaining_frame_time(u64::MAX), None);
}

#[test]
fn new_memory_is_dark_and_unbound() {
    let lut = Identity;
    let memory: DisplayMemory<Identity, 64, 32, 8> = DisplayMemory::new(&lut);
    assert_eq!(memory.fbptr(), 0);
    assert_eq!(memory.delaysptr(), 0);
    assert_eq!(memory.fb0().len(), 8192);
    assert_eq!(memory.fb1().len(), 8192);
    assert!(memory.fb0().iter().all(|b| *b == 0));
    assert!(memory.fb1().iter().all(|b| *b == 0));
    assert_eq!(memory.delays(), &[0, 1, 3, 7, 15, 31, 63, 127]);
    assert_eq!(memory.size().width, 64);
    assert_eq!(memory.size().height, 32);
}

#[test]
fn pixels_go_to_the_buffer_that_is_not_shown() {
    let lut = Identity;
    let mut memory: DisplayMemory<Identity, 64, 32, 8> = DisplayMemory::new(&lut);
    memory.bind(0x100, 0x200, 0x300);
    assert_eq!(memory.fbptr(), 0x100);
    assert_eq!(memory.delaysptr(), 0x300);
    memory.set_pixel(63, 31, Rgb888::new(255, 0, 0));
    assert_eq!(memory.fb1()[0], 0b001);
    assert!(memory.fb0().iter().all(|b| *b == 0));
    memory.draw_iter(&[
        Pixel(Point::new(62, 31), Rgb888::new(0, 255, 0)),
        Pixel(Point::new(64, 31), Rgb888::new(0, 255, 0)),
    ]).unwrap();
    assert_eq!(memory.fb1()[1], 0b010);
    assert!(memory.fb0().iter().all(|b| *b == 0));
}

#[test]
fn memory_drops_a_pixel_outside_the_panel() {
    let lut = Identity;
    let mut memory: DisplayMemory<Identity, 64, 32, 8> = DisplayMemory::new(&lut);
    memory.bind(0x100, 0x200, 0x300);
    memory.set_pixel(100, 0, Rgb888::new(255, 255, 255));
    memory.set_pixel(0, 32, Rgb888::new(255, 255, 255));
    assert!(memory.fb0().iter().all(|b| *b == 0));
    assert!(memory.fb1().iter().all(|b| *b == 0));
}

#[test]
fn swap_buffers_shows_the_drawn_buffer_and_clears_the_other() {
    let lut = Identity;
    let mut memory: DisplayMemory<Identity, 64, 32, 8> = DisplayMemory::new(&lut);
    memory.bind(0x100, 0x200, 0x300);
    memory.set_pixel(63, 31, Rgb888::new(255, 0, 0));
    let mut published = Vec::new();
    memory.swap_buffers(|address| published.push(address));
    assert_eq!(published, vec![0x200]);
    assert_eq!(memory.fbptr(), 0x200);
    assert_eq!(memory.fb1()[0], 0b001);
    memory.set_pixel(63, 31, Rgb888::new(0, 0, 255));
    assert_eq!(memory.fb0()[0], 0b100);
    assert_eq!(memory.fb1()[0], 0b001);
    memory.swap_buffers(|address| published.push(address));
    assert_eq!(published, vec![0x200, 0x100]);
    assert_eq!(memory.fbptr(), 0x100);
    assert_eq!(memory.fb0()[0], 0b100);
    assert!(memory.fb1().iter().all(|b| *b == 0));
}

#[test]
fn brightness_of_the_memory_applies_to_both_buffers() {
    let lut = Identity;
    let mut memory: DisplayMemory<Identity, 64, 32, 8> = DisplayMemory::new(&lut);
    memory.bind(0x100, 0x200, 0x300);
    memory.set_brightness(0);
    memory.set_pixel(63, 31, Rgb888::new(255, 255, 255));
    memory.swap_buffers(|_| {});
    memory.set_pixel(63, 31, Rgb888::new(255, 255, 255));
    assert!(memory.fb0().iter().all(|b| *b == 0));
    assert!(memory.fb1().iter().all(|b| *b == 0));
}

#[test]
fn new_display_takes_the_two_buffers_as_they_are() {
    let lut = Identity;
    let d: Display<Identity, 4, 2, 1> = Display::new(
        &lut,
        pins(),
        channels(),
        map(),
        ClockDivider::from_int(1),
        ClockDivider::from_int(1),
        vec![1, 2, 3, 4],
        vec![5, 6, 7, 8],
    );
    assert_eq!(d.display_memory().fb0(), &[1, 2, 3, 4][..]);
    assert_eq!(d.display_memory().fb1(), &[5, 6, 7, 8][..]);
    assert_eq!(d.fb_pipe().main.trans_count, 1);
    assert_eq!(d.oe_pipe().main.trans_count, 1);
    assert_eq!(d.display_memory().delays(), &[0]);
}

#[test]
fn new_display_points_at_the_first_buffer() {
    let lut = Identity;
    let d = display(&lut);
    assert_eq!(d.display_memory().fbptr(), 0x2000_0000);
    assert_eq!(d.display_memory().delaysptr(), 0x2000_4100);
    assert_eq!(d.rgb_config().first_parameter, 63);
    assert_eq!(d.rgb_config().clock_divider.bits, 1024);
    assert_eq!(d.row_config().first_parameter, 15);
    assert_eq!(d.row_config().second_parameter, 7);
    assert_eq!(d.row_config().clock_divider.bits, 307);
    assert_eq!(d.delay_config().side_set_pin, 12);
    let fb = d.fb_pipe();
    assert_eq!((fb.main.channel, fb.main.chain_to), (0, 1));
    assert_eq!((fb.looping.channel, fb.looping.chain_to), (1, 0));
    assert_eq!(fb.main.read_addr, 0x2000_0000);
    assert_eq!(fb.main.write_addr, 0x5020_0010);
    assert_eq!(fb.main.trans_count, 2048);
    assert_eq!(fb.main.treq_sel, TreqSel::Pio0Tx0);
    assert_eq!(fb.looping.read_addr, 0x2000_4000);
    assert_eq!(fb.looping.write_addr, 0x5000_0000);
    let oe = d.oe_pipe();
    assert_eq!((oe.main.channel, oe.main.chain_to), (2, 3));
    assert_eq!((oe.looping.channel, oe.looping.chain_to), (3, 2));
    assert_eq!(oe.main.read_addr, 0x2000_4100);
    assert_eq!(oe.main.write_addr, 0x5020_0018);
    assert_eq!(oe.main.trans_count, 8);
    assert_eq!(oe.main.treq_sel, TreqSel::Pio0Tx2);
    assert_eq!(oe.looping.read_addr, 0x2000_4200);
    assert_eq!(oe.looping.write_addr, 0x5000_0080);
}

#[test]
fn swap_puts_the_drawn_buffer_in_the_cell_and_hands_the_other_back() {
    let lut = Identity;
    let mut d = display(&lut);
    d.get_framebuffer().set_pixel(63, 31, Rgb888::new(255, 0, 0));
    // Drawing did not touch the buffer that is shown.
    assert!(d.display_memory().fb0().iter().all(|b| *b == 0));
    assert_eq!(d.display_memory().fb1()[0], 0b001);
    let mut published = None;
    let free = d.swap_framebuffers(|address| published = Some(address));
    assert_eq!(published, Some(0x2000_2000));
    assert_eq!(d.display_memory().fbptr(), 0x2000_2000);
    assert_eq!(free, 0x2000_0000);
    // The buffer that was handed back is drawn before it is cleared.
    d.get_framebuffer().set_pixel(63, 31, Rgb888::new(0, 255, 0));
    assert_eq!(d.display_memory().fb0()[0], 0b010);
    assert_eq!(d.display_memory().fb1()[0], 0b001);
    let free = d.swap_framebuffers(|_| {});
    assert_eq!(d.display_memory().fbptr(), 0x2000_0000);
    assert_eq!(free, 0x2000_2000);
    // The swap itself clears nothing.
    assert_eq!(d.display_memory().fb1()[0], 0b001);
}

#[test]
fn set_new_framebuffer_never_leaves_the_shown_buffer_for_drawing() {
    let lut = Identity;
    let mut d = display(&lut);
    // The address of the buffer that is drawn: the other one is drawn now.
    d.set_new_framebuffer(0x2000_2000);
    assert_eq!(d.display_memory().fbptr(), 0x2000_2000);
    d.get_framebuffer().set_pixel(63, 31, Rgb888::new(255, 0, 0));
    assert_eq!(d.display_memory().fb0()[0], 0b001);
    assert_eq!(d.display_memory().fb1()[0], 0);
    // The address that is in the cell already: nothing changes.
    d.set_new_framebuffer(0x2000_2000);
    d.get_framebuffer().set_pixel(62, 31, Rgb888::new(255, 0, 0));
    assert_eq!(d.display_memory().fb0()[1], 0b001);
    // A buffer of the caller's own: the same buffer stays the one drawn.
    d.set_new_framebuffer(0x3000_0000);
    assert_eq!(d.display_memory().fbptr(), 0x3000_0000);
    d.get_framebuffer().set_pixel(61, 31, Rgb888::new(255, 0, 0));
    assert_eq!(d.display_memory().fb0()[2], 0b001);
    assert!(d.display_memory().fb1().iter().all(|b| *b == 0));
}

#[test]
fn display_brightness_applies_to_later_pixels() {
    let lut = Identity;
    let mut d = display(&lut);
    d.set_brightness(128);
    d.get_framebuffer().set_pixel(63, 31, Rgb888::new(200, 0, 0));
    // 200 * 128 / 255 = 100 = 0b0110_0100
    let expected: [u8; 8] = [0, 0, 1, 0, 0, 1, 1, 0];
    for plane in 0..8 {
        assert_eq!(d.display_memory().fb1()[plane * 64], expected[plane]);
    }
}

#[test]
fn a_swap_becomes_live_at_the_next_pass() {
    let lut = Identity;
    let mut d = display(&lut);
    let mut engine = StreamEngine::start(&d.fb_pipe());
    let cell = IndirectionCell::new(d.display_memory().fbptr());
    let first = engine.run_pass(&cell);
    assert_eq!(first.len(), 2048);
    assert_eq!(first[0], 0x2000_0000);
    assert_eq!(first[2047], 0x2000_0000 + 4 * 2047);
    d.swap_framebuffers(|_| {});
    let cell = IndirectionCell::new(d.display_memory().fbptr());
    // The pass that was armed before the swap still reads the old buffer.
    let second = engine.run_pass(&cell);
    assert_eq!(second[0], 0x2000_0000);
    let third = engine.run_pass(&cell);
    assert_eq!(third[0], 0x2000_2000);
    assert_eq!(third[2047], 0x2000_2000 + 4 * 2047);
}

#[test]
fn render_frame_draws_the_state_and_shows_it() {
    let lut = Identity;
    let mut d = display(&lut);
    let mut turmite: Turmite<64, 32> = Turmite::new();
    d.get_framebuffer().fill(0xff);
    let mut published = Vec::new();
    d.render_frame(&mut turmite, 16000, |address| published.push(address));
    assert_eq!(published, vec![0x2000_2000]);
    assert_eq!(d.display_memory().fbptr(), 0x2000_2000);
    // One step of the ant turned cell (0, 0) white: column 63 of row 31,
    // the lower half of row pair 15.
    let base = 63 + 15 * 64 * 8;
    for (i, byte) in d.display_memory().fb1().iter().enumerate() {
        let own = i >= base && (i - base) % 64 == 0;
        assert_eq!(*byte, if own { 0b111_000 } else { 0 });
    }
    // The next frame shows the state after one more step, in the other
    // buffer: (0, 0) and (1, 0) are white.
    d.render_frame(&mut turmite, 16000, |_| {});
    assert_eq!(d.display_memory().fbptr(), 0x2000_0000);
    let lit: Vec<usize> = (0..8192).filter(|i| d.display_memory().fb0()[*i] != 0).collect();
    let expected: Vec<usize> = (0..8).flat_map(|plane| [base - 1 + plane * 64, base + plane * 64]).collect();
    assert_eq!(lit, expected);
}
