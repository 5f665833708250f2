use hub75_pico::color::Rgb888;
use hub75_pico::lut::{narrow_level, GammaLut, Identity, Init, Lut};

fn levels(gamma: f32) -> [u32; 256] {
    let mut out = [0u32; 256];
    for (i, level) in out.iter_mut().enumerate() {
        let max = 255.0f32;
        let remapped = i as f32 / 255.0 * max;
        *level = libm::roundf(libm::powf(remapped / max, gamma) * max) as u32;
    }
    out
}

fn table(gamma: (f32, f32, f32)) -> GammaLut<Init> {
    GammaLut::new().init(&levels(gamma.0), &levels(gamma.1), &levels(gamma.2))
}

#[test]
fn identity_passes_every_channel_through() {
    assert_eq!(Identity.lookup(Rgb888::new(1, 2, 3)), (1, 2, 3));
    assert_eq!(Identity.lookup(Rgb888::new(255, 0, 128)), (255, 0, 128));
}

#[test]
fn gamma_of_one_reproduces_the_colour() {
    let lut = table((1.0, 1.0, 1.0));
    for v in 0..=255u8 {
        let c = Rgb888::new(v, 255 - v, v / 2);
        assert_eq!(lut.lookup(c), (v as u16, (255 - v) as u16, (v / 2) as u16));
        assert_eq!(lut.lookup(c), Identity.lookup(c));
    }
}

#[test]
fn identity_levels_reproduce_the_colour() {
    let mut same = [0u32; 256];
    for (i, level) in same.iter_mut().enumerate() {
        *level = i as u32;
    }
    let lut = GammaLut::new().init(&same, &same, &same);
    for v in 0..=255u8 {
        assert_eq!(lut.lookup(Rgb888::new(v, v, v)), (v as u16, v as u16, v as u16));
    }
}

#[test]
fn lookup_never_decreases_with_the_input() {
    for gamma in [0.5f32, 1.0, 2.2, 3.0] {
        let lut = table((gamma, gamma, gamma));
        let mut last = (0u16, 0u16, 0u16);
        for v in 0..=255u8 {
            let now = lut.lookup(Rgb888::new(v, v, v));
            assert!(last.0 <= now.0 && last.1 <= now.1 && last.2 <= now.2);
            last = now;
        }
        assert_eq!(lut.lookup(Rgb888::new(0, 0, 0)), (0, 0, 0));
        assert_eq!(lut.lookup(Rgb888::new(255, 255, 255)), (255, 255, 255));
    }
}

#[test]
fn gamma_of_two_squares_the_level() {
    let lut = table((2.0, 1.0, 0.5));
    // (128 / 255)^2 * 255 = 64.25, (64 / 255)^0.5 * 255 = 127.75
    assert_eq!(lut.lookup(Rgb888::new(128, 128, 64)), (64, 128, 128));
}

#[test]
fn each_channel_has_its_own_table() {
    let mut r = [0u32; 256];
    let mut g = [0u32; 256];
    let mut b = [0u32; 256];
    r[7] = 70;
    g[7] = 700;
    b[7] = 7000;
    r[9] = 90;
    let lut = GammaLut::new().init(&r, &g, &b);
    assert_eq!(lut.lookup(Rgb888::new(7, 7, 7)), (70, 700, 7000));
    assert_eq!(lut.lookup(Rgb888::new(9, 9, 9)), (90, 0, 0));
}

#[test]
fn a_level_that_does_not_fit_becomes_zero() {
    assert_eq!(narrow_level(0), 0);
    assert_eq!(narrow_level(65535), 65535);
    assert_eq!(narrow_level(65536), 0);
    assert_eq!(narrow_level(u32::MAX), 0);
    let mut r = [0u32; 256];
    r[0] = 65536;
    r[1] = 65535;
    let lut = GammaLut::new().init(&r, &r, &r);
    assert_eq!(lut.lookup(Rgb888::new(0, 1, 0)), (0, 65535, 0));
}
