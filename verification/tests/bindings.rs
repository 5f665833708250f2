use hub75_pico::bindings::{add, Obj};
use hub75_pico::rng::{RandU32Rng, RngU32};

#[test]
fn add_adds() {
    assert_eq!(add(2, 3), 5);
    assert_eq!(add(u32::MAX, 0), u32::MAX);
}

#[test]
fn object_greets() {
    assert_eq!(Obj::new().do_something(), "hi");
}

#[test]
fn thread_generator_hands_out_numbers() {
    let mut rng = RandU32Rng;
    let drawn: Vec<u32> = (0..64).map(|_| rng.next_u32()).collect();
    // Sixty-four equal numbers in a row would be one chance in 2^2016.
    assert!(drawn.iter().any(|n| *n != drawn[0]));
}
