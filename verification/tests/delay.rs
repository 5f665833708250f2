use hub75_pico::delay::delays;

#[test]
fn delays_are_powers_of_two_less_one() {
    assert_eq!(delays::<8>(), [0, 1, 3, 7, 15, 31, 63, 127]);
    assert_eq!(delays::<1>(), [0]);
    assert_eq!(delays::<0>(), [0u32; 0]);
    let all = delays::<32>();
    for (i, d) in all.iter().enumerate() {
        assert_eq!(*d as u64, (1u64 << i) - 1);
    }
    assert_eq!(all[31], 0x7fff_ffff);
}

#[test]
fn the_last_plane_dwells_longest() {
    let ds = delays::<8>();
    for i in 0..7 {
        assert!(ds[i] < ds[7]);
        assert!(ds[i] < ds[i + 1]);
    }
}
