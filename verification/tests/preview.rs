use hub75_pico::color::{Pixel, Point, Rgb888, Size};
use hub75_pico::preview::{picture_is_valid, Buffer};

#[test]
fn picture_check_accepts_and_rejects() {
    assert!(picture_is_valid(64, 32));
    assert!(picture_is_valid(0, 0));
    assert!(!picture_is_valid(0x8000_0000, 1));
    assert!(!picture_is_valid(usize::MAX / 3, 2));
}

#[test]
fn new_picture_is_black() {
    let picture: Buffer<4, 3> = Buffer::new();
    assert_eq!(picture.buffer, vec![0u8; 36]);
    assert_eq!(picture.bounding_box(), (Point::new(0, 0), Size::new(4, 3)));
}

#[test]
fn pixels_are_three_bytes_row_by_row() {
    let mut picture: Buffer<4, 3> = Buffer::new();
    picture.draw_iter(&[
        Pixel(Point::new(1, 0), Rgb888::new(1, 2, 3)),
        Pixel(Point::new(3, 2), Rgb888::new(4, 5, 6)),
        Pixel(Point::new(4, 0), Rgb888::new(9, 9, 9)),
        Pixel(Point::new(0, 3), Rgb888::new(9, 9, 9)),
        Pixel(Point::new(-1, 0), Rgb888::new(9, 9, 9)),
        Pixel(Point::new(0, -1), Rgb888::new(9, 9, 9)),
        Pixel(Point::new(1, 0), Rgb888::new(7, 2, 3)),
    ]).unwrap();
    let mut expected = vec![0u8; 36];
    expected[3..6].copy_from_slice(&[7, 2, 3]);
    expected[33..36].copy_from_slice(&[4, 5, 6]);
    assert_eq!(picture.buffer, expected);
    picture.clear();
    assert_eq!(picture.buffer, vec![0u8; 36]);
}
