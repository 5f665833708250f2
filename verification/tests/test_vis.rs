use hub75_pico::color::{Pixel, Point, Rgb888};
use hub75_pico::test_vis::{paint_points, rasterise, Circle, TestVis};
use hub75_pico::visualisation::Visualisation;

#[test]
fn time_adds_up_and_stops_at_the_top() {
    let mut vis = TestVis::new();
    assert_eq!(vis.time_us(), 0);
    assert!(vis.update(16_000));
    assert!(vis.update(1));
    assert_eq!(vis.time_us(), 16_001);
    for _ in 0..3 {
        vis.update(u32::MAX);
    }
    assert_eq!(vis.time_us(), 16_001 + 3 * u32::MAX as u64);
    assert_eq!(vis.cluster(), (32, 31));
}

#[test]
fn cluster_stays_where_it_is_placed() {
    let mut vis = TestVis::new();
    assert_eq!(vis.cluster(), (32, 31));
    vis.place_cluster(40, 20);
    vis.update(5);
    assert_eq!(vis.cluster(), (40, 20));
    assert_eq!(vis.time_us(), 5);
    assert!(TestVis::in_reach(0x8000, -0x8000));
    assert!(!TestVis::in_reach(0x8001, 0));
    assert!(!TestVis::in_reach(0, -0x8001));
}

#[test]
fn pattern_is_two_corner_discs_and_a_cluster() {
    let circles = TestVis::pattern(40, 20);
    assert_eq!(circles.len(), 16);
    assert_eq!(
        &circles[0..6],
        &[
            Circle { center: Point::new(0, 0), diameter: 30, color: Rgb888::new(165, 42, 42) },
            Circle { center: Point::new(0, 32), diameter: 30, color: Rgb888::new(0, 100, 0) },
            Circle { center: Point::new(40, 20), diameter: 30, color: Rgb888::new(255, 255, 255) },
            Circle { center: Point::new(40, 20), diameter: 15, color: Rgb888::new(255, 0, 0) },
            Circle { center: Point::new(44, 24), diameter: 4, color: Rgb888::new(0, 0, 255) },
            Circle { center: Point::new(36, 16), diameter: 4, color: Rgb888::new(0, 255, 0) },
        ][..]
    );
    for circle in &circles[6..] {
        assert_eq!(
            *circle,
            Circle { center: Point::new(46, 12), diameter: 4, color: Rgb888::new(255, 255, 0) }
        );
    }
}

#[test]
fn green_disc_grows_with_the_column() {
    assert_eq!(TestVis::pattern(-5, 0)[5].diameter, 0);
    assert_eq!(TestVis::pattern(0, 0)[5].diameter, 0);
    assert_eq!(TestVis::pattern(9, 0)[5].diameter, 0);
    assert_eq!(TestVis::pattern(10, 0)[5].diameter, 1);
    assert_eq!(TestVis::pattern(47, 0)[5].diameter, 4);
    assert_eq!(TestVis::pattern(0x8000, 0)[5].diameter, 3276);
    assert_eq!(TestVis::pattern(-5, 0)[5].center, Point::new(-9, -4));
}

#[test]
fn points_are_painted_in_order_behind_what_is_there() {
    let red = Rgb888::new(255, 0, 0);
    let mut pixels = vec![Pixel(Point::new(9, 9), Rgb888::new(1, 2, 3))];
    paint_points(&vec![(1, 2), (-3, 4)], red, &mut pixels);
    assert_eq!(
        pixels,
        vec![
            Pixel(Point::new(9, 9), Rgb888::new(1, 2, 3)),
            Pixel(Point::new(1, 2), red),
            Pixel(Point::new(-3, 4), red),
        ]
    );
}

#[test]
fn a_disc_of_three_is_a_plus() {
    let blue = Rgb888::new(0, 0, 255);
    let pixels = rasterise(&vec![Circle { center: Point::new(10, 20), diameter: 3, color: blue }]);
    let points: Vec<(i32, i32)> = pixels.iter().map(|p| (p.0.x, p.0.y)).collect();
    assert_eq!(points, vec![(10, 19), (9, 20), (10, 20), (11, 20), (10, 21)]);
    assert!(pixels.iter().all(|p| p.1 == blue));
}

#[test]
fn discs_are_turned_into_pixels_one_after_the_other() {
    let a = Circle { center: Point::new(0, 0), diameter: 1, color: Rgb888::new(1, 1, 1) };
    let b = Circle { center: Point::new(-5, 7), diameter: 2, color: Rgb888::new(2, 2, 2) };
    let none = Circle { center: Point::new(3, 3), diameter: 0, color: Rgb888::new(3, 3, 3) };
    let pixels = rasterise(&vec![a, none, b, a]);
    let first = rasterise(&vec![a]);
    let second = rasterise(&vec![b]);
    assert_eq!(first, vec![Pixel(Point::new(0, 0), Rgb888::new(1, 1, 1))]);
    assert_eq!(second.len(), 4);
    assert!(rasterise(&vec![none]).is_empty());
    let mut expected = first.clone();
    expected.extend(second);
    expected.extend(first);
    assert_eq!(pixels, expected);
    // A disc far out is turned into pixels all the same.
    let far = Circle { center: Point::new(0x1_0000, -0x1_0000), diameter: 5, color: Rgb888::new(0, 0, 0) };
    let moved: Vec<(i32, i32)> =
        rasterise(&vec![far]).iter().map(|p| (p.0.x - 0x1_0000, p.0.y + 0x1_0000)).collect();
    let near = Circle { center: Point::new(0, 0), diameter: 5, color: Rgb888::new(0, 0, 0) };
    let home: Vec<(i32, i32)> = rasterise(&vec![near]).iter().map(|p| (p.0.x, p.0.y)).collect();
    assert_eq!(moved, home);
    assert_eq!(home.len(), 21);
    let wide = Circle { center: Point::new(0, 0), diameter: 200, color: Rgb888::new(0, 0, 0) };
    let many = rasterise(&vec![wide]).len();
    assert!(many > 31_000 && many < 31_900);
}

#[test]
fn the_frame_is_the_pattern_turned_into_pixels() {
    let mut vis = TestVis::new();
    vis.place_cluster(40, 20);
    let pixels = vis.draw();
    assert_eq!(pixels, rasterise(&TestVis::pattern(40, 20)));
    assert_eq!(pixels[0].1, Rgb888::new(165, 42, 42));
    assert_eq!(pixels[pixels.len() - 1].1, Rgb888::new(255, 255, 0));
    assert_eq!(vis.cluster(), (40, 20));
}
