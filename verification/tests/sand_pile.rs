use hub75_pico::color::Rgb888;
use hub75_pico::rng::RngU32;
use hub75_pico::sand_pile::SandPile;
use hub75_pico::visualisation::Visualisation;

/// Hands out the numbers of a list, and its last number for ever after.
struct Listed(Vec<u32>, usize);

impl RngU32 for Listed {
    fn next_u32(&mut self) -> u32 {
        let n = self.0[self.1.min(self.0.len() - 1)];
        self.1 += 1;
        n
    }
}

fn at(x: u32, y: u32) -> u32 {
    (y << 16) | x
}

fn pile(draws: Vec<u32>) -> SandPile<Listed, 64, 32> {
    let mut all = vec![0];
    all.extend(draws);
    SandPile::new(Listed(all, 0))
}

#[test]
fn new_pile_is_empty() {
    let pile = pile(vec![0]);
    assert_eq!(pile.sand(), &[0u8; 64 * 32][..]);
    assert_eq!(pile.waiting(), 0);
}

#[test]
fn a_grain_falls_where_the_random_number_says() {
    let mut pile = pile(vec![at(3, 2)]);
    assert!(pile.place_sand());
    assert_eq!(pile.sand()[2 * 64 + 3], 1);
    assert_eq!(pile.sand().iter().map(|v| *v as u32).sum::<u32>(), 1);
    assert!(pile.place_sand_with(at(63, 31)));
    assert_eq!(pile.sand()[31 * 64 + 63], 1);
    assert!(pile.place_sand_with(at(64, 32)));
    assert_eq!(pile.sand()[0], 1);
}

#[test]
fn a_grain_off_the_grid_is_lost() {
    let mut pile = pile(vec![0]);
    assert!(!pile.add_grain(-1, 0));
    assert!(!pile.add_grain(0, -1));
    assert!(!pile.add_grain(64, 0));
    assert!(!pile.add_grain(0, 32));
    assert_eq!(pile.sand(), &[0u8; 64 * 32][..]);
}

#[test]
fn the_fourth_grain_puts_the_cell_on_the_queue_once() {
    let mut pile = pile(vec![0]);
    for _ in 0..3 {
        assert!(pile.add_grain(5, 5));
    }
    assert_eq!(pile.waiting(), 0);
    pile.add_grain(5, 5);
    assert_eq!(pile.waiting(), 1);
    pile.add_grain(5, 5);
    assert_eq!(pile.waiting(), 1);
    assert_eq!(pile.sand()[5 * 64 + 5], 5);
}

#[test]
fn a_cell_holds_at_most_255_grains() {
    let mut pile = pile(vec![0]);
    for _ in 0..300 {
        pile.add_grain(1, 1);
    }
    assert_eq!(pile.sand()[65], 255);
}

#[test]
fn a_cell_of_four_topples_onto_its_neighbours() {
    let mut pile = pile(vec![0]);
    for _ in 0..4 {
        pile.add_grain(5, 5);
    }
    assert!(pile.pull_until_changed());
    assert_eq!(pile.sand()[5 * 64 + 5], 0);
    assert_eq!(pile.sand()[5 * 64 + 4], 1);
    assert_eq!(pile.sand()[5 * 64 + 6], 1);
    assert_eq!(pile.sand()[4 * 64 + 5], 1);
    assert_eq!(pile.sand()[6 * 64 + 5], 1);
    assert_eq!(pile.sand().iter().map(|v| *v as u32).sum::<u32>(), 4);
    assert_eq!(pile.waiting(), 0);
    assert!(!pile.pull_until_changed());
}

#[test]
fn grains_fall_over_the_edge() {
    let mut pile = pile(vec![0]);
    for _ in 0..4 {
        pile.add_grain(0, 0);
    }
    assert!(pile.pull_until_changed());
    assert_eq!(pile.sand()[0], 0);
    assert_eq!(pile.sand()[1], 1);
    assert_eq!(pile.sand()[64], 1);
    assert_eq!(pile.sand().iter().map(|v| *v as u32).sum::<u32>(), 2);
}

#[test]
fn a_toppling_cell_can_make_its_neighbour_wait() {
    let mut pile = pile(vec![0]);
    for _ in 0..3 {
        pile.add_grain(6, 5);
    }
    for _ in 0..4 {
        pile.add_grain(5, 5);
    }
    assert!(pile.pull_until_changed());
    assert_eq!(pile.sand()[5 * 64 + 6], 4);
    assert_eq!(pile.waiting(), 1);
    assert!(pile.pull_until_changed());
    assert_eq!(pile.sand()[5 * 64 + 6], 0);
    assert_eq!(pile.sand()[5 * 64 + 5], 1);
    assert_eq!(pile.sand()[5 * 64 + 7], 1);
    assert!(!pile.pull_until_changed());
}

#[test]
fn a_waiting_cell_that_is_light_again_is_skipped() {
    let mut pile = pile(vec![0]);
    for _ in 0..4 {
        pile.add_grain(5, 5);
    }
    pile.update_position(5, 5);
    // (5, 5) still waits, but holds no grain any more.
    assert_eq!(pile.waiting(), 1);
    assert!(!pile.pull_until_changed());
    assert_eq!(pile.waiting(), 0);
}

#[test]
fn update_position_topples_until_the_cell_is_light() {
    let mut pile = pile(vec![0]);
    for _ in 0..9 {
        pile.add_grain(5, 5);
    }
    pile.update_position(5, 5);
    assert_eq!(pile.sand()[5 * 64 + 5], 1);
    assert_eq!(pile.sand()[5 * 64 + 4], 2);
    assert_eq!(pile.sand()[5 * 64 + 6], 2);
    assert_eq!(pile.sand()[4 * 64 + 5], 2);
    assert_eq!(pile.sand()[6 * 64 + 5], 2);
    pile.update_position(5, 5);
    assert_eq!(pile.sand()[5 * 64 + 5], 1);
}

#[test]
fn a_step_topples_before_it_drops() {
    let mut pile = pile(vec![at(9, 9)]);
    for _ in 0..4 {
        pile.add_grain(5, 5);
    }
    pile.step_until_changed();
    assert_eq!(pile.sand()[5 * 64 + 5], 0);
    assert_eq!(pile.sand()[9 * 64 + 9], 0);
    pile.step_until_changed();
    assert_eq!(pile.sand()[9 * 64 + 9], 1);
}

#[test]
fn an_update_makes_a_hundred_steps() {
    let mut updated = pile(vec![at(9, 9)]);
    assert!(updated.update(0));
    let mut stepped = pile(vec![at(9, 9)]);
    for _ in 0..99 {
        stepped.step_until_changed();
    }
    assert_ne!(updated.sand(), stepped.sand());
    stepped.step_until_changed();
    assert_eq!(updated.sand(), stepped.sand());
    assert_eq!(updated.waiting(), stepped.waiting());
    // Nothing reaches the edge in a hundred steps, so no grain is lost, and
    // a cell that has toppled holds fewer than four grains.
    let grains: u32 = updated.sand().iter().map(|v| *v as u32).sum();
    assert!(grains > 25 && grains < 100);
    assert!(updated.sand()[9 * 64 + 9] < 4);
}

#[test]
fn cells_are_drawn_by_their_grains() {
    let mut pile = pile(vec![0]);
    for (x, grains) in [(1, 1), (2, 2), (3, 3), (4, 4), (5, 7)] {
        for _ in 0..grains {
            pile.add_grain(x, 0);
        }
    }
    let pixels = pile.draw();
    assert_eq!(pixels.len(), 64 * 32);
    let colours: Vec<Rgb888> = pixels[0..7].iter().map(|p| p.1).collect();
    assert_eq!(
        colours,
        vec![
            Rgb888::new(0, 0, 0),
            Rgb888::new(255, 255, 255),
            Rgb888::new(255, 0, 0),
            Rgb888::new(0, 0, 255),
            Rgb888::new(255, 105, 180),
            Rgb888::new(255, 105, 180),
            Rgb888::new(0, 0, 0),
        ]
    );
    assert_eq!((pixels[70].0.x, pixels[70].0.y), (6, 1));
}
