use hub75_pico::color::{Pixel, Point, Rgb888};
use hub75_pico::turmite::{
    Colour, Direction, State, Turmite, TurmiteState, Turn, TwoByTwoTurmiteRule,
};
use hub75_pico::visualisation::Visualisation;

#[test]
fn rule_entries_are_packed_into_four_bits() {
    assert_eq!(TwoByTwoTurmiteRule::construct_rule(State::A, Colour::A, Turn::Straight), 0);
    assert_eq!(TwoByTwoTurmiteRule::construct_rule(State::B, Colour::A, Turn::Straight), 1);
    assert_eq!(TwoByTwoTurmiteRule::construct_rule(State::A, Colour::B, Turn::Straight), 2);
    assert_eq!(TwoByTwoTurmiteRule::construct_rule(State::A, Colour::A, Turn::Left), 4);
    assert_eq!(TwoByTwoTurmiteRule::construct_rule(State::A, Colour::A, Turn::Right), 8);
    assert_eq!(TwoByTwoTurmiteRule::construct_rule(State::B, Colour::B, Turn::Back), 15);
    assert_eq!(TwoByTwoTurmiteRule::construct_rule(State::B, Colour::A, Turn::Right), 9);
}

#[test]
fn rule_is_looked_up_by_state_and_colour() {
    let rule = TwoByTwoTurmiteRule::new([
        (State::A, Colour::A, Turn::Straight),
        (State::A, Colour::B, Turn::Left),
        (State::B, Colour::A, Turn::Right),
        (State::B, Colour::B, Turn::Back),
    ]);
    assert_eq!(rule.get(State::A, Colour::A), (State::A, Colour::A, Turn::Straight));
    assert_eq!(rule.get(State::A, Colour::B), (State::A, Colour::B, Turn::Left));
    assert_eq!(rule.get(State::B, Colour::A), (State::B, Colour::A, Turn::Right));
    assert_eq!(rule.get(State::B, Colour::B), (State::B, Colour::B, Turn::Back));
}

#[test]
fn next_cell_lies_in_front() {
    assert_eq!(TurmiteState::new(State::A, Direction::Up, 5, 5).next_x_y(), (5, 4));
    assert_eq!(TurmiteState::new(State::A, Direction::Down, 5, 5).next_x_y(), (5, 6));
    assert_eq!(TurmiteState::new(State::A, Direction::Left, 5, 5).next_x_y(), (4, 5));
    assert_eq!(TurmiteState::new(State::A, Direction::Right, 5, 5).next_x_y(), (6, 5));
}

#[test]
fn next_cell_wraps_at_the_edges() {
    assert_eq!(TurmiteState::new(State::A, Direction::Up, 0, 0).next_x_y_wrapped(64, 32), (0, 31));
    assert_eq!(TurmiteState::new(State::A, Direction::Left, 0, 0).next_x_y_wrapped(64, 32), (63, 0));
    assert_eq!(TurmiteState::new(State::A, Direction::Right, 63, 31).next_x_y_wrapped(64, 32), (0, 31));
    assert_eq!(TurmiteState::new(State::A, Direction::Down, 63, 31).next_x_y_wrapped(64, 32), (63, 0));
    assert_eq!(TurmiteState::new(State::A, Direction::Down, 10, 10).next_x_y_wrapped(64, 32), (10, 11));
}

#[test]
fn turns_are_relative_to_the_direction() {
    let all = [Direction::Up, Direction::Left, Direction::Right, Direction::Down];
    let expected = [
        [Direction::Up, Direction::Left, Direction::Right, Direction::Down],
        [Direction::Left, Direction::Up, Direction::Down, Direction::Right],
        [Direction::Right, Direction::Up, Direction::Down, Direction::Left],
        [Direction::Down, Direction::Right, Direction::Left, Direction::Up],
    ];
    let turns = [Turn::Straight, Turn::Left, Turn::Right, Turn::Back];
    for (d, row) in all.iter().zip(expected.iter()) {
        for (t, want) in turns.iter().zip(row.iter()) {
            assert_eq!(TurmiteState::new(State::B, *d, 1, 1).next_dir(*t), *want);
        }
    }
}

fn white_cells<const W: usize, const H: usize>(turmite: &mut Turmite<W, H>) -> Vec<(i32, i32)> {
    turmite
        .draw()
        .iter()
        .filter(|p| p.1 == Rgb888::new(255, 255, 255))
        .map(|p| (p.0.x, p.0.y))
        .collect()
}

#[test]
fn new_turmite_draws_a_black_grid() {
    let mut turmite: Turmite<4, 3> = Turmite::new();
    let pixels = turmite.draw();
    assert_eq!(pixels.len(), 12);
    for (i, pixel) in pixels.iter().enumerate() {
        assert_eq!(*pixel, Pixel(Point::new(i as i32 % 4, i as i32 / 4), Rgb888::new(0, 0, 0)));
    }
}

#[test]
fn the_ant_repaints_its_row_and_comes_back() {
    let mut turmite: Turmite<4, 3> = Turmite::new();
    turmite.step();
    assert_eq!(white_cells(&mut turmite), vec![(0, 0)]);
    turmite.step();
    turmite.step();
    assert_eq!(white_cells(&mut turmite), vec![(0, 0), (1, 0), (2, 0)]);
    assert!(turmite.update(1000));
    assert_eq!(white_cells(&mut turmite), vec![(0, 0), (1, 0), (2, 0), (3, 0)]);
    // The ant is back on (0, 0), which is white now, and paints it black.
    turmite.step();
    assert_eq!(white_cells(&mut turmite), vec![(1, 0), (2, 0), (3, 0)]);
}
