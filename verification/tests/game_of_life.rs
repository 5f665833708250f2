use hub75_pico::color::Rgb888;
use hub75_pico::game_of_life::GameOfLife;
use hub75_pico::rng::RngU32;
use hub75_pico::visualisation::Visualisation;

struct Counter(u32);

impl RngU32 for Counter {
    fn next_u32(&mut self) -> u32 {
        self.0 += 7;
        self.0
    }
}

fn game(rows: [&str; 5]) -> GameOfLife<5, 5> {
    let mut game: GameOfLife<5, 5> = GameOfLife::new();
    for (y, row) in rows.iter().enumerate() {
        for (x, c) in row.chars().enumerate() {
            game.board_1[y * 5 + x] = c == '#';
        }
    }
    game
}

fn picture(board: &[bool]) -> Vec<String> {
    board
        .chunks(5)
        .map(|row| row.iter().map(|alive| if *alive { '#' } else { '.' }).collect())
        .collect()
}

#[test]
fn new_game_is_dead() {
    let game: GameOfLife<5, 5> = GameOfLife::new();
    assert_eq!(game.board_1, vec![false; 25]);
    assert_eq!(game.board_2, vec![false; 25]);
    assert!(game.board_1_current);
}

#[test]
fn blinker_turns() {
    let mut game = game([".....", "..#..", "..#..", "..#..", "....."]);
    game.step();
    assert!(!game.board_1_current);
    assert_eq!(picture(&game.board_2), vec![".....", ".....", ".###.", ".....", "....."]);
    // The board that was read is left as it was.
    assert_eq!(picture(&game.board_1), vec![".....", "..#..", "..#..", "..#..", "....."]);
    game.step();
    assert!(game.board_1_current);
    assert_eq!(picture(&game.board_1), vec![".....", "..#..", "..#..", "..#..", "....."]);
}

#[test]
fn block_stays_and_lonely_cells_die() {
    let mut game = game(["##...", "##...", ".....", "....#", "....."]);
    assert!(game.update(0));
    assert_eq!(picture(&game.board_2), vec!["##...", "##...", ".....", ".....", "....."]);
}

#[test]
fn cells_beyond_the_edge_are_dead() {
    // A row of three on the edge: the board does not wrap around.
    let mut game = game(["###..", ".....", ".....", ".....", "....."]);
    game.step();
    assert_eq!(picture(&game.board_2), vec![".#...", ".#...", ".....", ".....", "....."]);
    let mut crowded = game2();
    crowded.step();
    assert_eq!(picture(&crowded.board_2), vec!["#.#..", "...#.", "#.#..", ".#...", "....."]);
}

fn game2() -> GameOfLife<5, 5> {
    game(["###..", "###..", "###..", ".....", "....."])
}

#[test]
fn a_crowded_cell_dies() {
    let mut game = game2();
    game.step();
    // The centre has eight neighbours, the edge centres five.
    assert!(!game.board_2[6]);
    assert!(!game.board_2[1]);
    assert!(game.board_2[0]);
    // (3, 1) has three live neighbours and comes to life.
    assert!(game.board_2[8]);
}

#[test]
fn seed_brings_the_selected_cell_to_life() {
    let mut game: GameOfLife<5, 5> = GameOfLife::new();
    game.seed(0);
    game.seed(26);
    game.seed(24);
    assert_eq!(picture(&game.board_1), vec!["##...", ".....", ".....", ".....", "....#"]);
    assert_eq!(game.board_2, vec![false; 25]);
}

#[test]
fn random_game_has_the_drawn_cells_alive() {
    let game: GameOfLife<5, 5> = GameOfLife::new_with_random(4, Counter(0));
    // 7, 14, 21 and 28 select the cells 7, 14, 21 and 3.
    let expected: Vec<bool> = (0..25).map(|i| [3, 7, 14, 21].contains(&i)).collect();
    assert_eq!(game.board_1, expected);
    assert_eq!(game.board_2, vec![false; 25]);
    assert!(game.board_1_current);
    let none: GameOfLife<5, 5> = GameOfLife::new_with_random(0, Counter(0));
    assert_eq!(none.board_1, vec![false; 25]);
}

#[test]
fn read_and_write_boards_take_turns() {
    let mut game = game(["#....", ".....", ".....", ".....", "....."]);
    {
        let (write, read) = game.get_read_and_write();
        assert!(read[0]);
        assert!(!write[0]);
        write[1] = true;
    }
    assert!(game.board_2[1]);
    game.board_1_current = false;
    let (write, read) = game.get_read_and_write();
    assert!(read[1] && !read[0]);
    assert!(write[0]);
}

#[test]
fn live_cells_are_drawn_white() {
    let mut game = game([".....", "..#..", "..#..", "..#..", "....."]);
    let pixels = game.draw();
    assert_eq!(pixels.len(), 25);
    for (i, pixel) in pixels.iter().enumerate() {
        assert_eq!((pixel.0.x, pixel.0.y), (i as i32 % 5, i as i32 / 5));
        let alive = [7, 12, 17].contains(&i);
        assert_eq!(pixel.1, if alive { Rgb888::new(255, 255, 255) } else { Rgb888::new(0, 0, 0) });
    }
    game.step();
    let pixels = game.draw();
    let white: Vec<usize> = (0..25).filter(|i| pixels[*i].1 == Rgb888::new(255, 255, 255)).collect();
    assert_eq!(white, vec![11, 12, 13]);
}
