use hub75_pico::grid::{grid_is_valid, Grid};
use hub75_pico::rng::RngU32;

struct Fixed(u32);

impl RngU32 for Fixed {
    fn next_u32(&mut self) -> u32 {
        self.0
    }
}

#[test]
fn grid_check_accepts_and_rejects() {
    assert!(grid_is_valid(64, 32));
    assert!(grid_is_valid(0, 0));
    assert!(grid_is_valid(0x7fff_ffff, 1));
    assert!(!grid_is_valid(0x8000_0000, 1));
    assert!(!grid_is_valid(1, 0x8000_0000));
}

#[test]
fn new_grid_is_filled() {
    let grid: Grid<u8, 4, 3> = Grid::new(7);
    assert_eq!(grid.buffer(), &[7u8; 12][..]);
    let empty: Grid<u8, 0, 3> = Grid::new(7);
    assert_eq!(empty.buffer().len(), 0);
}

#[test]
fn index_runs_along_rows() {
    assert_eq!(Grid::<u8, 4, 3>::x_y_to_index(0, 0), Some(0));
    assert_eq!(Grid::<u8, 4, 3>::x_y_to_index(3, 0), Some(3));
    assert_eq!(Grid::<u8, 4, 3>::x_y_to_index(0, 1), Some(4));
    assert_eq!(Grid::<u8, 4, 3>::x_y_to_index(3, 2), Some(11));
    assert_eq!(Grid::<u8, 4, 3>::x_y_to_index(4, 0), None);
    assert_eq!(Grid::<u8, 4, 3>::x_y_to_index(0, 3), None);
    assert_eq!(Grid::<u8, 4, 3>::x_y_to_index(-1, 0), None);
    assert_eq!(Grid::<u8, 4, 3>::x_y_to_index(0, -1), None);
}

#[test]
fn get_and_set_agree() {
    let mut grid: Grid<u8, 4, 3> = Grid::new(0);
    grid.set(1, 2, 9);
    assert_eq!(grid.get(1, 2), Some(&9));
    assert_eq!(grid.get(2, 1), Some(&0));
    assert_eq!(grid.buffer()[9], 9);
    grid.set(4, 0, 5);
    grid.set(-1, 0, 5);
    grid.set(0, 3, 5);
    assert_eq!(grid.buffer().iter().filter(|v| **v != 0).count(), 1);
    assert_eq!(grid.get(4, 0), None);
    assert_eq!(grid.get(0, -1), None);
}

#[test]
fn get_mut_writes_one_cell() {
    let mut grid: Grid<u8, 4, 3> = Grid::new(1);
    *grid.get_mut(3, 1).unwrap() += 4;
    assert_eq!(grid.buffer(), &[1, 1, 1, 1, 1, 1, 1, 5, 1, 1, 1, 1][..]);
    assert!(grid.get_mut(4, 1).is_none());
    assert!(grid.get_mut(3, 3).is_none());
}

#[test]
fn buffer_mut_writes_in_place() {
    let mut grid: Grid<u8, 2, 2> = Grid::new(0);
    grid.buffer_mut()[3] = 8;
    assert_eq!(grid.get(1, 1), Some(&8));
    assert_eq!(grid.buffer_mut().len(), 4);
}

#[test]
fn coords_come_in_memory_order() {
    assert_eq!(
        Grid::<u8, 3, 2>::iter_coords(),
        vec![(0, 0), (1, 0), (2, 0), (0, 1), (1, 1), (2, 1)]
    );
    assert_eq!(Grid::<u8, 0, 2>::iter_coords(), vec![]);
}

#[test]
fn values_come_with_their_coords() {
    let mut grid: Grid<u8, 3, 2> = Grid::new(0);
    grid.set(2, 0, 5);
    grid.set(0, 1, 6);
    assert_eq!(
        grid.iter_with_index(),
        vec![((0, 0), &0), ((1, 0), &0), ((2, 0), &5), ((0, 1), &6), ((1, 1), &0), ((2, 1), &0)]
    );
}

#[test]
fn cells_can_be_walked_for_writing() {
    let mut grid: Grid<u8, 3, 2> = Grid::new(0);
    let mut i = 0;
    while let Some(((x, y), cell)) = grid.iter_mut_with_index(i) {
        *cell = (10 * y + x) as u8;
        i += 1;
    }
    assert_eq!(i, 6);
    assert_eq!(grid.buffer(), &[0, 1, 2, 10, 11, 12][..]);
    assert!(grid.iter_mut_with_index(6).is_none());
}

#[test]
fn random_coord_takes_the_low_bits_and_the_high_half() {
    assert_eq!(Grid::<u8, 64, 32>::coord_from_random(0), (0, 0));
    assert_eq!(Grid::<u8, 64, 32>::coord_from_random(65), (1, 0));
    assert_eq!(Grid::<u8, 64, 32>::coord_from_random(0x0005_0003), (3, 5));
    assert_eq!(Grid::<u8, 64, 32>::coord_from_random(0xffff_ffff), (63, 31));
    // 0x0009_0017 is 589847: the whole number picks the column, its high
    // half the row.
    assert_eq!(Grid::<u8, 10, 7>::coord_from_random(0x0009_0017), (7, 2));
    let mut grid: Grid<u8, 64, 32> = Grid::new(0);
    assert_eq!(grid.random_coord(&mut Fixed(0x0021_0041)), (1, 1));
    assert_eq!(grid.random_coord(&mut Fixed(0x0005_0003)), (3, 5));
    assert_eq!(grid.buffer(), &[0u8; 64 * 32][..]);
}
