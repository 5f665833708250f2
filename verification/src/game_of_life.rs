//! Conway's game of life on a board with dead surroundings. Two boards take
//! turns: each step reads the current one and writes the other.

use crate::color::{Pixel, Point, Rgb888};
use crate::grid::{
    cell_index, lemma_cell_index_distinct, lemma_cell_index_in_bounds, lemma_index_is_cell,
    on_grid, valid_grid,
};
use crate::rng::RngU32;
use crate::visualisation::{GameOfLifeUpdate, Visualisation};
use vstd::prelude::*;

verus! {

/// True if `(x, y)` is a cell of the board and alive. Cells beyond the edge
/// count as dead.
pub open spec fn alive(board: Seq<bool>, w: int, h: int, x: int, y: int) -> bool {
    on_grid(w, h, x, y) && board[cell_index(w, x, y)]
}

/// 1 for a cell that is alive, 0 for any other.
pub open spec fn census(board: Seq<bool>, w: int, h: int, x: int, y: int) -> int {
    if alive(board, w, h, x, y) {
        1
    } else {
        0
    }
}

/// Number of the eight cells around `(x, y)` that are alive.
pub open spec fn live_neighbours(board: Seq<bool>, w: int, h: int, x: int, y: int) -> int {
    census(board, w, h, x + 1, y) + census(board, w, h, x + 1, y + 1) + census(
        board,
        w,
        h,
        x,
        y + 1,
    ) + census(board, w, h, x - 1, y + 1) + census(board, w, h, x - 1, y) + census(
        board,
        w,
        h,
        x - 1,
        y - 1,
    ) + census(board, w, h, x, y - 1) + census(board, w, h, x + 1, y - 1)
}

/// Whether cell `(x, y)` is alive after one step: a cell with three live
/// neighbours is, one with two stays as it was, any other is dead.
pub open spec fn next_cell(board: Seq<bool>, w: int, h: int, x: int, y: int) -> bool {
    let n = live_neighbours(board, w, h, x, y);
    n == 3 || (n == 2 && board[cell_index(w, x, y)])
}

/// True if `next` is the board that follows `board` after one step.
pub open spec fn follows(next: Seq<bool>, board: Seq<bool>, w: int, h: int) -> bool {
    &&& next.len() == board.len()
    &&& forall|x: int, y: int|
        on_grid(w, h, x, y) ==> #[trigger] next[cell_index(w, x, y)] == next_cell(board, w, h, x, y)
}

/// The board `board` of `cells` cells after the cells that `draws` select
/// were brought to life.
pub open spec fn seeded(board: Seq<bool>, draws: Seq<u32>, cells: int) -> Seq<bool>
    decreases draws.len(),
{
    if draws.len() == 0 {
        board
    } else {
        seeded(board, draws.drop_last(), cells).update(draws.last() as int % cells, true)
    }
}

pub struct GameOfLife<const W: usize, const H: usize> {
    pub board_1: Vec<bool>,
    pub board_2: Vec<bool>,
    pub board_1_current: bool,
}

impl<const W: usize, const H: usize> GameOfLife<W, H> {
    /// Both boards hold one cell per position of a valid grid.
    pub open spec fn wf(&self) -> bool {
        &&& valid_grid(W as int, H as int)
        &&& self.board_1@.len() == W * H
        &&& self.board_2@.len() == W * H
    }

    /// The board that the next step reads and that is drawn.
    pub open spec fn current(&self) -> Seq<bool> {
        if self.board_1_current {
            self.board_1@
        } else {
            self.board_2@
        }
    }

    /// The board that the next step writes.
    pub open spec fn other(&self) -> Seq<bool> {
        if self.board_1_current {
            self.board_2@
        } else {
            self.board_1@
        }
    }

    fn dead_board() -> (board: Vec<bool>)
        requires
            valid_grid(W as int, H as int),
        ensures
            board@ == Seq::new((W * H) as nat, |i: int| false),
    {
        let n: usize = W * H;
        let mut board: Vec<bool> = Vec::new();
        let mut i: usize = 0;
        while i < n
            invariant
                i <= n,
                board@.len() == i,
                forall|k: int| 0 <= k < i ==> !board@[k],
            decreases n - i,
        {
            board.push(false);
            i += 1;
        }
        assert(board@ =~= Seq::new((W * H) as nat, |i: int| false));
        board
    }

    /// Two dead boards; the first is the current one.
    pub fn new() -> (game: Self)
        requires
            valid_grid(W as int, H as int),
        ensures
            game.wf(),
            game.board_1_current,
            game.board_1@ == Seq::new((W * H) as nat, |i: int| false),
            game.board_2@ == Seq::new((W * H) as nat, |i: int| false),
    {
        GameOfLife {
            board_1: Self::dead_board(),
            board_2: Self::dead_board(),
            board_1_current: true,
        }
    }

    /// Brings the cell of the first board to life that `random` selects.
    pub fn seed(&mut self, random: u32)
        requires
            old(self).wf(),
            0 < W * H <= u32::MAX,
        ensures
            final(self).wf(),
            final(self).board_1@ == old(self).board_1@.update(random as int % (W * H), true),
            final(self).board_2@ == old(self).board_2@,
            final(self).board_1_current == old(self).board_1_current,
    {
        let cells: u32 = (W * H) as u32;
        self.board_1[(random % cells) as usize] = true;
    }

    /// A game whose first board has the cells alive that `n` random numbers
    /// select; a cell that is selected twice is alive all the same.
    pub fn new_with_random<Rng: RngU32>(n: usize, rng: Rng) -> (game: Self)
        requires
            valid_grid(W as int, H as int),
            0 < W * H <= u32::MAX,
        ensures
            game.wf(),
            game.board_1_current,
            game.board_2@ == Seq::new((W * H) as nat, |i: int| false),
            exists|draws: Seq<u32>|
                draws.len() == n && game.board_1@ == seeded(
                    Seq::new((W * H) as nat, |i: int| false),
                    draws,
                    W * H,
                ),
    {
        let mut rng = rng;
        let mut this = Self::new();
        let ghost dead = Seq::new((W * H) as nat, |i: int| false);
        let ghost mut draws: Seq<u32> = Seq::empty();
        let mut i: usize = 0;
        while i < n
            invariant
                i <= n,
                this.wf(),
                0 < W * H <= u32::MAX,
                this.board_1_current,
                this.board_2@ == dead,
                draws.len() == i,
                this.board_1@ == seeded(dead, draws, W * H),
            decreases n - i,
        {
            let random = rng.next_u32();
            this.seed(random);
            proof {
                assert(draws.push(random).drop_last() =~= draws);
                draws = draws.push(random);
            }
            i += 1;
        }
        this
    }

    /// The board to write and the board to read, in this order.
    pub fn get_read_and_write(&mut self) -> (boards: (&mut [bool], &[bool]))
        ensures
            boards.0@ == old(self).other(),
            boards.1@ == old(self).current(),
            final(self).board_1_current == old(self).board_1_current,
            final(self).current() == old(self).current(),
            final(self).other() == final(boards.0)@,
    {
        if self.board_1_current {
            (self.board_2.as_mut_slice(), self.board_1.as_slice())
        } else {
            (self.board_1.as_mut_slice(), self.board_2.as_slice())
        }
    }

    /// Tells whether `(px, py)` is a live cell of `read`.
    fn is_alive(read: &[bool], px: i32, py: i32) -> (yes: bool)
        requires
            valid_grid(W as int, H as int),
            read@.len() == W * H,
        ensures
            yes == alive(read@, W as int, H as int, px as int, py as int),
    {
        if px >= 0 && px < W as i32 && py >= 0 && py < H as i32 {
            proof {
                lemma_cell_index_in_bounds(W as int, H as int, px as int, py as int);
            }
            let index: usize = px as usize + py as usize * W;
            read[index]
        } else {
            false
        }
    }

    /// Counts the live cells around `(x, y)`.
    fn count_neighbours(read: &[bool], x: i32, y: i32) -> (total: u8)
        requires
            valid_grid(W as int, H as int),
            read@.len() == W * H,
            on_grid(W as int, H as int, x as int, y as int),
        ensures
            total == live_neighbours(read@, W as int, H as int, x as int, y as int),
    {
        let offsets: [(i32, i32); 8] = [
            (1, 0),
            (1, 1),
            (0, 1),
            (-1, 1),
            (-1, 0),
            (-1, -1),
            (0, -1),
            (1, -1),
        ];
        let mut total: u8 = 0;
        let ghost board = read@;
        let ghost w = W as int;
        let ghost h = H as int;
        let ghost cx = x as int;
        let ghost cy = y as int;
        let mut k: usize = 0;
        while k < 8
            invariant
                k <= 8,
                valid_grid(w, h),
                w == W,
                h == H,
                cx == x,
                cy == y,
                board == read@,
                read@.len() == W * H,
                on_grid(w, h, cx, cy),
                offsets@ == seq![
                    (1i32, 0i32),
                    (1i32, 1i32),
                    (0i32, 1i32),
                    (-1i32, 1i32),
                    (-1i32, 0i32),
                    (-1i32, -1i32),
                    (0i32, -1i32),
                    (1i32, -1i32),
                ],
                total <= k,
                total == (if k > 0 {
                    census(board, w, h, cx + 1, cy)
                } else {
                    0
                }) + (if k > 1 {
                    census(board, w, h, cx + 1, cy + 1)
                } else {
                    0
                }) + (if k > 2 {
                    census(board, w, h, cx, cy + 1)
                } else {
                    0
                }) + (if k > 3 {
                    census(board, w, h, cx - 1, cy + 1)
                } else {
                    0
                }) + (if k > 4 {
                    census(board, w, h, cx - 1, cy)
                } else {
                    0
                }) + (if k > 5 {
                    census(board, w, h, cx - 1, cy - 1)
                } else {
                    0
                }) + (if k > 6 {
                    census(board, w, h, cx, cy - 1)
                } else {
                    0
                }) + (if k > 7 {
                    census(board, w, h, cx + 1, cy - 1)
                } else {
                    0
                }),
            decreases 8 - k,
        {
            let (dx, dy) = offsets[k];
            let px: i32 = x + dx;
            let py: i32 = y + dy;
            if Self::is_alive(read, px, py) {
                total += 1;
            }
            k += 1;
        }
        total
    }

    /// Advances the game by one generation and makes the board that was
    /// written the current one.
    pub fn step(&mut self)
        requires
            old(self).wf(),
        ensures
            final(self).wf(),
            final(self).board_1_current == !old(self).board_1_current,
            follows(final(self).current(), old(self).current(), W as int, H as int),
            final(self).other() == old(self).current(),
    {
        let (write, read) = self.get_read_and_write();
        let ghost before = read@;
        let mut x: usize = 0;
        while x < W
            invariant
                x <= W,
                valid_grid(W as int, H as int),
                read@ == before,
                before.len() == W * H,
                write@.len() == W * H,
                forall|cx: int, cy: int|
                    0 <= cx < x && 0 <= cy < H ==> #[trigger] write@[cell_index(W as int, cx, cy)]
                        == next_cell(before, W as int, H as int, cx, cy),
            decreases W - x,
        {
            let mut y: usize = 0;
            while y < H
                invariant
                    x < W,
                    y <= H,
                    valid_grid(W as int, H as int),
                    read@ == before,
                    before.len() == W * H,
                    write@.len() == W * H,
                    forall|cx: int, cy: int|
                        0 <= cx < x && 0 <= cy < H ==> #[trigger] write@[cell_index(
                            W as int,
                            cx,
                            cy,
                        )] == next_cell(before, W as int, H as int, cx, cy),
                    forall|cy: int|
                        0 <= cy < y ==> #[trigger] write@[cell_index(W as int, x as int, cy)]
                            == next_cell(before, W as int, H as int, x as int, cy),
                decreases H - y,
            {
                let total: u8 = Self::count_neighbours(read, x as i32, y as i32);
                proof {
                    lemma_cell_index_in_bounds(W as int, H as int, x as int, y as int);
                }
                let index: usize = x + y * W;
                let ghost earlier = write@;
                if total < 2 || total > 3 {
                    write[index] = false;
                } else if total == 3 {
                    write[index] = true
                } else {
                    write[index] = read[index]
                }
                proof {
                    assert forall|cx: int, cy: int| 0 <= cx < x && 0 <= cy < H implies #[trigger] write@[cell_index(
                        W as int,
                        cx,
                        cy,
                    )] == next_cell(before, W as int, H as int, cx, cy) by {
                        lemma_cell_index_distinct(W as int, H as int, cx, cy, x as int, y as int);
                        assert(earlier[cell_index(W as int, cx, cy)] == next_cell(
                            before,
                            W as int,
                            H as int,
                            cx,
                            cy,
                        ));
                    }
                    assert forall|cy: int| 0 <= cy < y + 1 implies #[trigger] write@[cell_index(
                        W as int,
                        x as int,
                        cy,
                    )] == next_cell(before, W as int, H as int, x as int, cy) by {
                        if cy < y {
                            lemma_cell_index_distinct(
                                W as int,
                                H as int,
                                x as int,
                                cy,
                                x as int,
                                y as int,
                            );
                            assert(earlier[cell_index(W as int, x as int, cy)] == next_cell(
                                before,
                                W as int,
                                H as int,
                                x as int,
                                cy,
                            ));
                        }
                    }
                }
                y += 1;
            }
            x += 1;
        }
        self.board_1_current = !self.board_1_current;
    }
}

/// The colour that a cell of the game is drawn in.
pub open spec fn cell_shown(alive: bool) -> Rgb888 {
    if alive {
        Rgb888 { r: 255, g: 255, b: 255 }
    } else {
        Rgb888 { r: 0, g: 0, b: 0 }
    }
}

impl<const W: usize, const H: usize> Visualisation for GameOfLife<W, H> {
    type StateUpdate = GameOfLifeUpdate;

    open spec fn wf(&self) -> bool {
        GameOfLife::wf(self)
    }

    /// An update is one generation, however much time has passed: the
    /// boards change roles, the new current board follows the old one, and
    /// the old one is kept.
    open spec fn advanced_to(&self, after: &Self, delta_time_us: u32) -> bool {
        &&& after.board_1_current == !self.board_1_current
        &&& follows(after.current(), self.current(), W as int, H as int)
        &&& after.other() == self.current()
    }

    /// One pixel per cell of the current board, row by row: white for a
    /// live cell, black for a dead one.
    open spec fn frame(&self) -> Seq<Pixel> {
        Seq::new(
            self.current().len(),
            |i: int|
                Pixel(
                    Point { x: (i % W as int) as i32, y: (i / W as int) as i32 },
                    cell_shown(self.current()[i]),
                ),
        )
    }

    /// Advances the game by one generation and asks for a new frame.
    fn update(&mut self, _delta_time_us: u32) -> (redraw: bool)
        ensures
            redraw,
    {
        self.step();
        true
    }

    /// One pixel per cell of the current board, row by row: white for a
    /// live cell, black for a dead one.
    fn draw(&mut self) -> (pixels: Vec<Pixel>)
        ensures
            pixels@.len() == W * H,
            forall|x: int, y: int|
                on_grid(W as int, H as int, x, y) ==> #[trigger] pixels@[cell_index(W as int, x, y)]
                    == Pixel(
                    Point { x: x as i32, y: y as i32 },
                    cell_shown(old(self).current()[cell_index(W as int, x, y)]),
                ),
    {
        let board: &Vec<bool> = if self.board_1_current {
            &self.board_1
        } else {
            &self.board_2
        };
        let mut pixels: Vec<Pixel> = Vec::new();
        let mut y: usize = 0;
        while y < H
            invariant
                y <= H,
                valid_grid(W as int, H as int),
                board@.len() == W * H,
                pixels@.len() == y * W,
                forall|cx: int, cy: int|
                    on_grid(W as int, y as int, cx, cy) ==> #[trigger] pixels@[cell_index(
                        W as int,
                        cx,
                        cy,
                    )] == Pixel(
                        Point { x: cx as i32, y: cy as i32 },
                        cell_shown(board@[cell_index(W as int, cx, cy)]),
                    ),
            decreases H - y,
        {
            let mut x: usize = 0;
            while x < W
                invariant
                    x <= W,
                    y < H,
                    valid_grid(W as int, H as int),
                    board@.len() == W * H,
                    pixels@.len() == y * W + x,
                    forall|cx: int, cy: int|
                        on_grid(W as int, y as int, cx, cy) ==> #[trigger] pixels@[cell_index(
                            W as int,
                            cx,
                            cy,
                        )] == Pixel(
                            Point { x: cx as i32, y: cy as i32 },
                            cell_shown(board@[cell_index(W as int, cx, cy)]),
                        ),
                    forall|cx: int|
                        0 <= cx < x ==> #[trigger] pixels@[cell_index(W as int, cx, y as int)]
                            == Pixel(
                            Point { x: cx as i32, y: y as i32 },
                            cell_shown(board@[cell_index(W as int, cx, y as int)]),
                        ),
                decreases W - x,
            {
                proof {
                    lemma_cell_index_in_bounds(W as int, H as int, x as int, y as int);
                    assert forall|cx: int, cy: int| on_grid(W as int, y as int, cx, cy) implies (
                    #[trigger] cell_index(W as int, cx, cy)) < y * W by {
                        lemma_cell_index_in_bounds(W as int, y as int, cx, cy);
                        assert(W * y == y * W) by (nonlinear_arith);
                    }
                }
                let shown = if board[y * W + x] {
                    Rgb888::white()
                } else {
                    Rgb888::black()
                };
                pixels.push(Pixel(Point::new(x as i32, y as i32), shown));
                x += 1;
            }
            proof {
                assert((y + 1) * W == y * W + W) by (nonlinear_arith);
            }
            y += 1;
        }
        proof {
            assert(H * W == W * H) by (nonlinear_arith);
            assert forall|i: int| 0 <= i < W * H implies pixels@[i] == self.frame()[i] by {
                lemma_index_is_cell(W as int, H as int, i);
                assert(pixels@[cell_index(W as int, i % W as int, i / W as int)] == pixels@[i]);
            }
            assert(pixels@ =~= self.frame());
        }
        pixels
    }
}

} // verus!
