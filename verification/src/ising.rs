//! The Ising model of a magnet: a grid of spins that point up or down. A
//! step picks a spin at random and flips it if that lowers the energy, or,
//! with a chance that falls with the energy it costs, if it does not.
//!
//! The chance depends on the temperature. It is held as a table: for each
//! cost that a flip can have, the number of outcomes out of 100000 on which
//! the flip is made.

use crate::color::{Pixel, Point, Rgb888};
use crate::grid::{
    cell_index, coord_of_random, lemma_cell_index_in_bounds, lemma_index_is_cell, on_grid,
    valid_grid, Grid,
};
use crate::rng::RngU32;
use crate::visualisation::{IsingUpdate, Visualisation};
use vstd::prelude::*;

verus! {

/// Number of outcomes that a random number is reduced to before it is held
/// against the chance of a flip.
pub const OUTCOMES: u32 = 100_000;

pub struct Ising<Rng, const W: usize, const H: usize> {
    grid: Grid<i8, W, H>,
    rng: Rng,
    /// For the costs 0, 2, 4, 6 and 8: the number of outcomes on which a
    /// flip of that cost is made.
    acceptance: [u32; 5],
}

/// What an `Ising` holds, but for its source of random numbers.
pub ghost struct IsingView {
    /// The spins in memory order: 1 for up, -1 for down.
    pub spins: Seq<i8>,
    pub acceptance: Seq<u32>,
}

impl<Rng, const W: usize, const H: usize> View for Ising<Rng, W, H> {
    type V = IsingView;

    closed spec fn view(&self) -> IsingView {
        IsingView { spins: self.grid@, acceptance: self.acceptance@ }
    }
}

/// The spin that the random number `rn` selects: up if it is even, down if
/// it is odd.
pub open spec fn spin_of_random(rn: u32) -> i8 {
    if rn % 2 == 0 {
        1i8
    } else {
        -1i8
    }
}

/// The spins that the random numbers `draws` select, one each, in memory
/// order.
pub open spec fn spins_of_random(draws: Seq<u32>) -> Seq<i8> {
    Seq::new(draws.len(), |i: int| spin_of_random(draws[i]))
}

/// The spin at `(x, y)`, or 0 beyond the edge of the grid.
pub open spec fn spin_at(spins: Seq<i8>, w: int, h: int, x: int, y: int) -> int {
    if on_grid(w, h, x, y) {
        spins[cell_index(w, x, y)] as int
    } else {
        0
    }
}

/// The sum of the four spins beside `(x, y)`.
pub open spec fn neighbour_sum(spins: Seq<i8>, w: int, h: int, x: int, y: int) -> int {
    spin_at(spins, w, h, x - 1, y) + spin_at(spins, w, h, x + 1, y) + spin_at(spins, w, h, x, y - 1)
        + spin_at(spins, w, h, x, y + 1)
}

/// The energy that a flip of the spin at `(x, y)` costs.
pub open spec fn flip_cost(spins: Seq<i8>, w: int, h: int, x: int, y: int) -> int {
    2 * spins[cell_index(w, x, y)] * neighbour_sum(spins, w, h, x, y)
}

/// Whether a flip of cost `cost` is made when the random number is `rn`: a
/// flip that lowers the energy always is, any other on the first
/// `acceptance[cost / 2]` of the 100000 outcomes.
pub open spec fn flip_accepted(acceptance: Seq<u32>, cost: int, rn: u32) -> bool {
    cost < 0 || rn % OUTCOMES < acceptance[cost / 2]
}

/// One step: `place` selects the spin, `chance` decides a flip that costs
/// energy.
pub open spec fn ising_stepped(v: IsingView, w: int, h: int, place: u32, chance: u32) -> IsingView {
    let (x, y) = coord_of_random(w, h, place);
    let index = cell_index(w, x, y);
    if flip_accepted(v.acceptance, flip_cost(v.spins, w, h, x, y), chance) {
        IsingView { spins: v.spins.update(index, (-v.spins[index]) as i8), ..v }
    } else {
        v
    }
}

/// The colour that a spin is drawn in.
pub open spec fn spin_shown(spin: i8) -> Rgb888 {
    if spin == 1 {
        Rgb888 { r: 255, g: 255, b: 255 }
    } else {
        Rgb888 { r: 0, g: 0, b: 0 }
    }
}

impl<Rng: RngU32, const W: usize, const H: usize> Ising<Rng, W, H> {
    /// The model is well formed if its grid has at least one cell and every
    /// spin is 1 or -1.
    pub open spec fn wf(&self) -> bool {
        &&& valid_grid(W as int, H as int)
        &&& 0 < W
        &&& 0 < H
        &&& self@.spins.len() == W * H
        &&& self@.acceptance.len() == 5
        &&& forall|i: int| 0 <= i < self@.spins.len() ==> self@.spins[i] == 1 || self@.spins[i] == -1
    }

    /// The spin that the random number `rn` selects: up for an even number,
    /// down for an odd one.
    pub fn spin_from_random(rn: u32) -> (spin: i8)
        ensures
            spin == spin_of_random(rn),
    {
        if rn % 2 == 0 {
            1
        } else {
            -1
        }
    }

    fn randomise(grid: &mut Grid<i8, W, H>, rng: &mut Rng)
        requires
            old(grid).wf(),
        ensures
            final(grid).wf(),
            forall|i: int| 0 <= i < final(grid)@.len() ==> final(grid)@[i] == 1 || final(grid)@[i] == -1,
            exists|draws: Seq<u32>|
                draws.len() == W * H && final(grid)@ == #[trigger] spins_of_random(draws),
    {
        let n: usize = grid.buffer().len();
        let ghost mut draws: Seq<u32> = Seq::empty();
        let mut i: usize = 0;
        while i < n
            invariant
                i <= n,
                grid.wf(),
                n == grid@.len(),
                draws.len() == i,
                forall|k: int| 0 <= k < i ==> grid@[k] == spin_of_random(#[trigger] draws[k]),
            decreases n - i,
        {
            let rn = rng.next_u32();
            let spin: i8 = Self::spin_from_random(rn);
            match grid.iter_mut_with_index(i) {
                Some((_, cell)) => {
                    *cell = spin;
                },
                None => {},
            }
            proof {
                draws = draws.push(rn);
            }
            i += 1;
        }
        assert(grid@ =~= spins_of_random(draws));
    }

    /// A model whose spins are set at random, one random number each: up
    /// for an even number, down for an odd one.
    pub fn new(acceptance: [u32; 5], rng: Rng) -> (model: Self)
        requires
            valid_grid(W as int, H as int),
            0 < W,
            0 < H,
        ensures
            model.wf(),
            model@.acceptance == acceptance@,
            exists|draws: Seq<u32>|
                draws.len() == W * H && model@.spins == #[trigger] spins_of_random(draws),
    {
        let mut rng = rng;
        let mut grid: Grid<i8, W, H> = Grid::new(0);
        Self::randomise(&mut grid, &mut rng);
        Ising { grid, rng, acceptance }
    }

    /// The spins, row by row.
    pub fn spins(&self) -> (cells: &[i8])
        ensures
            cells@ == self@.spins,
    {
        self.grid.buffer()
    }

    /// Sets every spin anew at random: one random number is drawn for each
    /// spin, in memory order, and the spin points up if its number is even,
    /// down if it is odd.
    pub fn reset(&mut self)
        requires
            old(self).wf(),
        ensures
            final(self).wf(),
            final(self)@.acceptance == old(self)@.acceptance,
            exists|draws: Seq<u32>|
                draws.len() == W * H && final(self)@.spins == #[trigger] spins_of_random(draws),
    {
        Self::randomise(&mut self.grid, &mut self.rng);
    }

    fn spin(&self, x: i32, y: i32) -> (spin: i8)
        requires
            self.wf(),
        ensures
            spin == spin_at(self@.spins, W as int, H as int, x as int, y as int),
            -1 <= spin <= 1,
    {
        match self.grid.get(x, y) {
            Some(value) => {
                proof {
                    lemma_cell_index_in_bounds(W as int, H as int, x as int, y as int);
                }
                *value
            },
            None => 0,
        }
    }

    /// One step with the random numbers `place` and `chance`.
    pub fn step_with(&mut self, place: u32, chance: u32)
        requires
            old(self).wf(),
        ensures
            final(self).wf(),
            final(self)@ == ising_stepped(old(self)@, W as int, H as int, place, chance),
    {
        let (x, y) = Grid::<i8, W, H>::coord_from_random(place);
        let nb: i8 = self.spin(x - 1, y) + self.spin(x + 1, y) + self.spin(x, y - 1) + self.spin(
            x,
            y + 1,
        );
        let s: i8 = self.spin(x, y);
        proof {
            lemma_cell_index_in_bounds(W as int, H as int, x as int, y as int);
            assert(2 * s * nb == flip_cost(self@.spins, W as int, H as int, x as int, y as int));
            assert(-8 <= 2 * s * nb <= 8) by (nonlinear_arith)
                requires
                    -1 <= s <= 1,
                    -4 <= nb <= 4,
            ;
            assert(-4 <= s * nb <= 4) by (nonlinear_arith)
                requires
                    -1 <= s <= 1,
                    -4 <= nb <= 4,
            ;
        }
        let cost: i8 = 2 * s * nb;
        let flip: bool = if cost < 0 {
            true
        } else {
            chance % OUTCOMES < self.acceptance[(cost / 2) as usize]
        };
        if flip {
            self.grid.set(x, y, -s);
        }
    }

    /// One step: two random numbers are drawn, the first for the spin, the
    /// second for the chance.
    pub fn step(&mut self)
        requires
            old(self).wf(),
        ensures
            final(self).wf(),
            exists|place: u32, chance: u32|
                final(self)@ == #[trigger] ising_stepped(
                    old(self)@,
                    W as int,
                    H as int,
                    place,
                    chance,
                ),
    {
        let place = self.rng.next_u32();
        let chance = self.rng.next_u32();
        self.step_with(place, chance);
    }
}

impl<Rng: RngU32, const W: usize, const H: usize> Visualisation for Ising<Rng, W, H> {
    type StateUpdate = IsingUpdate;

    open spec fn wf(&self) -> bool {
        Ising::wf(self)
    }

    /// An update is one step, however much time has passed; it draws two
    /// random numbers.
    open spec fn advanced_to(&self, after: &Self, delta_time_us: u32) -> bool {
        exists|place: u32, chance: u32|
            after@ == #[trigger] ising_stepped(self@, W as int, H as int, place, chance)
    }

    /// One pixel per spin, in memory order: white for up, black for down.
    open spec fn frame(&self) -> Seq<Pixel> {
        Seq::new(
            self@.spins.len(),
            |i: int|
                Pixel(
                    Point { x: (i % W as int) as i32, y: (i / W as int) as i32 },
                    spin_shown(self@.spins[i]),
                ),
        )
    }

    /// Makes one step and asks for a new frame.
    fn update(&mut self, _delta_time_us: u32) -> (redraw: bool)
        ensures
            redraw,
    {
        self.step();
        true
    }

    /// One pixel per spin, in memory order: white for up, black for down.
    fn draw(&mut self) -> (pixels: Vec<Pixel>)
        ensures
            pixels@.len() == W * H,
            forall|x: int, y: int|
                on_grid(W as int, H as int, x, y) ==> #[trigger] pixels@[cell_index(W as int, x, y)]
                    == Pixel(
                    Point { x: x as i32, y: y as i32 },
                    spin_shown(old(self)@.spins[cell_index(W as int, x, y)]),
                ),
    {
        let cells = self.grid.iter_with_index();
        let n: usize = cells.len();
        let mut pixels: Vec<Pixel> = Vec::new();
        let mut i: usize = 0;
        while i < n
            invariant
                i <= n,
                n == cells@.len(),
                pixels@.len() == i,
                forall|k: int|
                    0 <= k < i ==> #[trigger] pixels@[k] == Pixel(
                        Point { x: cells@[k].0.0, y: cells@[k].0.1 },
                        spin_shown(*cells@[k].1),
                    ),
            decreases n - i,
        {
            let ((x, y), spin) = cells[i];
            let colour = if *spin == 1 {
                Rgb888::white()
            } else {
                Rgb888::black()
            };
            pixels.push(Pixel(Point::new(x, y), colour));
            i += 1;
        }
        proof {
            assert forall|x: int, y: int| on_grid(W as int, H as int, x, y) implies #[trigger] pixels@[cell_index(
                W as int,
                x,
                y,
            )] == Pixel(
                Point { x: x as i32, y: y as i32 },
                spin_shown(old(self)@.spins[cell_index(W as int, x, y)]),
            ) by {
                lemma_cell_index_in_bounds(W as int, H as int, x, y);
                assert(cells@[cell_index(W as int, x, y)] == ((x as i32, y as i32), &self.grid.at(x, y)));
            }
            assert forall|i: int| 0 <= i < W * H implies pixels@[i] == self.frame()[i] by {
                lemma_index_is_cell(W as int, H as int, i);
                assert(pixels@[cell_index(W as int, i % W as int, i / W as int)] == pixels@[i]);
            }
            assert(pixels@ =~= self.frame());
        }
        pixels
    }
}

} // verus!
