//! A sand pile: grains fall on a grid, and a cell that holds four or more
//! topples, giving one grain to each of the cells beside it. Grains that
//! fall over the edge are lost. Cells that may have to topple wait in a
//! bounded queue.

use crate::color::{Pixel, Point, Rgb888};
use crate::grid::{
    cell_index, coord_of_random, lemma_cell_index_in_bounds, lemma_index_is_cell, on_grid,
    valid_grid, Grid,
};
use crate::queue::Queue;
use crate::rng::RngU32;
use crate::visualisation::{SandPileStateUpdate, Visualisation};
use vstd::prelude::*;
use vstd::std_specs::cmp::PartialEqSpec;

verus! {

/// Number of cells that can wait to topple.
pub const QUEUE_LENGTH: usize = 2048;

/// Number of steps of one update.
pub const STEPS_PER_UPDATE: usize = 100;

pub struct SandPile<Rng, const W: usize, const H: usize> {
    sand: Grid<u8, W, H>,
    /// a list of coordinates to collapse
    collapse_queue: Queue<(u8, u8), QUEUE_LENGTH>,
    rng: Rng,
    x_drop: i32,
    y_drop: i32,
    /// if true, drop sand in random positions, otherwise use the x and y
    drop_randomly: bool,
}

/// What a `SandPile` holds, but for its source of random numbers.
pub ghost struct SandPileView {
    /// Number of grains in each cell, in memory order.
    pub sand: Seq<u8>,
    /// The cells that wait to topple, the oldest first.
    pub queue: Seq<(u8, u8)>,
    pub x_drop: int,
    pub y_drop: int,
    pub drop_randomly: bool,
}

impl<Rng, const W: usize, const H: usize> View for SandPile<Rng, W, H> {
    type V = SandPileView;

    closed spec fn view(&self) -> SandPileView {
        SandPileView {
            sand: self.sand@,
            queue: self.collapse_queue@,
            x_drop: self.x_drop as int,
            y_drop: self.y_drop as int,
            drop_randomly: self.drop_randomly,
        }
    }
}

/// True if `queue` holds the cell `cell`.
pub open spec fn waits(queue: Seq<(u8, u8)>, cell: (u8, u8)) -> bool {
    exists|i: int| 0 <= i < queue.len() && #[trigger] queue[i] == cell
}

/// One more grain in a cell that holds `grains`; a cell holds at most 255.
pub open spec fn one_more(grains: u8) -> u8 {
    if grains < 255 {
        (grains + 1) as u8
    } else {
        255
    }
}

/// The pile after one grain fell on `(x, y)`. Off the grid the grain is
/// lost. On the grid the cell gets it, and if the cell then holds four or
/// more it is put on the queue, unless it waits there already or the queue
/// is full.
pub open spec fn with_grain(v: SandPileView, w: int, h: int, x: int, y: int) -> SandPileView {
    if on_grid(w, h, x, y) {
        let index = cell_index(w, x, y);
        let grains = one_more(v.sand[index]);
        let cell = (x as u8, y as u8);
        SandPileView {
            sand: v.sand.update(index, grains),
            queue: if grains >= 4 && !waits(v.queue, cell) && v.queue.len() < QUEUE_LENGTH {
                v.queue.push(cell)
            } else {
                v.queue
            },
            ..v
        }
    } else {
        v
    }
}

/// The pile after cell `(x, y)` toppled once: it loses four grains, and one
/// grain falls on the cell to its left, to its right, above and below it,
/// in this order.
pub open spec fn toppled(v: SandPileView, w: int, h: int, x: int, y: int) -> SandPileView {
    let index = cell_index(w, x, y);
    let lighter = SandPileView { sand: v.sand.update(index, (v.sand[index] - 4) as u8), ..v };
    with_grain(
        with_grain(with_grain(with_grain(lighter, w, h, x - 1, y), w, h, x + 1, y), w, h, x, y - 1),
        w,
        h,
        x,
        y + 1,
    )
}

/// The pile after cell `(x, y)` toppled `times` times in a row.
pub open spec fn toppled_times(v: SandPileView, w: int, h: int, x: int, y: int, times: nat) -> SandPileView
    decreases times,
{
    if times == 0 {
        v
    } else {
        toppled(toppled_times(v, w, h, x, y, (times - 1) as nat), w, h, x, y)
    }
}

/// Takes cells from the queue until one of them holds four grains or more,
/// and topples that one. The result is the pile afterwards, and whether a
/// cell toppled; if none did, the queue is empty.
pub open spec fn settled(v: SandPileView, w: int, h: int) -> (SandPileView, bool)
    decreases v.queue.len(),
{
    if v.queue.len() == 0 {
        (v, false)
    } else {
        let (x, y) = v.queue.last();
        let rest = SandPileView { queue: v.queue.drop_last(), ..v };
        if on_grid(w, h, x as int, y as int) && rest.sand[cell_index(w, x as int, y as int)] >= 4 {
            (toppled(rest, w, h, x as int, y as int), true)
        } else {
            settled(rest, w, h)
        }
    }
}

/// The cell that the next grain falls on: the one that the random number
/// `rn` selects, or the fixed one.
pub open spec fn drop_position(v: SandPileView, w: int, h: int, rn: u32) -> (int, int) {
    if v.drop_randomly {
        coord_of_random(w, h, rn)
    } else {
        (v.x_drop, v.y_drop)
    }
}

/// One step: a waiting cell topples, or, if none has to, a grain falls.
pub open spec fn stepped(v: SandPileView, w: int, h: int, rn: u32) -> SandPileView {
    let (after, changed) = settled(v, w, h);
    if changed {
        after
    } else {
        with_grain(after, w, h, drop_position(after, w, h, rn).0, drop_position(after, w, h, rn).1)
    }
}

/// The pile after one step for each of the random numbers `draws`.
pub open spec fn stepped_many(v: SandPileView, w: int, h: int, draws: Seq<u32>) -> SandPileView
    decreases draws.len(),
{
    if draws.len() == 0 {
        v
    } else {
        stepped(stepped_many(v, w, h, draws.drop_last()), w, h, draws.last())
    }
}

/// A grain that falls beside a cell leaves that cell as it is.
proof fn lemma_grain_beside(v: SandPileView, w: int, h: int, x: int, y: int, gx: int, gy: int)
    requires
        on_grid(w, h, x, y),
        gx != x || gy != y,
        v.sand.len() == w * h,
    ensures
        with_grain(v, w, h, gx, gy).sand[cell_index(w, x, y)] == v.sand[cell_index(w, x, y)],
        with_grain(v, w, h, gx, gy).sand.len() == v.sand.len(),
{
    lemma_cell_index_in_bounds(w, h, x, y);
    if on_grid(w, h, gx, gy) {
        crate::grid::lemma_cell_index_distinct(w, h, gx, gy, x, y);
    }
}

/// A cell that topples loses four grains.
proof fn lemma_toppled_cell(v: SandPileView, w: int, h: int, x: int, y: int)
    requires
        on_grid(w, h, x, y),
        v.sand.len() == w * h,
        v.sand[cell_index(w, x, y)] >= 4,
    ensures
        toppled(v, w, h, x, y).sand[cell_index(w, x, y)] == v.sand[cell_index(w, x, y)] - 4,
{
    let index = cell_index(w, x, y);
    lemma_cell_index_in_bounds(w, h, x, y);
    let lighter = SandPileView { sand: v.sand.update(index, (v.sand[index] - 4) as u8), ..v };
    let one = with_grain(lighter, w, h, x - 1, y);
    let two = with_grain(one, w, h, x + 1, y);
    let three = with_grain(two, w, h, x, y - 1);
    lemma_grain_beside(lighter, w, h, x, y, x - 1, y);
    lemma_grain_beside(one, w, h, x, y, x + 1, y);
    lemma_grain_beside(two, w, h, x, y, x, y - 1);
    lemma_grain_beside(three, w, h, x, y, x, y + 1);
}

/// A queue of cells holds a cell by `==` exactly if the cell waits in it.
proof fn lemma_holds_is_waits(queue: Queue<(u8, u8), QUEUE_LENGTH>, cell: (u8, u8))
    ensures
        queue.holds(cell) == waits(queue@, cell),
{
    if queue.holds(cell) {
        let i = choose|i: int| 0 <= i < queue@.len() && #[trigger] queue@[i].eq_spec(&cell);
        assert(queue@[i] == cell);
    }
    if waits(queue@, cell) {
        let i = choose|i: int| 0 <= i < queue@.len() && #[trigger] queue@[i] == cell;
        assert(queue@[i].eq_spec(&cell));
    }
}

/// The colour that a cell with `grains` grains is drawn in.
pub open spec fn sand_shown(grains: u8) -> Rgb888 {
    if grains == 0 {
        Rgb888 { r: 0, g: 0, b: 0 }
    } else if grains == 1 {
        Rgb888 { r: 255, g: 255, b: 255 }
    } else if grains == 2 {
        Rgb888 { r: 255, g: 0, b: 0 }
    } else if grains == 3 {
        Rgb888 { r: 0, g: 0, b: 255 }
    } else {
        Rgb888 { r: 255, g: 105, b: 180 }
    }
}

impl<Rng: RngU32, const W: usize, const H: usize> SandPile<Rng, W, H> {
    /// A pile is well formed if its grid has at least one cell, its queue is
    /// within its bound and the fixed drop position is on the grid.
    pub open spec fn wf(&self) -> bool {
        &&& valid_grid(W as int, H as int)
        &&& 0 < W
        &&& 0 < H
        &&& self@.sand.len() == W * H
        &&& self@.queue.len() <= QUEUE_LENGTH
        &&& on_grid(W as int, H as int, self@.x_drop, self@.y_drop)
    }

    /// An empty pile on which grains fall at random. The first random number
    /// selects the fixed drop position.
    pub fn new(rng: Rng) -> (pile: Self)
        requires
            valid_grid(W as int, H as int),
            0 < W,
            0 < H,
        ensures
            pile.wf(),
            pile@.sand == Seq::new((W * H) as nat, |i: int| 0u8),
            pile@.queue == Seq::<(u8, u8)>::empty(),
            pile@.drop_randomly,
            exists|rn: u32|
                (pile@.x_drop, pile@.y_drop) == #[trigger] coord_of_random(W as int, H as int, rn),
    {
        let mut rng = rng;
        let rn = rng.next_u32();
        let (x, y) = Grid::<u8, W, H>::coord_from_random(rn);
        SandPile {
            sand: Grid::new(0),
            collapse_queue: Queue::new(),
            rng,
            x_drop: x,
            y_drop: y,
            drop_randomly: true,
        }
    }

    /// Number of grains in each cell, row by row.
    pub fn sand(&self) -> (cells: &[u8])
        ensures
            cells@ == self@.sand,
    {
        self.sand.buffer()
    }

    /// Number of cells that wait to topple.
    pub fn waiting(&self) -> (n: usize)
        ensures
            n == self@.queue.len(),
    {
        self.collapse_queue.len()
    }

    /// Lets one grain fall on `(x, y)`; tells whether that is on the grid.
    pub fn add_grain(&mut self, x: i32, y: i32) -> (placed: bool)
        requires
            old(self).wf(),
        ensures
            final(self).wf(),
            final(self)@ == with_grain(old(self)@, W as int, H as int, x as int, y as int),
            placed == on_grid(W as int, H as int, x as int, y as int),
    {
        let held: Option<u8> = match self.sand.get(x, y) {
            Some(grains) => Some(*grains),
            None => None,
        };
        match held {
            Some(grains) => {
                let more: u8 = grains.saturating_add(1);
                self.sand.set(x, y, more);
                if more >= 4 {
                    let cell: (u8, u8) = (#[verifier::truncate] (x as u8), #[verifier::truncate] (y as u8));
                    proof {
                        lemma_holds_is_waits(self.collapse_queue, cell);
                    }
                    let _ = self.collapse_queue.push_unique(cell);
                }
                true
            },
            None => false,
        }
    }

    /// pull from the queue until something happens in the grid.
    /// Returns false if nothing happened. Returns true if something happened
    pub fn pull_until_changed(&mut self) -> (changed: bool)
        requires
            old(self).wf(),
        ensures
            final(self).wf(),
            (final(self)@, changed) == settled(old(self)@, W as int, H as int),
    {
        loop
            invariant
                self.wf(),
                settled(self@, W as int, H as int) == settled(old(self)@, W as int, H as int),
            decreases self@.queue.len(),
        {
            match self.collapse_queue.pull() {
                Some((x, y)) => {
                    let held: Option<u8> = match self.sand.get(x as i32, y as i32) {
                        Some(grains) => Some(*grains),
                        None => None,
                    };
                    if let Some(grains) = held {
                        if grains >= 4 {
                            self.sand.set(x as i32, y as i32, grains - 4);
                            let _ = self.add_grain(x as i32 - 1, y as i32);
                            let _ = self.add_grain(x as i32 + 1, y as i32);
                            let _ = self.add_grain(x as i32, y as i32 - 1);
                            let _ = self.add_grain(x as i32, y as i32 + 1);
                            return true;
                        }
                    }
                },
                None => {
                    return false;
                },
            }
        }
    }

    /// Topples cell `(x, y)` until it holds fewer than four grains.
    pub fn update_position(&mut self, x: i32, y: i32)
        requires
            old(self).wf(),
            on_grid(W as int, H as int, x as int, y as int),
        ensures
            final(self).wf(),
            final(self)@.sand[cell_index(W as int, x as int, y as int)] < 4,
            exists|times: nat|
                {
                    &&& final(self)@ == #[trigger] toppled_times(
                        old(self)@,
                        W as int,
                        H as int,
                        x as int,
                        y as int,
                        times,
                    )
                    &&& forall|earlier: nat|
                        earlier < times ==> (#[trigger] toppled_times(
                            old(self)@,
                            W as int,
                            H as int,
                            x as int,
                            y as int,
                            earlier,
                        )).sand[cell_index(W as int, x as int, y as int)] >= 4
                },
    {
        let ghost mut times: nat = 0;
        let ghost index = cell_index(W as int, x as int, y as int);
        proof {
            lemma_cell_index_in_bounds(W as int, H as int, x as int, y as int);
        }
        loop
            invariant
                self.wf(),
                on_grid(W as int, H as int, x as int, y as int),
                index == cell_index(W as int, x as int, y as int),
                0 <= index < W * H,
                self@ == toppled_times(old(self)@, W as int, H as int, x as int, y as int, times),
                forall|earlier: nat|
                    earlier < times ==> (#[trigger] toppled_times(
                        old(self)@,
                        W as int,
                        H as int,
                        x as int,
                        y as int,
                        earlier,
                    )).sand[index] >= 4,
            ensures
                self.wf(),
                self@.sand[index] < 4,
                self@ == toppled_times(old(self)@, W as int, H as int, x as int, y as int, times),
                forall|earlier: nat|
                    earlier < times ==> (#[trigger] toppled_times(
                        old(self)@,
                        W as int,
                        H as int,
                        x as int,
                        y as int,
                        earlier,
                    )).sand[index] >= 4,
            decreases self@.sand[index],
        {
            let grains: u8 = match self.sand.get(x, y) {
                Some(grains) => *grains,
                None => 0,
            };
            if grains < 4 {
                break;
            }
            let ghost before = self@;
            self.sand.set(x, y, grains - 4);
            let _ = self.add_grain(x - 1, y);
            let _ = self.add_grain(x + 1, y);
            let _ = self.add_grain(x, y - 1);
            let _ = self.add_grain(x, y + 1);
            proof {
                lemma_toppled_cell(before, W as int, H as int, x as int, y as int);
                times = times + 1;
            }
        }
    }

    /// Lets one grain fall where `rn` says, or on the fixed position.
    pub fn place_sand_with(&mut self, rn: u32) -> (placed: bool)
        requires
            old(self).wf(),
        ensures
            final(self).wf(),
            placed,
            final(self)@ == with_grain(
                old(self)@,
                W as int,
                H as int,
                drop_position(old(self)@, W as int, H as int, rn).0,
                drop_position(old(self)@, W as int, H as int, rn).1,
            ),
    {
        let (x, y) = if self.drop_randomly {
            Grid::<u8, W, H>::coord_from_random(rn)
        } else {
            (self.x_drop, self.y_drop)
        };
        self.add_grain(x, y)
    }

    /// Lets one grain fall, at random or on the fixed position.
    pub fn place_sand(&mut self) -> (placed: bool)
        requires
            old(self).wf(),
        ensures
            final(self).wf(),
            placed,
            exists|rn: u32|
                final(self)@ == with_grain(
                    old(self)@,
                    W as int,
                    H as int,
                    (#[trigger] drop_position(old(self)@, W as int, H as int, rn)).0,
                    drop_position(old(self)@, W as int, H as int, rn).1,
                ),
    {
        let rn: u32 = if self.drop_randomly {
            self.rng.next_u32()
        } else {
            0
        };
        self.place_sand_with(rn)
    }

    /// Update the simulation until something changes
    pub fn step_until_changed(&mut self)
        requires
            old(self).wf(),
        ensures
            final(self).wf(),
            exists|rn: u32| final(self)@ == #[trigger] stepped(old(self)@, W as int, H as int, rn),
    {
        if !self.pull_until_changed() {
            let ghost before = self@;
            let _ = self.place_sand();
            proof {
                let rn = choose|rn: u32|
                    self@ == with_grain(
                        before,
                        W as int,
                        H as int,
                        (#[trigger] drop_position(before, W as int, H as int, rn)).0,
                        drop_position(before, W as int, H as int, rn).1,
                    );
                assert(self@ == stepped(old(self)@, W as int, H as int, rn));
            }
        } else {
            assert(self@ == stepped(old(self)@, W as int, H as int, 0));
        }
    }
}

impl<Rng: RngU32, const W: usize, const H: usize> Visualisation for SandPile<Rng, W, H> {
    type StateUpdate = SandPileStateUpdate;

    open spec fn wf(&self) -> bool {
        SandPile::wf(self)
    }

    /// An update is a hundred steps, however much time has passed; each
    /// step that drops a grain at random draws one random number.
    open spec fn advanced_to(&self, after: &Self, delta_time_us: u32) -> bool {
        exists|draws: Seq<u32>|
            draws.len() == STEPS_PER_UPDATE && after@ == #[trigger] stepped_many(
                self@,
                W as int,
                H as int,
                draws,
            )
    }

    /// One pixel per cell, in memory order: black for an empty cell, white,
    /// red and blue for one, two and three grains, pink for more.
    open spec fn frame(&self) -> Seq<Pixel> {
        Seq::new(
            self@.sand.len(),
            |i: int|
                Pixel(
                    Point { x: (i % W as int) as i32, y: (i / W as int) as i32 },
                    sand_shown(self@.sand[i]),
                ),
        )
    }

    /// Makes a hundred steps and asks for a new frame.
    fn update(&mut self, _delta_time_us: u32) -> (redraw: bool)
        ensures
            redraw,
    {
        let ghost mut draws: Seq<u32> = Seq::empty();
        let mut i: usize = 0;
        while i < STEPS_PER_UPDATE
            invariant
                i <= STEPS_PER_UPDATE,
                SandPile::wf(self),
                draws.len() == i,
                self@ == stepped_many(old(self)@, W as int, H as int, draws),
            decreases STEPS_PER_UPDATE - i,
        {
            let ghost before = self@;
            self.step_until_changed();
            proof {
                let rn = choose|rn: u32| self@ == #[trigger] stepped(before, W as int, H as int, rn);
                assert(draws.push(rn).drop_last() =~= draws);
                draws = draws.push(rn);
            }
            i += 1;
        }
        true
    }

    /// One pixel per cell, in memory order: black for an empty cell, white,
    /// red and blue for one, two and three grains, pink for more.
    fn draw(&mut self) -> (pixels: Vec<Pixel>)
        ensures
            pixels@.len() == W * H,
            forall|x: int, y: int|
                on_grid(W as int, H as int, x, y) ==> #[trigger] pixels@[cell_index(W as int, x, y)]
                    == Pixel(
                    Point { x: x as i32, y: y as i32 },
                    sand_shown(old(self)@.sand[cell_index(W as int, x, y)]),
                ),
    {
        let cells = self.sand.iter_with_index();
        let n: usize = cells.len();
        let mut pixels: Vec<Pixel> = Vec::new();
        let mut i: usize = 0;
        while i < n
            invariant
                i <= n,
                n == cells@.len(),
                pixels@.len() == i,
                forall|k: int|
                    0 <= k < i ==> #[trigger] pixels@[k] == Pixel(
                        Point { x: cells@[k].0.0, y: cells@[k].0.1 },
                        sand_shown(*cells@[k].1),
                    ),
            decreases n - i,
        {
            let ((x, y), v) = cells[i];
            let colour = if *v == 0 {
                Rgb888::black()
            } else if *v == 1 {
                Rgb888::white()
            } else if *v == 2 {
                Rgb888::red()
            } else if *v == 3 {
                Rgb888::blue()
            } else {
                Rgb888::css_hot_pink()
            };
            pixels.push(Pixel(Point::new(x, y), colour));
            i += 1;
        }
        proof {
            assert forall|x: int, y: int| on_grid(W as int, H as int, x, y) implies #[trigger] pixels@[cell_index(
                W as int,
                x,
                y,
            )] == Pixel(
                Point { x: x as i32, y: y as i32 },
                sand_shown(old(self)@.sand[cell_index(W as int, x, y)]),
            ) by {
                lemma_cell_index_in_bounds(W as int, H as int, x, y);
                assert(cells@[cell_index(W as int, x, y)] == ((x as i32, y as i32), &self.sand.at(x, y)));
            }
            assert forall|i: int| 0 <= i < W * H implies pixels@[i] == self.frame()[i] by {
                lemma_index_is_cell(W as int, H as int, i);
                assert(pixels@[cell_index(W as int, i % W as int, i / W as int)] == pixels@[i]);
            }
            assert(pixels@ =~= self.frame());
        }
        pixels
    }
}

} // verus!
