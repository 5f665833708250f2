//! A rectangular grid of values, stored row by row.

use crate::rng::RngU32;
use vstd::prelude::*;

verus! {

/// True if `(x, y)` is a cell of a grid of `w` columns and `h` rows.
pub open spec fn on_grid(w: int, h: int, x: int, y: int) -> bool {
    0 <= x < w && 0 <= y < h
}

/// Index of cell `(x, y)` in a grid of `w` columns: `x` runs fast, `y` slow.
pub open spec fn cell_index(w: int, x: int, y: int) -> int {
    y * w + x
}

/// The column and row that are read out of the random number `rn` for a grid
/// of `w` columns and `h` rows.
pub open spec fn coord_of_random(w: int, h: int, rn: u32) -> (int, int) {
    (rn as int % w, (rn as int / 65536) % h)
}

/// The grid sizes that can be held: both sides fit a signed 32-bit
/// coordinate, and the number of cells fits the machine.
pub open spec fn valid_grid(w: int, h: int) -> bool {
    &&& w <= i32::MAX
    &&& h <= i32::MAX
    &&& w * h <= usize::MAX
}

/// Tells whether a grid of this size can be held.
pub fn grid_is_valid(w: usize, h: usize) -> (ok: bool)
    ensures
        ok == valid_grid(w as int, h as int),
{
    w <= 0x7fff_ffff && h <= 0x7fff_ffff && w.checked_mul(h).is_some()
}

/// A grid of size `(W, H)` containing a value of type `T`
pub struct Grid<T, const W: usize, const H: usize> {
    buffer: Vec<T>,
}

impl<T, const W: usize, const H: usize> View for Grid<T, W, H> {
    type V = Seq<T>;

    /// The cells in memory order: row 0 first, each row from column 0.
    closed spec fn view(&self) -> Seq<T> {
        self.buffer@
    }
}

impl<T: Copy, const W: usize, const H: usize> Grid<T, W, H> {
    pub fn new(fill_value: T) -> (grid: Self)
        requires
            valid_grid(W as int, H as int),
        ensures
            grid.wf(),
            grid@ == Seq::new((W * H) as nat, |i: int| fill_value),
    {
        let n: usize = W * H;
        let mut buffer: Vec<T> = Vec::new();
        let mut i: usize = 0;
        while i < n
            invariant
                i <= n,
                buffer@.len() == i,
                forall|k: int| 0 <= k < i ==> buffer@[k] == fill_value,
            decreases n - i,
        {
            buffer.push(fill_value);
            i += 1;
        }
        assert(buffer@ =~= Seq::new((W * H) as nat, |i: int| fill_value));
        Grid { buffer }
    }
}

impl<T, const W: usize, const H: usize> Grid<T, W, H> {
    /// A grid is well formed if its size is valid and it holds `W * H` cells.
    /// The constructor establishes this and every method keeps it.
    pub open spec fn wf(&self) -> bool {
        &&& valid_grid(W as int, H as int)
        &&& self@.len() == W * H
    }

    /// The value of cell `(x, y)`.
    pub open spec fn at(&self, x: int, y: int) -> T {
        self@[cell_index(W as int, x, y)]
    }

    pub fn x_y_to_index(x: i32, y: i32) -> (index: Option<usize>)
        requires
            valid_grid(W as int, H as int),
        ensures
            match index {
                Some(i) => on_grid(W as int, H as int, x as int, y as int) && i == cell_index(
                    W as int,
                    x as int,
                    y as int,
                ) && i < W * H,
                None => !on_grid(W as int, H as int, x as int, y as int),
            },
    {
        if y >= 0 && y < H as i32 && x >= 0 && x < W as i32 {
            proof {
                lemma_cell_index_in_bounds(W as int, H as int, x as int, y as int);
            }
            Some(y as usize * W + x as usize)
        } else {
            None
        }
    }

    pub fn buffer(&self) -> (cells: &[T])
        ensures
            cells@ == self@,
    {
        self.buffer.as_slice()
    }

    pub fn get(&self, x: i32, y: i32) -> (cell: Option<&T>)
        requires
            self.wf(),
        ensures
            match cell {
                Some(value) => on_grid(W as int, H as int, x as int, y as int) && *value
                    == self.at(x as int, y as int),
                None => !on_grid(W as int, H as int, x as int, y as int),
            },
    {
        let index = Self::x_y_to_index(x, y)?;
        Some(&self.buffer[index])
    }

    /// The cells for writing in place. The grid afterwards holds what the
    /// slice holds when the borrow ends.
    pub fn buffer_mut(&mut self) -> (cells: &mut [T])
        ensures
            cells@ == old(self)@,
            final(self)@ == final(cells)@,
    {
        self.buffer.as_mut_slice()
    }

    pub fn get_mut(&mut self, x: i32, y: i32) -> (cell: Option<&mut T>)
        requires
            old(self).wf(),
        ensures
            final(self).wf(),
            match cell {
                Some(value) => on_grid(W as int, H as int, x as int, y as int) && *value == old(
                    self,
                ).at(x as int, y as int) && final(self)@ == old(self)@.update(
                    cell_index(W as int, x as int, y as int),
                    *final(value),
                ),
                None => !on_grid(W as int, H as int, x as int, y as int) && final(self)@ == old(
                    self,
                )@,
            },
    {
        match Self::x_y_to_index(x, y) {
            Some(index) => Some(&mut self.buffer[index]),
            None => None,
        }
    }

    pub fn set(&mut self, x: i32, y: i32, value: T)
        requires
            old(self).wf(),
        ensures
            final(self).wf(),
            final(self)@ == if on_grid(W as int, H as int, x as int, y as int) {
                old(self)@.update(cell_index(W as int, x as int, y as int), value)
            } else {
                old(self)@
            },
    {
        if let Some(i) = Self::x_y_to_index(x, y) {
            self.buffer[i] = value;
        }
    }

    /// Iterate over the indices (x, y)
    pub fn iter_coords() -> (coords: Vec<(i32, i32)>)
        requires
            valid_grid(W as int, H as int),
        ensures
            coords@.len() == W * H,
            forall|x: int, y: int|
                on_grid(W as int, H as int, x, y) ==> #[trigger] coords@[cell_index(W as int, x, y)]
                    == (x as i32, y as i32),
    {
        let mut coords: Vec<(i32, i32)> = Vec::new();
        let mut y: usize = 0;
        while y < H
            invariant
                y <= H,
                valid_grid(W as int, H as int),
                coords@.len() == y * W,
                forall|cx: int, cy: int|
                    on_grid(W as int, y as int, cx, cy) ==> #[trigger] coords@[cell_index(
                        W as int,
                        cx,
                        cy,
                    )] == (cx as i32, cy as i32),
            decreases H - y,
        {
            let mut x: usize = 0;
            while x < W
                invariant
                    x <= W,
                    y < H,
                    valid_grid(W as int, H as int),
                    coords@.len() == y * W + x,
                    forall|cx: int, cy: int|
                        on_grid(W as int, y as int, cx, cy) ==> #[trigger] coords@[cell_index(
                            W as int,
                            cx,
                            cy,
                        )] == (cx as i32, cy as i32),
                    forall|cx: int|
                        0 <= cx < x ==> #[trigger] coords@[cell_index(W as int, cx, y as int)] == (
                            cx as i32,
                            y as i32,
                        ),
                decreases W - x,
            {
                proof {
                    assert forall|cx: int, cy: int| on_grid(W as int, y as int, cx, cy) implies (
                    #[trigger] cell_index(W as int, cx, cy)) < y * W by {
                        lemma_cell_index_in_bounds(W as int, y as int, cx, cy);
                        assert(W * y == y * W) by (nonlinear_arith);
                    }
                }
                coords.push((x as i32, y as i32));
                x += 1;
            }
            proof {
                assert((y + 1) * W == y * W + W) by (nonlinear_arith);
            }
            y += 1;
        }
        proof {
            assert(H * W == W * H) by (nonlinear_arith);
        }
        coords
    }

    /// Iterate over the values by reference, with indices (x, y) in memory order (x fast, y slow)
    pub fn iter_with_index(&self) -> (cells: Vec<((i32, i32), &T)>)
        requires
            self.wf(),
        ensures
            cells@.len() == W * H,
            forall|x: int, y: int|
                on_grid(W as int, H as int, x, y) ==> #[trigger] cells@[cell_index(W as int, x, y)]
                    == ((x as i32, y as i32), &self.at(x, y)),
    {
        let coords = Self::iter_coords();
        let n: usize = coords.len();
        let mut cells: Vec<((i32, i32), &T)> = Vec::new();
        let mut i: usize = 0;
        while i < n
            invariant
                i <= n,
                n == W * H,
                n == coords@.len(),
                self.wf(),
                cells@.len() == i,
                forall|k: int| 0 <= k < i ==> #[trigger] cells@[k] == (coords@[k], &self@[k]),
            decreases n - i,
        {
            cells.push((coords[i], &self.buffer[i]));
            i += 1;
        }
        proof {
            assert forall|x: int, y: int| on_grid(W as int, H as int, x, y) implies #[trigger] cells@[cell_index(
                W as int,
                x,
                y,
            )] == ((x as i32, y as i32), &self.at(x, y)) by {
                lemma_cell_index_in_bounds(W as int, H as int, x, y);
            }
        }
        cells
    }

    /// Item `i` of the walk over the cells in memory order, for writing: its
    /// indices (x, y) and the cell itself. `None` once the walk is over.
    pub fn iter_mut_with_index(&mut self, i: usize) -> (item: Option<((i32, i32), &mut T)>)
        requires
            old(self).wf(),
        ensures
            final(self).wf(),
            match item {
                Some((coord, value)) => i < W * H && coord == ((i % W) as i32, (i / W) as i32)
                    && on_grid(W as int, H as int, coord.0 as int, coord.1 as int) && i
                    == cell_index(W as int, coord.0 as int, coord.1 as int) && *value == old(
                    self,
                )@[i as int] && final(self)@ == old(self)@.update(i as int, *final(value)),
                None => i >= W * H && final(self)@ == old(self)@,
            },
    {
        if i < self.buffer.len() {
            proof {
                assert(W > 0 && i / W < H) by (nonlinear_arith)
                    requires
                        i < W * H,
                        0 <= i,
                        0 <= W,
                ;
                vstd::arithmetic::div_mod::lemma_fundamental_div_mod(i as int, W as int);
                assert(W * (i / W) == (i / W) * W) by (nonlinear_arith);
            }
            let x = (i % W) as i32;
            let y = (i / W) as i32;
            Some(((x, y), &mut self.buffer[i]))
        } else {
            None
        }
    }

    /// The cell that the random number `rn` selects.
    pub fn coord_from_random(rn: u32) -> (coord: (i32, i32))
        requires
            valid_grid(W as int, H as int),
            0 < W,
            0 < H,
        ensures
            (coord.0 as int, coord.1 as int) == coord_of_random(W as int, H as int, rn),
            on_grid(W as int, H as int, coord.0 as int, coord.1 as int),
    {
        let wide: usize = rn as usize;
        assert(wide >> 16 == wide / 65536) by (bit_vector);
        let x = (wide % W) as i32;
        let y = ((wide >> 16) % H) as i32;
        (x, y)
    }

    /// A cell of the grid, picked by the next random number: one number is
    /// drawn from `rng`, and the cell is the one that `coord_from_random`
    /// gives for it. The grid stays as it is.
    pub fn random_coord<Rng: RngU32>(&mut self, rng: &mut Rng) -> (coord: (i32, i32))
        requires
            old(self).wf(),
            0 < W,
            0 < H,
        ensures
            exists|rn: u32|
                (coord.0 as int, coord.1 as int) == #[trigger] coord_of_random(
                    W as int,
                    H as int,
                    rn,
                ),
            on_grid(W as int, H as int, coord.0 as int, coord.1 as int),
            final(self)@ == old(self)@,
    {
        let rn = rng.next_u32();
        Self::coord_from_random(rn)
    }
}

/// The index of a cell on the grid lies inside the buffer.
pub proof fn lemma_cell_index_in_bounds(w: int, h: int, x: int, y: int)
    requires
        on_grid(w, h, x, y),
    ensures
        0 <= y * w,
        0 <= cell_index(w, x, y) < w * h,
{
    assert(0 <= y * w && y * w + w <= w * h) by (nonlinear_arith)
        requires
            0 <= y < h,
            0 < w,
    ;
}

/// Two cells of a grid have the same index only if they are the same cell.
pub proof fn lemma_cell_index_distinct(w: int, h: int, x1: int, y1: int, x2: int, y2: int)
    requires
        on_grid(w, h, x1, y1),
        on_grid(w, h, x2, y2),
        x1 != x2 || y1 != y2,
    ensures
        cell_index(w, x1, y1) != cell_index(w, x2, y2),
        0 <= cell_index(w, x1, y1) < w * h,
{
    lemma_cell_index_in_bounds(w, h, x1, y1);
    if y1 < y2 {
        assert(y1 * w + w <= y2 * w) by (nonlinear_arith)
            requires
                y1 < y2,
                0 < w,
        ;
    } else if y2 < y1 {
        assert(y2 * w + w <= y1 * w) by (nonlinear_arith)
            requires
                y2 < y1,
                0 < w,
        ;
    }
}

/// Every index of the buffer is the index of the cell in column `i % w` of
/// row `i / w`.
pub proof fn lemma_index_is_cell(w: int, h: int, i: int)
    requires
        0 <= w,
        0 <= h,
        0 <= i < w * h,
    ensures
        on_grid(w, h, i % w, i / w),
        cell_index(w, i % w, i / w) == i,
{
    assert(w > 0 && i / w < h && 0 <= i / w) by (nonlinear_arith)
        requires
            0 <= i < w * h,
            0 <= w,
            0 <= h,
    ;
    vstd::arithmetic::div_mod::lemma_fundamental_div_mod(i, w);
    assert(w * (i / w) == (i / w) * w) by (nonlinear_arith);
}

} // verus!
