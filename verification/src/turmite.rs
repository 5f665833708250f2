//! A turmite with two states on a grid of two colours: an ant that reads the
//! colour under it, repaints the cell, turns and moves one cell on.

use crate::color::{Pixel, Point, Rgb888};
use crate::grid::{
    cell_index, lemma_cell_index_in_bounds, lemma_index_is_cell, on_grid, valid_grid, Grid,
};
use crate::visualisation::{TurmiteUpdate, Visualisation};
use vstd::prelude::*;

verus! {

#[derive(Copy, Clone, Debug, PartialEq, Eq, Structural)]
pub enum State {
    A,
    B,
}

#[derive(Copy, Clone, Debug, PartialEq, Eq, Structural)]
pub enum Colour {
    A,
    B,
}

#[derive(Copy, Clone, Debug, PartialEq, Eq, Structural)]
pub enum Turn {
    Straight,
    Left,
    Right,
    Back,
}

#[derive(Copy, Clone, Debug, PartialEq, Eq, Structural)]
pub enum Direction {
    Up,
    Left,
    Right,
    Down,
}

/// The number that stands for a state: `A` is 0, `B` is 1.
pub open spec fn state_code(state: State) -> int {
    match state {
        State::A => 0,
        State::B => 1,
    }
}

/// The number that stands for a colour: `A` is 0, `B` is 1.
pub open spec fn colour_code(colour: Colour) -> int {
    match colour {
        Colour::A => 0,
        Colour::B => 1,
    }
}

/// The number that stands for a turn, in the order of declaration.
pub open spec fn turn_code(turn: Turn) -> int {
    match turn {
        Turn::Straight => 0,
        Turn::Left => 1,
        Turn::Right => 2,
        Turn::Back => 3,
    }
}

/// The direction an ant faces after it makes `turn` while facing `direction`.
pub open spec fn turned(direction: Direction, turn: Turn) -> Direction {
    match (direction, turn) {
        (Direction::Up, Turn::Straight) => Direction::Up,
        (Direction::Up, Turn::Left) => Direction::Left,
        (Direction::Up, Turn::Right) => Direction::Right,
        (Direction::Up, Turn::Back) => Direction::Down,
        (Direction::Left, Turn::Straight) => Direction::Left,
        (Direction::Left, Turn::Left) => Direction::Up,
        (Direction::Left, Turn::Right) => Direction::Down,
        (Direction::Left, Turn::Back) => Direction::Right,
        (Direction::Right, Turn::Straight) => Direction::Right,
        (Direction::Right, Turn::Left) => Direction::Up,
        (Direction::Right, Turn::Right) => Direction::Down,
        (Direction::Right, Turn::Back) => Direction::Left,
        (Direction::Down, Turn::Straight) => Direction::Down,
        (Direction::Down, Turn::Left) => Direction::Right,
        (Direction::Down, Turn::Right) => Direction::Left,
        (Direction::Down, Turn::Back) => Direction::Up,
    }
}

/// The cell one step from `(x, y)` in `direction`; rows grow downwards.
pub open spec fn stepped(direction: Direction, x: int, y: int) -> (int, int) {
    match direction {
        Direction::Up => (x, y - 1),
        Direction::Left => (x - 1, y),
        Direction::Right => (x + 1, y),
        Direction::Down => (x, y + 1),
    }
}

/// A coordinate that left the range `0..limit` on one side comes back in on
/// the other.
pub open spec fn wrapped(v: int, limit: int) -> int {
    if v < 0 {
        limit - 1
    } else if v >= limit {
        0
    } else {
        v
    }
}

/// What the ant does for each pair of state and colour: the next state, the
/// colour it leaves behind, and the turn it makes.
pub struct TwoByTwoTurmiteRule([(State, Colour, Turn); 4]);

impl View for TwoByTwoTurmiteRule {
    type V = Seq<(State, Colour, Turn)>;

    /// The four entries, for (A, A), (A, B), (B, A) and (B, B).
    closed spec fn view(&self) -> Seq<(State, Colour, Turn)> {
        self.0@
    }
}

impl TwoByTwoTurmiteRule {
    /// The entry of the rule that is used in `state` on `colour`.
    pub open spec fn entry(&self, state: State, colour: Colour) -> (State, Colour, Turn) {
        self@[2 * state_code(state) + colour_code(colour)]
    }

    /// Packs one entry of a rule into a byte: the state in bit 0, the colour
    /// in bit 1, the turn in bits 2 and 3.
    pub fn construct_rule(state: State, colour: Colour, turn: Turn) -> (packed: u8)
        ensures
            packed == state_code(state) + 2 * colour_code(colour) + 4 * turn_code(turn),
    {
        let s: u8 = match state {
            State::A => 0,
            State::B => 1,
        };
        let c: u8 = match colour {
            Colour::A => 0,
            Colour::B => 1,
        };
        let t: u8 = match turn {
            Turn::Straight => 0,
            Turn::Left => 1,
            Turn::Right => 2,
            Turn::Back => 3,
        };
        let packed: u8 = (s & 0b0000_0001) | ((c << 1) & 0b0000_0010) | ((t << 2) & 0b0000_1100);
        assert(packed == s + 2 * c + 4 * t) by (bit_vector)
            requires
                s <= 1,
                c <= 1,
                t <= 3,
                packed == (s & 0b0000_0001) | ((c << 1) & 0b0000_0010) | ((t << 2) & 0b0000_1100),
        ;
        packed
    }

    /// create the rules from 4 tuples of (state, colour, turn)
    pub fn new(rules: [(State, Colour, Turn); 4]) -> (rule: Self)
        ensures
            rule@ == rules@,
    {
        TwoByTwoTurmiteRule(rules)
    }

    pub fn get(&self, state: State, colour: Colour) -> (entry: (State, Colour, Turn))
        ensures
            entry == self.entry(state, colour),
    {
        match (state, colour) {
            (State::A, Colour::A) => self.0[0],
            (State::A, Colour::B) => self.0[1],
            (State::B, Colour::A) => self.0[2],
            (State::B, Colour::B) => self.0[3],
        }
    }
}

/// The ant: its inner state, the direction it faces and the cell it is on.
pub struct TurmiteState {
    internal: State,
    direction: Direction,
    x: i32,
    y: i32,
}

/// What a `TurmiteState` holds.
pub ghost struct TurmiteStateView {
    pub internal: State,
    pub direction: Direction,
    pub x: int,
    pub y: int,
}

impl View for TurmiteState {
    type V = TurmiteStateView;

    closed spec fn view(&self) -> TurmiteStateView {
        TurmiteStateView {
            internal: self.internal,
            direction: self.direction,
            x: self.x as int,
            y: self.y as int,
        }
    }
}

impl TurmiteState {
    /// An ant in state `internal` that faces `direction` on cell `(x, y)`.
    pub fn new(internal: State, direction: Direction, x: i32, y: i32) -> (state: Self)
        ensures
            state@ == (TurmiteStateView { internal, direction, x: x as int, y: y as int }),
    {
        TurmiteState { internal, direction, x, y }
    }

    /// The cell in front of the ant.
    pub fn next_x_y(&self) -> (next: (i32, i32))
        requires
            i32::MIN < self@.x < i32::MAX,
            i32::MIN < self@.y < i32::MAX,
        ensures
            (next.0 as int, next.1 as int) == stepped(self@.direction, self@.x, self@.y),
    {
        match self.direction {
            Direction::Up => (self.x, self.y - 1),
            Direction::Left => (self.x - 1, self.y),
            Direction::Right => (self.x + 1, self.y),
            Direction::Down => (self.x, self.y + 1),
        }
    }

    /// The cell in front of the ant on a grid whose edges are joined.
    pub fn next_x_y_wrapped(&self, width: i32, height: i32) -> (next: (i32, i32))
        requires
            i32::MIN < self@.x < i32::MAX,
            i32::MIN < self@.y < i32::MAX,
            i32::MIN < width,
            i32::MIN < height,
        ensures
            next.0 == wrapped(stepped(self@.direction, self@.x, self@.y).0, width as int),
            next.1 == wrapped(stepped(self@.direction, self@.x, self@.y).1, height as int),
    {
        let (mut x, mut y) = self.next_x_y();
        if x < 0 {
            x = width - 1
        }
        if x >= width {
            x = 0
        }
        if y < 0 {
            y = height - 1
        }
        if y >= height {
            y = 0
        }
        (x, y)
    }

    /// The direction the ant faces after it makes `turn`.
    pub fn next_dir(&self, turn: Turn) -> (direction: Direction)
        ensures
            direction == turned(self@.direction, turn),
    {
        match (self.direction, turn) {
            (Direction::Up, Turn::Straight) => Direction::Up,
            (Direction::Up, Turn::Left) => Direction::Left,
            (Direction::Up, Turn::Right) => Direction::Right,
            (Direction::Up, Turn::Back) => Direction::Down,
            (Direction::Left, Turn::Straight) => Direction::Left,
            (Direction::Left, Turn::Left) => Direction::Up,
            (Direction::Left, Turn::Right) => Direction::Down,
            (Direction::Left, Turn::Back) => Direction::Right,
            (Direction::Right, Turn::Straight) => Direction::Right,
            (Direction::Right, Turn::Left) => Direction::Up,
            (Direction::Right, Turn::Right) => Direction::Down,
            (Direction::Right, Turn::Back) => Direction::Left,
            (Direction::Down, Turn::Straight) => Direction::Down,
            (Direction::Down, Turn::Left) => Direction::Right,
            (Direction::Down, Turn::Right) => Direction::Left,
            (Direction::Down, Turn::Back) => Direction::Up,
        }
    }
}

/// The ant, its rule and the grid it walks on.
pub struct Turmite<const W: usize, const H: usize> {
    rule: TwoByTwoTurmiteRule,
    state: TurmiteState,
    grid: Grid<Colour, W, H>,
}

/// What a `Turmite` holds.
pub ghost struct TurmiteView {
    pub rule: Seq<(State, Colour, Turn)>,
    pub ant: TurmiteStateView,
    pub cells: Seq<Colour>,
}

impl<const W: usize, const H: usize> View for Turmite<W, H> {
    type V = TurmiteView;

    closed spec fn view(&self) -> TurmiteView {
        TurmiteView { rule: self.rule@, ant: self.state@, cells: self.grid@ }
    }
}

/// The colour that a cell of the turmite's grid is drawn in.
pub open spec fn colour_shown(colour: Colour) -> Rgb888 {
    match colour {
        Colour::A => Rgb888 { r: 0, g: 0, b: 0 },
        Colour::B => Rgb888 { r: 255, g: 255, b: 255 },
    }
}

/// One step of the ant on a grid of `w` columns and `h` rows. On the grid
/// the ant reads the colour under it, takes the rule's entry for its state
/// and that colour, repaints the cell, turns, and moves one cell on, coming
/// back in on the far side when it leaves the grid. Off the grid nothing
/// changes.
pub open spec fn turmite_step(v: TurmiteView, w: int, h: int) -> TurmiteView {
    if on_grid(w, h, v.ant.x, v.ant.y) {
        let index = cell_index(w, v.ant.x, v.ant.y);
        let entry = v.rule[2 * state_code(v.ant.internal) + colour_code(v.cells[index])];
        let direction = turned(v.ant.direction, entry.2);
        let next = stepped(direction, v.ant.x, v.ant.y);
        TurmiteView {
            rule: v.rule,
            ant: TurmiteStateView {
                internal: entry.0,
                direction,
                x: wrapped(next.0, w),
                y: wrapped(next.1, h),
            },
            cells: v.cells.update(index, entry.1),
        }
    } else {
        v
    }
}

/// The rule that every new turmite starts with.
pub open spec fn initial_rule() -> Seq<(State, Colour, Turn)> {
    seq![
        (State::A, Colour::B, Turn::Straight),
        (State::A, Colour::A, Turn::Straight),
        (State::B, Colour::B, Turn::Straight),
        (State::B, Colour::A, Turn::Straight),
    ]
}

impl<const W: usize, const H: usize> Turmite<W, H> {
    /// A turmite is well formed if its grid is.
    pub open spec fn wf(&self) -> bool {
        &&& valid_grid(W as int, H as int)
        &&& self@.cells.len() == W * H
        &&& self@.rule.len() == 4
    }

    /// A turmite in state `A` on cell `(0, 0)`, facing right, on a grid of
    /// colour `A`.
    pub fn new() -> (turmite: Self)
        requires
            valid_grid(W as int, H as int),
        ensures
            turmite.wf(),
            turmite@.rule == initial_rule(),
            turmite@.ant == (TurmiteStateView {
                internal: State::A,
                direction: Direction::Right,
                x: 0,
                y: 0,
            }),
            turmite@.cells == Seq::new((W * H) as nat, |i: int| Colour::A),
    {
        let rules: [(State, Colour, Turn); 4] = [
            (State::A, Colour::B, Turn::Straight),
            (State::A, Colour::A, Turn::Straight),
            (State::B, Colour::B, Turn::Straight),
            (State::B, Colour::A, Turn::Straight),
        ];
        assert(rules@ =~= initial_rule());
        Turmite {
            rule: TwoByTwoTurmiteRule::new(rules),
            state: TurmiteState { internal: State::A, direction: Direction::Right, x: 0, y: 0 },
            grid: Grid::new(Colour::A),
        }
    }

    /// Lets the ant make one step.
    pub fn step(&mut self)
        requires
            old(self).wf(),
        ensures
            final(self).wf(),
            final(self)@ == turmite_step(old(self)@, W as int, H as int),
    {
        if let Some(colour) = self.grid.get_mut(self.state.x, self.state.y) {
            let (new_state, new_colour, turn) = self.rule.get(self.state.internal, *colour);
            self.state.internal = new_state;
            self.state.direction = self.state.next_dir(turn);
            *colour = new_colour;
            let (x, y) = self.state.next_x_y_wrapped(W as i32, H as i32);
            self.state.x = x;
            self.state.y = y;
        }
    }
}

impl<const W: usize, const H: usize> Visualisation for Turmite<W, H> {
    type StateUpdate = TurmiteUpdate;

    open spec fn wf(&self) -> bool {
        Turmite::wf(self)
    }

    /// An update is one step of the ant, however much time has passed.
    open spec fn advanced_to(&self, after: &Self, delta_time_us: u32) -> bool {
        after@ == turmite_step(self@, W as int, H as int)
    }

    /// One pixel per cell, in memory order: black for colour `A`, white for
    /// colour `B`.
    open spec fn frame(&self) -> Seq<Pixel> {
        Seq::new(
            self@.cells.len(),
            |i: int|
                Pixel(
                    Point { x: (i % W as int) as i32, y: (i / W as int) as i32 },
                    colour_shown(self@.cells[i]),
                ),
        )
    }

    /// Lets the ant make one step and asks for a new frame.
    fn update(&mut self, delta_time_us: u32) -> (redraw: bool)
        ensures
            redraw,
    {
        self.step();
        true
    }

    /// One pixel per cell, in memory order: black for colour `A`, white for
    /// colour `B`.
    fn draw(&mut self) -> (pixels: Vec<Pixel>)
        ensures
            pixels@.len() == W * H,
            forall|x: int, y: int|
                on_grid(W as int, H as int, x, y) ==> #[trigger] pixels@[cell_index(W as int, x, y)]
                    == Pixel(
                    Point { x: x as i32, y: y as i32 },
                    colour_shown(old(self)@.cells[cell_index(W as int, x, y)]),
                ),
    {
        let cells = self.grid.iter_with_index();
        let n: usize = cells.len();
        let mut pixels: Vec<Pixel> = Vec::new();
        let mut i: usize = 0;
        while i < n
            invariant
                i <= n,
                n == cells@.len(),
                pixels@.len() == i,
                forall|k: int|
                    0 <= k < i ==> #[trigger] pixels@[k] == Pixel(
                        Point { x: cells@[k].0.0, y: cells@[k].0.1 },
                        colour_shown(*cells@[k].1),
                    ),
            decreases n - i,
        {
            let ((x, y), colour) = cells[i];
            let shown = match colour {
                Colour::A => Rgb888::black(),
                Colour::B => Rgb888::white(),
            };
            pixels.push(Pixel(Point::new(x, y), shown));
            i += 1;
        }
        proof {
            assert forall|x: int, y: int| on_grid(W as int, H as int, x, y) implies #[trigger] pixels@[cell_index(
                W as int,
                x,
                y,
            )] == Pixel(
                Point { x: x as i32, y: y as i32 },
                colour_shown(old(self)@.cells[cell_index(W as int, x, y)]),
            ) by {
                lemma_cell_index_in_bounds(W as int, H as int, x, y);
                assert(cells@[cell_index(W as int, x, y)] == ((x as i32, y as i32), &self.grid.at(x, y)));
            }
            assert forall|i: int| 0 <= i < W * H implies pixels@[i] == self.frame()[i] by {
                lemma_index_is_cell(W as int, H as int, i);
                assert(pixels@[cell_index(W as int, i % W as int, i / W as int)] == pixels@[i]);
            }
            assert(pixels@ =~= self.frame());
        }
        pixels
    }
}

} // verus!
