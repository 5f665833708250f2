//! The content generator that is on show, whichever it is.

use crate::color::Pixel;
use crate::game_of_life::GameOfLife;
use crate::ising::Ising;
use crate::rng::RngU32;
use crate::sand_pile::SandPile;
use crate::test_vis::TestVis;
use crate::turmite::Turmite;
use crate::visualisation::{SetState, Visualisation, VisualisationUpdate};
use vstd::prelude::*;

verus! {

/// One of the content generators, for a panel of 64 by 32 pixels.
pub enum CurrentVisualisationState<Rng> {
    SandPile(SandPile<Rng, 64, 32>),
    TestVis(TestVis),
    GameOfLife(GameOfLife<64, 32>),
    Turmite(Turmite<64, 32>),
    Ising(Ising<Rng, 64, 32>),
}

impl<Rng: RngU32> CurrentVisualisationState<Rng> {
    /// The name of the content generator that is on show.
    pub open spec fn kind(&self) -> SetState {
        match self {
            CurrentVisualisationState::SandPile(_) => SetState::SandPile,
            CurrentVisualisationState::TestVis(_) => SetState::TestVis,
            CurrentVisualisationState::GameOfLife(_) => SetState::GameOfLife,
            CurrentVisualisationState::Turmite(_) => SetState::Turmite,
            CurrentVisualisationState::Ising(_) => SetState::Ising,
        }
    }
}

impl<Rng: RngU32> Visualisation for CurrentVisualisationState<Rng> {
    type StateUpdate = VisualisationUpdate;

    /// The state is well formed if the content generator is.
    open spec fn wf(&self) -> bool {
        match self {
            CurrentVisualisationState::SandPile(s) => s.wf(),
            CurrentVisualisationState::TestVis(s) => s.wf(),
            CurrentVisualisationState::GameOfLife(s) => s.wf(),
            CurrentVisualisationState::Turmite(s) => s.wf(),
            CurrentVisualisationState::Ising(s) => s.wf(),
        }
    }

    /// An update keeps the content generator that is on show and advances
    /// it as its own update says.
    open spec fn advanced_to(&self, after: &Self, delta_time_us: u32) -> bool {
        match (self, after) {
            (
                CurrentVisualisationState::SandPile(a),
                CurrentVisualisationState::SandPile(b),
            ) => Visualisation::advanced_to(a, b, delta_time_us),
            (
                CurrentVisualisationState::TestVis(a),
                CurrentVisualisationState::TestVis(b),
            ) => Visualisation::advanced_to(a, b, delta_time_us),
            (
                CurrentVisualisationState::GameOfLife(a),
                CurrentVisualisationState::GameOfLife(b),
            ) => Visualisation::advanced_to(a, b, delta_time_us),
            (
                CurrentVisualisationState::Turmite(a),
                CurrentVisualisationState::Turmite(b),
            ) => Visualisation::advanced_to(a, b, delta_time_us),
            (
                CurrentVisualisationState::Ising(a),
                CurrentVisualisationState::Ising(b),
            ) => Visualisation::advanced_to(a, b, delta_time_us),
            _ => false,
        }
    }

    /// The frame of the content generator that is on show.
    open spec fn frame(&self) -> Seq<Pixel> {
        match self {
            CurrentVisualisationState::SandPile(s) => Visualisation::frame(s),
            CurrentVisualisationState::TestVis(s) => Visualisation::frame(s),
            CurrentVisualisationState::GameOfLife(s) => Visualisation::frame(s),
            CurrentVisualisationState::Turmite(s) => Visualisation::frame(s),
            CurrentVisualisationState::Ising(s) => Visualisation::frame(s),
        }
    }

    /// Advances the content generator that is on show. Every one of them
    /// asks for a new frame.
    fn update(&mut self, delta_time_us: u32) -> (redraw: bool)
        ensures
            redraw,
            final(self).kind() == old(self).kind(),
    {
        match self {
            CurrentVisualisationState::SandPile(sand_pile) => sand_pile.update(delta_time_us),
            CurrentVisualisationState::TestVis(test_vis) => test_vis.update(delta_time_us),
            CurrentVisualisationState::GameOfLife(s) => s.update(delta_time_us),
            CurrentVisualisationState::Turmite(s) => s.update(delta_time_us),
            CurrentVisualisationState::Ising(s) => s.update(delta_time_us),
        }
    }

    /// Draws the content generator that is on show.
    fn draw(&mut self) -> (pixels: Vec<Pixel>) {
        match self {
            CurrentVisualisationState::SandPile(sand_pile) => sand_pile.draw(),
            CurrentVisualisationState::TestVis(test_vis) => test_vis.draw(),
            CurrentVisualisationState::GameOfLife(s) => s.draw(),
            CurrentVisualisationState::Turmite(s) => s.draw(),
            CurrentVisualisationState::Ising(s) => s.draw(),
        }
    }
}

} // verus!
