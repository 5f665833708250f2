//! What the content generators have in common: how they are advanced and
//! drawn, and the messages that steer them.

use crate::color::Pixel;
use vstd::prelude::*;

verus! {

/// Marks a message that changes the state of one content generator.
pub trait StateUpdate {

}

/// A content generator: it is advanced in time and draws itself.
pub trait Visualisation: Sized {
    type StateUpdate: StateUpdate;

    /// The states that the generator can be in.
    spec fn wf(&self) -> bool;

    /// True if `after` is what this generator can be after an update by
    /// `delta_time_us` microseconds.
    spec fn advanced_to(&self, after: &Self, delta_time_us: u32) -> bool;

    /// The pixels of the current frame, in the order in which they are
    /// drawn.
    spec fn frame(&self) -> Seq<Pixel>;

    /// The update function, returns true if we should draw a new frame
    fn update(&mut self, delta_time_us: u32) -> (redraw: bool)
        requires
            old(self).wf(),
        ensures
            final(self).wf(),
            old(self).advanced_to(final(self), delta_time_us),
    ;

    /// The pixels of the current frame, in the order in which they are to be
    /// drawn. The generator stays as it is.
    fn draw(&mut self) -> (pixels: Vec<Pixel>)
        requires
            old(self).wf(),
        ensures
            final(self).wf(),
            pixels@ == old(self).frame(),
            *final(self) == *old(self),
    ;
}

/// Message for the sand pile.
#[derive(Clone, Copy, Debug, PartialEq, Eq, Structural)]
pub enum SandPileStateUpdate {
    Reset,
}

/// Message for the test pattern.
#[derive(Clone, Copy, Debug, PartialEq, Eq, Structural)]
pub enum TestVisUpdate {
    Reset,
}

/// Message for the game of life.
#[derive(Clone, Copy, Debug, PartialEq, Eq, Structural)]
pub enum GameOfLifeUpdate {
    Reset,
}

/// Message for the turmite.
#[derive(Clone, Copy, Debug, PartialEq, Eq, Structural)]
pub enum TurmiteUpdate {
    Reset,
}

/// Message for the Ising model.
#[derive(Clone, Copy, Debug, PartialEq, Eq, Structural)]
pub enum IsingUpdate {
    Reset,
}

impl StateUpdate for SandPileStateUpdate {

}

impl StateUpdate for TestVisUpdate {

}

impl StateUpdate for GameOfLifeUpdate {

}

impl StateUpdate for TurmiteUpdate {

}

impl StateUpdate for IsingUpdate {

}

/// A message for one of the content generators.
#[derive(Clone, Copy, Debug, PartialEq, Eq, Structural)]
pub enum VisualisationUpdate {
    SandPile(SandPileStateUpdate),
    TestVis(TestVisUpdate),
    GameOfLife(GameOfLifeUpdate),
    Turmite(TurmiteUpdate),
    Ising(IsingUpdate),
}

impl StateUpdate for VisualisationUpdate {

}

/// Names one of the content generators.
#[derive(Clone, Copy, Debug, PartialEq, Eq, Structural)]
pub enum SetState {
    SandPile,
    TestVis,
    GameOfLife,
    Turmite,
    Ising,
}

/// What a remote control can ask for.
#[derive(Clone, Copy, Debug, PartialEq, Eq, Structural)]
pub enum Action {
    Reset,
    SetVisualisation(SetState),
}

} // verus!
