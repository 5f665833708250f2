//! Driver logic for HUB75 LED matrix panels: the gamma tables, the bit-plane
//! frame buffer, the three sequencers and the streaming engines that feed
//! them, and a handful of content generators that draw on the panel.

pub mod bindings;
pub mod color;
pub mod delay;
pub mod display;
pub mod framebuffer;
pub mod game_of_life;
pub mod grid;
pub mod ising;
pub mod lut;
pub mod preview;
pub mod queue;
pub mod rng;
pub mod sand_pile;
pub mod sequencer;
pub mod setup;
pub mod state;
pub mod stream;
pub mod test_vis;
pub mod turmite;
pub mod visualisation;

pub use display::{Display, DisplayMemory};
pub use framebuffer::{fb_bytes, FrameBuffer, FB_BYTES};
pub use game_of_life::GameOfLife;
pub use ising::Ising;
pub use lut::{GammaLut, Identity, Init, Lut, LutState, Uninit};
pub use rng::RngU32;
pub use sand_pile::SandPile;
pub use state::CurrentVisualisationState;
pub use test_vis::TestVis;
pub use turmite::Turmite;
pub use visualisation::{
    Action, GameOfLifeUpdate, IsingUpdate, SandPileStateUpdate, SetState, StateUpdate,
    TestVisUpdate, TurmiteUpdate, Visualisation, VisualisationUpdate,
};
