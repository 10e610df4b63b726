use vstd::prelude::*;

pub mod assets;
pub mod camera;
pub mod enemy;
pub mod game;
pub mod input;
pub mod player;
pub mod ui;

verus! {

/// The coarse phase of the game.
#[derive(Clone, Copy, Debug, PartialEq, Eq, Structural)]
pub enum GameState {
    Loading,
    Gaming,
    GameOver,
}

} // verus!
