//! A small game core: one player sprite that is steered with the arrow keys
//! and moves by its velocity once per frame.
//!
//! Coordinates are whole units. Every step that would leave the range of a
//! coordinate is refused with an error and changes nothing.
//!
//! `game_parameters` and `player` hold the data, `systems` the steps of the
//! game, and `app` puts them into frames. `keyboard` is the engine's
//! keyboard as the game sees it, and `theorems` states what follows for
//! every game.

pub mod app;
pub mod error;
pub mod game_parameters;
pub mod keyboard;
pub mod math;
pub mod player;
pub mod systems;
pub mod theorems;
