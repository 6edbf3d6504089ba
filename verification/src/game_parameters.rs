//! The configuration from which the player is made.

use crate::math::{Vec2, Vec3};
use vstd::prelude::*;

verus! {

/// Where the player starts, how large it is drawn and how fast it moves at
/// first. Read once, when the player is spawned.
#[derive(Clone, Copy, Debug, PartialEq, Eq, Structural)]
pub struct GameParameters {
    pub initial_player_position: Vec3,
    pub initial_player_scale: Vec3,
    pub initial_player_velocity: Vec2,
}

/// The default configuration: a player of scale (100, 20, 1) that rests at
/// the origin.
pub open spec fn default_game_parameters() -> GameParameters {
    GameParameters {
        initial_player_position: Vec3 { x: 0, y: 0, z: 0 },
        initial_player_scale: Vec3 { x: 100, y: 20, z: 1 },
        initial_player_velocity: Vec2 { x: 0, y: 0 },
    }
}

pub fn create_default_game_parameters() -> (parameters: GameParameters)
    ensures
        parameters == default_game_parameters(),
{
    GameParameters {
        initial_player_position: Vec3::new(0, 0, 0),
        initial_player_scale: Vec3::new(100, 20, 1),
        initial_player_velocity: Vec2::new(0, 0),
    }
}

/// The default configuration, but for the velocity the player starts with.
pub fn create_default_game_parameters_with_player_velocity(initial_player_velocity: Vec2) -> (parameters:
    GameParameters)
    ensures
        parameters == (GameParameters { initial_player_velocity, ..default_game_parameters() }),
{
    let mut p = create_default_game_parameters();
    p.initial_player_velocity = initial_player_velocity;
    p
}

} // verus!
