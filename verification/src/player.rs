//! The player and the two steps that act on it.

use crate::error::GameError;
use crate::game_parameters::{default_game_parameters, create_default_game_parameters, GameParameters};
use crate::keyboard::{just_pressed, just_pressed_keys, Key};
use crate::math::{fits, Vec2, Vec3};
use bevy::input::keyboard::KeyCode;
use bevy::input::ButtonInput;
use vstd::prelude::*;

verus! {

/// The sprite that the user steers.
#[derive(Clone, Copy, Debug, PartialEq, Eq, Structural)]
pub struct Player {
    pub position: Vec3,
    pub scale: Vec3,
    pub velocity: Vec2,
}

/// What the keys that have just gone down add to the horizontal velocity:
/// one unit to the right for the right arrow, one to the left for the left
/// arrow. No other key counts.
pub open spec fn impulse(just_pressed: Set<Key>) -> int {
    (if just_pressed.contains(Key::ArrowRight) {
        1int
    } else {
        0int
    }) - (if just_pressed.contains(Key::ArrowLeft) {
        1int
    } else {
        0int
    })
}

impl Player {
    /// The player that a configuration describes.
    pub open spec fn spawned(parameters: GameParameters) -> Player {
        Player {
            position: parameters.initial_player_position,
            scale: parameters.initial_player_scale,
            velocity: parameters.initial_player_velocity,
        }
    }

    /// The player after the keys in `just_pressed` have acted on its
    /// velocity, where the new velocity fits.
    pub open spec fn steered(self, just_pressed: Set<Key>) -> Option<Player> {
        if fits(self.velocity.x + impulse(just_pressed)) {
            Some(
                Player {
                    velocity: Vec2 {
                        x: (self.velocity.x + impulse(just_pressed)) as i32,
                        y: self.velocity.y,
                    },
                    ..self
                },
            )
        } else {
            None
        }
    }

    /// The player one frame later: its position displaced by its velocity,
    /// where the new position fits.
    pub open spec fn moved(self) -> Option<Player> {
        match self.position.sum(self.velocity.extended(0)) {
            Some(position) => Some(Player { position, ..self }),
            None => None,
        }
    }

    /// Makes the player that `parameters` describes.
    pub fn spawn(parameters: &GameParameters) -> (player: Player)
        ensures
            player == Player::spawned(*parameters),
    {
        Player {
            position: parameters.initial_player_position,
            scale: parameters.initial_player_scale,
            velocity: parameters.initial_player_velocity,
        }
    }

    /// Lets the arrow keys that have just gone down change the horizontal
    /// velocity. Position, scale and vertical velocity stay.
    pub fn respond_to_keyboard(&mut self, input: &ButtonInput<KeyCode>) -> (result: Result<
        (),
        GameError,
    >)
        ensures
            match old(self).steered(just_pressed_keys(*input)) {
                Some(next) => result is Ok && *final(self) == next,
                None => result == Err::<(), GameError>(GameError::OutOfRange) && *final(self)
                    == *old(self),
            },
    {
        let mut change: i32 = 0;
        if just_pressed(input, Key::ArrowRight) {
            change = change + 1;
        }
        if just_pressed(input, Key::ArrowLeft) {
            change = change - 1;
        }
        match self.velocity.x.checked_add(change) {
            Some(x) => {
                self.velocity.x = x;
                Ok(())
            },
            None => Err(GameError::OutOfRange),
        }
    }

    /// Displaces the position by the velocity, once. Scale and velocity
    /// stay.
    pub fn move_by_velocity(&mut self) -> (result: Result<(), GameError>)
        ensures
            match old(self).moved() {
                Some(next) => result is Ok && *final(self) == next,
                None => result == Err::<(), GameError>(GameError::OutOfRange) && *final(self)
                    == *old(self),
            },
    {
        match self.position.checked_add(self.velocity.extend(0)) {
            Some(position) => {
                self.position = position;
                Ok(())
            },
            None => Err(GameError::OutOfRange),
        }
    }
}

/// The player that the default configuration describes.
pub fn create_default_player() -> (player: Player)
    ensures
        player == Player::spawned(default_game_parameters()),
{
    let parameters = create_default_game_parameters();
    Player::spawn(&parameters)
}

} // verus!
