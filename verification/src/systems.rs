//! The steps of the game, as they act on all the players there are.
//!
//! The game is written for exactly one player. A step that acts on the
//! player asks for it first, and is refused when there is none or more than
//! one.

use crate::error::GameError;
use crate::game_parameters::GameParameters;
use crate::keyboard::{just_pressed_keys, Key};
use crate::player::Player;
use bevy::input::keyboard::KeyCode;
use bevy::input::ButtonInput;
use vstd::prelude::*;

verus! {

/// The one player among `players`, or why there is no such player.
pub open spec fn single(players: Seq<Player>) -> Result<Player, GameError> {
    if players.len() == 0 {
        Err(GameError::NoPlayer)
    } else if players.len() == 1 {
        Ok(players[0])
    } else {
        Err(GameError::MultiplePlayers)
    }
}

/// The keys that have just gone down on a keyboard that may be absent.
pub open spec fn just_pressed_on(maybe_input: Option<&ButtonInput<KeyCode>>) -> Option<Set<Key>> {
    match maybe_input {
        Some(input) => Some(just_pressed_keys(*input)),
        None => None,
    }
}

/// The players after the keyboard step. Without a keyboard nothing is asked
/// and nothing changes.
pub open spec fn keyboard_response(players: Seq<Player>, just_pressed: Option<Set<Key>>) -> Result<
    Seq<Player>,
    GameError,
> {
    match just_pressed {
        None => Ok(players),
        Some(keys) => match single(players) {
            Err(e) => Err(e),
            Ok(player) => match player.steered(keys) {
                Some(next) => Ok(seq![next]),
                None => Err(GameError::OutOfRange),
            },
        },
    }
}

/// The players after the movement step.
pub open spec fn movement(players: Seq<Player>) -> Result<Seq<Player>, GameError> {
    match single(players) {
        Err(e) => Err(e),
        Ok(player) => match player.moved() {
            Some(next) => Ok(seq![next]),
            None => Err(GameError::OutOfRange),
        },
    }
}

/// Tells whether there is exactly one player, and hands out a copy of it.
pub fn single_player(players: &Vec<Player>) -> (result: Result<Player, GameError>)
    ensures
        result == single(players@),
{
    if players.len() == 0 {
        Err(GameError::NoPlayer)
    } else if players.len() == 1 {
        Ok(players[0])
    } else {
        Err(GameError::MultiplePlayers)
    }
}

/// The startup step: adds the player that `parameters` describes.
pub fn add_sprite_bundle(players: &mut Vec<Player>, parameters: &GameParameters)
    ensures
        final(players)@ == old(players)@.push(Player::spawned(*parameters)),
{
    players.push(Player::spawn(parameters));
}

/// The keyboard step: lets the arrow keys that have just gone down change
/// the horizontal velocity of the player.
pub fn respond_to_keyboard(
    players: &mut Vec<Player>,
    maybe_input: Option<&ButtonInput<KeyCode>>,
) -> (result: Result<(), GameError>)
    ensures
        match keyboard_response(old(players)@, just_pressed_on(maybe_input)) {
            Ok(next) => result is Ok && final(players)@ == next,
            Err(e) => result == Err::<(), GameError>(e) && final(players)@ == old(players)@,
        },
{
    match maybe_input {
        None => Ok(()),
        Some(input) => match single_player(players) {
            Err(e) => Err(e),
            Ok(player) => {
                let mut player = player;
                match player.respond_to_keyboard(input) {
                    Err(e) => Err(e),
                    Ok(()) => {
                        players.set(0, player);
                        Ok(())
                    },
                }
            },
        },
    }
}

/// The movement step: displaces the player by its velocity, once.
pub fn move_player(players: &mut Vec<Player>) -> (result: Result<(), GameError>)
    ensures
        match movement(old(players)@) {
            Ok(next) => result is Ok && final(players)@ == next,
            Err(e) => result == Err::<(), GameError>(e) && final(players)@ == old(players)@,
        },
{
    match single_player(players) {
        Err(e) => Err(e),
        Ok(player) => {
            let mut player = player;
            match player.move_by_velocity() {
                Err(e) => Err(e),
                Ok(()) => {
                    players.set(0, player);
                    Ok(())
                },
            }
        },
    }
}

} // verus!
