//! What holds of the game in every state: how many players there are, where
//! a frame takes the player, and what the keyboard has to do with it.

use crate::app::{after_system, after_systems, frame, game, AppState, System};
use crate::error::GameError;
use crate::game_parameters::GameParameters;
use crate::keyboard::Key;
use crate::math::{fits, Vec2};
use crate::player::{impulse, Player};
use vstd::prelude::*;

verus! {

/// The app runs the game: its steps are those of `game`, in that order, and
/// it holds no player before its first frame and one after it.
pub open spec fn runs_game(state: AppState) -> bool {
    &&& state.startup == seq![System::AddSpriteBundle]
    &&& state.update == seq![System::RespondToKeyboard, System::MovePlayer]
    &&& state.players.len() == if state.started {
        1nat
    } else {
        0nat
    }
}

/// No arrow key acts in the coming frame: there is no keyboard, or the keys
/// that have just gone down have no impulse.
pub open spec fn coasts(state: AppState) -> bool {
    match state.just_pressed() {
        Some(keys) => impulse(keys) == 0,
        None => true,
    }
}

/// The player that the coming frame acts on: the one there is, or before
/// the first frame the one that the configuration describes.
pub open spec fn player_before_frame(state: AppState) -> Player {
    if state.started {
        state.players[0]
    } else {
        Player::spawned(state.parameters)
    }
}

/// What one frame makes of one player: the keyboard, where there is one,
/// acts on the velocity, and the new velocity displaces the player.
pub open spec fn player_after_frame(player: Player, just_pressed: Option<Set<Key>>) -> Result<
    Player,
    GameError,
> {
    let steered = match just_pressed {
        Some(keys) => player.steered(keys),
        None => Some(player),
    };
    match steered {
        None => Err(GameError::OutOfRange),
        Some(steered) => match steered.moved() {
            None => Err(GameError::OutOfRange),
            Some(moved) => Ok(moved),
        },
    }
}

/// The app after `n` frames, or the error of the first frame that is
/// refused.
pub open spec fn frames(state: AppState, n: nat) -> Result<AppState, GameError>
    decreases n,
{
    if n == 0 {
        Ok(state)
    } else {
        match frame(state) {
            Err(e) => Err(e),
            Ok(next) => frames(next, (n - 1) as nat),
        }
    }
}

/// What `key` alone adds to the horizontal velocity when it goes down.
pub open spec fn direction(key: Key) -> int {
    match key {
        Key::ArrowRight => 1,
        Key::ArrowLeft => -1,
        Key::Space => 0,
    }
}

proof fn lemma_one_system(
    system: System,
    players: Seq<Player>,
    parameters: GameParameters,
    just_pressed: Option<Set<Key>>,
)
    ensures
        after_systems(seq![system], players, parameters, just_pressed) == after_system(
            system,
            players,
            parameters,
            just_pressed,
        ),
{
    reveal_with_fuel(after_systems, 2);
}

proof fn lemma_two_systems(
    first: System,
    second: System,
    players: Seq<Player>,
    parameters: GameParameters,
    just_pressed: Option<Set<Key>>,
)
    ensures
        after_systems(seq![first, second], players, parameters, just_pressed) == match after_system(
            first,
            players,
            parameters,
            just_pressed,
        ) {
            Err(e) => Err(e),
            Ok(next) => after_system(second, next, parameters, just_pressed),
        },
{
    assert(seq![first, second].skip(1) =~= seq![second]);
    match after_system(first, players, parameters, just_pressed) {
        Err(e) => {},
        Ok(next) => {
            lemma_one_system(second, next, parameters, just_pressed);
        },
    }
}

proof fn lemma_one_more_frame(state: AppState, n: nat)
    requires
        n > 0,
    ensures
        frames(state, n) == match frame(state) {
            Err(e) => Err(e),
            Ok(next) => frames(next, (n - 1) as nat),
        },
        frames(state, n) is Ok ==> frame(state) is Ok,
        n == 1 ==> frames(state, n) == frame(state),
{
    reveal_with_fuel(frames, 2);
}

/// A frame of the game in one formula: it holds one player afterwards, the
/// one that the frame makes of the player before it, and is refused exactly
/// when a coordinate of that player would leave its range.
pub proof fn lemma_game_frame(state: AppState)
    requires
        runs_game(state),
    ensures
        frame(state) == match player_after_frame(player_before_frame(state), state.just_pressed()) {
            Ok(player) => Ok(
                AppState { players: seq![player], started: true, ..state.end_frame() },
            ),
            Err(e) => Err(e),
        },
{
    let keys = state.just_pressed();
    let parameters = state.parameters;
    let set_up = if state.started {
        state.players
    } else {
        state.players.push(Player::spawned(parameters))
    };
    if !state.started {
        lemma_one_system(System::AddSpriteBundle, state.players, parameters, keys);
    }
    lemma_two_systems(System::RespondToKeyboard, System::MovePlayer, set_up, parameters, keys);
}

/// A fresh game runs the game, has no keyboard and holds no player yet.
pub proof fn lemma_fresh_game(parameters: GameParameters)
    ensures
        runs_game(game(parameters)),
        !game(parameters).started,
        game(parameters).players.len() == 0,
        game(parameters).parameters == parameters,
        coasts(game(parameters)),
{
}

/// Every frame of the game that is not refused leaves exactly one player,
/// in an app that still runs the game with the same configuration; and no
/// key has just gone down when the frame is over.
pub proof fn lemma_one_player(state: AppState)
    requires
        runs_game(state),
        frame(state) is Ok,
    ensures
        runs_game(frame(state)->Ok_0),
        frame(state)->Ok_0.started,
        frame(state)->Ok_0.players.len() == 1,
        frame(state)->Ok_0.parameters == state.parameters,
        frame(state)->Ok_0.input is Some <==> state.input is Some,
        frame(state)->Ok_0.input is Some ==> frame(state)->Ok_0.input->Some_0.just_pressed
            == Set::<Key>::empty(),
        coasts(frame(state)->Ok_0),
{
    lemma_game_frame(state);
}

/// However many frames the game has run, at least one, it holds exactly one
/// player.
pub proof fn lemma_always_one_player(state: AppState, n: nat)
    requires
        runs_game(state),
        n > 0,
        frames(state, n) is Ok,
    ensures
        runs_game(frames(state, n)->Ok_0),
        frames(state, n)->Ok_0.started,
        frames(state, n)->Ok_0.players.len() == 1,
    decreases n,
{
    lemma_one_more_frame(state, n);
    lemma_one_player(state);
    if n > 1 {
        lemma_always_one_player(frame(state)->Ok_0, (n - 1) as nat);
    }
}

/// The first frame makes the player from the configuration. Its scale is
/// the configured one, whatever the keys. Where no arrow key acts, its
/// velocity is the configured one and it has moved by that velocity from
/// the configured position; with no velocity configured it is exactly at
/// the configured position, and the frame is not refused.
pub proof fn lemma_first_frame(state: AppState)
    requires
        runs_game(state),
        !state.started,
    ensures
        frame(state) is Ok ==> frame(state)->Ok_0.players[0].scale
            == state.parameters.initial_player_scale,
        frame(state) is Ok && coasts(state) ==> ({
            let player = frame(state)->Ok_0.players[0];
            let velocity = state.parameters.initial_player_velocity;
            let position = state.parameters.initial_player_position;
            &&& player.velocity == velocity
            &&& player.position.x == position.x + velocity.x
            &&& player.position.y == position.y + velocity.y
            &&& player.position.z == position.z
        }),
        coasts(state) && state.parameters.initial_player_velocity == (Vec2 { x: 0, y: 0 }) ==> {
            &&& frame(state) is Ok
            &&& frame(state)->Ok_0.players[0] == Player::spawned(state.parameters)
            &&& frame(state)->Ok_0.players[0].position == state.parameters.initial_player_position
        },
{
    lemma_game_frame(state);
}

/// Linear motion: in a frame in which no arrow key acts, the player moves
/// by exactly its velocity, with no motion in depth, and keeps its velocity
/// and its scale. Such a frame is refused exactly when the new position
/// would not fit.
pub proof fn lemma_linear_motion(state: AppState)
    requires
        runs_game(state),
        coasts(state),
    ensures
        frame(state) is Ok <==> fits(
            player_before_frame(state).position.x + player_before_frame(state).velocity.x,
        ) && fits(player_before_frame(state).position.y + player_before_frame(state).velocity.y),
        frame(state) is Ok ==> ({
            let before = player_before_frame(state);
            let after = frame(state)->Ok_0.players[0];
            &&& after.position.x == before.position.x + before.velocity.x
            &&& after.position.y == before.position.y + before.velocity.y
            &&& after.position.z == before.position.z
            &&& after.velocity == before.velocity
            &&& after.scale == before.scale
        }),
        frame(state) is Err ==> frame(state) == Err::<AppState, GameError>(GameError::OutOfRange),
{
    lemma_game_frame(state);
}

/// Linear motion over any number of frames, at least one: as long as no key
/// goes down, the player keeps its velocity and its scale and has moved by
/// its velocity once per frame.
pub proof fn lemma_coasting(state: AppState, n: nat)
    requires
        runs_game(state),
        coasts(state),
        n > 0,
        frames(state, n) is Ok,
    ensures
        ({
            let before = player_before_frame(state);
            let after = frames(state, n)->Ok_0.players[0];
            &&& after.velocity == before.velocity
            &&& after.scale == before.scale
            &&& after.position.x == before.position.x + n * before.velocity.x
            &&& after.position.y == before.position.y + n * before.velocity.y
            &&& after.position.z == before.position.z
        }),
    decreases n,
{
    lemma_one_more_frame(state, n);
    lemma_linear_motion(state);
    lemma_one_player(state);
    if n > 1 {
        let next = frame(state)->Ok_0;
        let before = player_before_frame(state);
        lemma_coasting(next, (n - 1) as nat);
        assert(before.position.x + before.velocity.x + (n - 1) * before.velocity.x
            == before.position.x + n * before.velocity.x) by (nonlinear_arith);
        assert(before.position.y + before.velocity.y + (n - 1) * before.velocity.y
            == before.position.y + n * before.velocity.y) by (nonlinear_arith);
    }
}

/// A player without velocity on which no arrow key acts stays exactly as it
/// is, for any number of frames, and none of these frames is refused.
pub proof fn lemma_resting_player(state: AppState, n: nat)
    requires
        runs_game(state),
        coasts(state),
        player_before_frame(state).velocity == (Vec2 { x: 0, y: 0 }),
    ensures
        frames(state, n) is Ok,
        n > 0 ==> frames(state, n)->Ok_0.players[0] == player_before_frame(state),
    decreases n,
{
    if n > 0 {
        lemma_one_more_frame(state, n);
        lemma_linear_motion(state);
        lemma_one_player(state);
        if n > 1 {
            lemma_resting_player(frame(state)->Ok_0, (n - 1) as nat);
        }
    }
}

/// Without a keyboard the velocity never changes: after any number of
/// frames, at least one, there is still no keyboard, the player has the
/// velocity it had and has moved by that velocity once per frame. A player
/// without velocity is therefore where it was.
pub proof fn lemma_no_keyboard(state: AppState, n: nat)
    requires
        runs_game(state),
        state.input is None,
        n > 0,
        frames(state, n) is Ok,
    ensures
        frames(state, n)->Ok_0.input is None,
        ({
            let before = player_before_frame(state);
            let after = frames(state, n)->Ok_0.players[0];
            &&& after.velocity == before.velocity
            &&& after.position.x == before.position.x + n * before.velocity.x
            &&& after.position.y == before.position.y + n * before.velocity.y
            &&& after.position.z == before.position.z
            &&& before.velocity == (Vec2 { x: 0, y: 0 }) ==> after == before
        }),
    decreases n,
{
    lemma_coasting(state, n);
    lemma_one_more_frame(state, n);
    lemma_one_player(state);
    if n > 1 {
        lemma_no_keyboard(frame(state)->Ok_0, (n - 1) as nat);
    }
    if player_before_frame(state).velocity == (Vec2 { x: 0, y: 0 }) {
        lemma_resting_player(state, n);
    }
}

/// The arrow keys: in a frame with a keyboard, the keys that have just gone
/// down change the horizontal velocity by their impulse, and the player
/// moves by the new velocity in the same frame. The vertical velocity and
/// the scale stay.
pub proof fn lemma_arrow_keys(state: AppState)
    requires
        runs_game(state),
        state.input is Some,
        frame(state) is Ok,
    ensures
        ({
            let keys = state.input->Some_0.just_pressed;
            let before = player_before_frame(state);
            let after = frame(state)->Ok_0.players[0];
            &&& after.velocity.x == before.velocity.x + impulse(keys)
            &&& after.velocity.y == before.velocity.y
            &&& after.position.x == before.position.x + before.velocity.x + impulse(keys)
            &&& after.position.y == before.position.y + before.velocity.y
            &&& after.position.z == before.position.z
            &&& after.scale == before.scale
        }),
{
    lemma_game_frame(state);
}

/// Pressing a key: when a key that is up goes down while no arrow key has
/// just gone down, and any number of frames follow, at least one, then the
/// horizontal velocity has changed by the direction of that key, once, and
/// the player has moved by the new velocity once per frame. The right arrow
/// makes the player one unit faster to the right, the left arrow one unit
/// faster to the left, and any other key changes nothing.
pub proof fn lemma_pressing_a_key(state: AppState, key: Key, n: nat)
    requires
        runs_game(state),
        state.input is Some,
        !state.input->Some_0.pressed.contains(key),
        !state.input->Some_0.just_pressed.contains(Key::ArrowLeft),
        !state.input->Some_0.just_pressed.contains(Key::ArrowRight),
        n > 0,
        frames(state.press(key), n) is Ok,
    ensures
        ({
            let before = player_before_frame(state);
            let after = frames(state.press(key), n)->Ok_0.players[0];
            &&& after.velocity.x == before.velocity.x + direction(key)
            &&& after.velocity.y == before.velocity.y
            &&& after.position.x == before.position.x + n * (before.velocity.x + direction(key))
            &&& after.position.y == before.position.y + n * before.velocity.y
            &&& after.position.z == before.position.z
            &&& after.scale == before.scale
        }),
{
    let pressed = state.press(key);
    let before = player_before_frame(state);
    lemma_one_more_frame(pressed, n);
    lemma_arrow_keys(pressed);
    lemma_one_player(pressed);
    if n > 1 {
        let next = frame(pressed)->Ok_0;
        lemma_coasting(next, (n - 1) as nat);
        let fast: int = before.velocity.x + direction(key);
        assert(before.position.x + fast + (n - 1) * fast == before.position.x + n * fast)
            by (nonlinear_arith);
        assert(before.position.y + before.velocity.y + (n - 1) * before.velocity.y
            == before.position.y + n * before.velocity.y) by (nonlinear_arith);
    }
}

} // verus!
