//! The game as a whole: what is set up once, what runs every frame, and the
//! players and the keyboard that the steps act on.

use crate::error::GameError;
use crate::game_parameters::{create_default_game_parameters, default_game_parameters, GameParameters};
use crate::keyboard::{clear, new_input, press, release, Key, KeyboardState};
use crate::math::Vec3;
use crate::player::Player;
use crate::systems::{
    add_sprite_bundle, just_pressed_on, keyboard_response, move_player, movement,
    respond_to_keyboard, single, single_player,
};
use bevy::input::keyboard::KeyCode;
use bevy::input::ButtonInput;
use vstd::prelude::*;

verus! {

/// When a step runs: once, in the first frame, or in every frame.
#[derive(Clone, Copy, Debug, PartialEq, Eq, Structural)]
pub enum Schedule {
    Startup,
    Update,
}

/// The steps that can be scheduled.
#[derive(Clone, Copy, Debug, PartialEq, Eq, Structural)]
pub enum System {
    AddSpriteBundle,
    RespondToKeyboard,
    MovePlayer,
}

/// What an app is made of.
pub struct AppState {
    /// The configuration that the startup step reads.
    pub parameters: GameParameters,
    /// The steps of the first frame, in the order in which they run.
    pub startup: Seq<System>,
    /// The steps of every frame, in the order in which they run.
    pub update: Seq<System>,
    /// The players that were spawned, in the order in which they were.
    pub players: Seq<Player>,
    /// The keyboard, where there is one.
    pub input: Option<KeyboardState>,
    /// Whether the first frame is over.
    pub started: bool,
}

impl AppState {
    /// No step is scheduled, there is no player and no keyboard.
    pub open spec fn empty() -> AppState {
        AppState {
            parameters: default_game_parameters(),
            startup: Seq::empty(),
            update: Seq::empty(),
            players: Seq::empty(),
            input: None,
            started: false,
        }
    }

    /// The keys that the steps of the coming frame see as just gone down.
    pub open spec fn just_pressed(self) -> Option<Set<Key>> {
        match self.input {
            Some(keyboard) => Some(keyboard.just_pressed),
            None => None,
        }
    }

    /// The same app with another configuration.
    pub open spec fn configure(self, parameters: GameParameters) -> AppState {
        AppState { parameters, ..self }
    }

    /// The same app with `system` scheduled last in `schedule`.
    pub open spec fn schedule(self, schedule: Schedule, system: System) -> AppState {
        match schedule {
            Schedule::Startup => AppState { startup: self.startup.push(system), ..self },
            Schedule::Update => AppState { update: self.update.push(system), ..self },
        }
    }

    /// The same app with a keyboard: the one it has, or else one on which
    /// no key is down.
    pub open spec fn plug_in_keyboard(self) -> AppState {
        AppState {
            input: Some(
                match self.input {
                    Some(keyboard) => keyboard,
                    None => KeyboardState::idle(),
                },
            ),
            ..self
        }
    }

    /// The same app after `key` has gone down. Without a keyboard nothing
    /// changes.
    pub open spec fn press(self, key: Key) -> AppState {
        AppState {
            input: match self.input {
                Some(keyboard) => Some(keyboard.press(key)),
                None => None,
            },
            ..self
        }
    }

    /// The same app after `key` has gone up. Without a keyboard nothing
    /// changes.
    pub open spec fn release(self, key: Key) -> AppState {
        AppState {
            input: match self.input {
                Some(keyboard) => Some(keyboard.release(key)),
                None => None,
            },
            ..self
        }
    }

    /// The same app when a frame ends: no key has just gone down any more.
    pub open spec fn end_frame(self) -> AppState {
        AppState {
            input: match self.input {
                Some(keyboard) => Some(keyboard.clear()),
                None => None,
            },
            ..self
        }
    }
}

/// The players after one step.
pub open spec fn after_system(
    system: System,
    players: Seq<Player>,
    parameters: GameParameters,
    just_pressed: Option<Set<Key>>,
) -> Result<Seq<Player>, GameError> {
    match system {
        System::AddSpriteBundle => Ok(players.push(Player::spawned(parameters))),
        System::RespondToKeyboard => keyboard_response(players, just_pressed),
        System::MovePlayer => movement(players),
    }
}

/// The players after the steps in `systems`, first to last. The first step
/// that is refused ends the run with its error.
pub open spec fn after_systems(
    systems: Seq<System>,
    players: Seq<Player>,
    parameters: GameParameters,
    just_pressed: Option<Set<Key>>,
) -> Result<Seq<Player>, GameError>
    decreases systems.len(),
{
    if systems.len() == 0 {
        Ok(players)
    } else {
        match after_system(systems[0], players, parameters, just_pressed) {
            Err(e) => Err(e),
            Ok(next) => after_systems(systems.skip(1), next, parameters, just_pressed),
        }
    }
}

/// The app one frame later. The first frame runs the startup steps before
/// the others. When the steps are done the keyboard forgets which keys have
/// just gone down, so that a key acts once for each time it goes down.
pub open spec fn frame(state: AppState) -> Result<AppState, GameError> {
    let set_up = if state.started {
        Ok(state.players)
    } else {
        after_systems(state.startup, state.players, state.parameters, state.just_pressed())
    };
    match set_up {
        Err(e) => Err(e),
        Ok(players) => match after_systems(
            state.update,
            players,
            state.parameters,
            state.just_pressed(),
        ) {
            Err(e) => Err(e),
            Ok(players) => Ok(AppState { players, started: true, ..state.end_frame() }),
        },
    }
}

/// Runs one step on `players`.
fn run_system(
    system: System,
    players: &mut Vec<Player>,
    parameters: &GameParameters,
    maybe_input: Option<&ButtonInput<KeyCode>>,
) -> (result: Result<(), GameError>)
    ensures
        match after_system(system, old(players)@, *parameters, just_pressed_on(maybe_input)) {
            Ok(next) => result is Ok && final(players)@ == next,
            Err(e) => result == Err::<(), GameError>(e) && final(players)@ == old(players)@,
        },
{
    match system {
        System::AddSpriteBundle => {
            add_sprite_bundle(players, parameters);
            Ok(())
        },
        System::RespondToKeyboard => respond_to_keyboard(players, maybe_input),
        System::MovePlayer => move_player(players),
    }
}

/// Runs `systems` on `players`, first to last, up to the first step that is
/// refused.
fn run_systems(
    systems: &Vec<System>,
    players: Vec<Player>,
    parameters: &GameParameters,
    maybe_input: Option<&ButtonInput<KeyCode>>,
) -> (result: Result<Vec<Player>, GameError>)
    ensures
        match after_systems(systems@, players@, *parameters, just_pressed_on(maybe_input)) {
            Ok(next) => result is Ok && result->Ok_0@ == next,
            Err(e) => result == Err::<Vec<Player>, GameError>(e),
        },
{
    let mut current = players;
    let ghost keys = just_pressed_on(maybe_input);
    let mut i: usize = 0;
    assert(systems@.skip(0) =~= systems@);
    while i < systems.len()
        invariant
            i <= systems.len(),
            keys == just_pressed_on(maybe_input),
            after_systems(systems@, players@, *parameters, keys) == after_systems(
                systems@.skip(i as int),
                current@,
                *parameters,
                keys,
            ),
        decreases systems.len() - i,
    {
        assert(systems@.skip(i as int).skip(1) =~= systems@.skip(i + 1));
        match run_system(systems[i], &mut current, parameters, maybe_input) {
            Err(e) => {
                return Err(e);
            },
            Ok(()) => {},
        }
        i = i + 1;
    }
    Ok(current)
}

/// An app: the steps that are scheduled, the players that were spawned and,
/// where there is one, the keyboard.
pub struct App {
    parameters: GameParameters,
    startup_systems: Vec<System>,
    update_systems: Vec<System>,
    players: Vec<Player>,
    input: Option<ButtonInput<KeyCode>>,
    started: bool,
}

impl View for App {
    type V = AppState;

    closed spec fn view(&self) -> AppState {
        AppState {
            parameters: self.parameters,
            startup: self.startup_systems@,
            update: self.update_systems@,
            players: self.players@,
            input: match self.input {
                Some(input) => Some(KeyboardState::of(input)),
                None => None,
            },
            started: self.started,
        }
    }
}

impl App {
    /// An app with the default configuration in which nothing is scheduled.
    pub fn new() -> (app: App)
        ensures
            app@ == AppState::empty(),
    {
        App {
            parameters: create_default_game_parameters(),
            startup_systems: Vec::new(),
            update_systems: Vec::new(),
            players: Vec::new(),
            input: None,
            started: false,
        }
    }

    /// Replaces the configuration.
    pub fn insert_resource(&mut self, parameters: GameParameters)
        ensures
            final(self)@ == old(self)@.configure(parameters),
    {
        self.parameters = parameters;
    }

    /// Schedules `system` after the steps that `schedule` holds already.
    pub fn add_systems(&mut self, schedule: Schedule, system: System)
        ensures
            final(self)@ == old(self)@.schedule(schedule, system),
    {
        match schedule {
            Schedule::Startup => self.startup_systems.push(system),
            Schedule::Update => self.update_systems.push(system),
        }
    }

    /// Gives the app a keyboard on which no key is down, unless it has a
    /// keyboard already.
    pub fn add_input_plugin(&mut self)
        ensures
            final(self)@ == old(self)@.plug_in_keyboard(),
    {
        if self.input.is_none() {
            self.input = Some(new_input());
        }
    }

    /// Whether the app has a keyboard.
    pub fn is_input_plugin_added(&self) -> (added: bool)
        ensures
            added == self@.input is Some,
    {
        self.input.is_some()
    }

    /// `key` goes down. An app without a keyboard takes no notice.
    pub fn press(&mut self, key: Key)
        ensures
            final(self)@ == old(self)@.press(key),
    {
        match &mut self.input {
            Some(input) => press(input, key),
            None => {},
        }
    }

    /// `key` goes up. An app without a keyboard takes no notice.
    pub fn release(&mut self, key: Key)
        ensures
            final(self)@ == old(self)@.release(key),
    {
        match &mut self.input {
            Some(input) => release(input, key),
            None => {},
        }
    }

    /// Runs one frame. A frame in which a step is refused leaves the app as
    /// it was.
    pub fn update(&mut self) -> (result: Result<(), GameError>)
        ensures
            match frame(old(self)@) {
                Ok(next) => result is Ok && final(self)@ == next,
                Err(e) => result == Err::<(), GameError>(e) && final(self)@ == old(self)@,
            },
    {
        let maybe_input = match &self.input {
            Some(input) => Some(input),
            None => None,
        };
        let mut players = self.players.clone();
        if !self.started {
            match run_systems(&self.startup_systems, players, &self.parameters, maybe_input) {
                Err(e) => {
                    return Err(e);
                },
                Ok(set_up) => {
                    players = set_up;
                },
            }
        }
        match run_systems(&self.update_systems, players, &self.parameters, maybe_input) {
            Err(e) => {
                return Err(e);
            },
            Ok(moved) => {
                players = moved;
            },
        }
        self.players = players;
        self.started = true;
        match &mut self.input {
            Some(input) => clear(input),
            None => {},
        }
        Ok(())
    }

    /// The player, where there is exactly one.
    pub fn player(&self) -> (result: Result<Player, GameError>)
        ensures
            result == single(self@.players),
    {
        single_player(&self.players)
    }
}

/// The game: an app without a keyboard that spawns the player that
/// `parameters` describes in its first frame and in every frame lets the
/// keyboard act on the player and then moves it.
pub open spec fn game(parameters: GameParameters) -> AppState {
    AppState {
        parameters,
        startup: seq![System::AddSpriteBundle],
        update: seq![System::RespondToKeyboard, System::MovePlayer],
        players: Seq::empty(),
        input: None,
        started: false,
    }
}

/// Makes the game for `parameters`. It has no keyboard until
/// `add_input_plugin` gives it one.
pub fn create_app(parameters: GameParameters) -> (app: App)
    ensures
        app@ == game(parameters),
{
    let mut app = App::new();
    app.insert_resource(parameters);
    app.add_systems(Schedule::Startup, System::AddSpriteBundle);
    app.add_systems(Schedule::Update, System::RespondToKeyboard);
    app.add_systems(Schedule::Update, System::MovePlayer);
    assert(app@.startup =~= game(parameters).startup);
    assert(app@.update =~= game(parameters).update);
    app
}

/// How many players the app holds, each with its position and scale.
pub fn count_n_transforms(app: &App) -> (n: usize)
    ensures
        n == app@.players.len(),
{
    app.players.len()
}

/// Where the one player is.
pub fn get_transform_coordinat(app: &App) -> (position: Vec3)
    requires
        app@.players.len() == 1,
    ensures
        position == app@.players[0].position,
{
    app.players[0].position
}

} // verus!
