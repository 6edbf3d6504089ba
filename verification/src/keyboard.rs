//! The keyboard of the engine, `bevy::input::ButtonInput<KeyCode>`, as far
//! as the game reads it.
//!
//! The engine keeps the set of keys that are down and the set of keys that
//! have gone down since the edges were last cleared. Nothing in this file
//! is proved: each contract restates what the method of `ButtonInput` that
//! it names does to those two sets.

use bevy::input::keyboard::KeyCode;
use bevy::input::ButtonInput;
use core::hash::Hash;
use vstd::prelude::*;

verus! {

/// The keys this game knows by name. Each stands for the key code of the
/// engine with the same name.
#[derive(Clone, Copy, Debug, PartialEq, Eq, Structural)]
pub enum Key {
    ArrowLeft,
    ArrowRight,
    Space,
}

/// `bevy::input::keyboard::KeyCode`, a key of the keyboard. Nothing is
/// known of its values.
#[verifier::external_type_specification]
#[verifier::external_body]
pub struct ExKeyCode(KeyCode);

/// `bevy::input::ButtonInput`, the state of a set of buttons. What is known
/// of a keyboard is what `pressed_keys` and `just_pressed_keys` name.
#[verifier::external_type_specification]
#[verifier::external_body]
#[verifier::reject_recursive_types(T)]
pub struct ExButtonInput<T: Copy + Eq + Hash + Send + Sync + 'static>(ButtonInput<T>);

/// The named keys whose key codes `input` holds as down: those for which
/// `ButtonInput::pressed` answers yes.
pub uninterp spec fn pressed_keys(input: ButtonInput<KeyCode>) -> Set<Key>;

/// The named keys whose key codes `input` holds as gone down since its
/// edges were last cleared: those for which `ButtonInput::just_pressed`
/// answers yes.
pub uninterp spec fn just_pressed_keys(input: ButtonInput<KeyCode>) -> Set<Key>;

/// What the game knows of a keyboard: which named keys are down, and which
/// of them have just gone down.
pub struct KeyboardState {
    pub pressed: Set<Key>,
    pub just_pressed: Set<Key>,
}

impl KeyboardState {
    /// The state that `input` is in.
    pub open spec fn of(input: ButtonInput<KeyCode>) -> KeyboardState {
        KeyboardState { pressed: pressed_keys(input), just_pressed: just_pressed_keys(input) }
    }

    /// No key is down and none has just gone down.
    pub open spec fn idle() -> KeyboardState {
        KeyboardState { pressed: Set::empty(), just_pressed: Set::empty() }
    }

    /// `key` goes down. Only a key that was up has then just gone down.
    pub open spec fn press(self, key: Key) -> KeyboardState {
        KeyboardState {
            pressed: self.pressed.insert(key),
            just_pressed: if self.pressed.contains(key) {
                self.just_pressed
            } else {
                self.just_pressed.insert(key)
            },
        }
    }

    /// `key` goes up.
    pub open spec fn release(self, key: Key) -> KeyboardState {
        KeyboardState { pressed: self.pressed.remove(key), just_pressed: self.just_pressed }
    }

    /// A frame ends: no key has just gone down any more.
    pub open spec fn clear(self) -> KeyboardState {
        KeyboardState { pressed: self.pressed, just_pressed: Set::empty() }
    }
}

/// `ButtonInput::default` makes a keyboard on which no key is down and none
/// has just gone down.
#[verifier::external_body]
pub(crate) fn new_input() -> (input: ButtonInput<KeyCode>)
    ensures
        pressed_keys(input) == Set::<Key>::empty(),
        just_pressed_keys(input) == Set::<Key>::empty(),
{
    ButtonInput::default()
}

/// `ButtonInput::just_pressed` tells whether the key code of `key` is among
/// those that have just gone down.
#[verifier::external_body]
pub(crate) fn just_pressed(input: &ButtonInput<KeyCode>, key: Key) -> (hit: bool)
    ensures
        hit == just_pressed_keys(*input).contains(key),
{
    input.just_pressed(
        match key {
            Key::ArrowLeft => KeyCode::ArrowLeft,
            Key::ArrowRight => KeyCode::ArrowRight,
            Key::Space => KeyCode::Space,
        },
    )
}

/// `ButtonInput::press` puts the key code of `key` among those that are
/// down and, unless it was there already, among those that have just gone
/// down. No other key is touched.
#[verifier::external_body]
pub(crate) fn press(input: &mut ButtonInput<KeyCode>, key: Key)
    ensures
        pressed_keys(*final(input)) == pressed_keys(*old(input)).insert(key),
        just_pressed_keys(*final(input)) == if pressed_keys(*old(input)).contains(key) {
            just_pressed_keys(*old(input))
        } else {
            just_pressed_keys(*old(input)).insert(key)
        },
{
    input.press(
        match key {
            Key::ArrowLeft => KeyCode::ArrowLeft,
            Key::ArrowRight => KeyCode::ArrowRight,
            Key::Space => KeyCode::Space,
        },
    )
}

/// `ButtonInput::release` takes the key code of `key` from those that are
/// down. The keys that have just gone down stay as they are.
#[verifier::external_body]
pub(crate) fn release(input: &mut ButtonInput<KeyCode>, key: Key)
    ensures
        pressed_keys(*final(input)) == pressed_keys(*old(input)).remove(key),
        just_pressed_keys(*final(input)) == just_pressed_keys(*old(input)),
{
    input.release(
        match key {
            Key::ArrowLeft => KeyCode::ArrowLeft,
            Key::ArrowRight => KeyCode::ArrowRight,
            Key::Space => KeyCode::Space,
        },
    )
}

/// `ButtonInput::clear` empties the set of keys that have just gone down.
/// The keys that are down stay down.
#[verifier::external_body]
pub(crate) fn clear(input: &mut ButtonInput<KeyCode>)
    ensures
        pressed_keys(*final(input)) == pressed_keys(*old(input)),
        just_pressed_keys(*final(input)) == Set::<Key>::empty(),
{
    input.clear()
}

} // verus!
