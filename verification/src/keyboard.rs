//! Reading the bound keys from bevy's keyboard input.

use bevy::input::keyboard::KeyCode;
use bevy::input::Input;
use crate::keys::{requested, select_mode, Key};
use crate::mode::SamplingMode;
use std::hash::Hash;
use vstd::prelude::*;

verus! {

/// bevy's `KeyCode`, the identifier of a key on the keyboard. It is named
/// only as the parameter of the keyboard's input type; no contract speaks of
/// a key code.
#[verifier::external_type_specification]
#[verifier::external_body]
pub struct ExKeyCode(KeyCode);

/// bevy's `Input<T>`: the inputs that are pressed, together with those that
/// were pressed, and those that were released, since the frame began. What is
/// said of one here goes through `just_pressed_keys`.
#[verifier::external_type_specification]
#[verifier::external_body]
#[verifier::reject_recursive_types(T)]
pub struct ExInput<T: Eq + Hash>(Input<T>);

/// The number keys that a keyboard input holds as just pressed: those for
/// whose key code `Input::just_pressed` answers true.
pub uninterp spec fn just_pressed_keys(keys: Input<KeyCode>) -> Set<Key>;

/// Asks bevy's `Input::just_pressed` about the key code of a number key.
///
/// Believed, not proved: the call looks the key code up in the input's set of
/// just pressed inputs, so its answer depends on what the input holds and on
/// the key alone, and the input is left as it was.
#[verifier::external_body]
fn just_pressed(keys: &Input<KeyCode>, key: Key) -> (pressed: bool)
    ensures
        pressed == just_pressed_keys(*keys).contains(key),
{
    keys.just_pressed(match key {
        Key::Key1 => KeyCode::Key1,
        Key::Key2 => KeyCode::Key2,
        Key::Key3 => KeyCode::Key3,
        Key::Key4 => KeyCode::Key4,
        Key::Key5 => KeyCode::Key5,
        Key::Key6 => KeyCode::Key6,
        Key::Key7 => KeyCode::Key7,
        Key::Key8 => KeyCode::Key8,
        Key::Key9 => KeyCode::Key9,
        Key::Key0 => KeyCode::Key0,
    })
}

/// Reads the three bound keys from a keyboard input and decides the mode that
/// this cycle asks for, if it asks for one.
pub fn requested_mode(keys: &Input<KeyCode>) -> (mode: Option<SamplingMode>)
    ensures
        mode == requested(just_pressed_keys(*keys)),
{
    let key1 = just_pressed(keys, Key::Key1);
    let key2 = just_pressed(keys, Key::Key2);
    let key3 = just_pressed(keys, Key::Key3);
    select_mode(key1, key2, key3)
}

} // verus!
