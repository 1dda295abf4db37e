//! The number keys, the modes they are bound to, and what a key event asks for.

use crate::mode::SamplingMode;
use vstd::prelude::*;

verus! {

/// A key of the number row above the letters.
#[derive(Clone, Copy, Debug, PartialEq, Eq, Structural)]
pub enum Key {
    Key1,
    Key2,
    Key3,
    Key4,
    Key5,
    Key6,
    Key7,
    Key8,
    Key9,
    Key0,
}

/// The mode that a key is bound to. Only `1`, `2` and `3` are bound.
pub open spec fn binding(key: Key) -> Option<SamplingMode> {
    match key {
        Key::Key1 => Some(SamplingMode::Linear),
        Key::Key2 => Some(SamplingMode::Nearest),
        Key::Key3 => Some(SamplingMode::AntialiasedBlocky),
        _ => None,
    }
}

/// The mode that is asked for when the three bound keys are, or are not, just
/// pressed. The keys are looked at in the order `1`, `2`, `3`, and a later one
/// overrides an earlier one.
pub open spec fn selected(key1: bool, key2: bool, key3: bool) -> Option<SamplingMode> {
    if key3 {
        binding(Key::Key3)
    } else if key2 {
        binding(Key::Key2)
    } else if key1 {
        binding(Key::Key1)
    } else {
        None
    }
}

/// The mode that a set of just pressed keys asks for.
pub open spec fn requested(pressed: Set<Key>) -> Option<SamplingMode> {
    selected(pressed.contains(Key::Key1), pressed.contains(Key::Key2), pressed.contains(Key::Key3))
}

/// The bindings pair the three modes with three keys one to one: two keys
/// that are bound to the same mode are the same key, and every mode has a key.
pub proof fn binding_is_one_to_one(a: Key, b: Key, mode: SamplingMode)
    ensures
        binding(a) is Some && binding(a) == binding(b) ==> a == b,
        exists|key: Key| binding(key) == Some(mode),
{
    assert(binding(Key::Key1) == Some(SamplingMode::Linear));
    assert(binding(Key::Key2) == Some(SamplingMode::Nearest));
    assert(binding(Key::Key3) == Some(SamplingMode::AntialiasedBlocky));
}

/// Answers one key event. `just_pressed` says whether the event is the moment
/// the key went down; it is false for every further signal of a key that is
/// held. A mode comes back only for a bound key, and only when it was just
/// pressed.
pub fn on_key_event(key: Key, just_pressed: bool) -> (mode: Option<SamplingMode>)
    ensures
        mode == if just_pressed { binding(key) } else { None },
{
    if !just_pressed {
        return None;
    }
    match key {
        Key::Key1 => Some(SamplingMode::Linear),
        Key::Key2 => Some(SamplingMode::Nearest),
        Key::Key3 => Some(SamplingMode::AntialiasedBlocky),
        _ => None,
    }
}

/// Decides the mode for one update cycle from the state of the three bound
/// keys. When several were just pressed at once, the last in the order `1`,
/// `2`, `3` decides.
pub fn select_mode(key1: bool, key2: bool, key3: bool) -> (mode: Option<SamplingMode>)
    ensures
        mode == selected(key1, key2, key3),
{
    let mut new_mode = None;
    if let Some(mode) = on_key_event(Key::Key1, key1) {
        new_mode = Some(mode);
    }
    if let Some(mode) = on_key_event(Key::Key2, key2) {
        new_mode = Some(mode);
    }
    if let Some(mode) = on_key_event(Key::Key3, key3) {
        new_mode = Some(mode);
    }
    new_mode
}

} // verus!
