use bevy::input::keyboard::KeyCode;
use bevy::input::Input;
use blocky_material::{on_key_event, requested_mode, select_mode, Key, SamplingMode};

const ALL_KEYS: [Key; 10] = [
    Key::Key1,
    Key::Key2,
    Key::Key3,
    Key::Key4,
    Key::Key5,
    Key::Key6,
    Key::Key7,
    Key::Key8,
    Key::Key9,
    Key::Key0,
];

#[test]
fn each_bound_key_asks_for_its_mode() {
    assert_eq!(on_key_event(Key::Key1, true), Some(SamplingMode::Linear));
    assert_eq!(on_key_event(Key::Key2, true), Some(SamplingMode::Nearest));
    assert_eq!(on_key_event(Key::Key3, true), Some(SamplingMode::AntialiasedBlocky));
}

#[test]
fn the_three_bound_keys_ask_for_three_different_modes() {
    let one = on_key_event(Key::Key1, true);
    let two = on_key_event(Key::Key2, true);
    let three = on_key_event(Key::Key3, true);
    assert_ne!(one, two);
    assert_ne!(one, three);
    assert_ne!(two, three);
}

#[test]
fn other_keys_ask_for_nothing() {
    for key in [Key::Key4, Key::Key5, Key::Key6, Key::Key7, Key::Key8, Key::Key9, Key::Key0] {
        assert_eq!(on_key_event(key, true), None);
        assert_eq!(on_key_event(key, false), None);
    }
}

#[test]
fn a_held_key_asks_for_nothing() {
    for key in ALL_KEYS {
        assert_eq!(on_key_event(key, false), None);
    }
}

#[test]
fn select_mode_lets_the_last_pressed_key_decide() {
    assert_eq!(select_mode(false, false, false), None);
    assert_eq!(select_mode(true, false, false), Some(SamplingMode::Linear));
    assert_eq!(select_mode(false, true, false), Some(SamplingMode::Nearest));
    assert_eq!(select_mode(true, true, false), Some(SamplingMode::Nearest));
    assert_eq!(select_mode(false, false, true), Some(SamplingMode::AntialiasedBlocky));
    assert_eq!(select_mode(true, false, true), Some(SamplingMode::AntialiasedBlocky));
    assert_eq!(select_mode(false, true, true), Some(SamplingMode::AntialiasedBlocky));
    assert_eq!(select_mode(true, true, true), Some(SamplingMode::AntialiasedBlocky));
}

#[test]
fn an_untouched_keyboard_requests_nothing() {
    let keys: Input<KeyCode> = Input::default();
    assert_eq!(requested_mode(&keys), None);
}

#[test]
fn pressing_one_bound_key_requests_its_mode() {
    let mut keys: Input<KeyCode> = Input::default();
    keys.press(KeyCode::Key1);
    assert_eq!(requested_mode(&keys), Some(SamplingMode::Linear));

    let mut keys: Input<KeyCode> = Input::default();
    keys.press(KeyCode::Key2);
    assert_eq!(requested_mode(&keys), Some(SamplingMode::Nearest));

    let mut keys: Input<KeyCode> = Input::default();
    keys.press(KeyCode::Key3);
    assert_eq!(requested_mode(&keys), Some(SamplingMode::AntialiasedBlocky));
}

#[test]
fn pressing_unbound_keys_requests_nothing() {
    let mut keys: Input<KeyCode> = Input::default();
    keys.press(KeyCode::Key4);
    keys.press(KeyCode::Key0);
    keys.press(KeyCode::A);
    keys.press(KeyCode::Space);
    keys.press(KeyCode::Numpad1);
    assert_eq!(requested_mode(&keys), None);
}

#[test]
fn of_several_keys_pressed_at_once_the_highest_decides() {
    let mut keys: Input<KeyCode> = Input::default();
    keys.press(KeyCode::Key3);
    keys.press(KeyCode::Key1);
    assert_eq!(requested_mode(&keys), Some(SamplingMode::AntialiasedBlocky));

    let mut keys: Input<KeyCode> = Input::default();
    keys.press(KeyCode::Key2);
    keys.press(KeyCode::Key1);
    assert_eq!(requested_mode(&keys), Some(SamplingMode::Nearest));

    let mut keys: Input<KeyCode> = Input::default();
    keys.press(KeyCode::Key1);
    keys.press(KeyCode::Key2);
    keys.press(KeyCode::Key3);
    assert_eq!(requested_mode(&keys), Some(SamplingMode::AntialiasedBlocky));
}

#[test]
fn a_key_that_stays_down_requests_its_mode_once() {
    let mut keys: Input<KeyCode> = Input::default();
    keys.press(KeyCode::Key2);
    assert_eq!(requested_mode(&keys), Some(SamplingMode::Nearest));

    // The next frames begin while the key is still down, and the keyboard
    // goes on signalling it.
    keys.clear();
    keys.press(KeyCode::Key2);
    assert!(keys.pressed(KeyCode::Key2));
    assert_eq!(requested_mode(&keys), None);
    keys.clear();
    keys.press(KeyCode::Key2);
    assert_eq!(requested_mode(&keys), None);
}

#[test]
fn a_key_pressed_again_after_its_release_requests_again() {
    let mut keys: Input<KeyCode> = Input::default();
    keys.press(KeyCode::Key1);
    assert_eq!(requested_mode(&keys), Some(SamplingMode::Linear));
    keys.clear();
    keys.release(KeyCode::Key1);
    assert_eq!(requested_mode(&keys), None);
    keys.clear();
    keys.press(KeyCode::Key1);
    assert_eq!(requested_mode(&keys), Some(SamplingMode::Linear));
}

#[test]
fn a_held_key_does_not_hide_a_fresh_press_of_another() {
    let mut keys: Input<KeyCode> = Input::default();
    keys.press(KeyCode::Key3);
    keys.clear();
    keys.press(KeyCode::Key1);
    assert_eq!(requested_mode(&keys), Some(SamplingMode::Linear));
}
