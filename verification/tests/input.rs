use bbmicro::input::{
    button_for_key, Button, InputState, PlayerInput, KEY_A, KEY_B, KEY_DOWN, KEY_LEFT, KEY_RIGHT,
    KEY_UP,
};

const BUTTONS: [Button; 6] =
    [Button::LEFT, Button::RIGHT, Button::UP, Button::DOWN, Button::A, Button::B];

#[test]
fn new_input_state_is_idle() {
    let s = InputState::new();
    for b in BUTTONS {
        assert!(!s.down(b));
        assert!(!s.pressed(b));
    }
    assert_eq!(
        s,
        InputState {
            left_down: false,
            left_pressed: false,
            right_down: false,
            right_pressed: false,
            up_down: false,
            up_pressed: false,
            down_down: false,
            down_pressed: false,
            a_down: false,
            a_pressed: false,
            b_down: false,
            b_pressed: false,
        }
    );
}

#[test]
fn new_player_input_holds_nothing() {
    let p = PlayerInput::new();
    assert_eq!(
        p,
        PlayerInput { up: false, down: false, left: false, right: false, space: false }
    );
}

#[test]
fn key_codes_are_those_of_the_keyboard_layer() {
    assert_eq!(KEY_A, 97);
    assert_eq!(KEY_B, 98);
    assert_eq!(KEY_RIGHT, 0x4000_004F);
    assert_eq!(KEY_LEFT, 0x4000_0050);
    assert_eq!(KEY_DOWN, 0x4000_0051);
    assert_eq!(KEY_UP, 0x4000_0052);
}

#[test]
fn binding_table() {
    assert_eq!(button_for_key(KEY_UP), Some(Button::UP));
    assert_eq!(button_for_key(KEY_DOWN), Some(Button::DOWN));
    assert_eq!(button_for_key(KEY_LEFT), Some(Button::LEFT));
    assert_eq!(button_for_key(KEY_RIGHT), Some(Button::RIGHT));
    assert_eq!(button_for_key(KEY_A), Some(Button::A));
    assert_eq!(button_for_key(KEY_B), Some(Button::B));
}

#[test]
fn unbound_keys_have_no_button() {
    for key in [0, 32, 99, 100, 27, -1, i32::MIN, i32::MAX, KEY_RIGHT - 1, KEY_UP + 1] {
        assert_eq!(button_for_key(key), None, "key {}", key);
    }
}

#[test]
fn press_and_hold_touch_one_flag() {
    let mut s = InputState::new();
    s.press(Button::A);
    assert!(s.a_pressed);
    assert!(!s.a_down);
    s.hold(Button::UP);
    assert!(s.up_down);
    assert!(!s.up_pressed);
    assert_eq!(
        s,
        InputState { a_pressed: true, up_down: true, ..InputState::new() }
    );
}

#[test]
fn key_down_and_held_is_pressed_and_down() {
    let s = InputState::sample(&[KEY_LEFT], &[KEY_LEFT]);
    assert!(s.pressed(Button::LEFT));
    assert!(s.down(Button::LEFT));
    for b in [Button::RIGHT, Button::UP, Button::DOWN, Button::A, Button::B] {
        assert!(!s.pressed(b));
        assert!(!s.down(b));
    }
}

#[test]
fn held_without_key_down_is_down_only() {
    let s = InputState::sample(&[], &[KEY_B]);
    assert!(!s.pressed(Button::B));
    assert!(s.down(Button::B));
}

#[test]
fn nothing_held_nothing_pressed() {
    let s = InputState::sample(&[], &[]);
    assert_eq!(s, InputState::new());
}

#[test]
fn left_held_for_three_frames_is_pressed_on_the_first_only() {
    let frames: [(&[i32], &[i32]); 4] =
        [(&[KEY_LEFT], &[KEY_LEFT]), (&[], &[KEY_LEFT]), (&[], &[KEY_LEFT]), (&[], &[])];
    let states: Vec<InputState> =
        frames.iter().map(|(downs, held)| InputState::sample(downs, held)).collect();
    assert!(states[0].pressed(Button::LEFT));
    assert!(!states[1].pressed(Button::LEFT));
    assert!(!states[2].pressed(Button::LEFT));
    assert!(states[0].down(Button::LEFT));
    assert!(states[1].down(Button::LEFT));
    assert!(states[2].down(Button::LEFT));
    assert!(!states[3].pressed(Button::LEFT));
    assert!(!states[3].down(Button::LEFT));
}

#[test]
fn released_and_pressed_again_within_a_frame_is_pressed() {
    let s = InputState::sample(&[KEY_A], &[KEY_A]);
    assert!(s.pressed(Button::A));
    assert!(s.down(Button::A));
}

#[test]
fn tapped_within_a_frame_is_pressed_but_not_down() {
    let s = InputState::sample(&[KEY_UP], &[]);
    assert!(s.pressed(Button::UP));
    assert!(!s.down(Button::UP));
}

#[test]
fn unbound_keys_are_passed_over() {
    let s = InputState::sample(&[32, 27, KEY_DOWN, 100], &[100, 32]);
    assert_eq!(s, InputState { down_pressed: true, ..InputState::new() });
}

#[test]
fn all_six_buttons_at_once() {
    let keys = [KEY_UP, KEY_DOWN, KEY_LEFT, KEY_RIGHT, KEY_A, KEY_B];
    let s = InputState::sample(&keys, &keys);
    for b in BUTTONS {
        assert!(s.pressed(b));
        assert!(s.down(b));
    }
}

#[test]
fn a_key_listed_twice_counts_once() {
    let s = InputState::sample(&[KEY_RIGHT, KEY_RIGHT], &[KEY_RIGHT, KEY_RIGHT]);
    assert_eq!(
        s,
        InputState { right_pressed: true, right_down: true, ..InputState::new() }
    );
}
