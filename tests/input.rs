use chip8::input::{InputState, WaitState};

#[test]
fn keys_go_down_and_up() {
    let mut i = InputState::new();
    assert!(!i.is_key_pressed(5));
    i.handle_key_press(5);
    assert!(i.is_key_pressed(5));
    i.handle_key_release(5);
    assert!(!i.is_key_pressed(5));
}

#[test]
fn out_of_pad_codes_are_ignored() {
    let mut i = InputState::new();
    i.handle_key_press(16);
    assert!(!i.is_key_pressed(16));
    assert!(!i.is_waiting_for_key());
}

#[test]
fn wait_resolves_after_release() {
    let mut i = InputState::new();
    assert_eq!(i.wait_for_key(), None);
    assert!(i.is_waiting_for_key());
    assert_eq!(i.wait_for_key(), None);
    i.handle_key_press(0xB);
    assert_eq!(i.wait_for_key(), None);
    i.handle_key_press(0x3);
    i.handle_key_release(0x3);
    assert_eq!(i.wait_for_key(), None);
    i.handle_key_release(0xB);
    assert_eq!(i.wait_for_key(), Some(0xB));
    assert!(!i.is_waiting_for_key());
}

#[test]
fn key_held_before_the_wait_is_not_captured() {
    let mut i = InputState::new();
    i.handle_key_press(4);
    assert_eq!(i.wait_for_key(), None);
    i.handle_key_release(4);
    assert_eq!(i.wait_for_key(), None);
    assert!(i.is_waiting_for_key());
}

#[test]
fn wait_states_compare() {
    assert_eq!(WaitState::AwaitingRelease { key: 1 }, WaitState::AwaitingRelease { key: 1 });
    assert_ne!(WaitState::Idle, WaitState::AwaitingPress);
}
