use grisui::key_state::KeyState;

#[test]
fn key_state_is_down_and_up() {
    assert!(KeyState::Down.is_down());
    assert!(!KeyState::Down.is_up());
    assert!(KeyState::Up.is_up());
    assert!(!KeyState::Up.is_down());
}

#[test]
fn key_state_not_flips() {
    assert_eq!(!KeyState::Down, KeyState::Up);
    assert_eq!(!KeyState::Up, KeyState::Down);
    assert_eq!(!!KeyState::Down, KeyState::Down);
}

#[test]
fn key_state_default_is_up() {
    assert_eq!(KeyState::default(), KeyState::Up);
}
