use chordthingy::gesture::KeyPressState;
use chordthingy::keyboard::chord::Chord;
use chordthingy::keyboard::key_code::KeyCode;
use chordthingy::keyboard::KeyEvent;

#[test]
fn test_stuff() {
    let mut state = KeyPressState::default();

    assert_eq!(None, state.all_released());
    assert_eq!(None, state.none_released());
    state.press('a');
    assert_eq!(Some(true), state.none_released());
    assert_eq!(Some(false), state.all_released());
    state.press('b');
    assert_eq!(Some(true), state.none_released());
    assert_eq!(Some(false), state.all_released());
    state.release(&'b');
    assert_eq!(Some(false), state.none_released());
    assert_eq!(Some(false), state.all_released());
    state.release(&'a');
    assert_eq!(Some(false), state.none_released());
    assert_eq!(Some(true), state.all_released());
}

#[test]
fn clear_hands_out_the_keys_in_press_order() {
    let mut state = KeyPressState::default();
    state.press('c');
    state.press('a');
    state.press('b');
    state.release(&'a');
    assert_eq!(state.clear(), vec!['c', 'a', 'b']);
    assert_eq!(state.none_released(), None);
    assert_eq!(state.all_released(), None);
    assert_eq!(state.clear(), Vec::<char>::new());
    assert_eq!(state, KeyPressState::default());
}

#[test]
fn a_repeated_press_adds_no_entry() {
    let mut state = KeyPressState::default();
    state.press(7u32);
    state.press(7u32);
    state.press(7u32);
    state.release(&7u32);
    assert_eq!(state.all_released(), Some(true));
    assert_eq!(state.clear(), vec![7u32]);
}

#[test]
fn a_key_pressed_again_is_down_again() {
    let mut state = KeyPressState::default();
    state.press('a');
    state.press('b');
    state.release(&'a');
    assert_eq!(state.none_released(), Some(false));
    state.press('a');
    assert_eq!(state.none_released(), Some(true));
    assert_eq!(state.clear(), vec!['a', 'b']);
}

#[test]
fn releasing_an_untracked_key_changes_nothing() {
    let mut state = KeyPressState::default();
    state.release(&'x');
    assert_eq!(state.none_released(), None);
    assert_eq!(state.all_released(), None);
    state.press('a');
    state.release(&'x');
    assert_eq!(state.none_released(), Some(true));
    state.release(&'a');
    state.release(&'a');
    assert_eq!(state.all_released(), Some(true));
    assert_eq!(state.clear(), vec!['a']);
}

fn down(key: KeyCode) -> KeyEvent {
    KeyEvent::KeyDown(key)
}

fn up(key: KeyCode) -> KeyEvent {
    KeyEvent::KeyUp(key)
}

#[test]
fn a_gesture_ends_when_the_last_key_comes_up() {
    let mut state = KeyPressState::default();
    assert_eq!(state.handle_event(down(KeyCode::KEY_U)), None);
    assert_eq!(state.handle_event(down(KeyCode::KEY_F)), None);
    assert_eq!(state.handle_event(up(KeyCode::KEY_U)), None);
    assert_eq!(
        state.handle_event(up(KeyCode::KEY_F)),
        Some(Chord::from_string("fu"))
    );
    assert_eq!(state, KeyPressState::default());
}

#[test]
fn a_single_key_is_a_gesture_too() {
    let mut state = KeyPressState::default();
    assert_eq!(state.handle_event(down(KeyCode::KEY_A)), None);
    assert_eq!(
        state.handle_event(up(KeyCode::KEY_A)),
        Some(Chord::from_key_codes(vec![KeyCode::KEY_A]))
    );
    assert_eq!(state.handle_event(down(KeyCode::KEY_B)), None);
    assert_eq!(
        state.handle_event(up(KeyCode::KEY_B)),
        Some(Chord::from_key_codes(vec![KeyCode::KEY_B]))
    );
}

#[test]
fn a_key_going_down_late_discards_the_gesture() {
    let mut state = KeyPressState::default();
    assert_eq!(state.handle_event(down(KeyCode::KEY_A)), None);
    assert_eq!(state.handle_event(down(KeyCode::KEY_B)), None);
    assert_eq!(state.handle_event(up(KeyCode::KEY_A)), None);
    // One key has come up already: the gesture is dropped, and C with it.
    assert_eq!(state.handle_event(down(KeyCode::KEY_C)), None);
    assert_eq!(state, KeyPressState::default());
    // B and C come up without having been tracked.
    assert_eq!(state.handle_event(up(KeyCode::KEY_B)), None);
    assert_eq!(state.handle_event(up(KeyCode::KEY_C)), None);
    assert_eq!(state, KeyPressState::default());
    // The next gesture starts afresh.
    assert_eq!(state.handle_event(down(KeyCode::KEY_D)), None);
    assert_eq!(
        state.handle_event(up(KeyCode::KEY_D)),
        Some(Chord::from_string("d"))
    );
}

#[test]
fn a_key_held_down_repeats_without_harm() {
    let mut state = KeyPressState::default();
    for _ in 0..5 {
        assert_eq!(state.handle_event(down(KeyCode::KEY_A)), None);
    }
    assert_eq!(state.handle_event(down(KeyCode::KEY_B)), None);
    assert_eq!(state.handle_event(up(KeyCode::KEY_B)), None);
    assert_eq!(
        state.handle_event(up(KeyCode::KEY_A)),
        Some(Chord::from_string("ab"))
    );
}

#[test]
fn a_stray_key_up_is_ignored() {
    let mut state = KeyPressState::default();
    assert_eq!(state.handle_event(up(KeyCode::KEY_A)), None);
    assert_eq!(state, KeyPressState::default());
    assert_eq!(state.handle_event(down(KeyCode::KEY_A)), None);
    assert_eq!(state.handle_event(up(KeyCode::UNKNOWN)), None);
    assert_eq!(
        state.handle_event(up(KeyCode::KEY_A)),
        Some(Chord::from_string("a"))
    );
}
