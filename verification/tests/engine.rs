use chordthingy::engine::App;
use chordthingy::keyboard::chord::Chord;
use chordthingy::keyboard::key_code::KeyCode;
use chordthingy::keyboard::KeyEvent;
use chordthingy::mappings::Mappings;

fn app(pairs: &[(&str, &str)]) -> App {
    let entries = pairs.iter().map(|(pattern, replacement)| (pattern.to_string(), replacement.to_string())).collect();
    App::new(Mappings::build(entries).unwrap())
}

fn down(key: KeyCode) -> KeyEvent {
    KeyEvent::KeyDown(key)
}

fn up(key: KeyCode) -> KeyEvent {
    KeyEvent::KeyUp(key)
}

fn tap(key: KeyCode) -> Vec<KeyEvent> {
    vec![down(key), up(key)]
}

#[test]
fn a_mapped_chord_is_erased_and_replaced() {
    let mut app = app(&[("fuk", "fuck")]);
    let typed = [
        down(KeyCode::KEY_F),
        down(KeyCode::KEY_U),
        down(KeyCode::KEY_K),
        up(KeyCode::KEY_F),
        up(KeyCode::KEY_U),
        up(KeyCode::KEY_K),
    ];
    let mut expected = Vec::new();
    for _ in 0..3 {
        expected.extend(tap(KeyCode::KEY_BACKSPACE));
    }
    for key in [KeyCode::KEY_F, KeyCode::KEY_U, KeyCode::KEY_C, KeyCode::KEY_K] {
        expected.extend(tap(key));
    }
    assert_eq!(expected.len(), 14);
    assert_eq!(app.run(&typed), expected);
}

#[test]
fn nothing_is_sent_before_the_last_key_comes_up() {
    let mut app = app(&[("fuk", "fuck")]);
    for event in [
        down(KeyCode::KEY_F),
        down(KeyCode::KEY_U),
        down(KeyCode::KEY_K),
        up(KeyCode::KEY_F),
        up(KeyCode::KEY_U),
    ] {
        assert_eq!(app.handle_event(event), vec![]);
    }
    assert_eq!(app.handle_event(up(KeyCode::KEY_K)).len(), 14);
}

#[test]
fn uppercase_replacements_are_written_with_shift() {
    let mut app = app(&[("Ok", "OK")]);
    let sent = app.run(&[
        down(KeyCode::KEY_O),
        down(KeyCode::KEY_K),
        up(KeyCode::KEY_K),
        up(KeyCode::KEY_O),
    ]);
    assert_eq!(
        sent,
        vec![
            down(KeyCode::KEY_BACKSPACE),
            up(KeyCode::KEY_BACKSPACE),
            down(KeyCode::KEY_BACKSPACE),
            up(KeyCode::KEY_BACKSPACE),
            down(KeyCode::KEY_LEFTSHIFT),
            down(KeyCode::KEY_O),
            up(KeyCode::KEY_O),
            up(KeyCode::KEY_LEFTSHIFT),
            down(KeyCode::KEY_LEFTSHIFT),
            down(KeyCode::KEY_K),
            up(KeyCode::KEY_K),
            up(KeyCode::KEY_LEFTSHIFT),
        ]
    );
}

#[test]
fn mixed_case_replacements_shift_the_uppercase_only() {
    let app = app(&[("ab", "Hi 5")]);
    let mut expected = Vec::new();
    expected.extend(tap(KeyCode::KEY_BACKSPACE));
    expected.extend(tap(KeyCode::KEY_BACKSPACE));
    expected.push(down(KeyCode::KEY_LEFTSHIFT));
    expected.extend(tap(KeyCode::KEY_H));
    expected.push(up(KeyCode::KEY_LEFTSHIFT));
    expected.extend(tap(KeyCode::KEY_I));
    expected.extend(tap(KeyCode::KEY_SPACE));
    expected.extend(tap(KeyCode::KEY_5));
    assert_eq!(app.handle_keypress(&Chord::from_string("ba")), expected);
}

#[test]
fn an_unmapped_chord_sends_nothing() {
    let mut app = app(&[("fuk", "fuck")]);
    assert_eq!(app.handle_keypress(&Chord::from_string("fu")), vec![]);
    assert_eq!(app.handle_keypress(&Chord::from_string("")), vec![]);
    let sent = app.run(&[
        down(KeyCode::KEY_F),
        down(KeyCode::KEY_U),
        up(KeyCode::KEY_F),
        up(KeyCode::KEY_U),
    ]);
    assert_eq!(sent, vec![]);
}

#[test]
fn control_keys_are_not_erased() {
    let app = app(&[("<leftctrl>ab", "x"), ("<f1>", "hi")]);
    let mut expected = Vec::new();
    expected.extend(tap(KeyCode::KEY_BACKSPACE));
    expected.extend(tap(KeyCode::KEY_BACKSPACE));
    expected.extend(tap(KeyCode::KEY_X));
    assert_eq!(app.handle_keypress(&Chord::from_string("ab<leftctrl>")), expected);
    let mut expected = Vec::new();
    expected.extend(tap(KeyCode::KEY_H));
    expected.extend(tap(KeyCode::KEY_I));
    assert_eq!(app.handle_keypress(&Chord::from_string("<f1>")), expected);
}

#[test]
fn gestures_follow_one_another() {
    let mut app = app(&[("ab", "x"), ("c", "y")]);
    let sent = app.run(&[
        down(KeyCode::KEY_B),
        down(KeyCode::KEY_A),
        up(KeyCode::KEY_A),
        up(KeyCode::KEY_B),
        down(KeyCode::KEY_D),
        up(KeyCode::KEY_D),
        down(KeyCode::KEY_C),
        up(KeyCode::KEY_C),
    ]);
    let mut expected = Vec::new();
    expected.extend(tap(KeyCode::KEY_BACKSPACE));
    expected.extend(tap(KeyCode::KEY_BACKSPACE));
    expected.extend(tap(KeyCode::KEY_X));
    expected.extend(tap(KeyCode::KEY_BACKSPACE));
    expected.extend(tap(KeyCode::KEY_Y));
    assert_eq!(sent, expected);
}

#[test]
fn a_misfire_sends_nothing() {
    let mut app = app(&[("ab", "x"), ("abc", "y"), ("c", "z")]);
    let sent = app.run(&[
        down(KeyCode::KEY_A),
        down(KeyCode::KEY_B),
        up(KeyCode::KEY_A),
        down(KeyCode::KEY_C),
        up(KeyCode::KEY_B),
        up(KeyCode::KEY_C),
    ]);
    assert_eq!(sent, vec![]);
    assert_eq!(app.run(&[]), vec![]);
}

#[test]
fn run_picks_up_where_it_left_off() {
    let mut app = app(&[("ab", "x")]);
    assert_eq!(app.run(&[down(KeyCode::KEY_A), down(KeyCode::KEY_B)]), vec![]);
    assert_eq!(app.run(&[up(KeyCode::KEY_B)]), vec![]);
    assert_eq!(app.run(&[up(KeyCode::KEY_A)]).len(), 6);
}
