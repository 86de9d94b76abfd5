use chordthingy::keyboard::chord::Chord;
use chordthingy::keyboard::key_code::KeyCode;
use chordthingy::keyboard::output_char::{output_chars_from_string, OutputChar};
use chordthingy::mappings::{ConfigError, Mappings};

fn entries(pairs: &[(&str, &str)]) -> Vec<(String, String)> {
    pairs.iter().map(|(pattern, replacement)| (pattern.to_string(), replacement.to_string())).collect()
}

#[test]
fn a_chord_is_found_whatever_the_order_of_its_pattern() {
    let mappings = Mappings::build(entries(&[("hst", "something"), ("ab<backspace>", "x")])).unwrap();
    let something = output_chars_from_string("something").unwrap();
    assert_eq!(mappings.lookup(&Chord::from_string("hst")), Some(&something));
    assert_eq!(mappings.lookup(&Chord::from_string("tsh")), Some(&something));
    assert_eq!(mappings.lookup(&Chord::from_string("sstthh")), Some(&something));
    assert_eq!(
        mappings.lookup(&Chord::from_key_codes(vec![
            KeyCode::KEY_BACKSPACE,
            KeyCode::KEY_B,
            KeyCode::KEY_A
        ])),
        Some(&vec![OutputChar { key: KeyCode::KEY_X, is_upper: false }])
    );
}

#[test]
fn a_chord_without_an_entry_is_not_found() {
    let mappings = Mappings::build(entries(&[("hst", "something")])).unwrap();
    assert_eq!(mappings.lookup(&Chord::from_string("hs")), None);
    assert_eq!(mappings.lookup(&Chord::from_string("hstx")), None);
    assert_eq!(mappings.lookup(&Chord::from_string("")), None);
    let empty = Mappings::build(vec![]).unwrap();
    assert_eq!(empty.lookup(&Chord::from_string("hst")), None);
}

#[test]
fn the_later_of_two_entries_for_a_chord_stands() {
    let mappings = Mappings::build(entries(&[("ab", "first"), ("cd", "other"), ("ba", "second")])).unwrap();
    assert_eq!(
        mappings.lookup(&Chord::from_string("ab")),
        Some(&output_chars_from_string("second").unwrap())
    );
    assert_eq!(
        mappings.lookup(&Chord::from_string("cd")),
        Some(&output_chars_from_string("other").unwrap())
    );
}

#[test]
fn an_empty_replacement_is_a_replacement() {
    let mappings = Mappings::build(entries(&[("ab", "")])).unwrap();
    assert_eq!(mappings.lookup(&Chord::from_string("ab")), Some(&vec![]));
}

#[test]
fn one_bad_replacement_fails_the_whole_list() {
    let built = Mappings::build(entries(&[("ab", "fine"), ("cd", "not fine!"), ("ef", "né")]));
    assert_eq!(
        built.err(),
        Some(ConfigError::UnsupportedCharacter { entry: 1, character: '!' })
    );
    let built = Mappings::build(entries(&[("ab", "<bs>")]));
    assert_eq!(
        built.err(),
        Some(ConfigError::UnsupportedCharacter { entry: 0, character: '<' })
    );
}

#[test]
fn a_pattern_may_hold_anything() {
    let mappings = Mappings::build(entries(&[("Ok", "OK"), ("é!", "x")])).unwrap();
    assert_eq!(
        mappings.lookup(&Chord::from_key_codes(vec![KeyCode::KEY_K, KeyCode::KEY_O])),
        Some(&output_chars_from_string("OK").unwrap())
    );
    // Neither character is the text form of a key.
    assert_eq!(
        mappings.lookup(&Chord::from_key_codes(vec![KeyCode::UNKNOWN])),
        Some(&output_chars_from_string("x").unwrap())
    );
}
