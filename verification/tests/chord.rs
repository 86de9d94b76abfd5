use chordthingy::keyboard::chord::{tokenize, Chord};
use chordthingy::keyboard::key_code::KeyCode;
use regex::Regex;

fn keys_of(text: &str) -> Vec<KeyCode> {
    Chord::from_string(text).keys().clone()
}

fn chord_of(keys: &[KeyCode]) -> Vec<KeyCode> {
    Chord::from_key_codes(keys.to_vec()).keys().clone()
}

#[test]
fn chord_test_new_chord() {
    assert_eq!(keys_of("<backspace>"), vec![KeyCode::KEY_BACKSPACE]);
    assert_eq!(keys_of("a"), vec![KeyCode::KEY_A]);
    assert_eq!(
        keys_of("aa<backspace>a"),
        vec![KeyCode::KEY_A, KeyCode::KEY_BACKSPACE]
    );
    assert_eq!(
        keys_of("a b"),
        vec![KeyCode::KEY_A, KeyCode::KEY_B, KeyCode::KEY_SPACE]
    );
}

#[test]
fn text_and_keys_make_the_same_chord() {
    assert_eq!(
        Chord::from_string("<backspace>"),
        Chord::from_key_codes(vec![KeyCode::KEY_BACKSPACE])
    );
    assert_eq!(
        Chord::from_string("fuk"),
        Chord::from_key_codes(vec![KeyCode::KEY_K, KeyCode::KEY_U, KeyCode::KEY_F])
    );
}

#[test]
fn repeated_tokens_count_once() {
    assert_eq!(
        Chord::from_string("aa<backspace>a"),
        Chord::from_string("a<backspace>")
    );
}

#[test]
fn len_counts_the_keys_that_type() {
    // The space bar types a character as the letters do.
    assert_eq!(Chord::from_string("a b").len(), 3);
    assert_eq!(Chord::from_string("ab").len(), 2);
    assert_eq!(Chord::from_string("a<backspace>").len(), 1);
    assert_eq!(Chord::from_string("<leftshift><f1>").len(), 0);
    assert_eq!(Chord::from_string("").len(), 0);
    assert_eq!(Chord::from_string("hst").len(), 3);
    // A token that is no key stands for UNKNOWN, a control key.
    assert_eq!(Chord::from_string("a!").len(), 1);
}

#[test]
fn keys_come_out_in_key_order() {
    assert_eq!(
        chord_of(&[KeyCode::KEY_B, KeyCode::KEY_A]),
        vec![KeyCode::KEY_A, KeyCode::KEY_B]
    );
    assert_eq!(
        chord_of(&[
            KeyCode::UNKNOWN,
            KeyCode::KEY_SPACE,
            KeyCode::KEY_Z,
            KeyCode::KEY_F1,
            KeyCode::KEY_0
        ]),
        vec![
            KeyCode::KEY_0,
            KeyCode::KEY_Z,
            KeyCode::KEY_F1,
            KeyCode::KEY_SPACE,
            KeyCode::UNKNOWN
        ]
    );
}

#[test]
fn repeated_keys_count_once() {
    assert_eq!(chord_of(&[KeyCode::KEY_A, KeyCode::KEY_A]), vec![KeyCode::KEY_A]);
    assert_eq!(
        chord_of(&[
            KeyCode::KEY_C,
            KeyCode::KEY_A,
            KeyCode::KEY_C,
            KeyCode::KEY_B,
            KeyCode::KEY_A,
            KeyCode::KEY_C
        ]),
        chord_of(&[KeyCode::KEY_A, KeyCode::KEY_B, KeyCode::KEY_C])
    );
}

#[test]
fn every_order_makes_the_same_chord() {
    let keys = [KeyCode::KEY_F, KeyCode::KEY_U, KeyCode::KEY_K];
    let orders = [[0, 1, 2], [0, 2, 1], [1, 0, 2], [1, 2, 0], [2, 0, 1], [2, 1, 0]];
    let first = Chord::from_key_codes(keys.to_vec());
    for order in orders {
        let rearranged: Vec<KeyCode> = order.iter().map(|&i| keys[i]).collect();
        assert_eq!(Chord::from_key_codes(rearranged), first);
    }
}

#[test]
fn no_keys_make_the_empty_chord() {
    assert_eq!(chord_of(&[]), vec![]);
    assert_eq!(keys_of(""), vec![]);
    assert_eq!(Chord::from_key_codes(vec![]).len(), 0);
}

#[test]
fn different_keys_make_different_chords() {
    assert_ne!(Chord::from_string("ab"), Chord::from_string("ac"));
    assert_ne!(Chord::from_string("a"), Chord::from_string("ab"));
}

#[test]
fn unknown_tokens_stand_for_the_unknown_key() {
    assert_eq!(keys_of("<nosuchkey>"), vec![KeyCode::UNKNOWN]);
    assert_eq!(keys_of("é"), vec![KeyCode::UNKNOWN]);
    assert_eq!(keys_of("a!?"), vec![KeyCode::KEY_A, KeyCode::UNKNOWN]);
    assert_eq!(keys_of("<???>"), vec![KeyCode::UNKNOWN]);
}

#[test]
fn letters_are_read_in_either_case() {
    assert_eq!(keys_of("A"), vec![KeyCode::KEY_A]);
    assert_eq!(Chord::from_string("Ok"), Chord::from_string("ko"));
    assert_eq!(keys_of("<F1><BackSpace>"), vec![KeyCode::KEY_F1, KeyCode::KEY_BACKSPACE]);
    assert_eq!(Chord::from_string("HsT"), Chord::from_string("hst"));
    assert_eq!(keys_of("<BS>"), vec![KeyCode::UNKNOWN]);
}

#[test]
fn tokens_of_plain_text() {
    assert_eq!(tokenize("a b"), vec!["a", " ", "b"]);
    assert_eq!(tokenize(""), Vec::<&str>::new());
    assert_eq!(tokenize("héllo"), vec!["h", "é", "l", "l", "o"]);
}

#[test]
fn tokens_in_brackets() {
    assert_eq!(tokenize("aa<backspace>a"), vec!["a", "a", "<backspace>", "a"]);
    assert_eq!(tokenize("<f1><f2>"), vec!["<f1>", "<f2>"]);
    assert_eq!(tokenize("<>"), vec!["<>"]);
    assert_eq!(tokenize("<a<b>c>"), vec!["<a<b>", "c", ">"]);
    assert_eq!(tokenize("<<a>>"), vec!["<<a>", ">"]);
}

#[test]
fn an_open_bracket_without_its_end_is_a_token() {
    assert_eq!(tokenize("<"), vec!["<"]);
    assert_eq!(tokenize("<ab"), vec!["<", "a", "b"]);
    assert_eq!(tokenize("a>b"), vec!["a", ">", "b"]);
}

#[test]
fn line_feeds_separate_tokens() {
    assert_eq!(tokenize("a\nb"), vec!["a", "b"]);
    assert_eq!(tokenize("\n\n"), Vec::<&str>::new());
    assert_eq!(tokenize("<a\nb>"), vec!["<", "a", "b", ">"]);
    assert_eq!(tokenize("<a\n<b>"), vec!["<", "a", "<b>"]);
    assert_eq!(tokenize("a\r\nb"), vec!["a", "\r", "b"]);
}

#[test]
fn tokens_are_the_matches_of_the_pattern() {
    let pattern = Regex::new("<.*?>|.").unwrap();
    let alphabet = ['a', '<', '>', '\n', 'é', ' '];
    // Every text over the alphabet of up to five characters.
    let mut texts = vec![String::new()];
    let mut from = 0;
    for _ in 0..5 {
        let upto = texts.len();
        for i in from..upto {
            for c in alphabet {
                let mut longer = texts[i].clone();
                longer.push(c);
                texts.push(longer);
            }
        }
        from = upto;
    }
    assert_eq!(texts.len(), 1 + 6 + 36 + 216 + 1296 + 7776);
    for text in &texts {
        let expected: Vec<&str> = pattern.find_iter(text).map(|part| part.as_str()).collect();
        assert_eq!(tokenize(text), expected, "tokens of {text:?}");
    }
}

#[test]
fn chords_of_text_follow_the_pattern() {
    let pattern = Regex::new("<.*?>|.").unwrap();
    for text in [
        "hst",
        "ab<backspace>",
        "<f1>x<f2>",
        "<leftshift>a<",
        "a\n<tab>",
        "<dot><comma><dot>",
        "Ok",
        "<Esc>É<F12>",
        "<esc",
        "9<??\n?>8",
    ] {
        let keys: Vec<KeyCode> = pattern
            .find_iter(text)
            .map(|part| part.as_str().to_ascii_lowercase())
            .map(|token| KeyCode::from_str(&token).unwrap_or(KeyCode::UNKNOWN))
            .collect();
        assert_eq!(Chord::from_string(text), Chord::from_key_codes(keys), "chord of {text:?}");
    }
}
