use chordthingy::keyboard::key_code::{KeyCode, ParseError, KEY_COUNT};

fn all_keys() -> Vec<KeyCode> {
    (0..KEY_COUNT).map(|i| KeyCode::from_ordinal(i).unwrap()).collect()
}

#[test]
fn there_are_as_many_keys_as_ordinals() {
    assert_eq!(KEY_COUNT, 106);
    assert_eq!(all_keys().len(), 106);
    assert_eq!(KeyCode::from_ordinal(KEY_COUNT), None);
    assert_eq!(KeyCode::from_ordinal(255), None);
}

#[test]
fn ordinals_count_the_keys_in_key_order() {
    assert_eq!(KeyCode::KEY_0.ordinal(), 0);
    assert_eq!(KeyCode::KEY_9.ordinal(), 9);
    assert_eq!(KeyCode::KEY_A.ordinal(), 10);
    assert_eq!(KeyCode::KEY_Z.ordinal(), 35);
    assert_eq!(KeyCode::KEY_F1.ordinal(), 36);
    assert_eq!(KeyCode::KEY_SPACE.ordinal(), 104);
    assert_eq!(KeyCode::UNKNOWN.ordinal(), 105);
    for (i, key) in all_keys().into_iter().enumerate() {
        assert_eq!(key.ordinal() as usize, i);
    }
}

#[test]
fn keys_compare_as_their_ordinals_do() {
    for a in all_keys() {
        for b in all_keys() {
            assert_eq!(a == b, a.ordinal() == b.ordinal());
            assert_eq!(a < b, a.ordinal() < b.ordinal());
            assert_eq!(a.cmp(&b), a.ordinal().cmp(&b.ordinal()));
        }
    }
}

#[test]
fn text_forms_read_back_as_their_keys() {
    for key in all_keys() {
        assert_eq!(KeyCode::from_str(key.as_string()), Ok(key));
    }
}

#[test]
fn the_unknown_key_has_a_text_form_of_its_own() {
    assert_eq!(KeyCode::UNKNOWN.as_string(), "<???>");
    assert_eq!(KeyCode::from_str("<???>"), Ok(KeyCode::UNKNOWN));
}

#[test]
fn text_forms_of_some_keys() {
    assert_eq!(KeyCode::KEY_0.as_string(), "0");
    assert_eq!(KeyCode::KEY_A.as_string(), "a");
    assert_eq!(KeyCode::KEY_SPACE.as_string(), " ");
    assert_eq!(KeyCode::KEY_F1.as_string(), "<f1>");
    assert_eq!(KeyCode::KEY_F24.as_string(), "<f24>");
    assert_eq!(KeyCode::KEY_BACKSPACE.as_string(), "<backspace>");
    assert_eq!(KeyCode::KEY_APOSTROPHE.as_string(), "<apostrophe>");
    assert_eq!(KeyCode::KEY_RIGHT_DOWN.as_string(), "<right_down>");
    assert_eq!(KeyCode::KEY_DOT.as_string(), "<dot>");
}

#[test]
fn text_forms_are_lowercase_and_single_or_bracketed() {
    for key in all_keys() {
        let text = key.as_string();
        assert_eq!(text, text.to_lowercase());
        let bracketed = text.starts_with('<') && text.ends_with('>') && text.len() >= 4;
        assert!(text.chars().count() == 1 || bracketed, "{text}");
    }
}

#[test]
fn other_text_is_no_key() {
    for text in ["", "A", "aa", "<F1>", "<f25>", "<backspace", "backspace", "<>", "<", ".", "é", "a "] {
        assert_eq!(
            KeyCode::from_str(text),
            Err(ParseError::UnknownKey { token: text.to_owned() })
        );
    }
}

#[test]
fn keys_that_type_are_no_control_keys() {
    for text in "0123456789abcdefghijklmnopqrstuvwxyz ".chars() {
        let key = KeyCode::from_str(&text.to_string()).unwrap();
        assert!(!key.is_control(), "{text}");
    }
    for key in [
        KeyCode::KEY_DOT,
        KeyCode::KEY_TAB,
        KeyCode::KEY_ANGLE,
        KeyCode::KEY_COMMA,
        KeyCode::KEY_EQUAL,
        KeyCode::KEY_GRAVE,
        KeyCode::KEY_MINUS,
        KeyCode::KEY_SLASH,
        KeyCode::KEY_BACKSLASH,
        KeyCode::KEY_LEFTBRACE,
        KeyCode::KEY_SEMICOLON,
        KeyCode::KEY_APOSTROPHE,
        KeyCode::KEY_RIGHTBRACE,
    ] {
        assert!(!key.is_control(), "{key:?}");
    }
}

#[test]
fn keys_that_type_nothing_are_control_keys() {
    for key in [
        KeyCode::KEY_F1,
        KeyCode::KEY_F24,
        KeyCode::KEY_FN,
        KeyCode::KEY_UP,
        KeyCode::KEY_DOWN,
        KeyCode::KEY_LEFT,
        KeyCode::KEY_RIGHT,
        KeyCode::KEY_END,
        KeyCode::KEY_HOME,
        KeyCode::KEY_ESC,
        KeyCode::KEY_ENTER,
        KeyCode::KEY_DELETE,
        KeyCode::KEY_INSERT,
        KeyCode::KEY_BACKSPACE,
        KeyCode::KEY_CAPSLOCK,
        KeyCode::KEY_LEFTSHIFT,
        KeyCode::KEY_RIGHTSHIFT,
        KeyCode::KEY_LEFTCTRL,
        KeyCode::KEY_RIGHTALT,
        KeyCode::KEY_LEFTMETA,
        KeyCode::KEY_DOLLAR,
        KeyCode::UNKNOWN,
    ] {
        assert!(key.is_control(), "{key:?}");
    }
    assert_eq!(all_keys().into_iter().filter(|key| key.is_control()).count(), 56);
}

#[test]
fn keys_parse_from_their_text_forms() {
    assert_eq!("a".parse::<KeyCode>(), Ok(KeyCode::KEY_A));
    assert_eq!("<backspace>".parse::<KeyCode>(), Ok(KeyCode::KEY_BACKSPACE));
    assert_eq!(
        "<bs>".parse::<KeyCode>(),
        Err(ParseError::UnknownKey { token: "<bs>".to_owned() })
    );
}
