//! Keys and key events as the Linux input layer numbers them.
//!
//! The input layer names a key by its event code and tells through the value
//! of a key event whether the key came up (0) or went down (any other value;
//! 1 for a press, 2 for the repeat of a key held down).

use crate::keyboard::key_code::KeyCode;
use crate::keyboard::KeyEvent;
use vstd::prelude::*;

verus! {

/// The event code of `key`. `UNKNOWN` has the code that the input layer keeps
/// for keys it cannot name.
pub open spec fn spec_event_code(key: KeyCode) -> u16 {
    match key {
        KeyCode::KEY_0 => 11,
        KeyCode::KEY_1 => 2,
        KeyCode::KEY_2 => 3,
        KeyCode::KEY_3 => 4,
        KeyCode::KEY_4 => 5,
        KeyCode::KEY_5 => 6,
        KeyCode::KEY_6 => 7,
        KeyCode::KEY_7 => 8,
        KeyCode::KEY_8 => 9,
        KeyCode::KEY_9 => 10,
        KeyCode::KEY_A => 30,
        KeyCode::KEY_B => 48,
        KeyCode::KEY_C => 46,
        KeyCode::KEY_D => 32,
        KeyCode::KEY_E => 18,
        KeyCode::KEY_F => 33,
        KeyCode::KEY_G => 34,
        KeyCode::KEY_H => 35,
        KeyCode::KEY_I => 23,
        KeyCode::KEY_J => 36,
        KeyCode::KEY_K => 37,
        KeyCode::KEY_L => 38,
        KeyCode::KEY_M => 50,
        KeyCode::KEY_N => 49,
        KeyCode::KEY_O => 24,
        KeyCode::KEY_P => 25,
        KeyCode::KEY_Q => 16,
        KeyCode::KEY_R => 19,
        KeyCode::KEY_S => 31,
        KeyCode::KEY_T => 20,
        KeyCode::KEY_U => 22,
        KeyCode::KEY_V => 47,
        KeyCode::KEY_W => 17,
        KeyCode::KEY_X => 45,
        KeyCode::KEY_Y => 21,
        KeyCode::KEY_Z => 44,
        KeyCode::KEY_F1 => 59,
        KeyCode::KEY_F2 => 60,
        KeyCode::KEY_F3 => 61,
        KeyCode::KEY_F4 => 62,
        KeyCode::KEY_F5 => 63,
        KeyCode::KEY_F6 => 64,
        KeyCode::KEY_F7 => 65,
        KeyCode::KEY_F8 => 66,
        KeyCode::KEY_F9 => 67,
        KeyCode::KEY_FN => 464,
        KeyCode::KEY_UP => 103,
        KeyCode::KEY_DOT => 52,
        KeyCode::KEY_END => 107,
        KeyCode::KEY_ESC => 1,
        KeyCode::KEY_F10 => 68,
        KeyCode::KEY_F11 => 87,
        KeyCode::KEY_F12 => 88,
        KeyCode::KEY_F13 => 183,
        KeyCode::KEY_F14 => 184,
        KeyCode::KEY_F15 => 185,
        KeyCode::KEY_F16 => 186,
        KeyCode::KEY_F17 => 187,
        KeyCode::KEY_F18 => 188,
        KeyCode::KEY_F19 => 189,
        KeyCode::KEY_F20 => 190,
        KeyCode::KEY_F21 => 191,
        KeyCode::KEY_F22 => 192,
        KeyCode::KEY_F23 => 193,
        KeyCode::KEY_F24 => 194,
        KeyCode::KEY_TAB => 15,
        KeyCode::KEY_BACK => 158,
        KeyCode::KEY_DOWN => 108,
        KeyCode::KEY_HOME => 102,
        KeyCode::KEY_LEFT => 105,
        KeyCode::KEY_MODE => 373,
        KeyCode::KEY_MOVE => 175,
        KeyCode::KEY_ANGLE => 371,
        KeyCode::KEY_COMMA => 51,
        KeyCode::KEY_ENTER => 28,
        KeyCode::KEY_EQUAL => 13,
        KeyCode::KEY_GRAVE => 41,
        KeyCode::KEY_MINUS => 12,
        KeyCode::KEY_RIGHT => 106,
        KeyCode::KEY_SLASH => 53,
        KeyCode::KEY_DELETE => 111,
        KeyCode::KEY_DOLLAR => 434,
        KeyCode::KEY_INSERT => 110,
        KeyCode::KEY_PAGEUP => 104,
        KeyCode::KEY_LEFTALT => 56,
        KeyCode::KEY_LEFT_UP => 616,
        KeyCode::KEY_CAPSLOCK => 58,
        KeyCode::KEY_LEFTCTRL => 29,
        KeyCode::KEY_LEFTMETA => 125,
        KeyCode::KEY_PAGEDOWN => 109,
        KeyCode::KEY_RIGHTALT => 100,
        KeyCode::KEY_RIGHT_UP => 614,
        KeyCode::KEY_BACKSLASH => 43,
        KeyCode::KEY_BACKSPACE => 14,
        KeyCode::KEY_LEFTBRACE => 26,
        KeyCode::KEY_LEFT_DOWN => 617,
        KeyCode::KEY_LEFTSHIFT => 42,
        KeyCode::KEY_RIGHTCTRL => 97,
        KeyCode::KEY_RIGHTMETA => 126,
        KeyCode::KEY_SEMICOLON => 39,
        KeyCode::KEY_APOSTROPHE => 40,
        KeyCode::KEY_RIGHTBRACE => 27,
        KeyCode::KEY_RIGHT_DOWN => 615,
        KeyCode::KEY_RIGHTSHIFT => 54,
        KeyCode::KEY_SPACE => 57,
        KeyCode::UNKNOWN => 240,
    }
}

/// The key with event code `code`, and `UNKNOWN` for a code that no key has.
pub open spec fn spec_key_of_code(code: u16) -> KeyCode {
    if exists|key: KeyCode| spec_event_code(key) == code {
        choose|key: KeyCode| spec_event_code(key) == code
    } else {
        KeyCode::UNKNOWN
    }
}

/// The code and the value of `event`: value 1 for a key that goes down, 0 for
/// a key that comes up.
pub open spec fn spec_encode(event: KeyEvent) -> (u16, i32) {
    match event {
        KeyEvent::KeyDown(key) => (spec_event_code(key), 1),
        KeyEvent::KeyUp(key) => (spec_event_code(key), 0),
    }
}

/// The key event with code `code` and value `value`.
pub open spec fn spec_decode(code: u16, value: i32) -> KeyEvent {
    if value == 0 {
        KeyEvent::KeyUp(spec_key_of_code(code))
    } else {
        KeyEvent::KeyDown(spec_key_of_code(code))
    }
}

/// No two keys share an event code.
pub proof fn lemma_event_code_injective(a: KeyCode, b: KeyCode)
    requires
        spec_event_code(a) == spec_event_code(b),
    ensures
        a == b,
{
}

/// The event code of a key leads back to the key.
pub proof fn lemma_key_of_event_code(key: KeyCode)
    ensures
        spec_key_of_code(spec_event_code(key)) == key,
{
    lemma_event_code_injective(key, spec_key_of_code(spec_event_code(key)));
}

/// An event that is encoded and decoded again is the same event.
pub proof fn lemma_decode_encode(event: KeyEvent)
    ensures
        spec_decode(spec_encode(event).0, spec_encode(event).1) == event,
{
    match event {
        KeyEvent::KeyDown(key) => lemma_key_of_event_code(key),
        KeyEvent::KeyUp(key) => lemma_key_of_event_code(key),
    }
}

/// The event code of `key`.
#[verifier::when_used_as_spec(spec_event_code)]
pub fn event_code(key: KeyCode) -> (code: u16)
    ensures
        code == spec_event_code(key),
{
    match key {
        KeyCode::KEY_0 => 11,
        KeyCode::KEY_1 => 2,
        KeyCode::KEY_2 => 3,
        KeyCode::KEY_3 => 4,
        KeyCode::KEY_4 => 5,
        KeyCode::KEY_5 => 6,
        KeyCode::KEY_6 => 7,
        KeyCode::KEY_7 => 8,
        KeyCode::KEY_8 => 9,
        KeyCode::KEY_9 => 10,
        KeyCode::KEY_A => 30,
        KeyCode::KEY_B => 48,
        KeyCode::KEY_C => 46,
        KeyCode::KEY_D => 32,
        KeyCode::KEY_E => 18,
        KeyCode::KEY_F => 33,
        KeyCode::KEY_G => 34,
        KeyCode::KEY_H => 35,
        KeyCode::KEY_I => 23,
        KeyCode::KEY_J => 36,
        KeyCode::KEY_K => 37,
        KeyCode::KEY_L => 38,
        KeyCode::KEY_M => 50,
        KeyCode::KEY_N => 49,
        KeyCode::KEY_O => 24,
        KeyCode::KEY_P => 25,
        KeyCode::KEY_Q => 16,
        KeyCode::KEY_R => 19,
        KeyCode::KEY_S => 31,
        KeyCode::KEY_T => 20,
        KeyCode::KEY_U => 22,
        KeyCode::KEY_V => 47,
        KeyCode::KEY_W => 17,
        KeyCode::KEY_X => 45,
        KeyCode::KEY_Y => 21,
        KeyCode::KEY_Z => 44,
        KeyCode::KEY_F1 => 59,
        KeyCode::KEY_F2 => 60,
        KeyCode::KEY_F3 => 61,
        KeyCode::KEY_F4 => 62,
        KeyCode::KEY_F5 => 63,
        KeyCode::KEY_F6 => 64,
        KeyCode::KEY_F7 => 65,
        KeyCode::KEY_F8 => 66,
        KeyCode::KEY_F9 => 67,
        KeyCode::KEY_FN => 464,
        KeyCode::KEY_UP => 103,
        KeyCode::KEY_DOT => 52,
        KeyCode::KEY_END => 107,
        KeyCode::KEY_ESC => 1,
        KeyCode::KEY_F10 => 68,
        KeyCode::KEY_F11 => 87,
        KeyCode::KEY_F12 => 88,
        KeyCode::KEY_F13 => 183,
        KeyCode::KEY_F14 => 184,
        KeyCode::KEY_F15 => 185,
        KeyCode::KEY_F16 => 186,
        KeyCode::KEY_F17 => 187,
        KeyCode::KEY_F18 => 188,
        KeyCode::KEY_F19 => 189,
        KeyCode::KEY_F20 => 190,
        KeyCode::KEY_F21 => 191,
        KeyCode::KEY_F22 => 192,
        KeyCode::KEY_F23 => 193,
        KeyCode::KEY_F24 => 194,
        KeyCode::KEY_TAB => 15,
        KeyCode::KEY_BACK => 158,
        KeyCode::KEY_DOWN => 108,
        KeyCode::KEY_HOME => 102,
        KeyCode::KEY_LEFT => 105,
        KeyCode::KEY_MODE => 373,
        KeyCode::KEY_MOVE => 175,
        KeyCode::KEY_ANGLE => 371,
        KeyCode::KEY_COMMA => 51,
        KeyCode::KEY_ENTER => 28,
        KeyCode::KEY_EQUAL => 13,
        KeyCode::KEY_GRAVE => 41,
        KeyCode::KEY_MINUS => 12,
        KeyCode::KEY_RIGHT => 106,
        KeyCode::KEY_SLASH => 53,
        KeyCode::KEY_DELETE => 111,
        KeyCode::KEY_DOLLAR => 434,
        KeyCode::KEY_INSERT => 110,
        KeyCode::KEY_PAGEUP => 104,
        KeyCode::KEY_LEFTALT => 56,
        KeyCode::KEY_LEFT_UP => 616,
        KeyCode::KEY_CAPSLOCK => 58,
        KeyCode::KEY_LEFTCTRL => 29,
        KeyCode::KEY_LEFTMETA => 125,
        KeyCode::KEY_PAGEDOWN => 109,
        KeyCode::KEY_RIGHTALT => 100,
        KeyCode::KEY_RIGHT_UP => 614,
        KeyCode::KEY_BACKSLASH => 43,
        KeyCode::KEY_BACKSPACE => 14,
        KeyCode::KEY_LEFTBRACE => 26,
        KeyCode::KEY_LEFT_DOWN => 617,
        KeyCode::KEY_LEFTSHIFT => 42,
        KeyCode::KEY_RIGHTCTRL => 97,
        KeyCode::KEY_RIGHTMETA => 126,
        KeyCode::KEY_SEMICOLON => 39,
        KeyCode::KEY_APOSTROPHE => 40,
        KeyCode::KEY_RIGHTBRACE => 27,
        KeyCode::KEY_RIGHT_DOWN => 615,
        KeyCode::KEY_RIGHTSHIFT => 54,
        KeyCode::KEY_SPACE => 57,
        KeyCode::UNKNOWN => 240,
    }
}

/// The key with event code `code`, and `UNKNOWN` for a code that no key has.
#[verifier::when_used_as_spec(spec_key_of_code)]
pub fn key_of_code(code: u16) -> (key: KeyCode)
    ensures
        key == spec_key_of_code(code),
{
    let key = match code {
        1 => KeyCode::KEY_ESC,
        2 => KeyCode::KEY_1,
        3 => KeyCode::KEY_2,
        4 => KeyCode::KEY_3,
        5 => KeyCode::KEY_4,
        6 => KeyCode::KEY_5,
        7 => KeyCode::KEY_6,
        8 => KeyCode::KEY_7,
        9 => KeyCode::KEY_8,
        10 => KeyCode::KEY_9,
        11 => KeyCode::KEY_0,
        12 => KeyCode::KEY_MINUS,
        13 => KeyCode::KEY_EQUAL,
        14 => KeyCode::KEY_BACKSPACE,
        15 => KeyCode::KEY_TAB,
        16 => KeyCode::KEY_Q,
        17 => KeyCode::KEY_W,
        18 => KeyCode::KEY_E,
        19 => KeyCode::KEY_R,
        20 => KeyCode::KEY_T,
        21 => KeyCode::KEY_Y,
        22 => KeyCode::KEY_U,
        23 => KeyCode::KEY_I,
        24 => KeyCode::KEY_O,
        25 => KeyCode::KEY_P,
        26 => KeyCode::KEY_LEFTBRACE,
        27 => KeyCode::KEY_RIGHTBRACE,
        28 => KeyCode::KEY_ENTER,
        29 => KeyCode::KEY_LEFTCTRL,
        30 => KeyCode::KEY_A,
        31 => KeyCode::KEY_S,
        32 => KeyCode::KEY_D,
        33 => KeyCode::KEY_F,
        34 => KeyCode::KEY_G,
        35 => KeyCode::KEY_H,
        36 => KeyCode::KEY_J,
        37 => KeyCode::KEY_K,
        38 => KeyCode::KEY_L,
        39 => KeyCode::KEY_SEMICOLON,
        40 => KeyCode::KEY_APOSTROPHE,
        41 => KeyCode::KEY_GRAVE,
        42 => KeyCode::KEY_LEFTSHIFT,
        43 => KeyCode::KEY_BACKSLASH,
        44 => KeyCode::KEY_Z,
        45 => KeyCode::KEY_X,
        46 => KeyCode::KEY_C,
        47 => KeyCode::KEY_V,
        48 => KeyCode::KEY_B,
        49 => KeyCode::KEY_N,
        50 => KeyCode::KEY_M,
        51 => KeyCode::KEY_COMMA,
        52 => KeyCode::KEY_DOT,
        53 => KeyCode::KEY_SLASH,
        54 => KeyCode::KEY_RIGHTSHIFT,
        56 => KeyCode::KEY_LEFTALT,
        57 => KeyCode::KEY_SPACE,
        58 => KeyCode::KEY_CAPSLOCK,
        59 => KeyCode::KEY_F1,
        60 => KeyCode::KEY_F2,
        61 => KeyCode::KEY_F3,
        62 => KeyCode::KEY_F4,
        63 => KeyCode::KEY_F5,
        64 => KeyCode::KEY_F6,
        65 => KeyCode::KEY_F7,
        66 => KeyCode::KEY_F8,
        67 => KeyCode::KEY_F9,
        68 => KeyCode::KEY_F10,
        87 => KeyCode::KEY_F11,
        88 => KeyCode::KEY_F12,
        97 => KeyCode::KEY_RIGHTCTRL,
        100 => KeyCode::KEY_RIGHTALT,
        102 => KeyCode::KEY_HOME,
        103 => KeyCode::KEY_UP,
        104 => KeyCode::KEY_PAGEUP,
        105 => KeyCode::KEY_LEFT,
        106 => KeyCode::KEY_RIGHT,
        107 => KeyCode::KEY_END,
        108 => KeyCode::KEY_DOWN,
        109 => KeyCode::KEY_PAGEDOWN,
        110 => KeyCode::KEY_INSERT,
        111 => KeyCode::KEY_DELETE,
        125 => KeyCode::KEY_LEFTMETA,
        126 => KeyCode::KEY_RIGHTMETA,
        158 => KeyCode::KEY_BACK,
        175 => KeyCode::KEY_MOVE,
        183 => KeyCode::KEY_F13,
        184 => KeyCode::KEY_F14,
        185 => KeyCode::KEY_F15,
        186 => KeyCode::KEY_F16,
        187 => KeyCode::KEY_F17,
        188 => KeyCode::KEY_F18,
        189 => KeyCode::KEY_F19,
        190 => KeyCode::KEY_F20,
        191 => KeyCode::KEY_F21,
        192 => KeyCode::KEY_F22,
        193 => KeyCode::KEY_F23,
        194 => KeyCode::KEY_F24,
        371 => KeyCode::KEY_ANGLE,
        373 => KeyCode::KEY_MODE,
        434 => KeyCode::KEY_DOLLAR,
        464 => KeyCode::KEY_FN,
        614 => KeyCode::KEY_RIGHT_UP,
        615 => KeyCode::KEY_RIGHT_DOWN,
        616 => KeyCode::KEY_LEFT_UP,
        617 => KeyCode::KEY_LEFT_DOWN,
        _ => KeyCode::UNKNOWN,
    };
    proof {
        if key != KeyCode::UNKNOWN {
            assert(spec_event_code(key) == code);
        }
        if exists|other: KeyCode| spec_event_code(other) == code {
            let other = choose|other: KeyCode| spec_event_code(other) == code;
            assert(spec_event_code(key) == spec_event_code(other));
            lemma_event_code_injective(key, other);
        }
    }
    key
}

/// The code and the value to send for `event`.
pub fn encode(event: KeyEvent) -> (r: (u16, i32))
    ensures
        r == spec_encode(event),
{
    match event {
        KeyEvent::KeyDown(key) => (event_code(key), 1),
        KeyEvent::KeyUp(key) => (event_code(key), 0),
    }
}

/// The key event that was received with code `code` and value `value`.
pub fn decode(code: u16, value: i32) -> (event: KeyEvent)
    ensures
        event == spec_decode(code, value),
{
    if value == 0 {
        KeyEvent::KeyUp(key_of_code(code))
    } else {
        KeyEvent::KeyDown(key_of_code(code))
    }
}

} // verus!
