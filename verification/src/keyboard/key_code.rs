//! The keys the remapper knows about.
//!
//! A [`KeyCode`] names one physical key. Every key has a fixed position in the
//! key order (its ordinal), a canonical text form used in configuration text,
//! and a classification as a control key or as a key that types a character.

use vstd::laws_eq::obeys_concrete_eq;
use vstd::prelude::*;
use vstd::std_specs::cmp::PartialEqSpecImpl;

verus! {

/// The number of keys, and so the least number that is no ordinal.
pub const KEY_COUNT: u8 = 106;

/// A physical key.
///
/// The variants are listed in key order: a key declared earlier sorts before a
/// key declared later. `UNKNOWN` stands for every key that has no variant of
/// its own.
#[allow(non_camel_case_types)]
#[derive(Debug, Hash, Eq, Copy, Clone, PartialOrd, Ord)]
pub enum KeyCode {
    KEY_0,
    KEY_1,
    KEY_2,
    KEY_3,
    KEY_4,
    KEY_5,
    KEY_6,
    KEY_7,
    KEY_8,
    KEY_9,
    KEY_A,
    KEY_B,
    KEY_C,
    KEY_D,
    KEY_E,
    KEY_F,
    KEY_G,
    KEY_H,
    KEY_I,
    KEY_J,
    KEY_K,
    KEY_L,
    KEY_M,
    KEY_N,
    KEY_O,
    KEY_P,
    KEY_Q,
    KEY_R,
    KEY_S,
    KEY_T,
    KEY_U,
    KEY_V,
    KEY_W,
    KEY_X,
    KEY_Y,
    KEY_Z,
    KEY_F1,
    KEY_F2,
    KEY_F3,
    KEY_F4,
    KEY_F5,
    KEY_F6,
    KEY_F7,
    KEY_F8,
    KEY_F9,
    KEY_FN,
    KEY_UP,
    KEY_DOT,
    KEY_END,
    KEY_ESC,
    KEY_F10,
    KEY_F11,
    KEY_F12,
    KEY_F13,
    KEY_F14,
    KEY_F15,
    KEY_F16,
    KEY_F17,
    KEY_F18,
    KEY_F19,
    KEY_F20,
    KEY_F21,
    KEY_F22,
    KEY_F23,
    KEY_F24,
    KEY_TAB,
    KEY_BACK,
    KEY_DOWN,
    KEY_HOME,
    KEY_LEFT,
    KEY_MODE,
    KEY_MOVE,
    KEY_ANGLE,
    KEY_COMMA,
    KEY_ENTER,
    KEY_EQUAL,
    KEY_GRAVE,
    KEY_MINUS,
    KEY_RIGHT,
    KEY_SLASH,
    KEY_DELETE,
    KEY_DOLLAR,
    KEY_INSERT,
    KEY_PAGEUP,
    KEY_LEFTALT,
    KEY_LEFT_UP,
    KEY_CAPSLOCK,
    KEY_LEFTCTRL,
    KEY_LEFTMETA,
    KEY_PAGEDOWN,
    KEY_RIGHTALT,
    KEY_RIGHT_UP,
    KEY_BACKSLASH,
    KEY_BACKSPACE,
    KEY_LEFTBRACE,
    KEY_LEFT_DOWN,
    KEY_LEFTSHIFT,
    KEY_RIGHTCTRL,
    KEY_RIGHTMETA,
    KEY_SEMICOLON,
    KEY_APOSTROPHE,
    KEY_RIGHTBRACE,
    KEY_RIGHT_DOWN,
    KEY_RIGHTSHIFT,
    KEY_SPACE,
    UNKNOWN,
}

/// Why a piece of text could not be read as a key.
#[derive(Debug, PartialEq, Eq)]
pub enum ParseError {
    /// The token is the canonical text form of no key.
    UnknownKey { token: String },
    /// The character stands for no key, in either case.
    UnsupportedCharacter { character: char },
}

/// `c`, or the lowercase letter for an uppercase ASCII letter.
pub open spec fn lowercase(c: char) -> char {
    if 'A' <= c <= 'Z' {
        ((c as u8) + 32) as char
    } else {
        c
    }
}

/// `c`, or the lowercase letter for an uppercase ASCII letter.
pub fn to_lowercase(c: char) -> (r: char)
    ensures
        r == lowercase(c),
{
    if 'A' <= c && c <= 'Z' {
        ((c as u8) + 32) as char
    } else {
        c
    }
}

/// The characters of `text`, in order.
pub(crate) fn characters(text: &str) -> (r: Vec<char>)
    ensures
        r@ == text@,
{
    let mut r: Vec<char> = Vec::new();
    for c in it: text.chars()
        invariant
            r@ == it.seq().take(it.index() as int),
    {
        r.push(c);
    }
    r
}

impl KeyCode {
    /// The position of the key in the key order, counted from zero.
    pub open spec fn spec_ordinal(&self) -> u8 {
        match self {
            KeyCode::KEY_0 => 0,
            KeyCode::KEY_1 => 1,
            KeyCode::KEY_2 => 2,
            KeyCode::KEY_3 => 3,
            KeyCode::KEY_4 => 4,
            KeyCode::KEY_5 => 5,
            KeyCode::KEY_6 => 6,
            KeyCode::KEY_7 => 7,
            KeyCode::KEY_8 => 8,
            KeyCode::KEY_9 => 9,
            KeyCode::KEY_A => 10,
            KeyCode::KEY_B => 11,
            KeyCode::KEY_C => 12,
            KeyCode::KEY_D => 13,
            KeyCode::KEY_E => 14,
            KeyCode::KEY_F => 15,
            KeyCode::KEY_G => 16,
            KeyCode::KEY_H => 17,
            KeyCode::KEY_I => 18,
            KeyCode::KEY_J => 19,
            KeyCode::KEY_K => 20,
            KeyCode::KEY_L => 21,
            KeyCode::KEY_M => 22,
            KeyCode::KEY_N => 23,
            KeyCode::KEY_O => 24,
            KeyCode::KEY_P => 25,
            KeyCode::KEY_Q => 26,
            KeyCode::KEY_R => 27,
            KeyCode::KEY_S => 28,
            KeyCode::KEY_T => 29,
            KeyCode::KEY_U => 30,
            KeyCode::KEY_V => 31,
            KeyCode::KEY_W => 32,
            KeyCode::KEY_X => 33,
            KeyCode::KEY_Y => 34,
            KeyCode::KEY_Z => 35,
            KeyCode::KEY_F1 => 36,
            KeyCode::KEY_F2 => 37,
            KeyCode::KEY_F3 => 38,
            KeyCode::KEY_F4 => 39,
            KeyCode::KEY_F5 => 40,
            KeyCode::KEY_F6 => 41,
            KeyCode::KEY_F7 => 42,
            KeyCode::KEY_F8 => 43,
            KeyCode::KEY_F9 => 44,
            KeyCode::KEY_FN => 45,
            KeyCode::KEY_UP => 46,
            KeyCode::KEY_DOT => 47,
            KeyCode::KEY_END => 48,
            KeyCode::KEY_ESC => 49,
            KeyCode::KEY_F10 => 50,
            KeyCode::KEY_F11 => 51,
            KeyCode::KEY_F12 => 52,
            KeyCode::KEY_F13 => 53,
            KeyCode::KEY_F14 => 54,
            KeyCode::KEY_F15 => 55,
            KeyCode::KEY_F16 => 56,
            KeyCode::KEY_F17 => 57,
            KeyCode::KEY_F18 => 58,
            KeyCode::KEY_F19 => 59,
            KeyCode::KEY_F20 => 60,
            KeyCode::KEY_F21 => 61,
            KeyCode::KEY_F22 => 62,
            KeyCode::KEY_F23 => 63,
            KeyCode::KEY_F24 => 64,
            KeyCode::KEY_TAB => 65,
            KeyCode::KEY_BACK => 66,
            KeyCode::KEY_DOWN => 67,
            KeyCode::KEY_HOME => 68,
            KeyCode::KEY_LEFT => 69,
            KeyCode::KEY_MODE => 70,
            KeyCode::KEY_MOVE => 71,
            KeyCode::KEY_ANGLE => 72,
            KeyCode::KEY_COMMA => 73,
            KeyCode::KEY_ENTER => 74,
            KeyCode::KEY_EQUAL => 75,
            KeyCode::KEY_GRAVE => 76,
            KeyCode::KEY_MINUS => 77,
            KeyCode::KEY_RIGHT => 78,
            KeyCode::KEY_SLASH => 79,
            KeyCode::KEY_DELETE => 80,
            KeyCode::KEY_DOLLAR => 81,
            KeyCode::KEY_INSERT => 82,
            KeyCode::KEY_PAGEUP => 83,
            KeyCode::KEY_LEFTALT => 84,
            KeyCode::KEY_LEFT_UP => 85,
            KeyCode::KEY_CAPSLOCK => 86,
            KeyCode::KEY_LEFTCTRL => 87,
            KeyCode::KEY_LEFTMETA => 88,
            KeyCode::KEY_PAGEDOWN => 89,
            KeyCode::KEY_RIGHTALT => 90,
            KeyCode::KEY_RIGHT_UP => 91,
            KeyCode::KEY_BACKSLASH => 92,
            KeyCode::KEY_BACKSPACE => 93,
            KeyCode::KEY_LEFTBRACE => 94,
            KeyCode::KEY_LEFT_DOWN => 95,
            KeyCode::KEY_LEFTSHIFT => 96,
            KeyCode::KEY_RIGHTCTRL => 97,
            KeyCode::KEY_RIGHTMETA => 98,
            KeyCode::KEY_SEMICOLON => 99,
            KeyCode::KEY_APOSTROPHE => 100,
            KeyCode::KEY_RIGHTBRACE => 101,
            KeyCode::KEY_RIGHT_DOWN => 102,
            KeyCode::KEY_RIGHTSHIFT => 103,
            KeyCode::KEY_SPACE => 104,
            KeyCode::UNKNOWN => 105,
        }
    }

    /// The key at position `i` of the key order, if there is one.
    pub open spec fn spec_from_ordinal(i: u8) -> Option<KeyCode> {
        if i < KEY_COUNT {
            Some(choose|k: KeyCode| k.spec_ordinal() == i)
        } else {
            None
        }
    }

    /// The canonical text form: one lowercase character for a key that has
    /// one, else a name between `<` and `>`.
    pub open spec fn name(&self) -> Seq<char> {
        match self {
            KeyCode::KEY_0 => "0"@,
            KeyCode::KEY_1 => "1"@,
            KeyCode::KEY_2 => "2"@,
            KeyCode::KEY_3 => "3"@,
            KeyCode::KEY_4 => "4"@,
            KeyCode::KEY_5 => "5"@,
            KeyCode::KEY_6 => "6"@,
            KeyCode::KEY_7 => "7"@,
            KeyCode::KEY_8 => "8"@,
            KeyCode::KEY_9 => "9"@,
            KeyCode::KEY_A => "a"@,
            KeyCode::KEY_B => "b"@,
            KeyCode::KEY_C => "c"@,
            KeyCode::KEY_D => "d"@,
            KeyCode::KEY_E => "e"@,
            KeyCode::KEY_F => "f"@,
            KeyCode::KEY_G => "g"@,
            KeyCode::KEY_H => "h"@,
            KeyCode::KEY_I => "i"@,
            KeyCode::KEY_J => "j"@,
            KeyCode::KEY_K => "k"@,
            KeyCode::KEY_L => "l"@,
            KeyCode::KEY_M => "m"@,
            KeyCode::KEY_N => "n"@,
            KeyCode::KEY_O => "o"@,
            KeyCode::KEY_P => "p"@,
            KeyCode::KEY_Q => "q"@,
            KeyCode::KEY_R => "r"@,
            KeyCode::KEY_S => "s"@,
            KeyCode::KEY_T => "t"@,
            KeyCode::KEY_U => "u"@,
            KeyCode::KEY_V => "v"@,
            KeyCode::KEY_W => "w"@,
            KeyCode::KEY_X => "x"@,
            KeyCode::KEY_Y => "y"@,
            KeyCode::KEY_Z => "z"@,
            KeyCode::KEY_F1 => "<f1>"@,
            KeyCode::KEY_F2 => "<f2>"@,
            KeyCode::KEY_F3 => "<f3>"@,
            KeyCode::KEY_F4 => "<f4>"@,
            KeyCode::KEY_F5 => "<f5>"@,
            KeyCode::KEY_F6 => "<f6>"@,
            KeyCode::KEY_F7 => "<f7>"@,
            KeyCode::KEY_F8 => "<f8>"@,
            KeyCode::KEY_F9 => "<f9>"@,
            KeyCode::KEY_FN => "<fn>"@,
            KeyCode::KEY_UP => "<up>"@,
            KeyCode::KEY_DOT => "<dot>"@,
            KeyCode::KEY_END => "<end>"@,
            KeyCode::KEY_ESC => "<esc>"@,
            KeyCode::KEY_F10 => "<f10>"@,
            KeyCode::KEY_F11 => "<f11>"@,
            KeyCode::KEY_F12 => "<f12>"@,
            KeyCode::KEY_F13 => "<f13>"@,
            KeyCode::KEY_F14 => "<f14>"@,
            KeyCode::KEY_F15 => "<f15>"@,
            KeyCode::KEY_F16 => "<f16>"@,
            KeyCode::KEY_F17 => "<f17>"@,
            KeyCode::KEY_F18 => "<f18>"@,
            KeyCode::KEY_F19 => "<f19>"@,
            KeyCode::KEY_F20 => "<f20>"@,
            KeyCode::KEY_F21 => "<f21>"@,
            KeyCode::KEY_F22 => "<f22>"@,
            KeyCode::KEY_F23 => "<f23>"@,
            KeyCode::KEY_F24 => "<f24>"@,
            KeyCode::KEY_TAB => "<tab>"@,
            KeyCode::KEY_BACK => "<back>"@,
            KeyCode::KEY_DOWN => "<down>"@,
            KeyCode::KEY_HOME => "<home>"@,
            KeyCode::KEY_LEFT => "<left>"@,
            KeyCode::KEY_MODE => "<mode>"@,
            KeyCode::KEY_MOVE => "<move>"@,
            KeyCode::KEY_ANGLE => "<angle>"@,
            KeyCode::KEY_COMMA => "<comma>"@,
            KeyCode::KEY_ENTER => "<enter>"@,
            KeyCode::KEY_EQUAL => "<equal>"@,
            KeyCode::KEY_GRAVE => "<grave>"@,
            KeyCode::KEY_MINUS => "<minus>"@,
            KeyCode::KEY_RIGHT => "<right>"@,
            KeyCode::KEY_SLASH => "<slash>"@,
            KeyCode::KEY_DELETE => "<delete>"@,
            KeyCode::KEY_DOLLAR => "<dollar>"@,
            KeyCode::KEY_INSERT => "<insert>"@,
            KeyCode::KEY_PAGEUP => "<pageup>"@,
            KeyCode::KEY_LEFTALT => "<leftalt>"@,
            KeyCode::KEY_LEFT_UP => "<left_up>"@,
            KeyCode::KEY_CAPSLOCK => "<capslock>"@,
            KeyCode::KEY_LEFTCTRL => "<leftctrl>"@,
            KeyCode::KEY_LEFTMETA => "<leftmeta>"@,
            KeyCode::KEY_PAGEDOWN => "<pagedown>"@,
            KeyCode::KEY_RIGHTALT => "<rightalt>"@,
            KeyCode::KEY_RIGHT_UP => "<right_up>"@,
            KeyCode::KEY_BACKSLASH => "<backslash>"@,
            KeyCode::KEY_BACKSPACE => "<backspace>"@,
            KeyCode::KEY_LEFTBRACE => "<leftbrace>"@,
            KeyCode::KEY_LEFT_DOWN => "<left_down>"@,
            KeyCode::KEY_LEFTSHIFT => "<leftshift>"@,
            KeyCode::KEY_RIGHTCTRL => "<rightctrl>"@,
            KeyCode::KEY_RIGHTMETA => "<rightmeta>"@,
            KeyCode::KEY_SEMICOLON => "<semicolon>"@,
            KeyCode::KEY_APOSTROPHE => "<apostrophe>"@,
            KeyCode::KEY_RIGHTBRACE => "<rightbrace>"@,
            KeyCode::KEY_RIGHT_DOWN => "<right_down>"@,
            KeyCode::KEY_RIGHTSHIFT => "<rightshift>"@,
            KeyCode::KEY_SPACE => " "@,
            KeyCode::UNKNOWN => "<???>"@,
        }
    }

    /// The key whose canonical text form is `text`, if there is one.
    pub open spec fn parse(text: Seq<char>) -> Option<KeyCode> {
        if exists|k: KeyCode| k.name() == text {
            Some(choose|k: KeyCode| k.name() == text)
        } else {
            None
        }
    }

    /// Whether the key types no character of its own: arrows, function keys,
    /// modifiers, backspace, enter and the like, and `UNKNOWN`.
    pub open spec fn spec_is_control(&self) -> bool {
        match self {
            KeyCode::KEY_F1
            | KeyCode::KEY_F2
            | KeyCode::KEY_F3
            | KeyCode::KEY_F4
            | KeyCode::KEY_F5
            | KeyCode::KEY_F6
            | KeyCode::KEY_F7
            | KeyCode::KEY_F8
            | KeyCode::KEY_F9
            | KeyCode::KEY_FN
            | KeyCode::KEY_UP
            | KeyCode::KEY_END
            | KeyCode::KEY_ESC
            | KeyCode::KEY_F10
            | KeyCode::KEY_F11
            | KeyCode::KEY_F12
            | KeyCode::KEY_F13
            | KeyCode::KEY_F14
            | KeyCode::KEY_F15
            | KeyCode::KEY_F16
            | KeyCode::KEY_F17
            | KeyCode::KEY_F18
            | KeyCode::KEY_F19
            | KeyCode::KEY_F20
            | KeyCode::KEY_F21
            | KeyCode::KEY_F22
            | KeyCode::KEY_F23
            | KeyCode::KEY_F24
            | KeyCode::KEY_BACK
            | KeyCode::KEY_DOWN
            | KeyCode::KEY_HOME
            | KeyCode::KEY_LEFT
            | KeyCode::KEY_MODE
            | KeyCode::KEY_MOVE
            | KeyCode::KEY_ENTER
            | KeyCode::KEY_RIGHT
            | KeyCode::KEY_DELETE
            | KeyCode::KEY_DOLLAR
            | KeyCode::KEY_INSERT
            | KeyCode::KEY_PAGEUP
            | KeyCode::KEY_LEFTALT
            | KeyCode::KEY_LEFT_UP
            | KeyCode::KEY_CAPSLOCK
            | KeyCode::KEY_LEFTCTRL
            | KeyCode::KEY_LEFTMETA
            | KeyCode::KEY_PAGEDOWN
            | KeyCode::KEY_RIGHTALT
            | KeyCode::KEY_RIGHT_UP
            | KeyCode::KEY_BACKSPACE
            | KeyCode::KEY_LEFT_DOWN
            | KeyCode::KEY_LEFTSHIFT
            | KeyCode::KEY_RIGHTCTRL
            | KeyCode::KEY_RIGHTMETA
            | KeyCode::KEY_RIGHT_DOWN
            | KeyCode::KEY_RIGHTSHIFT
            | KeyCode::UNKNOWN => true,
            _ => false,
        }
    }

    /// The position of the key in the key order, counted from zero.
    #[verifier::when_used_as_spec(spec_ordinal)]
    pub fn ordinal(&self) -> (r: u8)
        ensures
            r == self.spec_ordinal(),
            r < KEY_COUNT,
    {
        match self {
            KeyCode::KEY_0 => 0,
            KeyCode::KEY_1 => 1,
            KeyCode::KEY_2 => 2,
            KeyCode::KEY_3 => 3,
            KeyCode::KEY_4 => 4,
            KeyCode::KEY_5 => 5,
            KeyCode::KEY_6 => 6,
            KeyCode::KEY_7 => 7,
            KeyCode::KEY_8 => 8,
            KeyCode::KEY_9 => 9,
            KeyCode::KEY_A => 10,
            KeyCode::KEY_B => 11,
            KeyCode::KEY_C => 12,
            KeyCode::KEY_D => 13,
            KeyCode::KEY_E => 14,
            KeyCode::KEY_F => 15,
            KeyCode::KEY_G => 16,
            KeyCode::KEY_H => 17,
            KeyCode::KEY_I => 18,
            KeyCode::KEY_J => 19,
            KeyCode::KEY_K => 20,
            KeyCode::KEY_L => 21,
            KeyCode::KEY_M => 22,
            KeyCode::KEY_N => 23,
            KeyCode::KEY_O => 24,
            KeyCode::KEY_P => 25,
            KeyCode::KEY_Q => 26,
            KeyCode::KEY_R => 27,
            KeyCode::KEY_S => 28,
            KeyCode::KEY_T => 29,
            KeyCode::KEY_U => 30,
            KeyCode::KEY_V => 31,
            KeyCode::KEY_W => 32,
            KeyCode::KEY_X => 33,
            KeyCode::KEY_Y => 34,
            KeyCode::KEY_Z => 35,
            KeyCode::KEY_F1 => 36,
            KeyCode::KEY_F2 => 37,
            KeyCode::KEY_F3 => 38,
            KeyCode::KEY_F4 => 39,
            KeyCode::KEY_F5 => 40,
            KeyCode::KEY_F6 => 41,
            KeyCode::KEY_F7 => 42,
            KeyCode::KEY_F8 => 43,
            KeyCode::KEY_F9 => 44,
            KeyCode::KEY_FN => 45,
            KeyCode::KEY_UP => 46,
            KeyCode::KEY_DOT => 47,
            KeyCode::KEY_END => 48,
            KeyCode::KEY_ESC => 49,
            KeyCode::KEY_F10 => 50,
            KeyCode::KEY_F11 => 51,
            KeyCode::KEY_F12 => 52,
            KeyCode::KEY_F13 => 53,
            KeyCode::KEY_F14 => 54,
            KeyCode::KEY_F15 => 55,
            KeyCode::KEY_F16 => 56,
            KeyCode::KEY_F17 => 57,
            KeyCode::KEY_F18 => 58,
            KeyCode::KEY_F19 => 59,
            KeyCode::KEY_F20 => 60,
            KeyCode::KEY_F21 => 61,
            KeyCode::KEY_F22 => 62,
            KeyCode::KEY_F23 => 63,
            KeyCode::KEY_F24 => 64,
            KeyCode::KEY_TAB => 65,
            KeyCode::KEY_BACK => 66,
            KeyCode::KEY_DOWN => 67,
            KeyCode::KEY_HOME => 68,
            KeyCode::KEY_LEFT => 69,
            KeyCode::KEY_MODE => 70,
            KeyCode::KEY_MOVE => 71,
            KeyCode::KEY_ANGLE => 72,
            KeyCode::KEY_COMMA => 73,
            KeyCode::KEY_ENTER => 74,
            KeyCode::KEY_EQUAL => 75,
            KeyCode::KEY_GRAVE => 76,
            KeyCode::KEY_MINUS => 77,
            KeyCode::KEY_RIGHT => 78,
            KeyCode::KEY_SLASH => 79,
            KeyCode::KEY_DELETE => 80,
            KeyCode::KEY_DOLLAR => 81,
            KeyCode::KEY_INSERT => 82,
            KeyCode::KEY_PAGEUP => 83,
            KeyCode::KEY_LEFTALT => 84,
            KeyCode::KEY_LEFT_UP => 85,
            KeyCode::KEY_CAPSLOCK => 86,
            KeyCode::KEY_LEFTCTRL => 87,
            KeyCode::KEY_LEFTMETA => 88,
            KeyCode::KEY_PAGEDOWN => 89,
            KeyCode::KEY_RIGHTALT => 90,
            KeyCode::KEY_RIGHT_UP => 91,
            KeyCode::KEY_BACKSLASH => 92,
            KeyCode::KEY_BACKSPACE => 93,
            KeyCode::KEY_LEFTBRACE => 94,
            KeyCode::KEY_LEFT_DOWN => 95,
            KeyCode::KEY_LEFTSHIFT => 96,
            KeyCode::KEY_RIGHTCTRL => 97,
            KeyCode::KEY_RIGHTMETA => 98,
            KeyCode::KEY_SEMICOLON => 99,
            KeyCode::KEY_APOSTROPHE => 100,
            KeyCode::KEY_RIGHTBRACE => 101,
            KeyCode::KEY_RIGHT_DOWN => 102,
            KeyCode::KEY_RIGHTSHIFT => 103,
            KeyCode::KEY_SPACE => 104,
            KeyCode::UNKNOWN => 105,
        }
    }

    /// The key at position `i` of the key order; `None` from `KEY_COUNT` on.
    pub fn from_ordinal(i: u8) -> (r: Option<KeyCode>)
        ensures
            r == Self::spec_from_ordinal(i),
            r is Some <==> i < KEY_COUNT,
            r matches Some(k) ==> k.spec_ordinal() == i,
    {
        let r = match i {
            0 => Some(KeyCode::KEY_0),
            1 => Some(KeyCode::KEY_1),
            2 => Some(KeyCode::KEY_2),
            3 => Some(KeyCode::KEY_3),
            4 => Some(KeyCode::KEY_4),
            5 => Some(KeyCode::KEY_5),
            6 => Some(KeyCode::KEY_6),
            7 => Some(KeyCode::KEY_7),
            8 => Some(KeyCode::KEY_8),
            9 => Some(KeyCode::KEY_9),
            10 => Some(KeyCode::KEY_A),
            11 => Some(KeyCode::KEY_B),
            12 => Some(KeyCode::KEY_C),
            13 => Some(KeyCode::KEY_D),
            14 => Some(KeyCode::KEY_E),
            15 => Some(KeyCode::KEY_F),
            16 => Some(KeyCode::KEY_G),
            17 => Some(KeyCode::KEY_H),
            18 => Some(KeyCode::KEY_I),
            19 => Some(KeyCode::KEY_J),
            20 => Some(KeyCode::KEY_K),
            21 => Some(KeyCode::KEY_L),
            22 => Some(KeyCode::KEY_M),
            23 => Some(KeyCode::KEY_N),
            24 => Some(KeyCode::KEY_O),
            25 => Some(KeyCode::KEY_P),
            26 => Some(KeyCode::KEY_Q),
            27 => Some(KeyCode::KEY_R),
            28 => Some(KeyCode::KEY_S),
            29 => Some(KeyCode::KEY_T),
            30 => Some(KeyCode::KEY_U),
            31 => Some(KeyCode::KEY_V),
            32 => Some(KeyCode::KEY_W),
            33 => Some(KeyCode::KEY_X),
            34 => Some(KeyCode::KEY_Y),
            35 => Some(KeyCode::KEY_Z),
            36 => Some(KeyCode::KEY_F1),
            37 => Some(KeyCode::KEY_F2),
            38 => Some(KeyCode::KEY_F3),
            39 => Some(KeyCode::KEY_F4),
            40 => Some(KeyCode::KEY_F5),
            41 => Some(KeyCode::KEY_F6),
            42 => Some(KeyCode::KEY_F7),
            43 => Some(KeyCode::KEY_F8),
            44 => Some(KeyCode::KEY_F9),
            45 => Some(KeyCode::KEY_FN),
            46 => Some(KeyCode::KEY_UP),
            47 => Some(KeyCode::KEY_DOT),
            48 => Some(KeyCode::KEY_END),
            49 => Some(KeyCode::KEY_ESC),
            50 => Some(KeyCode::KEY_F10),
            51 => Some(KeyCode::KEY_F11),
            52 => Some(KeyCode::KEY_F12),
            53 => Some(KeyCode::KEY_F13),
            54 => Some(KeyCode::KEY_F14),
            55 => Some(KeyCode::KEY_F15),
            56 => Some(KeyCode::KEY_F16),
            57 => Some(KeyCode::KEY_F17),
            58 => Some(KeyCode::KEY_F18),
            59 => Some(KeyCode::KEY_F19),
            60 => Some(KeyCode::KEY_F20),
            61 => Some(KeyCode::KEY_F21),
            62 => Some(KeyCode::KEY_F22),
            63 => Some(KeyCode::KEY_F23),
            64 => Some(KeyCode::KEY_F24),
            65 => Some(KeyCode::KEY_TAB),
            66 => Some(KeyCode::KEY_BACK),
            67 => Some(KeyCode::KEY_DOWN),
            68 => Some(KeyCode::KEY_HOME),
            69 => Some(KeyCode::KEY_LEFT),
            70 => Some(KeyCode::KEY_MODE),
            71 => Some(KeyCode::KEY_MOVE),
            72 => Some(KeyCode::KEY_ANGLE),
            73 => Some(KeyCode::KEY_COMMA),
            74 => Some(KeyCode::KEY_ENTER),
            75 => Some(KeyCode::KEY_EQUAL),
            76 => Some(KeyCode::KEY_GRAVE),
            77 => Some(KeyCode::KEY_MINUS),
            78 => Some(KeyCode::KEY_RIGHT),
            79 => Some(KeyCode::KEY_SLASH),
            80 => Some(KeyCode::KEY_DELETE),
            81 => Some(KeyCode::KEY_DOLLAR),
            82 => Some(KeyCode::KEY_INSERT),
            83 => Some(KeyCode::KEY_PAGEUP),
            84 => Some(KeyCode::KEY_LEFTALT),
            85 => Some(KeyCode::KEY_LEFT_UP),
            86 => Some(KeyCode::KEY_CAPSLOCK),
            87 => Some(KeyCode::KEY_LEFTCTRL),
            88 => Some(KeyCode::KEY_LEFTMETA),
            89 => Some(KeyCode::KEY_PAGEDOWN),
            90 => Some(KeyCode::KEY_RIGHTALT),
            91 => Some(KeyCode::KEY_RIGHT_UP),
            92 => Some(KeyCode::KEY_BACKSLASH),
            93 => Some(KeyCode::KEY_BACKSPACE),
            94 => Some(KeyCode::KEY_LEFTBRACE),
            95 => Some(KeyCode::KEY_LEFT_DOWN),
            96 => Some(KeyCode::KEY_LEFTSHIFT),
            97 => Some(KeyCode::KEY_RIGHTCTRL),
            98 => Some(KeyCode::KEY_RIGHTMETA),
            99 => Some(KeyCode::KEY_SEMICOLON),
            100 => Some(KeyCode::KEY_APOSTROPHE),
            101 => Some(KeyCode::KEY_RIGHTBRACE),
            102 => Some(KeyCode::KEY_RIGHT_DOWN),
            103 => Some(KeyCode::KEY_RIGHTSHIFT),
            104 => Some(KeyCode::KEY_SPACE),
            105 => Some(KeyCode::UNKNOWN),
            _ => None,
        };
        proof {
            if let Some(k) = r {
                Self::lemma_ordinal_injective(k, choose|k: KeyCode| k.spec_ordinal() == i);
            }
        }
        r
    }

    /// The canonical text form of the key.
    pub fn as_string(&self) -> (r: &'static str)
        ensures
            r@ == self.name(),
    {
        match self {
            KeyCode::KEY_0 => "0",
            KeyCode::KEY_1 => "1",
            KeyCode::KEY_2 => "2",
            KeyCode::KEY_3 => "3",
            KeyCode::KEY_4 => "4",
            KeyCode::KEY_5 => "5",
            KeyCode::KEY_6 => "6",
            KeyCode::KEY_7 => "7",
            KeyCode::KEY_8 => "8",
            KeyCode::KEY_9 => "9",
            KeyCode::KEY_A => "a",
            KeyCode::KEY_B => "b",
            KeyCode::KEY_C => "c",
            KeyCode::KEY_D => "d",
            KeyCode::KEY_E => "e",
            KeyCode::KEY_F => "f",
            KeyCode::KEY_G => "g",
            KeyCode::KEY_H => "h",
            KeyCode::KEY_I => "i",
            KeyCode::KEY_J => "j",
            KeyCode::KEY_K => "k",
            KeyCode::KEY_L => "l",
            KeyCode::KEY_M => "m",
            KeyCode::KEY_N => "n",
            KeyCode::KEY_O => "o",
            KeyCode::KEY_P => "p",
            KeyCode::KEY_Q => "q",
            KeyCode::KEY_R => "r",
            KeyCode::KEY_S => "s",
            KeyCode::KEY_T => "t",
            KeyCode::KEY_U => "u",
            KeyCode::KEY_V => "v",
            KeyCode::KEY_W => "w",
            KeyCode::KEY_X => "x",
            KeyCode::KEY_Y => "y",
            KeyCode::KEY_Z => "z",
            KeyCode::KEY_F1 => "<f1>",
            KeyCode::KEY_F2 => "<f2>",
            KeyCode::KEY_F3 => "<f3>",
            KeyCode::KEY_F4 => "<f4>",
            KeyCode::KEY_F5 => "<f5>",
            KeyCode::KEY_F6 => "<f6>",
            KeyCode::KEY_F7 => "<f7>",
            KeyCode::KEY_F8 => "<f8>",
            KeyCode::KEY_F9 => "<f9>",
            KeyCode::KEY_FN => "<fn>",
            KeyCode::KEY_UP => "<up>",
            KeyCode::KEY_DOT => "<dot>",
            KeyCode::KEY_END => "<end>",
            KeyCode::KEY_ESC => "<esc>",
            KeyCode::KEY_F10 => "<f10>",
            KeyCode::KEY_F11 => "<f11>",
            KeyCode::KEY_F12 => "<f12>",
            KeyCode::KEY_F13 => "<f13>",
            KeyCode::KEY_F14 => "<f14>",
            KeyCode::KEY_F15 => "<f15>",
            KeyCode::KEY_F16 => "<f16>",
            KeyCode::KEY_F17 => "<f17>",
            KeyCode::KEY_F18 => "<f18>",
            KeyCode::KEY_F19 => "<f19>",
            KeyCode::KEY_F20 => "<f20>",
            KeyCode::KEY_F21 => "<f21>",
            KeyCode::KEY_F22 => "<f22>",
            KeyCode::KEY_F23 => "<f23>",
            KeyCode::KEY_F24 => "<f24>",
            KeyCode::KEY_TAB => "<tab>",
            KeyCode::KEY_BACK => "<back>",
            KeyCode::KEY_DOWN => "<down>",
            KeyCode::KEY_HOME => "<home>",
            KeyCode::KEY_LEFT => "<left>",
            KeyCode::KEY_MODE => "<mode>",
            KeyCode::KEY_MOVE => "<move>",
            KeyCode::KEY_ANGLE => "<angle>",
            KeyCode::KEY_COMMA => "<comma>",
            KeyCode::KEY_ENTER => "<enter>",
            KeyCode::KEY_EQUAL => "<equal>",
            KeyCode::KEY_GRAVE => "<grave>",
            KeyCode::KEY_MINUS => "<minus>",
            KeyCode::KEY_RIGHT => "<right>",
            KeyCode::KEY_SLASH => "<slash>",
            KeyCode::KEY_DELETE => "<delete>",
            KeyCode::KEY_DOLLAR => "<dollar>",
            KeyCode::KEY_INSERT => "<insert>",
            KeyCode::KEY_PAGEUP => "<pageup>",
            KeyCode::KEY_LEFTALT => "<leftalt>",
            KeyCode::KEY_LEFT_UP => "<left_up>",
            KeyCode::KEY_CAPSLOCK => "<capslock>",
            KeyCode::KEY_LEFTCTRL => "<leftctrl>",
            KeyCode::KEY_LEFTMETA => "<leftmeta>",
            KeyCode::KEY_PAGEDOWN => "<pagedown>",
            KeyCode::KEY_RIGHTALT => "<rightalt>",
            KeyCode::KEY_RIGHT_UP => "<right_up>",
            KeyCode::KEY_BACKSLASH => "<backslash>",
            KeyCode::KEY_BACKSPACE => "<backspace>",
            KeyCode::KEY_LEFTBRACE => "<leftbrace>",
            KeyCode::KEY_LEFT_DOWN => "<left_down>",
            KeyCode::KEY_LEFTSHIFT => "<leftshift>",
            KeyCode::KEY_RIGHTCTRL => "<rightctrl>",
            KeyCode::KEY_RIGHTMETA => "<rightmeta>",
            KeyCode::KEY_SEMICOLON => "<semicolon>",
            KeyCode::KEY_APOSTROPHE => "<apostrophe>",
            KeyCode::KEY_RIGHTBRACE => "<rightbrace>",
            KeyCode::KEY_RIGHT_DOWN => "<right_down>",
            KeyCode::KEY_RIGHTSHIFT => "<rightshift>",
            KeyCode::KEY_SPACE => " ",
            KeyCode::UNKNOWN => "<???>",
        }
    }

    /// Whether the key types no character of its own.
    #[verifier::when_used_as_spec(spec_is_control)]
    pub fn is_control(&self) -> (r: bool)
        ensures
            r == self.spec_is_control(),
    {
        match self {
            KeyCode::KEY_F1
            | KeyCode::KEY_F2
            | KeyCode::KEY_F3
            | KeyCode::KEY_F4
            | KeyCode::KEY_F5
            | KeyCode::KEY_F6
            | KeyCode::KEY_F7
            | KeyCode::KEY_F8
            | KeyCode::KEY_F9
            | KeyCode::KEY_FN
            | KeyCode::KEY_UP
            | KeyCode::KEY_END
            | KeyCode::KEY_ESC
            | KeyCode::KEY_F10
            | KeyCode::KEY_F11
            | KeyCode::KEY_F12
            | KeyCode::KEY_F13
            | KeyCode::KEY_F14
            | KeyCode::KEY_F15
            | KeyCode::KEY_F16
            | KeyCode::KEY_F17
            | KeyCode::KEY_F18
            | KeyCode::KEY_F19
            | KeyCode::KEY_F20
            | KeyCode::KEY_F21
            | KeyCode::KEY_F22
            | KeyCode::KEY_F23
            | KeyCode::KEY_F24
            | KeyCode::KEY_BACK
            | KeyCode::KEY_DOWN
            | KeyCode::KEY_HOME
            | KeyCode::KEY_LEFT
            | KeyCode::KEY_MODE
            | KeyCode::KEY_MOVE
            | KeyCode::KEY_ENTER
            | KeyCode::KEY_RIGHT
            | KeyCode::KEY_DELETE
            | KeyCode::KEY_DOLLAR
            | KeyCode::KEY_INSERT
            | KeyCode::KEY_PAGEUP
            | KeyCode::KEY_LEFTALT
            | KeyCode::KEY_LEFT_UP
            | KeyCode::KEY_CAPSLOCK
            | KeyCode::KEY_LEFTCTRL
            | KeyCode::KEY_LEFTMETA
            | KeyCode::KEY_PAGEDOWN
            | KeyCode::KEY_RIGHTALT
            | KeyCode::KEY_RIGHT_UP
            | KeyCode::KEY_BACKSPACE
            | KeyCode::KEY_LEFT_DOWN
            | KeyCode::KEY_LEFTSHIFT
            | KeyCode::KEY_RIGHTCTRL
            | KeyCode::KEY_RIGHTMETA
            | KeyCode::KEY_RIGHT_DOWN
            | KeyCode::KEY_RIGHTSHIFT
            | KeyCode::UNKNOWN => true,
            _ => false,
        }
    }

    /// Whether the characters `text[start..end]` are the canonical text form
    /// of the key.
    fn is_named(&self, text: &Vec<char>, start: usize, end: usize) -> (r: bool)
        requires
            start <= end <= text.len(),
        ensures
            r == (self.name() == text@.subrange(start as int, end as int)),
    {
        let name = self.as_string();
        let len = name.unicode_len();
        if end - start != len {
            return false;
        }
        let ghost token = text@.subrange(start as int, end as int);
        let mut i: usize = 0;
        while i < len
            invariant
                i <= len,
                len == name@.len(),
                name@ == self.name(),
                start + len == end,
                end <= text.len(),
                token == text@.subrange(start as int, end as int),
                forall|j: int| 0 <= j < i ==> name@[j] == token[j],
            decreases len - i,
        {
            if name.get_char(i) != text[start + i] {
                assert(name@[i as int] != token[i as int]);
                return false;
            }
            i += 1;
        }
        assert(name@ =~= token);
        true
    }

    /// The key whose canonical text form is the characters `text[start..end]`,
    /// if there is one.
    pub(crate) fn lookup(text: &Vec<char>, start: usize, end: usize) -> (r: Option<KeyCode>)
        requires
            start <= end <= text.len(),
        ensures
            r == Self::parse(text@.subrange(start as int, end as int)),
    {
        let ghost token = text@.subrange(start as int, end as int);
        let mut i: u8 = 0;
        while i < KEY_COUNT
            invariant
                i <= KEY_COUNT,
                start <= end <= text.len(),
                token == text@.subrange(start as int, end as int),
                forall|k: KeyCode| k.spec_ordinal() < i ==> k.name() != token,
            decreases KEY_COUNT - i,
        {
            if let Some(key) = Self::from_ordinal(i) {
                if key.is_named(text, start, end) {
                    proof {
                        Self::lemma_parse_name(key);
                    }
                    return Some(key);
                }
                assert forall|k: KeyCode| k.spec_ordinal() < i + 1 implies k.name() != token by {
                    if k.spec_ordinal() == i {
                        Self::lemma_ordinal_injective(k, key);
                    }
                }
            }
            i += 1;
        }
        None
    }

    /// Reads the canonical text form of a key.
    ///
    /// Succeeds exactly on the text forms that [`KeyCode::as_string`] gives;
    /// any other text comes back in the error.
    pub fn from_str(s: &str) -> (r: Result<KeyCode, ParseError>)
        ensures
            match r {
                Ok(key) => Self::parse(s@) == Some(key),
                Err(ParseError::UnknownKey { token }) => Self::parse(s@) is None && token@ == s@,
                Err(_) => false,
            },
    {
        let text = characters(s);
        assert(text@.subrange(0, text@.len() as int) =~= s@);
        match Self::lookup(&text, 0, text.len()) {
            Some(key) => Ok(key),
            None => Err(ParseError::UnknownKey { token: s.to_owned() }),
        }
    }

    /// No two keys share a canonical text form.
    pub proof fn lemma_name_injective(a: KeyCode, b: KeyCode)
        requires
            a.name() == b.name(),
        ensures
            a == b,
    {
        reveal_strlit("0");
        reveal_strlit("1");
        reveal_strlit("2");
        reveal_strlit("3");
        reveal_strlit("4");
        reveal_strlit("5");
        reveal_strlit("6");
        reveal_strlit("7");
        reveal_strlit("8");
        reveal_strlit("9");
        reveal_strlit("a");
        reveal_strlit("b");
        reveal_strlit("c");
        reveal_strlit("d");
        reveal_strlit("e");
        reveal_strlit("f");
        reveal_strlit("g");
        reveal_strlit("h");
        reveal_strlit("i");
        reveal_strlit("j");
        reveal_strlit("k");
        reveal_strlit("l");
        reveal_strlit("m");
        reveal_strlit("n");
        reveal_strlit("o");
        reveal_strlit("p");
        reveal_strlit("q");
        reveal_strlit("r");
        reveal_strlit("s");
        reveal_strlit("t");
        reveal_strlit("u");
        reveal_strlit("v");
        reveal_strlit("w");
        reveal_strlit("x");
        reveal_strlit("y");
        reveal_strlit("z");
        reveal_strlit("<f1>");
        reveal_strlit("<f2>");
        reveal_strlit("<f3>");
        reveal_strlit("<f4>");
        reveal_strlit("<f5>");
        reveal_strlit("<f6>");
        reveal_strlit("<f7>");
        reveal_strlit("<f8>");
        reveal_strlit("<f9>");
        reveal_strlit("<fn>");
        reveal_strlit("<up>");
        reveal_strlit("<dot>");
        reveal_strlit("<end>");
        reveal_strlit("<esc>");
        reveal_strlit("<f10>");
        reveal_strlit("<f11>");
        reveal_strlit("<f12>");
        reveal_strlit("<f13>");
        reveal_strlit("<f14>");
        reveal_strlit("<f15>");
        reveal_strlit("<f16>");
        reveal_strlit("<f17>");
        reveal_strlit("<f18>");
        reveal_strlit("<f19>");
        reveal_strlit("<f20>");
        reveal_strlit("<f21>");
        reveal_strlit("<f22>");
        reveal_strlit("<f23>");
        reveal_strlit("<f24>");
        reveal_strlit("<tab>");
        reveal_strlit("<back>");
        reveal_strlit("<down>");
        reveal_strlit("<home>");
        reveal_strlit("<left>");
        reveal_strlit("<mode>");
        reveal_strlit("<move>");
        reveal_strlit("<angle>");
        reveal_strlit("<comma>");
        reveal_strlit("<enter>");
        reveal_strlit("<equal>");
        reveal_strlit("<grave>");
        reveal_strlit("<minus>");
        reveal_strlit("<right>");
        reveal_strlit("<slash>");
        reveal_strlit("<delete>");
        reveal_strlit("<dollar>");
        reveal_strlit("<insert>");
        reveal_strlit("<pageup>");
        reveal_strlit("<leftalt>");
        reveal_strlit("<left_up>");
        reveal_strlit("<capslock>");
        reveal_strlit("<leftctrl>");
        reveal_strlit("<leftmeta>");
        reveal_strlit("<pagedown>");
        reveal_strlit("<rightalt>");
        reveal_strlit("<right_up>");
        reveal_strlit("<backslash>");
        reveal_strlit("<backspace>");
        reveal_strlit("<leftbrace>");
        reveal_strlit("<left_down>");
        reveal_strlit("<leftshift>");
        reveal_strlit("<rightctrl>");
        reveal_strlit("<rightmeta>");
        reveal_strlit("<semicolon>");
        reveal_strlit("<apostrophe>");
        reveal_strlit("<rightbrace>");
        reveal_strlit("<right_down>");
        reveal_strlit("<rightshift>");
        reveal_strlit(" ");
        reveal_strlit("<???>");
        let text = a.name();
        assert(text.len() == b.name().len());
        assert(text[0] == b.name()[0]);
        assert(text[1] == b.name()[1]);
        assert(text[2] == b.name()[2]);
        assert(text[3] == b.name()[3]);
        assert(text[4] == b.name()[4]);
        assert(text[5] == b.name()[5]);
        assert(text[6] == b.name()[6]);
        assert(text[7] == b.name()[7]);
        assert(text[8] == b.name()[8]);
        assert(text[9] == b.name()[9]);
        assert(text[10] == b.name()[10]);
        assert(text[11] == b.name()[11]);
    }

    /// Reading the canonical text form of a key gives the key back.
    pub proof fn lemma_parse_name(k: KeyCode)
        ensures
            KeyCode::parse(k.name()) == Some(k),
    {
        let found = choose|j: KeyCode| j.name() == k.name();
        Self::lemma_name_injective(found, k);
    }

    /// Every key has a position below `KEY_COUNT`.
    pub proof fn lemma_ordinal_bound(k: KeyCode)
        ensures
            k.spec_ordinal() < KEY_COUNT,
    {
    }

    /// `==` holds between two keys exactly if they are the same key.
    pub proof fn lemma_equality()
        ensures
            obeys_concrete_eq::<KeyCode>(),
    {
        reveal(obeys_concrete_eq);
    }

    /// Two keys at the same position of the key order are the same key.
    pub proof fn lemma_ordinal_injective(a: KeyCode, b: KeyCode)
        requires
            a.spec_ordinal() == b.spec_ordinal(),
        ensures
            a == b,
    {
    }
}

impl PartialEq for KeyCode {
    fn eq(&self, other: &KeyCode) -> (r: bool) {
        proof {
            if self.spec_ordinal() == other.spec_ordinal() {
                KeyCode::lemma_ordinal_injective(*self, *other);
            }
        }
        self.ordinal() == other.ordinal()
    }
}

impl PartialEqSpecImpl for KeyCode {
    open spec fn obeys_eq_spec() -> bool {
        true
    }

    open spec fn eq_spec(&self, other: &KeyCode) -> bool {
        *self == *other
    }
}

impl core::str::FromStr for KeyCode {
    type Err = ParseError;

    /// Reads the canonical text form of a key, as [`KeyCode::from_str`] does.
    ///
    /// Succeeds exactly on the text forms that [`KeyCode::as_string`] gives;
    /// any other text comes back in the error.
    fn from_str(s: &str) -> (r: Result<KeyCode, ParseError>)
        ensures
            match r {
                Ok(key) => KeyCode::parse(s@) == Some(key),
                Err(ParseError::UnknownKey { token }) => KeyCode::parse(s@) is None && token@
                    == s@,
                Err(_) => false,
            },
    {
        KeyCode::from_str(s)
    }
}

} // verus!
