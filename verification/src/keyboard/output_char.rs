//! The characters that a replacement is made of.

use crate::keyboard::key_code::{lowercase, to_lowercase, KeyCode, ParseError};
use vstd::prelude::*;
use vstd::std_specs::convert::FromSpecImpl;

verus! {

/// One character to write: the key that types it, and whether shift is held
/// down meanwhile.
#[derive(Debug, PartialEq, Eq, Hash, Clone, Copy)]
pub struct OutputChar {
    pub key: KeyCode,
    pub is_upper: bool,
}

/// How `c` is written, if a key types it: with the key whose text form is
/// lowercase `c`, and with shift exactly if `c` is an uppercase ASCII letter
/// and the key is no control key.
pub open spec fn output_char_of(c: char) -> Option<OutputChar> {
    match KeyCode::parse(seq![lowercase(c)]) {
        Some(key) => Some(OutputChar { key, is_upper: !key.spec_is_control() && 'A' <= c <= 'Z' }),
        None => None,
    }
}

impl From<KeyCode> for OutputChar {
    fn from(key: KeyCode) -> (r: OutputChar) {
        OutputChar { key, is_upper: false }
    }
}

impl FromSpecImpl<KeyCode> for OutputChar {
    open spec fn obeys_from_spec() -> bool {
        true
    }

    open spec fn from_spec(key: KeyCode) -> OutputChar {
        OutputChar { key, is_upper: false }
    }
}

impl OutputChar {
    /// Whether shift is held down while the key is tapped.
    pub fn is_upper(&self) -> (r: bool)
        ensures
            r == self.is_upper,
    {
        self.is_upper
    }

    /// How to write `c`.
    ///
    /// Letters are found in either case and written in the case they are
    /// given in. Fails on a character that no key types.
    pub fn from_char(c: char) -> (r: Result<OutputChar, ParseError>)
        ensures
            match r {
                Ok(output) => output_char_of(c) == Some(output),
                Err(ParseError::UnsupportedCharacter { character }) => output_char_of(c) is None
                    && character == c,
                Err(_) => false,
            },
    {
        let upper = 'A' <= c && c <= 'Z';
        let mut text: Vec<char> = Vec::new();
        text.push(to_lowercase(c));
        assert(text@.subrange(0, 1) =~= seq![lowercase(c)]);
        match KeyCode::lookup(&text, 0, 1) {
            Some(key) => Ok(OutputChar { key, is_upper: !key.is_control() && upper }),
            None => Err(ParseError::UnsupportedCharacter { character: c }),
        }
    }
}

/// Whether a key types every character of `text`.
pub open spec fn supported(text: Seq<char>) -> bool {
    forall|i: int| 0 <= i < text.len() ==> (#[trigger] output_char_of(text[i])) is Some
}

/// How `text` is written, character by character. Meant for text that is
/// [`supported`].
pub open spec fn written(text: Seq<char>) -> Seq<OutputChar> {
    text.map_values(|c: char| output_char_of(c).unwrap())
}

/// Whether position `at` holds the first character of `text` that no key
/// types.
pub open spec fn first_unsupported(text: Seq<char>, at: int) -> bool {
    &&& 0 <= at < text.len()
    &&& output_char_of(text[at]) is None
    &&& supported(text.take(at))
}

/// How to write `s`, character by character.
///
/// Fails if `s` holds a character that no key types, and names the first such
/// character.
pub fn output_chars_from_string(s: &str) -> (r: Result<Vec<OutputChar>, ParseError>)
    ensures
        match r {
            Ok(chars) => supported(s@) && chars@ == written(s@),
            Err(ParseError::UnsupportedCharacter { character }) => exists|at: int|
                first_unsupported(s@, at) && character == s@[at],
            Err(_) => false,
        },
{
    let text = crate::keyboard::key_code::characters(s);
    let mut chars: Vec<OutputChar> = Vec::new();
    let mut i: usize = 0;
    while i < text.len()
        invariant
            i <= text.len(),
            text@ == s@,
            supported(text@.take(i as int)),
            chars@ == written(text@.take(i as int)),
        decreases text.len() - i,
    {
        let ghost done = text@.take(i as int);
        match OutputChar::from_char(text[i]) {
            Ok(output) => {
                chars.push(output);
                proof {
                    let more = text@.take(i + 1);
                    assert forall|j: int| 0 <= j < more.len() implies (#[trigger] output_char_of(
                        more[j],
                    )) is Some by {
                        if j < i {
                            assert(more[j] == done[j]);
                        }
                    }
                    assert(chars@ =~= written(more));
                }
            },
            Err(e) => {
                assert(first_unsupported(s@, i as int));
                return Err(e);
            },
        }
        i += 1;
    }
    assert(text@.take(i as int) =~= s@);
    Ok(chars)
}

} // verus!
