//! Keys, chords and the characters written in their place.

use vstd::prelude::*;

pub mod chord;
pub mod ev_dev;
pub mod key_code;
pub mod output_char;

use key_code::KeyCode;
use output_char::OutputChar;

verus! {

/// A key going down or coming up.
#[derive(Debug, Clone, Copy, PartialEq, Eq, Hash)]
pub enum KeyEvent {
    KeyDown(KeyCode),
    KeyUp(KeyCode),
}

/// A tap of `key`: the key goes down and comes up at once.
pub open spec fn tap(key: KeyCode) -> Seq<KeyEvent> {
    seq![KeyEvent::KeyDown(key), KeyEvent::KeyUp(key)]
}

/// The events that write `output`: a tap of its key, with left shift held down
/// around the tap if the character is uppercase.
pub open spec fn char_events(output: OutputChar) -> Seq<KeyEvent> {
    if output.is_upper {
        seq![KeyEvent::KeyDown(KeyCode::KEY_LEFTSHIFT)] + tap(output.key) + seq![
            KeyEvent::KeyUp(KeyCode::KEY_LEFTSHIFT),
        ]
    } else {
        tap(output.key)
    }
}

/// The events that write `chars`: those of the first character, then those of
/// the second, and so on.
pub open spec fn chars_events(chars: Seq<OutputChar>) -> Seq<KeyEvent>
    decreases chars.len(),
{
    if chars.len() == 0 {
        Seq::empty()
    } else {
        chars_events(chars.drop_last()) + char_events(chars.last())
    }
}

/// The events of a tap of `key`.
pub fn press_key(key: KeyCode) -> (events: Vec<KeyEvent>)
    ensures
        events@ == tap(key),
{
    let mut events: Vec<KeyEvent> = Vec::new();
    events.push(KeyEvent::KeyDown(key));
    events.push(KeyEvent::KeyUp(key));
    assert(events@ =~= tap(key));
    events
}

/// The events that write `output`.
pub fn write_char(output: &OutputChar) -> (events: Vec<KeyEvent>)
    ensures
        events@ == char_events(*output),
{
    let mut events: Vec<KeyEvent> = Vec::new();
    if output.is_upper() {
        events.push(KeyEvent::KeyDown(KeyCode::KEY_LEFTSHIFT));
    }
    events.push(KeyEvent::KeyDown(output.key));
    events.push(KeyEvent::KeyUp(output.key));
    if output.is_upper() {
        events.push(KeyEvent::KeyUp(KeyCode::KEY_LEFTSHIFT));
    }
    assert(events@ =~= char_events(*output));
    events
}

/// The events that write `chars`, one character after the other.
pub fn write_chars(chars: &[OutputChar]) -> (events: Vec<KeyEvent>)
    ensures
        events@ == chars_events(chars@),
{
    let mut events: Vec<KeyEvent> = Vec::new();
    let mut i: usize = 0;
    while i < chars.len()
        invariant
            i <= chars.len(),
            events@ == chars_events(chars@.take(i as int)),
        decreases chars.len() - i,
    {
        let mut next = write_char(&chars[i]);
        proof {
            let upto = chars@.take(i + 1);
            assert(upto.drop_last() =~= chars@.take(i as int));
            assert(upto.last() == chars@[i as int]);
        }
        events.append(&mut next);
        i += 1;
    }
    assert(chars@.take(i as int) =~= chars@);
    events
}

} // verus!
