//! The substitution engine: from the keys that are pressed to the keys that
//! are sent in their place.
//!
//! The engine does no input or output. It is handed the events that come in,
//! and hands back the events that have to go out, in the order in which they
//! have to go out.

use crate::gesture::{completed_keys, entries_after, KeyPressState};
use crate::keyboard::chord::{canonical, non_control_count, Chord};
use crate::keyboard::key_code::KeyCode;
use crate::keyboard::output_char::OutputChar;
use crate::keyboard::{chars_events, tap, write_chars, KeyEvent};
use crate::mappings::Mappings;
use vstd::prelude::*;

verus! {

/// `count` taps of the backspace key.
pub open spec fn backspaces(count: nat) -> Seq<KeyEvent>
    decreases count,
{
    if count == 0 {
        Seq::empty()
    } else {
        backspaces((count - 1) as nat) + tap(KeyCode::KEY_BACKSPACE)
    }
}

/// The events that put the replacement of `chord` in its place: one backspace
/// for each key of the chord that typed a character, then the replacement. A
/// chord without a replacement is answered with nothing.
pub open spec fn substitution(
    mappings: Map<Seq<KeyCode>, Seq<OutputChar>>,
    chord: Seq<KeyCode>,
) -> Seq<KeyEvent> {
    if mappings.contains_key(chord) {
        backspaces(non_control_count(chord)) + chars_events(mappings[chord])
    } else {
        Seq::empty()
    }
}

/// The events that answer `event`: the substitution of the chord, if `event`
/// completes a gesture, and nothing else.
pub open spec fn response(
    mappings: Map<Seq<KeyCode>, Seq<OutputChar>>,
    entries: Seq<(KeyCode, bool)>,
    event: KeyEvent,
) -> Seq<KeyEvent> {
    match completed_keys(entries, event) {
        Some(keys) => substitution(mappings, canonical(keys)),
        None => Seq::empty(),
    }
}

/// The tracked keys after all of `events`, taken one by one.
pub open spec fn entries_after_all(entries: Seq<(KeyCode, bool)>, events: Seq<KeyEvent>) -> Seq<
    (KeyCode, bool),
>
    decreases events.len(),
{
    if events.len() == 0 {
        entries
    } else {
        entries_after(entries_after_all(entries, events.drop_last()), events.last())
    }
}

/// The events that answer `events`: the response to the first, then the
/// response to the second, and so on.
pub open spec fn responses(
    mappings: Map<Seq<KeyCode>, Seq<OutputChar>>,
    entries: Seq<(KeyCode, bool)>,
    events: Seq<KeyEvent>,
) -> Seq<KeyEvent>
    decreases events.len(),
{
    if events.len() == 0 {
        Seq::empty()
    } else {
        responses(mappings, entries, events.drop_last()) + response(
            mappings,
            entries_after_all(entries, events.drop_last()),
            events.last(),
        )
    }
}

/// The remapper without its devices: the table of replacements and the
/// gesture that is under way.
pub struct App {
    mappings: Mappings,
    state: KeyPressState<KeyCode>,
}

impl App {
    /// The table of replacements.
    pub closed spec fn mappings(&self) -> Map<Seq<KeyCode>, Seq<OutputChar>> {
        self.mappings@
    }

    /// The keys of the gesture under way, each with the flag that says
    /// whether it is still down.
    pub closed spec fn state(&self) -> Seq<(KeyCode, bool)> {
        self.state@
    }

    /// An engine that replaces as `mappings` says, with no key down.
    pub fn new(mappings: Mappings) -> (app: App)
        ensures
            app.mappings() == mappings@,
            app.state() == Seq::<(KeyCode, bool)>::empty(),
    {
        App { mappings, state: KeyPressState::default() }
    }

    /// The events to send for a complete chord.
    ///
    /// A chord with a replacement is erased with one backspace for each of
    /// its keys that typed a character, and the replacement is written after
    /// the last backspace. A chord without a replacement is left alone.
    pub fn handle_keypress(&self, chord: &Chord) -> (events: Vec<KeyEvent>)
        ensures
            events@ == substitution(self.mappings(), chord@),
            !self.mappings().contains_key(chord@) ==> events@.len() == 0,
    {
        let mut events: Vec<KeyEvent> = Vec::new();
        if let Some(replacement) = self.mappings.lookup(chord) {
            let count = chord.len();
            let mut i: usize = 0;
            while i < count
                invariant
                    i <= count,
                    events@ == backspaces(i as nat),
                decreases count - i,
            {
                events.push(KeyEvent::KeyDown(KeyCode::KEY_BACKSPACE));
                events.push(KeyEvent::KeyUp(KeyCode::KEY_BACKSPACE));
                assert(events@ =~= backspaces(i as nat) + tap(KeyCode::KEY_BACKSPACE));
                i += 1;
            }
            let mut written = write_chars(replacement.as_slice());
            events.append(&mut written);
        }
        events
    }

    /// Takes in one event, and returns the events to send in answer to it.
    pub fn handle_event(&mut self, event: KeyEvent) -> (events: Vec<KeyEvent>)
        ensures
            final(self).mappings() == old(self).mappings(),
            final(self).state() == entries_after(old(self).state(), event),
            events@ == response(old(self).mappings(), old(self).state(), event),
    {
        match self.state.handle_event(event) {
            Some(chord) => self.handle_keypress(&chord),
            None => Vec::new(),
        }
    }

    /// Takes in `events` one by one, and returns everything there is to send
    /// in answer, in order.
    pub fn run(&mut self, events: &[KeyEvent]) -> (sent: Vec<KeyEvent>)
        ensures
            final(self).mappings() == old(self).mappings(),
            final(self).state() == entries_after_all(old(self).state(), events@),
            sent@ == responses(old(self).mappings(), old(self).state(), events@),
    {
        let mut sent: Vec<KeyEvent> = Vec::new();
        let mut i: usize = 0;
        while i < events.len()
            invariant
                i <= events.len(),
                self.mappings() == old(self).mappings(),
                self.state() == entries_after_all(old(self).state(), events@.take(i as int)),
                sent@ == responses(
                    old(self).mappings(),
                    old(self).state(),
                    events@.take(i as int),
                ),
            decreases events.len() - i,
        {
            proof {
                let upto = events@.take(i + 1);
                assert(upto.drop_last() =~= events@.take(i as int));
                assert(upto.last() == events@[i as int]);
            }
            let mut answer = self.handle_event(events[i]);
            sent.append(&mut answer);
            i += 1;
        }
        assert(events@.take(i as int) =~= events@);
        sent
    }
}

} // verus!
