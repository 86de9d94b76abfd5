//! Which keys of a gesture are down, and which have come up again.
//!
//! A gesture runs from the first key going down to the last key coming up.
//! [`KeyPressState`] follows one gesture; [`KeyPressState::handle_event`] takes
//! it from event to event and yields the chord when the gesture is complete.

use crate::keyboard::chord::{canonical, Chord};
use crate::keyboard::key_code::KeyCode;
use crate::keyboard::KeyEvent;
use vstd::laws_eq::obeys_concrete_eq;
use vstd::prelude::*;

verus! {

/// Whether no key has two entries in `entries`.
pub open spec fn distinct_keys<K>(entries: Seq<(K, bool)>) -> bool {
    forall|i: int, j: int| 0 <= i < j < entries.len() ==> entries[i].0 != entries[j].0
}

/// Whether `key` has an entry in `entries`.
pub open spec fn is_tracked<K>(entries: Seq<(K, bool)>, key: K) -> bool {
    exists|i: int| 0 <= i < entries.len() && entries[i].0 == key
}

/// `entries` with the entry of `key` set to `down`; the other entries stay.
pub open spec fn marked<K>(entries: Seq<(K, bool)>, key: K, down: bool) -> Seq<(K, bool)> {
    Seq::new(
        entries.len(),
        |i: int|
            if entries[i].0 == key {
                (entries[i].0, down)
            } else {
                entries[i]
            },
    )
}

/// `entries` after `key` went down: its entry says so, and is added at the end
/// if `key` had none.
pub open spec fn pressed<K>(entries: Seq<(K, bool)>, key: K) -> Seq<(K, bool)> {
    if is_tracked(entries, key) {
        marked(entries, key, true)
    } else {
        entries.push((key, true))
    }
}

/// `entries` after `key` came up: its entry says so; without an entry nothing
/// changes.
pub open spec fn released<K>(entries: Seq<(K, bool)>, key: K) -> Seq<(K, bool)> {
    marked(entries, key, false)
}

/// The keys of `entries`, in the order of the entries.
pub open spec fn keys_of<K>(entries: Seq<(K, bool)>) -> Seq<K> {
    entries.map_values(|entry: (K, bool)| entry.0)
}

/// Whether every entry says that its key is down.
pub open spec fn all_down<K>(entries: Seq<(K, bool)>) -> bool {
    forall|i: int| 0 <= i < entries.len() ==> (#[trigger] entries[i]).1
}

/// Whether every entry says that its key has come up.
pub open spec fn all_up<K>(entries: Seq<(K, bool)>) -> bool {
    forall|i: int| 0 <= i < entries.len() ==> !(#[trigger] entries[i]).1
}

/// The keys of one gesture in the order in which they first went down, each
/// with a flag that says whether it is still down.
///
/// No key has two entries.
#[derive(Debug, Eq, PartialEq)]
pub struct KeyPressState<K: Eq> {
    pressed_keys: Vec<(K, bool)>,
}

impl<K: Eq> View for KeyPressState<K> {
    type V = Seq<(K, bool)>;

    closed spec fn view(&self) -> Seq<(K, bool)> {
        self.pressed_keys@
    }
}

impl<K: Eq> Default for KeyPressState<K> {
    /// The state before any key went down.
    fn default() -> (state: Self)
        ensures
            state@ == Seq::<(K, bool)>::empty(),
    {
        KeyPressState { pressed_keys: Vec::new() }
    }
}

impl<K: Eq> KeyPressState<K> {
    #[verifier::type_invariant]
    spec fn one_entry_per_key(self) -> bool {
        distinct_keys(self.pressed_keys@)
    }

    /// Where the entry of `k` stands, if `k` has one.
    fn find(&self, k: &K) -> (r: Option<usize>)
        requires
            obeys_concrete_eq::<K>(),
        ensures
            match r {
                Some(at) => at < self@.len() && self@[at as int].0 == *k,
                None => !is_tracked(self@, *k),
            },
    {
        let mut i: usize = 0;
        while i < self.pressed_keys.len()
            invariant
                i <= self.pressed_keys.len(),
                obeys_concrete_eq::<K>(),
                forall|j: int| 0 <= j < i ==> self.pressed_keys[j].0 != *k,
            decreases self.pressed_keys.len() - i,
        {
            proof {
                reveal(obeys_concrete_eq);
            }
            if self.pressed_keys[i].0 == *k {
                return Some(i);
            }
            i += 1;
        }
        None
    }

    /// Sets the flag of the entry at `at`.
    fn mark(&mut self, at: usize, down: bool)
        requires
            at < old(self)@.len(),
        ensures
            final(self)@ == marked(old(self)@, old(self)@[at as int].0, down),
    {
        proof {
            use_type_invariant(&*self);
        }
        let mut entries: Vec<(K, bool)> = Vec::new();
        core::mem::swap(&mut self.pressed_keys, &mut entries);
        entries[at].1 = down;
        assert(entries@ =~= marked(old(self)@, old(self)@[at as int].0, down));
        self.pressed_keys = entries;
    }

    /// Records that `k` went down.
    ///
    /// A key that has no entry yet gets one at the end. A key that has one
    /// keeps its place: a repeated press adds no second entry.
    pub fn press(&mut self, k: K)
        requires
            obeys_concrete_eq::<K>(),
        ensures
            final(self)@ == pressed(old(self)@, k),
            distinct_keys(final(self)@),
    {
        proof {
            use_type_invariant(&*self);
        }
        match self.find(&k) {
            Some(at) => {
                self.mark(at, true);
            },
            None => {
                let mut entries: Vec<(K, bool)> = Vec::new();
                core::mem::swap(&mut self.pressed_keys, &mut entries);
                entries.push((k, true));
                self.pressed_keys = entries;
            },
        }
        proof {
            use_type_invariant(&*self);
        }
    }

    /// Records that `k` came up. A key without an entry changes nothing.
    pub fn release(&mut self, k: &K)
        requires
            obeys_concrete_eq::<K>(),
        ensures
            final(self)@ == released(old(self)@, *k),
            distinct_keys(final(self)@),
    {
        proof {
            use_type_invariant(&*self);
        }
        match self.find(k) {
            Some(at) => {
                self.mark(at, false);
            },
            None => {
                assert(self@ =~= released(self@, *k));
            },
        }
    }

    /// Empties the state and hands out the keys it held, in the order in which
    /// they first went down.
    pub fn clear(&mut self) -> (keys: Vec<K>)
        ensures
            final(self)@ == Seq::<(K, bool)>::empty(),
            keys@ == keys_of(old(self)@),
    {
        let mut entries: Vec<(K, bool)> = Vec::new();
        core::mem::swap(&mut self.pressed_keys, &mut entries);
        let mut keys: Vec<K> = Vec::new();
        for entry in it: entries.into_iter()
            invariant
                keys@ == keys_of(it.seq().take(it.index() as int)),
        {
            keys.push(entry.0);
        }
        keys
    }

    /// `None` while no key is tracked; else whether every tracked key is still
    /// down.
    pub fn none_released(&self) -> (r: Option<bool>)
        ensures
            r == if self@.len() == 0 {
                None
            } else {
                Some(all_down(self@))
            },
    {
        if self.pressed_keys.len() == 0 {
            return None;
        }
        let mut i: usize = 0;
        while i < self.pressed_keys.len()
            invariant
                i <= self.pressed_keys.len(),
                all_down(self.pressed_keys@.take(i as int)),
            decreases self.pressed_keys.len() - i,
        {
            if !self.pressed_keys[i].1 {
                return Some(false);
            }
            assert forall|j: int| 0 <= j < i + 1 implies (#[trigger] self.pressed_keys@.take(
                i + 1,
            )[j]).1 by {
                if j < i {
                    assert(self.pressed_keys@.take(i as int)[j].1);
                }
            }
            i += 1;
        }
        assert(self.pressed_keys@.take(i as int) =~= self.pressed_keys@);
        Some(true)
    }

    /// `None` while no key is tracked; else whether every tracked key has come
    /// up again.
    pub fn all_released(&self) -> (r: Option<bool>)
        ensures
            r == if self@.len() == 0 {
                None
            } else {
                Some(all_up(self@))
            },
    {
        if self.pressed_keys.len() == 0 {
            return None;
        }
        let mut i: usize = 0;
        while i < self.pressed_keys.len()
            invariant
                i <= self.pressed_keys.len(),
                all_up(self.pressed_keys@.take(i as int)),
            decreases self.pressed_keys.len() - i,
        {
            if self.pressed_keys[i].1 {
                return Some(false);
            }
            assert forall|j: int| 0 <= j < i + 1 implies !(#[trigger] self.pressed_keys@.take(
                i + 1,
            )[j]).1 by {
                if j < i {
                    assert(!self.pressed_keys@.take(i as int)[j].1);
                }
            }
            i += 1;
        }
        assert(self.pressed_keys@.take(i as int) =~= self.pressed_keys@);
        Some(true)
    }
}

/// The entries after `event`.
///
/// A key that goes down is recorded while no tracked key has come up yet; once
/// one has, the gesture is a misfire and a key going down discards it. A key
/// that comes up is recorded, and if that leaves every tracked key up, the
/// gesture is complete and the entries start over empty.
pub open spec fn entries_after(entries: Seq<(KeyCode, bool)>, event: KeyEvent) -> Seq<
    (KeyCode, bool),
> {
    match event {
        KeyEvent::KeyDown(key) => if entries.len() > 0 && !all_down(entries) {
            Seq::empty()
        } else {
            pressed(entries, key)
        },
        KeyEvent::KeyUp(key) => if completes(entries, event) {
            Seq::empty()
        } else {
            released(entries, key)
        },
    }
}

/// Whether `event` completes the gesture: a key comes up, and with it every
/// tracked key is up, at least one being tracked.
pub open spec fn completes(entries: Seq<(KeyCode, bool)>, event: KeyEvent) -> bool {
    match event {
        KeyEvent::KeyDown(_) => false,
        KeyEvent::KeyUp(key) => entries.len() > 0 && all_up(released(entries, key)),
    }
}

/// The keys of the gesture that `event` completes, in the order in which they
/// first went down.
pub open spec fn completed_keys(entries: Seq<(KeyCode, bool)>, event: KeyEvent) -> Option<
    Seq<KeyCode>,
> {
    if completes(entries, event) {
        Some(keys_of(entries))
    } else {
        None
    }
}

impl KeyPressState<KeyCode> {
    /// Takes the gesture one event further, and hands out the chord of the
    /// gesture if the event completes it.
    pub fn handle_event(&mut self, event: KeyEvent) -> (chord: Option<Chord>)
        ensures
            final(self)@ == entries_after(old(self)@, event),
            match chord {
                Some(chord) => completed_keys(old(self)@, event) matches Some(keys) && chord@
                    == canonical(keys),
                None => completed_keys(old(self)@, event) is None,
            },
    {
        proof {
            KeyCode::lemma_equality();
        }
        match event {
            KeyEvent::KeyDown(code) => {
                if self.none_released() != Some(false) {
                    self.press(code);
                } else {
                    self.clear();
                }
                None
            },
            KeyEvent::KeyUp(code) => {
                self.release(&code);
                if self.all_released() == Some(true) {
                    let keys = self.clear();
                    assert(keys@ =~= keys_of(old(self)@));
                    Some(Chord::from_key_codes(keys))
                } else {
                    None
                }
            },
        }
    }
}

} // verus!
