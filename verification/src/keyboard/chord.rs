//! Chords: which keys were pressed together, whatever the order.

use crate::keyboard::key_code::{characters, lowercase, to_lowercase, KeyCode, KEY_COUNT};
use itertools::Itertools;
use vstd::prelude::*;
use vstd::std_specs::cmp::PartialEqSpecImpl;

verus! {

/// Whether the keys of `keys` stand in key order, none of them twice.
pub open spec fn strictly_ascending(keys: Seq<KeyCode>) -> bool {
    forall|i: int, j: int|
        0 <= i < j < keys.len() ==> keys[i].spec_ordinal() < keys[j].spec_ordinal()
}

/// Whether `form` is `keys` put in key order with the repetitions dropped.
pub open spec fn is_canonical_form(form: Seq<KeyCode>, keys: Seq<KeyCode>) -> bool {
    &&& strictly_ascending(form)
    &&& forall|k: KeyCode| form.contains(k) <==> keys.contains(k)
}

/// The keys of `keys` in key order, each of them once.
pub open spec fn canonical(keys: Seq<KeyCode>) -> Seq<KeyCode> {
    choose|form: Seq<KeyCode>| is_canonical_form(form, keys)
}

/// Whether `s` is in ascending order; equal neighbours are allowed.
spec fn ascending(s: Seq<u8>) -> bool {
    forall|i: int, j: int| 0 <= i <= j < s.len() ==> s[i] <= s[j]
}

/// `s` without the elements that repeat the element just before them.
spec fn without_repeats(s: Seq<u8>) -> Seq<u8>
    decreases s.len(),
{
    if s.len() == 0 {
        s
    } else if s.len() >= 2 && s[s.len() - 2] == s.last() {
        without_repeats(s.drop_last())
    } else {
        without_repeats(s.drop_last()).push(s.last())
    }
}

/// Sorts with `Itertools::sorted`.
///
/// Trusted: the result holds the elements of `v`, each as often as `v` does,
/// in ascending order of the integers.
#[verifier::external_body]
fn sorted(v: Vec<u8>) -> (r: Vec<u8>)
    ensures
        ascending(r@),
        r@.to_multiset() == v@.to_multiset(),
{
    v.into_iter().sorted().collect()
}

/// Drops repeated neighbours with `Itertools::dedup`.
///
/// Trusted: of every run of equal elements that stand side by side in `v`,
/// the result keeps one; everything else stays as it is.
#[verifier::external_body]
fn dedup(v: Vec<u8>) -> (r: Vec<u8>)
    ensures
        r@ == without_repeats(v@),
{
    v.into_iter().dedup().collect()
}

/// Dropping the repeated neighbours of an ascending sequence leaves each of
/// its elements exactly once, still in ascending order.
proof fn lemma_without_repeats(s: Seq<u8>)
    requires
        ascending(s),
    ensures
        forall|i: int, j: int|
            0 <= i < j < without_repeats(s).len() ==> without_repeats(s)[i] < without_repeats(
                s,
            )[j],
        forall|x: u8| without_repeats(s).contains(x) <==> s.contains(x),
        s.len() > 0 ==> without_repeats(s).len() > 0 && without_repeats(s).last() == s.last(),
    decreases s.len(),
{
    if s.len() > 0 {
        let front = s.drop_last();
        let last = s.last();
        assert(ascending(front));
        lemma_without_repeats(front);
        let kept = without_repeats(front);
        assert forall|x: u8| without_repeats(s).contains(x) <==> s.contains(x) by {
            if s.contains(x) {
                let at = choose|at: int| 0 <= at < s.len() && s[at] == x;
                if at < s.len() - 1 {
                    assert(front[at] == x);
                    assert(front.contains(x));
                    assert(kept.contains(x));
                    let found = choose|found: int| 0 <= found < kept.len() && kept[found] == x;
                    assert(without_repeats(s)[found] == x);
                } else if s.len() >= 2 && s[s.len() - 2] == last {
                    assert(kept.last() == x);
                } else {
                    assert(without_repeats(s).last() == x);
                }
            }
            if without_repeats(s).contains(x) {
                let found = choose|found: int|
                    0 <= found < without_repeats(s).len() && without_repeats(s)[found] == x;
                if found < kept.len() {
                    assert(kept[found] == x);
                    assert(kept.contains(x));
                    assert(front.contains(x));
                    let at = choose|at: int| 0 <= at < front.len() && front[at] == x;
                    assert(s[at] == x);
                } else {
                    assert(s[s.len() - 1] == x);
                }
            }
        }
        if !(s.len() >= 2 && s[s.len() - 2] == last) && s.len() >= 2 {
            assert(kept.last() == front.last());
            assert(front.last() == s[s.len() - 2]);
            assert(s[s.len() - 2] <= s[s.len() - 1]);
        }
    }
}

/// Two sequences in key order without repetitions that hold the same keys
/// are the same sequence.
pub proof fn lemma_ascending_unique(a: Seq<KeyCode>, b: Seq<KeyCode>)
    requires
        strictly_ascending(a),
        strictly_ascending(b),
        forall|k: KeyCode| a.contains(k) <==> b.contains(k),
    ensures
        a == b,
    decreases a.len(),
{
    if a.len() == 0 {
        if b.len() > 0 {
            assert(b.contains(b[0]));
        }
        assert(a =~= b);
    } else {
        let top = a.last();
        assert(a.contains(top));
        let at = choose|at: int| 0 <= at < b.len() && b[at] == top;
        let other = b.last();
        assert(b.contains(other));
        let back = choose|back: int| 0 <= back < a.len() && a[back] == other;
        // Each sequence ends in its greatest key, and each holds the other's.
        assert(other.spec_ordinal() <= top.spec_ordinal());
        assert(top.spec_ordinal() <= other.spec_ordinal());
        KeyCode::lemma_ordinal_injective(top, other);
        let a_front = a.drop_last();
        let b_front = b.drop_last();
        assert forall|k: KeyCode| a_front.contains(k) <==> b_front.contains(k) by {
            if a_front.contains(k) {
                let i = choose|i: int| 0 <= i < a_front.len() && a_front[i] == k;
                assert(a[i] == k);
                assert(a.contains(k));
                let j = choose|j: int| 0 <= j < b.len() && b[j] == k;
                assert(k.spec_ordinal() < top.spec_ordinal());
                assert(j < b.len() - 1);
                assert(b_front[j] == k);
            }
            if b_front.contains(k) {
                let j = choose|j: int| 0 <= j < b_front.len() && b_front[j] == k;
                assert(b[j] == k);
                assert(b.contains(k));
                let i = choose|i: int| 0 <= i < a.len() && a[i] == k;
                assert(k.spec_ordinal() < other.spec_ordinal());
                assert(i < a.len() - 1);
                assert(a_front[i] == k);
            }
        }
        lemma_ascending_unique(a_front, b_front);
        assert(a =~= a_front.push(top));
        assert(b =~= b_front.push(other));
    }
}

/// The keys of `keys` whose ordinal is below `bound`, in key order, each once.
proof fn canonical_below(keys: Seq<KeyCode>, bound: u8) -> (form: Seq<KeyCode>)
    requires
        bound <= KEY_COUNT,
    ensures
        strictly_ascending(form),
        forall|k: KeyCode|
            form.contains(k) <==> keys.contains(k) && k.spec_ordinal() < bound,
    decreases bound,
{
    if bound == 0 {
        Seq::empty()
    } else {
        let below = canonical_below(keys, (bound - 1) as u8);
        if exists|k: KeyCode| k.spec_ordinal() == bound - 1 && keys.contains(k) {
            let key = choose|k: KeyCode| k.spec_ordinal() == bound - 1 && keys.contains(k);
            let form = below.push(key);
            assert forall|i: int, j: int| 0 <= i < j < form.len() implies form[i].spec_ordinal()
                < form[j].spec_ordinal() by {
                assert(below.contains(form[i]));
            }
            assert forall|k: KeyCode|
                form.contains(k) <==> keys.contains(k) && k.spec_ordinal() < bound by {
                if form.contains(k) {
                    let i = choose|i: int| 0 <= i < form.len() && form[i] == k;
                    if i < below.len() {
                        assert(below.contains(k));
                    }
                }
                if keys.contains(k) && k.spec_ordinal() < bound {
                    if k.spec_ordinal() == bound - 1 {
                        KeyCode::lemma_ordinal_injective(k, key);
                        assert(form[below.len() as int] == k);
                    } else {
                        assert(below.contains(k));
                        let i = choose|i: int| 0 <= i < below.len() && below[i] == k;
                        assert(form[i] == k);
                    }
                }
            }
            form
        } else {
            below
        }
    }
}

/// Every sequence of keys has its canonical form, and only one.
pub proof fn lemma_canonical(keys: Seq<KeyCode>)
    ensures
        is_canonical_form(canonical(keys), keys),
        forall|form: Seq<KeyCode>| is_canonical_form(form, keys) ==> form == canonical(keys),
{
    let witness = canonical_below(keys, KEY_COUNT);
    assert forall|k: KeyCode| witness.contains(k) <==> keys.contains(k) by {
        KeyCode::lemma_ordinal_bound(k);
    }
    assert(is_canonical_form(witness, keys));
    assert forall|form: Seq<KeyCode>| is_canonical_form(form, keys) implies form == canonical(
        keys,
    ) by {
        lemma_ascending_unique(form, canonical(keys));
    }
}

/// How many of `keys` are no control keys.
pub open spec fn non_control_count(keys: Seq<KeyCode>) -> nat {
    keys.filter(|k: KeyCode| !k.spec_is_control()).len()
}

/// Sequences that hold the same keys have the same canonical form.
pub proof fn lemma_same_keys(a: Seq<KeyCode>, b: Seq<KeyCode>)
    requires
        forall|k: KeyCode| a.contains(k) <==> b.contains(k),
    ensures
        canonical(a) == canonical(b),
{
    lemma_canonical(a);
    lemma_canonical(b);
    assert(is_canonical_form(canonical(a), b));
}

/// The order of the keys plays no part: a sequence of keys and any
/// rearrangement of it make the same chord.
pub proof fn lemma_order_independent(keys: Seq<KeyCode>, rearranged: Seq<KeyCode>)
    requires
        rearranged.to_multiset() == keys.to_multiset(),
    ensures
        canonical(rearranged) == canonical(keys),
{
    keys.to_multiset_ensures();
    rearranged.to_multiset_ensures();
    assert forall|k: KeyCode| rearranged.contains(k) <==> keys.contains(k) by {
        assert(rearranged.contains(k) <==> rearranged.to_multiset().count(k) > 0);
        assert(keys.contains(k) <==> keys.to_multiset().count(k) > 0);
    }
    lemma_same_keys(rearranged, keys);
}

/// Repetitions play no part: a sequence of keys and the same keys with the
/// repetitions taken out make the same chord.
pub proof fn lemma_repetitions_ignored(keys: Seq<KeyCode>, once: Seq<KeyCode>)
    requires
        once.no_duplicates(),
        forall|k: KeyCode| once.contains(k) <==> keys.contains(k),
    ensures
        canonical(keys) == canonical(once),
{
    lemma_same_keys(keys, once);
}

/// Putting keys in canonical form a second time changes nothing.
pub proof fn lemma_canonical_idempotent(keys: Seq<KeyCode>)
    ensures
        canonical(canonical(keys)) == canonical(keys),
{
    lemma_canonical(keys);
    lemma_same_keys(canonical(keys), keys);
}

/// Where a bracketed token closes: the position of the first `>` at or after
/// `from`, unless a line feed or the end of the text comes before it.
pub open spec fn closing_bracket(text: Seq<char>, from: int) -> Option<int>
    decreases text.len() - from,
{
    if from < 0 || from >= text.len() {
        None
    } else if text[from] == '>' {
        Some(from)
    } else if text[from] == '\n' {
        None
    } else {
        closing_bracket(text, from + 1)
    }
}

/// The position just after the token that starts at `start`.
///
/// A `<` that is closed on its line starts a token that runs up to the first
/// `>`; any other character is a token by itself.
pub open spec fn token_end(text: Seq<char>, start: int) -> int {
    if text[start] == '<' {
        match closing_bracket(text, start + 1) {
            Some(at) => at + 1,
            None => start + 1,
        }
    } else {
        start + 1
    }
}

/// The tokens of `text` from position `start` on, left to right. Line feeds
/// stand between tokens and belong to none.
pub open spec fn tokens_from(text: Seq<char>, start: int) -> Seq<Seq<char>>
    decreases text.len() - start,
{
    if start < 0 || start >= text.len() {
        Seq::empty()
    } else if text[start] == '\n' {
        tokens_from(text, start + 1)
    } else {
        proof {
            lemma_closing_bracket(text, start + 1);
        }
        let end = token_end(text, start);
        seq![text.subrange(start, end)] + tokens_from(text, end)
    }
}

/// The tokens of `text`: what the pattern `<.*?>|.` matches in it, match after
/// match from the left.
pub open spec fn tokens(text: Seq<char>) -> Seq<Seq<char>> {
    tokens_from(text, 0)
}

/// The key that a token stands for: the key with that text form, letters
/// taken in either case, and `UNKNOWN` for a token that is the text form of no
/// key.
pub open spec fn key_of_token(token: Seq<char>) -> KeyCode {
    match KeyCode::parse(token.map_values(|c: char| lowercase(c))) {
        Some(key) => key,
        None => KeyCode::UNKNOWN,
    }
}

/// The keys that the tokens of `text` stand for, token by token.
pub open spec fn keys_of_text(text: Seq<char>) -> Seq<KeyCode> {
    tokens(text).map_values(|token: Seq<char>| key_of_token(token))
}

/// A text and a sequence of keys that name the same keys make the same chord:
/// it plays no part whether a chord is read from text or made from keys.
pub proof fn lemma_text_and_keys_agree(text: Seq<char>, keys: Seq<KeyCode>)
    requires
        forall|k: KeyCode| keys_of_text(text).contains(k) <==> keys.contains(k),
    ensures
        canonical(keys_of_text(text)) == canonical(keys),
{
    lemma_same_keys(keys_of_text(text), keys);
}

/// What each of `parts` holds, part by part.
pub open spec fn texts(parts: Seq<&str>) -> Seq<Seq<char>> {
    Seq::new(parts.len(), |i: int| parts[i]@)
}

/// A bracket closes at or after the position the search starts from, and
/// inside the text.
pub proof fn lemma_closing_bracket(text: Seq<char>, from: int)
    ensures
        closing_bracket(text, from) matches Some(at) ==> from <= at < text.len(),
    decreases text.len() - from,
{
    if 0 <= from < text.len() && text[from] != '>' && text[from] != '\n' {
        lemma_closing_bracket(text, from + 1);
    }
}

/// The position of the first `>` at or after `from`, unless a line feed or
/// the end of the text comes before it.
fn find_closing_bracket(text: &Vec<char>, from: usize) -> (r: Option<usize>)
    requires
        from <= text.len(),
    ensures
        match r {
            Some(at) => closing_bracket(text@, from as int) == Some(at as int),
            None => closing_bracket(text@, from as int) is None,
        },
{
    let mut at: usize = from;
    while at < text.len()
        invariant
            from <= at <= text.len(),
            closing_bracket(text@, from as int) == closing_bracket(text@, at as int),
        decreases text.len() - at,
    {
        if text[at] == '>' {
            return Some(at);
        }
        if text[at] == '\n' {
            return None;
        }
        at += 1;
    }
    None
}

/// The characters of `text` with the uppercase ASCII letters made lowercase.
fn lowercased(text: &str) -> (r: Vec<char>)
    ensures
        r@ == text@.map_values(|c: char| lowercase(c)),
{
    let chars = characters(text);
    let mut r: Vec<char> = Vec::new();
    let mut i: usize = 0;
    while i < chars.len()
        invariant
            i <= chars.len(),
            chars@ == text@,
            r@ == text@.take(i as int).map_values(|c: char| lowercase(c)),
        decreases chars.len() - i,
    {
        r.push(to_lowercase(chars[i]));
        assert(r@ =~= text@.take(i + 1).map_values(|c: char| lowercase(c)));
        i += 1;
    }
    assert(text@.take(i as int) =~= text@);
    r
}

/// Splits `text` into its tokens.
///
/// A token is a `<`, what follows it and the first `>` after it, where that
/// `>` stands on the same line; else it is a single character. Line feeds
/// separate tokens. The tokens come out in the order in which they stand.
pub fn tokenize<'a>(text: &'a str) -> (r: Vec<&'a str>)
    ensures
        texts(r@) == tokens(text@),
{
    let chars = characters(text);
    let mut r: Vec<&'a str> = Vec::new();
    let mut start: usize = 0;
    while start < chars.len()
        invariant
            start <= chars.len(),
            chars@ == text@,
            texts(r@) + tokens_from(chars@, start as int) == tokens(chars@),
        decreases chars.len() - start,
    {
        if chars[start] == '\n' {
            start += 1;
        } else {
            let mut end: usize = start + 1;
            if chars[start] == '<' {
                if let Some(at) = find_closing_bracket(&chars, start + 1) {
                    proof {
                        lemma_closing_bracket(chars@, start + 1);
                    }
                    end = at + 1;
                }
            }
            assert(end == token_end(chars@, start as int));
            let token = text.substring_char(start, end);
            let ghost before = texts(r@);
            r.push(token);
            assert(texts(r@) =~= before + seq![chars@.subrange(start as int, end as int)]);
            assert(before + (seq![chars@.subrange(start as int, end as int)] + tokens_from(
                chars@,
                end as int,
            )) =~= texts(r@) + tokens_from(chars@, end as int));
            start = end;
        }
    }
    assert(texts(r@) + Seq::<Seq<char>>::empty() =~= texts(r@));
    r
}

/// The identity of a key combination: its keys in key order, each once.
///
/// Two chords are the same exactly if they hold the same keys; the order in
/// which the keys went down, and how often, plays no part.
#[derive(Debug, Eq, Hash)]
pub struct Chord(Vec<KeyCode>);

impl View for Chord {
    type V = Seq<KeyCode>;

    closed spec fn view(&self) -> Seq<KeyCode> {
        self.0@
    }
}

impl Chord {
    #[verifier::type_invariant]
    spec fn in_key_order(self) -> bool {
        strictly_ascending(self.0@)
    }

    /// The chord of the keys in `keys`.
    pub fn from_key_codes(keys: Vec<KeyCode>) -> (chord: Chord)
        ensures
            chord@ == canonical(keys@),
            is_canonical_form(chord@, keys@),
    {
        let mut ordinals: Vec<u8> = Vec::new();
        let mut i: usize = 0;
        while i < keys.len()
            invariant
                i <= keys.len(),
                ordinals.len() == i,
                forall|j: int| 0 <= j < i ==> ordinals[j] == keys[j].spec_ordinal(),
            decreases keys.len() - i,
        {
            ordinals.push(keys[i].ordinal());
            i += 1;
        }
        let in_order = sorted(ordinals);
        let unique = dedup(in_order);
        proof {
            lemma_without_repeats(in_order@);
            in_order@.to_multiset_ensures();
            ordinals@.to_multiset_ensures();
        }
        // Every ordinal that is left is the ordinal of one of the keys.
        assert forall|x: u8| unique@.contains(x) <==> ordinals@.contains(x) by {
            assert(unique@.contains(x) <==> in_order@.contains(x));
            assert(in_order@.contains(x) <==> in_order@.to_multiset().count(x) > 0);
            assert(ordinals@.contains(x) <==> ordinals@.to_multiset().count(x) > 0);
        }
        let mut form: Vec<KeyCode> = Vec::new();
        let mut n: usize = 0;
        while n < unique.len()
            invariant
                n <= unique.len(),
                form.len() == n,
                ordinals.len() == keys.len(),
                forall|j: int| 0 <= j < ordinals.len() ==> ordinals[j] == keys[j].spec_ordinal(),
                forall|x: u8| unique@.contains(x) <==> ordinals@.contains(x),
                forall|i: int, j: int| 0 <= i < j < unique.len() ==> unique[i] < unique[j],
                forall|j: int| 0 <= j < n ==> (#[trigger] form[j]).spec_ordinal() == unique[j],
            decreases unique.len() - n,
        {
            let ordinal = unique[n];
            proof {
                assert(unique@.contains(ordinal));
                assert(ordinals@.contains(ordinal));
                let at = choose|at: int| 0 <= at < ordinals.len() && ordinals[at] == ordinal;
                KeyCode::lemma_ordinal_bound(keys[at]);
            }
            if let Some(key) = KeyCode::from_ordinal(ordinal) {
                form.push(key);
            }
            n += 1;
        }
        proof {
            assert(strictly_ascending(form@));
            assert forall|k: KeyCode| form@.contains(k) <==> keys@.contains(k) by {
                if form@.contains(k) {
                    let j = choose|j: int| 0 <= j < form.len() && form[j] == k;
                    assert(unique@.contains(unique[j]));
                    assert(ordinals@.contains(unique[j]));
                    let at = choose|at: int| 0 <= at < ordinals.len() && ordinals[at] == unique[j];
                    KeyCode::lemma_ordinal_injective(keys[at], k);
                    assert(keys@[at] == k);
                }
                if keys@.contains(k) {
                    let at = choose|at: int| 0 <= at < keys.len() && keys[at] == k;
                    assert(ordinals[at] == k.spec_ordinal());
                    assert(ordinals@.contains(k.spec_ordinal()));
                    assert(unique@.contains(k.spec_ordinal()));
                    let j = choose|j: int| 0 <= j < unique.len() && unique[j] == k.spec_ordinal();
                    KeyCode::lemma_ordinal_injective(form[j], k);
                    assert(form@[j] == k);
                }
            }
            lemma_canonical(keys@);
            assert(is_canonical_form(form@, keys@));
        }
        Chord(form)
    }

    /// The chord that `s` spells.
    ///
    /// `s` is split into tokens as [`tokenize`] does. Every token stands for the
    /// key whose text form it is, uppercase ASCII letters being read as their
    /// lowercase; a token that is the text form of no key stands for
    /// `UNKNOWN`. The chord holds those keys.
    pub fn from_string(s: &str) -> (chord: Chord)
        ensures
            chord@ == canonical(keys_of_text(s@)),
    {
        let tokens = tokenize(s);
        let mut keys: Vec<KeyCode> = Vec::new();
        let mut i: usize = 0;
        while i < tokens.len()
            invariant
                i <= tokens.len(),
                keys.len() == i,
                forall|j: int| 0 <= j < i ==> keys[j] == key_of_token(tokens[j]@),
            decreases tokens.len() - i,
        {
            let token = lowercased(tokens[i]);
            assert(token@.subrange(0, token@.len() as int) =~= token@);
            let key = match KeyCode::lookup(&token, 0, token.len()) {
                Some(key) => key,
                None => KeyCode::UNKNOWN,
            };
            keys.push(key);
            i += 1;
        }
        assert(keys@ =~= keys_of_text(s@)) by {
            assert(texts(tokens@).len() == tokens.len());
            assert forall|j: int| 0 <= j < keys.len() implies keys[j] == keys_of_text(s@)[j] by {
                assert(texts(tokens@)[j] == tokens[j]@);
            }
        }
        Chord::from_key_codes(keys)
    }

    /// The number of keys in the chord that are no control keys: how many
    /// characters the chord has typed.
    pub fn len(&self) -> (r: usize)
        ensures
            r == non_control_count(self@),
    {
        let mut count: usize = 0;
        let mut i: usize = 0;
        while i < self.0.len()
            invariant
                i <= self.0.len(),
                count <= i,
                count == non_control_count(self.0@.take(i as int)),
            decreases self.0.len() - i,
        {
            proof {
                let upto = self.0@.take(i + 1);
                assert(upto.drop_last() =~= self.0@.take(i as int));
                assert(upto.last() == self.0@[i as int]);
                reveal_with_fuel(Seq::filter, 2);
            }
            if !self.0[i].is_control() {
                count += 1;
            }
            i += 1;
        }
        assert(self.0@.take(i as int) =~= self.0@);
        count
    }

    /// The keys of the chord, in key order.
    pub fn keys(&self) -> (r: &Vec<KeyCode>)
        ensures
            r@ == self@,
            strictly_ascending(r@),
    {
        proof {
            use_type_invariant(self);
        }
        &self.0
    }
}

impl PartialEq for Chord {
    fn eq(&self, other: &Chord) -> (r: bool) {
        if self.0.len() != other.0.len() {
            return false;
        }
        let mut i: usize = 0;
        while i < self.0.len()
            invariant
                i <= self.0.len(),
                self.0.len() == other.0.len(),
                forall|j: int| 0 <= j < i ==> self.0[j] == other.0[j],
            decreases self.0.len() - i,
        {
            if !(self.0[i] == other.0[i]) {
                return false;
            }
            i += 1;
        }
        assert(self.0@ =~= other.0@);
        true
    }
}

impl PartialEqSpecImpl for Chord {
    open spec fn obeys_eq_spec() -> bool {
        true
    }

    open spec fn eq_spec(&self, other: &Chord) -> bool {
        self@ == other@
    }
}

} // verus!
