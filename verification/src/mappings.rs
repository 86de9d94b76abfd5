//! The table that says what each chord is replaced with.

use crate::keyboard::chord::{canonical, keys_of_text, Chord};
use crate::keyboard::key_code::{KeyCode, ParseError};
use crate::keyboard::output_char::{
    first_unsupported, output_char_of, output_chars_from_string, supported, written, OutputChar,
};
use vstd::pervasive::unreached;
use vstd::prelude::*;

verus! {

/// Why a list of mappings could not be taken over.
#[derive(Debug, PartialEq, Eq)]
pub enum ConfigError {
    /// The replacement of the entry at position `entry` holds `character`,
    /// which no key types.
    UnsupportedCharacter { entry: usize, character: char },
}

/// The table that `rules` make: pair after pair, the chord of the pair is
/// given the replacement of the pair. Where two pairs name the same chord,
/// the later one stands.
pub open spec fn table_of(rules: Seq<(Seq<KeyCode>, Seq<OutputChar>)>) -> Map<
    Seq<KeyCode>,
    Seq<OutputChar>,
>
    decreases rules.len(),
{
    if rules.len() == 0 {
        Map::empty()
    } else {
        table_of(rules.drop_last()).insert(rules.last().0, rules.last().1)
    }
}

/// What a pair of pattern and replacement says: the chord that the pattern
/// spells, and how the replacement is written.
pub open spec fn rule_of(entry: (Seq<char>, Seq<char>)) -> (Seq<KeyCode>, Seq<OutputChar>) {
    (canonical(keys_of_text(entry.0)), written(entry.1))
}

/// The table that a list of patterns and replacements makes.
pub open spec fn mappings_of(entries: Seq<(Seq<char>, Seq<char>)>) -> Map<
    Seq<KeyCode>,
    Seq<OutputChar>,
> {
    table_of(entries.map_values(|entry: (Seq<char>, Seq<char>)| rule_of(entry)))
}

/// The text of the patterns and replacements in `entries`.
pub open spec fn entry_texts(entries: Seq<(String, String)>) -> Seq<(Seq<char>, Seq<char>)> {
    entries.map_values(|entry: (String, String)| (entry.0@, entry.1@))
}

/// Whether position `at` holds the first entry whose replacement holds a
/// character that no key types.
pub open spec fn first_bad_entry(entries: Seq<(Seq<char>, Seq<char>)>, at: int) -> bool {
    &&& 0 <= at < entries.len()
    &&& !supported(entries[at].1)
    &&& forall|i: int| 0 <= i < at ==> supported(#[trigger] entries[i].1)
}

/// What the rows of a table say, row by row.
spec fn rules_of(rows: Seq<(Chord, Vec<OutputChar>)>) -> Seq<(Seq<KeyCode>, Seq<OutputChar>)> {
    rows.map_values(|row: (Chord, Vec<OutputChar>)| (row.0@, row.1@))
}

/// Whether no chord has two rules.
spec fn distinct_chords(rules: Seq<(Seq<KeyCode>, Seq<OutputChar>)>) -> bool {
    forall|i: int, j: int| 0 <= i < j < rules.len() ==> rules[i].0 != rules[j].0
}

/// A table holds the chords of its rules and no others.
proof fn lemma_table_domain(rules: Seq<(Seq<KeyCode>, Seq<OutputChar>)>)
    ensures
        forall|chord: Seq<KeyCode>|
            table_of(rules).contains_key(chord) <==> exists|i: int|
                0 <= i < rules.len() && (#[trigger] rules[i]).0 == chord,
    decreases rules.len(),
{
    if rules.len() > 0 {
        let front = rules.drop_last();
        lemma_table_domain(front);
        assert forall|chord: Seq<KeyCode>|
            table_of(rules).contains_key(chord) <==> exists|i: int|
                0 <= i < rules.len() && (#[trigger] rules[i]).0 == chord by {
            if table_of(rules).contains_key(chord) {
                if rules.last().0 != chord {
                    assert(table_of(front).contains_key(chord));
                    let i = choose|i: int| 0 <= i < front.len() && (#[trigger] front[i]).0 == chord;
                    assert(rules[i].0 == chord);
                } else {
                    assert(rules[rules.len() - 1].0 == chord);
                }
            }
            if exists|i: int| 0 <= i < rules.len() && (#[trigger] rules[i]).0 == chord {
                let i = choose|i: int| 0 <= i < rules.len() && (#[trigger] rules[i]).0 == chord;
                if i < rules.len() - 1 {
                    assert(front[i].0 == chord);
                    assert(table_of(front).contains_key(chord));
                }
            }
        }
    }
}

/// Where no chord has two rules, the table gives each chord what its rule
/// says.
proof fn lemma_table_value(rules: Seq<(Seq<KeyCode>, Seq<OutputChar>)>, at: int)
    requires
        distinct_chords(rules),
        0 <= at < rules.len(),
    ensures
        table_of(rules).contains_key(rules[at].0),
        table_of(rules)[rules[at].0] == rules[at].1,
    decreases rules.len(),
{
    if at < rules.len() - 1 {
        let front = rules.drop_last();
        assert(distinct_chords(front)) by {
            assert forall|i: int, j: int| 0 <= i < j < front.len() implies front[i].0
                != front[j].0 by {
                assert(rules[i].0 != rules[j].0);
            }
        }
        lemma_table_value(front, at);
        assert(front[at] == rules[at]);
    }
}

/// Where no chord has two rules, rewriting what a rule says sets the chord of
/// that rule in the table.
proof fn lemma_table_update(
    rules: Seq<(Seq<KeyCode>, Seq<OutputChar>)>,
    at: int,
    chars: Seq<OutputChar>,
)
    requires
        distinct_chords(rules),
        0 <= at < rules.len(),
    ensures
        table_of(rules.update(at, (rules[at].0, chars))) == table_of(rules).insert(
            rules[at].0,
            chars,
        ),
    decreases rules.len(),
{
    let front = rules.drop_last();
    let changed = rules.update(at, (rules[at].0, chars));
    if at == rules.len() - 1 {
        assert(changed.drop_last() =~= front);
        assert(table_of(changed) =~= table_of(rules).insert(rules[at].0, chars));
    } else {
        assert(distinct_chords(front)) by {
            assert forall|i: int, j: int| 0 <= i < j < front.len() implies front[i].0
                != front[j].0 by {
                assert(rules[i].0 != rules[j].0);
            }
        }
        lemma_table_update(front, at, chars);
        assert(changed.drop_last() =~= front.update(at, (front[at].0, chars)));
        assert(changed.last() == rules.last());
        assert(rules[at].0 != rules[rules.len() - 1].0);
        assert(table_of(changed) =~= table_of(rules).insert(rules[at].0, chars));
    }
}

/// For each chord that has one, its replacement.
///
/// Made once from a list of patterns and replacements, and only read from
/// then on.
#[derive(Debug)]
pub struct Mappings {
    rows: Vec<(Chord, Vec<OutputChar>)>,
}

impl View for Mappings {
    type V = Map<Seq<KeyCode>, Seq<OutputChar>>;

    closed spec fn view(&self) -> Map<Seq<KeyCode>, Seq<OutputChar>> {
        table_of(rules_of(self.rows@))
    }
}

impl Mappings {
    #[verifier::type_invariant]
    spec fn one_row_per_chord(self) -> bool {
        distinct_chords(rules_of(self.rows@))
    }

    /// Where the row of `chord` stands in `rows`, if `chord` has one.
    fn find(rows: &Vec<(Chord, Vec<OutputChar>)>, chord: &Chord) -> (r: Option<usize>)
        ensures
            match r {
                Some(at) => at < rows.len() && rows[at as int].0@ == chord@,
                None => forall|i: int| 0 <= i < rows.len() ==> (#[trigger] rows[i]).0@ != chord@,
            },
    {
        let mut i: usize = 0;
        while i < rows.len()
            invariant
                i <= rows.len(),
                forall|j: int| 0 <= j < i ==> (#[trigger] rows[j]).0@ != chord@,
            decreases rows.len() - i,
        {
            if rows[i].0 == *chord {
                return Some(i);
            }
            i += 1;
        }
        None
    }

    /// Makes the table from a list of patterns and replacements.
    ///
    /// Each pattern is read as a chord, as [`Chord::from_string`] reads it, and
    /// each replacement character by character. Where two patterns spell the
    /// same chord, the later entry stands. One replacement with a character
    /// that no key types fails the whole list; the error names the first such
    /// entry and its first such character.
    pub fn build(entries: Vec<(String, String)>) -> (r: Result<Mappings, ConfigError>)
        ensures
            match r {
                Ok(mappings) => {
                    &&& forall|i: int| 0 <= i < entries.len() ==> supported(#[trigger] entries[i].1@)
                    &&& mappings@ == mappings_of(entry_texts(entries@))
                },
                Err(ConfigError::UnsupportedCharacter { entry, character }) => {
                    &&& first_bad_entry(entry_texts(entries@), entry as int)
                    &&& exists|at: int|
                        first_unsupported(entries[entry as int].1@, at) && character
                            == entries[entry as int].1@[at]
                },
            },
    {
        let ghost texts = entry_texts(entries@);
        let mut rows: Vec<(Chord, Vec<OutputChar>)> = Vec::new();
        let mut i: usize = 0;
        while i < entries.len()
            invariant
                i <= entries.len(),
                texts == entry_texts(entries@),
                distinct_chords(rules_of(rows@)),
                forall|j: int| 0 <= j < i ==> supported(#[trigger] entries[j].1@),
                table_of(rules_of(rows@)) == mappings_of(texts.take(i as int)),
            decreases entries.len() - i,
        {
            let chord = Chord::from_string(entries[i].0.as_str());
            let chars = match output_chars_from_string(entries[i].1.as_str()) {
                Ok(chars) => chars,
                Err(ParseError::UnsupportedCharacter { character }) => {
                    proof {
                        let at = choose|at: int|
                            first_unsupported(entries[i as int].1@, at) && character
                                == entries[i as int].1@[at];
                        assert(output_char_of(entries[i as int].1@[at]) is None);
                        assert(texts[i as int].1 == entries[i as int].1@);
                        assert(first_bad_entry(texts, i as int)) by {
                            assert forall|j: int| 0 <= j < i implies supported(
                                #[trigger] texts[j].1,
                            ) by {
                                assert(supported(entries[j].1@));
                            }
                        }
                    }
                    return Err(ConfigError::UnsupportedCharacter { entry: i, character });
                },
                Err(_) => unreached(),
            };
            let ghost before = rules_of(rows@);
            let ghost rule = (chord@, chars@);
            proof {
                let upto = texts.take(i + 1);
                assert(upto.drop_last() =~= texts.take(i as int));
                assert(rule_of(upto.last()) == rule);
                assert(upto.map_values(|entry: (Seq<char>, Seq<char>)| rule_of(entry)).drop_last()
                    =~= texts.take(i as int).map_values(
                    |entry: (Seq<char>, Seq<char>)| rule_of(entry),
                ));
                assert(mappings_of(upto) == mappings_of(texts.take(i as int)).insert(
                    rule.0,
                    rule.1,
                ));
            }
            match Self::find(&rows, &chord) {
                Some(at) => {
                    rows[at].1 = chars;
                    proof {
                        lemma_table_update(before, at as int, rule.1);
                        assert(rules_of(rows@) =~= before.update(at as int, (before[at as int].0, rule.1)));
                    }
                },
                None => {
                    rows.push((chord, chars));
                    proof {
                        assert(rules_of(rows@) =~= before.push(rule));
                        assert(rules_of(rows@).drop_last() =~= before);
                        assert forall|a: int, b: int|
                            0 <= a < b < rules_of(rows@).len() implies rules_of(rows@)[a].0
                            != rules_of(rows@)[b].0 by {
                            if b < before.len() {
                                assert(before[a].0 != before[b].0);
                            } else {
                                assert(rows@[a].0@ != chord@);
                            }
                        }
                    }
                },
            }
            i += 1;
        }
        assert(texts.take(i as int) =~= texts);
        Ok(Mappings { rows })
    }

    /// The replacement of `chord`, if it has one.
    pub fn lookup(&self, chord: &Chord) -> (r: Option<&Vec<OutputChar>>)
        ensures
            match r {
                Some(chars) => self@.contains_key(chord@) && chars@ == self@[chord@],
                None => !self@.contains_key(chord@),
            },
    {
        proof {
            use_type_invariant(self);
            lemma_table_domain(rules_of(self.rows@));
        }
        match Self::find(&self.rows, chord) {
            Some(at) => {
                proof {
                    lemma_table_value(rules_of(self.rows@), at as int);
                }
                Some(&self.rows[at].1)
            },
            None => {
                assert forall|i: int| 0 <= i < rules_of(self.rows@).len() implies (
                #[trigger] rules_of(self.rows@)[i]).0 != chord@ by {
                    assert(self.rows@[i].0@ != chord@);
                }
                None
            },
        }
    }
}

} // verus!
