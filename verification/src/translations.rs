//! The translations of a result: a finite map from language code to text, kept as
//! a list of entries in which no language occurs twice.

use crate::text::{escaped, format_quoted};
use vstd::prelude::*;

verus! {

/// The map that a list of entries stands for: each entry is inserted in turn, so
/// of two entries for one language the later one counts.
pub open spec fn map_of(pairs: Seq<(Seq<char>, Seq<char>)>) -> Map<Seq<char>, Seq<char>>
    decreases pairs.len(),
{
    if pairs.len() == 0 {
        Map::empty()
    } else {
        map_of(pairs.drop_last()).insert(pairs.last().0, pairs.last().1)
    }
}

/// No language occurs twice in the list.
pub open spec fn distinct_languages(pairs: Seq<(Seq<char>, Seq<char>)>) -> bool {
    forall|i: int, j: int| 0 <= i < j < pairs.len() ==> pairs[i].0 != pairs[j].0
}

/// Of a list without a repeated language, the map has one key for each entry, and
/// holds each entry's text under the entry's language.
pub proof fn lemma_map_of_distinct(pairs: Seq<(Seq<char>, Seq<char>)>)
    requires
        distinct_languages(pairs),
    ensures
        map_of(pairs).dom().finite(),
        map_of(pairs).dom().len() == pairs.len(),
        forall|i: int|
            0 <= i < pairs.len() ==> map_of(pairs).contains_key(#[trigger] pairs[i].0) && map_of(
                pairs,
            )[pairs[i].0] == pairs[i].1,
        forall|k: Seq<char>| #[trigger]
            map_of(pairs).contains_key(k) ==> exists|i: int|
                0 <= i < pairs.len() && #[trigger] pairs[i].0 == k,
    decreases pairs.len(),
{
    if pairs.len() > 0 {
        let front = pairs.drop_last();
        let last = pairs.last();
        lemma_map_of_distinct(front);
        assert(!map_of(front).contains_key(last.0)) by {
            if map_of(front).contains_key(last.0) {
                let i = choose|i: int| 0 <= i < front.len() && #[trigger] front[i].0 == last.0;
                assert(pairs[i].0 == pairs[pairs.len() - 1].0);
            }
        }
        assert forall|i: int| 0 <= i < pairs.len() implies map_of(pairs).contains_key(
            #[trigger] pairs[i].0,
        ) && map_of(pairs)[pairs[i].0] == pairs[i].1 by {
            if i < front.len() {
                assert(front[i] == pairs[i]);
                assert(pairs[i].0 != pairs[pairs.len() - 1].0);
            }
        }
        assert forall|k: Seq<char>| #[trigger] map_of(pairs).contains_key(k) implies exists|i: int|
            0 <= i < pairs.len() && #[trigger] pairs[i].0 == k by {
            if k == last.0 {
                assert(pairs[pairs.len() - 1].0 == k);
            } else {
                let i = choose|i: int| 0 <= i < front.len() && #[trigger] front[i].0 == k;
                assert(pairs[i].0 == k);
            }
        }
    }
}

/// Appending an entry inserts it into the map.
pub proof fn lemma_map_of_push(pairs: Seq<(Seq<char>, Seq<char>)>, entry: (Seq<char>, Seq<char>))
    ensures
        map_of(pairs.push(entry)) == map_of(pairs).insert(entry.0, entry.1),
{
    assert(pairs.push(entry).drop_last() =~= pairs);
}

/// Replacing the text of the one entry for a language inserts the new text into
/// the map.
pub proof fn lemma_map_of_update(
    pairs: Seq<(Seq<char>, Seq<char>)>,
    i: int,
    entry: (Seq<char>, Seq<char>),
)
    requires
        distinct_languages(pairs),
        0 <= i < pairs.len(),
        pairs[i].0 == entry.0,
    ensures
        map_of(pairs.update(i, entry)) == map_of(pairs).insert(entry.0, entry.1),
        distinct_languages(pairs.update(i, entry)),
    decreases pairs.len(),
{
    let front = pairs.drop_last();
    let last = pairs.last();
    let updated = pairs.update(i, entry);
    if i == pairs.len() - 1 {
        assert(updated.drop_last() =~= front);
        assert(map_of(updated) =~= map_of(pairs).insert(entry.0, entry.1));
    } else {
        assert(updated.drop_last() =~= front.update(i, entry));
        assert(front[i] == pairs[i]);
        lemma_map_of_update(front, i, entry);
        assert(pairs[i].0 != pairs[pairs.len() - 1].0);
        assert(map_of(updated) =~= map_of(pairs).insert(entry.0, entry.1));
    }
}

/// The entries of a list as `{:?}` prints those of a map: each as its language, a
/// colon and its text, both quoted, set apart by a comma and a space.
pub open spec fn entries_text(pairs: Seq<(Seq<char>, Seq<char>)>) -> Seq<char>
    decreases pairs.len(),
{
    if pairs.len() == 0 {
        Seq::empty()
    } else if pairs.len() == 1 {
        escaped(pairs[0].0) + ": "@ + escaped(pairs[0].1)
    } else {
        entries_text(pairs.drop_last()) + ", "@ + escaped(pairs.last().0) + ": "@ + escaped(
            pairs.last().1,
        )
    }
}

/// A list of entries as `{:?}` prints a map: the entries in curly brackets.
pub open spec fn map_text(pairs: Seq<(Seq<char>, Seq<char>)>) -> Seq<char> {
    "{"@ + entries_text(pairs) + "}"@
}

/// The entries of a list of strings, each as (language, text).
pub open spec fn pairs_of(entries: Seq<(String, String)>) -> Seq<(Seq<char>, Seq<char>)> {
    Seq::new(entries.len(), |i: int| (entries[i].0@, entries[i].1@))
}

fn position(entries: &Vec<(String, String)>, language: &String) -> (at: Option<usize>)
    ensures
        match at {
            Some(i) => i < entries@.len() && entries@[i as int].0@ == language@,
            None => forall|j: int| 0 <= j < entries@.len() ==> entries@[j].0@ != language@,
        },
{
    let mut i: usize = 0;
    while i < entries.len()
        invariant
            i <= entries@.len(),
            forall|j: int| 0 <= j < i ==> entries@[j].0@ != language@,
        decreases entries.len() - i,
    {
        if entries[i].0 == *language {
            return Some(i);
        }
        i += 1;
    }
    None
}

/// The translations of a result, by language code.
#[derive(Debug, PartialEq, Eq)]
pub struct Translations {
    entries: Vec<(String, String)>,
}

impl View for Translations {
    type V = Map<Seq<char>, Seq<char>>;

    closed spec fn view(&self) -> Map<Seq<char>, Seq<char>> {
        map_of(self.pairs())
    }
}

impl Translations {
    /// The entries as they are stored, each as (language, text).
    pub closed spec fn pairs(&self) -> Seq<(Seq<char>, Seq<char>)> {
        pairs_of(self.entries@)
    }

    #[verifier::type_invariant]
    spec fn no_language_twice(&self) -> bool {
        distinct_languages(self.pairs())
    }

    /// No translations.
    pub fn new() -> (t: Translations)
        ensures
            t@ == Map::<Seq<char>, Seq<char>>::empty(),
    {
        let t = Translations { entries: Vec::new() };
        assert(t.pairs() =~= Seq::empty());
        t
    }

    /// Stores `text` under `language`. A text already stored under that language
    /// is replaced.
    pub fn insert(&mut self, language: String, text: String)
        ensures
            final(self)@ == old(self)@.insert(language@, text@),
    {
        proof {
            use_type_invariant(&*self);
        }
        let ghost before = self.pairs();
        let ghost entry = (language@, text@);
        let mut taken = Translations { entries: Vec::new() };
        assert(taken.pairs() =~= Seq::empty());
        core::mem::swap(self, &mut taken);
        let mut entries = taken.entries;
        match position(&entries, &language) {
            Some(i) => {
                proof {
                    lemma_map_of_update(before, i as int, entry);
                }
                entries.set(i, (language, text));
                assert(pairs_of(entries@) =~= before.update(i as int, entry));
            },
            None => {
                proof {
                    lemma_map_of_push(before, entry);
                    assert forall|i: int, j: int| 0 <= i < j < before.push(entry).len() implies before.push(
                        entry,
                    )[i].0 != before.push(entry)[j].0 by {
                        if j == before.len() {
                            assert(before[i].0 == entries@[i].0@);
                        }
                    }
                }
                entries.push((language, text));
                assert(pairs_of(entries@) =~= before.push(entry));
            },
        }
        *self = Translations { entries };
    }

    /// The text stored under `language`, if there is one.
    pub fn get(&self, language: &str) -> (text: Option<&String>)
        ensures
            match text {
                Some(t) => self@.contains_key(language@) && t@ == self@[language@],
                None => !self@.contains_key(language@),
            },
    {
        proof {
            use_type_invariant(self);
            lemma_map_of_distinct(self.pairs());
        }
        let key = language.to_owned();
        match position(&self.entries, &key) {
            Some(i) => {
                assert(self.pairs()[i as int] == (self.entries@[i as int].0@, self.entries@[i as int].1@));
                Some(&self.entries[i].1)
            },
            None => {
                assert forall|j: int| 0 <= j < self.pairs().len() implies self.pairs()[j].0
                    != language@ by {
                    assert(self.pairs()[j].0 == self.entries@[j].0@);
                }
                None
            },
        }
    }

    /// The number of languages.
    pub fn len(&self) -> (n: usize)
        ensures
            self@.dom().finite(),
            n == self@.dom().len(),
    {
        proof {
            use_type_invariant(self);
            lemma_map_of_distinct(self.pairs());
        }
        self.entries.len()
    }

    /// Whether there is no translation.
    pub fn is_empty(&self) -> (b: bool)
        ensures
            b == (self@.dom().len() == 0),
            self@.dom().finite(),
    {
        self.len() == 0
    }

    /// Writes the translations as `{:?}` prints a map, in the order in which their
    /// languages were first inserted.
    pub fn debug_string(&self) -> (text: String)
        ensures
            text@ == map_text(self.pairs()),
    {
        let mut text: String = "{".to_owned();
        let mut i: usize = 0;
        while i < self.entries.len()
            invariant
                i <= self.entries@.len(),
                text@ == "{"@ + entries_text(pairs_of(self.entries@).take(i as int)),
            decreases self.entries.len() - i,
        {
            if i > 0 {
                text = text.concat(", ");
            }
            text = text.concat(format_quoted(self.entries[i].0.as_str()).as_str());
            text = text.concat(": ");
            text = text.concat(format_quoted(self.entries[i].1.as_str()).as_str());
            proof {
                let pairs = pairs_of(self.entries@);
                let taken = pairs.take(i + 1);
                assert(taken.drop_last() =~= pairs.take(i as int));
                assert(taken.last() == (self.entries@[i as int].0@, self.entries@[i as int].1@));
                if i == 0 {
                    assert(entries_text(pairs.take(0)) =~= Seq::empty());
                    assert(taken[0] == taken.last());
                    assert(text@ =~= "{"@ + entries_text(taken));
                } else {
                    assert(text@ =~= "{"@ + entries_text(taken));
                }
            }
            i += 1;
        }
        assert(pairs_of(self.entries@).take(i as int) =~= pairs_of(self.entries@));
        text.concat("}")
    }

    /// The stored entries, each as (language, text), in the order in which their
    /// languages were first inserted.
    pub fn entries(&self) -> (entries: &Vec<(String, String)>)
        ensures
            self@ == map_of(pairs_of(entries@)),
            distinct_languages(pairs_of(entries@)),
    {
        proof {
            use_type_invariant(self);
        }
        &self.entries
    }
}

} // verus!
