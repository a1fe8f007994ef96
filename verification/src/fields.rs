//! The field container: a map from text to text that remembers the order in
//! which its keys first came.

use vstd::prelude::*;
use crate::json::{doc_of, lemma_members_of_push, members_of, JsonDoc, JsonValue};

verus! {

/// The entries of a field container: key and value, in order.
pub type Pairs = Seq<(Seq<char>, Seq<char>)>;

/// Whether some entry of `pairs` has the key `key`.
pub open spec fn has_key(pairs: Pairs, key: Seq<char>) -> bool {
    exists|i: int| 0 <= i < pairs.len() && (#[trigger] pairs[i]).0 == key
}

/// Whether no key occurs twice in `pairs`.
pub open spec fn distinct_keys(pairs: Pairs) -> bool {
    forall|i: int, j: int|
        0 <= i < j < pairs.len() ==> (#[trigger] pairs[i]).0 != (#[trigger] pairs[j]).0
}

/// `pairs` after `key` was given `value`: an entry with that key keeps its
/// place and takes the new value; a new key goes to the end.
pub open spec fn inserted(pairs: Pairs, key: Seq<char>, value: Seq<char>) -> Pairs {
    if has_key(pairs, key) {
        let i = choose|i: int| 0 <= i < pairs.len() && (#[trigger] pairs[i]).0 == key;
        pairs.update(i, (key, value))
    } else {
        pairs.push((key, value))
    }
}

/// `pairs` after each entry of `more` was inserted, first to last.
pub open spec fn extended(pairs: Pairs, more: Pairs) -> Pairs
    decreases more.len(),
{
    if more.len() == 0 {
        pairs
    } else {
        inserted(extended(pairs, more.drop_last()), more.last().0, more.last().1)
    }
}

/// The members of the JSON object for `pairs`: each value a string.
pub open spec fn text_members(pairs: Pairs) -> Seq<(Seq<char>, JsonDoc)> {
    pairs.map_values(|e: (Seq<char>, Seq<char>)| (e.0, JsonDoc::Str(e.1)))
}

/// The views of `entries`, in order.
pub open spec fn pairs_of(entries: Seq<(String, String)>) -> Pairs {
    entries.map_values(|e: (String, String)| (e.0@, e.1@))
}

/// Inserting keeps the keys distinct.
pub proof fn lemma_inserted_distinct(pairs: Pairs, key: Seq<char>, value: Seq<char>)
    requires
        distinct_keys(pairs),
    ensures
        distinct_keys(inserted(pairs, key, value)),
        has_key(inserted(pairs, key, value), key),
{
    let after = inserted(pairs, key, value);
    if has_key(pairs, key) {
        let i = choose|i: int| 0 <= i < pairs.len() && (#[trigger] pairs[i]).0 == key;
        assert(after[i].0 == key);
        assert forall|a: int, b: int| 0 <= a < b < after.len() implies (#[trigger] after[a]).0 != (
        #[trigger] after[b]).0 by {
            assert(after[a].0 == pairs[a].0);
            assert(after[b].0 == pairs[b].0);
        }
    } else {
        assert(after[pairs.len() as int].0 == key);
        assert forall|a: int, b: int| 0 <= a < b < after.len() implies (#[trigger] after[a]).0 != (
        #[trigger] after[b]).0 by {
            assert(after[a] == pairs[a]);
            if b < pairs.len() {
                assert(after[b] == pairs[b]);
            }
        }
    }
}

/// A map from text to text. Its entries stand in the order in which their
/// keys were first inserted, and no key occurs twice.
#[derive(Debug)]
pub struct SGMap {
    entries: Vec<(String, String)>,
}

impl View for SGMap {
    type V = Pairs;

    closed spec fn view(&self) -> Pairs {
        pairs_of(self.entries@)
    }
}

impl SGMap {
    #[verifier::type_invariant]
    spec fn keys_are_distinct(self) -> bool {
        distinct_keys(pairs_of(self.entries@))
    }

    /// An empty map.
    pub fn new() -> (m: SGMap)
        ensures
            m@ == Pairs::empty(),
    {
        let m = SGMap { entries: Vec::new() };
        assert(pairs_of(m.entries@) =~= Pairs::empty());
        m
    }

    /// The number of entries. No key occurs twice among them.
    pub fn len(&self) -> (n: usize)
        ensures
            n == self@.len(),
            distinct_keys(self@),
    {
        proof {
            use_type_invariant(self);
        }
        self.entries.len()
    }

    /// Whether the map has no entry.
    pub fn is_empty(&self) -> (b: bool)
        ensures
            b == (self@.len() == 0),
    {
        self.entries.len() == 0
    }

    /// The key of the entry at `i`.
    pub fn key_at(&self, i: usize) -> (k: &str)
        requires
            i < self@.len(),
        ensures
            k@ == self@[i as int].0,
    {
        self.entries[i].0.as_str()
    }

    /// The value of the entry at `i`.
    pub fn value_at(&self, i: usize) -> (v: &str)
        requires
            i < self@.len(),
        ensures
            v@ == self@[i as int].1,
    {
        self.entries[i].1.as_str()
    }

    /// The place of `key` among the entries, if it has one.
    pub fn position(&self, key: &str) -> (r: Option<usize>)
        ensures
            r is Some <==> has_key(self@, key@),
            r matches Some(i) ==> i < self@.len() && self@[i as int].0 == key@,
    {
        let mut i: usize = 0;
        while i < self.entries.len()
            invariant
                i <= self.entries.len(),
                forall|j: int| 0 <= j < i ==> (#[trigger] pairs_of(self.entries@)[j]).0 != key@,
            decreases self.entries.len() - i,
        {
            if str_eq(self.entries[i].0.as_str(), key) {
                assert(pairs_of(self.entries@)[i as int].0 == key@);
                return Some(i);
            }
            i = i + 1;
        }
        None
    }

    /// The value that `key` has, if any.
    pub fn get(&self, key: &str) -> (r: Option<&str>)
        ensures
            r is Some <==> has_key(self@, key@),
            r matches Some(v) ==> exists|i: int|
                0 <= i < self@.len() && #[trigger] self@[i] == (key@, v@),
    {
        match self.position(key) {
            Some(i) => {
                let v = self.entries[i].1.as_str();
                assert(self@[i as int] == (key@, v@));
                Some(v)
            },
            None => None,
        }
    }

    /// Gives `key` the value `value`. A key that the map holds keeps its place;
    /// a new one goes to the end.
    pub fn insert(&mut self, key: String, value: String)
        ensures
            final(self)@ == inserted(old(self)@, key@, value@),
    {
        proof {
            use_type_invariant(&*self);
        }
        let ghost before = self@;
        let found = self.position(key.as_str());
        let mut entries: Vec<(String, String)> = Vec::new();
        assert(distinct_keys(pairs_of(entries@)));
        std::mem::swap(&mut self.entries, &mut entries);
        proof {
            lemma_inserted_distinct(before, key@, value@);
        }
        match found {
            Some(i) => {
                proof {
                    let c = choose|c: int| 0 <= c < before.len() && (#[trigger] before[c]).0 == key@;
                    assert(c == i) by {
                        if c < i {
                            assert(before[c].0 != before[i as int].0);
                        } else if i < c {
                            assert(before[i as int].0 != before[c].0);
                        }
                    }
                }
                entries[i] = (key, value);
            },
            None => {
                entries.push((key, value));
            },
        }
        assert(pairs_of(entries@) =~= inserted(before, key@, value@));
        self.entries = entries;
    }

    /// The map as a JSON object: one member for each entry, in order, each
    /// value a string.
    pub fn to_json(&self) -> (v: JsonValue)
        ensures
            v@ == JsonDoc::Object(text_members(self@)),
    {
        let mut members: Vec<(String, JsonValue)> = Vec::new();
        let mut i: usize = 0;
        assert(members_of(members@) =~= text_members(self@).take(0));
        while i < self.entries.len()
            invariant
                i <= self.entries.len(),
                members_of(members@) == text_members(self@).take(i as int),
            decreases self.entries.len() - i,
        {
            let ghost filled = members@;
            let key = self.entries[i].0.clone();
            let value = JsonValue::Str(self.entries[i].1.clone());
            proof {
                lemma_members_of_push(filled, (key, value));
                assert(doc_of(value) == JsonDoc::Str(self@[i as int].1));
                assert(text_members(self@).take(i as int).push((key@, doc_of(value)))
                    =~= text_members(self@).take(i as int + 1));
            }
            members.push((key, value));
            i = i + 1;
        }
        assert(text_members(self@).take(self@.len() as int) =~= text_members(self@));
        JsonValue::Object(members)
    }

    /// Inserts each entry of `other`, first to last.
    pub fn extend(&mut self, other: SGMap)
        ensures
            final(self)@ == extended(old(self)@, other@),
    {
        let ghost before = self@;
        let mut i: usize = 0;
        assert(other@.take(0) =~= Pairs::empty());
        while i < other.entries.len()
            invariant
                i <= other.entries.len(),
                self@ == extended(before, other@.take(i as int)),
            decreases other.entries.len() - i,
        {
            let key = other.entries[i].0.clone();
            let value = other.entries[i].1.clone();
            proof {
                let next = other@.take(i as int + 1);
                assert(next.drop_last() =~= other@.take(i as int));
                assert(next.last() == (key@, value@));
            }
            self.insert(key, value);
            i = i + 1;
        }
        assert(other@.take(other@.len() as int) =~= other@);
    }
}

impl Clone for SGMap {
    fn clone(&self) -> (m: SGMap)
        ensures
            m@ == self@,
    {
        proof {
            use_type_invariant(self);
        }
        let mut entries: Vec<(String, String)> = Vec::new();
        let mut i: usize = 0;
        while i < self.entries.len()
            invariant
                i <= self.entries.len(),
                pairs_of(entries@) == pairs_of(self.entries@).take(i as int),
            decreases self.entries.len() - i,
        {
            let ghost copied = entries@;
            entries.push((self.entries[i].0.clone(), self.entries[i].1.clone()));
            assert(entries@ == copied.push(self.entries@[i as int]));
            assert(pairs_of(copied).len() == i);
            assert(pairs_of(entries@) =~= pairs_of(copied).push(pairs_of(self.entries@)[i as int]));
            assert(pairs_of(entries@) =~= pairs_of(self.entries@).take(i as int + 1));
            i = i + 1;
        }
        assert(pairs_of(self.entries@).take(self.entries@.len() as int) =~= pairs_of(
            self.entries@,
        ));
        SGMap { entries }
    }
}

impl Default for SGMap {
    fn default() -> (m: SGMap)
        ensures
            m@ == Pairs::empty(),
    {
        SGMap::new()
    }
}

/// Whether two strings hold the same text.
pub fn str_eq(a: &str, b: &str) -> (r: bool)
    ensures
        r == (a@ == b@),
{
    a.to_owned() == b.to_owned()
}

} // verus!
