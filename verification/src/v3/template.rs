//! Dynamic template data: a map from text to JSON values that is kept in the
//! order of its keys.

use vstd::prelude::*;
use vstd::utf8::{encode_utf8, encode_utf8_decode_utf8};
use crate::json::{
    has_member, doc_of, lemma_members_of_index, lemma_members_of_push, members_of, JsonDoc,
    JsonValue, Members, ToJson,
};

verus! {

/// Whether `a` comes before `b`, byte by byte; a proper prefix comes first.
pub open spec fn bytes_lt(a: Seq<u8>, b: Seq<u8>) -> bool
    decreases a.len(),
{
    if b.len() == 0 {
        false
    } else if a.len() == 0 {
        true
    } else if a[0] != b[0] {
        a[0] < b[0]
    } else {
        bytes_lt(a.drop_first(), b.drop_first())
    }
}

/// Whether the key `a` comes before the key `b`: by the bytes of their UTF-8
/// text, which is how strings are ordered.
pub open spec fn key_lt(a: Seq<char>, b: Seq<char>) -> bool {
    bytes_lt(encode_utf8(a), encode_utf8(b))
}

/// Whether the keys of `members` rise from each member to the next, so that
/// none occurs twice.
pub open spec fn sorted(members: Members) -> bool {
    forall|i: int, j: int|
        0 <= i < j < members.len() ==> key_lt((#[trigger] members[i]).0, (#[trigger] members[j]).0)
}

/// The number of members whose key comes before `key`.
pub open spec fn rank(members: Members, key: Seq<char>) -> int
    decreases members.len(),
{
    if members.len() == 0 {
        0
    } else {
        rank(members.drop_last(), key) + if key_lt(members.last().0, key) {
            1int
        } else {
            0int
        }
    }
}

/// Sorted `members` after `key` was given `value`: a member with that key
/// takes the new value, a new key goes where the order has it.
pub open spec fn placed(members: Members, key: Seq<char>, value: JsonDoc) -> Members {
    let at = rank(members, key);
    if at < members.len() && members[at].0 == key {
        members.update(at, (key, value))
    } else {
        members.insert(at, (key, value))
    }
}

/// Sorted `members` after each of `more` was placed, first to last.
pub open spec fn merged(members: Members, more: Members) -> Members
    decreases more.len(),
{
    if more.len() == 0 {
        members
    } else {
        placed(merged(members, more.drop_last()), more.last().0, more.last().1)
    }
}

/// No sequence of bytes comes before itself.
pub proof fn lemma_bytes_lt_irreflexive(a: Seq<u8>)
    ensures
        !bytes_lt(a, a),
    decreases a.len(),
{
    if a.len() > 0 {
        lemma_bytes_lt_irreflexive(a.drop_first());
    }
}

/// Of two different sequences of bytes, one comes before the other.
pub proof fn lemma_bytes_lt_total(a: Seq<u8>, b: Seq<u8>)
    ensures
        bytes_lt(a, b) || bytes_lt(b, a) || a == b,
        !(bytes_lt(a, b) && bytes_lt(b, a)),
    decreases a.len(),
{
    if a.len() == 0 || b.len() == 0 {
        if a.len() == 0 && b.len() == 0 {
            assert(a =~= b);
        }
    } else if a[0] == b[0] {
        lemma_bytes_lt_total(a.drop_first(), b.drop_first());
        if a.drop_first() == b.drop_first() {
            assert(a =~= seq![a[0]] + a.drop_first());
            assert(b =~= seq![b[0]] + b.drop_first());
        }
    }
}

/// What comes before something that comes before `c` comes before `c`.
pub proof fn lemma_bytes_lt_transitive(a: Seq<u8>, b: Seq<u8>, c: Seq<u8>)
    requires
        bytes_lt(a, b),
        bytes_lt(b, c),
    ensures
        bytes_lt(a, c),
    decreases a.len(),
{
    if a.len() > 0 && a[0] == b[0] && b[0] == c[0] {
        lemma_bytes_lt_transitive(a.drop_first(), b.drop_first(), c.drop_first());
    }
}

/// Of two different keys, one comes before the other, and never both.
pub proof fn lemma_key_lt_total(a: Seq<char>, b: Seq<char>)
    ensures
        key_lt(a, b) || key_lt(b, a) || a == b,
        !(key_lt(a, b) && key_lt(b, a)),
        !key_lt(a, a),
{
    lemma_bytes_lt_total(encode_utf8(a), encode_utf8(b));
    lemma_bytes_lt_irreflexive(encode_utf8(a));
    encode_utf8_decode_utf8(a);
    encode_utf8_decode_utf8(b);
}

/// The order of keys is transitive.
pub proof fn lemma_key_lt_transitive(a: Seq<char>, b: Seq<char>, c: Seq<char>)
    requires
        key_lt(a, b),
        key_lt(b, c),
    ensures
        key_lt(a, c),
{
    lemma_bytes_lt_transitive(encode_utf8(a), encode_utf8(b), encode_utf8(c));
}

/// In sorted members, the first `at` keys come before `key` and the others do
/// not: then `at` is the rank of `key`.
pub proof fn lemma_rank_is(members: Members, key: Seq<char>, at: int)
    requires
        0 <= at <= members.len(),
        forall|j: int| 0 <= j < at ==> key_lt((#[trigger] members[j]).0, key),
        forall|j: int| at <= j < members.len() ==> !key_lt((#[trigger] members[j]).0, key),
    ensures
        rank(members, key) == at,
    decreases members.len(),
{
    if members.len() > 0 {
        let shorter = members.drop_last();
        if at == members.len() {
            lemma_rank_is(shorter, key, at - 1);
        } else {
            lemma_rank_is(shorter, key, at);
        }
    }
}

/// Placing a key in sorted members leaves them sorted.
pub proof fn lemma_placed_sorted(members: Members, key: Seq<char>, value: JsonDoc)
    requires
        sorted(members),
    ensures
        sorted(placed(members, key, value)),
    decreases members.len(),
{
    let at = rank(members, key);
    lemma_rank_splits(members, key);
    let after = placed(members, key, value);
    if at < members.len() && members[at].0 == key {
        assert forall|i: int, j: int| 0 <= i < j < after.len() implies key_lt(
            (#[trigger] after[i]).0,
            (#[trigger] after[j]).0,
        ) by {
            assert(after[i].0 == members[i].0);
            assert(after[j].0 == members[j].0);
        }
    } else {
        assert forall|i: int, j: int| 0 <= i < j < after.len() implies key_lt(
            (#[trigger] after[i]).0,
            (#[trigger] after[j]).0,
        ) by {
            if j < at {
                assert(after[i] == members[i] && after[j] == members[j]);
            } else if j == at {
                assert(after[i] == members[i]);
            } else if i == at {
                assert(after[j] == members[j - 1]);
                lemma_key_lt_total(members[j - 1].0, key);
                if j - 1 > at {
                    lemma_key_lt_total(members[at].0, key);
                    assert(key_lt(members[at].0, members[j - 1].0));
                    lemma_key_lt_transitive(key, members[at].0, members[j - 1].0);
                }
            } else if i < at {
                assert(after[i] == members[i] && after[j] == members[j - 1]);
            } else {
                assert(after[i] == members[i - 1] && after[j] == members[j - 1]);
            }
        }
    }
}

/// In sorted members, exactly the first `rank` keys come before `key`.
pub proof fn lemma_rank_splits(members: Members, key: Seq<char>)
    requires
        sorted(members),
    ensures
        0 <= rank(members, key) <= members.len(),
        forall|j: int| 0 <= j < rank(members, key) ==> key_lt((#[trigger] members[j]).0, key),
        forall|j: int|
            rank(members, key) <= j < members.len() ==> !key_lt((#[trigger] members[j]).0, key),
    decreases members.len(),
{
    if members.len() > 0 {
        let shorter = members.drop_last();
        assert(sorted(shorter)) by {
            assert forall|i: int, j: int| 0 <= i < j < shorter.len() implies key_lt(
                (#[trigger] shorter[i]).0,
                (#[trigger] shorter[j]).0,
            ) by {
                assert(shorter[i] == members[i] && shorter[j] == members[j]);
            }
        }
        lemma_rank_splits(shorter, key);
        let last = members.len() - 1;
        let r = rank(shorter, key);
        assert forall|j: int| 0 <= j < shorter.len() implies shorter[j] == members[j] by {}
        if key_lt(members[last].0, key) {
            assert forall|j: int| 0 <= j < last implies key_lt((#[trigger] members[j]).0, key) by {
                assert(key_lt(members[j].0, members[last].0));
                lemma_key_lt_transitive(members[j].0, members[last].0, key);
            }
            if r < last {
                assert(shorter[r] == members[r]);
                assert(!key_lt(shorter[r].0, key));
            }
            assert(r == last);
        }
        assert forall|j: int| 0 <= j < rank(members, key) implies key_lt(
            (#[trigger] members[j]).0,
            key,
        ) by {
            if j < last {
                assert(shorter[j] == members[j]);
            }
        }
        assert forall|j: int| rank(members, key) <= j < members.len() implies !key_lt(
            (#[trigger] members[j]).0,
            key,
        ) by {
            if j < last {
                assert(shorter[j] == members[j]);
            }
        }
    }
}

/// Merging into sorted members leaves them sorted.
pub proof fn lemma_merged_sorted(members: Members, more: Members)
    requires
        sorted(members),
    ensures
        sorted(merged(members, more)),
    decreases more.len(),
{
    if more.len() > 0 {
        lemma_merged_sorted(members, more.drop_last());
        lemma_placed_sorted(merged(members, more.drop_last()), more.last().0, more.last().1);
    }
}

/// After a key was placed, it stands among the members with the value given,
/// and every other key stands there if and only if it did before.
pub proof fn lemma_placed_members(members: Members, key: Seq<char>, value: JsonDoc)
    requires
        sorted(members),
    ensures
        exists|i: int|
            0 <= i < placed(members, key, value).len() && #[trigger] placed(members, key, value)[i]
                == (key, value),
        forall|other: Seq<char>|
            has_member(placed(members, key, value), other) <==> other == key || has_member(
                members,
                other,
            ),
{
    lemma_rank_splits(members, key);
    let at = rank(members, key);
    let after = placed(members, key, value);
    assert(after[at] == (key, value));
    assert forall|other: Seq<char>|
        has_member(after, other) <==> other == key || has_member(members, other) by {
        if has_member(members, other) && other != key {
            let i = choose|i: int| 0 <= i < members.len() && (#[trigger] members[i]).0 == other;
            if at < members.len() && members[at].0 == key {
                assert(after[i].0 == other);
            } else if i < at {
                assert(after[i].0 == other);
            } else {
                assert(after[i + 1].0 == other);
            }
        }
        if has_member(after, other) && other != key {
            let i = choose|i: int| 0 <= i < after.len() && (#[trigger] after[i]).0 == other;
            if at < members.len() && members[at].0 == key {
                assert(members[i].0 == other);
            } else if i < at {
                assert(members[i].0 == other);
            } else {
                assert(members[i - 1].0 == other);
            }
        }
        if other == key {
            assert(after[at].0 == other);
        }
    }
}

/// After a merge, every key that was given stands among the members, and so
/// does every key that stood there before.
pub proof fn lemma_merged_members(members: Members, more: Members)
    requires
        sorted(members),
    ensures
        forall|key: Seq<char>|
            has_member(merged(members, more), key) <==> has_member(members, key) || has_member(
                more,
                key,
            ),
    decreases more.len(),
{
    if more.len() > 0 {
        let shorter = more.drop_last();
        lemma_merged_members(members, shorter);
        lemma_merged_sorted(members, shorter);
        lemma_placed_members(merged(members, shorter), more.last().0, more.last().1);
        assert forall|key: Seq<char>|
            has_member(merged(members, more), key) <==> has_member(members, key) || has_member(
                more,
                key,
            ) by {
            if has_member(more, key) {
                let i = choose|i: int| 0 <= i < more.len() && (#[trigger] more[i]).0 == key;
                if i < more.len() - 1 {
                    assert(shorter[i].0 == key);
                }
            }
            if has_member(shorter, key) {
                let i = choose|i: int| 0 <= i < shorter.len() && (#[trigger] shorter[i]).0 == key;
                assert(more[i].0 == key);
            }
            if key == more.last().0 {
                assert(more[more.len() - 1].0 == key);
            }
        }
    }
}

/// How one key stands to another.
pub enum KeyOrder {
    Before,
    Same,
    After,
}

/// Tells how the key `a` stands to the key `b`.
pub fn key_order(a: &str, b: &str) -> (r: KeyOrder)
    ensures
        r is Before <==> key_lt(a@, b@),
        r is Same <==> a@ == b@,
        r is After <==> key_lt(b@, a@),
{
    let x = a.as_bytes();
    let y = b.as_bytes();
    proof {
        lemma_key_lt_total(a@, b@);
        lemma_key_lt_total(b@, a@);
    }
    let mut i: usize = 0;
    assert(x@.skip(0) =~= x@ && y@.skip(0) =~= y@);
    while i < x.len() && i < y.len()
        invariant
            i <= x@.len(),
            i <= y@.len(),
            x@ == encode_utf8(a@),
            y@ == encode_utf8(b@),
            bytes_lt(x@, y@) == bytes_lt(x@.skip(i as int), y@.skip(i as int)),
            bytes_lt(y@, x@) == bytes_lt(y@.skip(i as int), x@.skip(i as int)),
        decreases x@.len() - i,
    {
        proof {
            assert(x@.skip(i as int)[0] == x@[i as int]);
            assert(y@.skip(i as int)[0] == y@[i as int]);
            assert(x@.skip(i as int).drop_first() =~= x@.skip(i as int + 1));
            assert(y@.skip(i as int).drop_first() =~= y@.skip(i as int + 1));
        }
        if x[i] < y[i] {
            return KeyOrder::Before;
        }
        if x[i] > y[i] {
            return KeyOrder::After;
        }
        i = i + 1;
    }
    proof {
        assert(x@.skip(i as int).len() == x@.len() - i);
        assert(y@.skip(i as int).len() == y@.len() - i);
    }
    if i < y.len() {
        KeyOrder::Before
    } else if i < x.len() {
        KeyOrder::After
    } else {
        KeyOrder::Same
    }
}

/// Dynamic template data: JSON values under text keys, kept in the order of
/// the keys, each key once.
#[derive(Debug)]
pub struct TemplateData {
    entries: Vec<(String, JsonValue)>,
}

impl View for TemplateData {
    type V = Members;

    closed spec fn view(&self) -> Members {
        members_of(self.entries@)
    }
}

impl TemplateData {
    #[verifier::type_invariant]
    spec fn keys_rise(self) -> bool {
        sorted(members_of(self.entries@))
    }

    /// Template data without a member.
    pub fn new() -> (r: TemplateData)
        ensures
            r@ == Members::empty(),
    {
        let r = TemplateData { entries: Vec::new() };
        assert(members_of(r.entries@) =~= Members::empty());
        r
    }

    /// The number of members. Their keys rise from each to the next.
    pub fn len(&self) -> (n: usize)
        ensures
            n == self@.len(),
            sorted(self@),
    {
        proof {
            use_type_invariant(self);
            lemma_members_of_index(self.entries@);
        }
        self.entries.len()
    }

    /// Gives `key` the value `value`. A key that is there keeps its place; a
    /// new one goes where the order of the keys has it.
    pub fn insert(&mut self, key: String, value: JsonValue)
        ensures
            final(self)@ == placed(old(self)@, key@, value@),
    {
        proof {
            use_type_invariant(&*self);
        }
        let ghost before = self@;
        let mut entries: Vec<(String, JsonValue)> = Vec::new();
        assert(members_of(entries@) =~= Members::empty());
        std::mem::swap(&mut self.entries, &mut entries);
        proof {
            lemma_members_of_index(entries@);
            lemma_placed_sorted(before, key@, value@);
        }
        let mut at: usize = 0;
        let mut same = false;
        while at < entries.len()
            invariant_except_break
                !same,
            invariant
                at <= entries.len(),
                before == members_of(entries@),
                before.len() == entries@.len(),
                forall|j: int| 0 <= j < entries@.len() ==> (#[trigger] before[j]).0 == entries@[j].0@,
                forall|j: int| 0 <= j < at ==> key_lt((#[trigger] before[j]).0, key@),
            ensures
                at <= entries.len(),
                forall|j: int| 0 <= j < at ==> key_lt((#[trigger] before[j]).0, key@),
                at < entries.len() ==> !key_lt(before[at as int].0, key@),
                same <==> at < entries.len() && before[at as int].0 == key@,
            decreases entries.len() - at,
        {
            match key_order(entries[at].0.as_str(), key.as_str()) {
                KeyOrder::Before => {
                    at = at + 1;
                },
                KeyOrder::Same => {
                    proof {
                        lemma_key_lt_total(key@, key@);
                    }
                    same = true;
                    break ;
                },
                KeyOrder::After => {
                    proof {
                        lemma_key_lt_total(before[at as int].0, key@);
                    }
                    break ;
                },
            }
        }
        proof {
            assert forall|j: int| at <= j < before.len() implies !key_lt(
                (#[trigger] before[j]).0,
                key@,
            ) by {
                if j > at {
                    assert(key_lt(before[at as int].0, before[j].0));
                    if key_lt(before[j].0, key@) {
                        lemma_key_lt_transitive(before[at as int].0, before[j].0, key@);
                    }
                }
            }
            lemma_rank_is(before, key@, at as int);
        }
        let ghost target = placed(before, key@, value@);
        let ghost unchanged = entries@;
        if same {
            entries[at] = (key, value);
        } else {
            entries.insert(at, (key, value));
        }
        proof {
            lemma_members_of_index(unchanged);
            lemma_members_of_index(entries@);
            assert(members_of(entries@).len() == target.len());
            assert forall|j: int| 0 <= j < target.len() implies members_of(entries@)[j]
                == target[j] by {
                let e = entries@[j];
                if j < at {
                    assert(e == unchanged[j]);
                } else if j > at {
                    if same {
                        assert(e == unchanged[j]);
                    } else {
                        assert(e == unchanged[j - 1]);
                    }
                }
            }
            assert(members_of(entries@) =~= target);
        }
        self.entries = entries;
    }

    /// Places each member of the object `members`, first to last.
    pub fn merge(&mut self, members: &Vec<(String, JsonValue)>)
        ensures
            final(self)@ == merged(old(self)@, members_of(members@)),
    {
        let ghost before = self@;
        let ghost more = members_of(members@);
        proof {
            lemma_members_of_index(members@);
            assert(more.take(0) =~= Members::empty());
        }
        let mut i: usize = 0;
        while i < members.len()
            invariant
                i <= members.len(),
                more == members_of(members@),
                more.len() == members@.len(),
                forall|j: int|
                    0 <= j < members@.len() ==> #[trigger] more[j] == (members@[j].0@, doc_of(
                        members@[j].1,
                    )),
                self@ == merged(before, more.take(i as int)),
            decreases members.len() - i,
        {
            let key = members[i].0.clone();
            let value = members[i].1.copy();
            proof {
                let next = more.take(i as int + 1);
                assert(next.drop_last() =~= more.take(i as int));
                assert(next.last() == (key@, value@));
            }
            self.insert(key, value);
            i = i + 1;
        }
        assert(more.take(more.len() as int) =~= more);
    }
}

impl ToJson for TemplateData {
    open spec fn doc(&self) -> JsonDoc {
        JsonDoc::Object(self@)
    }

    fn to_json(&self) -> (v: JsonValue) {
        let mut members: Vec<(String, JsonValue)> = Vec::new();
        let mut i: usize = 0;
        proof {
            lemma_members_of_index(self.entries@);
            assert(members_of(members@) =~= self@.take(0));
        }
        while i < self.entries.len()
            invariant
                i <= self.entries.len(),
                self@.len() == self.entries@.len(),
                forall|j: int|
                    0 <= j < self.entries@.len() ==> #[trigger] self@[j] == (
                        self.entries@[j].0@,
                        doc_of(self.entries@[j].1),
                    ),
                members_of(members@) == self@.take(i as int),
            decreases self.entries.len() - i,
        {
            let key = self.entries[i].0.clone();
            let value = self.entries[i].1.copy();
            proof {
                lemma_members_of_push(members@, (key, value));
                assert(self@.take(i as int).push((key@, doc_of(value))) =~= self@.take(
                    i as int + 1,
                ));
            }
            members.push((key, value));
            i = i + 1;
        }
        assert(self@.take(self@.len() as int) =~= self@);
        JsonValue::Object(members)
    }
}

} // verus!
