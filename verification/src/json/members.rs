//! The members of JSON objects: how the parts of a message put theirs
//! together, and what holds of the result.

use vstd::prelude::*;
use crate::json::{
    doc_of, docs_of, lemma_docs_of_push, lemma_members_of_push, members_of, JsonDoc, JsonValue,
};

verus! {

/// The members of an object.
pub type Members = Seq<(Seq<char>, JsonDoc)>;

/// The one member `key` with the value `value`.
pub open spec fn field(key: Seq<char>, value: JsonDoc) -> Members {
    seq![(key, value)]
}

/// The member `key` where there is a value, and no member where there is none.
pub open spec fn optional(key: Seq<char>, value: Option<JsonDoc>) -> Members {
    match value {
        Some(doc) => seq![(key, doc)],
        None => Seq::empty(),
    }
}

/// Whether a member of `members` has the key `key`.
pub open spec fn has_member(members: Members, key: Seq<char>) -> bool {
    exists|i: int| 0 <= i < members.len() && (#[trigger] members[i]).0 == key
}

/// The string `s`, where there is one.
pub open spec fn opt_str(s: Option<Seq<char>>) -> Option<JsonDoc> {
    match s {
        Some(text) => Some(JsonDoc::Str(text)),
        None => None,
    }
}

/// The truth value `b`, where there is one.
pub open spec fn opt_bool(b: Option<bool>) -> Option<JsonDoc> {
    match b {
        Some(value) => Some(JsonDoc::Bool(value)),
        None => None,
    }
}

/// The text of `s`, where there is one.
pub open spec fn opt_text(s: Option<String>) -> Option<Seq<char>> {
    match s {
        Some(text) => Some(text@),
        None => None,
    }
}

/// An array of strings.
pub open spec fn strings_doc(items: Seq<Seq<char>>) -> JsonDoc {
    JsonDoc::Array(items.map_values(|s: Seq<char>| JsonDoc::Str(s)))
}

/// A value that has a JSON document.
pub trait ToJson {
    /// The document of the value.
    spec fn doc(&self) -> JsonDoc;

    /// Builds the document of the value.
    fn to_json(&self) -> (v: JsonValue)
        ensures
            v@ == self.doc(),
    ;
}

/// The documents of `items`, in order.
pub open spec fn docs<T: ToJson>(items: Seq<T>) -> Seq<JsonDoc> {
    items.map_values(|t: T| t.doc())
}

/// Adds the member `key` with the value `value` at the end.
pub fn put(members: &mut Vec<(String, JsonValue)>, key: &str, value: JsonValue)
    ensures
        members_of(final(members)@) == members_of(old(members)@) + field(key@, value@),
{
    let owned = key.to_owned();
    proof {
        lemma_members_of_push(members@, (owned, value));
        assert(members_of(members@).push((key@, value@)) =~= members_of(members@) + field(
            key@,
            value@,
        ));
    }
    members.push((owned, value));
}

/// Adds the member `key` with the string `value`, where there is one.
pub fn put_opt_str(members: &mut Vec<(String, JsonValue)>, key: &str, value: &Option<String>)
    ensures
        members_of(final(members)@) == members_of(old(members)@) + optional(
            key@,
            opt_str(opt_text(*value)),
        ),
{
    match value {
        Some(text) => {
            put(members, key, JsonValue::Str(text.clone()));
        },
        None => {
            assert(members_of(members@) + Members::empty() =~= members_of(members@));
        },
    }
}

/// Adds the member `key` with the truth value `value`, where there is one.
pub fn put_opt_bool(members: &mut Vec<(String, JsonValue)>, key: &str, value: Option<bool>)
    ensures
        members_of(final(members)@) == members_of(old(members)@) + optional(key@, opt_bool(value)),
{
    match value {
        Some(b) => {
            put(members, key, JsonValue::Bool(b));
        },
        None => {
            assert(members_of(members@) + Members::empty() =~= members_of(members@));
        },
    }
}

/// The array of the documents of `items`.
pub fn array_of<T: ToJson>(items: &Vec<T>) -> (v: JsonValue)
    ensures
        v@ == JsonDoc::Array(docs(items@)),
{
    let mut values: Vec<JsonValue> = Vec::new();
    let mut i: usize = 0;
    assert(docs_of(values@) =~= docs(items@).take(0));
    while i < items.len()
        invariant
            i <= items.len(),
            docs_of(values@) == docs(items@).take(i as int),
        decreases items.len() - i,
    {
        let value = items[i].to_json();
        proof {
            lemma_docs_of_push(values@, value);
            assert(docs(items@).take(i as int).push(doc_of(value)) =~= docs(items@).take(
                i as int + 1,
            ));
        }
        values.push(value);
        i = i + 1;
    }
    assert(docs(items@).take(items@.len() as int) =~= docs(items@));
    JsonValue::Array(values)
}

/// The array of the strings `items`.
pub fn array_of_strings(items: &Vec<String>) -> (v: JsonValue)
    ensures
        v@ == strings_doc(items@.map_values(|s: String| s@)),
{
    let ghost texts = items@.map_values(|s: String| s@);
    let ghost target = texts.map_values(|s: Seq<char>| JsonDoc::Str(s));
    let mut values: Vec<JsonValue> = Vec::new();
    let mut i: usize = 0;
    assert(docs_of(values@) =~= target.take(0));
    while i < items.len()
        invariant
            i <= items.len(),
            texts == items@.map_values(|s: String| s@),
            target == texts.map_values(|s: Seq<char>| JsonDoc::Str(s)),
            docs_of(values@) == target.take(i as int),
        decreases items.len() - i,
    {
        let value = JsonValue::Str(items[i].clone());
        proof {
            lemma_docs_of_push(values@, value);
            assert(target.take(i as int).push(doc_of(value)) =~= target.take(i as int + 1));
        }
        values.push(value);
        i = i + 1;
    }
    assert(target.take(items@.len() as int) =~= target);
    JsonValue::Array(values)
}

/// The document of `value`, where there is one.
pub open spec fn opt_doc<T: ToJson>(value: Option<T>) -> Option<JsonDoc> {
    match value {
        Some(t) => Some(t.doc()),
        None => None,
    }
}

/// Adds the member `key` with the document of `value`, where there is one.
pub fn put_opt<T: ToJson>(members: &mut Vec<(String, JsonValue)>, key: &str, value: &Option<T>)
    ensures
        members_of(final(members)@) == members_of(old(members)@) + optional(key@, opt_doc(*value)),
{
    match value {
        Some(t) => {
            put(members, key, t.to_json());
        },
        None => {
            assert(members_of(members@) + Members::empty() =~= members_of(members@));
        },
    }
}

/// The object with the one member `enable`.
pub open spec fn enable_doc(enable: bool) -> JsonDoc {
    JsonDoc::Object(field("enable"@, JsonDoc::Bool(enable)))
}

/// Builds the object with the one member `enable`.
pub fn enable_json(enable: bool) -> (v: JsonValue)
    ensures
        v@ == enable_doc(enable),
{
    let mut members: Vec<(String, JsonValue)> = Vec::new();
    assert(members_of(members@) =~= Members::empty());
    put(&mut members, "enable", JsonValue::Bool(enable));
    assert(members_of(members@) =~= field("enable"@, JsonDoc::Bool(enable)));
    JsonValue::Object(members)
}

/// Whether no member of `members` is null.
pub open spec fn no_null_member(members: Members) -> bool {
    forall|i: int| 0 <= i < members.len() ==> !((#[trigger] members[i]).1 is Null)
}

/// A key stands in two lists of members put together if it stands in one of them.
pub proof fn lemma_has_member_concat(a: Members, b: Members, key: Seq<char>)
    ensures
        has_member(a + b, key) <==> has_member(a, key) || has_member(b, key),
{
    if has_member(a, key) {
        let i = choose|i: int| 0 <= i < a.len() && (#[trigger] a[i]).0 == key;
        assert((a + b)[i].0 == key);
    }
    if has_member(b, key) {
        let i = choose|i: int| 0 <= i < b.len() && (#[trigger] b[i]).0 == key;
        assert((a + b)[a.len() + i].0 == key);
    }
    if has_member(a + b, key) {
        let i = choose|i: int| 0 <= i < (a + b).len() && (#[trigger] (a + b)[i]).0 == key;
        if i < a.len() {
            assert(a[i].0 == key);
        } else {
            assert(b[i - a.len()].0 == key);
        }
    }
}

/// A required member stands under its own key and under no other.
pub proof fn lemma_has_member_field(own: Seq<char>, value: JsonDoc, key: Seq<char>)
    ensures
        has_member(field(own, value), key) <==> own == key,
{
    if own == key {
        assert(field(own, value)[0].0 == key);
    }
}

/// An optional member stands under its own key where it is set, and not at
/// all where it is not.
pub proof fn lemma_has_member_optional(own: Seq<char>, value: Option<JsonDoc>, key: Seq<char>)
    ensures
        has_member(optional(own, value), key) <==> own == key && value is Some,
{
    if own == key && value is Some {
        assert(optional(own, value)[0].0 == key);
    }
}

/// Two lists of members put together hold no null if neither does.
pub proof fn lemma_no_null_concat(a: Members, b: Members)
    ensures
        no_null_member(a + b) <==> no_null_member(a) && no_null_member(b),
{
    if no_null_member(a + b) {
        assert forall|i: int| 0 <= i < a.len() implies !((#[trigger] a[i]).1 is Null) by {
            assert((a + b)[i] == a[i]);
        }
        assert forall|i: int| 0 <= i < b.len() implies !((#[trigger] b[i]).1 is Null) by {
            assert((a + b)[a.len() + i] == b[i]);
        }
    }
}

} // verus!
