//! JSON documents: the tree that is sent, the text it is written as, and the
//! run-time values that carry it.

pub mod members;
pub mod number;

pub use members::{
    Members, ToJson, array_of, array_of_strings, docs, enable_doc, enable_json, field,
    has_member, lemma_has_member_concat, lemma_has_member_field, lemma_has_member_optional,
    lemma_no_null_concat, no_null_member, opt_bool, opt_doc, opt_str, opt_text, optional, put,
    put_opt, put_opt_bool, put_opt_str, strings_doc,
};
pub use number::{
    Number, decimal, decimal_text, digit_char, digits_end, exponent_digits, has_exponent,
    has_fraction, int_start, is_digit, is_number_literal,
};

use vstd::prelude::*;

verus! {

/// The JSON string literal for `s`, opening and closing quote included, as
/// `serde_json` writes it.
pub uninterp spec fn json_string(s: Seq<char>) -> Seq<char>;

/// Calls `serde_json::to_string` on a string slice.
///
/// Claimed of it: the call succeeds, and the text is the string literal named
/// by [`json_string`]. Serialising a `str` writes the quoted, escaped text into
/// a byte vector; neither of the two failures that `to_string` documents (a
/// failing `Serialize` impl, a map with non-string keys) can arise.
#[verifier::external_body]
fn quote(s: &str) -> (r: Result<String, serde_json::Error>)
    ensures
        r is Ok,
        r->Ok_0@ == json_string(s@),
{
    serde_json::to_string(s)
}

/// `s` as a JSON string literal.
pub fn quoted(s: &str) -> (out: String)
    ensures
        out@ == json_string(s@),
{
    match quote(s) {
        Ok(text) => text,
        Err(_) => unreached(),
    }
}

/// A JSON document.
pub enum JsonDoc {
    Null,
    Bool(bool),
    Number(Seq<char>),
    Str(Seq<char>),
    Array(Seq<JsonDoc>),
    Object(Seq<(Seq<char>, JsonDoc)>),
}

/// A JSON document at run time. An object keeps its members in the order in
/// which they were given.
#[derive(Debug)]
pub enum JsonValue {
    Null,
    Bool(bool),
    Number(Number),
    Str(String),
    Array(Vec<JsonValue>),
    Object(Vec<(String, JsonValue)>),
}

/// The documents of `items`, in order.
pub open spec fn docs_of(items: Seq<JsonValue>) -> Seq<JsonDoc>
    decreases items,
{
    if items.len() == 0 {
        Seq::empty()
    } else {
        docs_of(items.drop_last()).push(doc_of(items.last()))
    }
}

/// The members of `entries`, in order.
pub open spec fn members_of(entries: Seq<(String, JsonValue)>) -> Seq<(Seq<char>, JsonDoc)>
    decreases entries,
{
    if entries.len() == 0 {
        Seq::empty()
    } else {
        members_of(entries.drop_last()).push((entries.last().0@, doc_of(entries.last().1)))
    }
}

/// The document that `v` carries.
pub open spec fn doc_of(v: JsonValue) -> JsonDoc
    decreases v,
{
    match v {
        JsonValue::Null => JsonDoc::Null,
        JsonValue::Bool(b) => JsonDoc::Bool(b),
        JsonValue::Number(n) => JsonDoc::Number(n@),
        JsonValue::Str(s) => JsonDoc::Str(s@),
        JsonValue::Array(items) => JsonDoc::Array(docs_of(items@)),
        JsonValue::Object(entries) => JsonDoc::Object(members_of(entries@)),
    }
}

impl View for JsonValue {
    type V = JsonDoc;

    open spec fn view(&self) -> JsonDoc {
        doc_of(*self)
    }
}

/// The elements of an array, written out and separated by commas.
pub open spec fn render_elements(items: Seq<JsonDoc>) -> Seq<char>
    decreases items,
{
    if items.len() == 0 {
        Seq::empty()
    } else if items.len() == 1 {
        render(items.last())
    } else {
        render_elements(items.drop_last()) + ","@ + render(items.last())
    }
}

/// The members of an object, written out and separated by commas: each is its
/// key as a string literal, a colon, and its value.
pub open spec fn render_members(entries: Seq<(Seq<char>, JsonDoc)>) -> Seq<char>
    decreases entries,
{
    if entries.len() == 0 {
        Seq::empty()
    } else if entries.len() == 1 {
        json_string(entries.last().0) + ":"@ + render(entries.last().1)
    } else {
        render_members(entries.drop_last()) + ","@ + json_string(entries.last().0) + ":"@
            + render(entries.last().1)
    }
}

/// The compact text of a document: no white space, members and elements in
/// the order of the document.
pub open spec fn render(d: JsonDoc) -> Seq<char>
    decreases d,
{
    match d {
        JsonDoc::Null => "null"@,
        JsonDoc::Bool(b) => if b {
            "true"@
        } else {
            "false"@
        },
        JsonDoc::Number(text) => text,
        JsonDoc::Str(s) => json_string(s),
        JsonDoc::Array(items) => "["@ + render_elements(items) + "]"@,
        JsonDoc::Object(entries) => "{"@ + render_members(entries) + "}"@,
    }
}

/// The documents of a longer sequence are those of the shorter one and one more.
pub proof fn lemma_docs_of_push(items: Seq<JsonValue>, v: JsonValue)
    ensures
        docs_of(items.push(v)) == docs_of(items).push(doc_of(v)),
{
    assert(items.push(v).drop_last() =~= items);
}

/// `docs_of` keeps the length, and takes each value to its document.
pub proof fn lemma_docs_of_index(items: Seq<JsonValue>)
    ensures
        docs_of(items).len() == items.len(),
        forall|i: int| 0 <= i < items.len() ==> docs_of(items)[i] == doc_of(#[trigger] items[i]),
    decreases items.len(),
{
    if items.len() > 0 {
        lemma_docs_of_index(items.drop_last());
        assert forall|i: int| 0 <= i < items.len() implies docs_of(items)[i] == doc_of(
            #[trigger] items[i],
        ) by {
            if i < items.len() - 1 {
                assert(items.drop_last()[i] == items[i]);
            }
        }
    }
}

/// The members of a longer sequence are those of the shorter one and one more.
pub proof fn lemma_members_of_push(entries: Seq<(String, JsonValue)>, e: (String, JsonValue))
    ensures
        members_of(entries.push(e)) == members_of(entries).push((e.0@, doc_of(e.1))),
{
    assert(entries.push(e).drop_last() =~= entries);
}

/// `members_of` keeps the length, and takes each entry to its member.
pub proof fn lemma_members_of_index(entries: Seq<(String, JsonValue)>)
    ensures
        members_of(entries).len() == entries.len(),
        forall|i: int|
            0 <= i < entries.len() ==> members_of(entries)[i] == ((#[trigger] entries[i]).0@, doc_of(
                entries[i].1,
            )),
    decreases entries.len(),
{
    if entries.len() > 0 {
        lemma_members_of_index(entries.drop_last());
        assert forall|i: int| 0 <= i < entries.len() implies members_of(entries)[i] == ((
            #[trigger] entries[i]).0@, doc_of(entries[i].1)) by {
            if i < entries.len() - 1 {
                assert(entries.drop_last()[i] == entries[i]);
            }
        }
    }
}

impl JsonValue {
    /// A second value that carries the same document.
    pub fn copy(&self) -> (r: JsonValue)
        ensures
            r@ == self@,
        decreases self,
    {
        match self {
            JsonValue::Null => JsonValue::Null,
            JsonValue::Bool(b) => JsonValue::Bool(*b),
            JsonValue::Number(n) => JsonValue::Number(n.copy()),
            JsonValue::Str(s) => JsonValue::Str(s.clone()),
            JsonValue::Array(items) => {
                let mut copies: Vec<JsonValue> = Vec::new();
                let mut i: usize = 0;
                proof {
                    lemma_docs_of_index(items@);
                    assert(docs_of(copies@) =~= docs_of(items@).take(0));
                }
                while i < items.len()
                    invariant
                        i <= items.len(),
                        *self is Array,
                        self->Array_0 == *items,
                        docs_of(items@).len() == items@.len(),
                        forall|j: int|
                            0 <= j < items@.len() ==> docs_of(items@)[j] == doc_of(
                                #[trigger] items@[j],
                            ),
                        docs_of(copies@) == docs_of(items@).take(i as int),
                    decreases items.len() - i,
                {
                    proof {
                        assert(decreases_to!(*self => self->Array_0));
                        assert(decreases_to!(*items => items[i as int]));
                    }
                    let item = items[i].copy();
                    proof {
                        lemma_docs_of_push(copies@, item);
                        assert(docs_of(items@).take(i as int).push(doc_of(item)) =~= docs_of(
                            items@,
                        ).take(i as int + 1));
                    }
                    copies.push(item);
                    i = i + 1;
                }
                assert(docs_of(items@).take(items@.len() as int) =~= docs_of(items@));
                JsonValue::Array(copies)
            },
            JsonValue::Object(entries) => {
                let mut copies: Vec<(String, JsonValue)> = Vec::new();
                let mut i: usize = 0;
                proof {
                    lemma_members_of_index(entries@);
                    assert(members_of(copies@) =~= members_of(entries@).take(0));
                }
                while i < entries.len()
                    invariant
                        i <= entries.len(),
                        *self is Object,
                        self->Object_0 == *entries,
                        members_of(entries@).len() == entries@.len(),
                        forall|j: int|
                            0 <= j < entries@.len() ==> members_of(entries@)[j] == ((
                            #[trigger] entries@[j]).0@, doc_of(entries@[j].1)),
                        members_of(copies@) == members_of(entries@).take(i as int),
                    decreases entries.len() - i,
                {
                    proof {
                        assert(decreases_to!(*self => self->Object_0));
                        assert(decreases_to!(*entries => entries[i as int]));
                        assert(decreases_to!(entries[i as int] => entries[i as int].1));
                    }
                    let key = entries[i].0.clone();
                    let value = entries[i].1.copy();
                    proof {
                        lemma_members_of_push(copies@, (key, value));
                        assert(members_of(entries@).take(i as int).push((key@, doc_of(value)))
                            =~= members_of(entries@).take(i as int + 1));
                    }
                    copies.push((key, value));
                    i = i + 1;
                }
                assert(members_of(entries@).take(entries@.len() as int) =~= members_of(entries@));
                JsonValue::Object(copies)
            },
        }
    }

    /// Writes the document as compact JSON text.
    pub fn to_text(&self) -> (out: String)
        ensures
            out@ == render(self@),
        decreases self,
    {
        match self {
            JsonValue::Null => "null".to_owned(),
            JsonValue::Bool(b) => if *b {
                "true".to_owned()
            } else {
                "false".to_owned()
            },
            JsonValue::Number(n) => n.as_str().to_owned(),
            JsonValue::Str(s) => quoted(s.as_str()),
            JsonValue::Array(items) => {
                let mut out = String::new();
                out.append("[");
                proof {
                    assert(items@.take(0) =~= Seq::<JsonValue>::empty());
                    assert(out@ =~= "["@ + render_elements(docs_of(items@.take(0))));
                }
                let mut i: usize = 0;
                while i < items.len()
                    invariant
                        i <= items.len(),
                        *self is Array,
                        self->Array_0 == *items,
                        out@ == "["@ + render_elements(docs_of(items@.take(i as int))),
                    decreases items.len() - i,
                {
                    if i > 0 {
                        out.append(",");
                    }
                    proof {
                        assert(decreases_to!(*self => self->Array_0));
                        assert(decreases_to!(*items => items[i as int]));
                    }
                    let text = items[i].to_text();
                    out.append(text.as_str());
                    proof {
                        let before = items@.take(i as int);
                        let next = items@.take(i as int + 1);
                        assert(next =~= before.push(items@[i as int]));
                        lemma_docs_of_push(before, items@[i as int]);
                        lemma_docs_of_index(before);
                        assert(docs_of(next).drop_last() =~= docs_of(before));
                        assert(out@ =~= "["@ + render_elements(docs_of(next)));
                    }
                    i = i + 1;
                }
                out.append("]");
                proof {
                    assert(items@.take(items.len() as int) =~= items@);
                }
                out
            },
            JsonValue::Object(entries) => {
                let mut out = String::new();
                out.append("{");
                proof {
                    assert(entries@.take(0) =~= Seq::<(String, JsonValue)>::empty());
                    assert(out@ =~= "{"@ + render_members(members_of(entries@.take(0))));
                }
                let mut i: usize = 0;
                while i < entries.len()
                    invariant
                        i <= entries.len(),
                        *self is Object,
                        self->Object_0 == *entries,
                        out@ == "{"@ + render_members(members_of(entries@.take(i as int))),
                    decreases entries.len() - i,
                {
                    if i > 0 {
                        out.append(",");
                    }
                    let key = quoted(entries[i].0.as_str());
                    out.append(key.as_str());
                    out.append(":");
                    proof {
                        assert(decreases_to!(*self => self->Object_0));
                        assert(decreases_to!(*entries => entries[i as int]));
                        assert(decreases_to!(entries[i as int] => entries[i as int].1));
                    }
                    let text = entries[i].1.to_text();
                    out.append(text.as_str());
                    proof {
                        let before = entries@.take(i as int);
                        let next = entries@.take(i as int + 1);
                        assert(next =~= before.push(entries@[i as int]));
                        lemma_members_of_push(before, entries@[i as int]);
                        lemma_members_of_index(before);
                        assert(members_of(next).drop_last() =~= members_of(before));
                        assert(out@ =~= "{"@ + render_members(members_of(next)));
                    }
                    i = i + 1;
                }
                out.append("}");
                proof {
                    assert(entries@.take(entries.len() as int) =~= entries@);
                }
                out
            },
        }
    }
}

} // verus!
