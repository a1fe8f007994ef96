//! Addresses and bodies of a message.

use vstd::prelude::*;
use crate::json::{
    field, members_of, opt_str, opt_text, optional, put, put_opt_str, JsonDoc, JsonValue,
    Members, ToJson,
};

verus! {

/// What an [`Email`] holds.
pub struct EmailView {
    pub email: Seq<char>,
    pub name: Option<Seq<char>>,
}

impl EmailView {
    /// The members of the address: `email`, and `name` where it is set.
    pub open spec fn members(self) -> Members {
        field("email"@, JsonDoc::Str(self.email)) + optional("name"@, opt_str(self.name))
    }
}

/// An email with a required address and an optional name field.
#[derive(Clone, Debug)]
pub struct Email {
    email: String,
    name: Option<String>,
}

impl View for Email {
    type V = EmailView;

    closed spec fn view(&self) -> EmailView {
        EmailView { email: self.email@, name: opt_text(self.name) }
    }
}

impl Email {
    /// Construct a new email type with name set as None.
    pub fn new(email: &str) -> (r: Email)
        ensures
            r@ == (EmailView { email: email@, name: None }),
    {
        Email { email: email.to_owned(), name: None }
    }

    /// Set an optional name.
    pub fn set_name(self, name: &str) -> (r: Email)
        ensures
            r@ == (EmailView { name: Some(name@), ..self@ }),
    {
        let mut r = self;
        r.name = Some(name.to_owned());
        r
    }
}

impl ToJson for Email {
    open spec fn doc(&self) -> JsonDoc {
        JsonDoc::Object(self@.members())
    }

    fn to_json(&self) -> (v: JsonValue) {
        let mut members: Vec<(String, JsonValue)> = Vec::new();
        assert(members_of(members@) =~= Members::empty());
        put(&mut members, "email", JsonValue::Str(self.email.clone()));
        put_opt_str(&mut members, "name", &self.name);
        assert(members_of(members@) =~= self@.members());
        JsonValue::Object(members)
    }
}

/// What a [`Content`] holds.
pub struct ContentView {
    pub content_type: Seq<char>,
    pub value: Seq<char>,
}

impl ContentView {
    /// The members of the body: `type` and `value`.
    pub open spec fn members(self) -> Members {
        field("type"@, JsonDoc::Str(self.content_type)) + field("value"@, JsonDoc::Str(self.value))
    }
}

/// The body of an email with the content type and the message.
#[derive(Clone, Debug)]
pub struct Content {
    content_type: String,
    value: String,
}

impl View for Content {
    type V = ContentView;

    closed spec fn view(&self) -> ContentView {
        ContentView { content_type: self.content_type@, value: self.value@ }
    }
}

impl Content {
    /// Construct a new content type.
    pub fn new() -> (r: Content)
        ensures
            r@ == (ContentView { content_type: Seq::empty(), value: Seq::empty() }),
    {
        Content { content_type: String::new(), value: String::new() }
    }

    /// Set the type of this content.
    pub fn set_content_type(self, content_type: &str) -> (r: Content)
        ensures
            r@ == (ContentView { content_type: content_type@, ..self@ }),
    {
        let mut r = self;
        r.content_type = content_type.to_owned();
        r
    }

    /// Set the corresponding message for this content.
    pub fn set_value(self, value: &str) -> (r: Content)
        ensures
            r@ == (ContentView { value: value@, ..self@ }),
    {
        let mut r = self;
        r.value = value.to_owned();
        r
    }
}

impl Default for Content {
    fn default() -> (r: Content)
        ensures
            r@ == (ContentView { content_type: Seq::empty(), value: Seq::empty() }),
    {
        Content::new()
    }
}

impl ToJson for Content {
    open spec fn doc(&self) -> JsonDoc {
        JsonDoc::Object(self@.members())
    }

    fn to_json(&self) -> (v: JsonValue) {
        let mut members: Vec<(String, JsonValue)> = Vec::new();
        assert(members_of(members@) =~= Members::empty());
        put(&mut members, "type", JsonValue::Str(self.content_type.clone()));
        put(&mut members, "value", JsonValue::Str(self.value.clone()));
        assert(members_of(members@) =~= self@.members());
        JsonValue::Object(members)
    }
}

} // verus!
