//! The recipients of a message, and what is said to them alone.

use vstd::prelude::*;
use crate::error::{SendgridError, SendgridResult};
use crate::fields::{extended, text_members, Pairs, SGMap};
use crate::json::{
    array_of, decimal, docs, field, has_member, lemma_has_member_concat, lemma_has_member_field,
    lemma_has_member_optional, lemma_no_null_concat, members_of, no_null_member, opt_str,
    opt_text, optional, put, put_opt, put_opt_str, JsonDoc, JsonValue, Members, Number, ToJson,
};
use crate::v3::email::{Email, EmailView};
use crate::v3::optional::{opt_view, opt_views, or_empty, views};
use crate::v3::template::{merged, TemplateData};

verus! {

/// An array of addresses.
pub open spec fn emails_doc(emails: Seq<EmailView>) -> JsonDoc {
    JsonDoc::Array(emails.map_values(|e: EmailView| JsonDoc::Object(e.members())))
}

/// An array of addresses, where there are any.
pub open spec fn opt_emails_doc(emails: Option<Seq<EmailView>>) -> Option<JsonDoc> {
    match emails {
        Some(list) => Some(emails_doc(list)),
        None => None,
    }
}

/// A field container as an object of strings, where there is one.
pub open spec fn opt_pairs_doc(pairs: Option<Pairs>) -> Option<JsonDoc> {
    match pairs {
        Some(p) => Some(JsonDoc::Object(text_members(p))),
        None => None,
    }
}

/// Template data as an object, where there is any.
pub open spec fn opt_members_doc(members: Option<Members>) -> Option<JsonDoc> {
    match members {
        Some(m) => Some(JsonDoc::Object(m)),
        None => None,
    }
}

/// A number, where there is one.
pub open spec fn opt_number(n: Option<u64>) -> Option<JsonDoc> {
    match n {
        Some(value) => Some(JsonDoc::Number(decimal(value as nat))),
        None => None,
    }
}

/// What a [`Personalization`] holds.
pub struct PersonalizationView {
    pub to: Seq<EmailView>,
    pub cc: Option<Seq<EmailView>>,
    pub bcc: Option<Seq<EmailView>>,
    pub subject: Option<Seq<char>>,
    pub headers: Option<Pairs>,
    pub substitutions: Option<Pairs>,
    pub custom_args: Option<Pairs>,
    pub dynamic_template_data: Option<Members>,
    pub send_at: Option<u64>,
}

impl PersonalizationView {
    /// The members of the block: `to` always, the others where they are set.
    pub open spec fn members(self) -> Members {
        field("to"@, emails_doc(self.to)) + optional("cc"@, opt_emails_doc(self.cc)) + optional(
            "bcc"@,
            opt_emails_doc(self.bcc),
        ) + optional("subject"@, opt_str(self.subject)) + optional(
            "headers"@,
            opt_pairs_doc(self.headers),
        ) + optional("substitutions"@, opt_pairs_doc(self.substitutions)) + optional(
            "custom_args"@,
            opt_pairs_doc(self.custom_args),
        ) + optional("dynamic_template_data"@, opt_members_doc(self.dynamic_template_data))
            + optional("send_at"@, opt_number(self.send_at))
    }
}

/// A personalization block for a V3 message. It has to at least contain one email as a to
/// address. All other fields are optional.
#[derive(Debug)]
pub struct Personalization {
    to: Vec<Email>,
    cc: Option<Vec<Email>>,
    bcc: Option<Vec<Email>>,
    subject: Option<String>,
    headers: Option<SGMap>,
    substitutions: Option<SGMap>,
    custom_args: Option<SGMap>,
    dynamic_template_data: Option<TemplateData>,
    send_at: Option<u64>,
}

impl View for Personalization {
    type V = PersonalizationView;

    closed spec fn view(&self) -> PersonalizationView {
        PersonalizationView {
            to: views(self.to@),
            cc: opt_views(self.cc),
            bcc: opt_views(self.bcc),
            subject: opt_text(self.subject),
            headers: opt_view(self.headers),
            substitutions: opt_view(self.substitutions),
            custom_args: opt_view(self.custom_args),
            dynamic_template_data: opt_view(self.dynamic_template_data),
            send_at: self.send_at,
        }
    }
}

fn push_email(emails: Option<Vec<Email>>, email: Email) -> (r: Vec<Email>)
    ensures
        views(r@) == or_empty(opt_views(emails)).push(email@),
{
    let mut list = match emails {
        Some(list) => list,
        None => Vec::new(),
    };
    let ghost before = views(list@);
    assert(before =~= or_empty(opt_views(emails)));
    list.push(email);
    assert(views(list@) =~= before.push(email@));
    list
}

fn extend_map(map: Option<SGMap>, more: SGMap) -> (r: SGMap)
    ensures
        r@ == extended(or_empty(opt_view(map)), more@),
{
    let mut target = match map {
        Some(m) => m,
        None => SGMap::new(),
    };
    target.extend(more);
    target
}

fn merge_data(data: Option<TemplateData>, more: &Vec<(String, JsonValue)>) -> (r: TemplateData)
    ensures
        r@ == merged(or_empty(opt_view(data)), members_of(more@)),
{
    let mut target = match data {
        Some(d) => d,
        None => TemplateData::new(),
    };
    target.merge(more);
    target
}

impl Personalization {
    #[verifier::type_invariant]
    spec fn has_recipient(self) -> bool {
        self.to@.len() >= 1
    }

    /// Construct a new personalization block for this message with a single to address.
    pub fn new(email: Email) -> (r: Personalization)
        ensures
            r@ == (PersonalizationView {
                to: seq![email@],
                cc: None,
                bcc: None,
                subject: None,
                headers: None,
                substitutions: None,
                custom_args: None,
                dynamic_template_data: None,
                send_at: None,
            }),
    {
        let mut to: Vec<Email> = Vec::new();
        to.push(email);
        assert(views(to@) =~= seq![email@]);
        Personalization {
            to,
            cc: None,
            bcc: None,
            subject: None,
            headers: None,
            substitutions: None,
            custom_args: None,
            dynamic_template_data: None,
            send_at: None,
        }
    }

    /// The number of recipients, which is one at least.
    pub fn recipients(&self) -> (n: usize)
        ensures
            n == self@.to.len(),
            n >= 1,
    {
        proof {
            use_type_invariant(self);
        }
        self.to.len()
    }

    /// Add a to field.
    pub fn add_to(self, to: Email) -> (r: Personalization)
        ensures
            r@ == (PersonalizationView { to: self@.to.push(to@), ..self@ }),
    {
        let Personalization {
            to: list,
            cc,
            bcc,
            subject,
            headers,
            substitutions,
            custom_args,
            dynamic_template_data,
            send_at,
        } = self;
        let mut list = list;
        let ghost before = views(list@);
        list.push(to);
        assert(views(list@) =~= before.push(to@));
        Personalization {
            to: list,
            cc,
            bcc,
            subject,
            headers,
            substitutions,
            custom_args,
            dynamic_template_data,
            send_at,
        }
    }

    /// Add a CC field.
    pub fn add_cc(self, cc: Email) -> (r: Personalization)
        ensures
            r@ == (PersonalizationView {
                cc: Some(or_empty(self@.cc).push(cc@)),
                ..self@
            }),
    {
        proof {
            use_type_invariant(&self);
        }
        let Personalization {
            to,
            cc: list,
            bcc,
            subject,
            headers,
            substitutions,
            custom_args,
            dynamic_template_data,
            send_at,
        } = self;
        Personalization {
            to,
            cc: Some(push_email(list, cc)),
            bcc,
            subject,
            headers,
            substitutions,
            custom_args,
            dynamic_template_data,
            send_at,
        }
    }

    /// Add a BCC field.
    pub fn add_bcc(self, bcc: Email) -> (r: Personalization)
        ensures
            r@ == (PersonalizationView {
                bcc: Some(or_empty(self@.bcc).push(bcc@)),
                ..self@
            }),
    {
        proof {
            use_type_invariant(&self);
        }
        let Personalization {
            to,
            cc,
            bcc: list,
            subject,
            headers,
            substitutions,
            custom_args,
            dynamic_template_data,
            send_at,
        } = self;
        Personalization {
            to,
            cc,
            bcc: Some(push_email(list, bcc)),
            subject,
            headers,
            substitutions,
            custom_args,
            dynamic_template_data,
            send_at,
        }
    }

    /// Add a headers field.
    pub fn add_headers(self, headers: SGMap) -> (r: Personalization)
        ensures
            r@ == (PersonalizationView {
                headers: Some(extended(or_empty(self@.headers), headers@)),
                ..self@
            }),
    {
        proof {
            use_type_invariant(&self);
        }
        let Personalization {
            to,
            cc,
            bcc,
            subject,
            headers: map,
            substitutions,
            custom_args,
            dynamic_template_data,
            send_at,
        } = self;
        Personalization {
            to,
            cc,
            bcc,
            subject,
            headers: Some(extend_map(map, headers)),
            substitutions,
            custom_args,
            dynamic_template_data,
            send_at,
        }
    }

    /// Add a custom_args field.
    pub fn add_custom_args(self, custom_args: SGMap) -> (r: Personalization)
        ensures
            r@ == (PersonalizationView {
                custom_args: Some(extended(or_empty(self@.custom_args), custom_args@)),
                ..self@
            }),
    {
        proof {
            use_type_invariant(&self);
        }
        let Personalization {
            to,
            cc,
            bcc,
            subject,
            headers,
            substitutions,
            custom_args: map,
            dynamic_template_data,
            send_at,
        } = self;
        Personalization {
            to,
            cc,
            bcc,
            subject,
            headers,
            substitutions,
            custom_args: Some(extend_map(map, custom_args)),
            dynamic_template_data,
            send_at,
        }
    }

    /// Add a substitutions field.
    pub fn add_substitutions(self, substitutions: SGMap) -> (r: Personalization)
        ensures
            r@ == (PersonalizationView {
                substitutions: Some(extended(or_empty(self@.substitutions), substitutions@)),
                ..self@
            }),
    {
        proof {
            use_type_invariant(&self);
        }
        let Personalization {
            to,
            cc,
            bcc,
            subject,
            headers,
            substitutions: map,
            custom_args,
            dynamic_template_data,
            send_at,
        } = self;
        Personalization {
            to,
            cc,
            bcc,
            subject,
            headers,
            substitutions: Some(extend_map(map, substitutions)),
            custom_args,
            dynamic_template_data,
            send_at,
        }
    }

    /// Add a dynamic template data field: each entry of the map as a string
    /// under its key.
    pub fn add_dynamic_template_data(self, dynamic_template_data: SGMap) -> (r: Personalization)
        ensures
            r@ == (PersonalizationView {
                dynamic_template_data: Some(
                    merged(
                        or_empty(self@.dynamic_template_data),
                        text_members(dynamic_template_data@),
                    ),
                ),
                ..self@
            }),
    {
        proof {
            use_type_invariant(&self);
        }
        let Personalization {
            to,
            cc,
            bcc,
            subject,
            headers,
            substitutions,
            custom_args,
            dynamic_template_data: data,
            send_at,
        } = self;
        let new_vals = match dynamic_template_data.to_json() {
            JsonValue::Object(map) => map,
            _ => unreached(),
        };
        Personalization {
            to,
            cc,
            bcc,
            subject,
            headers,
            substitutions,
            custom_args,
            dynamic_template_data: Some(merge_data(data, &new_vals)),
            send_at,
        }
    }

    /// Add a dynamic template data fields from a JSON object. Anything but an
    /// object is refused.
    pub fn add_dynamic_template_data_json(self, json_object: &JsonValue) -> (r: SendgridResult<
        Personalization,
    >)
        ensures
            r is Ok <==> json_object@ is Object,
            r matches Err(e) ==> e is InvalidTemplateValue,
            r matches Ok(p) ==> p@ == (PersonalizationView {
                dynamic_template_data: Some(
                    merged(
                        or_empty(self@.dynamic_template_data),
                        json_object@->Object_0,
                    ),
                ),
                ..self@
            }),
    {
        proof {
            use_type_invariant(&self);
        }
        let new_vals = match json_object {
            JsonValue::Object(map) => map,
            _ => {
                return Err(SendgridError::InvalidTemplateValue);
            },
        };
        let Personalization {
            to,
            cc,
            bcc,
            subject,
            headers,
            substitutions,
            custom_args,
            dynamic_template_data: data,
            send_at,
        } = self;
        Ok(
            Personalization {
                to,
                cc,
                bcc,
                subject,
                headers,
                substitutions,
                custom_args,
                dynamic_template_data: Some(merge_data(data, new_vals)),
                send_at,
            },
        )
    }

    /// Set the subject.
    pub fn set_subject(self, subject: &str) -> (r: Personalization)
        ensures
            r@ == (PersonalizationView { subject: Some(subject@), ..self@ }),
    {
        proof {
            use_type_invariant(&self);
        }
        let mut r = self;
        r.subject = Some(subject.to_owned());
        r
    }

    /// Set send at.
    pub fn set_send_at(self, send_at: u64) -> (r: Personalization)
        ensures
            r@ == (PersonalizationView { send_at: Some(send_at), ..self@ }),
    {
        proof {
            use_type_invariant(&self);
        }
        let mut r = self;
        r.send_at = Some(send_at);
        r
    }
}

/// The array of the addresses `emails`.
pub fn emails_json(emails: &Vec<Email>) -> (v: JsonValue)
    ensures
        v@ == emails_doc(views(emails@)),
{
    let v = array_of(emails);
    assert(docs(emails@) =~= views(emails@).map_values(
        |e: EmailView| JsonDoc::Object(e.members()),
    ));
    v
}

impl ToJson for Personalization {
    open spec fn doc(&self) -> JsonDoc {
        JsonDoc::Object(self@.members())
    }

    fn to_json(&self) -> (v: JsonValue) {
        let mut members: Vec<(String, JsonValue)> = Vec::new();
        assert(members_of(members@) =~= Members::empty());
        put(&mut members, "to", emails_json(&self.to));
        match &self.cc {
            Some(list) => {
                put(&mut members, "cc", emails_json(list));
            },
            None => {},
        }
        match &self.bcc {
            Some(list) => {
                put(&mut members, "bcc", emails_json(list));
            },
            None => {},
        }
        put_opt_str(&mut members, "subject", &self.subject);
        match &self.headers {
            Some(map) => {
                put(&mut members, "headers", map.to_json());
            },
            None => {},
        }
        match &self.substitutions {
            Some(map) => {
                put(&mut members, "substitutions", map.to_json());
            },
            None => {},
        }
        match &self.custom_args {
            Some(map) => {
                put(&mut members, "custom_args", map.to_json());
            },
            None => {},
        }
        put_opt(&mut members, "dynamic_template_data", &self.dynamic_template_data);
        match self.send_at {
            Some(at) => {
                put(&mut members, "send_at", JsonValue::Number(Number::from_u64(at)));
            },
            None => {},
        }
        assert(members_of(members@) =~= self@.members());
        JsonValue::Object(members)
    }
}

/// Of the members of a personalization block, `to` is always there; each of
/// the others is there if and only if the field is set, so that a field that
/// is not set leaves no key behind; and no member is null.
pub proof fn lemma_unset_fields_are_omitted(p: PersonalizationView)
    ensures
        has_member(p.members(), "to"@),
        has_member(p.members(), "cc"@) <==> p.cc is Some,
        has_member(p.members(), "bcc"@) <==> p.bcc is Some,
        has_member(p.members(), "subject"@) <==> p.subject is Some,
        has_member(p.members(), "headers"@) <==> p.headers is Some,
        has_member(p.members(), "substitutions"@) <==> p.substitutions is Some,
        has_member(p.members(), "custom_args"@) <==> p.custom_args is Some,
        has_member(p.members(), "dynamic_template_data"@) <==> p.dynamic_template_data is Some,
        has_member(p.members(), "send_at"@) <==> p.send_at is Some,
        no_null_member(p.members()),
{
    reveal_strlit("to");
    reveal_strlit("cc");
    reveal_strlit("bcc");
    reveal_strlit("subject");
    reveal_strlit("headers");
    reveal_strlit("substitutions");
    reveal_strlit("custom_args");
    reveal_strlit("dynamic_template_data");
    reveal_strlit("send_at");
    let head0 = field("to"@, emails_doc(p.to));
    let part1 = optional("cc"@, opt_emails_doc(p.cc));
    let part2 = optional("bcc"@, opt_emails_doc(p.bcc));
    let part3 = optional("subject"@, opt_str(p.subject));
    let part4 = optional("headers"@, opt_pairs_doc(p.headers));
    let part5 = optional("substitutions"@, opt_pairs_doc(p.substitutions));
    let part6 = optional("custom_args"@, opt_pairs_doc(p.custom_args));
    let part7 = optional("dynamic_template_data"@, opt_members_doc(p.dynamic_template_data));
    let part8 = optional("send_at"@, opt_number(p.send_at));
    let head1 = head0 + part1;
    let head2 = head1 + part2;
    let head3 = head2 + part3;
    let head4 = head3 + part4;
    let head5 = head4 + part5;
    let head6 = head5 + part6;
    let head7 = head6 + part7;
    assert(p.members() == head7 + part8);
    lemma_no_null_concat(head0, part1);
    lemma_no_null_concat(head1, part2);
    lemma_no_null_concat(head2, part3);
    lemma_no_null_concat(head3, part4);
    lemma_no_null_concat(head4, part5);
    lemma_no_null_concat(head5, part6);
    lemma_no_null_concat(head6, part7);
    lemma_no_null_concat(head7, part8);
    assert forall|key: Seq<char>|
        has_member(p.members(), key) <==> (key == "to"@ || (key == "cc"@ && p.cc is Some) || (key
            == "bcc"@ && p.bcc is Some) || (key == "subject"@ && p.subject is Some) || (key
            == "headers"@ && p.headers is Some) || (key == "substitutions"@ && p.substitutions
            is Some) || (key == "custom_args"@ && p.custom_args is Some) || (key
            == "dynamic_template_data"@ && p.dynamic_template_data is Some) || (key == "send_at"@
            && p.send_at is Some)) by {
        lemma_has_member_field("to"@, emails_doc(p.to), key);
        lemma_has_member_optional("cc"@, opt_emails_doc(p.cc), key);
        lemma_has_member_optional("bcc"@, opt_emails_doc(p.bcc), key);
        lemma_has_member_optional("subject"@, opt_str(p.subject), key);
        lemma_has_member_optional("headers"@, opt_pairs_doc(p.headers), key);
        lemma_has_member_optional("substitutions"@, opt_pairs_doc(p.substitutions), key);
        lemma_has_member_optional("custom_args"@, opt_pairs_doc(p.custom_args), key);
        lemma_has_member_optional(
            "dynamic_template_data"@,
            opt_members_doc(p.dynamic_template_data),
            key,
        );
        lemma_has_member_optional("send_at"@, opt_number(p.send_at), key);
        lemma_has_member_concat(head0, part1, key);
        lemma_has_member_concat(head1, part2, key);
        lemma_has_member_concat(head2, part3, key);
        lemma_has_member_concat(head3, part4, key);
        lemma_has_member_concat(head4, part5, key);
        lemma_has_member_concat(head5, part6, key);
        lemma_has_member_concat(head6, part7, key);
        lemma_has_member_concat(head7, part8, key);
    }
    assert("to"@[0] == 't' && "cc"@[0] == 'c' && "bcc"@[0] == 'b' && "subject"@[1] == 'u');
    assert("headers"@[0] == 'h' && "substitutions"@[2] == 'b' && "custom_args"@[0] == 'c');
    assert("dynamic_template_data"@[0] == 'd' && "send_at"@[1] == 'e');
    assert("cc"@.len() == 2 && "custom_args"@.len() == 11);
    assert("subject"@.len() == 7 && "substitutions"@.len() == 13);
}

} // verus!
