//! The form API: the body of a send request and the client that prepares it.

use vstd::prelude::*;
use crate::error::SendgridResult;
use crate::fields::{text_members, Pairs, SGMap};
use crate::form::{
    form_append_pair, form_body, form_finish, form_new, form_text, lemma_form_body_push,
    FormSerializer,
};
use crate::json::{render, JsonDoc};
use crate::mail::{Destination, Mail};
use crate::transport::{
    bearer, build_headers, header_views, is_header_value, send_headers, Header, Method, Request,
};

verus! {

/// The key of one entry of a map-valued form field: the field's name, then the
/// entry's key in square brackets.
pub open spec fn form_key(form: Seq<char>, key: Seq<char>) -> Seq<char> {
    form + "["@ + key + "]"@
}

/// Given a form value and a key, generate the correct key.
pub fn make_form_key(form: &str, key: &str) -> (value: String)
    ensures
        value@ == form_key(form@, key@),
{
    let mut value = String::new();
    value.append(form);
    value.append("[");
    value.append(key);
    value.append("]");
    assert(value@ =~= form_key(form@, key@));
    value
}

/// One pair under `name` for each of `values`.
pub open spec fn repeated(name: Seq<char>, values: Seq<Seq<char>>) -> Pairs {
    values.map_values(|v: Seq<char>| (name, v))
}

/// One pair for each entry of a map-valued field, under its bracketed key.
pub open spec fn keyed(form: Seq<char>, entries: Pairs) -> Pairs {
    entries.map_values(|e: (Seq<char>, Seq<char>)| (form_key(form, e.0), e.1))
}

/// The addresses of `to`, in order.
pub open spec fn addresses(to: Seq<Destination>) -> Seq<Seq<char>> {
    to.map_values(|d: Destination| d.address@)
}

/// The display names of `to`, in order.
pub open spec fn names(to: Seq<Destination>) -> Seq<Seq<char>> {
    to.map_values(|d: Destination| d.name@)
}

/// The texts of `items`, in order.
pub open spec fn texts(items: Seq<&str>) -> Seq<Seq<char>> {
    items.map_values(|s: &str| s@)
}

/// The custom headers as the text of one JSON object.
pub open spec fn header_text(headers: Pairs) -> Seq<char> {
    render(JsonDoc::Object(text_members(headers)))
}

/// The scalar fields of a message, as texts. `headers` is the text of the
/// JSON object of the custom headers.
pub struct Scalars {
    pub from: Seq<char>,
    pub subject: Seq<char>,
    pub html: Seq<char>,
    pub text: Seq<char>,
    pub from_name: Seq<char>,
    pub reply_to: Seq<char>,
    pub date: Seq<char>,
    pub headers: Seq<char>,
    pub x_smtpapi: Seq<char>,
}

/// All that is sent of a message, as texts.
pub struct Fields {
    pub to: Seq<Seq<char>>,
    pub to_names: Seq<Seq<char>>,
    pub cc: Seq<Seq<char>>,
    pub bcc: Seq<Seq<char>>,
    pub attachments: Pairs,
    pub content: Pairs,
    pub scalars: Scalars,
}

/// The pairs of the scalar fields. Each is sent, empty or not.
pub open spec fn scalar_pairs(scalars: Scalars) -> Pairs {
    seq![
        ("from"@, scalars.from),
        ("subject"@, scalars.subject),
        ("html"@, scalars.html),
        ("text"@, scalars.text),
        ("fromname"@, scalars.from_name),
        ("replyto"@, scalars.reply_to),
        ("date"@, scalars.date),
        ("headers"@, scalars.headers),
        ("x-smtpapi"@, scalars.x_smtpapi),
    ]
}

/// The pairs that a message is sent as: the recipients, their names, the
/// copies and blind copies, the attachments and the inline content, one pair
/// each and in the order in which they were added; then the scalar fields.
pub open spec fn field_pairs(fields: Fields) -> Pairs {
    repeated("to[]"@, fields.to) + repeated("toname[]"@, fields.to_names) + repeated(
        "cc[]"@,
        fields.cc,
    ) + repeated("bcc[]"@, fields.bcc) + keyed("files"@, fields.attachments) + keyed(
        "content"@,
        fields.content,
    ) + scalar_pairs(fields.scalars)
}

/// All that is sent of `mail`, as texts.
pub open spec fn mail_fields(mail: Mail) -> Fields {
    Fields {
        to: addresses(mail.to@),
        to_names: names(mail.to@),
        cc: texts(mail.cc@),
        bcc: texts(mail.bcc@),
        attachments: mail.attachments@,
        content: mail.content@,
        scalars: Scalars {
            from: mail.from@,
            subject: mail.subject@,
            html: mail.html@,
            text: mail.text@,
            from_name: mail.from_name@,
            reply_to: mail.reply_to@,
            date: mail.date@,
            headers: header_text(mail.headers@),
            x_smtpapi: mail.x_smtpapi@,
        },
    }
}

/// The pairs that `mail` is sent as.
pub open spec fn mail_pairs(mail: Mail) -> Pairs {
    field_pairs(mail_fields(mail))
}

fn append_each(
    encoder: &mut FormSerializer,
    name: &str,
    values: &Vec<&str>,
    Ghost(before): Ghost<Pairs>,
)
    requires
        form_text(*old(encoder)) == form_body(before),
    ensures
        form_text(*final(encoder)) == form_body(before + repeated(name@, texts(values@))),
{
    let ghost section = repeated(name@, texts(values@));
    let mut i: usize = 0;
    assert(before + section.take(0) =~= before);
    while i < values.len()
        invariant
            i <= values.len(),
            section == repeated(name@, texts(values@)),
            form_text(*encoder) == form_body(before + section.take(i as int)),
        decreases values.len() - i,
    {
        form_append_pair(encoder, name, values[i]);
        proof {
            lemma_form_body_push(before + section.take(i as int), name@, values@[i as int]@);
            assert((before + section.take(i as int)).push((name@, values@[i as int]@)) =~= before
                + section.take(i as int + 1));
        }
        i = i + 1;
    }
    assert(section.take(values.len() as int) =~= section);
}

/// Appends one pair for each entry of a map-valued field, under its bracketed key.
pub(crate) fn append_keyed(
    encoder: &mut FormSerializer,
    form: &str,
    entries: &SGMap,
    Ghost(before): Ghost<Pairs>,
)
    requires
        form_text(*old(encoder)) == form_body(before),
    ensures
        form_text(*final(encoder)) == form_body(before + keyed(form@, entries@)),
{
    let ghost section = keyed(form@, entries@);
    let mut i: usize = 0;
    assert(before + section.take(0) =~= before);
    while i < entries.len()
        invariant
            i <= entries@.len(),
            section == keyed(form@, entries@),
            form_text(*encoder) == form_body(before + section.take(i as int)),
        decreases entries@.len() - i,
    {
        let key = make_form_key(form, entries.key_at(i));
        form_append_pair(encoder, key.as_str(), entries.value_at(i));
        proof {
            lemma_form_body_push(before + section.take(i as int), key@, entries@[i as int].1);
            assert((before + section.take(i as int)).push((key@, entries@[i as int].1)) =~= before
                + section.take(i as int + 1));
        }
        i = i + 1;
    }
    assert(section.take(entries@.len() as int) =~= section);
}

/// Appends one pair for each scalar field, in their fixed order.
pub(crate) fn append_scalars(
    encoder: &mut FormSerializer,
    from: &str,
    subject: &str,
    html: &str,
    text: &str,
    from_name: &str,
    reply_to: &str,
    date: &str,
    headers: &str,
    x_smtpapi: &str,
    Ghost(before): Ghost<Pairs>,
)
    requires
        form_text(*old(encoder)) == form_body(before),
    ensures
        form_text(*final(encoder)) == form_body(
            before + scalar_pairs(
                Scalars {
                    from: from@,
                    subject: subject@,
                    html: html@,
                    text: text@,
                    from_name: from_name@,
                    reply_to: reply_to@,
                    date: date@,
                    headers: headers@,
                    x_smtpapi: x_smtpapi@,
                },
            ),
        ),
{
    let ghost s = scalar_pairs(
        Scalars {
            from: from@,
            subject: subject@,
            html: html@,
            text: text@,
            from_name: from_name@,
            reply_to: reply_to@,
            date: date@,
            headers: headers@,
            x_smtpapi: x_smtpapi@,
        },
    );
    form_append_pair(encoder, "from", from);
    form_append_pair(encoder, "subject", subject);
    form_append_pair(encoder, "html", html);
    form_append_pair(encoder, "text", text);
    form_append_pair(encoder, "fromname", from_name);
    form_append_pair(encoder, "replyto", reply_to);
    form_append_pair(encoder, "date", date);
    form_append_pair(encoder, "headers", headers);
    form_append_pair(encoder, "x-smtpapi", x_smtpapi);
    proof {
        lemma_form_body_push(before, s[0].0, s[0].1);
        let d1 = before.push(s[0]);
        lemma_form_body_push(d1, s[1].0, s[1].1);
        let d2 = d1.push(s[1]);
        lemma_form_body_push(d2, s[2].0, s[2].1);
        let d3 = d2.push(s[2]);
        lemma_form_body_push(d3, s[3].0, s[3].1);
        let d4 = d3.push(s[3]);
        lemma_form_body_push(d4, s[4].0, s[4].1);
        let d5 = d4.push(s[4]);
        lemma_form_body_push(d5, s[5].0, s[5].1);
        let d6 = d5.push(s[5]);
        lemma_form_body_push(d6, s[6].0, s[6].1);
        let d7 = d6.push(s[6]);
        lemma_form_body_push(d7, s[7].0, s[7].1);
        let d8 = d7.push(s[7]);
        lemma_form_body_push(d8, s[8].0, s[8].1);
        let d9 = d8.push(s[8]);
        assert(d9 =~= before + s);
    }
}

/// Use the URL form encoder to properly generate the body used in the mail send request.
pub fn make_post_body(mail_info: Mail) -> (r: SendgridResult<String>)
    ensures
        r matches Ok(body) && body@ == form_body(mail_pairs(mail_info)),
{
    let mut encoder = form_new();

    let ghost section = repeated("to[]"@, addresses(mail_info.to@));
    let mut i: usize = 0;
    assert(section.take(0) =~= Pairs::empty());
    while i < mail_info.to.len()
        invariant
            i <= mail_info.to.len(),
            section == repeated("to[]"@, addresses(mail_info.to@)),
            form_text(encoder) == form_body(section.take(i as int)),
        decreases mail_info.to.len() - i,
    {
        form_append_pair(&mut encoder, "to[]", mail_info.to[i].address);
        proof {
            lemma_form_body_push(section.take(i as int), "to[]"@, mail_info.to[i as int].address@);
            assert(section.take(i as int).push(("to[]"@, mail_info.to[i as int].address@))
                =~= section.take(i as int + 1));
        }
        i = i + 1;
    }
    assert(section.take(mail_info.to.len() as int) =~= section);
    let ghost head1 = section;

    let ghost section = repeated("toname[]"@, names(mail_info.to@));
    let mut i: usize = 0;
    assert(head1 + section.take(0) =~= head1);
    while i < mail_info.to.len()
        invariant
            i <= mail_info.to.len(),
            section == repeated("toname[]"@, names(mail_info.to@)),
            form_text(encoder) == form_body(head1 + section.take(i as int)),
        decreases mail_info.to.len() - i,
    {
        form_append_pair(&mut encoder, "toname[]", mail_info.to[i].name);
        proof {
            lemma_form_body_push(
                head1 + section.take(i as int),
                "toname[]"@,
                mail_info.to[i as int].name@,
            );
            assert((head1 + section.take(i as int)).push(
                ("toname[]"@, mail_info.to[i as int].name@),
            ) =~= head1 + section.take(i as int + 1));
        }
        i = i + 1;
    }
    assert(section.take(mail_info.to.len() as int) =~= section);
    let ghost head2 = head1 + section;

    append_each(&mut encoder, "cc[]", &mail_info.cc, Ghost(head2));
    let ghost head3 = head2 + repeated("cc[]"@, texts(mail_info.cc@));
    append_each(&mut encoder, "bcc[]", &mail_info.bcc, Ghost(head3));
    let ghost head4 = head3 + repeated("bcc[]"@, texts(mail_info.bcc@));
    append_keyed(&mut encoder, "files", &mail_info.attachments, Ghost(head4));
    let ghost head5 = head4 + keyed("files"@, mail_info.attachments@);
    append_keyed(&mut encoder, "content", &mail_info.content, Ghost(head5));
    let ghost head6 = head5 + keyed("content"@, mail_info.content@);

    let headers = mail_info.make_header_string();
    append_scalars(
        &mut encoder,
        mail_info.from,
        mail_info.subject,
        mail_info.html,
        mail_info.text,
        mail_info.from_name,
        mail_info.reply_to,
        mail_info.date,
        headers.as_str(),
        mail_info.x_smtpapi,
        Ghost(head6),
    );
    assert(head6 + scalar_pairs(mail_fields(mail_info).scalars) =~= mail_pairs(mail_info));
    Ok(form_finish(encoder))
}

/// The names of the scalar fields, in the order in which they are sent.
pub open spec fn scalar_names() -> Seq<Seq<char>> {
    seq![
        "from"@,
        "subject"@,
        "html"@,
        "text"@,
        "fromname"@,
        "replyto"@,
        "date"@,
        "headers"@,
        "x-smtpapi"@,
    ]
}

/// The pairs of a message end with one pair for each scalar field, in the
/// fixed order of their names, whether the field is empty or not.
pub proof fn lemma_scalar_fields_are_always_sent(fields: Fields)
    ensures
        field_pairs(fields).len() >= 9,
        forall|i: int|
            0 <= i < 9 ==> (#[trigger] field_pairs(fields)[field_pairs(fields).len() - 9 + i]).0
                == scalar_names()[i],
        forall|i: int|
            0 <= i < 9 ==> #[trigger] field_pairs(fields)[field_pairs(fields).len() - 9 + i]
                == scalar_pairs(fields.scalars)[i],
{
    let pairs = field_pairs(fields);
    let before = pairs.len() - 9;
    assert(pairs.subrange(before, pairs.len() as int) =~= scalar_pairs(fields.scalars));
    assert forall|i: int| 0 <= i < 9 implies #[trigger] pairs[before + i] == scalar_pairs(
        fields.scalars,
    )[i] by {
        assert(pairs.subrange(before, pairs.len() as int)[i] == pairs[before + i]);
    }
}

/// The body of a message depends on nothing but the texts that the message
/// holds: two messages of the same texts have the same body, and so has one
/// message that is encoded twice.
pub proof fn lemma_encoding_repeats(one: Mail, other: Mail)
    requires
        mail_fields(one) == mail_fields(other),
    ensures
        form_body(mail_pairs(one)) == form_body(mail_pairs(other)),
{
}

/// Where the form API takes messages.
pub const API_URL: &'static str = "https://api.sendgrid.com/api/mail.send.json?";

/// The content type of a form body.
pub const FORM_CONTENT_TYPE: &'static str = "application/x-www-form-urlencoded";

/// This is the struct that allows you to authenticate to the SendGrid API.
/// It contains the API key which allows you to send messages.
#[derive(Clone, Debug)]
pub struct SGClient {
    api_key: String,
}

impl SGClient {
    /// The credential.
    pub closed spec fn api_key(self) -> Seq<char> {
        self.api_key@
    }

    /// Makes a new SendGrid cient with the specified API key.
    pub fn new(key: String) -> (r: SGClient)
        ensures
            r.api_key() == key@,
    {
        SGClient { api_key: key }
    }

    /// The three headers of a request: the credential as a bearer token, the
    /// form content type, and the user agent.
    pub fn headers(&self) -> (r: SendgridResult<Vec<Header>>)
        ensures
            r is Ok <==> is_header_value(bearer(self.api_key())),
            r matches Err(e) ==> e is InvalidHeader,
            r matches Ok(headers) ==> header_views(headers@) == send_headers(
                self.api_key(),
                FORM_CONTENT_TYPE@,
            ),
    {
        build_headers(self.api_key.as_str(), FORM_CONTENT_TYPE)
    }

    /// Prepares the request that sends `mail_info`: a POST to the form API, with the
    /// three headers, the message as a form for its body.
    pub fn request(&self, mail_info: Mail) -> (r: SendgridResult<Request>)
        ensures
            r is Ok <==> is_header_value(bearer(self.api_key())),
            r matches Err(e) ==> e is InvalidHeader,
            r matches Ok(request) ==> {
                &&& request.method is Post
                &&& request.url@ == API_URL@
                &&& header_views(request.headers@) == send_headers(
                    self.api_key(),
                    FORM_CONTENT_TYPE@,
                )
                &&& request.body@ == form_body(mail_pairs(mail_info))
            },
    {
        let post_body = match make_post_body(mail_info) {
            Ok(body) => body,
            Err(e) => {
                return Err(e);
            },
        };
        let headers = match self.headers() {
            Ok(headers) => headers,
            Err(e) => {
                return Err(e);
            },
        };
        Ok(Request { method: Method::Post, url: API_URL.to_owned(), headers, body: post_body })
    }
}

} // verus!
