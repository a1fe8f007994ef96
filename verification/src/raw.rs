//! The form API with a message that is filled in place: recipients and their
//! names are kept side by side, and a message needs a recipient to be sent.

use vstd::prelude::*;
use crate::client::{
    append_keyed, append_scalars, field_pairs, header_text, keyed, repeated, scalar_pairs, Fields,
    Scalars, API_URL, FORM_CONTENT_TYPE,
};
use crate::error::{SendgridError, SendgridResult};
use crate::fields::{inserted, Pairs, SGMap};
use crate::form::{
    form_append_pair, form_body, form_finish, form_new, form_text, lemma_form_body_push,
    FormSerializer,
};
use crate::transport::{bearer, build_headers, header_views, is_header_value, send_headers, Method, Request};

verus! {

/// The texts of `items`, in order.
pub open spec fn strings(items: Seq<String>) -> Seq<Seq<char>> {
    items.map_values(|s: String| s@)
}

/// This is a representation of a valid SendGrid message. It has support for
/// all of the fields in the V2 API.
#[derive(Debug)]
pub struct Mail {
    pub to: Vec<String>,
    pub to_names: Vec<String>,
    pub cc: Vec<String>,
    pub bcc: Vec<String>,
    pub from: &'static str,
    pub subject: &'static str,
    pub html: &'static str,
    pub text: &'static str,
    pub from_name: &'static str,
    pub reply_to: &'static str,
    pub date: String,
    pub attachments: SGMap,
    pub content: SGMap,
    pub headers: SGMap,
    pub x_smtpapi: String,
}

impl Mail {
    /// Returns a new Mail struct to send with a client. All of the fields are
    /// initially empty.
    pub fn new() -> (m: Mail)
        ensures
            m.to@ == Seq::<String>::empty(),
            m.to_names@ == Seq::<String>::empty(),
            m.cc@ == Seq::<String>::empty(),
            m.bcc@ == Seq::<String>::empty(),
            m.from@ == Seq::<char>::empty(),
            m.subject@ == Seq::<char>::empty(),
            m.html@ == Seq::<char>::empty(),
            m.text@ == Seq::<char>::empty(),
            m.from_name@ == Seq::<char>::empty(),
            m.reply_to@ == Seq::<char>::empty(),
            m.date@ == Seq::<char>::empty(),
            m.attachments@ == Pairs::empty(),
            m.content@ == Pairs::empty(),
            m.headers@ == Pairs::empty(),
            m.x_smtpapi@ == Seq::<char>::empty(),
    {
        proof {
            reveal_strlit("");
            assert(""@ =~= Seq::<char>::empty());
        }
        Mail {
            to: Vec::new(),
            to_names: Vec::new(),
            cc: Vec::new(),
            bcc: Vec::new(),
            from: "",
            subject: "",
            html: "",
            text: "",
            from_name: "",
            reply_to: "",
            date: String::new(),
            attachments: SGMap::new(),
            content: SGMap::new(),
            headers: SGMap::new(),
            x_smtpapi: String::new(),
        }
    }

    /// Adds a CC recipient to the Mail struct.
    pub fn add_cc(&mut self, cc_addr: &'static str)
        ensures
            strings(final(self).cc@) == strings(old(self).cc@).push(cc_addr@),
            *final(self) == (Mail { cc: final(self).cc, ..*old(self) }),
    {
        self.cc.push(cc_addr.to_owned());
        assert(strings(self.cc@) =~= strings(old(self).cc@).push(cc_addr@));
    }

    /// Adds a to recipient to the Mail struct.
    pub fn add_to(&mut self, to_addr: &'static str)
        ensures
            strings(final(self).to@) == strings(old(self).to@).push(to_addr@),
            *final(self) == (Mail { to: final(self).to, ..*old(self) }),
    {
        self.to.push(to_addr.to_owned());
        assert(strings(self.to@) =~= strings(old(self).to@).push(to_addr@));
    }

    /// Set the from address for the Mail struct. This can be changed, but there
    /// is only one from address per message.
    pub fn add_from(&mut self, from_addr: &'static str)
        ensures
            *final(self) == (Mail { from: from_addr, ..*old(self) }),
    {
        self.from = from_addr;
    }

    /// Set the subject of the message.
    pub fn add_subject(&mut self, subject: &'static str)
        ensures
            *final(self) == (Mail { subject: subject, ..*old(self) }),
    {
        self.subject = subject;
    }

    /// This function sets the HTML content for the message.
    pub fn add_html(&mut self, html: &'static str)
        ensures
            *final(self) == (Mail { html: html, ..*old(self) }),
    {
        self.html = html;
    }

    /// Add a name for the "to" field in the message. The number of to names
    /// must match the number of "to" addresses.
    pub fn add_to_name(&mut self, to_name: &'static str)
        ensures
            strings(final(self).to_names@) == strings(old(self).to_names@).push(to_name@),
            *final(self) == (Mail { to_names: final(self).to_names, ..*old(self) }),
    {
        self.to_names.push(to_name.to_owned());
        assert(strings(self.to_names@) =~= strings(old(self).to_names@).push(to_name@));
    }

    /// Set the text content of the message.
    pub fn add_text(&mut self, text: &'static str)
        ensures
            *final(self) == (Mail { text: text, ..*old(self) }),
    {
        self.text = text;
    }

    /// Add a BCC address to the message.
    pub fn add_bcc(&mut self, bcc_addr: &'static str)
        ensures
            strings(final(self).bcc@) == strings(old(self).bcc@).push(bcc_addr@),
            *final(self) == (Mail { bcc: final(self).bcc, ..*old(self) }),
    {
        self.bcc.push(bcc_addr.to_owned());
        assert(strings(self.bcc@) =~= strings(old(self).bcc@).push(bcc_addr@));
    }

    /// Set the from name for the message.
    pub fn add_from_name(&mut self, from_name: &'static str)
        ensures
            *final(self) == (Mail { from_name: from_name, ..*old(self) }),
    {
        self.from_name = from_name;
    }

    /// Set the reply to address for the message.
    pub fn add_reply_to(&mut self, reply_to: &'static str)
        ensures
            *final(self) == (Mail { reply_to: reply_to, ..*old(self) }),
    {
        self.reply_to = reply_to;
    }

    /// Set the date for the message. This must be a valid RFC 822 timestamp.
    pub fn add_date(&mut self, date: String)
        ensures
            *final(self) == (Mail { date: date, ..*old(self) }),
    {
        self.date = date;
    }

    /// Attaches the file `name` with the contents `data`. A file of that name
    /// that is attached already gets the new contents.
    pub fn add_attachment_data(&mut self, name: &str, data: String)
        ensures
            final(self).attachments@ == inserted(old(self).attachments@, name@, data@),
            *final(self) == (Mail { attachments: final(self).attachments, ..*old(self) }),
    {
        self.attachments.insert(name.to_owned(), data);
    }

    /// Attaches the file at `path` that was read from disk: `read` is what
    /// reading gave. A failed read is reported as it is and leaves the message
    /// as it was; else the file is attached under its path.
    pub fn add_attachment(&mut self, path: &str, read: Result<String, std::io::Error>) -> (r:
        SendgridResult<()>)
        ensures
            read is Err ==> r is Err && r->Err_0 == SendgridError::Io(read->Err_0) && *final(self)
                == *old(self),
            read is Ok ==> r is Ok && final(self).attachments@ == inserted(
                old(self).attachments@,
                path@,
                read->Ok_0@,
            ) && *final(self) == (Mail { attachments: final(self).attachments, ..*old(self) }),
    {
        match read {
            Ok(data) => {
                self.add_attachment_data(path, data);
                Ok(())
            },
            Err(e) => Err(SendgridError::Io(e)),
        }
    }

    /// Add content for inline images in the message.
    pub fn add_content(&mut self, id: &str, value: &str)
        ensures
            final(self).content@ == inserted(old(self).content@, id@, value@),
            *final(self) == (Mail { content: final(self).content, ..*old(self) }),
    {
        self.content.insert(id.to_owned(), value.to_owned());
    }

    /// Add a custom header for the message. These are usually prefixed with
    /// 'X' or 'x' per the RFC specifications.
    pub fn add_header(&mut self, header: &str, value: &str)
        ensures
            final(self).headers@ == inserted(old(self).headers@, header@, value@),
            *final(self) == (Mail { headers: final(self).headers, ..*old(self) }),
    {
        self.headers.insert(header.to_owned(), value.to_owned());
    }

    /// The custom headers as the text of one JSON object.
    pub fn make_header_string(&self) -> (text: String)
        ensures
            text@ == header_text(self.headers@),
    {
        self.headers.to_json().to_text()
    }

    /// Add an X-SMTPAPI string to the message: a JSON document as text.
    pub fn add_x_smtpapi(&mut self, x_smtpapi: String)
        ensures
            *final(self) == (Mail { x_smtpapi: x_smtpapi, ..*old(self) }),
    {
        self.x_smtpapi = x_smtpapi;
    }
}

/// All that is sent of `mail`, as texts.
pub open spec fn mail_fields(mail: Mail) -> Fields {
    Fields {
        to: strings(mail.to@),
        to_names: strings(mail.to_names@),
        cc: strings(mail.cc@),
        bcc: strings(mail.bcc@),
        attachments: mail.attachments@,
        content: mail.content@,
        scalars: Scalars {
            from: mail.from@,
            subject: mail.subject@,
            html: mail.html@,
            text: mail.text@,
            from_name: mail.from_name@,
            reply_to: mail.reply_to@,
            date: mail.date@,
            headers: header_text(mail.headers@),
            x_smtpapi: mail.x_smtpapi@,
        },
    }
}

/// The pairs that `mail` is sent as.
pub open spec fn mail_pairs(mail: Mail) -> Pairs {
    field_pairs(mail_fields(mail))
}

fn append_strings(
    encoder: &mut FormSerializer,
    name: &str,
    values: &Vec<String>,
    Ghost(before): Ghost<Pairs>,
)
    requires
        form_text(*old(encoder)) == form_body(before),
    ensures
        form_text(*final(encoder)) == form_body(before + repeated(name@, strings(values@))),
{
    let ghost section = repeated(name@, strings(values@));
    let mut i: usize = 0;
    assert(before + section.take(0) =~= before);
    while i < values.len()
        invariant
            i <= values.len(),
            section == repeated(name@, strings(values@)),
            form_text(*encoder) == form_body(before + section.take(i as int)),
        decreases values.len() - i,
    {
        form_append_pair(encoder, name, values[i].as_str());
        proof {
            lemma_form_body_push(before + section.take(i as int), name@, values@[i as int]@);
            assert((before + section.take(i as int)).push((name@, values@[i as int]@)) =~= before
                + section.take(i as int + 1));
        }
        i = i + 1;
    }
    assert(section.take(values.len() as int) =~= section);
}

/// The body of the send request for `mail_info`: the form-urlencoded text of
/// its pairs. A message needs a recipient before it is sent.
pub fn make_post_body(mail_info: Mail) -> (body: String)
    requires
        mail_info.to@.len() > 0,
    ensures
        body@ == form_body(mail_pairs(mail_info)),
{
    let mut encoder = form_new();
    let ghost head0: Pairs = Seq::empty();
    append_strings(&mut encoder, "to[]", &mail_info.to, Ghost(head0));
    let ghost head1 = head0 + repeated("to[]"@, strings(mail_info.to@));
    append_strings(&mut encoder, "toname[]", &mail_info.to_names, Ghost(head1));
    let ghost head2 = head1 + repeated("toname[]"@, strings(mail_info.to_names@));
    append_strings(&mut encoder, "cc[]", &mail_info.cc, Ghost(head2));
    let ghost head3 = head2 + repeated("cc[]"@, strings(mail_info.cc@));
    append_strings(&mut encoder, "bcc[]", &mail_info.bcc, Ghost(head3));
    let ghost head4 = head3 + repeated("bcc[]"@, strings(mail_info.bcc@));
    append_keyed(&mut encoder, "files", &mail_info.attachments, Ghost(head4));
    let ghost head5 = head4 + keyed("files"@, mail_info.attachments@);
    append_keyed(&mut encoder, "content", &mail_info.content, Ghost(head5));
    let ghost head6 = head5 + keyed("content"@, mail_info.content@);

    let headers = mail_info.make_header_string();
    append_scalars(
        &mut encoder,
        mail_info.from,
        mail_info.subject,
        mail_info.html,
        mail_info.text,
        mail_info.from_name,
        mail_info.reply_to,
        mail_info.date.as_str(),
        headers.as_str(),
        mail_info.x_smtpapi.as_str(),
        Ghost(head6),
    );
    assert(head6 + scalar_pairs(mail_fields(mail_info).scalars) =~= mail_pairs(mail_info));
    form_finish(encoder)
}

/// This is the struct that allows you to authenticate to the SendGrid API.
/// It's only field is the API key which allows you to send messages.
#[derive(Clone, Debug)]
pub struct SGClient {
    api_key: String,
}

impl SGClient {
    /// The credential.
    pub closed spec fn api_key(self) -> Seq<char> {
        self.api_key@
    }

    /// Makes a new SendGrid cient with the specified API key.
    pub fn new(key: String) -> (r: SGClient)
        ensures
            r.api_key() == key@,
    {
        SGClient { api_key: key }
    }

    /// Prepares the request that sends `mail_info`: a POST to the form API, with the
    /// credential as a bearer token, the form content type and the user agent
    /// for its headers, the message as a form for its body. A message needs a
    /// recipient before it is sent.
    pub fn request(&self, mail_info: Mail) -> (r: SendgridResult<Request>)
        requires
            mail_info.to@.len() > 0,
        ensures
            r is Ok <==> is_header_value(bearer(self.api_key())),
            r matches Err(e) ==> e is InvalidHeader,
            r matches Ok(request) ==> {
                &&& request.method is Post
                &&& request.url@ == API_URL@
                &&& header_views(request.headers@) == send_headers(
                    self.api_key(),
                    FORM_CONTENT_TYPE@,
                )
                &&& request.body@ == form_body(mail_pairs(mail_info))
            },
    {
        let headers = match build_headers(self.api_key.as_str(), FORM_CONTENT_TYPE) {
            Ok(headers) => headers,
            Err(e) => {
                return Err(e);
            },
        };
        Ok(
            Request {
                method: Method::Post,
                url: API_URL.to_owned(),
                headers,
                body: make_post_body(mail_info),
            },
        )
    }
}

} // verus!
