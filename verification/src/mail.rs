//! The message of the form API, built by chaining.

use vstd::prelude::*;
use crate::error::{SendgridError, SendgridResult};
use crate::fields::{inserted, text_members, Pairs, SGMap};
use crate::json::{render, JsonDoc};

verus! {

/// A destination is a combination of an email address and a name to whom emails can be sent.
#[derive(Debug)]
pub struct Destination<'a> {
    /// The email address to which the email will be sent.
    pub address: &'a str,
    /// The display name of the recipient.
    pub name: &'a str,
}

impl<'a> From<(&'a str, &'a str)> for Destination<'a> {
    fn from(pair: (&'a str, &'a str)) -> (d: Self) {
        Destination { address: pair.0, name: pair.1 }
    }
}

impl<'a> vstd::std_specs::convert::FromSpecImpl<(&'a str, &'a str)> for Destination<'a> {
    open spec fn obeys_from_spec() -> bool {
        true
    }

    /// The first of the pair is the address, the second the name.
    open spec fn from_spec(pair: (&'a str, &'a str)) -> Self {
        Destination { address: pair.0, name: pair.1 }
    }
}

/// This is a representation of a valid SendGrid message. It has support for
/// all of the fields in the V2 API.
#[derive(Debug)]
pub struct Mail<'a> {
    /// The list of people to whom the email will be sent.
    pub to: Vec<Destination<'a>>,
    /// The list of people that are CC'd in this email.
    pub cc: Vec<&'a str>,
    /// The list of people that are BCC'd in this email.
    pub bcc: Vec<&'a str>,
    /// The email address that will be used as sender.
    pub from: &'a str,
    /// The subject field of the email.
    pub subject: &'a str,
    /// The message as HTML.
    pub html: &'a str,
    /// The message as plain text, the fallback where HTML is not shown.
    pub text: &'a str,
    /// This is the name that will be used as sender.
    pub from_name: &'a str,
    /// This is the email address that is used as a reply to field.
    pub reply_to: &'a str,
    /// The date added to the header of this email, an RFC 822 timestamp.
    pub date: &'a str,
    /// The attachments of this email: file name and contents.
    pub attachments: SGMap,
    /// Content IDs of the files to be used as inline images.
    pub content: SGMap,
    /// Custom headers: header name and header value.
    pub headers: SGMap,
    /// The `X-SMTPAPI` header that is used.
    pub x_smtpapi: &'a str,
}

impl<'a> Mail<'a> {
    /// Returns a new Mail struct to send with a client. All of the fields are
    /// initially empty.
    pub fn new() -> (m: Mail<'a>)
        ensures
            m.to@ == Seq::<Destination<'a>>::empty(),
            m.cc@ == Seq::<&'a str>::empty(),
            m.bcc@ == Seq::<&'a str>::empty(),
            m.from@ == Seq::<char>::empty(),
            m.subject@ == Seq::<char>::empty(),
            m.html@ == Seq::<char>::empty(),
            m.text@ == Seq::<char>::empty(),
            m.from_name@ == Seq::<char>::empty(),
            m.reply_to@ == Seq::<char>::empty(),
            m.date@ == Seq::<char>::empty(),
            m.attachments@ == Pairs::empty(),
            m.content@ == Pairs::empty(),
            m.headers@ == Pairs::empty(),
            m.x_smtpapi@ == Seq::<char>::empty(),
    {
        proof {
            reveal_strlit("");
            assert(""@ =~= Seq::<char>::empty());
        }
        Mail {
            to: Vec::new(),
            cc: Vec::new(),
            bcc: Vec::new(),
            from: "",
            subject: "",
            html: "",
            text: "",
            from_name: "",
            reply_to: "",
            date: "",
            attachments: SGMap::new(),
            content: SGMap::new(),
            headers: SGMap::new(),
            x_smtpapi: "",
        }
    }

    /// Adds a CC recipient to the Mail struct.
    pub fn add_cc(self, data: &'a str) -> (m: Mail<'a>)
        ensures
            m.cc@ == self.cc@.push(data),
            m == (Mail { cc: m.cc, ..self }),
    {
        let mut m = self;
        m.cc.push(data);
        m
    }

    /// Adds a to recipient to the Mail struct.
    pub fn add_to(self, data: Destination<'a>) -> (m: Mail<'a>)
        ensures
            m.to@ == self.to@.push(data),
            m == (Mail { to: m.to, ..self }),
    {
        let mut m = self;
        m.to.push(data);
        m
    }

    /// Set the from address for the Mail struct. This can be changed, but there
    /// is only one from address per message.
    pub fn add_from(self, data: &'a str) -> (m: Mail<'a>)
        ensures
            m == (Mail { from: data, ..self }),
    {
        let mut m = self;
        m.from = data;
        m
    }

    /// Set the subject of the message.
    pub fn add_subject(self, data: &'a str) -> (m: Mail<'a>)
        ensures
            m == (Mail { subject: data, ..self }),
    {
        let mut m = self;
        m.subject = data;
        m
    }

    /// This function sets the HTML content for the message.
    pub fn add_html(self, data: &'a str) -> (m: Mail<'a>)
        ensures
            m == (Mail { html: data, ..self }),
    {
        let mut m = self;
        m.html = data;
        m
    }

    /// Set the text content of the message.
    pub fn add_text(self, data: &'a str) -> (m: Mail<'a>)
        ensures
            m == (Mail { text: data, ..self }),
    {
        let mut m = self;
        m.text = data;
        m
    }

    /// Add a BCC address to the message.
    pub fn add_bcc(self, data: &'a str) -> (m: Mail<'a>)
        ensures
            m.bcc@ == self.bcc@.push(data),
            m == (Mail { bcc: m.bcc, ..self }),
    {
        let mut m = self;
        m.bcc.push(data);
        m
    }

    /// Set the from name for the message.
    pub fn add_from_name(self, data: &'a str) -> (m: Mail<'a>)
        ensures
            m == (Mail { from_name: data, ..self }),
    {
        let mut m = self;
        m.from_name = data;
        m
    }

    /// Set the reply to address for the message.
    pub fn add_reply_to(self, data: &'a str) -> (m: Mail<'a>)
        ensures
            m == (Mail { reply_to: data, ..self }),
    {
        let mut m = self;
        m.reply_to = data;
        m
    }

    /// Set the date for the message. This must be a valid RFC 822 timestamp.
    pub fn add_date(self, data: &'a str) -> (m: Mail<'a>)
        ensures
            m == (Mail { date: data, ..self }),
    {
        let mut m = self;
        m.date = data;
        m
    }

    /// Convenience method when using Mail as a builder.
    pub fn build(self) -> (m: Mail<'a>)
        ensures
            m == self,
    {
        self
    }

    /// Attaches the file `name` with the contents `data`. A file of that name
    /// that is attached already gets the new contents.
    pub fn add_attachment_data(self, name: String, data: String) -> (m: Mail<'a>)
        ensures
            m.attachments@ == inserted(self.attachments@, name@, data@),
            m == (Mail { attachments: m.attachments, ..self }),
    {
        let mut m = self;
        m.attachments.insert(name, data);
        m
    }

    /// Attaches a file that was read from disk: `read` is what reading gave,
    /// `name` the path as text, where it is text. A failed read is reported as
    /// it is; a path that is no text is refused; else the file is attached
    /// under its path.
    pub fn add_attachment(
        self,
        name: Option<&str>,
        read: Result<String, std::io::Error>,
    ) -> (r: SendgridResult<Mail<'a>>)
        ensures
            read is Err ==> r is Err && r->Err_0 == SendgridError::Io(read->Err_0),
            read is Ok && name is None ==> r is Err && r->Err_0 is InvalidFilename,
            read is Ok && name is Some ==> r is Ok && r->Ok_0.attachments@ == inserted(
                self.attachments@,
                name->Some_0@,
                read->Ok_0@,
            ) && r->Ok_0 == (Mail { attachments: r->Ok_0.attachments, ..self }),
    {
        let data = match read {
            Ok(data) => data,
            Err(e) => {
                return Err(SendgridError::Io(e));
            },
        };
        match name {
            Some(name) => Ok(self.add_attachment_data(name.to_owned(), data)),
            None => Err(SendgridError::InvalidFilename),
        }
    }

    /// Add content for inline images in the message.
    pub fn add_content(self, id: String, data: &'a str) -> (m: Mail<'a>)
        ensures
            m.content@ == inserted(self.content@, id@, data@),
            m == (Mail { content: m.content, ..self }),
    {
        let mut m = self;
        m.content.insert(id, data.to_owned());
        m
    }

    /// Add a custom header for the message. These are usually prefixed with
    /// 'X' or 'x' per the RFC specifications.
    pub fn add_header(self, id: String, data: &'a str) -> (m: Mail<'a>)
        ensures
            m.headers@ == inserted(self.headers@, id@, data@),
            m == (Mail { headers: m.headers, ..self }),
    {
        let mut m = self;
        m.headers.insert(id, data.to_owned());
        m
    }

    /// The custom headers as the text of one JSON object.
    pub fn make_header_string(&self) -> (text: String)
        ensures
            text@ == render(JsonDoc::Object(text_members(self.headers@))),
    {
        self.headers.to_json().to_text()
    }

    /// Add an X-SMTPAPI string to the message: a JSON document as text.
    pub fn add_x_smtpapi(self, data: &'a str) -> (m: Mail<'a>)
        ensures
            m == (Mail { x_smtpapi: data, ..self }),
    {
        let mut m = self;
        m.x_smtpapi = data;
        m
    }
}

impl<'a> Default for Mail<'a> {
    /// A message of which every field is empty.
    fn default() -> (m: Mail<'a>)
        ensures
            m.to@ == Seq::<Destination<'a>>::empty(),
            m.cc@ == Seq::<&'a str>::empty(),
            m.bcc@ == Seq::<&'a str>::empty(),
            m.from@ == Seq::<char>::empty(),
            m.subject@ == Seq::<char>::empty(),
            m.html@ == Seq::<char>::empty(),
            m.text@ == Seq::<char>::empty(),
            m.from_name@ == Seq::<char>::empty(),
            m.reply_to@ == Seq::<char>::empty(),
            m.date@ == Seq::<char>::empty(),
            m.attachments@ == Pairs::empty(),
            m.content@ == Pairs::empty(),
            m.headers@ == Pairs::empty(),
            m.x_smtpapi@ == Seq::<char>::empty(),
    {
        Mail::new()
    }
}

} // verus!
