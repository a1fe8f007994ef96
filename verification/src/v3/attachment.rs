//! Files that travel with a message.

use vstd::prelude::*;
use crate::json::{
    field, members_of, opt_str, opt_text, optional, put, put_opt_str, JsonDoc, JsonValue,
    Members, ToJson,
};

verus! {

/// The padded base64 text of `bytes`, in the alphabet of RFC 4648, section 4.
pub uninterp spec fn base64(bytes: Seq<u8>) -> Seq<char>;

/// The most bytes that can be encoded in one piece.
pub open spec fn max_content_len() -> int {
    (usize::MAX / 512) as int
}

/// Calls `encode` on `data_encoding::BASE64`.
///
/// Claimed of it: the text is the one named by [`base64`]. The call may
/// panic on more than `usize::MAX / 512` bytes, which are left out.
#[verifier::external_body]
fn base64_encode(bytes: &[u8]) -> (text: String)
    requires
        bytes@.len() <= usize::MAX / 512,
    ensures
        text@ == base64(bytes@),
{
    data_encoding::BASE64.encode(bytes)
}

/// The Content-Disposition of the attachment specifying how you would like the attachment to be
/// displayed. For example, inline results in the attached file being displayed automatically
/// within the message. By specifying attachment, it will prompt the user to either view or
/// download the file.
#[derive(Clone, Copy, Debug)]
pub enum Disposition {
    /// Displayed automatically within the message.
    Inline,
    /// Displayed as an attached file.
    Attachment,
}

impl Disposition {
    /// The word that stands for the disposition on the wire.
    pub open spec fn word(self) -> Seq<char> {
        match self {
            Disposition::Inline => "inline"@,
            Disposition::Attachment => "attachment"@,
        }
    }

    /// The word that stands for the disposition on the wire.
    pub fn as_str(&self) -> (s: &'static str)
        ensures
            s@ == self.word(),
    {
        match self {
            Disposition::Inline => "inline",
            Disposition::Attachment => "attachment",
        }
    }
}

/// The disposition as a string, where there is one.
pub open spec fn opt_disposition(d: Option<Disposition>) -> Option<JsonDoc> {
    match d {
        Some(disposition) => Some(JsonDoc::Str(disposition.word())),
        None => None,
    }
}

/// What an [`Attachment`] holds.
pub struct AttachmentView {
    pub content: Seq<char>,
    pub filename: Seq<char>,
    pub mime_type: Option<Seq<char>>,
    pub disposition: Option<Disposition>,
    pub content_id: Option<Seq<char>>,
}

impl AttachmentView {
    /// The members of the attachment: `content` and `filename`, then `type`,
    /// `disposition` and `content_id`, each where it is set.
    pub open spec fn members(self) -> Members {
        field("content"@, JsonDoc::Str(self.content)) + field(
            "filename"@,
            JsonDoc::Str(self.filename),
        ) + optional("type"@, opt_str(self.mime_type)) + optional(
            "disposition"@,
            opt_disposition(self.disposition),
        ) + optional("content_id"@, opt_str(self.content_id))
    }
}

/// An attachment block for a V3 message. Content and filename are required. If the
/// mime_type is unspecified, the email will use Sendgrid's default for attachments
/// which is 'application/octet-stream'.
#[derive(Debug)]
pub struct Attachment {
    content: String,
    filename: String,
    mime_type: Option<String>,
    disposition: Option<Disposition>,
    content_id: Option<String>,
}

impl View for Attachment {
    type V = AttachmentView;

    closed spec fn view(&self) -> AttachmentView {
        AttachmentView {
            content: self.content@,
            filename: self.filename@,
            mime_type: opt_text(self.mime_type),
            disposition: self.disposition,
            content_id: opt_text(self.content_id),
        }
    }
}

impl Attachment {
    /// Construct a new attachment for this message.
    pub fn new() -> (r: Attachment)
        ensures
            r@ == (AttachmentView {
                content: Seq::empty(),
                filename: Seq::empty(),
                mime_type: None,
                disposition: None,
                content_id: None,
            }),
    {
        Attachment {
            content: String::new(),
            filename: String::new(),
            mime_type: None,
            disposition: None,
            content_id: None,
        }
    }

    /// The raw body of the attachment, of `usize::MAX / 512` bytes at most:
    /// that is 8 MiB less one byte where addresses have 32 bits.
    pub fn set_content(self, c: &[u8]) -> (r: Attachment)
        requires
            c@.len() <= max_content_len(),
        ensures
            r@ == (AttachmentView { content: base64(c@), ..self@ }),
    {
        let mut r = self;
        r.content = base64_encode(c);
        r
    }

    /// The raw body of the attachment, where it is not too long to be
    /// encoded; else the attachment as it was.
    pub fn try_set_content(self, c: &[u8]) -> (r: Result<Attachment, Attachment>)
        ensures
            c@.len() <= max_content_len() ==> r is Ok && r->Ok_0@ == (AttachmentView {
                content: base64(c@),
                ..self@
            }),
            c@.len() > max_content_len() ==> r is Err && r->Err_0@ == self@,
    {
        if c.len() <= usize::MAX / 512 {
            Ok(self.set_content(c))
        } else {
            Err(self)
        }
    }

    /// The base64 body of the attachment.
    pub fn set_base64_content(self, c: &str) -> (r: Attachment)
        ensures
            r@ == (AttachmentView { content: c@, ..self@ }),
    {
        let mut r = self;
        r.content = c.to_owned();
        r
    }

    /// Sets the filename for the attachment.
    pub fn set_filename(self, filename: &str) -> (r: Attachment)
        ensures
            r@ == (AttachmentView { filename: filename@, ..self@ }),
    {
        let mut r = self;
        r.filename = filename.to_owned();
        r
    }

    /// Set an optional mime type. Sendgrid will default to 'application/octet-stream'
    /// if unspecified.
    pub fn set_mime_type(self, mime: &str) -> (r: Attachment)
        ensures
            r@ == (AttachmentView { mime_type: Some(mime@), ..self@ }),
    {
        let mut r = self;
        r.mime_type = Some(mime.to_owned());
        r
    }

    /// Set an optional content id.
    pub fn set_content_idm(self, content_id: &str) -> (r: Attachment)
        ensures
            r@ == (AttachmentView { content_id: Some(content_id@), ..self@ }),
    {
        let mut r = self;
        r.content_id = Some(content_id.to_owned());
        r
    }

    /// Set an optional disposition.
    pub fn set_disposition(self, disposition: Disposition) -> (r: Attachment)
        ensures
            r@ == (AttachmentView { disposition: Some(disposition), ..self@ }),
    {
        let mut r = self;
        r.disposition = Some(disposition);
        r
    }
}

impl Default for Attachment {
    fn default() -> (r: Attachment)
        ensures
            r@ == (AttachmentView {
                content: Seq::empty(),
                filename: Seq::empty(),
                mime_type: None,
                disposition: None,
                content_id: None,
            }),
    {
        Attachment::new()
    }
}

impl ToJson for Attachment {
    open spec fn doc(&self) -> JsonDoc {
        JsonDoc::Object(self@.members())
    }

    fn to_json(&self) -> (v: JsonValue) {
        let mut members: Vec<(String, JsonValue)> = Vec::new();
        assert(members_of(members@) =~= Members::empty());
        put(&mut members, "content", JsonValue::Str(self.content.clone()));
        put(&mut members, "filename", JsonValue::Str(self.filename.clone()));
        put_opt_str(&mut members, "type", &self.mime_type);
        let ghost before = members_of(members@);
        match self.disposition {
            Some(disposition) => {
                put(&mut members, "disposition", JsonValue::Str(disposition.as_str().to_owned()));
            },
            None => {
                assert(before + Members::empty() =~= before);
            },
        }
        put_opt_str(&mut members, "content_id", &self.content_id);
        assert(members_of(members@) =~= self@.members());
        JsonValue::Object(members)
    }
}

} // verus!
