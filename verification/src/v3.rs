//! The JSON API: the message, its parts, and the sender that prepares a request.

pub mod attachment;
pub mod email;
pub mod message;
pub mod optional;
pub mod personalization;
pub mod sender;
pub mod template;
pub mod tracking;
pub mod unsubscribe;

pub use attachment::{Attachment, Disposition};
pub use email::{Content, Email};
pub use message::MailSettings;
pub use personalization::Personalization;
pub use sender::Sender;
pub use tracking::{
    ClickTrackingSetting, OpenTrackingSetting, SubscriptionTrackingSetting, TrackingSettings,
};
pub use unsubscribe::ASM;

use vstd::prelude::*;
use crate::json::{
    array_of, array_of_strings, docs, field, has_member, lemma_has_member_concat,
    lemma_has_member_field, lemma_has_member_optional, lemma_no_null_concat, members_of,
    no_null_member, opt_doc, opt_str, opt_text, optional, put, put_opt, put_opt_str, render,
    strings_doc, JsonDoc, JsonValue, Members, ToJson,
};
use attachment::AttachmentView;
use email::{ContentView, EmailView};
use message::MailSettingsView;
use optional::{opt_texts, opt_view, opt_views, or_empty, texts, views};
use personalization::PersonalizationView;
use unsubscribe::AsmView;

verus! {

/// What a [`Message`] holds.
pub struct MessageView {
    pub from: EmailView,
    pub subject: Seq<char>,
    pub personalizations: Seq<PersonalizationView>,
    pub categories: Option<Seq<Seq<char>>>,
    pub ip_pool_name: Option<Seq<char>>,
    pub reply_to: Option<EmailView>,
    pub content: Option<Seq<ContentView>>,
    pub attachments: Option<Seq<AttachmentView>>,
    pub template_id: Option<Seq<char>>,
    pub tracking_settings: Option<TrackingSettings>,
    pub mail_settings: Option<MailSettingsView>,
    pub unsubscribe: Option<AsmView>,
}

/// An array of personalization blocks.
pub open spec fn personalizations_doc(items: Seq<PersonalizationView>) -> JsonDoc {
    JsonDoc::Array(items.map_values(|p: PersonalizationView| JsonDoc::Object(p.members())))
}

/// An array of strings, where there are any.
pub open spec fn opt_strings_doc(items: Option<Seq<Seq<char>>>) -> Option<JsonDoc> {
    match items {
        Some(list) => Some(strings_doc(list)),
        None => None,
    }
}

/// An address as an object, where there is one.
pub open spec fn opt_email_doc(email: Option<EmailView>) -> Option<JsonDoc> {
    match email {
        Some(e) => Some(JsonDoc::Object(e.members())),
        None => None,
    }
}

/// An array of bodies, where there are any.
pub open spec fn opt_contents_doc(items: Option<Seq<ContentView>>) -> Option<JsonDoc> {
    match items {
        Some(list) => Some(
            JsonDoc::Array(list.map_values(|c: ContentView| JsonDoc::Object(c.members()))),
        ),
        None => None,
    }
}

/// An array of attachments, where there are any.
pub open spec fn opt_attachments_doc(items: Option<Seq<AttachmentView>>) -> Option<JsonDoc> {
    match items {
        Some(list) => Some(
            JsonDoc::Array(list.map_values(|a: AttachmentView| JsonDoc::Object(a.members()))),
        ),
        None => None,
    }
}

/// Mail settings as an object, where there are any.
pub open spec fn opt_mail_settings_doc(settings: Option<MailSettingsView>) -> Option<JsonDoc> {
    match settings {
        Some(s) => Some(JsonDoc::Object(s.members())),
        None => None,
    }
}

/// Unsubscribe settings as an object, where there are any.
pub open spec fn opt_unsubscribe_doc(settings: Option<AsmView>) -> Option<JsonDoc> {
    match settings {
        Some(s) => Some(JsonDoc::Object(s.members())),
        None => None,
    }
}

impl MessageView {
    /// The members of the message: `from`, `subject` and `personalizations`
    /// always, then each of the others where it is set.
    pub open spec fn members(self) -> Members {
        field("from"@, JsonDoc::Object(self.from.members())) + field(
            "subject"@,
            JsonDoc::Str(self.subject),
        ) + field("personalizations"@, personalizations_doc(self.personalizations)) + optional(
            "categories"@,
            opt_strings_doc(self.categories),
        ) + optional("ip_pool_name"@, opt_str(self.ip_pool_name)) + optional(
            "reply_to"@,
            opt_email_doc(self.reply_to),
        ) + optional("content"@, opt_contents_doc(self.content)) + optional(
            "attachments"@,
            opt_attachments_doc(self.attachments),
        ) + optional("template_id"@, opt_str(self.template_id)) + optional(
            "tracking_settings"@,
            opt_doc(self.tracking_settings),
        ) + optional("mail_settings"@, opt_mail_settings_doc(self.mail_settings)) + optional(
            "asm"@,
            opt_unsubscribe_doc(self.unsubscribe),
        )
    }

    /// The JSON document of the message.
    pub open spec fn doc(self) -> JsonDoc {
        JsonDoc::Object(self.members())
    }

    /// The JSON text of the message.
    pub open spec fn json(self) -> Seq<char> {
        render(self.doc())
    }

    /// The message with one more category.
    pub open spec fn add_category(self, category: Seq<char>) -> MessageView {
        MessageView { categories: Some(or_empty(self.categories).push(category)), ..self }
    }

    /// The message with more categories.
    pub open spec fn add_categories(self, categories: Seq<Seq<char>>) -> MessageView {
        MessageView { categories: Some(or_empty(self.categories) + categories), ..self }
    }
}

/// The main structure for a V3 API mail send call. This is composed of many other smaller
/// structures used to add lots of customization to your message.
#[derive(Debug)]
pub struct Message {
    from: Email,
    subject: String,
    personalizations: Vec<Personalization>,
    categories: Option<Vec<String>>,
    ip_pool_name: Option<String>,
    reply_to: Option<Email>,
    content: Option<Vec<Content>>,
    attachments: Option<Vec<Attachment>>,
    template_id: Option<String>,
    tracking_settings: Option<TrackingSettings>,
    mail_settings: Option<MailSettings>,
    unsubscribe: Option<ASM>,
}

impl View for Message {
    type V = MessageView;

    closed spec fn view(&self) -> MessageView {
        MessageView {
            from: self.from@,
            subject: self.subject@,
            personalizations: views(self.personalizations@),
            categories: opt_texts(self.categories),
            ip_pool_name: opt_text(self.ip_pool_name),
            reply_to: opt_view(self.reply_to),
            content: opt_views(self.content),
            attachments: opt_views(self.attachments),
            template_id: opt_text(self.template_id),
            tracking_settings: self.tracking_settings,
            mail_settings: opt_view(self.mail_settings),
            unsubscribe: opt_view(self.unsubscribe),
        }
    }
}

impl Message {
    /// Construct a new V3 message.
    pub fn new(from: Email) -> (r: Message)
        ensures
            r@ == (MessageView {
                from: from@,
                subject: Seq::empty(),
                personalizations: Seq::empty(),
                categories: None,
                ip_pool_name: None,
                reply_to: None,
                content: None,
                attachments: None,
                template_id: None,
                tracking_settings: None,
                mail_settings: None,
                unsubscribe: None,
            }),
    {
        let r = Message {
            from,
            subject: String::new(),
            personalizations: Vec::new(),
            reply_to: None,
            content: None,
            attachments: None,
            template_id: None,
            categories: None,
            ip_pool_name: None,
            tracking_settings: None,
            mail_settings: None,
            unsubscribe: None,
        };
        assert(views(r.personalizations@) =~= Seq::<PersonalizationView>::empty());
        r
    }

    /// Set the from address.
    pub fn set_from(self, from: Email) -> (r: Message)
        ensures
            r@ == (MessageView { from: from@, ..self@ }),
    {
        let mut r = self;
        r.from = from;
        r
    }

    /// Set the Reply-To header.
    pub fn set_reply_to(self, reply_to: Email) -> (r: Message)
        ensures
            r@ == (MessageView { reply_to: Some(reply_to@), ..self@ }),
    {
        let mut r = self;
        r.reply_to = Some(reply_to);
        r
    }

    /// Set the subject.
    pub fn set_subject(self, subject: &str) -> (r: Message)
        ensures
            r@ == (MessageView { subject: subject@, ..self@ }),
    {
        let mut r = self;
        r.subject = subject.to_owned();
        r
    }

    /// Set the template id.
    pub fn set_template_id(self, template_id: &str) -> (r: Message)
        ensures
            r@ == (MessageView { template_id: Some(template_id@), ..self@ }),
    {
        let mut r = self;
        r.template_id = Some(template_id.to_owned());
        r
    }

    /// Set the IP pool name.
    pub fn set_ip_pool_name(self, ip_pool_name: &str) -> (r: Message)
        ensures
            r@ == (MessageView { ip_pool_name: Some(ip_pool_name@), ..self@ }),
    {
        let mut r = self;
        r.ip_pool_name = Some(ip_pool_name.to_owned());
        r
    }

    /// Set tracking settings.
    pub fn set_tracking_settings(self, tracking_settings: TrackingSettings) -> (r: Message)
        ensures
            r@ == (MessageView { tracking_settings: Some(tracking_settings), ..self@ }),
    {
        let mut r = self;
        r.tracking_settings = Some(tracking_settings);
        r
    }

    /// Set mail settings.
    pub fn set_mail_settings(self, mail_settings: MailSettings) -> (r: Message)
        ensures
            r@ == (MessageView { mail_settings: Some(mail_settings@), ..self@ }),
    {
        let mut r = self;
        r.mail_settings = Some(mail_settings);
        r
    }

    /// Set unsubscribe settings.
    pub fn set_asm(self, settings: ASM) -> (r: Message)
        ensures
            r@ == (MessageView { unsubscribe: Some(settings@), ..self@ }),
    {
        let mut r = self;
        r.unsubscribe = Some(settings);
        r
    }

    /// Add a category.
    pub fn add_category(self, category: &str) -> (r: Message)
        ensures
            r@ == self@.add_category(category@),
    {
        let mut r = self;
        let mut list = match r.categories {
            Some(list) => list,
            None => Vec::new(),
        };
        let ghost before = texts(list@);
        assert(before =~= or_empty(self@.categories));
        list.push(category.to_owned());
        assert(texts(list@) =~= before.push(category@));
        r.categories = Some(list);
        r
    }

    /// Add multiple categories.
    pub fn add_categories(self, categories: &[String]) -> (r: Message)
        ensures
            r@ == self@.add_categories(texts(categories@)),
    {
        let mut r = self;
        let mut list = match r.categories {
            Some(list) => list,
            None => Vec::new(),
        };
        let ghost before = texts(list@);
        assert(before =~= or_empty(self@.categories));
        let mut i: usize = 0;
        assert(before + texts(categories@).take(0) =~= before);
        while i < categories.len()
            invariant
                i <= categories@.len(),
                texts(list@) == before + texts(categories@).take(i as int),
            decreases categories@.len() - i,
        {
            let ghost filled = texts(list@);
            list.push(categories[i].clone());
            assert(texts(list@) =~= filled.push(categories@[i as int]@));
            assert(filled.push(categories@[i as int]@) =~= before + texts(categories@).take(
                i as int + 1,
            ));
            i = i + 1;
        }
        assert(texts(categories@).take(categories@.len() as int) =~= texts(categories@));
        r.categories = Some(list);
        r
    }

    /// Add content to the message.
    pub fn add_content(self, c: Content) -> (r: Message)
        ensures
            r@ == (MessageView { content: Some(or_empty(self@.content).push(c@)), ..self@ }),
    {
        let mut r = self;
        let mut list = match r.content {
            Some(list) => list,
            None => Vec::new(),
        };
        let ghost before = views(list@);
        assert(before =~= or_empty(self@.content));
        list.push(c);
        assert(views(list@) =~= before.push(c@));
        r.content = Some(list);
        r
    }

    /// Add a personalization to the message.
    pub fn add_personalization(self, p: Personalization) -> (r: Message)
        ensures
            r@ == (MessageView { personalizations: self@.personalizations.push(p@), ..self@ }),
    {
        let mut r = self;
        let ghost before = views(r.personalizations@);
        r.personalizations.push(p);
        assert(views(r.personalizations@) =~= before.push(p@));
        r
    }

    /// Add an attachment to the message.
    pub fn add_attachment(self, a: Attachment) -> (r: Message)
        ensures
            r@ == (MessageView {
                attachments: Some(or_empty(self@.attachments).push(a@)),
                ..self@
            }),
    {
        let mut r = self;
        let mut list = match r.attachments {
            Some(list) => list,
            None => Vec::new(),
        };
        let ghost before = views(list@);
        assert(before =~= or_empty(self@.attachments));
        list.push(a);
        assert(views(list@) =~= before.push(a@));
        r.attachments = Some(list);
        r
    }

    /// The message as the JSON text that is sent.
    pub fn gen_json(&self) -> (text: String)
        ensures
            text@ == self@.json(),
    {
        self.to_json().to_text()
    }
}

impl ToJson for Message {
    open spec fn doc(&self) -> JsonDoc {
        self@.doc()
    }

    fn to_json(&self) -> (v: JsonValue) {
        let mut members: Vec<(String, JsonValue)> = Vec::new();
        assert(members_of(members@) =~= Members::empty());
        put(&mut members, "from", self.from.to_json());
        put(&mut members, "subject", JsonValue::Str(self.subject.clone()));
        let blocks = array_of(&self.personalizations);
        assert(docs(self.personalizations@) =~= views(self.personalizations@).map_values(
            |p: PersonalizationView| JsonDoc::Object(p.members()),
        ));
        put(&mut members, "personalizations", blocks);
        match &self.categories {
            Some(list) => {
                put(&mut members, "categories", array_of_strings(list));
            },
            None => {},
        }
        put_opt_str(&mut members, "ip_pool_name", &self.ip_pool_name);
        put_opt(&mut members, "reply_to", &self.reply_to);
        match &self.content {
            Some(list) => {
                let bodies = array_of(list);
                assert(docs(list@) =~= views(list@).map_values(
                    |c: ContentView| JsonDoc::Object(c.members()),
                ));
                put(&mut members, "content", bodies);
            },
            None => {},
        }
        match &self.attachments {
            Some(list) => {
                let files = array_of(list);
                assert(docs(list@) =~= views(list@).map_values(
                    |a: AttachmentView| JsonDoc::Object(a.members()),
                ));
                put(&mut members, "attachments", files);
            },
            None => {},
        }
        put_opt_str(&mut members, "template_id", &self.template_id);
        put_opt(&mut members, "tracking_settings", &self.tracking_settings);
        put_opt(&mut members, "mail_settings", &self.mail_settings);
        put_opt(&mut members, "asm", &self.unsubscribe);
        assert(members_of(members@) =~= self@.members());
        JsonValue::Object(members)
    }
}

/// Of the members of a message, `from`, `subject` and `personalizations` are
/// always there; each of the others is there if and only if the field is set,
/// so that a field that is not set leaves no key behind; and no member is null.
pub proof fn lemma_unset_fields_are_omitted(m: MessageView)
    ensures
        has_member(m.members(), "from"@),
        has_member(m.members(), "subject"@),
        has_member(m.members(), "personalizations"@),
        has_member(m.members(), "categories"@) <==> m.categories is Some,
        has_member(m.members(), "ip_pool_name"@) <==> m.ip_pool_name is Some,
        has_member(m.members(), "reply_to"@) <==> m.reply_to is Some,
        has_member(m.members(), "content"@) <==> m.content is Some,
        has_member(m.members(), "attachments"@) <==> m.attachments is Some,
        has_member(m.members(), "template_id"@) <==> m.template_id is Some,
        has_member(m.members(), "tracking_settings"@) <==> m.tracking_settings is Some,
        has_member(m.members(), "mail_settings"@) <==> m.mail_settings is Some,
        has_member(m.members(), "asm"@) <==> m.unsubscribe is Some,
        no_null_member(m.members()),
{
    reveal_strlit("from");
    reveal_strlit("subject");
    reveal_strlit("personalizations");
    reveal_strlit("categories");
    reveal_strlit("ip_pool_name");
    reveal_strlit("reply_to");
    reveal_strlit("content");
    reveal_strlit("attachments");
    reveal_strlit("template_id");
    reveal_strlit("tracking_settings");
    reveal_strlit("mail_settings");
    reveal_strlit("asm");
    let head0 = field("from"@, JsonDoc::Object(m.from.members()));
    let part1 = field("subject"@, JsonDoc::Str(m.subject));
    let part2 = field("personalizations"@, personalizations_doc(m.personalizations));
    let part3 = optional("categories"@, opt_strings_doc(m.categories));
    let part4 = optional("ip_pool_name"@, opt_str(m.ip_pool_name));
    let part5 = optional("reply_to"@, opt_email_doc(m.reply_to));
    let part6 = optional("content"@, opt_contents_doc(m.content));
    let part7 = optional("attachments"@, opt_attachments_doc(m.attachments));
    let part8 = optional("template_id"@, opt_str(m.template_id));
    let part9 = optional("tracking_settings"@, opt_doc(m.tracking_settings));
    let part10 = optional("mail_settings"@, opt_mail_settings_doc(m.mail_settings));
    let part11 = optional("asm"@, opt_unsubscribe_doc(m.unsubscribe));
    let head1 = head0 + part1;
    let head2 = head1 + part2;
    let head3 = head2 + part3;
    let head4 = head3 + part4;
    let head5 = head4 + part5;
    let head6 = head5 + part6;
    let head7 = head6 + part7;
    let head8 = head7 + part8;
    let head9 = head8 + part9;
    let head10 = head9 + part10;
    assert(m.members() == head10 + part11);
    lemma_no_null_concat(head0, part1);
    lemma_no_null_concat(head1, part2);
    lemma_no_null_concat(head2, part3);
    lemma_no_null_concat(head3, part4);
    lemma_no_null_concat(head4, part5);
    lemma_no_null_concat(head5, part6);
    lemma_no_null_concat(head6, part7);
    lemma_no_null_concat(head7, part8);
    lemma_no_null_concat(head8, part9);
    lemma_no_null_concat(head9, part10);
    lemma_no_null_concat(head10, part11);
    assert forall|key: Seq<char>|
        has_member(m.members(), key) <==> (key == "from"@ || key == "subject"@ || key
            == "personalizations"@ || (key == "categories"@ && m.categories is Some) || (key
            == "ip_pool_name"@ && m.ip_pool_name is Some) || (key == "reply_to"@ && m.reply_to
            is Some) || (key == "content"@ && m.content is Some) || (key == "attachments"@
            && m.attachments is Some) || (key == "template_id"@ && m.template_id is Some) || (key
            == "tracking_settings"@ && m.tracking_settings is Some) || (key == "mail_settings"@
            && m.mail_settings is Some) || (key == "asm"@ && m.unsubscribe is Some)) by {
        lemma_has_member_field("from"@, JsonDoc::Object(m.from.members()), key);
        lemma_has_member_field("subject"@, JsonDoc::Str(m.subject), key);
        lemma_has_member_field("personalizations"@, personalizations_doc(m.personalizations), key);
        lemma_has_member_optional("categories"@, opt_strings_doc(m.categories), key);
        lemma_has_member_optional("ip_pool_name"@, opt_str(m.ip_pool_name), key);
        lemma_has_member_optional("reply_to"@, opt_email_doc(m.reply_to), key);
        lemma_has_member_optional("content"@, opt_contents_doc(m.content), key);
        lemma_has_member_optional("attachments"@, opt_attachments_doc(m.attachments), key);
        lemma_has_member_optional("template_id"@, opt_str(m.template_id), key);
        lemma_has_member_optional("tracking_settings"@, opt_doc(m.tracking_settings), key);
        lemma_has_member_optional("mail_settings"@, opt_mail_settings_doc(m.mail_settings), key);
        lemma_has_member_optional("asm"@, opt_unsubscribe_doc(m.unsubscribe), key);
        lemma_has_member_concat(head0, part1, key);
        lemma_has_member_concat(head1, part2, key);
        lemma_has_member_concat(head2, part3, key);
        lemma_has_member_concat(head3, part4, key);
        lemma_has_member_concat(head4, part5, key);
        lemma_has_member_concat(head5, part6, key);
        lemma_has_member_concat(head6, part7, key);
        lemma_has_member_concat(head7, part8, key);
        lemma_has_member_concat(head8, part9, key);
        lemma_has_member_concat(head9, part10, key);
        lemma_has_member_concat(head10, part11, key);
    }
    assert("from"@[0] == 'f' && "subject"@[0] == 's' && "personalizations"@[0] == 'p');
    assert("categories"@[1] == 'a' && "content"@[1] == 'o');
    assert("attachments"@[1] == 't' && "asm"@[1] == 's');
    assert("ip_pool_name"@[0] == 'i' && "reply_to"@[0] == 'r' && "mail_settings"@[0] == 'm');
    assert("template_id"@[1] == 'e' && "tracking_settings"@[1] == 'r');
}

/// One call that adds to the categories of a message.
pub enum CategoryCall {
    /// `add_category` with this category.
    Single(Seq<char>),
    /// `add_categories` with these categories.
    Bulk(Seq<Seq<char>>),
}

/// The message after the calls `calls`, first to last.
pub open spec fn after_calls(m: MessageView, calls: Seq<CategoryCall>) -> MessageView
    decreases calls.len(),
{
    if calls.len() == 0 {
        m
    } else {
        match calls.last() {
            CategoryCall::Single(category) => after_calls(m, calls.drop_last()).add_category(
                category,
            ),
            CategoryCall::Bulk(categories) => after_calls(m, calls.drop_last()).add_categories(
                categories,
            ),
        }
    }
}

/// The categories that the calls `calls` add, in order.
pub open spec fn added_by(calls: Seq<CategoryCall>) -> Seq<Seq<char>>
    decreases calls.len(),
{
    if calls.len() == 0 {
        Seq::empty()
    } else {
        match calls.last() {
            CategoryCall::Single(category) => added_by(calls.drop_last()).push(category),
            CategoryCall::Bulk(categories) => added_by(calls.drop_last()) + categories,
        }
    }
}

/// After one call or more, the categories of a message are those it had and
/// those that the calls added, in order; nothing else has changed.
pub proof fn lemma_categories_after_calls(m: MessageView, calls: Seq<CategoryCall>)
    requires
        calls.len() > 0,
    ensures
        after_calls(m, calls) == (MessageView {
            categories: Some(or_empty(m.categories) + added_by(calls)),
            ..m
        }),
    decreases calls.len(),
{
    let before = calls.drop_last();
    if before.len() == 0 {
        assert(added_by(before) =~= Seq::<Seq<char>>::empty());
        assert(after_calls(m, before) == m);
    } else {
        lemma_categories_after_calls(m, before);
    }
    let held = or_empty(after_calls(m, before).categories);
    assert(held =~= or_empty(m.categories) + added_by(before));
    match calls.last() {
        CategoryCall::Single(category) => {
            assert(held.push(category) =~= or_empty(m.categories) + added_by(calls));
        },
        CategoryCall::Bulk(categories) => {
            assert(held + categories =~= or_empty(m.categories) + added_by(calls));
        },
    }
}

/// Two ways of adding the same categories to a message, each of one call or
/// more, end in the same message and so in the same JSON text, whatever mix of
/// single and bulk additions each of them is.
pub proof fn lemma_categories_do_not_depend_on_calls(
    m: MessageView,
    one: Seq<CategoryCall>,
    other: Seq<CategoryCall>,
)
    requires
        one.len() > 0,
        other.len() > 0,
        added_by(one) == added_by(other),
    ensures
        after_calls(m, one) == after_calls(m, other),
        after_calls(m, one).json() == after_calls(m, other).json(),
{
    lemma_categories_after_calls(m, one);
    lemma_categories_after_calls(m, other);
}

/// The JSON text of a message depends on nothing but what the message holds:
/// two messages that hold the same are written as the same document and the
/// same text, and so is one message that is encoded twice.
pub proof fn lemma_encoding_repeats(one: Message, other: Message)
    requires
        one@ == other@,
    ensures
        one.doc() == other.doc(),
        one@.json() == other@.json(),
{
}

} // verus!
