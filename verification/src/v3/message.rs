//! Provides types related to [`crate::v3::Message`].

use vstd::prelude::*;
use crate::json::{
    enable_doc, enable_json, field, members_of, opt_str, opt_text, optional, put, put_opt_str,
    JsonDoc, JsonValue, Members, ToJson,
};

verus! {

/// Used for the bypass list management setting.
#[derive(Debug)]
pub struct BypassListManagement {
    enable: bool,
}

impl View for BypassListManagement {
    type V = bool;

    closed spec fn view(&self) -> bool {
        self.enable
    }
}

impl BypassListManagement {
    /// Create a new default [`BypassListManagement`] instance.
    pub fn new() -> (r: Self)
        ensures
            r@ == false,
    {
        BypassListManagement { enable: false }
    }

    /// Enable or disable the setting
    pub fn set_enable(self, enable: bool) -> (r: Self)
        ensures
            r@ == enable,
    {
        BypassListManagement { enable }
    }
}

impl Default for BypassListManagement {
    fn default() -> (r: Self)
        ensures
            r@ == false,
    {
        BypassListManagement::new()
    }
}

impl ToJson for BypassListManagement {
    open spec fn doc(&self) -> JsonDoc {
        enable_doc(self@)
    }

    fn to_json(&self) -> (v: JsonValue) {
        enable_json(self.enable)
    }
}

/// Used for the bypass spam management setting.
#[derive(Debug)]
pub struct BypassSpamManagement {
    enable: bool,
}

impl View for BypassSpamManagement {
    type V = bool;

    closed spec fn view(&self) -> bool {
        self.enable
    }
}

impl BypassSpamManagement {
    /// Create a new default [`BypassSpamManagement`] instance.
    pub fn new() -> (r: Self)
        ensures
            r@ == false,
    {
        BypassSpamManagement { enable: false }
    }

    /// Enable or disable the setting
    pub fn set_enable(self, enable: bool) -> (r: Self)
        ensures
            r@ == enable,
    {
        BypassSpamManagement { enable }
    }
}

impl Default for BypassSpamManagement {
    fn default() -> (r: Self)
        ensures
            r@ == false,
    {
        BypassSpamManagement::new()
    }
}

impl ToJson for BypassSpamManagement {
    open spec fn doc(&self) -> JsonDoc {
        enable_doc(self@)
    }

    fn to_json(&self) -> (v: JsonValue) {
        enable_json(self.enable)
    }
}

/// Used for the bypass bounce management setting.
#[derive(Debug)]
pub struct BypassBounceManagement {
    enable: bool,
}

impl View for BypassBounceManagement {
    type V = bool;

    closed spec fn view(&self) -> bool {
        self.enable
    }
}

impl BypassBounceManagement {
    /// Create a new default [`BypassBounceManagement`] instance.
    pub fn new() -> (r: Self)
        ensures
            r@ == false,
    {
        BypassBounceManagement { enable: false }
    }

    /// Enable or disable the setting
    pub fn set_enable(self, enable: bool) -> (r: Self)
        ensures
            r@ == enable,
    {
        BypassBounceManagement { enable }
    }
}

impl Default for BypassBounceManagement {
    fn default() -> (r: Self)
        ensures
            r@ == false,
    {
        BypassBounceManagement::new()
    }
}

impl ToJson for BypassBounceManagement {
    open spec fn doc(&self) -> JsonDoc {
        enable_doc(self@)
    }

    fn to_json(&self) -> (v: JsonValue) {
        enable_json(self.enable)
    }
}

/// Used for the bypass unsubscribe management setting.
#[derive(Debug)]
pub struct BypassUnsubscribeManagement {
    enable: bool,
}

impl View for BypassUnsubscribeManagement {
    type V = bool;

    closed spec fn view(&self) -> bool {
        self.enable
    }
}

impl BypassUnsubscribeManagement {
    /// Create a new default [`BypassUnsubscribeManagement`] instance.
    pub fn new() -> (r: Self)
        ensures
            r@ == false,
    {
        BypassUnsubscribeManagement { enable: false }
    }

    /// Enable or disable the setting
    pub fn set_enable(self, enable: bool) -> (r: Self)
        ensures
            r@ == enable,
    {
        BypassUnsubscribeManagement { enable }
    }
}

impl Default for BypassUnsubscribeManagement {
    fn default() -> (r: Self)
        ensures
            r@ == false,
    {
        BypassUnsubscribeManagement::new()
    }
}

impl ToJson for BypassUnsubscribeManagement {
    open spec fn doc(&self) -> JsonDoc {
        enable_doc(self@)
    }

    fn to_json(&self) -> (v: JsonValue) {
        enable_json(self.enable)
    }
}

/// Used for the sandbox mode setting.
#[derive(Debug)]
pub struct SandboxMode {
    enable: bool,
}

impl View for SandboxMode {
    type V = bool;

    closed spec fn view(&self) -> bool {
        self.enable
    }
}

impl SandboxMode {
    /// Create a new default [`SandboxMode`] instance.
    pub fn new() -> (r: Self)
        ensures
            r@ == false,
    {
        SandboxMode { enable: false }
    }

    /// Enable or disable the setting
    pub fn set_enable(self, enable: bool) -> (r: Self)
        ensures
            r@ == enable,
    {
        SandboxMode { enable }
    }
}

impl Default for SandboxMode {
    fn default() -> (r: Self)
        ensures
            r@ == false,
    {
        SandboxMode::new()
    }
}

impl ToJson for SandboxMode {
    open spec fn doc(&self) -> JsonDoc {
        enable_doc(self@)
    }

    fn to_json(&self) -> (v: JsonValue) {
        enable_json(self.enable)
    }
}

/// Used to configure bypassing all list suppressions with the `bypass_list_management` field.
#[derive(Debug)]
pub struct TopLevelBypassFilterSettings {
    bypass_list_management: BypassListManagement,
}

impl View for TopLevelBypassFilterSettings {
    type V = bool;

    /// Whether list management is bypassed.
    closed spec fn view(&self) -> bool {
        self.bypass_list_management@
    }
}

/// The members of the top-level bypass setting: `bypass_list_management`.
pub open spec fn top_level_members(enable: bool) -> Members {
    field("bypass_list_management"@, enable_doc(enable))
}

impl TopLevelBypassFilterSettings {
    /// Create a new default [`TopLevelBypassFilterSettings`] instance.
    pub fn new() -> (r: Self)
        ensures
            r@ == false,
    {
        TopLevelBypassFilterSettings { bypass_list_management: BypassListManagement::new() }
    }

    /// Set the bypass list management setting.
    pub fn set_bypass_list_management(self, bypass_list_management: BypassListManagement) -> (r:
        Self)
        ensures
            r@ == bypass_list_management@,
    {
        TopLevelBypassFilterSettings { bypass_list_management }
    }

    /// Adds the members of the setting at the end of `members`.
    pub fn put_members(&self, members: &mut Vec<(String, JsonValue)>)
        ensures
            members_of(final(members)@) == members_of(old(members)@) + top_level_members(self@),
    {
        put(members, "bypass_list_management", self.bypass_list_management.to_json());
    }
}

impl Default for TopLevelBypassFilterSettings {
    fn default() -> (r: Self)
        ensures
            r@ == false,
    {
        TopLevelBypassFilterSettings::new()
    }
}

impl ToJson for TopLevelBypassFilterSettings {
    open spec fn doc(&self) -> JsonDoc {
        JsonDoc::Object(top_level_members(self@))
    }

    fn to_json(&self) -> (v: JsonValue) {
        let mut members: Vec<(String, JsonValue)> = Vec::new();
        assert(members_of(members@) =~= Members::empty());
        self.put_members(&mut members);
        assert(members_of(members@) =~= top_level_members(self@));
        JsonValue::Object(members)
    }
}

/// What a [`GranularBypassFilterSettings`] holds: for each sort of
/// suppression, whether it is bypassed, where that was set.
pub struct GranularBypassView {
    pub bypass_spam_management: Option<bool>,
    pub bypass_bounce_management: Option<bool>,
    pub bypass_unsubscribe_management: Option<bool>,
}

/// The object with the one member `enable`, where there is a value.
pub open spec fn opt_enable(enable: Option<bool>) -> Option<JsonDoc> {
    match enable {
        Some(b) => Some(enable_doc(b)),
        None => None,
    }
}

impl GranularBypassView {
    /// The members of the granular bypass setting: `bypass_spam_management`,
    /// `bypass_bounce_management` and `bypass_unsubscribe_management`, each
    /// where it is set.
    pub open spec fn members(self) -> Members {
        optional("bypass_spam_management"@, opt_enable(self.bypass_spam_management)) + optional(
            "bypass_bounce_management"@,
            opt_enable(self.bypass_bounce_management),
        ) + optional(
            "bypass_unsubscribe_management"@,
            opt_enable(self.bypass_unsubscribe_management),
        )
    }
}

/// Used to configure bypassing specific list suppressions with the `bypass_spam_management`,
/// `bypass_bounce_management`, and `bypass_unsubscribe_management` fields.
#[derive(Debug)]
pub struct GranularBypassFilterSettings {
    bypass_spam_management: Option<BypassSpamManagement>,
    bypass_bounce_management: Option<BypassBounceManagement>,
    bypass_unsubscribe_management: Option<BypassUnsubscribeManagement>,
}

impl View for GranularBypassFilterSettings {
    type V = GranularBypassView;

    closed spec fn view(&self) -> GranularBypassView {
        GranularBypassView {
            bypass_spam_management: match self.bypass_spam_management {
                Some(s) => Some(s@),
                None => None,
            },
            bypass_bounce_management: match self.bypass_bounce_management {
                Some(s) => Some(s@),
                None => None,
            },
            bypass_unsubscribe_management: match self.bypass_unsubscribe_management {
                Some(s) => Some(s@),
                None => None,
            },
        }
    }
}

impl GranularBypassFilterSettings {
    /// Create a new default [`GranularBypassFilterSettings`] instance.
    pub fn new() -> (r: Self)
        ensures
            r@ == (GranularBypassView {
                bypass_spam_management: None,
                bypass_bounce_management: None,
                bypass_unsubscribe_management: None,
            }),
    {
        GranularBypassFilterSettings {
            bypass_spam_management: None,
            bypass_bounce_management: None,
            bypass_unsubscribe_management: None,
        }
    }

    /// Set the bypass spam management setting.
    pub fn set_bypass_spam_management(self, bypass_spam_management: BypassSpamManagement) -> (r:
        Self)
        ensures
            r@ == (GranularBypassView {
                bypass_spam_management: Some(bypass_spam_management@),
                ..self@
            }),
    {
        let mut r = self;
        r.bypass_spam_management = Some(bypass_spam_management);
        r
    }

    /// Set the bypass bounce management setting.
    pub fn set_bypass_bounce_management(
        self,
        bypass_bounce_management: BypassBounceManagement,
    ) -> (r: Self)
        ensures
            r@ == (GranularBypassView {
                bypass_bounce_management: Some(bypass_bounce_management@),
                ..self@
            }),
    {
        let mut r = self;
        r.bypass_bounce_management = Some(bypass_bounce_management);
        r
    }

    /// Set the bypass unsubscribe management setting.
    pub fn set_bypass_unsubscribe_management(
        self,
        bypass_unsubscribe_management: BypassUnsubscribeManagement,
    ) -> (r: Self)
        ensures
            r@ == (GranularBypassView {
                bypass_unsubscribe_management: Some(bypass_unsubscribe_management@),
                ..self@
            }),
    {
        let mut r = self;
        r.bypass_unsubscribe_management = Some(bypass_unsubscribe_management);
        r
    }

    /// Adds the members of the setting at the end of `members`.
    pub fn put_members(&self, members: &mut Vec<(String, JsonValue)>)
        ensures
            members_of(final(members)@) == members_of(old(members)@) + self@.members(),
    {
        let ghost before = members_of(members@);
        match &self.bypass_spam_management {
            Some(s) => {
                put(members, "bypass_spam_management", s.to_json());
            },
            None => {},
        }
        match &self.bypass_bounce_management {
            Some(s) => {
                put(members, "bypass_bounce_management", s.to_json());
            },
            None => {},
        }
        match &self.bypass_unsubscribe_management {
            Some(s) => {
                put(members, "bypass_unsubscribe_management", s.to_json());
            },
            None => {},
        }
        assert(members_of(members@) =~= before + self@.members());
    }
}

impl Default for GranularBypassFilterSettings {
    fn default() -> (r: Self)
        ensures
            r@ == (GranularBypassView {
                bypass_spam_management: None,
                bypass_bounce_management: None,
                bypass_unsubscribe_management: None,
            }),
    {
        GranularBypassFilterSettings::new()
    }
}

impl ToJson for GranularBypassFilterSettings {
    open spec fn doc(&self) -> JsonDoc {
        JsonDoc::Object(self@.members())
    }

    fn to_json(&self) -> (v: JsonValue) {
        let mut members: Vec<(String, JsonValue)> = Vec::new();
        assert(members_of(members@) =~= Members::empty());
        self.put_members(&mut members);
        assert(members_of(members@) =~= self@.members());
        JsonValue::Object(members)
    }
}

/// What a [`BypassFilterSettings`] holds.
pub enum BypassFilterView {
    TopLevel(bool),
    Granular(GranularBypassView),
}

impl BypassFilterView {
    /// The members of the bypass setting, whichever of the two it is.
    pub open spec fn members(self) -> Members {
        match self {
            BypassFilterView::TopLevel(enable) => top_level_members(enable),
            BypassFilterView::Granular(granular) => granular.members(),
        }
    }
}

/// Settings to bypass list suppressions.
///
/// This is structured as an enum because when the `bypass_list_management` field is provided,
/// the other bypass filters (`bypass_spam_management`, `bypass_bounce_management`, and
/// `bypass_unsubscribe_management`) are ignored.
#[derive(Debug)]
pub enum BypassFilterSettings {
    /// Variant to configure bypassing all list suppressions with the `bypass_list_management` field.
    TopLevel(TopLevelBypassFilterSettings),
    /// Variant to configure bypassing specific list suppressions with the `bypass_spam_management`,
    /// `bypass_bounce_management`, and `bypass_unsubscribe_management` fields.
    Granular(GranularBypassFilterSettings),
}

impl View for BypassFilterSettings {
    type V = BypassFilterView;

    open spec fn view(&self) -> BypassFilterView {
        match self {
            BypassFilterSettings::TopLevel(top) => BypassFilterView::TopLevel(top@),
            BypassFilterSettings::Granular(granular) => BypassFilterView::Granular(granular@),
        }
    }
}

impl BypassFilterSettings {
    /// Adds the members of the setting at the end of `members`.
    pub fn put_members(&self, members: &mut Vec<(String, JsonValue)>)
        ensures
            members_of(final(members)@) == members_of(old(members)@) + self@.members(),
    {
        match self {
            BypassFilterSettings::TopLevel(top) => top.put_members(members),
            BypassFilterSettings::Granular(granular) => granular.put_members(members),
        }
    }
}

impl ToJson for BypassFilterSettings {
    open spec fn doc(&self) -> JsonDoc {
        JsonDoc::Object(self@.members())
    }

    fn to_json(&self) -> (v: JsonValue) {
        let mut members: Vec<(String, JsonValue)> = Vec::new();
        assert(members_of(members@) =~= Members::empty());
        self.put_members(&mut members);
        assert(members_of(members@) =~= self@.members());
        JsonValue::Object(members)
    }
}

/// What a [`Footer`] holds.
pub struct FooterView {
    pub enable: bool,
    pub text: Option<Seq<char>>,
    pub html: Option<Seq<char>>,
}

impl FooterView {
    /// The members of the footer: `enable`, then `text` and `html`, each where
    /// it is set.
    pub open spec fn members(self) -> Members {
        field("enable"@, JsonDoc::Bool(self.enable)) + optional("text"@, opt_str(self.text))
            + optional("html"@, opt_str(self.html))
    }
}

/// Used to provide a footer for the [`crate::v3::Message`].
#[derive(Debug)]
pub struct Footer {
    enable: bool,
    text: Option<String>,
    html: Option<String>,
}

impl View for Footer {
    type V = FooterView;

    closed spec fn view(&self) -> FooterView {
        FooterView { enable: self.enable, text: opt_text(self.text), html: opt_text(self.html) }
    }
}

impl Footer {
    /// Create a new default [`Footer`] instance.
    pub fn new() -> (r: Self)
        ensures
            r@ == (FooterView { enable: false, text: None, html: None }),
    {
        Footer { enable: false, text: None, html: None }
    }

    /// Enable or disable the footer
    pub fn set_enable(self, enable: bool) -> (r: Self)
        ensures
            r@ == (FooterView { enable: enable, ..self@ }),
    {
        let mut r = self;
        r.enable = enable;
        r
    }

    /// Set the text of the footer.
    pub fn set_text(self, text: String) -> (r: Self)
        ensures
            r@ == (FooterView { text: Some(text@), ..self@ }),
    {
        let mut r = self;
        r.text = Some(text);
        r
    }

    /// Set the html content of the footer.
    pub fn set_html(self, html: String) -> (r: Self)
        ensures
            r@ == (FooterView { html: Some(html@), ..self@ }),
    {
        let mut r = self;
        r.html = Some(html);
        r
    }
}

impl Default for Footer {
    fn default() -> (r: Self)
        ensures
            r@ == (FooterView { enable: false, text: None, html: None }),
    {
        Footer::new()
    }
}

impl ToJson for Footer {
    open spec fn doc(&self) -> JsonDoc {
        JsonDoc::Object(self@.members())
    }

    fn to_json(&self) -> (v: JsonValue) {
        let mut members: Vec<(String, JsonValue)> = Vec::new();
        assert(members_of(members@) =~= Members::empty());
        put(&mut members, "enable", JsonValue::Bool(self.enable));
        put_opt_str(&mut members, "text", &self.text);
        put_opt_str(&mut members, "html", &self.html);
        assert(members_of(members@) =~= self@.members());
        JsonValue::Object(members)
    }
}

/// What a [`MailSettings`] holds.
pub struct MailSettingsView {
    pub bypass_filter_settings: Option<BypassFilterView>,
    pub footer: Option<FooterView>,
    pub sandbox_mode: Option<bool>,
}

/// The footer as an object, where there is one.
pub open spec fn opt_footer(footer: Option<FooterView>) -> Option<JsonDoc> {
    match footer {
        Some(f) => Some(JsonDoc::Object(f.members())),
        None => None,
    }
}

impl MailSettingsView {
    /// The members of the settings: those of the bypass setting, which has no
    /// object of its own, then `footer` and `sandbox_mode`; each where it is set.
    pub open spec fn members(self) -> Members {
        (match self.bypass_filter_settings {
            Some(bypass) => bypass.members(),
            None => Members::empty(),
        }) + optional("footer"@, opt_footer(self.footer)) + optional(
            "sandbox_mode"@,
            opt_enable(self.sandbox_mode),
        )
    }
}

/// The settings to use when sending the [`crate::v3::Message`].
#[derive(Debug)]
pub struct MailSettings {
    bypass_filter_settings: Option<BypassFilterSettings>,
    footer: Option<Footer>,
    sandbox_mode: Option<SandboxMode>,
}

impl View for MailSettings {
    type V = MailSettingsView;

    closed spec fn view(&self) -> MailSettingsView {
        MailSettingsView {
            bypass_filter_settings: match self.bypass_filter_settings {
                Some(b) => Some(b@),
                None => None,
            },
            footer: match self.footer {
                Some(f) => Some(f@),
                None => None,
            },
            sandbox_mode: match self.sandbox_mode {
                Some(s) => Some(s@),
                None => None,
            },
        }
    }
}

impl MailSettings {
    /// Create a new default [`MailSettings`] instance.
    pub fn new() -> (r: Self)
        ensures
            r@ == (MailSettingsView {
                bypass_filter_settings: None,
                footer: None,
                sandbox_mode: None,
            }),
    {
        MailSettings { bypass_filter_settings: None, footer: None, sandbox_mode: None }
    }

    /// Set the bypass filter settings.
    pub fn set_bypass_filter_settings(self, settings: BypassFilterSettings) -> (r: Self)
        ensures
            r@ == (MailSettingsView { bypass_filter_settings: Some(settings@), ..self@ }),
    {
        let mut r = self;
        r.bypass_filter_settings = Some(settings);
        r
    }

    /// Set the footer setting.
    pub fn set_footer(self, footer: Footer) -> (r: Self)
        ensures
            r@ == (MailSettingsView { footer: Some(footer@), ..self@ }),
    {
        let mut r = self;
        r.footer = Some(footer);
        r
    }

    /// Set the sandbox mode setting.
    pub fn set_sandbox_mode(self, sandbox_mode: SandboxMode) -> (r: Self)
        ensures
            r@ == (MailSettingsView { sandbox_mode: Some(sandbox_mode@), ..self@ }),
    {
        let mut r = self;
        r.sandbox_mode = Some(sandbox_mode);
        r
    }
}

impl Default for MailSettings {
    fn default() -> (r: Self)
        ensures
            r@ == (MailSettingsView {
                bypass_filter_settings: None,
                footer: None,
                sandbox_mode: None,
            }),
    {
        MailSettings::new()
    }
}

impl ToJson for MailSettings {
    open spec fn doc(&self) -> JsonDoc {
        JsonDoc::Object(self@.members())
    }

    fn to_json(&self) -> (v: JsonValue) {
        let mut members: Vec<(String, JsonValue)> = Vec::new();
        assert(members_of(members@) =~= Members::empty());
        match &self.bypass_filter_settings {
            Some(bypass) => bypass.put_members(&mut members),
            None => {},
        }
        match &self.footer {
            Some(footer) => {
                put(&mut members, "footer", footer.to_json());
            },
            None => {},
        }
        match &self.sandbox_mode {
            Some(sandbox_mode) => {
                put(&mut members, "sandbox_mode", sandbox_mode.to_json());
            },
            None => {},
        }
        assert(members_of(members@) =~= self@.members());
        JsonValue::Object(members)
    }
}

} // verus!
