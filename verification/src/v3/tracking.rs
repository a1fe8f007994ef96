//! What the provider tracks of a message.

use vstd::prelude::*;
use crate::json::{
    members_of, opt_bool, opt_doc, opt_str, opt_text, optional, put_opt, put_opt_bool,
    put_opt_str, JsonDoc, JsonValue, Members, ToJson,
};

verus! {

/// Used for open tracking settings.
#[derive(Clone, Debug)]
pub struct OpenTrackingSetting {
    /// Whether or not to enable open tracking.
    pub enable: Option<bool>,
    /// The substitution tag to use for the open tracking URL.
    pub substitution_tag: Option<String>,
}

impl OpenTrackingSetting {
    /// The members of the setting: `enable` and `substitution_tag`, each where
    /// it is set.
    pub open spec fn members(self) -> Members {
        optional("enable"@, opt_bool(self.enable)) + optional(
            "substitution_tag"@,
            opt_str(opt_text(self.substitution_tag)),
        )
    }
}

impl ToJson for OpenTrackingSetting {
    open spec fn doc(&self) -> JsonDoc {
        JsonDoc::Object(self.members())
    }

    fn to_json(&self) -> (v: JsonValue) {
        let mut members: Vec<(String, JsonValue)> = Vec::new();
        assert(members_of(members@) =~= Members::empty());
        put_opt_bool(&mut members, "enable", self.enable);
        put_opt_str(&mut members, "substitution_tag", &self.substitution_tag);
        assert(members_of(members@) =~= self.members());
        JsonValue::Object(members)
    }
}

/// Used for subscription tracking settings.
#[derive(Clone, Debug)]
pub struct SubscriptionTrackingSetting {
    /// Whether or not to enable subscription tracking.
    pub enable: Option<bool>,
}

impl SubscriptionTrackingSetting {
    /// The members of the setting: `enable`, where it is set.
    pub open spec fn members(self) -> Members {
        optional("enable"@, opt_bool(self.enable))
    }
}

impl ToJson for SubscriptionTrackingSetting {
    open spec fn doc(&self) -> JsonDoc {
        JsonDoc::Object(self.members())
    }

    fn to_json(&self) -> (v: JsonValue) {
        let mut members: Vec<(String, JsonValue)> = Vec::new();
        assert(members_of(members@) =~= Members::empty());
        put_opt_bool(&mut members, "enable", self.enable);
        assert(members_of(members@) =~= self.members());
        JsonValue::Object(members)
    }
}

/// Used for click tracking settings.
#[derive(Clone, Debug)]
pub struct ClickTrackingSetting {
    /// Whether or not to enable click tracking.
    pub enable: Option<bool>,
    /// Whether or not to enable text/plain content in the email.
    pub enable_text: Option<bool>,
}

impl ClickTrackingSetting {
    /// The members of the setting: `enable` and `enable_text`, each where it
    /// is set.
    pub open spec fn members(self) -> Members {
        optional("enable"@, opt_bool(self.enable)) + optional(
            "enable_text"@,
            opt_bool(self.enable_text),
        )
    }
}

impl ToJson for ClickTrackingSetting {
    open spec fn doc(&self) -> JsonDoc {
        JsonDoc::Object(self.members())
    }

    fn to_json(&self) -> (v: JsonValue) {
        let mut members: Vec<(String, JsonValue)> = Vec::new();
        assert(members_of(members@) =~= Members::empty());
        put_opt_bool(&mut members, "enable", self.enable);
        put_opt_bool(&mut members, "enable_text", self.enable_text);
        assert(members_of(members@) =~= self.members());
        JsonValue::Object(members)
    }
}

/// Used for all tracking settings.
#[derive(Clone, Debug)]
pub struct TrackingSettings {
    /// Used for click tracking settings.
    pub click_tracking: Option<ClickTrackingSetting>,
    /// Used for open tracking settings.
    pub open_tracking: Option<OpenTrackingSetting>,
    /// Used for subscription tracking settings.
    pub subscription_tracking: Option<SubscriptionTrackingSetting>,
}

impl TrackingSettings {
    /// The members of the settings: `click_tracking`, `open_tracking` and
    /// `subscription_tracking`, each where it is set.
    pub open spec fn members(self) -> Members {
        optional("click_tracking"@, opt_doc(self.click_tracking)) + optional(
            "open_tracking"@,
            opt_doc(self.open_tracking),
        ) + optional("subscription_tracking"@, opt_doc(self.subscription_tracking))
    }
}

impl ToJson for TrackingSettings {
    open spec fn doc(&self) -> JsonDoc {
        JsonDoc::Object(self.members())
    }

    fn to_json(&self) -> (v: JsonValue) {
        let mut members: Vec<(String, JsonValue)> = Vec::new();
        assert(members_of(members@) =~= Members::empty());
        put_opt(&mut members, "click_tracking", &self.click_tracking);
        put_opt(&mut members, "open_tracking", &self.open_tracking);
        put_opt(&mut members, "subscription_tracking", &self.subscription_tracking);
        assert(members_of(members@) =~= self.members());
        JsonValue::Object(members)
    }
}

} // verus!
