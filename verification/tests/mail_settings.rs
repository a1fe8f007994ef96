use sendgrid::json::ToJson;
use sendgrid::v3::message::{
    BypassBounceManagement, BypassFilterSettings, BypassListManagement, BypassSpamManagement,
    BypassUnsubscribeManagement, Footer, GranularBypassFilterSettings, MailSettings, SandboxMode,
    TopLevelBypassFilterSettings,
};
use sendgrid::v3::{Email, Message, Personalization};

#[test]
fn mail_settings_empty() {
    let settings = MailSettings::default();
    let settings_json = settings.to_json().to_text();
    let expected = "{}";
    assert_eq!(settings_json, expected);
}

#[test]
fn mail_settings_top_level_bypass_filters() {
    let settings =
        MailSettings::default().set_bypass_filter_settings(BypassFilterSettings::TopLevel(
            TopLevelBypassFilterSettings::new()
                .set_bypass_list_management(BypassListManagement::new().set_enable(true)),
        ));
    let settings_json = settings.to_json().to_text();
    let expected = r#"{"bypass_list_management":{"enable":true}}"#;
    assert_eq!(settings_json, expected);
}

#[test]
fn mail_settings_granular_bypass_filters() {
    let settings =
        MailSettings::new().set_bypass_filter_settings(BypassFilterSettings::Granular(
            GranularBypassFilterSettings::new()
                .set_bypass_unsubscribe_management(
                    BypassUnsubscribeManagement::new().set_enable(true),
                )
                .set_bypass_bounce_management(BypassBounceManagement::new().set_enable(true))
                .set_bypass_spam_management(BypassSpamManagement::new().set_enable(true)),
        ));
    let settings_json = settings.to_json().to_text();
    let expected = r#"{"bypass_spam_management":{"enable":true},"bypass_bounce_management":{"enable":true},"bypass_unsubscribe_management":{"enable":true}}"#;
    assert_eq!(settings_json, expected);
}

#[test]
fn mail_settings_no_bypass_defaults() {
    let settings = MailSettings::default()
        .set_footer(Default::default())
        .set_sandbox_mode(Default::default());
    let settings_json = settings.to_json().to_text();
    let expected = r#"{"footer":{"enable":false},"sandbox_mode":{"enable":false}}"#;
    assert_eq!(settings_json, expected);
}

#[test]
fn mail_settings_no_bypass() {
    let settings = MailSettings::new()
        .set_footer(
            Footer::new()
                .set_enable(true)
                .set_html("html".to_string())
                .set_text("text".to_string()),
        )
        .set_sandbox_mode(SandboxMode::new().set_enable(true));
    let settings_json = settings.to_json().to_text();
    let expected = r#"{"footer":{"enable":true,"text":"text","html":"html"},"sandbox_mode":{"enable":true}}"#;
    assert_eq!(settings_json, expected);
}

#[test]
fn mail_settings_stand_between_tracking_and_unsubscribe_settings() {
    let json = Message::new(Email::new("f@test.com"))
        .add_personalization(Personalization::new(Email::new("t@test.com")))
        .set_mail_settings(MailSettings::new().set_sandbox_mode(SandboxMode::new().set_enable(true)))
        .gen_json();
    let expected = r#"{"from":{"email":"f@test.com"},"subject":"","personalizations":[{"to":[{"email":"t@test.com"}]}],"mail_settings":{"sandbox_mode":{"enable":true}}}"#;
    assert_eq!(json, expected);
}
