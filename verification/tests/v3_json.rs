use sendgrid::error::SendgridError;
use sendgrid::fields::SGMap;
use sendgrid::json::{JsonValue, Number, ToJson};
use sendgrid::v3::{
    Attachment, ClickTrackingSetting, Content, Disposition, Email, Message, OpenTrackingSetting,
    Personalization, SubscriptionTrackingSetting, TrackingSettings, ASM,
};
use std::collections::HashSet;

fn text(s: &str) -> JsonValue {
    JsonValue::Str(s.to_string())
}

fn inner_model() -> JsonValue {
    JsonValue::Object(vec![
        ("x".to_string(), text("1")),
        ("y".to_string(), text("2")),
        ("z".to_string(), text("3")),
    ])
}

#[test]
fn ip_pool_name() {
    let json_str = Message::new(Email::new("from_email@test.com"))
        .add_personalization(Personalization::new(Email::new("to_email@test.com")))
        .set_ip_pool_name("test_ip_pool")
        .gen_json();
    let expected = r#"{"from":{"email":"from_email@test.com"},"subject":"","personalizations":[{"to":[{"email":"to_email@test.com"}]}],"ip_pool_name":"test_ip_pool"}"#;
    assert_eq!(json_str, expected);
}

#[test]
fn single_category() {
    let json_str = Message::new(Email::new("from_email@test.com"))
        .add_personalization(Personalization::new(Email::new("to_email@test.com")))
        .add_category("test_category")
        .gen_json();
    let expected = r#"{"from":{"email":"from_email@test.com"},"subject":"","personalizations":[{"to":[{"email":"to_email@test.com"}]}],"categories":["test_category"]}"#;
    assert_eq!(json_str, expected);
}

#[test]
fn click_tracking_setting() {
    let json_str = Message::new(Email::new("from_email@test.com"))
        .add_personalization(Personalization::new(Email::new("to_email@test.com")))
        .set_tracking_settings(TrackingSettings {
            click_tracking: Some(ClickTrackingSetting {
                enable: Some(true),
                enable_text: None,
            }),
            open_tracking: None,
            subscription_tracking: None,
        })
        .gen_json();
    let expected = r#"{"from":{"email":"from_email@test.com"},"subject":"","personalizations":[{"to":[{"email":"to_email@test.com"}]}],"tracking_settings":{"click_tracking":{"enable":true}}}"#;
    assert_eq!(json_str, expected);
}

#[test]
fn open_tracking_setting() {
    let json_str = Message::new(Email::new("from_email@test.com"))
        .add_personalization(Personalization::new(Email::new("to_email@test.com")))
        .set_tracking_settings(TrackingSettings {
            click_tracking: None,
            open_tracking: Some(OpenTrackingSetting {
                enable: Some(true),
                substitution_tag: None,
            }),
            subscription_tracking: None,
        })
        .gen_json();
    let expected = r#"{"from":{"email":"from_email@test.com"},"subject":"","personalizations":[{"to":[{"email":"to_email@test.com"}]}],"tracking_settings":{"open_tracking":{"enable":true}}}"#;
    assert_eq!(json_str, expected);
}

#[test]
fn subscription_tracking_setting() {
    let json_str = Message::new(Email::new("from_email@test.com"))
        .add_personalization(Personalization::new(Email::new("to_email@test.com")))
        .set_tracking_settings(TrackingSettings {
            click_tracking: None,
            open_tracking: None,
            subscription_tracking: Some(SubscriptionTrackingSetting { enable: Some(true) }),
        })
        .gen_json();
    let expected = r#"{"from":{"email":"from_email@test.com"},"subject":"","personalizations":[{"to":[{"email":"to_email@test.com"}]}],"tracking_settings":{"subscription_tracking":{"enable":true}}}"#;
    assert_eq!(json_str, expected);
}

#[test]
fn multiple_categories() {
    let json_str_add_vec = Message::new(Email::new("from_email@test.com"))
        .add_personalization(Personalization::new(Email::new("to_email@test.com")))
        .add_categories(&[
            String::from("test_category1"),
            String::from("test_category2"),
        ])
        .gen_json();
    let json_str_multiple_adds = Message::new(Email::new("from_email@test.com"))
        .add_personalization(Personalization::new(Email::new("to_email@test.com")))
        .add_category("test_category1")
        .add_category("test_category2")
        .gen_json();
    let json_str_vec_and_single = Message::new(Email::new("from_email@test.com"))
        .add_personalization(Personalization::new(Email::new("to_email@test.com")))
        .add_category("test_category1")
        .add_categories(&[String::from("test_category2")])
        .gen_json();

    let expected = r#"{"from":{"email":"from_email@test.com"},"subject":"","personalizations":[{"to":[{"email":"to_email@test.com"}]}],"categories":["test_category1","test_category2"]}"#;
    assert_eq!(json_str_add_vec, expected);
    assert_eq!(json_str_multiple_adds, expected);
    assert_eq!(json_str_vec_and_single, expected);
}

#[test]
fn dynamic_template_data_sgmap() {
    let mut data = SGMap::new();
    data.insert("Norway".to_string(), "100".to_string());
    data.insert("Denmark".to_string(), "50".to_string());
    data.insert("Iceland".to_string(), "10".to_string());
    let json_str = Message::new(Email::new("from_email@test.com"))
        .add_personalization(
            Personalization::new(Email::new("to_email@test.com")).add_dynamic_template_data(data),
        )
        .gen_json();
    let expected = r#"{"from":{"email":"from_email@test.com"},"subject":"","personalizations":[{"to":[{"email":"to_email@test.com"}],"dynamic_template_data":{"Denmark":"50","Iceland":"10","Norway":"100"}}]}"#;
    assert_eq!(json_str, expected);
}

#[test]
fn dynamic_template_data_json() {
    let outer_model = JsonValue::Object(vec![(
        "inners".to_string(),
        JsonValue::Array(vec![inner_model(), inner_model()]),
    )]);
    let json_str = Message::new(Email::new("from_email@test.com"))
        .add_personalization(
            Personalization::new(Email::new("to_email@test.com"))
                .add_dynamic_template_data_json(&outer_model)
                .unwrap(),
        )
        .gen_json();
    let expected = r#"{"from":{"email":"from_email@test.com"},"subject":"","personalizations":[{"to":[{"email":"to_email@test.com"}],"dynamic_template_data":{"inners":[{"x":"1","y":"2","z":"3"},{"x":"1","y":"2","z":"3"}]}}]}"#;
    assert_eq!(json_str, expected);
}

#[test]
fn asm_settings() {
    let json_str = Message::new(Email::new("from_email@test.com"))
        .add_personalization(Personalization::new(Email::new("to_email@test.com")))
        .set_asm(
            ASM::new()
                .set_group_id(123)
                .set_groups_to_display(HashSet::from([123]))
                .unwrap(),
        )
        .gen_json();
    let expected = r#"{"from":{"email":"from_email@test.com"},"subject":"","personalizations":[{"to":[{"email":"to_email@test.com"}]}],"asm":{"group_id":123,"groups_to_display":[123]}}"#;
    assert_eq!(json_str, expected);
}

#[test]
fn template_data_that_is_no_object_is_refused() {
    let p = || Personalization::new(Email::new("to@test.com"));
    for value in [
        JsonValue::Array(vec![text("a")]),
        text("a"),
        JsonValue::Number(Number::from_u64(7)),
        JsonValue::Bool(true),
        JsonValue::Null,
    ] {
        let r = p().add_dynamic_template_data_json(&value);
        assert!(matches!(r, Err(SendgridError::InvalidTemplateValue)));
    }
    let empty = JsonValue::Object(vec![]);
    let ok = p().add_dynamic_template_data_json(&empty).unwrap();
    assert_eq!(
        ok.to_json().to_text(),
        r#"{"to":[{"email":"to@test.com"}],"dynamic_template_data":{}}"#
    );
}

#[test]
fn template_data_is_merged_in_the_order_of_its_keys() {
    let first = JsonValue::Object(vec![
        ("b".to_string(), JsonValue::Number(Number::from_i64(-12))),
        ("a".to_string(), JsonValue::Null),
        ("b".to_string(), JsonValue::Bool(false)),
    ]);
    let second = JsonValue::Object(vec![
        ("ab".to_string(), JsonValue::Array(vec![])),
        ("a".to_string(), JsonValue::Number(Number::from_u64(0))),
        ("Z".to_string(), text("z")),
        ("\u{e9}".to_string(), text("e")),
    ]);
    let p = Personalization::new(Email::new("to@test.com"))
        .add_dynamic_template_data_json(&first)
        .unwrap()
        .add_dynamic_template_data_json(&second)
        .unwrap();
    assert_eq!(
        p.to_json().to_text(),
        "{\"to\":[{\"email\":\"to@test.com\"}],\"dynamic_template_data\":{\"Z\":\"z\",\"a\":0,\"ab\":[],\"b\":false,\"\u{e9}\":\"e\"}}"
    );
}

#[test]
fn twenty_five_groups_are_accepted_and_twenty_six_are_not() {
    let groups = |n: u32| (0..n).collect::<HashSet<u32>>();
    assert!(ASM::new().set_groups_to_display(groups(25)).is_ok());
    assert!(ASM::new().set_groups_to_display(groups(0)).is_ok());
    let refused = ASM::new().set_groups_to_display(groups(26));
    assert!(matches!(refused, Err(SendgridError::TooManyItems)));
}

#[test]
fn every_group_is_displayed_once() {
    let wanted: HashSet<u32> = [7, 4000000000, 0, 12].into_iter().collect();
    let settings = ASM::new().set_group_id(4294967295).set_groups_to_display(wanted.clone()).unwrap();
    assert_eq!(settings.group_count(), 4);
    let json = settings.to_json().to_text();
    let parsed: serde_json::Value = serde_json::from_str(&json).unwrap();
    assert_eq!(parsed["group_id"].as_u64(), Some(4294967295));
    let shown: Vec<u32> = parsed["groups_to_display"]
        .as_array()
        .unwrap()
        .iter()
        .map(|v| v.as_u64().unwrap() as u32)
        .collect();
    assert_eq!(shown.len(), 4);
    assert_eq!(shown.into_iter().collect::<HashSet<u32>>(), wanted);
}

#[test]
fn absent_fields_leave_no_key_and_no_null() {
    let json = Message::new(Email::new("f@test.com")).gen_json();
    assert_eq!(json, r#"{"from":{"email":"f@test.com"},"subject":"","personalizations":[]}"#);
    assert!(!json.contains("null"));
}

#[test]
fn every_field_of_a_message_is_written_in_its_place() {
    let mut headers = SGMap::new();
    headers.insert("X-B".to_string(), "b".to_string());
    headers.insert("X-A".to_string(), "a".to_string());
    let mut args = SGMap::new();
    args.insert("k".to_string(), "v".to_string());
    let mut subs = SGMap::new();
    subs.insert("%name%".to_string(), "N".to_string());
    let person = Personalization::new(Email::new("to@test.com").set_name("To"))
        .add_to(Email::new("to2@test.com"))
        .add_cc(Email::new("cc@test.com"))
        .add_cc(Email::new("cc2@test.com"))
        .add_bcc(Email::new("bcc@test.com"))
        .set_subject("override")
        .add_headers(headers)
        .add_substitutions(subs)
        .add_custom_args(args)
        .set_send_at(1500000000);
    let json = Message::new(Email::new("old@test.com"))
        .set_from(Email::new("f@test.com"))
        .set_subject("S \"quoted\"\n")
        .add_personalization(person)
        .add_category("c1")
        .set_ip_pool_name("pool")
        .set_reply_to(Email::new("r@test.com"))
        .add_content(Content::new().set_content_type("text/plain").set_value("plain"))
        .add_content(Content::new().set_content_type("text/html").set_value("<p>"))
        .add_attachment(
            Attachment::new()
                .set_content(b"Hello world")
                .set_filename("a.txt")
                .set_mime_type("text/plain")
                .set_disposition(Disposition::Inline)
                .set_content_idm("cid"),
        )
        .add_attachment(
            Attachment::new()
                .set_base64_content("QQ==")
                .set_filename("b.bin")
                .set_disposition(Disposition::Attachment),
        )
        .set_template_id("tmpl")
        .gen_json();
    let expected = concat_parts(&[
        r#"{"from":{"email":"f@test.com"},"subject":"S \"quoted\"\n","#,
        r#""personalizations":[{"to":[{"email":"to@test.com","name":"To"},{"email":"to2@test.com"}],"#,
        r#""cc":[{"email":"cc@test.com"},{"email":"cc2@test.com"}],"bcc":[{"email":"bcc@test.com"}],"#,
        r#""subject":"override","headers":{"X-B":"b","X-A":"a"},"substitutions":{"%name%":"N"},"#,
        r#""custom_args":{"k":"v"},"send_at":1500000000}],"#,
        r#""categories":["c1"],"ip_pool_name":"pool","reply_to":{"email":"r@test.com"},"#,
        r#""content":[{"type":"text/plain","value":"plain"},{"type":"text/html","value":"<p>"}],"#,
        r#""attachments":[{"content":"SGVsbG8gd29ybGQ=","filename":"a.txt","type":"text/plain","disposition":"inline","content_id":"cid"},"#,
        r#"{"content":"QQ==","filename":"b.bin","disposition":"attachment"}],"#,
        r#""template_id":"tmpl"}"#,
    ]);
    assert_eq!(json, expected);
    let parsed: serde_json::Value = serde_json::from_str(&json).unwrap();
    assert_eq!(parsed["subject"].as_str(), Some("S \"quoted\"\n"));
}

fn concat_parts(parts: &[&str]) -> String {
    let mut out = String::new();
    for p in parts {
        out.push_str(p);
    }
    out
}

#[test]
fn content_that_can_be_encoded_is_set() {
    let a = Attachment::new().set_filename("a.txt").try_set_content(b"Hello world").unwrap();
    assert_eq!(
        a.to_json().to_text(),
        r#"{"content":"SGVsbG8gd29ybGQ=","filename":"a.txt"}"#
    );
    let empty = Attachment::new().try_set_content(b"").unwrap();
    assert_eq!(empty.to_json().to_text(), r#"{"content":"","filename":""}"#);
}

#[test]
fn encoding_twice_gives_the_same_text() {
    let m = Message::new(Email::new("f@test.com"))
        .add_personalization(Personalization::new(Email::new("t@test.com")))
        .add_category("x");
    assert_eq!(m.gen_json(), m.gen_json());
}

#[test]
fn numbers_are_written_in_decimal() {
    assert_eq!(Number::from_u64(0).as_str(), "0");
    assert_eq!(Number::from_u64(10).as_str(), "10");
    assert_eq!(Number::from_u64(u64::MAX).as_str(), "18446744073709551615");
    assert_eq!(Number::from_i64(-1).as_str(), "-1");
    assert_eq!(Number::from_i64(i64::MIN).as_str(), "-9223372036854775808");
    assert_eq!(Number::from_i64(i64::MAX).as_str(), "9223372036854775807");
}

#[test]
fn strings_are_escaped() {
    let v = JsonValue::Array(vec![text("a\"b\\c\u{1}\t"), text("\u{e9}\u{7f}")]);
    assert_eq!(v.to_text(), "[\"a\\\"b\\\\c\\u0001\\t\",\"\u{e9}\u{7f}\"]");
    assert_eq!(v.copy().to_text(), v.to_text());
}

#[test]
fn number_literals_are_told_from_other_text() {
    for good in ["0", "-0", "7", "10", "-12", "1.5", "0.001", "1e5", "1E5", "1e+5", "2.5e-10", "-3.0E+2"] {
        let n = Number::parse(good);
        assert!(n.is_some(), "{}", good);
        assert_eq!(n.unwrap().as_str(), good);
    }
    for bad in ["", "-", "01", "-01", "1.", ".5", "1e", "1e+", "1.e5", "+1", "1 ", " 1", "1x", "0x10", "1.5.2", "1e5e5", "--1", "NaN", "\u{661}"] {
        assert!(Number::parse(bad).is_none(), "{:?}", bad);
    }
    let v = JsonValue::Array(vec![JsonValue::Number(Number::parse("-2.5e-3").unwrap())]);
    assert_eq!(v.to_text(), "[-2.5e-3]");
}

#[test]
fn a_field_container_keeps_the_order_in_which_keys_came() {
    let mut map = SGMap::new();
    assert!(map.is_empty());
    map.insert("b".to_string(), "1".to_string());
    map.insert("a".to_string(), "2".to_string());
    map.insert("b".to_string(), "3".to_string());
    assert_eq!(map.len(), 2);
    assert_eq!(map.key_at(0), "b");
    assert_eq!(map.value_at(0), "3");
    assert_eq!(map.key_at(1), "a");
    assert_eq!(map.get("a"), Some("2"));
    assert_eq!(map.get("c"), None);
    assert_eq!(map.position("a"), Some(1));
    let mut more = SGMap::new();
    more.insert("c".to_string(), "4".to_string());
    more.insert("a".to_string(), "5".to_string());
    let copy = map.clone();
    map.extend(more);
    assert_eq!(map.to_json().to_text(), r#"{"b":"3","a":"5","c":"4"}"#);
    assert_eq!(copy.to_json().to_text(), r#"{"b":"3","a":"2"}"#);
    assert_eq!(SGMap::default().to_json().to_text(), "{}");
}

#[test]
fn fields_added_twice_accumulate() {
    let mut first = SGMap::new();
    first.insert("k".to_string(), "1".to_string());
    let mut second = SGMap::new();
    second.insert("j".to_string(), "2".to_string());
    second.insert("k".to_string(), "3".to_string());
    let p = Personalization::new(Email::new("t@test.com"))
        .add_custom_args(first)
        .add_custom_args(second)
        .set_subject("a")
        .set_subject("b");
    assert_eq!(p.recipients(), 1);
    assert_eq!(
        p.to_json().to_text(),
        r#"{"to":[{"email":"t@test.com"}],"subject":"b","custom_args":{"k":"3","j":"2"}}"#
    );
}
