use sendgrid::client::{make_form_key, make_post_body};
use sendgrid::error::SendgridError;
use sendgrid::mail::{Destination, Mail};

#[test]
fn client_basic_message_body() {
    let m = Mail::new()
        .add_to(Destination {
            address: "test@example.com",
            name: "Testy mcTestFace",
        })
        .add_from("me@example.com")
        .add_subject("Test")
        .add_text("It works");

    let body = make_post_body(m);
    let want = "to%5B%5D=test%40example.com&toname%5B%5D=Testy+mcTestFace&from=me%40example.com&subject=Test&\
                html=&text=It+works&fromname=&replyto=&date=&headers=%7B%7D&x-smtpapi=";
    assert_eq!(body.unwrap(), want);
}

#[test]
fn test_proper_key() {
    let want = "files[test.jpg]";
    let got = make_form_key("files", "test.jpg");
    assert_eq!(want, got);
}

#[test]
fn mod_basic_message_body() {
    let mut m = sendgrid::raw::Mail::new();
    m.add_to("test@example.com");
    m.add_from("me@example.com");
    m.add_subject("Test");
    m.add_text("It works");

    let body = sendgrid::raw::make_post_body(m);
    let comparison = "to%5B%5D=test%40example.com&from=me%40example.com&subject=Test\
        &html=&text=It+works&fromname=&replyto=&date=&headers=%7B%7D&x-smtpapi=";
    assert_eq!(body, comparison);
}

#[test]
fn form_body_keeps_the_order_of_every_field() {
    let m = Mail::new()
        .add_to(Destination { address: "a@x.org", name: "A" })
        .add_to(("b@x.org", "B & C").into())
        .add_cc("c@x.org")
        .add_bcc("d@x.org")
        .add_bcc("e@x.org")
        .add_attachment_data(String::from("report.txt"), String::from("1 + 1 = 2"))
        .add_content(String::from("logo"), "cid")
        .add_from("me@x.org")
        .add_subject("S")
        .add_html("<p>")
        .add_text("T")
        .add_from_name("Me")
        .add_reply_to("r@x.org")
        .add_date("Thu, 21 Dec 2000 16:01:07 +0200")
        .add_header(String::from("X-Mailer"), "MyApp")
        .add_x_smtpapi("{}")
        .build();
    let body = make_post_body(m).unwrap();
    let want = "to%5B%5D=a%40x.org&to%5B%5D=b%40x.org&toname%5B%5D=A&toname%5B%5D=B+%26+C\
        &cc%5B%5D=c%40x.org&bcc%5B%5D=d%40x.org&bcc%5B%5D=e%40x.org\
        &files%5Breport.txt%5D=1+%2B+1+%3D+2&content%5Blogo%5D=cid\
        &from=me%40x.org&subject=S&html=%3Cp%3E&text=T&fromname=Me&replyto=r%40x.org\
        &date=Thu%2C+21+Dec+2000+16%3A01%3A07+%2B0200\
        &headers=%7B%22X-Mailer%22%3A%22MyApp%22%7D&x-smtpapi=%7B%7D";
    assert_eq!(body, want);
}

#[test]
fn form_body_is_the_same_each_time() {
    let build = || {
        Mail::new()
            .add_to(Destination { address: "a@x.org", name: "A" })
            .add_header(String::from("X-B"), "2")
            .add_header(String::from("X-A"), "1")
            .add_text("hello")
    };
    let first = make_post_body(build()).unwrap();
    let second = make_post_body(build()).unwrap();
    assert_eq!(first, second);
    assert!(first.contains("headers=%7B%22X-B%22%3A%222%22%2C%22X-A%22%3A%221%22%7D"));
}

#[test]
fn a_message_filled_in_place_is_sent_as_a_form() {
    let mut m = sendgrid::raw::Mail::new();
    m.add_to("a@x.org");
    m.add_to("b@x.org");
    m.add_to_name("A");
    m.add_cc("c@x.org");
    m.add_bcc("d@x.org");
    m.add_attachment_data("f.txt", String::from("data"));
    m.add_content("logo", "cid");
    m.add_from("x&y=z");
    m.add_subject("S");
    m.add_html("<p>");
    m.add_text("T");
    m.add_from_name("Me");
    m.add_reply_to("r@x.org");
    m.add_date(String::from("now"));
    m.add_header("X-A", "1");
    m.add_header("X-A", "2");
    m.add_x_smtpapi(String::from("{\"unique_args\":{\"test\":7}}"));
    assert_eq!(m.make_header_string(), "{\"X-A\":\"2\"}");
    let body = sendgrid::raw::make_post_body(m);
    let want = "to%5B%5D=a%40x.org&to%5B%5D=b%40x.org&toname%5B%5D=A&cc%5B%5D=c%40x.org\
        &bcc%5B%5D=d%40x.org&files%5Bf.txt%5D=data&content%5Blogo%5D=cid&from=x%26y%3Dz\
        &subject=S&html=%3Cp%3E&text=T&fromname=Me&replyto=r%40x.org&date=now\
        &headers=%7B%22X-A%22%3A%222%22%7D\
        &x-smtpapi=%7B%22unique_args%22%3A%7B%22test%22%3A7%7D%7D";
    assert_eq!(body, want);
    let decoded: Vec<(String, String)> =
        url::form_urlencoded::parse(body.as_bytes()).into_owned().collect();
    assert_eq!(decoded.len(), 16);
    assert_eq!(decoded[7], ("from".to_string(), "x&y=z".to_string()));
    assert_eq!(decoded[0], ("to[]".to_string(), "a@x.org".to_string()));
}

#[test]
fn a_file_that_was_read_is_attached_and_a_failed_read_is_reported() {
    let failed = || std::io::Error::new(std::io::ErrorKind::NotFound, "no such file");

    let m = Mail::new().add_attachment(Some("a.txt"), Ok("data".to_string())).unwrap();
    assert_eq!(m.attachments.get("a.txt"), Some("data"));
    let r = Mail::new().add_attachment(Some("a.txt"), Err(failed()));
    assert!(matches!(r, Err(SendgridError::Io(_))));
    let r = Mail::new().add_attachment(None, Ok("data".to_string()));
    assert!(matches!(r, Err(SendgridError::InvalidFilename)));
    let r = Mail::new().add_attachment(None, Err(failed()));
    assert!(matches!(r, Err(SendgridError::Io(_))));

    let mut m = sendgrid::raw::Mail::new();
    assert!(m.add_attachment("a.txt", Ok("data".to_string())).is_ok());
    assert!(matches!(m.add_attachment("b.txt", Err(failed())), Err(SendgridError::Io(_))));
    assert_eq!(m.attachments.len(), 1);
    assert_eq!(m.attachments.get("a.txt"), Some("data"));
}

/// The text that stands for `value` in a body.
fn encoded(value: &str) -> String {
    let body = make_post_body(Mail::new().add_text(value)).unwrap();
    let from = body.find("&text=").unwrap() + "&text=".len();
    let to = body.find("&fromname=").unwrap();
    body[from..to].to_string()
}

#[test]
fn every_byte_is_encoded_by_the_rule() {
    for code in 0u8..=127 {
        let c = code as char;
        let want = if c.is_ascii_alphanumeric() || "*-._".contains(c) {
            c.to_string()
        } else if c == ' ' {
            "+".to_string()
        } else {
            format!("%{:02X}", code)
        };
        assert_eq!(encoded(&c.to_string()), want);
    }
    assert_eq!(encoded("\u{e9}"), "%C3%A9");
    assert_eq!(encoded("\u{20ac}\u{1f600}"), "%E2%82%AC%F0%9F%98%80");
    assert_eq!(encoded("a@b"), "a%40b");
    assert_eq!(encoded(""), "");
}
