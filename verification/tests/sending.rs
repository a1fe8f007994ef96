use sendgrid::client::SGClient;
use sendgrid::error::SendgridError;
use sendgrid::mail::{Destination, Mail};
use sendgrid::transport::{
    build_headers, status_is_success, step, Method, Request, SendAction, SendEvent, SendState,
};
use sendgrid::v3::{Email, Message, Personalization, Sender};

fn message() -> Message {
    Message::new(Email::new("f@test.com"))
        .add_personalization(Personalization::new(Email::new("t@test.com")))
}

fn pairs(request: &Request) -> Vec<(String, String)> {
    request.headers.iter().map(|h| (h.name.clone(), h.value.clone())).collect()
}

/// Runs one call of send against a transport that answers with `status` and `body`.
fn send_with_stub(sender: &Sender, status: u16, body: &str) -> Result<u16, SendgridError> {
    let mut state = SendState::Constructed;
    let mut event = SendEvent::Begin(sender.request(&message()));
    loop {
        let (next, action) = step(state, event);
        state = next;
        event = match action {
            SendAction::Dispatch(_) => SendEvent::Issued,
            SendAction::Await => SendEvent::Response(status),
            SendAction::ReadBody => SendEvent::Body(body.to_string()),
            SendAction::Return => {
                assert!(matches!(state, SendState::ResponseOk));
                return Ok(status);
            }
            SendAction::Fail(e) => return Err(e),
            SendAction::Idle => panic!("the driver reported what has no place"),
        };
    }
}

#[test]
fn a_rate_limited_response_is_reported_with_status_and_body() {
    let sender = Sender::new("SG.key".to_string());
    match send_with_stub(&sender, 429, "rate limited") {
        Err(SendgridError::RequestNotSuccessful(e)) => {
            assert_eq!(e.status, 429);
            assert_eq!(e.body, "rate limited");
        }
        other => panic!("unexpected: {:?}", other),
    }
}

#[test]
fn an_accepted_response_is_returned() {
    let sender = Sender::new("SG.key".to_string());
    assert!(matches!(send_with_stub(&sender, 202, "anything"), Ok(202)));
    assert!(matches!(send_with_stub(&sender, 200, ""), Ok(200)));
    assert!(matches!(send_with_stub(&sender, 299, ""), Ok(299)));
}

#[test]
fn statuses_outside_the_success_range_are_errors() {
    let sender = Sender::new("SG.key".to_string());
    for status in [100, 199, 300, 301, 400, 404, 500, 599] {
        assert!(!status_is_success(status));
        assert!(matches!(
            send_with_stub(&sender, status, "b"),
            Err(SendgridError::RequestNotSuccessful(_))
        ));
    }
}

#[test]
fn a_credential_with_a_control_character_is_refused() {
    let sender = Sender::new("SG.key\n".to_string());
    assert!(matches!(sender.get_headers(), Err(SendgridError::InvalidHeader(_))));
    assert!(matches!(send_with_stub(&sender, 202, ""), Err(SendgridError::InvalidHeader(_))));
    assert!(matches!(build_headers("a\u{7f}", "x"), Err(SendgridError::InvalidHeader(_))));
    assert!(build_headers("a\tb \u{e9}", "x").is_ok());
}

#[test]
fn the_request_has_three_headers_and_the_message_for_its_body() {
    let mut sender = Sender::new("SG.key".to_string());
    let mail = message();
    let request = sender.request(&mail).unwrap();
    assert!(matches!(request.method, Method::Post));
    assert_eq!(request.url, "https://api.sendgrid.com/v3/mail/send");
    assert_eq!(
        pairs(&request),
        vec![
            ("Authorization".to_string(), "Bearer SG.key".to_string()),
            ("Content-Type".to_string(), "application/json".to_string()),
            ("User-Agent".to_string(), "sendgrid-rs".to_string()),
        ]
    );
    assert_eq!(request.body, mail.gen_json());
    sender.set_host("http://localhost:8080/send");
    assert_eq!(sender.request(&mail).unwrap().url, "http://localhost:8080/send");
}

#[test]
fn the_form_client_sends_a_form() {
    let client = SGClient::new("SG.key".to_string());
    let mail = Mail::new().add_to(Destination { address: "a@x.org", name: "A" }).add_text("hi");
    let request = client.request(mail).unwrap();
    assert_eq!(request.url, "https://api.sendgrid.com/api/mail.send.json?");
    assert_eq!(
        pairs(&request),
        vec![
            ("Authorization".to_string(), "Bearer SG.key".to_string()),
            ("Content-Type".to_string(), "application/x-www-form-urlencoded".to_string()),
            ("User-Agent".to_string(), "sendgrid-rs".to_string()),
        ]
    );
    assert!(request.body.starts_with("to%5B%5D=a%40x.org&toname%5B%5D=A&from=&"));

    let mut raw = sendgrid::raw::Mail::new();
    raw.add_to("a@x.org");
    let request = sendgrid::raw::SGClient::new("SG.key".to_string()).request(raw).unwrap();
    assert!(request.body.starts_with("to%5B%5D=a%40x.org&from=&"));
}

#[test]
fn an_ended_call_takes_no_further_step() {
    let (state, action) = step(SendState::ResponseOk, SendEvent::Response(500));
    assert!(matches!(state, SendState::ResponseOk));
    assert!(matches!(action, SendAction::Idle));
    assert!(state.is_terminal());
    let (state, action) = step(SendState::Constructed, SendEvent::Body(String::new()));
    assert!(matches!(state, SendState::Constructed));
    assert!(matches!(action, SendAction::Idle));
    assert!(!state.is_terminal());
}

#[test]
fn a_failure_of_the_transport_is_reported_as_it_is() {
    let failure = || reqwest::Client::new().get("no url at all").build().unwrap_err();
    let (state, action) = step(SendState::HeadersBuilt, SendEvent::Failure(failure()));
    assert!(matches!(state, SendState::TransportFailed));
    assert!(matches!(action, SendAction::Fail(SendgridError::ReqwestError(_))));
    let (state, action) =
        step(SendState::Dispatched { rejected: None }, SendEvent::Failure(failure()));
    assert!(matches!(state, SendState::TransportFailed));
    assert!(matches!(action, SendAction::Fail(SendgridError::ReqwestError(_))));
    let (state, action) =
        step(SendState::Dispatched { rejected: Some(500) }, SendEvent::Failure(failure()));
    assert!(state.is_terminal());
    assert!(matches!(action, SendAction::Fail(SendgridError::ReqwestError(_))));
    let (state, action) = step(SendState::Constructed, SendEvent::Failure(failure()));
    assert!(matches!(state, SendState::Constructed));
    assert!(matches!(action, SendAction::Idle));
}

#[test]
fn outside_errors_find_their_place_among_the_errors() {
    let io = std::io::Error::new(std::io::ErrorKind::NotFound, "no such file");
    assert!(matches!(SendgridError::from(io), SendgridError::Io(_)));
    let json = serde_json::from_str::<serde_json::Value>("{").unwrap_err();
    assert!(matches!(SendgridError::from(json), SendgridError::JSONDecode(_)));
    let header = reqwest::header::HeaderValue::from_str("\n").unwrap_err();
    assert!(matches!(SendgridError::from(header), SendgridError::InvalidHeader(_)));
    let transport = reqwest::Client::new().get("no url at all").build().unwrap_err();
    assert!(matches!(SendgridError::from(transport), SendgridError::ReqwestError(_)));
    let refused = sendgrid::error::RequestNotSuccessful::new(503, "down".to_string());
    match SendgridError::from(refused) {
        SendgridError::RequestNotSuccessful(e) => {
            assert_eq!(e.status, 503);
            assert_eq!(e.body, "down");
        }
        other => panic!("unexpected: {:?}", other),
    }
    assert!(matches!(SendgridError::InvalidFilename, SendgridError::InvalidFilename));
}

#[test]
fn a_new_message_is_empty() {
    let m = Mail::default();
    assert!(m.to.is_empty() && m.cc.is_empty() && m.bcc.is_empty());
    assert!(m.attachments.is_empty() && m.content.is_empty() && m.headers.is_empty());
    assert_eq!(m.make_header_string(), "{}");
    let d: Destination = ("a@x.org", "A").into();
    assert_eq!((d.address, d.name), ("a@x.org", "A"));
}
