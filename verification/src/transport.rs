//! What is handed to the HTTP transport, and how its answer becomes a result.
//!
//! The library performs no exchange itself. A driver performs the actions that
//! [`step`] hands out and reports back what happened; every decision is taken
//! here.

use vstd::prelude::*;
use vstd::utf8::encode_utf8;
use crate::error::{RequestNotSuccessful, SendgridError, SendgridResult};

verus! {

/// `reqwest::header::HeaderValue`, carried as it came.
#[verifier::external_type_specification]
#[verifier::external_body]
pub struct ExHeaderValue(reqwest::header::HeaderValue);

/// Whether a byte may stand in the value of an HTTP header: anything from the
/// space on but the delete character, and the tab.
pub open spec fn is_header_byte(b: u8) -> bool {
    b >= 32 && b != 127 || b == 9
}

/// Whether `text` may stand as the value of an HTTP header: each byte of its
/// UTF-8 text may.
pub open spec fn is_header_value(text: Seq<char>) -> bool {
    forall|i: int|
        0 <= i < encode_utf8(text).len() ==> is_header_byte(#[trigger] encode_utf8(text)[i])
}

/// Calls `HeaderValue::from_str` of `reqwest::header`.
///
/// Claimed of it: it accepts `src` if and only if every byte of `src` is at
/// least 32 and not 127, or is the tab.
#[verifier::external_body]
fn parse_header_value(src: &str) -> (r: Result<
    reqwest::header::HeaderValue,
    reqwest::header::InvalidHeaderValue,
>)
    ensures
        r is Ok <==> is_header_value(src@),
{
    reqwest::header::HeaderValue::from_str(src)
}

/// One header of a request.
#[derive(Debug)]
pub struct Header {
    pub name: String,
    pub value: String,
}

impl View for Header {
    type V = (Seq<char>, Seq<char>);

    open spec fn view(&self) -> (Seq<char>, Seq<char>) {
        (self.name@, self.value@)
    }
}

/// The method of a request. Messages are sent by POST and in no other way.
#[derive(Clone, Copy, Debug)]
pub enum Method {
    Post,
}

/// A request that is ready for the transport.
#[derive(Debug)]
pub struct Request {
    pub method: Method,
    pub url: String,
    pub headers: Vec<Header>,
    pub body: String,
}

/// What each of `headers` holds, in order.
pub open spec fn header_views(headers: Seq<Header>) -> Seq<(Seq<char>, Seq<char>)> {
    headers.map_values(|h: Header| h@)
}

/// The value of the `Authorization` header for `api_key`.
pub open spec fn bearer(api_key: Seq<char>) -> Seq<char> {
    "Bearer "@ + api_key
}

/// The three headers of a send request.
pub open spec fn send_headers(api_key: Seq<char>, content_type: Seq<char>) -> Seq<
    (Seq<char>, Seq<char>),
> {
    seq![
        ("Authorization"@, bearer(api_key)),
        ("Content-Type"@, content_type),
        ("User-Agent"@, "sendgrid-rs"@),
    ]
}

/// Builds the three headers of a send request: the credential as a bearer
/// token, the content type, and the name of this library as user agent. A
/// credential that cannot stand in a header is refused.
pub fn build_headers(api_key: &str, content_type: &str) -> (r: SendgridResult<Vec<Header>>)
    ensures
        r is Ok <==> is_header_value(bearer(api_key@)),
        r matches Err(e) ==> e is InvalidHeader,
        r matches Ok(headers) ==> header_views(headers@) == send_headers(api_key@, content_type@),
{
    let mut token = String::new();
    token.append("Bearer ");
    token.append(api_key);
    assert(token@ =~= bearer(api_key@));
    match parse_header_value(token.as_str()) {
        Ok(_) => {},
        Err(e) => {
            return Err(SendgridError::InvalidHeader(e));
        },
    }
    let mut headers: Vec<Header> = Vec::new();
    headers.push(Header { name: "Authorization".to_owned(), value: token });
    headers.push(Header { name: "Content-Type".to_owned(), value: content_type.to_owned() });
    headers.push(Header { name: "User-Agent".to_owned(), value: "sendgrid-rs".to_owned() });
    assert(header_views(headers@) =~= send_headers(api_key@, content_type@));
    Ok(headers)
}

/// Whether a status code is in the success range.
pub open spec fn is_success(status: u16) -> bool {
    200 <= status <= 299
}

/// Tells whether a status code is in the success range.
pub fn status_is_success(status: u16) -> (r: bool)
    ensures
        r == is_success(status),
{
    200 <= status && status <= 299
}

/// Where one call of send stands.
#[derive(Debug)]
pub enum SendState {
    /// Nothing was done yet.
    Constructed,
    /// The headers are built and the request is ready.
    HeadersBuilt,
    /// The request is with the transport. `rejected` holds the status code
    /// once one outside the success range has come, while the body is read.
    Dispatched { rejected: Option<u16> },
    /// The response is a success and goes to the caller as it is.
    ResponseOk,
    /// The response was not a success; its status code and body are reported.
    ResponseClassifiedAsError,
    /// The transport failed.
    TransportFailed,
}

/// What happened outside.
#[derive(Debug)]
pub enum SendEvent {
    /// Send was called; the request was prepared, or could not be.
    Begin(SendgridResult<Request>),
    /// The request was handed to the transport.
    Issued,
    /// The status line of the response came.
    Response(u16),
    /// The body of the response was read.
    Body(String),
    /// The transport failed.
    Failure(reqwest::Error),
}

/// What the driver does next.
#[derive(Debug)]
pub enum SendAction {
    /// Hand this request to the transport, then report `Issued`.
    Dispatch(Request),
    /// Wait for the response, then report `Response` or `Failure`.
    Await,
    /// Read the body of the response, then report `Body` or `Failure`.
    ReadBody,
    /// Give the response to the caller, unread.
    Return,
    /// Give this error to the caller.
    Fail(SendgridError),
    /// Nothing: the event has no place in this state.
    Idle,
}

impl SendState {
    /// Whether the call has ended.
    pub open spec fn terminal(self) -> bool {
        self is ResponseOk || self is ResponseClassifiedAsError || self is TransportFailed
    }

    /// Tells whether the call has ended.
    pub fn is_terminal(&self) -> (r: bool)
        ensures
            r == self.terminal(),
    {
        match self {
            SendState::ResponseOk => true,
            SendState::ResponseClassifiedAsError => true,
            SendState::TransportFailed => true,
            _ => false,
        }
    }
}

/// The state after `event` came in `state`, and what is to be done.
///
/// A call begins with a prepared request, which is dispatched, or with the
/// error that kept it from being prepared, which is reported. A response in
/// the success range ends the call well. Of any other response the body is
/// read, and status code and body are reported. A failure of the transport is
/// reported as it is, at whatever point it comes. Nothing is tried twice.
pub open spec fn transition(state: SendState, event: SendEvent) -> (SendState, SendAction) {
    match (state, event) {
        (SendState::Constructed, SendEvent::Begin(Ok(request))) => (
            SendState::HeadersBuilt,
            SendAction::Dispatch(request),
        ),
        (SendState::Constructed, SendEvent::Begin(Err(e))) => (
            SendState::Constructed,
            SendAction::Fail(e),
        ),
        (SendState::HeadersBuilt, SendEvent::Issued) => (
            SendState::Dispatched { rejected: None },
            SendAction::Await,
        ),
        (SendState::Dispatched { rejected: None }, SendEvent::Response(status)) => if is_success(
            status,
        ) {
            (SendState::ResponseOk, SendAction::Return)
        } else {
            (SendState::Dispatched { rejected: Some(status) }, SendAction::ReadBody)
        },
        (SendState::Dispatched { rejected: Some(status) }, SendEvent::Body(body)) => (
            SendState::ResponseClassifiedAsError,
            SendAction::Fail(
                SendgridError::RequestNotSuccessful(RequestNotSuccessful { status, body }),
            ),
        ),
        (SendState::HeadersBuilt, SendEvent::Failure(e)) => (
            SendState::TransportFailed,
            SendAction::Fail(SendgridError::ReqwestError(e)),
        ),
        (SendState::Dispatched { rejected }, SendEvent::Failure(e)) => (
            SendState::TransportFailed,
            SendAction::Fail(SendgridError::ReqwestError(e)),
        ),
        (state, _) => (state, SendAction::Idle),
    }
}

/// Takes one step of a call of send: the state after `event`, and what the
/// driver does next.
pub fn step(state: SendState, event: SendEvent) -> (r: (SendState, SendAction))
    ensures
        r == transition(state, event),
{
    match state {
        SendState::Constructed => match event {
            SendEvent::Begin(Ok(request)) => (SendState::HeadersBuilt, SendAction::Dispatch(request)),
            SendEvent::Begin(Err(e)) => (SendState::Constructed, SendAction::Fail(e)),
            _ => (SendState::Constructed, SendAction::Idle),
        },
        SendState::HeadersBuilt => match event {
            SendEvent::Issued => (SendState::Dispatched { rejected: None }, SendAction::Await),
            SendEvent::Failure(e) => (
                SendState::TransportFailed,
                SendAction::Fail(SendgridError::ReqwestError(e)),
            ),
            _ => (SendState::HeadersBuilt, SendAction::Idle),
        },
        SendState::Dispatched { rejected } => match event {
            SendEvent::Response(status) => match rejected {
                None => if status_is_success(status) {
                    (SendState::ResponseOk, SendAction::Return)
                } else {
                    (SendState::Dispatched { rejected: Some(status) }, SendAction::ReadBody)
                },
                Some(_) => (SendState::Dispatched { rejected }, SendAction::Idle),
            },
            SendEvent::Body(body) => match rejected {
                Some(status) => (
                    SendState::ResponseClassifiedAsError,
                    SendAction::Fail(
                        SendgridError::RequestNotSuccessful(RequestNotSuccessful::new(status, body)),
                    ),
                ),
                None => (SendState::Dispatched { rejected }, SendAction::Idle),
            },
            SendEvent::Failure(e) => (
                SendState::TransportFailed,
                SendAction::Fail(SendgridError::ReqwestError(e)),
            ),
            _ => (SendState::Dispatched { rejected }, SendAction::Idle),
        },
        SendState::ResponseOk => (SendState::ResponseOk, SendAction::Idle),
        SendState::ResponseClassifiedAsError => (
            SendState::ResponseClassifiedAsError,
            SendAction::Idle,
        ),
        SendState::TransportFailed => (SendState::TransportFailed, SendAction::Idle),
    }
}

/// A call that has ended stays as it is, whatever comes.
pub proof fn lemma_terminal_states_stay(state: SendState, event: SendEvent)
    requires
        state.terminal(),
    ensures
        transition(state, event) == (state, SendAction::Idle),
{
}

/// A response ends the call well if its status code is in the success range,
/// and in no other case.
pub proof fn lemma_success_only_in_range(state: SendState, event: SendEvent)
    ensures
        transition(state, event).0 is ResponseOk && !(state is ResponseOk) <==> state
            == (SendState::Dispatched { rejected: None }) && event is Response && is_success(
            event->Response_0,
        ),
        transition(state, event).1 is Return <==> state == (SendState::Dispatched { rejected: None })
            && event is Response && is_success(event->Response_0),
{
}

/// A response outside the success range is reported with its status code and
/// with its whole body, once the body is read.
pub proof fn lemma_rejected_response_is_reported(status: u16, body: String)
    requires
        !is_success(status),
    ensures
        transition(SendState::Dispatched { rejected: None }, SendEvent::Response(status)) == (
            SendState::Dispatched { rejected: Some(status) },
            SendAction::ReadBody,
        ),
        transition(SendState::Dispatched { rejected: Some(status) }, SendEvent::Body(body)) == (
            SendState::ResponseClassifiedAsError,
            SendAction::Fail(
                SendgridError::RequestNotSuccessful(RequestNotSuccessful { status, body }),
            ),
        ),
{
}

} // verus!
