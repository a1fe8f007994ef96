//! The sender of the JSON API.

use vstd::prelude::*;
use crate::error::SendgridResult;
use crate::transport::{
    build_headers, header_views, is_header_value, bearer, send_headers, Header, Method, Request,
};
use crate::v3::Message;

verus! {

/// Where messages are sent unless another host is set.
pub const V3_API_URL: &'static str = "https://api.sendgrid.com/v3/mail/send";

/// The content type of a JSON body.
pub const JSON_CONTENT_TYPE: &'static str = "application/json";

/// Used to send a V3 message body.
#[derive(Clone, Debug)]
pub struct Sender {
    api_key: String,
    host: String,
}

impl Sender {
    /// The credential.
    pub closed spec fn api_key(self) -> Seq<char> {
        self.api_key@
    }

    /// The URL to which requests go.
    pub closed spec fn host(self) -> Seq<char> {
        self.host@
    }

    /// Construct a new V3 message sender.
    pub fn new(api_key: String) -> (r: Sender)
        ensures
            r.api_key() == api_key@,
            r.host() == V3_API_URL@,
    {
        Sender { api_key, host: V3_API_URL.to_owned() }
    }

    /// Sets the host to use for the API. This is useful if you are using a proxy or a local
    /// development server. It should be a full URL, including the protocol.
    pub fn set_host(&mut self, host: &str)
        ensures
            final(self).host() == host@,
            final(self).api_key() == old(self).api_key(),
    {
        self.host = host.to_owned();
    }

    /// The three headers of a request: the credential as a bearer token, the
    /// JSON content type, and the user agent.
    pub fn get_headers(&self) -> (r: SendgridResult<Vec<Header>>)
        ensures
            r is Ok <==> is_header_value(bearer(self.api_key())),
            r matches Err(e) ==> e is InvalidHeader,
            r matches Ok(headers) ==> header_views(headers@) == send_headers(
                self.api_key(),
                JSON_CONTENT_TYPE@,
            ),
    {
        build_headers(self.api_key.as_str(), JSON_CONTENT_TYPE)
    }

    /// Prepares the request that sends `mail`: a POST to the host, with the three
    /// headers, the message as JSON for its body. The message is not changed.
    pub fn request(&self, mail: &Message) -> (r: SendgridResult<Request>)
        ensures
            r is Ok <==> is_header_value(bearer(self.api_key())),
            r matches Err(e) ==> e is InvalidHeader,
            r matches Ok(request) ==> {
                &&& request.method is Post
                &&& request.url@ == self.host()
                &&& header_views(request.headers@) == send_headers(
                    self.api_key(),
                    JSON_CONTENT_TYPE@,
                )
                &&& request.body@ == mail@.json()
            },
    {
        let headers = match self.get_headers() {
            Ok(headers) => headers,
            Err(e) => {
                return Err(e);
            },
        };
        Ok(
            Request {
                method: Method::Post,
                url: self.host.clone(),
                headers,
                body: mail.gen_json(),
            },
        )
    }
}

} // verus!
