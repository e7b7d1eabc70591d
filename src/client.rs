use vstd::prelude::*;

use crate::payload::{build_payload, payload};
use crate::severity::SeverityLevel;

verus! {

/// The Bugsnag ingestion endpoint.
pub const ENDPOINT: &'static str = "http://notify.bugsnag.com/";

/// The header that gives the body's media type.
pub const CONTENT_TYPE_HEADER: &'static str = "Content-Type";

/// The media type of every body.
pub const JSON_MEDIA_TYPE: &'static str = "application/json";

/// The header that carries the project's API key.
pub const API_KEY_HEADER: &'static str = "Bugsnag-Api-Key";

/// The header that gives the version of the payload format.
pub const PAYLOAD_VERSION_HEADER: &'static str = "Bugsnag-Payload-Version";

/// The version of the payload format that this library writes.
pub const PAYLOAD_VERSION: &'static str = "5";

/// One HTTP header.
#[derive(Debug)]
pub struct Header {
    pub name: String,
    pub value: String,
}

/// An HTTP POST that reports one event.
#[derive(Debug)]
pub struct Request {
    pub url: String,
    pub headers: Vec<Header>,
    pub body: String,
}

/// A request as plain text: its URL, its headers as (name, value) pairs in
/// order, and its body.
pub struct RequestView {
    pub url: Seq<char>,
    pub headers: Seq<(Seq<char>, Seq<char>)>,
    pub body: Seq<char>,
}

impl View for Request {
    type V = RequestView;

    open spec fn view(&self) -> RequestView {
        RequestView {
            url: self.url@,
            headers: self.headers@.map_values(|h: Header| (h.name@, h.value@)),
            body: self.body@,
        }
    }
}

/// The request that reports an exception of the given class and message at
/// the given severity, for the project with the given API key.
pub open spec fn request_for(
    api_key: Seq<char>,
    level: SeverityLevel,
    class: Seq<char>,
    message: Seq<char>,
) -> RequestView {
    RequestView {
        url: ENDPOINT@,
        headers: seq![
            (CONTENT_TYPE_HEADER@, JSON_MEDIA_TYPE@),
            (API_KEY_HEADER@, api_key),
            (PAYLOAD_VERSION_HEADER@, PAYLOAD_VERSION@),
        ],
        body: payload(level, class, message),
    }
}

/// Our connection to the Bugsnag API: the project's API key, which stays as
/// it was given for the life of the client.
#[derive(Debug)]
pub struct Client {
    api_key: String,
}

impl View for Client {
    type V = Seq<char>;

    /// The API key.
    closed spec fn view(&self) -> Seq<char> {
        self.api_key@
    }
}

impl PartialEq for Client {
    /// Two clients are equal when their API keys are.
    fn eq(&self, other: &Client) -> (r: bool) {
        self.api_key == other.api_key
    }
}

impl vstd::std_specs::cmp::PartialEqSpecImpl for Client {
    open spec fn obeys_eq_spec() -> bool {
        true
    }

    open spec fn eq_spec(&self, other: &Client) -> bool {
        self@ == other@
    }
}

impl Client {
    /// A client for the project with the given API key, taken as it is.
    pub fn new(api_key: String) -> (r: Self)
        ensures
            r@ == api_key@,
    {
        Client { api_key }
    }

    /// A client with the same API key.
    pub fn build(&self) -> (r: Self)
        ensures
            r@ == self@,
    {
        Client { api_key: self.api_key.clone() }
    }

    /// The API key.
    pub fn api_key(&self) -> (r: &str)
        ensures
            r@ == self@,
    {
        self.api_key.as_str()
    }

    /// The request that reports an exception of the given class and message at
    /// the given severity. Class and message are taken as they are.
    pub fn report(&self, level: SeverityLevel, class: &str, message: &str) -> (r: Request)
        ensures
            r@ == request_for(self@, level, class@, message@),
    {
        let mut headers: Vec<Header> = Vec::new();
        headers.push(Header { name: CONTENT_TYPE_HEADER.to_owned(), value: JSON_MEDIA_TYPE.to_owned() });
        headers.push(Header { name: API_KEY_HEADER.to_owned(), value: self.api_key.clone() });
        headers.push(Header { name: PAYLOAD_VERSION_HEADER.to_owned(), value: PAYLOAD_VERSION.to_owned() });
        let r = Request { url: ENDPOINT.to_owned(), headers, body: build_payload(level, class, message) };
        assert(r@.headers =~= request_for(self@, level, class@, message@).headers);
        r
    }

    /// The request that reports an informational event.
    pub fn info(&self, class: &str, message: &str) -> (r: Request)
        ensures
            r@ == request_for(self@, SeverityLevel::Info, class@, message@),
    {
        self.report(SeverityLevel::Info, class, message)
    }

    /// The request that reports a warning.
    pub fn warning(&self, class: &str, message: &str) -> (r: Request)
        ensures
            r@ == request_for(self@, SeverityLevel::Warning, class@, message@),
    {
        self.report(SeverityLevel::Warning, class, message)
    }

    /// The request that reports an error.
    pub fn error(&self, class: &str, message: &str) -> (r: Request)
        ensures
            r@ == request_for(self@, SeverityLevel::Error, class@, message@),
    {
        self.report(SeverityLevel::Error, class, message)
    }
}

} // verus!
