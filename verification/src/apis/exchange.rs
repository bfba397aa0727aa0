//! One round trip as plain values: the request to send and what came back.

use vstd::prelude::*;

verus! {

/// The HTTP methods that the API is called with.
#[derive(Clone, Copy, Debug, PartialEq, Eq, Structural)]
pub enum Method {
    Get,
    Head,
    Post,
    Put,
    Delete,
}

impl Method {
    /// Whether the rate limit is recorded from a response to this method:
    /// it is for every method but `GET` and `HEAD`.
    pub open spec fn is_counted(self) -> bool {
        !(self is Get) && !(self is Head)
    }

    /// Tests whether the rate limit is recorded from a response to this
    /// method.
    pub fn counted(&self) -> (counted: bool)
        ensures
            counted == self.is_counted(),
    {
        match self {
            Method::Get => false,
            Method::Head => false,
            _ => true,
        }
    }

    /// The method's name on the wire.
    pub fn as_str(&self) -> (name: &'static str)
        ensures
            name@ == self.name(),
    {
        match self {
            Method::Get => "GET",
            Method::Head => "HEAD",
            Method::Post => "POST",
            Method::Put => "PUT",
            Method::Delete => "DELETE",
        }
    }

    /// The method's name on the wire.
    pub open spec fn name(self) -> Seq<char> {
        match self {
            Method::Get => "GET"@,
            Method::Head => "HEAD"@,
            Method::Post => "POST"@,
            Method::Put => "PUT"@,
            Method::Delete => "DELETE"@,
        }
    }
}

/// A request, ready to be sent.
#[derive(Clone, Debug)]
pub struct Request {
    pub method: Method,
    pub url: String,
    /// Header names and values, in the order in which they are set.
    pub headers: Vec<(String, String)>,
    /// The form-encoded body, for the methods that send one.
    pub body: Option<String>,
}

/// A [`Request`] as text.
pub struct RequestView {
    pub method: Method,
    pub url: Seq<char>,
    pub headers: Seq<(Seq<char>, Seq<char>)>,
    pub body: Option<Seq<char>>,
}

impl View for Request {
    type V = RequestView;

    open spec fn view(&self) -> RequestView {
        RequestView {
            method: self.method,
            url: self.url@,
            headers: self.headers.deep_view(),
            body: self.body.deep_view(),
        }
    }
}

/// Why no response, or no complete response, arrived.
#[derive(Clone, Debug)]
pub struct TransportError {
    pub message: String,
}

impl View for TransportError {
    type V = Seq<char>;

    open spec fn view(&self) -> Seq<char> {
        self.message@
    }
}

/// What the API answered.
#[derive(Debug)]
pub struct Response {
    pub status: u16,
    /// The value of the `Fastly-RateLimit-Remaining` header, if sent.
    pub rate_limit_remaining: Option<String>,
    /// The value of the `Fastly-RateLimit-Reset` header, if sent.
    pub rate_limit_reset: Option<String>,
    /// The body as text, or why it could not be read to its end.
    pub content: Result<String, TransportError>,
}

} // verus!
