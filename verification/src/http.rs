//! Requests to the forge, described as plain values, and their answers.
//!
//! Nothing here touches the network. An `HttpRequest` says what the caller is
//! to send; an `HttpOutcome` or `DownloadOutcome` says what came back.

use vstd::prelude::*;

verus! {

/// The method of a request.
#[derive(Clone, Copy, Debug, PartialEq, Eq, Structural)]
pub enum Method {
    Get,
    Post,
}

/// A request to be sent.
#[derive(Clone, Debug, PartialEq, Eq)]
pub struct HttpRequest {
    pub method: Method,
    pub url: String,
    /// Header names with their values, in the order they are to be set.
    pub headers: Vec<(String, String)>,
}

/// An `HttpRequest` as mathematical values.
pub struct HttpRequestView {
    pub method: Method,
    pub url: Seq<char>,
    pub headers: Seq<(Seq<char>, Seq<char>)>,
}

impl View for HttpRequest {
    type V = HttpRequestView;

    open spec fn view(&self) -> HttpRequestView {
        HttpRequestView {
            method: self.method,
            url: self.url@,
            headers: self.headers.deep_view(),
        }
    }
}

/// What came of a request whose answer is read into memory.
#[derive(Clone, Debug, PartialEq, Eq)]
pub enum HttpOutcome {
    /// The request could not be built from its address.
    Rejected,
    /// The request was sent and no answer came back.
    Failed,
    /// The server answered.
    Responded { status: u16, body: Vec<u8> },
}

/// What came of a request whose answer is saved to a file.
#[derive(Clone, Debug, PartialEq, Eq)]
pub enum DownloadOutcome {
    /// The request could not be built from its address.
    Rejected,
    /// The request was sent and the answer did not arrive whole.
    Failed,
    /// The answer was saved under `path`.
    Saved { path: String },
}

/// A status code that reports success.
pub open spec fn is_success(status: u16) -> bool {
    200 <= status <= 299
}

/// Whether `status` reports success.
pub fn status_is_success(status: u16) -> (ok: bool)
    ensures
        ok == is_success(status),
{
    200 <= status && status <= 299
}

/// A request with one header.
pub fn request_with_accept(method: Method, url: String, accept: &str) -> (request: HttpRequest)
    ensures
        request@ == (HttpRequestView {
            method,
            url: url@,
            headers: seq![("Accept"@, accept@)],
        }),
{
    let mut headers: Vec<(String, String)> = Vec::new();
    headers.push(("Accept".to_owned(), accept.to_owned()));
    let request = HttpRequest { method, url, headers };
    assert(request.headers.deep_view() =~= seq![("Accept"@, accept@)]);
    request
}

} // verus!
