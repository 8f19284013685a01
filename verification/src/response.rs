//! What a request is answered with.

use vstd::prelude::*;

verus! {

/// What a request is answered with: a status code and a short text.
#[derive(Debug, PartialEq, Eq)]
pub struct HTTPResponse {
    pub status: u16,
    pub body: String,
}

/// An answer, its text by its characters.
pub struct ResponseView {
    pub status: u16,
    pub body: Seq<char>,
}

impl View for HTTPResponse {
    type V = ResponseView;

    open spec fn view(&self) -> ResponseView {
        ResponseView { status: self.status, body: self.body@ }
    }
}

/// The answer with the given status and text.
pub open spec fn response(status: u16, body: Seq<char>) -> ResponseView {
    ResponseView { status, body }
}

impl HTTPResponse {
    /// An answer with the given status and text.
    pub fn new(status: u16, body: &str) -> (r: HTTPResponse)
        ensures
            r@ == response(status, body@),
    {
        HTTPResponse { status, body: body.to_owned() }
    }

    /// An answer whose text is `prefix` followed by `detail`.
    pub fn with_detail(status: u16, prefix: &str, detail: &str) -> (r: HTTPResponse)
        ensures
            r@ == response(status, prefix@ + detail@),
    {
        HTTPResponse { status, body: prefix.to_owned().concat(detail) }
    }
}

} // verus!
