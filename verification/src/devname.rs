//! Reading the `devname` parameter of a request.

use crate::response::{response, HTTPResponse, ResponseView};
use vstd::prelude::*;

verus! {

/// Why a percent-decoded name is no text: its bytes are not UTF-8.
#[verifier::external_type_specification]
#[verifier::external_body]
pub struct ExFromUtf8Error(std::string::FromUtf8Error);

/// What `urlencoding::decode` makes of a text: the text percent-decoded, or
/// nothing where the bytes that come of the decoding are not UTF-8.
pub uninterp spec fn url_decoded(raw: Seq<char>) -> Option<Seq<char>>;

/// `urlencoding::decode`, with the decoded text as an owned string. A text
/// without a `%` is returned as it is.
#[verifier::external_body]
fn decode(raw: &str) -> (decoded: Result<String, std::string::FromUtf8Error>)
    ensures
        match decoded {
            Ok(text) => url_decoded(raw@) == Some(text@),
            Err(_) => url_decoded(raw@) is None,
        },
        !raw@.contains('%') ==> decoded is Ok && decoded->Ok_0@ == raw@,
{
    match urlencoding::decode(raw) {
        Ok(text) => Ok(text.into_owned()),
        Err(error) => Err(error),
    }
}

/// The `devname` parameter of a request, as far as it could be read.
#[derive(Debug, PartialEq, Eq)]
pub enum DevnameParam {
    /// The request has no such parameter.
    Absent,
    /// The parameter does not decode to text.
    Undecodable,
    /// The parameter, decoded.
    Decoded(String),
}

/// What becomes of a request once its `devname` parameter was read.
#[derive(Debug, PartialEq, Eq)]
pub enum DevnameRequest {
    /// The request goes on to its pipeline, for the device of this name.
    Device(String),
    /// The request is answered at once.
    Rejected(HTTPResponse),
}

/// A `DevnameRequest`, each string by its characters.
pub enum DevnameRequestView {
    Device(Seq<char>),
    Rejected(ResponseView),
}

impl View for DevnameRequest {
    type V = DevnameRequestView;

    open spec fn view(&self) -> DevnameRequestView {
        match self {
            DevnameRequest::Device(name) => DevnameRequestView::Device(name@),
            DevnameRequest::Rejected(r) => DevnameRequestView::Rejected(r@),
        }
    }
}

/// What becomes of a request whose `devname` parameter, if it has one,
/// decodes to `decoded`.
pub open spec fn devname_request(decoded: Option<Option<Seq<char>>>) -> DevnameRequestView {
    match decoded {
        None => DevnameRequestView::Rejected(
            response(400, "Required GET param absent: 'devname'"@),
        ),
        Some(None) => DevnameRequestView::Rejected(response(400, "Couldn't decode devname"@)),
        Some(Some(name)) => DevnameRequestView::Device(name),
    }
}

/// Decides on a request from what was read of its `devname` parameter: a
/// decoded name goes on to its pipeline, anything else is answered with 400.
pub fn accept_devname(param: DevnameParam) -> (request: DevnameRequest)
    ensures
        request@ == devname_request(
            match param {
                DevnameParam::Absent => None,
                DevnameParam::Undecodable => Some(None),
                DevnameParam::Decoded(name) => Some(Some(name@)),
            },
        ),
{
    match param {
        DevnameParam::Absent => DevnameRequest::Rejected(
            HTTPResponse::new(400, "Required GET param absent: 'devname'"),
        ),
        DevnameParam::Undecodable => DevnameRequest::Rejected(
            HTTPResponse::new(400, "Couldn't decode devname"),
        ),
        DevnameParam::Decoded(name) => DevnameRequest::Device(name),
    }
}

/// Reads the `devname` parameter of a request, percent-decodes it and
/// decides on the request.
pub fn handle_devname(devname: Option<&str>) -> (request: DevnameRequest)
    ensures
        request@ == devname_request(
            match devname {
                Some(raw) => Some(url_decoded(raw@)),
                None => None,
            },
        ),
        match devname {
            Some(raw) => !raw@.contains('%') ==> request@ == DevnameRequestView::Device(raw@),
            None => true,
        },
{
    let param = match devname {
        None => DevnameParam::Absent,
        Some(raw) => match decode(raw) {
            Ok(name) => DevnameParam::Decoded(name),
            Err(_) => DevnameParam::Undecodable,
        },
    };
    accept_devname(param)
}

} // verus!
