//! Responses: a served file, or the report of a failure.

use crate::status::{Failure, Status};
use std::io::ErrorKind;
use vstd::prelude::*;
use vstd::string::StrSliceExecFns;
use vstd::utf8::encode_utf8;

verus! {

/// What the server answers a request with.
#[derive(Debug, PartialEq, Eq)]
pub struct Response {
    pub status: Status,
    pub body: Vec<u8>,
    /// The media type of `body`, as it is written in a `Content-Type` header.
    pub content_type: String,
}

/// A response as a mathematical value.
pub struct ResponseView {
    pub status: Status,
    pub body: Seq<u8>,
    pub content_type: Seq<char>,
}

impl View for Response {
    type V = ResponseView;

    open spec fn view(&self) -> ResponseView {
        ResponseView { status: self.status, body: self.body@, content_type: self.content_type@ }
    }
}

/// The one media type that responses carry, whatever the file holds.
pub open spec fn plain_text() -> Seq<char> {
    "text/plain"@
}

/// The response that serves a file holding `contents`.
pub open spec fn success(contents: Seq<u8>) -> ResponseView {
    ResponseView { status: Status::Success, body: contents, content_type: plain_text() }
}

/// The response that reports `failure`: the status that stands for it, with
/// that status's text, encoded as UTF-8, as the body.
pub open spec fn failure(failure: Failure) -> ResponseView {
    ResponseView {
        status: failure.status(),
        body: encode_utf8(failure.status().text()),
        content_type: plain_text(),
    }
}

/// The response to a request whose file was read with `outcome`: the bytes
/// read, or the kind of the I/O error that ended the attempt.
pub open spec fn reply(outcome: Result<Seq<u8>, ErrorKind>) -> ResponseView {
    match outcome {
        Ok(contents) => success(contents),
        Err(kind) => failure(Failure::classify(kind)),
    }
}

/// `mime::TEXT_PLAIN` as text, through its `AsRef<str>`: the constant is the
/// media type `text/plain`, without parameters, and reads as just that.
#[verifier::external_body]
fn text_plain() -> (name: String)
    ensures
        name@ == plain_text(),
{
    mime::TEXT_PLAIN.as_ref().to_owned()
}

/// Serves `contents` as they are, as plain text.
pub fn ok_response(contents: Vec<u8>) -> (response: Response)
    ensures
        response@ == success(contents@),
{
    Response { status: Status::Success, body: contents, content_type: text_plain() }
}

/// Reports an I/O error of kind `kind`: missing files with 404, refused
/// access with 403, anything else with 500.
pub fn error_response(kind: ErrorKind) -> (response: Response)
    ensures
        response@ == failure(Failure::classify(kind)),
{
    let status = Failure::classify(kind).status();
    let text = status.to_text();
    Response { status, body: text.as_str().as_bytes_vec(), content_type: text_plain() }
}

} // verus!
