//! Filesystem failures as the server tells them apart, and the HTTP statuses
//! it answers with.

use std::io::ErrorKind;
use vstd::prelude::*;

verus! {

/// `std::io::ErrorKind`, with its variants as std declares them: they carry
/// no data, so nothing of the type is hidden and nothing is assumed of it.
#[verifier::external_type_specification]
pub struct ExErrorKind(ErrorKind);

/// Why a filesystem operation failed, as far as a response depends on it.
#[derive(Clone, Copy, Debug, PartialEq, Eq)]
pub enum Failure {
    /// Nothing exists at the path.
    NotFound,
    /// The process may not read what is at the path.
    PermissionDenied,
    /// Any other failure.
    Other,
}

/// The statuses that the server answers with.
#[derive(Clone, Copy, Debug, PartialEq, Eq)]
pub enum Status {
    /// 200: the file is served.
    Success,
    /// 403: the file may not be read.
    Forbidden,
    /// 404: there is no such file.
    NotFound,
    /// 500: reading the file failed in some other way.
    InternalServerError,
}

impl Failure {
    /// The failure that an I/O error of kind `kind` counts as: the kinds for
    /// a missing file and for refused access are told apart, all others are
    /// one.
    pub open spec fn spec_classify(kind: ErrorKind) -> Failure {
        match kind {
            ErrorKind::NotFound => Failure::NotFound,
            ErrorKind::PermissionDenied => Failure::PermissionDenied,
            _ => Failure::Other,
        }
    }

    /// The failure that an I/O error of kind `kind` counts as.
    #[verifier::when_used_as_spec(spec_classify)]
    pub fn classify(kind: ErrorKind) -> (failure: Failure)
        ensures
            failure == Failure::spec_classify(kind),
    {
        match kind {
            ErrorKind::NotFound => Failure::NotFound,
            ErrorKind::PermissionDenied => Failure::PermissionDenied,
            _ => Failure::Other,
        }
    }

    /// The status that answers a request which met this failure.
    pub open spec fn spec_status(self) -> Status {
        match self {
            Failure::NotFound => Status::NotFound,
            Failure::PermissionDenied => Status::Forbidden,
            Failure::Other => Status::InternalServerError,
        }
    }

    /// The status that answers a request which met this failure.
    #[verifier::when_used_as_spec(spec_status)]
    pub fn status(self) -> (status: Status)
        ensures
            status == self.spec_status(),
    {
        match self {
            Failure::NotFound => Status::NotFound,
            Failure::PermissionDenied => Status::Forbidden,
            Failure::Other => Status::InternalServerError,
        }
    }
}

impl Status {
    /// The status code as a number.
    pub open spec fn spec_code(self) -> u16 {
        match self {
            Status::Success => 200,
            Status::Forbidden => 403,
            Status::NotFound => 404,
            Status::InternalServerError => 500,
        }
    }

    /// The status code as a number.
    #[verifier::when_used_as_spec(spec_code)]
    pub fn code(self) -> (code: u16)
        ensures
            code == self.spec_code(),
    {
        match self {
            Status::Success => 200,
            Status::Forbidden => 403,
            Status::NotFound => 404,
            Status::InternalServerError => 500,
        }
    }

    /// The status as text: its code, a space, and its reason phrase.
    pub open spec fn text(self) -> Seq<char> {
        match self {
            Status::Success => "200 OK"@,
            Status::Forbidden => "403 Forbidden"@,
            Status::NotFound => "404 Not Found"@,
            Status::InternalServerError => "500 Internal Server Error"@,
        }
    }

    /// The status as text, as hyper prints it.
    pub fn to_text(self) -> (text: String)
        ensures
            text@ == self.text(),
    {
        display_status(self)
    }
}

/// hyper's `Display` for `StatusCode`, on the four statuses of this library:
/// it writes the number of the code, one space, and the canonical reason
/// phrase that hyper keeps for that code.
#[verifier::external_body]
fn display_status(status: Status) -> (text: String)
    ensures
        text@ == status.text(),
{
    let code = match status {
        Status::Success => hyper::StatusCode::Ok,
        Status::Forbidden => hyper::StatusCode::Forbidden,
        Status::NotFound => hyper::StatusCode::NotFound,
        Status::InternalServerError => hyper::StatusCode::InternalServerError,
    };
    format!("{}", code)
}

} // verus!
