//! Error responses.

use vstd::prelude::*;

verus! {

/// A request that is answered with an error: the HTTP status, a code for programs and a
/// message for people.
#[derive(Debug)]
pub struct ErrorResponse {
    pub status: u16,
    pub code: String,
    pub message: String,
}

impl ErrorResponse {
    /// The error has this status, code and message.
    pub open spec fn is(self, status: u16, code: Seq<char>, message: Seq<char>) -> bool {
        &&& self.status == status
        &&& self.code@ == code
        &&& self.message@ == message
    }
}

pub fn bad_request(code: &str, message: String) -> (r: ErrorResponse)
    ensures
        r.is(400, code@, message@),
{
    ErrorResponse { status: 400, code: code.to_owned(), message }
}

pub fn not_found(code: &str, message: String) -> (r: ErrorResponse)
    ensures
        r.is(404, code@, message@),
{
    ErrorResponse { status: 404, code: code.to_owned(), message }
}

pub fn internal_error(code: &str, message: String) -> (r: ErrorResponse)
    ensures
        r.is(500, code@, message@),
{
    ErrorResponse { status: 500, code: code.to_owned(), message }
}

pub fn service_unavailable(code: &str, message: String) -> (r: ErrorResponse)
    ensures
        r.is(503, code@, message@),
{
    ErrorResponse { status: 503, code: code.to_owned(), message }
}

/// Each kind of failure has its own HTTP status, and keeps the code and the message that it is
/// given.
pub proof fn law_failures_have_their_status(
    code: &str,
    message: String,
    bad: ErrorResponse,
    missing: ErrorResponse,
    internal: ErrorResponse,
    unavailable: ErrorResponse,
)
    requires
        call_ensures(bad_request, (code, message), bad),
        call_ensures(not_found, (code, message), missing),
        call_ensures(internal_error, (code, message), internal),
        call_ensures(service_unavailable, (code, message), unavailable),
    ensures
        bad.status == 400 && bad.code@ == code@ && bad.message@ == message@,
        missing.status == 404 && missing.code@ == code@ && missing.message@ == message@,
        internal.status == 500 && internal.code@ == code@ && internal.message@ == message@,
        unavailable.status == 503 && unavailable.code@ == code@ && unavailable.message@
            == message@,
{
}

} // verus!
