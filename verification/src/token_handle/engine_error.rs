//! Failure modes of the engine and of the prefill/decode merger.

use vstd::prelude::*;

use crate::text;

verus! {

/// What a failed gRPC call or stream reported: the numeric status code, the
/// message, and the `Debug` text of the underlying error where there is one.
#[derive(Debug)]
pub struct TransportStatus {
    pub code: i32,
    pub message: String,
    pub source: Option<String>,
}

/// How `tonic` shows a status with this numeric code and message and without
/// an underlying error.
pub uninterp spec fn status_text(code: i32, message: Seq<char>) -> Seq<char>;

/// Calls `tonic::Status::new` with `tonic::Code::from_i32` of the code, and
/// shows the status by its `Display`. The text is a function of the code and
/// the message alone; what it is, is left to `tonic`.
#[verifier::external_body]
fn show_status(code: i32, message: &str) -> (r: String)
    ensures
        r@ == status_text(code, message@),
{
    tonic::Status::new(tonic::Code::from_i32(code), message).to_string()
}

/// The gRPC code of an internal error.
pub const CODE_INTERNAL: i32 = 13;

impl TransportStatus {
    /// A status without an underlying error.
    pub fn new(code: i32, message: String) -> (r: Self)
        ensures
            r.code == code,
            r.message == message,
            r.source is None,
    {
        TransportStatus { code, message, source: None }
    }

    /// An internal error with this message.
    pub fn internal(message: String) -> (r: Self)
        ensures
            r == (TransportStatus { code: CODE_INTERNAL, message, source: None }),
    {
        TransportStatus { code: CODE_INTERNAL, message, source: None }
    }

    /// The status as text.
    pub open spec fn text(self) -> Seq<char> {
        match self.source {
            None => status_text(self.code, self.message@),
            Some(s) => status_text(self.code, self.message@) + ", source: "@ + s@,
        }
    }

    pub fn to_string(&self) -> (r: String)
        ensures
            r@ == self.text(),
    {
        let shown = show_status(self.code, self.message.as_str());
        match &self.source {
            None => shown,
            Some(s) => text::join3(shown.as_str(), ", source: ", s.as_str()),
        }
    }
}

#[derive(Debug)]
pub enum EngineError {
    Transport(TransportStatus),
    /// Prefill stream reported an error (prefill/decode pair, waiting for prefill).
    Prefill(String),
    /// Decode stream reported an error while tokens were already streaming.
    DecodeError(String),
    /// Prefill stream closed without `Complete` or an error.
    PrefillEarlyClose,
    /// Decode stream closed without `Complete` or an error.
    DecodeIncomplete,
    ConnectionAcquireFailed(String),
    RequestBuildFailed(String),
}

impl EngineError {
    /// The error as text.
    pub open spec fn text(self) -> Seq<char> {
        match self {
            EngineError::Transport(s) => "transport: "@ + s.text(),
            EngineError::Prefill(m) => "prefill error: "@ + m@,
            EngineError::DecodeError(m) => "decode error: "@ + m@,
            EngineError::PrefillEarlyClose => "prefill stream closed without Complete"@,
            EngineError::DecodeIncomplete => "decode stream closed without Complete"@,
            EngineError::ConnectionAcquireFailed(r) => "connection acquire failed: "@ + r@,
            EngineError::RequestBuildFailed(r) => "request build failed: "@ + r@,
        }
    }

    pub fn to_string(&self) -> (r: String)
        ensures
            r@ == self.text(),
    {
        match self {
            EngineError::Transport(s) => text::join2("transport: ", s.to_string().as_str()),
            EngineError::Prefill(m) => text::join2("prefill error: ", m.as_str()),
            EngineError::DecodeError(m) => text::join2("decode error: ", m.as_str()),
            EngineError::PrefillEarlyClose => "prefill stream closed without Complete".to_owned(),
            EngineError::DecodeIncomplete => "decode stream closed without Complete".to_owned(),
            EngineError::ConnectionAcquireFailed(r) => text::join2(
                "connection acquire failed: ",
                r.as_str(),
            ),
            EngineError::RequestBuildFailed(r) => text::join2("request build failed: ", r.as_str()),
        }
    }

    /// The status that caused this error: there is one for `Transport` alone.
    pub fn source(&self) -> (r: Option<&TransportStatus>)
        ensures
            r == (match *self {
                EngineError::Transport(s) => Some(&s),
                _ => None,
            }),
    {
        match self {
            EngineError::Transport(s) => Some(s),
            _ => None,
        }
    }
}

/// The text of an error ends with what was reported, and begins with where it happened.
pub proof fn law_error_text_tells_what_was_reported(err: &EngineError, r: String)
    requires
        call_ensures(EngineError::to_string, (err,), r),
    ensures
        *err matches EngineError::Transport(s) ==> (forall|shown: String|
            call_ensures(TransportStatus::to_string, (&s,), shown) ==> r@ == "transport: "@
                + #[trigger] shown@),
        *err matches EngineError::Prefill(m) ==> r@ == "prefill error: "@ + m@,
        *err matches EngineError::DecodeError(m) ==> r@ == "decode error: "@ + m@,
        *err matches EngineError::ConnectionAcquireFailed(m) ==> r@
            == "connection acquire failed: "@ + m@,
        *err matches EngineError::RequestBuildFailed(m) ==> r@ == "request build failed: "@ + m@,
        *err is PrefillEarlyClose ==> r@ == "prefill stream closed without Complete"@,
        *err is DecodeIncomplete ==> r@ == "decode stream closed without Complete"@,
{
}

/// The text of a status is that of its code and message; the cause follows, where there is one.
pub proof fn law_status_text_ends_with_the_cause(s: &TransportStatus, r: String)
    requires
        call_ensures(TransportStatus::to_string, (s,), r),
    ensures
        s.source is None ==> r@ == status_text(s.code, s.message@),
        s.source matches Some(cause) ==> r@ == status_text(s.code, s.message@) + ", source: "@
            + cause@,
{
}

/// A status keeps its code and its message, and has no cause; an internal error has the code
/// of one.
pub proof fn law_status_keeps_what_it_is_given(
    code: i32,
    message: String,
    r: TransportStatus,
    internal: TransportStatus,
)
    requires
        call_ensures(TransportStatus::new, (code, message), r),
        call_ensures(TransportStatus::internal, (message,), internal),
    ensures
        r.code == code && r.message@ == message@ && r.source is None,
        internal.code == 13 && internal.message@ == message@ && internal.source is None,
{
}

/// Only an error of the transport was caused by a status: the one that it holds.
pub proof fn law_only_transport_has_a_cause(err: &EngineError, r: Option<&TransportStatus>)
    requires
        call_ensures(EngineError::source, (err,), r),
    ensures
        r is Some <==> *err is Transport,
        r matches Some(s) ==> *err == EngineError::Transport(*s),
{
}

} // verus!
