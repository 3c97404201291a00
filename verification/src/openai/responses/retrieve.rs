//! Stored responses: read again, and why they cannot be cancelled.

use vstd::prelude::*;

use crate::comm::error;
use crate::comm::error::ErrorResponse;
use crate::json;
use crate::json::Json;
use crate::json::JsonView;
use crate::text;

verus! {

/// What is answered where a stored response cannot be read.
pub open spec fn is_miss(e: ErrorResponse, response_id: Seq<char>) -> bool {
    e.is(404, "response_not_found"@, "Response with id '"@ + response_id + "' not found"@)
}

/// What is answered where the store fails.
pub open spec fn is_store_failure(e: ErrorResponse, message: Seq<char>) -> bool {
    e.is(500, "retrieve_response_failed"@, "Failed to retrieve response: "@ + message)
}

fn miss(response_id: &str) -> (r: ErrorResponse)
    ensures
        is_miss(r, response_id@),
{
    error::not_found(
        "response_not_found",
        text::join3("Response with id '", response_id, "' not found"),
    )
}

fn store_failure(message: &str) -> (r: ErrorResponse)
    ensures
        is_store_failure(r, message@),
{
    error::internal_error(
        "retrieve_response_failed",
        text::join2("Failed to retrieve response: ", message),
    )
}

/// The response that the store gave, as it was stored.
pub fn get_response_impl(response_id: &str, stored: Result<Option<Json>, String>) -> (r: Result<
    Json,
    ErrorResponse,
>)
    ensures
        match (stored, r) {
            (Ok(Some(raw)), Ok(response)) => response == raw,
            (Ok(None), Err(e)) => is_miss(e, response_id@),
            (Err(m), Err(e)) => is_store_failure(e, m@),
            _ => false,
        },
{
    match stored {
        Ok(Some(raw)) => Ok(raw),
        Ok(None) => Err(miss(response_id)),
        Err(m) => Err(store_failure(m.as_str())),
    }
}

/// Why a response is not cancelled: it is over, or it was never one for the background.
pub fn cancel_response_impl(response_id: &str, stored: Result<Option<Json>, String>) -> (r:
    ErrorResponse)
    ensures
        match stored {
            Ok(Some(raw)) => {
                let status = json::string_field(raw@, "status"@);
                if status == Some("completed"@) {
                    r.is(
                        400,
                        "response_already_completed"@,
                        "Cannot cancel completed response"@,
                    )
                } else if status == Some("failed"@) {
                    r.is(400, "response_already_failed"@, "Cannot cancel failed response"@)
                } else {
                    r.is(
                        400,
                        "cancellation_not_supported"@,
                        "Background mode is not supported. Synchronous and streaming responses cannot be cancelled."@,
                    )
                }
            },
            Ok(None) => is_miss(r, response_id@),
            Err(m) => is_store_failure(r, m@),
        },
{
    match stored {
        Ok(Some(raw)) => {
            let current_status = match raw.get_str("status") {
                Some(status) => status.as_str(),
                None => "unknown",
            };
            proof {
                reveal_strlit("unknown");
                reveal_strlit("completed");
                reveal_strlit("failed");
                assert("unknown"@.len() != "completed"@.len());
                assert("unknown"@.len() != "failed"@.len());
            }
            if text::same(current_status, "completed") {
                error::bad_request(
                    "response_already_completed",
                    "Cannot cancel completed response".to_owned(),
                )
            } else if text::same(current_status, "failed") {
                error::bad_request(
                    "response_already_failed",
                    "Cannot cancel failed response".to_owned(),
                )
            } else {
                error::bad_request(
                    "cancellation_not_supported",
                    "Background mode is not supported. Synchronous and streaming responses cannot be cancelled.".to_owned(),
                )
            }
        },
        Ok(None) => miss(response_id),
        Err(m) => store_failure(m.as_str()),
    }
}

/// A stored response is read as it was stored, whoever asks; one that is not there, or cannot
/// be read, is told apart by the status, and the message names it or the failure.
pub proof fn law_stored_response_is_read_back(
    response_id: &str,
    stored: Result<Option<Json>, String>,
    r: Result<Json, ErrorResponse>,
)
    requires
        call_ensures(get_response_impl, (response_id, stored), r),
    ensures
        r is Ok <==> stored matches Ok(Some(_)),
        stored matches Ok(Some(raw)) ==> (r matches Ok(given) && given@ == raw@),
        stored matches Ok(None) ==> (r matches Err(e) && e.status == 404 && e.code@
            == "response_not_found"@ && e.message@ == "Response with id '"@ + response_id@
            + "' not found"@),
        stored matches Err(m) ==> (r matches Err(e) && e.status == 500 && e.code@
            == "retrieve_response_failed"@ && e.message@ == "Failed to retrieve response: "@ + m@),
{
}

/// No response can be cancelled. One that is over is refused for that, any other because it
/// does not run in the background; where it cannot be read, the answer is that of reading it.
pub proof fn law_cancelling_is_refused(
    response_id: &str,
    stored: Result<Option<Json>, String>,
    r: ErrorResponse,
    read: Result<Json, ErrorResponse>,
)
    requires
        call_ensures(cancel_response_impl, (response_id, stored), r),
        call_ensures(get_response_impl, (response_id, stored), read),
    ensures
        read matches Err(e) ==> r.status == e.status && r.code@ == e.code@ && r.message@
            == e.message@,
        read is Ok ==> r.status == 400,
        stored matches Ok(Some(raw)) ==> {
            &&& json::field(raw@, "status"@) == Some(JsonView::Str("completed"@)) <==> r.code@
                == "response_already_completed"@
            &&& json::field(raw@, "status"@) == Some(JsonView::Str("failed"@)) <==> r.code@
                == "response_already_failed"@
            &&& r.code@ == "response_already_completed"@ || r.code@ == "response_already_failed"@
                || r.code@ == "cancellation_not_supported"@
        },
{
    reveal_strlit("response_already_completed");
    reveal_strlit("response_already_failed");
    reveal_strlit("cancellation_not_supported");
    reveal_strlit("completed");
    reveal_strlit("failed");
    assert("response_already_completed"@.len() == 26);
    assert("response_already_failed"@.len() == 23);
    assert("cancellation_not_supported"@.len() == 26);
    assert("cancellation_not_supported"@[0] != "response_already_completed"@[0]);
    assert("completed"@.len() != "failed"@.len());
}

} // verus!
