//! Responses that are given as a whole.

use vstd::prelude::*;

use super::conversions;
use super::conversions::chat_to_responses;
use crate::comm::error;
use crate::comm::error::ErrorResponse;
use crate::protocols::chat::ChatCompletionResponse;
use crate::protocols::responses::ResponsesRequest;
use crate::protocols::responses::ResponsesResponse;
use crate::text;

verus! {

/// The response that is made of what the chat pipeline gave. Its failures are passed on.
pub fn route_responses_internal(
    answered: Result<ChatCompletionResponse, ErrorResponse>,
    request: &ResponsesRequest,
    response_id: Option<String>,
) -> (r: Result<ResponsesResponse, ErrorResponse>)
    ensures
        match (answered, r) {
            (Err(e), Err(passed)) => passed == e,
            (Ok(chat), Ok(response)) => conversions::is_response(
                Ok(response),
                chat,
                *request,
                response_id,
            ),
            (Ok(chat), Err(e)) => chat.choices@.len() == 0 && e.is(
                500,
                "convert_to_responses_format_failed"@,
                "Failed to convert to responses format: "@ + "Chat response contains no choices"@,
            ),
            (Err(_), Ok(_)) => false,
        },
{
    match answered {
        Err(e) => Err(e),
        Ok(chat) => match chat_to_responses(&chat, request, response_id) {
            Ok(response) => Ok(response),
            Err(m) => Err(
                error::internal_error(
                    "convert_to_responses_format_failed",
                    text::join2("Failed to convert to responses format: ", m.as_str()),
                ),
            ),
        },
    }
}

/// What the chat pipeline refused is refused in the same words; what it answered is made into
/// a response, unless it has no choices.
pub proof fn law_answer_or_failure_is_passed_on(
    answered: Result<ChatCompletionResponse, ErrorResponse>,
    request: &ResponsesRequest,
    response_id: Option<String>,
    r: Result<ResponsesResponse, ErrorResponse>,
    made: Result<ResponsesResponse, String>,
)
    requires
        call_ensures(route_responses_internal, (answered, request, response_id), r),
        answered matches Ok(chat) ==> call_ensures(
            chat_to_responses,
            (&chat, request, response_id),
            made,
        ),
    ensures
        answered matches Err(e) ==> (r matches Err(passed) && passed.status == e.status
            && passed.code@ == e.code@ && passed.message@ == e.message@),
        answered matches Ok(chat) ==> {
            &&& r is Err <==> chat.choices@.len() == 0
            &&& r matches Err(e) ==> e.status == 500 && e.code@
                == "convert_to_responses_format_failed"@
            &&& r matches Ok(resp) ==> {
                &&& response_id matches Some(id) ==> resp.id@ == id@
                &&& response_id is None ==> resp.id@ == chat.id@
                &&& resp.model@ == chat.model@
                &&& made matches Ok(other)
                &&& resp.output.deep_view() == other.output.deep_view()
                &&& resp.status == other.status
                &&& resp.created_at == other.created_at
                &&& resp.usage == other.usage
            }
        },
{
}

} // verus!
