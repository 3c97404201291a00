//! How a request to `/v1/responses` is answered. Background mode is not supported.

use vstd::prelude::*;

use super::conversions;
use super::conversions::responses_to_chat;
use crate::comm::error;
use crate::comm::error::ErrorResponse;
use crate::ids;
use crate::protocols::chat::ChatCompletionRequest;
use crate::protocols::responses::ResponsesRequest;
use crate::text;

verus! {

/// How a request is answered.
#[derive(Debug)]
pub enum ResponsesRoute {
    /// Event by event.
    Streaming,
    /// As a whole, under this identifier.
    Sync { response_id: String },
}

/// How a request is answered. One for the background is refused.
pub fn route_responses(request: &ResponsesRequest) -> (r: Result<ResponsesRoute, ErrorResponse>)
    ensures
        match r {
            Err(e) => request.background == Some(true) && e.is(
                400,
                "unsupported_parameter"@,
                "Background mode is not supported. Please set 'background' to false or omit it."@,
            ),
            Ok(ResponsesRoute::Streaming) => request.background != Some(true) && request.stream
                == Some(true),
            Ok(ResponsesRoute::Sync { response_id }) => {
                &&& request.background != Some(true)
                &&& request.stream != Some(true)
                &&& exists|digits: Seq<char>|
                    #![trigger ids::is_grouped_uuid(digits)]
                    ids::is_grouped_uuid(digits) && response_id@ == "resp_"@ + digits
            },
        },
{
    if request.background.unwrap_or(false) {
        return Err(
            error::bad_request(
                "unsupported_parameter",
                "Background mode is not supported. Please set 'background' to false or omit it.".to_owned(),
            ),
        );
    }
    if request.stream.unwrap_or(false) {
        Ok(ResponsesRoute::Streaming)
    } else {
        let digits = ids::grouped_uuid();
        assert(ids::is_grouped_uuid(digits@));
        Ok(ResponsesRoute::Sync { response_id: text::join2("resp_", digits.as_str()) })
    }
}

/// The chat request that a request is answered with.
pub fn convert_request(request: &ResponsesRequest) -> (r: Result<
    ChatCompletionRequest,
    ErrorResponse,
>)
    ensures
        match r {
            Ok(chat) => conversions::is_chat_request(Ok(chat), *request),
            Err(e) => conversions::chat_messages(request.deep_view()).len() == 0 && e.is(
                400,
                "convert_request_failed"@,
                "Failed to convert request: "@ + "Request must contain at least one message"@,
            ),
        },
{
    match responses_to_chat(request) {
        Ok(chat) => Ok(chat),
        Err(m) => Err(
            error::bad_request(
                "convert_request_failed",
                text::join2("Failed to convert request: ", m.as_str()),
            ),
        ),
    }
}

/// A request for the background is refused; any other is streamed if it asks for that, and
/// otherwise answered as a whole, under a new identifier.
pub proof fn law_requests_are_routed(
    request: &ResponsesRequest,
    r: Result<ResponsesRoute, ErrorResponse>,
)
    requires
        call_ensures(route_responses, (request,), r),
    ensures
        r is Err <==> request.background == Some(true),
        r matches Err(e) ==> e.status == 400 && e.code@ == "unsupported_parameter"@,
        r matches Ok(ResponsesRoute::Streaming) <==> request.background != Some(true)
            && request.stream == Some(true),
        r matches Ok(ResponsesRoute::Sync { response_id }) ==> response_id@.len() == 41
            && "resp_"@.is_prefix_of(response_id@),
{
    reveal_strlit("resp_");
    if let Ok(ResponsesRoute::Sync { response_id }) = r {
        let digits = choose|digits: Seq<char>|
            #![trigger ids::is_grouped_uuid(digits)]
            ids::is_grouped_uuid(digits) && response_id@ == "resp_"@ + digits;
        assert(response_id@.take(5) =~= "resp_"@);
    }
}

/// Only a request without instructions and without items is refused; the message says why.
pub proof fn law_request_without_messages_is_refused(
    request: &ResponsesRequest,
    r: Result<ChatCompletionRequest, ErrorResponse>,
    chat: Result<ChatCompletionRequest, String>,
)
    requires
        call_ensures(convert_request, (request,), r),
        call_ensures(responses_to_chat, (request,), chat),
    ensures
        r is Ok <==> chat is Ok,
        r matches Err(e) ==> (chat matches Err(m) && e.status == 400 && e.code@
            == "convert_request_failed"@ && e.message@ == "Failed to convert request: "@ + m@),
        r matches Ok(made) ==> (chat matches Ok(other) && made.messages.deep_view()
            == other.messages.deep_view() && made.model@ == other.model@),
{
}

} // verus!
