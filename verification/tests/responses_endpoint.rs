use mesh::comm::error::bad_request;
use mesh::json::Json;
use mesh::openai::responses::accumulator::StreamingResponseAccumulator;
use mesh::openai::responses::chunk_events::EventSink;
use mesh::openai::responses::handlers::{convert_request, route_responses, ResponsesRoute};
use mesh::openai::responses::non_streaming::route_responses_internal;
use mesh::openai::responses::persistence::is_kept;
use mesh::openai::responses::retrieve::{cancel_response_impl, get_response_impl};
use mesh::openai::responses::streaming::{
    classify_bytes, classify_text, convert_chat_stream_to_responses_stream, make_error_frame,
    process_and_transform_sse_stream, usage_json, ResponseStream, SseEvent, StreamPiece,
};
use mesh::protocols::chat::{
    ChatChoice, ChatCompletionMessage, ChatCompletionResponse, ChatCompletionStreamResponse,
    ChatMessageDelta, ChatStreamChoice, FunctionCallDelta, ToolCallDelta,
};
use mesh::protocols::common::{CompletionTokensDetails, Usage};
use mesh::protocols::responses::{
    ResponseContentPart, ResponseInput, ResponseOutputItem, ResponseReasoningContent,
    ResponseStatus, ResponsesRequest,
};

fn json(text: &str) -> Json {
    Json::parse(text).unwrap()
}

fn req(stream: bool) -> ResponsesRequest {
    let mut r = ResponsesRequest::default();
    r.model = "m".to_string();
    r.input = ResponseInput::Text("hello".to_string());
    r.stream = Some(stream);
    r
}

#[test]
fn test_post_responses_streaming_dispatches_to_streaming_module() {
    assert!(matches!(route_responses(&req(true)), Ok(ResponsesRoute::Streaming)));
}

#[test]
fn test_post_responses_non_streaming_dispatches_to_non_streaming_module() {
    let ids: Vec<String> = (0..2)
        .map(|_| match route_responses(&req(false)) {
            Ok(ResponsesRoute::Sync { response_id }) => response_id,
            other => panic!("expected a whole response, got {other:?}"),
        })
        .collect();
    assert!(ids[0].starts_with("resp_"));
    assert_eq!(ids[0].len(), 41);
    assert_ne!(ids[0], ids[1]);
}

#[test]
fn test_response_is_kept_unless_the_request_says_not() {
    let mut r = req(false);
    for (store, kept) in [(None, true), (Some(true), true), (Some(false), false)] {
        r.store = store;
        assert_eq!(is_kept(&r), kept);
    }
}

#[test]
fn test_post_responses_background_mode_rejected() {
    let mut r = req(true);
    r.background = Some(true);
    let e = route_responses(&r).unwrap_err();
    assert_eq!(e.status, 400);
    assert_eq!(e.code, "unsupported_parameter");
    assert_eq!(
        e.message,
        "Background mode is not supported. Please set 'background' to false or omit it."
    );
    r.background = Some(false);
    assert!(route_responses(&r).is_ok());
}

#[test]
fn test_non_streaming_empty_input_items_returns_400() {
    let mut r = req(false);
    r.input = ResponseInput::Items(vec![]);
    let e = convert_request(&r).unwrap_err();
    assert_eq!(e.status, 400);
    assert_eq!(e.code, "convert_request_failed");
    assert_eq!(
        e.message,
        "Failed to convert request: Request must contain at least one message"
    );
    assert_eq!(convert_request(&req(false)).unwrap().model, "m");
}

fn completion(choices: Vec<ChatChoice>) -> ChatCompletionResponse {
    ChatCompletionResponse {
        id: "chatcmpl-1".to_string(),
        model: "m".to_string(),
        created: 3,
        choices,
        usage: None,
    }
}

#[test]
fn test_non_streaming_with_response_id_override() {
    let choice = ChatChoice {
        index: 0,
        message: ChatCompletionMessage {
            role: "assistant".to_string(),
            content: Some("hi".to_string()),
            tool_calls: None,
            reasoning_content: None,
        },
        logprobs: None,
        finish_reason: Some("stop".to_string()),
    };
    let answered = Ok(completion(vec![choice]));
    let r = route_responses_internal(answered, &req(false), Some("resp_1".to_string())).unwrap();
    assert_eq!(r.id, "resp_1");
    let e = route_responses_internal(Ok(completion(vec![])), &req(false), None).unwrap_err();
    assert_eq!(e.status, 500);
    assert_eq!(e.code, "convert_to_responses_format_failed");
    assert_eq!(
        e.message,
        "Failed to convert to responses format: Chat response contains no choices"
    );
    let failed = Err(bad_request("c", "m".to_string()));
    let e = route_responses_internal(failed, &req(false), None).unwrap_err();
    assert_eq!(e.code, "c");
}

#[test]
fn test_get_response_returns_stored_payload_when_present() {
    let stored = Ok(Some(json("{\"id\": \"resp_existing\"}")));
    let raw = get_response_impl("resp_existing", stored).unwrap();
    assert_eq!(raw.to_text(), "{\"id\":\"resp_existing\"}");
}

#[test]
fn test_get_response_returns_404_when_missing() {
    let e = get_response_impl("resp_missing", Ok(None)).unwrap_err();
    assert_eq!(e.status, 404);
    assert_eq!(e.code, "response_not_found");
    assert_eq!(e.message, "Response with id 'resp_missing' not found");
    let e = get_response_impl("resp_x", Err("down".to_string())).unwrap_err();
    assert_eq!(e.status, 500);
    assert_eq!(e.code, "retrieve_response_failed");
    assert_eq!(e.message, "Failed to retrieve response: down");
}

#[test]
fn test_cancel_completed_response_returns_bad_request() {
    let r = cancel_response_impl("resp_done", Ok(Some(json("{\"status\": \"completed\"}"))));
    assert_eq!(r.status, 400);
    assert_eq!(r.code, "response_already_completed");
}

#[test]
fn test_cancel_failed_response_returns_bad_request() {
    let r = cancel_response_impl("resp_fail", Ok(Some(json("{\"status\": \"failed\"}"))));
    assert_eq!(r.status, 400);
    assert_eq!(r.code, "response_already_failed");
}

#[test]
fn test_cancel_in_progress_returns_not_supported() {
    let r = cancel_response_impl("resp_run", Ok(Some(json("{\"status\": \"in_progress\"}"))));
    assert_eq!(r.status, 400);
    assert_eq!(r.code, "cancellation_not_supported");
}

#[test]
fn test_cancel_response_without_status_field_returns_not_supported() {
    let r = cancel_response_impl("resp_nosta", Ok(Some(json("{\"id\": \"x\"}"))));
    assert_eq!(r.status, 400);
    assert_eq!(r.code, "cancellation_not_supported");
}

#[test]
fn test_cancel_unknown_response_returns_404() {
    let r = cancel_response_impl("resp_missing", Ok(None));
    assert_eq!(r.status, 404);
    let r = cancel_response_impl("resp_missing", Err("down".to_string()));
    assert_eq!(r.status, 500);
}

#[test]
fn test_pieces_of_the_chat_stream() {
    assert!(matches!(classify_text(" data: [DONE]\n\n"), SseEvent::Done));
    assert!(matches!(classify_text(": keep-alive"), SseEvent::Ignored));
    match classify_bytes("data:  {\"a\":1} \n\n".as_bytes()) {
        SseEvent::Data { event, json } => {
            assert_eq!(event, "data:  {\"a\":1}");
            assert_eq!(json, "{\"a\":1}");
        }
        other => panic!("expected data, got {other:?}"),
    }
    match classify_bytes(&[b'd', b'a', b't', b'a', b':', b' ', 0xff]) {
        SseEvent::Data { json, .. } => assert_eq!(json, "\u{fffd}"),
        other => panic!("expected data, got {other:?}"),
    }
}

fn chunk(
    content: Option<&str>,
    reasoning: Option<&str>,
    tool_calls: Option<Vec<ToolCallDelta>>,
    finish: Option<&str>,
) -> ChatCompletionStreamResponse {
    ChatCompletionStreamResponse {
        id: "chatcmpl-7".to_string(),
        created: 11,
        model: "m".to_string(),
        choices: vec![ChatStreamChoice {
            index: 0,
            delta: ChatMessageDelta {
                role: None,
                content: content.map(|s| s.to_string()),
                tool_calls,
                reasoning_content: reasoning.map(|s| s.to_string()),
            },
            finish_reason: finish.map(|s| s.to_string()),
        }],
        usage: None,
    }
}

fn usage() -> Usage {
    Usage {
        prompt_tokens: 2,
        completion_tokens: 3,
        total_tokens: 5,
        completion_tokens_details: Some(CompletionTokensDetails { reasoning_tokens: Some(1) }),
    }
}

#[test]
fn test_usage_as_json() {
    assert_eq!(
        usage_json(&usage()).to_text(),
        "{\"input_tokens\":2,\"output_tokens\":3,\"output_tokens_details\":{\"reasoning_tokens\":1},\"total_tokens\":5}"
    );
    let plain = Usage { completion_tokens_details: None, ..usage() };
    assert_eq!(
        usage_json(&plain).to_text(),
        "{\"input_tokens\":2,\"output_tokens\":3,\"total_tokens\":5}"
    );
}

#[test]
fn test_accumulated_chunks_make_a_response() {
    let mut kept = StreamingResponseAccumulator::new(&req(true));
    kept.process_chunk(&chunk(Some("he"), Some("th"), None, None));
    let mut later = chunk(
        Some("llo"),
        Some("ink"),
        Some(vec![ToolCallDelta {
            index: 1,
            id: Some("c".to_string()),
            function: Some(FunctionCallDelta {
                name: Some("f".to_string()),
                arguments: Some("{".to_string()),
            }),
        }]),
        None,
    );
    later.id = "other".to_string();
    kept.process_chunk(&later);
    let mut last = chunk(None, None, None, Some("error"));
    last.usage = Some(usage());
    kept.process_chunk(&last);
    let r = kept.finalize();
    assert_eq!(r.id, "chatcmpl-7");
    assert_eq!(r.created_at, 11);
    assert_eq!(r.status, ResponseStatus::Failed);
    assert!(r.usage.is_some());
    assert_eq!(r.output.len(), 4);
    match &r.output[0] {
        ResponseOutputItem::Message { id, content, .. } => {
            assert_eq!(id, "msg_chatcmpl-7");
            assert!(matches!(&content[0], ResponseContentPart::OutputText { text, .. } if text == "hello"));
        }
        other => panic!("expected a message, got {other:?}"),
    }
    match &r.output[1] {
        ResponseOutputItem::Reasoning { content, .. } => {
            let ResponseReasoningContent::ReasoningText { text } = &content[0];
            assert_eq!(text, "think");
        }
        other => panic!("expected reasoning, got {other:?}"),
    }
    match &r.output[2] {
        ResponseOutputItem::FunctionToolCall { id, name, .. } => {
            assert_eq!((id.as_str(), name.as_str()), ("", ""));
        }
        other => panic!("expected a call, got {other:?}"),
    }
    match &r.output[3] {
        ResponseOutputItem::FunctionToolCall { id, call_id, name, arguments, status, .. } => {
            assert_eq!(id, "c");
            assert_eq!(call_id, "");
            assert_eq!(name, "f");
            assert_eq!(arguments, "{");
            assert_eq!(status, "in_progress");
        }
        other => panic!("expected a call, got {other:?}"),
    }
}

fn streamed(pieces: Vec<StreamPiece>) -> (EventSink, Result<(), String>) {
    let mut tx = EventSink::new();
    let mut stream = match ResponseStream::start(req(true), 99, &mut tx) {
        Ok(s) => s,
        Err(e) => panic!("{e}"),
    };
    for piece in &pieces {
        if let StreamPiece::Chunk(c) = piece {
            assert!(stream.accepts(c));
        }
        match process_and_transform_sse_stream(&mut stream, piece, &mut tx) {
            Ok(true) => {}
            Ok(false) => break,
            Err(e) => {
                convert_chat_stream_to_responses_stream(Err(e.clone()), &mut tx);
                return (tx, Err(e));
            }
        }
    }
    let kept = stream.finish(&mut tx).unwrap();
    assert_eq!(kept.model, "m");
    convert_chat_stream_to_responses_stream(Ok(()), &mut tx);
    (tx, Ok(()))
}

#[test]
fn test_streaming_event_order_created_before_completed() {
    let (tx, outcome) = streamed(vec![
        StreamPiece::Ignored,
        StreamPiece::Chunk(chunk(Some("hi"), None, None, None)),
        StreamPiece::Other("data: {\"error\":1}".to_string()),
        StreamPiece::Chunk(chunk(None, None, None, Some("stop"))),
        StreamPiece::End,
        StreamPiece::Chunk(chunk(Some("never"), None, None, None)),
    ]);
    assert!(outcome.is_ok());
    assert!(tx.frames[0].starts_with("event: response.created\n"));
    assert!(tx.frames[1].starts_with("event: response.in_progress\n"));
    assert!(tx.frames.contains(&"data: {\"error\":1}\n\n".to_string()));
    let n = tx.frames.len();
    assert!(tx.frames[n - 2].starts_with("event: response.completed\n"));
    assert!(tx.frames[n - 2].contains("\"text\":\"hi\""));
    assert_eq!(tx.frames[n - 1], "data: [DONE]\n\n");
    assert!(!tx.frames.concat().contains("never"));
}

#[test]
fn test_streaming_done_marker_is_last() {
    let (tx, outcome) = streamed(vec![
        StreamPiece::Chunk(chunk(Some("hi"), None, None, None)),
        StreamPiece::ReadError("reset".to_string()),
    ]);
    assert_eq!(outcome, Err("Stream read error: reset".to_string()));
    let n = tx.frames.len();
    assert_eq!(
        tx.frames[n - 2],
        "data: {\"error\":{\"message\":\"Stream read error: reset\",\"type\":\"stream_error\"}}\n\n"
    );
    assert_eq!(tx.frames[n - 2], make_error_frame("Stream read error: reset"));
    assert_eq!(tx.frames[n - 1], "data: [DONE]\n\n");
}

#[test]
fn test_streaming_to_a_client_that_is_gone() {
    let mut tx = EventSink::new();
    tx.open = false;
    match ResponseStream::start(req(true), 0, &mut tx) {
        Ok(_) => panic!("started"),
        Err(e) => assert_eq!(e, "Failed to send response.created event"),
    }
    tx.open = true;
    let mut stream = match ResponseStream::start_with_ids(
        req(true),
        "resp_1".to_string(),
        "msg_1".to_string(),
        0,
        &mut tx,
    ) {
        Ok(s) => s,
        Err(e) => panic!("{e}"),
    };
    assert!(tx.frames[0].contains("\"id\":\"resp_1\""));
    tx.open = false;
    let other = StreamPiece::Other("data: x".to_string());
    assert_eq!(
        process_and_transform_sse_stream(&mut stream, &other, &mut tx),
        Err("Client disconnected".to_string())
    );
    match stream.finish(&mut tx) {
        Ok(_) => panic!("finished"),
        Err(e) => assert_eq!(e, "Client disconnected"),
    }
    convert_chat_stream_to_responses_stream(Ok(()), &mut tx);
    assert_eq!(tx.frames.len(), 2);
}

#[test]
fn test_every_index_up_to_the_largest_has_a_call() {
    let delta = |index: u32, id: Option<&str>, name: &str, arguments: &str| ToolCallDelta {
        index,
        id: id.map(|s| s.to_string()),
        function: Some(FunctionCallDelta {
            name: Some(name.to_string()),
            arguments: Some(arguments.to_string()),
        }),
    };
    let mut kept = StreamingResponseAccumulator::new(&req(true));
    let first = vec![delta(2, Some("c"), "f", "{"), delta(0, Some("a"), "g", "")];
    kept.process_chunk(&chunk(Some("x"), Some("r"), Some(first), None));
    kept.process_chunk(&chunk(None, None, Some(vec![delta(2, Some("d"), "h", "}")]), None));
    assert_eq!(kept.content_buffer, "x");
    assert_eq!(kept.reasoning_buffer, "r");
    let said: Vec<(&str, &str, &str)> = kept
        .tool_calls
        .iter()
        .map(|item| match item {
            ResponseOutputItem::FunctionToolCall { id, name, arguments, .. } => {
                (id.as_str(), name.as_str(), arguments.as_str())
            }
            other => panic!("expected a call, got {other:?}"),
        })
        .collect();
    assert_eq!(said, vec![("a", "g", ""), ("", "", ""), ("cd", "fh", "{}")]);
}
