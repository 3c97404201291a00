use mesh::comm::sse::build_sse_response;
use mesh::float::F32;
use mesh::json::Json;
use mesh::openai::responses::chunk_events::EventSink;
use mesh::openai::responses::emitter::{OutputItemType, ResponseStreamEventEmitter};
use mesh::protocols::chat::{
    ChatCompletionStreamResponse, ChatMessageDelta, ChatStreamChoice, FunctionCallDelta,
    ToolCallDelta,
};
use mesh::protocols::common::{Encoded, ToolChoice, ToolChoiceValue};
use mesh::protocols::responses::ResponsesRequest;

fn f(x: f32) -> F32 {
    F32 { bits: x.to_bits() }
}

fn json(text: &str) -> Json {
    Json::parse(text).unwrap()
}

fn message_item(id: &str) -> Json {
    Json::Object(vec![
        ("id".to_string(), Json::string(id)),
        ("type".to_string(), Json::string("message")),
    ])
}

fn stored_item(id: &str) -> Json {
    let mut item = json(
        "{\"type\":\"message\",\"role\":\"assistant\",\"content\":[{\"type\":\"text\",\"text\":\"hello\"}]}",
    );
    item.set("id", Json::string(id));
    item
}

fn emitter_x() -> ResponseStreamEventEmitter {
    ResponseStreamEventEmitter::new("resp_x".to_string(), "m".to_string(), 0)
}

fn emitter_y() -> ResponseStreamEventEmitter {
    ResponseStreamEventEmitter::new("resp_y".to_string(), "test-model".to_string(), 99)
}

fn chunk_with(
    content: Option<&str>,
    tool_calls: Option<Vec<ToolCallDelta>>,
    finish: Option<&str>,
) -> ChatCompletionStreamResponse {
    ChatCompletionStreamResponse {
        id: "id".to_string(),
        created: 0,
        model: "m".to_string(),
        choices: vec![ChatStreamChoice {
            index: 0,
            delta: ChatMessageDelta {
                role: None,
                content: content.map(|s| s.to_string()),
                tool_calls,
                reasoning_content: None,
            },
            finish_reason: finish.map(|s| s.to_string()),
        }],
        usage: None,
    }
}

fn chunk_empty() -> ChatCompletionStreamResponse {
    ChatCompletionStreamResponse {
        id: "id".to_string(),
        created: 0,
        model: "m".to_string(),
        choices: vec![],
        usage: None,
    }
}

#[test]
fn test_emit_created_returns_response_created_type() {
    let mut e = emitter_x();
    let v = e.emit_created().to_value();
    assert_eq!(v["type"], "response.created");
    assert_eq!(v["sequence_number"], 0);
}

#[test]
fn test_emit_in_progress_increments_sequence() {
    let mut e = emitter_x();
    let _ = e.emit_created().to_value();
    let v = e.emit_in_progress().to_value();
    assert_eq!(v["type"], "response.in_progress");
    assert_eq!(v["sequence_number"], 1);
}

#[test]
fn test_emit_text_delta_accumulates_text() {
    let mut e = emitter_x();
    let _ = e.emit_text_delta("hello", 0, "msg_1", 0).to_value();
    let _ = e.emit_text_delta(" world", 0, "msg_1", 0).to_value();
    let done = e.emit_text_done(0, "msg_1", 0).to_value();
    assert_eq!(done["text"], "hello world");
}

#[test]
fn test_emit_content_part_added_and_done() {
    let mut e = emitter_x();
    let a = e.emit_content_part_added(0, "msg_1", 0).to_value();
    assert_eq!(a["type"], "response.content_part.added");
    let d = e.emit_content_part_done(0, "msg_1", 0).to_value();
    assert_eq!(d["type"], "response.content_part.done");
}

#[test]
fn test_emit_output_item_added_and_done() {
    let mut e = emitter_x();
    let (idx, id) = e.allocate_output_index(OutputItemType::Message);
    let item = message_item(&id);
    let a = e.emit_output_item_added(idx, &item).to_value();
    assert_eq!(a["type"], "response.output_item.added");
    let d = e.emit_output_item_done(idx, &item).to_value();
    assert_eq!(d["type"], "response.output_item.done");
    e.complete_output_item(idx);
}

#[test]
fn test_emit_function_call_arguments_delta_and_done() {
    let mut e = emitter_x();
    let d = e.emit_function_call_arguments_delta(0, "fc_1", "{\"a\":1").to_value();
    assert_eq!(d["type"], "response.function_call_arguments.delta");
    let done = e.emit_function_call_arguments_done(0, "fc_1", "{\"a\":1}").to_value();
    assert_eq!(done["type"], "response.function_call_arguments.done");
}

#[test]
fn test_emit_completed_with_no_items_includes_fallback_assistant() {
    let mut e = emitter_x();
    let _ = e.emit_text_delta("hi", 0, "m", 0).to_value();
    let c = e.emit_completed(None).to_value();
    assert_eq!(c["type"], "response.completed");
    assert!(c["response"]["output"].is_array());
}

#[test]
fn test_emit_completed_with_usage_carries_usage() {
    let mut e = emitter_x();
    let u = json("{\"input_tokens\": 3, \"output_tokens\": 5, \"total_tokens\": 8}");
    let c = e.emit_completed(Some(&u)).to_value();
    assert_eq!(c["response"]["usage"]["total_tokens"], 8);
}

#[test]
fn test_emit_completed_with_original_request_passes_through() {
    let mut e = emitter_x();
    let mut req = ResponsesRequest::default();
    req.model = "m".to_string();
    req.instructions = Some("be terse".to_string());
    req.user = Some("u".to_string());
    e.set_original_request(req);
    let c = e.emit_completed(None).to_value();
    assert_eq!(c["response"]["instructions"], "be terse");
    assert_eq!(c["response"]["parallel_tool_calls"], true);
    assert_eq!(c["response"]["store"], true);
}

#[test]
fn test_allocate_output_index_increments_for_function_call() {
    let mut e = emitter_x();
    let (i0, id0) = e.allocate_output_index(OutputItemType::Message);
    let (i1, id1) = e.allocate_output_index(OutputItemType::FunctionCall);
    assert_ne!(i0, i1);
    assert!(id1.starts_with("fc_"));
    assert!(id0.starts_with("msg_"));
}

#[test]
fn test_process_chunk_content_emits_added_and_delta() {
    let mut e = emitter_x();
    let mut tx = EventSink::new();
    e.process_chunk(&chunk_with(Some("hi"), None, None), &mut tx).unwrap();
    let s = tx.frames.concat();
    assert!(s.contains("response.output_item.added"));
    assert!(s.contains("response.content_part.added"));
    assert!(s.contains("response.output_text.delta"));
}

#[test]
fn test_process_chunk_empty_content_is_skipped() {
    let mut e = emitter_x();
    let mut tx = EventSink::new();
    e.process_chunk(&chunk_with(Some(""), None, None), &mut tx).unwrap();
    let s = tx.frames.concat();
    assert!(s.is_empty());
}

#[test]
fn test_process_chunk_tool_call_emits_function_call_events() {
    let mut e = emitter_x();
    let mut tx = EventSink::new();
    let deltas = vec![ToolCallDelta {
        index: 0,
        id: Some("call_x".to_string()),
        function: Some(FunctionCallDelta {
            name: Some("f".to_string()),
            arguments: Some("{\"a\":1}".to_string()),
        }),
    }];
    e.process_chunk(&chunk_with(None, Some(deltas), None), &mut tx).unwrap();
    let s = tx.frames.concat();
    assert!(s.contains("response.output_item.added"));
    assert!(s.contains("response.function_call_arguments.delta"));
}

#[test]
fn test_process_chunk_finish_tool_calls_emits_done_for_each_call() {
    let mut e = emitter_x();
    let mut tx = EventSink::new();
    let deltas = vec![ToolCallDelta {
        index: 0,
        id: Some("c1".to_string()),
        function: Some(FunctionCallDelta {
            name: Some("f".to_string()),
            arguments: Some("{}".to_string()),
        }),
    }];
    e.process_chunk(&chunk_with(None, Some(deltas), None), &mut tx).unwrap();
    e.process_chunk(&chunk_with(None, None, Some("tool_calls")), &mut tx).unwrap();
    let s = tx.frames.concat();
    assert!(s.contains("response.function_call_arguments.done"));
    assert!(s.contains("response.output_item.done"));
}

#[test]
fn test_process_chunk_finish_stop_emits_text_done() {
    let mut e = emitter_x();
    let mut tx = EventSink::new();
    e.process_chunk(&chunk_with(Some("yo"), None, None), &mut tx).unwrap();
    e.process_chunk(&chunk_with(None, None, Some("stop")), &mut tx).unwrap();
    let s = tx.frames.concat();
    assert!(s.contains("response.output_text.done"));
    assert!(s.contains("response.content_part.done"));
    assert!(s.contains("response.output_item.done"));
}

#[test]
fn test_process_chunk_finish_length_emits_text_done() {
    let mut e = emitter_x();
    let mut tx = EventSink::new();
    e.process_chunk(&chunk_with(Some("yo"), None, None), &mut tx).unwrap();
    e.process_chunk(&chunk_with(None, None, Some("length")), &mut tx).unwrap();
    let s = tx.frames.concat();
    assert!(s.contains("response.output_text.done"));
}

#[test]
fn test_send_event_on_closed_channel_returns_error() {
    let e = emitter_x();
    let mut tx = EventSink::new();
    tx.open = false;
    let v = json("{\"type\": \"x\"}");
    let r = e.send_event(&v, &mut tx);
    assert!(r.is_err());
}

#[test]
fn test_build_sse_response_has_event_stream_content_type() {
    let ct = build_sse_response().content_type;
    assert!(ct.contains("text/event-stream"));
}

#[test]
fn test_next_sequence_starts_at_zero_and_counts() {
    let mut e = emitter_x();
    assert_eq!(e.next_sequence(), 0);
    assert_eq!(e.next_sequence(), 1);
    assert_eq!(e.emit_created().to_value()["sequence_number"], 2);
    assert_eq!(e.next_sequence(), 3);
}

#[test]
fn test_sequence_numbers_are_monotonic_across_calls() {
    let mut e = emitter_y();
    let c = e.emit_created().to_value();
    assert_eq!(c["sequence_number"], 0);
    let p = e.emit_in_progress().to_value();
    assert_eq!(p["sequence_number"], 1);
    let (idx, id) = e.allocate_output_index(OutputItemType::Message);
    let item = message_item(&id);
    let a = e.emit_output_item_added(idx, &item).to_value();
    assert_eq!(a["sequence_number"], 2);
    let cp = e.emit_content_part_added(idx, &id, 0).to_value();
    assert_eq!(cp["sequence_number"], 3);
    let td = e.emit_text_delta("a", idx, &id, 0).to_value();
    assert_eq!(td["sequence_number"], 4);
}

#[test]
fn test_emit_completed_with_tracked_items_uses_them() {
    let mut e = emitter_y();
    let (idx, id) = e.allocate_output_index(OutputItemType::Message);
    let item = stored_item(&id);
    e.store_output_item_data(idx, item);
    e.complete_output_item(idx);
    let c = e.emit_completed(None).to_value();
    let output = c["response"]["output"].as_array().unwrap();
    assert_eq!(output.len(), 1);
    assert_eq!(output[0]["id"], id);
}

#[test]
fn test_emit_completed_without_usage() {
    let mut e = emitter_y();
    let c = e.emit_completed(None).to_value();
    assert!(c["response"]["usage"].is_null());
}

#[test]
fn test_emit_completed_with_original_request_optional_fields() {
    let mut e = emitter_y();
    let mut req = ResponsesRequest::default();
    req.model = "m".to_string();
    req.max_output_tokens = Some(100);
    req.max_tool_calls = Some(5);
    req.temperature = Some(Encoded { value: f(0.7), json: json("0.7") });
    req.top_p = Some(Encoded { value: f(0.9), json: json("0.9") });
    req.previous_response_id = Some("prev_123".to_string());
    e.set_original_request(req);
    let c = e.emit_completed(None).to_value();
    assert_eq!(c["response"]["max_output_tokens"], 100);
    assert_eq!(c["response"]["max_tool_calls"], 5);
    assert_eq!(c["response"]["previous_response_id"], "prev_123");
}

#[test]
fn test_emit_completed_without_tool_choice_defaults_to_auto() {
    let mut e = emitter_y();
    let mut req = ResponsesRequest::default();
    req.model = "m".to_string();
    e.set_original_request(req);
    let c = e.emit_completed(None).to_value();
    assert_eq!(c["response"]["tool_choice"], "auto");
}

#[test]
fn test_emit_completed_without_original_request_no_optional_fields() {
    let mut e = emitter_y();
    let c = e.emit_completed(None).to_value();
    assert!(c["response"]["instructions"].is_null());
    assert!(c["response"]["store"].is_null());
}

#[test]
fn test_process_chunk_empty_choices_is_noop() {
    let mut e = emitter_y();
    let mut tx = EventSink::new();
    e.process_chunk(&chunk_empty(), &mut tx).unwrap();
    let s = tx.frames.concat();
    assert!(s.is_empty());
}

#[test]
fn test_process_chunk_multiple_content_deltas_accumulate() {
    let mut e = emitter_y();
    let mut tx = EventSink::new();
    e.process_chunk(&chunk_with(Some("hello"), None, None), &mut tx).unwrap();
    e.process_chunk(&chunk_with(Some(" world"), None, None), &mut tx).unwrap();
    let s = tx.frames.concat();
    assert!(s.contains("response.output_text.delta"));
    assert!(s.contains("hello"));
    assert!(s.contains(" world"));
    assert!(s.contains("response.output_item.added"));
    assert!(s.contains("response.content_part.added"));
}

#[test]
fn test_process_chunk_tool_call_without_args_no_args_delta() {
    let mut e = emitter_y();
    let mut tx = EventSink::new();
    let deltas = vec![ToolCallDelta {
        index: 0,
        id: Some("call_x".to_string()),
        function: Some(FunctionCallDelta {
            name: Some("f".to_string()),
            arguments: None,
        }),
    }];
    e.process_chunk(&chunk_with(None, Some(deltas), None), &mut tx).unwrap();
    let s = tx.frames.concat();
    assert!(s.contains("response.output_item.added"));
    assert!(!s.contains("response.function_call_arguments.delta"));
}

#[test]
fn test_process_chunk_tool_call_empty_args_no_delta() {
    let mut e = emitter_y();
    let mut tx = EventSink::new();
    let deltas = vec![ToolCallDelta {
        index: 0,
        id: Some("call_y".to_string()),
        function: Some(FunctionCallDelta {
            name: Some("g".to_string()),
            arguments: Some("".to_string()),
        }),
    }];
    e.process_chunk(&chunk_with(None, Some(deltas), None), &mut tx).unwrap();
    let s = tx.frames.concat();
    assert!(!s.contains("response.function_call_arguments.delta"));
}

#[test]
fn test_process_chunk_multiple_tool_calls_allocate_separate_indices() {
    let mut e = emitter_y();
    let mut tx = EventSink::new();
    let deltas = vec![
        ToolCallDelta {
            index: 0,
            id: Some("c1".to_string()),
            function: Some(FunctionCallDelta {
                name: Some("f1".to_string()),
                arguments: Some("{".to_string()),
            }),
        },
        ToolCallDelta {
            index: 1,
            id: Some("c2".to_string()),
            function: Some(FunctionCallDelta {
                name: Some("f2".to_string()),
                arguments: Some("{".to_string()),
            }),
        },
    ];
    e.process_chunk(&chunk_with(None, Some(deltas), None), &mut tx).unwrap();
    let s = tx.frames.concat();
    assert!(s.contains("response.output_item.added"));
    assert!(s.contains("f1"));
    assert!(s.contains("f2"));
    assert!(s.contains("response.function_call_arguments.delta"));
}

#[test]
fn test_send_event_formats_as_sse_with_event_type() {
    let e = emitter_y();
    let mut tx = EventSink::new();
    let event = json("{\"type\": \"custom.event\", \"data\": 42}");
    e.send_event(&event, &mut tx).unwrap();
    let s = tx.frames.concat();
    assert!(s.starts_with("event: custom.event\n"));
    assert!(s.contains("data: "));
}

#[test]
fn test_send_event_missing_type_defaults_to_message() {
    let e = emitter_y();
    let mut tx = EventSink::new();
    let event = json("{\"data\": 42}");
    e.send_event(&event, &mut tx).unwrap();
    let s = tx.frames.concat();
    assert!(s.starts_with("event: message\n"));
}

#[test]
fn test_complete_output_item_nonexistent_index_is_harmless() {
    let mut e = emitter_y();
    e.complete_output_item(999);
}

#[test]
fn test_store_output_item_data_nonexistent_index_is_harmless() {
    let mut e = emitter_y();
    e.store_output_item_data(999, json("{\"x\": 1}"));
}

#[test]
fn test_allocate_function_call_id_starts_with_fc() {
    let mut e = emitter_y();
    let (_, id) = e.allocate_output_index(OutputItemType::FunctionCall);
    assert!(id.starts_with("fc_"));
}

#[test]
fn test_allocate_message_id_starts_with_msg() {
    let mut e = emitter_y();
    let (_, id) = e.allocate_output_index(OutputItemType::Message);
    assert!(id.starts_with("msg_"));
}

#[test]
fn test_emit_created_sets_status_in_progress() {
    let mut e = emitter_y();
    let v = e.emit_created().to_value();
    assert_eq!(v["response"]["status"], "in_progress");
    assert_eq!(v["response"]["model"], "test-model");
    assert_eq!(v["response"]["created_at"], 99);
}

#[test]
fn test_build_sse_response_headers() {
    let head = build_sse_response();
    assert_eq!(head.cache_control, "no-cache");
    assert_eq!(head.connection, "keep-alive");
    assert_eq!(head.status, 200);
}

fn call(index: u32, id: Option<&str>, name: Option<&str>, arguments: &str) -> ToolCallDelta {
    ToolCallDelta {
        index,
        id: id.map(|s| s.to_string()),
        function: Some(FunctionCallDelta {
            name: name.map(|s| s.to_string()),
            arguments: Some(arguments.to_string()),
        }),
    }
}

fn events(tx: &EventSink) -> Vec<serde_json::Value> {
    tx.frames
        .iter()
        .map(|frame| {
            let (_, data) = frame.split_once("\ndata: ").unwrap();
            serde_json::from_str(data.strip_suffix("\n\n").unwrap()).unwrap()
        })
        .collect()
}

#[test]
fn test_events_of_a_stream_are_numbered_without_gaps() {
    let mut e = emitter_x();
    let mut tx = EventSink::new();
    let created = e.emit_created();
    e.send_event(&created, &mut tx).unwrap();
    e.process_chunk(&chunk_with(Some("a"), None, None), &mut tx).unwrap();
    e.process_chunk(
        &chunk_with(Some("b"), Some(vec![call(0, Some("c1"), Some("f"), "{"), call(1, Some("c2"), Some("g"), "{")]), None),
        &mut tx,
    )
    .unwrap();
    e.process_chunk(&chunk_with(None, Some(vec![call(0, None, None, "}")]), Some("tool_calls")), &mut tx)
        .unwrap();
    let seen = events(&tx);
    for (i, event) in seen.iter().enumerate() {
        assert_eq!(event["sequence_number"], i);
    }
    let mut indices: Vec<u64> = seen
        .iter()
        .filter(|event| event["type"] == "response.output_item.added")
        .map(|event| event["output_index"].as_u64().unwrap())
        .collect();
    assert_eq!(indices.len(), 3);
    indices.dedup();
    assert_eq!(indices, vec![0, 1, 2]);
    let done: Vec<&serde_json::Value> = seen
        .iter()
        .filter(|event| event["type"] == "response.function_call_arguments.done")
        .collect();
    assert_eq!(done.len(), 2);
    assert_eq!(done[0]["arguments"], "{}");
    assert_eq!(done[1]["arguments"], "{");
}

#[test]
fn test_streamed_text_is_the_text_of_the_done_event() {
    let mut e = emitter_x();
    let mut tx = EventSink::new();
    for part in ["one ", "two ", "three"] {
        e.process_chunk(&chunk_with(Some(part), None, None), &mut tx).unwrap();
    }
    e.process_chunk(&chunk_with(None, None, Some("stop")), &mut tx).unwrap();
    let seen = events(&tx);
    let told: String = seen
        .iter()
        .filter(|event| event["type"] == "response.output_text.delta")
        .map(|event| event["delta"].as_str().unwrap())
        .collect();
    assert_eq!(told, "one two three");
    let done = seen.iter().find(|event| event["type"] == "response.output_text.done").unwrap();
    assert_eq!(done["text"], "one two three");
}

#[test]
fn test_closed_client_fails_a_speaking_chunk_only() {
    let mut e = emitter_x();
    let mut tx = EventSink::new();
    tx.open = false;
    assert!(e.process_chunk(&chunk_with(Some(""), None, None), &mut tx).is_ok());
    assert_eq!(
        e.process_chunk(&chunk_with(Some("x"), None, None), &mut tx),
        Err("Client disconnected".to_string())
    );
    assert!(tx.frames.is_empty());
}

#[test]
fn test_completed_event_echoes_encoded_fields() {
    let mut e = emitter_y();
    let mut req = ResponsesRequest::default();
    req.model = "m".to_string();
    req.temperature = Some(Encoded { value: f(0.5), json: json("0.5") });
    req.tool_choice = Some(Encoded {
        value: ToolChoice::Value(ToolChoiceValue::Required),
        json: Json::string("required"),
    });
    req.tools = Some(Encoded { value: vec![], json: json("[{\"type\":\"mcp\"}]") });
    req.store = Some(false);
    e.set_original_request(req);
    let c = e.emit_completed(None).to_value();
    assert_eq!(c["response"]["temperature"], 0.5);
    assert_eq!(c["response"]["tool_choice"], "required");
    assert_eq!(c["response"]["tools"][0]["type"], "mcp");
    assert!(c["response"]["top_p"].is_null());
    assert_eq!(c["response"]["store"], false);
    assert_eq!(c["response"]["id"], "resp_y");
    assert_eq!(c["response"]["status"], "completed");
}

#[test]
fn test_identifiers_of_items_are_random_hexadecimal() {
    let mut e = emitter_x();
    let (_, a) = e.allocate_output_index(OutputItemType::FunctionCall);
    let (_, b) = e.allocate_output_index(OutputItemType::FunctionCall);
    assert_ne!(a, b);
    let digits = a.strip_prefix("fc_").unwrap();
    assert!(digits.chars().all(|c| c.is_ascii_hexdigit()));
}

fn call_delta(index: u32, id: Option<&str>, name: &str, arguments: &str) -> ToolCallDelta {
    ToolCallDelta {
        index,
        id: id.map(|s| s.to_string()),
        function: Some(FunctionCallDelta {
            name: Some(name.to_string()),
            arguments: Some(arguments.to_string()),
        }),
    }
}

#[test]
fn test_ended_calls_repeat_the_deltas_of_all_chunks() {
    let mut e = emitter_x();
    let mut tx = EventSink::new();
    let first = vec![call_delta(0, Some("c0"), "get_", "{\"a\""), call_delta(2, Some("c2"), "f", "")];
    e.process_chunk(&chunk_with(None, Some(first), None), &mut tx).unwrap();
    let second = vec![call_delta(0, None, "weather", ":1}"), call_delta(2, None, "", "{}")];
    e.process_chunk(&chunk_with(Some("x"), Some(second), None), &mut tx).unwrap();
    let before = tx.frames.len();
    e.process_chunk(&chunk_with(None, None, Some("tool_calls")), &mut tx).unwrap();
    assert_eq!(tx.frames.len() - before, 6);
    let c = e.emit_completed(None).to_value();
    let output = c["response"]["output"].as_array().unwrap();
    let said: Vec<(&str, &str)> = output
        .iter()
        .map(|item| (item["name"].as_str().unwrap(), item["arguments"].as_str().unwrap()))
        .collect();
    assert_eq!(said, vec![("get_weather", "{\"a\":1}"), ("", ""), ("f", "{}")]);
    assert!(output.iter().all(|item| item["status"] == "completed"));
}

#[test]
fn test_calls_without_an_event_use_up_no_number() {
    let mut e = emitter_x();
    let mut tx = EventSink::new();
    let a = e.emit_text_delta("t", 0, "i", 0);
    let (index, _) = e.allocate_output_index(OutputItemType::Message);
    e.store_output_item_data(index, message_item("i"));
    e.complete_output_item(index);
    e.send_event(&a, &mut tx).unwrap();
    let b = e.emit_created();
    let c = e.emit_function_call_arguments_delta(0, "i", "d");
    let d = e.emit_completed(None);
    for (n, event) in [a, b, c, d].iter().enumerate() {
        assert_eq!(event.to_value()["sequence_number"], n as u64);
    }
}

#[test]
fn test_a_lost_event_uses_up_one_number() {
    let mut e = emitter_x();
    let mut tx = EventSink::new();
    tx.open = false;
    assert!(e.process_chunk(&chunk_with(Some("x"), None, None), &mut tx).is_err());
    assert_eq!(e.sequence_number, 1);
    let deltas = vec![call_delta(0, Some("c"), "f", "{}")];
    assert!(e.process_chunk(&chunk_with(None, Some(deltas), None), &mut tx).is_err());
    assert_eq!(e.sequence_number, 2);
    assert!(tx.frames.is_empty());
}
