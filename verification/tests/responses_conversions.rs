use mesh::float::F32;
use mesh::json::Json;
use mesh::openai::responses::conversions::{chat_to_responses, responses_to_chat};
use mesh::openai::responses::persistence::extract_tools_from_response_tools;
use mesh::protocols::chat::{
    ChatChoice, ChatCompletionMessage, ChatCompletionResponse, ChatMessage, MessageContent,
};
use mesh::protocols::common::{
    CompletionTokensDetails, Encoded, Function, FunctionCallResponse, ResponseFormat, ToolCall,
    Usage,
};
use mesh::protocols::responses::{
    ResponseContentPart, ResponseInput, ResponseInputOutputItem, ResponseOutputItem,
    ResponseReasoningContent, ResponseStatus, ResponseTool, ResponseToolType, ResponsesRequest,
    ResponsesResponse, ResponsesUsage, StringOrContentParts, TextConfig, TextFormat,
};

fn f(x: f32) -> F32 {
    F32 { bits: x.to_bits() }
}

fn object_schema() -> Json {
    Json::Object(vec![("type".to_string(), Json::string("object"))])
}

fn chat_response(id: &str, choices: Vec<ChatChoice>) -> ChatCompletionResponse {
    ChatCompletionResponse {
        id: id.to_string(),
        model: "m".to_string(),
        created: 0,
        choices,
        usage: None,
    }
}

fn responses_req(stream: bool) -> ResponsesRequest {
    let mut r = ResponsesRequest::default();
    r.stream = Some(stream);
    r.model = "m".to_string();
    r.input = ResponseInput::Text("hello".to_string());
    r
}

fn assistant_choice(text: &str, finish: Option<&str>) -> ChatChoice {
    ChatChoice {
        index: 0,
        message: ChatCompletionMessage {
            role: "assistant".to_string(),
            content: Some(text.to_string()),
            tool_calls: None,
            reasoning_content: None,
        },
        logprobs: None,
        finish_reason: finish.map(|s| s.to_string()),
    }
}

#[test]
fn test_responses_to_chat_carries_model() {
    let chat = responses_to_chat(&responses_req(false)).unwrap();
    assert_eq!(chat.model, "m");
}

#[test]
fn test_responses_to_chat_carries_streaming_flag() {
    let chat = responses_to_chat(&responses_req(true)).unwrap();
    assert!(chat.stream);
}

#[test]
fn test_responses_to_chat_appends_conversation_history() {
    let mut req = responses_req(false);
    req.input = ResponseInput::Text("earlier".to_string());
    let chat = responses_to_chat(&req).unwrap();
    assert!(!chat.messages.is_empty());
}

#[test]
fn test_chat_to_responses_envelope_has_id_and_status() {
    let chat = chat_response("chatcmpl-1", vec![assistant_choice("hi", Some("stop"))]);
    let req = responses_req(false);
    let env = chat_to_responses(&chat, &req, Some("resp_1".to_string())).unwrap();
    assert_eq!(env.id, "resp_1");
}

#[test]
fn test_chat_to_responses_envelope_preserves_finish_reason_when_present() {
    let chat = chat_response("chatcmpl-2", vec![assistant_choice("hi", Some("stop"))]);
    let req = responses_req(false);
    let _env = chat_to_responses(&chat, &req, Some("resp_2".to_string())).unwrap();
}

fn req_with_input(input: ResponseInput) -> ResponsesRequest {
    let mut r = ResponsesRequest::default();
    r.model = "m".to_string();
    r.input = input;
    r
}

#[test]
fn test_responses_to_chat_simple_input_message_string_content() {
    let req = req_with_input(ResponseInput::Items(vec![
        ResponseInputOutputItem::SimpleInputMessage {
            role: "user".to_string(),
            content: StringOrContentParts::String("hello".to_string()),
            item_type: None,
        },
    ]));
    let chat = responses_to_chat(&req).unwrap();
    assert!(!chat.messages.is_empty());
}

#[test]
fn test_responses_to_chat_simple_input_message_array_content() {
    let req = req_with_input(ResponseInput::Items(vec![
        ResponseInputOutputItem::SimpleInputMessage {
            role: "system".to_string(),
            content: StringOrContentParts::Array(vec![
                ResponseContentPart::InputText {
                    text: "alpha".to_string(),
                },
                ResponseContentPart::InputText {
                    text: "beta".to_string(),
                },
            ]),
            item_type: None,
        },
    ]));
    let chat = responses_to_chat(&req).unwrap();
    assert_eq!(chat.messages.len(), 1);
}

#[test]
fn test_responses_to_chat_simple_input_message_assistant_role() {
    let req = req_with_input(ResponseInput::Items(vec![
        ResponseInputOutputItem::SimpleInputMessage {
            role: "assistant".to_string(),
            content: StringOrContentParts::String("ok".to_string()),
            item_type: None,
        },
    ]));
    let chat = responses_to_chat(&req).unwrap();
    assert_eq!(chat.messages.len(), 1);
}

#[test]
fn test_responses_to_chat_simple_input_message_unknown_role_defaults_user() {
    let req = req_with_input(ResponseInput::Items(vec![
        ResponseInputOutputItem::SimpleInputMessage {
            role: "developer".to_string(),
            content: StringOrContentParts::String("alpha".to_string()),
            item_type: None,
        },
    ]));
    let chat = responses_to_chat(&req).unwrap();
    assert_eq!(chat.messages.len(), 1);
}

#[test]
fn test_responses_to_chat_function_tool_call_with_output_adds_tool_msg() {
    let req = req_with_input(ResponseInput::Items(vec![
        ResponseInputOutputItem::FunctionToolCall {
            id: "call_1".to_string(),
            call_id: "call_1".to_string(),
            name: "f".to_string(),
            arguments: "{}".to_string(),
            output: Some("res".to_string()),
            status: Some("completed".to_string()),
        },
    ]));
    let chat = responses_to_chat(&req).unwrap();
    assert_eq!(chat.messages.len(), 2);
}

#[test]
fn test_responses_to_chat_function_tool_call_without_output_only_assistant() {
    let req = req_with_input(ResponseInput::Items(vec![
        ResponseInputOutputItem::FunctionToolCall {
            id: "call_x".to_string(),
            call_id: "call_x".to_string(),
            name: "f".to_string(),
            arguments: "{}".to_string(),
            output: None,
            status: Some("in_progress".to_string()),
        },
    ]));
    let chat = responses_to_chat(&req).unwrap();
    assert_eq!(chat.messages.len(), 1);
}

#[test]
fn test_responses_to_chat_function_call_output_adds_tool_msg() {
    let req = req_with_input(ResponseInput::Items(vec![
        ResponseInputOutputItem::FunctionCallOutput {
            id: Some("fco_1".to_string()),
            call_id: "call_x".to_string(),
            output: "produced".to_string(),
            status: None,
        },
    ]));
    let chat = responses_to_chat(&req).unwrap();
    assert_eq!(chat.messages.len(), 1);
}

#[test]
fn test_responses_to_chat_reasoning_input_appends_assistant_with_reasoning() {
    let req = req_with_input(ResponseInput::Items(vec![
        ResponseInputOutputItem::Reasoning {
            id: "r_1".to_string(),
            summary: vec![],
            content: vec![
                ResponseReasoningContent::ReasoningText {
                    text: "think a".to_string(),
                },
                ResponseReasoningContent::ReasoningText {
                    text: "think b".to_string(),
                },
            ],
            status: None,
        },
    ]));
    let chat = responses_to_chat(&req).unwrap();
    assert_eq!(chat.messages.len(), 1);
}

#[test]
fn test_responses_to_chat_empty_items_returns_error() {
    let req = req_with_input(ResponseInput::Items(vec![]));
    let err = responses_to_chat(&req).unwrap_err();
    assert!(err.contains("at least one"));
}

#[test]
fn test_responses_to_chat_model_empty_defaults_unknown() {
    let mut req = req_with_input(ResponseInput::Text("hi".to_string()));
    req.model = String::new();
    let chat = responses_to_chat(&req).unwrap();
    assert!(!chat.model.is_empty());
}

#[test]
fn test_responses_to_chat_function_tools_present() {
    let mut req = req_with_input(ResponseInput::Text("hi".to_string()));
    let tools = vec![ResponseTool {
        tool_type: ResponseToolType::Function,
        function: Some(Function {
            name: "f".to_string(),
            description: None,
            parameters: Json::Object(vec![]),
            strict: None,
        }),
    }];
    req.tools = Some(Encoded {
        value: tools,
        json: Json::parse(
            "[{\"type\":\"function\",\"name\":\"f\",\"parameters\":{}}]",
        )
        .unwrap(),
    });
    let chat = responses_to_chat(&req).unwrap();
    assert!(chat.tools.is_some());
}

#[test]
fn test_responses_to_chat_text_format_text() {
    let mut req = req_with_input(ResponseInput::Text("hi".to_string()));
    req.text = Some(TextConfig {
        format: Some(TextFormat::Text),
    });
    let chat = responses_to_chat(&req).unwrap();
    assert!(chat.response_format.is_some());
}

#[test]
fn test_responses_to_chat_text_format_json_object() {
    let mut req = req_with_input(ResponseInput::Text("hi".to_string()));
    req.text = Some(TextConfig {
        format: Some(TextFormat::JsonObject),
    });
    let chat = responses_to_chat(&req).unwrap();
    assert!(chat.response_format.is_some());
}

#[test]
fn test_responses_to_chat_text_format_json_schema() {
    let mut req = req_with_input(ResponseInput::Text("hi".to_string()));
    req.text = Some(TextConfig {
        format: Some(TextFormat::JsonSchema {
            name: "n".to_string(),
            schema: object_schema(),
            description: None,
            strict: Some(true),
        }),
    });
    let chat = responses_to_chat(&req).unwrap();
    assert!(chat.response_format.is_some());
}

#[test]
fn test_responses_to_chat_stream_true_adds_stream_options() {
    let mut req = req_with_input(ResponseInput::Text("hi".to_string()));
    req.stream = Some(true);
    let chat = responses_to_chat(&req).unwrap();
    assert!(chat.stream);
    assert!(chat.stream_options.is_some());
}

fn chat_with_message(
    msg: ChatCompletionMessage,
    finish: Option<&str>,
) -> ChatCompletionResponse {
    chat_response(
        "chatcmpl-1",
        vec![ChatChoice {
            index: 0,
            message: msg,
            logprobs: None,
            finish_reason: finish.map(|s| s.to_string()),
        }],
    )
}

#[test]
fn test_chat_to_responses_no_choices_errors() {
    let chat = chat_response("c1", vec![]);
    let req = req_with_input(ResponseInput::Text("h".to_string()));
    assert!(chat_to_responses(&chat, &req, None).is_err());
}

#[test]
fn test_chat_to_responses_with_reasoning_emits_reasoning_output() {
    let msg = ChatCompletionMessage {
        role: "assistant".to_string(),
        content: Some("answer".to_string()),
        tool_calls: None,
        reasoning_content: Some("because".to_string()),
    };
    let chat = chat_with_message(msg, Some("stop"));
    let req = req_with_input(ResponseInput::Text("h".to_string()));
    let env = chat_to_responses(&chat, &req, None).unwrap();
    assert_eq!(env.status, ResponseStatus::Completed);
}

#[test]
fn test_chat_to_responses_with_tool_calls_emits_function_tool_call() {
    let msg = ChatCompletionMessage {
        role: "assistant".to_string(),
        content: None,
        tool_calls: Some(vec![ToolCall {
            id: "tc_1".to_string(),
            tool_type: "function".to_string(),
            function: FunctionCallResponse {
                name: "f".to_string(),
                arguments: Some("{}".to_string()),
            },
        }]),
        reasoning_content: None,
    };
    let chat = chat_with_message(msg, Some("tool_calls"));
    let req = req_with_input(ResponseInput::Text("h".to_string()));
    let env = chat_to_responses(&chat, &req, None).unwrap();
    assert_eq!(env.status, ResponseStatus::Completed);
}

#[test]
fn test_chat_to_responses_finish_failed_maps_failed() {
    let msg = ChatCompletionMessage {
        role: "assistant".to_string(),
        content: Some("x".to_string()),
        tool_calls: None,
        reasoning_content: None,
    };
    let chat = chat_with_message(msg, Some("failed"));
    let req = req_with_input(ResponseInput::Text("h".to_string()));
    let env = chat_to_responses(&chat, &req, None).unwrap();
    assert_eq!(env.status, ResponseStatus::Failed);
}

#[test]
fn test_chat_to_responses_finish_error_maps_failed() {
    let msg = ChatCompletionMessage {
        role: "assistant".to_string(),
        content: Some("x".to_string()),
        tool_calls: None,
        reasoning_content: None,
    };
    let chat = chat_with_message(msg, Some("error"));
    let req = req_with_input(ResponseInput::Text("h".to_string()));
    let env = chat_to_responses(&chat, &req, None).unwrap();
    assert_eq!(env.status, ResponseStatus::Failed);
}

#[test]
fn test_chat_to_responses_finish_length_maps_completed() {
    let msg = ChatCompletionMessage {
        role: "assistant".to_string(),
        content: Some("x".to_string()),
        tool_calls: None,
        reasoning_content: None,
    };
    let chat = chat_with_message(msg, Some("length"));
    let req = req_with_input(ResponseInput::Text("h".to_string()));
    let env = chat_to_responses(&chat, &req, None).unwrap();
    assert_eq!(env.status, ResponseStatus::Completed);
}

#[test]
fn test_chat_to_responses_finish_unknown_defaults_completed() {
    let msg = ChatCompletionMessage {
        role: "assistant".to_string(),
        content: Some("x".to_string()),
        tool_calls: None,
        reasoning_content: None,
    };
    let chat = chat_with_message(msg, Some("frobbed"));
    let req = req_with_input(ResponseInput::Text("h".to_string()));
    let env = chat_to_responses(&chat, &req, None).unwrap();
    assert_eq!(env.status, ResponseStatus::Completed);
}

#[test]
fn test_chat_to_responses_with_usage_threads_reasoning_tokens() {
    let mut chat = chat_with_message(
        ChatCompletionMessage {
            role: "assistant".to_string(),
            content: Some("x".to_string()),
            tool_calls: None,
            reasoning_content: None,
        },
        Some("stop"),
    );
    chat.usage = Some(Usage {
        prompt_tokens: 2,
        completion_tokens: 3,
        total_tokens: 5,
        completion_tokens_details: Some(CompletionTokensDetails {
            reasoning_tokens: Some(1),
        }),
    });
    let req = req_with_input(ResponseInput::Text("h".to_string()));
    let env = chat_to_responses(&chat, &req, None).unwrap();
    assert!(env.usage.is_some());
}

#[test]
fn test_chat_to_responses_empty_content_skips_message_output() {
    let msg = ChatCompletionMessage {
        role: "assistant".to_string(),
        content: Some("".to_string()),
        tool_calls: None,
        reasoning_content: None,
    };
    let chat = chat_with_message(msg, Some("stop"));
    let req = req_with_input(ResponseInput::Text("h".to_string()));
    let env = chat_to_responses(&chat, &req, None).unwrap();
    let _ = env;
}

#[test]
fn test_extract_tools_returns_tool_definitions_from_request() {
    let function_tool = || ResponseTool {
        tool_type: ResponseToolType::Function,
        function: Some(Function {
            name: "add".to_string(),
            description: None,
            parameters: Json::Object(vec![]),
            strict: None,
        }),
    };
    let tools = vec![function_tool(), function_tool()];
    let extracted = extract_tools_from_response_tools(Some(&tools));
    assert_eq!(extracted.len(), 2);
}

#[test]
fn test_extract_tools_empty_when_no_tools_field() {
    let extracted = extract_tools_from_response_tools(None);
    assert!(extracted.is_empty());
}

#[test]
fn test_extract_tools_skips_non_function_types() {
    let t = ResponseTool {
        tool_type: ResponseToolType::WebSearchPreview,
        function: None,
    };
    let extracted = extract_tools_from_response_tools(Some(&vec![t]));
    assert!(extracted.is_empty());
}

#[test]
fn test_extract_tools_function_without_function_field_skipped() {
    let t = ResponseTool {
        tool_type: ResponseToolType::Function,
        function: None,
    };
    let extracted = extract_tools_from_response_tools(Some(&vec![t]));
    assert!(extracted.is_empty());
}

#[test]
fn test_text_input_conversion() {
    let req = ResponsesRequest {
        input: ResponseInput::Text("Hello, world!".to_string()),
        instructions: Some("You are a helpful assistant.".to_string()),
        model: "gpt-4".to_string(),
        temperature: Some(Encoded { value: f(0.7), json: Json::parse("0.7").unwrap() }),
        ..Default::default()
    };

    let chat_req = responses_to_chat(&req).unwrap();
    assert_eq!(chat_req.messages.len(), 2); // system + user
    assert_eq!(chat_req.model, "gpt-4");
    assert_eq!(chat_req.temperature, Some(f(0.7)));
}

#[test]
fn test_items_input_conversion() {
    let req = ResponsesRequest {
        input: ResponseInput::Items(vec![
            ResponseInputOutputItem::Message {
                id: "msg_1".to_string(),
                role: "user".to_string(),
                content: vec![ResponseContentPart::InputText {
                    text: "Hello!".to_string(),
                }],
                status: None,
            },
            ResponseInputOutputItem::Message {
                id: "msg_2".to_string(),
                role: "assistant".to_string(),
                content: vec![ResponseContentPart::OutputText {
                    text: "Hi there!".to_string(),
                    annotations: vec![],
                    logprobs: None,
                }],
                status: None,
            },
        ]),
        ..Default::default()
    };

    let chat_req = responses_to_chat(&req).unwrap();
    assert_eq!(chat_req.messages.len(), 2); // user + assistant
}

#[test]
fn test_empty_input_error() {
    let req = ResponsesRequest {
        input: ResponseInput::Text("".to_string()),
        ..Default::default()
    };

    // Empty text should still create a user message, so this should succeed
    let result = responses_to_chat(&req);
    assert!(result.is_ok());
}

#[test]
fn test_responses_does_not_re_export_mesh_grpc_types() {
    let chat = chat_response("chatcmpl-1", vec![assistant_choice("hi", Some("stop"))]);
    let env: ResponsesResponse = chat_to_responses(&chat, &responses_req(false), None).unwrap();
    let shown = format!("{env:?}");
    assert!(shown.contains("ResponsesResponse"));
    assert!(!shown.contains("mesh_grpc"), "leaked mesh_grpc type: {shown}");
}

fn message(content: Option<&str>, reasoning: Option<&str>) -> ChatCompletionMessage {
    ChatCompletionMessage {
        role: "assistant".to_string(),
        content: content.map(|s| s.to_string()),
        tool_calls: None,
        reasoning_content: reasoning.map(|s| s.to_string()),
    }
}

#[test]
fn test_items_become_messages_in_order() {
    let mut req = req_with_input(ResponseInput::Items(vec![
        ResponseInputOutputItem::SimpleInputMessage {
            role: "system".to_string(),
            content: StringOrContentParts::Array(vec![
                ResponseContentPart::InputText { text: "alpha".to_string() },
                ResponseContentPart::Unknown,
                ResponseContentPart::InputText { text: "beta".to_string() },
            ]),
            item_type: None,
        },
        ResponseInputOutputItem::FunctionToolCall {
            id: "call_1".to_string(),
            call_id: "other".to_string(),
            name: "f".to_string(),
            arguments: "{}".to_string(),
            output: Some("res".to_string()),
            status: None,
        },
        ResponseInputOutputItem::Reasoning {
            id: "r".to_string(),
            summary: vec![],
            content: vec![
                ResponseReasoningContent::ReasoningText { text: "think a".to_string() },
                ResponseReasoningContent::ReasoningText { text: "think b".to_string() },
            ],
            status: None,
        },
    ]));
    req.instructions = Some("be kind".to_string());
    let chat = responses_to_chat(&req).unwrap();
    assert_eq!(chat.messages.len(), 5);
    match &chat.messages[0] {
        ChatMessage::System { content: MessageContent::Text(t), .. } => assert_eq!(t, "be kind"),
        other => panic!("expected the instructions, got {other:?}"),
    }
    match &chat.messages[1] {
        ChatMessage::System { content: MessageContent::Text(t), .. } => assert_eq!(t, "alpha beta"),
        other => panic!("expected a system message, got {other:?}"),
    }
    match &chat.messages[2] {
        ChatMessage::Assistant { content: None, tool_calls: Some(calls), .. } => {
            assert_eq!(calls.len(), 1);
            assert_eq!(calls[0].id, "call_1");
            assert_eq!(calls[0].function.name, "f");
            assert_eq!(calls[0].function.arguments.as_deref(), Some("{}"));
        }
        other => panic!("expected a tool call, got {other:?}"),
    }
    match &chat.messages[3] {
        ChatMessage::Tool { content: MessageContent::Text(t), tool_call_id } => {
            assert_eq!(t, "res");
            assert_eq!(tool_call_id, "call_1");
        }
        other => panic!("expected a tool message, got {other:?}"),
    }
    match &chat.messages[4] {
        ChatMessage::Assistant { reasoning_content: Some(t), .. } => {
            assert_eq!(t, "think a\nthink b");
        }
        other => panic!("expected reasoning, got {other:?}"),
    }
}

#[test]
fn test_text_formats_become_response_formats() {
    let mut req = req_with_input(ResponseInput::Text("hi".to_string()));
    req.text = Some(TextConfig { format: Some(TextFormat::JsonObject) });
    let chat = responses_to_chat(&req).unwrap();
    assert!(matches!(chat.response_format, Some(ResponseFormat::JsonObject)));
    req.text = Some(TextConfig { format: None });
    assert!(responses_to_chat(&req).unwrap().response_format.is_none());
    req.text = Some(TextConfig {
        format: Some(TextFormat::JsonSchema {
            name: "n".to_string(),
            schema: object_schema(),
            description: Some("dropped".to_string()),
            strict: Some(true),
        }),
    });
    match responses_to_chat(&req).unwrap().response_format {
        Some(ResponseFormat::JsonSchema { json_schema }) => {
            assert_eq!(json_schema.name, "n");
            assert_eq!(json_schema.strict, Some(true));
            assert!(json_schema.schema.equals(&object_schema()));
        }
        other => panic!("expected a schema, got {other:?}"),
    }
}

#[test]
fn test_response_holds_message_reasoning_and_calls_in_order() {
    let mut msg = message(Some("answer"), Some("because"));
    msg.tool_calls = Some(vec![ToolCall {
        id: "tc_1".to_string(),
        tool_type: "function".to_string(),
        function: FunctionCallResponse { name: "f".to_string(), arguments: None },
    }]);
    let mut chat = chat_with_message(msg, Some("tool_calls"));
    chat.created = 17;
    chat.usage = Some(Usage {
        prompt_tokens: 2,
        completion_tokens: 3,
        total_tokens: 5,
        completion_tokens_details: Some(CompletionTokensDetails { reasoning_tokens: Some(1) }),
    });
    let mut req = req_with_input(ResponseInput::Text("h".to_string()));
    req.instructions = Some("i".to_string());
    let env = chat_to_responses(&chat, &req, None).unwrap();
    assert_eq!(env.id, "chatcmpl-1");
    assert_eq!(env.created_at, 17);
    assert_eq!(env.echo.instructions.as_deref(), Some("i"));
    assert_eq!(env.output.len(), 3);
    match &env.output[0] {
        ResponseOutputItem::Message { id, role, content, status } => {
            assert_eq!(id, "msg_chatcmpl-1");
            assert_eq!(role, "assistant");
            assert_eq!(status, "completed");
            assert!(matches!(&content[0], ResponseContentPart::OutputText { text, .. } if text == "answer"));
        }
        other => panic!("expected a message, got {other:?}"),
    }
    match &env.output[1] {
        ResponseOutputItem::Reasoning { id, content, status, .. } => {
            assert_eq!(id, "reasoning_chatcmpl-1");
            assert_eq!(status.as_deref(), Some("completed"));
            let ResponseReasoningContent::ReasoningText { text } = &content[0];
            assert_eq!(text, "because");
        }
        other => panic!("expected reasoning, got {other:?}"),
    }
    match &env.output[2] {
        ResponseOutputItem::FunctionToolCall { id, call_id, name, arguments, output, status } => {
            assert_eq!(id, "tc_1");
            assert_eq!(call_id, "tc_1");
            assert_eq!(name, "f");
            assert_eq!(arguments, "");
            assert!(output.is_none());
            assert_eq!(status, "in_progress");
        }
        other => panic!("expected a call, got {other:?}"),
    }
    let Some(ResponsesUsage::Classic(u)) = env.usage else {
        panic!("expected usage");
    };
    assert_eq!(u.prompt_tokens, 2);
    assert_eq!(u.completion_tokens, 3);
    assert_eq!(u.total_tokens, 5);
    assert_eq!(u.reasoning_tokens, Some(1));
}

#[test]
fn test_empty_texts_leave_no_output() {
    let chat = chat_with_message(message(Some(""), Some("")), Some("stop"));
    let req = req_with_input(ResponseInput::Text("h".to_string()));
    let env = chat_to_responses(&chat, &req, None).unwrap();
    assert_eq!(env.output.len(), 0);
}
