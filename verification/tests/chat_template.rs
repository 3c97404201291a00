use std::sync::Arc;

use mesh::json::Json;
use mesh::prepare::chat_template::{
    process_chat_messages, process_content_format, process_tool_call_arguments, replace_arguments,
};
use mesh::prepare::encoded_chat::{filter_chat_request_by_tool_choice, EncodedChat};
use mesh::protocols::chat::{ChatCompletionRequest, ChatMessage, MessageContent};
use mesh::protocols::common::{Function, FunctionChoice, StringOrArray, Tool, ToolChoice};
use mesh::tokenizer::{ChatTemplateContentFormat, ChatTemplateParams, Tokenizer};
use serde_json::Value;

fn json(text: &str) -> Json {
    Json::parse(text).unwrap()
}

fn text_part(text: &str) -> String {
    format!("{{\"type\":\"text\",\"text\":\"{text}\"}}")
}

fn image_part(detail: Option<&str>) -> String {
    let detail = match detail {
        Some(d) => format!(",\"detail\":\"{d}\""),
        None => String::new(),
    };
    format!(
        "{{\"type\":\"image_url\",\"image_url\":{{\"url\":\"https://example.com/image.jpg\"{detail}}}}}"
    )
}

fn parts(role: &str, parts: &[String]) -> Json {
    json(&format!("{{\"role\":\"{role}\",\"content\":[{}]}}", parts.join(",")))
}

fn plain(role: &str, text: &str) -> Json {
    json(&format!("{{\"role\":\"{role}\",\"content\":\"{text}\"}}"))
}

fn formatted(messages: &Vec<Json>, format: ChatTemplateContentFormat) -> Vec<Value> {
    process_content_format(messages, format).iter().map(|m| m.to_value()).collect()
}

#[test]
fn test_transform_messages_string_format() {
    let messages =
        vec![parts("user", &[text_part("Hello"), image_part(None), text_part("World")])];
    let result = formatted(&messages, ChatTemplateContentFormat::String);
    assert_eq!(result.len(), 1);
    let transformed_message = &result[0];
    assert_eq!(transformed_message["content"].as_str().unwrap(), "Hello World");
    assert_eq!(transformed_message["role"].as_str().unwrap(), "user");
}

#[test]
fn test_transform_messages_openai_format() {
    let messages =
        vec![parts("user", &[text_part("Describe this image:"), image_part(Some("high"))])];
    let result = formatted(&messages, ChatTemplateContentFormat::OpenAI);
    assert_eq!(result.len(), 1);
    let content_array = result[0]["content"].as_array().unwrap();
    assert_eq!(content_array.len(), 2);
    assert_eq!(content_array[0]["type"], "text");
    assert_eq!(content_array[0]["text"], "Describe this image:");
    assert_eq!(content_array[1], json("{\"type\": \"image\"}").to_value());
}

#[test]
fn test_transform_messages_simple_string_content() {
    let messages = vec![plain("user", "Simple text message")];
    let result = formatted(&messages, ChatTemplateContentFormat::String);
    assert_eq!(result.len(), 1);
    assert_eq!(result[0]["content"].as_str().unwrap(), "Simple text message");
}

#[test]
fn test_transform_messages_multiple_messages() {
    let messages = vec![
        plain("system", "System prompt"),
        parts("user", &[text_part("User message"), image_part(None)]),
    ];
    let result = formatted(&messages, ChatTemplateContentFormat::String);
    assert_eq!(result.len(), 2);
    assert_eq!(result[0]["role"].as_str().unwrap(), "system");
    assert_eq!(result[0]["content"].as_str().unwrap(), "System prompt");
    assert_eq!(result[1]["role"].as_str().unwrap(), "user");
    assert_eq!(result[1]["content"].as_str().unwrap(), "User message");
}

#[test]
fn test_transform_messages_empty_text_parts() {
    let messages = vec![parts("user", &[image_part(None)])];
    let result = formatted(&messages, ChatTemplateContentFormat::String);
    assert_eq!(result.len(), 1);
    assert!(result[0]["content"].is_array());
}

#[test]
fn test_transform_messages_mixed_content_types() {
    let messages = vec![
        plain("user", "Plain text"),
        parts("user", &[text_part("With image"), image_part(Some("low"))]),
    ];
    let result_string = formatted(&messages, ChatTemplateContentFormat::String);
    assert_eq!(result_string.len(), 2);
    assert_eq!(result_string[0]["content"].as_str().unwrap(), "Plain text");
    assert_eq!(result_string[1]["content"].as_str().unwrap(), "With image");

    let result_openai = formatted(&messages, ChatTemplateContentFormat::OpenAI);
    assert_eq!(result_openai.len(), 2);
    assert_eq!(result_openai[0]["content"].as_str().unwrap(), "Plain text");
    let content_array = result_openai[1]["content"].as_array().unwrap();
    assert_eq!(content_array.len(), 2);
    assert_eq!(content_array[0]["type"], "text");
    assert_eq!(content_array[1], json("{\"type\": \"image\"}").to_value());
}

#[test]
fn test_arguments_of_calls_become_objects() {
    let messages = vec![
        json("{\"role\":\"assistant\",\"tool_calls\":[{\"function\":{\"name\":\"f\",\"arguments\":\"{\\\"a\\\":1}\"}},{\"function\":{\"name\":\"g\"}}]}"),
        json("{\"role\":\"user\",\"tool_calls\":[{\"function\":{\"arguments\":\"kept\"}}]}"),
    ];
    let read = process_tool_call_arguments(&messages).unwrap();
    let first = read[0].to_value();
    assert_eq!(first["tool_calls"][0]["function"]["arguments"]["a"], 1);
    assert_eq!(first["tool_calls"][1], messages[0].to_value()["tool_calls"][1]);
    assert_eq!(read[1].to_value(), messages[1].to_value());
}

#[test]
fn test_arguments_that_are_no_json_are_an_error() {
    let text = "not json";
    let messages = vec![json(
        "{\"role\":\"assistant\",\"tool_calls\":[{\"function\":{\"arguments\":\"not json\"}}]}",
    )];
    let e = process_tool_call_arguments(&messages).unwrap_err();
    let shown = Json::parse(text).unwrap_err();
    assert!(e.contains(text), "{e}");
    assert!(e.contains(&shown), "{e}");
}

#[test]
fn test_a_call_with_read_arguments() {
    let call = json("{\"id\":\"c\",\"function\":{\"name\":\"f\",\"arguments\":\"[1]\"}}");
    let replaced = replace_arguments(&call, Ok(json("[1]"))).unwrap().to_value();
    assert_eq!(replaced["function"]["arguments"][0], 1);
    assert_eq!(replaced["function"]["name"], "f");
    assert_eq!(replaced["id"], "c");
    assert!(replace_arguments(&call, Err("bad".to_string())).is_err());
}

/// Renders a prompt that tells what it was asked for.
struct Echo {
    format: Option<ChatTemplateContentFormat>,
}

impl Tokenizer for Echo {
    fn encode(&self, _said: &str, _add_special_tokens: bool) -> Result<Vec<u32>, String> {
        Err("no encoding".to_string())
    }

    fn decode(&self, _ids: &Vec<u32>, _skip_special_tokens: bool) -> Result<String, String> {
        Err("no decoding".to_string())
    }

    fn chat_template_content_format(&self) -> Option<ChatTemplateContentFormat> {
        self.format
    }

    fn apply_chat_template(
        &self,
        messages: &Vec<Json>,
        params: &ChatTemplateParams,
    ) -> Result<String, String> {
        let mut shown: String = messages.iter().map(|m| m.to_text()).collect();
        if let Some(kwargs) = &params.template_kwargs {
            let mut all: Vec<String> =
                kwargs.iter().map(|(k, v)| format!("{k}={}", v.to_text())).collect();
            all.sort();
            shown.push_str(&all.join(","));
        }
        shown.push_str(if params.add_generation_prompt { "|gen" } else { "|cont" });
        if let Some(tools) = &params.tools {
            let forms: Vec<String> = tools.iter().map(|t| t.to_text()).collect();
            shown.push_str(&format!("|{}", forms.join(" ")));
        }
        Ok(shown)
    }
}

fn chat() -> ChatCompletionRequest {
    ChatCompletionRequest {
        messages: vec![ChatMessage::User {
            content: MessageContent::Text("hi".to_string()),
            name: None,
        }],
        model: "m".to_string(),
        stop: Some(StringOrArray::String("END".to_string())),
        ..ChatCompletionRequest::default()
    }
}

fn tool(name: &str) -> Tool {
    Tool {
        tool_type: "function".to_string(),
        function: Function {
            name: name.to_string(),
            description: None,
            parameters: json("{}"),
            strict: None,
        },
    }
}

#[test]
fn test_template_gets_the_tools_that_the_choice_leaves() {
    let tokenizer = Echo { format: Some(ChatTemplateContentFormat::String) };
    let mut req = chat();
    req.tools = Some(vec![tool("a"), tool("b"), tool("a")]);
    req.tool_choice = Some(ToolChoice::Function {
        tool_type: "function".to_string(),
        function: FunctionChoice { name: "a".to_string() },
    });
    let forms = Some(vec![json("1"), json("2"), json("3")]);
    let chat = EncodedChat::new(Arc::new(req), vec![plain("user", "q")], forms).unwrap();
    let p = process_chat_messages(&filter_chat_request_by_tool_choice(chat), &tokenizer).unwrap();
    assert_eq!(p.text, "{\"content\":\"q\",\"role\":\"user\"}|gen|1 3");
}

#[test]
fn test_prompt_is_what_the_template_renders() {
    let tokenizer = Echo { format: Some(ChatTemplateContentFormat::String) };
    let mut req = chat();
    req.reasoning_effort = Some("low".to_string());
    req.chat_template_kwargs = Some(vec![("k".to_string(), json("1"))]);
    let messages = vec![parts("user", &[text_part("a"), text_part("b")])];
    req.tools = Some(vec![tool("a"), tool("b")]);
    let tools = Some(vec![json("1"), json("2")]);
    let chat = EncodedChat::new(Arc::new(req), messages, tools).unwrap();
    let p = process_chat_messages(&chat, &tokenizer).unwrap();
    assert_eq!(
        p.text,
        "{\"content\":\"a b\",\"role\":\"user\"}k=1,reasoning_effort=\"low\"|gen|1 2"
    );
    assert!(matches!(p.stop_sequences, Some(StringOrArray::String(s)) if s == "END"));
}

#[test]
fn test_final_assistant_message_is_continued() {
    let tokenizer = Echo { format: Some(ChatTemplateContentFormat::String) };
    let mut req = chat();
    req.continue_final_message = true;
    let messages = vec![plain("user", "q"), plain("assistant", "so")];
    req.messages.push(ChatMessage::Assistant {
        content: Some(MessageContent::Text("so".to_string())),
        name: None,
        tool_calls: None,
        reasoning_content: None,
    });
    let chat = EncodedChat::new(Arc::new(req), messages, None).unwrap();
    let p = process_chat_messages(&chat, &tokenizer).unwrap();
    assert_eq!(p.text, "{\"content\":\"q\",\"role\":\"user\"}|genso");
}

#[test]
fn test_tokenizer_without_template_is_an_error() {
    let tokenizer = Echo { format: None };
    let messages = vec![plain("user", "q")];
    let chat = EncodedChat::new(Arc::new(chat()), messages, None).unwrap();
    let e = process_chat_messages(&chat, &tokenizer).unwrap_err();
    assert_eq!(e, "gRPC router requires HuggingFace tokenizer with chat template support");
}
