use std::sync::Arc;

use mesh::float::F32;
use mesh::grpc::pipeline::{
    make_load_guards, metric_model, plan_for, Backend, Pipeline, Rendering,
};
use mesh::grpc::router::GrpcRouter;
use mesh::comm::placement_response::{
    placement_err_to_response, PlacementError, PlacementPlan, Protocol, WorkerInfo,
};
use mesh::json::Json;
use mesh::prepare::encoded_chat::{filter_chat_request_by_tool_choice, EncodedChat};
use mesh::prepare::generation_payload::GenerationPayload;
use mesh::prepare::request::{
    lookup_tokenizer, prepare_chat, prepare_generate, prepare_generate_with_id, resolve_encoded,
};
use mesh::prepare::response_context::{ProtocolRequest, ResponseContext};
use mesh::prepare::stop_decoder_builder::create_stop_decoder;
use mesh::prepare::tool_constraints::{
    build_required_array_schema, calls_from_parsed, filter_tools_by_tool_choice,
    generate_tool_call_id, generate_tool_constraints, get_history_tool_calls_count,
    parse_json_schema_response,
};
use mesh::protocols::chat::{ChatCompletionRequest, ChatMessage, MessageContent};
use mesh::protocols::common::{
    Encoded, Function, FunctionCallResponse, FunctionChoice, StringOrArray, Tool, ToolCall, ToolChoice,
    ToolChoiceValue, ToolReference,
};
use mesh::protocols::generate::{GenerateRequest, GenerateSamplingParams, InputIds};
use mesh::token_handle::engine_error::{EngineError, TransportStatus};
use mesh::token_handle::test_support::synthetic_single_stream;
use mesh::tokenizer::{
    ChatTemplateContentFormat, ChatTemplateParams, Tokenizer, TokenizerRegistry,
};

fn f(x: f32) -> F32 {
    F32 { bits: x.to_bits() }
}

fn json(text: &str) -> Json {
    Json::parse(text).unwrap()
}

/// Encodes each character as its code point.
struct CharTokenizer;

impl Tokenizer for CharTokenizer {
    fn encode(&self, said: &str, _add_special_tokens: bool) -> Result<Vec<u32>, String> {
        if said.contains('!') {
            return Err("no exclamations".to_string());
        }
        Ok(said.chars().map(|c| c as u32).collect())
    }

    fn decode(&self, ids: &Vec<u32>, _skip_special_tokens: bool) -> Result<String, String> {
        ids.iter().map(|id| char::from_u32(*id).ok_or_else(|| "no character".to_string())).collect()
    }

    fn chat_template_content_format(&self) -> Option<ChatTemplateContentFormat> {
        Some(ChatTemplateContentFormat::String)
    }

    fn apply_chat_template(
        &self,
        messages: &Vec<Json>,
        _params: &ChatTemplateParams,
    ) -> Result<String, String> {
        let texts: Vec<String> = messages
            .iter()
            .filter_map(|m| m.get_str("content").cloned())
            .collect();
        if texts.is_empty() {
            return Err("nothing said".to_string());
        }
        Ok(texts.join("/"))
    }
}

fn registry() -> TokenizerRegistry<CharTokenizer> {
    let mut registry = TokenizerRegistry::new();
    registry.register("m".to_string(), CharTokenizer);
    registry
}

fn tool(name: &str, parameters: &str) -> Tool {
    Tool {
        tool_type: "function".to_string(),
        function: Function {
            name: name.to_string(),
            description: None,
            parameters: json(parameters),
            strict: None,
        },
    }
}

fn function_choice(name: &str) -> Option<ToolChoice> {
    Some(ToolChoice::Function {
        tool_type: "function".to_string(),
        function: FunctionChoice { name: name.to_string() },
    })
}

fn allow(mode: &str, names: &[&str]) -> Option<ToolChoice> {
    let mut tools: Vec<ToolReference> = names
        .iter()
        .map(|n| ToolReference::Function { name: n.to_string() })
        .collect();
    tools.push(ToolReference::Other { tool_type: "mcp".to_string() });
    Some(ToolChoice::AllowedTools {
        tool_type: "allowed_tools".to_string(),
        mode: mode.to_string(),
        tools,
    })
}

fn required() -> Option<ToolChoice> {
    Some(ToolChoice::Value(ToolChoiceValue::Required))
}

fn chat() -> ChatCompletionRequest {
    ChatCompletionRequest {
        messages: vec![ChatMessage::User {
            content: MessageContent::Text("hi".to_string()),
            name: None,
        }],
        model: "m".to_string(),
        ..ChatCompletionRequest::default()
    }
}

fn chat_messages() -> Vec<Json> {
    vec![json("{\"role\":\"user\",\"content\":\"hi\"}")]
}

fn encoded(req: ChatCompletionRequest) -> EncodedChat {
    let tools = req
        .tools
        .as_ref()
        .map(|list| list.iter().map(|t| Json::string(&t.function.name)).collect());
    EncodedChat::new(Arc::new(req), chat_messages(), tools).unwrap()
}

#[test]
fn test_required_schema_lists_every_tool() {
    let schema = build_required_array_schema(&vec![
        tool("a", "{\"type\":\"object\"}"),
        tool("b", "{}"),
    ])
    .unwrap();
    assert_eq!(
        schema,
        "{\"items\":{\"anyOf\":[\
         {\"properties\":{\"name\":{\"enum\":[\"a\"],\"type\":\"string\"},\"parameters\":{\"type\":\"object\"}},\"required\":[\"name\",\"parameters\"]},\
         {\"properties\":{\"name\":{\"enum\":[\"b\"],\"type\":\"string\"},\"parameters\":{}},\"required\":[\"name\",\"parameters\"]}\
         ],\"type\":\"object\"},\"minItems\":1,\"type\":\"array\"}"
    );
}

#[test]
fn test_definitions_are_consolidated_unless_they_conflict() {
    let a = "{\"$defs\":{\"X\":{\"type\":\"string\"}}}";
    let schema = build_required_array_schema(&vec![tool("a", a), tool("b", a)]).unwrap();
    let value = json(&schema).to_value();
    assert_eq!(value["$defs"]["X"]["type"], "string");
    let e = build_required_array_schema(&vec![
        tool("a", a),
        tool("b", "{\"$defs\":{\"X\":{\"type\":\"number\"}}}"),
    ])
    .unwrap_err();
    assert_eq!(
        e,
        "Tool definition 'X' has multiple conflicting schemas, which is not supported"
    );
}

#[test]
fn test_constraints_by_tool_choice() {
    let tools = vec![tool("a", "{\"type\":\"object\"}")];
    let none: Vec<Tool> = Vec::new();
    assert_eq!(generate_tool_constraints(&tools, &None, "m"), Ok(None));
    assert_eq!(
        generate_tool_constraints(&tools, &function_choice("a"), "m"),
        Ok(Some(("json_schema".to_string(), "{\"type\":\"object\"}".to_string())))
    );
    assert_eq!(generate_tool_constraints(&none, &function_choice("a"), "m"), Ok(None));
    assert!(generate_tool_constraints(&none, &required(), "m").unwrap().is_some());
    assert_eq!(generate_tool_constraints(&none, &allow("required", &[]), "m"), Ok(None));
    assert_eq!(generate_tool_constraints(&tools, &allow("auto", &["a"]), "m"), Ok(None));
    let schema = build_required_array_schema(&tools).unwrap();
    assert_eq!(
        generate_tool_constraints(&tools, &allow("required", &["a"]), "m"),
        Ok(Some(("json_schema".to_string(), schema)))
    );
    let auto = Some(ToolChoice::Value(ToolChoiceValue::Auto));
    assert_eq!(generate_tool_constraints(&tools, &auto, "m"), Ok(None));
}

#[test]
fn test_tool_choice_narrows_tools() {
    let tools = || vec![tool("a", "{}"), tool("b", "{}"), tool("a", "{}"), tool("c", "{}")];
    let pairs: Vec<Encoded<Tool>> = tools()
        .into_iter()
        .zip(["0", "1", "2", "3"])
        .map(|(value, form)| Encoded { value, json: json(form) })
        .collect();
    let names = |list: Option<Vec<Encoded<Tool>>>| -> Option<Vec<String>> {
        list.map(|l| {
            l.into_iter().map(|t| t.value.function.name + &t.json.to_text()).collect()
        })
    };
    assert_eq!(
        names(filter_tools_by_tool_choice(&pairs, &function_choice("a"))),
        Some(vec!["a0".to_string(), "a2".to_string()])
    );
    assert_eq!(
        names(filter_tools_by_tool_choice(&pairs, &allow("auto", &["c", "b"]))),
        Some(vec!["b1".to_string(), "c3".to_string()])
    );
    assert!(filter_tools_by_tool_choice(&pairs, &required()).is_none());
    for (choice, left) in [(function_choice("c"), vec!["3"]), (None, vec!["0", "1", "2", "3"])] {
        let mut req = chat();
        req.tools = Some(tools());
        req.tool_choice = choice;
        let all = Some(vec![json("0"), json("1"), json("2"), json("3")]);
        let body = EncodedChat::new(Arc::new(req), chat_messages(), all).unwrap();
        assert_eq!(body.tool_forms().unwrap().len(), 4);
        let filtered = filter_chat_request_by_tool_choice(body);
        assert_eq!(filtered.tools().unwrap().len(), left.len());
        let forms: Vec<String> =
            filtered.tool_forms().unwrap().iter().map(|form| form.to_text()).collect();
        assert_eq!(forms, left);
        assert_eq!(filtered.request().tools.as_ref().unwrap().len(), 4);
    }
}

#[test]
fn test_each_message_and_tool_has_its_form() {
    let with = |tools: Option<Vec<Tool>>| {
        let mut req = chat();
        req.tools = tools;
        Arc::new(req)
    };
    assert!(EncodedChat::new(with(None), chat_messages(), None).is_some());
    assert!(EncodedChat::new(with(None), vec![], None).is_none());
    assert!(EncodedChat::new(with(None), chat_messages(), Some(vec![])).is_none());
    let one = || with(Some(vec![tool("a", "{}")]));
    assert!(EncodedChat::new(one(), chat_messages(), None).is_none());
    assert!(EncodedChat::new(one(), chat_messages(), Some(vec![])).is_none());
    let body = EncodedChat::new(one(), chat_messages(), Some(vec![json("7")])).unwrap();
    assert_eq!(body.messages().len(), 1);
    assert_eq!(body.tools().unwrap()[0].function.name, "a");
    assert_eq!(body.tool_forms().unwrap()[0].to_text(), "7");
    assert_eq!(body.into_request().model, "m");
}

#[test]
fn test_calls_are_read_from_constrained_text() {
    let (calls, rest) = parse_json_schema_response("{ \"x\" : 1 }", &function_choice("f"), "kimi-k2", 4);
    let calls = calls.unwrap();
    assert_eq!(calls.len(), 1);
    assert_eq!(calls[0].id, "functions.f:4");
    assert_eq!(calls[0].tool_type, "function");
    assert_eq!(calls[0].function.name, "f");
    assert_eq!(calls[0].function.arguments.as_deref(), Some("{\"x\":1}"));
    assert_eq!(rest, "");

    let list = "[{\"name\":\"a\",\"parameters\":{}},{\"name\":3,\"parameters\":{}},{\"name\":\"b\",\"parameters\":[1]}]";
    let (calls, rest) = parse_json_schema_response(list, &required(), "Moonshot-KIMI", 1);
    let calls = calls.unwrap();
    assert_eq!(calls.len(), 2);
    assert_eq!(calls[0].id, "functions.a:1");
    assert_eq!(calls[1].id, "functions.b:3", "the index counts items that are no calls");
    assert_eq!(calls[1].function.arguments.as_deref(), Some("[1]"));
    assert_eq!(rest, "");
}

#[test]
fn test_text_that_holds_no_calls_is_left() {
    for (text, choice) in [
        ("not json", function_choice("f")),
        ("{}", required()),
        ("not json", allow("required", &["a"])),
        ("[]", None),
    ] {
        let (calls, rest) = parse_json_schema_response(text, &choice, "m", 0);
        assert!(calls.is_none());
        assert_eq!(rest, text);
    }
    let (calls, rest) = parse_json_schema_response("[]", &required(), "m", 0);
    assert_eq!(calls.unwrap().len(), 0);
    assert_eq!(rest, "");
}

#[test]
fn test_calls_from_a_parsed_value() {
    let (calls, rest) = calls_from_parsed(&Ok(json("[1]")), "t", &function_choice("f"), "kimi", 2);
    assert_eq!(calls.unwrap()[0].id, "functions.f:2");
    assert_eq!(rest, "");
    let (calls, rest) = calls_from_parsed(&Err("e".to_string()), "t", &function_choice("f"), "kimi", 2);
    assert!(calls.is_none());
    assert_eq!(rest, "t");
}

#[test]
fn test_call_identifiers() {
    let id = generate_tool_call_id("gpt", "f", 0, 0);
    let digits = id.strip_prefix("call_").unwrap();
    assert_eq!(digits.len(), 24);
    assert!(digits.chars().all(|c| c.is_ascii_hexdigit()));
    assert_ne!(id, generate_tool_call_id("gpt", "f", 0, 0));
    assert_eq!(generate_tool_call_id("Kimi", "f", 2, 3), "functions.f:5");
}

#[test]
fn test_history_counts_the_calls_of_assistants() {
    let call = || ToolCall {
        id: "c".to_string(),
        tool_type: "function".to_string(),
        function: FunctionCallResponse { name: "f".to_string(), arguments: None },
    };
    let mut req = chat();
    req.messages.push(ChatMessage::Assistant {
        content: None,
        name: None,
        tool_calls: Some(vec![call(), call()]),
        reasoning_content: None,
    });
    req.messages.push(ChatMessage::Assistant {
        content: None,
        name: None,
        tool_calls: None,
        reasoning_content: None,
    });
    req.messages.push(ChatMessage::Assistant {
        content: None,
        name: None,
        tool_calls: Some(vec![call()]),
        reasoning_content: None,
    });
    assert_eq!(get_history_tool_calls_count(&req), 3);
}

#[test]
fn test_stops_are_visible_only_untrimmed() {
    let stop = StringOrArray::Array(vec!["a".to_string(), "b".to_string()]);
    let ids = vec![7u32];
    let trimmed = create_stop_decoder(Some(&stop), Some(&ids), true, false);
    assert_eq!(trimmed.stop_sequences, vec!["a", "b"]);
    assert_eq!(trimmed.stop_tokens, vec![7]);
    assert!(trimmed.visible_stop_sequences.is_empty() && trimmed.visible_stop_tokens.is_empty());
    let visible = create_stop_decoder(Some(&stop), Some(&ids), false, true);
    assert_eq!(visible.visible_stop_sequences, vec!["a", "b"]);
    assert_eq!(visible.visible_stop_tokens, vec![7]);
    assert!(visible.stop_sequences.is_empty() && visible.stop_tokens.is_empty());
    assert!(!visible.skip_special_tokens);
}

#[test]
fn test_lookup_of_unknown_model_is_an_internal_error() {
    let registry = registry();
    assert!(lookup_tokenizer("m", &registry).is_ok());
    match lookup_tokenizer("other", &registry) {
        Ok(_) => panic!("found"),
        Err(e) => {
            assert_eq!(e.status, 500);
            assert_eq!(e.code, "tokenizer_not_found");
            assert_eq!(e.message, "Tokenizer not found for model: other");
        }
    }
}

#[test]
fn test_inputs_of_generate_requests() {
    let mut req = GenerateRequest::default();
    assert_eq!(
        resolve_encoded(&req, Ok(vec![])),
        Err("Either `text` or `input_ids` must be provided".to_string())
    );
    req.input_ids = Some(InputIds::Single(vec![1, 2]));
    assert_eq!(resolve_encoded(&req, Ok(vec![])), Ok((None, vec![1, 2])));
    req.input_ids = Some(InputIds::Single(vec![1, -2]));
    assert_eq!(
        resolve_encoded(&req, Ok(vec![])),
        Err("input_ids must be non-negative".to_string())
    );
    req.input_ids = Some(InputIds::Batch(vec![vec![1]]));
    assert_eq!(
        resolve_encoded(&req, Ok(vec![])),
        Err("Batch input_ids are not supported over gRPC generate yet".to_string())
    );
    req.text = Some("t".to_string());
    assert_eq!(resolve_encoded(&req, Ok(vec![9])), Ok((Some("t".to_string()), vec![9])));
    assert_eq!(
        resolve_encoded(&req, Err("e".to_string())),
        Err("Tokenization failed: e".to_string())
    );
}

fn refused<T>(r: Result<T, mesh::comm::error::ErrorResponse>) -> (u16, String, String) {
    match r {
        Ok(_) => panic!("expected an error"),
        Err(e) => (e.status, e.code, e.message),
    }
}

#[test]
fn test_generate_requests_are_prepared() {
    let registry = registry();
    let req = Arc::new(GenerateRequest {
        text: Some("ab".to_string()),
        sampling_params: Some(GenerateSamplingParams {
            temperature: Some(f(0.25)),
            max_new_tokens: Some(7),
            min_new_tokens: Some(u32::MAX),
            stop: Some(StringOrArray::String("x".to_string())),
            ..GenerateSamplingParams::default()
        }),
        top_logprobs_num: Some(-4),
        logprob_start_len: Some(0),
        log_metrics: true,
        ..GenerateRequest::default()
    });
    let prepared = prepare_generate(req.clone(), Some("m".to_string()), &registry, 5);
    let (payload, ctx) = match prepared {
        Ok(p) => p,
        Err(e) => panic!("{e:?}"),
    };
    assert!(payload.request_id.starts_with("gen-"));
    assert_eq!(payload.request_id.len(), 40);
    assert_eq!(ctx.request_id, payload.request_id);
    assert_eq!(payload.text, "ab");
    assert_eq!(payload.token_ids, vec![97, 98]);
    assert_eq!(payload.sampling.temperature, f(0.25));
    assert_eq!(payload.sampling.top_p, f(1.0));
    assert_eq!(payload.sampling.top_k, -1);
    assert_eq!(payload.sampling.max_new_tokens, Some(7));
    assert_eq!(payload.sampling.min_new_tokens, 0);
    assert_eq!(payload.sampling.n, 1);
    assert_eq!(payload.logprob.top_logprobs_num, 0);
    assert!(payload.logprob.input_logprobs && payload.log_metrics);
    assert!(payload.stop.skip_special_tokens && !payload.stop.no_stop_trim);
    assert_eq!(ctx.created, 5);
    assert_eq!(ctx.stop_decoder.stop_sequences, vec!["x"]);
    assert!(matches!(ctx.original, ProtocolRequest::Generate(_)));

    let again = prepare_generate_with_id(
        Arc::new(GenerateRequest {
            input_ids: Some(InputIds::Single(vec![3])),
            rid: Some("mine".to_string()),
            ..GenerateRequest::default()
        }),
        Some("m".to_string()),
        &registry,
        "gen-1".to_string(),
        0,
    );
    let (payload, ctx) = match again {
        Ok(p) => p,
        Err(e) => panic!("{e:?}"),
    };
    assert_eq!(payload.request_id, "mine");
    assert_eq!(payload.text, "");
    assert!(ctx.original_text.is_none());
    assert!(!payload.logprob.input_logprobs);
    assert_eq!(payload.logprob.logprob_start_len, -1);

    assert_eq!(
        refused(prepare_generate(req.clone(), None, &registry, 0)),
        (500, "model_id_not_set".to_string(), "model_id not set in request".to_string())
    );
    assert_eq!(refused(prepare_generate(req, Some("x".to_string()), &registry, 0)).1, "tokenizer_not_found");
    let bad = Arc::new(GenerateRequest { text: Some("!".to_string()), ..GenerateRequest::default() });
    assert_eq!(
        refused(prepare_generate(bad, Some("m".to_string()), &registry, 0)),
        (
            400,
            "resolve_input_failed".to_string(),
            "Tokenization failed: no exclamations".to_string()
        )
    );
}

#[test]
fn test_chat_requests_are_prepared() {
    let registry = registry();
    let mut req = chat();
    req.tools = Some(vec![tool("a", "{\"type\":\"object\"}"), tool("b", "{}")]);
    req.tool_choice = function_choice("a");
    req.skip_special_tokens = true;
    req.logprobs = true;
    req.top_logprobs = Some(3);
    req.n = Some(2);
    let prepared = prepare_chat(encoded(req), Some("m".to_string()), &registry, 9);
    let (payload, ctx) = match prepared {
        Ok(p) => p,
        Err(e) => panic!("{e:?}"),
    };
    assert!(ctx.request_id.starts_with("chatcmpl-"));
    assert_eq!(payload.text, "hi");
    assert_eq!(payload.token_ids, vec![104, 105]);
    assert!(!payload.stop.skip_special_tokens, "tool-call markers have to survive");
    assert_eq!(
        payload.tool_constraints,
        Some(("json_schema".to_string(), "{\"type\":\"object\"}".to_string()))
    );
    assert!(payload.logprob.return_logprob);
    assert_eq!(payload.logprob.top_logprobs_num, 3);
    assert_eq!(payload.sampling.n, 2);
    assert_eq!(ctx.processed_messages.unwrap().text, "hi");
}

#[test]
fn test_chat_requests_are_refused_in_order() {
    let registry = registry();
    let m = || Some("m".to_string());
    let mut empty = chat();
    empty.messages = vec![];
    let silent = EncodedChat::new(Arc::new(empty), vec![], None).unwrap();
    assert_eq!(
        refused(prepare_chat(silent, m(), &registry, 0)),
        (
            400,
            "process_messages_failed".to_string(),
            "Failed to apply chat template: nothing said".to_string()
        )
    );
    let loud = vec![json("{\"role\":\"user\",\"content\":\"hi!\"}")];
    assert_eq!(
        refused(prepare_chat(
            EncodedChat::new(Arc::new(chat()), loud, None).unwrap(),
            m(),
            &registry,
            0
        )),
        (500, "tokenization_failed".to_string(), "no exclamations".to_string())
    );
    let mut req = chat();
    req.tools = Some(vec![
        tool("a", "{\"$defs\":{\"X\":1}}"),
        tool("b", "{\"$defs\":{\"X\":2}}"),
    ]);
    req.tool_choice = required();
    assert_eq!(
        refused(prepare_chat(encoded(req), m(), &registry, 0)),
        (
            400,
            "invalid_tool_configuration".to_string(),
            "Tool definition 'X' has multiple conflicting schemas, which is not supported"
                .to_string()
        )
    );
}

fn started(registry: &TokenizerRegistry<CharTokenizer>, stream: bool) -> (GenerationPayload, ResponseContext<'_, CharTokenizer>) {
    let req = Arc::new(GenerateRequest {
        text: Some("a".to_string()),
        stream,
        ..GenerateRequest::default()
    });
    match Pipeline::new_regular().execute_generate(req, Some("m".to_string()), registry, 0) {
        Ok((payload, ctx, descriptor)) => {
            assert_eq!(descriptor.model_id.as_deref(), Some("m"));
            assert_eq!(descriptor.text.as_deref(), Some("a"));
            assert_eq!(descriptor.tokens, Some(vec![97]));
            assert_eq!(descriptor.protocol, Some(Protocol::Grpc));
            assert_eq!(descriptor.stream, stream);
            (payload, ctx)
        }
        Err(e) => panic!("{e:?}"),
    }
}

fn worker(url: &str) -> WorkerInfo {
    WorkerInfo { url: url.to_string(), bootstrap_host: "h".to_string(), bootstrap_port: Some(1) }
}

fn pair() -> PlacementPlan {
    PlacementPlan::Pair {
        prefill: worker("p"),
        decode: worker("d"),
        prefill_policy: "rr".to_string(),
        decode_policy: "rr".to_string(),
    }
}

#[test]
fn test_placed_requests_guard_the_workers_that_are_asked() {
    let registry = registry();
    let pipeline = Pipeline::new_pd();
    let (mut payload, ctx) = started(&registry, false);
    let order = pipeline.on_plan(Ok(pair()), ctx.model_id.as_deref(), &mut payload).unwrap();
    assert_eq!(order.guarded, vec!["p", "d"]);
    let asked: Vec<&str> = order.targets.iter().map(|t| t.url.as_str()).collect();
    assert_eq!(asked, vec!["p", "d"]);
    assert!(payload.pd_metadata.is_some());
    let single = PlacementPlan::Single { worker: worker("w"), policy_name: "rr".to_string() };
    assert_eq!(make_load_guards(&single), vec!["w"]);
}

#[test]
fn test_requests_that_cannot_be_placed_are_told_so() {
    let registry = registry();
    let (mut payload, ctx) = started(&registry, false);
    let e = Pipeline::new_regular()
        .on_plan(Err(PlacementError::NoAvailableWorkers), ctx.model_id.as_deref(), &mut payload)
        .unwrap_err();
    assert_eq!(e.status, 503);
    assert_eq!(e.code, "no_available_workers");
    assert_eq!(e.message, "No available workers for model: m");
}

#[test]
fn test_rendering_follows_the_request() {
    let registry = registry();
    for (stream, expected) in [(true, Rendering::Streamed), (false, Rendering::Aggregated)] {
        let (_, ctx) = started(&registry, stream);
        match Pipeline::new_regular().on_dispatch(Ok(synthetic_single_stream(vec![])), &ctx) {
            Ok((_, rendering)) => assert_eq!(rendering, expected),
            Err(e) => panic!("{e:?}"),
        }
    }
}

#[test]
fn test_engine_failures_by_status() {
    let registry = registry();
    let (_, ctx) = started(&registry, false);
    let status = tonic::Status::unavailable("gone").to_string();
    for (err, expected) in [
        (
            EngineError::Transport(TransportStatus::new(14, "gone".to_string())),
            (503, "engine_transport_error", format!("transport error: {status}")),
        ),
        (
            EngineError::Prefill("x".to_string()),
            (500, "engine_prefill_error", "prefill error: x".to_string()),
        ),
        (
            EngineError::DecodeError("x".to_string()),
            (500, "engine_decode_error", "decode error: x".to_string()),
        ),
        (
            EngineError::PrefillEarlyClose,
            (500, "engine_prefill_early_close", "prefill stream closed without Complete".to_string()),
        ),
        (
            EngineError::DecodeIncomplete,
            (500, "engine_decode_incomplete", "decode stream closed without Complete".to_string()),
        ),
        (
            EngineError::ConnectionAcquireFailed("u".to_string()),
            (503, "engine_connection_failed", "u".to_string()),
        ),
        (
            EngineError::RequestBuildFailed("u".to_string()),
            (400, "engine_request_build_failed", "u".to_string()),
        ),
    ] {
        let failed: Result<mesh::token_handle::token_handle::TokenHandle<u8>, EngineError> = Err(err);
        let e = match Pipeline::new_regular().on_dispatch(failed, &ctx) {
            Ok(_) => panic!("expected an error"),
            Err(e) => e,
        };
        assert_eq!((e.status, e.code.as_str(), e.message), expected);
    }
}

#[test]
fn test_responses_are_not_streamed_through_the_whole_path() {
    let registry = registry();
    let mut req = chat();
    req.stream = true;
    let pipeline = Pipeline::new_regular();
    let refused_stream = pipeline.execute_chat_for_responses(
        encoded(req),
        Some("m".to_string()),
        &registry,
        0,
    );
    assert_eq!(
        refused(refused_stream),
        (
            400,
            "streaming_not_supported".to_string(),
            "Streaming is not supported in this context".to_string()
        )
    );
    let taken = pipeline.execute_chat_for_responses(
        encoded(chat()),
        Some("m".to_string()),
        &registry,
        0,
    );
    let (payload, ctx, descriptor) = match taken {
        Ok(t) => t,
        Err(e) => panic!("{e:?}"),
    };
    assert_eq!(descriptor.text.as_deref(), Some("hi"));
    assert_eq!(plan_for(&payload, &ctx).tokens, descriptor.tokens);
    let begun = pipeline.execute_chat(encoded(chat()), None, &registry, 0);
    assert_eq!(refused(begun).1, "model_id_not_set");
}

#[test]
fn test_backend_label_changes_no_order() {
    let registry = registry();
    let (mut one, ctx) = started(&registry, true);
    let (mut two, _) = started(&registry, true);
    let regular = Pipeline::new_regular();
    let mut pd = Pipeline::new_regular();
    pd.backend = Backend::Pd;
    let single = || PlacementPlan::Single { worker: worker("w"), policy_name: "rr".to_string() };
    let a = regular.on_plan(Ok(single()), Some("m"), &mut one).unwrap();
    let b = pd.on_plan(Ok(single()), Some("m"), &mut two).unwrap();
    assert_eq!(a.guarded, b.guarded);
    assert_eq!(a.targets.len(), b.targets.len());
    assert_eq!(a.targets[0].url, b.targets[0].url);
    assert_eq!(one.token_ids, two.token_ids);
    for pipeline in [&regular, &pd] {
        match pipeline.on_dispatch(Ok(synthetic_single_stream(vec![])), &ctx) {
            Ok((_, rendering)) => assert_eq!(rendering, Rendering::Streamed),
            Err(e) => panic!("{e:?}"),
        }
    }
}

#[test]
fn test_new_regular_sets_backend_label() {
    assert_eq!(Pipeline::new_regular().backend, Backend::Regular);
}

#[test]
fn test_new_pd_sets_backend_label() {
    assert_eq!(Pipeline::new_pd().backend, Backend::Pd);
}

#[test]
fn test_metrics_name_the_model_or_none() {
    assert_eq!(metric_model(Some("m")), "m");
    assert_eq!(metric_model(None), "unknown");
}

#[test]
fn test_router_needs_both_parser_factories() {
    assert_eq!(
        GrpcRouter::new(false, true).unwrap_err(),
        "gRPC router requires reasoning parser factory"
    );
    assert_eq!(
        GrpcRouter::new(false, false).unwrap_err(),
        "gRPC router requires reasoning parser factory"
    );
    assert_eq!(
        GrpcRouter::new(true, false).unwrap_err(),
        "gRPC router requires tool parser factory"
    );
    let router = GrpcRouter::new(true, true).unwrap();
    assert_eq!(router.router_type(), "grpc");
    assert_eq!(router.pipeline.backend, Backend::Regular);
    let e = router.route_completion(Err("echo is not supported".to_string())).unwrap_err();
    assert_eq!((e.status, e.code.as_str()), (400, "completion_unsupported_field"));
    assert_eq!(e.message, "echo is not supported");
    assert!(router.route_completion(Ok(GenerateRequest::default())).is_ok());
}

#[test]
fn test_no_workers_returns_503() {
    let r = placement_err_to_response(PlacementError::NoWorkers, Some("m"));
    assert_eq!(r.status, 503);
    assert_eq!(r.message, "No workers in registry (model: m)");
}

#[test]
fn test_no_available_workers_returns_503() {
    let r = placement_err_to_response(PlacementError::NoAvailableWorkers, Some("m"));
    assert_eq!(r.status, 503);
}

#[test]
fn test_no_prefill_workers_returns_503() {
    let r = placement_err_to_response(PlacementError::NoPrefillWorkers, Some("m"));
    assert_eq!(r.status, 503);
    assert_eq!(r.message, "No available prefill workers for model: m");
}

#[test]
fn test_no_decode_workers_returns_503() {
    let r = placement_err_to_response(PlacementError::NoDecodeWorkers, Some("m"));
    assert_eq!(r.status, 503);
    assert_eq!(r.message, "No available decode workers for model: m");
}

#[test]
fn test_policy_returned_none_returns_503() {
    let r = placement_err_to_response(PlacementError::PolicyReturnedNone, Some("m"));
    assert_eq!(r.status, 503);
    assert_eq!(r.message, "Load balancing policy returned no worker for model: m");
}

#[test]
fn test_model_not_found_returns_503() {
    let r = placement_err_to_response(
        PlacementError::ModelNotFound { model_id: "m".to_string() },
        Some("m"),
    );
    assert_eq!(r.status, 503);
    assert_eq!(r.code, "model_not_found");
    assert_eq!(r.message, "Model not found: m");
}

#[test]
fn test_none_model_id_uses_default() {
    let r = placement_err_to_response(PlacementError::NoWorkers, None);
    assert_eq!(r.status, 503);
    assert_eq!(r.message, "No workers in registry (model: unknown)");
}

fn tool_with_defs(name: &str, defs: Vec<(&str, Json)>) -> Tool {
    let defs = defs.into_iter().map(|(n, v)| (n.to_string(), v)).collect();
    let mut tool = tool(name, "{}");
    tool.function.parameters = Json::Object(vec![("$defs".to_string(), Json::Object(defs))]);
    tool
}

#[test]
fn test_the_first_conflict_is_named_whatever_the_order_of_the_fields() {
    let known = tool_with_defs("a", vec![("b", Json::uint(1)), ("a", Json::uint(1))]);
    let other = tool_with_defs("b", vec![("b", Json::uint(2)), ("a", Json::uint(2))]);
    assert_eq!(
        build_required_array_schema(&vec![known, other]).unwrap_err(),
        "Tool definition 'a' has multiple conflicting schemas, which is not supported"
    );
}

#[test]
fn test_the_last_of_two_definitions_counts() {
    let twice = tool_with_defs("a", vec![("X", Json::uint(1)), ("X", Json::uint(2))]);
    let once = tool_with_defs("b", vec![("X", Json::uint(2))]);
    let schema = build_required_array_schema(&vec![twice, once]).unwrap();
    assert_eq!(json(&schema).to_value()["$defs"]["X"], 2);
}
