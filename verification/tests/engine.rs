use mesh::comm::placement_response::{PlacementPlan, WorkerInfo};
use mesh::float::F32;
use mesh::grpc::engine::dispatch::{
    Asked, DispatchTarget, GrpcEngine, ProtoErrorRole, ProtoStream, ProtoStreamSource,
};
use mesh::grpc::engine::payload_to_proto::{clamp, to_sglang_proto, to_vllm_proto};
use mesh::grpc::engine::proto::{
    InputTokenLogProb, SglangConstraint, SglangGenerateComplete, SglangGenerateError,
    SglangGenerateResponse, SglangGenerateStreamChunk, SglangInputLogProbs, SglangMatchedStop,
    SglangOutputLogProbs, SglangResponse, TopLogProbs, VllmConstraint, VllmGenerateComplete,
    VllmGenerateResponse, VllmGenerateStreamChunk, VllmResponse,
};
use mesh::grpc::engine::proto_stream_wrapper::{
    ProtoGenerateComplete, ProtoGenerateRequest, ProtoGenerateResponse, ProtoGenerateStreamChunk,
};
use mesh::grpc::engine::proto_to_chunk::{
    parse_finish_reason, proto_chunk_to_chunk, proto_complete_to_chunk,
};
use mesh::grpc::engine::worker_client_cache::{
    get_grpc_client_from_worker, parse_runtime_type, GrpcClient, ModelInfo, RuntimeType,
};
use mesh::json::Json;
use mesh::prepare::generation_payload::{
    GenerationPayload, LogprobConfig, PdMetadata, SamplingParams, StopConfig,
};
use mesh::protocols::common::StringOrArray;
use mesh::token_handle::engine_error::{EngineError, TransportStatus};
use mesh::token_handle::token_chunk::{FinishReason, MatchedStop, TokenChunk};
use mesh::token_handle::token_handle::{StreamPoll, TokenHandle, TokenSource};

fn f(x: f32) -> F32 {
    F32 { bits: x.to_bits() }
}

fn g(x: F32) -> f32 {
    f32::from_bits(x.bits)
}

fn default_sampling() -> SamplingParams {
    SamplingParams {
        temperature: f(1.0),
        top_p: f(1.0),
        top_k: -1,
        min_p: f(0.0),
        frequency_penalty: f(0.0),
        presence_penalty: f(0.0),
        repetition_penalty: f(1.0),
        max_new_tokens: Some(64),
        min_new_tokens: 0,
        n: 1,
        ignore_eos: false,
    }
}

fn default_logprob() -> LogprobConfig {
    LogprobConfig {
        return_logprob: false,
        top_logprobs_num: 0,
        logprob_start_len: -1,
        token_ids_logprob: Vec::new(),
        input_logprobs: false,
    }
}

fn default_stop() -> StopConfig {
    StopConfig {
        stop: None,
        stop_token_ids: None,
        skip_special_tokens: true,
        no_stop_trim: false,
    }
}

fn base_payload() -> GenerationPayload {
    GenerationPayload {
        request_id: "snap-A".to_string(),
        text: "hi".to_string(),
        token_ids: vec![1, 2, 3],
        sampling: default_sampling(),
        stop: default_stop(),
        logprob: default_logprob(),
        tool_constraints: None,
        pd_metadata: None,
        stream: false,
        return_hidden_states: false,
        log_metrics: false,
    }
}

#[test]
fn test_sampling_params_temperature_threads_through() {
    let mut p = base_payload();
    p.sampling.temperature = f(0.123_456);
    let proto = to_sglang_proto(&p);
    let s = proto.sampling_params.as_ref().expect("sampling_params");
    assert!((g(s.temperature) - 0.123_456).abs() < f32::EPSILON);
}

#[test]
fn test_top_k_minus_one_disables_filter() {
    let mut p = base_payload();
    p.sampling.top_k = -1;
    let proto = to_sglang_proto(&p);
    let s = proto.sampling_params.as_ref().unwrap();
    assert_eq!(s.top_k, -1);
}

#[test]
fn test_max_new_tokens_threads_through() {
    let mut p = base_payload();
    p.sampling.max_new_tokens = Some(999);
    let proto = to_sglang_proto(&p);
    let s = proto.sampling_params.as_ref().unwrap();
    assert_eq!(s.max_new_tokens, Some(999));
}

#[test]
fn test_stop_string_threads_through_as_string() {
    let mut p = base_payload();
    p.stop.stop = Some(StringOrArray::String("<|im_end|>".to_string()));
    let proto = to_sglang_proto(&p);
    let s = proto.sampling_params.as_ref().unwrap();
    assert!(s.stop.iter().any(|x| x == "<|im_end|>"));
}

#[test]
fn test_stop_array_threads_through_as_repeated() {
    let mut p = base_payload();
    p.stop.stop = Some(StringOrArray::Array(vec![
        "\n\n".to_string(),
        "END".to_string(),
    ]));
    let proto = to_sglang_proto(&p);
    let s = proto.sampling_params.as_ref().unwrap();
    assert!(s.stop.iter().any(|x| x == "\n\n"));
    assert!(s.stop.iter().any(|x| x == "END"));
}

#[test]
fn test_stop_token_ids_threads_through() {
    let mut p = base_payload();
    p.stop.stop_token_ids = Some(vec![151645]);
    let proto = to_sglang_proto(&p);
    let s = proto.sampling_params.as_ref().unwrap();
    assert!(s.stop_token_ids.contains(&151645));
}

#[test]
fn test_token_ids_threads_through() {
    let p = base_payload();
    let proto = to_sglang_proto(&p);
    let tok = proto.tokenized.as_ref().unwrap();
    assert_eq!(tok.input_ids, p.token_ids);
}

#[test]
fn test_request_id_threads_through() {
    let mut p = base_payload();
    p.request_id = "snap-B".to_string();
    let proto = to_sglang_proto(&p);
    assert_eq!(proto.request_id, "snap-B");
}

#[test]
fn test_return_logprob_threads_through() {
    let mut p = base_payload();
    p.logprob.return_logprob = true;
    let proto = to_sglang_proto(&p);
    assert!(proto.return_logprob);
}

#[test]
fn test_top_logprobs_num_threads_through() {
    let mut p = base_payload();
    p.logprob.top_logprobs_num = 5;
    let proto = to_sglang_proto(&p);
    assert_eq!(proto.top_logprobs_num, 5);
}

#[test]
fn test_logprob_start_len_threads_through() {
    let mut p = base_payload();
    p.logprob.logprob_start_len = 7;
    let proto = to_sglang_proto(&p);
    assert_eq!(proto.logprob_start_len, 7);
}

#[test]
fn test_tool_constraint_emits_constrained_decoding_field() {
    let mut p = base_payload();
    p.tool_constraints = Some((
        "json_schema".to_string(),
        "{\"type\":\"object\"}".to_string(),
    ));
    let proto = to_sglang_proto(&p);
    let s = proto.sampling_params.as_ref().unwrap();
    assert!(matches!(s.constraint, Some(SglangConstraint::JsonSchema(_))));
}

#[test]
fn test_pd_metadata_threads_into_disaggregated_params() {
    let mut p = base_payload();
    p.pd_metadata = Some(PdMetadata {
        bootstrap_host: "prefill-host".to_string(),
        bootstrap_port: 8998,
        bootstrap_room: 0x4_5b4c,
    });
    let proto = to_sglang_proto(&p);
    let dp = proto
        .disaggregated_params
        .as_ref()
        .expect("disaggregated_params populated for PD payload");
    assert_eq!(dp.bootstrap_host, "prefill-host");
    assert_eq!(dp.bootstrap_port, 8998);
    assert_eq!(dp.bootstrap_room, 0x4_5b4c);
}

#[test]
fn test_no_pd_metadata_yields_no_disaggregated_params() {
    let p = base_payload();
    let proto = to_sglang_proto(&p);
    assert!(proto.disaggregated_params.is_none());
}

#[test]
fn test_vllm_min_p_threads_through() {
    let mut p = base_payload();
    p.sampling.min_p = f(0.05);
    let proto = to_vllm_proto(&p);
    let s = proto.sampling_params.as_ref().unwrap();
    assert!((g(s.min_p) - 0.05).abs() < f32::EPSILON);
}

#[test]
fn test_vllm_top_k_minus_one_clamped_to_zero() {
    let mut p = base_payload();
    p.sampling.top_k = -1;
    let proto = to_vllm_proto(&p);
    let s = proto.sampling_params.as_ref().unwrap();
    assert_eq!(s.top_k, 0);
}

#[test]
fn test_vllm_temperature_wrapped_in_some() {
    let mut p = base_payload();
    p.sampling.temperature = f(0.5);
    let proto = to_vllm_proto(&p);
    let s = proto.sampling_params.as_ref().unwrap();
    assert_eq!(s.temperature, Some(f(0.5)));
}

fn sg_complete(token_ids: Vec<u32>) -> SglangGenerateComplete {
    SglangGenerateComplete {
        output_ids: token_ids,
        finish_reason: "stop".to_string(),
        prompt_tokens: 0,
        completion_tokens: 0,
        cached_tokens: 0,
        output_logprobs: None,
        input_logprobs: None,
        matched_stop: None,
        index: 0,
    }
}

fn wrap_complete(c: SglangGenerateComplete) -> ProtoGenerateComplete {
    ProtoGenerateComplete::Sglang(c)
}

fn wrap_chunk(c: SglangGenerateStreamChunk) -> ProtoGenerateStreamChunk {
    ProtoGenerateStreamChunk::Sglang(c)
}

#[test]
fn test_sglang_complete_to_chunk_maps_token_ids() {
    let c = proto_complete_to_chunk(wrap_complete(sg_complete(vec![1, 2, 3])));
    match c {
        TokenChunk::Complete { token_ids, .. } => assert_eq!(token_ids, vec![1, 2, 3]),
        _ => panic!("expected Complete"),
    }
}

#[test]
fn test_sglang_complete_to_chunk_maps_finish_reason_stop() {
    let c = proto_complete_to_chunk(wrap_complete(sg_complete(vec![1])));
    match c {
        TokenChunk::Complete { finish_reason, .. } => {
            assert!(matches!(finish_reason, FinishReason::Stop));
        }
        _ => panic!("expected Complete"),
    }
}

#[test]
fn test_sglang_complete_to_chunk_maps_finish_reason_length() {
    let mut c = sg_complete(vec![1]);
    c.finish_reason = "length".to_string();
    let chunk = proto_complete_to_chunk(wrap_complete(c));
    match chunk {
        TokenChunk::Complete { finish_reason, .. } => {
            assert!(matches!(finish_reason, FinishReason::Length));
        }
        _ => panic!("expected Complete"),
    }
}

#[test]
fn test_sglang_complete_to_chunk_matched_stop_str() {
    let mut c = sg_complete(vec![1]);
    c.matched_stop =
        Some(SglangMatchedStop::MatchedStopStr("<eot>".to_string()));
    let chunk = proto_complete_to_chunk(wrap_complete(c));
    match chunk {
        TokenChunk::Complete {
            matched_stop: Some(MatchedStop::Str(s)),
            ..
        } => assert_eq!(s, "<eot>"),
        other => panic!("expected MatchedStop::Str, got {other:?}"),
    }
}

#[test]
fn test_sglang_complete_to_chunk_matched_stop_token_id() {
    let mut c = sg_complete(vec![1]);
    c.matched_stop = Some(SglangMatchedStop::MatchedTokenId(2));
    let chunk = proto_complete_to_chunk(wrap_complete(c));
    match chunk {
        TokenChunk::Complete {
            matched_stop: Some(MatchedStop::TokenId(t)),
            ..
        } => assert_eq!(t, 2),
        other => panic!("expected MatchedStop::TokenId, got {other:?}"),
    }
}

#[test]
fn test_sglang_complete_to_chunk_no_matched_stop() {
    let chunk = proto_complete_to_chunk(wrap_complete(sg_complete(vec![1])));
    match chunk {
        TokenChunk::Complete { matched_stop, .. } => assert!(matched_stop.is_none()),
        _ => panic!("expected Complete"),
    }
}

#[test]
fn test_sglang_complete_to_chunk_usage_fields() {
    let mut c = sg_complete(vec![1]);
    c.prompt_tokens = 10;
    c.completion_tokens = 5;
    let chunk = proto_complete_to_chunk(wrap_complete(c));
    match chunk {
        TokenChunk::Complete { usage, .. } => {
            assert_eq!(usage.prompt_tokens, 10);
            assert_eq!(usage.completion_tokens, 5);
            assert_eq!(usage.total_tokens, 15);
        }
        _ => panic!("expected Complete"),
    }
}

#[test]
fn test_sglang_chunk_to_chunk_returns_partial() {
    let c = SglangGenerateStreamChunk {
        token_ids: vec![42],
        prompt_tokens: 0,
        completion_tokens: 0,
        cached_tokens: 0,
        output_logprobs: None,
        index: 0,
    };
    let chunk = proto_chunk_to_chunk(wrap_chunk(c));
    match chunk {
        TokenChunk::Partial { token_ids, .. } => assert_eq!(token_ids, vec![42]),
        _ => panic!("expected Partial"),
    }
}

#[test]
fn test_sglang_chunk_to_chunk_logprob_collapse() {
    let c = SglangGenerateStreamChunk {
        token_ids: vec![42],
        output_logprobs: Some(SglangOutputLogProbs {
            token_logprobs: vec![f(-0.5)],
            token_ids: vec![42],
            top_logprobs: vec![],
        }),
        prompt_tokens: 0,
        completion_tokens: 0,
        cached_tokens: 0,
        index: 0,
    };
    let chunk = proto_chunk_to_chunk(wrap_chunk(c));
    if let TokenChunk::Partial {
        logprobs: Some(lps),
        ..
    } = chunk
    {
        assert_eq!(lps.items.len(), 1);
        assert_eq!(lps.items[0].token_id, 42);
        assert!((g(lps.items[0].logprob) - (-0.5)).abs() < f32::EPSILON);
    } else {
        panic!("expected logprobs");
    }
}

#[test]
fn test_sglang_complete_to_chunk_input_logprobs_populated_in_single_mode() {
    let mut c = sg_complete(vec![1]);
    c.input_logprobs = Some(SglangInputLogProbs {
        token_logprobs: vec![
            InputTokenLogProb { value: Some(f(-0.1)) },
            InputTokenLogProb { value: Some(f(-0.2)) },
        ],
        token_ids: vec![10, 20],
        top_logprobs: vec![],
    });
    let chunk = proto_complete_to_chunk(wrap_complete(c));
    if let TokenChunk::Complete {
        input_logprobs: Some(ip),
        ..
    } = chunk
    {
        assert_eq!(ip.items.len(), 2);
    } else {
        panic!("expected input_logprobs");
    }
}

#[test]
fn test_sglang_complete_to_chunk_input_logprobs_none_when_missing() {
    let c = sg_complete(vec![1]);
    let chunk = proto_complete_to_chunk(wrap_complete(c));
    if let TokenChunk::Complete { input_logprobs, .. } = chunk {
        assert!(input_logprobs.is_none());
    } else {
        panic!("expected Complete");
    }
}

#[test]
fn test_vllm_complete_to_chunk_parallel_to_sglang() {
    let c = VllmGenerateComplete {
        output_ids: vec![7, 8],
        finish_reason: "stop".to_string(),
        prompt_tokens: 0,
        completion_tokens: 0,
        cached_tokens: 0,
    };
    let chunk = proto_complete_to_chunk(ProtoGenerateComplete::Vllm(c));
    match chunk {
        TokenChunk::Complete {
            token_ids,
            finish_reason,
            ..
        } => {
            assert_eq!(token_ids, vec![7, 8]);
            assert!(matches!(finish_reason, FinishReason::Stop));
        }
        _ => panic!("expected Complete"),
    }
}

#[test]
fn test_vllm_chunk_to_chunk_parallel_to_sglang() {
    let c = VllmGenerateStreamChunk {
        token_ids: vec![42],
        prompt_tokens: 0,
        completion_tokens: 0,
        cached_tokens: 0,
    };
    let chunk = proto_chunk_to_chunk(ProtoGenerateStreamChunk::Vllm(c));
    assert!(matches!(chunk, TokenChunk::Partial { .. }));
}

#[test]
fn test_meta_cached_tokens_threads_through() {
    let mut c = sg_complete(vec![1]);
    c.cached_tokens = 7;
    let chunk = proto_complete_to_chunk(wrap_complete(c));
    if let TokenChunk::Complete { meta, .. } = chunk {
        assert_eq!(meta.cached_tokens, 7);
    } else {
        panic!("expected Complete");
    }
}

#[test]
fn test_every_field_of_a_payload_reaches_sglang() {
    let mut p = base_payload();
    p.logprob.token_ids_logprob = vec![4, 5];
    p.stream = true;
    p.return_hidden_states = true;
    p.log_metrics = true;
    p.sampling.min_new_tokens = 3;
    p.sampling.ignore_eos = true;
    p.stop.no_stop_trim = true;
    let proto = to_sglang_proto(&p);
    assert_eq!(proto.token_ids_logprob, vec![4, 5]);
    assert!(proto.stream && proto.return_hidden_states && proto.log_metrics);
    let s = proto.sampling_params.unwrap();
    assert_eq!(s.min_new_tokens, 3);
    assert_eq!(s.n, 1);
    assert!(s.ignore_eos && s.no_stop_trim && s.spaces_between_special_tokens);
    assert_eq!(s.repetition_penalty, f(1.0));
    assert!(s.constraint.is_none());
    assert_eq!(proto.tokenized.unwrap().original_text, "hi");
}

#[test]
fn test_vllm_counts_negative_numbers_as_zero() {
    let mut p = base_payload();
    p.sampling.max_new_tokens = Some(-5);
    p.sampling.min_new_tokens = -2;
    p.sampling.n = 2;
    p.tool_constraints = Some(("grammar".to_string(), "root".to_string()));
    let s = to_vllm_proto(&p).sampling_params.unwrap();
    assert_eq!(s.max_tokens, Some(0));
    assert_eq!(s.min_tokens, 0);
    assert_eq!(s.n, 2);
    assert!(matches!(s.constraint, Some(VllmConstraint::Grammar(v)) if v == "root"));
    assert_eq!(clamp(-1), 0);
    assert_eq!(clamp(7), 7);
}

#[test]
fn test_ebnf_is_named_differently_by_the_backends() {
    let mut p = base_payload();
    p.tool_constraints = Some(("ebnf".to_string(), "g".to_string()));
    let s = to_sglang_proto(&p).sampling_params.unwrap();
    assert!(matches!(s.constraint, Some(SglangConstraint::EbnfGrammar(v)) if v == "g"));
    let v = to_vllm_proto(&p).sampling_params.unwrap();
    assert!(matches!(v.constraint, Some(VllmConstraint::Grammar(v)) if v == "g"));
}

#[test]
fn test_constraints_that_a_backend_knows() {
    let engine = GrpcEngine::new();
    let mut p = base_payload();
    assert!(engine.can_build(RuntimeType::Sglang, &p));
    p.tool_constraints = Some(("grammar".to_string(), "g".to_string()));
    assert!(!engine.can_build(RuntimeType::Sglang, &p));
    assert!(engine.can_build(RuntimeType::Vllm, &p));
    p.tool_constraints = Some(("structural_tag".to_string(), "g".to_string()));
    assert!(engine.can_build(RuntimeType::Sglang, &p));
    assert!(engine.can_build(RuntimeType::Vllm, &p));
    p.tool_constraints = Some(("other".to_string(), "g".to_string()));
    assert!(!engine.can_build(RuntimeType::Vllm, &p));
}

#[test]
fn test_vllm_takes_no_part_in_disaggregation() {
    let engine = GrpcEngine::new();
    let mut p = base_payload();
    let before = format!("{:?}", engine.build_request(RuntimeType::Vllm, &p));
    p.pd_metadata = Some(PdMetadata {
        bootstrap_host: "h".to_string(),
        bootstrap_port: 1,
        bootstrap_room: 2,
    });
    let after = format!("{:?}", engine.build_request(RuntimeType::Vllm, &p));
    assert_eq!(before, after);
    let sglang = engine.build_request(RuntimeType::Sglang, &p);
    assert!(matches!(sglang, ProtoGenerateRequest::Sglang(r) if r.disaggregated_params.is_some()));
}

#[test]
fn test_finish_reasons_by_name() {
    assert!(matches!(parse_finish_reason("stop"), FinishReason::Stop));
    assert!(matches!(parse_finish_reason("length"), FinishReason::Length));
    assert!(matches!(parse_finish_reason("content_filter"), FinishReason::ContentFilter));
    assert!(matches!(parse_finish_reason("tool_calls"), FinishReason::ToolCalls));
    assert!(matches!(parse_finish_reason("abort"), FinishReason::Abort));
    assert!(matches!(parse_finish_reason("odd"), FinishReason::Other(s) if s == "odd"));
}

#[test]
fn test_negative_counts_are_zero_and_totals_do_not_overflow() {
    let mut c = sg_complete(vec![1]);
    c.prompt_tokens = -3;
    c.completion_tokens = 4;
    c.cached_tokens = -1;
    if let TokenChunk::Complete { usage, meta, .. } = proto_complete_to_chunk(wrap_complete(c)) {
        assert_eq!(usage.prompt_tokens, 0);
        assert_eq!(usage.total_tokens, 4);
        assert_eq!(meta.cached_tokens, 0);
    } else {
        panic!("expected Complete");
    }
    let mut c = sg_complete(vec![1]);
    c.prompt_tokens = i32::MAX;
    c.completion_tokens = i32::MAX;
    if let TokenChunk::Complete { usage, .. } = proto_complete_to_chunk(wrap_complete(c)) {
        assert_eq!(usage.total_tokens, u32::MAX - 1);
    } else {
        panic!("expected Complete");
    }
}

#[test]
fn test_top_logprobs_pair_values_with_ids() {
    let mut c = sg_complete(vec![1]);
    c.output_logprobs = Some(SglangOutputLogProbs {
        token_logprobs: vec![f(-0.5), f(-0.25)],
        token_ids: vec![42, 43],
        top_logprobs: vec![TopLogProbs {
            values: vec![f(-0.5), f(-1.5)],
            token_ids: vec![42, 7, 8],
        }],
    });
    c.input_logprobs = Some(SglangInputLogProbs {
        token_logprobs: vec![InputTokenLogProb { value: None }],
        token_ids: vec![5],
        top_logprobs: vec![],
    });
    if let TokenChunk::Complete { logprobs: Some(out), input_logprobs: Some(inp), .. } =
        proto_complete_to_chunk(wrap_complete(c))
    {
        assert_eq!(out.items.len(), 2);
        assert_eq!(out.items[0].top.len(), 2);
        assert_eq!(out.items[0].top[1].0, 7);
        assert_eq!(out.items[0].top[1].1, f(-1.5));
        assert!(out.items[1].top.is_empty());
        assert_eq!(inp.items[0].token_id, 5);
        assert_eq!(inp.items[0].logprob, f(0.0));
    } else {
        panic!("expected log probabilities");
    }
}

fn worker(url: &str, port: Option<u16>) -> WorkerInfo {
    WorkerInfo {
        url: url.to_string(),
        bootstrap_host: format!("{url}-host"),
        bootstrap_port: port,
    }
}

fn single() -> PlacementPlan {
    PlacementPlan::Single {
        worker: worker("w", None),
        policy_name: "rr".to_string(),
    }
}

fn pair(port: Option<u16>) -> PlacementPlan {
    PlacementPlan::Pair {
        prefill: worker("p", port),
        decode: worker("d", None),
        prefill_policy: "rr".to_string(),
        decode_policy: "rr".to_string(),
    }
}

#[test]
fn test_dispatch_to_one_worker_leaves_the_payload() {
    let mut payload = base_payload();
    let targets = GrpcEngine::new().dispatch(&single(), &mut payload);
    assert_eq!(targets.len(), 1);
    assert_eq!(targets[0].url, "w");
    assert_eq!(targets[0].role, ProtoErrorRole::Worker);
    assert!(payload.pd_metadata.is_none());
}

#[test]
fn test_dispatch_to_a_pair_binds_it() {
    let mut payload = base_payload();
    let targets = GrpcEngine::new().dispatch_in(&pair(Some(8998)), &mut payload, 0x9234_5678);
    assert_eq!(targets.len(), 2);
    assert_eq!(targets[0].url, "p");
    assert_eq!(targets[0].role, ProtoErrorRole::Prefill);
    assert_eq!(targets[1].url, "d");
    assert_eq!(targets[1].role, ProtoErrorRole::Decode);
    let pd = payload.pd_metadata.unwrap();
    assert_eq!(pd.bootstrap_host, "p-host");
    assert_eq!(pd.bootstrap_port, 8998);
    assert_eq!(pd.bootstrap_room, 0x1234_5678);
}

#[test]
fn test_random_rooms_are_not_negative_and_differ() {
    let mut rooms = Vec::new();
    for _ in 0..8 {
        let mut payload = base_payload();
        GrpcEngine::new().dispatch(&pair(None), &mut payload);
        let pd = payload.pd_metadata.unwrap();
        assert_eq!(pd.bootstrap_port, 0);
        assert!(pd.bootstrap_room >= 0);
        rooms.push(pd.bootstrap_room);
    }
    rooms.dedup();
    assert!(rooms.len() > 1, "rooms are random");
}

fn target(role: ProtoErrorRole) -> DispatchTarget {
    DispatchTarget { url: "http://unreachable:8000".to_string(), role }
}

#[test]
fn test_dispatch_single_connection_acquire_failure_returns_typed_error() {
    let engine = GrpcEngine::new();
    match engine.dispatch_one(&target(ProtoErrorRole::Worker), Asked::Unreachable) {
        Ok(_) => panic!("expected ConnectionAcquireFailed"),
        Err(EngineError::ConnectionAcquireFailed(url)) => {
            assert_eq!(url, "http://unreachable:8000");
        }
        Err(err) => panic!("expected ConnectionAcquireFailed, got {err:?}"),
    }
}

#[test]
fn test_dispatch_pair_connection_acquire_failure_returns_typed_error() {
    let engine = GrpcEngine::new();
    let p = engine.dispatch_one(&target(ProtoErrorRole::Prefill), Asked::Unreachable);
    let d = engine.dispatch_one(
        &target(ProtoErrorRole::Decode),
        Asked::Refused("bad".to_string()),
    );
    match engine.join_pair(p, d, &base_payload()) {
        Ok(_) => panic!("expected ConnectionAcquireFailed"),
        Err(err) => assert!(matches!(err, EngineError::ConnectionAcquireFailed(_))),
    }
    let p = engine.dispatch_one(
        &target(ProtoErrorRole::Prefill),
        Asked::Started(ProtoStream::new()),
    );
    let d = engine.dispatch_one(
        &target(ProtoErrorRole::Decode),
        Asked::Refused("bad".to_string()),
    );
    match engine.join_pair(p, d, &base_payload()) {
        Ok(_) => panic!("expected RequestBuildFailed"),
        Err(err) => assert!(matches!(err, EngineError::RequestBuildFailed(m) if m == "bad")),
    }
}

fn sglang(response: Option<SglangResponse>) -> Result<ProtoGenerateResponse, TransportStatus> {
    Ok(ProtoGenerateResponse::Sglang(Box::new(SglangGenerateResponse { response })))
}

fn sg_chunk(id: u32) -> Option<SglangResponse> {
    Some(SglangResponse::Chunk(SglangGenerateStreamChunk {
        token_ids: vec![id],
        prompt_tokens: 0,
        completion_tokens: 0,
        cached_tokens: 0,
        output_logprobs: None,
        index: 0,
    }))
}

fn started(role: ProtoErrorRole, stream: ProtoStream) -> TokenHandle<ProtoStreamSource> {
    match GrpcEngine::new().dispatch_one(&target(role), Asked::Started(stream)) {
        Ok(handle) => handle,
        Err(e) => panic!("not started: {e:?}"),
    }
}

#[test]
fn test_worker_stream_skips_empty_messages_and_ends_after_complete() {
    let mut stream = ProtoStream::new();
    stream.feed(sglang(None));
    stream.feed(sglang(sg_chunk(3)));
    stream.feed(sglang(None));
    let mut handle = started(ProtoErrorRole::Worker, stream);
    assert!(matches!(
        handle.poll_next(),
        StreamPoll::Item(Ok(TokenChunk::Partial { token_ids, .. })) if token_ids == vec![3]
    ));
    assert!(matches!(handle.poll_next(), StreamPoll::Pending));
    handle.source.stream.feed(sglang(Some(SglangResponse::Complete(sg_complete(vec![3, 4])))));
    handle.source.stream.feed(sglang(sg_chunk(9)));
    assert!(matches!(
        handle.poll_next(),
        StreamPoll::Item(Ok(TokenChunk::Complete { token_ids, .. })) if token_ids == vec![3, 4]
    ));
    assert!(matches!(handle.poll_next(), StreamPoll::Closed));
    assert_eq!(handle.source.stream.inbox.len(), 1, "nothing is read after the end");
    assert!(!handle.source.stream.completed);
    handle.mark_completed();
    assert!(handle.source.stream.completed);
}

#[test]
fn test_worker_errors_are_labelled_by_role() {
    let error = || {
        sglang(Some(SglangResponse::Error(SglangGenerateError { message: "boom".to_string() })))
    };
    for role in [ProtoErrorRole::Worker, ProtoErrorRole::Prefill, ProtoErrorRole::Decode] {
        let mut stream = ProtoStream::new();
        stream.feed(error());
        let mut handle = started(role, stream);
        let StreamPoll::Item(Err(e)) = handle.poll_next() else {
            panic!("expected an error");
        };
        match (role, e) {
            (ProtoErrorRole::Worker, EngineError::Transport(s)) => {
                assert_eq!(s.code, 13);
                assert_eq!(s.message, "boom");
            }
            (ProtoErrorRole::Prefill, EngineError::Prefill(m)) => assert_eq!(m, "boom"),
            (ProtoErrorRole::Decode, EngineError::DecodeError(m)) => assert_eq!(m, "boom"),
            (role, e) => panic!("{role:?} reported {e:?}"),
        }
        assert!(matches!(handle.poll_next(), StreamPoll::Closed));
    }
}

#[test]
fn test_transport_failure_of_a_worker_stream_is_passed_on() {
    let mut stream = ProtoStream::new();
    stream.feed(Err(TransportStatus::new(14, "gone".to_string())));
    let mut handle = started(ProtoErrorRole::Decode, stream);
    assert!(matches!(
        handle.poll_next(),
        StreamPoll::Item(Err(EngineError::Transport(s))) if s.code == 14 && s.message == "gone"
    ));
    assert!(matches!(handle.poll_next(), StreamPoll::Closed));
}

#[test]
fn test_vllm_stream_closes() {
    let mut stream = ProtoStream::new();
    stream.feed(Ok(ProtoGenerateResponse::Vllm(VllmGenerateResponse {
        response: Some(VllmResponse::Chunk(VllmGenerateStreamChunk {
            token_ids: vec![5],
            prompt_tokens: 1,
            completion_tokens: 1,
            cached_tokens: 0,
        })),
    })));
    stream.close();
    let mut source = ProtoStreamSource::new(stream, ProtoErrorRole::Worker);
    assert!(matches!(source.poll_next(), StreamPoll::Item(Ok(TokenChunk::Partial { .. }))));
    assert!(matches!(source.poll_next(), StreamPoll::Closed));
    assert!(source.finished);
}

#[test]
fn test_runtime_types_by_name() {
    assert_eq!(parse_runtime_type("sglang"), Ok(RuntimeType::Sglang));
    assert_eq!(parse_runtime_type("vllm"), Ok(RuntimeType::Vllm));
    assert_eq!(
        parse_runtime_type("trt"),
        Err("Unknown runtime type: trt".to_string())
    );
}

#[test]
fn test_worker_without_grpc_is_an_internal_error() {
    let none: Result<Option<u8>, String> = Ok(None);
    let e = get_grpc_client_from_worker(none).unwrap_err();
    assert_eq!(e.status, 500);
    assert_eq!(e.code, "worker_not_configured_for_grpc");
    assert_eq!(e.message, "Selected worker is not configured for gRPC");
    let failed: Result<Option<u8>, String> = Err("refused".to_string());
    let e = get_grpc_client_from_worker(failed).unwrap_err();
    assert_eq!(e.code, "get_grpc_client_failed");
    assert_eq!(e.message, "Failed to get gRPC client: refused");
    assert_eq!(get_grpc_client_from_worker(Ok(Some(3u8))).unwrap(), 3);
}

#[test]
fn test_client_kinds() {
    let mut c: GrpcClient<u8, u16> = GrpcClient::Sglang(1);
    assert!(c.is_sglang() && !c.is_vllm());
    assert_eq!(c.runtime_type(), RuntimeType::Sglang);
    *c.as_sglang_mut() = 4;
    assert_eq!(*c.as_sglang(), 4);
    let request = GrpcEngine::new().build_request(RuntimeType::Vllm, &base_payload());
    assert!(!c.matches(&request));
}

#[test]
fn test_model_labels_leave_empty_values_out() {
    let info = ModelInfo::Sglang(
        Json::parse(
            "{\"model_path\":\"m\",\"empty\":\"\",\"max\":4096,\"none\":0,\"neg\":-1,\"half\":0.5,\"on\":true,\"off\":false,\"list\":[],\"ids\":[1,2]}",
        )
        .unwrap(),
    );
    let mut labels = info.to_labels();
    labels.sort();
    let found: Vec<(&str, &str)> =
        labels.iter().map(|(k, v)| (k.as_str(), v.as_str())).collect();
    assert!(found.contains(&("model_path", "m")));
    assert!(found.contains(&("max", "4096")));
    assert!(found.contains(&("on", "true")));
    assert!(found.contains(&("ids", "[1,2]")));
    assert_eq!(found.len(), 4);
}

#[test]
fn test_the_last_field_of_a_name_is_its_label() {
    let info = ModelInfo::Vllm(Json::Object(vec![
        ("a".to_string(), Json::string("x")),
        ("b".to_string(), Json::string("y")),
        ("a".to_string(), Json::string("z")),
        ("b".to_string(), Json::string("")),
    ]));
    assert_eq!(info.to_labels(), vec![("a".to_string(), "z".to_string())]);
}
