use std::sync::Arc;

use mesh::float::F32;
use mesh::json::Json;
use mesh::prepare::response_context::ProtocolRequest;
use mesh::protocols::chat::ChatCompletionRequest;
use mesh::protocols::common::ChatLogProbs;
use mesh::protocols::generate::{
    GenerateFinishReason, GenerateRequest, GenerateResponse, LogprobEntry,
};
use mesh::render::generate_aggregator::{
    collect_completes, decoded_text, expect_generate, finish_reason_to_generate, process,
    Collected, DecodedTokens, SequenceDecoderOutput,
};
use mesh::render::generate_streaming::{
    closing_frames, EncodedFrameFields, FrameSink, GenerateFrame, GenerateStream, StreamRun,
};
use mesh::render::logprob_conversion::{
    input_logprobs_to_generate, output_logprobs_to_generate, token_logprobs_to_chat,
};
use mesh::token_handle::engine_error::{EngineError, TransportStatus};
use mesh::token_handle::test_support::{
    single_from_receiver, synthetic_single_stream, ChannelSource,
};
use mesh::token_handle::token_chunk::{
    FinishReason, InputLogprobs, MatchedStop, TokenChunk, TokenLogprob, TokenLogprobs, Usage,
    WorkerMeta,
};
use mesh::tokenizer::{ChatTemplateContentFormat, ChatTemplateParams, Tokenizer};

fn f(x: f32) -> F32 {
    F32 { bits: x.to_bits() }
}

fn wide(x: F32) -> f64 {
    f32::from_bits(x.bits) as f64
}

/// Decodes an id to a letter, `a` for 1; ids above 26 have none.
struct Letters;

impl Tokenizer for Letters {
    fn encode(&self, _said: &str, _add_special_tokens: bool) -> Result<Vec<u32>, String> {
        Err("no encoding".to_string())
    }

    fn decode(&self, ids: &Vec<u32>, _skip_special_tokens: bool) -> Result<String, String> {
        let mut out = String::new();
        for id in ids {
            if *id == 0 || *id > 26 {
                return Err(format!("no letter {id}"));
            }
            out.push((b'a' + (*id as u8) - 1) as char);
        }
        Ok(out)
    }

    fn chat_template_content_format(&self) -> Option<ChatTemplateContentFormat> {
        None
    }

    fn apply_chat_template(
        &self,
        _messages: &Vec<Json>,
        _params: &ChatTemplateParams,
    ) -> Result<String, String> {
        Err("no template".to_string())
    }
}

fn lp(token_id: u32, logprob: f32) -> TokenLogprob {
    TokenLogprob { token_id, logprob: f(logprob), decoded_text: None, top: vec![] }
}

fn partial(ids: Vec<u32>) -> TokenChunk {
    TokenChunk::Partial { token_ids: ids, logprobs: None }
}

fn complete(finish_reason: FinishReason) -> TokenChunk {
    TokenChunk::Complete {
        token_ids: vec![1, 2],
        finish_reason,
        matched_stop: None,
        usage: Usage { prompt_tokens: 1, completion_tokens: 5, total_tokens: 6 },
        logprobs: None,
        input_logprobs: None,
        meta: WorkerMeta {
            request_id: "req-1".to_string(),
            weight_version: Some("v7".to_string()),
            cached_tokens: 5,
        },
    }
}

fn generate(return_logprob: Option<bool>) -> ProtocolRequest {
    ProtocolRequest::Generate(Arc::new(GenerateRequest {
        text: Some("hi".to_string()),
        return_logprob,
        model: Some("own".to_string()),
        ..GenerateRequest::default()
    }))
}

fn chat() -> ProtocolRequest {
    ProtocolRequest::Chat(Arc::new(ChatCompletionRequest::default()))
}

fn said(text: &str) -> DecodedTokens {
    DecodedTokens {
        outputs: Ok(vec![SequenceDecoderOutput::Text(text.to_string())]),
        flushed: SequenceDecoderOutput::Held,
    }
}

#[test]
fn test_token_logprobs_to_chat_empty_yields_detailed_none() {
    let out = token_logprobs_to_chat(&TokenLogprobs { items: vec![] }, &Letters);
    let ChatLogProbs::Detailed { content } = out;
    assert!(content.is_none());
}

#[test]
fn test_token_logprobs_to_chat_with_decoded_text_uses_it() {
    let lp = TokenLogprobs {
        items: vec![TokenLogprob {
            token_id: 7,
            logprob: f(-0.1),
            decoded_text: Some(" hi".to_string()),
            top: vec![(7, f(-0.1), Some(" hi".to_string()))],
        }],
    };
    let ChatLogProbs::Detailed { content } = token_logprobs_to_chat(&lp, &Letters);
    let items = content.expect("expected detailed-with-content");
    assert_eq!(items.len(), 1);
    assert_eq!(items[0].token, " hi");
    assert_eq!(items[0].top_logprobs.len(), 1);
    assert_eq!(items[0].top_logprobs[0].token, " hi");
}

#[test]
fn test_token_logprobs_to_chat_fallback_decodes_via_tokenizer() {
    let lp = TokenLogprobs {
        items: vec![TokenLogprob {
            token_id: 11,
            logprob: f(-0.7),
            decoded_text: None,
            top: vec![(11, f(-0.7), None)],
        }],
    };
    let ChatLogProbs::Detailed { content } = token_logprobs_to_chat(&lp, &Letters);
    let items = content.expect("expected detailed-with-content");
    assert_eq!(items.len(), 1);
    assert_eq!(items[0].top_logprobs.len(), 1);
    assert_eq!(items[0].token, "k");
    assert_eq!(items[0].top_logprobs[0].token, "k");
}

#[test]
fn test_tokens_without_text_are_named_by_their_id() {
    let mut item = lp(4000, -0.5);
    item.top = vec![(3, f(-0.25), None), (99, f(-3.0), Some("\u{e9}".to_string()))];
    let ChatLogProbs::Detailed { content } =
        token_logprobs_to_chat(&TokenLogprobs { items: vec![item] }, &Letters);
    let items = content.unwrap();
    assert_eq!(items[0].token, "<token_4000>");
    assert_eq!(items[0].logprob, f(-0.5));
    assert_eq!(items[0].bytes.as_deref(), Some("<token_4000>".as_bytes()));
    assert_eq!(items[0].top_logprobs[0].token, "c");
    assert_eq!(items[0].top_logprobs[1].bytes, Some(vec![0xc3, 0xa9]));
    assert_eq!(items[0].top_logprobs[1].logprob, f(-3.0));
}

#[test]
fn test_output_logprobs_to_generate_pairs_logprob_and_token_id() {
    let out = output_logprobs_to_generate(&TokenLogprobs { items: vec![lp(4, -0.3), lp(9, -1.2)] });
    assert_eq!(out.len(), 2);
    assert!((wide(out[0].logprob) - (-0.3)).abs() < 1e-6);
    assert_eq!(out[0].token_id as f64, 4.0);
    assert_eq!(out[1].token_id, 9);
}

#[test]
fn test_input_logprobs_to_generate_pairs_logprob_and_token_id() {
    let out = input_logprobs_to_generate(&InputLogprobs { items: vec![lp(99, -0.05)] });
    assert_eq!(out.len(), 1);
    assert_eq!(out[0].token_id as f64, 99.0);
}

#[test]
fn test_output_logprobs_to_generate_empty_yields_empty() {
    assert!(output_logprobs_to_generate(&TokenLogprobs { items: vec![] }).is_empty());
}

#[test]
fn test_input_logprobs_to_generate_empty_yields_empty() {
    assert!(input_logprobs_to_generate(&InputLogprobs { items: vec![] }).is_empty());
}

#[test]
fn test_text_ends_at_the_first_stop() {
    let outputs = vec![
        SequenceDecoderOutput::Text("a".to_string()),
        SequenceDecoderOutput::Held,
        SequenceDecoderOutput::StoppedWithText("b".to_string()),
        SequenceDecoderOutput::Text("never".to_string()),
    ];
    assert_eq!(decoded_text(&outputs, &SequenceDecoderOutput::Text("!".to_string())), "ab!");
    let outputs = vec![
        SequenceDecoderOutput::Text("a".to_string()),
        SequenceDecoderOutput::Stopped,
        SequenceDecoderOutput::Text("never".to_string()),
    ];
    assert_eq!(decoded_text(&outputs, &SequenceDecoderOutput::Held), "a");
    let outputs = vec![SequenceDecoderOutput::Text("a".to_string())];
    let late = SequenceDecoderOutput::StoppedWithText("dropped".to_string());
    assert_eq!(decoded_text(&outputs, &late), "a");
}

fn worker(weight_version: Option<&str>, cached_tokens: u32) -> WorkerMeta {
    WorkerMeta {
        request_id: "req".to_string(),
        weight_version: weight_version.map(|v| v.to_string()),
        cached_tokens,
    }
}

fn finished(
    token_ids: Vec<u32>,
    finish_reason: FinishReason,
    prompt_tokens: u32,
    completion_tokens: u32,
    meta: WorkerMeta,
) -> TokenChunk {
    TokenChunk::Complete {
        token_ids,
        finish_reason,
        matched_stop: None,
        usage: Usage {
            prompt_tokens,
            completion_tokens,
            total_tokens: prompt_tokens + completion_tokens,
        },
        logprobs: None,
        input_logprobs: None,
        meta,
    }
}

/// The reason that the answer to a stream of this one chunk gives.
fn reason_of(chunk: TokenChunk) -> String {
    let mut stream = synthetic_single_stream(vec![Ok(chunk)]);
    let mut kept = Vec::new();
    assert!(matches!(collect_completes(&mut stream, &mut kept), Collected::Whole));
    let list = answers(&generate(None), &kept, &vec![said("x")]);
    assert_eq!(list.len(), 1);
    match &list[0].meta_info.finish_reason {
        GenerateFinishReason::Stop => "stop".to_string(),
        GenerateFinishReason::Length { length } => format!("length {length}"),
        GenerateFinishReason::Other(v) => v.to_text(),
    }
}

#[test]
fn test_aggregator_finish_reason_length_carries_completion_tokens() {
    let meta = worker(Some("v7"), 5);
    assert_eq!(reason_of(finished(vec![1], FinishReason::Length, 1, 5, meta)), "length 5");
    assert!(matches!(
        finish_reason_to_generate(&FinishReason::Stop, 5),
        GenerateFinishReason::Stop
    ));
}

#[test]
fn test_aggregator_finish_reason_content_filter_maps_to_other() {
    let meta = worker(Some("v7"), 5);
    let chunk = finished(vec![1], FinishReason::ContentFilter, 1, 1, meta);
    assert_eq!(reason_of(chunk), "\"content_filter\"");
}

#[test]
fn test_aggregator_finish_reason_tool_calls_maps_to_other() {
    let meta = worker(Some("v7"), 5);
    let chunk = finished(vec![1], FinishReason::ToolCalls, 1, 1, meta);
    assert_eq!(reason_of(chunk), "\"tool_calls\"");
}

#[test]
fn test_aggregator_finish_reason_abort_maps_to_other() {
    let meta = worker(Some("v7"), 5);
    assert_eq!(reason_of(finished(vec![], FinishReason::Abort, 1, 0, meta)), "\"abort\"");
}

#[test]
fn test_aggregator_finish_reason_other_passthrough() {
    let reason = FinishReason::Other("custom-x".to_string());
    let chunk = finished(vec![], reason, 0, 0, worker(Some("v7"), 5));
    assert_eq!(reason_of(chunk), "\"custom-x\"");
}

fn answers(
    original: &ProtocolRequest,
    chunks: &Vec<TokenChunk>,
    decoded: &Vec<DecodedTokens>,
) -> Vec<GenerateResponse> {
    match process(original, "rid", chunks, decoded) {
        Ok(list) => list,
        Err(e) => panic!("{e:?}"),
    }
}

#[test]
fn test_aggregator_returns_500_on_chat_request_context() {
    assert!(expect_generate(&generate(None)).is_ok());
    let e = expect_generate(&chat()).unwrap_err();
    assert_eq!(e.status, 500);
    assert_eq!(e.code, "wrong_render_path");
    assert_eq!(e.message, "generate_aggregator invoked with a chat request");
    let chunks = vec![complete(FinishReason::Stop)];
    let e = process(&chat(), "rid", &chunks, &vec![said("x")]).unwrap_err();
    assert_eq!(e.code, "wrong_render_path");
}

#[test]
fn test_aggregator_returns_500_on_empty_completes() {
    let e = process(&generate(None), "rid", &vec![], &vec![]).unwrap_err();
    assert_eq!(e.status, 500);
    assert_eq!(e.code, "no_responses_from_server");
    assert_eq!(e.message, "No responses from server");
}

#[test]
fn test_aggregator_fails_with_the_first_decoding_that_fails() {
    let chunks = vec![complete(FinishReason::Stop), complete(FinishReason::Stop), complete(FinishReason::Stop)];
    let fails = |m: &str| DecodedTokens {
        outputs: Err(m.to_string()),
        flushed: SequenceDecoderOutput::Held,
    };
    let e = process(&generate(None), "rid", &chunks, &vec![said("x"), fails("one"), fails("two")])
        .unwrap_err();
    assert_eq!(e.code, "process_tokens_failed");
    assert_eq!(e.message, "Failed to process tokens: one");
}

#[test]
fn test_aggregator_filters_out_partial_chunks() {
    let chunk = finished(vec![1, 2], FinishReason::Stop, 1, 2, worker(Some("v7"), 5));
    let mut stream = synthetic_single_stream(vec![Ok(partial(vec![1])), Ok(chunk)]);
    let mut kept = Vec::new();
    assert!(matches!(collect_completes(&mut stream, &mut kept), Collected::Whole));
    assert!(stream.source.mark_completed_observed);
    assert_eq!(kept.len(), 1);
    let list = answers(&generate(None), &kept, &vec![said("ab")]);
    assert_eq!(list.len(), 1);
    let a = &list[0];
    assert_eq!(a.text, "ab");
    assert_eq!(a.output_ids, vec![1, 2]);
    assert_eq!(a.meta_info.id, "rid");
    assert!(matches!(a.meta_info.finish_reason, GenerateFinishReason::Stop));
    assert_eq!(a.meta_info.prompt_tokens, 1);
    assert_eq!(a.meta_info.completion_tokens, 2);
    assert_eq!(a.meta_info.cached_tokens, 5);
    assert_eq!(a.meta_info.weight_version, "v7");
    assert!(a.meta_info.matched_stop.is_none());
    assert!(a.meta_info.input_token_logprobs.is_none());
}

#[test]
fn test_collecting_waits_for_more() {
    let mut stream = single_from_receiver(ChannelSource::new());
    let mut kept = Vec::new();
    stream.source.send(Ok(complete(FinishReason::Stop)));
    assert!(matches!(collect_completes(&mut stream, &mut kept), Collected::Pending));
    stream.source.send(Ok(complete(FinishReason::Length)));
    stream.source.close();
    assert!(matches!(collect_completes(&mut stream, &mut kept), Collected::Whole));
    assert_eq!(kept.len(), 2);
}

#[test]
fn test_aggregator_matched_stop_token_id_serialized_as_number() {
    for (stop, shown) in [
        (MatchedStop::TokenId(42), "42"),
        (MatchedStop::Str("<eot>".to_string()), "\"<eot>\""),
    ] {
        let mut chunk = finished(vec![1], FinishReason::Stop, 1, 1, worker(None, 5));
        if let TokenChunk::Complete { matched_stop, .. } = &mut chunk {
            *matched_stop = Some(stop);
        }
        let list = answers(&generate(None), &vec![chunk], &vec![said("x")]);
        assert_eq!(list[0].meta_info.matched_stop.as_ref().unwrap().to_text(), shown);
        assert_eq!(list[0].meta_info.weight_version, "default");
    }
}

#[test]
fn test_aggregator_includes_logprobs_when_requested() {
    let chunk = || {
        let mut chunk = finished(vec![1], FinishReason::Stop, 1, 1, worker(Some("v7"), 5));
        if let TokenChunk::Complete { logprobs, input_logprobs, .. } = &mut chunk {
            *logprobs = Some(TokenLogprobs { items: vec![lp(1, -0.5)] });
            *input_logprobs = Some(InputLogprobs { items: vec![lp(9, -0.2)] });
        }
        chunk
    };
    let list = answers(&generate(Some(true)), &vec![chunk()], &vec![said("x")]);
    let out = list[0].meta_info.output_token_logprobs.as_ref().unwrap();
    assert_eq!((out[0].logprob, out[0].token_id), (f(-0.5), 1));
    let inp = list[0].meta_info.input_token_logprobs.as_ref().unwrap();
    assert_eq!((inp[0].logprob, inp[0].token_id), (f(-0.2), 9));
    let list = answers(&generate(Some(false)), &vec![chunk()], &vec![said("x")]);
    assert!(list[0].meta_info.output_token_logprobs.is_none());
    assert!(list[0].meta_info.input_token_logprobs.is_none());
}

fn failure(err: EngineError) -> u16 {
    let mut stream = synthetic_single_stream(vec![Err(err)]);
    let mut kept = Vec::new();
    let status = match collect_completes(&mut stream, &mut kept) {
        Collected::Failed(e) => e.status,
        other => panic!("expected a failure, got {other:?}"),
    };
    assert!(!stream.source.mark_completed_observed);
    status
}

#[test]
fn test_aggregator_propagates_engine_transport_error() {
    assert_eq!(failure(EngineError::Transport(TransportStatus::new(14, "dead".to_string()))), 503);
}

#[test]
fn test_aggregator_propagates_engine_prefill_error() {
    assert_eq!(failure(EngineError::Prefill("oops".to_string())), 500);
}

#[test]
fn test_aggregator_propagates_engine_decode_error() {
    assert_eq!(failure(EngineError::DecodeError("bad".to_string())), 500);
}

#[test]
fn test_aggregator_propagates_decode_incomplete() {
    assert_eq!(failure(EngineError::DecodeIncomplete), 500);
}

#[test]
fn test_generate_aggregator_propagates_engine_error() {
    assert_eq!(failure(EngineError::PrefillEarlyClose), 500);
}

#[test]
fn test_aggregator_propagates_connection_acquire_failed() {
    assert_eq!(failure(EngineError::ConnectionAcquireFailed("pool dry".to_string())), 503);
}

#[test]
fn test_aggregator_propagates_request_build_failed() {
    assert_eq!(failure(EngineError::RequestBuildFailed("bad req".to_string())), 400);
}

fn encoded() -> EncodedFrameFields {
    EncodedFrameFields {
        output_token_logprobs: Json::Null,
        input_token_logprobs: Json::Null,
        e2e_latency: Json::parse("0.5").unwrap(),
    }
}

fn shown(frame: &GenerateFrame) -> serde_json::Value {
    let sse = frame.to_sse(&encoded());
    let data = sse.strip_prefix("data: ").unwrap().strip_suffix("\n\n").unwrap();
    serde_json::from_str(data).unwrap()
}

fn streamed(return_logprob: Option<bool>, chunks: Vec<TokenChunk>) -> Vec<GenerateFrame> {
    let mut stream = synthetic_single_stream(chunks.into_iter().map(Ok).collect());
    let mut state = match GenerateStream::start(&generate(return_logprob), None, "rid") {
        Ok(s) => s,
        Err(_) => panic!("not started"),
    };
    let mut tx = FrameSink::new();
    assert!(matches!(
        state.run_generate_stream(&mut stream, &Letters, &mut tx),
        StreamRun::Finished
    ));
    assert!(stream.source.mark_completed_observed);
    tx.frames
}

#[test]
fn test_generate_frames_carry_all_text_so_far() {
    let frames = streamed(
        None,
        vec![partial(vec![1, 2]), partial(vec![99]), partial(vec![3]), complete(FinishReason::Stop)],
    );
    assert_eq!(frames.len(), 4);
    let seen: Vec<serde_json::Value> = frames.iter().map(shown).collect();
    assert_eq!(seen[0]["text"], "ab");
    assert_eq!(seen[1]["text"], "ab", "tokens without text add none");
    assert_eq!(seen[2]["text"], "abc");
    assert_eq!(seen[3]["text"], "abc");
    assert_eq!(seen[0]["output_ids"].as_array().unwrap().len(), 2);
    assert_eq!(seen[0]["index"], 0);
    assert_eq!(seen[0]["meta_info"]["id"], "rid-0");
    assert!(seen[0]["meta_info"]["finish_reason"].is_null());
    assert_eq!(seen[0]["meta_info"]["prompt_tokens"], 0);
    assert_eq!(seen[0]["meta_info"]["completion_tokens"], 2);
    assert_eq!(seen[2]["meta_info"]["completion_tokens"], 4);
    assert_eq!(seen[0]["meta_info"]["weight_version"], "default");
    assert_eq!(seen[0]["meta_info"]["cached_tokens"], 0);
    assert!(seen[0]["meta_info"].get("e2e_latency").is_none());
    assert!(seen[0]["meta_info"].get("input_token_logprobs").is_none());
}

#[test]
fn test_generate_last_frame_shows_its_tokens_and_latency() {
    let frames = streamed(None, vec![complete(FinishReason::Length)]);
    let last = shown(&frames[0]);
    assert_eq!(last["meta_info"]["e2e_latency"], 0.5);
    assert_eq!(last["output_ids"].as_array().unwrap().len(), 1);
    assert_eq!(last["output_ids"][0], 2);
    assert_eq!(last["meta_info"]["finish_reason"]["type"], "length");
    assert_eq!(last["meta_info"]["finish_reason"]["length"], 5);
    assert_eq!(last["meta_info"]["prompt_tokens"], 1);
    assert_eq!(last["meta_info"]["completion_tokens"], 5);
}

#[test]
fn test_generate_last_frame_shows_cached_tokens_and_reason() {
    let frames = streamed(None, vec![complete(FinishReason::Stop)]);
    assert_eq!(shown(&frames[0])["meta_info"]["cached_tokens"], 5);
    assert_eq!(shown(&frames[0])["meta_info"]["finish_reason"]["type"], "stop");
}

#[test]
fn test_generate_frames_keep_the_last_told_worker_values() {
    let frames = streamed(
        None,
        vec![complete(FinishReason::Abort), partial(vec![1]), complete(FinishReason::Stop)],
    );
    assert_eq!(shown(&frames[0])["meta_info"]["weight_version"], "v7");
    assert_eq!(shown(&frames[0])["meta_info"]["finish_reason"], "abort");
    assert_eq!(shown(&frames[1])["meta_info"]["weight_version"], "v7");
    assert_eq!(shown(&frames[1])["meta_info"]["prompt_tokens"], 1);
}

#[test]
fn test_generate_empty_stream_has_no_frame_but_the_closing_one() {
    assert!(streamed(None, vec![]).is_empty());
    assert_eq!(closing_frames(None), vec!["data: [DONE]\n\n"]);
}

#[test]
fn test_generate_streaming_picks_its_model() {
    match GenerateStream::start(&chat(), Some("m"), "rid") {
        Ok(_) => panic!("started"),
        Err(frames) => assert_eq!(
            frames,
            vec![
                "data: {\"error\": \"generate_streaming invoked with chat request\"}\n\n",
                "data: [DONE]\n\n",
            ]
        ),
    }
    let s = GenerateStream::start(&generate(None), Some("m"), "rid").ok().unwrap();
    assert_eq!(s.model, "m");
    let s = GenerateStream::start(&generate(None), None, "rid").ok().unwrap();
    assert_eq!(s.model, "own");
}

#[test]
fn test_generate_streaming_ends_at_the_first_failure() {
    let mut stream = synthetic_single_stream(vec![
        Ok(partial(vec![1])),
        Err(EngineError::DecodeError("bad".to_string())),
        Ok(partial(vec![2])),
    ]);
    let mut state = GenerateStream::start(&generate(None), None, "rid").ok().unwrap();
    let mut tx = FrameSink::new();
    match state.run_generate_stream(&mut stream, &Letters, &mut tx) {
        StreamRun::Failed(e) => {
            assert_eq!(e, "decode error: bad");
            assert_eq!(
                closing_frames(Some(&e))[0],
                "data: {\"error\": \"decode error: bad\"}\n\n"
            );
        }
        other => panic!("expected a failure, got {other:?}"),
    }
    assert_eq!(tx.frames.len(), 1);
    assert!(!stream.source.mark_completed_observed);
}

#[test]
fn test_generate_streaming_stops_when_the_client_is_gone() {
    for (chunk, told) in
        [(partial(vec![1]), "send chunk"), (complete(FinishReason::Stop), "send finish")]
    {
        let mut stream = synthetic_single_stream(vec![Ok(chunk), Ok(partial(vec![2]))]);
        let mut state = GenerateStream::start(&generate(None), None, "rid").ok().unwrap();
        let mut tx = FrameSink::new();
        tx.open = false;
        match state.run_generate_stream(&mut stream, &Letters, &mut tx) {
            StreamRun::Failed(e) => assert_eq!(e, told),
            other => panic!("expected a failure, got {other:?}"),
        }
        assert_eq!(stream.source.poll_count, 1);
        assert!(tx.frames.is_empty());
    }
}

#[test]
fn test_generate_streaming_waits_for_more() {
    let mut stream = single_from_receiver(ChannelSource::new());
    let mut state = GenerateStream::start(&generate(None), None, "rid").ok().unwrap();
    let mut tx = FrameSink::new();
    stream.source.send(Ok(partial(vec![1])));
    assert!(matches!(
        state.run_generate_stream(&mut stream, &Letters, &mut tx),
        StreamRun::Pending
    ));
    assert_eq!(tx.frames.len(), 1);
    stream.source.send(Ok(partial(vec![2])));
    stream.source.close();
    assert!(matches!(
        state.run_generate_stream(&mut stream, &Letters, &mut tx),
        StreamRun::Finished
    ));
    assert_eq!(tx.frames[1].text, "ab");
}

#[test]
fn test_generate_frames_keep_the_last_told_logprobs() {
    let with = |id: u32| TokenChunk::Partial {
        token_ids: vec![id],
        logprobs: Some(TokenLogprobs { items: vec![lp(id, -0.5)] }),
    };
    let frames =
        streamed(Some(true), vec![with(1), partial(vec![2]), with(3), complete(FinishReason::Stop)]);
    let ids: Vec<u32> = frames
        .iter()
        .map(|frame| frame.output_token_logprobs.as_ref().unwrap()[0].token_id)
        .collect();
    assert_eq!(ids, vec![1, 1, 3, 3], "the last told ones stand until others come");
    let mut last = complete(FinishReason::Stop);
    if let TokenChunk::Complete { logprobs, input_logprobs, .. } = &mut last {
        *logprobs = Some(TokenLogprobs { items: vec![lp(8, -0.5)] });
        *input_logprobs = Some(InputLogprobs { items: vec![lp(9, -0.5)] });
    }
    let frames = streamed(Some(true), vec![with(1), last]);
    assert_eq!(frames[1].output_token_logprobs.as_ref().unwrap()[0].token_id, 8);
    let finish = frames[1].finish.as_ref().unwrap();
    assert_eq!(finish.input_token_logprobs.as_ref().unwrap()[0].token_id, 9);
}

#[test]
fn test_generate_frames_hold_no_logprobs_unless_asked() {
    let chunk = TokenChunk::Partial {
        token_ids: vec![1],
        logprobs: Some(TokenLogprobs { items: vec![lp(1, -0.5)] }),
    };
    let mut last = complete(FinishReason::Stop);
    if let TokenChunk::Complete { logprobs, input_logprobs, .. } = &mut last {
        *logprobs = Some(TokenLogprobs { items: vec![lp(8, -0.5)] });
        *input_logprobs = Some(InputLogprobs { items: vec![lp(9, -0.5)] });
    }
    let frames = streamed(Some(false), vec![chunk, last]);
    assert!(frames.iter().all(|frame| frame.output_token_logprobs.is_none()));
    assert!(frames[1].finish.as_ref().unwrap().input_token_logprobs.is_none());
}

fn pairs(entries: &Option<Vec<LogprobEntry>>) -> Json {
    let Some(list) = entries else { return Json::Null };
    let shown: Vec<String> =
        list.iter().map(|e| format!("[{},{}]", wide(e.logprob), e.token_id)).collect();
    Json::parse(&format!("[{}]", shown.join(","))).unwrap()
}

fn fields_of(frame: &GenerateFrame) -> EncodedFrameFields {
    EncodedFrameFields {
        output_token_logprobs: pairs(&frame.output_token_logprobs),
        input_token_logprobs: match &frame.finish {
            Some(last) => pairs(&last.input_token_logprobs),
            None => Json::Null,
        },
        e2e_latency: Json::parse("0.5").unwrap(),
    }
}

/// All that the client reads of such a stream.
fn body_of(original: &ProtocolRequest, items: Vec<Result<TokenChunk, EngineError>>) -> String {
    let mut state = match GenerateStream::start(original, Some("m"), "rid") {
        Ok(s) => s,
        Err(frames) => return frames.join(""),
    };
    let mut stream = synthetic_single_stream(items);
    let mut tx = FrameSink::new();
    let closing = match state.run_generate_stream(&mut stream, &Letters, &mut tx) {
        StreamRun::Finished => closing_frames(None),
        StreamRun::Failed(e) => closing_frames(Some(&e)),
        StreamRun::Pending => panic!("the stream is whole"),
    };
    let mut body: String =
        tx.frames.iter().map(|frame| frame.to_sse(&fields_of(frame))).collect();
    body.push_str(&closing.join(""));
    body
}

#[test]
fn test_generate_streaming_partial_accumulates_text() {
    let s = body_of(
        &generate(None),
        vec![
            Ok(partial(vec![1])),
            Ok(partial(vec![2])),
            Ok(finished(vec![1, 2], FinishReason::Stop, 2, 2, worker(Some("v1"), 0))),
        ],
    );
    assert!(s.contains("\"text\""));
    assert!(s.contains("\"finish_reason\""));
    assert!(s.contains("[DONE]"));
}

#[test]
fn test_generate_streaming_complete_emits_e2e_latency() {
    let chunk = finished(vec![1], FinishReason::Stop, 1, 1, worker(Some("v1"), 0));
    let s = body_of(&generate(None), vec![Ok(chunk)]);
    assert!(s.contains("e2e_latency"));
}

#[test]
fn test_generate_streaming_complete_emits_cached_tokens() {
    let chunk = finished(vec![1], FinishReason::Stop, 1, 1, worker(Some("v2"), 42));
    let s = body_of(&generate(None), vec![Ok(chunk)]);
    assert!(s.contains("\"cached_tokens\":42"));
}

#[test]
fn test_generate_streaming_empty_stream_still_emits_done() {
    let s = body_of(&generate(None), vec![]);
    assert!(s.contains("[DONE]"));
}

#[test]
fn test_generate_streaming_weight_version_appears_in_meta_info() {
    let chunk = finished(vec![5], FinishReason::Stop, 1, 1, worker(Some("wv_abc"), 0));
    let s = body_of(&generate(None), vec![Ok(chunk)]);
    assert!(s.contains("wv_abc"));
}

#[test]
fn test_generate_streaming_invoked_with_chat_returns_error_sse() {
    let s = body_of(&chat(), vec![]);
    assert!(s.contains("generate_streaming invoked with chat"));
    assert!(s.contains("[DONE]"));
}

#[test]
fn test_generate_streaming_partial_emits_text_field() {
    let s = body_of(
        &generate(None),
        vec![
            Ok(partial(vec![1, 2])),
            Ok(finished(vec![1, 2], FinishReason::Stop, 2, 2, worker(Some("w1"), 9))),
        ],
    );
    assert!(s.contains("\"text\""));
    assert!(s.contains("meta_info"));
    assert!(s.contains("[DONE]"));
}

#[test]
fn test_generate_streaming_engine_error_emits_error_field() {
    let err = EngineError::Transport(TransportStatus::new(14, "dead".to_string()));
    let s = body_of(&generate(None), vec![Err(err)]);
    assert!(s.contains("error"));
    assert!(s.contains("[DONE]"));
}

#[test]
fn test_generate_streaming_finish_reason_length_carries_completion_tokens() {
    let chunk = finished(vec![1, 2, 3], FinishReason::Length, 1, 3, worker(Some("v1"), 9));
    assert!(body_of(&generate(None), vec![Ok(chunk)]).contains("length"));
}

#[test]
fn test_generate_streaming_finish_reason_content_filter() {
    let chunk = finished(vec![1], FinishReason::ContentFilter, 1, 1, worker(None, 9));
    assert!(body_of(&generate(None), vec![Ok(chunk)]).contains("content_filter"));
}

#[test]
fn test_generate_streaming_finish_reason_tool_calls() {
    let chunk = finished(vec![1], FinishReason::ToolCalls, 1, 1, worker(None, 9));
    assert!(body_of(&generate(None), vec![Ok(chunk)]).contains("tool_calls"));
}

#[test]
fn test_generate_streaming_finish_reason_abort() {
    let chunk = finished(vec![1], FinishReason::Abort, 1, 1, worker(None, 9));
    assert!(body_of(&generate(None), vec![Ok(chunk)]).contains("abort"));
}

#[test]
fn test_generate_streaming_finish_reason_other() {
    let reason = FinishReason::Other("zonk".to_string());
    let chunk = finished(vec![1], reason, 1, 1, worker(None, 9));
    assert!(body_of(&generate(None), vec![Ok(chunk)]).contains("zonk"));
}

#[test]
fn test_generate_streaming_return_logprob_threads_partial_and_complete() {
    let told = || Some(TokenLogprobs { items: vec![lp(5, -0.4)] });
    let first = TokenChunk::Partial { token_ids: vec![5], logprobs: told() };
    let mut last = finished(vec![5], FinishReason::Stop, 1, 1, worker(Some("vL"), 9));
    if let TokenChunk::Complete { logprobs, input_logprobs, .. } = &mut last {
        *logprobs = told();
        *input_logprobs = Some(InputLogprobs { items: vec![lp(6, -0.1)] });
    }
    let s = body_of(&generate(Some(true)), vec![Ok(first), Ok(last)]);
    assert!(s.contains("output_token_logprobs"));
    assert!(s.contains("input_token_logprobs"));
}

#[test]
fn test_generate_streaming_return_logprob_false_omits_logprobs_fields() {
    let chunk = finished(vec![1], FinishReason::Stop, 1, 1, worker(None, 9));
    let s = body_of(&generate(None), vec![Ok(chunk)]);
    assert!(s.contains("[DONE]"));
}
