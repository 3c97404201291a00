use std::cell::Cell;
use std::rc::Rc;

use mesh::float::F32;
use mesh::token_handle::engine_error::{EngineError, TransportStatus};
use mesh::token_handle::test_support::{
    pending_forever_stream, scripted_stream_with_poll_counter, scripted_with_mark_completed,
    single_from_receiver, synthetic_pd_stream, synthetic_single_stream, ChannelSource,
    ScriptedItem,
};
use mesh::token_handle::token_chunk::{
    FinishReason, InputLogprobs, MatchedStop, TokenChunk, TokenLogprob, TokenLogprobs, Usage,
    WorkerMeta,
};
use mesh::token_handle::token_handle::{StreamPoll, TokenHandle, TokenSource};

fn f(x: f32) -> F32 {
    F32 { bits: x.to_bits() }
}

fn meta() -> WorkerMeta {
    WorkerMeta {
        request_id: "req-1".to_string(),
        weight_version: Some("w1".to_string()),
        cached_tokens: 0,
    }
}

fn usage(prompt: u32, comp: u32) -> Usage {
    Usage {
        prompt_tokens: prompt,
        completion_tokens: comp,
        total_tokens: prompt + comp,
    }
}

#[test]
fn test_partial_chunk_carries_token_ids_and_logprobs_none() {
    let c = TokenChunk::Partial {
        token_ids: vec![10, 20],
        logprobs: None,
    };
    match c {
        TokenChunk::Partial {
            token_ids,
            logprobs,
        } => {
            assert_eq!(token_ids, vec![10, 20]);
            assert!(logprobs.is_none());
        }
        _ => panic!("expected Partial"),
    }
}

#[test]
fn test_partial_chunk_with_logprobs() {
    let lp = TokenLogprobs {
        items: vec![TokenLogprob {
            token_id: 10,
            logprob: f(-0.5),
            decoded_text: Some(" hi".to_string()),
            top: vec![(10, f(-0.5), Some(" hi".to_string()))],
        }],
    };
    let c = TokenChunk::Partial {
        token_ids: vec![10],
        logprobs: Some(lp),
    };
    match c {
        TokenChunk::Partial {
            logprobs: Some(lps),
            ..
        } => {
            assert_eq!(lps.items.len(), 1);
            assert_eq!(lps.items[0].token_id, 10);
        }
        _ => panic!("expected Partial with logprobs"),
    }
}

#[test]
fn test_complete_chunk_carries_all_fields() {
    let c = TokenChunk::Complete {
        token_ids: vec![1, 2, 3],
        finish_reason: FinishReason::Stop,
        matched_stop: Some(MatchedStop::Str("<eot>".to_string())),
        usage: usage(5, 3),
        logprobs: None,
        input_logprobs: None,
        meta: meta(),
    };
    match c {
        TokenChunk::Complete {
            token_ids,
            finish_reason,
            matched_stop,
            usage,
            meta,
            ..
        } => {
            assert_eq!(token_ids.len(), 3);
            assert!(matches!(finish_reason, FinishReason::Stop));
            assert!(matches!(matched_stop, Some(MatchedStop::Str(s)) if s == "<eot>"));
            assert_eq!(usage.total_tokens, 8);
            assert_eq!(meta.request_id, "req-1");
        }
        _ => panic!("expected Complete"),
    }
}

#[test]
fn test_complete_chunk_input_logprobs_is_optional() {
    // input_logprobs is Option: filled from worker Complete in single-mode,
    // injected by merge_pd_streams in PD mode. None is a valid state either way.
    let lp = InputLogprobs {
        items: vec![TokenLogprob {
            token_id: 1,
            logprob: f(-1.0),
            decoded_text: None,
            top: vec![],
        }],
    };
    let c = TokenChunk::Complete {
        token_ids: vec![1],
        finish_reason: FinishReason::Length,
        matched_stop: None,
        usage: usage(1, 0),
        logprobs: None,
        input_logprobs: Some(lp),
        meta: meta(),
    };
    if let TokenChunk::Complete {
        input_logprobs: Some(ip),
        ..
    } = c
    {
        assert_eq!(ip.items.len(), 1);
    } else {
        panic!("expected Complete with input_logprobs");
    }
}

#[test]
fn test_matched_stop_str_variant() {
    let s = MatchedStop::Str("</s>".to_string());
    match s {
        MatchedStop::Str(v) => assert_eq!(v, "</s>"),
        _ => panic!("expected Str"),
    }
}

#[test]
fn test_matched_stop_token_id_variant() {
    let s = MatchedStop::TokenId(2);
    match s {
        MatchedStop::TokenId(t) => assert_eq!(t, 2),
        _ => panic!("expected TokenId"),
    }
}

#[test]
fn test_finish_reason_variants_distinct() {
    let reasons = vec![
        FinishReason::Stop,
        FinishReason::Length,
        FinishReason::ContentFilter,
        FinishReason::ToolCalls,
        FinishReason::Abort,
        FinishReason::Other("custom".to_string()),
    ];
    // No accidental Eq collapse — at least 6 distinct kinds at the discriminant level.
    let kinds: std::collections::HashSet<_> =
        reasons.iter().map(|r| std::mem::discriminant(r)).collect();
    assert_eq!(kinds.len(), 6);
}

#[test]
fn test_token_logprob_top_alternatives_list_shape() {
    let tl = TokenLogprob {
        token_id: 9,
        logprob: f(-0.2),
        decoded_text: Some(" cat".to_string()),
        top: vec![
            (9, f(-0.2), Some(" cat".to_string())),
            (8, f(-1.4), Some(" dog".to_string())),
        ],
    };
    assert_eq!(tl.top.len(), 2);
    assert_eq!(tl.top[1].0, 8);
}

#[test]
fn test_engine_error_seven_variants_exist() {
    let _v1 = EngineError::Transport(TransportStatus::new(1, "c".to_string()));
    let _v2 = EngineError::Prefill(Default::default());
    let _v3 = EngineError::DecodeError(Default::default());
    let _v4 = EngineError::PrefillEarlyClose;
    let _v5 = EngineError::DecodeIncomplete;
    let _v6 = EngineError::ConnectionAcquireFailed("boom".to_string());
    let _v7 = EngineError::RequestBuildFailed("bad".to_string());
}

#[test]
fn test_engine_error_transport_display_includes_status() {
    let e = EngineError::Transport(TransportStatus::new(14, "dead worker".to_string()));
    let s = e.to_string();
    assert!(s.contains("dead worker") || s.contains("unavailable"));
}

#[test]
fn test_engine_error_connection_acquire_failed_includes_reason() {
    let e = EngineError::ConnectionAcquireFailed("pool exhausted".to_string());
    assert!(e.to_string().contains("pool exhausted"));
}

#[test]
fn test_engine_error_request_build_failed_includes_reason() {
    let e = EngineError::RequestBuildFailed("invalid stop seq".to_string());
    assert!(e.to_string().contains("invalid stop seq"));
}

#[test]
fn test_engine_error_prefill_early_close_unit() {
    // Unit variant must Display as a stable identifier (no payload).
    let s = EngineError::PrefillEarlyClose.to_string();
    assert!(s.to_lowercase().contains("prefill"));
}

#[test]
fn test_engine_error_decode_incomplete_unit() {
    let s = EngineError::DecodeIncomplete.to_string();
    assert!(s.to_lowercase().contains("decode"));
}

#[test]
fn test_engine_error_prefill_display_includes_message() {
    let e = EngineError::Prefill("kv mismatch".to_string());
    assert!(e.to_string().contains("kv mismatch"));
}

#[test]
fn test_engine_error_decode_error_display_includes_message() {
    let e = EngineError::DecodeError("xx".to_string());
    assert!(e.to_string().contains("xx"));
}

#[test]
fn test_engine_error_debug_renders_variant_name() {
    let e = EngineError::PrefillEarlyClose;
    let d = format!("{:?}", e);
    assert!(d.contains("PrefillEarlyClose"));
}

#[test]
fn test_engine_error_source_transport_is_some() {
    let e = EngineError::Transport(TransportStatus::new(1, "c".to_string()));
    assert!(e.source().is_some());
}

#[test]
fn test_engine_error_source_non_transport_is_none() {
    assert!(EngineError::PrefillEarlyClose.source().is_none());
    assert!(EngineError::DecodeIncomplete.source().is_none());
    assert!(EngineError::Prefill("x".to_string()).source().is_none());
    assert!(EngineError::DecodeError("y".to_string()).source().is_none());
    assert!(EngineError::ConnectionAcquireFailed("z".to_string())
        .source()
        .is_none());
    assert!(EngineError::RequestBuildFailed("w".to_string())
        .source()
        .is_none());
}

#[test]
fn test_engine_error_transport_text_is_that_of_tonic() {
    let shown = tonic::Status::unavailable("dead worker").to_string();
    let e = EngineError::Transport(TransportStatus::new(14, "dead worker".to_string()));
    assert_eq!(e.to_string(), format!("transport: {shown}"));
    let sourced = TransportStatus {
        code: 13,
        message: "m".to_string(),
        source: Some("Io".to_string()),
    };
    let plain = tonic::Status::internal("m").to_string();
    assert_eq!(sourced.to_string(), format!("{plain}, source: Io"));
    assert_eq!(TransportStatus::internal("m".to_string()).to_string(), plain);
}

fn complete_chunk() -> TokenChunk {
    TokenChunk::Complete {
        token_ids: vec![],
        finish_reason: FinishReason::Stop,
        matched_stop: None,
        usage: Usage {
            prompt_tokens: 0,
            completion_tokens: 0,
            total_tokens: 0,
        },
        logprobs: None,
        input_logprobs: None,
        meta: WorkerMeta {
            request_id: "r".to_string(),
            weight_version: None,
            cached_tokens: 0,
        },
    }
}

fn partial_chunk(id: u32) -> TokenChunk {
    TokenChunk::Partial {
        token_ids: vec![id],
        logprobs: None,
    }
}

fn next<S: TokenSource>(stream: &mut TokenHandle<S>) -> Option<Result<TokenChunk, EngineError>> {
    match stream.poll_next() {
        StreamPoll::Item(item) => Some(item),
        StreamPoll::Closed => None,
        StreamPoll::Pending => panic!("the stream is pending"),
    }
}

struct CountedDrop {
    counter: Rc<Cell<usize>>,
}

impl Drop for CountedDrop {
    fn drop(&mut self) {
        self.counter.set(self.counter.get() + 1);
    }
}

impl TokenSource for CountedDrop {
    fn poll_next(&mut self) -> StreamPoll {
        StreamPoll::Closed
    }

    fn mark_completed(&mut self) {}
}

#[test]
fn test_single_stream_yields_scripted_chunks_in_order() {
    let chunks = vec![Ok(partial_chunk(1)), Ok(partial_chunk(2)), Ok(complete_chunk())];
    let mut stream = synthetic_single_stream(chunks);
    let mut collected = Vec::new();
    while let Some(item) = next(&mut stream) {
        collected.push(item);
    }
    assert_eq!(collected.len(), 3);
    assert!(matches!(collected[2], Ok(TokenChunk::Complete { .. })));
}

#[test]
fn test_single_stream_propagates_engine_error() {
    let chunks = vec![
        Ok(partial_chunk(1)),
        Err(EngineError::Transport(TransportStatus::new(1, "c".to_string()))),
    ];
    let mut stream = synthetic_single_stream(chunks);
    assert!(next(&mut stream).unwrap().is_ok());
    let second = next(&mut stream).unwrap();
    assert!(matches!(second, Err(EngineError::Transport(_))));
}

#[test]
fn test_single_stream_drop_closes_underlying() {
    let counter = Rc::new(Cell::new(0));
    let stream = TokenHandle::new(CountedDrop { counter: counter.clone() });
    assert_eq!(counter.get(), 0);
    drop(stream);
    assert_eq!(counter.get(), 1);
}

#[test]
fn test_pd_stream_drop_closes_both_inner_streams() {
    let p = Rc::new(Cell::new(0));
    let d = Rc::new(Cell::new(0));
    let prefill = TokenHandle::new(CountedDrop { counter: p.clone() });
    let decode = TokenHandle::new(CountedDrop { counter: d.clone() });
    let merged = TokenHandle::pd(prefill, decode);
    drop(merged);
    assert_eq!(p.get(), 1);
    assert_eq!(d.get(), 1);
}

#[test]
fn test_mark_completed_propagates_to_single_source() {
    let mut stream = scripted_with_mark_completed(vec![ScriptedItem::Chunk(complete_chunk())]);
    assert!(!stream.source.mark_completed_observed);
    stream.mark_completed();
    assert!(stream.source.mark_completed_observed);
}

#[test]
fn test_mark_completed_propagates_to_pd_pair() {
    let p = scripted_with_mark_completed(vec![ScriptedItem::Chunk(complete_chunk())]);
    let d = scripted_with_mark_completed(vec![ScriptedItem::Chunk(complete_chunk())]);
    let mut merged = TokenHandle::pd(p, d);
    merged.mark_completed();
    assert!(merged.source.prefill.source.mark_completed_observed);
    assert!(merged.source.decode.source.mark_completed_observed);
}

#[test]
fn test_pd_stream_poll_uses_decode_arm() {
    let mut p = ChannelSource::new();
    let mut d = ChannelSource::new();
    p.close();
    d.send(Ok(complete_chunk()));
    d.close();
    let mut merged = TokenHandle::pd(single_from_receiver(p), single_from_receiver(d));
    let item = next(&mut merged).unwrap();
    assert!(matches!(item, Ok(TokenChunk::Complete { .. })));
    assert!(next(&mut merged).is_none());
}

#[test]
fn test_synthetic_drop_observer_counts_invocations() {
    let counter = Rc::new(Cell::new(0));
    let s = TokenHandle::new(CountedDrop { counter: counter.clone() });
    drop(s);
    assert_eq!(counter.get(), 1);
}

#[test]
fn test_synthetic_single_stream_empty_returns_zero_items() {
    let mut s = synthetic_single_stream(Vec::<Result<TokenChunk, EngineError>>::new());
    assert!(next(&mut s).is_none());
}

#[test]
fn test_synthetic_pd_stream_preserves_both_arms() {
    let p = vec![Ok(partial_chunk(10))];
    let d = vec![Ok(partial_chunk(20))];
    let (mut prefill, mut decode) = synthetic_pd_stream(p, d);
    let p0 = next(&mut prefill).unwrap().unwrap();
    let d0 = next(&mut decode).unwrap().unwrap();
    match (p0, d0) {
        (
            TokenChunk::Partial { token_ids: pi, .. },
            TokenChunk::Partial { token_ids: di, .. },
        ) => {
            assert_eq!(pi, vec![10]);
            assert_eq!(di, vec![20]);
        }
        _ => panic!("expected two Partials"),
    }
}

#[test]
fn test_scripted_stream_counts_its_polls() {
    let mut s = scripted_stream_with_poll_counter(vec![ScriptedItem::Chunk(partial_chunk(1))]);
    assert_eq!(s.source.poll_count, 0);
    assert!(next(&mut s).is_some());
    assert!(next(&mut s).is_none());
    assert_eq!(s.source.poll_count, 2);
}

#[test]
fn test_pending_stream_stays_pending() {
    let mut s = pending_forever_stream();
    assert!(matches!(s.poll_next(), StreamPoll::Pending));
    assert!(matches!(s.poll_next(), StreamPoll::Pending));
    assert_eq!(s.source.poll_count, 2);
}

#[test]
fn test_channel_stream_is_pending_while_open_and_empty() {
    let mut s = single_from_receiver(ChannelSource::new());
    assert!(matches!(s.poll_next(), StreamPoll::Pending));
    s.source.send(Ok(partial_chunk(1)));
    assert!(next(&mut s).is_some());
    assert!(matches!(s.poll_next(), StreamPoll::Pending));
    s.source.close();
    assert!(matches!(s.poll_next(), StreamPoll::Closed));
}

#[test]
fn test_being_told_of_completion_keeps_what_is_to_come() {
    let mut stream = synthetic_single_stream(vec![Ok(partial_chunk(1)), Ok(partial_chunk(2))]);
    assert!(next(&mut stream).unwrap().is_ok());
    stream.mark_completed();
    assert!(stream.source.mark_completed_observed);
    assert_eq!(stream.source.poll_count, 1);
    assert!(matches!(
        next(&mut stream),
        Some(Ok(TokenChunk::Partial { token_ids, .. })) if token_ids == vec![2]
    ));
    assert!(next(&mut stream).is_none());
}
