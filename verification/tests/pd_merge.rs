use std::cell::Cell;
use std::collections::VecDeque;
use std::rc::Rc;

use mesh::float::F32;
use mesh::grpc::engine::pd_stream_merge::merge_pd_streams;
use mesh::token_handle::engine_error::{EngineError, TransportStatus};
use mesh::token_handle::test_support::{pending_forever_stream, synthetic_pd_stream};
use mesh::token_handle::token_chunk::{
    FinishReason, InputLogprobs, TokenChunk, TokenLogprob, Usage, WorkerMeta,
};
use mesh::token_handle::token_handle::{StreamPoll, TokenHandle, TokenSource};

type Item = Result<TokenChunk, EngineError>;

#[derive(Clone)]
struct Observer {
    polls: Rc<Cell<usize>>,
    marked: Rc<Cell<bool>>,
    dropped: Rc<Cell<bool>>,
}

struct Observed {
    items: VecDeque<Item>,
    seen: Observer,
}

impl Drop for Observed {
    fn drop(&mut self) {
        self.seen.dropped.set(true);
    }
}

impl TokenSource for Observed {
    fn poll_next(&mut self) -> StreamPoll {
        self.seen.polls.set(self.seen.polls.get() + 1);
        match self.items.pop_front() {
            Some(item) => StreamPoll::Item(item),
            None => StreamPoll::Closed,
        }
    }

    fn mark_completed(&mut self) {
        self.seen.marked.set(true);
    }
}

fn observed(items: Vec<Item>) -> (TokenHandle<Observed>, Observer) {
    let seen = Observer {
        polls: Rc::new(Cell::new(0)),
        marked: Rc::new(Cell::new(false)),
        dropped: Rc::new(Cell::new(false)),
    };
    let source = Observed { items: items.into(), seen: seen.clone() };
    (TokenHandle::new(source), seen)
}

fn next<S: TokenSource>(stream: &mut TokenHandle<S>) -> Option<Item> {
    match stream.poll_next() {
        StreamPoll::Item(item) => Some(item),
        StreamPoll::Closed => None,
        StreamPoll::Pending => panic!("the stream is pending"),
    }
}

fn drain<S: TokenSource>(stream: &mut TokenHandle<S>) -> Vec<TokenChunk> {
    let mut items = Vec::new();
    while let Some(item) = next(stream) {
        items.push(item.unwrap());
    }
    items
}

fn partial(token_id: u32) -> TokenChunk {
    TokenChunk::Partial { token_ids: vec![token_id], logprobs: None }
}

fn complete(ip: Option<InputLogprobs>) -> TokenChunk {
    TokenChunk::Complete {
        token_ids: vec![],
        finish_reason: FinishReason::Stop,
        matched_stop: None,
        usage: Usage::default(),
        logprobs: None,
        input_logprobs: ip,
        meta: WorkerMeta {
            request_id: "r".to_string(),
            weight_version: None,
            cached_tokens: 0,
        },
    }
}

fn ip(n: u32) -> InputLogprobs {
    InputLogprobs {
        items: (0..n)
            .map(|i| TokenLogprob {
                token_id: i,
                logprob: F32 { bits: (-0.1f32).to_bits() },
                decoded_text: None,
                top: vec![],
            })
            .collect(),
    }
}

fn ids(items: &[TokenChunk]) -> Vec<u32> {
    items
        .iter()
        .flat_map(|c| match c {
            TokenChunk::Partial { token_ids, .. } => token_ids.clone(),
            _ => vec![],
        })
        .collect()
}

#[test]
fn tests_pd_merge_t1_skip_prefill_when_no_input_logprobs() {
    let (prefill, p) = observed(vec![Ok(partial(1)), Ok(complete(None))]);
    let (decode, _) =
        observed(vec![Ok(partial(10)), Ok(partial(20)), Ok(partial(30)), Ok(complete(None))]);
    let mut merged = merge_pd_streams(prefill, decode, false);
    let yielded = drain(&mut merged);
    assert_eq!(yielded.len(), 4, "3 Partial + 1 Complete from decode only");
    assert_eq!(p.polls.get(), 0, "prefill must NOT be polled when need_input_logprobs=false");
}

#[test]
fn tests_pd_merge_t2_injects_input_logprobs_from_prefill_into_decode_complete() {
    let (prefill, _) = observed(vec![Ok(complete(Some(ip(5))))]);
    let (decode, _) = observed(vec![Ok(partial(7)), Ok(complete(None))]);
    let mut merged = merge_pd_streams(prefill, decode, true);
    let items = drain(&mut merged);
    assert_eq!(items.len(), 2);
    match &items[1] {
        TokenChunk::Complete { input_logprobs: Some(actual), .. } => {
            assert_eq!(actual.items.len(), 5);
        }
        other => panic!("expected Complete with injected logprobs, got {other:?}"),
    }
}

#[test]
fn tests_pd_merge_t2_no_partial_from_prefill_leaks_to_consumer() {
    let (prefill, _) = observed(vec![Ok(partial(99)), Ok(complete(Some(ip(1))))]);
    let (decode, _) = observed(vec![Ok(partial(10)), Ok(complete(None))]);
    let mut merged = merge_pd_streams(prefill, decode, true);
    let seen = ids(&drain(&mut merged));
    assert!(!seen.contains(&99), "prefill Partial 99 leaked");
    assert!(seen.contains(&10), "decode Partial missing");
}

#[test]
fn tests_pd_merge_t3_prefill_error_propagates_and_decode_dropped() {
    let (prefill, _) = observed(vec![Err(EngineError::Prefill(String::new()))]);
    let (decode, d) = observed(vec![Ok(partial(1)), Ok(complete(None))]);
    let mut merged = merge_pd_streams(prefill, decode, true);
    let first = next(&mut merged).expect("merger yields one item");
    assert!(matches!(first, Err(EngineError::Prefill(_))));
    assert!(next(&mut merged).is_none(), "Terminal state must yield None subsequently");
    assert_eq!(d.polls.get(), 0, "decode must not be polled when prefill fails first");
    assert!(d.dropped.get(), "decode is dropped when prefill fails");
}

#[test]
fn tests_pd_merge_t4_prefill_silent_after_streaming_transition() {
    let (prefill, p) = observed(vec![Ok(complete(Some(ip(2))))]);
    let (decode, _) = observed(vec![
        Ok(partial(1)),
        Ok(partial(2)),
        Ok(partial(3)),
        Ok(partial(4)),
        Ok(partial(5)),
        Ok(complete(None)),
    ]);
    let mut merged = merge_pd_streams(prefill, decode, true);
    assert_eq!(drain(&mut merged).len(), 6);
    assert_eq!(p.polls.get(), 1);
}

#[test]
fn tests_pd_merge_t5_decode_transport_error_propagates_and_prefill_dropped() {
    let (prefill, p) = observed(vec![Ok(complete(None))]);
    let (decode, _) = observed(vec![
        Ok(partial(1)),
        Ok(partial(2)),
        Err(EngineError::Transport(TransportStatus::new(10, "dead".to_string()))),
    ]);
    let mut merged = merge_pd_streams(prefill, decode, true);
    let mut yielded = Vec::new();
    while let Some(item) = next(&mut merged) {
        let failed = item.is_err();
        yielded.push(item);
        if failed {
            break;
        }
    }
    assert_eq!(yielded.len(), 3);
    assert!(matches!(yielded[0], Ok(TokenChunk::Partial { .. })));
    assert!(matches!(yielded[1], Ok(TokenChunk::Partial { .. })));
    assert!(matches!(yielded[2], Err(EngineError::Transport(_))));
    assert!(p.dropped.get(), "prefill must be dropped after decode error");
    assert!(!p.marked.get(), "a failure is no clean exit");
}

#[test]
fn tests_pd_merge_t5_prefill_early_close_yields_typed_error() {
    let (prefill, _) = observed(Vec::new());
    let (decode, _) = observed(vec![Ok(complete(None))]);
    let mut merged = merge_pd_streams(prefill, decode, true);
    let first = next(&mut merged).unwrap();
    assert!(matches!(first, Err(EngineError::PrefillEarlyClose)));
}

#[test]
fn tests_pd_merge_t6_consumer_drop_propagates_to_both_upstreams() {
    let (prefill, p) = observed(vec![Ok(complete(None))]);
    let (decode, d) =
        observed(vec![Ok(partial(1)), Ok(partial(2)), Ok(partial(3)), Ok(partial(4))]);
    let mut merged = merge_pd_streams(prefill, decode, true);
    for _ in 0..3 {
        let _ = next(&mut merged);
    }
    drop(merged);
    assert!(p.dropped.get());
    assert!(d.dropped.get());
}

#[test]
fn tests_pd_merge_t7_pending_prefill_blocks_decode_until_timeout() {
    let prefill = pending_forever_stream();
    let (decode, d) = observed(vec![Ok(partial(1)), Ok(complete(None))]);
    let mut merged = merge_pd_streams(prefill, decode, true);
    for _ in 0..100 {
        assert!(matches!(merged.poll_next(), StreamPoll::Pending));
    }
    assert_eq!(d.polls.get(), 0);
}

#[test]
fn tests_pd_merge_decode_incomplete_yields_typed_error() {
    let (prefill, _) = observed(vec![Ok(complete(None))]);
    let (decode, _) = observed(vec![Ok(partial(1))]);
    let mut merged = merge_pd_streams(prefill, decode, true);
    let _first = next(&mut merged).unwrap().unwrap();
    let second = next(&mut merged).unwrap();
    assert!(matches!(second, Err(EngineError::DecodeIncomplete)));
}

#[test]
fn tests_pd_merge_prefill_partial_in_waiting_state_silently_dropped() {
    let (prefill, _) =
        observed(vec![Ok(partial(99)), Ok(partial(100)), Ok(complete(Some(ip(1))))]);
    let (decode, _) = observed(vec![Ok(partial(1)), Ok(complete(None))]);
    let mut merged = merge_pd_streams(prefill, decode, true);
    assert_eq!(drain(&mut merged).len(), 2);
}

#[test]
fn test_drop_single_mode_propagates_to_inner_streaming() {
    let (s, seen) = observed(vec![Ok(complete(None))]);
    drop(s);
    assert!(seen.dropped.get());
}

#[test]
fn test_drop_pd_mode_propagates_to_both_inner_streams() {
    let (prefill, p) = observed(vec![Ok(complete(None))]);
    let (decode, d) = observed(vec![Ok(complete(None))]);
    let merged = merge_pd_streams(prefill, decode, false);
    drop(merged);
    assert!(p.dropped.get());
    assert!(d.dropped.get());
}

#[test]
fn test_clean_exit_pd_mode_marks_prefill_completed_before_drop() {
    let (prefill, p) = observed(vec![Ok(complete(None))]);
    let (decode, _) = observed(vec![Ok(complete(None))]);
    let mut merged = merge_pd_streams(prefill, decode, true);
    while next(&mut merged).is_some() {}
    drop(merged);
    assert!(p.marked.get(), "prefill must be mark_completed() on clean exit");
    assert!(p.dropped.get());
}

#[test]
fn test_non_clean_exit_does_not_mark_completed() {
    let (prefill, p) = observed(vec![Err(EngineError::Prefill(String::new()))]);
    let (decode, _) = observed(vec![Ok(complete(None))]);
    let mut merged = merge_pd_streams(prefill, decode, true);
    let _ = next(&mut merged);
    drop(merged);
    assert!(!p.marked.get(), "prefill must NOT be mark_completed() on error path");
}

#[test]
fn test_decode_is_polled_only_after_prefill_completes() {
    let (prefill, p) = observed(vec![Ok(partial(1)), Ok(complete(Some(ip(3)))), Ok(partial(2))]);
    let (decode, d) = observed(vec![Ok(partial(8)), Ok(complete(Some(ip(1))))]);
    let mut merged = merge_pd_streams(prefill, decode, true);
    assert!(matches!(next(&mut merged), Some(Ok(TokenChunk::Partial { .. }))));
    assert_eq!(p.polls.get(), 2);
    assert_eq!(d.polls.get(), 1);
    match next(&mut merged) {
        Some(Ok(TokenChunk::Complete { input_logprobs: Some(actual), .. })) => {
            assert_eq!(actual.items.len(), 3, "those of prefill take the place of those of decode");
        }
        other => panic!("expected Complete, got {other:?}"),
    }
    assert!(next(&mut merged).is_none());
    assert_eq!(p.polls.get(), 2);
    assert_eq!(d.polls.get(), 2);
}

#[test]
fn test_no_upstream_is_told_while_the_stream_goes_on() {
    let (prefill, p) = observed(vec![Ok(complete(None))]);
    let (decode, d) = observed(vec![Ok(partial(1)), Ok(partial(2)), Ok(complete(None))]);
    let mut merged = merge_pd_streams(prefill, decode, true);
    for _ in 0..2 {
        assert!(next(&mut merged).unwrap().is_ok());
        assert!(!p.marked.get() && !d.marked.get());
        assert!(!p.dropped.get() && !d.dropped.get());
    }
    assert!(next(&mut merged).unwrap().is_ok());
    assert!(p.marked.get() && !d.marked.get());
    assert!(p.dropped.get() && d.dropped.get());
}

#[test]
fn test_a_pending_prefill_is_not_told() {
    let (decode, d) = observed(vec![Ok(complete(None))]);
    let mut merged = merge_pd_streams(pending_forever_stream(), decode, true);
    assert!(matches!(merged.poll_next(), StreamPoll::Pending));
    assert!(!d.marked.get() && d.polls.get() == 0);
}

#[test]
fn test_the_merger_hands_on_what_it_is_told_to_decode_alone() {
    let (prefill, p) = observed(vec![]);
    let (decode, d) = observed(vec![Ok(partial(4)), Ok(complete(None))]);
    let mut merged = merge_pd_streams(prefill, decode, false);
    merged.mark_completed();
    assert!(d.marked.get() && !p.marked.get());
    assert_eq!(ids(&drain(&mut merged)), vec![4]);
}

#[test]
fn test_scripted_upstreams_fix_the_answers() {
    let (p, d) = synthetic_pd_stream(vec![Ok(complete(None))], vec![Ok(partial(1))]);
    let mut merged = merge_pd_streams(p, d, true);
    assert!(matches!(
        next(&mut merged),
        Some(Ok(TokenChunk::Partial { token_ids, logprobs: None })) if token_ids == vec![1]
    ));
    assert!(matches!(next(&mut merged), Some(Err(EngineError::DecodeIncomplete))));
    assert!(next(&mut merged).is_none());
    assert!(next(&mut merged).is_none());
}

#[test]
fn test_prefill_is_told_as_soon_as_decode_completed() {
    let (prefill, p) = observed(vec![Ok(complete(None))]);
    let (decode, _) = observed(vec![Ok(partial(1)), Ok(complete(None)), Ok(partial(2))]);
    let mut merged = merge_pd_streams(prefill, decode, false);
    assert!(!merged.source.prefill_completed);
    next(&mut merged);
    assert!(!merged.source.prefill_completed);
    assert!(!p.marked.get());
    next(&mut merged);
    assert!(merged.source.prefill_completed);
    assert!(p.marked.get());
    let (prefill, p) = observed(vec![]);
    let (decode, _) = observed(vec![Err(EngineError::DecodeIncomplete)]);
    let mut merged = merge_pd_streams(prefill, decode, false);
    assert!(matches!(next(&mut merged), Some(Err(_))));
    assert!(!merged.source.prefill_completed);
    assert!(!p.marked.get());
}
