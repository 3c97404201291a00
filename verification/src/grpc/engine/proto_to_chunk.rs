//! From the chunks and completions of a backend to the transport-neutral `TokenChunk`.

use vstd::prelude::*;

use super::payload_to_proto;
use super::payload_to_proto::clamp;
use super::proto::SglangInputLogProbs;
use super::proto::SglangInputLogProbsView;
use super::proto::SglangMatchedStop;
use super::proto::SglangMatchedStopView;
use super::proto::SglangOutputLogProbs;
use super::proto::SglangOutputLogProbsView;
use super::proto::TopLogProbs;
use super::proto::TopLogProbsView;
use super::proto_stream_wrapper::ProtoGenerateComplete;
use super::proto_stream_wrapper::ProtoGenerateStreamChunk;
use crate::duplicate::Duplicate;
use crate::float::F32;
use crate::text;
use crate::token_handle::token_chunk::FinishReason;
use crate::token_handle::token_chunk::FinishReasonView;
use crate::token_handle::token_chunk::InputLogprobs;
use crate::token_handle::token_chunk::InputLogprobsView;
use crate::token_handle::token_chunk::MatchedStop;
use crate::token_handle::token_chunk::MatchedStopView;
use crate::token_handle::token_chunk::TokenChunk;
use crate::token_handle::token_chunk::TokenChunkView;
use crate::token_handle::token_chunk::TokenLogprob;
use crate::token_handle::token_chunk::TokenLogprobView;
use crate::token_handle::token_chunk::TokenLogprobs;
use crate::token_handle::token_chunk::TokenLogprobsView;
use crate::token_handle::token_chunk::Usage;
use crate::token_handle::token_chunk::WorkerMeta;
use crate::token_handle::token_chunk::WorkerMetaView;

verus! {

/// The number of pairs that two lists make.
pub open spec fn pairs(a: nat, b: nat) -> nat {
    if a < b {
        a
    } else {
        b
    }
}

/// The most likely tokens at a position, where the backend gave them.
pub open spec fn top_view(tops: Seq<TopLogProbsView>, i: int) -> Seq<
    (u32, F32, Option<Seq<char>>),
> {
    if 0 <= i < tops.len() {
        Seq::new(
            pairs(tops[i].values.len(), tops[i].token_ids.len()),
            |j: int| (tops[i].token_ids[j] as u32, tops[i].values[j], None::<Seq<char>>),
        )
    } else {
        Seq::empty()
    }
}

/// The log probabilities of generated tokens: one for each pair of a value and a token.
pub open spec fn output_logprobs_view(lp: SglangOutputLogProbsView) -> TokenLogprobsView {
    TokenLogprobsView {
        items: Seq::new(
            pairs(lp.token_logprobs.len(), lp.token_ids.len()),
            |i: int|
                TokenLogprobView {
                    token_id: lp.token_ids[i] as u32,
                    logprob: lp.token_logprobs[i],
                    decoded_text: None,
                    top: top_view(lp.top_logprobs, i),
                },
        ),
    }
}

/// The log probabilities of the tokens of the prompt. One that is missing counts as zero.
pub open spec fn input_logprobs_view(lp: SglangInputLogProbsView) -> InputLogprobsView {
    InputLogprobsView {
        items: Seq::new(
            pairs(lp.token_logprobs.len(), lp.token_ids.len()),
            |i: int|
                TokenLogprobView {
                    token_id: lp.token_ids[i] as u32,
                    logprob: F32::or_zero(lp.token_logprobs[i].value),
                    decoded_text: None,
                    top: top_view(lp.top_logprobs, i),
                },
        ),
    }
}

/// The finish reason of this name. No name stands for a stop.
pub open spec fn finish_reason_view(s: Seq<char>) -> FinishReasonView {
    if s == "stop"@ || s.len() == 0 {
        FinishReasonView::Stop
    } else if s == "length"@ {
        FinishReasonView::Length
    } else if s == "content_filter"@ {
        FinishReasonView::ContentFilter
    } else if s == "tool_calls"@ {
        FinishReasonView::ToolCalls
    } else if s == "abort"@ {
        FinishReasonView::Abort
    } else {
        FinishReasonView::Other(s)
    }
}

pub open spec fn matched_stop_view(ms: SglangMatchedStopView) -> MatchedStopView {
    match ms {
        SglangMatchedStopView::MatchedStopStr(s) => MatchedStopView::Str(s),
        SglangMatchedStopView::MatchedTokenId(t) => MatchedStopView::TokenId(t),
    }
}

pub fn parse_finish_reason(s: &str) -> (r: FinishReason)
    ensures
        r.deep_view() == finish_reason_view(s@),
{
    if text::same(s, "stop") || s.is_empty() {
        FinishReason::Stop
    } else if text::same(s, "length") {
        FinishReason::Length
    } else if text::same(s, "content_filter") {
        FinishReason::ContentFilter
    } else if text::same(s, "tool_calls") {
        FinishReason::ToolCalls
    } else if text::same(s, "abort") {
        FinishReason::Abort
    } else {
        FinishReason::Other(s.to_owned())
    }
}

pub fn map_sglang_matched_stop(ms: &SglangMatchedStop) -> (r: MatchedStop)
    ensures
        r.deep_view() == matched_stop_view(ms.deep_view()),
{
    match ms {
        SglangMatchedStop::MatchedStopStr(s) => MatchedStop::Str(s.clone()),
        SglangMatchedStop::MatchedTokenId(t) => MatchedStop::TokenId(*t),
    }
}

fn make_top(tops: &Vec<TopLogProbs>, i: usize) -> (r: Vec<(u32, F32, Option<String>)>)
    ensures
        r.deep_view() == top_view(tops.deep_view(), i as int),
{
    let mut out: Vec<(u32, F32, Option<String>)> = Vec::new();
    if i < tops.len() {
        let top = &tops[i];
        let ghost view = tops.deep_view()[i as int];
        assert(view == top.deep_view());
        let n: usize = if top.values.len() < top.token_ids.len() {
            top.values.len()
        } else {
            top.token_ids.len()
        };
        for j in 0..n
            invariant
                n == pairs(top.values@.len(), top.token_ids@.len()),
                view == top.deep_view(),
                out@.len() == j,
                forall|k: int|
                    0 <= k < j ==> (#[trigger] out@[k]).deep_view() == (
                        view.token_ids[k] as u32,
                        view.values[k],
                        None::<Seq<char>>,
                    ),
        {
            let ghost before = out@;
            out.push((top.token_ids[j] as u32, top.values[j], None));
            assert(out@ =~= before.push(out@.last()));
        }
    }
    assert(out.deep_view() =~= top_view(tops.deep_view(), i as int));
    out
}

pub fn sglang_output_to_token_logprobs(lp: &SglangOutputLogProbs) -> (r: TokenLogprobs)
    ensures
        r.deep_view() == output_logprobs_view(lp.deep_view()),
{
    let ghost view = lp.deep_view();
    let n: usize = if lp.token_logprobs.len() < lp.token_ids.len() {
        lp.token_logprobs.len()
    } else {
        lp.token_ids.len()
    };
    let mut items: Vec<TokenLogprob> = Vec::new();
    for i in 0..n
        invariant
            n == pairs(lp.token_logprobs@.len(), lp.token_ids@.len()),
            view == lp.deep_view(),
            items@.len() == i,
            forall|k: int|
                0 <= k < i ==> (#[trigger] items@[k]).deep_view() == output_logprobs_view(
                    view,
                ).items[k],
    {
        let ghost before = items@;
        items.push(
            TokenLogprob {
                token_id: lp.token_ids[i] as u32,
                logprob: lp.token_logprobs[i],
                decoded_text: None,
                top: make_top(&lp.top_logprobs, i),
            },
        );
        assert(items@ =~= before.push(items@.last()));
        assert(items@.last().deep_view() == output_logprobs_view(view).items[i as int]);
    }
    assert(items.deep_view() =~= output_logprobs_view(view).items);
    TokenLogprobs { items }
}

pub fn sglang_input_to_input_logprobs(lp: &SglangInputLogProbs) -> (r: InputLogprobs)
    ensures
        r.deep_view() == input_logprobs_view(lp.deep_view()),
{
    let ghost view = lp.deep_view();
    let n: usize = if lp.token_logprobs.len() < lp.token_ids.len() {
        lp.token_logprobs.len()
    } else {
        lp.token_ids.len()
    };
    let mut items: Vec<TokenLogprob> = Vec::new();
    for i in 0..n
        invariant
            n == pairs(lp.token_logprobs@.len(), lp.token_ids@.len()),
            view == lp.deep_view(),
            items@.len() == i,
            forall|k: int|
                0 <= k < i ==> (#[trigger] items@[k]).deep_view() == input_logprobs_view(
                    view,
                ).items[k],
    {
        let ghost before = items@;
        items.push(
            TokenLogprob {
                token_id: lp.token_ids[i] as u32,
                logprob: lp.token_logprobs[i].value.unwrap_or(F32::zero()),
                decoded_text: None,
                top: make_top(&lp.top_logprobs, i),
            },
        );
        assert(items@ =~= before.push(items@.last()));
        assert(items@.last().deep_view() == input_logprobs_view(view).items[i as int]);
    }
    assert(items.deep_view() =~= input_logprobs_view(view).items);
    InputLogprobs { items }
}

/// What a piece of an answer says, in transport-neutral terms.
pub open spec fn chunk_view(chunk: ProtoGenerateStreamChunk) -> TokenChunkView {
    TokenChunkView::Partial {
        token_ids: match chunk {
            ProtoGenerateStreamChunk::Sglang(c) => c.token_ids.deep_view(),
            ProtoGenerateStreamChunk::Vllm(c) => c.token_ids.deep_view(),
        },
        logprobs: match chunk {
            ProtoGenerateStreamChunk::Sglang(c) => match c.output_logprobs {
                Some(lp) => Some(output_logprobs_view(lp.deep_view())),
                None => None,
            },
            ProtoGenerateStreamChunk::Vllm(_) => None,
        },
    }
}

/// A piece of an answer.
pub fn proto_chunk_to_chunk(chunk: ProtoGenerateStreamChunk) -> (r: TokenChunk)
    ensures
        r.deep_view() == chunk_view(chunk),
{
    let logprobs = match chunk.output_logprobs() {
        Some(lp) => Some(sglang_output_to_token_logprobs(lp)),
        None => None,
    };
    TokenChunk::Partial { token_ids: chunk.token_ids().duplicate(), logprobs }
}

/// The prompt and completion counts of a completion, as signed numbers.
pub open spec fn complete_counts(complete: ProtoGenerateComplete) -> (i32, i32, i32) {
    match complete {
        ProtoGenerateComplete::Sglang(c) => (c.prompt_tokens, c.completion_tokens, c.cached_tokens),
        ProtoGenerateComplete::Vllm(c) => (
            c.prompt_tokens as i32,
            c.completion_tokens as i32,
            c.cached_tokens as i32,
        ),
    }
}

/// What a completion says, in transport-neutral terms. Negative counts are zero.
pub open spec fn complete_view(complete: ProtoGenerateComplete) -> TokenChunkView {
    let (prompt, completion, cached) = complete_counts(complete);
    let prompt_tokens = payload_to_proto::at_least_zero(prompt);
    let completion_tokens = payload_to_proto::at_least_zero(completion);
    TokenChunkView::Complete {
        token_ids: match complete {
            ProtoGenerateComplete::Sglang(c) => c.output_ids.deep_view(),
            ProtoGenerateComplete::Vllm(c) => c.output_ids.deep_view(),
        },
        finish_reason: finish_reason_view(
            match complete {
                ProtoGenerateComplete::Sglang(c) => c.finish_reason@,
                ProtoGenerateComplete::Vllm(c) => c.finish_reason@,
            },
        ),
        matched_stop: match complete {
            ProtoGenerateComplete::Sglang(c) => match c.matched_stop {
                Some(ms) => Some(matched_stop_view(ms.deep_view())),
                None => None,
            },
            ProtoGenerateComplete::Vllm(_) => None,
        },
        usage: Usage {
            prompt_tokens,
            completion_tokens,
            total_tokens: (prompt_tokens + completion_tokens) as u32,
        },
        logprobs: match complete {
            ProtoGenerateComplete::Sglang(c) => match c.output_logprobs {
                Some(lp) => Some(output_logprobs_view(lp.deep_view())),
                None => None,
            },
            ProtoGenerateComplete::Vllm(_) => None,
        },
        input_logprobs: match complete {
            ProtoGenerateComplete::Sglang(c) => match c.input_logprobs {
                Some(lp) => Some(input_logprobs_view(lp.deep_view())),
                None => None,
            },
            ProtoGenerateComplete::Vllm(_) => None,
        },
        meta: WorkerMetaView {
            request_id: Seq::empty(),
            weight_version: None,
            cached_tokens: payload_to_proto::at_least_zero(cached),
        },
    }
}

/// The end of an answer.
pub fn proto_complete_to_chunk(complete: ProtoGenerateComplete) -> (r: TokenChunk)
    ensures
        r.deep_view() == complete_view(complete),
{
    let finish_reason = parse_finish_reason(complete.finish_reason());
    let matched_stop = match complete.matched_stop() {
        Some(ms) => Some(map_sglang_matched_stop(ms)),
        None => None,
    };
    let prompt_tokens: u32 = clamp(complete.prompt_tokens());
    let completion_tokens: u32 = clamp(complete.completion_tokens());
    let usage = Usage {
        prompt_tokens,
        completion_tokens,
        total_tokens: prompt_tokens + completion_tokens,
    };
    let logprobs = match complete.output_logprobs() {
        Some(lp) => Some(sglang_output_to_token_logprobs(lp)),
        None => None,
    };
    let input_logprobs = match complete.input_logprobs() {
        Some(lp) => Some(sglang_input_to_input_logprobs(lp)),
        None => None,
    };
    let meta = WorkerMeta {
        request_id: String::new(),
        weight_version: None,
        cached_tokens: clamp(complete.cached_tokens()),
    };
    TokenChunk::Complete {
        token_ids: complete.output_ids().duplicate(),
        finish_reason,
        matched_stop,
        usage,
        logprobs,
        input_logprobs,
        meta,
    }
}

/// A piece of an answer has the tokens of the message that it was made of, whichever backend
/// sent it. It has log probabilities where the message has some: one for each pair of a value
/// and a token, and as many most likely tokens as pairs were given with it.
pub proof fn law_partial_has_the_tokens_of_its_message(
    chunk: ProtoGenerateStreamChunk,
    r: TokenChunk,
)
    requires
        call_ensures(proto_chunk_to_chunk, (chunk,), r),
    ensures
        r is Partial,
        chunk matches ProtoGenerateStreamChunk::Sglang(m) ==> {
            &&& r->Partial_token_ids.deep_view() == m.token_ids.deep_view()
            &&& r->Partial_logprobs is Some == m.output_logprobs is Some
            &&& m.output_logprobs matches Some(lp) ==> tells_logprobs(
                r->Partial_logprobs.deep_view()->0.items,
                lp.deep_view(),
            )
        },
        chunk matches ProtoGenerateStreamChunk::Vllm(m) ==> {
            &&& r->Partial_token_ids.deep_view() == m.token_ids.deep_view()
            &&& r->Partial_logprobs is None
        },
{
    let view = r.deep_view();
    assert(view->Partial_token_ids == r->Partial_token_ids.deep_view());
    assert(view->Partial_logprobs == r->Partial_logprobs.deep_view());
}

/// Each log probability is that of the token at its place.
pub open spec fn tells_logprobs(
    items: Seq<TokenLogprobView>,
    lp: SglangOutputLogProbsView,
) -> bool {
    &&& items.len() <= lp.token_ids.len()
    &&& items.len() <= lp.token_logprobs.len()
    &&& items.len() == lp.token_ids.len() || items.len() == lp.token_logprobs.len()
    &&& forall|i: int|
        0 <= i < items.len() ==> {
            &&& (#[trigger] items[i]).token_id == lp.token_ids[i] as u32
            &&& items[i].logprob == lp.token_logprobs[i]
            &&& tells_top(items[i].top, lp.top_logprobs, i)
        }
}

/// The most likely tokens at a place are those that were given for it.
pub open spec fn tells_top(
    top: Seq<(u32, F32, Option<Seq<char>>)>,
    given: Seq<TopLogProbsView>,
    i: int,
) -> bool {
    &&& i >= given.len() ==> top.len() == 0
    &&& 0 <= i < given.len() ==> {
        &&& top.len() <= given[i].token_ids.len()
        &&& top.len() <= given[i].values.len()
        &&& top.len() == given[i].token_ids.len() || top.len() == given[i].values.len()
        &&& forall|j: int|
            0 <= j < top.len() ==> (#[trigger] top[j]).0 == given[i].token_ids[j] as u32 && top[j].1
                == given[i].values[j]
    }
}

/// A count that is below zero counts as zero, any other stays.
pub open spec fn counts_as(count: int, told: u32) -> bool {
    if count < 0 {
        told == 0
    } else {
        told == count
    }
}

/// The end of an answer has the tokens, the counts and what stopped it from the message that
/// it was made of. All that was used is the prompt and the completion together.
pub proof fn law_complete_tells_what_its_message_says(
    complete: ProtoGenerateComplete,
    r: TokenChunk,
)
    requires
        call_ensures(proto_complete_to_chunk, (complete,), r),
    ensures
        r is Complete,
        ({
            let usage = r->Complete_usage;
            &&& usage.total_tokens == usage.prompt_tokens + usage.completion_tokens
            &&& r->Complete_meta.weight_version is None
            &&& r->Complete_meta.request_id@.len() == 0
        }),
        complete matches ProtoGenerateComplete::Sglang(m) ==> {
            &&& r->Complete_token_ids.deep_view() == m.output_ids.deep_view()
            &&& counts_as(m.prompt_tokens as int, r->Complete_usage.prompt_tokens)
            &&& counts_as(m.completion_tokens as int, r->Complete_usage.completion_tokens)
            &&& counts_as(m.cached_tokens as int, r->Complete_meta.cached_tokens)
            &&& names_reason(m.finish_reason@, r->Complete_finish_reason)
            &&& r->Complete_matched_stop is Some == m.matched_stop is Some
            &&& m.matched_stop matches Some(SglangMatchedStop::MatchedStopStr(s)) ==> (
            r->Complete_matched_stop->0 matches MatchedStop::Str(t) && t@ == s@)
            &&& m.matched_stop matches Some(SglangMatchedStop::MatchedTokenId(id)) ==> (
            r->Complete_matched_stop->0 matches MatchedStop::TokenId(t) && t == id)
            &&& r->Complete_logprobs is Some == m.output_logprobs is Some
            &&& m.output_logprobs matches Some(lp) ==> tells_logprobs(
                r->Complete_logprobs.deep_view()->0.items,
                lp.deep_view(),
            )
            &&& r->Complete_input_logprobs is Some == m.input_logprobs is Some
            &&& m.input_logprobs matches Some(lp) ==> tells_input_logprobs(
                r->Complete_input_logprobs.deep_view()->0.items,
                lp.deep_view(),
            )
        },
        complete matches ProtoGenerateComplete::Vllm(m) ==> {
            &&& r->Complete_token_ids.deep_view() == m.output_ids.deep_view()
            &&& m.prompt_tokens <= i32::MAX ==> r->Complete_usage.prompt_tokens == m.prompt_tokens
            &&& m.completion_tokens <= i32::MAX ==> r->Complete_usage.completion_tokens
                == m.completion_tokens
            &&& m.cached_tokens <= i32::MAX ==> r->Complete_meta.cached_tokens == m.cached_tokens
            &&& names_reason(m.finish_reason@, r->Complete_finish_reason)
            &&& r->Complete_matched_stop is None
            &&& r->Complete_logprobs is None
            &&& r->Complete_input_logprobs is None
        },
{
    let view = r.deep_view();
    assert(view->Complete_token_ids == r->Complete_token_ids.deep_view());
    assert(view->Complete_finish_reason == r->Complete_finish_reason.deep_view());
    assert(view->Complete_matched_stop == r->Complete_matched_stop.deep_view());
    assert(view->Complete_usage == r->Complete_usage);
    assert(view->Complete_logprobs == r->Complete_logprobs.deep_view());
    assert(view->Complete_input_logprobs == r->Complete_input_logprobs.deep_view());
    assert(view->Complete_meta == r->Complete_meta.deep_view());
    let said = match complete {
        ProtoGenerateComplete::Sglang(m) => m.finish_reason@,
        ProtoGenerateComplete::Vllm(m) => m.finish_reason@,
    };
    lemma_reason_names();
    assert(names_reason(said, r->Complete_finish_reason));
}

/// Each log probability of the prompt is that of the token at its place. One that is missing
/// counts as zero.
pub open spec fn tells_input_logprobs(
    items: Seq<TokenLogprobView>,
    lp: SglangInputLogProbsView,
) -> bool {
    &&& items.len() <= lp.token_ids.len()
    &&& items.len() <= lp.token_logprobs.len()
    &&& items.len() == lp.token_ids.len() || items.len() == lp.token_logprobs.len()
    &&& forall|i: int|
        0 <= i < items.len() ==> {
            &&& (#[trigger] items[i]).token_id == lp.token_ids[i] as u32
            &&& lp.token_logprobs[i].value matches Some(v) ==> items[i].logprob == v
            &&& lp.token_logprobs[i].value is None ==> items[i].logprob.bits == 0
            &&& tells_top(items[i].top, lp.top_logprobs, i)
        }
}

/// The reason is the one that goes by this name. An empty name stands for a stop, and one
/// that is unknown is kept.
pub open spec fn names_reason(said: Seq<char>, reason: FinishReason) -> bool {
    match reason {
        FinishReason::Stop => said == "stop"@ || said.len() == 0,
        FinishReason::Length => said == "length"@,
        FinishReason::ContentFilter => said == "content_filter"@,
        FinishReason::ToolCalls => said == "tool_calls"@,
        FinishReason::Abort => said == "abort"@,
        FinishReason::Other(kept) => {
            &&& kept@ == said
            &&& said.len() > 0
            &&& said != "stop"@
            &&& said != "length"@
            &&& said != "content_filter"@
            &&& said != "tool_calls"@
            &&& said != "abort"@
        },
    }
}

proof fn lemma_reason_names()
    ensures
        "stop"@.len() == 4,
        "length"@.len() == 6,
        "content_filter"@.len() == 14,
        "tool_calls"@.len() == 10,
        "abort"@.len() == 5,
{
    reveal_strlit("stop");
    reveal_strlit("length");
    reveal_strlit("content_filter");
    reveal_strlit("tool_calls");
    reveal_strlit("abort");
}

/// A finish reason is the one of its name, a matched stop is the one that was matched, and the
/// log probabilities are those of the tokens at their places.
pub proof fn law_parts_of_a_message_are_kept(
    said: &str,
    reason: FinishReason,
    stop: &SglangMatchedStop,
    matched: MatchedStop,
    output: &SglangOutputLogProbs,
    output_told: TokenLogprobs,
    input: &SglangInputLogProbs,
    input_told: InputLogprobs,
)
    requires
        call_ensures(parse_finish_reason, (said,), reason),
        call_ensures(map_sglang_matched_stop, (stop,), matched),
        call_ensures(sglang_output_to_token_logprobs, (output,), output_told),
        call_ensures(sglang_input_to_input_logprobs, (input,), input_told),
    ensures
        names_reason(said@, reason),
        *stop matches SglangMatchedStop::MatchedStopStr(s) ==> (matched matches MatchedStop::Str(t)
            && t@ == s@),
        *stop matches SglangMatchedStop::MatchedTokenId(id) ==> matched == MatchedStop::TokenId(
            id,
        ),
        tells_logprobs(output_told.items.deep_view(), output.deep_view()),
        tells_input_logprobs(input_told.items.deep_view(), input.deep_view()),
{
    lemma_reason_names();
    assert(output_told.deep_view().items == output_told.items.deep_view());
    assert(input_told.deep_view().items == input_told.items.deep_view());
}

} // verus!
