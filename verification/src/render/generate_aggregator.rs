//! From a token stream to the whole answer of the generation endpoint.

use vstd::prelude::*;
use vstd::string::StringExecFns;

use super::logprob_conversion;
use super::logprob_conversion::input_logprobs_to_generate;
use super::logprob_conversion::output_logprobs_to_generate;
use crate::comm::error;
use crate::comm::error::ErrorResponse;
use crate::duplicate::Duplicate;
use crate::json::Json;
use crate::json::JsonView;
use crate::prepare::response_context::ProtocolRequest;
use crate::protocols::generate::GenerateFinishReason;
use crate::protocols::generate::GenerateFinishReasonView;
use crate::protocols::generate::GenerateMetaInfo;
use crate::protocols::generate::GenerateMetaInfoView;
use crate::protocols::generate::GenerateResponse;
use crate::protocols::generate::GenerateResponseView;
use crate::protocols::generate::LogprobEntry;
use crate::text;
use crate::token_handle::engine_error::EngineError;
use crate::token_handle::token_chunk::FinishReason;
use crate::token_handle::token_chunk::FinishReasonView;
use crate::token_handle::token_chunk::MatchedStop;
use crate::token_handle::token_chunk::MatchedStopView;
use crate::token_handle::token_chunk::TokenChunk;
use crate::token_handle::token_chunk::TokenChunkView;
use crate::token_handle::token_handle;
use crate::token_handle::token_handle::StreamPoll;
use crate::token_handle::token_handle::TokenHandle;
use crate::token_handle::token_handle::TokenSource;

verus! {

/// A step of a stop-sequence decoder.
#[derive(Debug)]
pub enum SequenceDecoderOutput {
    /// More text.
    Text(String),
    /// The last text: a stop was met.
    StoppedWithText(String),
    /// A stop was met.
    Stopped,
    /// Text that may yet turn out to begin a stop is held back.
    Held,
}

/// What a stop-sequence decoder made of the tokens of an answer: its steps, or what went
/// wrong, and what it gave up at the end of what it had held back.
#[derive(Debug)]
pub struct DecodedTokens {
    pub outputs: Result<Vec<SequenceDecoderOutput>, String>,
    pub flushed: SequenceDecoderOutput,
}

/// The text of the steps of a decoder, up to the first stop.
pub open spec fn text_until_stop(outputs: Seq<SequenceDecoderOutput>) -> Seq<char>
    decreases outputs.len(),
{
    if outputs.len() == 0 {
        Seq::empty()
    } else {
        match outputs[0] {
            SequenceDecoderOutput::Text(t) => t@ + text_until_stop(outputs.skip(1)),
            SequenceDecoderOutput::StoppedWithText(t) => t@,
            SequenceDecoderOutput::Stopped => Seq::empty(),
            SequenceDecoderOutput::Held => text_until_stop(outputs.skip(1)),
        }
    }
}

/// The text that was held back.
pub open spec fn flushed_text(flushed: SequenceDecoderOutput) -> Seq<char> {
    match flushed {
        SequenceDecoderOutput::Text(t) => t@,
        _ => Seq::empty(),
    }
}

/// The text of an answer: that of the decoder's steps up to the first stop, and what it
/// had held back.
pub fn decoded_text(outputs: &Vec<SequenceDecoderOutput>, flushed: &SequenceDecoderOutput) -> (r:
    String)
    ensures
        r@ == text_until_stop(outputs@) + flushed_text(*flushed),
{
    let mut out = String::new();
    let mut i: usize = 0;
    let mut stopped = false;
    assert(outputs@.skip(0) =~= outputs@);
    while i < outputs.len() && !stopped
        invariant
            i <= outputs@.len(),
            text_until_stop(outputs@) == out@ + (if stopped {
                Seq::empty()
            } else {
                text_until_stop(outputs@.skip(i as int))
            }),
        decreases outputs@.len() - i,
    {
        let ghost said = out@;
        let ghost rest = text_until_stop(outputs@.skip(i + 1));
        assert(outputs@.skip(i as int)[0] == outputs@[i as int]);
        assert(outputs@.skip(i as int).skip(1) =~= outputs@.skip(i + 1));
        match &outputs[i] {
            SequenceDecoderOutput::Text(t) => {
                out.append(t.as_str());
                assert(said + (t@ + rest) =~= (said + t@) + rest);
            },
            SequenceDecoderOutput::StoppedWithText(t) => {
                out.append(t.as_str());
                stopped = true;
                assert(out@ + Seq::empty() =~= out@);
            },
            SequenceDecoderOutput::Stopped => {
                stopped = true;
            },
            SequenceDecoderOutput::Held => {},
        }
        i = i + 1;
    }
    assert(out@ + Seq::empty() =~= out@);
    match flushed {
        SequenceDecoderOutput::Text(t) => {
            out.append(t.as_str());
        },
        _ => {},
    }
    assert(out@ =~= text_until_stop(outputs@) + flushed_text(*flushed));
    out
}

/// How the generation endpoint tells why generation ended.
pub open spec fn finish_view(
    reason: FinishReasonView,
    completion_tokens: u32,
) -> GenerateFinishReasonView {
    match reason {
        FinishReasonView::Stop => GenerateFinishReasonView::Stop,
        FinishReasonView::Length => GenerateFinishReasonView::Length { length: completion_tokens },
        FinishReasonView::ContentFilter => GenerateFinishReasonView::Other(
            JsonView::Str("content_filter"@),
        ),
        FinishReasonView::ToolCalls => GenerateFinishReasonView::Other(
            JsonView::Str("tool_calls"@),
        ),
        FinishReasonView::Abort => GenerateFinishReasonView::Other(JsonView::Str("abort"@)),
        FinishReasonView::Other(s) => GenerateFinishReasonView::Other(JsonView::Str(s)),
    }
}

pub fn finish_reason_to_generate(reason: &FinishReason, completion_tokens: u32) -> (r:
    GenerateFinishReason)
    ensures
        r@ == finish_view(reason.deep_view(), completion_tokens),
{
    match reason {
        FinishReason::Stop => GenerateFinishReason::Stop,
        FinishReason::Length => GenerateFinishReason::Length { length: completion_tokens },
        FinishReason::ContentFilter => GenerateFinishReason::Other(Json::string("content_filter")),
        FinishReason::ToolCalls => GenerateFinishReason::Other(Json::string("tool_calls")),
        FinishReason::Abort => GenerateFinishReason::Other(Json::string("abort")),
        FinishReason::Other(s) => GenerateFinishReason::Other(Json::string(s.as_str())),
    }
}

/// The error response that tells of an engine's failure.
pub open spec fn tells_of(r: ErrorResponse, err: EngineError) -> bool {
    match err {
        EngineError::Transport(s) => r.is(
            503,
            "engine_transport_error"@,
            "transport error: "@ + s.text(),
        ),
        EngineError::Prefill(m) => r.is(500, "engine_prefill_error"@, "prefill error: "@ + m@),
        EngineError::DecodeError(m) => r.is(500, "engine_decode_error"@, "decode error: "@ + m@),
        EngineError::PrefillEarlyClose => r.is(
            500,
            "engine_prefill_early_close"@,
            "prefill stream closed without Complete"@,
        ),
        EngineError::DecodeIncomplete => r.is(
            500,
            "engine_decode_incomplete"@,
            "decode stream closed without Complete"@,
        ),
        EngineError::ConnectionAcquireFailed(m) => r.is(503, "engine_connection_failed"@, m@),
        EngineError::RequestBuildFailed(m) => r.is(400, "engine_request_build_failed"@, m@),
    }
}

/// A transport that fails and a worker that cannot be reached are the service's trouble,
/// a request that cannot be built is the client's, anything else is an internal error.
pub fn engine_error_to_response(err: EngineError) -> (r: ErrorResponse)
    ensures
        tells_of(r, err),
{
    match err {
        EngineError::Transport(s) => error::service_unavailable(
            "engine_transport_error",
            text::join2("transport error: ", s.to_string().as_str()),
        ),
        EngineError::Prefill(m) => error::internal_error(
            "engine_prefill_error",
            text::join2("prefill error: ", m.as_str()),
        ),
        EngineError::DecodeError(m) => error::internal_error(
            "engine_decode_error",
            text::join2("decode error: ", m.as_str()),
        ),
        EngineError::PrefillEarlyClose => error::internal_error(
            "engine_prefill_early_close",
            "prefill stream closed without Complete".to_owned(),
        ),
        EngineError::DecodeIncomplete => error::internal_error(
            "engine_decode_incomplete",
            "decode stream closed without Complete".to_owned(),
        ),
        EngineError::ConnectionAcquireFailed(m) => error::service_unavailable(
            "engine_connection_failed",
            m,
        ),
        EngineError::RequestBuildFailed(m) => error::bad_request("engine_request_build_failed", m),
    }
}

/// The finished answers among what a stream gave, in order.
pub open spec fn completes(polls: Seq<StreamPoll>) -> Seq<TokenChunk>
    decreases polls.len(),
{
    if polls.len() == 0 {
        Seq::empty()
    } else {
        match polls.last() {
            StreamPoll::Item(Ok(chunk)) => if chunk is Complete {
                completes(polls.drop_last()).push(chunk)
            } else {
                completes(polls.drop_last())
            },
            _ => completes(polls.drop_last()),
        }
    }
}

/// How far the collecting of a stream has come.
#[derive(Debug)]
pub enum Collected {
    /// Nothing is ready; the stream is to be polled again.
    Pending,
    /// The stream has ended cleanly.
    Whole,
    /// The stream has failed.
    Failed(ErrorResponse),
}

/// Takes what is ready of a stream, keeping the finished answers. A stream that ends is
/// told that it completed cleanly; one that fails is not.
pub fn collect_completes<S: TokenSource>(
    stream: &mut TokenHandle<S>,
    kept: &mut Vec<TokenChunk>,
) -> (r: Collected)
    requires
        old(stream).source.valid(),
    ensures
        final(stream).source.valid(),
        ({
            let before = old(stream).source.log();
            let after = final(stream).source.log();
            let polls = after.skip(before.len() as int);
            &&& before.is_prefix_of(after)
            &&& before.len() < after.len()
            &&& token_handle::gave(old(stream).source, polls, final(stream).source)
            &&& forall|i: int|
                before.len() <= i < after.len() - 1 ==> ((#[trigger] after[i]) matches StreamPoll::Item(
                    Ok(_),
                ))
            &&& final(kept)@ == old(kept)@ + completes(polls)
            &&& match after.last() {
                StreamPoll::Pending => r is Pending,
                StreamPoll::Closed => r is Whole,
                StreamPoll::Item(Ok(_)) => false,
                StreamPoll::Item(Err(e)) => r matches Collected::Failed(response) && tells_of(
                    response,
                    e,
                ),
            }
        }),
        final(stream).source.completed() == (r is Whole || old(stream).source.completed()),
{
    let ghost before = stream.source.log();
    assert(before.skip(before.len() as int) =~= Seq::empty());
    assert(kept@ + Seq::<TokenChunk>::empty() =~= kept@);
    loop
        invariant
            stream.source.valid(),
            before == old(stream).source.log(),
            before.is_prefix_of(stream.source.log()),
            token_handle::gave(
                old(stream).source,
                stream.source.log().skip(before.len() as int),
                stream.source,
            ),
            forall|i: int|
                before.len() <= i < stream.source.log().len() ==> ((
                #[trigger] stream.source.log()[i]) matches StreamPoll::Item(Ok(_))),
            kept@ == old(kept)@ + completes(stream.source.log().skip(before.len() as int)),
            stream.source.completed() == old(stream).source.completed(),
        decreases stream.source.budget(),
    {
        let ghost so_far = stream.source.log();
        let ghost given = stream.source;
        let polled = stream.poll_next();
        proof {
            let n = before.len() as int;
            let after = stream.source.log();
            token_handle::lemma_gave_more(
                old(stream).source,
                so_far.skip(n),
                given,
                polled,
                stream.source,
            );
            assert(after.skip(n) =~= so_far.skip(n).push(polled));
            assert(after.skip(n).drop_last() =~= so_far.skip(n));
            assert(after.skip(n).last() == polled);
            assert(before =~= after.take(n));
        }
        match polled {
            StreamPoll::Pending => {
                return Collected::Pending;
            },
            StreamPoll::Closed => {
                stream.mark_completed();
                return Collected::Whole;
            },
            StreamPoll::Item(Err(e)) => {
                return Collected::Failed(engine_error_to_response(e));
            },
            StreamPoll::Item(Ok(chunk)) => {
                if let TokenChunk::Complete { .. } = &chunk {
                    kept.push(chunk);
                    assert(kept@ =~= old(kept)@ + completes(
                        so_far.skip(before.len() as int),
                    ).push(chunk));
                }
            },
        }
    }
}

/// What generation stopped at, as JSON.
pub open spec fn stop_view(stop: Option<MatchedStopView>) -> Option<JsonView> {
    match stop {
        Some(MatchedStopView::Str(s)) => Some(JsonView::Str(s)),
        Some(MatchedStopView::TokenId(t)) => Some(JsonView::Number(text::decimal(t as nat))),
        None => None,
    }
}

/// The answer that is made of a finished stream and the text of its tokens. Log
/// probabilities are told where they were asked for.
pub open spec fn answer_view(
    chunk: TokenChunkView,
    said: Seq<char>,
    request_id: Seq<char>,
    return_logprob: bool,
) -> GenerateResponseView
    recommends
        chunk is Complete,
{
    GenerateResponseView {
        text: said,
        output_ids: chunk->Complete_token_ids,
        meta_info: GenerateMetaInfoView {
            id: request_id,
            finish_reason: finish_view(
                chunk->finish_reason,
                chunk->usage.completion_tokens,
            ),
            prompt_tokens: chunk->usage.prompt_tokens,
            weight_version: match chunk->meta.weight_version {
                Some(version) => version,
                None => "default"@,
            },
            input_token_logprobs: match chunk->input_logprobs {
                Some(lp) if return_logprob => Some(logprob_conversion::entries(lp.items)),
                _ => None,
            },
            output_token_logprobs: match chunk->Complete_logprobs {
                Some(lp) if return_logprob => Some(logprob_conversion::entries(lp.items)),
                _ => None,
            },
            completion_tokens: chunk->usage.completion_tokens,
            cached_tokens: chunk->meta.cached_tokens,
            matched_stop: stop_view(chunk->matched_stop),
        },
    }
}

/// The answer that is made of a finished stream and the text of its tokens; of an
/// unfinished one none is made.
pub fn answer(
    chunk: &TokenChunk,
    said: String,
    request_id: &str,
    return_logprob: bool,
) -> (r: Option<GenerateResponse>)
    ensures
        match r {
            Some(a) => {
                &&& chunk is Complete
                &&& a.deep_view() == answer_view(
                    chunk.deep_view(),
                    said@,
                    request_id@,
                    return_logprob,
                )
            },
            None => chunk is Partial,
        },
{
    match chunk {
        TokenChunk::Partial { .. } => None,
        TokenChunk::Complete {
            token_ids,
            finish_reason,
            matched_stop,
            usage,
            logprobs,
            input_logprobs,
            meta,
        } => {
            let output_ids = token_ids.duplicate();
            assert(output_ids@ =~= output_ids.deep_view());
            assert(token_ids@ =~= token_ids.deep_view());
            let weight_version = match &meta.weight_version {
                Some(version) => version.clone(),
                None => "default".to_owned(),
            };
            let input_token_logprobs: Option<Vec<LogprobEntry>> = match input_logprobs {
                Some(lp) if return_logprob => Some(input_logprobs_to_generate(lp)),
                _ => None,
            };
            let output_token_logprobs: Option<Vec<LogprobEntry>> = match logprobs {
                Some(lp) if return_logprob => Some(output_logprobs_to_generate(lp)),
                _ => None,
            };
            let matched_stop = match matched_stop {
                Some(MatchedStop::Str(s)) => Some(Json::string(s.as_str())),
                Some(MatchedStop::TokenId(t)) => Some(Json::uint(*t as u64)),
                None => None,
            };
            Some(
                GenerateResponse {
                    text: said,
                    output_ids,
                    meta_info: GenerateMetaInfo {
                        id: request_id.to_owned(),
                        finish_reason: finish_reason_to_generate(
                            finish_reason,
                            usage.completion_tokens,
                        ),
                        prompt_tokens: usage.prompt_tokens,
                        weight_version,
                        input_token_logprobs,
                        output_token_logprobs,
                        completion_tokens: usage.completion_tokens,
                        cached_tokens: meta.cached_tokens,
                        matched_stop,
                    },
                },
            )
        },
    }
}

/// Whether log probabilities were asked for.
pub open spec fn wants_logprobs(original: ProtocolRequest) -> bool {
    match original {
        ProtocolRequest::Generate(req) => req.return_logprob == Some(true),
        ProtocolRequest::Chat(_) => false,
    }
}

/// A request that is not one for generation ends here, before its stream is touched.
pub fn expect_generate(original: &ProtocolRequest) -> (r: Result<(), ErrorResponse>)
    ensures
        match r {
            Ok(()) => original is Generate,
            Err(e) => original is Chat && e.is(
                500,
                "wrong_render_path"@,
                "generate_aggregator invoked with a chat request"@,
            ),
        },
{
    match original {
        ProtocolRequest::Generate(_) => Ok(()),
        ProtocolRequest::Chat(_) => Err(
            error::internal_error(
                "wrong_render_path",
                "generate_aggregator invoked with a chat request".to_owned(),
            ),
        ),
    }
}

/// The first decoding that went wrong, of a finished answer.
pub open spec fn first_failure(chunks: Seq<TokenChunk>, decoded: Seq<DecodedTokens>) -> Option<
    Seq<char>,
>
    decreases chunks.len(),
{
    if chunks.len() == 0 {
        None
    } else {
        match first_failure(chunks.drop_last(), decoded) {
            Some(e) => Some(e),
            None => match decoded[chunks.len() - 1].outputs {
                Err(e) if chunks.last() is Complete => Some(e@),
                _ => None,
            },
        }
    }
}

/// The answers that are made of the finished streams, in order.
pub open spec fn answers(
    chunks: Seq<TokenChunk>,
    decoded: Seq<DecodedTokens>,
    request_id: Seq<char>,
    return_logprob: bool,
) -> Seq<GenerateResponseView>
    decreases chunks.len(),
{
    if chunks.len() == 0 {
        Seq::empty()
    } else {
        let before = answers(chunks.drop_last(), decoded, request_id, return_logprob);
        if chunks.last() is Complete {
            let d = decoded[chunks.len() - 1];
            before.push(
                answer_view(
                    chunks.last().deep_view(),
                    text_until_stop(d.outputs->Ok_0@) + flushed_text(d.flushed),
                    request_id,
                    return_logprob,
                ),
            )
        } else {
            before
        }
    }
}

/// Of a stream whose decodings all went well, every finished answer is told, once and in
/// order, and with its own token ids.
pub proof fn law_one_answer_each(
    polls: Seq<StreamPoll>,
    decoded: Seq<DecodedTokens>,
    request_id: Seq<char>,
    return_logprob: bool,
)
    ensures
        ({
            let chunks = completes(polls);
            let told = answers(chunks, decoded, request_id, return_logprob);
            &&& told.len() == chunks.len()
            &&& forall|i: int|
                0 <= i < chunks.len() ==> (#[trigger] told[i]).output_ids
                    == chunks[i].deep_view()->Complete_token_ids
        }),
{
    lemma_completes(polls);
    lemma_answers(completes(polls), decoded, request_id, return_logprob);
}

proof fn lemma_completes(polls: Seq<StreamPoll>)
    ensures
        forall|i: int| 0 <= i < completes(polls).len() ==> (#[trigger] completes(polls)[i]) is Complete,
    decreases polls.len(),
{
    if polls.len() > 0 {
        lemma_completes(polls.drop_last());
    }
}

proof fn lemma_answers(
    chunks: Seq<TokenChunk>,
    decoded: Seq<DecodedTokens>,
    request_id: Seq<char>,
    return_logprob: bool,
)
    requires
        forall|i: int| 0 <= i < chunks.len() ==> (#[trigger] chunks[i]) is Complete,
    ensures
        ({
            let told = answers(chunks, decoded, request_id, return_logprob);
            &&& told.len() == chunks.len()
            &&& forall|i: int|
                0 <= i < chunks.len() ==> (#[trigger] told[i]).output_ids
                    == chunks[i].deep_view()->Complete_token_ids
        }),
    decreases chunks.len(),
{
    if chunks.len() > 0 {
        lemma_answers(chunks.drop_last(), decoded, request_id, return_logprob);
        assert(chunks[chunks.len() - 1] is Complete);
    }
}

/// A prefix without failure does not hide one, and a failure stays the first.
proof fn lemma_first_failure(chunks: Seq<TokenChunk>, decoded: Seq<DecodedTokens>, n: int)
    requires
        0 <= n <= chunks.len(),
        first_failure(chunks.take(n), decoded) is Some,
    ensures
        first_failure(chunks, decoded) == first_failure(chunks.take(n), decoded),
    decreases chunks.len() - n,
{
    if n < chunks.len() {
        assert(chunks.take(n + 1).drop_last() =~= chunks.take(n));
        lemma_first_failure(chunks, decoded, n + 1);
    } else {
        assert(chunks.take(n) =~= chunks);
    }
}

/// The answers to a request for generation, from the finished streams and what the
/// stop-sequence decoder made of the tokens of each.
pub fn process(
    original: &ProtocolRequest,
    request_id: &str,
    chunks: &Vec<TokenChunk>,
    decoded: &Vec<DecodedTokens>,
) -> (r: Result<Vec<GenerateResponse>, ErrorResponse>)
    requires
        decoded@.len() == chunks@.len(),
    ensures
        match r {
            Ok(list) => {
                &&& original is Generate
                &&& chunks@.len() > 0
                &&& first_failure(chunks@, decoded@) is None
                &&& list.deep_view() == answers(
                    chunks@,
                    decoded@,
                    request_id@,
                    wants_logprobs(*original),
                )
            },
            Err(e) => {
                ||| original is Chat && e.is(
                    500,
                    "wrong_render_path"@,
                    "generate_aggregator invoked with a chat request"@,
                )
                ||| original is Generate && chunks@.len() == 0 && e.is(
                    500,
                    "no_responses_from_server"@,
                    "No responses from server"@,
                )
                ||| original is Generate && chunks@.len() > 0 && (first_failure(
                    chunks@,
                    decoded@,
                ) matches Some(m) && e.is(
                    500,
                    "process_tokens_failed"@,
                    "Failed to process tokens: "@ + m,
                ))
            },
        },
{
    expect_generate(original)?;
    if chunks.len() == 0 {
        return Err(
            error::internal_error(
                "no_responses_from_server",
                "No responses from server".to_owned(),
            ),
        );
    }
    let return_logprob = match original {
        ProtocolRequest::Generate(req) => match req.return_logprob {
            Some(b) => b,
            None => false,
        },
        ProtocolRequest::Chat(_) => false,
    };
    let mut list: Vec<GenerateResponse> = Vec::new();
    assert(list.deep_view() =~= Seq::empty());
    for i in 0..chunks.len()
        invariant
            decoded@.len() == chunks@.len(),
            chunks@.len() > 0,
            original is Generate,
            first_failure(chunks@.take(i as int), decoded@) is None,
            list.deep_view() == answers(
                chunks@.take(i as int),
                decoded@,
                request_id@,
                return_logprob,
            ),
    {
        let ghost upto = chunks@.take(i + 1);
        assert(upto.drop_last() =~= chunks@.take(i as int));
        assert(upto.last() == chunks@[i as int]);
        if let TokenChunk::Complete { .. } = &chunks[i] {
            let said = match &decoded[i].outputs {
                Ok(outputs) => decoded_text(outputs, &decoded[i].flushed),
                Err(e) => {
                    proof {
                        lemma_first_failure(chunks@, decoded@, i + 1);
                    }
                    return Err(
                        error::internal_error(
                            "process_tokens_failed",
                            text::join2("Failed to process tokens: ", e.as_str()),
                        ),
                    );
                },
            };
            let ghost before = list.deep_view();
            if let Some(a) = answer(&chunks[i], said, request_id, return_logprob) {
                list.push(a);
                assert(list.deep_view() =~= before.push(a.deep_view()));
            }
        }
    }
    assert(chunks@.take(chunks@.len() as int) =~= chunks@);
    Ok(list)
}

/// Whether the generation endpoint tells this reason: stops and lengths as such, any other by
/// its name.
pub open spec fn tells_reason(
    told: GenerateFinishReason,
    reason: FinishReason,
    completion_tokens: u32,
) -> bool {
    match told {
        GenerateFinishReason::Stop => reason is Stop,
        GenerateFinishReason::Length { length } => reason is Length && length == completion_tokens,
        GenerateFinishReason::Other(v) => match reason {
            FinishReason::Stop => false,
            FinishReason::Length => false,
            FinishReason::ContentFilter => v@ == JsonView::Str("content_filter"@),
            FinishReason::ToolCalls => v@ == JsonView::Str("tool_calls"@),
            FinishReason::Abort => v@ == JsonView::Str("abort"@),
            FinishReason::Other(name) => v@ == JsonView::Str(name@),
        },
    }
}

/// The answer of the generation endpoint tells what the worker told: its tokens, its counts, why
/// and where it stopped and, where they were asked for, its log probabilities.
pub proof fn law_answer_tells_what_the_worker_told(
    chunk: &TokenChunk,
    said: String,
    request_id: &str,
    return_logprob: bool,
    r: Option<GenerateResponse>,
)
    requires
        call_ensures(answer, (chunk, said, request_id, return_logprob), r),
    ensures
        r is Some == *chunk is Complete,
        *chunk matches TokenChunk::Complete {
            token_ids,
            finish_reason,
            matched_stop,
            usage,
            logprobs,
            input_logprobs,
            meta,
        } ==> {
            let a = r->0;
            let info = a.meta_info;
            &&& a.text@ == said@
            &&& a.output_ids@ == token_ids.deep_view()
            &&& info.id@ == request_id@
            &&& tells_reason(info.finish_reason, finish_reason, usage.completion_tokens)
            &&& info.prompt_tokens == usage.prompt_tokens
            &&& info.completion_tokens == usage.completion_tokens
            &&& info.cached_tokens == meta.cached_tokens
            &&& meta.weight_version matches Some(v) ==> info.weight_version@ == v@
            &&& meta.weight_version is None ==> info.weight_version@ == "default"@
            &&& info.output_token_logprobs is Some == (return_logprob && logprobs is Some)
            &&& info.output_token_logprobs is Some ==> logprob_conversion::tell_each(
                info.output_token_logprobs->0@,
                logprobs->0.items@,
            )
            &&& info.input_token_logprobs is Some == (return_logprob && input_logprobs is Some)
            &&& info.input_token_logprobs is Some ==> logprob_conversion::tell_each(
                info.input_token_logprobs->0@,
                input_logprobs->0.items@,
            )
            &&& info.matched_stop is Some == matched_stop is Some
            &&& matched_stop matches Some(MatchedStop::Str(s)) ==> info.matched_stop->0@
                == JsonView::Str(s@)
            &&& matched_stop matches Some(MatchedStop::TokenId(t)) ==> info.matched_stop->0@
                == JsonView::Number(text::decimal(t as nat))
        },
{
    if let TokenChunk::Complete {
        token_ids,
        finish_reason,
        matched_stop,
        usage,
        logprobs,
        input_logprobs,
        meta,
    } = *chunk {
        let view = chunk.deep_view();
        assert(view->finish_reason == finish_reason.deep_view());
        assert(view->matched_stop == matched_stop.deep_view());
        assert(view->meta == meta.deep_view());
        assert(view->Complete_logprobs == logprobs.deep_view());
        assert(view->input_logprobs == input_logprobs.deep_view());
        if let Some(lp) = logprobs {
            logprob_conversion::lemma_entries_tell_each(lp.items);
        }
        if let Some(lp) = input_logprobs {
            logprob_conversion::lemma_entries_tell_each(lp.items);
        }
        let told = r->0.deep_view();
        assert(told.meta_info.finish_reason == r->0.meta_info.finish_reason@);
        assert(told == answer_view(view, said@, request_id@, return_logprob));
    }
}

/// Whether one of the steps of a decoder met a stop.
pub open spec fn has_stopped(outputs: Seq<SequenceDecoderOutput>) -> bool {
    exists|i: int|
        0 <= i < outputs.len() && (#[trigger] outputs[i] is Stopped || outputs[i] is StoppedWithText)
}

proof fn lemma_one_more_step(outputs: Seq<SequenceDecoderOutput>, next: SequenceDecoderOutput)
    ensures
        text_until_stop(outputs.push(next)) == text_until_stop(outputs) + (if has_stopped(outputs) {
            Seq::empty()
        } else {
            match next {
                SequenceDecoderOutput::Text(t) => t@,
                SequenceDecoderOutput::StoppedWithText(t) => t@,
                _ => Seq::empty(),
            }
        }),
    decreases outputs.len(),
{
    let all = outputs.push(next);
    if outputs.len() == 0 {
        assert(all[0] == next);
        assert(all.skip(1) =~= Seq::empty());
        assert(text_until_stop(all.skip(1)) == Seq::<char>::empty());
        assert(text_until_stop(all) =~= text_until_stop(outputs) + (match next {
            SequenceDecoderOutput::Text(t) => t@,
            SequenceDecoderOutput::StoppedWithText(t) => t@,
            _ => Seq::empty(),
        }));
    } else {
        let rest = outputs.skip(1);
        lemma_one_more_step(rest, next);
        assert(all.skip(1) =~= rest.push(next));
        assert(all[0] == outputs[0]);
        if has_stopped(rest) {
            let i = choose|i: int|
                0 <= i < rest.len() && (#[trigger] rest[i] is Stopped
                    || rest[i] is StoppedWithText);
            assert(outputs[i + 1] == rest[i]);
        }
        if has_stopped(outputs) {
            let i = choose|i: int|
                0 <= i < outputs.len() && (#[trigger] outputs[i] is Stopped
                    || outputs[i] is StoppedWithText);
            if i > 0 {
                assert(rest[i - 1] == outputs[i]);
            }
        }
        let first = outputs[0];
        if first is Stopped || first is StoppedWithText {
            assert(has_stopped(outputs));
            assert(text_until_stop(outputs) + Seq::empty() =~= text_until_stop(outputs));
        } else {
            assert(has_stopped(outputs) == has_stopped(rest));
            assert(text_until_stop(all) =~= text_until_stop(outputs) + (if has_stopped(outputs) {
                Seq::empty()
            } else {
                match next {
                    SequenceDecoderOutput::Text(t) => t@,
                    SequenceDecoderOutput::StoppedWithText(t) => t@,
                    _ => Seq::empty(),
                }
            }));
        }
    }
}

/// The text of an answer grows by the text of each step of its decoder until a stop is met, and
/// by none after that. What was held back comes last.
pub proof fn law_text_grows_until_a_stop(
    outputs: &Vec<SequenceDecoderOutput>,
    more: &Vec<SequenceDecoderOutput>,
    flushed: &SequenceDecoderOutput,
    held: &SequenceDecoderOutput,
    before: String,
    after: String,
    whole: String,
)
    requires
        more@.len() == outputs@.len() + 1,
        more@.drop_last() == outputs@,
        *held is Held,
        call_ensures(decoded_text, (outputs, held), before),
        call_ensures(decoded_text, (more, held), after),
        call_ensures(decoded_text, (more, flushed), whole),
    ensures
        outputs@.len() == 0 ==> before@.len() == 0,
        after@ == before@ + (if has_stopped(outputs@) {
            Seq::empty()
        } else {
            match more@.last() {
                SequenceDecoderOutput::Text(t) => t@,
                SequenceDecoderOutput::StoppedWithText(t) => t@,
                SequenceDecoderOutput::Stopped => Seq::empty(),
                SequenceDecoderOutput::Held => Seq::empty(),
            }
        }),
        whole@ == after@ + (match *flushed {
            SequenceDecoderOutput::Text(t) => t@,
            _ => Seq::empty(),
        }),
{
    lemma_one_more_step(outputs@, more@.last());
    assert(outputs@.push(more@.last()) =~= more@);
    assert(before@ =~= text_until_stop(outputs@));
    assert(after@ =~= text_until_stop(more@));
}

/// Each finished answer of a stream is told, with the text that its own decoding makes, in the
/// order in which they came. The first decoding that fails fails the request.
pub proof fn law_each_finished_answer_is_told(
    original: &ProtocolRequest,
    request_id: &str,
    chunks: &Vec<TokenChunk>,
    decoded: &Vec<DecodedTokens>,
    r: Result<Vec<GenerateResponse>, ErrorResponse>,
    i: int,
    said: String,
    own: Option<GenerateResponse>,
)
    requires
        decoded@.len() == chunks@.len(),
        *original is Generate,
        chunks@.len() > 0,
        forall|j: int| 0 <= j < chunks@.len() ==> (#[trigger] chunks@[j]) is Complete,
        call_ensures(process, (original, request_id, chunks, decoded), r),
        0 <= i < chunks@.len(),
        decoded@[i].outputs matches Ok(outputs) ==> {
            &&& call_ensures(decoded_text, (&outputs, &decoded@[i].flushed), said)
            &&& call_ensures(
                answer,
                (
                    &chunks@[i],
                    said,
                    request_id,
                    original->Generate_0.return_logprob == Some(true),
                ),
                own,
            )
        },
    ensures
        r is Ok <==> forall|j: int|
            0 <= j < decoded@.len() ==> (#[trigger] decoded@[j]).outputs is Ok,
        r matches Ok(list) ==> {
            &&& list@.len() == chunks@.len()
            &&& own is Some
            &&& list.deep_view()[i] == own->0.deep_view()
        },
        r is Err ==> r->Err_0.status == 500 && r->Err_0.code@ == "process_tokens_failed"@,
        decoded@[i].outputs is Err && (forall|j: int|
            0 <= j < i ==> (#[trigger] decoded@[j]).outputs is Ok) ==> r->Err_0.message@
            == "Failed to process tokens: "@ + decoded@[i].outputs->Err_0@,
{
    lemma_failures(chunks@, decoded@);
    lemma_all_answers(
        chunks@,
        decoded@,
        request_id@,
        wants_logprobs(*original),
    );
    if let Ok(list) = r {
        assert(list.deep_view().len() == list@.len());
        assert(decoded@[i].outputs is Ok);
    }
}

proof fn lemma_failures(chunks: Seq<TokenChunk>, decoded: Seq<DecodedTokens>)
    requires
        chunks.len() <= decoded.len(),
        forall|j: int| 0 <= j < chunks.len() ==> (#[trigger] chunks[j]) is Complete,
    ensures
        first_failure(chunks, decoded) is None <==> forall|j: int|
            0 <= j < chunks.len() ==> (#[trigger] decoded[j]).outputs is Ok,
        forall|i: int|
            0 <= i < chunks.len() && (#[trigger] decoded[i]).outputs is Err && (forall|j: int|
                0 <= j < i ==> (#[trigger] decoded[j]).outputs is Ok) ==> first_failure(
                chunks,
                decoded,
            ) == Some(decoded[i].outputs->Err_0@),
    decreases chunks.len(),
{
    if chunks.len() > 0 {
        let init = chunks.drop_last();
        assert forall|j: int| 0 <= j < init.len() implies (#[trigger] init[j]) is Complete by {
            assert(init[j] == chunks[j]);
        }
        lemma_failures(init, decoded);
        assert(chunks[chunks.len() - 1] is Complete);
    }
}

proof fn lemma_all_answers(
    chunks: Seq<TokenChunk>,
    decoded: Seq<DecodedTokens>,
    request_id: Seq<char>,
    return_logprob: bool,
)
    requires
        forall|j: int| 0 <= j < chunks.len() ==> (#[trigger] chunks[j]) is Complete,
    ensures
        answers(chunks, decoded, request_id, return_logprob).len() == chunks.len(),
        forall|i: int|
            0 <= i < chunks.len() ==> #[trigger] answers(
                chunks,
                decoded,
                request_id,
                return_logprob,
            )[i] == answer_view(
                chunks[i].deep_view(),
                text_until_stop(decoded[i].outputs->Ok_0@) + flushed_text(decoded[i].flushed),
                request_id,
                return_logprob,
            ),
    decreases chunks.len(),
{
    if chunks.len() > 0 {
        let init = chunks.drop_last();
        assert forall|j: int| 0 <= j < init.len() implies (#[trigger] init[j]) is Complete by {
            assert(init[j] == chunks[j]);
        }
        lemma_all_answers(init, decoded, request_id, return_logprob);
        assert(chunks[chunks.len() - 1] is Complete);
        let all = answers(chunks, decoded, request_id, return_logprob);
        let before = answers(init, decoded, request_id, return_logprob);
        assert forall|i: int| 0 <= i < chunks.len() implies #[trigger] all[i] == answer_view(
            chunks[i].deep_view(),
            text_until_stop(decoded[i].outputs->Ok_0@) + flushed_text(decoded[i].flushed),
            request_id,
            return_logprob,
        ) by {
            if i < init.len() {
                assert(all[i] == before[i]);
                assert(init[i] == chunks[i]);
            }
        }
    }
}

/// Of what a stream gives, each completion is kept, as it is, and nothing else.
pub proof fn law_completions_are_kept(polls: Seq<StreamPoll>, next: StreamPoll)
    ensures
        completes(Seq::empty()).len() == 0,
        next matches StreamPoll::Item(Ok(TokenChunk::Complete { .. })) ==> completes(
            polls.push(next),
        ) == completes(polls).push(next->Item_0->Ok_0),
        !(next matches StreamPoll::Item(Ok(TokenChunk::Complete { .. }))) ==> completes(
            polls.push(next),
        ) == completes(polls),
{
    assert(polls.push(next).drop_last() =~= polls);
}

/// A failure of the engine is told with its own words. A transport that fails and a worker that
/// cannot be reached make the service unavailable, a request that a worker does not take is the
/// client's fault, and any other failure is the server's.
pub proof fn law_failures_are_told_by_their_kind(err: EngineError, r: ErrorResponse)
    requires
        call_ensures(engine_error_to_response, (err,), r),
    ensures
        r.status == 503 <==> err is Transport || err is ConnectionAcquireFailed,
        r.status == 400 <==> err is RequestBuildFailed,
        r.status == 500 || r.status == 503 || r.status == 400,
        err matches EngineError::Transport(s) ==> r.message@ == "transport error: "@ + s.text(),
        err matches EngineError::Prefill(m) ==> r.message@ == "prefill error: "@ + m@,
        err matches EngineError::DecodeError(m) ==> r.message@ == "decode error: "@ + m@,
        err matches EngineError::ConnectionAcquireFailed(m) ==> r.message@ == m@,
        err matches EngineError::RequestBuildFailed(m) ==> r.message@ == m@,
        err is PrefillEarlyClose ==> r.message@ == "prefill stream closed without Complete"@,
        err is DecodeIncomplete ==> r.message@ == "decode stream closed without Complete"@,
        r.code@ == "engine_transport_error"@ <==> err is Transport,
        r.code@ == "engine_prefill_error"@ <==> err is Prefill,
        r.code@ == "engine_decode_error"@ <==> err is DecodeError,
        r.code@ == "engine_prefill_early_close"@ <==> err is PrefillEarlyClose,
        r.code@ == "engine_decode_incomplete"@ <==> err is DecodeIncomplete,
        r.code@ == "engine_connection_failed"@ <==> err is ConnectionAcquireFailed,
        r.code@ == "engine_request_build_failed"@ <==> err is RequestBuildFailed,
{
    reveal_strlit("engine_transport_error");
    reveal_strlit("engine_prefill_error");
    reveal_strlit("engine_decode_error");
    reveal_strlit("engine_prefill_early_close");
    reveal_strlit("engine_decode_incomplete");
    reveal_strlit("engine_connection_failed");
    reveal_strlit("engine_request_build_failed");
    assert("engine_decode_incomplete"@[7] != "engine_connection_failed"@[7]);
    assert("engine_transport_error"@.len() == 22);
    assert("engine_prefill_error"@.len() == 20);
    assert("engine_decode_error"@.len() == 19);
    assert("engine_prefill_early_close"@.len() == 26);
    assert("engine_decode_incomplete"@.len() == 24);
    assert("engine_connection_failed"@.len() == 24);
    assert("engine_request_build_failed"@.len() == 27);
}

/// Why generation ended is told by its own name; where it ran out of tokens, with their
/// number.
pub proof fn law_finish_reason_keeps_its_name(
    reason: &FinishReason,
    completion_tokens: u32,
    r: GenerateFinishReason,
)
    requires
        call_ensures(finish_reason_to_generate, (reason, completion_tokens), r),
    ensures
        tells_reason(r, *reason, completion_tokens),
{
}

/// Only a request for generation is rendered here.
pub proof fn law_only_generation_is_rendered(
    original: &ProtocolRequest,
    r: Result<(), ErrorResponse>,
)
    requires
        call_ensures(expect_generate, (original,), r),
    ensures
        r is Ok <==> *original is Generate,
        r matches Err(e) ==> e.status == 500 && e.code@ == "wrong_render_path"@,
{
}

/// A chat request, and a stream that gave nothing, are refused, each with its own code.
pub proof fn law_nothing_to_answer_is_refused(
    original: &ProtocolRequest,
    request_id: &str,
    chunks: &Vec<TokenChunk>,
    decoded: &Vec<DecodedTokens>,
    r: Result<Vec<GenerateResponse>, ErrorResponse>,
)
    requires
        decoded@.len() == chunks@.len(),
        call_ensures(process, (original, request_id, chunks, decoded), r),
    ensures
        *original is Chat ==> (r matches Err(e) && e.status == 500 && e.code@
            == "wrong_render_path"@),
        *original is Generate && chunks@.len() == 0 ==> (r matches Err(e) && e.status == 500
            && e.code@ == "no_responses_from_server"@),
{
}

/// What is collected of a stream are the completions that it gave, behind what was kept before.
/// The stream is told of its completion if and only if it ended; a failure is told by its
/// kind.
pub proof fn law_stream_is_collected<S: TokenSource>(
    stream: &mut TokenHandle<S>,
    kept: &mut Vec<TokenChunk>,
    r: Collected,
)
    requires
        call_ensures(collect_completes::<S>, (stream, kept), r),
    ensures
        ({
            let before = old(stream).source.log();
            let after = final(stream).source.log();
            &&& before.len() < after.len()
            &&& before == after.take(before.len() as int)
            &&& final(kept)@ == old(kept)@ + completes(after.skip(before.len() as int))
            &&& r is Whole <==> after.last() is Closed
            &&& r is Pending <==> after.last() is Pending
            &&& r is Failed <==> (after.last() matches StreamPoll::Item(Err(_)))
            &&& r is Whole ==> final(stream).source.completed()
            &&& !(r is Whole) ==> final(stream).source.completed() == old(
                stream,
            ).source.completed()
        }),
{
    let before = old(stream).source.log();
    let after = final(stream).source.log();
    assert(before =~= after.take(before.len() as int));
}

} // verus!
