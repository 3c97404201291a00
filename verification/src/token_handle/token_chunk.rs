//! Transport-neutral token-stream chunk produced by the gRPC engine and
//! consumed by the render layer.
//!
//! Backend messages are turned into these neutral structs inside
//! `grpc/engine/proto_to_chunk.rs`.

use vstd::prelude::*;

use crate::float::F32;

verus! {

/// Why generation ended.
#[derive(Debug)]
pub enum FinishReason {
    Stop,
    Length,
    ContentFilter,
    ToolCalls,
    Abort,
    Other(String),
}

/// What a `FinishReason` says.
#[verifier::ext_equal]
pub enum FinishReasonView {
    Stop,
    Length,
    ContentFilter,
    ToolCalls,
    Abort,
    Other(Seq<char>),
}

impl DeepView for FinishReason {
    type V = FinishReasonView;

    open spec fn deep_view(&self) -> FinishReasonView {
        match *self {
            FinishReason::Stop => FinishReasonView::Stop,
            FinishReason::Length => FinishReasonView::Length,
            FinishReason::ContentFilter => FinishReasonView::ContentFilter,
            FinishReason::ToolCalls => FinishReasonView::ToolCalls,
            FinishReason::Abort => FinishReasonView::Abort,
            FinishReason::Other(x) => FinishReasonView::Other(x.deep_view()),
        }
    }
}

/// What generation stopped at.
#[derive(Debug)]
pub enum MatchedStop {
    Str(String),
    TokenId(u32),
}

/// What a `MatchedStop` says.
#[verifier::ext_equal]
pub enum MatchedStopView {
    Str(Seq<char>),
    TokenId(u32),
}

impl DeepView for MatchedStop {
    type V = MatchedStopView;

    open spec fn deep_view(&self) -> MatchedStopView {
        match *self {
            MatchedStop::Str(x) => MatchedStopView::Str(x.deep_view()),
            MatchedStop::TokenId(x) => MatchedStopView::TokenId(x.deep_view()),
        }
    }
}

/// The log probability of a token, and of the most likely ones in its place.
#[derive(Debug)]
pub struct TokenLogprob {
    pub token_id: u32,
    pub logprob: F32,
    pub decoded_text: Option<String>,
    pub top: Vec<(u32, F32, Option<String>)>,
}

/// What a `TokenLogprob` says.
#[verifier::ext_equal]
pub struct TokenLogprobView {
    pub token_id: u32,
    pub logprob: F32,
    pub decoded_text: Option<Seq<char>>,
    pub top: Seq<(u32, F32, Option<Seq<char>>)>,
}

impl DeepView for TokenLogprob {
    type V = TokenLogprobView;

    open spec fn deep_view(&self) -> TokenLogprobView {
        TokenLogprobView {
            token_id: self.token_id.deep_view(),
            logprob: self.logprob.deep_view(),
            decoded_text: self.decoded_text.deep_view(),
            top: self.top.deep_view(),
        }
    }
}

/// The log probabilities of generated tokens.
#[derive(Debug)]
pub struct TokenLogprobs {
    pub items: Vec<TokenLogprob>,
}

/// What a `TokenLogprobs` says.
#[verifier::ext_equal]
pub struct TokenLogprobsView {
    pub items: Seq<TokenLogprobView>,
}

impl DeepView for TokenLogprobs {
    type V = TokenLogprobsView;

    open spec fn deep_view(&self) -> TokenLogprobsView {
        TokenLogprobsView {
            items: self.items.deep_view(),
        }
    }
}

/// The log probabilities of the tokens of the prompt.
#[derive(Debug)]
pub struct InputLogprobs {
    pub items: Vec<TokenLogprob>,
}

/// What an `InputLogprobs` says.
#[verifier::ext_equal]
pub struct InputLogprobsView {
    pub items: Seq<TokenLogprobView>,
}

impl DeepView for InputLogprobs {
    type V = InputLogprobsView;

    open spec fn deep_view(&self) -> InputLogprobsView {
        InputLogprobsView {
            items: self.items.deep_view(),
        }
    }
}

/// Token counts.
#[derive(Clone, Copy, Debug, PartialEq, Eq, Structural)]
pub struct Usage {
    pub prompt_tokens: u32,
    pub completion_tokens: u32,
    pub total_tokens: u32,
}

impl DeepView for Usage {
    type V = Usage;

    open spec fn deep_view(&self) -> Usage {
        *self
    }
}

/// What the worker tells of itself.
#[derive(Debug)]
pub struct WorkerMeta {
    pub request_id: String,
    pub weight_version: Option<String>,
    pub cached_tokens: u32,
}

/// What a `WorkerMeta` says.
#[verifier::ext_equal]
pub struct WorkerMetaView {
    pub request_id: Seq<char>,
    pub weight_version: Option<Seq<char>>,
    pub cached_tokens: u32,
}

impl DeepView for WorkerMeta {
    type V = WorkerMetaView;

    open spec fn deep_view(&self) -> WorkerMetaView {
        WorkerMetaView {
            request_id: self.request_id.deep_view(),
            weight_version: self.weight_version.deep_view(),
            cached_tokens: self.cached_tokens.deep_view(),
        }
    }
}

/// A piece of a token stream.
#[derive(Debug)]
pub enum TokenChunk {
    Partial { token_ids: Vec<u32>, logprobs: Option<TokenLogprobs> },
    /// With a prefill/decode pair, `input_logprobs` is injected by the merger from the
    /// prefill worker's Complete; all other fields come from the decode worker.
    Complete { token_ids: Vec<u32>, finish_reason: FinishReason, matched_stop: Option<MatchedStop>, usage: Usage, logprobs: Option<TokenLogprobs>, input_logprobs: Option<InputLogprobs>, meta: WorkerMeta },
}

/// What a `TokenChunk` says.
#[verifier::ext_equal]
pub enum TokenChunkView {
    Partial { token_ids: Seq<u32>, logprobs: Option<TokenLogprobsView> },
    Complete { token_ids: Seq<u32>, finish_reason: FinishReasonView, matched_stop: Option<MatchedStopView>, usage: Usage, logprobs: Option<TokenLogprobsView>, input_logprobs: Option<InputLogprobsView>, meta: WorkerMetaView },
}

impl DeepView for TokenChunk {
    type V = TokenChunkView;

    open spec fn deep_view(&self) -> TokenChunkView {
        match *self {
            TokenChunk::Partial { token_ids, logprobs } => TokenChunkView::Partial {
                token_ids: token_ids.deep_view(),
                logprobs: logprobs.deep_view(),
            },
            TokenChunk::Complete { token_ids, finish_reason, matched_stop, usage, logprobs, input_logprobs, meta } => TokenChunkView::Complete {
                token_ids: token_ids.deep_view(),
                finish_reason: finish_reason.deep_view(),
                matched_stop: matched_stop.deep_view(),
                usage: usage.deep_view(),
                logprobs: logprobs.deep_view(),
                input_logprobs: input_logprobs.deep_view(),
                meta: meta.deep_view(),
            },
        }
    }
}

impl Default for Usage {
    fn default() -> (r: Self)
        ensures
            r.prompt_tokens == 0,
            r.completion_tokens == 0,
            r.total_tokens == 0,
    {
        Usage { prompt_tokens: 0, completion_tokens: 0, total_tokens: 0 }
    }
}

impl Default for WorkerMeta {
    fn default() -> (r: Self)
        ensures
            r.request_id@.len() == 0,
            r.weight_version is None,
            r.cached_tokens == 0,
    {
        WorkerMeta { request_id: String::new(), weight_version: None, cached_tokens: 0 }
    }
}

} // verus!
