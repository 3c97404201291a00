//! The messages of the SGLang and vLLM backends, with the fields that this crate reads
//! and writes.

use vstd::prelude::*;

use crate::duplicate::Duplicate;
use crate::float::F32;

verus! {

/// A prompt, as text and as token ids.
#[derive(Debug)]
pub struct TokenizedInput {
    pub original_text: String,
    pub input_ids: Vec<u32>,
}

/// What a `TokenizedInput` says.
#[verifier::ext_equal]
pub struct TokenizedInputView {
    pub original_text: Seq<char>,
    pub input_ids: Seq<u32>,
}

impl DeepView for TokenizedInput {
    type V = TokenizedInputView;

    open spec fn deep_view(&self) -> TokenizedInputView {
        TokenizedInputView {
            original_text: self.original_text.deep_view(),
            input_ids: self.input_ids.deep_view(),
        }
    }
}

impl Duplicate for TokenizedInput {
    fn duplicate(&self) -> (r: TokenizedInput) {
        TokenizedInput {
            original_text: self.original_text.duplicate(),
            input_ids: self.input_ids.duplicate(),
        }
    }
}

/// How the decode worker finds the prefill worker.
#[derive(Debug)]
pub struct DisaggregatedParams {
    pub bootstrap_host: String,
    pub bootstrap_port: i32,
    pub bootstrap_room: i32,
}

/// What a `DisaggregatedParams` says.
#[verifier::ext_equal]
pub struct DisaggregatedParamsView {
    pub bootstrap_host: Seq<char>,
    pub bootstrap_port: i32,
    pub bootstrap_room: i32,
}

impl DeepView for DisaggregatedParams {
    type V = DisaggregatedParamsView;

    open spec fn deep_view(&self) -> DisaggregatedParamsView {
        DisaggregatedParamsView {
            bootstrap_host: self.bootstrap_host.deep_view(),
            bootstrap_port: self.bootstrap_port.deep_view(),
            bootstrap_room: self.bootstrap_room.deep_view(),
        }
    }
}

impl Duplicate for DisaggregatedParams {
    fn duplicate(&self) -> (r: DisaggregatedParams) {
        DisaggregatedParams {
            bootstrap_host: self.bootstrap_host.duplicate(),
            bootstrap_port: self.bootstrap_port,
            bootstrap_room: self.bootstrap_room,
        }
    }
}

/// A constraint on the output of SGLang.
#[derive(Debug)]
pub enum SglangConstraint {
    Regex(String),
    JsonSchema(String),
    EbnfGrammar(String),
    StructuralTag(String),
}

/// What a `SglangConstraint` says.
#[verifier::ext_equal]
pub enum SglangConstraintView {
    Regex(Seq<char>),
    JsonSchema(Seq<char>),
    EbnfGrammar(Seq<char>),
    StructuralTag(Seq<char>),
}

impl DeepView for SglangConstraint {
    type V = SglangConstraintView;

    open spec fn deep_view(&self) -> SglangConstraintView {
        match *self {
            SglangConstraint::Regex(x) => SglangConstraintView::Regex(x.deep_view()),
            SglangConstraint::JsonSchema(x) => SglangConstraintView::JsonSchema(x.deep_view()),
            SglangConstraint::EbnfGrammar(x) => SglangConstraintView::EbnfGrammar(x.deep_view()),
            SglangConstraint::StructuralTag(x) => SglangConstraintView::StructuralTag(x.deep_view()),
        }
    }
}

impl Duplicate for SglangConstraint {
    fn duplicate(&self) -> (r: SglangConstraint) {
        match self {
            SglangConstraint::Regex(x) => SglangConstraint::Regex(x.duplicate()),
            SglangConstraint::JsonSchema(x) => SglangConstraint::JsonSchema(x.duplicate()),
            SglangConstraint::EbnfGrammar(x) => SglangConstraint::EbnfGrammar(x.duplicate()),
            SglangConstraint::StructuralTag(x) => SglangConstraint::StructuralTag(x.duplicate()),
        }
    }
}

/// How SGLang samples.
#[derive(Debug)]
pub struct SglangSamplingParams {
    pub temperature: F32,
    pub top_p: F32,
    pub top_k: i32,
    pub min_p: F32,
    pub frequency_penalty: F32,
    pub presence_penalty: F32,
    pub repetition_penalty: F32,
    pub max_new_tokens: Option<i32>,
    pub stop: Vec<String>,
    pub stop_token_ids: Vec<u32>,
    pub skip_special_tokens: bool,
    pub spaces_between_special_tokens: bool,
    pub n: i32,
    pub min_new_tokens: i32,
    pub ignore_eos: bool,
    pub no_stop_trim: bool,
    pub constraint: Option<SglangConstraint>,
}

/// What a `SglangSamplingParams` says.
#[verifier::ext_equal]
pub struct SglangSamplingParamsView {
    pub temperature: F32,
    pub top_p: F32,
    pub top_k: i32,
    pub min_p: F32,
    pub frequency_penalty: F32,
    pub presence_penalty: F32,
    pub repetition_penalty: F32,
    pub max_new_tokens: Option<i32>,
    pub stop: Seq<Seq<char>>,
    pub stop_token_ids: Seq<u32>,
    pub skip_special_tokens: bool,
    pub spaces_between_special_tokens: bool,
    pub n: i32,
    pub min_new_tokens: i32,
    pub ignore_eos: bool,
    pub no_stop_trim: bool,
    pub constraint: Option<SglangConstraintView>,
}

impl DeepView for SglangSamplingParams {
    type V = SglangSamplingParamsView;

    open spec fn deep_view(&self) -> SglangSamplingParamsView {
        SglangSamplingParamsView {
            temperature: self.temperature.deep_view(),
            top_p: self.top_p.deep_view(),
            top_k: self.top_k.deep_view(),
            min_p: self.min_p.deep_view(),
            frequency_penalty: self.frequency_penalty.deep_view(),
            presence_penalty: self.presence_penalty.deep_view(),
            repetition_penalty: self.repetition_penalty.deep_view(),
            max_new_tokens: self.max_new_tokens.deep_view(),
            stop: self.stop.deep_view(),
            stop_token_ids: self.stop_token_ids.deep_view(),
            skip_special_tokens: self.skip_special_tokens.deep_view(),
            spaces_between_special_tokens: self.spaces_between_special_tokens.deep_view(),
            n: self.n.deep_view(),
            min_new_tokens: self.min_new_tokens.deep_view(),
            ignore_eos: self.ignore_eos.deep_view(),
            no_stop_trim: self.no_stop_trim.deep_view(),
            constraint: self.constraint.deep_view(),
        }
    }
}

impl Duplicate for SglangSamplingParams {
    fn duplicate(&self) -> (r: SglangSamplingParams) {
        SglangSamplingParams {
            temperature: self.temperature,
            top_p: self.top_p,
            top_k: self.top_k,
            min_p: self.min_p,
            frequency_penalty: self.frequency_penalty,
            presence_penalty: self.presence_penalty,
            repetition_penalty: self.repetition_penalty,
            max_new_tokens: self.max_new_tokens.duplicate(),
            stop: self.stop.duplicate(),
            stop_token_ids: self.stop_token_ids.duplicate(),
            skip_special_tokens: self.skip_special_tokens,
            spaces_between_special_tokens: self.spaces_between_special_tokens,
            n: self.n,
            min_new_tokens: self.min_new_tokens,
            ignore_eos: self.ignore_eos,
            no_stop_trim: self.no_stop_trim,
            constraint: self.constraint.duplicate(),
        }
    }
}

/// A request to SGLang.
#[derive(Debug)]
pub struct SglangGenerateRequest {
    pub request_id: String,
    pub tokenized: Option<TokenizedInput>,
    pub sampling_params: Option<SglangSamplingParams>,
    pub return_logprob: bool,
    pub logprob_start_len: i32,
    pub top_logprobs_num: i32,
    pub token_ids_logprob: Vec<u32>,
    pub return_hidden_states: bool,
    pub stream: bool,
    pub log_metrics: bool,
    pub disaggregated_params: Option<DisaggregatedParams>,
}

/// What a `SglangGenerateRequest` says.
#[verifier::ext_equal]
pub struct SglangGenerateRequestView {
    pub request_id: Seq<char>,
    pub tokenized: Option<TokenizedInputView>,
    pub sampling_params: Option<SglangSamplingParamsView>,
    pub return_logprob: bool,
    pub logprob_start_len: i32,
    pub top_logprobs_num: i32,
    pub token_ids_logprob: Seq<u32>,
    pub return_hidden_states: bool,
    pub stream: bool,
    pub log_metrics: bool,
    pub disaggregated_params: Option<DisaggregatedParamsView>,
}

impl DeepView for SglangGenerateRequest {
    type V = SglangGenerateRequestView;

    open spec fn deep_view(&self) -> SglangGenerateRequestView {
        SglangGenerateRequestView {
            request_id: self.request_id.deep_view(),
            tokenized: self.tokenized.deep_view(),
            sampling_params: self.sampling_params.deep_view(),
            return_logprob: self.return_logprob.deep_view(),
            logprob_start_len: self.logprob_start_len.deep_view(),
            top_logprobs_num: self.top_logprobs_num.deep_view(),
            token_ids_logprob: self.token_ids_logprob.deep_view(),
            return_hidden_states: self.return_hidden_states.deep_view(),
            stream: self.stream.deep_view(),
            log_metrics: self.log_metrics.deep_view(),
            disaggregated_params: self.disaggregated_params.deep_view(),
        }
    }
}

impl Duplicate for SglangGenerateRequest {
    fn duplicate(&self) -> (r: SglangGenerateRequest) {
        SglangGenerateRequest {
            request_id: self.request_id.duplicate(),
            tokenized: self.tokenized.duplicate(),
            sampling_params: self.sampling_params.duplicate(),
            return_logprob: self.return_logprob,
            logprob_start_len: self.logprob_start_len,
            top_logprobs_num: self.top_logprobs_num,
            token_ids_logprob: self.token_ids_logprob.duplicate(),
            return_hidden_states: self.return_hidden_states,
            stream: self.stream,
            log_metrics: self.log_metrics,
            disaggregated_params: self.disaggregated_params.duplicate(),
        }
    }
}

/// A constraint on the output of vLLM.
#[derive(Debug)]
pub enum VllmConstraint {
    Regex(String),
    JsonSchema(String),
    Grammar(String),
    StructuralTag(String),
}

/// What a `VllmConstraint` says.
#[verifier::ext_equal]
pub enum VllmConstraintView {
    Regex(Seq<char>),
    JsonSchema(Seq<char>),
    Grammar(Seq<char>),
    StructuralTag(Seq<char>),
}

impl DeepView for VllmConstraint {
    type V = VllmConstraintView;

    open spec fn deep_view(&self) -> VllmConstraintView {
        match *self {
            VllmConstraint::Regex(x) => VllmConstraintView::Regex(x.deep_view()),
            VllmConstraint::JsonSchema(x) => VllmConstraintView::JsonSchema(x.deep_view()),
            VllmConstraint::Grammar(x) => VllmConstraintView::Grammar(x.deep_view()),
            VllmConstraint::StructuralTag(x) => VllmConstraintView::StructuralTag(x.deep_view()),
        }
    }
}

impl Duplicate for VllmConstraint {
    fn duplicate(&self) -> (r: VllmConstraint) {
        match self {
            VllmConstraint::Regex(x) => VllmConstraint::Regex(x.duplicate()),
            VllmConstraint::JsonSchema(x) => VllmConstraint::JsonSchema(x.duplicate()),
            VllmConstraint::Grammar(x) => VllmConstraint::Grammar(x.duplicate()),
            VllmConstraint::StructuralTag(x) => VllmConstraint::StructuralTag(x.duplicate()),
        }
    }
}

/// How vLLM samples.
#[derive(Debug)]
pub struct VllmSamplingParams {
    pub temperature: Option<F32>,
    pub top_p: F32,
    pub top_k: u32,
    pub min_p: F32,
    pub frequency_penalty: F32,
    pub presence_penalty: F32,
    pub repetition_penalty: F32,
    pub max_tokens: Option<u32>,
    pub min_tokens: u32,
    pub stop: Vec<String>,
    pub stop_token_ids: Vec<u32>,
    pub skip_special_tokens: bool,
    pub spaces_between_special_tokens: bool,
    pub ignore_eos: bool,
    pub n: u32,
    pub constraint: Option<VllmConstraint>,
}

/// What a `VllmSamplingParams` says.
#[verifier::ext_equal]
pub struct VllmSamplingParamsView {
    pub temperature: Option<F32>,
    pub top_p: F32,
    pub top_k: u32,
    pub min_p: F32,
    pub frequency_penalty: F32,
    pub presence_penalty: F32,
    pub repetition_penalty: F32,
    pub max_tokens: Option<u32>,
    pub min_tokens: u32,
    pub stop: Seq<Seq<char>>,
    pub stop_token_ids: Seq<u32>,
    pub skip_special_tokens: bool,
    pub spaces_between_special_tokens: bool,
    pub ignore_eos: bool,
    pub n: u32,
    pub constraint: Option<VllmConstraintView>,
}

impl DeepView for VllmSamplingParams {
    type V = VllmSamplingParamsView;

    open spec fn deep_view(&self) -> VllmSamplingParamsView {
        VllmSamplingParamsView {
            temperature: self.temperature.deep_view(),
            top_p: self.top_p.deep_view(),
            top_k: self.top_k.deep_view(),
            min_p: self.min_p.deep_view(),
            frequency_penalty: self.frequency_penalty.deep_view(),
            presence_penalty: self.presence_penalty.deep_view(),
            repetition_penalty: self.repetition_penalty.deep_view(),
            max_tokens: self.max_tokens.deep_view(),
            min_tokens: self.min_tokens.deep_view(),
            stop: self.stop.deep_view(),
            stop_token_ids: self.stop_token_ids.deep_view(),
            skip_special_tokens: self.skip_special_tokens.deep_view(),
            spaces_between_special_tokens: self.spaces_between_special_tokens.deep_view(),
            ignore_eos: self.ignore_eos.deep_view(),
            n: self.n.deep_view(),
            constraint: self.constraint.deep_view(),
        }
    }
}

impl Duplicate for VllmSamplingParams {
    fn duplicate(&self) -> (r: VllmSamplingParams) {
        VllmSamplingParams {
            temperature: self.temperature.duplicate(),
            top_p: self.top_p,
            top_k: self.top_k,
            min_p: self.min_p,
            frequency_penalty: self.frequency_penalty,
            presence_penalty: self.presence_penalty,
            repetition_penalty: self.repetition_penalty,
            max_tokens: self.max_tokens.duplicate(),
            min_tokens: self.min_tokens,
            stop: self.stop.duplicate(),
            stop_token_ids: self.stop_token_ids.duplicate(),
            skip_special_tokens: self.skip_special_tokens,
            spaces_between_special_tokens: self.spaces_between_special_tokens,
            ignore_eos: self.ignore_eos,
            n: self.n,
            constraint: self.constraint.duplicate(),
        }
    }
}

/// A request to vLLM.
#[derive(Debug)]
pub struct VllmGenerateRequest {
    pub request_id: String,
    pub tokenized: Option<TokenizedInput>,
    pub sampling_params: Option<VllmSamplingParams>,
    pub stream: bool,
}

/// What a `VllmGenerateRequest` says.
#[verifier::ext_equal]
pub struct VllmGenerateRequestView {
    pub request_id: Seq<char>,
    pub tokenized: Option<TokenizedInputView>,
    pub sampling_params: Option<VllmSamplingParamsView>,
    pub stream: bool,
}

impl DeepView for VllmGenerateRequest {
    type V = VllmGenerateRequestView;

    open spec fn deep_view(&self) -> VllmGenerateRequestView {
        VllmGenerateRequestView {
            request_id: self.request_id.deep_view(),
            tokenized: self.tokenized.deep_view(),
            sampling_params: self.sampling_params.deep_view(),
            stream: self.stream.deep_view(),
        }
    }
}

impl Duplicate for VllmGenerateRequest {
    fn duplicate(&self) -> (r: VllmGenerateRequest) {
        VllmGenerateRequest {
            request_id: self.request_id.duplicate(),
            tokenized: self.tokenized.duplicate(),
            sampling_params: self.sampling_params.duplicate(),
            stream: self.stream,
        }
    }
}

/// The most likely tokens at a position.
#[derive(Debug)]
pub struct TopLogProbs {
    pub values: Vec<F32>,
    pub token_ids: Vec<i32>,
}

/// What a `TopLogProbs` says.
#[verifier::ext_equal]
pub struct TopLogProbsView {
    pub values: Seq<F32>,
    pub token_ids: Seq<i32>,
}

impl DeepView for TopLogProbs {
    type V = TopLogProbsView;

    open spec fn deep_view(&self) -> TopLogProbsView {
        TopLogProbsView {
            values: self.values.deep_view(),
            token_ids: self.token_ids.deep_view(),
        }
    }
}

impl Duplicate for TopLogProbs {
    fn duplicate(&self) -> (r: TopLogProbs) {
        TopLogProbs {
            values: self.values.duplicate(),
            token_ids: self.token_ids.duplicate(),
        }
    }
}

/// The log probabilities of generated tokens.
#[derive(Debug)]
pub struct SglangOutputLogProbs {
    pub token_logprobs: Vec<F32>,
    pub token_ids: Vec<i32>,
    pub top_logprobs: Vec<TopLogProbs>,
}

/// What a `SglangOutputLogProbs` says.
#[verifier::ext_equal]
pub struct SglangOutputLogProbsView {
    pub token_logprobs: Seq<F32>,
    pub token_ids: Seq<i32>,
    pub top_logprobs: Seq<TopLogProbsView>,
}

impl DeepView for SglangOutputLogProbs {
    type V = SglangOutputLogProbsView;

    open spec fn deep_view(&self) -> SglangOutputLogProbsView {
        SglangOutputLogProbsView {
            token_logprobs: self.token_logprobs.deep_view(),
            token_ids: self.token_ids.deep_view(),
            top_logprobs: self.top_logprobs.deep_view(),
        }
    }
}

impl Duplicate for SglangOutputLogProbs {
    fn duplicate(&self) -> (r: SglangOutputLogProbs) {
        SglangOutputLogProbs {
            token_logprobs: self.token_logprobs.duplicate(),
            token_ids: self.token_ids.duplicate(),
            top_logprobs: self.top_logprobs.duplicate(),
        }
    }
}

/// The log probability of a token of the prompt. The first token has none.
#[derive(Debug)]
pub struct InputTokenLogProb {
    pub value: Option<F32>,
}

/// What an `InputTokenLogProb` says.
#[verifier::ext_equal]
pub struct InputTokenLogProbView {
    pub value: Option<F32>,
}

impl DeepView for InputTokenLogProb {
    type V = InputTokenLogProbView;

    open spec fn deep_view(&self) -> InputTokenLogProbView {
        InputTokenLogProbView {
            value: self.value.deep_view(),
        }
    }
}

impl Duplicate for InputTokenLogProb {
    fn duplicate(&self) -> (r: InputTokenLogProb) {
        InputTokenLogProb {
            value: self.value.duplicate(),
        }
    }
}

/// The log probabilities of the tokens of the prompt.
#[derive(Debug)]
pub struct SglangInputLogProbs {
    pub token_logprobs: Vec<InputTokenLogProb>,
    pub token_ids: Vec<i32>,
    pub top_logprobs: Vec<TopLogProbs>,
}

/// What a `SglangInputLogProbs` says.
#[verifier::ext_equal]
pub struct SglangInputLogProbsView {
    pub token_logprobs: Seq<InputTokenLogProbView>,
    pub token_ids: Seq<i32>,
    pub top_logprobs: Seq<TopLogProbsView>,
}

impl DeepView for SglangInputLogProbs {
    type V = SglangInputLogProbsView;

    open spec fn deep_view(&self) -> SglangInputLogProbsView {
        SglangInputLogProbsView {
            token_logprobs: self.token_logprobs.deep_view(),
            token_ids: self.token_ids.deep_view(),
            top_logprobs: self.top_logprobs.deep_view(),
        }
    }
}

impl Duplicate for SglangInputLogProbs {
    fn duplicate(&self) -> (r: SglangInputLogProbs) {
        SglangInputLogProbs {
            token_logprobs: self.token_logprobs.duplicate(),
            token_ids: self.token_ids.duplicate(),
            top_logprobs: self.top_logprobs.duplicate(),
        }
    }
}

/// What SGLang stopped at.
#[derive(Debug)]
pub enum SglangMatchedStop {
    MatchedTokenId(u32),
    MatchedStopStr(String),
}

/// What a `SglangMatchedStop` says.
#[verifier::ext_equal]
pub enum SglangMatchedStopView {
    MatchedTokenId(u32),
    MatchedStopStr(Seq<char>),
}

impl DeepView for SglangMatchedStop {
    type V = SglangMatchedStopView;

    open spec fn deep_view(&self) -> SglangMatchedStopView {
        match *self {
            SglangMatchedStop::MatchedTokenId(x) => SglangMatchedStopView::MatchedTokenId(x.deep_view()),
            SglangMatchedStop::MatchedStopStr(x) => SglangMatchedStopView::MatchedStopStr(x.deep_view()),
        }
    }
}

impl Duplicate for SglangMatchedStop {
    fn duplicate(&self) -> (r: SglangMatchedStop) {
        match self {
            SglangMatchedStop::MatchedTokenId(x) => SglangMatchedStop::MatchedTokenId(*x),
            SglangMatchedStop::MatchedStopStr(x) => SglangMatchedStop::MatchedStopStr(x.duplicate()),
        }
    }
}

/// A piece of an answer of SGLang.
#[derive(Debug)]
pub struct SglangGenerateStreamChunk {
    pub token_ids: Vec<u32>,
    pub prompt_tokens: i32,
    pub completion_tokens: i32,
    pub cached_tokens: i32,
    pub output_logprobs: Option<SglangOutputLogProbs>,
    pub index: u32,
}

/// What a `SglangGenerateStreamChunk` says.
#[verifier::ext_equal]
pub struct SglangGenerateStreamChunkView {
    pub token_ids: Seq<u32>,
    pub prompt_tokens: i32,
    pub completion_tokens: i32,
    pub cached_tokens: i32,
    pub output_logprobs: Option<SglangOutputLogProbsView>,
    pub index: u32,
}

impl DeepView for SglangGenerateStreamChunk {
    type V = SglangGenerateStreamChunkView;

    open spec fn deep_view(&self) -> SglangGenerateStreamChunkView {
        SglangGenerateStreamChunkView {
            token_ids: self.token_ids.deep_view(),
            prompt_tokens: self.prompt_tokens.deep_view(),
            completion_tokens: self.completion_tokens.deep_view(),
            cached_tokens: self.cached_tokens.deep_view(),
            output_logprobs: self.output_logprobs.deep_view(),
            index: self.index.deep_view(),
        }
    }
}

impl Duplicate for SglangGenerateStreamChunk {
    fn duplicate(&self) -> (r: SglangGenerateStreamChunk) {
        SglangGenerateStreamChunk {
            token_ids: self.token_ids.duplicate(),
            prompt_tokens: self.prompt_tokens,
            completion_tokens: self.completion_tokens,
            cached_tokens: self.cached_tokens,
            output_logprobs: self.output_logprobs.duplicate(),
            index: self.index,
        }
    }
}

/// The end of an answer of SGLang.
#[derive(Debug)]
pub struct SglangGenerateComplete {
    pub output_ids: Vec<u32>,
    pub finish_reason: String,
    pub prompt_tokens: i32,
    pub completion_tokens: i32,
    pub cached_tokens: i32,
    pub output_logprobs: Option<SglangOutputLogProbs>,
    pub input_logprobs: Option<SglangInputLogProbs>,
    pub matched_stop: Option<SglangMatchedStop>,
    pub index: u32,
}

/// What a `SglangGenerateComplete` says.
#[verifier::ext_equal]
pub struct SglangGenerateCompleteView {
    pub output_ids: Seq<u32>,
    pub finish_reason: Seq<char>,
    pub prompt_tokens: i32,
    pub completion_tokens: i32,
    pub cached_tokens: i32,
    pub output_logprobs: Option<SglangOutputLogProbsView>,
    pub input_logprobs: Option<SglangInputLogProbsView>,
    pub matched_stop: Option<SglangMatchedStopView>,
    pub index: u32,
}

impl DeepView for SglangGenerateComplete {
    type V = SglangGenerateCompleteView;

    open spec fn deep_view(&self) -> SglangGenerateCompleteView {
        SglangGenerateCompleteView {
            output_ids: self.output_ids.deep_view(),
            finish_reason: self.finish_reason.deep_view(),
            prompt_tokens: self.prompt_tokens.deep_view(),
            completion_tokens: self.completion_tokens.deep_view(),
            cached_tokens: self.cached_tokens.deep_view(),
            output_logprobs: self.output_logprobs.deep_view(),
            input_logprobs: self.input_logprobs.deep_view(),
            matched_stop: self.matched_stop.deep_view(),
            index: self.index.deep_view(),
        }
    }
}

impl Duplicate for SglangGenerateComplete {
    fn duplicate(&self) -> (r: SglangGenerateComplete) {
        SglangGenerateComplete {
            output_ids: self.output_ids.duplicate(),
            finish_reason: self.finish_reason.duplicate(),
            prompt_tokens: self.prompt_tokens,
            completion_tokens: self.completion_tokens,
            cached_tokens: self.cached_tokens,
            output_logprobs: self.output_logprobs.duplicate(),
            input_logprobs: self.input_logprobs.duplicate(),
            matched_stop: self.matched_stop.duplicate(),
            index: self.index,
        }
    }
}

/// A failure of SGLang.
#[derive(Debug)]
pub struct SglangGenerateError {
    pub message: String,
}

/// What a `SglangGenerateError` says.
#[verifier::ext_equal]
pub struct SglangGenerateErrorView {
    pub message: Seq<char>,
}

impl DeepView for SglangGenerateError {
    type V = SglangGenerateErrorView;

    open spec fn deep_view(&self) -> SglangGenerateErrorView {
        SglangGenerateErrorView {
            message: self.message.deep_view(),
        }
    }
}

impl Duplicate for SglangGenerateError {
    fn duplicate(&self) -> (r: SglangGenerateError) {
        SglangGenerateError {
            message: self.message.duplicate(),
        }
    }
}

/// What SGLang answers.
#[derive(Debug)]
pub enum SglangResponse {
    Chunk(SglangGenerateStreamChunk),
    Complete(SglangGenerateComplete),
    Error(SglangGenerateError),
}

/// What a `SglangResponse` says.
#[verifier::ext_equal]
pub enum SglangResponseView {
    Chunk(SglangGenerateStreamChunkView),
    Complete(SglangGenerateCompleteView),
    Error(SglangGenerateErrorView),
}

impl DeepView for SglangResponse {
    type V = SglangResponseView;

    open spec fn deep_view(&self) -> SglangResponseView {
        match *self {
            SglangResponse::Chunk(x) => SglangResponseView::Chunk(x.deep_view()),
            SglangResponse::Complete(x) => SglangResponseView::Complete(x.deep_view()),
            SglangResponse::Error(x) => SglangResponseView::Error(x.deep_view()),
        }
    }
}

/// A message of SGLang.
#[derive(Debug)]
pub struct SglangGenerateResponse {
    pub response: Option<SglangResponse>,
}

/// What a `SglangGenerateResponse` says.
#[verifier::ext_equal]
pub struct SglangGenerateResponseView {
    pub response: Option<SglangResponseView>,
}

impl DeepView for SglangGenerateResponse {
    type V = SglangGenerateResponseView;

    open spec fn deep_view(&self) -> SglangGenerateResponseView {
        SglangGenerateResponseView {
            response: self.response.deep_view(),
        }
    }
}

/// A piece of an answer of vLLM.
#[derive(Debug)]
pub struct VllmGenerateStreamChunk {
    pub token_ids: Vec<u32>,
    pub prompt_tokens: u32,
    pub completion_tokens: u32,
    pub cached_tokens: u32,
}

/// What a `VllmGenerateStreamChunk` says.
#[verifier::ext_equal]
pub struct VllmGenerateStreamChunkView {
    pub token_ids: Seq<u32>,
    pub prompt_tokens: u32,
    pub completion_tokens: u32,
    pub cached_tokens: u32,
}

impl DeepView for VllmGenerateStreamChunk {
    type V = VllmGenerateStreamChunkView;

    open spec fn deep_view(&self) -> VllmGenerateStreamChunkView {
        VllmGenerateStreamChunkView {
            token_ids: self.token_ids.deep_view(),
            prompt_tokens: self.prompt_tokens.deep_view(),
            completion_tokens: self.completion_tokens.deep_view(),
            cached_tokens: self.cached_tokens.deep_view(),
        }
    }
}

impl Duplicate for VllmGenerateStreamChunk {
    fn duplicate(&self) -> (r: VllmGenerateStreamChunk) {
        VllmGenerateStreamChunk {
            token_ids: self.token_ids.duplicate(),
            prompt_tokens: self.prompt_tokens,
            completion_tokens: self.completion_tokens,
            cached_tokens: self.cached_tokens,
        }
    }
}

/// The end of an answer of vLLM.
#[derive(Debug)]
pub struct VllmGenerateComplete {
    pub output_ids: Vec<u32>,
    pub finish_reason: String,
    pub prompt_tokens: u32,
    pub completion_tokens: u32,
    pub cached_tokens: u32,
}

/// What a `VllmGenerateComplete` says.
#[verifier::ext_equal]
pub struct VllmGenerateCompleteView {
    pub output_ids: Seq<u32>,
    pub finish_reason: Seq<char>,
    pub prompt_tokens: u32,
    pub completion_tokens: u32,
    pub cached_tokens: u32,
}

impl DeepView for VllmGenerateComplete {
    type V = VllmGenerateCompleteView;

    open spec fn deep_view(&self) -> VllmGenerateCompleteView {
        VllmGenerateCompleteView {
            output_ids: self.output_ids.deep_view(),
            finish_reason: self.finish_reason.deep_view(),
            prompt_tokens: self.prompt_tokens.deep_view(),
            completion_tokens: self.completion_tokens.deep_view(),
            cached_tokens: self.cached_tokens.deep_view(),
        }
    }
}

impl Duplicate for VllmGenerateComplete {
    fn duplicate(&self) -> (r: VllmGenerateComplete) {
        VllmGenerateComplete {
            output_ids: self.output_ids.duplicate(),
            finish_reason: self.finish_reason.duplicate(),
            prompt_tokens: self.prompt_tokens,
            completion_tokens: self.completion_tokens,
            cached_tokens: self.cached_tokens,
        }
    }
}

/// What vLLM answers. Its failures come as gRPC statuses.
#[derive(Debug)]
pub enum VllmResponse {
    Chunk(VllmGenerateStreamChunk),
    Complete(VllmGenerateComplete),
}

/// What a `VllmResponse` says.
#[verifier::ext_equal]
pub enum VllmResponseView {
    Chunk(VllmGenerateStreamChunkView),
    Complete(VllmGenerateCompleteView),
}

impl DeepView for VllmResponse {
    type V = VllmResponseView;

    open spec fn deep_view(&self) -> VllmResponseView {
        match *self {
            VllmResponse::Chunk(x) => VllmResponseView::Chunk(x.deep_view()),
            VllmResponse::Complete(x) => VllmResponseView::Complete(x.deep_view()),
        }
    }
}

/// A message of vLLM.
#[derive(Debug)]
pub struct VllmGenerateResponse {
    pub response: Option<VllmResponse>,
}

/// What a `VllmGenerateResponse` says.
#[verifier::ext_equal]
pub struct VllmGenerateResponseView {
    pub response: Option<VllmResponseView>,
}

impl DeepView for VllmGenerateResponse {
    type V = VllmGenerateResponseView;

    open spec fn deep_view(&self) -> VllmGenerateResponseView {
        VllmGenerateResponseView {
            response: self.response.deep_view(),
        }
    }
}

/// A request to SGLang for an embedding.
#[derive(Debug)]
pub struct SglangEmbedRequest {
    pub request_id: String,
}

/// What a `SglangEmbedRequest` says.
#[verifier::ext_equal]
pub struct SglangEmbedRequestView {
    pub request_id: Seq<char>,
}

impl DeepView for SglangEmbedRequest {
    type V = SglangEmbedRequestView;

    open spec fn deep_view(&self) -> SglangEmbedRequestView {
        SglangEmbedRequestView {
            request_id: self.request_id.deep_view(),
        }
    }
}

impl Duplicate for SglangEmbedRequest {
    fn duplicate(&self) -> (r: SglangEmbedRequest) {
        SglangEmbedRequest {
            request_id: self.request_id.duplicate(),
        }
    }
}

/// An embedding.
#[derive(Debug)]
pub struct SglangEmbedComplete {
    pub embedding: Vec<F32>,
    pub prompt_tokens: i32,
    pub cached_tokens: i32,
    pub embedding_dim: i32,
}

/// What a `SglangEmbedComplete` says.
#[verifier::ext_equal]
pub struct SglangEmbedCompleteView {
    pub embedding: Seq<F32>,
    pub prompt_tokens: i32,
    pub cached_tokens: i32,
    pub embedding_dim: i32,
}

impl DeepView for SglangEmbedComplete {
    type V = SglangEmbedCompleteView;

    open spec fn deep_view(&self) -> SglangEmbedCompleteView {
        SglangEmbedCompleteView {
            embedding: self.embedding.deep_view(),
            prompt_tokens: self.prompt_tokens.deep_view(),
            cached_tokens: self.cached_tokens.deep_view(),
            embedding_dim: self.embedding_dim.deep_view(),
        }
    }
}

/// A failed embedding.
#[derive(Debug)]
pub struct SglangEmbedError {
    pub message: String,
    pub code: String,
}

/// What a `SglangEmbedError` says.
#[verifier::ext_equal]
pub struct SglangEmbedErrorView {
    pub message: Seq<char>,
    pub code: Seq<char>,
}

impl DeepView for SglangEmbedError {
    type V = SglangEmbedErrorView;

    open spec fn deep_view(&self) -> SglangEmbedErrorView {
        SglangEmbedErrorView {
            message: self.message.deep_view(),
            code: self.code.deep_view(),
        }
    }
}

/// What SGLang answers to a request for an embedding.
#[derive(Debug)]
pub enum SglangEmbedResult {
    Complete(SglangEmbedComplete),
    Error(SglangEmbedError),
}

/// What a `SglangEmbedResult` says.
#[verifier::ext_equal]
pub enum SglangEmbedResultView {
    Complete(SglangEmbedCompleteView),
    Error(SglangEmbedErrorView),
}

impl DeepView for SglangEmbedResult {
    type V = SglangEmbedResultView;

    open spec fn deep_view(&self) -> SglangEmbedResultView {
        match *self {
            SglangEmbedResult::Complete(x) => SglangEmbedResultView::Complete(x.deep_view()),
            SglangEmbedResult::Error(x) => SglangEmbedResultView::Error(x.deep_view()),
        }
    }
}

/// A message of SGLang about an embedding.
#[derive(Debug)]
pub struct SglangEmbedResponse {
    pub response: Option<SglangEmbedResult>,
}

/// What a `SglangEmbedResponse` says.
#[verifier::ext_equal]
pub struct SglangEmbedResponseView {
    pub response: Option<SglangEmbedResultView>,
}

impl DeepView for SglangEmbedResponse {
    type V = SglangEmbedResponseView;

    open spec fn deep_view(&self) -> SglangEmbedResponseView {
        SglangEmbedResponseView {
            response: self.response.deep_view(),
        }
    }
}

} // verus!
