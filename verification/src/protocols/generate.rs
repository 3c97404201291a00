//! Native generation: `/generate`.

use vstd::prelude::*;

use super::common::StringOrArray;
use crate::float::F32;
use crate::json::Json;
use crate::json::JsonView;

verus! {

/// Token ids that stand for a prompt, or for several.
#[derive(Debug)]
pub enum InputIds {
    Single(Vec<i32>),
    Batch(Vec<Vec<i32>>),
}

/// How tokens are sampled.
#[derive(Debug)]
pub struct GenerateSamplingParams {
    pub temperature: Option<F32>,
    pub top_p: Option<F32>,
    pub top_k: Option<i32>,
    pub min_p: Option<F32>,
    pub frequency_penalty: Option<F32>,
    pub presence_penalty: Option<F32>,
    pub repetition_penalty: Option<F32>,
    pub max_new_tokens: Option<u32>,
    pub min_new_tokens: Option<u32>,
    pub n: Option<u32>,
    pub ignore_eos: Option<bool>,
    pub stop: Option<StringOrArray>,
    pub stop_token_ids: Option<Vec<u32>>,
    pub skip_special_tokens: Option<bool>,
    pub no_stop_trim: Option<bool>,
}

/// A request for generation.
#[derive(Debug)]
pub struct GenerateRequest {
    pub model: Option<String>,
    pub text: Option<String>,
    pub input_ids: Option<InputIds>,
    pub sampling_params: Option<GenerateSamplingParams>,
    pub stream: bool,
    pub return_logprob: Option<bool>,
    pub logprob_start_len: Option<i32>,
    pub top_logprobs_num: Option<i32>,
    pub token_ids_logprob: Option<Vec<u32>>,
    pub return_hidden_states: bool,
    pub log_metrics: bool,
    pub rid: Option<String>,
}

impl Default for GenerateSamplingParams {
    /// Everything is absent.
    fn default() -> (r: Self)
        ensures
            r.temperature is None,
            r.top_p is None,
            r.top_k is None,
            r.min_p is None,
            r.frequency_penalty is None,
            r.presence_penalty is None,
            r.repetition_penalty is None,
            r.max_new_tokens is None,
            r.min_new_tokens is None,
            r.n is None,
            r.ignore_eos is None,
            r.stop is None,
            r.stop_token_ids is None,
            r.skip_special_tokens is None,
            r.no_stop_trim is None,
    {
        GenerateSamplingParams {
            temperature: None,
            top_p: None,
            top_k: None,
            min_p: None,
            frequency_penalty: None,
            presence_penalty: None,
            repetition_penalty: None,
            max_new_tokens: None,
            min_new_tokens: None,
            n: None,
            ignore_eos: None,
            stop: None,
            stop_token_ids: None,
            skip_special_tokens: None,
            no_stop_trim: None,
        }
    }
}

impl Default for GenerateRequest {
    /// Everything is absent or off.
    fn default() -> (r: Self)
        ensures
            r.model is None,
            r.text is None,
            r.input_ids is None,
            r.sampling_params is None,
            !r.stream,
            r.return_logprob is None,
            r.logprob_start_len is None,
            r.top_logprobs_num is None,
            r.token_ids_logprob is None,
            !r.return_hidden_states,
            !r.log_metrics,
            r.rid is None,
    {
        GenerateRequest {
            model: None,
            text: None,
            input_ids: None,
            sampling_params: None,
            stream: false,
            return_logprob: None,
            logprob_start_len: None,
            top_logprobs_num: None,
            token_ids_logprob: None,
            return_hidden_states: false,
            log_metrics: false,
            rid: None,
        }
    }
}

/// Why generation ended.
#[derive(Debug)]
pub enum GenerateFinishReason {
    Stop,
    Length { length: u32 },
    Other(Json),
}

/// Why generation ended.
pub enum GenerateFinishReasonView {
    Stop,
    Length { length: u32 },
    Other(JsonView),
}

impl View for GenerateFinishReason {
    type V = GenerateFinishReasonView;

    open spec fn view(&self) -> GenerateFinishReasonView {
        match *self {
            GenerateFinishReason::Stop => GenerateFinishReasonView::Stop,
            GenerateFinishReason::Length { length } => GenerateFinishReasonView::Length { length },
            GenerateFinishReason::Other(v) => GenerateFinishReasonView::Other(v@),
        }
    }
}

/// A log probability and the token that it is of. On the wire both are doubles.
#[derive(Clone, Copy, Debug, PartialEq, Eq, Structural)]
pub struct LogprobEntry {
    pub logprob: F32,
    pub token_id: u32,
}

/// What is told of a finished generation besides its text.
#[derive(Debug)]
pub struct GenerateMetaInfo {
    pub id: String,
    pub finish_reason: GenerateFinishReason,
    pub prompt_tokens: u32,
    pub weight_version: String,
    pub input_token_logprobs: Option<Vec<LogprobEntry>>,
    pub output_token_logprobs: Option<Vec<LogprobEntry>>,
    pub completion_tokens: u32,
    pub cached_tokens: u32,
    pub matched_stop: Option<Json>,
}

/// A finished generation.
#[derive(Debug)]
pub struct GenerateResponse {
    pub text: String,
    pub output_ids: Vec<u32>,
    pub meta_info: GenerateMetaInfo,
}

/// What is told of a finished generation besides its text.
#[verifier::ext_equal]
pub struct GenerateMetaInfoView {
    pub id: Seq<char>,
    pub finish_reason: GenerateFinishReasonView,
    pub prompt_tokens: u32,
    pub weight_version: Seq<char>,
    pub input_token_logprobs: Option<Seq<LogprobEntry>>,
    pub output_token_logprobs: Option<Seq<LogprobEntry>>,
    pub completion_tokens: u32,
    pub cached_tokens: u32,
    pub matched_stop: Option<JsonView>,
}

/// A finished generation.
#[verifier::ext_equal]
pub struct GenerateResponseView {
    pub text: Seq<char>,
    pub output_ids: Seq<u32>,
    pub meta_info: GenerateMetaInfoView,
}

/// What a list says that may be absent.
pub open spec fn entries_view(entries: Option<Vec<LogprobEntry>>) -> Option<Seq<LogprobEntry>> {
    match entries {
        Some(list) => Some(list@),
        None => None,
    }
}

impl DeepView for GenerateResponse {
    type V = GenerateResponseView;

    open spec fn deep_view(&self) -> GenerateResponseView {
        GenerateResponseView {
            text: self.text@,
            output_ids: self.output_ids@,
            meta_info: GenerateMetaInfoView {
                id: self.meta_info.id@,
                finish_reason: self.meta_info.finish_reason@,
                prompt_tokens: self.meta_info.prompt_tokens,
                weight_version: self.meta_info.weight_version@,
                input_token_logprobs: entries_view(self.meta_info.input_token_logprobs),
                output_token_logprobs: entries_view(self.meta_info.output_token_logprobs),
                completion_tokens: self.meta_info.completion_tokens,
                cached_tokens: self.meta_info.cached_tokens,
                matched_stop: match self.meta_info.matched_stop {
                    Some(v) => Some(v@),
                    None => None,
                },
            },
        }
    }
}

} // verus!
