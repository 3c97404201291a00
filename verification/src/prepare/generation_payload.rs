//! Transport-neutral generation payload: everything the engine needs to build a
//! backend-specific request.

use vstd::prelude::*;

use crate::float::F32;
use crate::protocols::common::StringOrArray;

verus! {

#[derive(Debug)]
pub struct GenerationPayload {
    pub request_id: String,
    pub text: String,
    pub token_ids: Vec<u32>,
    pub sampling: SamplingParams,
    pub stop: StopConfig,
    pub logprob: LogprobConfig,
    /// The kind of a constraint on the output, and the constraint.
    pub tool_constraints: Option<(String, String)>,
    pub pd_metadata: Option<PdMetadata>,
    pub stream: bool,
    pub return_hidden_states: bool,
    /// SGLang only.
    pub log_metrics: bool,
}

#[derive(Clone, Copy, Debug, PartialEq, Eq, Structural)]
pub struct SamplingParams {
    pub temperature: F32,
    pub top_p: F32,
    /// `-1` disables it.
    pub top_k: i32,
    pub min_p: F32,
    pub frequency_penalty: F32,
    pub presence_penalty: F32,
    pub repetition_penalty: F32,
    pub max_new_tokens: Option<i32>,
    /// `0` means unset.
    pub min_new_tokens: i32,
    pub n: i32,
    pub ignore_eos: bool,
}

#[derive(Debug)]
pub struct StopConfig {
    pub stop: Option<StringOrArray>,
    pub stop_token_ids: Option<Vec<u32>>,
    pub skip_special_tokens: bool,
    /// SGLang only.
    pub no_stop_trim: bool,
}

#[derive(Debug)]
pub struct LogprobConfig {
    pub return_logprob: bool,
    pub top_logprobs_num: u32,
    /// `-1` asks for no input logprobs; another value for those from that position of the
    /// prompt on. SGLang only.
    pub logprob_start_len: i32,
    /// The tokens whose logprobs are asked for. SGLang only.
    pub token_ids_logprob: Vec<u32>,
    /// Whether the prefill stream is waited for.
    pub input_logprobs: bool,
}

/// How the decode worker finds the prefill worker. SGLang only.
#[derive(Debug)]
pub struct PdMetadata {
    pub bootstrap_host: String,
    pub bootstrap_port: i32,
    pub bootstrap_room: i32,
}

} // verus!
