//! Generation payloads from requests.

use vstd::prelude::*;

use super::generation_payload::GenerationPayload;
use super::generation_payload::LogprobConfig;
use super::generation_payload::SamplingParams;
use super::generation_payload::StopConfig;
use crate::duplicate::Duplicate;
use crate::float::F32;
use crate::protocols::chat::ChatCompletionRequest;
use crate::protocols::common::ToolChoice;
use crate::protocols::common::ToolChoiceValue;
use crate::protocols::generate::GenerateRequest;
use crate::protocols::generate::GenerateSamplingParams;

verus! {

/// A count as a signed number. Counts beyond its range wrap around.
pub open spec fn signed(n: u32) -> i32 {
    n as i32
}

pub open spec fn opt_signed(n: Option<u32>) -> Option<i32> {
    match n {
        Some(n) => Some(signed(n)),
        None => None,
    }
}

/// How a chat request is sampled.
pub open spec fn chat_sampling(req: ChatCompletionRequest) -> SamplingParams {
    SamplingParams {
        temperature: F32::or_one(req.temperature),
        top_p: F32::or_one(req.top_p),
        top_k: match req.top_k {
            Some(k) => k,
            None => (-1) as i32,
        },
        min_p: F32::or_zero(req.min_p),
        frequency_penalty: F32::or_zero(req.frequency_penalty),
        presence_penalty: F32::or_zero(req.presence_penalty),
        repetition_penalty: F32::or_one(req.repetition_penalty),
        max_new_tokens: opt_signed(req.max_completion_tokens),
        min_new_tokens: 0,
        n: match req.n {
            Some(n) => signed(n),
            None => 1,
        },
        ignore_eos: req.ignore_eos,
    }
}

/// With tools that may be called, special tokens are kept, so that the markers of tool
/// calls survive decoding.
pub open spec fn chat_skips_special_tokens(req: ChatCompletionRequest) -> bool {
    if req.tools is Some && req.tool_choice != Some(ToolChoice::Value(ToolChoiceValue::Never)) {
        false
    } else {
        req.skip_special_tokens
    }
}

/// Whether the payload asks for what the chat request asks for.
pub open spec fn is_chat_payload(p: GenerationPayload, req: ChatCompletionRequest) -> bool {
    &&& p.sampling == chat_sampling(req)
    &&& p.stop.stop.deep_view() == req.stop.deep_view()
    &&& p.stop.stop_token_ids.deep_view() == req.stop_token_ids.deep_view()
    &&& p.stop.skip_special_tokens == chat_skips_special_tokens(req)
    &&& p.stop.no_stop_trim == req.no_stop_trim
    &&& p.logprob.return_logprob == req.logprobs
    &&& p.logprob.top_logprobs_num == (match req.top_logprobs {
        Some(n) => n,
        None => 0,
    })
    &&& p.logprob.logprob_start_len == -1
    &&& p.logprob.token_ids_logprob@.len() == 0
    &&& !p.logprob.input_logprobs
    &&& p.pd_metadata is None
    &&& p.stream == req.stream
    &&& p.return_hidden_states == req.return_hidden_states
    &&& !p.log_metrics
}

/// The payload of a chat request with this prompt.
pub fn build_chat_payload(
    request_id: String,
    req: &ChatCompletionRequest,
    text: &str,
    token_ids: Vec<u32>,
    tool_constraints: Option<(String, String)>,
) -> (r: GenerationPayload)
    ensures
        r.request_id == request_id,
        r.text@ == text@,
        r.token_ids == token_ids,
        is_chat_payload(r, *req),
        r.tool_constraints == tool_constraints,
{
    let skip_special_tokens = if req.tools.is_some() {
        match &req.tool_choice {
            Some(ToolChoice::Value(ToolChoiceValue::Never)) => req.skip_special_tokens,
            _ => false,
        }
    } else {
        req.skip_special_tokens
    };
    let max_new_tokens: Option<i32> = match req.max_completion_tokens {
        Some(n) => Some(n as i32),
        None => None,
    };
    let n: i32 = match req.n {
        Some(n) => n as i32,
        None => 1,
    };
    GenerationPayload {
        request_id,
        text: text.to_owned(),
        token_ids,
        sampling: SamplingParams {
            temperature: req.temperature.unwrap_or(F32::one()),
            top_p: req.top_p.unwrap_or(F32::one()),
            top_k: req.top_k.unwrap_or(-1),
            min_p: req.min_p.unwrap_or(F32::zero()),
            frequency_penalty: req.frequency_penalty.unwrap_or(F32::zero()),
            presence_penalty: req.presence_penalty.unwrap_or(F32::zero()),
            repetition_penalty: req.repetition_penalty.unwrap_or(F32::one()),
            max_new_tokens,
            min_new_tokens: 0,
            n,
            ignore_eos: req.ignore_eos,
        },
        stop: StopConfig {
            stop: req.stop.duplicate(),
            stop_token_ids: req.stop_token_ids.duplicate(),
            skip_special_tokens,
            no_stop_trim: req.no_stop_trim,
        },
        logprob: LogprobConfig {
            return_logprob: req.logprobs,
            top_logprobs_num: req.top_logprobs.unwrap_or(0),
            logprob_start_len: -1,
            token_ids_logprob: Vec::new(),
            input_logprobs: false,
        },
        tool_constraints,
        pd_metadata: None,
        stream: req.stream,
        return_hidden_states: req.return_hidden_states,
        log_metrics: false,
    }
}

/// How a generate request is sampled. Without parameters everything has its default.
pub open spec fn generate_sampling(params: Option<GenerateSamplingParams>) -> SamplingParams {
    match params {
        Some(p) => SamplingParams {
            temperature: F32::or_one(p.temperature),
            top_p: F32::or_one(p.top_p),
            top_k: match p.top_k {
                Some(k) => k,
                None => (-1) as i32,
            },
            min_p: F32::or_zero(p.min_p),
            frequency_penalty: F32::or_zero(p.frequency_penalty),
            presence_penalty: F32::or_zero(p.presence_penalty),
            repetition_penalty: F32::or_one(p.repetition_penalty),
            max_new_tokens: opt_signed(p.max_new_tokens),
            // A minimum beyond the signed range counts as unset.
            min_new_tokens: match p.min_new_tokens {
                Some(n) => if n <= i32::MAX {
                    n as i32
                } else {
                    0
                },
                None => 0,
            },
            n: match p.n {
                Some(n) => signed(n),
                None => 1,
            },
            ignore_eos: p.ignore_eos == Some(true),
        },
        None => SamplingParams {
            temperature: F32::or_one(None),
            top_p: F32::or_one(None),
            top_k: (-1) as i32,
            min_p: F32::or_zero(None),
            frequency_penalty: F32::or_zero(None),
            presence_penalty: F32::or_zero(None),
            repetition_penalty: F32::or_one(None),
            max_new_tokens: None,
            min_new_tokens: 0,
            n: 1,
            ignore_eos: false,
        },
    }
}

fn make_generate_sampling(params: &Option<GenerateSamplingParams>) -> (r: SamplingParams)
    ensures
        r == generate_sampling(*params),
{
    match params {
        Some(p) => {
            let max_new_tokens: Option<i32> = match p.max_new_tokens {
                Some(n) => Some(n as i32),
                None => None,
            };
            let min_new_tokens: i32 = match p.min_new_tokens {
                Some(n) => if n <= 0x7fff_ffff {
                    n as i32
                } else {
                    0
                },
                None => 0,
            };
            let n: i32 = match p.n {
                Some(n) => n as i32,
                None => 1,
            };
            SamplingParams {
                temperature: p.temperature.unwrap_or(F32::one()),
                top_p: p.top_p.unwrap_or(F32::one()),
                top_k: p.top_k.unwrap_or(-1),
                min_p: p.min_p.unwrap_or(F32::zero()),
                frequency_penalty: p.frequency_penalty.unwrap_or(F32::zero()),
                presence_penalty: p.presence_penalty.unwrap_or(F32::zero()),
                repetition_penalty: p.repetition_penalty.unwrap_or(F32::one()),
                max_new_tokens,
                min_new_tokens,
                n,
                ignore_eos: p.ignore_eos.unwrap_or(false),
            }
        },
        None => SamplingParams {
            temperature: F32::one(),
            top_p: F32::one(),
            top_k: -1,
            min_p: F32::zero(),
            frequency_penalty: F32::zero(),
            presence_penalty: F32::zero(),
            repetition_penalty: F32::one(),
            max_new_tokens: None,
            min_new_tokens: 0,
            n: 1,
            ignore_eos: false,
        },
    }
}

/// Whether the payload asks for what the generate request asks for.
pub open spec fn is_generate_payload(p: GenerationPayload, req: GenerateRequest) -> bool {
    &&& p.sampling == generate_sampling(req.sampling_params)
    &&& match req.sampling_params {
        Some(params) => {
            &&& p.stop.stop.deep_view() == params.stop.deep_view()
            &&& p.stop.stop_token_ids.deep_view() == params.stop_token_ids.deep_view()
            &&& p.stop.skip_special_tokens == (params.skip_special_tokens != Some(false))
            &&& p.stop.no_stop_trim == (params.no_stop_trim == Some(true))
        },
        None => {
            &&& p.stop.stop is None
            &&& p.stop.stop_token_ids is None
            &&& p.stop.skip_special_tokens
            &&& !p.stop.no_stop_trim
        },
    }
    &&& p.logprob.return_logprob == (req.return_logprob == Some(true))
    &&& p.logprob.top_logprobs_num == (match req.top_logprobs_num {
        Some(n) => if n < 0 {
            0
        } else {
            n as u32
        },
        None => 0,
    })
    &&& p.logprob.logprob_start_len == (match req.logprob_start_len {
        Some(n) => n,
        None => (-1) as i32,
    })
    &&& p.logprob.token_ids_logprob.deep_view() == (match req.token_ids_logprob.deep_view() {
        Some(ids) => ids,
        None => Seq::empty(),
    })
    &&& p.logprob.input_logprobs == (p.logprob.logprob_start_len >= 0)
    &&& p.tool_constraints is None
    &&& p.pd_metadata is None
    &&& p.stream == req.stream
    &&& p.return_hidden_states == req.return_hidden_states
    &&& p.log_metrics == req.log_metrics
}

/// The payload of a generate request.
pub fn build_generate_payload(
    request_id: String,
    req: &GenerateRequest,
    original_text: Option<String>,
    token_ids: Vec<u32>,
) -> (r: GenerationPayload)
    ensures
        r.request_id == request_id,
        r.text@ == (match original_text {
            Some(t) => t@,
            None => Seq::empty(),
        }),
        r.token_ids == token_ids,
        is_generate_payload(r, *req),
{
    let stop = match &req.sampling_params {
        Some(p) => StopConfig {
            stop: p.stop.duplicate(),
            stop_token_ids: p.stop_token_ids.duplicate(),
            skip_special_tokens: p.skip_special_tokens.unwrap_or(true),
            no_stop_trim: p.no_stop_trim.unwrap_or(false),
        },
        None => StopConfig {
            stop: None,
            stop_token_ids: None,
            skip_special_tokens: true,
            no_stop_trim: false,
        },
    };
    let asked: i32 = req.top_logprobs_num.unwrap_or(0);
    let top_logprobs_num: u32 = if asked < 0 {
        0
    } else {
        asked as u32
    };
    let logprob_start_len: i32 = req.logprob_start_len.unwrap_or(-1);
    let token_ids_logprob: Vec<u32> = match &req.token_ids_logprob {
        Some(ids) => ids.duplicate(),
        None => Vec::new(),
    };
    assert(token_ids_logprob.deep_view() =~= (match req.token_ids_logprob.deep_view() {
        Some(ids) => ids,
        None => Seq::empty(),
    }));
    GenerationPayload {
        request_id,
        text: match original_text {
            Some(t) => t,
            None => String::new(),
        },
        token_ids,
        sampling: make_generate_sampling(&req.sampling_params),
        stop,
        logprob: LogprobConfig {
            return_logprob: req.return_logprob.unwrap_or(false),
            top_logprobs_num,
            logprob_start_len,
            token_ids_logprob,
            input_logprobs: logprob_start_len >= 0,
        },
        tool_constraints: None,
        pd_metadata: None,
        stream: req.stream,
        return_hidden_states: req.return_hidden_states,
        log_metrics: req.log_metrics,
    }
}

/// A worker is asked to sample as the client asked for: what a chat request sets reaches the
/// payload unchanged, and what it leaves open is sampled plainly.
pub proof fn law_chat_payload_asks_for_what_the_request_asks_for(
    request_id: String,
    req: &ChatCompletionRequest,
    text: &str,
    token_ids: Vec<u32>,
    tool_constraints: Option<(String, String)>,
    r: GenerationPayload,
)
    requires
        call_ensures(build_chat_payload, (request_id, req, text, token_ids, tool_constraints), r),
    ensures
        r.request_id@ == request_id@,
        r.text@ == text@,
        r.token_ids == token_ids,
        r.tool_constraints == tool_constraints,
        r.pd_metadata is None,
        r.stream == req.stream,
        r.return_hidden_states == req.return_hidden_states,
        !r.log_metrics,
        ({
            let s = r.sampling;
            &&& req.temperature matches Some(x) ==> s.temperature == x
            &&& req.temperature is None ==> s.temperature.bits == 0x3f80_0000
            &&& req.top_p matches Some(x) ==> s.top_p == x
            &&& req.top_p is None ==> s.top_p.bits == 0x3f80_0000
            &&& req.top_k matches Some(x) ==> s.top_k == x
            &&& req.top_k is None ==> s.top_k == -1
            &&& req.min_p matches Some(x) ==> s.min_p == x
            &&& req.min_p is None ==> s.min_p.bits == 0
            &&& req.frequency_penalty matches Some(x) ==> s.frequency_penalty == x
            &&& req.frequency_penalty is None ==> s.frequency_penalty.bits == 0
            &&& req.presence_penalty matches Some(x) ==> s.presence_penalty == x
            &&& req.presence_penalty is None ==> s.presence_penalty.bits == 0
            &&& req.repetition_penalty matches Some(x) ==> s.repetition_penalty == x
            &&& req.repetition_penalty is None ==> s.repetition_penalty.bits == 0x3f80_0000
            &&& s.max_new_tokens is Some == req.max_completion_tokens is Some
            &&& req.max_completion_tokens matches Some(x) ==> (x <= i32::MAX ==> s.max_new_tokens->0 == x)
            &&& s.min_new_tokens == 0
            &&& req.n matches Some(x) ==> (x <= i32::MAX ==> s.n == x)
            &&& req.n is None ==> s.n == 1
            &&& s.ignore_eos == req.ignore_eos
        }),
        r.stop.stop.deep_view() == req.stop.deep_view(),
        r.stop.stop_token_ids.deep_view() == req.stop_token_ids.deep_view(),
        r.stop.no_stop_trim == req.no_stop_trim,
        req.tools is None ==> r.stop.skip_special_tokens == req.skip_special_tokens,
        req.tools is Some && req.tool_choice == Some(ToolChoice::Value(ToolChoiceValue::Never))
            ==> r.stop.skip_special_tokens == req.skip_special_tokens,
        req.tools is Some && req.tool_choice != Some(ToolChoice::Value(ToolChoiceValue::Never))
            ==> !r.stop.skip_special_tokens,
        r.logprob.return_logprob == req.logprobs,
        req.top_logprobs matches Some(x) ==> r.logprob.top_logprobs_num == x,
        req.top_logprobs is None ==> r.logprob.top_logprobs_num == 0,
        r.logprob.logprob_start_len == -1,
        r.logprob.token_ids_logprob@.len() == 0,
        !r.logprob.input_logprobs,
{
}

/// A worker is asked to sample as the client asked for: what a generate request sets reaches
/// the payload unchanged, and what it leaves open is sampled plainly. Input log probabilities
/// are waited for exactly where the request names the place from which on it wants them.
pub proof fn law_generate_payload_asks_for_what_the_request_asks_for(
    request_id: String,
    req: &GenerateRequest,
    original_text: Option<String>,
    token_ids: Vec<u32>,
    r: GenerationPayload,
)
    requires
        call_ensures(build_generate_payload, (request_id, req, original_text, token_ids), r),
    ensures
        r.request_id@ == request_id@,
        original_text matches Some(t) ==> r.text@ == t@,
        original_text is None ==> r.text@.len() == 0,
        r.token_ids == token_ids,
        r.tool_constraints is None,
        r.pd_metadata is None,
        r.stream == req.stream,
        r.return_hidden_states == req.return_hidden_states,
        r.log_metrics == req.log_metrics,
        req.sampling_params matches Some(p) ==> {
            let s = r.sampling;
            &&& p.temperature matches Some(x) ==> s.temperature == x
            &&& p.top_p matches Some(x) ==> s.top_p == x
            &&& p.top_k matches Some(x) ==> s.top_k == x
            &&& p.min_p matches Some(x) ==> s.min_p == x
            &&& p.frequency_penalty matches Some(x) ==> s.frequency_penalty == x
            &&& p.presence_penalty matches Some(x) ==> s.presence_penalty == x
            &&& p.repetition_penalty matches Some(x) ==> s.repetition_penalty == x
            &&& s.max_new_tokens is Some == p.max_new_tokens is Some
            &&& p.max_new_tokens matches Some(x) ==> (x <= i32::MAX ==> s.max_new_tokens->0 == x)
            &&& p.min_new_tokens matches Some(x) ==> s.min_new_tokens == (if x <= i32::MAX {
                x as int
            } else {
                0
            })
            &&& p.n matches Some(x) ==> (x <= i32::MAX ==> s.n == x)
            &&& s.ignore_eos == (p.ignore_eos == Some(true))
            &&& r.stop.stop.deep_view() == p.stop.deep_view()
            &&& r.stop.stop_token_ids.deep_view() == p.stop_token_ids.deep_view()
            &&& r.stop.skip_special_tokens == (p.skip_special_tokens != Some(false))
            &&& r.stop.no_stop_trim == (p.no_stop_trim == Some(true))
        },
        ({
            let given = req.sampling_params;
            let s = r.sampling;
            &&& given is None || given->0.temperature is None ==> s.temperature.bits == 0x3f80_0000
            &&& given is None || given->0.top_p is None ==> s.top_p.bits == 0x3f80_0000
            &&& given is None || given->0.top_k is None ==> s.top_k == -1
            &&& given is None || given->0.min_p is None ==> s.min_p.bits == 0
            &&& given is None || given->0.frequency_penalty is None ==> s.frequency_penalty.bits
                == 0
            &&& given is None || given->0.presence_penalty is None ==> s.presence_penalty.bits == 0
            &&& given is None || given->0.repetition_penalty is None
                ==> s.repetition_penalty.bits == 0x3f80_0000
            &&& given is None ==> s.max_new_tokens is None && !s.ignore_eos
            &&& given is None || given->0.min_new_tokens is None ==> s.min_new_tokens == 0
            &&& given is None || given->0.n is None ==> s.n == 1
            &&& given is None ==> r.stop.stop is None && r.stop.stop_token_ids is None
                && r.stop.skip_special_tokens && !r.stop.no_stop_trim
        }),
        r.logprob.return_logprob == (req.return_logprob == Some(true)),
        req.top_logprobs_num matches Some(x) ==> r.logprob.top_logprobs_num == (if x < 0 {
            0
        } else {
            x as int
        }),
        req.top_logprobs_num is None ==> r.logprob.top_logprobs_num == 0,
        req.logprob_start_len matches Some(x) ==> r.logprob.logprob_start_len == x,
        req.logprob_start_len is None ==> r.logprob.logprob_start_len == -1,
        r.logprob.input_logprobs == (req.logprob_start_len is Some && req.logprob_start_len->0
            >= 0),
        req.token_ids_logprob matches Some(ids) ==> r.logprob.token_ids_logprob.deep_view()
            == ids.deep_view(),
        req.token_ids_logprob is None ==> r.logprob.token_ids_logprob@.len() == 0,
{
    assert(r.logprob.token_ids_logprob.deep_view().len() == r.logprob.token_ids_logprob@.len());
}

} // verus!
