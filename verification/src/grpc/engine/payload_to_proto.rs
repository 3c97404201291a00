//! Backend-specific adapters: the single place where a generation payload becomes a
//! request of a backend.

use vstd::prelude::*;

use super::proto::DisaggregatedParams;
use super::proto::DisaggregatedParamsView;
use super::proto::SglangConstraint;
use super::proto::SglangConstraintView;
use super::proto::SglangGenerateRequest;
use super::proto::SglangGenerateRequestView;
use super::proto::SglangSamplingParams;
use super::proto::SglangSamplingParamsView;
use super::proto::TokenizedInput;
use super::proto::TokenizedInputView;
use super::proto::VllmConstraint;
use super::proto::VllmConstraintView;
use super::proto::VllmGenerateRequest;
use super::proto::VllmGenerateRequestView;
use super::proto::VllmSamplingParams;
use super::proto::VllmSamplingParamsView;
use crate::duplicate::Duplicate;
use crate::prepare::generation_payload::GenerationPayload;
use crate::prepare::generation_payload::PdMetadata;
use crate::prepare::stop_decoder_builder;
use crate::prepare::stop_decoder_builder::stop_strings;
use crate::protocols::common::StringOrArray;
use crate::text;

verus! {

/// The constraint of this kind for SGLang. There are no other kinds.
pub open spec fn sglang_constraint(kind: Seq<char>, value: Seq<char>) -> Option<
    SglangConstraintView,
> {
    if kind == "json_schema"@ {
        Some(SglangConstraintView::JsonSchema(value))
    } else if kind == "ebnf"@ {
        Some(SglangConstraintView::EbnfGrammar(value))
    } else if kind == "regex"@ {
        Some(SglangConstraintView::Regex(value))
    } else if kind == "structural_tag"@ {
        Some(SglangConstraintView::StructuralTag(value))
    } else {
        None
    }
}

/// The constraint of this kind for vLLM. There are no other kinds.
pub open spec fn vllm_constraint(kind: Seq<char>, value: Seq<char>) -> Option<VllmConstraintView> {
    if kind == "json_schema"@ {
        Some(VllmConstraintView::JsonSchema(value))
    } else if kind == "ebnf"@ || kind == "grammar"@ {
        Some(VllmConstraintView::Grammar(value))
    } else if kind == "regex"@ {
        Some(VllmConstraintView::Regex(value))
    } else if kind == "structural_tag"@ {
        Some(VllmConstraintView::StructuralTag(value))
    } else {
        None
    }
}

/// The constraint of the payload, if any, is of a kind that SGLang knows.
pub open spec fn fits_sglang(payload: GenerationPayload) -> bool {
    payload.tool_constraints matches Some((kind, value)) ==> sglang_constraint(kind@, value@)
        is Some
}

/// The constraint of the payload, if any, is of a kind that vLLM knows.
pub open spec fn fits_vllm(payload: GenerationPayload) -> bool {
    payload.tool_constraints matches Some((kind, value)) ==> vllm_constraint(kind@, value@) is Some
}

/// Whether SGLang knows constraints of this kind.
pub fn sglang_knows(kind: &str) -> (r: bool)
    ensures
        forall|value: Seq<char>| r == (#[trigger] sglang_constraint(kind@, value) is Some),
        r == (sglang_constraint(kind@, Seq::empty()) is Some),
{
    text::same(kind, "json_schema") || text::same(kind, "ebnf") || text::same(kind, "regex")
        || text::same(kind, "structural_tag")
}

/// Whether vLLM knows constraints of this kind.
pub fn vllm_knows(kind: &str) -> (r: bool)
    ensures
        forall|value: Seq<char>| r == (#[trigger] vllm_constraint(kind@, value) is Some),
        r == (vllm_constraint(kind@, Seq::empty()) is Some),
{
    text::same(kind, "json_schema") || text::same(kind, "ebnf") || text::same(kind, "grammar")
        || text::same(kind, "regex") || text::same(kind, "structural_tag")
}

/// A negative number counts as zero.
pub open spec fn at_least_zero(n: i32) -> u32 {
    if n < 0 {
        0
    } else {
        n as u32
    }
}

pub open spec fn token_list(ids: Option<Seq<u32>>) -> Seq<u32> {
    match ids {
        Some(ids) => ids,
        None => Seq::empty(),
    }
}

pub open spec fn payload_input(payload: GenerationPayload) -> TokenizedInputView {
    TokenizedInputView {
        original_text: payload.text@,
        input_ids: payload.token_ids.deep_view(),
    }
}

pub open spec fn sglang_sampling(payload: GenerationPayload) -> SglangSamplingParamsView {
    SglangSamplingParamsView {
        temperature: payload.sampling.temperature,
        top_p: payload.sampling.top_p,
        top_k: payload.sampling.top_k,
        min_p: payload.sampling.min_p,
        frequency_penalty: payload.sampling.frequency_penalty,
        presence_penalty: payload.sampling.presence_penalty,
        repetition_penalty: payload.sampling.repetition_penalty,
        max_new_tokens: payload.sampling.max_new_tokens,
        stop: stop_decoder_builder::stop_list(payload.stop.stop.deep_view()),
        stop_token_ids: token_list(payload.stop.stop_token_ids.deep_view()),
        skip_special_tokens: payload.stop.skip_special_tokens,
        spaces_between_special_tokens: true,
        n: payload.sampling.n,
        min_new_tokens: payload.sampling.min_new_tokens,
        ignore_eos: payload.sampling.ignore_eos,
        no_stop_trim: payload.stop.no_stop_trim,
        constraint: match payload.tool_constraints {
            Some((kind, value)) => sglang_constraint(kind@, value@),
            None => None,
        },
    }
}

pub open spec fn sglang_disagg(pd: PdMetadata) -> DisaggregatedParamsView {
    DisaggregatedParamsView {
        bootstrap_host: pd.bootstrap_host@,
        bootstrap_port: pd.bootstrap_port,
        bootstrap_room: pd.bootstrap_room,
    }
}

pub open spec fn sglang_request(payload: GenerationPayload) -> SglangGenerateRequestView {
    SglangGenerateRequestView {
        request_id: payload.request_id@,
        tokenized: Some(payload_input(payload)),
        sampling_params: Some(sglang_sampling(payload)),
        return_logprob: payload.logprob.return_logprob,
        logprob_start_len: payload.logprob.logprob_start_len,
        top_logprobs_num: payload.logprob.top_logprobs_num as i32,
        token_ids_logprob: payload.logprob.token_ids_logprob.deep_view(),
        return_hidden_states: payload.return_hidden_states,
        stream: payload.stream,
        log_metrics: payload.log_metrics,
        disaggregated_params: match payload.pd_metadata {
            Some(pd) => Some(sglang_disagg(pd)),
            None => None,
        },
    }
}

/// vLLM has no negative numbers: where SGLang has one, vLLM has zero.
pub open spec fn vllm_sampling(payload: GenerationPayload) -> VllmSamplingParamsView {
    VllmSamplingParamsView {
        temperature: Some(payload.sampling.temperature),
        top_p: payload.sampling.top_p,
        top_k: at_least_zero(payload.sampling.top_k),
        min_p: payload.sampling.min_p,
        frequency_penalty: payload.sampling.frequency_penalty,
        presence_penalty: payload.sampling.presence_penalty,
        repetition_penalty: payload.sampling.repetition_penalty,
        max_tokens: match payload.sampling.max_new_tokens {
            Some(n) => Some(at_least_zero(n)),
            None => None,
        },
        min_tokens: at_least_zero(payload.sampling.min_new_tokens),
        stop: stop_decoder_builder::stop_list(payload.stop.stop.deep_view()),
        stop_token_ids: token_list(payload.stop.stop_token_ids.deep_view()),
        skip_special_tokens: payload.stop.skip_special_tokens,
        spaces_between_special_tokens: true,
        ignore_eos: payload.sampling.ignore_eos,
        n: at_least_zero(payload.sampling.n),
        constraint: match payload.tool_constraints {
            Some((kind, value)) => vllm_constraint(kind@, value@),
            None => None,
        },
    }
}

pub open spec fn vllm_request(payload: GenerationPayload) -> VllmGenerateRequestView {
    VllmGenerateRequestView {
        request_id: payload.request_id@,
        tokenized: Some(payload_input(payload)),
        sampling_params: Some(vllm_sampling(payload)),
        stream: payload.stream,
    }
}

/// A negative number counts as zero.
pub fn clamp(n: i32) -> (r: u32)
    ensures
        r == at_least_zero(n),
{
    if n < 0 {
        0
    } else {
        n as u32
    }
}

fn sglang_tool_constraint_to_proto(constraint_type: &str, value: &str) -> (r: SglangConstraint)
    requires
        sglang_constraint(constraint_type@, value@) is Some,
    ensures
        sglang_constraint(constraint_type@, value@) == Some(r.deep_view()),
{
    if text::same(constraint_type, "json_schema") {
        SglangConstraint::JsonSchema(value.to_owned())
    } else if text::same(constraint_type, "ebnf") {
        SglangConstraint::EbnfGrammar(value.to_owned())
    } else if text::same(constraint_type, "regex") {
        SglangConstraint::Regex(value.to_owned())
    } else {
        SglangConstraint::StructuralTag(value.to_owned())
    }
}

fn vllm_tool_constraint_to_proto(constraint_type: &str, value: &str) -> (r: VllmConstraint)
    requires
        vllm_constraint(constraint_type@, value@) is Some,
    ensures
        vllm_constraint(constraint_type@, value@) == Some(r.deep_view()),
{
    if text::same(constraint_type, "json_schema") {
        VllmConstraint::JsonSchema(value.to_owned())
    } else if text::same(constraint_type, "ebnf") || text::same(constraint_type, "grammar") {
        VllmConstraint::Grammar(value.to_owned())
    } else if text::same(constraint_type, "regex") {
        VllmConstraint::Regex(value.to_owned())
    } else {
        VllmConstraint::StructuralTag(value.to_owned())
    }
}

fn copy_token_list(ids: &Option<Vec<u32>>) -> (r: Vec<u32>)
    ensures
        r.deep_view() == token_list(ids.deep_view()),
{
    match ids {
        Some(ids) => ids.duplicate(),
        None => {
            let none: Vec<u32> = Vec::new();
            assert(none.deep_view() =~= Seq::empty());
            none
        },
    }
}

fn build_sglang_sampling_params(payload: &GenerationPayload) -> (r: SglangSamplingParams)
    requires
        fits_sglang(*payload),
    ensures
        r.deep_view() == sglang_sampling(*payload),
{
    let constraint = match &payload.tool_constraints {
        Some((kind, value)) => Some(
            sglang_tool_constraint_to_proto(kind.as_str(), value.as_str()),
        ),
        None => None,
    };
    SglangSamplingParams {
        temperature: payload.sampling.temperature,
        top_p: payload.sampling.top_p,
        top_k: payload.sampling.top_k,
        min_p: payload.sampling.min_p,
        frequency_penalty: payload.sampling.frequency_penalty,
        presence_penalty: payload.sampling.presence_penalty,
        repetition_penalty: payload.sampling.repetition_penalty,
        max_new_tokens: payload.sampling.max_new_tokens,
        stop: stop_strings(payload.stop.stop.as_ref()),
        stop_token_ids: copy_token_list(&payload.stop.stop_token_ids),
        skip_special_tokens: payload.stop.skip_special_tokens,
        spaces_between_special_tokens: true,
        n: payload.sampling.n,
        min_new_tokens: payload.sampling.min_new_tokens,
        ignore_eos: payload.sampling.ignore_eos,
        no_stop_trim: payload.stop.no_stop_trim,
        constraint,
    }
}

fn build_vllm_sampling_params(payload: &GenerationPayload) -> (r: VllmSamplingParams)
    requires
        fits_vllm(*payload),
    ensures
        r.deep_view() == vllm_sampling(*payload),
{
    let constraint = match &payload.tool_constraints {
        Some((kind, value)) => Some(vllm_tool_constraint_to_proto(kind.as_str(), value.as_str())),
        None => None,
    };
    let max_tokens: Option<u32> = match payload.sampling.max_new_tokens {
        Some(n) => Some(clamp(n)),
        None => None,
    };
    VllmSamplingParams {
        temperature: Some(payload.sampling.temperature),
        top_p: payload.sampling.top_p,
        top_k: clamp(payload.sampling.top_k),
        min_p: payload.sampling.min_p,
        frequency_penalty: payload.sampling.frequency_penalty,
        presence_penalty: payload.sampling.presence_penalty,
        repetition_penalty: payload.sampling.repetition_penalty,
        max_tokens,
        min_tokens: clamp(payload.sampling.min_new_tokens),
        stop: stop_strings(payload.stop.stop.as_ref()),
        stop_token_ids: copy_token_list(&payload.stop.stop_token_ids),
        skip_special_tokens: payload.stop.skip_special_tokens,
        spaces_between_special_tokens: true,
        ignore_eos: payload.sampling.ignore_eos,
        n: clamp(payload.sampling.n),
        constraint,
    }
}

fn to_sglang_disagg(pd: &PdMetadata) -> (r: DisaggregatedParams)
    ensures
        r.deep_view() == sglang_disagg(*pd),
{
    DisaggregatedParams {
        bootstrap_host: pd.bootstrap_host.clone(),
        bootstrap_port: pd.bootstrap_port,
        bootstrap_room: pd.bootstrap_room,
    }
}

fn make_input(payload: &GenerationPayload) -> (r: TokenizedInput)
    ensures
        r.deep_view() == payload_input(*payload),
{
    TokenizedInput {
        original_text: payload.text.clone(),
        input_ids: payload.token_ids.duplicate(),
    }
}

/// The request to SGLang.
pub fn to_sglang_proto(payload: &GenerationPayload) -> (r: SglangGenerateRequest)
    requires
        fits_sglang(*payload),
    ensures
        r.deep_view() == sglang_request(*payload),
{
    let disaggregated_params = match &payload.pd_metadata {
        Some(pd) => Some(to_sglang_disagg(pd)),
        None => None,
    };
    SglangGenerateRequest {
        request_id: payload.request_id.clone(),
        tokenized: Some(make_input(payload)),
        sampling_params: Some(build_sglang_sampling_params(payload)),
        return_logprob: payload.logprob.return_logprob,
        logprob_start_len: payload.logprob.logprob_start_len,
        top_logprobs_num: payload.logprob.top_logprobs_num as i32,
        token_ids_logprob: payload.logprob.token_ids_logprob.duplicate(),
        return_hidden_states: payload.return_hidden_states,
        stream: payload.stream,
        log_metrics: payload.log_metrics,
        disaggregated_params,
    }
}

/// The request to vLLM. What vLLM does not know of is left out.
pub fn to_vllm_proto(payload: &GenerationPayload) -> (r: VllmGenerateRequest)
    requires
        fits_vllm(*payload),
    ensures
        r.deep_view() == vllm_request(*payload),
{
    VllmGenerateRequest {
        request_id: payload.request_id.clone(),
        tokenized: Some(make_input(payload)),
        sampling_params: Some(build_vllm_sampling_params(payload)),
        stream: payload.stream,
    }
}

/// What SGLang takes as a constraint, vLLM takes too.
pub proof fn law_vllm_knows_every_sglang_constraint(payload: GenerationPayload)
    requires
        fits_sglang(payload),
    ensures
        fits_vllm(payload),
{
}

/// vLLM is not told where the prefill worker is: two payloads that differ in nothing else
/// make the same request.
pub proof fn law_vllm_ignores_disaggregation(payload: GenerationPayload, pd: Option<PdMetadata>)
    ensures
        vllm_request(GenerationPayload { pd_metadata: pd, ..payload }) == vllm_request(payload),
{
}

/// Whether these are the stop sequences that a request gave: one, or a list of them.
pub open spec fn are_stops(
    given: Option<StringOrArray>,
    stops: Vec<String>,
) -> bool {
    match given {
        Some(StringOrArray::String(s)) => stops@.len() == 1 && stops@[0]@
            == s@,
        Some(StringOrArray::Array(list)) => stops.deep_view()
            == list.deep_view(),
        None => stops@.len() == 0,
    }
}

/// Whether these are the tokens that were given, if any were.
pub open spec fn are_tokens(given: Option<Vec<u32>>, tokens: Vec<u32>) -> bool {
    match given {
        Some(ids) => tokens.deep_view() == ids.deep_view(),
        None => tokens@.len() == 0,
    }
}

/// Whatever the payload asks for, an SGLang worker is asked for: the prompt and its tokens,
/// how they are sampled, where they stop, which log probabilities are told, and where the
/// workers of a pair meet. The constraint goes by its kind.
pub proof fn law_sglang_is_asked_for_what_the_payload_says(
    payload: &GenerationPayload,
    r: SglangGenerateRequest,
)
    requires
        fits_sglang(*payload),
        call_ensures(to_sglang_proto, (payload,), r),
    ensures
        r.request_id@ == payload.request_id@,
        r.stream == payload.stream,
        r.tokenized is Some,
        r.tokenized->0.original_text@ == payload.text@,
        r.tokenized->0.input_ids.deep_view() == payload.token_ids.deep_view(),
        r.return_logprob == payload.logprob.return_logprob,
        r.logprob_start_len == payload.logprob.logprob_start_len,
        payload.logprob.top_logprobs_num <= i32::MAX ==> r.top_logprobs_num
            == payload.logprob.top_logprobs_num,
        r.token_ids_logprob.deep_view() == payload.logprob.token_ids_logprob.deep_view(),
        r.return_hidden_states == payload.return_hidden_states,
        r.log_metrics == payload.log_metrics,
        r.disaggregated_params is Some == payload.pd_metadata is Some,
        payload.pd_metadata matches Some(pd) ==> {
            &&& r.disaggregated_params->0.bootstrap_host@ == pd.bootstrap_host@
            &&& r.disaggregated_params->0.bootstrap_port == pd.bootstrap_port
            &&& r.disaggregated_params->0.bootstrap_room == pd.bootstrap_room
        },
        r.sampling_params is Some,
        ({
            let asked = r.sampling_params->0;
            &&& asked.temperature == payload.sampling.temperature
            &&& asked.top_p == payload.sampling.top_p
            &&& asked.top_k == payload.sampling.top_k
            &&& asked.min_p == payload.sampling.min_p
            &&& asked.frequency_penalty == payload.sampling.frequency_penalty
            &&& asked.presence_penalty == payload.sampling.presence_penalty
            &&& asked.repetition_penalty == payload.sampling.repetition_penalty
            &&& asked.max_new_tokens == payload.sampling.max_new_tokens
            &&& asked.min_new_tokens == payload.sampling.min_new_tokens
            &&& asked.n == payload.sampling.n
            &&& asked.ignore_eos == payload.sampling.ignore_eos
            &&& asked.skip_special_tokens == payload.stop.skip_special_tokens
            &&& asked.no_stop_trim == payload.stop.no_stop_trim
            &&& asked.spaces_between_special_tokens
            &&& are_stops(payload.stop.stop, asked.stop)
            &&& are_tokens(payload.stop.stop_token_ids, asked.stop_token_ids)
            &&& asked.constraint is Some == payload.tool_constraints is Some
        }),
        payload.tool_constraints matches Some((kind, value)) ==> {
            let constraint = r.sampling_params->0.constraint->0;
            &&& constraint matches SglangConstraint::JsonSchema(s) ==> kind@ == "json_schema"@ && s@
                == value@
            &&& constraint matches SglangConstraint::EbnfGrammar(s) ==> kind@ == "ebnf"@ && s@
                == value@
            &&& constraint matches SglangConstraint::Regex(s) ==> kind@ == "regex"@ && s@ == value@
            &&& constraint matches SglangConstraint::StructuralTag(s) ==> kind@
                == "structural_tag"@ && s@ == value@
        },
{
    let view = r.deep_view();
    assert(view.request_id == r.request_id@);
    assert(view.token_ids_logprob == r.token_ids_logprob.deep_view());
    assert(view.tokenized == r.tokenized.deep_view());
    let input = r.tokenized->0;
    assert(view.tokenized->0 == input.deep_view());
    assert(view.disaggregated_params == r.disaggregated_params.deep_view());
    if payload.pd_metadata is Some {
        assert(view.disaggregated_params->0 == r.disaggregated_params->0.deep_view());
    }
    assert(view.sampling_params == r.sampling_params.deep_view());
    let asked = r.sampling_params->0;
    let said = view.sampling_params->0;
    assert(said == asked.deep_view());
    assert(said.stop == asked.stop.deep_view());
    assert(said.stop.len() == asked.stop@.len());
    assert(said.stop_token_ids == asked.stop_token_ids.deep_view());
    assert(said.stop_token_ids.len() == asked.stop_token_ids@.len());
    assert(said.constraint == asked.constraint.deep_view());
    if asked.stop@.len() > 0 {
        assert(said.stop[0] == asked.stop@[0]@);
    }
    if payload.tool_constraints is Some {
        assert(said.constraint->0 == asked.constraint->0.deep_view());
        lemma_constraint_kinds();
    }
}

proof fn lemma_constraint_kinds()
    ensures
        "json_schema"@ != "ebnf"@,
        "json_schema"@ != "regex"@,
        "json_schema"@ != "structural_tag"@,
        "json_schema"@ != "grammar"@,
        "ebnf"@ != "regex"@,
        "ebnf"@ != "structural_tag"@,
        "regex"@ != "structural_tag"@,
        "grammar"@ != "regex"@,
        "grammar"@ != "structural_tag"@,
{
    reveal_strlit("json_schema");
    reveal_strlit("ebnf");
    reveal_strlit("regex");
    reveal_strlit("structural_tag");
    reveal_strlit("grammar");
    assert("json_schema"@.len() != "ebnf"@.len());
    assert("json_schema"@.len() != "regex"@.len());
    assert("json_schema"@.len() != "structural_tag"@.len());
    assert("json_schema"@.len() != "grammar"@.len());
    assert("ebnf"@.len() != "regex"@.len());
    assert("ebnf"@.len() != "structural_tag"@.len());
    assert("regex"@.len() != "structural_tag"@.len());
    assert("grammar"@.len() != "regex"@.len());
    assert("grammar"@.len() != "structural_tag"@.len());
}

/// The number that vLLM is told, which has no negative ones.
pub open spec fn is_told(n: i32, told: u32) -> bool {
    &&& n >= 0 ==> told == n
    &&& n < 0 ==> told == 0
}

/// Whatever the payload asks for and vLLM knows of, a vLLM worker is asked for. The constraint
/// goes by its kind.
pub proof fn law_vllm_is_asked_for_what_the_payload_says(
    payload: &GenerationPayload,
    r: VllmGenerateRequest,
)
    requires
        fits_vllm(*payload),
        call_ensures(to_vllm_proto, (payload,), r),
    ensures
        r.request_id@ == payload.request_id@,
        r.stream == payload.stream,
        r.tokenized is Some,
        r.tokenized->0.original_text@ == payload.text@,
        r.tokenized->0.input_ids.deep_view() == payload.token_ids.deep_view(),
        r.sampling_params is Some,
        ({
            let asked = r.sampling_params->0;
            &&& asked.temperature == Some(payload.sampling.temperature)
            &&& asked.top_p == payload.sampling.top_p
            &&& is_told(payload.sampling.top_k, asked.top_k)
            &&& asked.min_p == payload.sampling.min_p
            &&& asked.frequency_penalty == payload.sampling.frequency_penalty
            &&& asked.presence_penalty == payload.sampling.presence_penalty
            &&& asked.repetition_penalty == payload.sampling.repetition_penalty
            &&& asked.max_tokens is Some == payload.sampling.max_new_tokens is Some
            &&& payload.sampling.max_new_tokens matches Some(n) ==> is_told(
                n,
                asked.max_tokens->0,
            )
            &&& is_told(payload.sampling.min_new_tokens, asked.min_tokens)
            &&& is_told(payload.sampling.n, asked.n)
            &&& asked.ignore_eos == payload.sampling.ignore_eos
            &&& asked.skip_special_tokens == payload.stop.skip_special_tokens
            &&& asked.spaces_between_special_tokens
            &&& are_stops(payload.stop.stop, asked.stop)
            &&& are_tokens(payload.stop.stop_token_ids, asked.stop_token_ids)
            &&& asked.constraint is Some == payload.tool_constraints is Some
        }),
        payload.tool_constraints matches Some((kind, value)) ==> {
            let constraint = r.sampling_params->0.constraint->0;
            &&& constraint matches VllmConstraint::JsonSchema(s) ==> kind@ == "json_schema"@ && s@
                == value@
            &&& constraint matches VllmConstraint::Grammar(s) ==> (kind@ == "ebnf"@ || kind@
                == "grammar"@) && s@ == value@
            &&& constraint matches VllmConstraint::Regex(s) ==> kind@ == "regex"@ && s@ == value@
            &&& constraint matches VllmConstraint::StructuralTag(s) ==> kind@
                == "structural_tag"@ && s@ == value@
        },
{
    let view = r.deep_view();
    assert(view.request_id == r.request_id@);
    assert(view.tokenized == r.tokenized.deep_view());
    let input = r.tokenized->0;
    assert(view.tokenized->0 == input.deep_view());
    assert(view.sampling_params == r.sampling_params.deep_view());
    let asked = r.sampling_params->0;
    let said = view.sampling_params->0;
    assert(said == asked.deep_view());
    assert(said.temperature == asked.temperature.deep_view());
    assert(said.max_tokens == asked.max_tokens.deep_view());
    assert(said.stop == asked.stop.deep_view());
    assert(said.stop.len() == asked.stop@.len());
    assert(said.stop_token_ids == asked.stop_token_ids.deep_view());
    assert(said.stop_token_ids.len() == asked.stop_token_ids@.len());
    assert(said.constraint == asked.constraint.deep_view());
    if asked.stop@.len() > 0 {
        assert(said.stop[0] == asked.stop@[0]@);
    }
    if payload.tool_constraints is Some {
        assert(said.constraint->0 == asked.constraint->0.deep_view());
        lemma_constraint_kinds();
    }
}

/// Both backends know constraints by a schema, a grammar, a regular expression and structural
/// tags. vLLM knows a grammar under a second name. A number below zero counts as zero.
pub proof fn law_backends_know_their_constraints(
    kind: &str,
    sglang: bool,
    vllm: bool,
    n: i32,
    clamped: u32,
)
    requires
        call_ensures(sglang_knows, (kind,), sglang),
        call_ensures(vllm_knows, (kind,), vllm),
        call_ensures(clamp, (n,), clamped),
    ensures
        sglang <==> kind@ == "json_schema"@ || kind@ == "ebnf"@ || kind@ == "regex"@ || kind@
            == "structural_tag"@,
        vllm <==> sglang || kind@ == "grammar"@,
        is_told(n, clamped),
{
    let value = Seq::<char>::empty();
    assert(sglang == (sglang_constraint(kind@, value) is Some));
    assert(vllm == (vllm_constraint(kind@, value) is Some));
}

} // verus!
