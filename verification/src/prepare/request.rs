//! Preparing chat and generate requests.

use std::sync::Arc;
use vstd::prelude::*;

use super::chat_template;
use super::chat_template::process_chat_messages;
use super::encoded_chat;
use super::encoded_chat::filter_chat_request_by_tool_choice;
use super::encoded_chat::EncodedChat;
use super::encoded_chat::EncodedChatView;
use super::generation_payload::GenerationPayload;
use super::payload_builder;
use super::payload_builder::build_chat_payload;
use super::payload_builder::build_generate_payload;
use super::response_context::ProtocolRequest;
use super::response_context::ResponseContext;
use super::stop_decoder_builder;
use super::stop_decoder_builder::create_stop_decoder;
use super::stop_decoder_builder::StopDecoderConfig;
use super::tool_constraints;
use super::tool_constraints::generate_tool_constraints;
use crate::comm::error;
use crate::comm::error::ErrorResponse;
use crate::duplicate::Duplicate;
use crate::ids;
use crate::protocols::chat::ChatCompletionRequest;
use crate::json::JsonView;
use crate::protocols::common::StringOrArray;
use crate::protocols::common::StringOrArrayView;
use crate::protocols::common::Tool;
use crate::protocols::generate::GenerateRequest;
use crate::protocols::generate::InputIds;
use crate::text;
use crate::tokenizer;
use crate::tokenizer::ChatTemplateParamsView;
use crate::tokenizer::Tokenizer;
use crate::tokenizer::TokenizerRegistry;

verus! {

/// The tokenizer of a model.
pub fn lookup_tokenizer<'a, T>(model_id: &str, registry: &'a TokenizerRegistry<T>) -> (r: Result<
    &'a T,
    ErrorResponse,
>)
    ensures
        match r {
            Ok(t) => registry@.dom().contains(model_id@) && registry@[model_id@] == *t,
            Err(e) => {
                &&& !registry@.dom().contains(model_id@)
                &&& e.is(
                    500,
                    "tokenizer_not_found"@,
                    "Tokenizer not found for model: "@ + model_id@,
                )
            },
        },
{
    match registry.get(model_id) {
        Some(t) => Ok(t),
        None => Err(
            error::internal_error(
                "tokenizer_not_found",
                text::join2("Tokenizer not found for model: ", model_id),
            ),
        ),
    }
}

/// Whether all ids are non-negative.
pub open spec fn non_negative(ids: Seq<i32>) -> bool {
    forall|i: int| 0 <= i < ids.len() ==> #[trigger] ids[i] >= 0
}

/// The prompt of a generate request, as text where it has one and as token ids, or what
/// is wrong with it. Text goes first; its encoding is given.
pub open spec fn generate_input(
    req: GenerateRequest,
    encoded: Result<Seq<u32>, Seq<char>>,
) -> Result<(Option<Seq<char>>, Seq<u32>), Seq<char>> {
    match (req.text, req.input_ids) {
        (Some(t), _) => match encoded {
            Ok(ids) => Ok((Some(t@), ids)),
            Err(e) => Err("Tokenization failed: "@ + e),
        },
        (None, Some(InputIds::Single(ids))) => if non_negative(ids@) {
            Ok((None, ids@.map_values(|id: i32| id as u32)))
        } else {
            Err("input_ids must be non-negative"@)
        },
        (None, Some(InputIds::Batch(_))) => Err(
            "Batch input_ids are not supported over gRPC generate yet"@,
        ),
        (None, None) => Err("Either `text` or `input_ids` must be provided"@),
    }
}

/// The input is this, or this is wrong with it.
pub open spec fn is_input(
    r: Result<(Option<String>, Vec<u32>), String>,
    input: Result<(Option<Seq<char>>, Seq<u32>), Seq<char>>,
) -> bool {
    match r {
        Ok((t, ids)) => input == Ok::<(Option<Seq<char>>, Seq<u32>), Seq<char>>(
            (t.deep_view(), ids@),
        ),
        Err(e) => input == Err::<(Option<Seq<char>>, Seq<u32>), Seq<char>>(e@),
    }
}

fn unsigned_ids(ids: &Vec<i32>) -> (r: Option<Vec<u32>>)
    ensures
        r is Some <==> non_negative(ids@),
        r matches Some(out) ==> out@ == ids@.map_values(|id: i32| id as u32),
{
    let mut out: Vec<u32> = Vec::new();
    for i in 0..ids.len()
        invariant
            out@.len() == i,
            forall|j: int| 0 <= j < i ==> #[trigger] ids@[j] >= 0,
            forall|j: int| 0 <= j < i ==> #[trigger] out@[j] == ids@[j],
    {
        if ids[i] < 0 {
            return None;
        }
        let ghost before = out@;
        let id: u32 = ids[i] as u32;
        assert(id == ids@[i as int]);
        out.push(id);
        assert(out@ =~= before.push(id));
    }
    assert(out@ =~= ids@.map_values(|id: i32| id as u32));
    assert(non_negative(ids@)) by {
        assert forall|i: int| 0 <= i < ids@.len() implies #[trigger] ids@[i] >= 0 by {
            assert(out@[i] == ids@[i]);
        }
    }
    Some(out)
}

/// The prompt of a generate request, given the encoding of its text where it has one.
pub fn resolve_encoded(req: &GenerateRequest, encoded: Result<Vec<u32>, String>) -> (r: Result<
    (Option<String>, Vec<u32>),
    String,
>)
    ensures
        is_input(
            r,
            generate_input(
                *req,
                match encoded {
                    Ok(ids) => Ok(ids@),
                    Err(e) => Err(e@),
                },
            ),
        ),
{
    if let Some(t) = &req.text {
        return match encoded {
            Ok(ids) => Ok((Some(t.clone()), ids)),
            Err(e) => Err(text::join2("Tokenization failed: ", e.as_str())),
        };
    }
    match &req.input_ids {
        Some(InputIds::Single(ids)) => match unsigned_ids(ids) {
            Some(converted) => Ok((None, converted)),
            None => Err("input_ids must be non-negative".to_owned()),
        },
        Some(InputIds::Batch(_)) => Err(
            "Batch input_ids are not supported over gRPC generate yet".to_owned(),
        ),
        None => Err("Either `text` or `input_ids` must be provided".to_owned()),
    }
}

/// The encoding of the text of a generate request.
pub open spec fn text_encoding<T: Tokenizer>(req: GenerateRequest, tokenizer: T) -> Result<
    Seq<u32>,
    Seq<char>,
> {
    match req.text {
        Some(t) => tokenizer.encoding(t@, false),
        None => Ok(Seq::empty()),
    }
}

/// The prompt of a generate request.
pub fn resolve_generate_input<T: Tokenizer>(req: &GenerateRequest, tokenizer: &T) -> (r: Result<
    (Option<String>, Vec<u32>),
    String,
>)
    ensures
        is_input(r, generate_input(*req, text_encoding(*req, *tokenizer))),
{
    let encoded: Result<Vec<u32>, String> = match &req.text {
        Some(t) => tokenizer.encode(t.as_str(), false),
        None => Ok(Vec::new()),
    };
    resolve_encoded(req, encoded)
}

/// Whether a decoder is built with these stops.
pub open spec fn stops_at(
    decoder: StopDecoderConfig,
    stop: Option<StringOrArrayView>,
    stop_token_ids: Option<Seq<u32>>,
    skip_special_tokens: bool,
    no_stop_trim: bool,
) -> bool {
    let sequences = stop_decoder_builder::stop_list(stop);
    let tokens = match stop_token_ids {
        Some(ids) => ids,
        None => Seq::empty(),
    };
    &&& decoder.skip_special_tokens == skip_special_tokens
    &&& decoder.visible_stop_sequences.deep_view() == (if no_stop_trim {
        sequences
    } else {
        Seq::empty()
    })
    &&& decoder.stop_sequences.deep_view() == (if no_stop_trim {
        Seq::empty()
    } else {
        sequences
    })
    &&& decoder.visible_stop_tokens@ == (if no_stop_trim {
        tokens
    } else {
        Seq::empty()
    })
    &&& decoder.stop_tokens@ == (if no_stop_trim {
        Seq::empty()
    } else {
        tokens
    })
}

/// How far the preparation of a request with a model comes.
pub enum ModelLookup<T> {
    NotSet,
    NotFound(Seq<char>),
    Found(T),
}

/// The tokenizer of the model that a request is for.
pub open spec fn model_tokenizer<T>(
    model_id: Option<String>,
    registry: TokenizerRegistry<T>,
) -> ModelLookup<T> {
    match model_id {
        None => ModelLookup::NotSet,
        Some(m) => if registry@.dom().contains(m@) {
            ModelLookup::Found(registry@[m@])
        } else {
            ModelLookup::NotFound(m@)
        },
    }
}

/// The error of a request whose model is not set or not known.
pub open spec fn is_lookup_error<T>(e: ErrorResponse, lookup: ModelLookup<T>) -> bool {
    match lookup {
        ModelLookup::NotSet => e.is(500, "model_id_not_set"@, "model_id not set in request"@),
        ModelLookup::NotFound(m) => e.is(
            500,
            "tokenizer_not_found"@,
            "Tokenizer not found for model: "@ + m,
        ),
        ModelLookup::Found(_) => false,
    }
}

fn find_tokenizer<'a, T>(
    model_id: &Option<String>,
    registry: &'a TokenizerRegistry<T>,
) -> (r: Result<&'a T, ErrorResponse>)
    ensures
        match r {
            Ok(t) => model_tokenizer(*model_id, *registry) == ModelLookup::Found(*t),
            Err(e) => is_lookup_error(e, model_tokenizer(*model_id, *registry)),
        },
{
    match model_id {
        Some(m) => lookup_tokenizer(m.as_str(), registry),
        None => Err(
            error::internal_error("model_id_not_set", "model_id not set in request".to_owned()),
        ),
    }
}

/// A generate request is prepared: its payload and context agree with it.
pub open spec fn generate_prepared<'a, T>(
    payload: GenerationPayload,
    ctx: ResponseContext<'a, T>,
    req: GenerateRequest,
    prompt: (Option<Seq<char>>, Seq<u32>),
    tokenizer: T,
) -> bool {
    let stop = match req.sampling_params {
        Some(p) => p.stop.deep_view(),
        None => None,
    };
    let stop_token_ids = match req.sampling_params {
        Some(p) => match p.stop_token_ids {
            Some(ids) => Some(ids@),
            None => None,
        },
        None => None,
    };
    let skips = match req.sampling_params {
        Some(p) => p.skip_special_tokens != Some(false),
        None => true,
    };
    let untrimmed = match req.sampling_params {
        Some(p) => p.no_stop_trim == Some(true),
        None => false,
    };
    &&& payload.request_id@ == ctx.request_id@
    &&& payload.text@ == (match prompt.0 {
        Some(t) => t,
        None => Seq::empty(),
    })
    &&& payload.token_ids@ == prompt.1
    &&& payload_builder::is_generate_payload(payload, req)
    &&& ctx.original == ProtocolRequest::Generate(Arc::new(req))
    &&& ctx.original_text.deep_view() == prompt.0
    &&& ctx.processed_messages is None
    &&& *ctx.tokenizer == tokenizer
    &&& stops_at(ctx.stop_decoder, stop, stop_token_ids, skips, untrimmed)
}

/// What goes wrong with a generate request, in this order: its model, its prompt.
pub open spec fn is_generate_error<T: Tokenizer>(
    e: ErrorResponse,
    req: GenerateRequest,
    lookup: ModelLookup<T>,
) -> bool {
    match lookup {
        ModelLookup::Found(t) => match generate_input(req, text_encoding(req, t)) {
            Err(message) => e.is(400, "resolve_input_failed"@, message),
            Ok(_) => false,
        },
        _ => is_lookup_error(e, lookup),
    }
}

/// What comes of preparing a generate request, but for its identifier.
pub open spec fn is_generate_result<'a, T: Tokenizer>(
    r: Result<(GenerationPayload, ResponseContext<'a, T>), ErrorResponse>,
    req: GenerateRequest,
    model_id: Option<String>,
    registry: TokenizerRegistry<T>,
    created: u64,
) -> bool {
    let lookup = model_tokenizer(model_id, registry);
    match r {
        Ok((payload, ctx)) => {
            &&& lookup matches ModelLookup::Found(t)
            &&& generate_input(req, text_encoding(req, t)) matches Ok(prompt)
            &&& generate_prepared(payload, ctx, req, prompt, t)
            &&& ctx.model_id == model_id
            &&& ctx.created == created
        },
        Err(e) => is_generate_error(e, req, lookup),
    }
}

/// The identifier of a generate request: its own or else a random one.
pub open spec fn is_generate_id(id: Seq<char>, req: GenerateRequest) -> bool {
    match req.rid {
        Some(rid) => id == rid@,
        None => exists|digits: Seq<char>|
            #![trigger ids::is_grouped_uuid(digits)]
            ids::is_grouped_uuid(digits) && id == "gen-"@ + digits,
    }
}

/// Prepares a generate request. Its identifier is its own or else this one.
pub fn prepare_generate_with_id<'a, T: Tokenizer>(
    req: Arc<GenerateRequest>,
    model_id: Option<String>,
    registry: &'a TokenizerRegistry<T>,
    fallback_id: String,
    created: u64,
) -> (r: Result<(GenerationPayload, ResponseContext<'a, T>), ErrorResponse>)
    ensures
        is_generate_result(r, *req, model_id, *registry, created),
        r matches Ok((_, ctx)) ==> ctx.request_id@ == (match req.rid {
            Some(rid) => rid@,
            None => fallback_id@,
        }),
{
    let tokenizer = match find_tokenizer(&model_id, registry) {
        Ok(t) => t,
        Err(e) => return Err(e),
    };
    let (original_text, token_ids) = match resolve_generate_input(&req, tokenizer) {
        Ok(input) => input,
        Err(e) => return Err(error::bad_request("resolve_input_failed", e)),
    };
    let stop_decoder = match &req.sampling_params {
        Some(p) => create_stop_decoder(
            p.stop.as_ref(),
            p.stop_token_ids.as_ref(),
            p.skip_special_tokens.unwrap_or(true),
            p.no_stop_trim.unwrap_or(false),
        ),
        None => create_stop_decoder(None, None, true, false),
    };
    let request_id = match &req.rid {
        Some(rid) => rid.clone(),
        None => fallback_id,
    };
    let payload = build_generate_payload(
        request_id.clone(),
        &req,
        original_text.duplicate(),
        token_ids,
    );
    let ctx = ResponseContext {
        original: ProtocolRequest::Generate(req),
        model_id,
        original_text,
        processed_messages: None,
        tokenizer,
        stop_decoder,
        request_id,
        created,
    };
    Ok((payload, ctx))
}

/// Prepares a generate request. Its identifier is its own or else a random one.
pub fn prepare_generate<'a, T: Tokenizer>(
    req: Arc<GenerateRequest>,
    model_id: Option<String>,
    registry: &'a TokenizerRegistry<T>,
    created: u64,
) -> (r: Result<(GenerationPayload, ResponseContext<'a, T>), ErrorResponse>)
    ensures
        is_generate_result(r, *req, model_id, *registry, created),
        r matches Ok((_, ctx)) ==> is_generate_id(ctx.request_id@, *req),
{
    let digits = ids::grouped_uuid();
    assert(ids::is_grouped_uuid(digits@));
    prepare_generate_with_id(
        req,
        model_id,
        registry,
        text::join2("gen-", digits.as_str()),
        created,
    )
}

/// The constraint on the answer to a chat request: that of the tools that it is left with.
pub open spec fn chat_constraint(req: ChatCompletionRequest) -> Result<
    Option<Seq<char>>,
    Seq<char>,
> {
    match tool_constraints::effective_tools(req) {
        Some(tools) => tool_constraints::constraint(tools, req.tool_choice.deep_view()),
        None => Ok(None),
    }
}

/// The prompt of a chat request: its messages, and the tools that its tool choice leaves,
/// in their JSON forms.
pub open spec fn prompt_of<T: Tokenizer>(chat: EncodedChatView, tokenizer: T) -> Result<
    Seq<char>,
    Seq<char>,
> {
    chat_template::chat_prompt(
        chat.request,
        chat.messages,
        encoded_chat::opt_forms(chat.left_tools()),
        tokenizer,
    )
}

/// What goes wrong with a chat request, in this order: its model, its messages, their
/// encoding, its tools.
pub open spec fn is_chat_error<T: Tokenizer>(
    e: ErrorResponse,
    chat: EncodedChatView,
    lookup: ModelLookup<T>,
) -> bool {
    match lookup {
        ModelLookup::Found(t) => match prompt_of(chat, t) {
            Err(message) => e.is(400, "process_messages_failed"@, message),
            Ok(prompt) => match t.encoding(prompt, false) {
                Err(message) => e.is(500, "tokenization_failed"@, message),
                Ok(_) => match chat_constraint(chat.request) {
                    Err(message) => e.is(400, "invalid_tool_configuration"@, message),
                    Ok(_) => false,
                },
            },
        },
        _ => is_lookup_error(e, lookup),
    }
}

/// A chat request is prepared: its payload and context agree with it.
pub open spec fn chat_prepared<'a, T>(
    payload: GenerationPayload,
    ctx: ResponseContext<'a, T>,
    req: ChatCompletionRequest,
    prompt: Seq<char>,
    token_ids: Seq<u32>,
    constraint: Option<Seq<char>>,
    tokenizer: T,
) -> bool {
    let stop_token_ids = match req.stop_token_ids {
        Some(ids) => Some(ids@),
        None => None,
    };
    &&& payload.request_id@ == ctx.request_id@
    &&& payload.text@ == prompt
    &&& payload.token_ids@ == token_ids
    &&& payload_builder::is_chat_payload(payload, req)
    &&& match (payload.tool_constraints, constraint) {
        (Some((kind, schema)), Some(c)) => kind@ == "json_schema"@ && schema@ == c,
        (None, None) => true,
        _ => false,
    }
    &&& ctx.original == ProtocolRequest::Chat(Arc::new(req))
    &&& ctx.original_text.deep_view() == Some(prompt)
    &&& ctx.processed_messages matches Some(p)
    &&& p.text@ == prompt
    &&& p.stop_sequences.deep_view() == req.stop.deep_view()
    &&& *ctx.tokenizer == tokenizer
    &&& stops_at(
        ctx.stop_decoder,
        req.stop.deep_view(),
        stop_token_ids,
        req.skip_special_tokens,
        req.no_stop_trim,
    )
}

/// What comes of preparing a chat request, but for its identifier. The forms of tools that
/// the template gets are those of the tools that the request is left with.
pub open spec fn is_chat_result<'a, T: Tokenizer>(
    r: Result<(GenerationPayload, ResponseContext<'a, T>), ErrorResponse>,
    chat: EncodedChatView,
    model_id: Option<String>,
    registry: TokenizerRegistry<T>,
    created: u64,
) -> bool {
    let lookup = model_tokenizer(model_id, registry);
    &&& encoded_chat::opt_values(chat.left_tools()) == tool_constraints::effective_tools(
        chat.request,
    )
    &&& match r {
        Ok((payload, ctx)) => {
            &&& lookup matches ModelLookup::Found(t)
            &&& prompt_of(chat, t) matches Ok(prompt)
            &&& t.encoding(prompt, false) matches Ok(token_ids)
            &&& chat_constraint(chat.request) matches Ok(constraint)
            &&& chat_prepared(payload, ctx, chat.request, prompt, token_ids, constraint, t)
            &&& ctx.model_id == model_id
            &&& ctx.created == created
        },
        Err(e) => is_chat_error(e, chat, lookup),
    }
}

/// The identifier of a chat request: a random one.
pub open spec fn is_chat_id(id: Seq<char>) -> bool {
    exists|digits: Seq<char>|
        #![trigger ids::is_grouped_uuid(digits)]
        ids::is_grouped_uuid(digits) && id == "chatcmpl-"@ + digits
}

/// Prepares a chat request with this identifier. Its tools are narrowed by its tool choice.
pub fn prepare_chat_with_id<'a, T: Tokenizer>(
    chat: EncodedChat,
    model_id: Option<String>,
    registry: &'a TokenizerRegistry<T>,
    request_id: String,
    created: u64,
) -> (r: Result<(GenerationPayload, ResponseContext<'a, T>), ErrorResponse>)
    ensures
        is_chat_result(r, chat@, model_id, *registry, created),
        r matches Ok((_, ctx)) ==> ctx.request_id@ == request_id@,
{
    let body = filter_chat_request_by_tool_choice(chat);
    let tokenizer = match find_tokenizer(&model_id, registry) {
        Ok(t) => t,
        Err(e) => return Err(e),
    };
    let processed = match process_chat_messages(&body, tokenizer) {
        Ok(p) => p,
        Err(e) => return Err(error::bad_request("process_messages_failed", e)),
    };
    let token_ids = match tokenizer.encode(processed.text.as_str(), false) {
        Ok(ids) => ids,
        Err(e) => return Err(error::internal_error("tokenization_failed", e)),
    };
    let tools = body.tools();
    let req = body.into_request();
    let constraints = match &tools {
        Some(tools) => match generate_tool_constraints(
            tools,
            &req.tool_choice,
            req.model.as_str(),
        ) {
            Ok(c) => c,
            Err(e) => return Err(error::bad_request("invalid_tool_configuration", e)),
        },
        None => None,
    };
    let stop_decoder = create_stop_decoder(
        req.stop.as_ref(),
        req.stop_token_ids.as_ref(),
        req.skip_special_tokens,
        req.no_stop_trim,
    );
    let payload = build_chat_payload(
        request_id.clone(),
        &req,
        processed.text.as_str(),
        token_ids,
        constraints,
    );
    let original_text = Some(processed.text.clone());
    let ctx = ResponseContext {
        original: ProtocolRequest::Chat(req),
        model_id,
        original_text,
        processed_messages: Some(processed),
        tokenizer,
        stop_decoder,
        request_id,
        created,
    };
    Ok((payload, ctx))
}

/// Prepares a chat request with a random identifier.
pub fn prepare_chat<'a, T: Tokenizer>(
    chat: EncodedChat,
    model_id: Option<String>,
    registry: &'a TokenizerRegistry<T>,
    created: u64,
) -> (r: Result<(GenerationPayload, ResponseContext<'a, T>), ErrorResponse>)
    ensures
        is_chat_result(r, chat@, model_id, *registry, created),
        r matches Ok((_, ctx)) ==> is_chat_id(ctx.request_id@),
{
    let digits = ids::grouped_uuid();
    assert(ids::is_grouped_uuid(digits@));
    prepare_chat_with_id(
        chat,
        model_id,
        registry,
        text::join2("chatcmpl-", digits.as_str()),
        created,
    )
}

/// Whether a decoder stops where a request says, and keeps the stops in the text where they
/// are not to be trimmed.
pub open spec fn decodes_up_to(
    decoder: StopDecoderConfig,
    stop: Option<StringOrArray>,
    stop_token_ids: Option<Vec<u32>>,
    untrimmed: bool,
) -> bool {
    let (kept, dropped) = if untrimmed {
        (decoder.visible_stop_sequences, decoder.stop_sequences)
    } else {
        (decoder.stop_sequences, decoder.visible_stop_sequences)
    };
    let (kept_tokens, dropped_tokens) = if untrimmed {
        (decoder.visible_stop_tokens, decoder.stop_tokens)
    } else {
        (decoder.stop_tokens, decoder.visible_stop_tokens)
    };
    &&& dropped@.len() == 0
    &&& dropped_tokens@.len() == 0
    &&& match stop {
        Some(StringOrArray::String(s)) => kept@.len() == 1 && kept@[0]@ == s@,
        Some(StringOrArray::Array(list)) => kept.deep_view() == list.deep_view(),
        None => kept@.len() == 0,
    }
    &&& match stop_token_ids {
        Some(ids) => kept_tokens@ == ids@,
        None => kept_tokens@.len() == 0,
    }
}

proof fn lemma_decodes_up_to(
    decoder: StopDecoderConfig,
    stop: Option<StringOrArray>,
    stop_token_ids: Option<Vec<u32>>,
    skip_special_tokens: bool,
    untrimmed: bool,
)
    requires
        stops_at(
            decoder,
            stop.deep_view(),
            match stop_token_ids {
                Some(ids) => Some(ids@),
                None => None,
            },
            skip_special_tokens,
            untrimmed,
        ),
    ensures
        decodes_up_to(decoder, stop, stop_token_ids, untrimmed),
        decoder.skip_special_tokens == skip_special_tokens,
{
    assert(decoder.stop_sequences.deep_view().len() == decoder.stop_sequences@.len());
    assert(decoder.visible_stop_sequences.deep_view().len()
        == decoder.visible_stop_sequences@.len());
    if stop matches Some(StringOrArray::String(s)) {
        if untrimmed {
            assert(decoder.visible_stop_sequences.deep_view()[0]
                == decoder.visible_stop_sequences@[0]@);
        } else {
            assert(decoder.stop_sequences.deep_view()[0] == decoder.stop_sequences@[0]@);
        }
    }
}

/// The prompt of a generate request is its text, encoded without special tokens by the
/// tokenizer of its model, or else its one list of token ids, each as it is. There is none
/// where the text cannot be encoded, where an id is negative, for a batch, or without either.
pub proof fn law_generate_prompt<T: Tokenizer>(
    req: &GenerateRequest,
    tokenizer: &T,
    r: Result<(Option<String>, Vec<u32>), String>,
)
    requires
        call_ensures(resolve_generate_input::<T>, (req, tokenizer), r),
    ensures
        req.text matches Some(t) ==> {
            &&& r is Ok == tokenizer.encoding(t@, false) is Ok
            &&& r matches Ok((said, ids)) ==> {
                &&& said is Some
                &&& said->0@ == t@
                &&& ids@ == tokenizer.encoding(t@, false)->Ok_0
            }
            &&& r matches Err(e) ==> e@ == "Tokenization failed: "@ + tokenizer.encoding(
                t@,
                false,
            )->Err_0
        },
        req.text is None ==> {
            &&& r is Ok <==> (req.input_ids matches Some(InputIds::Single(given)) && forall|i: int|
                0 <= i < given@.len() ==> #[trigger] given@[i] >= 0)
            &&& r matches Ok((said, ids)) ==> {
                &&& said is None
                &&& ids@.len() == req.input_ids->0->Single_0@.len()
                &&& forall|i: int|
                    0 <= i < ids@.len() ==> #[trigger] ids@[i] == req.input_ids->0->Single_0@[i]
            }
        },
{
    if let Ok((said, ids)) = r {
        assert(said.deep_view() is Some == said is Some);
        if req.text is None {
            let given = req.input_ids->0->Single_0@;
            assert forall|i: int| 0 <= i < ids@.len() implies #[trigger] ids@[i] == given[i] by {
                assert(given.map_values(|id: i32| id as u32)[i] == given[i] as u32);
                assert(given[i] >= 0);
            }
        }
    }
}

/// A generate request that is prepared reaches its worker with its own prompt and tokens and
/// under its own identifier, if it has one. Its answer is decoded by the tokenizer of its model
/// and stops where the request says.
pub proof fn law_generate_request_is_prepared<'a, T: Tokenizer>(
    req: Arc<GenerateRequest>,
    model_id: Option<String>,
    registry: &'a TokenizerRegistry<T>,
    created: u64,
    r: Result<(GenerationPayload, ResponseContext<'a, T>), ErrorResponse>,
)
    requires
        call_ensures(prepare_generate::<T>, (req, model_id, registry, created), r),
        r is Ok,
    ensures
        ({
            let payload = r->Ok_0.0;
            let ctx = r->Ok_0.1;
            &&& model_id is Some
            &&& registry@.dom().contains(model_id->0@)
            &&& *ctx.tokenizer == registry@[model_id->0@]
            &&& ctx.model_id == model_id
            &&& ctx.created == created
            &&& ctx.processed_messages is None
            &&& ctx.original matches ProtocolRequest::Generate(original) && *original == *req
            &&& payload.request_id@ == ctx.request_id@
            &&& req.rid matches Some(rid) ==> ctx.request_id@ == rid@
            &&& req.text matches Some(t) ==> {
                &&& payload.text@ == t@
                &&& ctx.original_text is Some
                &&& ctx.original_text->0@ == t@
                &&& ctx.tokenizer.encoding(t@, false) == Ok::<Seq<u32>, Seq<char>>(
                    payload.token_ids@,
                )
            }
            &&& req.text is None ==> {
                &&& payload.text@.len() == 0
                &&& ctx.original_text is None
                &&& req.input_ids matches Some(InputIds::Single(given))
                &&& payload.token_ids@.len() == given@.len()
                &&& forall|i: int|
                    0 <= i < given@.len() ==> #[trigger] payload.token_ids@[i] == given@[i]
            }
            &&& payload.stream == req.stream
            &&& req.sampling_params matches Some(p) ==> {
                &&& decodes_up_to(
                    ctx.stop_decoder,
                    p.stop,
                    p.stop_token_ids,
                    p.no_stop_trim == Some(true),
                )
                &&& ctx.stop_decoder.skip_special_tokens == (p.skip_special_tokens != Some(false))
            }
            &&& req.sampling_params is None ==> {
                &&& decodes_up_to(ctx.stop_decoder, None, None, false)
                &&& ctx.stop_decoder.skip_special_tokens
            }
        }),
{
    let payload = r->Ok_0.0;
    let ctx = r->Ok_0.1;
    let own = *req;
    assert(ctx.original_text.deep_view() is Some == ctx.original_text is Some);
    match own.sampling_params {
        Some(p) => {
            lemma_decodes_up_to(
                ctx.stop_decoder,
                p.stop,
                p.stop_token_ids,
                p.skip_special_tokens != Some(false),
                p.no_stop_trim == Some(true),
            );
        },
        None => {
            assert(None::<StringOrArray>.deep_view() == None::<StringOrArrayView>);
            lemma_decodes_up_to(ctx.stop_decoder, None, None, true, false);
        },
    }
    if own.text is None {
        let given = own.input_ids->0->Single_0@;
        assert forall|i: int| 0 <= i < given.len() implies #[trigger] payload.token_ids@[i]
            == given[i] by {
            assert(given.map_values(|id: i32| id as u32)[i] == given[i] as u32);
            assert(given[i] >= 0);
        }
    }
}

/// A generate request is refused where its model is not set or has no tokenizer, which is the
/// server's fault, or where it has no prompt, which is the client's, and nowhere else.
pub proof fn law_generate_request_is_refused<'a, T: Tokenizer>(
    req: Arc<GenerateRequest>,
    model_id: Option<String>,
    registry: &'a TokenizerRegistry<T>,
    created: u64,
    r: Result<(GenerationPayload, ResponseContext<'a, T>), ErrorResponse>,
    input: Result<(Option<String>, Vec<u32>), String>,
)
    requires
        call_ensures(prepare_generate::<T>, (req, model_id, registry, created), r),
        model_id is Some && registry@.dom().contains(model_id->0@) ==> call_ensures(
            resolve_generate_input::<T>,
            (&*req, &registry@[model_id->0@]),
            input,
        ),
    ensures
        model_id is None ==> r is Err && r->Err_0.status == 500 && r->Err_0.code@
            == "model_id_not_set"@,
        model_id is Some && !registry@.dom().contains(model_id->0@) ==> r is Err && r->Err_0.status
            == 500 && r->Err_0.code@ == "tokenizer_not_found"@,
        model_id is Some && registry@.dom().contains(model_id->0@) ==> {
            &&& r is Err == input is Err
            &&& r is Err ==> r->Err_0.status == 400 && r->Err_0.code@ == "resolve_input_failed"@
                && r->Err_0.message@ == input->Err_0@
        },
{
}

/// A chat request that is prepared reaches its worker as the rendering of its own messages, with
/// the tools that its tool choice leaves, and as the tokens of that rendering. Its answer is
/// decoded by the tokenizer of its model and stops where the request says.
pub proof fn law_chat_request_is_prepared<'a, T: Tokenizer>(
    chat: EncodedChat,
    model_id: Option<String>,
    registry: &'a TokenizerRegistry<T>,
    created: u64,
    r: Result<(GenerationPayload, ResponseContext<'a, T>), ErrorResponse>,
    narrowed: EncodedChat,
) -> (given: (Seq<JsonView>, ChatTemplateParamsView))
    requires
        call_ensures(prepare_chat::<T>, (chat, model_id, registry, created), r),
        call_ensures(filter_chat_request_by_tool_choice, (chat,), narrowed),
        r is Ok,
    ensures
        ({
            let payload = r->Ok_0.0;
            let ctx = r->Ok_0.1;
            let req = chat@.request;
            &&& model_id is Some
            &&& registry@.dom().contains(model_id->0@)
            &&& *ctx.tokenizer == registry@[model_id->0@]
            &&& ctx.model_id == model_id
            &&& ctx.created == created
            &&& ctx.original matches ProtocolRequest::Chat(original) && *original == req
            &&& payload.request_id@ == ctx.request_id@
            &&& ctx.request_id@.len() == 45
            &&& ctx.request_id@.take(9) == "chatcmpl-"@
            &&& chat_template::renders_messages(
                req,
                chat@.messages,
                *ctx.tokenizer,
                given,
                payload.text@,
            )
            &&& given.1.tools == encoded_chat::opt_forms(narrowed@.tools)
            &&& chat_template::has_variables_of(req, given.1.template_kwargs)
            &&& ctx.tokenizer.encoding(payload.text@, false) == Ok::<Seq<u32>, Seq<char>>(
                payload.token_ids@,
            )
            &&& ctx.original_text is Some
            &&& ctx.original_text->0@ == payload.text@
            &&& ctx.processed_messages is Some
            &&& ctx.processed_messages->0.text@ == payload.text@
            &&& ctx.processed_messages->0.stop_sequences.deep_view() == req.stop.deep_view()
            &&& payload.stream == req.stream
            &&& decodes_up_to(ctx.stop_decoder, req.stop, req.stop_token_ids, req.no_stop_trim)
            &&& ctx.stop_decoder.skip_special_tokens == req.skip_special_tokens
        }),
{
    let ctx = r->Ok_0.1;
    let req = chat@.request;
    lemma_decodes_up_to(
        ctx.stop_decoder,
        req.stop,
        req.stop_token_ids,
        req.skip_special_tokens,
        req.no_stop_trim,
    );
    assert(ctx.original_text.deep_view() is Some == ctx.original_text is Some);
    let digits = choose|digits: Seq<char>|
        #![trigger ids::is_grouped_uuid(digits)]
        ids::is_grouped_uuid(digits) && ctx.request_id@ == "chatcmpl-"@ + digits;
    reveal_strlit("chatcmpl-");
    assert(ctx.request_id@.take(9) =~= "chatcmpl-"@);
    chat_template::lemma_prompt_renders(
        req,
        chat@.messages,
        encoded_chat::opt_forms(chat@.left_tools()),
        *ctx.tokenizer,
    )
}

/// The worker of a chat request is asked for calls as its tool choice says, of the tools that
/// the choice leaves.
pub proof fn law_chat_constraint_is_that_of_the_tools_left<'a, T: Tokenizer>(
    chat: EncodedChat,
    model_id: Option<String>,
    registry: &'a TokenizerRegistry<T>,
    created: u64,
    r: Result<(GenerationPayload, ResponseContext<'a, T>), ErrorResponse>,
    narrowed: EncodedChat,
    tools: &Vec<Tool>,
    model: &str,
    constraint: Result<Option<(String, String)>, String>,
)
    requires
        call_ensures(prepare_chat::<T>, (chat, model_id, registry, created), r),
        call_ensures(filter_chat_request_by_tool_choice, (chat,), narrowed),
        narrowed@.tools is Some ==> tools.deep_view() == encoded_chat::values(narrowed@.tools->0),
        call_ensures(
            generate_tool_constraints,
            (tools, &chat@.request.tool_choice, model),
            constraint,
        ),
        r is Ok,
    ensures
        ({
            let asked = r->Ok_0.0.tool_constraints;
            &&& narrowed@.tools is None ==> asked is None
            &&& narrowed@.tools is Some ==> {
                &&& constraint is Ok
                &&& asked is Some == constraint->Ok_0 is Some
                &&& asked is Some ==> {
                    &&& (asked->0).0@ == "json_schema"@
                    &&& (asked->0).1@ == (constraint->Ok_0->0).1@
                }
            }
        }),
{
}

/// A chat request is refused where its model is not set or has no tokenizer, where its messages
/// cannot be rendered, where their rendering cannot be encoded, or where its tools disagree, the
/// first of these that holds, and nowhere else.
pub proof fn law_chat_request_is_refused<'a, T: Tokenizer>(
    chat: EncodedChat,
    model_id: Option<String>,
    registry: &'a TokenizerRegistry<T>,
    created: u64,
    r: Result<(GenerationPayload, ResponseContext<'a, T>), ErrorResponse>,
    narrowed: EncodedChat,
    processed: Result<chat_template::ProcessedMessages, String>,
    tools: &Vec<Tool>,
    model: &str,
    constraint: Result<Option<(String, String)>, String>,
)
    requires
        call_ensures(prepare_chat::<T>, (chat, model_id, registry, created), r),
        call_ensures(filter_chat_request_by_tool_choice, (chat,), narrowed),
        narrowed@.tools is Some ==> tools.deep_view() == encoded_chat::values(narrowed@.tools->0),
        call_ensures(
            generate_tool_constraints,
            (tools, &chat@.request.tool_choice, model),
            constraint,
        ),
        model_id is Some && registry@.dom().contains(model_id->0@) ==> call_ensures(
            process_chat_messages::<T>,
            (&narrowed, &registry@[model_id->0@]),
            processed,
        ),
    ensures
        model_id is None ==> r is Err && r->Err_0.status == 500 && r->Err_0.code@
            == "model_id_not_set"@,
        model_id is Some && !registry@.dom().contains(model_id->0@) ==> r is Err && r->Err_0.status
            == 500 && r->Err_0.code@ == "tokenizer_not_found"@,
        model_id is Some && registry@.dom().contains(model_id->0@) ==> {
            let encoding = registry@[model_id->0@].encoding(processed->Ok_0.text@, false);
            if processed is Err {
                &&& r is Err
                &&& r->Err_0.status == 400
                &&& r->Err_0.code@ == "process_messages_failed"@
                &&& r->Err_0.message@ == processed->Err_0@
            } else if encoding is Err {
                &&& r is Err
                &&& r->Err_0.status == 500
                &&& r->Err_0.code@ == "tokenization_failed"@
                &&& r->Err_0.message@ == encoding->Err_0
            } else if narrowed@.tools is Some && constraint is Err {
                &&& r is Err
                &&& r->Err_0.status == 400
                &&& r->Err_0.code@ == "invalid_tool_configuration"@
                &&& r->Err_0.message@ == constraint->Err_0@
            } else {
                r is Ok
            }
        },
{
}

/// The tokenizer of a model is the one that is registered for it; without one the request
/// cannot be answered, and the message names the model.
pub proof fn law_tokenizer_is_that_of_the_model<'a, T>(
    model_id: &str,
    registry: &'a TokenizerRegistry<T>,
    found: Option<&'a T>,
    r: Result<&'a T, ErrorResponse>,
)
    requires
        call_ensures(lookup_tokenizer::<T>, (model_id, registry), r),
        call_ensures(TokenizerRegistry::<T>::get, (registry, model_id), found),
    ensures
        r is Ok <==> found is Some,
        r matches Ok(t) ==> *t == *found->0,
        r matches Err(e) ==> e.status == 500 && e.code@ == "tokenizer_not_found"@ && e.message@
            == "Tokenizer not found for model: "@ + model_id@,
{
}

/// A text goes before token ids, and is sent with its encoding. Without a text, one list of
/// ids is taken as it is, unless one of them is negative. Several lists, or nothing, are
/// refused.
pub proof fn law_prompt_is_text_or_tokens(
    req: &GenerateRequest,
    encoded: Result<Vec<u32>, String>,
    r: Result<(Option<String>, Vec<u32>), String>,
)
    requires
        call_ensures(resolve_encoded, (req, encoded), r),
    ensures
        req.text matches Some(t) ==> {
            &&& r is Ok <==> encoded is Ok
            &&& r matches Ok((said, ids)) ==> (said matches Some(s) && s@ == t@) && ids@
                == encoded->Ok_0@
            &&& r matches Err(e) ==> e@ == "Tokenization failed: "@ + encoded->Err_0@
        },
        req.text is None && req.input_ids is None ==> r is Err,
        req.text is None && (req.input_ids matches Some(InputIds::Batch(_))) ==> r is Err,
        req.text is None ==> (req.input_ids matches Some(InputIds::Single(ids)) ==> {
            &&& r is Ok <==> forall|i: int| 0 <= i < ids@.len() ==> #[trigger] ids@[i] >= 0
            &&& r matches Ok((said, sent)) ==> {
                &&& said is None
                &&& sent@.len() == ids@.len()
                &&& forall|i: int| 0 <= i < ids@.len() ==> sent@[i] == #[trigger] ids@[i]
            }
        }),
{
}

/// A request that is prepared under an identifier keeps it; a generate request that has one of
/// its own keeps that.
pub proof fn law_identifier_is_kept<'a, T: Tokenizer>(
    chat: EncodedChat,
    req: Arc<GenerateRequest>,
    model_id: Option<String>,
    registry: &'a TokenizerRegistry<T>,
    id: String,
    created: u64,
    r: Result<(GenerationPayload, ResponseContext<'a, T>), ErrorResponse>,
    s: Result<(GenerationPayload, ResponseContext<'a, T>), ErrorResponse>,
)
    requires
        call_ensures(prepare_chat_with_id::<T>, (chat, model_id, registry, id, created), r),
        call_ensures(prepare_generate_with_id::<T>, (req, model_id, registry, id, created), s),
    ensures
        r matches Ok((payload, ctx)) ==> ctx.request_id@ == id@ && payload.request_id@ == id@,
        s matches Ok((payload, ctx)) ==> {
            let own = *req;
            &&& payload.request_id@ == ctx.request_id@
            &&& own.rid matches Some(rid) ==> ctx.request_id@ == rid@
            &&& own.rid is None ==> ctx.request_id@ == id@
        },
{
}

/// Whoever names the identifier, the same request is accepted or refused, and is sent the same
/// tokens.
pub proof fn law_identifier_decides_nothing_else<'a, T: Tokenizer>(
    chat: EncodedChat,
    model_id: Option<String>,
    registry: &'a TokenizerRegistry<T>,
    id: String,
    created: u64,
    r: Result<(GenerationPayload, ResponseContext<'a, T>), ErrorResponse>,
    s: Result<(GenerationPayload, ResponseContext<'a, T>), ErrorResponse>,
)
    requires
        call_ensures(prepare_chat_with_id::<T>, (chat, model_id, registry, id, created), r),
        call_ensures(prepare_chat::<T>, (chat, model_id, registry, created), s),
    ensures
        r is Ok <==> s is Ok,
        r is Ok && s is Ok ==> {
            &&& (r->Ok_0).0.text@ == (s->Ok_0).0.text@
            &&& (r->Ok_0).0.token_ids@ == (s->Ok_0).0.token_ids@
            &&& (r->Ok_0).0.stream == (s->Ok_0).0.stream
        },
{
}

} // verus!
