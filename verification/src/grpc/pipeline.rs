//! The way of a request: prepared, placed, dispatched, rendered. Placing and dispatching
//! happen outside; what goes into them and what becomes of what they give is decided here.

use std::sync::Arc;
use vstd::prelude::*;

use super::engine::dispatch;
use super::engine::dispatch::DispatchTarget;
use super::engine::dispatch::GrpcEngine;
use crate::comm::error;
use crate::comm::error::ErrorResponse;
use crate::comm::placement_response;
use crate::comm::placement_response::placement_err_to_response;
use crate::comm::placement_response::PlacementError;
use crate::comm::placement_response::PlacementPlan;
use crate::comm::placement_response::Protocol;
use crate::comm::placement_response::RequestDescriptor;
use crate::duplicate::Duplicate;
use crate::prepare::encoded_chat::EncodedChat;
use crate::prepare::generation_payload::GenerationPayload;
use crate::prepare::request;
use crate::prepare::request::prepare_chat;
use crate::prepare::request::prepare_generate;
use crate::prepare::response_context::ProtocolRequest;
use crate::prepare::response_context::ResponseContext;
use crate::protocols::generate::GenerateRequest;
use crate::protocols::UNKNOWN_MODEL_ID;
use crate::render::generate_aggregator;
use crate::render::generate_aggregator::engine_error_to_response;
use crate::token_handle::engine_error::EngineError;
use crate::token_handle::token_handle::TokenHandle;
use crate::tokenizer::Tokenizer;
use crate::tokenizer::TokenizerRegistry;

verus! {

/// Whether requests go to single workers or to pairs.
#[derive(Clone, Copy, Debug, PartialEq, Eq, Structural)]
pub enum Backend {
    Regular,
    Pd,
}

/// How an answer is given.
#[derive(Clone, Copy, Debug, PartialEq, Eq, Structural)]
pub enum Rendering {
    /// Event by event.
    Streamed,
    /// As a whole.
    Aggregated,
}

/// What is to be done with a request that was placed: these workers are held to be loaded
/// until it is answered, and these are asked.
#[derive(Debug)]
pub struct DispatchOrder {
    pub guarded: Vec<String>,
    pub targets: Vec<DispatchTarget>,
}

/// A request is placed by its model, its text and its tokens, if it has any.
pub open spec fn is_descriptor<'a, T>(
    d: RequestDescriptor,
    payload: GenerationPayload,
    ctx: ResponseContext<'a, T>,
) -> bool {
    &&& d.model_id.deep_view() == ctx.model_id.deep_view()
    &&& d.protocol == Some(Protocol::Grpc)
    &&& d.text.deep_view() == ctx.original_text.deep_view()
    &&& d.tokens.deep_view() == (if payload.token_ids@.len() == 0 {
        None
    } else {
        Some(payload.token_ids@)
    })
    &&& d.stream == streams(ctx.original)
}

/// Whether a request wants its answer event by event.
pub open spec fn streams(original: ProtocolRequest) -> bool {
    match original {
        ProtocolRequest::Chat(req) => req.stream,
        ProtocolRequest::Generate(req) => req.stream,
    }
}

/// What the planner is asked.
pub fn plan_for<'a, T>(payload: &GenerationPayload, ctx: &ResponseContext<'a, T>) -> (r:
    RequestDescriptor)
    ensures
        is_descriptor(r, *payload, *ctx),
{
    let tokens: Option<Vec<u32>> = if payload.token_ids.len() == 0 {
        None
    } else {
        let copy = payload.token_ids.duplicate();
        assert(payload.token_ids.deep_view() =~= payload.token_ids@);
        Some(copy)
    };
    RequestDescriptor {
        model_id: ctx.model_id.duplicate(),
        protocol: Some(Protocol::Grpc),
        text: ctx.original_text.duplicate(),
        tokens,
        stream: ctx.original.is_streaming(),
    }
}

/// The workers of a plan, a prefill worker before its decode worker.
pub open spec fn workers_of(plan: PlacementPlan) -> Seq<Seq<char>> {
    match plan {
        PlacementPlan::Single { worker, .. } => seq![worker.url@],
        PlacementPlan::Pair { prefill, decode, .. } => seq![prefill.url@, decode.url@],
    }
}

/// The workers that are held to be loaded while a request is answered.
pub fn make_load_guards(plan: &PlacementPlan) -> (r: Vec<String>)
    ensures
        r.deep_view() == workers_of(*plan),
{
    let mut urls: Vec<String> = Vec::new();
    match plan {
        PlacementPlan::Single { worker, .. } => {
            urls.push(worker.url.clone());
        },
        PlacementPlan::Pair { prefill, decode, .. } => {
            urls.push(prefill.url.clone());
            urls.push(decode.url.clone());
        },
    }
    assert(urls.deep_view() =~= workers_of(*plan));
    urls
}

pub fn engine_err_to_response(err: EngineError) -> (r: ErrorResponse)
    ensures
        generate_aggregator::tells_of(r, err),
{
    engine_error_to_response(err)
}

/// The way of requests to the workers of one backend.
#[derive(Clone, Copy, Debug)]
pub struct Pipeline {
    pub backend: Backend,
    pub engine: GrpcEngine,
}

impl Pipeline {
    /// What comes of the planner's answer: these workers are guarded and asked, or the
    /// request is refused and its payload stays as it is.
    pub open spec fn orders(
        self,
        planned: Result<PlacementPlan, PlacementError>,
        model: Option<Seq<char>>,
        before: GenerationPayload,
        after: GenerationPayload,
        r: Result<DispatchOrder, ErrorResponse>,
    ) -> bool {
        match (planned, r) {
            (Ok(plan), Ok(order)) => {
                &&& order.guarded.deep_view() == workers_of(plan)
                &&& dispatch::is_dispatch(order.targets@, plan, before, after)
            },
            (Err(err), Err(e)) => {
                let told = placement_response::placement_failure(err, model);
                &&& e.is(503, told.0, told.1)
                &&& after == before
            },
            _ => false,
        }
    }

    /// What comes of the workers' answer: their stream is rendered as the request wants it,
    /// or the failure is told.
    pub open spec fn renders<S>(
        self,
        dispatched: Result<TokenHandle<S>, EngineError>,
        original: ProtocolRequest,
        r: Result<(TokenHandle<S>, Rendering), ErrorResponse>,
    ) -> bool {
        match (dispatched, r) {
            (Ok(stream), Ok((handle, rendering))) => {
                &&& handle == stream
                &&& rendering == (if streams(original) {
                    Rendering::Streamed
                } else {
                    Rendering::Aggregated
                })
            },
            (Err(err), Err(e)) => generate_aggregator::tells_of(e, err),
            _ => false,
        }
    }

    pub fn new_regular() -> (r: Self)
        ensures
            r.backend == Backend::Regular,
    {
        Pipeline { backend: Backend::Regular, engine: GrpcEngine::new() }
    }

    pub fn new_pd() -> (r: Self)
        ensures
            r.backend == Backend::Pd,
    {
        Pipeline { backend: Backend::Pd, engine: GrpcEngine::new() }
    }

    /// Begins to answer a chat request: it is prepared, and the planner is asked this.
    pub fn execute_chat<'a, T: Tokenizer>(
        &self,
        chat: EncodedChat,
        model_id: Option<String>,
        registry: &'a TokenizerRegistry<T>,
        created: u64,
    ) -> (r: Result<(GenerationPayload, ResponseContext<'a, T>, RequestDescriptor), ErrorResponse>)
        ensures
            request::is_chat_result(
                match r {
                    Ok((payload, ctx, _)) => Ok((payload, ctx)),
                    Err(e) => Err(e),
                },
                chat@,
                model_id,
                *registry,
                created,
            ),
            r matches Ok((payload, ctx, descriptor)) ==> {
                &&& request::is_chat_id(ctx.request_id@)
                &&& is_descriptor(descriptor, payload, ctx)
            },
    {
        match prepare_chat(chat, model_id, registry, created) {
            Ok((payload, ctx)) => {
                let descriptor = plan_for(&payload, &ctx);
                Ok((payload, ctx, descriptor))
            },
            Err(e) => Err(e),
        }
    }

    /// Begins to answer a generate request: it is prepared, and the planner is asked this.
    pub fn execute_generate<'a, T: Tokenizer>(
        &self,
        req: Arc<GenerateRequest>,
        model_id: Option<String>,
        registry: &'a TokenizerRegistry<T>,
        created: u64,
    ) -> (r: Result<(GenerationPayload, ResponseContext<'a, T>, RequestDescriptor), ErrorResponse>)
        ensures
            request::is_generate_result(
                match r {
                    Ok((payload, ctx, _)) => Ok((payload, ctx)),
                    Err(e) => Err(e),
                },
                *req,
                model_id,
                *registry,
                created,
            ),
            r matches Ok((payload, ctx, descriptor)) ==> {
                &&& request::is_generate_id(ctx.request_id@, *req)
                &&& is_descriptor(descriptor, payload, ctx)
            },
    {
        match prepare_generate(req, model_id, registry, created) {
            Ok((payload, ctx)) => {
                let descriptor = plan_for(&payload, &ctx);
                Ok((payload, ctx, descriptor))
            },
            Err(e) => Err(e),
        }
    }

    /// Begins to answer a chat request whose answer is made into a response. Such an
    /// answer is given as a whole.
    pub fn execute_chat_for_responses<'a, T: Tokenizer>(
        &self,
        chat: EncodedChat,
        model_id: Option<String>,
        registry: &'a TokenizerRegistry<T>,
        created: u64,
    ) -> (r: Result<(GenerationPayload, ResponseContext<'a, T>, RequestDescriptor), ErrorResponse>)
        ensures
            if chat@.request.stream {
                r matches Err(e) && e.is(
                    400,
                    "streaming_not_supported"@,
                    "Streaming is not supported in this context"@,
                )
            } else {
                &&& request::is_chat_result(
                    match r {
                        Ok((payload, ctx, _)) => Ok((payload, ctx)),
                        Err(e) => Err(e),
                    },
                    chat@,
                    model_id,
                    *registry,
                    created,
                )
                &&& r matches Ok((payload, ctx, descriptor)) ==> {
                    &&& request::is_chat_id(ctx.request_id@)
                    &&& is_descriptor(descriptor, payload, ctx)
                }
            },
    {
        if chat.request().stream {
            return Err(
                error::bad_request(
                    "streaming_not_supported",
                    "Streaming is not supported in this context".to_owned(),
                ),
            );
        }
        self.execute_chat(chat, model_id, registry, created)
    }

    /// The planner has answered.
    pub fn on_plan(
        &self,
        planned: Result<PlacementPlan, PlacementError>,
        model_id: Option<&str>,
        payload: &mut GenerationPayload,
    ) -> (r: Result<DispatchOrder, ErrorResponse>)
        ensures
            self.orders(
                planned,
                match model_id {
                    Some(model) => Some(model@),
                    None => None,
                },
                *old(payload),
                *final(payload),
                r,
            ),
    {
        match planned {
            Ok(plan) => {
                let guarded = make_load_guards(&plan);
                let targets = self.engine.dispatch(&plan, payload);
                Ok(DispatchOrder { guarded, targets })
            },
            Err(err) => Err(placement_err_to_response(err, model_id)),
        }
    }

    /// The workers have answered, or not.
    pub fn on_dispatch<'a, S, T>(
        &self,
        dispatched: Result<TokenHandle<S>, EngineError>,
        ctx: &ResponseContext<'a, T>,
    ) -> (r: Result<(TokenHandle<S>, Rendering), ErrorResponse>)
        ensures
            self.renders(dispatched, ctx.original, r),
    {
        match dispatched {
            Ok(stream) => {
                let rendering = if ctx.original.is_streaming() {
                    Rendering::Streamed
                } else {
                    Rendering::Aggregated
                };
                Ok((stream, rendering))
            },
            Err(err) => Err(engine_err_to_response(err)),
        }
    }
}

/// The model that the metrics of a generate request name.
pub fn metric_model(model_id: Option<&str>) -> (r: String)
    ensures
        r@ == placement_response::model_named(
            match model_id {
                Some(model) => Some(model@),
                None => None,
            },
        ),
{
    match model_id {
        Some(model) => model.to_owned(),
        None => UNKNOWN_MODEL_ID.to_owned(),
    }
}

/// The backend of a pipeline never reaches the wire: pipelines of two backends give the same
/// orders and the same renderings.
pub proof fn law_backend_never_reaches_the_wire<S>(
    one: Pipeline,
    other: Pipeline,
    planned: Result<PlacementPlan, PlacementError>,
    model: Option<Seq<char>>,
    before: GenerationPayload,
    after: GenerationPayload,
    order: Result<DispatchOrder, ErrorResponse>,
    dispatched: Result<TokenHandle<S>, EngineError>,
    original: ProtocolRequest,
    rendered: Result<(TokenHandle<S>, Rendering), ErrorResponse>,
)
    ensures
        one.orders(planned, model, before, after, order) == other.orders(
            planned,
            model,
            before,
            after,
            order,
        ),
        one.renders(dispatched, original, rendered) == other.renders(
            dispatched,
            original,
            rendered,
        ),
{
}

/// The workers that are asked are those that are held to be loaded, in the same order.
pub proof fn law_asked_workers_are_guarded(
    plan: PlacementPlan,
    targets: Seq<DispatchTarget>,
    before: GenerationPayload,
    after: GenerationPayload,
)
    requires
        dispatch::is_dispatch(targets, plan, before, after),
    ensures
        targets.map_values(|t: DispatchTarget| t.url@) == workers_of(plan),
{
    assert(targets.map_values(|t: DispatchTarget| t.url@) =~= workers_of(plan));
}

/// The planner is asked about the request itself: the model, the text and whether it streams,
/// and the tokens where there are any, for workers that speak gRPC.
pub proof fn law_planner_is_asked_about_the_request<'a, T>(
    payload: &GenerationPayload,
    ctx: &ResponseContext<'a, T>,
    r: RequestDescriptor,
)
    requires
        call_ensures(plan_for::<T>, (payload, ctx), r),
    ensures
        r.model_id is Some <==> ctx.model_id is Some,
        r.model_id matches Some(model) ==> model@ == ctx.model_id->0@,
        r.text is Some <==> ctx.original_text is Some,
        r.text matches Some(said) ==> said@ == ctx.original_text->0@,
        r.tokens is None <==> payload.token_ids@.len() == 0,
        r.tokens matches Some(ids) ==> ids@ == payload.token_ids@,
        r.protocol == Some(Protocol::Grpc),
        ctx.original matches ProtocolRequest::Chat(req) ==> r.stream == req.stream,
        ctx.original matches ProtocolRequest::Generate(req) ==> r.stream == req.stream,
{
    if let Some(ids) = r.tokens {
        assert(r.tokens.deep_view() == Some(ids.deep_view()));
        assert(ids.deep_view() =~= ids@);
    }
}

/// Each worker of a plan is held to be loaded, once: the only one, or the one that prefills
/// and the one that decodes.
pub proof fn law_workers_are_guarded(plan: &PlacementPlan, r: Vec<String>)
    requires
        call_ensures(make_load_guards, (plan,), r),
    ensures
        *plan matches PlacementPlan::Single { worker, .. } ==> r@.len() == 1 && r@[0]@
            == worker.url@,
        *plan matches PlacementPlan::Pair { prefill, decode, .. } ==> r@.len() == 2 && r@[0]@
            == prefill.url@ && r@[1]@ == decode.url@,
{
    let urls = r.deep_view();
    assert(urls.len() == r@.len());
    assert forall|i: int| 0 <= i < r@.len() implies (#[trigger] r@[i])@ == urls[i] by {}
}

/// A request that was placed is carried out by the workers of its plan, and by no others; one
/// that could not be placed is refused, and its payload stays as it is.
pub proof fn law_plan_is_followed(
    pipeline: Pipeline,
    planned: Result<PlacementPlan, PlacementError>,
    model: Option<Seq<char>>,
    before: GenerationPayload,
    after: GenerationPayload,
    r: Result<DispatchOrder, ErrorResponse>,
)
    requires
        pipeline.orders(planned, model, before, after, r),
    ensures
        r is Ok <==> planned is Ok,
        planned matches Ok(PlacementPlan::Single { worker, .. }) ==> (r matches Ok(order)
            && order.guarded@.len() == 1 && order.targets@.len() == 1 && order.guarded@[0]@
            == worker.url@ && order.targets@[0].url@ == worker.url@),
        planned matches Ok(PlacementPlan::Pair { prefill, decode, .. }) ==> (r matches Ok(order)
            && order.guarded@.len() == 2 && order.targets@.len() == 2 && order.guarded@[0]@
            == prefill.url@ && order.guarded@[1]@ == decode.url@ && order.targets@[0].url@
            == prefill.url@ && order.targets@[1].url@ == decode.url@),
        r matches Err(e) ==> e.status == 503 && after == before,
{
    if let Ok(order) = r {
        let urls = order.guarded.deep_view();
        assert(urls.len() == order.guarded@.len());
        assert forall|i: int| 0 <= i < order.guarded@.len() implies (
        #[trigger] order.guarded@[i])@ == urls[i] by {}
        if let Ok(plan) = planned {
            law_asked_workers_are_guarded(plan, order.targets@, before, after);
            let asked = order.targets@.map_values(|t: DispatchTarget| t.url@);
            assert(asked.len() == order.targets@.len());
            assert forall|i: int| 0 <= i < asked.len() implies asked[i]
                == (#[trigger] order.targets@[i]).url@ by {}
            assert(asked[0] == order.targets@[0].url@);
            if asked.len() > 1 {
                assert(asked[1] == order.targets@[1].url@);
            }
        }
    }
}

/// The stream of the workers is handed on as it is, to be given event by event if and only if
/// the request asks for that; a failure is told by its kind.
pub proof fn law_answer_is_rendered_as_asked<'a, S, T>(
    pipeline: &Pipeline,
    dispatched: Result<TokenHandle<S>, EngineError>,
    ctx: &ResponseContext<'a, T>,
    r: Result<(TokenHandle<S>, Rendering), ErrorResponse>,
    told: ErrorResponse,
)
    requires
        call_ensures(Pipeline::on_dispatch::<S, T>, (pipeline, dispatched, ctx), r),
        dispatched matches Err(e) ==> call_ensures(engine_err_to_response, (e,), told),
    ensures
        dispatched matches Ok(stream) ==> {
            &&& r matches Ok((handle, rendering))
            &&& handle == stream
            &&& ctx.original matches ProtocolRequest::Chat(req) ==> (rendering
                == Rendering::Streamed <==> req.stream)
            &&& ctx.original matches ProtocolRequest::Generate(req) ==> (rendering
                == Rendering::Streamed <==> req.stream)
        },
        dispatched is Err ==> (r matches Err(e) && e.status == told.status && e.code@ == told.code@
            && e.message@ == told.message@),
{
}

/// A pipeline is for the backend that it was made for.
pub proof fn law_pipelines_are_for_their_backend(regular: Pipeline, pd: Pipeline)
    requires
        call_ensures(Pipeline::new_regular, (), regular),
        call_ensures(Pipeline::new_pd, (), pd),
    ensures
        regular.backend != pd.backend,
        regular.backend == Backend::Regular,
        pd.backend == Backend::Pd,
{
}

/// An answer that is made into a response is given as a whole: where the chat request asks for
/// a stream, it is refused; otherwise it is prepared as any chat request is.
pub proof fn law_response_is_given_as_a_whole<'a, T: Tokenizer>(
    pipeline: &Pipeline,
    chat: EncodedChat,
    model_id: Option<String>,
    registry: &'a TokenizerRegistry<T>,
    created: u64,
    r: Result<(GenerationPayload, ResponseContext<'a, T>, RequestDescriptor), ErrorResponse>,
    plain: Result<(GenerationPayload, ResponseContext<'a, T>), ErrorResponse>,
)
    requires
        call_ensures(
            Pipeline::execute_chat_for_responses::<T>,
            (pipeline, chat, model_id, registry, created),
            r,
        ),
        call_ensures(prepare_chat::<T>, (chat, model_id, registry, created), plain),
    ensures
        chat@.request.stream ==> (r matches Err(e) && e.status == 400 && e.code@
            == "streaming_not_supported"@),
        !chat@.request.stream ==> (r is Ok <==> plain is Ok),
        r matches Ok((payload, ctx, descriptor)) ==> !descriptor.stream,
{
}

/// The metrics of a request name its model, or `unknown` where it names none.
pub proof fn law_metrics_name_the_model(model_id: Option<&str>, r: String)
    requires
        call_ensures(metric_model, (model_id,), r),
    ensures
        model_id matches Some(model) ==> r@ == model@,
        model_id is None ==> r@ == "unknown"@,
{
}

/// What the planner answers is carried out: its workers are guarded and asked, or the request is
/// refused as one that cannot be placed is.
pub proof fn law_planned_request_is_carried_out(
    pipeline: &Pipeline,
    planned: Result<PlacementPlan, PlacementError>,
    model_id: Option<&str>,
    payload: &mut GenerationPayload,
    r: Result<DispatchOrder, ErrorResponse>,
    refused: ErrorResponse,
)
    requires
        call_ensures(Pipeline::on_plan, (pipeline, planned, model_id, payload), r),
        planned matches Err(why) ==> call_ensures(
            placement_err_to_response,
            (why, model_id),
            refused,
        ),
    ensures
        r is Ok <==> planned is Ok,
        planned matches Ok(PlacementPlan::Single { worker, .. }) ==> (r matches Ok(order)
            && order.targets@.len() == 1 && order.targets@[0].url@ == worker.url@
            && order.guarded@.len() == 1 && order.guarded@[0]@ == worker.url@),
        planned matches Ok(PlacementPlan::Pair { prefill, decode, .. }) ==> (r matches Ok(order)
            && order.targets@.len() == 2 && order.targets@[0].url@ == prefill.url@
            && order.targets@[1].url@ == decode.url@ && order.guarded@.len() == 2
            && order.guarded@[0]@ == prefill.url@ && order.guarded@[1]@ == decode.url@),
        r matches Err(e) ==> e.status == refused.status && e.code@ == refused.code@ && e.message@
            == refused.message@ && *final(payload) == *old(payload),
        final(payload).token_ids == old(payload).token_ids,
        final(payload).request_id == old(payload).request_id,
{
    let model = match model_id {
        Some(model) => Some(model@),
        None => None,
    };
    law_plan_is_followed(*pipeline, planned, model, *old(payload), *final(payload), r);
}

/// A request that is begun is prepared as one that is only prepared, and the planner is asked
/// about what was prepared.
pub proof fn law_request_is_begun<'a, T: Tokenizer>(
    pipeline: &Pipeline,
    chat: EncodedChat,
    req: Arc<GenerateRequest>,
    model_id: Option<String>,
    registry: &'a TokenizerRegistry<T>,
    created: u64,
    r: Result<(GenerationPayload, ResponseContext<'a, T>, RequestDescriptor), ErrorResponse>,
    prepared: Result<(GenerationPayload, ResponseContext<'a, T>), ErrorResponse>,
    s: Result<(GenerationPayload, ResponseContext<'a, T>, RequestDescriptor), ErrorResponse>,
    other: Result<(GenerationPayload, ResponseContext<'a, T>), ErrorResponse>,
)
    requires
        call_ensures(
            Pipeline::execute_chat::<T>,
            (pipeline, chat, model_id, registry, created),
            r,
        ),
        call_ensures(prepare_chat::<T>, (chat, model_id, registry, created), prepared),
        call_ensures(
            Pipeline::execute_generate::<T>,
            (pipeline, req, model_id, registry, created),
            s,
        ),
        call_ensures(prepare_generate::<T>, (req, model_id, registry, created), other),
    ensures
        r is Ok <==> prepared is Ok,
        r matches Ok((payload, ctx, d)) ==> {
            &&& payload.text@ == (prepared->Ok_0).0.text@
            &&& payload.token_ids@ == (prepared->Ok_0).0.token_ids@
            &&& d.stream == chat@.request.stream
            &&& d.tokens is None <==> payload.token_ids@.len() == 0
            &&& d.tokens matches Some(ids) ==> ids@ == payload.token_ids@
            &&& d.model_id matches Some(model) ==> (model_id matches Some(asked) && asked@
                == model@)
            &&& d.text matches Some(said) ==> said@ == payload.text@
        },
        r matches Err(e) ==> (prepared matches Err(why) && e.status == why.status && e.code@
            == why.code@),
        s is Ok <==> other is Ok,
        s matches Ok((payload, ctx, d)) ==> {
            let own = *req;
            &&& payload.token_ids@ == (other->Ok_0).0.token_ids@
            &&& d.stream == own.stream
            &&& d.tokens is None <==> payload.token_ids@.len() == 0
            &&& d.tokens matches Some(ids) ==> ids@ == payload.token_ids@
            &&& d.model_id matches Some(model) ==> (model_id matches Some(asked) && asked@
                == model@)
        },
        s matches Err(e) ==> (other matches Err(why) && e.status == why.status && e.code@
            == why.code@),
{
    if let Ok((payload, ctx, d)) = r {
        if let Some(ids) = d.tokens {
            assert(d.tokens.deep_view() == Some(ids.deep_view()));
            assert(ids.deep_view() =~= ids@);
        }
    }
    if let Ok((payload, ctx, d)) = s {
        if let Some(ids) = d.tokens {
            assert(d.tokens.deep_view() == Some(ids.deep_view()));
            assert(ids.deep_view() =~= ids@);
        }
    }
}

} // verus!
