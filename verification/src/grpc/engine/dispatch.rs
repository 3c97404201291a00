//! What the engine decides when it dispatches a request: what each worker is asked, and
//! what becomes of its answers.

use std::collections::VecDeque;
use vstd::prelude::*;

use super::payload_to_proto;
use super::payload_to_proto::sglang_knows;
use super::payload_to_proto::to_sglang_proto;
use super::payload_to_proto::to_vllm_proto;
use super::payload_to_proto::vllm_knows;
use super::pd_stream_merge::merge_pd_streams;
use super::pd_stream_merge::MergeState;
use super::pd_stream_merge::PdMerger;
use super::proto::SglangResponse;
use super::proto::VllmResponse;
use super::proto_stream_wrapper::ProtoGenerateRequest;
use super::proto_stream_wrapper::ProtoGenerateRequestView;
use super::proto_stream_wrapper::ProtoGenerateResponse;
use super::proto_stream_wrapper::ProtoResponseVariant;
use super::proto_to_chunk;
use super::proto_to_chunk::proto_chunk_to_chunk;
use super::proto_to_chunk::proto_complete_to_chunk;
use super::worker_client_cache::RuntimeType;
use crate::comm::placement_response::PlacementPlan;
use crate::ids;
use crate::prepare::generation_payload::GenerationPayload;
use crate::prepare::generation_payload::PdMetadata;
use crate::token_handle::engine_error::EngineError;
use crate::token_handle::engine_error::TransportStatus;
use crate::token_handle::token_chunk::TokenChunk;
use crate::token_handle::token_handle::StreamPoll;
use crate::token_handle::token_handle::TokenHandle;
use crate::token_handle::token_handle::TokenSource;

verus! {

/// The engine has no state of its own.
#[derive(Clone, Copy, Debug)]
pub struct GrpcEngine {}

/// The room of a random number: the number without its highest bit.
pub open spec fn room(random: u32) -> i32 {
    (random % 0x8000_0000) as i32
}

fn make_room(random: u32) -> (r: i32)
    ensures
        r == room(random),
        r >= 0,
{
    let masked: u32 = random & 0x7fff_ffff;
    assert(masked == random % 0x8000_0000 && masked < 0x8000_0000) by (bit_vector)
        requires
            masked == random & 0x7fff_ffff,
    ;
    masked as i32
}

/// A worker that is to be asked, and how the errors that it reports are labelled.
#[derive(Debug)]
pub struct DispatchTarget {
    pub url: String,
    pub role: ProtoErrorRole,
}

/// What came of asking a worker.
#[derive(Debug)]
pub enum Asked {
    /// There is no connection to it.
    Unreachable,
    /// It did not take the request, for this reason.
    Refused(String),
    /// It has begun to answer.
    Started(ProtoStream),
}

/// Both workers of a pair are asked, told to meet at the prefill worker in a room that is
/// not negative; a single worker is asked with the payload as it is.
pub open spec fn is_dispatch(
    targets: Seq<DispatchTarget>,
    placement: PlacementPlan,
    before: GenerationPayload,
    after: GenerationPayload,
) -> bool {
    match placement {
        PlacementPlan::Single { worker, .. } => {
            &&& after == before
            &&& targets.len() == 1
            &&& targets[0].url@ == worker.url@
            &&& targets[0].role == ProtoErrorRole::Worker
        },
        PlacementPlan::Pair { prefill, decode, .. } => {
            &&& after == (GenerationPayload { pd_metadata: after.pd_metadata, ..before })
            &&& after.pd_metadata matches Some(pd)
            &&& pd.bootstrap_host@ == prefill.bootstrap_host@
            &&& pd.bootstrap_port == (match prefill.bootstrap_port {
                Some(p) => p as i32,
                None => 0,
            })
            &&& pd.bootstrap_room >= 0
            &&& targets.len() == 2
            &&& targets[0].url@ == prefill.url@
            &&& targets[0].role == ProtoErrorRole::Prefill
            &&& targets[1].url@ == decode.url@
            &&& targets[1].role == ProtoErrorRole::Decode
        },
    }
}

impl GrpcEngine {
    pub fn new() -> (r: Self)
        ensures
            r == (GrpcEngine {  }),
    {
        GrpcEngine {  }
    }

    /// Tells both workers of a pair where they meet: at the prefill worker, in the room of
    /// this number.
    pub fn bind_pair(
        &self,
        payload: &mut GenerationPayload,
        bootstrap_host: &str,
        bootstrap_port: Option<u16>,
        random: u32,
    )
        ensures
            *final(payload) == (GenerationPayload {
                pd_metadata: final(payload).pd_metadata,
                ..*old(payload)
            }),
            final(payload).pd_metadata matches Some(pd) && {
                &&& pd.bootstrap_host@ == bootstrap_host@
                &&& pd.bootstrap_port == (match bootstrap_port {
                    Some(p) => p as i32,
                    None => 0,
                })
                &&& pd.bootstrap_room == room(random)
            },
    {
        let port: i32 = match bootstrap_port {
            Some(p) => p as i32,
            None => 0,
        };
        payload.pd_metadata = Some(
            PdMetadata {
                bootstrap_host: bootstrap_host.to_owned(),
                bootstrap_port: port,
                bootstrap_room: make_room(random),
            },
        );
    }

    /// Begins a dispatch: a pair is told where it meets, in the room of this number, and
    /// the workers that are to be asked are named, a prefill worker before its decode worker.
    pub fn dispatch_in(
        &self,
        placement: &PlacementPlan,
        payload: &mut GenerationPayload,
        random: u32,
    ) -> (r: Vec<DispatchTarget>)
        ensures
            is_dispatch(r@, *placement, *old(payload), *final(payload)),
            *placement is Pair ==> (final(payload).pd_metadata matches Some(pd) && pd.bootstrap_room
                == room(random)),
    {
        let mut targets: Vec<DispatchTarget> = Vec::new();
        match placement {
            PlacementPlan::Single { worker, .. } => {
                targets.push(
                    DispatchTarget { url: worker.url.clone(), role: ProtoErrorRole::Worker },
                );
            },
            PlacementPlan::Pair { prefill, decode, .. } => {
                self.bind_pair(
                    payload,
                    prefill.bootstrap_host.as_str(),
                    prefill.bootstrap_port,
                    random,
                );
                targets.push(
                    DispatchTarget { url: prefill.url.clone(), role: ProtoErrorRole::Prefill },
                );
                targets.push(
                    DispatchTarget { url: decode.url.clone(), role: ProtoErrorRole::Decode },
                );
            },
        }
        targets
    }

    /// Begins a dispatch. A pair meets in a random room.
    pub fn dispatch(&self, placement: &PlacementPlan, payload: &mut GenerationPayload) -> (r: Vec<
        DispatchTarget,
    >)
        ensures
            is_dispatch(r@, *placement, *old(payload), *final(payload)),
    {
        let random: u32 = ids::random_u32();
        self.dispatch_in(placement, payload, random)
    }

    /// The token stream of a worker that was asked, or why there is none.
    pub fn dispatch_one(&self, target: &DispatchTarget, asked: Asked) -> (r: Result<
        TokenHandle<ProtoStreamSource>,
        EngineError,
    >)
        ensures
            match (asked, r) {
                (Asked::Unreachable, Err(EngineError::ConnectionAcquireFailed(url))) => url@
                    == target.url@,
                (Asked::Refused(m), Err(EngineError::RequestBuildFailed(e))) => e == m,
                (Asked::Started(stream), Ok(handle)) => {
                    &&& handle.source.stream == stream
                    &&& handle.source.role == target.role
                    &&& !handle.source.finished
                    &&& handle.source.log() == Seq::<StreamPoll>::empty()
                },
                _ => false,
            },
    {
        match asked {
            Asked::Unreachable => Err(EngineError::ConnectionAcquireFailed(target.url.clone())),
            Asked::Refused(message) => Err(EngineError::RequestBuildFailed(message)),
            Asked::Started(stream) => Ok(
                TokenHandle::new(ProtoStreamSource::new(stream, target.role)),
            ),
        }
    }

    /// Whether a worker of this kind knows the constraint of the payload.
    pub fn can_build(&self, runtime: RuntimeType, payload: &GenerationPayload) -> (r: bool)
        ensures
            r == (match runtime {
                RuntimeType::Sglang => payload_to_proto::fits_sglang(*payload),
                RuntimeType::Vllm => payload_to_proto::fits_vllm(*payload),
            }),
    {
        match &payload.tool_constraints {
            None => true,
            Some((kind, _)) => match runtime {
                RuntimeType::Sglang => sglang_knows(kind.as_str()),
                RuntimeType::Vllm => vllm_knows(kind.as_str()),
            },
        }
    }

    /// The request for a worker of this kind.
    pub fn build_request(&self, runtime: RuntimeType, payload: &GenerationPayload) -> (r:
        ProtoGenerateRequest)
        requires
            runtime == RuntimeType::Sglang ==> payload_to_proto::fits_sglang(*payload),
            runtime == RuntimeType::Vllm ==> payload_to_proto::fits_vllm(*payload),
        ensures
            r.deep_view() == (match runtime {
                RuntimeType::Sglang => ProtoGenerateRequestView::Sglang(
                    payload_to_proto::sglang_request(*payload),
                ),
                RuntimeType::Vllm => ProtoGenerateRequestView::Vllm(
                    payload_to_proto::vllm_request(*payload),
                ),
            }),
    {
        match runtime {
            RuntimeType::Sglang => ProtoGenerateRequest::Sglang(Box::new(to_sglang_proto(payload))),
            RuntimeType::Vllm => ProtoGenerateRequest::Vllm(Box::new(to_vllm_proto(payload))),
        }
    }

    /// The stream of a pair of workers. A failure of the prefill worker goes first.
    pub fn join_pair<P: TokenSource, D: TokenSource>(
        &self,
        prefill: Result<TokenHandle<P>, EngineError>,
        decode: Result<TokenHandle<D>, EngineError>,
        payload: &GenerationPayload,
    ) -> (r: Result<TokenHandle<PdMerger<P, D>>, EngineError>)
        requires
            prefill matches Ok(p) ==> p.source.valid(),
            decode matches Ok(d) ==> d.source.valid(),
        ensures
            match (prefill, decode) {
                (Err(e), _) => r == Err::<TokenHandle<PdMerger<P, D>>, EngineError>(e),
                (Ok(_), Err(e)) => r == Err::<TokenHandle<PdMerger<P, D>>, EngineError>(e),
                (Ok(p), Ok(d)) => r matches Ok(merged) && {
                    &&& merged.source.valid()
                    &&& merged.source.log() == Seq::<StreamPoll>::empty()
                    &&& merged.source.prefill == Some(p)
                    &&& merged.source.decode == Some(d)
                    &&& merged.source.need_input_logprobs@ == payload.logprob.input_logprobs
                    &&& merged.source.state == (if payload.logprob.input_logprobs {
                        MergeState::WaitingPrefill
                    } else {
                        MergeState::Streaming { pending_input_logprobs: None }
                    })
                },
            },
    {
        match prefill {
            Err(e) => Err(e),
            Ok(p) => match decode {
                Err(e) => Err(e),
                Ok(d) => Ok(merge_pd_streams(p, d, payload.logprob.input_logprobs)),
            },
        }
    }
}

/// How an error that a worker reports on a stream is labelled: a single worker's is one
/// of transport; those of a pair tell which of the two it was.
#[derive(Clone, Copy, Debug, PartialEq, Eq, Structural)]
pub enum ProtoErrorRole {
    Worker,
    Prefill,
    Decode,
}

/// One poll of the stream of a backend.
#[derive(Debug)]
pub enum ProtoPoll {
    Pending,
    Message(Result<ProtoGenerateResponse, TransportStatus>),
    Closed,
}

/// The stream of a backend: the messages that have come and were not read yet, whether
/// more can come, and whether it was told of its completion. Unless it was, the work of
/// the backend is to be aborted when the stream is dropped.
#[derive(Debug)]
pub struct ProtoStream {
    pub inbox: VecDeque<Result<ProtoGenerateResponse, TransportStatus>>,
    pub closed: bool,
    pub completed: bool,
}

impl ProtoStream {
    /// A stream to which nothing has come yet.
    pub fn new() -> (r: Self)
        ensures
            r.inbox@.len() == 0,
            !r.closed,
            !r.completed,
    {
        ProtoStream { inbox: VecDeque::new(), closed: false, completed: false }
    }

    /// A message has come.
    pub fn feed(&mut self, message: Result<ProtoGenerateResponse, TransportStatus>)
        ensures
            final(self).inbox@ == old(self).inbox@.push(message),
            final(self).closed == old(self).closed,
            final(self).completed == old(self).completed,
    {
        self.inbox.push_back(message);
    }

    /// No more messages will come.
    pub fn close(&mut self)
        ensures
            final(self).inbox == old(self).inbox,
            final(self).closed,
            final(self).completed == old(self).completed,
    {
        self.closed = true;
    }

    /// What a poll of the stream gives.
    pub open spec fn peek(self) -> ProtoPoll {
        if self.inbox@.len() > 0 {
            ProtoPoll::Message(self.inbox@[0])
        } else if self.closed {
            ProtoPoll::Closed
        } else {
            ProtoPoll::Pending
        }
    }

    /// Reads the next message.
    pub fn next(&mut self) -> (r: ProtoPoll)
        ensures
            r == old(self).peek(),
            final(self).inbox@ == (if old(self).inbox@.len() > 0 {
                old(self).inbox@.skip(1)
            } else {
                old(self).inbox@
            }),
            final(self).closed == old(self).closed,
            final(self).completed == old(self).completed,
    {
        match self.inbox.pop_front() {
            Some(message) => ProtoPoll::Message(message),
            None => if self.closed {
                ProtoPoll::Closed
            } else {
                ProtoPoll::Pending
            },
        }
    }

    pub fn mark_completed(&mut self)
        ensures
            final(self).inbox == old(self).inbox,
            final(self).closed == old(self).closed,
            final(self).completed,
    {
        self.completed = true;
    }
}

/// The stream of a backend as a stream of tokens.
pub struct ProtoStreamSource {
    pub stream: ProtoStream,
    pub role: ProtoErrorRole,
    pub finished: bool,
    pub polls: Ghost<Seq<StreamPoll>>,
}

/// The messages from the first on that says something.
pub open spec fn from_first_saying(
    inbox: Seq<Result<ProtoGenerateResponse, TransportStatus>>,
) -> Seq<Result<ProtoGenerateResponse, TransportStatus>>
    decreases inbox.len(),
{
    if inbox.len() > 0 && (inbox[0] matches Ok(message) && message.variant() is Nothing) {
        from_first_saying(inbox.skip(1))
    } else {
        inbox
    }
}

/// The error that a worker reports, by its role.
pub open spec fn is_reported(e: EngineError, role: ProtoErrorRole, message: Seq<char>) -> bool {
    match (e, role) {
        (EngineError::Transport(s), ProtoErrorRole::Worker) => {
            &&& s.code == 13
            &&& s.message@ == message
            &&& s.source is None
        },
        (EngineError::Prefill(m), ProtoErrorRole::Prefill) => m@ == message,
        (EngineError::DecodeError(m), ProtoErrorRole::Decode) => m@ == message,
        _ => false,
    }
}

/// What a poll of the backend means.
pub open spec fn is_answer(r: StreamPoll, polled: ProtoPoll, role: ProtoErrorRole) -> bool {
    match polled {
        ProtoPoll::Pending => r == StreamPoll::Pending,
        ProtoPoll::Closed => r == StreamPoll::Closed,
        ProtoPoll::Message(Err(status)) => r == StreamPoll::Item(
            Err(EngineError::Transport(status)),
        ),
        ProtoPoll::Message(Ok(message)) => match message.variant() {
            ProtoResponseVariant::Chunk(c) => {
                &&& r matches StreamPoll::Item(Ok(chunk))
                &&& chunk.deep_view() == proto_to_chunk::chunk_view(c)
            },
            ProtoResponseVariant::Complete(c) => {
                &&& r matches StreamPoll::Item(Ok(chunk))
                &&& chunk.deep_view() == proto_to_chunk::complete_view(c)
            },
            ProtoResponseVariant::Error(e) => {
                &&& r matches StreamPoll::Item(Err(err))
                &&& is_reported(err, role, e.text())
            },
            ProtoResponseVariant::Nothing => false,
        },
    }
}

/// Whether the stream is over after this poll.
pub open spec fn finishes(polled: ProtoPoll) -> bool {
    match polled {
        ProtoPoll::Pending => false,
        ProtoPoll::Closed => true,
        ProtoPoll::Message(Err(_)) => true,
        ProtoPoll::Message(Ok(message)) => match message.variant() {
            ProtoResponseVariant::Complete(_) => true,
            ProtoResponseVariant::Error(_) => true,
            _ => false,
        },
    }
}

/// The first message that says something, or what the stream says without one.
pub open spec fn next_saying(
    inbox: Seq<Result<ProtoGenerateResponse, TransportStatus>>,
    closed: bool,
) -> ProtoPoll {
    let saying = from_first_saying(inbox);
    if saying.len() > 0 {
        ProtoPoll::Message(saying[0])
    } else if closed {
        ProtoPoll::Closed
    } else {
        ProtoPoll::Pending
    }
}

/// The messages behind the first that says something.
pub open spec fn behind_saying(
    inbox: Seq<Result<ProtoGenerateResponse, TransportStatus>>,
) -> Seq<Result<ProtoGenerateResponse, TransportStatus>> {
    let saying = from_first_saying(inbox);
    if saying.len() > 0 {
        saying.skip(1)
    } else {
        saying
    }
}

/// What the poll that `n` others precede can give, as long as no more messages come in.
pub open spec fn backend_gives(
    inbox: Seq<Result<ProtoGenerateResponse, TransportStatus>>,
    closed: bool,
    role: ProtoErrorRole,
    finished: bool,
    n: nat,
    polled: StreamPoll,
) -> bool
    decreases n,
{
    let read = next_saying(inbox, closed);
    if finished {
        polled is Closed
    } else if n == 0 {
        is_answer(polled, read, role)
    } else {
        backend_gives(
            behind_saying(inbox),
            closed,
            role,
            finishes(read),
            (n - 1) as nat,
            polled,
        )
    }
}

impl ProtoStreamSource {
    pub fn new(stream: ProtoStream, role: ProtoErrorRole) -> (r: Self)
        ensures
            r.stream == stream,
            r.role == role,
            !r.finished,
            r.log() == Seq::<StreamPoll>::empty(),
    {
        ProtoStreamSource { stream, role, finished: false, polls: Ghost(Seq::empty()) }
    }

    pub fn classify_proto_error(&self, message: String) -> (r: EngineError)
        ensures
            is_reported(r, self.role, message@),
    {
        match self.role {
            ProtoErrorRole::Worker => EngineError::Transport(TransportStatus::internal(message)),
            ProtoErrorRole::Prefill => EngineError::Prefill(message),
            ProtoErrorRole::Decode => EngineError::DecodeError(message),
        }
    }

    /// What this message means, unless it says nothing. The stream is over after an end or
    /// a failure.
    fn read(&mut self, polled: ProtoPoll) -> (r: Option<StreamPoll>)
        ensures
            match r {
                Some(answer) => is_answer(answer, polled, old(self).role),
                None => polled matches ProtoPoll::Message(Ok(message)) && message.variant() is Nothing,
            },
            *final(self) == (ProtoStreamSource {
                finished: old(self).finished || finishes(polled),
                ..*old(self)
            }),
    {
        match polled {
            ProtoPoll::Pending => Some(StreamPoll::Pending),
            ProtoPoll::Closed => {
                self.finished = true;
                Some(StreamPoll::Closed)
            },
            ProtoPoll::Message(Err(status)) => {
                self.finished = true;
                Some(StreamPoll::Item(Err(EngineError::Transport(status))))
            },
            ProtoPoll::Message(Ok(message)) => match message.into_response() {
                ProtoResponseVariant::Chunk(c) => Some(
                    StreamPoll::Item(Ok(proto_chunk_to_chunk(c))),
                ),
                ProtoResponseVariant::Complete(c) => {
                    self.finished = true;
                    Some(StreamPoll::Item(Ok(proto_complete_to_chunk(c))))
                },
                ProtoResponseVariant::Error(e) => {
                    self.finished = true;
                    let err = self.classify_proto_error(e.message().to_owned());
                    Some(StreamPoll::Item(Err(err)))
                },
                ProtoResponseVariant::Nothing => None,
            },
        }
    }
}

impl TokenSource for ProtoStreamSource {
    open spec fn valid(&self) -> bool {
        true
    }

    open spec fn log(&self) -> Seq<StreamPoll> {
        self.polls@
    }

    open spec fn completed(&self) -> bool {
        self.stream.completed
    }

    open spec fn budget(&self) -> nat {
        self.stream.inbox@.len()
    }

    open spec fn gives(&self, n: nat, polled: StreamPoll) -> bool {
        backend_gives(self.stream.inbox@, self.stream.closed, self.role, self.finished, n, polled)
    }

    open spec fn polled_from(&self, before: &Self, polled: StreamPoll) -> bool {
        &&& self.role == before.role
        &&& if before.finished {
            &&& polled == StreamPoll::Closed
            &&& self.finished
            &&& self.stream == before.stream
        } else {
            let read = next_saying(before.stream.inbox@, before.stream.closed);
            &&& is_answer(polled, read, before.role)
            &&& self.finished == finishes(read)
            &&& self.stream == (ProtoStream { inbox: self.stream.inbox, ..before.stream })
            &&& self.stream.inbox@ == behind_saying(before.stream.inbox@)
        }
    }

    open spec fn marked_from(&self, before: &Self) -> bool {
        *self == (ProtoStreamSource {
            stream: ProtoStream { completed: true, ..before.stream },
            ..*before
        })
    }

    /// Reads on to the first message that says something. Nothing is read once the stream
    /// is over.
    fn poll_next(&mut self) -> (polled: StreamPoll) {
        if self.finished {
            proof {
                self.polls@ = self.polls@.push(StreamPoll::Closed);
            }
            return StreamPoll::Closed;
        }
        loop
            invariant
                !self.finished,
                !old(self).finished,
                self.role == old(self).role,
                self.polls == old(self).polls,
                self.stream.closed == old(self).stream.closed,
                self.stream.completed == old(self).stream.completed,
                self.stream.inbox@.len() <= old(self).stream.inbox@.len(),
                from_first_saying(self.stream.inbox@) == from_first_saying(
                    old(self).stream.inbox@,
                ),
            decreases self.stream.inbox@.len(),
        {
            let next = self.stream.next();
            if let Some(polled) = self.read(next) {
                proof {
                    self.polls@ = self.polls@.push(polled);
                }
                return polled;
            }
        }
    }

    fn mark_completed(&mut self) {
        self.stream.mark_completed();
    }
}

/// A pair of workers is told to meet at the prefill worker. A single worker is asked with the
/// payload as it is, and nothing else of a payload ever changes. The workers of the plan are
/// asked and no others, a prefill worker before its decode worker, and their errors are told
/// apart.
pub proof fn law_workers_of_the_plan_are_asked(
    targets: Seq<DispatchTarget>,
    placement: PlacementPlan,
    before: GenerationPayload,
    after: GenerationPayload,
)
    requires
        is_dispatch(targets, placement, before, after),
    ensures
        after.request_id == before.request_id,
        after.text == before.text,
        after.token_ids == before.token_ids,
        after.sampling == before.sampling,
        after.stop == before.stop,
        after.logprob == before.logprob,
        after.tool_constraints == before.tool_constraints,
        after.stream == before.stream,
        after.return_hidden_states == before.return_hidden_states,
        after.log_metrics == before.log_metrics,
        placement matches PlacementPlan::Single { worker, .. } ==> {
            &&& after.pd_metadata == before.pd_metadata
            &&& targets.len() == 1
            &&& targets[0].url@ == worker.url@
            &&& targets[0].role is Worker
        },
        placement matches PlacementPlan::Pair { prefill, decode, .. } ==> {
            &&& targets.len() == 2
            &&& targets[0].url@ == prefill.url@
            &&& targets[0].role is Prefill
            &&& targets[1].url@ == decode.url@
            &&& targets[1].role is Decode
            &&& after.pd_metadata is Some
            &&& after.pd_metadata->0.bootstrap_host@ == prefill.bootstrap_host@
            &&& prefill.bootstrap_port matches Some(port) ==> after.pd_metadata->0.bootstrap_port
                == port
            &&& prefill.bootstrap_port is None ==> after.pd_metadata->0.bootstrap_port == 0
            &&& 0 <= after.pd_metadata->0.bootstrap_room
        },
{
}

/// The room of a number is the number itself, where that is one of a signed number, and else
/// the number without its highest bit.
pub proof fn law_room_is_the_number_without_its_sign(random: u32)
    ensures
        0 <= room(random) <= i32::MAX,
        random <= i32::MAX ==> room(random) == random,
        random > i32::MAX ==> room(random) == random - 0x8000_0000,
{
}

/// The prefill stream of a pair is waited for exactly where input log probabilities are. A
/// failure of a worker is passed on, that of the prefill worker first.
pub proof fn law_pair_is_joined<P: TokenSource, D: TokenSource>(
    engine: &GrpcEngine,
    prefill: Result<TokenHandle<P>, EngineError>,
    decode: Result<TokenHandle<D>, EngineError>,
    payload: &GenerationPayload,
    r: Result<TokenHandle<PdMerger<P, D>>, EngineError>,
)
    requires
        call_ensures(GrpcEngine::join_pair::<P, D>, (engine, prefill, decode, payload), r),
    ensures
        r is Ok <==> prefill is Ok && decode is Ok,
        prefill is Err ==> r->Err_0 == prefill->Err_0,
        prefill is Ok && decode is Err ==> r->Err_0 == decode->Err_0,
        r matches Ok(merged) ==> {
            &&& merged.source.prefill == Some(prefill->Ok_0)
            &&& merged.source.decode == Some(decode->Ok_0)
            &&& merged.source.state is WaitingPrefill == payload.logprob.input_logprobs
            &&& merged.source.need_input_logprobs@ == payload.logprob.input_logprobs
        },
{
}

/// A worker that cannot be reached is named, one that refuses is quoted, and one that answers
/// is listened to, with its errors told by its role.
pub proof fn law_asked_worker_answers_or_fails(
    engine: &GrpcEngine,
    target: &DispatchTarget,
    asked: Asked,
    r: Result<TokenHandle<ProtoStreamSource>, EngineError>,
)
    requires
        call_ensures(GrpcEngine::dispatch_one, (engine, target, asked), r),
    ensures
        asked is Unreachable ==> r is Err && r->Err_0 is ConnectionAcquireFailed
            && r->Err_0->ConnectionAcquireFailed_0@ == target.url@,
        asked matches Asked::Refused(m) ==> r is Err && r->Err_0 is RequestBuildFailed
            && r->Err_0->RequestBuildFailed_0 == m,
        asked matches Asked::Started(stream) ==> r is Ok && r->Ok_0.source.stream == stream
            && r->Ok_0.source.role == target.role && !r->Ok_0.source.finished,
{
}

/// The request to a worker is one of its own backend, and the one that its backend is asked for.
pub proof fn law_request_is_for_the_backend(
    engine: &GrpcEngine,
    runtime: RuntimeType,
    payload: &GenerationPayload,
    r: ProtoGenerateRequest,
)
    requires
        call_ensures(GrpcEngine::build_request, (engine, runtime, payload), r),
    ensures
        runtime is Sglang ==> (r matches ProtoGenerateRequest::Sglang(req) && req.deep_view()
            == payload_to_proto::sglang_request(*payload)),
        runtime is Vllm ==> (r matches ProtoGenerateRequest::Vllm(req) && req.deep_view()
            == payload_to_proto::vllm_request(*payload)),
{
}

/// Whether a message brings tokens.
pub open spec fn brings_tokens(message: ProtoGenerateResponse, ids: Seq<u32>, last: bool) -> bool {
    match message {
        ProtoGenerateResponse::Sglang(m) => match m.response {
            Some(SglangResponse::Chunk(c)) => !last && c.token_ids.deep_view() == ids,
            Some(SglangResponse::Complete(c)) => last && c.output_ids.deep_view() == ids,
            _ => false,
        },
        ProtoGenerateResponse::Vllm(m) => match m.response {
            Some(VllmResponse::Chunk(c)) => !last && c.token_ids.deep_view() == ids,
            Some(VllmResponse::Complete(c)) => last && c.output_ids.deep_view() == ids,
            _ => false,
        },
    }
}

/// Whether a message says nothing.
pub open spec fn is_void(message: ProtoGenerateResponse) -> bool {
    match message {
        ProtoGenerateResponse::Sglang(m) => m.response is None,
        ProtoGenerateResponse::Vllm(m) => m.response is None,
    }
}

/// A poll of the stream of a worker that goes on gives the next message: its tokens, or the
/// error that it reports. The end of an answer, an error and the end of the stream end it.
pub proof fn law_poll_gives_the_next_message(
    before: ProtoStreamSource,
    after: ProtoStreamSource,
    polled: StreamPoll,
)
    requires
        after.polled_from(&before, polled),
        !before.finished,
        before.stream.inbox@.len() > 0 ==> (before.stream.inbox@[0] matches Ok(m) ==> !is_void(m)),
    ensures
        after.role == before.role,
        before.stream.inbox@.len() == 0 ==> {
            &&& polled is Closed == before.stream.closed
            &&& polled is Pending == !before.stream.closed
            &&& after.finished == before.stream.closed
        },
        before.stream.inbox@.len() > 0 ==> {
            &&& polled is Item
            &&& after.stream.inbox@ == before.stream.inbox@.skip(1)
            &&& match before.stream.inbox@[0] {
                Err(status) => polled->Item_0 == Err::<TokenChunk, EngineError>(
                    EngineError::Transport(status),
                ) && after.finished,
                Ok(message) => match polled->Item_0 {
                    Ok(TokenChunk::Partial { token_ids, .. }) => brings_tokens(
                        message,
                        token_ids.deep_view(),
                        false,
                    ) && !after.finished,
                    Ok(TokenChunk::Complete { token_ids, .. }) => brings_tokens(
                        message,
                        token_ids.deep_view(),
                        true,
                    ) && after.finished,
                    Err(e) => {
                        &&& after.finished
                        &&& message matches ProtoGenerateResponse::Sglang(m)
                        &&& m.response matches Some(SglangResponse::Error(told))
                        &&& match before.role {
                            ProtoErrorRole::Worker => e is Transport && e->Transport_0.code == 13
                                && e->Transport_0.message@ == told.message@,
                            ProtoErrorRole::Prefill => e is Prefill && e->Prefill_0@
                                == told.message@,
                            ProtoErrorRole::Decode => e is DecodeError && e->DecodeError_0@
                                == told.message@,
                        }
                    },
                },
            }
        },
{
    let inbox = before.stream.inbox@;
    if inbox.len() > 0 {
        assert(from_first_saying(inbox) == inbox);
        if let Ok(message) = inbox[0] {
            if let StreamPoll::Item(Ok(chunk)) = polled {
                let view = chunk.deep_view();
                if chunk is Partial {
                    assert(view->Partial_token_ids == chunk->Partial_token_ids.deep_view());
                } else {
                    assert(view->Complete_token_ids == chunk->Complete_token_ids.deep_view());
                }
            }
        }
    }
}

/// A message that says nothing is passed over: a poll gives what it would give without it.
pub proof fn law_void_messages_are_passed_over(
    before: ProtoStreamSource,
    without: ProtoStreamSource,
    after: ProtoStreamSource,
    polled: StreamPoll,
)
    requires
        after.polled_from(&before, polled),
        before.stream.inbox@.len() > 0,
        before.stream.inbox@[0] matches Ok(m) && is_void(m),
        without == (ProtoStreamSource {
            stream: ProtoStream { inbox: without.stream.inbox, ..before.stream },
            ..before
        }),
        without.stream.inbox@ == before.stream.inbox@.skip(1),
        !before.finished,
    ensures
        after.polled_from(&without, polled),
{
}

/// Nothing is read once the stream of a worker is over.
pub proof fn law_finished_stream_stays_closed(
    before: ProtoStreamSource,
    after: ProtoStreamSource,
    polled: StreamPoll,
)
    requires
        after.polled_from(&before, polled),
        before.finished,
    ensures
        polled is Closed,
        after.finished,
        after.stream == before.stream,
{
}

/// A request can be built for a backend if and only if it has no constraint, or one that the
/// backend knows.
pub proof fn law_known_constraints_can_be_built(
    engine: &GrpcEngine,
    runtime: RuntimeType,
    payload: &GenerationPayload,
    kind: &str,
    r: bool,
    sglang: bool,
    vllm: bool,
)
    requires
        call_ensures(GrpcEngine::can_build, (engine, runtime, payload), r),
        call_ensures(sglang_knows, (kind,), sglang),
        call_ensures(vllm_knows, (kind,), vllm),
        payload.tool_constraints matches Some((own, _)) ==> own@ == kind@,
    ensures
        payload.tool_constraints is None ==> r,
        payload.tool_constraints is Some ==> r == (if runtime == RuntimeType::Sglang {
            sglang
        } else {
            vllm
        }),
{
    if let Some((own, value)) = payload.tool_constraints {
        let none = Seq::<char>::empty();
        assert(payload_to_proto::sglang_constraint(kind@, value@) is Some
            == payload_to_proto::sglang_constraint(kind@, none) is Some);
        assert(payload_to_proto::vllm_constraint(kind@, value@) is Some
            == payload_to_proto::vllm_constraint(kind@, none) is Some);
    }
}

/// What a worker says of a failure is kept, and told by the part that the worker plays.
pub proof fn law_worker_failure_is_told_by_its_part(
    source: &ProtoStreamSource,
    message: String,
    r: EngineError,
)
    requires
        call_ensures(ProtoStreamSource::classify_proto_error, (source, message), r),
    ensures
        source.role == ProtoErrorRole::Prefill ==> (r matches EngineError::Prefill(m) && m@
            == message@),
        source.role == ProtoErrorRole::Decode ==> (r matches EngineError::DecodeError(m) && m@
            == message@),
        source.role == ProtoErrorRole::Worker ==> (r matches EngineError::Transport(s) && s.message@
            == message@ && s.code == 13 && s.source is None),
{
}

/// What comes to a stream is read in the order in which it came, each message once. Without
/// one, the stream waits while more can come, and is closed after that.
pub proof fn law_messages_are_read_in_order(
    stream: &mut ProtoStream,
    message: Result<ProtoGenerateResponse, TransportStatus>,
    reader: &mut ProtoStream,
    r: ProtoPoll,
)
    requires
        call_ensures(ProtoStream::feed, (stream, message), ()),
        call_ensures(ProtoStream::next, (reader,), r),
    ensures
        final(stream).inbox@.len() == old(stream).inbox@.len() + 1,
        final(stream).inbox@.last() == message,
        forall|i: int|
            0 <= i < old(stream).inbox@.len() ==> #[trigger] final(stream).inbox@[i] == old(
                stream,
            ).inbox@[i],
        final(stream).closed == old(stream).closed,
        final(stream).completed == old(stream).completed,
        old(reader).inbox@.len() > 0 ==> {
            &&& r == ProtoPoll::Message(old(reader).inbox@[0])
            &&& final(reader).inbox@.len() == old(reader).inbox@.len() - 1
            &&& forall|i: int|
                0 <= i < final(reader).inbox@.len() ==> #[trigger] final(reader).inbox@[i] == old(
                    reader,
                ).inbox@[i + 1]
        },
        old(reader).inbox@.len() == 0 ==> {
            &&& r is Closed <==> old(reader).closed
            &&& r is Pending <==> !old(reader).closed
            &&& final(reader).inbox@.len() == 0
        },
        final(reader).closed == old(reader).closed,
        final(reader).completed == old(reader).completed,
{
}

/// A stream that is closed keeps its messages, and one that is told of its completion only
/// notes that.
pub proof fn law_closing_keeps_the_messages(closed: &mut ProtoStream, marked: &mut ProtoStream)
    requires
        call_ensures(ProtoStream::close, (closed,), ()),
        call_ensures(ProtoStream::mark_completed, (marked,), ()),
    ensures
        final(closed).closed,
        final(closed).inbox@ == old(closed).inbox@,
        final(closed).completed == old(closed).completed,
        final(marked).completed,
        final(marked).inbox@ == old(marked).inbox@,
        final(marked).closed == old(marked).closed,
{
}

/// Both workers of a pair are told to meet at the prefill worker, in the room of the number;
/// nothing else of the payload changes.
pub proof fn law_pair_meets_at_the_prefill_worker(
    engine: &GrpcEngine,
    payload: &mut GenerationPayload,
    bootstrap_host: &str,
    bootstrap_port: Option<u16>,
    random: u32,
)
    requires
        call_ensures(
            GrpcEngine::bind_pair,
            (engine, payload, bootstrap_host, bootstrap_port, random),
            (),
        ),
    ensures
        final(payload).pd_metadata matches Some(pd) && {
            &&& pd.bootstrap_host@ == bootstrap_host@
            &&& bootstrap_port matches Some(p) ==> pd.bootstrap_port == p
            &&& bootstrap_port is None ==> pd.bootstrap_port == 0
            &&& 0 <= pd.bootstrap_room
            &&& random <= i32::MAX ==> pd.bootstrap_room == random
            &&& random > i32::MAX ==> pd.bootstrap_room == random - 0x8000_0000
        },
        final(payload).request_id == old(payload).request_id,
        final(payload).text == old(payload).text,
        final(payload).token_ids == old(payload).token_ids,
        final(payload).sampling == old(payload).sampling,
        final(payload).stop == old(payload).stop,
        final(payload).logprob == old(payload).logprob,
        final(payload).tool_constraints == old(payload).tool_constraints,
        final(payload).stream == old(payload).stream,
{
    law_room_is_the_number_without_its_sign(random);
}

/// A dispatch asks the workers of the plan, with the payload that they are to be asked with.
pub proof fn law_dispatch_asks_the_workers(
    engine: &GrpcEngine,
    placement: &PlacementPlan,
    payload: &mut GenerationPayload,
    random: u32,
    r: Vec<DispatchTarget>,
    other: &mut GenerationPayload,
    s: Vec<DispatchTarget>,
)
    requires
        call_ensures(GrpcEngine::dispatch_in, (engine, placement, payload, random), r),
        call_ensures(GrpcEngine::dispatch, (engine, placement, other), s),
    ensures
        *placement matches PlacementPlan::Single { worker, .. } ==> {
            &&& r@.len() == 1 && s@.len() == 1
            &&& r@[0].url@ == worker.url@ && s@[0].url@ == worker.url@
            &&& r@[0].role is Worker && s@[0].role is Worker
            &&& final(payload).pd_metadata == old(payload).pd_metadata
            &&& final(other).pd_metadata == old(other).pd_metadata
        },
        *placement matches PlacementPlan::Pair { prefill, decode, .. } ==> {
            &&& r@.len() == 2 && s@.len() == 2
            &&& r@[0].url@ == prefill.url@ && s@[0].url@ == prefill.url@
            &&& r@[1].url@ == decode.url@ && s@[1].url@ == decode.url@
            &&& r@[0].role is Prefill && s@[0].role is Prefill
            &&& r@[1].role is Decode && s@[1].role is Decode
            &&& final(payload).pd_metadata matches Some(pd)
            &&& pd.bootstrap_host@ == prefill.bootstrap_host@
            &&& random <= i32::MAX ==> pd.bootstrap_room == random
            &&& final(other).pd_metadata matches Some(met)
            &&& met.bootstrap_host@ == prefill.bootstrap_host@
        },
        final(payload).token_ids == old(payload).token_ids,
        final(payload).request_id == old(payload).request_id,
        final(other).token_ids == old(other).token_ids,
        final(other).request_id == old(other).request_id,
{
    law_workers_of_the_plan_are_asked(r@, *placement, *old(payload), *final(payload));
    law_workers_of_the_plan_are_asked(s@, *placement, *old(other), *final(other));
    law_room_is_the_number_without_its_sign(random);
}

} // verus!
