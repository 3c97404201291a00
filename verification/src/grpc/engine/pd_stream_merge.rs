//! `merge_pd_streams`: the state machine that combines the streams of a prefill
//! and a decode worker into one `TokenHandle`.

use vstd::prelude::*;

use crate::token_handle::engine_error::EngineError;
use crate::token_handle::test_support;
use crate::token_handle::test_support::ScriptedItem;
use crate::token_handle::test_support::ScriptedSource;
use crate::token_handle::token_chunk::InputLogprobs;
use crate::token_handle::token_chunk::TokenChunk;
use crate::token_handle::token_handle;
use crate::token_handle::token_handle::StreamPoll;
use crate::token_handle::token_handle::TokenHandle;
use crate::token_handle::token_handle::TokenSource;

verus! {

/// Where the merger stands.
pub enum MergeState {
    WaitingPrefill,
    Streaming { pending_input_logprobs: Option<InputLogprobs> },
    Terminal,
}

/// What the polls of the prefill stream have settled.
pub enum PrefillOutcome {
    /// Nothing yet.
    Waiting,
    /// Decode may be streamed; its completion gets these input logprobs.
    Settled(Option<InputLogprobs>),
    /// The request failed before decode was looked at.
    Failed(EngineError),
}

/// Combines the streams of a prefill and a decode worker into one. Prefill is
/// waited for only where its input logprobs are needed.
pub fn merge_pd_streams<P: TokenSource, D: TokenSource>(
    prefill: TokenHandle<P>,
    decode: TokenHandle<D>,
    need_input_logprobs: bool,
) -> (r: TokenHandle<PdMerger<P, D>>)
    requires
        prefill.source.valid(),
        decode.source.valid(),
    ensures
        r.source.valid(),
        r.source.log() == Seq::<StreamPoll>::empty(),
        !r.source.completed(),
        !r.source.prefill_completed,
        r.source.prefill == Some(prefill),
        r.source.decode == Some(decode),
        r.source.need_input_logprobs@ == need_input_logprobs,
        r.source.state == (if need_input_logprobs {
            MergeState::WaitingPrefill
        } else {
            MergeState::Streaming { pending_input_logprobs: None }
        }),
        r.source.prefill_before@ == prefill.source.log(),
        r.source.prefill_seen@ == Seq::<StreamPoll>::empty(),
        r.source.decode_before@ == decode.source.log(),
        r.source.decode_seen@ == Seq::<StreamPoll>::empty(),
        r.source.prefill_told@ == prefill.source.completed(),
        r.source.decode_told@ == decode.source.completed(),
{
    proof {
        let none = Seq::<StreamPoll>::empty();
        assert(prefill.source.log() + none =~= prefill.source.log());
        assert(decode.source.log() + none =~= decode.source.log());
    }
    let ghost prefill_before = prefill.source.log();
    let ghost decode_before = decode.source.log();
    let ghost prefill_told = prefill.source.completed();
    let ghost decode_told = decode.source.completed();
    let state = if need_input_logprobs {
        MergeState::WaitingPrefill
    } else {
        MergeState::Streaming { pending_input_logprobs: None }
    };
    TokenHandle::new(
        PdMerger {
            prefill: Some(prefill),
            decode: Some(decode),
            state,
            prefill_completed: false,
            need_input_logprobs: Ghost(need_input_logprobs),
            prefill_before: Ghost(prefill_before),
            prefill_seen: Ghost(Seq::empty()),
            decode_before: Ghost(decode_before),
            decode_seen: Ghost(Seq::empty()),
            prefill_told: Ghost(prefill_told),
            decode_told: Ghost(decode_told),
            prefill_end: Ghost(None),
            decode_end: Ghost(None),
            output: Ghost(Seq::empty()),
            marked: Ghost(false),
        },
    )
}

/// The merged stream.
///
/// The ghost fields record, for each upstream, the polls that were made of it before it
/// was merged and whether it had been told of a clean completion by then, the polls that
/// the merger made of it and, once it has been dropped, whether it had been told of a clean
/// completion at last (`Some(true)`) or is cancelled by the drop (`Some(false)`).
pub struct PdMerger<P, D> {
    pub prefill: Option<TokenHandle<P>>,
    pub decode: Option<TokenHandle<D>>,
    pub state: MergeState,
    /// Whether prefill was told of a clean completion, as decode completed.
    pub prefill_completed: bool,
    pub need_input_logprobs: Ghost<bool>,
    pub prefill_before: Ghost<Seq<StreamPoll>>,
    pub prefill_seen: Ghost<Seq<StreamPoll>>,
    pub decode_before: Ghost<Seq<StreamPoll>>,
    pub decode_seen: Ghost<Seq<StreamPoll>>,
    pub prefill_told: Ghost<bool>,
    pub decode_told: Ghost<bool>,
    pub prefill_end: Ghost<Option<bool>>,
    pub decode_end: Ghost<Option<bool>>,
    pub output: Ghost<Seq<StreamPoll>>,
    pub marked: Ghost<bool>,
}

/// The items among the results of polls.
pub open spec fn items(log: Seq<StreamPoll>) -> Seq<Result<TokenChunk, EngineError>>
    decreases log.len(),
{
    if log.len() == 0 {
        Seq::empty()
    } else {
        match log.last() {
            StreamPoll::Item(r) => items(log.drop_last()).push(r),
            _ => items(log.drop_last()),
        }
    }
}

/// What one poll of the prefill stream settles.
pub open spec fn prefill_verdict(polled: StreamPoll) -> PrefillOutcome {
    match polled {
        StreamPoll::Pending => PrefillOutcome::Waiting,
        StreamPoll::Item(Ok(TokenChunk::Partial { .. })) => PrefillOutcome::Waiting,
        StreamPoll::Item(Ok(TokenChunk::Complete { input_logprobs, .. })) =>
            PrefillOutcome::Settled(input_logprobs),
        StreamPoll::Item(Err(e)) => PrefillOutcome::Failed(e),
        StreamPoll::Closed => PrefillOutcome::Failed(EngineError::PrefillEarlyClose),
    }
}

/// What the polls of the prefill stream settle: the first that settles anything decides.
pub open spec fn prefill_outcome(need: bool, seen: Seq<StreamPoll>) -> PrefillOutcome
    decreases seen.len(),
{
    if !need {
        PrefillOutcome::Settled(None)
    } else if seen.len() == 0 {
        PrefillOutcome::Waiting
    } else {
        match prefill_outcome(need, seen.drop_last()) {
            PrefillOutcome::Waiting => prefill_verdict(seen.last()),
            settled => settled,
        }
    }
}

/// The chunk with the prefill worker's input logprobs, where there are any, in
/// place of its own. A partial chunk has none and stays as it is.
pub open spec fn inject(chunk: TokenChunk, pending: Option<InputLogprobs>) -> TokenChunk {
    match chunk {
        TokenChunk::Partial { .. } => chunk,
        TokenChunk::Complete {
            token_ids,
            finish_reason,
            matched_stop,
            usage,
            logprobs,
            input_logprobs,
            meta,
        } => TokenChunk::Complete {
            token_ids,
            finish_reason,
            matched_stop,
            usage,
            logprobs,
            input_logprobs: if pending is Some {
                pending
            } else {
                input_logprobs
            },
            meta,
        },
    }
}

/// What the merged stream gives for one poll of the decode stream.
pub open spec fn decode_answer(pending: Option<InputLogprobs>, polled: StreamPoll) -> StreamPoll {
    match polled {
        StreamPoll::Pending => StreamPoll::Pending,
        StreamPoll::Item(Ok(chunk)) => StreamPoll::Item(Ok(inject(chunk, pending))),
        StreamPoll::Item(Err(e)) => StreamPoll::Item(Err(e)),
        StreamPoll::Closed => StreamPoll::Item(Err(EngineError::DecodeIncomplete)),
    }
}

/// Whether a poll of the merged stream was the last that brought anything.
pub open spec fn is_last(polled: StreamPoll) -> bool {
    match polled {
        StreamPoll::Item(Ok(TokenChunk::Partial { .. })) => false,
        StreamPoll::Item(_) => true,
        _ => false,
    }
}

/// The items that the merged stream makes of the polls of the decode stream.
pub open spec fn decode_items(
    pending: Option<InputLogprobs>,
    seen: Seq<StreamPoll>,
) -> Seq<Result<TokenChunk, EngineError>>
    decreases seen.len(),
{
    if seen.len() == 0 {
        Seq::empty()
    } else {
        match decode_answer(pending, seen.last()) {
            StreamPoll::Item(r) => decode_items(pending, seen.drop_last()).push(r),
            _ => decode_items(pending, seen.drop_last()),
        }
    }
}

/// The items of the merged stream, from the polls of its two upstreams.
pub open spec fn merged_items(
    need: bool,
    prefill_seen: Seq<StreamPoll>,
    decode_seen: Seq<StreamPoll>,
) -> Seq<Result<TokenChunk, EngineError>> {
    match prefill_outcome(need, prefill_seen) {
        PrefillOutcome::Waiting => Seq::empty(),
        PrefillOutcome::Settled(pending) => decode_items(pending, decode_seen),
        PrefillOutcome::Failed(e) => seq![Err(e)],
    }
}

/// Whether a poll gave a completion.
pub open spec fn is_complete(polled: StreamPoll) -> bool {
    polled matches StreamPoll::Item(Ok(TokenChunk::Complete { .. }))
}

/// Whether a completion is among the results of polls.
pub open spec fn completes(log: Seq<StreamPoll>) -> bool {
    exists|i: int| 0 <= i < log.len() && is_complete(#[trigger] log[i])
}

/// Nothing but `Closed` follows the last item, and `Closed` follows nothing else.
pub open spec fn ends_once(output: Seq<StreamPoll>, ended: bool) -> bool {
    &&& forall|i: int, j: int|
        0 <= i < j < output.len() && is_last(#[trigger] output[i]) ==> #[trigger] output[j] is Closed
    &&& forall|j: int|
        0 <= j < output.len() && #[trigger] output[j] is Closed ==> exists|i: int|
            0 <= i < j && is_last(#[trigger] output[i])
    &&& ended <==> exists|i: int| 0 <= i < output.len() && is_last(#[trigger] output[i])
}

proof fn lemma_push(log: Seq<StreamPoll>, polled: StreamPoll)
    ensures
        items(log.push(polled)) == (match polled {
            StreamPoll::Item(r) => items(log).push(r),
            _ => items(log),
        }),
        forall|pending: Option<InputLogprobs>| #[trigger]
            decode_items(pending, log.push(polled)) == (match decode_answer(pending, polled) {
                StreamPoll::Item(r) => decode_items(pending, log).push(r),
                _ => decode_items(pending, log),
            }),
        prefill_outcome(true, log.push(polled)) == (match prefill_outcome(true, log) {
            PrefillOutcome::Waiting => prefill_verdict(polled),
            settled => settled,
        }),
        completes(log.push(polled)) == (completes(log) || is_complete(polled)),
{
    let after = log.push(polled);
    assert(after.drop_last() =~= log);
    if completes(log) {
        let i = choose|i: int| 0 <= i < log.len() && is_complete(#[trigger] log[i]);
        assert(after[i] == log[i]);
    }
    if is_complete(polled) {
        assert(after[log.len() as int] == polled);
    }
    if completes(after) {
        let i = choose|i: int| 0 <= i < after.len() && is_complete(#[trigger] after[i]);
        if i < log.len() {
            assert(after[i] == log[i]);
        }
    }
}

proof fn lemma_ends_once_push(output: Seq<StreamPoll>, ended: bool, polled: StreamPoll)
    requires
        ends_once(output, ended),
        ended == polled is Closed,
    ensures
        ends_once(output.push(polled), ended || is_last(polled)),
{
    let after = output.push(polled);
    assert(after.last() == polled);
    assert forall|i: int, j: int|
        0 <= i < j < after.len() && is_last(#[trigger] after[i]) implies #[trigger] after[j] is Closed by {
        assert(after[i] == output[i]);
        if j < output.len() {
            assert(after[j] == output[j]);
        }
    }
    assert forall|j: int| 0 <= j < after.len() && #[trigger] after[j] is Closed implies exists|i: int|
        0 <= i < j && is_last(#[trigger] after[i]) by {
        if j < output.len() {
            assert(output[j] is Closed);
            let i = choose|i: int| 0 <= i < j && is_last(#[trigger] output[i]);
            assert(after[i] == output[i]);
        } else {
            let i = choose|i: int| 0 <= i < output.len() && is_last(#[trigger] output[i]);
            assert(after[i] == output[i]);
        }
    }
    if ended {
        let i = choose|i: int| 0 <= i < output.len() && is_last(#[trigger] output[i]);
        assert(after[i] == output[i]);
    }
    if exists|i: int| 0 <= i < after.len() && is_last(#[trigger] after[i]) {
        let i = choose|i: int| 0 <= i < after.len() && is_last(#[trigger] after[i]);
        if i < output.len() {
            assert(after[i] == output[i]);
        }
    }
}

/// A merger that is still to be polled: how many polls of each upstream lie behind it, and
/// where it stands.
pub struct MergerAhead {
    pub prefill_polls: nat,
    pub decode_polls: nat,
    pub state: MergeState,
}

/// The results of polls of the prefill stream that one poll of the merger can take in:
/// partial chunks, and one result that is none.
pub open spec fn can_wait<P: TokenSource>(prefill: P, from: nat, waited: Seq<StreamPoll>) -> bool {
    &&& waited.len() > 0
    &&& forall|i: int|
        0 <= i < waited.len() ==> prefill.gives((from + i) as nat, #[trigger] waited[i])
    &&& forall|i: int|
        0 <= i < waited.len() - 1 ==> {
            &&& #[trigger] waited[i] matches StreamPoll::Item(Ok(c))
            &&& c is Partial
        }
}

/// One poll of the decode stream can lead to this answer of the merger.
pub open spec fn can_decode<D: TokenSource>(
    decode: D,
    from: MergerAhead,
    pending: Option<InputLogprobs>,
    to: MergerAhead,
    polled: StreamPoll,
    answer: StreamPoll,
) -> bool {
    &&& decode.gives(from.decode_polls, answer)
    &&& polled == decode_answer(pending, answer)
    &&& to.decode_polls == from.decode_polls + 1
    &&& to.state == (if is_last(polled) {
        MergeState::Terminal
    } else {
        MergeState::Streaming { pending_input_logprobs: pending }
    })
}

/// One poll of the merger can give this, where the prefill stream gives `waited` and the
/// decode stream gives `answer`.
pub open spec fn can_step_on<P: TokenSource, D: TokenSource>(
    prefill: P,
    decode: D,
    from: MergerAhead,
    to: MergerAhead,
    polled: StreamPoll,
    waited: Seq<StreamPoll>,
    answer: StreamPoll,
) -> bool {
    match from.state {
        MergeState::Terminal => polled is Closed && to == from,
        MergeState::Streaming { pending_input_logprobs } => {
            &&& to.prefill_polls == from.prefill_polls
            &&& can_decode(decode, from, pending_input_logprobs, to, polled, answer)
        },
        MergeState::WaitingPrefill => {
            &&& can_wait(prefill, from.prefill_polls, waited)
            &&& to.prefill_polls == from.prefill_polls + waited.len()
            &&& match prefill_verdict(waited.last()) {
                PrefillOutcome::Waiting => {
                    &&& waited.last() is Pending
                    &&& polled is Pending
                    &&& to.decode_polls == from.decode_polls
                    &&& to.state is WaitingPrefill
                },
                PrefillOutcome::Settled(pending) => {
                    can_decode(decode, from, pending, to, polled, answer)
                },
                PrefillOutcome::Failed(e) => {
                    &&& polled == StreamPoll::Item(Err(e))
                    &&& to.decode_polls == from.decode_polls
                    &&& to.state is Terminal
                },
            }
        },
    }
}

/// One poll of the merger can give this.
pub open spec fn can_step<P: TokenSource, D: TokenSource>(
    prefill: P,
    decode: D,
    from: MergerAhead,
    to: MergerAhead,
    polled: StreamPoll,
) -> bool {
    exists|waited: Seq<StreamPoll>, answer: StreamPoll| #[trigger]
        can_step_on(prefill, decode, from, to, polled, waited, answer)
}

/// The poll of the merger that `n` others precede can give this.
pub open spec fn merger_gives<P: TokenSource, D: TokenSource>(
    prefill: P,
    decode: D,
    from: MergerAhead,
    n: nat,
    polled: StreamPoll,
) -> bool
    decreases n,
{
    if n == 0 {
        exists|to: MergerAhead| #[trigger] can_step(prefill, decode, from, to, polled)
    } else {
        exists|to: MergerAhead, first: StreamPoll| #[trigger]
            can_step(prefill, decode, from, to, first) && merger_gives(
                prefill,
                decode,
                to,
                (n - 1) as nat,
                polled,
            )
    }
}

/// A merger that has ended gives nothing but the end.
proof fn lemma_ended_gives<P: TokenSource, D: TokenSource>(
    prefill: P,
    decode: D,
    from: MergerAhead,
    n: nat,
    polled: StreamPoll,
)
    requires
        from.state is Terminal,
    ensures
        merger_gives(prefill, decode, from, n, polled) == (polled is Closed),
    decreases n,
{
    let none = Seq::<StreamPoll>::empty();
    if polled is Closed {
        assert(can_step_on(prefill, decode, from, from, polled, none, polled));
        assert(can_step(prefill, decode, from, from, polled));
    }
    if n > 0 {
        lemma_ended_gives(prefill, decode, from, (n - 1) as nat, polled);
        let closed = StreamPoll::Closed;
        assert(can_step_on(prefill, decode, from, from, closed, none, closed));
        assert(can_step(prefill, decode, from, from, closed));
    }
}

proof fn lemma_gives_ahead<P: TokenSource, D: TokenSource>(
    prefill: P,
    decode: D,
    at: MergerAhead,
    earlier_prefill: P,
    earlier_decode: D,
    from: MergerAhead,
    n: nat,
    polled: StreamPoll,
)
    requires
        at.prefill_polls <= from.prefill_polls,
        at.decode_polls <= from.decode_polls,
        at.state == from.state,
        token_handle::is_ahead(prefill, earlier_prefill, (from.prefill_polls - at.prefill_polls) as nat),
        token_handle::is_ahead(decode, earlier_decode, (from.decode_polls - at.decode_polls) as nat),
        merger_gives(prefill, decode, at, n, polled),
    ensures
        merger_gives(earlier_prefill, earlier_decode, from, n, polled),
    decreases n,
{
    let p = (from.prefill_polls - at.prefill_polls) as nat;
    let d = (from.decode_polls - at.decode_polls) as nat;
    let (to, first) = if n == 0 {
        let to = choose|to: MergerAhead| #[trigger] can_step(prefill, decode, at, to, polled);
        (to, polled)
    } else {
        choose|to: MergerAhead, first: StreamPoll| #[trigger]
            can_step(prefill, decode, at, to, first) && merger_gives(
                prefill,
                decode,
                to,
                (n - 1) as nat,
                polled,
            )
    };
    let (waited, answer) = choose|waited: Seq<StreamPoll>, answer: StreamPoll| #[trigger]
        can_step_on(prefill, decode, at, to, first, waited, answer);
    let then_to = MergerAhead {
        prefill_polls: to.prefill_polls + p,
        decode_polls: to.decode_polls + d,
        state: to.state,
    };
    if from.state is WaitingPrefill {
        assert forall|i: int| 0 <= i < waited.len() implies earlier_prefill.gives(
            (from.prefill_polls + i) as nat,
            #[trigger] waited[i],
        ) by {
            assert(prefill.gives((at.prefill_polls + i) as nat, waited[i]));
            assert((at.prefill_polls + i) as nat + p == (from.prefill_polls + i) as nat);
        }
        assert(can_wait(earlier_prefill, from.prefill_polls, waited));
    }
    if decode.gives(at.decode_polls, answer) {
        assert(earlier_decode.gives(at.decode_polls + d, answer));
    }
    assert(can_step_on(
        earlier_prefill,
        earlier_decode,
        from,
        then_to,
        first,
        waited,
        answer,
    ));
    assert(can_step(earlier_prefill, earlier_decode, from, then_to, first));
    if n > 0 {
        lemma_gives_ahead(
            prefill,
            decode,
            to,
            earlier_prefill,
            earlier_decode,
            then_to,
            (n - 1) as nat,
            polled,
        );
    }
}

/// Drops the handle, if it is still held, and says whether it had been told of
/// a clean completion by then.
fn release<S: TokenSource>(slot: &mut Option<TokenHandle<S>>) -> (end: Ghost<Option<bool>>)
    ensures
        *final(slot) is None,
        end@ == (match *old(slot) {
            Some(h) => Some(h.source.completed()),
            None => None::<bool>,
        }),
{
    let end: Ghost<Option<bool>> = Ghost(
        if *slot is Some {
            Some((*slot)->0.source.completed())
        } else {
            None::<bool>
        },
    );
    *slot = None;
    end
}

impl<P: TokenSource, D: TokenSource> PdMerger<P, D> {
    /// Both upstreams are held until the stream ends, and neither afterwards. They are
    /// polled by the merger alone.
    pub open spec fn holds_upstreams(&self) -> bool {
        &&& self.state is Terminal ==> self.prefill is None && self.decode is None
        &&& self.state !is Terminal ==> {
            &&& self.prefill is Some
            &&& self.prefill->0.source.valid()
            &&& self.prefill->0.source.log() == self.prefill_before@ + self.prefill_seen@
            &&& self.decode is Some
            &&& self.decode->0.source.valid()
            &&& self.decode->0.source.log() == self.decode_before@ + self.decode_seen@
        }
        &&& self.prefill_end@ is Some == self.prefill is None
        &&& self.decode_end@ is Some == self.decode is None
    }

    /// The merger as it is still to be polled.
    pub open spec fn ahead(&self) -> MergerAhead {
        MergerAhead { prefill_polls: 0, decode_polls: 0, state: self.state }
    }

    /// The prefill stream is told of a clean completion when decode completes, and at no
    /// other time. The decode stream is told when the merger is.
    pub open spec fn tells_upstreams(&self) -> bool {
        &&& self.prefill_completed == completes(self.output@)
        &&& self.state !is Terminal ==> {
            &&& !completes(self.output@)
            &&& self.prefill->0.source.completed() == self.prefill_told@
            &&& self.decode->0.source.completed() == (self.decode_told@ || self.marked@)
        }
        &&& self.state is Terminal ==> {
            &&& self.prefill_end@ == Some(self.prefill_told@ || completes(self.output@))
            &&& self.decode_end@ == Some(self.decode_told@) || self.decode_end@ == Some(
                self.decode_told@ || self.marked@,
            )
        }
    }

    /// The state agrees with what the upstreams have given.
    pub open spec fn state_agrees(&self) -> bool {
        let outcome = prefill_outcome(self.need_input_logprobs@, self.prefill_seen@);
        &&& self.state is WaitingPrefill ==> outcome is Waiting
        &&& self.state matches MergeState::Streaming { pending_input_logprobs } ==> outcome
            == PrefillOutcome::Settled(pending_input_logprobs)
        &&& self.state is Terminal ==> outcome !is Waiting
        &&& outcome !is Settled ==> self.decode_seen@.len() == 0
        &&& !self.need_input_logprobs@ ==> self.prefill_seen@.len() == 0
    }

    /// One poll of the decode stream, and what the merger makes of it. On a
    /// clean completion the prefill stream is told before it is dropped; on a
    /// failure it is dropped as it is.
    pub open spec fn decode_polled_from(
        &self,
        before: &Self,
        pending: Option<InputLogprobs>,
        polled: StreamPoll,
    ) -> bool {
        let answer = self.decode_seen@.last();
        &&& self.decode_seen@ == before.decode_seen@.push(answer)
        &&& polled == decode_answer(pending, answer)
        &&& if is_last(polled) {
            &&& self.state is Terminal
            &&& self.prefill_end@ == Some(
                polled is Item && polled->Item_0 is Ok || before.prefill->0.source.completed(),
            )
            &&& self.decode_end@ == Some(before.decode->0.source.completed())
        } else {
            &&& self.state == (MergeState::Streaming { pending_input_logprobs: pending })
            &&& self.prefill->0.source.completed() == before.prefill->0.source.completed()
            &&& self.decode->0.source.completed() == before.decode->0.source.completed()
            &&& self.decode->0.source.polled_from(&before.decode->0.source, answer)
        }
    }

    /// Nothing but the prefill stream was polled since `before`, and nothing was answered yet.
    pub open spec fn waiting_since(&self, before: &Self) -> bool {
        let waited = self.prefill_seen@.skip(before.prefill_seen@.len() as int);
        &&& before.prefill_seen@.is_prefix_of(self.prefill_seen@)
        &&& self.need_input_logprobs == before.need_input_logprobs
        &&& self.prefill_before == before.prefill_before
        &&& self.decode_before == before.decode_before
        &&& self.decode_seen == before.decode_seen
        &&& self.prefill_told == before.prefill_told
        &&& self.decode_told == before.decode_told
        &&& self.output == before.output
        &&& self.prefill_completed == before.prefill_completed
        &&& self.marked == before.marked
        &&& self.decode == before.decode
        &&& self.budget() <= before.budget()
        &&& before.state !is WaitingPrefill ==> *self == *before
        &&& before.state is WaitingPrefill ==> {
            &&& self.prefill->0.source.completed() == before.prefill->0.source.completed()
            &&& token_handle::gave(
                before.prefill->0.source,
                waited,
                self.prefill->0.source,
            )
            &&& forall|i: int|
                0 <= i < waited.len() - 1 ==> {
                    &&& #[trigger] waited[i] matches StreamPoll::Item(Ok(c))
                    &&& c is Partial
                }
            &&& match self.state {
                MergeState::WaitingPrefill => waited.len() > 0 ==> {
                    &&& waited.last() matches StreamPoll::Item(Ok(c))
                    &&& c is Partial
                },
                MergeState::Streaming { pending_input_logprobs } => {
                    &&& waited.len() > 0
                    &&& prefill_verdict(waited.last()) == PrefillOutcome::Settled(
                        pending_input_logprobs,
                    )
                },
                MergeState::Terminal => false,
            }
        }
    }

    /// What this merger, or what is left of it, is still to give follows what `before` was
    /// to give.
    proof fn lemma_step_gives(
        &self,
        before: &Self,
        to: MergerAhead,
        polled: StreamPoll,
        waited: Seq<StreamPoll>,
        answer: StreamPoll,
    )
        requires
            before.prefill is Some,
            before.decode is Some,
            can_step_on(
                before.prefill->0.source,
                before.decode->0.source,
                before.ahead(),
                to,
                polled,
                waited,
                answer,
            ),
            self.state == to.state,
            self.state is Terminal ==> self.prefill is None,
            self.state !is Terminal ==> {
                &&& self.prefill is Some
                &&& self.decode is Some
                &&& token_handle::is_ahead(
                    self.prefill->0.source,
                    before.prefill->0.source,
                    to.prefill_polls,
                )
                &&& token_handle::is_ahead(self.decode->0.source, before.decode->0.source, to.decode_polls)
            },
        ensures
            before.gives(0, polled),
            forall|n: nat, later: StreamPoll| #[trigger]
                self.gives(n, later) ==> before.gives(n + 1, later),
    {
        let p = before.prefill->0.source;
        let d = before.decode->0.source;
        assert(can_step(p, d, before.ahead(), to, polled));
        assert forall|n: nat, later: StreamPoll| #[trigger] self.gives(n, later) implies before.gives(
            n + 1,
            later,
        ) by {
            if self.state is Terminal {
                lemma_ended_gives(p, d, to, n, later);
            } else {
                lemma_gives_ahead(
                    self.prefill->0.source,
                    self.decode->0.source,
                    self.ahead(),
                    p,
                    d,
                    to,
                    n,
                    later,
                );
            }
        }
    }

    /// Ends the stream: both upstreams are dropped.
    fn finish(&mut self)
        requires
            old(self).prefill is Some,
            old(self).decode is Some,
        ensures
            *final(self) == (PdMerger {
                prefill: None,
                decode: None,
                state: MergeState::Terminal,
                prefill_end: final(self).prefill_end,
                decode_end: final(self).decode_end,
                ..*old(self)
            }),
            final(self).prefill_end@ == Some(old(self).prefill->0.source.completed()),
            final(self).decode_end@ == Some(old(self).decode->0.source.completed()),
    {
        self.prefill_end = release(&mut self.prefill);
        self.decode_end = release(&mut self.decode);
        self.state = MergeState::Terminal;
    }
}

impl<P: TokenSource, D: TokenSource> TokenSource for PdMerger<P, D> {
    open spec fn valid(&self) -> bool {
        &&& self.holds_upstreams()
        &&& self.tells_upstreams()
        &&& self.state_agrees()
        &&& ends_once(self.output@, self.state is Terminal)
        &&& items(self.output@) == merged_items(
            self.need_input_logprobs@,
            self.prefill_seen@,
            self.decode_seen@,
        )
    }

    open spec fn log(&self) -> Seq<StreamPoll> {
        self.output@
    }

    open spec fn completed(&self) -> bool {
        self.marked@
    }

    open spec fn budget(&self) -> nat {
        if self.state is Terminal {
            0
        } else {
            self.prefill->0.source.budget() + self.decode->0.source.budget() + 1
        }
    }

    /// The number of polls of each upstream that one poll of the merger makes,
    /// and what it answers.
    open spec fn polled_from(&self, before: &Self, polled: StreamPoll) -> bool {
        let waited = self.prefill_seen@.skip(before.prefill_seen@.len() as int);
        &&& before.prefill_seen@.is_prefix_of(self.prefill_seen@)
        &&& before.decode_seen@.is_prefix_of(self.decode_seen@)
        &&& self.need_input_logprobs == before.need_input_logprobs
        &&& self.prefill_before == before.prefill_before
        &&& self.decode_before == before.decode_before
        &&& self.prefill_told == before.prefill_told
        &&& self.decode_told == before.decode_told
        &&& self.marked == before.marked
        &&& match before.state {
            MergeState::Terminal => {
                &&& polled is Closed
                &&& *self == (PdMerger { output: self.output, ..*before })
            },
            MergeState::WaitingPrefill => {
                &&& waited.len() > 0
                &&& forall|i: int|
                    0 <= i < waited.len() - 1 ==> {
                        &&& #[trigger] waited[i] matches StreamPoll::Item(Ok(c))
                        &&& c is Partial
                    }
                &&& match prefill_verdict(waited.last()) {
                    PrefillOutcome::Waiting => {
                        &&& waited.last() is Pending
                        &&& polled is Pending
                        &&& self.state is WaitingPrefill
                        &&& self.decode_seen == before.decode_seen
                        &&& self.decode == before.decode
                        &&& self.prefill->0.source.completed()
                            == before.prefill->0.source.completed()
                    },
                    PrefillOutcome::Settled(pending) => {
                        self.decode_polled_from(before, pending, polled)
                    },
                    PrefillOutcome::Failed(e) => {
                        &&& polled == StreamPoll::Item(Err(e))
                        &&& self.state is Terminal
                        &&& self.decode_seen == before.decode_seen
                        &&& self.prefill_end@ == Some(before.prefill->0.source.completed())
                        &&& self.decode_end@ == Some(before.decode->0.source.completed())
                    },
                }
            },
            MergeState::Streaming { pending_input_logprobs } => {
                &&& self.prefill_seen == before.prefill_seen
                &&& !is_last(polled) ==> self.prefill == before.prefill
                &&& self.decode_polled_from(before, pending_input_logprobs, polled)
            },
        }
    }

    open spec fn gives(&self, n: nat, polled: StreamPoll) -> bool {
        if self.prefill is Some && self.decode is Some {
            merger_gives(
                self.prefill->0.source,
                self.decode->0.source,
                self.ahead(),
                n,
                polled,
            )
        } else {
            polled is Closed
        }
    }

    /// Nothing but what is told of a completion changes.
    open spec fn marked_from(&self, before: &Self) -> bool {
        &&& *self == (PdMerger { decode: self.decode, marked: self.marked, ..*before })
        &&& self.decode is Some == before.decode is Some
        &&& before.decode is Some ==> {
            &&& self.decode->0.source.completed()
            &&& self.decode->0.source.marked_from(&before.decode->0.source)
        }
    }

    fn poll_next(&mut self) -> (polled: StreamPoll) {
        loop
            invariant
                self.valid(),
                old(self).valid(),
                self.waiting_since(old(self)),
            decreases self.budget(),
        {
            match &mut self.state {
                MergeState::Terminal => {
                    proof {
                        lemma_push(self.output@, StreamPoll::Closed);
                        lemma_ends_once_push(self.output@, true, StreamPoll::Closed);
                        self.output@ = self.output@.push(StreamPoll::Closed);
                    }
                    return StreamPoll::Closed;
                },
                MergeState::WaitingPrefill => {
                    let ghost first = old(self).prefill->0.source;
                    let ghost given = self.prefill->0.source;
                    let polled = match self.prefill.as_mut() {
                        Some(prefill) => prefill.poll_next(),
                        None => StreamPoll::Closed,
                    };
                    proof {
                        let from = old(self).prefill_seen@.len() as int;
                        let waited = self.prefill_seen@.skip(from);
                        lemma_push(self.prefill_seen@, polled);
                        assert(self.prefill_before@ + self.prefill_seen@.push(polled) =~= (
                        self.prefill_before@ + self.prefill_seen@).push(polled));
                        self.prefill_seen@ = self.prefill_seen@.push(polled);
                        assert(self.prefill_seen@.skip(from) =~= waited.push(polled));
                        assert(waited.len() > 0 ==> waited[waited.len() - 1] == waited.last());
                        token_handle::lemma_gave_more(
                            first,
                            waited,
                            given,
                            polled,
                            self.prefill->0.source,
                        );
                    }
                    let ghost waited = self.prefill_seen@.skip(old(self).prefill_seen@.len() as int);
                    let ghost to = MergerAhead {
                        prefill_polls: waited.len(),
                        decode_polls: 0,
                        state: MergeState::Terminal,
                    };
                    match polled {
                        StreamPoll::Pending => {
                            proof {
                                lemma_push(self.output@, StreamPoll::Pending);
                                lemma_ends_once_push(self.output@, false, StreamPoll::Pending);
                                self.output@ = self.output@.push(StreamPoll::Pending);
                                self.lemma_step_gives(
                                    &*old(self),
                                    MergerAhead { state: self.state, ..to },
                                    polled,
                                    waited,
                                    polled,
                                );
                            }
                            return StreamPoll::Pending;
                        },
                        StreamPoll::Item(Ok(TokenChunk::Partial { .. })) => {
                            // Only the Complete of the prefill worker carries input logprobs.
                        },
                        StreamPoll::Item(Ok(TokenChunk::Complete { input_logprobs, .. })) => {
                            self.state = MergeState::Streaming {
                                pending_input_logprobs: input_logprobs,
                            };
                        },
                        StreamPoll::Item(Err(e)) => {
                            self.finish();
                            let answer = StreamPoll::Item(Err(e));
                            proof {
                                lemma_push(self.output@, answer);
                                lemma_ends_once_push(self.output@, false, answer);
                                self.output@ = self.output@.push(answer);
                                self.lemma_step_gives(&*old(self), to, answer, waited, polled);
                            }
                            return answer;
                        },
                        StreamPoll::Closed => {
                            self.finish();
                            let answer = StreamPoll::Item(Err(EngineError::PrefillEarlyClose));
                            proof {
                                lemma_push(self.output@, answer);
                                lemma_ends_once_push(self.output@, false, answer);
                                self.output@ = self.output@.push(answer);
                                self.lemma_step_gives(&*old(self), to, answer, waited, polled);
                            }
                            return answer;
                        },
                    }
                },
                MergeState::Streaming { pending_input_logprobs } => {
                    let ghost pending = *pending_input_logprobs;
                    let polled = match self.decode.as_mut() {
                        Some(decode) => decode.poll_next(),
                        None => StreamPoll::Closed,
                    };
                    let ghost answer = decode_answer(pending, polled);
                    let ghost waited = self.prefill_seen@.skip(old(self).prefill_seen@.len() as int);
                    let ghost to = MergerAhead {
                        prefill_polls: waited.len(),
                        decode_polls: 1,
                        state: if is_last(answer) {
                            MergeState::Terminal
                        } else {
                            MergeState::Streaming { pending_input_logprobs: pending }
                        },
                    };
                    let ghost decoded = polled;
                    proof {
                        lemma_push(self.decode_seen@, polled);
                        assert(self.decode_before@ + self.decode_seen@.push(polled) =~= (
                        self.decode_before@ + self.decode_seen@).push(polled));
                        self.decode_seen@ = self.decode_seen@.push(polled);
                        lemma_push(self.output@, answer);
                        lemma_ends_once_push(self.output@, false, answer);
                        self.output@ = self.output@.push(answer);
                        assert(old(self).state is Streaming ==> waited =~= Seq::empty());
                    }
                    match polled {
                        StreamPoll::Pending => {
                            proof {
                                self.lemma_step_gives(&*old(self), to, answer, waited, decoded);
                            }
                            return StreamPoll::Pending;
                        },
                        StreamPoll::Item(Ok(TokenChunk::Partial { token_ids, logprobs })) => {
                            proof {
                                self.lemma_step_gives(&*old(self), to, answer, waited, decoded);
                            }
                            return StreamPoll::Item(Ok(TokenChunk::Partial { token_ids, logprobs }));
                        },
                        StreamPoll::Item(
                            Ok(
                                TokenChunk::Complete {
                                    token_ids,
                                    finish_reason,
                                    matched_stop,
                                    usage,
                                    logprobs,
                                    input_logprobs: decode_input_logprobs,
                                    meta,
                                },
                            ),
                        ) => {
                            let merged = match pending_input_logprobs.take() {
                                Some(p) => Some(p),
                                None => decode_input_logprobs,
                            };
                            // Told before the drop, so that prefill exits cleanly.
                            if let Some(p) = self.prefill.as_mut() {
                                p.mark_completed();
                            }
                            self.prefill_completed = true;
                            self.finish();
                            proof {
                                self.lemma_step_gives(&*old(self), to, answer, waited, decoded);
                            }
                            return StreamPoll::Item(
                                Ok(
                                    TokenChunk::Complete {
                                        token_ids,
                                        finish_reason,
                                        matched_stop,
                                        usage,
                                        logprobs,
                                        input_logprobs: merged,
                                        meta,
                                    },
                                ),
                            );
                        },
                        StreamPoll::Item(Err(e)) => {
                            self.finish();
                            proof {
                                self.lemma_step_gives(&*old(self), to, answer, waited, decoded);
                            }
                            return StreamPoll::Item(Err(e));
                        },
                        StreamPoll::Closed => {
                            self.finish();
                            proof {
                                self.lemma_step_gives(&*old(self), to, answer, waited, decoded);
                            }
                            return StreamPoll::Item(Err(EngineError::DecodeIncomplete));
                        },
                    }
                },
            }
        }
    }

    /// Only the decode stream is told: the prefill stream is told when decode completes.
    fn mark_completed(&mut self) {
        proof { self.marked@ = true; }
        if let Some(d) = self.decode.as_mut() {
            d.mark_completed();
        }
        proof {
            assert forall|n: nat, later: StreamPoll| #[trigger]
                self.gives(n, later) == old(self).gives(n, later) by {
                if self.prefill is Some && self.decode is Some {
                    let p = self.prefill->0.source;
                    let d = self.decode->0.source;
                    let was = old(self).decode->0.source;
                    let at = self.ahead();
                    assert(token_handle::is_ahead(d, was, 0) && token_handle::is_ahead(was, d, 0) && token_handle::is_ahead(p, p, 0));
                    if self.gives(n, later) {
                        lemma_gives_ahead(p, d, at, p, was, at, n, later);
                    }
                    if old(self).gives(n, later) {
                        lemma_gives_ahead(p, was, at, p, d, at, n, later);
                    }
                }
            }
        }
    }
}

/// As long as the stream goes on, neither upstream is told of a completion by the merger:
/// a client that leaves then cancels both. Prefill is told exactly where the completion of
/// decode was given, and decode only where the merger itself was told.
pub proof fn law_prefill_told_iff_decode_completed<P: TokenSource, D: TokenSource>(
    merger: PdMerger<P, D>,
)
    requires
        merger.valid(),
    ensures
        merger.prefill_completed == completes(merger.log()),
        merger.prefill matches Some(p) ==> p.source.completed() == merger.prefill_told@,
        merger.decode matches Some(d) ==> d.source.completed() == (merger.decode_told@
            || merger.completed()),
        merger.state is Terminal ==> {
            &&& merger.prefill_end@ == Some(merger.prefill_told@ || completes(merger.log()))
            &&& merger.decode_end@ is Some
            &&& !merger.decode_told@ && !merger.completed() ==> merger.decode_end@ == Some(false)
        },
{
}

/// What the items of a prefill stream settle, from this one on.
pub open spec fn script_outcome(items: Seq<ScriptedItem>, from: nat) -> PrefillOutcome
    decreases items.len() - from,
{
    match prefill_verdict(test_support::scripted_at(items, from)) {
        PrefillOutcome::Waiting if from < items.len() => script_outcome(items, from + 1),
        outcome => outcome,
    }
}

/// What the poll that `n` others precede gives, from this item of a decode stream on.
pub open spec fn script_decoded(
    pending: Option<InputLogprobs>,
    items: Seq<ScriptedItem>,
    from: nat,
    n: nat,
) -> StreamPoll
    decreases n,
{
    let answer = decode_answer(pending, test_support::scripted_at(items, from));
    if n == 0 {
        answer
    } else if is_last(answer) {
        StreamPoll::Closed
    } else {
        script_decoded(pending, items, from + 1, (n - 1) as nat)
    }
}

/// What the poll of the merger that `n` others precede gives, over two streams of given
/// items.
pub open spec fn script_answer(
    prefill: Seq<ScriptedItem>,
    decode: Seq<ScriptedItem>,
    from: MergerAhead,
    n: nat,
) -> StreamPoll {
    match from.state {
        MergeState::Terminal => StreamPoll::Closed,
        MergeState::Streaming { pending_input_logprobs } => script_decoded(
            pending_input_logprobs,
            decode,
            from.decode_polls,
            n,
        ),
        MergeState::WaitingPrefill => match script_outcome(prefill, from.prefill_polls) {
            PrefillOutcome::Settled(pending) => script_decoded(
                pending,
                decode,
                from.decode_polls,
                n,
            ),
            PrefillOutcome::Failed(e) => if n == 0 {
                StreamPoll::Item(Err(e))
            } else {
                StreamPoll::Closed
            },
            PrefillOutcome::Waiting => StreamPoll::Pending,
        },
    }
}

proof fn lemma_script_waited(prefill: ScriptedSource, from: nat, waited: Seq<StreamPoll>, k: int)
    requires
        can_wait(prefill, from, waited),
        prefill_verdict(waited.last()) is Waiting ==> waited.last() is Pending,
        0 <= k < waited.len(),
    ensures
        script_outcome(prefill.items@, (from + k) as nat) == prefill_verdict(waited.last()),
        prefill_verdict(waited.last()) !is Waiting,
    decreases waited.len() - k,
{
    assert(prefill.gives((from + k) as nat, waited[k]));
    if k < waited.len() - 1 {
        lemma_script_waited(prefill, from, waited, k + 1);
    }
}

proof fn lemma_script_gives(
    prefill: ScriptedSource,
    decode: ScriptedSource,
    from: MergerAhead,
    n: nat,
    polled: StreamPoll,
)
    requires
        merger_gives(prefill, decode, from, n, polled),
    ensures
        polled == script_answer(prefill.items@, decode.items@, from, n),
    decreases n,
{
    let (to, first) = if n == 0 {
        let to = choose|to: MergerAhead| #[trigger] can_step(prefill, decode, from, to, polled);
        (to, polled)
    } else {
        choose|to: MergerAhead, first: StreamPoll| #[trigger]
            can_step(prefill, decode, from, to, first) && merger_gives(
                prefill,
                decode,
                to,
                (n - 1) as nat,
                polled,
            )
    };
    let (waited, answer) = choose|waited: Seq<StreamPoll>, answer: StreamPoll| #[trigger]
        can_step_on(prefill, decode, from, to, first, waited, answer);
    if from.state is WaitingPrefill {
        lemma_script_waited(prefill, from.prefill_polls, waited, 0);
    }
    if n > 0 {
        lemma_script_gives(prefill, decode, to, (n - 1) as nat, polled);
    }
}

/// Over two streams of given items, every answer that the merged stream is still to give is
/// fixed, whatever is polled in between.
pub proof fn law_scripts_determine_answers(
    merger: PdMerger<ScriptedSource, ScriptedSource>,
    n: nat,
    polled: StreamPoll,
)
    requires
        merger.valid(),
        merger.state !is Terminal,
        merger.gives(n, polled),
    ensures
        polled == script_answer(
            merger.prefill->0.source.items@,
            merger.decode->0.source.items@,
            merger.ahead(),
            n,
        ),
{
    lemma_script_gives(
        merger.prefill->0.source,
        merger.decode->0.source,
        merger.ahead(),
        n,
        polled,
    );
}

/// Where no input logprobs are needed, the prefill stream is never polled.
pub proof fn law_prefill_polled_only_if_needed<P: TokenSource, D: TokenSource>(
    merger: PdMerger<P, D>,
)
    requires
        merger.valid(),
        !merger.need_input_logprobs@,
    ensures
        merger.prefill_seen@.len() == 0,
        merger.prefill matches Some(p) ==> p.source.log() == merger.prefill_before@,
{
    if merger.prefill is Some {
        assert(merger.prefill_before@ + merger.prefill_seen@ =~= merger.prefill_before@);
    }
}

/// The decode stream is not polled before prefill has completed, nor after
/// prefill has failed.
pub proof fn law_decode_polled_only_after_prefill<P: TokenSource, D: TokenSource>(
    merger: PdMerger<P, D>,
)
    requires
        merger.valid(),
        prefill_outcome(merger.need_input_logprobs@, merger.prefill_seen@) !is Settled,
    ensures
        merger.decode_seen@.len() == 0,
        merger.decode matches Some(d) ==> d.source.log() == merger.decode_before@,
{
    if merger.decode is Some {
        assert(merger.decode_before@ + merger.decode_seen@ =~= merger.decode_before@);
    }
}

/// What the upstreams have given determines what the merged stream has given.
pub proof fn law_upstreams_determine_items<P: TokenSource, D: TokenSource>(merger: PdMerger<P, D>)
    requires
        merger.valid(),
    ensures
        items(merger.log()) == merged_items(
            merger.need_input_logprobs@,
            merger.prefill_seen@,
            merger.decode_seen@,
        ),
{
}

proof fn lemma_decode_items_origin(
    pending: Option<InputLogprobs>,
    seen: Seq<StreamPoll>,
    k: int,
) -> (j: int)
    requires
        0 <= k < decode_items(pending, seen).len(),
        decode_items(pending, seen)[k] is Ok,
    ensures
        0 <= j < seen.len(),
        seen[j] is Item,
        seen[j]->Item_0 is Ok,
        decode_items(pending, seen)[k]->Ok_0 == inject(seen[j]->Item_0->Ok_0, pending),
    decreases seen.len(),
{
    let init = seen.drop_last();
    if k < decode_items(pending, init).len() {
        lemma_decode_items_origin(pending, init, k)
    } else {
        seen.len() - 1
    }
}

/// No chunk of the prefill stream leaks: every chunk of the merged stream is
/// one that the decode stream gave, but for the injected input logprobs.
pub proof fn law_chunks_come_from_decode<P: TokenSource, D: TokenSource>(
    merger: PdMerger<P, D>,
    k: int,
)
    requires
        merger.valid(),
        0 <= k < items(merger.log()).len(),
        items(merger.log())[k] is Ok,
    ensures
        exists|j: int, pending: Option<InputLogprobs>|
            0 <= j < merger.decode_seen@.len() && merger.decode_seen@[j] is Item
                && merger.decode_seen@[j]->Item_0 is Ok && items(merger.log())[k]->Ok_0
                == #[trigger] inject(merger.decode_seen@[j]->Item_0->Ok_0, pending),
{
    match prefill_outcome(merger.need_input_logprobs@, merger.prefill_seen@) {
        PrefillOutcome::Settled(pending) => {
            let j = lemma_decode_items_origin(pending, merger.decode_seen@, k);
            assert(items(merger.log())[k]->Ok_0 == inject(
                merger.decode_seen@[j]->Item_0->Ok_0,
                pending,
            ));
        },
        _ => {},
    }
}

/// The merged stream never ends silently: an error or a completion comes before
/// the end, it comes once, and nothing but the end comes after it.
pub proof fn law_ends_with_one_last_item<P: TokenSource, D: TokenSource>(
    merger: PdMerger<P, D>,
    i: int,
    j: int,
)
    requires
        merger.valid(),
        0 <= i < j < merger.log().len(),
    ensures
        is_last(merger.log()[i]) ==> merger.log()[j] is Closed,
        merger.log()[j] is Closed ==> exists|k: int| 0 <= k < j && is_last(#[trigger] merger.log()[k]),
{
}

/// Whether this poll of the prefill stream is the first that gave anything but a partial
/// chunk.
pub open spec fn first_verdict(seen: Seq<StreamPoll>, i: int) -> bool {
    &&& 0 <= i < seen.len()
    &&& !(seen[i] is Pending) && !(seen[i] matches StreamPoll::Item(Ok(TokenChunk::Partial { .. })))
    &&& forall|j: int|
        0 <= j < i ==> (#[trigger] seen[j] is Pending || seen[j] matches StreamPoll::Item(
            Ok(TokenChunk::Partial { .. }),
        ))
}

proof fn lemma_first_verdict(seen: Seq<StreamPoll>) -> (i: int)
    ensures
        prefill_outcome(true, seen) is Waiting <==> forall|j: int|
            0 <= j < seen.len() ==> (#[trigger] seen[j] is Pending || seen[j] matches StreamPoll::Item(
                Ok(TokenChunk::Partial { .. }),
            )),
        prefill_outcome(true, seen) !is Waiting ==> {
            &&& first_verdict(seen, i)
            &&& prefill_outcome(true, seen) == prefill_verdict(seen[i])
        },
    decreases seen.len(),
{
    if seen.len() == 0 {
        0
    } else {
        let init = seen.drop_last();
        let i = lemma_first_verdict(init);
        assert forall|j: int| 0 <= j < init.len() implies #[trigger] seen[j] == init[j] by {}
        assert forall|j: int| 0 <= j < init.len() implies #[trigger] init[j] == seen[j] by {}
        if prefill_outcome(true, init) is Waiting {
            assert(seen[seen.len() - 1] == seen.last());
            seen.len() - 1
        } else {
            i
        }
    }
}

/// The input logprobs of the completion of a merged stream, where decode gave `own`: those of
/// the prefill worker's completion, where they are needed and it has any.
pub open spec fn has_input_logprobs_of<P: TokenSource, D: TokenSource>(
    merger: PdMerger<P, D>,
    own: Option<InputLogprobs>,
    given: Option<InputLogprobs>,
) -> bool {
    if merger.need_input_logprobs@ {
        exists|i: int| #[trigger]
            first_verdict(merger.prefill_seen@, i) && (match merger.prefill_seen@[i] {
                StreamPoll::Item(
                    Ok(TokenChunk::Complete { input_logprobs: Some(known), .. }),
                ) => given == Some(known),
                StreamPoll::Item(Ok(TokenChunk::Complete { input_logprobs: None, .. })) => given
                    == own,
                _ => false,
            })
    } else {
        given == own
    }
}

/// A poll of the merged stream passes on what the decode stream gave for it. Nothing of a
/// chunk changes but the input logprobs of a completion. A decode stream that ends without a
/// completion is an error.
pub proof fn law_poll_passes_on_what_decode_gave<P: TokenSource, D: TokenSource>(
    before: PdMerger<P, D>,
    after: PdMerger<P, D>,
    polled: StreamPoll,
)
    requires
        before.valid(),
        after.valid(),
        after.polled_from(&before, polled),
        after.decode_seen@.len() > before.decode_seen@.len(),
    ensures
        after.decode_seen@.len() == before.decode_seen@.len() + 1,
        match after.decode_seen@.last() {
            StreamPoll::Pending => polled is Pending,
            StreamPoll::Item(Ok(TokenChunk::Partial { token_ids, logprobs })) => {
                polled == StreamPoll::Item(Ok(TokenChunk::Partial { token_ids, logprobs }))
            },
            StreamPoll::Item(
                Ok(
                    TokenChunk::Complete {
                        token_ids,
                        finish_reason,
                        matched_stop,
                        usage,
                        logprobs,
                        input_logprobs,
                        meta,
                    },
                ),
            ) => {
                &&& polled is Item
                &&& polled->Item_0 is Ok
                &&& polled->Item_0->Ok_0 is Complete
                &&& polled->Item_0->Ok_0->Complete_token_ids == token_ids
                &&& polled->Item_0->Ok_0->Complete_finish_reason == finish_reason
                &&& polled->Item_0->Ok_0->Complete_matched_stop == matched_stop
                &&& polled->Item_0->Ok_0->Complete_usage == usage
                &&& polled->Item_0->Ok_0->Complete_logprobs == logprobs
                &&& polled->Item_0->Ok_0->Complete_meta == meta
                &&& has_input_logprobs_of(
                    after,
                    input_logprobs,
                    polled->Item_0->Ok_0->Complete_input_logprobs,
                )
            },
            StreamPoll::Item(Err(e)) => polled == StreamPoll::Item(Err(e)),
            StreamPoll::Closed => polled == StreamPoll::Item(Err(EngineError::DecodeIncomplete)),
        },
{
    lemma_first_verdict(before.prefill_seen@);
    let i = lemma_first_verdict(after.prefill_seen@);
    if before.state is WaitingPrefill {
        let waited = after.prefill_seen@.skip(before.prefill_seen@.len() as int);
        let last = after.prefill_seen@.len() - 1;
        assert(waited.last() == after.prefill_seen@[last]);
        assert forall|j: int| 0 <= j < last implies (#[trigger] after.prefill_seen@[j] is Pending
            || after.prefill_seen@[j] matches StreamPoll::Item(Ok(TokenChunk::Partial { .. }))) by {
            if j < before.prefill_seen@.len() {
                assert(after.prefill_seen@[j] == before.prefill_seen@[j]);
            } else {
                assert(after.prefill_seen@[j] == waited[j - before.prefill_seen@.len()]);
            }
        }
        assert(first_verdict(after.prefill_seen@, last));
    }
}

/// A poll of the merged stream that leaves the decode stream alone waits for the prefill
/// stream, or passes on why it failed, or comes after the end.
pub proof fn law_poll_without_decode_tells_of_prefill<P: TokenSource, D: TokenSource>(
    before: PdMerger<P, D>,
    after: PdMerger<P, D>,
    polled: StreamPoll,
)
    requires
        before.valid(),
        after.valid(),
        after.polled_from(&before, polled),
        after.decode_seen@.len() == before.decode_seen@.len(),
    ensures
        before.state is Terminal <==> polled is Closed,
        before.state !is Terminal ==> {
            &&& before.need_input_logprobs@
            &&& after.prefill_seen@.len() > before.prefill_seen@.len()
            &&& match after.prefill_seen@.last() {
                StreamPoll::Pending => polled is Pending,
                StreamPoll::Item(Err(e)) => polled == StreamPoll::Item(Err(e)),
                StreamPoll::Closed => polled == StreamPoll::Item(
                    Err(EngineError::PrefillEarlyClose),
                ),
                StreamPoll::Item(Ok(_)) => false,
            }
        },
{
    if before.state is WaitingPrefill {
        let waited = after.prefill_seen@.skip(before.prefill_seen@.len() as int);
        assert(waited.last() == after.prefill_seen@.last());
    }
}

proof fn lemma_item_at(log: Seq<StreamPoll>, i: int) -> (k: int)
    requires
        0 <= i < log.len(),
        log[i] is Item,
    ensures
        0 <= k < items(log).len(),
        items(log)[k] == log[i]->Item_0,
    decreases log.len(),
{
    if i == log.len() - 1 {
        items(log).len() - 1
    } else {
        assert(log.drop_last()[i] == log[i]);
        lemma_item_at(log.drop_last(), i)
    }
}

/// Whatever the merged stream has given so far came from the decode stream: each chunk has the
/// tokens, the log probabilities and, where it is a completion, the finish reason, the matched
/// stop, the counts and the worker's values of a chunk that the decode stream gave.
pub proof fn law_chunks_are_those_of_decode<P: TokenSource, D: TokenSource>(
    merger: PdMerger<P, D>,
    i: int,
) -> (j: int)
    requires
        merger.valid(),
        0 <= i < merger.log().len(),
        merger.log()[i] is Item,
        merger.log()[i]->Item_0 is Ok,
    ensures
        0 <= j < merger.decode_seen@.len(),
        merger.decode_seen@[j] is Item,
        merger.decode_seen@[j]->Item_0 is Ok,
        ({
            let given = merger.log()[i]->Item_0->Ok_0;
            let decoded = merger.decode_seen@[j]->Item_0->Ok_0;
            &&& given is Partial == decoded is Partial
            &&& given is Partial ==> given == decoded
            &&& given is Complete ==> {
                &&& given->Complete_token_ids == decoded->Complete_token_ids
                &&& given->Complete_finish_reason == decoded->Complete_finish_reason
                &&& given->Complete_matched_stop == decoded->Complete_matched_stop
                &&& given->Complete_usage == decoded->Complete_usage
                &&& given->Complete_logprobs == decoded->Complete_logprobs
                &&& given->Complete_meta == decoded->Complete_meta
                &&& has_input_logprobs_of(
                    merger,
                    decoded->Complete_input_logprobs,
                    given->Complete_input_logprobs,
                )
            }
        }),
{
    let k = lemma_item_at(merger.log(), i);
    lemma_first_verdict(merger.prefill_seen@);
    match prefill_outcome(merger.need_input_logprobs@, merger.prefill_seen@) {
        PrefillOutcome::Settled(pending) => {
            lemma_decode_items_origin(pending, merger.decode_seen@, k)
        },
        _ => 0,
    }
}

/// A merger holds both streams, and waits for the one of prefill if and only if its log
/// probabilities of the prompt are needed.
pub proof fn law_merger_waits_only_where_needed<P: TokenSource, D: TokenSource>(
    prefill: TokenHandle<P>,
    decode: TokenHandle<D>,
    need_input_logprobs: bool,
    r: TokenHandle<PdMerger<P, D>>,
)
    requires
        call_ensures(merge_pd_streams::<P, D>, (prefill, decode, need_input_logprobs), r),
    ensures
        r.source.prefill == Some(prefill),
        r.source.decode == Some(decode),
        r.source.state is WaitingPrefill <==> need_input_logprobs,
        !need_input_logprobs ==> r.source.state == (MergeState::Streaming {
            pending_input_logprobs: None,
        }),
        r.source.log().len() == 0,
        !r.source.completed(),
{
}

} // verus!
