//! `TokenHandle`: the only stream type the render layer sees.

use vstd::prelude::*;

use super::engine_error::EngineError;
use super::token_chunk::TokenChunk;

verus! {

/// What one poll of a token stream gives.
#[derive(Debug)]
pub enum StreamPoll {
    /// Nothing is ready yet.
    Pending,
    /// The next item of the stream.
    Item(Result<TokenChunk, EngineError>),
    /// The stream has ended.
    Closed,
}

/// A source of chunks and errors that can also be told it completed cleanly,
/// so that dropping it does not cancel the work upstream.
///
/// A source is described by everything it has handed out so far, by what it will hand out
/// as long as nothing new reaches it, by whether it was told of its completion, and by a
/// bound on the items still to come. A source that is verified says what these are; for any
/// other they stay unsaid.
pub trait TokenSource: Sized {
    /// Whether the source can be polled.
    open spec fn valid(&self) -> bool {
        true
    }

    /// The results of all polls so far, oldest first.
    open spec fn log(&self) -> Seq<StreamPoll> {
        Seq::empty()
    }

    /// Whether `mark_completed` was called.
    open spec fn completed(&self) -> bool {
        false
    }

    /// No more than this many items are still to come.
    open spec fn budget(&self) -> nat {
        0
    }

    /// Whether this can be the result of the poll that `n` others precede, as long as
    /// nothing new reaches the source.
    open spec fn gives(&self, n: nat, polled: StreamPoll) -> bool {
        true
    }

    /// Whether this is the source after a poll of `before` with this result.
    open spec fn polled_from(&self, before: &Self, polled: StreamPoll) -> bool {
        true
    }

    /// Whether this is the source after `before` was told of its completion.
    open spec fn marked_from(&self, before: &Self) -> bool {
        true
    }

    fn poll_next(&mut self) -> (polled: StreamPoll)
        requires
            old(self).valid(),
        ensures
            final(self).valid(),
            final(self).polled_from(&*old(self), polled),
            final(self).log() == old(self).log().push(polled),
            final(self).completed() == old(self).completed(),
            final(self).budget() <= old(self).budget(),
            polled is Item ==> final(self).budget() < old(self).budget(),
            old(self).gives(0, polled),
            forall|n: nat, later: StreamPoll| #[trigger]
                final(self).gives(n, later) ==> old(self).gives(n + 1, later),
    ;

    fn mark_completed(&mut self)
        requires
            old(self).valid(),
        ensures
            final(self).valid(),
            final(self).marked_from(&*old(self)),
            final(self).log() == old(self).log(),
            final(self).completed(),
            final(self).budget() == old(self).budget(),
            forall|n: nat, later: StreamPoll| #[trigger]
                final(self).gives(n, later) == old(self).gives(n, later),
    ;
}

/// Whether `later` is `earlier` after this many polls, as far as what is to come tells.
pub open spec fn is_ahead<S: TokenSource>(later: S, earlier: S, polls: nat) -> bool {
    forall|n: nat, polled: StreamPoll| #[trigger]
        later.gives(n, polled) ==> earlier.gives(n + polls, polled)
}

/// Whether polls of `before` can give these results and leave `after`, as far as what is to
/// come tells.
pub open spec fn gave<S: TokenSource>(before: S, polls: Seq<StreamPoll>, after: S) -> bool {
    &&& is_ahead(after, before, polls.len())
    &&& forall|i: int| 0 <= i < polls.len() ==> before.gives(i as nat, #[trigger] polls[i])
}

pub proof fn lemma_gave_more<S: TokenSource>(
    before: S,
    polls: Seq<StreamPoll>,
    middle: S,
    polled: StreamPoll,
    after: S,
)
    requires
        gave(before, polls, middle),
        middle.gives(0, polled),
        is_ahead(after, middle, 1),
    ensures
        gave(before, polls.push(polled), after),
{
    let all = polls.push(polled);
    assert(before.gives(0 + polls.len(), polled));
    assert forall|n: nat, later: StreamPoll| #[trigger] after.gives(n, later) implies before.gives(
        n + all.len(),
        later,
    ) by {
        assert(middle.gives(n + 1, later));
        assert((n + 1) + polls.len() == n + all.len());
    }
}

/// A token stream: one source, or two whose lifetimes are bound together.
pub struct TokenHandle<S> {
    pub source: S,
}

impl<S: TokenSource> TokenHandle<S> {
    pub fn new(source: S) -> (r: Self)
        ensures
            r.source == source,
    {
        TokenHandle { source }
    }

    /// Suppresses upstream cancellation on a clean exit.
    pub fn mark_completed(&mut self)
        requires
            old(self).source.valid(),
        ensures
            final(self).source.valid(),
            final(self).source.marked_from(&old(self).source),
            final(self).source.log() == old(self).source.log(),
            final(self).source.completed(),
            final(self).source.budget() == old(self).source.budget(),
            forall|n: nat, later: StreamPoll| #[trigger]
                final(self).source.gives(n, later) == old(self).source.gives(n, later),
    {
        self.source.mark_completed();
    }

    pub fn poll_next(&mut self) -> (polled: StreamPoll)
        requires
            old(self).source.valid(),
        ensures
            final(self).source.valid(),
            final(self).source.polled_from(&old(self).source, polled),
            final(self).source.log() == old(self).source.log().push(polled),
            final(self).source.completed() == old(self).source.completed(),
            final(self).source.budget() <= old(self).source.budget(),
            polled is Item ==> final(self).source.budget() < old(self).source.budget(),
            old(self).source.gives(0, polled),
            forall|n: nat, later: StreamPoll| #[trigger]
                final(self).source.gives(n, later) ==> old(self).source.gives(n + 1, later),
    {
        self.source.poll_next()
    }
}

/// Two upstreams that are dropped together. Only the decode stream is polled.
pub struct PdPair<P, D> {
    pub prefill: TokenHandle<P>,
    pub decode: TokenHandle<D>,
}

impl<P: TokenSource, D: TokenSource> TokenHandle<PdPair<P, D>> {
    pub fn pd(prefill: TokenHandle<P>, decode: TokenHandle<D>) -> (r: Self)
        ensures
            r.source.prefill == prefill,
            r.source.decode == decode,
    {
        TokenHandle { source: PdPair { prefill, decode } }
    }
}

impl<P: TokenSource, D: TokenSource> TokenSource for PdPair<P, D> {
    open spec fn valid(&self) -> bool {
        self.prefill.source.valid() && self.decode.source.valid()
    }

    open spec fn log(&self) -> Seq<StreamPoll> {
        self.decode.source.log()
    }

    open spec fn completed(&self) -> bool {
        self.prefill.source.completed() && self.decode.source.completed()
    }

    open spec fn budget(&self) -> nat {
        self.decode.source.budget()
    }

    open spec fn gives(&self, n: nat, polled: StreamPoll) -> bool {
        self.decode.source.gives(n, polled)
    }

    open spec fn polled_from(&self, before: &Self, polled: StreamPoll) -> bool {
        &&& self.prefill == before.prefill
        &&& self.decode.source.polled_from(&before.decode.source, polled)
    }

    open spec fn marked_from(&self, before: &Self) -> bool {
        &&& self.prefill.source.log() == before.prefill.source.log()
        &&& self.prefill.source.marked_from(&before.prefill.source)
        &&& self.decode.source.marked_from(&before.decode.source)
    }

    fn poll_next(&mut self) -> (polled: StreamPoll) {
        self.decode.poll_next()
    }

    fn mark_completed(&mut self) {
        self.prefill.mark_completed();
        self.decode.mark_completed();
    }
}

/// A pair is polled by its decode stream alone; the prefill stream stays as it is.
pub proof fn law_pair_is_polled_by_decode<P: TokenSource, D: TokenSource>(
    before: PdPair<P, D>,
    after: PdPair<P, D>,
    polled: StreamPoll,
)
    requires
        after.polled_from(&before, polled),
    ensures
        after.prefill == before.prefill,
        after.decode.source.polled_from(&before.decode.source, polled),
        after.log() == after.decode.source.log(),
{
}

/// A handle is around the source that it was made of; a pair is around both of its streams.
pub proof fn law_handle_holds_its_source<P: TokenSource, D: TokenSource>(
    prefill: P,
    decode: D,
    p: TokenHandle<P>,
    d: TokenHandle<D>,
    r: TokenHandle<PdPair<P, D>>,
)
    requires
        call_ensures(TokenHandle::<P>::new, (prefill,), p),
        call_ensures(TokenHandle::<D>::new, (decode,), d),
        call_ensures(TokenHandle::<PdPair<P, D>>::pd, (p, d), r),
    ensures
        r.source.prefill.source == prefill,
        r.source.decode.source == decode,
{
}

} // verus!
