//! Synthetic token sources: streams whose items are known beforehand.

use std::collections::VecDeque;
use vstd::prelude::*;

use super::engine_error::EngineError;
use super::token_chunk::TokenChunk;
use super::token_handle::StreamPoll;
use super::token_handle::TokenHandle;
use super::token_handle::TokenSource;

verus! {

#[derive(Debug)]
pub enum ScriptedItem {
    Chunk(TokenChunk),
    Failure(EngineError),
}

/// A stream of given items that then ends. It counts its polls and notes
/// whether it was told of its completion.
pub struct ScriptedSource {
    pub items: VecDeque<ScriptedItem>,
    pub poll_count: usize,
    pub mark_completed_observed: bool,
    pub polls: Ghost<Seq<StreamPoll>>,
}

/// The poll result that stands for a scripted item.
pub open spec fn scripted_poll(item: ScriptedItem) -> StreamPoll {
    match item {
        ScriptedItem::Chunk(c) => StreamPoll::Item(Ok(c)),
        ScriptedItem::Failure(e) => StreamPoll::Item(Err(e)),
    }
}

/// The result of the poll that `n` others precede. The stream ends behind its items.
pub open spec fn scripted_at(items: Seq<ScriptedItem>, n: nat) -> StreamPoll {
    if n < items.len() {
        scripted_poll(items[n as int])
    } else {
        StreamPoll::Closed
    }
}

impl ScriptedSource {
    pub fn new(items: Vec<ScriptedItem>) -> (r: Self)
        ensures
            r.items@ == items@,
            r.poll_count == 0,
            !r.mark_completed_observed,
            r.polls@ == Seq::<StreamPoll>::empty(),
    {
        let ghost all = items@;
        let mut queue: VecDeque<ScriptedItem> = VecDeque::new();
        let mut rest = items;
        while rest.len() > 0
            invariant
                rest@ + queue@ == all,
            decreases rest.len(),
        {
            let ghost before = rest@;
            if let Some(last) = rest.pop() {
                let ghost tail = queue@;
                queue.push_front(last);
                assert(rest@ + queue@ =~= before + tail);
            }
        }
        assert(queue@ =~= all);
        ScriptedSource {
            items: queue,
            poll_count: 0,
            mark_completed_observed: false,
            polls: Ghost(Seq::empty()),
        }
    }
}

impl TokenSource for ScriptedSource {
    open spec fn valid(&self) -> bool {
        true
    }

    open spec fn log(&self) -> Seq<StreamPoll> {
        self.polls@
    }

    open spec fn completed(&self) -> bool {
        self.mark_completed_observed
    }

    open spec fn budget(&self) -> nat {
        self.items@.len()
    }

    open spec fn gives(&self, n: nat, polled: StreamPoll) -> bool {
        polled == scripted_at(self.items@, n)
    }

    open spec fn polled_from(&self, before: &Self, polled: StreamPoll) -> bool {
        &&& polled == scripted_at(before.items@, 0)
        &&& self.poll_count == before.poll_count.wrapping_add(1)
        &&& self.mark_completed_observed == before.mark_completed_observed
        &&& self.items@ == (if before.items@.len() > 0 {
            before.items@.skip(1)
        } else {
            before.items@
        })
    }

    open spec fn marked_from(&self, before: &Self) -> bool {
        *self == (ScriptedSource { mark_completed_observed: true, ..*before })
    }

    fn poll_next(&mut self) -> (polled: StreamPoll) {
        self.poll_count = self.poll_count.wrapping_add(1);
        let polled = match self.items.pop_front() {
            Some(ScriptedItem::Chunk(c)) => StreamPoll::Item(Ok(c)),
            Some(ScriptedItem::Failure(e)) => StreamPoll::Item(Err(e)),
            None => StreamPoll::Closed,
        };
        proof {
            self.polls@ = self.polls@.push(polled);
        }
        polled
    }

    fn mark_completed(&mut self) {
        self.mark_completed_observed = true;
    }
}

/// A scripted stream. Its polls are counted in `source.poll_count`.
pub fn scripted_stream_with_poll_counter(items: Vec<ScriptedItem>) -> (r: TokenHandle<
    ScriptedSource,
>)
    ensures
        r.source.items@ == items@,
        r.source.poll_count == 0,
        !r.source.mark_completed_observed,
        r.source.log().len() == 0,
{
    TokenHandle::new(ScriptedSource::new(items))
}

/// A scripted stream. Whether it was told of its completion is in
/// `source.mark_completed_observed`.
pub fn scripted_with_mark_completed(items: Vec<ScriptedItem>) -> (r: TokenHandle<ScriptedSource>)
    ensures
        r.source.items@ == items@,
        r.source.poll_count == 0,
        !r.source.mark_completed_observed,
        r.source.log().len() == 0,
{
    TokenHandle::new(ScriptedSource::new(items))
}

pub open spec fn script_of(chunk: Result<TokenChunk, EngineError>) -> ScriptedItem {
    match chunk {
        Ok(c) => ScriptedItem::Chunk(c),
        Err(e) => ScriptedItem::Failure(e),
    }
}

pub fn synthetic_single_stream(chunks: Vec<Result<TokenChunk, EngineError>>) -> (r: TokenHandle<
    ScriptedSource,
>)
    ensures
        r.source.items@ == chunks@.map_values(|c: Result<TokenChunk, EngineError>| script_of(c)),
        r.source.poll_count == 0,
        !r.source.mark_completed_observed,
        r.source.log().len() == 0,
{
    let ghost f = |c: Result<TokenChunk, EngineError>| script_of(c);
    let ghost all = chunks@;
    let mut items: Vec<ScriptedItem> = Vec::new();
    let mut rest = chunks;
    while rest.len() > 0
        invariant
            rest@ == all.take(rest@.len() as int),
            rest@.len() <= all.len(),
            items@.len() == all.len() - rest@.len(),
            forall|i: int|
                0 <= i < items@.len() ==> #[trigger] items@[i] == script_of(all[all.len() - 1 - i]),
        decreases rest.len(),
    {
        if let Some(last) = rest.pop() {
            items.push(
                match last {
                    Ok(c) => ScriptedItem::Chunk(c),
                    Err(e) => ScriptedItem::Failure(e),
                },
            );
        }
    }
    let mut forward: Vec<ScriptedItem> = Vec::new();
    while items.len() > 0
        invariant
            items@.len() + forward@.len() == all.len(),
            forall|i: int|
                0 <= i < items@.len() ==> #[trigger] items@[i] == script_of(all[all.len() - 1 - i]),
            forall|i: int| 0 <= i < forward@.len() ==> #[trigger] forward@[i] == script_of(all[i]),
        decreases items.len(),
    {
        if let Some(last) = items.pop() {
            forward.push(last);
        }
    }
    assert(forward@ =~= all.map_values(f));
    scripted_stream_with_poll_counter(forward)
}

pub fn synthetic_pd_stream(
    prefill: Vec<Result<TokenChunk, EngineError>>,
    decode: Vec<Result<TokenChunk, EngineError>>,
) -> (r: (TokenHandle<ScriptedSource>, TokenHandle<ScriptedSource>))
    ensures
        r.0.source.items@ == prefill@.map_values(|c: Result<TokenChunk, EngineError>| script_of(c)),
        r.1.source.items@ == decode@.map_values(|c: Result<TokenChunk, EngineError>| script_of(c)),
        r.0.source.poll_count == 0 && r.1.source.poll_count == 0,
        !r.0.source.mark_completed_observed && !r.1.source.mark_completed_observed,
        r.0.source.log().len() == 0 && r.1.source.log().len() == 0,
{
    (synthetic_single_stream(prefill), synthetic_single_stream(decode))
}

/// A stream that never has anything. It counts its polls.
pub struct PendingForever {
    pub poll_count: usize,
    pub polls: Ghost<Seq<StreamPoll>>,
    pub marked: Ghost<bool>,
}

impl TokenSource for PendingForever {
    open spec fn valid(&self) -> bool {
        true
    }

    open spec fn log(&self) -> Seq<StreamPoll> {
        self.polls@
    }

    open spec fn completed(&self) -> bool {
        self.marked@
    }

    open spec fn budget(&self) -> nat {
        0
    }

    open spec fn gives(&self, n: nat, polled: StreamPoll) -> bool {
        polled is Pending
    }

    open spec fn polled_from(&self, before: &Self, polled: StreamPoll) -> bool {
        &&& polled is Pending
        &&& self.poll_count == before.poll_count.wrapping_add(1)
    }

    open spec fn marked_from(&self, before: &Self) -> bool {
        self.poll_count == before.poll_count
    }

    fn poll_next(&mut self) -> (polled: StreamPoll) {
        self.poll_count = self.poll_count.wrapping_add(1);
        proof {
            self.polls@ = self.polls@.push(StreamPoll::Pending);
        }
        StreamPoll::Pending
    }

    fn mark_completed(&mut self) {
        proof {
            self.marked@ = true;
        }
    }
}

/// A stream that stays pending. Its polls are counted in `source.poll_count`.
pub fn pending_forever_stream() -> (r: TokenHandle<PendingForever>)
    ensures
        r.source.poll_count == 0,
        r.source.log().len() == 0,
{
    TokenHandle::new(PendingForever { poll_count: 0, polls: Ghost(Seq::empty()), marked: Ghost(false) })
}

/// A stream that is fed from outside: it is pending while it is open and empty.
pub struct ChannelSource {
    pub queue: VecDeque<Result<TokenChunk, EngineError>>,
    pub closed: bool,
    pub polls: Ghost<Seq<StreamPoll>>,
    pub marked: Ghost<bool>,
}

/// The result of the poll that `n` others precede, as long as nothing more is fed in.
pub open spec fn queued_at(
    queue: Seq<Result<TokenChunk, EngineError>>,
    closed: bool,
    n: nat,
) -> StreamPoll {
    if n < queue.len() {
        StreamPoll::Item(queue[n as int])
    } else if closed {
        StreamPoll::Closed
    } else {
        StreamPoll::Pending
    }
}

impl ChannelSource {
    pub fn new() -> (r: Self)
        ensures
            r.queue@.len() == 0,
            !r.closed,
            r.log().len() == 0,
    {
        ChannelSource {
            queue: VecDeque::new(),
            closed: false,
            polls: Ghost(Seq::empty()),
            marked: Ghost(false),
        }
    }

    /// Feeds one item in, behind those that wait already.
    pub fn send(&mut self, item: Result<TokenChunk, EngineError>)
        ensures
            *final(self) == (ChannelSource { queue: final(self).queue, ..*old(self) }),
            final(self).queue@ == old(self).queue@.push(item),
    {
        self.queue.push_back(item);
    }

    /// Nothing more will be fed in.
    pub fn close(&mut self)
        ensures
            *final(self) == (ChannelSource { closed: true, ..*old(self) }),
    {
        self.closed = true;
    }
}

impl TokenSource for ChannelSource {
    open spec fn valid(&self) -> bool {
        true
    }

    open spec fn log(&self) -> Seq<StreamPoll> {
        self.polls@
    }

    open spec fn completed(&self) -> bool {
        self.marked@
    }

    open spec fn budget(&self) -> nat {
        self.queue@.len()
    }

    open spec fn gives(&self, n: nat, polled: StreamPoll) -> bool {
        polled == queued_at(self.queue@, self.closed, n)
    }

    open spec fn polled_from(&self, before: &Self, polled: StreamPoll) -> bool {
        &&& polled == queued_at(before.queue@, before.closed, 0)
        &&& self.closed == before.closed
        &&& self.marked == before.marked
        &&& self.queue@ == (if before.queue@.len() > 0 {
            before.queue@.skip(1)
        } else {
            before.queue@
        })
    }

    open spec fn marked_from(&self, before: &Self) -> bool {
        *self == (ChannelSource { marked: self.marked, ..*before })
    }

    fn poll_next(&mut self) -> (polled: StreamPoll) {
        let polled = match self.queue.pop_front() {
            Some(item) => StreamPoll::Item(item),
            None => if self.closed {
                StreamPoll::Closed
            } else {
                StreamPoll::Pending
            },
        };
        proof {
            self.polls@ = self.polls@.push(polled);
        }
        polled
    }

    fn mark_completed(&mut self) {
        proof {
            self.marked@ = true;
        }
    }
}

/// The stream of what a channel is fed.
pub fn single_from_receiver(rx: ChannelSource) -> (r: TokenHandle<ChannelSource>)
    ensures
        r.source == rx,
{
    TokenHandle::new(rx)
}

/// A script is played item by item, in order, and its stream ends behind the last one. Every
/// poll counts.
pub proof fn law_script_is_played_in_order(
    before: ScriptedSource,
    after: ScriptedSource,
    polled: StreamPoll,
)
    requires
        after.polled_from(&before, polled),
        before.poll_count < usize::MAX,
    ensures
        after.poll_count == before.poll_count + 1,
        before.items@.len() == 0 ==> polled is Closed && after.items@.len() == 0,
        before.items@.len() > 0 ==> {
            &&& after.items@.len() == before.items@.len() - 1
            &&& forall|i: int|
                0 <= i < after.items@.len() ==> #[trigger] after.items@[i] == before.items@[i + 1]
            &&& match before.items@[0] {
                ScriptedItem::Chunk(c) => polled == StreamPoll::Item(Ok(c)),
                ScriptedItem::Failure(e) => polled == StreamPoll::Item(Err(e)),
            }
        },
{
}

/// A stream of chunks and failures is scripted as they are, in their order.
pub proof fn law_stream_is_scripted_as_given(
    chunks: Vec<Result<TokenChunk, EngineError>>,
    r: TokenHandle<ScriptedSource>,
)
    requires
        call_ensures(synthetic_single_stream, (chunks,), r),
    ensures
        r.source.items@.len() == chunks@.len(),
        forall|i: int|
            0 <= i < chunks@.len() ==> match #[trigger] chunks@[i] {
                Ok(c) => r.source.items@[i] == ScriptedItem::Chunk(c),
                Err(e) => r.source.items@[i] == ScriptedItem::Failure(e),
            },
        r.source.poll_count == 0,
        !r.source.mark_completed_observed,
{
}

/// What a channel is fed comes out in the same order. While it is open and empty it waits;
/// once it is closed and empty it ends.
pub proof fn law_channel_keeps_the_order(
    before: ChannelSource,
    after: ChannelSource,
    polled: StreamPoll,
)
    requires
        after.polled_from(&before, polled),
    ensures
        after.closed == before.closed,
        before.queue@.len() > 0 ==> {
            &&& polled == StreamPoll::Item(before.queue@[0])
            &&& after.queue@.len() == before.queue@.len() - 1
            &&& forall|i: int|
                0 <= i < after.queue@.len() ==> #[trigger] after.queue@[i] == before.queue@[i + 1]
        },
        before.queue@.len() == 0 ==> {
            &&& after.queue@.len() == 0
            &&& polled is Closed <==> before.closed
            &&& polled is Pending <==> !before.closed
        },
{
}

} // verus!
