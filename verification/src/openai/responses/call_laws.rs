//! What holds of the tool calls of a streamed response, whatever chunks bring them.

use vstd::prelude::*;

use super::accumulator;
use super::chunk_events;
use super::emitter;
use super::emitter::EmitterView;
use super::emitter::OutputItemStateView;
use super::emitter::ToolCallItemView;
use super::event_laws;
use super::event_laws::ToldChunk;
use crate::json::JsonView;
use crate::protocols::chat::ToolCallDelta;

verus! {

/// The output items are numbered by their places, and each tool call has one of its own.
pub open spec fn placed(e: EmitterView) -> bool {
    &&& event_laws::indexed(e)
    &&& forall|k: int|
        0 <= k < e.tool_call_items.len() ==> (#[trigger] e.tool_call_items[k]).output_index
            < e.next_output_index
    &&& forall|k: int, l: int|
        0 <= k < l < e.tool_call_items.len() ==> (#[trigger] e.tool_call_items[k]).output_index != (
        #[trigger] e.tool_call_items[l]).output_index
}

/// The tool calls hold what the deltas said of them.
pub open spec fn hold_said(calls: Seq<ToolCallItemView>, deltas: Seq<ToolCallDelta>) -> bool {
    &&& calls.len() == chunk_events::grown(0, deltas)
    &&& forall|k: int|
        0 <= k < calls.len() ==> {
            &&& (#[trigger] calls[k]).name == accumulator::call_name_said(deltas, k)
            &&& calls[k].arguments == accumulator::call_arguments_said(deltas, k)
        }
}

pub(crate) proof fn lemma_grow_placed(e: EmitterView, index: nat, new_ids: Seq<Seq<char>>)
    requires
        placed(e),
        e.tool_call_items.len() <= index ==> e.next_output_index + index + 1
            - e.tool_call_items.len() <= usize::MAX,
    ensures
        ({
            let after = chunk_events::grow(e, index, new_ids);
            &&& placed(after)
            &&& after.next_output_index - e.next_output_index == after.tool_call_items.len()
                - e.tool_call_items.len()
            &&& after.tool_call_items.len() == if e.tool_call_items.len() <= index {
                index + 1
            } else {
                e.tool_call_items.len()
            }
            &&& forall|k: int|
                0 <= k < e.tool_call_items.len() ==> #[trigger] after.tool_call_items[k]
                    == e.tool_call_items[k]
            &&& forall|k: int|
                e.tool_call_items.len() <= k < after.tool_call_items.len() ==> {
                    &&& (#[trigger] after.tool_call_items[k]).name == Seq::<char>::empty()
                    &&& after.tool_call_items[k].arguments == Seq::<char>::empty()
                }
        }),
    decreases index + 1 - e.tool_call_items.len(),
{
    if e.tool_call_items.len() <= index {
        let next = EmitterView {
            tool_call_items: e.tool_call_items.push(
                ToolCallItemView {
                    output_index: e.next_output_index,
                    item_id: new_ids[e.tool_call_items.len() as int],
                    name: Seq::empty(),
                    arguments: Seq::empty(),
                },
            ),
            ..e.allocated()
        };
        assert(placed(next));
        lemma_grow_placed(next, index, new_ids);
        let after = chunk_events::grow(e, index, new_ids);
        assert(after == chunk_events::grow(next, index, new_ids));
        assert(after.tool_call_items[e.tool_call_items.len() as int]
            == next.tool_call_items[e.tool_call_items.len() as int]);
        assert forall|k: int| 0 <= k < e.tool_call_items.len() implies
            #[trigger] after.tool_call_items[k] == e.tool_call_items[k] by {
            assert(after.tool_call_items[k] == next.tool_call_items[k]);
        }
    }
}

/// New tool calls get the output indices that are still free.
pub(crate) proof fn lemma_grow_new(e: EmitterView, index: nat, new_ids: Seq<Seq<char>>, k: int)
    requires
        e.tool_call_items.len() <= k < chunk_events::grow(e, index, new_ids).tool_call_items.len(),
        e.tool_call_items.len() <= index ==> e.next_output_index + index + 1
            - e.tool_call_items.len() <= usize::MAX,
        placed(e),
    ensures
        chunk_events::grow(e, index, new_ids).tool_call_items[k].output_index
            >= e.next_output_index,
    decreases index + 1 - e.tool_call_items.len(),
{
    if e.tool_call_items.len() <= index {
        let next = EmitterView {
            tool_call_items: e.tool_call_items.push(
                ToolCallItemView {
                    output_index: e.next_output_index,
                    item_id: new_ids[e.tool_call_items.len() as int],
                    name: Seq::empty(),
                    arguments: Seq::empty(),
                },
            ),
            ..e.allocated()
        };
        assert(placed(next));
        lemma_grow_placed(next, index, new_ids);
        let after = chunk_events::grow(e, index, new_ids);
        assert(after == chunk_events::grow(next, index, new_ids));
        if k > e.tool_call_items.len() {
            lemma_grow_new(next, index, new_ids, k);
        } else {
            assert(after.tool_call_items[k] == next.tool_call_items[k]);
        }
    }
}

/// A delta keeps each tool call at an output item of its own.
pub(crate) proof fn lemma_delta_placed(e: EmitterView, d: ToolCallDelta, new_ids: Seq<Seq<char>>)
    requires
        placed(e),
        e.tool_call_items.len() <= d.index ==> e.next_output_index + d.index + 1
            - e.tool_call_items.len() <= usize::MAX,
    ensures
        ({
            let after = chunk_events::delta_step(e, d, new_ids).after;
            &&& placed(after)
            &&& after.next_output_index - e.next_output_index == after.tool_call_items.len()
                - e.tool_call_items.len()
        }),
{
    reveal(chunk_events::delta_step);
    lemma_grow_placed(e, d.index as nat, new_ids);
    let grown = chunk_events::grow(e, d.index as nat, new_ids);
    let after = chunk_events::delta_step(e, d, new_ids).after;
    assert forall|k: int| 0 <= k < after.tool_call_items.len() implies (
    #[trigger] after.tool_call_items[k]).output_index == grown.tool_call_items[k].output_index by {}
}

proof fn lemma_delta_said(
    e: EmitterView,
    d: ToolCallDelta,
    new_ids: Seq<Seq<char>>,
    deltas: Seq<ToolCallDelta>,
)
    requires
        placed(e),
        e.tool_call_items.len() <= d.index ==> e.next_output_index + d.index + 1
            - e.tool_call_items.len() <= usize::MAX,
        hold_said(e.tool_call_items, deltas),
    ensures
        ({
            let after = chunk_events::delta_step(e, d, new_ids).after;
            &&& placed(after)
            &&& after.next_output_index - e.next_output_index == after.tool_call_items.len()
                - e.tool_call_items.len()
            &&& hold_said(after.tool_call_items, deltas.push(d))
        }),
{
    reveal(chunk_events::delta_step);
    lemma_grow_placed(e, d.index as nat, new_ids);
    let grown = chunk_events::grow(e, d.index as nat, new_ids);
    let after = chunk_events::delta_step(e, d, new_ids).after;
    let i = d.index as int;
    assert(after.tool_call_items.len() == grown.tool_call_items.len());
    assert forall|k: int| 0 <= k < after.tool_call_items.len() implies {
        &&& (#[trigger] after.tool_call_items[k]).output_index == grown.tool_call_items[k].output_index
        &&& after.tool_call_items[k].name == grown.tool_call_items[k].name + (if k == i {
            chunk_events::delta_name(d)
        } else {
            Seq::empty()
        })
        &&& after.tool_call_items[k].arguments == grown.tool_call_items[k].arguments + (if k
            == i {
            chunk_events::delta_arguments(d)
        } else {
            Seq::empty()
        })
    } by {
        let call = grown.tool_call_items[k];
        assert(call.name + Seq::empty() =~= call.name);
        assert(call.arguments + Seq::empty() =~= call.arguments);
        assert(call.name + chunk_events::delta_name(d) + Seq::empty() =~= call.name
            + chunk_events::delta_name(d));
        if chunk_events::delta_arguments(d).len() == 0 {
            assert(chunk_events::delta_arguments(d) =~= Seq::empty());
        }
    }
    assert(placed(after));
    let all = deltas.push(d);
    assert(all.drop_last() =~= deltas);
    assert forall|k: int| 0 <= k < after.tool_call_items.len() implies {
        &&& (#[trigger] after.tool_call_items[k]).name == accumulator::call_name_said(all, k)
        &&& after.tool_call_items[k].arguments == accumulator::call_arguments_said(all, k)
    } by {
        let call = grown.tool_call_items[k];
        if k >= e.tool_call_items.len() {
            accumulator::lemma_call_unsaid(deltas, k);
        } else {
            assert(call == e.tool_call_items[k]);
        }
        assert(call.name + Seq::empty() =~= call.name);
        assert(call.arguments + Seq::empty() =~= call.arguments);
    }
}

proof fn lemma_deltas_said(
    e: EmitterView,
    more: Seq<ToolCallDelta>,
    new_ids: Seq<Seq<char>>,
    deltas: Seq<ToolCallDelta>,
)
    requires
        placed(e),
        e.next_output_index + chunk_events::grown(e.tool_call_items.len(), more)
            - e.tool_call_items.len() <= usize::MAX,
        hold_said(e.tool_call_items, deltas),
    ensures
        ({
            let after = chunk_events::deltas_step(e, more, new_ids).after;
            &&& placed(after)
            &&& after.next_output_index - e.next_output_index == after.tool_call_items.len()
                - e.tool_call_items.len()
            &&& hold_said(after.tool_call_items, deltas + more)
        }),
    decreases more.len(),
{
    if more.len() == 0 {
        assert(deltas + more =~= deltas);
    } else {
        let init = more.drop_last();
        lemma_deltas_said(e, init, new_ids, deltas);
        event_laws::lemma_deltas_grow(e, init, new_ids);
        let before = chunk_events::deltas_step(e, init, new_ids).after;
        lemma_delta_said(before, more.last(), new_ids, deltas + init);
        assert((deltas + init).push(more.last()) =~= deltas + more);
    }
}

pub(crate) proof fn lemma_calls_done_keeps_calls(e: EmitterView, calls: Seq<ToolCallItemView>)
    ensures
        ({
            let after = chunk_events::calls_done_step(e, calls).after;
            &&& after.tool_call_items == e.tool_call_items
            &&& after.next_output_index == e.next_output_index
        }),
    decreases calls.len(),
{
    if calls.len() > 0 {
        lemma_calls_done_keeps_calls(e, calls.drop_last());
    }
}

proof fn lemma_chunk_said(e: EmitterView, told: ToldChunk, deltas: Seq<ToolCallDelta>)
    requires
        chunk_events::can_process(e, told.chunk),
        placed(e),
        hold_said(e.tool_call_items, deltas),
    ensures
        ({
            let after = chunk_events::chunk_step(
                e,
                told.chunk,
                told.new_id,
                told.new_ids,
            ).after;
            &&& placed(after)
            &&& hold_said(
                after.tool_call_items,
                deltas + chunk_events::chunk_deltas(told.chunk),
            )
        }),
{
    event_laws::law_output_indices_are_distinct(e, told.chunk, told.new_id, told.new_ids);
    reveal(chunk_events::content_step);
    reveal(chunk_events::message_done_step);
    let first = chunk_events::content_step(
        e,
        chunk_events::chunk_content(told.chunk),
        told.new_id,
    ).after;
    let more = chunk_events::chunk_deltas(told.chunk);
    assert(placed(first));
    lemma_deltas_said(first, more, told.new_ids, deltas);
    let second = chunk_events::deltas_step(first, more, told.new_ids).after;
    lemma_calls_done_keeps_calls(second, second.tool_call_items);
}

/// Whatever chunks come, the emitter holds of each tool call the names and arguments of all
/// its deltas, one after the other, and there is a call for every index up to the largest.
pub proof fn law_streamed_calls_are_kept_in_full(fresh: EmitterView, told: Seq<ToldChunk>)
    requires
        event_laws::can_stream(fresh, told),
        event_laws::indexed(fresh),
        fresh.tool_call_items.len() == 0,
    ensures
        ({
            let e = event_laws::stream_step(fresh, told).after;
            let deltas = accumulator::all_deltas(event_laws::chunks_of(told));
            &&& placed(e)
            &&& accumulator::is_call_count(deltas, e.tool_call_items.len())
            &&& hold_said(e.tool_call_items, deltas)
        }),
    decreases told.len(),
{
    let chunks = event_laws::chunks_of(told);
    if told.len() > 0 {
        law_streamed_calls_are_kept_in_full(fresh, told.drop_last());
        assert(chunks.drop_last() =~= event_laws::chunks_of(told.drop_last()));
        let before = event_laws::stream_step(fresh, told.drop_last()).after;
        lemma_chunk_said(before, told.last(), accumulator::all_deltas(chunks.drop_last()));
    }
    accumulator::lemma_call_count(accumulator::all_deltas(chunks));
}

/// The item of a tool call that is done.
pub open spec fn done_item(call: ToolCallItemView) -> JsonView {
    chunk_events::call_item(call.item_id, call.item_id, call.name, call.arguments, "completed"@)
}

/// The state of an emitter that has reached this number.
pub open spec fn at_number(e: EmitterView, n: int) -> EmitterView {
    EmitterView { sequence_number: n as u64, ..e }
}

/// The two events that end a tool call.
pub open spec fn done_events(e: EmitterView, call: ToolCallItemView, n: int) -> (
    JsonView,
    JsonView,
) {
    (
        emitter::arguments_event(
            "response.function_call_arguments.done"@,
            at_number(e, n),
            call.output_index,
            call.item_id,
            "arguments"@,
            call.arguments,
        ),
        emitter::output_item_event(
            "response.output_item.done"@,
            at_number(e, n + 1),
            call.output_index,
            done_item(call),
        ),
    )
}

proof fn lemma_done_events(e: EmitterView, calls: Seq<ToolCallItemView>)
    requires
        e.sequence_number + 2 * calls.len() <= u64::MAX,
    ensures
        ({
            let events = chunk_events::calls_done_step(e, calls).events;
            &&& events.len() == 2 * calls.len()
            &&& forall|k: int|
                0 <= k < calls.len() ==> (events[2 * k], events[2 * k + 1]) == #[trigger] done_events(
                    e,
                    calls[k],
                    e.sequence_number + 2 * k,
                )
        }),
    decreases calls.len(),
{
    event_laws::lemma_calls_done_numbered(e, calls);
    if calls.len() > 0 {
        let init = calls.drop_last();
        lemma_done_events(e, init);
        event_laws::lemma_calls_done_numbered(e, init);
        let before = chunk_events::calls_done_step(e, init);
        let events = chunk_events::calls_done_step(e, calls).events;
        assert forall|k: int| 0 <= k < calls.len() implies (events[2 * k], events[2 * k + 1])
            == #[trigger] done_events(e, calls[k], e.sequence_number + 2 * k) by {
            if k < init.len() {
                assert(calls[k] == init[k]);
                assert(events[2 * k] == before.events[2 * k]);
                assert(events[2 * k + 1] == before.events[2 * k + 1]);
                assert((before.events[2 * k], before.events[2 * k + 1]) == done_events(
                    e,
                    init[k],
                    e.sequence_number + 2 * k,
                ));
            }
        }
    }
}

proof fn lemma_item_place(e: EmitterView, index: usize)
    requires
        event_laws::indexed(e),
        index < e.output_items.len(),
    ensures
        e.item_place(index) == Some(index as int),
{
    assert(emitter::first_with_index(e.output_items, index, index as int));
    let i = e.item_place(index)->0;
    assert(emitter::first_with_index(e.output_items, index, i));
}

/// Whether an output item is completed and holds this data.
pub open spec fn is_done(item: OutputItemStateView, data: JsonView) -> bool {
    item.status is Completed && item.item_data == Some(data)
}

proof fn lemma_done_items(e: EmitterView, calls: Seq<ToolCallItemView>)
    requires
        event_laws::indexed(e),
        forall|k: int|
            0 <= k < calls.len() ==> (#[trigger] calls[k]).output_index < e.next_output_index,
        forall|k: int, l: int|
            0 <= k < l < calls.len() ==> (#[trigger] calls[k]).output_index != (
            #[trigger] calls[l]).output_index,
    ensures
        ({
            let after = chunk_events::calls_done_step(e, calls).after;
            &&& after.output_items.len() == e.output_items.len()
            &&& forall|k: int|
                0 <= k < calls.len() ==> is_done(
                    after.output_items[(#[trigger] calls[k]).output_index as int],
                    done_item(calls[k]),
                )
        }),
    decreases calls.len(),
{
    if calls.len() > 0 {
        let init = calls.drop_last();
        let last = calls.last();
        assert forall|k: int| 0 <= k < init.len() implies (#[trigger] init[k]).output_index
            < e.next_output_index by {
            assert(calls[k].output_index < e.next_output_index);
        }
        assert forall|k: int, l: int| 0 <= k < l < init.len() implies (
        #[trigger] init[k]).output_index != (#[trigger] init[l]).output_index by {
            assert(calls[k].output_index != calls[l].output_index);
        }
        lemma_done_items(e, init);
        event_laws::lemma_calls_done_indexed(e, init);
        lemma_calls_done_keeps_calls(e, init);
        assert(last == calls[calls.len() - 1]);
        let before = chunk_events::calls_done_step(e, init).after;
        let told = before.counted();
        let stored = told.stored(last.output_index, done_item(last)).counted();
        lemma_item_place(told, last.output_index);
        event_laws::lemma_stored_indexed(told, last.output_index, done_item(last));
        lemma_item_place(stored, last.output_index);
        let after = chunk_events::calls_done_step(e, calls).after;
        assert(after == stored.completed(last.output_index));
        assert forall|k: int| 0 <= k < calls.len() implies is_done(
            after.output_items[(#[trigger] calls[k]).output_index as int],
            done_item(calls[k]),
        ) by {
            if k < init.len() {
                assert(calls[k] == init[k]);
                assert(calls[k].output_index != calls[calls.len() - 1].output_index);
            }
        }
    }
}

proof fn lemma_completed_items(items: Seq<OutputItemStateView>, i: int, data: JsonView)
    requires
        0 <= i < items.len(),
        is_done(items[i], data),
    ensures
        emitter::completed_items(items).contains(data),
    decreases items.len(),
{
    let init = items.drop_last();
    if i < init.len() {
        assert(init[i] == items[i]);
        lemma_completed_items(init, i, data);
        let j = choose|j: int|
            0 <= j < emitter::completed_items(init).len() && emitter::completed_items(init)[j]
                == data;
        assert(emitter::completed_items(items)[j] == data);
    } else {
        let all = emitter::completed_items(items);
        assert(all[all.len() - 1] == data);
    }
}

/// When tool calls end, each is repeated in full, in the order of its index: its arguments,
/// and its item, with the names and arguments of all its deltas, whatever chunks brought
/// them. Each item is part of the completed response that follows.
pub proof fn law_ended_calls_are_repeated_in_full(
    fresh: EmitterView,
    told: Seq<ToldChunk>,
    end: ToldChunk,
)
    requires
        event_laws::can_stream(fresh, told.push(end)),
        event_laws::indexed(fresh),
        fresh.tool_call_items.len() == 0,
        chunk_events::chunk_content(end.chunk).len() == 0,
        chunk_events::chunk_deltas(end.chunk).len() == 0,
        chunk_events::chunk_finish(end.chunk) == Some("tool_calls"@),
    ensures
        ({
            let e = event_laws::stream_step(fresh, told).after;
            let calls = e.tool_call_items;
            let deltas = accumulator::all_deltas(event_laws::chunks_of(told));
            let step = chunk_events::chunk_step(e, end.chunk, end.new_id, end.new_ids);
            &&& accumulator::is_call_count(deltas, calls.len())
            &&& hold_said(calls, deltas)
            &&& step.events.len() == 2 * calls.len()
            &&& forall|k: int|
                0 <= k < calls.len() ==> (step.events[2 * k], step.events[2 * k + 1])
                    == #[trigger] done_events(e, calls[k], e.sequence_number + 2 * k)
            &&& forall|k: int|
                0 <= k < calls.len() ==> emitter::completed_output(step.after).contains(
                    done_item(#[trigger] calls[k]),
                )
        }),
{
    let all = told.push(end);
    assert(all.drop_last() =~= told);
    law_streamed_calls_are_kept_in_full(fresh, told);
    let e = event_laws::stream_step(fresh, told).after;
    let calls = e.tool_call_items;
    let step = chunk_events::chunk_step(e, end.chunk, end.new_id, end.new_ids);
    reveal(chunk_events::content_step);
    let done = chunk_events::calls_done_step(e, calls);
    assert(step.events =~= done.events);
    lemma_done_events(e, calls);
    lemma_done_items(e, calls);
    assert forall|k: int| 0 <= k < calls.len() implies emitter::completed_output(
        step.after,
    ).contains(done_item(#[trigger] calls[k])) by {
        lemma_completed_items(
            step.after.output_items,
            calls[k].output_index as int,
            done_item(calls[k]),
        );
    }
}

} // verus!
