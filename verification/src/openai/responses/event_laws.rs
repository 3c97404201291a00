//! What holds of all events of a streamed response.

use vstd::prelude::*;

use super::accumulator;
use super::accumulator::AccumulatorView;
use super::chunk_events;
use super::chunk_events::Step;
use super::emitter;
use super::emitter::EmitterView;
use super::emitter::ItemStatus;
use super::emitter::OutputItemStateView;
use super::emitter::ToolCallItemView;
use super::streaming;
use crate::json;
use crate::json::JsonView;
use crate::protocols::chat::ChatCompletionStreamResponse;
use crate::protocols::chat::ToolCallDelta;
use crate::protocols::responses::ResponsesRequestView;

verus! {

/// The events carry the numbers from the state's on, without a gap, and the new state
/// goes on from there.
pub open spec fn numbered(e: EmitterView, step: Step) -> bool {
    &&& step.after.sequence_number == e.sequence_number + step.events.len()
    &&& forall|i: int|
        0 <= i < step.events.len() ==> json::field(#[trigger] step.events[i], "sequence_number"@)
            == Some(emitter::num((e.sequence_number + i) as nat))
}

pub(crate) proof fn lemma_field_names()
    ensures
        "output_index"@ != "sequence_number"@,
        "item_id"@ != "sequence_number"@,
        "content_index"@ != "sequence_number"@,
        "delta"@ != "sequence_number"@,
        "part"@ != "sequence_number"@,
        "text"@ != "sequence_number"@,
        "item"@ != "sequence_number"@,
        "arguments"@ != "sequence_number"@,
        "response"@ != "sequence_number"@,
{
    reveal_strlit("output_index");
    reveal_strlit("item_id");
    reveal_strlit("content_index");
    reveal_strlit("delta");
    reveal_strlit("part");
    reveal_strlit("text");
    reveal_strlit("item");
    reveal_strlit("arguments");
    reveal_strlit("response");
    reveal_strlit("sequence_number");
    assert("output_index"@.len() != "sequence_number"@.len());
    assert("item_id"@.len() != "sequence_number"@.len());
    assert("content_index"@.len() != "sequence_number"@.len());
    assert("delta"@.len() != "sequence_number"@.len());
    assert("part"@.len() != "sequence_number"@.len());
    assert("text"@.len() != "sequence_number"@.len());
    assert("item"@.len() != "sequence_number"@.len());
    assert("arguments"@.len() != "sequence_number"@.len());
    assert("response"@.len() != "sequence_number"@.len());
}

pub(crate) proof fn lemma_numbered_then(e: EmitterView, first: Step, second: Step)
    requires
        numbered(e, first),
        numbered(first.after, second),
    ensures
        numbered(e, Step { after: second.after, events: first.events + second.events }),
{
    let events = first.events + second.events;
    assert forall|i: int| 0 <= i < events.len() implies json::field(
        #[trigger] events[i],
        "sequence_number"@,
    ) == Some(emitter::num((e.sequence_number + i) as nat)) by {
        if i < first.events.len() {
            assert(events[i] == first.events[i]);
        } else {
            assert(events[i] == second.events[i - first.events.len()]);
        }
    }
}

proof fn lemma_content_numbered(e: EmitterView, content: Seq<char>, new_id: Seq<char>)
    requires
        e.sequence_number + 3 <= u64::MAX,
    ensures
        numbered(e, chunk_events::content_step(e, content, new_id)),
        chunk_events::content_step(e, content, new_id).after.tool_call_items == e.tool_call_items,
        chunk_events::content_step(e, content, new_id).events.len() <= 3,
{
    reveal(chunk_events::content_step);
    lemma_field_names();
}

proof fn lemma_delta_numbered(e: EmitterView, d: ToolCallDelta, new_ids: Seq<Seq<char>>)
    requires
        e.sequence_number + 2 <= u64::MAX,
    ensures
        numbered(e, chunk_events::delta_step(e, d, new_ids)),
        chunk_events::delta_step(e, d, new_ids).events.len() <= 2,
{
    reveal(chunk_events::delta_step);
    lemma_field_names();
    lemma_grow_keeps_number(e, d.index as nat, new_ids);
}

pub(crate) proof fn lemma_grow_keeps_number(e: EmitterView, index: nat, new_ids: Seq<Seq<char>>)
    ensures
        chunk_events::grow(e, index, new_ids).sequence_number == e.sequence_number,
    decreases index + 1 - e.tool_call_items.len(),
{
    if e.tool_call_items.len() <= index {
        let next = EmitterView {
            tool_call_items: e.tool_call_items.push(
                ToolCallItemView {
                    output_index: e.next_output_index,
                    item_id: new_ids[e.tool_call_items.len() as int],
                    name: Seq::empty(),
                    arguments: Seq::empty(),
                },
            ),
            ..e.allocated()
        };
        lemma_grow_keeps_number(next, index, new_ids);
    }
}

proof fn lemma_deltas_numbered(
    e: EmitterView,
    deltas: Seq<ToolCallDelta>,
    new_ids: Seq<Seq<char>>,
)
    requires
        e.sequence_number + 2 * deltas.len() <= u64::MAX,
    ensures
        numbered(e, chunk_events::deltas_step(e, deltas, new_ids)),
        chunk_events::deltas_step(e, deltas, new_ids).events.len() <= 2 * deltas.len(),
    decreases deltas.len(),
{
    if deltas.len() > 0 {
        lemma_deltas_numbered(e, deltas.drop_last(), new_ids);
        let before = chunk_events::deltas_step(e, deltas.drop_last(), new_ids);
        lemma_delta_numbered(before.after, deltas.last(), new_ids);
        lemma_numbered_then(
            e,
            before,
            chunk_events::delta_step(before.after, deltas.last(), new_ids),
        );
    }
}

pub(crate) proof fn lemma_calls_done_numbered(e: EmitterView, calls: Seq<ToolCallItemView>)
    requires
        e.sequence_number + 2 * calls.len() <= u64::MAX,
    ensures
        numbered(e, chunk_events::calls_done_step(e, calls)),
        chunk_events::calls_done_step(e, calls).events.len() == 2 * calls.len(),
    decreases calls.len(),
{
    lemma_field_names();
    if calls.len() > 0 {
        lemma_calls_done_numbered(e, calls.drop_last());
        let before = chunk_events::calls_done_step(e, calls.drop_last());
        let step = chunk_events::calls_done_step(e, calls);
        assert forall|i: int| 0 <= i < step.events.len() implies json::field(
            #[trigger] step.events[i],
            "sequence_number"@,
        ) == Some(emitter::num((e.sequence_number + i) as nat)) by {
            if i < before.events.len() {
                assert(step.events[i] == before.events[i]);
            }
        }
    }
}

proof fn lemma_message_done_numbered(e: EmitterView)
    requires
        e.sequence_number + 3 <= u64::MAX,
    ensures
        numbered(e, chunk_events::message_done_step(e)),
{
    reveal(chunk_events::message_done_step);
    lemma_field_names();
}

/// The events that a chunk leads to are numbered one after the other, from the number
/// that the emitter had reached.
pub proof fn law_events_are_numbered(
    e: EmitterView,
    chunk: ChatCompletionStreamResponse,
    new_id: Seq<char>,
    new_ids: Seq<Seq<char>>,
)
    requires
        chunk_events::can_process(e, chunk),
    ensures
        numbered(e, chunk_events::chunk_step(e, chunk, new_id, new_ids)),
{
    let first = chunk_events::content_step(e, chunk_events::chunk_content(chunk), new_id);
    lemma_content_numbered(e, chunk_events::chunk_content(chunk), new_id);
    let deltas = chunk_events::chunk_deltas(chunk);
    lemma_deltas_numbered(first.after, deltas, new_ids);
    let second = chunk_events::deltas_step(first.after, deltas, new_ids);
    lemma_numbered_then(e, first, second);
    lemma_deltas_grow(first.after, deltas, new_ids);
    let both = Step { after: second.after, events: first.events + second.events };
    let reason = chunk_events::chunk_finish(chunk);
    if reason == Some("tool_calls"@) {
        lemma_calls_done_numbered(second.after, second.after.tool_call_items);
    } else if chunk_events::ends_message(reason) {
        lemma_message_done_numbered(second.after);
    }
    lemma_numbered_then(e, both, chunk_events::finish_step(second.after, reason));
}

pub(crate) proof fn lemma_grow_count(e: EmitterView, index: nat, new_ids: Seq<Seq<char>>)
    ensures
        chunk_events::grow(e, index, new_ids).tool_call_items.len() == if e.tool_call_items.len()
            <= index {
            index + 1
        } else {
            e.tool_call_items.len()
        },
    decreases index + 1 - e.tool_call_items.len(),
{
    if e.tool_call_items.len() <= index {
        let next = EmitterView {
            tool_call_items: e.tool_call_items.push(
                ToolCallItemView {
                    output_index: e.next_output_index,
                    item_id: new_ids[e.tool_call_items.len() as int],
                    name: Seq::empty(),
                    arguments: Seq::empty(),
                },
            ),
            ..e.allocated()
        };
        lemma_grow_count(next, index, new_ids);
    }
}

pub(crate) proof fn lemma_deltas_grow(e: EmitterView, deltas: Seq<ToolCallDelta>, new_ids: Seq<Seq<char>>)
    ensures
        chunk_events::deltas_step(e, deltas, new_ids).after.tool_call_items.len()
            == chunk_events::grown(e.tool_call_items.len(), deltas),
    decreases deltas.len(),
{
    reveal(chunk_events::delta_step);
    if deltas.len() > 0 {
        lemma_deltas_grow(e, deltas.drop_last(), new_ids);
        let before = chunk_events::deltas_step(e, deltas.drop_last(), new_ids).after;
        lemma_grow_count(before, deltas.last().index as nat, new_ids);
    }
}

/// The output items are numbered by their places, and the next one gets the next number.
pub open spec fn indexed(e: EmitterView) -> bool {
    &&& e.next_output_index == e.output_items.len()
    &&& forall|i: int|
        0 <= i < e.output_items.len() ==> (#[trigger] e.output_items[i]).output_index == i
}

pub(crate) proof fn lemma_stored_indexed(e: EmitterView, output_index: usize, data: JsonView)
    requires
        indexed(e),
    ensures
        indexed(e.stored(output_index, data)),
        indexed(e.completed(output_index)),
{
    if let Some(i) = e.item_place(output_index) {
        assert(emitter::first_with_index(e.output_items, output_index, i));
    }
}

proof fn lemma_allocated_indexed(e: EmitterView)
    requires
        indexed(e),
        e.next_output_index < usize::MAX,
    ensures
        indexed(e.allocated()),
{
}

proof fn lemma_grow_indexed(e: EmitterView, index: nat, new_ids: Seq<Seq<char>>)
    requires
        indexed(e),
        e.next_output_index + index + 1 - e.tool_call_items.len() <= usize::MAX,
    ensures
        indexed(chunk_events::grow(e, index, new_ids)),
        e.tool_call_items.len() <= index ==> chunk_events::grow(e, index, new_ids).next_output_index
            == e.next_output_index + index + 1 - e.tool_call_items.len(),
        e.tool_call_items.len() > index ==> chunk_events::grow(e, index, new_ids) == e,
    decreases index + 1 - e.tool_call_items.len(),
{
    if e.tool_call_items.len() <= index {
        let next = EmitterView {
            tool_call_items: e.tool_call_items.push(
                ToolCallItemView {
                    output_index: e.next_output_index,
                    item_id: new_ids[e.tool_call_items.len() as int],
                    name: Seq::empty(),
                    arguments: Seq::empty(),
                },
            ),
            ..e.allocated()
        };
        lemma_allocated_indexed(e);
        lemma_grow_indexed(next, index, new_ids);
    }
}

proof fn lemma_deltas_indexed(e: EmitterView, deltas: Seq<ToolCallDelta>, new_ids: Seq<Seq<char>>)
    requires
        indexed(e),
        e.next_output_index + chunk_events::grown(e.tool_call_items.len(), deltas)
            - e.tool_call_items.len() <= usize::MAX,
    ensures
        ({
            let after = chunk_events::deltas_step(e, deltas, new_ids).after;
            &&& indexed(after)
            &&& after.next_output_index - e.next_output_index == after.tool_call_items.len()
                - e.tool_call_items.len()
        }),
    decreases deltas.len(),
{
    reveal(chunk_events::delta_step);
    if deltas.len() > 0 {
        lemma_deltas_indexed(e, deltas.drop_last(), new_ids);
        let before = chunk_events::deltas_step(e, deltas.drop_last(), new_ids).after;
        lemma_deltas_grow(e, deltas.drop_last(), new_ids);
        lemma_grow_indexed(before, deltas.last().index as nat, new_ids);
        lemma_grow_count(before, deltas.last().index as nat, new_ids);
    }
}

pub(crate) proof fn lemma_calls_done_indexed(e: EmitterView, calls: Seq<ToolCallItemView>)
    requires
        indexed(e),
    ensures
        indexed(chunk_events::calls_done_step(e, calls).after),
    decreases calls.len(),
{
    if calls.len() > 0 {
        lemma_calls_done_indexed(e, calls.drop_last());
        let before = chunk_events::calls_done_step(e, calls.drop_last()).after;
        let call = calls.last();
        let item = chunk_events::call_item(
            call.item_id,
            call.item_id,
            call.name,
            call.arguments,
            "completed"@,
        );
        lemma_stored_indexed(before.counted(), call.output_index, item);
        lemma_stored_indexed(
            before.counted().stored(call.output_index, item).counted(),
            call.output_index,
            item,
        );
    }
}

/// No chunk breaks the numbering of the output items: each has its own output index.
pub proof fn law_output_indices_are_distinct(
    e: EmitterView,
    chunk: ChatCompletionStreamResponse,
    new_id: Seq<char>,
    new_ids: Seq<Seq<char>>,
)
    requires
        chunk_events::can_process(e, chunk),
        indexed(e),
    ensures
        indexed(chunk_events::chunk_step(e, chunk, new_id, new_ids).after),
{
    reveal(chunk_events::content_step);
    reveal(chunk_events::message_done_step);
    let content = chunk_events::chunk_content(chunk);
    let deltas = chunk_events::chunk_deltas(chunk);
    let reason = chunk_events::chunk_finish(chunk);
    lemma_allocated_indexed(e);
    let first = chunk_events::content_step(e, content, new_id).after;
    assert(indexed(first));
    lemma_deltas_indexed(first, deltas, new_ids);
    let second = chunk_events::deltas_step(first, deltas, new_ids).after;
    if reason == Some("tool_calls"@) {
        lemma_calls_done_indexed(second, second.tool_call_items);
    } else if chunk_events::ends_message(reason) {
        let index = second.current_message_output_index->0;
        let id = second.current_item_id->0;
        let item = emitter::message_item(id, seq![emitter::text_part(second.accumulated_text)]);
        lemma_stored_indexed(second, index, item);
        lemma_stored_indexed(second.counted().counted(), index, item);
        lemma_stored_indexed(second.stored(index, item).counted(), index, item);
        lemma_stored_indexed(
            second.counted().counted().stored(index, item).counted(),
            index,
            item,
        );
    }
}

proof fn lemma_grow_keeps_text(e: EmitterView, index: nat, new_ids: Seq<Seq<char>>)
    ensures
        chunk_events::grow(e, index, new_ids).accumulated_text == e.accumulated_text,
    decreases index + 1 - e.tool_call_items.len(),
{
    if e.tool_call_items.len() <= index {
        let next = EmitterView {
            tool_call_items: e.tool_call_items.push(
                ToolCallItemView {
                    output_index: e.next_output_index,
                    item_id: new_ids[e.tool_call_items.len() as int],
                    name: Seq::empty(),
                    arguments: Seq::empty(),
                },
            ),
            ..e.allocated()
        };
        lemma_grow_keeps_text(next, index, new_ids);
    }
}

pub(crate) proof fn lemma_deltas_keep_text(
    e: EmitterView,
    deltas: Seq<ToolCallDelta>,
    new_ids: Seq<Seq<char>>,
)
    ensures
        chunk_events::deltas_step(e, deltas, new_ids).after.accumulated_text == e.accumulated_text,
    decreases deltas.len(),
{
    reveal(chunk_events::delta_step);
    if deltas.len() > 0 {
        lemma_deltas_keep_text(e, deltas.drop_last(), new_ids);
        let before = chunk_events::deltas_step(e, deltas.drop_last(), new_ids).after;
        lemma_grow_keeps_text(before, deltas.last().index as nat, new_ids);
    }
}

pub(crate) proof fn lemma_calls_done_keep_text(e: EmitterView, calls: Seq<ToolCallItemView>)
    ensures
        chunk_events::calls_done_step(e, calls).after.accumulated_text == e.accumulated_text,
    decreases calls.len(),
{
    if calls.len() > 0 {
        lemma_calls_done_keep_text(e, calls.drop_last());
    }
}

/// The text that the client is streamed is the text that is kept.
pub proof fn law_streamed_text_is_kept(
    e: EmitterView,
    kept: AccumulatorView,
    chunk: ChatCompletionStreamResponse,
    new_id: Seq<char>,
    new_ids: Seq<Seq<char>>,
)
    requires
        e.accumulated_text == kept.content_buffer,
    ensures
        chunk_events::chunk_step(e, chunk, new_id, new_ids).after.accumulated_text == kept.after(
            chunk,
        ).content_buffer,
{
    reveal(chunk_events::content_step);
    reveal(chunk_events::message_done_step);
    let first = chunk_events::content_step(e, chunk_events::chunk_content(chunk), new_id).after;
    let deltas = chunk_events::chunk_deltas(chunk);
    lemma_deltas_keep_text(first, deltas, new_ids);
    let second = chunk_events::deltas_step(first, deltas, new_ids).after;
    lemma_calls_done_keep_text(second, second.tool_call_items);
    assert(first.accumulated_text =~= e.accumulated_text + chunk_events::chunk_content(chunk));
}

/// A chunk that the client is told of, with the identifiers that new items get.
pub struct ToldChunk {
    pub chunk: ChatCompletionStreamResponse,
    pub new_id: Seq<char>,
    pub new_ids: Seq<Seq<char>>,
}

/// What chunks lead to, one after the other.
pub open spec fn stream_step(e: EmitterView, told: Seq<ToldChunk>) -> Step
    decreases told.len(),
{
    if told.len() == 0 {
        Step { after: e, events: Seq::empty() }
    } else {
        let before = stream_step(e, told.drop_last());
        let last = told.last();
        let step = chunk_events::chunk_step(before.after, last.chunk, last.new_id, last.new_ids);
        Step { after: step.after, events: before.events + step.events }
    }
}

/// Each chunk can be processed when its turn comes.
pub open spec fn can_stream(e: EmitterView, told: Seq<ToldChunk>) -> bool
    decreases told.len(),
{
    told.len() > 0 ==> {
        &&& can_stream(e, told.drop_last())
        &&& chunk_events::can_process(
            stream_step(e, told.drop_last()).after,
            told.last().chunk,
        )
    }
}

proof fn lemma_stream_numbered(e: EmitterView, told: Seq<ToldChunk>)
    requires
        can_stream(e, told),
    ensures
        numbered(e, stream_step(e, told)),
    decreases told.len(),
{
    if told.len() > 0 {
        lemma_stream_numbered(e, told.drop_last());
        let before = stream_step(e, told.drop_last());
        let last = told.last();
        law_events_are_numbered(before.after, last.chunk, last.new_id, last.new_ids);
        lemma_numbered_then(
            e,
            before,
            chunk_events::chunk_step(before.after, last.chunk, last.new_id, last.new_ids),
        );
    }
}

/// All events of a response: it is created and in progress, its chunks are told, it is
/// completed.
pub open spec fn response_events(
    fresh: EmitterView,
    told: Seq<ToldChunk>,
    usage: Option<JsonView>,
) -> Seq<JsonView> {
    let created = (EmitterView { has_emitted_created: true, ..fresh }).counted();
    let step = stream_step(streaming::opened(fresh), told);
    seq![emitter::created_event(fresh), emitter::in_progress_event(created)] + step.events
        + seq![emitter::completed_event(step.after, usage)]
}

/// A response begins with `response.created`, goes on with `response.in_progress` and ends
/// with `response.completed`; all its events are numbered from zero on, without a gap.
pub proof fn law_response_is_framed_and_numbered(
    response_id: Seq<char>,
    model: Seq<char>,
    created_at: u64,
    message_id: Seq<char>,
    original_request: Option<ResponsesRequestView>,
    told: Seq<ToldChunk>,
    usage: Option<JsonView>,
)
    requires
        can_stream(
            streaming::opened(
                EmitterView {
                    original_request,
                    ..EmitterView::fresh(response_id, model, created_at, message_id)
                },
            ),
            told,
        ),
    ensures
        ({
            let fresh = EmitterView {
                original_request,
                ..EmitterView::fresh(response_id, model, created_at, message_id)
            };
            let events = response_events(fresh, told, usage);
            &&& chunk_events::event_kind(events[0]) == "response.created"@
            &&& chunk_events::event_kind(events[1]) == "response.in_progress"@
            &&& chunk_events::event_kind(events.last()) == "response.completed"@
            &&& forall|i: int|
                0 <= i < events.len() ==> json::field(#[trigger] events[i], "sequence_number"@)
                    == Some(emitter::num(i as nat))
        }),
{
    let fresh = EmitterView {
        original_request,
        ..EmitterView::fresh(response_id, model, created_at, message_id)
    };
    let events = response_events(fresh, told, usage);
    let opened = streaming::opened(fresh);
    let step = stream_step(opened, told);
    lemma_stream_numbered(opened, told);
    lemma_field_names();
    reveal_strlit("type");
    reveal_strlit("response");
    reveal_strlit("sequence_number");
    assert("type"@.len() != "response"@.len());
    assert("type"@.len() != "sequence_number"@.len());
    assert(events.last() == emitter::completed_event(step.after, usage));
    assert forall|i: int| 0 <= i < events.len() implies json::field(
        #[trigger] events[i],
        "sequence_number"@,
    ) == Some(emitter::num(i as nat)) by {
        if 2 <= i < events.len() - 1 {
            assert(events[i] == step.events[i - 2]);
        }
    }
}

/// Whatever chunks come, each output item of a response has its own output index.
pub proof fn law_response_items_are_distinct(e: EmitterView, told: Seq<ToldChunk>)
    requires
        can_stream(e, told),
        indexed(e),
    ensures
        indexed(stream_step(e, told).after),
    decreases told.len(),
{
    if told.len() > 0 {
        law_response_items_are_distinct(e, told.drop_last());
        let before = stream_step(e, told.drop_last());
        let last = told.last();
        law_output_indices_are_distinct(before.after, last.chunk, last.new_id, last.new_ids);
    }
}

/// The chunks that a client is told of.
pub open spec fn chunks_of(told: Seq<ToldChunk>) -> Seq<ChatCompletionStreamResponse> {
    told.map_values(|t: ToldChunk| t.chunk)
}

/// The text that the client is streamed and the text that is stored are one: that of all
/// chunks, one after the other.
pub proof fn law_response_text_is_kept(
    fresh: EmitterView,
    original_request: ResponsesRequestView,
    told: Seq<ToldChunk>,
)
    requires
        fresh.accumulated_text.len() == 0,
    ensures
        stream_step(fresh, told).after.accumulated_text == accumulator::all_content(
            chunks_of(told),
        ),
        AccumulatorView::fresh(original_request).after_all(chunks_of(told)).content_buffer
            == accumulator::all_content(chunks_of(told)),
    decreases told.len(),
{
    if told.len() > 0 {
        assert(chunks_of(told).drop_last() =~= chunks_of(told.drop_last()));
        law_response_text_is_kept(fresh, original_request, told.drop_last());
        let before = stream_step(fresh, told.drop_last());
        let last = told.last();
        law_streamed_text_is_kept(
            before.after,
            AccumulatorView::fresh(original_request).after_all(chunks_of(told.drop_last())),
            last.chunk,
            last.new_id,
            last.new_ids,
        );
    } else {
        assert(fresh.accumulated_text =~= accumulator::all_content(chunks_of(told)));
    }
}

} // verus!
