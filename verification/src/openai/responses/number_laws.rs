//! What holds of the numbers of events, in whatever order an emitter is called.

use vstd::prelude::*;

use super::chunk_events;
use super::chunk_events::Step;
use super::emitter;
use super::emitter::EmitterView;
use super::event_laws;
use super::event_laws::ToldChunk;
use crate::json;
use crate::json::JsonView;
use crate::protocols::chat::ToolCallDelta;

verus! {

/// A call of an emitter, with what it is given.
pub enum EmitterCall {
    Created,
    InProgress,
    ContentPartAdded { output_index: usize, item_id: Seq<char>, content_index: usize },
    TextDelta {
        delta: Seq<char>,
        output_index: usize,
        item_id: Seq<char>,
        content_index: usize,
    },
    TextDone { output_index: usize, item_id: Seq<char>, content_index: usize },
    ContentPartDone { output_index: usize, item_id: Seq<char>, content_index: usize },
    ArgumentsDelta { output_index: usize, item_id: Seq<char>, delta: Seq<char> },
    ArgumentsDone { output_index: usize, item_id: Seq<char>, arguments: Seq<char> },
    OutputItemAdded { output_index: usize, item: JsonView },
    OutputItemDone { output_index: usize, item: JsonView },
    Completed { usage: Option<JsonView> },
    Chunk(ToldChunk),
    Allocate,
    Store { output_index: usize, item_data: JsonView },
    Complete { output_index: usize },
    /// Sending an event that was made before.
    Send,
}

/// A call that makes one event.
pub open spec fn makes(after: EmitterView, event: JsonView) -> Step {
    Step { after, events: seq![event] }
}

/// A call that makes no event.
pub open spec fn makes_nothing(after: EmitterView) -> Step {
    Step { after, events: Seq::empty() }
}

/// What a call leads to.
pub open spec fn call_step(e: EmitterView, call: EmitterCall) -> Step {
    match call {
        EmitterCall::Created => makes(
            (EmitterView { has_emitted_created: true, ..e }).counted(),
            emitter::created_event(e),
        ),
        EmitterCall::InProgress => makes(
            (EmitterView { has_emitted_in_progress: true, ..e }).counted(),
            emitter::in_progress_event(e),
        ),
        EmitterCall::ContentPartAdded { output_index, item_id, content_index } => makes(
            (EmitterView { has_emitted_content_part_added: true, ..e }).counted(),
            emitter::content_part_added_event(e, output_index, item_id, content_index),
        ),
        EmitterCall::TextDelta { delta, output_index, item_id, content_index } => makes(
            (EmitterView { accumulated_text: e.accumulated_text + delta, ..e }).counted(),
            emitter::text_delta_event(e, delta, output_index, item_id, content_index),
        ),
        EmitterCall::TextDone { output_index, item_id, content_index } => makes(
            e.counted(),
            emitter::text_done_event(e, output_index, item_id, content_index),
        ),
        EmitterCall::ContentPartDone { output_index, item_id, content_index } => makes(
            e.counted(),
            emitter::content_part_done_event(e, output_index, item_id, content_index),
        ),
        EmitterCall::ArgumentsDelta { output_index, item_id, delta } => makes(
            e.counted(),
            emitter::arguments_event(
                "response.function_call_arguments.delta"@,
                e,
                output_index,
                item_id,
                "delta"@,
                delta,
            ),
        ),
        EmitterCall::ArgumentsDone { output_index, item_id, arguments } => makes(
            e.counted(),
            emitter::arguments_event(
                "response.function_call_arguments.done"@,
                e,
                output_index,
                item_id,
                "arguments"@,
                arguments,
            ),
        ),
        EmitterCall::OutputItemAdded { output_index, item } => makes(
            e.counted(),
            emitter::output_item_event("response.output_item.added"@, e, output_index, item),
        ),
        EmitterCall::OutputItemDone { output_index, item } => makes(
            e.stored(output_index, item).counted(),
            emitter::output_item_event("response.output_item.done"@, e, output_index, item),
        ),
        EmitterCall::Completed { usage } => makes(
            e.counted(),
            emitter::completed_event(e, usage),
        ),
        EmitterCall::Chunk(told) => chunk_events::chunk_step(
            e,
            told.chunk,
            told.new_id,
            told.new_ids,
        ),
        EmitterCall::Allocate => makes_nothing(e.allocated()),
        EmitterCall::Store { output_index, item_data } => makes_nothing(
            e.stored(output_index, item_data),
        ),
        EmitterCall::Complete { output_index } => makes_nothing(e.completed(output_index)),
        EmitterCall::Send => makes_nothing(e),
    }
}

/// Whether a call can be made: the numbers do not run out, and a message that a chunk ends
/// was begun.
pub open spec fn can_call(e: EmitterView, call: EmitterCall) -> bool {
    match call {
        EmitterCall::Chunk(told) => chunk_events::can_process(e, told.chunk),
        EmitterCall::Allocate => e.next_output_index < usize::MAX,
        EmitterCall::Store { .. } => true,
        EmitterCall::Complete { .. } => true,
        EmitterCall::Send => true,
        _ => e.sequence_number < u64::MAX,
    }
}

/// What calls lead to, one after the other.
pub open spec fn calls_step(e: EmitterView, calls: Seq<EmitterCall>) -> Step
    decreases calls.len(),
{
    if calls.len() == 0 {
        makes_nothing(e)
    } else {
        let before = calls_step(e, calls.drop_last());
        let step = call_step(before.after, calls.last());
        Step { after: step.after, events: before.events + step.events }
    }
}

/// Each call can be made when its turn comes.
pub open spec fn can_call_all(e: EmitterView, calls: Seq<EmitterCall>) -> bool
    decreases calls.len(),
{
    calls.len() > 0 ==> {
        &&& can_call_all(e, calls.drop_last())
        &&& can_call(calls_step(e, calls.drop_last()).after, calls.last())
    }
}

/// In whatever order an emitter is called, its events carry the numbers from the one that
/// it had reached on, without a gap, in the order in which they were made. A call that makes
/// no event uses up no number.
pub proof fn law_any_calls_number_their_events(e: EmitterView, calls: Seq<EmitterCall>)
    requires
        can_call_all(e, calls),
    ensures
        event_laws::numbered(e, calls_step(e, calls)),
    decreases calls.len(),
{
    if calls.len() > 0 {
        law_any_calls_number_their_events(e, calls.drop_last());
        let before = calls_step(e, calls.drop_last());
        event_laws::lemma_field_names();
        if let EmitterCall::Chunk(told) = calls.last() {
            event_laws::law_events_are_numbered(
                before.after,
                told.chunk,
                told.new_id,
                told.new_ids,
            );
        }
        event_laws::lemma_numbered_then(e, before, call_step(before.after, calls.last()));
    }
}

/// The events of a new emitter are numbered from zero on, whatever it is called for.
pub proof fn law_new_emitter_numbers_from_zero(
    response_id: Seq<char>,
    model: Seq<char>,
    created_at: u64,
    message_id: Seq<char>,
    calls: Seq<EmitterCall>,
)
    requires
        can_call_all(EmitterView::fresh(response_id, model, created_at, message_id), calls),
    ensures
        ({
            let fresh = EmitterView::fresh(response_id, model, created_at, message_id);
            let made = calls_step(fresh, calls);
            &&& made.after.sequence_number == made.events.len()
            &&& forall|n: int|
                0 <= n < made.events.len() ==> json::field(
                    #[trigger] made.events[n],
                    "sequence_number"@,
                ) == Some(emitter::num(n as nat))
        }),
{
    law_any_calls_number_their_events(
        EmitterView::fresh(response_id, model, created_at, message_id),
        calls,
    );
}

proof fn lemma_silent_deltas(e: EmitterView, deltas: Seq<ToolCallDelta>, new_ids: Seq<Seq<char>>)
    requires
        !chunk_events::deltas_speak(deltas),
    ensures
        chunk_events::deltas_step(e, deltas, new_ids).after.sequence_number == e.sequence_number,
    decreases deltas.len(),
{
    if deltas.len() > 0 {
        let init = deltas.drop_last();
        assert forall|i: int| 0 <= i < init.len() implies !chunk_events::delta_speaks(
            #[trigger] init[i],
        ) by {
            assert(!chunk_events::delta_speaks(deltas[i]));
        }
        lemma_silent_deltas(e, init, new_ids);
        reveal(chunk_events::delta_step);
        let before = chunk_events::deltas_step(e, init, new_ids).after;
        let d = deltas.last();
        assert(!chunk_events::delta_speaks(deltas[deltas.len() - 1]));
        event_laws::lemma_grow_keeps_number(before, d.index as nat, new_ids);
    }
}

proof fn lemma_lost_deltas(e: EmitterView, deltas: Seq<ToolCallDelta>, new_ids: Seq<Seq<char>>)
    requires
        chunk_events::deltas_speak(deltas),
    ensures
        chunk_events::deltas_cut(e, deltas, new_ids).sequence_number == (e.sequence_number
            + 1) as u64,
    decreases deltas.len(),
{
    let init = deltas.drop_last();
    if chunk_events::deltas_speak(init) {
        lemma_lost_deltas(e, init, new_ids);
    } else {
        lemma_silent_deltas(e, init, new_ids);
        let before = chunk_events::deltas_step(e, init, new_ids).after;
        event_laws::lemma_grow_keeps_number(before, deltas.last().index as nat, new_ids);
    }
}

/// Where the client is gone, the event that could not be sent uses up its number, and no
/// other is used.
pub proof fn law_lost_event_uses_one_number(
    e: EmitterView,
    told: ToldChunk,
)
    requires
        chunk_events::can_process(e, told.chunk),
        chunk_events::speaks(e, told.chunk),
    ensures
        chunk_events::chunk_cut(e, told.chunk, told.new_ids).sequence_number
            == e.sequence_number + 1,
{
    let deltas = chunk_events::chunk_deltas(told.chunk);
    if chunk_events::chunk_content(told.chunk).len() == 0 {
        if chunk_events::deltas_speak(deltas) {
            lemma_lost_deltas(e, deltas, told.new_ids);
        } else {
            lemma_silent_deltas(e, deltas, told.new_ids);
        }
    }
}

} // verus!
