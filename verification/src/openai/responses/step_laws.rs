//! What a chunk of a chat completion leads to: what is announced before it is spoken of, and
//! what is repeated when it ends.

use vstd::prelude::*;

use super::call_laws;
use super::chunk_events;
use super::delta_laws;
use super::emitter;
use super::emitter::EmitterView;
use super::emitter::ItemStatus;
use super::reading_laws;
use super::reading_laws::counts;
use super::reading_laws::is_about_part;
use super::reading_laws::is_event;
use super::reading_laws::is_part;
use super::reading_laws::says;
use crate::json;
use crate::json::JsonView;
use crate::protocols::chat::ChatCompletionStreamResponse;
use crate::protocols::chat::ToolCallDelta;

verus! {

/// Whether this announces a message that says nothing yet.
pub open spec fn announces_message(
    event: JsonView,
    number: u64,
    output_index: usize,
    id: Seq<char>,
) -> bool {
    &&& is_event(event, "response.output_item.added"@, number)
    &&& counts(event, "output_index"@, output_index as nat)
    &&& json::field(event, "item"@) matches Some(item)
    &&& says(item, "id"@, id)
    &&& says(item, "type"@, "message"@)
    &&& says(item, "role"@, "assistant"@)
    &&& json::field(item, "content"@) matches Some(JsonView::Array(none))
    &&& none.len() == 0
}

proof fn lemma_item_fields()
    ensures
        "id"@.len() == 2,
        "type"@.len() == 4,
        "role"@.len() == 4,
        "name"@.len() == 4,
        "type"@[0] == 't',
        "role"@[0] == 'r',
        "name"@[0] == 'n',
        "content"@.len() == 7,
        "call_id"@.len() == 7,
        "arguments"@.len() == 9,
        "status"@.len() == 6,
        "tool_calls"@.len() == 10,
        "stop"@.len() == 4,
        "length"@.len() == 6,
        ""@ == Seq::<char>::empty(),
{
    reveal_strlit("id");
    reveal_strlit("type");
    reveal_strlit("role");
    reveal_strlit("name");
    reveal_strlit("content");
    reveal_strlit("call_id");
    reveal_strlit("arguments");
    reveal_strlit("status");
    reveal_strlit("tool_calls");
    reveal_strlit("stop");
    reveal_strlit("length");
    reveal_strlit("");
    assert(""@ =~= Seq::<char>::empty());
}

/// Text is told at once: where no message was begun, one is announced first, under the next
/// place, and where it has no part yet, so is its part. The text is added to what was said.
pub proof fn law_text_is_announced_and_told(
    e: EmitterView,
    chunk: ChatCompletionStreamResponse,
    new_id: Seq<char>,
    new_ids: Seq<Seq<char>>,
)
    requires
        delta_laws::said_in(chunk).len() > 0,
        e.sequence_number < u64::MAX - 3,
        e.current_item_id is Some ==> e.current_message_output_index is Some,
    ensures
        ({
            let events = chunk_events::chunk_step(e, chunk, new_id, new_ids).events;
            let m: int = if e.current_item_id is None {
                1
            } else {
                0
            };
            let p: int = if e.has_emitted_content_part_added {
                0
            } else {
                1
            };
            let id = if e.current_item_id is None {
                new_id
            } else {
                e.current_item_id->0
            };
            let index = if e.current_item_id is None {
                e.next_output_index
            } else {
                e.current_message_output_index->0
            };
            &&& events.len() > m + p
            &&& m == 1 ==> announces_message(events[0], e.sequence_number, index, id)
            &&& p == 1 ==> {
                &&& is_event(
                    events[m],
                    "response.content_part.added"@,
                    (e.sequence_number + m) as u64,
                )
                &&& is_about_part(events[m], index, id, 0)
                &&& json::field(events[m], "part"@) matches Some(part)
                &&& is_part(part, Seq::empty())
            }
            &&& is_event(
                events[m + p],
                "response.output_text.delta"@,
                (e.sequence_number + m + p) as u64,
            )
            &&& is_about_part(events[m + p], index, id, 0)
            &&& says(events[m + p], "delta"@, delta_laws::said_in(chunk))
        }),
{
    reveal(chunk_events::content_step);
    lemma_item_fields();
    let content = chunk_events::chunk_content(chunk);
    assert(content == delta_laws::said_in(chunk));
    let first = chunk_events::content_step(e, content, new_id);
    let step = chunk_events::chunk_step(e, chunk, new_id, new_ids);
    assert forall|i: int| 0 <= i < first.events.len() implies #[trigger] step.events[i]
        == first.events[i] by {}
    let a = e.allocated();
    reading_laws::law_item_events_are_read(
        "response.output_item.added"@,
        a,
        e.next_output_index,
        emitter::message_item(new_id, Seq::empty()),
    );
    let opened = if e.current_item_id is None {
        EmitterView {
            has_emitted_output_item_added: true,
            current_item_id: Some(new_id),
            current_message_output_index: Some(e.next_output_index),
            ..a.counted()
        }
    } else {
        e
    };
    let index = opened.current_message_output_index->0;
    let id = opened.current_item_id->0;
    let announced = if e.has_emitted_content_part_added {
        opened
    } else {
        (EmitterView { has_emitted_content_part_added: true, ..opened }).counted()
    };
    reading_laws::law_text_events_are_read(opened, content, index, id, 0);
    reading_laws::law_text_events_are_read(announced, content, index, id, 0);
    let m: int = if e.current_item_id is None {
        1
    } else {
        0
    };
    let p: int = if e.has_emitted_content_part_added {
        0
    } else {
        1
    };
    assert(first.events.len() == m + p + 1);
    assert(step.events[0] == first.events[0]);
    assert(step.events[m] == first.events[m]);
    assert(step.events[m + p] == first.events[m + p]);
}

/// Whether this is a call as an output item.
pub open spec fn is_call(
    item: JsonView,
    id: Seq<char>,
    call_id: Seq<char>,
    name: Seq<char>,
    arguments: Seq<char>,
    status: Seq<char>,
) -> bool {
    &&& says(item, "type"@, "function_call"@)
    &&& says(item, "id"@, id)
    &&& says(item, "call_id"@, call_id)
    &&& says(item, "name"@, name)
    &&& says(item, "arguments"@, arguments)
    &&& says(item, "status"@, status)
}

proof fn lemma_is_call(
    id: Seq<char>,
    call_id: Seq<char>,
    name: Seq<char>,
    arguments: Seq<char>,
    status: Seq<char>,
)
    ensures
        is_call(
            chunk_events::call_item(id, call_id, name, arguments, status),
            id,
            call_id,
            name,
            arguments,
            status,
        ),
{
    lemma_item_fields();
}

proof fn lemma_grow(e: EmitterView, index: nat, new_ids: Seq<Seq<char>>)
    ensures
        index < chunk_events::grow(e, index, new_ids).tool_call_items.len(),
        chunk_events::grow(e, index, new_ids).sequence_number == e.sequence_number,
        e.tool_call_items.is_prefix_of(chunk_events::grow(e, index, new_ids).tool_call_items),
        forall|k: int|
            e.tool_call_items.len() <= k < chunk_events::grow(
                e,
                index,
                new_ids,
            ).tool_call_items.len() ==> {
                let call = #[trigger] chunk_events::grow(e, index, new_ids).tool_call_items[k];
                &&& call.item_id == new_ids[k]
                &&& call.name.len() == 0
                &&& call.arguments.len() == 0
            },
    decreases index + 1 - e.tool_call_items.len(),
{
    if e.tool_call_items.len() <= index {
        let a = e.allocated();
        let next = EmitterView {
            tool_call_items: e.tool_call_items.push(
                emitter::ToolCallItemView {
                    output_index: e.next_output_index,
                    item_id: new_ids[e.tool_call_items.len() as int],
                    name: Seq::empty(),
                    arguments: Seq::empty(),
                },
            ),
            ..a
        };
        lemma_grow(next, index, new_ids);
        let all = chunk_events::grow(next, index, new_ids).tool_call_items;
        assert(chunk_events::grow(e, index, new_ids).tool_call_items == all);
        assert forall|k: int| 0 <= k < e.tool_call_items.len() implies #[trigger] all[k]
            == e.tool_call_items[k] by {
            assert(next.tool_call_items[k] == e.tool_call_items[k]);
        }
        assert(e.tool_call_items =~= all.take(e.tool_call_items.len() as int));
        assert forall|k: int| e.tool_call_items.len() <= k < all.len() implies {
            let call = #[trigger] all[k];
            &&& call.item_id == new_ids[k]
            &&& call.name.len() == 0
            &&& call.arguments.len() == 0
        } by {
            if k == e.tool_call_items.len() {
                assert(next.tool_call_items[k].item_id == new_ids[k]);
                assert(all[k] == next.tool_call_items[k]);
            }
        }
    }
}

/// A delta of a call leads to one event where it brings an identifier, which announces the
/// call under it, with its name so far, and to one where it brings arguments. It adds its
/// name and its arguments to those of its call, and leaves the other calls as they were.
pub proof fn law_delta_is_announced_and_told(
    e: EmitterView,
    d: ToolCallDelta,
    new_ids: Seq<Seq<char>>,
)
    requires
        e.sequence_number < u64::MAX - 2,
    ensures
        ({
            let step = chunk_events::delta_step(e, d, new_ids);
            let i = d.index as int;
            let a: int = if d.id is Some {
                1
            } else {
                0
            };
            let arguments = delta_laws::arguments_of(seq![d], i);
            let b: int = if arguments.len() > 0 {
                1
            } else {
                0
            };
            let calls = step.after.tool_call_items;
            &&& i < calls.len()
            &&& step.events.len() == a + b
            &&& a == 1 ==> {
                &&& is_event(step.events[0], "response.output_item.added"@, e.sequence_number)
                &&& counts(step.events[0], "output_index"@, calls[i].output_index as nat)
                &&& json::field(step.events[0], "item"@) matches Some(item)
                &&& is_call(
                    item,
                    calls[i].item_id,
                    d.id->0@,
                    calls[i].name,
                    Seq::empty(),
                    "in_progress"@,
                )
            }
            &&& b == 1 ==> {
                &&& is_event(
                    step.events[a],
                    "response.function_call_arguments.delta"@,
                    (e.sequence_number + a) as u64,
                )
                &&& counts(step.events[a], "output_index"@, calls[i].output_index as nat)
                &&& says(step.events[a], "item_id"@, calls[i].item_id)
                &&& says(step.events[a], "delta"@, arguments)
            }
            &&& e.tool_call_items.len() <= calls.len()
            &&& i < e.tool_call_items.len() ==> {
                &&& calls[i].item_id == e.tool_call_items[i].item_id
                &&& calls[i].output_index == e.tool_call_items[i].output_index
                &&& calls[i].name == e.tool_call_items[i].name + delta_laws::name_of(seq![d], i)
                &&& calls[i].arguments == e.tool_call_items[i].arguments + arguments
            }
            &&& i >= e.tool_call_items.len() ==> {
                &&& calls[i].item_id == new_ids[i]
                &&& calls[i].name == delta_laws::name_of(seq![d], i)
                &&& calls[i].arguments == arguments
            }
            &&& forall|k: int|
                0 <= k < e.tool_call_items.len() && k != i ==> #[trigger] calls[k]
                    == e.tool_call_items[k]
        }),
{
    reveal(chunk_events::delta_step);
    lemma_item_fields();
    let i = d.index as int;
    let full = chunk_events::grow(e, d.index as nat, new_ids);
    lemma_grow(e, d.index as nat, new_ids);
    let named = chunk_events::extend_call(full, i, chunk_events::delta_name(d), Seq::empty());
    let call = named.tool_call_items[i];
    assert(seq![d].drop_last() =~= Seq::<ToolCallDelta>::empty());
    assert(seq![d].last() == d);
    reveal_with_fuel(delta_laws::arguments_of, 2);
    reveal_with_fuel(delta_laws::name_of, 2);
    assert(delta_laws::arguments_of(seq![d], i) =~= chunk_events::delta_arguments(d));
    assert(delta_laws::name_of(seq![d], i) =~= chunk_events::delta_name(d));
    assert(full.tool_call_items[i].arguments + Seq::<char>::empty()
        =~= full.tool_call_items[i].arguments);
    let announced = if d.id is Some {
        named.counted()
    } else {
        named
    };
    let extended = chunk_events::extend_call(
        announced,
        i,
        Seq::empty(),
        chunk_events::delta_arguments(d),
    );
    assert(call.name + Seq::<char>::empty() =~= call.name);
    if d.id is Some {
        let item = chunk_events::call_item(
            call.item_id,
            d.id->0@,
            call.name,
            ""@,
            "in_progress"@,
        );
        lemma_is_call(call.item_id, d.id->0@, call.name, ""@, "in_progress"@);
        reading_laws::law_item_events_are_read(
            "response.output_item.added"@,
            named,
            call.output_index,
            item,
        );
    }
    reading_laws::law_argument_events_are_read(
        extended,
        call.output_index,
        call.item_id,
        chunk_events::delta_arguments(d),
    );
    let calls = chunk_events::delta_step(e, d, new_ids).after.tool_call_items;
    if i < e.tool_call_items.len() {
        assert(full.tool_call_items[i] == e.tool_call_items[i]);
        assert(calls[i].arguments =~= e.tool_call_items[i].arguments
            + chunk_events::delta_arguments(d));
    } else {
        assert(full.tool_call_items[i].name =~= Seq::empty());
        assert(full.tool_call_items[i].arguments =~= Seq::empty());
        assert(calls[i].name =~= chunk_events::delta_name(d));
        assert(calls[i].arguments =~= chunk_events::delta_arguments(d));
    }
    assert forall|k: int| 0 <= k < e.tool_call_items.len() && k != i implies #[trigger] calls[k]
        == e.tool_call_items[k] by {
        assert(full.tool_call_items[k] == e.tool_call_items[k]);
    }
}

/// Whether an event announces a call under this identifier.
pub open spec fn announces_call(event: JsonView, call_id: Seq<char>) -> bool {
    &&& says(event, "type"@, "response.output_item.added"@)
    &&& json::field(event, "item"@) matches Some(item)
    &&& says(item, "type"@, "function_call"@)
    &&& says(item, "call_id"@, call_id)
}

proof fn lemma_deltas_announced(
    e: EmitterView,
    deltas: Seq<ToolCallDelta>,
    new_ids: Seq<Seq<char>>,
    i: int,
)
    requires
        0 <= i < deltas.len(),
        deltas[i].id is Some,
    ensures
        exists|j: int|
            0 <= j < chunk_events::deltas_step(e, deltas, new_ids).events.len()
                && announces_call(
                #[trigger] chunk_events::deltas_step(e, deltas, new_ids).events[j],
                deltas[i].id->0@,
            ),
    decreases deltas.len(),
{
    let init = deltas.drop_last();
    let before = chunk_events::deltas_step(e, init, new_ids);
    let all = chunk_events::deltas_step(e, deltas, new_ids).events;
    if i < init.len() {
        assert(init[i] == deltas[i]);
        lemma_deltas_announced(e, init, new_ids, i);
        let j = choose|j: int|
            0 <= j < before.events.len() && announces_call(
                #[trigger] before.events[j],
                deltas[i].id->0@,
            );
        assert(all[j] == before.events[j]);
    } else {
        let d = deltas.last();
        reveal(chunk_events::delta_step);
        lemma_item_fields();
        let named = chunk_events::extend_call(
            chunk_events::grow(before.after, d.index as nat, new_ids),
            d.index as int,
            chunk_events::delta_name(d),
            Seq::empty(),
        );
        let call = named.tool_call_items[d.index as int];
        lemma_is_call(call.item_id, d.id->0@, call.name, ""@, "in_progress"@);
        reading_laws::law_item_events_are_read(
            "response.output_item.added"@,
            named,
            call.output_index,
            chunk_events::call_item(call.item_id, d.id->0@, call.name, ""@, "in_progress"@),
        );
        let step = chunk_events::delta_step(before.after, d, new_ids);
        assert(announces_call(step.events[0], d.id->0@));
        assert(all[before.events.len() as int] == step.events[0]);
    }
}

/// Every call that a chunk brings an identifier for is announced under it.
pub proof fn law_identified_calls_are_announced(
    e: EmitterView,
    chunk: ChatCompletionStreamResponse,
    new_id: Seq<char>,
    new_ids: Seq<Seq<char>>,
    i: int,
)
    requires
        0 <= i < delta_laws::deltas_in(chunk).len(),
        delta_laws::deltas_in(chunk)[i].id is Some,
    ensures
        exists|j: int|
            0 <= j < chunk_events::chunk_step(e, chunk, new_id, new_ids).events.len()
                && announces_call(
                #[trigger] chunk_events::chunk_step(e, chunk, new_id, new_ids).events[j],
                delta_laws::deltas_in(chunk)[i].id->0@,
            ),
{
    let deltas = chunk_events::chunk_deltas(chunk);
    assert(deltas == delta_laws::deltas_in(chunk));
    let first = chunk_events::content_step(e, chunk_events::chunk_content(chunk), new_id);
    let second = chunk_events::deltas_step(first.after, deltas, new_ids);
    lemma_deltas_announced(first.after, deltas, new_ids, i);
    let j = choose|j: int|
        0 <= j < second.events.len() && announces_call(
            #[trigger] second.events[j],
            deltas[i].id->0@,
        );
    let all = chunk_events::chunk_step(e, chunk, new_id, new_ids).events;
    assert(all[first.events.len() + j] == second.events[j]);
}

/// The reason for which the first choice of a chunk ends.
pub open spec fn reason_of(chunk: ChatCompletionStreamResponse) -> Option<Seq<char>> {
    if chunk.choices@.len() > 0 && chunk.choices@[0].finish_reason is Some {
        Some(chunk.choices@[0].finish_reason->0@)
    } else {
        None
    }
}

/// When a message ends, by `stop` or `length`, its text, its part and its item are repeated in
/// full, in this order, as the last events of the chunk.
pub proof fn law_ended_message_is_repeated(
    e: EmitterView,
    chunk: ChatCompletionStreamResponse,
    new_id: Seq<char>,
    new_ids: Seq<Seq<char>>,
)
    requires
        reason_of(chunk) == Some("stop"@) || reason_of(chunk) == Some("length"@),
        e.current_item_id is Some,
        e.current_message_output_index is Some,
        e.has_emitted_content_part_added,
        e.has_emitted_output_item_added,
        delta_laws::said_in(chunk).len() == 0,
        delta_laws::deltas_in(chunk).len() == 0,
        e.sequence_number < u64::MAX - 3,
    ensures
        ({
            let events = chunk_events::chunk_step(e, chunk, new_id, new_ids).events;
            let index = e.current_message_output_index->0;
            let id = e.current_item_id->0;
            &&& events.len() == 3
            &&& is_event(events[0], "response.output_text.done"@, e.sequence_number)
            &&& is_about_part(events[0], index, id, 0)
            &&& says(events[0], "text"@, e.accumulated_text)
            &&& is_event(
                events[1],
                "response.content_part.done"@,
                (e.sequence_number + 1) as u64,
            )
            &&& is_about_part(events[1], index, id, 0)
            &&& json::field(events[1], "part"@) matches Some(part)
            &&& is_part(part, e.accumulated_text)
            &&& is_event(
                events[2],
                "response.output_item.done"@,
                (e.sequence_number + 2) as u64,
            )
            &&& counts(events[2], "output_index"@, index as nat)
            &&& json::field(events[2], "item"@) matches Some(item)
            &&& reading_laws::is_message(item, id, e.accumulated_text)
        }),
{
    reveal(chunk_events::content_step);
    reveal(chunk_events::message_done_step);
    lemma_item_fields();
    reveal_strlit("text");
    assert("text"@[1] != "type"@[1]) by {
        reveal_strlit("type");
    }
    let index = e.current_message_output_index->0;
    let id = e.current_item_id->0;
    assert(chunk_events::chunk_finish(chunk) == reason_of(chunk));
    assert(chunk_events::chunk_content(chunk) =~= delta_laws::said_in(chunk));
    assert(chunk_events::chunk_deltas(chunk) =~= delta_laws::deltas_in(chunk));
    let item = emitter::message_item(id, seq![emitter::text_part(e.accumulated_text)]);
    reading_laws::law_text_events_are_read(e, Seq::empty(), index, id, 0);
    reading_laws::law_text_events_are_read(e.counted(), Seq::empty(), index, id, 0);
    reading_laws::law_item_events_are_read(
        "response.output_item.done"@,
        e.counted().counted(),
        index,
        item,
    );
    assert(reading_laws::is_message(item, id, e.accumulated_text));
    let body = chunk_events::body_step(
        e,
        chunk_events::chunk_content(chunk),
        chunk_events::chunk_deltas(chunk),
        new_id,
        new_ids,
    );
    assert(body.events.len() == 0);
    assert(body.after == e);
    let finish = chunk_events::finish_step(e, chunk_events::chunk_finish(chunk));
    let events = chunk_events::chunk_step(e, chunk, new_id, new_ids).events;
    assert(events =~= finish.events);
}

/// A chunk with no text, no calls and no reason to end says nothing and changes nothing; so
/// does one that ends for any reason but `stop`, `length` and `tool_calls`.
pub proof fn law_idle_chunk_says_nothing(
    e: EmitterView,
    chunk: ChatCompletionStreamResponse,
    new_id: Seq<char>,
    new_ids: Seq<Seq<char>>,
)
    requires
        delta_laws::said_in(chunk).len() == 0,
        delta_laws::deltas_in(chunk).len() == 0,
        reason_of(chunk) != Some("stop"@),
        reason_of(chunk) != Some("length"@),
        reason_of(chunk) != Some("tool_calls"@),
    ensures
        chunk_events::chunk_step(e, chunk, new_id, new_ids).events.len() == 0,
        chunk_events::chunk_step(e, chunk, new_id, new_ids).after == e,
{
    reveal(chunk_events::content_step);
    assert(chunk_events::chunk_finish(chunk) == reason_of(chunk));
    assert(chunk_events::chunk_content(chunk) =~= delta_laws::said_in(chunk));
    assert(chunk_events::chunk_deltas(chunk) =~= delta_laws::deltas_in(chunk));
}

/// A new output item takes the next place, in progress and without data; what was tracked
/// stays.
pub proof fn law_new_item_takes_the_next_place(e: EmitterView)
    requires
        e.next_output_index < usize::MAX,
    ensures
        ({
            let a = e.allocated();
            let n = e.output_items.len() as int;
            &&& a.next_output_index == e.next_output_index + 1
            &&& a.output_items.len() == n + 1
            &&& a.output_items[n].output_index == e.next_output_index
            &&& a.output_items[n].status == ItemStatus::InProgress
            &&& a.output_items[n].item_data is None
            &&& forall|k: int|
                0 <= k < n ==> #[trigger] a.output_items[k] == e.output_items[k]
            &&& a.sequence_number == e.sequence_number
            &&& a.accumulated_text == e.accumulated_text
            &&& a.tool_call_items == e.tool_call_items
            &&& a.current_item_id == e.current_item_id
        }),
{
}

/// An item that is done holds its data and is completed; the others stay as they were.
pub proof fn law_done_item_is_kept(e: EmitterView, at: int, data: JsonView)
    requires
        0 <= at < e.output_items.len(),
        forall|k: int|
            0 <= k < e.output_items.len() && k != at ==> (
            #[trigger] e.output_items[k]).output_index != e.output_items[at].output_index,
    ensures
        ({
            let index = e.output_items[at].output_index;
            let f = e.stored(index, data).completed(index);
            &&& f.output_items.len() == e.output_items.len()
            &&& f.output_items[at].output_index == index
            &&& f.output_items[at].status == ItemStatus::Completed
            &&& f.output_items[at].item_data == Some(data)
            &&& forall|k: int|
                0 <= k < e.output_items.len() && k != at ==> #[trigger] f.output_items[k]
                    == e.output_items[k]
            &&& f.sequence_number == e.sequence_number
            &&& f.accumulated_text == e.accumulated_text
        }),
{
    let index = e.output_items[at].output_index;
    assert(emitter::first_with_index(e.output_items, index, at));
    let i = e.item_place(index)->0;
    assert(emitter::first_with_index(e.output_items, index, i));
    assert(i == at);
    let s = e.stored(index, data);
    assert(emitter::first_with_index(s.output_items, index, at));
    let j = s.item_place(index)->0;
    assert(emitter::first_with_index(s.output_items, index, j));
    if j != at {
        assert(s.output_items[j] == e.output_items[j]);
    }
}

/// A client that listens is sent the events of the chunk, each in a frame of its own, behind
/// what it was sent before. One that is gone is sent nothing, and the failure says so, unless
/// there was nothing to tell.
pub proof fn law_chunk_is_sent_or_lost(
    before: EmitterView,
    after: EmitterView,
    chunk: ChatCompletionStreamResponse,
    open: bool,
    sent: Seq<Seq<char>>,
    now_sent: Seq<Seq<char>>,
    failure: Option<Seq<char>>,
)
    requires
        chunk_events::is_told(before, after, chunk, open, sent, now_sent, failure),
    ensures
        open ==> failure is None,
        failure matches Some(e) ==> e == "Client disconnected"@ && now_sent == sent,
        failure is None ==> {
            let id = match after.current_item_id {
                Some(id) => id,
                None => Seq::empty(),
            };
            let events = chunk_events::chunk_step(
                before,
                chunk,
                id,
                chunk_events::call_ids(after),
            ).events;
            &&& now_sent.len() == sent.len() + events.len()
            &&& forall|i: int| 0 <= i < sent.len() ==> #[trigger] now_sent[i] == sent[i]
            &&& forall|i: int|
                0 <= i < events.len() ==> now_sent[sent.len() + i] == chunk_events::frame(
                    #[trigger] events[i],
                )
            &&& after.accumulated_text == chunk_events::chunk_step(
                before,
                chunk,
                id,
                chunk_events::call_ids(after),
            ).after.accumulated_text
        },
{
}

proof fn lemma_grow_keeps_message(e: EmitterView, index: nat, new_ids: Seq<Seq<char>>)
    ensures
        ({
            let after = chunk_events::grow(e, index, new_ids);
            &&& after.accumulated_text == e.accumulated_text
            &&& after.current_item_id == e.current_item_id
            &&& after.current_message_output_index == e.current_message_output_index
            &&& after.has_emitted_output_item_added == e.has_emitted_output_item_added
            &&& after.has_emitted_content_part_added == e.has_emitted_content_part_added
        }),
    decreases index + 1 - e.tool_call_items.len(),
{
    if e.tool_call_items.len() <= index {
        let a = e.allocated();
        let next = EmitterView {
            tool_call_items: e.tool_call_items.push(
                emitter::ToolCallItemView {
                    output_index: e.next_output_index,
                    item_id: new_ids[e.tool_call_items.len() as int],
                    name: Seq::empty(),
                    arguments: Seq::empty(),
                },
            ),
            ..a
        };
        lemma_grow_keeps_message(next, index, new_ids);
    }
}

proof fn lemma_deltas_keep_message(
    e: EmitterView,
    deltas: Seq<ToolCallDelta>,
    new_ids: Seq<Seq<char>>,
)
    ensures
        ({
            let after = chunk_events::deltas_step(e, deltas, new_ids).after;
            &&& after.accumulated_text == e.accumulated_text
            &&& after.current_item_id == e.current_item_id
            &&& after.current_message_output_index == e.current_message_output_index
            &&& after.has_emitted_output_item_added == e.has_emitted_output_item_added
            &&& after.has_emitted_content_part_added == e.has_emitted_content_part_added
        }),
    decreases deltas.len(),
{
    reveal(chunk_events::delta_step);
    if deltas.len() > 0 {
        lemma_deltas_keep_message(e, deltas.drop_last(), new_ids);
        let before = chunk_events::deltas_step(e, deltas.drop_last(), new_ids).after;
        lemma_grow_keeps_message(before, deltas.last().index as nat, new_ids);
    }
}

/// Whether the message of an emitter was begun in full, or not at all.
pub open spec fn is_settled(e: EmitterView) -> bool {
    &&& e.current_item_id is Some == e.current_message_output_index is Some
    &&& e.current_item_id is Some ==> e.has_emitted_output_item_added
        && e.has_emitted_content_part_added
    &&& e.current_item_id is None ==> !e.has_emitted_output_item_added
        && !e.has_emitted_content_part_added
}

/// Whatever else a chunk brings, one that ends the message tells last that its text, its part
/// and its item are done, with all that was said by then, this chunk included.
pub proof fn law_end_of_a_message_is_told_last(
    e: EmitterView,
    chunk: ChatCompletionStreamResponse,
    new_id: Seq<char>,
    new_ids: Seq<Seq<char>>,
)
    requires
        is_settled(e),
        reason_of(chunk) == Some("stop"@) || reason_of(chunk) == Some("length"@),
        e.current_item_id is Some || delta_laws::said_in(chunk).len() > 0,
    ensures
        ({
            let step = chunk_events::chunk_step(e, chunk, new_id, new_ids);
            let events = step.events;
            let n = events.len() as int;
            let said = e.accumulated_text + delta_laws::said_in(chunk);
            let id = step.after.current_item_id->0;
            let index = step.after.current_message_output_index->0;
            &&& n >= 3
            &&& step.after.accumulated_text == said
            &&& e.current_item_id is Some ==> step.after.current_item_id == e.current_item_id
            &&& e.current_item_id is None ==> step.after.current_item_id == Some(new_id)
            &&& says(events[n - 3], "type"@, "response.output_text.done"@)
            &&& is_about_part(events[n - 3], index, id, 0)
            &&& says(events[n - 3], "text"@, said)
            &&& says(events[n - 2], "type"@, "response.content_part.done"@)
            &&& is_about_part(events[n - 2], index, id, 0)
            &&& json::field(events[n - 2], "part"@) matches Some(part)
            &&& is_part(part, said)
            &&& says(events[n - 1], "type"@, "response.output_item.done"@)
            &&& counts(events[n - 1], "output_index"@, index as nat)
            &&& json::field(events[n - 1], "item"@) matches Some(item)
            &&& reading_laws::is_message(item, id, said)
        }),
{
    reveal(chunk_events::content_step);
    reveal(chunk_events::message_done_step);
    lemma_item_fields();
    reveal_strlit("text");
    assert("text"@[1] != "type"@[1]) by {
        reveal_strlit("type");
    }
    let content = chunk_events::chunk_content(chunk);
    let deltas = chunk_events::chunk_deltas(chunk);
    assert(chunk_events::chunk_finish(chunk) == reason_of(chunk));
    assert(content =~= delta_laws::said_in(chunk));
    let first = chunk_events::content_step(e, content, new_id);
    assert(first.after.accumulated_text =~= e.accumulated_text + content);
    lemma_deltas_keep_message(first.after, deltas, new_ids);
    let body = chunk_events::body_step(e, content, deltas, new_id, new_ids);
    let b = body.after;
    let index = b.current_message_output_index->0;
    let id = b.current_item_id->0;
    let item = emitter::message_item(id, seq![emitter::text_part(b.accumulated_text)]);
    reading_laws::law_text_events_are_read(b, Seq::empty(), index, id, 0);
    reading_laws::law_text_events_are_read(b.counted(), Seq::empty(), index, id, 0);
    reading_laws::law_item_events_are_read(
        "response.output_item.done"@,
        b.counted().counted(),
        index,
        item,
    );
    assert(reading_laws::is_message(item, id, b.accumulated_text));
    let finish = chunk_events::finish_step(b, chunk_events::chunk_finish(chunk));
    assert(finish == chunk_events::message_done_step(b));
    assert(finish.events.len() == 3);
    let events = chunk_events::chunk_step(e, chunk, new_id, new_ids).events;
    let n = events.len() as int;
    assert(events[n - 3] == finish.events[0]);
    assert(events[n - 2] == finish.events[1]);
    assert(events[n - 1] == finish.events[2]);
}

/// Whether these two events end a call: its arguments and its item, in full.
pub open spec fn end_call(
    first: JsonView,
    second: JsonView,
    call: emitter::ToolCallItemView,
) -> bool {
    &&& says(first, "type"@, "response.function_call_arguments.done"@)
    &&& counts(first, "output_index"@, call.output_index as nat)
    &&& says(first, "item_id"@, call.item_id)
    &&& says(first, "arguments"@, call.arguments)
    &&& says(second, "type"@, "response.output_item.done"@)
    &&& counts(second, "output_index"@, call.output_index as nat)
    &&& json::field(second, "item"@) matches Some(item)
    &&& is_call(item, call.item_id, call.item_id, call.name, call.arguments, "completed"@)
}

proof fn lemma_calls_are_ended(e: EmitterView, calls: Seq<emitter::ToolCallItemView>)
    ensures
        ({
            let events = chunk_events::calls_done_step(e, calls).events;
            &&& events.len() == 2 * calls.len()
            &&& forall|k: int|
                0 <= k < calls.len() ==> end_call(
                    events[2 * k],
                    events[2 * k + 1],
                    #[trigger] calls[k],
                )
        }),
    decreases calls.len(),
{
    if calls.len() > 0 {
        let init = calls.drop_last();
        lemma_calls_are_ended(e, init);
        let before = chunk_events::calls_done_step(e, init);
        let call = calls.last();
        let item = chunk_events::call_item(
            call.item_id,
            call.item_id,
            call.name,
            call.arguments,
            "completed"@,
        );
        lemma_is_call(call.item_id, call.item_id, call.name, call.arguments, "completed"@);
        reading_laws::law_argument_events_are_read(
            before.after,
            call.output_index,
            call.item_id,
            call.arguments,
        );
        reading_laws::law_item_events_are_read(
            "response.output_item.done"@,
            before.after.counted(),
            call.output_index,
            item,
        );
        let events = chunk_events::calls_done_step(e, calls).events;
        assert forall|k: int| 0 <= k < calls.len() implies end_call(
            events[2 * k],
            events[2 * k + 1],
            #[trigger] calls[k],
        ) by {
            if k < init.len() {
                assert(init[k] == calls[k]);
                assert(events[2 * k] == before.events[2 * k]);
                assert(events[2 * k + 1] == before.events[2 * k + 1]);
            } else {
                assert(calls[k] == call);
            }
        }
    }
}

/// Whatever else a chunk brings, one that ends the calls tells last that each is done, with all
/// its arguments, in the order of the calls.
pub proof fn law_end_of_the_calls_is_told_last(
    e: EmitterView,
    chunk: ChatCompletionStreamResponse,
    new_id: Seq<char>,
    new_ids: Seq<Seq<char>>,
)
    requires
        reason_of(chunk) == Some("tool_calls"@),
    ensures
        ({
            let step = chunk_events::chunk_step(e, chunk, new_id, new_ids);
            let events = step.events;
            let calls = step.after.tool_call_items;
            let from = events.len() - 2 * calls.len();
            &&& from >= 0
            &&& forall|k: int|
                0 <= k < calls.len() ==> end_call(
                    events[from + 2 * k],
                    events[from + 2 * k + 1],
                    #[trigger] calls[k],
                )
        }),
{
    let content = chunk_events::chunk_content(chunk);
    let deltas = chunk_events::chunk_deltas(chunk);
    assert(chunk_events::chunk_finish(chunk) == reason_of(chunk));
    let body = chunk_events::body_step(e, content, deltas, new_id, new_ids);
    let calls = body.after.tool_call_items;
    lemma_calls_are_ended(body.after, calls);
    call_laws::lemma_calls_done_keeps_calls(body.after, calls);
    let finish = chunk_events::calls_done_step(body.after, calls);
    let step = chunk_events::chunk_step(e, chunk, new_id, new_ids);
    assert(step.events == body.events + finish.events);
    assert(step.after.tool_call_items == calls);
    let from = body.events.len() as int;
    assert forall|k: int| 0 <= k < calls.len() implies end_call(
        step.events[from + 2 * k],
        step.events[from + 2 * k + 1],
        #[trigger] calls[k],
    ) by {
        assert(step.events[from + 2 * k] == finish.events[2 * k]);
        assert(step.events[from + 2 * k + 1] == finish.events[2 * k + 1]);
    }
}

/// Whether an event tells of something that begins or goes on.
pub open spec fn goes_on(event: JsonView) -> bool {
    ||| says(event, "type"@, "response.output_item.added"@)
    ||| says(event, "type"@, "response.content_part.added"@)
    ||| says(event, "type"@, "response.output_text.delta"@)
    ||| says(event, "type"@, "response.function_call_arguments.delta"@)
}

proof fn lemma_content_goes_on(e: EmitterView, content: Seq<char>, new_id: Seq<char>)
    ensures
        ({
            let events = chunk_events::content_step(e, content, new_id).events;
            forall|i: int| 0 <= i < events.len() ==> goes_on(#[trigger] events[i])
        }),
{
    reveal(chunk_events::content_step);
    let events = chunk_events::content_step(e, content, new_id).events;
    if content.len() > 0 {
        let a = e.allocated();
        let item = emitter::message_item(new_id, Seq::empty());
        reading_laws::law_item_events_are_read(
            "response.output_item.added"@,
            a,
            e.next_output_index,
            item,
        );
        let opened = if e.current_item_id is None {
            EmitterView {
                has_emitted_output_item_added: true,
                current_item_id: Some(new_id),
                current_message_output_index: Some(e.next_output_index),
                ..a.counted()
            }
        } else {
            e
        };
        let index = opened.current_message_output_index->0;
        let id = opened.current_item_id->0;
        let announced = if opened.has_emitted_content_part_added {
            opened
        } else {
            (EmitterView { has_emitted_content_part_added: true, ..opened }).counted()
        };
        reading_laws::law_text_events_are_read(opened, content, index, id, 0);
        reading_laws::law_text_events_are_read(announced, content, index, id, 0);
    }
}

proof fn lemma_deltas_go_on(
    e: EmitterView,
    deltas: Seq<ToolCallDelta>,
    new_ids: Seq<Seq<char>>,
)
    ensures
        ({
            let events = chunk_events::deltas_step(e, deltas, new_ids).events;
            forall|i: int| 0 <= i < events.len() ==> goes_on(#[trigger] events[i])
        }),
    decreases deltas.len(),
{
    if deltas.len() > 0 {
        lemma_deltas_go_on(e, deltas.drop_last(), new_ids);
        let before = chunk_events::deltas_step(e, deltas.drop_last(), new_ids);
        let d = deltas.last();
        reveal(chunk_events::delta_step);
        let i = d.index as int;
        let named = chunk_events::extend_call(
            chunk_events::grow(before.after, d.index as nat, new_ids),
            i,
            chunk_events::delta_name(d),
            Seq::empty(),
        );
        let call = named.tool_call_items[i];
        if d.id is Some {
            reading_laws::law_item_events_are_read(
                "response.output_item.added"@,
                named,
                call.output_index,
                chunk_events::call_item(
                    call.item_id,
                    d.id->0@,
                    call.name,
                    ""@,
                    "in_progress"@,
                ),
            );
        }
        let announced = if d.id is Some {
            named.counted()
        } else {
            named
        };
        let extended = chunk_events::extend_call(
            announced,
            i,
            Seq::empty(),
            chunk_events::delta_arguments(d),
        );
        reading_laws::law_argument_events_are_read(
            extended,
            call.output_index,
            call.item_id,
            chunk_events::delta_arguments(d),
        );
        let step = chunk_events::delta_step(before.after, d, new_ids);
        assert forall|j: int| 0 <= j < step.events.len() implies goes_on(
            #[trigger] step.events[j],
        ) by {}
        let events = chunk_events::deltas_step(e, deltas, new_ids).events;
        assert(events == before.events + step.events);
        assert forall|j: int| 0 <= j < events.len() implies goes_on(#[trigger] events[j]) by {
            if j < before.events.len() {
                assert(events[j] == before.events[j]);
            } else {
                assert(events[j] == step.events[j - before.events.len()]);
            }
        }
    }
}

/// A chunk that gives no reason to end, or none that ends a message or calls, tells of nothing
/// that is done.
pub proof fn law_nothing_is_done_before_the_end(
    e: EmitterView,
    chunk: ChatCompletionStreamResponse,
    new_id: Seq<char>,
    new_ids: Seq<Seq<char>>,
)
    requires
        reason_of(chunk) != Some("stop"@),
        reason_of(chunk) != Some("length"@),
        reason_of(chunk) != Some("tool_calls"@),
    ensures
        ({
            let events = chunk_events::chunk_step(e, chunk, new_id, new_ids).events;
            forall|i: int| 0 <= i < events.len() ==> goes_on(#[trigger] events[i])
        }),
{
    assert(chunk_events::chunk_finish(chunk) == reason_of(chunk));
    let content = chunk_events::chunk_content(chunk);
    let deltas = chunk_events::chunk_deltas(chunk);
    let first = chunk_events::content_step(e, content, new_id);
    let second = chunk_events::deltas_step(first.after, deltas, new_ids);
    lemma_content_goes_on(e, content, new_id);
    lemma_deltas_go_on(first.after, deltas, new_ids);
    let events = chunk_events::chunk_step(e, chunk, new_id, new_ids).events;
    assert(events =~= first.events + second.events);
    assert forall|i: int| 0 <= i < events.len() implies goes_on(#[trigger] events[i]) by {
        if i < first.events.len() {
            assert(events[i] == first.events[i]);
        } else {
            assert(events[i] == second.events[i - first.events.len()]);
        }
    }
}

} // verus!
