//! What a client that reads the events of a streamed response can put together from them.

use vstd::prelude::*;

use super::accumulator;
use super::call_laws;
use super::chunk_events;
use super::emitter;
use super::emitter::EmitterView;
use super::emitter::ToolCallItemView;
use super::event_laws;
use super::event_laws::ToldChunk;
use crate::json;
use crate::json::JsonView;
use crate::protocols::chat::ChatCompletionStreamResponse;
use crate::protocols::chat::ToolCallDelta;
use crate::text;

verus! {

/// Whether an event is of this type.
pub open spec fn is_kind(event: JsonView, kind: Seq<char>) -> bool {
    json::field(event, "type"@) == Some(JsonView::Str(kind))
}

/// Whether an event is about the output item at this place.
pub open spec fn is_about(event: JsonView, place: nat) -> bool {
    json::field(event, "output_index"@) == Some(JsonView::Number(text::decimal(place)))
}

/// The text that a delta event brings.
pub open spec fn brought(event: JsonView) -> Seq<char> {
    match json::field(event, "delta"@) {
        Some(JsonView::Str(said)) => said,
        _ => Seq::empty(),
    }
}

/// The deltas of the events of a type about one output item, put together in their order.
pub open spec fn put_together(events: Seq<JsonView>, kind: Seq<char>, place: nat) -> Seq<char>
    decreases events.len(),
{
    if events.len() == 0 {
        Seq::empty()
    } else if is_kind(events.last(), kind) && is_about(events.last(), place) {
        put_together(events.drop_last(), kind, place) + brought(events.last())
    } else {
        put_together(events.drop_last(), kind, place)
    }
}

/// The deltas of all events of a type, put together in their order.
pub open spec fn put_all_together(events: Seq<JsonView>, kind: Seq<char>) -> Seq<char>
    decreases events.len(),
{
    if events.len() == 0 {
        Seq::empty()
    } else if is_kind(events.last(), kind) {
        put_all_together(events.drop_last(), kind) + brought(events.last())
    } else {
        put_all_together(events.drop_last(), kind)
    }
}

/// The text that a chunk brings. Only its first choice counts.
pub open spec fn said_in(chunk: ChatCompletionStreamResponse) -> Seq<char> {
    if chunk.choices@.len() > 0 && chunk.choices@[0].delta.content is Some {
        chunk.choices@[0].delta.content->0@
    } else {
        Seq::empty()
    }
}

/// The deltas of tool calls that a chunk brings. Only its first choice counts.
pub open spec fn deltas_in(chunk: ChatCompletionStreamResponse) -> Seq<ToolCallDelta> {
    if chunk.choices@.len() > 0 && chunk.choices@[0].delta.tool_calls is Some {
        chunk.choices@[0].delta.tool_calls->0@
    } else {
        Seq::empty()
    }
}

/// The text of all chunks, one after the other.
pub open spec fn text_of(told: Seq<ToldChunk>) -> Seq<char>
    decreases told.len(),
{
    if told.len() == 0 {
        Seq::empty()
    } else {
        text_of(told.drop_last()) + said_in(told.last().chunk)
    }
}

/// The deltas of all chunks, one after the other.
pub open spec fn deltas_of(told: Seq<ToldChunk>) -> Seq<ToolCallDelta>
    decreases told.len(),
{
    if told.len() == 0 {
        Seq::empty()
    } else {
        deltas_of(told.drop_last()) + deltas_in(told.last().chunk)
    }
}

/// The arguments of all deltas of one tool call, one after the other.
pub open spec fn arguments_of(deltas: Seq<ToolCallDelta>, call: int) -> Seq<char>
    decreases deltas.len(),
{
    if deltas.len() == 0 {
        Seq::empty()
    } else {
        let d = deltas.last();
        let before = arguments_of(deltas.drop_last(), call);
        if d.index == call && d.function is Some && d.function->0.arguments is Some {
            before + d.function->0.arguments->0@
        } else {
            before
        }
    }
}

/// The names of all deltas of one tool call, one after the other.
pub open spec fn name_of(deltas: Seq<ToolCallDelta>, call: int) -> Seq<char>
    decreases deltas.len(),
{
    if deltas.len() == 0 {
        Seq::empty()
    } else {
        let d = deltas.last();
        let before = name_of(deltas.drop_last(), call);
        if d.index == call && d.function is Some && d.function->0.name is Some {
            before + d.function->0.name->0@
        } else {
            before
        }
    }
}

proof fn lemma_kinds()
    ensures
        "response.function_call_arguments.delta"@.len() == 38,
        "response.function_call_arguments.done"@.len() == 37,
        "response.output_item.added"@.len() == 26,
        "response.content_part.added"@.len() == 27,
        "response.output_text.delta"@.len() == 26,
        "response.output_item.done"@.len() == 25,
        "response.output_text.done"@.len() == 25,
        "response.content_part.done"@.len() == 26,
        "response.output_item.added"@ != "response.output_text.delta"@,
        "response.output_item.added"@ != "response.content_part.done"@,
        "response.output_text.delta"@ != "response.content_part.done"@,
        "response.output_item.done"@ != "response.output_text.done"@,
        "type"@.len() == 4,
        "sequence_number"@.len() == 15,
        "output_index"@.len() == 12,
        "item_id"@.len() == 7,
        "content_index"@.len() == 13,
        "delta"@.len() == 5,
        "arguments"@.len() == 9,
        "type"@ != "part"@,
        "type"@ != "text"@,
        "type"@ != "item"@,
        "part"@.len() == 4,
        "text"@.len() == 4,
        "item"@.len() == 4,
{
    reveal_strlit("response.function_call_arguments.delta");
    reveal_strlit("response.function_call_arguments.done");
    reveal_strlit("response.output_item.added");
    reveal_strlit("response.content_part.added");
    reveal_strlit("response.output_text.delta");
    reveal_strlit("response.output_item.done");
    reveal_strlit("response.output_text.done");
    reveal_strlit("response.content_part.done");
    assert("response.output_item.added"@[16] != "response.output_text.delta"@[16]);
    assert("response.output_item.added"@[9] != "response.content_part.done"@[9]);
    assert("response.output_text.delta"@[9] != "response.content_part.done"@[9]);
    assert("response.output_item.done"@[16] != "response.output_text.done"@[16]);
    reveal_strlit("type");
    reveal_strlit("sequence_number");
    reveal_strlit("output_index");
    reveal_strlit("item_id");
    reveal_strlit("content_index");
    reveal_strlit("delta");
    reveal_strlit("arguments");
    reveal_strlit("part");
    reveal_strlit("text");
    reveal_strlit("item");
    assert("type"@[0] != "part"@[0]);
    assert("type"@[1] != "text"@[1]);
    assert("type"@[0] != "item"@[0]);
}

/// No event is of this type.
pub open spec fn none_of(events: Seq<JsonView>, kind: Seq<char>) -> bool {
    forall|i: int| 0 <= i < events.len() ==> !is_kind(#[trigger] events[i], kind)
}

proof fn lemma_none_of(events: Seq<JsonView>, kind: Seq<char>)
    requires
        none_of(events, kind),
    ensures
        put_all_together(events, kind) == Seq::<char>::empty(),
        forall|place: nat| #[trigger]
            put_together(events, kind, place) == Seq::<char>::empty(),
    decreases events.len(),
{
    if events.len() > 0 {
        let init = events.drop_last();
        assert forall|i: int| 0 <= i < init.len() implies !is_kind(#[trigger] init[i], kind) by {
            assert(init[i] == events[i]);
        }
        lemma_none_of(init, kind);
        assert(events.last() == events[events.len() - 1]);
        assert forall|place: nat| #[trigger]
            put_together(events, kind, place) == Seq::<char>::empty() by {
            assert(put_together(init, kind, place) == Seq::<char>::empty());
        }
    }
}

proof fn lemma_put_more(a: Seq<JsonView>, b: Seq<JsonView>, kind: Seq<char>)
    ensures
        put_all_together(a + b, kind) == put_all_together(a, kind) + put_all_together(b, kind),
        forall|place: nat| #[trigger]
            put_together(a + b, kind, place) == put_together(a, kind, place) + put_together(
                b,
                kind,
                place,
            ),
    decreases b.len(),
{
    if b.len() == 0 {
        assert(a + b =~= a);
        assert(put_all_together(a, kind) + Seq::empty() =~= put_all_together(a, kind));
        assert forall|place: nat| #[trigger]
            put_together(a + b, kind, place) == put_together(a, kind, place) + put_together(
                b,
                kind,
                place,
            ) by {
            assert(put_together(a, kind, place) + Seq::empty() =~= put_together(a, kind, place));
        }
    } else {
        let init = b.drop_last();
        lemma_put_more(a, init, kind);
        assert((a + b).drop_last() =~= a + init);
        assert((a + b).last() == b.last());
        assert(put_all_together(a + b, kind) =~= put_all_together(a, kind) + put_all_together(
            b,
            kind,
        ));
        assert forall|place: nat| #[trigger]
            put_together(a + b, kind, place) == put_together(a, kind, place) + put_together(
                b,
                kind,
                place,
            ) by {
            assert(put_together(a + init, kind, place) == put_together(a, kind, place)
                + put_together(init, kind, place));
            assert(put_together(a + b, kind, place) =~= put_together(a, kind, place)
                + put_together(b, kind, place));
        }
    }
}

/// The events tell of each tool call the arguments that the emitter holds of it, and nothing
/// of items that are still to come.
pub open spec fn tell_arguments(e: EmitterView, events: Seq<JsonView>) -> bool {
    &&& forall|k: int|
        0 <= k < e.tool_call_items.len() ==> put_together(
            events,
            "response.function_call_arguments.delta"@,
            (#[trigger] e.tool_call_items[k]).output_index as nat,
        ) == e.tool_call_items[k].arguments
    &&& forall|place: nat|
        place >= e.next_output_index ==> #[trigger] put_together(
            events,
            "response.function_call_arguments.delta"@,
            place,
        ) == Seq::<char>::empty()
}

proof fn lemma_quiet_step(before: EmitterView, events: Seq<JsonView>, after: EmitterView, more: Seq<JsonView>)
    requires
        tell_arguments(before, events),
        none_of(more, "response.function_call_arguments.delta"@),
        after.tool_call_items == before.tool_call_items,
        after.next_output_index >= before.next_output_index,
    ensures
        tell_arguments(after, events + more),
{
    let kind = "response.function_call_arguments.delta"@;
    lemma_none_of(more, kind);
    lemma_put_more(events, more, kind);
    assert forall|place: nat| #[trigger]
        put_together(events + more, kind, place) == put_together(events, kind, place) by {
        assert(put_together(events, kind, place) + Seq::empty() =~= put_together(
            events,
            kind,
            place,
        ));
    }
}

proof fn lemma_delta_tells(
    e: EmitterView,
    d: ToolCallDelta,
    new_ids: Seq<Seq<char>>,
    events: Seq<JsonView>,
)
    requires
        call_laws::placed(e),
        e.tool_call_items.len() <= d.index ==> e.next_output_index + d.index + 1
            - e.tool_call_items.len() <= usize::MAX,
        tell_arguments(e, events),
    ensures
        ({
            let step = chunk_events::delta_step(e, d, new_ids);
            &&& tell_arguments(step.after, events + step.events)
            &&& none_of(step.events, "response.function_call_arguments.done"@)
            &&& none_of(step.events, "response.output_text.delta"@)
            &&& none_of(step.events, "response.output_text.done"@)
            &&& none_of(step.events, "response.content_part.done"@)
            &&& none_of(step.events, "response.output_item.done"@)
        }),
{
    reveal(chunk_events::delta_step);
    lemma_kinds();
    call_laws::lemma_grow_placed(e, d.index as nat, new_ids);
    let kind = "response.function_call_arguments.delta"@;
    let grown = chunk_events::grow(e, d.index as nat, new_ids);
    let step = chunk_events::delta_step(e, d, new_ids);
    let i = d.index as int;
    let said = chunk_events::delta_arguments(d);
    let own = grown.tool_call_items[i].output_index;
    let first = if d.id is Some {
        step.events.take(1)
    } else {
        Seq::empty()
    };
    assert(none_of(first, kind));
    lemma_none_of(first, kind);
    let rest = step.events.skip(first.len() as int);
    assert(step.events =~= first + rest);
    lemma_put_more(first, rest, kind);
    lemma_put_more(events, step.events, kind);
    assert forall|place: nat| #[trigger]
        put_together(step.events, kind, place) == (if place == own {
            said
        } else {
            Seq::empty()
        }) by {
        text::law_decimal_tells_numbers_apart(own as nat, place);
        if said.len() == 0 {
            assert(rest =~= Seq::empty());
            assert(said =~= Seq::empty());
        } else {
            assert(rest.len() == 1);
            assert(is_kind(rest.last(), kind));
            assert(json::field(rest.last(), "delta"@) == Some(JsonView::Str(said)));
            assert(json::field(rest.last(), "output_index"@) == Some(
                emitter::num(own as nat),
            ));
            assert(rest.drop_last() =~= Seq::empty());
            assert(put_together(rest.drop_last(), kind, place) == Seq::<char>::empty());
            assert(Seq::<char>::empty() + said =~= said);
        }
        assert(Seq::<char>::empty() + put_together(rest, kind, place) =~= put_together(
            rest,
            kind,
            place,
        ));
    }
    let all = events + step.events;
    assert forall|k: int| 0 <= k < step.after.tool_call_items.len() implies put_together(
        all,
        kind,
        (#[trigger] step.after.tool_call_items[k]).output_index as nat,
    ) == step.after.tool_call_items[k].arguments by {
        let call = grown.tool_call_items[k];
        let place = call.output_index as nat;
        assert(step.after.tool_call_items[k].output_index == call.output_index);
        if k < e.tool_call_items.len() {
            assert(call == e.tool_call_items[k]);
            assert(put_together(events, kind, place) == call.arguments);
        } else {
            call_laws::lemma_grow_new(e, d.index as nat, new_ids, k);
            assert(put_together(events, kind, place) == Seq::<char>::empty());
        }
        assert(put_together(step.events, kind, place) == (if k == i {
            said
        } else {
            Seq::empty()
        }));
        assert(call.arguments + Seq::empty() =~= call.arguments);
        assert(put_together(all, kind, place) =~= step.after.tool_call_items[k].arguments);
    }
    assert forall|place: nat| place >= step.after.next_output_index implies #[trigger] put_together(
        all,
        kind,
        place,
    ) == Seq::<char>::empty() by {
        assert(own < grown.next_output_index);
        assert(put_together(events, kind, place) == Seq::<char>::empty());
        assert(put_together(step.events, kind, place) == Seq::<char>::empty());
        assert(Seq::<char>::empty() + Seq::<char>::empty() =~= Seq::<char>::empty());
    }
}

/// Nothing but tool calls is told of.
pub open spec fn only_starts_calls(events: Seq<JsonView>) -> bool {
    &&& none_of(events, "response.function_call_arguments.done"@)
    &&& none_of(events, "response.output_text.delta"@)
    &&& none_of(events, "response.output_text.done"@)
    &&& none_of(events, "response.content_part.done"@)
    &&& none_of(events, "response.output_item.done"@)
}

proof fn lemma_none_of_both(a: Seq<JsonView>, b: Seq<JsonView>, kind: Seq<char>)
    requires
        none_of(a, kind),
        none_of(b, kind),
    ensures
        none_of(a + b, kind),
{
    assert forall|i: int| 0 <= i < (a + b).len() implies !is_kind(#[trigger] (a + b)[i], kind) by {
        if i < a.len() {
            assert((a + b)[i] == a[i]);
        } else {
            assert((a + b)[i] == b[i - a.len()]);
        }
    }
}

proof fn lemma_deltas_tell(
    e: EmitterView,
    deltas: Seq<ToolCallDelta>,
    new_ids: Seq<Seq<char>>,
    events: Seq<JsonView>,
)
    requires
        call_laws::placed(e),
        e.next_output_index + chunk_events::grown(e.tool_call_items.len(), deltas)
            - e.tool_call_items.len() <= usize::MAX,
        tell_arguments(e, events),
    ensures
        ({
            let step = chunk_events::deltas_step(e, deltas, new_ids);
            &&& call_laws::placed(step.after)
            &&& step.after.next_output_index - e.next_output_index
                == step.after.tool_call_items.len() - e.tool_call_items.len()
            &&& tell_arguments(step.after, events + step.events)
            &&& only_starts_calls(step.events)
        }),
    decreases deltas.len(),
{
    if deltas.len() == 0 {
        assert(events + Seq::<JsonView>::empty() =~= events);
    } else {
        let init = deltas.drop_last();
        lemma_deltas_tell(e, init, new_ids, events);
        event_laws::lemma_deltas_grow(e, init, new_ids);
        let before = chunk_events::deltas_step(e, init, new_ids);
        let last = chunk_events::delta_step(before.after, deltas.last(), new_ids);
        lemma_delta_tells(before.after, deltas.last(), new_ids, events + before.events);
        call_laws::lemma_delta_placed(before.after, deltas.last(), new_ids);
        assert((events + before.events) + last.events =~= events + (before.events + last.events));
        lemma_none_of_both(
            before.events,
            last.events,
            "response.function_call_arguments.done"@,
        );
        lemma_none_of_both(before.events, last.events, "response.output_text.delta"@);
        lemma_none_of_both(before.events, last.events, "response.output_text.done"@);
        lemma_none_of_both(before.events, last.events, "response.content_part.done"@);
        lemma_none_of_both(before.events, last.events, "response.output_item.done"@);
    }
}

/// An event that repeats what was streamed in full repeats what the events before it brought:
/// the arguments of its tool call, or the text of the message.
pub open spec fn repeats_rightly(event: JsonView, before: Seq<JsonView>) -> bool {
    let said = put_all_together(before, "response.output_text.delta"@);
    &&& is_kind(event, "response.function_call_arguments.done"@) ==> forall|place: nat| #[trigger]
        is_about(event, place) ==> json::field(event, "arguments"@) == Some(
            JsonView::Str(
                put_together(before, "response.function_call_arguments.delta"@, place),
            ),
        )
    &&& is_kind(event, "response.output_text.done"@) ==> json::field(event, "text"@) == Some(
        JsonView::Str(said),
    )
    &&& is_kind(event, "response.content_part.done"@) ==> is_text_of(
        json::field(event, "part"@),
        said,
    )
    &&& is_kind(event, "response.output_item.done"@) ==> {
        let item = json::field(event, "item"@);
        &&& item is Some
        &&& is_kind(item->0, "message"@) || is_kind(item->0, "function_call"@)
        &&& is_kind(item->0, "message"@) ==> (json::field(item->0, "content"@) matches Some(
            JsonView::Array(parts),
        ) && parts.len() == 1 && is_text_of(Some(parts[0]), said))
        &&& is_kind(item->0, "function_call"@) ==> forall|place: nat| #[trigger]
            is_about(event, place) ==> json::field(item->0, "arguments"@) == Some(
                JsonView::Str(
                    put_together(before, "response.function_call_arguments.delta"@, place),
                ),
            )
    }
}

/// Whether this is a text part that says this.
pub open spec fn is_text_of(part: Option<JsonView>, said: Seq<char>) -> bool {
    part matches Some(p) && is_kind(p, "text"@) && json::field(p, "text"@) == Some(
        JsonView::Str(said),
    )
}

/// Each of the events that follow others repeats rightly.
pub open spec fn all_repeat_rightly(before: Seq<JsonView>, events: Seq<JsonView>) -> bool {
    forall|i: int|
        0 <= i < events.len() ==> repeats_rightly(#[trigger] events[i], before + events.take(i))
}

proof fn lemma_repeat_more(before: Seq<JsonView>, first: Seq<JsonView>, second: Seq<JsonView>)
    requires
        all_repeat_rightly(before, first),
        all_repeat_rightly(before + first, second),
    ensures
        all_repeat_rightly(before, first + second),
{
    let all = first + second;
    assert forall|i: int| 0 <= i < all.len() implies repeats_rightly(
        #[trigger] all[i],
        before + all.take(i),
    ) by {
        if i < first.len() {
            assert(all[i] == first[i]);
            assert(all.take(i) =~= first.take(i));
        } else {
            let j = i - first.len();
            assert(all[i] == second[j]);
            assert(before + all.take(i) =~= (before + first) + second.take(j));
        }
    }
}

proof fn lemma_nothing_repeated(before: Seq<JsonView>, events: Seq<JsonView>)
    requires
        none_of(events, "response.function_call_arguments.done"@),
        none_of(events, "response.output_text.done"@),
        none_of(events, "response.content_part.done"@),
        none_of(events, "response.output_item.done"@),
    ensures
        all_repeat_rightly(before, events),
{
}

proof fn lemma_item_names()
    ensures
        "type"@ != "id"@,
        "type"@ != "role"@,
        "type"@ != "content"@,
        "type"@ != "call_id"@,
        "type"@ != "name"@,
        "type"@ != "arguments"@,
        "type"@ != "status"@,
        "arguments"@ != "status"@,
        "name"@ != "arguments"@,
        "name"@ != "status"@,
        "message"@ != "function_call"@,
        "call_id"@ != "name"@,
        "call_id"@ != "arguments"@,
        "call_id"@ != "status"@,
        "id"@ != "call_id"@,
        "id"@ != "name"@,
        "id"@ != "arguments"@,
        "id"@ != "status"@,
        "id"@ != "role"@,
        "id"@ != "content"@,
{
    reveal_strlit("type");
    reveal_strlit("id");
    reveal_strlit("role");
    reveal_strlit("content");
    reveal_strlit("call_id");
    reveal_strlit("name");
    reveal_strlit("arguments");
    reveal_strlit("status");
    reveal_strlit("message");
    reveal_strlit("function_call");
    assert("type"@[0] != "role"@[0]);
    assert("type"@[0] != "name"@[0]);
    assert("type"@.len() != "id"@.len());
    assert("type"@.len() != "content"@.len());
    assert("type"@.len() != "call_id"@.len());
    assert("type"@.len() != "arguments"@.len());
    assert("type"@.len() != "status"@.len());
    assert("arguments"@.len() != "status"@.len());
    assert("name"@.len() != "arguments"@.len());
    assert("name"@.len() != "status"@.len());
    assert("message"@.len() != "function_call"@.len());
    assert("call_id"@.len() != "name"@.len());
    assert("call_id"@.len() != "arguments"@.len());
    assert("call_id"@.len() != "status"@.len());
    assert("id"@.len() != "call_id"@.len());
    assert("id"@.len() != "name"@.len());
    assert("id"@.len() != "arguments"@.len());
    assert("id"@.len() != "status"@.len());
    assert("id"@.len() != "role"@.len());
    assert("id"@.len() != "content"@.len());
}

proof fn lemma_content_tells(
    e: EmitterView,
    content: Seq<char>,
    new_id: Seq<char>,
    events: Seq<JsonView>,
)
    requires
        put_all_together(events, "response.output_text.delta"@) == e.accumulated_text,
    ensures
        ({
            let step = chunk_events::content_step(e, content, new_id);
            &&& put_all_together(events + step.events, "response.output_text.delta"@)
                == step.after.accumulated_text
            &&& step.after.accumulated_text == e.accumulated_text + content
            &&& step.after.tool_call_items == e.tool_call_items
            &&& none_of(step.events, "response.function_call_arguments.delta"@)
            &&& none_of(step.events, "response.function_call_arguments.done"@)
            &&& none_of(step.events, "response.output_text.done"@)
            &&& none_of(step.events, "response.content_part.done"@)
            &&& none_of(step.events, "response.output_item.done"@)
        }),
{
    reveal(chunk_events::content_step);
    lemma_kinds();
    let kind = "response.output_text.delta"@;
    let step = chunk_events::content_step(e, content, new_id);
    lemma_put_more(events, step.events, kind);
    if content.len() == 0 {
        assert(e.accumulated_text + content =~= e.accumulated_text);
        assert(put_all_together(step.events, kind) =~= Seq::empty());
        assert(e.accumulated_text + Seq::empty() =~= e.accumulated_text);
    } else {
        let first = step.events.drop_last();
        assert(step.events =~= first + seq![step.events.last()]);
        assert(none_of(first, kind));
        lemma_none_of(first, kind);
        assert(is_kind(step.events.last(), kind));
        assert(json::field(step.events.last(), "delta"@) == Some(JsonView::Str(content)));
        assert(put_all_together(step.events, kind) =~= content);
    }
}

proof fn lemma_calls_done_repeat(e: EmitterView, calls: Seq<ToolCallItemView>)
    ensures
        ({
            let events = chunk_events::calls_done_step(e, calls).events;
            &&& none_of(events, "response.function_call_arguments.delta"@)
            &&& none_of(events, "response.output_text.delta"@)
            &&& none_of(events, "response.output_text.done"@)
            &&& none_of(events, "response.content_part.done"@)
            &&& forall|i: int| 0 <= i < events.len() ==> ends_one_of(#[trigger] events[i], calls)
        }),
    decreases calls.len(),
{
    lemma_kinds();
    lemma_item_names();
    if calls.len() > 0 {
        let init = calls.drop_last();
        lemma_calls_done_repeat(e, init);
        let before = chunk_events::calls_done_step(e, init).events;
        let events = chunk_events::calls_done_step(e, calls).events;
        let call = calls.last();
        let n = before.len() as int;
        let more = seq![events[n], events[n + 1]];
        assert(events =~= before + more);
        lemma_none_of_both(before, more, "response.function_call_arguments.delta"@);
        lemma_none_of_both(before, more, "response.output_text.delta"@);
        lemma_none_of_both(before, more, "response.output_text.done"@);
        lemma_none_of_both(before, more, "response.content_part.done"@);
        assert forall|i: int| 0 <= i < events.len() implies ends_one_of(
            #[trigger] events[i],
            calls,
        ) by {
            if i < n {
                assert(events[i] == before[i]);
                let k = choose|k: int| #![trigger init[k]] 0 <= k < init.len() && ends(events[i], init[k]);
                assert(calls[k] == init[k]);
            } else {
                assert(calls[calls.len() - 1] == call);
                assert(ends(events[i], call));
            }
        }
    }
}

/// Whether an event ends this tool call: it repeats its arguments.
pub open spec fn ends(event: JsonView, call: ToolCallItemView) -> bool {
    &&& is_about(event, call.output_index as nat)
    &&& is_kind(event, "response.function_call_arguments.done"@) ==> json::field(
        event,
        "arguments"@,
    ) == Some(JsonView::Str(call.arguments))
    &&& is_kind(event, "response.output_item.done"@) ==> {
        let item = json::field(event, "item"@);
        &&& item is Some
        &&& is_kind(item->0, "function_call"@)
        &&& !is_kind(item->0, "message"@)
        &&& json::field(item->0, "name"@) == Some(JsonView::Str(call.name))
        &&& json::field(item->0, "arguments"@) == Some(JsonView::Str(call.arguments))
    }
}

pub open spec fn ends_one_of(event: JsonView, calls: Seq<ToolCallItemView>) -> bool {
    exists|k: int| #![trigger calls[k]] 0 <= k < calls.len() && ends(event, calls[k])
}

proof fn lemma_finish_repeats(
    e: EmitterView,
    reason: Option<Seq<char>>,
    before: Seq<JsonView>,
)
    requires
        tell_arguments(e, before),
        put_all_together(before, "response.output_text.delta"@) == e.accumulated_text,
    ensures
        ({
            let events = chunk_events::finish_step(e, reason).events;
            &&& none_of(events, "response.function_call_arguments.delta"@)
            &&& none_of(events, "response.output_text.delta"@)
            &&& all_repeat_rightly(before, events)
        }),
{
    lemma_kinds();
    lemma_item_names();
    reveal(chunk_events::message_done_step);
    let step = chunk_events::finish_step(e, reason);
    let events = step.events;
    let calls_kind = "response.function_call_arguments.delta"@;
    let text_kind = "response.output_text.delta"@;
    if reason == Some("tool_calls"@) {
        lemma_calls_done_repeat(e, e.tool_call_items);
    }
    assert forall|i: int| 0 <= i < events.len() implies repeats_rightly(
        #[trigger] events[i],
        before + events.take(i),
    ) by {
        let head = events.take(i);
        assert(none_of(head, calls_kind)) by {
            assert forall|j: int| 0 <= j < head.len() implies !is_kind(
                #[trigger] head[j],
                calls_kind,
            ) by {
                assert(head[j] == events[j]);
            }
        }
        assert(none_of(head, text_kind)) by {
            assert forall|j: int| 0 <= j < head.len() implies !is_kind(
                #[trigger] head[j],
                text_kind,
            ) by {
                assert(head[j] == events[j]);
            }
        }
        lemma_none_of(head, calls_kind);
        lemma_none_of(head, text_kind);
        lemma_put_more(before, head, calls_kind);
        lemma_put_more(before, head, text_kind);
        assert(put_all_together(before + head, text_kind) =~= e.accumulated_text);
        if reason == Some("tool_calls"@) {
            let calls = e.tool_call_items;
            let k = choose|k: int| #![trigger calls[k]] 0 <= k < calls.len() && ends(events[i], calls[k]);
            let own = calls[k].output_index as nat;
            assert(put_together(before, calls_kind, own) == calls[k].arguments);
            assert(put_together(before + head, calls_kind, own) =~= calls[k].arguments);
            assert forall|place: nat| #[trigger] is_about(events[i], place) implies place == own by {
                text::law_decimal_tells_numbers_apart(own, place);
            }
        } else if chunk_events::ends_message(reason) {
            let part = emitter::text_part(e.accumulated_text);
            assert(is_text_of(Some(part), e.accumulated_text));
            assert(seq![part][0] == part);
        }
    }
}

proof fn lemma_chunk_tells(e: EmitterView, last: ToldChunk, before: Seq<JsonView>)
    requires
        chunk_events::can_process(e, last.chunk),
        call_laws::placed(e),
        tell_arguments(e, before),
        put_all_together(before, "response.output_text.delta"@) == e.accumulated_text,
    ensures
        ({
            let step = chunk_events::chunk_step(e, last.chunk, last.new_id, last.new_ids);
            let all = before + step.events;
            &&& call_laws::placed(step.after)
            &&& tell_arguments(step.after, all)
            &&& put_all_together(all, "response.output_text.delta"@) == step.after.accumulated_text
            &&& step.after.accumulated_text == e.accumulated_text + said_in(last.chunk)
            &&& all_repeat_rightly(before, step.events)
        }),
{
    let content = chunk_events::chunk_content(last.chunk);
    let deltas = chunk_events::chunk_deltas(last.chunk);
    let reason = chunk_events::chunk_finish(last.chunk);
    let text_kind = "response.output_text.delta"@;
    let calls_kind = "response.function_call_arguments.delta"@;
    assert(content =~= said_in(last.chunk));
    let first = chunk_events::content_step(e, content, last.new_id);
    lemma_content_tells(e, content, last.new_id, before);
    event_laws::law_output_indices_are_distinct(e, last.chunk, last.new_id, last.new_ids);
    assert(call_laws::placed(first.after) && first.after.next_output_index
        >= e.next_output_index && first.after.next_output_index <= e.next_output_index + 1) by {
        reveal(chunk_events::content_step);
    }
    lemma_quiet_step(e, before, first.after, first.events);
    lemma_nothing_repeated(before, first.events);
    let one = before + first.events;
    let second = chunk_events::deltas_step(first.after, deltas, last.new_ids);
    lemma_deltas_tell(first.after, deltas, last.new_ids, one);
    event_laws::lemma_deltas_keep_text(first.after, deltas, last.new_ids);
    lemma_nothing_repeated(one, second.events);
    lemma_none_of(second.events, text_kind);
    lemma_put_more(one, second.events, text_kind);
    let two = one + second.events;
    assert(put_all_together(two, text_kind) =~= second.after.accumulated_text);
    let third = chunk_events::finish_step(second.after, reason);
    lemma_finish_repeats(second.after, reason, two);
    assert(call_laws::placed(third.after) && third.after.tool_call_items
        == second.after.tool_call_items && third.after.next_output_index
        == second.after.next_output_index && third.after.accumulated_text
        == second.after.accumulated_text) by {
        reveal(chunk_events::message_done_step);
        call_laws::lemma_calls_done_keeps_calls(second.after, second.after.tool_call_items);
        event_laws::lemma_calls_done_keep_text(second.after, second.after.tool_call_items);
    }
    lemma_quiet_step(second.after, two, third.after, third.events);
    lemma_none_of(third.events, text_kind);
    lemma_put_more(two, third.events, text_kind);
    assert(put_all_together(two + third.events, text_kind) =~= third.after.accumulated_text);
    let step = chunk_events::chunk_step(e, last.chunk, last.new_id, last.new_ids);
    assert(step.events =~= (first.events + second.events) + third.events);
    assert(two + third.events =~= before + step.events);
    lemma_repeat_more(before, first.events, second.events);
    assert(before + (first.events + second.events) =~= two);
    lemma_repeat_more(before, first.events + second.events, third.events);
}

proof fn lemma_stream_tells(fresh: EmitterView, told: Seq<ToldChunk>)
    requires
        event_laws::can_stream(fresh, told),
        event_laws::indexed(fresh),
        fresh.tool_call_items.len() == 0,
        fresh.accumulated_text.len() == 0,
    ensures
        ({
            let step = event_laws::stream_step(fresh, told);
            &&& call_laws::placed(step.after)
            &&& tell_arguments(step.after, step.events)
            &&& put_all_together(step.events, "response.output_text.delta"@)
                == step.after.accumulated_text
            &&& step.after.accumulated_text == text_of(told)
            &&& all_repeat_rightly(Seq::empty(), step.events)
        }),
    decreases told.len(),
{
    let step = event_laws::stream_step(fresh, told);
    if told.len() == 0 {
        assert(fresh.accumulated_text =~= Seq::empty());
    } else {
        lemma_stream_tells(fresh, told.drop_last());
        let before = event_laws::stream_step(fresh, told.drop_last());
        let last = told.last();
        lemma_chunk_tells(before.after, last, before.events);
        let more = chunk_events::chunk_step(
            before.after,
            last.chunk,
            last.new_id,
            last.new_ids,
        ).events;
        assert(Seq::<JsonView>::empty() + before.events =~= before.events);
        lemma_repeat_more(Seq::empty(), before.events, more);
    }
}

proof fn lemma_same_deltas(told: Seq<ToldChunk>)
    ensures
        accumulator::all_deltas(event_laws::chunks_of(told)) == deltas_of(told),
    decreases told.len(),
{
    let chunks = event_laws::chunks_of(told);
    if told.len() > 0 {
        lemma_same_deltas(told.drop_last());
        assert(chunks.drop_last() =~= event_laws::chunks_of(told.drop_last()));
        assert(chunk_events::chunk_deltas(chunks.last()) =~= deltas_in(told.last().chunk));
    }
}

proof fn lemma_same_words(deltas: Seq<ToolCallDelta>, call: int)
    ensures
        accumulator::call_arguments_said(deltas, call) == arguments_of(deltas, call),
        accumulator::call_name_said(deltas, call) == name_of(deltas, call),
    decreases deltas.len(),
{
    if deltas.len() > 0 {
        lemma_same_words(deltas.drop_last(), call);
        assert(arguments_of(deltas.drop_last(), call) + Seq::empty() =~= arguments_of(
            deltas.drop_last(),
            call,
        ));
        assert(name_of(deltas.drop_last(), call) + Seq::empty() =~= name_of(
            deltas.drop_last(),
            call,
        ));
    }
}

/// Whatever chunks come, the deltas of the `response.function_call_arguments.delta` events of
/// a tool call, put together in their order, are the arguments of all its deltas. The calls
/// are those that deltas were of, each at an output item of its own.
pub proof fn law_argument_deltas_put_together(fresh: EmitterView, told: Seq<ToldChunk>)
    requires
        event_laws::can_stream(fresh, told),
        event_laws::indexed(fresh),
        fresh.tool_call_items.len() == 0,
        fresh.accumulated_text.len() == 0,
    ensures
        ({
            let step = event_laws::stream_step(fresh, told);
            let calls = step.after.tool_call_items;
            &&& forall|i: int|
                0 <= i < deltas_of(told).len() ==> (#[trigger] deltas_of(told)[i]).index
                    < calls.len()
            &&& forall|k: int|
                0 <= k < calls.len() ==> {
                    &&& (#[trigger] calls[k]).arguments == arguments_of(deltas_of(told), k)
                    &&& calls[k].name == name_of(deltas_of(told), k)
                    &&& put_together(
                        step.events,
                        "response.function_call_arguments.delta"@,
                        calls[k].output_index as nat,
                    ) == arguments_of(deltas_of(told), k)
                }
            &&& forall|k: int, l: int|
                0 <= k < l < calls.len() ==> (#[trigger] calls[k]).output_index != (
                #[trigger] calls[l]).output_index
        }),
{
    lemma_stream_tells(fresh, told);
    call_laws::law_streamed_calls_are_kept_in_full(fresh, told);
    lemma_same_deltas(told);
    let calls = event_laws::stream_step(fresh, told).after.tool_call_items;
    assert forall|k: int| 0 <= k < calls.len() implies (#[trigger] calls[k]).arguments
        == arguments_of(deltas_of(told), k) && calls[k].name == name_of(deltas_of(told), k) by {
        lemma_same_words(deltas_of(told), k);
    }
}

/// Whatever chunks come, the deltas of the `response.output_text.delta` events, put together in
/// their order, are the text of all chunks.
pub proof fn law_text_deltas_put_together(fresh: EmitterView, told: Seq<ToldChunk>)
    requires
        event_laws::can_stream(fresh, told),
        event_laws::indexed(fresh),
        fresh.tool_call_items.len() == 0,
        fresh.accumulated_text.len() == 0,
    ensures
        put_all_together(
            event_laws::stream_step(fresh, told).events,
            "response.output_text.delta"@,
        ) == text_of(told),
{
    lemma_stream_tells(fresh, told);
}

/// Whatever chunks come, an event that repeats arguments or text in full repeats exactly what
/// the delta events before it brought, put together in their order.
pub proof fn law_done_events_repeat_the_deltas(fresh: EmitterView, told: Seq<ToldChunk>, i: int)
    requires
        event_laws::can_stream(fresh, told),
        event_laws::indexed(fresh),
        fresh.tool_call_items.len() == 0,
        fresh.accumulated_text.len() == 0,
        0 <= i < event_laws::stream_step(fresh, told).events.len(),
    ensures
        ({
            let events = event_laws::stream_step(fresh, told).events;
            repeats_rightly(events[i], events.take(i))
        }),
{
    lemma_stream_tells(fresh, told);
    let events = event_laws::stream_step(fresh, told).events;
    assert(Seq::<JsonView>::empty() + events.take(i) =~= events.take(i));
    assert(repeats_rightly(events[i], Seq::<JsonView>::empty() + events.take(i)));
}

} // verus!
