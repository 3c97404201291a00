//! What a client reads in each event of a streamed response.

use vstd::prelude::*;

use super::chunk_events;
use super::emitter;
use super::emitter::EmitterView;
use super::emitter::ItemStatus;
use super::emitter::OutputItemStateView;
use super::streaming;
use crate::json;
use crate::json::JsonView;
use crate::protocols::common::Usage;
use crate::protocols::responses::ResponsesRequestView;
use crate::text;

verus! {

/// Whether this field holds this text.
pub open spec fn says(v: JsonView, name: Seq<char>, said: Seq<char>) -> bool {
    json::field(v, name) == Some(JsonView::Str(said))
}

/// Whether this field holds this number.
pub open spec fn counts(v: JsonView, name: Seq<char>, n: nat) -> bool {
    json::field(v, name) == Some(JsonView::Number(text::decimal(n)))
}

/// Whether an object has no field of this name.
pub open spec fn lacks(v: JsonView, name: Seq<char>) -> bool {
    json::field(v, name) is None
}

/// Whether this is an event of this type with this number.
pub open spec fn is_event(event: JsonView, kind: Seq<char>, number: u64) -> bool {
    &&& says(event, "type"@, kind)
    &&& counts(event, "sequence_number"@, number as nat)
}

/// Whether an event is about this content part.
pub open spec fn is_about_part(
    event: JsonView,
    output_index: usize,
    item_id: Seq<char>,
    content_index: usize,
) -> bool {
    &&& counts(event, "output_index"@, output_index as nat)
    &&& says(event, "item_id"@, item_id)
    &&& counts(event, "content_index"@, content_index as nat)
}

/// Whether this is a text part that says this.
pub open spec fn is_part(part: JsonView, said: Seq<char>) -> bool {
    &&& says(part, "type"@, "text"@)
    &&& says(part, "text"@, said)
}

proof fn lemma_event_fields()
    ensures
        "type"@.len() == 4,
        "text"@.len() == 4,
        "type"@[1] != "text"@[1],
        "sequence_number"@.len() == 15,
        "output_index"@.len() == 12,
        "item_id"@.len() == 7,
        "content_index"@.len() == 13,
        "part"@.len() == 4,
        "part"@[0] != "type"@[0],
        "delta"@.len() == 5,
        "arguments"@.len() == 9,
        "item"@.len() == 4,
        "item"@[0] != "type"@[0],
        "response"@.len() == 8,
        ""@.len() == 0,
{
    reveal_strlit("type");
    reveal_strlit("text");
    reveal_strlit("sequence_number");
    reveal_strlit("output_index");
    reveal_strlit("item_id");
    reveal_strlit("content_index");
    reveal_strlit("part");
    reveal_strlit("delta");
    reveal_strlit("arguments");
    reveal_strlit("item");
    reveal_strlit("response");
    reveal_strlit("");
}

/// The events about the text of a message carry its item, its part and the text: nothing
/// when the part is announced, what is added when more comes, all of it when it is done.
pub proof fn law_text_events_are_read(
    e: EmitterView,
    more: Seq<char>,
    output_index: usize,
    item_id: Seq<char>,
    content_index: usize,
)
    ensures
        ({
            let added = emitter::content_part_added_event(e, output_index, item_id, content_index);
            let delta = emitter::text_delta_event(e, more, output_index, item_id, content_index);
            let done = emitter::text_done_event(e, output_index, item_id, content_index);
            let closed = emitter::content_part_done_event(e, output_index, item_id, content_index);
            &&& is_event(added, "response.content_part.added"@, e.sequence_number)
            &&& is_about_part(added, output_index, item_id, content_index)
            &&& json::field(added, "part"@) matches Some(p)
            &&& is_part(p, Seq::empty())
            &&& is_event(delta, "response.output_text.delta"@, e.sequence_number)
            &&& is_about_part(delta, output_index, item_id, content_index)
            &&& says(delta, "delta"@, more)
            &&& is_event(done, "response.output_text.done"@, e.sequence_number)
            &&& is_about_part(done, output_index, item_id, content_index)
            &&& says(done, "text"@, e.accumulated_text)
            &&& is_event(closed, "response.content_part.done"@, e.sequence_number)
            &&& is_about_part(closed, output_index, item_id, content_index)
            &&& json::field(closed, "part"@) matches Some(q)
            &&& is_part(q, e.accumulated_text)
        }),
{
    lemma_event_fields();
    assert(""@ =~= Seq::<char>::empty());
}

/// The events about the arguments of a call carry its item and what is added, or all of them.
pub proof fn law_argument_events_are_read(
    e: EmitterView,
    output_index: usize,
    item_id: Seq<char>,
    said: Seq<char>,
)
    ensures
        ({
            let delta = emitter::arguments_event(
                "response.function_call_arguments.delta"@,
                e,
                output_index,
                item_id,
                "delta"@,
                said,
            );
            let done = emitter::arguments_event(
                "response.function_call_arguments.done"@,
                e,
                output_index,
                item_id,
                "arguments"@,
                said,
            );
            &&& is_event(delta, "response.function_call_arguments.delta"@, e.sequence_number)
            &&& counts(delta, "output_index"@, output_index as nat)
            &&& says(delta, "item_id"@, item_id)
            &&& says(delta, "delta"@, said)
            &&& is_event(done, "response.function_call_arguments.done"@, e.sequence_number)
            &&& counts(done, "output_index"@, output_index as nat)
            &&& says(done, "item_id"@, item_id)
            &&& says(done, "arguments"@, said)
        }),
{
    lemma_event_fields();
}

/// The events about an item carry its place and the item itself.
pub proof fn law_item_events_are_read(
    kind: Seq<char>,
    e: EmitterView,
    output_index: usize,
    item: JsonView,
)
    ensures
        ({
            let event = emitter::output_item_event(kind, e, output_index, item);
            &&& is_event(event, kind, e.sequence_number)
            &&& counts(event, "output_index"@, output_index as nat)
            &&& json::field(event, "item"@) == Some(item)
        }),
{
    lemma_event_fields();
}

proof fn lemma_response_fields()
    ensures
        "id"@.len() == 2,
        "role"@.len() == 4,
        "type"@.len() == 4,
        "user"@.len() == 4,
        "role"@[0] == 'r',
        "type"@[0] == 't',
        "user"@[0] == 'u',
        "tools"@.len() == 5,
        "model"@.len() == 5,
        "store"@.len() == 5,
        "usage"@.len() == 5,
        "top_p"@.len() == 5,
        "tools"@[0] == 't',
        "model"@[0] == 'm',
        "store"@[0] == 's',
        "usage"@[0] == 'u',
        "top_p"@[0] == 't',
        "tools"@[2] == 'o',
        "top_p"@[2] == 'p',
        "object"@.len() == 6,
        "status"@.len() == 6,
        "output"@.len() == 6,
        "object"@[1] == 'b',
        "status"@[1] == 't',
        "output"@[1] == 'u',
        "content"@.len() == 7,
        "metadata"@.len() == 8,
        "reasoning"@.len() == 9,
        "truncation"@.len() == 10,
        "created_at"@.len() == 10,
        "truncation"@[0] == 't',
        "created_at"@[0] == 'c',
        "temperature"@.len() == 11,
        "tool_choice"@.len() == 11,
        "temperature"@[1] == 'e',
        "tool_choice"@[1] == 'o',
        "instructions"@.len() == 12,
        "max_tool_calls"@.len() == 14,
        "max_output_tokens"@.len() == 17,
        "parallel_tool_calls"@.len() == 19,
        "previous_response_id"@.len() == 20,
{
    reveal_strlit("id");
    reveal_strlit("role");
    reveal_strlit("type");
    reveal_strlit("user");
    reveal_strlit("tools");
    reveal_strlit("model");
    reveal_strlit("store");
    reveal_strlit("usage");
    reveal_strlit("top_p");
    reveal_strlit("object");
    reveal_strlit("status");
    reveal_strlit("output");
    reveal_strlit("content");
    reveal_strlit("metadata");
    reveal_strlit("reasoning");
    reveal_strlit("truncation");
    reveal_strlit("created_at");
    reveal_strlit("temperature");
    reveal_strlit("tool_choice");
    reveal_strlit("instructions");
    reveal_strlit("max_tool_calls");
    reveal_strlit("max_output_tokens");
    reveal_strlit("parallel_tool_calls");
    reveal_strlit("previous_response_id");
}

/// The events that announce a response name it and its model, with no output yet, and say
/// that it is in progress.
pub proof fn law_opening_events_are_read(e: EmitterView)
    ensures
        ({
            let created = emitter::created_event(e);
            let begun = emitter::in_progress_event(e);
            &&& is_event(created, "response.created"@, e.sequence_number)
            &&& json::field(created, "response"@) matches Some(r)
            &&& says(r, "id"@, e.response_id)
            &&& says(r, "object"@, "response"@)
            &&& counts(r, "created_at"@, e.created_at as nat)
            &&& says(r, "status"@, "in_progress"@)
            &&& says(r, "model"@, e.model)
            &&& json::field(r, "output"@) matches Some(JsonView::Array(none))
            &&& none.len() == 0
            &&& is_event(begun, "response.in_progress"@, e.sequence_number)
            &&& json::field(begun, "response"@) matches Some(s)
            &&& says(s, "id"@, e.response_id)
            &&& says(s, "object"@, "response"@)
            &&& says(s, "status"@, "in_progress"@)
        }),
{
    lemma_event_fields();
    lemma_response_fields();
}

/// The items that are completed and whose data is known.
pub open spec fn known(items: Seq<OutputItemStateView>) -> Seq<OutputItemStateView> {
    items.filter(
        |i: OutputItemStateView| i.status == ItemStatus::Completed && i.item_data is Some,
    )
}

/// Whether this is the data of these items, one for one.
pub open spec fn is_data_of(items: Seq<OutputItemStateView>, data: Seq<JsonView>) -> bool {
    &&& data.len() == items.len()
    &&& forall|i: int|
        0 <= i < data.len() ==> Some(#[trigger] data[i]) == items[i].item_data
}

proof fn lemma_known(items: Seq<OutputItemStateView>)
    ensures
        is_data_of(known(items), emitter::completed_items(items)),
    decreases items.len(),
{
    reveal(Seq::filter);
    if items.len() > 0 {
        lemma_known(items.drop_last());
    }
}

/// Whether this is a message of the assistant with this text.
pub open spec fn is_message(item: JsonView, id: Seq<char>, said: Seq<char>) -> bool {
    &&& says(item, "id"@, id)
    &&& says(item, "type"@, "message"@)
    &&& says(item, "role"@, "assistant"@)
    &&& json::field(item, "content"@) matches Some(JsonView::Array(parts))
    &&& parts.len() == 1
    &&& is_part(parts[0], said)
}

/// Whether a response repeats the settings of its request. Those that have a default are
/// always told, the others only where the request has them.
pub open spec fn repeats(r: JsonView, req: ResponsesRequestView) -> bool {
    &&& match req.instructions {
        Some(s) => says(r, "instructions"@, s),
        None => lacks(r, "instructions"@),
    }
    &&& match req.max_output_tokens {
        Some(n) => counts(r, "max_output_tokens"@, n as nat),
        None => lacks(r, "max_output_tokens"@),
    }
    &&& match req.max_tool_calls {
        Some(n) => counts(r, "max_tool_calls"@, n as nat),
        None => lacks(r, "max_tool_calls"@),
    }
    &&& match req.previous_response_id {
        Some(s) => says(r, "previous_response_id"@, s),
        None => lacks(r, "previous_response_id"@),
    }
    &&& json::field(r, "reasoning"@) == req.reasoning
    &&& match req.temperature {
        Some(t) => json::field(r, "temperature"@) == Some(t.json),
        None => lacks(r, "temperature"@),
    }
    &&& match req.top_p {
        Some(p) => json::field(r, "top_p"@) == Some(p.json),
        None => lacks(r, "top_p"@),
    }
    &&& json::field(r, "truncation"@) == req.truncation
    &&& match req.user {
        Some(s) => says(r, "user"@, s),
        None => lacks(r, "user"@),
    }
    &&& json::field(r, "parallel_tool_calls"@) == Some(
        JsonView::Bool(req.parallel_tool_calls != Some(false)),
    )
    &&& json::field(r, "store"@) == Some(JsonView::Bool(req.store != Some(false)))
    &&& match req.tools {
        Some(t) => json::field(r, "tools"@) == Some(t.json),
        None => json::field(r, "tools"@) matches Some(JsonView::Array(none)) && none.len() == 0,
    }
    &&& match req.metadata {
        Some(m) => json::field(r, "metadata"@) == Some(m),
        None => json::field(r, "metadata"@) matches Some(JsonView::Object(none))
            && none.dom() == Set::<Seq<char>>::empty(),
    }
    &&& match req.tool_choice {
        Some(c) => json::field(r, "tool_choice"@) == Some(c.json),
        None => says(r, "tool_choice"@, "auto"@),
    }
}

proof fn lemma_settings_repeated(
    fields: Map<Seq<char>, JsonView>,
    req: ResponsesRequestView,
    name: Seq<char>,
)
    requires
        name.len() == 2 || name.len() == 6 || name == "model"@ || name == "usage"@ || name
            == "created_at"@,
    ensures
        json::field(JsonView::Object(emitter::with_request(fields, req)), name) == json::field(
            JsonView::Object(fields),
            name,
        ),
{
    lemma_response_fields();
}

proof fn lemma_repeats(fields: Map<Seq<char>, JsonView>, req: ResponsesRequestView)
    requires
        forall|name: Seq<char>| #[trigger]
            fields.dom().contains(name) ==> name.len() == 2 || name.len() == 6 || name
                == "model"@ || name == "usage"@ || name == "created_at"@,
    ensures
        repeats(JsonView::Object(emitter::with_request(fields, req)), req),
{
    lemma_response_fields();
}

/// The event that completes a response holds the response: its identifier, its model, the
/// data of the items that are completed or, where there is none, one message with the whole
/// text, the token counts where they are known, and the settings of its request.
pub proof fn law_completion_is_read(e: EmitterView, usage: Option<JsonView>)
    ensures
        ({
            let event = emitter::completed_event(e, usage);
            &&& is_event(event, "response.completed"@, e.sequence_number)
            &&& json::field(event, "response"@) matches Some(r)
            &&& says(r, "id"@, e.response_id)
            &&& says(r, "object"@, "response"@)
            &&& counts(r, "created_at"@, e.created_at as nat)
            &&& says(r, "status"@, "completed"@)
            &&& says(r, "model"@, e.model)
            &&& json::field(r, "usage"@) == usage
            &&& json::field(r, "output"@) matches Some(JsonView::Array(out))
            &&& known(e.output_items).len() > 0 ==> is_data_of(known(e.output_items), out)
            &&& known(e.output_items).len() == 0 ==> out.len() == 1 && is_message(
                out[0],
                e.message_id,
                e.accumulated_text,
            )
            &&& e.original_request matches Some(req) ==> repeats(r, req)
        }),
{
    lemma_event_fields();
    lemma_response_fields();
    lemma_known(e.output_items);
    let base = emitter::completed_response(EmitterView { original_request: None, ..e }, usage);
    assert forall|name: Seq<char>| #[trigger] base.dom().contains(name) implies name.len() == 2
        || name.len() == 6 || name == "model"@ || name == "usage"@ || name == "created_at"@ by {}
    if let Some(req) = e.original_request {
        lemma_repeats(base, req);
        lemma_settings_repeated(base, req, "id"@);
        lemma_settings_repeated(base, req, "object"@);
        lemma_settings_repeated(base, req, "status"@);
        lemma_settings_repeated(base, req, "output"@);
        lemma_settings_repeated(base, req, "model"@);
        lemma_settings_repeated(base, req, "usage"@);
        lemma_settings_repeated(base, req, "created_at"@);
        assert(emitter::completed_response(e, usage) == emitter::with_request(base, req));
    } else {
        assert(emitter::completed_response(e, usage) == base);
    }
}

/// A frame names the type of its event and carries the event as JSON, and ends with an empty
/// line.
pub proof fn law_frame_carries_the_event(event: JsonView, kind: Seq<char>)
    requires
        says(event, "type"@, kind),
    ensures
        chunk_events::frame(event) == "event: "@ + kind + "\ndata: "@ + json::written(event)
            + "\n\n"@,
{
}

/// The token counts are told as they were counted.
pub proof fn law_usage_is_read(usage: Usage)
    ensures
        ({
            let v = streaming::usage_view(usage);
            &&& counts(v, "input_tokens"@, usage.prompt_tokens as nat)
            &&& counts(v, "output_tokens"@, usage.completion_tokens as nat)
            &&& counts(v, "total_tokens"@, usage.total_tokens as nat)
            &&& match usage.completion_tokens_details {
                Some(d) => match d.reasoning_tokens {
                    Some(n) => json::field(v, "output_tokens_details"@) matches Some(inner)
                        && counts(inner, "reasoning_tokens"@, n as nat),
                    None => lacks(v, "output_tokens_details"@),
                },
                None => lacks(v, "output_tokens_details"@),
            }
        }),
{
    reveal_strlit("input_tokens");
    reveal_strlit("output_tokens");
    reveal_strlit("total_tokens");
    reveal_strlit("output_tokens_details");
    assert("input_tokens"@.len() == 12);
    assert("output_tokens"@.len() == 13);
    assert("total_tokens"@.len() == 12);
    assert("output_tokens_details"@.len() == 21);
    assert("input_tokens"@[0] != "total_tokens"@[0]);
}

/// Whether this failure is what a frame tells.
pub open spec fn is_failure(v: JsonView, message: Seq<char>) -> bool {
    &&& json::field(v, "error"@) matches Some(inner)
    &&& says(inner, "message"@, message)
    &&& says(inner, "type"@, "stream_error"@)
}

/// A stream that failed tells what went wrong, in a frame of its own, and every stream ends
/// with the same last frame.
pub proof fn law_stream_is_closed(failure: Option<Seq<char>>)
    ensures
        streaming::closing(failure).last() == "data: [DONE]\n\n"@,
        failure is None ==> streaming::closing(failure).len() == 1,
        failure matches Some(message) ==> {
            &&& streaming::closing(failure).len() == 2
            &&& exists|v: JsonView|
                is_failure(v, message) && streaming::closing(failure)[0] == "data: "@
                    + #[trigger] json::written(v) + "\n\n"@
        },
{
    if let Some(message) = failure {
        reveal_strlit("message");
        reveal_strlit("type");
        assert("message"@.len() != "type"@.len());
        let v = JsonView::Object(
            Map::empty().insert(
                "error"@,
                JsonView::Object(
                    Map::empty().insert("message"@, emitter::str(message)).insert(
                        "type"@,
                        emitter::str("stream_error"@),
                    ),
                ),
            ),
        );
        assert(is_failure(v, message));
        assert(streaming::closing(failure)[0] == "data: "@ + json::written(v) + "\n\n"@);
    }
}

/// A stream begins with two frames: that the response is created, numbered first, and that it
/// is in progress, numbered next. What follows goes on from there.
pub proof fn law_stream_opens_with_two_frames(fresh: EmitterView)
    requires
        fresh.sequence_number < u64::MAX - 1,
    ensures
        streaming::opening_frames(fresh).len() == 2,
        ({
            let created = emitter::created_event(fresh);
            streaming::opening_frames(fresh)[0] == "event: "@ + "response.created"@ + "\ndata: "@
                + json::written(created) + "\n\n"@
        }),
        exists|begun: JsonView|
            is_event(
                begun,
                "response.in_progress"@,
                (fresh.sequence_number + 1) as u64,
            ) && streaming::opening_frames(fresh)[1] == "event: "@ + "response.in_progress"@
                + "\ndata: "@ + #[trigger] json::written(begun) + "\n\n"@,
        streaming::opened(fresh).sequence_number == fresh.sequence_number + 2,
        streaming::opened(fresh).response_id == fresh.response_id,
        streaming::opened(fresh).model == fresh.model,
        streaming::opened(fresh).created_at == fresh.created_at,
        streaming::opened(fresh).message_id == fresh.message_id,
        streaming::opened(fresh).accumulated_text == fresh.accumulated_text,
        streaming::opened(fresh).output_items == fresh.output_items,
        streaming::opened(fresh).next_output_index == fresh.next_output_index,
        streaming::opened(fresh).current_item_id == fresh.current_item_id,
        streaming::opened(fresh).original_request == fresh.original_request,
        streaming::opened(fresh).tool_call_items == fresh.tool_call_items,
{
    law_opening_events_are_read(fresh);
    let second = (EmitterView { has_emitted_created: true, ..fresh }).counted();
    law_opening_events_are_read(second);
    law_frame_carries_the_event(emitter::created_event(fresh), "response.created"@);
    law_frame_carries_the_event(emitter::in_progress_event(second), "response.in_progress"@);
}

} // verus!
