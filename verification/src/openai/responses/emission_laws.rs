//! What each function of the emitter and of the stream around it gives and leaves behind.

use vstd::prelude::*;

use super::accumulator::StreamingResponseAccumulator;
use super::chunk_events;
use super::chunk_events::EventSink;
use super::conversion_laws;
use super::conversions::push_message_item;
use super::conversions::push_reasoning_item;
use super::delta_laws;
use super::emitter;
use super::emitter::EmitterView;
use super::emitter::OutputItemType;
use super::emitter::ResponseStreamEventEmitter;
use super::gather_laws;
use super::reading_laws;
use super::reading_laws::counts;
use super::reading_laws::is_about_part;
use super::reading_laws::is_event;
use super::reading_laws::is_part;
use super::reading_laws::says;
use super::streaming;
use super::streaming::convert_chat_stream_to_responses_stream;
use super::streaming::process_and_transform_sse_stream;
use super::streaming::ResponseStream;
use super::streaming::StreamPiece;
use crate::ids;
use crate::json;
use crate::json::Json;
use crate::json::JsonView;
use crate::protocols::chat::ChatCompletionStreamResponse;
use crate::protocols::common::ChatLogProbs;
use crate::protocols::common::Usage;
use crate::protocols::responses::ResponseOutputItem;
use crate::protocols::responses::ResponsesRequest;
use crate::protocols::responses::ResponsesResponse;

verus! {

/// Whether one more event was numbered and nothing else changed, as far as it is told later.
pub open spec fn only_numbered(before: EmitterView, after: EmitterView) -> bool {
    &&& before.sequence_number < u64::MAX ==> after.sequence_number == before.sequence_number + 1
    &&& after.response_id == before.response_id
    &&& after.model == before.model
    &&& after.created_at == before.created_at
    &&& after.message_id == before.message_id
    &&& after.accumulated_text == before.accumulated_text
    &&& after.output_items == before.output_items
    &&& after.next_output_index == before.next_output_index
    &&& after.current_item_id == before.current_item_id
    &&& after.current_message_output_index == before.current_message_output_index
    &&& after.original_request == before.original_request
    &&& after.tool_call_items == before.tool_call_items
}

/// A new emitter numbers from zero, has said nothing and tracks nothing.
pub proof fn law_emitter_begins_afresh(
    response_id: String,
    model: String,
    created_at: u64,
    message_id: String,
    r: ResponseStreamEventEmitter,
)
    requires
        call_ensures(
            ResponseStreamEventEmitter::with_message_id,
            (response_id, model, created_at, message_id),
            r,
        ),
    ensures
        r@.sequence_number == 0,
        r@.response_id == response_id@,
        r@.model == model@,
        r@.created_at == created_at,
        r@.message_id == message_id@,
        r@.accumulated_text.len() == 0,
        r@.output_items.len() == 0,
        r@.next_output_index == 0,
        r@.tool_call_items.len() == 0,
        r@.current_item_id is None,
        r@.current_message_output_index is None,
        r@.original_request is None,
        !r@.has_emitted_created,
        !r@.has_emitted_in_progress,
        !r@.has_emitted_output_item_added,
        !r@.has_emitted_content_part_added,
{
}

/// The response is announced by its identifier, its model and its time, without output.
pub proof fn law_creation_is_emitted(
    e: &mut ResponseStreamEventEmitter,
    r: Json,
    f: &mut ResponseStreamEventEmitter,
    s: Json,
)
    requires
        call_ensures(ResponseStreamEventEmitter::emit_created, (e,), r),
        call_ensures(ResponseStreamEventEmitter::emit_in_progress, (f,), s),
    ensures
        is_event(r@, "response.created"@, old(e).sequence_number),
        json::field(r@, "response"@) matches Some(made) && {
            &&& says(made, "id"@, old(e).response_id@)
            &&& says(made, "object"@, "response"@)
            &&& says(made, "model"@, old(e).model@)
            &&& says(made, "status"@, "in_progress"@)
            &&& counts(made, "created_at"@, old(e).created_at as nat)
            &&& json::field(made, "output"@) matches Some(JsonView::Array(none))
            &&& none.len() == 0
        },
        only_numbered(old(e)@, final(e)@),
        final(e)@.has_emitted_created,
        is_event(s@, "response.in_progress"@, old(f).sequence_number),
        json::field(s@, "response"@) matches Some(begun) && {
            &&& says(begun, "id"@, old(f).response_id@)
            &&& says(begun, "object"@, "response"@)
            &&& says(begun, "status"@, "in_progress"@)
        },
        only_numbered(old(f)@, final(f)@),
        final(f)@.has_emitted_in_progress,
{
    reading_laws::law_opening_events_are_read(old(e)@);
    reading_laws::law_opening_events_are_read(old(f)@);
}

/// Text that is emitted is told, and added to the text so far.
pub proof fn law_text_is_emitted(
    e: &mut ResponseStreamEventEmitter,
    delta: &str,
    output_index: usize,
    item_id: &str,
    content_index: usize,
    r: Json,
)
    requires
        call_ensures(
            ResponseStreamEventEmitter::emit_text_delta,
            (e, delta, output_index, item_id, content_index),
            r,
        ),
    ensures
        is_event(r@, "response.output_text.delta"@, old(e).sequence_number),
        is_about_part(r@, output_index, item_id@, content_index),
        says(r@, "delta"@, delta@),
        final(e)@.accumulated_text == old(e)@.accumulated_text + delta@,
        only_numbered(
            EmitterView { accumulated_text: final(e)@.accumulated_text, ..old(e)@ },
            final(e)@,
        ),
{
    reading_laws::law_text_events_are_read(
        old(e)@,
        delta@,
        output_index,
        item_id@,
        content_index,
    );
}

/// A part is announced empty, and is done with the whole text.
pub proof fn law_parts_are_emitted(
    e: &mut ResponseStreamEventEmitter,
    f: &mut ResponseStreamEventEmitter,
    g: &mut ResponseStreamEventEmitter,
    output_index: usize,
    item_id: &str,
    content_index: usize,
    added: Json,
    done: Json,
    closed: Json,
)
    requires
        call_ensures(
            ResponseStreamEventEmitter::emit_content_part_added,
            (e, output_index, item_id, content_index),
            added,
        ),
        call_ensures(
            ResponseStreamEventEmitter::emit_text_done,
            (f, output_index, item_id, content_index),
            done,
        ),
        call_ensures(
            ResponseStreamEventEmitter::emit_content_part_done,
            (g, output_index, item_id, content_index),
            closed,
        ),
    ensures
        is_event(added@, "response.content_part.added"@, old(e).sequence_number),
        is_about_part(added@, output_index, item_id@, content_index),
        json::field(added@, "part"@) matches Some(p) && is_part(p, Seq::empty()),
        only_numbered(old(e)@, final(e)@),
        final(e)@.has_emitted_content_part_added,
        is_event(done@, "response.output_text.done"@, old(f).sequence_number),
        is_about_part(done@, output_index, item_id@, content_index),
        says(done@, "text"@, old(f).accumulated_text@),
        only_numbered(old(f)@, final(f)@),
        is_event(closed@, "response.content_part.done"@, old(g).sequence_number),
        is_about_part(closed@, output_index, item_id@, content_index),
        json::field(closed@, "part"@) matches Some(q) && is_part(q, old(g).accumulated_text@),
        only_numbered(old(g)@, final(g)@),
{
    let none = Seq::<char>::empty();
    reading_laws::law_text_events_are_read(old(e)@, none, output_index, item_id@, content_index);
    reading_laws::law_text_events_are_read(old(f)@, none, output_index, item_id@, content_index);
    reading_laws::law_text_events_are_read(old(g)@, none, output_index, item_id@, content_index);
}

/// Arguments that are emitted are told of their item, piece by piece and in full.
pub proof fn law_arguments_are_emitted(
    e: &mut ResponseStreamEventEmitter,
    f: &mut ResponseStreamEventEmitter,
    output_index: usize,
    item_id: &str,
    said: &str,
    delta: Json,
    done: Json,
)
    requires
        call_ensures(
            ResponseStreamEventEmitter::emit_function_call_arguments_delta,
            (e, output_index, item_id, said),
            delta,
        ),
        call_ensures(
            ResponseStreamEventEmitter::emit_function_call_arguments_done,
            (f, output_index, item_id, said),
            done,
        ),
    ensures
        is_event(delta@, "response.function_call_arguments.delta"@, old(e).sequence_number),
        counts(delta@, "output_index"@, output_index as nat),
        says(delta@, "item_id"@, item_id@),
        says(delta@, "delta"@, said@),
        only_numbered(old(e)@, final(e)@),
        is_event(done@, "response.function_call_arguments.done"@, old(f).sequence_number),
        counts(done@, "output_index"@, output_index as nat),
        says(done@, "item_id"@, item_id@),
        says(done@, "arguments"@, said@),
        only_numbered(old(f)@, final(f)@),
{
    reading_laws::law_argument_events_are_read(old(e)@, output_index, item_id@, said@);
    reading_laws::law_argument_events_are_read(old(f)@, output_index, item_id@, said@);
}

/// An item is told of when it is added and when it is done, with its place; one that is done
/// is kept.
pub proof fn law_items_are_emitted(
    e: &mut ResponseStreamEventEmitter,
    f: &mut ResponseStreamEventEmitter,
    output_index: usize,
    item: &Json,
    added: Json,
    done: Json,
    at: int,
)
    requires
        call_ensures(
            ResponseStreamEventEmitter::emit_output_item_added,
            (e, output_index, item),
            added,
        ),
        call_ensures(
            ResponseStreamEventEmitter::emit_output_item_done,
            (f, output_index, item),
            done,
        ),
        0 <= at < old(f)@.output_items.len(),
        forall|k: int|
            0 <= k < old(f)@.output_items.len() ==> ((#[trigger] old(f)@.output_items[k]).output_index
                == output_index <==> k == at),
    ensures
        is_event(added@, "response.output_item.added"@, old(e).sequence_number),
        counts(added@, "output_index"@, output_index as nat),
        json::field(added@, "item"@) == Some(item@),
        only_numbered(old(e)@, final(e)@),
        is_event(done@, "response.output_item.done"@, old(f).sequence_number),
        counts(done@, "output_index"@, output_index as nat),
        json::field(done@, "item"@) == Some(item@),
        final(f)@.output_items.len() == old(f)@.output_items.len(),
        final(f)@.output_items[at].item_data == Some(item@),
        final(f)@.output_items[at].status == old(f)@.output_items[at].status,
        forall|k: int|
            0 <= k < old(f)@.output_items.len() && k != at ==> #[trigger] final(f)@.output_items[k] == old(f)@.output_items[k],
{
    reading_laws::law_item_events_are_read(
        "response.output_item.added"@,
        old(e)@,
        output_index,
        item@,
    );
    reading_laws::law_item_events_are_read(
        "response.output_item.done"@,
        old(f)@,
        output_index,
        item@,
    );
    let items = old(f)@.output_items;
    assert(items[at].output_index == output_index);
    assert(emitter::first_with_index(items, output_index, at));
    let i = old(f)@.item_place(output_index)->0;
    assert(emitter::first_with_index(items, output_index, i));
    assert(i == at);
}

/// A new item gets the next place, and the identifier that it is given or one of its kind.
pub proof fn law_places_are_given_in_order(
    e: &mut ResponseStreamEventEmitter,
    id: String,
    r: (usize, String),
    f: &mut ResponseStreamEventEmitter,
    kind: OutputItemType,
    s: (usize, String),
)
    requires
        call_ensures(ResponseStreamEventEmitter::allocate_with_id, (e, id), r),
        call_ensures(ResponseStreamEventEmitter::allocate_output_index, (f, kind), s),
        old(e).next_output_index < usize::MAX,
        old(f).next_output_index < usize::MAX,
    ensures
        r.0 == old(e).next_output_index,
        r.1@ == id@,
        final(e).next_output_index == old(e).next_output_index + 1,
        final(e)@.output_items.len() == old(e)@.output_items.len() + 1,
        final(e)@.output_items.last().output_index == r.0,
        s.0 == old(f).next_output_index,
        final(f).next_output_index == old(f).next_output_index + 1,
        final(f)@.output_items.len() == old(f)@.output_items.len() + 1,
        final(f)@.output_items.last().output_index == s.0,
        kind is Message ==> "msg_"@.is_prefix_of(s.1@) && s.1@.len() == 36,
        kind is FunctionCall ==> "fc_"@.is_prefix_of(s.1@) && s.1@.len() == 35,
{
    reveal_strlit("msg_");
    reveal_strlit("fc_");
    reveal_strlit("msg");
    reveal_strlit("fc");
    reveal_strlit("_");
    let prefix = emitter::id_prefix(kind);
    let digits = choose|digits: Seq<char>|
        #![trigger ids::is_plain_uuid(digits)]
        ids::is_plain_uuid(digits) && s.1@ == prefix + "_"@ + digits;
    if kind is Message {
        assert(s.1@.take(4) =~= "msg_"@);
    } else {
        assert(s.1@.take(3) =~= "fc_"@);
    }
}

/// The response that is emitted at the end holds what was kept: its identifier, its model, the
/// completed items or else the whole text, and the usage.
pub proof fn law_completion_is_emitted(
    e: &mut ResponseStreamEventEmitter,
    usage: Option<&Json>,
    r: Json,
)
    requires
        call_ensures(ResponseStreamEventEmitter::emit_completed, (e, usage), r),
    ensures
        is_event(r@, "response.completed"@, old(e).sequence_number),
        only_numbered(old(e)@, final(e)@),
        json::field(r@, "response"@) matches Some(whole) && {
            let known = reading_laws::known(old(e)@.output_items);
            &&& says(whole, "id"@, old(e).response_id@)
            &&& says(whole, "status"@, "completed"@)
            &&& says(whole, "model"@, old(e).model@)
            &&& counts(whole, "created_at"@, old(e).created_at as nat)
            &&& usage matches Some(u) ==> json::field(whole, "usage"@) == Some(u@)
            &&& usage is None ==> json::field(whole, "usage"@) is None
            &&& json::field(whole, "output"@) matches Some(JsonView::Array(out))
            &&& known.len() > 0 ==> reading_laws::is_data_of(known, out)
            &&& known.len() == 0 ==> out.len() == 1 && reading_laws::is_message(
                out[0],
                old(e).message_id@,
                old(e).accumulated_text@,
            )
            &&& old(e)@.original_request matches Some(req) ==> reading_laws::repeats(whole, req)
        },
{
    let told = match usage {
        Some(u) => Some(u@),
        None => None,
    };
    reading_laws::law_completion_is_read(old(e)@, told);
}

/// A chunk is sent to a client that listens, event by event; a client that is gone is sent
/// nothing.
pub proof fn law_chunk_is_emitted(
    e: &mut ResponseStreamEventEmitter,
    chunk: &ChatCompletionStreamResponse,
    tx: &mut EventSink,
    r: Result<(), String>,
)
    requires
        call_ensures(ResponseStreamEventEmitter::process_chunk, (e, chunk, tx), r),
    ensures
        final(tx).open == old(tx).open,
        old(tx).open ==> r is Ok,
        r matches Err(why) ==> why@ == "Client disconnected"@ && final(tx).frames.deep_view() == old(
            tx,
        ).frames.deep_view(),
        r is Ok ==> ({
            let id = match final(e)@.current_item_id {
                Some(id) => id,
                None => Seq::empty(),
            };
            let step = chunk_events::chunk_step(
                old(e)@,
                *chunk,
                id,
                chunk_events::call_ids(final(e)@),
            );
            &&& final(e)@ == step.after
            &&& final(tx).frames.deep_view() == old(tx).frames.deep_view() + chunk_events::frames(
                step.events,
            )
        }),
{
}

/// A chunk is kept: its text and its thoughts are added to those before it, and what it says of
/// the end and of the counts replaces what was said before.
pub proof fn law_chunk_is_kept(
    kept: &mut StreamingResponseAccumulator,
    chunk: &ChatCompletionStreamResponse,
)
    requires
        call_ensures(StreamingResponseAccumulator::process_chunk, (kept, chunk), ()),
    ensures
        final(kept)@.content_buffer == old(kept)@.content_buffer + delta_laws::said_in(*chunk),
        final(kept)@.reasoning_buffer == old(kept)@.reasoning_buffer + gather_laws::thoughts_of(
            seq![*chunk],
        ),
        chunk.usage is Some ==> final(kept)@.usage == chunk.usage,
        chunk.usage is None ==> final(kept)@.usage == old(kept)@.usage,
        chunk.choices@.len() > 0 && chunk.choices@[0].finish_reason is Some ==> final(kept)@.finish_reason == Some(chunk.choices@[0].finish_reason->0@),
        chunk.choices@.len() == 0 || chunk.choices@[0].finish_reason is None ==> final(kept)@.finish_reason == old(kept)@.finish_reason,
        old(kept)@.response_id.len() > 0 ==> {
            &&& final(kept)@.response_id == old(kept)@.response_id
            &&& final(kept)@.model == old(kept)@.model
            &&& final(kept)@.created_at == old(kept)@.created_at
        },
        old(kept)@.response_id.len() == 0 ==> {
            &&& final(kept)@.response_id == chunk.id@
            &&& final(kept)@.model == chunk.model@
            &&& final(kept)@.created_at == chunk.created as i64
        },
        final(kept)@.original_request == old(kept)@.original_request,
        delta_laws::deltas_in(*chunk).len() == 0 ==> final(kept)@.tool_calls == old(
            kept,
        )@.tool_calls,
{
    assert(seq![*chunk].drop_last() =~= Seq::<ChatCompletionStreamResponse>::empty());
    assert(seq![*chunk].last() == *chunk);
    reveal_with_fuel(gather_laws::thoughts_of, 2);
    let before = old(kept)@.reasoning_buffer;
    assert(gather_laws::thoughts_of(seq![*chunk]) =~= super::accumulator::chunk_reasoning(*chunk));
    assert(chunk_events::chunk_content(*chunk) =~= delta_laws::said_in(*chunk));
    assert(chunk_events::chunk_deltas(*chunk) =~= delta_laws::deltas_in(*chunk));
}

/// A text adds one message to the output, unless it is empty, and a thought one item of
/// reasoning; what was there stays.
pub proof fn law_items_are_pushed(
    output: &mut Vec<ResponseOutputItem>,
    id: &str,
    content: &str,
    logprobs: Option<ChatLogProbs>,
    other: &mut Vec<ResponseOutputItem>,
    reasoning: &str,
)
    requires
        call_ensures(push_message_item, (output, id, content, logprobs), ()),
        call_ensures(push_reasoning_item, (other, id, reasoning), ()),
    ensures
        content@.len() == 0 ==> final(output).deep_view() == old(output).deep_view(),
        content@.len() > 0 ==> final(output)@.len() == old(output)@.len() + 1
            && conversion_laws::tells_text(final(output)@.last(), id@, content@, logprobs),
        reasoning@.len() == 0 ==> final(other).deep_view() == old(other).deep_view(),
        reasoning@.len() > 0 ==> final(other)@.len() == old(other)@.len() + 1
            && conversion_laws::tells_thought(final(other)@.last(), id@, reasoning@),
{
    let a = final(output).deep_view();
    let b = final(other).deep_view();
    assert(a.len() == final(output)@.len());
    assert(b.len() == final(other)@.len());
    assert(old(output).deep_view().len() == old(output)@.len());
    assert(old(other).deep_view().len() == old(other)@.len());
    if content@.len() > 0 {
        assert(a.last() == final(output)@.last().deep_view());
        conversion_laws::lemma_tells_text(final(output)@.last(), id@, content@, logprobs);
    } else {
        assert(a =~= old(output).deep_view());
    }
    if reasoning@.len() > 0 {
        assert(b.last() == final(other)@.last().deep_view());
        conversion_laws::lemma_tells_thought(final(other)@.last(), id@, reasoning@);
    } else {
        assert(b =~= old(other).deep_view());
    }
}

/// A stream that begins for a client that listens announces the response, by the identifiers
/// that it is given, and has gathered nothing yet.
pub proof fn law_stream_is_begun(
    original_request: ResponsesRequest,
    response_id: String,
    message_id: String,
    created_at: u64,
    tx: &mut EventSink,
    r: Result<ResponseStream, String>,
)
    requires
        call_ensures(
            ResponseStream::start_with_ids,
            (original_request, response_id, message_id, created_at, tx),
            r,
        ),
    ensures
        r is Ok <==> old(tx).open,
        r is Err ==> final(tx).frames.deep_view() == old(tx).frames.deep_view(),
        r matches Ok(s) ==> {
            &&& final(tx).frames.deep_view().len() == old(tx).frames.deep_view().len() + 2
            &&& s.emitter@.response_id == response_id@
            &&& s.emitter@.message_id == message_id@
            &&& s.emitter@.created_at == created_at
            &&& s.emitter@.model == original_request.model@
            &&& s.emitter@.sequence_number == 2
            &&& s.emitter@.original_request == Some(original_request.deep_view())
            &&& s.emitter@.accumulated_text.len() == 0
            &&& s.emitter@.output_items.len() == 0
            &&& s.emitter@.tool_call_items.len() == 0
            &&& s.accumulator@.content_buffer.len() == 0
            &&& s.accumulator@.reasoning_buffer.len() == 0
            &&& s.accumulator@.tool_calls.len() == 0
            &&& s.accumulator@.response_id.len() == 0
            &&& s.accumulator@.original_request == original_request.deep_view()
        },
{
    if r is Ok {
        let fresh = EmitterView {
            original_request: Some(original_request.deep_view()),
            ..EmitterView::fresh(
                response_id@,
                original_request.model@,
                created_at,
                message_id@,
            )
        };
        reading_laws::law_stream_opens_with_two_frames(fresh);
    }
}

/// An event that is no chunk is passed on as it is, and ends with an empty line.
pub proof fn law_other_events_are_passed_on(
    stream: &ResponseStream,
    event: &str,
    tx: &mut EventSink,
    r: Result<(), String>,
)
    requires
        call_ensures(ResponseStream::on_other, (stream, event, tx), r),
    ensures
        r is Ok <==> old(tx).open,
        r is Ok ==> final(tx).frames.deep_view() == old(tx).frames.deep_view().push(
            event@ + "\n\n"@,
        ),
        r is Err ==> final(tx).frames.deep_view() == old(tx).frames.deep_view(),
{
}

/// A stream that ends tells the client of the completion in one more frame, and hands over a
/// response with all that was gathered.
pub proof fn law_stream_is_finished(
    stream: ResponseStream,
    tx: &mut EventSink,
    r: Result<ResponsesResponse, String>,
    gathered: ResponsesResponse,
)
    requires
        call_ensures(ResponseStream::finish, (stream, tx), r),
        call_ensures(StreamingResponseAccumulator::finalize, (stream.accumulator,), gathered),
    ensures
        r is Ok <==> old(tx).open,
        r is Err ==> final(tx).frames.deep_view() == old(tx).frames.deep_view(),
        r matches Ok(resp) ==> {
            &&& resp.id@ == gathered.id@
            &&& resp.model@ == gathered.model@
            &&& resp.created_at == gathered.created_at
            &&& resp.status == gathered.status
            &&& resp.output.deep_view() == gathered.output.deep_view()
            &&& resp.usage == gathered.usage
            &&& final(tx).frames.deep_view().len() == old(tx).frames.deep_view().len() + 1
            &&& exists|event: JsonView|
                is_event(event, "response.completed"@, stream.emitter.sequence_number) && final(tx).frames.deep_view().last() == #[trigger] chunk_events::frame(event) && (
                stream.accumulator.usage matches Some(u) ==> (json::field(
                    event,
                    "response"@,
                ) matches Some(whole) && (json::field(whole, "usage"@) matches Some(told)
                    && counts(told, "input_tokens"@, u.prompt_tokens as nat) && counts(
                    told,
                    "output_tokens"@,
                    u.completion_tokens as nat,
                ))))
        },
{
    if let Ok(resp) = r {
        let usage = match stream.accumulator@.usage {
            Some(u) => Some(streaming::usage_view(u)),
            None => None,
        };
        let event = emitter::completed_event(stream.emitter@, usage);
        reading_laws::law_completion_is_read(stream.emitter@, usage);
        if let Some(u) = stream.accumulator.usage {
            reading_laws::law_usage_is_read(u);
        }
        assert(final(tx).frames.deep_view().last() == chunk_events::frame(event));
    }
}

/// Of what comes in, a chunk is kept and told, other data is passed on, and the rest is passed
/// over; the stream goes on until it ends or cannot be read.
pub proof fn law_pieces_are_taken_in(
    stream: &mut ResponseStream,
    piece: &StreamPiece,
    tx: &mut EventSink,
    r: Result<bool, String>,
)
    requires
        call_ensures(process_and_transform_sse_stream, (stream, piece, tx), r),
    ensures
        *piece is End ==> r == Ok::<bool, String>(false),
        *piece is Ignored ==> r == Ok::<bool, String>(true),
        *piece is End || *piece is Ignored || *piece is ReadError ==> *final(stream) == *old(stream)
            && final(tx).frames.deep_view() == old(tx).frames.deep_view(),
        *piece matches StreamPiece::ReadError(why) ==> (r matches Err(m) && m@
            == "Stream read error: "@ + why@),
        *piece matches StreamPiece::Other(event) ==> {
            &&& *final(stream) == *old(stream)
            &&& r is Ok <==> old(tx).open
            &&& r is Ok ==> r == Ok::<bool, String>(true) && final(tx).frames.deep_view() == old(
                tx,
            ).frames.deep_view().push(event@ + "\n\n"@)
        },
        *piece matches StreamPiece::Chunk(chunk) ==> {
            &&& r matches Ok(more) ==> more
            &&& old(tx).open ==> r is Ok
            &&& final(stream).accumulator@.content_buffer == old(stream).accumulator@.content_buffer
                + delta_laws::said_in(chunk)
            &&& r is Err ==> final(tx).frames.deep_view() == old(tx).frames.deep_view()
        },
{
    if let StreamPiece::Chunk(chunk) = *piece {
        assert(chunk_events::chunk_content(chunk) =~= delta_laws::said_in(chunk));
    }
}

/// However a stream ends, a client that listens is told so last; what went wrong comes right
/// before that.
pub proof fn law_stream_is_ended(outcome: Result<(), String>, tx: &mut EventSink)
    requires
        call_ensures(convert_chat_stream_to_responses_stream, (outcome, tx), ()),
    ensures
        !old(tx).open ==> final(tx).frames.deep_view() == old(tx).frames.deep_view(),
        old(tx).open ==> final(tx).frames.deep_view().last() == "data: [DONE]\n\n"@,
        old(tx).open && outcome is Ok ==> final(tx).frames.deep_view().len() == old(
            tx,
        ).frames.deep_view().len() + 1,
        old(tx).open && outcome is Err ==> final(tx).frames.deep_view().len() == old(
            tx,
        ).frames.deep_view().len() + 2,
        old(tx).open ==> (outcome matches Err(why) ==> exists|v: JsonView|
            reading_laws::is_failure(v, why@) && final(tx).frames.deep_view()[old(
                tx,
            ).frames.deep_view().len() as int] == "data: "@ + #[trigger] json::written(v)
                + "\n\n"@),
{
    let failure = match outcome {
        Ok(()) => None,
        Err(e) => Some(e@),
    };
    reading_laws::law_stream_is_closed(failure);
    if old(tx).open {
        let sent = old(tx).frames.deep_view();
        let now = final(tx).frames.deep_view();
        assert(now == sent + streaming::closing(failure));
        assert(now[sent.len() as int] == streaming::closing(failure)[0]);
        assert(now.last() == streaming::closing(failure).last());
    }
}

/// The token counts are told as JSON, and a failure as a frame that holds it.
pub proof fn law_usage_and_failures_are_written(
    usage: &Usage,
    r: Json,
    message: &str,
    frame: String,
)
    requires
        call_ensures(streaming::usage_json, (usage,), r),
        call_ensures(streaming::make_error_frame, (message,), frame),
    ensures
        counts(r@, "input_tokens"@, usage.prompt_tokens as nat),
        counts(r@, "output_tokens"@, usage.completion_tokens as nat),
        counts(r@, "total_tokens"@, usage.total_tokens as nat),
        exists|v: JsonView|
            reading_laws::is_failure(v, message@) && frame@ == "data: "@ + #[trigger] json::written(
                v,
            ) + "\n\n"@,
{
    reading_laws::law_usage_is_read(*usage);
    reading_laws::law_stream_is_closed(Some(message@));
    assert(streaming::closing(Some(message@))[0] == frame@);
}

/// A message as an output item has one text part, which says the text.
pub proof fn law_message_item_is_made(id: &str, said: &str, r: Json)
    requires
        call_ensures(emitter::make_text_message, (id, said), r),
    ensures
        reading_laws::is_message(r@, id@, said@),
{
    reveal_strlit("id");
    reveal_strlit("type");
    reveal_strlit("role");
    reveal_strlit("content");
    reveal_strlit("text");
    assert("id"@.len() == 2);
    assert("content"@.len() == 7);
    assert("type"@[0] != "role"@[0]);
    assert("type"@[1] != "text"@[1]);
}

/// Bytes that are UTF-8 are read as the text that they encode.
pub proof fn law_bytes_are_read_as_text(bytes: &[u8], said: &str, r: streaming::SseEvent, s: streaming::SseEvent)
    requires
        call_ensures(streaming::classify_bytes, (bytes,), r),
        call_ensures(streaming::classify_text, (said,), s),
        vstd::utf8::valid_utf8(bytes@),
        said@ == vstd::utf8::decode_utf8(bytes@),
    ensures
        r@ == s@,
{
}

/// The request whose settings a completion repeats is the one that was set last; numbers are
/// used once.
pub proof fn law_request_and_numbers_are_kept(
    e: &mut ResponseStreamEventEmitter,
    request: ResponsesRequest,
    f: &mut ResponseStreamEventEmitter,
    n: u64,
)
    requires
        call_ensures(ResponseStreamEventEmitter::set_original_request, (e, request), ()),
        call_ensures(ResponseStreamEventEmitter::next_sequence, (f,), n),
        old(f).sequence_number < u64::MAX,
    ensures
        final(e)@.original_request == Some(request.deep_view()),
        final(e)@.sequence_number == old(e)@.sequence_number,
        final(e)@.accumulated_text == old(e)@.accumulated_text,
        final(e)@.output_items == old(e)@.output_items,
        n == old(f).sequence_number,
        final(f).sequence_number == n + 1,
        only_numbered(old(f)@, final(f)@),
{
}

/// Of the item at a place the data is kept, or its completion; the other items stay.
pub proof fn law_item_is_stored_and_completed(
    e: &mut ResponseStreamEventEmitter,
    f: &mut ResponseStreamEventEmitter,
    output_index: usize,
    data: Json,
    at: int,
)
    requires
        call_ensures(
            ResponseStreamEventEmitter::store_output_item_data,
            (e, output_index, data),
            (),
        ),
        call_ensures(ResponseStreamEventEmitter::complete_output_item, (f, output_index), ()),
        old(e)@ == old(f)@,
        0 <= at < old(e)@.output_items.len(),
        forall|k: int|
            0 <= k < old(e)@.output_items.len() ==> ((#[trigger] old(e)@.output_items[k]).output_index
                == output_index <==> k == at),
    ensures
        final(e)@.output_items.len() == old(e)@.output_items.len(),
        final(e)@.output_items[at].item_data == Some(data@),
        final(e)@.output_items[at].status == old(e)@.output_items[at].status,
        final(f)@.output_items.len() == old(f)@.output_items.len(),
        final(f)@.output_items[at].item_data == old(f)@.output_items[at].item_data,
        final(f)@.output_items[at].status == emitter::ItemStatus::Completed,
        forall|k: int|
            0 <= k < old(e)@.output_items.len() && k != at ==> #[trigger] final(e)@.output_items[k]
                == old(e)@.output_items[k],
        forall|k: int|
            0 <= k < old(f)@.output_items.len() && k != at ==> #[trigger] final(f)@.output_items[k]
                == old(f)@.output_items[k],
{
    let items = old(e)@.output_items;
    assert(items[at].output_index == output_index);
    assert(emitter::first_with_index(items, output_index, at));
    let i = old(e)@.item_place(output_index)->0;
    assert(emitter::first_with_index(items, output_index, i));
    assert(i == at);
}

} // verus!
