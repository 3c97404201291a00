//! From the chunks of a streamed chat completion to the events of a response.

use vstd::prelude::*;
use vstd::string::StringExecFns;

use super::emitter;
use super::emitter::EmitterView;
use super::emitter::OutputItemType;
use super::emitter::ResponseStreamEventEmitter;
use super::emitter::ToolCallItem;
use super::emitter::ToolCallItemView;
use crate::ids;
use crate::json;
use crate::json::put;
use crate::json::Json;
use crate::json::JsonView;
use crate::protocols::chat::ChatCompletionStreamResponse;
use crate::protocols::chat::ToolCallDelta;
use crate::text;

verus! {

/// Where server-sent events go: the frames that were sent, and whether the client
/// still listens.
#[derive(Debug)]
pub struct EventSink {
    pub open: bool,
    pub frames: Vec<String>,
}

impl EventSink {
    pub fn new() -> (r: Self)
        ensures
            r.open,
            r.frames.deep_view() == Seq::<Seq<char>>::empty(),
    {
        let r = EventSink { open: true, frames: Vec::new() };
        assert(r.frames.deep_view() =~= Seq::empty());
        r
    }

    /// Sends a frame, unless the client is gone.
    pub fn send(&mut self, frame: String) -> (sent: bool)
        ensures
            sent == old(self).open,
            final(self).open == old(self).open,
            final(self).frames.deep_view() == (if sent {
                old(self).frames.deep_view().push(frame@)
            } else {
                old(self).frames.deep_view()
            }),
    {
        let ghost before = self.frames.deep_view();
        if self.open {
            self.frames.push(frame);
            assert(self.frames.deep_view() =~= before.push(frame@));
            true
        } else {
            false
        }
    }
}

/// The type of an event. One that has none is a message.
pub open spec fn event_kind(event: JsonView) -> Seq<char> {
    match json::string_field(event, "type"@) {
        Some(kind) => kind,
        None => "message"@,
    }
}

/// The server-sent event that carries an event.
pub open spec fn frame(event: JsonView) -> Seq<char> {
    "event: "@ + event_kind(event) + "\ndata: "@ + json::written(event) + "\n\n"@
}

pub open spec fn frames(events: Seq<JsonView>) -> Seq<Seq<char>> {
    events.map_values(|event: JsonView| frame(event))
}

/// A new state, and the events that led to it.
#[verifier::ext_equal]
pub struct Step {
    pub after: EmitterView,
    pub events: Seq<JsonView>,
}

/// More text: the message and its part are announced first, where they were not yet.
#[verifier::opaque]
pub open spec fn content_step(e: EmitterView, content: Seq<char>, new_id: Seq<char>) -> Step {
    if content.len() == 0 {
        Step { after: e, events: Seq::empty() }
    } else {
        let opened = if e.current_item_id is None {
            let a = e.allocated();
            Step {
                after: (EmitterView {
                    has_emitted_output_item_added: true,
                    current_item_id: Some(new_id),
                    current_message_output_index: Some(e.next_output_index),
                    ..a.counted()
                }),
                events: seq![
                    emitter::output_item_event(
                        "response.output_item.added"@,
                        a,
                        e.next_output_index,
                        emitter::message_item(new_id, Seq::empty()),
                    ),
                ],
            }
        } else {
            Step { after: e, events: Seq::empty() }
        };
        let index = opened.after.current_message_output_index->0;
        let id = opened.after.current_item_id->0;
        let announced = if !opened.after.has_emitted_content_part_added {
            Step {
                after: (EmitterView {
                    has_emitted_content_part_added: true,
                    ..opened.after
                }).counted(),
                events: opened.events.push(
                    emitter::content_part_added_event(opened.after, index, id, 0),
                ),
            }
        } else {
            opened
        };
        Step {
            after: (EmitterView {
                accumulated_text: announced.after.accumulated_text + content,
                ..announced.after
            }).counted(),
            events: announced.events.push(
                emitter::text_delta_event(announced.after, content, index, id, 0),
            ),
        }
    }
}

/// What is left of the state where the first event of more text could not be sent.
pub open spec fn content_cut(e: EmitterView, content: Seq<char>) -> EmitterView {
    if e.current_item_id is None {
        e.allocated().counted()
    } else if !e.has_emitted_content_part_added {
        (EmitterView { has_emitted_content_part_added: true, ..e }).counted()
    } else {
        (EmitterView { accumulated_text: e.accumulated_text + content, ..e }).counted()
    }
}

/// A function call as an output item.
pub open spec fn call_item(
    id: Seq<char>,
    call_id: Seq<char>,
    name: Seq<char>,
    arguments: Seq<char>,
    status: Seq<char>,
) -> JsonView {
    JsonView::Object(
        Map::empty().insert("id"@, emitter::str(id)).insert(
            "type"@,
            emitter::str("function_call"@),
        ).insert("call_id"@, emitter::str(call_id)).insert("name"@, emitter::str(name)).insert(
            "arguments"@,
            emitter::str(arguments),
        ).insert("status"@, emitter::str(status)),
    )
}

/// Tracks tool calls until there is one at this index. The identifiers of new ones
/// are given.
pub open spec fn grow(e: EmitterView, index: nat, new_ids: Seq<Seq<char>>) -> EmitterView
    decreases index + 1 - e.tool_call_items.len(),
{
    if e.tool_call_items.len() <= index {
        let a = e.allocated();
        grow(
            EmitterView {
                tool_call_items: e.tool_call_items.push(
                    ToolCallItemView {
                        output_index: e.next_output_index,
                        item_id: new_ids[e.tool_call_items.len() as int],
                        name: Seq::empty(),
                        arguments: Seq::empty(),
                    },
                ),
                ..a
            },
            index,
            new_ids,
        )
    } else {
        e
    }
}

pub open spec fn delta_name(d: ToolCallDelta) -> Seq<char> {
    match d.function {
        Some(f) => match f.name {
            Some(name) => name@,
            None => Seq::empty(),
        },
        None => Seq::empty(),
    }
}

pub open spec fn delta_arguments(d: ToolCallDelta) -> Seq<char> {
    match d.function {
        Some(f) => match f.arguments {
            Some(arguments) => arguments@,
            None => Seq::empty(),
        },
        None => Seq::empty(),
    }
}

/// Adds to the name and the arguments of a tool call.
pub open spec fn extend_call(
    e: EmitterView,
    i: int,
    name: Seq<char>,
    arguments: Seq<char>,
) -> EmitterView {
    let call = e.tool_call_items[i];
    EmitterView {
        tool_call_items: e.tool_call_items.update(
            i,
            ToolCallItemView {
                name: call.name + name,
                arguments: call.arguments + arguments,
                ..call
            },
        ),
        ..e
    }
}

/// More of a tool call. The delta that carries the identifier announces the item;
/// arguments are passed on.
#[verifier::opaque]
pub open spec fn delta_step(e: EmitterView, d: ToolCallDelta, new_ids: Seq<Seq<char>>) -> Step {
    let i = d.index as int;
    let named = extend_call(grow(e, d.index as nat, new_ids), i, delta_name(d), Seq::empty());
    let call = named.tool_call_items[i];
    let announced = match d.id {
        Some(id) => Step {
            after: named.counted(),
            events: seq![
                emitter::output_item_event(
                    "response.output_item.added"@,
                    named,
                    call.output_index,
                    call_item(call.item_id, id@, call.name, ""@, "in_progress"@),
                ),
            ],
        },
        None => Step { after: named, events: Seq::empty() },
    };
    if delta_arguments(d).len() == 0 {
        announced
    } else {
        let extended = extend_call(announced.after, i, Seq::empty(), delta_arguments(d));
        Step {
            after: extended.counted(),
            events: announced.events.push(
                emitter::arguments_event(
                    "response.function_call_arguments.delta"@,
                    extended,
                    call.output_index,
                    call.item_id,
                    "delta"@,
                    delta_arguments(d),
                ),
            ),
        }
    }
}

/// What is left of the state where the first event of a tool call could not be sent.
pub open spec fn delta_cut(e: EmitterView, d: ToolCallDelta, new_ids: Seq<Seq<char>>) -> EmitterView {
    let i = d.index as int;
    let named = extend_call(grow(e, d.index as nat, new_ids), i, delta_name(d), Seq::empty());
    if d.id is Some {
        named.counted()
    } else {
        extend_call(named, i, Seq::empty(), delta_arguments(d)).counted()
    }
}

/// More of several tool calls, one after the other.
pub open spec fn deltas_step(
    e: EmitterView,
    deltas: Seq<ToolCallDelta>,
    new_ids: Seq<Seq<char>>,
) -> Step
    decreases deltas.len(),
{
    if deltas.len() == 0 {
        Step { after: e, events: Seq::empty() }
    } else {
        let before = deltas_step(e, deltas.drop_last(), new_ids);
        let step = delta_step(before.after, deltas.last(), new_ids);
        Step { after: step.after, events: before.events + step.events }
    }
}

/// The tool calls are done: each one's arguments and item are repeated in full.
pub open spec fn calls_done_step(e: EmitterView, calls: Seq<ToolCallItemView>) -> Step
    decreases calls.len(),
{
    if calls.len() == 0 {
        Step { after: e, events: Seq::empty() }
    } else {
        let before = calls_done_step(e, calls.drop_last());
        let call = calls.last();
        let item = call_item(
            call.item_id,
            call.item_id,
            call.name,
            call.arguments,
            "completed"@,
        );
        let told = before.after.counted();
        Step {
            after: told.stored(call.output_index, item).counted().completed(call.output_index),
            events: before.events.push(
                emitter::arguments_event(
                    "response.function_call_arguments.done"@,
                    before.after,
                    call.output_index,
                    call.item_id,
                    "arguments"@,
                    call.arguments,
                ),
            ).push(
                emitter::output_item_event(
                    "response.output_item.done"@,
                    told,
                    call.output_index,
                    item,
                ),
            ),
        }
    }
}

/// The message is done: its text, its part and its item are repeated in full.
#[verifier::opaque]
pub open spec fn message_done_step(e: EmitterView) -> Step {
    let index = e.current_message_output_index->0;
    let id = e.current_item_id->0;
    let parts = if e.has_emitted_content_part_added {
        Step {
            after: e.counted().counted(),
            events: seq![
                emitter::text_done_event(e, index, id, 0),
                emitter::content_part_done_event(e.counted(), index, id, 0),
            ],
        }
    } else {
        Step { after: e, events: Seq::empty() }
    };
    let items = if e.has_emitted_output_item_added {
        let item = emitter::message_item(id, seq![emitter::text_part(e.accumulated_text)]);
        Step {
            after: parts.after.stored(index, item).counted(),
            events: parts.events.push(
                emitter::output_item_event(
                    "response.output_item.done"@,
                    parts.after,
                    index,
                    item,
                ),
            ),
        }
    } else {
        parts
    };
    Step { after: items.after.completed(index), events: items.events }
}

/// Whether a finish reason ends the message.
pub open spec fn ends_message(reason: Option<Seq<char>>) -> bool {
    reason == Some("stop"@) || reason == Some("length"@)
}

/// What a finish reason leads to.
pub open spec fn finish_step(e: EmitterView, reason: Option<Seq<char>>) -> Step {
    if reason == Some("tool_calls"@) {
        calls_done_step(e, e.tool_call_items)
    } else if ends_message(reason) {
        message_done_step(e)
    } else {
        Step { after: e, events: Seq::empty() }
    }
}

pub open spec fn opt_text(content: Option<String>) -> Seq<char> {
    match content {
        Some(content) => content@,
        None => Seq::empty(),
    }
}

pub open spec fn opt_deltas(deltas: Option<Vec<ToolCallDelta>>) -> Seq<ToolCallDelta> {
    match deltas {
        Some(deltas) => deltas@,
        None => Seq::empty(),
    }
}

/// What the text and the tool calls of a choice lead to.
pub open spec fn body_step(
    e: EmitterView,
    content: Seq<char>,
    deltas: Seq<ToolCallDelta>,
    new_id: Seq<char>,
    new_ids: Seq<Seq<char>>,
) -> Step {
    let first = content_step(e, content, new_id);
    let second = deltas_step(first.after, deltas, new_ids);
    Step { after: second.after, events: first.events + second.events }
}

pub open spec fn chunk_content(chunk: ChatCompletionStreamResponse) -> Seq<char> {
    if chunk.choices@.len() == 0 {
        Seq::empty()
    } else {
        opt_text(chunk.choices@[0].delta.content)
    }
}

pub open spec fn chunk_deltas(chunk: ChatCompletionStreamResponse) -> Seq<ToolCallDelta> {
    if chunk.choices@.len() == 0 {
        Seq::empty()
    } else {
        opt_deltas(chunk.choices@[0].delta.tool_calls)
    }
}

pub open spec fn chunk_finish(chunk: ChatCompletionStreamResponse) -> Option<Seq<char>> {
    if chunk.choices@.len() == 0 {
        None
    } else {
        chunk.choices@[0].finish_reason.deep_view()
    }
}

/// What a chunk leads to: only its first choice counts.
pub open spec fn chunk_step(
    e: EmitterView,
    chunk: ChatCompletionStreamResponse,
    new_id: Seq<char>,
    new_ids: Seq<Seq<char>>,
) -> Step {
    let body = body_step(e, chunk_content(chunk), chunk_deltas(chunk), new_id, new_ids);
    let finish = finish_step(body.after, chunk_finish(chunk));
    Step { after: finish.after, events: body.events + finish.events }
}

/// The identifiers of the tool calls.
pub open spec fn call_ids(e: EmitterView) -> Seq<Seq<char>> {
    e.tool_call_items.map_values(|call: ToolCallItemView| call.item_id)
}

/// How many tool calls are tracked after these deltas.
pub open spec fn grown(known: nat, deltas: Seq<ToolCallDelta>) -> nat
    decreases deltas.len(),
{
    if deltas.len() == 0 {
        known
    } else {
        let before = grown(known, deltas.drop_last());
        if before <= deltas.last().index {
            (deltas.last().index + 1) as nat
        } else {
            before
        }
    }
}

/// Whether a delta leads to an event.
pub open spec fn delta_speaks(d: ToolCallDelta) -> bool {
    d.id is Some || delta_arguments(d).len() > 0
}

/// Whether one of several deltas leads to an event.
pub open spec fn deltas_speak(deltas: Seq<ToolCallDelta>) -> bool {
    exists|i: int| 0 <= i < deltas.len() && delta_speaks(#[trigger] deltas[i])
}

/// What is left of the state where the first event of several tool calls could not be
/// sent.
pub open spec fn deltas_cut(
    e: EmitterView,
    deltas: Seq<ToolCallDelta>,
    new_ids: Seq<Seq<char>>,
) -> EmitterView
    decreases deltas.len(),
{
    if deltas.len() == 0 {
        e
    } else if deltas_speak(deltas.drop_last()) {
        deltas_cut(e, deltas.drop_last(), new_ids)
    } else {
        delta_cut(deltas_step(e, deltas.drop_last(), new_ids).after, deltas.last(), new_ids)
    }
}

/// Whether text or tool calls lead to an event.
pub open spec fn body_speaks(content: Seq<char>, deltas: Seq<ToolCallDelta>) -> bool {
    ||| content.len() > 0
    ||| deltas_speak(deltas)
}

/// Whether a finish reason leads to an event, with this many tool calls.
pub open spec fn finish_speaks(e: EmitterView, reason: Option<Seq<char>>, calls: nat) -> bool {
    ||| reason == Some("tool_calls"@) && calls > 0
    ||| ends_message(reason) && (e.has_emitted_content_part_added
        || e.has_emitted_output_item_added)
}

/// What is left of the state where the first event of a finish could not be sent.
pub open spec fn finish_cut(e: EmitterView, reason: Option<Seq<char>>) -> EmitterView {
    if ends_message(reason) && !e.has_emitted_content_part_added {
        e.stored(
            e.current_message_output_index->0,
            emitter::message_item(
                e.current_item_id->0,
                seq![emitter::text_part(e.accumulated_text)],
            ),
        ).counted()
    } else {
        e.counted()
    }
}

/// What is left of the state where the first event of a chunk could not be sent: its
/// number is used up, and what led to it stays.
pub open spec fn chunk_cut(
    e: EmitterView,
    chunk: ChatCompletionStreamResponse,
    new_ids: Seq<Seq<char>>,
) -> EmitterView {
    let deltas = chunk_deltas(chunk);
    if chunk_content(chunk).len() > 0 {
        content_cut(e, chunk_content(chunk))
    } else if deltas_speak(deltas) {
        deltas_cut(e, deltas, new_ids)
    } else {
        finish_cut(deltas_step(e, deltas, new_ids).after, chunk_finish(chunk))
    }
}

/// Whether a chunk leads to an event.
pub open spec fn speaks(e: EmitterView, chunk: ChatCompletionStreamResponse) -> bool {
    let deltas = chunk_deltas(chunk);
    ||| body_speaks(chunk_content(chunk), deltas)
    ||| finish_speaks(e, chunk_finish(chunk), grown(e.tool_call_items.len(), deltas))
}

/// What comes of telling a client of a chunk. Where the client listens, or there is
/// nothing to tell, the events are sent, and new items get identifiers of their kind.
/// Where the client is gone nothing is sent.
pub open spec fn is_told(
    before: EmitterView,
    after: EmitterView,
    chunk: ChatCompletionStreamResponse,
    open: bool,
    sent: Seq<Seq<char>>,
    now_sent: Seq<Seq<char>>,
    failure: Option<Seq<char>>,
) -> bool {
    &&& failure is Some <==> !open && speaks(before, chunk)
    &&& match failure {
        None => {
            let id = match after.current_item_id {
                Some(id) => id,
                None => Seq::empty(),
            };
            let step = chunk_step(before, chunk, id, call_ids(after));
            &&& after == step.after
            &&& now_sent == sent + frames(step.events)
            &&& before.current_item_id is None && after.current_item_id is Some
                ==> ids::is_item_id(id, "msg"@)
            &&& forall|k: int|
                before.tool_call_items.len() <= k < after.tool_call_items.len() ==> ids::is_item_id(
                    (#[trigger] after.tool_call_items[k]).item_id,
                    "fc"@,
                )
        },
        Some(e) => {
            &&& e == "Client disconnected"@
            &&& after == chunk_cut(before, chunk, call_ids(after))
            &&& now_sent == sent
        },
    }
}

/// The emitter can number the events and items of this chunk, and a message that it
/// ends was begun.
pub open spec fn can_process(e: EmitterView, chunk: ChatCompletionStreamResponse) -> bool {
    let deltas = chunk_deltas(chunk);
    let calls = grown(e.tool_call_items.len(), deltas);
    &&& e.current_item_id is Some == e.current_message_output_index is Some
    &&& ends_message(chunk_finish(chunk)) ==> chunk_content(chunk).len() > 0
        || e.current_item_id is Some
    &&& e.sequence_number + 6 + 2 * deltas.len() + 2 * calls <= u64::MAX
    &&& e.next_output_index + 1 + calls <= usize::MAX
}

impl ResponseStreamEventEmitter {
    /// Sends an event as a server-sent event. It fails where the client is gone.
    pub fn send_event(&self, event: &Json, tx: &mut EventSink) -> (r: Result<(), String>)
        ensures
            final(tx).open == old(tx).open,
            final(tx).frames.deep_view() == (if old(tx).open {
                old(tx).frames.deep_view().push(frame(event@))
            } else {
                old(tx).frames.deep_view()
            }),
            match r {
                Ok(()) => old(tx).open,
                Err(e) => !old(tx).open && e@ == "Client disconnected"@,
            },
    {
        let event_json = event.to_text();
        let mut message = "event: ".to_owned();
        match event.get_str("type") {
            Some(kind) => message.append(kind.as_str()),
            None => message.append("message"),
        }
        message.append("\ndata: ");
        message.append(event_json.as_str());
        message.append("\n\n");
        if !tx.send(message) {
            return Err("Client disconnected".to_owned());
        }
        Ok(())
    }
}

/// These are the identifiers of the tool calls from this index on.
pub open spec fn agrees(new_ids: Seq<Seq<char>>, e: EmitterView, from: int) -> bool {
    forall|k: int|
        from <= k < e.tool_call_items.len() ==> new_ids[k] == (
        #[trigger] e.tool_call_items[k]).item_id
}

proof fn lemma_grow(e: EmitterView, index: nat, new_ids: Seq<Seq<char>>)
    requires
        e.next_output_index + index + 1 - e.tool_call_items.len() <= usize::MAX,
    ensures
        ({
            let g = grow(e, index, new_ids);
            &&& g == EmitterView {
                tool_call_items: g.tool_call_items,
                output_items: g.output_items,
                next_output_index: g.next_output_index,
                ..e
            }
            &&& g.tool_call_items.len() == if e.tool_call_items.len() <= index {
                index + 1
            } else {
                e.tool_call_items.len()
            }
            &&& g.next_output_index - e.next_output_index == g.tool_call_items.len()
                - e.tool_call_items.len()
            &&& forall|k: int|
                0 <= k < e.tool_call_items.len() ==> #[trigger] g.tool_call_items[k]
                    == e.tool_call_items[k]
        }),
    decreases index + 1 - e.tool_call_items.len(),
{
    if e.tool_call_items.len() <= index {
        let a = e.allocated();
        let next = EmitterView {
            tool_call_items: e.tool_call_items.push(
                ToolCallItemView {
                    output_index: e.next_output_index,
                    item_id: new_ids[e.tool_call_items.len() as int],
                    name: Seq::empty(),
                    arguments: Seq::empty(),
                },
            ),
            ..a
        };
        lemma_grow(next, index, new_ids);
        let g = grow(e, index, new_ids);
        assert forall|k: int| 0 <= k < e.tool_call_items.len() implies #[trigger] g.tool_call_items[k]
            == e.tool_call_items[k] by {
            assert(next.tool_call_items[k] == e.tool_call_items[k]);
        }
    }
}

proof fn lemma_content_step(e: EmitterView, content: Seq<char>, new_id: Seq<char>)
    requires
        e.sequence_number + 3 <= u64::MAX,
        e.next_output_index < usize::MAX,
        e.current_item_id is Some == e.current_message_output_index is Some,
    ensures
        ({
            let after = content_step(e, content, new_id).after;
            &&& after.sequence_number <= e.sequence_number + 3
            &&& after.next_output_index <= e.next_output_index + 1
            &&& after.tool_call_items == e.tool_call_items
            &&& after.current_item_id is Some == after.current_message_output_index is Some
            &&& content.len() > 0 ==> after.current_item_id is Some
            &&& content.len() == 0 ==> content_step(e, content, new_id) == (Step {
                after: e,
                events: Seq::empty(),
            })
            &&& e.current_item_id is Some ==> after.current_item_id == e.current_item_id
        }),
{
    reveal(content_step);
}

proof fn lemma_frames_push(events: Seq<JsonView>, event: JsonView)
    ensures
        frames(events.push(event)) == frames(events).push(frame(event)),
{
    assert(frames(events.push(event)) =~= frames(events).push(frame(event)));
}

/// Identifiers that agree with a later state agree with an earlier one.
proof fn lemma_agrees_before(
    new_ids: Seq<Seq<char>>,
    before: EmitterView,
    after: EmitterView,
    from: int,
)
    requires
        agrees(new_ids, after, from),
        before.tool_call_items.len() <= after.tool_call_items.len(),
        forall|k: int|
            0 <= k < before.tool_call_items.len() ==> (#[trigger] after.tool_call_items[k]).item_id
                == before.tool_call_items[k].item_id,
        from >= 0,
    ensures
        agrees(new_ids, before, from),
{
    assert forall|k: int| from <= k < before.tool_call_items.len() implies new_ids[k] == (
    #[trigger] before.tool_call_items[k]).item_id by {
        assert(after.tool_call_items[k].item_id == before.tool_call_items[k].item_id);
    }
}

/// The state that is left of a tool call whose first event could not be sent.
proof fn lemma_delta_cut(e: EmitterView, d: ToolCallDelta, grown_to: EmitterView, after: EmitterView)
    requires
        grown_to.tool_call_items.len() > d.index,
        grown_to.tool_call_items.len() >= e.tool_call_items.len(),
        forall|new_ids: Seq<Seq<char>>|
            agrees(new_ids, grown_to, e.tool_call_items.len() as int) ==> #[trigger] grow(
                e,
                d.index as nat,
                new_ids,
            ) == grown_to,
        ({
            let named = extend_call(grown_to, d.index as int, delta_name(d), Seq::empty());
            after == if d.id is Some {
                named.counted()
            } else {
                extend_call(named, d.index as int, Seq::empty(), delta_arguments(d)).counted()
            }
        }),
    ensures
        forall|new_ids: Seq<Seq<char>>|
            #[trigger] agrees(new_ids, after, e.tool_call_items.len() as int) ==> delta_cut(
                e,
                d,
                new_ids,
            ) == after,
        after.tool_call_items.len() == grown_to.tool_call_items.len(),
        forall|k: int|
            0 <= k < grown_to.tool_call_items.len() ==> (#[trigger] after.tool_call_items[k]).item_id
                == grown_to.tool_call_items[k].item_id,
{
    assert forall|new_ids: Seq<Seq<char>>| #[trigger] agrees(
        new_ids,
        after,
        e.tool_call_items.len() as int,
    ) implies delta_cut(e, d, new_ids) == after by {
        lemma_agrees_before(new_ids, grown_to, after, e.tool_call_items.len() as int);
        assert(grow(e, d.index as nat, new_ids) == grown_to);
    }
}

/// What could not be sent first decides; later tool calls do not.
proof fn lemma_deltas_cut_prefix(
    e: EmitterView,
    deltas: Seq<ToolCallDelta>,
    new_ids: Seq<Seq<char>>,
    n: int,
)
    requires
        0 <= n <= deltas.len(),
        deltas_speak(deltas.take(n)),
    ensures
        deltas_cut(e, deltas, new_ids) == deltas_cut(e, deltas.take(n), new_ids),
    decreases deltas.len() - n,
{
    if n == deltas.len() {
        assert(deltas.take(n) =~= deltas);
    } else {
        let next = deltas.take(n + 1);
        assert(next.drop_last() =~= deltas.take(n));
        let i = choose|i: int| 0 <= i < deltas.take(n).len() && delta_speaks(
            #[trigger] deltas.take(n)[i],
        );
        assert(next[i] == deltas.take(n)[i]);
        assert(deltas_speak(next));
        lemma_deltas_cut_prefix(e, deltas, new_ids, n + 1);
    }
}

fn make_call_item(id: &str, call_id: &str, name: &str, arguments: &str, status: &str) -> (r: Json)
    ensures
        r@ == call_item(id@, call_id@, name@, arguments@, status@),
{
    let mut fields: Vec<(String, Json)> = Vec::new();
    put(&mut fields, "id", Json::string(id));
    put(&mut fields, "type", Json::string("function_call"));
    put(&mut fields, "call_id", Json::string(call_id));
    put(&mut fields, "name", Json::string(name));
    put(&mut fields, "arguments", Json::string(arguments));
    put(&mut fields, "status", Json::string(status));
    Json::Object(fields)
}

impl ResponseStreamEventEmitter {
    /// More text of the message.
    fn process_content(&mut self, content: &str, tx: &mut EventSink) -> (r: Result<(), String>)
        requires
            old(self).current_item_id is Some == old(self).current_message_output_index is Some,
            old(self).sequence_number + 3 <= u64::MAX,
            old(self).next_output_index < usize::MAX,
        ensures
            final(tx).open == old(tx).open,
            !old(tx).open ==> final(tx).frames.deep_view() == old(tx).frames.deep_view(),
            r is Err <==> !old(tx).open && content@.len() > 0,
            match r {
                Ok(()) => {
                    let id = match final(self)@.current_item_id {
                        Some(id) => id,
                        None => Seq::empty(),
                    };
                    let step = content_step(old(self)@, content@, id);
                    &&& final(self)@ == step.after
                    &&& final(tx).frames.deep_view() == old(tx).frames.deep_view() + frames(
                        step.events,
                    )
                    &&& old(self)@.current_item_id is None && content@.len() > 0
                        ==> ids::is_item_id(id, "msg"@)
                },
                Err(e) => {
                    &&& e@ == "Client disconnected"@
                    &&& final(self)@ == content_cut(old(self)@, content@)
                    &&& final(tx).frames.deep_view() == old(tx).frames.deep_view()
                },
            },
    {
        proof {
            reveal(content_step);
        }
        if content.is_empty() {
            assert(tx.frames.deep_view() =~= tx.frames.deep_view() + frames(Seq::empty()));
            return Ok(());
        }
        let ghost sent = tx.frames.deep_view();
        let ghost mut events: Seq<JsonView> = Seq::empty();
        assert(sent =~= sent + frames(events));
        if self.current_item_id.is_none() {
            let (output_index, item_id) = self.allocate_output_index(OutputItemType::Message);
            let nothing: Vec<Json> = Vec::new();
            assert(json::array_view(nothing@) =~= Seq::empty());
            let item = emitter::make_message_item(item_id.as_str(), nothing);
            let event = self.emit_output_item_added(output_index, &item);
            self.send_event(&event, tx)?;
            proof {
                lemma_frames_push(events, event@);
                assert(sent + frames(events.push(event@)) =~= (sent + frames(events)).push(
                    frame(event@),
                ));
                events = events.push(event@);
            }
            self.has_emitted_output_item_added = true;
            self.current_item_id = Some(item_id);
            self.current_message_output_index = Some(output_index);
        }
        let output_index: usize = self.current_message_output_index.unwrap();
        let item_id = match &self.current_item_id {
            Some(id) => id.clone(),
            None => String::new(),
        };
        if !self.has_emitted_content_part_added {
            let event = self.emit_content_part_added(output_index, item_id.as_str(), 0);
            self.send_event(&event, tx)?;
            proof {
                lemma_frames_push(events, event@);
                assert(sent + frames(events.push(event@)) =~= (sent + frames(events)).push(
                    frame(event@),
                ));
                events = events.push(event@);
            }
        }
        let event = self.emit_text_delta(content, output_index, item_id.as_str(), 0);
        self.send_event(&event, tx)?;
        proof {
            lemma_frames_push(events, event@);
            assert(sent + frames(events.push(event@)) =~= (sent + frames(events)).push(
                frame(event@),
            ));
            events = events.push(event@);
            let step = content_step(old(self)@, content@, item_id@);
            assert(events =~= step.events);
            assert(self@ =~= step.after);
        }
        Ok(())
    }

    /// Tracks tool calls until there is one at this index.
    fn grow_tool_calls(&mut self, index: usize)
        requires
            old(self).next_output_index + index + 1 - old(self)@.tool_call_items.len()
                <= usize::MAX,
        ensures
            final(self)@.tool_call_items.len() > index,
            forall|new_ids: Seq<Seq<char>>|
                agrees(new_ids, final(self)@, old(self)@.tool_call_items.len() as int)
                    ==> #[trigger] grow(old(self)@, index as nat, new_ids) == final(self)@,
            forall|k: int|
                old(self)@.tool_call_items.len() <= k < final(self)@.tool_call_items.len()
                    ==> ids::is_item_id((#[trigger] final(self)@.tool_call_items[k]).item_id, "fc"@),
    {
        let ghost start = self@.tool_call_items.len() as int;
        while self.tool_call_items.len() <= index
            invariant
                start == old(self)@.tool_call_items.len(),
                start <= self@.tool_call_items.len(),
                self.next_output_index + index + 1 - self@.tool_call_items.len() <= usize::MAX,
                forall|new_ids: Seq<Seq<char>>|
                    agrees(new_ids, self@, start) ==> #[trigger] grow(
                        old(self)@,
                        index as nat,
                        new_ids,
                    ) == grow(self@, index as nat, new_ids),
                forall|k: int|
                    start <= k < self@.tool_call_items.len() ==> ids::is_item_id(
                        (#[trigger] self@.tool_call_items[k]).item_id,
                        "fc"@,
                    ),
            decreases index + 1 - self.tool_call_items.len(),
        {
            let ghost e = self@;
            let (output_index, item_id) = self.allocate_output_index(OutputItemType::FunctionCall);
            self.tool_call_items.push(
                ToolCallItem {
                    output_index,
                    item_id,
                    name: String::new(),
                    arguments: String::new(),
                },
            );
            proof {
                let call = ToolCallItemView {
                    output_index,
                    item_id: item_id@,
                    name: Seq::empty(),
                    arguments: Seq::empty(),
                };
                assert(self@.tool_call_items =~= e.tool_call_items.push(call));
                assert forall|new_ids: Seq<Seq<char>>| agrees(new_ids, self@, start) implies
                    #[trigger] grow(old(self)@, index as nat, new_ids) == grow(
                    self@,
                    index as nat,
                    new_ids,
                ) by {
                    assert(self@.tool_call_items[e.tool_call_items.len() as int] == call);
                    assert(new_ids[e.tool_call_items.len() as int] == item_id@);
                    assert(agrees(new_ids, e, start)) by {
                        assert forall|k: int| start <= k < e.tool_call_items.len() implies new_ids[k]
                            == (#[trigger] e.tool_call_items[k]).item_id by {
                            assert(self@.tool_call_items[k] == e.tool_call_items[k]);
                        }
                    }
                    assert(self@ =~= (EmitterView {
                        tool_call_items: e.tool_call_items.push(call),
                        ..e.allocated()
                    }));
                }
                assert forall|k: int| start <= k < self@.tool_call_items.len() implies
                    ids::is_item_id((#[trigger] self@.tool_call_items[k]).item_id, "fc"@) by {
                    if k < e.tool_call_items.len() {
                        assert(self@.tool_call_items[k] == e.tool_call_items[k]);
                    }
                }
            }
        }
    }

    /// Adds to the name and the arguments of a tool call.
    fn extend_tool_call(&mut self, index: usize, name: &str, arguments: &str)
        requires
            index < old(self).tool_call_items.len(),
        ensures
            final(self).tool_call_items.len() == old(self).tool_call_items.len(),
            final(self)@ == extend_call(old(self)@, index as int, name@, arguments@),
    {
        let ghost before = self.tool_call_items.deep_view();
        let mut new_name = self.tool_call_items[index].name.clone();
        new_name.append(name);
        let mut new_arguments = self.tool_call_items[index].arguments.clone();
        new_arguments.append(arguments);
        self.tool_call_items[index].name = new_name;
        self.tool_call_items[index].arguments = new_arguments;
        assert(self.tool_call_items.deep_view() =~= extend_call(
            old(self)@,
            index as int,
            name@,
            arguments@,
        ).tool_call_items);
    }

    /// More of one tool call.
    fn process_delta(&mut self, delta: &ToolCallDelta, tx: &mut EventSink) -> (r: Result<
        (),
        String,
    >)
        requires
            old(self).sequence_number + 2 <= u64::MAX,
            old(self).next_output_index + delta.index + 1 - old(self)@.tool_call_items.len()
                <= usize::MAX,
        ensures
            final(tx).open == old(tx).open,
            r is Err <==> !old(tx).open && delta_speaks(*delta),
            match r {
                Ok(()) => {
                    &&& forall|new_ids: Seq<Seq<char>>|
                        #[trigger] agrees(
                            new_ids,
                            final(self)@,
                            old(self)@.tool_call_items.len() as int,
                        ) ==> {
                            let step = delta_step(old(self)@, *delta, new_ids);
                            &&& step.after == final(self)@
                            &&& final(tx).frames.deep_view() == old(tx).frames.deep_view()
                                + frames(step.events)
                        }
                    &&& final(self)@ == EmitterView {
                        sequence_number: final(self).sequence_number,
                        tool_call_items: final(self)@.tool_call_items,
                        output_items: final(self)@.output_items,
                        next_output_index: final(self).next_output_index,
                        ..old(self)@
                    }
                    &&& final(self).sequence_number <= old(self).sequence_number + 2
                    &&& final(self)@.tool_call_items.len() == (if old(self)@.tool_call_items.len() <= delta.index {
                        delta.index + 1
                    } else {
                        old(self)@.tool_call_items.len() as int
                    })
                    &&& final(self).next_output_index - old(self).next_output_index == final(self)@.tool_call_items.len() - old(self)@.tool_call_items.len()
                    &&& forall|k: int|
                        0 <= k < old(self)@.tool_call_items.len() ==> (
                        #[trigger] final(self)@.tool_call_items[k]).item_id == old(self)@.tool_call_items[k].item_id
                    &&& forall|k: int|
                        old(self)@.tool_call_items.len() <= k < final(self)@.tool_call_items.len()
                            ==> ids::is_item_id(
                            (#[trigger] final(self)@.tool_call_items[k]).item_id,
                            "fc"@,
                        )
                },
                Err(e) => {
                    &&& e@ == "Client disconnected"@
                    &&& forall|new_ids: Seq<Seq<char>>|
                        #[trigger] agrees(
                            new_ids,
                            final(self)@,
                            old(self)@.tool_call_items.len() as int,
                        ) ==> delta_cut(old(self)@, *delta, new_ids) == final(self)@
                    &&& forall|k: int|
                        0 <= k < old(self)@.tool_call_items.len() ==> (
                        #[trigger] final(self)@.tool_call_items[k]).item_id
                            == old(self)@.tool_call_items[k].item_id
                    &&& final(self)@.tool_call_items.len() >= old(self)@.tool_call_items.len()
                    &&& final(tx).frames.deep_view() == old(tx).frames.deep_view()
                },
            },
    {
        let ghost sent = tx.frames.deep_view();
        let ghost mut events: Seq<JsonView> = Seq::empty();
        assert(sent =~= sent + frames(events));
        proof {
            reveal(delta_step);
        }
        let index: usize = delta.index as usize;
        self.grow_tool_calls(index);
        let ghost own_ids = call_ids(self@);
        let ghost grown_to = self@;
        assert(self.tool_call_items.len() == self@.tool_call_items.len());
        proof {
            assert(agrees(own_ids, self@, old(self)@.tool_call_items.len() as int));
            assert(grow(old(self)@, index as nat, own_ids) == self@);
            lemma_grow(old(self)@, index as nat, own_ids);
        }
        let name = match &delta.function {
            Some(f) => match &f.name {
                Some(name) => name.clone(),
                None => String::new(),
            },
            None => String::new(),
        };
        self.extend_tool_call(index, name.as_str(), "");
        proof {
            reveal_strlit("");
            assert(""@ =~= Seq::empty());
        }
        let ghost named = self@;
        let output_index: usize = self.tool_call_items[index].output_index;
        let item_id = self.tool_call_items[index].item_id.clone();
        if let Some(delta_id) = &delta.id {
            let item = make_call_item(
                item_id.as_str(),
                delta_id.as_str(),
                self.tool_call_items[index].name.as_str(),
                "",
                "in_progress",
            );
            let event = self.emit_output_item_added(output_index, &item);
            if let Err(e) = self.send_event(&event, tx) {
                proof {
                    lemma_delta_cut(old(self)@, *delta, grown_to, self@);
                }
                return Err(e);
            }
            proof {
                lemma_frames_push(events, event@);
                assert(sent + frames(events.push(event@)) =~= (sent + frames(events)).push(
                    frame(event@),
                ));
                events = events.push(event@);
            }
        }
        let arguments = match &delta.function {
            Some(f) => match &f.arguments {
                Some(arguments) => arguments.clone(),
                None => String::new(),
            },
            None => String::new(),
        };
        assert(self.tool_call_items.len() == self@.tool_call_items.len());
        if !arguments.as_str().is_empty() {
            self.extend_tool_call(index, "", arguments.as_str());
            let event = self.emit_function_call_arguments_delta(
                output_index,
                item_id.as_str(),
                arguments.as_str(),
            );
            if let Err(e) = self.send_event(&event, tx) {
                proof {
                    lemma_delta_cut(old(self)@, *delta, grown_to, self@);
                }
                return Err(e);
            }
            proof {
                lemma_frames_push(events, event@);
                assert(sent + frames(events.push(event@)) =~= (sent + frames(events)).push(
                    frame(event@),
                ));
                events = events.push(event@);
            }
        }
        proof {
            let start = old(self)@.tool_call_items.len() as int;
            assert forall|new_ids: Seq<Seq<char>>| #[trigger] agrees(new_ids, self@, start) implies ({
                let step = delta_step(old(self)@, *delta, new_ids);
                &&& step.after == self@
                &&& tx.frames.deep_view() == sent + frames(step.events)
            }) by {
                assert(agrees(new_ids, grown_to, start)) by {
                    assert forall|k: int| start <= k < grown_to.tool_call_items.len() implies
                        new_ids[k] == (#[trigger] grown_to.tool_call_items[k]).item_id by {
                        assert(self@.tool_call_items[k].item_id
                            == grown_to.tool_call_items[k].item_id);
                    }
                }
                assert(grow(old(self)@, index as nat, new_ids) == grown_to);
                let step = delta_step(old(self)@, *delta, new_ids);
                assert(step.events =~= events);
                assert(step.after =~= self@);
            }
        }
        Ok(())
    }

    /// More of several tool calls.
    fn process_deltas(&mut self, deltas: &Vec<ToolCallDelta>, tx: &mut EventSink) -> (r: Result<
        (),
        String,
    >)
        requires
            old(self).sequence_number + 2 * deltas@.len() <= u64::MAX,
            old(self).next_output_index + grown(old(self)@.tool_call_items.len(), deltas@)
                <= usize::MAX,
        ensures
            final(tx).open == old(tx).open,
            !old(tx).open ==> final(tx).frames.deep_view() == old(tx).frames.deep_view(),
            r is Err <==> !old(tx).open && deltas_speak(deltas@),
            match r {
                Ok(()) => {
                    &&& forall|new_ids: Seq<Seq<char>>|
                        #[trigger] agrees(
                            new_ids,
                            final(self)@,
                            old(self)@.tool_call_items.len() as int,
                        ) ==> {
                            let step = deltas_step(old(self)@, deltas@, new_ids);
                            &&& step.after == final(self)@
                            &&& final(tx).frames.deep_view() == old(tx).frames.deep_view()
                                + frames(step.events)
                        }
                    &&& final(self)@ == EmitterView {
                        sequence_number: final(self).sequence_number,
                        tool_call_items: final(self)@.tool_call_items,
                        output_items: final(self)@.output_items,
                        next_output_index: final(self).next_output_index,
                        ..old(self)@
                    }
                    &&& final(self).sequence_number <= old(self).sequence_number + 2 * deltas@.len()
                    &&& final(self)@.tool_call_items.len() == grown(
                        old(self)@.tool_call_items.len(),
                        deltas@,
                    )
                    &&& forall|k: int|
                        old(self)@.tool_call_items.len() <= k < final(self)@.tool_call_items.len()
                            ==> ids::is_item_id(
                            (#[trigger] final(self)@.tool_call_items[k]).item_id,
                            "fc"@,
                        )
                },
                Err(e) => {
                    &&& e@ == "Client disconnected"@
                    &&& forall|new_ids: Seq<Seq<char>>|
                        #[trigger] agrees(
                            new_ids,
                            final(self)@,
                            old(self)@.tool_call_items.len() as int,
                        ) ==> deltas_cut(old(self)@, deltas@, new_ids) == final(self)@
                    &&& final(tx).frames.deep_view() == old(tx).frames.deep_view()
                },
            },
    {
        let ghost start = self@;
        let ghost from = self@.tool_call_items.len() as int;
        let ghost sent = tx.frames.deep_view();
        let ghost open = tx.open;
        proof {
            assert(deltas@.take(0) =~= Seq::empty());
            assert(sent =~= sent + frames(Seq::empty()));
        }
        for i in 0..deltas.len()
            invariant
                start == old(self)@,
                from == start.tool_call_items.len(),
                tx.open == open,
                old(tx).open == open,
                sent == old(tx).frames.deep_view(),
                !open ==> tx.frames.deep_view() == sent,
                !open ==> forall|j: int| 0 <= j < i ==> !delta_speaks(#[trigger] deltas@[j]),
                start.sequence_number + 2 * deltas@.len() <= u64::MAX,
                start.next_output_index + grown(start.tool_call_items.len(), deltas@)
                    <= usize::MAX,
                self.sequence_number <= start.sequence_number + 2 * i,
                self@ == (EmitterView {
                    sequence_number: self.sequence_number,
                    tool_call_items: self@.tool_call_items,
                    output_items: self@.output_items,
                    next_output_index: self.next_output_index,
                    ..start
                }),
                self@.tool_call_items.len() == grown(
                    start.tool_call_items.len(),
                    deltas@.take(i as int),
                ),
                self@.tool_call_items.len() >= from,
                self.next_output_index - start.next_output_index == self@.tool_call_items.len()
                    - from,
                forall|new_ids: Seq<Seq<char>>|
                    #[trigger] agrees(new_ids, self@, from) ==> {
                        let step = deltas_step(start, deltas@.take(i as int), new_ids);
                        &&& step.after == self@
                        &&& tx.frames.deep_view() == sent + frames(step.events)
                    },
                forall|k: int|
                    from <= k < self@.tool_call_items.len() ==> ids::is_item_id(
                        (#[trigger] self@.tool_call_items[k]).item_id,
                        "fc"@,
                    ),
        {
            let ghost before = self@;
            let ghost sent_before = tx.frames.deep_view();
            proof {
                assert(deltas@.take(i + 1).drop_last() =~= deltas@.take(i as int));
                assert(deltas@.take(i + 1).last() == deltas@[i as int]);
                lemma_grown_prefix(start.tool_call_items.len(), deltas@, i + 1);
            }
            if let Err(e) = self.process_delta(&deltas[i], tx) {
                proof {
                    assert(deltas_speak(deltas@.take(i + 1))) by {
                        assert(deltas@.take(i + 1)[i as int] == deltas@[i as int]);
                    }
                    assert(!deltas_speak(deltas@.take(i as int)));
                    assert forall|new_ids: Seq<Seq<char>>| #[trigger] agrees(
                        new_ids,
                        self@,
                        from,
                    ) implies deltas_cut(start, deltas@, new_ids) == self@ by {
                        lemma_agrees_before(new_ids, before, self@, from);
                        assert(agrees(new_ids, self@, before.tool_call_items.len() as int));
                        lemma_deltas_cut_prefix(start, deltas@, new_ids, i + 1);
                    }
                }
                return Err(e);
            }
            proof {
                assert forall|new_ids: Seq<Seq<char>>| #[trigger] agrees(new_ids, self@, from) implies ({
                    let step = deltas_step(start, deltas@.take(i + 1), new_ids);
                    &&& step.after == self@
                    &&& tx.frames.deep_view() == sent + frames(step.events)
                }) by {
                    assert(agrees(new_ids, before, from)) by {
                        assert forall|k: int| from <= k < before.tool_call_items.len() implies
                            new_ids[k] == (#[trigger] before.tool_call_items[k]).item_id by {
                            assert(self@.tool_call_items[k].item_id
                                == before.tool_call_items[k].item_id);
                        }
                    }
                    assert(agrees(new_ids, self@, before.tool_call_items.len() as int));
                    let first = deltas_step(start, deltas@.take(i as int), new_ids);
                    let second = delta_step(before, deltas@[i as int], new_ids);
                    assert(first.after == before);
                    assert(frames(first.events + second.events) =~= frames(first.events) + frames(
                        second.events,
                    ));
                    assert(sent + frames(first.events) + frames(second.events) =~= sent + (frames(
                        first.events,
                    ) + frames(second.events)));
                }
                assert forall|k: int| from <= k < self@.tool_call_items.len() implies
                    ids::is_item_id((#[trigger] self@.tool_call_items[k]).item_id, "fc"@) by {
                    if k < before.tool_call_items.len() {
                        assert(ids::is_item_id(before.tool_call_items[k].item_id, "fc"@));
                    }
                }
                if !open {
                    reveal(delta_step);
                    let own_ids = call_ids(self@);
                    assert(agrees(own_ids, self@, before.tool_call_items.len() as int));
                    let step = delta_step(before, deltas@[i as int], own_ids);
                    assert(step.events.len() == 0);
                    assert(frames(step.events) =~= Seq::empty());
                    assert(sent_before + frames(step.events) =~= sent_before);
                }
            }
        }
        proof {
            assert(deltas@.take(deltas@.len() as int) =~= deltas@);
        }
        Ok(())
    }
}

proof fn lemma_grown_prefix(known: nat, deltas: Seq<ToolCallDelta>, n: int)
    requires
        0 <= n <= deltas.len(),
    ensures
        known <= grown(known, deltas.take(n)) <= grown(known, deltas),
    decreases deltas.len(),
{
    if deltas.len() == 0 {
        assert(deltas.take(n) =~= deltas);
    } else if n == deltas.len() {
        assert(deltas.take(n) =~= deltas);
        lemma_grown_prefix(known, deltas.drop_last(), n - 1);
        assert(deltas.drop_last().take(n - 1) =~= deltas.drop_last());
    } else {
        lemma_grown_prefix(known, deltas.drop_last(), n);
        assert(deltas.drop_last().take(n) =~= deltas.take(n));
    }
}

impl ResponseStreamEventEmitter {
    /// The tool calls are done.
    fn process_calls_done(&mut self, tx: &mut EventSink) -> (r: Result<(), String>)
        requires
            old(self).sequence_number + 2 * old(self)@.tool_call_items.len() <= u64::MAX,
        ensures
            final(tx).open == old(tx).open,
            !old(tx).open ==> final(tx).frames.deep_view() == old(tx).frames.deep_view(),
            r is Err <==> !old(tx).open && old(self)@.tool_call_items.len() > 0,
            match r {
                Ok(()) => {
                    let step = calls_done_step(old(self)@, old(self)@.tool_call_items);
                    &&& final(self)@ == step.after
                    &&& final(self)@.tool_call_items == old(self)@.tool_call_items
                    &&& final(self)@.current_item_id == old(self)@.current_item_id
                    &&& final(tx).frames.deep_view() == old(tx).frames.deep_view() + frames(
                        step.events,
                    )
                },
                Err(e) => {
                    &&& e@ == "Client disconnected"@
                    &&& final(self)@ == old(self)@.counted()
                    &&& final(tx).frames.deep_view() == old(tx).frames.deep_view()
                },
            },
    {
        let ghost start = self@;
        let ghost calls = self@.tool_call_items;
        let ghost sent = tx.frames.deep_view();
        let ghost open = tx.open;
        proof {
            assert(calls.take(0) =~= Seq::empty());
            assert(sent =~= sent + frames(Seq::empty()));
            assert(self.tool_call_items.len() == calls.len());
        }
        let n: usize = self.tool_call_items.len();
        for i in 0..n
            invariant
                n == calls.len(),
                self.tool_call_items@.len() == n,
                start == old(self)@,
                calls == start.tool_call_items,
                tx.open == open,
                old(tx).open == open,
                sent == old(tx).frames.deep_view(),
                !open ==> i == 0,
                start.sequence_number + 2 * calls.len() <= u64::MAX,
                self.sequence_number == start.sequence_number + 2 * i,
                self@.tool_call_items == calls,
                self@.current_item_id == start.current_item_id,
                self@ == calls_done_step(start, calls.take(i as int)).after,
                tx.frames.deep_view() == sent + frames(
                    calls_done_step(start, calls.take(i as int)).events,
                ),
        {
            let ghost before = self@;
            let ghost first = calls_done_step(start, calls.take(i as int));
            proof {
                assert(calls.take(i + 1).drop_last() =~= calls.take(i as int));
                assert(calls.take(i + 1).last() == calls[i as int]);
                assert(self.tool_call_items.deep_view()[i as int] == calls[i as int]);
            }
            let output_index: usize = self.tool_call_items[i].output_index;
            let item_id = self.tool_call_items[i].item_id.clone();
            let name = self.tool_call_items[i].name.clone();
            let arguments = self.tool_call_items[i].arguments.clone();
            let event = self.emit_function_call_arguments_done(
                output_index,
                item_id.as_str(),
                arguments.as_str(),
            );
            self.send_event(&event, tx)?;
            let item = make_call_item(
                item_id.as_str(),
                item_id.as_str(),
                name.as_str(),
                arguments.as_str(),
                "completed",
            );
            let done = self.emit_output_item_done(output_index, &item);
            self.send_event(&done, tx)?;
            self.complete_output_item(output_index);
            proof {
                lemma_frames_push(first.events, event@);
                lemma_frames_push(first.events.push(event@), done@);
                assert(sent + frames(first.events.push(event@).push(done@)) =~= (sent + frames(
                    first.events,
                )).push(frame(event@)).push(frame(done@)));
                assert(self.tool_call_items.len() == calls.len());
            }
        }
        proof {
            assert(calls.take(calls.len() as int) =~= calls);
        }
        Ok(())
    }

    /// The message is done.
    fn process_message_done(&mut self, tx: &mut EventSink) -> (r: Result<(), String>)
        requires
            old(self).current_message_output_index is Some,
            old(self).current_item_id is Some,
            old(self).sequence_number + 3 <= u64::MAX,
        ensures
            final(tx).open == old(tx).open,
            !old(tx).open ==> final(tx).frames.deep_view() == old(tx).frames.deep_view(),
            r is Err <==> !old(tx).open && (old(self).has_emitted_content_part_added || old(self).has_emitted_output_item_added),
            match r {
                Ok(()) => {
                    let step = message_done_step(old(self)@);
                    &&& final(self)@ == step.after
                    &&& final(self)@.tool_call_items == old(self)@.tool_call_items
                    &&& final(self)@.current_item_id == old(self)@.current_item_id
                    &&& final(tx).frames.deep_view() == old(tx).frames.deep_view() + frames(
                        step.events,
                    )
                },
                Err(e) => {
                    &&& e@ == "Client disconnected"@
                    &&& final(self)@ == finish_cut(old(self)@, Some("stop"@))
                    &&& final(tx).frames.deep_view() == old(tx).frames.deep_view()
                },
            },
    {
        let ghost sent = tx.frames.deep_view();
        let ghost mut events: Seq<JsonView> = Seq::empty();
        assert(sent =~= sent + frames(events));
        proof {
            reveal(message_done_step);
        }
        let output_index: usize = self.current_message_output_index.unwrap();
        let item_id = match &self.current_item_id {
            Some(id) => id.clone(),
            None => String::new(),
        };
        if self.has_emitted_content_part_added {
            let event = self.emit_text_done(output_index, item_id.as_str(), 0);
            self.send_event(&event, tx)?;
            let done = self.emit_content_part_done(output_index, item_id.as_str(), 0);
            self.send_event(&done, tx)?;
            proof {
                lemma_frames_push(events, event@);
                lemma_frames_push(events.push(event@), done@);
                assert(sent + frames(events.push(event@).push(done@)) =~= (sent + frames(
                    events,
                )).push(frame(event@)).push(frame(done@)));
                events = events.push(event@).push(done@);
            }
        }
        if self.has_emitted_output_item_added {
            let item = emitter::make_text_message(
                item_id.as_str(),
                self.accumulated_text.as_str(),
            );
            let event = self.emit_output_item_done(output_index, &item);
            self.send_event(&event, tx)?;
            proof {
                lemma_frames_push(events, event@);
                assert(sent + frames(events.push(event@)) =~= (sent + frames(events)).push(
                    frame(event@),
                ));
                events = events.push(event@);
            }
        }
        self.complete_output_item(output_index);
        proof {
            let step = message_done_step(old(self)@);
            assert(events =~= step.events);
        }
        Ok(())
    }

    /// The choice is finished, where there is a reason.
    fn process_finish(&mut self, reason: &Option<String>, tx: &mut EventSink) -> (r: Result<
        (),
        String,
    >)
        requires
            ends_message(reason.deep_view()) ==> old(self).current_message_output_index is Some
                && old(self).current_item_id is Some,
            old(self).sequence_number + 3 + 2 * old(self)@.tool_call_items.len() <= u64::MAX,
        ensures
            final(tx).open == old(tx).open,
            !old(tx).open ==> final(tx).frames.deep_view() == old(tx).frames.deep_view(),
            r is Err <==> !old(tx).open && finish_speaks(
                old(self)@,
                reason.deep_view(),
                old(self)@.tool_call_items.len(),
            ),
            match r {
                Ok(()) => {
                    let step = finish_step(old(self)@, reason.deep_view());
                    &&& final(self)@ == step.after
                    &&& final(self)@.tool_call_items == old(self)@.tool_call_items
                    &&& final(self)@.current_item_id == old(self)@.current_item_id
                    &&& final(tx).frames.deep_view() == old(tx).frames.deep_view() + frames(
                        step.events,
                    )
                },
                Err(e) => {
                    &&& e@ == "Client disconnected"@
                    &&& final(self)@ == finish_cut(old(self)@, reason.deep_view())
                    &&& final(self)@.tool_call_items == old(self)@.tool_call_items
                },
            },
    {
        if let Some(reason) = reason {
            proof {
                reveal_strlit("tool_calls");
                reveal_strlit("stop");
                reveal_strlit("length");
                assert("tool_calls"@.len() != "stop"@.len());
                assert("tool_calls"@.len() != "length"@.len());
            }
            if text::same(reason.as_str(), "tool_calls") {
                return self.process_calls_done(tx);
            }
            if text::same(reason.as_str(), "stop") || text::same(reason.as_str(), "length") {
                return self.process_message_done(tx);
            }
        }
        assert(tx.frames.deep_view() =~= tx.frames.deep_view() + frames(Seq::empty()));
        Ok(())
    }

    /// The text and the tool calls of a choice.
    fn process_body(
        &mut self,
        content: &Option<String>,
        deltas: &Option<Vec<ToolCallDelta>>,
        tx: &mut EventSink,
    ) -> (r: Result<(), String>)
        requires
            old(self).current_item_id is Some == old(self).current_message_output_index is Some,
            old(self).sequence_number + 3 + 2 * opt_deltas(*deltas).len() <= u64::MAX,
            old(self).next_output_index + 1 + grown(
                old(self)@.tool_call_items.len(),
                opt_deltas(*deltas),
            ) <= usize::MAX,
        ensures
            final(tx).open == old(tx).open,
            !old(tx).open ==> final(tx).frames.deep_view() == old(tx).frames.deep_view(),
            r is Err <==> !old(tx).open && body_speaks(opt_text(*content), opt_deltas(*deltas)),
            match r {
                Ok(()) => {
                    let id = match final(self)@.current_item_id {
                        Some(id) => id,
                        None => Seq::empty(),
                    };
                    let step = body_step(
                        old(self)@,
                        opt_text(*content),
                        opt_deltas(*deltas),
                        id,
                        call_ids(final(self)@),
                    );
                    &&& final(self)@ == step.after
                    &&& final(tx).frames.deep_view() == old(tx).frames.deep_view() + frames(
                        step.events,
                    )
                    &&& final(self).sequence_number <= old(self).sequence_number + 3 + 2
                        * opt_deltas(*deltas).len()
                    &&& final(self)@.tool_call_items.len() == grown(
                        old(self)@.tool_call_items.len(),
                        opt_deltas(*deltas),
                    )
                    &&& final(self).current_item_id is Some
                        == final(self).current_message_output_index is Some
                    &&& opt_text(*content).len() > 0 || old(self).current_item_id is Some
                        ==> final(self).current_item_id is Some
                    &&& opt_text(*content).len() == 0 ==> {
                        &&& final(self).has_emitted_content_part_added
                            == old(self).has_emitted_content_part_added
                        &&& final(self).has_emitted_output_item_added
                            == old(self).has_emitted_output_item_added
                    }
                    &&& old(self)@.current_item_id is None && final(self)@.current_item_id is Some
                        ==> ids::is_item_id(id, "msg"@)
                    &&& forall|k: int|
                        old(self)@.tool_call_items.len() <= k < final(self)@.tool_call_items.len()
                            ==> ids::is_item_id(
                            (#[trigger] final(self)@.tool_call_items[k]).item_id,
                            "fc"@,
                        )
                },
                Err(e) => {
                    &&& e@ == "Client disconnected"@
                    &&& final(self)@ == (if opt_text(*content).len() > 0 {
                        content_cut(old(self)@, opt_text(*content))
                    } else {
                        deltas_cut(old(self)@, opt_deltas(*deltas), call_ids(final(self)@))
                    })
                },
            },
    {
        let ghost sent = tx.frames.deep_view();
        proof {
            lemma_grown_prefix(self@.tool_call_items.len(), opt_deltas(*deltas), 0);
        }
        if let Some(content) = content {
            self.process_content(content.as_str(), tx)?;
        } else {
            assert(tx.frames.deep_view() =~= sent + frames(Seq::empty()));
            proof {
                lemma_content_step(
                    self@,
                    Seq::empty(),
                    match self@.current_item_id {
                        Some(id) => id,
                        None => Seq::empty(),
                    },
                );
            }
        }
        let ghost id = match self@.current_item_id {
            Some(id) => id,
            None => Seq::empty(),
        };
        let ghost first = content_step(old(self)@, opt_text(*content), id);
        assert(self@ == first.after);
        proof {
            lemma_content_step(old(self)@, opt_text(*content), id);
        }
        let ghost sent_first = tx.frames.deep_view();
        assert(sent_first == sent + frames(first.events));
        if let Some(deltas) = deltas {
            if let Err(e) = self.process_deltas(deltas, tx) {
                assert(agrees(
                    call_ids(self@),
                    self@,
                    first.after.tool_call_items.len() as int,
                ));
                return Err(e);
            }
        } else {
            assert(tx.frames.deep_view() =~= sent_first + frames(Seq::empty()));
        }
        proof {
            let own_ids = call_ids(self@);
            let second = deltas_step(first.after, opt_deltas(*deltas), own_ids);
            assert(agrees(own_ids, self@, first.after.tool_call_items.len() as int));
            assert(self@ == second.after);
            assert(tx.frames.deep_view() == sent_first + frames(second.events));
            assert(frames(first.events + second.events) =~= frames(first.events) + frames(
                second.events,
            ));
            assert(sent + frames(first.events) + frames(second.events) =~= sent + (frames(
                first.events,
            ) + frames(second.events)));
        }
        Ok(())
    }

    /// Turns a chunk of the chat completion into events and sends them. It fails where
    /// there is something to send and the client is gone; nothing more is then sent.
    pub fn process_chunk(
        &mut self,
        chunk: &ChatCompletionStreamResponse,
        tx: &mut EventSink,
    ) -> (r: Result<(), String>)
        requires
            can_process(old(self)@, *chunk),
        ensures
            final(tx).open == old(tx).open,
            is_told(
                old(self)@,
                final(self)@,
                *chunk,
                old(tx).open,
                old(tx).frames.deep_view(),
                final(tx).frames.deep_view(),
                match r {
                    Ok(()) => None,
                    Err(e) => Some(e@),
                },
            ),
    {
        if chunk.choices.len() == 0 {
            proof {
                reveal(content_step);
                let step = chunk_step(self@, *chunk, Seq::empty(), call_ids(self@));
                assert(step.events =~= Seq::empty());
                assert(tx.frames.deep_view() =~= tx.frames.deep_view() + frames(step.events));
            }
            return Ok(());
        }
        let choice = &chunk.choices[0];
        let ghost sent = tx.frames.deep_view();
        self.process_body(&choice.delta.content, &choice.delta.tool_calls, tx)?;
        let ghost id = match self@.current_item_id {
            Some(id) => id,
            None => Seq::empty(),
        };
        let ghost own_ids = call_ids(self@);
        let ghost body = body_step(
            old(self)@,
            chunk_content(*chunk),
            chunk_deltas(*chunk),
            id,
            own_ids,
        );
        let ghost sent_body = tx.frames.deep_view();
        if let Err(e) = self.process_finish(&choice.finish_reason, tx) {
            proof {
                lemma_content_step(old(self)@, Seq::empty(), id);
                assert(chunk_content(*chunk) =~= Seq::empty());
                assert(call_ids(self@) == own_ids);
            }
            return Err(e);
        }
        proof {
            let finish = finish_step(body.after, chunk_finish(*chunk));
            assert(self@ == finish.after);
            assert(frames(body.events + finish.events) =~= frames(body.events) + frames(
                finish.events,
            ));
            assert(sent + frames(body.events) + frames(finish.events) =~= sent + (frames(
                body.events,
            ) + frames(finish.events)));
            assert(call_ids(self@) == own_ids);
        }
        Ok(())
    }
}

/// How many tool calls are known after these deltas.
fn count_grown(known: usize, deltas: &Vec<ToolCallDelta>) -> (r: u64)
    ensures
        r == grown(known as nat, deltas@),
{
    let mut n: u64 = known as u64;
    assert(deltas@.take(0) =~= Seq::empty());
    for i in 0..deltas.len()
        invariant
            n == grown(known as nat, deltas@.take(i as int)),
    {
        assert(deltas@.take(i + 1).drop_last() =~= deltas@.take(i as int));
        assert(deltas@.take(i + 1).last() == deltas@[i as int]);
        if n <= deltas[i].index as u64 {
            n = deltas[i].index as u64 + 1;
        }
    }
    assert(deltas@.take(deltas@.len() as int) =~= deltas@);
    n
}

impl ResponseStreamEventEmitter {
    /// Whether this chunk can be processed: the numbers do not run out, and a message
    /// that it ends was begun.
    pub fn accepts(&self, chunk: &ChatCompletionStreamResponse) -> (r: bool)
        ensures
            r == can_process(self@, *chunk),
    {
        let known: usize = self.tool_call_items.len();
        let mut content = false;
        let mut calls: u64 = known as u64;
        let mut count: u64 = 0;
        let mut ends = false;
        if chunk.choices.len() > 0 {
            let choice = &chunk.choices[0];
            if let Some(c) = &choice.delta.content {
                content = !c.as_str().is_empty();
            }
            if let Some(deltas) = &choice.delta.tool_calls {
                calls = count_grown(known, deltas);
                count = deltas.len() as u64;
            }
            if let Some(reason) = &choice.finish_reason {
                ends = text::same(reason.as_str(), "stop") || text::same(reason.as_str(), "length");
            }
        }
        let sequence: u128 = self.sequence_number as u128 + 6 + 2 * (count as u128) + 2 * (
        calls as u128);
        let next: u128 = self.next_output_index as u128 + 1 + calls as u128;
        self.current_item_id.is_some() == self.current_message_output_index.is_some() && (!ends
            || content || self.current_item_id.is_some()) && sequence <= u64::MAX as u128 && next
            <= usize::MAX as u128
    }
}

/// A frame is sent behind those that were sent before, unless the client is gone; an event is
/// sent as the frame that carries it.
pub proof fn law_frame_is_sent_behind_the_others(
    tx: &mut EventSink,
    said: String,
    sent: bool,
    emitter: &ResponseStreamEventEmitter,
    event: &Json,
    other: &mut EventSink,
    r: Result<(), String>,
)
    requires
        call_ensures(EventSink::send, (tx, said), sent),
        call_ensures(ResponseStreamEventEmitter::send_event, (emitter, event, other), r),
    ensures
        sent == old(tx).open,
        final(tx).open == old(tx).open,
        sent ==> final(tx).frames.deep_view() == old(tx).frames.deep_view().push(said@),
        !sent ==> final(tx).frames.deep_view() == old(tx).frames.deep_view(),
        r is Ok <==> old(other).open,
        r matches Err(e) ==> e@ == "Client disconnected"@ && final(other).frames.deep_view() == old(
            other,
        ).frames.deep_view(),
        r is Ok ==> final(other).frames.deep_view() == old(other).frames.deep_view().push(
            "event: "@ + (match json::field(event@, "type"@) {
                Some(JsonView::Str(kind)) => kind,
                _ => "message"@,
            }) + "\ndata: "@ + json::written(event@) + "\n\n"@,
        ),
        final(other).open == old(other).open,
{
}

} // verus!
