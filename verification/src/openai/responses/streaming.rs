//! From the event stream of a chat completion to the event stream of a response.

use vstd::prelude::*;
use vstd::string::StringExecFns;

use super::accumulator::AccumulatorView;
use super::accumulator::StreamingResponseAccumulator;
use super::chunk_events;
use super::chunk_events::EventSink;
use super::conversions;
use super::emitter;
use super::emitter::EmitterView;
use super::emitter::ResponseStreamEventEmitter;
use crate::duplicate::Duplicate;
use crate::ids;
use crate::json;
use crate::json::put;
use crate::json::Json;
use crate::json::JsonView;
use crate::protocols::chat::ChatCompletionStreamResponse;
use crate::protocols::common::Usage;
use crate::protocols::responses::ResponsesRequest;
use crate::protocols::responses::ResponsesResponse;
use crate::text;

verus! {

/// What a piece of the chat stream is.
#[derive(Debug)]
pub enum SseEvent {
    /// The end of the stream.
    Done,
    /// An event with data: the event as a whole, and its data.
    Data { event: String, json: String },
    /// Nothing of interest.
    Ignored,
}

/// What a piece of the chat stream is.
pub enum SseEventView {
    Done,
    Data { event: Seq<char>, json: Seq<char> },
    Ignored,
}

impl View for SseEvent {
    type V = SseEventView;

    open spec fn view(&self) -> SseEventView {
        match *self {
            SseEvent::Done => SseEventView::Done,
            SseEvent::Data { event, json } => SseEventView::Data { event: event@, json: json@ },
            SseEvent::Ignored => SseEventView::Ignored,
        }
    }
}

/// What a piece of the chat stream is: `data: [DONE]` ends it, `data: ` goes before data.
pub open spec fn sse_event(said: Seq<char>) -> SseEventView {
    let event = text::trimmed(said);
    if event == "data: [DONE]"@ {
        SseEventView::Done
    } else {
        match text::stripped(event, "data: "@) {
            Some(rest) => SseEventView::Data { event, json: text::trimmed(rest) },
            None => SseEventView::Ignored,
        }
    }
}

pub fn classify_text(said: &str) -> (r: SseEvent)
    ensures
        r@ == sse_event(said@),
{
    let event = text::trim(said);
    if text::same(event, "data: [DONE]") {
        return SseEvent::Done;
    }
    match text::strip_prefix(event, "data: ") {
        Some(rest) => SseEvent::Data {
            event: event.to_owned(),
            json: text::trim(rest).to_owned(),
        },
        None => SseEvent::Ignored,
    }
}

/// What a piece of the chat stream is, from its bytes.
pub fn classify_bytes(bytes: &[u8]) -> (r: SseEvent)
    ensures
        r@ == sse_event(text::lossy(bytes@)),
        vstd::utf8::valid_utf8(bytes@) ==> r@ == sse_event(vstd::utf8::decode_utf8(bytes@)),
{
    classify_text(text::read_lossy(bytes).as_str())
}

/// The token counts of a response as JSON.
pub open spec fn usage_view(usage: Usage) -> JsonView {
    let counts = Map::empty().insert(
        "input_tokens"@,
        emitter::num(usage.prompt_tokens as nat),
    ).insert("output_tokens"@, emitter::num(usage.completion_tokens as nat)).insert(
        "total_tokens"@,
        emitter::num(usage.total_tokens as nat),
    );
    let reasoning = match usage.completion_tokens_details {
        Some(d) => d.reasoning_tokens,
        None => None,
    };
    JsonView::Object(
        match reasoning {
            Some(n) => counts.insert(
                "output_tokens_details"@,
                JsonView::Object(
                    Map::empty().insert("reasoning_tokens"@, emitter::num(n as nat)),
                ),
            ),
            None => counts,
        },
    )
}

pub fn usage_json(usage: &Usage) -> (r: Json)
    ensures
        r@ == usage_view(*usage),
{
    let mut fields: Vec<(String, Json)> = Vec::new();
    put(&mut fields, "input_tokens", Json::uint(usage.prompt_tokens as u64));
    put(&mut fields, "output_tokens", Json::uint(usage.completion_tokens as u64));
    put(&mut fields, "total_tokens", Json::uint(usage.total_tokens as u64));
    if let Some(details) = &usage.completion_tokens_details {
        if let Some(n) = details.reasoning_tokens {
            let mut inner: Vec<(String, Json)> = Vec::new();
            put(&mut inner, "reasoning_tokens", Json::uint(n as u64));
            put(&mut fields, "output_tokens_details", Json::Object(inner));
        }
    }
    Json::Object(fields)
}

/// The frame that tells the client of a failure.
pub open spec fn error_frame(message: Seq<char>) -> Seq<char> {
    "data: "@ + json::written(
        JsonView::Object(
            Map::empty().insert(
                "error"@,
                JsonView::Object(
                    Map::empty().insert("message"@, emitter::str(message)).insert(
                        "type"@,
                        emitter::str("stream_error"@),
                    ),
                ),
            ),
        ),
    ) + "\n\n"@
}

pub fn make_error_frame(message: &str) -> (r: String)
    ensures
        r@ == error_frame(message@),
{
    let mut inner: Vec<(String, Json)> = Vec::new();
    put(&mut inner, "message", Json::string(message));
    put(&mut inner, "type", Json::string("stream_error"));
    let mut fields: Vec<(String, Json)> = Vec::new();
    put(&mut fields, "error", Json::Object(inner));
    text::join3("data: ", Json::Object(fields).to_text().as_str(), "\n\n")
}

/// The state of an emitter after the response was announced.
pub open spec fn opened(fresh: EmitterView) -> EmitterView {
    let created = (EmitterView { has_emitted_created: true, ..fresh }).counted();
    (EmitterView { has_emitted_in_progress: true, ..created }).counted()
}

/// The frames that announce a response: it is created, and in progress.
pub open spec fn opening_frames(fresh: EmitterView) -> Seq<Seq<char>> {
    let created = (EmitterView { has_emitted_created: true, ..fresh }).counted();
    seq![
        chunk_events::frame(emitter::created_event(fresh)),
        chunk_events::frame(emitter::in_progress_event(created)),
    ]
}

/// A response that is being streamed: what the client is told, and what is kept.
pub struct ResponseStream {
    pub accumulator: StreamingResponseAccumulator,
    pub emitter: ResponseStreamEventEmitter,
}

impl ResponseStream {
    /// Begins the stream with these identifiers: the response is created and in progress.
    pub fn start_with_ids(
        original_request: ResponsesRequest,
        response_id: String,
        message_id: String,
        created_at: u64,
        tx: &mut EventSink,
    ) -> (r: Result<ResponseStream, String>)
        ensures
            final(tx).open == old(tx).open,
            match r {
                Ok(s) => {
                    let fresh = EmitterView {
                        original_request: Some(original_request.deep_view()),
                        ..EmitterView::fresh(
                            response_id@,
                            original_request.model@,
                            created_at,
                            message_id@,
                        )
                    };
                    &&& old(tx).open
                    &&& final(tx).frames.deep_view() == old(tx).frames.deep_view()
                        + opening_frames(fresh)
                    &&& s.emitter@ == opened(fresh)
                    &&& s.accumulator@ == AccumulatorView::fresh(original_request.deep_view())
                },
                Err(e) => {
                    &&& !old(tx).open
                    &&& final(tx).frames.deep_view() == old(tx).frames.deep_view()
                    &&& e@ == "Failed to send response.created event"@
                },
            },
    {
        let ghost sent = tx.frames.deep_view();
        let accumulator = StreamingResponseAccumulator::new(&original_request);
        let model = original_request.model.clone();
        let mut emitter = ResponseStreamEventEmitter::with_message_id(
            response_id,
            model,
            created_at,
            message_id,
        );
        emitter.set_original_request(original_request);
        let ghost fresh = emitter@;
        let event = emitter.emit_created();
        if emitter.send_event(&event, tx).is_err() {
            return Err("Failed to send response.created event".to_owned());
        }
        let event = emitter.emit_in_progress();
        if emitter.send_event(&event, tx).is_err() {
            return Err("Failed to send response.in_progress event".to_owned());
        }
        assert(tx.frames.deep_view() =~= sent + opening_frames(fresh));
        Ok(ResponseStream { accumulator, emitter })
    }

    /// Begins the stream with random identifiers.
    pub fn start(original_request: ResponsesRequest, created_at: u64, tx: &mut EventSink) -> (r:
        Result<ResponseStream, String>)
        ensures
            final(tx).open == old(tx).open,
            match r {
                Ok(s) => {
                    &&& old(tx).open
                    &&& s.accumulator@ == AccumulatorView::fresh(original_request.deep_view())
                    &&& exists|response_digits: Seq<char>, message_digits: Seq<char>|
                        #![trigger ids::is_grouped_uuid(response_digits), ids::is_grouped_uuid(
                            message_digits,
                        )]
                        {
                            let fresh = EmitterView {
                                original_request: Some(original_request.deep_view()),
                                ..EmitterView::fresh(
                                    "resp_"@ + response_digits,
                                    original_request.model@,
                                    created_at,
                                    "msg_"@ + message_digits,
                                )
                            };
                            &&& ids::is_grouped_uuid(response_digits)
                            &&& ids::is_grouped_uuid(message_digits)
                            &&& s.emitter@ == opened(fresh)
                            &&& final(tx).frames.deep_view() == old(tx).frames.deep_view()
                                + opening_frames(fresh)
                        }
                },
                Err(e) => {
                    &&& !old(tx).open
                    &&& final(tx).frames.deep_view() == old(tx).frames.deep_view()
                    &&& e@ == "Failed to send response.created event"@
                },
            },
    {
        let response_digits = ids::grouped_uuid();
        let message_digits = ids::grouped_uuid();
        assert(ids::is_grouped_uuid(response_digits@));
        assert(ids::is_grouped_uuid(message_digits@));
        Self::start_with_ids(
            original_request,
            text::join2("resp_", response_digits.as_str()),
            text::join2("msg_", message_digits.as_str()),
            created_at,
            tx,
        )
    }

    /// Whether this chunk can be processed: the numbers do not run out, and a message
    /// that it ends was begun.
    pub open spec fn takes(&self, chunk: ChatCompletionStreamResponse) -> bool {
        &&& chunk_events::can_process(self.emitter@, chunk)
        &&& forall|i: int|
            0 <= i < chunk_events::chunk_deltas(chunk).len() ==> (
            #[trigger] chunk_events::chunk_deltas(chunk)[i]).index < usize::MAX
    }

    /// Whether this chunk can be processed.
    pub fn accepts(&self, chunk: &ChatCompletionStreamResponse) -> (r: bool)
        ensures
            r == self.takes(*chunk),
    {
        if !self.emitter.accepts(chunk) {
            return false;
        }
        if chunk.choices.len() > 0 {
            if let Some(deltas) = &chunk.choices[0].delta.tool_calls {
                for i in 0..deltas.len()
                    invariant
                        deltas@ == chunk_events::chunk_deltas(*chunk),
                        forall|j: int|
                            0 <= j < i ==> (#[trigger] chunk_events::chunk_deltas(*chunk)[j]).index
                                < usize::MAX,
                {
                    if deltas[i].index as usize == usize::MAX {
                        assert(chunk_events::chunk_deltas(*chunk)[i as int].index >= usize::MAX);
                        return false;
                    }
                }
            }
        }
        true
    }

    /// A chunk of the chat completion: it is kept, and the client is told.
    pub fn on_chunk(&mut self, chunk: &ChatCompletionStreamResponse, tx: &mut EventSink) -> (r:
        Result<(), String>)
        requires
            old(self).takes(*chunk),
        ensures
            final(tx).open == old(tx).open,
            final(self).accumulator@ == old(self).accumulator@.after(*chunk),
            chunk_events::is_told(
                old(self).emitter@,
                final(self).emitter@,
                *chunk,
                old(tx).open,
                old(tx).frames.deep_view(),
                final(tx).frames.deep_view(),
                match r {
                    Ok(()) => None,
                    Err(e) => Some(e@),
                },
            ),
    {
        self.accumulator.process_chunk(chunk);
        self.emitter.process_chunk(chunk, tx)
    }

    /// An event that is no chunk (an error, a keep-alive) is passed on unchanged.
    pub fn on_other(&self, event: &str, tx: &mut EventSink) -> (r: Result<(), String>)
        ensures
            final(tx).open == old(tx).open,
            match r {
                Ok(()) => {
                    &&& old(tx).open
                    &&& final(tx).frames.deep_view() == old(tx).frames.deep_view().push(
                        event@ + "\n\n"@,
                    )
                },
                Err(e) => {
                    &&& !old(tx).open
                    &&& e@ == "Client disconnected"@
                    &&& final(tx).frames.deep_view() == old(tx).frames.deep_view()
                },
            },
    {
        if !tx.send(text::join2(event, "\n\n")) {
            return Err("Client disconnected".to_owned());
        }
        Ok(())
    }

    /// Ends the stream: the client is told of the completion, and the whole response is
    /// handed over to be kept.
    pub fn finish(self, tx: &mut EventSink) -> (r: Result<ResponsesResponse, String>)
        requires
            self.emitter.sequence_number < u64::MAX,
        ensures
            final(tx).open == old(tx).open,
            match r {
                Ok(resp) => {
                    let kept = self.accumulator@;
                    let usage = match kept.usage {
                        Some(u) => Some(usage_view(u)),
                        None => None,
                    };
                    &&& old(tx).open
                    &&& final(tx).frames.deep_view() == old(tx).frames.deep_view().push(
                        chunk_events::frame(emitter::completed_event(self.emitter@, usage)),
                    )
                    &&& resp.id@ == kept.response_id
                    &&& resp.model@ == kept.model
                    &&& resp.created_at == kept.created_at
                    &&& resp.status == conversions::finish_status(kept.finish_reason)
                    &&& resp.output.deep_view() == conversions::message_items(
                        kept.response_id,
                        kept.content_buffer,
                        None,
                    ) + conversions::reasoning_items(kept.response_id, kept.reasoning_buffer)
                        + kept.tool_calls
                    &&& resp.text is None
                    &&& resp.usage == (match kept.usage {
                        Some(u) => Some(conversions::response_usage(u)),
                        None => None,
                    })
                    &&& resp.echo.deep_view() == kept.original_request.echo()
                },
                Err(e) => {
                    &&& !old(tx).open
                    &&& e@ == "Client disconnected"@
                    &&& final(tx).frames.deep_view() == old(tx).frames.deep_view()
                },
            },
    {
        let mut this = self;
        let usage = match &this.accumulator.usage {
            Some(u) => Some(usage_json(u)),
            None => None,
        };
        let event = this.emitter.emit_completed(usage.as_ref());
        match this.emitter.send_event(&event, tx) {
            Ok(()) => Ok(this.accumulator.finalize()),
            Err(e) => Err(e),
        }
    }
}

/// A piece of the chat stream, once its data, if any, was read.
pub enum StreamPiece {
    /// The body could not be read further.
    ReadError(String),
    /// A chunk of the chat completion.
    Chunk(ChatCompletionStreamResponse),
    /// Data that is no chunk: the event as a whole.
    Other(String),
    /// Nothing of interest.
    Ignored,
    /// The end, by `data: [DONE]` or by the end of the body.
    End,
}

/// Takes in a piece of the chat stream. Says whether more are wanted, or what went wrong.
pub fn process_and_transform_sse_stream(
    stream: &mut ResponseStream,
    piece: &StreamPiece,
    tx: &mut EventSink,
) -> (r: Result<bool, String>)
    requires
        *piece matches StreamPiece::Chunk(chunk) ==> old(stream).takes(chunk),
    ensures
        final(tx).open == old(tx).open,
        match *piece {
            StreamPiece::ReadError(e) => {
                &&& r matches Err(m)
                &&& m@ == "Stream read error: "@ + e@
                &&& final(tx).frames.deep_view() == old(tx).frames.deep_view()
                &&& *final(stream) == *old(stream)
            },
            StreamPiece::Chunk(chunk) => {
                &&& r matches Ok(more) ==> more
                &&& final(stream).accumulator@ == old(stream).accumulator@.after(chunk)
                &&& chunk_events::is_told(
                    old(stream).emitter@,
                    final(stream).emitter@,
                    chunk,
                    old(tx).open,
                    old(tx).frames.deep_view(),
                    final(tx).frames.deep_view(),
                    match r {
                        Ok(_) => None,
                        Err(e) => Some(e@),
                    },
                )
            },
            StreamPiece::Other(event) => {
                &&& *final(stream) == *old(stream)
                &&& match r {
                    Ok(more) => {
                        &&& more
                        &&& old(tx).open
                        &&& final(tx).frames.deep_view() == old(tx).frames.deep_view().push(
                            event@ + "\n\n"@,
                        )
                    },
                    Err(e) => {
                        &&& !old(tx).open
                        &&& e@ == "Client disconnected"@
                        &&& final(tx).frames.deep_view() == old(tx).frames.deep_view()
                    },
                }
            },
            StreamPiece::Ignored => {
                &&& r == Ok::<bool, String>(true)
                &&& final(tx).frames.deep_view() == old(tx).frames.deep_view()
                &&& *final(stream) == *old(stream)
            },
            StreamPiece::End => {
                &&& r == Ok::<bool, String>(false)
                &&& final(tx).frames.deep_view() == old(tx).frames.deep_view()
                &&& *final(stream) == *old(stream)
            },
        },
{
    match piece {
        StreamPiece::ReadError(e) => Err(text::join2("Stream read error: ", e.as_str())),
        StreamPiece::Chunk(chunk) => match stream.on_chunk(chunk, tx) {
            Ok(()) => Ok(true),
            Err(e) => Err(e),
        },
        StreamPiece::Other(event) => match stream.on_other(event.as_str(), tx) {
            Ok(()) => Ok(true),
            Err(e) => Err(e),
        },
        StreamPiece::Ignored => Ok(true),
        StreamPiece::End => Ok(false),
    }
}

/// The frames that end the stream of a response: where it failed, what went wrong, and
/// the end.
pub open spec fn closing(failure: Option<Seq<char>>) -> Seq<Seq<char>> {
    match failure {
        Some(e) => seq![error_frame(e), "data: [DONE]\n\n"@],
        None => seq!["data: [DONE]\n\n"@],
    }
}

/// Ends the stream of a response, whatever came of it.
pub fn convert_chat_stream_to_responses_stream(outcome: Result<(), String>, tx: &mut EventSink)
    ensures
        final(tx).open == old(tx).open,
        final(tx).frames.deep_view() == (if old(tx).open {
            old(tx).frames.deep_view() + closing(
                match outcome {
                    Ok(()) => None,
                    Err(e) => Some(e@),
                },
            )
        } else {
            old(tx).frames.deep_view()
        }),
{
    let ghost before = tx.frames.deep_view();
    if let Err(e) = &outcome {
        tx.send(make_error_frame(e.as_str()));
    }
    tx.send("data: [DONE]\n\n".to_owned());
    assert(tx.open ==> tx.frames.deep_view() =~= before + closing(
        match outcome {
            Ok(()) => None,
            Err(e) => Some(e@),
        },
    ));
}

/// White space around an event does not count. `data: [DONE]` is the end; every other event
/// that begins with `data: ` brings what is behind it; the rest is ignored.
pub proof fn law_events_are_told_apart(
    said: &str,
    r: SseEvent,
    lead: Seq<char>,
    event: Seq<char>,
    trail: Seq<char>,
)
    requires
        call_ensures(classify_text, (said,), r),
        said@ == lead + event + trail,
        forall|i: int| 0 <= i < lead.len() ==> text::is_space(#[trigger] lead[i]),
        forall|i: int| 0 <= i < trail.len() ==> text::is_space(#[trigger] trail[i]),
        event.len() > 0 ==> !text::is_space(event[0]) && !text::is_space(event.last()),
    ensures
        r is Done <==> event == "data: [DONE]"@,
        r is Data <==> event != "data: [DONE]"@ && exists|rest: Seq<char>|
            event == "data: "@ + rest,
        r matches SseEvent::Data { event: whole, json } ==> whole@ == event,
        forall|blank: Seq<char>, data: Seq<char>|
            #![trigger blank + data]
            event != "data: [DONE]"@ && event == "data: "@ + (blank + data) && (forall|i: int|
                0 <= i < blank.len() ==> text::is_space(#[trigger] blank[i])) && (data.len() > 0
                ==> !text::is_space(data[0])) ==> (r matches SseEvent::Data { event: _, json }
                && json@ == data),
{
    text::lemma_trimmed(lead, event, trail);
    let head = "data: "@;
    if head.is_prefix_of(event) {
        assert(event =~= head + event.skip(head.len() as int));
    }
    if exists|rest: Seq<char>| event == head + rest {
        let rest = choose|rest: Seq<char>| event == head + rest;
        assert(head =~= event.take(head.len() as int));
        assert(head.is_prefix_of(event));
    }
    assert forall|blank: Seq<char>, data: Seq<char>|
        #![trigger blank + data]
        event != "data: [DONE]"@ && event == head + (blank + data) && (forall|i: int|
            0 <= i < blank.len() ==> text::is_space(#[trigger] blank[i])) && (data.len() > 0
            ==> !text::is_space(data[0])) implies (r matches SseEvent::Data { event: _, json }
        && json@ == data) by {
        let rest = blank + data;
        assert(event.skip(head.len() as int) =~= rest);
        if data.len() > 0 {
            assert(data.last() == event.last());
        }
        text::lemma_trimmed(blank, data, Seq::empty());
        assert(blank + data + Seq::<char>::empty() =~= rest);
    }
}

} // verus!
