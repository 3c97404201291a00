//! What is kept of a streamed chat completion once all its chunks were gathered.

use vstd::prelude::*;

use super::accumulator;
use super::accumulator::AccumulatorView;
use super::chunk_events;
use super::delta_laws;
use crate::protocols::chat::ChatCompletionStreamResponse;
use crate::protocols::chat::ToolCallDelta;
use crate::protocols::common::Usage;
use crate::protocols::responses::ResponseOutputItemView;
use crate::protocols::responses::ResponsesRequestView;

verus! {

/// The text of all chunks, one after the other.
pub open spec fn text_of(chunks: Seq<ChatCompletionStreamResponse>) -> Seq<char>
    decreases chunks.len(),
{
    if chunks.len() == 0 {
        Seq::empty()
    } else {
        text_of(chunks.drop_last()) + delta_laws::said_in(chunks.last())
    }
}

/// The thoughts of all chunks, one after the other. Only first choices count.
pub open spec fn thoughts_of(chunks: Seq<ChatCompletionStreamResponse>) -> Seq<char>
    decreases chunks.len(),
{
    if chunks.len() == 0 {
        Seq::empty()
    } else {
        let chunk = chunks.last();
        let before = thoughts_of(chunks.drop_last());
        if chunk.choices@.len() > 0 && chunk.choices@[0].delta.reasoning_content is Some {
            before + chunk.choices@[0].delta.reasoning_content->0@
        } else {
            before
        }
    }
}

/// The deltas of all chunks, one after the other.
pub open spec fn deltas_of(chunks: Seq<ChatCompletionStreamResponse>) -> Seq<ToolCallDelta>
    decreases chunks.len(),
{
    if chunks.len() == 0 {
        Seq::empty()
    } else {
        deltas_of(chunks.drop_last()) + delta_laws::deltas_in(chunks.last())
    }
}

/// The identifiers of all deltas of one tool call, one after the other.
pub open spec fn ids_of(deltas: Seq<ToolCallDelta>, call: int) -> Seq<char>
    decreases deltas.len(),
{
    if deltas.len() == 0 {
        Seq::empty()
    } else {
        let before = ids_of(deltas.drop_last(), call);
        if deltas.last().index == call && deltas.last().id is Some {
            before + deltas.last().id->0@
        } else {
            before
        }
    }
}

/// The last finish reason that a first choice gave.
pub open spec fn last_reason(chunks: Seq<ChatCompletionStreamResponse>) -> Option<Seq<char>>
    decreases chunks.len(),
{
    if chunks.len() == 0 {
        None
    } else if chunks.last().choices@.len() > 0 && chunks.last().choices@[0].finish_reason is Some {
        Some(chunks.last().choices@[0].finish_reason->0@)
    } else {
        last_reason(chunks.drop_last())
    }
}

/// The last token counts that were given.
pub open spec fn last_usage(chunks: Seq<ChatCompletionStreamResponse>) -> Option<Usage>
    decreases chunks.len(),
{
    if chunks.len() == 0 {
        None
    } else if chunks.last().usage is Some {
        chunks.last().usage
    } else {
        last_usage(chunks.drop_last())
    }
}

proof fn lemma_same_calls(deltas: Seq<ToolCallDelta>, call: int)
    ensures
        accumulator::call_id_said(deltas, call) == ids_of(deltas, call),
        accumulator::call_name_said(deltas, call) == delta_laws::name_of(deltas, call),
        accumulator::call_arguments_said(deltas, call) == delta_laws::arguments_of(deltas, call),
    decreases deltas.len(),
{
    if deltas.len() > 0 {
        lemma_same_calls(deltas.drop_last(), call);
        let before = deltas.drop_last();
        assert(ids_of(before, call) + Seq::<char>::empty() =~= ids_of(before, call));
        assert(delta_laws::name_of(before, call) + Seq::<char>::empty() =~= delta_laws::name_of(
            before,
            call,
        ));
        assert(delta_laws::arguments_of(before, call) + Seq::<char>::empty()
            =~= delta_laws::arguments_of(before, call));
    }
}

proof fn lemma_same_words(
    original_request: ResponsesRequestView,
    chunks: Seq<ChatCompletionStreamResponse>,
)
    ensures
        accumulator::all_content(chunks) == text_of(chunks),
        accumulator::all_reasoning(chunks) == thoughts_of(chunks),
        accumulator::all_deltas(chunks) == deltas_of(chunks),
        ({
            let kept = AccumulatorView::fresh(original_request).after_all(chunks);
            &&& kept.finish_reason == last_reason(chunks)
            &&& kept.usage == last_usage(chunks)
            &&& chunks.len() > 0 && chunks[0].id@.len() > 0 ==> {
                &&& kept.response_id == chunks[0].id@
                &&& kept.model == chunks[0].model@
                &&& kept.created_at == chunks[0].created as i64
            }
        }),
    decreases chunks.len(),
{
    if chunks.len() > 0 {
        let init = chunks.drop_last();
        lemma_same_words(original_request, init);
        let chunk = chunks.last();
        assert(chunk_events::chunk_content(chunk) == delta_laws::said_in(chunk));
        assert(chunk_events::chunk_deltas(chunk) == delta_laws::deltas_in(chunk));
        assert(thoughts_of(init) + Seq::<char>::empty() =~= thoughts_of(init));
        if init.len() > 0 {
            assert(init[0] == chunks[0]);
        }
    }
}

/// Whatever chunks were gathered, what is kept is the text and the thoughts of their first
/// choices, a call for each index up to the largest, with all that its deltas say of it, the
/// last finish reason and the last token counts. The first chunk gives the identifier, the
/// model and the time.
pub proof fn law_stream_is_kept_in_full(
    original_request: ResponsesRequestView,
    chunks: Seq<ChatCompletionStreamResponse>,
)
    ensures
        ({
            let kept = AccumulatorView::fresh(original_request).after_all(chunks);
            let deltas = deltas_of(chunks);
            &&& kept.content_buffer == text_of(chunks)
            &&& kept.reasoning_buffer == thoughts_of(chunks)
            &&& forall|i: int|
                0 <= i < deltas.len() ==> (#[trigger] deltas[i]).index < kept.tool_calls.len()
            &&& kept.tool_calls.len() > 0 ==> exists|i: int|
                0 <= i < deltas.len() && (#[trigger] deltas[i]).index + 1 == kept.tool_calls.len()
            &&& forall|k: int|
                0 <= k < kept.tool_calls.len() ==> #[trigger] kept.tool_calls[k] == (
                ResponseOutputItemView::FunctionToolCall {
                    id: ids_of(deltas, k),
                    call_id: Seq::empty(),
                    name: delta_laws::name_of(deltas, k),
                    arguments: delta_laws::arguments_of(deltas, k),
                    output: None,
                    status: "in_progress"@,
                })
            &&& kept.finish_reason == last_reason(chunks)
            &&& kept.usage == last_usage(chunks)
            &&& kept.original_request == original_request
            &&& chunks.len() > 0 && chunks[0].id@.len() > 0 ==> {
                &&& kept.response_id == chunks[0].id@
                &&& kept.model == chunks[0].model@
                &&& kept.created_at == chunks[0].created as i64
            }
        }),
{
    let kept = AccumulatorView::fresh(original_request).after_all(chunks);
    let deltas = deltas_of(chunks);
    lemma_same_words(original_request, chunks);
    accumulator::law_chunks_are_gathered_in_full(original_request, chunks);
    assert forall|k: int| 0 <= k < kept.tool_calls.len() implies #[trigger] kept.tool_calls[k] == (
    ResponseOutputItemView::FunctionToolCall {
        id: ids_of(deltas, k),
        call_id: Seq::empty(),
        name: delta_laws::name_of(deltas, k),
        arguments: delta_laws::arguments_of(deltas, k),
        output: None,
        status: "in_progress"@,
    }) by {
        lemma_same_calls(deltas, k);
    }
}

} // verus!
