//! The whole response, gathered from the chunks of a streamed chat completion.

use vstd::prelude::*;
use vstd::string::StringExecFns;

use super::chunk_events;
use super::conversions;
use super::conversions::push_message_item;
use super::conversions::push_reasoning_item;
use super::conversions::status_of_finish;
use super::conversions::usage_of_chat;
use crate::duplicate::Duplicate;
use crate::protocols::chat::ChatCompletionStreamResponse;
use crate::protocols::chat::ToolCallDelta;
use crate::protocols::common::Usage;
use crate::protocols::responses::RequestEcho;
use crate::protocols::responses::ResponseOutputItem;
use crate::protocols::responses::ResponseOutputItemView;
use crate::protocols::responses::ResponsesRequest;
use crate::protocols::responses::ResponsesRequestView;
use crate::protocols::responses::ResponsesResponse;

verus! {

/// What has been gathered so far.
pub struct StreamingResponseAccumulator {
    pub response_id: String,
    pub model: String,
    pub created_at: i64,
    pub content_buffer: String,
    pub reasoning_buffer: String,
    pub tool_calls: Vec<ResponseOutputItem>,
    pub finish_reason: Option<String>,
    pub usage: Option<Usage>,
    pub original_request: ResponsesRequest,
}

/// What has been gathered so far.
#[verifier::ext_equal]
pub struct AccumulatorView {
    pub response_id: Seq<char>,
    pub model: Seq<char>,
    pub created_at: i64,
    pub content_buffer: Seq<char>,
    pub reasoning_buffer: Seq<char>,
    pub tool_calls: Seq<ResponseOutputItemView>,
    pub finish_reason: Option<Seq<char>>,
    pub usage: Option<Usage>,
    pub original_request: ResponsesRequestView,
}

impl View for StreamingResponseAccumulator {
    type V = AccumulatorView;

    open spec fn view(&self) -> AccumulatorView {
        AccumulatorView {
            response_id: self.response_id@,
            model: self.model@,
            created_at: self.created_at,
            content_buffer: self.content_buffer@,
            reasoning_buffer: self.reasoning_buffer@,
            tool_calls: self.tool_calls.deep_view(),
            finish_reason: self.finish_reason.deep_view(),
            usage: self.usage,
            original_request: self.original_request.deep_view(),
        }
    }
}

/// A tool call of which nothing is known yet.
pub open spec fn blank_call() -> ResponseOutputItemView {
    ResponseOutputItemView::FunctionToolCall {
        id: Seq::empty(),
        call_id: Seq::empty(),
        name: Seq::empty(),
        arguments: Seq::empty(),
        output: None,
        status: "in_progress"@,
    }
}

/// The calls, filled up with blank ones until there is one at this index.
pub open spec fn filled(calls: Seq<ResponseOutputItemView>, index: nat) -> Seq<
    ResponseOutputItemView,
> {
    if calls.len() <= index {
        calls + Seq::new((index + 1 - calls.len()) as nat, |i: int| blank_call())
    } else {
        calls
    }
}

pub open spec fn delta_id(d: ToolCallDelta) -> Seq<char> {
    match d.id {
        Some(id) => id@,
        None => Seq::empty(),
    }
}

/// The call with what the delta adds to it.
pub open spec fn extended(call: ResponseOutputItemView, d: ToolCallDelta) -> ResponseOutputItemView {
    match call {
        ResponseOutputItemView::FunctionToolCall { id, call_id, name, arguments, output, status } =>
            ResponseOutputItemView::FunctionToolCall {
            id: id + delta_id(d),
            call_id,
            name: name + chunk_events::delta_name(d),
            arguments: arguments + chunk_events::delta_arguments(d),
            output,
            status,
        },
        _ => call,
    }
}

pub open spec fn with_delta(calls: Seq<ResponseOutputItemView>, d: ToolCallDelta) -> Seq<
    ResponseOutputItemView,
> {
    let full = filled(calls, d.index as nat);
    full.update(d.index as int, extended(full[d.index as int], d))
}

pub open spec fn with_deltas(calls: Seq<ResponseOutputItemView>, deltas: Seq<ToolCallDelta>) -> Seq<
    ResponseOutputItemView,
>
    decreases deltas.len(),
{
    if deltas.len() == 0 {
        calls
    } else {
        with_delta(with_deltas(calls, deltas.drop_last()), deltas.last())
    }
}

pub open spec fn chunk_reasoning(chunk: ChatCompletionStreamResponse) -> Seq<char> {
    if chunk.choices@.len() == 0 {
        Seq::empty()
    } else {
        match chunk.choices@[0].delta.reasoning_content {
            Some(reasoning) => reasoning@,
            None => Seq::empty(),
        }
    }
}

impl AccumulatorView {
    /// Nothing is gathered yet.
    pub open spec fn fresh(original_request: ResponsesRequestView) -> AccumulatorView {
        AccumulatorView {
            response_id: Seq::empty(),
            model: Seq::empty(),
            created_at: 0,
            content_buffer: Seq::empty(),
            reasoning_buffer: Seq::empty(),
            tool_calls: Seq::empty(),
            finish_reason: None,
            usage: None,
            original_request,
        }
    }

    /// What is gathered after one more chunk. The first chunk names the response; of
    /// each chunk only the first choice counts.
    pub open spec fn after(self, chunk: ChatCompletionStreamResponse) -> AccumulatorView {
        let named = self.response_id.len() > 0;
        AccumulatorView {
            response_id: if named {
                self.response_id
            } else {
                chunk.id@
            },
            model: if named {
                self.model
            } else {
                chunk.model@
            },
            created_at: if named {
                self.created_at
            } else {
                chunk.created as i64
            },
            content_buffer: self.content_buffer + chunk_events::chunk_content(chunk),
            reasoning_buffer: self.reasoning_buffer + chunk_reasoning(chunk),
            tool_calls: with_deltas(self.tool_calls, chunk_events::chunk_deltas(chunk)),
            finish_reason: if chunk_events::chunk_finish(chunk) is Some {
                chunk_events::chunk_finish(chunk)
            } else {
                self.finish_reason
            },
            usage: if chunk.usage is Some {
                chunk.usage
            } else {
                self.usage
            },
            original_request: self.original_request,
        }
    }
}

impl AccumulatorView {
    /// What is gathered after several chunks, one after the other.
    pub open spec fn after_all(self, chunks: Seq<ChatCompletionStreamResponse>) -> AccumulatorView
        decreases chunks.len(),
    {
        if chunks.len() == 0 {
            self
        } else {
            self.after_all(chunks.drop_last()).after(chunks.last())
        }
    }
}

impl StreamingResponseAccumulator {
    pub fn new(original_request: &ResponsesRequest) -> (r: Self)
        ensures
            r@ == AccumulatorView::fresh(original_request.deep_view()),
    {
        let r = StreamingResponseAccumulator {
            response_id: String::new(),
            model: String::new(),
            created_at: 0,
            content_buffer: String::new(),
            reasoning_buffer: String::new(),
            tool_calls: Vec::new(),
            finish_reason: None,
            usage: None,
            original_request: original_request.duplicate(),
        };
        assert(r@.tool_calls =~= Seq::empty());
        r
    }

    fn fill(&mut self, index: usize)
        requires
            index < usize::MAX,
        ensures
            final(self)@ == (AccumulatorView {
                tool_calls: filled(old(self)@.tool_calls, index as nat),
                ..old(self)@
            }),
            index < final(self).tool_calls.len(),
    {
        let ghost start = self@.tool_calls;
        while self.tool_calls.len() <= index
            invariant
                index < usize::MAX,
                start == old(self)@.tool_calls,
                self@ == (AccumulatorView { tool_calls: self@.tool_calls, ..old(self)@ }),
                start.len() <= self.tool_calls.len(),
                self.tool_calls.len() <= index + 1 || self.tool_calls.len() == start.len(),
                self@.tool_calls =~= start + Seq::new(
                    (self.tool_calls.len() - start.len()) as nat,
                    |i: int| blank_call(),
                ),
            decreases index + 1 - self.tool_calls.len(),
        {
            let ghost before = self@.tool_calls;
            self.tool_calls.push(
                ResponseOutputItem::FunctionToolCall {
                    id: String::new(),
                    call_id: String::new(),
                    name: String::new(),
                    arguments: String::new(),
                    output: None,
                    status: "in_progress".to_owned(),
                },
            );
            assert(self@.tool_calls =~= before.push(blank_call()));
        }
        assert(self@.tool_calls =~= filled(start, index as nat));
    }

    fn process_delta(&mut self, delta: &ToolCallDelta)
        requires
            delta.index < usize::MAX,
        ensures
            final(self)@ == (AccumulatorView {
                tool_calls: with_delta(old(self)@.tool_calls, *delta),
                ..old(self)@
            }),
    {
        let index: usize = delta.index as usize;
        self.fill(index);
        let ghost full = self@.tool_calls;
        let ghost call = full[index as int];
        assert(self.tool_calls.deep_view()[index as int] == call);
        if let ResponseOutputItem::FunctionToolCall { id, name, arguments, .. } =
            &mut self.tool_calls[index] {
            if let Some(delta_id) = &delta.id {
                id.append(delta_id.as_str());
            }
            if let Some(function) = &delta.function {
                if let Some(delta_name) = &function.name {
                    name.append(delta_name.as_str());
                }
                if let Some(delta_args) = &function.arguments {
                    arguments.append(delta_args.as_str());
                }
            }
        }
        proof {
            assert(self.tool_calls@[index as int].deep_view() =~= extended(call, *delta));
            assert(self@.tool_calls =~= full.update(index as int, extended(call, *delta)));
        }
    }

    /// Gathers one more chunk.
    pub fn process_chunk(&mut self, chunk: &ChatCompletionStreamResponse)
        requires
            forall|i: int|
                0 <= i < chunk_events::chunk_deltas(*chunk).len()
                    ==> (#[trigger] chunk_events::chunk_deltas(*chunk)[i]).index < usize::MAX,
        ensures
            final(self)@ == old(self)@.after(*chunk),
    {
        if self.response_id.as_str().is_empty() {
            self.response_id = chunk.id.clone();
            self.model = chunk.model.clone();
            self.created_at = chunk.created as i64;
        }
        if chunk.choices.len() > 0 {
            let choice = &chunk.choices[0];
            if let Some(content) = &choice.delta.content {
                self.content_buffer.append(content.as_str());
            }
            if let Some(reasoning) = &choice.delta.reasoning_content {
                self.reasoning_buffer.append(reasoning.as_str());
            }
            if let Some(deltas) = &choice.delta.tool_calls {
                let ghost start = self@;
                assert(deltas@.take(0) =~= Seq::empty());
                for i in 0..deltas.len()
                    invariant
                        deltas@ == chunk_events::chunk_deltas(*chunk),
                        forall|i: int|
                            0 <= i < chunk_events::chunk_deltas(*chunk).len() ==> (
                            #[trigger] chunk_events::chunk_deltas(*chunk)[i]).index < usize::MAX,
                        self@ == (AccumulatorView {
                            tool_calls: with_deltas(start.tool_calls, deltas@.take(i as int)),
                            ..start
                        }),
                {
                    assert(deltas@.take(i + 1).drop_last() =~= deltas@.take(i as int));
                    assert(deltas@.take(i + 1).last() == deltas@[i as int]);
                    assert(chunk_events::chunk_deltas(*chunk)[i as int].index < usize::MAX);
                    self.process_delta(&deltas[i]);
                }
                assert(deltas@.take(deltas@.len() as int) =~= deltas@);
            }
            if let Some(reason) = &choice.finish_reason {
                self.finish_reason = Some(reason.clone());
            }
        }
        if let Some(usage) = &chunk.usage {
            self.usage = Some(*usage);
        }
        assert(self@ =~= old(self)@.after(*chunk));
    }

    /// The response that all chunks together stand for.
    pub fn finalize(self) -> (r: ResponsesResponse)
        ensures
            r.id@ == self@.response_id,
            r.model@ == self@.model,
            r.created_at == self@.created_at,
            r.status == conversions::finish_status(self@.finish_reason),
            r.output.deep_view() == conversions::message_items(
                self@.response_id,
                self@.content_buffer,
                None,
            ) + conversions::reasoning_items(self@.response_id, self@.reasoning_buffer)
                + self@.tool_calls,
            r.text is None,
            r.usage == (match self@.usage {
                Some(u) => Some(conversions::response_usage(u)),
                None => None,
            }),
            r.echo.deep_view() == self@.original_request.echo(),
    {
        let mut output: Vec<ResponseOutputItem> = Vec::new();
        assert(output.deep_view() =~= Seq::empty());
        push_message_item(
            &mut output,
            self.response_id.as_str(),
            self.content_buffer.as_str(),
            None,
        );
        push_reasoning_item(
            &mut output,
            self.response_id.as_str(),
            self.reasoning_buffer.as_str(),
        );
        let ghost head = output.deep_view();
        let status = status_of_finish(&self.finish_reason);
        let usage = usage_of_chat(&self.usage);
        let echo = RequestEcho::copy_from_request(&self.original_request);
        let mut calls = self.tool_calls;
        let ghost tail = calls.deep_view();
        output.append(&mut calls);
        assert(output.deep_view() =~= head + tail);
        assert(output.deep_view() =~= conversions::message_items(
            self@.response_id,
            self@.content_buffer,
            None,
        ) + conversions::reasoning_items(self@.response_id, self@.reasoning_buffer)
            + self@.tool_calls);
        ResponsesResponse {
            id: self.response_id,
            model: self.model,
            created_at: self.created_at,
            status,
            output,
            text: None,
            usage,
            echo,
        }
    }
}

/// Without tool calls a response has the same items whether its answer was streamed or
/// given as a whole.
pub proof fn law_streamed_and_whole_answers_agree(kept: AccumulatorView)
    requires
        kept.tool_calls.len() == 0,
    ensures
        conversions::message_items(kept.response_id, kept.content_buffer, None)
            + conversions::reasoning_items(kept.response_id, kept.reasoning_buffer)
            + kept.tool_calls == conversions::chat_output(
            kept.response_id,
            Some(kept.content_buffer),
            None,
            Some(kept.reasoning_buffer),
            None,
        ),
{
    assert(kept.tool_calls =~= Seq::empty());
}

/// The texts of chunks, one after the other.
pub open spec fn all_content(chunks: Seq<ChatCompletionStreamResponse>) -> Seq<char>
    decreases chunks.len(),
{
    if chunks.len() == 0 {
        Seq::empty()
    } else {
        all_content(chunks.drop_last()) + chunk_events::chunk_content(chunks.last())
    }
}

/// The reasoning of chunks, one after the other.
pub open spec fn all_reasoning(chunks: Seq<ChatCompletionStreamResponse>) -> Seq<char>
    decreases chunks.len(),
{
    if chunks.len() == 0 {
        Seq::empty()
    } else {
        all_reasoning(chunks.drop_last()) + chunk_reasoning(chunks.last())
    }
}

/// The tool call deltas of chunks, in their order.
pub open spec fn all_deltas(chunks: Seq<ChatCompletionStreamResponse>) -> Seq<ToolCallDelta>
    decreases chunks.len(),
{
    if chunks.len() == 0 {
        Seq::empty()
    } else {
        all_deltas(chunks.drop_last()) + chunk_events::chunk_deltas(chunks.last())
    }
}

/// What the deltas of one tool call say of its identifier, one after the other.
pub open spec fn call_id_said(deltas: Seq<ToolCallDelta>, index: int) -> Seq<char>
    decreases deltas.len(),
{
    if deltas.len() == 0 {
        Seq::empty()
    } else if deltas.last().index == index {
        call_id_said(deltas.drop_last(), index) + delta_id(deltas.last())
    } else {
        call_id_said(deltas.drop_last(), index)
    }
}

/// What the deltas of one tool call say of its name, one after the other.
pub open spec fn call_name_said(deltas: Seq<ToolCallDelta>, index: int) -> Seq<char>
    decreases deltas.len(),
{
    if deltas.len() == 0 {
        Seq::empty()
    } else if deltas.last().index == index {
        call_name_said(deltas.drop_last(), index) + chunk_events::delta_name(deltas.last())
    } else {
        call_name_said(deltas.drop_last(), index)
    }
}

/// What the deltas of one tool call say of its arguments, one after the other.
pub open spec fn call_arguments_said(deltas: Seq<ToolCallDelta>, index: int) -> Seq<char>
    decreases deltas.len(),
{
    if deltas.len() == 0 {
        Seq::empty()
    } else if deltas.last().index == index {
        call_arguments_said(deltas.drop_last(), index) + chunk_events::delta_arguments(
            deltas.last(),
        )
    } else {
        call_arguments_said(deltas.drop_last(), index)
    }
}

/// Whether this is one more than the largest index of deltas, or zero without any.
pub open spec fn is_call_count(deltas: Seq<ToolCallDelta>, count: nat) -> bool {
    &&& forall|i: int| 0 <= i < deltas.len() ==> (#[trigger] deltas[i]).index < count
    &&& count > 0 ==> exists|i: int|
        0 <= i < deltas.len() && (#[trigger] deltas[i]).index + 1 == count
}

/// What deltas say of a tool call, with nothing where they say nothing.
pub open spec fn said_call(deltas: Seq<ToolCallDelta>, index: int) -> ResponseOutputItemView {
    ResponseOutputItemView::FunctionToolCall {
        id: call_id_said(deltas, index),
        call_id: Seq::empty(),
        name: call_name_said(deltas, index),
        arguments: call_arguments_said(deltas, index),
        output: None,
        status: "in_progress"@,
    }
}

pub(crate) proof fn lemma_call_unsaid(deltas: Seq<ToolCallDelta>, k: int)
    requires
        k >= chunk_events::grown(0, deltas),
    ensures
        call_id_said(deltas, k) == Seq::<char>::empty(),
        call_name_said(deltas, k) == Seq::<char>::empty(),
        call_arguments_said(deltas, k) == Seq::<char>::empty(),
    decreases deltas.len(),
{
    if deltas.len() > 0 {
        lemma_call_unsaid(deltas.drop_last(), k);
    }
}

pub(crate) proof fn lemma_call_count(deltas: Seq<ToolCallDelta>)
    ensures
        is_call_count(deltas, chunk_events::grown(0, deltas)),
    decreases deltas.len(),
{
    if deltas.len() > 0 {
        let init = deltas.drop_last();
        let count = chunk_events::grown(0, deltas);
        lemma_call_count(init);
        assert forall|i: int| 0 <= i < deltas.len() implies (#[trigger] deltas[i]).index < count by {
            if i < init.len() {
                assert(init[i] == deltas[i]);
            }
        }
        if chunk_events::grown(0, init) <= deltas.last().index {
            assert(deltas[deltas.len() - 1].index + 1 == count);
        } else {
            let i = choose|i: int|
                0 <= i < init.len() && (#[trigger] init[i]).index + 1 == chunk_events::grown(
                    0,
                    init,
                );
            assert(deltas[i].index + 1 == count);
        }
    }
}

proof fn lemma_said_calls(deltas: Seq<ToolCallDelta>)
    ensures
        with_deltas(Seq::empty(), deltas) == Seq::new(
            chunk_events::grown(0, deltas),
            |k: int| said_call(deltas, k),
        ),
    decreases deltas.len(),
{
    let calls = with_deltas(Seq::empty(), deltas);
    if deltas.len() > 0 {
        let init = deltas.drop_last();
        lemma_said_calls(init);
        let before = with_deltas(Seq::empty(), init);
        let full = filled(before, deltas.last().index as nat);
        assert forall|k: int| 0 <= k < full.len() implies #[trigger] full[k] == said_call(init, k) by {
            if k >= before.len() {
                lemma_call_unsaid(init, k);
            }
        }
    }
    assert(calls =~= Seq::new(
        chunk_events::grown(0, deltas),
        |k: int| said_call(deltas, k),
    ));
}

proof fn lemma_with_deltas_concat(
    calls: Seq<ResponseOutputItemView>,
    a: Seq<ToolCallDelta>,
    b: Seq<ToolCallDelta>,
)
    ensures
        with_deltas(with_deltas(calls, a), b) == with_deltas(calls, a + b),
    decreases b.len(),
{
    if b.len() == 0 {
        assert(a + b =~= a);
    } else {
        lemma_with_deltas_concat(calls, a, b.drop_last());
        assert((a + b).drop_last() =~= a + b.drop_last());
    }
}

/// Whatever chunks are gathered, the text, the reasoning and the tool calls are those of all
/// chunks, one after the other. There is a call for every index up to the largest; what the
/// deltas never spoke of stays empty.
pub proof fn law_chunks_are_gathered_in_full(
    original_request: ResponsesRequestView,
    chunks: Seq<ChatCompletionStreamResponse>,
)
    ensures
        ({
            let kept = AccumulatorView::fresh(original_request).after_all(chunks);
            let deltas = all_deltas(chunks);
            &&& kept.content_buffer == all_content(chunks)
            &&& kept.reasoning_buffer == all_reasoning(chunks)
            &&& is_call_count(deltas, kept.tool_calls.len())
            &&& forall|k: int|
                0 <= k < kept.tool_calls.len() ==> #[trigger] kept.tool_calls[k] == said_call(
                    deltas,
                    k,
                )
            &&& kept.original_request == original_request
        }),
{
    lemma_gathered(original_request, chunks);
    lemma_said_calls(all_deltas(chunks));
    lemma_call_count(all_deltas(chunks));
}

proof fn lemma_gathered(
    original_request: ResponsesRequestView,
    chunks: Seq<ChatCompletionStreamResponse>,
)
    ensures
        ({
            let kept = AccumulatorView::fresh(original_request).after_all(chunks);
            &&& kept.content_buffer == all_content(chunks)
            &&& kept.reasoning_buffer == all_reasoning(chunks)
            &&& kept.tool_calls == with_deltas(Seq::empty(), all_deltas(chunks))
            &&& kept.original_request == original_request
        }),
    decreases chunks.len(),
{
    if chunks.len() > 0 {
        lemma_gathered(original_request, chunks.drop_last());
        lemma_with_deltas_concat(
            Seq::empty(),
            all_deltas(chunks.drop_last()),
            chunk_events::chunk_deltas(chunks.last()),
        );
    }
}

} // verus!
