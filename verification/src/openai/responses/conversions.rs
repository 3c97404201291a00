//! Conversion between the `/v1/responses` and `/v1/chat/completions` request and
//! response shapes, so that the chat pipeline backs both endpoints.

use vstd::prelude::*;

use super::persistence;
use super::persistence::extract_tools_from_response_tools;
use crate::duplicate::Duplicate;
use crate::protocols;
use crate::protocols::chat::ChatCompletionRequest;
use crate::protocols::chat::ChatCompletionResponse;
use crate::protocols::chat::ChatMessage;
use crate::protocols::chat::ChatMessageView;
use crate::protocols::chat::MessageContent;
use crate::protocols::chat::MessageContentView;
use crate::protocols::common::ChatLogProbs;
use crate::protocols::common::ChatLogProbsView;
use crate::protocols::common::FunctionCallResponse;
use crate::protocols::common::FunctionCallResponseView;
use crate::protocols::common::JsonSchemaFormat;
use crate::protocols::common::JsonSchemaFormatView;
use crate::protocols::common::ResponseFormat;
use crate::protocols::common::ResponseFormatView;
use crate::protocols::common::StreamOptions;
use crate::protocols::common::ToolCall;
use crate::protocols::common::ToolCallView;
use crate::protocols::common::Usage;
use crate::protocols::common::UsageInfo;
use crate::protocols::responses::ResponseContentPart;
use crate::protocols::responses::ResponseContentPartView;
use crate::protocols::responses::ResponseInput;
use crate::protocols::responses::ResponseInputOutputItem;
use crate::protocols::responses::ResponseInputOutputItemView;
use crate::protocols::responses::ResponseInputView;
use crate::protocols::responses::RequestEcho;
use crate::protocols::responses::ResponseOutputItem;
use crate::protocols::responses::ResponseOutputItemView;
use crate::protocols::responses::ResponseReasoningContent;
use crate::protocols::responses::ResponseReasoningContentView;
use crate::protocols::responses::ResponseStatus;
use crate::protocols::responses::ResponsesRequest;
use crate::protocols::responses::ResponsesRequestView;
use crate::protocols::responses::ResponsesResponse;
use crate::protocols::responses::ResponsesUsage;
use crate::protocols::responses::StringOrContentParts;
use crate::protocols::responses::StringOrContentPartsView;
use crate::protocols::responses::TextConfig;
use crate::protocols::responses::TextConfigView;
use crate::protocols::responses::TextFormat;
use crate::protocols::responses::TextFormatView;
use crate::protocols::UNKNOWN_MODEL_ID;
use crate::text;

verus! {

/// The texts of the input parts, in their order.
pub open spec fn input_texts(parts: Seq<ResponseContentPartView>) -> Seq<Seq<char>>
    decreases parts.len(),
{
    if parts.len() == 0 {
        Seq::empty()
    } else {
        match parts.last() {
            ResponseContentPartView::InputText { text } => input_texts(parts.drop_last()).push(text),
            _ => input_texts(parts.drop_last()),
        }
    }
}

/// The texts of the input and output parts, in their order.
pub open spec fn part_texts(parts: Seq<ResponseContentPartView>) -> Seq<Seq<char>>
    decreases parts.len(),
{
    if parts.len() == 0 {
        Seq::empty()
    } else {
        match parts.last() {
            ResponseContentPartView::InputText { text } => part_texts(parts.drop_last()).push(text),
            ResponseContentPartView::OutputText { text, .. } => part_texts(parts.drop_last()).push(
                text,
            ),
            _ => part_texts(parts.drop_last()),
        }
    }
}

/// The pieces of reasoning, in their order.
pub open spec fn reasoning_texts(content: Seq<ResponseReasoningContentView>) -> Seq<Seq<char>> {
    content.map_values(
        |c: ResponseReasoningContentView|
            match c {
                ResponseReasoningContentView::ReasoningText { text } => text,
            },
    )
}

/// The message that this role says.
pub open spec fn role_message(role: Seq<char>, said: Seq<char>) -> ChatMessageView {
    if role == "assistant"@ {
        ChatMessageView::Assistant {
            content: Some(MessageContentView::Text(said)),
            name: None,
            tool_calls: None,
            reasoning_content: None,
        }
    } else if role == "system"@ {
        ChatMessageView::System { content: MessageContentView::Text(said), name: None }
    } else {
        ChatMessageView::User { content: MessageContentView::Text(said), name: None }
    }
}

/// The message that answers a tool call.
pub open spec fn tool_message(call_id: Seq<char>, output: Seq<char>) -> ChatMessageView {
    ChatMessageView::Tool { content: MessageContentView::Text(output), tool_call_id: call_id }
}

/// The chat messages that an item stands for.
pub open spec fn item_messages(item: ResponseInputOutputItemView) -> Seq<ChatMessageView> {
    match item {
        ResponseInputOutputItemView::SimpleInputMessage { content, role, .. } => seq![
            role_message(
                role,
                match content {
                    StringOrContentPartsView::String(s) => s,
                    StringOrContentPartsView::Array(parts) => text::joined(
                        input_texts(parts),
                        " "@,
                    ),
                },
            ),
        ],
        ResponseInputOutputItemView::Message { role, content, .. } => seq![
            role_message(role, text::joined(part_texts(content), ""@)),
        ],
        ResponseInputOutputItemView::FunctionToolCall { id, name, arguments, output, .. } => {
            let call = ChatMessageView::Assistant {
                content: None,
                name: None,
                tool_calls: Some(
                    seq![
                        ToolCallView {
                            id,
                            tool_type: "function"@,
                            function: FunctionCallResponseView { name, arguments: Some(arguments) },
                        },
                    ],
                ),
                reasoning_content: None,
            };
            match output {
                Some(o) => seq![call, tool_message(id, o)],
                None => seq![call],
            }
        },
        ResponseInputOutputItemView::Reasoning { content, .. } => seq![
            ChatMessageView::Assistant {
                content: None,
                name: None,
                tool_calls: None,
                reasoning_content: Some(text::joined(reasoning_texts(content), "\n"@)),
            },
        ],
        ResponseInputOutputItemView::FunctionCallOutput { call_id, output, .. } => seq![
            tool_message(call_id, output),
        ],
    }
}

/// The chat messages of all items, in their order.
pub open spec fn items_messages(items: Seq<ResponseInputOutputItemView>) -> Seq<ChatMessageView>
    decreases items.len(),
{
    if items.len() == 0 {
        Seq::empty()
    } else {
        items_messages(items.drop_last()) + item_messages(items.last())
    }
}

/// The chat messages of a request: its instructions first.
pub open spec fn chat_messages(req: ResponsesRequestView) -> Seq<ChatMessageView> {
    let head = match req.instructions {
        Some(i) => seq![
            ChatMessageView::System { content: MessageContentView::Text(i), name: None },
        ],
        None => Seq::empty(),
    };
    head + match req.input {
        ResponseInputView::Text(t) => seq![role_message("user"@, t)],
        ResponseInputView::Items(items) => items_messages(items),
    }
}

/// The chat response format of a text configuration.
pub open spec fn chat_format(config: Option<TextConfigView>) -> Option<ResponseFormatView> {
    match config {
        Some(TextConfigView { format: Some(TextFormatView::Text) }) => Some(
            ResponseFormatView::Text,
        ),
        Some(TextConfigView { format: Some(TextFormatView::JsonObject) }) => Some(
            ResponseFormatView::JsonObject,
        ),
        Some(
            TextConfigView { format: Some(TextFormatView::JsonSchema { name, schema, strict, .. }) },
        ) => Some(
            ResponseFormatView::JsonSchema {
                json_schema: JsonSchemaFormatView { name, schema, strict },
            },
        ),
        _ => None,
    }
}

fn input_text(parts: &Vec<ResponseContentPart>) -> (r: String)
    ensures
        r@ == text::joined(input_texts(parts.deep_view()), " "@),
{
    let ghost all = parts.deep_view();
    let mut texts: Vec<String> = Vec::new();
    for i in 0..parts.len()
        invariant
            all == parts.deep_view(),
            texts.deep_view() =~= input_texts(all.take(i as int)),
    {
        let ghost before = texts.deep_view();
        assert(all.take(i + 1).drop_last() =~= all.take(i as int));
        assert(all.take(i + 1).last() == all[i as int]);
        if let ResponseContentPart::InputText { text } = &parts[i] {
            texts.push(text.clone());
            assert(texts.deep_view() =~= before.push(text@));
        }
    }
    assert(all.take(all.len() as int) =~= all);
    text::join(&texts, " ")
}

pub fn extract_text_from_content(content: &Vec<ResponseContentPart>) -> (r: String)
    ensures
        r@ == text::joined(part_texts(content.deep_view()), ""@),
{
    let ghost all = content.deep_view();
    let mut texts: Vec<String> = Vec::new();
    for i in 0..content.len()
        invariant
            all == content.deep_view(),
            texts.deep_view() =~= part_texts(all.take(i as int)),
    {
        let ghost before = texts.deep_view();
        assert(all.take(i + 1).drop_last() =~= all.take(i as int));
        assert(all.take(i + 1).last() == all[i as int]);
        match &content[i] {
            ResponseContentPart::InputText { text } => {
                texts.push(text.clone());
                assert(texts.deep_view() =~= before.push(text@));
            },
            ResponseContentPart::OutputText { text, .. } => {
                texts.push(text.clone());
                assert(texts.deep_view() =~= before.push(text@));
            },
            ResponseContentPart::Unknown => {},
        }
    }
    assert(all.take(all.len() as int) =~= all);
    text::join(&texts, "")
}

fn reasoning_text(content: &Vec<ResponseReasoningContent>) -> (r: String)
    ensures
        r@ == text::joined(reasoning_texts(content.deep_view()), "\n"@),
{
    let mut texts: Vec<String> = Vec::new();
    for i in 0..content.len()
        invariant
            texts@.len() == i,
            forall|j: int|
                0 <= j < i ==> (#[trigger] texts@[j])@ == reasoning_texts(content.deep_view())[j],
    {
        match &content[i] {
            ResponseReasoningContent::ReasoningText { text } => texts.push(text.clone()),
        }
    }
    assert(texts.deep_view() =~= reasoning_texts(content.deep_view()));
    text::join(&texts, "\n")
}

pub fn role_to_chat_message(role: &str, text: String) -> (r: ChatMessage)
    ensures
        r.deep_view() == role_message(role@, text@),
{
    if text::same(role, "assistant") {
        ChatMessage::Assistant {
            content: Some(MessageContent::Text(text)),
            name: None,
            tool_calls: None,
            reasoning_content: None,
        }
    } else if text::same(role, "system") {
        ChatMessage::System { content: MessageContent::Text(text), name: None }
    } else {
        // Unknown roles fall through to user.
        ChatMessage::User { content: MessageContent::Text(text), name: None }
    }
}

pub fn map_text_to_response_format(text: &Option<TextConfig>) -> (r: Option<ResponseFormat>)
    ensures
        r.deep_view() == chat_format(text.deep_view()),
{
    match text {
        Some(TextConfig { format: Some(format) }) => match format {
            TextFormat::Text => Some(ResponseFormat::Text),
            TextFormat::JsonObject => Some(ResponseFormat::JsonObject),
            TextFormat::JsonSchema { name, schema, strict, .. } => Some(
                ResponseFormat::JsonSchema {
                    json_schema: JsonSchemaFormat {
                        name: name.clone(),
                        schema: schema.copy(),
                        strict: *strict,
                    },
                },
            ),
        },
        _ => None,
    }
}

/// Adds the chat messages that an item stands for.
fn push_item_messages(messages: &mut Vec<ChatMessage>, item: &ResponseInputOutputItem)
    ensures
        final(messages).deep_view() == old(messages).deep_view() + item_messages(item.deep_view()),
{
    let ghost before = messages.deep_view();
    match item {
        ResponseInputOutputItem::SimpleInputMessage { content, role, .. } => {
            let text = match content {
                StringOrContentParts::String(s) => s.clone(),
                StringOrContentParts::Array(parts) => input_text(parts),
            };
            messages.push(role_to_chat_message(role.as_str(), text));
        },
        ResponseInputOutputItem::Message { role, content, .. } => {
            let text = extract_text_from_content(content);
            messages.push(role_to_chat_message(role.as_str(), text));
        },
        ResponseInputOutputItem::FunctionToolCall { id, name, arguments, output, .. } => {
            let mut calls: Vec<ToolCall> = Vec::new();
            calls.push(
                ToolCall {
                    id: id.clone(),
                    tool_type: "function".to_owned(),
                    function: FunctionCallResponse {
                        name: name.clone(),
                        arguments: Some(arguments.clone()),
                    },
                },
            );
            assert(calls.deep_view() =~= item_messages(
                item.deep_view(),
            )[0]->Assistant_tool_calls->0);
            messages.push(
                ChatMessage::Assistant {
                    content: None,
                    name: None,
                    tool_calls: Some(calls),
                    reasoning_content: None,
                },
            );
            if let Some(output_text) = output {
                messages.push(
                    ChatMessage::Tool {
                        content: MessageContent::Text(output_text.clone()),
                        tool_call_id: id.clone(),
                    },
                );
            }
        },
        ResponseInputOutputItem::Reasoning { content, .. } => {
            messages.push(
                ChatMessage::Assistant {
                    content: None,
                    name: None,
                    tool_calls: None,
                    reasoning_content: Some(reasoning_text(content)),
                },
            );
        },
        ResponseInputOutputItem::FunctionCallOutput { call_id, output, .. } => {
            messages.push(
                ChatMessage::Tool {
                    content: MessageContent::Text(output.clone()),
                    tool_call_id: call_id.clone(),
                },
            );
        },
    }
    assert(messages.deep_view() =~= before + item_messages(item.deep_view()));
}

/// The fields for which a responses request has no counterpart.
pub open spec fn leaves_the_rest_unset(chat: ChatCompletionRequest) -> bool {
    &&& chat.top_k is None
    &&& chat.min_p is None
    &&& chat.frequency_penalty is None
    &&& chat.presence_penalty is None
    &&& chat.repetition_penalty is None
    &&& chat.n is None
    &&& !chat.ignore_eos
    &&& chat.stop is None
    &&& chat.stop_token_ids is None
    &&& !chat.no_stop_trim
    &&& !chat.logprobs
    &&& chat.reasoning_effort is None
    &&& chat.chat_template_kwargs is None
    &&& !chat.continue_final_message
    &&& !chat.return_hidden_states
}

/// What comes of making a chat request of a request: it needs a message at least.
pub open spec fn is_chat_request(
    r: Result<ChatCompletionRequest, String>,
    req: ResponsesRequest,
) -> bool {
    match r {
        Ok(chat) => {
            let view = req.deep_view();
            let tools = match protocols::responses::opt_value(view.tools) {
                Some(t) => persistence::function_tools(t),
                None => Seq::empty(),
            };
            let streaming = req.stream == Some(true);
            &&& chat_messages(view).len() > 0
            &&& chat.messages.deep_view() == chat_messages(view)
            &&& chat.model@ == (if req.model@.len() == 0 {
                UNKNOWN_MODEL_ID@
            } else {
                req.model@
            })
            &&& chat.temperature == protocols::responses::opt_value(view.temperature)
            &&& chat.max_completion_tokens == req.max_output_tokens
            &&& chat.stream == streaming
            &&& chat.stream_options == (if streaming {
                Some(StreamOptions { include_usage: Some(true) })
            } else {
                None
            })
            &&& chat.parallel_tool_calls == req.parallel_tool_calls
            &&& chat.top_logprobs == req.top_logprobs
            &&& chat.top_p == protocols::responses::opt_value(view.top_p)
            &&& chat.skip_special_tokens
            &&& chat.tools.deep_view() == (if tools.len() == 0 {
                None
            } else {
                Some(tools)
            })
            &&& chat.tool_choice.deep_view() == protocols::responses::opt_value(view.tool_choice)
            &&& chat.response_format.deep_view() == chat_format(view.text)
            &&& leaves_the_rest_unset(chat)
        },
        Err(e) => {
            &&& chat_messages(req.deep_view()).len() == 0
            &&& e@ == "Request must contain at least one message"@
        },
    }
}

/// The chat request that a responses request stands for. It has to hold at least
/// one message.
pub fn responses_to_chat(req: &ResponsesRequest) -> (r: Result<ChatCompletionRequest, String>)
    ensures
        is_chat_request(r, *req),
{
    let mut messages: Vec<ChatMessage> = Vec::new();
    if let Some(instructions) = &req.instructions {
        messages.push(
            ChatMessage::System {
                content: MessageContent::Text(instructions.clone()),
                name: None,
            },
        );
    }
    let ghost head = messages.deep_view();
    match &req.input {
        ResponseInput::Text(text) => {
            messages.push(
                ChatMessage::User { content: MessageContent::Text(text.clone()), name: None },
            );
            proof {
                reveal_strlit("user");
                reveal_strlit("assistant");
                reveal_strlit("system");
                assert("user"@.len() != "assistant"@.len());
                assert("user"@.len() != "system"@.len());
            }
        },
        ResponseInput::Items(items) => {
            let ghost all = items.deep_view();
            for i in 0..items.len()
                invariant
                    all == items.deep_view(),
                    messages.deep_view() =~= head + items_messages(all.take(i as int)),
            {
                assert(all.take(i + 1).drop_last() =~= all.take(i as int));
                assert(all.take(i + 1).last() == all[i as int]);
                push_item_messages(&mut messages, &items[i]);
            }
            assert(all.take(all.len() as int) =~= all);
        },
    }
    assert(messages.deep_view() =~= chat_messages(req.deep_view()));
    if messages.len() == 0 {
        return Err("Request must contain at least one message".to_owned());
    }
    let function_tools = extract_tools_from_response_tools(
        match &req.tools {
            Some(t) => Some(&t.value),
            None => None,
        },
    );
    let tools = if function_tools.len() == 0 {
        None
    } else {
        Some(function_tools)
    };
    let is_streaming = req.stream.unwrap_or(false);
    Ok(
        ChatCompletionRequest {
            messages,
            model: if req.model.as_str().is_empty() {
                UNKNOWN_MODEL_ID.to_owned()
            } else {
                req.model.clone()
            },
            temperature: match &req.temperature {
                Some(t) => Some(t.value),
                None => None,
            },
            max_completion_tokens: req.max_output_tokens,
            stream: is_streaming,
            stream_options: if is_streaming {
                Some(StreamOptions { include_usage: Some(true) })
            } else {
                None
            },
            parallel_tool_calls: req.parallel_tool_calls,
            top_logprobs: req.top_logprobs,
            top_p: match &req.top_p {
                Some(p) => Some(p.value),
                None => None,
            },
            skip_special_tokens: true,
            tools,
            tool_choice: match &req.tool_choice {
                Some(c) => Some(c.value.duplicate()),
                None => None,
            },
            response_format: map_text_to_response_format(&req.text),
            ..Default::default()
        },
    )
}

/// The message item of an answer's text. An empty text has none.
pub open spec fn message_items(
    id: Seq<char>,
    content: Seq<char>,
    logprobs: Option<ChatLogProbsView>,
) -> Seq<ResponseOutputItemView> {
    if content.len() == 0 {
        Seq::empty()
    } else {
        seq![
            ResponseOutputItemView::Message {
                id: "msg_"@ + id,
                role: "assistant"@,
                content: seq![
                    ResponseContentPartView::OutputText {
                        text: content,
                        annotations: Seq::empty(),
                        logprobs,
                    },
                ],
                status: "completed"@,
            },
        ]
    }
}

/// The reasoning item of an answer. Empty reasoning has none.
pub open spec fn reasoning_items(id: Seq<char>, reasoning: Seq<char>) -> Seq<
    ResponseOutputItemView,
> {
    if reasoning.len() == 0 {
        Seq::empty()
    } else {
        seq![
            ResponseOutputItemView::Reasoning {
                id: "reasoning_"@ + id,
                summary: Seq::empty(),
                content: seq![ResponseReasoningContentView::ReasoningText { text: reasoning }],
                status: Some("completed"@),
            },
        ]
    }
}

/// The item of a tool call. Running the tool is up to the caller.
pub open spec fn tool_call_item(call: ToolCallView) -> ResponseOutputItemView {
    ResponseOutputItemView::FunctionToolCall {
        id: call.id,
        call_id: call.id,
        name: call.function.name,
        arguments: match call.function.arguments {
            Some(a) => a,
            None => Seq::empty(),
        },
        output: None,
        status: "in_progress"@,
    }
}

/// The items of a finished chat completion.
pub open spec fn chat_output(
    id: Seq<char>,
    content: Option<Seq<char>>,
    logprobs: Option<ChatLogProbsView>,
    reasoning: Option<Seq<char>>,
    calls: Option<Seq<ToolCallView>>,
) -> Seq<ResponseOutputItemView> {
    (match content {
        Some(c) => message_items(id, c, logprobs),
        None => Seq::empty(),
    }) + (match reasoning {
        Some(r) => reasoning_items(id, r),
        None => Seq::empty(),
    }) + (match calls {
        Some(c) => c.map_values(|call: ToolCallView| tool_call_item(call)),
        None => Seq::empty(),
    })
}

/// The status that a finish reason stands for: only a failure is one.
pub open spec fn finish_status(finish_reason: Option<Seq<char>>) -> ResponseStatus {
    if finish_reason == Some("failed"@) || finish_reason == Some("error"@) {
        ResponseStatus::Failed
    } else {
        ResponseStatus::Completed
    }
}

/// The token counts of a response, from those of the chat completion.
pub open spec fn response_usage(usage: Usage) -> ResponsesUsage {
    ResponsesUsage::Classic(
        UsageInfo {
            prompt_tokens: usage.prompt_tokens,
            completion_tokens: usage.completion_tokens,
            total_tokens: usage.total_tokens,
            reasoning_tokens: match usage.completion_tokens_details {
                Some(d) => d.reasoning_tokens,
                None => None,
            },
            prompt_tokens_details: None,
        },
    )
}

pub fn status_of_finish(finish_reason: &Option<String>) -> (r: ResponseStatus)
    ensures
        r == finish_status(finish_reason.deep_view()),
{
    match finish_reason {
        Some(reason) => {
            if text::same(reason.as_str(), "failed") || text::same(reason.as_str(), "error") {
                ResponseStatus::Failed
            } else {
                ResponseStatus::Completed
            }
        },
        None => ResponseStatus::Completed,
    }
}

pub fn usage_of_chat(usage: &Option<Usage>) -> (r: Option<ResponsesUsage>)
    ensures
        r == (match *usage {
            Some(u) => Some(response_usage(u)),
            None => None,
        }),
{
    match usage {
        Some(u) => {
            let reasoning_tokens: Option<u32> = match &u.completion_tokens_details {
                Some(d) => d.reasoning_tokens,
                None => None,
            };
            Some(
                ResponsesUsage::Classic(
                    UsageInfo {
                        prompt_tokens: u.prompt_tokens,
                        completion_tokens: u.completion_tokens,
                        total_tokens: u.total_tokens,
                        reasoning_tokens,
                        prompt_tokens_details: None,
                    },
                ),
            )
        },
        None => None,
    }
}

/// Adds the message item of a text, unless it is empty.
pub fn push_message_item(
    output: &mut Vec<ResponseOutputItem>,
    id: &str,
    content: &str,
    logprobs: Option<ChatLogProbs>,
)
    ensures
        final(output).deep_view() == old(output).deep_view() + message_items(
            id@,
            content@,
            logprobs.deep_view(),
        ),
{
    let ghost before = output.deep_view();
    if !content.is_empty() {
        let mut parts: Vec<ResponseContentPart> = Vec::new();
        let annotations: Vec<String> = Vec::new();
        assert(annotations.deep_view() =~= Seq::empty());
        parts.push(
            ResponseContentPart::OutputText { text: content.to_owned(), annotations, logprobs },
        );
        assert(parts.deep_view() =~= seq![parts@[0].deep_view()]);
        output.push(
            ResponseOutputItem::Message {
                id: text::join2("msg_", id),
                role: "assistant".to_owned(),
                content: parts,
                status: "completed".to_owned(),
            },
        );
    }
    assert(output.deep_view() =~= before + message_items(id@, content@, logprobs.deep_view()));
}

/// Adds the reasoning item of a text, unless it is empty.
pub fn push_reasoning_item(output: &mut Vec<ResponseOutputItem>, id: &str, reasoning: &str)
    ensures
        final(output).deep_view() == old(output).deep_view() + reasoning_items(id@, reasoning@),
{
    let ghost before = output.deep_view();
    if !reasoning.is_empty() {
        let mut parts: Vec<ResponseReasoningContent> = Vec::new();
        parts.push(ResponseReasoningContent::ReasoningText { text: reasoning.to_owned() });
        assert(parts.deep_view() =~= seq![parts@[0].deep_view()]);
        let summary: Vec<String> = Vec::new();
        assert(summary.deep_view() =~= Seq::empty());
        output.push(
            ResponseOutputItem::Reasoning {
                id: text::join2("reasoning_", id),
                summary,
                content: parts,
                status: Some("completed".to_owned()),
            },
        );
    }
    assert(output.deep_view() =~= before + reasoning_items(id@, reasoning@));
}

/// What comes of making a response of a chat completion: it needs a choice. The response
/// has the given identifier, or else that of the completion.
pub open spec fn is_response(
    r: Result<ResponsesResponse, String>,
    chat_resp: ChatCompletionResponse,
    original_req: ResponsesRequest,
    response_id: Option<String>,
) -> bool {
    match r {
        Ok(resp) => {
            let choice = chat_resp.choices@[0];
            &&& chat_resp.choices@.len() > 0
            &&& resp.id@ == (match response_id {
                Some(id) => id@,
                None => chat_resp.id@,
            })
            &&& resp.model@ == chat_resp.model@
            &&& resp.created_at == chat_resp.created as i64
            &&& resp.status == finish_status(choice.finish_reason.deep_view())
            &&& resp.output.deep_view() == chat_output(
                chat_resp.id@,
                choice.message.content.deep_view(),
                choice.logprobs.deep_view(),
                choice.message.reasoning_content.deep_view(),
                choice.message.tool_calls.deep_view(),
            )
            &&& resp.text.deep_view() == original_req.text.deep_view()
            &&& resp.usage == (match chat_resp.usage {
                Some(u) => Some(response_usage(u)),
                None => None,
            })
            &&& resp.echo.deep_view() == original_req.deep_view().echo()
        },
        Err(e) => {
            &&& chat_resp.choices@.len() == 0
            &&& e@ == "Chat response contains no choices"@
        },
    }
}

/// The response that a finished chat completion stands for. Only its first choice
/// contributes.
pub fn chat_to_responses(
    chat_resp: &ChatCompletionResponse,
    original_req: &ResponsesRequest,
    response_id_override: Option<String>,
) -> (r: Result<ResponsesResponse, String>)
    ensures
        is_response(r, *chat_resp, *original_req, response_id_override),
{
    if chat_resp.choices.len() == 0 {
        return Err("Chat response contains no choices".to_owned());
    }
    let choice = &chat_resp.choices[0];
    let mut output: Vec<ResponseOutputItem> = Vec::new();
    assert(output.deep_view() =~= Seq::empty());
    if let Some(content) = &choice.message.content {
        push_message_item(
            &mut output,
            chat_resp.id.as_str(),
            content.as_str(),
            choice.logprobs.duplicate(),
        );
    }
    let ghost first = output.deep_view();
    if let Some(reasoning) = &choice.message.reasoning_content {
        push_reasoning_item(&mut output, chat_resp.id.as_str(), reasoning.as_str());
    }
    let ghost head = output.deep_view();
    if let Some(tool_calls) = &choice.message.tool_calls {
        let ghost calls = tool_calls.deep_view();
        let ghost f = |call: ToolCallView| tool_call_item(call);
        for i in 0..tool_calls.len()
            invariant
                calls == tool_calls.deep_view(),
                output.deep_view() =~= head + calls.take(i as int).map_values(f),
                f == |call: ToolCallView| tool_call_item(call),
        {
            let ghost before = output.deep_view();
            let call = &tool_calls[i];
            output.push(
                ResponseOutputItem::FunctionToolCall {
                    id: call.id.clone(),
                    call_id: call.id.clone(),
                    name: call.function.name.clone(),
                    arguments: match &call.function.arguments {
                        Some(a) => a.clone(),
                        None => String::new(),
                    },
                    output: None,
                    status: "in_progress".to_owned(),
                },
            );
            assert(output.deep_view() =~= before.push(tool_call_item(calls[i as int])));
            assert(calls.take(i + 1).map_values(f) =~= calls.take(i as int).map_values(f).push(
                f(calls[i as int]),
            ));
        }
        assert(calls.take(calls.len() as int) =~= calls);
    }
    assert(output.deep_view() =~= chat_output(
        chat_resp.id@,
        choice.message.content.deep_view(),
        choice.logprobs.deep_view(),
        choice.message.reasoning_content.deep_view(),
        choice.message.tool_calls.deep_view(),
    ));
    let id = match response_id_override {
        Some(id) => id,
        None => chat_resp.id.clone(),
    };
    Ok(
        ResponsesResponse {
            id,
            model: chat_resp.model.clone(),
            created_at: chat_resp.created as i64,
            status: status_of_finish(&choice.finish_reason),
            output,
            text: original_req.text.duplicate(),
            usage: usage_of_chat(&chat_resp.usage),
            echo: RequestEcho::copy_from_request(original_req),
        },
    )
}

} // verus!
