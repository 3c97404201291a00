//! What a chat request says of the request that it was made of, and what a response says of
//! the chat completion that it was made of.

use vstd::prelude::*;

use super::accumulator::StreamingResponseAccumulator;
use super::conversions;
use super::conversions::chat_to_responses;
use super::conversions::extract_text_from_content;
use super::conversions::items_messages;
use super::conversions::map_text_to_response_format;
use super::conversions::responses_to_chat;
use super::conversions::role_to_chat_message;
use super::conversions::status_of_finish;
use super::conversions::usage_of_chat;
use super::persistence;
use super::persistence::extract_tools_from_response_tools;
use crate::protocols::chat::ChatCompletionRequest;
use crate::protocols::chat::ChatCompletionResponse;
use crate::protocols::chat::ChatMessage;
use crate::protocols::chat::MessageContent;
use crate::protocols::common::ChatLogProbs;
use crate::protocols::common::ResponseFormat;
use crate::protocols::common::Tool;
use crate::protocols::common::ToolCall;
use crate::protocols::common::Usage;
use crate::protocols::responses::ResponseContentPart;
use crate::protocols::responses::ResponseContentPartView;
use crate::protocols::responses::ResponseInput;
use crate::protocols::responses::ResponseInputOutputItem;
use crate::protocols::responses::ResponseInputOutputItemView;
use crate::protocols::responses::ResponseOutputItem;
use crate::protocols::responses::ResponseReasoningContent;
use crate::protocols::responses::ResponseReasoningContentView;
use crate::protocols::responses::ResponseStatus;
use crate::protocols::responses::ResponseTool;
use crate::protocols::responses::ResponseToolType;
use crate::protocols::responses::ResponseToolView;
use crate::protocols::responses::ResponsesRequest;
use crate::protocols::responses::ResponsesResponse;
use crate::protocols::responses::ResponsesUsage;
use crate::protocols::responses::StringOrContentParts;
use crate::protocols::responses::TextConfig;
use crate::protocols::responses::TextFormat;
use crate::text;

verus! {

/// Whether these texts, with this one between each two, spell what is said.
pub open spec fn spells(texts: Seq<Seq<char>>, between: Seq<char>, said: Seq<char>) -> bool
    decreases texts.len(),
{
    if texts.len() == 0 {
        said.len() == 0
    } else if texts.len() == 1 {
        said == texts[0]
    } else {
        let n = said.len() - texts.last().len() - between.len();
        &&& n >= 0
        &&& spells(texts.drop_last(), between, said.take(n))
        &&& said.skip(n) == between + texts.last()
    }
}

/// What was typed as input, part by part.
pub open spec fn typed(parts: Seq<ResponseContentPart>) -> Seq<Seq<char>> {
    parts.filter(|p: ResponseContentPart| p is InputText).map_values(
        |p: ResponseContentPart| p->InputText_text@,
    )
}

/// What stands in the parts that hold a text, part by part.
pub open spec fn written(parts: Seq<ResponseContentPart>) -> Seq<Seq<char>> {
    parts.filter(|p: ResponseContentPart| !(p is Unknown)).map_values(
        |p: ResponseContentPart|
            match p {
                ResponseContentPart::InputText { text } => text@,
                ResponseContentPart::OutputText { text, .. } => text@,
                ResponseContentPart::Unknown => Seq::empty(),
            },
    )
}

/// What was thought, piece by piece.
pub open spec fn thought(content: Seq<ResponseReasoningContent>) -> Seq<Seq<char>> {
    content.map_values(|c: ResponseReasoningContent| c->ReasoningText_text@)
}

/// Whether this role says this, and nothing else.
pub open spec fn says(message: ChatMessage, role: Seq<char>, said: Seq<char>) -> bool {
    match message {
        ChatMessage::Assistant { content, name, tool_calls, reasoning_content } => {
            &&& role == "assistant"@
            &&& content matches Some(MessageContent::Text(t))
            &&& t@ == said
            &&& name is None
            &&& tool_calls is None
            &&& reasoning_content is None
        },
        ChatMessage::System { content, name } => {
            &&& role == "system"@
            &&& content matches MessageContent::Text(t)
            &&& t@ == said
            &&& name is None
        },
        ChatMessage::User { content, name } => {
            &&& role != "assistant"@
            &&& role != "system"@
            &&& content matches MessageContent::Text(t)
            &&& t@ == said
            &&& name is None
        },
        ChatMessage::Tool { .. } => false,
    }
}

/// The text of a message.
pub open spec fn text_of(message: ChatMessage) -> Seq<char> {
    match message {
        ChatMessage::Assistant { content: Some(MessageContent::Text(t)), .. } => t@,
        ChatMessage::System { content: MessageContent::Text(t), .. } => t@,
        ChatMessage::User { content: MessageContent::Text(t), .. } => t@,
        ChatMessage::Tool { content: MessageContent::Text(t), .. } => t@,
        _ => Seq::empty(),
    }
}

/// Whether the assistant calls this function, once, and says nothing.
pub open spec fn makes_call(
    message: ChatMessage,
    id: Seq<char>,
    name: Seq<char>,
    arguments: Seq<char>,
) -> bool {
    match message {
        ChatMessage::Assistant {
            content: None,
            name: None,
            tool_calls: Some(calls),
            reasoning_content: None,
        } => {
            &&& calls@.len() == 1
            &&& calls@[0].id@ == id
            &&& calls@[0].tool_type@ == "function"@
            &&& calls@[0].function.name@ == name
            &&& calls@[0].function.arguments matches Some(a)
            &&& a@ == arguments
        },
        _ => false,
    }
}

/// Whether a tool gave this as the outcome of a call.
pub open spec fn gives_outcome(message: ChatMessage, id: Seq<char>, outcome: Seq<char>) -> bool {
    match message {
        ChatMessage::Tool { content: MessageContent::Text(t), tool_call_id } => {
            &&& t@ == outcome
            &&& tool_call_id@ == id
        },
        _ => false,
    }
}

/// The thoughts of an assistant that says nothing and calls nothing.
pub open spec fn thinks(message: ChatMessage) -> Option<Seq<char>> {
    match message {
        ChatMessage::Assistant {
            content: None,
            name: None,
            tool_calls: None,
            reasoning_content: Some(t),
        } => Some(t@),
        _ => None,
    }
}

/// Whether a conversation goes through these items, one after the other. A call whose
/// outcome is known is two messages, under the identifier of the item; every other item is
/// one.
pub open spec fn goes_through(
    items: Seq<ResponseInputOutputItem>,
    messages: Seq<ChatMessage>,
) -> bool
    decreases items.len(),
{
    if items.len() == 0 {
        messages.len() == 0
    } else {
        let rest = items.drop_last();
        match items.last() {
            ResponseInputOutputItem::SimpleInputMessage { content, role, .. } => {
                &&& messages.len() > 0
                &&& says(messages.last(), role@, text_of(messages.last()))
                &&& match content {
                    StringOrContentParts::String(s) => text_of(messages.last()) == s@,
                    StringOrContentParts::Array(parts) => spells(
                        typed(parts@),
                        seq![' '],
                        text_of(messages.last()),
                    ),
                }
                &&& goes_through(rest, messages.drop_last())
            },
            ResponseInputOutputItem::Message { role, content, .. } => {
                &&& messages.len() > 0
                &&& says(messages.last(), role@, text_of(messages.last()))
                &&& spells(written(content@), Seq::empty(), text_of(messages.last()))
                &&& goes_through(rest, messages.drop_last())
            },
            ResponseInputOutputItem::Reasoning { content, .. } => {
                &&& messages.len() > 0
                &&& thinks(messages.last()) matches Some(t)
                &&& spells(thought(content@), seq!['\n'], t)
                &&& goes_through(rest, messages.drop_last())
            },
            ResponseInputOutputItem::FunctionToolCall {
                id,
                name,
                arguments,
                output: Some(outcome),
                ..
            } => {
                &&& messages.len() > 1
                &&& makes_call(messages[messages.len() - 2], id@, name@, arguments@)
                &&& gives_outcome(messages.last(), id@, outcome@)
                &&& goes_through(rest, messages.drop_last().drop_last())
            },
            ResponseInputOutputItem::FunctionToolCall { id, name, arguments, output: None, .. } => {
                &&& messages.len() > 0
                &&& makes_call(messages.last(), id@, name@, arguments@)
                &&& goes_through(rest, messages.drop_last())
            },
            ResponseInputOutputItem::FunctionCallOutput { call_id, output, .. } => {
                &&& messages.len() > 0
                &&& gives_outcome(messages.last(), call_id@, output@)
                &&& goes_through(rest, messages.drop_last())
            },
        }
    }
}

proof fn lemma_joined_spells(texts: Seq<Seq<char>>, between: Seq<char>)
    ensures
        spells(texts, between, text::joined(texts, between)),
    decreases texts.len(),
{
    if texts.len() > 1 {
        let init = texts.drop_last();
        let said = text::joined(texts, between);
        let before = text::joined(init, between);
        lemma_joined_spells(init, between);
        assert(said == before + between + texts.last());
        let n = said.len() - texts.last().len() - between.len();
        assert(said.take(n) =~= before);
        assert(said.skip(n) =~= between + texts.last());
    }
}

proof fn lemma_typed(parts: Seq<ResponseContentPart>, views: Seq<ResponseContentPartView>)
    requires
        views.len() == parts.len(),
        forall|i: int| 0 <= i < parts.len() ==> #[trigger] views[i] == parts[i].deep_view(),
    ensures
        conversions::input_texts(views) == typed(parts),
        conversions::part_texts(views) == written(parts),
    decreases parts.len(),
{
    reveal(Seq::filter);
    if parts.len() > 0 {
        lemma_typed(parts.drop_last(), views.drop_last());
        assert(views.last() == parts.last().deep_view());
    }
    assert(conversions::input_texts(views) =~= typed(parts));
    assert(conversions::part_texts(views) =~= written(parts));
}

proof fn lemma_thought(
    content: Seq<ResponseReasoningContent>,
    views: Seq<ResponseReasoningContentView>,
)
    requires
        views.len() == content.len(),
        forall|i: int| 0 <= i < content.len() ==> #[trigger] views[i] == content[i].deep_view(),
    ensures
        conversions::reasoning_texts(views) == thought(content),
{
    assert(conversions::reasoning_texts(views) =~= thought(content));
}

proof fn lemma_goes_through(
    items: Seq<ResponseInputOutputItem>,
    views: Seq<ResponseInputOutputItemView>,
    messages: Seq<ChatMessage>,
)
    requires
        views.len() == items.len(),
        forall|i: int| 0 <= i < items.len() ==> #[trigger] views[i] == items[i].deep_view(),
        messages.len() == items_messages(views).len(),
        forall|i: int|
            0 <= i < messages.len() ==> (#[trigger] messages[i]).deep_view() == items_messages(
                views,
            )[i],
    ensures
        goes_through(items, messages),
        items.len() > 0 ==> messages.len() > 0,
    decreases items.len(),
{
    if items.len() > 0 {
        let init = views.drop_last();
        let item = items.last();
        assert(views.last() == item.deep_view());
        let all = items_messages(views);
        let own = conversions::item_messages(item.deep_view());
        assert(all == items_messages(init) + own);
        assert(all.last() == own.last());
        assert(messages.last().deep_view() == all[messages.len() - 1]);
        reveal_strlit(" ");
        reveal_strlit("\n");
        reveal_strlit("");
        assert(" "@ =~= seq![' ']);
        assert("\n"@ =~= seq!['\n']);
        assert(""@ =~= Seq::<char>::empty());
        match item {
            ResponseInputOutputItem::SimpleInputMessage { content, role, .. } => {
                if let StringOrContentParts::Array(parts) = content {
                    lemma_typed(parts@, parts.deep_view());
                    lemma_joined_spells(typed(parts@), " "@);
                }
                lemma_goes_through(items.drop_last(), init, messages.drop_last());
            },
            ResponseInputOutputItem::Message { role, content, .. } => {
                lemma_typed(content@, content.deep_view());
                lemma_joined_spells(written(content@), ""@);
                lemma_goes_through(items.drop_last(), init, messages.drop_last());
            },
            ResponseInputOutputItem::Reasoning { content, .. } => {
                lemma_thought(content@, content.deep_view());
                lemma_joined_spells(thought(content@), "\n"@);
                lemma_goes_through(items.drop_last(), init, messages.drop_last());
            },
            ResponseInputOutputItem::FunctionToolCall { id, name, arguments, output, .. } => {
                let n = if output is Some {
                    messages.len() - 2
                } else {
                    messages.len() - 1
                };
                assert(messages[n].deep_view() == own[0]);
                lemma_makes_call(messages[n], id@, name@, arguments@);
                if output is Some {
                    lemma_goes_through(items.drop_last(), init, messages.drop_last().drop_last());
                } else {
                    lemma_goes_through(items.drop_last(), init, messages.drop_last());
                }
            },
            ResponseInputOutputItem::FunctionCallOutput { .. } => {
                lemma_goes_through(items.drop_last(), init, messages.drop_last());
            },
        }
    }
}

proof fn lemma_makes_call(
    message: ChatMessage,
    id: Seq<char>,
    name: Seq<char>,
    arguments: Seq<char>,
)
    requires
        message.deep_view() matches crate::protocols::chat::ChatMessageView::Assistant {
            content: None,
            name: None,
            tool_calls: Some(calls),
            reasoning_content: None,
        } && calls.len() == 1 && calls[0].id == id && calls[0].tool_type == "function"@
            && calls[0].function.name == name && calls[0].function.arguments == Some(arguments),
    ensures
        makes_call(message, id, name, arguments),
{
    if let ChatMessage::Assistant { tool_calls: Some(calls), .. } = message {
        assert(calls.deep_view()[0] == calls@[0].deep_view());
    }
}

/// A request becomes a conversation: what instructs the model comes first, as a system
/// message; a text is what the user says; items are gone through one after the other. Only a
/// request with neither instructions nor items is refused.
pub proof fn law_request_becomes_a_conversation(
    req: &ResponsesRequest,
    r: Result<ChatCompletionRequest, String>,
)
    requires
        call_ensures(responses_to_chat, (req,), r),
    ensures
        r is Err <==> req.instructions is None && (req.input matches ResponseInput::Items(items)
            && items@.len() == 0),
        r matches Ok(chat) ==> {
            let head: int = if req.instructions is Some {
                1
            } else {
                0
            };
            &&& head <= chat.messages@.len()
            &&& req.instructions matches Some(told) ==> says(
                chat.messages@[0],
                "system"@,
                told@,
            )
            &&& match req.input {
                ResponseInput::Text(said) => {
                    &&& chat.messages@.len() == head + 1
                    &&& says(chat.messages@[head], "user"@, said@)
                },
                ResponseInput::Items(items) => goes_through(
                    items@,
                    chat.messages@.skip(head),
                ),
            }
        },
{
    let view = req.deep_view();
    let all = conversions::chat_messages(view);
    let head: int = if req.instructions is Some {
        1
    } else {
        0
    };
    reveal_strlit("user");
    reveal_strlit("system");
    reveal_strlit("assistant");
    assert("user"@.len() != "system"@.len());
    assert("user"@.len() != "assistant"@.len());
    assert("system"@.len() != "assistant"@.len());
    if let Ok(chat) = r {
        assert(chat.messages.deep_view() == all);
        assert(chat.messages@.len() == all.len());
        assert forall|i: int| 0 <= i < chat.messages@.len() implies (
        #[trigger] chat.messages@[i]).deep_view() == all[i] by {
            assert(chat.messages.deep_view()[i] == chat.messages@[i].deep_view());
        }
        if req.instructions is Some {
            assert(chat.messages@[0].deep_view() == all[0]);
        }
        match req.input {
            ResponseInput::Text(said) => {
                assert(chat.messages@[head].deep_view() == all[head]);
            },
            ResponseInput::Items(items) => {
                let rest = chat.messages@.skip(head);
                assert forall|i: int| 0 <= i < rest.len() implies (#[trigger] rest[i]).deep_view()
                    == items_messages(items.deep_view())[i] by {
                    assert(rest[i] == chat.messages@[head + i]);
                }
                lemma_goes_through(items@, items.deep_view(), rest);
            },
        }
    } else {
        if let ResponseInput::Items(items) = req.input {
            if items@.len() > 0 {
                lemma_items_are_messages(items.deep_view());
            }
        }
    }
}

proof fn lemma_items_are_messages(items: Seq<ResponseInputOutputItemView>)
    requires
        items.len() > 0,
    ensures
        items_messages(items).len() > 0,
{
    assert(conversions::item_messages(items.last()).len() > 0);
}

/// The tools that are functions reach the chat pipeline, in their order, each with its
/// function; the others do not.
pub proof fn law_functions_are_kept(tools: Option<&Vec<ResponseTool>>, r: Vec<Tool>)
    requires
        call_ensures(extract_tools_from_response_tools, (tools,), r),
    ensures
        tools is None ==> r@.len() == 0,
        tools matches Some(all) ==> are_functions(all@, r@),
{
    assert(r.deep_view().len() == r@.len());
    if let Some(all) = tools {
        assert forall|i: int| 0 <= i < r@.len() implies (#[trigger] r@[i]).deep_view()
            == persistence::function_tools(all.deep_view())[i] by {
            assert(r.deep_view()[i] == r@[i].deep_view());
        }
        lemma_functions(all@, all.deep_view(), r@);
    }
}

/// The tools that are functions.
pub open spec fn functions(tools: Seq<ResponseTool>) -> Seq<ResponseTool> {
    tools.filter(
        |t: ResponseTool| t.tool_type == ResponseToolType::Function && t.function is Some,
    )
}

/// Whether these are the functions among the tools.
pub open spec fn are_functions(tools: Seq<ResponseTool>, kept: Seq<Tool>) -> bool {
    &&& kept.len() == functions(tools).len()
    &&& forall|i: int|
        #![trigger kept[i]]
        0 <= i < kept.len() ==> {
            &&& kept[i].tool_type@ == "function"@
            &&& functions(tools)[i].function matches Some(f)
            &&& kept[i].function.deep_view() == f.deep_view()
        }
}

proof fn lemma_functions(
    tools: Seq<ResponseTool>,
    views: Seq<ResponseToolView>,
    kept: Seq<Tool>,
)
    requires
        views.len() == tools.len(),
        forall|i: int| 0 <= i < tools.len() ==> #[trigger] views[i] == tools[i].deep_view(),
        kept.len() == persistence::function_tools(views).len(),
        forall|i: int|
            0 <= i < kept.len() ==> (#[trigger] kept[i]).deep_view() == persistence::function_tools(
                views,
            )[i],
    ensures
        are_functions(tools, kept),
    decreases tools.len(),
{
    reveal(Seq::filter);
    if tools.len() > 0 {
        assert(views.last() == tools.last().deep_view());
        if persistence::function_tool(views.last()) is Some {
            let init = kept.drop_last();
            lemma_functions(tools.drop_last(), views.drop_last(), init);
            assert(functions(tools) == functions(tools.drop_last()).push(tools.last()));
            assert forall|i: int| #![trigger kept[i]] 0 <= i < kept.len() implies {
                &&& kept[i].tool_type@ == "function"@
                &&& functions(tools)[i].function matches Some(f)
                &&& kept[i].function.deep_view() == f.deep_view()
            } by {
                assert(kept[i].deep_view() == persistence::function_tools(views)[i]);
                if i < init.len() {
                    assert(kept[i] == init[i]);
                }
            }
        } else {
            lemma_functions(tools.drop_last(), views.drop_last(), kept);
            assert(functions(tools) == functions(tools.drop_last()));
        }
    }
}

/// The chat request asks for what the request asks for: its model (`unknown` where it names
/// none), its limits and its choices. Its functions are handed on where it has any, usage is
/// asked for where the answer is streamed, and what a request cannot ask for is left unset.
pub proof fn law_chat_request_asks_for_the_same(
    req: &ResponsesRequest,
    r: Result<ChatCompletionRequest, String>,
)
    requires
        call_ensures(responses_to_chat, (req,), r),
    ensures
        r matches Ok(chat) ==> {
            &&& req.model@.len() > 0 ==> chat.model@ == req.model@
            &&& req.model@.len() == 0 ==> chat.model@ == "unknown"@
            &&& chat.temperature is Some <==> req.temperature is Some
            &&& req.temperature matches Some(t) ==> chat.temperature == Some(t.value)
            &&& chat.top_p is Some <==> req.top_p is Some
            &&& req.top_p matches Some(p) ==> chat.top_p == Some(p.value)
            &&& chat.max_completion_tokens == req.max_output_tokens
            &&& chat.parallel_tool_calls == req.parallel_tool_calls
            &&& chat.top_logprobs == req.top_logprobs
            &&& chat.stream <==> req.stream == Some(true)
            &&& chat.stream_options is Some <==> req.stream == Some(true)
            &&& chat.stream_options matches Some(o) ==> o.include_usage == Some(true)
            &&& chat.skip_special_tokens
            &&& chat.tool_choice is Some <==> req.tool_choice is Some
            &&& req.tool_choice matches Some(c) ==> (chat.tool_choice matches Some(kept)
                && kept.deep_view() == c.value.deep_view())
            &&& match chat.tools {
                Some(kept) => {
                    &&& kept@.len() > 0
                    &&& req.tools matches Some(all)
                    &&& are_functions(all.value@, kept@)
                },
                None => req.tools matches Some(all) ==> functions(all.value@).len() == 0,
            }
            &&& is_format_of(req.text, chat.response_format)
            &&& chat.top_k is None
            &&& chat.min_p is None
            &&& chat.frequency_penalty is None
            &&& chat.presence_penalty is None
            &&& chat.repetition_penalty is None
            &&& chat.n is None
            &&& !chat.ignore_eos
            &&& chat.stop is None
            &&& chat.stop_token_ids is None
            &&& !chat.no_stop_trim
            &&& !chat.logprobs
            &&& chat.reasoning_effort is None
            &&& chat.chat_template_kwargs is None
            &&& !chat.continue_final_message
            &&& !chat.return_hidden_states
        },
{
    if let Ok(chat) = r {
        let view = req.deep_view();
        if let Some(t) = req.temperature {
            assert(view.temperature->0.value == t.value);
        }
        if let Some(p) = req.top_p {
            assert(view.top_p->0.value == p.value);
        }
        if let Some(c) = req.tool_choice {
            assert(view.tool_choice->0.value == c.value.deep_view());
        }
        if let Some(all) = req.tools {
            let views = all.value.deep_view();
            assert(view.tools->0.value == views);
            let kept = match chat.tools {
                Some(kept) => kept@,
                None => Seq::empty(),
            };
            if let Some(some) = chat.tools {
                assert(chat.tools.deep_view() == Some(some.deep_view()));
                assert forall|i: int| 0 <= i < kept.len() implies (#[trigger] kept[i]).deep_view()
                    == persistence::function_tools(views)[i] by {
                    assert(some.deep_view()[i] == kept[i].deep_view());
                }
            }
            lemma_functions(all.value@, views, kept);
        }
        lemma_format(req.text, chat.response_format);
    }
}

/// Whether an answer of this format is what the text configuration asks for.
pub open spec fn is_format_of(asked: Option<TextConfig>, format: Option<ResponseFormat>) -> bool {
    match asked {
        Some(TextConfig { format: Some(f) }) => match f {
            TextFormat::Text => format == Some(ResponseFormat::Text),
            TextFormat::JsonObject => format == Some(ResponseFormat::JsonObject),
            TextFormat::JsonSchema { name, schema, strict, .. } => {
                &&& format matches Some(ResponseFormat::JsonSchema { json_schema })
                &&& json_schema.name@ == name@
                &&& json_schema.schema@ == schema@
                &&& json_schema.strict == strict
            },
        },
        _ => format is None,
    }
}

proof fn lemma_format(asked: Option<TextConfig>, format: Option<ResponseFormat>)
    requires
        format.deep_view() == conversions::chat_format(asked.deep_view()),
    ensures
        is_format_of(asked, format),
{
}

/// The format of an answer is the one that was asked for, with its schema unchanged.
pub proof fn law_format_is_the_one_asked_for(
    asked: &Option<TextConfig>,
    r: Option<ResponseFormat>,
)
    requires
        call_ensures(map_text_to_response_format, (asked,), r),
    ensures
        is_format_of(*asked, r),
{
    lemma_format(*asked, r);
}

/// A role keeps what it says; one that is not known is a user.
pub proof fn law_role_says_the_text(role: &str, said: String, r: ChatMessage)
    requires
        call_ensures(role_to_chat_message, (role, said), r),
    ensures
        says(r, role@, said@),
{
    reveal_strlit("system");
    reveal_strlit("assistant");
    assert("system"@.len() != "assistant"@.len());
}

/// The text of a content is that of its parts, one after the other.
pub proof fn law_text_of_content(content: &Vec<ResponseContentPart>, r: String)
    requires
        call_ensures(extract_text_from_content, (content,), r),
    ensures
        spells(written(content@), Seq::empty(), r@),
{
    reveal_strlit("");
    assert(""@ =~= Seq::<char>::empty());
    lemma_typed(content@, content.deep_view());
    lemma_joined_spells(written(content@), ""@);
}

/// Whether this is the item of what the assistant said, with its log probabilities.
pub open spec fn tells_text(
    item: ResponseOutputItem,
    id: Seq<char>,
    said: Seq<char>,
    logprobs: Option<ChatLogProbs>,
) -> bool {
    match item {
        ResponseOutputItem::Message { id: own, role, content, status } => {
            &&& own@ == "msg_"@ + id
            &&& role@ == "assistant"@
            &&& status@ == "completed"@
            &&& content@.len() == 1
            &&& match content@[0] {
                ResponseContentPart::OutputText { text, annotations, logprobs: told } => {
                    &&& text@ == said
                    &&& annotations@.len() == 0
                    &&& told.deep_view() == logprobs.deep_view()
                },
                _ => false,
            }
        },
        _ => false,
    }
}

/// Whether this is the item of what the assistant thought.
pub open spec fn tells_thought(item: ResponseOutputItem, id: Seq<char>, said: Seq<char>) -> bool {
    match item {
        ResponseOutputItem::Reasoning { id: own, summary, content, status } => {
            &&& own@ == "reasoning_"@ + id
            &&& summary@.len() == 0
            &&& content@.len() == 1
            &&& match content@[0] {
                ResponseReasoningContent::ReasoningText { text } => text@ == said,
            }
            &&& status matches Some(s)
            &&& s@ == "completed"@
        },
        _ => false,
    }
}

/// Whether this is the item of a call that is still to be made.
pub open spec fn tells_call(item: ResponseOutputItem, call: ToolCall) -> bool {
    match item {
        ResponseOutputItem::FunctionToolCall { id, call_id, name, arguments, output, status } => {
            &&& id@ == call.id@
            &&& call_id@ == call.id@
            &&& name@ == call.function.name@
            &&& call.function.arguments matches Some(a) ==> arguments@ == a@
            &&& call.function.arguments is None ==> arguments@.len() == 0
            &&& output is None
            &&& status@ == "in_progress"@
        },
        _ => false,
    }
}

/// The calls of an answer.
pub open spec fn calls_of(calls: Option<Vec<ToolCall>>) -> Seq<ToolCall> {
    match calls {
        Some(calls) => calls@,
        None => Seq::empty(),
    }
}

/// Whether these token counts are those of the chat completion.
pub open spec fn counts_the_same(counted: Option<Usage>, told: Option<ResponsesUsage>) -> bool {
    match (counted, told) {
        (Some(u), Some(ResponsesUsage::Classic(i))) => {
            &&& i.prompt_tokens == u.prompt_tokens
            &&& i.completion_tokens == u.completion_tokens
            &&& i.total_tokens == u.total_tokens
            &&& u.completion_tokens_details matches Some(d) ==> i.reasoning_tokens
                == d.reasoning_tokens
            &&& u.completion_tokens_details is None ==> i.reasoning_tokens is None
            &&& i.prompt_tokens_details is None
        },
        (None, None) => true,
        _ => false,
    }
}

/// Whether a response repeats the settings of its request.
pub open spec fn repeats_settings(req: ResponsesRequest, r: ResponsesResponse) -> bool {
    &&& r.echo.instructions.deep_view() == req.instructions.deep_view()
    &&& r.echo.temperature.deep_view() == req.temperature.deep_view()
    &&& r.echo.top_p.deep_view() == req.top_p.deep_view()
    &&& r.echo.max_output_tokens == req.max_output_tokens
    &&& r.echo.max_tool_calls == req.max_tool_calls
    &&& r.echo.previous_response_id.deep_view() == req.previous_response_id.deep_view()
    &&& r.echo.user.deep_view() == req.user.deep_view()
    &&& r.echo.parallel_tool_calls == req.parallel_tool_calls
    &&& r.echo.store == req.store
    &&& r.echo.tools.deep_view() == req.tools.deep_view()
    &&& r.echo.tool_choice.deep_view() == req.tool_choice.deep_view()
    &&& r.echo.reasoning.deep_view() == req.reasoning.deep_view()
    &&& r.echo.truncation.deep_view() == req.truncation.deep_view()
    &&& r.echo.metadata.deep_view() == req.metadata.deep_view()
}

/// A response has failed where the completion says so, as `failed` or `error`; otherwise it is
/// completed.
pub proof fn law_status_tells_of_a_failure(finish_reason: &Option<String>, r: ResponseStatus)
    requires
        call_ensures(status_of_finish, (finish_reason,), r),
    ensures
        r == ResponseStatus::Failed <==> (*finish_reason matches Some(reason) && (reason@
            == "failed"@ || reason@ == "error"@)),
        r == ResponseStatus::Failed || r == ResponseStatus::Completed,
{
}

/// The token counts of a response are those of the chat completion.
pub proof fn law_counts_are_kept(usage: &Option<Usage>, r: Option<ResponsesUsage>)
    requires
        call_ensures(usage_of_chat, (usage,), r),
    ensures
        counts_the_same(*usage, r),
{
}

/// A response tells what the first choice of the completion tells: what was said, unless it
/// is empty; what was thought, unless it is empty; each call that is to be made. It has the
/// identifier that it was given, or else that of the completion, and the settings of its
/// request. Only a completion without choices is refused.
pub proof fn law_response_tells_the_answer(
    chat: &ChatCompletionResponse,
    req: &ResponsesRequest,
    id: Option<String>,
    r: Result<ResponsesResponse, String>,
)
    requires
        call_ensures(chat_to_responses, (chat, req, id), r),
    ensures
        r is Err <==> chat.choices@.len() == 0,
        r matches Ok(resp) ==> {
            let choice = chat.choices@[0];
            let a: int = if choice.message.content matches Some(c) && c@.len() > 0 {
                1
            } else {
                0
            };
            let b: int = if choice.message.reasoning_content matches Some(t) && t@.len() > 0 {
                1
            } else {
                0
            };
            let calls = calls_of(choice.message.tool_calls);
            &&& id matches Some(given) ==> resp.id@ == given@
            &&& id is None ==> resp.id@ == chat.id@
            &&& resp.model@ == chat.model@
            &&& chat.created <= i64::MAX ==> resp.created_at == chat.created
            &&& resp.status == ResponseStatus::Failed <==> (choice.finish_reason matches Some(
                reason,
            ) && (reason@ == "failed"@ || reason@ == "error"@))
            &&& resp.status == ResponseStatus::Failed || resp.status == ResponseStatus::Completed
            &&& resp.output@.len() == a + b + calls.len()
            &&& a == 1 ==> tells_text(
                resp.output@[0],
                chat.id@,
                choice.message.content->0@,
                choice.logprobs,
            )
            &&& b == 1 ==> tells_thought(
                resp.output@[a],
                chat.id@,
                choice.message.reasoning_content->0@,
            )
            &&& forall|i: int|
                0 <= i < calls.len() ==> tells_call(
                    resp.output@[a + b + i],
                    #[trigger] calls_of(choice.message.tool_calls)[i],
                )
            &&& resp.text.deep_view() == req.text.deep_view()
            &&& counts_the_same(chat.usage, resp.usage)
            &&& repeats_settings(*req, resp)
        },
{
    if let Ok(resp) = r {
        let choice = chat.choices@[0];
        let out = resp.output.deep_view();
        let a: int = if choice.message.content matches Some(c) && c@.len() > 0 {
            1
        } else {
            0
        };
        let b: int = if choice.message.reasoning_content matches Some(t) && t@.len() > 0 {
            1
        } else {
            0
        };
        let first = match choice.message.content {
            Some(c) => conversions::message_items(chat.id@, c@, choice.logprobs.deep_view()),
            None => Seq::empty(),
        };
        let second = match choice.message.reasoning_content {
            Some(t) => conversions::reasoning_items(chat.id@, t@),
            None => Seq::empty(),
        };
        let third = match choice.message.tool_calls.deep_view() {
            Some(c) => c.map_values(
                |call: crate::protocols::common::ToolCallView| conversions::tool_call_item(call),
            ),
            None => Seq::empty(),
        };
        assert(out == first + second + third);
        assert(out.len() == resp.output@.len());
        assert(first.len() == a && second.len() == b);
        if a == 1 {
            assert(out[0] == first[0]);
            lemma_item_of(resp.output, 0);
            lemma_tells_text(
                resp.output@[0],
                chat.id@,
                choice.message.content->0@,
                choice.logprobs,
            );
        }
        if b == 1 {
            assert(out[a] == second[0]);
            lemma_item_of(resp.output, a);
            lemma_tells_thought(
                resp.output@[a],
                chat.id@,
                choice.message.reasoning_content->0@,
            );
        }
        if let Some(calls) = choice.message.tool_calls {
            assert forall|i: int| 0 <= i < calls@.len() implies tells_call(
                resp.output@[a + b + i],
                #[trigger] calls_of(choice.message.tool_calls)[i],
            ) by {
                lemma_item_of(resp.output, a + b + i);
                assert(out[a + b + i] == third[i]);
                assert(calls.deep_view()[i] == calls@[i].deep_view());
                assert(out[a + b + i] == conversions::tool_call_item(calls@[i].deep_view()));
            }
        }
    }
}

proof fn lemma_item_of(items: Vec<ResponseOutputItem>, i: int)
    ensures
        0 <= i < items@.len() ==> items.deep_view()[i] == items@[i].deep_view(),
{
}

pub(crate) proof fn lemma_tells_text(
    item: ResponseOutputItem,
    id: Seq<char>,
    said: Seq<char>,
    logprobs: Option<ChatLogProbs>,
)
    requires
        said.len() > 0,
        item.deep_view() == conversions::message_items(id, said, logprobs.deep_view())[0],
    ensures
        tells_text(item, id, said, logprobs),
{
    if let ResponseOutputItem::Message { content, .. } = item {
        assert(item.deep_view()->Message_content == content.deep_view());
        assert(content.deep_view().len() == 1);
        assert(content.deep_view()[0] == content@[0].deep_view());
        if let ResponseContentPart::OutputText { annotations, .. } = content@[0] {
            assert(annotations.deep_view().len() == 0);
        }
    }
}

pub(crate) proof fn lemma_tells_thought(item: ResponseOutputItem, id: Seq<char>, said: Seq<char>)
    requires
        said.len() > 0,
        item.deep_view() == conversions::reasoning_items(id, said)[0],
    ensures
        tells_thought(item, id, said),
{
    if let ResponseOutputItem::Reasoning { content, summary, .. } = item {
        assert(item.deep_view()->Reasoning_content == content.deep_view());
        assert(content.deep_view().len() == 1);
        assert(content.deep_view()[0] == content@[0].deep_view());
        assert(summary.deep_view().len() == 0);
    }
}

/// A response that was gathered tells what was gathered: the text and the thoughts, unless
/// they are empty, and the calls as they were gathered, under the identifier, the model and
/// the time that were gathered, with the settings of its request.
pub proof fn law_gathered_response_tells_all(
    kept: StreamingResponseAccumulator,
    r: ResponsesResponse,
)
    requires
        call_ensures(StreamingResponseAccumulator::finalize, (kept,), r),
    ensures
        ({
            let a: int = if kept.content_buffer@.len() > 0 {
                1
            } else {
                0
            };
            let b: int = if kept.reasoning_buffer@.len() > 0 {
                1
            } else {
                0
            };
            &&& r.id@ == kept.response_id@
            &&& r.model@ == kept.model@
            &&& r.created_at == kept.created_at
            &&& r.status == ResponseStatus::Failed <==> (kept.finish_reason matches Some(reason)
                && (reason@ == "failed"@ || reason@ == "error"@))
            &&& r.status == ResponseStatus::Failed || r.status == ResponseStatus::Completed
            &&& r.output@.len() == a + b + kept.tool_calls@.len()
            &&& a == 1 ==> tells_text(
                r.output@[0],
                kept.response_id@,
                kept.content_buffer@,
                None,
            )
            &&& b == 1 ==> tells_thought(r.output@[a], kept.response_id@, kept.reasoning_buffer@)
            &&& forall|i: int|
                0 <= i < kept.tool_calls@.len() ==> (#[trigger] kept.tool_calls@[i]).deep_view()
                    == r.output@[a + b + i].deep_view()
            &&& r.text is None
            &&& counts_the_same(kept.usage, r.usage)
            &&& repeats_settings(kept.original_request, r)
        }),
{
    let a: int = if kept.content_buffer@.len() > 0 {
        1
    } else {
        0
    };
    let b: int = if kept.reasoning_buffer@.len() > 0 {
        1
    } else {
        0
    };
    let out = r.output.deep_view();
    let first = conversions::message_items(kept.response_id@, kept.content_buffer@, None);
    let second = conversions::reasoning_items(kept.response_id@, kept.reasoning_buffer@);
    assert(out == first + second + kept.tool_calls.deep_view());
    assert(out.len() == r.output@.len());
    assert(first.len() == a && second.len() == b);
    if a == 1 {
        assert(out[0] == first[0]);
        lemma_item_of(r.output, 0);
        lemma_tells_text(r.output@[0], kept.response_id@, kept.content_buffer@, None);
    }
    if b == 1 {
        assert(out[a] == second[0]);
        lemma_item_of(r.output, a);
        lemma_tells_thought(r.output@[a], kept.response_id@, kept.reasoning_buffer@);
    }
    assert forall|i: int| 0 <= i < kept.tool_calls@.len() implies (
    #[trigger] kept.tool_calls@[i]).deep_view() == r.output@[a + b + i].deep_view() by {
        lemma_item_of(r.output, a + b + i);
        assert(out[a + b + i] == kept.tool_calls.deep_view()[i]);
        lemma_item_of(kept.tool_calls, i);
    }
}

} // verus!
