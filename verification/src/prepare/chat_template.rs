//! Chat-template rendering helpers: turn messages, as JSON, into the shape that chat
//! templates consume.

use vstd::prelude::*;
use vstd::string::StringExecFns;

use super::encoded_chat;
use super::encoded_chat::EncodedChat;
use crate::duplicate::Duplicate;
use crate::json;
use crate::json::put;
use crate::json::Json;
use crate::json::JsonView;
use crate::protocols::chat::ChatCompletionRequest;
use crate::protocols::common::StringOrArray;
use crate::text;
use crate::tokenizer::ChatTemplateContentFormat;
use crate::tokenizer::ChatTemplateParams;
use crate::tokenizer::ChatTemplateParamsView;
use crate::tokenizer::Tokenizer;

verus! {

/// A rendered prompt, with the stop sequences of the request.
#[derive(Debug)]
pub struct ProcessedMessages {
    pub text: String,
    pub stop_sequences: Option<StringOrArray>,
}

/// The text of a text part.
pub open spec fn part_text(part: JsonView) -> Option<Seq<char>> {
    if json::string_field(part, "type"@) == Some("text"@) {
        json::string_field(part, "text"@)
    } else {
        None
    }
}

/// The texts of the text parts, in their order.
pub open spec fn part_texts(parts: Seq<JsonView>) -> Seq<Seq<char>>
    decreases parts.len(),
{
    if parts.len() == 0 {
        Seq::empty()
    } else {
        match part_text(parts.last()) {
            Some(t) => part_texts(parts.drop_last()).push(t),
            None => part_texts(parts.drop_last()),
        }
    }
}

/// A part that only says its kind.
pub open spec fn placeholder(kind: Seq<char>) -> JsonView {
    JsonView::Object(Map::empty().insert("type"@, JsonView::Str(kind)))
}

/// The part with a simple placeholder for media.
pub open spec fn without_media(part: JsonView) -> JsonView {
    let kind = json::string_field(part, "type"@);
    if kind == Some("image_url"@) {
        placeholder("image"@)
    } else if kind == Some("video_url"@) {
        placeholder("video"@)
    } else if kind == Some("audio_url"@) {
        placeholder("audio"@)
    } else {
        part
    }
}

/// The content of a message in the format that the template wants. Content that is not a
/// list of parts stays as it is, and so does a list without text where text is wanted.
pub open spec fn formatted_content(
    content: JsonView,
    format: ChatTemplateContentFormat,
) -> JsonView {
    match (content, format) {
        (JsonView::Array(parts), ChatTemplateContentFormat::String) => if part_texts(parts).len()
            == 0 {
            content
        } else {
            JsonView::Str(text::joined(part_texts(parts), " "@))
        },
        (JsonView::Array(parts), ChatTemplateContentFormat::OpenAI) => JsonView::Array(
            parts.map_values(|part: JsonView| without_media(part)),
        ),
        _ => content,
    }
}

/// The message with its content in the format that the template wants.
pub open spec fn formatted(message: JsonView, format: ChatTemplateContentFormat) -> JsonView {
    match json::field(message, "content"@) {
        Some(content) => json::with(message, "content"@, formatted_content(content, format)),
        None => message,
    }
}

fn collect_texts(parts: &Vec<Json>) -> (r: Vec<String>)
    ensures
        r.deep_view() == part_texts(json::array_view(parts@)),
{
    let ghost all = json::array_view(parts@);
    let mut texts: Vec<String> = Vec::new();
    assert(texts.deep_view() =~= part_texts(all.take(0)));
    for i in 0..parts.len()
        invariant
            all == json::array_view(parts@),
            texts.deep_view() =~= part_texts(all.take(i as int)),
    {
        let ghost before = texts.deep_view();
        proof {
            assert(all.take(i + 1).drop_last() =~= all.take(i as int));
            assert(all.take(i + 1).last() == all[i as int]);
            assert(all[i as int] == parts@[i as int]@);
        }
        if let Some(kind) = parts[i].get_str("type") {
            if text::same(kind.as_str(), "text") {
                if let Some(t) = parts[i].get_str("text") {
                    texts.push(t.clone());
                    assert(texts.deep_view() =~= before.push(t@));
                }
            }
        }
    }
    assert(all.take(all.len() as int) =~= all);
    texts
}

fn make_placeholder(kind: &str) -> (r: Json)
    ensures
        r@ == placeholder(kind@),
{
    let mut fields: Vec<(String, Json)> = Vec::new();
    put(&mut fields, "type", Json::string(kind));
    Json::Object(fields)
}

fn replace_media(part: &Json) -> (r: Json)
    ensures
        r@ == without_media(part@),
{
    if let Some(kind) = part.get_str("type") {
        if text::same(kind.as_str(), "image_url") {
            return make_placeholder("image");
        }
        if text::same(kind.as_str(), "video_url") {
            return make_placeholder("video");
        }
        if text::same(kind.as_str(), "audio_url") {
            return make_placeholder("audio");
        }
    }
    part.copy()
}

fn replace_all_media(parts: &Vec<Json>) -> (r: Vec<Json>)
    ensures
        json::array_view(r@) == json::array_view(parts@).map_values(
            |part: JsonView| without_media(part),
        ),
{
    let ghost f = |part: JsonView| without_media(part);
    let ghost all = json::array_view(parts@);
    let mut out: Vec<Json> = Vec::new();
    for i in 0..parts.len()
        invariant
            all == json::array_view(parts@),
            out@.len() == i,
            forall|j: int| 0 <= j < i ==> (#[trigger] out@[j])@ == without_media(all[j]),
    {
        out.push(replace_media(&parts[i]));
    }
    assert(json::array_view(out@) =~= all.map_values(f));
    out
}

/// Puts the content of a message into the format that the template wants.
pub fn transform_content_field(
    content_value: &mut Json,
    content_format: ChatTemplateContentFormat,
)
    ensures
        final(content_value)@ == formatted_content(old(content_value)@, content_format),
{
    let replaced = match &*content_value {
        Json::Array(parts) => match content_format {
            ChatTemplateContentFormat::String => {
                let texts = collect_texts(parts);
                if texts.len() == 0 {
                    return ;
                }
                Json::Str(text::join(&texts, " "))
            },
            ChatTemplateContentFormat::OpenAI => Json::Array(replace_all_media(parts)),
        },
        _ => {
            return ;
        },
    };
    *content_value = replaced;
}

/// Puts the contents of messages into the format that the template wants.
pub fn process_content_format(
    messages: &Vec<Json>,
    content_format: ChatTemplateContentFormat,
) -> (r: Vec<Json>)
    ensures
        json::array_view(r@) == json::array_view(messages@).map_values(
            |m: JsonView| formatted(m, content_format),
        ),
{
    let ghost f = |m: JsonView| formatted(m, content_format);
    let ghost all = json::array_view(messages@);
    let mut out: Vec<Json> = Vec::new();
    for i in 0..messages.len()
        invariant
            all == json::array_view(messages@),
            out@.len() == i,
            forall|j: int| 0 <= j < i ==> (#[trigger] out@[j])@ == formatted(all[j], content_format),
    {
        let mut message = messages[i].copy();
        let content = match message.get("content") {
            Some(content) => Some(content.copy()),
            None => None,
        };
        if let Some(mut content) = content {
            transform_content_field(&mut content, content_format);
            message.set("content", content);
        }
        out.push(message);
    }
    assert(json::array_view(out@) =~= all.map_values(f));
    out
}

/// The message of arguments that are no JSON.
pub open spec fn bad_arguments(arguments: Seq<char>, error: Seq<char>) -> Seq<char> {
    "Failed to parse tool call arguments as JSON: '"@ + arguments + "'. Error: "@ + error
}

/// The call with its arguments replaced by what was read in them. Calls whose arguments
/// are no text stay as they are.
pub open spec fn call_with_arguments(
    call: JsonView,
    read: Result<JsonView, Seq<char>>,
) -> Result<JsonView, Seq<char>> {
    match json::field(call, "function"@) {
        Some(function) => match json::string_field(function, "arguments"@) {
            Some(arguments) => match read {
                Ok(v) => Ok(
                    json::with(call, "function"@, json::with(function, "arguments"@, v)),
                ),
                Err(e) => Err(bad_arguments(arguments, e)),
            },
            None => Ok(call),
        },
        None => Ok(call),
    }
}

/// The text of the arguments of a call.
pub open spec fn call_arguments(call: JsonView) -> Seq<char> {
    match json::field(call, "function"@) {
        Some(function) => match json::string_field(function, "arguments"@) {
            Some(arguments) => arguments,
            None => Seq::empty(),
        },
        None => Seq::empty(),
    }
}

/// The call with its arguments read.
pub open spec fn read_call(call: JsonView) -> Result<JsonView, Seq<char>> {
    call_with_arguments(call, json::parsed(call_arguments(call)))
}

/// The calls with their arguments read, or the first that has no JSON for arguments.
pub open spec fn read_calls(calls: Seq<JsonView>) -> Result<Seq<JsonView>, Seq<char>>
    decreases calls.len(),
{
    if calls.len() == 0 {
        Ok(Seq::empty())
    } else {
        match (read_calls(calls.drop_last()), read_call(calls.last())) {
            (Ok(before), Ok(call)) => Ok(before.push(call)),
            (Ok(before), Err(e)) => Err(e),
            (Err(e), _) => Err(e),
        }
    }
}

/// An assistant's message with the arguments of its tool calls read; any other as it is.
pub open spec fn read_message(message: JsonView) -> Result<JsonView, Seq<char>> {
    if json::string_field(message, "role"@) == Some("assistant"@) {
        match json::field(message, "tool_calls"@) {
            Some(JsonView::Array(calls)) => match read_calls(calls) {
                Ok(c) => Ok(json::with(message, "tool_calls"@, JsonView::Array(c))),
                Err(e) => Err(e),
            },
            _ => Ok(message),
        }
    } else {
        Ok(message)
    }
}

/// All messages with the arguments of their tool calls read, or the first failure.
pub open spec fn read_messages(messages: Seq<JsonView>) -> Result<Seq<JsonView>, Seq<char>>
    decreases messages.len(),
{
    if messages.len() == 0 {
        Ok(Seq::empty())
    } else {
        match (read_messages(messages.drop_last()), read_message(messages.last())) {
            (Ok(before), Ok(message)) => Ok(before.push(message)),
            (Ok(before), Err(e)) => Err(e),
            (Err(e), _) => Err(e),
        }
    }
}

proof fn lemma_read_calls_failed(calls: Seq<JsonView>, n: int)
    requires
        0 <= n <= calls.len(),
        read_calls(calls.take(n)) is Err,
    ensures
        read_calls(calls) == read_calls(calls.take(n)),
    decreases calls.len() - n,
{
    if n < calls.len() {
        assert(calls.take(n + 1).drop_last() =~= calls.take(n));
        lemma_read_calls_failed(calls, n + 1);
    } else {
        assert(calls.take(n) =~= calls);
    }
}

proof fn lemma_read_messages_failed(messages: Seq<JsonView>, n: int)
    requires
        0 <= n <= messages.len(),
        read_messages(messages.take(n)) is Err,
    ensures
        read_messages(messages) == read_messages(messages.take(n)),
    decreases messages.len() - n,
{
    if n < messages.len() {
        assert(messages.take(n + 1).drop_last() =~= messages.take(n));
        lemma_read_messages_failed(messages, n + 1);
    } else {
        assert(messages.take(n) =~= messages);
    }
}

/// The call with its arguments replaced by what was read in them.
pub fn replace_arguments(call: &Json, read: Result<Json, String>) -> (r: Result<Json, String>)
    ensures
        ({
            let view = match read {
                Ok(v) => Ok(v@),
                Err(e) => Err(e@),
            };
            match r {
                Ok(v) => call_with_arguments(call@, view) == Ok::<JsonView, Seq<char>>(v@),
                Err(e) => call_with_arguments(call@, view) == Err::<JsonView, Seq<char>>(e@),
            }
        }),
{
    let function = match call.get("function") {
        Some(function) => function,
        None => return Ok(call.copy()),
    };
    let arguments = match function.get_str("arguments") {
        Some(arguments) => arguments,
        None => return Ok(call.copy()),
    };
    match read {
        Ok(v) => {
            let mut new_function = function.copy();
            new_function.set("arguments", v);
            let mut new_call = call.copy();
            new_call.set("function", new_function);
            Ok(new_call)
        },
        Err(e) => {
            let mut message = text::join3(
                "Failed to parse tool call arguments as JSON: '",
                arguments.as_str(),
                "'. Error: ",
            );
            message.append(e.as_str());
            Err(message)
        },
    }
}

fn read_one_call(call: &Json) -> (r: Result<Json, String>)
    ensures
        match r {
            Ok(v) => read_call(call@) == Ok::<JsonView, Seq<char>>(v@),
            Err(e) => read_call(call@) == Err::<JsonView, Seq<char>>(e@),
        },
{
    if let Some(function) = call.get("function") {
        if let Some(arguments) = function.get_str("arguments") {
            return replace_arguments(call, Json::parse(arguments.as_str()));
        }
    }
    Ok(call.copy())
}

fn read_all_calls(calls: &Vec<Json>) -> (r: Result<Vec<Json>, String>)
    ensures
        match r {
            Ok(v) => read_calls(json::array_view(calls@)) == Ok::<Seq<JsonView>, Seq<char>>(
                json::array_view(v@),
            ),
            Err(e) => read_calls(json::array_view(calls@)) == Err::<Seq<JsonView>, Seq<char>>(e@),
        },
{
    let ghost all = json::array_view(calls@);
    let mut out: Vec<Json> = Vec::new();
    assert(all.take(0) =~= Seq::empty());
    assert(json::array_view(out@) =~= Seq::empty());
    for i in 0..calls.len()
        invariant
            all == json::array_view(calls@),
            read_calls(all.take(i as int)) == Ok::<Seq<JsonView>, Seq<char>>(
                json::array_view(out@),
            ),
    {
        let ghost before = out@;
        proof {
            assert(all.take(i + 1).drop_last() =~= all.take(i as int));
            assert(all.take(i + 1).last() == all[i as int]);
            assert(all[i as int] == calls@[i as int]@);
        }
        match read_one_call(&calls[i]) {
            Ok(call) => {
                out.push(call);
                proof {
                    json::lemma_array_push(before, call);
                }
            },
            Err(e) => {
                proof {
                    lemma_read_calls_failed(all, i + 1);
                }
                return Err(e);
            },
        }
    }
    assert(all.take(all.len() as int) =~= all);
    Ok(out)
}

fn read_one_message(message: &Json) -> (r: Result<Json, String>)
    ensures
        match r {
            Ok(v) => read_message(message@) == Ok::<JsonView, Seq<char>>(v@),
            Err(e) => read_message(message@) == Err::<JsonView, Seq<char>>(e@),
        },
{
    if let Some(role) = message.get_str("role") {
        if text::same(role.as_str(), "assistant") {
            if let Some(Json::Array(calls)) = message.get("tool_calls") {
                return match read_all_calls(calls) {
                    Ok(new_calls) => {
                        let mut new_message = message.copy();
                        new_message.set("tool_calls", Json::Array(new_calls));
                        Ok(new_message)
                    },
                    Err(e) => Err(e),
                };
            }
        }
    }
    Ok(message.copy())
}

/// Chat templates expect the arguments of an assistant's tool calls as JSON objects, not
/// as JSON text.
pub fn process_tool_call_arguments(messages: &Vec<Json>) -> (r: Result<Vec<Json>, String>)
    ensures
        match r {
            Ok(v) => read_messages(json::array_view(messages@)) == Ok::<Seq<JsonView>, Seq<char>>(
                json::array_view(v@),
            ),
            Err(e) => read_messages(json::array_view(messages@)) == Err::<
                Seq<JsonView>,
                Seq<char>,
            >(e@),
        },
{
    let ghost all = json::array_view(messages@);
    let mut out: Vec<Json> = Vec::new();
    assert(all.take(0) =~= Seq::empty());
    assert(json::array_view(out@) =~= Seq::empty());
    for i in 0..messages.len()
        invariant
            all == json::array_view(messages@),
            read_messages(all.take(i as int)) == Ok::<Seq<JsonView>, Seq<char>>(
                json::array_view(out@),
            ),
    {
        let ghost before = out@;
        proof {
            assert(all.take(i + 1).drop_last() =~= all.take(i as int));
            assert(all.take(i + 1).last() == all[i as int]);
            assert(all[i as int] == messages@[i as int]@);
        }
        match read_one_message(&messages[i]) {
            Ok(message) => {
                out.push(message);
                proof {
                    json::lemma_array_push(before, message);
                }
            },
            Err(e) => {
                proof {
                    lemma_read_messages_failed(all, i + 1);
                }
                return Err(e);
            },
        }
    }
    assert(all.take(all.len() as int) =~= all);
    Ok(out)
}

/// The variables of the template: the reasoning effort, and those of the request, which
/// may override it.
pub open spec fn template_variables(request: ChatCompletionRequest) -> Map<Seq<char>, JsonView> {
    let effort = match request.reasoning_effort {
        Some(effort) => Map::empty().insert("reasoning_effort"@, JsonView::Str(effort@)),
        None => Map::empty(),
    };
    match request.chat_template_kwargs {
        Some(fields) => effort.union_prefer_right(json::fields_view(fields@)),
        None => effort,
    }
}

/// Whether the final message is continued rather than answered.
pub open spec fn continues(request: ChatCompletionRequest, messages: Seq<JsonView>) -> bool {
    &&& request.continue_final_message
    &&& messages.len() > 0
    &&& json::string_field(messages.last(), "role"@) == Some("assistant"@)
}

/// The prompt: the rendering of the messages. The text of a final message that is
/// continued is not rendered but put behind.
pub open spec fn chat_prompt<T: Tokenizer>(
    request: ChatCompletionRequest,
    messages: Seq<JsonView>,
    tools: Option<Seq<JsonView>>,
    tokenizer: T,
) -> Result<Seq<char>, Seq<char>> {
    match tokenizer.content_format() {
        None => Err("gRPC router requires HuggingFace tokenizer with chat template support"@),
        Some(format) => match read_messages(
            messages.map_values(|m: JsonView| formatted(m, format)),
        ) {
            Err(e) => Err(e),
            Ok(ready) => {
                let variables = template_variables(request);
                let params = ChatTemplateParamsView {
                    add_generation_prompt: true,
                    tools,
                    template_kwargs: if variables =~= Map::empty() {
                        None
                    } else {
                        Some(variables)
                    },
                };
                let shown = if continues(request, ready) {
                    ready.drop_last()
                } else {
                    ready
                };
                match tokenizer.rendering(shown, params) {
                    Err(e) => Err("Failed to apply chat template: "@ + e),
                    Ok(rendered) => Ok(
                        if continues(request, ready) && json::string_field(
                            ready.last(),
                            "content"@,
                        ) is Some {
                            rendered + json::string_field(ready.last(), "content"@)->0
                        } else {
                            rendered
                        },
                    ),
                }
            },
        },
    }
}

fn template_kwargs(request: &ChatCompletionRequest) -> (r: Option<Vec<(String, Json)>>)
    ensures
        match r {
            Some(fields) => {
                &&& template_variables(*request) == json::fields_view(fields@)
                &&& !(template_variables(*request) =~= Map::empty())
            },
            None => template_variables(*request) =~= Map::empty(),
        },
{
    let mut combined: Vec<(String, Json)> = Vec::new();
    if let Some(effort) = &request.reasoning_effort {
        put(&mut combined, "reasoning_effort", Json::string(effort.as_str()));
    }
    let ghost head = combined@;
    if let Some(kwargs) = &request.chat_template_kwargs {
        assert(kwargs@.take(0) =~= Seq::empty());
        proof {
            json::lemma_fields_concat(head, kwargs@.take(0));
            assert(head + kwargs@.take(0) =~= head);
        }
        for i in 0..kwargs.len()
            invariant
                json::fields_view(combined@) == json::fields_view(head + kwargs@.take(i as int)),
        {
            proof {
                let f = kwargs@[i as int];
                json::lemma_fields_push(head + kwargs@.take(i as int), f);
                assert((head + kwargs@.take(i as int)).push(f) =~= head + kwargs@.take(i + 1));
            }
            put(&mut combined, kwargs[i].0.as_str(), kwargs[i].1.copy());
        }
        proof {
            assert(kwargs@.take(kwargs@.len() as int) =~= kwargs@);
            json::lemma_fields_concat(head, kwargs@);
        }
    }
    proof {
        json::lemma_no_fields(combined@);
    }
    if combined.len() == 0 {
        None
    } else {
        Some(combined)
    }
}

/// Renders the messages of a request, in their JSON forms, with the chat template. A
/// tokenizer without a chat template is an error.
pub fn process_chat_messages<T: Tokenizer>(chat: &EncodedChat, tokenizer: &T) -> (r: Result<
    ProcessedMessages,
    String,
>)
    ensures
        ({
            let prompt = chat_prompt(
                chat@.request,
                chat@.messages,
                encoded_chat::opt_forms(chat@.tools),
                *tokenizer,
            );
            match r {
                Ok(p) => {
                    &&& prompt == Ok::<Seq<char>, Seq<char>>(p.text@)
                    &&& p.stop_sequences.deep_view() == chat@.request.stop.deep_view()
                },
                Err(e) => prompt == Err::<Seq<char>, Seq<char>>(e@),
            }
        }),
{
    let request = chat.request();
    let format = match tokenizer.chat_template_content_format() {
        Some(format) => format,
        None => return Err(
            "gRPC router requires HuggingFace tokenizer with chat template support".to_owned(),
        ),
    };
    let formatted_messages = process_content_format(chat.messages(), format);
    let mut ready = match process_tool_call_arguments(&formatted_messages) {
        Ok(ready) => ready,
        Err(e) => return Err(e),
    };
    let ghost all = json::array_view(ready@);
    let params = ChatTemplateParams {
        add_generation_prompt: true,
        tools: chat.tool_forms(),
        template_kwargs: template_kwargs(request),
    };
    let mut prefix: Option<String> = None;
    if request.continue_final_message && ready.len() > 0 {
        let last = &ready[ready.len() - 1];
        assert(last@ == all.last());
        let is_assistant = match last.get_str("role") {
            Some(role) => text::same(role.as_str(), "assistant"),
            None => false,
        };
        if is_assistant {
            prefix = match last.get_str("content") {
                Some(content) => Some(content.clone()),
                None => None,
            };
            let _ = ready.pop();
            assert(json::array_view(ready@) =~= all.drop_last());
        }
    }
    let rendered = match tokenizer.apply_chat_template(&ready, &params) {
        Ok(rendered) => rendered,
        Err(e) => return Err(text::join2("Failed to apply chat template: ", e.as_str())),
    };
    let formatted_text = match prefix {
        Some(p) => text::join2(rendered.as_str(), p.as_str()),
        None => rendered,
    };
    Ok(
        ProcessedMessages {
            text: formatted_text,
            stop_sequences: request.stop.duplicate(),
        },
    )
}

/// Whether a part that a template is given stands for this part of the request: media by
/// their kind alone, everything else as it is.
pub open spec fn stands_for(part: JsonView, shown: JsonView) -> bool {
    let kind = json::field(part, "type"@);
    if kind == Some(JsonView::Str("image_url"@)) {
        says_only_kind(shown, "image"@)
    } else if kind == Some(JsonView::Str("video_url"@)) {
        says_only_kind(shown, "video"@)
    } else if kind == Some(JsonView::Str("audio_url"@)) {
        says_only_kind(shown, "audio"@)
    } else {
        shown == part
    }
}

/// Whether this is an object of one field, which says this kind.
pub open spec fn says_only_kind(shown: JsonView, kind: Seq<char>) -> bool {
    &&& json::field(shown, "type"@) == Some(JsonView::Str(kind))
    &&& forall|name: Seq<char>| name != "type"@ ==> #[trigger] json::field(shown, name) is None
}

/// Whether a template that wants parts is given those of the request: as many, in their order.
/// Content that is not a list of parts stays as it is.
pub open spec fn has_parts_of(content: Option<JsonView>, shown: Option<JsonView>) -> bool {
    match content {
        Some(JsonView::Array(parts)) => {
            &&& shown is Some
            &&& shown->0 is Array
            &&& shown->0->Array_0.len() == parts.len()
            &&& forall|i: int|
                0 <= i < parts.len() ==> stands_for(#[trigger] parts[i], shown->0->Array_0[i])
        },
        _ => shown == content,
    }
}

/// Whether a template that wants text is given the text parts of the request, with a space
/// between them. Content without any stays as it is.
pub open spec fn has_texts_of(content: Option<JsonView>, shown: Option<JsonView>) -> bool {
    match content {
        Some(JsonView::Array(parts)) => if exists|i: int|
            0 <= i < parts.len() && is_text_part(#[trigger] parts[i]) {
            shown matches Some(JsonView::Str(said)) && spells(parts, said)
        } else {
            shown == content
        },
        _ => shown == content,
    }
}

pub open spec fn is_text_part(part: JsonView) -> bool {
    &&& json::field(part, "type"@) == Some(JsonView::Str("text"@))
    &&& json::field(part, "text"@) matches Some(JsonView::Str(_))
}

/// Whether this is the text of the text parts, with a space between them.
pub open spec fn spells(parts: Seq<JsonView>, said: Seq<char>) -> bool
    decreases parts.len(),
{
    if parts.len() == 0 {
        said.len() == 0
    } else if !is_text_part(parts.last()) {
        spells(parts.drop_last(), said)
    } else {
        let last = json::field(parts.last(), "text"@)->0->Str_0;
        if exists|i: int| 0 <= i < parts.len() - 1 && is_text_part(#[trigger] parts[i]) {
            let n = said.len() - last.len() - 1;
            &&& n >= 0
            &&& spells(parts.drop_last(), said.take(n))
            &&& said[n] == ' '
            &&& said.skip(n + 1) == last
        } else {
            said == last
        }
    }
}

/// Whether a call that a template is given stands for this call of the request: arguments that
/// are text are given as the JSON that the text is, everything else as it is.
pub open spec fn has_arguments_of(call: JsonView, shown: JsonView) -> bool {
    match json::field(call, "function"@) {
        Some(function) => match json::field(function, "arguments"@) {
            Some(JsonView::Str(arguments)) => {
                &&& json::parsed(arguments) is Ok
                &&& json::field(shown, "function"@) is Some
                &&& json::field(json::field(shown, "function"@)->0, "arguments"@) == Some(
                    json::parsed(arguments)->Ok_0,
                )
                &&& forall|name: Seq<char>|
                    name != "arguments"@ ==> #[trigger] json::field(
                        json::field(shown, "function"@)->0,
                        name,
                    ) == json::field(function, name)
                &&& forall|name: Seq<char>|
                    name != "function"@ ==> #[trigger] json::field(shown, name) == json::field(
                        call,
                        name,
                    )
            },
            _ => shown == call,
        },
        None => shown == call,
    }
}

/// Whether a message that a template is given stands for this message of the request. Nothing
/// but its content and, where an assistant said it, the arguments of its tool calls differs.
pub open spec fn stands_for_message(
    message: JsonView,
    shown: JsonView,
    format: ChatTemplateContentFormat,
) -> bool {
    let content = json::field(message, "content"@);
    let calls = json::field(message, "tool_calls"@);
    &&& forall|name: Seq<char>|
        name != "content"@ && name != "tool_calls"@ ==> #[trigger] json::field(shown, name)
            == json::field(message, name)
    &&& match format {
        ChatTemplateContentFormat::OpenAI => has_parts_of(content, json::field(shown, "content"@)),
        ChatTemplateContentFormat::String => has_texts_of(content, json::field(shown, "content"@)),
    }
    &&& if json::field(message, "role"@) == Some(JsonView::Str("assistant"@)) && calls is Some
        && calls->0 is Array {
        &&& json::field(shown, "tool_calls"@) is Some
        &&& json::field(shown, "tool_calls"@)->0 is Array
        &&& json::field(shown, "tool_calls"@)->0->Array_0.len() == calls->0->Array_0.len()
        &&& forall|i: int|
            0 <= i < calls->0->Array_0.len() ==> has_arguments_of(
                #[trigger] calls->0->Array_0[i],
                json::field(shown, "tool_calls"@)->0->Array_0[i],
            )
    } else {
        json::field(shown, "tool_calls"@) == calls
    }
}

proof fn lemma_message_names()
    ensures
        "content"@ != "tool_calls"@,
        "content"@ != "role"@,
        "tool_calls"@ != "role"@,
        "function"@ != "arguments"@,
        "type"@ != "text"@,
{
    reveal_strlit("content");
    reveal_strlit("tool_calls");
    reveal_strlit("role");
    reveal_strlit("function");
    reveal_strlit("arguments");
    reveal_strlit("type");
    reveal_strlit("text");
    assert("content"@.len() != "tool_calls"@.len());
    assert("content"@.len() != "role"@.len());
    assert("tool_calls"@.len() != "role"@.len());
    assert("function"@.len() != "arguments"@.len());
    assert("type"@[1] != "text"@[1]);
}

proof fn lemma_with(v: JsonView, name: Seq<char>, value: JsonView)
    requires
        v is Object,
    ensures
        json::field(json::with(v, name, value), name) == Some(value),
        forall|other: Seq<char>|
            other != name ==> #[trigger] json::field(json::with(v, name, value), other)
                == json::field(v, other),
{
}

proof fn lemma_spells(parts: Seq<JsonView>)
    ensures
        part_texts(parts).len() > 0 <==> exists|i: int|
            0 <= i < parts.len() && is_text_part(#[trigger] parts[i]),
        part_texts(parts).len() > 0 ==> spells(parts, text::joined(part_texts(parts), " "@)),
        part_texts(parts).len() == 0 ==> spells(parts, Seq::empty()),
    decreases parts.len(),
{
    if parts.len() > 0 {
        let init = parts.drop_last();
        let last = parts.last();
        lemma_spells(init);
        assert(parts[parts.len() - 1] == last);
        assert(part_text(last) is Some == is_text_part(last));
        if exists|i: int| 0 <= i < init.len() && is_text_part(#[trigger] init[i]) {
            let i = choose|i: int| 0 <= i < init.len() && is_text_part(#[trigger] init[i]);
            assert(is_text_part(parts[i]));
        }
        if exists|i: int| 0 <= i < parts.len() - 1 && is_text_part(#[trigger] parts[i]) {
            let i = choose|i: int| 0 <= i < parts.len() - 1 && is_text_part(#[trigger] parts[i]);
            assert(is_text_part(init[i]));
        }
        if is_text_part(last) {
            let texts = part_texts(init);
            let t = part_text(last)->0;
            reveal_strlit(" ");
            assert(" "@ =~= seq![' ']);
            text::lemma_joined_push(texts, " "@, t);
            assert(part_texts(parts) == texts.push(t));
            assert(json::field(last, "text"@)->0->Str_0 == t);
            if texts.len() > 0 {
                let before = text::joined(texts, " "@);
                assert(spells(init, before));
                let said = text::joined(part_texts(parts), " "@);
                assert(said == before + seq![' '] + t);
                let n = said.len() - t.len() - 1;
                assert(said.take(n) =~= before);
                assert(said.skip(n + 1) =~= t);
            } else {
                assert(text::joined(part_texts(parts), " "@) == t);
            }
        }
    }
}

proof fn lemma_formatted(message: JsonView, format: ChatTemplateContentFormat)
    ensures
        ({
            let shown = formatted(message, format);
            &&& forall|name: Seq<char>|
                name != "content"@ ==> #[trigger] json::field(shown, name) == json::field(
                    message,
                    name,
                )
            &&& match format {
                ChatTemplateContentFormat::OpenAI => has_parts_of(
                    json::field(message, "content"@),
                    json::field(shown, "content"@),
                ),
                ChatTemplateContentFormat::String => has_texts_of(
                    json::field(message, "content"@),
                    json::field(shown, "content"@),
                ),
            }
        }),
{
    let shown = formatted(message, format);
    if let Some(content) = json::field(message, "content"@) {
        lemma_with(message, "content"@, formatted_content(content, format));
        assert(json::field(shown, "content"@) == Some(formatted_content(content, format)));
        if let JsonView::Array(parts) = content {
            lemma_spells(parts);
            assert forall|i: int| 0 <= i < parts.len() implies stands_for(
                #[trigger] parts[i],
                without_media(parts[i]),
            ) by {}
        }
    }
}

proof fn lemma_read_calls_each(calls: Seq<JsonView>)
    requires
        read_calls(calls) is Ok,
    ensures
        read_calls(calls)->Ok_0.len() == calls.len(),
        forall|i: int|
            0 <= i < calls.len() ==> has_arguments_of(
                #[trigger] calls[i],
                read_calls(calls)->Ok_0[i],
            ),
    decreases calls.len(),
{
    lemma_message_names();
    if calls.len() > 0 {
        let init = calls.drop_last();
        lemma_read_calls_each(init);
        let call = calls.last();
        let read = read_calls(calls)->Ok_0;
        assert forall|i: int| 0 <= i < calls.len() implies has_arguments_of(
            #[trigger] calls[i],
            read[i],
        ) by {
            if i < init.len() {
                assert(calls[i] == init[i]);
            } else if let Some(function) = json::field(call, "function"@) {
                if let Some(JsonView::Str(arguments)) = json::field(function, "arguments"@) {
                    assert(json::string_field(function, "arguments"@) == Some(arguments));
                    let value = json::parsed(arguments)->Ok_0;
                    lemma_with(function, "arguments"@, value);
                    lemma_with(call, "function"@, json::with(function, "arguments"@, value));
                }
            }
        }
    }
}

proof fn lemma_read_message_stands(
    message: JsonView,
    format: ChatTemplateContentFormat,
    shown: JsonView,
)
    requires
        read_message(formatted(message, format)) == Ok::<JsonView, Seq<char>>(shown),
    ensures
        stands_for_message(message, shown, format),
{
    lemma_message_names();
    lemma_formatted(message, format);
    let ready = formatted(message, format);
    assert(json::field(ready, "role"@) == json::field(message, "role"@));
    assert(json::field(ready, "tool_calls"@) == json::field(message, "tool_calls"@));
    if json::string_field(ready, "role"@) == Some("assistant"@) {
        if let Some(JsonView::Array(calls)) = json::field(ready, "tool_calls"@) {
            lemma_read_calls_each(calls);
            lemma_with(ready, "tool_calls"@, JsonView::Array(read_calls(calls)->Ok_0));
            assert(json::field(shown, "content"@) == json::field(ready, "content"@));
        }
    }
}

proof fn lemma_read_messages_each(messages: Seq<JsonView>)
    requires
        read_messages(messages) is Ok,
    ensures
        read_messages(messages)->Ok_0.len() == messages.len(),
        forall|i: int|
            0 <= i < messages.len() ==> read_message(#[trigger] messages[i]) == Ok::<
                JsonView,
                Seq<char>,
            >(read_messages(messages)->Ok_0[i]),
    decreases messages.len(),
{
    if messages.len() > 0 {
        lemma_read_messages_each(messages.drop_last());
        assert forall|i: int| 0 <= i < messages.len() implies read_message(
            #[trigger] messages[i],
        ) == Ok::<JsonView, Seq<char>>(read_messages(messages)->Ok_0[i]) by {
            if i < messages.len() - 1 {
                assert(messages.drop_last()[i] == messages[i]);
            }
        }
    }
}

proof fn lemma_variables(request: ChatCompletionRequest)
    ensures
        ({
            let all = template_variables(request);
            has_variables_of(
                request,
                if all =~= Map::empty() {
                    None
                } else {
                    Some(all)
                },
            )
        }),
{
    let all = template_variables(request);
    let effort = "reasoning_effort"@;
    let own = own_variables(request);
    assert forall|name: Seq<char>| #[trigger] own.dom().contains(name) implies all.dom().contains(
        name,
    ) && all[name] == own[name] by {}
    if !own.dom().contains(effort) && request.reasoning_effort is Some {
        assert(all.dom().contains(effort));
    }
    if !(all =~= Map::empty()) {
        if forall|name: Seq<char>| !(#[trigger] all.dom().contains(name)) {
            assert(all =~= Map::empty());
        }
    }
}

/// Whether a text is the rendering of these messages: each of them once, in their order. The
/// final message of an assistant that is to be continued is not among them; its text follows
/// the rendering.
pub open spec fn renders_messages<T: Tokenizer>(
    request: ChatCompletionRequest,
    messages: Seq<JsonView>,
    tokenizer: T,
    given: (Seq<JsonView>, ChatTemplateParamsView),
    said: Seq<char>,
) -> bool {
    let format = tokenizer.content_format()->0;
    let rendered = tokenizer.rendering(given.0, given.1);
    let goes_on = request.continue_final_message && messages.len() > 0 && json::field(
        messages.last(),
        "role"@,
    ) == Some(JsonView::Str("assistant"@));
    &&& tokenizer.content_format() is Some
    &&& rendered is Ok
    &&& given.0.len() == messages.len() - (if goes_on {
        1int
    } else {
        0int
    })
    &&& forall|i: int|
        0 <= i < given.0.len() ==> stands_for_message(messages[i], #[trigger] given.0[i], format)
    &&& !goes_on ==> said == rendered->Ok_0
    &&& goes_on ==> exists|last: JsonView| #[trigger]
        stands_for_message(messages.last(), last, format) && said == rendered->Ok_0 + (
        match json::field(last, "content"@) {
            Some(JsonView::Str(rest)) => rest,
            _ => Seq::empty(),
        })
}

pub(crate) proof fn lemma_prompt_renders<T: Tokenizer>(
    request: ChatCompletionRequest,
    messages: Seq<JsonView>,
    tools: Option<Seq<JsonView>>,
    tokenizer: T,
) -> (given: (Seq<JsonView>, ChatTemplateParamsView))
    requires
        chat_prompt(request, messages, tools, tokenizer) is Ok,
    ensures
        renders_messages(
            request,
            messages,
            tokenizer,
            given,
            chat_prompt(request, messages, tools, tokenizer)->Ok_0,
        ),
        given.1.add_generation_prompt,
        given.1.tools == tools,
        has_variables_of(request, given.1.template_kwargs),
{
    let format = tokenizer.content_format()->0;
    let mapped = messages.map_values(|m: JsonView| formatted(m, format));
    let ready = read_messages(mapped)->Ok_0;
    lemma_read_messages_each(mapped);
    lemma_message_names();
    assert forall|i: int| 0 <= i < messages.len() implies stands_for_message(
        messages[i],
        #[trigger] ready[i],
        format,
    ) by {
        assert(mapped[i] == formatted(messages[i], format));
        lemma_read_message_stands(messages[i], format, ready[i]);
    }
    if messages.len() > 0 {
        let last = ready[messages.len() - 1];
        assert(stands_for_message(messages.last(), last, format));
        assert(json::field(last, "role"@) == json::field(messages.last(), "role"@));
    }
    let variables = template_variables(request);
    lemma_variables(request);
    let params = ChatTemplateParamsView {
        add_generation_prompt: true,
        tools,
        template_kwargs: if variables =~= Map::empty() {
            None
        } else {
            Some(variables)
        },
    };
    let shown = if continues(request, ready) {
        ready.drop_last()
    } else {
        ready
    };
    let rendered = tokenizer.rendering(shown, params)->Ok_0;
    assert(rendered + Seq::empty() =~= rendered);
    (shown, params)
}

/// The prompt is the rendering of the request's messages: each of them once, in their order,
/// with the parts, or the texts of the parts, that it has in the request, as the template
/// wants them, and with the arguments of its tool calls read. The final message of an
/// assistant that is to be continued is not rendered; its text follows the rendering.
///
/// The template is asked to begin an answer, with the tools that are left and with the
/// variables of the request, which come before its reasoning effort.
pub proof fn law_prompt_renders_the_messages<T: Tokenizer>(
    chat: &EncodedChat,
    tokenizer: &T,
    r: Result<ProcessedMessages, String>,
) -> (given: (Seq<JsonView>, ChatTemplateParamsView))
    requires
        call_ensures(process_chat_messages::<T>, (chat, tokenizer), r),
        r is Ok,
    ensures
        renders_messages(chat@.request, chat@.messages, *tokenizer, given, r->Ok_0.text@),
        r->Ok_0.stop_sequences.deep_view() == chat@.request.stop.deep_view(),
        given.1.add_generation_prompt,
        given.1.tools == encoded_chat::opt_forms(chat@.tools),
        has_variables_of(chat@.request, given.1.template_kwargs),
{
    lemma_prompt_renders(
        chat@.request,
        chat@.messages,
        encoded_chat::opt_forms(chat@.tools),
        *tokenizer,
    )
}

/// The variables that a request gives to the template.
pub open spec fn own_variables(request: ChatCompletionRequest) -> Map<Seq<char>, JsonView> {
    match request.chat_template_kwargs {
        Some(fields) => json::fields_view(fields@),
        None => Map::empty(),
    }
}

/// Whether a template is given the variables of a request, and its reasoning effort where
/// these have none.
pub open spec fn has_variables_of(
    request: ChatCompletionRequest,
    given: Option<Map<Seq<char>, JsonView>>,
) -> bool {
    let effort = "reasoning_effort"@;
    match given {
        Some(all) => {
            &&& exists|name: Seq<char>| #[trigger] all.dom().contains(name)
            &&& forall|name: Seq<char>| #[trigger]
                own_variables(request).dom().contains(name) ==> all.dom().contains(name)
                    && all[name] == own_variables(request)[name]
            &&& forall|name: Seq<char>| #[trigger]
                all.dom().contains(name) ==> own_variables(request).dom().contains(name) || name
                    == effort
            &&& !own_variables(request).dom().contains(effort) ==> {
                &&& all.dom().contains(effort) == request.reasoning_effort is Some
                &&& request.reasoning_effort matches Some(said) ==> all[effort] == JsonView::Str(
                    said@,
                )
            }
        },
        None => {
            &&& request.reasoning_effort is None
            &&& forall|name: Seq<char>| !(#[trigger] own_variables(request).dom().contains(name))
        },
    }
}

/// Arguments of an assistant's tool call that are no JSON are an error.
pub proof fn law_prompt_needs_a_template_and_json_arguments<T: Tokenizer>(
    chat: &EncodedChat,
    tokenizer: &T,
    r: Result<ProcessedMessages, String>,
    i: int,
    calls: Seq<JsonView>,
    j: int,
)
    requires
        call_ensures(process_chat_messages::<T>, (chat, tokenizer), r),
        0 <= i < chat@.messages.len(),
        json::field(chat@.messages[i], "role"@) == Some(JsonView::Str("assistant"@)),
        json::field(chat@.messages[i], "tool_calls"@) == Some(JsonView::Array(calls)),
        0 <= j < calls.len(),
        json::field(calls[j], "function"@) matches Some(function) && (json::field(
            function,
            "arguments"@,
        ) matches Some(JsonView::Str(arguments)) && json::parsed(arguments) is Err),
    ensures
        r is Err,
{
    if r is Ok {
        let messages = chat@.messages;
        let format = tokenizer.content_format()->0;
        let mapped = messages.map_values(|m: JsonView| formatted(m, format));
        lemma_read_messages_each(mapped);
        assert(mapped[i] == formatted(messages[i], format));
        let shown = read_messages(mapped)->Ok_0[i];
        lemma_read_message_stands(messages[i], format, shown);
        assert(has_arguments_of(
            calls[j],
            json::field(shown, "tool_calls"@)->0->Array_0[j],
        ));
    }
}

/// A format changes nothing of a message but its content, and no message is left out.
pub proof fn law_format_keeps_each_message(
    messages: &Vec<Json>,
    format: ChatTemplateContentFormat,
    r: Vec<Json>,
)
    requires
        call_ensures(process_content_format, (messages, format), r),
    ensures
        r@.len() == messages@.len(),
        forall|i: int, name: Seq<char>|
            0 <= i < r@.len() && name != "content"@ ==> #[trigger] json::field(r@[i]@, name)
                == json::field(messages@[i]@, name),
        forall|i: int|
            0 <= i < r@.len() ==> match format {
                ChatTemplateContentFormat::OpenAI => has_parts_of(
                    json::field(messages@[i]@, "content"@),
                    json::field((#[trigger] r@[i])@, "content"@),
                ),
                ChatTemplateContentFormat::String => has_texts_of(
                    json::field(messages@[i]@, "content"@),
                    json::field(r@[i]@, "content"@),
                ),
            },
{
    let views = json::array_view(r@);
    assert(views.len() == json::array_view(messages@).len());
    assert forall|i: int| 0 <= i < r@.len() implies (#[trigger] r@[i])@ == formatted(
        messages@[i]@,
        format,
    ) by {
        assert(views[i] == r@[i]@);
        lemma_formatted(messages@[i]@, format);
    }
    assert forall|i: int, name: Seq<char>|
        0 <= i < r@.len() && name != "content"@ implies #[trigger] json::field(r@[i]@, name)
        == json::field(messages@[i]@, name) by {
        lemma_formatted(messages@[i]@, format);
    }
    assert forall|i: int| 0 <= i < r@.len() implies match format {
        ChatTemplateContentFormat::OpenAI => has_parts_of(
            json::field(messages@[i]@, "content"@),
            json::field((#[trigger] r@[i])@, "content"@),
        ),
        ChatTemplateContentFormat::String => has_texts_of(
            json::field(messages@[i]@, "content"@),
            json::field(r@[i]@, "content"@),
        ),
    } by {
        lemma_formatted(messages@[i]@, format);
    }
}

/// The content of a message is put into the format that the template wants: its parts one by
/// one, or their text. Content that is no list of parts stays as it is.
pub proof fn law_content_is_put_into_the_format(
    content: &mut Json,
    format: ChatTemplateContentFormat,
)
    requires
        call_ensures(transform_content_field, (content, format), ()),
    ensures
        match format {
            ChatTemplateContentFormat::OpenAI => has_parts_of(
                Some(old(content)@),
                Some(final(content)@),
            ),
            ChatTemplateContentFormat::String => has_texts_of(
                Some(old(content)@),
                Some(final(content)@),
            ),
        },
{
    if let JsonView::Array(parts) = old(content)@ {
        lemma_spells(parts);
        assert forall|i: int| 0 <= i < parts.len() implies stands_for(
            #[trigger] parts[i],
            without_media(parts[i]),
        ) by {}
    }
}

/// Arguments that are text are replaced by what was read in them, and nothing else of a call
/// changes. Only text that is no JSON is refused.
pub proof fn law_arguments_are_replaced(
    call: &Json,
    read: Result<Json, String>,
    r: Result<Json, String>,
)
    requires
        call_ensures(replace_arguments, (call, read), r),
    ensures
        match json::field(call@, "function"@) {
            Some(function) => match json::field(function, "arguments"@) {
                Some(JsonView::Str(_)) => {
                    &&& r is Ok <==> read is Ok
                    &&& r matches Ok(shown) ==> {
                        &&& json::field(shown@, "function"@) matches Some(replaced)
                        &&& json::field(replaced, "arguments"@) == Some(read->Ok_0@)
                        &&& forall|name: Seq<char>|
                            name != "arguments"@ ==> #[trigger] json::field(replaced, name)
                                == json::field(function, name)
                        &&& forall|name: Seq<char>|
                            name != "function"@ ==> #[trigger] json::field(shown@, name)
                                == json::field(call@, name)
                    }
                },
                _ => r matches Ok(same) && same@ == call@,
            },
            None => r matches Ok(same) && same@ == call@,
        },
{
    lemma_message_names();
    if let Some(function) = json::field(call@, "function"@) {
        if let Some(JsonView::Str(arguments)) = json::field(function, "arguments"@) {
            assert(json::string_field(function, "arguments"@) == Some(arguments));
            if let Ok(v) = read {
                lemma_with(function, "arguments"@, v@);
                lemma_with(call@, "function"@, json::with(function, "arguments"@, v@));
            }
        }
    }
}

/// Of each message that an assistant said, the arguments of its tool calls are read; every
/// other message stays as it is, and none is left out.
pub proof fn law_arguments_of_assistants_are_read(
    messages: &Vec<Json>,
    r: Result<Vec<Json>, String>,
)
    requires
        call_ensures(process_tool_call_arguments, (messages,), r),
    ensures
        r matches Ok(shown) ==> {
            &&& shown@.len() == messages@.len()
            &&& forall|i: int|
                0 <= i < messages@.len() ==> has_read_calls(
                    (#[trigger] messages@[i])@,
                    shown@[i]@,
                )
        },
{
    if let Ok(shown) = r {
        let all = json::array_view(messages@);
        let out = json::array_view(shown@);
        lemma_read_messages_each(all);
        assert(out.len() == shown@.len());
        assert(all.len() == messages@.len());
        assert forall|i: int| 0 <= i < messages@.len() implies has_read_calls(
            (#[trigger] messages@[i])@,
            shown@[i]@,
        ) by {
            assert(all[i] == messages@[i]@);
            assert(out[i] == shown@[i]@);
            assert(read_message(all[i]) == Ok::<JsonView, Seq<char>>(out[i]));
            lemma_message_names();
            if json::string_field(all[i], "role"@) == Some("assistant"@) {
                if let Some(JsonView::Array(calls)) = json::field(all[i], "tool_calls"@) {
                    lemma_read_calls_each(calls);
                    lemma_with(all[i], "tool_calls"@, JsonView::Array(read_calls(calls)->Ok_0));
                }
            }
        }
    }
}

/// Whether a message is this one with the arguments of its tool calls read, where an assistant
/// said it.
pub open spec fn has_read_calls(message: JsonView, shown: JsonView) -> bool {
    let calls = json::field(message, "tool_calls"@);
    if json::field(message, "role"@) == Some(JsonView::Str("assistant"@)) && calls is Some
        && calls->0 is Array {
        &&& json::field(shown, "tool_calls"@) is Some
        &&& json::field(shown, "tool_calls"@)->0 is Array
        &&& json::field(shown, "tool_calls"@)->0->Array_0.len() == calls->0->Array_0.len()
        &&& forall|i: int|
            0 <= i < calls->0->Array_0.len() ==> has_arguments_of(
                #[trigger] calls->0->Array_0[i],
                json::field(shown, "tool_calls"@)->0->Array_0[i],
            )
        &&& forall|name: Seq<char>|
            name != "tool_calls"@ ==> #[trigger] json::field(shown, name) == json::field(
                message,
                name,
            )
    } else {
        shown == message
    }
}

} // verus!
