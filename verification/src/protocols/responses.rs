//! Responses: `/v1/responses`.

use vstd::prelude::*;

use super::common::ChatLogProbs;
use super::common::ChatLogProbsView;
use super::common::Encoded;
use super::common::EncodedView;
use super::common::Function;
use super::common::FunctionView;
use super::common::ToolChoice;
use super::common::ToolChoiceView;
use super::common::UsageInfo;
use crate::duplicate::Duplicate;
use crate::float::F32;
use crate::json::Json;
use crate::json::JsonView;

verus! {

/// One part of a message.
#[derive(Debug)]
pub enum ResponseContentPart {
    InputText { text: String },
    OutputText { text: String, annotations: Vec<String>, logprobs: Option<ChatLogProbs> },
    Unknown,
}

/// What a `ResponseContentPart` says.
#[verifier::ext_equal]
pub enum ResponseContentPartView {
    InputText { text: Seq<char> },
    OutputText { text: Seq<char>, annotations: Seq<Seq<char>>, logprobs: Option<ChatLogProbsView> },
    Unknown,
}

impl DeepView for ResponseContentPart {
    type V = ResponseContentPartView;

    open spec fn deep_view(&self) -> ResponseContentPartView {
        match *self {
            ResponseContentPart::InputText { text } => ResponseContentPartView::InputText {
                text: text.deep_view(),
            },
            ResponseContentPart::OutputText { text, annotations, logprobs } => ResponseContentPartView::OutputText {
                text: text.deep_view(),
                annotations: annotations.deep_view(),
                logprobs: logprobs.deep_view(),
            },
            ResponseContentPart::Unknown => ResponseContentPartView::Unknown,
        }
    }
}

impl Duplicate for ResponseContentPart {
    fn duplicate(&self) -> (r: ResponseContentPart) {
        match self {
            ResponseContentPart::InputText { text } => ResponseContentPart::InputText {
                text: text.duplicate(),
            },
            ResponseContentPart::OutputText { text, annotations, logprobs } => ResponseContentPart::OutputText {
                text: text.duplicate(),
                annotations: annotations.duplicate(),
                logprobs: logprobs.duplicate(),
            },
            ResponseContentPart::Unknown => ResponseContentPart::Unknown,
        }
    }
}

/// A text, or a list of parts.
#[derive(Debug)]
pub enum StringOrContentParts {
    String(String),
    Array(Vec<ResponseContentPart>),
}

/// What a `StringOrContentParts` says.
#[verifier::ext_equal]
pub enum StringOrContentPartsView {
    String(Seq<char>),
    Array(Seq<ResponseContentPartView>),
}

impl DeepView for StringOrContentParts {
    type V = StringOrContentPartsView;

    open spec fn deep_view(&self) -> StringOrContentPartsView {
        match *self {
            StringOrContentParts::String(x) => StringOrContentPartsView::String(x.deep_view()),
            StringOrContentParts::Array(x) => StringOrContentPartsView::Array(x.deep_view()),
        }
    }
}

impl Duplicate for StringOrContentParts {
    fn duplicate(&self) -> (r: StringOrContentParts) {
        match self {
            StringOrContentParts::String(x) => StringOrContentParts::String(x.duplicate()),
            StringOrContentParts::Array(x) => StringOrContentParts::Array(x.duplicate()),
        }
    }
}

/// A piece of reasoning.
#[derive(Debug)]
pub enum ResponseReasoningContent {
    ReasoningText { text: String },
}

/// What a `ResponseReasoningContent` says.
#[verifier::ext_equal]
pub enum ResponseReasoningContentView {
    ReasoningText { text: Seq<char> },
}

impl DeepView for ResponseReasoningContent {
    type V = ResponseReasoningContentView;

    open spec fn deep_view(&self) -> ResponseReasoningContentView {
        match *self {
            ResponseReasoningContent::ReasoningText { text } => ResponseReasoningContentView::ReasoningText {
                text: text.deep_view(),
            },
        }
    }
}

impl Duplicate for ResponseReasoningContent {
    fn duplicate(&self) -> (r: ResponseReasoningContent) {
        match self {
            ResponseReasoningContent::ReasoningText { text } => ResponseReasoningContent::ReasoningText {
                text: text.duplicate(),
            },
        }
    }
}

/// An item of a conversation, as it is handed in.
#[derive(Debug)]
#[allow(inconsistent_fields)]
pub enum ResponseInputOutputItem {
    SimpleInputMessage { content: StringOrContentParts, role: String, item_type: Option<String> },
    Message { id: String, role: String, content: Vec<ResponseContentPart>, status: Option<String> },
    Reasoning { id: String, summary: Vec<String>, content: Vec<ResponseReasoningContent>, status: Option<String> },
    FunctionToolCall { id: String, call_id: String, name: String, arguments: String, output: Option<String>, status: Option<String> },
    FunctionCallOutput { id: Option<String>, call_id: String, output: String, status: Option<String> },
}

/// What a `ResponseInputOutputItem` says.
#[verifier::ext_equal]
#[allow(inconsistent_fields)]
pub enum ResponseInputOutputItemView {
    SimpleInputMessage { content: StringOrContentPartsView, role: Seq<char>, item_type: Option<Seq<char>> },
    Message { id: Seq<char>, role: Seq<char>, content: Seq<ResponseContentPartView>, status: Option<Seq<char>> },
    Reasoning { id: Seq<char>, summary: Seq<Seq<char>>, content: Seq<ResponseReasoningContentView>, status: Option<Seq<char>> },
    FunctionToolCall { id: Seq<char>, call_id: Seq<char>, name: Seq<char>, arguments: Seq<char>, output: Option<Seq<char>>, status: Option<Seq<char>> },
    FunctionCallOutput { id: Option<Seq<char>>, call_id: Seq<char>, output: Seq<char>, status: Option<Seq<char>> },
}

impl DeepView for ResponseInputOutputItem {
    type V = ResponseInputOutputItemView;

    open spec fn deep_view(&self) -> ResponseInputOutputItemView {
        match *self {
            ResponseInputOutputItem::SimpleInputMessage { content, role, item_type } => ResponseInputOutputItemView::SimpleInputMessage {
                content: content.deep_view(),
                role: role.deep_view(),
                item_type: item_type.deep_view(),
            },
            ResponseInputOutputItem::Message { id, role, content, status } => ResponseInputOutputItemView::Message {
                id: id.deep_view(),
                role: role.deep_view(),
                content: content.deep_view(),
                status: status.deep_view(),
            },
            ResponseInputOutputItem::Reasoning { id, summary, content, status } => ResponseInputOutputItemView::Reasoning {
                id: id.deep_view(),
                summary: summary.deep_view(),
                content: content.deep_view(),
                status: status.deep_view(),
            },
            ResponseInputOutputItem::FunctionToolCall { id, call_id, name, arguments, output, status } => ResponseInputOutputItemView::FunctionToolCall {
                id: id.deep_view(),
                call_id: call_id.deep_view(),
                name: name.deep_view(),
                arguments: arguments.deep_view(),
                output: output.deep_view(),
                status: status.deep_view(),
            },
            ResponseInputOutputItem::FunctionCallOutput { id, call_id, output, status } => ResponseInputOutputItemView::FunctionCallOutput {
                id: id.deep_view(),
                call_id: call_id.deep_view(),
                output: output.deep_view(),
                status: status.deep_view(),
            },
        }
    }
}

impl Duplicate for ResponseInputOutputItem {
    fn duplicate(&self) -> (r: ResponseInputOutputItem) {
        match self {
            ResponseInputOutputItem::SimpleInputMessage { content, role, item_type } => ResponseInputOutputItem::SimpleInputMessage {
                content: content.duplicate(),
                role: role.duplicate(),
                item_type: item_type.duplicate(),
            },
            ResponseInputOutputItem::Message { id, role, content, status } => ResponseInputOutputItem::Message {
                id: id.duplicate(),
                role: role.duplicate(),
                content: content.duplicate(),
                status: status.duplicate(),
            },
            ResponseInputOutputItem::Reasoning { id, summary, content, status } => ResponseInputOutputItem::Reasoning {
                id: id.duplicate(),
                summary: summary.duplicate(),
                content: content.duplicate(),
                status: status.duplicate(),
            },
            ResponseInputOutputItem::FunctionToolCall { id, call_id, name, arguments, output, status } => ResponseInputOutputItem::FunctionToolCall {
                id: id.duplicate(),
                call_id: call_id.duplicate(),
                name: name.duplicate(),
                arguments: arguments.duplicate(),
                output: output.duplicate(),
                status: status.duplicate(),
            },
            ResponseInputOutputItem::FunctionCallOutput { id, call_id, output, status } => ResponseInputOutputItem::FunctionCallOutput {
                id: id.duplicate(),
                call_id: call_id.duplicate(),
                output: output.duplicate(),
                status: status.duplicate(),
            },
        }
    }
}

/// What is to be answered.
#[derive(Debug)]
pub enum ResponseInput {
    Text(String),
    Items(Vec<ResponseInputOutputItem>),
}

/// What a `ResponseInput` says.
#[verifier::ext_equal]
pub enum ResponseInputView {
    Text(Seq<char>),
    Items(Seq<ResponseInputOutputItemView>),
}

impl DeepView for ResponseInput {
    type V = ResponseInputView;

    open spec fn deep_view(&self) -> ResponseInputView {
        match *self {
            ResponseInput::Text(x) => ResponseInputView::Text(x.deep_view()),
            ResponseInput::Items(x) => ResponseInputView::Items(x.deep_view()),
        }
    }
}

impl Duplicate for ResponseInput {
    fn duplicate(&self) -> (r: ResponseInput) {
        match self {
            ResponseInput::Text(x) => ResponseInput::Text(x.duplicate()),
            ResponseInput::Items(x) => ResponseInput::Items(x.duplicate()),
        }
    }
}

/// The kind of a tool.
#[derive(Clone, Copy, Debug, PartialEq, Eq, Structural)]
pub enum ResponseToolType {
    Function,
    WebSearchPreview,
    CodeInterpreter,
    Mcp,
}

impl DeepView for ResponseToolType {
    type V = ResponseToolType;

    open spec fn deep_view(&self) -> ResponseToolType {
        *self
    }
}

/// A tool that the model may use.
#[derive(Debug)]
pub struct ResponseTool {
    pub tool_type: ResponseToolType,
    pub function: Option<Function>,
}

/// What a `ResponseTool` says.
#[verifier::ext_equal]
pub struct ResponseToolView {
    pub tool_type: ResponseToolType,
    pub function: Option<FunctionView>,
}

impl DeepView for ResponseTool {
    type V = ResponseToolView;

    open spec fn deep_view(&self) -> ResponseToolView {
        ResponseToolView {
            tool_type: self.tool_type.deep_view(),
            function: self.function.deep_view(),
        }
    }
}

impl Duplicate for ResponseTool {
    fn duplicate(&self) -> (r: ResponseTool) {
        ResponseTool {
            tool_type: self.tool_type,
            function: self.function.duplicate(),
        }
    }
}

/// The form of the answer.
#[derive(Debug)]
pub enum TextFormat {
    Text,
    JsonObject,
    JsonSchema { name: String, schema: Json, description: Option<String>, strict: Option<bool> },
}

/// What a `TextFormat` says.
#[verifier::ext_equal]
pub enum TextFormatView {
    Text,
    JsonObject,
    JsonSchema { name: Seq<char>, schema: JsonView, description: Option<Seq<char>>, strict: Option<bool> },
}

impl DeepView for TextFormat {
    type V = TextFormatView;

    open spec fn deep_view(&self) -> TextFormatView {
        match *self {
            TextFormat::Text => TextFormatView::Text,
            TextFormat::JsonObject => TextFormatView::JsonObject,
            TextFormat::JsonSchema { name, schema, description, strict } => TextFormatView::JsonSchema {
                name: name.deep_view(),
                schema: schema.deep_view(),
                description: description.deep_view(),
                strict: strict.deep_view(),
            },
        }
    }
}

impl Duplicate for TextFormat {
    fn duplicate(&self) -> (r: TextFormat) {
        match self {
            TextFormat::Text => TextFormat::Text,
            TextFormat::JsonObject => TextFormat::JsonObject,
            TextFormat::JsonSchema { name, schema, description, strict } => TextFormat::JsonSchema {
                name: name.duplicate(),
                schema: schema.duplicate(),
                description: description.duplicate(),
                strict: strict.duplicate(),
            },
        }
    }
}

/// How text is answered.
#[derive(Debug)]
pub struct TextConfig {
    pub format: Option<TextFormat>,
}

/// What a `TextConfig` says.
#[verifier::ext_equal]
pub struct TextConfigView {
    pub format: Option<TextFormatView>,
}

impl DeepView for TextConfig {
    type V = TextConfigView;

    open spec fn deep_view(&self) -> TextConfigView {
        TextConfigView {
            format: self.format.deep_view(),
        }
    }
}

impl Duplicate for TextConfig {
    fn duplicate(&self) -> (r: TextConfig) {
        TextConfig {
            format: self.format.duplicate(),
        }
    }
}

/// The value of a field, where it is set.
pub open spec fn opt_value<V>(field: Option<EncodedView<V>>) -> Option<V> {
    match field {
        Some(e) => Some(e.value),
        None => None,
    }
}

/// The JSON of a field, where it is set.
pub open spec fn opt_json<V>(field: Option<EncodedView<V>>) -> Option<JsonView> {
    match field {
        Some(e) => Some(e.json),
        None => None,
    }
}

/// A request for a response.
#[derive(Debug)]
pub struct ResponsesRequest {
    pub input: ResponseInput,
    pub instructions: Option<String>,
    pub model: String,
    pub temperature: Option<Encoded<F32>>,
    pub top_p: Option<Encoded<F32>>,
    pub max_output_tokens: Option<u32>,
    pub max_tool_calls: Option<u32>,
    pub previous_response_id: Option<String>,
    pub user: Option<String>,
    pub parallel_tool_calls: Option<bool>,
    pub store: Option<bool>,
    pub stream: Option<bool>,
    pub background: Option<bool>,
    pub top_logprobs: Option<u32>,
    pub tools: Option<Encoded<Vec<ResponseTool>>>,
    pub tool_choice: Option<Encoded<ToolChoice>>,
    pub text: Option<TextConfig>,
    pub reasoning: Option<Json>,
    pub truncation: Option<Json>,
    pub metadata: Option<Json>,
}

/// What a `ResponsesRequest` says.
#[verifier::ext_equal]
pub struct ResponsesRequestView {
    pub input: ResponseInputView,
    pub instructions: Option<Seq<char>>,
    pub model: Seq<char>,
    pub temperature: Option<EncodedView<F32>>,
    pub top_p: Option<EncodedView<F32>>,
    pub max_output_tokens: Option<u32>,
    pub max_tool_calls: Option<u32>,
    pub previous_response_id: Option<Seq<char>>,
    pub user: Option<Seq<char>>,
    pub parallel_tool_calls: Option<bool>,
    pub store: Option<bool>,
    pub stream: Option<bool>,
    pub background: Option<bool>,
    pub top_logprobs: Option<u32>,
    pub tools: Option<EncodedView<Seq<ResponseToolView>>>,
    pub tool_choice: Option<EncodedView<ToolChoiceView>>,
    pub text: Option<TextConfigView>,
    pub reasoning: Option<JsonView>,
    pub truncation: Option<JsonView>,
    pub metadata: Option<JsonView>,
}

impl DeepView for ResponsesRequest {
    type V = ResponsesRequestView;

    open spec fn deep_view(&self) -> ResponsesRequestView {
        ResponsesRequestView {
            input: self.input.deep_view(),
            instructions: self.instructions.deep_view(),
            model: self.model.deep_view(),
            temperature: self.temperature.deep_view(),
            top_p: self.top_p.deep_view(),
            max_output_tokens: self.max_output_tokens.deep_view(),
            max_tool_calls: self.max_tool_calls.deep_view(),
            previous_response_id: self.previous_response_id.deep_view(),
            user: self.user.deep_view(),
            parallel_tool_calls: self.parallel_tool_calls.deep_view(),
            store: self.store.deep_view(),
            stream: self.stream.deep_view(),
            background: self.background.deep_view(),
            top_logprobs: self.top_logprobs.deep_view(),
            tools: self.tools.deep_view(),
            tool_choice: self.tool_choice.deep_view(),
            text: self.text.deep_view(),
            reasoning: self.reasoning.deep_view(),
            truncation: self.truncation.deep_view(),
            metadata: self.metadata.deep_view(),
        }
    }
}

impl Duplicate for ResponsesRequest {
    fn duplicate(&self) -> (r: ResponsesRequest) {
        ResponsesRequest {
            input: self.input.duplicate(),
            instructions: self.instructions.duplicate(),
            model: self.model.duplicate(),
            temperature: self.temperature.duplicate(),
            top_p: self.top_p.duplicate(),
            max_output_tokens: self.max_output_tokens.duplicate(),
            max_tool_calls: self.max_tool_calls.duplicate(),
            previous_response_id: self.previous_response_id.duplicate(),
            user: self.user.duplicate(),
            parallel_tool_calls: self.parallel_tool_calls.duplicate(),
            store: self.store.duplicate(),
            stream: self.stream.duplicate(),
            background: self.background.duplicate(),
            top_logprobs: self.top_logprobs.duplicate(),
            tools: self.tools.duplicate(),
            tool_choice: self.tool_choice.duplicate(),
            text: self.text.duplicate(),
            reasoning: self.reasoning.duplicate(),
            truncation: self.truncation.duplicate(),
            metadata: self.metadata.duplicate(),
        }
    }
}

impl Default for ResponsesRequest {
    /// Everything absent, empty or off.
    fn default() -> (r: Self)
        ensures
            r.input.deep_view() == ResponseInputView::Text(Seq::empty()),
            r.instructions is None,
            r.model@.len() == 0,
            r.temperature is None,
            r.top_p is None,
            r.max_output_tokens is None,
            r.max_tool_calls is None,
            r.previous_response_id is None,
            r.user is None,
            r.parallel_tool_calls is None,
            r.store is None,
            r.stream is None,
            r.background is None,
            r.top_logprobs is None,
            r.tools is None,
            r.tool_choice is None,
            r.text is None,
            r.reasoning is None,
            r.truncation is None,
            r.metadata is None,
    {
        ResponsesRequest {
            input: ResponseInput::Text(String::new()),
            instructions: None,
            model: String::new(),
            temperature: None,
            top_p: None,
            max_output_tokens: None,
            max_tool_calls: None,
            previous_response_id: None,
            user: None,
            parallel_tool_calls: None,
            store: None,
            stream: None,
            background: None,
            top_logprobs: None,
            tools: None,
            tool_choice: None,
            text: None,
            reasoning: None,
            truncation: None,
            metadata: None,
        }
    }
}

/// An item of a response.
#[derive(Debug)]
#[allow(inconsistent_fields)]
pub enum ResponseOutputItem {
    Message { id: String, role: String, content: Vec<ResponseContentPart>, status: String },
    Reasoning { id: String, summary: Vec<String>, content: Vec<ResponseReasoningContent>, status: Option<String> },
    FunctionToolCall { id: String, call_id: String, name: String, arguments: String, output: Option<String>, status: String },
}

/// What a `ResponseOutputItem` says.
#[verifier::ext_equal]
#[allow(inconsistent_fields)]
pub enum ResponseOutputItemView {
    Message { id: Seq<char>, role: Seq<char>, content: Seq<ResponseContentPartView>, status: Seq<char> },
    Reasoning { id: Seq<char>, summary: Seq<Seq<char>>, content: Seq<ResponseReasoningContentView>, status: Option<Seq<char>> },
    FunctionToolCall { id: Seq<char>, call_id: Seq<char>, name: Seq<char>, arguments: Seq<char>, output: Option<Seq<char>>, status: Seq<char> },
}

impl DeepView for ResponseOutputItem {
    type V = ResponseOutputItemView;

    open spec fn deep_view(&self) -> ResponseOutputItemView {
        match *self {
            ResponseOutputItem::Message { id, role, content, status } => ResponseOutputItemView::Message {
                id: id.deep_view(),
                role: role.deep_view(),
                content: content.deep_view(),
                status: status.deep_view(),
            },
            ResponseOutputItem::Reasoning { id, summary, content, status } => ResponseOutputItemView::Reasoning {
                id: id.deep_view(),
                summary: summary.deep_view(),
                content: content.deep_view(),
                status: status.deep_view(),
            },
            ResponseOutputItem::FunctionToolCall { id, call_id, name, arguments, output, status } => ResponseOutputItemView::FunctionToolCall {
                id: id.deep_view(),
                call_id: call_id.deep_view(),
                name: name.deep_view(),
                arguments: arguments.deep_view(),
                output: output.deep_view(),
                status: status.deep_view(),
            },
        }
    }
}

/// How far a response has come.
#[derive(Clone, Copy, Debug, PartialEq, Eq, Structural)]
pub enum ResponseStatus {
    InProgress,
    Completed,
    Failed,
    Cancelled,
}

/// Token counts of a response.
#[derive(Clone, Copy, Debug)]
pub enum ResponsesUsage {
    Classic(UsageInfo),
}

/// The settings of a request that its response repeats.
#[derive(Debug)]
pub struct RequestEcho {
    pub instructions: Option<String>,
    pub temperature: Option<Encoded<F32>>,
    pub top_p: Option<Encoded<F32>>,
    pub max_output_tokens: Option<u32>,
    pub max_tool_calls: Option<u32>,
    pub previous_response_id: Option<String>,
    pub user: Option<String>,
    pub parallel_tool_calls: Option<bool>,
    pub store: Option<bool>,
    pub tools: Option<Encoded<Vec<ResponseTool>>>,
    pub tool_choice: Option<Encoded<ToolChoice>>,
    pub reasoning: Option<Json>,
    pub truncation: Option<Json>,
    pub metadata: Option<Json>,
}

/// What a `RequestEcho` says.
#[verifier::ext_equal]
pub struct RequestEchoView {
    pub instructions: Option<Seq<char>>,
    pub temperature: Option<EncodedView<F32>>,
    pub top_p: Option<EncodedView<F32>>,
    pub max_output_tokens: Option<u32>,
    pub max_tool_calls: Option<u32>,
    pub previous_response_id: Option<Seq<char>>,
    pub user: Option<Seq<char>>,
    pub parallel_tool_calls: Option<bool>,
    pub store: Option<bool>,
    pub tools: Option<EncodedView<Seq<ResponseToolView>>>,
    pub tool_choice: Option<EncodedView<ToolChoiceView>>,
    pub reasoning: Option<JsonView>,
    pub truncation: Option<JsonView>,
    pub metadata: Option<JsonView>,
}

impl DeepView for RequestEcho {
    type V = RequestEchoView;

    open spec fn deep_view(&self) -> RequestEchoView {
        RequestEchoView {
            instructions: self.instructions.deep_view(),
            temperature: self.temperature.deep_view(),
            top_p: self.top_p.deep_view(),
            max_output_tokens: self.max_output_tokens.deep_view(),
            max_tool_calls: self.max_tool_calls.deep_view(),
            previous_response_id: self.previous_response_id.deep_view(),
            user: self.user.deep_view(),
            parallel_tool_calls: self.parallel_tool_calls.deep_view(),
            store: self.store.deep_view(),
            tools: self.tools.deep_view(),
            tool_choice: self.tool_choice.deep_view(),
            reasoning: self.reasoning.deep_view(),
            truncation: self.truncation.deep_view(),
            metadata: self.metadata.deep_view(),
        }
    }
}

impl ResponsesRequestView {
    /// The settings that a response repeats.
    pub open spec fn echo(self) -> RequestEchoView {
        RequestEchoView {
            instructions: self.instructions,
            temperature: self.temperature,
            top_p: self.top_p,
            max_output_tokens: self.max_output_tokens,
            max_tool_calls: self.max_tool_calls,
            previous_response_id: self.previous_response_id,
            user: self.user,
            parallel_tool_calls: self.parallel_tool_calls,
            store: self.store,
            tools: self.tools,
            tool_choice: self.tool_choice,
            reasoning: self.reasoning,
            truncation: self.truncation,
            metadata: self.metadata,
        }
    }
}

impl RequestEcho {
    pub fn copy_from_request(req: &ResponsesRequest) -> (r: Self)
        ensures
            r.deep_view() == req.deep_view().echo(),
    {
        RequestEcho {
            instructions: req.instructions.duplicate(),
            temperature: req.temperature.duplicate(),
            top_p: req.top_p.duplicate(),
            max_output_tokens: req.max_output_tokens.duplicate(),
            max_tool_calls: req.max_tool_calls.duplicate(),
            previous_response_id: req.previous_response_id.duplicate(),
            user: req.user.duplicate(),
            parallel_tool_calls: req.parallel_tool_calls.duplicate(),
            store: req.store.duplicate(),
            tools: req.tools.duplicate(),
            tool_choice: req.tool_choice.duplicate(),
            reasoning: req.reasoning.duplicate(),
            truncation: req.truncation.duplicate(),
            metadata: req.metadata.duplicate(),
        }
    }
}

/// A response.
#[derive(Debug)]
pub struct ResponsesResponse {
    pub id: String,
    pub model: String,
    pub created_at: i64,
    pub status: ResponseStatus,
    pub output: Vec<ResponseOutputItem>,
    pub text: Option<TextConfig>,
    pub usage: Option<ResponsesUsage>,
    pub echo: RequestEcho,
}

/// What a response repeats of its request is what the request says.
pub proof fn law_settings_are_repeated(req: &ResponsesRequest, r: RequestEcho)
    requires
        call_ensures(RequestEcho::copy_from_request, (req,), r),
    ensures
        r.instructions.deep_view() == req.instructions.deep_view(),
        r.temperature.deep_view() == req.temperature.deep_view(),
        r.top_p.deep_view() == req.top_p.deep_view(),
        r.max_output_tokens == req.max_output_tokens,
        r.max_tool_calls == req.max_tool_calls,
        r.previous_response_id.deep_view() == req.previous_response_id.deep_view(),
        r.user.deep_view() == req.user.deep_view(),
        r.parallel_tool_calls == req.parallel_tool_calls,
        r.store == req.store,
        r.tools.deep_view() == req.tools.deep_view(),
        r.tool_choice.deep_view() == req.tool_choice.deep_view(),
        r.reasoning.deep_view() == req.reasoning.deep_view(),
        r.truncation.deep_view() == req.truncation.deep_view(),
        r.metadata.deep_view() == req.metadata.deep_view(),
{
}

} // verus!
