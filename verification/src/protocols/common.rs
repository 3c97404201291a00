//! Parts that the chat, generate and responses protocols share.

use vstd::prelude::*;

use crate::duplicate::Duplicate;
use crate::float::F32;
use crate::json::Json;
use crate::json::JsonView;

verus! {

/// One string, or a list of them.
#[derive(Debug)]
pub enum StringOrArray {
    String(String),
    Array(Vec<String>),
}

/// What a `StringOrArray` says.
#[verifier::ext_equal]
pub enum StringOrArrayView {
    String(Seq<char>),
    Array(Seq<Seq<char>>),
}

impl DeepView for StringOrArray {
    type V = StringOrArrayView;

    open spec fn deep_view(&self) -> StringOrArrayView {
        match *self {
            StringOrArray::String(x) => StringOrArrayView::String(x.deep_view()),
            StringOrArray::Array(x) => StringOrArrayView::Array(x.deep_view()),
        }
    }
}

impl Duplicate for StringOrArray {
    fn duplicate(&self) -> (r: StringOrArray) {
        match self {
            StringOrArray::String(x) => StringOrArray::String(x.duplicate()),
            StringOrArray::Array(x) => StringOrArray::Array(x.duplicate()),
        }
    }
}

/// The function of a tool call, with its arguments as JSON text.
#[derive(Debug)]
pub struct FunctionCallResponse {
    pub name: String,
    pub arguments: Option<String>,
}

/// What a `FunctionCallResponse` says.
#[verifier::ext_equal]
pub struct FunctionCallResponseView {
    pub name: Seq<char>,
    pub arguments: Option<Seq<char>>,
}

impl DeepView for FunctionCallResponse {
    type V = FunctionCallResponseView;

    open spec fn deep_view(&self) -> FunctionCallResponseView {
        FunctionCallResponseView {
            name: self.name.deep_view(),
            arguments: self.arguments.deep_view(),
        }
    }
}

impl Duplicate for FunctionCallResponse {
    fn duplicate(&self) -> (r: FunctionCallResponse) {
        FunctionCallResponse {
            name: self.name.duplicate(),
            arguments: self.arguments.duplicate(),
        }
    }
}

/// A call of a tool that the model made.
#[derive(Debug)]
pub struct ToolCall {
    pub id: String,
    pub tool_type: String,
    pub function: FunctionCallResponse,
}

/// What a `ToolCall` says.
#[verifier::ext_equal]
pub struct ToolCallView {
    pub id: Seq<char>,
    pub tool_type: Seq<char>,
    pub function: FunctionCallResponseView,
}

impl DeepView for ToolCall {
    type V = ToolCallView;

    open spec fn deep_view(&self) -> ToolCallView {
        ToolCallView {
            id: self.id.deep_view(),
            tool_type: self.tool_type.deep_view(),
            function: self.function.deep_view(),
        }
    }
}

impl Duplicate for ToolCall {
    fn duplicate(&self) -> (r: ToolCall) {
        ToolCall {
            id: self.id.duplicate(),
            tool_type: self.tool_type.duplicate(),
            function: self.function.duplicate(),
        }
    }
}

/// A function that the model may call.
#[derive(Debug)]
pub struct Function {
    pub name: String,
    pub description: Option<String>,
    /// The JSON schema of the arguments.
    pub parameters: Json,
    pub strict: Option<bool>,
}

/// What a `Function` says.
#[verifier::ext_equal]
pub struct FunctionView {
    pub name: Seq<char>,
    pub description: Option<Seq<char>>,
    pub parameters: JsonView,
    pub strict: Option<bool>,
}

impl DeepView for Function {
    type V = FunctionView;

    open spec fn deep_view(&self) -> FunctionView {
        FunctionView {
            name: self.name.deep_view(),
            description: self.description.deep_view(),
            parameters: self.parameters.deep_view(),
            strict: self.strict.deep_view(),
        }
    }
}

impl Duplicate for Function {
    fn duplicate(&self) -> (r: Function) {
        Function {
            name: self.name.duplicate(),
            description: self.description.duplicate(),
            parameters: self.parameters.duplicate(),
            strict: self.strict.duplicate(),
        }
    }
}

/// A tool that the model may use.
#[derive(Debug)]
pub struct Tool {
    pub tool_type: String,
    pub function: Function,
}

/// What a `Tool` says.
#[verifier::ext_equal]
pub struct ToolView {
    pub tool_type: Seq<char>,
    pub function: FunctionView,
}

impl DeepView for Tool {
    type V = ToolView;

    open spec fn deep_view(&self) -> ToolView {
        ToolView {
            tool_type: self.tool_type.deep_view(),
            function: self.function.deep_view(),
        }
    }
}

impl Duplicate for Tool {
    fn duplicate(&self) -> (r: Tool) {
        Tool {
            tool_type: self.tool_type.duplicate(),
            function: self.function.duplicate(),
        }
    }
}

/// Whether the model may, must or must not call a tool.
#[derive(Clone, Copy, Debug, PartialEq, Eq, Structural)]
pub enum ToolChoiceValue {
    Auto,
    Required,
    /// No tool is to be called.
    Never,
}

impl DeepView for ToolChoiceValue {
    type V = ToolChoiceValue;

    open spec fn deep_view(&self) -> ToolChoiceValue {
        *self
    }
}

/// The function that must be called.
#[derive(Debug)]
pub struct FunctionChoice {
    pub name: String,
}

/// What a `FunctionChoice` says.
#[verifier::ext_equal]
pub struct FunctionChoiceView {
    pub name: Seq<char>,
}

impl DeepView for FunctionChoice {
    type V = FunctionChoiceView;

    open spec fn deep_view(&self) -> FunctionChoiceView {
        FunctionChoiceView {
            name: self.name.deep_view(),
        }
    }
}

impl Duplicate for FunctionChoice {
    fn duplicate(&self) -> (r: FunctionChoice) {
        FunctionChoice {
            name: self.name.duplicate(),
        }
    }
}

/// A tool that may be used, by reference.
#[derive(Debug)]
pub enum ToolReference {
    Function { name: String },
    /// A tool that is not a function.
    Other { tool_type: String },
}

/// What a `ToolReference` says.
#[verifier::ext_equal]
pub enum ToolReferenceView {
    Function { name: Seq<char> },
    Other { tool_type: Seq<char> },
}

impl DeepView for ToolReference {
    type V = ToolReferenceView;

    open spec fn deep_view(&self) -> ToolReferenceView {
        match *self {
            ToolReference::Function { name } => ToolReferenceView::Function {
                name: name.deep_view(),
            },
            ToolReference::Other { tool_type } => ToolReferenceView::Other {
                tool_type: tool_type.deep_view(),
            },
        }
    }
}

impl Duplicate for ToolReference {
    fn duplicate(&self) -> (r: ToolReference) {
        match self {
            ToolReference::Function { name } => ToolReference::Function {
                name: name.duplicate(),
            },
            ToolReference::Other { tool_type } => ToolReference::Other {
                tool_type: tool_type.duplicate(),
            },
        }
    }
}

/// Which tools the model may use.
#[derive(Debug)]
pub enum ToolChoice {
    Value(ToolChoiceValue),
    Function { tool_type: String, function: FunctionChoice },
    AllowedTools { tool_type: String, mode: String, tools: Vec<ToolReference> },
}

/// What a `ToolChoice` says.
#[verifier::ext_equal]
pub enum ToolChoiceView {
    Value(ToolChoiceValue),
    Function { tool_type: Seq<char>, function: FunctionChoiceView },
    AllowedTools { tool_type: Seq<char>, mode: Seq<char>, tools: Seq<ToolReferenceView> },
}

impl DeepView for ToolChoice {
    type V = ToolChoiceView;

    open spec fn deep_view(&self) -> ToolChoiceView {
        match *self {
            ToolChoice::Value(x) => ToolChoiceView::Value(x.deep_view()),
            ToolChoice::Function { tool_type, function } => ToolChoiceView::Function {
                tool_type: tool_type.deep_view(),
                function: function.deep_view(),
            },
            ToolChoice::AllowedTools { tool_type, mode, tools } => ToolChoiceView::AllowedTools {
                tool_type: tool_type.deep_view(),
                mode: mode.deep_view(),
                tools: tools.deep_view(),
            },
        }
    }
}

impl Duplicate for ToolChoice {
    fn duplicate(&self) -> (r: ToolChoice) {
        match self {
            ToolChoice::Value(x) => ToolChoice::Value(*x),
            ToolChoice::Function { tool_type, function } => ToolChoice::Function {
                tool_type: tool_type.duplicate(),
                function: function.duplicate(),
            },
            ToolChoice::AllowedTools { tool_type, mode, tools } => ToolChoice::AllowedTools {
                tool_type: tool_type.duplicate(),
                mode: mode.duplicate(),
                tools: tools.duplicate(),
            },
        }
    }
}

/// A JSON schema that the answer must follow.
#[derive(Debug)]
pub struct JsonSchemaFormat {
    pub name: String,
    pub schema: Json,
    pub strict: Option<bool>,
}

/// What a `JsonSchemaFormat` says.
#[verifier::ext_equal]
pub struct JsonSchemaFormatView {
    pub name: Seq<char>,
    pub schema: JsonView,
    pub strict: Option<bool>,
}

impl DeepView for JsonSchemaFormat {
    type V = JsonSchemaFormatView;

    open spec fn deep_view(&self) -> JsonSchemaFormatView {
        JsonSchemaFormatView {
            name: self.name.deep_view(),
            schema: self.schema.deep_view(),
            strict: self.strict.deep_view(),
        }
    }
}

impl Duplicate for JsonSchemaFormat {
    fn duplicate(&self) -> (r: JsonSchemaFormat) {
        JsonSchemaFormat {
            name: self.name.duplicate(),
            schema: self.schema.duplicate(),
            strict: self.strict.duplicate(),
        }
    }
}

/// The form of the answer.
#[derive(Debug)]
pub enum ResponseFormat {
    Text,
    JsonObject,
    JsonSchema { json_schema: JsonSchemaFormat },
}

/// What a `ResponseFormat` says.
#[verifier::ext_equal]
pub enum ResponseFormatView {
    Text,
    JsonObject,
    JsonSchema { json_schema: JsonSchemaFormatView },
}

impl DeepView for ResponseFormat {
    type V = ResponseFormatView;

    open spec fn deep_view(&self) -> ResponseFormatView {
        match *self {
            ResponseFormat::Text => ResponseFormatView::Text,
            ResponseFormat::JsonObject => ResponseFormatView::JsonObject,
            ResponseFormat::JsonSchema { json_schema } => ResponseFormatView::JsonSchema {
                json_schema: json_schema.deep_view(),
            },
        }
    }
}

impl Duplicate for ResponseFormat {
    fn duplicate(&self) -> (r: ResponseFormat) {
        match self {
            ResponseFormat::Text => ResponseFormat::Text,
            ResponseFormat::JsonObject => ResponseFormat::JsonObject,
            ResponseFormat::JsonSchema { json_schema } => ResponseFormat::JsonSchema {
                json_schema: json_schema.duplicate(),
            },
        }
    }
}

/// Options of a streamed answer.
#[derive(Debug)]
pub struct StreamOptions {
    pub include_usage: Option<bool>,
}

/// What a `StreamOptions` says.
#[verifier::ext_equal]
pub struct StreamOptionsView {
    pub include_usage: Option<bool>,
}

impl DeepView for StreamOptions {
    type V = StreamOptionsView;

    open spec fn deep_view(&self) -> StreamOptionsView {
        StreamOptionsView {
            include_usage: self.include_usage.deep_view(),
        }
    }
}

/// One of the most likely tokens at a position.
#[derive(Debug)]
pub struct TopLogProb {
    pub token: String,
    pub logprob: F32,
    pub bytes: Option<Vec<u8>>,
}

/// What a `TopLogProb` says.
#[verifier::ext_equal]
pub struct TopLogProbView {
    pub token: Seq<char>,
    pub logprob: F32,
    pub bytes: Option<Seq<u8>>,
}

impl DeepView for TopLogProb {
    type V = TopLogProbView;

    open spec fn deep_view(&self) -> TopLogProbView {
        TopLogProbView {
            token: self.token.deep_view(),
            logprob: self.logprob.deep_view(),
            bytes: self.bytes.deep_view(),
        }
    }
}

impl Duplicate for TopLogProb {
    fn duplicate(&self) -> (r: TopLogProb) {
        TopLogProb {
            token: self.token.duplicate(),
            logprob: self.logprob,
            bytes: self.bytes.duplicate(),
        }
    }
}

/// The log probability of a token, and of the most likely ones in its place.
#[derive(Debug)]
pub struct ChatLogProbsContent {
    pub token: String,
    pub logprob: F32,
    pub bytes: Option<Vec<u8>>,
    pub top_logprobs: Vec<TopLogProb>,
}

/// What a `ChatLogProbsContent` says.
#[verifier::ext_equal]
pub struct ChatLogProbsContentView {
    pub token: Seq<char>,
    pub logprob: F32,
    pub bytes: Option<Seq<u8>>,
    pub top_logprobs: Seq<TopLogProbView>,
}

impl DeepView for ChatLogProbsContent {
    type V = ChatLogProbsContentView;

    open spec fn deep_view(&self) -> ChatLogProbsContentView {
        ChatLogProbsContentView {
            token: self.token.deep_view(),
            logprob: self.logprob.deep_view(),
            bytes: self.bytes.deep_view(),
            top_logprobs: self.top_logprobs.deep_view(),
        }
    }
}

impl Duplicate for ChatLogProbsContent {
    fn duplicate(&self) -> (r: ChatLogProbsContent) {
        ChatLogProbsContent {
            token: self.token.duplicate(),
            logprob: self.logprob,
            bytes: self.bytes.duplicate(),
            top_logprobs: self.top_logprobs.duplicate(),
        }
    }
}

/// The log probabilities of an answer.
#[derive(Debug)]
pub enum ChatLogProbs {
    Detailed { content: Option<Vec<ChatLogProbsContent>> },
}

/// What a `ChatLogProbs` says.
#[verifier::ext_equal]
pub enum ChatLogProbsView {
    Detailed { content: Option<Seq<ChatLogProbsContentView>> },
}

impl DeepView for ChatLogProbs {
    type V = ChatLogProbsView;

    open spec fn deep_view(&self) -> ChatLogProbsView {
        match *self {
            ChatLogProbs::Detailed { content } => ChatLogProbsView::Detailed {
                content: content.deep_view(),
            },
        }
    }
}

impl Duplicate for ChatLogProbs {
    fn duplicate(&self) -> (r: ChatLogProbs) {
        match self {
            ChatLogProbs::Detailed { content } => ChatLogProbs::Detailed {
                content: content.duplicate(),
            },
        }
    }
}

/// Token counts of a chat completion.
#[derive(Clone, Copy, Debug)]
pub struct Usage {
    pub prompt_tokens: u32,
    pub completion_tokens: u32,
    pub total_tokens: u32,
    pub completion_tokens_details: Option<CompletionTokensDetails>,
}

#[derive(Clone, Copy, Debug)]
pub struct CompletionTokensDetails {
    pub reasoning_tokens: Option<u32>,
}

/// Token counts of a response.
#[derive(Clone, Copy, Debug)]
pub struct UsageInfo {
    pub prompt_tokens: u32,
    pub completion_tokens: u32,
    pub total_tokens: u32,
    pub reasoning_tokens: Option<u32>,
    pub prompt_tokens_details: Option<PromptTokenUsageInfo>,
}

#[derive(Clone, Copy, Debug)]
pub struct PromptTokenUsageInfo {
    pub cached_tokens: u32,
}

/// A value of a request together with its JSON form, which a response repeats or a template
/// renders.
#[derive(Debug)]
pub struct Encoded<T> {
    pub value: T,
    pub json: Json,
}

/// What an `Encoded` says.
#[verifier::ext_equal]
pub struct EncodedView<V> {
    pub value: V,
    pub json: JsonView,
}

impl<T: DeepView> DeepView for Encoded<T> {
    type V = EncodedView<T::V>;

    open spec fn deep_view(&self) -> EncodedView<T::V> {
        EncodedView { value: self.value.deep_view(), json: self.json.deep_view() }
    }
}

impl<T: Duplicate> Duplicate for Encoded<T> {
    fn duplicate(&self) -> (r: Encoded<T>) {
        Encoded { value: self.value.duplicate(), json: self.json.duplicate() }
    }
}

} // verus!
