//! Chat completions: `/v1/chat/completions`.

use vstd::prelude::*;

use super::common::ChatLogProbs;
use super::common::ResponseFormat;
use super::common::StreamOptions;
use super::common::StringOrArray;
use super::common::Tool;
use super::common::ToolCall;
use super::common::ToolCallView;
use super::common::ToolChoice;
use super::common::Usage;
use crate::duplicate::Duplicate;
use crate::float::F32;
use crate::json::Json;

verus! {

/// Where an image is found.
#[derive(Debug)]
pub struct ImageUrl {
    pub url: String,
    pub detail: Option<String>,
}

/// What an `ImageUrl` says.
#[verifier::ext_equal]
pub struct ImageUrlView {
    pub url: Seq<char>,
    pub detail: Option<Seq<char>>,
}

impl DeepView for ImageUrl {
    type V = ImageUrlView;

    open spec fn deep_view(&self) -> ImageUrlView {
        ImageUrlView {
            url: self.url.deep_view(),
            detail: self.detail.deep_view(),
        }
    }
}

impl Duplicate for ImageUrl {
    fn duplicate(&self) -> (r: ImageUrl) {
        ImageUrl {
            url: self.url.duplicate(),
            detail: self.detail.duplicate(),
        }
    }
}

/// One part of a message.
#[derive(Debug)]
pub enum ContentPart {
    Text { text: String },
    ImageUrl { image_url: ImageUrl },
}

/// What a `ContentPart` says.
#[verifier::ext_equal]
pub enum ContentPartView {
    Text { text: Seq<char> },
    ImageUrl { image_url: ImageUrlView },
}

impl DeepView for ContentPart {
    type V = ContentPartView;

    open spec fn deep_view(&self) -> ContentPartView {
        match *self {
            ContentPart::Text { text } => ContentPartView::Text {
                text: text.deep_view(),
            },
            ContentPart::ImageUrl { image_url } => ContentPartView::ImageUrl {
                image_url: image_url.deep_view(),
            },
        }
    }
}

impl Duplicate for ContentPart {
    fn duplicate(&self) -> (r: ContentPart) {
        match self {
            ContentPart::Text { text } => ContentPart::Text {
                text: text.duplicate(),
            },
            ContentPart::ImageUrl { image_url } => ContentPart::ImageUrl {
                image_url: image_url.duplicate(),
            },
        }
    }
}

/// What a message says.
#[derive(Debug)]
pub enum MessageContent {
    Text(String),
    Parts(Vec<ContentPart>),
}

/// What a `MessageContent` says.
#[verifier::ext_equal]
pub enum MessageContentView {
    Text(Seq<char>),
    Parts(Seq<ContentPartView>),
}

impl DeepView for MessageContent {
    type V = MessageContentView;

    open spec fn deep_view(&self) -> MessageContentView {
        match *self {
            MessageContent::Text(x) => MessageContentView::Text(x.deep_view()),
            MessageContent::Parts(x) => MessageContentView::Parts(x.deep_view()),
        }
    }
}

impl Duplicate for MessageContent {
    fn duplicate(&self) -> (r: MessageContent) {
        match self {
            MessageContent::Text(x) => MessageContent::Text(x.duplicate()),
            MessageContent::Parts(x) => MessageContent::Parts(x.duplicate()),
        }
    }
}

/// A message of a conversation.
#[derive(Debug)]
#[allow(inconsistent_fields)]
pub enum ChatMessage {
    System { content: MessageContent, name: Option<String> },
    User { content: MessageContent, name: Option<String> },
    Assistant { content: Option<MessageContent>, name: Option<String>, tool_calls: Option<Vec<ToolCall>>, reasoning_content: Option<String> },
    Tool { content: MessageContent, tool_call_id: String },
}

/// What a `ChatMessage` says.
#[verifier::ext_equal]
#[allow(inconsistent_fields)]
pub enum ChatMessageView {
    System { content: MessageContentView, name: Option<Seq<char>> },
    User { content: MessageContentView, name: Option<Seq<char>> },
    Assistant { content: Option<MessageContentView>, name: Option<Seq<char>>, tool_calls: Option<Seq<ToolCallView>>, reasoning_content: Option<Seq<char>> },
    Tool { content: MessageContentView, tool_call_id: Seq<char> },
}

impl DeepView for ChatMessage {
    type V = ChatMessageView;

    open spec fn deep_view(&self) -> ChatMessageView {
        match *self {
            ChatMessage::System { content, name } => ChatMessageView::System {
                content: content.deep_view(),
                name: name.deep_view(),
            },
            ChatMessage::User { content, name } => ChatMessageView::User {
                content: content.deep_view(),
                name: name.deep_view(),
            },
            ChatMessage::Assistant { content, name, tool_calls, reasoning_content } => ChatMessageView::Assistant {
                content: content.deep_view(),
                name: name.deep_view(),
                tool_calls: tool_calls.deep_view(),
                reasoning_content: reasoning_content.deep_view(),
            },
            ChatMessage::Tool { content, tool_call_id } => ChatMessageView::Tool {
                content: content.deep_view(),
                tool_call_id: tool_call_id.deep_view(),
            },
        }
    }
}

impl Duplicate for ChatMessage {
    fn duplicate(&self) -> (r: ChatMessage) {
        match self {
            ChatMessage::System { content, name } => ChatMessage::System {
                content: content.duplicate(),
                name: name.duplicate(),
            },
            ChatMessage::User { content, name } => ChatMessage::User {
                content: content.duplicate(),
                name: name.duplicate(),
            },
            ChatMessage::Assistant { content, name, tool_calls, reasoning_content } => ChatMessage::Assistant {
                content: content.duplicate(),
                name: name.duplicate(),
                tool_calls: tool_calls.duplicate(),
                reasoning_content: reasoning_content.duplicate(),
            },
            ChatMessage::Tool { content, tool_call_id } => ChatMessage::Tool {
                content: content.duplicate(),
                tool_call_id: tool_call_id.duplicate(),
            },
        }
    }
}

/// A request for a chat completion.
#[derive(Debug)]
pub struct ChatCompletionRequest {
    pub messages: Vec<ChatMessage>,
    pub model: String,
    pub temperature: Option<F32>,
    pub top_p: Option<F32>,
    pub top_k: Option<i32>,
    pub min_p: Option<F32>,
    pub frequency_penalty: Option<F32>,
    pub presence_penalty: Option<F32>,
    pub repetition_penalty: Option<F32>,
    pub max_completion_tokens: Option<u32>,
    pub n: Option<u32>,
    pub ignore_eos: bool,
    pub stop: Option<StringOrArray>,
    pub stop_token_ids: Option<Vec<u32>>,
    pub skip_special_tokens: bool,
    pub no_stop_trim: bool,
    pub stream: bool,
    pub stream_options: Option<StreamOptions>,
    pub logprobs: bool,
    pub top_logprobs: Option<u32>,
    pub parallel_tool_calls: Option<bool>,
    pub tools: Option<Vec<Tool>>,
    pub tool_choice: Option<ToolChoice>,
    pub response_format: Option<ResponseFormat>,
    pub reasoning_effort: Option<String>,
    pub chat_template_kwargs: Option<Vec<(String, Json)>>,
    pub continue_final_message: bool,
    pub return_hidden_states: bool,
}

impl Default for ChatCompletionRequest {
    /// Everything absent, empty or off.
    fn default() -> (r: Self)
        ensures
            r.messages@.len() == 0,
            r.model@.len() == 0,
            r.temperature is None,
            r.top_p is None,
            r.top_k is None,
            r.min_p is None,
            r.frequency_penalty is None,
            r.presence_penalty is None,
            r.repetition_penalty is None,
            r.max_completion_tokens is None,
            r.n is None,
            !r.ignore_eos,
            r.stop is None,
            r.stop_token_ids is None,
            !r.skip_special_tokens,
            !r.no_stop_trim,
            !r.stream,
            r.stream_options is None,
            !r.logprobs,
            r.top_logprobs is None,
            r.parallel_tool_calls is None,
            r.tools is None,
            r.tool_choice is None,
            r.response_format is None,
            r.reasoning_effort is None,
            r.chat_template_kwargs is None,
            !r.continue_final_message,
            !r.return_hidden_states,
    {
        ChatCompletionRequest {
            messages: Vec::new(),
            model: String::new(),
            temperature: None,
            top_p: None,
            top_k: None,
            min_p: None,
            frequency_penalty: None,
            presence_penalty: None,
            repetition_penalty: None,
            max_completion_tokens: None,
            n: None,
            ignore_eos: false,
            stop: None,
            stop_token_ids: None,
            skip_special_tokens: false,
            no_stop_trim: false,
            stream: false,
            stream_options: None,
            logprobs: false,
            top_logprobs: None,
            parallel_tool_calls: None,
            tools: None,
            tool_choice: None,
            response_format: None,
            reasoning_effort: None,
            chat_template_kwargs: None,
            continue_final_message: false,
            return_hidden_states: false,
        }
    }
}

/// The message of a finished choice.
#[derive(Debug)]
pub struct ChatCompletionMessage {
    pub role: String,
    pub content: Option<String>,
    pub tool_calls: Option<Vec<ToolCall>>,
    pub reasoning_content: Option<String>,
}

/// One of the answers.
#[derive(Debug)]
pub struct ChatChoice {
    pub index: u32,
    pub message: ChatCompletionMessage,
    pub logprobs: Option<ChatLogProbs>,
    pub finish_reason: Option<String>,
}

/// A finished chat completion.
#[derive(Debug)]
pub struct ChatCompletionResponse {
    pub id: String,
    pub model: String,
    pub created: u64,
    pub choices: Vec<ChatChoice>,
    pub usage: Option<Usage>,
}

/// More of the function of a tool call.
#[derive(Debug)]
pub struct FunctionCallDelta {
    pub name: Option<String>,
    pub arguments: Option<String>,
}

/// More of the tool call with this index.
#[derive(Debug)]
pub struct ToolCallDelta {
    pub index: u32,
    pub id: Option<String>,
    pub function: Option<FunctionCallDelta>,
}

/// More of the message of a choice.
#[derive(Debug)]
pub struct ChatMessageDelta {
    pub role: Option<String>,
    pub content: Option<String>,
    pub tool_calls: Option<Vec<ToolCallDelta>>,
    pub reasoning_content: Option<String>,
}

/// More of one of the answers.
#[derive(Debug)]
pub struct ChatStreamChoice {
    pub index: u32,
    pub delta: ChatMessageDelta,
    pub finish_reason: Option<String>,
}

/// One chunk of a streamed chat completion.
#[derive(Debug)]
pub struct ChatCompletionStreamResponse {
    pub id: String,
    pub created: u64,
    pub model: String,
    pub choices: Vec<ChatStreamChoice>,
    pub usage: Option<Usage>,
}

} // verus!
