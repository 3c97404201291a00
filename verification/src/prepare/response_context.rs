//! Transport-neutral response context: everything the render layer needs to turn a token
//! stream into a response.

use std::sync::Arc;
use vstd::prelude::*;

use super::chat_template::ProcessedMessages;
use super::stop_decoder_builder::StopDecoderConfig;
use crate::protocols::chat::ChatCompletionRequest;
use crate::protocols::generate::GenerateRequest;

verus! {

/// The request that is being answered.
pub enum ProtocolRequest {
    Chat(Arc<ChatCompletionRequest>),
    Generate(Arc<GenerateRequest>),
}

impl ProtocolRequest {
    pub fn is_streaming(&self) -> (r: bool)
        ensures
            r == (match *self {
                ProtocolRequest::Chat(req) => req.stream,
                ProtocolRequest::Generate(req) => req.stream,
            }),
    {
        match self {
            ProtocolRequest::Chat(req) => req.stream,
            ProtocolRequest::Generate(req) => req.stream,
        }
    }
}

pub struct ResponseContext<'a, T> {
    pub original: ProtocolRequest,
    pub model_id: Option<String>,
    pub original_text: Option<String>,
    pub processed_messages: Option<ProcessedMessages>,
    pub tokenizer: &'a T,
    pub stop_decoder: StopDecoderConfig,
    pub request_id: String,
    /// When the request was prepared, in seconds since the epoch.
    pub created: u64,
}

/// An answer is streamed if and only if its request, of whichever kind, asks for that.
pub proof fn law_request_says_whether_it_streams(original: &ProtocolRequest, r: bool)
    requires
        call_ensures(ProtocolRequest::is_streaming, (original,), r),
    ensures
        *original matches ProtocolRequest::Chat(req) ==> r == req.stream,
        *original matches ProtocolRequest::Generate(req) ==> r == req.stream,
{
}

} // verus!
