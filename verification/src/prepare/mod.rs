//! Transport-neutral request preparation: from an HTTP request to a generation payload
//! and a response context.

pub mod chat_template;
pub mod encoded_chat;
pub mod generation_payload;
pub mod payload_builder;
pub mod request;
pub mod response_context;
pub mod stop_decoder_builder;
pub mod tool_constraints;
