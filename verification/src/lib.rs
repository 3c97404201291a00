pub mod comm;
pub mod duplicate;
pub mod float;
pub mod grpc;
pub mod ids;
pub mod json;
pub mod openai;
pub mod prepare;
pub mod protocols;
pub mod render;
pub mod text;
pub mod token_handle;
pub mod tokenizer;
