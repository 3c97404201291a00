pub mod engine;
pub mod pipeline;
pub mod router;
