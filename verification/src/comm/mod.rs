pub mod error;
pub mod placement_response;
pub mod sse;
