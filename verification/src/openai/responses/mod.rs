//! The `/v1/responses` endpoint, backed by the chat pipeline.

pub mod accumulator;
pub mod call_laws;
pub mod chunk_events;
pub mod conversion_laws;
pub mod conversions;
pub mod delta_laws;
pub mod emission_laws;
pub mod emitter;
pub mod event_laws;
pub mod gather_laws;
pub mod handlers;
pub mod non_streaming;
pub mod number_laws;
pub mod persistence;
pub mod reading_laws;
pub mod retrieve;
pub mod step_laws;
pub mod streaming;
