//! The gRPC engine.

pub mod dispatch;
pub mod payload_to_proto;
pub mod pd_stream_merge;
pub mod proto;
pub mod proto_stream_wrapper;
pub mod proto_to_chunk;
pub mod worker_client_cache;
