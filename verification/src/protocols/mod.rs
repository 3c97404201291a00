//! The requests and responses of the HTTP endpoints, with the fields that this
//! crate reads and writes.

use vstd::prelude::*;

pub mod chat;
pub mod common;
pub mod generate;
pub mod responses;

verus! {

/// The model named where a request names none.
pub const UNKNOWN_MODEL_ID: &'static str = "unknown";

} // verus!
