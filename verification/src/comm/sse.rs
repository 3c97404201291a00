//! The head of a response that is streamed as server-sent events.

use vstd::prelude::*;

verus! {

/// Status and headers of a streamed response.
#[derive(Clone, Copy, Debug)]
pub struct SseHead {
    pub status: u16,
    pub content_type: &'static str,
    pub cache_control: &'static str,
    pub connection: &'static str,
}

/// An event stream that is not cached and whose connection stays open.
pub fn build_sse_response() -> (r: SseHead)
    ensures
        r.status == 200,
        r.content_type@ == "text/event-stream"@,
        r.cache_control@ == "no-cache"@,
        r.connection@ == "keep-alive"@,
{
    SseHead {
        status: 200,
        content_type: "text/event-stream",
        cache_control: "no-cache",
        connection: "keep-alive",
    }
}

/// A streamed response is a success, tells that events follow, and is neither cached nor
/// closed.
pub proof fn law_stream_head(r: SseHead)
    requires
        call_ensures(build_sse_response, (), r),
    ensures
        200 <= r.status < 300,
        r.content_type@ == "text/event-stream"@,
        r.cache_control@ == "no-cache"@,
        r.connection@ == "keep-alive"@,
{
}

} // verus!
