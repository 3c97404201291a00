//! The router to gRPC workers.

use vstd::prelude::*;

use super::pipeline::Backend;
use super::pipeline::Pipeline;
use crate::comm::error;
use crate::comm::error::ErrorResponse;
use crate::protocols::generate::GenerateRequest;

verus! {

/// Routes requests to single gRPC workers.
#[derive(Clone, Copy, Debug)]
pub struct GrpcRouter {
    pub pipeline: Pipeline,
}

impl GrpcRouter {
    /// A router needs a factory of reasoning parsers and one of tool parsers.
    pub fn new(has_reasoning_parsers: bool, has_tool_parsers: bool) -> (r: Result<Self, String>)
        ensures
            match r {
                Ok(router) => {
                    &&& has_reasoning_parsers
                    &&& has_tool_parsers
                    &&& router.pipeline.backend == Backend::Regular
                },
                Err(e) => if !has_reasoning_parsers {
                    e@ == "gRPC router requires reasoning parser factory"@
                } else {
                    &&& !has_tool_parsers
                    &&& e@ == "gRPC router requires tool parser factory"@
                },
            },
    {
        if !has_reasoning_parsers {
            return Err("gRPC router requires reasoning parser factory".to_owned());
        }
        if !has_tool_parsers {
            return Err("gRPC router requires tool parser factory".to_owned());
        }
        Ok(GrpcRouter { pipeline: Pipeline::new_regular() })
    }

    pub fn router_type(&self) -> (r: &'static str)
        ensures
            r@ == "grpc"@,
    {
        "grpc"
    }

    /// A completion is answered as the generate request that it was made into, where it
    /// could be.
    pub fn route_completion(&self, converted: Result<GenerateRequest, String>) -> (r: Result<
        GenerateRequest,
        ErrorResponse,
    >)
        ensures
            match (converted, r) {
                (Ok(req), Ok(routed)) => routed == req,
                (Err(m), Err(e)) => e.is(400, "completion_unsupported_field"@, m@),
                _ => false,
            },
    {
        match converted {
            Ok(req) => Ok(req),
            Err(m) => Err(error::bad_request("completion_unsupported_field", m)),
        }
    }
}

/// A router is made only where both factories are there, and then asks single workers.
pub proof fn law_router_needs_both_factories(
    has_reasoning_parsers: bool,
    has_tool_parsers: bool,
    r: Result<GrpcRouter, String>,
)
    requires
        call_ensures(GrpcRouter::new, (has_reasoning_parsers, has_tool_parsers), r),
    ensures
        r is Ok <==> has_reasoning_parsers && has_tool_parsers,
        r matches Ok(router) ==> router.pipeline.backend == Backend::Regular,
        r matches Err(e) ==> (if has_reasoning_parsers {
            e@ == "gRPC router requires tool parser factory"@
        } else {
            e@ == "gRPC router requires reasoning parser factory"@
        }),
{
}

/// A completion that was made into a generate request is answered as that request; one that
/// could not be is refused with the reason.
pub proof fn law_completion_is_routed_as_made(
    router: &GrpcRouter,
    converted: Result<GenerateRequest, String>,
    r: Result<GenerateRequest, ErrorResponse>,
)
    requires
        call_ensures(GrpcRouter::route_completion, (router, converted), r),
    ensures
        converted matches Ok(req) ==> r == Ok::<GenerateRequest, ErrorResponse>(req),
        converted matches Err(why) ==> (r matches Err(e) && e.status == 400 && e.code@
            == "completion_unsupported_field"@ && e.message@ == why@),
{
}

} // verus!
