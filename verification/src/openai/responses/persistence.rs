//! What a response needs of its request's tools, and which responses are kept.

use vstd::prelude::*;

use crate::duplicate::Duplicate;
use crate::protocols::common::Tool;
use crate::protocols::common::ToolView;
use crate::protocols::responses::ResponseTool;
use crate::protocols::responses::ResponseToolType;
use crate::protocols::responses::ResponseToolView;
use crate::protocols::responses::ResponsesRequest;

verus! {

/// Whether the response to a request is kept. It is, unless the request says otherwise.
pub fn is_kept(request: &ResponsesRequest) -> (r: bool)
    ensures
        r == (request.store != Some(false)),
{
    request.store.unwrap_or(true)
}

/// The chat tool of a tool that is a function.
pub open spec fn function_tool(tool: ResponseToolView) -> Option<ToolView> {
    match (tool.tool_type, tool.function) {
        (ResponseToolType::Function, Some(function)) => Some(
            ToolView { tool_type: "function"@, function },
        ),
        _ => None,
    }
}

/// The chat tools of the tools that are functions, in their order.
pub open spec fn function_tools(tools: Seq<ResponseToolView>) -> Seq<ToolView>
    decreases tools.len(),
{
    if tools.len() == 0 {
        Seq::empty()
    } else {
        match function_tool(tools.last()) {
            Some(t) => function_tools(tools.drop_last()).push(t),
            None => function_tools(tools.drop_last()),
        }
    }
}

/// Only function tools reach the chat pipeline.
pub fn extract_tools_from_response_tools(tools: Option<&Vec<ResponseTool>>) -> (r: Vec<Tool>)
    ensures
        r.deep_view() == (match tools {
            Some(t) => function_tools(t.deep_view()),
            None => Seq::empty(),
        }),
{
    let mut out: Vec<Tool> = Vec::new();
    if let Some(tools) = tools {
        let ghost all = tools.deep_view();
        for i in 0..tools.len()
            invariant
                all == tools.deep_view(),
                out.deep_view() =~= function_tools(all.take(i as int)),
        {
            let ghost before = out.deep_view();
            assert(all.take(i + 1).drop_last() =~= all.take(i as int));
            if let (ResponseToolType::Function, Some(function)) = (
                tools[i].tool_type,
                &tools[i].function,
            ) {
                out.push(
                    Tool { tool_type: "function".to_owned(), function: function.duplicate() },
                );
                assert(out.deep_view() =~= before.push(function_tool(all[i as int])->0));
            }
        }
        assert(all.take(all.len() as int) =~= all);
    }
    out
}

/// A response is kept unless its request says that it is not to be.
pub proof fn law_response_is_kept_unless_refused(request: &ResponsesRequest, r: bool)
    requires
        call_ensures(is_kept, (request,), r),
    ensures
        r <==> request.store != Some(false),
{
}

} // verus!
