//! Chat requests together with the JSON forms of their messages and tools.

use std::sync::Arc;
use vstd::prelude::*;

use super::tool_constraints;
use super::tool_constraints::filter_tools_by_tool_choice;
use crate::duplicate::Duplicate;
use crate::json;
use crate::json::Json;
use crate::json::JsonView;
use crate::protocols::chat::ChatCompletionRequest;
use crate::protocols::common::Encoded;
use crate::protocols::common::EncodedView;
use crate::protocols::common::Tool;
use crate::protocols::common::ToolChoice;
use crate::protocols::common::ToolChoiceView;
use crate::protocols::common::ToolView;

verus! {

/// A chat request with the JSON form of each of its messages, and with the tools that
/// count, each beside its JSON form: all of the request, or those that its tool choice
/// leaves.
pub struct EncodedChat {
    request: Arc<ChatCompletionRequest>,
    messages: Vec<Json>,
    tools: Option<Vec<Encoded<Tool>>>,
}

/// What an `EncodedChat` says.
#[verifier::ext_equal]
pub struct EncodedChatView {
    pub request: ChatCompletionRequest,
    pub messages: Seq<JsonView>,
    pub tools: Option<Seq<EncodedView<ToolView>>>,
}

/// The tools of pairs.
pub open spec fn values(tools: Seq<EncodedView<ToolView>>) -> Seq<ToolView> {
    tools.map_values(|t: EncodedView<ToolView>| t.value)
}

/// The JSON forms of pairs.
pub open spec fn forms(tools: Seq<EncodedView<ToolView>>) -> Seq<JsonView> {
    tools.map_values(|t: EncodedView<ToolView>| t.json)
}

pub open spec fn opt_values(tools: Option<Seq<EncodedView<ToolView>>>) -> Option<Seq<ToolView>> {
    match tools {
        Some(t) => Some(values(t)),
        None => None,
    }
}

pub open spec fn opt_forms(tools: Option<Seq<EncodedView<ToolView>>>) -> Option<Seq<JsonView>> {
    match tools {
        Some(t) => Some(forms(t)),
        None => None,
    }
}

/// Whether these can be the forms of the messages and tools of a request: there is one for
/// each.
pub open spec fn fits(
    request: ChatCompletionRequest,
    messages: Seq<Json>,
    tools: Option<Vec<Json>>,
) -> bool {
    &&& messages.len() == request.messages@.len()
    &&& match (request.tools, tools) {
        (Some(t), Some(j)) => t@.len() == j@.len(),
        (None, None) => true,
        _ => false,
    }
}

impl EncodedChatView {
    /// The tools that the tool choice leaves.
    pub open spec fn left_tools(self) -> Option<Seq<EncodedView<ToolView>>> {
        match self.tools {
            Some(tools) => if tool_constraints::narrows(self.request.tool_choice.deep_view()) {
                Some(
                    tool_constraints::allowed_pairs(
                        tools,
                        self.request.tool_choice.deep_view()->0,
                    ),
                )
            } else {
                Some(tools)
            },
            None => None,
        }
    }
}

impl View for EncodedChat {
    type V = EncodedChatView;

    closed spec fn view(&self) -> EncodedChatView {
        EncodedChatView {
            request: *self.request,
            messages: json::array_view(self.messages@),
            tools: self.tools.deep_view(),
        }
    }
}

/// The pairs that the choice leaves hold the tools that it leaves.
proof fn lemma_allowed_values(
    tools: Seq<EncodedView<ToolView>>,
    choice: ToolChoiceView,
)
    ensures
        values(tool_constraints::allowed_pairs(tools, choice)) == tool_constraints::allowed_tools(
            values(tools),
            choice,
        ),
    decreases tools.len(),
{
    if tools.len() == 0 {
        assert(values(tools) =~= Seq::empty());
    } else {
        let init = tools.drop_last();
        lemma_allowed_values(init, choice);
        assert(values(tools).drop_last() =~= values(init));
        let left = tool_constraints::allowed_pairs(init, choice);
        assert(values(left.push(tools.last())) =~= values(left).push(tools.last().value));
    }
}

/// What the choice leaves, it leaves again.
proof fn lemma_allowed_again(
    tools: Seq<ToolView>,
    choice: ToolChoiceView,
)
    ensures
        tool_constraints::allowed_tools(
            tool_constraints::allowed_tools(tools, choice),
            choice,
        ) == tool_constraints::allowed_tools(tools, choice),
    decreases tools.len(),
{
    if tools.len() > 0 {
        let init = tools.drop_last();
        lemma_allowed_again(init, choice);
        let left = tool_constraints::allowed_tools(init, choice);
        assert(left.push(tools.last()).drop_last() =~= left);
    }
}

impl EncodedChat {
    /// There is a form for each message. The tools are those of the request, or those that
    /// its tool choice leaves.
    #[verifier::type_invariant]
    spec fn agrees(self) -> bool {
        let tools = opt_values(self.tools.deep_view());
        &&& self.messages@.len() == self.request.messages@.len()
        &&& tools == self.request.tools.deep_view() || tools == tool_constraints::effective_tools(
            *self.request,
        )
    }

    /// Pairs the messages and tools of a request with their forms, given in the same order.
    /// There has to be one for each.
    pub fn new(
        request: Arc<ChatCompletionRequest>,
        messages: Vec<Json>,
        tools: Option<Vec<Json>>,
    ) -> (r: Option<Self>)
        ensures
            r is Some == fits(*request, messages@, tools),
            r matches Some(chat) ==> {
                &&& chat@.request == *request
                &&& chat@.messages == json::array_view(messages@)
                &&& opt_values(chat@.tools) == request.tools.deep_view()
                &&& opt_forms(chat@.tools) == (match tools {
                    Some(t) => Some(json::array_view(t@)),
                    None => None,
                })
            },
    {
        if messages.len() != request.messages.len() {
            return None;
        }
        let paired: Option<Vec<Encoded<Tool>>> = match (&request.tools, tools) {
            (Some(all), Some(given)) => {
                if all.len() != given.len() {
                    return None;
                }
                let ghost said = all.deep_view();
                let ghost shown = json::array_view(given@);
                let mut out: Vec<Encoded<Tool>> = Vec::new();
                for i in 0..all.len()
                    invariant
                        all@.len() == given@.len(),
                        said == all.deep_view(),
                        shown == json::array_view(given@),
                        out@.len() == i,
                        forall|j: int|
                            0 <= j < i ==> {
                                &&& (#[trigger] out@[j]).value.deep_view() == said[j]
                                &&& out@[j].json@ == shown[j]
                            },
                {
                    out.push(Encoded { value: all[i].duplicate(), json: given[i].copy() });
                }
                assert(values(out.deep_view()) =~= said);
                assert(forms(out.deep_view()) =~= shown);
                Some(out)
            },
            (None, None) => None,
            _ => return None,
        };
        Some(EncodedChat { request, messages, tools: paired })
    }

    pub fn request(&self) -> (r: &ChatCompletionRequest)
        ensures
            *r == self@.request,
    {
        &self.request
    }

    pub fn messages(&self) -> (r: &Vec<Json>)
        ensures
            json::array_view(r@) == self@.messages,
            r@.len() == self@.request.messages@.len(),
    {
        proof {
            use_type_invariant(self);
        }
        &self.messages
    }

    /// The tools that count.
    pub fn tools(&self) -> (r: Option<Vec<Tool>>)
        ensures
            r.deep_view() == opt_values(self@.tools),
    {
        match &self.tools {
            Some(tools) => {
                let mut out: Vec<Tool> = Vec::new();
                for i in 0..tools.len()
                    invariant
                        out@.len() == i,
                        forall|j: int|
                            0 <= j < i ==> (#[trigger] out@[j]).deep_view()
                                == tools@[j].value.deep_view(),
                {
                    out.push(tools[i].value.duplicate());
                }
                assert(out.deep_view() =~= values(tools.deep_view()));
                Some(out)
            },
            None => None,
        }
    }

    /// The JSON forms of the tools that count.
    pub fn tool_forms(&self) -> (r: Option<Vec<Json>>)
        ensures
            match r {
                Some(t) => opt_forms(self@.tools) == Some(json::array_view(t@)),
                None => opt_forms(self@.tools) is None,
            },
    {
        match &self.tools {
            Some(tools) => {
                let mut out: Vec<Json> = Vec::new();
                for i in 0..tools.len()
                    invariant
                        out@.len() == i,
                        forall|j: int| 0 <= j < i ==> (#[trigger] out@[j])@ == tools@[j].json@,
                {
                    out.push(tools[i].json.copy());
                }
                assert(json::array_view(out@) =~= forms(tools.deep_view()));
                Some(out)
            },
            None => None,
        }
    }

    /// The request alone.
    pub fn into_request(self) -> (r: Arc<ChatCompletionRequest>)
        ensures
            *r == self@.request,
    {
        self.request
    }
}

/// The request with its tools narrowed by its tool choice. Without tools, or with a
/// choice that narrows nothing, it stays as it is.
pub fn filter_chat_request_by_tool_choice(body: EncodedChat) -> (r: EncodedChat)
    ensures
        r@ == (EncodedChatView { tools: body@.left_tools(), ..body@ }),
        opt_values(r@.tools) == tool_constraints::effective_tools(body@.request),
{
    proof {
        use_type_invariant(&body);
        if let Some(tools) = body@.tools {
            if tool_constraints::narrows(body@.request.tool_choice.deep_view()) {
                let choice = body@.request.tool_choice.deep_view()->0;
                lemma_allowed_values(tools, choice);
                lemma_allowed_again(body@.request.tools.deep_view()->0, choice);
            }
        }
    }
    let narrowed = match &body.tools {
        Some(tools) => filter_tools_by_tool_choice(tools, &body.request.tool_choice),
        None => None,
    };
    let EncodedChat { request, messages, tools } = body;
    let tools = match narrowed {
        Some(left) => Some(left),
        None => tools,
    };
    EncodedChat { request, messages, tools }
}

proof fn lemma_left_named(
    tools: Seq<EncodedView<ToolView>>,
    choice: ToolChoice,
)
    requires
        choice !is Value,
    ensures
        ({
            let left = tool_constraints::allowed_pairs(tools, choice.deep_view());
            &&& left.len() <= tools.len()
            &&& forall|i: int|
                0 <= i < left.len() ==> tools.contains(#[trigger] left[i])
                    && tool_constraints::names(choice, left[i].value.function.name)
            &&& forall|i: int|
                0 <= i < tools.len() && tool_constraints::names(
                    choice,
                    (#[trigger] tools[i]).value.function.name,
                ) ==> left.contains(tools[i])
        }),
    decreases tools.len(),
{
    if tools.len() > 0 {
        let init = tools.drop_last();
        let last = tools.last();
        lemma_left_named(init, choice);
        tool_constraints::lemma_choice_names(choice, last.value.function.name);
        let before = tool_constraints::allowed_pairs(init, choice.deep_view());
        let left = tool_constraints::allowed_pairs(tools, choice.deep_view());
        assert(tools[tools.len() - 1] == last);
        assert forall|i: int| 0 <= i < left.len() implies tools.contains(#[trigger] left[i])
            && tool_constraints::names(choice, left[i].value.function.name) by {
            if i < before.len() {
                assert(left[i] == before[i]);
                let j = choose|j: int| 0 <= j < init.len() && init[j] == before[i];
                assert(tools[j] == before[i]);
            }
        }
        assert forall|i: int|
            0 <= i < tools.len() && tool_constraints::names(
                choice,
                (#[trigger] tools[i]).value.function.name,
            ) implies left.contains(tools[i]) by {
            if i < init.len() {
                assert(init[i] == tools[i]);
                let j = choose|j: int| 0 <= j < before.len() && before[j] == init[i];
                assert(left[j] == tools[i]);
            } else {
                assert(left[left.len() - 1] == last);
            }
        }
    }
}

/// The tools that a request is left with are those that its tool choice names, each beside its
/// own form, where it names any tools, and all of them otherwise. Nothing else of the request
/// changes.
pub proof fn law_request_is_left_with_the_tools_that_its_choice_names(
    body: EncodedChat,
    r: EncodedChat,
)
    requires
        call_ensures(filter_chat_request_by_tool_choice, (body,), r),
    ensures
        r@.request == body@.request,
        r@.messages == body@.messages,
        r@.tools is Some == body@.tools is Some,
        body@.tools is Some ==> {
            let (all, left) = (body@.tools->0, r@.tools->0);
            match body@.request.tool_choice {
                None => left == all,
                Some(ToolChoice::Value(_)) => left == all,
                Some(choice) => {
                    &&& left.len() <= all.len()
                    &&& forall|i: int|
                        0 <= i < left.len() ==> all.contains(#[trigger] left[i])
                            && tool_constraints::names(choice, left[i].value.function.name)
                    &&& forall|i: int|
                        0 <= i < all.len() && tool_constraints::names(
                            choice,
                            (#[trigger] all[i]).value.function.name,
                        ) ==> left.contains(all[i])
                },
            }
        },
{
    if let Some(all) = body@.tools {
        if let Some(choice) = body@.request.tool_choice {
            if choice !is Value {
                lemma_left_named(all, choice);
            }
        }
    }
}

/// Each message and each tool of a request has its own form, given in the same order.
pub proof fn law_forms_belong_to_the_messages_and_tools(
    request: Arc<ChatCompletionRequest>,
    messages: Vec<Json>,
    tools: Option<Vec<Json>>,
    r: Option<EncodedChat>,
)
    requires
        call_ensures(EncodedChat::new, (request, messages, tools), r),
    ensures
        r is Some <==> {
            &&& messages@.len() == request.messages@.len()
            &&& tools is Some == request.tools is Some
            &&& tools is Some ==> tools->0@.len() == request.tools->0@.len()
        },
        r matches Some(chat) ==> {
            &&& chat@.request == *request
            &&& chat@.messages.len() == messages@.len()
            &&& forall|i: int|
                0 <= i < messages@.len() ==> #[trigger] chat@.messages[i] == messages@[i]@
            &&& chat@.tools is Some == tools is Some
            &&& tools is Some ==> {
                &&& chat@.tools->0.len() == tools->0@.len()
                &&& forall|i: int|
                    0 <= i < tools->0@.len() ==> {
                        &&& (#[trigger] chat@.tools->0[i]).value
                            == request.tools->0@[i].deep_view()
                        &&& chat@.tools->0[i].json == tools->0@[i]@
                    }
            }
        },
{
    if let Some(chat) = r {
        if let Some(given) = tools {
            let pairs = chat@.tools->0;
            assert(values(pairs) == request.tools->0.deep_view());
            assert(forms(pairs) == json::array_view(given@));
            assert forall|i: int| 0 <= i < given@.len() implies (#[trigger] pairs[i]).value
                == request.tools->0@[i].deep_view() && pairs[i].json == given@[i]@ by {
                assert(values(pairs)[i] == pairs[i].value);
                assert(forms(pairs)[i] == pairs[i].json);
            }
            assert(values(pairs).len() == pairs.len());
        }
    }
}

proof fn lemma_left_in_order(tools: Seq<EncodedView<ToolView>>, choice: ToolChoice)
    requires
        choice !is Value,
    ensures
        tool_constraints::allowed_pairs(tools, choice.deep_view()) == tools.filter(
            |t: EncodedView<ToolView>| tool_constraints::names(choice, t.value.function.name),
        ),
    decreases tools.len(),
{
    reveal(Seq::filter);
    if tools.len() > 0 {
        lemma_left_in_order(tools.drop_last(), choice);
        tool_constraints::lemma_choice_names(choice, tools.last().value.function.name);
    } else {
        assert(tools =~= Seq::empty());
    }
}

/// The tools that a request is left with keep their order, and come as often as they did.
pub proof fn law_tools_left_keep_their_order(body: EncodedChat, r: EncodedChat)
    requires
        call_ensures(filter_chat_request_by_tool_choice, (body,), r),
        body@.tools is Some,
        body@.request.tool_choice matches Some(choice) && choice !is Value,
    ensures
        r@.tools == Some(
            body@.tools->0.filter(
                |t: EncodedView<ToolView>|
                    tool_constraints::names(
                        body@.request.tool_choice->0,
                        t.value.function.name,
                    ),
            ),
        ),
{
    lemma_left_in_order(body@.tools->0, body@.request.tool_choice->0);
}

/// A paired request hands out what it was made of: the request itself, and the tools and their
/// forms, each list in the order of the other.
pub proof fn law_paired_request_hands_out_its_parts(
    chat: &EncodedChat,
    request: &ChatCompletionRequest,
    messages: &Vec<Json>,
    tools: Option<Vec<Tool>>,
    forms: Option<Vec<Json>>,
    own: Arc<ChatCompletionRequest>,
)
    requires
        call_ensures(EncodedChat::request, (chat,), request),
        call_ensures(EncodedChat::messages, (chat,), messages),
        call_ensures(EncodedChat::tools, (chat,), tools),
        call_ensures(EncodedChat::tool_forms, (chat,), forms),
        call_ensures(EncodedChat::into_request, (*chat,), own),
    ensures
        *request == chat@.request,
        *own == chat@.request,
        messages@.len() == chat@.messages.len(),
        forall|i: int|
            0 <= i < messages@.len() ==> (#[trigger] messages@[i])@ == chat@.messages[i],
        tools is Some <==> chat@.tools is Some,
        forms is Some <==> chat@.tools is Some,
        chat@.tools matches Some(pairs) ==> {
            &&& tools->0@.len() == pairs.len()
            &&& forms->0@.len() == pairs.len()
            &&& forall|i: int|
                0 <= i < pairs.len() ==> tools->0@[i].deep_view() == (#[trigger] pairs[i]).value
                    && forms->0@[i]@ == pairs[i].json
        },
{
    let views = json::array_view(messages@);
    assert(views.len() == messages@.len());
    assert forall|i: int| 0 <= i < messages@.len() implies (#[trigger] messages@[i])@
        == chat@.messages[i] by {
        assert(views[i] == messages@[i]@);
    }
    if let Some(pairs) = chat@.tools {
        let a = tools->0.deep_view();
        let b = json::array_view(forms->0@);
        assert(a == values(pairs));
        assert(b == self::forms(pairs));
        assert(a.len() == tools->0@.len());
        assert(b.len() == forms->0@.len());
        assert forall|i: int| 0 <= i < pairs.len() implies tools->0@[i].deep_view() == (
        #[trigger] pairs[i]).value && forms->0@[i]@ == pairs[i].json by {
            assert(a[i] == tools->0@[i].deep_view());
            assert(b[i] == forms->0@[i]@);
            assert(values(pairs)[i] == pairs[i].value);
            assert(self::forms(pairs)[i] == pairs[i].json);
        }
    }
}

} // verus!
