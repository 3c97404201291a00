//! Tool-call constraint generation: turn the tool choice and the tool list into the JSON
//! schema that the worker enforces during sampling, and read what it sampled.

use vstd::prelude::*;
use vstd::string::StrSliceExecFns;
use vstd::string::StringExecFns;

use crate::duplicate::Duplicate;
use crate::ids;
use crate::json;
use crate::json::find;
use crate::json::put;
use crate::json::Json;
use crate::json::JsonView;
use crate::protocols::chat::ChatCompletionRequest;
use crate::protocols::chat::ChatMessage;
use crate::protocols::common::Encoded;
use crate::protocols::common::EncodedView;
use crate::protocols::common::FunctionCallResponse;
use crate::protocols::common::Tool;
use crate::protocols::common::ToolCall;
use crate::protocols::common::ToolChoice;
use crate::protocols::common::ToolChoiceValue;
use crate::protocols::common::ToolChoiceView;
use crate::protocols::common::ToolReference;
use crate::protocols::common::ToolReferenceView;
use crate::protocols::common::ToolView;
use crate::text;

verus! {

/// A text as JSON.
pub open spec fn str(s: Seq<char>) -> JsonView {
    JsonView::Str(s)
}

/// The schema of a call of a tool: its name, and parameters that follow its own schema.
pub open spec fn call_schema(tool: ToolView) -> JsonView {
    let name = JsonView::Object(
        Map::empty().insert("type"@, str("string"@)).insert(
            "enum"@,
            JsonView::Array(seq![str(tool.function.name)]),
        ),
    );
    let properties = JsonView::Object(
        Map::empty().insert("name"@, name).insert("parameters"@, tool.function.parameters),
    );
    JsonView::Object(
        Map::empty().insert("properties"@, properties).insert(
            "required"@,
            JsonView::Array(seq![str("name"@), str("parameters"@)]),
        ),
    )
}

/// The definitions that the schema of a tool's parameters brings along.
pub open spec fn tool_defs(tool: ToolView) -> Map<Seq<char>, JsonView> {
    match json::field(tool.function.parameters, "$defs"@) {
        Some(JsonView::Object(defs)) => defs,
        _ => Map::empty(),
    }
}

/// Whether a name is defined twice, and differently.
pub open spec fn conflicts(
    known: Map<Seq<char>, JsonView>,
    defs: Map<Seq<char>, JsonView>,
    name: Seq<char>,
) -> bool {
    &&& known.dom().contains(name)
    &&& defs.dom().contains(name)
    &&& json::settled(known[name]) != json::settled(defs[name])
}

/// Whether this is the first name, in the order of texts, that is defined differently.
pub open spec fn is_first_conflict(
    known: Map<Seq<char>, JsonView>,
    defs: Map<Seq<char>, JsonView>,
    name: Seq<char>,
) -> bool {
    &&& conflicts(known, defs, name)
    &&& forall|other: Seq<char>| #[trigger]
        conflicts(known, defs, other) ==> !text::precedes(other, name)
}

/// The definitions with more of them. What is already defined stays. The first name that
/// is defined differently is the error.
pub open spec fn with_defs(
    known: Map<Seq<char>, JsonView>,
    defs: Map<Seq<char>, JsonView>,
) -> Result<Map<Seq<char>, JsonView>, Seq<char>> {
    if exists|name: Seq<char>| #[trigger] conflicts(known, defs, name) {
        Err(choose|name: Seq<char>| #[trigger] is_first_conflict(known, defs, name))
    } else {
        Ok(defs.union_prefer_right(known))
    }
}

/// The definitions of all tools, or the name on which one of them disagrees with those
/// before it.
pub open spec fn all_defs(tools: Seq<ToolView>) -> Result<Map<Seq<char>, JsonView>, Seq<char>>
    decreases tools.len(),
{
    if tools.len() == 0 {
        Ok(Map::empty())
    } else {
        match all_defs(tools.drop_last()) {
            Ok(m) => with_defs(m, tool_defs(tools.last())),
            Err(name) => Err(name),
        }
    }
}

/// The schema of a non-empty list of calls of these tools.
pub open spec fn array_schema(
    tools: Seq<ToolView>,
    defs: Map<Seq<char>, JsonView>,
) -> JsonView {
    let items = JsonView::Object(
        Map::empty().insert("type"@, str("object"@)).insert(
            "anyOf"@,
            JsonView::Array(tools.map_values(|t: ToolView| call_schema(t))),
        ),
    );
    let base = Map::empty().insert("type"@, str("array"@)).insert(
        "minItems"@,
        JsonView::Number(text::decimal(1)),
    ).insert("items"@, items);
    JsonView::Object(
        if defs =~= Map::empty() {
            base
        } else {
            base.insert("$defs"@, JsonView::Object(defs))
        },
    )
}

/// The text of the schema for calls of these tools, or what is wrong with them.
pub open spec fn required_schema(tools: Seq<ToolView>) -> Result<Seq<char>, Seq<char>> {
    match all_defs(tools) {
        Ok(defs) => Ok(json::written(array_schema(tools, defs))),
        Err(name) => Err(
            "Tool definition '"@ + name
                + "' has multiple conflicting schemas, which is not supported"@,
        ),
    }
}

fn make_call_schema(tool: &Tool) -> (r: Json)
    ensures
        r@ == call_schema(tool.deep_view()),
{
    let mut names: Vec<Json> = Vec::new();
    names.push(Json::string(tool.function.name.as_str()));
    assert(json::array_view(names@) =~= seq![str(tool.function.name@)]);
    let mut name: Vec<(String, Json)> = Vec::new();
    put(&mut name, "type", Json::string("string"));
    put(&mut name, "enum", Json::Array(names));
    let mut properties: Vec<(String, Json)> = Vec::new();
    put(&mut properties, "name", Json::Object(name));
    put(&mut properties, "parameters", tool.function.parameters.copy());
    let mut required: Vec<Json> = Vec::new();
    required.push(Json::string("name"));
    required.push(Json::string("parameters"));
    assert(json::array_view(required@) =~= seq![str("name"@), str("parameters"@)]);
    let mut fields: Vec<(String, Json)> = Vec::new();
    put(&mut fields, "properties", Json::Object(properties));
    put(&mut fields, "required", Json::Array(required));
    Json::Object(fields)
}

proof fn lemma_first_conflict(
    known: Map<Seq<char>, JsonView>,
    defs: Map<Seq<char>, JsonView>,
    name: Seq<char>,
)
    requires
        is_first_conflict(known, defs, name),
    ensures
        with_defs(known, defs) == Err::<Map<Seq<char>, JsonView>, Seq<char>>(name),
{
    let chosen = choose|name: Seq<char>| #[trigger] is_first_conflict(known, defs, name);
    assert(conflicts(known, defs, name) && conflicts(known, defs, chosen));
    text::lemma_precedes_total(name, chosen);
}

/// Adds the definitions of a tool. The name on which they disagree with what is known is
/// the error.
fn add_defs(known: &mut Vec<(String, Json)>, tool: &Tool) -> (r: Result<(), String>)
    ensures
        match r {
            Ok(()) => with_defs(json::fields_view(old(known)@), tool_defs(tool.deep_view())) == Ok::<
                Map<Seq<char>, JsonView>,
                Seq<char>,
            >(json::fields_view(final(known)@)),
            Err(name) => with_defs(json::fields_view(old(known)@), tool_defs(tool.deep_view()))
                == Err::<Map<Seq<char>, JsonView>, Seq<char>>(name@),
        },
{
    let ghost start = json::fields_view(known@);
    let ghost more = tool_defs(tool.deep_view());
    let mut found: Vec<(String, Json)> = Vec::new();
    let mut conflict: Option<String> = None;
    if let Json::Object(params) = &tool.function.parameters {
        if let Some(Json::Object(defs)) = find(params, "$defs") {
            assert(defs@.take(0) =~= Seq::empty());
            let mut i: usize = 0;
            while i < defs.len()
                invariant
                    i <= defs@.len(),
                    start == json::fields_view(old(known)@),
                    *known == *old(known),
                    more == json::fields_view(defs@),
                    json::fields_view(found@).submap_of(more),
                    forall|name: Seq<char>| #[trigger]
                        json::fields_view(defs@.take(i as int)).dom().contains(name)
                            && !start.dom().contains(name) ==> json::fields_view(
                            found@,
                        ).dom().contains(name),
                    forall|name: Seq<char>| #[trigger]
                        json::fields_view(found@).dom().contains(name) ==> !start.dom().contains(
                            name,
                        ),
                    match conflict {
                        Some(first) => {
                            &&& conflicts(start, more, first@)
                            &&& forall|other: Seq<char>|
                                #![trigger json::fields_view(defs@.take(i as int)).dom().contains(other)]
                                json::fields_view(defs@.take(i as int)).dom().contains(other)
                                    && conflicts(start, more, other) ==> !text::precedes(
                                    other,
                                    first@,
                                )
                        },
                        None => forall|other: Seq<char>| #[trigger]
                            json::fields_view(defs@.take(i as int)).dom().contains(other)
                                ==> !conflicts(start, more, other),
                    },
                decreases defs@.len() - i,
            {
                let ghost seen = json::fields_view(defs@.take(i as int));
                let ghost name = defs@[i as int].0@;
                proof {
                    json::lemma_fields_push(defs@.take(i as int), defs@[i as int]);
                    assert(defs@.take(i + 1) =~= defs@.take(i as int).push(defs@[i as int]));
                    json::lemma_field_named(defs@, i as int);
                }
                if let Some(def) = find(defs, defs[i].0.as_str()) {
                    match find(known, defs[i].0.as_str()) {
                        Some(existing) => {
                            if !existing.equals(def) {
                                let is_first = match &conflict {
                                    Some(first) => text::comes_before(
                                        defs[i].0.as_str(),
                                        first.as_str(),
                                    ),
                                    None => true,
                                };
                                if is_first {
                                    proof {
                                        if let Some(first) = conflict {
                                            assert forall|other: Seq<char>|
                                                seen.dom().contains(other) && conflicts(
                                                    start,
                                                    more,
                                                    other,
                                                ) implies !text::precedes(other, name) by {
                                                if text::precedes(other, name) {
                                                    text::lemma_precedes_transitive(
                                                        other,
                                                        name,
                                                        first@,
                                                    );
                                                }
                                            }
                                        }
                                        text::lemma_precedes_itself(name);
                                    }
                                    conflict = Some(defs[i].0.clone());
                                }
                            }
                        },
                        None => {
                            put(&mut found, defs[i].0.as_str(), def.copy());
                        },
                    }
                }
                i = i + 1;
            }
            assert(defs@.take(defs@.len() as int) =~= defs@);
        }
    }
    if let Some(name) = conflict {
        proof {
            assert(is_first_conflict(start, more, name@));
            lemma_first_conflict(start, more, name@);
        }
        return Err(name);
    }
    let ghost added = json::fields_view(found@);
    let ghost given = found@;
    let ghost before = known@;
    known.append(&mut found);
    proof {
        json::lemma_fields_concat(before, given);
        assert(known@ =~= before + given);
        assert(start.union_prefer_right(added) =~= more.union_prefer_right(start));
    }
    Ok(())
}

proof fn lemma_tool_conflict_stays(tools: Seq<ToolView>, n: int)
    requires
        0 <= n <= tools.len(),
        all_defs(tools.take(n)) is Err,
    ensures
        all_defs(tools) == all_defs(tools.take(n)),
    decreases tools.len() - n,
{
    if n < tools.len() {
        assert(tools.take(n + 1).drop_last() =~= tools.take(n));
        lemma_tool_conflict_stays(tools, n + 1);
    } else {
        assert(tools.take(n) =~= tools);
    }
}

/// The definitions from every tool are consolidated under one top-level `$defs`; two
/// tools that disagree on the same definition are an error.
pub fn build_required_array_schema(tools: &Vec<Tool>) -> (r: Result<String, String>)
    ensures
        match r {
            Ok(s) => required_schema(tools.deep_view()) == Ok::<Seq<char>, Seq<char>>(s@),
            Err(e) => required_schema(tools.deep_view()) == Err::<Seq<char>, Seq<char>>(e@),
        },
{
    let ghost views = tools.deep_view();
    let ghost f = |t: ToolView| call_schema(t);
    let mut any_of: Vec<Json> = Vec::new();
    assert(json::array_view(any_of@) =~= views.take(0).map_values(f));
    for i in 0..tools.len()
        invariant
            views == tools.deep_view(),
            f == |t: ToolView| call_schema(t),
            json::array_view(any_of@) =~= views.take(i as int).map_values(f),
    {
        let ghost before = any_of@;
        any_of.push(make_call_schema(&tools[i]));
        proof {
            json::lemma_array_push(before, any_of@.last());
            assert(any_of@ =~= before.push(any_of@.last()));
            assert(views.take(i + 1).map_values(f) =~= views.take(i as int).map_values(f).push(
                f(views[i as int]),
            ));
        }
    }
    assert(views.take(views.len() as int) =~= views);
    let mut defs: Vec<(String, Json)> = Vec::new();
    assert(views.take(0) =~= Seq::empty());
    for i in 0..tools.len()
        invariant
            views == tools.deep_view(),
            all_defs(views.take(i as int)) == Ok::<Map<Seq<char>, JsonView>, Seq<char>>(
                json::fields_view(defs@),
            ),
    {
        proof {
            assert(views.take(i + 1).drop_last() =~= views.take(i as int));
            assert(views.take(i + 1).last() == tools@[i as int].deep_view());
        }
        if let Err(name) = add_defs(&mut defs, &tools[i]) {
            proof {
                lemma_tool_conflict_stays(views, i + 1);
            }
            return Err(
                text::join3(
                    "Tool definition '",
                    name.as_str(),
                    "' has multiple conflicting schemas, which is not supported",
                ),
            );
        }
    }
    let mut items: Vec<(String, Json)> = Vec::new();
    put(&mut items, "type", Json::string("object"));
    put(&mut items, "anyOf", Json::Array(any_of));
    let mut schema: Vec<(String, Json)> = Vec::new();
    put(&mut schema, "type", Json::string("array"));
    put(&mut schema, "minItems", Json::uint(1));
    put(&mut schema, "items", Json::Object(items));
    proof {
        json::lemma_no_fields(defs@);
    }
    if defs.len() > 0 {
        put(&mut schema, "$defs", Json::Object(defs));
    }
    Ok(Json::Object(schema).to_text())
}

/// What the worker is to enforce: the text of a JSON schema, nothing, or what is wrong
/// with the tools.
pub open spec fn constraint(tools: Seq<ToolView>, choice: Option<ToolChoiceView>) -> Result<
    Option<Seq<char>>,
    Seq<char>,
> {
    let required = match required_schema(tools) {
        Ok(s) => Ok(Some(s)),
        Err(e) => Err(e),
    };
    match choice {
        Some(ToolChoiceView::Function { .. }) => if tools.len() == 0 {
            Ok(None)
        } else {
            Ok(Some(json::written(tools[0].function.parameters)))
        },
        Some(ToolChoiceView::Value(ToolChoiceValue::Required)) => required,
        Some(ToolChoiceView::AllowedTools { mode, .. }) => if mode == "required"@ && tools.len()
            > 0 {
            required
        } else {
            Ok(None)
        },
        _ => Ok(None),
    }
}

/// The constraint for tools that were already narrowed by the tool choice, with its kind.
pub fn generate_tool_constraints(
    tools: &Vec<Tool>,
    tool_choice: &Option<ToolChoice>,
    _model: &str,
) -> (r: Result<Option<(String, String)>, String>)
    ensures
        match r {
            Ok(Some((kind, schema))) => {
                &&& kind@ == "json_schema"@
                &&& constraint(tools.deep_view(), tool_choice.deep_view()) == Ok::<
                    Option<Seq<char>>,
                    Seq<char>,
                >(Some(schema@))
            },
            Ok(None) => constraint(tools.deep_view(), tool_choice.deep_view()) == Ok::<
                Option<Seq<char>>,
                Seq<char>,
            >(None),
            Err(e) => constraint(tools.deep_view(), tool_choice.deep_view()) == Err::<
                Option<Seq<char>>,
                Seq<char>,
            >(e@),
        },
{
    match tool_choice {
        Some(ToolChoice::Function { .. }) => {
            if tools.len() == 0 {
                return Ok(None);
            }
            Ok(Some(("json_schema".to_owned(), tools[0].function.parameters.to_text())))
        },
        Some(ToolChoice::Value(ToolChoiceValue::Required)) => {
            match build_required_array_schema(tools) {
                Ok(schema) => Ok(Some(("json_schema".to_owned(), schema))),
                Err(e) => Err(e),
            }
        },
        Some(ToolChoice::AllowedTools { mode, .. }) => {
            if !text::same(mode.as_str(), "required") || tools.len() == 0 {
                return Ok(None);
            }
            match build_required_array_schema(tools) {
                Ok(schema) => Ok(Some(("json_schema".to_owned(), schema))),
                Err(e) => Err(e),
            }
        },
        _ => Ok(None),
    }
}

/// Definitions of one name say the same, whichever tools bring them along.
pub open spec fn defs_agree(tools: Seq<ToolView>) -> bool {
    forall|i: int, j: int, name: Seq<char>|
        #![trigger tool_defs(tools[i]).dom().contains(name), tool_defs(tools[j]).dom().contains(name)]
        0 <= i < tools.len() && 0 <= j < tools.len() && tool_defs(tools[i]).dom().contains(name)
            && tool_defs(tools[j]).dom().contains(name) ==> json::settled(
            tool_defs(tools[i])[name],
        ) == json::settled(tool_defs(tools[j])[name])
}

proof fn lemma_defs_agree(tools: Seq<ToolView>)
    ensures
        all_defs(tools) is Ok <==> defs_agree(tools),
        all_defs(tools) matches Ok(m) ==> {
            &&& forall|i: int, name: Seq<char>|
                0 <= i < tools.len() && #[trigger] tool_defs(tools[i]).dom().contains(name)
                    ==> m.dom().contains(name) && json::settled(m[name]) == json::settled(
                    tool_defs(tools[i])[name],
                )
            &&& forall|name: Seq<char>| #[trigger]
                m.dom().contains(name) ==> exists|i: int|
                    0 <= i < tools.len() && #[trigger] tool_defs(tools[i]).dom().contains(name)
                        && m[name] == tool_defs(tools[i])[name]
        },
    decreases tools.len(),
{
    if tools.len() > 0 {
        let init = tools.drop_last();
        let last = tools.len() - 1;
        let defs = tool_defs(tools.last());
        lemma_defs_agree(init);
        assert forall|i: int| 0 <= i < init.len() implies #[trigger] tools[i] == init[i] by {}
        if let Ok(known) = all_defs(init) {
            if exists|name: Seq<char>| #[trigger] conflicts(known, defs, name) {
                let name = choose|name: Seq<char>| #[trigger] conflicts(known, defs, name);
                let i = choose|i: int|
                    0 <= i < init.len() && #[trigger] tool_defs(init[i]).dom().contains(name)
                        && known[name] == tool_defs(init[i])[name];
                assert(tool_defs(tools[i]).dom().contains(name));
                assert(tool_defs(tools[last]).dom().contains(name));
            } else {
                let m = defs.union_prefer_right(known);
                assert forall|i: int, name: Seq<char>|
                    0 <= i < tools.len() && #[trigger] tool_defs(tools[i]).dom().contains(
                        name,
                    ) implies m.dom().contains(name) && json::settled(m[name]) == json::settled(
                    tool_defs(tools[i])[name],
                ) by {
                    assert(!conflicts(known, defs, name));
                    if i < last {
                        assert(tool_defs(init[i]).dom().contains(name));
                    }
                }
                assert forall|name: Seq<char>| #[trigger] m.dom().contains(name) implies exists|
                    i: int,
                |
                    0 <= i < tools.len() && #[trigger] tool_defs(tools[i]).dom().contains(name)
                        && m[name] == tool_defs(tools[i])[name] by {
                    if known.dom().contains(name) {
                        let i = choose|i: int|
                            0 <= i < init.len() && #[trigger] tool_defs(init[i]).dom().contains(
                                name,
                            ) && known[name] == tool_defs(init[i])[name];
                        assert(tool_defs(tools[i]).dom().contains(name));
                    } else {
                        assert(tool_defs(tools[last]).dom().contains(name));
                    }
                }
            }
        } else {
            let (i, j, name) = choose|i: int, j: int, name: Seq<char>|
                #![trigger tool_defs(init[i]).dom().contains(name), tool_defs(init[j]).dom().contains(name)]
                0 <= i < init.len() && 0 <= j < init.len() && tool_defs(init[i]).dom().contains(
                    name,
                ) && tool_defs(init[j]).dom().contains(name) && json::settled(
                    tool_defs(init[i])[name],
                ) != json::settled(tool_defs(init[j])[name]);
            assert(tool_defs(tools[i]).dom().contains(name));
            assert(tool_defs(tools[j]).dom().contains(name));
        }
    }
}

/// There is a schema exactly where no two tools disagree on a definition.
pub proof fn law_schema_iff_defs_agree(tools: Seq<ToolView>)
    ensures
        required_schema(tools) is Ok <==> defs_agree(tools),
{
    lemma_defs_agree(tools);
}

/// The name of the function that a reference stands for.
pub open spec fn reference_name(tool: ToolReferenceView) -> Option<Seq<char>> {
    match tool {
        ToolReferenceView::Function { name } => Some(name),
        ToolReferenceView::Other { .. } => None,
    }
}

/// Whether a tool choice that narrows the tools leaves the one of this name.
pub open spec fn choice_allows(choice: ToolChoiceView, name: Seq<char>) -> bool {
    match choice {
        ToolChoiceView::AllowedTools { tools, .. } => exists|i: int|
            0 <= i < tools.len() && reference_name(#[trigger] tools[i]) == Some(name),
        ToolChoiceView::Function { function, .. } => function.name == name,
        ToolChoiceView::Value(_) => true,
    }
}

/// The tools that the choice leaves, in their order.
pub open spec fn allowed_tools(tools: Seq<ToolView>, choice: ToolChoiceView) -> Seq<ToolView>
    decreases tools.len(),
{
    if tools.len() == 0 {
        Seq::empty()
    } else if choice_allows(choice, tools.last().function.name) {
        allowed_tools(tools.drop_last(), choice).push(tools.last())
    } else {
        allowed_tools(tools.drop_last(), choice)
    }
}

/// Whether a tool choice narrows the tools.
pub open spec fn narrows(choice: Option<ToolChoiceView>) -> bool {
    match choice {
        Some(ToolChoiceView::AllowedTools { .. }) => true,
        Some(ToolChoiceView::Function { .. }) => true,
        _ => false,
    }
}

fn allows(choice: &ToolChoice, name: &str) -> (r: bool)
    ensures
        r == choice_allows(choice.deep_view(), name@),
{
    match choice {
        ToolChoice::AllowedTools { tools, .. } => {
            let ghost views = tools.deep_view();
            for i in 0..tools.len()
                invariant
                    views == tools.deep_view(),
                    choice.deep_view() matches ToolChoiceView::AllowedTools { tools: v, .. } && v
                        == views,
                    forall|j: int|
                        0 <= j < i ==> reference_name(#[trigger] views[j]) != Some(name@),
            {
                assert(views[i as int] == tools@[i as int].deep_view());
                if let ToolReference::Function { name: n } = &tools[i] {
                    if text::same(n.as_str(), name) {
                        assert(reference_name(views[i as int]) == Some(name@));
                        return true;
                    }
                }
            }
            false
        },
        ToolChoice::Function { function, .. } => text::same(function.name.as_str(), name),
        ToolChoice::Value(_) => true,
    }
}

/// The pairs of tools and forms that the choice leaves, in their order.
pub open spec fn allowed_pairs(
    tools: Seq<EncodedView<ToolView>>,
    choice: ToolChoiceView,
) -> Seq<EncodedView<ToolView>>
    decreases tools.len(),
{
    if tools.len() == 0 {
        Seq::empty()
    } else if choice_allows(choice, tools.last().value.function.name) {
        allowed_pairs(tools.drop_last(), choice).push(tools.last())
    } else {
        allowed_pairs(tools.drop_last(), choice)
    }
}

/// The tools that a chat request is left with.
pub open spec fn effective_tools(req: ChatCompletionRequest) -> Option<Seq<ToolView>> {
    match req.tools.deep_view() {
        Some(tools) => if narrows(req.tool_choice.deep_view()) {
            Some(allowed_tools(tools, req.tool_choice.deep_view()->0))
        } else {
            Some(tools)
        },
        None => None,
    }
}

/// The tools that the tool choice leaves, each beside its JSON form, where it narrows the
/// set.
pub fn filter_tools_by_tool_choice(
    tools: &Vec<Encoded<Tool>>,
    tool_choice: &Option<ToolChoice>,
) -> (r: Option<Vec<Encoded<Tool>>>)
    ensures
        r.deep_view() == (if narrows(tool_choice.deep_view()) {
            Some(allowed_pairs(tools.deep_view(), tool_choice.deep_view()->0))
        } else {
            None
        }),
{
    let choice = match tool_choice {
        Some(choice) => choice,
        None => return None,
    };
    if let ToolChoice::Value(_) = choice {
        return None;
    }
    let ghost views = tools.deep_view();
    let ghost chosen = choice.deep_view();
    let mut out: Vec<Encoded<Tool>> = Vec::new();
    for i in 0..tools.len()
        invariant
            views == tools.deep_view(),
            chosen == choice.deep_view(),
            out.deep_view() =~= allowed_pairs(views.take(i as int), chosen),
    {
        let ghost before = out.deep_view();
        proof {
            assert(views.take(i + 1).drop_last() =~= views.take(i as int));
            assert(views.take(i + 1).last() == views[i as int]);
        }
        if allows(choice, tools[i].value.function.name.as_str()) {
            out.push(tools[i].duplicate());
            assert(out.deep_view() =~= before.push(views[i as int]));
        }
    }
    assert(views.take(views.len() as int) =~= views);
    Some(out)
}

/// How many tool calls the messages hold.
pub open spec fn history_calls(messages: Seq<ChatMessage>) -> nat
    decreases messages.len(),
{
    if messages.len() == 0 {
        0
    } else {
        history_calls(messages.drop_last()) + match messages.last() {
            ChatMessage::Assistant { tool_calls: Some(calls), .. } => calls@.len(),
            _ => 0,
        }
    }
}

proof fn lemma_history_prefix(messages: Seq<ChatMessage>, n: int)
    requires
        0 <= n <= messages.len(),
    ensures
        history_calls(messages.take(n)) <= history_calls(messages),
    decreases messages.len() - n,
{
    if n < messages.len() {
        lemma_history_prefix(messages, n + 1);
        assert(messages.take(n + 1).drop_last() =~= messages.take(n));
    } else {
        assert(messages.take(n) =~= messages);
    }
}

/// The number of tool calls in the conversation so far, which the Kimi K2 identifiers
/// count on from.
pub fn get_history_tool_calls_count(request: &ChatCompletionRequest) -> (r: usize)
    requires
        history_calls(request.messages@) <= usize::MAX,
    ensures
        r == history_calls(request.messages@),
{
    let messages = &request.messages;
    let mut count: usize = 0;
    assert(messages@.take(0) =~= Seq::empty());
    for i in 0..messages.len()
        invariant
            history_calls(messages@) <= usize::MAX,
            count == history_calls(messages@.take(i as int)),
    {
        proof {
            assert(messages@.take(i + 1).drop_last() =~= messages@.take(i as int));
            assert(messages@.take(i + 1).last() == messages@[i as int]);
            lemma_history_prefix(messages@, i + 1);
        }
        if let ChatMessage::Assistant { tool_calls: Some(calls), .. } = &messages[i] {
            count = count + calls.len();
        }
    }
    assert(messages@.take(messages@.len() as int) =~= messages@);
    count
}

/// An ASCII byte in lower case.
pub open spec fn lower(b: u8) -> u8 {
    if 65 <= b <= 90 {
        (b + 32) as u8
    } else {
        b
    }
}

/// Whether the bytes at this place spell `kimi`, in either case.
pub open spec fn kimi_at(bytes: Seq<u8>, i: int) -> bool {
    &&& 0 <= i <= bytes.len() - 4
    &&& lower(bytes[i]) == 107
    &&& lower(bytes[i + 1]) == 105
    &&& lower(bytes[i + 2]) == 109
    &&& lower(bytes[i + 3]) == 105
}

/// Whether the name of a model has `kimi` in it, in either case.
pub open spec fn is_kimi(model: Seq<char>) -> bool {
    exists|i: int| kimi_at(vstd::utf8::encode_utf8(model), i)
}

fn to_lower(b: u8) -> (r: u8)
    ensures
        r == lower(b),
{
    if 65 <= b && b <= 90 {
        b + 32
    } else {
        b
    }
}

pub fn model_is_kimi(model: &str) -> (r: bool)
    ensures
        r == is_kimi(model@),
{
    let bytes = model.as_bytes();
    let n: usize = bytes.len();
    let mut i: usize = 0;
    while i < n && n - i >= 4
        invariant
            i <= n,
            n == bytes@.len(),
            bytes@ == vstd::utf8::encode_utf8(model@),
            forall|j: int| 0 <= j < i ==> !kimi_at(bytes@, j),
        decreases n - i,
    {
        if to_lower(bytes[i]) == 107 && to_lower(bytes[i + 1]) == 105 && to_lower(bytes[i + 2])
            == 109 && to_lower(bytes[i + 3]) == 105 {
            assert(kimi_at(bytes@, i as int));
            return true;
        }
        i = i + 1;
    }
    false
}

/// An identifier of a tool call. Kimi models count through the conversation; the others
/// get 24 digits of a random UUID.
pub open spec fn is_tool_call_id(
    id: Seq<char>,
    model: Seq<char>,
    tool_name: Seq<char>,
    tool_index: nat,
    history_count: nat,
) -> bool {
    if is_kimi(model) {
        id == "functions."@ + tool_name + ":"@ + text::decimal(history_count + tool_index)
    } else {
        exists|digits: Seq<char>|
            #![trigger ids::is_plain_uuid(digits)]
            ids::is_plain_uuid(digits) && id == "call_"@ + digits.take(24)
    }
}

pub fn generate_tool_call_id(
    model: &str,
    tool_name: &str,
    tool_index: usize,
    history_count: usize,
) -> (r: String)
    ensures
        is_tool_call_id(r@, model@, tool_name@, tool_index as nat, history_count as nat),
{
    if model_is_kimi(model) {
        let mut id = text::join3("functions.", tool_name, ":");
        let index = text::number(history_count as u128 + tool_index as u128);
        id.append(index.as_str());
        id
    } else {
        let digits = ids::plain_uuid();
        assert(ids::is_plain_uuid(digits@));
        assert(digits@.subrange(0, 24) =~= digits@.take(24));
        text::join2("call_", digits.as_str().substring_char(0, 24))
    }
}

/// A call as it is read from the sampled text: the tool, its arguments, and the place in
/// the list, which the identifier counts.
pub struct ReadCall {
    pub name: Seq<char>,
    pub arguments: Seq<char>,
    pub index: nat,
}

/// The call that an item of the list stands for: an object with a name and parameters.
pub open spec fn read_item(item: JsonView, index: nat) -> Option<ReadCall> {
    match (json::string_field(item, "name"@), json::field(item, "parameters"@)) {
        (Some(name), Some(parameters)) => Some(
            ReadCall { name, arguments: json::written(parameters), index },
        ),
        _ => None,
    }
}

/// The calls that the items of the list stand for. Other items are passed over.
pub open spec fn read_items(items: Seq<JsonView>) -> Seq<ReadCall>
    decreases items.len(),
{
    if items.len() == 0 {
        Seq::empty()
    } else {
        match read_item(items.last(), (items.len() - 1) as nat) {
            Some(call) => read_items(items.drop_last()).push(call),
            None => read_items(items.drop_last()),
        }
    }
}

/// The calls that a sampled text stands for, under this tool choice. There are none where
/// the choice asked for none, or where the text is not what was asked for.
pub open spec fn read_calls(
    parsed: Result<JsonView, Seq<char>>,
    choice: Option<ToolChoiceView>,
) -> Option<Seq<ReadCall>> {
    match (choice, parsed) {
        (Some(ToolChoiceView::Function { function, .. }), Ok(params)) => Some(
            seq![ReadCall { name: function.name, arguments: json::written(params), index: 0 }],
        ),
        (
            Some(ToolChoiceView::Value(ToolChoiceValue::Required)),
            Ok(JsonView::Array(items)),
        ) => Some(read_items(items)),
        (Some(ToolChoiceView::AllowedTools { .. }), Ok(JsonView::Array(items))) => Some(
            read_items(items),
        ),
        _ => None,
    }
}

/// The tool calls are these.
pub open spec fn are_calls(
    calls: Seq<ToolCall>,
    read: Seq<ReadCall>,
    model: Seq<char>,
    history_count: nat,
) -> bool {
    &&& calls.len() == read.len()
    &&& forall|i: int| 0 <= i < calls.len() ==> is_call(#[trigger] calls[i], read[i], model, history_count)
}

pub open spec fn is_call(
    call: ToolCall,
    read: ReadCall,
    model: Seq<char>,
    history_count: nat,
) -> bool {
    &&& call.tool_type@ == "function"@
    &&& call.function.name@ == read.name
    &&& call.function.arguments.deep_view() == Some(read.arguments)
    &&& is_tool_call_id(call.id@, model, read.name, read.index, history_count)
}

fn make_call(
    model: &str,
    name: &str,
    parameters: &Json,
    index: usize,
    history_count: usize,
) -> (r: ToolCall)
    ensures
        is_call(
            r,
            ReadCall { name: name@, arguments: json::written(parameters@), index: index as nat },
            model@,
            history_count as nat,
        ),
{
    ToolCall {
        id: generate_tool_call_id(model, name, index, history_count),
        tool_type: "function".to_owned(),
        function: FunctionCallResponse {
            name: name.to_owned(),
            arguments: Some(parameters.to_text()),
        },
    }
}

fn read_call_list(items: &Vec<Json>, model: &str, history_count: usize) -> (r: Vec<ToolCall>)
    ensures
        are_calls(r@, read_items(json::array_view(items@)), model@, history_count as nat),
{
    let ghost views = json::array_view(items@);
    let mut calls: Vec<ToolCall> = Vec::new();
    assert(views.take(0) =~= Seq::empty());
    for i in 0..items.len()
        invariant
            views == json::array_view(items@),
            are_calls(calls@, read_items(views.take(i as int)), model@, history_count as nat),
    {
        proof {
            assert(views.take(i + 1).drop_last() =~= views.take(i as int));
            assert(views.take(i + 1).last() == views[i as int]);
            assert(views[i as int] == items@[i as int]@);
        }
        let item = &items[i];
        if let (Some(name), Some(parameters)) = (item.get_str("name"), item.get("parameters")) {
            calls.push(make_call(model, name.as_str(), parameters, i, history_count));
        }
    }
    assert(views.take(views.len() as int) =~= views);
    calls
}

/// The tool calls that a sampled text stands for, from what was read in it, and the text
/// that is left: all of it where it stands for none.
pub fn calls_from_parsed(
    parsed: &Result<Json, String>,
    processed_text: &str,
    tool_choice: &Option<ToolChoice>,
    model: &str,
    history_tool_calls_count: usize,
) -> (r: (Option<Vec<ToolCall>>, String))
    ensures
        ({
            let view = match *parsed {
                Ok(v) => Ok(v@),
                Err(e) => Err(e@),
            };
            match read_calls(view, tool_choice.deep_view()) {
                Some(read) => {
                    &&& r.0 is Some
                    &&& are_calls(r.0->0@, read, model@, history_tool_calls_count as nat)
                    &&& r.1@.len() == 0
                },
                None => {
                    &&& r.0 is None
                    &&& r.1@ == processed_text@
                },
            }
        }),
{
    match tool_choice {
        Some(ToolChoice::Function { function, .. }) => {
            if let Ok(params) = parsed {
                let mut calls: Vec<ToolCall> = Vec::new();
                calls.push(
                    make_call(model, function.name.as_str(), params, 0, history_tool_calls_count),
                );
                return (Some(calls), String::new());
            }
        },
        Some(ToolChoice::Value(ToolChoiceValue::Required)) => {
            if let Ok(Json::Array(items)) = parsed {
                let calls = read_call_list(items, model, history_tool_calls_count);
                return (Some(calls), String::new());
            }
        },
        Some(ToolChoice::AllowedTools { .. }) => {
            if let Ok(Json::Array(items)) = parsed {
                let calls = read_call_list(items, model, history_tool_calls_count);
                return (Some(calls), String::new());
            }
        },
        _ => {},
    }
    (None, processed_text.to_owned())
}

/// The tool calls that a sampled text stands for, and the text that is left.
pub fn parse_json_schema_response(
    processed_text: &str,
    tool_choice: &Option<ToolChoice>,
    model: &str,
    history_tool_calls_count: usize,
) -> (r: (Option<Vec<ToolCall>>, String))
    ensures
        match read_calls(json::parsed(processed_text@), tool_choice.deep_view()) {
            Some(read) => {
                &&& r.0 is Some
                &&& are_calls(r.0->0@, read, model@, history_tool_calls_count as nat)
                &&& r.1@.len() == 0
            },
            None => {
                &&& r.0 is None
                &&& r.1@ == processed_text@
            },
        },
{
    let parsed = Json::parse(processed_text);
    calls_from_parsed(&parsed, processed_text, tool_choice, model, history_tool_calls_count)
}

/// Whether the worker is asked for a list of calls under this tool choice, if it is asked for
/// calls at all.
pub open spec fn asks_for_list(choice: ToolChoice) -> bool {
    choice is AllowedTools || choice == ToolChoice::Value(ToolChoiceValue::Required)
}

proof fn lemma_read_items_in_full(items: Seq<JsonView>)
    requires
        forall|i: int|
            0 <= i < items.len() ==> json::string_field(#[trigger] items[i], "name"@) is Some
                && json::field(items[i], "parameters"@) is Some,
    ensures
        read_items(items).len() == items.len(),
        forall|i: int|
            0 <= i < items.len() ==> {
                &&& json::string_field(#[trigger] items[i], "name"@) == Some(
                    read_items(items)[i].name,
                )
                &&& read_items(items)[i].arguments == json::written(
                    json::field(items[i], "parameters"@)->0,
                )
                &&& read_items(items)[i].index == i
            },
    decreases items.len(),
{
    if items.len() > 0 {
        let init = items.drop_last();
        assert forall|i: int| 0 <= i < init.len() implies json::string_field(
            #[trigger] init[i],
            "name"@,
        ) is Some && json::field(init[i], "parameters"@) is Some by {
            assert(init[i] == items[i]);
        }
        lemma_read_items_in_full(init);
        assert(items[items.len() - 1] == items.last());
        assert forall|i: int| 0 <= i < init.len() implies #[trigger] items[i] == init[i] by {}
    }
}

/// Where a list of calls is asked for, a text that is a list of objects with a name and
/// parameters is read as that many tool calls, with those names and parameters, in their
/// order, and leaves no text.
pub proof fn law_list_of_calls_is_read_in_full(
    processed_text: &str,
    tool_choice: &Option<ToolChoice>,
    model: &str,
    history_tool_calls_count: usize,
    items: Seq<JsonView>,
    r: (Option<Vec<ToolCall>>, String),
)
    requires
        *tool_choice is Some,
        asks_for_list((*tool_choice)->0),
        json::parsed(processed_text@) == Ok::<JsonView, Seq<char>>(JsonView::Array(items)),
        forall|i: int|
            0 <= i < items.len() ==> json::string_field(#[trigger] items[i], "name"@) is Some
                && json::field(items[i], "parameters"@) is Some,
        call_ensures(
            parse_json_schema_response,
            (processed_text, tool_choice, model, history_tool_calls_count),
            r,
        ),
    ensures
        r.0 is Some,
        r.1@.len() == 0,
        r.0->0@.len() == items.len(),
        forall|i: int|
            #![trigger r.0->0@[i]]
            0 <= i < items.len() ==> {
                let call = r.0->0@[i];
                &&& call.tool_type@ == "function"@
                &&& json::string_field(items[i], "name"@) == Some(call.function.name@)
                &&& call.function.arguments is Some
                &&& call.function.arguments->0@ == json::written(
                    json::field(items[i], "parameters"@)->0,
                )
                &&& is_tool_call_id(
                    call.id@,
                    model@,
                    call.function.name@,
                    i as nat,
                    history_tool_calls_count as nat,
                )
            },
{
    lemma_read_items_in_full(items);
    let calls = r.0->0@;
    assert forall|i: int|
        #![trigger calls[i]]
        0 <= i < items.len() implies {
        let call = calls[i];
        &&& call.tool_type@ == "function"@
        &&& json::string_field(items[i], "name"@) == Some(call.function.name@)
        &&& call.function.arguments is Some
        &&& call.function.arguments->0@ == json::written(json::field(items[i], "parameters"@)->0)
        &&& is_tool_call_id(
            call.id@,
            model@,
            call.function.name@,
            i as nat,
            history_tool_calls_count as nat,
        )
    } by {
        assert(is_call(
            calls[i],
            read_items(items)[i],
            model@,
            history_tool_calls_count as nat,
        ));
        assert(calls[i].function.arguments.deep_view() == Some(read_items(items)[i].arguments));
    }
}

/// Where a list of calls is asked for, each item adds one call to those of the items before
/// it, if it has a name and parameters, and none otherwise.
pub proof fn law_each_item_adds_its_call(
    items: Vec<Json>,
    more: Vec<Json>,
    processed_text: &str,
    tool_choice: &Option<ToolChoice>,
    model: &str,
    history_tool_calls_count: usize,
    before: (Option<Vec<ToolCall>>, String),
    after: (Option<Vec<ToolCall>>, String),
)
    requires
        *tool_choice is Some,
        asks_for_list((*tool_choice)->0),
        more@.len() == items@.len() + 1,
        more@.drop_last() == items@,
        call_ensures(
            calls_from_parsed,
            (
                &Ok(Json::Array(items)),
                processed_text,
                tool_choice,
                model,
                history_tool_calls_count,
            ),
            before,
        ),
        call_ensures(
            calls_from_parsed,
            (
                &Ok(Json::Array(more)),
                processed_text,
                tool_choice,
                model,
                history_tool_calls_count,
            ),
            after,
        ),
    ensures
        before.0 is Some && before.1@.len() == 0,
        after.0 is Some && after.1@.len() == 0,
        ({
            let last = more@.last()@;
            let (kept, calls) = (before.0->0@, after.0->0@);
            &&& forall|i: int|
                0 <= i < kept.len() ==> {
                    &&& (#[trigger] calls[i]).function.name@ == kept[i].function.name@
                    &&& calls[i].function.arguments.deep_view()
                        == kept[i].function.arguments.deep_view()
                }
            &&& match (json::string_field(last, "name"@), json::field(last, "parameters"@)) {
                (Some(name), Some(parameters)) => {
                    &&& calls.len() == kept.len() + 1
                    &&& calls.last().function.name@ == name
                    &&& calls.last().function.arguments.deep_view() == Some(
                        json::written(parameters),
                    )
                },
                _ => calls.len() == kept.len(),
            }
        }),
{
    let views = json::array_view(more@);
    let n = history_tool_calls_count as nat;
    assert(views.drop_last() =~= json::array_view(items@));
    assert(views.last() == more@.last()@);
    let (kept, calls) = (before.0->0@, after.0->0@);
    assert(are_calls(kept, read_items(views.drop_last()), model@, n));
    assert(are_calls(calls, read_items(views), model@, n));
    assert forall|i: int| 0 <= i < kept.len() implies {
        &&& (#[trigger] calls[i]).function.name@ == kept[i].function.name@
        &&& calls[i].function.arguments.deep_view() == kept[i].function.arguments.deep_view()
    } by {
        assert(is_call(kept[i], read_items(views.drop_last())[i], model@, n));
        assert(is_call(calls[i], read_items(views)[i], model@, n));
    }
    if calls.len() > kept.len() {
        assert(is_call(
            calls[calls.len() - 1],
            read_items(views)[calls.len() - 1],
            model@,
            n,
        ));
    }
}

/// Where one function was chosen, a text that is JSON is read as one call of it, with that
/// JSON for its arguments, and leaves no text.
pub proof fn law_chosen_function_is_called_once(
    processed_text: &str,
    tool_choice: &Option<ToolChoice>,
    model: &str,
    history_tool_calls_count: usize,
    r: (Option<Vec<ToolCall>>, String),
)
    requires
        *tool_choice is Some,
        (*tool_choice)->0 is Function,
        json::parsed(processed_text@) is Ok,
        call_ensures(
            parse_json_schema_response,
            (processed_text, tool_choice, model, history_tool_calls_count),
            r,
        ),
    ensures
        r.0 is Some,
        r.1@.len() == 0,
        r.0->0@.len() == 1,
        ({
            let call = r.0->0@[0];
            &&& call.tool_type@ == "function"@
            &&& call.function.name@ == (*tool_choice)->0->Function_function.name@
            &&& call.function.arguments.deep_view() == Some(
                json::written(json::parsed(processed_text@)->Ok_0),
            )
            &&& is_tool_call_id(
                call.id@,
                model@,
                call.function.name@,
                0,
                history_tool_calls_count as nat,
            )
        }),
{
    let read = read_calls(json::parsed(processed_text@), tool_choice.deep_view())->0;
    assert(is_call(r.0->0@[0], read[0], model@, history_tool_calls_count as nat));
}

/// No call is read where none was asked for, where the text is no JSON, or where it is no list
/// though one was asked for. All of the text is left.
pub proof fn law_other_text_is_left(
    processed_text: &str,
    tool_choice: &Option<ToolChoice>,
    model: &str,
    history_tool_calls_count: usize,
    r: (Option<Vec<ToolCall>>, String),
)
    requires
        call_ensures(
            parse_json_schema_response,
            (processed_text, tool_choice, model, history_tool_calls_count),
            r,
        ),
        ({
            ||| json::parsed(processed_text@) is Err
            ||| *tool_choice is None
            ||| *tool_choice == Some(ToolChoice::Value(ToolChoiceValue::Auto))
            ||| *tool_choice == Some(ToolChoice::Value(ToolChoiceValue::Never))
            ||| asks_for_list((*tool_choice)->0) && json::parsed(processed_text@)->Ok_0 !is Array
        }),
    ensures
        r.0 is None,
        r.1@ == processed_text@,
{
}

/// The fields of an object of a schema.
pub open spec fn has_field(v: JsonView, name: Seq<char>, value: JsonView) -> bool {
    json::field(v, name) == Some(value)
}

/// Whether this is the schema of a call of a tool: an object that has to have the tool's name
/// and parameters of its own schema.
pub open spec fn admits_call(schema: JsonView, tool: ToolView) -> bool {
    &&& json::field(schema, "required"@) matches Some(JsonView::Array(names)) && names.contains(
        JsonView::Str("name"@),
    ) && names.contains(JsonView::Str("parameters"@))
    &&& json::field(schema, "properties"@) matches Some(properties) && has_field(
        properties,
        "parameters"@,
        tool.function.parameters,
    ) && (json::field(properties, "name"@) matches Some(name) && json::field(name, "enum"@)
        == Some(JsonView::Array(seq![JsonView::Str(tool.function.name)])))
}

/// Whether this is the schema of a list with at least one call, each of one of these tools.
pub open spec fn admits_calls(schema: JsonView, tools: Seq<ToolView>) -> bool {
    &&& has_field(schema, "type"@, JsonView::Str("array"@))
    &&& has_field(schema, "minItems"@, JsonView::Number(seq!['1']))
    &&& json::field(schema, "items"@) matches Some(items) && has_field(
        items,
        "type"@,
        JsonView::Str("object"@),
    ) && (json::field(items, "anyOf"@) matches Some(JsonView::Array(calls)) && calls.len()
        == tools.len() && forall|i: int|
        0 <= i < tools.len() ==> admits_call(calls[i], #[trigger] tools[i]))
}

/// Whether a schema brings along what the schemas of the tools define.
pub open spec fn defines_all(schema: JsonView, tools: Seq<ToolView>) -> bool {
    forall|i: int, name: Seq<char>|
        #![trigger json::field(json::field(tools[i].function.parameters, "$defs"@)->0, name)]
        0 <= i < tools.len() && json::field(tools[i].function.parameters, "$defs"@) is Some
            && json::field(json::field(tools[i].function.parameters, "$defs"@)->0, name) is Some
            ==> {
            &&& json::field(schema, "$defs"@) is Some
            &&& json::field(json::field(schema, "$defs"@)->0, name) matches Some(def)
                && json::settled(def) == json::settled(
                json::field(json::field(tools[i].function.parameters, "$defs"@)->0, name)->0,
            )
        }
}

proof fn lemma_schema_names()
    ensures
        "type"@ != "minItems"@,
        "type"@ != "items"@,
        "type"@ != "anyOf"@,
        "type"@ != "enum"@,
        "type"@ != "$defs"@,
        "minItems"@ != "items"@,
        "minItems"@ != "$defs"@,
        "items"@ != "$defs"@,
        "name"@ != "parameters"@,
        "properties"@ != "required"@,
{
    reveal_strlit("type");
    reveal_strlit("minItems");
    reveal_strlit("items");
    reveal_strlit("anyOf");
    reveal_strlit("enum");
    reveal_strlit("$defs");
    reveal_strlit("name");
    reveal_strlit("parameters");
    reveal_strlit("properties");
    reveal_strlit("required");
    assert("type"@[0] != "enum"@[0]);
    assert("items"@[0] != "$defs"@[0]);
    assert("properties"@.len() != "required"@.len());
    assert("name"@.len() != "parameters"@.len());
}

proof fn lemma_array_schema_admits(tools: Seq<ToolView>, defs: Map<Seq<char>, JsonView>)
    ensures
        admits_calls(array_schema(tools, defs), tools),
        defs != Map::<Seq<char>, JsonView>::empty() ==> json::field(
            array_schema(tools, defs),
            "$defs"@,
        ) == Some(JsonView::Object(defs)),
{
    lemma_schema_names();
    let schema = array_schema(tools, defs);
    assert(text::decimal(1) =~= seq!['1']);
    let f = |t: ToolView| call_schema(t);
    let calls = tools.map_values(f);
    assert forall|i: int| 0 <= i < tools.len() implies admits_call(calls[i], #[trigger] tools[i]) by {
        let required = seq![str("name"@), str("parameters"@)];
        assert(required[0] == str("name"@));
        assert(required[1] == str("parameters"@));
        assert(calls[i] == call_schema(tools[i]));
    }
    assert(json::field(json::field(schema, "items"@)->0, "anyOf"@) == Some(
        JsonView::Array(calls),
    ));
}

/// Where the worker is asked for a list of calls, the schema is that of a list with at least
/// one call: of any of the tools, by its name and with parameters of its own schema. What the
/// schemas of the tools define comes along.
pub proof fn law_list_schema_admits_calls_of_the_tools(
    tools: &Vec<Tool>,
    r: Result<String, String>,
) -> (schema: JsonView)
    requires
        call_ensures(build_required_array_schema, (tools,), r),
        r is Ok,
    ensures
        r->Ok_0@ == json::written(schema),
        admits_calls(schema, tools.deep_view()),
        defines_all(schema, tools.deep_view()),
{
    let views = tools.deep_view();
    let defs = all_defs(views)->Ok_0;
    let schema = array_schema(views, defs);
    lemma_array_schema_admits(views, defs);
    lemma_defs_agree(views);
    assert forall|i: int, name: Seq<char>|
        #![trigger json::field(json::field(views[i].function.parameters, "$defs"@)->0, name)]
        0 <= i < views.len() && json::field(views[i].function.parameters, "$defs"@) is Some
            && json::field(json::field(views[i].function.parameters, "$defs"@)->0, name) is Some
        implies {
        &&& json::field(schema, "$defs"@) is Some
        &&& json::field(json::field(schema, "$defs"@)->0, name) matches Some(def)
            && json::settled(def) == json::settled(
            json::field(json::field(views[i].function.parameters, "$defs"@)->0, name)->0,
        )
    } by {
        assert(tool_defs(views[i]).dom().contains(name));
        assert(defs.dom().contains(name));
        assert(!Map::<Seq<char>, JsonView>::empty().dom().contains(name));
    }
    schema
}

/// What the worker is asked for follows the tool choice: a list of calls where tools are
/// required, the parameters of the first tool where one function was chosen, and nothing
/// otherwise.
pub proof fn law_constraint_follows_the_choice(
    tools: &Vec<Tool>,
    tool_choice: &Option<ToolChoice>,
    model: &str,
    r: Result<Option<(String, String)>, String>,
)
    requires
        call_ensures(generate_tool_constraints, (tools, tool_choice, model), r),
    ensures
        r matches Ok(Some((kind, _))) ==> kind@ == "json_schema"@,
        match *tool_choice {
            Some(ToolChoice::Function { .. }) => {
                &&& r is Ok
                &&& r->Ok_0 is Some == (tools@.len() > 0)
                &&& tools@.len() > 0 ==> (r->Ok_0->0).1@ == json::written(
                    tools@[0].function.parameters@,
                )
            },
            Some(ToolChoice::Value(ToolChoiceValue::Required)) => {
                &&& r is Ok <==> defs_agree(tools.deep_view())
                &&& r is Ok ==> r->Ok_0 is Some && exists|schema: JsonView|
                    (r->Ok_0->0).1@ == #[trigger] json::written(schema) && admits_calls(
                        schema,
                        tools.deep_view(),
                    )
            },
            Some(ToolChoice::AllowedTools { mode, .. }) => if mode@ == "required"@ && tools@.len()
                > 0 {
                &&& r is Ok <==> defs_agree(tools.deep_view())
                &&& r is Ok ==> r->Ok_0 is Some && exists|schema: JsonView|
                    (r->Ok_0->0).1@ == #[trigger] json::written(schema) && admits_calls(
                        schema,
                        tools.deep_view(),
                    )
            } else {
                r == Ok::<Option<(String, String)>, String>(None)
            },
            _ => r == Ok::<Option<(String, String)>, String>(None),
        },
{
    let views = tools.deep_view();
    law_schema_iff_defs_agree(views);
    if let Ok(defs) = all_defs(views) {
        lemma_array_schema_admits(views, defs);
        assert(json::written(array_schema(views, defs)) == required_schema(views)->Ok_0);
    }
}

/// Whether a tool choice names the tool of this name.
pub open spec fn names(choice: ToolChoice, tool: Seq<char>) -> bool {
    match choice {
        ToolChoice::Function { function, .. } => function.name@ == tool,
        ToolChoice::AllowedTools { tools, .. } => exists|i: int|
            0 <= i < tools@.len() && (#[trigger] tools@[i] matches ToolReference::Function { name }
                && name@ == tool),
        ToolChoice::Value(_) => false,
    }
}

pub(crate) proof fn lemma_choice_names(choice: ToolChoice, name: Seq<char>)
    requires
        choice !is Value,
    ensures
        choice_allows(choice.deep_view(), name) == names(choice, name),
{
    if let ToolChoice::AllowedTools { tools: allowed, .. } = choice {
        let views = allowed.deep_view();
        if names(choice, name) {
            let i = choose|i: int|
                0 <= i < allowed@.len() && (
                #[trigger] allowed@[i] matches ToolReference::Function { name: n } && n@ == name);
            assert(reference_name(views[i]) == Some(name));
        }
        if choice_allows(choice.deep_view(), name) {
            let i = choose|i: int|
                0 <= i < views.len() && reference_name(#[trigger] views[i]) == Some(name);
            assert(views[i] == allowed@[i].deep_view());
            assert(allowed@[i] matches ToolReference::Function { name: n } && n@ == name);
        }
    }
}

/// A tool choice that names tools leaves those, in their order and each beside its form: one
/// more tool is left exactly where it is named. No other choice narrows anything.
pub proof fn law_choice_leaves_the_tools_that_it_names(
    tools: &Vec<Encoded<Tool>>,
    more: &Vec<Encoded<Tool>>,
    tool_choice: &Option<ToolChoice>,
    before: Option<Vec<Encoded<Tool>>>,
    after: Option<Vec<Encoded<Tool>>>,
)
    requires
        more@.len() == tools@.len() + 1,
        more@.drop_last() == tools@,
        call_ensures(filter_tools_by_tool_choice, (tools, tool_choice), before),
        call_ensures(filter_tools_by_tool_choice, (more, tool_choice), after),
    ensures
        before is Some == (*tool_choice is Some && (*tool_choice)->0 !is Value),
        after is Some == before is Some,
        tools@.len() == 0 && before is Some ==> before->0@.len() == 0,
        before is Some ==> after.deep_view()->0 == (if names(
            (*tool_choice)->0,
            more@.last().value.function.name@,
        ) {
            before.deep_view()->0.push(more@.last().deep_view())
        } else {
            before.deep_view()->0
        }),
{
    let all = more.deep_view();
    assert(all.drop_last() =~= tools.deep_view());
    assert(all.last() == more@.last().deep_view());
    if before is Some {
        lemma_choice_names((*tool_choice)->0, more@.last().value.function.name@);
        assert(before->0.deep_view().len() == before->0@.len());
    }
}

/// Each message adds the tool calls that an assistant made in it to the count, and no other
/// message adds any.
pub proof fn law_history_counts_the_calls_of_assistants(messages: Seq<ChatMessage>, next: ChatMessage)
    ensures
        history_calls(Seq::empty()) == 0,
        next matches ChatMessage::Assistant { tool_calls: Some(calls), .. } ==> history_calls(
            messages.push(next),
        ) == history_calls(messages) + calls@.len(),
        !(next matches ChatMessage::Assistant { tool_calls: Some(_), .. }) ==> history_calls(
            messages.push(next),
        ) == history_calls(messages),
{
    assert(messages.push(next).drop_last() =~= messages);
}

/// The identifier of a tool call of a Kimi model names the function and counts on from the
/// calls that the conversation already holds, so that no two calls of it have the same.
/// Any other begins with `call_` and has 24 hexadecimal digits.
pub proof fn law_call_identifiers(
    model: &str,
    tool_name: &str,
    tool_index: usize,
    history_count: usize,
    r: String,
)
    requires
        call_ensures(generate_tool_call_id, (model, tool_name, tool_index, history_count), r),
    ensures
        is_kimi(model@) ==> r@ == "functions."@ + tool_name@ + ":"@ + text::decimal(
            (history_count + tool_index) as nat,
        ),
        !is_kimi(model@) ==> {
            &&& r@.len() == 29
            &&& r@.take(5) == "call_"@
            &&& forall|i: int| 5 <= i < 29 ==> ids::is_hex(#[trigger] r@[i])
        },
{
    if !is_kimi(model@) {
        let digits = choose|digits: Seq<char>|
            #![trigger ids::is_plain_uuid(digits)]
            ids::is_plain_uuid(digits) && r@ == "call_"@ + digits.take(24);
        reveal_strlit("call_");
        assert(r@.take(5) =~= "call_"@);
        assert forall|i: int| 5 <= i < 29 implies ids::is_hex(#[trigger] r@[i]) by {
            assert(r@[i] == digits[i - 5]);
        }
    }
}

/// Whether these characters spell `kimi` at this place, in either case.
pub open spec fn spells_kimi(model: Seq<char>, i: int) -> bool {
    &&& 0 <= i <= model.len() - 4
    &&& model[i] == 'k' || model[i] == 'K'
    &&& model[i + 1] == 'i' || model[i + 1] == 'I'
    &&& model[i + 2] == 'm' || model[i + 2] == 'M'
    &&& model[i + 3] == 'i' || model[i + 3] == 'I'
}

/// A model is one of Kimi if and only if its name has `kimi` in it, in either case.
pub proof fn law_kimi_is_known_by_its_name(model: &str, r: bool)
    requires
        call_ensures(model_is_kimi, (model,), r),
    ensures
        r <==> exists|i: int| spells_kimi(model@, i),
{
    let bytes = vstd::utf8::encode_utf8(model@);
    if exists|i: int| spells_kimi(model@, i) {
        let i = choose|i: int| spells_kimi(model@, i);
        lemma_spelt_is_encoded(model@, i);
    }
    if exists|i: int| kimi_at(bytes, i) {
        let i = choose|i: int| kimi_at(bytes, i);
        lemma_encoded_is_spelt(model@, i);
    }
}

proof fn lemma_first_byte(s: Seq<char>)
    requires
        s.len() > 0,
    ensures
        ({
            let bytes = vstd::utf8::encode_utf8(s);
            let n = vstd::utf8::encode_scalar(s[0] as u32).len() as int;
            &&& 0 < n <= bytes.len()
            &&& bytes.skip(n) == vstd::utf8::encode_utf8(s.skip(1))
            &&& bytes[0] < 0x80 <==> (s[0] as u32) < 0x80
            &&& bytes[0] < 0x80 ==> n == 1 && bytes[0] == s[0] as u32
            &&& forall|i: int| 0 < i < n ==> (#[trigger] bytes[i]) >= 0x80
        }),
{
    let bytes = vstd::utf8::encode_utf8(s);
    let first = vstd::utf8::encode_scalar(s[0] as u32);
    vstd::utf8::encode_utf8_first_scalar(s);
    assert(s.drop_first() =~= s.skip(1));
    assert(bytes == first + vstd::utf8::encode_utf8(s.skip(1)));
    assert(bytes.skip(first.len() as int) =~= vstd::utf8::encode_utf8(s.skip(1)));
    let b = bytes[0];
    if b < 0x80 {
        assert(b & 0x7f == b) by (bit_vector)
            requires
                b < 0x80,
        ;
    }
}

proof fn lemma_letter(c: char, b: u8)
    requires
        c as u32 == b,
    ensures
        lower(b) == 107 <==> c == 'k' || c == 'K',
        lower(b) == 105 <==> c == 'i' || c == 'I',
        lower(b) == 109 <==> c == 'm' || c == 'M',
{
}

proof fn lemma_spelt_is_encoded(s: Seq<char>, i: int)
    requires
        spells_kimi(s, i),
    ensures
        exists|j: int| kimi_at(vstd::utf8::encode_utf8(s), j),
    decreases s.len(),
{
    let bytes = vstd::utf8::encode_utf8(s);
    lemma_first_byte(s);
    if i > 0 {
        let rest = s.skip(1);
        assert(spells_kimi(rest, i - 1));
        lemma_spelt_is_encoded(rest, i - 1);
        let j = choose|j: int| kimi_at(vstd::utf8::encode_utf8(rest), j);
        let n = vstd::utf8::encode_scalar(s[0] as u32).len() as int;
        assert(kimi_at(bytes.skip(n), j));
        assert(kimi_at(bytes, n + j));
    } else {
        let b = s.skip(1);
        let c = b.skip(1);
        let d = c.skip(1);
        lemma_first_byte(b);
        lemma_first_byte(c);
        lemma_first_byte(d);
        let p = vstd::utf8::encode_utf8(b);
        let q = vstd::utf8::encode_utf8(c);
        let w = vstd::utf8::encode_utf8(d);
        assert(p == bytes.skip(1));
        assert(q == p.skip(1));
        assert(w == q.skip(1));
        assert(bytes[1] == p[0]);
        assert(bytes[2] == p[1] && p[1] == q[0]);
        assert(bytes[3] == p[2] && p[2] == q[1] && q[1] == w[0]);
        assert(kimi_at(bytes, 0));
    }
}

proof fn lemma_encoded_is_spelt(s: Seq<char>, j: int)
    requires
        kimi_at(vstd::utf8::encode_utf8(s), j),
    ensures
        exists|i: int| spells_kimi(s, i),
    decreases s.len(),
{
    let bytes = vstd::utf8::encode_utf8(s);
    lemma_first_byte(s);
    let n = vstd::utf8::encode_scalar(s[0] as u32).len() as int;
    if j >= n {
        let rest = s.skip(1);
        assert(kimi_at(bytes.skip(n), j - n));
        lemma_encoded_is_spelt(rest, j - n);
        let i = choose|i: int| spells_kimi(rest, i);
        assert(spells_kimi(s, i + 1));
    } else {
        assert(j == 0) by {
            if j > 0 {
                assert(bytes[j] >= 0x80);
            }
        }
        assert(bytes[0] < 0x80 && bytes[1] < 0x80 && bytes[2] < 0x80 && bytes[3] < 0x80);
        lemma_letter(s[0], bytes[0]);
        let b = s.skip(1);
        let p = vstd::utf8::encode_utf8(b);
        assert(p == bytes.skip(1));
        assert(bytes[1] == p[0]);
        assert(b.len() > 0);
        lemma_first_byte(b);
        lemma_letter(b[0], bytes[1]);
        let c = b.skip(1);
        let q = vstd::utf8::encode_utf8(c);
        assert(q == p.skip(1));
        assert(bytes[2] == p[1] && p[1] == q[0]);
        assert(c.len() > 0);
        lemma_first_byte(c);
        lemma_letter(c[0], bytes[2]);
        let d = c.skip(1);
        let w = vstd::utf8::encode_utf8(d);
        assert(w == q.skip(1));
        assert(bytes[3] == p[2] && p[2] == q[1] && q[1] == w[0]);
        assert(d.len() > 0);
        lemma_first_byte(d);
        lemma_letter(d[0], bytes[3]);
        assert(s.len() >= 4);
        assert(s[1] == b[0] && s[2] == c[0] && s[3] == d[0]);
        assert(spells_kimi(s, 0));
    }
}

/// Whether a value is an object whose fields go by these names and no others.
pub open spec fn has_only(v: JsonView, names: Set<Seq<char>>) -> bool {
    forall|name: Seq<char>| #[trigger] json::field(v, name) is Some ==> names.contains(name)
}

/// Whether the schema of a call asks for nothing but the name and the parameters.
pub open spec fn asks_only_for_a_call(schema: JsonView) -> bool {
    &&& has_only(schema, set!["properties"@, "required"@])
    &&& json::field(schema, "properties"@) matches Some(properties)
    &&& has_only(properties, set!["name"@, "parameters"@])
    &&& json::field(schema, "required"@) matches Some(JsonView::Array(names))
    &&& names.len() == 2
    &&& json::field(properties, "name"@) matches Some(name)
    &&& has_only(name, set!["type"@, "enum"@])
    &&& has_field(name, "type"@, JsonView::Str("string"@))
}

/// The schema of a list of calls asks for nothing else: neither its list nor its items nor its
/// calls have any other condition, and it defines only what a tool defines.
pub proof fn law_list_schema_asks_for_nothing_else(
    tools: &Vec<Tool>,
    r: Result<String, String>,
) -> (schema: JsonView)
    requires
        call_ensures(build_required_array_schema, (tools,), r),
        r is Ok,
    ensures
        r->Ok_0@ == json::written(schema),
        admits_calls(schema, tools.deep_view()),
        has_only(schema, set!["type"@, "minItems"@, "items"@, "$defs"@]),
        json::field(schema, "items"@) matches Some(items) && {
            &&& has_only(items, set!["type"@, "anyOf"@])
            &&& json::field(items, "anyOf"@) matches Some(JsonView::Array(calls))
            &&& forall|i: int| 0 <= i < calls.len() ==> asks_only_for_a_call(#[trigger] calls[i])
        },
        json::field(schema, "$defs"@) matches Some(defs) ==> forall|name: Seq<char>| #[trigger]
            json::field(defs, name) is Some ==> exists|i: int|
                0 <= i < tools@.len() && json::field(
                    json::field(
                        (#[trigger] tools.deep_view()[i]).function.parameters,
                        "$defs"@,
                    )->0,
                    name,
                ) == json::field(defs, name),
{
    let views = tools.deep_view();
    let defs = all_defs(views)->Ok_0;
    let schema = array_schema(views, defs);
    lemma_array_schema_admits(views, defs);
    lemma_schema_names();
    lemma_defs_agree(views);
    let f = |t: ToolView| call_schema(t);
    let calls = views.map_values(f);
    let items = json::field(schema, "items"@)->0;
    assert(json::field(items, "anyOf"@) == Some(JsonView::Array(calls)));
    assert forall|i: int| 0 <= i < calls.len() implies asks_only_for_a_call(
        #[trigger] calls[i],
    ) by {
        assert(calls[i] == call_schema(views[i]));
    }
    if let Some(defined) = json::field(schema, "$defs"@) {
        assert forall|name: Seq<char>| #[trigger]
            json::field(defined, name) is Some implies exists|i: int|
            0 <= i < tools@.len() && json::field(
                json::field((#[trigger] views[i]).function.parameters, "$defs"@)->0,
                name,
            ) == json::field(defined, name) by {
            assert(defs.dom().contains(name));
            let i = choose|i: int|
                0 <= i < views.len() && #[trigger] tool_defs(views[i]).dom().contains(name)
                    && defs[name] == tool_defs(views[i])[name];
            assert(json::field(
                json::field(views[i].function.parameters, "$defs"@)->0,
                name,
            ) == json::field(defined, name));
        }
    }
    schema
}

/// There is no schema if and only if two tools define one name differently; the message says
/// so of a name that one of them defines.
pub proof fn law_conflicting_definitions_are_refused(tools: &Vec<Tool>, r: Result<String, String>)
    requires
        call_ensures(build_required_array_schema, (tools,), r),
    ensures
        r is Err <==> exists|i: int, j: int, name: Seq<char>|
            #![trigger tool_defs(tools.deep_view()[i]).dom().contains(name), tool_defs(tools.deep_view()[j]).dom().contains(name)]
            0 <= i < tools@.len() && 0 <= j < tools@.len() && tool_defs(
                tools.deep_view()[i],
            ).dom().contains(name) && tool_defs(tools.deep_view()[j]).dom().contains(name)
                && json::settled(tool_defs(tools.deep_view()[i])[name]) != json::settled(
                tool_defs(tools.deep_view()[j])[name],
            ),
        r matches Err(e) ==> exists|name: Seq<char>|
            e@ == #[trigger] ("Tool definition '"@ + name)
                + "' has multiple conflicting schemas, which is not supported"@,
{
    lemma_defs_agree(tools.deep_view());
    if let Err(e) = r {
        let name = all_defs(tools.deep_view())->Err_0;
        assert(e@ == ("Tool definition '"@ + name)
            + "' has multiple conflicting schemas, which is not supported"@);
    }
}

} // verus!
