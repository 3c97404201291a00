//! Unified gRPC client wrapper for the SGLang and vLLM backends, and what the router makes
//! of a worker's client and model information.

use vstd::prelude::*;

use super::proto_stream_wrapper::ProtoGenerateRequest;
use crate::comm::error;
use crate::comm::error::ErrorResponse;
use crate::json;
use crate::json::find;
use crate::json::positive_text;
use crate::json::Json;
use crate::json::JsonView;
use crate::text;

verus! {

#[derive(Debug)]
pub struct HealthCheckResponse {
    pub healthy: bool,
    pub message: String,
}

/// The kinds of backends.
#[derive(Clone, Copy, Debug, PartialEq, Eq, Structural)]
pub enum RuntimeType {
    Sglang,
    Vllm,
}

/// The backend of this name. Any other name is an error.
pub fn parse_runtime_type(runtime_type: &str) -> (r: Result<RuntimeType, String>)
    ensures
        match r {
            Ok(RuntimeType::Sglang) => runtime_type@ == "sglang"@,
            Ok(RuntimeType::Vllm) => runtime_type@ == "vllm"@ && runtime_type@ != "sglang"@,
            Err(e) => {
                &&& runtime_type@ != "sglang"@
                &&& runtime_type@ != "vllm"@
                &&& e@ == "Unknown runtime type: "@ + runtime_type@
            },
        },
{
    if text::same(runtime_type, "sglang") {
        Ok(RuntimeType::Sglang)
    } else if text::same(runtime_type, "vllm") {
        Ok(RuntimeType::Vllm)
    } else {
        Err(text::join2("Unknown runtime type: ", runtime_type))
    }
}

/// A client of a backend.
pub enum GrpcClient<S, V> {
    Sglang(S),
    Vllm(V),
}

impl<S, V> GrpcClient<S, V> {
    pub fn as_sglang(&self) -> (r: &S)
        requires
            *self is Sglang,
        ensures
            *r == self->Sglang_0,
    {
        match self {
            GrpcClient::Sglang(client) => client,
            _ => vstd::pervasive::unreached(),
        }
    }

    pub fn as_sglang_mut(&mut self) -> (r: &mut S)
        requires
            *old(self) is Sglang,
        ensures
            *r == old(self)->Sglang_0,
            *final(self) == GrpcClient::<S, V>::Sglang(*final(r)),
    {
        match self {
            GrpcClient::Sglang(client) => client,
            _ => vstd::pervasive::unreached(),
        }
    }

    pub fn as_vllm(&self) -> (r: &V)
        requires
            *self is Vllm,
        ensures
            *r == self->Vllm_0,
    {
        match self {
            GrpcClient::Vllm(client) => client,
            _ => vstd::pervasive::unreached(),
        }
    }

    pub fn as_vllm_mut(&mut self) -> (r: &mut V)
        requires
            *old(self) is Vllm,
        ensures
            *r == old(self)->Vllm_0,
            *final(self) == GrpcClient::<S, V>::Vllm(*final(r)),
    {
        match self {
            GrpcClient::Vllm(client) => client,
            _ => vstd::pervasive::unreached(),
        }
    }

    pub fn is_sglang(&self) -> (r: bool)
        ensures
            r == (*self is Sglang),
    {
        match self {
            GrpcClient::Sglang(_) => true,
            GrpcClient::Vllm(_) => false,
        }
    }

    pub fn is_vllm(&self) -> (r: bool)
        ensures
            r == (*self is Vllm),
    {
        match self {
            GrpcClient::Sglang(_) => false,
            GrpcClient::Vllm(_) => true,
        }
    }

    pub open spec fn runtime(self) -> RuntimeType {
        match self {
            GrpcClient::Sglang(_) => RuntimeType::Sglang,
            GrpcClient::Vllm(_) => RuntimeType::Vllm,
        }
    }

    pub fn runtime_type(&self) -> (r: RuntimeType)
        ensures
            r == self.runtime(),
    {
        match self {
            GrpcClient::Sglang(_) => RuntimeType::Sglang,
            GrpcClient::Vllm(_) => RuntimeType::Vllm,
        }
    }

    /// Whether the request is one for this backend.
    pub fn matches(&self, req: &ProtoGenerateRequest) -> (r: bool)
        ensures
            r == (*self is Sglang == *req is Sglang),
    {
        self.is_sglang() == req.is_sglang()
    }
}

/// The label of a value. What is empty, zero, negative, fractional or false has none.
pub open spec fn label(value: JsonView) -> Option<Seq<char>> {
    match value {
        JsonView::Str(s) => if s.len() > 0 {
            Some(s)
        } else {
            None
        },
        JsonView::Number(n) => if json::is_positive(n) {
            Some(n)
        } else {
            None
        },
        JsonView::Bool(true) => Some("true"@),
        JsonView::Array(items) => if items.len() > 0 {
            Some(json::written(value))
        } else {
            None
        },
        _ => None,
    }
}

/// The labels of fields, by their names.
pub open spec fn labels(fields: Map<Seq<char>, JsonView>) -> Map<Seq<char>, Seq<char>> {
    Map::new(
        |name: Seq<char>| fields.dom().contains(name) && label(fields[name]) is Some,
        |name: Seq<char>| label(fields[name])->0,
    )
}

/// Whether pairs of names and texts say what a map says, each name once.
pub open spec fn lists(pairs: Seq<(String, String)>, all: Map<Seq<char>, Seq<char>>) -> bool {
    &&& forall|i: int, j: int|
        0 <= i < j < pairs.len() ==> (#[trigger] pairs[i]).0@ != (#[trigger] pairs[j]).0@
    &&& forall|i: int|
        0 <= i < pairs.len() ==> all.dom().contains((#[trigger] pairs[i]).0@) && all[pairs[i].0@]
            == pairs[i].1@
    &&& forall|name: Seq<char>| #[trigger]
        all.dom().contains(name) ==> exists|i: int|
            0 <= i < pairs.len() && (#[trigger] pairs[i]).0@ == name
}

fn make_label(value: &Json) -> (r: Option<String>)
    ensures
        r.deep_view() == label(value@),
{
    match value {
        Json::Str(s) => if s.as_str().is_empty() {
            None
        } else {
            Some(s.clone())
        },
        Json::Number(n) => positive_text(n),
        Json::Bool(b) => if *b {
            Some("true".to_owned())
        } else {
            None
        },
        Json::Array(items) => if items.len() == 0 {
            None
        } else {
            Some(value.to_text())
        },
        _ => None,
    }
}

fn is_named(pairs: &Vec<(String, String)>, name: &str) -> (r: bool)
    ensures
        r == exists|i: int| 0 <= i < pairs@.len() && (#[trigger] pairs@[i]).0@ == name@,
{
    let mut i: usize = 0;
    while i < pairs.len()
        invariant
            i <= pairs@.len(),
            forall|j: int| 0 <= j < i ==> (#[trigger] pairs@[j]).0@ != name@,
        decreases pairs@.len() - i,
    {
        if text::same(pairs[i].0.as_str(), name) {
            assert(pairs@[i as int].0@ == name@);
            return true;
        }
        i = i + 1;
    }
    false
}

/// What a backend tells of its model, as JSON.
#[derive(Debug)]
pub enum ModelInfo {
    Sglang(Json),
    Vllm(Json),
}

impl ModelInfo {
    /// What the backend told.
    pub open spec fn info(self) -> Json {
        match self {
            ModelInfo::Sglang(info) => info,
            ModelInfo::Vllm(info) => info,
        }
    }

    /// The labels of the fields of an object; anything else has none.
    pub fn to_labels(&self) -> (r: Vec<(String, String)>)
        ensures
            lists(
                r@,
                labels(
                    match self.info()@ {
                        JsonView::Object(fields) => fields,
                        _ => Map::empty(),
                    },
                ),
            ),
    {
        let info = match self {
            ModelInfo::Sglang(info) => info,
            ModelInfo::Vllm(info) => info,
        };
        let mut out: Vec<(String, String)> = Vec::new();
        if let Json::Object(fields) = info {
            let ghost all = labels(json::fields_view(fields@));
            let mut i: usize = 0;
            while i < fields.len()
                invariant
                    i <= fields@.len(),
                    all == labels(json::fields_view(fields@)),
                    lists(
                        out@,
                        all.restrict(json::fields_view(fields@.take(i as int)).dom()),
                    ),
                decreases fields@.len() - i,
            {
                let ghost seen = json::fields_view(fields@.take(i as int)).dom();
                let ghost before = out@;
                let name = fields[i].0.as_str();
                proof {
                    json::lemma_fields_push(fields@.take(i as int), fields@[i as int]);
                    assert(fields@.take(i + 1) =~= fields@.take(i as int).push(fields@[i as int]));
                    json::lemma_field_named(fields@, i as int);
                }
                let ghost now = json::fields_view(fields@.take(i + 1)).dom();
                assert(now =~= seen.insert(name@));
                if let Some(value) = find(fields, name) {
                    if let Some(l) = make_label(value) {
                        if !is_named(&out, name) {
                            out.push((fields[i].0.clone(), l));
                            assert(out@.last().0@ == name@);
                        }
                    }
                }
                proof {
                    assert forall|n: Seq<char>| #[trigger]
                        all.restrict(now).dom().contains(n) implies exists|j: int|
                        0 <= j < out@.len() && (#[trigger] out@[j]).0@ == n by {
                        if all.restrict(seen).dom().contains(n) {
                            let j = choose|j: int|
                                0 <= j < before.len() && (#[trigger] before[j]).0@ == n;
                            assert(out@[j] == before[j]);
                        }
                    }
                }
                i = i + 1;
            }
            assert(fields@.take(fields@.len() as int) =~= fields@);
            assert(all.restrict(json::fields_view(fields@).dom()) =~= all);
        }
        out
    }
}

/// The client of a worker, from what the worker gave for it: a client, none, or an error.
pub fn get_grpc_client_from_worker<C>(given: Result<Option<C>, String>) -> (r: Result<C, ErrorResponse>)
    ensures
        match given {
            Ok(Some(c)) => r == Ok::<C, ErrorResponse>(c),
            Ok(None) => r matches Err(e) && e.is(
                500,
                "worker_not_configured_for_grpc"@,
                "Selected worker is not configured for gRPC"@,
            ),
            Err(reason) => r matches Err(e) && e.is(
                500,
                "get_grpc_client_failed"@,
                "Failed to get gRPC client: "@ + reason@,
            ),
        },
{
    match given {
        Ok(Some(c)) => Ok(c),
        Ok(None) => Err(
            error::internal_error(
                "worker_not_configured_for_grpc",
                "Selected worker is not configured for gRPC".to_owned(),
            ),
        ),
        Err(reason) => Err(
            error::internal_error(
                "get_grpc_client_failed",
                text::join2("Failed to get gRPC client: ", reason.as_str()),
            ),
        ),
    }
}

/// A backend is known by its name alone, and no other name is one.
pub proof fn law_backends_are_known_by_name(runtime_type: &str, r: Result<RuntimeType, String>)
    requires
        call_ensures(parse_runtime_type, (runtime_type,), r),
    ensures
        r == Ok::<RuntimeType, String>(RuntimeType::Sglang) <==> runtime_type@ == "sglang"@,
        r == Ok::<RuntimeType, String>(RuntimeType::Vllm) <==> runtime_type@ == "vllm"@,
        r matches Err(e) ==> e@ == "Unknown runtime type: "@ + runtime_type@,
{
    reveal_strlit("sglang");
    reveal_strlit("vllm");
    assert("sglang"@.len() != "vllm"@.len());
}

/// A client is of one backend, tells which, and takes the requests of that one.
pub proof fn law_client_is_of_one_backend<S, V>(
    client: &GrpcClient<S, V>,
    req: &ProtoGenerateRequest,
    sglang: bool,
    vllm: bool,
    kind: RuntimeType,
    fits: bool,
)
    requires
        call_ensures(GrpcClient::<S, V>::is_sglang, (client,), sglang),
        call_ensures(GrpcClient::<S, V>::is_vllm, (client,), vllm),
        call_ensures(GrpcClient::<S, V>::runtime_type, (client,), kind),
        call_ensures(GrpcClient::<S, V>::matches, (client, req), fits),
    ensures
        sglang != vllm,
        sglang <==> *client is Sglang,
        sglang <==> kind == RuntimeType::Sglang,
        vllm <==> kind == RuntimeType::Vllm,
        fits <==> (*client is Sglang && *req is Sglang) || (*client is Vllm && *req is Vllm),
{
}

/// Whether a label says what a value is.
pub open spec fn says_value(value: JsonView, l: Seq<char>) -> bool {
    match value {
        JsonView::Str(s) => s.len() > 0 && l == s,
        JsonView::Number(n) => json::is_positive(n) && l == n,
        JsonView::Bool(b) => b && l == "true"@,
        JsonView::Array(items) => items.len() > 0 && l == json::written(value),
        _ => false,
    }
}

/// Whether a label says what the field of this name holds.
pub open spec fn field_says(told: JsonView, name: Seq<char>, l: Seq<char>) -> bool {
    &&& json::field(told, name) matches Some(value)
    &&& says_value(value, l)
}

/// Each label is that of a field, under its name, and says what the field holds. A field whose
/// text or list is not empty, whose number is positive or which is true has one, and no name
/// comes twice.
pub proof fn law_labels_say_what_the_fields_hold(info: &ModelInfo, r: Vec<(String, String)>)
    requires
        call_ensures(ModelInfo::to_labels, (info,), r),
    ensures
        ({
            let told = match *info {
                ModelInfo::Sglang(j) => j@,
                ModelInfo::Vllm(j) => j@,
            };
            &&& forall|i: int|
                0 <= i < r@.len() ==> {
                    &&& json::field(told, (#[trigger] r@[i]).0@) matches Some(value)
                    &&& says_value(value, r@[i].1@)
                }
            &&& forall|name: Seq<char>, l: Seq<char>| #[trigger]
                field_says(told, name, l) ==> exists|i: int|
                    0 <= i < r@.len() && (#[trigger] r@[i]).0@ == name && r@[i].1@ == l
            &&& forall|i: int, j: int|
                0 <= i < j < r@.len() ==> (#[trigger] r@[i]).0@ != (#[trigger] r@[j]).0@
        }),
{
    let told = info.info()@;
    let fields = match told {
        JsonView::Object(fields) => fields,
        _ => Map::empty(),
    };
    let all = labels(fields);
    assert forall|i: int| 0 <= i < r@.len() implies {
        &&& json::field(told, (#[trigger] r@[i]).0@) matches Some(value)
        &&& says_value(value, r@[i].1@)
    } by {
        assert(all.dom().contains(r@[i].0@));
    }
    assert forall|name: Seq<char>, l: Seq<char>| #[trigger] field_says(told, name, l) implies exists|i: int|
        0 <= i < r@.len() && (#[trigger] r@[i]).0@ == name && r@[i].1@ == l by {
        assert(fields.dom().contains(name));
        assert(label(fields[name]) == Some(l));
        assert(all.dom().contains(name));
        let i = choose|i: int| 0 <= i < r@.len() && (#[trigger] r@[i]).0@ == name;
        assert(all[r@[i].0@] == r@[i].1@);
    }
}

/// The client that a worker gave is used; a worker without one, or that fails, is told apart
/// by the code.
pub proof fn law_client_of_a_worker_is_used<C>(
    given: Result<Option<C>, String>,
    r: Result<C, ErrorResponse>,
)
    requires
        call_ensures(get_grpc_client_from_worker::<C>, (given,), r),
    ensures
        r is Ok <==> given matches Ok(Some(_)),
        r matches Ok(client) ==> given == Ok::<Option<C>, String>(Some(client)),
        r matches Err(e) ==> e.status == 500,
        given matches Ok(None) ==> (r matches Err(e) && e.code@
            == "worker_not_configured_for_grpc"@),
        given matches Err(why) ==> (r matches Err(e) && e.code@ == "get_grpc_client_failed"@
            && e.message@ == "Failed to get gRPC client: "@ + why@),
{
}

} // verus!
