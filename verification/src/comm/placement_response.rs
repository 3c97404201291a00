//! Where a request is placed, and what is answered where it cannot be placed.

use vstd::prelude::*;

use super::error;
use super::error::ErrorResponse;
use crate::protocols::UNKNOWN_MODEL_ID;
use crate::text;

verus! {

/// Why a request could not be placed.
#[derive(Debug)]
pub enum PlacementError {
    NoWorkers,
    NoAvailableWorkers,
    NoPrefillWorkers,
    NoDecodeWorkers,
    PolicyReturnedNone,
    ModelNotFound { model_id: String },
}

/// The model that a message names.
pub open spec fn model_named(model_id: Option<Seq<char>>) -> Seq<char> {
    match model_id {
        Some(model) => model,
        None => UNKNOWN_MODEL_ID@,
    }
}

/// The error code and the message that tell why a request could not be placed.
pub open spec fn placement_failure(err: PlacementError, model_id: Option<Seq<char>>) -> (
    Seq<char>,
    Seq<char>,
) {
    let model = model_named(model_id);
    match err {
        PlacementError::NoWorkers => (
            "no_workers"@,
            "No workers in registry (model: "@ + model + ")"@,
        ),
        PlacementError::NoAvailableWorkers => (
            "no_available_workers"@,
            "No available workers for model: "@ + model,
        ),
        PlacementError::NoPrefillWorkers => (
            "no_prefill_workers"@,
            "No available prefill workers for model: "@ + model,
        ),
        PlacementError::NoDecodeWorkers => (
            "no_decode_workers"@,
            "No available decode workers for model: "@ + model,
        ),
        PlacementError::PolicyReturnedNone => (
            "policy_returned_none"@,
            "Load balancing policy returned no worker for model: "@ + model,
        ),
        PlacementError::ModelNotFound { model_id } => (
            "model_not_found"@,
            "Model not found: "@ + model_id@,
        ),
    }
}

/// A request that cannot be placed is answered as a service that is not available, for
/// whatever reason.
pub fn placement_err_to_response(err: PlacementError, model_id: Option<&str>) -> (r: ErrorResponse)
    ensures
        ({
            let told = placement_failure(
                err,
                match model_id {
                    Some(model) => Some(model@),
                    None => None,
                },
            );
            r.is(503, told.0, told.1)
        }),
{
    let model = match model_id {
        Some(model) => model,
        None => UNKNOWN_MODEL_ID,
    };
    match err {
        PlacementError::NoWorkers => error::service_unavailable(
            "no_workers",
            text::join3("No workers in registry (model: ", model, ")"),
        ),
        PlacementError::NoAvailableWorkers => error::service_unavailable(
            "no_available_workers",
            text::join2("No available workers for model: ", model),
        ),
        PlacementError::NoPrefillWorkers => error::service_unavailable(
            "no_prefill_workers",
            text::join2("No available prefill workers for model: ", model),
        ),
        PlacementError::NoDecodeWorkers => error::service_unavailable(
            "no_decode_workers",
            text::join2("No available decode workers for model: ", model),
        ),
        PlacementError::PolicyReturnedNone => error::service_unavailable(
            "policy_returned_none",
            text::join2("Load balancing policy returned no worker for model: ", model),
        ),
        PlacementError::ModelNotFound { model_id } => error::service_unavailable(
            "model_not_found",
            text::join2("Model not found: ", model_id.as_str()),
        ),
    }
}

/// What is read of a worker.
#[derive(Debug)]
pub struct WorkerInfo {
    pub url: String,
    /// Where a decode worker finds this one, if this one prefills.
    pub bootstrap_host: String,
    pub bootstrap_port: Option<u16>,
}

/// Where a request goes: to one worker, or to a pair of which one prefills and the other
/// decodes. The names are those of the policies that picked them.
#[derive(Debug)]
pub enum PlacementPlan {
    Single { worker: WorkerInfo, policy_name: String },
    Pair { prefill: WorkerInfo, decode: WorkerInfo, prefill_policy: String, decode_policy: String },
}

/// How the workers are spoken to.
#[derive(Clone, Copy, Debug, PartialEq, Eq, Structural)]
pub enum Protocol {
    Http,
    Grpc,
}

/// What a request is placed by.
#[derive(Debug)]
pub struct RequestDescriptor {
    pub model_id: Option<String>,
    pub protocol: Option<Protocol>,
    pub text: Option<String>,
    pub tokens: Option<Vec<u32>>,
    pub stream: bool,
}

/// Whether a text stands somewhere in a message.
pub open spec fn is_named_in(message: Seq<char>, named: Seq<char>) -> bool {
    exists|at: int|
        0 <= at <= message.len() - named.len() && #[trigger] message.subrange(
            at,
            at + named.len(),
        ) == named
}

proof fn lemma_is_named_in(before: Seq<char>, named: Seq<char>, after: Seq<char>)
    ensures
        is_named_in(before + named + after, named),
{
    let message = before + named + after;
    let at = before.len() as int;
    assert(message.subrange(at, at + named.len()) =~= named);
}

/// A request that cannot be placed is answered with the status of a service that is not
/// available. The code is the name of what is missing, and the message names the model: the
/// one that was not found, or else the one that was asked for, `unknown` where none was.
pub proof fn law_unplaced_request_is_told_why(
    err: PlacementError,
    model_id: Option<&str>,
    r: ErrorResponse,
)
    requires
        call_ensures(placement_err_to_response, (err, model_id), r),
    ensures
        r.status == 503,
        r.code@ == (match err {
            PlacementError::NoWorkers => "no_workers"@,
            PlacementError::NoAvailableWorkers => "no_available_workers"@,
            PlacementError::NoPrefillWorkers => "no_prefill_workers"@,
            PlacementError::NoDecodeWorkers => "no_decode_workers"@,
            PlacementError::PolicyReturnedNone => "policy_returned_none"@,
            PlacementError::ModelNotFound { .. } => "model_not_found"@,
        }),
        err matches PlacementError::ModelNotFound { model_id: missing } ==> is_named_in(
            r.message@,
            missing@,
        ),
        !(err is ModelNotFound) ==> (model_id matches Some(model) ==> is_named_in(
            r.message@,
            model@,
        )),
        !(err is ModelNotFound) && model_id is None ==> is_named_in(r.message@, "unknown"@),
{
    let model = match model_id {
        Some(model) => model@,
        None => "unknown"@,
    };
    let told = placement_failure(
        err,
        match model_id {
            Some(model) => Some(model@),
            None => None,
        },
    );
    let none = Seq::<char>::empty();
    match err {
        PlacementError::NoWorkers => {
            lemma_is_named_in("No workers in registry (model: "@, model, ")"@);
        },
        PlacementError::NoAvailableWorkers => {
            lemma_is_named_in("No available workers for model: "@, model, none);
        },
        PlacementError::NoPrefillWorkers => {
            lemma_is_named_in("No available prefill workers for model: "@, model, none);
        },
        PlacementError::NoDecodeWorkers => {
            lemma_is_named_in("No available decode workers for model: "@, model, none);
        },
        PlacementError::PolicyReturnedNone => {
            lemma_is_named_in(
                "Load balancing policy returned no worker for model: "@,
                model,
                none,
            );
        },
        PlacementError::ModelNotFound { model_id: missing } => {
            lemma_is_named_in("Model not found: "@, missing@, none);
        },
    }
    assert(told.1 + none =~= told.1);
}

} // verus!
