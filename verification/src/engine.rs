//! The estimation engine: routes a descriptor to the static formula or to
//! the remote collaborator, and wraps either outcome in a tagged result.

use vstd::prelude::*;

use crate::classify::classify;
use crate::classify::is_blob_transaction as classify_is_blob;
use crate::classify::lemma_static_path_gas_bounded;
use crate::classify::needs_simulation as classify_needs_simulation;
use crate::classify::spec_classify;
use crate::classify::spec_is_blob_transaction;
use crate::classify::spec_needs_simulation;
use crate::classify::EstimationPath;
use crate::descriptor::CallRequest;
use crate::formula::calculate_static_gas as formula_static_gas;
use crate::formula::spec_static_gas;
use crate::uint256::Uint256;

verus! {

/// The tag recording which path produced an estimate. This is a contractual,
/// caller-visible field, not diagnostic noise.
#[derive(Clone, Copy, Debug, PartialEq, Eq, Structural)]
pub enum EstimationMethod {
    /// The amount came from the static formula.
    Static,
    /// The amount came from the remote simulation.
    Rpc,
}

impl EstimationMethod {
    /// The wire spelling of the tag.
    pub open spec fn spec_tag(self) -> Seq<char> {
        match self {
            EstimationMethod::Static => "static"@,
            EstimationMethod::Rpc => "rpc"@,
        }
    }

    /// Returns the wire spelling of the tag.
    pub fn as_str(&self) -> (r: &'static str)
        ensures
            r@ == self.spec_tag(),
    {
        match self {
            EstimationMethod::Static => "static",
            EstimationMethod::Rpc => "rpc",
        }
    }
}

/// A successful estimate: the amount, and the path that produced it.
#[derive(Clone, Copy, Debug, PartialEq, Eq, Structural)]
pub struct GasEstimateResponse {
    /// The estimated gas amount.
    pub gas_limit: Uint256,
    /// Which estimation path produced the amount.
    pub method: EstimationMethod,
}

/// The body of an error reply: a descriptive message.
#[derive(Clone, Debug)]
pub struct ErrorResponse {
    /// The message shown to the caller.
    pub error: String,
}

/// The two failure kinds the engine exposes: a request that could not be
/// understood, and a collaborator that failed. Nothing else can fail.
#[derive(Clone, Debug)]
pub enum ApiError {
    /// The input could not be parsed into the expected shape.
    BadRequest(String),
    /// The remote collaborator returned an error, timed out, or answered
    /// unintelligibly.
    InternalServerError(String),
}

impl ApiError {
    /// The message carried by either kind.
    pub open spec fn spec_message(self) -> Seq<char> {
        match self {
            ApiError::BadRequest(m) => m@,
            ApiError::InternalServerError(m) => m@,
        }
    }

    /// The status code each kind maps to at the boundary.
    pub open spec fn spec_status(self) -> u16 {
        match self {
            ApiError::BadRequest(_) => 400,
            ApiError::InternalServerError(_) => 500,
        }
    }

    /// Returns the boundary status code for this error.
    pub fn status_code(&self) -> (r: u16)
        ensures
            r == self.spec_status(),
    {
        match self {
            ApiError::BadRequest(_) => 400,
            ApiError::InternalServerError(_) => 500,
        }
    }

    /// Builds the reply body carrying this error's message.
    pub fn to_error_response(&self) -> (r: ErrorResponse)
        ensures
            r.error@ == self.spec_message(),
    {
        match self {
            ApiError::BadRequest(m) => ErrorResponse { error: m.clone() },
            ApiError::InternalServerError(m) => ErrorResponse { error: m.clone() },
        }
    }
}

/// The capability the engine needs from the remote collaborator: one
/// estimate call that yields a gas amount or reports a failure. Nothing is
/// promised of the outcome — the engine must be correct whatever comes back.
pub trait RpcEstimator {
    /// Asks the collaborator to simulate the descriptor and bound its gas.
    fn estimate(&self, tx: &CallRequest) -> Result<Uint256, String>;
}

/// The response produced on the static path.
pub open spec fn spec_static_response(tx: CallRequest) -> GasEstimateResponse {
    GasEstimateResponse {
        gas_limit: Uint256 { hi: 0, lo: spec_static_gas(tx) as u128 },
        method: EstimationMethod::Static,
    }
}

/// What the engine makes of a collaborator outcome: a successful amount is
/// passed through untouched and tagged as the RPC path; a failure becomes an
/// upstream error and no result.
pub open spec fn spec_rpc_outcome_response(outcome: Result<Uint256, String>) -> Result<
    GasEstimateResponse,
    ApiError,
> {
    match outcome {
        Ok(g) => Ok(GasEstimateResponse { gas_limit: g, method: EstimationMethod::Rpc }),
        Err(m) => Err(ApiError::InternalServerError(m)),
    }
}

/// The whole engine as a function of the descriptor and of the collaborator
/// outcome; on the static path the outcome is ignored.
pub open spec fn spec_estimate(tx: CallRequest, outcome: Result<Uint256, String>) -> Result<
    GasEstimateResponse,
    ApiError,
> {
    if spec_classify(tx) == EstimationPath::Simulate {
        spec_rpc_outcome_response(outcome)
    } else {
        Ok(spec_static_response(tx))
    }
}

/// Builds the static-path response for a descriptor the classifier kept off
/// the simulation path.
pub fn static_response(tx: &CallRequest) -> (r: GasEstimateResponse)
    requires
        spec_classify(*tx) == EstimationPath::Static,
    ensures
        r == spec_static_response(*tx),
{
    proof {
        lemma_static_path_gas_bounded(*tx);
    }
    let gas = formula_static_gas(tx);
    GasEstimateResponse { gas_limit: Uint256::from_u64(gas), method: EstimationMethod::Static }
}

/// Wraps what the collaborator produced, exactly as `spec_rpc_outcome_response`
/// states it.
pub fn wrap_rpc_outcome(outcome: Result<Uint256, String>) -> (r: Result<
    GasEstimateResponse,
    ApiError,
>)
    ensures
        r == spec_rpc_outcome_response(outcome),
{
    match outcome {
        Ok(gas_limit) => Ok(GasEstimateResponse { gas_limit, method: EstimationMethod::Rpc }),
        Err(message) => Err(ApiError::InternalServerError(message)),
    }
}

/// The estimation engine, generic over the collaborator so that callers can
/// substitute a deterministic stand-in.
pub struct GasEstimator<T: RpcEstimator> {
    /// The handle to the remote collaborator, shared across requests.
    pub backend: T,
}

impl<T: RpcEstimator> GasEstimator<T> {
    /// Builds an engine around the given collaborator handle.
    pub fn new(backend: T) -> (r: Self)
        ensures
            r == (GasEstimator { backend }),
    {
        GasEstimator { backend }
    }

    /// Whether the descriptor declares the blob-carrying envelope type.
    pub fn is_blob_transaction(tx: &CallRequest) -> (r: bool)
        ensures
            r == spec_is_blob_transaction(*tx),
    {
        classify_is_blob(tx)
    }

    /// Whether the descriptor may reach contract code and therefore needs a
    /// remote simulation.
    pub fn needs_simulation(&self, tx: &CallRequest) -> (r: bool)
        ensures
            r == spec_needs_simulation(*tx),
    {
        classify_needs_simulation(tx)
    }

    /// Computes the static formula over the given descriptor.
    pub fn calculate_static_gas(&self, tx: &CallRequest) -> (gas: u64)
        requires
            spec_static_gas(*tx) <= u64::MAX,
        ensures
            gas == spec_static_gas(*tx),
    {
        formula_static_gas(tx)
    }

    /// Estimates the descriptor's gas limit: classifies it, computes the
    /// static formula or defers to the collaborator, and tags the result
    /// with the path actually taken. Only the simulation path can fail.
    pub fn estimate_gas(&self, tx: CallRequest) -> (r: Result<GasEstimateResponse, ApiError>)
        ensures
            spec_classify(tx) == EstimationPath::Static ==> r == Ok::<GasEstimateResponse, ApiError>(
                spec_static_response(tx),
            ),
            spec_classify(tx) == EstimationPath::Simulate ==> exists|o: Result<Uint256, String>|
                r == #[trigger] spec_rpc_outcome_response(o),
            r matches Ok(resp) ==> (resp.method == EstimationMethod::Static <==> spec_classify(tx)
                == EstimationPath::Static),
            r matches Err(e) ==> spec_classify(tx) == EstimationPath::Simulate
                && e is InternalServerError,
    {
        match classify(&tx) {
            EstimationPath::Simulate => {
                let outcome = self.backend.estimate(&tx);
                let r = wrap_rpc_outcome(outcome);
                proof {
                    assert(r == spec_rpc_outcome_response(outcome));
                }
                r
            },
            EstimationPath::Static => Ok(static_response(&tx)),
        }
    }
}

/// A collaborator stand-in that answers every call with the same fixed
/// outcome; lets callers exercise the engine without a remote node.
pub struct FixedRpcEstimator {
    /// The outcome handed back on every call.
    pub outcome: Result<Uint256, String>,
}

impl RpcEstimator for FixedRpcEstimator {
    /// Hands back the fixed outcome, whatever the descriptor.
    fn estimate(&self, tx: &CallRequest) -> (r: Result<Uint256, String>)
        ensures
            self.outcome matches Ok(g) ==> r == Ok::<Uint256, String>(g),
            self.outcome matches Err(m) ==> r matches Err(m2) && m2@ == m@,
    {
        match &self.outcome {
            Ok(g) => Ok(*g),
            Err(m) => Err(m.clone()),
        }
    }
}

/// The returned method tag always records the path actually taken: never the
/// static tag when the simulation path ran, nor the other way round; and only
/// the simulation path can fail.
pub proof fn lemma_method_matches_path(tx: CallRequest, outcome: Result<Uint256, String>)
    ensures
        spec_estimate(tx, outcome) matches Ok(resp) ==> (resp.method == EstimationMethod::Static
            <==> spec_classify(tx) == EstimationPath::Static),
        spec_estimate(tx, outcome) is Err ==> spec_classify(tx) == EstimationPath::Simulate,
{
}

/// On the simulation path a successful collaborator amount is returned
/// exactly as it came, tagged as the RPC path, and a collaborator failure
/// surfaces as an upstream error with no result.
pub proof fn lemma_rpc_passthrough(tx: CallRequest, outcome: Result<Uint256, String>)
    requires
        spec_classify(tx) == EstimationPath::Simulate,
    ensures
        outcome matches Ok(g) ==> spec_estimate(tx, outcome) == Ok::<GasEstimateResponse, ApiError>(
            GasEstimateResponse { gas_limit: g, method: EstimationMethod::Rpc },
        ),
        outcome matches Err(m) ==> spec_estimate(tx, outcome) == Err::<GasEstimateResponse, ApiError>(
            ApiError::InternalServerError(m),
        ),
{
}

/// Estimation is a function of the descriptor and of the collaborator
/// outcome alone: two estimations that see the same descriptor and the same
/// outcome produce the same result.
pub proof fn lemma_estimation_idempotent(
    tx: CallRequest,
    outcome: Result<Uint256, String>,
    r1: Result<GasEstimateResponse, ApiError>,
    r2: Result<GasEstimateResponse, ApiError>,
)
    requires
        r1 == spec_estimate(tx, outcome),
        r2 == spec_estimate(tx, outcome),
    ensures
        r1 == r2,
{
}

} // verus!
