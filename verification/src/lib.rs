//! Gas estimation for Ethereum-style transactions.
//!
//! The library decides, from a transaction-call descriptor alone, whether the
//! gas cost can be computed by a closed-form static formula or must be
//! obtained from a remote node's simulation, computes the static amount where
//! it applies, and wraps either outcome in a tagged result.

use vstd::prelude::*;

mod classify;
mod descriptor;
mod engine;
mod formula;
mod uint256;

pub use classify::classify;
pub use classify::is_blob_transaction;
pub use classify::lemma_absent_data_static;
pub use classify::lemma_blob_simulates;
pub use classify::lemma_nonempty_data_simulates;
pub use classify::lemma_static_path_gas_bounded;
pub use classify::lemma_value_with_data_simulates;
pub use classify::needs_simulation;
pub use classify::spec_classify;
pub use classify::spec_is_blob_transaction;
pub use classify::spec_needs_simulation;
pub use classify::EstimationPath;
pub use descriptor::Address;
pub use descriptor::CallRequest;
pub use engine::lemma_estimation_idempotent;
pub use engine::lemma_method_matches_path;
pub use engine::lemma_rpc_passthrough;
pub use engine::spec_estimate;
pub use engine::spec_rpc_outcome_response;
pub use engine::spec_static_response;
pub use engine::static_response;
pub use engine::wrap_rpc_outcome;
pub use engine::ApiError;
pub use engine::ErrorResponse;
pub use engine::EstimationMethod;
pub use engine::FixedRpcEstimator;
pub use engine::GasEstimateResponse;
pub use engine::GasEstimator;
pub use engine::RpcEstimator;
pub use formula::calculate_static_gas;
pub use formula::lemma_static_gas_deterministic;
pub use formula::spec_byte_gas;
pub use formula::spec_data_gas;
pub use formula::spec_static_gas;
pub use uint256::Uint256;

verus! {

/// Base cost charged for every transaction.
pub const GAS_TX_BASE: u64 = 21000;

/// Cost of each zero byte of call data.
pub const GAS_TX_DATA_ZERO: u64 = 4;

/// Cost of each non-zero byte of call data.
pub const GAS_TX_DATA_NON_ZERO: u64 = 16;

/// Extra cost of a contract-creation transaction.
pub const GAS_TX_CREATE: u64 = 32000;

/// Per-byte cost of depositing contract code.
pub const GAS_CODE_DEPOSIT: u64 = 200;

/// Envelope type tag of a blob-carrying transaction.
pub const BLOB_TX_TYPE: u64 = 3;

} // verus!
