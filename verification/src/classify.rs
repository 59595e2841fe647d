//! The classification rule: decide, from the descriptor alone, whether the
//! static formula suffices or the cost must be simulated by a remote node.
//!
//! The rule is a conservative whitelist of cheap, safe cases: any signal of
//! possible contract execution defers to simulation. One deliberate,
//! documented simplification: a descriptor with no data field and a non-zero
//! value is treated as a pure value transfer and kept on the static path,
//! even though the recipient could in principle be a contract with fallback
//! logic, whose execution the formula would then under-estimate.

use vstd::prelude::*;

use crate::descriptor::CallRequest;
use crate::formula::spec_data_gas;
use crate::formula::spec_static_gas;
use crate::BLOB_TX_TYPE;
use crate::GAS_TX_BASE;
use crate::GAS_TX_CREATE;

verus! {

/// The two estimation paths a descriptor can be routed to.
#[derive(Clone, Copy, Debug, PartialEq, Eq, Structural)]
pub enum EstimationPath {
    /// The cost follows from the static formula alone.
    Static,
    /// The cost depends on execution and must be simulated remotely.
    Simulate,
}

/// Whether the descriptor declares the blob-carrying envelope type.
pub open spec fn spec_is_blob_transaction(tx: CallRequest) -> bool {
    tx.transaction_type == Some(BLOB_TX_TYPE)
}

/// Whether the descriptor may reach contract code: its data is present and
/// non-empty, or its data is present (even empty) beside a non-zero value,
/// which may trigger a receiving contract's fallback logic.
pub open spec fn spec_needs_simulation(tx: CallRequest) -> bool {
    match tx.data {
        Some(d) => d@.len() > 0 || (match tx.value {
            Some(v) => v@ != 0,
            None => false,
        }),
        None => false,
    }
}

/// The classification rule: a blob transaction or a possible contract
/// interaction is simulated; everything else takes the static path.
pub open spec fn spec_classify(tx: CallRequest) -> EstimationPath {
    if spec_is_blob_transaction(tx) || spec_needs_simulation(tx) {
        EstimationPath::Simulate
    } else {
        EstimationPath::Static
    }
}

/// Decides whether the descriptor declares the blob-carrying envelope type.
pub fn is_blob_transaction(tx: &CallRequest) -> (r: bool)
    ensures
        r == spec_is_blob_transaction(*tx),
{
    match tx.transaction_type {
        Some(t) => t == BLOB_TX_TYPE,
        None => false,
    }
}

/// Decides whether the descriptor may reach contract code and therefore
/// needs a remote simulation.
pub fn needs_simulation(tx: &CallRequest) -> (r: bool)
    ensures
        r == spec_needs_simulation(*tx),
{
    if let Some(data) = &tx.data {
        if data.len() > 0 {
            return true;
        }
        if let Some(value) = &tx.value {
            if !value.is_zero() {
                return true;
            }
        }
    }
    false
}

/// Routes the descriptor to its estimation path.
pub fn classify(tx: &CallRequest) -> (r: EstimationPath)
    ensures
        r == spec_classify(*tx),
{
    if is_blob_transaction(tx) || needs_simulation(tx) {
        EstimationPath::Simulate
    } else {
        EstimationPath::Static
    }
}

/// A descriptor whose call data is present and non-empty always routes to
/// simulation, whatever its value.
pub proof fn lemma_nonempty_data_simulates(tx: CallRequest)
    requires
        tx.data is Some,
        tx.data.unwrap()@.len() > 0,
    ensures
        spec_classify(tx) == EstimationPath::Simulate,
{
}

/// A descriptor with an (even empty) data field beside a non-zero value
/// routes to simulation.
pub proof fn lemma_value_with_data_simulates(tx: CallRequest)
    requires
        tx.data is Some,
        tx.value is Some,
        tx.value.unwrap()@ != 0,
    ensures
        spec_classify(tx) == EstimationPath::Simulate,
{
}

/// A descriptor declaring the blob envelope type routes to simulation,
/// whatever its other fields hold.
pub proof fn lemma_blob_simulates(tx: CallRequest)
    requires
        tx.transaction_type == Some(BLOB_TX_TYPE),
    ensures
        spec_classify(tx) == EstimationPath::Simulate,
{
}

/// A descriptor with no data field and no blob envelope type routes to the
/// static path, whatever its value: a pure value transfer.
pub proof fn lemma_absent_data_static(tx: CallRequest)
    requires
        tx.data is None,
        tx.transaction_type != Some(BLOB_TX_TYPE),
    ensures
        spec_classify(tx) == EstimationPath::Static,
{
}

/// On the static path the formula is bounded by the base and creation costs:
/// such a descriptor carries no call data, or only an empty payload.
pub proof fn lemma_static_path_gas_bounded(tx: CallRequest)
    requires
        spec_classify(tx) == EstimationPath::Static,
    ensures
        spec_static_gas(tx) <= GAS_TX_BASE + GAS_TX_CREATE,
{
    match tx.data {
        Some(d) => {
            assert(d@.len() == 0);
            assert(spec_data_gas(d@) == 0);
        },
        None => {},
    }
}

} // verus!
