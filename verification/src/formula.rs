//! The static gas formula: an exact, closed-form amount for descriptors that
//! need no simulation, per protocol gas-accounting rules.

use vstd::prelude::*;

use crate::descriptor::CallRequest;
use crate::GAS_CODE_DEPOSIT;
use crate::GAS_TX_BASE;
use crate::GAS_TX_CREATE;
use crate::GAS_TX_DATA_NON_ZERO;
use crate::GAS_TX_DATA_ZERO;

verus! {

/// Cost of one byte of call data: zero bytes are cheaper than non-zero ones.
pub open spec fn spec_byte_gas(b: u8) -> nat {
    if b == 0 {
        GAS_TX_DATA_ZERO as nat
    } else {
        GAS_TX_DATA_NON_ZERO as nat
    }
}

/// Total cost of a call-data payload: every byte is classified individually.
pub open spec fn spec_data_gas(data: Seq<u8>) -> nat
    decreases data.len(),
{
    if data.len() == 0 {
        0
    } else {
        spec_data_gas(data.drop_last()) + spec_byte_gas(data.last())
    }
}

/// The static formula: the base cost, plus the creation cost when no
/// recipient is given, plus the per-byte cost of the call data, plus the
/// code-deposit cost of the data when it is init code for a creation.
pub open spec fn spec_static_gas(tx: CallRequest) -> nat {
    (GAS_TX_BASE as nat) + (if tx.to is None {
        GAS_TX_CREATE as nat
    } else {
        0
    }) + (match tx.data {
        Some(d) => spec_data_gas(d@) + (if tx.to is None {
            d@.len() * (GAS_CODE_DEPOSIT as nat)
        } else {
            0
        }),
        None => 0,
    })
}

/// The cost of a prefix of a payload never exceeds the cost of the whole.
proof fn lemma_data_gas_take_le(data: Seq<u8>, i: int)
    requires
        0 <= i <= data.len(),
    ensures
        spec_data_gas(data.take(i)) <= spec_data_gas(data),
    decreases data.len() - i,
{
    if i == data.len() {
        assert(data.take(i) =~= data);
    } else {
        assert(data.take(i + 1).drop_last() =~= data.take(i));
        lemma_data_gas_take_le(data, i + 1);
    }
}

/// Computes the static formula over the given descriptor.
pub fn calculate_static_gas(tx: &CallRequest) -> (gas: u64)
    requires
        spec_static_gas(*tx) <= u64::MAX,
    ensures
        gas == spec_static_gas(*tx),
{
    let mut gas: u64 = GAS_TX_BASE;

    if tx.to.is_none() {
        gas = gas + GAS_TX_CREATE;
    }

    if let Some(data) = &tx.data {
        let ghost base: nat = gas as nat;
        let n = data.len();
        let mut i: usize = 0;
        while i < n
            invariant
                i <= n,
                n == data@.len(),
                spec_static_gas(*tx) <= u64::MAX,
                base == (GAS_TX_BASE as nat) + (if tx.to is None {
                    GAS_TX_CREATE as nat
                } else {
                    0
                }),
                tx.data == Some(*data),
                gas == base + spec_data_gas(data@.take(i as int)),
            decreases n - i,
        {
            proof {
                assert(data@.take(i + 1).drop_last() =~= data@.take(i as int));
                assert(data@.take(i + 1).last() == data@[i as int]);
                lemma_data_gas_take_le(data@, i + 1);
            }
            if data[i] == 0 {
                gas = gas + GAS_TX_DATA_ZERO;
            } else {
                gas = gas + GAS_TX_DATA_NON_ZERO;
            }
            i = i + 1;
        }
        proof {
            assert(data@.take(n as int) =~= data@);
        }

        if tx.to.is_none() {
            gas = gas + (data.len() as u64) * GAS_CODE_DEPOSIT;
        }
    }

    gas
}

/// The static formula is a pure function of the descriptor: two computations
/// over the same descriptor yield the same amount.
pub proof fn lemma_static_gas_deterministic(tx: CallRequest, g1: nat, g2: nat)
    requires
        g1 == spec_static_gas(tx),
        g2 == spec_static_gas(tx),
    ensures
        g1 == g2,
{
}

} // verus!
