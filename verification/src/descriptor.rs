//! The transaction-call descriptor: one candidate transaction to estimate.

use vstd::prelude::*;

verus! {

/// A 20-byte account address.
///
/// The engine never inspects an address; it only asks whether a recipient is
/// present. The bytes are carried for compatibility with callers.
#[derive(Clone, Copy, Debug)]
pub struct Address {
    /// The raw address bytes.
    pub bytes: [u8; 20],
}

/// One candidate transaction, immutable once received: the engine only reads
/// it. Every field is optional, mirroring the wire shape.
#[derive(Clone, Debug)]
pub struct CallRequest {
    /// Originating address; not used by the engine, passed through.
    pub from: Option<Address>,
    /// Recipient address; absence signals contract-creation intent.
    pub to: Option<Address>,
    /// Native-currency amount to transfer.
    pub value: Option<crate::Uint256>,
    /// Call input or contract init code.
    pub data: Option<Vec<u8>>,
    /// Transaction envelope type tag (3 denotes a blob-carrying transaction).
    pub transaction_type: Option<u64>,
}

impl Default for CallRequest {
    /// A descriptor with every field absent.
    fn default() -> (r: Self)
        ensures
            r.from is None,
            r.to is None,
            r.value is None,
            r.data is None,
            r.transaction_type is None,
    {
        CallRequest { from: None, to: None, value: None, data: None, transaction_type: None }
    }
}

} // verus!
