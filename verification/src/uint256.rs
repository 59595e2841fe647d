//! An unsigned 256-bit integer held as two 128-bit halves.
//!
//! Transaction values and gas amounts are 256-bit quantities; the library
//! holds them as plain machine integers so that contracts can speak of the
//! mathematical value they denote.

use vstd::prelude::*;

verus! {

/// An unsigned 256-bit integer: `hi * 2^128 + lo`.
#[derive(Clone, Copy, Debug, PartialEq, Eq, Structural)]
pub struct Uint256 {
    /// The most significant 128 bits.
    pub hi: u128,
    /// The least significant 128 bits.
    pub lo: u128,
}

impl View for Uint256 {
    type V = nat;

    open spec fn view(&self) -> nat {
        (self.hi * 0x100000000000000000000000000000000 + self.lo) as nat
    }
}

impl Uint256 {
    /// The zero value.
    pub fn zero() -> (r: Self)
        ensures
            r@ == 0,
    {
        Uint256 { hi: 0, lo: 0 }
    }

    /// Embeds a 64-bit integer.
    pub fn from_u64(x: u64) -> (r: Self)
        ensures
            r@ == x,
    {
        Uint256 { hi: 0, lo: x as u128 }
    }

    /// Whether the value is zero.
    pub fn is_zero(&self) -> (r: bool)
        ensures
            r <==> self@ == 0,
    {
        proof {
            if self.hi > 0 {
                assert(self.hi * 0x100000000000000000000000000000000
                    >= 0x100000000000000000000000000000000) by (nonlinear_arith)
                    requires
                        self.hi >= 1,
                ;
            }
        }
        self.hi == 0 && self.lo == 0
    }
}

} // verus!
