//! Account and contract identifiers as plain values.
use vstd::prelude::*;

verus! {

/// A ledger address (an account key or a contract id): the kind of address
/// and its 32-byte payload, split into two 128-bit halves.
#[derive(Clone, Copy, PartialEq, Eq, Structural, Debug, Hash)]
pub struct Address {
    pub kind: u8,
    pub hi: u128,
    pub lo: u128,
}

impl Address {
    /// Builds an address from its kind and payload halves.
    pub fn new(kind: u8, hi: u128, lo: u128) -> (r: Address)
        ensures
            r.kind == kind,
            r.hi == hi,
            r.lo == lo,
    {
        Address { kind, hi, lo }
    }
}

/// The 32-byte hash of a contract's code, split into two 128-bit halves.
#[derive(Clone, Copy, PartialEq, Eq, Structural, Debug)]
pub struct WasmHash {
    pub hi: u128,
    pub lo: u128,
}

impl WasmHash {
    /// Builds a code hash from its two halves.
    pub fn new(hi: u128, lo: u128) -> (r: WasmHash)
        ensures
            r.hi == hi,
            r.lo == lo,
    {
        WasmHash { hi, lo }
    }
}

} // verus!
