//! Addresses as the contracts see them.
use vstd::prelude::*;

verus! {

/// An account or contract address. The contracts only ever compare
/// addresses, so an address is identified by a handle that is unique among
/// the addresses that one contract call deals with.
#[derive(Clone, Copy, PartialEq, Eq, Structural, Debug)]
pub struct Address {
    pub id: u64,
}

impl Address {
    /// The address with handle `id`.
    pub fn new(id: u64) -> (r: Self)
        ensures
            r.id == id,
    {
        Address { id }
    }
}

} // verus!
