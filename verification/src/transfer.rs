//! Token payments that a contract asks a token contract to make.
use vstd::prelude::*;
use crate::address::Address;

verus! {

/// One side of a payment: the calling contract itself, or another address.
#[derive(Clone, Copy, PartialEq, Eq, Structural, Debug)]
pub enum Party {
    Contract,
    Account(Address),
}

/// A transfer of `amount` units of the token at `token` from `from` to `to`.
#[derive(Clone, Copy, PartialEq, Eq, Structural, Debug)]
pub struct Transfer {
    pub token: Address,
    pub from: Party,
    pub to: Party,
    pub amount: i128,
}

impl Transfer {
    /// What this payment changes in the calling contract's own holdings.
    pub open spec fn net_to_contract(self) -> int {
        (if self.to == Party::Contract {
            self.amount as int
        } else {
            0
        }) - (if self.from == Party::Contract {
            self.amount as int
        } else {
            0
        })
    }
}

} // verus!
