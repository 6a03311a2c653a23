//! Verified models of three Soroban smart contracts: a fungible token, an
//! escrow with arbiter-mediated disputes, and an M-of-N multisig wallet.
//!
//! Each contract is a value that holds the contract's storage. A call checks
//! its request, names the address whose authorization it demands, and
//! either refuses the request, leaving storage untouched, or applies it and
//! says which token payments the contract must make. The host side (reading
//! and writing storage, demanding authorization, calling token contracts,
//! publishing events) is left to the caller.
use vstd::prelude::*;

pub mod address;
pub mod escrow;
pub mod multisig;
pub mod outcome;
pub mod table;
pub mod token;
pub mod transfer;

verus! {

} // verus!
