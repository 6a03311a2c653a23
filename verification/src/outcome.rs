//! What a contract call answers.
use vstd::prelude::*;
use crate::address::Address;

verus! {

/// The answer to a contract call. `authorizer` is the address whose
/// authorization the call demands before it goes on: it is set exactly when
/// the call gets as far as that demand, also where a later check refuses
/// the call. `result` is what the call returns, or why it is refused.
pub struct Outcome<T, E> {
    pub authorizer: Option<Address>,
    pub result: Result<T, E>,
}

} // verus!
