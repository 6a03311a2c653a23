//! A trustless escrow with arbiter-mediated dispute resolution.
//!
//! The buyer deposits a fixed amount of a token into the contract; the
//! arbiter releases it to the seller or refunds it to the buyer; the buyer
//! may dispute, and may reclaim the funds once the deadline has passed.
//!
//! ```text
//! Initialized -> Deposited -> Released
//!                          -> Refunded
//!                          -> Disputed -> Released
//!                                      -> Refunded
//! ```
use vstd::prelude::*;
use crate::address::Address;
use crate::outcome::Outcome;
use crate::transfer::{Party, Transfer};

verus! {

/// Where the escrow stands.
#[derive(Clone, Copy, PartialEq, Eq, Structural, Debug)]
pub enum EscrowState {
    Initialized,
    Deposited,
    Released,
    Refunded,
    Disputed,
}

/// The terms of the escrow, fixed at `initialize`.
#[derive(Clone, Copy, PartialEq, Eq, Structural, Debug)]
pub struct EscrowConfig {
    pub buyer: Address,
    pub seller: Address,
    pub arbiter: Address,
    pub token: Address,
    pub amount: i128,
    pub deadline: u64,
}

/// Why an escrow call is refused.
#[derive(Clone, Copy, PartialEq, Eq, Structural, Debug)]
pub enum EscrowError {
    AlreadyInitialized,
    NotInitialized,
    AmountNotPositive,
    InvalidState,
    DeadlineNotReached,
}

impl EscrowError {
    /// The message with which the contract aborts for this refusal.
    pub fn message(&self) -> (r: &'static str)
        ensures
            r@ == (match *self {
                EscrowError::AlreadyInitialized => "already initialized"@,
                EscrowError::NotInitialized => "not initialized"@,
                EscrowError::AmountNotPositive => "amount must be positive"@,
                EscrowError::InvalidState => "invalid state"@,
                EscrowError::DeadlineNotReached => "deadline not reached"@,
            }),
    {
        match self {
            EscrowError::AlreadyInitialized => "already initialized",
            EscrowError::NotInitialized => "not initialized",
            EscrowError::AmountNotPositive => "amount must be positive",
            EscrowError::InvalidState => "invalid state",
            EscrowError::DeadlineNotReached => "deadline not reached",
        }
    }
}

/// The storage of the escrow contract.
pub struct EscrowContract {
    /// The `Config` entry; `None` until `initialize`.
    pub config: Option<EscrowConfig>,
    /// The `State` entry; `None` until `initialize`.
    pub state: Option<EscrowState>,
}

/// The moves of the state machine that the escrow's calls may make.
pub open spec fn allowed_move(from: EscrowState, to: EscrowState) -> bool {
    match (from, to) {
        (EscrowState::Initialized, EscrowState::Deposited) => true,
        (EscrowState::Deposited, EscrowState::Released) => true,
        (EscrowState::Deposited, EscrowState::Refunded) => true,
        (EscrowState::Deposited, EscrowState::Disputed) => true,
        (EscrowState::Disputed, EscrowState::Released) => true,
        (EscrowState::Disputed, EscrowState::Refunded) => true,
        _ => false,
    }
}

/// The escrow has been settled one way or the other.
pub open spec fn is_settled(s: EscrowState) -> bool {
    s == EscrowState::Released || s == EscrowState::Refunded
}

/// A payment out of the contract to `to`.
pub open spec fn payout(c: EscrowConfig, to: Address) -> Transfer {
    Transfer { token: c.token, from: Party::Contract, to: Party::Account(to), amount: c.amount }
}

impl EscrowContract {
    /// What the contract holds in escrow: the amount, while it is deposited
    /// or disputed.
    pub open spec fn held(&self) -> int {
        match (self.config, self.state) {
            (Some(c), Some(EscrowState::Deposited)) => c.amount as int,
            (Some(c), Some(EscrowState::Disputed)) => c.amount as int,
            _ => 0,
        }
    }

    /// The checks common to the calls after `initialize`: the escrow is
    /// initialized, and `in_state` holds of the state it stands in.
    pub open spec fn state_check(&self, in_state: bool) -> Result<(), EscrowError> {
        if self.config is None || self.state is None {
            Err(EscrowError::NotInitialized)
        } else if !in_state {
            Err(EscrowError::InvalidState)
        } else {
            Ok(())
        }
    }

    /// What `initialize` answers on this storage.
    pub open spec fn initialize_result(&self, amount: i128) -> Result<(), EscrowError> {
        if self.config is Some {
            Err(EscrowError::AlreadyInitialized)
        } else if amount <= 0 {
            Err(EscrowError::AmountNotPositive)
        } else {
            Ok(())
        }
    }

    /// What `deposit` answers on this storage.
    pub open spec fn deposit_result(&self) -> Result<(), EscrowError> {
        self.state_check(self.state == Some(EscrowState::Initialized))
    }

    /// What `release` answers on this storage.
    pub open spec fn release_result(&self) -> Result<(), EscrowError> {
        self.state_check(self.state == Some(EscrowState::Deposited))
    }

    /// What `refund` answers on this storage.
    pub open spec fn refund_result(&self) -> Result<(), EscrowError> {
        self.state_check(
            self.state == Some(EscrowState::Deposited) || self.state == Some(EscrowState::Disputed),
        )
    }

    /// What `dispute` answers on this storage.
    pub open spec fn dispute_result(&self) -> Result<(), EscrowError> {
        self.state_check(self.state == Some(EscrowState::Deposited))
    }

    /// What `resolve` answers on this storage.
    pub open spec fn resolve_result(&self) -> Result<(), EscrowError> {
        self.state_check(self.state == Some(EscrowState::Disputed))
    }

    /// What `claim_expired` answers at ledger time `now` on this storage.
    pub open spec fn claim_expired_result(&self, now: u64) -> Result<(), EscrowError> {
        match self.state_check(self.state == Some(EscrowState::Deposited)) {
            Err(e) => Err(e),
            Ok(()) => if now < self.config->Some_0.deadline {
                Err(EscrowError::DeadlineNotReached)
            } else {
                Ok(())
            },
        }
    }

    /// Empty storage: an escrow that is not initialized yet.
    pub fn new() -> (r: Self)
        ensures
            r.config is None,
            r.state is None,
    {
        EscrowContract { config: None, state: None }
    }

    fn checked_config(&self, in_state: bool) -> (r: Result<EscrowConfig, EscrowError>)
        ensures
            match self.state_check(in_state) {
                Ok(()) => r == Ok::<EscrowConfig, EscrowError>(self.config->Some_0),
                Err(e) => r == Err::<EscrowConfig, EscrowError>(e),
            },
    {
        match (&self.config, &self.state) {
            (Some(c), Some(_)) => if in_state {
                Ok(*c)
            } else {
                Err(EscrowError::InvalidState)
            },
            _ => Err(EscrowError::NotInitialized),
        }
    }

    fn state_is(&self, s: EscrowState) -> (r: bool)
        ensures
            r == (self.state == Some(s)),
    {
        match self.state {
            Some(t) => t == s,
            None => false,
        }
    }

    /// One-time setup of the escrow's terms; the escrow starts out
    /// `Initialized`.
    pub fn initialize(
        &mut self,
        buyer: Address,
        seller: Address,
        arbiter: Address,
        token: Address,
        amount: i128,
        deadline: u64,
    ) -> (out: Outcome<(), EscrowError>)
        ensures
            out.authorizer is None,
            out.result == old(self).initialize_result(amount),
            out.result is Ok ==> {
                &&& final(self).config == Some(
                    EscrowConfig { buyer, seller, arbiter, token, amount, deadline },
                )
                &&& final(self).state == Some(EscrowState::Initialized)
            },
            out.result is Err ==> *final(self) == *old(self),
            final(self).held() == old(self).held(),
    {
        if self.config.is_some() {
            return Outcome { authorizer: None, result: Err(EscrowError::AlreadyInitialized) };
        }
        if amount <= 0 {
            return Outcome { authorizer: None, result: Err(EscrowError::AmountNotPositive) };
        }
        self.config = Some(EscrowConfig { buyer, seller, arbiter, token, amount, deadline });
        self.state = Some(EscrowState::Initialized);
        Outcome { authorizer: None, result: Ok(()) }
    }

    /// The buyer pays the amount into the contract.
    pub fn deposit(&mut self) -> (out: Outcome<Transfer, EscrowError>)
        ensures
            out.result matches Ok(t) <==> old(self).deposit_result() is Ok,
            out.result matches Err(e) ==> old(self).deposit_result() == Err::<(), EscrowError>(e),
            out.authorizer == (if old(self).deposit_result() is Ok {
                Some(old(self).config->Some_0.buyer)
            } else {
                None
            }),
            out.result matches Ok(t) ==> {
                let c = old(self).config->Some_0;
                &&& t == Transfer {
                    token: c.token,
                    from: Party::Account(c.buyer),
                    to: Party::Contract,
                    amount: c.amount,
                }
                &&& final(self).config == old(self).config
                &&& final(self).state == Some(EscrowState::Deposited)
                &&& final(self).held() == old(self).held() + t.net_to_contract()
            },
            out.result is Err ==> *final(self) == *old(self),
            out.result is Ok ==> allowed_move(old(self).state->Some_0, final(self).state->Some_0),
    {
        let in_state = self.state_is(EscrowState::Initialized);
        let c = match self.checked_config(in_state) {
            Ok(c) => c,
            Err(e) => {
                return Outcome { authorizer: None, result: Err(e) };
            },
        };
        self.state = Some(EscrowState::Deposited);
        let t = Transfer {
            token: c.token,
            from: Party::Account(c.buyer),
            to: Party::Contract,
            amount: c.amount,
        };
        Outcome { authorizer: Some(c.buyer), result: Ok(t) }
    }

    /// The arbiter releases the deposit to the seller.
    pub fn release(&mut self) -> (out: Outcome<Transfer, EscrowError>)
        ensures
            out.result matches Ok(t) <==> old(self).release_result() is Ok,
            out.result matches Err(e) ==> old(self).release_result() == Err::<(), EscrowError>(e),
            out.authorizer == (if old(self).release_result() is Ok {
                Some(old(self).config->Some_0.arbiter)
            } else {
                None
            }),
            out.result matches Ok(t) ==> {
                let c = old(self).config->Some_0;
                &&& t == payout(c, c.seller)
                &&& final(self).config == old(self).config
                &&& final(self).state == Some(EscrowState::Released)
                &&& final(self).held() == old(self).held() + t.net_to_contract()
            },
            out.result is Err ==> *final(self) == *old(self),
            out.result is Ok ==> allowed_move(old(self).state->Some_0, final(self).state->Some_0),
    {
        let in_state = self.state_is(EscrowState::Deposited);
        let c = match self.checked_config(in_state) {
            Ok(c) => c,
            Err(e) => {
                return Outcome { authorizer: None, result: Err(e) };
            },
        };
        self.state = Some(EscrowState::Released);
        let t = Transfer {
            token: c.token,
            from: Party::Contract,
            to: Party::Account(c.seller),
            amount: c.amount,
        };
        Outcome { authorizer: Some(c.arbiter), result: Ok(t) }
    }

    /// The arbiter refunds the deposit to the buyer, also during a dispute.
    pub fn refund(&mut self) -> (out: Outcome<Transfer, EscrowError>)
        ensures
            out.result matches Ok(t) <==> old(self).refund_result() is Ok,
            out.result matches Err(e) ==> old(self).refund_result() == Err::<(), EscrowError>(e),
            out.authorizer == (if old(self).refund_result() is Ok {
                Some(old(self).config->Some_0.arbiter)
            } else {
                None
            }),
            out.result matches Ok(t) ==> {
                let c = old(self).config->Some_0;
                &&& t == payout(c, c.buyer)
                &&& final(self).config == old(self).config
                &&& final(self).state == Some(EscrowState::Refunded)
                &&& final(self).held() == old(self).held() + t.net_to_contract()
            },
            out.result is Err ==> *final(self) == *old(self),
            out.result is Ok ==> allowed_move(old(self).state->Some_0, final(self).state->Some_0),
    {
        let in_state = self.state_is(EscrowState::Deposited) || self.state_is(
            EscrowState::Disputed,
        );
        let c = match self.checked_config(in_state) {
            Ok(c) => c,
            Err(e) => {
                return Outcome { authorizer: None, result: Err(e) };
            },
        };
        self.state = Some(EscrowState::Refunded);
        let t = Transfer {
            token: c.token,
            from: Party::Contract,
            to: Party::Account(c.buyer),
            amount: c.amount,
        };
        Outcome { authorizer: Some(c.arbiter), result: Ok(t) }
    }

    /// The buyer flags the deposit for the arbiter to resolve.
    pub fn dispute(&mut self) -> (out: Outcome<(), EscrowError>)
        ensures
            out.result == old(self).dispute_result(),
            out.authorizer == (if old(self).dispute_result() is Ok {
                Some(old(self).config->Some_0.buyer)
            } else {
                None
            }),
            out.result is Ok ==> {
                &&& final(self).config == old(self).config
                &&& final(self).state == Some(EscrowState::Disputed)
                &&& final(self).held() == old(self).held()
            },
            out.result is Err ==> *final(self) == *old(self),
            out.result is Ok ==> allowed_move(old(self).state->Some_0, final(self).state->Some_0),
    {
        let in_state = self.state_is(EscrowState::Deposited);
        let c = match self.checked_config(in_state) {
            Ok(c) => c,
            Err(e) => {
                return Outcome { authorizer: None, result: Err(e) };
            },
        };
        self.state = Some(EscrowState::Disputed);
        Outcome { authorizer: Some(c.buyer), result: Ok(()) }
    }

    /// The arbiter settles a dispute: to the seller where `release` holds,
    /// else back to the buyer.
    pub fn resolve(&mut self, release: bool) -> (out: Outcome<Transfer, EscrowError>)
        ensures
            out.result matches Ok(t) <==> old(self).resolve_result() is Ok,
            out.result matches Err(e) ==> old(self).resolve_result() == Err::<(), EscrowError>(e),
            out.authorizer == (if old(self).resolve_result() is Ok {
                Some(old(self).config->Some_0.arbiter)
            } else {
                None
            }),
            out.result matches Ok(t) ==> {
                let c = old(self).config->Some_0;
                &&& t == payout(
                    c,
                    if release {
                        c.seller
                    } else {
                        c.buyer
                    },
                )
                &&& final(self).config == old(self).config
                &&& final(self).state == Some(
                    if release {
                        EscrowState::Released
                    } else {
                        EscrowState::Refunded
                    },
                )
                &&& final(self).held() == old(self).held() + t.net_to_contract()
            },
            out.result is Err ==> *final(self) == *old(self),
            out.result is Ok ==> allowed_move(old(self).state->Some_0, final(self).state->Some_0),
    {
        let in_state = self.state_is(EscrowState::Disputed);
        let c = match self.checked_config(in_state) {
            Ok(c) => c,
            Err(e) => {
                return Outcome { authorizer: None, result: Err(e) };
            },
        };
        let (to, next) = if release {
            (c.seller, EscrowState::Released)
        } else {
            (c.buyer, EscrowState::Refunded)
        };
        self.state = Some(next);
        let t = Transfer {
            token: c.token,
            from: Party::Contract,
            to: Party::Account(to),
            amount: c.amount,
        };
        Outcome { authorizer: Some(c.arbiter), result: Ok(t) }
    }

    /// The buyer takes the deposit back once the ledger time `now` has
    /// reached the deadline.
    pub fn claim_expired(&mut self, now: u64) -> (out: Outcome<Transfer, EscrowError>)
        ensures
            out.result matches Ok(t) <==> old(self).claim_expired_result(now) is Ok,
            out.result matches Err(e) ==> old(self).claim_expired_result(now) == Err::<
                (),
                EscrowError,
            >(e),
            out.authorizer == (if old(self).claim_expired_result(now) is Ok {
                Some(old(self).config->Some_0.buyer)
            } else {
                None
            }),
            out.result matches Ok(t) ==> {
                let c = old(self).config->Some_0;
                &&& t == payout(c, c.buyer)
                &&& final(self).config == old(self).config
                &&& final(self).state == Some(EscrowState::Refunded)
                &&& final(self).held() == old(self).held() + t.net_to_contract()
            },
            out.result is Err ==> *final(self) == *old(self),
            out.result is Ok ==> allowed_move(old(self).state->Some_0, final(self).state->Some_0),
    {
        let in_state = self.state_is(EscrowState::Deposited);
        let c = match self.checked_config(in_state) {
            Ok(c) => c,
            Err(e) => {
                return Outcome { authorizer: None, result: Err(e) };
            },
        };
        if now < c.deadline {
            return Outcome { authorizer: None, result: Err(EscrowError::DeadlineNotReached) };
        }
        self.state = Some(EscrowState::Refunded);
        let t = Transfer {
            token: c.token,
            from: Party::Contract,
            to: Party::Account(c.buyer),
            amount: c.amount,
        };
        Outcome { authorizer: Some(c.buyer), result: Ok(t) }
    }

    /// Where the escrow stands.
    pub fn get_state(&self) -> (r: Result<EscrowState, EscrowError>)
        ensures
            r == (match self.state {
                Some(s) => Ok::<EscrowState, EscrowError>(s),
                None => Err(EscrowError::NotInitialized),
            }),
    {
        match self.state {
            Some(s) => Ok(s),
            None => Err(EscrowError::NotInitialized),
        }
    }

    /// The escrow's terms.
    pub fn get_config(&self) -> (r: Result<EscrowConfig, EscrowError>)
        ensures
            r == (match self.config {
                Some(c) => Ok::<EscrowConfig, EscrowError>(c),
                None => Err(EscrowError::NotInitialized),
            }),
    {
        match self.config {
            Some(c) => Ok(c),
            None => Err(EscrowError::NotInitialized),
        }
    }
}

/// Once released or refunded, the escrow refuses every further call:
/// nothing can be deposited or paid out again.
pub proof fn law_settled_is_final(s: EscrowContract, amount: i128, now: u64)
    requires
        s.config is Some,
        s.state matches Some(st) && is_settled(st),
    ensures
        s.initialize_result(amount) == Err::<(), EscrowError>(EscrowError::AlreadyInitialized),
        s.deposit_result() == Err::<(), EscrowError>(EscrowError::InvalidState),
        s.release_result() == Err::<(), EscrowError>(EscrowError::InvalidState),
        s.refund_result() == Err::<(), EscrowError>(EscrowError::InvalidState),
        s.dispute_result() == Err::<(), EscrowError>(EscrowError::InvalidState),
        s.resolve_result() == Err::<(), EscrowError>(EscrowError::InvalidState),
        s.claim_expired_result(now) == Err::<(), EscrowError>(EscrowError::InvalidState),
        s.held() == 0,
{
}

/// Along any run of accepted escrow calls, what the contract holds changes
/// by exactly the payments into and out of it: the sum of the net payments
/// is what is held at the end less what was held at the start. A run from
/// `Initialized` to a settled state thus pays out exactly what it took in.
pub proof fn law_payments_balance(states: Seq<EscrowContract>, flows: Seq<int>)
    requires
        states.len() == flows.len() + 1,
        forall|i: int|
            0 <= i < flows.len() ==> #[trigger] states[i + 1].held() == states[i].held() + flows[i],
    ensures
        sum_flows(flows) == states.last().held() - states[0].held(),
    decreases flows.len(),
{
    if flows.len() > 0 {
        let n = flows.len() - 1;
        law_payments_balance(states.drop_last(), flows.drop_last());
        assert(states.drop_last().last() == states[n]);
        assert(states[n + 1].held() == states[n].held() + flows[n]);
    }
}

/// The sum of a sequence of payments.
pub open spec fn sum_flows(flows: Seq<int>) -> int
    decreases flows.len(),
{
    if flows.len() == 0 {
        0
    } else {
        sum_flows(flows.drop_last()) + flows.last()
    }
}

/// The buyer can reclaim the deposit only while it is deposited and not
/// disputed, and only once the ledger time has reached the deadline; a
/// disputed escrow is left to the arbiter.
pub proof fn law_claim_expired_only_when_deposited(s: EscrowContract, now: u64)
    ensures
        s.claim_expired_result(now) is Ok <==> (s.config is Some && s.state == Some(
            EscrowState::Deposited,
        ) && now >= s.config->Some_0.deadline),
        s.config is Some && s.state == Some(EscrowState::Disputed) ==> s.claim_expired_result(now)
            == Err::<(), EscrowError>(EscrowError::InvalidState),
{
}

} // verus!
