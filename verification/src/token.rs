//! A fungible token: mint, burn, transfer, approve, and transfer on an
//! allowance.
//!
//! `TokenContract` is the token's storage: the metadata that the contract
//! keeps in instance storage, and the balance and allowance entries that it
//! keeps in persistent storage. Each call checks its request in the order
//! that the contract does, and either refuses it, leaving storage as it was,
//! or applies it.
use vstd::prelude::*;
use crate::address::Address;
use crate::outcome::Outcome;
use crate::table::{
    distinct_keys, has_key, lemma_empty, lemma_lookup, lemma_push, lemma_remove, lemma_sum_push,
    lemma_sum_update, lemma_update, sum_values, to_map, value_or_zero,
};

verus! {

/// What the token keeps in instance storage once initialized.
pub struct TokenMetadata {
    pub admin: Address,
    pub decimals: u32,
    pub name: String,
    pub symbol: String,
    pub total_supply: i128,
}

/// Why a token call is refused.
#[derive(Clone, Copy, PartialEq, Eq, Structural, Debug)]
pub enum TokenError {
    AlreadyInitialized,
    NotInitialized,
    AmountNotPositive,
    AmountNegative,
    InsufficientBalance,
    InsufficientAllowance,
    Overflow,
}

impl TokenError {
    /// The message with which the contract aborts for this refusal.
    pub fn message(&self) -> (r: &'static str)
        ensures
            r@ == (match *self {
                TokenError::AlreadyInitialized => "already initialized"@,
                TokenError::NotInitialized => "not initialized"@,
                TokenError::AmountNotPositive => "amount must be positive"@,
                TokenError::AmountNegative => "amount must be non-negative"@,
                TokenError::InsufficientBalance => "insufficient balance"@,
                TokenError::InsufficientAllowance => "insufficient allowance"@,
                TokenError::Overflow => "arithmetic overflow"@,
            }),
    {
        match self {
            TokenError::AlreadyInitialized => "already initialized",
            TokenError::NotInitialized => "not initialized",
            TokenError::AmountNotPositive => "amount must be positive",
            TokenError::AmountNegative => "amount must be non-negative",
            TokenError::InsufficientBalance => "insufficient balance",
            TokenError::InsufficientAllowance => "insufficient allowance",
            TokenError::Overflow => "arithmetic overflow",
        }
    }
}

/// The storage of the token contract.
pub struct TokenContract {
    /// Instance storage; `None` until `initialize`.
    pub metadata: Option<TokenMetadata>,
    /// `Balance(address)` entries.
    pub balances: Vec<(Address, i128)>,
    /// `Allowance(from, spender)` entries; a zero allowance has no entry.
    pub allowances: Vec<((Address, Address), i128)>,
}

/// `m` with its total supply replaced by `supply`.
pub open spec fn with_supply(m: TokenMetadata, supply: i128) -> TokenMetadata {
    TokenMetadata { total_supply: supply, ..m }
}

/// `m` with its admin replaced by `admin`.
pub open spec fn with_admin(m: TokenMetadata, admin: Address) -> TokenMetadata {
    TokenMetadata { admin: admin, ..m }
}

impl TokenContract {
    /// Each storage key has at most one entry.
    pub open spec fn wf(&self) -> bool {
        &&& distinct_keys(self.balances@)
        &&& distinct_keys(self.allowances@)
    }

    /// The stored balances.
    pub open spec fn balance_map(&self) -> Map<Address, i128> {
        to_map(self.balances@)
    }

    /// The stored allowances.
    pub open spec fn allowance_map(&self) -> Map<(Address, Address), i128> {
        to_map(self.allowances@)
    }

    /// The balance of `a`: zero where none is stored.
    pub open spec fn balance_of(&self, a: Address) -> i128 {
        value_or_zero(self.balance_map(), a)
    }

    /// What `spender` may still move from `from`: zero where none is stored.
    pub open spec fn allowance_of(&self, from: Address, spender: Address) -> i128 {
        value_or_zero(self.allowance_map(), (from, spender))
    }

    /// The total supply: zero before `initialize`.
    pub open spec fn supply(&self) -> int {
        match self.metadata {
            Some(m) => m.total_supply as int,
            None => 0,
        }
    }

    /// The sum of all stored balances.
    pub open spec fn balance_sum(&self) -> int {
        sum_values(self.balances@)
    }

    /// The total supply equals the sum of the stored balances.
    pub open spec fn supply_backed(&self) -> bool {
        self.supply() == self.balance_sum()
    }

    /// The admin, where the token is initialized.
    pub open spec fn admin_of(&self) -> Option<Address> {
        match self.metadata {
            Some(m) => Some(m.admin),
            None => None,
        }
    }

    /// Every stored balance and allowance is non-negative.
    pub open spec fn amounts_nonneg(&self) -> bool {
        &&& forall|a: Address| #[trigger] self.balance_map().contains_key(a) ==> self.balance_map()[a]
            >= 0
        &&& forall|k: (Address, Address)| #[trigger] self.allowance_map().contains_key(k)
            ==> self.allowance_map()[k] >= 0
    }

    /// What `initialize` answers on this storage.
    pub open spec fn initialize_result(&self) -> Result<(), TokenError> {
        if self.metadata is Some {
            Err(TokenError::AlreadyInitialized)
        } else {
            Ok(())
        }
    }

    /// What `mint(to, amount)` answers on this storage.
    pub open spec fn mint_result(&self, to: Address, amount: i128) -> Result<(), TokenError> {
        if amount <= 0 {
            Err(TokenError::AmountNotPositive)
        } else if self.metadata is None {
            Err(TokenError::NotInitialized)
        } else if self.balance_of(to) + amount > i128::MAX || self.supply() + amount > i128::MAX {
            Err(TokenError::Overflow)
        } else {
            Ok(())
        }
    }

    /// `post` is this storage after `mint(to, amount)` was applied.
    pub open spec fn minted(&self, post: Self, to: Address, amount: i128) -> bool {
        &&& post.balance_map() == self.balance_map().insert(
            to,
            (self.balance_of(to) + amount) as i128,
        )
        &&& post.metadata == Some(
            with_supply(self.metadata->Some_0, (self.supply() + amount) as i128),
        )
        &&& post.allowances == self.allowances
    }

    /// What `burn(from, amount)` answers on this storage.
    pub open spec fn burn_result(&self, from: Address, amount: i128) -> Result<(), TokenError> {
        if amount <= 0 {
            Err(TokenError::AmountNotPositive)
        } else if self.balance_of(from) < amount {
            Err(TokenError::InsufficientBalance)
        } else if self.metadata is None {
            Err(TokenError::NotInitialized)
        } else if self.supply() - amount < i128::MIN {
            Err(TokenError::Overflow)
        } else {
            Ok(())
        }
    }

    /// `post` is this storage after `burn(from, amount)` was applied.
    pub open spec fn burned(&self, post: Self, from: Address, amount: i128) -> bool {
        &&& post.balance_map() == self.balance_map().insert(
            from,
            (self.balance_of(from) - amount) as i128,
        )
        &&& post.metadata == Some(
            with_supply(self.metadata->Some_0, (self.supply() - amount) as i128),
        )
        &&& post.allowances == self.allowances
    }

    /// The balances once `amount` is taken from `from`.
    pub open spec fn debited(&self, from: Address, amount: i128) -> Map<Address, i128> {
        self.balance_map().insert(from, (self.balance_of(from) - amount) as i128)
    }

    /// What `to` holds once `amount` is taken from `from` and given to `to`
    /// (the debit is seen where `to` is `from`).
    pub open spec fn credit(&self, from: Address, to: Address, amount: i128) -> int {
        value_or_zero(self.debited(from, amount), to) + amount
    }

    /// What `transfer(from, to, amount)` answers on this storage.
    pub open spec fn transfer_result(&self, from: Address, to: Address, amount: i128) -> Result<
        (),
        TokenError,
    > {
        if amount <= 0 {
            Err(TokenError::AmountNotPositive)
        } else if self.balance_of(from) < amount {
            Err(TokenError::InsufficientBalance)
        } else if self.credit(from, to, amount) > i128::MAX {
            Err(TokenError::Overflow)
        } else {
            Ok(())
        }
    }

    /// `post` is this storage after `transfer(from, to, amount)` was applied.
    pub open spec fn transferred(&self, post: Self, from: Address, to: Address, amount: i128) -> bool {
        &&& post.balance_map() == self.debited(from, amount).insert(
            to,
            self.credit(from, to, amount) as i128,
        )
        &&& post.metadata == self.metadata
        &&& post.allowances == self.allowances
    }

    /// What `approve(from, spender, amount)` answers on this storage.
    pub open spec fn approve_result(&self, amount: i128) -> Result<(), TokenError> {
        if amount < 0 {
            Err(TokenError::AmountNegative)
        } else {
            Ok(())
        }
    }

    /// The allowances once the allowance of `spender` on `from` is set to
    /// `amount`; a zero allowance has no entry.
    pub open spec fn allowances_set(&self, from: Address, spender: Address, amount: i128) -> Map<
        (Address, Address),
        i128,
    > {
        if amount == 0 {
            self.allowance_map().remove((from, spender))
        } else {
            self.allowance_map().insert((from, spender), amount)
        }
    }

    /// `post` is this storage after `approve(from, spender, amount)` was
    /// applied.
    pub open spec fn approved(&self, post: Self, from: Address, spender: Address, amount: i128) -> bool {
        &&& post.allowance_map() == self.allowances_set(from, spender, amount)
        &&& post.metadata == self.metadata
        &&& post.balances == self.balances
    }

    /// What `transfer_from(spender, from, to, amount)` answers on this
    /// storage.
    pub open spec fn transfer_from_result(
        &self,
        spender: Address,
        from: Address,
        to: Address,
        amount: i128,
    ) -> Result<(), TokenError> {
        if amount <= 0 {
            Err(TokenError::AmountNotPositive)
        } else if self.allowance_of(from, spender) < amount {
            Err(TokenError::InsufficientAllowance)
        } else if self.balance_of(from) < amount {
            Err(TokenError::InsufficientBalance)
        } else if self.credit(from, to, amount) > i128::MAX {
            Err(TokenError::Overflow)
        } else {
            Ok(())
        }
    }

    /// `post` is this storage after `transfer_from(spender, from, to, amount)`
    /// was applied.
    pub open spec fn transferred_from(
        &self,
        post: Self,
        spender: Address,
        from: Address,
        to: Address,
        amount: i128,
    ) -> bool {
        &&& post.balance_map() == self.debited(from, amount).insert(
            to,
            self.credit(from, to, amount) as i128,
        )
        &&& post.allowance_map() == self.allowances_set(
            from,
            spender,
            (self.allowance_of(from, spender) - amount) as i128,
        )
        &&& post.metadata == self.metadata
    }

    /// What `set_admin` answers on this storage.
    pub open spec fn set_admin_result(&self) -> Result<(), TokenError> {
        if self.metadata is None {
            Err(TokenError::NotInitialized)
        } else {
            Ok(())
        }
    }

    proof fn lemma_nonneg_frame(pre: Self, post: Self)
        requires
            pre.amounts_nonneg(),
            post.balances == pre.balances,
            post.allowances == pre.allowances,
        ensures
            post.amounts_nonneg(),
    {
        assert(post.balance_map() == pre.balance_map());
        assert(post.allowance_map() == pre.allowance_map());
    }

    /// Empty storage: a token that is not initialized yet.
    pub fn new() -> (r: Self)
        ensures
            r.wf(),
            r.metadata is None,
            r.balance_map() == Map::<Address, i128>::empty(),
            r.allowance_map() == Map::<(Address, Address), i128>::empty(),
            r.balance_sum() == 0,
    {
        let r = TokenContract { metadata: None, balances: Vec::new(), allowances: Vec::new() };
        proof {
            lemma_empty(r.balances@);
            lemma_empty(r.allowances@);
        }
        r
    }

    fn find_balance(&self, a: Address) -> (r: Option<usize>)
        ensures
            match r {
                Some(i) => i < self.balances@.len() && self.balances@[i as int].0 == a,
                None => !has_key(self.balances@, a),
            },
    {
        let mut i: usize = 0;
        while i < self.balances.len()
            invariant
                i <= self.balances@.len(),
                forall|j: int| 0 <= j < i ==> (#[trigger] self.balances@[j]).0 != a,
            decreases self.balances@.len() - i,
        {
            if self.balances[i].0 == a {
                return Some(i);
            }
            i = i + 1;
        }
        None
    }

    fn find_allowance(&self, from: Address, spender: Address) -> (r: Option<usize>)
        ensures
            match r {
                Some(i) => i < self.allowances@.len() && self.allowances@[i as int].0 == (
                from,
                spender,
                ),
                None => !has_key(self.allowances@, (from, spender)),
            },
    {
        let mut i: usize = 0;
        while i < self.allowances.len()
            invariant
                i <= self.allowances@.len(),
                forall|j: int| 0 <= j < i ==> (#[trigger] self.allowances@[j]).0 != (from, spender),
            decreases self.allowances@.len() - i,
        {
            let key = self.allowances[i].0;
            if key.0 == from && key.1 == spender {
                return Some(i);
            }
            i = i + 1;
        }
        None
    }

    fn get_balance(&self, a: Address) -> (r: i128)
        requires
            self.wf(),
        ensures
            r == self.balance_of(a),
    {
        match self.find_balance(a) {
            Some(i) => {
                proof {
                    lemma_lookup(self.balances@, i as int);
                }
                self.balances[i].1
            },
            None => 0,
        }
    }

    fn get_allowance(&self, from: Address, spender: Address) -> (r: i128)
        requires
            self.wf(),
        ensures
            r == self.allowance_of(from, spender),
    {
        match self.find_allowance(from, spender) {
            Some(i) => {
                proof {
                    lemma_lookup(self.allowances@, i as int);
                }
                self.allowances[i].1
            },
            None => 0,
        }
    }

    fn set_balance(&mut self, a: Address, v: i128)
        requires
            old(self).wf(),
        ensures
            final(self).wf(),
            final(self).balance_map() == old(self).balance_map().insert(a, v),
            final(self).balance_sum() == old(self).balance_sum() - old(self).balance_of(a) + v,
            final(self).metadata == old(self).metadata,
            final(self).allowances == old(self).allowances,
            old(self).amounts_nonneg() && v >= 0 ==> final(self).amounts_nonneg(),
    {
        match self.find_balance(a) {
            Some(i) => {
                proof {
                    lemma_lookup(self.balances@, i as int);
                    lemma_update(self.balances@, i as int, v);
                    lemma_sum_update(self.balances@, i as int, v);
                }
                self.balances.set(i, (a, v));
            },
            None => {
                proof {
                    lemma_push(self.balances@, a, v);
                    lemma_sum_push(self.balances@, a, v);
                }
                self.balances.push((a, v));
            },
        }
        proof {
            if old(self).amounts_nonneg() && v >= 0 {
                assert forall|b: Address| #[trigger] self.balance_map().contains_key(b) implies self.balance_map()[b] >= 0 by {
                    if b != a {
                        assert(old(self).balance_map().contains_key(b));
                    }
                }
                assert(self.allowance_map() == old(self).allowance_map());
            }
        }
    }

    fn set_allowance(&mut self, from: Address, spender: Address, v: i128)
        requires
            old(self).wf(),
        ensures
            final(self).wf(),
            final(self).allowance_map() == (if v == 0 {
                old(self).allowance_map().remove((from, spender))
            } else {
                old(self).allowance_map().insert((from, spender), v)
            }),
            final(self).metadata == old(self).metadata,
            final(self).balances == old(self).balances,
            old(self).amounts_nonneg() && v >= 0 ==> final(self).amounts_nonneg(),
    {
        match self.find_allowance(from, spender) {
            Some(i) => {
                if v == 0 {
                    proof {
                        lemma_remove(self.allowances@, i as int);
                    }
                    self.allowances.remove(i);
                } else {
                    proof {
                        lemma_update(self.allowances@, i as int, v);
                    }
                    self.allowances.set(i, ((from, spender), v));
                }
            },
            None => {
                if v == 0 {
                    proof {
                        assert(old(self).allowance_map().remove((from, spender))
                            =~= old(self).allowance_map());
                    }
                } else {
                    proof {
                        lemma_push(self.allowances@, (from, spender), v);
                    }
                    self.allowances.push(((from, spender), v));
                }
            },
        }
        proof {
            if old(self).amounts_nonneg() && v >= 0 {
                assert forall|k: (Address, Address)| #[trigger] self.allowance_map().contains_key(k) implies self.allowance_map()[k] >= 0 by {
                    if k != (from, spender) {
                        assert(old(self).allowance_map().contains_key(k));
                    }
                }
                assert(self.balance_map() == old(self).balance_map());
            }
        }
    }

    /// One-time setup: stores the admin, the metadata and a zero supply.
    pub fn initialize(&mut self, admin: Address, decimal: u32, name: String, symbol: String) -> (out:
        Outcome<(), TokenError>)
        requires
            old(self).wf(),
        ensures
            final(self).wf(),
            out.result is Err ==> *final(self) == *old(self),
            old(self).amounts_nonneg() ==> final(self).amounts_nonneg(),
            out.authorizer is None,
            out.result == old(self).initialize_result(),
            out.result is Ok ==> {
                &&& final(self).metadata == Some(
                    TokenMetadata { admin, decimals: decimal, name, symbol, total_supply: 0 },
                )
                &&& final(self).balances == old(self).balances
                &&& final(self).allowances == old(self).allowances
            },
            final(self).balance_sum() == old(self).balance_sum(),
            final(self).supply() == old(self).supply(),
    {
        if self.metadata.is_some() {
            return Outcome { authorizer: None, result: Err(TokenError::AlreadyInitialized) };
        }
        self.metadata = Some(
            TokenMetadata { admin, decimals: decimal, name, symbol, total_supply: 0 },
        );
        proof {
            if old(self).amounts_nonneg() {
                Self::lemma_nonneg_frame(*old(self), *self);
            }
        }
        Outcome { authorizer: None, result: Ok(()) }
    }

    /// Mints `amount` to `to`, on the admin's authorization.
    pub fn mint(&mut self, to: Address, amount: i128) -> (out: Outcome<(), TokenError>)
        requires
            old(self).wf(),
        ensures
            final(self).wf(),
            out.result is Err ==> *final(self) == *old(self),
            old(self).amounts_nonneg() ==> final(self).amounts_nonneg(),
            final(self).balance_sum() - old(self).balance_sum() == final(self).supply() - old(
                self,
            ).supply(),
            old(self).supply_backed() ==> final(self).supply_backed(),
            out.authorizer == (if amount > 0 {
                old(self).admin_of()
            } else {
                None
            }),
            out.result == old(self).mint_result(to, amount),
            out.result is Ok ==> old(self).minted(*final(self), to, amount),
    {
        if amount <= 0 {
            return Outcome { authorizer: None, result: Err(TokenError::AmountNotPositive) };
        }
        let (admin, supply) = match &self.metadata {
            Some(m) => (m.admin, m.total_supply),
            None => {
                return Outcome { authorizer: None, result: Err(TokenError::NotInitialized) };
            },
        };
        let balance = self.get_balance(to);
        if balance > i128::MAX - amount || supply > i128::MAX - amount {
            return Outcome { authorizer: Some(admin), result: Err(TokenError::Overflow) };
        }
        self.set_balance(to, balance + amount);
        let ghost mid = *self;
        match &mut self.metadata {
            Some(m) => {
                m.total_supply = supply + amount;
            },
            None => {},
        }
        proof {
            if mid.amounts_nonneg() {
                Self::lemma_nonneg_frame(mid, *self);
            }
        }
        Outcome { authorizer: Some(admin), result: Ok(()) }
    }

    /// Burns `amount` from `from`, on the authorization of `from`.
    pub fn burn(&mut self, from: Address, amount: i128) -> (out: Outcome<(), TokenError>)
        requires
            old(self).wf(),
        ensures
            final(self).wf(),
            out.result is Err ==> *final(self) == *old(self),
            old(self).amounts_nonneg() ==> final(self).amounts_nonneg(),
            final(self).balance_sum() - old(self).balance_sum() == final(self).supply() - old(
                self,
            ).supply(),
            old(self).supply_backed() ==> final(self).supply_backed(),
            out.authorizer == (if amount > 0 {
                Some(from)
            } else {
                None
            }),
            out.result == old(self).burn_result(from, amount),
            out.result is Ok ==> old(self).burned(*final(self), from, amount),
    {
        if amount <= 0 {
            return Outcome { authorizer: None, result: Err(TokenError::AmountNotPositive) };
        }
        let balance = self.get_balance(from);
        if balance < amount {
            return Outcome { authorizer: Some(from), result: Err(TokenError::InsufficientBalance) };
        }
        let supply = match &self.metadata {
            Some(m) => m.total_supply,
            None => {
                return Outcome { authorizer: Some(from), result: Err(TokenError::NotInitialized) };
            },
        };
        if supply < i128::MIN + amount {
            return Outcome { authorizer: Some(from), result: Err(TokenError::Overflow) };
        }
        self.set_balance(from, balance - amount);
        let ghost mid = *self;
        match &mut self.metadata {
            Some(m) => {
                m.total_supply = supply - amount;
            },
            None => {},
        }
        proof {
            if mid.amounts_nonneg() {
                Self::lemma_nonneg_frame(mid, *self);
            }
        }
        Outcome { authorizer: Some(from), result: Ok(()) }
    }

    /// Moves `amount` from `from` to `to`, on the authorization of `from`.
    pub fn transfer(&mut self, from: Address, to: Address, amount: i128) -> (out: Outcome<
        (),
        TokenError,
    >)
        requires
            old(self).wf(),
        ensures
            final(self).wf(),
            out.result is Err ==> *final(self) == *old(self),
            old(self).amounts_nonneg() ==> final(self).amounts_nonneg(),
            final(self).balance_sum() == old(self).balance_sum(),
            final(self).supply() == old(self).supply(),
            out.authorizer == (if amount > 0 {
                Some(from)
            } else {
                None
            }),
            out.result == old(self).transfer_result(from, to, amount),
            out.result is Ok ==> old(self).transferred(*final(self), from, to, amount),
    {
        if amount <= 0 {
            return Outcome { authorizer: None, result: Err(TokenError::AmountNotPositive) };
        }
        let from_balance = self.get_balance(from);
        if from_balance < amount {
            return Outcome { authorizer: Some(from), result: Err(TokenError::InsufficientBalance) };
        }
        let ghost debited = old(self).balance_map().insert(from, (from_balance - amount) as i128);
        let to_balance = if to == from {
            from_balance - amount
        } else {
            self.get_balance(to)
        };
        assert(to_balance == value_or_zero(debited, to));
        if to_balance > i128::MAX - amount {
            return Outcome { authorizer: Some(from), result: Err(TokenError::Overflow) };
        }
        self.set_balance(from, from_balance - amount);
        assert(self.balance_of(to) == to_balance);
        self.set_balance(to, to_balance + amount);
        Outcome { authorizer: Some(from), result: Ok(()) }
    }

    /// Sets what `spender` may move from `from`, on the authorization of
    /// `from`. A zero allowance removes the entry.
    pub fn approve(&mut self, from: Address, spender: Address, amount: i128) -> (out: Outcome<
        (),
        TokenError,
    >)
        requires
            old(self).wf(),
        ensures
            final(self).wf(),
            out.result is Err ==> *final(self) == *old(self),
            old(self).amounts_nonneg() ==> final(self).amounts_nonneg(),
            out.authorizer == (if amount >= 0 {
                Some(from)
            } else {
                None
            }),
            out.result == old(self).approve_result(amount),
            out.result is Ok ==> old(self).approved(*final(self), from, spender, amount),
    {
        if amount < 0 {
            return Outcome { authorizer: None, result: Err(TokenError::AmountNegative) };
        }
        self.set_allowance(from, spender, amount);
        Outcome { authorizer: Some(from), result: Ok(()) }
    }

    /// Moves `amount` from `from` to `to` on the allowance that `from` gave
    /// `spender`, on the authorization of `spender`.
    pub fn transfer_from(&mut self, spender: Address, from: Address, to: Address, amount: i128) -> (out:
        Outcome<(), TokenError>)
        requires
            old(self).wf(),
        ensures
            final(self).wf(),
            out.result is Err ==> *final(self) == *old(self),
            old(self).amounts_nonneg() ==> final(self).amounts_nonneg(),
            final(self).balance_sum() == old(self).balance_sum(),
            final(self).supply() == old(self).supply(),
            out.authorizer == (if amount > 0 {
                Some(spender)
            } else {
                None
            }),
            out.result == old(self).transfer_from_result(spender, from, to, amount),
            out.result is Ok ==> old(self).transferred_from(*final(self), spender, from, to, amount),
    {
        if amount <= 0 {
            return Outcome { authorizer: None, result: Err(TokenError::AmountNotPositive) };
        }
        let allowance = self.get_allowance(from, spender);
        if allowance < amount {
            return Outcome {
                authorizer: Some(spender),
                result: Err(TokenError::InsufficientAllowance),
            };
        }
        let from_balance = self.get_balance(from);
        if from_balance < amount {
            return Outcome {
                authorizer: Some(spender),
                result: Err(TokenError::InsufficientBalance),
            };
        }
        let ghost debited = old(self).balance_map().insert(from, (from_balance - amount) as i128);
        let to_balance = if to == from {
            from_balance - amount
        } else {
            self.get_balance(to)
        };
        assert(to_balance == value_or_zero(debited, to));
        if to_balance > i128::MAX - amount {
            return Outcome { authorizer: Some(spender), result: Err(TokenError::Overflow) };
        }
        self.set_allowance(from, spender, allowance - amount);
        self.set_balance(from, from_balance - amount);
        assert(self.balance_of(to) == to_balance);
        self.set_balance(to, to_balance + amount);
        Outcome { authorizer: Some(spender), result: Ok(()) }
    }

    /// The balance of `id`.
    pub fn balance(&self, id: Address) -> (r: i128)
        requires
            self.wf(),
        ensures
            r == self.balance_of(id),
    {
        self.get_balance(id)
    }

    /// What `spender` may still move from `from`.
    pub fn allowance(&self, from: Address, spender: Address) -> (r: i128)
        requires
            self.wf(),
        ensures
            r == self.allowance_of(from, spender),
    {
        self.get_allowance(from, spender)
    }

    /// The total supply; zero before `initialize`.
    pub fn total_supply(&self) -> (r: i128)
        ensures
            r == self.supply(),
    {
        match &self.metadata {
            Some(m) => m.total_supply,
            None => 0,
        }
    }

    /// The number of decimal places.
    pub fn decimals(&self) -> (r: Result<u32, TokenError>)
        ensures
            r == (match self.metadata {
                Some(m) => Ok::<u32, TokenError>(m.decimals),
                None => Err(TokenError::NotInitialized),
            }),
    {
        match &self.metadata {
            Some(m) => Ok(m.decimals),
            None => Err(TokenError::NotInitialized),
        }
    }

    /// The token's name.
    pub fn name(&self) -> (r: Result<String, TokenError>)
        ensures
            match self.metadata {
                Some(m) => r matches Ok(s) && s@ == m.name@,
                None => r == Err::<String, TokenError>(TokenError::NotInitialized),
            },
    {
        match &self.metadata {
            Some(m) => Ok(m.name.clone()),
            None => Err(TokenError::NotInitialized),
        }
    }

    /// The token's ticker symbol.
    pub fn symbol(&self) -> (r: Result<String, TokenError>)
        ensures
            match self.metadata {
                Some(m) => r matches Ok(s) && s@ == m.symbol@,
                None => r == Err::<String, TokenError>(TokenError::NotInitialized),
            },
    {
        match &self.metadata {
            Some(m) => Ok(m.symbol.clone()),
            None => Err(TokenError::NotInitialized),
        }
    }

    /// Hands the admin role to `new_admin`, on the current admin's
    /// authorization.
    pub fn set_admin(&mut self, new_admin: Address) -> (out: Outcome<(), TokenError>)
        requires
            old(self).wf(),
        ensures
            final(self).wf(),
            out.result is Err ==> *final(self) == *old(self),
            old(self).amounts_nonneg() ==> final(self).amounts_nonneg(),
            out.authorizer == old(self).admin_of(),
            out.result == old(self).set_admin_result(),
            out.result is Ok ==> {
                &&& final(self).metadata == Some(with_admin(old(self).metadata->Some_0, new_admin))
                &&& final(self).balances == old(self).balances
                &&& final(self).allowances == old(self).allowances
            },
    {
        let admin = match &mut self.metadata {
            Some(m) => {
                let admin = m.admin;
                m.admin = new_admin;
                admin
            },
            None => {
                return Outcome { authorizer: None, result: Err(TokenError::NotInitialized) };
            },
        };
        proof {
            if old(self).amounts_nonneg() {
                Self::lemma_nonneg_frame(*old(self), *self);
            }
        }
        Outcome { authorizer: Some(admin), result: Ok(()) }
    }
}

/// After a successful `initialize`, the token reports the stored metadata
/// and a zero supply, and a second `initialize` is refused.
pub proof fn law_initialize_once(
    post: TokenContract,
    admin: Address,
    decimal: u32,
    name: String,
    symbol: String,
)
    requires
        post.metadata == Some(
            TokenMetadata { admin, decimals: decimal, name, symbol, total_supply: 0 },
        ),
    ensures
        post.initialize_result() == Err::<(), TokenError>(TokenError::AlreadyInitialized),
        post.supply() == 0,
        post.admin_of() == Some(admin),
{
}

/// After `approve(from, spender, amount)`, the allowance of `spender` on
/// `from` reads `amount`, and every other allowance reads as before.
pub proof fn law_approve_then_allowance(
    pre: TokenContract,
    post: TokenContract,
    from: Address,
    spender: Address,
    amount: i128,
)
    requires
        pre.approve_result(amount) is Ok,
        pre.approved(post, from, spender, amount),
    ensures
        post.allowance_of(from, spender) == amount,
        forall|f: Address, s: Address|
            (f, s) != (from, spender) ==> #[trigger] post.allowance_of(f, s) == pre.allowance_of(f, s),
{
}

/// A transfer takes `amount` from `from` and gives it to `to`; every other
/// balance stays, and a transfer to oneself changes nothing.
pub proof fn law_transfer_moves_amount(
    pre: TokenContract,
    post: TokenContract,
    from: Address,
    to: Address,
    amount: i128,
)
    requires
        pre.transfer_result(from, to, amount) is Ok,
        pre.transferred(post, from, to, amount),
    ensures
        from != to ==> post.balance_of(from) == pre.balance_of(from) - amount,
        from != to ==> post.balance_of(to) == pre.balance_of(to) + amount,
        from == to ==> post.balance_of(from) == pre.balance_of(from),
        forall|a: Address| a != from && a != to ==> #[trigger] post.balance_of(a) == pre.balance_of(a),
        post.supply() == pre.supply(),
{
}

/// A spend on an allowance moves the amount like a transfer and lowers the
/// spender's allowance by the amount.
pub proof fn law_transfer_from_spends_allowance(
    pre: TokenContract,
    post: TokenContract,
    spender: Address,
    from: Address,
    to: Address,
    amount: i128,
)
    requires
        pre.transfer_from_result(spender, from, to, amount) is Ok,
        pre.transferred_from(post, spender, from, to, amount),
    ensures
        post.allowance_of(from, spender) == pre.allowance_of(from, spender) - amount,
        from != to ==> post.balance_of(from) == pre.balance_of(from) - amount,
        from != to ==> post.balance_of(to) == pre.balance_of(to) + amount,
        forall|a: Address| a != from && a != to ==> #[trigger] post.balance_of(a) == pre.balance_of(a),
{
}

/// Where no stored amount is negative, burning what was just minted to the
/// same address is accepted and gives back every balance and the supply
/// that were there before the mint.
pub proof fn law_mint_then_burn(
    s0: TokenContract,
    s1: TokenContract,
    s2: TokenContract,
    a: Address,
    amount: i128,
)
    requires
        s0.amounts_nonneg(),
        s0.mint_result(a, amount) is Ok,
        s0.minted(s1, a, amount),
        s1.burned(s2, a, amount),
    ensures
        s1.burn_result(a, amount) is Ok,
        forall|x: Address| #[trigger] s2.balance_of(x) == s0.balance_of(x),
        s2.supply() == s0.supply(),
        s2.metadata == s0.metadata,
        s2.allowances == s0.allowances,
{
    assert(s1.balance_of(a) == s0.balance_of(a) + amount);
    assert(s0.balance_of(a) >= 0) by {
        if s0.balance_map().contains_key(a) {
        }
    }
    assert forall|x: Address| #[trigger] s2.balance_of(x) == s0.balance_of(x) by {
        if x != a {
            assert(s1.balance_of(x) == s0.balance_of(x));
        }
    }
}

/// Once the admin role is handed to `new_admin`, a mint demands the
/// authorization of `new_admin`.
pub proof fn law_set_admin_then_mint(
    pre: TokenContract,
    post: TokenContract,
    new_admin: Address,
)
    requires
        pre.set_admin_result() is Ok,
        post.metadata == Some(with_admin(pre.metadata->Some_0, new_admin)),
    ensures
        post.admin_of() == Some(new_admin),
        post.supply() == pre.supply(),
{
}

} // verus!
