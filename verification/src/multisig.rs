//! An M-of-N multisignature wallet.
//!
//! Owners propose token transfers out of the contract; a proposal is
//! executed once at least `threshold` owners approve it. Owners may be added
//! and removed, and the threshold changed; the threshold always stays
//! between one and the number of owners.
use vstd::prelude::*;
use crate::address::Address;
use crate::outcome::Outcome;
use crate::table::{
    distinct_keys, has_key, lemma_empty, lemma_lookup, lemma_push, lemma_update,
    to_map,
};
use crate::transfer::{Party, Transfer};

verus! {

/// A proposed transfer of `amount` of the token at `token` to `to`.
pub struct Proposal {
    pub id: u64,
    pub to: Address,
    pub token: Address,
    pub amount: i128,
    /// The owners who approve it, in the order they approved.
    pub approvals: Vec<Address>,
    pub executed: bool,
    /// Ledger time at which it was proposed.
    pub created_at: u64,
}

/// What the wallet keeps in instance storage once initialized: the
/// `Owners`, `Threshold` and `NextId` entries, which `initialize` sets
/// together and no call removes.
pub struct MultisigSettings {
    pub owners: Vec<Address>,
    pub threshold: u32,
    pub next_id: u64,
}

/// Why a multisig call is refused.
#[derive(Clone, Copy, PartialEq, Eq, Structural, Debug)]
pub enum MultisigError {
    AlreadyInitialized,
    NotInitialized,
    OwnersRequired,
    InvalidThreshold,
    AmountNotPositive,
    NotAnOwner,
    ProposalNotFound,
    AlreadyExecuted,
    AlreadyApproved,
    ApprovalNotFound,
    InsufficientApprovals,
    AlreadyAnOwner,
    CannotRemoveLastOwner,
    OwnerNotFound,
    Overflow,
}

impl MultisigError {
    /// The message with which the contract aborts for this refusal.
    pub fn message(&self) -> (r: &'static str)
        ensures
            r@ == (match *self {
                MultisigError::AlreadyInitialized => "already initialized"@,
                MultisigError::NotInitialized => "not initialized"@,
                MultisigError::OwnersRequired => "owners required"@,
                MultisigError::InvalidThreshold => "invalid threshold"@,
                MultisigError::AmountNotPositive => "amount must be positive"@,
                MultisigError::NotAnOwner => "not an owner"@,
                MultisigError::ProposalNotFound => "proposal not found"@,
                MultisigError::AlreadyExecuted => "already executed"@,
                MultisigError::AlreadyApproved => "already approved"@,
                MultisigError::ApprovalNotFound => "approval not found"@,
                MultisigError::InsufficientApprovals => "insufficient approvals"@,
                MultisigError::AlreadyAnOwner => "already an owner"@,
                MultisigError::CannotRemoveLastOwner => "cannot remove last owner"@,
                MultisigError::OwnerNotFound => "owner not found"@,
                MultisigError::Overflow => "arithmetic overflow"@,
            }),
    {
        match self {
            MultisigError::AlreadyInitialized => "already initialized",
            MultisigError::NotInitialized => "not initialized",
            MultisigError::OwnersRequired => "owners required",
            MultisigError::InvalidThreshold => "invalid threshold",
            MultisigError::AmountNotPositive => "amount must be positive",
            MultisigError::NotAnOwner => "not an owner",
            MultisigError::ProposalNotFound => "proposal not found",
            MultisigError::AlreadyExecuted => "already executed",
            MultisigError::AlreadyApproved => "already approved",
            MultisigError::ApprovalNotFound => "approval not found",
            MultisigError::InsufficientApprovals => "insufficient approvals",
            MultisigError::AlreadyAnOwner => "already an owner",
            MultisigError::CannotRemoveLastOwner => "cannot remove last owner",
            MultisigError::OwnerNotFound => "owner not found",
            MultisigError::Overflow => "arithmetic overflow",
        }
    }
}

/// The storage of the multisig contract.
pub struct MultisigContract {
    /// Instance storage; `None` until `initialize`.
    pub settings: Option<MultisigSettings>,
    /// `Proposal(id)` entries, each under its proposal's id.
    pub proposals: Vec<(u64, Proposal)>,
}

/// The index of the first entry of `s` that equals `a` (meaningful when `s`
/// contains `a`).
pub open spec fn first_index(s: Seq<Address>, a: Address) -> int {
    choose|i: int| 0 <= i < s.len() && s[i] == a && forall|j: int| 0 <= j < i ==> s[j] != a
}

/// `s` without its first entry equal to `a`.
pub open spec fn remove_first(s: Seq<Address>, a: Address) -> Seq<Address> {
    s.remove(first_index(s, a))
}

/// `p` and `q` propose the same transfer under the same id.
pub open spec fn same_terms(p: Proposal, q: Proposal) -> bool {
    &&& q.id == p.id
    &&& q.to == p.to
    &&& q.token == p.token
    &&& q.amount == p.amount
    &&& q.created_at == p.created_at
}

/// The payment that executing `p` makes.
pub open spec fn payment_of(p: Proposal) -> Transfer {
    Transfer { token: p.token, from: Party::Contract, to: Party::Account(p.to), amount: p.amount }
}

impl MultisigContract {
    /// Each proposal is stored once, under its own id.
    pub open spec fn wf(&self) -> bool {
        &&& distinct_keys(self.proposals@)
        &&& forall|i: int|
            0 <= i < self.proposals@.len() ==> (#[trigger] self.proposals@[i]).0
                == self.proposals@[i].1.id
    }

    /// The stored proposals by id.
    pub open spec fn proposal_map(&self) -> Map<u64, Proposal> {
        to_map(self.proposals@)
    }

    /// The owners (meaningful once initialized).
    pub open spec fn owners(&self) -> Seq<Address> {
        self.settings->Some_0.owners@
    }

    /// The threshold (meaningful once initialized).
    pub open spec fn threshold(&self) -> u32 {
        self.settings->Some_0.threshold
    }

    /// The id the next proposal gets (meaningful once initialized).
    pub open spec fn next_id(&self) -> u64 {
        self.settings->Some_0.next_id
    }

    /// What the wallet keeps true between calls: the threshold lies between
    /// one and the number of owners, every stored proposal has an id below
    /// the next one, and no owner approves a proposal twice.
    pub open spec fn valid(&self) -> bool {
        &&& self.wf()
        &&& self.settings is Some ==> {
            &&& 1 <= self.threshold() <= self.owners().len()
            &&& forall|id: u64| #[trigger]
                self.proposal_map().contains_key(id) ==> id < self.next_id()
        }
        &&& forall|id: u64| #[trigger]
            self.proposal_map().contains_key(id) ==> self.proposal_map()[id].approvals@.no_duplicates()
    }

    /// The check that opens the owners' calls: the wallet is initialized
    /// and `a` is one of its owners.
    pub open spec fn owner_check(&self, a: Address) -> Result<(), MultisigError> {
        if self.settings is None {
            Err(MultisigError::NotInitialized)
        } else if !self.owners().contains(a) {
            Err(MultisigError::NotAnOwner)
        } else {
            Ok(())
        }
    }

    /// `post` differs from this storage in the proposal under `id` at most.
    pub open spec fn keeps_all_but(&self, post: Self, id: u64) -> bool {
        &&& post.settings == self.settings
        &&& post.proposal_map().dom() == self.proposal_map().dom()
        &&& forall|k: u64|
            k != id && #[trigger] self.proposal_map().contains_key(k) ==> post.proposal_map()[k]
                == self.proposal_map()[k]
    }

    /// What `initialize(owners, threshold)` answers on this storage.
    pub open spec fn initialize_result(&self, owners: Seq<Address>, threshold: u32) -> Result<
        (),
        MultisigError,
    > {
        if self.settings is Some {
            Err(MultisigError::AlreadyInitialized)
        } else if owners.len() == 0 {
            Err(MultisigError::OwnersRequired)
        } else if threshold == 0 || threshold > owners.len() {
            Err(MultisigError::InvalidThreshold)
        } else {
            Ok(())
        }
    }

    /// What `propose(proposer, .., amount, ..)` answers on this storage.
    pub open spec fn propose_result(&self, proposer: Address, amount: i128) -> Result<
        u64,
        MultisigError,
    > {
        if amount <= 0 {
            Err(MultisigError::AmountNotPositive)
        } else if self.owner_check(proposer) is Err {
            Err(self.owner_check(proposer)->Err_0)
        } else if self.next_id() == u64::MAX {
            Err(MultisigError::Overflow)
        } else {
            Ok(self.next_id())
        }
    }

    /// The checks on the proposal under `id` that `approve` and `revoke`
    /// make once the owner is checked.
    pub open spec fn open_proposal_check(&self, id: u64) -> Result<(), MultisigError> {
        if !self.proposal_map().contains_key(id) {
            Err(MultisigError::ProposalNotFound)
        } else if self.proposal_map()[id].executed {
            Err(MultisigError::AlreadyExecuted)
        } else {
            Ok(())
        }
    }

    /// What `approve(owner, id)` answers on this storage.
    pub open spec fn approve_result(&self, owner: Address, id: u64) -> Result<(), MultisigError> {
        if self.owner_check(owner) is Err {
            self.owner_check(owner)
        } else if self.open_proposal_check(id) is Err {
            self.open_proposal_check(id)
        } else if self.proposal_map()[id].approvals@.contains(owner) {
            Err(MultisigError::AlreadyApproved)
        } else {
            Ok(())
        }
    }

    /// What `revoke(owner, id)` answers on this storage.
    pub open spec fn revoke_result(&self, owner: Address, id: u64) -> Result<(), MultisigError> {
        if self.owner_check(owner) is Err {
            self.owner_check(owner)
        } else if self.open_proposal_check(id) is Err {
            self.open_proposal_check(id)
        } else if !self.proposal_map()[id].approvals@.contains(owner) {
            Err(MultisigError::ApprovalNotFound)
        } else {
            Ok(())
        }
    }

    /// What `execute(id)` answers on this storage.
    pub open spec fn execute_result(&self, id: u64) -> Result<(), MultisigError> {
        if !self.proposal_map().contains_key(id) {
            Err(MultisigError::ProposalNotFound)
        } else if self.proposal_map()[id].executed {
            Err(MultisigError::AlreadyExecuted)
        } else if self.settings is None {
            Err(MultisigError::NotInitialized)
        } else if self.proposal_map()[id].approvals@.len() < self.threshold() {
            Err(MultisigError::InsufficientApprovals)
        } else {
            Ok(())
        }
    }

    /// What `add_owner(caller, new_owner)` answers on this storage.
    pub open spec fn add_owner_result(&self, caller: Address, new_owner: Address) -> Result<
        (),
        MultisigError,
    > {
        if self.owner_check(caller) is Err {
            self.owner_check(caller)
        } else if self.owners().contains(new_owner) {
            Err(MultisigError::AlreadyAnOwner)
        } else {
            Ok(())
        }
    }

    /// What `remove_owner(caller, owner)` answers on this storage.
    pub open spec fn remove_owner_result(&self, caller: Address, owner: Address) -> Result<
        (),
        MultisigError,
    > {
        if self.owner_check(caller) is Err {
            self.owner_check(caller)
        } else if self.owners().len() <= 1 {
            Err(MultisigError::CannotRemoveLastOwner)
        } else if !self.owners().contains(owner) {
            Err(MultisigError::OwnerNotFound)
        } else {
            Ok(())
        }
    }

    /// What `change_threshold(caller, new_threshold)` answers on this
    /// storage.
    pub open spec fn change_threshold_result(&self, caller: Address, new_threshold: u32) -> Result<
        (),
        MultisigError,
    > {
        if self.owner_check(caller) is Err {
            self.owner_check(caller)
        } else if new_threshold == 0 || new_threshold > self.owners().len() {
            Err(MultisigError::InvalidThreshold)
        } else {
            Ok(())
        }
    }

    /// `post` is this storage with `approvals` as the approvals of the
    /// proposal under `id`.
    pub open spec fn approvals_set(&self, post: Self, id: u64, approvals: Seq<Address>) -> bool {
        let p = self.proposal_map()[id];
        let q = post.proposal_map()[id];
        &&& self.keeps_all_but(post, id)
        &&& same_terms(p, q)
        &&& q.executed == p.executed
        &&& q.approvals@ == approvals
    }

    /// `post` is this storage with the owners `owners` and the threshold
    /// `threshold`.
    pub open spec fn owners_set(&self, post: Self, owners: Seq<Address>, threshold: u32) -> bool {
        &&& post.settings is Some
        &&& post.owners() == owners
        &&& post.threshold() == threshold
        &&& post.next_id() == self.next_id()
        &&& post.proposals == self.proposals
    }

    /// Empty storage: a wallet that is not initialized yet.
    pub fn new() -> (r: Self)
        ensures
            r.valid(),
            r.settings is None,
            r.proposal_map() == Map::<u64, Proposal>::empty(),
    {
        let r = MultisigContract { settings: None, proposals: Vec::new() };
        proof {
            lemma_empty(r.proposals@);
        }
        r
    }

    fn find_address(v: &Vec<Address>, a: Address) -> (r: Option<usize>)
        ensures
            match r {
                Some(i) => i < v@.len() && v@[i as int] == a && i == first_index(v@, a),
                None => !v@.contains(a),
            },
    {
        let mut i: usize = 0;
        while i < v.len()
            invariant
                i <= v@.len(),
                forall|j: int| 0 <= j < i ==> v@[j] != a,
            decreases v@.len() - i,
        {
            if v[i] == a {
                proof {
                    let k = first_index(v@, a);
                    assert(0 <= i < v@.len() && v@[i as int] == a && forall|j: int|
                        0 <= j < i ==> v@[j] != a);
                    if k < i {
                        assert(v@[k] != a);
                    }
                    if k > i {
                        assert(v@[i as int] != a);
                    }
                }
                return Some(i);
            }
            i = i + 1;
        }
        None
    }

    fn find_proposal(&self, id: u64) -> (r: Option<usize>)
        requires
            self.wf(),
        ensures
            match r {
                Some(i) => i < self.proposals@.len() && self.proposals@[i as int].0 == id
                    && self.proposal_map().contains_key(id) && self.proposal_map()[id]
                    == self.proposals@[i as int].1,
                None => !self.proposal_map().contains_key(id),
            },
    {
        let mut i: usize = 0;
        while i < self.proposals.len()
            invariant
                self.wf(),
                i <= self.proposals@.len(),
                forall|j: int| 0 <= j < i ==> (#[trigger] self.proposals@[j]).0 != id,
            decreases self.proposals@.len() - i,
        {
            if self.proposals[i].0 == id {
                proof {
                    lemma_lookup(self.proposals@, i as int);
                }
                return Some(i);
            }
            i = i + 1;
        }
        None
    }

    fn check_owner(&self, a: Address) -> (r: Result<(), MultisigError>)
        ensures
            r == self.owner_check(a),
    {
        match &self.settings {
            Some(st) => match Self::find_address(&st.owners, a) {
                Some(_) => Ok(()),
                None => Err(MultisigError::NotAnOwner),
            },
            None => Err(MultisigError::NotInitialized),
        }
    }

    /// Puts `p` at index `i`, keeping the entry's key.
    fn put_proposal(&mut self, i: usize, p: Proposal)
        requires
            i < old(self).proposals@.len(),
        ensures
            final(self).proposals@ == old(self).proposals@.update(
                i as int,
                (old(self).proposals@[i as int].0, p),
            ),
            final(self).settings == old(self).settings,
    {
        let id = self.proposals[i].0;
        self.proposals.set(i, (id, p));
    }

    /// Takes the proposal at index `i` out, leaving a placeholder with the
    /// same key in its place.
    fn take_proposal(&mut self, i: usize) -> (p: Proposal)
        requires
            i < old(self).proposals@.len(),
        ensures
            p == old(self).proposals@[i as int].1,
            final(self).proposals@.len() == old(self).proposals@.len(),
            forall|j: int|
                0 <= j < old(self).proposals@.len() && j != i ==> #[trigger] final(self).proposals@[j]
                    == old(self).proposals@[j],
            final(self).proposals@[i as int].0 == old(self).proposals@[i as int].0,
            final(self).settings == old(self).settings,
    {
        let (id, p) = self.proposals.remove(i);
        let placeholder = Proposal {
            id: p.id,
            to: p.to,
            token: p.token,
            amount: p.amount,
            approvals: Vec::new(),
            executed: p.executed,
            created_at: p.created_at,
        };
        self.proposals.insert(i, (id, placeholder));
        p
    }

    /// Updates the proposal at index `i` to `p`, which keeps its id.
    fn update_proposal(&mut self, i: usize, p: Proposal)
        requires
            old(self).wf(),
            i < old(self).proposals@.len(),
            p.id == old(self).proposals@[i as int].0,
        ensures
            final(self).wf(),
            final(self).settings == old(self).settings,
            final(self).proposal_map() == old(self).proposal_map().insert(p.id, p),
    {
        let ghost s = self.proposals@;
        proof {
            lemma_update(s, i as int, p);
        }
        self.put_proposal(i, p);
        proof {
            assert forall|j: int| 0 <= j < self.proposals@.len() implies (
            #[trigger] self.proposals@[j]).0 == self.proposals@[j].1.id by {
                if j != i {
                    assert(self.proposals@[j] == s[j]);
                }
            }
        }
    }

    /// After the entry at index `i` is given the proposal `p` under the same
    /// key, the map holds `p` there and the storage stays well formed.
    proof fn lemma_put(pre: Self, post: Self, i: int, p: Proposal)
        requires
            pre.wf(),
            0 <= i < pre.proposals@.len(),
            p.id == pre.proposals@[i].0,
            post.proposals@ == pre.proposals@.update(i, (pre.proposals@[i].0, p)),
            post.settings == pre.settings,
        ensures
            post.wf(),
            post.proposal_map() == pre.proposal_map().insert(p.id, p),
            post.proposal_map().dom() == pre.proposal_map().dom(),
            pre.proposal_map().contains_key(p.id),
    {
        lemma_update(pre.proposals@, i, p);
        lemma_lookup(pre.proposals@, i);
        assert forall|j: int| 0 <= j < post.proposals@.len() implies (
        #[trigger] post.proposals@[j]).0 == post.proposals@[j].1.id by {
            if j != i {
                assert(post.proposals@[j] == pre.proposals@[j]);
            }
        }
        assert(post.proposal_map().dom() =~= pre.proposal_map().dom());
    }

    /// Changing one stored proposal into one whose approvals have no
    /// duplicates keeps the wallet valid.
    proof fn lemma_valid_after_put(pre: Self, post: Self, id: u64, q: Proposal)
        requires
            pre.valid(),
            post.wf(),
            post.settings == pre.settings,
            pre.proposal_map().contains_key(id),
            post.proposal_map() == pre.proposal_map().insert(id, q),
            q.approvals@.no_duplicates(),
        ensures
            post.valid(),
    {
        assert forall|k: u64| #[trigger] post.proposal_map().contains_key(k) implies post.proposal_map()[
            k].approvals@.no_duplicates() by {
            if k != id {
                assert(pre.proposal_map().contains_key(k));
            }
        }
        if post.settings is Some {
            assert forall|k: u64| #[trigger] post.proposal_map().contains_key(k) implies k
                < post.next_id() by {
                assert(pre.proposal_map().contains_key(k));
            }
        }
    }

    /// One-time setup with `owners` and an approval `threshold` between one
    /// and the number of owners.
    pub fn initialize(&mut self, owners: Vec<Address>, threshold: u32) -> (out: Outcome<
        (),
        MultisigError,
    >)
        requires
            old(self).wf(),
        ensures
            final(self).wf(),
            out.authorizer is None,
            out.result == old(self).initialize_result(owners@, threshold),
            out.result is Ok ==> {
                &&& final(self).settings is Some
                &&& final(self).owners() == owners@
                &&& final(self).threshold() == threshold
                &&& final(self).next_id() == 0
                &&& final(self).proposals == old(self).proposals
            },
            out.result is Err ==> *final(self) == *old(self),
            old(self).valid() && old(self).proposal_map().dom().is_empty() ==> final(self).valid(),
    {
        if self.settings.is_some() {
            return Outcome { authorizer: None, result: Err(MultisigError::AlreadyInitialized) };
        }
        if owners.len() == 0 {
            return Outcome { authorizer: None, result: Err(MultisigError::OwnersRequired) };
        }
        if threshold == 0 || threshold as usize > owners.len() {
            return Outcome { authorizer: None, result: Err(MultisigError::InvalidThreshold) };
        }
        self.settings = Some(MultisigSettings { owners, threshold, next_id: 0 });
        Outcome { authorizer: None, result: Ok(()) }
    }

    /// An owner proposes to send `amount` of `token` to `to`; the proposer
    /// approves it at once. Returns the new proposal's id.
    pub fn propose(
        &mut self,
        proposer: Address,
        to: Address,
        token: Address,
        amount: i128,
        now: u64,
    ) -> (out: Outcome<u64, MultisigError>)
        requires
            old(self).wf(),
        ensures
            final(self).wf(),
            out.authorizer == (if amount > 0 && old(self).owner_check(proposer) is Ok {
                Some(proposer)
            } else {
                None
            }),
            out.result == old(self).propose_result(proposer, amount),
            out.result matches Ok(id) ==> {
                let q = final(self).proposal_map()[id];
                &&& final(self).proposal_map().dom() == old(self).proposal_map().dom().insert(id)
                &&& forall|k: u64|
                    k != id && #[trigger] old(self).proposal_map().contains_key(k)
                        ==> final(self).proposal_map()[k] == old(self).proposal_map()[k]
                &&& q.id == id && q.to == to && q.token == token && q.amount == amount
                &&& q.approvals@ == seq![proposer]
                &&& !q.executed
                &&& q.created_at == now
                &&& final(self).settings is Some
                &&& final(self).owners() == old(self).owners()
                &&& final(self).threshold() == old(self).threshold()
                &&& final(self).next_id() == id + 1
            },
            out.result is Err ==> *final(self) == *old(self),
            old(self).valid() ==> final(self).valid(),
    {
        if amount <= 0 {
            return Outcome { authorizer: None, result: Err(MultisigError::AmountNotPositive) };
        }
        match self.check_owner(proposer) {
            Ok(()) => {},
            Err(e) => {
                return Outcome { authorizer: None, result: Err(e) };
            },
        }
        let id = match &self.settings {
            Some(st) => st.next_id,
            None => {
                return Outcome { authorizer: None, result: Err(MultisigError::NotInitialized) };
            },
        };
        if id == u64::MAX {
            return Outcome { authorizer: Some(proposer), result: Err(MultisigError::Overflow) };
        }
        let mut approvals: Vec<Address> = Vec::new();
        approvals.push(proposer);
        let p = Proposal { id, to, token, amount, approvals, executed: false, created_at: now };
        let ghost s = self.proposals@;
        match self.find_proposal(id) {
            Some(i) => {
                self.update_proposal(i, p);
            },
            None => {
                proof {
                    assert(!has_key(s, id));
                    lemma_push(s, id, p);
                }
                self.proposals.push((id, p));
                proof {
                    assert forall|j: int| 0 <= j < self.proposals@.len() implies (
                    #[trigger] self.proposals@[j]).0 == self.proposals@[j].1.id by {
                        if j < s.len() {
                            assert(self.proposals@[j] == s[j]);
                        }
                    }
                }
            },
        }
        let ghost mid = *self;
        match &mut self.settings {
            Some(st) => {
                st.next_id = id + 1;
            },
            None => {},
        }
        proof {
            assert(self.proposal_map() == mid.proposal_map());
            if old(self).valid() {
                assert(seq![proposer].no_duplicates());
                assert forall|k: u64| #[trigger] self.proposal_map().contains_key(k) implies k
                    < self.next_id() by {
                    if k != id {
                        assert(old(self).proposal_map().contains_key(k));
                    }
                }
                assert forall|k: u64| #[trigger]
                    self.proposal_map().contains_key(k) implies self.proposal_map()[k].approvals@.no_duplicates() by {
                    if k != id {
                        assert(old(self).proposal_map().contains_key(k));
                    }
                }
            }
        }
        Outcome { authorizer: Some(proposer), result: Ok(id) }
    }

    /// An owner approves the proposal under `proposal_id`.
    pub fn approve(&mut self, owner: Address, proposal_id: u64) -> (out: Outcome<
        (),
        MultisigError,
    >)
        requires
            old(self).wf(),
        ensures
            final(self).wf(),
            out.authorizer == (if old(self).owner_check(owner) is Ok {
                Some(owner)
            } else {
                None
            }),
            out.result == old(self).approve_result(owner, proposal_id),
            out.result is Ok ==> old(self).approvals_set(
                *final(self),
                proposal_id,
                old(self).proposal_map()[proposal_id].approvals@.push(owner),
            ),
            out.result is Err ==> *final(self) == *old(self),
            old(self).valid() ==> final(self).valid(),
    {
        match self.check_owner(owner) {
            Ok(()) => {},
            Err(e) => {
                return Outcome { authorizer: None, result: Err(e) };
            },
        }
        let i = match self.find_proposal(proposal_id) {
            Some(i) => i,
            None => {
                return Outcome { authorizer: Some(owner), result: Err(MultisigError::ProposalNotFound) };
            },
        };
        if self.proposals[i].1.executed {
            return Outcome { authorizer: Some(owner), result: Err(MultisigError::AlreadyExecuted) };
        }
        match Self::find_address(&self.proposals[i].1.approvals, owner) {
            Some(_) => {
                return Outcome {
                    authorizer: Some(owner),
                    result: Err(MultisigError::AlreadyApproved),
                };
            },
            None => {},
        }
        let ghost pre = *self;
        let mut p = self.take_proposal(i);
        let ghost p0 = p;
        p.approvals.push(owner);
        self.put_proposal(i, p);
        proof {
            assert(self.proposals@ =~= pre.proposals@.update(i as int, (proposal_id, p)));
            Self::lemma_put(pre, *self, i as int, p);
            lemma_lookup(pre.proposals@, i as int);
            if old(self).valid() {
                let s = p0.approvals@;
                assert forall|a: int, b: int| 0 <= a < b < s.push(owner).len() implies s.push(owner)[a]
                    != s.push(owner)[b] by {
                    if b == s.len() {
                        assert(s[a] == s.push(owner)[a]);
                    }
                }
                Self::lemma_valid_after_put(pre, *self, proposal_id, p);
            }
        }
        Outcome { authorizer: Some(owner), result: Ok(()) }
    }
    /// An owner withdraws an approval of the proposal under `proposal_id`.
    pub fn revoke(&mut self, owner: Address, proposal_id: u64) -> (out: Outcome<
        (),
        MultisigError,
    >)
        requires
            old(self).wf(),
        ensures
            final(self).wf(),
            out.authorizer == (if old(self).owner_check(owner) is Ok {
                Some(owner)
            } else {
                None
            }),
            out.result == old(self).revoke_result(owner, proposal_id),
            out.result is Ok ==> old(self).approvals_set(
                *final(self),
                proposal_id,
                remove_first(old(self).proposal_map()[proposal_id].approvals@, owner),
            ),
            out.result is Err ==> *final(self) == *old(self),
            old(self).valid() ==> final(self).valid(),
    {
        match self.check_owner(owner) {
            Ok(()) => {},
            Err(e) => {
                return Outcome { authorizer: None, result: Err(e) };
            },
        }
        let i = match self.find_proposal(proposal_id) {
            Some(i) => i,
            None => {
                return Outcome { authorizer: Some(owner), result: Err(MultisigError::ProposalNotFound) };
            },
        };
        if self.proposals[i].1.executed {
            return Outcome { authorizer: Some(owner), result: Err(MultisigError::AlreadyExecuted) };
        }
        let pos = match Self::find_address(&self.proposals[i].1.approvals, owner) {
            Some(pos) => pos,
            None => {
                return Outcome {
                    authorizer: Some(owner),
                    result: Err(MultisigError::ApprovalNotFound),
                };
            },
        };
        let ghost pre = *self;
        let mut p = self.take_proposal(i);
        let ghost p0 = p;
        p.approvals.remove(pos);
        self.put_proposal(i, p);
        proof {
            assert(self.proposals@ =~= pre.proposals@.update(i as int, (proposal_id, p)));
            Self::lemma_put(pre, *self, i as int, p);
            lemma_lookup(pre.proposals@, i as int);
            if old(self).valid() {
                let s = p0.approvals@;
                let t = s.remove(pos as int);
                assert(t == p.approvals@);
                assert forall|a: int, b: int| 0 <= a < b < t.len() implies t[a] != t[b] by {
                    let sa = if a < pos {
                        a
                    } else {
                        a + 1
                    };
                    let sb = if b < pos {
                        b
                    } else {
                        b + 1
                    };
                    assert(t[a] == s[sa]);
                    assert(t[b] == s[sb]);
                }
                Self::lemma_valid_after_put(pre, *self, proposal_id, p);
            }
        }
        Outcome { authorizer: Some(owner), result: Ok(()) }
    }

    /// Executes the proposal under `proposal_id` once it has at least
    /// `threshold` approvals: it is marked executed and its transfer is to
    /// be made. Anyone may call it.
    pub fn execute(&mut self, proposal_id: u64) -> (out: Outcome<Transfer, MultisigError>)
        requires
            old(self).wf(),
        ensures
            final(self).wf(),
            out.authorizer is None,
            out.result is Ok <==> old(self).execute_result(proposal_id) is Ok,
            out.result matches Err(e) ==> old(self).execute_result(proposal_id) == Err::<
                (),
                MultisigError,
            >(e),
            out.result matches Ok(t) ==> {
                let p = old(self).proposal_map()[proposal_id];
                let q = final(self).proposal_map()[proposal_id];
                &&& t == payment_of(p)
                &&& old(self).keeps_all_but(*final(self), proposal_id)
                &&& same_terms(p, q)
                &&& q.approvals@ == p.approvals@
                &&& q.executed
            },
            out.result is Err ==> *final(self) == *old(self),
            old(self).valid() ==> final(self).valid(),
    {
        let i = match self.find_proposal(proposal_id) {
            Some(i) => i,
            None => {
                return Outcome { authorizer: None, result: Err(MultisigError::ProposalNotFound) };
            },
        };
        if self.proposals[i].1.executed {
            return Outcome { authorizer: None, result: Err(MultisigError::AlreadyExecuted) };
        }
        let threshold = match &self.settings {
            Some(st) => st.threshold,
            None => {
                return Outcome { authorizer: None, result: Err(MultisigError::NotInitialized) };
            },
        };
        if self.proposals[i].1.approvals.len() < threshold as usize {
            return Outcome { authorizer: None, result: Err(MultisigError::InsufficientApprovals) };
        }
        let ghost pre = *self;
        let mut p = self.take_proposal(i);
        let ghost p0 = p;
        p.executed = true;
        let t = Transfer {
            token: p.token,
            from: Party::Contract,
            to: Party::Account(p.to),
            amount: p.amount,
        };
        self.put_proposal(i, p);
        proof {
            assert(self.proposals@ =~= pre.proposals@.update(i as int, (proposal_id, p)));
            Self::lemma_put(pre, *self, i as int, p);
            lemma_lookup(pre.proposals@, i as int);
            if old(self).valid() {
                Self::lemma_valid_after_put(pre, *self, proposal_id, p);
            }
        }
        Outcome { authorizer: None, result: Ok(t) }
    }

    /// A copy of `p`.
    fn copy_proposal(p: &Proposal) -> (r: Proposal)
        ensures
            same_terms(*p, r),
            r.approvals@ == p.approvals@,
            r.executed == p.executed,
    {
        let approvals = p.approvals.clone();
        assert(approvals@ =~= p.approvals@);
        Proposal {
            id: p.id,
            to: p.to,
            token: p.token,
            amount: p.amount,
            approvals,
            executed: p.executed,
            created_at: p.created_at,
        }
    }

    /// The proposal under `proposal_id`.
    pub fn get_proposal(&self, proposal_id: u64) -> (r: Result<Proposal, MultisigError>)
        requires
            self.wf(),
        ensures
            match r {
                Ok(q) => {
                    let p = self.proposal_map()[proposal_id];
                    &&& self.proposal_map().contains_key(proposal_id)
                    &&& same_terms(p, q)
                    &&& q.approvals@ == p.approvals@
                    &&& q.executed == p.executed
                },
                Err(e) => e == MultisigError::ProposalNotFound && !self.proposal_map().contains_key(
                    proposal_id,
                ),
            },
    {
        match self.find_proposal(proposal_id) {
            Some(i) => Ok(Self::copy_proposal(&self.proposals[i].1)),
            None => Err(MultisigError::ProposalNotFound),
        }
    }

    /// The owners.
    pub fn get_owners(&self) -> (r: Result<Vec<Address>, MultisigError>)
        ensures
            match r {
                Ok(v) => self.settings is Some && v@ == self.owners(),
                Err(e) => e == MultisigError::NotInitialized && self.settings is None,
            },
    {
        match &self.settings {
            Some(st) => {
                let v = st.owners.clone();
                assert(v@ =~= st.owners@);
                Ok(v)
            },
            None => Err(MultisigError::NotInitialized),
        }
    }

    /// The approval threshold.
    pub fn get_threshold(&self) -> (r: Result<u32, MultisigError>)
        ensures
            r == (if self.settings is Some {
                Ok::<u32, MultisigError>(self.threshold())
            } else {
                Err(MultisigError::NotInitialized)
            }),
    {
        match &self.settings {
            Some(st) => Ok(st.threshold),
            None => Err(MultisigError::NotInitialized),
        }
    }

    /// Whether `address` is one of the owners.
    pub fn is_owner(&self, address: Address) -> (r: Result<bool, MultisigError>)
        ensures
            r == (if self.settings is Some {
                Ok::<bool, MultisigError>(self.owners().contains(address))
            } else {
                Err(MultisigError::NotInitialized)
            }),
    {
        match &self.settings {
            Some(st) => Ok(Self::find_address(&st.owners, address).is_some()),
            None => Err(MultisigError::NotInitialized),
        }
    }

    /// An owner adds `new_owner` to the owners.
    pub fn add_owner(&mut self, caller: Address, new_owner: Address) -> (out: Outcome<
        (),
        MultisigError,
    >)
        requires
            old(self).wf(),
        ensures
            final(self).wf(),
            out.authorizer == (if old(self).owner_check(caller) is Ok {
                Some(caller)
            } else {
                None
            }),
            out.result == old(self).add_owner_result(caller, new_owner),
            out.result is Ok ==> old(self).owners_set(
                *final(self),
                old(self).owners().push(new_owner),
                old(self).threshold(),
            ),
            out.result is Err ==> *final(self) == *old(self),
            old(self).valid() ==> final(self).valid(),
    {
        match self.check_owner(caller) {
            Ok(()) => {},
            Err(e) => {
                return Outcome { authorizer: None, result: Err(e) };
            },
        }
        let ghost pre = *self;
        match &mut self.settings {
            Some(st) => {
                if Self::find_address(&st.owners, new_owner).is_some() {
                    return Outcome {
                        authorizer: Some(caller),
                        result: Err(MultisigError::AlreadyAnOwner),
                    };
                }
                st.owners.push(new_owner);
            },
            None => {},
        }
        proof {
            assert(self.proposal_map() == pre.proposal_map());
        }
        Outcome { authorizer: Some(caller), result: Ok(()) }
    }

    /// An owner removes `owner` from the owners; the last owner cannot be
    /// removed. Where the threshold exceeds the owners that remain, it is
    /// lowered to their number.
    pub fn remove_owner(&mut self, caller: Address, owner: Address) -> (out: Outcome<
        (),
        MultisigError,
    >)
        requires
            old(self).wf(),
        ensures
            final(self).wf(),
            out.authorizer == (if old(self).owner_check(caller) is Ok {
                Some(caller)
            } else {
                None
            }),
            out.result == old(self).remove_owner_result(caller, owner),
            out.result is Ok ==> {
                let owners = remove_first(old(self).owners(), owner);
                old(self).owners_set(
                    *final(self),
                    owners,
                    if old(self).threshold() > owners.len() {
                        owners.len() as u32
                    } else {
                        old(self).threshold()
                    },
                )
            },
            out.result is Err ==> *final(self) == *old(self),
            old(self).valid() ==> final(self).valid(),
    {
        match self.check_owner(caller) {
            Ok(()) => {},
            Err(e) => {
                return Outcome { authorizer: None, result: Err(e) };
            },
        }
        let ghost pre = *self;
        match &mut self.settings {
            Some(st) => {
                if st.owners.len() <= 1 {
                    return Outcome {
                        authorizer: Some(caller),
                        result: Err(MultisigError::CannotRemoveLastOwner),
                    };
                }
                let pos = match Self::find_address(&st.owners, owner) {
                    Some(pos) => pos,
                    None => {
                        return Outcome {
                            authorizer: Some(caller),
                            result: Err(MultisigError::OwnerNotFound),
                        };
                    },
                };
                st.owners.remove(pos);
                if st.threshold as usize > st.owners.len() {
                    st.threshold = st.owners.len() as u32;
                }
            },
            None => {},
        }
        proof {
            assert(self.proposal_map() == pre.proposal_map());
        }
        Outcome { authorizer: Some(caller), result: Ok(()) }
    }

    /// An owner sets the threshold to `new_threshold`, which must lie
    /// between one and the number of owners.
    pub fn change_threshold(&mut self, caller: Address, new_threshold: u32) -> (out: Outcome<
        (),
        MultisigError,
    >)
        requires
            old(self).wf(),
        ensures
            final(self).wf(),
            out.authorizer == (if old(self).owner_check(caller) is Ok {
                Some(caller)
            } else {
                None
            }),
            out.result == old(self).change_threshold_result(caller, new_threshold),
            out.result is Ok ==> old(self).owners_set(
                *final(self),
                old(self).owners(),
                new_threshold,
            ),
            out.result is Err ==> *final(self) == *old(self),
            old(self).valid() ==> final(self).valid(),
    {
        match self.check_owner(caller) {
            Ok(()) => {},
            Err(e) => {
                return Outcome { authorizer: None, result: Err(e) };
            },
        }
        let ghost pre = *self;
        match &mut self.settings {
            Some(st) => {
                if new_threshold == 0 || new_threshold as usize > st.owners.len() {
                    return Outcome {
                        authorizer: Some(caller),
                        result: Err(MultisigError::InvalidThreshold),
                    };
                }
                st.threshold = new_threshold;
            },
            None => {},
        }
        proof {
            assert(self.proposal_map() == pre.proposal_map());
        }
        Outcome { authorizer: Some(caller), result: Ok(()) }
    }

}

/// A new proposal never replaces an earlier one: in a valid wallet the id
/// that `propose` hands out belongs to no stored proposal.
pub proof fn law_propose_fresh_id(s: MultisigContract, proposer: Address, amount: i128)
    requires
        s.valid(),
        s.propose_result(proposer, amount) is Ok,
    ensures
        !s.proposal_map().contains_key(s.propose_result(proposer, amount)->Ok_0),
{
}

/// A proposal is executed at most once: once executed, a second `execute`
/// is refused, and so is every `approve` and `revoke` of it.
pub proof fn law_execute_once(pre: MultisigContract, post: MultisigContract, id: u64)
    requires
        pre.execute_result(id) is Ok,
        pre.keeps_all_but(post, id),
        post.proposal_map()[id].executed,
    ensures
        post.execute_result(id) == Err::<(), MultisigError>(MultisigError::AlreadyExecuted),
        forall|owner: Address| #[trigger] post.approve_result(owner, id) is Err,
        forall|owner: Address| #[trigger] post.revoke_result(owner, id) is Err,
{
}

/// An execution pays out only with at least `threshold` approvals.
pub proof fn law_execute_needs_threshold(s: MultisigContract, id: u64)
    requires
        s.execute_result(id) is Ok,
    ensures
        s.proposal_map()[id].approvals@.len() >= s.threshold(),
        !s.proposal_map()[id].executed,
{
}

/// In a valid wallet, an approval followed by its revocation gives the
/// proposal back the approvals it had.
pub proof fn law_approve_then_revoke(
    s0: MultisigContract,
    s1: MultisigContract,
    s2: MultisigContract,
    owner: Address,
    id: u64,
)
    requires
        s0.valid(),
        s0.approve_result(owner, id) is Ok,
        s0.approvals_set(s1, id, s0.proposal_map()[id].approvals@.push(owner)),
        s1.approvals_set(s2, id, remove_first(s1.proposal_map()[id].approvals@, owner)),
    ensures
        s1.revoke_result(owner, id) is Ok,
        s2.proposal_map()[id].approvals@ == s0.proposal_map()[id].approvals@,
        same_terms(s0.proposal_map()[id], s2.proposal_map()[id]),
        s2.proposal_map()[id].executed == s0.proposal_map()[id].executed,
        s2.settings == s0.settings,
        s2.proposal_map().dom() == s0.proposal_map().dom(),
        forall|k: u64|
            k != id && #[trigger] s0.proposal_map().contains_key(k) ==> s2.proposal_map()[k]
                == s0.proposal_map()[k],
{
    let a = s0.proposal_map()[id].approvals@;
    let b = a.push(owner);
    assert(!a.contains(owner));
    assert(b.contains(owner)) by {
        assert(b[a.len() as int] == owner);
    }
    let k = first_index(b, owner);
    assert(0 <= k < b.len() && b[k] == owner && forall|j: int| 0 <= j < k ==> b[j] != owner) by {
        assert(forall|j: int| 0 <= j < a.len() ==> b[j] == a[j]);
        assert(b[a.len() as int] == owner);
    }
    assert(k == a.len()) by {
        if k < a.len() {
            assert(a[k] == b[k]);
        }
    }
    assert(b.remove(k) =~= a);
}

/// In a valid wallet, adding an owner and then removing it again restores
/// the owners and the threshold.
pub proof fn law_add_then_remove_owner(
    s0: MultisigContract,
    s1: MultisigContract,
    s2: MultisigContract,
    caller: Address,
    new_owner: Address,
)
    requires
        s0.valid(),
        s0.add_owner_result(caller, new_owner) is Ok,
        s0.owners_set(s1, s0.owners().push(new_owner), s0.threshold()),
        s1.owners_set(
            s2,
            remove_first(s1.owners(), new_owner),
            if s1.threshold() > remove_first(s1.owners(), new_owner).len() {
                remove_first(s1.owners(), new_owner).len() as u32
            } else {
                s1.threshold()
            },
        ),
    ensures
        s1.remove_owner_result(caller, new_owner) is Ok,
        s2.owners() == s0.owners(),
        s2.threshold() == s0.threshold(),
        s2.next_id() == s0.next_id(),
        s2.proposals == s0.proposals,
{
    let a = s0.owners();
    let b = a.push(new_owner);
    assert(!a.contains(new_owner));
    assert(b.contains(caller)) by {
        let j = choose|j: int| 0 <= j < a.len() && a[j] == caller;
        assert(b[j] == caller);
    }
    assert(b.contains(new_owner)) by {
        assert(b[a.len() as int] == new_owner);
    }
    let k = first_index(b, new_owner);
    assert(0 <= k < b.len() && b[k] == new_owner && forall|j: int| 0 <= j < k ==> b[j] != new_owner)
        by {
        assert(forall|j: int| 0 <= j < a.len() ==> b[j] == a[j]);
        assert(b[a.len() as int] == new_owner);
    }
    assert(k == a.len()) by {
        if k < a.len() {
            assert(a[k] == b[k]);
        }
    }
    assert(b.remove(k) =~= a);
}

/// A proposal that exists and is not executed yet executes exactly when the
/// wallet is initialized and the proposal has at least `threshold`
/// approvals: a single approval suffices in a wallet of threshold one.
pub proof fn law_execute_accepts_at_threshold(s: MultisigContract, id: u64)
    requires
        s.settings is Some,
        s.proposal_map().contains_key(id),
        !s.proposal_map()[id].executed,
    ensures
        s.execute_result(id) is Ok <==> s.proposal_map()[id].approvals@.len() >= s.threshold(),
        s.proposal_map()[id].approvals@.len() < s.threshold() ==> s.execute_result(id) == Err::<
            (),
            MultisigError,
        >(MultisigError::InsufficientApprovals),
{
}

/// An owner may withdraw its approval of an open proposal wherever it
/// stands among the approvals; the revocation removes that one approval
/// and, where no owner approves twice, keeps the others in order.
pub proof fn law_revoke_accepts_any_approval(s: MultisigContract, owner: Address, id: u64, k: int)
    requires
        s.settings is Some,
        s.owners().contains(owner),
        s.proposal_map().contains_key(id),
        !s.proposal_map()[id].executed,
        0 <= k < s.proposal_map()[id].approvals@.len(),
        s.proposal_map()[id].approvals@[k] == owner,
    ensures
        s.revoke_result(owner, id) is Ok,
        s.proposal_map()[id].approvals@.no_duplicates() ==> remove_first(
            s.proposal_map()[id].approvals@,
            owner,
        ) == s.proposal_map()[id].approvals@.remove(k),
{
    let a = s.proposal_map()[id].approvals@;
    assert(a.contains(owner));
    if a.no_duplicates() {
        let f = first_index(a, owner);
        assert(0 <= k < a.len() && a[k] == owner && forall|j: int| 0 <= j < k ==> a[j] != owner) by {
            assert forall|j: int| 0 <= j < k implies a[j] != owner by {
                if a[j] == owner {
                    assert(a[j] == a[k]);
                }
            }
        }
        assert(f == k) by {
            if f < k {
                assert(a[f] == owner);
            }
            if f > k {
                assert(a[k] != owner);
            }
        }
    }
}

/// A fresh wallet accepts any non-empty owner list with any threshold from
/// one up to the number of owners, N-of-N included.
pub proof fn law_initialize_accepts_valid_threshold(
    s: MultisigContract,
    owners: Seq<Address>,
    threshold: u32,
)
    requires
        s.settings is None,
        owners.len() > 0,
        1 <= threshold <= owners.len(),
    ensures
        s.initialize_result(owners, threshold) is Ok,
{
}

/// An owner may set the threshold to any value from one up to the number
/// of owners; every other value is refused as invalid.
pub proof fn law_change_threshold_accepts_valid(s: MultisigContract, caller: Address, t: u32)
    requires
        s.settings is Some,
        s.owners().contains(caller),
    ensures
        s.change_threshold_result(caller, t) is Ok <==> 1 <= t <= s.owners().len(),
        !(1 <= t <= s.owners().len()) ==> s.change_threshold_result(caller, t) == Err::<
            (),
            MultisigError,
        >(MultisigError::InvalidThreshold),
{
}

} // verus!
