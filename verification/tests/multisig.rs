use soroban_contracts::address::Address;
use soroban_contracts::multisig::{MultisigContract, MultisigError};
use soroban_contracts::token::TokenContract;
use soroban_contracts::transfer::{Party, Transfer};

const OWNER1: Address = Address { id: 1 };
const OWNER2: Address = Address { id: 2 };
const OWNER3: Address = Address { id: 3 };
const WALLET: Address = Address { id: 50 };
const TOKEN: Address = Address { id: 60 };

/// Makes on `token` the payment that the wallet asked for.
fn pay(token: &mut TokenContract, t: Transfer) {
    assert_eq!(t.token, TOKEN);
    let side = |p: Party| match p {
        Party::Contract => WALLET,
        Party::Account(a) => a,
    };
    token.transfer(side(t.from), side(t.to), t.amount).result.unwrap();
}

fn setup_3of2() -> (MultisigContract, TokenContract) {
    let mut token = TokenContract::new();
    token.initialize(Address::new(100), 7, "Asset".to_string(), "AST".to_string()).result.unwrap();
    // Fund the multisig contract
    token.mint(WALLET, 100_000).result.unwrap();

    let mut wallet = MultisigContract::new();
    let out = wallet.initialize(vec![OWNER1, OWNER2, OWNER3], 2);
    assert_eq!(out.result, Ok(()));
    assert_eq!(out.authorizer, None);
    (wallet, token)
}

#[test]
fn lib_test_initialize() {
    let (wallet, _) = setup_3of2();
    assert_eq!(wallet.get_threshold(), Ok(2));
    assert_eq!(wallet.is_owner(OWNER1), Ok(true));
    assert_eq!(wallet.is_owner(OWNER2), Ok(true));
    assert_eq!(wallet.is_owner(OWNER3), Ok(true));
}

#[test]
fn test_propose_and_approve_and_execute() {
    let (mut wallet, mut token) = setup_3of2();
    let recipient = Address::new(7);
    let out = wallet.propose(OWNER1, recipient, TOKEN, 500, 0);
    assert_eq!(out.authorizer, Some(OWNER1));
    let id = out.result.unwrap();
    assert_eq!(id, 0);
    let out = wallet.approve(OWNER2, id);
    assert_eq!(out.result, Ok(()));
    assert_eq!(out.authorizer, Some(OWNER2));
    let before = token.balance(recipient);
    let out = wallet.execute(id);
    assert_eq!(out.authorizer, None);
    pay(&mut token, out.result.unwrap());
    assert_eq!(token.balance(recipient), before + 500);
    assert!(wallet.get_proposal(id).unwrap().executed);
}

#[test]
fn test_execute_without_enough_approvals() {
    let (mut wallet, _) = setup_3of2();
    let recipient = Address::new(7);
    let id = wallet.propose(OWNER1, recipient, TOKEN, 500, 0).result.unwrap();
    let out = wallet.execute(id); // only 1 approval, threshold is 2
    assert_eq!(out.result, Err(MultisigError::InsufficientApprovals));
    assert_eq!(out.result.unwrap_err().message(), "insufficient approvals");
    assert!(!wallet.get_proposal(id).unwrap().executed);
}

#[test]
fn test_duplicate_approval() {
    let (mut wallet, _) = setup_3of2();
    let recipient = Address::new(7);
    let id = wallet.propose(OWNER1, recipient, TOKEN, 100, 0).result.unwrap();
    let out = wallet.approve(OWNER1, id); // owner1 already approved via propose
    assert_eq!(out.result, Err(MultisigError::AlreadyApproved));
    assert_eq!(out.result.unwrap_err().message(), "already approved");
}

#[test]
fn test_revoke_approval() {
    let (mut wallet, _) = setup_3of2();
    let recipient = Address::new(7);
    let id = wallet.propose(OWNER1, recipient, TOKEN, 100, 0).result.unwrap();
    wallet.approve(OWNER2, id).result.unwrap();
    let out = wallet.revoke(OWNER2, id);
    assert_eq!(out.result, Ok(()));
    assert_eq!(out.authorizer, Some(OWNER2));
    let proposal = wallet.get_proposal(id).unwrap();
    assert_eq!(proposal.approvals.len(), 1);
}

#[test]
fn test_add_and_remove_owner() {
    let (mut wallet, _) = setup_3of2();
    let new_owner = Address::new(4);
    let out = wallet.add_owner(OWNER1, new_owner);
    assert_eq!(out.result, Ok(()));
    assert_eq!(out.authorizer, Some(OWNER1));
    assert_eq!(wallet.is_owner(new_owner), Ok(true));
    wallet.remove_owner(OWNER1, new_owner).result.unwrap();
    assert_eq!(wallet.is_owner(new_owner), Ok(false));
}

#[test]
fn test_change_threshold() {
    let (mut wallet, _) = setup_3of2();
    let out = wallet.change_threshold(OWNER1, 3);
    assert_eq!(out.result, Ok(()));
    assert_eq!(wallet.get_threshold(), Ok(3));
}

#[test]
fn test_non_owner_cannot_propose() {
    let (mut wallet, _) = setup_3of2();
    let stranger = Address::new(8);
    let recipient = Address::new(7);
    let out = wallet.propose(stranger, recipient, TOKEN, 100, 0);
    assert_eq!(out.result, Err(MultisigError::NotAnOwner));
    assert_eq!(out.authorizer, None);
    assert_eq!(out.result.unwrap_err().message(), "not an owner");
}

#[test]
fn test_execute_twice_panics() {
    let (mut wallet, mut token) = setup_3of2();
    let recipient = Address::new(7);
    let id = wallet.propose(OWNER1, recipient, TOKEN, 100, 0).result.unwrap();
    wallet.approve(OWNER2, id).result.unwrap();
    pay(&mut token, wallet.execute(id).result.unwrap());
    let out = wallet.execute(id);
    assert_eq!(out.result, Err(MultisigError::AlreadyExecuted));
    assert_eq!(out.result.unwrap_err().message(), "already executed");
    assert_eq!(token.balance(recipient), 100);
}

#[test]
fn test_threshold_exceeds_owners() {
    let (mut wallet, _) = setup_3of2();
    let out = wallet.change_threshold(OWNER1, 10);
    assert_eq!(out.result, Err(MultisigError::InvalidThreshold));
    assert_eq!(out.authorizer, Some(OWNER1));
    assert_eq!(out.result.unwrap_err().message(), "invalid threshold");
    assert_eq!(wallet.get_threshold(), Ok(2));
}

#[test]
fn test_add_duplicate_owner_panics() {
    let (mut wallet, _) = setup_3of2();
    let out = wallet.add_owner(OWNER1, OWNER2);
    assert_eq!(out.result, Err(MultisigError::AlreadyAnOwner));
    assert_eq!(out.result.unwrap_err().message(), "already an owner");
}

#[test]
fn test_remove_last_owner_panics() {
    let (mut wallet, _) = setup_3of2();
    wallet.remove_owner(OWNER1, OWNER2).result.unwrap();
    wallet.remove_owner(OWNER1, OWNER3).result.unwrap();
    let out = wallet.remove_owner(OWNER1, OWNER1); // last one
    assert_eq!(out.result, Err(MultisigError::CannotRemoveLastOwner));
    assert_eq!(out.result.unwrap_err().message(), "cannot remove last owner");
    assert_eq!(wallet.get_owners(), Ok(vec![OWNER1]));
}

#[test]
fn multisig_remove_owner_lowers_threshold() {
    let (mut wallet, _) = setup_3of2();
    wallet.change_threshold(OWNER1, 3).result.unwrap();
    wallet.remove_owner(OWNER2, OWNER3).result.unwrap();
    assert_eq!(wallet.get_threshold(), Ok(2));
    assert_eq!(wallet.get_owners(), Ok(vec![OWNER1, OWNER2]));
    wallet.remove_owner(OWNER1, OWNER1).result.unwrap();
    assert_eq!(wallet.get_threshold(), Ok(1));
    assert_eq!(wallet.get_owners(), Ok(vec![OWNER2]));
}

#[test]
fn multisig_initialize_is_checked() {
    let mut wallet = MultisigContract::new();
    assert_eq!(wallet.initialize(vec![], 1).result, Err(MultisigError::OwnersRequired));
    assert_eq!(wallet.initialize(vec![OWNER1], 0).result, Err(MultisigError::InvalidThreshold));
    assert_eq!(wallet.initialize(vec![OWNER1], 2).result, Err(MultisigError::InvalidThreshold));
    assert_eq!(wallet.get_owners(), Err(MultisigError::NotInitialized));
    assert_eq!(wallet.is_owner(OWNER1), Err(MultisigError::NotInitialized));
    wallet.initialize(vec![OWNER1], 1).result.unwrap();
    let out = wallet.initialize(vec![OWNER1], 1);
    assert_eq!(out.result, Err(MultisigError::AlreadyInitialized));
}

#[test]
fn multisig_proposal_ids_count_up() {
    let (mut wallet, _) = setup_3of2();
    let r = Address::new(7);
    assert_eq!(wallet.propose(OWNER1, r, TOKEN, 1, 10).result, Ok(0));
    assert_eq!(wallet.propose(OWNER2, r, TOKEN, 2, 20).result, Ok(1));
    let p = wallet.get_proposal(1).unwrap();
    assert_eq!(p.id, 1);
    assert_eq!(p.amount, 2);
    assert_eq!(p.created_at, 20);
    assert_eq!(p.approvals, vec![OWNER2]);
    assert_eq!(wallet.get_proposal(2).err(), Some(MultisigError::ProposalNotFound));
    assert_eq!(wallet.propose(OWNER1, r, TOKEN, 0, 0).result, Err(MultisigError::AmountNotPositive));
}

#[test]
fn multisig_revoke_errors() {
    let (mut wallet, mut token) = setup_3of2();
    let r = Address::new(7);
    let id = wallet.propose(OWNER1, r, TOKEN, 5, 0).result.unwrap();
    assert_eq!(wallet.revoke(OWNER2, id).result, Err(MultisigError::ApprovalNotFound));
    assert_eq!(wallet.revoke(OWNER2, 9).result, Err(MultisigError::ProposalNotFound));
    assert_eq!(wallet.execute(9).result, Err(MultisigError::ProposalNotFound));
    wallet.approve(OWNER3, id).result.unwrap();
    pay(&mut token, wallet.execute(id).result.unwrap());
    assert_eq!(wallet.revoke(OWNER3, id).result, Err(MultisigError::AlreadyExecuted));
    assert_eq!(wallet.approve(OWNER2, id).result, Err(MultisigError::AlreadyExecuted));
}

#[test]
fn multisig_approve_then_revoke_restores_approvals() {
    let (mut wallet, _) = setup_3of2();
    let r = Address::new(7);
    let id = wallet.propose(OWNER2, r, TOKEN, 5, 0).result.unwrap();
    wallet.approve(OWNER3, id).result.unwrap();
    wallet.approve(OWNER1, id).result.unwrap();
    wallet.revoke(OWNER1, id).result.unwrap();
    assert_eq!(wallet.get_proposal(id).unwrap().approvals, vec![OWNER2, OWNER3]);
}

#[test]
fn multisig_add_then_remove_owner_restores() {
    let (mut wallet, _) = setup_3of2();
    let dave = Address::new(4);
    wallet.add_owner(OWNER3, dave).result.unwrap();
    wallet.change_threshold(OWNER1, 4).result.unwrap();
    wallet.change_threshold(OWNER1, 2).result.unwrap();
    wallet.remove_owner(OWNER1, dave).result.unwrap();
    assert_eq!(wallet.get_owners(), Ok(vec![OWNER1, OWNER2, OWNER3]));
    assert_eq!(wallet.get_threshold(), Ok(2));
    assert_eq!(wallet.remove_owner(OWNER1, dave).result, Err(MultisigError::OwnerNotFound));
}
