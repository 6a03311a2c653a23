use soroban_contracts::address::Address;
use soroban_contracts::escrow::{EscrowConfig, EscrowContract, EscrowError, EscrowState};
use soroban_contracts::token::TokenContract;
use soroban_contracts::transfer::{Party, Transfer};

const BUYER: Address = Address { id: 1 };
const SELLER: Address = Address { id: 2 };
const ARBITER: Address = Address { id: 3 };
const ESCROW: Address = Address { id: 50 };
const TOKEN: Address = Address { id: 60 };

/// Makes on `token` the payment that the escrow asked for.
fn pay(token: &mut TokenContract, t: Transfer) {
    assert_eq!(t.token, TOKEN);
    let side = |p: Party| match p {
        Party::Contract => ESCROW,
        Party::Account(a) => a,
    };
    token.transfer(side(t.from), side(t.to), t.amount).result.unwrap();
}

fn setup() -> (EscrowContract, TokenContract) {
    let mut token = TokenContract::new();
    let token_admin = Address::new(100);
    token.initialize(token_admin, 7, "Asset".to_string(), "AST".to_string()).result.unwrap();
    token.mint(BUYER, 10_000).result.unwrap();

    let mut escrow = EscrowContract::new();
    let out = escrow.initialize(BUYER, SELLER, ARBITER, TOKEN, 1000, 9999);
    assert_eq!(out.result, Ok(()));
    assert_eq!(out.authorizer, None);
    (escrow, token)
}

fn deposit(escrow: &mut EscrowContract, token: &mut TokenContract) {
    let out = escrow.deposit();
    assert_eq!(out.authorizer, Some(BUYER));
    pay(token, out.result.unwrap());
}

#[test]
fn test_initialize_state() {
    let (escrow, _) = setup();
    assert_eq!(escrow.get_state(), Ok(EscrowState::Initialized));
}

#[test]
fn test_deposit() {
    let (mut escrow, mut token) = setup();
    deposit(&mut escrow, &mut token);
    assert_eq!(escrow.get_state(), Ok(EscrowState::Deposited));
    assert_eq!(token.balance(ESCROW), 1000);
    assert_eq!(token.balance(BUYER), 9000);
}

#[test]
fn test_release_to_seller() {
    let (mut escrow, mut token) = setup();
    deposit(&mut escrow, &mut token);
    let out = escrow.release();
    assert_eq!(out.authorizer, Some(ARBITER));
    pay(&mut token, out.result.unwrap());
    assert_eq!(escrow.get_state(), Ok(EscrowState::Released));
    assert_eq!(token.balance(SELLER), 1000);
}

#[test]
fn test_refund_to_buyer() {
    let (mut escrow, mut token) = setup();
    deposit(&mut escrow, &mut token);
    let out = escrow.refund();
    assert_eq!(out.authorizer, Some(ARBITER));
    pay(&mut token, out.result.unwrap());
    assert_eq!(escrow.get_state(), Ok(EscrowState::Refunded));
    assert_eq!(token.balance(BUYER), 10_000); // got back full amount
}

#[test]
fn test_dispute_and_resolve_release() {
    let (mut escrow, mut token) = setup();
    deposit(&mut escrow, &mut token);
    let out = escrow.dispute();
    assert_eq!(out.result, Ok(()));
    assert_eq!(out.authorizer, Some(BUYER));
    assert_eq!(escrow.get_state(), Ok(EscrowState::Disputed));
    let out = escrow.resolve(true);
    assert_eq!(out.authorizer, Some(ARBITER));
    pay(&mut token, out.result.unwrap());
    assert_eq!(escrow.get_state(), Ok(EscrowState::Released));
    assert_eq!(token.balance(SELLER), 1000);
}

#[test]
fn test_dispute_and_resolve_refund() {
    let (mut escrow, mut token) = setup();
    deposit(&mut escrow, &mut token);
    escrow.dispute().result.unwrap();
    let out = escrow.resolve(false);
    pay(&mut token, out.result.unwrap());
    assert_eq!(escrow.get_state(), Ok(EscrowState::Refunded));
    assert_eq!(token.balance(BUYER), 10_000);
}

#[test]
fn test_claim_expired() {
    let (mut escrow, mut token) = setup();
    deposit(&mut escrow, &mut token);
    let out = escrow.claim_expired(10_000);
    assert_eq!(out.authorizer, Some(BUYER));
    pay(&mut token, out.result.unwrap());
    assert_eq!(escrow.get_state(), Ok(EscrowState::Refunded));
    assert_eq!(token.balance(BUYER), 10_000);
}

#[test]
fn test_claim_expired_before_deadline() {
    let (mut escrow, mut token) = setup();
    deposit(&mut escrow, &mut token);
    let out = escrow.claim_expired(0);
    assert_eq!(out.result, Err(EscrowError::DeadlineNotReached));
    assert_eq!(out.authorizer, None);
    assert_eq!(out.result.unwrap_err().message(), "deadline not reached");
    assert_eq!(escrow.get_state(), Ok(EscrowState::Deposited));
}

#[test]
fn test_release_without_deposit() {
    let (mut escrow, _) = setup();
    let out = escrow.release();
    assert_eq!(out.result, Err(EscrowError::InvalidState));
    assert_eq!(out.authorizer, None);
    assert_eq!(out.result.unwrap_err().message(), "invalid state");
    assert_eq!(escrow.get_state(), Ok(EscrowState::Initialized));
}

#[test]
fn test_double_initialize() {
    let (mut escrow, _) = setup();
    let out = escrow.initialize(BUYER, SELLER, ARBITER, TOKEN, 100, 9999);
    assert_eq!(out.result, Err(EscrowError::AlreadyInitialized));
    assert_eq!(out.result.unwrap_err().message(), "already initialized");
    assert_eq!(escrow.get_config().unwrap().amount, 1000);
}

#[test]
fn escrow_claim_at_the_deadline_is_accepted() {
    let (mut escrow, mut token) = setup();
    deposit(&mut escrow, &mut token);
    assert_eq!(escrow.claim_expired(9998).result, Err(EscrowError::DeadlineNotReached));
    let t = escrow.claim_expired(9999).result.unwrap();
    assert_eq!(t.to, Party::Account(BUYER));
    assert_eq!(t.from, Party::Contract);
    assert_eq!(t.amount, 1000);
}

#[test]
fn escrow_initialize_with_non_positive_amount_is_refused() {
    let mut escrow = EscrowContract::new();
    let out = escrow.initialize(BUYER, SELLER, ARBITER, TOKEN, 0, 9999);
    assert_eq!(out.result, Err(EscrowError::AmountNotPositive));
    assert_eq!(out.result.unwrap_err().message(), "amount must be positive");
    assert_eq!(escrow.get_state(), Err(EscrowError::NotInitialized));
}

#[test]
fn escrow_calls_before_initialize_are_refused() {
    let mut escrow = EscrowContract::new();
    assert_eq!(escrow.deposit().result, Err(EscrowError::NotInitialized));
    assert_eq!(escrow.release().result, Err(EscrowError::NotInitialized));
    assert_eq!(escrow.refund().result, Err(EscrowError::NotInitialized));
    assert_eq!(escrow.dispute().result, Err(EscrowError::NotInitialized));
    assert_eq!(escrow.resolve(true).result, Err(EscrowError::NotInitialized));
    assert_eq!(escrow.claim_expired(0).result, Err(EscrowError::NotInitialized));
    assert_eq!(escrow.get_config(), Err(EscrowError::NotInitialized));
}

#[test]
fn escrow_settled_escrow_refuses_everything() {
    let (mut escrow, mut token) = setup();
    deposit(&mut escrow, &mut token);
    pay(&mut token, escrow.release().result.unwrap());
    assert_eq!(escrow.deposit().result, Err(EscrowError::InvalidState));
    assert_eq!(escrow.release().result, Err(EscrowError::InvalidState));
    assert_eq!(escrow.refund().result, Err(EscrowError::InvalidState));
    assert_eq!(escrow.dispute().result, Err(EscrowError::InvalidState));
    assert_eq!(escrow.resolve(false).result, Err(EscrowError::InvalidState));
    assert_eq!(escrow.claim_expired(u64::MAX).result, Err(EscrowError::InvalidState));
    assert_eq!(token.balance(ESCROW), 0);
    assert_eq!(token.balance(SELLER) + token.balance(BUYER), 10_000);
}

#[test]
fn escrow_refund_during_dispute() {
    let (mut escrow, mut token) = setup();
    deposit(&mut escrow, &mut token);
    escrow.dispute().result.unwrap();
    assert_eq!(escrow.dispute().result, Err(EscrowError::InvalidState));
    assert_eq!(escrow.release().result, Err(EscrowError::InvalidState));
    let t = escrow.refund().result.unwrap();
    assert_eq!(
        t,
        Transfer { token: TOKEN, from: Party::Contract, to: Party::Account(BUYER), amount: 1000 }
    );
}

#[test]
fn escrow_get_config_reports_the_terms() {
    let (escrow, _) = setup();
    assert_eq!(
        escrow.get_config(),
        Ok(EscrowConfig {
            buyer: BUYER,
            seller: SELLER,
            arbiter: ARBITER,
            token: TOKEN,
            amount: 1000,
            deadline: 9999,
        })
    );
}
