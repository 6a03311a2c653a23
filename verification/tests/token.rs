use soroban_contracts::address::Address;
use soroban_contracts::token::{TokenContract, TokenError};

fn setup() -> (TokenContract, Address) {
    let mut token = TokenContract::new();
    let admin = Address::new(1);
    let out = token.initialize(admin, 7, "Test Token".to_string(), "TTK".to_string());
    assert_eq!(out.result, Ok(()));
    assert_eq!(out.authorizer, None);
    (token, admin)
}

#[test]
fn test_initialize() {
    let (token, _) = setup();
    assert_eq!(token.decimals(), Ok(7));
    assert_eq!(token.name(), Ok("Test Token".to_string()));
    assert_eq!(token.symbol(), Ok("TTK".to_string()));
    assert_eq!(token.total_supply(), 0);
}

#[test]
fn test_initialize_twice_panics() {
    let (mut token, admin) = setup();
    let out = token.initialize(admin, 7, "Test Token".to_string(), "TTK".to_string());
    assert_eq!(out.result, Err(TokenError::AlreadyInitialized));
    assert_eq!(out.result.unwrap_err().message(), "already initialized");
}

#[test]
fn test_mint_and_balance() {
    let (mut token, admin) = setup();
    let user = Address::new(2);
    let out = token.mint(user, 1000);
    assert_eq!(out.result, Ok(()));
    assert_eq!(out.authorizer, Some(admin));
    assert_eq!(token.balance(user), 1000);
    assert_eq!(token.total_supply(), 1000);
}

#[test]
fn test_burn() {
    let (mut token, _) = setup();
    let user = Address::new(2);
    token.mint(user, 500).result.unwrap();
    let out = token.burn(user, 200);
    assert_eq!(out.result, Ok(()));
    assert_eq!(out.authorizer, Some(user));
    assert_eq!(token.balance(user), 300);
    assert_eq!(token.total_supply(), 300);
}

#[test]
fn test_transfer() {
    let (mut token, _) = setup();
    let alice = Address::new(2);
    let bob = Address::new(3);
    token.mint(alice, 1000).result.unwrap();
    let out = token.transfer(alice, bob, 400);
    assert_eq!(out.result, Ok(()));
    assert_eq!(out.authorizer, Some(alice));
    assert_eq!(token.balance(alice), 600);
    assert_eq!(token.balance(bob), 400);
}

#[test]
fn test_approve_and_transfer_from() {
    let (mut token, _) = setup();
    let alice = Address::new(2);
    let bob = Address::new(3);
    let carol = Address::new(4);
    token.mint(alice, 1000).result.unwrap();
    token.approve(alice, bob, 300).result.unwrap();
    assert_eq!(token.allowance(alice, bob), 300);
    let out = token.transfer_from(bob, alice, carol, 200);
    assert_eq!(out.result, Ok(()));
    assert_eq!(out.authorizer, Some(bob));
    assert_eq!(token.balance(alice), 800);
    assert_eq!(token.balance(carol), 200);
    assert_eq!(token.allowance(alice, bob), 100);
}

#[test]
fn test_transfer_insufficient_balance() {
    let (mut token, _) = setup();
    let alice = Address::new(2);
    let bob = Address::new(3);
    token.mint(alice, 100).result.unwrap();
    let out = token.transfer(alice, bob, 200);
    assert_eq!(out.result, Err(TokenError::InsufficientBalance));
    assert_eq!(out.result.unwrap_err().message(), "insufficient balance");
    assert_eq!(token.balance(alice), 100);
    assert_eq!(token.balance(bob), 0);
}

#[test]
fn test_transfer_from_exceeds_allowance() {
    let (mut token, _) = setup();
    let alice = Address::new(2);
    let bob = Address::new(3);
    let carol = Address::new(4);
    token.mint(alice, 1000).result.unwrap();
    token.approve(alice, bob, 50).result.unwrap();
    let out = token.transfer_from(bob, alice, carol, 100);
    assert_eq!(out.result, Err(TokenError::InsufficientAllowance));
    assert_eq!(out.result.unwrap_err().message(), "insufficient allowance");
    assert_eq!(token.allowance(alice, bob), 50);
}

#[test]
fn test_set_admin() {
    let (mut token, admin) = setup();
    let new_admin = Address::new(9);
    let out = token.set_admin(new_admin);
    assert_eq!(out.result, Ok(()));
    assert_eq!(out.authorizer, Some(admin));
    // new admin can mint
    let out = token.mint(new_admin, 100);
    assert_eq!(out.result, Ok(()));
    assert_eq!(out.authorizer, Some(new_admin));
    assert_eq!(token.balance(new_admin), 100);
}

#[test]
fn test_mint_zero_panics() {
    let (mut token, _) = setup();
    let user = Address::new(2);
    let out = token.mint(user, 0);
    assert_eq!(out.result, Err(TokenError::AmountNotPositive));
    assert_eq!(out.authorizer, None);
    assert_eq!(out.result.unwrap_err().message(), "amount must be positive");
}

#[test]
fn token_calls_before_initialize_are_refused() {
    let mut token = TokenContract::new();
    let user = Address::new(2);
    assert_eq!(token.decimals(), Err(TokenError::NotInitialized));
    assert_eq!(token.name(), Err(TokenError::NotInitialized));
    assert_eq!(token.symbol(), Err(TokenError::NotInitialized));
    assert_eq!(token.total_supply(), 0);
    let out = token.mint(user, 5);
    assert_eq!(out.result, Err(TokenError::NotInitialized));
    assert_eq!(out.authorizer, None);
    let out = token.set_admin(user);
    assert_eq!(out.result, Err(TokenError::NotInitialized));
    assert_eq!(out.authorizer, None);
}

#[test]
fn token_approve_negative_is_refused() {
    let (mut token, _) = setup();
    let alice = Address::new(2);
    let bob = Address::new(3);
    let out = token.approve(alice, bob, -1);
    assert_eq!(out.result, Err(TokenError::AmountNegative));
    assert_eq!(out.authorizer, None);
    assert_eq!(out.result.unwrap_err().message(), "amount must be non-negative");
}

#[test]
fn token_approve_zero_removes_the_entry() {
    let (mut token, _) = setup();
    let alice = Address::new(2);
    let bob = Address::new(3);
    token.approve(alice, bob, 30).result.unwrap();
    assert_eq!(token.allowances.len(), 1);
    token.approve(alice, bob, 0).result.unwrap();
    assert_eq!(token.allowances.len(), 0);
    assert_eq!(token.allowance(alice, bob), 0);
}

#[test]
fn token_spending_the_whole_allowance_removes_the_entry() {
    let (mut token, _) = setup();
    let alice = Address::new(2);
    let bob = Address::new(3);
    token.mint(alice, 100).result.unwrap();
    token.approve(alice, bob, 40).result.unwrap();
    token.transfer_from(bob, alice, bob, 40).result.unwrap();
    assert_eq!(token.allowances.len(), 0);
    assert_eq!(token.balance(bob), 40);
    assert_eq!(token.balance(alice), 60);
}

#[test]
fn token_transfer_from_checks_allowance_before_balance() {
    let (mut token, _) = setup();
    let alice = Address::new(2);
    let bob = Address::new(3);
    token.approve(alice, bob, 10).result.unwrap();
    // Alice holds nothing: the allowance suffices, the balance does not.
    let out = token.transfer_from(bob, alice, bob, 10);
    assert_eq!(out.result, Err(TokenError::InsufficientBalance));
    assert_eq!(out.authorizer, Some(bob));
    let out = token.transfer_from(bob, alice, bob, 11);
    assert_eq!(out.result, Err(TokenError::InsufficientAllowance));
}

#[test]
fn token_transfer_to_self_changes_nothing() {
    let (mut token, _) = setup();
    let alice = Address::new(2);
    token.mint(alice, 70).result.unwrap();
    token.transfer(alice, alice, 70).result.unwrap();
    assert_eq!(token.balance(alice), 70);
    assert_eq!(token.total_supply(), 70);
}

#[test]
fn token_mint_overflow_is_refused() {
    let (mut token, admin) = setup();
    let alice = Address::new(2);
    token.mint(alice, i128::MAX).result.unwrap();
    let bob = Address::new(3);
    let out = token.mint(bob, 1);
    assert_eq!(out.result, Err(TokenError::Overflow));
    assert_eq!(out.authorizer, Some(admin));
    assert_eq!(token.balance(bob), 0);
    assert_eq!(token.total_supply(), i128::MAX);
}

#[test]
fn token_burn_more_than_held_is_refused() {
    let (mut token, _) = setup();
    let alice = Address::new(2);
    token.mint(alice, 5).result.unwrap();
    let out = token.burn(alice, 6);
    assert_eq!(out.result, Err(TokenError::InsufficientBalance));
    assert_eq!(out.authorizer, Some(alice));
    let out = token.burn(alice, -3);
    assert_eq!(out.result, Err(TokenError::AmountNotPositive));
    assert_eq!(out.authorizer, None);
}

#[test]
fn token_mint_then_burn_restores() {
    let (mut token, _) = setup();
    let alice = Address::new(2);
    token.mint(alice, 10).result.unwrap();
    token.mint(alice, 25).result.unwrap();
    token.burn(alice, 25).result.unwrap();
    assert_eq!(token.balance(alice), 10);
    assert_eq!(token.total_supply(), 10);
}

#[test]
fn token_refused_call_leaves_storage() {
    let (mut token, _) = setup();
    let alice = Address::new(2);
    let bob = Address::new(3);
    token.mint(alice, 10).result.unwrap();
    let before = token.balances.clone();
    let out = token.transfer(alice, bob, 0);
    assert_eq!(out.result, Err(TokenError::AmountNotPositive));
    assert_eq!(token.balances, before);
}

#[test]
fn token_supply_matches_sum_of_balances() {
    let (mut token, admin) = setup();
    let alice = Address::new(2);
    let bob = Address::new(3);
    token.mint(alice, 1000).result.unwrap();
    token.mint(bob, 250).result.unwrap();
    token.transfer(alice, bob, 300).result.unwrap();
    token.burn(bob, 50).result.unwrap();
    token.approve(bob, admin, 100).result.unwrap();
    token.transfer_from(admin, bob, alice, 100).result.unwrap();
    let sum: i128 = token.balances.iter().map(|e| e.1).sum();
    assert_eq!(token.total_supply(), 1200);
    assert_eq!(sum, 1200);
    assert_eq!(token.balance(alice), 800);
    assert_eq!(token.balance(bob), 400);
}
