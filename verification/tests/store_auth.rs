use teachbot::auth::{AuthResult, AuthenticationStrategy};
use teachbot::store::{Store, TokenError};

fn seeded(tokens: &[&str]) -> Store {
    let mut store = Store::new();
    let owned: Vec<String> = tokens.iter().map(|t| t.to_string()).collect();
    store.ensure_tokens(&owned);
    store
}

#[test]
fn test_ensure_tokens_inserts_unallocated() {
    let store = seeded(&["alpha", "beta"]);
    assert!(store.is_token_valid("alpha"));
    assert!(store.is_token_valid("beta"));
    assert!(!store.is_token_valid("gamma"));
    assert!(!store.has_allocated_token("anyone"));
}

#[test]
fn test_ensure_tokens_is_idempotent_and_keeps_allocations() {
    let mut store = seeded(&["alpha", "beta"]);
    assert_eq!(store.allocate("u1", "alpha"), Ok(()));

    // Seeding again with an overlapping set changes no allocation state.
    store.ensure_tokens(&vec!["alpha".to_string(), "beta".to_string(), "gamma".to_string()]);
    assert!(!store.is_token_valid("alpha"));
    assert!(store.has_allocated_token("u1"));
    assert!(store.is_token_valid("beta"));
    assert!(store.is_token_valid("gamma"));
}

#[test]
fn test_allocate_unknown_token_is_invalid() {
    let mut store = seeded(&["alpha"]);
    assert_eq!(store.allocate("u1", "missing"), Err(TokenError::Invalid));
    assert!(!store.has_allocated_token("u1"));
}

#[test]
fn test_allocate_succeeds_at_most_once() {
    let mut store = seeded(&["alpha"]);
    assert_eq!(store.allocate("u1", "alpha"), Ok(()));
    assert_eq!(store.allocate("u2", "alpha"), Err(TokenError::AlreadyAllocated));
    assert!(store.has_allocated_token("u1"));
    assert!(!store.has_allocated_token("u2"));
}

#[test]
fn test_allocation_flips_validity_and_authorization() {
    let mut store = seeded(&["alpha"]);
    assert!(store.is_token_valid("alpha"));
    assert!(!store.has_allocated_token("u1"));
    assert_eq!(store.allocate("u1", "alpha"), Ok(()));
    assert!(!store.is_token_valid("alpha"));
    assert!(store.has_allocated_token("u1"));
}

#[test]
fn test_load_entry_restores_rows_without_overwriting() {
    let mut store = Store::new();
    store.load_entry("alpha".to_string(), Some("u1".to_string()));
    store.load_entry("beta".to_string(), None);
    // A second load of a present token changes nothing.
    store.load_entry("alpha".to_string(), None);
    assert!(store.has_allocated_token("u1"));
    assert!(!store.is_token_valid("alpha"));
    assert!(store.is_token_valid("beta"));
}

#[test]
fn test_token_gate_scenario() {
    let store = seeded(&["abc123"]);
    let mut strategy = AuthenticationStrategy::TokenList(store);
    assert!(strategy.auth_required());
    assert!(!strategy.is_user_authenticated("u1"));

    let first = strategy.add_auth_for_new_user("u1", "!token abc123");
    assert_eq!(first, AuthResult::Success);
    assert!(strategy.is_user_authenticated("u1"));

    let second = strategy.add_auth_for_new_user("u2", "!token abc123");
    assert_eq!(second, AuthResult::InvalidToken);
    assert!(!strategy.is_user_authenticated("u2"));
}

#[test]
fn test_malformed_token_requests() {
    let store = seeded(&["abc123"]);
    let mut strategy = AuthenticationStrategy::TokenList(store);
    assert_eq!(
        strategy.add_auth_for_new_user("u1", "hello"),
        AuthResult::MalformedTokenRequest
    );
    assert_eq!(
        strategy.add_auth_for_new_user("u1", "!token"),
        AuthResult::MalformedTokenRequest
    );
    assert_eq!(
        strategy.add_auth_for_new_user("u1", "!token "),
        AuthResult::MalformedTokenRequest
    );
    assert_eq!(
        strategy.add_auth_for_new_user("u1", "!tokens abc123"),
        AuthResult::MalformedTokenRequest
    );
    assert!(!strategy.is_user_authenticated("u1"));
}

#[test]
fn test_unknown_token_is_reported_invalid() {
    let store = seeded(&["abc123"]);
    let mut strategy = AuthenticationStrategy::TokenList(store);
    assert_eq!(
        strategy.add_auth_for_new_user("u1", "!token nope"),
        AuthResult::InvalidToken
    );
    assert!(!strategy.is_user_authenticated("u1"));
}

#[test]
fn test_open_strategy_authorizes_everyone() {
    let mut strategy = AuthenticationStrategy::NoAuthentication;
    assert!(!strategy.auth_required());
    assert!(strategy.is_user_authenticated("anyone"));
    assert_eq!(
        strategy.add_auth_for_new_user("anyone", "whatever"),
        AuthResult::Success
    );
}
