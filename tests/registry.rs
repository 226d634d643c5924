use erc721::registry::Registry;
use erc721::types::{Account, ErrorKind, Event, TokenId};

const A: Account = 1;
const B: Account = 2;
const C: Account = 3;
const D: Account = 4;
const E: Account = 5;
const F: Account = 6;
const T1: TokenId = (0, 1);
const T2: TokenId = (7, 2);

#[test]
fn approved_spender_transfers() {
    let mut r = Registry::new();
    assert_eq!(r.mint(A, T1), Ok(()));
    assert_eq!(r.balance_of(A), 1);
    assert_eq!(r.owner_of(T1), Some(A));
    assert_eq!(r.approve(A, B, T1), Ok(()));
    assert_eq!(r.get_approved(T1), Some(B));
    assert_eq!(r.transfer_from(B, A, C, T1), Ok(()));
    assert_eq!(r.owner_of(T1), Some(C));
    assert_eq!(r.balance_of(A), 0);
    assert_eq!(r.balance_of(C), 1);
    assert_eq!(r.get_approved(T1), None);
}

#[test]
fn operator_transfers() {
    let mut r = Registry::new();
    assert_eq!(r.mint(D, T2), Ok(()));
    assert_eq!(r.set_approval_for_all(D, E, true), Ok(()));
    assert!(r.is_approved_for_all(D, E));
    assert_eq!(r.get_approved(T2), None);
    assert_eq!(r.transfer_from(E, D, F, T2), Ok(()));
    assert_eq!(r.owner_of(T2), Some(F));
    assert_eq!(r.balance_of(D), 0);
    assert_eq!(r.balance_of(F), 1);
}

#[test]
fn counts_follow_owners() {
    let mut r = Registry::new();
    let tokens: [TokenId; 4] = [(0, 1), (0, 2), (1, 0), (u128::MAX, u128::MAX)];
    for t in tokens.iter() {
        assert_eq!(r.mint(A, *t), Ok(()));
    }
    assert_eq!(r.balance_of(A), 4);
    assert_eq!(r.transfer_from(A, A, B, tokens[0]), Ok(()));
    assert_eq!(r.transfer_from(A, A, B, tokens[1]), Ok(()));
    assert_eq!(r.burn(tokens[2]), Ok(()));
    assert_eq!(r.balance_of(A), 1);
    assert_eq!(r.balance_of(B), 2);
    assert_eq!(r.burn(tokens[0]), Ok(()));
    assert_eq!(r.balance_of(B), 1);
    assert_eq!(r.owner_of(tokens[3]), Some(A));
    assert_eq!(r.owner_of(tokens[1]), Some(B));
}

#[test]
fn transfer_clears_approval() {
    let mut r = Registry::new();
    r.mint(A, T1).unwrap();
    r.approve(A, B, T1).unwrap();
    assert_eq!(r.transfer_from(A, A, C, T1), Ok(()));
    assert_eq!(r.get_approved(T1), None);
    // the former spender has no right left
    assert_eq!(r.transfer_from(B, C, B, T1), Err(ErrorKind::Unauthorized));
}

#[test]
fn burn_clears_approval() {
    let mut r = Registry::new();
    r.mint(A, T1).unwrap();
    r.approve(A, B, T1).unwrap();
    assert_eq!(r.burn(T1), Ok(()));
    assert_eq!(r.get_approved(T1), None);
    assert!(!r.token_exists(T1));
}

#[test]
fn mint_then_burn_restores_balance() {
    let mut r = Registry::new();
    r.mint(A, T2).unwrap();
    let before = r.balance_of(A);
    let existed = r.token_exists(T1);
    assert_eq!(r.mint(A, T1), Ok(()));
    assert_eq!(r.balance_of(A), before + 1);
    assert_eq!(r.burn(T1), Ok(()));
    assert_eq!(r.balance_of(A), before);
    assert_eq!(r.token_exists(T1), existed);
}

#[test]
fn stranger_cannot_transfer() {
    let mut r = Registry::new();
    r.mint(A, T1).unwrap();
    r.approve(A, B, T1).unwrap();
    r.set_approval_for_all(A, D, true).unwrap();
    let events_before = r.events().len();
    assert_eq!(r.transfer_from(C, A, C, T1), Err(ErrorKind::Unauthorized));
    assert_eq!(r.owner_of(T1), Some(A));
    assert_eq!(r.balance_of(A), 1);
    assert_eq!(r.balance_of(C), 0);
    assert_eq!(r.get_approved(T1), Some(B));
    assert!(r.is_approved_for_all(A, D));
    assert_eq!(r.events().len(), events_before);
}

#[test]
fn self_approval_rejected() {
    let mut r = Registry::new();
    assert_eq!(r.set_approval_for_all(A, A, true), Err(ErrorKind::SelfApprovalRejected));
    assert_eq!(r.set_approval_for_all(A, A, false), Err(ErrorKind::SelfApprovalRejected));
    assert!(!r.is_approved_for_all(A, A));
    assert!(r.events().is_empty());
}

#[test]
fn double_mint_rejected() {
    let mut r = Registry::new();
    assert_eq!(r.mint(A, T1), Ok(()));
    assert_eq!(r.mint(B, T1), Err(ErrorKind::TokenAlreadyExists));
    assert_eq!(r.mint(A, T1), Err(ErrorKind::TokenAlreadyExists));
    assert_eq!(r.owner_of(T1), Some(A));
    assert_eq!(r.balance_of(A), 1);
    assert_eq!(r.balance_of(B), 0);
}

#[test]
fn transfer_to_self_keeps_count() {
    let mut r = Registry::new();
    r.mint(A, T1).unwrap();
    r.approve(A, B, T1).unwrap();
    r.take_events();
    assert_eq!(r.transfer_from(A, A, A, T1), Ok(()));
    assert_eq!(r.balance_of(A), 1);
    assert_eq!(r.owner_of(T1), Some(A));
    assert_eq!(r.get_approved(T1), None);
    assert_eq!(r.take_events(), vec![Event::Transfer(Some(A), Some(A), T1)]);
}

#[test]
fn missing_token_errors() {
    let mut r = Registry::new();
    assert_eq!(r.burn(T1), Err(ErrorKind::TokenNotFound));
    assert_eq!(r.approve(A, B, T1), Err(ErrorKind::TokenNotFound));
    assert_eq!(r.transfer_from(A, A, B, T1), Err(ErrorKind::Unauthorized));
    assert!(!r.is_approved_or_owner(A, T1));
    assert!(!r.token_exists(T1));
    assert_eq!(r.owner_of(T1), None);
}

#[test]
fn owner_mismatch_rejected() {
    let mut r = Registry::new();
    r.mint(A, T1).unwrap();
    assert_eq!(r.transfer_from(A, B, C, T1), Err(ErrorKind::OwnerMismatch));
    assert_eq!(r.owner_of(T1), Some(A));
}

#[test]
fn approve_rules() {
    let mut r = Registry::new();
    r.mint(A, T1).unwrap();
    assert_eq!(r.approve(A, A, T1), Err(ErrorKind::RedundantApproval));
    assert_eq!(r.approve(C, B, T1), Err(ErrorKind::Unauthorized));
    assert_eq!(r.get_approved(T1), None);
    // an approved spender may not pass its approval on
    r.approve(A, B, T1).unwrap();
    assert_eq!(r.approve(B, C, T1), Err(ErrorKind::Unauthorized));
    // an operator may approve on the owner's behalf
    r.set_approval_for_all(A, D, true).unwrap();
    assert_eq!(r.approve(D, C, T1), Ok(()));
    assert_eq!(r.get_approved(T1), Some(C));
    // and loses that right when the blanket approval is withdrawn
    r.set_approval_for_all(A, D, false).unwrap();
    assert!(!r.is_approved_for_all(A, D));
    assert_eq!(r.approve(D, E, T1), Err(ErrorKind::Unauthorized));
}

#[test]
fn set_approval_for_all_idempotent() {
    let mut r = Registry::new();
    assert_eq!(r.set_approval_for_all(A, B, true), Ok(()));
    assert_eq!(r.set_approval_for_all(A, B, true), Ok(()));
    assert!(r.is_approved_for_all(A, B));
    assert!(!r.is_approved_for_all(B, A));
}

#[test]
fn approved_or_owner_cases() {
    let mut r = Registry::new();
    r.mint(A, T1).unwrap();
    assert!(r.is_approved_or_owner(A, T1));
    assert!(!r.is_approved_or_owner(B, T1));
    r.approve(A, B, T1).unwrap();
    assert!(r.is_approved_or_owner(B, T1));
    r.set_approval_for_all(A, C, true).unwrap();
    assert!(r.is_approved_or_owner(C, T1));
    assert!(!r.is_approved_or_owner(D, T1));
}

#[test]
fn safe_transfer_checks_recipient() {
    let mut r = Registry::new();
    r.mint(A, T1).unwrap();
    assert_eq!(r.safe_transfer_from(A, A, B, T1, false), Err(ErrorKind::RecipientIneligible));
    assert_eq!(r.owner_of(T1), Some(A));
    assert_eq!(r.safe_transfer_from(C, A, B, T1, true), Err(ErrorKind::Unauthorized));
    assert_eq!(r.safe_transfer_from(A, A, B, T1, true), Ok(()));
    assert_eq!(r.owner_of(T1), Some(B));
    assert_eq!(r.balance_of(B), 1);
}

#[test]
fn notifications_in_order() {
    let mut r = Registry::new();
    r.mint(A, T1).unwrap();
    r.approve(A, B, T1).unwrap();
    r.set_approval_for_all(A, C, true).unwrap();
    r.transfer_from(B, A, D, T1).unwrap();
    r.burn(T1).unwrap();
    let expected = vec![
        Event::Transfer(None, Some(A), T1),
        Event::Approval(A, B, T1),
        Event::ApprovalForAll(A, C, true),
        Event::Transfer(Some(A), Some(D), T1),
        Event::Transfer(Some(D), None, T1),
    ];
    assert_eq!(r.events().to_vec(), expected);
    assert_eq!(r.take_events(), expected);
    assert!(r.events().is_empty());
    assert_eq!(r.balance_of(D), 0);
}
