use nns::contract::{Borrower, Contract, Subject};
use nns::index::IdIndex;
use nns::token::token_title;
use nns::types::{sec_to_nano, BidInfo, BidState, ContractError, NANOS_PER_SEC, ONE_NEAR};

fn info(nft: &str, owner: &str, amount: u128, start_at: u64, lasts: u64) -> BidInfo {
    BidInfo {
        src_nft_id: String::from(nft),
        amount,
        start_at,
        lasts,
        origin_owner: String::from(owner),
    }
}

#[test]
fn offer_bid_returns_store_length_as_id() {
    let mut c = Contract::new();
    let alice = String::from("alice");
    let r = c.offer_bid(&alice, ONE_NEAR, info("asset-1", "bob", 5, 10, 20));
    assert_eq!(r, Ok(0));
    let r = c.offer_bid(&alice, ONE_NEAR, info("asset-1", "bob", 6, 10, 20));
    assert_eq!(r, Ok(1));
}

#[test]
fn offer_bid_appends_id_once_to_both_indexes() {
    let mut c = Contract::new();
    let alice = String::from("alice");
    let carol = String::from("carol");
    c.offer_bid(&alice, ONE_NEAR, info("asset-1", "bob", 5, 10, 20)).unwrap();
    c.offer_bid(&carol, ONE_NEAR, info("asset-2", "bob", 7, 10, 20)).unwrap();
    c.offer_bid(&alice, ONE_NEAR, info("asset-2", "bob", 9, 10, 20)).unwrap();

    let alice_bids = c.internal_get_borrower(&alice).unwrap().bids;
    assert_eq!(alice_bids, vec![0, 2]);
    let carol_bids = c.internal_get_borrower(&carol).unwrap().bids;
    assert_eq!(carol_bids, vec![1]);

    let asset1 = c.internal_get_subject(&String::from("asset-1")).unwrap().bids;
    assert_eq!(asset1, vec![0]);
    let asset2 = c.internal_get_subject(&String::from("asset-2")).unwrap().bids;
    assert_eq!(asset2, vec![1, 2]);
}

#[test]
fn offer_bid_wrong_deposit_fails_and_mutates_nothing() {
    let mut c = Contract::new();
    let alice = String::from("alice");
    let r = c.offer_bid(&alice, ONE_NEAR + 1, info("asset-1", "bob", 5, 10, 20));
    assert_eq!(r, Err(ContractError::InvalidDeposit));
    let r = c.offer_bid(&alice, 0, info("asset-1", "bob", 5, 10, 20));
    assert_eq!(r, Err(ContractError::InvalidDeposit));
    assert!(c.get_bid(0).is_none());
    assert!(c.internal_get_borrower(&alice).is_none());
    assert!(c.internal_get_subject(&String::from("asset-1")).is_none());
}

#[test]
fn new_bid_starts_pending() {
    let mut c = Contract::new();
    let alice = String::from("alice");
    c.offer_bid(&alice, ONE_NEAR, info("asset-1", "bob", 5, 10, 20)).unwrap();
    let bid = c.get_bid(0).unwrap();
    assert_eq!(bid.bid_state, BidState::Pending);
    assert_eq!(bid.amount, 5);
    assert_eq!(bid.src_nft_id, "asset-1");
    assert_eq!(bid.origin_owner, "bob");
}

#[test]
fn claim_missing_bid_fails_with_bid_not_found() {
    let mut c = Contract::new();
    let alice = String::from("alice");
    let r = c.claim_nft(&alice, 0, ONE_NEAR, 1);
    assert!(matches!(r, Err(ContractError::BidNotFound)));
}

#[test]
fn claim_pending_bid_fails_and_leaves_state_unchanged() {
    let mut c = Contract::new();
    let alice = String::from("alice");
    c.offer_bid(&alice, ONE_NEAR, info("asset-1", "bob", 5, 10, 20)).unwrap();
    let r = c.claim_nft(&alice, 0, 5, 1);
    assert!(matches!(r, Err(ContractError::InvalidBidState)));
    assert_eq!(c.get_bid(0).unwrap().bid_state, BidState::Pending);
}

#[test]
fn claim_with_insufficient_payment_fails_and_leaves_state_unchanged() {
    let mut c = Contract::new();
    let alice = String::from("alice");
    c.offer_bid(&alice, ONE_NEAR, info("asset-1", "bob", 5, 10, 20)).unwrap();
    c.approve_bid(0).unwrap();
    let r = c.claim_nft(&alice, 0, 4, 1);
    assert!(matches!(r, Err(ContractError::InsufficientAmount)));
    assert_eq!(c.get_bid(0).unwrap().bid_state, BidState::Approved);
}

#[test]
fn claim_settles_bid_mints_token_and_computes_transfers() {
    // Endorsement constant = 1 unit; bid of 5 units on "asset-1"; after
    // approval the caller claims with 7 units attached. The owner receives
    // 5, the caller is refunded 1 + 7 - 5 = 3, and the bid is Consumed.
    let mut c = Contract::new();
    let alice = String::from("alice");
    c.offer_bid(&alice, ONE_NEAR, info("asset-1", "bob", 5 * ONE_NEAR, 100, 3600))
        .unwrap();
    c.approve_bid(0).unwrap();
    let s = c.claim_nft(&alice, 0, 7 * ONE_NEAR, 424242).unwrap();

    assert_eq!(s.owner_payment.receiver, "bob");
    assert_eq!(s.owner_payment.amount, 5 * ONE_NEAR);
    assert_eq!(s.refund.receiver, "alice");
    assert_eq!(s.refund.amount, 3 * ONE_NEAR);

    assert_eq!(s.token.token_id, 0);
    assert_eq!(s.token.owner_id, "alice");
    assert_eq!(s.token.metadata.title, "NFT NEVER SLEEP");
    assert_eq!(s.token.metadata.description, "asset-1");
    assert_eq!(s.token.metadata.issued_at, 424242);
    assert_eq!(s.token.metadata.starts_at, 100 * NANOS_PER_SEC);
    assert_eq!(s.token.metadata.expires_at, 3700 * NANOS_PER_SEC);
    assert_eq!(
        s.token.metadata.expires_at - s.token.metadata.starts_at,
        3600 * NANOS_PER_SEC
    );

    assert_eq!(c.get_bid(0).unwrap().bid_state, BidState::Consumed);
    assert_eq!(c.token_num, 1);
}

#[test]
fn second_claim_of_same_bid_fails_with_invalid_bid_state() {
    let mut c = Contract::new();
    let alice = String::from("alice");
    c.offer_bid(&alice, ONE_NEAR, info("asset-1", "bob", 5, 10, 20)).unwrap();
    c.approve_bid(0).unwrap();
    c.claim_nft(&alice, 0, 5, 1).unwrap();
    let r = c.claim_nft(&alice, 0, 5, 2);
    assert!(matches!(r, Err(ContractError::InvalidBidState)));
    assert_eq!(c.get_bid(0).unwrap().bid_state, BidState::Consumed);
    assert_eq!(c.token_num, 1);
}

#[test]
fn claim_refunds_exactly_endorsement_when_payment_is_exact() {
    let mut c = Contract::new();
    let alice = String::from("alice");
    c.offer_bid(&alice, ONE_NEAR, info("asset-1", "bob", 5, 10, 20)).unwrap();
    c.approve_bid(0).unwrap();
    let s = c.claim_nft(&alice, 0, 5, 1).unwrap();
    assert_eq!(s.refund.amount, ONE_NEAR);
    assert_eq!(s.owner_payment.amount, 5);
}

#[test]
fn token_counter_advances_once_per_successful_claim() {
    let mut c = Contract::new();
    let alice = String::from("alice");
    c.offer_bid(&alice, ONE_NEAR, info("asset-1", "bob", 1, 10, 20)).unwrap();
    c.offer_bid(&alice, ONE_NEAR, info("asset-2", "bob", 2, 10, 20)).unwrap();
    c.approve_bid(0).unwrap();
    c.approve_bid(1).unwrap();
    let s0 = c.claim_nft(&alice, 0, 1, 1).unwrap();
    let s1 = c.claim_nft(&alice, 1, 2, 2).unwrap();
    assert_eq!(s0.token.token_id, 0);
    assert_eq!(s1.token.token_id, 1);
    assert_eq!(c.token_num, 2);
}

#[test]
fn approve_bid_moves_only_pending_forward() {
    let mut c = Contract::new();
    let alice = String::from("alice");
    assert_eq!(c.approve_bid(0), Err(ContractError::BidNotFound));
    c.offer_bid(&alice, ONE_NEAR, info("asset-1", "bob", 5, 10, 20)).unwrap();
    assert_eq!(c.approve_bid(0), Ok(()));
    assert_eq!(c.get_bid(0).unwrap().bid_state, BidState::Approved);
    assert_eq!(c.approve_bid(0), Err(ContractError::InvalidBidState));
    assert_eq!(c.get_bid(0).unwrap().bid_state, BidState::Approved);
}

#[test]
fn fresh_contract_is_empty() {
    let c = Contract::new();
    assert_eq!(c.token_num, 0);
    assert!(c.get_bid(0).is_none());
    assert!(c.internal_get_borrower(&String::from("anyone")).is_none());
    assert!(c.internal_get_subject(&String::from("anything")).is_none());
}

#[test]
fn borrower_and_subject_records_start_empty() {
    assert!(Borrower::new().bids.is_empty());
    assert!(Subject::new().bids.is_empty());
}

#[test]
fn sec_to_nano_converts_exactly() {
    assert_eq!(sec_to_nano(0), 0);
    assert_eq!(sec_to_nano(1), 1_000_000_000);
    assert_eq!(sec_to_nano(3600), 3_600_000_000_000);
}

#[test]
fn claim_handles_largest_representable_window() {
    // The widest window whose end still fits a u64 nanosecond timestamp:
    // start_at + lasts == u64::MAX / NANOS_PER_SEC.
    let max_sec = u64::MAX / NANOS_PER_SEC;
    let mut c = Contract::new();
    let alice = String::from("alice");
    c.offer_bid(&alice, ONE_NEAR, info("asset-1", "bob", 1, max_sec - 10, 10))
        .unwrap();
    c.approve_bid(0).unwrap();
    let s = c.claim_nft(&alice, 0, 1, 1).unwrap();
    assert_eq!(s.token.metadata.expires_at, max_sec * NANOS_PER_SEC);
    assert_eq!(
        s.token.metadata.expires_at - s.token.metadata.starts_at,
        10 * NANOS_PER_SEC
    );
}

#[test]
fn token_title_is_fixed() {
    assert_eq!(token_title(), "NFT NEVER SLEEP");
}

#[test]
fn id_index_replaces_and_keeps_other_keys() {
    let mut idx = IdIndex::new();
    let a = String::from("a");
    let b = String::from("b");
    assert!(idx.lookup(&a).is_none());
    idx.put(&a, vec![1, 2]);
    idx.put(&b, vec![3]);
    assert_eq!(idx.lookup(&a), Some(vec![1, 2]));
    idx.put(&a, vec![1, 2, 9]);
    assert_eq!(idx.lookup(&a), Some(vec![1, 2, 9]));
    assert_eq!(idx.lookup(&b), Some(vec![3]));
}
