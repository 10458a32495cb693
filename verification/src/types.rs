//! Core data types of the bid lifecycle: bids, their states, the errors a
//! call can fail with, and the records produced by settlement.

use vstd::prelude::*;

verus! {

/// Identifier of a ledger account, as the host presents it.
pub type AccountId = String;

/// The fixed endorsement deposit required to create a bid: one unit of the
/// ledger's native currency.
pub const ONE_NEAR: u128 = 1_000_000_000_000_000_000_000_000;

/// Nanoseconds in one second, for converting second-resolution times to the
/// nanosecond-resolution timestamps carried by minted tokens.
pub const NANOS_PER_SEC: u64 = 1_000_000_000;

/// Lifecycle state of a bid. A bid only moves forward:
/// Pending -> Approved -> Consumed, and Consumed is terminal.
#[derive(Clone, Copy, Debug, PartialEq, Eq, Structural)]
pub enum BidState {
    Pending,
    Approved,
    Consumed,
}

/// Why a call was rejected. Every failure aborts the call with no state
/// change observable to the caller.
#[derive(Clone, Copy, Debug, PartialEq, Eq, Structural)]
pub enum ContractError {
    /// The deposit attached to bid creation is not exactly the endorsement.
    InvalidDeposit,
    /// The referenced bid id does not exist in the store.
    BidNotFound,
    /// The bid is not in the Approved state when a claim is attempted.
    InvalidBidState,
    /// The settlement payment is below the bid's required amount.
    InsufficientAmount,
}

/// Client-supplied description of a bid, immutable once submitted.
pub struct BidInfo {
    /// Identifier of the subject asset the bid references.
    pub src_nft_id: String,
    /// The settlement value the borrower offers to pay.
    pub amount: u128,
    /// Intended start of the borrowed validity window, in seconds.
    pub start_at: u64,
    /// Length of the validity window, in seconds.
    pub lasts: u64,
    /// The account that owns the subject asset and is paid at settlement.
    pub origin_owner: AccountId,
}

/// A stored bid: the client-supplied fields plus the system-assigned state.
/// Identified by an integer id unique for the store's lifetime.
pub struct Bid {
    pub src_nft_id: String,
    pub amount: u128,
    pub start_at: u64,
    pub lasts: u64,
    pub origin_owner: AccountId,
    pub bid_state: BidState,
}

impl Bid {
    /// The stored record a given description gives rise to: its fields with
    /// the state every new bid starts in.
    pub open spec fn spec_from_info(info: BidInfo) -> Bid {
        Bid {
            src_nft_id: info.src_nft_id,
            amount: info.amount,
            start_at: info.start_at,
            lasts: info.lasts,
            origin_owner: info.origin_owner,
            bid_state: BidState::Pending,
        }
    }

    /// The validity window a bid describes stays within what a
    /// nanosecond-resolution timestamp can hold.
    pub open spec fn times_fit(self) -> bool {
        (self.start_at + self.lasts) * NANOS_PER_SEC <= u64::MAX
    }
}

/// Converts a second-resolution time to nanoseconds.
pub fn sec_to_nano(sec: u64) -> (r: u64)
    requires
        sec * NANOS_PER_SEC <= u64::MAX,
    ensures
        r == sec * NANOS_PER_SEC,
{
    sec * NANOS_PER_SEC
}

} // verus!
