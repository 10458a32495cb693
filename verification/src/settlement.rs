//! Claim finalization: `claim_nft` checks the bid, flips its state to
//! Consumed, mints the token, and computes the payment to the asset owner
//! and the refund to the caller, all as one failure-atomic step.

use vstd::prelude::*;
use vstd::pervasive::VecAdditionalExecFns;
use crate::contract::Contract;
use crate::token::{Settlement, Token, TokenMetadata, Transfer, spec_token_title, token_title};
use crate::types::{
    AccountId, Bid, BidState, ContractError, NANOS_PER_SEC, ONE_NEAR, sec_to_nano,
};

verus! {

/// Why a claim of `bid_id` against the store `bids` with the attached
/// payment `deposit` is rejected, or `None` when it succeeds: the checks
/// run in this order and each failure aborts the call.
pub open spec fn spec_claim_check(bids: Seq<Bid>, bid_id: u64, deposit: u128) -> Option<
    ContractError,
> {
    if bid_id >= bids.len() {
        Some(ContractError::BidNotFound)
    } else if !(bids[bid_id as int].bid_state is Approved) {
        Some(ContractError::InvalidBidState)
    } else if deposit < bids[bid_id as int].amount {
        Some(ContractError::InsufficientAmount)
    } else {
        None
    }
}

/// The bid after settlement: the same record in the terminal state.
pub open spec fn spec_consume(bid: Bid) -> Bid {
    Bid { bid_state: BidState::Consumed, ..bid }
}

/// The bid store after a successful claim of `bid_id`: only that bid's
/// state changes.
pub open spec fn spec_bids_after_claim(bids: Seq<Bid>, bid_id: u64) -> Seq<Bid> {
    bids.update(bid_id as int, spec_consume(bids[bid_id as int]))
}

/// The amount returned to the caller on success: the original endorsement
/// plus any overpayment beyond the bid amount.
pub open spec fn spec_refund(deposit: u128, amount: u128) -> int {
    ONE_NEAR + deposit - amount
}

/// What a successful claim hands back, given the bid it settled, the token
/// id drawn from the counter, the caller, the attached payment, and the
/// chain time of the call.
pub open spec fn spec_settlement(
    s: Settlement,
    bid: Bid,
    token_id: u64,
    sender: Seq<char>,
    deposit: u128,
    now: u64,
) -> bool {
    &&& s.token.token_id == token_id
    &&& s.token.owner_id@ == sender
    &&& s.token.metadata.title@ == spec_token_title()
    &&& s.token.metadata.description@ == bid.src_nft_id@
    &&& s.token.metadata.issued_at == now
    &&& s.token.metadata.starts_at == bid.start_at * NANOS_PER_SEC
    &&& s.token.metadata.expires_at == (bid.start_at + bid.lasts) * NANOS_PER_SEC
    &&& s.token.metadata.expires_at - s.token.metadata.starts_at
        == bid.lasts * NANOS_PER_SEC
    &&& s.owner_payment.receiver@ == bid.origin_owner@
    &&& s.owner_payment.amount == bid.amount
    &&& s.refund.receiver@ == sender
    &&& s.refund.amount == spec_refund(deposit, bid.amount)
}

impl Contract {
    /// Finalizes an approved bid. The caller attaches `attached_deposit` as
    /// the settlement payment and `block_timestamp` is the chain time, in
    /// nanoseconds. The checks of `spec_claim_check` run in order; on any
    /// failure the call returns that error and changes nothing. On success
    /// the bid becomes Consumed, the token counter advances by exactly one,
    /// and the returned settlement carries the minted token, the payment of
    /// the bid amount to the asset owner, and the refund of the endorsement
    /// plus overpayment to the caller. The preconditions on the counter and
    /// the deposit keep the token id and the refund within their integer
    /// types.
    pub fn claim_nft(
        &mut self,
        sender_id: &AccountId,
        bid_id: u64,
        attached_deposit: u128,
        block_timestamp: u64,
    ) -> (r: Result<Settlement, ContractError>)
        requires
            old(self).wf(),
            old(self).token_num < u64::MAX,
            attached_deposit <= u128::MAX - ONE_NEAR,
        ensures
            final(self).wf(),
            match spec_claim_check(old(self).bids@, bid_id, attached_deposit) {
                Some(e) => r == Err::<Settlement, ContractError>(e)
                    && *final(self) == *old(self),
                None => {
                    &&& final(self).bids@ == spec_bids_after_claim(old(self).bids@, bid_id)
                    &&& final(self).borrowers == old(self).borrowers
                    &&& final(self).subjects == old(self).subjects
                    &&& final(self).token_num == old(self).token_num + 1
                    &&& r matches Ok(s) && spec_settlement(
                        s,
                        old(self).bids@[bid_id as int],
                        old(self).token_num,
                        sender_id@,
                        attached_deposit,
                        block_timestamp,
                    )
                },
            },
    {
        if bid_id >= self.bids.len() as u64 {
            return Err(ContractError::BidNotFound);
        }
        let i = bid_id as usize;
        if self.bids[i].bid_state != BidState::Approved {
            return Err(ContractError::InvalidBidState);
        }
        if attached_deposit < self.bids[i].amount {
            return Err(ContractError::InsufficientAmount);
        }

        let consumed = Bid {
            src_nft_id: self.bids[i].src_nft_id.clone(),
            amount: self.bids[i].amount,
            start_at: self.bids[i].start_at,
            lasts: self.bids[i].lasts,
            origin_owner: self.bids[i].origin_owner.clone(),
            bid_state: BidState::Consumed,
        };
        self.bids.set(i, consumed);

        let token_id = self.token_num;
        self.token_num = self.token_num + 1;

        proof {
            assert(old(self).bids@[i as int].times_fit());
            assert(self.bids@[i as int].times_fit());
        }
        let starts_at = sec_to_nano(self.bids[i].start_at);
        let expires_at = sec_to_nano(self.bids[i].start_at + self.bids[i].lasts);
        let token = Token {
            token_id,
            owner_id: sender_id.clone(),
            metadata: TokenMetadata {
                title: token_title(),
                description: self.bids[i].src_nft_id.clone(),
                issued_at: block_timestamp,
                starts_at,
                expires_at,
            },
        };

        let bid_amount = self.bids[i].amount;
        let owner_payment = Transfer {
            receiver: self.bids[i].origin_owner.clone(),
            amount: bid_amount,
        };
        let refund = Transfer {
            receiver: sender_id.clone(),
            amount: ONE_NEAR + attached_deposit - bid_amount,
        };

        proof {
            assert forall|j: int|
                0 <= j < self.bids@.len() implies (#[trigger] self.bids@[j]).times_fit() by {
                assert(old(self).bids@[j].times_fit());
            }
            self.lemma_wf_after_bids_grow(*old(self));
        }
        Ok(Settlement { token, owner_payment, refund })
    }
}

} // verus!
