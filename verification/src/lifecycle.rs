//! Bid creation: `offer_bid` checks the endorsement deposit, inserts the new
//! bid, and records its id in the caller's borrower index and the subject
//! asset's index.

use vstd::prelude::*;
use crate::contract::{Borrower, Contract, Subject};
use crate::types::{AccountId, Bid, BidInfo, ContractError, NANOS_PER_SEC, ONE_NEAR};

verus! {

impl Contract {
    /// Registers a new bid. The caller attaches `attached_deposit`, which
    /// must be exactly the endorsement constant; any other amount is
    /// rejected with `InvalidDeposit` and nothing changes. On success the
    /// new bid is stored Pending under the id that was the store's length,
    /// and that id is appended, fresh, to the caller's borrower list and to
    /// the subject asset's list; every other account, asset and bid is
    /// untouched. The precondition keeps the bid's validity window within
    /// what a nanosecond-resolution timestamp can hold at settlement.
    pub fn offer_bid(
        &mut self,
        sender_id: &AccountId,
        attached_deposit: u128,
        bid_info: BidInfo,
    ) -> (r: Result<u64, ContractError>)
        requires
            old(self).wf(),
            (bid_info.start_at + bid_info.lasts) * NANOS_PER_SEC <= u64::MAX,
        ensures
            final(self).wf(),
            attached_deposit != ONE_NEAR ==> r == Err::<u64, ContractError>(
                ContractError::InvalidDeposit,
            ) && *final(self) == *old(self),
            attached_deposit == ONE_NEAR ==> ({
                let id = old(self).bids@.len() as u64;
                &&& r == Ok::<u64, ContractError>(id)
                &&& final(self).bids@ == old(self).bids@.push(Bid::spec_from_info(bid_info))
                &&& final(self).borrower_ids(sender_id@)
                    == old(self).borrower_ids(sender_id@).push(id)
                &&& !old(self).borrower_ids(sender_id@).contains(id)
                &&& final(self).has_borrower(sender_id@)
                &&& final(self).subject_ids(bid_info.src_nft_id@)
                    == old(self).subject_ids(bid_info.src_nft_id@).push(id)
                &&& !old(self).subject_ids(bid_info.src_nft_id@).contains(id)
                &&& final(self).has_subject(bid_info.src_nft_id@)
                &&& forall|k: Seq<char>|
                    k != sender_id@
                        ==> final(self).has_borrower(k) == old(self).has_borrower(k)
                            && final(self).borrower_ids(k) == old(self).borrower_ids(k)
                &&& forall|k: Seq<char>|
                    k != bid_info.src_nft_id@
                        ==> final(self).has_subject(k) == old(self).has_subject(k)
                            && final(self).subject_ids(k) == old(self).subject_ids(k)
                &&& final(self).token_num == old(self).token_num
            }),
    {
        if attached_deposit != ONE_NEAR {
            return Err(ContractError::InvalidDeposit);
        }
        let nft_id = bid_info.src_nft_id.clone();

        let id = self.internal_add_bid(&bid_info);
        let ghost s1 = *self;

        let mut borrower = match self.internal_get_borrower(sender_id) {
            Some(b) => b,
            None => Borrower::new(),
        };
        borrower.bids.push(id);
        self.internal_save_borrower(sender_id, &borrower);
        let ghost s2 = *self;

        let mut subject = match self.internal_get_subject(&nft_id) {
            Some(s) => s,
            None => Subject::new(),
        };
        subject.bids.push(id);
        self.internal_save_subject(&nft_id, &subject);

        proof {
            assert forall|k: Seq<char>| k != sender_id@ implies
                self.has_borrower(k) == old(self).has_borrower(k)
                && self.borrower_ids(k) == old(self).borrower_ids(k) by {
                assert(self.has_borrower(k) == s2.has_borrower(k));
                assert(self.borrower_ids(k) == s2.borrower_ids(k));
                assert(s2.has_borrower(k) == s1.has_borrower(k));
                assert(s2.borrower_ids(k) == s1.borrower_ids(k));
                assert(s1.has_borrower(k) == old(self).has_borrower(k));
                assert(s1.borrower_ids(k) == old(self).borrower_ids(k));
            }
            assert forall|k: Seq<char>| k != bid_info.src_nft_id@ implies
                self.has_subject(k) == old(self).has_subject(k)
                && self.subject_ids(k) == old(self).subject_ids(k) by {
                assert(self.has_subject(k) == s2.has_subject(k));
                assert(self.subject_ids(k) == s2.subject_ids(k));
                assert(s2.has_subject(k) == s1.has_subject(k));
                assert(s2.subject_ids(k) == s1.subject_ids(k));
                assert(s1.has_subject(k) == old(self).has_subject(k));
                assert(s1.subject_ids(k) == old(self).subject_ids(k));
            }
            assert(!old(self).borrower_ids(sender_id@).contains(id)) by {
                if old(self).borrower_ids(sender_id@).contains(id) {
                    let i = choose|i: int|
                        0 <= i < old(self).borrower_ids(sender_id@).len()
                            && old(self).borrower_ids(sender_id@)[i] == id;
                    assert(old(self).borrower_ids(sender_id@)[i] < old(self).bids@.len());
                }
            }
            assert(!old(self).subject_ids(bid_info.src_nft_id@).contains(id)) by {
                if old(self).subject_ids(bid_info.src_nft_id@).contains(id) {
                    let i = choose|i: int|
                        0 <= i < old(self).subject_ids(bid_info.src_nft_id@).len()
                            && old(self).subject_ids(bid_info.src_nft_id@)[i] == id;
                    assert(old(self).subject_ids(bid_info.src_nft_id@)[i]
                        < old(self).bids@.len());
                }
            }
        }
        Ok(id)
    }
}

} // verus!
