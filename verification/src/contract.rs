//! The settlement service's state: the append-only bid store, the borrower
//! and subject indexes, and the monotonic token counter, together with the
//! store accessors and the approval transition.

use vstd::prelude::*;
use vstd::pervasive::VecAdditionalExecFns;
use crate::index::{IdIndex, copy_ids};
use crate::types::{AccountId, Bid, BidInfo, BidState, ContractError};

verus! {

/// The bid ids one account has created, in creation order.
pub struct Borrower {
    pub bids: Vec<u64>,
}

impl Borrower {
    /// A borrower record with no bids yet.
    pub fn new() -> (r: Borrower)
        ensures
            r.bids@ == Seq::<u64>::empty(),
    {
        Borrower { bids: Vec::new() }
    }
}

/// The bid ids referencing one subject asset, in creation order.
pub struct Subject {
    pub bids: Vec<u64>,
}

impl Subject {
    /// A subject record with no bids yet.
    pub fn new() -> (r: Subject)
        ensures
            r.bids@ == Seq::<u64>::empty(),
    {
        Subject { bids: Vec::new() }
    }
}

/// The whole persistent state of the bidding and settlement service.
pub struct Contract {
    /// Append-only bid store; a bid's id is its position.
    pub bids: Vec<Bid>,
    /// Per-account index of created bid ids.
    pub borrowers: IdIndex,
    /// Per-subject-asset index of referencing bid ids.
    pub subjects: IdIndex,
    /// Next token identifier, incremented exactly once per successful claim.
    pub token_num: u64,
}

impl Contract {
    /// The bid ids recorded for `account`, empty when none were recorded.
    pub open spec fn borrower_ids(self, account: Seq<char>) -> Seq<u64> {
        self.borrowers.ids_of(account)
    }

    /// Whether `account` has a borrower record.
    pub open spec fn has_borrower(self, account: Seq<char>) -> bool {
        self.borrowers.has_key(account)
    }

    /// The bid ids recorded for the subject asset `nft_id`.
    pub open spec fn subject_ids(self, nft_id: Seq<char>) -> Seq<u64> {
        self.subjects.ids_of(nft_id)
    }

    /// Whether the subject asset `nft_id` has a subject record.
    pub open spec fn has_subject(self, nft_id: Seq<char>) -> bool {
        self.subjects.has_key(nft_id)
    }

    /// Well-formedness, established by the constructor and preserved by
    /// every operation: the indexes have unique keys, every bid id they
    /// record exists in the store, and every stored bid's validity window
    /// fits a nanosecond-resolution timestamp.
    pub open spec fn wf(self) -> bool {
        &&& self.borrowers.keys_unique()
        &&& self.subjects.keys_unique()
        &&& forall|k: Seq<char>, i: int|
            0 <= i < self.borrower_ids(k).len()
                ==> #[trigger] self.borrower_ids(k)[i] < self.bids@.len()
        &&& forall|k: Seq<char>, i: int|
            0 <= i < self.subject_ids(k).len()
                ==> #[trigger] self.subject_ids(k)[i] < self.bids@.len()
        &&& forall|i: int|
            0 <= i < self.bids@.len() ==> (#[trigger] self.bids@[i]).times_fit()
    }

    /// A service with no bids, no index entries, and the token counter at 0.
    pub fn new() -> (r: Contract)
        ensures
            r.wf(),
            r.bids@.len() == 0,
            r.token_num == 0,
            forall|k: Seq<char>| !r.has_borrower(k) && !r.has_subject(k),
            forall|k: Seq<char>|
                r.borrower_ids(k) == Seq::<u64>::empty()
                    && r.subject_ids(k) == Seq::<u64>::empty(),
    {
        Contract {
            bids: Vec::new(),
            borrowers: IdIndex::new(),
            subjects: IdIndex::new(),
            token_num: 0,
        }
    }

    /// Fetches the borrower record of `account_id`, if one exists.
    pub fn internal_get_borrower(&self, account_id: &AccountId) -> (r: Option<Borrower>)
        requires
            self.wf(),
        ensures
            match r {
                Some(b) => self.has_borrower(account_id@)
                    && b.bids@ == self.borrower_ids(account_id@),
                None => !self.has_borrower(account_id@)
                    && self.borrower_ids(account_id@) == Seq::<u64>::empty(),
            },
    {
        match self.borrowers.lookup(account_id) {
            Some(ids) => Some(Borrower { bids: ids }),
            None => None,
        }
    }

    /// Stores or replaces the borrower record of `account_id`. Every other
    /// account's record is untouched.
    pub fn internal_save_borrower(&mut self, account_id: &AccountId, borrower: &Borrower)
        requires
            old(self).wf(),
            forall|i: int|
                0 <= i < borrower.bids@.len()
                    ==> #[trigger] borrower.bids@[i] < old(self).bids@.len(),
        ensures
            final(self).wf(),
            final(self).has_borrower(account_id@),
            final(self).borrower_ids(account_id@) == borrower.bids@,
            forall|k: Seq<char>|
                k != account_id@
                    ==> final(self).has_borrower(k) == old(self).has_borrower(k)
                        && final(self).borrower_ids(k) == old(self).borrower_ids(k),
            final(self).bids == old(self).bids,
            final(self).subjects == old(self).subjects,
            final(self).token_num == old(self).token_num,
    {
        let ids = copy_ids(&borrower.bids);
        self.borrowers.put(account_id, ids);
        proof {
            assert forall|k: Seq<char>, i: int|
                0 <= i < self.borrower_ids(k).len()
                    implies #[trigger] self.borrower_ids(k)[i] < self.bids@.len() by {
                if k == account_id@ {
                    assert(self.borrower_ids(k) == borrower.bids@);
                    assert(borrower.bids@[i] < old(self).bids@.len());
                } else {
                    assert(self.borrower_ids(k) == old(self).borrower_ids(k));
                    assert(old(self).borrower_ids(k)[i] < old(self).bids@.len());
                }
            }
            assert forall|k: Seq<char>, i: int|
                0 <= i < self.subject_ids(k).len()
                    implies #[trigger] self.subject_ids(k)[i] < self.bids@.len() by {
                assert(self.subject_ids(k) == old(self).subject_ids(k));
                assert(old(self).subject_ids(k)[i] < old(self).bids@.len());
            }
            assert forall|j: int|
                0 <= j < self.bids@.len() implies (#[trigger] self.bids@[j]).times_fit() by {
                assert(old(self).bids@[j].times_fit());
            }
        }
    }

    /// Fetches the subject record of the asset `nft_id`, if one exists.
    pub fn internal_get_subject(&self, nft_id: &String) -> (r: Option<Subject>)
        requires
            self.wf(),
        ensures
            match r {
                Some(s) => self.has_subject(nft_id@)
                    && s.bids@ == self.subject_ids(nft_id@),
                None => !self.has_subject(nft_id@)
                    && self.subject_ids(nft_id@) == Seq::<u64>::empty(),
            },
    {
        match self.subjects.lookup(nft_id) {
            Some(ids) => Some(Subject { bids: ids }),
            None => None,
        }
    }

    /// Stores or replaces the subject record of the asset `nft_id`. Every
    /// other asset's record is untouched.
    pub fn internal_save_subject(&mut self, nft_id: &String, subject: &Subject)
        requires
            old(self).wf(),
            forall|i: int|
                0 <= i < subject.bids@.len()
                    ==> #[trigger] subject.bids@[i] < old(self).bids@.len(),
        ensures
            final(self).wf(),
            final(self).has_subject(nft_id@),
            final(self).subject_ids(nft_id@) == subject.bids@,
            forall|k: Seq<char>|
                k != nft_id@
                    ==> final(self).has_subject(k) == old(self).has_subject(k)
                        && final(self).subject_ids(k) == old(self).subject_ids(k),
            final(self).bids == old(self).bids,
            final(self).borrowers == old(self).borrowers,
            final(self).token_num == old(self).token_num,
    {
        let ids = copy_ids(&subject.bids);
        self.subjects.put(nft_id, ids);
        proof {
            assert forall|k: Seq<char>, i: int|
                0 <= i < self.subject_ids(k).len()
                    implies #[trigger] self.subject_ids(k)[i] < self.bids@.len() by {
                if k == nft_id@ {
                    assert(self.subject_ids(k) == subject.bids@);
                    assert(subject.bids@[i] < old(self).bids@.len());
                } else {
                    assert(self.subject_ids(k) == old(self).subject_ids(k));
                    assert(old(self).subject_ids(k)[i] < old(self).bids@.len());
                }
            }
            assert forall|k: Seq<char>, i: int|
                0 <= i < self.borrower_ids(k).len()
                    implies #[trigger] self.borrower_ids(k)[i] < self.bids@.len() by {
                assert(self.borrower_ids(k) == old(self).borrower_ids(k));
                assert(old(self).borrower_ids(k)[i] < old(self).bids@.len());
            }
            assert forall|j: int|
                0 <= j < self.bids@.len() implies (#[trigger] self.bids@[j]).times_fit() by {
                assert(old(self).bids@[j].times_fit());
            }
        }
    }

    /// Appends a new Pending bid built from `bid_info` to the store and
    /// returns its id: the store's length before the insertion.
    pub fn internal_add_bid(&mut self, bid_info: &BidInfo) -> (id: u64)
        requires
            old(self).wf(),
            (bid_info.start_at + bid_info.lasts) * crate::types::NANOS_PER_SEC <= u64::MAX,
        ensures
            final(self).wf(),
            id == old(self).bids@.len(),
            final(self).bids@ == old(self).bids@.push(Bid::spec_from_info(*bid_info)),
            final(self).borrowers == old(self).borrowers,
            final(self).subjects == old(self).subjects,
            final(self).token_num == old(self).token_num,
    {
        let id = self.bids.len() as u64;
        let bid = Bid {
            src_nft_id: bid_info.src_nft_id.clone(),
            amount: bid_info.amount,
            start_at: bid_info.start_at,
            lasts: bid_info.lasts,
            origin_owner: bid_info.origin_owner.clone(),
            bid_state: BidState::Pending,
        };
        self.bids.push(bid);
        proof {
            assert forall|j: int|
                0 <= j < self.bids@.len() implies (#[trigger] self.bids@[j]).times_fit() by {
                if j < old(self).bids@.len() {
                    assert(old(self).bids@[j].times_fit());
                } else {
                    assert(self.bids@[j] == Bid::spec_from_info(*bid_info));
                }
            }
            self.lemma_wf_after_bids_grow(*old(self));
        }
        id
    }

    /// When the indexes are untouched and the store only grows while keeping
    /// bids whose windows fit, well-formedness carries over.
    pub(crate) proof fn lemma_wf_after_bids_grow(self, pre: Contract)
        requires
            pre.wf(),
            self.borrowers == pre.borrowers,
            self.subjects == pre.subjects,
            self.bids@.len() >= pre.bids@.len(),
            forall|j: int|
                0 <= j < self.bids@.len() ==> (#[trigger] self.bids@[j]).times_fit(),
        ensures
            self.wf(),
    {
        assert forall|k: Seq<char>, i: int|
            0 <= i < self.borrower_ids(k).len()
                implies #[trigger] self.borrower_ids(k)[i] < self.bids@.len() by {
            assert(self.borrower_ids(k) == pre.borrower_ids(k));
            assert(pre.borrower_ids(k)[i] < pre.bids@.len());
        }
        assert forall|k: Seq<char>, i: int|
            0 <= i < self.subject_ids(k).len()
                implies #[trigger] self.subject_ids(k)[i] < self.bids@.len() by {
            assert(self.subject_ids(k) == pre.subject_ids(k));
            assert(pre.subject_ids(k)[i] < pre.bids@.len());
        }
    }

    /// Fetches a copy of the bid stored under `bid_id`, if one exists.
    pub fn get_bid(&self, bid_id: u64) -> (r: Option<Bid>)
        ensures
            match r {
                Some(b) => bid_id < self.bids@.len() && b == self.bids@[bid_id as int],
                None => bid_id >= self.bids@.len(),
            },
    {
        if bid_id >= self.bids.len() as u64 {
            return None;
        }
        let i = bid_id as usize;
        let b = &self.bids[i];
        Some(Bid {
            src_nft_id: b.src_nft_id.clone(),
            amount: b.amount,
            start_at: b.start_at,
            lasts: b.lasts,
            origin_owner: b.origin_owner.clone(),
            bid_state: b.bid_state,
        })
    }

    /// The approval interface used by the authorized party outside this
    /// core: moves a bid forward from Pending to Approved. Any other state
    /// is rejected, so a bid can never move backward.
    pub fn approve_bid(&mut self, bid_id: u64) -> (r: Result<(), ContractError>)
        requires
            old(self).wf(),
        ensures
            final(self).wf(),
            bid_id >= old(self).bids@.len() ==> r == Err::<(), ContractError>(
                ContractError::BidNotFound,
            ) && *final(self) == *old(self),
            bid_id < old(self).bids@.len()
                && !(old(self).bids@[bid_id as int].bid_state is Pending) ==> r == Err::<
                (),
                ContractError,
            >(ContractError::InvalidBidState) && *final(self) == *old(self),
            bid_id < old(self).bids@.len()
                && old(self).bids@[bid_id as int].bid_state is Pending ==> {
                &&& r == Ok::<(), ContractError>(())
                &&& final(self).bids@ == old(self).bids@.update(
                    bid_id as int,
                    Bid {
                        bid_state: BidState::Approved,
                        ..old(self).bids@[bid_id as int]
                    },
                )
                &&& final(self).borrowers == old(self).borrowers
                &&& final(self).subjects == old(self).subjects
                &&& final(self).token_num == old(self).token_num
            },
    {
        if bid_id >= self.bids.len() as u64 {
            return Err(ContractError::BidNotFound);
        }
        let i = bid_id as usize;
        if self.bids[i].bid_state != BidState::Pending {
            return Err(ContractError::InvalidBidState);
        }
        let approved = Bid {
            src_nft_id: self.bids[i].src_nft_id.clone(),
            amount: self.bids[i].amount,
            start_at: self.bids[i].start_at,
            lasts: self.bids[i].lasts,
            origin_owner: self.bids[i].origin_owner.clone(),
            bid_state: BidState::Approved,
        };
        self.bids.set(i, approved);
        proof {
            assert forall|j: int|
                0 <= j < self.bids@.len() implies (#[trigger] self.bids@[j]).times_fit() by {
                assert(old(self).bids@[j].times_fit());
            }
            self.lemma_wf_after_bids_grow(*old(self));
        }
        Ok(())
    }
}

} // verus!
