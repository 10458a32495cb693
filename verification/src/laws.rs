//! Properties of the bid lifecycle that span more than one call, proved once
//! over the spec functions the operations' contracts are stated in.

use vstd::prelude::*;
use crate::settlement::{spec_bids_after_claim, spec_claim_check};
use crate::types::{Bid, ContractError};

verus! {

/// An id not yet in a list appears exactly once after being appended: at the
/// end, and nowhere else. Together with `offer_bid`'s postcondition that the
/// new id is fresh and appended to both index lists, this says a new bid's
/// id shows up exactly once in the caller's borrower list and once in the
/// subject's list, in append order.
pub proof fn lemma_fresh_append_once(ids: Seq<u64>, id: u64)
    requires
        !ids.contains(id),
    ensures
        ids.push(id).last() == id,
        forall|i: int|
            0 <= i < ids.push(id).len() && ids.push(id)[i] == id ==> i == ids.len(),
{
    assert forall|i: int|
        0 <= i < ids.push(id).len() && ids.push(id)[i] == id implies i == ids.len() by {
        if i < ids.len() {
            assert(ids[i] == id);
            assert(ids.contains(id));
        }
    }
}

/// A bid settles at most once: after a successful claim, a second claim of
/// the same bid id is always rejected with `InvalidBidState`, whatever
/// payment is attached.
pub proof fn lemma_no_second_claim(bids: Seq<Bid>, bid_id: u64, deposit: u128, deposit2: u128)
    requires
        spec_claim_check(bids, bid_id, deposit) is None,
    ensures
        spec_claim_check(spec_bids_after_claim(bids, bid_id), bid_id, deposit2)
            == Some(ContractError::InvalidBidState),
{
}

} // verus!
