//! The artifacts a successful claim produces: the minted token with its
//! validity-window metadata, and the pending value transfers the host is to
//! execute at the call's transaction boundary.

use vstd::prelude::*;
use crate::types::AccountId;

verus! {

/// Metadata embedded in a minted token. Timestamps are nanosecond-resolution.
pub struct TokenMetadata {
    /// Fixed display title given to every minted token.
    pub title: String,
    /// The subject asset identifier the token represents.
    pub description: String,
    /// When the token was minted: the chain time of the claim.
    pub issued_at: u64,
    /// Start of the validity window.
    pub starts_at: u64,
    /// End of the validity window.
    pub expires_at: u64,
}

/// A minted token: the borrower's time-bounded right over the subject asset.
pub struct Token {
    /// Sequential identifier, assigned from the monotonic token counter.
    pub token_id: u64,
    /// The account the token was minted to.
    pub owner_id: AccountId,
    pub metadata: TokenMetadata,
}

/// A value transfer for the host to execute: `amount` of the ledger's native
/// currency to `receiver`.
pub struct Transfer {
    pub receiver: AccountId,
    pub amount: u128,
}

/// Everything a successful claim settles: the minted token, the payment owed
/// to the asset owner, and the refund owed to the caller.
pub struct Settlement {
    pub token: Token,
    /// Pays the bid amount to the subject asset's owner.
    pub owner_payment: Transfer,
    /// Returns the endorsement plus any overpayment to the caller.
    pub refund: Transfer,
}

/// The fixed title carried by every minted token.
pub open spec fn spec_token_title() -> Seq<char> {
    "NFT NEVER SLEEP"@
}

/// Builds the fixed token title.
pub fn token_title() -> (r: String)
    ensures
        r@ == spec_token_title(),
{
    "NFT NEVER SLEEP".to_owned()
}

} // verus!
