//! A collateralized bidding and settlement library.
//!
//! A borrower posts a fixed refundable endorsement deposit to register a bid
//! against a subject asset. Once a bid has been approved, the borrower
//! finalizes it by depositing the full bid amount, which settles the bid in
//! one step: the asset owner is paid, a time-bounded token is minted to the
//! borrower, and the surplus plus the original endorsement is refunded.
//!
//! The host that executes calls is expected to serialize them; value
//! transfers are returned as explicit pending-transfer records for the host
//! to execute at the call's transaction boundary.

pub mod contract;
pub mod index;
pub mod laws;
pub mod lifecycle;
pub mod settlement;
pub mod token;
pub mod types;
