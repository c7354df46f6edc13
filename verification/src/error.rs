//! Why an operation was refused.

use vstd::prelude::*;

verus! {

/// A failure reported by the ledger while it performed a plan. The engine
/// passes it on unchanged.
#[derive(Clone, Copy, Debug, PartialEq, Eq, Structural)]
pub struct LedgerError {
    pub code: u64,
}

/// The ways in which an operation fails.
#[derive(Clone, Copy, Debug, PartialEq, Eq, Structural)]
pub enum AuctionError {
    /// A party that has to authorize the call did not sign it, or the caller
    /// is not the party that the record names.
    Unauthorized,
    /// The account that the asset is listed from does not hold exactly one
    /// unit.
    InvalidAssetSupply,
    /// A bid arrived at or after the deadline.
    AuctionExpired,
    /// The auction was to be closed before its deadline.
    AuctionStillOpen,
    /// A bid was not strictly greater than the current price.
    BidTooLow,
    /// The bidder's source account holds less than the bid.
    InsufficientFunds,
    /// The account offered for the leader's refund is not the one on record.
    RefundTargetMismatch,
    /// An identity or holding offered with the request is not the one on
    /// record.
    AccountMismatch,
    /// The exhibitor tried to cancel after a bid had been recorded.
    CancelAfterBidExists,
    /// The engine has no escrow authority: the address derivation found none.
    EscrowAuthorityNotFound,
    /// The ledger failed while it performed the plan.
    LedgerError(LedgerError),
}

} // verus!
