//! What the engine reads of the accounts that come with a request.

use vstd::prelude::*;
use crate::pubkey::Pubkey;

verus! {

/// A party to an operation: its identity, and whether it signed the call.
#[derive(Clone, Copy, Debug, PartialEq, Eq)]
pub struct Party {
    pub key: Pubkey,
    pub is_signer: bool,
}

/// A token account as the ledger showed it when the request was made: its
/// location and its balance.
#[derive(Clone, Copy, Debug, PartialEq, Eq)]
pub struct TokenAccount {
    pub key: Pubkey,
    pub amount: u64,
}

/// The ledger's clock reading when the request was made, in seconds.
#[derive(Clone, Copy, Debug, PartialEq, Eq, Structural)]
pub struct Clock {
    pub unix_timestamp: i64,
}

} // verus!
