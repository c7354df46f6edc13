//! What an accepted operation asks for.

use vstd::prelude::*;
use crate::error::{AuctionError, LedgerError};
use crate::instruction::Instruction;
use crate::pubkey::Pubkey;
use crate::state::Auction;

verus! {

/// What becomes of the auction record when a plan has gone through.
#[derive(Clone, Copy, Debug, PartialEq, Eq)]
pub enum Outcome {
    /// The record is stored with this content.
    Recorded(Auction),
    /// The record is destroyed, and its storage deposit goes to `refund_to`.
    Destroyed { refund_to: Pubkey },
}

/// The answer to an accepted request: the ledger instructions to perform, in
/// this order and as one atomic unit, and what becomes of the record after
/// the last of them has succeeded.
#[derive(Debug, PartialEq, Eq)]
pub struct Plan {
    pub instructions: Vec<Instruction>,
    pub outcome: Outcome,
}

/// A plan as a mathematical value.
pub struct PlanView {
    pub instructions: Seq<Instruction>,
    pub outcome: Outcome,
}

impl View for Plan {
    type V = PlanView;

    open spec fn view(&self) -> PlanView {
        PlanView { instructions: self.instructions@, outcome: self.outcome }
    }
}

impl Plan {
    /// Decides what becomes of the record, given how the ledger answered the
    /// plan's instructions: the planned outcome where all of them succeeded,
    /// and the ledger's error, with the record left as it was, where one
    /// failed.
    pub fn commit(&self, ledger: Result<(), LedgerError>) -> (r: Result<Outcome, AuctionError>)
        ensures
            r == match ledger {
                Ok(_) => Ok::<Outcome, AuctionError>(self.outcome),
                Err(e) => Err(AuctionError::LedgerError(e)),
            },
    {
        match ledger {
            Ok(_) => Ok(self.outcome),
            Err(e) => Err(AuctionError::LedgerError(e)),
        }
    }
}

} // verus!
