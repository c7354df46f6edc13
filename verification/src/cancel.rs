//! Withdrawing a listing that nobody has bid on.

use vstd::prelude::*;
use crate::accounts::{Party, TokenAccount};
use crate::error::AuctionError;
use crate::escrow::EscrowAuthority;
use crate::instruction::{Authorization, CloseAccount, Instruction, Transfer};
use crate::plan::{Outcome, Plan, PlanView};
use crate::pubkey::Pubkey;
use crate::state::Auction;

verus! {

/// A request to cancel an auction.
#[derive(Clone, Copy, Debug, PartialEq, Eq)]
pub struct Cancel {
    /// Who cancels: the exhibitor.
    pub exhibitor: Party,
    /// The exhibitor's own account, which takes the asset back.
    pub exhibitor_nft_token_account: TokenAccount,
    /// The holding that keeps the asset in escrow.
    pub exhibitor_nft_temp_account: TokenAccount,
    /// The auction record.
    pub escrow_account: Auction,
}

impl Cancel {
    /// Why the cancellation is refused: the first of the checks, in this
    /// order, that fails; `None` where all of them pass.
    pub open spec fn rejection(self) -> Option<AuctionError> {
        let auction = self.escrow_account;
        if !self.exhibitor.is_signer {
            Some(AuctionError::Unauthorized)
        } else if auction.exhibitor_pubkey != self.exhibitor.key {
            Some(AuctionError::Unauthorized)
        } else if auction.highest_bidder_pubkey != self.exhibitor.key {
            Some(AuctionError::CancelAfterBidExists)
        } else if auction.exhibiting_nft_temp_pubkey != self.exhibitor_nft_temp_account.key {
            Some(AuctionError::AccountMismatch)
        } else {
            None
        }
    }

    /// The instruction that returns what the holding keeps to the exhibitor's
    /// own account.
    pub open spec fn return_instruction(self, escrow: EscrowAuthority) -> Instruction {
        Instruction::Transfer {
            accounts: Transfer {
                from: self.exhibitor_nft_temp_account.key,
                to: self.exhibitor_nft_token_account.key,
                authority: escrow.address,
            },
            amount: self.exhibitor_nft_temp_account.amount,
            signed_by: Authorization::Escrow { bump_seed: escrow.bump_seed },
        }
    }

    /// The instruction that closes the emptied holding.
    pub open spec fn release_instruction(self, escrow: EscrowAuthority) -> Instruction {
        Instruction::CloseAccount {
            accounts: CloseAccount {
                account: self.exhibitor_nft_temp_account.key,
                destination: self.exhibitor.key,
                authority: escrow.address,
            },
            signed_by: Authorization::Escrow { bump_seed: escrow.bump_seed },
        }
    }

    /// The instructions of an accepted cancellation: the asset goes back,
    /// then the holding is closed.
    pub open spec fn instructions(self, escrow: EscrowAuthority) -> Seq<Instruction> {
        seq![self.return_instruction(escrow), self.release_instruction(escrow)]
    }

    /// The plan of an accepted cancellation. The record is destroyed, and its
    /// storage deposit goes to the exhibitor.
    pub open spec fn planned(self, escrow: EscrowAuthority) -> PlanView {
        PlanView {
            instructions: self.instructions(escrow),
            outcome: Outcome::Destroyed { refund_to: self.exhibitor.key },
        }
    }

    /// The accounts of the return: from the holding to the exhibitor's own
    /// account, under the escrow authority.
    pub fn to_transfer_to_exhibitor_context(&self, escrow: &EscrowAuthority) -> (accounts: Transfer)
        ensures
            accounts == (Transfer {
                from: self.exhibitor_nft_temp_account.key,
                to: self.exhibitor_nft_token_account.key,
                authority: escrow.address,
            }),
    {
        Transfer {
            from: self.exhibitor_nft_temp_account.key,
            to: self.exhibitor_nft_token_account.key,
            authority: escrow.address,
        }
    }

    /// The accounts of the closure of the holding; the storage deposit goes
    /// to the exhibitor.
    pub fn to_close_context(&self, escrow: &EscrowAuthority) -> (accounts: CloseAccount)
        ensures
            accounts == (CloseAccount {
                account: self.exhibitor_nft_temp_account.key,
                destination: self.exhibitor.key,
                authority: escrow.address,
            }),
    {
        CloseAccount {
            account: self.exhibitor_nft_temp_account.key,
            destination: self.exhibitor.key,
            authority: escrow.address,
        }
    }

    /// Checks the cancellation against the record and the accounts that came
    /// with it.
    pub fn validate(&self) -> (r: Result<(), AuctionError>)
        ensures
            r == match self.rejection() {
                Some(e) => Err::<(), AuctionError>(e),
                None => Ok(()),
            },
    {
        let auction = &self.escrow_account;
        if !self.exhibitor.is_signer {
            return Err(AuctionError::Unauthorized);
        }
        if auction.exhibitor_pubkey != self.exhibitor.key {
            return Err(AuctionError::Unauthorized);
        }
        if auction.highest_bidder_pubkey != self.exhibitor.key {
            return Err(AuctionError::CancelAfterBidExists);
        }
        if auction.exhibiting_nft_temp_pubkey != self.exhibitor_nft_temp_account.key {
            return Err(AuctionError::AccountMismatch);
        }
        Ok(())
    }

    /// Decides a cancellation, given the escrow authority that the address
    /// derivation found for the engine.
    ///
    /// The cancellation is accepted exactly when every check passes and there
    /// is an escrow authority; no deadline applies.
    pub fn plan(&self, escrow: Option<EscrowAuthority>) -> (r: Result<Plan, AuctionError>)
        ensures
            r is Ok <==> self.rejection() is None && escrow is Some,
            r matches Ok(plan) ==> plan@ == self.planned(escrow.unwrap()),
            r matches Err(e) ==> e == match self.rejection() {
                Some(rejection) => rejection,
                None => AuctionError::EscrowAuthorityNotFound,
            },
    {
        match self.validate() {
            Err(e) => {
                return Err(e);
            },
            Ok(_) => {},
        }
        let escrow = match escrow {
            Some(escrow) => escrow,
            None => {
                return Err(AuctionError::EscrowAuthorityNotFound);
            },
        };
        let by_escrow = Authorization::Escrow { bump_seed: escrow.bump_seed };
        let mut instructions: Vec<Instruction> = Vec::new();
        instructions.push(
            Instruction::Transfer {
                accounts: self.to_transfer_to_exhibitor_context(&escrow),
                amount: self.exhibitor_nft_temp_account.amount,
                signed_by: by_escrow,
            },
        );
        instructions.push(
            Instruction::CloseAccount {
                accounts: self.to_close_context(&escrow),
                signed_by: by_escrow,
            },
        );
        assert(instructions@ =~= self.instructions(escrow));
        Ok(Plan { instructions, outcome: Outcome::Destroyed { refund_to: self.exhibitor.key } })
    }
}

/// Cancels an auction with the engine at `program_id`.
///
/// The engine presents its own escrow authority, derived from `program_id`;
/// for the rest see [`Cancel::plan`].
pub fn cancel(program_id: &Pubkey, accounts: &Cancel) -> (r: Result<Plan, AuctionError>)
    ensures
        r is Ok <==> accounts.rejection() is None && EscrowAuthority::of(*program_id) is Some,
        r matches Ok(plan) ==> plan@ == accounts.planned(EscrowAuthority::of(*program_id).unwrap()),
        r matches Err(e) ==> e == match accounts.rejection() {
            Some(rejection) => rejection,
            None => AuctionError::EscrowAuthorityNotFound,
        },
{
    let escrow = EscrowAuthority::find(program_id);
    accounts.plan(escrow)
}

} // verus!
