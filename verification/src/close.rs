//! Settling an auction after its deadline.

use vstd::prelude::*;
use crate::accounts::{Clock, Party, TokenAccount};
use crate::error::AuctionError;
use crate::escrow::EscrowAuthority;
use crate::instruction::{Authorization, CloseAccount, Instruction, Transfer};
use crate::plan::{Outcome, Plan, PlanView};
use crate::pubkey::Pubkey;
use crate::state::Auction;

verus! {

/// A request to close an auction.
#[derive(Clone, Copy, Debug, PartialEq, Eq)]
pub struct Close {
    /// The winner, who takes the asset. The close asks for no signature.
    pub winning_bidder: Party,
    /// The exhibitor.
    pub exhibitor: Party,
    /// The holding that keeps the asset in escrow.
    pub exhibitor_nft_temp_account: TokenAccount,
    /// The exhibitor's account, which takes the payment.
    pub exhibitor_ft_receiving_account: TokenAccount,
    /// The holding that keeps the winning deposit in escrow.
    pub highest_bidder_ft_temp_account: TokenAccount,
    /// The winner's account, which takes the asset.
    pub highest_bidder_nft_receiving_account: TokenAccount,
    /// The auction record.
    pub escrow_account: Auction,
    /// The time of the request.
    pub clock: Clock,
}

impl Close {
    /// Why the close is refused: the first of the checks, in this order, that
    /// fails; `None` where all of them pass. A record without a bid names no
    /// winner, so no request matches it.
    pub open spec fn rejection(self) -> Option<AuctionError> {
        let auction = self.escrow_account;
        if auction.exhibitor_pubkey != self.exhibitor.key {
            Some(AuctionError::AccountMismatch)
        } else if auction.exhibiting_nft_temp_pubkey != self.exhibitor_nft_temp_account.key {
            Some(AuctionError::AccountMismatch)
        } else if auction.exhibitor_ft_receiving_pubkey != self.exhibitor_ft_receiving_account.key {
            Some(AuctionError::AccountMismatch)
        } else if auction.highest_bidder_pubkey != self.winning_bidder.key {
            Some(AuctionError::AccountMismatch)
        } else if auction.highest_bidder_ft_temp_pubkey != self.highest_bidder_ft_temp_account.key {
            Some(AuctionError::AccountMismatch)
        } else if !auction.has_bid() {
            Some(AuctionError::AccountMismatch)
        } else if auction.is_open_at(self.clock.unix_timestamp) {
            Some(AuctionError::AuctionStillOpen)
        } else {
            None
        }
    }

    /// Whether the close matches the record, which is every check but that
    /// of the deadline: a bid is on record, and the parties and holdings are
    /// those on record.
    pub open spec fn passes_record_checks(self) -> bool {
        let auction = self.escrow_account;
        &&& auction.exhibitor_pubkey == self.exhibitor.key
        &&& auction.exhibiting_nft_temp_pubkey == self.exhibitor_nft_temp_account.key
        &&& auction.exhibitor_ft_receiving_pubkey == self.exhibitor_ft_receiving_account.key
        &&& auction.highest_bidder_pubkey == self.winning_bidder.key
        &&& auction.highest_bidder_ft_temp_pubkey == self.highest_bidder_ft_temp_account.key
        &&& auction.has_bid()
    }

    /// The instruction that hands what the asset holding keeps to the winner.
    pub open spec fn delivery_instruction(self, escrow: EscrowAuthority) -> Instruction {
        Instruction::Transfer {
            accounts: Transfer {
                from: self.exhibitor_nft_temp_account.key,
                to: self.highest_bidder_nft_receiving_account.key,
                authority: escrow.address,
            },
            amount: self.exhibitor_nft_temp_account.amount,
            signed_by: Authorization::Escrow { bump_seed: escrow.bump_seed },
        }
    }

    /// The instruction that pays what the deposit holding keeps to the
    /// exhibitor.
    pub open spec fn payment_instruction(self, escrow: EscrowAuthority) -> Instruction {
        Instruction::Transfer {
            accounts: Transfer {
                from: self.highest_bidder_ft_temp_account.key,
                to: self.exhibitor_ft_receiving_account.key,
                authority: escrow.address,
            },
            amount: self.highest_bidder_ft_temp_account.amount,
            signed_by: Authorization::Escrow { bump_seed: escrow.bump_seed },
        }
    }

    /// The instruction that closes the emptied deposit holding; its storage
    /// deposit goes to the winner.
    pub open spec fn release_deposit_instruction(self, escrow: EscrowAuthority) -> Instruction {
        Instruction::CloseAccount {
            accounts: CloseAccount {
                account: self.highest_bidder_ft_temp_account.key,
                destination: self.winning_bidder.key,
                authority: escrow.address,
            },
            signed_by: Authorization::Escrow { bump_seed: escrow.bump_seed },
        }
    }

    /// The instruction that closes the emptied asset holding; its storage
    /// deposit goes to the exhibitor.
    pub open spec fn release_asset_instruction(self, escrow: EscrowAuthority) -> Instruction {
        Instruction::CloseAccount {
            accounts: CloseAccount {
                account: self.exhibitor_nft_temp_account.key,
                destination: self.exhibitor.key,
                authority: escrow.address,
            },
            signed_by: Authorization::Escrow { bump_seed: escrow.bump_seed },
        }
    }

    /// The instructions of an accepted close: both transfers, then both
    /// closures.
    pub open spec fn instructions(self, escrow: EscrowAuthority) -> Seq<Instruction> {
        seq![
            self.delivery_instruction(escrow),
            self.payment_instruction(escrow),
            self.release_deposit_instruction(escrow),
            self.release_asset_instruction(escrow),
        ]
    }

    /// The plan of an accepted close. The record is destroyed, and its
    /// storage deposit goes to the exhibitor.
    pub open spec fn planned(self, escrow: EscrowAuthority) -> PlanView {
        PlanView {
            instructions: self.instructions(escrow),
            outcome: Outcome::Destroyed { refund_to: self.exhibitor.key },
        }
    }

    /// The accounts of the payment: from the deposit holding to the
    /// exhibitor's account, under the escrow authority.
    pub fn to_transfer_to_exhibitor_context(&self, escrow: &EscrowAuthority) -> (accounts: Transfer)
        ensures
            accounts == (Transfer {
                from: self.highest_bidder_ft_temp_account.key,
                to: self.exhibitor_ft_receiving_account.key,
                authority: escrow.address,
            }),
    {
        Transfer {
            from: self.highest_bidder_ft_temp_account.key,
            to: self.exhibitor_ft_receiving_account.key,
            authority: escrow.address,
        }
    }

    /// The accounts of the delivery: from the asset holding to the winner's
    /// account, under the escrow authority.
    pub fn to_transfer_to_highest_bidder_context(&self, escrow: &EscrowAuthority) -> (accounts:
        Transfer)
        ensures
            accounts == (Transfer {
                from: self.exhibitor_nft_temp_account.key,
                to: self.highest_bidder_nft_receiving_account.key,
                authority: escrow.address,
            }),
    {
        Transfer {
            from: self.exhibitor_nft_temp_account.key,
            to: self.highest_bidder_nft_receiving_account.key,
            authority: escrow.address,
        }
    }

    /// The accounts of the closure of the deposit holding.
    pub fn to_close_ft_context(&self, escrow: &EscrowAuthority) -> (accounts: CloseAccount)
        ensures
            accounts == (CloseAccount {
                account: self.highest_bidder_ft_temp_account.key,
                destination: self.winning_bidder.key,
                authority: escrow.address,
            }),
    {
        CloseAccount {
            account: self.highest_bidder_ft_temp_account.key,
            destination: self.winning_bidder.key,
            authority: escrow.address,
        }
    }

    /// The accounts of the closure of the asset holding.
    pub fn to_close_nft_context(&self, escrow: &EscrowAuthority) -> (accounts: CloseAccount)
        ensures
            accounts == (CloseAccount {
                account: self.exhibitor_nft_temp_account.key,
                destination: self.exhibitor.key,
                authority: escrow.address,
            }),
    {
        CloseAccount {
            account: self.exhibitor_nft_temp_account.key,
            destination: self.exhibitor.key,
            authority: escrow.address,
        }
    }

    /// Checks the close against the record and the accounts that came with
    /// it.
    pub fn validate(&self) -> (r: Result<(), AuctionError>)
        ensures
            r == match self.rejection() {
                Some(e) => Err::<(), AuctionError>(e),
                None => Ok(()),
            },
    {
        let auction = &self.escrow_account;
        if auction.exhibitor_pubkey != self.exhibitor.key {
            return Err(AuctionError::AccountMismatch);
        }
        if auction.exhibiting_nft_temp_pubkey != self.exhibitor_nft_temp_account.key {
            return Err(AuctionError::AccountMismatch);
        }
        if auction.exhibitor_ft_receiving_pubkey != self.exhibitor_ft_receiving_account.key {
            return Err(AuctionError::AccountMismatch);
        }
        if auction.highest_bidder_pubkey != self.winning_bidder.key {
            return Err(AuctionError::AccountMismatch);
        }
        if auction.highest_bidder_ft_temp_pubkey != self.highest_bidder_ft_temp_account.key {
            return Err(AuctionError::AccountMismatch);
        }
        if !auction.bid_exists() {
            return Err(AuctionError::AccountMismatch);
        }
        if self.clock.unix_timestamp < auction.end_at {
            return Err(AuctionError::AuctionStillOpen);
        }
        Ok(())
    }

    /// Decides a close, given the escrow authority that the address
    /// derivation found for the engine.
    ///
    /// The close is accepted exactly when every check passes and there is an
    /// escrow authority. The plan hands the asset to the winner and the
    /// deposit to the exhibitor before it closes either holding.
    pub fn plan(&self, escrow: Option<EscrowAuthority>) -> (r: Result<Plan, AuctionError>)
        ensures
            r is Ok <==> self.rejection() is None && escrow is Some,
            r matches Ok(plan) ==> plan@ == self.planned(escrow.unwrap()),
            r matches Err(e) ==> e == match self.rejection() {
                Some(rejection) => rejection,
                None => AuctionError::EscrowAuthorityNotFound,
            },
    {
        match self.validate() {
            Err(e) => {
                return Err(e);
            },
            Ok(_) => {},
        }
        let escrow = match escrow {
            Some(escrow) => escrow,
            None => {
                return Err(AuctionError::EscrowAuthorityNotFound);
            },
        };
        let by_escrow = Authorization::Escrow { bump_seed: escrow.bump_seed };
        let mut instructions: Vec<Instruction> = Vec::new();
        instructions.push(
            Instruction::Transfer {
                accounts: self.to_transfer_to_highest_bidder_context(&escrow),
                amount: self.exhibitor_nft_temp_account.amount,
                signed_by: by_escrow,
            },
        );
        instructions.push(
            Instruction::Transfer {
                accounts: self.to_transfer_to_exhibitor_context(&escrow),
                amount: self.highest_bidder_ft_temp_account.amount,
                signed_by: by_escrow,
            },
        );
        instructions.push(
            Instruction::CloseAccount {
                accounts: self.to_close_ft_context(&escrow),
                signed_by: by_escrow,
            },
        );
        instructions.push(
            Instruction::CloseAccount {
                accounts: self.to_close_nft_context(&escrow),
                signed_by: by_escrow,
            },
        );
        assert(instructions@ =~= self.instructions(escrow));
        Ok(Plan { instructions, outcome: Outcome::Destroyed { refund_to: self.exhibitor.key } })
    }
}

/// Closes an auction with the engine at `program_id`.
///
/// The engine presents its own escrow authority, derived from `program_id`;
/// for the rest see [`Close::plan`].
pub fn close(program_id: &Pubkey, accounts: &Close) -> (r: Result<Plan, AuctionError>)
    ensures
        r is Ok <==> accounts.rejection() is None && EscrowAuthority::of(*program_id) is Some,
        r matches Ok(plan) ==> plan@ == accounts.planned(EscrowAuthority::of(*program_id).unwrap()),
        r matches Err(e) ==> e == match accounts.rejection() {
            Some(rejection) => rejection,
            None => AuctionError::EscrowAuthorityNotFound,
        },
{
    let escrow = EscrowAuthority::find(program_id);
    accounts.plan(escrow)
}

} // verus!
