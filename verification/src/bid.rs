//! Placing a bid.

use vstd::prelude::*;
use crate::accounts::{Clock, Party, TokenAccount};
use crate::error::AuctionError;
use crate::escrow::EscrowAuthority;
use crate::instruction::{Authorization, CloseAccount, Instruction, SetAuthority, Transfer};
use crate::plan::{Outcome, Plan, PlanView};
use crate::pubkey::Pubkey;
use crate::state::Auction;

verus! {

/// A request to place a bid.
#[derive(Clone, Copy, Debug, PartialEq, Eq)]
pub struct Bid {
    /// Who bids.
    pub bidder: Party,
    /// The holding, still the bidder's, that will keep the deposit in escrow.
    pub bidder_ft_temp_account: TokenAccount,
    /// The account that the deposit is taken from, and that it goes back to
    /// when the bidder is outbid.
    pub bidder_ft_account: TokenAccount,
    /// The leader to be outbid.
    pub highest_bidder: Party,
    /// The holding that keeps the leader's deposit.
    pub highest_bidder_ft_temp_account: TokenAccount,
    /// Where the leader's deposit is returned to.
    pub highest_bidder_ft_returning_account: TokenAccount,
    /// The auction record.
    pub escrow_account: Auction,
    /// The time of the request.
    pub clock: Clock,
}

impl Bid {
    /// Why a bid of `price` is refused: the first of the checks, in this
    /// order, that fails; `None` where all of them pass.
    pub open spec fn rejection(self, price: u64) -> Option<AuctionError> {
        let auction = self.escrow_account;
        if !self.bidder.is_signer {
            Some(AuctionError::Unauthorized)
        } else if self.bidder_ft_account.amount < price {
            Some(AuctionError::InsufficientFunds)
        } else if auction.highest_bidder_pubkey != self.highest_bidder.key {
            Some(AuctionError::AccountMismatch)
        } else if auction.highest_bidder_ft_temp_pubkey != self.highest_bidder_ft_temp_account.key {
            Some(AuctionError::AccountMismatch)
        } else if auction.highest_bidder_ft_returning_pubkey
            != self.highest_bidder_ft_returning_account.key {
            Some(AuctionError::RefundTargetMismatch)
        } else if price <= auction.price {
            Some(AuctionError::BidTooLow)
        } else if !auction.is_open_at(self.clock.unix_timestamp) {
            Some(AuctionError::AuctionExpired)
        } else {
            None
        }
    }

    /// Whether a bid of `price` passes every check but that of the deadline:
    /// the bidder signed and can pay, the accounts of the leader are those on
    /// record, and the price is above the recorded one.
    pub open spec fn passes_record_checks(self, price: u64) -> bool {
        let auction = self.escrow_account;
        &&& self.bidder.is_signer
        &&& self.bidder_ft_account.amount >= price
        &&& auction.highest_bidder_pubkey == self.highest_bidder.key
        &&& auction.highest_bidder_ft_temp_pubkey == self.highest_bidder_ft_temp_account.key
        &&& auction.highest_bidder_ft_returning_pubkey
            == self.highest_bidder_ft_returning_account.key
        &&& price > auction.price
    }

    /// The record after a bid of `price` has been accepted.
    pub open spec fn next_record(self, price: u64) -> Auction {
        Auction {
            price,
            highest_bidder_pubkey: self.bidder.key,
            highest_bidder_ft_temp_pubkey: self.bidder_ft_temp_account.key,
            highest_bidder_ft_returning_pubkey: self.bidder_ft_account.key,
            ..self.escrow_account
        }
    }

    /// The instruction that returns the outgoing leader's deposit, the
    /// recorded price, to the leader's refund account.
    pub open spec fn refund_instruction(self, escrow: EscrowAuthority) -> Instruction {
        Instruction::Transfer {
            accounts: Transfer {
                from: self.highest_bidder_ft_temp_account.key,
                to: self.highest_bidder_ft_returning_account.key,
                authority: escrow.address,
            },
            amount: self.escrow_account.price,
            signed_by: Authorization::Escrow { bump_seed: escrow.bump_seed },
        }
    }

    /// The instruction that closes the outgoing leader's emptied holding.
    pub open spec fn release_instruction(self, escrow: EscrowAuthority) -> Instruction {
        Instruction::CloseAccount {
            accounts: CloseAccount {
                account: self.highest_bidder_ft_temp_account.key,
                destination: self.highest_bidder.key,
                authority: escrow.address,
            },
            signed_by: Authorization::Escrow { bump_seed: escrow.bump_seed },
        }
    }

    /// The instruction that puts the bidder's holding under the escrow
    /// authority.
    pub open spec fn custody_instruction(self, escrow: EscrowAuthority) -> Instruction {
        Instruction::SetAuthority {
            accounts: SetAuthority {
                current_authority: self.bidder.key,
                account_or_mint: self.bidder_ft_temp_account.key,
            },
            new_authority: escrow.address,
            signed_by: Authorization::Caller,
        }
    }

    /// The instruction that moves the bid into the holding.
    pub open spec fn deposit_instruction(self, price: u64) -> Instruction {
        Instruction::Transfer {
            accounts: Transfer {
                from: self.bidder_ft_account.key,
                to: self.bidder_ft_temp_account.key,
                authority: self.bidder.key,
            },
            amount: price,
            signed_by: Authorization::Caller,
        }
    }

    /// The instructions of an accepted bid of `price`. Where a bid is on
    /// record, the outgoing leader is refunded and the old holding closed
    /// first; then the new holding is taken into custody and the bid moved
    /// into it.
    pub open spec fn instructions(self, escrow: EscrowAuthority, price: u64) -> Seq<Instruction> {
        let accept = seq![self.custody_instruction(escrow), self.deposit_instruction(price)];
        if self.escrow_account.has_bid() {
            seq![self.refund_instruction(escrow), self.release_instruction(escrow)] + accept
        } else {
            accept
        }
    }

    /// The plan of an accepted bid of `price`.
    pub open spec fn planned(self, escrow: EscrowAuthority, price: u64) -> PlanView {
        PlanView {
            instructions: self.instructions(escrow, price),
            outcome: Outcome::Recorded(self.next_record(price)),
        }
    }

    /// The accounts of the custody change: the bidder hands over the new
    /// holding.
    pub fn to_set_authority_context(&self) -> (accounts: SetAuthority)
        ensures
            accounts == (SetAuthority {
                current_authority: self.bidder.key,
                account_or_mint: self.bidder_ft_temp_account.key,
            }),
    {
        SetAuthority {
            account_or_mint: self.bidder_ft_temp_account.key,
            current_authority: self.bidder.key,
        }
    }

    /// The accounts of the closure of the outgoing leader's holding; the
    /// storage deposit goes to that leader.
    pub fn to_close_context(&self, escrow: &EscrowAuthority) -> (accounts: CloseAccount)
        ensures
            accounts == (CloseAccount {
                account: self.highest_bidder_ft_temp_account.key,
                destination: self.highest_bidder.key,
                authority: escrow.address,
            }),
    {
        CloseAccount {
            account: self.highest_bidder_ft_temp_account.key,
            destination: self.highest_bidder.key,
            authority: escrow.address,
        }
    }

    /// The accounts of the refund: from the outgoing leader's holding to the
    /// leader's refund account, under the escrow authority.
    pub fn to_transfer_to_previous_bidder_context(&self, escrow: &EscrowAuthority) -> (accounts:
        Transfer)
        ensures
            accounts == (Transfer {
                from: self.highest_bidder_ft_temp_account.key,
                to: self.highest_bidder_ft_returning_account.key,
                authority: escrow.address,
            }),
    {
        Transfer {
            from: self.highest_bidder_ft_temp_account.key,
            to: self.highest_bidder_ft_returning_account.key,
            authority: escrow.address,
        }
    }

    /// The accounts of the deposit: from the bidder's account to the new
    /// holding, under the bidder's authority.
    pub fn to_transfer_to_pda_context(&self) -> (accounts: Transfer)
        ensures
            accounts == (Transfer {
                from: self.bidder_ft_account.key,
                to: self.bidder_ft_temp_account.key,
                authority: self.bidder.key,
            }),
    {
        Transfer {
            from: self.bidder_ft_account.key,
            to: self.bidder_ft_temp_account.key,
            authority: self.bidder.key,
        }
    }

    /// Checks a bid of `price` against the record and the accounts that came
    /// with it.
    pub fn validate(&self, price: u64) -> (r: Result<(), AuctionError>)
        ensures
            r == match self.rejection(price) {
                Some(e) => Err::<(), AuctionError>(e),
                None => Ok(()),
            },
    {
        let auction = &self.escrow_account;
        if !self.bidder.is_signer {
            return Err(AuctionError::Unauthorized);
        }
        if self.bidder_ft_account.amount < price {
            return Err(AuctionError::InsufficientFunds);
        }
        if auction.highest_bidder_pubkey != self.highest_bidder.key {
            return Err(AuctionError::AccountMismatch);
        }
        if auction.highest_bidder_ft_temp_pubkey != self.highest_bidder_ft_temp_account.key {
            return Err(AuctionError::AccountMismatch);
        }
        if auction.highest_bidder_ft_returning_pubkey
            != self.highest_bidder_ft_returning_account.key {
            return Err(AuctionError::RefundTargetMismatch);
        }
        if price <= auction.price {
            return Err(AuctionError::BidTooLow);
        }
        if self.clock.unix_timestamp >= auction.end_at {
            return Err(AuctionError::AuctionExpired);
        }
        Ok(())
    }

    /// Decides a bid of `price`, given the escrow authority that the address
    /// derivation found for the engine.
    ///
    /// The bid is accepted exactly when every check passes and there is an
    /// escrow authority. The plan then refunds the outgoing leader, if there
    /// is one, before it takes the new deposit, and records the bidder as the
    /// leader at `price`.
    pub fn plan(&self, escrow: Option<EscrowAuthority>, price: u64) -> (r: Result<
        Plan,
        AuctionError,
    >)
        ensures
            r is Ok <==> self.rejection(price) is None && escrow is Some,
            r matches Ok(plan) ==> plan@ == self.planned(escrow.unwrap(), price),
            r matches Err(e) ==> e == match self.rejection(price) {
                Some(rejection) => rejection,
                None => AuctionError::EscrowAuthorityNotFound,
            },
    {
        match self.validate(price) {
            Err(e) => {
                return Err(e);
            },
            Ok(_) => {},
        }
        let escrow = match escrow {
            Some(escrow) => escrow,
            None => {
                return Err(AuctionError::EscrowAuthorityNotFound);
            },
        };
        let by_escrow = Authorization::Escrow { bump_seed: escrow.bump_seed };
        let mut instructions: Vec<Instruction> = Vec::new();
        if self.escrow_account.bid_exists() {
            instructions.push(
                Instruction::Transfer {
                    accounts: self.to_transfer_to_previous_bidder_context(&escrow),
                    amount: self.escrow_account.price,
                    signed_by: by_escrow,
                },
            );
            instructions.push(
                Instruction::CloseAccount {
                    accounts: self.to_close_context(&escrow),
                    signed_by: by_escrow,
                },
            );
        }
        instructions.push(
            Instruction::SetAuthority {
                accounts: self.to_set_authority_context(),
                new_authority: escrow.address,
                signed_by: Authorization::Caller,
            },
        );
        instructions.push(
            Instruction::Transfer {
                accounts: self.to_transfer_to_pda_context(),
                amount: price,
                signed_by: Authorization::Caller,
            },
        );
        let mut escrow_account = self.escrow_account;
        escrow_account.price = price;
        escrow_account.highest_bidder_pubkey = self.bidder.key;
        escrow_account.highest_bidder_ft_temp_pubkey = self.bidder_ft_temp_account.key;
        escrow_account.highest_bidder_ft_returning_pubkey = self.bidder_ft_account.key;
        assert(instructions@ =~= self.instructions(escrow, price));
        Ok(Plan { instructions, outcome: Outcome::Recorded(escrow_account) })
    }
}

/// Places a bid of `price` with the engine at `program_id`.
///
/// The engine presents its own escrow authority, derived from `program_id`;
/// for the rest see [`Bid::plan`].
pub fn bid(program_id: &Pubkey, accounts: &Bid, price: u64) -> (r: Result<Plan, AuctionError>)
    ensures
        r is Ok <==> accounts.rejection(price) is None && EscrowAuthority::of(*program_id) is Some,
        r matches Ok(plan) ==> plan@ == accounts.planned(
            EscrowAuthority::of(*program_id).unwrap(),
            price,
        ),
        r matches Err(e) ==> e == match accounts.rejection(price) {
            Some(rejection) => rejection,
            None => AuctionError::EscrowAuthorityNotFound,
        },
{
    let escrow = EscrowAuthority::find(program_id);
    accounts.plan(escrow, price)
}

} // verus!
