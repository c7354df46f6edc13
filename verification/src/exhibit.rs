//! Listing an asset.

use vstd::prelude::*;
use crate::accounts::{Clock, Party, TokenAccount};
use crate::error::AuctionError;
use crate::escrow::EscrowAuthority;
use crate::instruction::{Authorization, Instruction, SetAuthority, Transfer};
use crate::plan::{Outcome, Plan, PlanView};
use crate::pubkey::Pubkey;
use crate::state::Auction;

verus! {

/// A request to list an asset for auction.
#[derive(Clone, Copy, Debug, PartialEq, Eq)]
pub struct Exhibit {
    /// Who lists the asset.
    pub exhibitor: Party,
    /// The account that the asset is listed from.
    pub exhibitor_nft_token_account: TokenAccount,
    /// The holding, still the exhibitor's, that will keep the asset in escrow.
    pub exhibitor_nft_temp_account: TokenAccount,
    /// Where the winning payment is to go.
    pub exhibitor_ft_receiving_account: TokenAccount,
    /// The time of the request.
    pub clock: Clock,
}

impl Exhibit {
    /// Why the listing is refused: the first of the checks, in this order,
    /// that fails; `None` where all of them pass.
    pub open spec fn rejection(self) -> Option<AuctionError> {
        if !self.exhibitor.is_signer {
            Some(AuctionError::Unauthorized)
        } else if self.exhibitor_nft_token_account.amount != 1 {
            Some(AuctionError::InvalidAssetSupply)
        } else {
            None
        }
    }

    /// The deadline of an auction that is listed now and runs for
    /// `auction_duration_sec` seconds.
    pub open spec fn deadline(self, auction_duration_sec: u64) -> int {
        self.clock.unix_timestamp + auction_duration_sec
    }

    /// The record that the listing creates: the starting price, the deadline,
    /// and the exhibitor standing in for the leader.
    pub open spec fn new_record(self, initial_price: u64, auction_duration_sec: u64) -> Auction {
        Auction {
            exhibitor_pubkey: self.exhibitor.key,
            exhibiting_nft_temp_pubkey: self.exhibitor_nft_temp_account.key,
            exhibitor_ft_receiving_pubkey: self.exhibitor_ft_receiving_account.key,
            price: initial_price,
            end_at: self.deadline(auction_duration_sec) as i64,
            highest_bidder_pubkey: self.exhibitor.key,
            highest_bidder_ft_temp_pubkey: self.exhibitor_ft_receiving_account.key,
            highest_bidder_ft_returning_pubkey: self.exhibitor_ft_receiving_account.key,
        }
    }

    /// The instruction that puts the holding under the escrow authority.
    pub open spec fn custody_instruction(self, escrow: EscrowAuthority) -> Instruction {
        Instruction::SetAuthority {
            accounts: SetAuthority {
                current_authority: self.exhibitor.key,
                account_or_mint: self.exhibitor_nft_temp_account.key,
            },
            new_authority: escrow.address,
            signed_by: Authorization::Caller,
        }
    }

    /// The instruction that moves the one unit of the asset into the holding.
    pub open spec fn deposit_instruction(self) -> Instruction {
        Instruction::Transfer {
            accounts: Transfer {
                from: self.exhibitor_nft_token_account.key,
                to: self.exhibitor_nft_temp_account.key,
                authority: self.exhibitor.key,
            },
            amount: 1,
            signed_by: Authorization::Caller,
        }
    }

    /// The instructions of an accepted listing: the holding is taken into
    /// custody, then the asset is moved into it.
    pub open spec fn instructions(self, escrow: EscrowAuthority) -> Seq<Instruction> {
        seq![self.custody_instruction(escrow), self.deposit_instruction()]
    }

    /// The plan of an accepted listing.
    pub open spec fn planned(
        self,
        escrow: EscrowAuthority,
        initial_price: u64,
        auction_duration_sec: u64,
    ) -> PlanView {
        PlanView {
            instructions: self.instructions(escrow),
            outcome: Outcome::Recorded(self.new_record(initial_price, auction_duration_sec)),
        }
    }

    /// The accounts of the deposit: from the exhibitor's account to the
    /// holding, under the exhibitor's authority.
    pub fn to_transfer_to_pda_context(&self) -> (accounts: Transfer)
        ensures
            accounts == (Transfer {
                from: self.exhibitor_nft_token_account.key,
                to: self.exhibitor_nft_temp_account.key,
                authority: self.exhibitor.key,
            }),
    {
        Transfer {
            from: self.exhibitor_nft_token_account.key,
            to: self.exhibitor_nft_temp_account.key,
            authority: self.exhibitor.key,
        }
    }

    /// The accounts of the custody change: the exhibitor hands over the
    /// holding.
    pub fn to_set_authority_context(&self) -> (accounts: SetAuthority)
        ensures
            accounts == (SetAuthority {
                current_authority: self.exhibitor.key,
                account_or_mint: self.exhibitor_nft_temp_account.key,
            }),
    {
        SetAuthority {
            account_or_mint: self.exhibitor_nft_temp_account.key,
            current_authority: self.exhibitor.key,
        }
    }

    /// Checks the listing against the accounts that came with it.
    pub fn validate(&self) -> (r: Result<(), AuctionError>)
        ensures
            r == match self.rejection() {
                Some(e) => Err::<(), AuctionError>(e),
                None => Ok(()),
            },
    {
        if !self.exhibitor.is_signer {
            return Err(AuctionError::Unauthorized);
        }
        if self.exhibitor_nft_token_account.amount != 1 {
            return Err(AuctionError::InvalidAssetSupply);
        }
        Ok(())
    }

    /// Decides a listing at `initial_price` for `auction_duration_sec`
    /// seconds, given the escrow authority that the address derivation found
    /// for the engine.
    ///
    /// The listing is accepted exactly when every check passes and there is
    /// an escrow authority. The deadline has to fit the record's clock.
    pub fn plan(
        &self,
        escrow: Option<EscrowAuthority>,
        initial_price: u64,
        auction_duration_sec: u64,
    ) -> (r: Result<Plan, AuctionError>)
        requires
            self.deadline(auction_duration_sec) <= i64::MAX,
        ensures
            r is Ok <==> self.rejection() is None && escrow is Some,
            r matches Ok(plan) ==> plan@ == self.planned(
                escrow.unwrap(),
                initial_price,
                auction_duration_sec,
            ),
            r matches Err(e) ==> e == match self.rejection() {
                Some(rejection) => rejection,
                None => AuctionError::EscrowAuthorityNotFound,
            },
    {
        match self.validate() {
            Err(e) => {
                return Err(e);
            },
            Ok(_) => {},
        }
        let escrow = match escrow {
            Some(escrow) => escrow,
            None => {
                return Err(AuctionError::EscrowAuthorityNotFound);
            },
        };
        let end_at: i128 = self.clock.unix_timestamp as i128 + auction_duration_sec as i128;
        let escrow_account = Auction {
            exhibitor_pubkey: self.exhibitor.key,
            exhibiting_nft_temp_pubkey: self.exhibitor_nft_temp_account.key,
            exhibitor_ft_receiving_pubkey: self.exhibitor_ft_receiving_account.key,
            price: initial_price,
            end_at: end_at as i64,
            highest_bidder_pubkey: self.exhibitor.key,
            highest_bidder_ft_temp_pubkey: self.exhibitor_ft_receiving_account.key,
            highest_bidder_ft_returning_pubkey: self.exhibitor_ft_receiving_account.key,
        };
        let mut instructions: Vec<Instruction> = Vec::new();
        instructions.push(
            Instruction::SetAuthority {
                accounts: self.to_set_authority_context(),
                new_authority: escrow.address,
                signed_by: Authorization::Caller,
            },
        );
        instructions.push(
            Instruction::Transfer {
                accounts: self.to_transfer_to_pda_context(),
                amount: 1,
                signed_by: Authorization::Caller,
            },
        );
        assert(instructions@ =~= self.instructions(escrow));
        Ok(Plan { instructions, outcome: Outcome::Recorded(escrow_account) })
    }
}

/// Lists an asset with the engine at `program_id`, at `initial_price` and for
/// `auction_duration_sec` seconds.
///
/// The engine presents its own escrow authority, derived from `program_id`;
/// for the rest see [`Exhibit::plan`].
pub fn exhibit(
    program_id: &Pubkey,
    accounts: &Exhibit,
    initial_price: u64,
    auction_duration_sec: u64,
) -> (r: Result<Plan, AuctionError>)
    requires
        accounts.deadline(auction_duration_sec) <= i64::MAX,
    ensures
        r is Ok <==> accounts.rejection() is None && EscrowAuthority::of(*program_id) is Some,
        r matches Ok(plan) ==> plan@ == accounts.planned(
            EscrowAuthority::of(*program_id).unwrap(),
            initial_price,
            auction_duration_sec,
        ),
        r matches Err(e) ==> e == match accounts.rejection() {
            Some(rejection) => rejection,
            None => AuctionError::EscrowAuthorityNotFound,
        },
{
    let escrow = EscrowAuthority::find(program_id);
    accounts.plan(escrow, initial_price, auction_duration_sec)
}

} // verus!
