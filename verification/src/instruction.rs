//! The calls that the engine asks the ledger to perform.

use vstd::prelude::*;
use crate::accounts::Party;
use crate::escrow::EscrowAuthority;
use crate::pubkey::Pubkey;

verus! {

/// The accounts of a transfer: tokens leave `from` for `to`, and `authority`
/// has to control `from`.
#[derive(Clone, Copy, Debug, PartialEq, Eq)]
pub struct Transfer {
    pub from: Pubkey,
    pub to: Pubkey,
    pub authority: Pubkey,
}

/// The accounts of a change of custody: `current_authority` gives up control
/// of `account_or_mint`.
#[derive(Clone, Copy, Debug, PartialEq, Eq)]
pub struct SetAuthority {
    pub current_authority: Pubkey,
    pub account_or_mint: Pubkey,
}

/// The accounts of a closure: `account` is given up under `authority`, and its
/// storage deposit goes to `destination`.
#[derive(Clone, Copy, Debug, PartialEq, Eq)]
pub struct CloseAccount {
    pub account: Pubkey,
    pub destination: Pubkey,
    pub authority: Pubkey,
}

/// Who stands behind an instruction's authority.
#[derive(Clone, Copy, Debug, PartialEq, Eq, Structural)]
pub enum Authorization {
    /// A party that signed the request.
    Caller,
    /// The engine, presenting its escrow authority with this bump seed.
    Escrow { bump_seed: u8 },
}

/// One call to the ledger.
#[allow(inconsistent_fields)]
#[derive(Clone, Copy, Debug, PartialEq, Eq)]
pub enum Instruction {
    /// Move `amount` tokens.
    Transfer { accounts: Transfer, amount: u64, signed_by: Authorization },
    /// Hand control of a holding to `new_authority`.
    SetAuthority { accounts: SetAuthority, new_authority: Pubkey, signed_by: Authorization },
    /// Close an emptied holding.
    CloseAccount { accounts: CloseAccount, signed_by: Authorization },
}

impl Instruction {
    /// The address under whose authority the ledger is asked to act.
    pub open spec fn authority(self) -> Pubkey {
        match self {
            Instruction::Transfer { accounts, .. } => accounts.authority,
            Instruction::SetAuthority { accounts, .. } => accounts.current_authority,
            Instruction::CloseAccount { accounts, .. } => accounts.authority,
        }
    }

    /// Who stands behind that authority.
    pub open spec fn signed_by(self) -> Authorization {
        match self {
            Instruction::Transfer { signed_by, .. } => signed_by,
            Instruction::SetAuthority { signed_by, .. } => signed_by,
            Instruction::CloseAccount { signed_by, .. } => signed_by,
        }
    }

    /// Whether the instruction acts under an authority that stands behind
    /// it: under `caller`, who signed the request, where it is left to the
    /// caller; under `escrow`, with its bump seed, where the engine presents
    /// its escrow authority.
    pub open spec fn is_authorized_by(self, caller: Party, escrow: EscrowAuthority) -> bool {
        match self.signed_by() {
            Authorization::Caller => caller.is_signer && self.authority() == caller.key,
            Authorization::Escrow { bump_seed } => self.authority() == escrow.address && bump_seed
                == escrow.bump_seed,
        }
    }
}

} // verus!
