//! The engine's custody identity.
//!
//! Holdings in escrow are controlled by an address derived from the engine's
//! own program address and a fixed seed. Nobody holds a private key for it;
//! only the engine can present it to the ledger, by naming the seed and the
//! bump seed found with the address.

use vstd::prelude::*;
use crate::pubkey::Pubkey;

verus! {

/// The seed from which the escrow authority is derived: the ASCII bytes of
/// `escrow`.
pub const ESCROW_PDA_SEED: [u8; 6] = [101, 115, 99, 114, 111, 119];

/// The escrow authority of one engine: its address and the bump seed that
/// completes the seeds it signs with.
#[derive(Clone, Copy, Debug, PartialEq, Eq)]
pub struct EscrowAuthority {
    pub address: Pubkey,
    pub bump_seed: u8,
}

/// The program-derived address and bump seed that the ledger's address
/// derivation yields for one seed and a program address, or `None` where it
/// finds no address.
pub uninterp spec fn program_address(seed: Seq<u8>, program_id: Seq<u8>) -> Option<(Seq<u8>, u8)>;

/// Calls `Pubkey::try_find_program_address` of `solana_program` (as re-exported
/// by `anchor_lang`) with the single seed `seed`.
///
/// Trusted: the derivation is a function of the seed and the program address
/// alone, and the result is reported unchanged, `None` included. Nothing is
/// claimed about which address comes out.
#[verifier::external_body]
fn try_find_program_address(seed: &[u8], program_id: &Pubkey) -> (found: Option<(Pubkey, u8)>)
    ensures
        match found {
            Some((address, bump_seed)) => program_address(seed@, program_id@) == Some(
                (address@, bump_seed),
            ),
            None => program_address(seed@, program_id@) is None,
        },
{
    let id = anchor_lang::prelude::Pubkey::new_from_array(program_id.bytes);
    match anchor_lang::prelude::Pubkey::try_find_program_address(&[seed], &id) {
        Some((address, bump_seed)) => Some((Pubkey { bytes: address.to_bytes() }, bump_seed)),
        None => None,
    }
}

impl EscrowAuthority {
    /// The escrow authority of the engine at `program_id`: what the address
    /// derivation yields for the escrow seed; `None` where it finds no
    /// address.
    pub open spec fn of(program_id: Pubkey) -> Option<EscrowAuthority> {
        match program_address(ESCROW_PDA_SEED@, program_id@) {
            Some((address, bump_seed)) => Some(
                EscrowAuthority { address: Pubkey::of_bytes(address), bump_seed },
            ),
            None => None,
        }
    }

    /// Derives the escrow authority of the engine at `program_id`.
    pub fn find(program_id: &Pubkey) -> (found: Option<EscrowAuthority>)
        ensures
            found == EscrowAuthority::of(*program_id),
    {
        match try_find_program_address(&ESCROW_PDA_SEED, program_id) {
            Some((address, bump_seed)) => {
                proof {
                    Pubkey::lemma_of_bytes(address);
                }
                Some(EscrowAuthority { address, bump_seed })
            },
            None => None,
        }
    }
}

} // verus!
