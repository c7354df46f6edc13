//! The auction record.

use vstd::bytes::{
    lemma_auto_spec_u64_to_from_le_bytes, spec_u64_from_le_bytes, spec_u64_to_le_bytes,
    u64_from_le_bytes, u64_to_le_bytes,
};
use vstd::prelude::*;
use vstd::slice::slice_subrange;
use crate::pubkey::Pubkey;

verus! {

/// The record of one listing. It exists from the listing until the auction is
/// cancelled or closed.
///
/// While no bid has been placed the exhibitor stands in for the leader: the
/// highest bidder is the exhibitor, and both of the leader's accounts are the
/// exhibitor's payout account.
#[derive(Clone, Copy, Debug, PartialEq, Eq)]
pub struct Auction {
    /// Who listed the asset and is paid in the end.
    pub exhibitor_pubkey: Pubkey,
    /// The holding that keeps the asset in escrow.
    pub exhibiting_nft_temp_pubkey: Pubkey,
    /// Where the winning payment goes.
    pub exhibitor_ft_receiving_pubkey: Pubkey,
    /// The highest bid so far, or the starting price.
    pub price: u64,
    /// The deadline: bids come before it, the close at or after it.
    pub end_at: i64,
    /// The leader.
    pub highest_bidder_pubkey: Pubkey,
    /// The holding that keeps the leader's deposit in escrow.
    pub highest_bidder_ft_temp_pubkey: Pubkey,
    /// Where the leader's deposit goes back to when the leader is outbid.
    pub highest_bidder_ft_returning_pubkey: Pubkey,
}

/// The length in bytes of a stored record.
pub const AUCTION_LEN: usize = 208;

impl Auction {
    /// The record as it is stored: its fields in the order of their
    /// declaration, each address as its 32 bytes, the price as 8 bytes with
    /// the least significant first, and the deadline in the same way in
    /// two's complement.
    pub open spec fn encoding(self) -> Seq<u8> {
        self.exhibitor_pubkey@ + self.exhibiting_nft_temp_pubkey@
            + self.exhibitor_ft_receiving_pubkey@ + spec_u64_to_le_bytes(self.price)
            + spec_u64_to_le_bytes(self.end_at as u64) + self.highest_bidder_pubkey@
            + self.highest_bidder_ft_temp_pubkey@ + self.highest_bidder_ft_returning_pubkey@
    }

    /// The record that `bytes` stores, where they are as many as a stored
    /// record has.
    pub open spec fn decoding(bytes: Seq<u8>) -> Auction {
        Auction {
            exhibitor_pubkey: Pubkey::of_bytes(bytes.subrange(0, 32)),
            exhibiting_nft_temp_pubkey: Pubkey::of_bytes(bytes.subrange(32, 64)),
            exhibitor_ft_receiving_pubkey: Pubkey::of_bytes(bytes.subrange(64, 96)),
            price: spec_u64_from_le_bytes(bytes.subrange(96, 104)),
            end_at: spec_u64_from_le_bytes(bytes.subrange(104, 112)) as i64,
            highest_bidder_pubkey: Pubkey::of_bytes(bytes.subrange(112, 144)),
            highest_bidder_ft_temp_pubkey: Pubkey::of_bytes(bytes.subrange(144, 176)),
            highest_bidder_ft_returning_pubkey: Pubkey::of_bytes(bytes.subrange(176, 208)),
        }
    }

    /// A stored record is 208 bytes long, and reading it gives the record
    /// back.
    pub proof fn lemma_decoding_of_encoding(self)
        ensures
            self.encoding().len() == AUCTION_LEN,
            Auction::decoding(self.encoding()) == self,
    {
        lemma_auto_spec_u64_to_from_le_bytes();
        let bytes = self.encoding();
        assert(bytes.subrange(0, 32) =~= self.exhibitor_pubkey@);
        assert(bytes.subrange(32, 64) =~= self.exhibiting_nft_temp_pubkey@);
        assert(bytes.subrange(64, 96) =~= self.exhibitor_ft_receiving_pubkey@);
        assert(bytes.subrange(96, 104) =~= spec_u64_to_le_bytes(self.price));
        assert(bytes.subrange(104, 112) =~= spec_u64_to_le_bytes(self.end_at as u64));
        assert(bytes.subrange(112, 144) =~= self.highest_bidder_pubkey@);
        assert(bytes.subrange(144, 176) =~= self.highest_bidder_ft_temp_pubkey@);
        assert(bytes.subrange(176, 208) =~= self.highest_bidder_ft_returning_pubkey@);
        Pubkey::lemma_of_bytes(self.exhibitor_pubkey);
        Pubkey::lemma_of_bytes(self.exhibiting_nft_temp_pubkey);
        Pubkey::lemma_of_bytes(self.exhibitor_ft_receiving_pubkey);
        Pubkey::lemma_of_bytes(self.highest_bidder_pubkey);
        Pubkey::lemma_of_bytes(self.highest_bidder_ft_temp_pubkey);
        Pubkey::lemma_of_bytes(self.highest_bidder_ft_returning_pubkey);
        let end_at = self.end_at;
        assert((end_at as u64) as i64 == end_at) by (bit_vector);
    }

    /// Any 208 bytes store a record: storing what was read gives the bytes
    /// back.
    pub proof fn lemma_encoding_of_decoding(bytes: Seq<u8>)
        requires
            bytes.len() == AUCTION_LEN,
        ensures
            Auction::decoding(bytes).encoding() == bytes,
    {
        lemma_auto_spec_u64_to_from_le_bytes();
        let auction = Auction::decoding(bytes);
        Pubkey::lemma_view_of_bytes(bytes.subrange(0, 32));
        Pubkey::lemma_view_of_bytes(bytes.subrange(32, 64));
        Pubkey::lemma_view_of_bytes(bytes.subrange(64, 96));
        Pubkey::lemma_view_of_bytes(bytes.subrange(112, 144));
        Pubkey::lemma_view_of_bytes(bytes.subrange(144, 176));
        Pubkey::lemma_view_of_bytes(bytes.subrange(176, 208));
        let raw = spec_u64_from_le_bytes(bytes.subrange(104, 112));
        assert((raw as i64) as u64 == raw) by (bit_vector);
        assert(auction.encoding() =~= bytes);
    }

    /// Stores the record.
    pub fn pack(&self) -> (bytes: Vec<u8>)
        ensures
            bytes@ == self.encoding(),
            bytes@.len() == AUCTION_LEN,
    {
        let mut bytes: Vec<u8> = Vec::new();
        self.exhibitor_pubkey.write_to(&mut bytes);
        self.exhibiting_nft_temp_pubkey.write_to(&mut bytes);
        self.exhibitor_ft_receiving_pubkey.write_to(&mut bytes);
        let mut price = u64_to_le_bytes(self.price);
        bytes.append(&mut price);
        let mut end_at = u64_to_le_bytes(self.end_at as u64);
        bytes.append(&mut end_at);
        self.highest_bidder_pubkey.write_to(&mut bytes);
        self.highest_bidder_ft_temp_pubkey.write_to(&mut bytes);
        self.highest_bidder_ft_returning_pubkey.write_to(&mut bytes);
        proof {
            self.lemma_decoding_of_encoding();
            assert(bytes@ =~= self.encoding());
        }
        bytes
    }

    /// Reads a stored record: `None` unless `bytes` are as many as a stored
    /// record has.
    pub fn unpack(bytes: &[u8]) -> (r: Option<Auction>)
        ensures
            r is Some <==> bytes@.len() == AUCTION_LEN,
            r matches Some(auction) ==> auction == Auction::decoding(bytes@) && auction.encoding()
                == bytes@,
    {
        if bytes.len() != AUCTION_LEN {
            return None;
        }
        let exhibitor_pubkey = Pubkey::read_from(bytes, 0);
        let exhibiting_nft_temp_pubkey = Pubkey::read_from(bytes, 32);
        let exhibitor_ft_receiving_pubkey = Pubkey::read_from(bytes, 64);
        let price = u64_from_le_bytes(slice_subrange(bytes, 96, 104));
        let end_at = u64_from_le_bytes(slice_subrange(bytes, 104, 112)) as i64;
        let highest_bidder_pubkey = Pubkey::read_from(bytes, 112);
        let highest_bidder_ft_temp_pubkey = Pubkey::read_from(bytes, 144);
        let highest_bidder_ft_returning_pubkey = Pubkey::read_from(bytes, 176);
        proof {
            Pubkey::lemma_of_bytes(exhibitor_pubkey);
            Pubkey::lemma_of_bytes(exhibiting_nft_temp_pubkey);
            Pubkey::lemma_of_bytes(exhibitor_ft_receiving_pubkey);
            Pubkey::lemma_of_bytes(highest_bidder_pubkey);
            Pubkey::lemma_of_bytes(highest_bidder_ft_temp_pubkey);
            Pubkey::lemma_of_bytes(highest_bidder_ft_returning_pubkey);
            Auction::lemma_encoding_of_decoding(bytes@);
        }
        Some(
            Auction {
                exhibitor_pubkey,
                exhibiting_nft_temp_pubkey,
                exhibitor_ft_receiving_pubkey,
                price,
                end_at,
                highest_bidder_pubkey,
                highest_bidder_ft_temp_pubkey,
                highest_bidder_ft_returning_pubkey,
            },
        )
    }

    /// Whether a bid is on record.
    pub open spec fn has_bid(self) -> bool {
        self.highest_bidder_pubkey != self.exhibitor_pubkey
    }

    /// Whether the record is in the state that a listing leaves it in.
    pub open spec fn is_fresh(self) -> bool {
        &&& self.highest_bidder_pubkey == self.exhibitor_pubkey
        &&& self.highest_bidder_ft_temp_pubkey == self.exhibitor_ft_receiving_pubkey
        &&& self.highest_bidder_ft_returning_pubkey == self.exhibitor_ft_receiving_pubkey
    }

    /// Whether `now` is before the deadline: the time for bids, and not yet
    /// the time to close.
    pub open spec fn is_open_at(self, now: i64) -> bool {
        now < self.end_at
    }

    /// Whether a bid is on record.
    pub fn bid_exists(&self) -> (r: bool)
        ensures
            r == self.has_bid(),
    {
        self.highest_bidder_pubkey != self.exhibitor_pubkey
    }
}

} // verus!
