//! What holds of the engine as a whole.
//!
//! Each law is proved from the definitions that the operations' contracts
//! are stated over, so it holds of every plan that the engine hands out.
//! Where a law speaks of balances, it speaks of the ledger model of
//! [`crate::ledger`].

use vstd::prelude::*;
use crate::bid::Bid;
use crate::cancel::Cancel;
use crate::close::Close;
use crate::error::AuctionError;
use crate::escrow::EscrowAuthority;
use crate::exhibit::Exhibit;
use crate::instruction::{Authorization, CloseAccount, Instruction, Transfer};
use crate::ledger::{
    lemma_run_conserves, lemma_run_joined, lemma_run_two, run, step, supply, Holding, Ledger,
};
use crate::plan::Outcome;
use crate::pubkey::Pubkey;
use crate::state::Auction;

verus! {

/// One accepted bid in the life of an auction: the request and its price.
pub struct AcceptedBid {
    pub request: Bid,
    pub price: u64,
}

/// Whether `records` is the history of one auction under the bids `bids`:
/// every bid was made on the record before it, was accepted, and left the
/// record after it.
pub open spec fn is_history(records: Seq<Auction>, bids: Seq<AcceptedBid>) -> bool {
    &&& records.len() == bids.len() + 1
    &&& forall|i: int|
        0 <= i < bids.len() ==> {
            &&& (#[trigger] bids[i]).request.escrow_account == records[i]
            &&& bids[i].request.rejection(bids[i].price) is None
            &&& records[i + 1] == bids[i].request.next_record(bids[i].price)
        }
}

/// Whether the ledger backs the record: the asset's holding keeps the one
/// unit under the escrow authority, and, where a bid is on record, the
/// leader's holding keeps exactly the price under the escrow authority.
pub open spec fn backs(ledger: Ledger, auction: Auction, escrow: EscrowAuthority) -> bool {
    &&& ledger.contains_key(auction.exhibiting_nft_temp_pubkey)
    &&& ledger[auction.exhibiting_nft_temp_pubkey].authority == escrow.address
    &&& ledger[auction.exhibiting_nft_temp_pubkey].amount == 1
    &&& auction.has_bid() ==> {
        &&& ledger.contains_key(auction.highest_bidder_ft_temp_pubkey)
        &&& ledger[auction.highest_bidder_ft_temp_pubkey].authority == escrow.address
        &&& ledger[auction.highest_bidder_ft_temp_pubkey].amount == auction.price
    }
}

/// A listing starts the auction without a bid: the record holds the starting
/// price and the deadline, and the exhibitor stands in for the leader.
pub proof fn law_listing_starts_unbid(
    listing: Exhibit,
    initial_price: u64,
    auction_duration_sec: u64,
)
    requires
        listing.deadline(auction_duration_sec) <= i64::MAX,
    ensures
        listing.new_record(initial_price, auction_duration_sec).is_fresh(),
        !listing.new_record(initial_price, auction_duration_sec).has_bid(),
        listing.new_record(initial_price, auction_duration_sec).price == initial_price,
        listing.new_record(initial_price, auction_duration_sec).end_at
            == listing.clock.unix_timestamp + auction_duration_sec,
        listing.new_record(initial_price, auction_duration_sec).exhibitor_pubkey
            == listing.exhibitor.key,
{
}

/// An accepted bid raises the price, and changes nothing of the record but
/// the price and the leader: the exhibitor, the asset's holding, the payout
/// account and the deadline stay as the listing set them.
pub proof fn law_bid_raises_price(request: Bid, price: u64)
    requires
        request.rejection(price) is None,
    ensures
        request.next_record(price).price == price,
        request.next_record(price).price > request.escrow_account.price,
        request.next_record(price).end_at == request.escrow_account.end_at,
        request.next_record(price).exhibitor_pubkey == request.escrow_account.exhibitor_pubkey,
        request.next_record(price).exhibiting_nft_temp_pubkey
            == request.escrow_account.exhibiting_nft_temp_pubkey,
        request.next_record(price).exhibitor_ft_receiving_pubkey
            == request.escrow_account.exhibitor_ft_receiving_pubkey,
{
}

/// Over any sequence of accepted bids on one auction the price is strictly
/// increasing in the order of the bids, and the deadline never moves.
pub proof fn law_monotonic_price(records: Seq<Auction>, bids: Seq<AcceptedBid>, i: int, j: int)
    requires
        is_history(records, bids),
        0 <= i < j < records.len(),
    ensures
        records[i].price < records[j].price,
        records[i].end_at == records[j].end_at,
    decreases j - i,
{
    let last = bids[j - 1];
    assert(records[j] == last.request.next_record(last.price));
    if i < j - 1 {
        law_monotonic_price(records, bids, i, j - 1);
    }
}

/// The refund comes first in the plan: when a bidder who is on record as the
/// leader is outbid, the plan of the next bid begins by sending the full
/// amount of the earlier bid from the earlier bidder's holding to the account
/// that the earlier bidder paid from, under the escrow authority; then it
/// closes that holding; and only then does it take the new deposit.
///
/// An earlier bid by the exhibitor is left out: it leaves the record as one
/// without a bid, and the plan of the next bid holds no refund.
pub proof fn law_outbid_leader_is_refunded_first(
    earlier: Bid,
    earlier_price: u64,
    later: Bid,
    later_price: u64,
    escrow: EscrowAuthority,
)
    requires
        earlier.rejection(earlier_price) is None,
        later.escrow_account == earlier.next_record(earlier_price),
        later.rejection(later_price) is None,
        earlier.bidder.key != earlier.escrow_account.exhibitor_pubkey,
    ensures
        later.instructions(escrow, later_price).len() == 4,
        later.instructions(escrow, later_price)[0] == (Instruction::Transfer {
            accounts: Transfer {
                from: earlier.bidder_ft_temp_account.key,
                to: earlier.bidder_ft_account.key,
                authority: escrow.address,
            },
            amount: earlier_price,
            signed_by: Authorization::Escrow { bump_seed: escrow.bump_seed },
        }),
        later.instructions(escrow, later_price)[1] == (Instruction::CloseAccount {
            accounts: CloseAccount {
                account: earlier.bidder_ft_temp_account.key,
                destination: earlier.bidder.key,
                authority: escrow.address,
            },
            signed_by: Authorization::Escrow { bump_seed: escrow.bump_seed },
        }),
        later.instructions(escrow, later_price)[2] == later.custody_instruction(escrow),
        later.instructions(escrow, later_price)[3] == later.deposit_instruction(later_price),
{
}

/// The refund is complete on the ledger: let the leader's holding keep exactly
/// the recorded price under the escrow authority, and let the refund account
/// be another open account of the same currency with room for it. Then the
/// two instructions that open an accepted bid's plan go through. After them,
/// and before the new deposit is taken, the refund account has gained exactly
/// the recorded price, the holding is gone, and nothing else has changed. The
/// refund cannot be had a second time: the ledger refuses it.
pub proof fn law_outbid_leader_is_made_whole(
    ledger: Ledger,
    request: Bid,
    price: u64,
    escrow: EscrowAuthority,
)
    requires
        request.rejection(price) is None,
        request.escrow_account.has_bid(),
        ledger.contains_key(request.escrow_account.highest_bidder_ft_temp_pubkey),
        ledger.contains_key(request.escrow_account.highest_bidder_ft_returning_pubkey),
        request.escrow_account.highest_bidder_ft_temp_pubkey
            != request.escrow_account.highest_bidder_ft_returning_pubkey,
        ledger[request.escrow_account.highest_bidder_ft_temp_pubkey].authority == escrow.address,
        ledger[request.escrow_account.highest_bidder_ft_temp_pubkey].amount
            == request.escrow_account.price,
        ledger[request.escrow_account.highest_bidder_ft_temp_pubkey].mint
            == ledger[request.escrow_account.highest_bidder_ft_returning_pubkey].mint,
        ledger[request.escrow_account.highest_bidder_ft_returning_pubkey].amount
            + request.escrow_account.price <= u64::MAX,
    ensures
        request.instructions(escrow, price) == seq![
            request.refund_instruction(escrow),
            request.release_instruction(escrow),
        ] + seq![request.custody_instruction(escrow), request.deposit_instruction(price)],
        run(ledger, seq![request.refund_instruction(escrow), request.release_instruction(escrow)])
            is Some,
        ({
            let holding = request.escrow_account.highest_bidder_ft_temp_pubkey;
            let refund = request.escrow_account.highest_bidder_ft_returning_pubkey;
            let after = run(
                ledger,
                seq![request.refund_instruction(escrow), request.release_instruction(escrow)],
            ).unwrap();
            &&& after == ledger.insert(
                refund,
                Holding {
                    amount: (ledger[refund].amount + request.escrow_account.price) as u64,
                    ..ledger[refund]
                },
            ).remove(holding)
            &&& after[refund].amount == ledger[refund].amount + request.escrow_account.price
            &&& !after.contains_key(holding)
            &&& step(after, request.refund_instruction(escrow)) is None
        }),
{
    let holding = request.escrow_account.highest_bidder_ft_temp_pubkey;
    let refund = request.escrow_account.highest_bidder_ft_returning_pubkey;
    lemma_run_two(ledger, request.refund_instruction(escrow), request.release_instruction(escrow));
    let after = run(
        ledger,
        seq![request.refund_instruction(escrow), request.release_instruction(escrow)],
    ).unwrap();
    assert(after =~= ledger.insert(
        refund,
        Holding {
            amount: (ledger[refund].amount + request.escrow_account.price) as u64,
            ..ledger[refund]
        },
    ).remove(holding));
}

/// Whatever the engine plans, a listing, a bid, a cancellation or a close,
/// the plan's instructions neither create nor destroy a unit of any asset or
/// currency: where the ledger performs them, the quantity in existence of
/// each is what it was before.
pub proof fn law_custody_conservation(
    ledger: Ledger,
    mint: Pubkey,
    escrow: EscrowAuthority,
    listing: Exhibit,
    bid: Bid,
    price: u64,
    cancellation: Cancel,
    closing: Close,
)
    requires
        ledger.dom().finite(),
    ensures
        run(ledger, listing.instructions(escrow)) matches Some(after) ==> supply(after, mint)
            == supply(ledger, mint),
        run(ledger, bid.instructions(escrow, price)) matches Some(after) ==> supply(after, mint)
            == supply(ledger, mint),
        run(ledger, cancellation.instructions(escrow)) matches Some(after) ==> supply(after, mint)
            == supply(ledger, mint),
        run(ledger, closing.instructions(escrow)) matches Some(after) ==> supply(after, mint)
            == supply(ledger, mint),
{
    if run(ledger, listing.instructions(escrow)) is Some {
        lemma_run_conserves(ledger, listing.instructions(escrow), mint);
    }
    if run(ledger, bid.instructions(escrow, price)) is Some {
        lemma_run_conserves(ledger, bid.instructions(escrow, price), mint);
    }
    if run(ledger, cancellation.instructions(escrow)) is Some {
        lemma_run_conserves(ledger, cancellation.instructions(escrow), mint);
    }
    if run(ledger, closing.instructions(escrow)) is Some {
        lemma_run_conserves(ledger, closing.instructions(escrow), mint);
    }
}

/// A listing puts the asset in escrow: let the exhibitor control both the account that the
/// asset is listed from, which keeps one unit, and the holding, which is
/// another open account of the same asset and empty. Then the plan of the
/// listing goes through, and after it the holding keeps the unit under the
/// escrow authority, the exhibitor's account keeps none, and nothing else
/// has changed.
pub proof fn law_listing_takes_custody(ledger: Ledger, listing: Exhibit, escrow: EscrowAuthority)
    requires
        ledger.contains_key(listing.exhibitor_nft_token_account.key),
        ledger.contains_key(listing.exhibitor_nft_temp_account.key),
        listing.exhibitor_nft_token_account.key != listing.exhibitor_nft_temp_account.key,
        ledger[listing.exhibitor_nft_token_account.key].authority == listing.exhibitor.key,
        ledger[listing.exhibitor_nft_temp_account.key].authority == listing.exhibitor.key,
        ledger[listing.exhibitor_nft_token_account.key].mint
            == ledger[listing.exhibitor_nft_temp_account.key].mint,
        ledger[listing.exhibitor_nft_token_account.key].amount == 1,
        ledger[listing.exhibitor_nft_temp_account.key].amount == 0,
    ensures
        run(ledger, listing.instructions(escrow)) == Some(
            ledger.insert(
                listing.exhibitor_nft_temp_account.key,
                Holding {
                    authority: escrow.address,
                    amount: 1,
                    ..ledger[listing.exhibitor_nft_temp_account.key]
                },
            ).insert(
                listing.exhibitor_nft_token_account.key,
                Holding { amount: 0, ..ledger[listing.exhibitor_nft_token_account.key] },
            ),
        ),
{
    let source = listing.exhibitor_nft_token_account.key;
    let holding = listing.exhibitor_nft_temp_account.key;
    lemma_run_two(ledger, listing.custody_instruction(escrow), listing.deposit_instruction());
    assert(run(ledger, listing.instructions(escrow)).unwrap() =~= ledger.insert(
        holding,
        Holding { authority: escrow.address, amount: 1, ..ledger[holding] },
    ).insert(source, Holding { amount: 0, ..ledger[source] }));
}

/// A bid puts the deposit in escrow: let the bidder control both the account that the bid is
/// paid from, which keeps at least the price, and the new holding, which is
/// another open account of the same currency with room for the price. Then
/// the two instructions that end an accepted bid's plan go through, and
/// after them the holding has gained exactly the price and is under the
/// escrow authority, the bidder's account has lost exactly the price, and
/// nothing else has changed.
pub proof fn law_bid_takes_deposit(ledger: Ledger, request: Bid, price: u64, escrow: EscrowAuthority)
    requires
        ledger.contains_key(request.bidder_ft_account.key),
        ledger.contains_key(request.bidder_ft_temp_account.key),
        request.bidder_ft_account.key != request.bidder_ft_temp_account.key,
        ledger[request.bidder_ft_account.key].authority == request.bidder.key,
        ledger[request.bidder_ft_temp_account.key].authority == request.bidder.key,
        ledger[request.bidder_ft_account.key].mint == ledger[request.bidder_ft_temp_account.key].mint,
        ledger[request.bidder_ft_account.key].amount >= price,
        ledger[request.bidder_ft_temp_account.key].amount + price <= u64::MAX,
    ensures
        run(ledger, seq![request.custody_instruction(escrow), request.deposit_instruction(price)])
            == Some(
            ledger.insert(
                request.bidder_ft_temp_account.key,
                Holding {
                    authority: escrow.address,
                    amount: (ledger[request.bidder_ft_temp_account.key].amount + price) as u64,
                    ..ledger[request.bidder_ft_temp_account.key]
                },
            ).insert(
                request.bidder_ft_account.key,
                Holding {
                    amount: (ledger[request.bidder_ft_account.key].amount - price) as u64,
                    ..ledger[request.bidder_ft_account.key]
                },
            ),
        ),
{
    let source = request.bidder_ft_account.key;
    let holding = request.bidder_ft_temp_account.key;
    lemma_run_two(ledger, request.custody_instruction(escrow), request.deposit_instruction(price));
    assert(run(
        ledger,
        seq![request.custody_instruction(escrow), request.deposit_instruction(price)],
    ).unwrap() =~= ledger.insert(
        holding,
        Holding {
            authority: escrow.address,
            amount: (ledger[holding].amount + price) as u64,
            ..ledger[holding]
        },
    ).insert(source, Holding { amount: (ledger[source].amount - price) as u64, ..ledger[source] }));
}

/// A cancellation returns the asset: let the holding keep, under the escrow
/// authority, what the request saw in it, and let the exhibitor's account be
/// another open account of the same asset with room for it. Then the plan of
/// the cancellation goes through, and after it the exhibitor's account has
/// gained what the holding kept, the holding is gone, and nothing else has
/// changed.
pub proof fn law_cancellation_returns_asset(
    ledger: Ledger,
    cancellation: Cancel,
    escrow: EscrowAuthority,
)
    requires
        ledger.contains_key(cancellation.exhibitor_nft_temp_account.key),
        ledger.contains_key(cancellation.exhibitor_nft_token_account.key),
        cancellation.exhibitor_nft_temp_account.key != cancellation.exhibitor_nft_token_account.key,
        ledger[cancellation.exhibitor_nft_temp_account.key].authority == escrow.address,
        ledger[cancellation.exhibitor_nft_temp_account.key].amount
            == cancellation.exhibitor_nft_temp_account.amount,
        ledger[cancellation.exhibitor_nft_temp_account.key].mint
            == ledger[cancellation.exhibitor_nft_token_account.key].mint,
        ledger[cancellation.exhibitor_nft_token_account.key].amount
            + cancellation.exhibitor_nft_temp_account.amount <= u64::MAX,
    ensures
        run(ledger, cancellation.instructions(escrow)) == Some(
            ledger.insert(
                cancellation.exhibitor_nft_token_account.key,
                Holding {
                    amount: (ledger[cancellation.exhibitor_nft_token_account.key].amount
                        + cancellation.exhibitor_nft_temp_account.amount) as u64,
                    ..ledger[cancellation.exhibitor_nft_token_account.key]
                },
            ).remove(cancellation.exhibitor_nft_temp_account.key),
        ),
{
    let holding = cancellation.exhibitor_nft_temp_account.key;
    let target = cancellation.exhibitor_nft_token_account.key;
    lemma_run_two(
        ledger,
        cancellation.return_instruction(escrow),
        cancellation.release_instruction(escrow),
    );
    assert(run(ledger, cancellation.instructions(escrow)).unwrap() =~= ledger.insert(
        target,
        Holding {
            amount: (ledger[target].amount + cancellation.exhibitor_nft_temp_account.amount) as u64,
            ..ledger[target]
        },
    ).remove(holding));
}

/// A close swaps asset and payment: let the two holdings keep, under the escrow authority,
/// what the request saw in them, and let the winner's account and the
/// exhibitor's account be open accounts of the asset and of the currency,
/// with room, all four accounts being different. Then the plan of the close
/// goes through, and after it the winner's account has gained what the asset
/// holding kept, the exhibitor's account has gained what the deposit holding
/// kept, both holdings are gone, and nothing else has changed: the asset is
/// handed over exactly when the payment is.
pub proof fn law_close_swaps(ledger: Ledger, closing: Close, escrow: EscrowAuthority)
    requires
        ledger.contains_key(closing.exhibitor_nft_temp_account.key),
        ledger.contains_key(closing.highest_bidder_nft_receiving_account.key),
        ledger.contains_key(closing.highest_bidder_ft_temp_account.key),
        ledger.contains_key(closing.exhibitor_ft_receiving_account.key),
        closing.exhibitor_nft_temp_account.key != closing.highest_bidder_nft_receiving_account.key,
        closing.exhibitor_nft_temp_account.key != closing.highest_bidder_ft_temp_account.key,
        closing.exhibitor_nft_temp_account.key != closing.exhibitor_ft_receiving_account.key,
        closing.highest_bidder_nft_receiving_account.key
            != closing.highest_bidder_ft_temp_account.key,
        closing.highest_bidder_nft_receiving_account.key
            != closing.exhibitor_ft_receiving_account.key,
        closing.highest_bidder_ft_temp_account.key != closing.exhibitor_ft_receiving_account.key,
        ledger[closing.exhibitor_nft_temp_account.key].authority == escrow.address,
        ledger[closing.highest_bidder_ft_temp_account.key].authority == escrow.address,
        ledger[closing.exhibitor_nft_temp_account.key].amount
            == closing.exhibitor_nft_temp_account.amount,
        ledger[closing.highest_bidder_ft_temp_account.key].amount
            == closing.highest_bidder_ft_temp_account.amount,
        ledger[closing.exhibitor_nft_temp_account.key].mint
            == ledger[closing.highest_bidder_nft_receiving_account.key].mint,
        ledger[closing.highest_bidder_ft_temp_account.key].mint
            == ledger[closing.exhibitor_ft_receiving_account.key].mint,
        ledger[closing.highest_bidder_nft_receiving_account.key].amount
            + closing.exhibitor_nft_temp_account.amount <= u64::MAX,
        ledger[closing.exhibitor_ft_receiving_account.key].amount
            + closing.highest_bidder_ft_temp_account.amount <= u64::MAX,
    ensures
        run(ledger, closing.instructions(escrow)) == Some(
            ledger.insert(
                closing.highest_bidder_nft_receiving_account.key,
                Holding {
                    amount: (ledger[closing.highest_bidder_nft_receiving_account.key].amount
                        + closing.exhibitor_nft_temp_account.amount) as u64,
                    ..ledger[closing.highest_bidder_nft_receiving_account.key]
                },
            ).insert(
                closing.exhibitor_ft_receiving_account.key,
                Holding {
                    amount: (ledger[closing.exhibitor_ft_receiving_account.key].amount
                        + closing.highest_bidder_ft_temp_account.amount) as u64,
                    ..ledger[closing.exhibitor_ft_receiving_account.key]
                },
            ).remove(closing.highest_bidder_ft_temp_account.key).remove(
                closing.exhibitor_nft_temp_account.key,
            ),
        ),
{
    let asset_holding = closing.exhibitor_nft_temp_account.key;
    let winner_account = closing.highest_bidder_nft_receiving_account.key;
    let deposit_holding = closing.highest_bidder_ft_temp_account.key;
    let payout = closing.exhibitor_ft_receiving_account.key;
    let transfers = seq![closing.delivery_instruction(escrow), closing.payment_instruction(escrow)];
    let closures = seq![
        closing.release_deposit_instruction(escrow),
        closing.release_asset_instruction(escrow),
    ];
    assert(closing.instructions(escrow) =~= transfers + closures);
    lemma_run_joined(ledger, transfers, closures);
    lemma_run_two(ledger, closing.delivery_instruction(escrow), closing.payment_instruction(escrow));
    let swapped = run(ledger, transfers).unwrap();
    lemma_run_two(
        swapped,
        closing.release_deposit_instruction(escrow),
        closing.release_asset_instruction(escrow),
    );
    assert(run(ledger, closing.instructions(escrow)).unwrap() =~= ledger.insert(
        winner_account,
        Holding {
            amount: (ledger[winner_account].amount + closing.exhibitor_nft_temp_account.amount) as u64,
            ..ledger[winner_account]
        },
    ).insert(
        payout,
        Holding {
            amount: (ledger[payout].amount + closing.highest_bidder_ft_temp_account.amount) as u64,
            ..ledger[payout]
        },
    ).remove(deposit_holding).remove(asset_holding));
}

/// A listing leaves a record that the ledger backs: under the conditions of
/// [`law_listing_takes_custody`], after the plan of an accepted listing the
/// ledger backs the new record.
pub proof fn law_listing_is_backed(
    ledger: Ledger,
    listing: Exhibit,
    initial_price: u64,
    auction_duration_sec: u64,
    escrow: EscrowAuthority,
)
    requires
        listing.rejection() is None,
        ledger.contains_key(listing.exhibitor_nft_token_account.key),
        ledger.contains_key(listing.exhibitor_nft_temp_account.key),
        listing.exhibitor_nft_token_account.key != listing.exhibitor_nft_temp_account.key,
        ledger[listing.exhibitor_nft_token_account.key].authority == listing.exhibitor.key,
        ledger[listing.exhibitor_nft_temp_account.key].authority == listing.exhibitor.key,
        ledger[listing.exhibitor_nft_token_account.key].mint
            == ledger[listing.exhibitor_nft_temp_account.key].mint,
        ledger[listing.exhibitor_nft_token_account.key].amount == 1,
        ledger[listing.exhibitor_nft_temp_account.key].amount == 0,
    ensures
        run(ledger, listing.instructions(escrow)) is Some,
        backs(
            run(ledger, listing.instructions(escrow)).unwrap(),
            listing.new_record(initial_price, auction_duration_sec),
            escrow,
        ),
{
    law_listing_takes_custody(ledger, listing, escrow);
}

/// A bid keeps the record backed. Let the ledger back the record, and let
/// the bidder control both the account that the bid is paid from, which
/// keeps at least the price, and the new holding, which is an empty open
/// account of the same currency. Where a bid is on record, let the refund
/// account be an open account of the leader's currency with room for the
/// refund. Let the accounts that the bid names be different from each other
/// and from the asset's holding. Then the plan of an accepted bid goes
/// through, and after it the ledger backs the new record: the asset is where
/// it was, and the new holding keeps exactly the new price.
pub proof fn law_bid_keeps_record_backed(
    ledger: Ledger,
    request: Bid,
    price: u64,
    escrow: EscrowAuthority,
)
    requires
        request.rejection(price) is None,
        backs(ledger, request.escrow_account, escrow),
        ledger.contains_key(request.bidder_ft_account.key),
        ledger.contains_key(request.bidder_ft_temp_account.key),
        ledger[request.bidder_ft_account.key].authority == request.bidder.key,
        ledger[request.bidder_ft_temp_account.key].authority == request.bidder.key,
        ledger[request.bidder_ft_account.key].mint == ledger[request.bidder_ft_temp_account.key].mint,
        ledger[request.bidder_ft_account.key].amount >= price,
        ledger[request.bidder_ft_temp_account.key].amount == 0,
        request.bidder_ft_account.key != request.bidder_ft_temp_account.key,
        request.bidder_ft_account.key != request.escrow_account.exhibiting_nft_temp_pubkey,
        request.bidder_ft_temp_account.key != request.escrow_account.exhibiting_nft_temp_pubkey,
        request.escrow_account.has_bid() ==> {
            let holding = request.escrow_account.highest_bidder_ft_temp_pubkey;
            let refund = request.escrow_account.highest_bidder_ft_returning_pubkey;
            &&& ledger.contains_key(refund)
            &&& ledger[refund].mint == ledger[holding].mint
            &&& ledger[refund].amount + request.escrow_account.price <= u64::MAX
            &&& holding != refund
            &&& holding != request.escrow_account.exhibiting_nft_temp_pubkey
            &&& refund != request.escrow_account.exhibiting_nft_temp_pubkey
            &&& holding != request.bidder_ft_account.key
            &&& holding != request.bidder_ft_temp_account.key
            &&& refund != request.bidder_ft_account.key
            &&& refund != request.bidder_ft_temp_account.key
        },
    ensures
        run(ledger, request.instructions(escrow, price)) is Some,
        backs(
            run(ledger, request.instructions(escrow, price)).unwrap(),
            request.next_record(price),
            escrow,
        ),
        ({
            let asset_holding = request.escrow_account.exhibiting_nft_temp_pubkey;
            run(ledger, request.instructions(escrow, price)).unwrap()[asset_holding]
                == ledger[asset_holding]
        }),
{
    let accept = seq![request.custody_instruction(escrow), request.deposit_instruction(price)];
    if request.escrow_account.has_bid() {
        let opening = seq![
            request.refund_instruction(escrow),
            request.release_instruction(escrow),
        ];
        law_outbid_leader_is_made_whole(ledger, request, price, escrow);
        let between = run(ledger, opening).unwrap();
        lemma_run_joined(ledger, opening, accept);
        law_bid_takes_deposit(between, request, price, escrow);
    } else {
        law_bid_takes_deposit(ledger, request, price, escrow);
    }
}

/// A close pays the price for the asset. Let the ledger back the record, and
/// let the request have seen the two holdings as they are. Under the
/// conditions of [`law_close_swaps`], the plan of an accepted close goes
/// through, and after it the winner's account has gained the one unit of the
/// asset and the exhibitor's account has gained exactly the recorded price.
pub proof fn law_close_pays_the_price(ledger: Ledger, closing: Close, escrow: EscrowAuthority)
    requires
        closing.rejection() is None,
        backs(ledger, closing.escrow_account, escrow),
        ledger.contains_key(closing.highest_bidder_nft_receiving_account.key),
        ledger.contains_key(closing.exhibitor_ft_receiving_account.key),
        closing.exhibitor_nft_temp_account.key != closing.highest_bidder_nft_receiving_account.key,
        closing.exhibitor_nft_temp_account.key != closing.highest_bidder_ft_temp_account.key,
        closing.exhibitor_nft_temp_account.key != closing.exhibitor_ft_receiving_account.key,
        closing.highest_bidder_nft_receiving_account.key
            != closing.highest_bidder_ft_temp_account.key,
        closing.highest_bidder_nft_receiving_account.key
            != closing.exhibitor_ft_receiving_account.key,
        closing.highest_bidder_ft_temp_account.key != closing.exhibitor_ft_receiving_account.key,
        ledger[closing.exhibitor_nft_temp_account.key].amount
            == closing.exhibitor_nft_temp_account.amount,
        ledger[closing.highest_bidder_ft_temp_account.key].amount
            == closing.highest_bidder_ft_temp_account.amount,
        ledger[closing.exhibitor_nft_temp_account.key].mint
            == ledger[closing.highest_bidder_nft_receiving_account.key].mint,
        ledger[closing.highest_bidder_ft_temp_account.key].mint
            == ledger[closing.exhibitor_ft_receiving_account.key].mint,
        ledger[closing.highest_bidder_nft_receiving_account.key].amount + 1 <= u64::MAX,
        ledger[closing.exhibitor_ft_receiving_account.key].amount + closing.escrow_account.price
            <= u64::MAX,
    ensures
        run(ledger, closing.instructions(escrow)) is Some,
        ({
            let after = run(ledger, closing.instructions(escrow)).unwrap();
            &&& after[closing.highest_bidder_nft_receiving_account.key].amount
                == ledger[closing.highest_bidder_nft_receiving_account.key].amount + 1
            &&& after[closing.escrow_account.exhibitor_ft_receiving_pubkey].amount
                == ledger[closing.escrow_account.exhibitor_ft_receiving_pubkey].amount
                + closing.escrow_account.price
            &&& !after.contains_key(closing.escrow_account.exhibiting_nft_temp_pubkey)
            &&& !after.contains_key(closing.escrow_account.highest_bidder_ft_temp_pubkey)
        }),
{
    law_close_swaps(ledger, closing, escrow);
}

/// A listing that the ledger performs moves exactly one unit. Let the
/// request have seen the exhibitor's account as it is, and let the exhibitor
/// be another party than the escrow authority, for which nobody can sign.
/// Wherever the ledger performs the plan of an accepted listing, the account
/// and the holding are two accounts, the account is left with nothing, the
/// holding has gained the one unit and is under the escrow authority, and
/// nothing else has changed.
pub proof fn law_listing_moves_the_unit(ledger: Ledger, listing: Exhibit, escrow: EscrowAuthority)
    requires
        listing.rejection() is None,
        run(ledger, listing.instructions(escrow)) is Some,
        ledger[listing.exhibitor_nft_token_account.key].amount
            == listing.exhibitor_nft_token_account.amount,
        listing.exhibitor.key != escrow.address,
    ensures
        listing.exhibitor_nft_token_account.key != listing.exhibitor_nft_temp_account.key,
        ledger.contains_key(listing.exhibitor_nft_token_account.key),
        ledger.contains_key(listing.exhibitor_nft_temp_account.key),
        run(ledger, listing.instructions(escrow)) == Some(
            ledger.insert(
                listing.exhibitor_nft_temp_account.key,
                Holding {
                    authority: escrow.address,
                    amount: (ledger[listing.exhibitor_nft_temp_account.key].amount + 1) as u64,
                    ..ledger[listing.exhibitor_nft_temp_account.key]
                },
            ).insert(
                listing.exhibitor_nft_token_account.key,
                Holding { amount: 0, ..ledger[listing.exhibitor_nft_token_account.key] },
            ),
        ),
{
    let source = listing.exhibitor_nft_token_account.key;
    let holding = listing.exhibitor_nft_temp_account.key;
    lemma_run_two(ledger, listing.custody_instruction(escrow), listing.deposit_instruction());
    assert(run(ledger, listing.instructions(escrow)).unwrap() =~= ledger.insert(
        holding,
        Holding {
            authority: escrow.address,
            amount: (ledger[holding].amount + 1) as u64,
            ..ledger[holding]
        },
    ).insert(source, Holding { amount: 0, ..ledger[source] }));
}

/// A bid that the ledger performs leaves the asset where it is. Let the
/// asset's holding be under the escrow authority, let the bidder be another
/// party than the escrow authority, and, where a bid is on record, let the
/// leader's holding keep another kind of token than the asset's holding.
/// Wherever the ledger performs the plan of an accepted bid, whatever
/// accounts the bid names, the asset's holding is after it what it was
/// before.
pub proof fn law_bid_leaves_the_asset(
    ledger: Ledger,
    request: Bid,
    price: u64,
    escrow: EscrowAuthority,
)
    requires
        request.rejection(price) is None,
        run(ledger, request.instructions(escrow, price)) is Some,
        ledger.contains_key(request.escrow_account.exhibiting_nft_temp_pubkey),
        ledger[request.escrow_account.exhibiting_nft_temp_pubkey].authority == escrow.address,
        request.bidder.key != escrow.address,
        request.escrow_account.has_bid() ==> ledger[request.escrow_account.highest_bidder_ft_temp_pubkey].mint
            != ledger[request.escrow_account.exhibiting_nft_temp_pubkey].mint,
    ensures
        ({
            let asset_holding = request.escrow_account.exhibiting_nft_temp_pubkey;
            let after = run(ledger, request.instructions(escrow, price)).unwrap();
            &&& after.contains_key(asset_holding)
            &&& after[asset_holding] == ledger[asset_holding]
        }),
{
    let accept = seq![request.custody_instruction(escrow), request.deposit_instruction(price)];
    if request.escrow_account.has_bid() {
        let opening = seq![
            request.refund_instruction(escrow),
            request.release_instruction(escrow),
        ];
        lemma_run_joined(ledger, opening, accept);
        lemma_run_two(
            ledger,
            request.refund_instruction(escrow),
            request.release_instruction(escrow),
        );
        let between = run(ledger, opening).unwrap();
        lemma_run_two(
            between,
            request.custody_instruction(escrow),
            request.deposit_instruction(price),
        );
    } else {
        lemma_run_two(
            ledger,
            request.custody_instruction(escrow),
            request.deposit_instruction(price),
        );
    }
}

/// A cancellation that the ledger performs returns exactly what the holding
/// kept. Let the holding keep the one unit, and let the request have seen
/// it. Wherever the ledger performs the plan of a cancellation, the holding
/// and the exhibitor's account are two accounts, the exhibitor's account
/// has gained the one unit, the holding is gone, and nothing else has
/// changed.
pub proof fn law_cancellation_returns_the_unit(
    ledger: Ledger,
    cancellation: Cancel,
    escrow: EscrowAuthority,
)
    requires
        run(ledger, cancellation.instructions(escrow)) is Some,
        ledger[cancellation.exhibitor_nft_temp_account.key].amount == 1,
        cancellation.exhibitor_nft_temp_account.amount == 1,
    ensures
        cancellation.exhibitor_nft_temp_account.key != cancellation.exhibitor_nft_token_account.key,
        ledger.contains_key(cancellation.exhibitor_nft_token_account.key),
        run(ledger, cancellation.instructions(escrow)) == Some(
            ledger.insert(
                cancellation.exhibitor_nft_token_account.key,
                Holding {
                    amount: (ledger[cancellation.exhibitor_nft_token_account.key].amount + 1) as u64,
                    ..ledger[cancellation.exhibitor_nft_token_account.key]
                },
            ).remove(cancellation.exhibitor_nft_temp_account.key),
        ),
{
    let holding = cancellation.exhibitor_nft_temp_account.key;
    let target = cancellation.exhibitor_nft_token_account.key;
    lemma_run_two(
        ledger,
        cancellation.return_instruction(escrow),
        cancellation.release_instruction(escrow),
    );
    assert(run(ledger, cancellation.instructions(escrow)).unwrap() =~= ledger.insert(
        target,
        Holding { amount: (ledger[target].amount + 1) as u64, ..ledger[target] },
    ).remove(holding));
}

/// A close that the ledger performs delivers exactly one unit. Let the
/// asset's holding keep the one unit, let the request have seen it, and let
/// the deposit's holding keep another kind of token than the asset's
/// holding. Wherever the ledger performs the plan of a close, whatever
/// accounts the close names, the asset's holding and the winner's account
/// are two accounts, the winner's account has gained the one unit, and the
/// asset's holding is gone.
pub proof fn law_close_delivers_the_unit(ledger: Ledger, closing: Close, escrow: EscrowAuthority)
    requires
        run(ledger, closing.instructions(escrow)) is Some,
        ledger[closing.exhibitor_nft_temp_account.key].amount == 1,
        closing.exhibitor_nft_temp_account.amount == 1,
        ledger[closing.highest_bidder_ft_temp_account.key].mint
            != ledger[closing.exhibitor_nft_temp_account.key].mint,
    ensures
        closing.exhibitor_nft_temp_account.key != closing.highest_bidder_nft_receiving_account.key,
        ledger.contains_key(closing.highest_bidder_nft_receiving_account.key),
        ({
            let after = run(ledger, closing.instructions(escrow)).unwrap();
            &&& after.contains_key(closing.highest_bidder_nft_receiving_account.key)
            &&& after[closing.highest_bidder_nft_receiving_account.key] == (Holding {
                amount: (ledger[closing.highest_bidder_nft_receiving_account.key].amount + 1) as u64,
                ..ledger[closing.highest_bidder_nft_receiving_account.key]
            })
            &&& after[closing.highest_bidder_nft_receiving_account.key].amount
                == ledger[closing.highest_bidder_nft_receiving_account.key].amount + 1
            &&& !after.contains_key(closing.exhibitor_nft_temp_account.key)
        }),
{
    let transfers = seq![closing.delivery_instruction(escrow), closing.payment_instruction(escrow)];
    let closures = seq![
        closing.release_deposit_instruction(escrow),
        closing.release_asset_instruction(escrow),
    ];
    assert(closing.instructions(escrow) =~= transfers + closures);
    lemma_run_joined(ledger, transfers, closures);
    lemma_run_two(ledger, closing.delivery_instruction(escrow), closing.payment_instruction(escrow));
    let swapped = run(ledger, transfers).unwrap();
    lemma_run_two(
        swapped,
        closing.release_deposit_instruction(escrow),
        closing.release_asset_instruction(escrow),
    );
}

/// Every instruction of an accepted request acts either under
/// the party that made the request and signed it, or under the escrow
/// authority that the engine presents. What leaves escrow leaves it under
/// the escrow authority; what enters it is given by its owner. A close
/// moves only what is in escrow, so all of it acts under the escrow
/// authority.
pub proof fn law_plans_are_authorized(
    escrow: EscrowAuthority,
    listing: Exhibit,
    bid: Bid,
    price: u64,
    cancellation: Cancel,
    closing: Close,
)
    ensures
        listing.rejection() is None ==> forall|i: int|
            0 <= i < listing.instructions(escrow).len() ==> (#[trigger] listing.instructions(
                escrow,
            )[i]).is_authorized_by(listing.exhibitor, escrow),
        bid.rejection(price) is None ==> forall|i: int|
            0 <= i < bid.instructions(escrow, price).len() ==> (#[trigger] bid.instructions(
                escrow,
                price,
            )[i]).is_authorized_by(bid.bidder, escrow),
        cancellation.rejection() is None ==> forall|i: int|
            0 <= i < cancellation.instructions(escrow).len() ==> (
            #[trigger] cancellation.instructions(escrow)[i]).is_authorized_by(
                cancellation.exhibitor,
                escrow,
            ),
        forall|i: int|
            0 <= i < closing.instructions(escrow).len() ==> {
                &&& (#[trigger] closing.instructions(escrow)[i]).authority() == escrow.address
                &&& closing.instructions(escrow)[i].signed_by() == (Authorization::Escrow {
                    bump_seed: escrow.bump_seed,
                })
            },
{
}

/// A cancellation and a close both destroy the record, and no record admits
/// both. A cancellation is accepted only while no bid is
/// on record, a close only when one is; so whichever is accepted first, the
/// other is refused on the same record, whoever asks and whenever.
pub proof fn law_terminal_exclusivity(cancellation: Cancel, closing: Close, escrow: EscrowAuthority)
    requires
        cancellation.escrow_account == closing.escrow_account,
    ensures
        cancellation.rejection() is None ==> !cancellation.escrow_account.has_bid(),
        closing.rejection() is None ==> closing.escrow_account.has_bid(),
        !(cancellation.rejection() is None && closing.rejection() is None),
        cancellation.planned(escrow).outcome is Destroyed,
        closing.planned(escrow).outcome is Destroyed,
{
}

/// Every record has its way out, and only one. Let a cancellation come from
/// the recorded exhibitor and name the recorded holding, and let a close come
/// at or after the deadline and name the recorded leader and the recorded
/// accounts. Then exactly one of the two is accepted: the cancellation where
/// no bid is on record, the close where one is.
pub proof fn law_terminal_exit(cancellation: Cancel, closing: Close)
    requires
        cancellation.escrow_account == closing.escrow_account,
        cancellation.exhibitor.is_signer,
        cancellation.exhibitor.key == cancellation.escrow_account.exhibitor_pubkey,
        cancellation.exhibitor_nft_temp_account.key
            == cancellation.escrow_account.exhibiting_nft_temp_pubkey,
        closing.winning_bidder.key == closing.escrow_account.highest_bidder_pubkey,
        closing.exhibitor.key == closing.escrow_account.exhibitor_pubkey,
        closing.exhibitor_nft_temp_account.key == closing.escrow_account.exhibiting_nft_temp_pubkey,
        closing.exhibitor_ft_receiving_account.key
            == closing.escrow_account.exhibitor_ft_receiving_pubkey,
        closing.highest_bidder_ft_temp_account.key
            == closing.escrow_account.highest_bidder_ft_temp_pubkey,
        closing.clock.unix_timestamp >= closing.escrow_account.end_at,
    ensures
        cancellation.rejection() is None <==> !cancellation.escrow_account.has_bid(),
        closing.rejection() is None <==> closing.escrow_account.has_bid(),
        (cancellation.rejection() is None) != (closing.rejection() is None),
{
}

/// The deadline parts bids from the close: a bid is accepted only before the
/// deadline and a close only at or after it, so no instant admits both on one record. A bid that
/// passes every other check is accepted exactly when it comes before the
/// deadline, and is refused as expired otherwise; a close that matches the
/// record, signed or not, is accepted exactly when it comes at or after the
/// deadline, and is refused as still open otherwise; and a close that does
/// not match the record is refused as a mismatch at any time.
pub proof fn law_deadline_gating(bid: Bid, price: u64, closing: Close)
    ensures
        bid.rejection(price) is None ==> bid.escrow_account.is_open_at(bid.clock.unix_timestamp),
        closing.rejection() is None ==> !closing.escrow_account.is_open_at(
            closing.clock.unix_timestamp,
        ),
        bid.escrow_account == closing.escrow_account && bid.clock == closing.clock ==> !(bid.rejection(
            price,
        ) is None && closing.rejection() is None),
        bid.passes_record_checks(price) ==> (bid.rejection(price) is None
            <==> bid.clock.unix_timestamp < bid.escrow_account.end_at),
        bid.passes_record_checks(price) ==> (bid.rejection(price) == Some(
            AuctionError::AuctionExpired,
        ) <==> bid.clock.unix_timestamp >= bid.escrow_account.end_at),
        closing.passes_record_checks() ==> (closing.rejection() is None
            <==> closing.clock.unix_timestamp >= closing.escrow_account.end_at),
        closing.passes_record_checks() ==> (closing.rejection() == Some(
            AuctionError::AuctionStillOpen,
        ) <==> closing.clock.unix_timestamp < closing.escrow_account.end_at),
        !closing.passes_record_checks() ==> closing.rejection() == Some(
            AuctionError::AccountMismatch,
        ),
{
}

} // verus!
