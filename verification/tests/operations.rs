use anchor_auction::{
    bid, cancel, close, exhibit, Auction, AuctionError, Authorization, Bid, Cancel, Clock, Close,
    CloseAccount, EscrowAuthority, Exhibit, Instruction, LedgerError, Outcome, Party, Plan, Pubkey,
    SetAuthority, TokenAccount, Transfer,
};

const NOW: i64 = 1_700_000_000;

fn key(n: u8) -> Pubkey {
    Pubkey::new_from_array([n; 32])
}

fn signer(n: u8) -> Party {
    Party { key: key(n), is_signer: true }
}

fn bystander(n: u8) -> Party {
    Party { key: key(n), is_signer: false }
}

fn account(n: u8, amount: u64) -> TokenAccount {
    TokenAccount { key: key(n), amount }
}

fn escrow() -> EscrowAuthority {
    EscrowAuthority { address: key(99), bump_seed: 254 }
}

fn by_escrow() -> Authorization {
    Authorization::Escrow { bump_seed: 254 }
}

// The cast: exhibitor 1, with asset account 10, asset holding 11 and payout
// account 12; first bidder 2, paying from 20 into holding 21; second bidder 3,
// paying from 30 into holding 31, and taking the asset at 32.

fn listing() -> Exhibit {
    Exhibit {
        exhibitor: signer(1),
        exhibitor_nft_token_account: account(10, 1),
        exhibitor_nft_temp_account: account(11, 0),
        exhibitor_ft_receiving_account: account(12, 0),
        clock: Clock { unix_timestamp: NOW },
    }
}

fn recorded(plan: &Plan) -> Auction {
    match plan.outcome {
        Outcome::Recorded(auction) => auction,
        Outcome::Destroyed { .. } => panic!("the record was destroyed"),
    }
}

fn fresh_auction() -> Auction {
    recorded(&listing().plan(Some(escrow()), 100, 3600).unwrap())
}

fn first_bid(auction: Auction, now: i64) -> Bid {
    Bid {
        bidder: signer(2),
        bidder_ft_temp_account: account(21, 0),
        bidder_ft_account: account(20, 1_000),
        highest_bidder: bystander(1),
        highest_bidder_ft_temp_account: account(12, 0),
        highest_bidder_ft_returning_account: account(12, 0),
        escrow_account: auction,
        clock: Clock { unix_timestamp: now },
    }
}

fn auction_after_first_bid() -> Auction {
    recorded(&first_bid(fresh_auction(), NOW + 10).plan(Some(escrow()), 150).unwrap())
}

fn second_bid(auction: Auction, now: i64) -> Bid {
    Bid {
        bidder: signer(3),
        bidder_ft_temp_account: account(31, 0),
        bidder_ft_account: account(30, 1_000),
        highest_bidder: bystander(2),
        highest_bidder_ft_temp_account: account(21, 150),
        highest_bidder_ft_returning_account: account(20, 850),
        escrow_account: auction,
        clock: Clock { unix_timestamp: now },
    }
}

fn closing(auction: Auction, now: i64) -> Close {
    Close {
        winning_bidder: signer(2),
        exhibitor: bystander(1),
        exhibitor_nft_temp_account: account(11, 1),
        exhibitor_ft_receiving_account: account(12, 0),
        highest_bidder_ft_temp_account: account(21, 150),
        highest_bidder_nft_receiving_account: account(22, 0),
        escrow_account: auction,
        clock: Clock { unix_timestamp: now },
    }
}

fn cancellation(auction: Auction) -> Cancel {
    Cancel {
        exhibitor: signer(1),
        exhibitor_nft_token_account: account(10, 0),
        exhibitor_nft_temp_account: account(11, 1),
        escrow_account: auction,
    }
}

#[test]
fn open_creates_the_record() {
    let plan = listing().plan(Some(escrow()), 100, 3600).unwrap();
    let auction = recorded(&plan);
    assert_eq!(auction.price, 100);
    assert_eq!(auction.highest_bidder_pubkey, key(1));
    assert_eq!(
        auction,
        Auction {
            exhibitor_pubkey: key(1),
            exhibiting_nft_temp_pubkey: key(11),
            exhibitor_ft_receiving_pubkey: key(12),
            price: 100,
            end_at: NOW + 3600,
            highest_bidder_pubkey: key(1),
            highest_bidder_ft_temp_pubkey: key(12),
            highest_bidder_ft_returning_pubkey: key(12),
        }
    );
    assert_eq!(
        plan.instructions,
        vec![
            Instruction::SetAuthority {
                accounts: SetAuthority { current_authority: key(1), account_or_mint: key(11) },
                new_authority: key(99),
                signed_by: Authorization::Caller,
            },
            Instruction::Transfer {
                accounts: Transfer { from: key(10), to: key(11), authority: key(1) },
                amount: 1,
                signed_by: Authorization::Caller,
            },
        ]
    );
}

#[test]
fn first_bid_replaces_the_sentinel() {
    let plan = first_bid(fresh_auction(), NOW + 10).plan(Some(escrow()), 150).unwrap();
    let auction = recorded(&plan);
    assert_eq!(auction.price, 150);
    assert_eq!(auction.highest_bidder_pubkey, key(2));
    assert_eq!(auction.highest_bidder_ft_temp_pubkey, key(21));
    assert_eq!(auction.highest_bidder_ft_returning_pubkey, key(20));
    assert_eq!(auction.end_at, NOW + 3600);
    assert!(auction.bid_exists());
    // Nobody is refunded; the deposit of 150 goes into escrow.
    assert_eq!(
        plan.instructions,
        vec![
            Instruction::SetAuthority {
                accounts: SetAuthority { current_authority: key(2), account_or_mint: key(21) },
                new_authority: key(99),
                signed_by: Authorization::Caller,
            },
            Instruction::Transfer {
                accounts: Transfer { from: key(20), to: key(21), authority: key(2) },
                amount: 150,
                signed_by: Authorization::Caller,
            },
        ]
    );
}

#[test]
fn lower_bid_is_too_low() {
    let auction = auction_after_first_bid();
    let request = second_bid(auction, NOW + 20);
    assert_eq!(request.plan(Some(escrow()), 140), Err(AuctionError::BidTooLow));
    assert_eq!(request.validate(140), Err(AuctionError::BidTooLow));
    // The record is untouched.
    assert_eq!(request.escrow_account, auction);
    assert_eq!(auction.price, 150);
}

#[test]
fn higher_bid_refunds_the_leader() {
    let plan = second_bid(auction_after_first_bid(), NOW + 20).plan(Some(escrow()), 200).unwrap();
    let auction = recorded(&plan);
    assert_eq!(auction.price, 200);
    assert_eq!(auction.highest_bidder_pubkey, key(3));
    assert_eq!(auction.highest_bidder_ft_temp_pubkey, key(31));
    assert_eq!(auction.highest_bidder_ft_returning_pubkey, key(30));
    assert_eq!(
        plan.instructions,
        vec![
            Instruction::Transfer {
                accounts: Transfer { from: key(21), to: key(20), authority: key(99) },
                amount: 150,
                signed_by: by_escrow(),
            },
            Instruction::CloseAccount {
                accounts: CloseAccount { account: key(21), destination: key(2), authority: key(99) },
                signed_by: by_escrow(),
            },
            Instruction::SetAuthority {
                accounts: SetAuthority { current_authority: key(3), account_or_mint: key(31) },
                new_authority: key(99),
                signed_by: Authorization::Caller,
            },
            Instruction::Transfer {
                accounts: Transfer { from: key(30), to: key(31), authority: key(3) },
                amount: 200,
                signed_by: Authorization::Caller,
            },
        ]
    );
}

#[test]
fn close_before_and_after_the_deadline() {
    let auction = auction_after_first_bid();
    assert_eq!(
        closing(auction, NOW + 3599).plan(Some(escrow())),
        Err(AuctionError::AuctionStillOpen)
    );
    let plan = closing(auction, NOW + 3601).plan(Some(escrow())).unwrap();
    assert_eq!(plan.outcome, Outcome::Destroyed { refund_to: key(1) });
    assert_eq!(
        plan.instructions,
        vec![
            Instruction::Transfer {
                accounts: Transfer { from: key(11), to: key(22), authority: key(99) },
                amount: 1,
                signed_by: by_escrow(),
            },
            Instruction::Transfer {
                accounts: Transfer { from: key(21), to: key(12), authority: key(99) },
                amount: 150,
                signed_by: by_escrow(),
            },
            Instruction::CloseAccount {
                accounts: CloseAccount { account: key(21), destination: key(2), authority: key(99) },
                signed_by: by_escrow(),
            },
            Instruction::CloseAccount {
                accounts: CloseAccount { account: key(11), destination: key(1), authority: key(99) },
                signed_by: by_escrow(),
            },
        ]
    );
}

#[test]
fn cancel_after_a_bid_is_refused() {
    let request = cancellation(auction_after_first_bid());
    assert_eq!(request.plan(Some(escrow())), Err(AuctionError::CancelAfterBidExists));
}

#[test]
fn cancel_of_an_unbid_auction_returns_the_asset() {
    let plan = cancellation(fresh_auction()).plan(Some(escrow())).unwrap();
    assert_eq!(plan.outcome, Outcome::Destroyed { refund_to: key(1) });
    assert_eq!(
        plan.instructions,
        vec![
            Instruction::Transfer {
                accounts: Transfer { from: key(11), to: key(10), authority: key(99) },
                amount: 1,
                signed_by: by_escrow(),
            },
            Instruction::CloseAccount {
                accounts: CloseAccount { account: key(11), destination: key(1), authority: key(99) },
                signed_by: by_escrow(),
            },
        ]
    );
}

#[test]
fn cancel_needs_no_open_deadline() {
    // An auction that ran out without a bid still leaves by cancellation.
    let auction = fresh_auction();
    assert!(cancellation(auction).plan(Some(escrow())).is_ok());
    let mut as_winner = closing(auction, NOW + 4000);
    as_winner.winning_bidder = signer(1);
    as_winner.highest_bidder_ft_temp_account = account(12, 0);
    assert_eq!(as_winner.plan(Some(escrow())), Err(AuctionError::AccountMismatch));
}

#[test]
fn deadline_is_now_plus_duration() {
    let mut request = listing();
    request.clock = Clock { unix_timestamp: 5 };
    assert_eq!(recorded(&request.plan(Some(escrow()), 1, 0).unwrap()).end_at, 5);
    assert_eq!(recorded(&request.plan(Some(escrow()), 1, 3600).unwrap()).end_at, 3605);
    request.clock = Clock { unix_timestamp: -10 };
    assert_eq!(recorded(&request.plan(Some(escrow()), 1, 25).unwrap()).end_at, 15);
    request.clock = Clock { unix_timestamp: i64::MAX - 7 };
    assert_eq!(recorded(&request.plan(Some(escrow()), 1, 7).unwrap()).end_at, i64::MAX);
    request.clock = Clock { unix_timestamp: i64::MIN };
    assert_eq!(recorded(&request.plan(Some(escrow()), 1, u64::MAX).unwrap()).end_at, i64::MAX);
}

#[test]
fn bid_at_the_deadline_is_expired_and_close_at_the_deadline_is_valid() {
    let auction = auction_after_first_bid();
    let end_at = auction.end_at;
    assert!(second_bid(auction, end_at - 1).plan(Some(escrow()), 200).is_ok());
    assert_eq!(
        second_bid(auction, end_at).plan(Some(escrow()), 200),
        Err(AuctionError::AuctionExpired)
    );
    assert_eq!(
        second_bid(auction, end_at + 1).plan(Some(escrow()), 200),
        Err(AuctionError::AuctionExpired)
    );
    assert_eq!(
        closing(auction, end_at - 1).plan(Some(escrow())),
        Err(AuctionError::AuctionStillOpen)
    );
    assert!(closing(auction, end_at).plan(Some(escrow())).is_ok());
    assert!(closing(auction, end_at + 1).plan(Some(escrow())).is_ok());
}

#[test]
fn equal_bid_is_too_low() {
    let auction = auction_after_first_bid();
    assert_eq!(
        second_bid(auction, NOW + 20).plan(Some(escrow()), 150),
        Err(AuctionError::BidTooLow)
    );
    assert!(second_bid(auction, NOW + 20).plan(Some(escrow()), 151).is_ok());
    // On a fresh auction the starting price itself does not win.
    assert_eq!(
        first_bid(fresh_auction(), NOW + 1).plan(Some(escrow()), 100),
        Err(AuctionError::BidTooLow)
    );
    assert!(first_bid(fresh_auction(), NOW + 1).plan(Some(escrow()), 101).is_ok());
}

#[test]
fn prices_rise_strictly_over_a_run_of_bids() {
    let mut auction = fresh_auction();
    let mut prices = vec![auction.price];
    let end_at = auction.end_at;
    let offers: [u64; 6] = [150, 140, 200, 200, 201, 1_000];
    let mut leader = Party { key: key(1), is_signer: false };
    let mut holding = account(12, 0);
    let mut refund = account(12, 0);
    for (i, offer) in offers.iter().enumerate() {
        let n = 40 + 3 * (i as u8);
        let request = Bid {
            bidder: signer(n),
            bidder_ft_temp_account: account(n + 1, 0),
            bidder_ft_account: account(n + 2, 5_000),
            highest_bidder: leader,
            highest_bidder_ft_temp_account: holding,
            highest_bidder_ft_returning_account: refund,
            escrow_account: auction,
            clock: Clock { unix_timestamp: NOW + 1 + i as i64 },
        };
        match request.plan(Some(escrow()), *offer) {
            Ok(plan) => {
                auction = recorded(&plan);
                prices.push(auction.price);
                leader = Party { key: key(n), is_signer: false };
                holding = account(n + 1, *offer);
                refund = account(n + 2, 5_000 - *offer);
            }
            Err(e) => assert_eq!(e, AuctionError::BidTooLow),
        }
        assert_eq!(auction.end_at, end_at);
    }
    assert_eq!(prices, vec![100, 150, 200, 201, 1_000]);
    assert!(prices.windows(2).all(|pair| pair[0] < pair[1]));
}

#[test]
fn no_record_admits_both_cancel_and_close() {
    let unbid = fresh_auction();
    let bid_on = auction_after_first_bid();
    for now in [NOW, NOW + 3600, NOW + 10_000] {
        assert!(cancellation(unbid).plan(Some(escrow())).is_ok());
        assert!(closing(unbid, now).plan(Some(escrow())).is_err());
        assert!(cancellation(bid_on).plan(Some(escrow())).is_err());
    }
    assert!(closing(bid_on, NOW + 3600).plan(Some(escrow())).is_ok());
}

#[test]
fn no_instant_admits_both_bid_and_close() {
    let auction = auction_after_first_bid();
    for now in [NOW, auction.end_at - 1, auction.end_at, auction.end_at + 1] {
        let bid_ok = second_bid(auction, now).plan(Some(escrow()), 200).is_ok();
        let close_ok = closing(auction, now).plan(Some(escrow())).is_ok();
        assert_eq!(bid_ok, now < auction.end_at);
        assert_eq!(close_ok, now >= auction.end_at);
        assert!(bid_ok != close_ok);
    }
}

#[test]
fn exhibit_errors() {
    let mut unsigned = listing();
    unsigned.exhibitor.is_signer = false;
    assert_eq!(unsigned.plan(Some(escrow()), 100, 3600), Err(AuctionError::Unauthorized));
    for amount in [0u64, 2, u64::MAX] {
        let mut wrong_supply = listing();
        wrong_supply.exhibitor_nft_token_account.amount = amount;
        assert_eq!(
            wrong_supply.plan(Some(escrow()), 100, 3600),
            Err(AuctionError::InvalidAssetSupply)
        );
        assert_eq!(wrong_supply.validate(), Err(AuctionError::InvalidAssetSupply));
    }
    // The signature is checked first.
    let mut both = listing();
    both.exhibitor.is_signer = false;
    both.exhibitor_nft_token_account.amount = 0;
    assert_eq!(both.plan(Some(escrow()), 100, 3600), Err(AuctionError::Unauthorized));
    assert_eq!(listing().plan(None, 100, 3600), Err(AuctionError::EscrowAuthorityNotFound));
    assert_eq!(listing().validate(), Ok(()));
}

#[test]
fn bid_errors() {
    let auction = auction_after_first_bid();
    let good = second_bid(auction, NOW + 20);
    assert_eq!(good.validate(200), Ok(()));

    let mut request = good;
    request.bidder.is_signer = false;
    assert_eq!(request.plan(Some(escrow()), 200), Err(AuctionError::Unauthorized));

    let mut request = good;
    request.bidder_ft_account.amount = 199;
    assert_eq!(request.plan(Some(escrow()), 200), Err(AuctionError::InsufficientFunds));
    request.bidder_ft_account.amount = 200;
    assert!(request.plan(Some(escrow()), 200).is_ok());

    let mut request = good;
    request.highest_bidder = bystander(77);
    assert_eq!(request.plan(Some(escrow()), 200), Err(AuctionError::AccountMismatch));

    let mut request = good;
    request.highest_bidder_ft_temp_account = account(77, 150);
    assert_eq!(request.plan(Some(escrow()), 200), Err(AuctionError::AccountMismatch));

    let mut request = good;
    request.highest_bidder_ft_returning_account = account(77, 0);
    assert_eq!(request.plan(Some(escrow()), 200), Err(AuctionError::RefundTargetMismatch));

    assert_eq!(good.plan(Some(escrow()), 150), Err(AuctionError::BidTooLow));
    assert_eq!(
        second_bid(auction, auction.end_at).plan(Some(escrow()), 200),
        Err(AuctionError::AuctionExpired)
    );
    assert_eq!(good.plan(None, 200), Err(AuctionError::EscrowAuthorityNotFound));

    // The checks come in a fixed order: funds before accounts, accounts
    // before the price, the price before the deadline.
    let mut request = second_bid(auction, auction.end_at);
    request.highest_bidder_ft_returning_account = account(77, 0);
    assert_eq!(request.plan(None, 100), Err(AuctionError::RefundTargetMismatch));
    request.bidder_ft_account.amount = 0;
    assert_eq!(request.plan(None, 100), Err(AuctionError::InsufficientFunds));
    assert_eq!(
        second_bid(auction, auction.end_at).plan(None, 100),
        Err(AuctionError::BidTooLow)
    );
}

#[test]
fn cancel_errors() {
    let auction = fresh_auction();
    let good = cancellation(auction);
    assert_eq!(good.validate(), Ok(()));

    let mut request = good;
    request.exhibitor.is_signer = false;
    assert_eq!(request.plan(Some(escrow())), Err(AuctionError::Unauthorized));

    let mut request = good;
    request.exhibitor = signer(2);
    assert_eq!(request.plan(Some(escrow())), Err(AuctionError::Unauthorized));

    let mut request = good;
    request.exhibitor_nft_temp_account = account(77, 1);
    assert_eq!(request.plan(Some(escrow())), Err(AuctionError::AccountMismatch));

    assert_eq!(
        cancellation(auction_after_first_bid()).validate(),
        Err(AuctionError::CancelAfterBidExists)
    );
    assert_eq!(good.plan(None), Err(AuctionError::EscrowAuthorityNotFound));
}

#[test]
fn close_errors() {
    let auction = auction_after_first_bid();
    let good = closing(auction, NOW + 3600);
    assert_eq!(good.validate(), Ok(()));

    // The close asks for no signature: it moves what is on record to where
    // the record says, whoever calls.
    let mut request = good;
    request.winning_bidder.is_signer = false;
    assert_eq!(request.validate(), Ok(()));
    assert_eq!(request.plan(Some(escrow())), good.plan(Some(escrow())));
    let mut request = closing(auction, NOW);
    request.winning_bidder.is_signer = false;
    assert_eq!(request.plan(Some(escrow())), Err(AuctionError::AuctionStillOpen));
    let mut request = good;
    request.winning_bidder.is_signer = false;
    request.exhibitor_ft_receiving_account = account(77, 0);
    assert_eq!(request.plan(Some(escrow())), Err(AuctionError::AccountMismatch));

    let mut request = good;
    request.winning_bidder = signer(3);
    assert_eq!(request.plan(Some(escrow())), Err(AuctionError::AccountMismatch));

    let mut request = good;
    request.exhibitor = bystander(77);
    assert_eq!(request.plan(Some(escrow())), Err(AuctionError::AccountMismatch));

    let mut request = good;
    request.exhibitor_nft_temp_account = account(77, 1);
    assert_eq!(request.plan(Some(escrow())), Err(AuctionError::AccountMismatch));

    let mut request = good;
    request.exhibitor_ft_receiving_account = account(77, 0);
    assert_eq!(request.plan(Some(escrow())), Err(AuctionError::AccountMismatch));

    let mut request = good;
    request.highest_bidder_ft_temp_account = account(77, 150);
    assert_eq!(request.plan(Some(escrow())), Err(AuctionError::AccountMismatch));

    // A mismatch is reported before the deadline is looked at.
    let mut request = closing(auction, NOW);
    request.exhibitor = bystander(77);
    assert_eq!(request.plan(Some(escrow())), Err(AuctionError::AccountMismatch));
    assert_eq!(closing(auction, NOW).plan(Some(escrow())), Err(AuctionError::AuctionStillOpen));
    assert_eq!(good.plan(None), Err(AuctionError::EscrowAuthorityNotFound));
}

#[test]
fn commit_follows_the_ledger() {
    let plan = first_bid(fresh_auction(), NOW + 10).plan(Some(escrow()), 150).unwrap();
    assert_eq!(plan.commit(Ok(())), Ok(plan.outcome));
    assert_eq!(
        plan.commit(Err(LedgerError { code: 17 })),
        Err(AuctionError::LedgerError(LedgerError { code: 17 }))
    );
    let settled = closing(auction_after_first_bid(), NOW + 3600).plan(Some(escrow())).unwrap();
    assert_eq!(settled.commit(Ok(())), Ok(Outcome::Destroyed { refund_to: key(1) }));
    assert_eq!(
        settled.commit(Err(LedgerError { code: 1 })),
        Err(AuctionError::LedgerError(LedgerError { code: 1 }))
    );
}

#[test]
fn context_builders_name_the_right_accounts() {
    let e = escrow();
    let open = listing();
    assert_eq!(
        open.to_transfer_to_pda_context(),
        Transfer { from: key(10), to: key(11), authority: key(1) }
    );
    assert_eq!(
        open.to_set_authority_context(),
        SetAuthority { current_authority: key(1), account_or_mint: key(11) }
    );
    let raise = second_bid(auction_after_first_bid(), NOW + 20);
    assert_eq!(
        raise.to_set_authority_context(),
        SetAuthority { current_authority: key(3), account_or_mint: key(31) }
    );
    assert_eq!(
        raise.to_close_context(&e),
        CloseAccount { account: key(21), destination: key(2), authority: key(99) }
    );
    assert_eq!(
        raise.to_transfer_to_previous_bidder_context(&e),
        Transfer { from: key(21), to: key(20), authority: key(99) }
    );
    assert_eq!(
        raise.to_transfer_to_pda_context(),
        Transfer { from: key(30), to: key(31), authority: key(3) }
    );
    let withdraw = cancellation(fresh_auction());
    assert_eq!(
        withdraw.to_transfer_to_exhibitor_context(&e),
        Transfer { from: key(11), to: key(10), authority: key(99) }
    );
    assert_eq!(
        withdraw.to_close_context(&e),
        CloseAccount { account: key(11), destination: key(1), authority: key(99) }
    );
    let settle = closing(auction_after_first_bid(), NOW + 3600);
    assert_eq!(
        settle.to_transfer_to_exhibitor_context(&e),
        Transfer { from: key(21), to: key(12), authority: key(99) }
    );
    assert_eq!(
        settle.to_transfer_to_highest_bidder_context(&e),
        Transfer { from: key(11), to: key(22), authority: key(99) }
    );
    assert_eq!(
        settle.to_close_ft_context(&e),
        CloseAccount { account: key(21), destination: key(2), authority: key(99) }
    );
    assert_eq!(
        settle.to_close_nft_context(&e),
        CloseAccount { account: key(11), destination: key(1), authority: key(99) }
    );
}

#[test]
fn pubkey_equality_is_bytewise() {
    let mut bytes = [5u8; 32];
    assert_eq!(Pubkey::new_from_array(bytes), key(5));
    assert_eq!(key(5).to_bytes(), bytes);
    for i in 0..32 {
        bytes[i] = 6;
        assert_ne!(Pubkey::new_from_array(bytes), key(5));
        bytes[i] = 5;
    }
    assert!(key(5) == key(5));
    assert!(key(5) != key(6));
}

#[test]
fn operations_use_the_engines_own_escrow_authority() {
    let program_id = key(200);
    let own = EscrowAuthority::find(&program_id).expect("an escrow authority");
    let by_own = Authorization::Escrow { bump_seed: own.bump_seed };

    let opened = exhibit(&program_id, &listing(), 100, 3600).unwrap();
    assert_eq!(opened, listing().plan(Some(own), 100, 3600).unwrap());
    let auction = recorded(&opened);

    let raised = bid(&program_id, &first_bid(auction, NOW + 10), 150).unwrap();
    assert_eq!(raised, first_bid(auction, NOW + 10).plan(Some(own), 150).unwrap());
    let auction = recorded(&raised);

    let settled = close(&program_id, &closing(auction, NOW + 3600)).unwrap();
    assert_eq!(settled, closing(auction, NOW + 3600).plan(Some(own)).unwrap());
    for instruction in settled.instructions.iter() {
        match instruction {
            Instruction::Transfer { accounts, signed_by, .. } => {
                assert_eq!(accounts.authority, own.address);
                assert_eq!(*signed_by, by_own);
            }
            Instruction::CloseAccount { accounts, signed_by } => {
                assert_eq!(accounts.authority, own.address);
                assert_eq!(*signed_by, by_own);
            }
            Instruction::SetAuthority { .. } => panic!("a close hands over no holding"),
        }
    }

    let withdrawn = cancel(&program_id, &cancellation(fresh_auction())).unwrap();
    assert_eq!(withdrawn, cancellation(fresh_auction()).plan(Some(own)).unwrap());

    assert_eq!(
        bid(&program_id, &first_bid(auction, NOW + 10), 150),
        Err(AuctionError::AccountMismatch)
    );
    assert_eq!(
        cancel(&program_id, &cancellation(auction)),
        Err(AuctionError::CancelAfterBidExists)
    );
    assert_eq!(
        close(&program_id, &closing(auction, NOW)),
        Err(AuctionError::AuctionStillOpen)
    );
    let mut unsigned = listing();
    unsigned.exhibitor.is_signer = false;
    assert_eq!(exhibit(&program_id, &unsigned, 100, 3600), Err(AuctionError::Unauthorized));
}
