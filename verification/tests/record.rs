use anchor_auction::{Auction, Pubkey, AUCTION_LEN};
use anchor_lang::AnchorSerialize;

fn key(n: u8) -> Pubkey {
    Pubkey::new_from_array([n; 32])
}

fn sample(price: u64, end_at: i64) -> Auction {
    Auction {
        exhibitor_pubkey: key(1),
        exhibiting_nft_temp_pubkey: key(2),
        exhibitor_ft_receiving_pubkey: key(3),
        price,
        end_at,
        highest_bidder_pubkey: key(4),
        highest_bidder_ft_temp_pubkey: key(5),
        highest_bidder_ft_returning_pubkey: key(6),
    }
}

#[test]
fn stored_record_has_its_fields_in_order() {
    let bytes = sample(0x0102_0304_0506_0708, 0x1112_1314_1516_1718).pack();
    assert_eq!(AUCTION_LEN, 208);
    assert_eq!(bytes.len(), 208);
    let mut expected = Vec::new();
    expected.extend_from_slice(&[1u8; 32]);
    expected.extend_from_slice(&[2u8; 32]);
    expected.extend_from_slice(&[3u8; 32]);
    expected.extend_from_slice(&[8, 7, 6, 5, 4, 3, 2, 1]);
    expected.extend_from_slice(&[0x18, 0x17, 0x16, 0x15, 0x14, 0x13, 0x12, 0x11]);
    expected.extend_from_slice(&[4u8; 32]);
    expected.extend_from_slice(&[5u8; 32]);
    expected.extend_from_slice(&[6u8; 32]);
    assert_eq!(bytes, expected);
}

#[test]
fn negative_deadline_is_stored_in_twos_complement() {
    let bytes = sample(100, -2).pack();
    assert_eq!(&bytes[104..112], &[0xfe, 0xff, 0xff, 0xff, 0xff, 0xff, 0xff, 0xff]);
    assert_eq!(&bytes[96..104], &[100, 0, 0, 0, 0, 0, 0, 0]);
}

#[test]
fn reading_a_stored_record_gives_it_back() {
    for (price, end_at) in [
        (0u64, 0i64),
        (100, 3600),
        (u64::MAX, i64::MAX),
        (1, i64::MIN),
        (150, -1),
        (0x8000_0000_0000_0000, 1_700_003_600),
    ] {
        let auction = sample(price, end_at);
        assert_eq!(Auction::unpack(&auction.pack()), Some(auction));
    }
}

#[test]
fn storing_what_was_read_gives_the_bytes_back() {
    let mut bytes = Vec::new();
    for i in 0..208u32 {
        bytes.push((i * 7 + 3) as u8);
    }
    let auction = Auction::unpack(&bytes).expect("a record");
    assert_eq!(auction.price, u64::from_le_bytes(bytes[96..104].try_into().unwrap()));
    assert_eq!(auction.end_at, i64::from_le_bytes(bytes[104..112].try_into().unwrap()));
    assert_eq!(auction.highest_bidder_pubkey.to_bytes()[..], bytes[112..144]);
    assert_eq!(auction.pack(), bytes);
}

#[test]
fn bytes_of_another_length_are_no_record() {
    let bytes = sample(100, 3600).pack();
    assert_eq!(Auction::unpack(&bytes[..207]), None);
    assert_eq!(Auction::unpack(&[]), None);
    let mut longer = bytes.clone();
    longer.push(0);
    assert_eq!(Auction::unpack(&longer), None);
    assert!(Auction::unpack(&bytes).is_some());
}

#[test]
fn stored_record_is_the_fields_in_borsh() {
    let auction = sample(987_654_321, -1_234_567);
    let fields = (
        [1u8; 32],
        [2u8; 32],
        [3u8; 32],
        987_654_321u64,
        -1_234_567i64,
        [4u8; 32],
        [5u8; 32],
        [6u8; 32],
    );
    assert_eq!(auction.pack(), fields.try_to_vec().unwrap());
}
