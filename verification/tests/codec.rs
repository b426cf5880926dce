use borsh::{BorshDeserialize, BorshSerialize};
use order_settlement::address::Address;
use order_settlement::record::{OrderBook, RECORD_LEN};
use order_settlement::request::{TakeOrder, REQUEST_LEN};
use order_settlement::wire::{read_u64, write_u64};

#[test]
fn u64_is_written_least_significant_byte_first() {
    let mut out = vec![9u8];
    write_u64(&mut out, 0x0102_0304_0506_0708);
    assert_eq!(out, vec![9, 8, 7, 6, 5, 4, 3, 2, 1]);
}

#[test]
fn u64_is_read_least_significant_byte_first() {
    let bytes = [0u8, 0xf4, 0x01, 0, 0, 0, 0, 0, 0, 0xff];
    assert_eq!(read_u64(&bytes, 1), 500);
    assert_eq!(read_u64(&bytes, 2), 0xff00_0000_0000_0001);
}

#[test]
fn u64_extremes_survive_the_round_trip() {
    for v in [0u64, 1, 255, 256, u64::MAX - 1, u64::MAX, 1 << 32, (1 << 56) + 3] {
        let mut out = Vec::new();
        write_u64(&mut out, v);
        assert_eq!(out, v.to_le_bytes().to_vec());
        assert_eq!(read_u64(&out, 0), v);
    }
}

#[test]
fn request_encoding_is_three_little_endian_integers() {
    let bytes = TakeOrder::new(7, 1, 500).to_bytes();
    let mut expected = vec![7u8, 0, 0, 0, 0, 0, 0, 0, 1, 0, 0, 0, 0, 0, 0, 0];
    expected.extend_from_slice(&[0xf4, 0x01, 0, 0, 0, 0, 0, 0]);
    assert_eq!(bytes.len(), REQUEST_LEN);
    assert_eq!(bytes, expected);
}

#[test]
fn request_encoding_agrees_with_borsh() {
    let request = TakeOrder::new(u64::MAX, 1 << 40, 0x0123_4567_89ab_cdef);
    let by_borsh = (u64::MAX, 1u64 << 40, 0x0123_4567_89ab_cdefu64).try_to_vec().unwrap();
    assert_eq!(request.to_bytes(), by_borsh);
    let (id, amount, price) = <(u64, u64, u64)>::try_from_slice(&request.to_bytes()).unwrap();
    assert_eq!(TakeOrder::new(id, amount, price), request);
}

#[test]
fn request_is_read_back_from_its_encoding() {
    let request = TakeOrder::new(42, 3, 1 << 63);
    assert_eq!(TakeOrder::try_from_slice(&request.to_bytes()), Some(request));
    let decoded = TakeOrder::try_from_slice(&request.to_bytes()).unwrap();
    assert_eq!((decoded.id, decoded.amount, decoded.price), (42, 3, 1 << 63));
}

#[test]
fn request_of_another_length_is_refused() {
    let bytes = TakeOrder::new(7, 1, 500).to_bytes();
    assert_eq!(TakeOrder::try_from_slice(&bytes[..23]), None);
    assert_eq!(TakeOrder::try_from_slice(&[]), None);
    let mut longer = bytes.clone();
    longer.push(0);
    assert_eq!(TakeOrder::try_from_slice(&longer), None);
    assert!(<(u64, u64, u64)>::try_from_slice(&longer).is_err());
    assert!(<(u64, u64, u64)>::try_from_slice(&bytes[..23]).is_err());
}

#[test]
fn payment_is_amount_times_price() {
    assert_eq!(TakeOrder::new(7, 1, 500).payment(), Some(500));
    assert_eq!(TakeOrder::new(7, 12, 34).payment(), Some(408));
    assert_eq!(TakeOrder::new(7, 0, u64::MAX).payment(), Some(0));
    assert_eq!(TakeOrder::new(7, u64::MAX, 1).payment(), Some(u64::MAX));
    assert_eq!(TakeOrder::new(7, (1 << 32) - 1, (1 << 32) + 1).payment(), Some(u64::MAX));
}

#[test]
fn payment_that_overflows_is_none() {
    assert_eq!(TakeOrder::new(7, 1 << 32, 1 << 32).payment(), None);
    assert_eq!(TakeOrder::new(7, u64::MAX, 2).payment(), None);
    assert_eq!(TakeOrder::new(7, u64::MAX, u64::MAX).payment(), None);
}

#[test]
fn record_is_bump_then_admin_authority() {
    let mut data = vec![254u8];
    data.extend((1u8..=32).collect::<Vec<u8>>());
    let record = OrderBook::try_from_slice(&data).unwrap();
    assert_eq!(record.bump, 254);
    let mut key = [0u8; 32];
    for (i, b) in key.iter_mut().enumerate() {
        *b = i as u8 + 1;
    }
    assert_eq!(record.admin_authority, Address::new(key));
    assert_eq!(record.to_bytes(), data);
    assert_eq!(data.len(), RECORD_LEN);
}

#[test]
fn record_encoding_agrees_with_borsh() {
    let key = [0xabu8; 32];
    let record = OrderBook { bump: 7, admin_authority: Address::new(key) };
    let by_borsh = (7u8, key).try_to_vec().unwrap();
    assert_eq!(record.to_bytes(), by_borsh);
    let (bump, admin) = <(u8, [u8; 32])>::try_from_slice(&record.to_bytes()).unwrap();
    assert_eq!((bump, admin), (7, key));
    assert_eq!(OrderBook::try_from_slice(&by_borsh), Some(record));
}

#[test]
fn record_of_another_length_is_refused() {
    assert_eq!(OrderBook::try_from_slice(&[0u8; 32]), None);
    assert_eq!(OrderBook::try_from_slice(&[0u8; 34]), None);
    assert_eq!(OrderBook::try_from_slice(&[]), None);
    assert!(<(u8, [u8; 32])>::try_from_slice(&[0u8; 34]).is_err());
    assert!(<(u8, [u8; 32])>::try_from_slice(&[0u8; 32]).is_err());
}

#[test]
fn addresses_are_equal_when_their_bytes_are() {
    let mut bytes = [5u8; 32];
    let a = Address::new(bytes);
    assert_eq!(a, Address::new([5u8; 32]));
    bytes[31] = 6;
    assert_ne!(a, Address::new(bytes));
    bytes[31] = 5;
    bytes[0] = 4;
    assert_ne!(a, Address::new(bytes));
    assert_eq!(a.as_slice(), &[5u8; 32][..]);
}
