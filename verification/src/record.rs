//! The order-book record that a settlement authenticates.

use vstd::prelude::*;
use crate::address::{address_of, lemma_address_of, lemma_address_of_view, Address};

verus! {

/// Number of bytes in a stored order-book record.
pub const RECORD_LEN: usize = 33;

/// The configuration record of one order book, as far as a settlement reads
/// it: the bump that completes the derivation of the book's own address, and
/// the admin authority that the book was set up under.
#[derive(Clone, Copy, Debug, PartialEq, Eq)]
pub struct OrderBook {
    pub bump: u8,
    pub admin_authority: Address,
}

/// The record that an account's storage holds, if it holds one: the bump byte
/// followed by the thirty-two bytes of the admin authority, and nothing else.
pub open spec fn decode_record(data: Seq<u8>) -> Option<OrderBook> {
    if data.len() == RECORD_LEN {
        Some(OrderBook { bump: data[0], admin_authority: address_of(data.subrange(1, 33)) })
    } else {
        None
    }
}

/// The storage that holds a record.
pub open spec fn encode_record(record: OrderBook) -> Seq<u8> {
    seq![record.bump] + record.admin_authority@
}

impl OrderBook {
    /// Decodes the record from an account's storage.
    pub fn try_from_slice(data: &[u8]) -> (record: Option<OrderBook>)
        ensures
            record == decode_record(data@),
    {
        if data.len() != RECORD_LEN {
            return None;
        }
        let mut bytes: [u8; 32] = [0u8; 32];
        let mut i: usize = 0;
        while i < 32
            invariant
                i <= 32,
                data@.len() == RECORD_LEN,
                forall|k: int| 0 <= k < i ==> bytes[k] == data@[1 + k],
            decreases 32 - i,
        {
            bytes[i] = data[1 + i];
            i += 1;
        }
        let admin_authority = Address { bytes };
        proof {
            assert(admin_authority@ =~= data@.subrange(1, 33));
            lemma_address_of_view(admin_authority);
        }
        Some(OrderBook { bump: data[0], admin_authority })
    }

    /// Encodes the record as it is stored.
    pub fn to_bytes(&self) -> (data: Vec<u8>)
        ensures
            data@ == encode_record(*self),
    {
        let mut data: Vec<u8> = Vec::new();
        data.push(self.bump);
        let mut i: usize = 0;
        while i < 32
            invariant
                i <= 32,
                data@ =~= seq![self.bump] + self.admin_authority@.subrange(0, i as int),
            decreases 32 - i,
        {
            data.push(self.admin_authority.bytes[i]);
            i += 1;
        }
        assert(self.admin_authority@.subrange(0, 32) =~= self.admin_authority@);
        data
    }
}

/// A record is read back from its stored form unchanged.
pub proof fn lemma_decode_encode_record(record: OrderBook)
    ensures
        encode_record(record).len() == RECORD_LEN,
        decode_record(encode_record(record)) == Some(record),
{
    let data = encode_record(record);
    assert(data.subrange(1, 33) =~= record.admin_authority@);
    lemma_address_of_view(record.admin_authority);
}

/// Storage that holds a record is that record's stored form: no two
/// storages hold the same record.
pub proof fn lemma_encode_decode_record(data: Seq<u8>)
    requires
        decode_record(data) is Some,
    ensures
        encode_record(decode_record(data).unwrap()) == data,
{
    let record = decode_record(data).unwrap();
    lemma_address_of(data.subrange(1, 33));
    assert(encode_record(record) =~= data);
}

} // verus!
