//! The settlement request and its encoding.

use vstd::prelude::*;
use crate::wire::{
    le_u64, lemma_le_u64_of_u64_le, lemma_le_u64_range, lemma_u64_le_of_le_u64, read_u64, u64_le,
    write_u64,
};

verus! {

/// Number of bytes in an encoded settlement request.
pub const REQUEST_LEN: usize = 24;

/// A request to settle against a posted order: which order, how many units
/// the taker buys, and what the taker pays for each.
///
/// The settlement carries the order's id along and decides nothing by it:
/// what is asked of the ledger depends on the amount and the price alone.
#[derive(Clone, Copy, Debug, PartialEq, Eq, Structural)]
pub struct TakeOrder {
    pub id: u64,
    pub amount: u64,
    pub price: u64,
}

/// The bytes that encode a request: order id, amount and price, eight bytes
/// each, least significant byte first.
pub open spec fn encode_request(request: TakeOrder) -> Seq<u8> {
    u64_le(request.id) + u64_le(request.amount) + u64_le(request.price)
}

/// The request that the bytes encode, if they encode one: exactly
/// twenty-four bytes do, any other number of bytes does not.
pub open spec fn decode_request(bytes: Seq<u8>) -> Option<TakeOrder> {
    if bytes.len() == REQUEST_LEN {
        Some(
            TakeOrder {
                id: le_u64(bytes.subrange(0, 8)) as u64,
                amount: le_u64(bytes.subrange(8, 16)) as u64,
                price: le_u64(bytes.subrange(16, 24)) as u64,
            },
        )
    } else {
        None
    }
}

/// What the taker owes for a request, if the product fits in 64 bits.
pub open spec fn payment_due(request: TakeOrder) -> Option<u64> {
    if request.amount * request.price <= u64::MAX {
        Some((request.amount * request.price) as u64)
    } else {
        None
    }
}

impl TakeOrder {
    /// A request for `amount` units of order `id` at `price` each.
    pub fn new(id: u64, amount: u64, price: u64) -> (request: TakeOrder)
        ensures
            request == (TakeOrder { id, amount, price }),
    {
        TakeOrder { id, amount, price }
    }

    /// Decodes a request from its twenty-four bytes.
    pub fn try_from_slice(bytes: &[u8]) -> (request: Option<TakeOrder>)
        ensures
            request == decode_request(bytes@),
    {
        if bytes.len() != REQUEST_LEN {
            return None;
        }
        proof {
            lemma_le_u64_range(bytes@.subrange(0, 8));
            lemma_le_u64_range(bytes@.subrange(8, 16));
            lemma_le_u64_range(bytes@.subrange(16, 24));
        }
        let id = read_u64(bytes, 0);
        let amount = read_u64(bytes, 8);
        let price = read_u64(bytes, 16);
        Some(TakeOrder { id, amount, price })
    }

    /// Encodes the request in twenty-four bytes.
    pub fn to_bytes(&self) -> (bytes: Vec<u8>)
        ensures
            bytes@ == encode_request(*self),
    {
        let mut bytes: Vec<u8> = Vec::new();
        write_u64(&mut bytes, self.id);
        write_u64(&mut bytes, self.amount);
        write_u64(&mut bytes, self.price);
        assert(bytes@ =~= encode_request(*self));
        bytes
    }

    /// What the taker owes: `amount * price`, or nothing where the product
    /// does not fit in 64 bits.
    pub fn payment(&self) -> (due: Option<u64>)
        ensures
            due == payment_due(*self),
    {
        self.amount.checked_mul(self.price)
    }
}

/// A request is read back from its encoding unchanged.
pub proof fn lemma_decode_encode_request(request: TakeOrder)
    ensures
        encode_request(request).len() == REQUEST_LEN,
        decode_request(encode_request(request)) == Some(request),
{
    let bytes = encode_request(request);
    lemma_le_u64_of_u64_le(request.id);
    lemma_le_u64_of_u64_le(request.amount);
    lemma_le_u64_of_u64_le(request.price);
    assert(bytes.subrange(0, 8) =~= u64_le(request.id));
    assert(bytes.subrange(8, 16) =~= u64_le(request.amount));
    assert(bytes.subrange(16, 24) =~= u64_le(request.price));
}

/// Bytes that decode to a request are that request's encoding: no two
/// byte strings stand for the same request.
pub proof fn lemma_encode_decode_request(bytes: Seq<u8>)
    requires
        decode_request(bytes) is Some,
    ensures
        encode_request(decode_request(bytes).unwrap()) == bytes,
{
    lemma_u64_le_of_le_u64(bytes.subrange(0, 8));
    lemma_u64_le_of_le_u64(bytes.subrange(8, 16));
    lemma_u64_le_of_le_u64(bytes.subrange(16, 24));
    assert(bytes.subrange(0, 8) + bytes.subrange(8, 16) + bytes.subrange(16, 24) =~= bytes);
}

} // verus!
