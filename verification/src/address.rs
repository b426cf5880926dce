//! Addresses of accounts and programs, and the addresses of the programs that
//! a settlement calls.

use vstd::prelude::*;
use vstd::std_specs::cmp::PartialEqSpecImpl;

verus! {

/// Number of bytes in an address.
pub const ADDRESS_LEN: usize = 32;

/// Address of an account or of a program.
///
/// Two addresses are the same address exactly when their bytes agree.
#[derive(Clone, Copy, Debug, Eq, Hash)]
pub struct Address {
    pub bytes: [u8; 32],
}

impl View for Address {
    type V = Seq<u8>;

    open spec fn view(&self) -> Seq<u8> {
        self.bytes@
    }
}

impl PartialEq for Address {
    fn eq(&self, other: &Address) -> (same: bool) {
        let mut i: usize = 0;
        while i < 32
            invariant
                i <= 32,
                forall|k: int| 0 <= k < i ==> self.bytes[k] == other.bytes[k],
            decreases 32 - i,
        {
            if self.bytes[i] != other.bytes[i] {
                return false;
            }
            i += 1;
        }
        assert(self.bytes@ =~= other.bytes@);
        true
    }
}

impl PartialEqSpecImpl for Address {
    open spec fn obeys_eq_spec() -> bool {
        true
    }

    open spec fn eq_spec(&self, other: &Address) -> bool {
        self@ == other@
    }
}

impl Address {
    /// The address made of the given bytes.
    pub fn new(bytes: [u8; 32]) -> (a: Address)
        ensures
            a.bytes == bytes,
    {
        Address { bytes }
    }

    /// The bytes of the address, as a slice.
    pub fn as_slice(&self) -> (s: &[u8])
        ensures
            s@ == self@,
    {
        vstd::array::array_as_slice(&self.bytes)
    }

    /// Addresses with the same bytes are the same address.
    pub proof fn lemma_view_injective(self, other: Address)
        ensures
            (self@ == other@) <==> (self == other),
    {
        if self@ == other@ {
            assert(self.bytes =~= other.bytes);
        }
    }
}

/// The address with the given thirty-two bytes.
pub open spec fn address_of(bytes: Seq<u8>) -> Address
    recommends
        bytes.len() == ADDRESS_LEN,
{
    choose|a: Address| a@ == bytes
}

/// The array that agrees with `bytes` in its first `n` places and with
/// `start` in the others.
spec fn filled(start: [u8; 32], bytes: Seq<u8>, n: nat) -> [u8; 32]
    decreases n,
{
    if n == 0 {
        start
    } else {
        vstd::array::spec_array_update(filled(start, bytes, (n - 1) as nat), n - 1, bytes[n - 1])
    }
}

proof fn lemma_filled(start: [u8; 32], bytes: Seq<u8>, n: nat)
    requires
        n <= 32,
        bytes.len() == 32,
    ensures
        forall|k: int| 0 <= k < n ==> filled(start, bytes, n)@[k] == bytes[k],
    decreases n,
{
    if n > 0 {
        lemma_filled(start, bytes, (n - 1) as nat);
    }
}

/// Every thirty-two bytes are the bytes of an address, and `address_of`
/// names it.
pub proof fn lemma_address_of(bytes: Seq<u8>)
    requires
        bytes.len() == ADDRESS_LEN,
    ensures
        address_of(bytes)@ == bytes,
{
    lemma_filled(SYSTEM_PROGRAM_ID, bytes, 32);
    let witness = Address { bytes: filled(SYSTEM_PROGRAM_ID, bytes, 32) };
    assert(witness@ =~= bytes);
}

/// `address_of` turns the bytes of an address back into that address.
pub proof fn lemma_address_of_view(a: Address)
    ensures
        address_of(a@) == a,
{
    a.lemma_view_injective(address_of(a@));
}

/// Address of the token ledger program.
pub const TOKEN_PROGRAM_ID: [u8; 32] = [
    6, 221, 246, 225, 215, 101, 161, 147, 217, 203, 225, 70, 206, 235, 121, 172,
    28, 180, 133, 237, 95, 91, 55, 145, 58, 140, 245, 133, 126, 255, 0, 169,
];

/// Address of the program that provisions associated token accounts.
pub const ASSOCIATED_TOKEN_PROGRAM_ID: [u8; 32] = [
    140, 151, 37, 143, 78, 36, 137, 241, 187, 61, 16, 41, 20, 142, 13, 131,
    11, 90, 19, 153, 218, 255, 16, 132, 4, 142, 123, 216, 219, 233, 248, 89,
];

/// Address of the system program.
pub const SYSTEM_PROGRAM_ID: [u8; 32] = [
    0, 0, 0, 0, 0, 0, 0, 0, 0, 0, 0, 0, 0, 0, 0, 0,
    0, 0, 0, 0, 0, 0, 0, 0, 0, 0, 0, 0, 0, 0, 0, 0,
];

} // verus!
