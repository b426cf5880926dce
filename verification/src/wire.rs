//! Unsigned 64-bit integers in eight bytes, least significant byte first.

use vstd::prelude::*;

verus! {

/// The number that eight bytes stand for, least significant byte first.
pub open spec fn le_u64(s: Seq<u8>) -> int
    recommends
        s.len() == 8,
{
    s[0] as int
        + s[1] as int * 0x100
        + s[2] as int * 0x1_0000
        + s[3] as int * 0x100_0000
        + s[4] as int * 0x1_0000_0000
        + s[5] as int * 0x100_0000_0000
        + s[6] as int * 0x1_0000_0000_0000
        + s[7] as int * 0x100_0000_0000_0000
}

/// The eight bytes that stand for a number, least significant byte first.
pub open spec fn u64_le(v: u64) -> Seq<u8> {
    seq![
        (v % 0x100) as u8,
        (v / 0x100 % 0x100) as u8,
        (v / 0x1_0000 % 0x100) as u8,
        (v / 0x100_0000 % 0x100) as u8,
        (v / 0x1_0000_0000 % 0x100) as u8,
        (v / 0x100_0000_0000 % 0x100) as u8,
        (v / 0x1_0000_0000_0000 % 0x100) as u8,
        (v / 0x100_0000_0000_0000 % 0x100) as u8,
    ]
}

/// Eight bytes stand for a number that fits in 64 bits.
pub proof fn lemma_le_u64_range(s: Seq<u8>)
    requires
        s.len() == 8,
    ensures
        0 <= le_u64(s) <= u64::MAX,
{
}

/// Decoding the bytes of a number gives the number back.
pub proof fn lemma_le_u64_of_u64_le(v: u64)
    ensures
        u64_le(v).len() == 8,
        le_u64(u64_le(v)) == v,
{
    assert(v == v % 0x100
        + (v / 0x100 % 0x100) * 0x100
        + (v / 0x1_0000 % 0x100) * 0x1_0000
        + (v / 0x100_0000 % 0x100) * 0x100_0000
        + (v / 0x1_0000_0000 % 0x100) * 0x1_0000_0000
        + (v / 0x100_0000_0000 % 0x100) * 0x100_0000_0000
        + (v / 0x1_0000_0000_0000 % 0x100) * 0x1_0000_0000_0000
        + (v / 0x100_0000_0000_0000 % 0x100) * 0x100_0000_0000_0000) by (bit_vector);
}

/// Encoding the number that eight bytes stand for gives the bytes back.
pub proof fn lemma_u64_le_of_le_u64(s: Seq<u8>)
    requires
        s.len() == 8,
    ensures
        u64_le(le_u64(s) as u64) == s,
{
    lemma_le_u64_range(s);
    let v = le_u64(s) as u64;
    let (b0, b1, b2, b3, b4, b5, b6, b7) = (s[0], s[1], s[2], s[3], s[4], s[5], s[6], s[7]);
    assert(v == b0 as u64 + b1 as u64 * 0x100 + b2 as u64 * 0x1_0000 + b3 as u64 * 0x100_0000
        + b4 as u64 * 0x1_0000_0000 + b5 as u64 * 0x100_0000_0000
        + b6 as u64 * 0x1_0000_0000_0000 + b7 as u64 * 0x100_0000_0000_0000);
    assert(v % 0x100 == b0 as u64
        && v / 0x100 % 0x100 == b1 as u64
        && v / 0x1_0000 % 0x100 == b2 as u64
        && v / 0x100_0000 % 0x100 == b3 as u64
        && v / 0x1_0000_0000 % 0x100 == b4 as u64
        && v / 0x100_0000_0000 % 0x100 == b5 as u64
        && v / 0x1_0000_0000_0000 % 0x100 == b6 as u64
        && v / 0x100_0000_0000_0000 % 0x100 == b7 as u64) by (bit_vector)
        requires
            v == b0 as u64 + b1 as u64 * 0x100 + b2 as u64 * 0x1_0000 + b3 as u64 * 0x100_0000
                + b4 as u64 * 0x1_0000_0000 + b5 as u64 * 0x100_0000_0000
                + b6 as u64 * 0x1_0000_0000_0000 + b7 as u64 * 0x100_0000_0000_0000,
    ;
    assert(u64_le(v) =~= s);
}

/// Reads the number that the eight bytes from `at` on stand for.
pub fn read_u64(bytes: &[u8], at: usize) -> (v: u64)
    requires
        at + 8 <= bytes@.len(),
    ensures
        v == le_u64(bytes@.subrange(at as int, at + 8)),
{
    let ghost s = bytes@.subrange(at as int, at + 8);
    proof {
        lemma_le_u64_range(s);
        assert(forall|k: int| 0 <= k < 8 ==> s[k] == bytes@[at + k]);
    }
    let b0: u64 = bytes[at] as u64;
    let b1: u64 = bytes[at + 1] as u64;
    let b2: u64 = bytes[at + 2] as u64;
    let b3: u64 = bytes[at + 3] as u64;
    let b4: u64 = bytes[at + 4] as u64;
    let b5: u64 = bytes[at + 5] as u64;
    let b6: u64 = bytes[at + 6] as u64;
    let b7: u64 = bytes[at + 7] as u64;
    b0 + b1 * 0x100 + b2 * 0x1_0000 + b3 * 0x100_0000 + b4 * 0x1_0000_0000
        + b5 * 0x100_0000_0000 + b6 * 0x1_0000_0000_0000 + b7 * 0x100_0000_0000_0000
}

/// Appends the eight bytes that stand for `v`.
pub fn write_u64(out: &mut Vec<u8>, v: u64)
    ensures
        final(out)@ == old(out)@ + u64_le(v),
{
    out.push((v % 0x100) as u8);
    out.push((v / 0x100 % 0x100) as u8);
    out.push((v / 0x1_0000 % 0x100) as u8);
    out.push((v / 0x100_0000 % 0x100) as u8);
    out.push((v / 0x1_0000_0000 % 0x100) as u8);
    out.push((v / 0x100_0000_0000 % 0x100) as u8);
    out.push((v / 0x1_0000_0000_0000 % 0x100) as u8);
    out.push((v / 0x100_0000_0000_0000 % 0x100) as u8);
    assert(final(out)@ =~= old(out)@ + u64_le(v));
}

} // verus!
