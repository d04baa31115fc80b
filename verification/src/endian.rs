//! Big-endian integers on the wire.

use vstd::prelude::*;

verus! {

/// Big-endian encoding of a 16-bit value.
pub open spec fn be16(n: u16) -> Seq<u8> {
    seq![(n / 256) as u8, (n % 256) as u8]
}

/// Big-endian encoding of a 64-bit value.
#[verifier::opaque]
pub open spec fn be64(n: u64) -> Seq<u8> {
    seq![
        (n / 0x100_0000_0000_0000) as u8,
        (n / 0x1_0000_0000_0000 % 256) as u8,
        (n / 0x100_0000_0000 % 256) as u8,
        (n / 0x1_0000_0000 % 256) as u8,
        (n / 0x100_0000 % 256) as u8,
        (n / 0x1_0000 % 256) as u8,
        (n / 0x100 % 256) as u8,
        (n % 256) as u8,
    ]
}

/// The 16-bit value whose big-endian encoding is `hi`, `lo`.
pub open spec fn be16_value(hi: u8, lo: u8) -> u16 {
    (hi * 256 + lo) as u16
}

/// The 64-bit value whose big-endian encoding is the first eight bytes of `s`.
pub open spec fn be64_value(s: Seq<u8>) -> u64
    recommends
        s.len() >= 8,
{
    (s[0] * 0x100_0000_0000_0000 + s[1] * 0x1_0000_0000_0000 + s[2] * 0x100_0000_0000 + s[3]
        * 0x1_0000_0000 + s[4] * 0x100_0000 + s[5] * 0x1_0000 + s[6] * 0x100 + s[7]) as u64
}

/// A 16-bit value is read back from its two bytes.
pub proof fn lemma_be16_round_trip(n: u16)
    ensures
        be16(n).len() == 2,
        be16_value(be16(n)[0], be16(n)[1]) == n,
{
}

/// A 64-bit value is written as eight bytes.
pub proof fn lemma_be64_len(n: u64)
    ensures
        be64(n).len() == 8,
{
    reveal(be64);
}

/// A 64-bit value is read back from its eight bytes.
pub proof fn lemma_be64_round_trip(n: u64)
    ensures
        be64(n).len() == 8,
        be64_value(be64(n)) == n,
{
    reveal(be64);
    assert(n == ((n / 0x100_0000_0000_0000) as u8) * 0x100_0000_0000_0000 + ((n
        / 0x1_0000_0000_0000 % 256) as u8) * 0x1_0000_0000_0000 + ((n / 0x100_0000_0000 % 256) as u8)
        * 0x100_0000_0000 + ((n / 0x1_0000_0000 % 256) as u8) * 0x1_0000_0000 + ((n / 0x100_0000
        % 256) as u8) * 0x100_0000 + ((n / 0x1_0000 % 256) as u8) * 0x1_0000 + ((n / 0x100
        % 256) as u8) * 0x100 + ((n % 256) as u8)) by (bit_vector);
}

/// Reads the big-endian 16-bit value at `at`.
pub(crate) fn read_be16(bytes: &[u8], at: usize) -> (n: u16)
    requires
        at + 2 <= bytes@.len(),
    ensures
        n == be16_value(bytes@[at as int], bytes@[at + 1]),
{
    let hi: u16 = bytes[at] as u16;
    let lo: u16 = bytes[at + 1] as u16;
    hi * 256 + lo
}

/// Reads the big-endian 64-bit value at `at`.
pub(crate) fn read_be64(bytes: &[u8], at: usize) -> (n: u64)
    requires
        at + 8 <= bytes@.len(),
    ensures
        n == be64_value(bytes@.subrange(at as int, at + 8)),
{
    let b0: u64 = bytes[at] as u64;
    let b1: u64 = bytes[at + 1] as u64;
    let b2: u64 = bytes[at + 2] as u64;
    let b3: u64 = bytes[at + 3] as u64;
    let b4: u64 = bytes[at + 4] as u64;
    let b5: u64 = bytes[at + 5] as u64;
    let b6: u64 = bytes[at + 6] as u64;
    let b7: u64 = bytes[at + 7] as u64;
    b0 * 0x100_0000_0000_0000 + b1 * 0x1_0000_0000_0000 + b2 * 0x100_0000_0000 + b3
        * 0x1_0000_0000 + b4 * 0x100_0000 + b5 * 0x1_0000 + b6 * 0x100 + b7
}

} // verus!
