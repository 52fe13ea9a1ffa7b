//! Reading a 64-bit value out of raw randomness bytes.

use vstd::prelude::*;

verus! {

/// The big-endian interpretation of an eight-byte sequence.
pub open spec fn spec_be_u64(s: Seq<u8>) -> u64
    recommends
        s.len() == 8,
{
    (s[0] * 0x100000000000000 + s[1] * 0x1000000000000 + s[2] * 0x10000000000 + s[3] * 0x100000000
        + s[4] * 0x1000000 + s[5] * 0x10000 + s[6] * 0x100 + s[7]) as u64
}

/// The first eight bytes read as a big-endian unsigned 64-bit integer.
pub fn be_bytes_to_u64(bytes: &Vec<u8>) -> (n: u64)
    requires
        bytes@.len() >= 8,
    ensures
        n == spec_be_u64(bytes@.take(8)),
{
    let n: u64 = (bytes[0] as u64) * 0x100000000000000 + (bytes[1] as u64) * 0x1000000000000
        + (bytes[2] as u64) * 0x10000000000 + (bytes[3] as u64) * 0x100000000
        + (bytes[4] as u64) * 0x1000000 + (bytes[5] as u64) * 0x10000 + (bytes[6] as u64) * 0x100
        + (bytes[7] as u64);
    n
}

} // verus!
