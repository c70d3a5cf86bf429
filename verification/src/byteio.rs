//! Little-endian integer extraction from byte windows.
//!
//! The mathematical meaning of a little-endian window is given by the spec
//! functions below; the executable readers call into the `byteorder` crate
//! and are trusted to match them.

use vstd::prelude::*;
use byteorder::{ByteOrder, LittleEndian};

verus! {

/// The unsigned value of the two-byte little-endian window of `s` starting
/// at `i`: least significant byte first.
pub open spec fn le16_at(s: Seq<u8>, i: int) -> int
    recommends
        0 <= i,
        i + 2 <= s.len(),
{
    s[i] + 0x100 * s[i + 1]
}

/// The unsigned value of the six-byte little-endian window of `s` starting
/// at `i`: least significant byte first.
pub open spec fn le48_at(s: Seq<u8>, i: int) -> int
    recommends
        0 <= i,
        i + 6 <= s.len(),
{
    s[i] + 0x100 * s[i + 1] + 0x1_0000 * s[i + 2] + 0x100_0000 * s[i + 3]
        + 0x1_0000_0000 * s[i + 4] + 0x100_0000_0000 * s[i + 5]
}

/// Relies on byteorder's `LittleEndian::read_u16`: the unsigned 16-bit value
/// of the first two bytes of `buf`, least significant byte first; it panics
/// on fewer than two bytes.
#[verifier::external_body]
pub(crate) fn read_u16_le(buf: &[u8]) -> (r: u16)
    requires
        buf@.len() == 2,
    ensures
        r == le16_at(buf@, 0),
{
    LittleEndian::read_u16(buf)
}

/// Relies on byteorder's `LittleEndian::read_u48`: the unsigned 48-bit value
/// of the first six bytes of `buf`, least significant byte first; it panics
/// on fewer than six bytes.
#[verifier::external_body]
pub(crate) fn read_u48_le(buf: &[u8]) -> (r: u64)
    requires
        buf@.len() == 6,
    ensures
        r == le48_at(buf@, 0),
{
    LittleEndian::read_u48(buf)
}

} // verus!
