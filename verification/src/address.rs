//! Account addresses and the little-endian integers of the wire formats.
use vstd::prelude::*;

verus! {

/// An account address: the 32 bytes of a public key, or of an address derived
/// for a program.
pub type Address = [u8; 32];

/// Whether two addresses are the same.
pub fn same_address(a: &Address, b: &Address) -> (same: bool)
    ensures
        same == (a@ == b@),
{
    let mut i: usize = 0;
    while i < 32
        invariant
            i <= 32,
            forall|j: int| 0 <= j < i ==> a@[j] == b@[j],
        decreases 32 - i,
    {
        if a[i] != b[i] {
            return false;
        }
        i += 1;
    }
    assert(a@ =~= b@);
    true
}

/// The 32 bytes of `src` that start at `offset`, as an address.
pub fn read_address(src: &[u8], offset: usize) -> (address: Address)
    requires
        offset + 32 <= src.len(),
    ensures
        address@ == src@.subrange(offset as int, offset + 32),
{
    let mut address: Address = [0u8; 32];
    let mut i: usize = 0;
    while i < 32
        invariant
            i <= 32,
            offset + 32 <= src.len(),
            forall|j: int| 0 <= j < i ==> address@[j] == src@[offset + j],
        decreases 32 - i,
    {
        address[i] = src[offset + i];
        i += 1;
    }
    address
}

/// Writes `address` into the 32 bytes of `dst` that start at `offset`, and
/// leaves the other bytes as they are.
pub fn write_address(dst: &mut [u8], offset: usize, address: &Address)
    requires
        offset + 32 <= old(dst).len(),
    ensures
        final(dst)@.len() == old(dst)@.len(),
        forall|i: int|
            0 <= i < old(dst)@.len() ==> #[trigger] final(dst)@[i] == if offset <= i < offset + 32 {
                address@[i - offset]
            } else {
                old(dst)@[i]
            },
{
    let mut i: usize = 0;
    while i < 32
        invariant
            i <= 32,
            dst@.len() == old(dst)@.len(),
            offset + 32 <= dst.len(),
            forall|j: int|
                0 <= j < dst@.len() ==> #[trigger] dst@[j] == if offset <= j < offset + i {
                    address@[j - offset]
                } else {
                    old(dst)@[j]
                },
        decreases 32 - i,
    {
        dst[offset + i] = address[i];
        i += 1;
    }
}

/// The 16-bit integer whose little-endian bytes are `low`, `high`.
pub open spec fn le_u16(low: u8, high: u8) -> u16 {
    (low as int + 256 * (high as int)) as u16
}

/// The first little-endian byte of `value`.
pub open spec fn low_byte(value: u16) -> u8 {
    (value % 256) as u8
}

/// The second little-endian byte of `value`.
pub open spec fn high_byte(value: u16) -> u8 {
    (value / 256) as u8
}

/// Reads a 16-bit integer from its two little-endian bytes.
pub fn u16_from_le(low: u8, high: u8) -> (value: u16)
    ensures
        value == le_u16(low, high),
        low_byte(value) == low,
        high_byte(value) == high,
{
    low as u16 + 256 * (high as u16)
}

/// The two little-endian bytes of a 16-bit integer, first byte first.
pub fn u16_to_le(value: u16) -> (bytes: (u8, u8))
    ensures
        bytes.0 == low_byte(value),
        bytes.1 == high_byte(value),
        le_u16(bytes.0, bytes.1) == value,
{
    ((value % 256) as u8, (value / 256) as u8)
}

} // verus!
