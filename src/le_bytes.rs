use byteorder::{ByteOrder, LittleEndian};
use vstd::prelude::*;

verus! {

/// The little-endian 16-bit value of `lo` followed by `hi`.
pub open spec fn le16_value(lo: u8, hi: u8) -> int {
    lo + 256 * hi
}

/// The two bytes of `n`, least significant first.
pub open spec fn le16_bytes(n: u16) -> Seq<u8> {
    seq![(n % 256) as u8, (n / 256) as u8]
}

/// The four bytes of `n`, least significant first.
pub open spec fn le32_bytes(n: u32) -> Seq<u8> {
    seq![
        (n % 256) as u8,
        ((n / 256) % 256) as u8,
        ((n / 65536) % 256) as u8,
        (n / 16777216) as u8,
    ]
}

/// Relies on byteorder's `LittleEndian::read_u16`: the two bytes at `at`,
/// least significant first. It panics on fewer than two bytes, which the
/// precondition excludes.
#[verifier::external_body]
pub(crate) fn read_u16_le(data: &[u8], at: usize) -> (r: u16)
    requires
        at + 2 <= data@.len(),
    ensures
        r as int == le16_value(data@[at as int], data@[at + 1]),
{
    LittleEndian::read_u16(&data[at..])
}

/// Relies on byteorder's `LittleEndian::write_u16`: the two bytes of `n`,
/// least significant first.
#[verifier::external_body]
pub(crate) fn write_u16_le(n: u16) -> (r: [u8; 2])
    ensures
        r@ == le16_bytes(n),
{
    let mut buf = [0u8; 2];
    LittleEndian::write_u16(&mut buf, n);
    buf
}

/// Relies on byteorder's `LittleEndian::write_u32`: the four bytes of `n`,
/// least significant first.
#[verifier::external_body]
pub(crate) fn write_u32_le(n: u32) -> (r: [u8; 4])
    ensures
        r@ == le32_bytes(n),
{
    let mut buf = [0u8; 4];
    LittleEndian::write_u32(&mut buf, n);
    buf
}

/// Appends the two little-endian bytes of `n` to `out`.
pub(crate) fn push_u16_le(out: &mut Vec<u8>, n: u16)
    ensures
        final(out)@ == old(out)@ + le16_bytes(n),
{
    let b = write_u16_le(n);
    out.push(b[0]);
    out.push(b[1]);
    assert(out@ =~= old(out)@ + le16_bytes(n));
}

/// Appends the four little-endian bytes of `n` to `out`.
pub(crate) fn push_u32_le(out: &mut Vec<u8>, n: u32)
    ensures
        final(out)@ == old(out)@ + le32_bytes(n),
{
    let b = write_u32_le(n);
    out.push(b[0]);
    out.push(b[1]);
    out.push(b[2]);
    out.push(b[3]);
    assert(out@ =~= old(out)@ + le32_bytes(n));
}

} // verus!
