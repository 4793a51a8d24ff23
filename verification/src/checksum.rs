//! CRC-32 checksums and their four-byte wire form.

use vstd::prelude::*;

verus! {

/// The CRC-32 of `data` with the IEEE 802.3 (Ethernet) polynomial, as
/// `crc::crc32::checksum_ieee` computes it.
pub uninterp spec fn crc32_ieee(data: Seq<u8>) -> u32;

/// Number of bytes a checksum occupies on the wire.
pub const CHECKSUM_LEN: usize = 4;

/// The wire form of a checksum: its four bytes, most significant first.
pub open spec fn checksum_bytes(crc: u32) -> Seq<u8> {
    seq![
        (crc / 0x100_0000) as u8,
        ((crc / 0x1_0000) % 0x100) as u8,
        ((crc / 0x100) % 0x100) as u8,
        (crc % 0x100) as u8,
    ]
}

/// Calls `crc::crc32::checksum_ieee` on `data`.
///
/// Trusted: the result is the value that the outside function gives for these
/// bytes, which depends on the bytes alone. Nothing else is claimed of it.
#[verifier::external_body]
fn checksum_ieee(data: &[u8]) -> (crc: u32)
    ensures
        crc == crc32_ieee(data@),
{
    crc::crc32::checksum_ieee(data)
}

/// Computes the CRC-32 of `data`.
pub fn checksum(data: &[u8]) -> (crc: u32)
    ensures
        crc == crc32_ieee(data@),
{
    checksum_ieee(data)
}

/// Appends the wire form of `crc` to `buffer`.
pub fn append_checksum_value(buffer: &mut Vec<u8>, crc: u32)
    ensures
        final(buffer)@ == old(buffer)@ + checksum_bytes(crc),
{
    let ghost before = buffer@;
    buffer.push((crc / 0x100_0000) as u8);
    buffer.push(((crc / 0x1_0000) % 0x100) as u8);
    buffer.push(((crc / 0x100) % 0x100) as u8);
    buffer.push((crc % 0x100) as u8);
    assert(buffer@ =~= before + checksum_bytes(crc));
}

/// Appends to `buffer` the checksum of everything it holds so far.
pub fn append_checksum(buffer: &mut Vec<u8>)
    ensures
        final(buffer)@ == old(buffer)@ + checksum_bytes(crc32_ieee(old(buffer)@)),
{
    let crc: u32 = checksum_ieee(buffer.as_slice());
    append_checksum_value(buffer, crc);
}

/// Whether the four bytes of `field` are the wire form of `crc`.
pub fn is_checksum_of(field: &[u8], crc: u32) -> (same: bool)
    ensures
        same == (field@ == checksum_bytes(crc)),
{
    if field.len() != CHECKSUM_LEN {
        return false;
    }
    let same: bool = field[0] == (crc / 0x100_0000) as u8 && field[1] == ((crc / 0x1_0000)
        % 0x100) as u8 && field[2] == ((crc / 0x100) % 0x100) as u8 && field[3] == (crc
        % 0x100) as u8;
    assert(same == (field@ =~= checksum_bytes(crc)));
    same
}

/// Two checksums with the same wire form are the same checksum.
pub proof fn lemma_checksum_bytes_injective(a: u32, b: u32)
    requires
        checksum_bytes(a) == checksum_bytes(b),
    ensures
        a == b,
{
    let x = checksum_bytes(a);
    let y = checksum_bytes(b);
    assert(x[0] == y[0] && x[1] == y[1] && x[2] == y[2] && x[3] == y[3]);
}

} // verus!
