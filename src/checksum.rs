//! CRC-8 over the two data bytes of every word that the device returns.
use vstd::prelude::*;

verus! {

/// The CRC-8 "NRSC-5" checksum (poly 0x31, init 0xFF, no reflection, no final
/// xor) of a byte sequence, as the crc crate computes it.
pub uninterp spec fn crc8_nrsc5(data: Seq<u8>) -> u8;

/// Relies on `crc::Crc::<u8>::checksum` with `crc::CRC_8_NRSC_5`: the result
/// is the checksum of the given bytes, a function of those bytes alone.
#[verifier::external_body]
fn crc8(data: [u8; 2]) -> (r: u8)
    ensures
        r == crc8_nrsc5(data@),
{
    crc::Crc::<u8>::new(&crc::CRC_8_NRSC_5).checksum(&data)
}

/// Checksum of one 2-byte payload, as the device appends it to each word.
pub fn checksum(payload: [u8; 2]) -> (r: u8)
    ensures
        r == crc8_nrsc5(payload@),
{
    crc8(payload)
}

} // verus!
