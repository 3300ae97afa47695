//! Checksums used by the roster blob and the file wrapper.
//!
//! Both algorithms come from outside crates; their results are given names
//! (`crc16_of`, `sha256_of`) rather than restated, and every contract in the
//! crate speaks of those names.

use vstd::prelude::*;

verus! {

/// The CRC-16/BUYPASS checksum of a byte sequence, as computed by the
/// `crc16` crate.
pub uninterp spec fn crc16_of(bytes: Seq<u8>) -> u16;

/// Relies on `crc16::State::<BUYPASS>::calculate`: the checksum depends on
/// the input bytes alone.
#[verifier::external_body]
pub fn crc16_buypass(bytes: &[u8]) -> (r: u16)
    ensures
        r == crc16_of(bytes@),
{
    crc16::State::<crc16::BUYPASS>::calculate(bytes)
}

/// The SHA-256 digest of a byte sequence, as computed by the `sha2` crate.
pub uninterp spec fn sha256_of(bytes: Seq<u8>) -> Seq<u8>;

/// Relies on `sha2::Sha256::digest`: the digest depends on the input bytes
/// alone and is always 32 bytes long.
#[verifier::external_body]
pub fn sha256(bytes: &[u8]) -> (r: Vec<u8>)
    ensures
        r@ == sha256_of(bytes@),
        r@.len() == 32,
{
    <sha2::Sha256 as sha2::Digest>::digest(bytes).to_vec()
}

} // verus!
