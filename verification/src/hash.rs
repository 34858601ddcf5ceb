//! The hash behind message identifiers.

use vstd::prelude::*;

verus! {

/// The Keccak-256 digest of a byte string; always 32 bytes long.
pub uninterp spec fn spec_keccak256(data: Seq<u8>) -> Seq<u8>;

/// Relies on sha3's Keccak256 (through the Digest trait): the digest is a
/// function of the input bytes alone and is exactly 32 bytes long.
#[verifier::external_body]
pub fn keccak256(data: &[u8]) -> (r: [u8; 32])
    ensures
        r@ == spec_keccak256(data@),
{
    let digest = <sha3::Keccak256 as sha3::Digest>::digest(data);
    let mut out = [0u8; 32];
    out.copy_from_slice(&digest);
    out
}

} // verus!
