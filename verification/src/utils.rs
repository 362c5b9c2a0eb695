//! Identities derived from names.
use vstd::prelude::*;

use crate::wire::u32_at;

verus! {

/// The MD5 digest of `data` (sixteen bytes).
pub uninterp spec fn md5_digest(data: Seq<u8>) -> Seq<u8>;

/// Calls `md5::compute` on `data`; its result is the digest of exactly
/// those bytes, handed out as its sixteen bytes.
#[verifier::external_body]
fn md5_compute(data: &[u8]) -> (r: [u8; 16])
    ensures
        r@ == md5_digest(data@),
{
    md5::compute(data).0
}

/// The identity taken from a digest: its first four bytes, little-endian.
pub fn md5_u32id_from_digest(digest: &[u8; 16]) -> (r: u32)
    ensures
        r == u32_at(digest@, 0),
{
    (digest[0] as u32) + 256 * (digest[1] as u32) + 65536 * (digest[2] as u32) + 16777216 * (
    digest[3] as u32)
}

/// A 32-bit identity for a name: the first four bytes of the MD5 digest of
/// its UTF-8 bytes, little-endian. (Two names may share one.)
pub fn get_md5_u32id(long_string: &str) -> (r: u32)
    ensures
        r == u32_at(md5_digest(vstd::utf8::encode_utf8(long_string@)), 0),
{
    let digest = md5_compute(long_string.as_bytes());
    md5_u32id_from_digest(&digest)
}

} // verus!
