use vstd::prelude::*;
use crate::hexcodec::{hex_encode, spec_hex_encode};

verus! {

/// The 32-byte BLAKE3 digest of a byte string.
pub uninterp spec fn blake3_digest(data: Seq<u8>) -> Seq<u8>;

/// `blake3::hash`: the digest depends on the input bytes alone.
#[verifier::external_body]
pub(crate) fn blake3_hash(data: &[u8]) -> (h: [u8; 32])
    ensures
        h@ == blake3_digest(data@),
{
    *blake3::hash(data).as_bytes()
}

/// The textual form of a contribution's hash: lowercase hexadecimal of its BLAKE3 digest.
pub open spec fn spec_hash_text(data: Seq<u8>) -> Seq<char> {
    spec_hex_encode(blake3_digest(data))
}

/// The textual hash of some bytes.
pub fn hash_text(data: &[u8]) -> (s: String)
    ensures
        s@ == spec_hash_text(data@),
{
    let h = blake3_hash(data);
    hex_encode(&h)
}

/// Whether uploaded bytes match the hash the contributor announced.
pub fn uploaded_hash_matches(data: &[u8], claimed: &str) -> (ok: bool)
    ensures
        ok == (spec_hash_text(data@) == claimed@),
{
    let h = hash_text(data);
    let c = claimed.to_owned();
    h == c
}

} // verus!
