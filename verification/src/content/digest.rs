//! The digest that names a pack.

use crate::text::{hex, hex_lower};
use sha2::{Digest, Sha256};
use vstd::prelude::*;

verus! {

/// The SHA-256 digest of the bytes.
pub uninterp spec fn sha256(data: Seq<u8>) -> Seq<u8>;

/// `sha2::Sha256::digest`: the digest is 32 bytes long and depends on the bytes alone.
#[verifier::external_body]
fn sha256_digest(data: &[u8]) -> (r: [u8; 32])
    ensures
        r@ == sha256(data@),
{
    Sha256::digest(data).into()
}

/// The name of the pack that encodes to these bytes.
pub open spec fn pack_hash(encoded: Seq<u8>) -> Seq<char> {
    hex(sha256(encoded))
}

/// The digest of the bytes in lower-case hexadecimal.
pub fn digest_text(data: &[u8]) -> (r: String)
    ensures
        r@ == pack_hash(data@),
{
    let digest = sha256_digest(data);
    hex_lower(digest.as_slice())
}

} // verus!
