//! SHA-256 digests of input files, as recorded in run metadata.

use vstd::prelude::*;
use crate::text::{hex_lower, to_hex_lower};
use sha2::Digest;

verus! {

/// The SHA-256 digest of `data` (32 bytes).
pub uninterp spec fn sha256_of(data: Seq<u8>) -> Seq<u8>;

/// Calls `sha2::Sha256::digest`. Its contract is believed, not proved: the
/// result is the digest named by [`sha256_of`] for these bytes, and it is 32
/// bytes long (`Sha256`'s output size); nothing else is said of its value.
#[verifier::external_body]
fn sha256_digest(data: &[u8]) -> (r: Vec<u8>)
    ensures
        r@ == sha256_of(data@),
        r@.len() == 32,
{
    sha2::Sha256::digest(data).to_vec()
}

/// Lower-case hexadecimal SHA-256 digest of a file's bytes (64 characters).
pub fn sha256_hex(bytes: &[u8]) -> (r: String)
    ensures
        r@ == hex_lower(sha256_of(bytes@)),
        r@.len() == 64,
{
    let d = sha256_digest(bytes);
    to_hex_lower(d.as_slice())
}

} // verus!
