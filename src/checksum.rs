use vstd::prelude::*;
use crypto::digest::Digest;

verus! {

/// The lowercase hexadecimal SHA-256 digest of `content`.
pub uninterp spec fn sha256_hex(content: Seq<u8>) -> Seq<char>;

/// A lowercase hexadecimal digit.
pub open spec fn is_hex_digit(c: char) -> bool {
    ('0' <= c && c <= '9') || ('a' <= c && c <= 'f')
}

/// Relies on crypto::sha2::Sha256 (`input`, then `result_str`): the 256-bit
/// digest of the bytes fed in, written as 64 lowercase hexadecimal digits.
#[verifier::external_body]
fn sha256_of(content: &[u8]) -> (r: String)
    ensures
        r@ == sha256_hex(content@),
        r@.len() == 64,
        forall|i: int| 0 <= i < r@.len() ==> is_hex_digit(#[trigger] r@[i]),
{
    let mut hasher = crypto::sha2::Sha256::new();
    hasher.input(content);
    hasher.result_str()
}

/// The content fingerprint of a regular file's bytes. Two files have the same
/// content exactly when their fingerprints are equal.
pub fn hash(content: &[u8]) -> (r: String)
    ensures
        r@ == sha256_hex(content@),
        r@.len() == 64,
        forall|i: int| 0 <= i < r@.len() ==> is_hex_digit(#[trigger] r@[i]),
{
    sha256_of(content)
}

} // verus!
