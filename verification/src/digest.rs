//! Content digests: the SHA-256 hash of some bytes, written in hexadecimal
//! behind the name of the algorithm.

use sha2::Digest;
use sha2::Sha256;
use vstd::prelude::*;
use vstd::string::StringExecFns;

verus! {

/// The SHA-256 hash of `data`.
pub uninterp spec fn sha256(data: Seq<u8>) -> Seq<u8>;

/// Hashes `data` with `sha2::Sha256::digest`. The contract only gives the
/// result its name: the hash is a function of the bytes and of nothing else.
#[verifier::external_body]
fn sha256_bytes(data: &[u8]) -> (hash: Vec<u8>)
    ensures
        hash@ == sha256(data@),
{
    Sha256::digest(data).to_vec()
}

/// The lowercase hexadecimal digit for `n`.
pub open spec fn hex_digit(n: int) -> char
    recommends
        0 <= n < 16,
{
    if n < 10 {
        crate::text::digit_char(n as nat)
    } else if n == 10 {
        'a'
    } else if n == 11 {
        'b'
    } else if n == 12 {
        'c'
    } else if n == 13 {
        'd'
    } else if n == 14 {
        'e'
    } else {
        'f'
    }
}

/// `bytes` in lowercase hexadecimal: two digits for each byte, the high
/// half first.
pub open spec fn hex_lower(bytes: Seq<u8>) -> Seq<char> {
    Seq::new(
        2 * bytes.len(),
        |i: int|
            if i % 2 == 0 {
                hex_digit(bytes[i / 2] as int / 16)
            } else {
                hex_digit(bytes[i / 2] as int % 16)
            },
    )
}

/// Encodes `bytes` with `hex::encode`, which writes each byte as two
/// lowercase hexadecimal digits, the high half first.
#[verifier::external_body]
fn hex_encode(bytes: &[u8]) -> (text: String)
    ensures
        text@ == hex_lower(bytes@),
{
    hex::encode(bytes)
}

/// The digest that names the content whose hash is `hash`.
pub open spec fn digest_text(hash: Seq<u8>) -> Seq<char> {
    "sha256:"@ + hex_lower(hash)
}

/// The digest of `data`: `sha256:` followed by the hexadecimal SHA-256 hash.
pub open spec fn digest_of(data: Seq<u8>) -> Seq<char> {
    digest_text(sha256(data))
}

/// Writes a hash as a digest: the algorithm's name, a colon, and the hash in
/// lowercase hexadecimal.
pub fn format_digest(hash: &[u8]) -> (digest: String)
    ensures
        digest@ == digest_text(hash@),
{
    String::from_str("sha256:").concat(hex_encode(hash).as_str())
}

/// Computes the digest under which `data` is addressed.
pub fn content_digest(data: &[u8]) -> (digest: String)
    ensures
        digest@ == digest_of(data@),
{
    let hash = sha256_bytes(data);
    format_digest(hash.as_slice())
}

} // verus!
