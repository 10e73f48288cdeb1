use sha2::{Digest, Sha256};
use vstd::prelude::*;
use vstd::utf8::{decode_utf8, valid_utf8};

verus! {

/// The SHA-256 digest of the UTF-8 encoding of a text.
pub uninterp spec fn sha256_of(text: Seq<char>) -> Seq<u8>;

/// A byte string read as UTF-8, each invalid sequence replaced by U+FFFD.
pub uninterp spec fn lossy_text_of(bytes: Seq<u8>) -> Seq<char>;

/// Relies on sha2's `Digest::digest` for `Sha256`: the digest of the text's
/// bytes, whose output size is 32 bytes.
#[verifier::external_body]
pub(crate) fn sha256(s: &str) -> (r: Vec<u8>)
    ensures
        r@ == sha256_of(s@),
        r@.len() == 32,
{
    Sha256::digest(s.as_bytes()).to_vec()
}

/// Relies on `String::from_utf8_lossy`: the bytes read as UTF-8 with invalid
/// sequences replaced; bytes that are valid UTF-8 are read as they are.
#[verifier::external_body]
pub(crate) fn text_of_bytes(bytes: &[u8]) -> (r: String)
    ensures
        r@ == lossy_text_of(bytes@),
        valid_utf8(bytes@) ==> r@ == decode_utf8(bytes@),
{
    String::from_utf8_lossy(bytes).into_owned()
}

} // verus!
