//! The hash functions by which the cache addresses what it stores. The
//! hashing itself is done by the `ssri`, `sha2` and `hex` crates; this module
//! states what the rest of the cache relies on.
use sha2::Digest;
use vstd::prelude::*;

verus! {

/// The integrity string of `content`: what `ssri` renders for the SHA-256
/// integrity of these bytes.
pub uninterp spec fn integrity_text(content: Seq<u8>) -> Seq<char>;

/// The SHA-256 hash of `data`, as `sha2` computes it.
pub uninterp spec fn sha256(data: Seq<u8>) -> Seq<u8>;

/// The algorithm tag and the separator with which every integrity string
/// that this cache computes begins.
pub open spec fn integrity_prefix() -> Seq<char> {
    seq!['s', 'h', 'a', '2', '5', '6', '-']
}

/// The sixteen lower-case hexadecimal digits, by value.
pub open spec fn hex_digits() -> Seq<char> {
    seq!['0', '1', '2', '3', '4', '5', '6', '7', '8', '9', 'a', 'b', 'c', 'd', 'e', 'f']
}

/// The lower-case hexadecimal text of `bytes`: two digits for each byte, the
/// high half first.
pub open spec fn hex_text(bytes: Seq<u8>) -> Seq<char> {
    Seq::new(
        2 * bytes.len(),
        |i: int|
            if i % 2 == 0 {
                hex_digits()[bytes[i / 2] as int / 16]
            } else {
                hex_digits()[bytes[i / 2] as int % 16]
            },
    )
}

/// Calls `ssri::Integrity::from` on `content` and renders the result with its
/// `Display` impl. Believed of it: the text is a function of the bytes alone;
/// it is the tag `sha256`, a hyphen, and the padded standard base64 of a
/// 32-byte hash, 51 characters in all.
#[verifier::external_body]
pub(crate) fn integrity_of(content: &[u8]) -> (text: String)
    ensures
        text@ == integrity_text(content@),
        text@.len() == 51,
        text@.subrange(0, 7) == integrity_prefix(),
{
    ssri::Integrity::from(content).to_string()
}

/// Calls `sha2::Sha256::digest` on `data`. Believed of it: the hash is a
/// function of the bytes alone and is 32 bytes long.
#[verifier::external_body]
pub(crate) fn sha256_digest(data: &[u8]) -> (hash: Vec<u8>)
    ensures
        hash@ == sha256(data@),
        hash@.len() == 32,
{
    sha2::Sha256::digest(data).to_vec()
}

/// Calls `hex::encode` on `bytes`. Believed of it: each byte becomes its two
/// lower-case hexadecimal digits, in order.
#[verifier::external_body]
pub(crate) fn hex_encode(bytes: &[u8]) -> (text: String)
    ensures
        text@ == hex_text(bytes@),
{
    hex::encode(bytes)
}

/// A hexadecimal text has two characters for each byte, and none of them is a
/// path separator.
pub proof fn lemma_hex_text(bytes: Seq<u8>)
    ensures
        hex_text(bytes).len() == 2 * bytes.len(),
        forall|i: int| 0 <= i < hex_text(bytes).len() ==> hex_text(bytes)[i] != '/',
{
    assert forall|i: int| 0 <= i < hex_text(bytes).len() implies hex_text(bytes)[i] != '/' by {
        let b = bytes[i / 2] as int;
        assert(0 <= b / 16 < 16);
        assert(0 <= b % 16 < 16);
    }
}

} // verus!
