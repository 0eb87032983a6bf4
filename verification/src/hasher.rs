//! Content hashing: bytes to the lowercase hex form of their SHA-256 digest,
//! and the file names built from it.

use sha2::Digest;
use sha2::Sha256;
use vstd::prelude::*;
use vstd::string::StringExecFns;

verus! {

/// The SHA-256 digest of `data`, as computed by the `sha2` crate.
pub uninterp spec fn sha256_digest(data: Seq<u8>) -> Seq<u8>;

/// The sixteen lowercase hexadecimal digits, by value.
pub open spec fn hex_digits() -> Seq<char> {
    seq!['0', '1', '2', '3', '4', '5', '6', '7', '8', '9', 'a', 'b', 'c', 'd', 'e', 'f']
}

/// Two lowercase hex digits per byte, the high nibble first.
pub open spec fn hex_string(bytes: Seq<u8>) -> Seq<char> {
    Seq::new(
        2 * bytes.len(),
        |i: int|
            if i % 2 == 0 {
                hex_digits()[bytes[i / 2] as int / 16]
            } else {
                hex_digits()[bytes[i / 2] as int % 16]
            },
    )
}

/// The content hash of `data`: 64 lowercase hex characters.
pub open spec fn content_hash(data: Seq<u8>) -> Seq<char> {
    hex_string(sha256_digest(data))
}

/// The stored name of `data` under extension `ext`: `{hash}.{ext}`.
pub open spec fn hash_filename(data: Seq<u8>, ext: Seq<char>) -> Seq<char> {
    content_hash(data) + seq!['.'] + ext
}

/// Calls `sha2::Sha256::digest`. Trusted: the result is the digest of `data`,
/// a function of the bytes alone, and is 32 bytes long.
#[verifier::external_body]
pub(crate) fn sha256(data: &[u8]) -> (digest: Vec<u8>)
    ensures
        digest@ == sha256_digest(data@),
        digest@.len() == 32,
{
    Sha256::digest(data).to_vec()
}

/// Calls `hex::encode`. Trusted: each byte becomes two lowercase hex digits,
/// high nibble first, in order.
#[verifier::external_body]
pub(crate) fn hex_encode(bytes: &[u8]) -> (text: String)
    ensures
        text@ == hex_string(bytes@),
{
    hex::encode(bytes)
}

/// The lowercase hex SHA-256 of `data`.
pub fn hash_hex(data: &[u8]) -> (text: String)
    ensures
        text@ == content_hash(data@),
        text@.len() == 64,
{
    let digest = sha256(data);
    hex_encode(digest.as_slice())
}

/// The content-addressed file name of `data`: its hash, a dot, and `ext`.
pub fn get_hash_filename(data: &[u8], ext: &str) -> (name: String)
    ensures
        name@ == hash_filename(data@, ext@),
        name@.len() == 65 + ext@.len(),
{
    let mut name = hash_hex(data);
    proof {
        reveal_strlit(".");
        assert("."@ =~= seq!['.']);
    }
    name.append(".");
    name.append(ext);
    name
}

/// Hashing is a function of the bytes: equal contents get equal hashes and
/// equal stored names.
pub proof fn lemma_hash_deterministic(a: Seq<u8>, b: Seq<u8>, ext: Seq<char>)
    requires
        a == b,
    ensures
        content_hash(a) == content_hash(b),
        hash_filename(a, ext) == hash_filename(b, ext),
{
}

/// Whether `c` is a lowercase hexadecimal digit.
pub open spec fn is_lower_hex(c: char) -> bool {
    ('0' <= c <= '9') || ('a' <= c <= 'f')
}

/// A hex string has two characters for each byte, every one of them a
/// lowercase hexadecimal digit.
pub proof fn lemma_hex_string_shape(bytes: Seq<u8>)
    ensures
        hex_string(bytes).len() == 2 * bytes.len(),
        forall|i: int| 0 <= i < hex_string(bytes).len() ==> is_lower_hex(#[trigger] hex_string(bytes)[i]),
{
    assert forall|i: int| 0 <= i < hex_string(bytes).len() implies is_lower_hex(
        #[trigger] hex_string(bytes)[i],
    ) by {
        let b = bytes[i / 2] as int;
        let d = if i % 2 == 0 {
            b / 16
        } else {
            b % 16
        };
        assert(0 <= d < 16);
        assert(hex_string(bytes)[i] == hex_digits()[d]);
        assert(forall|k: int| 0 <= k < 16 ==> is_lower_hex(#[trigger] hex_digits()[k]));
    }
}

} // verus!
