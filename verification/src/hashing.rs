//! The hash-lock side of the library: SHA-256 digests, their lowercase hex
//! encoding, and the shape check for the 64-character hex strings that stand
//! for 32-byte values (hash locks, commitments, nullifiers).

use vstd::prelude::*;
use sha2::Digest;
use vstd::string::StringSliceAdditionalSpecFns;
use vstd::utf8::encode_utf8;
use vstd::utf8::is_ascii_chars;

verus! {

/// The SHA-256 digest of a byte sequence. The digest is a pure function of
/// the input bytes alone; its definition is far too large to state here, so
/// only this name is given to it.
pub uninterp spec fn sha256_of(bytes: Seq<u8>) -> Seq<u8>;

/// Relies on sha2::Sha256 through the digest traits: the digest depends on
/// the input bytes alone and is 32 bytes long.
#[verifier::external_body]
fn sha256_digest(bytes: &[u8]) -> (r: Vec<u8>)
    ensures
        r@ == sha256_of(bytes@),
        r@.len() == 32,
{
    sha2::Sha256::digest(bytes).to_vec()
}

/// The sixteen lowercase hexadecimal digits, in value order.
pub open spec fn hex_digits() -> Seq<char> {
    seq!['0', '1', '2', '3', '4', '5', '6', '7', '8', '9', 'a', 'b', 'c', 'd', 'e', 'f']
}

/// Lowercase hex encoding of a byte sequence: two digits per byte, high
/// nibble first.
pub open spec fn hex_of(bytes: Seq<u8>) -> Seq<char> {
    Seq::new(
        2 * bytes.len(),
        |i: int|
            if i % 2 == 0 {
                hex_digits()[(bytes[i / 2] / 16) as int]
            } else {
                hex_digits()[(bytes[i / 2] % 16) as int]
            },
    )
}

/// Relies on hex::encode: lowercase digits from the table "0123456789abcdef",
/// two per byte, high nibble first.
#[verifier::external_body]
fn hex_encode(bytes: &[u8]) -> (r: String)
    ensures
        r@ == hex_of(bytes@),
{
    hex::encode(bytes)
}

/// The hash lock that a secret opens: the lowercase hex encoding of the
/// SHA-256 digest of the secret's UTF-8 bytes.
pub open spec fn hash_lock_of(secret: Seq<char>) -> Seq<char> {
    hex_of(sha256_of(encode_utf8(secret)))
}

/// Hash a candidate secret into the string that is compared against a stored
/// hash lock.
pub fn hash_secret(secret: &str) -> (r: String)
    ensures
        r@ == hash_lock_of(secret@),
{
    let digest = sha256_digest(secret.as_bytes());
    hex_encode(digest.as_slice())
}

/// The shape of a stored 32-byte value: 64 characters, each ASCII. Only the
/// length and the character width are checked, never the digits themselves;
/// cryptographic matching happens when a lock is opened.
pub open spec fn is_key64(s: Seq<char>) -> bool {
    s.len() == 64 && is_ascii_chars(s)
}

/// Check that a string has the 64-character ASCII shape of a hex-encoded
/// 32-byte value.
pub fn key64_check(s: &String) -> (r: bool)
    ensures
        r == is_key64(s@),
{
    let st = s.as_str();
    if st.is_ascii() {
        proof {
            vstd::string::is_ascii_spec_bytes(st);
        }
        st.as_bytes().len() == 64
    } else {
        false
    }
}

} // verus!
