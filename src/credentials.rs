use vstd::prelude::*;
use vstd::utf8::encode_utf8;
use sha2::Digest;

verus! {

/// The SHA-256 digest of a byte string.
pub uninterp spec fn sha256_of(data: Seq<u8>) -> Seq<u8>;

/// The lower-case hexadecimal digits.
pub open spec fn hex_digits() -> Seq<char> {
    seq!['0', '1', '2', '3', '4', '5', '6', '7', '8', '9', 'a', 'b', 'c', 'd', 'e', 'f']
}

/// Each byte as two lower-case hexadecimal digits, high nibble first.
pub open spec fn hex_text(bytes: Seq<u8>) -> Seq<char>
    decreases bytes.len(),
{
    if bytes.len() == 0 {
        Seq::empty()
    } else {
        let b = bytes.last();
        hex_text(bytes.drop_last()) + seq![hex_digits()[b as int / 16], hex_digits()[b as int % 16]]
    }
}

/// How a password is stored: the hexadecimal text of the SHA-256 digest of its UTF-8 bytes.
pub open spec fn password_hash_of(password: Seq<char>) -> Seq<char> {
    hex_text(sha256_of(encode_utf8(password)))
}

/// Relies on sha2::Sha256 (new, update, finalize): the 32-byte SHA-256 digest of the input.
#[verifier::external_body]
fn sha256_digest(data: &[u8]) -> (r: Vec<u8>)
    ensures
        r@ == sha256_of(data@),
        r@.len() == 32,
{
    let mut hasher = sha2::Sha256::new();
    hasher.update(data);
    hasher.finalize().to_vec()
}

/// Relies on hex::encode: two lower-case hexadecimal digits per byte, in order.
#[verifier::external_body]
fn hex_encode(bytes: &[u8]) -> (r: String)
    ensures
        r@ == hex_text(bytes@),
{
    hex::encode(bytes)
}

/// Relies on uuid::Uuid::new_v4 and its hyphenated text form: a fresh random identifier.
#[verifier::external_body]
pub(crate) fn new_identifier() -> (r: String) {
    uuid::Uuid::new_v4().to_string()
}

/// The stored form of a password.
pub fn password_hash(password: &str) -> (r: String)
    ensures
        r@ == password_hash_of(password@),
{
    let digest = sha256_digest(password.as_bytes());
    hex_encode(digest.as_slice())
}

} // verus!
