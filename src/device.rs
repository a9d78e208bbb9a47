use sha1::Digest;
use vstd::prelude::*;

verus! {

/// The SHA-1 digest of the UTF-8 encoding of a text.
pub uninterp spec fn sha1_of(text: Seq<char>) -> Seq<u8>;

/// The lowercase hexadecimal digit for a value below 16.
pub open spec fn hex_digit(n: int) -> char {
    seq!['0', '1', '2', '3', '4', '5', '6', '7', '8', '9', 'a', 'b', 'c', 'd', 'e', 'f'][n]
}

/// Two lowercase hexadecimal digits per byte, high half first.
pub open spec fn hex_text(bytes: Seq<u8>) -> Seq<char> {
    Seq::new(
        2 * bytes.len(),
        |i: int|
            if i % 2 == 0 {
                hex_digit(bytes[i / 2] as int / 16)
            } else {
                hex_digit(bytes[i / 2] as int % 16)
            },
    )
}

/// Relies on `sha1::Sha1::digest` (the `digest::Digest` trait): the
/// 20-byte SHA-1 digest of the text's UTF-8 bytes, which depends on the
/// text alone.
#[verifier::external_body]
fn sha1_digest(text: &str) -> (r: Vec<u8>)
    ensures
        r@ == sha1_of(text@),
        r@.len() == 20,
{
    sha1::Sha1::digest(text.as_bytes()).to_vec()
}

/// Relies on `hex::encode`: each byte becomes two lowercase hexadecimal
/// digits, high half first, in the order of the bytes.
#[verifier::external_body]
fn hex_encode(bytes: &Vec<u8>) -> (r: String)
    ensures
        r@ == hex_text(bytes@),
{
    hex::encode(bytes)
}

/// Writes a digest as lowercase hexadecimal text.
pub fn digest_hex(digest: &Vec<u8>) -> (r: String)
    ensures
        r@ == hex_text(digest@),
        r@.len() == 2 * digest@.len(),
{
    hex_encode(digest)
}

/// The device identity derived from a device name: the hexadecimal text of
/// the SHA-1 digest of the name, 40 characters long.
pub fn device_id(name: &str) -> (r: String)
    ensures
        r@ == hex_text(sha1_of(name@)),
        r@.len() == 40,
{
    let digest = sha1_digest(name);
    digest_hex(&digest)
}

} // verus!
