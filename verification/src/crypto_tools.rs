//! Keyed hashes for signing requests.

use vstd::prelude::*;
use base64::Engine;
use hmac::Mac;

verus! {

/// The HMAC-SHA256 tag of `data` under `key`, as the `hmac` and `sha2` crates
/// compute it.
pub uninterp spec fn hmac_sha256_bytes(key: Seq<u8>, data: Seq<u8>) -> Seq<u8>;

/// The text the `base64` crate's standard engine writes for `bytes`.
pub uninterp spec fn base64_text(bytes: Seq<u8>) -> Seq<char>;

/// The lowercase character for four bits.
pub open spec fn spec_hex_digit(v: int) -> char {
    if v == 0 {
        '0'
    } else if v == 1 {
        '1'
    } else if v == 2 {
        '2'
    } else if v == 3 {
        '3'
    } else if v == 4 {
        '4'
    } else if v == 5 {
        '5'
    } else if v == 6 {
        '6'
    } else if v == 7 {
        '7'
    } else if v == 8 {
        '8'
    } else if v == 9 {
        '9'
    } else if v == 10 {
        'a'
    } else if v == 11 {
        'b'
    } else if v == 12 {
        'c'
    } else if v == 13 {
        'd'
    } else if v == 14 {
        'e'
    } else {
        'f'
    }
}

/// Two lowercase hexadecimal digits for each byte, the high four bits first.
pub open spec fn spec_hex(bytes: Seq<u8>) -> Seq<char>
    decreases bytes.len(),
{
    if bytes.len() == 0 {
        Seq::empty()
    } else {
        spec_hex(bytes.drop_last()).push(spec_hex_digit(bytes.last() as int / 16)).push(
            spec_hex_digit(bytes.last() as int % 16),
        )
    }
}

/// Computes an HMAC with `hmac::Hmac<sha2::Sha256>`: `new_from_slice`, which
/// takes a key of any length, then `update` and `finalize`. The contract
/// names the tag.
#[verifier::external_body]
fn hmac_sha256_digest(key: &[u8], data: &[u8]) -> (r: Vec<u8>)
    ensures
        r@ == hmac_sha256_bytes(key@, data@),
{
    let mut mac = hmac::Hmac::<sha2::Sha256>::new_from_slice(key).expect(
        "HMAC can take key of any size",
    );
    mac.update(data);
    mac.finalize().into_bytes().to_vec()
}

/// Calls `hex::encode`, which writes each byte as two lowercase hexadecimal
/// digits.
#[verifier::external_body]
fn hex_encode(bytes: &[u8]) -> (r: String)
    ensures
        r@ == spec_hex(bytes@),
{
    hex::encode(bytes)
}

/// Calls `encode` of `base64::engine::general_purpose::STANDARD`; the
/// contract names the text.
#[verifier::external_body]
fn base64_encode(bytes: &[u8]) -> (r: String)
    ensures
        r@ == base64_text(bytes@),
{
    base64::engine::general_purpose::STANDARD.encode(bytes)
}

/// The HMAC-SHA256 tag of `data` under `key`, in lowercase hexadecimal.
pub fn hmac_sha256(key: &[u8], data: &[u8]) -> (r: String)
    ensures
        r@ == spec_hex(hmac_sha256_bytes(key@, data@)),
{
    let tag = hmac_sha256_digest(key, data);
    hex_encode(tag.as_slice())
}

/// The HMAC-SHA256 tag of `data` under `key`, in base64.
pub fn hmac_sha256_base64(key: &[u8], data: &[u8]) -> (r: String)
    ensures
        r@ == base64_text(hmac_sha256_bytes(key@, data@)),
{
    let tag = hmac_sha256_digest(key, data);
    base64_encode(tag.as_slice())
}

} // verus!
