//! The hash functions and hexadecimal codecs that the credential hashes call, from the
//! `iota-crypto`, `b2sum-rs` and `hex` crates.
//!
//! Nothing here is proved: each function below makes one outside call, and its contract
//! is what that crate's source shows of it.
use vstd::prelude::*;
use b2sum_rs::Blake2bSum;
use crypto::hashes::blake2b::Blake2b256;
use sha2::Digest;
use crate::encoding::{is_hex_code, is_hex_text, hex_decoded, lower_hex, upper_hex, ascii_chars, char_codes};

verus! {

/// The BLAKE2b digest of `data` with a 256-bit output, as computed by `iota-crypto`.
pub uninterp spec fn blake2b256(data: Seq<u8>) -> Seq<u8>;

/// The unkeyed BLAKE2b digest of `data` with an output of `digest_size` bytes, as computed
/// by `b2sum-rs` (through `blake2-rfc`).
pub uninterp spec fn blake2b_sum(digest_size: nat, data: Seq<u8>) -> Seq<u8>;

/// Calls `Digest::digest` of `crypto::hashes::blake2b::Blake2b256` on `data`. Claimed: the
/// result is the digest named `blake2b256` of `data`, and it is 32 bytes long (the type's
/// output size is `U32`).
#[verifier::external_body]
pub(crate) fn blake2b256_digest(data: &[u8]) -> (r: Vec<u8>)
    ensures
        r@ == blake2b256(data@),
        r@.len() == 32,
{
    Blake2b256::digest(data).to_vec()
}

/// Calls `Blake2bSum::new(digest_size)` and then its `read_bytes(data)`. `new` panics
/// unless `1 <= digest_size <= 64`, which `requires` keeps out. Claimed, as the source
/// shows: the text is `hex::encode_upper` of the digest named `blake2b_sum`, which has
/// `digest_size` bytes.
#[verifier::external_body]
pub(crate) fn b2sum_read_bytes(digest_size: usize, data: &[u8]) -> (r: String)
    requires
        1 <= digest_size <= 64,
    ensures
        r@ == ascii_chars(upper_hex(blake2b_sum(digest_size as nat, data@))),
        r@.len() == 2 * digest_size,
{
    Blake2bSum::new(digest_size).read_bytes(data)
}

/// Calls `Blake2bSum::as_bytes(text)`, which is `hex::decode(text).unwrap()`: `requires`
/// keeps out the text on which it panics. Claimed: each pair of digits gives one byte,
/// high half first.
#[verifier::external_body]
pub(crate) fn b2sum_as_bytes(text: &str) -> (r: Vec<u8>)
    requires
        text@.len() % 2 == 0,
        forall|i: int| 0 <= i < text@.len() ==> is_hex_code(#[trigger] text@[i] as int),
    ensures
        r@ == hex_decoded(char_codes(text@)),
{
    Blake2bSum::as_bytes(text)
}

/// The error type of `hex::decode`.
#[verifier::external_type_specification]
#[verifier::external_body]
pub struct ExFromHexError(hex::FromHexError);

/// Calls `hex::decode(text)`. Claimed, as its source shows: an even number of hexadecimal
/// digits (either case) gives `Ok` with one byte per pair of digits, high half first; any
/// other text gives `Err` (odd length or a character that is not a digit).
#[verifier::external_body]
pub(crate) fn hex_decode(text: &[u8]) -> (r: Result<Vec<u8>, hex::FromHexError>)
    ensures
        is_hex_text(text@) ==> (r is Ok && r->Ok_0@ == hex_decoded(text@)),
        !is_hex_text(text@) ==> r is Err,
{
    hex::decode(text)
}

/// Calls `hex::encode(data)` and hands out the bytes of the text. Claimed: two lowercase
/// digits per byte, high half first.
#[verifier::external_body]
pub(crate) fn hex_encode(data: &[u8]) -> (r: Vec<u8>)
    ensures
        r@ == lower_hex(data@),
{
    hex::encode(data).into_bytes()
}

} // verus!
