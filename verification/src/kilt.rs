//! Hashes of KILT credentials as field elements.
//!
//! `kvalid_a` / `kvalid_b` hash a claim: its ctype hash, a property name and a content value
//! are written out as the JSON text `{"kilt:ctype:0x<ctype>#<name>":<content>}`, hashed with
//! BLAKE2b-256, and that digest is hashed again behind five hexadecimal groups and `0x`.
//! `khash_a` / `khash_b` hash a list of salted hashes: the 32-byte entries are sorted, joined
//! and hashed with BLAKE2b. Each function returns one half of the final digest, read as a
//! big-endian number.
use vstd::prelude::*;
use vstd::relations::sorted_by;
use vstd::seq_lib::{lemma_sorted_unique, to_multiset_build};
use vstd::utf8::valid_utf8;
use crate::encoding::{
    hex_digits, hex_len, decimal_digits, be_bytes, be_number, lower_hex, upper_hex, hex_decoded,
    char_codes, ascii_chars,
    is_hex_code, lemma_hex_digits_are_digits, lemma_decode_hex_digits,
    lemma_decode_concat, lemma_decode_encoded, lemma_hex_text_of_bytes, lemma_lower_hex_subrange,
    lemma_hex_number_of_lower_hex, push_hex_digits, hex_digit_count, push_decimal, push_lower_hex,
    parse_hex_u128,
};
use crate::lexicographic::{lex_order, views, lemma_lex_total, insert_sorted};
use crate::digests::{
    blake2b256, blake2b_sum, blake2b256_digest, b2sum_read_bytes, b2sum_as_bytes, hex_decode,
    hex_encode,
};

verus! {

// SPECIFICATIONS
// ================================================================================================

/// `{"kilt:ctype:0x` as ASCII codes.
pub open spec fn claim_prefix() -> Seq<u8> {
    seq![123u8, 34, 107, 105, 108, 116, 58, 99, 116, 121, 112, 101, 58, 48, 120]
}

/// The text whose bytes are the hexadecimal digits of `name` read in pairs: the big-endian
/// bytes of `name` without leading zero bytes.
pub open spec fn name_text(name: nat) -> Seq<u8> {
    be_bytes(name, hex_len(name) / 2)
}

/// The claim text that is hashed first:
/// `{"kilt:ctype:0x<ctype_1><ctype_2>#<name>":<content>}`, with each ctype half written as
/// 32 lowercase digits and the content in decimal.
pub open spec fn claim_text(content: u128, ctype_1: u128, ctype_2: u128, ascii: u128) -> Seq<u8> {
    claim_prefix() + hex_digits(ctype_1 as nat, 32) + hex_digits(ctype_2 as nat, 32) + seq![35u8]
        + name_text(ascii as nat) + seq![34u8, 58u8] + decimal_digits(content as nat) + seq![
        125u8,
    ]
}

/// The number of digits of one group: the digits of `x` padded to an even count, and to at
/// least `min_width`.
pub open spec fn group_width(x: nat, min_width: nat) -> nat {
    let even = hex_len(x) + hex_len(x) % 2;
    if even < min_width {
        min_width
    } else {
        even
    }
}

/// One hexadecimal group of the second text.
pub open spec fn group_text(x: nat, min_width: nat) -> Seq<u8> {
    hex_digits(x, group_width(x, min_width))
}

/// The text that is hashed second: `<x1>-<x2>-<x3>-<x4>-<x5>0x<digest>`, with the groups at
/// least 8, 4, 4, 4 and 12 digits wide and the digest in lowercase hexadecimal.
pub open spec fn message_text(
    x1: u128,
    x2: u128,
    x3: u128,
    x4: u128,
    x5: u128,
    digest: Seq<u8>,
) -> Seq<u8> {
    group_text(x1 as nat, 8) + seq![45u8] + group_text(x2 as nat, 4) + seq![45u8] + group_text(
        x3 as nat,
        4,
    ) + seq![45u8] + group_text(x4 as nat, 4) + seq![45u8] + group_text(x5 as nat, 12) + seq![
        48u8,
        120u8,
    ] + lower_hex(digest)
}

/// The final digest of a claim.
pub open spec fn claim_digest(
    x1: u128,
    x2: u128,
    x3: u128,
    x4: u128,
    x5: u128,
    content: u128,
    ctype_1: u128,
    ctype_2: u128,
    ascii: u128,
) -> Seq<u8> {
    blake2b256(
        message_text(x1, x2, x3, x4, x5, blake2b256(claim_text(content, ctype_1, ctype_2, ascii))),
    )
}

/// Entry `i` of a list of salted hashes: elements `2i` and `2i + 1`, 16 big-endian bytes each.
pub open spec fn salted_entry(values: Seq<u128>, i: int) -> Seq<u8> {
    be_bytes(values[2 * i] as nat, 16) + be_bytes(values[2 * i + 1] as nat, 16)
}

/// The first `n` entries of a list of salted hashes.
pub open spec fn salted_entries(values: Seq<u128>, n: nat) -> Seq<Seq<u8>> {
    Seq::new(n, |i: int| salted_entry(values, i))
}

/// The bytes hashed for a list of salted hashes: its entries in lexicographic order, joined.
pub open spec fn salted_preimage(values: Seq<u128>, n: nat) -> Seq<u8> {
    salted_entries(values, n).sort_by(lex_order()).flatten()
}

// TEXT BUILDING
// ================================================================================================

/// Appends `bytes` to `out`.
fn push_bytes(out: &mut Vec<u8>, bytes: &[u8])
    ensures
        final(out)@ == old(out)@ + bytes@,
{
    let ghost start = out@;
    let mut i: usize = 0;
    while i < bytes.len()
        invariant
            i <= bytes.len(),
            out@ == start + bytes@.subrange(0, i as int),
            start == old(out)@,
        decreases bytes.len() - i,
    {
        out.push(bytes[i]);
        proof {
            assert(bytes@.subrange(0, i + 1) =~= bytes@.subrange(0, i as int).push(bytes[i as int]));
        }
        i = i + 1;
    }
    proof {
        assert(bytes@.subrange(0, bytes.len() as int) =~= bytes@);
    }
}

/// Appends one hexadecimal group of the second text.
fn push_group(out: &mut Vec<u8>, x: u128, min_width: usize)
    requires
        min_width <= 32,
    ensures
        final(out)@ == old(out)@ + group_text(x as nat, min_width as nat),
{
    let len = hex_digit_count(x);
    let even = len + len % 2;
    let width = if even < min_width {
        min_width
    } else {
        even
    };
    push_hex_digits(out, x, width);
}

/// The claim text `{"kilt:ctype:0x<ctype_1><ctype_2>#<name>":<content>}`, where `<name>` is
/// the text whose bytes are the hexadecimal digits of `ascii` read in pairs.
pub fn claim_bytes(content: u128, ctype_1: u128, ctype_2: u128, ascii: u128) -> (r: Vec<u8>)
    requires
        hex_len(ascii as nat) % 2 == 0,
    ensures
        r@ == claim_text(content, ctype_1, ctype_2, ascii),
{
    let mut out: Vec<u8> = vec![123u8, 34, 107, 105, 108, 116, 58, 99, 116, 121, 112, 101, 58, 48, 120];
    proof {
        assert(out@ =~= claim_prefix());
    }
    push_hex_digits(&mut out, ctype_1, 32);
    push_hex_digits(&mut out, ctype_2, 32);
    out.push(35);
    let len = hex_digit_count(ascii);
    let mut name_hex: Vec<u8> = Vec::new();
    push_hex_digits(&mut name_hex, ascii, len);
    proof {
        assert(name_hex@ =~= hex_digits(ascii as nat, len as nat));
        lemma_hex_digits_are_digits(ascii as nat, len as nat);
        lemma_decode_hex_digits(ascii as nat, (len / 2) as nat);
        assert(2 * (len / 2) == len);
    }
    let name = match hex_decode(name_hex.as_slice()) {
        Ok(bytes) => bytes,
        Err(_) => {
            proof {
                assert(false);
            }
            Vec::new()
        },
    };
    push_bytes(&mut out, name.as_slice());
    out.push(34);
    out.push(58);
    push_decimal(&mut out, content);
    out.push(125);
    proof {
        assert(out@ =~= claim_text(content, ctype_1, ctype_2, ascii));
    }
    out
}

/// The second text `<x1>-<x2>-<x3>-<x4>-<x5>0x<digest>`.
pub fn message_bytes(x1: u128, x2: u128, x3: u128, x4: u128, x5: u128, digest: &[u8]) -> (r: Vec<u8>)
    ensures
        r@ == message_text(x1, x2, x3, x4, x5, digest@),
{
    let mut out: Vec<u8> = Vec::new();
    push_group(&mut out, x1, 8);
    out.push(45);
    push_group(&mut out, x2, 4);
    out.push(45);
    push_group(&mut out, x3, 4);
    out.push(45);
    push_group(&mut out, x4, 4);
    out.push(45);
    push_group(&mut out, x5, 12);
    out.push(48);
    out.push(120);
    push_lower_hex(&mut out, digest);
    proof {
        assert(out@ =~= message_text(x1, x2, x3, x4, x5, digest@));
    }
    out
}

// READING DIGESTS
// ================================================================================================

/// The number that the first 32 lowercase hexadecimal digits of `digest` stand for: its
/// first sixteen bytes, big-endian.
pub fn digest_head(digest: &[u8]) -> (r: u128)
    requires
        digest.len() == 32,
    ensures
        r == be_number(digest@.subrange(0, 16)),
{
    let mut text: Vec<u8> = Vec::new();
    push_lower_hex(&mut text, digest);
    proof {
        assert(text@ =~= lower_hex(digest@));
        lemma_hex_text_of_bytes(digest@);
        lemma_lower_hex_subrange(digest@, 0, 16);
        lemma_hex_number_of_lower_hex(digest@.subrange(0, 16));
    }
    parse_hex_u128(text.as_slice(), 0)
}

/// The number that the last 32 lowercase hexadecimal digits of `digest` stand for: its
/// last sixteen bytes, big-endian.
pub fn digest_tail(digest: &[u8]) -> (r: u128)
    requires
        digest.len() == 32,
    ensures
        r == be_number(digest@.subrange(16, 32)),
{
    let mut text: Vec<u8> = Vec::new();
    push_lower_hex(&mut text, digest);
    proof {
        assert(text@ =~= lower_hex(digest@));
        lemma_hex_text_of_bytes(digest@);
        lemma_lower_hex_subrange(digest@, 16, 32);
        lemma_hex_number_of_lower_hex(digest@.subrange(16, 32));
    }
    parse_hex_u128(text.as_slice(), 32)
}

// CLAIM HASHES
// ================================================================================================

/// The final digest of a claim: the digest of the second text, built on the digest of the
/// claim text.
fn claim_digest_bytes(
    x1: u128,
    x2: u128,
    x3: u128,
    x4: u128,
    x5: u128,
    content: u128,
    ctype_1: u128,
    ctype_2: u128,
    ascii: u128,
) -> (r: Vec<u8>)
    requires
        hex_len(ascii as nat) % 2 == 0,
    ensures
        r@ == claim_digest(x1, x2, x3, x4, x5, content, ctype_1, ctype_2, ascii),
        r@.len() == 32,
{
    let claim = claim_bytes(content, ctype_1, ctype_2, ascii);
    let first = blake2b256_digest(claim.as_slice());
    let message = message_bytes(x1, x2, x3, x4, x5, first.as_slice());
    blake2b256_digest(message.as_slice())
}

/// Hashes a claim and returns the first half of the final digest as a number.
///
/// `ascii` holds the property name: its hexadecimal digits, read in pairs, are the bytes of
/// the name, which must be UTF-8 text.
pub fn kvalid_a(
    x1: u128,
    x2: u128,
    x3: u128,
    x4: u128,
    x5: u128,
    content: u128,
    ctype_1: u128,
    ctype_2: u128,
    ascii: u128,
) -> (r: u128)
    requires
        hex_len(ascii as nat) % 2 == 0,
        valid_utf8(name_text(ascii as nat)),
    ensures
        r == be_number(
            claim_digest(x1, x2, x3, x4, x5, content, ctype_1, ctype_2, ascii).subrange(0, 16),
        ),
        claim_digest(x1, x2, x3, x4, x5, content, ctype_1, ctype_2, ascii).len() == 32,
{
    let digest = claim_digest_bytes(x1, x2, x3, x4, x5, content, ctype_1, ctype_2, ascii);
    digest_head(digest.as_slice())
}

/// Hashes a claim and returns the second half of the final digest as a number.
///
/// `ascii` holds the property name: its hexadecimal digits, read in pairs, are the bytes of
/// the name, which must be UTF-8 text.
pub fn kvalid_b(
    x1: u128,
    x2: u128,
    x3: u128,
    x4: u128,
    x5: u128,
    content: u128,
    ctype_1: u128,
    ctype_2: u128,
    ascii: u128,
) -> (r: u128)
    requires
        hex_len(ascii as nat) % 2 == 0,
        valid_utf8(name_text(ascii as nat)),
    ensures
        r == be_number(
            claim_digest(x1, x2, x3, x4, x5, content, ctype_1, ctype_2, ascii).subrange(16, 32),
        ),
        claim_digest(x1, x2, x3, x4, x5, content, ctype_1, ctype_2, ascii).len() == 32,
{
    let digest = claim_digest_bytes(x1, x2, x3, x4, x5, content, ctype_1, ctype_2, ascii);
    digest_tail(digest.as_slice())
}

// SALTED HASH LISTS
// ================================================================================================

/// The bytes hashed for the first `n` entries of a list of salted hashes: each entry is the
/// 32 hexadecimal digits of two elements decoded to bytes; the entries are sorted and joined.
pub fn salted_preimage_bytes(values: &Vec<u128>, n: u32) -> (r: Vec<u8>)
    requires
        values.len() / 2 == n,
    ensures
        r@ == salted_preimage(values@, n as nat),
{
    let mut list: Vec<Vec<u8>> = Vec::new();
    let mut i: u32 = 0;
    proof {
        assert(salted_entries(values@, 0) =~= Seq::<Seq<u8>>::empty());
        assert(views(list@) =~= Seq::<Seq<u8>>::empty());
    }
    while i < n
        invariant
            i <= n,
            values.len() / 2 == n,
            sorted_by(views(list@), lex_order()),
            views(list@).to_multiset() == salted_entries(values@, i as nat).to_multiset(),
        decreases n - i,
    {
        let k = i as usize;
        let mut text: Vec<u8> = Vec::new();
        push_hex_digits(&mut text, values[2 * k], 32);
        push_hex_digits(&mut text, values[2 * k + 1], 32);
        proof {
            let a = hex_digits(values@[2 * k as int] as nat, 32);
            let b = hex_digits(values@[2 * k + 1] as nat, 32);
            assert(text@ =~= a + b);
            lemma_hex_digits_are_digits(values@[2 * k as int] as nat, 32);
            lemma_hex_digits_are_digits(values@[2 * k + 1] as nat, 32);
            lemma_decode_concat(a, b);
            lemma_decode_hex_digits(values@[2 * k as int] as nat, 16);
            lemma_decode_hex_digits(values@[2 * k + 1] as nat, 16);
            assert forall|j: int| 0 <= j < text@.len() implies is_hex_code(
                #[trigger] text@[j] as int,
            ) by {
                if j >= 32 {
                    assert(text@[j] == b[j - 32]);
                }
            }
        }
        let entry = match hex_decode(text.as_slice()) {
            Ok(bytes) => bytes,
            Err(_) => {
                proof {
                    assert(false);
                }
                Vec::new()
            },
        };
        proof {
            assert(entry@ == salted_entry(values@, k as int));
            assert(salted_entries(values@, (i + 1) as nat) =~= salted_entries(values@, i as nat).push(
                entry@,
            ));
            to_multiset_build(salted_entries(values@, i as nat), entry@);
        }
        insert_sorted(&mut list, entry);
        i = i + 1;
    }
    let mut out: Vec<u8> = Vec::new();
    let mut j: usize = 0;
    proof {
        assert(views(list@).subrange(0, 0) =~= Seq::<Seq<u8>>::empty());
    }
    while j < list.len()
        invariant
            j <= list.len(),
            out@ == views(list@).subrange(0, j as int).flatten(),
        decreases list.len() - j,
    {
        push_bytes(&mut out, list[j].as_slice());
        proof {
            let done = views(list@).subrange(0, j as int);
            assert(views(list@).subrange(0, j + 1) =~= done.push(list@[j as int]@));
            done.lemma_flatten_push(list@[j as int]@);
        }
        j = j + 1;
    }
    proof {
        let entries = salted_entries(values@, n as nat);
        assert(views(list@).subrange(0, list.len() as int) =~= views(list@));
        lemma_lex_total();
        entries.lemma_sort_by_ensures(lex_order());
        lemma_sorted_unique(views(list@), entries.sort_by(lex_order()), lex_order());
    }
    out
}

/// The number that the first 32 digits of `hash_hex` stand for, after the text is decoded
/// to bytes and written again in lowercase: the first sixteen bytes, big-endian.
pub fn salted_head(hash_hex: &str) -> (r: u128)
    requires
        hash_hex@.len() == 64,
        forall|i: int| 0 <= i < hash_hex@.len() ==> is_hex_code(#[trigger] hash_hex@[i] as int),
    ensures
        r == be_number(hex_decoded(char_codes(hash_hex@)).subrange(0, 16)),
{
    let bytes = b2sum_as_bytes(hash_hex);
    let text = hex_encode(bytes.as_slice());
    proof {
        lemma_hex_text_of_bytes(bytes@);
        lemma_lower_hex_subrange(bytes@, 0, 16);
        lemma_hex_number_of_lower_hex(bytes@.subrange(0, 16));
    }
    parse_hex_u128(text.as_slice(), 0)
}

/// The number that the last 32 digits of `hash_hex` stand for, after the text is decoded
/// to bytes and written again in lowercase: the last sixteen bytes, big-endian.
pub fn salted_tail(hash_hex: &str) -> (r: u128)
    requires
        hash_hex@.len() == 64,
        forall|i: int| 0 <= i < hash_hex@.len() ==> is_hex_code(#[trigger] hash_hex@[i] as int),
    ensures
        r == be_number(hex_decoded(char_codes(hash_hex@)).subrange(16, 32)),
{
    let bytes = b2sum_as_bytes(hash_hex);
    let text = hex_encode(bytes.as_slice());
    proof {
        lemma_hex_text_of_bytes(bytes@);
        lemma_lower_hex_subrange(bytes@, 16, 32);
        lemma_hex_number_of_lower_hex(bytes@.subrange(16, 32));
    }
    parse_hex_u128(text.as_slice(), 32)
}

/// The BLAKE2b digest (32 bytes) of the preimage of a list of salted hashes, in uppercase
/// hexadecimal.
fn salted_digest_hex(hash_in_khash: &Vec<u128>, n: u32) -> (r: String)
    requires
        hash_in_khash.len() / 2 == n,
    ensures
        r@ == ascii_chars(
            upper_hex(blake2b_sum(32, salted_preimage(hash_in_khash@, n as nat))),
        ),
        r@.len() == 64,
        blake2b_sum(32, salted_preimage(hash_in_khash@, n as nat)).len() == 32,
        forall|i: int| 0 <= i < r@.len() ==> is_hex_code(#[trigger] r@[i] as int),
        hex_decoded(char_codes(r@)) == blake2b_sum(32, salted_preimage(hash_in_khash@, n as nat)),
{
    let preimage = salted_preimage_bytes(hash_in_khash, n);
    let hash = b2sum_read_bytes(32, preimage.as_slice());
    proof {
        let d = blake2b_sum(32, preimage@);
        let up = upper_hex(d);
        assert(char_codes(hash@) =~= up);
        lemma_hex_text_of_bytes(d);
        lemma_decode_encoded(d);
        assert forall|i: int| 0 <= i < hash@.len() implies is_hex_code(#[trigger] hash@[i] as int) by {
            assert(char_codes(hash@)[i] == up[i]);
            assert(is_hex_code(up[i] as int));
        }
    }
    hash
}

/// Hashes the first `n` entries of a list of salted hashes (two elements per entry) and
/// returns the first half of the digest as a number.
pub fn khash_a(hash_in_khash: &Vec<u128>, n: u32) -> (r: u128)
    requires
        hash_in_khash.len() / 2 == n,
    ensures
        r == be_number(blake2b_sum(32, salted_preimage(hash_in_khash@, n as nat)).subrange(0, 16)),
        blake2b_sum(32, salted_preimage(hash_in_khash@, n as nat)).len() == 32,
{
    let hash = salted_digest_hex(hash_in_khash, n);
    salted_head(hash.as_str())
}

/// Hashes the first `n` entries of a list of salted hashes (two elements per entry) and
/// returns the second half of the digest as a number.
pub fn khash_b(hash_in_khash: &Vec<u128>, n: u32) -> (r: u128)
    requires
        hash_in_khash.len() / 2 == n,
    ensures
        r == be_number(
            blake2b_sum(32, salted_preimage(hash_in_khash@, n as nat)).subrange(16, 32),
        ),
        blake2b_sum(32, salted_preimage(hash_in_khash@, n as nat)).len() == 32,
{
    let hash = salted_digest_hex(hash_in_khash, n);
    salted_tail(hash.as_str())
}

} // verus!
