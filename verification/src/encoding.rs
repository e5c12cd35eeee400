//! Text encodings used by the credential hashes: hexadecimal and decimal digits
//! written as ASCII codes, and big-endian byte strings of numbers.
use vstd::prelude::*;

verus! {

// SPECIFICATIONS
// ================================================================================================

/// Whether `c` is the ASCII code of a hexadecimal digit, in either case.
pub open spec fn is_hex_code(c: int) -> bool {
    (48 <= c <= 57) || (65 <= c <= 70) || (97 <= c <= 102)
}

/// The value of the hexadecimal digit whose ASCII code is `c`.
pub open spec fn hex_code_value(c: int) -> int {
    if c <= 57 {
        c - 48
    } else if c <= 70 {
        c - 55
    } else {
        c - 87
    }
}

/// The ASCII code of the lowercase hexadecimal digit `d`, for `0 <= d < 16`.
pub open spec fn lower_digit(d: int) -> u8 {
    if d < 10 {
        (48 + d) as u8
    } else {
        (87 + d) as u8
    }
}

/// The ASCII code of the uppercase hexadecimal digit `d`, for `0 <= d < 16`.
pub open spec fn upper_digit(d: int) -> u8 {
    if d < 10 {
        (48 + d) as u8
    } else {
        (55 + d) as u8
    }
}

/// Lowercase hexadecimal text of a byte string: two digits per byte, high half first.
pub open spec fn lower_hex(bytes: Seq<u8>) -> Seq<u8> {
    Seq::new(
        2 * bytes.len(),
        |k: int|
            if k % 2 == 0 {
                lower_digit(bytes[k / 2] as int / 16)
            } else {
                lower_digit(bytes[k / 2] as int % 16)
            },
    )
}

/// Uppercase hexadecimal text of a byte string: two digits per byte, high half first.
pub open spec fn upper_hex(bytes: Seq<u8>) -> Seq<u8> {
    Seq::new(
        2 * bytes.len(),
        |k: int|
            if k % 2 == 0 {
                upper_digit(bytes[k / 2] as int / 16)
            } else {
                upper_digit(bytes[k / 2] as int % 16)
            },
    )
}

/// Whether `text` is an even number of hexadecimal digits (either case).
pub open spec fn is_hex_text(text: Seq<u8>) -> bool {
    &&& text.len() % 2 == 0
    &&& forall|i: int| 0 <= i < text.len() ==> is_hex_code(#[trigger] text[i] as int)
}

/// The bytes that hexadecimal text stands for: each pair of digits gives one byte.
pub open spec fn hex_decoded(text: Seq<u8>) -> Seq<u8> {
    Seq::new(
        text.len() / 2,
        |i: int|
            (16 * hex_code_value(text[2 * i] as int) + hex_code_value(text[2 * i + 1] as int)) as u8,
    )
}

/// The characters whose codes are the given ASCII codes.
pub open spec fn ascii_chars(codes: Seq<u8>) -> Seq<char> {
    Seq::new(codes.len(), |i: int| codes[i] as char)
}

/// The codes of ASCII characters.
pub open spec fn char_codes(text: Seq<char>) -> Seq<u8> {
    Seq::new(text.len(), |i: int| text[i] as u8)
}

/// The `width` lowest hexadecimal digits of `v`, most significant first, in lowercase.
pub open spec fn hex_digits(v: nat, width: nat) -> Seq<u8>
    decreases width,
{
    if width == 0 {
        Seq::empty()
    } else {
        hex_digits(v / 16, (width - 1) as nat).push(lower_digit((v % 16) as int))
    }
}

/// The number of hexadecimal digits of `v` written without leading zeros (one for zero).
pub open spec fn hex_len(v: nat) -> nat
    decreases v,
{
    if v < 16 {
        1
    } else {
        1 + hex_len(v / 16)
    }
}

/// `16^k`.
pub open spec fn hex_bound(k: nat) -> nat
    decreases k,
{
    if k == 0 {
        1
    } else {
        16 * hex_bound((k - 1) as nat)
    }
}

/// The decimal digits of `v` without leading zeros ("0" for zero), as ASCII codes.
pub open spec fn decimal_digits(v: nat) -> Seq<u8>
    decreases v,
{
    if v < 10 {
        seq![(48 + v) as u8]
    } else {
        decimal_digits(v / 10).push((48 + v % 10) as u8)
    }
}

/// The `n` lowest bytes of `v`, most significant first.
pub open spec fn be_bytes(v: nat, n: nat) -> Seq<u8>
    decreases n,
{
    if n == 0 {
        Seq::empty()
    } else {
        be_bytes(v / 256, (n - 1) as nat).push((v % 256) as u8)
    }
}

/// The number that a byte string stands for, most significant byte first.
pub open spec fn be_number(bytes: Seq<u8>) -> nat
    decreases bytes.len(),
{
    if bytes.len() == 0 {
        0
    } else {
        (256 * be_number(bytes.drop_last()) + bytes.last()) as nat
    }
}

/// The number that a byte string stands for, least significant byte first.
pub open spec fn le_number(bytes: Seq<u8>) -> nat
    decreases bytes.len(),
{
    if bytes.len() == 0 {
        0
    } else {
        (bytes[0] + 256 * le_number(bytes.drop_first())) as nat
    }
}

/// The number that hexadecimal digits stand for, most significant first.
pub open spec fn hex_number(text: Seq<u8>) -> int
    decreases text.len(),
{
    if text.len() == 0 {
        0
    } else {
        16 * hex_number(text.drop_last()) + hex_code_value(text.last() as int)
    }
}

/// The number that decimal digits (ASCII codes) stand for, most significant first.
pub open spec fn decimal_value(digits: Seq<u8>) -> int
    decreases digits.len(),
{
    if digits.len() == 0 {
        0
    } else {
        10 * decimal_value(digits.drop_last()) + (digits.last() as int - 48)
    }
}

// LEMMAS
// ================================================================================================

/// `16^32 = 2^128`.
pub proof fn lemma_hex_bound_32()
    ensures
        hex_bound(32) == 0x1_0000_0000_0000_0000_0000_0000_0000_0000,
{
    reveal_with_fuel(hex_bound, 33);
}

/// `16^k` grows with `k`.
pub proof fn lemma_hex_bound_grows(a: nat, b: nat)
    requires
        a <= b,
    ensures
        1 <= hex_bound(a) <= hex_bound(b),
    decreases b,
{
    if b > a {
        lemma_hex_bound_grows(a, (b - 1) as nat);
    } else if a > 0 {
        lemma_hex_bound_grows((a - 1) as nat, (a - 1) as nat);
    }
}

/// A number below `16^k` has at most `k` hexadecimal digits.
pub proof fn lemma_hex_len_bound(v: nat, k: nat)
    requires
        1 <= k,
        v < hex_bound(k),
    ensures
        1 <= hex_len(v) <= k,
    decreases k,
{
    if v >= 16 {
        assert(k >= 2) by {
            if k == 1 {
                reveal_with_fuel(hex_bound, 2);
            }
        }
        lemma_hex_len_bound(v / 16, (k - 1) as nat);
    }
}

/// Lowercase digits and uppercase digits are hexadecimal digits of the right value.
pub proof fn lemma_digit_value(d: int)
    requires
        0 <= d < 16,
    ensures
        is_hex_code(lower_digit(d) as int),
        hex_code_value(lower_digit(d) as int) == d,
        is_hex_code(upper_digit(d) as int),
        hex_code_value(upper_digit(d) as int) == d,
{
}

/// Digits of a number are hexadecimal text (of any parity).
pub proof fn lemma_hex_digits_are_digits(v: nat, width: nat)
    ensures
        hex_digits(v, width).len() == width,
        forall|i: int| 0 <= i < width ==> is_hex_code(#[trigger] hex_digits(v, width)[i] as int),
    decreases width,
{
    if width > 0 {
        lemma_hex_digits_are_digits(v / 16, (width - 1) as nat);
        lemma_digit_value((v % 16) as int);
    }
}

/// Lowercase and uppercase text of bytes is hexadecimal text.
pub proof fn lemma_hex_text_of_bytes(bytes: Seq<u8>)
    ensures
        is_hex_text(lower_hex(bytes)),
        is_hex_text(upper_hex(bytes)),
{
    assert forall|i: int| 0 <= i < lower_hex(bytes).len() implies is_hex_code(
        #[trigger] lower_hex(bytes)[i] as int,
    ) by {
        lemma_digit_value(bytes[i / 2] as int / 16);
        lemma_digit_value(bytes[i / 2] as int % 16);
    }
    assert forall|i: int| 0 <= i < upper_hex(bytes).len() implies is_hex_code(
        #[trigger] upper_hex(bytes)[i] as int,
    ) by {
        lemma_digit_value(bytes[i / 2] as int / 16);
        lemma_digit_value(bytes[i / 2] as int % 16);
    }
}

/// Decoding undoes lowercase and uppercase encoding.
pub proof fn lemma_decode_encoded(bytes: Seq<u8>)
    ensures
        hex_decoded(lower_hex(bytes)) == bytes,
        hex_decoded(upper_hex(bytes)) == bytes,
{
    assert forall|i: int| 0 <= i < bytes.len() implies #[trigger] hex_decoded(lower_hex(bytes))[i]
        == bytes[i] && hex_decoded(upper_hex(bytes))[i] == bytes[i] by {
        lemma_digit_value(bytes[i] as int / 16);
        lemma_digit_value(bytes[i] as int % 16);
        assert((2 * i) / 2 == i);
        assert((2 * i + 1) / 2 == i);
        assert((2 * i) % 2 == 0);
        assert((2 * i + 1) % 2 == 1);
    }
    assert(hex_decoded(lower_hex(bytes)) =~= bytes);
    assert(hex_decoded(upper_hex(bytes)) =~= bytes);
}

/// Decoding splits over text whose first part has an even length.
pub proof fn lemma_decode_concat(a: Seq<u8>, b: Seq<u8>)
    requires
        a.len() % 2 == 0,
    ensures
        hex_decoded(a + b) == hex_decoded(a) + hex_decoded(b),
{
    let n = a.len() / 2;
    assert forall|i: int| 0 <= i < hex_decoded(a + b).len() implies #[trigger] hex_decoded(a + b)[i]
        == (hex_decoded(a) + hex_decoded(b))[i] by {
        if i >= n {
            assert(2 * i - a.len() == 2 * (i - n));
        }
    }
    assert(hex_decoded(a + b) =~= hex_decoded(a) + hex_decoded(b));
}

/// An even number of lowest hexadecimal digits decodes to the big-endian bytes.
pub proof fn lemma_decode_hex_digits(v: nat, n: nat)
    ensures
        hex_decoded(hex_digits(v, 2 * n)) == be_bytes(v, n),
    decreases n,
{
    if n > 0 {
        let w = (2 * n - 2) as nat;
        lemma_decode_hex_digits(v / 256, (n - 1) as nat);
        assert((v / 16) / 16 == v / 256) by (nonlinear_arith);
        assert(16 * ((v / 16) % 16) + v % 16 == v % 256) by (nonlinear_arith);
        let s = hex_digits(v / 256, w);
        lemma_hex_digits_are_digits(v / 256, w);
        let hi = lower_digit(((v / 16) % 16) as int);
        let lo = lower_digit((v % 16) as int);
        assert(hex_digits(v / 16, (2 * n - 1) as nat) == s.push(hi));
        assert(hex_digits(v, 2 * n) == s.push(hi).push(lo));
        lemma_digit_value(((v / 16) % 16) as int);
        lemma_digit_value((v % 16) as int);
        lemma_decode_concat(s, seq![hi, lo]);
        assert(s.push(hi).push(lo) =~= s + seq![hi, lo]);
        assert(hex_decoded(seq![hi, lo]) =~= seq![(v % 256) as u8]);
        assert(be_bytes(v, n) == be_bytes(v / 256, (n - 1) as nat).push((v % 256) as u8));
        assert(hex_decoded(s) + seq![(v % 256) as u8] =~= hex_decoded(s).push((v % 256) as u8));
    }
}

/// A slice of lowercase text of bytes at even positions is the text of a slice of the bytes.
pub proof fn lemma_lower_hex_subrange(bytes: Seq<u8>, i: int, j: int)
    requires
        0 <= i <= j <= bytes.len(),
    ensures
        lower_hex(bytes).subrange(2 * i, 2 * j) == lower_hex(bytes.subrange(i, j)),
{
    assert forall|k: int| 0 <= k < 2 * (j - i) implies #[trigger] lower_hex(bytes).subrange(
        2 * i,
        2 * j,
    )[k] == lower_hex(bytes.subrange(i, j))[k] by {
        assert((2 * i + k) / 2 == i + k / 2);
        assert((2 * i + k) % 2 == k % 2);
    }
    assert(lower_hex(bytes).subrange(2 * i, 2 * j) =~= lower_hex(bytes.subrange(i, j)));
}

/// Reading lowercase text of bytes as a hexadecimal number gives their big-endian value.
pub proof fn lemma_hex_number_of_lower_hex(bytes: Seq<u8>)
    ensures
        hex_number(lower_hex(bytes)) == be_number(bytes),
    decreases bytes.len(),
{
    if bytes.len() > 0 {
        let init = bytes.drop_last();
        let b = bytes.last();
        lemma_hex_number_of_lower_hex(init);
        let t = lower_hex(bytes);
        lemma_lower_hex_subrange(bytes, 0, bytes.len() - 1);
        assert(bytes.subrange(0, bytes.len() - 1) =~= init);
        assert(t.drop_last().drop_last() =~= t.subrange(0, 2 * (bytes.len() - 1)));
        lemma_digit_value((b / 16) as int);
        lemma_digit_value((b % 16) as int);
        assert(t.last() == lower_digit((b % 16) as int));
        assert(t.drop_last().last() == lower_digit((b / 16) as int));
        assert(hex_number(t.drop_last()) == 16 * hex_number(t.drop_last().drop_last()) + b / 16);
        assert(16 * (b / 16) + b % 16 == b);
    }
}

/// A big-endian number splits at any byte: the high part is shifted by the bytes after it.
pub proof fn lemma_be_number_concat(a: Seq<u8>, b: Seq<u8>)
    ensures
        be_number(a + b) == be_number(a) * hex_bound(2 * b.len()) + be_number(b),
    decreases b.len(),
{
    if b.len() == 0 {
        assert(a + b =~= a);
        assert(hex_bound(0) == 1);
        assert(hex_bound(2 * b.len()) == 1);
        assert(be_number(b) == 0);
        assert(be_number(a) * 1 == be_number(a));
    } else {
        let b1 = b.drop_last();
        lemma_be_number_concat(a, b1);
        assert((a + b).drop_last() =~= a + b1);
        assert((a + b).last() == b.last());
        let k = (2 * b.len() - 2) as nat;
        assert(hex_bound(2 * b.len()) == 256 * hex_bound(k)) by {
            assert(hex_bound((k + 1) as nat) == 16 * hex_bound(k));
            assert(hex_bound((k + 2) as nat) == 16 * hex_bound((k + 1) as nat));
        }
        assert(256 * (be_number(a) * hex_bound(k)) == be_number(a) * (256 * hex_bound(k)))
            by (nonlinear_arith);
        assert(be_number(a + b) == 256 * be_number(a + b1) + b.last());
        assert(be_number(b) == 256 * be_number(b1) + b.last());
        assert(be_number(a + b1) == be_number(a) * hex_bound(k) + be_number(b1));
    }
}

/// A number is below `16` to the power of its count of hexadecimal digits.
pub proof fn lemma_below_hex_len(v: nat)
    ensures
        v < hex_bound(hex_len(v)),
    decreases v,
{
    reveal_with_fuel(hex_bound, 2);
    if v >= 16 {
        lemma_below_hex_len(v / 16);
        assert(hex_len(v) == 1 + hex_len(v / 16));
        assert(hex_bound(hex_len(v)) == 16 * hex_bound(hex_len(v / 16)));
    }
}

/// `n` big-endian bytes of a number below `256^n` read back as the number.
pub proof fn lemma_be_number_of_be_bytes(v: nat, n: nat)
    requires
        v < hex_bound(2 * n),
    ensures
        be_bytes(v, n).len() == n,
        be_number(be_bytes(v, n)) == v,
    decreases n,
{
    if n == 0 {
        assert(hex_bound(0) == 1);
    } else {
        let k = (2 * n - 2) as nat;
        assert(hex_bound(2 * n) == 256 * hex_bound(k)) by {
            assert(hex_bound((k + 1) as nat) == 16 * hex_bound(k));
            assert(hex_bound((k + 2) as nat) == 16 * hex_bound((k + 1) as nat));
        }
        assert(v / 256 < hex_bound(k));
        lemma_be_number_of_be_bytes(v / 256, (n - 1) as nat);
        let s = be_bytes(v, n);
        assert(s == be_bytes(v / 256, (n - 1) as nat).push((v % 256) as u8));
        assert(s.drop_last() =~= be_bytes(v / 256, (n - 1) as nat));
        assert(256 * (v / 256) + v % 256 == v);
    }
}

// EXECUTABLE ENCODERS
// ================================================================================================

/// Appends the `width` lowest hexadecimal digits of `v` to `out`, most significant first.
pub fn push_hex_digits(out: &mut Vec<u8>, v: u128, width: usize)
    ensures
        final(out)@ == old(out)@ + hex_digits(v as nat, width as nat),
    decreases width,
{
    if width > 0 {
        push_hex_digits(out, v / 16, width - 1);
        let d = (v % 16) as u8;
        let c: u8 = if d < 10 {
            48 + d
        } else {
            87 + d
        };
        proof {
            assert(d == v % 16);
        }
        out.push(c);
        proof {
            let h = hex_digits((v / 16) as nat, (width - 1) as nat);
            assert(hex_digits(v as nat, width as nat) == h.push(lower_digit((v % 16) as int)));
            assert(final(out)@ =~= old(out)@ + h.push(c));
        }
    }
}

/// The number of hexadecimal digits of `v` written without leading zeros.
pub fn hex_digit_count(v: u128) -> (r: usize)
    ensures
        r == hex_len(v as nat),
        1 <= r <= 32,
{
    let mut n: usize = 1;
    let mut m: u128 = v;
    proof {
        lemma_hex_bound_32();
        lemma_hex_len_bound(v as nat, 32);
    }
    while m >= 16
        invariant
            1 <= n,
            n - 1 + hex_len(m as nat) == hex_len(v as nat),
            hex_len(v as nat) <= 32,
        decreases m,
    {
        m = m / 16;
        n = n + 1;
    }
    n
}

/// Appends the decimal digits of `v` to `out`, without leading zeros.
pub fn push_decimal(out: &mut Vec<u8>, v: u128)
    ensures
        final(out)@ == old(out)@ + decimal_digits(v as nat),
    decreases v,
{
    if v < 10 {
        out.push(48 + v as u8);
        proof {
            assert(final(out)@ =~= old(out)@ + decimal_digits(v as nat));
        }
    } else {
        push_decimal(out, v / 10);
        let d = (v % 10) as u8;
        out.push(48 + d);
        proof {
            let h = decimal_digits((v / 10) as nat);
            assert(decimal_digits(v as nat) == h.push((48 + v % 10) as u8));
            assert(final(out)@ =~= old(out)@ + h.push((48 + d) as u8));
        }
    }
}

/// Appends the lowercase hexadecimal text of `bytes` to `out`.
pub fn push_lower_hex(out: &mut Vec<u8>, bytes: &[u8])
    ensures
        final(out)@ == old(out)@ + lower_hex(bytes@),
{
    let ghost start = out@;
    let mut i: usize = 0;
    while i < bytes.len()
        invariant
            i <= bytes.len(),
            out@ == start + lower_hex(bytes@.subrange(0, i as int)),
            start == old(out)@,
        decreases bytes.len() - i,
    {
        let b = bytes[i];
        let hi = b / 16;
        let lo = b % 16;
        let c_hi: u8 = if hi < 10 {
            48 + hi
        } else {
            87 + hi
        };
        let c_lo: u8 = if lo < 10 {
            48 + lo
        } else {
            87 + lo
        };
        out.push(c_hi);
        out.push(c_lo);
        proof {
            let prev = bytes@.subrange(0, i as int);
            let next = bytes@.subrange(0, i + 1);
            assert(lower_hex(next) =~= lower_hex(prev).push(c_hi).push(c_lo)) by {
                assert forall|k: int| 0 <= k < 2 * i implies lower_hex(next)[k] == lower_hex(
                    prev,
                )[k] by {
                    assert(k / 2 < i);
                }
                assert((2 * i as int) / 2 == i);
                assert((2 * i as int + 1) / 2 == i);
            }
        }
        i = i + 1;
    }
    proof {
        assert(bytes@.subrange(0, bytes.len() as int) =~= bytes@);
    }
}

/// Reads the 32 hexadecimal digits of `text` that start at `start` as a number.
pub fn parse_hex_u128(text: &[u8], start: usize) -> (r: u128)
    requires
        start + 32 <= text.len(),
        forall|i: int| start <= i < start + 32 ==> is_hex_code(#[trigger] text@[i] as int),
    ensures
        r == hex_number(text@.subrange(start as int, start + 32)),
{
    let mut acc: u128 = 0;
    let mut k: usize = 0;
    proof {
        lemma_hex_bound_32();
        assert(text@.subrange(start as int, start as int) =~= Seq::<u8>::empty());
    }
    while k < 32
        invariant
            k <= 32,
            start + 32 <= text.len(),
            forall|i: int| start <= i < start + 32 ==> is_hex_code(#[trigger] text@[i] as int),
            acc == hex_number(text@.subrange(start as int, start + k)),
            acc < hex_bound(k as nat),
            hex_bound(32) == 0x1_0000_0000_0000_0000_0000_0000_0000_0000,
        decreases 32 - k,
    {
        let c = text[start + k];
        assert(is_hex_code(c as int));
        let d: u128 = if c <= 57 {
            (c - 48) as u128
        } else if c <= 70 {
            (c - 55) as u128
        } else {
            (c - 87) as u128
        };
        proof {
            lemma_hex_bound_grows((k + 1) as nat, 32);
            let next = text@.subrange(start as int, start + k + 1);
            assert(next.drop_last() =~= text@.subrange(start as int, start + k));
            assert(next.last() == c);
        }
        acc = acc * 16 + d;
        k = k + 1;
    }
    acc
}

/// Reads sixteen bytes as a number, least significant byte first.
pub fn from_bytes(bytes: &[u8]) -> (r: u128)
    requires
        bytes.len() == 16,
    ensures
        r == le_number(bytes@),
{
    let mut acc: u128 = 0;
    let mut k: usize = 16;
    proof {
        lemma_hex_bound_32();
        assert(bytes@.subrange(16, 16) =~= Seq::<u8>::empty());
    }
    while k > 0
        invariant
            k <= 16,
            bytes.len() == 16,
            acc == le_number(bytes@.subrange(k as int, 16)),
            acc < hex_bound((2 * (16 - k)) as nat),
            hex_bound(32) == 0x1_0000_0000_0000_0000_0000_0000_0000_0000,
        decreases k,
    {
        k = k - 1;
        proof {
            lemma_hex_bound_grows((2 * (16 - k)) as nat, 32);
            let next = bytes@.subrange(k as int, 16);
            assert(next.drop_first() =~= bytes@.subrange(k + 1, 16));
            assert(hex_bound((2 * (16 - k)) as nat) == 256 * hex_bound((2 * (15 - k)) as nat)) by {
                reveal_with_fuel(hex_bound, 3);
            }
        }
        acc = bytes[k] as u128 + acc * 256;
    }
    proof {
        assert(bytes@.subrange(0, 16) =~= bytes@);
    }
    acc
}

} // verus!
