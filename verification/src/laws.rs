//! Laws of the library, stated over the spec functions that the operations' contracts use.
use vstd::prelude::*;
use vstd::arithmetic::div_mod::*;
use vstd::arithmetic::mul::*;
use vstd::arithmetic::power::*;
use vstd::arithmetic::power2::*;
use vstd::seq_lib::lemma_sorted_unique;
use crate::field::{G, modulus, is_element, field_add, field_sub, field_mul, field_neg};
use crate::limbs::lemma_modulus_facts;
use crate::inverse::{field_inv, is_inverse, lemma_inverse_exists, lemma_field_inv_is};
use crate::divisibility::is_prime;
use crate::certificate::lemma_prime_modulus;
use crate::roots::lemma_generator_order;
use crate::lexicographic::{lex_order, lemma_lex_total};
use crate::kilt::{salted_entries, salted_preimage};
use crate::encoding::{
    be_number, hex_bound, hex_len, decimal_digits, decimal_value, lemma_be_number_concat,
    lemma_hex_bound_32, lemma_below_hex_len, lemma_be_number_of_be_bytes,
};
use crate::lexicographic::lex_le;
use crate::kilt::name_text;

verus! {

/// The modulus is prime, so the operations are those of a field.
pub proof fn law_modulus_is_prime()
    ensures
        is_prime(modulus()),
{
    lemma_prime_modulus();
}

/// Zero and one are identities: `a + 0 = a`, `a - 0 = a`, `a * 0 = 0` and `a * 1 = a`.
pub proof fn law_identities(a: int)
    requires
        is_element(a),
    ensures
        field_add(a, 0) == a,
        field_sub(a, 0) == a,
        field_mul(a, 0) == 0,
        field_mul(a, 1) == a,
{
    lemma_modulus_facts();
    lemma_small_mod(a as nat, modulus() as nat);
    lemma_small_mod(0, modulus() as nat);
}

/// Addition and multiplication are commutative and associative, and multiplication
/// distributes over addition.
pub proof fn law_commutative_ring(a: int, b: int, c: int)
    requires
        is_element(a),
        is_element(b),
        is_element(c),
    ensures
        field_add(a, b) == field_add(b, a),
        field_mul(a, b) == field_mul(b, a),
        field_add(field_add(a, b), c) == field_add(a, field_add(b, c)),
        field_mul(field_mul(a, b), c) == field_mul(a, field_mul(b, c)),
        field_mul(a, field_add(b, c)) == field_add(field_mul(a, b), field_mul(a, c)),
{
    let m = modulus();
    lemma_modulus_facts();
    lemma_mul_is_commutative(a, b);
    lemma_add_mod_noop(a + b, c, m);
    lemma_add_mod_noop(a, b + c, m);
    lemma_small_mod(a as nat, m as nat);
    lemma_small_mod(c as nat, m as nat);
    lemma_mul_mod_noop_left(a * b, c, m);
    lemma_mul_mod_noop_right(a, b * c, m);
    lemma_mul_is_associative(a, b, c);
    lemma_mul_mod_noop_right(a, b + c, m);
    lemma_mul_is_distributive_add(a, b, c);
    lemma_add_mod_noop(a * b, a * c, m);
}

/// Subtraction undoes addition, and negation gives the additive inverse:
/// `(a - b) + b = a`, `(a + b) - b = a`, `a + (-a) = 0` and `-(-a) = a`.
pub proof fn law_subtraction(a: int, b: int)
    requires
        is_element(a),
        is_element(b),
    ensures
        field_add(field_sub(a, b), b) == a,
        field_sub(field_add(a, b), b) == a,
        field_add(a, field_neg(a)) == 0,
        field_neg(field_neg(a)) == a,
{
    let m = modulus();
    lemma_modulus_facts();
    lemma_add_mod_noop(a - b, b, m);
    lemma_sub_mod_noop(a + b, b, m);
    lemma_small_mod(a as nat, m as nat);
    lemma_small_mod(b as nat, m as nat);
    lemma_small_mod(0, m as nat);
    lemma_add_mod_noop(a, 0 - a, m);
    lemma_sub_mod_noop(0, 0 - a, m);
    lemma_mod_self_0(m);
}

/// Every nonzero element times its inverse is one, and inverting twice gives the element
/// back (zero included, whose inverse is taken to be zero).
pub proof fn law_inverse(x: int)
    requires
        is_element(x),
    ensures
        x != 0 ==> field_mul(x, field_inv(x)) == 1,
        field_inv(field_inv(x)) == x,
{
    let m = modulus();
    lemma_modulus_facts();
    if x == 0 {
        lemma_small_mod(0, m as nat);
        assert(field_inv(0) == 0);
    } else {
        lemma_inverse_exists(x);
        let y = field_inv(x);
        lemma_mul_is_commutative(x, y);
        lemma_small_mod(x as nat, m as nat);
        assert(is_inverse(y, x));
        lemma_field_inv_is(y, x);
    }
}

/// Division gives the quotient: `b * (a / b) = a` and `(a * b) / b = a` for nonzero `b`,
/// where `a / b` is `a * inv(b)`.
pub proof fn law_division(a: int, b: int)
    requires
        is_element(a),
        is_element(b),
        b != 0,
    ensures
        field_mul(b, field_mul(a, field_inv(b))) == a,
        field_mul(field_mul(a, b), field_inv(b)) == a,
{
    let m = modulus();
    let y = field_inv(b);
    lemma_modulus_facts();
    lemma_inverse_exists(b);
    lemma_small_mod(a as nat, m as nat);
    // b * ((a * y) % m) = a * (b * y) = a, modulo m
    lemma_mul_mod_noop_right(b, a * y, m);
    lemma_mul_is_associative(b, a, y);
    lemma_mul_is_commutative(b, a);
    lemma_mul_is_associative(a, b, y);
    lemma_mul_mod_noop_right(a, b * y, m);
    assert(a * 1 == a);
    // ((a * b) % m) * y = a * (b * y) = a, modulo m
    lemma_mul_mod_noop_left(a * b, y, m);
}

/// The root of unity of order `2^e`, `G^(2^(40 - e))`, has order exactly `2^e`: raised to
/// `2^e` it gives one, raised to `2^(e - 1)` it gives `M - 1`, and its square is the root
/// of order `2^(e - 1)`.
pub proof fn law_root_of_unity(e: nat)
    requires
        e <= 40,
    ensures
        pow(pow(G as int, pow2((40 - e) as nat)) % modulus(), pow2(e)) % modulus() == 1,
        e >= 1 ==> pow(pow(G as int, pow2((40 - e) as nat)) % modulus(), pow2((e - 1) as nat))
            % modulus() == modulus() - 1,
        e >= 1 ==> pow(G as int, pow2((41 - e) as nat)) % modulus() == pow(
            pow(G as int, pow2((40 - e) as nat)) % modulus(),
            2,
        ) % modulus(),
{
    let m = modulus();
    let g = G as int;
    let k = pow2((40 - e) as nat);
    lemma_modulus_facts();
    lemma_generator_order();
    lemma2_to64();
    lemma2_to64_rest();
    lemma_pow2_pos((40 - e) as nat);
    lemma_pow_mod_noop(pow(g, k), pow2(e), m);
    lemma_pow_multiplies(g, k, pow2(e));
    lemma_pow2_adds((40 - e) as nat, e);
    assert(((40 - e) as nat + e) as nat == 40);
    assert(k * pow2(e) == 1099511627776);
    assert(pow(pow(g, k), pow2(e)) == pow(g, 1099511627776));
    if e >= 1 {
        lemma_pow_mod_noop(pow(g, k), pow2((e - 1) as nat), m);
        lemma_pow_multiplies(g, k, pow2((e - 1) as nat));
        lemma_pow2_adds((40 - e) as nat, (e - 1) as nat);
        assert(((40 - e) as nat + (e - 1) as nat) as nat == 39);
        assert(k * pow2((e - 1) as nat) == 549755813888);
        assert(pow(pow(g, k), pow2((e - 1) as nat)) == pow(g, 549755813888));
        lemma_pow2_adds((40 - e) as nat, 1);
        lemma_pow_mod_noop(pow(g, k), 2, m);
        lemma_pow_multiplies(g, k, 2);
        lemma_mul_is_commutative(k as int, 2);
    }
}

/// The bytes hashed for a list of salted hashes depend only on its entries, not on their
/// order: lists with the same entries, counted with multiplicity, hash the same bytes.
pub proof fn law_salted_order_free(v1: Seq<u128>, n1: nat, v2: Seq<u128>, n2: nat)
    requires
        salted_entries(v1, n1).to_multiset() == salted_entries(v2, n2).to_multiset(),
    ensures
        salted_preimage(v1, n1) == salted_preimage(v2, n2),
{
    let s1 = salted_entries(v1, n1);
    let s2 = salted_entries(v2, n2);
    lemma_lex_total();
    s1.lemma_sort_by_ensures(lex_order());
    s2.lemma_sort_by_ensures(lex_order());
    lemma_sorted_unique(s1.sort_by(lex_order()), s2.sort_by(lex_order()), lex_order());
}

/// The two halves of a 32-byte digest, each read as a big-endian number (as `kvalid_a` and
/// `kvalid_b`, or `khash_a` and `khash_b`, return them), join to the whole digest read as a
/// big-endian number: `head * 2^128 + tail`.
pub proof fn law_digest_halves_join(digest: Seq<u8>)
    requires
        digest.len() == 32,
    ensures
        be_number(digest) == be_number(digest.subrange(0, 16))
            * 0x1_0000_0000_0000_0000_0000_0000_0000_0000 + be_number(digest.subrange(16, 32)),
{
    let head = digest.subrange(0, 16);
    let tail = digest.subrange(16, 32);
    assert(head + tail =~= digest);
    lemma_be_number_concat(head, tail);
    lemma_hex_bound_32();
}

/// Lexicographic order decides at the first byte where two byte strings differ: the
/// string with the smaller byte there comes first.
pub proof fn law_lex_first_difference(a: Seq<u8>, b: Seq<u8>, i: int)
    requires
        0 <= i < a.len(),
        i < b.len(),
        a.subrange(0, i) == b.subrange(0, i),
        a[i] != b[i],
    ensures
        lex_le(a, b) == (a[i] < b[i]),
    decreases i,
{
    if i > 0 {
        assert(a[0] == a.subrange(0, i)[0]);
        assert(b[0] == b.subrange(0, i)[0]);
        assert(a.drop_first().subrange(0, i - 1) =~= b.drop_first().subrange(0, i - 1)) by {
            assert forall|k: int| 0 <= k < i - 1 implies a.drop_first()[k] == b.drop_first()[k] by {
                assert(a[k + 1] == a.subrange(0, i)[k + 1]);
                assert(b[k + 1] == b.subrange(0, i)[k + 1]);
            }
        }
        law_lex_first_difference(a.drop_first(), b.drop_first(), i - 1);
    }
}

/// A prefix comes no later than the byte strings that extend it, and a proper extension
/// comes strictly later.
pub proof fn law_lex_prefix(a: Seq<u8>, b: Seq<u8>)
    requires
        a.len() <= b.len(),
        b.subrange(0, a.len() as int) == a,
    ensures
        lex_le(a, b),
        a.len() < b.len() ==> !lex_le(b, a),
    decreases a.len(),
{
    if a.len() > 0 {
        assert(a[0] == b.subrange(0, a.len() as int)[0]);
        assert(b.drop_first().subrange(0, a.len() - 1) =~= a.drop_first()) by {
            assert forall|k: int| 0 <= k < a.len() - 1 implies b.drop_first()[k] == a.drop_first()[k] by {
                assert(b[k + 1] == b.subrange(0, a.len() as int)[k + 1]);
            }
        }
        law_lex_prefix(a.drop_first(), b.drop_first());
    }
}

/// The decimal text of a number is made of ASCII digits, reads back in base ten as the
/// number, and has no leading zero (zero is the single digit `0`).
pub proof fn law_decimal_digits(v: nat)
    ensures
        decimal_digits(v).len() >= 1,
        forall|i: int| 0 <= i < decimal_digits(v).len() ==> 48 <= #[trigger] decimal_digits(v)[i] <= 57,
        decimal_value(decimal_digits(v)) == v,
        v > 0 ==> decimal_digits(v)[0] != 48,
        v == 0 ==> decimal_digits(v) == seq![48u8],
    decreases v,
{
    let d = decimal_digits(v);
    if v < 10 {
        assert(d == seq![(48 + v) as u8]);
        assert(d.drop_last() =~= Seq::<u8>::empty());
        assert(decimal_value(Seq::<u8>::empty()) == 0);
        assert(d.last() as int == 48 + v);
        assert(decimal_value(d) == 10 * decimal_value(d.drop_last()) + (d.last() as int - 48));
    } else {
        law_decimal_digits(v / 10);
        let h = decimal_digits(v / 10);
        assert(d == h.push((48 + v % 10) as u8));
        assert(d.drop_last() =~= h);
        assert(d[0] == h[0]);
        assert forall|i: int| 0 <= i < d.len() implies 48 <= #[trigger] d[i] <= 57 by {
            if i < h.len() {
                assert(d[i] == h[i]);
            }
        }
        assert(10 * (v / 10) + v % 10 == v);
        assert(d.last() as int == 48 + v % 10);
        assert(decimal_value(d) == 10 * decimal_value(h) + (d.last() as int - 48));
    }
}

/// The property name of a claim is every byte of `ascii`: the bytes read back, big-endian,
/// as `ascii`, and there are half as many of them as `ascii` has hexadecimal digits.
pub proof fn law_name_text(ascii: nat)
    requires
        hex_len(ascii) % 2 == 0,
    ensures
        name_text(ascii).len() == hex_len(ascii) / 2,
        be_number(name_text(ascii)) == ascii,
{
    lemma_below_hex_len(ascii);
    assert(2 * (hex_len(ascii) / 2) == hex_len(ascii));
    lemma_be_number_of_be_bytes(ascii, hex_len(ascii) / 2);
}

} // verus!
