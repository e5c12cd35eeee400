//! Facts about powers and products taken modulo a positive integer.
use vstd::prelude::*;
use vstd::arithmetic::div_mod::*;
use vstd::arithmetic::mul::*;
use vstd::arithmetic::power::*;

verus! {

/// `b^(e + 1) = b^e * b`.
pub proof fn lemma_pow_succ(b: int, e: nat)
    ensures
        pow(b, e + 1) == pow(b, e) * b,
{
    lemma_pow_adds(b, e, 1);
    lemma_pow1(b);
}

/// Multiplying a power by one more factor, with every product reduced.
pub proof fn lemma_pow_mod_succ(b: int, e: nat, m: int)
    requires
        m > 0,
    ensures
        pow(b, e + 1) % m == ((pow(b, e) % m) * b) % m,
{
    lemma_pow_succ(b, e);
    lemma_mul_mod_noop_left(pow(b, e), b, m);
}

/// One step of square-and-multiply: the invariant `(r * b^p) % m` is kept
/// when `p` is halved, `b` squared, and `r` multiplied by `b` for odd `p`.
pub proof fn lemma_square_multiply_step(r: int, b: int, p: nat, m: int)
    requires
        m > 0,
    ensures
        p % 2 == 0 ==> (r * pow((b * b) % m, p / 2)) % m == (r * pow(b, p)) % m,
        p % 2 == 1 ==> (((r * b) % m) * pow((b * b) % m, p / 2)) % m == (r * pow(b, p)) % m,
{
    let k = p / 2;
    let bb = (b * b) % m;
    lemma_pow_mod_noop(b * b, k, m);
    lemma_square_is_pow2(b);
    lemma_pow_multiplies(b, 2, k);
    assert(pow(b * b, k) == pow(b, 2 * k));
    // pow(bb, k) and pow(b, 2k) agree modulo m
    assert(pow(bb, k) % m == pow(b, 2 * k) % m);
    if p % 2 == 0 {
        assert(p == 2 * k);
        lemma_mul_mod_noop_right(r, pow(bb, k), m);
        lemma_mul_mod_noop_right(r, pow(b, p), m);
    } else {
        assert(p == 2 * k + 1);
        lemma_pow_succ(b, 2 * k);
        lemma_mul_mod_noop_left(r * b, pow(bb, k), m);
        lemma_mul_mod_noop_right(r * b, pow(bb, k), m);
        lemma_mul_mod_noop_right(r * b, pow(b, 2 * k), m);
        lemma_mul_is_associative(r, b, pow(b, 2 * k));
        lemma_mul_is_commutative(b, pow(b, 2 * k));
    }
}

} // verus!
