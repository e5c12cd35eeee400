//! Divisibility, coprimality and primality.
use vstd::prelude::*;
use vstd::arithmetic::div_mod::*;
use vstd::arithmetic::mul::*;

verus! {

/// `g` divides `n`.
pub open spec fn divides(g: int, n: int) -> bool {
    n % g == 0
}

/// `u` and `v` have no common divisor greater than one.
pub open spec fn coprime(u: int, v: int) -> bool {
    forall|g: int| 1 < g ==> !(#[trigger] divides(g, u) && #[trigger] divides(g, v))
}

/// `n` is a prime number.
pub open spec fn is_prime(n: int) -> bool {
    &&& n > 1
    &&& forall|d: int| 1 < d < n ==> !#[trigger] divides(d, n)
}

/// A common divisor of `u` and `v` divides `u - k * v`.
pub proof fn lemma_divides_linear(g: int, u: int, v: int, k: int)
    requires
        g > 0,
        divides(g, u),
        divides(g, v),
    ensures
        divides(g, u - k * v),
        divides(g, u + k * v),
{
    let qu = u / g;
    let qv = v / g;
    lemma_fundamental_div_mod(u, g);
    lemma_fundamental_div_mod(v, g);
    assert(u - k * v == (qu - k * qv) * g && u + k * v == (qu + k * qv) * g) by (nonlinear_arith)
        requires
            u == g * qu + 0,
            v == g * qv + 0,
    ;
    lemma_mod_multiples_basic(qu - k * qv, g);
    lemma_mod_multiples_basic(qu + k * qv, g);
}

/// Coprimality survives subtracting one argument from the other.
pub proof fn lemma_coprime_sub(u: int, v: int)
    requires
        coprime(u, v),
    ensures
        coprime(u - v, v),
{
    assert forall|g: int| 1 < g implies !(#[trigger] divides(g, u - v) && #[trigger] divides(
        g,
        v,
    )) by {
        if divides(g, u - v) && divides(g, v) {
            lemma_divides_linear(g, u - v, v, -1);
            assert(u - v - (-1) * v == u);
            assert(divides(g, u));
        }
    }
}

/// Coprimality is symmetric.
pub proof fn lemma_coprime_symmetric(u: int, v: int)
    requires
        coprime(u, v),
    ensures
        coprime(v, u),
{
    assert forall|g: int| 1 < g implies !(#[trigger] divides(g, v) && #[trigger] divides(g, u)) by {
        if divides(g, v) && divides(g, u) {
            assert(divides(g, u) && divides(g, v));
        }
    }
}

/// Halving an even number keeps it coprime to an odd one.
pub proof fn lemma_coprime_half(u: int, v: int)
    requires
        coprime(u, v),
        u % 2 == 0,
        v % 2 == 1,
    ensures
        coprime(u / 2, v),
{
    assert forall|g: int| 1 < g implies !(#[trigger] divides(g, u / 2) && #[trigger] divides(
        g,
        v,
    )) by {
        if divides(g, u / 2) && divides(g, v) {
            lemma_divides_linear(g, u / 2, u / 2, -1);
            assert(u / 2 - (-1) * (u / 2) == u);
            assert(divides(g, u));
        }
    }
}

/// A number greater than one is not coprime to itself.
pub proof fn lemma_not_coprime_self(v: int)
    requires
        v > 1,
    ensures
        !coprime(v, v),
{
    lemma_mod_self_0(v);
    assert(divides(v, v));
}

/// Every value strictly between zero and a prime, shifted by multiples of
/// it, is coprime to it.
pub proof fn lemma_coprime_to_prime(p: int, x: int)
    requires
        is_prime(p),
        x % p != 0,
    ensures
        coprime(x, p),
{
    assert forall|g: int| 1 < g implies !(#[trigger] divides(g, x) && #[trigger] divides(g, p)) by {
        if divides(g, x) && divides(g, p) {
            if g < p {
                assert(!divides(g, p));
            } else if g == p {
                assert(x % p == 0);
            } else {
                lemma_small_mod(p as nat, g as nat);
            }
        }
    }
}

/// An odd modulus that divides `2 * y` divides `y`.
pub proof fn lemma_odd_divides_double(y: int, m: int)
    requires
        m > 0,
        m % 2 == 1,
        (2 * y) % m == 0,
    ensures
        y % m == 0,
{
    lemma_fundamental_div_mod(y, m);
    let q = y / m;
    let r = y % m;
    assert(2 * y == m * (2 * q) + 2 * r) by (nonlinear_arith)
        requires
            y == m * q + r,
    ;
    lemma_mod_multiples_vanish(2 * q, 2 * r, m);
    assert((2 * r) % m == 0);
    if 2 * r >= m {
        lemma_fundamental_div_mod_converse(2 * r, m, 1, 2 * r - m);
    } else {
        lemma_small_mod((2 * r) as nat, m as nat);
    }
}

} // verus!
