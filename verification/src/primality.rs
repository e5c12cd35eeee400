//! Lucas's primality criterion, and modular exponentiation by squaring as a
//! specification that can be evaluated one step at a time.
use vstd::prelude::*;
use vstd::arithmetic::div_mod::*;
use vstd::arithmetic::mul::*;
use vstd::arithmetic::power::*;
use vstd::set_lib::*;
use crate::algebra::lemma_pow_succ;
use crate::divisibility::{divides, is_prime, lemma_divides_linear};

verus! {

// ---------------------------------------------------------------------------
// Modular exponentiation by squaring
// ---------------------------------------------------------------------------

/// `b^e % n`, computed from the binary digits of `e`, most significant first.
#[verifier::opaque]
pub open spec fn pow_mod(b: int, e: nat, n: int) -> int
    decreases e,
{
    if e == 0 {
        1int % n
    } else if e % 2 == 0 {
        (pow_mod(b, e / 2, n) * pow_mod(b, e / 2, n)) % n
    } else {
        ((pow_mod(b, e / 2, n) * pow_mod(b, e / 2, n)) % n * b) % n
    }
}

/// Square-and-multiply agrees with exponentiation.
pub proof fn lemma_pow_mod_is_pow(b: int, e: nat, n: int)
    requires
        n > 0,
    ensures
        pow_mod(b, e, n) == pow(b, e) % n,
    decreases e,
{
    reveal(pow_mod);
    if e == 0 {
        lemma_pow0(b);
    } else {
        let k = e / 2;
        lemma_pow_mod_is_pow(b, k, n);
        let p = pow(b, k);
        lemma_pow_adds(b, k, k);
        lemma_mul_mod_noop(p, p, n);
        if e % 2 == 1 {
            lemma_pow_succ(b, k + k);
            lemma_mul_mod_noop_left(p * p, b, n);
        }
    }
}

/// `b^0 % n` for a modulus above one.
pub proof fn lemma_pow_mod_base(b: int, n: int)
    requires
        n > 1,
    ensures
        pow_mod(b, 0, n) == 1,
{
    reveal(pow_mod);
    lemma_small_mod(1, n as nat);
}

/// One binary digit of square-and-multiply: from the value `h` at `eh` to
/// the value `r` at `e = 2 * eh + bit`, with the quotient `q` of the
/// reduction given.
pub proof fn lemma_pow_mod_digit(b: int, n: int, e: nat, eh: nat, bit: nat, h: int, q: int, r: int)
    requires
        n > 0,
        e == 2 * eh + bit,
        bit == 0 || bit == 1,
        eh > 0 || bit == 1,
        pow_mod(b, eh, n) == h,
        0 <= r < n,
        bit == 0 ==> h * h == n * q + r,
        bit == 1 ==> h * h * b == n * q + r,
    ensures
        pow_mod(b, e, n) == r,
{
    reveal(pow_mod);
    assert(e / 2 == eh);
    assert(e % 2 == bit);
    assert(e > 0);
    if bit == 0 {
        lemma_fundamental_div_mod_converse(h * h, n, q, r);
    } else {
        lemma_fundamental_div_mod_converse(h * h * b, n, q, r);
        lemma_mul_mod_noop_left(h * h, b, n);
    }
}

// ---------------------------------------------------------------------------
// Euclid's algorithm on exponents
// ---------------------------------------------------------------------------

/// Greatest common divisor, by Euclid's algorithm.
pub open spec fn gcd(s: nat, t: nat) -> nat
    decreases t,
{
    if t == 0 {
        s
    } else {
        gcd(t, s % t)
    }
}

/// The gcd divides both arguments and is positive when the first is.
proof fn lemma_gcd_divides(s: nat, t: nat)
    requires
        s > 0 || t > 0,
    ensures
        gcd(s, t) > 0,
        divides(gcd(s, t) as int, s as int),
        divides(gcd(s, t) as int, t as int),
    decreases t,
{
    if t == 0 {
        lemma_mod_self_0(s as int);
        lemma_small_mod(0, s);
    } else {
        lemma_gcd_divides(t, s % t);
        let g = gcd(t, s % t) as int;
        let si = s as int;
        let ti = t as int;
        let q = si / ti;
        let r = si % ti;
        lemma_fundamental_div_mod(si, ti);
        lemma_divides_linear(g, r, ti, -q);
        assert(r - (-q) * ti == si) by (nonlinear_arith)
            requires
                si == ti * q + r,
        ;
    }
}

/// A positive divisor of a positive number is at most that number.
pub proof fn lemma_divisor_le(d: int, n: int)
    requires
        d > 0,
        n > 0,
        divides(d, n),
    ensures
        d <= n,
{
    lemma_fundamental_div_mod(n, d);
    if n / d <= 0 {
        lemma_mul_inequality(n / d, 0, d);
        lemma_mul_is_commutative(n / d, d);
    } else {
        lemma_mul_inequality(1, n / d, d);
        lemma_mul_is_commutative(n / d, d);
    }
}

/// `x^k % n == 1` when `x % n == 1`.
proof fn lemma_pow_of_one_mod(x: int, k: nat, n: int)
    requires
        n > 1,
        x % n == 1,
    ensures
        pow(x, k) % n == 1,
{
    lemma_pow_mod_noop(x, k, n);
    lemma1_pow(k);
    lemma_small_mod(1, n as nat);
}

/// If `a^s` and `a^t` are both one modulo `n`, so is `a^gcd(s, t)`.
proof fn lemma_pow_one_gcd(a: int, s: nat, t: nat, n: int)
    requires
        n > 1,
        pow(a, s) % n == 1,
        pow(a, t) % n == 1,
    ensures
        pow(a, gcd(s, t)) % n == 1,
    decreases t,
{
    if t > 0 {
        let q = s / t;
        let r = s % t;
        lemma_fundamental_div_mod(s as int, t as int);
        lemma_mul_nonnegative(t as int, q as int);
        assert(s == t * q + r);
        lemma_pow_adds(a, t * q, r);
        lemma_pow_multiplies(a, t, q);
        lemma_pow_of_one_mod(pow(a, t), q, n);
        lemma_mul_mod_noop_left(pow(a, t * q), pow(a, r), n);
        lemma_pow_one_gcd(a, t, r, n);
    }
}

// ---------------------------------------------------------------------------
// Prime factors
// ---------------------------------------------------------------------------

/// `b^k` on integers, for small exponents.
pub open spec fn ipow(b: int, k: nat) -> int
    decreases k,
{
    if k == 0 {
        1
    } else {
        b * ipow(b, (k - 1) as nat)
    }
}

/// The product of the prime powers listed from index `i` on, in a
/// factorization given as (prime, exponent) pairs.
pub open spec fn factor_product(fs: Seq<(int, nat)>, i: int) -> int
    decreases fs.len() - i,
{
    if i < 0 || i >= fs.len() {
        1
    } else {
        ipow(fs[i].0, fs[i].1) * factor_product(fs, i + 1)
    }
}

/// One factor of a factorization, with its value and the value of the rest
/// given as numbers.
pub proof fn lemma_factor_product_step(fs: Seq<(int, nat)>, i: int, power: int, rest: int)
    requires
        0 <= i < fs.len(),
        ipow(fs[i].0, fs[i].1) == power,
        factor_product(fs, i + 1) == rest,
    ensures
        factor_product(fs, i) == power * rest,
{
}

/// The empty tail of a factorization.
pub proof fn lemma_factor_product_end(fs: Seq<(int, nat)>)
    ensures
        factor_product(fs, fs.len() as int) == 1,
{
}

/// Euclid's lemma for a residue: a prime dividing `a * b` with `0 < a < p`
/// divides `b`.
proof fn lemma_euclid_residue(p: int, a: int, b: int)
    requires
        is_prime(p),
        0 < a < p,
        divides(p, a * b),
    ensures
        divides(p, b),
    decreases a,
{
    if a == 1 {
        lemma_mul_basics(b);
    } else {
        let q = p / a;
        let r = p % a;
        lemma_fundamental_div_mod(p, a);
        if r == 0 {
            assert(divides(a, p));
        }
        // r * b = p * b - q * (a * b)
        assert(r * b == p * b - q * (a * b)) by (nonlinear_arith)
            requires
                p == a * q + r,
        ;
        lemma_mod_multiples_basic(b, p);
        assert(divides(p, b * p));
        lemma_mul_is_commutative(b, p);
        lemma_divides_linear(p, p * b, a * b, q);
        lemma_euclid_residue(p, r, b);
    }
}

/// Euclid's lemma: a prime dividing a product divides one of the factors.
pub proof fn lemma_euclid(p: int, a: int, b: int)
    requires
        is_prime(p),
        divides(p, a * b),
    ensures
        divides(p, a) || divides(p, b),
{
    if !divides(p, a) {
        let r = a % p;
        lemma_fundamental_div_mod(a, p);
        assert(r * b == a * b - (a / p) * (b * p)) by (nonlinear_arith)
            requires
                a == p * (a / p) + r,
        ;
        lemma_mod_multiples_basic(b, p);
        lemma_divides_linear(p, a * b, b * p, a / p);
        lemma_euclid_residue(p, r, b);
    }
}

/// A prime dividing a power divides its base.
proof fn lemma_prime_divides_power(p: int, q: int, k: nat)
    requires
        is_prime(p),
        divides(p, ipow(q, k)),
    ensures
        divides(p, q),
    decreases k,
{
    if k == 0 {
        lemma_small_mod(1, p as nat);
    } else {
        lemma_euclid(p, q, ipow(q, (k - 1) as nat));
        if !divides(p, q) {
            lemma_prime_divides_power(p, q, (k - 1) as nat);
        }
    }
}

/// A prime dividing a factored number is one of its listed primes.
proof fn lemma_prime_divides_factors(p: int, fs: Seq<(int, nat)>, i: int)
    requires
        is_prime(p),
        0 <= i,
        divides(p, factor_product(fs, i)),
        forall|j: int| 0 <= j < fs.len() ==> is_prime(#[trigger] fs[j].0),
    ensures
        exists|j: int| i <= j < fs.len() && fs[j].0 == p,
    decreases fs.len() - i,
{
    if i >= fs.len() {
        lemma_small_mod(1, p as nat);
    } else {
        lemma_euclid(p, ipow(fs[i].0, fs[i].1), factor_product(fs, i + 1));
        if divides(p, ipow(fs[i].0, fs[i].1)) {
            lemma_prime_divides_power(p, fs[i].0, fs[i].1);
            let q = fs[i].0;
            assert(is_prime(q));
            lemma_divisor_le(p, q);
            if p < q {
                assert(!divides(p, q));
            }
        } else {
            lemma_prime_divides_factors(p, fs, i + 1);
        }
    }
}

/// Every number above one has a prime divisor.
proof fn lemma_has_prime_divisor(e: int)
    requires
        e > 1,
    ensures
        exists|r: int| is_prime(r) && #[trigger] divides(r, e),
    decreases e,
{
    if is_prime(e) {
        lemma_mod_self_0(e);
        assert(divides(e, e));
    } else {
        let d = choose|d: int| 1 < d < e && #[trigger] divides(d, e);
        lemma_has_prime_divisor(d);
        let r = choose|r: int| is_prime(r) && #[trigger] divides(r, d);
        lemma_fundamental_div_mod(e, d);
        lemma_divides_linear(r, 0, d, -(e / d));
        assert(0 - (-(e / d)) * d == e) by (nonlinear_arith)
            requires
                e == d * (e / d) + 0,
        ;
        lemma_small_mod(0, r as nat);
        assert(divides(r, e));
    }
}

// ---------------------------------------------------------------------------
// Lucas's criterion
// ---------------------------------------------------------------------------

/// `a^t` is never one for `0 < t < n - 1` under the hypotheses of Lucas's
/// criterion.
proof fn lemma_lucas_order(n: int, a: int, fs: Seq<(int, nat)>, t: nat)
    requires
        n > 2,
        factor_product(fs, 0) == n - 1,
        forall|i: int| 0 <= i < fs.len() ==> is_prime(#[trigger] fs[i].0),
        pow(a, (n - 1) as nat) % n == 1,
        forall|i: int| 0 <= i < fs.len() ==> pow(a, ((n - 1) / #[trigger] fs[i].0) as nat) % n != 1,
        0 < t < n - 1,
    ensures
        pow(a, t) % n != 1,
{
    if pow(a, t) % n == 1 {
        let m1 = (n - 1) as nat;
        lemma_pow_one_gcd(a, t, m1, n);
        let g = gcd(t, m1);
        lemma_gcd_divides(t, m1);
        lemma_divisor_le(g as int, t as int);
        lemma_fundamental_div_mod(m1 as int, g as int);
        let e = m1 / g;
        assert(m1 == g * e);
        if e <= 1 {
            lemma_mul_inequality(e as int, 1, g as int);
        }
        lemma_has_prime_divisor(e as int);
        let r = choose|r: int| is_prime(r) && #[trigger] divides(r, e as int);
        lemma_fundamental_div_mod(e as int, r);
        let c = e as int / r;
        assert(m1 == r * (g * c)) by (nonlinear_arith)
            requires
                m1 == g * e,
                e == r * c + 0,
        ;
        lemma_mod_multiples_basic(g * c, r);
        lemma_mul_is_commutative(g * c, r);
        lemma_prime_divides_factors(r, fs, 0);
        let i = choose|i: int| 0 <= i < fs.len() && fs[i].0 == r;
        lemma_div_multiples_vanish(g * c, r);
        assert((n - 1) / fs[i].0 == g * c);
        lemma_mul_nonnegative(g as int, c);
        lemma_pow_multiplies(a, g, c as nat);
        lemma_pow_of_one_mod(pow(a, g), c as nat, n);
        assert(pow(a, ((n - 1) / fs[i].0) as nat) % n == 1);
    }
}

/// Lucas's criterion: if `a^(n-1) = 1` modulo `n` but `a^((n-1)/q) != 1`
/// for every prime `q` dividing `n - 1`, then `n` is prime.
pub proof fn lemma_lucas(n: int, a: int, fs: Seq<(int, nat)>)
    requires
        n > 2,
        factor_product(fs, 0) == n - 1,
        forall|i: int| 0 <= i < fs.len() ==> is_prime(#[trigger] fs[i].0),
        pow(a, (n - 1) as nat) % n == 1,
        forall|i: int| 0 <= i < fs.len() ==> pow(a, ((n - 1) / #[trigger] fs[i].0) as nat) % n != 1,
    ensures
        is_prime(n),
{
    let m1 = (n - 1) as nat;
    let f = |i: int| pow(a, i as nat) % n;
    let dom = set_int_range(0, n - 1);
    let img = dom.map(f);
    // the powers a^0, ..., a^(n-2) are distinct modulo n
    assert forall|i: int, j: int| dom.contains(i) && dom.contains(j) && #[trigger] f(i) == #[trigger] f(
        j,
    ) implies i == j by {
        if i != j {
            let (lo, hi) = if i < j {
                (i, j)
            } else {
                (j, i)
            };
            // a^(lo + (n - 1 - hi)) = a^lo * a^(n-1-hi) = a^hi * a^(n-1-hi) = a^(n-1)
            let t = (lo + (n - 1 - hi)) as nat;
            lemma_pow_adds(a, lo as nat, (n - 1 - hi) as nat);
            lemma_pow_adds(a, hi as nat, (n - 1 - hi) as nat);
            lemma_mul_mod_noop_left(pow(a, lo as nat), pow(a, (n - 1 - hi) as nat), n);
            lemma_mul_mod_noop_left(pow(a, hi as nat), pow(a, (n - 1 - hi) as nat), n);
            lemma_lucas_order(n, a, fs, t);
        }
    }
    lemma_int_range(0, n - 1);
    lemma_map_size(dom, img, f);
    // every power is a nonzero residue
    let range = set_int_range(1, n);
    assert forall|y: int| img.contains(y) implies range.contains(y) by {
        let i = choose|i: int| dom.contains(i) && y == f(i);
        lemma_mod_bound(pow(a, i as nat), n);
        if y == 0 {
            let z = pow(a, (n - 1 - i) as nat);
            lemma_pow_adds(a, i as nat, (n - 1 - i) as nat);
            assert((i as nat) + ((n - 1 - i) as nat) == m1);
            lemma_mul_mod_noop_left(pow(a, i as nat), z, n);
            assert((pow(a, i as nat) % n) * z == 0);
            lemma_small_mod(0, n as nat);
            assert(pow(a, m1) % n == 0);
        }
    }
    lemma_int_range(1, n);
    lemma_subset_equality(img, range);
    // so every value in [1, n) has an inverse, which no proper divisor can
    assert forall|d: int| 1 < d < n implies !#[trigger] divides(d, n) by {
        if divides(d, n) {
            assert(range.contains(d));
            assert(img.contains(d));
            let i = choose|i: int| dom.contains(i) && d == f(i);
            let y = pow(a, (n - 1 - i) as nat);
            lemma_pow_adds(a, i as nat, (n - 1 - i) as nat);
            lemma_mul_mod_noop_left(pow(a, i as nat), y, n);
            // (d * y) % n == 1, yet d divides both d * y and n
            lemma_fundamental_div_mod(d * y, n);
            lemma_mod_multiples_basic(y, d);
            lemma_mul_is_commutative(y, d);
            lemma_divides_linear(d, d * y, n, (d * y) / n);
            assert(d * y - ((d * y) / n) * n == 1);
            lemma_small_mod(1, d as nat);
        }
    }
}

} // verus!
