//! Multiplicative inverses by the binary extended Euclidean algorithm.
use vstd::prelude::*;
use vstd::arithmetic::div_mod::*;
use vstd::arithmetic::mul::*;
use vstd::arithmetic::power2::*;
use crate::limbs::{
    M, pow64, pow192, limbs2, limbs3, lemma_modulus_facts, lemma_split128, lemma_shl64,
    lemma_u64_low_bit, lemma_u128_low_bit, lemma_shift_pair, add_192x192, sub_192x192,
};
use crate::field::{modulus, field_mul, ONE, ZERO};
use crate::primality::lemma_euclid;
use crate::certificate::lemma_prime_modulus;
use crate::divisibility::{
    coprime, is_prime, lemma_coprime_sub, lemma_coprime_half, lemma_coprime_symmetric,
    lemma_not_coprime_self, lemma_coprime_to_prime, lemma_odd_divides_double,
};

verus! {

/// `y` is the inverse of `x` in the field: a field element whose product
/// with `x` is one.
pub open spec fn is_inverse(x: int, y: int) -> bool {
    0 <= y < modulus() && (x * y) % modulus() == 1
}

/// Halving a coefficient modulo the odd `M`: an odd value is made even by
/// adding `M` first.
pub open spec fn halve_mod(c: int) -> int {
    if c % 2 == 0 {
        c / 2
    } else {
        (c + 340282366920938463463374557953744961537) / 2
    }
}

/// The bound on the coefficients after `h` halvings in all.
pub open spec fn coefficient_cap(h: nat) -> int {
    340282366920938463463374557953744961537int * (h + 2)
}

/// The parity of a three-limb value is that of its low limb.
proof fn lemma_limbs3_parity(z0: u64, z1: u64, z2: u64)
    ensures
        limbs3(z0, z1, z2) % 2 == z0 % 2,
{
    let z = limbs3(z0, z1, z2);
    let h = z0 / 2 + z1 * 0x8000_0000_0000_0000 + z2 * 0x8000_0000_0000_0000_0000_0000_0000_0000;
    assert(z == 2 * h + z0 % 2);
    lemma_fundamental_div_mod_converse(z, 2, h, (z0 % 2) as int);
}

/// The shift used to halve a three-limb value.
proof fn lemma_halve3(z0: u64, z1: u64, z2: u64)
    ensures
        limbs3((z0 >> 1) | ((z1 & 1) << 63), (z1 >> 1) | ((z2 & 1) << 63), z2 >> 1) == limbs3(
            z0,
            z1,
            z2,
        ) / 2,
{
    lemma_shift_pair(z0, z1);
    lemma_shift_pair(z1, z2);
    let z = limbs3(z0, z1, z2);
    let h = limbs3((z0 >> 1) | ((z1 & 1) << 63), (z1 >> 1) | ((z2 & 1) << 63), z2 >> 1);
    assert(z == 2 * h + z0 % 2);
    lemma_fundamental_div_mod_converse(z, 2, h, (z0 % 2) as int);
}

/// Subtracting one of `u`, `v` from the other while adding the matching
/// coefficients keeps `d * x + u` and `a * x - v` divisible by `M`.
proof fn lemma_step_sub(d: int, a: int, u: int, v: int, x: int)
    requires
        (d * x + u) % modulus() == 0,
        (a * x - v) % modulus() == 0,
    ensures
        ((d + a) * x + (u - v)) % modulus() == 0,
        ((a + d) * x - (v - u)) % modulus() == 0,
{
    lemma_mul_is_distributive_add_other_way(x, d, a);
    lemma_mul_is_distributive_add_other_way(x, a, d);
    lemma_add_mod_noop(d * x + u, a * x - v, modulus());
    lemma_add_mod_noop(a * x - v, d * x + u, modulus());
    lemma_small_mod(0, M as nat);
}

/// Halving an even `w` together with the coefficient `c`, made even by
/// adding `M` when needed, keeps `c * x + w` divisible by `M`.
proof fn lemma_step_halve(c: int, w: int, x: int)
    requires
        (c * x + w) % modulus() == 0,
        w % 2 == 0,
    ensures
        (halve_mod(c) * x + w / 2) % modulus() == 0,
{
    lemma_modulus_facts();
    let m = modulus();
    let e = c % 2;
    let c2 = (c + e * m) / 2;
    if e == 0 {
        assert(e * m == 0);
    } else {
        assert(e * m == m);
    }
    assert(2 * c2 == c + e * m);
    let y = c2 * x + w / 2;
    assert(2 * y == (c * x + w) + m * (e * x)) by (nonlinear_arith)
        requires
            2 * c2 == c + e * m,
            2 * (w / 2) == w,
            y == c2 * x + w / 2,
    ;
    lemma_mod_multiples_vanish(e * x, c * x + w, m);
    lemma_odd_divides_double(y, m);
    assert(c2 == halve_mod(c));
}

/// A value at least one, doubled `h` times, stays at most `2 * M` only for
/// `h` at most 128.
proof fn lemma_halving_budget(n: int, h: nat)
    requires
        n >= 1,
        n * pow2(h) <= 2 * M,
    ensures
        h <= 128,
{
    lemma2_to64();
    lemma_pow2_adds(64, 64);
    assert(pow2(128) == 0x1_0000_0000_0000_0000_0000_0000_0000_0000int) by (nonlinear_arith)
        requires
            pow2(128) == pow2(64) * pow2(64),
            pow2(64) == 0x1_0000_0000_0000_0000int,
    ;
    lemma_pow2_unfold(129);
    lemma_pow2_pos(h);
    lemma_mul_increases(n, pow2(h) as int);
    if h > 129 {
        lemma_pow2_strictly_increases(129, h);
    }
}

/// One halving of `n` doubles the count `2^h`.
proof fn lemma_halving_keeps_product(n: int, h: nat)
    requires
        n % 2 == 0,
    ensures
        (n / 2) * pow2(h + 1) == n * pow2(h),
{
    lemma_pow2_unfold(h + 1);
    assert((n / 2) * (2 * pow2(h)) == n * pow2(h)) by (nonlinear_arith)
        requires
            n == 2 * (n / 2),
    ;
}

/// What the inversion loops keep: the congruences `d * x + u ≡ 0` and
/// `a * x ≡ v` modulo `M`, coprimality of `u` and `v`, and the number of
/// halvings each of `u` and `v` has gone through.
#[verifier::opaque]
spec fn progress(x: int, u: int, v: int, d: int, a: int, hu: nat, hv: nat) -> bool {
    &&& 0 < x < M
    &&& 1 <= u
    &&& 1 <= v
    &&& u * pow2(hu) <= 2 * M
    &&& v * pow2(hv) <= M
    &&& coprime(u, v)
    &&& (d * x + u) % modulus() == 0
    &&& (a * x - v) % modulus() == 0
}

proof fn lemma_progress_init(x: int, u: int)
    requires
        0 < x < M,
        is_prime(modulus()),
        u == x || u == x + M,
    ensures
        progress(x, u, M as int, M - 1, 0, 0, 0),
{
    reveal(progress);
    lemma_modulus_facts();
    lemma2_to64();
    let m = modulus();
    assert(u % m == x) by {
        if u == x {
            lemma_small_mod(x as nat, M as nat);
        } else {
            lemma_fundamental_div_mod_converse(u, m, 1, x);
        }
    }
    lemma_coprime_to_prime(m, u);
    lemma_coprime_symmetric(m, u);
    lemma_mul_is_distributive_sub_other_way(x, m, 1);
    lemma_mod_multiples_vanish(x, u - x, m);
    lemma_small_mod(0, M as nat);
    assert(((M - 1) * x + u) == m * x + (u - x));
    assert(((0 * x) - M) == m * (-1) + 0);
    lemma_mod_multiples_vanish(-1, 0, m);
}

/// The numbers of halvings are bounded.
proof fn lemma_progress_budget(x: int, u: int, v: int, d: int, a: int, hu: nat, hv: nat)
    requires
        progress(x, u, v, d, a, hu, hv),
    ensures
        hu <= 128,
        hv <= 128,
        1 <= v <= M,
        1 <= u,
{
    reveal(progress);
    lemma_halving_budget(u, hu);
    lemma_halving_budget(v, hv);
    lemma_pow2_pos(hv);
    lemma_mul_increases(pow2(hv) as int, v);
    lemma_mul_is_commutative(pow2(hv) as int, v);
}

/// `u` and `v` cannot meet while `v` is above one.
proof fn lemma_progress_distinct(x: int, u: int, v: int, d: int, a: int, hu: nat, hv: nat)
    requires
        progress(x, u, v, d, a, hu, hv),
        v > 1,
    ensures
        u != v,
{
    reveal(progress);
    if u == v {
        lemma_not_coprime_self(v);
    }
}

/// `u = u - v; d = d + a`.
proof fn lemma_progress_sub_u(x: int, u: int, v: int, d: int, a: int, hu: nat, hv: nat)
    requires
        progress(x, u, v, d, a, hu, hv),
        u > v,
    ensures
        progress(x, u - v, v, d + a, a, hu, hv),
{
    reveal(progress);
    lemma_coprime_sub(u, v);
    lemma_step_sub(d, a, u, v, x);
    lemma_mul_inequality(u - v, u, pow2(hu) as int);
}

/// `u = u / 2; d = (d + (d odd ? M : 0)) / 2`.
proof fn lemma_progress_halve_u(x: int, u: int, v: int, d: int, a: int, hu: nat, hv: nat)
    requires
        progress(x, u, v, d, a, hu, hv),
        u % 2 == 0,
        v % 2 == 1,
    ensures
        progress(x, u / 2, v, halve_mod(d), a, hu + 1, hv),
{
    reveal(progress);
    lemma_step_halve(d, u, x);
    lemma_coprime_half(u, v);
    lemma_halving_keeps_product(u, hu);
}

/// `v = v - u; a = a + d`.
proof fn lemma_progress_sub_v(x: int, u: int, v: int, d: int, a: int, hu: nat, hv: nat)
    requires
        progress(x, u, v, d, a, hu, hv),
        u < v,
    ensures
        progress(x, u, v - u, d, a + d, hu, hv),
{
    reveal(progress);
    lemma_step_sub(d, a, u, v, x);
    lemma_coprime_symmetric(u, v);
    lemma_coprime_sub(v, u);
    lemma_coprime_symmetric(v - u, u);
    lemma_mul_inequality(v - u, v, pow2(hv) as int);
}

/// `v = v / 2; a = (a + (a odd ? M : 0)) / 2`.
proof fn lemma_progress_halve_v(x: int, u: int, v: int, d: int, a: int, hu: nat, hv: nat)
    requires
        progress(x, u, v, d, a, hu, hv),
        v % 2 == 0,
        u % 2 == 1,
    ensures
        progress(x, u, v / 2, d, halve_mod(a), hu, hv + 1),
{
    reveal(progress);
    lemma_step_halve(a, -v, x);
    assert(-v / 2 == -(v / 2));
    lemma_coprime_symmetric(u, v);
    lemma_coprime_half(v, u);
    lemma_coprime_symmetric(v / 2, u);
    lemma_halving_keeps_product(v, hv);
}

/// When `v` reaches one, `a` is an inverse of `x` up to multiples of `M`.
proof fn lemma_progress_done(x: int, u: int, d: int, a: int, hu: nat, hv: nat)
    requires
        progress(x, u, 1, d, a, hu, hv),
    ensures
        (a * x - 1) % modulus() == 0,
{
    reveal(progress);
}

/// The subtraction step of the inner loop, on the values the limbs hold.
proof fn lemma_sub_u_state(
    x: int,
    u: int,
    v: int,
    d: int,
    a: int,
    hu: nat,
    hv: nat,
    new_u: int,
    new_d: int,
)
    requires
        progress(x, u, v, d, a, hu, hv),
        v < u < pow192(),
        u % 2 == 1,
        v % 2 == 1,
        0 <= d <= coefficient_cap(hu + hv),
        0 <= a <= coefficient_cap(hu + hv),
        new_u == (u - v) % pow192(),
        new_d == (d + a) % pow192(),
    ensures
        progress(x, new_u, v, new_d, a, hu, hv),
        new_u % 2 == 0,
        1 <= new_u < u,
        0 <= new_d <= 2 * coefficient_cap(hu + hv),
{
    lemma_progress_budget(x, u, v, d, a, hu, hv);
    lemma_small_mod((u - v) as nat, pow192() as nat);
    lemma_small_mod((d + a) as nat, pow192() as nat);
    lemma_progress_sub_u(x, u, v, d, a, hu, hv);
}

/// The loop condition `u > v` read off the limbs.
proof fn lemma_limbs_exceed(u0: u64, u1: u64, u2: u64, v: int)
    requires
        v <= M,
        u2 > 0 || u0 + u1 * pow64() > v,
    ensures
        limbs3(u0, u1, u2) > v,
{
}

/// The inverse of `x` in the field, and zero for zero.
pub open spec fn field_inv(x: int) -> int {
    if x % modulus() == 0 {
        0
    } else {
        choose|y: int| is_inverse(x, y)
    }
}

/// An element has at most one inverse.
pub proof fn lemma_inverse_unique(x: int, y1: int, y2: int)
    requires
        is_inverse(x, y1),
        is_inverse(x, y2),
    ensures
        y1 == y2,
{
    let m = modulus();
    lemma_modulus_facts();
    // y1 = y1 * (x * y2) = (x * y1) * y2 = y2, all modulo m
    lemma_mul_mod_noop_right(y1, x * y2, m);
    lemma_mul_mod_noop_left(x * y1, y2, m);
    lemma_mul_is_associative(y1, x, y2);
    lemma_mul_is_commutative(y1, x);
    lemma_small_mod(y1 as nat, m as nat);
    lemma_small_mod(y2 as nat, m as nat);
    assert(y1 * 1 == y1);
    assert(1 * y2 == y2);
}

/// An inverse, once found, is the one `field_inv` names.
pub proof fn lemma_field_inv_is(x: int, y: int)
    requires
        is_inverse(x, y),
    ensures
        field_inv(x) == y,
        x % modulus() != 0,
{
    let m = modulus();
    lemma_modulus_facts();
    if x % m == 0 {
        lemma_mul_mod_noop_left(x, y, m);
        lemma_small_mod(0, m as nat);
        assert(0 * y == 0);
    } else {
        lemma_inverse_unique(x, y, choose|z: int| is_inverse(x, z));
    }
}

/// Multiplying by a nonzero element is one-to-one on field elements.
proof fn lemma_mul_injective(x: int, y1: int, y2: int)
    requires
        0 < x < modulus(),
        0 <= y1 < modulus(),
        0 <= y2 < modulus(),
        (x * y1) % modulus() == (x * y2) % modulus(),
    ensures
        y1 == y2,
{
    let m = modulus();
    lemma_prime_modulus();
    lemma_modulus_facts();
    lemma_small_mod(0, m as nat);
    lemma_small_mod(x as nat, m as nat);
    if y1 > y2 {
        lemma_mul_is_distributive_sub(x, y1, y2);
        lemma_sub_mod_noop(x * y1, x * y2, m);
        lemma_euclid(m, x, y1 - y2);
        lemma_small_mod((y1 - y2) as nat, m as nat);
    } else if y2 > y1 {
        lemma_mul_is_distributive_sub(x, y2, y1);
        lemma_sub_mod_noop(x * y2, x * y1, m);
        lemma_euclid(m, x, y2 - y1);
        lemma_small_mod((y2 - y1) as nat, m as nat);
    }
}

/// Every nonzero field element has an inverse, and `field_inv` names it.
pub proof fn lemma_inverse_exists(x: int)
    requires
        0 < x < modulus(),
    ensures
        is_inverse(x, field_inv(x)),
{
    let m = modulus();
    lemma_modulus_facts();
    let range = vstd::set_lib::set_int_range(0, m);
    let f = |y: int| (x * y) % m;
    vstd::set_lib::lemma_int_range(0, m);
    assert(vstd::relations::injective_on(f, range)) by {
        assert forall|y1: int, y2: int|
            range.contains(y1) && range.contains(y2) && #[trigger] f(y1) == #[trigger] f(y2) implies y1
            == y2 by {
            lemma_mul_injective(x, y1, y2);
        }
    }
    let image = range.map(f);
    vstd::set_lib::lemma_map_size(range, image, f);
    assert(image.subset_of(range)) by {
        assert forall|z: int| image.contains(z) implies range.contains(z) by {
            let y = choose|y: int| range.contains(y) && f(y) == z;
            lemma_mod_bound(x * y, m);
        }
    }
    vstd::set_lib::lemma_subset_equality(image, range);
    assert(range.contains(1));
    assert(image.contains(1));
    let y = choose|y: int| range.contains(y) && f(y) == 1;
    assert(is_inverse(x, y));
    lemma_field_inv_is(x, y);
}

/// Computes `y` such that `(x * y) % M == 1`; `x` is a field element. The
/// inverse of zero is taken to be zero.
#[verifier::rlimit(40)]
pub fn inv(x: u128) -> (r: u128)
    requires
        x < M,
    ensures
        r == field_inv(x as int),
        x == 0 ==> r == 0,
        x != 0 ==> (x * r) % modulus() == 1,
        r < M,
{
    if x == 0 {
        proof {
            lemma_small_mod(0, M as nat);
        }
        return 0;
    }
    proof {
        lemma_prime_modulus();
        lemma_modulus_facts();
        lemma_split128(x);
        lemma_u128_low_bit(x);
    }
    // initialize v, a, u, and d variables
    let mut v: u128 = M;
    let (mut a0, mut a1, mut a2): (u64, u64, u64) = (0, 0, 0);
    let (mut u0, mut u1, mut u2): (u64, u64, u64) = if x & 1 == 1 {
        // u = x
        (x as u64, (x >> 64) as u64, 0)
    } else {
        // u = x + m
        add_192x192(x as u64, (x >> 64) as u64, 0, M as u64, (M >> 64) as u64, 0)
    };
    // d = m - 1
    let (mut d0, mut d1, mut d2): (u64, u64, u64) = ((M as u64) - 1, (M >> 64) as u64, 0);
    let ghost mut hu: nat = 0;
    let ghost mut hv: nat = 0;
    proof {
        if x % 2 == 0 {
            lemma_small_mod((x + M) as nat, pow192() as nat);
        }
        lemma_progress_init(x as int, limbs3(u0, u1, u2));
        lemma_shl64(u1);
    }
    // compute the inverse
    while v != 1
        invariant
            progress(
                x as int,
                limbs3(u0, u1, u2),
                v as int,
                limbs3(d0, d1, d2),
                limbs3(a0, a1, a2),
                hu,
                hv,
            ),
            v % 2 == 1,
            limbs3(u0, u1, u2) % 2 == 1,
            limbs3(d0, d1, d2) <= coefficient_cap(hu + hv),
            limbs3(a0, a1, a2) <= coefficient_cap(hu + hv),
            ((u1 as u128) << 64) == u1 * pow64(),
        decreases v,
    {
        while u2 > 0 || ((u0 as u128) + ((u1 as u128) << 64)) > v
            invariant
                progress(
                    x as int,
                    limbs3(u0, u1, u2),
                    v as int,
                    limbs3(d0, d1, d2),
                    limbs3(a0, a1, a2),
                    hu,
                    hv,
                ),
                v > 1,
                v % 2 == 1,
                limbs3(u0, u1, u2) >= 1,
                limbs3(u0, u1, u2) % 2 == 1,
                limbs3(d0, d1, d2) <= coefficient_cap(hu + hv),
                limbs3(a0, a1, a2) <= coefficient_cap(hu + hv),
                ((u1 as u128) << 64) == u1 * pow64(),
            decreases limbs3(u0, u1, u2),
        {
            // u > v
            let ghost u_before: int = limbs3(u0, u1, u2);
            let ghost d_before: int = limbs3(d0, d1, d2);
            proof {
                lemma_modulus_facts();
                lemma_split128(v);
                lemma_progress_budget(
                    x as int,
                    u_before,
                    v as int,
                    d_before,
                    limbs3(a0, a1, a2),
                    hu,
                    hv,
                );
                lemma_limbs_exceed(u0, u1, u2, v as int);
            }
            // u = u - v
            let (t0, t1, t2): (u64, u64, u64) = sub_192x192(
                u0,
                u1,
                u2,
                v as u64,
                (v >> 64) as u64,
                0,
            );
            u0 = t0;
            u1 = t1;
            u2 = t2;
            // d = d + a
            let (t0, t1, t2): (u64, u64, u64) = add_192x192(d0, d1, d2, a0, a1, a2);
            d0 = t0;
            d1 = t1;
            d2 = t2;
            proof {
                lemma_sub_u_state(
                    x as int,
                    u_before,
                    v as int,
                    d_before,
                    limbs3(a0, a1, a2),
                    hu,
                    hv,
                    limbs3(u0, u1, u2),
                    limbs3(d0, d1, d2),
                );
                lemma_u64_low_bit(u0);
                lemma_limbs3_parity(u0, u1, u2);
            }
            while u0 & 1 == 0
                invariant
                    progress(
                        x as int,
                        limbs3(u0, u1, u2),
                        v as int,
                        limbs3(d0, d1, d2),
                        limbs3(a0, a1, a2),
                        hu,
                        hv,
                    ),
                    v % 2 == 1,
                    1 <= limbs3(u0, u1, u2) < u_before,
                    limbs3(u0, u1, u2) % 2 == 0 ==> limbs3(d0, d1, d2) <= 2 * coefficient_cap(hu + hv),
                    limbs3(u0, u1, u2) % 2 == 1 ==> limbs3(d0, d1, d2) <= coefficient_cap(hu + hv),
                    limbs3(a0, a1, a2) <= coefficient_cap(hu + hv),
                    (u0 & 1) == u0 % 2,
                    limbs3(u0, u1, u2) % 2 == u0 % 2,
                decreases limbs3(u0, u1, u2),
            {
                let ghost u_half: int = limbs3(u0, u1, u2);
                let ghost d_half: int = limbs3(d0, d1, d2);
                proof {
                    lemma_modulus_facts();
                    lemma_progress_budget(
                        x as int,
                        u_half,
                        v as int,
                        d_half,
                        limbs3(a0, a1, a2),
                        hu,
                        hv,
                    );
                    lemma_small_mod((d_half + M) as nat, pow192() as nat);
                    lemma_u64_low_bit(d0);
                    lemma_limbs3_parity(d0, d1, d2);
                }
                if d0 & 1 == 1 {
                    // d = d + m
                    let (t0, t1, t2): (u64, u64, u64) = add_192x192(
                        d0,
                        d1,
                        d2,
                        M as u64,
                        (M >> 64) as u64,
                        0,
                    );
                    d0 = t0;
                    d1 = t1;
                    d2 = t2;
                }
                proof {
                    lemma_halve3(u0, u1, u2);
                    lemma_halve3(d0, d1, d2);
                    lemma_progress_halve_u(
                        x as int,
                        u_half,
                        v as int,
                        d_half,
                        limbs3(a0, a1, a2),
                        hu,
                        hv,
                    );
                    hu = hu + 1;
                }
                // u = u >> 1
                u0 = (u0 >> 1) | ((u1 & 1) << 63);
                u1 = (u1 >> 1) | ((u2 & 1) << 63);
                u2 = u2 >> 1;
                // d = d >> 1
                d0 = (d0 >> 1) | ((d1 & 1) << 63);
                d1 = (d1 >> 1) | ((d2 & 1) << 63);
                d2 = d2 >> 1;
                proof {
                    lemma_u64_low_bit(u0);
                    lemma_limbs3_parity(u0, u1, u2);
                }
            }
            proof {
                lemma_shl64(u1);
            }
        }
        // v = v - u (u is less than v at this point)
        proof {
            lemma_modulus_facts();
            lemma_progress_budget(
                x as int,
                limbs3(u0, u1, u2),
                v as int,
                limbs3(d0, d1, d2),
                limbs3(a0, a1, a2),
                hu,
                hv,
            );
            lemma_progress_distinct(
                x as int,
                limbs3(u0, u1, u2),
                v as int,
                limbs3(d0, d1, d2),
                limbs3(a0, a1, a2),
                hu,
                hv,
            );
            lemma_small_mod((limbs3(a0, a1, a2) + limbs3(d0, d1, d2)) as nat, pow192() as nat);
            lemma_progress_sub_v(
                x as int,
                limbs3(u0, u1, u2),
                v as int,
                limbs3(d0, d1, d2),
                limbs3(a0, a1, a2),
                hu,
                hv,
            );
        }
        let ghost v_before: int = v as int;
        v = v - ((u0 as u128) + ((u1 as u128) << 64));
        // a = a + d
        let (t0, t1, t2): (u64, u64, u64) = add_192x192(a0, a1, a2, d0, d1, d2);
        a0 = t0;
        a1 = t1;
        a2 = t2;
        proof {
            lemma_u128_low_bit(v);
        }
        while v & 1 == 0
            invariant
                progress(
                    x as int,
                    limbs3(u0, u1, u2),
                    v as int,
                    limbs3(d0, d1, d2),
                    limbs3(a0, a1, a2),
                    hu,
                    hv,
                ),
                1 <= v < v_before,
                limbs3(u0, u1, u2) % 2 == 1,
                limbs3(d0, d1, d2) <= coefficient_cap(hu + hv),
                v % 2 == 0 ==> limbs3(a0, a1, a2) <= 2 * coefficient_cap(hu + hv),
                v % 2 == 1 ==> limbs3(a0, a1, a2) <= coefficient_cap(hu + hv),
                (v & 1) == v % 2,
                ((u1 as u128) << 64) == u1 * pow64(),
            decreases v,
        {
            let ghost a_half: int = limbs3(a0, a1, a2);
            let ghost v_half: int = v as int;
            proof {
                lemma_modulus_facts();
                lemma_progress_budget(
                    x as int,
                    limbs3(u0, u1, u2),
                    v as int,
                    limbs3(d0, d1, d2),
                    a_half,
                    hu,
                    hv,
                );
                lemma_small_mod((a_half + M) as nat, pow192() as nat);
                lemma_u64_low_bit(a0);
                lemma_limbs3_parity(a0, a1, a2);
            }
            if a0 & 1 == 1 {
                // a = a + m
                let (t0, t1, t2): (u64, u64, u64) = add_192x192(
                    a0,
                    a1,
                    a2,
                    M as u64,
                    (M >> 64) as u64,
                    0,
                );
                a0 = t0;
                a1 = t1;
                a2 = t2;
            }
            proof {
                lemma_halve3(a0, a1, a2);
                lemma_u128_low_bit(v);
                lemma_progress_halve_v(
                    x as int,
                    limbs3(u0, u1, u2),
                    v_half,
                    limbs3(d0, d1, d2),
                    a_half,
                    hu,
                    hv,
                );
                hv = hv + 1;
            }
            v = v >> 1;
            // a = a >> 1
            a0 = (a0 >> 1) | ((a1 & 1) << 63);
            a1 = (a1 >> 1) | ((a2 & 1) << 63);
            a2 = a2 >> 1;
            proof {
                lemma_u128_low_bit(v);
            }
        }
    }
    proof {
        lemma_progress_done(
            x as int,
            limbs3(u0, u1, u2),
            limbs3(d0, d1, d2),
            limbs3(a0, a1, a2),
            hu,
            hv,
        );
        lemma_shl64(a1);
    }
    // a = a mod m
    let mut a: u128 = (a0 as u128) + ((a1 as u128) << 64);
    while a2 > 0 || a >= M
        invariant
            0 < x < M,
            a == limbs2(a0, a1),
            (limbs3(a0, a1, a2) * x - 1) % modulus() == 0,
        decreases limbs3(a0, a1, a2),
    {
        proof {
            lemma_modulus_facts();
            let av = limbs3(a0, a1, a2);
            lemma_small_mod((av - M) as nat, pow192() as nat);
            lemma_mul_is_distributive_sub_other_way(x as int, av, modulus());
            lemma_mod_multiples_vanish(-(x as int), av * x - 1, modulus());
            assert((av - M) * x - 1 == modulus() * (-(x as int)) + (av * x - 1));
        }
        let (t0, t1, t2): (u64, u64, u64) = sub_192x192(
            a0,
            a1,
            a2,
            M as u64,
            (M >> 64) as u64,
            0,
        );
        a0 = t0;
        a1 = t1;
        a2 = t2;
        proof {
            lemma_shl64(a1);
        }
        a = (a0 as u128) + ((a1 as u128) << 64);
    }
    proof {
        let m = modulus();
        lemma_modulus_facts();
        lemma_fundamental_div_mod(a * x - 1, m);
        let k = (a * x - 1) / m;
        lemma_mul_is_commutative(a as int, x as int);
        lemma_fundamental_div_mod_converse(x * a, m, k, 1);
        lemma_field_inv_is(x as int, a as int);
    }
    return a;
}

/// The product, modulo `M`, of the nonzero values among the first `i`.
pub open spec fn nonzero_prefix_product(values: Seq<u128>, i: int) -> int
    decreases i,
{
    if i <= 0 {
        1
    } else if values[i - 1] == 0 {
        nonzero_prefix_product(values, i - 1)
    } else {
        (nonzero_prefix_product(values, i - 1) * values[i - 1]) % modulus()
    }
}

/// The product of two nonzero field elements is nonzero.
proof fn lemma_product_nonzero(p: int, v: int)
    requires
        0 < p < M,
        0 < v < M,
    ensures
        0 < (p * v) % modulus() < M,
{
    lemma_prime_modulus();
    lemma_modulus_facts();
    lemma_mod_bound(p * v, modulus());
    if (p * v) % modulus() == 0 {
        lemma_euclid(modulus(), p, v);
        lemma_small_mod(p as nat, M as nat);
        lemma_small_mod(v as nat, M as nat);
    }
}

/// Splitting the inverse `y` of a product `p * v` into the inverses of its
/// factors: `y * p` inverts `v` and `y * v` inverts `p`.
proof fn lemma_inverse_of_product(p: int, v: int, y: int)
    requires
        0 < p < M,
        0 < v < M,
        is_inverse((p * v) % modulus(), y),
    ensures
        is_inverse(v, (y * p) % modulus()),
        is_inverse(p, (y * v) % modulus()),
{
    let m = modulus();
    lemma_modulus_facts();
    // y * (p * v) = 1 modulo m
    lemma_mul_mod_noop_right(y, p * v, m);
    lemma_mul_is_commutative((p * v) % m, y);
    lemma_mul_is_associative(y, p, v);
    lemma_mul_is_commutative(v, y * p);
    lemma_mul_mod_noop_left(y * p, v, m);
    lemma_mul_is_commutative(v, (y * p) % m);
    lemma_mod_bound(y * p, m);
    // and (y * v) * p = y * (p * v)
    lemma_mul_is_associative(y, v, p);
    lemma_mul_is_commutative(v, p);
    lemma_mul_mod_noop_left(y * v, p, m);
    lemma_mul_is_commutative(p, (y * v) % m);
    lemma_mod_bound(y * v, m);
}

/// Computes the multiplicative inverses of all values, by batch inversion,
/// and stores them in the first `values.len()` entries of `result`.
pub fn inv_many_fill(values: &[u128], result: &mut [u128])
    requires
        old(result)@.len() >= values@.len(),
        forall|i: int| 0 <= i < values@.len() ==> #[trigger] values@[i] < M,
    ensures
        final(result)@.len() == old(result)@.len(),
        forall|i: int|
            0 <= i < values@.len() ==> #[trigger] final(result)@[i] == field_inv(values@[i] as int),
        forall|i: int|
            values@.len() <= i < old(result)@.len() ==> #[trigger] final(result)@[i] == old(
                result,
            )@[i],
{
    let ghost r0 = result@;
    let n: usize = values.len();
    let mut last: u128 = ONE;
    for i in 0..n
        invariant
            n == values@.len(),
            result@.len() == r0.len(),
            r0.len() >= n,
            forall|j: int| 0 <= j < n ==> #[trigger] values@[j] < M,
            last == nonzero_prefix_product(values@, i as int),
            0 < last < M,
            forall|j: int| 0 <= j < i ==> #[trigger] result@[j] == nonzero_prefix_product(values@, j),
            forall|j: int| n <= j < r0.len() ==> #[trigger] result@[j] == r0[j],
    {
        result[i] = last;
        if values[i] != ZERO {
            proof {
                lemma_product_nonzero(last as int, values@[i as int] as int);
            }
            last = crate::field::mul(last, values[i]);
        }
    }
    last = inv(last);
    let mut i: usize = n;
    while i > 0
        invariant
            n == values@.len(),
            i <= n,
            result@.len() == r0.len(),
            r0.len() >= n,
            forall|j: int| 0 <= j < n ==> #[trigger] values@[j] < M,
            0 < nonzero_prefix_product(values@, i as int) < M,
            is_inverse(nonzero_prefix_product(values@, i as int), last as int),
            forall|j: int| 0 <= j < i ==> #[trigger] result@[j] == nonzero_prefix_product(values@, j),
            forall|j: int|
                i <= j < n ==> #[trigger] result@[j] == field_inv(values@[j] as int),
            forall|j: int| n <= j < r0.len() ==> #[trigger] result@[j] == r0[j],
        decreases i,
    {
        i = i - 1;
        proof {
            lemma_prefix_product_nonzero(values@, i as int);
        }
        if values[i] == ZERO {
            result[i] = ZERO;
            proof {
                lemma_small_mod(0, M as nat);
            }
        } else {
            let ghost p: int = nonzero_prefix_product(values@, i as int);
            proof {
                lemma_inverse_of_product(p, values@[i as int] as int, last as int);
                lemma_field_inv_is(values@[i as int] as int, (last * p) % modulus());
            }
            result[i] = crate::field::mul(last, result[i]);
            last = crate::field::mul(last, values[i]);
        }
    }
}

/// Every prefix product of nonzero field elements is a nonzero element.
proof fn lemma_prefix_product_nonzero(values: Seq<u128>, i: int)
    requires
        0 <= i <= values.len(),
        forall|j: int| 0 <= j < values.len() ==> #[trigger] values[j] < M,
    ensures
        0 < nonzero_prefix_product(values, i) < M,
    decreases i,
{
    if i > 0 {
        lemma_prefix_product_nonzero(values, i - 1);
        if values[i - 1] != 0 {
            lemma_product_nonzero(nonzero_prefix_product(values, i - 1), values[i - 1] as int);
        }
    } else {
        lemma_modulus_facts();
    }
}

/// Computes the multiplicative inverses of all values, by batch inversion.
pub fn inv_many(values: &[u128]) -> (r: Vec<u128>)
    requires
        forall|i: int| 0 <= i < values@.len() ==> #[trigger] values@[i] < M,
    ensures
        r@.len() == values@.len(),
        forall|i: int| 0 <= i < values@.len() ==> #[trigger] r@[i] == field_inv(values@[i] as int),
{
    // every entry is written by `inv_many_fill`
    let mut result: Vec<u128> = vec![0u128; values.len()];
    inv_many_fill(values, result.as_mut_slice());
    return result;
}

/// Computes `y = a / b` such that `(b * y) % M == a`; `a` and `b` are field
/// elements. Division by zero gives zero.
pub fn div(a: u128, b: u128) -> (r: u128)
    requires
        a < M,
        b < M,
    ensures
        r == field_mul(a as int, field_inv(b as int)),
        r < M,
{
    let b: u128 = inv(b);
    return crate::field::mul(a, b);
}

} // verus!
