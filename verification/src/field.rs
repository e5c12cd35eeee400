//! Basic arithmetic on field elements: `u128` values below the modulus `M`.
use vstd::prelude::*;
use vstd::arithmetic::div_mod::*;
use vstd::arithmetic::mul::*;
use vstd::arithmetic::power::*;
use vstd::arithmetic::power2::*;
use vstd::bits::{lemma_u64_shl_is_mul, lemma_u64_pow2_no_overflow, lemma_usize_shr_is_div};
use crate::algebra::{lemma_pow_succ, lemma_pow_mod_succ, lemma_square_multiply_step};
use crate::limbs::{
    M, pow64, pow128, pow192, fold, limbs2, limbs3, lemma_modulus_facts, lemma_split128, lemma_shl64, lemma_u128_low_bit,
    mul_128x64, mul_reduce, sub_modulus, add64_with_carry,
};

verus! {

/// `2^40` root of unity.
pub const G: u128 = 23953097886125630542083529559205016746;

/// The field modulus, under the name the public interface uses.
pub const MODULUS: u128 = M;

/// The additive identity.
pub const ZERO: u128 = 0;

/// The multiplicative identity.
pub const ONE: u128 = 1;

/// The modulus as a mathematical integer.
pub open spec fn modulus() -> int {
    M as int
}

/// A valid field element: a value below the modulus.
pub open spec fn is_element(x: int) -> bool {
    0 <= x < modulus()
}

/// Field addition.
pub open spec fn field_add(a: int, b: int) -> int {
    (a + b) % modulus()
}

/// Field subtraction.
pub open spec fn field_sub(a: int, b: int) -> int {
    (a - b) % modulus()
}

/// Field multiplication.
pub open spec fn field_mul(a: int, b: int) -> int {
    (a * b) % modulus()
}

/// Field negation.
pub open spec fn field_neg(a: int) -> int {
    (0 - a) % modulus()
}

/// Computes `(a + b) % M`; `a` and `b` are field elements.
pub fn add(a: u128, b: u128) -> (r: u128)
    requires
        a < M,
        b < M,
    ensures
        r == field_add(a as int, b as int),
        r < M,
{
    let z: u128 = M - b;
    proof {
        if a < z {
            lemma_small_mod((a + b) as nat, M as nat);
        } else {
            lemma_fundamental_div_mod_converse(a + b, modulus(), 1, a + b - M);
        }
    }
    return if a < z {
        M - z + a
    } else {
        a - z
    };
}

/// Computes `(a - b) % M`; `a` and `b` are field elements.
pub fn sub(a: u128, b: u128) -> (r: u128)
    requires
        a < M,
        b < M,
    ensures
        r == field_sub(a as int, b as int),
        r < M,
{
    proof {
        if a < b {
            lemma_fundamental_div_mod_converse(a - b, modulus(), -1, M - b + a);
        } else {
            lemma_small_mod((a - b) as nat, M as nat);
        }
    }
    return if a < b {
        M - b + a
    } else {
        a - b
    };
}

/// Computes `(a * b) % M`; `a` and `b` are field elements.
pub fn mul(a: u128, b: u128) -> (r: u128)
    requires
        a < M,
        b < M,
    ensures
        r == field_mul(a as int, b as int),
        r < M,
{
    proof {
        lemma_modulus_facts();
        lemma_split128(b);
    }
    let b_hi: u64 = (b >> 64) as u64;
    let b_lo: u64 = b as u64;
    // x = a * b_hi
    let (p0, p1, p2): (u64, u64, u64) = mul_128x64(a, b_hi);
    // x = x - (x >> 128) * m
    let (mut x0, mut x1, x2): (u64, u64, u64) = mul_reduce(p0, p1, p2);
    let ghost x_red = limbs3(x0, x1, x2);
    if x2 == 1 {
        // an overflow beyond 128 bits: x = x - m
        let (t0, t1): (u64, u64) = sub_modulus(x0, x1);
        proof {
            lemma_small_mod((limbs2(x0, x1) + fold()) as nat, pow128() as nat);
        }
        x0 = t0;
        x1 = t1;
    }
    let ghost k1: int = p2 + x2;
    assert(limbs2(x0, x1) == a * b_hi - k1 * M);
    // y = a * b_lo
    let (q0, q1, q2): (u64, u64, u64) = mul_128x64(a, b_lo);
    proof {
        lemma_mul_upper_bound(
            a as int,
            340282366920938463463374557953744961536int,
            b_lo as int,
            0xffff_ffff_ffff_ffff,
        );
    }
    // y = y + (x << 64)
    let (mut y1, carry): (u64, u64) = add64_with_carry(q1, x0, 0);
    let (mut y2, y3): (u64, u64) = add64_with_carry(q2, x1, carry);
    let ghost y_sum: int = q0 + limbs2(y1, y2) * pow64() + y3 * pow192();
    assert(y_sum == a * b_lo + limbs2(x0, x1) * pow64());
    if y3 == 1 {
        // an overflow beyond 192 bits: y = y - (m << 64)
        let (t0, t1): (u64, u64) = sub_modulus(y1, y2);
        proof {
            assert(limbs2(y1, y2) + fold() < pow128());
            lemma_small_mod((limbs2(y1, y2) + fold()) as nat, pow128() as nat);
        }
        y1 = t0;
        y2 = t1;
    }
    assert(limbs3(q0, y1, y2) == y_sum - y3 * M * pow64());
    // z = y - (y >> 128) * m
    let (mut z0, mut z1, z2): (u64, u64, u64) = mul_reduce(q0, y1, y2);
    let ghost k3: int = if z2 == 1 || (z1 == (M >> 64) as u64 && z0 >= (M as u64)) {
        1
    } else {
        0
    };
    // make sure z is smaller than m
    if z2 == 1 || (z1 == (M >> 64) as u64 && z0 >= (M as u64)) {
        let (t0, t1): (u64, u64) = sub_modulus(z0, z1);
        proof {
            if z2 == 1 {
                lemma_small_mod((limbs2(z0, z1) + fold()) as nat, pow128() as nat);
            } else {
                lemma_fundamental_div_mod_converse(
                    limbs2(z0, z1) + fold(),
                    pow128(),
                    1,
                    limbs2(z0, z1) + fold() - pow128(),
                );
            }
        }
        z0 = t0;
        z1 = t1;
    }
    proof {
        lemma_shl64(z1);
        let r = limbs2(z0, z1);
        let q = k1 * pow64() + y3 * pow64() + y2 + k3;
        assert(a * b == a * b_lo + (a * b_hi) * pow64()) by (nonlinear_arith)
            requires
                b == b_lo + b_hi * pow64(),
        ;
        assert(r == a * b - q * M);
        assert(0 <= r < M);
        lemma_fundamental_div_mod_converse(a * b, modulus(), q, r);
    }
    return ((z1 as u128) << 64) + (z0 as u128);
}

/// Computes `(0 - x) % M`; `x` is a field element.
pub fn neg(x: u128) -> (r: u128)
    requires
        x < M,
    ensures
        r == field_neg(x as int),
        r < M,
{
    return self::sub(ZERO, x);
}

/// Computes `(b^p) % M`; `b` is a field element. Any base to the power zero,
/// zero included, gives one.
pub fn exp(b: u128, p: u128) -> (r: u128)
    requires
        b < M,
    ensures
        r == pow(b as int, p as nat) % modulus(),
        r < M,
{
    if p == 0 {
        proof {
            lemma_pow0(b as int);
            lemma_small_mod(1, M as nat);
        }
        return 1;
    } else if b == 0 {
        proof {
            lemma_pow_succ(0, (p - 1) as nat);
            lemma_small_mod(0, M as nat);
        }
        return 0;
    }
    let ghost b0: int = b as int;
    let ghost p0: nat = p as nat;
    let mut r: u128 = 1;
    let mut b: u128 = b;
    let mut p: u128 = p;
    while p > 0
        invariant
            r < M,
            b < M,
            (r * pow(b as int, p as nat)) % modulus() == pow(b0, p0) % modulus(),
        decreases p,
    {
        proof {
            lemma_u128_low_bit(p);
            lemma_square_multiply_step(r as int, b as int, p as nat, modulus());
        }
        if p & 1 == 1 {
            r = self::mul(r, b);
        }
        p = p >> 1;
        b = self::mul(b, b);
    }
    proof {
        lemma_pow0(b as int);
        lemma_small_mod(r as nat, M as nat);
    }
    return r;
}

/// The exponent of a power of two held in a `usize`.
fn log2_of_power_of_two(order: usize) -> (k: u32)
    requires
        exists|e: nat| e <= 40 && order as int == pow2(e),
    ensures
        k <= 40,
        order as int == pow2(k as nat),
{
    let ghost e: nat = choose|e: nat| e <= 40 && order as int == pow2(e);
    let mut o: usize = order;
    let mut k: u32 = 0;
    while o > 1
        invariant
            k <= e <= 40,
            o as int == pow2((e - k) as nat),
            order as int == pow2(e),
        decreases o,
    {
        proof {
            lemma2_to64();
            if e == k {
                assert(o == 1);
            }
            lemma_pow2_unfold((e - k) as nat);
            lemma_usize_shr_is_div(o, 1);
        }
        o = o >> 1;
        k = k + 1;
    }
    proof {
        lemma2_to64();
        if k < e {
            lemma_pow2_strictly_increases(0, (e - k) as nat);
        }
    }
    k
}

/// `1 << s` in a `u128` for small shifts.
proof fn lemma_one_shl(s: u32)
    requires
        s <= 40,
    ensures
        1u128 << s == pow2(s as nat),
{
    assert(1u128 << s == (1u64 << s) as u128) by (bit_vector)
        requires
            s <= 40,
    ;
    lemma_u64_pow2_no_overflow(s as nat);
    lemma_u64_shl_is_mul(1, s as u64);
}

/// The primitive root of unity of the given order: `G^(2^40 / order)`, for
/// `order` a power of two no larger than `2^40`.
pub fn get_root_of_unity(order: usize) -> (r: u128)
    requires
        exists|e: nat| e <= 40 && order as int == pow2(e),
    ensures
        forall|e: nat|
            e <= 40 && order as int == #[trigger] pow2(e) ==> r == pow(G as int, pow2((40 - e) as nat))
                % modulus(),
        r < M,
{
    let tz: u32 = log2_of_power_of_two(order);
    proof {
        lemma_one_shl((40 - tz) as u32);
        assert forall|e: nat| e <= 40 && order as int == pow2(e) implies e == tz by {
            if e < tz {
                lemma_pow2_strictly_increases(e, tz as nat);
            } else if e > tz {
                lemma_pow2_strictly_increases(tz as nat, e);
            }
        }
    }
    let p: u128 = 1u128 << (40 - tz);
    return self::exp(G, p);
}

/// Generates the vector `[1, b, b^2, ..., b^length]`, of `length + 1` entries;
/// `b` is a field element.
pub fn get_power_series(b: u128, length: usize) -> (r: Vec<u128>)
    requires
        b < M,
        length < usize::MAX,
    ensures
        r@.len() == length + 1,
        forall|i: int| 0 <= i <= length ==> r[i] == pow(b as int, i as nat) % modulus(),
{
    // every entry is written below
    let mut result: Vec<u128> = vec![0u128; length + 1];
    result[0] = ONE;
    proof {
        lemma_pow0(b as int);
        lemma_small_mod(1, M as nat);
    }
    for i in 1..length + 1
        invariant
            b < M,
            result.len() == length + 1,
            forall|j: int| 0 <= j < i ==> result[j] == pow(b as int, j as nat) % modulus(),
    {
        proof {
            lemma_pow_mod_succ(b as int, (i - 1) as nat, modulus());
            vstd::arithmetic::div_mod::lemma_mod_bound(pow(b as int, (i - 1) as nat), modulus());
        }
        result[i] = self::mul(result[i - 1], b);
    }
    return result;
}

/// Computes `a[i] + b[i] * c` for every `i` and stores the result in `a`.
pub fn mul_acc(a: &mut [u128], b: &[u128], c: u128)
    requires
        b@.len() >= old(a)@.len(),
        c < M,
        forall|i: int| 0 <= i < old(a)@.len() ==> #[trigger] old(a)@[i] < M,
        forall|i: int| 0 <= i < old(a)@.len() ==> #[trigger] b@[i] < M,
    ensures
        final(a)@.len() == old(a)@.len(),
        forall|i: int|
            0 <= i < old(a)@.len() ==> final(a)@[i] == field_add(
                old(a)@[i] as int,
                field_mul(b@[i] as int, c as int),
            ),
{
    let ghost a0 = a@;
    let n: usize = a.len();
    for i in 0..n
        invariant
            n == a0.len(),
            a@.len() == a0.len(),
            b@.len() >= a0.len(),
            c < M,
            forall|j: int| 0 <= j < a0.len() ==> #[trigger] a0[j] < M,
            forall|j: int| 0 <= j < a0.len() ==> #[trigger] b@[j] < M,
            forall|j: int|
                0 <= j < i ==> a@[j] == field_add(a0[j] as int, field_mul(b@[j] as int, c as int)),
            forall|j: int| i <= j < a0.len() ==> a@[j] == a0[j],
    {
        assert(a0[i as int] < M && a@[i as int] == a0[i as int]);
        a[i] = self::add(a[i], self::mul(b[i], c));
    }
}

} // verus!
