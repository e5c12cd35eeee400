//! Multi-limb helpers: values of up to 192 bits held as three 64-bit limbs,
//! least significant first.
use vstd::prelude::*;
use vstd::arithmetic::div_mod::*;
use vstd::arithmetic::mul::*;

verus! {

/// Field modulus `M = 2^128 - 45 * 2^40 + 1`.
pub const M: u128 = 340282366920938463463374557953744961537;

/// `2^64`, the weight of the second limb.
pub open spec fn pow64() -> int {
    0x1_0000_0000_0000_0000int
}

/// `2^128`, the weight of the third limb.
pub open spec fn pow128() -> int {
    0x1_0000_0000_0000_0000_0000_0000_0000_0000int
}

/// `2^192`, one past the largest three-limb value.
pub open spec fn pow192() -> int {
    0x1_0000_0000_0000_0000_0000_0000_0000_0000_0000_0000_0000_0000int
}

/// `2^128 - M = 45 * 2^40 - 1`: what `2^128` is worth modulo `M`.
pub open spec fn fold() -> int {
    49478023249919int
}

/// The number held by two limbs.
pub open spec fn limbs2(z0: u64, z1: u64) -> int {
    z0 + z1 * pow64()
}

/// The number held by three limbs.
pub open spec fn limbs3(z0: u64, z1: u64, z2: u64) -> int {
    z0 + z1 * pow64() + z2 * pow128()
}

pub proof fn lemma_modulus_facts()
    ensures
        M == pow128() - fold(),
        M % 2 == 1,
        (M >> 64) as u64 == 0xffff_ffff_ffff_ffffu64,
        M as u64 == 18446694595686301697u64,
        M == (M as u64) + ((M >> 64) as u64) * pow64(),
{
    lemma_split128(M);
}

/// A `u128` is its low limb plus its high limb times `2^64`.
pub proof fn lemma_split128(x: u128)
    ensures
        x == (x as u64) + (x >> 64) * pow64(),
        x >> 64 < pow64(),
{
    assert(x == (x as u64) as u128 + (x >> 64) * 0x1_0000_0000_0000_0000u128 && (x >> 64)
        < 0x1_0000_0000_0000_0000u128) by (bit_vector);
}

/// Shifting a `u64` left by 64 inside a `u128` multiplies it by `2^64`.
pub broadcast proof fn lemma_shl64(x: u64)
    ensures
        #[trigger] ((x as u128) << 64) == x * pow64(),
{
    assert((x as u128) << 64 == (x as u128) * 0x1_0000_0000_0000_0000u128) by (bit_vector);
}

/// The low bit of a `u64`.
pub broadcast proof fn lemma_u64_low_bit(x: u64)
    ensures
        #[trigger] (x & 1) == x % 2,
{
    assert((x & 1) == x % 2) by (bit_vector);
}

/// The low bit of a `u128`, and halving by a shift.
pub broadcast proof fn lemma_u128_low_bit(x: u128)
    ensures
        #[trigger] (x & 1) == x % 2,
        #[trigger] (x >> 1) == x / 2,
{
    assert((x & 1) == x % 2 && (x >> 1) == x / 2) by (bit_vector);
}

/// Shifting a limb right by one while bringing in the low bit of the next
/// limb.
pub proof fn lemma_shift_pair(lo: u64, hi: u64)
    ensures
        (lo >> 1) | ((hi & 1) << 63) == lo / 2 + (hi % 2) * 0x8000_0000_0000_0000,
        hi >> 1 == hi / 2,
{
    assert((lo >> 1) | ((hi & 1) << 63) == lo / 2 + (hi % 2) * 0x8000_0000_0000_0000u64 && hi >> 1
        == hi / 2) by (bit_vector);
}

/// The top bit of a `u128`.
pub proof fn lemma_shr127(x: u128)
    ensures
        x >> 127 == (if x >= 0x8000_0000_0000_0000_0000_0000_0000_0000u128 {
            1u128
        } else {
            0u128
        }),
{
    assert(x >> 127 == (if x >= 0x8000_0000_0000_0000_0000_0000_0000_0000u128 {
        1u128
    } else {
        0u128
    })) by (bit_vector);
}

/// Subtracting `y <= 2^64` from a limb `x` inside a `u128`: the low 64 bits
/// are the limb of the difference and bit 127 is the borrow.
proof fn lemma_sub_limb(x: u64, y: u128, z: u128)
    requires
        y <= pow64(),
        z == vstd::wrapping::u128_specs::wrapping_sub(x as u128, y),
    ensures
        (z as u64) == x - y + (z >> 127) * pow64(),
        (z >> 127) == (if x < y {
            1u128
        } else {
            0u128
        }),
{
    lemma_split128(z);
    lemma_shr127(z);
    if x < y {
        assert(z == x - y + pow128());
        assert(z >> 64 == pow64() - 1);
    } else {
        assert(z == x - y);
        assert(z >> 64 == 0);
    }
}

/// Adding two limbs and a carry into a `u128`.
proof fn lemma_add_limb(z: u128)
    requires
        z < 3 * pow64(),
    ensures
        z == (z as u64) + (z >> 64) * pow64(),
        z >> 64 <= 2,
{
    lemma_split128(z);
}

/// Computes the 192-bit product of `a` and `b`.
pub fn mul_128x64(a: u128, b: u64) -> (r: (u64, u64, u64))
    ensures
        limbs3(r.0, r.1, r.2) == a * b,
{
    proof {
        lemma_split128(a);
        lemma_mul_upper_bound(
            (a as u64) as int,
            0xffff_ffff_ffff_ffff,
            b as int,
            0xffff_ffff_ffff_ffff,
        );
        lemma_mul_upper_bound((a >> 64) as int, 0xffff_ffff_ffff_ffff, b as int, 0xffff_ffff_ffff_ffff);
    }
    let z_lo: u128 = ((a as u64) as u128) * (b as u128);
    proof {
        lemma_split128(z_lo);
    }
    let z_hi: u128 = (a >> 64) * (b as u128);
    let z_hi: u128 = z_hi + (z_lo >> 64);
    proof {
        lemma_split128(z_hi);
        let lo = (a as u64) as int;
        let hi = (a >> 64) as int;
        assert(a * b == lo * b + (hi * b) * pow64()) by (nonlinear_arith)
            requires
                a == lo + hi * pow64(),
        ;
    }
    (z_lo as u64, z_hi as u64, (z_hi >> 64) as u64)
}

/// Computes `a * M` as three limbs.
pub fn mul_by_modulus(a: u64) -> (r: (u64, u64, u64))
    ensures
        limbs3(r.0, r.1, r.2) == a * M,
{
    let a_lo: u128 = (a as u128).wrapping_mul(M);
    let a_hi: u64 = if a == 0 {
        0
    } else {
        a - 1
    };
    proof {
        lemma_modulus_facts();
        lemma_split128(a_lo);
        if a > 0 {
            assert(a * M == (a - 1) * pow128() + (pow128() - a * fold()));
            lemma_fundamental_div_mod_converse(
                a * M,
                pow128(),
                a - 1,
                pow128() - a * fold(),
            );
        }
    }
    (a_lo as u64, (a_lo >> 64) as u64, a_hi)
}

/// Computes `(a - b) mod 2^192` on three-limb values.
pub fn sub_192x192(a0: u64, a1: u64, a2: u64, b0: u64, b1: u64, b2: u64) -> (r: (u64, u64, u64))
    ensures
        limbs3(r.0, r.1, r.2) == (limbs3(a0, a1, a2) - limbs3(b0, b1, b2)) % pow192(),
{
    let z0: u128 = (a0 as u128).wrapping_sub(b0 as u128);
    proof {
        lemma_sub_limb(a0, b0 as u128, z0);
    }
    let z1: u128 = (a1 as u128).wrapping_sub((b1 as u128) + (z0 >> 127));
    proof {
        lemma_sub_limb(a1, ((b1 as u128) + (z0 >> 127)) as u128, z1);
    }
    let z2: u128 = (a2 as u128).wrapping_sub((b2 as u128) + (z1 >> 127));
    proof {
        lemma_sub_limb(a2, ((b2 as u128) + (z1 >> 127)) as u128, z2);
        let d = limbs3(a0, a1, a2) - limbs3(b0, b1, b2);
        let r = limbs3(z0 as u64, z1 as u64, z2 as u64);
        assert(r == d + (z2 >> 127) * pow192());
        lemma_fundamental_div_mod_converse(d, pow192(), -((z2 >> 127) as int), r);
    }
    (z0 as u64, z1 as u64, z2 as u64)
}

/// Computes `(a + b) mod 2^192` on three-limb values.
pub fn add_192x192(a0: u64, a1: u64, a2: u64, b0: u64, b1: u64, b2: u64) -> (r: (u64, u64, u64))
    ensures
        limbs3(r.0, r.1, r.2) == (limbs3(a0, a1, a2) + limbs3(b0, b1, b2)) % pow192(),
{
    let z0: u128 = (a0 as u128) + (b0 as u128);
    proof {
        lemma_add_limb(z0);
    }
    let z1: u128 = (a1 as u128) + (b1 as u128) + (z0 >> 64);
    proof {
        lemma_add_limb(z1);
    }
    let z2: u128 = (a2 as u128) + (b2 as u128) + (z1 >> 64);
    proof {
        lemma_add_limb(z2);
        let s = limbs3(a0, a1, a2) + limbs3(b0, b1, b2);
        let r = limbs3(z0 as u64, z1 as u64, z2 as u64);
        assert(s == r + (z2 >> 64) * pow192());
        lemma_fundamental_div_mod_converse(s, pow192(), (z2 >> 64) as int, r);
    }
    (z0 as u64, z1 as u64, z2 as u64)
}

/// Computes `a + b + carry` as a low limb and a carry-out.
pub fn add64_with_carry(a: u64, b: u64, carry: u64) -> (r: (u64, u64))
    ensures
        limbs2(r.0, r.1) == a + b + carry,
{
    let ret: u128 = (a as u128) + (b as u128) + (carry as u128);
    proof {
        lemma_add_limb(ret);
    }
    (ret as u64, (ret >> 64) as u64)
}

/// Computes `(a + 2^128 - M) mod 2^128` on a two-limb value, that is
/// `a - M` whenever `a` is at least `M`.
pub fn sub_modulus(a_lo: u64, a_hi: u64) -> (r: (u64, u64))
    ensures
        limbs2(r.0, r.1) == (limbs2(a_lo, a_hi) + fold()) % pow128(),
{
    let mut z: u128 = 0u128.wrapping_sub(M);
    z = z.wrapping_add(a_lo as u128);
    proof {
        lemma_shl64(a_hi);
    }
    z = z.wrapping_add((a_hi as u128) << 64);
    proof {
        lemma_split128(z);
        let s = limbs2(a_lo, a_hi) + fold();
        assert(s < 2 * pow128());
        if s >= pow128() {
            lemma_fundamental_div_mod_converse(s, pow128(), 1, s - pow128());
        } else {
            lemma_fundamental_div_mod_converse(s, pow128(), 0, s);
        }
    }
    (z as u64, (z >> 64) as u64)
}

/// Subtracts `z2 * M` from a three-limb value, leaving a value congruent to
/// it modulo `M` that fits in 128 bits plus one bit.
pub fn mul_reduce(z0: u64, z1: u64, z2: u64) -> (r: (u64, u64, u64))
    ensures
        limbs3(r.0, r.1, r.2) == limbs3(z0, z1, z2) - z2 * M,
        limbs3(r.0, r.1, r.2) == limbs2(z0, z1) + z2 * fold(),
        r.2 <= 1,
        r.2 == 1 ==> limbs2(r.0, r.1) < pow64() * fold(),
{
    let (q0, q1, q2): (u64, u64, u64) = mul_by_modulus(z2);
    let (r0, r1, r2): (u64, u64, u64) = sub_192x192(z0, z1, z2, q0, q1, q2);
    proof {
        lemma_modulus_facts();
        let d = limbs3(z0, z1, z2) - z2 * M;
        assert(d == limbs2(z0, z1) + z2 * fold());
        assert(0 <= d < pow192());
        lemma_small_mod(d as nat, pow192() as nat);
    }
    (r0, r1, r2)
}

} // verus!
