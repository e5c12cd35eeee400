//! Primality certificates: the field modulus is prime by Lucas's
//! criterion, with a certificate for every prime factor it relies on.
//! The powers are evaluated by square-and-multiply, one binary digit per
//! step, each with the quotient of its reduction.
use vstd::prelude::*;
use vstd::arithmetic::power::pow;
use crate::divisibility::is_prime;
use crate::primality::{
    pow_mod, ipow, lemma_pow_mod_base, lemma_pow_mod_digit,
    lemma_pow_mod_is_pow, lemma_factor_product_step, lemma_factor_product_end, lemma_lucas,
};

verus! {

/// 2 is prime.
pub proof fn lemma_prime_2()
    ensures
        is_prime(2),
{
}

/// One digit of square-and-multiply for `2^e mod 3`.
proof fn digit_3(e: nat, eh: nat, bit: nat, h: int, q: int, r: int)
    requires
        e == 2 * eh + bit,
        bit == 0 || bit == 1,
        eh > 0 || bit == 1,
        pow_mod(2, eh, 3) == h,
        0 <= r < 3,
        bit == 0 ==> h * h == 3 * q + r,
        bit == 1 ==> h * h * 2 == 3 * q + r,
    ensures
        pow_mod(2, e, 3) == r,
{
    lemma_pow_mod_digit(2, 3, e, eh, bit, h, q, r);
}

/// `2^2 mod 3`.
proof fn lemma_power_3_0()
    ensures
        pow(2, 2) % 3 == 1,
{
    lemma_pow_mod_base(2, 3);
    digit_3(1, 0, 1, 1, 0int, 2);
    digit_3(2, 1, 0, 2, 1int, 1);
    lemma_pow_mod_is_pow(2, 2, 3);
}

/// `2^1 mod 3`.
proof fn lemma_power_3_1()
    ensures
        pow(2, 1) % 3 == 2,
{
    lemma_pow_mod_base(2, 3);
    digit_3(1, 0, 1, 1, 0int, 2);
    lemma_pow_mod_is_pow(2, 1, 3);
}

/// 3 is prime, with witness 2.
pub proof fn lemma_prime_3()
    ensures
        is_prime(3),
{
    lemma_prime_2();
    let fs: Seq<(int, nat)> = seq![(2int, 1nat)];
    lemma_factor_product_end(fs);
    assert(ipow(2, 1) == 2) by {
        reveal_with_fuel(ipow, 2);
    }
    lemma_factor_product_step(fs, 0, 2, 1);
    lemma_power_3_0();
    lemma_power_3_1();
    assert forall|i: int| 0 <= i < fs.len() implies is_prime(#[trigger] fs[i].0) && pow(
        2,
        ((3 - 1) / fs[i].0) as nat,
    ) % 3 != 1 by {
        if i == 0 {
            assert(fs[0].0 == 2);
            assert((3 - 1) / 2 == 1);
        }
    }
    lemma_lucas(3, 2, fs);
}

/// One digit of square-and-multiply for `2^e mod 5`.
proof fn digit_5(e: nat, eh: nat, bit: nat, h: int, q: int, r: int)
    requires
        e == 2 * eh + bit,
        bit == 0 || bit == 1,
        eh > 0 || bit == 1,
        pow_mod(2, eh, 5) == h,
        0 <= r < 5,
        bit == 0 ==> h * h == 5 * q + r,
        bit == 1 ==> h * h * 2 == 5 * q + r,
    ensures
        pow_mod(2, e, 5) == r,
{
    lemma_pow_mod_digit(2, 5, e, eh, bit, h, q, r);
}

/// `2^4 mod 5`.
proof fn lemma_power_5_0()
    ensures
        pow(2, 4) % 5 == 1,
{
    lemma_pow_mod_base(2, 5);
    digit_5(1, 0, 1, 1, 0int, 2);
    digit_5(2, 1, 0, 2, 0int, 4);
    digit_5(4, 2, 0, 4, 3int, 1);
    lemma_pow_mod_is_pow(2, 4, 5);
}

/// `2^2 mod 5`.
proof fn lemma_power_5_1()
    ensures
        pow(2, 2) % 5 == 4,
{
    lemma_pow_mod_base(2, 5);
    digit_5(1, 0, 1, 1, 0int, 2);
    digit_5(2, 1, 0, 2, 0int, 4);
    lemma_pow_mod_is_pow(2, 2, 5);
}

/// 5 is prime, with witness 2.
pub proof fn lemma_prime_5()
    ensures
        is_prime(5),
{
    lemma_prime_2();
    let fs: Seq<(int, nat)> = seq![(2int, 2nat)];
    lemma_factor_product_end(fs);
    assert(ipow(2, 2) == 4) by {
        reveal_with_fuel(ipow, 3);
    }
    lemma_factor_product_step(fs, 0, 4, 1);
    lemma_power_5_0();
    lemma_power_5_1();
    assert forall|i: int| 0 <= i < fs.len() implies is_prime(#[trigger] fs[i].0) && pow(
        2,
        ((5 - 1) / fs[i].0) as nat,
    ) % 5 != 1 by {
        if i == 0 {
            assert(fs[0].0 == 2);
            assert((5 - 1) / 2 == 2);
        }
    }
    lemma_lucas(5, 2, fs);
}

/// One digit of square-and-multiply for `3^e mod 7`.
proof fn digit_7(e: nat, eh: nat, bit: nat, h: int, q: int, r: int)
    requires
        e == 2 * eh + bit,
        bit == 0 || bit == 1,
        eh > 0 || bit == 1,
        pow_mod(3, eh, 7) == h,
        0 <= r < 7,
        bit == 0 ==> h * h == 7 * q + r,
        bit == 1 ==> h * h * 3 == 7 * q + r,
    ensures
        pow_mod(3, e, 7) == r,
{
    lemma_pow_mod_digit(3, 7, e, eh, bit, h, q, r);
}

/// `3^6 mod 7`.
proof fn lemma_power_7_0()
    ensures
        pow(3, 6) % 7 == 1,
{
    lemma_pow_mod_base(3, 7);
    digit_7(1, 0, 1, 1, 0int, 3);
    digit_7(3, 1, 1, 3, 3int, 6);
    digit_7(6, 3, 0, 6, 5int, 1);
    lemma_pow_mod_is_pow(3, 6, 7);
}

/// `3^3 mod 7`.
proof fn lemma_power_7_1()
    ensures
        pow(3, 3) % 7 == 6,
{
    lemma_pow_mod_base(3, 7);
    digit_7(1, 0, 1, 1, 0int, 3);
    digit_7(3, 1, 1, 3, 3int, 6);
    lemma_pow_mod_is_pow(3, 3, 7);
}

/// `3^2 mod 7`.
proof fn lemma_power_7_2()
    ensures
        pow(3, 2) % 7 == 2,
{
    lemma_pow_mod_base(3, 7);
    digit_7(1, 0, 1, 1, 0int, 3);
    digit_7(2, 1, 0, 3, 1int, 2);
    lemma_pow_mod_is_pow(3, 2, 7);
}

/// 7 is prime, with witness 3.
pub proof fn lemma_prime_7()
    ensures
        is_prime(7),
{
    lemma_prime_2();
    lemma_prime_3();
    let fs: Seq<(int, nat)> = seq![(2int, 1nat), (3int, 1nat)];
    lemma_factor_product_end(fs);
    assert(ipow(3, 1) == 3) by {
        reveal_with_fuel(ipow, 2);
    }
    lemma_factor_product_step(fs, 1, 3, 1);
    assert(ipow(2, 1) == 2) by {
        reveal_with_fuel(ipow, 2);
    }
    lemma_factor_product_step(fs, 0, 2, 3);
    lemma_power_7_0();
    lemma_power_7_1();
    lemma_power_7_2();
    assert forall|i: int| 0 <= i < fs.len() implies is_prime(#[trigger] fs[i].0) && pow(
        3,
        ((7 - 1) / fs[i].0) as nat,
    ) % 7 != 1 by {
        if i == 0 {
            assert(fs[0].0 == 2);
            assert((7 - 1) / 2 == 3);
        } else if i == 1 {
            assert(fs[1].0 == 3);
            assert((7 - 1) / 3 == 2);
        }
    }
    lemma_lucas(7, 3, fs);
}

/// One digit of square-and-multiply for `2^e mod 11`.
proof fn digit_11(e: nat, eh: nat, bit: nat, h: int, q: int, r: int)
    requires
        e == 2 * eh + bit,
        bit == 0 || bit == 1,
        eh > 0 || bit == 1,
        pow_mod(2, eh, 11) == h,
        0 <= r < 11,
        bit == 0 ==> h * h == 11 * q + r,
        bit == 1 ==> h * h * 2 == 11 * q + r,
    ensures
        pow_mod(2, e, 11) == r,
{
    lemma_pow_mod_digit(2, 11, e, eh, bit, h, q, r);
}

/// `2^10 mod 11`.
proof fn lemma_power_11_0()
    ensures
        pow(2, 10) % 11 == 1,
{
    lemma_pow_mod_base(2, 11);
    digit_11(1, 0, 1, 1, 0int, 2);
    digit_11(2, 1, 0, 2, 0int, 4);
    digit_11(5, 2, 1, 4, 2int, 10);
    digit_11(10, 5, 0, 10, 9int, 1);
    lemma_pow_mod_is_pow(2, 10, 11);
}

/// `2^5 mod 11`.
proof fn lemma_power_11_1()
    ensures
        pow(2, 5) % 11 == 10,
{
    lemma_pow_mod_base(2, 11);
    digit_11(1, 0, 1, 1, 0int, 2);
    digit_11(2, 1, 0, 2, 0int, 4);
    digit_11(5, 2, 1, 4, 2int, 10);
    lemma_pow_mod_is_pow(2, 5, 11);
}

/// `2^2 mod 11`.
proof fn lemma_power_11_2()
    ensures
        pow(2, 2) % 11 == 4,
{
    lemma_pow_mod_base(2, 11);
    digit_11(1, 0, 1, 1, 0int, 2);
    digit_11(2, 1, 0, 2, 0int, 4);
    lemma_pow_mod_is_pow(2, 2, 11);
}

/// 11 is prime, with witness 2.
pub proof fn lemma_prime_11()
    ensures
        is_prime(11),
{
    lemma_prime_2();
    lemma_prime_5();
    let fs: Seq<(int, nat)> = seq![(2int, 1nat), (5int, 1nat)];
    lemma_factor_product_end(fs);
    assert(ipow(5, 1) == 5) by {
        reveal_with_fuel(ipow, 2);
    }
    lemma_factor_product_step(fs, 1, 5, 1);
    assert(ipow(2, 1) == 2) by {
        reveal_with_fuel(ipow, 2);
    }
    lemma_factor_product_step(fs, 0, 2, 5);
    lemma_power_11_0();
    lemma_power_11_1();
    lemma_power_11_2();
    assert forall|i: int| 0 <= i < fs.len() implies is_prime(#[trigger] fs[i].0) && pow(
        2,
        ((11 - 1) / fs[i].0) as nat,
    ) % 11 != 1 by {
        if i == 0 {
            assert(fs[0].0 == 2);
            assert((11 - 1) / 2 == 5);
        } else if i == 1 {
            assert(fs[1].0 == 5);
            assert((11 - 1) / 5 == 2);
        }
    }
    lemma_lucas(11, 2, fs);
}

/// One digit of square-and-multiply for `2^e mod 13`.
proof fn digit_13(e: nat, eh: nat, bit: nat, h: int, q: int, r: int)
    requires
        e == 2 * eh + bit,
        bit == 0 || bit == 1,
        eh > 0 || bit == 1,
        pow_mod(2, eh, 13) == h,
        0 <= r < 13,
        bit == 0 ==> h * h == 13 * q + r,
        bit == 1 ==> h * h * 2 == 13 * q + r,
    ensures
        pow_mod(2, e, 13) == r,
{
    lemma_pow_mod_digit(2, 13, e, eh, bit, h, q, r);
}

/// `2^12 mod 13`.
proof fn lemma_power_13_0()
    ensures
        pow(2, 12) % 13 == 1,
{
    lemma_pow_mod_base(2, 13);
    digit_13(1, 0, 1, 1, 0int, 2);
    digit_13(3, 1, 1, 2, 0int, 8);
    digit_13(6, 3, 0, 8, 4int, 12);
    digit_13(12, 6, 0, 12, 11int, 1);
    lemma_pow_mod_is_pow(2, 12, 13);
}

/// `2^6 mod 13`.
proof fn lemma_power_13_1()
    ensures
        pow(2, 6) % 13 == 12,
{
    lemma_pow_mod_base(2, 13);
    digit_13(1, 0, 1, 1, 0int, 2);
    digit_13(3, 1, 1, 2, 0int, 8);
    digit_13(6, 3, 0, 8, 4int, 12);
    lemma_pow_mod_is_pow(2, 6, 13);
}

/// `2^4 mod 13`.
proof fn lemma_power_13_2()
    ensures
        pow(2, 4) % 13 == 3,
{
    lemma_pow_mod_base(2, 13);
    digit_13(1, 0, 1, 1, 0int, 2);
    digit_13(2, 1, 0, 2, 0int, 4);
    digit_13(4, 2, 0, 4, 1int, 3);
    lemma_pow_mod_is_pow(2, 4, 13);
}

/// 13 is prime, with witness 2.
pub proof fn lemma_prime_13()
    ensures
        is_prime(13),
{
    lemma_prime_2();
    lemma_prime_3();
    let fs: Seq<(int, nat)> = seq![(2int, 2nat), (3int, 1nat)];
    lemma_factor_product_end(fs);
    assert(ipow(3, 1) == 3) by {
        reveal_with_fuel(ipow, 2);
    }
    lemma_factor_product_step(fs, 1, 3, 1);
    assert(ipow(2, 2) == 4) by {
        reveal_with_fuel(ipow, 3);
    }
    lemma_factor_product_step(fs, 0, 4, 3);
    lemma_power_13_0();
    lemma_power_13_1();
    lemma_power_13_2();
    assert forall|i: int| 0 <= i < fs.len() implies is_prime(#[trigger] fs[i].0) && pow(
        2,
        ((13 - 1) / fs[i].0) as nat,
    ) % 13 != 1 by {
        if i == 0 {
            assert(fs[0].0 == 2);
            assert((13 - 1) / 2 == 6);
        } else if i == 1 {
            assert(fs[1].0 == 3);
            assert((13 - 1) / 3 == 4);
        }
    }
    lemma_lucas(13, 2, fs);
}

/// One digit of square-and-multiply for `3^e mod 17`.
proof fn digit_17(e: nat, eh: nat, bit: nat, h: int, q: int, r: int)
    requires
        e == 2 * eh + bit,
        bit == 0 || bit == 1,
        eh > 0 || bit == 1,
        pow_mod(3, eh, 17) == h,
        0 <= r < 17,
        bit == 0 ==> h * h == 17 * q + r,
        bit == 1 ==> h * h * 3 == 17 * q + r,
    ensures
        pow_mod(3, e, 17) == r,
{
    lemma_pow_mod_digit(3, 17, e, eh, bit, h, q, r);
}

/// `3^16 mod 17`.
proof fn lemma_power_17_0()
    ensures
        pow(3, 16) % 17 == 1,
{
    lemma_pow_mod_base(3, 17);
    digit_17(1, 0, 1, 1, 0int, 3);
    digit_17(2, 1, 0, 3, 0int, 9);
    digit_17(4, 2, 0, 9, 4int, 13);
    digit_17(8, 4, 0, 13, 9int, 16);
    digit_17(16, 8, 0, 16, 15int, 1);
    lemma_pow_mod_is_pow(3, 16, 17);
}

/// `3^8 mod 17`.
proof fn lemma_power_17_1()
    ensures
        pow(3, 8) % 17 == 16,
{
    lemma_pow_mod_base(3, 17);
    digit_17(1, 0, 1, 1, 0int, 3);
    digit_17(2, 1, 0, 3, 0int, 9);
    digit_17(4, 2, 0, 9, 4int, 13);
    digit_17(8, 4, 0, 13, 9int, 16);
    lemma_pow_mod_is_pow(3, 8, 17);
}

/// 17 is prime, with witness 3.
pub proof fn lemma_prime_17()
    ensures
        is_prime(17),
{
    lemma_prime_2();
    let fs: Seq<(int, nat)> = seq![(2int, 4nat)];
    lemma_factor_product_end(fs);
    assert(ipow(2, 4) == 16) by {
        reveal_with_fuel(ipow, 5);
    }
    lemma_factor_product_step(fs, 0, 16, 1);
    lemma_power_17_0();
    lemma_power_17_1();
    assert forall|i: int| 0 <= i < fs.len() implies is_prime(#[trigger] fs[i].0) && pow(
        3,
        ((17 - 1) / fs[i].0) as nat,
    ) % 17 != 1 by {
        if i == 0 {
            assert(fs[0].0 == 2);
            assert((17 - 1) / 2 == 8);
        }
    }
    lemma_lucas(17, 3, fs);
}

/// One digit of square-and-multiply for `2^e mod 19`.
proof fn digit_19(e: nat, eh: nat, bit: nat, h: int, q: int, r: int)
    requires
        e == 2 * eh + bit,
        bit == 0 || bit == 1,
        eh > 0 || bit == 1,
        pow_mod(2, eh, 19) == h,
        0 <= r < 19,
        bit == 0 ==> h * h == 19 * q + r,
        bit == 1 ==> h * h * 2 == 19 * q + r,
    ensures
        pow_mod(2, e, 19) == r,
{
    lemma_pow_mod_digit(2, 19, e, eh, bit, h, q, r);
}

/// `2^18 mod 19`.
proof fn lemma_power_19_0()
    ensures
        pow(2, 18) % 19 == 1,
{
    lemma_pow_mod_base(2, 19);
    digit_19(1, 0, 1, 1, 0int, 2);
    digit_19(2, 1, 0, 2, 0int, 4);
    digit_19(4, 2, 0, 4, 0int, 16);
    digit_19(9, 4, 1, 16, 26int, 18);
    digit_19(18, 9, 0, 18, 17int, 1);
    lemma_pow_mod_is_pow(2, 18, 19);
}

/// `2^9 mod 19`.
proof fn lemma_power_19_1()
    ensures
        pow(2, 9) % 19 == 18,
{
    lemma_pow_mod_base(2, 19);
    digit_19(1, 0, 1, 1, 0int, 2);
    digit_19(2, 1, 0, 2, 0int, 4);
    digit_19(4, 2, 0, 4, 0int, 16);
    digit_19(9, 4, 1, 16, 26int, 18);
    lemma_pow_mod_is_pow(2, 9, 19);
}

/// `2^6 mod 19`.
proof fn lemma_power_19_2()
    ensures
        pow(2, 6) % 19 == 7,
{
    lemma_pow_mod_base(2, 19);
    digit_19(1, 0, 1, 1, 0int, 2);
    digit_19(3, 1, 1, 2, 0int, 8);
    digit_19(6, 3, 0, 8, 3int, 7);
    lemma_pow_mod_is_pow(2, 6, 19);
}

/// 19 is prime, with witness 2.
pub proof fn lemma_prime_19()
    ensures
        is_prime(19),
{
    lemma_prime_2();
    lemma_prime_3();
    let fs: Seq<(int, nat)> = seq![(2int, 1nat), (3int, 2nat)];
    lemma_factor_product_end(fs);
    assert(ipow(3, 2) == 9) by {
        reveal_with_fuel(ipow, 3);
    }
    lemma_factor_product_step(fs, 1, 9, 1);
    assert(ipow(2, 1) == 2) by {
        reveal_with_fuel(ipow, 2);
    }
    lemma_factor_product_step(fs, 0, 2, 9);
    lemma_power_19_0();
    lemma_power_19_1();
    lemma_power_19_2();
    assert forall|i: int| 0 <= i < fs.len() implies is_prime(#[trigger] fs[i].0) && pow(
        2,
        ((19 - 1) / fs[i].0) as nat,
    ) % 19 != 1 by {
        if i == 0 {
            assert(fs[0].0 == 2);
            assert((19 - 1) / 2 == 9);
        } else if i == 1 {
            assert(fs[1].0 == 3);
            assert((19 - 1) / 3 == 6);
        }
    }
    lemma_lucas(19, 2, fs);
}

/// One digit of square-and-multiply for `5^e mod 23`.
proof fn digit_23(e: nat, eh: nat, bit: nat, h: int, q: int, r: int)
    requires
        e == 2 * eh + bit,
        bit == 0 || bit == 1,
        eh > 0 || bit == 1,
        pow_mod(5, eh, 23) == h,
        0 <= r < 23,
        bit == 0 ==> h * h == 23 * q + r,
        bit == 1 ==> h * h * 5 == 23 * q + r,
    ensures
        pow_mod(5, e, 23) == r,
{
    lemma_pow_mod_digit(5, 23, e, eh, bit, h, q, r);
}

/// `5^22 mod 23`.
proof fn lemma_power_23_0()
    ensures
        pow(5, 22) % 23 == 1,
{
    lemma_pow_mod_base(5, 23);
    digit_23(1, 0, 1, 1, 0int, 5);
    digit_23(2, 1, 0, 5, 1int, 2);
    digit_23(5, 2, 1, 2, 0int, 20);
    digit_23(11, 5, 1, 20, 86int, 22);
    digit_23(22, 11, 0, 22, 21int, 1);
    lemma_pow_mod_is_pow(5, 22, 23);
}

/// `5^11 mod 23`.
proof fn lemma_power_23_1()
    ensures
        pow(5, 11) % 23 == 22,
{
    lemma_pow_mod_base(5, 23);
    digit_23(1, 0, 1, 1, 0int, 5);
    digit_23(2, 1, 0, 5, 1int, 2);
    digit_23(5, 2, 1, 2, 0int, 20);
    digit_23(11, 5, 1, 20, 86int, 22);
    lemma_pow_mod_is_pow(5, 11, 23);
}

/// `5^2 mod 23`.
proof fn lemma_power_23_2()
    ensures
        pow(5, 2) % 23 == 2,
{
    lemma_pow_mod_base(5, 23);
    digit_23(1, 0, 1, 1, 0int, 5);
    digit_23(2, 1, 0, 5, 1int, 2);
    lemma_pow_mod_is_pow(5, 2, 23);
}

/// 23 is prime, with witness 5.
pub proof fn lemma_prime_23()
    ensures
        is_prime(23),
{
    lemma_prime_2();
    lemma_prime_11();
    let fs: Seq<(int, nat)> = seq![(2int, 1nat), (11int, 1nat)];
    lemma_factor_product_end(fs);
    assert(ipow(11, 1) == 11) by {
        reveal_with_fuel(ipow, 2);
    }
    lemma_factor_product_step(fs, 1, 11, 1);
    assert(ipow(2, 1) == 2) by {
        reveal_with_fuel(ipow, 2);
    }
    lemma_factor_product_step(fs, 0, 2, 11);
    lemma_power_23_0();
    lemma_power_23_1();
    lemma_power_23_2();
    assert forall|i: int| 0 <= i < fs.len() implies is_prime(#[trigger] fs[i].0) && pow(
        5,
        ((23 - 1) / fs[i].0) as nat,
    ) % 23 != 1 by {
        if i == 0 {
            assert(fs[0].0 == 2);
            assert((23 - 1) / 2 == 11);
        } else if i == 1 {
            assert(fs[1].0 == 11);
            assert((23 - 1) / 11 == 2);
        }
    }
    lemma_lucas(23, 5, fs);
}

/// One digit of square-and-multiply for `2^e mod 29`.
proof fn digit_29(e: nat, eh: nat, bit: nat, h: int, q: int, r: int)
    requires
        e == 2 * eh + bit,
        bit == 0 || bit == 1,
        eh > 0 || bit == 1,
        pow_mod(2, eh, 29) == h,
        0 <= r < 29,
        bit == 0 ==> h * h == 29 * q + r,
        bit == 1 ==> h * h * 2 == 29 * q + r,
    ensures
        pow_mod(2, e, 29) == r,
{
    lemma_pow_mod_digit(2, 29, e, eh, bit, h, q, r);
}

/// `2^28 mod 29`.
proof fn lemma_power_29_0()
    ensures
        pow(2, 28) % 29 == 1,
{
    lemma_pow_mod_base(2, 29);
    digit_29(1, 0, 1, 1, 0int, 2);
    digit_29(3, 1, 1, 2, 0int, 8);
    digit_29(7, 3, 1, 8, 4int, 12);
    digit_29(14, 7, 0, 12, 4int, 28);
    digit_29(28, 14, 0, 28, 27int, 1);
    lemma_pow_mod_is_pow(2, 28, 29);
}

/// `2^14 mod 29`.
proof fn lemma_power_29_1()
    ensures
        pow(2, 14) % 29 == 28,
{
    lemma_pow_mod_base(2, 29);
    digit_29(1, 0, 1, 1, 0int, 2);
    digit_29(3, 1, 1, 2, 0int, 8);
    digit_29(7, 3, 1, 8, 4int, 12);
    digit_29(14, 7, 0, 12, 4int, 28);
    lemma_pow_mod_is_pow(2, 14, 29);
}

/// `2^4 mod 29`.
proof fn lemma_power_29_2()
    ensures
        pow(2, 4) % 29 == 16,
{
    lemma_pow_mod_base(2, 29);
    digit_29(1, 0, 1, 1, 0int, 2);
    digit_29(2, 1, 0, 2, 0int, 4);
    digit_29(4, 2, 0, 4, 0int, 16);
    lemma_pow_mod_is_pow(2, 4, 29);
}

/// 29 is prime, with witness 2.
pub proof fn lemma_prime_29()
    ensures
        is_prime(29),
{
    lemma_prime_2();
    lemma_prime_7();
    let fs: Seq<(int, nat)> = seq![(2int, 2nat), (7int, 1nat)];
    lemma_factor_product_end(fs);
    assert(ipow(7, 1) == 7) by {
        reveal_with_fuel(ipow, 2);
    }
    lemma_factor_product_step(fs, 1, 7, 1);
    assert(ipow(2, 2) == 4) by {
        reveal_with_fuel(ipow, 3);
    }
    lemma_factor_product_step(fs, 0, 4, 7);
    lemma_power_29_0();
    lemma_power_29_1();
    lemma_power_29_2();
    assert forall|i: int| 0 <= i < fs.len() implies is_prime(#[trigger] fs[i].0) && pow(
        2,
        ((29 - 1) / fs[i].0) as nat,
    ) % 29 != 1 by {
        if i == 0 {
            assert(fs[0].0 == 2);
            assert((29 - 1) / 2 == 14);
        } else if i == 1 {
            assert(fs[1].0 == 7);
            assert((29 - 1) / 7 == 4);
        }
    }
    lemma_lucas(29, 2, fs);
}

/// One digit of square-and-multiply for `2^e mod 53`.
proof fn digit_53(e: nat, eh: nat, bit: nat, h: int, q: int, r: int)
    requires
        e == 2 * eh + bit,
        bit == 0 || bit == 1,
        eh > 0 || bit == 1,
        pow_mod(2, eh, 53) == h,
        0 <= r < 53,
        bit == 0 ==> h * h == 53 * q + r,
        bit == 1 ==> h * h * 2 == 53 * q + r,
    ensures
        pow_mod(2, e, 53) == r,
{
    lemma_pow_mod_digit(2, 53, e, eh, bit, h, q, r);
}

/// `2^52 mod 53`.
proof fn lemma_power_53_0()
    ensures
        pow(2, 52) % 53 == 1,
{
    lemma_pow_mod_base(2, 53);
    digit_53(1, 0, 1, 1, 0int, 2);
    digit_53(3, 1, 1, 2, 0int, 8);
    digit_53(6, 3, 0, 8, 1int, 11);
    digit_53(13, 6, 1, 11, 4int, 30);
    digit_53(26, 13, 0, 30, 16int, 52);
    digit_53(52, 26, 0, 52, 51int, 1);
    lemma_pow_mod_is_pow(2, 52, 53);
}

/// `2^26 mod 53`.
proof fn lemma_power_53_1()
    ensures
        pow(2, 26) % 53 == 52,
{
    lemma_pow_mod_base(2, 53);
    digit_53(1, 0, 1, 1, 0int, 2);
    digit_53(3, 1, 1, 2, 0int, 8);
    digit_53(6, 3, 0, 8, 1int, 11);
    digit_53(13, 6, 1, 11, 4int, 30);
    digit_53(26, 13, 0, 30, 16int, 52);
    lemma_pow_mod_is_pow(2, 26, 53);
}

/// `2^4 mod 53`.
proof fn lemma_power_53_2()
    ensures
        pow(2, 4) % 53 == 16,
{
    lemma_pow_mod_base(2, 53);
    digit_53(1, 0, 1, 1, 0int, 2);
    digit_53(2, 1, 0, 2, 0int, 4);
    digit_53(4, 2, 0, 4, 0int, 16);
    lemma_pow_mod_is_pow(2, 4, 53);
}

/// 53 is prime, with witness 2.
pub proof fn lemma_prime_53()
    ensures
        is_prime(53),
{
    lemma_prime_2();
    lemma_prime_13();
    let fs: Seq<(int, nat)> = seq![(2int, 2nat), (13int, 1nat)];
    lemma_factor_product_end(fs);
    assert(ipow(13, 1) == 13) by {
        reveal_with_fuel(ipow, 2);
    }
    lemma_factor_product_step(fs, 1, 13, 1);
    assert(ipow(2, 2) == 4) by {
        reveal_with_fuel(ipow, 3);
    }
    lemma_factor_product_step(fs, 0, 4, 13);
    lemma_power_53_0();
    lemma_power_53_1();
    lemma_power_53_2();
    assert forall|i: int| 0 <= i < fs.len() implies is_prime(#[trigger] fs[i].0) && pow(
        2,
        ((53 - 1) / fs[i].0) as nat,
    ) % 53 != 1 by {
        if i == 0 {
            assert(fs[0].0 == 2);
            assert((53 - 1) / 2 == 26);
        } else if i == 1 {
            assert(fs[1].0 == 13);
            assert((53 - 1) / 13 == 4);
        }
    }
    lemma_lucas(53, 2, fs);
}

/// One digit of square-and-multiply for `5^e mod 103`.
proof fn digit_103(e: nat, eh: nat, bit: nat, h: int, q: int, r: int)
    requires
        e == 2 * eh + bit,
        bit == 0 || bit == 1,
        eh > 0 || bit == 1,
        pow_mod(5, eh, 103) == h,
        0 <= r < 103,
        bit == 0 ==> h * h == 103 * q + r,
        bit == 1 ==> h * h * 5 == 103 * q + r,
    ensures
        pow_mod(5, e, 103) == r,
{
    lemma_pow_mod_digit(5, 103, e, eh, bit, h, q, r);
}

/// `5^102 mod 103`.
proof fn lemma_power_103_0()
    ensures
        pow(5, 102) % 103 == 1,
{
    lemma_pow_mod_base(5, 103);
    digit_103(1, 0, 1, 1, 0int, 5);
    digit_103(3, 1, 1, 5, 1int, 22);
    digit_103(6, 3, 0, 22, 4int, 72);
    digit_103(12, 6, 0, 72, 50int, 34);
    digit_103(25, 12, 1, 34, 56int, 12);
    digit_103(51, 25, 1, 12, 6int, 102);
    digit_103(102, 51, 0, 102, 101int, 1);
    lemma_pow_mod_is_pow(5, 102, 103);
}

/// `5^51 mod 103`.
proof fn lemma_power_103_1()
    ensures
        pow(5, 51) % 103 == 102,
{
    lemma_pow_mod_base(5, 103);
    digit_103(1, 0, 1, 1, 0int, 5);
    digit_103(3, 1, 1, 5, 1int, 22);
    digit_103(6, 3, 0, 22, 4int, 72);
    digit_103(12, 6, 0, 72, 50int, 34);
    digit_103(25, 12, 1, 34, 56int, 12);
    digit_103(51, 25, 1, 12, 6int, 102);
    lemma_pow_mod_is_pow(5, 51, 103);
}

/// `5^34 mod 103`.
proof fn lemma_power_103_2()
    ensures
        pow(5, 34) % 103 == 56,
{
    lemma_pow_mod_base(5, 103);
    digit_103(1, 0, 1, 1, 0int, 5);
    digit_103(2, 1, 0, 5, 0int, 25);
    digit_103(4, 2, 0, 25, 6int, 7);
    digit_103(8, 4, 0, 7, 0int, 49);
    digit_103(17, 8, 1, 49, 116int, 57);
    digit_103(34, 17, 0, 57, 31int, 56);
    lemma_pow_mod_is_pow(5, 34, 103);
}

/// `5^6 mod 103`.
proof fn lemma_power_103_3()
    ensures
        pow(5, 6) % 103 == 72,
{
    lemma_pow_mod_base(5, 103);
    digit_103(1, 0, 1, 1, 0int, 5);
    digit_103(3, 1, 1, 5, 1int, 22);
    digit_103(6, 3, 0, 22, 4int, 72);
    lemma_pow_mod_is_pow(5, 6, 103);
}

/// 103 is prime, with witness 5.
pub proof fn lemma_prime_103()
    ensures
        is_prime(103),
{
    lemma_prime_2();
    lemma_prime_3();
    lemma_prime_17();
    let fs: Seq<(int, nat)> = seq![(2int, 1nat), (3int, 1nat), (17int, 1nat)];
    lemma_factor_product_end(fs);
    assert(ipow(17, 1) == 17) by {
        reveal_with_fuel(ipow, 2);
    }
    lemma_factor_product_step(fs, 2, 17, 1);
    assert(ipow(3, 1) == 3) by {
        reveal_with_fuel(ipow, 2);
    }
    lemma_factor_product_step(fs, 1, 3, 17);
    assert(ipow(2, 1) == 2) by {
        reveal_with_fuel(ipow, 2);
    }
    lemma_factor_product_step(fs, 0, 2, 51);
    lemma_power_103_0();
    lemma_power_103_1();
    lemma_power_103_2();
    lemma_power_103_3();
    assert forall|i: int| 0 <= i < fs.len() implies is_prime(#[trigger] fs[i].0) && pow(
        5,
        ((103 - 1) / fs[i].0) as nat,
    ) % 103 != 1 by {
        if i == 0 {
            assert(fs[0].0 == 2);
            assert((103 - 1) / 2 == 51);
        } else if i == 1 {
            assert(fs[1].0 == 3);
            assert((103 - 1) / 3 == 34);
        } else if i == 2 {
            assert(fs[2].0 == 17);
            assert((103 - 1) / 17 == 6);
        }
    }
    lemma_lucas(103, 5, fs);
}

/// One digit of square-and-multiply for `2^e mod 107`.
proof fn digit_107(e: nat, eh: nat, bit: nat, h: int, q: int, r: int)
    requires
        e == 2 * eh + bit,
        bit == 0 || bit == 1,
        eh > 0 || bit == 1,
        pow_mod(2, eh, 107) == h,
        0 <= r < 107,
        bit == 0 ==> h * h == 107 * q + r,
        bit == 1 ==> h * h * 2 == 107 * q + r,
    ensures
        pow_mod(2, e, 107) == r,
{
    lemma_pow_mod_digit(2, 107, e, eh, bit, h, q, r);
}

/// `2^106 mod 107`.
proof fn lemma_power_107_0()
    ensures
        pow(2, 106) % 107 == 1,
{
    lemma_pow_mod_base(2, 107);
    digit_107(1, 0, 1, 1, 0int, 2);
    digit_107(3, 1, 1, 2, 0int, 8);
    digit_107(6, 3, 0, 8, 0int, 64);
    digit_107(13, 6, 1, 64, 76int, 60);
    digit_107(26, 13, 0, 60, 33int, 69);
    digit_107(53, 26, 1, 69, 88int, 106);
    digit_107(106, 53, 0, 106, 105int, 1);
    lemma_pow_mod_is_pow(2, 106, 107);
}

/// `2^53 mod 107`.
proof fn lemma_power_107_1()
    ensures
        pow(2, 53) % 107 == 106,
{
    lemma_pow_mod_base(2, 107);
    digit_107(1, 0, 1, 1, 0int, 2);
    digit_107(3, 1, 1, 2, 0int, 8);
    digit_107(6, 3, 0, 8, 0int, 64);
    digit_107(13, 6, 1, 64, 76int, 60);
    digit_107(26, 13, 0, 60, 33int, 69);
    digit_107(53, 26, 1, 69, 88int, 106);
    lemma_pow_mod_is_pow(2, 53, 107);
}

/// `2^2 mod 107`.
proof fn lemma_power_107_2()
    ensures
        pow(2, 2) % 107 == 4,
{
    lemma_pow_mod_base(2, 107);
    digit_107(1, 0, 1, 1, 0int, 2);
    digit_107(2, 1, 0, 2, 0int, 4);
    lemma_pow_mod_is_pow(2, 2, 107);
}

/// 107 is prime, with witness 2.
pub proof fn lemma_prime_107()
    ensures
        is_prime(107),
{
    lemma_prime_2();
    lemma_prime_53();
    let fs: Seq<(int, nat)> = seq![(2int, 1nat), (53int, 1nat)];
    lemma_factor_product_end(fs);
    assert(ipow(53, 1) == 53) by {
        reveal_with_fuel(ipow, 2);
    }
    lemma_factor_product_step(fs, 1, 53, 1);
    assert(ipow(2, 1) == 2) by {
        reveal_with_fuel(ipow, 2);
    }
    lemma_factor_product_step(fs, 0, 2, 53);
    lemma_power_107_0();
    lemma_power_107_1();
    lemma_power_107_2();
    assert forall|i: int| 0 <= i < fs.len() implies is_prime(#[trigger] fs[i].0) && pow(
        2,
        ((107 - 1) / fs[i].0) as nat,
    ) % 107 != 1 by {
        if i == 0 {
            assert(fs[0].0 == 2);
            assert((107 - 1) / 2 == 53);
        } else if i == 1 {
            assert(fs[1].0 == 53);
            assert((107 - 1) / 53 == 2);
        }
    }
    lemma_lucas(107, 2, fs);
}

/// One digit of square-and-multiply for `2^e mod 139`.
proof fn digit_139(e: nat, eh: nat, bit: nat, h: int, q: int, r: int)
    requires
        e == 2 * eh + bit,
        bit == 0 || bit == 1,
        eh > 0 || bit == 1,
        pow_mod(2, eh, 139) == h,
        0 <= r < 139,
        bit == 0 ==> h * h == 139 * q + r,
        bit == 1 ==> h * h * 2 == 139 * q + r,
    ensures
        pow_mod(2, e, 139) == r,
{
    lemma_pow_mod_digit(2, 139, e, eh, bit, h, q, r);
}

/// `2^138 mod 139`.
proof fn lemma_power_139_0()
    ensures
        pow(2, 138) % 139 == 1,
{
    lemma_pow_mod_base(2, 139);
    digit_139(1, 0, 1, 1, 0int, 2);
    digit_139(2, 1, 0, 2, 0int, 4);
    digit_139(4, 2, 0, 4, 0int, 16);
    digit_139(8, 4, 0, 16, 1int, 117);
    digit_139(17, 8, 1, 117, 196int, 134);
    digit_139(34, 17, 0, 134, 129int, 25);
    digit_139(69, 34, 1, 25, 8int, 138);
    digit_139(138, 69, 0, 138, 137int, 1);
    lemma_pow_mod_is_pow(2, 138, 139);
}

/// `2^69 mod 139`.
proof fn lemma_power_139_1()
    ensures
        pow(2, 69) % 139 == 138,
{
    lemma_pow_mod_base(2, 139);
    digit_139(1, 0, 1, 1, 0int, 2);
    digit_139(2, 1, 0, 2, 0int, 4);
    digit_139(4, 2, 0, 4, 0int, 16);
    digit_139(8, 4, 0, 16, 1int, 117);
    digit_139(17, 8, 1, 117, 196int, 134);
    digit_139(34, 17, 0, 134, 129int, 25);
    digit_139(69, 34, 1, 25, 8int, 138);
    lemma_pow_mod_is_pow(2, 69, 139);
}

/// `2^46 mod 139`.
proof fn lemma_power_139_2()
    ensures
        pow(2, 46) % 139 == 96,
{
    lemma_pow_mod_base(2, 139);
    digit_139(1, 0, 1, 1, 0int, 2);
    digit_139(2, 1, 0, 2, 0int, 4);
    digit_139(5, 2, 1, 4, 0int, 32);
    digit_139(11, 5, 1, 32, 14int, 102);
    digit_139(23, 11, 1, 102, 149int, 97);
    digit_139(46, 23, 0, 97, 67int, 96);
    lemma_pow_mod_is_pow(2, 46, 139);
}

/// `2^6 mod 139`.
proof fn lemma_power_139_3()
    ensures
        pow(2, 6) % 139 == 64,
{
    lemma_pow_mod_base(2, 139);
    digit_139(1, 0, 1, 1, 0int, 2);
    digit_139(3, 1, 1, 2, 0int, 8);
    digit_139(6, 3, 0, 8, 0int, 64);
    lemma_pow_mod_is_pow(2, 6, 139);
}

/// 139 is prime, with witness 2.
pub proof fn lemma_prime_139()
    ensures
        is_prime(139),
{
    lemma_prime_2();
    lemma_prime_3();
    lemma_prime_23();
    let fs: Seq<(int, nat)> = seq![(2int, 1nat), (3int, 1nat), (23int, 1nat)];
    lemma_factor_product_end(fs);
    assert(ipow(23, 1) == 23) by {
        reveal_with_fuel(ipow, 2);
    }
    lemma_factor_product_step(fs, 2, 23, 1);
    assert(ipow(3, 1) == 3) by {
        reveal_with_fuel(ipow, 2);
    }
    lemma_factor_product_step(fs, 1, 3, 23);
    assert(ipow(2, 1) == 2) by {
        reveal_with_fuel(ipow, 2);
    }
    lemma_factor_product_step(fs, 0, 2, 69);
    lemma_power_139_0();
    lemma_power_139_1();
    lemma_power_139_2();
    lemma_power_139_3();
    assert forall|i: int| 0 <= i < fs.len() implies is_prime(#[trigger] fs[i].0) && pow(
        2,
        ((139 - 1) / fs[i].0) as nat,
    ) % 139 != 1 by {
        if i == 0 {
            assert(fs[0].0 == 2);
            assert((139 - 1) / 2 == 69);
        } else if i == 1 {
            assert(fs[1].0 == 3);
            assert((139 - 1) / 3 == 46);
        } else if i == 2 {
            assert(fs[2].0 == 23);
            assert((139 - 1) / 23 == 6);
        }
    }
    lemma_lucas(139, 2, fs);
}

/// One digit of square-and-multiply for `5^e mod 157`.
proof fn digit_157(e: nat, eh: nat, bit: nat, h: int, q: int, r: int)
    requires
        e == 2 * eh + bit,
        bit == 0 || bit == 1,
        eh > 0 || bit == 1,
        pow_mod(5, eh, 157) == h,
        0 <= r < 157,
        bit == 0 ==> h * h == 157 * q + r,
        bit == 1 ==> h * h * 5 == 157 * q + r,
    ensures
        pow_mod(5, e, 157) == r,
{
    lemma_pow_mod_digit(5, 157, e, eh, bit, h, q, r);
}

/// `5^156 mod 157`.
proof fn lemma_power_157_0()
    ensures
        pow(5, 156) % 157 == 1,
{
    lemma_pow_mod_base(5, 157);
    digit_157(1, 0, 1, 1, 0int, 5);
    digit_157(2, 1, 0, 5, 0int, 25);
    digit_157(4, 2, 0, 25, 3int, 154);
    digit_157(9, 4, 1, 154, 755int, 45);
    digit_157(19, 9, 1, 45, 64int, 77);
    digit_157(39, 19, 1, 77, 188int, 129);
    digit_157(78, 39, 0, 129, 105int, 156);
    digit_157(156, 78, 0, 156, 155int, 1);
    lemma_pow_mod_is_pow(5, 156, 157);
}

/// `5^78 mod 157`.
proof fn lemma_power_157_1()
    ensures
        pow(5, 78) % 157 == 156,
{
    lemma_pow_mod_base(5, 157);
    digit_157(1, 0, 1, 1, 0int, 5);
    digit_157(2, 1, 0, 5, 0int, 25);
    digit_157(4, 2, 0, 25, 3int, 154);
    digit_157(9, 4, 1, 154, 755int, 45);
    digit_157(19, 9, 1, 45, 64int, 77);
    digit_157(39, 19, 1, 77, 188int, 129);
    digit_157(78, 39, 0, 129, 105int, 156);
    lemma_pow_mod_is_pow(5, 78, 157);
}

/// `5^52 mod 157`.
proof fn lemma_power_157_2()
    ensures
        pow(5, 52) % 157 == 12,
{
    lemma_pow_mod_base(5, 157);
    digit_157(1, 0, 1, 1, 0int, 5);
    digit_157(3, 1, 1, 5, 0int, 125);
    digit_157(6, 3, 0, 125, 99int, 82);
    digit_157(13, 6, 1, 82, 214int, 22);
    digit_157(26, 13, 0, 22, 3int, 13);
    digit_157(52, 26, 0, 13, 1int, 12);
    lemma_pow_mod_is_pow(5, 52, 157);
}

/// `5^12 mod 157`.
proof fn lemma_power_157_3()
    ensures
        pow(5, 12) % 157 == 130,
{
    lemma_pow_mod_base(5, 157);
    digit_157(1, 0, 1, 1, 0int, 5);
    digit_157(3, 1, 1, 5, 0int, 125);
    digit_157(6, 3, 0, 125, 99int, 82);
    digit_157(12, 6, 0, 82, 42int, 130);
    lemma_pow_mod_is_pow(5, 12, 157);
}

/// 157 is prime, with witness 5.
pub proof fn lemma_prime_157()
    ensures
        is_prime(157),
{
    lemma_prime_2();
    lemma_prime_3();
    lemma_prime_13();
    let fs: Seq<(int, nat)> = seq![(2int, 2nat), (3int, 1nat), (13int, 1nat)];
    lemma_factor_product_end(fs);
    assert(ipow(13, 1) == 13) by {
        reveal_with_fuel(ipow, 2);
    }
    lemma_factor_product_step(fs, 2, 13, 1);
    assert(ipow(3, 1) == 3) by {
        reveal_with_fuel(ipow, 2);
    }
    lemma_factor_product_step(fs, 1, 3, 13);
    assert(ipow(2, 2) == 4) by {
        reveal_with_fuel(ipow, 3);
    }
    lemma_factor_product_step(fs, 0, 4, 39);
    lemma_power_157_0();
    lemma_power_157_1();
    lemma_power_157_2();
    lemma_power_157_3();
    assert forall|i: int| 0 <= i < fs.len() implies is_prime(#[trigger] fs[i].0) && pow(
        5,
        ((157 - 1) / fs[i].0) as nat,
    ) % 157 != 1 by {
        if i == 0 {
            assert(fs[0].0 == 2);
            assert((157 - 1) / 2 == 78);
        } else if i == 1 {
            assert(fs[1].0 == 3);
            assert((157 - 1) / 3 == 52);
        } else if i == 2 {
            assert(fs[2].0 == 13);
            assert((157 - 1) / 13 == 12);
        }
    }
    lemma_lucas(157, 5, fs);
}

/// One digit of square-and-multiply for `2^e mod 181`.
proof fn digit_181(e: nat, eh: nat, bit: nat, h: int, q: int, r: int)
    requires
        e == 2 * eh + bit,
        bit == 0 || bit == 1,
        eh > 0 || bit == 1,
        pow_mod(2, eh, 181) == h,
        0 <= r < 181,
        bit == 0 ==> h * h == 181 * q + r,
        bit == 1 ==> h * h * 2 == 181 * q + r,
    ensures
        pow_mod(2, e, 181) == r,
{
    lemma_pow_mod_digit(2, 181, e, eh, bit, h, q, r);
}

/// `2^180 mod 181`.
proof fn lemma_power_181_0()
    ensures
        pow(2, 180) % 181 == 1,
{
    lemma_pow_mod_base(2, 181);
    digit_181(1, 0, 1, 1, 0int, 2);
    digit_181(2, 1, 0, 2, 0int, 4);
    digit_181(5, 2, 1, 4, 0int, 32);
    digit_181(11, 5, 1, 32, 11int, 57);
    digit_181(22, 11, 0, 57, 17int, 172);
    digit_181(45, 22, 1, 172, 326int, 162);
    digit_181(90, 45, 0, 162, 144int, 180);
    digit_181(180, 90, 0, 180, 179int, 1);
    lemma_pow_mod_is_pow(2, 180, 181);
}

/// `2^90 mod 181`.
proof fn lemma_power_181_1()
    ensures
        pow(2, 90) % 181 == 180,
{
    lemma_pow_mod_base(2, 181);
    digit_181(1, 0, 1, 1, 0int, 2);
    digit_181(2, 1, 0, 2, 0int, 4);
    digit_181(5, 2, 1, 4, 0int, 32);
    digit_181(11, 5, 1, 32, 11int, 57);
    digit_181(22, 11, 0, 57, 17int, 172);
    digit_181(45, 22, 1, 172, 326int, 162);
    digit_181(90, 45, 0, 162, 144int, 180);
    lemma_pow_mod_is_pow(2, 90, 181);
}

/// `2^60 mod 181`.
proof fn lemma_power_181_2()
    ensures
        pow(2, 60) % 181 == 48,
{
    lemma_pow_mod_base(2, 181);
    digit_181(1, 0, 1, 1, 0int, 2);
    digit_181(3, 1, 1, 2, 0int, 8);
    digit_181(7, 3, 1, 8, 0int, 128);
    digit_181(15, 7, 1, 128, 181int, 7);
    digit_181(30, 15, 0, 7, 0int, 49);
    digit_181(60, 30, 0, 49, 13int, 48);
    lemma_pow_mod_is_pow(2, 60, 181);
}

/// `2^36 mod 181`.
proof fn lemma_power_181_3()
    ensures
        pow(2, 36) % 181 == 59,
{
    lemma_pow_mod_base(2, 181);
    digit_181(1, 0, 1, 1, 0int, 2);
    digit_181(2, 1, 0, 2, 0int, 4);
    digit_181(4, 2, 0, 4, 0int, 16);
    digit_181(9, 4, 1, 16, 2int, 150);
    digit_181(18, 9, 0, 150, 124int, 56);
    digit_181(36, 18, 0, 56, 17int, 59);
    lemma_pow_mod_is_pow(2, 36, 181);
}

/// 181 is prime, with witness 2.
pub proof fn lemma_prime_181()
    ensures
        is_prime(181),
{
    lemma_prime_2();
    lemma_prime_3();
    lemma_prime_5();
    let fs: Seq<(int, nat)> = seq![(2int, 2nat), (3int, 2nat), (5int, 1nat)];
    lemma_factor_product_end(fs);
    assert(ipow(5, 1) == 5) by {
        reveal_with_fuel(ipow, 2);
    }
    lemma_factor_product_step(fs, 2, 5, 1);
    assert(ipow(3, 2) == 9) by {
        reveal_with_fuel(ipow, 3);
    }
    lemma_factor_product_step(fs, 1, 9, 5);
    assert(ipow(2, 2) == 4) by {
        reveal_with_fuel(ipow, 3);
    }
    lemma_factor_product_step(fs, 0, 4, 45);
    lemma_power_181_0();
    lemma_power_181_1();
    lemma_power_181_2();
    lemma_power_181_3();
    assert forall|i: int| 0 <= i < fs.len() implies is_prime(#[trigger] fs[i].0) && pow(
        2,
        ((181 - 1) / fs[i].0) as nat,
    ) % 181 != 1 by {
        if i == 0 {
            assert(fs[0].0 == 2);
            assert((181 - 1) / 2 == 90);
        } else if i == 1 {
            assert(fs[1].0 == 3);
            assert((181 - 1) / 3 == 60);
        } else if i == 2 {
            assert(fs[2].0 == 5);
            assert((181 - 1) / 5 == 36);
        }
    }
    lemma_lucas(181, 2, fs);
}

/// One digit of square-and-multiply for `14^e mod 1031`.
proof fn digit_1031(e: nat, eh: nat, bit: nat, h: int, q: int, r: int)
    requires
        e == 2 * eh + bit,
        bit == 0 || bit == 1,
        eh > 0 || bit == 1,
        pow_mod(14, eh, 1031) == h,
        0 <= r < 1031,
        bit == 0 ==> h * h == 1031 * q + r,
        bit == 1 ==> h * h * 14 == 1031 * q + r,
    ensures
        pow_mod(14, e, 1031) == r,
{
    lemma_pow_mod_digit(14, 1031, e, eh, bit, h, q, r);
}

/// `14^1030 mod 1031`.
proof fn lemma_power_1031_0()
    ensures
        pow(14, 1030) % 1031 == 1,
{
    lemma_pow_mod_base(14, 1031);
    digit_1031(1, 0, 1, 1, 0int, 14);
    digit_1031(2, 1, 0, 14, 0int, 196);
    digit_1031(4, 2, 0, 196, 37int, 269);
    digit_1031(8, 4, 0, 269, 70int, 191);
    digit_1031(16, 8, 0, 191, 35int, 396);
    digit_1031(32, 16, 0, 396, 152int, 104);
    digit_1031(64, 32, 0, 104, 10int, 506);
    digit_1031(128, 64, 0, 506, 248int, 348);
    digit_1031(257, 128, 1, 348, 1644int, 492);
    digit_1031(515, 257, 1, 492, 3286int, 1030);
    digit_1031(1030, 515, 0, 1030, 1029int, 1);
    lemma_pow_mod_is_pow(14, 1030, 1031);
}

/// `14^515 mod 1031`.
proof fn lemma_power_1031_1()
    ensures
        pow(14, 515) % 1031 == 1030,
{
    lemma_pow_mod_base(14, 1031);
    digit_1031(1, 0, 1, 1, 0int, 14);
    digit_1031(2, 1, 0, 14, 0int, 196);
    digit_1031(4, 2, 0, 196, 37int, 269);
    digit_1031(8, 4, 0, 269, 70int, 191);
    digit_1031(16, 8, 0, 191, 35int, 396);
    digit_1031(32, 16, 0, 396, 152int, 104);
    digit_1031(64, 32, 0, 104, 10int, 506);
    digit_1031(128, 64, 0, 506, 248int, 348);
    digit_1031(257, 128, 1, 348, 1644int, 492);
    digit_1031(515, 257, 1, 492, 3286int, 1030);
    lemma_pow_mod_is_pow(14, 515, 1031);
}

/// `14^206 mod 1031`.
proof fn lemma_power_1031_2()
    ensures
        pow(14, 206) % 1031 == 264,
{
    lemma_pow_mod_base(14, 1031);
    digit_1031(1, 0, 1, 1, 0int, 14);
    digit_1031(3, 1, 1, 14, 2int, 682);
    digit_1031(6, 3, 0, 682, 451int, 143);
    digit_1031(12, 6, 0, 143, 19int, 860);
    digit_1031(25, 12, 1, 860, 10043int, 67);
    digit_1031(51, 25, 1, 67, 60int, 986);
    digit_1031(103, 51, 1, 986, 13201int, 513);
    digit_1031(206, 103, 0, 513, 255int, 264);
    lemma_pow_mod_is_pow(14, 206, 1031);
}

/// `14^10 mod 1031`.
proof fn lemma_power_1031_3()
    ensures
        pow(14, 10) % 1031 == 320,
{
    lemma_pow_mod_base(14, 1031);
    digit_1031(1, 0, 1, 1, 0int, 14);
    digit_1031(2, 1, 0, 14, 0int, 196);
    digit_1031(5, 2, 1, 196, 521int, 673);
    digit_1031(10, 5, 0, 673, 439int, 320);
    lemma_pow_mod_is_pow(14, 10, 1031);
}

/// 1031 is prime, with witness 14.
pub proof fn lemma_prime_1031()
    ensures
        is_prime(1031),
{
    lemma_prime_2();
    lemma_prime_5();
    lemma_prime_103();
    let fs: Seq<(int, nat)> = seq![(2int, 1nat), (5int, 1nat), (103int, 1nat)];
    lemma_factor_product_end(fs);
    assert(ipow(103, 1) == 103) by {
        reveal_with_fuel(ipow, 2);
    }
    lemma_factor_product_step(fs, 2, 103, 1);
    assert(ipow(5, 1) == 5) by {
        reveal_with_fuel(ipow, 2);
    }
    lemma_factor_product_step(fs, 1, 5, 103);
    assert(ipow(2, 1) == 2) by {
        reveal_with_fuel(ipow, 2);
    }
    lemma_factor_product_step(fs, 0, 2, 515);
    lemma_power_1031_0();
    lemma_power_1031_1();
    lemma_power_1031_2();
    lemma_power_1031_3();
    assert forall|i: int| 0 <= i < fs.len() implies is_prime(#[trigger] fs[i].0) && pow(
        14,
        ((1031 - 1) / fs[i].0) as nat,
    ) % 1031 != 1 by {
        if i == 0 {
            assert(fs[0].0 == 2);
            assert((1031 - 1) / 2 == 515);
        } else if i == 1 {
            assert(fs[1].0 == 5);
            assert((1031 - 1) / 5 == 206);
        } else if i == 2 {
            assert(fs[2].0 == 103);
            assert((1031 - 1) / 103 == 10);
        }
    }
    lemma_lucas(1031, 14, fs);
}

/// One digit of square-and-multiply for `3^e mod 14009`.
proof fn digit_14009(e: nat, eh: nat, bit: nat, h: int, q: int, r: int)
    requires
        e == 2 * eh + bit,
        bit == 0 || bit == 1,
        eh > 0 || bit == 1,
        pow_mod(3, eh, 14009) == h,
        0 <= r < 14009,
        bit == 0 ==> h * h == 14009 * q + r,
        bit == 1 ==> h * h * 3 == 14009 * q + r,
    ensures
        pow_mod(3, e, 14009) == r,
{
    lemma_pow_mod_digit(3, 14009, e, eh, bit, h, q, r);
}

/// `3^14008 mod 14009`.
proof fn lemma_power_14009_0()
    ensures
        pow(3, 14008) % 14009 == 1,
{
    lemma_pow_mod_base(3, 14009);
    digit_14009(1, 0, 1, 1, 0int, 3);
    digit_14009(3, 1, 1, 3, 0int, 27);
    digit_14009(6, 3, 0, 27, 0int, 729);
    digit_14009(13, 6, 1, 729, 113int, 11306);
    digit_14009(27, 13, 1, 11306, 27373int, 8551);
    digit_14009(54, 27, 0, 8551, 5219int, 6630);
    digit_14009(109, 54, 1, 6630, 9413int, 3983);
    digit_14009(218, 109, 0, 3983, 1132int, 6101);
    digit_14009(437, 218, 1, 6101, 7971int, 864);
    digit_14009(875, 437, 1, 864, 159int, 12057);
    digit_14009(1751, 875, 1, 12057, 31130int, 13577);
    digit_14009(3502, 1751, 0, 13577, 13158int, 4507);
    digit_14009(7004, 3502, 0, 4507, 1449int, 14008);
    digit_14009(14008, 7004, 0, 14008, 14007int, 1);
    lemma_pow_mod_is_pow(3, 14008, 14009);
}

/// `3^7004 mod 14009`.
proof fn lemma_power_14009_1()
    ensures
        pow(3, 7004) % 14009 == 14008,
{
    lemma_pow_mod_base(3, 14009);
    digit_14009(1, 0, 1, 1, 0int, 3);
    digit_14009(3, 1, 1, 3, 0int, 27);
    digit_14009(6, 3, 0, 27, 0int, 729);
    digit_14009(13, 6, 1, 729, 113int, 11306);
    digit_14009(27, 13, 1, 11306, 27373int, 8551);
    digit_14009(54, 27, 0, 8551, 5219int, 6630);
    digit_14009(109, 54, 1, 6630, 9413int, 3983);
    digit_14009(218, 109, 0, 3983, 1132int, 6101);
    digit_14009(437, 218, 1, 6101, 7971int, 864);
    digit_14009(875, 437, 1, 864, 159int, 12057);
    digit_14009(1751, 875, 1, 12057, 31130int, 13577);
    digit_14009(3502, 1751, 0, 13577, 13158int, 4507);
    digit_14009(7004, 3502, 0, 4507, 1449int, 14008);
    lemma_pow_mod_is_pow(3, 7004, 14009);
}

/// `3^824 mod 14009`.
proof fn lemma_power_14009_2()
    ensures
        pow(3, 824) % 14009 == 12429,
{
    lemma_pow_mod_base(3, 14009);
    digit_14009(1, 0, 1, 1, 0int, 3);
    digit_14009(3, 1, 1, 3, 0int, 27);
    digit_14009(6, 3, 0, 27, 0int, 729);
    digit_14009(12, 6, 0, 729, 37int, 13108);
    digit_14009(25, 12, 1, 13108, 36794int, 11846);
    digit_14009(51, 25, 1, 11846, 30050int, 12698);
    digit_14009(103, 51, 1, 12698, 34529int, 851);
    digit_14009(206, 103, 0, 851, 51int, 9742);
    digit_14009(412, 206, 0, 9742, 6774int, 9598);
    digit_14009(824, 412, 0, 9598, 6575int, 12429);
    lemma_pow_mod_is_pow(3, 824, 14009);
}

/// `3^136 mod 14009`.
proof fn lemma_power_14009_3()
    ensures
        pow(3, 136) % 14009 == 2754,
{
    lemma_pow_mod_base(3, 14009);
    digit_14009(1, 0, 1, 1, 0int, 3);
    digit_14009(2, 1, 0, 3, 0int, 9);
    digit_14009(4, 2, 0, 9, 0int, 81);
    digit_14009(8, 4, 0, 81, 0int, 6561);
    digit_14009(17, 8, 1, 6561, 9218int, 5201);
    digit_14009(34, 17, 0, 5201, 1930int, 13031);
    digit_14009(68, 34, 0, 13031, 12121int, 3872);
    digit_14009(136, 68, 0, 3872, 1070int, 2754);
    lemma_pow_mod_is_pow(3, 136, 14009);
}

/// 14009 is prime, with witness 3.
pub proof fn lemma_prime_14009()
    ensures
        is_prime(14009),
{
    lemma_prime_2();
    lemma_prime_17();
    lemma_prime_103();
    let fs: Seq<(int, nat)> = seq![(2int, 3nat), (17int, 1nat), (103int, 1nat)];
    lemma_factor_product_end(fs);
    assert(ipow(103, 1) == 103) by {
        reveal_with_fuel(ipow, 2);
    }
    lemma_factor_product_step(fs, 2, 103, 1);
    assert(ipow(17, 1) == 17) by {
        reveal_with_fuel(ipow, 2);
    }
    lemma_factor_product_step(fs, 1, 17, 103);
    assert(ipow(2, 3) == 8) by {
        reveal_with_fuel(ipow, 4);
    }
    lemma_factor_product_step(fs, 0, 8, 1751);
    lemma_power_14009_0();
    lemma_power_14009_1();
    lemma_power_14009_2();
    lemma_power_14009_3();
    assert forall|i: int| 0 <= i < fs.len() implies is_prime(#[trigger] fs[i].0) && pow(
        3,
        ((14009 - 1) / fs[i].0) as nat,
    ) % 14009 != 1 by {
        if i == 0 {
            assert(fs[0].0 == 2);
            assert((14009 - 1) / 2 == 7004);
        } else if i == 1 {
            assert(fs[1].0 == 17);
            assert((14009 - 1) / 17 == 824);
        } else if i == 2 {
            assert(fs[2].0 == 103);
            assert((14009 - 1) / 103 == 136);
        }
    }
    lemma_lucas(14009, 3, fs);
}

/// One digit of square-and-multiply for `2^e mod 28019`.
proof fn digit_28019(e: nat, eh: nat, bit: nat, h: int, q: int, r: int)
    requires
        e == 2 * eh + bit,
        bit == 0 || bit == 1,
        eh > 0 || bit == 1,
        pow_mod(2, eh, 28019) == h,
        0 <= r < 28019,
        bit == 0 ==> h * h == 28019 * q + r,
        bit == 1 ==> h * h * 2 == 28019 * q + r,
    ensures
        pow_mod(2, e, 28019) == r,
{
    lemma_pow_mod_digit(2, 28019, e, eh, bit, h, q, r);
}

/// `2^28018 mod 28019`.
proof fn lemma_power_28019_0()
    ensures
        pow(2, 28018) % 28019 == 1,
{
    lemma_pow_mod_base(2, 28019);
    digit_28019(1, 0, 1, 1, 0int, 2);
    digit_28019(3, 1, 1, 2, 0int, 8);
    digit_28019(6, 3, 0, 8, 0int, 64);
    digit_28019(13, 6, 1, 64, 0int, 8192);
    digit_28019(27, 13, 1, 8192, 4790int, 6718);
    digit_28019(54, 27, 0, 6718, 1610int, 20934);
    digit_28019(109, 54, 1, 20934, 31281int, 2373);
    digit_28019(218, 109, 0, 2373, 200int, 27329);
    digit_28019(437, 218, 1, 27329, 53311int, 27573);
    digit_28019(875, 437, 1, 27573, 54268int, 5566);
    digit_28019(1751, 875, 1, 5566, 2211int, 10703);
    digit_28019(3502, 1751, 0, 10703, 4088int, 12537);
    digit_28019(7004, 3502, 0, 12537, 5609int, 17798);
    digit_28019(14009, 7004, 1, 17798, 22610int, 28018);
    digit_28019(28018, 14009, 0, 28018, 28017int, 1);
    lemma_pow_mod_is_pow(2, 28018, 28019);
}

/// `2^14009 mod 28019`.
proof fn lemma_power_28019_1()
    ensures
        pow(2, 14009) % 28019 == 28018,
{
    lemma_pow_mod_base(2, 28019);
    digit_28019(1, 0, 1, 1, 0int, 2);
    digit_28019(3, 1, 1, 2, 0int, 8);
    digit_28019(6, 3, 0, 8, 0int, 64);
    digit_28019(13, 6, 1, 64, 0int, 8192);
    digit_28019(27, 13, 1, 8192, 4790int, 6718);
    digit_28019(54, 27, 0, 6718, 1610int, 20934);
    digit_28019(109, 54, 1, 20934, 31281int, 2373);
    digit_28019(218, 109, 0, 2373, 200int, 27329);
    digit_28019(437, 218, 1, 27329, 53311int, 27573);
    digit_28019(875, 437, 1, 27573, 54268int, 5566);
    digit_28019(1751, 875, 1, 5566, 2211int, 10703);
    digit_28019(3502, 1751, 0, 10703, 4088int, 12537);
    digit_28019(7004, 3502, 0, 12537, 5609int, 17798);
    digit_28019(14009, 7004, 1, 17798, 22610int, 28018);
    lemma_pow_mod_is_pow(2, 14009, 28019);
}

/// `2^2 mod 28019`.
proof fn lemma_power_28019_2()
    ensures
        pow(2, 2) % 28019 == 4,
{
    lemma_pow_mod_base(2, 28019);
    digit_28019(1, 0, 1, 1, 0int, 2);
    digit_28019(2, 1, 0, 2, 0int, 4);
    lemma_pow_mod_is_pow(2, 2, 28019);
}

/// 28019 is prime, with witness 2.
pub proof fn lemma_prime_28019()
    ensures
        is_prime(28019),
{
    lemma_prime_2();
    lemma_prime_14009();
    let fs: Seq<(int, nat)> = seq![(2int, 1nat), (14009int, 1nat)];
    lemma_factor_product_end(fs);
    assert(ipow(14009, 1) == 14009) by {
        reveal_with_fuel(ipow, 2);
    }
    lemma_factor_product_step(fs, 1, 14009, 1);
    assert(ipow(2, 1) == 2) by {
        reveal_with_fuel(ipow, 2);
    }
    lemma_factor_product_step(fs, 0, 2, 14009);
    lemma_power_28019_0();
    lemma_power_28019_1();
    lemma_power_28019_2();
    assert forall|i: int| 0 <= i < fs.len() implies is_prime(#[trigger] fs[i].0) && pow(
        2,
        ((28019 - 1) / fs[i].0) as nat,
    ) % 28019 != 1 by {
        if i == 0 {
            assert(fs[0].0 == 2);
            assert((28019 - 1) / 2 == 14009);
        } else if i == 1 {
            assert(fs[1].0 == 14009);
            assert((28019 - 1) / 14009 == 2);
        }
    }
    lemma_lucas(28019, 2, fs);
}

/// One digit of square-and-multiply for `7^e mod 56039`.
proof fn digit_56039(e: nat, eh: nat, bit: nat, h: int, q: int, r: int)
    requires
        e == 2 * eh + bit,
        bit == 0 || bit == 1,
        eh > 0 || bit == 1,
        pow_mod(7, eh, 56039) == h,
        0 <= r < 56039,
        bit == 0 ==> h * h == 56039 * q + r,
        bit == 1 ==> h * h * 7 == 56039 * q + r,
    ensures
        pow_mod(7, e, 56039) == r,
{
    lemma_pow_mod_digit(7, 56039, e, eh, bit, h, q, r);
}

/// `7^56038 mod 56039`.
proof fn lemma_power_56039_0()
    ensures
        pow(7, 56038) % 56039 == 1,
{
    lemma_pow_mod_base(7, 56039);
    digit_56039(1, 0, 1, 1, 0int, 7);
    digit_56039(3, 1, 1, 7, 0int, 343);
    digit_56039(6, 3, 0, 343, 2int, 5571);
    digit_56039(13, 6, 1, 5571, 3876int, 45123);
    digit_56039(27, 13, 1, 45123, 254333int, 28916);
    digit_56039(54, 27, 0, 28916, 14920int, 33176);
    digit_56039(109, 54, 1, 33176, 137485int, 6917);
    digit_56039(218, 109, 0, 6917, 853int, 43622);
    digit_56039(437, 218, 1, 43622, 237694int, 18122);
    digit_56039(875, 437, 1, 18122, 41022int, 16330);
    digit_56039(1751, 875, 1, 16330, 33310int, 23210);
    digit_56039(3502, 1751, 0, 23210, 9613int, 1193);
    digit_56039(7004, 3502, 0, 1193, 25int, 22274);
    digit_56039(14009, 7004, 1, 22274, 61973int, 12585);
    digit_56039(28019, 14009, 1, 12585, 19783int, 56038);
    digit_56039(56038, 28019, 0, 56038, 56037int, 1);
    lemma_pow_mod_is_pow(7, 56038, 56039);
}

/// `7^28019 mod 56039`.
proof fn lemma_power_56039_1()
    ensures
        pow(7, 28019) % 56039 == 56038,
{
    lemma_pow_mod_base(7, 56039);
    digit_56039(1, 0, 1, 1, 0int, 7);
    digit_56039(3, 1, 1, 7, 0int, 343);
    digit_56039(6, 3, 0, 343, 2int, 5571);
    digit_56039(13, 6, 1, 5571, 3876int, 45123);
    digit_56039(27, 13, 1, 45123, 254333int, 28916);
    digit_56039(54, 27, 0, 28916, 14920int, 33176);
    digit_56039(109, 54, 1, 33176, 137485int, 6917);
    digit_56039(218, 109, 0, 6917, 853int, 43622);
    digit_56039(437, 218, 1, 43622, 237694int, 18122);
    digit_56039(875, 437, 1, 18122, 41022int, 16330);
    digit_56039(1751, 875, 1, 16330, 33310int, 23210);
    digit_56039(3502, 1751, 0, 23210, 9613int, 1193);
    digit_56039(7004, 3502, 0, 1193, 25int, 22274);
    digit_56039(14009, 7004, 1, 22274, 61973int, 12585);
    digit_56039(28019, 14009, 1, 12585, 19783int, 56038);
    lemma_pow_mod_is_pow(7, 28019, 56039);
}

/// `7^2 mod 56039`.
proof fn lemma_power_56039_2()
    ensures
        pow(7, 2) % 56039 == 49,
{
    lemma_pow_mod_base(7, 56039);
    digit_56039(1, 0, 1, 1, 0int, 7);
    digit_56039(2, 1, 0, 7, 0int, 49);
    lemma_pow_mod_is_pow(7, 2, 56039);
}

/// 56039 is prime, with witness 7.
pub proof fn lemma_prime_56039()
    ensures
        is_prime(56039),
{
    lemma_prime_2();
    lemma_prime_28019();
    let fs: Seq<(int, nat)> = seq![(2int, 1nat), (28019int, 1nat)];
    lemma_factor_product_end(fs);
    assert(ipow(28019, 1) == 28019) by {
        reveal_with_fuel(ipow, 2);
    }
    lemma_factor_product_step(fs, 1, 28019, 1);
    assert(ipow(2, 1) == 2) by {
        reveal_with_fuel(ipow, 2);
    }
    lemma_factor_product_step(fs, 0, 2, 28019);
    lemma_power_56039_0();
    lemma_power_56039_1();
    lemma_power_56039_2();
    assert forall|i: int| 0 <= i < fs.len() implies is_prime(#[trigger] fs[i].0) && pow(
        7,
        ((56039 - 1) / fs[i].0) as nat,
    ) % 56039 != 1 by {
        if i == 0 {
            assert(fs[0].0 == 2);
            assert((56039 - 1) / 2 == 28019);
        } else if i == 1 {
            assert(fs[1].0 == 28019);
            assert((56039 - 1) / 28019 == 2);
        }
    }
    lemma_lucas(56039, 7, fs);
}

/// One digit of square-and-multiply for `10^e mod 105503`.
proof fn digit_105503(e: nat, eh: nat, bit: nat, h: int, q: int, r: int)
    requires
        e == 2 * eh + bit,
        bit == 0 || bit == 1,
        eh > 0 || bit == 1,
        pow_mod(10, eh, 105503) == h,
        0 <= r < 105503,
        bit == 0 ==> h * h == 105503 * q + r,
        bit == 1 ==> h * h * 10 == 105503 * q + r,
    ensures
        pow_mod(10, e, 105503) == r,
{
    lemma_pow_mod_digit(10, 105503, e, eh, bit, h, q, r);
}

/// `10^105502 mod 105503`.
proof fn lemma_power_105503_0()
    ensures
        pow(10, 105502) % 105503 == 1,
{
    lemma_pow_mod_base(10, 105503);
    digit_105503(1, 0, 1, 1, 0int, 10);
    digit_105503(3, 1, 1, 10, 0int, 1000);
    digit_105503(6, 3, 0, 1000, 9int, 50473);
    digit_105503(12, 6, 0, 50473, 24146int, 48291);
    digit_105503(25, 12, 1, 48291, 221038int, 34696);
    digit_105503(51, 25, 1, 34696, 114102int, 20854);
    digit_105503(103, 51, 1, 20854, 41220int, 59500);
    digit_105503(206, 103, 0, 59500, 33555int, 96835);
    digit_105503(412, 206, 0, 96835, 88879int, 16088);
    digit_105503(824, 412, 0, 16088, 2453int, 24885);
    digit_105503(1648, 824, 0, 24885, 5869int, 66118);
    digit_105503(3296, 1648, 0, 66118, 41435int, 73119);
    digit_105503(6593, 3296, 1, 73119, 506752int, 25354);
    digit_105503(13187, 6593, 1, 25354, 60929int, 60873);
    digit_105503(26375, 13187, 1, 60873, 351224int, 35618);
    digit_105503(52751, 26375, 1, 35618, 120246int, 105502);
    digit_105503(105502, 52751, 0, 105502, 105501int, 1);
    lemma_pow_mod_is_pow(10, 105502, 105503);
}

/// `10^52751 mod 105503`.
proof fn lemma_power_105503_1()
    ensures
        pow(10, 52751) % 105503 == 105502,
{
    lemma_pow_mod_base(10, 105503);
    digit_105503(1, 0, 1, 1, 0int, 10);
    digit_105503(3, 1, 1, 10, 0int, 1000);
    digit_105503(6, 3, 0, 1000, 9int, 50473);
    digit_105503(12, 6, 0, 50473, 24146int, 48291);
    digit_105503(25, 12, 1, 48291, 221038int, 34696);
    digit_105503(51, 25, 1, 34696, 114102int, 20854);
    digit_105503(103, 51, 1, 20854, 41220int, 59500);
    digit_105503(206, 103, 0, 59500, 33555int, 96835);
    digit_105503(412, 206, 0, 96835, 88879int, 16088);
    digit_105503(824, 412, 0, 16088, 2453int, 24885);
    digit_105503(1648, 824, 0, 24885, 5869int, 66118);
    digit_105503(3296, 1648, 0, 66118, 41435int, 73119);
    digit_105503(6593, 3296, 1, 73119, 506752int, 25354);
    digit_105503(13187, 6593, 1, 25354, 60929int, 60873);
    digit_105503(26375, 13187, 1, 60873, 351224int, 35618);
    digit_105503(52751, 26375, 1, 35618, 120246int, 105502);
    lemma_pow_mod_is_pow(10, 52751, 105503);
}

/// `10^6206 mod 105503`.
proof fn lemma_power_105503_2()
    ensures
        pow(10, 6206) % 105503 == 82170,
{
    lemma_pow_mod_base(10, 105503);
    digit_105503(1, 0, 1, 1, 0int, 10);
    digit_105503(3, 1, 1, 10, 0int, 1000);
    digit_105503(6, 3, 0, 1000, 9int, 50473);
    digit_105503(12, 6, 0, 50473, 24146int, 48291);
    digit_105503(24, 12, 0, 48291, 22103int, 87872);
    digit_105503(48, 24, 0, 87872, 73187int, 40323);
    digit_105503(96, 48, 0, 40323, 15411int, 37596);
    digit_105503(193, 96, 1, 37596, 133973int, 38741);
    digit_105503(387, 193, 1, 38741, 142258int, 5036);
    digit_105503(775, 387, 1, 5036, 2403int, 89251);
    digit_105503(1551, 775, 1, 89251, 755025int, 7435);
    digit_105503(3103, 1551, 1, 7435, 5239int, 62033);
    digit_105503(6206, 3103, 0, 62033, 36473int, 82170);
    lemma_pow_mod_is_pow(10, 6206, 105503);
}

/// `10^3638 mod 105503`.
proof fn lemma_power_105503_3()
    ensures
        pow(10, 3638) % 105503 == 10057,
{
    lemma_pow_mod_base(10, 105503);
    digit_105503(1, 0, 1, 1, 0int, 10);
    digit_105503(3, 1, 1, 10, 0int, 1000);
    digit_105503(7, 3, 1, 1000, 94int, 82718);
    digit_105503(14, 7, 0, 82718, 64853int, 81465);
    digit_105503(28, 14, 0, 81465, 62903int, 91016);
    digit_105503(56, 28, 0, 91016, 78518int, 27702);
    digit_105503(113, 56, 1, 27702, 72737int, 36329);
    digit_105503(227, 113, 1, 36329, 125095int, 64625);
    digit_105503(454, 227, 0, 64625, 39585int, 54370);
    digit_105503(909, 454, 1, 54370, 280190int, 83430);
    digit_105503(1819, 909, 1, 83430, 659750int, 44750);
    digit_105503(3638, 1819, 0, 44750, 18981int, 10057);
    lemma_pow_mod_is_pow(10, 3638, 105503);
}

/// `10^986 mod 105503`.
proof fn lemma_power_105503_4()
    ensures
        pow(10, 986) % 105503 == 70051,
{
    lemma_pow_mod_base(10, 105503);
    digit_105503(1, 0, 1, 1, 0int, 10);
    digit_105503(3, 1, 1, 10, 0int, 1000);
    digit_105503(7, 3, 1, 1000, 94int, 82718);
    digit_105503(15, 7, 1, 82718, 648537int, 76129);
    digit_105503(30, 15, 0, 76129, 54933int, 28342);
    digit_105503(61, 30, 1, 28342, 76137int, 7729);
    digit_105503(123, 61, 1, 7729, 5662int, 16424);
    digit_105503(246, 123, 0, 16424, 2556int, 82108);
    digit_105503(493, 246, 1, 82108, 639007int, 81119);
    digit_105503(986, 493, 0, 81119, 62370int, 70051);
    lemma_pow_mod_is_pow(10, 986, 105503);
}

/// 105503 is prime, with witness 10.
pub proof fn lemma_prime_105503()
    ensures
        is_prime(105503),
{
    lemma_prime_2();
    lemma_prime_17();
    lemma_prime_29();
    lemma_prime_107();
    let fs: Seq<(int, nat)> = seq![(2int, 1nat), (17int, 1nat), (29int, 1nat), (107int, 1nat)];
    lemma_factor_product_end(fs);
    assert(ipow(107, 1) == 107) by {
        reveal_with_fuel(ipow, 2);
    }
    lemma_factor_product_step(fs, 3, 107, 1);
    assert(ipow(29, 1) == 29) by {
        reveal_with_fuel(ipow, 2);
    }
    lemma_factor_product_step(fs, 2, 29, 107);
    assert(ipow(17, 1) == 17) by {
        reveal_with_fuel(ipow, 2);
    }
    lemma_factor_product_step(fs, 1, 17, 3103);
    assert(ipow(2, 1) == 2) by {
        reveal_with_fuel(ipow, 2);
    }
    lemma_factor_product_step(fs, 0, 2, 52751);
    lemma_power_105503_0();
    lemma_power_105503_1();
    lemma_power_105503_2();
    lemma_power_105503_3();
    lemma_power_105503_4();
    assert forall|i: int| 0 <= i < fs.len() implies is_prime(#[trigger] fs[i].0) && pow(
        10,
        ((105503 - 1) / fs[i].0) as nat,
    ) % 105503 != 1 by {
        if i == 0 {
            assert(fs[0].0 == 2);
            assert((105503 - 1) / 2 == 52751);
        } else if i == 1 {
            assert(fs[1].0 == 17);
            assert((105503 - 1) / 17 == 6206);
        } else if i == 2 {
            assert(fs[2].0 == 29);
            assert((105503 - 1) / 29 == 3638);
        } else if i == 3 {
            assert(fs[3].0 == 107);
            assert((105503 - 1) / 107 == 986);
        }
    }
    lemma_lucas(105503, 10, fs);
}

/// One digit of square-and-multiply for `5^e mod 211007`.
proof fn digit_211007(e: nat, eh: nat, bit: nat, h: int, q: int, r: int)
    requires
        e == 2 * eh + bit,
        bit == 0 || bit == 1,
        eh > 0 || bit == 1,
        pow_mod(5, eh, 211007) == h,
        0 <= r < 211007,
        bit == 0 ==> h * h == 211007 * q + r,
        bit == 1 ==> h * h * 5 == 211007 * q + r,
    ensures
        pow_mod(5, e, 211007) == r,
{
    lemma_pow_mod_digit(5, 211007, e, eh, bit, h, q, r);
}

/// `5^211006 mod 211007`.
proof fn lemma_power_211007_0()
    ensures
        pow(5, 211006) % 211007 == 1,
{
    lemma_pow_mod_base(5, 211007);
    digit_211007(1, 0, 1, 1, 0int, 5);
    digit_211007(3, 1, 1, 5, 0int, 125);
    digit_211007(6, 3, 0, 125, 0int, 15625);
    digit_211007(12, 6, 0, 15625, 1157int, 5526);
    digit_211007(25, 12, 1, 5526, 723int, 125319);
    digit_211007(51, 25, 1, 125319, 372140int, 113825);
    digit_211007(103, 51, 1, 113825, 307007int, 27076);
    digit_211007(206, 103, 0, 27076, 3474int, 71458);
    digit_211007(412, 206, 0, 71458, 24199int, 87371);
    digit_211007(824, 412, 0, 87371, 36177int, 91402);
    digit_211007(1648, 824, 0, 91402, 39592int, 136460);
    digit_211007(3296, 1648, 0, 136460, 88249int, 174857);
    digit_211007(6593, 3296, 1, 174857, 724501int, 69738);
    digit_211007(13187, 6593, 1, 69738, 115242int, 74526);
    digit_211007(26375, 13187, 1, 74526, 131609int, 203117);
    digit_211007(52751, 26375, 1, 203117, 977610int, 25175);
    digit_211007(105503, 52751, 1, 25175, 15017int, 211006);
    digit_211007(211006, 105503, 0, 211006, 211005int, 1);
    lemma_pow_mod_is_pow(5, 211006, 211007);
}

/// `5^105503 mod 211007`.
proof fn lemma_power_211007_1()
    ensures
        pow(5, 105503) % 211007 == 211006,
{
    lemma_pow_mod_base(5, 211007);
    digit_211007(1, 0, 1, 1, 0int, 5);
    digit_211007(3, 1, 1, 5, 0int, 125);
    digit_211007(6, 3, 0, 125, 0int, 15625);
    digit_211007(12, 6, 0, 15625, 1157int, 5526);
    digit_211007(25, 12, 1, 5526, 723int, 125319);
    digit_211007(51, 25, 1, 125319, 372140int, 113825);
    digit_211007(103, 51, 1, 113825, 307007int, 27076);
    digit_211007(206, 103, 0, 27076, 3474int, 71458);
    digit_211007(412, 206, 0, 71458, 24199int, 87371);
    digit_211007(824, 412, 0, 87371, 36177int, 91402);
    digit_211007(1648, 824, 0, 91402, 39592int, 136460);
    digit_211007(3296, 1648, 0, 136460, 88249int, 174857);
    digit_211007(6593, 3296, 1, 174857, 724501int, 69738);
    digit_211007(13187, 6593, 1, 69738, 115242int, 74526);
    digit_211007(26375, 13187, 1, 74526, 131609int, 203117);
    digit_211007(52751, 26375, 1, 203117, 977610int, 25175);
    digit_211007(105503, 52751, 1, 25175, 15017int, 211006);
    lemma_pow_mod_is_pow(5, 105503, 211007);
}

/// `5^2 mod 211007`.
proof fn lemma_power_211007_2()
    ensures
        pow(5, 2) % 211007 == 25,
{
    lemma_pow_mod_base(5, 211007);
    digit_211007(1, 0, 1, 1, 0int, 5);
    digit_211007(2, 1, 0, 5, 0int, 25);
    lemma_pow_mod_is_pow(5, 2, 211007);
}

/// 211007 is prime, with witness 5.
pub proof fn lemma_prime_211007()
    ensures
        is_prime(211007),
{
    lemma_prime_2();
    lemma_prime_105503();
    let fs: Seq<(int, nat)> = seq![(2int, 1nat), (105503int, 1nat)];
    lemma_factor_product_end(fs);
    assert(ipow(105503, 1) == 105503) by {
        reveal_with_fuel(ipow, 2);
    }
    lemma_factor_product_step(fs, 1, 105503, 1);
    assert(ipow(2, 1) == 2) by {
        reveal_with_fuel(ipow, 2);
    }
    lemma_factor_product_step(fs, 0, 2, 105503);
    lemma_power_211007_0();
    lemma_power_211007_1();
    lemma_power_211007_2();
    assert forall|i: int| 0 <= i < fs.len() implies is_prime(#[trigger] fs[i].0) && pow(
        5,
        ((211007 - 1) / fs[i].0) as nat,
    ) % 211007 != 1 by {
        if i == 0 {
            assert(fs[0].0 == 2);
            assert((211007 - 1) / 2 == 105503);
        } else if i == 1 {
            assert(fs[1].0 == 105503);
            assert((211007 - 1) / 105503 == 2);
        }
    }
    lemma_lucas(211007, 5, fs);
}

/// One digit of square-and-multiply for `2^e mod 286619`.
proof fn digit_286619(e: nat, eh: nat, bit: nat, h: int, q: int, r: int)
    requires
        e == 2 * eh + bit,
        bit == 0 || bit == 1,
        eh > 0 || bit == 1,
        pow_mod(2, eh, 286619) == h,
        0 <= r < 286619,
        bit == 0 ==> h * h == 286619 * q + r,
        bit == 1 ==> h * h * 2 == 286619 * q + r,
    ensures
        pow_mod(2, e, 286619) == r,
{
    lemma_pow_mod_digit(2, 286619, e, eh, bit, h, q, r);
}

/// `2^286618 mod 286619`.
proof fn lemma_power_286619_0()
    ensures
        pow(2, 286618) % 286619 == 1,
{
    lemma_pow_mod_base(2, 286619);
    digit_286619(1, 0, 1, 1, 0int, 2);
    digit_286619(2, 1, 0, 2, 0int, 4);
    digit_286619(4, 2, 0, 4, 0int, 16);
    digit_286619(8, 4, 0, 16, 0int, 256);
    digit_286619(17, 8, 1, 256, 0int, 131072);
    digit_286619(34, 17, 0, 131072, 59939int, 212943);
    digit_286619(69, 34, 1, 212943, 316411int, 38089);
    digit_286619(139, 69, 1, 38089, 10123int, 99705);
    digit_286619(279, 139, 1, 99705, 69367int, 273877);
    digit_286619(559, 279, 1, 273877, 523402int, 264420);
    digit_286619(1119, 559, 1, 264420, 487880int, 195080);
    digit_286619(2239, 1119, 1, 195080, 265552int, 164112);
    digit_286619(4478, 2239, 0, 164112, 93967int, 20971);
    digit_286619(8956, 4478, 0, 20971, 1534int, 109295);
    digit_286619(17913, 8956, 1, 109295, 83353int, 240543);
    digit_286619(35827, 17913, 1, 240543, 403748int, 21686);
    digit_286619(71654, 35827, 0, 21686, 1640int, 227436);
    digit_286619(143309, 71654, 1, 227436, 360946int, 286618);
    digit_286619(286618, 143309, 0, 286618, 286617int, 1);
    lemma_pow_mod_is_pow(2, 286618, 286619);
}

/// `2^143309 mod 286619`.
proof fn lemma_power_286619_1()
    ensures
        pow(2, 143309) % 286619 == 286618,
{
    lemma_pow_mod_base(2, 286619);
    digit_286619(1, 0, 1, 1, 0int, 2);
    digit_286619(2, 1, 0, 2, 0int, 4);
    digit_286619(4, 2, 0, 4, 0int, 16);
    digit_286619(8, 4, 0, 16, 0int, 256);
    digit_286619(17, 8, 1, 256, 0int, 131072);
    digit_286619(34, 17, 0, 131072, 59939int, 212943);
    digit_286619(69, 34, 1, 212943, 316411int, 38089);
    digit_286619(139, 69, 1, 38089, 10123int, 99705);
    digit_286619(279, 139, 1, 99705, 69367int, 273877);
    digit_286619(559, 279, 1, 273877, 523402int, 264420);
    digit_286619(1119, 559, 1, 264420, 487880int, 195080);
    digit_286619(2239, 1119, 1, 195080, 265552int, 164112);
    digit_286619(4478, 2239, 0, 164112, 93967int, 20971);
    digit_286619(8956, 4478, 0, 20971, 1534int, 109295);
    digit_286619(17913, 8956, 1, 109295, 83353int, 240543);
    digit_286619(35827, 17913, 1, 240543, 403748int, 21686);
    digit_286619(71654, 35827, 0, 21686, 1640int, 227436);
    digit_286619(143309, 71654, 1, 227436, 360946int, 286618);
    lemma_pow_mod_is_pow(2, 143309, 286619);
}

/// `2^2062 mod 286619`.
proof fn lemma_power_286619_2()
    ensures
        pow(2, 2062) % 286619 == 251416,
{
    lemma_pow_mod_base(2, 286619);
    digit_286619(1, 0, 1, 1, 0int, 2);
    digit_286619(2, 1, 0, 2, 0int, 4);
    digit_286619(4, 2, 0, 4, 0int, 16);
    digit_286619(8, 4, 0, 16, 0int, 256);
    digit_286619(16, 8, 0, 256, 0int, 65536);
    digit_286619(32, 16, 0, 65536, 14984int, 268200);
    digit_286619(64, 32, 0, 268200, 250964int, 189284);
    digit_286619(128, 64, 0, 189284, 125003int, 197799);
    digit_286619(257, 128, 1, 197799, 273006int, 182088);
    digit_286619(515, 257, 1, 182088, 231359int, 194267);
    digit_286619(1031, 515, 1, 194267, 263343int, 227261);
    digit_286619(2062, 1031, 0, 227261, 180195int, 251416);
    lemma_pow_mod_is_pow(2, 2062, 286619);
}

/// `2^278 mod 286619`.
proof fn lemma_power_286619_3()
    ensures
        pow(2, 278) % 286619 == 280248,
{
    lemma_pow_mod_base(2, 286619);
    digit_286619(1, 0, 1, 1, 0int, 2);
    digit_286619(2, 1, 0, 2, 0int, 4);
    digit_286619(4, 2, 0, 4, 0int, 16);
    digit_286619(8, 4, 0, 16, 0int, 256);
    digit_286619(17, 8, 1, 256, 0int, 131072);
    digit_286619(34, 17, 0, 131072, 59939int, 212943);
    digit_286619(69, 34, 1, 212943, 316411int, 38089);
    digit_286619(139, 69, 1, 38089, 10123int, 99705);
    digit_286619(278, 139, 0, 99705, 34683int, 280248);
    lemma_pow_mod_is_pow(2, 278, 286619);
}

/// 286619 is prime, with witness 2.
pub proof fn lemma_prime_286619()
    ensures
        is_prime(286619),
{
    lemma_prime_2();
    lemma_prime_139();
    lemma_prime_1031();
    let fs: Seq<(int, nat)> = seq![(2int, 1nat), (139int, 1nat), (1031int, 1nat)];
    lemma_factor_product_end(fs);
    assert(ipow(1031, 1) == 1031) by {
        reveal_with_fuel(ipow, 2);
    }
    lemma_factor_product_step(fs, 2, 1031, 1);
    assert(ipow(139, 1) == 139) by {
        reveal_with_fuel(ipow, 2);
    }
    lemma_factor_product_step(fs, 1, 139, 1031);
    assert(ipow(2, 1) == 2) by {
        reveal_with_fuel(ipow, 2);
    }
    lemma_factor_product_step(fs, 0, 2, 143309);
    lemma_power_286619_0();
    lemma_power_286619_1();
    lemma_power_286619_2();
    lemma_power_286619_3();
    assert forall|i: int| 0 <= i < fs.len() implies is_prime(#[trigger] fs[i].0) && pow(
        2,
        ((286619 - 1) / fs[i].0) as nat,
    ) % 286619 != 1 by {
        if i == 0 {
            assert(fs[0].0 == 2);
            assert((286619 - 1) / 2 == 143309);
        } else if i == 1 {
            assert(fs[1].0 == 139);
            assert((286619 - 1) / 139 == 2062);
        } else if i == 2 {
            assert(fs[2].0 == 1031);
            assert((286619 - 1) / 1031 == 278);
        }
    }
    lemma_lucas(286619, 2, fs);
}

/// One digit of square-and-multiply for `2^e mod 11394379`.
proof fn digit_11394379(e: nat, eh: nat, bit: nat, h: int, q: int, r: int)
    requires
        e == 2 * eh + bit,
        bit == 0 || bit == 1,
        eh > 0 || bit == 1,
        pow_mod(2, eh, 11394379) == h,
        0 <= r < 11394379,
        bit == 0 ==> h * h == 11394379 * q + r,
        bit == 1 ==> h * h * 2 == 11394379 * q + r,
    ensures
        pow_mod(2, e, 11394379) == r,
{
    lemma_pow_mod_digit(2, 11394379, e, eh, bit, h, q, r);
}

/// `2^11394378 mod 11394379`.
proof fn lemma_power_11394379_0()
    ensures
        pow(2, 11394378) % 11394379 == 1,
{
    lemma_pow_mod_base(2, 11394379);
    digit_11394379(1, 0, 1, 1, 0int, 2);
    digit_11394379(2, 1, 0, 2, 0int, 4);
    digit_11394379(5, 2, 1, 4, 0int, 32);
    digit_11394379(10, 5, 0, 32, 0int, 1024);
    digit_11394379(21, 10, 1, 1024, 0int, 2097152);
    digit_11394379(43, 21, 1, 2097152, 771967int, 8448715);
    digit_11394379(86, 43, 0, 8448715, 6264561int, 2848606);
    digit_11394379(173, 86, 1, 2848606, 1424308int, 7121740);
    digit_11394379(347, 173, 1, 7121740, 8902491int, 4757111);
    digit_11394379(695, 347, 1, 4757111, 3972152int, 4799034);
    digit_11394379(1390, 695, 0, 4799034, 2021235int, 9695091);
    digit_11394379(2781, 1390, 1, 9695091, 16498448int, 9572770);
    digit_11394379(5563, 2781, 1, 9572770, 16084759int, 10776139);
    digit_11394379(11127, 5563, 1, 10776139, 20382887int, 3902469);
    digit_11394379(22254, 11127, 0, 3902469, 1336559int, 4494100);
    digit_11394379(44509, 22254, 1, 4494100, 3545069int, 9852849);
    digit_11394379(89018, 44509, 0, 9852849, 8519870int, 5606071);
    digit_11394379(178037, 89018, 1, 5606071, 5516409int, 9249071);
    digit_11394379(356074, 178037, 0, 9249071, 7507676int, 8609837);
    digit_11394379(712148, 356074, 0, 8609837, 6505777int, 4339086);
    digit_11394379(1424297, 712148, 1, 4339086, 3304728int, 11306880);
    digit_11394379(2848594, 1424297, 0, 11306880, 11220052int, 10446692);
    digit_11394379(5697189, 2848594, 1, 10446692, 19155650int, 11394378);
    digit_11394379(11394378, 5697189, 0, 11394378, 11394377int, 1);
    lemma_pow_mod_is_pow(2, 11394378, 11394379);
}

/// `2^5697189 mod 11394379`.
proof fn lemma_power_11394379_1()
    ensures
        pow(2, 5697189) % 11394379 == 11394378,
{
    lemma_pow_mod_base(2, 11394379);
    digit_11394379(1, 0, 1, 1, 0int, 2);
    digit_11394379(2, 1, 0, 2, 0int, 4);
    digit_11394379(5, 2, 1, 4, 0int, 32);
    digit_11394379(10, 5, 0, 32, 0int, 1024);
    digit_11394379(21, 10, 1, 1024, 0int, 2097152);
    digit_11394379(43, 21, 1, 2097152, 771967int, 8448715);
    digit_11394379(86, 43, 0, 8448715, 6264561int, 2848606);
    digit_11394379(173, 86, 1, 2848606, 1424308int, 7121740);
    digit_11394379(347, 173, 1, 7121740, 8902491int, 4757111);
    digit_11394379(695, 347, 1, 4757111, 3972152int, 4799034);
    digit_11394379(1390, 695, 0, 4799034, 2021235int, 9695091);
    digit_11394379(2781, 1390, 1, 9695091, 16498448int, 9572770);
    digit_11394379(5563, 2781, 1, 9572770, 16084759int, 10776139);
    digit_11394379(11127, 5563, 1, 10776139, 20382887int, 3902469);
    digit_11394379(22254, 11127, 0, 3902469, 1336559int, 4494100);
    digit_11394379(44509, 22254, 1, 4494100, 3545069int, 9852849);
    digit_11394379(89018, 44509, 0, 9852849, 8519870int, 5606071);
    digit_11394379(178037, 89018, 1, 5606071, 5516409int, 9249071);
    digit_11394379(356074, 178037, 0, 9249071, 7507676int, 8609837);
    digit_11394379(712148, 356074, 0, 8609837, 6505777int, 4339086);
    digit_11394379(1424297, 712148, 1, 4339086, 3304728int, 11306880);
    digit_11394379(2848594, 1424297, 0, 11306880, 11220052int, 10446692);
    digit_11394379(5697189, 2848594, 1, 10446692, 19155650int, 11394378);
    lemma_pow_mod_is_pow(2, 5697189, 11394379);
}

/// `2^3798126 mod 11394379`.
proof fn lemma_power_11394379_2()
    ensures
        pow(2, 3798126) % 11394379 == 1713396,
{
    lemma_pow_mod_base(2, 11394379);
    digit_11394379(1, 0, 1, 1, 0int, 2);
    digit_11394379(3, 1, 1, 2, 0int, 8);
    digit_11394379(7, 3, 1, 8, 0int, 128);
    digit_11394379(14, 7, 0, 128, 0int, 16384);
    digit_11394379(28, 14, 0, 16384, 23int, 6364739);
    digit_11394379(57, 28, 1, 6364739, 7110506int, 4830468);
    digit_11394379(115, 57, 1, 4830468, 4095602int, 776890);
    digit_11394379(231, 115, 1, 776890, 105939int, 7027319);
    digit_11394379(463, 231, 1, 7027319, 8667995int, 4455417);
    digit_11394379(927, 463, 1, 4455417, 3484304int, 960562);
    digit_11394379(1854, 927, 0, 960562, 80976int, 8121940);
    digit_11394379(3709, 1854, 1, 8121940, 11578675int, 7459375);
    digit_11394379(7418, 3709, 0, 7459375, 4883309int, 1870514);
    digit_11394379(14836, 7418, 0, 1870514, 307065int, 7636561);
    digit_11394379(29672, 14836, 0, 7636561, 5118055int, 5493876);
    digit_11394379(59345, 29672, 1, 5493876, 5297818int, 841730);
    digit_11394379(118691, 59345, 1, 841730, 124361int, 2418981);
    digit_11394379(237382, 118691, 0, 2418981, 513539int, 11081080);
    digit_11394379(474765, 237382, 1, 11081080, 21552790int, 10165390);
    digit_11394379(949531, 474765, 1, 10165390, 18137917int, 7135657);
    digit_11394379(1899063, 949531, 1, 7135657, 8937319int, 1713397);
    digit_11394379(3798126, 1899063, 0, 1713397, 257647int, 1713396);
    lemma_pow_mod_is_pow(2, 3798126, 11394379);
}

/// `2^54 mod 11394379`.
proof fn lemma_power_11394379_3()
    ensures
        pow(2, 54) % 11394379 == 6300998,
{
    lemma_pow_mod_base(2, 11394379);
    digit_11394379(1, 0, 1, 1, 0int, 2);
    digit_11394379(3, 1, 1, 2, 0int, 8);
    digit_11394379(6, 3, 0, 8, 0int, 64);
    digit_11394379(13, 6, 1, 64, 0int, 8192);
    digit_11394379(27, 13, 1, 8192, 11int, 8879559);
    digit_11394379(54, 27, 0, 8879559, 6919777int, 6300998);
    lemma_pow_mod_is_pow(2, 54, 11394379);
}

/// 11394379 is prime, with witness 2.
pub proof fn lemma_prime_11394379()
    ensures
        is_prime(11394379),
{
    lemma_prime_2();
    lemma_prime_3();
    lemma_prime_211007();
    let fs: Seq<(int, nat)> = seq![(2int, 1nat), (3int, 3nat), (211007int, 1nat)];
    lemma_factor_product_end(fs);
    assert(ipow(211007, 1) == 211007) by {
        reveal_with_fuel(ipow, 2);
    }
    lemma_factor_product_step(fs, 2, 211007, 1);
    assert(ipow(3, 3) == 27) by {
        reveal_with_fuel(ipow, 4);
    }
    lemma_factor_product_step(fs, 1, 27, 211007);
    assert(ipow(2, 1) == 2) by {
        reveal_with_fuel(ipow, 2);
    }
    lemma_factor_product_step(fs, 0, 2, 5697189);
    lemma_power_11394379_0();
    lemma_power_11394379_1();
    lemma_power_11394379_2();
    lemma_power_11394379_3();
    assert forall|i: int| 0 <= i < fs.len() implies is_prime(#[trigger] fs[i].0) && pow(
        2,
        ((11394379 - 1) / fs[i].0) as nat,
    ) % 11394379 != 1 by {
        if i == 0 {
            assert(fs[0].0 == 2);
            assert((11394379 - 1) / 2 == 5697189);
        } else if i == 1 {
            assert(fs[1].0 == 3);
            assert((11394379 - 1) / 3 == 3798126);
        } else if i == 2 {
            assert(fs[2].0 == 211007);
            assert((11394379 - 1) / 211007 == 54);
        }
    }
    lemma_lucas(11394379, 2, fs);
}

/// One digit of square-and-multiply for `3^e mod 19165339`.
proof fn digit_19165339(e: nat, eh: nat, bit: nat, h: int, q: int, r: int)
    requires
        e == 2 * eh + bit,
        bit == 0 || bit == 1,
        eh > 0 || bit == 1,
        pow_mod(3, eh, 19165339) == h,
        0 <= r < 19165339,
        bit == 0 ==> h * h == 19165339 * q + r,
        bit == 1 ==> h * h * 3 == 19165339 * q + r,
    ensures
        pow_mod(3, e, 19165339) == r,
{
    lemma_pow_mod_digit(3, 19165339, e, eh, bit, h, q, r);
}

/// `3^19165338 mod 19165339`.
proof fn lemma_power_19165339_0()
    ensures
        pow(3, 19165338) % 19165339 == 1,
{
    lemma_pow_mod_base(3, 19165339);
    digit_19165339(1, 0, 1, 1, 0int, 3);
    digit_19165339(2, 1, 0, 3, 0int, 9);
    digit_19165339(4, 2, 0, 9, 0int, 81);
    digit_19165339(9, 4, 1, 81, 0int, 19683);
    digit_19165339(18, 9, 0, 19683, 20int, 4113709);
    digit_19165339(36, 18, 0, 4113709, 882979int, 9871800);
    digit_19165339(73, 36, 1, 9871800, 15254481int, 6085941);
    digit_19165339(146, 73, 0, 6085941, 1932586int, 12018827);
    digit_19165339(292, 146, 0, 12018827, 7537158int, 14289367);
    digit_19165339(584, 292, 0, 14289367, 10653921int, 1616470);
    digit_19165339(1169, 584, 1, 1616470, 409015int, 14651615);
    digit_19165339(2339, 1169, 1, 14651615, 33602821int, 10503356);
    digit_19165339(4679, 2339, 1, 10503356, 17268750int, 13931958);
    digit_19165339(9358, 4679, 0, 13931958, 10127629int, 10662533);
    digit_19165339(18716, 9358, 0, 10662533, 5932042int, 14083851);
    digit_19165339(37432, 18716, 0, 14083851, 10349666int, 1563427);
    digit_19165339(74864, 37432, 0, 1563427, 127537int, 14144286);
    digit_19165339(149729, 74864, 1, 14144286, 31316037int, 14107845);
    digit_19165339(299458, 149729, 0, 14107845, 10384960int, 11642585);
    digit_19165339(598916, 299458, 0, 11642585, 7072652int, 12273197);
    digit_19165339(1197833, 598916, 1, 12273197, 23578716int, 8477703);
    digit_19165339(2395667, 1197833, 1, 8477703, 11250223int, 6848030);
    digit_19165339(4791334, 2395667, 0, 6848030, 2446892int, 204512);
    digit_19165339(9582669, 4791334, 1, 204512, 6546int, 19165338);
    digit_19165339(19165338, 9582669, 0, 19165338, 19165337int, 1);
    lemma_pow_mod_is_pow(3, 19165338, 19165339);
}

/// `3^9582669 mod 19165339`.
proof fn lemma_power_19165339_1()
    ensures
        pow(3, 9582669) % 19165339 == 19165338,
{
    lemma_pow_mod_base(3, 19165339);
    digit_19165339(1, 0, 1, 1, 0int, 3);
    digit_19165339(2, 1, 0, 3, 0int, 9);
    digit_19165339(4, 2, 0, 9, 0int, 81);
    digit_19165339(9, 4, 1, 81, 0int, 19683);
    digit_19165339(18, 9, 0, 19683, 20int, 4113709);
    digit_19165339(36, 18, 0, 4113709, 882979int, 9871800);
    digit_19165339(73, 36, 1, 9871800, 15254481int, 6085941);
    digit_19165339(146, 73, 0, 6085941, 1932586int, 12018827);
    digit_19165339(292, 146, 0, 12018827, 7537158int, 14289367);
    digit_19165339(584, 292, 0, 14289367, 10653921int, 1616470);
    digit_19165339(1169, 584, 1, 1616470, 409015int, 14651615);
    digit_19165339(2339, 1169, 1, 14651615, 33602821int, 10503356);
    digit_19165339(4679, 2339, 1, 10503356, 17268750int, 13931958);
    digit_19165339(9358, 4679, 0, 13931958, 10127629int, 10662533);
    digit_19165339(18716, 9358, 0, 10662533, 5932042int, 14083851);
    digit_19165339(37432, 18716, 0, 14083851, 10349666int, 1563427);
    digit_19165339(74864, 37432, 0, 1563427, 127537int, 14144286);
    digit_19165339(149729, 74864, 1, 14144286, 31316037int, 14107845);
    digit_19165339(299458, 149729, 0, 14107845, 10384960int, 11642585);
    digit_19165339(598916, 299458, 0, 11642585, 7072652int, 12273197);
    digit_19165339(1197833, 598916, 1, 12273197, 23578716int, 8477703);
    digit_19165339(2395667, 1197833, 1, 8477703, 11250223int, 6848030);
    digit_19165339(4791334, 2395667, 0, 6848030, 2446892int, 204512);
    digit_19165339(9582669, 4791334, 1, 204512, 6546int, 19165338);
    lemma_pow_mod_is_pow(3, 9582669, 19165339);
}

/// `3^6388446 mod 19165339`.
proof fn lemma_power_19165339_2()
    ensures
        pow(3, 6388446) % 19165339 == 9275901,
{
    lemma_pow_mod_base(3, 19165339);
    digit_19165339(1, 0, 1, 1, 0int, 3);
    digit_19165339(3, 1, 1, 3, 0int, 27);
    digit_19165339(6, 3, 0, 27, 0int, 729);
    digit_19165339(12, 6, 0, 729, 0int, 531441);
    digit_19165339(24, 12, 0, 531441, 14736int, 9100977);
    digit_19165339(48, 24, 0, 9100977, 4321748int, 16861957);
    digit_19165339(97, 48, 1, 16861957, 44506219int, 6866306);
    digit_19165339(194, 97, 0, 6866306, 2459969int, 18271145);
    digit_19165339(389, 194, 1, 18271145, 52256013int, 14899668);
    digit_19165339(779, 389, 1, 14899668, 34750249int, 17111261);
    digit_19165339(1559, 779, 1, 17111261, 45831996int, 18643719);
    digit_19165339(3119, 1559, 1, 18643719, 54408887int, 10485190);
    digit_19165339(6238, 3119, 0, 10485190, 5736356int, 1971416);
    digit_19165339(12477, 6238, 1, 1971416, 608360int, 17501128);
    digit_19165339(24954, 12477, 0, 17501128, 15981427int, 15113631);
    digit_19165339(49909, 24954, 1, 15113631, 35755460int, 14011543);
    digit_19165339(99819, 49909, 1, 14011543, 30730998int, 17244225);
    digit_19165339(199638, 99819, 0, 17244225, 15515681int, 9669766);
    digit_19165339(399277, 199638, 1, 9669766, 14636481int, 3352209);
    digit_19165339(798555, 399277, 1, 3352209, 1759004int, 7576687);
    digit_19165339(1597111, 798555, 1, 7576687, 8985938int, 9684925);
    digit_19165339(3194223, 1597111, 1, 9684925, 14682407int, 9275902);
    digit_19165339(6388446, 3194223, 0, 9275902, 4489477int, 9275901);
    lemma_pow_mod_is_pow(3, 6388446, 19165339);
}

/// `3^1008702 mod 19165339`.
proof fn lemma_power_19165339_3()
    ensures
        pow(3, 1008702) % 19165339 == 17977479,
{
    lemma_pow_mod_base(3, 19165339);
    digit_19165339(1, 0, 1, 1, 0int, 3);
    digit_19165339(3, 1, 1, 3, 0int, 27);
    digit_19165339(7, 3, 1, 27, 0int, 2187);
    digit_19165339(15, 7, 1, 2187, 0int, 14348907);
    digit_19165339(30, 15, 0, 14348907, 10742890int, 3404939);
    digit_19165339(61, 30, 1, 3404939, 1814777int, 12366760);
    digit_19165339(123, 61, 1, 12366760, 23939584int, 15813824);
    digit_19165339(246, 123, 0, 15813824, 13048401int, 930037);
    digit_19165339(492, 246, 0, 930037, 45131int, 17906960);
    digit_19165339(985, 492, 1, 17906960, 50193615int, 2214315);
    digit_19165339(1970, 985, 0, 2214315, 255836int, 7250821);
    digit_19165339(3940, 1970, 0, 7250821, 2743202int, 8898563);
    digit_19165339(7880, 3940, 0, 8898563, 4131647int, 8081636);
    digit_19165339(15760, 7880, 0, 8081636, 3407862int, 9941278);
    digit_19165339(31521, 15760, 1, 9941278, 15469959int, 16268751);
    digit_19165339(63043, 31521, 1, 16268751, 41429832int, 2306955);
    digit_19165339(126087, 63043, 1, 2306955, 833072int, 16824667);
    digit_19165339(252175, 126087, 1, 16824667, 44309587int, 3177674);
    digit_19165339(504351, 252175, 1, 3177674, 1580605int, 5500733);
    digit_19165339(1008702, 504351, 0, 5500733, 1578790int, 17977479);
    lemma_pow_mod_is_pow(3, 1008702, 19165339);
}

/// `3^342 mod 19165339`.
proof fn lemma_power_19165339_4()
    ensures
        pow(3, 342) % 19165339 == 9226174,
{
    lemma_pow_mod_base(3, 19165339);
    digit_19165339(1, 0, 1, 1, 0int, 3);
    digit_19165339(2, 1, 0, 3, 0int, 9);
    digit_19165339(5, 2, 1, 9, 0int, 243);
    digit_19165339(10, 5, 0, 243, 0int, 59049);
    digit_19165339(21, 10, 1, 59049, 545int, 15243448);
    digit_19165339(42, 21, 0, 15243448, 12124111int, 9540075);
    digit_19165339(85, 42, 1, 9540075, 14246504int, 14292019);
    digit_19165339(171, 85, 1, 14292019, 31973628int, 1609191);
    digit_19165339(342, 171, 0, 1609191, 135113int, 9226174);
    lemma_pow_mod_is_pow(3, 342, 19165339);
}

/// 19165339 is prime, with witness 3.
pub proof fn lemma_prime_19165339()
    ensures
        is_prime(19165339),
{
    lemma_prime_2();
    lemma_prime_3();
    lemma_prime_19();
    lemma_prime_56039();
    let fs: Seq<(int, nat)> = seq![(2int, 1nat), (3int, 2nat), (19int, 1nat), (56039int, 1nat)];
    lemma_factor_product_end(fs);
    assert(ipow(56039, 1) == 56039) by {
        reveal_with_fuel(ipow, 2);
    }
    lemma_factor_product_step(fs, 3, 56039, 1);
    assert(ipow(19, 1) == 19) by {
        reveal_with_fuel(ipow, 2);
    }
    lemma_factor_product_step(fs, 2, 19, 56039);
    assert(ipow(3, 2) == 9) by {
        reveal_with_fuel(ipow, 3);
    }
    lemma_factor_product_step(fs, 1, 9, 1064741);
    assert(ipow(2, 1) == 2) by {
        reveal_with_fuel(ipow, 2);
    }
    lemma_factor_product_step(fs, 0, 2, 9582669);
    lemma_power_19165339_0();
    lemma_power_19165339_1();
    lemma_power_19165339_2();
    lemma_power_19165339_3();
    lemma_power_19165339_4();
    assert forall|i: int| 0 <= i < fs.len() implies is_prime(#[trigger] fs[i].0) && pow(
        3,
        ((19165339 - 1) / fs[i].0) as nat,
    ) % 19165339 != 1 by {
        if i == 0 {
            assert(fs[0].0 == 2);
            assert((19165339 - 1) / 2 == 9582669);
        } else if i == 1 {
            assert(fs[1].0 == 3);
            assert((19165339 - 1) / 3 == 6388446);
        } else if i == 2 {
            assert(fs[2].0 == 19);
            assert((19165339 - 1) / 19 == 1008702);
        } else if i == 3 {
            assert(fs[3].0 == 56039);
            assert((19165339 - 1) / 56039 == 342);
        }
    }
    lemma_lucas(19165339, 3, fs);
}

/// One digit of square-and-multiply for `3^e mod 18053749339`.
proof fn digit_18053749339(e: nat, eh: nat, bit: nat, h: int, q: int, r: int)
    requires
        e == 2 * eh + bit,
        bit == 0 || bit == 1,
        eh > 0 || bit == 1,
        pow_mod(3, eh, 18053749339) == h,
        0 <= r < 18053749339,
        bit == 0 ==> h * h == 18053749339 * q + r,
        bit == 1 ==> h * h * 3 == 18053749339 * q + r,
    ensures
        pow_mod(3, e, 18053749339) == r,
{
    lemma_pow_mod_digit(3, 18053749339, e, eh, bit, h, q, r);
}

/// `3^18053749338 mod 18053749339`.
proof fn lemma_power_18053749339_0()
    ensures
        pow(3, 18053749338) % 18053749339 == 1,
{
    lemma_pow_mod_base(3, 18053749339);
    digit_18053749339(1, 0, 1, 1, 0int, 3);
    digit_18053749339(2, 1, 0, 3, 0int, 9);
    digit_18053749339(4, 2, 0, 9, 0int, 81);
    digit_18053749339(8, 4, 0, 81, 0int, 6561);
    digit_18053749339(16, 8, 0, 6561, 0int, 43046721);
    digit_18053749339(33, 16, 1, 43046721, 307917int, 4231338660);
    digit_18053749339(67, 33, 1, 4231338660, 2975153778int, 13840934058);
    digit_18053749339(134, 67, 0, 13840934058, 10611172892int, 12944628976);
    digit_18053749339(269, 134, 1, 12944628976, 27844092024int, 5551253592);
    digit_18053749339(538, 269, 0, 5551253592, 1706926127int, 5644822411);
    digit_18053749339(1076, 538, 0, 5644822411, 1764953055int, 1655572276);
    digit_18053749339(2152, 1076, 0, 1655572276, 151819963int, 4401565719);
    digit_18053749339(4304, 2152, 0, 4401565719, 1073116747int, 16854906728);
    digit_18053749339(8608, 4304, 0, 16854906728, 15735672157int, 6420211761);
    digit_18053749339(17217, 8608, 1, 6420211761, 6849400357int, 513049340);
    digit_18053749339(34434, 17217, 0, 513049340, 14579776int, 3951667536);
    digit_18053749339(68869, 34434, 1, 3951667536, 2594864261int, 8405460409);
    digit_18053749339(137739, 68869, 1, 8405460409, 11740236893int, 15097178116);
    digit_18053749339(275478, 137739, 0, 15097178116, 12624789609int, 7731491005);
    digit_18053749339(550956, 275478, 0, 7731491005, 3310999396int, 3431510781);
    digit_18053749339(1101913, 550956, 1, 3431510781, 1956701517int, 1198642620);
    digit_18053749339(2203826, 1101913, 0, 1198642620, 79581482int, 2426324002);
    digit_18053749339(4407653, 2203826, 1, 2426324002, 978253555int, 16088237867);
    digit_18053749339(8815307, 4407653, 1, 16088237867, 43010134815int, 8910991782);
    digit_18053749339(17630614, 8815307, 0, 8910991782, 4398298272int, 18026693316);
    digit_18053749339(35261229, 17630614, 1, 18026693316, 53999033520int, 9018384288);
    digit_18053749339(70522458, 35261229, 0, 9018384288, 4504950946int, 2470342250);
    digit_18053749339(141044916, 70522458, 0, 2470342250, 338023460int, 14593569560);
    digit_18053749339(282089833, 141044916, 1, 14593569560, 35389702466int, 4721610826);
    digit_18053749339(564179666, 282089833, 0, 4721610826, 1234846478int, 6241424234);
    digit_18053749339(1128359333, 564179666, 1, 6241424234, 6473233188int, 17239597536);
    digit_18053749339(2256718667, 1128359333, 1, 17239597536, 49386482157int, 12297769665);
    digit_18053749339(4513437334, 2256718667, 0, 12297769665, 8376937991int, 15533974276);
    digit_18053749339(9026874669, 4513437334, 1, 15533974276, 40097658210int, 18053749338);
    digit_18053749339(18053749338, 9026874669, 0, 18053749338, 18053749337int, 1);
    lemma_pow_mod_is_pow(3, 18053749338, 18053749339);
}

/// `3^9026874669 mod 18053749339`.
proof fn lemma_power_18053749339_1()
    ensures
        pow(3, 9026874669) % 18053749339 == 18053749338,
{
    lemma_pow_mod_base(3, 18053749339);
    digit_18053749339(1, 0, 1, 1, 0int, 3);
    digit_18053749339(2, 1, 0, 3, 0int, 9);
    digit_18053749339(4, 2, 0, 9, 0int, 81);
    digit_18053749339(8, 4, 0, 81, 0int, 6561);
    digit_18053749339(16, 8, 0, 6561, 0int, 43046721);
    digit_18053749339(33, 16, 1, 43046721, 307917int, 4231338660);
    digit_18053749339(67, 33, 1, 4231338660, 2975153778int, 13840934058);
    digit_18053749339(134, 67, 0, 13840934058, 10611172892int, 12944628976);
    digit_18053749339(269, 134, 1, 12944628976, 27844092024int, 5551253592);
    digit_18053749339(538, 269, 0, 5551253592, 1706926127int, 5644822411);
    digit_18053749339(1076, 538, 0, 5644822411, 1764953055int, 1655572276);
    digit_18053749339(2152, 1076, 0, 1655572276, 151819963int, 4401565719);
    digit_18053749339(4304, 2152, 0, 4401565719, 1073116747int, 16854906728);
    digit_18053749339(8608, 4304, 0, 16854906728, 15735672157int, 6420211761);
    digit_18053749339(17217, 8608, 1, 6420211761, 6849400357int, 513049340);
    digit_18053749339(34434, 17217, 0, 513049340, 14579776int, 3951667536);
    digit_18053749339(68869, 34434, 1, 3951667536, 2594864261int, 8405460409);
    digit_18053749339(137739, 68869, 1, 8405460409, 11740236893int, 15097178116);
    digit_18053749339(275478, 137739, 0, 15097178116, 12624789609int, 7731491005);
    digit_18053749339(550956, 275478, 0, 7731491005, 3310999396int, 3431510781);
    digit_18053749339(1101913, 550956, 1, 3431510781, 1956701517int, 1198642620);
    digit_18053749339(2203826, 1101913, 0, 1198642620, 79581482int, 2426324002);
    digit_18053749339(4407653, 2203826, 1, 2426324002, 978253555int, 16088237867);
    digit_18053749339(8815307, 4407653, 1, 16088237867, 43010134815int, 8910991782);
    digit_18053749339(17630614, 8815307, 0, 8910991782, 4398298272int, 18026693316);
    digit_18053749339(35261229, 17630614, 1, 18026693316, 53999033520int, 9018384288);
    digit_18053749339(70522458, 35261229, 0, 9018384288, 4504950946int, 2470342250);
    digit_18053749339(141044916, 70522458, 0, 2470342250, 338023460int, 14593569560);
    digit_18053749339(282089833, 141044916, 1, 14593569560, 35389702466int, 4721610826);
    digit_18053749339(564179666, 282089833, 0, 4721610826, 1234846478int, 6241424234);
    digit_18053749339(1128359333, 564179666, 1, 6241424234, 6473233188int, 17239597536);
    digit_18053749339(2256718667, 1128359333, 1, 17239597536, 49386482157int, 12297769665);
    digit_18053749339(4513437334, 2256718667, 0, 12297769665, 8376937991int, 15533974276);
    digit_18053749339(9026874669, 4513437334, 1, 15533974276, 40097658210int, 18053749338);
    lemma_pow_mod_is_pow(3, 9026874669, 18053749339);
}

/// `3^6017916446 mod 18053749339`.
proof fn lemma_power_18053749339_2()
    ensures
        pow(3, 6017916446) % 18053749339 == 14274086744,
{
    lemma_pow_mod_base(3, 18053749339);
    digit_18053749339(1, 0, 1, 1, 0int, 3);
    digit_18053749339(2, 1, 0, 3, 0int, 9);
    digit_18053749339(5, 2, 1, 9, 0int, 243);
    digit_18053749339(11, 5, 1, 243, 0int, 177147);
    digit_18053749339(22, 11, 0, 177147, 1int, 13327310270);
    digit_18053749339(44, 22, 0, 13327310270, 9838244438int, 13384546418);
    digit_18053749339(89, 44, 1, 13384546418, 29768788651int, 15967940483);
    digit_18053749339(179, 89, 1, 15967940483, 42369335889int, 5988092496);
    digit_18053749339(358, 179, 0, 5988092496, 1986138782int, 17956744918);
    digit_18053749339(717, 358, 1, 17956744918, 53580785131int, 8464201763);
    digit_18053749339(1434, 717, 0, 8464201763, 3968300996int, 1284266525);
    digit_18053749339(2869, 1434, 1, 1284266525, 274071686int, 1745611321);
    digit_18053749339(5739, 2869, 1, 1745611321, 506347821int, 13327254804);
    digit_18053749339(11478, 5739, 0, 13327254804, 9838162548int, 12811522644);
    digit_18053749339(22956, 11478, 0, 12811522644, 9091469554int, 6658625930);
    digit_18053749339(45913, 22956, 1, 6658625930, 7367549827int, 7754280347);
    digit_18053749339(91826, 45913, 0, 7754280347, 3330547166int, 3189617135);
    digit_18053749339(183652, 91826, 0, 3189617135, 563520478int, 10680144183);
    digit_18053749339(367304, 183652, 0, 10680144183, 6318104767int, 8709738476);
    digit_18053749339(734608, 367304, 0, 8709738476, 4201872026int, 8354711762);
    digit_18053749339(1469217, 734608, 1, 8354711762, 11598899593int, 18052314905);
    digit_18053749339(2938435, 1469217, 1, 18052314905, 54152641754int, 16474176469);
    digit_18053749339(5876871, 2938435, 1, 16474176469, 45098414501int, 7883159044);
    digit_18053749339(11753743, 5876871, 1, 7883159044, 10326530297int, 15369758125);
    digit_18053749339(23507486, 11753743, 0, 15369758125, 13084787009int, 6313978574);
    digit_18053749339(47014972, 23507486, 0, 6313978574, 2208202001int, 16998846137);
    digit_18053749339(94029944, 47014972, 0, 16998846137, 16005582251int, 5098440680);
    digit_18053749339(188059888, 94029944, 0, 5098440680, 1439817119int, 7051728059);
    digit_18053749339(376119777, 188059888, 1, 7051728059, 8263137094int, 5394841577);
    digit_18053749339(752239555, 376119777, 1, 5394841577, 4836277788int, 4458158655);
    digit_18053749339(1504479111, 752239555, 1, 4458158655, 3302667753int, 16793861808);
    digit_18053749339(3008958223, 1504479111, 1, 16793861808, 46865687973int, 14274086745);
    digit_18053749339(6017916446, 3008958223, 0, 14274086745, 11285719579int, 14274086744);
    lemma_pow_mod_is_pow(3, 6017916446, 18053749339);
}

/// `3^114992034 mod 18053749339`.
proof fn lemma_power_18053749339_3()
    ensures
        pow(3, 114992034) % 18053749339 == 15854488855,
{
    lemma_pow_mod_base(3, 18053749339);
    digit_18053749339(1, 0, 1, 1, 0int, 3);
    digit_18053749339(3, 1, 1, 3, 0int, 27);
    digit_18053749339(6, 3, 0, 27, 0int, 729);
    digit_18053749339(13, 6, 1, 729, 0int, 1594323);
    digit_18053749339(27, 13, 1, 1594323, 422int, 6915263929);
    digit_18053749339(54, 27, 0, 6915263929, 2648805758int, 5096623079);
    digit_18053749339(109, 54, 1, 5096623079, 4316372126int, 11535796009);
    digit_18053749339(219, 109, 1, 11535796009, 22113066997int, 3429519260);
    digit_18053749339(438, 219, 0, 3429519260, 651476994int, 4909740634);
    digit_18053749339(877, 438, 1, 4909740634, 4005631069int, 15215552477);
    digit_18053749339(1754, 877, 0, 15215552477, 12823543344int, 9962985913);
    digit_18053749339(3509, 1754, 1, 9962985913, 16494261624int, 16326264171);
    digit_18053749339(7018, 3509, 0, 16326264171, 14764074585int, 1387867926);
    digit_18053749339(14037, 7018, 1, 1387867926, 320073799int, 2931155567);
    digit_18053749339(28074, 14037, 0, 2931155567, 475894109int, 2162347538);
    digit_18053749339(56148, 28074, 0, 2162347538, 258990350int, 14974782794);
    digit_18053749339(112296, 56148, 0, 14974782794, 12420916869int, 13995746845);
    digit_18053749339(224593, 112296, 1, 13995746845, 32549626020int, 4710161295);
    digit_18053749339(449187, 224593, 1, 4710161295, 3686594791int, 3571137926);
    digit_18053749339(898375, 449187, 1, 3571137926, 2119176329int, 10638547897);
    digit_18053749339(1796750, 898375, 0, 10638547897, 6268985972int, 8567850101);
    digit_18053749339(3593501, 1796750, 1, 8567850101, 12198251007int, 5034796230);
    digit_18053749339(7187002, 3593501, 0, 5034796230, 1404094662int, 1646284482);
    digit_18053749339(14374004, 7187002, 0, 1646284482, 150121315int, 4222947539);
    digit_18053749339(28748008, 14374004, 0, 4222947539, 987788496int, 10414352377);
    digit_18053749339(57496017, 28748008, 1, 10414352377, 18022638964int, 13626005591);
    digit_18053749339(114992034, 57496017, 0, 13626005591, 10284181134int, 15854488855);
    lemma_pow_mod_is_pow(3, 114992034, 18053749339);
}

/// `3^942 mod 18053749339`.
proof fn lemma_power_18053749339_4()
    ensures
        pow(3, 942) % 18053749339 == 14285594972,
{
    lemma_pow_mod_base(3, 18053749339);
    digit_18053749339(1, 0, 1, 1, 0int, 3);
    digit_18053749339(3, 1, 1, 3, 0int, 27);
    digit_18053749339(7, 3, 1, 27, 0int, 2187);
    digit_18053749339(14, 7, 0, 2187, 0int, 4782969);
    digit_18053749339(29, 14, 1, 4782969, 3801int, 8076127344);
    digit_18053749339(58, 29, 0, 8076127344, 3612758305int, 15643983941);
    digit_18053749339(117, 58, 1, 15643983941, 40667602438int, 5040385961);
    digit_18053749339(235, 117, 1, 5040385961, 4221642301int, 6364491524);
    digit_18053749339(471, 235, 1, 6364491524, 6731026048int, 12331745456);
    digit_18053749339(942, 471, 0, 12331745456, 8423288876int, 14285594972);
    lemma_pow_mod_is_pow(3, 942, 18053749339);
}

/// 18053749339 is prime, with witness 3.
pub proof fn lemma_prime_18053749339()
    ensures
        is_prime(18053749339),
{
    lemma_prime_2();
    lemma_prime_3();
    lemma_prime_157();
    lemma_prime_19165339();
    let fs: Seq<(int, nat)> = seq![(2int, 1nat), (3int, 1nat), (157int, 1nat), (19165339int, 1nat)];
    lemma_factor_product_end(fs);
    assert(ipow(19165339, 1) == 19165339) by {
        reveal_with_fuel(ipow, 2);
    }
    lemma_factor_product_step(fs, 3, 19165339, 1);
    assert(ipow(157, 1) == 157) by {
        reveal_with_fuel(ipow, 2);
    }
    lemma_factor_product_step(fs, 2, 157, 19165339);
    assert(ipow(3, 1) == 3) by {
        reveal_with_fuel(ipow, 2);
    }
    lemma_factor_product_step(fs, 1, 3, 3008958223);
    assert(ipow(2, 1) == 2) by {
        reveal_with_fuel(ipow, 2);
    }
    lemma_factor_product_step(fs, 0, 2, 9026874669);
    lemma_power_18053749339_0();
    lemma_power_18053749339_1();
    lemma_power_18053749339_2();
    lemma_power_18053749339_3();
    lemma_power_18053749339_4();
    assert forall|i: int| 0 <= i < fs.len() implies is_prime(#[trigger] fs[i].0) && pow(
        3,
        ((18053749339 - 1) / fs[i].0) as nat,
    ) % 18053749339 != 1 by {
        if i == 0 {
            assert(fs[0].0 == 2);
            assert((18053749339 - 1) / 2 == 9026874669);
        } else if i == 1 {
            assert(fs[1].0 == 3);
            assert((18053749339 - 1) / 3 == 6017916446);
        } else if i == 2 {
            assert(fs[2].0 == 157);
            assert((18053749339 - 1) / 157 == 114992034);
        } else if i == 3 {
            assert(fs[3].0 == 19165339);
            assert((18053749339 - 1) / 19165339 == 942);
        }
    }
    lemma_lucas(18053749339, 3, fs);
}

/// One digit of square-and-multiply for `3^e mod 340282366920938463463374557953744961537`.
proof fn digit_modulus(e: nat, eh: nat, bit: nat, h: int, q: int, r: int)
    requires
        e == 2 * eh + bit,
        bit == 0 || bit == 1,
        eh > 0 || bit == 1,
        pow_mod(3, eh, 340282366920938463463374557953744961537) == h,
        0 <= r < 340282366920938463463374557953744961537,
        bit == 0 ==> h * h == 340282366920938463463374557953744961537 * q + r,
        bit == 1 ==> h * h * 3 == 340282366920938463463374557953744961537 * q + r,
    ensures
        pow_mod(3, e, 340282366920938463463374557953744961537) == r,
{
    lemma_pow_mod_digit(3, 340282366920938463463374557953744961537, e, eh, bit, h, q, r);
}

/// `3^340282366920938463463374557953744961536 mod 340282366920938463463374557953744961537`.
proof fn lemma_power_modulus_0()
    ensures
        pow(3, 340282366920938463463374557953744961536) % 340282366920938463463374557953744961537 == 1,
{
    lemma_pow_mod_base(3, 340282366920938463463374557953744961537);
    digit_modulus(1, 0, 1, 1, 0int, 3);
    digit_modulus(3, 1, 1, 3, 0int, 27);
    digit_modulus(7, 3, 1, 27, 0int, 2187);
    digit_modulus(15, 7, 1, 2187, 0int, 14348907);
    digit_modulus(31, 15, 1, 14348907, 0int, 617673396283947);
    digit_modulus(63, 31, 1, 617673396283947, 0int, 1144561273430837494885949696427);
    digit_modulus(127, 63, 1, 1144561273430837494885949696427, 11549412805236468158373int, 101746047265036357851885767098260199686);
    digit_modulus(255, 127, 1, 101746047265036357851885767098260199686, 91267657161303332412296670159778162634int, 9556357655433913278312995180922887330);
    digit_modulus(511, 255, 1, 9556357655433913278312995180922887330, 805131095668456959703131041758397295int, 4769142964746552397436895505083744285);
    digit_modulus(1023, 511, 1, 4769142964746552397436895505083744285, 200522214747695701136089220750862375int, 301282185802942600523912259761855013300);
    digit_modulus(2047, 1023, 1, 301282185802942600523912259761855013300, 800255590410495528928148070677300711274int, 19140326469519622999872040025658401862);
    digit_modulus(4095, 2047, 1, 19140326469519622999872040025658401862, 3229836156437504610173995967753158203int, 77358006718802743553121604705144163121);
    digit_modulus(8191, 4095, 1, 77358006718802743553121604705144163121, 52758489289250061171063890807953108578int, 278735882768411155931413514422174617537);
    digit_modulus(16383, 8191, 1, 278735882768411155931413514422174617537, 684963723325136697231193510190688127908int, 85453020678113223202690342358687564511);
    digit_modulus(32767, 16383, 1, 85453020678113223202690342358687564511, 64377876606612273184935387174508002007int, 131453114116737142730149996433426202604);
    digit_modulus(65535, 32767, 1, 131453114116737142730149996433426202604, 152343373246278890492583764017946738523int, 317546082952938598472300793837737952597);
    digit_modulus(131071, 65535, 1, 317546082952938598472300793837737952597, 888986835061448687565310940690876400172int, 185889225586824355851263897375096948863);
    digit_modulus(262143, 131071, 1, 185889225586824355851263897375096948863, 304642328386922602226249849037071329148int, 329574308839884176686419063611383997831);
    digit_modulus(524287, 262143, 1, 329574308839884176686419063611383997831, 957609640753357524711000984393901370214int, 81992720972764295329647739325610654765);
    digit_modulus(1048575, 524287, 1, 81992720972764295329647739325610654765, 59269656138952083523389850285011295368int, 251168265779117878540415135112345355059);
    digit_modulus(2097151, 1048575, 1, 251168265779117878540415135112345355059, 556174846542785537496361968040147409940int, 13316425697722173334032854962859202663);
    digit_modulus(4194303, 2097151, 1, 13316425697722173334032854962859202663, 1563353355339941934485982480151207793int, 212768765575059671917481427005439216866);
    digit_modulus(8388607, 4194303, 1, 212768765575059671917481427005439216866, 399114547256451588405172279882991480826int, 225257940523745278585589109454093596306);
    digit_modulus(16777215, 8388607, 1, 225257940523745278585589109454093596306, 447344423645569720487258483766851449225int, 271865390426982563985328100659157078083);
    digit_modulus(33554431, 16777215, 1, 271865390426982563985328100659157078083, 651612875337629538073040843678309700469int, 319327880087086110683272452774081003814);
    digit_modulus(67108863, 33554431, 1, 319327880087086110683272452774081003814, 898991292939410438470347712820354984474int, 265343387737088719035978489228285463250);
    digit_modulus(134217727, 67108863, 1, 265343387737088719035978489228285463250, 620723730584783383458908645634743725695int, 248465141624207088387373964971448094285);
    digit_modulus(268435455, 134217727, 1, 248465141624207088387373964971448094285, 544267931021070264446730379902862614958int, 55004849004556373801448004561798113229);
    digit_modulus(536870911, 268435455, 1, 55004849004556373801448004561798113229, 26673730772981854383761582730134151906int, 14436486314709212596133776554829179801);
    digit_modulus(1073741823, 536870911, 1, 14436486314709212596133776554829179801, 1837404673659235431835922852411306807int, 267534104179710593371977094605037916444);
    digit_modulus(2147483647, 1073741823, 1, 267534104179710593371977094605037916444, 631015625760031781225318076903107682722int, 32654151031753684987694333227087351694);
    digit_modulus(4294967295, 2147483647, 1, 32654151031753684987694333227087351694, 9400665593574444060710017726571348438int, 134911274361503060666225645296798979702);
    digit_modulus(8589934591, 4294967295, 1, 134911274361503060666225645296798979702, 160464253095491161953929921888719443327int, 294233376426661240424678787350957712813);
    digit_modulus(17179869183, 8589934591, 1, 294233376426661240424678787350957712813, 763248010058198378674284454323284891411int, 305635476362390108905523485519136460200);
    digit_modulus(34359738367, 17179869183, 1, 305635476362390108905523485519136460200, 823548794989152059521490079365883253344int, 90570229179571119978605508352845490272);
    digit_modulus(68719476735, 34359738367, 1, 90570229179571119978605508352845490272, 72319055094141165013259965242991107891int, 164478407342250947747688730529327713485);
    digit_modulus(137438953471, 68719476735, 1, 164478407342250947747688730529327713485, 238506156460310958849315265177984706918int, 300015248634063586117564005092624722709);
    digit_modulus(274877906943, 137438953471, 1, 300015248634063586117564005092624722709, 793539349929393837015317926607529597408int, 290775673247035292399702010275365999947);
    digit_modulus(549755813887, 274877906943, 1, 290775673247035292399702010275365999947, 745414694131751877321827577491919205136int, 237254791616375165071568617687679154395);
    digit_modulus(1099511627775, 549755813887, 1, 237254791616375165071568617687679154395, 496262882978077191975011837784344054022int, 62739823136579540608367100279703296261);
    digit_modulus(2199023255551, 1099511627775, 1, 62739823136579540608367100279703296261, 34703109445490384256268698697824304608int, 25112444665807208915738377865477877867);
    digit_modulus(4398046511103, 2199023255551, 1, 25112444665807208915738377865477877867, 5559808015909486684159727905424914739int, 38511152728977227869915881108246015224);
    digit_modulus(8796093022207, 4398046511103, 1, 38511152728977227869915881108246015224, 13075395865509515056350299736196246712int, 207262027034296962371216348603116594184);
    digit_modulus(17592186044415, 8796093022207, 1, 207262027034296962371216348603116594184, 378722661174621869734556039431724998656int, 224951141693181252712789159595131183296);
    digit_modulus(35184372088831, 17592186044415, 1, 224951141693181252712789159595131183296, 446126697133467949904645094295072380531int, 95889178776143691350408912721825634701);
    digit_modulus(70368744177663, 35184372088831, 1, 95889178776143691350408912721825634701, 81062689403176386239437327080750682591int, 256131101764815769612987158664695575836);
    digit_modulus(140737488355327, 70368744177663, 1, 256131101764815769612987158664695575836, 578370914880529583162910191684364040656int, 130952606265105964066241544092257048416);
    digit_modulus(281474976710655, 140737488355327, 1, 130952606265105964066241544092257048416, 151185486713228858714648241601409742291int, 318429632426979074088146737989627065901);
    digit_modulus(562949953421311, 281474976710655, 1, 318429632426979074088146737989627065901, 893940803266539352089046078795006393915int, 166637060371636961533213786335844978048);
    digit_modulus(1125899906842623, 562949953421311, 1, 166637060371636961533213786335844978048, 244807659067613732801879233446250889400int, 154662113470628499646771940529764663112);
    digit_modulus(2251799813685247, 1125899906842623, 1, 154662113470628499646771940529764663112, 210886942743870541354416769424675533251int, 85319483772594654393999640332601006845);
    digit_modulus(4503599627370495, 2251799813685247, 1, 85319483772594654393999640332601006845, 64176828001023180584827325509198094844int, 140047802440707746136304048218752546847);
    digit_modulus(9007199254740991, 4503599627370495, 1, 140047802440707746136304048218752546847, 172915691864472953714199048664373520385int, 41788089802576283797691325353678492482);
    digit_modulus(18014398509481983, 9007199254740991, 1, 41788089802576283797691325353678492482, 15395253640226713246991645210994803070int, 310202956675148708496061339516352042382);
    digit_modulus(36028797018963967, 18014398509481983, 1, 310202956675148708496061339516352042382, 848347287583914684979558018354064648567int, 127606092224989725804673890043335534293);
    digit_modulus(72057594037927935, 36028797018963967, 1, 127606092224989725804673890043335534293, 143557083961825132393993006345085682631int, 190394989102978248671203420506853065700);
    digit_modulus(144115188075855871, 72057594037927935, 1, 190394989102978248671203420506853065700, 319589747216719209685282732429094662705int, 309296908841216010097306282153336092415);
    digit_modulus(288230376151711743, 144115188075855871, 1, 309296908841216010097306282153336092415, 843398780997884803595786757659741820254int, 253655395128654490392897921802664026277);
    digit_modulus(576460752303423487, 288230376151711743, 1, 253655395128654490392897921802664026277, 567244139566211204208421318639660966041int, 194660083159369597229949883119831277170);
    digit_modulus(1152921504606846975, 576460752303423487, 1, 194660083159369597229949883119831277170, 334068570626964152172215420264540413421int, 251419818403439172135915164386366038623);
    digit_modulus(2305843009213693951, 1152921504606846975, 1, 251419818403439172135915164386366038623, 557289456324121410016611062235696142506int, 307468063536888423289071930884342416665);
    digit_modulus(4611686018427387903, 2305843009213693951, 1, 307468063536888423289071930884342416665, 833454383345306732805533078651589455837int, 89478851650870938796489848503084025206);
    digit_modulus(9223372036854775807, 4611686018427387903, 1, 89478851650870938796489848503084025206, 70586656886210023160305809723521205462int, 235122125292245085633658338854665712214);
    digit_modulus(18446744073709551615, 9223372036854775807, 1, 235122125292245085633658338854665712214, 487381238430023317004783076637417575027int, 72418498305896388284944466657679608889);
    digit_modulus(36893488147419103231, 18446744073709551615, 1, 72418498305896388284944466657679608889, 46236062223873176193296796181880121486int, 146194671365230923023136864154066158981);
    digit_modulus(73786976294838206463, 36893488147419103231, 1, 146194671365230923023136864154066158981, 188427764820564445513626978193580000134int, 335493529154910078530111927342016029125);
    digit_modulus(147573952589676412927, 73786976294838206463, 1, 335493529154910078530111927342016029125, 992316255966632395446429254277335487209int, 105964272138626079397667393305684316642);
    digit_modulus(295147905179352825855, 147573952589676412927, 1, 105964272138626079397667393305684316642, 98992143537760487402302669316226939335int, 79141787542073845333838217636747110597);
    digit_modulus(590295810358705651711, 295147905179352825855, 1, 79141787542073845333838217636747110597, 55219633553418928084934441613745082972int, 164851306310388440819742081231435441263);
    digit_modulus(1180591620717411303423, 590295810358705651711, 1, 164851306310388440819742081231435441263, 239588845917681093369556747494874446420int, 159857734152138202470834290311501757967);
    digit_modulus(2361183241434822606847, 1180591620717411303423, 1, 159857734152138202470834290311501757967, 225293735313000061405721614457795177450int, 218903353238392341556221952720004178617);
    digit_modulus(4722366482869645213695, 2361183241434822606847, 1, 218903353238392341556221952720004178617, 422461015179307076862024790852476154401int, 155149982121173139082139304431101823730);
    digit_modulus(9444732965739290427391, 4722366482869645213695, 1, 155149982121173139082139304431101823730, 212219491447758247214126895148015529055int, 320789344055721217461094474556292381165);
    digit_modulus(18889465931478580854783, 9444732965739290427391, 1, 320789344055721217461094474556292381165, 907238927989552125218890604641585389424int, 78178911680936715564717211782893686987);
    digit_modulus(37778931862957161709567, 18889465931478580854783, 1, 78178911680936715564717211782893686987, 53884151743623181977707400201921408504int, 141951577526939054222542399151854703859);
    digit_modulus(75557863725914323419135, 37778931862957161709567, 1, 141951577526939054222542399151854703859, 177648791014801400488579457052903026419int, 331639530034253259925298009133718629640);
    digit_modulus(151115727451828646838271, 75557863725914323419135, 1, 331639530034253259925298009133718629640, 969648638069697632512114145240017498384int, 253942217194737329815999780943419932592);
    digit_modulus(302231454903657293676543, 151115727451828646838271, 1, 253942217194737329815999780943419932592, 568527692962374731805621778200829602924int, 63939289860734424330306825440108781204);
    digit_modulus(604462909807314587353087, 302231454903657293676543, 1, 63939289860734424330306825440108781204, 36042709102627818038577170058890285980int, 220788931536662844156286991713000717588);
    digit_modulus(1208925819614629174706175, 604462909807314587353087, 1, 220788931536662844156286991713000717588, 429770305733420146937080990486948567716int, 31692128597401566911229662215137673740);
    digit_modulus(2417851639229258349412351, 1208925819614629174706175, 1, 31692128597401566911229662215137673740, 8854919731420576918251013829968505032int, 235322083272133194521673553109825808616);
    digit_modulus(4835703278458516698824703, 2417851639229258349412351, 1, 235322083272133194521673553109825808616, 488210570914504794901111549096232183575int, 151817223412151041484768292114881351593);
    digit_modulus(9671406556917033397649406, 4835703278458516698824703, 0, 151817223412151041484768292114881351593, 67733363715346690678064259480714416604int, 2816014053687730537599970571109477301);
    digit_modulus(19342813113834066795298813, 9671406556917033397649406, 1, 2816014053687730537599970571109477301, 69911954789087734739061157380128702int, 301136160361614754728554442487202998829);
    digit_modulus(38685626227668133590597626, 19342813113834066795298813, 0, 301136160361614754728554442487202998829, 266493347562747883855123470670604677404int, 258057750284025093216043228760302361293);
    digit_modulus(77371252455336267181195252, 38685626227668133590597626, 0, 258057750284025093216043228760302361293, 195701596542393635118117649253338015352int, 125113519873290405625706910958349115825);
    digit_modulus(154742504910672534362390505, 77371252455336267181195252, 1, 125113519873290405625706910958349115825, 138003561542651057942166815241304706170int, 255115544884160683561328857874059708585);
    digit_modulus(309485009821345068724781011, 154742504910672534362390505, 1, 255115544884160683561328857874059708585, 573793539440119187395644780581464017417int, 23953097886125630542083529559205016746);
    digit_modulus(618970019642690137449562022, 309485009821345068724781011, 0, 23953097886125630542083529559205016746, 1686102349451512992577904068123346632int, 35350638386970032172984936585581935132);
    digit_modulus(1237940039285380274899124044, 618970019642690137449562022, 0, 35350638386970032172984936585581935132, 3672443111507650331396789844224809073int, 299954005975610588960127445028302232223);
    digit_modulus(2475880078570760549798248088, 1237940039285380274899124044, 0, 299954005975610588960127445028302232223, 264405136578002319102967849755652032417int, 268766450299833026803380043897077376800);
    digit_modulus(4951760157141521099596496176, 2475880078570760549798248088, 0, 268766450299833026803380043897077376800, 212280775699305808600045106713987297451int, 89174229732314908188995092058605097813);
    digit_modulus(9903520314283042199192992352, 4951760157141521099596496176, 0, 89174229732314908188995092058605097813, 23368954789829769977892643732864370097int, 143218246544836534011030291670299423880);
    digit_modulus(19807040628566084398385984704, 9903520314283042199192992352, 0, 143218246544836534011030291670299423880, 60277781446557399292419920951944013930int, 57965223245286836778812812814672043990);
    digit_modulus(39614081257132168796771969408, 19807040628566084398385984704, 0, 57965223245286836778812812814672043990, 9874055879764699872224948784433098001int, 113786451272006480597838504530998532563);
    digit_modulus(79228162514264337593543938816, 39614081257132168796771969408, 0, 113786451272006480597838504530998532563, 38048861039234826539439163523037690440int, 309289104524954779508682525960258742689);
    digit_modulus(158456325028528675187087877632, 79228162514264337593543938816, 0, 309289104524954779508682525960258742689, 281118739837830276365487367343197029868int, 288816269265998269031362754590810763605);
    digit_modulus(316912650057057350374175755264, 158456325028528675187087877632, 0, 288816269265998269031362754590810763605, 245134175324783434557935413263580479084int, 202477457160817175448865276649579603917);
    digit_modulus(633825300114114700748351510528, 316912650057057350374175755264, 0, 202477457160817175448865276649579603917, 120479709334559393790030249372571046249int, 291002859220333128737256428414248618176);
    digit_modulus(1267650600228229401496703021056, 633825300114114700748351510528, 0, 291002859220333128737256428414248618176, 248859983080123203925089655286347129210int, 262210191456112222089946877103618371206);
    digit_modulus(2535301200456458802993406042112, 1267650600228229401496703021056, 0, 262210191456112222089946877103618371206, 202050388697999861801841254803363789527int, 169373083560288093220735695737231471437);
    digit_modulus(5070602400912917605986812084224, 2535301200456458802993406042112, 0, 169373083560288093220735695737231471437, 84304225617972013112818052472229640660int, 317147576029044052645335895261115550549);
    digit_modulus(10141204801825835211973624168448, 5070602400912917605986812084224, 0, 317147576029044052645335895261115550549, 295585651090959213709839342331360541757int, 171943168142144822891930992597926800892);
    digit_modulus(20282409603651670423947248336896, 10141204801825835211973624168448, 0, 171943168142144822891930992597926800892, 86882118924566315143841291568497437410int, 21541544435346836569580739457897096494);
    digit_modulus(40564819207303340847894496673792, 20282409603651670423947248336896, 0, 21541544435346836569580739457897096494, 1363685520524892001180828348423097803int, 129999756949660917902024189910922888825);
    digit_modulus(81129638414606681695788993347584, 40564819207303340847894496673792, 0, 129999756949660917902024189910922888825, 49664450614619886838548446602897371936int, 282895836292207208096400573424606654993);
    digit_modulus(162259276829213363391577986695168, 81129638414606681695788993347584, 0, 282895836292207208096400573424606654993, 235187191495178360676096503325109477072int, 296306845119133820321445521995708450385);
    digit_modulus(324518553658426726783155973390336, 162259276829213363391577986695168, 0, 296306845119133820321445521995708450385, 258014387459733909161988607545862459320int, 273165856257350751056968870452379473385);
    digit_modulus(649037107316853453566311946780672, 324518553658426726783155973390336, 0, 273165856257350751056968870452379473385, 219287251643423532238130131203928242161int, 283839073377153370490835339938956596768);
    digit_modulus(1298074214633706907132623893561344, 649037107316853453566311946780672, 0, 283839073377153370490835339938956596768, 236758137968164296433986570517974105205int, 105008128617997753376638997239831545739);
    digit_modulus(2596148429267413814265247787122688, 1298074214633706907132623893561344, 0, 105008128617997753376638997239831545739, 32404579689596183582375582324811201237int, 212059004665593815414574723988717234852);
    digit_modulus(5192296858534827628530495574245376, 2596148429267413814265247787122688, 0, 212059004665593815414574723988717234852, 132152076719892117759204761834908305615int, 58939217512625066836357447684907331649);
    digit_modulus(10384593717069655257060991148490752, 5192296858534827628530495574245376, 0, 58939217512625066836357447684907331649, 10208672851413551887724167944818352728int, 183662900539509792375083495535218036265);
    digit_modulus(20769187434139310514121982296981504, 10384593717069655257060991148490752, 0, 183662900539509792375083495535218036265, 99129617969370732324867680395014240042int, 115107371550849943973561963938279885671);
    digit_modulus(41538374868278621028243964593963008, 20769187434139310514121982296981504, 0, 115107371550849943973561963938279885671, 38937389278310353533809834152902788445int, 143637997944725862918595393408258080276);
    digit_modulus(83076749736557242056487929187926016, 41538374868278621028243964593963008, 0, 143637997944725862918595393408258080276, 60631629667612782957382272877735943725int, 196934114662940666259486270002338730851);
    digit_modulus(166153499473114484112975858375852032, 83076749736557242056487929187926016, 0, 196934114662940666259486270002338730851, 113973127285455706540697980882291376886int, 154861683792053392940461127428578350419);
    digit_modulus(332306998946228968225951716751704064, 166153499473114484112975858375852032, 0, 154861683792053392940461127428578350419, 70477178479488966767247227098402156735int, 246301224039257635126066389490736973866);
    digit_modulus(664613997892457936451903433503408128, 332306998946228968225951716751704064, 0, 246301224039257635126066389490736973866, 178276334187282128774823373070263626402int, 112446981247494782863319391933539286082);
    digit_modulus(1329227995784915872903806867006816256, 664613997892457936451903433503408128, 0, 112446981247494782863319391933539286082, 37158327379955711344589089668493281057int, 136257249355923752058795611038843206115);
    digit_modulus(2658455991569831745807613734013632512, 1329227995784915872903806867006816256, 0, 136257249355923752058795611038843206115, 54560681971381829186595716979024151607int, 317382179358537364646726782080101653266);
    digit_modulus(5316911983139663491615227468027265024, 2658455991569831745807613734013632512, 0, 317382179358537364646726782080101653266, 296023119522319603170446313356706080260int, 192007975586228866417180181358753507136);
    digit_modulus(10633823966279326983230454936054530048, 5316911983139663491615227468027265024, 0, 192007975586228866417180181358753507136, 108342559805009201810260387437193174047int, 177163815491556666773578150685041292257);
    digit_modulus(21267647932558653966460909872109060096, 10633823966279326983230454936054530048, 0, 177163815491556666773578150685041292257, 92238154458408431751016968037385413980int, 207780475876815746145724302740566066789);
    digit_modulus(42535295865117307932921819744218120192, 21267647932558653966460909872109060096, 0, 207780475876815746145724302740566066789, 126873239263751810723865741054991764016int, 215461094455166043855249150037908117929);
    digit_modulus(85070591730234615865843639488436240384, 42535295865117307932921819744218120192, 0, 215461094455166043855249150037908117929, 136426355687728189081710563348995007059int, 227605400907528469561203326827972759358);
    digit_modulus(170141183460469231731687278976872480768, 85070591730234615865843639488436240384, 0, 227605400907528469561203326827972759358, 152238915554249110003773541846779319044int, 340282366920938463463374557953744961536);
    digit_modulus(340282366920938463463374557953744961536, 170141183460469231731687278976872480768, 0, 340282366920938463463374557953744961536, 340282366920938463463374557953744961535int, 1);
    lemma_pow_mod_is_pow(3, 340282366920938463463374557953744961536, 340282366920938463463374557953744961537);
}

/// `3^170141183460469231731687278976872480768 mod 340282366920938463463374557953744961537`.
proof fn lemma_power_modulus_1()
    ensures
        pow(3, 170141183460469231731687278976872480768) % 340282366920938463463374557953744961537 == 340282366920938463463374557953744961536,
{
    lemma_pow_mod_base(3, 340282366920938463463374557953744961537);
    digit_modulus(1, 0, 1, 1, 0int, 3);
    digit_modulus(3, 1, 1, 3, 0int, 27);
    digit_modulus(7, 3, 1, 27, 0int, 2187);
    digit_modulus(15, 7, 1, 2187, 0int, 14348907);
    digit_modulus(31, 15, 1, 14348907, 0int, 617673396283947);
    digit_modulus(63, 31, 1, 617673396283947, 0int, 1144561273430837494885949696427);
    digit_modulus(127, 63, 1, 1144561273430837494885949696427, 11549412805236468158373int, 101746047265036357851885767098260199686);
    digit_modulus(255, 127, 1, 101746047265036357851885767098260199686, 91267657161303332412296670159778162634int, 9556357655433913278312995180922887330);
    digit_modulus(511, 255, 1, 9556357655433913278312995180922887330, 805131095668456959703131041758397295int, 4769142964746552397436895505083744285);
    digit_modulus(1023, 511, 1, 4769142964746552397436895505083744285, 200522214747695701136089220750862375int, 301282185802942600523912259761855013300);
    digit_modulus(2047, 1023, 1, 301282185802942600523912259761855013300, 800255590410495528928148070677300711274int, 19140326469519622999872040025658401862);
    digit_modulus(4095, 2047, 1, 19140326469519622999872040025658401862, 3229836156437504610173995967753158203int, 77358006718802743553121604705144163121);
    digit_modulus(8191, 4095, 1, 77358006718802743553121604705144163121, 52758489289250061171063890807953108578int, 278735882768411155931413514422174617537);
    digit_modulus(16383, 8191, 1, 278735882768411155931413514422174617537, 684963723325136697231193510190688127908int, 85453020678113223202690342358687564511);
    digit_modulus(32767, 16383, 1, 85453020678113223202690342358687564511, 64377876606612273184935387174508002007int, 131453114116737142730149996433426202604);
    digit_modulus(65535, 32767, 1, 131453114116737142730149996433426202604, 152343373246278890492583764017946738523int, 317546082952938598472300793837737952597);
    digit_modulus(131071, 65535, 1, 317546082952938598472300793837737952597, 888986835061448687565310940690876400172int, 185889225586824355851263897375096948863);
    digit_modulus(262143, 131071, 1, 185889225586824355851263897375096948863, 304642328386922602226249849037071329148int, 329574308839884176686419063611383997831);
    digit_modulus(524287, 262143, 1, 329574308839884176686419063611383997831, 957609640753357524711000984393901370214int, 81992720972764295329647739325610654765);
    digit_modulus(1048575, 524287, 1, 81992720972764295329647739325610654765, 59269656138952083523389850285011295368int, 251168265779117878540415135112345355059);
    digit_modulus(2097151, 1048575, 1, 251168265779117878540415135112345355059, 556174846542785537496361968040147409940int, 13316425697722173334032854962859202663);
    digit_modulus(4194303, 2097151, 1, 13316425697722173334032854962859202663, 1563353355339941934485982480151207793int, 212768765575059671917481427005439216866);
    digit_modulus(8388607, 4194303, 1, 212768765575059671917481427005439216866, 399114547256451588405172279882991480826int, 225257940523745278585589109454093596306);
    digit_modulus(16777215, 8388607, 1, 225257940523745278585589109454093596306, 447344423645569720487258483766851449225int, 271865390426982563985328100659157078083);
    digit_modulus(33554431, 16777215, 1, 271865390426982563985328100659157078083, 651612875337629538073040843678309700469int, 319327880087086110683272452774081003814);
    digit_modulus(67108863, 33554431, 1, 319327880087086110683272452774081003814, 898991292939410438470347712820354984474int, 265343387737088719035978489228285463250);
    digit_modulus(134217727, 67108863, 1, 265343387737088719035978489228285463250, 620723730584783383458908645634743725695int, 248465141624207088387373964971448094285);
    digit_modulus(268435455, 134217727, 1, 248465141624207088387373964971448094285, 544267931021070264446730379902862614958int, 55004849004556373801448004561798113229);
    digit_modulus(536870911, 268435455, 1, 55004849004556373801448004561798113229, 26673730772981854383761582730134151906int, 14436486314709212596133776554829179801);
    digit_modulus(1073741823, 536870911, 1, 14436486314709212596133776554829179801, 1837404673659235431835922852411306807int, 267534104179710593371977094605037916444);
    digit_modulus(2147483647, 1073741823, 1, 267534104179710593371977094605037916444, 631015625760031781225318076903107682722int, 32654151031753684987694333227087351694);
    digit_modulus(4294967295, 2147483647, 1, 32654151031753684987694333227087351694, 9400665593574444060710017726571348438int, 134911274361503060666225645296798979702);
    digit_modulus(8589934591, 4294967295, 1, 134911274361503060666225645296798979702, 160464253095491161953929921888719443327int, 294233376426661240424678787350957712813);
    digit_modulus(17179869183, 8589934591, 1, 294233376426661240424678787350957712813, 763248010058198378674284454323284891411int, 305635476362390108905523485519136460200);
    digit_modulus(34359738367, 17179869183, 1, 305635476362390108905523485519136460200, 823548794989152059521490079365883253344int, 90570229179571119978605508352845490272);
    digit_modulus(68719476735, 34359738367, 1, 90570229179571119978605508352845490272, 72319055094141165013259965242991107891int, 164478407342250947747688730529327713485);
    digit_modulus(137438953471, 68719476735, 1, 164478407342250947747688730529327713485, 238506156460310958849315265177984706918int, 300015248634063586117564005092624722709);
    digit_modulus(274877906943, 137438953471, 1, 300015248634063586117564005092624722709, 793539349929393837015317926607529597408int, 290775673247035292399702010275365999947);
    digit_modulus(549755813887, 274877906943, 1, 290775673247035292399702010275365999947, 745414694131751877321827577491919205136int, 237254791616375165071568617687679154395);
    digit_modulus(1099511627775, 549755813887, 1, 237254791616375165071568617687679154395, 496262882978077191975011837784344054022int, 62739823136579540608367100279703296261);
    digit_modulus(2199023255551, 1099511627775, 1, 62739823136579540608367100279703296261, 34703109445490384256268698697824304608int, 25112444665807208915738377865477877867);
    digit_modulus(4398046511103, 2199023255551, 1, 25112444665807208915738377865477877867, 5559808015909486684159727905424914739int, 38511152728977227869915881108246015224);
    digit_modulus(8796093022207, 4398046511103, 1, 38511152728977227869915881108246015224, 13075395865509515056350299736196246712int, 207262027034296962371216348603116594184);
    digit_modulus(17592186044415, 8796093022207, 1, 207262027034296962371216348603116594184, 378722661174621869734556039431724998656int, 224951141693181252712789159595131183296);
    digit_modulus(35184372088831, 17592186044415, 1, 224951141693181252712789159595131183296, 446126697133467949904645094295072380531int, 95889178776143691350408912721825634701);
    digit_modulus(70368744177663, 35184372088831, 1, 95889178776143691350408912721825634701, 81062689403176386239437327080750682591int, 256131101764815769612987158664695575836);
    digit_modulus(140737488355327, 70368744177663, 1, 256131101764815769612987158664695575836, 578370914880529583162910191684364040656int, 130952606265105964066241544092257048416);
    digit_modulus(281474976710655, 140737488355327, 1, 130952606265105964066241544092257048416, 151185486713228858714648241601409742291int, 318429632426979074088146737989627065901);
    digit_modulus(562949953421311, 281474976710655, 1, 318429632426979074088146737989627065901, 893940803266539352089046078795006393915int, 166637060371636961533213786335844978048);
    digit_modulus(1125899906842623, 562949953421311, 1, 166637060371636961533213786335844978048, 244807659067613732801879233446250889400int, 154662113470628499646771940529764663112);
    digit_modulus(2251799813685247, 1125899906842623, 1, 154662113470628499646771940529764663112, 210886942743870541354416769424675533251int, 85319483772594654393999640332601006845);
    digit_modulus(4503599627370495, 2251799813685247, 1, 85319483772594654393999640332601006845, 64176828001023180584827325509198094844int, 140047802440707746136304048218752546847);
    digit_modulus(9007199254740991, 4503599627370495, 1, 140047802440707746136304048218752546847, 172915691864472953714199048664373520385int, 41788089802576283797691325353678492482);
    digit_modulus(18014398509481983, 9007199254740991, 1, 41788089802576283797691325353678492482, 15395253640226713246991645210994803070int, 310202956675148708496061339516352042382);
    digit_modulus(36028797018963967, 18014398509481983, 1, 310202956675148708496061339516352042382, 848347287583914684979558018354064648567int, 127606092224989725804673890043335534293);
    digit_modulus(72057594037927935, 36028797018963967, 1, 127606092224989725804673890043335534293, 143557083961825132393993006345085682631int, 190394989102978248671203420506853065700);
    digit_modulus(144115188075855871, 72057594037927935, 1, 190394989102978248671203420506853065700, 319589747216719209685282732429094662705int, 309296908841216010097306282153336092415);
    digit_modulus(288230376151711743, 144115188075855871, 1, 309296908841216010097306282153336092415, 843398780997884803595786757659741820254int, 253655395128654490392897921802664026277);
    digit_modulus(576460752303423487, 288230376151711743, 1, 253655395128654490392897921802664026277, 567244139566211204208421318639660966041int, 194660083159369597229949883119831277170);
    digit_modulus(1152921504606846975, 576460752303423487, 1, 194660083159369597229949883119831277170, 334068570626964152172215420264540413421int, 251419818403439172135915164386366038623);
    digit_modulus(2305843009213693951, 1152921504606846975, 1, 251419818403439172135915164386366038623, 557289456324121410016611062235696142506int, 307468063536888423289071930884342416665);
    digit_modulus(4611686018427387903, 2305843009213693951, 1, 307468063536888423289071930884342416665, 833454383345306732805533078651589455837int, 89478851650870938796489848503084025206);
    digit_modulus(9223372036854775807, 4611686018427387903, 1, 89478851650870938796489848503084025206, 70586656886210023160305809723521205462int, 235122125292245085633658338854665712214);
    digit_modulus(18446744073709551615, 9223372036854775807, 1, 235122125292245085633658338854665712214, 487381238430023317004783076637417575027int, 72418498305896388284944466657679608889);
    digit_modulus(36893488147419103231, 18446744073709551615, 1, 72418498305896388284944466657679608889, 46236062223873176193296796181880121486int, 146194671365230923023136864154066158981);
    digit_modulus(73786976294838206463, 36893488147419103231, 1, 146194671365230923023136864154066158981, 188427764820564445513626978193580000134int, 335493529154910078530111927342016029125);
    digit_modulus(147573952589676412927, 73786976294838206463, 1, 335493529154910078530111927342016029125, 992316255966632395446429254277335487209int, 105964272138626079397667393305684316642);
    digit_modulus(295147905179352825855, 147573952589676412927, 1, 105964272138626079397667393305684316642, 98992143537760487402302669316226939335int, 79141787542073845333838217636747110597);
    digit_modulus(590295810358705651711, 295147905179352825855, 1, 79141787542073845333838217636747110597, 55219633553418928084934441613745082972int, 164851306310388440819742081231435441263);
    digit_modulus(1180591620717411303423, 590295810358705651711, 1, 164851306310388440819742081231435441263, 239588845917681093369556747494874446420int, 159857734152138202470834290311501757967);
    digit_modulus(2361183241434822606847, 1180591620717411303423, 1, 159857734152138202470834290311501757967, 225293735313000061405721614457795177450int, 218903353238392341556221952720004178617);
    digit_modulus(4722366482869645213695, 2361183241434822606847, 1, 218903353238392341556221952720004178617, 422461015179307076862024790852476154401int, 155149982121173139082139304431101823730);
    digit_modulus(9444732965739290427391, 4722366482869645213695, 1, 155149982121173139082139304431101823730, 212219491447758247214126895148015529055int, 320789344055721217461094474556292381165);
    digit_modulus(18889465931478580854783, 9444732965739290427391, 1, 320789344055721217461094474556292381165, 907238927989552125218890604641585389424int, 78178911680936715564717211782893686987);
    digit_modulus(37778931862957161709567, 18889465931478580854783, 1, 78178911680936715564717211782893686987, 53884151743623181977707400201921408504int, 141951577526939054222542399151854703859);
    digit_modulus(75557863725914323419135, 37778931862957161709567, 1, 141951577526939054222542399151854703859, 177648791014801400488579457052903026419int, 331639530034253259925298009133718629640);
    digit_modulus(151115727451828646838271, 75557863725914323419135, 1, 331639530034253259925298009133718629640, 969648638069697632512114145240017498384int, 253942217194737329815999780943419932592);
    digit_modulus(302231454903657293676543, 151115727451828646838271, 1, 253942217194737329815999780943419932592, 568527692962374731805621778200829602924int, 63939289860734424330306825440108781204);
    digit_modulus(604462909807314587353087, 302231454903657293676543, 1, 63939289860734424330306825440108781204, 36042709102627818038577170058890285980int, 220788931536662844156286991713000717588);
    digit_modulus(1208925819614629174706175, 604462909807314587353087, 1, 220788931536662844156286991713000717588, 429770305733420146937080990486948567716int, 31692128597401566911229662215137673740);
    digit_modulus(2417851639229258349412351, 1208925819614629174706175, 1, 31692128597401566911229662215137673740, 8854919731420576918251013829968505032int, 235322083272133194521673553109825808616);
    digit_modulus(4835703278458516698824703, 2417851639229258349412351, 1, 235322083272133194521673553109825808616, 488210570914504794901111549096232183575int, 151817223412151041484768292114881351593);
    digit_modulus(9671406556917033397649406, 4835703278458516698824703, 0, 151817223412151041484768292114881351593, 67733363715346690678064259480714416604int, 2816014053687730537599970571109477301);
    digit_modulus(19342813113834066795298813, 9671406556917033397649406, 1, 2816014053687730537599970571109477301, 69911954789087734739061157380128702int, 301136160361614754728554442487202998829);
    digit_modulus(38685626227668133590597626, 19342813113834066795298813, 0, 301136160361614754728554442487202998829, 266493347562747883855123470670604677404int, 258057750284025093216043228760302361293);
    digit_modulus(77371252455336267181195252, 38685626227668133590597626, 0, 258057750284025093216043228760302361293, 195701596542393635118117649253338015352int, 125113519873290405625706910958349115825);
    digit_modulus(154742504910672534362390505, 77371252455336267181195252, 1, 125113519873290405625706910958349115825, 138003561542651057942166815241304706170int, 255115544884160683561328857874059708585);
    digit_modulus(309485009821345068724781011, 154742504910672534362390505, 1, 255115544884160683561328857874059708585, 573793539440119187395644780581464017417int, 23953097886125630542083529559205016746);
    digit_modulus(618970019642690137449562022, 309485009821345068724781011, 0, 23953097886125630542083529559205016746, 1686102349451512992577904068123346632int, 35350638386970032172984936585581935132);
    digit_modulus(1237940039285380274899124044, 618970019642690137449562022, 0, 35350638386970032172984936585581935132, 3672443111507650331396789844224809073int, 299954005975610588960127445028302232223);
    digit_modulus(2475880078570760549798248088, 1237940039285380274899124044, 0, 299954005975610588960127445028302232223, 264405136578002319102967849755652032417int, 268766450299833026803380043897077376800);
    digit_modulus(4951760157141521099596496176, 2475880078570760549798248088, 0, 268766450299833026803380043897077376800, 212280775699305808600045106713987297451int, 89174229732314908188995092058605097813);
    digit_modulus(9903520314283042199192992352, 4951760157141521099596496176, 0, 89174229732314908188995092058605097813, 23368954789829769977892643732864370097int, 143218246544836534011030291670299423880);
    digit_modulus(19807040628566084398385984704, 9903520314283042199192992352, 0, 143218246544836534011030291670299423880, 60277781446557399292419920951944013930int, 57965223245286836778812812814672043990);
    digit_modulus(39614081257132168796771969408, 19807040628566084398385984704, 0, 57965223245286836778812812814672043990, 9874055879764699872224948784433098001int, 113786451272006480597838504530998532563);
    digit_modulus(79228162514264337593543938816, 39614081257132168796771969408, 0, 113786451272006480597838504530998532563, 38048861039234826539439163523037690440int, 309289104524954779508682525960258742689);
    digit_modulus(158456325028528675187087877632, 79228162514264337593543938816, 0, 309289104524954779508682525960258742689, 281118739837830276365487367343197029868int, 288816269265998269031362754590810763605);
    digit_modulus(316912650057057350374175755264, 158456325028528675187087877632, 0, 288816269265998269031362754590810763605, 245134175324783434557935413263580479084int, 202477457160817175448865276649579603917);
    digit_modulus(633825300114114700748351510528, 316912650057057350374175755264, 0, 202477457160817175448865276649579603917, 120479709334559393790030249372571046249int, 291002859220333128737256428414248618176);
    digit_modulus(1267650600228229401496703021056, 633825300114114700748351510528, 0, 291002859220333128737256428414248618176, 248859983080123203925089655286347129210int, 262210191456112222089946877103618371206);
    digit_modulus(2535301200456458802993406042112, 1267650600228229401496703021056, 0, 262210191456112222089946877103618371206, 202050388697999861801841254803363789527int, 169373083560288093220735695737231471437);
    digit_modulus(5070602400912917605986812084224, 2535301200456458802993406042112, 0, 169373083560288093220735695737231471437, 84304225617972013112818052472229640660int, 317147576029044052645335895261115550549);
    digit_modulus(10141204801825835211973624168448, 5070602400912917605986812084224, 0, 317147576029044052645335895261115550549, 295585651090959213709839342331360541757int, 171943168142144822891930992597926800892);
    digit_modulus(20282409603651670423947248336896, 10141204801825835211973624168448, 0, 171943168142144822891930992597926800892, 86882118924566315143841291568497437410int, 21541544435346836569580739457897096494);
    digit_modulus(40564819207303340847894496673792, 20282409603651670423947248336896, 0, 21541544435346836569580739457897096494, 1363685520524892001180828348423097803int, 129999756949660917902024189910922888825);
    digit_modulus(81129638414606681695788993347584, 40564819207303340847894496673792, 0, 129999756949660917902024189910922888825, 49664450614619886838548446602897371936int, 282895836292207208096400573424606654993);
    digit_modulus(162259276829213363391577986695168, 81129638414606681695788993347584, 0, 282895836292207208096400573424606654993, 235187191495178360676096503325109477072int, 296306845119133820321445521995708450385);
    digit_modulus(324518553658426726783155973390336, 162259276829213363391577986695168, 0, 296306845119133820321445521995708450385, 258014387459733909161988607545862459320int, 273165856257350751056968870452379473385);
    digit_modulus(649037107316853453566311946780672, 324518553658426726783155973390336, 0, 273165856257350751056968870452379473385, 219287251643423532238130131203928242161int, 283839073377153370490835339938956596768);
    digit_modulus(1298074214633706907132623893561344, 649037107316853453566311946780672, 0, 283839073377153370490835339938956596768, 236758137968164296433986570517974105205int, 105008128617997753376638997239831545739);
    digit_modulus(2596148429267413814265247787122688, 1298074214633706907132623893561344, 0, 105008128617997753376638997239831545739, 32404579689596183582375582324811201237int, 212059004665593815414574723988717234852);
    digit_modulus(5192296858534827628530495574245376, 2596148429267413814265247787122688, 0, 212059004665593815414574723988717234852, 132152076719892117759204761834908305615int, 58939217512625066836357447684907331649);
    digit_modulus(10384593717069655257060991148490752, 5192296858534827628530495574245376, 0, 58939217512625066836357447684907331649, 10208672851413551887724167944818352728int, 183662900539509792375083495535218036265);
    digit_modulus(20769187434139310514121982296981504, 10384593717069655257060991148490752, 0, 183662900539509792375083495535218036265, 99129617969370732324867680395014240042int, 115107371550849943973561963938279885671);
    digit_modulus(41538374868278621028243964593963008, 20769187434139310514121982296981504, 0, 115107371550849943973561963938279885671, 38937389278310353533809834152902788445int, 143637997944725862918595393408258080276);
    digit_modulus(83076749736557242056487929187926016, 41538374868278621028243964593963008, 0, 143637997944725862918595393408258080276, 60631629667612782957382272877735943725int, 196934114662940666259486270002338730851);
    digit_modulus(166153499473114484112975858375852032, 83076749736557242056487929187926016, 0, 196934114662940666259486270002338730851, 113973127285455706540697980882291376886int, 154861683792053392940461127428578350419);
    digit_modulus(332306998946228968225951716751704064, 166153499473114484112975858375852032, 0, 154861683792053392940461127428578350419, 70477178479488966767247227098402156735int, 246301224039257635126066389490736973866);
    digit_modulus(664613997892457936451903433503408128, 332306998946228968225951716751704064, 0, 246301224039257635126066389490736973866, 178276334187282128774823373070263626402int, 112446981247494782863319391933539286082);
    digit_modulus(1329227995784915872903806867006816256, 664613997892457936451903433503408128, 0, 112446981247494782863319391933539286082, 37158327379955711344589089668493281057int, 136257249355923752058795611038843206115);
    digit_modulus(2658455991569831745807613734013632512, 1329227995784915872903806867006816256, 0, 136257249355923752058795611038843206115, 54560681971381829186595716979024151607int, 317382179358537364646726782080101653266);
    digit_modulus(5316911983139663491615227468027265024, 2658455991569831745807613734013632512, 0, 317382179358537364646726782080101653266, 296023119522319603170446313356706080260int, 192007975586228866417180181358753507136);
    digit_modulus(10633823966279326983230454936054530048, 5316911983139663491615227468027265024, 0, 192007975586228866417180181358753507136, 108342559805009201810260387437193174047int, 177163815491556666773578150685041292257);
    digit_modulus(21267647932558653966460909872109060096, 10633823966279326983230454936054530048, 0, 177163815491556666773578150685041292257, 92238154458408431751016968037385413980int, 207780475876815746145724302740566066789);
    digit_modulus(42535295865117307932921819744218120192, 21267647932558653966460909872109060096, 0, 207780475876815746145724302740566066789, 126873239263751810723865741054991764016int, 215461094455166043855249150037908117929);
    digit_modulus(85070591730234615865843639488436240384, 42535295865117307932921819744218120192, 0, 215461094455166043855249150037908117929, 136426355687728189081710563348995007059int, 227605400907528469561203326827972759358);
    digit_modulus(170141183460469231731687278976872480768, 85070591730234615865843639488436240384, 0, 227605400907528469561203326827972759358, 152238915554249110003773541846779319044int, 340282366920938463463374557953744961536);
    lemma_pow_mod_is_pow(3, 170141183460469231731687278976872480768, 340282366920938463463374557953744961537);
}

/// `3^11733874721411671153909467515646377984 mod 340282366920938463463374557953744961537`.
proof fn lemma_power_modulus_2()
    ensures
        pow(3, 11733874721411671153909467515646377984) % 340282366920938463463374557953744961537 == 114792961311339977158635919681573159865,
{
    lemma_pow_mod_base(3, 340282366920938463463374557953744961537);
    digit_modulus(1, 0, 1, 1, 0int, 3);
    digit_modulus(2, 1, 0, 3, 0int, 9);
    digit_modulus(4, 2, 0, 9, 0int, 81);
    digit_modulus(8, 4, 0, 81, 0int, 6561);
    digit_modulus(17, 8, 1, 6561, 0int, 129140163);
    digit_modulus(35, 17, 1, 129140163, 0int, 50031545098999707);
    digit_modulus(70, 35, 0, 50031545098999707, 0int, 2503155504993241601315571986085849);
    digit_modulus(141, 70, 1, 2503155504993241601315571986085849, 55240483415649064870986579567int, 168536561958725600359005809207189037924);
    digit_modulus(282, 141, 0, 168536561958725600359005809207189037924, 83473536915496121672901831370194614361int, 2865680383797362944562908936217396919);
    digit_modulus(564, 282, 0, 2865680383797362944562908936217396919, 24133263608069983505384853233840833int, 52944334014625946824997301452025652240);
    digit_modulus(1129, 564, 1, 52944334014625946824997301452025652240, 24712733688932699767903583757848735023int, 264333409233361506022286771617011242449);
    digit_modulus(2259, 1129, 1, 264333409233361506022286771617011242449, 616007392941103494394958674788920555398int, 223751037285302382420937611561790826077);
    digit_modulus(4519, 2259, 1, 223751037285302382420937611561790826077, 441379262222078211482536598943508969270int, 278149228549396716655468952603524661797);
    digit_modulus(9039, 4519, 1, 278149228549396716655468952603524661797, 682083477107704955727577216286572560068int, 242244893354469898830146507935411703111);
    digit_modulus(18078, 9039, 0, 242244893354469898830146507935411703111, 172452627761205341221479878349672533953int, 11285994159648190663717118472295512560);
    digit_modulus(36157, 18078, 1, 11285994159648190663717118472295512560, 1122952670079497747429358143168661581int, 228329711046367250865378537064738650803);
    digit_modulus(72315, 36157, 1, 228329711046367250865378537064738650803, 459628197178643701072793687812389915609int, 276063501980564384745404041825936703394);
    digit_modulus(144631, 72315, 1, 276063501980564384745404041825936703394, 671892503411556678292532452488689814951int, 287559664292901183669055769079850818021);
    digit_modulus(289262, 144631, 0, 287559664292901183669055769079850818021, 243005716918204090706470499355014162056int, 155090569525101041216204946432853516369);
    digit_modulus(578524, 289262, 0, 155090569525101041216204946432853516369, 70685663125203066848736531240775885390int, 139388936873334126147070853685480699731);
    digit_modulus(1157049, 578524, 1, 139388936873334126147070853685480699731, 171292528894327423426401754664947638113int, 126482101519046581464125993901970157402);
    digit_modulus(2314098, 1157049, 0, 126482101519046581464125993901970157402, 47013079606300410685995897567083497783int, 234550296084442652823315614473895617133);
    digit_modulus(4628197, 2314098, 1, 234550296084442652823315614473895617133, 485013448311428525399389457567606466533int, 263965927720666390155731903932206677846);
    digit_modulus(9256395, 4628197, 1, 263965927720666390155731903932206677846, 614295812280109682486629439625834226541int, 112444609475720454034350889143892045631);
    digit_modulus(18512790, 9256395, 0, 112444609475720454034350889143892045631, 37156759883138325089243975322242171751int, 9883453009578712653376129616943246874);
    digit_modulus(37025580, 18512790, 0, 9883453009578712653376129616943246874, 287063488703327942974187668918808020int, 317824695291712324157575970022523645136);
    digit_modulus(74051160, 37025580, 0, 317824695291712324157575970022523645136, 296849166329970712825696583281341214860int, 159623903280270200499867193788903618676);
    digit_modulus(148102320, 74051160, 0, 159623903280270200499867193788903618676, 74878374477596880636714678702152181055int, 287484143534693235826049861665980911441);
    digit_modulus(296204641, 148102320, 1, 287484143534693235826049861665980911441, 728634282743293759446343603929651133650int, 124526934610165972752255850507557669393);
    digit_modulus(592409282, 296204641, 0, 124526934610165972752255850507557669393, 45570852182909182605687796986647785499int, 2590933495524344024380233343907636486);
    digit_modulus(1184818564, 592409282, 0, 2590933495524344024380233343907636486, 19727546975096967609151039710843901int, 191051343673415145348155676425662392359);
    digit_modulus(2369637128, 1184818564, 0, 191051343673415145348155676425662392359, 107265669537022980492332064121866162900int, 48357255032990443819835121064985207581);
    digit_modulus(4739274257, 2369637128, 1, 48357255032990443819835121064985207581, 20616032521623355340852373481753036936int, 320609161891685520171399083178719284051);
    digit_modulus(9478548515, 4739274257, 1, 320609161891685520171399083178719284051, 906220051473646279423936451752062546542int, 170314278433717640775017266988006556749);
    digit_modulus(18957097030, 9478548515, 0, 170314278433717640775017266988006556749, 85243774753504643657383285064883388826int, 85289556208959287344198339771371863439);
    digit_modulus(37914194061, 18957097030, 1, 85289556208959287344198339771371863439, 64131813212742924356259217333068945199int, 213567288649916835701955342076378909300);
    digit_modulus(75828388122, 37914194061, 0, 213567288649916835701955342076378909300, 134038643242052555621283461210795891695int, 246275929341719236715335697052233754785);
    digit_modulus(151656776244, 75828388122, 0, 246275929341719236715335697052233754785, 178239718742815116573217475470821127255int, 100238839965548574557697414312553005290);
    digit_modulus(303313552489, 151656776244, 1, 100238839965548574557697414312553005290, 88583711773464120849937970364996367935int, 269094206491630283947127125121028836205);
    digit_modulus(606627104979, 303313552489, 1, 269094206491630283947127125121028836205, 638396511308366099541684245239094168660int, 314686684577670327699774452057465575655);
    digit_modulus(1213254209959, 606627104979, 1, 314686684577670327699774452057465575655, 873048847754380148620257219621294698615int, 296071716462064368027460924376403865820);
    digit_modulus(2426508419919, 1213254209959, 1, 296071716462064368027460924376403865820, 772815195350627931625557269278582644611int, 126351480432827598771798243327757490093);
    digit_modulus(4853016839838, 2426508419919, 0, 126351480432827598771798243327757490093, 46916026686967499331901867573092026081int, 172100664516276209086642442278247302152);
    digit_modulus(9706033679677, 4853016839838, 1, 172100664516276209086642442278247302152, 261124068769265464908738381281727036423int, 314743557503751053264611843412018431161);
    digit_modulus(19412067359355, 9706033679677, 1, 314743557503751053264611843412018431161, 873364446296450832328770741530307828093int, 30857351271641229622163361786794364822);
    digit_modulus(38824134718711, 19412067359355, 1, 30857351271641229622163361786794364822, 8394582441493550616188358226516792711int, 320314108673804851413347974325996318245);
    digit_modulus(77648269437422, 38824134718711, 0, 320314108673804851413347974325996318245, 301517616513266202834103901090347290804int, 57047357430371810604967711462186074277);
    digit_modulus(155296538874844, 77648269437422, 0, 57047357430371810604967711462186074277, 9563824947017394308105183083064378089int, 133883597461558603102847219996430509936);
    digit_modulus(310593077749689, 155296538874844, 1, 133883597461558603102847219996430509936, 158028914322909927568830822462368200778int, 138164104746956558813850671005480696502);
    digit_modulus(621186155499378, 310593077749689, 0, 138164104746956558813850671005480696502, 56098469083951138355492919123837032027int, 96042691305371344284404828699682890505);
    digit_modulus(1242372310998757, 621186155499378, 1, 96042691305371344284404828699682890505, 81322449675936440932971296113708639389int, 131951411782175842327881110809049284182);
    digit_modulus(2484744621997515, 1242372310998757, 1, 131951411782175842327881110809049284182, 153500534531264704721819711592841073634int, 216812313603068955158071910606671411914);
    digit_modulus(4969489243995030, 2484744621997515, 0, 216812313603068955158071910606671411914, 138142859870365561020200330194010385861int, 141189366434629109674599725948287515039);
    digit_modulus(9938978487990060, 4969489243995030, 0, 141189366434629109674599725948287515039, 58582045771544664320681972508104652312int, 118068226155707399671150904762453047977);
    digit_modulus(19877956975980120, 9938978487990060, 0, 118068226155707399671150904762453047977, 40966289713137344973451201244339821761int, 118376076415461816080828064015083185872);
    digit_modulus(39755913951960240, 19877956975980120, 0, 118376076415461816080828064015083185872, 41180198651830304753551764640803284049int, 55736253053533941367380052952509777071);
    digit_modulus(79511827903920481, 39755913951960240, 1, 55736253053533941367380052952509777071, 27387812650039657682067830959137464564int, 55230728582301283744675292250471542255);
    digit_modulus(159023655807840962, 79511827903920481, 0, 55230728582301283744675292250471542255, 8964418013586265651230420323330793162int, 66346602081013585701070737578857875031);
    digit_modulus(318047311615681924, 159023655807840962, 0, 66346602081013585701070737578857875031, 12935938019730218337023870218898957712int, 328249881189878319016175401883983727617);
    digit_modulus(636094623231363848, 318047311615681924, 0, 328249881189878319016175401883983727617, 316642867734029556505197451488179303029int, 15765616774764755971103595093375903116);
    digit_modulus(1272189246462727697, 636094623231363848, 1, 15765616774764755971103595093375903116, 2191309598594275390468172213120497628int, 93561368536647216253637995222695794132);
    digit_modulus(2544378492925455395, 1272189246462727697, 1, 93561368536647216253637995222695794132, 77174698427592956116648058784281042507int, 216024649371317445460589947209399847013);
    digit_modulus(5088756985850910790, 2544378492925455395, 0, 216024649371317445460589947209399847013, 137140956077936349531450533089816118987int, 243969486246062507274618622408874619150);
    digit_modulus(10177513971701821581, 5088756985850910790, 1, 243969486246062507274618622408874619150, 524750466129767537658305747857369718733int, 50532732213679171090651519179046794879);
    digit_modulus(20355027943403643162, 10177513971701821581, 0, 50532732213679171090651519179046794879, 7504229643414654351463722519812473294int, 25626913799766133792328338203830931763);
    digit_modulus(40710055886807286324, 20355027943403643162, 0, 25626913799766133792328338203830931763, 1929981611575045889489599339253660566int, 237796572036880185308806158566638638227);
    digit_modulus(81420111773614572649, 40710055886807286324, 1, 237796572036880185308806158566638638227, 498531941435825686358696885877712158051int, 291596767033459974352481118338697226200);
    digit_modulus(162840223547229145299, 81420111773614572649, 1, 291596767033459974352481118338697226200, 749630449386067436861871554745212680338int, 310426199974670792286164796871413160494);
    digit_modulus(325680447094458290599, 162840223547229145299, 1, 310426199974670792286164796871413160494, 849568784618543326724069846315604545136int, 231987402502689549009041374788706538076);
    digit_modulus(651360894188916581199, 325680447094458290599, 1, 231987402502689549009041374788706538076, 474472028100554370677467983965502725752int, 16767308649909928763326384276613944504);
    digit_modulus(1302721788377833162398, 651360894188916581199, 0, 16767308649909928763326384276613944504, 826203960861319836436786568815055733int, 174830497960128563529682551325395464395);
    digit_modulus(2605443576755666324797, 1302721788377833162398, 1, 174830497960128563529682551325395464395, 269473584190345511092568124263143886696int, 27404609337056920164658260939932136323);
    digit_modulus(5210887153511332649595, 2605443576755666324797, 1, 27404609337056920164658260939932136323, 6621083129099060821113465325047979093int, 221663282403166121670325734423102735046);
    digit_modulus(10421774307022665299191, 5210887153511332649595, 1, 221663282403166121670325734423102735046, 433180930387395820502082047818266370566int, 107009750100361743883872170726770946406);
    digit_modulus(20843548614045330598382, 10421774307022665299191, 0, 107009750100361743883872170726770946406, 33651719071304176252256497317250718530int, 78401347833217439775779138892461136226);
    digit_modulus(41687097228090661196764, 20843548614045330598382, 0, 78401347833217439775779138892461136226, 18063737470984782996194746569171383977int, 217605836447879701905488539698006430427);
    digit_modulus(83374194456181322393529, 41687097228090661196764, 1, 217605836447879701905488539698006430427, 417467709108623159723669060838083362918int, 115638933911677790601980393299652122021);
    digit_modulus(166748388912362644787058, 83374194456181322393529, 0, 115638933911677790601980393299652122021, 39297843015581032362350428060312310835int, 277674515327686447649987229153609771046);
    digit_modulus(333496777824725289574117, 166748388912362644787058, 1, 277674515327686447649987229153609771046, 679757260067311631562389909961743809592int, 271700976966599314426120921643728139444);
    digit_modulus(666993555649450579148234, 333496777824725289574117, 0, 271700976966599314426120921643728139444, 216941658048817651546054994151742379146int, 201828115133182259129249697899267721734);
    digit_modulus(1333987111298901158296469, 666993555649450579148234, 1, 201828115133182259129249697899267721734, 359124586091268615475029631721230020236int, 82330758994790918188857437663016237536);
    digit_modulus(2667974222597802316592939, 1333987111298901158296469, 1, 82330758994790918188857437663016237536, 59759375174146784598425419182947500490int, 191849017973758196150126350055387400758);
    digit_modulus(5335948445195604633185879, 2667974222597802316592939, 1, 191849017973758196150126350055387400758, 324489740951345985309810623703888630546int, 171214483716940800109271748755523614490);
    digit_modulus(10671896890391209266371759, 5335948445195604633185879, 1, 171214483716940800109271748755523614490, 258441831997155960417248797975259622828int, 61440393098274427865307628422426713664);
    digit_modulus(21343793780782418532743518, 10671896890391209266371759, 0, 61440393098274427865307628422426713664, 11093498432575429278982375420802316579int, 45830401629891048724506282648191882973);
    digit_modulus(42687587561564837065487036, 21343793780782418532743518, 0, 45830401629891048724506282648191882973, 6172596401520667250433006262512512284int, 275491629374014455856555582798507298221);
    digit_modulus(85375175123129674130974072, 42687587561564837065487036, 0, 275491629374014455856555582798507298221, 223037233876955519655297864634011254235int, 237856134574078592685549408815826405646);
    digit_modulus(170750350246259348261948144, 85375175123129674130974072, 0, 237856134574078592685549408815826405646, 166260571379142316548390041008989561322int, 6877899909507029740353096986347805402);
    digit_modulus(341500700492518696523896288, 170750350246259348261948144, 0, 6877899909507029740353096986347805402, 139018391088680229785892416483542960int, 115362785935031231849657020162973252084);
    digit_modulus(683001400985037393047792576, 341500700492518696523896288, 0, 115362785935031231849657020162973252084, 39110379121654477260896780861315059383int, 45537186305272460632372881356804391385);
    digit_modulus(1366002801970074786095585152, 683001400985037393047792576, 0, 45537186305272460632372881356804391385, 6093866559600145804294658528024548646int, 336530525888297755286912074649206789323);
    digit_modulus(2732005603940149572191170304, 1366002801970074786095585152, 0, 336530525888297755286912074649206789323, 332820051416203738615373932513499501291int, 49536294003552345157358428024629954062);
    digit_modulus(5464011207880299144382340608, 2732005603940149572191170304, 0, 49536294003552345157358428024629954062, 7211200644365168152949869238055530193int, 103816974906263913303753067503303113203);
    digit_modulus(10928022415760598288764681216, 5464011207880299144382340608, 0, 103816974906263913303753067503303113203, 31673590307404890562070324381827566763int, 333284412101495756604616006688098324478);
    digit_modulus(21856044831521196577529362432, 10928022415760598288764681216, 0, 333284412101495756604616006688098324478, 326430371208884114325047910373309885040int, 261373031832792453034506986574282266004);
    digit_modulus(43712089663042393155058724864, 21856044831521196577529362432, 0, 261373031832792453034506986574282266004, 200762273953908727918407563017179377024int, 260848276511661585755101956704512602128);
    digit_modulus(87424179326084786310117449728, 43712089663042393155058724864, 0, 260848276511661585755101956704512602128, 199956947445687554087443812432753290665int, 190974718273127772831591283865023976279);
    digit_modulus(174848358652169572620234899456, 87424179326084786310117449728, 0, 190974718273127772831591283865023976279, 107179644215811835529850176769067903927int, 48644571059224699417327150334128430042);
    digit_modulus(349696717304339145240469798912, 174848358652169572620234899456, 0, 48644571059224699417327150334128430042, 6953913936086345360815192763548605840int, 119347996941296406132769669830914545684);
    digit_modulus(699393434608678290480939597824, 349696717304339145240469798912, 0, 119347996941296406132769669830914545684, 41859190362364995016515045802567726957int, 22568369789967422970516329806639974947);
    digit_modulus(1398786869217356580961879195648, 699393434608678290480939597824, 0, 22568369789967422970516329806639974947, 1496790208630036821658683043356294878int, 196705440728647705114325700691847545323);
    digit_modulus(2797573738434713161923758391296, 1398786869217356580961879195648, 0, 196705440728647705114325700691847545323, 113708596664491615516630523542755515855int, 219642497510768089577794490338970505194);
    digit_modulus(5595147476869426323847516782592, 2797573738434713161923758391296, 0, 219642497510768089577794490338970505194, 141772925671392640128573129529805393965int, 160042436813958316281852644231524053431);
    digit_modulus(11190294953738852647695033565184, 5595147476869426323847516782592, 0, 160042436813958316281852644231524053431, 75271551133006326575279494494386787160int, 282913102807079685360612742805337406841);
    digit_modulus(22380589907477705295390067130368, 11190294953738852647695033565184, 0, 282913102807079685360612742805337406841, 235215901617746093626515258427720935930int, 280691923056499062094022758258862274871);
    digit_modulus(44761179814955410590780134260736, 22380589907477705295390067130368, 0, 280691923056499062094022758258862274871, 231536992004823041947093084166687368239int, 50178216036014902302262946580347643298);
    digit_modulus(89522359629910821181560268521472, 44761179814955410590780134260736, 0, 50178216036014902302262946580347643298, 7399306015589058125006914548878622197int, 11089193531819991040129934783324880015);
    digit_modulus(179044719259821642363120537042944, 89522359629910821181560268521472, 0, 11089193531819991040129934783324880015, 361376977299353703306331384143045107int, 76964879723081386932378544232375350766);
    digit_modulus(358089438519643284726241074085888, 179044719259821642363120537042944, 0, 76964879723081386932378544232375350766, 17407874420259565571772406546086180812int, 123010438648042455585741231193369358712);
    digit_modulus(716178877039286569452482148171776, 358089438519643284726241074085888, 0, 123010438648042455585741231193369358712, 44467681805855959260289530044382910937int, 236267549016541048220002629180968668775);
    digit_modulus(1432357754078573138904964296343552, 716178877039286569452482148171776, 0, 236267549016541048220002629180968668775, 164047156552350675001118882231311112800int, 113628558946858638466798413678991627025);
    digit_modulus(2864715508157146277809928592687104, 1432357754078573138904964296343552, 0, 113628558946858638466798413678991627025, 37943339601077792739065875314196317736int, 333904030564305793347804418868359430393);
    digit_modulus(5729431016314292555619857185374208, 2864715508157146277809928592687104, 0, 333904030564305793347804418868359430393, 327645251312692891984348682946584459422int, 97384787062043500705323769498084882835);
    digit_modulus(11458862032628585111239714370748416, 5729431016314292555619857185374208, 0, 97384787062043500705323769498084882835, 27870373763219502288416231375713375585int, 12099614858086034549523900503417763080);
    digit_modulus(22917724065257170222479428741496832, 11458862032628585111239714370748416, 0, 12099614858086034549523900503417763080, 430232929900923154499128358484267319int, 200729157779495545250862019691729977097);
    digit_modulus(45835448130514340444958857482993664, 22917724065257170222479428741496832, 0, 200729157779495545250862019691729977097, 118408118373724445003558953335097333455int, 80594388104399639958430297425906227074);
    digit_modulus(91670896261028680889917714965987328, 45835448130514340444958857482993664, 0, 80594388104399639958430297425906227074, 19088427803935414093575210255125039174int, 162985532888496978311821854277402351038);
    digit_modulus(183341792522057361779835429931974656, 91670896261028680889917714965987328, 0, 162985532888496978311821854277402351038, 78065414236169638993947928912024382488int, 153222959524204225652970516586043313388);
    digit_modulus(366683585044114723559670859863949312, 183341792522057361779835429931974656, 0, 153222959524204225652970516586043313388, 68993511294138433680477411968066231536int, 232457164306082448136840562214723607712);
    digit_modulus(733367170088229447119341719727898624, 366683585044114723559670859863949312, 0, 232457164306082448136840562214723607712, 158798511148771532064048649814980655067int, 273267345175343541535018644581886716965);
    digit_modulus(1466734340176458894238683439455797248, 733367170088229447119341719727898624, 0, 273267345175343541535018644581886716965, 219450224867309757247593073611059177128int, 162980337386493269565565416530788685489);
    digit_modulus(2933468680352917788477366878911594496, 1466734340176458894238683439455797248, 0, 162980337386493269565565416530788685489, 78060437321416522034433157668427445722int, 216039330317360012950439517736513974407);
    digit_modulus(5866937360705835576954733757823188992, 2933468680352917788477366878911594496, 0, 216039330317360012950439517736513974407, 137159596796907897691429537865488075970int, 87636469145394921285011949055267035759);
    digit_modulus(11733874721411671153909467515646377984, 5866937360705835576954733757823188992, 0, 87636469145394921285011949055267035759, 22569934474612872738528677861149784168int, 114792961311339977158635919681573159865);
    lemma_pow_mod_is_pow(3, 11733874721411671153909467515646377984, 340282366920938463463374557953744961537);
}

/// `3^1880013076911262229079417447258259456 mod 340282366920938463463374557953744961537`.
proof fn lemma_power_modulus_3()
    ensures
        pow(3, 1880013076911262229079417447258259456) % 340282366920938463463374557953744961537 == 95816247745561154808017863345204159341,
{
    lemma_pow_mod_base(3, 340282366920938463463374557953744961537);
    digit_modulus(1, 0, 1, 1, 0int, 3);
    digit_modulus(2, 1, 0, 3, 0int, 9);
    digit_modulus(5, 2, 1, 9, 0int, 243);
    digit_modulus(11, 5, 1, 243, 0int, 177147);
    digit_modulus(22, 11, 0, 177147, 0int, 31381059609);
    digit_modulus(45, 22, 1, 31381059609, 0int, 2954312706550833698643);
    digit_modulus(90, 45, 0, 2954312706550833698643, 25649int, 61138932561776519303442521122821578936);
    digit_modulus(181, 90, 1, 61138932561776519303442521122821578936, 32954711482260911715200488072110710164int, 127936988137718518719692797226301714220);
    digit_modulus(362, 181, 0, 127936988137718518719692797226301714220, 48100855421502509152802133082738751934int, 333110384700876478067043098998335845842);
    digit_modulus(724, 362, 0, 333110384700876478067043098998335845842, 326089563204863518237258514294734120104int, 335507534520099603737906136830570249116);
    digit_modulus(1448, 724, 0, 335507534520099603737906136830570249116, 330799702430391757559018567574333377272int, 9713927566050958599469915348794392);
    digit_modulus(2896, 1448, 0, 9713927566050958599469915348794392, 277300259817484122729784212034int, 109273032354926573911121402210708113406);
    digit_modulus(5793, 2896, 1, 109273032354926573911121402210708113406, 105270770049760934048893849483527645828int, 107777738334025956826678356045252244872);
    digit_modulus(11586, 5793, 0, 107777738334025956826678356045252244872, 34136476084570819042455346483670769515int, 275432033589666453265730405300583151829);
    digit_modulus(23172, 11586, 0, 275432033589666453265730405300583151829, 222940747161798094006736559642422713759int, 196506132616989400874965282883050357658);
    digit_modulus(46345, 23172, 1, 196506132616989400874965282883050357658, 340434861543010191567970803760282796049int, 290341152761133335514164236768837167579);
    digit_modulus(92691, 46345, 1, 290341152761133335514164236768837167579, 743188538531439445063535334605205158059int, 208681571964049272308875200723025587040);
    digit_modulus(185383, 92691, 1, 208681571964049272308875200723025587040, 383928196498392110114858178980153487794int, 6162741085210276696439183164918905422);
    digit_modulus(370767, 185383, 1, 6162741085210276696439183164918905422, 334834079358830584049190946234666287int, 141184394424601379192427160900897391133);
    digit_modulus(741534, 370767, 0, 141184394424601379192427160900897391133, 58577919888727802811782424049677574145int, 156669695871918956934463415071096362824);
    digit_modulus(1483068, 741534, 0, 156669695871918956934463415071096362824, 72132428802290776679449715747940561046int, 249983002964289330876000523022378767274);
    digit_modulus(2966137, 1483068, 1, 249983002964289330876000523022378767274, 550938054796972992467850601399615877899int, 219248671962497368663953909755316802465);
    digit_modulus(5932275, 2966137, 1, 219248671962497368663953909755316802465, 423794925893007607179785746868752895309int, 161984476718536347101128931215897498742);
    digit_modulus(11864550, 5932275, 0, 161984476718536347101128931215897498742, 77109404566574064847189358196665398860int, 112851163448420031501178029662427934744);
    digit_modulus(23729101, 11864550, 1, 112851163448420031501178029662427934744, 112277799230963076420059451051793537924int, 250416142397648536021181953412836207420);
    digit_modulus(47458202, 23729101, 0, 250416142397648536021181953412836207420, 184282967527051095342495070766276753100int, 32101949080930278265524974872517541700);
    digit_modulus(94916404, 47458202, 0, 32101949080930278265524974872517541700, 3028470573187460736962746486266643923int, 168144557108001727716562856143529100349);
    digit_modulus(189832808, 94916404, 0, 168144557108001727716562856143529100349, 83085680697686389127788883960672834943int, 283965800836868563405861700641027334410);
    digit_modulus(379665617, 189832808, 1, 283965800836868563405861700641027334410, 710908797078450587331934233734982708926int, 313618187764016258784865024381973565038);
    digit_modulus(759331234, 379665617, 0, 313618187764016258784865024381973565038, 289043386486252964386891269488276162629int, 72986690806006951764785459809654140671);
    digit_modulus(1518662469, 759331234, 1, 72986690806006951764785459809654140671, 46964440881969238110600397427608873793int, 32516514598779099875276672501696690882);
    digit_modulus(3037324938, 1518662469, 0, 32516514598779099875276672501696690882, 3107195154482612229427178574449430766int, 12509990402695377790855551078847490582);
    digit_modulus(6074649877, 3037324938, 1, 12509990402695377790855551078847490582, 1379735258911242295822321118980552959int, 157386687120425890420469959703289558189);
    digit_modulus(12149299754, 6074649877, 0, 157386687120425890420469959703289558189, 72794160646290705538373363561917649477int, 160608763679008052537468552276003793572);
    digit_modulus(24298599508, 12149299754, 0, 160608763679008052537468552276003793572, 75805206140736444054939419674564040926int, 325039734501023616880287501924024655922);
    digit_modulus(48597199017, 24298599508, 1, 325039734501023616880287501924024655922, 931439644908573288552427242810580866957int, 37791019444926284993858005779389777343);
    digit_modulus(97194398035, 48597199017, 1, 37791019444926284993858005779389777343, 12590965235221403025763752319276317532int, 13269225898347770615540038081009652263);
    digit_modulus(194388796070, 97194398035, 0, 13269225898347770615540038081009652263, 517430149362667454290053137384855088int, 253484698135614347162174939101302270913);
    digit_modulus(388777592141, 194388796070, 1, 253484698135614347162174939101302270913, 566480944372581718127096301588864447491int, 138282487133789873491585171581986407040);
    digit_modulus(777555184283, 388777592141, 1, 138282487133789873491585171581986407040, 168583930054326882739027997067780672259int, 162156775970751912375616669373726782717);
    digit_modulus(1555110368567, 777555184283, 1, 162156775970751912375616669373726782717, 231820592684468915490465764926685274397int, 183505794850835511142934614328133838078);
    digit_modulus(3110220737134, 1555110368567, 0, 183505794850835511142934614328133838078, 98960099074604316138238504563958863815int, 262135303667334853922378995111726650429);
    digit_modulus(6220441474268, 3110220737134, 0, 262135303667334853922378995111726650429, 201934993136835528577518240943325784728int, 294106296490620260895007477817263877105);
    digit_modulus(12440882948537, 6220441474268, 1, 294106296490620260895007477817263877105, 762588855997282226114534500496422682701int, 40272847756943572717821596330029271638);
    digit_modulus(24881765897074, 12440882948537, 0, 40272847756943572717821596330029271638, 4766342379506221398017301011191602329int, 291074226166256749432679411099286583371);
    digit_modulus(49763531794149, 24881765897074, 1, 291074226166256749432679411099286583371, 746946183884721446766524234775678907748int, 105724808952081891291918469281169882247);
    digit_modulus(99527063588298, 49763531794149, 0, 105724808952081891291918469281169882247, 32848411538618635239834328358016815337int, 210059323576091835563385750605549076040);
    digit_modulus(199054127176596, 99527063588298, 0, 210059323576091835563385750605549076040, 129671483775406082127945738961656689828int, 175434253319372981950335339093102935964);
    digit_modulus(398108254353193, 199054127176596, 1, 175434253319372981950335339093102935964, 271337984829023445720797051264376931268int, 165693832259254007008719024881301188972);
    digit_modulus(796216508706386, 398108254353193, 0, 165693832259254007008719024881301188972, 80681365588175177368934934766571846473int, 23171963637449835744535090722400307783);
    digit_modulus(1592433017412772, 796216508706386, 0, 23171963637449835744535090722400307783, 1577924544471181963489541171372056750int, 325107328773164762847285684427799150339);
    digit_modulus(3184866034825544, 1592433017412772, 0, 325107328773164762847285684427799150339, 310609027962297769947921254050546857185int, 139457004482313089823746978046266721576);
    digit_modulus(6369732069651088, 3184866034825544, 0, 139457004482313089823746978046266721576, 57153287944827655407926164859789723984int, 290491282043987485161057794363177520368);
    digit_modulus(12739464139302176, 6369732069651088, 0, 290491282043987485161057794363177520368, 247985770485620320045940820952878597833int, 173954433204718436289270723983978306103);
    digit_modulus(25478928278604353, 12739464139302176, 1, 173954433204718436289270723983978306103, 266779719784353559362570665742119017211int, 73898829175007118936369300206065126520);
    digit_modulus(50957856557208706, 25478928278604353, 0, 73898829175007118936369300206065126520, 16048545220992029795947294162331292920int, 127055784451414376976388327466726892360);
    digit_modulus(101915713114417412, 50957856557208706, 0, 127055784451414376976388327466726892360, 47440519791361953655945217115501709731int, 306067516351089470864949091172692753053);
    digit_modulus(203831426228834824, 101915713114417412, 0, 306067516351089470864949091172692753053, 275292914566711890273564173960422308342int, 252029924008255892106630679106896579155);
    digit_modulus(407662852457669648, 203831426228834824, 0, 252029924008255892106630679106896579155, 186665806901376483116189990738049259741int, 37511773895263689467683913949812932108);
    digit_modulus(815325704915339297, 407662852457669648, 1, 37511773895263689467683913949812932108, 12405578286367577936127197084183816896int, 11709647389318281522861554275281241840);
    digit_modulus(1630651409830678595, 815325704915339297, 1, 11709647389318281522861554275281241840, 1208841732437103398831811974221523281int, 173201950277488485128118212762804713903);
    digit_modulus(3261302819661357191, 1630651409830678595, 1, 173201950277488485128118212762804713903, 264476668462479316120859433329477050028int, 67952941192297431559460750633959707191);
    digit_modulus(6522605639322714383, 3261302819661357191, 1, 67952941192297431559460750633959707191, 40709739900422386055455279852773091414int, 28112035618724491168853833661356388125);
    digit_modulus(13045211278645428767, 6522605639322714383, 1, 28112035618724491168853833661356388125, 6967330283194342811138238113187924627int, 154128978332221148590535226405952975176);
    digit_modulus(26090422557290857534, 13045211278645428767, 0, 154128978332221148590535226405952975176, 69811851189026578442521074121891668020int, 65579599928840008206855500830399284236);
    digit_modulus(52180845114581715068, 26090422557290857534, 0, 65579599928840008206855500830399284236, 12638574151642531337891164745472265095int, 185563547620943096078003476730075452681);
    digit_modulus(104361690229163430136, 52180845114581715068, 0, 185563547620943096078003476730075452681, 101191932209847376011649552897170163996int, 122479322883154652694550170858067865909);
    digit_modulus(208723380458326860273, 104361690229163430136, 1, 122479322883154652694550170858067865909, 132253557564457409315044923956995445854int, 9289874481026358233866670769417071245);
    digit_modulus(417446760916653720547, 208723380458326860273, 1, 9289874481026358233866670769417071245, 760854304507140555369462930347015152int, 19658920245243175674864529493221341451);
    digit_modulus(834893521833307441095, 417446760916653720547, 1, 19658920245243175674864529493221341451, 3407227492031277213112596920781932496int, 326178699591191012066371345809741949851);
    digit_modulus(1669787043666614882190, 834893521833307441095, 0, 326178699591191012066371345809741949851, 312659586300925722101751636523290718002int, 168230122765995770127479179012795433127);
    digit_modulus(3339574087333229764381, 1669787043666614882190, 1, 168230122765995770127479179012795433127, 249510791246237955841020678701164773631int, 78809318916864387433407113925180163540);
    digit_modulus(6679148174666459528763, 3339574087333229764381, 1, 78809318916864387433407113925180163540, 54756661101835061341673267062754481232int, 98128787294210489679849251815207621216);
    digit_modulus(13358296349332919057526, 6679148174666459528763, 0, 98128787294210489679849251815207621216, 28297848586640627859567127408544847806int, 70593420981882686472227822776344480834);
    digit_modulus(26716592698665838115053, 13358296349332919057526, 1, 70593420981882686472227822776344480834, 43934963169130388261599542322253204675int, 111960234147598118552999725306116421193);
    digit_modulus(53433185397331676230107, 26716592698665838115053, 1, 111960234147598118552999725306116421193, 110511991648078065936625295059229423884int, 282983929942129089941059114926289480039);
    digit_modulus(106866370794663352460214, 53433185397331676230107, 0, 282983929942129089941059114926289480039, 235333688695358310788183463191843029055int, 288849837173379263153713089718430983986);
    digit_modulus(213732741589326704920428, 106866370794663352460214, 0, 288849837173379263153713089718430983986, 245191160476654679919994969131847666104int, 120784968121184619425793740989489806348);
    digit_modulus(427465483178653409840857, 213732741589326704920428, 1, 120784968121184619425793740989489806348, 128619728280765214224214397429204925804int, 137258496525667051209147250380704490564);
    digit_modulus(854930966357306819681715, 427465483178653409840857, 1, 137258496525667051209147250380704490564, 166096424909938105814141936157688131514int, 276261618043044565646555551122967537270);
    digit_modulus(1709861932714613639363431, 854930966357306819681715, 1, 276261618043044565646555551122967537270, 672857212329430708326481250737066551079int, 16600520777576948145672624696416310277);
    digit_modulus(3419723865429227278726862, 1709861932714613639363431, 0, 16600520777576948145672624696416310277, 809848869279764528780357966125128054int, 106142487186715647379567033039306157731);
    digit_modulus(6839447730858454557453724, 3419723865429227278726862, 0, 106142487186715647379567033039306157731, 33108467206588173503426420221185829213int, 196843534004107315900326925292115087980);
    digit_modulus(13678895461716909114907448, 6839447730858454557453724, 0, 196843534004107315900326925292115087980, 113868306576781148448253880247634320706int, 109961570769027514877271146578047795278);
    digit_modulus(27357790923433818229814896, 13678895461716909114907448, 0, 109961570769027514877271146578047795278, 35533863113163334221247831652357198831int, 22659071234356916250540180299442734037);
    digit_modulus(54715581846867636459629792, 27357790923433818229814896, 0, 22659071234356916250540180299442734037, 1508845473979416352820883077581521691int, 32947904031675714078785808388792118302);
    digit_modulus(109431163693735272919259584, 54715581846867636459629792, 0, 32947904031675714078785808388792118302, 3190186990596353350033027485685031804int, 330368700302388173344881981753761640456);
    digit_modulus(218862327387470545838519168, 109431163693735272919259584, 0, 330368700302388173344881981753761640456, 320743854955163390953845613394349945503int, 140286896854698390249429337043434769825);
    digit_modulus(437724654774941091677038336, 218862327387470545838519168, 0, 140286896854698390249429337043434769825, 57835537019446416164919498682178595688int, 137543595658163747136434131934496478169);
    digit_modulus(875449309549882183354076672, 437724654774941091677038336, 0, 137543595658163747136434131934496478169, 55595712695192118677552259524800891008int, 164026918205767048553688840256004433265);
    digit_modulus(1750898619099764366708153344, 875449309549882183354076672, 0, 164026918205767048553688840256004433265, 79066188881695677236951467877075964193int, 232856155863593996412051037053864315584);
    digit_modulus(3501797238199528733416306688, 1750898619099764366708153344, 0, 232856155863593996412051037053864315584, 159344105350508422095370302117847597801int, 284754068495908491555109746390154480919);
    digit_modulus(7003594476399057466832613376, 3501797238199528733416306688, 0, 284754068495908491555109746390154480919, 238287044546777484878277772638914050696int, 140852995088319374998738186668947004809);
    digit_modulus(14007188952798114933665226752, 7003594476399057466832613376, 0, 140852995088319374998738186668947004809, 58303245051659306568937468338349578119int, 73506571374261657292076222766437317578);
    digit_modulus(28014377905596229867330453504, 14007188952798114933665226752, 0, 73506571374261657292076222766437317578, 15878624814123300678110958468689145798int, 260279127376848434024227144237132614558);
    digit_modulus(56028755811192459734660907008, 28014377905596229867330453504, 0, 260279127376848434024227144237132614558, 199085320703066824902425606568772627439int, 112096774992415955007587966005507721621);
    digit_modulus(112057511622384919469321814016, 56028755811192459734660907008, 0, 112096774992415955007587966005507721621, 36927235100077504095033745390708884844int, 309081208873671225894350248749488622413);
    digit_modulus(224115023244769838938643628032, 112057511622384919469321814016, 0, 309081208873671225894350248749488622413, 280740946241877385114297472373150954052int, 172316865261663826942980226716891644645);
    digit_modulus(448230046489539677877287256064, 224115023244769838938643628032, 0, 172316865261663826942980226716891644645, 87260184306009984947600912855053781305int, 70752853368023293892595310009322510240);
    digit_modulus(896460092979079355754574512128, 448230046489539677877287256064, 0, 70752853368023293892595310009322510240, 14711212646760789219290568683999568165int, 93665337383347505792655245322370187995);
    digit_modulus(1792920185958158711509149024256, 896460092979079355754574512128, 0, 93665337383347505792655245322370187995, 25782104158146662219505239959789328804int, 261431089744848309168037003137615908277);
    digit_modulus(3585840371916317423018298048512, 1792920185958158711509149024256, 0, 261431089744848309168037003137615908277, 200851473156287751017663184813766093373int, 313214559937742263757309879757041514428);
    digit_modulus(7171680743832634846036596097024, 3585840371916317423018298048512, 0, 313214559937742263757309879757041514428, 288299865328569820993264880722913992543int, 166912540122036826160295967957092348593);
    digit_modulus(14343361487665269692073192194048, 7171680743832634846036596097024, 0, 166912540122036826160295967957092348593, 81872582179562437974158167366779240910int, 209026877023010465407010033986622200979);
    digit_modulus(28686722975330539384146384388096, 14343361487665269692073192194048, 0, 209026877023010465407010033986622200979, 128399939477746247578962839925259069241int, 27676635401905563765011893628303775024);
    digit_modulus(57373445950661078768292768776192, 28686722975330539384146384388096, 0, 27676635401905563765011893628303775024, 2251060359374967666085017242589681491int, 231068903700970083009452514502330388909);
    digit_modulus(114746891901322157536585537552384, 57373445950661078768292768776192, 0, 231068903700970083009452514502330388909, 156907449365348777434161166756156026632int, 69446124912697196719079371359602556897);
    digit_modulus(229493783802644315073171075104768, 114746891901322157536585537552384, 0, 69446124912697196719079371359602556897, 14172830373283691114715017322119297281int, 220544425484085967951305059267308587712);
    digit_modulus(458987567605288630146342150209536, 229493783802644315073171075104768, 0, 220544425484085967951305059267308587712, 142939653477273998082431662035516855535int, 91546687296898520536921575440236837649);
    digit_modulus(917975135210577260292684300419072, 458987567605288630146342150209536, 0, 91546687296898520536921575440236837649, 24628945751348095104912584813365357326int, 26113601559295390196879944777852677139);
    digit_modulus(1835950270421154520585368600838144, 917975135210577260292684300419072, 0, 26113601559295390196879944777852677139, 2003983317055252041704393686065809113int, 94078476501345690183909057980404138640);
    digit_modulus(3671900540842309041170737201676288, 1835950270421154520585368600838144, 0, 94078476501345690183909057980404138640, 26010045189531220560598575699090546029int, 290440548088761739649520161131407963027);
    digit_modulus(7343801081684618082341474403352576, 3671900540842309041170737201676288, 0, 290440548088761739649520161131407963027, 247899157212867303505451213401504886765int, 208590048944206498710932170302933644924);
    digit_modulus(14687602163369236164682948806705152, 7343801081684618082341474403352576, 0, 208590048944206498710932170302933644924, 127863835297277022742836382227558000300int, 237934081257219408701500909379976504676);
    digit_modulus(29375204326738472329365897613410304, 14687602163369236164682948806705152, 0, 237934081257219408701500909379976504676, 166369558128971523271047955901858421403int, 246636958495673407460769334966477288565);
    digit_modulus(58750408653476944658731795226820608, 29375204326738472329365897613410304, 0, 246636958495673407460769334966477288565, 178762684197884927399208281150503527652int, 210495135854291121698461479314723838101);
    digit_modulus(117500817306953889317463590453641216, 58750408653476944658731795226820608, 0, 210495135854291121698461479314723838101, 130210103506806412240845359858918507392int, 230671367639410337334736104023969104697);
    digit_modulus(235001634613907778634927180907282432, 117500817306953889317463590453641216, 0, 230671367639410337334736104023969104697, 156368019683484505925282291940353843418int, 290094191774043950275181641105216848343);
    digit_modulus(470003269227815557269854361814564864, 235001634613907778634927180907282432, 0, 290094191774043950275181641105216848343, 247308260085625770161517353518467778478int, 210774825035152592773859651559915444963);
    digit_modulus(940006538455631114539708723629129728, 470003269227815557269854361814564864, 0, 210774825035152592773859651559915444963, 130556359033793762612118672316399381048int, 236873178777523131984051226158915320593);
    digit_modulus(1880013076911262229079417447258259456, 940006538455631114539708723629129728, 0, 236873178777523131984051226158915320593, 164889245751616721930177464028354933684int, 95816247745561154808017863345204159341);
    lemma_pow_mod_is_pow(3, 1880013076911262229079417447258259456, 340282366920938463463374557953744961537);
}

/// `3^1187228923835958060921901750943744 mod 340282366920938463463374557953744961537`.
proof fn lemma_power_modulus_4()
    ensures
        pow(3, 1187228923835958060921901750943744) % 340282366920938463463374557953744961537 == 326132099507953641075081897713081089495,
{
    lemma_pow_mod_base(3, 340282366920938463463374557953744961537);
    digit_modulus(1, 0, 1, 1, 0int, 3);
    digit_modulus(3, 1, 1, 3, 0int, 27);
    digit_modulus(7, 3, 1, 27, 0int, 2187);
    digit_modulus(14, 7, 0, 2187, 0int, 4782969);
    digit_modulus(29, 14, 1, 4782969, 0int, 68630377364883);
    digit_modulus(58, 29, 0, 68630377364883, 0int, 4710128697246244834921603689);
    digit_modulus(117, 58, 1, 4710128697246244834921603689, 195590319992488749int, 107603077125692696339412718790824978950);
    digit_modulus(234, 117, 0, 107603077125692696339412718790824978950, 34025924739167906025679357811717695904int, 61433854090412209820450635405200658052);
    digit_modulus(468, 234, 0, 61433854090412209820450635405200658052, 11091137229802269934706806715202806723int, 247194787967765951160158403591752421453);
    digit_modulus(936, 468, 0, 247194787967765951160158403591752421453, 179572229238155095545171559545890583185int, 284850409375424624779023922300610675864);
    digit_modulus(1873, 936, 1, 284850409375424624779023922300610675864, 715344933581578326470674265040410179718int, 171114272676745898424061446385448932922);
    digit_modulus(3746, 1873, 0, 171114272676745898424061446385448932922, 86046463643221082809734278063246392341int, 116615306155649932211069061087399069967);
    digit_modulus(7492, 3746, 0, 116615306155649932211069061087399069967, 39964250139754082509235800372028755228int, 36309763953167673934669963509713715653);
    digit_modulus(14984, 7492, 0, 36309763953167673934669963509713715653, 3874426319131231052519860364391385205int, 49243926930568838623831931030461356324);
    digit_modulus(29969, 14984, 1, 49243926930568838623831931030461356324, 21378989115589008729156033527968352480int, 317163890592873365620062441502225817168);
    digit_modulus(59939, 29969, 1, 317163890592873365620062441502225817168, 886848187928997269998396839953330316820int, 331541282018040371062520187649166468332);
    digit_modulus(119879, 59939, 1, 331541282018040371062520187649166468332, 969074207489316760165936536957182354028int, 80952669087872853976090469594699565636);
    digit_modulus(239758, 119879, 0, 80952669087872853976090469594699565636, 19258519598734463025061394850165076674int, 321842281551711700026575587102286196558);
    digit_modulus(479517, 239758, 1, 321842281551711700026575587102286196558, 913204423123791015368751235721770302828int, 67746403046987046683390194665730815456);
    digit_modulus(959035, 479517, 1, 67746403046987046683390194665730815456, 40462647247935378540320223805319102488int, 101964870119837583234889732703264459752);
    digit_modulus(1918071, 959035, 1, 101964870119837583234889732703264459752, 91660653762035438478713604690358896652int, 244461468067294355600847988729785630388);
    digit_modulus(3836143, 1918071, 1, 244461468067294355600847988729785630388, 526868993333719833710450463043155110271int, 90880997314220730261369462891758445105);
    digit_modulus(7672287, 3836143, 1, 90880997314220730261369462891758445105, 72816194511304627736839217461560775729int, 57739275334868147170486431618907247602);
    digit_modulus(15344574, 7672287, 0, 57739275334868147170486431618907247602, 9797227950310740268602259046870609135int, 151072538472575045783060473606998909909);
    digit_modulus(30689148, 15344574, 0, 151072538472575045783060473606998909909, 67070509962246633017759991899360317126int, 262366778478727604506930130473306005619);
    digit_modulus(61378296, 30689148, 0, 262366778478727604506930130473306005619, 202291782181294223880394784508534867198int, 254411183596429772064304245032946609835);
    digit_modulus(122756593, 61378296, 1, 254411183596429772064304245032946609835, 570629482725808519747329652682325851359int, 31776032139413071663023801768922002892);
    digit_modulus(245513187, 122756593, 1, 31776032139413071663023801768922002892, 8901867831073458958788375467558874685int, 296545504697509133634091673606241100147);
    digit_modulus(491026374, 245513187, 0, 296545504697509133634091673606241100147, 258430188881142640762113301999873908339int, 221674927971392464523286658815464864566);
    digit_modulus(982052748, 491026374, 0, 221674927971392464523286658815464864566, 144408815936499055045297067539026232026int, 294861203023919316138038805573314784394);
    digit_modulus(1964105496, 982052748, 0, 294861203023919316138038805573314784394, 255502892598938037073767716249169671617int, 117658597889036349751153311196120351907);
    digit_modulus(3928210993, 1964105496, 1, 117658597889036349751153311196120351907, 122047572865540563184116651672665140134int, 245778856074931950156450328994010583989);
    digit_modulus(7856421987, 3928210993, 1, 245778856074931950156450328994010583989, 532562823987325729127113619335102692080int, 61879083392960678810928466673714929403);
    digit_modulus(15712843975, 7856421987, 1, 61879083392960678810928466673714929403, 33757443821142403187084094593724926748int, 248590159627888848925332550638419317551);
    digit_modulus(31425687950, 15712843975, 0, 248590159627888848925332550638419317551, 181605259252758312367242024397631013674int, 199866550136711210493095973857125580663);
    digit_modulus(62851375901, 31425687950, 1, 199866550136711210493095973857125580663, 352177853572104752107606259575315168368int, 221771427114551279562787488863919497091);
    digit_modulus(125702751802, 62851375901, 0, 221771427114551279562787488863919497091, 144534570890215583039584563653986788142int, 188633816646826532708631742768399768027);
    digit_modulus(251405503605, 125702751802, 1, 188633816646826532708631742768399768027, 313704619237727594036612521902818969041int, 219182351024623885981351198959695642170);
    digit_modulus(502811007211, 251405503605, 1, 219182351024623885981351198959695642170, 423538575642768879927184311811201372406int, 201644021397278032993752887143963778678);
    digit_modulus(1005622014422, 502811007211, 0, 201644021397278032993752887143963778678, 119489915781363356849455533587491192685int, 232985153454145094501541606566586670839);
    digit_modulus(2011244028844, 1005622014422, 0, 232985153454145094501541606566586670839, 159520701061373214189620028266273397004int, 248357347496547001515909392515021928773);
    digit_modulus(4022488057689, 2011244028844, 1, 248357347496547001515909392515021928773, 543795783016741310168725605428260866253int, 249917438555699424513354228913469545726);
    digit_modulus(8044976115378, 4022488057689, 0, 249917438555699424513354228913469545726, 183549699208344576091281175423625058357int, 307058030738646881058016212058459452367);
    digit_modulus(16089952230757, 8044976115378, 1, 307058030738646881058016212058459452367, 831232911898153070773695639409459966922int, 137208220187550756182744437184443428953);
    digit_modulus(32179904461514, 16089952230757, 0, 137208220187550756182744437184443428953, 55324922820374892575909042898549089911int, 51409396768662889400368228667308923002);
    digit_modulus(64359808923028, 32179904461514, 0, 51409396768662889400368228667308923002, 7766861680293490942860236643761871539int, 66558365572189205653142265138474696561);
    digit_modulus(128719617846057, 64359808923028, 1, 66558365572189205653142265138474696561, 39055941109082994860856118546323620429int, 291158408252841157982670081171883240790);
    digit_modulus(257439235692114, 128719617846057, 0, 291158408252841157982670081171883240790, 249126099196390080147739317079146549523int, 261773720610933671395497073873219127249);
    digit_modulus(514878471384229, 257439235692114, 1, 261773720610933671395497073873219127249, 604134866780321035469530249784187587462int, 52218905543088582118188153777749474909);
    digit_modulus(1029756942768458, 514878471384229, 0, 52218905543088582118188153777749474909, 8013386414323249638592221028742267823int, 250941177208239888780175667891932834330);
    digit_modulus(2059513885536917, 1029756942768458, 1, 250941177208239888780175667891932834330, 555169593315613456247986170555177466637int, 240615905441399122124221864927013905631);
    digit_modulus(4119027771073834, 2059513885536917, 0, 240615905441399122124221864927013905631, 170141093337451540456587462402784934503int, 222899754811277217938422470993774297050);
    digit_modulus(8238055542147668, 4119027771073834, 0, 222899754811277217938422470993774297050, 146009036978607828005645482788766002250int, 322115561655206587452600915602133244250);
    digit_modulus(16476111084295337, 8238055542147668, 1, 322115561655206587452600915602133244250, 914755906977894028751288069705820123120int, 319838116764971771304417922965469752060);
    digit_modulus(32952222168590674, 16476111084295337, 0, 319838116764971771304417922965469752060, 300622162298322577813224646947598298764int, 147193457098518695352989325600059603332);
    digit_modulus(65904444337181348, 32952222168590674, 0, 147193457098518695352989325600059603332, 63670398230324238992868159051021160763int, 173544344040041513323306967476656929493);
    digit_modulus(131808888674362696, 65904444337181348, 0, 173544344040041513323306967476656929493, 88507787285039821016457507182700155935int, 241888823018327235860376646664295964954);
    digit_modulus(263617777348725393, 131808888674362696, 1, 241888823018327235860376646664295964954, 515838095555382863862593995208360119483int, 105655269835703230656994378339429340977);
    digit_modulus(527235554697450786, 263617777348725393, 0, 105655269835703230656994378339429340977, 32805214519531338640286429112622325453int, 174324968022758918705575976701550213268);
    digit_modulus(1054471109394901572, 527235554697450786, 0, 174324968022758918705575976701550213268, 89305816081844095646995732950757114721int, 227902312350088295162679380767041753647);
    digit_modulus(2108942218789803144, 1054471109394901572, 0, 227902312350088295162679380767041753647, 152636366216956735552705188055885292030int, 92857570604899807288899194228675150499);
    digit_modulus(4217884437579606288, 2108942218789803144, 0, 92857570604899807288899194228675150499, 25339333614801496349456981703961829579int, 82381436574366843112110692400796046078);
    digit_modulus(8435768875159212576, 4217884437579606288, 0, 82381436574366843112110692400796046078, 19944321986079448318938866828372454149int, 184226449423049010798264048109998115071);
    digit_modulus(16871537750318425152, 8435768875159212576, 0, 184226449423049010798264048109998115071, 99738887366175940851050434490291882204int, 74708537581426792026867114615642547493);
    digit_modulus(33743075500636850305, 16871537750318425152, 1, 74708537581426792026867114615642547493, 49206477885340199813894148810333533731int, 324924199557471730368717459598394650600);
    digit_modulus(67486151001273700610, 33743075500636850305, 0, 324924199557471730368717459598394650600, 310259201537155410169483655811768989569int, 304053300406396116707051265280821152447);
    digit_modulus(134972302002547401221, 67486151001273700610, 1, 304053300406396116707051265280821152447, 815044373217567113430151669089077804663int, 319723866382962792347709788870308016396);
    digit_modulus(269944604005094802442, 134972302002547401221, 0, 319723866382962792347709788870308016396, 300407428277414439227816259069775358165int, 273630741476020711714077221831880929211);
    digit_modulus(539889208010189604884, 269944604005094802442, 0, 273630741476020711714077221831880929211, 220034271414695810467014620755998146957int, 248365134679808991636218066409554489612);
    digit_modulus(1079778416020379209769, 539889208010189604884, 1, 248365134679808991636218066409554489612, 543829884716168685577005063653889586801int, 290245030418612710527439435072879858495);
    digit_modulus(2159556832040758419538, 1079778416020379209769, 0, 290245030418612710527439435072879858495, 247565509917457248772516929224555649969int, 22897083783906081089356075651283422672);
    digit_modulus(4319113664081516839076, 2159556832040758419538, 0, 22897083783906081089356075651283422672, 1540710000788920456592140663797518162int, 133922280322073415735699605582254684590);
    digit_modulus(8638227328163033678152, 4319113664081516839076, 0, 133922280322073415735699605582254684590, 52706748601026067740393896553139301385int, 273968076176702600678430305960507639355);
    digit_modulus(17276454656326067356304, 8638227328163033678152, 0, 273968076176702600678430305960507639355, 220577126705488931953754080503363555965int, 252565169627251044796373021348272897820);
    digit_modulus(34552909312652134712608, 17276454656326067356304, 0, 252565169627251044796373021348272897820, 187459507485037948976224962547523295088int, 24163955223955335040293171624099722144);
    digit_modulus(69105818625304269425216, 34552909312652134712608, 0, 24163955223955335040293171624099722144, 1715918275015941279723033693898095264int, 280846332308893463802228481056762095968);
    digit_modulus(138211637250608538850432, 69105818625304269425216, 0, 280846332308893463802228481056762095968, 231791800101364736725487411503251810234int, 42162645305650844417259314628488887366);
    digit_modulus(276423274501217077700864, 138211637250608538850432, 0, 42162645305650844417259314628488887366, 5224157440938310805985839794812580611int, 240289481317046624800052396590727458849);
    digit_modulus(552846549002434155401728, 276423274501217077700864, 0, 240289481317046624800052396590727458849, 169679773166237680891175939981233698317int, 199626032634308769013560374041561771572);
    digit_modulus(1105693098004868310803456, 552846549002434155401728, 0, 199626032634308769013560374041561771572, 117110249543353581754637347888720914328int, 283941335394372900081387424317275149048);
    digit_modulus(2211386196009736621606912, 1105693098004868310803456, 0, 283941335394372900081387424317275149048, 236928767937810051357390235001442732417int, 186225796566368773381760669870767261375);
    digit_modulus(4422772392019473243213824, 2211386196009736621606912, 0, 186225796566368773381760669870767261375, 101915499238419731553660894623539891418int, 253868199840567313958427571272000501159);
    digit_modulus(8845544784038946486427648, 4422772392019473243213824, 0, 253868199840567313958427571272000501159, 189398773358316212759273255871337613731int, 329376916073500607069488213133202278734);
    digit_modulus(17691089568077892972855296, 8845544784038946486427648, 0, 329376916073500607069488213133202278734, 318820965728430876929143188860535930290int, 7004564394961642380972522287665387026);
    digit_modulus(35382179136155785945710592, 17691089568077892972855296, 0, 7004564394961642380972522287665387026, 144185908917707507030276598788140015int, 315753324749988068443709902400423521621);
    digit_modulus(70764358272311571891421184, 35382179136155785945710592, 0, 315753324749988068443709902400423521621, 292992443284126622009265189181331191236int, 91486690647594499591050995526242977909);
    digit_modulus(141528716544623143782842368, 70764358272311571891421184, 0, 91486690647594499591050995526242977909, 24596674348375229641668151171855924351int, 307032476498426409796843154482185324794);
    digit_modulus(283057433089246287565684736, 141528716544623143782842368, 0, 307032476498426409796843154482185324794, 277031520844743928100521712334157410024int, 94888804132682817320711116051852895548);
    digit_modulus(566114866178492575131369472, 283057433089246287565684736, 0, 94888804132682817320711116051852895548, 26460040322402644966145053386058620513int, 133760470744018048657967538513334011823);
    digit_modulus(1132229732356985150262738944, 566114866178492575131369472, 0, 133760470744018048657967538513334011823, 52579461273755396517737182388141080662int, 5188499500628566888325727387099285835);
    digit_modulus(2264459464713970300525477888, 1132229732356985150262738944, 0, 5188499500628566888325727387099285835, 79112318724048458994299858671256025int, 158540261298975306331593645475927136800);
    digit_modulus(4528918929427940601050955776, 2264459464713970300525477888, 0, 158540261298975306331593645475927136800, 73865168742602701548285453903456583309int, 58518169660745210367656870254273054067);
    digit_modulus(9057837858855881202101911552, 4528918929427940601050955776, 0, 58518169660745210367656870254273054067, 10063337138005108874393122410893588980int, 219714967742816166140146013029518178229);
    digit_modulus(18115675717711762404203823104, 9057837858855881202101911552, 0, 219714967742816166140146013029518178229, 141866496013420911612388540122092975669int, 38410930604978896627024803590727733188);
    digit_modulus(36231351435423524808407646208, 18115675717711762404203823104, 0, 38410930604978896627024803590727733188, 4335809707951456218935659352841066133int, 23737934784352132304063673740758316923);
    digit_modulus(72462702870847049616815292416, 36231351435423524808407646208, 0, 23737934784352132304063673740758316923, 1655946950542625749184263719390599220int, 166397592205457024825863294437425986789);
    digit_modulus(144925405741694099233630584832, 72462702870847049616815292416, 0, 166397592205457024825863294437425986789, 81368185317127132184305302759093368487int, 198477065785522124531509886704819646002);
    digit_modulus(289850811483388198467261169664, 144925405741694099233630584832, 0, 198477065785522124531509886704819646002, 115766050410667088666530733230748211459int, 2627686302810822192675587689096931521);
    digit_modulus(579701622966776396934522339328, 289850811483388198467261169664, 0, 2627686302810822192675587689096931521, 20291193365255569849667851355816119int, 33354229422246837990874124940863758538);
    digit_modulus(1159403245933552793869044678656, 579701622966776396934522339328, 0, 33354229422246837990874124940863758538, 3269357241218311623585496110232145038int, 52092867877501608773735106843652494038);
    digit_modulus(2318806491867105587738089357312, 1159403245933552793869044678656, 0, 52092867877501608773735106843652494038, 7974750229515521657702613117737890990int, 320634855532765045695268827832576693814);
    digit_modulus(4637612983734211175476178714624, 2318806491867105587738089357312, 0, 320634855532765045695268827832576693814, 302121768790926868381499627684372643651int, 278066505016053708467028436353103615009);
    digit_modulus(9275225967468422350952357429248, 4637612983734211175476178714624, 0, 278066505016053708467028436353103615009, 227225941536394256627871295993750488843int, 194126164714868630976485055482107438390);
    digit_modulus(18550451934936844701904714858496, 9275225967468422350952357429248, 0, 194126164714868630976485055482107438390, 110746166978614172002339815633267086507int, 65837600525734467748313933700879110841);
    digit_modulus(37100903869873689403809429716992, 18550451934936844701904714858496, 0, 65837600525734467748313933700879110841, 12738214096157660274016618531142746815int, 300628794297411891527496866542059472626);
    digit_modulus(74201807739747378807618859433984, 37100903869873689403809429716992, 0, 300628794297411891527496866542059472626, 265596107075727579367482635338057422742int, 274411913160623938837103156211104261422);
    digit_modulus(148403615479494757615237718867968, 74201807739747378807618859433984, 0, 274411913160623938837103156211104261422, 221292389511236502078841975765847249009int, 87038119832164054862370217222151095251);
    digit_modulus(296807230958989515230475437735936, 148403615479494757615237718867968, 0, 87038119832164054862370217222151095251, 22262788320378293401146983273498070472int, 320891993645107338952407577457519317537);
    digit_modulus(593614461917979030460950875471872, 296807230958989515230475437735936, 0, 320891993645107338952407577457519317537, 302606545608800667795886365586284926583int, 52036343253990140450295127896031908298);
    digit_modulus(1187228923835958060921901750943744, 593614461917979030460950875471872, 0, 52036343253990140450295127896031908298, 7957453228471911028677471771224438157int, 326132099507953641075081897713081089495);
    lemma_pow_mod_is_pow(3, 1187228923835958060921901750943744, 340282366920938463463374557953744961537);
}

/// `3^29864055506749289580711204880384 mod 340282366920938463463374557953744961537`.
proof fn lemma_power_modulus_5()
    ensures
        pow(3, 29864055506749289580711204880384) % 340282366920938463463374557953744961537 == 182699971178315469257055275082973876544,
{
    lemma_pow_mod_base(3, 340282366920938463463374557953744961537);
    digit_modulus(1, 0, 1, 1, 0int, 3);
    digit_modulus(2, 1, 0, 3, 0int, 9);
    digit_modulus(5, 2, 1, 9, 0int, 243);
    digit_modulus(11, 5, 1, 243, 0int, 177147);
    digit_modulus(23, 11, 1, 177147, 0int, 94143178827);
    digit_modulus(47, 23, 1, 94143178827, 0int, 26588814358957503287787);
    digit_modulus(94, 47, 0, 26588814358957503287787, 2077583int, 188300400610759575091600399596118432298);
    digit_modulus(188, 94, 0, 188300400610759575091600399596118432298, 104198878099406979757242866080794563894int, 86087448178983473074260895943490615726);
    digit_modulus(376, 188, 0, 86087448178983473074260895943490615726, 21779114801123548005939264576440274354int, 156499825231334173243904264893140984978);
    digit_modulus(753, 376, 1, 156499825231334173243904264893140984978, 215928279085310472352170475415769551890int, 257014343675693107869936213832289326522);
    digit_modulus(1507, 753, 1, 257014343675693107869936213832289326522, 582366698451890913025094672175153734959int, 271060103990314421333755004799650577469);
    digit_modulus(3015, 1507, 1, 271060103990314421333755004799650577469, 647758336466881851748510463214309222355int, 59507055273902432797542997521655778248);
    digit_modulus(6030, 3015, 0, 59507055273902432797542997521655778248, 10406327131825844957760795208166137715int, 174799008515399210131345313228029881549);
    digit_modulus(12061, 6030, 1, 174799008515399210131345313228029881549, 269376520926801765129160177424495348148int, 302626399676371212953177682703227734727);
    digit_modulus(24123, 12061, 1, 302626399676371212953177682703227734727, 807412431708762561951368715392883281734int, 333712208862099263655310332879480628429);
    digit_modulus(48247, 24123, 1, 333712208862099263655310332879480628429, 981806721441100222940120717158837914410int, 271280074496289407387908945023540975953);
    digit_modulus(96495, 48247, 1, 271280074496289407387908945023540975953, 648810099841091428409148483446326164253int, 263633229133092884172790506024943437766);
    digit_modulus(192991, 96495, 1, 263633229133092884172790506024943437766, 612748290180638085350414187887875362744int, 49749037242849114810339321832742434740);
    digit_modulus(385983, 192991, 1, 49749037242849114810339321832742434740, 21819820365526825228295458870313652349int, 338648222467599691361412866386481902387);
    digit_modulus(771967, 385983, 1, 338648222467599691361412866386481902387, 1011065777091326895160962924420676871780int, 46180897436117926327446926702208167447);
    digit_modulus(1543935, 771967, 1, 46180897436117926327446926702208167447, 18802108148913438539899214176098707761int, 110418127864034562703814764591623104770);
    digit_modulus(3087870, 1543935, 0, 110418127864034562703814764591623104770, 35829546712395546834453159261779506753int, 173339016276892452403632254379579993539);
    digit_modulus(6175741, 3087870, 1, 173339016276892452403632254379579993539, 264895429366945126845561191334360676360int, 143542069493327858049862419748340068243);
    digit_modulus(12351483, 6175741, 1, 143542069493327858049862419748340068243, 181652013598588197428069584270888554132int, 338799553987123009480728342375808900263);
    digit_modulus(24702967, 12351483, 1, 338799553987123009480728342375808900263, 1011969607657126436532302216152832420079int, 24776291231523490261565621803962906084);
    digit_modulus(49405935, 24702967, 1, 24776291231523490261565621803962906084, 5411957834405451491426231627413596398int, 196080949178693514565412963690460901442);
    digit_modulus(98811870, 49405935, 0, 196080949178693514565412963690460901442, 112987748906044179193453883362127366936int, 9479634972043823739744539228832138732);
    digit_modulus(197623741, 98811870, 1, 9479634972043823739744539228832138732, 792255091114450328011840111860635389int, 275871274057558663933237288397697670579);
    digit_modulus(395247483, 197623741, 1, 275871274057558663933237288397697670579, 670957127800479950164582113789167356232int, 246382867003049502478643343143589337139);
    digit_modulus(790494967, 395247483, 1, 246382867003049502478643343143589337139, 535183627367443279512080242477773281394int, 321481385394012790841182983525406373385);
    digit_modulus(1580989934, 790494967, 0, 321481385394012790841182983525406373385, 303719179133564348186945301793409867739int, 23398097502107793997804053769224203382);
    digit_modulus(3161979869, 1580989934, 1, 23398097502107793997804053769224203382, 4826617714622952471790931060819421327int, 200884568778370695151453941795288214173);
    digit_modulus(6323959738, 3161979869, 0, 200884568778370695151453941795288214173, 118591540133044788852498435276725456003int, 311871976877090142822835530589497317318);
    digit_modulus(12647919476, 6323959738, 0, 311871976877090142822835530589497317318, 285833588267659756216710821929162309087int, 135449234073090584610242127307862126405);
    digit_modulus(25295838952, 12647919476, 0, 135449234073090584610242127307862126405, 53915503107010907562738002125269763850int, 228550351354631684177216115740875186575);
    digit_modulus(50591677905, 25295838952, 1, 228550351354631684177216115740875186575, 460516925196379495182547011262074116414int, 101526512124851708673200413509490323557);
    digit_modulus(101183355811, 50591677905, 1, 101526512124851708673200413509490323557, 90874229753719913661163596053604443820int, 26046300566806506063880639331470045407);
    digit_modulus(202366711622, 101183355811, 0, 26046300566806506063880639331470045407, 1993667139896341753364223185929503314int, 7440468496246817617741512314197762031);
    digit_modulus(404733423245, 202366711622, 1, 7440468496246817617741512314197762031, 488070292427205684624083683766357630int, 126386911708796568855052288747779257573);
    digit_modulus(809466846491, 404733423245, 1, 126386911708796568855052288747779257573, 140827027822441998302660469285944033137int, 246156895848881425387559265298515099418);
    digit_modulus(1618933692982, 809466846491, 0, 246156895848881425387559265298515099418, 178067461803083509910696716620309114999int, 90516255525853232162694159766659145261);
    digit_modulus(3237867385964, 1618933692982, 0, 90516255525853232162694159766659145261, 24077628789754980500718663143707392366int, 142351031446158333487007712633861331579);
    digit_modulus(6475734771929, 3237867385964, 1, 142351031446158333487007712633861331579, 178650010611569010583234540250848295559int, 288429577239504778261508158768484985540);
    digit_modulus(12951469543858, 6475734771929, 0, 288429577239504778261508158768484985540, 244478201381173168679527320691336481058int, 160519236344663814724225958626870025454);
    digit_modulus(25902939087716, 12951469543858, 0, 160519236344663814724225958626870025454, 75720718266487892642862691589667229458int, 3087129062512607503533424649044549170);
    digit_modulus(51805878175432, 25902939087716, 0, 3087129062512607503533424649044549170, 28007228040776692288651087673890839int, 12841337676453744368611411247356029357);
    digit_modulus(103611756350864, 51805878175432, 0, 12841337676453744368611411247356029357, 484597408948385109949519507027490848int, 42161640258079697712270917233666320073);
    digit_modulus(207223512701729, 103611756350864, 1, 42161640258079697712270917233666320073, 15671725149937641958011529279906395449int, 207507621100565630553083527906231330874);
    digit_modulus(414447025403459, 207223512701729, 1, 207507621100565630553083527906231330874, 379620723851556872653945250640657607402int, 158961111273469401781665466976860314754);
    digit_modulus(828894050806918, 414447025403459, 0, 158961111273469401781665466976860314754, 74257843936906845895344757861692954132int, 36981927153396539348500840955704859632);
    digit_modulus(1657788101613837, 828894050806918, 1, 36981927153396539348500840955704859632, 12057600413043668547258844100938275478int, 265117616787152939325213315286249236586);
    digit_modulus(3315576203227675, 1657788101613837, 1, 265117616787152939325213315286249236586, 619667877888280143046101122562830267007int, 24050718832468609870515106752747696429);
    digit_modulus(6631152406455351, 3315576203227675, 1, 24050718832468609870515106752747696429, 5099621366741476378375487056381279174int, 201626309062835971290241907284328925685);
    digit_modulus(13262304812910703, 6631152406455351, 1, 201626309062835971290241907284328925685, 358406774416386209880892623028828447986int, 333027214115045754615580944979783043193);
    digit_modulus(26524609625821406, 13262304812910703, 0, 333027214115045754615580944979783043193, 325926748261383757840956732830352501252int, 99587588234979877801063295795619290925);
    digit_modulus(53049219251642813, 26524609625821406, 1, 99587588234979877801063295795619290925, 87436394252813468283391988209381501486int, 284493544122145048974146186674983722893);
    digit_modulus(106098438503285626, 53049219251642813, 0, 284493544122145048974146186674983722893, 237851221559134666498645689466604122993int, 152715637442815612024613935529809969208);
    digit_modulus(212196877006571253, 106098438503285626, 1, 152715637442815612024613935529809969208, 205612175534656874242231828945161087891int, 328153954887686838252076956674852993325);
    digit_modulus(424393754013142506, 212196877006571253, 0, 328153954887686838252076956674852993325, 316457826136638019047709855026745885522int, 101940228557286173386135552259599388311);
    digit_modulus(848787508026285012, 424393754013142506, 0, 101940228557286173386135552259599388311, 30538785457332224226732550250302650909int, 8266298352119328508163928632020345588);
    digit_modulus(1697575016052570025, 848787508026285012, 1, 8266298352119328508163928632020345588, 602426353130372256823340703939600302int, 317718784296385485663412887122709613058);
    digit_modulus(3395150032105140051, 1697575016052570025, 1, 317718784296385485663412887122709613058, 889954070863391288078090397018880988692int, 119663783684946269877800619700180394488);
    digit_modulus(6790300064210280102, 3395150032105140051, 0, 119663783684946269877800619700180394488, 42080996601051036329649546357624130877int, 212560526742395908532139330383881704195);
    digit_modulus(13580600128420560204, 6790300064210280102, 0, 212560526742395908532139330383881704195, 132777898360811716257222895844519218624int, 308149142672096890987252648853306532937);
    digit_modulus(27161200256841120409, 13580600128420560204, 1, 308149142672096890987252648853306532937, 837150878449224522732501039925349243762int, 280068650629091782994441237809670355713);
    digit_modulus(54322400513682240818, 27161200256841120409, 0, 280068650629091782994441237809670355713, 230509884408511648864443077170543056299int, 255015117984008020576864320123771166806);
    digit_modulus(108644801027364481636, 54322400513682240818, 0, 255015117984008020576864320123771166806, 191113959235822801925404669995010878398int, 92092171888281416212877686921582063910);
    digit_modulus(217289602054728963272, 108644801027364481636, 0, 92092171888281416212877686921582063910, 24923325295522134235380487375970270548int, 281015390328986296538598062757580575824);
    digit_modulus(434579204109457926544, 217289602054728963272, 0, 281015390328986296538598062757580575824, 232070942483188998915583836752302415322int, 224013328854698668143918590350323809062);
    digit_modulus(869158408218915853088, 434579204109457926544, 0, 224013328854698668143918590350323809062, 147471560041848125028015672166816322290int, 131100880718418232319886075488787560114);
    digit_modulus(1738316816437831706176, 869158408218915853088, 0, 131100880718418232319886075488787560114, 50509349281499126900537246360906257097int, 267975287074691395332391597756265414907);
    digit_modulus(3476633632875663412352, 1738316816437831706176, 0, 267975287074691395332391597756265414907, 211032840556936192467930800327353291841int, 137901432004540899043768969551976899032);
    digit_modulus(6953267265751326824704, 3476633632875663412352, 0, 137901432004540899043768969551976899032, 55885366970312040717681410196858780321int, 144609966162759215747283248509845023647);
    digit_modulus(13906534531502653649408, 6953267265751326824704, 0, 144609966162759215747283248509845023647, 61454969009467039516015577808591583147int, 305569203949533916858077953932536763670);
    digit_modulus(27813069063005307298816, 13906534531502653649408, 0, 305569203949533916858077953932536763670, 274397228534754258373153326990250363163int, 174219386573423981557390236221715207369);
    digit_modulus(55626138126010614597632, 27813069063005307298816, 0, 174219386573423981557390236221715207369, 89197671136078141931843640546518728820int, 298832077316914199841139928997638505821);
    digit_modulus(111252276252021229195264, 55626138126010614597632, 0, 298832077316914199841139928997638505821, 262430907724026667060416193671611982204int, 5044463946985995675733668815142396493);
    digit_modulus(222504552504042458390528, 111252276252021229195264, 0, 5044463946985995675733668815142396493, 74780884894790395808618666535549802int, 11606184344935327126343319399580733375);
    digit_modulus(445009105008084916781056, 222504552504042458390528, 0, 11606184344935327126343319399580733375, 395858052438899998346546726587670030int, 217060934058008352608348416482041254515);
    digit_modulus(890018210016169833562112, 445009105008084916781056, 0, 217060934058008352608348416482041254515, 138459860616527037753600304624942644555int, 245066687949604600200974657455470404190);
    digit_modulus(1780036420032339667124224, 890018210016169833562112, 0, 245066687949604600200974657455470404190, 176493663441992975160172449812224343566int, 42623133747176715968495064232226135158);
    digit_modulus(3560072840064679334248448, 1780036420032339667124224, 0, 42623133747176715968495064232226135158, 5338894127452145675983720824164174340int, 87030633183115976419824298345021324384);
    digit_modulus(7120145680129358668496896, 3560072840064679334248448, 0, 87030633183115976419824298345021324384, 22258958584280434317569401911897142117int, 183318709632270797304527903610965225627);
    digit_modulus(14240291360258717336993792, 7120145680129358668496896, 0, 183318709632270797304527903610965225627, 98758421146896531732731935089033507447int, 149428444899546315671178077907799477090);
    digit_modulus(28480582720517434673987584, 14240291360258717336993792, 0, 149428444899546315671178077907799477090, 65618622402155379491257982113430932777int, 160319870861824438685828723371537269851);
    digit_modulus(56961165441034869347975168, 28480582720517434673987584, 0, 160319870861824438685828723371537269851, 75532744249201133327549785464013037466int, 285918437025114875815534756658083616959);
    digit_modulus(113922330882069738695950336, 56961165441034869347975168, 0, 285918437025114875815534756658083616959, 240239755502459830030193847238099012075int, 247787081022458301439529190371258848406);
    digit_modulus(227844661764139477391900672, 113922330882069738695950336, 0, 247787081022458301439529190371258848406, 180433791139979015389292100437698548026int, 91036301483218147575357765891171464874);
    digit_modulus(455689323528278954783801344, 227844661764139477391900672, 0, 91036301483218147575357765891171464874, 24355091516302217487320292939654290121int, 50951485335347257649868035140831759899);
    digit_modulus(911378647056557909567602688, 455689323528278954783801344, 0, 50951485335347257649868035140831759899, 7629116610915300027904802255192807365int, 126742513000208537223774302398609170196);
    digit_modulus(1822757294113115819135205376, 911378647056557909567602688, 0, 126742513000208537223774302398609170196, 47206867481735477471206450359472396931int, 281067362826312567995891346773902835469);
    digit_modulus(3645514588226231638270410752, 1822757294113115819135205376, 0, 281067362826312567995891346773902835469, 232156791317055534264087182870322496208int, 107759734246728163216907034273296098265);
    digit_modulus(7291029176452463276540821504, 3645514588226231638270410752, 0, 107759734246728163216907034273296098265, 34125072156981496420453462162814204623int, 48234020789223781496453916032153424674);
    digit_modulus(14582058352904926553081643008, 7291029176452463276540821504, 0, 48234020789223781496453916032153424674, 6837030030521146706333468378056887024int, 25980238386417283399769628763757610388);
    digit_modulus(29164116705809853106163286016, 14582058352904926553081643008, 0, 25980238386417283399769628763757610388, 1983566744061980631531626085572824490int, 220409813474167565608858459760503869414);
    digit_modulus(58328233411619706212326572032, 29164116705809853106163286016, 0, 220409813474167565608858459760503869414, 142765216767769149670651493432222423461int, 327360205378163127302816288425993283839);
    digit_modulus(116656466823239412424653144064, 58328233411619706212326572032, 0, 327360205378163127302816288425993283839, 314928760590559470892166768069592068225int, 154803527351689890987178966401913716096);
    digit_modulus(233312933646478824849306288128, 116656466823239412424653144064, 0, 154803527351689890987178966401913716096, 70424254707541898521096013992643993489int, 196886625870074198093789913995706048623);
    digit_modulus(466625867292957649698612576256, 233312933646478824849306288128, 0, 196886625870074198093789913995706048623, 113918166836746835580561898876964748405int, 4279022669185426238655814596433097644);
    digit_modulus(933251734585915299397225152512, 466625867292957649698612576256, 0, 4279022669185426238655814596433097644, 53808356774645749079969472534227776int, 135389077323026084512657917080121299024);
    digit_modulus(1866503469171830598794450305024, 933251734585915299397225152512, 0, 135389077323026084512657917080121299024, 53867623010390053526659729320886755411int, 247274311139470394399920976096301725869);
    digit_modulus(3733006938343661197588900610048, 1866503469171830598794450305024, 0, 247274311139470394399920976096301725869, 179687785478775645158671891364522738484int, 110373096373938336393745443563534115253);
    digit_modulus(7466013876687322395177801220096, 3733006938343661197588900610048, 0, 110373096373938336393745443563534115253, 35800328160997860034540407851233858272int, 294733785499929351645668732360737969945);
    digit_modulus(14932027753374644790355602440192, 7466013876687322395177801220096, 0, 294733785499929351645668732360737969945, 255282120849069332061020757613629017035int, 237191963427027254308617186006530520230);
    digit_modulus(29864055506749289580711204880384, 14932027753374644790355602440192, 0, 237191963427027254308617186006530520230, 165333361300615803508461675639501900388int, 182699971178315469257055275082973876544);
    lemma_pow_mod_is_pow(3, 29864055506749289580711204880384, 340282366920938463463374557953744961537);
}

/// `3^18848293533457619003191066624 mod 340282366920938463463374557953744961537`.
proof fn lemma_power_modulus_6()
    ensures
        pow(3, 18848293533457619003191066624) % 340282366920938463463374557953744961537 == 40664971873991271173740595132179155414,
{
    lemma_pow_mod_base(3, 340282366920938463463374557953744961537);
    digit_modulus(1, 0, 1, 1, 0int, 3);
    digit_modulus(3, 1, 1, 3, 0int, 27);
    digit_modulus(7, 3, 1, 27, 0int, 2187);
    digit_modulus(15, 7, 1, 2187, 0int, 14348907);
    digit_modulus(30, 15, 0, 14348907, 0int, 205891132094649);
    digit_modulus(60, 30, 0, 205891132094649, 0int, 42391158275216203514294433201);
    digit_modulus(121, 60, 1, 42391158275216203514294433201, 15842815919391588694int, 208790074157646816908066273213199256525);
    digit_modulus(243, 121, 1, 208790074157646816908066273213199256525, 384327540635252773409562662787717121360int, 179300391489165210560052270908704096555);
    digit_modulus(487, 243, 1, 179300391489165210560052270908704096555, 283429000559738251448183311903839093295int, 90962740230164580686398795239559009660);
    digit_modulus(974, 487, 0, 90962740230164580686398795239559009660, 24315747492443069294086315955615027624int, 164013752042915628963392020848900817512);
    digit_modulus(1948, 974, 0, 164013752042915628963392020848900817512, 79053496373043336521573848692404781251int, 244051309632852836000019807272032127357);
    digit_modulus(3897, 1948, 1, 244051309632852836000019807272032127357, 525102510651241689857641019785807749525int, 293901607041784456601292062927548396422);
    digit_modulus(7795, 3897, 1, 293901607041784456601292062927548396422, 761527745942351501190662742444563901063int, 298040744673132630715906834001378792421);
    digit_modulus(15590, 7795, 0, 298040744673132630715906834001378792421, 261042869453044232975160865633831214005int, 2940574565020106059464184391466315556);
    digit_modulus(31181, 15590, 1, 2940574565020106059464184391466315556, 76233560240154025629020429866772447int, 283078629509432169119203396470956396369);
    digit_modulus(62363, 31181, 1, 283078629509432169119203396470956396369, 706473666649526913050713938845704271508int, 32503660471396420227784023549844164687);
    digit_modulus(124727, 62363, 1, 32503660471396420227784023549844164687, 9314217074479944445648864327021242810int, 27537875250160838606399343428945624937);
    digit_modulus(249455, 124727, 1, 27537875250160838606399343428945624937, 6685635052047346280239423749352420598int, 195663883417734622657252005883072222781);
    digit_modulus(498910, 249455, 0, 195663883417734622657252005883072222781, 112507608373970991655658373343885002407int, 225641479966805985491256063560727954402);
    digit_modulus(997820, 498910, 0, 225641479966805985491256063560727954402, 149623026142403474075372906457245120132int, 38255179708832435981489940576106814720);
    digit_modulus(1995640, 997820, 0, 38255179708832435981489940576106814720, 4300718805376966178104556800155165876int, 285837265603766234165458160786933766988);
    digit_modulus(3991281, 1995640, 1, 285837265603766234165458160786933766988, 720310104344792083114850230569628114734int, 192318526752340306255622632398982790274);
    digit_modulus(7982562, 3991281, 0, 192318526752340306255622632398982790274, 108693306875886677718479430112023357549int, 26572119106783941037151731010065402263);
    digit_modulus(15965125, 7982562, 1, 26572119106783941037151731010065402263, 6224925965580487386944253880294831722int, 275612742375183584398286049229239086793);
    digit_modulus(31930251, 15965125, 1, 275612742375183584398286049229239086793, 669700147382763073907894148835810638260int, 68857644248812878871660547566640468927);
    digit_modulus(63860502, 31930251, 0, 68857644248812878871660547566640468927, 13933649323056722063036170861926440444int, 1766885208773180098890776824351328901);
    digit_modulus(127721004, 63860502, 0, 1766885208773180098890776824351328901, 9174390578124742032817911269206139int, 187096023438476237481368701951598592158);
    digit_modulus(255442009, 127721004, 1, 187096023438476237481368701951598592158, 308610660345711600894984191485690834893int, 143062415613427074523856727365154780351);
    digit_modulus(510884019, 255442009, 1, 143062415613427074523856727365154780351, 180440041131231155683282490027149737982int, 74071165358506861561830990178949051269);
    digit_modulus(1021768039, 510884019, 1, 74071165358506861561830990178949051269, 48370454107385597175409873027627361985int, 66393736135903685383918970472970560138);
    digit_modulus(2043536079, 1021768039, 1, 66393736135903685383918970472970560138, 38862973459111311825072374520750814149int, 171697293011799671910608389860983350119);
    digit_modulus(4087072159, 2043536079, 1, 171697293011799671910608389860983350119, 259901452088134750463409584390200523598int, 197299741631699136490027227717841092357);
    digit_modulus(8174144318, 4087072159, 0, 197299741631699136490027227717841092357, 114396724109361841310744182825223070922int, 95593634716466333848836630343090688335);
    digit_modulus(16348288637, 8174144318, 1, 95593634716466333848836630343090688335, 80563766036355000491660645935155454615int, 55153502240950607063282553653391073420);
    digit_modulus(32696577274, 16348288637, 0, 55153502240950607063282553653391073420, 8939366553040650767944854431529972120int, 175565132419097848112009245287748147960);
    digit_modulus(65393154549, 32696577274, 1, 175565132419097848112009245287748147960, 271742988038785168238042515248916629148int, 260755439191792495647817279551203404324);
    digit_modulus(130786309098, 65393154549, 0, 260755439191792495647817279551203404324, 199814641244405844852918950442354717154int, 254441678308777981329162104614777791278);
    digit_modulus(261572618196, 130786309098, 0, 254441678308777981329162104614777791278, 190255428885122178649725993110292025254int, 45868912079294513760733369942070217886);
    digit_modulus(523145236393, 261572618196, 1, 45868912079294513760733369942070217886, 18548922599567601994865690718251248682int, 114506507176504288095854935210230982754);
    digit_modulus(1046290472786, 523145236393, 0, 114506507176504288095854935210230982754, 38531941294534437385040184553939201534int, 79247796061569687591552382831324026758);
    digit_modulus(2092580945573, 1046290472786, 1, 79247796061569687591552382831324026758, 55367663368304572784248079208227750988int, 119163373607334387370619635421626223136);
    digit_modulus(4185161891147, 2092580945573, 1, 119163373607334387370619635421626223136, 125189351460991616468109932179046543948int, 252667064788310914385312576766144895412);
    digit_modulus(8370323782295, 4185161891147, 1, 252667064788310914385312576766144895412, 562832387170740201028258532401039282515int, 17894056202988456716560553498504323677);
    digit_modulus(16740647564590, 8370323782295, 0, 17894056202988456716560553498504323677, 940975138656257804826727390652544759int, 33998559395444912498995049159556865746);
    digit_modulus(33481295129180, 16740647564590, 0, 33998559395444912498995049159556865746, 3396890798147524758516762488022706674int, 53021477515675386567102296710304938578);
    digit_modulus(66962590258361, 33481295129180, 1, 53021477515675386567102296710304938578, 24784802427906398836330587586867504513int, 160568860752355071275534353822699069771);
    digit_modulus(133925180516723, 66962590258361, 1, 160568860752355071275534353822699069771, 227302630547114048926237703048059782411int, 113620306844976973922815419150393851616);
    digit_modulus(267850361033447, 133925180516723, 1, 113620306844976973922815419150393851616, 113813485938395489235630214622751890396int, 66028162144587183621523192859217735716);
    digit_modulus(535700722066895, 267850361033447, 1, 66028162144587183621523192859217735716, 38436180831005302950444416052923798512int, 36577031713797782382212186570688265024);
    digit_modulus(1071401444133790, 535700722066895, 0, 36577031713797782382212186570688265024, 3931673748181647346569934188336650355int, 164568795479974178978083122266369324941);
    digit_modulus(2142802888267581, 1071401444133790, 1, 164568795479974178978083122266369324941, 238768367789289837983623237098577552171int, 210757492458841217948534400830128113616);
    digit_modulus(4285605776535162, 2142802888267581, 0, 210757492458841217948534400830128113616, 130534887921062338394183179159999837536int, 311020056419947818079069243960035742624);
    digit_modulus(8571211553070324, 4285605776535162, 0, 311020056419947818079069243960035742624, 284274134950820633839213668042192986703int, 329434775725147149878102612431282962865);
    digit_modulus(17142423106140649, 8571211553070324, 1, 329434775725147149878102612431282962865, 956798958809640587076181990032655202505int, 7776986461779903141483680724735974490);
    digit_modulus(34284846212281298, 17142423106140649, 0, 7776986461779903141483680724735974490, 177739208099373047329154168842530116int, 312045330493253937102758418675746611808);
    digit_modulus(68569692424562596, 34284846212281298, 0, 312045330493253937102758418675746611808, 286151437007218324919294160872317830179int, 100333741199345155381067842882192203741);
    digit_modulus(137139384849125192, 68569692424562596, 0, 100333741199345155381067842882192203741, 29583841543561719106197965130881858069int, 51318225570360884757142857492556303028);
    digit_modulus(274278769698250384, 137139384849125192, 0, 51318225570360884757142857492556303028, 7739338066560250872365782263618020772int, 77298348249551032915469624959754922220);
    digit_modulus(548557539396500768, 274278769698250384, 0, 77298348249551032915469624959754922220, 17559048669416110539515541552736590117int, 28747953532024303930863718287550398571);
    digit_modulus(1097115078793001536, 548557539396500768, 0, 28747953532024303930863718287550398571, 2428703079026853156905797231053225478int, 135051995244790441698582792826060402355);
    digit_modulus(2194230157586003072, 1097115078793001536, 0, 135051995244790441698582792826060402355, 53599725382880555557213610156539056354int, 197094911934190253100298629520484089927);
    digit_modulus(4388460315172006144, 2194230157586003072, 0, 197094911934190253100298629520484089927, 114159322041426327762166153214224791097int, 310263130895969939791316698057297829240);
    digit_modulus(8776920630344012288, 4388460315172006144, 0, 310263130895969939791316698057297829240, 282892150023558713134569142206272650903int, 157731424658257235830472548999435659689);
    digit_modulus(17553841260688024576, 8776920630344012288, 0, 157731424658257235830472548999435659689, 73113404464192929701097227376959006738int, 242845359636927077125196654627085740415);
    digit_modulus(35107682521376049152, 17553841260688024576, 0, 242845359636927077125196654627085740415, 173308623749200900841605934506849097462int, 71340781690325401527860795870410053131);
    digit_modulus(70215365042752098304, 35107682521376049152, 0, 71340781690325401527860795870410053131, 14956717205887923950707699648510036213int, 282991115628021618606673333184080763780);
    digit_modulus(140430730085504196608, 70215365042752098304, 0, 282991115628021618606673333184080763780, 235345640295840217664321994418637362560int, 42516063436267877207479123089836033680);
    digit_modulus(280861460171008393216, 140430730085504196608, 0, 42516063436267877207479123089836033680, 5312104962925503205404932518830074846int, 297948781462247327796474743116993144098);
    digit_modulus(561722920342016786432, 280861460171008393216, 0, 297948781462247327796474743116993144098, 260881799953694729199372146898680149597int, 252602443451963198486012751479221183015);
    digit_modulus(1123445840684033572864, 561722920342016786432, 0, 252602443451963198486012751479221183015, 187514842497635138828332304330602493734int, 228060589381924400109611023926010981067);
    digit_modulus(2246891681368067145728, 1123445840684033572864, 0, 228060589381924400109611023926010981067, 152848450244015029331035325019591308446int, 17889946458711074057325471378059216987);
    digit_modulus(4493783362736134291456, 2246891681368067145728, 0, 17889946458711074057325471378059216987, 940542959047624324630274465558303018int, 339101138930916103733553333690148339503);
    digit_modulus(8987566725472268582912, 4493783362736134291456, 0, 339101138930916103733553333690148339503, 337924011357782922540676772858038838323int, 205649715111845314832872188126353704558);
    digit_modulus(17975133450944537165824, 8987566725472268582912, 0, 205649715111845314832872188126353704558, 124284445615747284635009878041619350454int, 12547221031605696550017301585196487566);
    digit_modulus(35950266901889074331648, 17975133450944537165824, 0, 12547221031605696550017301585196487566, 462653287152391295400028690460054970int, 45203496133135329586767895386036915466);
    digit_modulus(71900533803778148663296, 35950266901889074331648, 0, 45203496133135329586767895386036915466, 6004883770933496628249186398463495606int, 290270126891577533224221527860591490734);
    digit_modulus(143801067607556297326592, 71900533803778148663296, 0, 290270126891577533224221527860591490734, 247608324016474286387103651345359938361int, 293684461151775303997121767235772037899);
    digit_modulus(287602135215112594653184, 143801067607556297326592, 0, 293684461151775303997121767235772037899, 253467623087411277651140882025034153117int, 102536294182076915077651716362958673372);
    digit_modulus(575204270430225189306368, 287602135215112594653184, 0, 102536294182076915077651716362958673372, 30896962777492909512662974408330843775int, 66286189396968930383262676404050968209);
    digit_modulus(1150408540860450378612736, 575204270430225189306368, 0, 66286189396968930383262676404050968209, 12912390802170803366343485467018532498int, 157689657100800687478757333259134138255);
    digit_modulus(2300817081720900757225472, 1150408540860450378612736, 0, 157689657100800687478757333259134138255, 73074688475837179746591392595835933733int, 24057296276797922203608953618888617404);
    digit_modulus(4601634163441801514450944, 2300817081720900757225472, 0, 24057296276797922203608953618888617404, 1700803686616248683560242370124042514int, 81280305899140725024887832800808915198);
    digit_modulus(9203268326883603028901888, 4601634163441801514450944, 0, 81280305899140725024887832800808915198, 19414723680327662790540032186358711791int, 254012050403561395112326952405391996437);
    digit_modulus(18406536653767206057803776, 9203268326883603028901888, 0, 254012050403561395112326952405391996437, 189613474051132797357308303771616100833int, 239525979969395041199394720877122034648);
    digit_modulus(36813073307534412115607552, 18406536653767206057803776, 0, 239525979969395041199394720877122034648, 168603197395852904575838780831725495047int, 155941719055892016403256463104013476665);
    digit_modulus(73626146615068824231215104, 36813073307534412115607552, 0, 155941719055892016403256463104013476665, 71463649327902968178490795381697976034int, 97620761312615812763234793642421717967);
    digit_modulus(147252293230137648462430208, 73626146615068824231215104, 0, 97620761312615812763234793642421717967, 28005603480091209738355643191493531734int, 278615334747582656295329190443571697931);
    digit_modulus(294504586460275296924860416, 147252293230137648462430208, 0, 278615334747582656295329190443571697931, 228123794538385108941923775386976690518int, 73361051338742887187401470584847074595);
    digit_modulus(589009172920550593849720832, 294504586460275296924860416, 0, 73361051338742887187401470584847074595, 15815817617067687797115730758528706014int, 49026578330418385800315612296683830507);
    digit_modulus(1178018345841101187699441664, 589009172920550593849720832, 0, 49026578330418385800315612296683830507, 7063561372685248932890173018760033202int, 263644248282549283144641292631970925575);
    digit_modulus(2356036691682202375398883328, 1178018345841101187699441664, 0, 263644248282549283144641292631970925575, 204266504554495808911821142694970311529int, 52275735676020488454720626539176420552);
    digit_modulus(4712073383364404750797766656, 2356036691682202375398883328, 0, 52275735676020488454720626539176420552, 8030837933791884261181759631985661234int, 289338007419658849369656496710326028046);
    digit_modulus(9424146766728809501595533312, 4712073383364404750797766656, 0, 289338007419658849369656496710326028046, 246020630734090692553339771956359760345int, 241968511316825559826006713830215727851);
    digit_modulus(18848293533457619003191066624, 9424146766728809501595533312, 0, 241968511316825559826006713830215727851, 172059342947041434694540743134661921251int, 40664971873991271173740595132179155414);
    lemma_pow_mod_is_pow(3, 18848293533457619003191066624, 340282366920938463463374557953744961537);
}

/// 340282366920938463463374557953744961537 is prime, with witness 3.
pub proof fn lemma_prime_modulus()
    ensures
        is_prime(340282366920938463463374557953744961537),
{
    lemma_prime_2();
    lemma_prime_29();
    lemma_prime_181();
    lemma_prime_286619();
    lemma_prime_11394379();
    lemma_prime_18053749339();
    let fs: Seq<(int, nat)> = seq![(2int, 40nat), (29int, 1nat), (181int, 1nat), (286619int, 1nat), (11394379int, 1nat), (18053749339int, 1nat)];
    lemma_factor_product_end(fs);
    assert(ipow(18053749339, 1) == 18053749339) by {
        reveal_with_fuel(ipow, 2);
    }
    lemma_factor_product_step(fs, 5, 18053749339, 1);
    assert(ipow(11394379, 1) == 11394379) by {
        reveal_with_fuel(ipow, 2);
    }
    lemma_factor_product_step(fs, 4, 11394379, 18053749339);
    assert(ipow(286619, 1) == 286619) by {
        reveal_with_fuel(ipow, 2);
    }
    lemma_factor_product_step(fs, 3, 286619, 205711262339565481);
    assert(ipow(181, 1) == 181) by {
        reveal_with_fuel(ipow, 2);
    }
    lemma_factor_product_step(fs, 2, 181, 58960756300503918598739);
    assert(ipow(29, 1) == 29) by {
        reveal_with_fuel(ipow, 2);
    }
    lemma_factor_product_step(fs, 1, 29, 10671896890391209266371759);
    assert(ipow(2, 40) == 1099511627776) by {
        reveal_with_fuel(ipow, 41);
    }
    lemma_factor_product_step(fs, 0, 1099511627776, 309485009821345068724781011);
    lemma_power_modulus_0();
    lemma_power_modulus_1();
    lemma_power_modulus_2();
    lemma_power_modulus_3();
    lemma_power_modulus_4();
    lemma_power_modulus_5();
    lemma_power_modulus_6();
    assert forall|i: int| 0 <= i < fs.len() implies is_prime(#[trigger] fs[i].0) && pow(
        3,
        ((340282366920938463463374557953744961537 - 1) / fs[i].0) as nat,
    ) % 340282366920938463463374557953744961537 != 1 by {
        if i == 0 {
            assert(fs[0].0 == 2);
            assert((340282366920938463463374557953744961537 - 1) / 2 == 170141183460469231731687278976872480768);
        } else if i == 1 {
            assert(fs[1].0 == 29);
            assert((340282366920938463463374557953744961537 - 1) / 29 == 11733874721411671153909467515646377984);
        } else if i == 2 {
            assert(fs[2].0 == 181);
            assert((340282366920938463463374557953744961537 - 1) / 181 == 1880013076911262229079417447258259456);
        } else if i == 3 {
            assert(fs[3].0 == 286619);
            assert((340282366920938463463374557953744961537 - 1) / 286619 == 1187228923835958060921901750943744);
        } else if i == 4 {
            assert(fs[4].0 == 11394379);
            assert((340282366920938463463374557953744961537 - 1) / 11394379 == 29864055506749289580711204880384);
        } else if i == 5 {
            assert(fs[5].0 == 18053749339);
            assert((340282366920938463463374557953744961537 - 1) / 18053749339 == 18848293533457619003191066624);
        }
    }
    lemma_lucas(340282366920938463463374557953744961537, 3, fs);
}

} // verus!
