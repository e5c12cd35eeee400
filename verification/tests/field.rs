use std::convert::TryInto;

use num_bigint::BigUint;

#[test]
fn add() {
    // identity
    let r: u128 = field_math::rand();
    assert_eq!(r, field_math::add(r, 0));

    // test addition within bounds
    assert_eq!(5, field_math::add(2, 3));

    // test overflow
    let m: u128 = field_math::MODULUS;
    let t = m - 1;
    assert_eq!(0, field_math::add(t, 1));
    assert_eq!(1, field_math::add(t, 2));

    // test random values
    let r1: u128 = field_math::rand();
    let r2: u128 = field_math::rand();

    let expected = (BigUint::from(r1) + BigUint::from(r2)) % BigUint::from(field_math::M);
    let mut bytes = expected.to_bytes_le();
    bytes.resize(16, 0);
    let expected = u128::from_le_bytes((bytes[..]).try_into().unwrap());
    assert_eq!(expected, field_math::add(r1, r2));
}

#[test]
fn sub() {
    // identity
    let r: u128 = field_math::rand();
    assert_eq!(r, field_math::sub(r, 0));

    // test subtraction within bounds
    assert_eq!(2, field_math::sub(5u128, 3));

    // test underflow
    let m: u128 = field_math::MODULUS;
    assert_eq!(m - 2, field_math::sub(3u128, 5));
}

#[test]
fn mul() {
    // identity
    let r: u128 = field_math::rand();
    assert_eq!(0, field_math::mul(r, 0));
    assert_eq!(r, field_math::mul(r, 1));

    // test multiplication within bounds
    assert_eq!(15, field_math::mul(5u128, 3));

    // test overflow
    let m: u128 = field_math::MODULUS;
    let t = m - 1;
    assert_eq!(1, field_math::mul(t, t));
    assert_eq!(m - 2, field_math::mul(t, 2));
    assert_eq!(m - 4, field_math::mul(t, 4));

    let t = (m + 1) / 2;
    assert_eq!(1, field_math::mul(t, 2));

    // test random values
    let v1: Vec<u128> = field_math::rand_vector(1000);
    let v2: Vec<u128> = field_math::rand_vector(1000);
    for i in 0..v1.len() {
        let r1 = v1[i];
        let r2 = v2[i];

        let result = (BigUint::from(r1) * BigUint::from(r2)) % BigUint::from(field_math::M);
        let result = result.to_bytes_le();
        let mut expected = [0u8; 16];
        expected[0..result.len()].copy_from_slice(&result);
        let expected = u128::from_le_bytes(expected);

        if expected != field_math::mul(r1, 32) {
            println!("failed for: {} * {}", r1, r2);
            assert_eq!(expected, field_math::mul(r1, r2));
        }
    }
}

#[test]
fn inv() {
    // identity
    assert_eq!(1, field_math::inv(1));
    assert_eq!(0, field_math::inv(0));

    // test random values
    let x: Vec<u128> = field_math::rand_vector(1000);
    for i in 0..x.len() {
        let y = field_math::inv(x[i]);
        assert_eq!(1, field_math::mul(x[i], y));
    }
}

#[test]
fn get_root_of_unity() {
    let root_40: u128 = field_math::get_root_of_unity(usize::pow(2, 40));
    assert_eq!(23953097886125630542083529559205016746, root_40);
    assert_eq!(1, field_math::exp(root_40, u128::pow(2, 40)));

    let root_39: u128 = field_math::get_root_of_unity(usize::pow(2, 39));
    let expected = field_math::exp(root_40, 2);
    assert_eq!(expected, root_39);
    assert_eq!(1, field_math::exp(root_39, u128::pow(2, 39)));
}

fn big_mod(x: BigUint) -> u128 {
    let r = x % BigUint::from(field_math::M);
    let mut bytes = r.to_bytes_le();
    bytes.resize(16, 0);
    u128::from_le_bytes(bytes[..].try_into().unwrap())
}

#[test]
fn modulus_value() {
    assert_eq!(field_math::M, (1u128 << 127) - 45 * (1u128 << 40) + 1 + (1u128 << 127));
    assert_eq!(field_math::MODULUS, field_math::M);
    assert_eq!(field_math::ZERO, 0);
    assert_eq!(field_math::ONE, 1);
}

#[test]
fn add_matches_big_integers() {
    let m = field_math::M;
    let cases: [(u128, u128); 5] = [(0, 0), (m - 1, m - 1), (m - 1, 0), (1 << 127, 1 << 127), (12345, m - 12344)];
    for (a, b) in cases.iter() {
        assert_eq!(big_mod(BigUint::from(*a) + BigUint::from(*b)), field_math::add(*a, *b));
    }
    assert_eq!(1, field_math::add(12345, m - 12344));
}

#[test]
fn sub_matches_big_integers() {
    let m = field_math::M;
    let cases: [(u128, u128); 4] = [(0, 0), (0, m - 1), (m - 1, 0), (7, 9)];
    for (a, b) in cases.iter() {
        let expected = big_mod(BigUint::from(*a) + BigUint::from(m) - BigUint::from(*b));
        assert_eq!(expected, field_math::sub(*a, *b));
    }
    assert_eq!(1, field_math::sub(0, m - 1));
}

#[test]
fn mul_matches_big_integers() {
    let m = field_math::M;
    let cases: [(u128, u128); 6] = [
        (m - 1, m - 2),
        (1 << 127, 1 << 127),
        (0xffff_ffff_ffff_ffff, 0xffff_ffff_ffff_ffff),
        (m - 1, 1 << 64),
        (123456789, 987654321),
        ((m - 1) / 2, 2),
    ];
    for (a, b) in cases.iter() {
        assert_eq!(big_mod(BigUint::from(*a) * BigUint::from(*b)), field_math::mul(*a, *b));
    }
    assert_eq!(121932631112635269, field_math::mul(123456789, 987654321));
}

#[test]
fn neg_values() {
    let m = field_math::M;
    assert_eq!(0, field_math::neg(0));
    assert_eq!(m - 1, field_math::neg(1));
    assert_eq!(1, field_math::neg(m - 1));
    let r = field_math::rand();
    assert_eq!(0, field_math::add(r, field_math::neg(r)));
    assert_eq!(r, field_math::neg(field_math::neg(r)));
}

#[test]
fn exp_values() {
    assert_eq!(1, field_math::exp(0, 0));
    assert_eq!(0, field_math::exp(0, 5));
    assert_eq!(1, field_math::exp(5, 0));
    assert_eq!(1024, field_math::exp(2, 10));
    assert_eq!(field_math::M - 1, field_math::exp(field_math::M - 1, 3));
    let b = 0x1234_5678_9abc_def0_u128;
    let expected = big_mod(BigUint::from(b).modpow(&BigUint::from(1000u32), &BigUint::from(field_math::M)));
    assert_eq!(expected, field_math::exp(b, 1000));
    // b^(p + q) = b^p * b^q
    assert_eq!(field_math::exp(b, 1234 + 777), field_math::mul(field_math::exp(b, 1234), field_math::exp(b, 777)));
}

#[test]
fn inverse_laws() {
    let m = field_math::M;
    assert_eq!(m - 1, field_math::inv(m - 1));
    assert_eq!((m + 1) / 2, field_math::inv(2));
    for x in [2u128, 3, 12345, m - 2, 1 << 100] {
        let y = field_math::inv(x);
        assert_eq!(1, field_math::mul(x, y));
        assert_eq!(x, field_math::inv(y));
    }
}

#[test]
fn division() {
    let m = field_math::M;
    assert_eq!(5, field_math::div(15, 3));
    assert_eq!(0, field_math::div(7, 0));
    let a = 0xdead_beef_u128;
    for b in [1u128, 2, 3, m - 1, 1 << 90] {
        let q = field_math::div(a, b);
        assert_eq!(a, field_math::mul(b, q));
        assert_eq!(a, field_math::div(field_math::mul(a, b), b));
    }
}

#[test]
fn inv_many_with_zeros() {
    let values: Vec<u128> = vec![3, 0, 7, 1, 0, field_math::M - 1];
    let result = field_math::inv_many(&values);
    assert_eq!(result.len(), values.len());
    for i in 0..values.len() {
        assert_eq!(field_math::inv(values[i]), result[i]);
    }
    assert_eq!(0, result[1]);
    assert_eq!(0, result[4]);
    assert_eq!(1, result[3]);

    let mut filled = vec![99u128; values.len()];
    field_math::inv_many_fill(&values, &mut filled);
    assert_eq!(result, filled);

    let empty: Vec<u128> = Vec::new();
    assert!(field_math::inv_many(&empty).is_empty());
}

#[test]
fn inv_many_random() {
    let values = field_math::rand_vector(200);
    let result = field_math::inv_many(&values);
    for i in 0..values.len() {
        assert_eq!(field_math::inv(values[i]), result[i]);
    }
}

#[test]
fn root_of_unity_orders() {
    let m = field_math::M;
    assert_eq!(1, field_math::get_root_of_unity(1));
    assert_eq!(m - 1, field_math::get_root_of_unity(2));
    let mut previous = field_math::get_root_of_unity(1);
    for k in 1..=40u32 {
        let root = field_math::get_root_of_unity(1usize << k);
        assert_eq!(1, field_math::exp(root, 1u128 << k));
        assert_eq!(m - 1, field_math::exp(root, 1u128 << (k - 1)));
        assert_eq!(previous, field_math::exp(root, 2));
        previous = root;
    }
    assert_eq!(field_math::G, previous);
}

#[test]
fn power_series() {
    assert_eq!(vec![1u128, 3, 9, 27, 81, 243], field_math::get_power_series(3, 5));
    assert_eq!(vec![1u128, 12345], field_math::get_power_series(12345, 1));
    assert_eq!(vec![1u128], field_math::get_power_series(7, 0));
    assert_eq!(vec![1u128, 0, 0, 0], field_math::get_power_series(0, 3));
    let b = field_math::M - 2;
    let series = field_math::get_power_series(b, 20);
    assert_eq!(21, series.len());
    for i in 0..=20 {
        assert_eq!(field_math::exp(b, i as u128), series[i]);
    }
}

#[test]
fn multiply_accumulate() {
    let m = field_math::M;
    let mut a: Vec<u128> = vec![1, 2, m - 1, 0];
    let b: Vec<u128> = vec![10, 20, 1, m - 1, 5];
    field_math::mul_acc(&mut a, &b, 3);
    assert_eq!(vec![31u128, 62, 2, m - 3], a);
    let mut empty: Vec<u128> = Vec::new();
    field_math::mul_acc(&mut empty, &b, 3);
    assert!(empty.is_empty());
}

#[test]
fn carry_addition() {
    assert_eq!((5, 0), field_math::add64_with_carry(2, 3, 0));
    assert_eq!((6, 0), field_math::add64_with_carry(2, 3, 1));
    assert_eq!((0, 1), field_math::add64_with_carry(u64::MAX, 1, 0));
    assert_eq!((u64::MAX, 1), field_math::add64_with_carry(u64::MAX, u64::MAX, 1));
}

#[test]
fn bytes_to_element() {
    let x: u128 = 0x0102_0304_0506_0708_090a_0b0c_0d0e_0f10;
    assert_eq!(x, field_math::from_bytes(&x.to_le_bytes()));
    assert_eq!(1, field_math::from_bytes(&[1, 0, 0, 0, 0, 0, 0, 0, 0, 0, 0, 0, 0, 0, 0, 0]));
    assert_eq!(1u128 << 120, field_math::from_bytes(&[0, 0, 0, 0, 0, 0, 0, 0, 0, 0, 0, 0, 0, 0, 0, 1]));
    assert_eq!(u128::MAX, field_math::from_bytes(&[0xff; 16]));
}

#[test]
fn random_elements() {
    for _ in 0..100 {
        assert!(field_math::rand() < field_math::M);
    }
    let v = field_math::rand_vector(500);
    assert_eq!(500, v.len());
    assert!(v.iter().all(|x| *x < field_math::M));
    assert!(field_math::rand_vector(0).is_empty());
}

#[test]
fn seeded_elements() {
    let seed = [7u8; 32];
    let a = field_math::prng(seed);
    assert_eq!(a, field_math::prng(seed));
    assert!(a < field_math::M);
    let v = field_math::prng_vector(seed, 50);
    assert_eq!(v, field_math::prng_vector(seed, 50));
    assert_eq!(50, v.len());
    assert!(v.iter().all(|x| *x < field_math::M));
    assert_ne!(field_math::prng_vector([8u8; 32], 50), v);
    // a shorter draw is a prefix, and the first element is `prng(seed)`
    assert_eq!(&v[..10], &field_math::prng_vector(seed, 10)[..]);
    assert_eq!(a, v[0]);
    assert!(field_math::prng_vector(seed, 0).is_empty());
}
