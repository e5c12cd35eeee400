//! Arithmetic in the prime field of order `M = 2^128 - 45 * 2^40 + 1`, with field elements
//! held as `u128` values below `M`, and hashes of KILT credentials into field elements.
use vstd::prelude::*;

pub mod algebra;
pub mod limbs;
pub mod field;
pub mod divisibility;
pub mod inverse;
pub mod primality;
pub mod certificate;
pub mod roots;
pub mod randomness;
pub mod encoding;
pub mod lexicographic;
pub mod digests;
pub mod kilt;
pub mod laws;

pub use field::{G, MODULUS, ZERO, ONE, add, sub, mul, mul_acc, neg, exp, get_root_of_unity, get_power_series};
pub use limbs::{M, add64_with_carry};
pub use inverse::{inv, inv_many, inv_many_fill, div};
pub use randomness::{rand, rand_vector, prng, prng_vector};
pub use encoding::from_bytes;
pub use kilt::{kvalid_a, kvalid_b, khash_a, khash_b};

verus! {

} // verus!
