//! Random and pseudo-random field elements.
use vstd::prelude::*;
use rand::distributions::{Distribution, Uniform};
use rand::rngs::StdRng;
use rand::{Rng, SeedableRng};
use crate::limbs::M;

verus! {

/// Samples `rand::distributions::Uniform::from(0..bound)` with the
/// thread-local generator `rand::thread_rng()`. The crate's source draws
/// from `[low, high)`, so the result is below `bound`; which value comes
/// back is left open.
#[verifier::external_body]
fn sample_below(bound: u128) -> (r: u128)
    requires
        bound > 0,
    ensures
        r < bound,
{
    Uniform::from(0..bound).sample(&mut rand::thread_rng())
}

/// Draws `length` samples of `Uniform::from(0..bound)` from
/// `rand::thread_rng()` through `Rng::sample_iter`. Every value is below
/// `bound`; which values come back is left open.
#[verifier::external_body]
fn sample_many_below(bound: u128, length: usize) -> (r: Vec<u128>)
    requires
        bound > 0,
    ensures
        r@.len() == length,
        forall|i: int| 0 <= i < length ==> #[trigger] r@[i] < bound,
{
    rand::thread_rng().sample_iter(Uniform::from(0..bound)).take(length).collect()
}

/// The value that `Uniform::from(0..bound)` draws first from the generator
/// `rand::rngs::StdRng::from_seed(seed)`.
pub uninterp spec fn seeded_uniform(seed: Seq<u8>, bound: u128) -> u128;

/// Samples `Uniform::from(0..bound)` with `rand::rngs::StdRng::from_seed(seed)`.
/// Claimed: the result is below `bound`, and it is a function of `seed` and
/// `bound` alone, named `seeded_uniform`: in the `rand` version used, `StdRng`
/// is the ChaCha12 generator keyed by the seed and the sampling of `u128`
/// ranges reads no other state. Which value that is, is left unsaid; `rand`
/// warns that later versions may change the algorithm.
#[verifier::external_body]
fn seeded_sample_below(seed: [u8; 32], bound: u128) -> (r: u128)
    requires
        bound > 0,
    ensures
        r == seeded_uniform(seed@, bound),
        r < bound,
{
    Uniform::from(0..bound).sample(&mut StdRng::from_seed(seed))
}

/// The first `length` values that `Uniform::from(0..bound)` draws from the
/// generator `rand::rngs::StdRng::from_seed(seed)`.
pub uninterp spec fn seeded_uniform_seq(seed: Seq<u8>, bound: u128, length: nat) -> Seq<u128>;

/// Draws `length` samples of `Uniform::from(0..bound)` from
/// `StdRng::from_seed(seed)` through `Rng::sample_iter`. Claimed: every value
/// is below `bound`, and the values are a function of `seed`, `bound` and
/// `length` alone, named `seeded_uniform_seq` (the ChaCha12 generator keyed by
/// the seed, sampled one value after another). A shorter draw is a prefix of a
/// longer one, and the first value is the one `seeded_sample_below` draws.
/// Which values they are is left unsaid; `rand` warns that later versions may
/// change the algorithm.
#[verifier::external_body]
fn seeded_sample_many_below(seed: [u8; 32], bound: u128, length: usize) -> (r: Vec<u128>)
    requires
        bound > 0,
    ensures
        r@ == seeded_uniform_seq(seed@, bound, length as nat),
        r@.len() == length,
        forall|i: int| 0 <= i < length ==> #[trigger] r@[i] < bound,
        forall|n: nat|
            n <= length ==> #[trigger] seeded_uniform_seq(seed@, bound, n) == r@.subrange(
                0,
                n as int,
            ),
        length >= 1 ==> r@[0] == seeded_uniform(seed@, bound),
{
    StdRng::from_seed(seed).sample_iter(Uniform::from(0..bound)).take(length).collect()
}

/// Generates a random field element.
pub fn rand() -> (r: u128)
    ensures
        r < M,
{
    sample_below(M)
}

/// Generates a vector of random field elements.
pub fn rand_vector(length: usize) -> (r: Vec<u128>)
    ensures
        r@.len() == length,
        forall|i: int| 0 <= i < length ==> #[trigger] r@[i] < M,
{
    sample_many_below(M, length)
}

/// Generates a pseudo-random field element from a given `seed`: the same
/// seed always gives the same element.
pub fn prng(seed: [u8; 32]) -> (r: u128)
    ensures
        r == seeded_uniform(seed@, M),
        r < M,
{
    seeded_sample_below(seed, M)
}

/// Generates a vector of pseudo-random field elements from a given `seed`:
/// the same seed always gives the same elements, a shorter vector from the
/// same seed is a prefix, and the first element is `prng(seed)`.
pub fn prng_vector(seed: [u8; 32], length: usize) -> (r: Vec<u128>)
    ensures
        r@ == seeded_uniform_seq(seed@, M, length as nat),
        forall|n: nat|
            n <= length ==> #[trigger] seeded_uniform_seq(seed@, M, n) == r@.subrange(0, n as int),
        length >= 1 ==> r@[0] == seeded_uniform(seed@, M),
        r@.len() == length,
        forall|i: int| 0 <= i < length ==> #[trigger] r@[i] < M,
{
    seeded_sample_many_below(seed, M, length)
}

} // verus!
