# field_math

Arithmetic in the prime field of order `M = 2^128 - 45 * 2^40 + 1`, and hashes of KILT
credentials into field elements, verified with Verus.

Modules under `src/`:

- `limbs`: 64-bit limb arithmetic behind multiplication and inversion (`mul_128x64`,
  `mul_reduce`, `sub_192x192`, ...).
- `field`: the field operations `add`, `sub`, `mul`, `neg`, `exp`, `mul_acc`, roots of unity
  and power series, each specified over mathematical integers modulo `M`.
- `inverse`: inversion by the binary extended Euclidean algorithm, batch inversion and
  division.
- `divisibility`, `primality`, `certificate`: a Lucas primality certificate proving that `M`
  is prime.
- `roots`: the generator `G` has order exactly `2^40`.
- `randomness`: random and seeded field elements (through `rand`).
- `encoding`, `lexicographic`: hexadecimal and decimal text, big-endian numbers, and
  lexicographic order on byte strings.
- `digests`: the BLAKE2b and hexadecimal functions of `iota-crypto`, `b2sum-rs` and `hex`
  that the credential hashes call, with the contracts that the library relies on.
- `kilt`: `kvalid_a`, `kvalid_b`, `khash_a`, `khash_b` and the text they hash.
- `laws`: field laws, the order of the roots of unity, and order independence of the
  salted-hash lists.

The tests under `tests/` run the operations on concrete values, checked against
`num-bigint` and against BLAKE2b values computed independently.
