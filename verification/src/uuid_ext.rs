//! Version-4 UUIDs drawn from a seed.
use vstd::prelude::*;

use rand::RngExt;
use rand::rngs::StdRng;
use rand_seeder::Seeder;

verus! {

/// `Seeder::from(seed).into_rng::<StdRng>().random::<u128>()`: the first
/// 128-bit number of the standard generator of `rand` seeded from `seed`.
/// Nothing is stated of the number: `rand` documents `StdRng` as not
/// portable, so a fixed seed may draw different numbers on different platforms.
#[verifier::external_body]
fn seeded_random_u128<H: std::hash::Hash>(seed: H) -> u128 {
    Seeder::from(seed).into_rng::<StdRng>().random::<u128>()
}

/// The bits of a version-4, RFC 4122 variant UUID made from a random number:
/// the version nibble forced to 4 and the variant bits to `10`.
pub open spec fn v4_bits(random: u128) -> u128 {
    random & 0xFFFFFFFFFFFF4FFFBFFFFFFFFFFFFFFF | 0x40008000000000000000
}

/// Makes a version-4 UUID from a random number.
pub fn v4_from_random(random: u128) -> (r: u128)
    ensures
        r == v4_bits(random),
        (r >> 76) & 0xF == 4,
        (r >> 62) & 0x3 == 2,
{
    let r = random & 0xFFFFFFFFFFFF4FFFBFFFFFFFFFFFFFFF | 0x40008000000000000000;
    assert((r >> 76) & 0xF == 4 && (r >> 62) & 0x3 == 2) by (bit_vector)
        requires
            r == random & 0xFFFFFFFFFFFF4FFFBFFFFFFFFFFFFFFF | 0x40008000000000000000,
    ;
    r
}

/// A version-4 UUID drawn from a seed: the bits of a number drawn from the
/// generator seeded with it, with the version and variant fields set.
pub fn v4_from_seed<H: std::hash::Hash>(seed: H) -> (r: u128)
    ensures
        exists|x: u128| r == v4_bits(x),
        (r >> 76) & 0xF == 4,
        (r >> 62) & 0x3 == 2,
{
    v4_from_random(seeded_random_u128(seed))
}

} // verus!
