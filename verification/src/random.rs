//! What the generator has from `rand`: the random words of one second, drawn
//! from a generator that is seeded with the second itself, so that a second
//! always gets the same words; and whole numbers drawn from a range.

use rand::rngs::StdRng;
use rand::Rng;
use rand::SeedableRng;
use vstd::prelude::*;

verus! {

/// The first nine 64-bit words that `rand`'s standard generator yields after
/// it was seeded with `seed`.
pub uninterp spec fn seeded_words(seed: u64) -> Seq<u64>;

/// Seeds `rand::rngs::StdRng` with `SeedableRng::seed_from_u64(seed)` and takes
/// nine words from it with `Rng::gen`, which for an array of `u64` calls
/// `next_u64` once for each element, in order. The generator is a
/// deterministic function of its seed, so the words are a function of `seed`
/// alone; the contract gives them their name and claims nothing else.
#[verifier::external_body]
pub(crate) fn draw_words(seed: u64) -> (words: [u64; 9])
    ensures
        words@ == seeded_words(seed),
{
    StdRng::seed_from_u64(seed).gen()
}

/// The number that `rand`'s standard generator draws from `low .. high` right
/// after it was seeded with `seed`.
pub uninterp spec fn seeded_range(seed: u64, low: u32, high: u32) -> u32;

/// Seeds `rand::rngs::StdRng` with `SeedableRng::seed_from_u64(seed)` and draws
/// one number with `Rng::gen_range(low..high)`. `gen_range` panics on an empty
/// range, which the precondition rules out, and gives a value of the range;
/// as the generator is a deterministic function of its seed, the value is a
/// function of the seed and the range, and has its name.
#[verifier::external_body]
pub(crate) fn draw_range(seed: u64, low: u32, high: u32) -> (drawn: u32)
    requires
        low < high,
    ensures
        low <= drawn < high,
        drawn == seeded_range(seed, low, high),
{
    StdRng::seed_from_u64(seed).gen_range(low..high)
}

} // verus!
