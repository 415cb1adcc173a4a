//! The seeded pseudorandom stream that a glyph's attempts are drawn from.
//!
//! The stream is ChaCha8 from `rand_chacha`, seeded by `seed_from_u64` and
//! sampled through `rand`. Seeded generators are reproducible, so every draw
//! is fixed by the seed and by the draws made before it. The stream keeps
//! both as ghost state, and each draw's result is named over them: what the
//! names hold is outside the proofs, but two streams with the same seed and
//! the same history of draws yield the same value.

use rand::{Rng, SeedableRng};
use rand_chacha::ChaCha8Rng;
use vstd::prelude::*;

verus! {

#[verifier::external_type_specification]
#[verifier::external_body]
pub struct ExChaCha8Rng(ChaCha8Rng);

/// How a coin flip is recorded in a stream's history. A draw over
/// `[low, high)` is recorded as `(low, high)`, which is never empty.
pub open spec fn coin_record() -> (int, int) {
    (0, 0)
}

/// The coin that a stream seeded with `seed` yields after the draws `drawn`.
pub uninterp spec fn coin_draw(seed: u64, drawn: Seq<(int, int)>) -> bool;

/// The value in `[low, high)` that a stream seeded with `seed` yields after
/// the draws `drawn`.
pub uninterp spec fn range_draw(seed: u64, drawn: Seq<(int, int)>, low: int, high: int) -> int;

/// A seeded stream, with the seed it was made from and the draws made so far.
pub struct Stream {
    rng: ChaCha8Rng,
    seed: Ghost<u64>,
    drawn: Ghost<Seq<(int, int)>>,
}

impl Stream {
    pub closed spec fn seed(&self) -> u64 {
        self.seed@
    }

    pub closed spec fn drawn(&self) -> Seq<(int, int)> {
        self.drawn@
    }

    /// A fresh stream for `seed`, with no draws made.
    pub fn new(seed: u64) -> (r: Stream)
        ensures
            r.seed() == seed,
            r.drawn() == Seq::<(int, int)>::empty(),
    {
        Stream { rng: seeded_stream(seed), seed: Ghost(seed), drawn: Ghost(Seq::empty()) }
    }
}

/// Relies on `SeedableRng::seed_from_u64` of `rand_chacha::ChaCha8Rng`: a
/// fresh stream determined by `seed`.
#[verifier::external_body]
fn seeded_stream(seed: u64) -> ChaCha8Rng {
    ChaCha8Rng::seed_from_u64(seed)
}

/// Relies on `Rng::gen::<bool>` of `rand`: one coin flip, fixed by the seed
/// and the draws before it.
#[verifier::external_body]
pub(crate) fn draw_coin(stream: &mut Stream) -> (r: bool)
    ensures
        r == coin_draw(old(stream).seed(), old(stream).drawn()),
        final(stream).seed() == old(stream).seed(),
        final(stream).drawn() == old(stream).drawn().push(coin_record()),
{
    stream.rng.gen::<bool>()
}

/// Relies on `Rng::gen_range::<i32>` of `rand`: a value in `[low, high)`
/// (it panics when the range is empty), fixed by the seed and the draws
/// before it. Start indices are drawn over `[0, resolution)` and ternary
/// steps over `[-1, 2)`.
#[verifier::external_body]
pub(crate) fn draw_range(stream: &mut Stream, low: i32, high: i32) -> (r: i32)
    requires
        low < high,
    ensures
        low <= r < high,
        r == range_draw(old(stream).seed(), old(stream).drawn(), low as int, high as int),
        final(stream).seed() == old(stream).seed(),
        final(stream).drawn() == old(stream).drawn().push((low as int, high as int)),
{
    stream.rng.gen_range::<i32, i32, i32>(low, high)
}

} // verus!
