//! The pseudo-random stream that every draw consumes.
//!
//! The stream is a `ChaCha8Rng`. Nothing here is proved of it: each function of this file
//! states what the generator's own source shows of one of its operations.

use rand::Rng;
use rand::SeedableRng;
use rand_chacha::ChaCha8Rng;
use vstd::prelude::*;

verus! {

#[verifier::external_type_specification]
#[verifier::external_body]
pub struct ExChaCha8Rng(ChaCha8Rng);

/// Where a stream stands: the key it was made from, its stream number and the number of
/// 32-bit words already handed out. Two generators at the same position yield the same
/// output from there on.
pub struct StreamState {
    pub seed: Seq<u8>,
    pub stream: u64,
    pub word_pos: u128,
}

/// The position of `rng`: what `get_seed`, `get_stream` and `get_word_pos` report of it.
pub uninterp spec fn stream_state(rng: ChaCha8Rng) -> StreamState;

/// The position of the generator that `seed_from_u64` makes from `seed`.
pub uninterp spec fn seeded_state(seed: u64) -> StreamState;

/// What `gen_range` yields on a signed integer type of `bits` bits for the closed range
/// `[low, last]`, and where it leaves the stream.
pub uninterp spec fn range_outcome(state: StreamState, bits: int, low: int, last: int) -> (
    int,
    StreamState,
);

/// `base` multiplied by itself `exp` times.
pub open spec fn power(base: int, exp: nat) -> int
    decreases exp,
{
    if exp == 0 {
        1
    } else {
        base * power(base, (exp - 1) as nat)
    }
}

/// `SeedableRng::seed_from_u64` for `ChaCha8Rng`: the generator is a function of the seed
/// alone.
#[verifier::external_body]
pub(crate) fn seeded(seed: u64) -> (rng: ChaCha8Rng)
    ensures
        stream_state(rng) == seeded_state(seed),
{
    ChaCha8Rng::seed_from_u64(seed)
}

/// `SeedableRng::from_entropy` for `ChaCha8Rng`: a generator keyed by the operating system.
/// Nothing is known of where it stands. The call aborts if the system has no entropy to give.
#[verifier::external_body]
pub(crate) fn from_entropy() -> ChaCha8Rng {
    ChaCha8Rng::from_entropy()
}

/// `Rng::gen_range(low..high)` on `i16`: a value of the half-open range, fixed by the
/// position of the stream. An empty range makes the call panic.
#[verifier::external_body]
pub(crate) fn uniform_i16(rng: &mut ChaCha8Rng, low: i16, high: i16) -> (value: i16)
    requires
        low < high,
    ensures
        low <= value < high,
        value == range_outcome(stream_state(*old(rng)), 16, low as int, high - 1).0,
        stream_state(*final(rng)) == range_outcome(
            stream_state(*old(rng)),
            16,
            low as int,
            high - 1,
        ).1,
{
    rng.gen_range(low..high)
}

/// `Rng::gen_range(low..high)` on `i32`: a value of the half-open range, fixed by the
/// position of the stream. An empty range makes the call panic.
#[verifier::external_body]
pub(crate) fn uniform_i32(rng: &mut ChaCha8Rng, low: i32, high: i32) -> (value: i32)
    requires
        low < high,
    ensures
        low <= value < high,
        value == range_outcome(stream_state(*old(rng)), 32, low as int, high - 1).0,
        stream_state(*final(rng)) == range_outcome(
            stream_state(*old(rng)),
            32,
            low as int,
            high - 1,
        ).1,
{
    rng.gen_range(low..high)
}

/// `Rng::gen_range(low..=last)` on `i32`: a value of the closed range, fixed by the position
/// of the stream. The half-open form samples the same closed range `[low, high - 1]`.
#[verifier::external_body]
pub(crate) fn uniform_i32_inclusive(rng: &mut ChaCha8Rng, low: i32, last: i32) -> (value: i32)
    requires
        low <= last,
    ensures
        low <= value <= last,
        value == range_outcome(stream_state(*old(rng)), 32, low as int, last as int).0,
        stream_state(*final(rng)) == range_outcome(
            stream_state(*old(rng)),
            32,
            low as int,
            last as int,
        ).1,
{
    rng.gen_range(low..=last)
}

/// `Rng::gen_range(low..high)` on `i64`: a value of the half-open range, fixed by the
/// position of the stream. An empty range makes the call panic.
#[verifier::external_body]
pub(crate) fn uniform_i64(rng: &mut ChaCha8Rng, low: i64, high: i64) -> (value: i64)
    requires
        low < high,
    ensures
        low <= value < high,
        value == range_outcome(stream_state(*old(rng)), 64, low as int, high - 1).0,
        stream_state(*final(rng)) == range_outcome(
            stream_state(*old(rng)),
            64,
            low as int,
            high - 1,
        ).1,
{
    rng.gen_range(low..high)
}

/// `num_traits::pow` on `i32`: exponentiation by squaring. No intermediate product exceeds
/// the result where the base is not negative, so the call cannot overflow where the result
/// fits.
#[verifier::external_body]
pub(crate) fn int_pow(base: i32, exp: usize) -> (value: i32)
    requires
        0 <= base,
        power(base as int, exp as nat) <= i32::MAX,
    ensures
        value == power(base as int, exp as nat),
{
    num_traits::pow(base, exp)
}

} // verus!
