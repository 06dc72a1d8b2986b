//! The tunables that govern what the generators draw.

use vstd::prelude::*;

verus! {

/// Smallest text length a tunable may hold.
pub const TEXT_LENGTH_FLOOR: i32 = 3;

/// Largest number of elements an array column may be given.
pub const ARRAY_LENGTH_CEILING: i32 = 16384;

/// `value` moved to the nearest point of `[low, high]`.
pub open spec fn clamped(value: int, low: int, high: int) -> int {
    if value < low {
        low
    } else if value > high {
        high
    } else {
        value
    }
}

/// The tunables. A scan reads them once, when it begins.
#[derive(Clone, Copy, Debug, PartialEq, Eq)]
pub struct RandomGUC {
    seed: i32,
    min_integer: i32,
    max_integer: i32,
    min_text_length: i32,
    max_text_length: i32,
    array_length: i32,
    float_scale: i32,
}

impl RandomGUC {
    /// Every tunable lies in its own range and no lower bound exceeds its upper bound.
    pub closed spec fn wf(&self) -> bool {
        &&& self.min_integer <= self.max_integer
        &&& TEXT_LENGTH_FLOOR <= self.min_text_length <= self.max_text_length
        &&& 1 <= self.array_length <= ARRAY_LENGTH_CEILING
        &&& 1 <= self.float_scale
    }

    pub closed spec fn spec_seed(&self) -> i32 {
        self.seed
    }

    pub closed spec fn spec_min_integer(&self) -> i32 {
        self.min_integer
    }

    pub closed spec fn spec_max_integer(&self) -> i32 {
        self.max_integer
    }

    pub closed spec fn spec_min_text_length(&self) -> i32 {
        self.min_text_length
    }

    pub closed spec fn spec_max_text_length(&self) -> i32 {
        self.max_text_length
    }

    pub closed spec fn spec_array_length(&self) -> i32 {
        self.array_length
    }

    pub closed spec fn spec_float_scale(&self) -> i32 {
        self.float_scale
    }

    /// What `wf` says, over the getters.
    pub proof fn lemma_wf(&self)
        ensures
            self.wf() <==> {
                &&& self.spec_min_integer() <= self.spec_max_integer()
                &&& TEXT_LENGTH_FLOOR <= self.spec_min_text_length() <= self.spec_max_text_length()
                &&& 1 <= self.spec_array_length() <= ARRAY_LENGTH_CEILING
                &&& 1 <= self.spec_float_scale()
            },
    {
    }

    /// The tunables at their defaults.
    pub fn new() -> (guc: Self)
        ensures
            guc.wf(),
            guc.spec_seed() == 0,
            guc.spec_min_integer() == -10000,
            guc.spec_max_integer() == 10000,
            guc.spec_min_text_length() == 30000,
            guc.spec_max_text_length() == 50000,
            guc.spec_array_length() == 1024,
            guc.spec_float_scale() == 1,
    {
        RandomGUC {
            seed: 0,
            min_integer: -10000,
            max_integer: 10000,
            min_text_length: 30000,
            max_text_length: 50000,
            array_length: 1024,
            float_scale: 1,
        }
    }

    #[verifier::when_used_as_spec(spec_seed)]
    pub fn seed(&self) -> (v: i32)
        ensures
            v == self.spec_seed(),
    {
        self.seed
    }

    #[verifier::when_used_as_spec(spec_min_integer)]
    pub fn min_integer(&self) -> (v: i32)
        ensures
            v == self.spec_min_integer(),
    {
        self.min_integer
    }

    #[verifier::when_used_as_spec(spec_max_integer)]
    pub fn max_integer(&self) -> (v: i32)
        ensures
            v == self.spec_max_integer(),
    {
        self.max_integer
    }

    #[verifier::when_used_as_spec(spec_min_text_length)]
    pub fn min_text_length(&self) -> (v: i32)
        ensures
            v == self.spec_min_text_length(),
    {
        self.min_text_length
    }

    #[verifier::when_used_as_spec(spec_max_text_length)]
    pub fn max_text_length(&self) -> (v: i32)
        ensures
            v == self.spec_max_text_length(),
    {
        self.max_text_length
    }

    #[verifier::when_used_as_spec(spec_array_length)]
    pub fn array_length(&self) -> (v: i32)
        ensures
            v == self.spec_array_length(),
    {
        self.array_length
    }

    #[verifier::when_used_as_spec(spec_float_scale)]
    pub fn float_scale(&self) -> (v: i32)
        ensures
            v == self.spec_float_scale(),
    {
        self.float_scale
    }

    /// The seed that a scan is begun with: the tunable where it is positive, else 0, which
    /// asks for a generator seeded from entropy.
    pub fn seed_option(&self) -> (seed: u64)
        ensures
            seed == if self.spec_seed() > 0 {
                self.spec_seed() as int
            } else {
                0
            },
    {
        if self.seed > 0 {
            self.seed as u64
        } else {
            0
        }
    }

    /// Stores `value`. Every seed is accepted.
    pub fn set_seed(&mut self, value: i32)
        ensures
            final(self).spec_seed() == value,
            final(self).same_but_seed(*old(self)),
            old(self).wf() ==> final(self).wf(),
    {
        self.seed = value;
    }

    /// Stores `value`, lowered to the upper integer bound where it lies above it.
    pub fn set_min_integer(&mut self, value: i32)
        requires
            old(self).wf(),
        ensures
            final(self).wf(),
            final(self).spec_min_integer() == clamped(
                value as int,
                i32::MIN as int,
                old(self).spec_max_integer() as int,
            ),
            final(self).same_but_min_integer(*old(self)),
    {
        self.min_integer = if value > self.max_integer {
            self.max_integer
        } else {
            value
        };
    }

    /// Stores `value`, raised to the lower integer bound where it lies below it.
    pub fn set_max_integer(&mut self, value: i32)
        requires
            old(self).wf(),
        ensures
            final(self).wf(),
            final(self).spec_max_integer() == clamped(
                value as int,
                old(self).spec_min_integer() as int,
                i32::MAX as int,
            ),
            final(self).same_but_max_integer(*old(self)),
    {
        self.max_integer = if value < self.min_integer {
            self.min_integer
        } else {
            value
        };
    }

    /// Stores `value`, moved into `[3, max_text_length]`.
    pub fn set_min_text_length(&mut self, value: i32)
        requires
            old(self).wf(),
        ensures
            final(self).wf(),
            final(self).spec_min_text_length() == clamped(
                value as int,
                TEXT_LENGTH_FLOOR as int,
                old(self).spec_max_text_length() as int,
            ),
            final(self).same_but_min_text_length(*old(self)),
    {
        self.min_text_length = if value < TEXT_LENGTH_FLOOR {
            TEXT_LENGTH_FLOOR
        } else if value > self.max_text_length {
            self.max_text_length
        } else {
            value
        };
    }

    /// Stores `value`, raised to `min_text_length` where it lies below it.
    pub fn set_max_text_length(&mut self, value: i32)
        requires
            old(self).wf(),
        ensures
            final(self).wf(),
            final(self).spec_max_text_length() == clamped(
                value as int,
                old(self).spec_min_text_length() as int,
                i32::MAX as int,
            ),
            final(self).same_but_max_text_length(*old(self)),
    {
        self.max_text_length = if value < self.min_text_length {
            self.min_text_length
        } else {
            value
        };
    }

    /// Stores both text bounds at once: `min` moved to 3 or above, `max` to `min` or above.
    pub fn set_text_length_range(&mut self, min: i32, max: i32)
        requires
            old(self).wf(),
        ensures
            final(self).wf(),
            final(self).spec_min_text_length() == clamped(
                min as int,
                TEXT_LENGTH_FLOOR as int,
                i32::MAX as int,
            ),
            final(self).spec_max_text_length() == clamped(
                max as int,
                final(self).spec_min_text_length() as int,
                i32::MAX as int,
            ),
            final(self).spec_seed() == old(self).spec_seed(),
            final(self).spec_min_integer() == old(self).spec_min_integer(),
            final(self).spec_max_integer() == old(self).spec_max_integer(),
            final(self).spec_array_length() == old(self).spec_array_length(),
            final(self).spec_float_scale() == old(self).spec_float_scale(),
    {
        let low: i32 = if min < TEXT_LENGTH_FLOOR {
            TEXT_LENGTH_FLOOR
        } else {
            min
        };
        self.min_text_length = low;
        self.max_text_length = if max < low {
            low
        } else {
            max
        };
    }

    /// Stores both integer bounds at once: `max` raised to `min` where it lies below it.
    pub fn set_integer_range(&mut self, min: i32, max: i32)
        requires
            old(self).wf(),
        ensures
            final(self).wf(),
            final(self).spec_min_integer() == min,
            final(self).spec_max_integer() == clamped(max as int, min as int, i32::MAX as int),
            final(self).spec_seed() == old(self).spec_seed(),
            final(self).spec_min_text_length() == old(self).spec_min_text_length(),
            final(self).spec_max_text_length() == old(self).spec_max_text_length(),
            final(self).spec_array_length() == old(self).spec_array_length(),
            final(self).spec_float_scale() == old(self).spec_float_scale(),
    {
        self.min_integer = min;
        self.max_integer = if max < min {
            min
        } else {
            max
        };
    }

    /// Stores `value`, moved into `[1, 16384]`.
    pub fn set_array_length(&mut self, value: i32)
        requires
            old(self).wf(),
        ensures
            final(self).wf(),
            final(self).spec_array_length() == clamped(
                value as int,
                1,
                ARRAY_LENGTH_CEILING as int,
            ),
            final(self).same_but_array_length(*old(self)),
    {
        self.array_length = if value < 1 {
            1
        } else if value > ARRAY_LENGTH_CEILING {
            ARRAY_LENGTH_CEILING
        } else {
            value
        };
    }

    /// Stores `value`, raised to 1 where it lies below it.
    pub fn set_float_scale(&mut self, value: i32)
        requires
            old(self).wf(),
        ensures
            final(self).wf(),
            final(self).spec_float_scale() == clamped(value as int, 1, i32::MAX as int),
            final(self).same_but_float_scale(*old(self)),
    {
        self.float_scale = if value < 1 {
            1
        } else {
            value
        };
    }

    pub open spec fn same_but_seed(&self, other: Self) -> bool {
        &&& self.spec_min_integer() == other.spec_min_integer()
        &&& self.spec_max_integer() == other.spec_max_integer()
        &&& self.spec_min_text_length() == other.spec_min_text_length()
        &&& self.spec_max_text_length() == other.spec_max_text_length()
        &&& self.spec_array_length() == other.spec_array_length()
        &&& self.spec_float_scale() == other.spec_float_scale()
    }

    pub open spec fn same_but_min_integer(&self, other: Self) -> bool {
        &&& self.spec_seed() == other.spec_seed()
        &&& self.spec_max_integer() == other.spec_max_integer()
        &&& self.spec_min_text_length() == other.spec_min_text_length()
        &&& self.spec_max_text_length() == other.spec_max_text_length()
        &&& self.spec_array_length() == other.spec_array_length()
        &&& self.spec_float_scale() == other.spec_float_scale()
    }

    pub open spec fn same_but_max_integer(&self, other: Self) -> bool {
        &&& self.spec_seed() == other.spec_seed()
        &&& self.spec_min_integer() == other.spec_min_integer()
        &&& self.spec_min_text_length() == other.spec_min_text_length()
        &&& self.spec_max_text_length() == other.spec_max_text_length()
        &&& self.spec_array_length() == other.spec_array_length()
        &&& self.spec_float_scale() == other.spec_float_scale()
    }

    pub open spec fn same_but_min_text_length(&self, other: Self) -> bool {
        &&& self.spec_seed() == other.spec_seed()
        &&& self.spec_min_integer() == other.spec_min_integer()
        &&& self.spec_max_integer() == other.spec_max_integer()
        &&& self.spec_max_text_length() == other.spec_max_text_length()
        &&& self.spec_array_length() == other.spec_array_length()
        &&& self.spec_float_scale() == other.spec_float_scale()
    }

    pub open spec fn same_but_max_text_length(&self, other: Self) -> bool {
        &&& self.spec_seed() == other.spec_seed()
        &&& self.spec_min_integer() == other.spec_min_integer()
        &&& self.spec_max_integer() == other.spec_max_integer()
        &&& self.spec_min_text_length() == other.spec_min_text_length()
        &&& self.spec_array_length() == other.spec_array_length()
        &&& self.spec_float_scale() == other.spec_float_scale()
    }

    pub open spec fn same_but_array_length(&self, other: Self) -> bool {
        &&& self.spec_seed() == other.spec_seed()
        &&& self.spec_min_integer() == other.spec_min_integer()
        &&& self.spec_max_integer() == other.spec_max_integer()
        &&& self.spec_min_text_length() == other.spec_min_text_length()
        &&& self.spec_max_text_length() == other.spec_max_text_length()
        &&& self.spec_float_scale() == other.spec_float_scale()
    }

    pub open spec fn same_but_float_scale(&self, other: Self) -> bool {
        &&& self.spec_seed() == other.spec_seed()
        &&& self.spec_min_integer() == other.spec_min_integer()
        &&& self.spec_max_integer() == other.spec_max_integer()
        &&& self.spec_min_text_length() == other.spec_min_text_length()
        &&& self.spec_max_text_length() == other.spec_max_text_length()
        &&& self.spec_array_length() == other.spec_array_length()
    }
}

} // verus!
