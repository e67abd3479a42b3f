//! Signed differences between unsigned counters.

use vstd::prelude::*;

verus! {

/// The difference between two unsigned counter readings, as a sign and a
/// magnitude. A counter that went backwards gives a negative difference; it
/// is reported as it is, never clamped and never wrapped.
#[derive(Clone, Copy, Debug, PartialEq, Eq)]
pub struct Delta {
    /// Whether the difference is below zero.
    pub negative: bool,
    /// The absolute value of the difference.
    pub magnitude: u128,
}

impl View for Delta {
    type V = int;

    /// The difference as a mathematical integer.
    open spec fn view(&self) -> int {
        if self.negative {
            -(self.magnitude as int)
        } else {
            self.magnitude as int
        }
    }
}

impl Delta {
    /// The representation of the integer `value`: zero is never negative.
    pub open spec fn of(value: int) -> Delta {
        if value < 0 {
            Delta { negative: true, magnitude: (-value) as u128 }
        } else {
            Delta { negative: false, magnitude: value as u128 }
        }
    }

    /// A difference is canonical when it is the representation of its value.
    pub open spec fn wf(&self) -> bool {
        self.negative ==> self.magnitude > 0
    }

    /// `current - previous`, exact for every pair of readings.
    pub fn between(current: u128, previous: u128) -> (d: Delta)
        ensures
            d == Delta::of(current - previous),
            d@ == current - previous,
            d.wf(),
    {
        if current < previous {
            Delta { negative: true, magnitude: previous - current }
        } else {
            Delta { negative: false, magnitude: current - previous }
        }
    }

    /// Whether the difference is zero.
    pub fn is_zero(&self) -> (z: bool)
        ensures
            z == (self@ == 0),
    {
        self.magnitude == 0
    }

    /// Whether the difference is below zero.
    pub fn is_negative(&self) -> (n: bool)
        ensures
            n == (self@ < 0),
    {
        self.negative && self.magnitude != 0
    }

    /// Every integer whose absolute value fits in 128 bits is the value of
    /// its representation, and that representation is canonical.
    pub proof fn lemma_of_view(value: int)
        requires
            -(u128::MAX as int) <= value <= u128::MAX as int,
        ensures
            Delta::of(value)@ == value,
            Delta::of(value).wf(),
    {
    }
}

} // verus!
