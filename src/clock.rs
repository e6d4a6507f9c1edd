//! The frame clock: time since start, and the delta between frames.
use vstd::prelude::*;

verus! {

/// The clock's reading after a frame at `current`: a reading earlier than the
/// last one (a clock that stepped back) is ignored.
pub open spec fn reading_after(previous: nat, current: nat) -> nat {
    if current >= previous {
        current
    } else {
        previous
    }
}

/// The delta of a frame at `current` after a frame at `previous`.
pub open spec fn delta_of(previous: nat, current: nat) -> nat {
    (reading_after(previous, current) - previous) as nat
}

/// Measures the time between consecutive frames, in nanoseconds since the
/// clock's start.
pub struct FrameClock {
    previous: u64,
}

impl View for FrameClock {
    type V = nat;

    /// The time of the last frame.
    closed spec fn view(&self) -> nat {
        self.previous as nat
    }
}

impl FrameClock {
    /// A clock whose last frame is its start.
    pub fn new() -> (r: FrameClock)
        ensures
            r@ == 0,
    {
        FrameClock { previous: 0 }
    }

    /// The time of the last frame, in nanoseconds since the start.
    pub fn previous(&self) -> (r: u64)
        ensures
            r == self@,
    {
        self.previous
    }

    /// Records a frame at `current` nanoseconds since the start and returns
    /// the time since the previous frame.
    pub fn tick(&mut self, current: u64) -> (delta: u64)
        ensures
            final(self)@ == reading_after(old(self)@, current as nat),
            delta == delta_of(old(self)@, current as nat),
    {
        if current >= self.previous {
            let delta = current - self.previous;
            self.previous = current;
            delta
        } else {
            0
        }
    }
}

/// Over two consecutive frames the deltas add up to the time between the
/// first reading and the last, and on a clock that does not step back each
/// delta is the time between its frames and the last reading is kept.
pub proof fn lemma_deltas_add_up(start: nat, first: nat, second: nat)
    ensures
        delta_of(start, first) + delta_of(reading_after(start, first), second)
            == reading_after(reading_after(start, first), second) - start,
        start <= first <= second ==> delta_of(start, first) == first - start
            && delta_of(reading_after(start, first), second) == second - first
            && reading_after(reading_after(start, first), second) == second,
        first < start ==> delta_of(start, first) == 0 && reading_after(start, first) == start,
{
}

} // verus!
