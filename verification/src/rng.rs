//! Deterministic pseudo-random streams. Every actor owns one, and the
//! world owns a gameplay stream and a cosmetic stream. A stream's next
//! state and output are pure functions of its current state, so replays
//! fed the same seed draw the same values in the same order.

use vstd::prelude::*;

verus! {

/// A 32-bit xorshift stream. The state is never zero.
#[derive(Copy, Clone, PartialEq, Eq, Structural, Debug)]
pub struct Rng {
    pub state: u32,
}

/// The state a freshly seeded stream starts from.
pub open spec fn spec_seed(seed: i32) -> u32 {
    if seed as u32 == 0 {
        0x9e3779b9u32
    } else {
        seed as u32
    }
}

/// One xorshift step of the stream state.
pub open spec fn spec_next(s: u32) -> u32 {
    let a = s ^ (s << 13u32);
    let b = a ^ (a >> 17u32);
    b ^ (b << 5u32)
}

/// The value drawn by `range(start, end)` from state `s`: the next raw
/// output reduced onto the inclusive interval.
pub open spec fn spec_range_val(s: u32, start: int, end: int) -> int {
    start + (spec_next(s) as int) % (end - start + 1)
}

impl Rng {
    pub fn new(seed: i32) -> (r: Rng)
        ensures
            r.state == spec_seed(seed),
            r.state != 0,
    {
        let s: u32 = seed as u32;
        if s == 0 {
            proof {
                assert(spec_seed(seed) == 0x9e3779b9u32) by {
                    assert(seed as u32 == s);
                }
            }
            Rng { state: 0x9e3779b9 }
        } else {
            Rng { state: s }
        }
    }

    /// Advance the stream and return its raw 32-bit output.
    pub fn next_u32(&mut self) -> (r: u32)
        ensures
            final(self).state == spec_next(old(self).state),
            r == spec_next(old(self).state),
    {
        let a: u32 = self.state ^ (self.state << 13u32);
        let b: u32 = a ^ (a >> 17u32);
        let c: u32 = b ^ (b << 5u32);
        self.state = c;
        c
    }

    /// Draw a value uniformly shaped onto the inclusive interval
    /// `start..=end`, advancing the stream by exactly one step.
    pub fn range(&mut self, start: i32, end: i32) -> (r: i32)
        requires
            start <= end,
        ensures
            final(self).state == spec_next(old(self).state),
            r == spec_range_val(old(self).state, start as int, end as int),
            start <= r <= end,
    {
        let n = self.next_u32();
        let span: u64 = (end as i64 - start as i64 + 1) as u64;
        let rem: u64 = (n as u64) % span;
        proof {
            assert(span == end - start + 1);
            assert(0 <= rem < span);
        }
        let out: i64 = start as i64 + rem as i64;
        proof {
            assert(start <= out <= end);
        }
        out as i32
    }
}

} // verus!
