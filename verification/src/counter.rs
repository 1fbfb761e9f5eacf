//! Counters that hand out consecutive numbers.

use vstd::prelude::*;

verus! {

/// The number that follows `n`: one more, and 0 after the largest.
pub open spec fn successor(n: u64) -> u64 {
    if n == u64::MAX {
        0
    } else {
        (n + 1) as u64
    }
}

/// The number that a counter holds after it has handed out `taken` numbers,
/// the first of which was `start`.
pub open spec fn advanced(start: u64, taken: nat) -> u64
    decreases taken,
{
    if taken == 0 {
        start
    } else {
        successor(advanced(start, (taken - 1) as nat))
    }
}

/// A counter that hands out each number once, in order, and starts over at 0
/// after the largest.
#[derive(Debug, PartialEq, Eq)]
pub struct Counter {
    /// The number that is handed out next.
    pub next: u64,
}

impl Counter {
    /// A counter that starts at 0.
    pub fn new() -> (r: Counter)
        ensures
            r.next == 0,
    {
        Counter { next: 0 }
    }

    /// Hands out the current number and advances to the one that follows.
    pub fn take(&mut self) -> (n: u64)
        ensures
            n == old(self).next,
            final(self).next == successor(old(self).next),
    {
        let n = self.next;
        self.next = if n == u64::MAX {
            0
        } else {
            n + 1
        };
        n
    }
}

/// As long as the largest number is not reached, the numbers handed out rise
/// by one with each take: the take after `taken` others hands out
/// `start + taken`.
pub proof fn lemma_numbers_rise_without_gaps(start: u64, taken: nat)
    requires
        start + taken <= u64::MAX,
    ensures
        advanced(start, taken) == start + taken,
    decreases taken,
{
    if taken > 0 {
        lemma_numbers_rise_without_gaps(start, (taken - 1) as nat);
    }
}

} // verus!
