//! A counter that yields 1 through 9, one value per call.
use vstd::prelude::*;

verus! {

/// The last value the counter yields.
pub const COUNTER_LIMIT: i32 = 9;

/// Counts upwards from zero, one step per call of `next`, and stops at
/// `COUNTER_LIMIT`.
pub struct Counter {
    count: i32,
}

impl Counter {
    /// The last value handed out, or 0 before the first.
    pub closed spec fn count(&self) -> int {
        self.count as int
    }

    /// The counter never passes its limit.
    pub open spec fn wf(&self) -> bool {
        0 <= self.count() <= COUNTER_LIMIT
    }

    /// A counter that has handed out nothing yet.
    pub fn new() -> (r: Counter)
        ensures
            r.count() == 0,
            r.wf(),
    {
        Counter { count: 0 }
    }

    /// The next value, one more than the last, or `None` once the limit has
    /// been handed out.
    pub fn next(&mut self) -> (r: Option<i32>)
        requires
            old(self).wf(),
        ensures
            final(self).wf(),
            old(self).count() < COUNTER_LIMIT ==> final(self).count() == old(self).count() + 1
                && r == Some((old(self).count() + 1) as i32),
            old(self).count() >= COUNTER_LIMIT ==> final(self).count() == old(self).count()
                && r.is_none(),
    {
        if self.count < COUNTER_LIMIT {
            self.count = self.count + 1;
            Some(self.count)
        } else {
            None
        }
    }
}

} // verus!
