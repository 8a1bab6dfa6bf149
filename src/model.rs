//! The abstract state of a bucket and the transitions its operations make.
//!
//! Times are nanoseconds on the bucket's own clock, counted from the moment
//! the bucket was created.

use vstd::prelude::*;

verus! {

/// Nanoseconds in one second: the granularity at which a bucket drains.
pub const NANOS_PER_SEC: u128 = 1_000_000_000;

/// What a bucket is, mathematically.
pub struct BucketState {
    /// Upper bound on the fill level.
    pub capacity: nat,
    /// Units drained per whole second.
    pub leak_rate: nat,
    /// Current fill level.
    pub level: nat,
    /// Time of the most recent drain, in nanoseconds.
    pub last_update: nat,
}

/// One call of a public operation, with the time at which it reads the clock.
pub enum Call {
    AddEvent(nat),
    RemainingCapacity(nat),
}

/// Whole seconds from `from` to `to`; zero when `to` is not later.
pub open spec fn whole_secs_between(from: nat, to: nat) -> nat {
    if to > from {
        ((to - from) / (NANOS_PER_SEC as int)) as nat
    } else {
        0
    }
}

/// `level` after `secs` whole seconds of draining at `leak_rate`, clamped at zero.
pub open spec fn drained_level(level: nat, leak_rate: nat, secs: nat) -> nat {
    if level > leak_rate * secs {
        (level - leak_rate * secs) as nat
    } else {
        0
    }
}

/// A bucket just created: empty, and last drained at time zero.
pub open spec fn fresh_bucket(capacity: nat, leak_rate: nat) -> BucketState {
    BucketState { capacity, leak_rate, level: 0, last_update: 0 }
}

impl BucketState {
    /// The level never exceeds the capacity.
    pub open spec fn within_capacity(self) -> bool {
        self.level <= self.capacity
    }

    /// The leak step at time `now`: when at least one whole second has passed
    /// since the last drain, drain for those seconds and restart the window at
    /// `now`; otherwise nothing changes.
    pub open spec fn leak(self, now: nat) -> BucketState {
        let secs = whole_secs_between(self.last_update, now);
        if secs > 0 {
            BucketState {
                level: drained_level(self.level, self.leak_rate, secs),
                last_update: now,
                ..self
            }
        } else {
            self
        }
    }

    /// Leak, then admit the event if there is room for one more unit.
    pub open spec fn add_event(self, now: nat) -> (BucketState, bool) {
        let s = self.leak(now);
        if s.level < s.capacity {
            (BucketState { level: s.level + 1, ..s }, true)
        } else {
            (s, false)
        }
    }

    /// Leak, then report the room left, clamped at zero.
    pub open spec fn remaining_capacity(self, now: nat) -> (BucketState, nat) {
        let s = self.leak(now);
        (s, if s.capacity > s.level { (s.capacity - s.level) as nat } else { 0 })
    }

    /// The state after one call.
    pub open spec fn apply(self, call: Call) -> BucketState {
        match call {
            Call::AddEvent(now) => self.add_event(now).0,
            Call::RemainingCapacity(now) => self.remaining_capacity(now).0,
        }
    }

    /// The state after a sequence of calls, made in order.
    pub open spec fn run(self, calls: Seq<Call>) -> BucketState
        decreases calls.len(),
    {
        if calls.len() == 0 {
            self
        } else {
            self.run(calls.drop_last()).apply(calls.last())
        }
    }

    /// The results of `n` calls of `add_event`, all at time `now`, and the
    /// state they leave.
    pub open spec fn add_events(self, now: nat, n: nat) -> (BucketState, Seq<bool>)
        decreases n,
    {
        if n == 0 {
            (self, Seq::empty())
        } else {
            let (s, results) = self.add_events(now, (n - 1) as nat);
            let (t, admitted) = s.add_event(now);
            (t, results.push(admitted))
        }
    }
}

} // verus!
