//! The executable bucket.

use std::time::Instant;
use vstd::prelude::*;

use crate::model::{fresh_bucket, BucketState, Call, NANOS_PER_SEC};

verus! {

/// A leaky-bucket rate limiter: events fill it one unit each, and it drains
/// `leak_rate` units for every whole second that passes.
pub struct LeakyBucket {
    capacity: u64,
    leak_rate: u64,
    current_level: u64,
    /// The instant the bucket was created; all times are measured from it.
    created: Instant,
    /// Time of the most recent drain, in nanoseconds since `created`.
    last_update: u128,
}

impl View for LeakyBucket {
    type V = BucketState;

    closed spec fn view(&self) -> BucketState {
        BucketState {
            capacity: self.capacity as nat,
            leak_rate: self.leak_rate as nat,
            level: self.current_level as nat,
            last_update: self.last_update as nat,
        }
    }
}

impl LeakyBucket {
    #[verifier::type_invariant]
    spec fn level_within_capacity(self) -> bool {
        self.current_level <= self.capacity
    }

    /// An empty bucket whose clock starts now.
    pub fn new(capacity: u64, leak_rate: u64) -> (b: Self)
        ensures
            b@ == fresh_bucket(capacity as nat, leak_rate as nat),
    {
        LeakyBucket {
            capacity,
            leak_rate,
            current_level: 0,
            created: Instant::now(),
            last_update: 0,
        }
    }

    /// Nanoseconds since the bucket was created, read from the monotonic
    /// clock: the time that `add_event` and `remaining_capacity` act at.
    pub fn elapsed_nanos(&self) -> u128 {
        self.created.elapsed().as_nanos()
    }

    /// The leak step at time `now` (nanoseconds since creation).
    fn leak(&mut self, now: u128)
        ensures
            final(self)@ == old(self)@.leak(now as nat),
    {
        proof {
            use_type_invariant(&*self);
        }
        let secs: u128 = if now > self.last_update {
            (now - self.last_update) / NANOS_PER_SEC
        } else {
            0
        };
        if secs > 0 {
            let drained: u128 = match (self.leak_rate as u128).checked_mul(secs) {
                Some(d) => d,
                None => u128::MAX,
            };
            if drained >= self.current_level as u128 {
                self.current_level = 0;
            } else {
                self.current_level = self.current_level - drained as u64;
            }
            self.last_update = now;
        }
    }

    /// Admits one event at time `now` (nanoseconds since creation): drains
    /// for the whole seconds since the last drain, then takes one unit if the
    /// bucket is not full. Returns whether the event was admitted.
    pub fn add_event_at(&mut self, now: u128) -> (admitted: bool)
        ensures
            (final(self)@, admitted) == old(self)@.add_event(now as nat),
            final(self)@ == old(self)@.apply(Call::AddEvent(now as nat)),
            final(self)@.within_capacity(),
            final(self)@.last_update >= old(self)@.last_update,
    {
        self.leak(now);
        proof {
            use_type_invariant(&*self);
        }
        if self.current_level < self.capacity {
            self.current_level = self.current_level + 1;
            true
        } else {
            false
        }
    }

    /// The room left at time `now` (nanoseconds since creation), after
    /// draining for the whole seconds since the last drain.
    pub fn remaining_capacity_at(&mut self, now: u128) -> (room: u64)
        ensures
            (final(self)@, room as nat) == old(self)@.remaining_capacity(now as nat),
            final(self)@ == old(self)@.apply(Call::RemainingCapacity(now as nat)),
            final(self)@.within_capacity(),
            final(self)@.last_update >= old(self)@.last_update,
    {
        self.leak(now);
        proof {
            use_type_invariant(&*self);
        }
        self.capacity.saturating_sub(self.current_level)
    }

    /// Admits one event now: `add_event_at` at the clock's current reading.
    pub fn add_event(&mut self) -> (admitted: bool)
        ensures
            exists|now: nat|
                (final(self)@, admitted) == #[trigger] old(self)@.add_event(now),
            final(self)@.within_capacity(),
            final(self)@.last_update >= old(self)@.last_update,
    {
        let now = self.elapsed_nanos();
        self.add_event_at(now)
    }

    /// The room left now: `remaining_capacity_at` at the clock's current
    /// reading. Like `add_event`, it may drain the bucket.
    pub fn remaining_capacity(&mut self) -> (room: u64)
        ensures
            exists|now: nat|
                (final(self)@, room as nat) == #[trigger] old(self)@.remaining_capacity(now),
            final(self)@.within_capacity(),
            final(self)@.last_update >= old(self)@.last_update,
    {
        let now = self.elapsed_nanos();
        self.remaining_capacity_at(now)
    }

    /// The bucket's capacity.
    pub fn capacity(&self) -> (c: u64)
        ensures
            c as nat == self@.capacity,
    {
        self.capacity
    }

    /// Units drained per whole second.
    pub fn leak_rate(&self) -> (r: u64)
        ensures
            r as nat == self@.leak_rate,
    {
        self.leak_rate
    }

    /// The fill level as of the last operation; reading it does not drain.
    pub fn current_level(&self) -> (l: u64)
        ensures
            l as nat == self@.level,
            self@.within_capacity(),
    {
        proof {
            use_type_invariant(self);
        }
        self.current_level
    }

    /// Time of the most recent drain, in nanoseconds since creation.
    pub fn last_update(&self) -> (t: u128)
        ensures
            t as nat == self@.last_update,
    {
        self.last_update
    }
}

} // verus!
