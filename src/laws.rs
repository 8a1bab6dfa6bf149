//! Properties of buckets over any sequence of calls.

use vstd::prelude::*;

use crate::model::{
    drained_level, fresh_bucket, whole_secs_between, BucketState, Call, NANOS_PER_SEC,
};

verus! {

/// One call keeps the capacity and the leak rate, and keeps the level within
/// the capacity.
proof fn lemma_apply_keeps_bounds(s: BucketState, call: Call)
    requires
        s.within_capacity(),
    ensures
        s.apply(call).within_capacity(),
        s.apply(call).capacity == s.capacity,
        s.apply(call).leak_rate == s.leak_rate,
{
}

/// Any sequence of calls keeps the capacity and the leak rate.
pub proof fn lemma_run_keeps_parameters(s: BucketState, calls: Seq<Call>)
    ensures
        s.run(calls).capacity == s.capacity,
        s.run(calls).leak_rate == s.leak_rate,
    decreases calls.len(),
{
    if calls.len() > 0 {
        lemma_run_keeps_parameters(s, calls.drop_last());
    }
}

/// Any sequence of calls keeps the capacity and the leak rate, and keeps the
/// level within the capacity.
pub proof fn lemma_run_keeps_bounds(s: BucketState, calls: Seq<Call>)
    requires
        s.within_capacity(),
    ensures
        s.run(calls).within_capacity(),
        s.run(calls).capacity == s.capacity,
        s.run(calls).leak_rate == s.leak_rate,
    decreases calls.len(),
{
    if calls.len() > 0 {
        lemma_run_keeps_bounds(s, calls.drop_last());
        lemma_apply_keeps_bounds(s.run(calls.drop_last()), calls.last());
    }
}

/// In every state reachable from a new bucket, the level lies between zero
/// and the capacity.
pub proof fn lemma_reachable_level_within_capacity(
    capacity: nat,
    leak_rate: nat,
    calls: Seq<Call>,
)
    ensures
        0 <= fresh_bucket(capacity, leak_rate).run(calls).level <= capacity,
{
    lemma_run_keeps_bounds(fresh_bucket(capacity, leak_rate), calls);
}

/// The time of the last drain never moves backward: after a longer prefix of
/// the same calls it is at least what it was after a shorter one.
pub proof fn lemma_last_update_never_decreases(s: BucketState, calls: Seq<Call>, i: int, j: int)
    requires
        0 <= i <= j <= calls.len(),
    ensures
        s.run(calls.take(i)).last_update <= s.run(calls.take(j)).last_update,
    decreases j - i,
{
    if i < j {
        lemma_last_update_never_decreases(s, calls, i, j - 1);
        assert(calls.take(j).drop_last() =~= calls.take(j - 1));
    }
}

/// From an empty bucket, with no whole second passing, exactly `capacity`
/// consecutive events are admitted and the one after them is rejected.
pub proof fn lemma_admits_exactly_capacity(s: BucketState, now: nat)
    requires
        s.level == 0,
        whole_secs_between(s.last_update, now) == 0,
    ensures
        s.add_events(now, s.capacity + 1).1 =~= Seq::new(
            s.capacity + 1,
            |i: int| i < s.capacity,
        ),
{
    lemma_admits_while_room(s, now, s.capacity);
}

/// The first `n <= capacity` events into an empty bucket, with no whole second
/// passing, are all admitted and leave the level at `n`.
proof fn lemma_admits_while_room(s: BucketState, now: nat, n: nat)
    requires
        s.level == 0,
        whole_secs_between(s.last_update, now) == 0,
        n <= s.capacity,
    ensures
        s.add_events(now, n).0 == (BucketState { level: n, ..s }),
        s.add_events(now, n).1 =~= Seq::new(n, |i: int| true),
    decreases n,
{
    if n > 0 {
        lemma_admits_while_room(s, now, (n - 1) as nat);
    }
}

/// `t` whole seconds (and any fraction of a further second) after the last
/// drain, the leak step takes the level `L` to `max(0, L - leak_rate * t)`,
/// and the room reported then is what that level leaves.
pub proof fn lemma_decay(s: BucketState, t: nat, fraction: nat)
    requires
        s.within_capacity(),
        fraction < NANOS_PER_SEC,
    ensures
        ({
            let now = (s.last_update + t * NANOS_PER_SEC + fraction) as nat;
            let level = if s.level >= s.leak_rate * t {
                (s.level - s.leak_rate * t) as nat
            } else {
                0
            };
            &&& s.leak(now).level == level
            &&& s.remaining_capacity(now).1 == s.capacity - level
        }),
{
    let now = (s.last_update + t * NANOS_PER_SEC + fraction) as nat;
    assert((t * NANOS_PER_SEC + fraction) / (NANOS_PER_SEC as int) == t) by (nonlinear_arith)
        requires
            fraction < NANOS_PER_SEC,
    ;
    if t == 0 {
        assert(s.leak_rate * t == 0) by (nonlinear_arith)
            requires
                t == 0,
        ;
    }
}

/// With no time passing between them, a second `remaining_capacity` returns
/// what the first did and leaves the state, its level included, as it was.
pub proof fn lemma_remaining_capacity_idempotent(s: BucketState, now: nat)
    ensures
        ({
            let (first_state, first) = s.remaining_capacity(now);
            let (second_state, second) = first_state.remaining_capacity(now);
            &&& second == first
            &&& second_state == first_state
            &&& second_state.level == first_state.level
        }),
{
}

/// A bucket of capacity zero rejects every event and reports no room,
/// whatever calls came before and whenever it is asked.
pub proof fn lemma_zero_capacity_rejects(s: BucketState, calls: Seq<Call>, now: nat)
    requires
        s.capacity == 0,
    ensures
        !s.run(calls).add_event(now).1,
        s.run(calls).remaining_capacity(now).1 == 0,
    decreases calls.len(),
{
    if calls.len() > 0 {
        lemma_zero_capacity_rejects(s, calls.drop_last(), now);
        lemma_run_keeps_parameters(s, calls.drop_last());
    }
}

/// A full bucket that never drains stays full: after any calls, at any
/// times, its level is still the capacity and it rejects every event.
pub proof fn lemma_full_never_drains(s: BucketState, calls: Seq<Call>, now: nat)
    requires
        s.leak_rate == 0,
        s.level == s.capacity,
    ensures
        s.run(calls).level == s.capacity,
        !s.run(calls).add_event(now).1,
        s.run(calls).remaining_capacity(now).1 == 0,
    decreases calls.len(),
{
    if calls.len() > 0 {
        lemma_full_never_drains(s, calls.drop_last(), now);
        lemma_run_keeps_parameters(s, calls.drop_last());
    }
}

} // verus!
