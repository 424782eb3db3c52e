//! The bounded wait for outstanding batches when the exporter shuts down.

use vstd::prelude::*;

verus! {

/// The longest a shutdown waits where no other time is given: five
/// seconds, in nanoseconds.
pub const DEFAULT_SHUTDOWN_NANOS: u128 = 5_000_000_000;

/// What a shutdown sees when it looks: the time since it began, in
/// nanoseconds, and the number of batches still outstanding.
#[derive(Clone, Copy, Debug, PartialEq, Eq, Structural)]
pub struct Observation {
    pub elapsed_nanos: u128,
    pub pending: usize,
}

/// A shutdown goes on waiting while time is left and batches are
/// outstanding.
pub open spec fn waits(limit_nanos: u128, seen: Observation) -> bool {
    seen.elapsed_nanos < limit_nanos && seen.pending > 0
}

/// The number of observations at which a shutdown waits before the first
/// at which it returns: the place of that observation in `seen`, or the
/// length of `seen` where the shutdown waits at all of them.
pub open spec fn polls_before_return(limit_nanos: u128, seen: Seq<Observation>) -> nat
    decreases seen.len(),
{
    if seen.len() == 0 {
        0
    } else if waits(limit_nanos, seen[0]) {
        1 + polls_before_return(limit_nanos, seen.drop_first())
    } else {
        0
    }
}

/// Decides whether a shutdown that has lasted `elapsed_nanos` and sees
/// `pending` outstanding batches waits on.
pub fn keep_waiting(limit_nanos: u128, elapsed_nanos: u128, pending: usize) -> (wait: bool)
    ensures
        wait == waits(limit_nanos, Observation { elapsed_nanos, pending }),
{
    elapsed_nanos < limit_nanos && pending > 0
}

/// Walks through what a shutdown sees, look by look, and gives the number
/// of looks at which it waited.
pub fn count_polls(limit_nanos: u128, seen: &Vec<Observation>) -> (polls: usize)
    ensures
        polls == polls_before_return(limit_nanos, seen@),
{
    let mut polls: usize = 0;
    assert(seen@.subrange(0, seen@.len() as int) == seen@);
    while polls < seen.len() && keep_waiting(
        limit_nanos,
        seen[polls].elapsed_nanos,
        seen[polls].pending,
    )
        invariant
            polls <= seen.len(),
            polls_before_return(limit_nanos, seen@) == polls + polls_before_return(
                limit_nanos,
                seen@.subrange(polls as int, seen@.len() as int),
            ),
        decreases seen.len() - polls,
    {
        proof {
            let rest = seen@.subrange(polls as int, seen@.len() as int);
            assert(rest[0] == seen@[polls as int]);
            assert(rest.drop_first() == seen@.subrange(polls + 1, seen@.len() as int));
        }
        polls = polls + 1;
    }
    proof {
        let rest = seen@.subrange(polls as int, seen@.len() as int);
        if polls < seen.len() {
            assert(rest[0] == seen@[polls as int]);
        }
    }
    polls
}

/// A shutdown waits at every observation before the one at which it
/// returns, and at that one it does not wait.
pub proof fn polls_are_waits(limit_nanos: u128, seen: Seq<Observation>)
    ensures
        polls_before_return(limit_nanos, seen) <= seen.len(),
        forall|i: int|
            0 <= i < polls_before_return(limit_nanos, seen) ==> waits(limit_nanos, #[trigger] seen[i]),
        polls_before_return(limit_nanos, seen) < seen.len() ==> !waits(
            limit_nanos,
            seen[polls_before_return(limit_nanos, seen) as int],
        ),
    decreases seen.len(),
{
    if seen.len() > 0 && waits(limit_nanos, seen[0]) {
        let rest = seen.drop_first();
        polls_are_waits(limit_nanos, rest);
        assert forall|i: int| 0 <= i < polls_before_return(limit_nanos, seen) implies waits(
            limit_nanos,
            #[trigger] seen[i],
        ) by {
            if i > 0 {
                assert(seen[i] == rest[i - 1]);
            }
        }
        if polls_before_return(limit_nanos, seen) < seen.len() {
            assert(seen[polls_before_return(limit_nanos, seen) as int] == rest[polls_before_return(
                limit_nanos,
                rest,
            ) as int]);
        }
    }
}

/// Where the count of outstanding batches is seen at zero while time is
/// left, the shutdown returns no later than at that observation, and
/// before its time is up: at the observation at which it returns, time is
/// left and nothing is outstanding.
pub proof fn shutdown_returns_once_nothing_is_pending(
    limit_nanos: u128,
    seen: Seq<Observation>,
    k: int,
)
    requires
        0 <= k < seen.len(),
        seen[k].pending == 0,
        forall|i: int| 0 <= i <= k ==> (#[trigger] seen[i]).elapsed_nanos < limit_nanos,
    ensures
        polls_before_return(limit_nanos, seen) <= k,
        seen[polls_before_return(limit_nanos, seen) as int].pending == 0,
        seen[polls_before_return(limit_nanos, seen) as int].elapsed_nanos < limit_nanos,
{
    polls_are_waits(limit_nanos, seen);
    let r = polls_before_return(limit_nanos, seen);
    if r > k {
        assert(waits(limit_nanos, seen[k]));
    }
}

/// Where batches stay outstanding for good, the shutdown returns at the
/// first observation at which its time is up: at every observation before
/// it time was left, and no observation after it is waited for.
pub proof fn shutdown_returns_when_time_is_up(limit_nanos: u128, seen: Seq<Observation>, k: int)
    requires
        0 <= k < seen.len(),
        forall|i: int| 0 <= i < seen.len() ==> (#[trigger] seen[i]).pending > 0,
        seen[k].elapsed_nanos >= limit_nanos,
        forall|i: int| 0 <= i < k ==> (#[trigger] seen[i]).elapsed_nanos < limit_nanos,
    ensures
        polls_before_return(limit_nanos, seen) == k,
{
    polls_are_waits(limit_nanos, seen);
    let r = polls_before_return(limit_nanos, seen);
    if r > k {
        assert(waits(limit_nanos, seen[k]));
    }
    if r < k {
        assert(!waits(limit_nanos, seen[r as int]));
    }
}

} // verus!
