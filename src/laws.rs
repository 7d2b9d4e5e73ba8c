use vstd::prelude::*;

use crate::classify::{bucket_of, Bucket};
use crate::registry::{stats, Direction};

verus! {

/// `states` is the sequence of registries seen while the responses
/// `statuses[i]` were recorded one after another, the i-th in direction
/// `dirs[i]`.
pub open spec fn is_run(states: Seq<stats>, dirs: Seq<Direction>, statuses: Seq<i64>) -> bool {
    &&& states.len() == statuses.len() + 1
    &&& dirs.len() == statuses.len()
    &&& forall|i: int|
        0 <= i < statuses.len() ==> #[trigger] states[i].records(
            states[i + 1],
            dirs[i],
            statuses[i] as int,
        )
}

/// Recording a status of class `c` in direction `d` adds exactly one to that
/// accessor and leaves the seven others as they were, as long as the
/// counter is below `i64::MAX`.
pub proof fn record_counts_once(before: stats, after: stats, d: Direction, status: i64, c: Bucket)
    requires
        bucket_of(status as int) == Some(c),
        before.records(after, d, status as int),
        before.value(d, c) < i64::MAX,
    ensures
        after.reading(d, c) == before.reading(d, c) + 1,
        forall|e: Direction, b: Bucket|
            (e != d || b != c) ==> #[trigger] after.reading(e, b) == before.reading(e, b),
{
    assert(after.value(d, c) == before.value(d, c) + 1);
    assert forall|e: Direction, b: Bucket| (e != d || b != c) implies #[trigger] after.reading(e, b)
        == before.reading(e, b) by {
        assert(after.value(e, b) == before.value(e, b));
    }
}

/// Recording a status outside 200..=599, in either direction, leaves all
/// eight accessors as they were.
pub proof fn record_ignores_unclassified(before: stats, after: stats, d: Direction, status: i64)
    requires
        bucket_of(status as int) is None,
        before.records(after, d, status as int),
    ensures
        forall|e: Direction, b: Bucket| #[trigger] after.reading(e, b) == before.reading(e, b),
{
    assert forall|e: Direction, b: Bucket| #[trigger] after.reading(e, b) == before.reading(e, b) by {
        assert(after.value(e, b) == before.value(e, b));
    }
}

/// Reading an accessor twice with no recording in between gives the same
/// value both times.
pub proof fn reads_are_stable(s: stats, d: Direction, b: Bucket, first: i64, second: i64)
    requires
        first == s.reading(d, b),
        second == s.reading(d, b),
    ensures
        first == second,
{
}

/// A counter that no step of a run changes ends the run where it began.
proof fn lemma_prefix_keeps(states: Seq<stats>, e: Direction, b: Bucket, k: int)
    requires
        0 <= k < states.len(),
        forall|i: int| 0 <= i < k ==> #[trigger] states[i + 1].value(e, b) == states[i].value(e, b),
    ensures
        states[k].value(e, b) == states[0].value(e, b),
    decreases k,
{
    if k > 0 {
        lemma_prefix_keeps(states, e, b, k - 1);
        assert(states[(k - 1) + 1].value(e, b) == states[k - 1].value(e, b));
    }
}

/// Any number of recordings in direction `d` leaves every counter of the
/// other direction as it was.
pub proof fn direction_isolation(
    states: Seq<stats>,
    dirs: Seq<Direction>,
    statuses: Seq<i64>,
    d: Direction,
)
    requires
        is_run(states, dirs, statuses),
        forall|i: int| 0 <= i < dirs.len() ==> dirs[i] == d,
    ensures
        forall|e: Direction, b: Bucket|
            e != d ==> #[trigger] states.last().reading(e, b) == states[0].reading(e, b),
{
    assert forall|e: Direction, b: Bucket| e != d implies #[trigger] states.last().reading(e, b)
        == states[0].reading(e, b) by {
        assert forall|i: int| 0 <= i < statuses.len() implies #[trigger] states[i + 1].value(e, b)
            == states[i].value(e, b) by {
            assert(states[i].records(states[i + 1], dirs[i], statuses[i] as int));
        }
        lemma_prefix_keeps(states, e, b, statuses.len() as int);
    }
}

/// Any number of recordings, in either direction, of statuses of class `c`
/// leaves every counter of another class as it was.
pub proof fn bucket_isolation(
    states: Seq<stats>,
    dirs: Seq<Direction>,
    statuses: Seq<i64>,
    c: Bucket,
)
    requires
        is_run(states, dirs, statuses),
        forall|i: int| 0 <= i < statuses.len() ==> bucket_of(#[trigger] statuses[i] as int) == Some(c),
    ensures
        forall|e: Direction, b: Bucket|
            b != c ==> #[trigger] states.last().reading(e, b) == states[0].reading(e, b),
{
    assert forall|e: Direction, b: Bucket| b != c implies #[trigger] states.last().reading(e, b)
        == states[0].reading(e, b) by {
        assert forall|i: int| 0 <= i < statuses.len() implies #[trigger] states[i + 1].value(e, b)
            == states[i].value(e, b) by {
            assert(states[i].records(states[i + 1], dirs[i], statuses[i] as int));
        }
        lemma_prefix_keeps(states, e, b, statuses.len() as int);
    }
}

/// After k steps that each add one to a counter, it has grown by k.
proof fn lemma_prefix_adds(states: Seq<stats>, e: Direction, b: Bucket, k: int)
    requires
        0 <= k < states.len(),
        forall|i: int|
            0 <= i < k ==> #[trigger] states[i + 1].value(e, b) == states[i].value(e, b) + 1,
    ensures
        states[k].value(e, b) == states[0].value(e, b) + k,
    decreases k,
{
    if k > 0 {
        lemma_prefix_adds(states, e, b, k - 1);
        assert(states[(k - 1) + 1].value(e, b) == states[k - 1].value(e, b) + 1);
    }
}

/// No recording is lost: n recordings of statuses of class `c` in direction
/// `d` raise that accessor by exactly n, as long as the result stays within
/// `i64::MAX`.
pub proof fn records_accumulate(
    states: Seq<stats>,
    dirs: Seq<Direction>,
    statuses: Seq<i64>,
    d: Direction,
    c: Bucket,
)
    requires
        is_run(states, dirs, statuses),
        forall|i: int| 0 <= i < dirs.len() ==> dirs[i] == d,
        forall|i: int| 0 <= i < statuses.len() ==> bucket_of(#[trigger] statuses[i] as int) == Some(c),
        states[0].value(d, c) + statuses.len() <= i64::MAX,
    ensures
        states.last().reading(d, c) == states[0].reading(d, c) + statuses.len(),
{
    let n = statuses.len() as int;
    // Each step adds one: the counters stay below the bound on the way.
    assert forall|k: int| 0 <= k <= n implies #[trigger] states[k].value(d, c) == states[0].value(d, c)
        + k by {
        assert forall|i: int| 0 <= i < k implies #[trigger] states[i + 1].value(d, c)
            == states[i].value(d, c) + 1 by {
            lemma_step_adds(states, dirs, statuses, d, c, i);
        }
        lemma_prefix_adds(states, d, c, k);
    }
}

/// Step i of such a run adds one to the counter, given the counters before it.
proof fn lemma_step_adds(
    states: Seq<stats>,
    dirs: Seq<Direction>,
    statuses: Seq<i64>,
    d: Direction,
    c: Bucket,
    i: int,
)
    requires
        is_run(states, dirs, statuses),
        forall|j: int| 0 <= j < dirs.len() ==> dirs[j] == d,
        forall|j: int| 0 <= j < statuses.len() ==> bucket_of(#[trigger] statuses[j] as int) == Some(c),
        states[0].value(d, c) + statuses.len() <= i64::MAX,
        0 <= i < statuses.len(),
    ensures
        states[i + 1].value(d, c) == states[i].value(d, c) + 1,
    decreases i,
{
    if i > 0 {
        lemma_step_adds(states, dirs, statuses, d, c, i - 1);
        assert forall|j: int| 0 <= j < i implies #[trigger] states[j + 1].value(d, c)
            == states[j].value(d, c) + 1 by {
            lemma_step_adds(states, dirs, statuses, d, c, j);
        }
        lemma_prefix_adds(states, d, c, i);
    }
    assert(states[i].records(states[i + 1], dirs[i], statuses[i] as int));
    assert(bucket_of(statuses[i] as int) == Some(c));
}

} // verus!
