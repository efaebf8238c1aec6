use vstd::prelude::*;

use crate::config::{LaneConfig, QueueBuilder};
use crate::job::{Priority, PRIORITY_COUNT};
use crate::ledger::{Admission, LedgerView, Step};
use crate::outcome::OutcomeView;
use crate::state::StateView;

verus! {

/// Each priority has a lane of its own: the lane positions are distinct and
/// lie among the queue's lanes.
pub proof fn lemma_lanes_are_distinct(p: Priority, q: Priority)
    ensures
        0 <= p.lane() < PRIORITY_COUNT,
        p != q ==> p.lane() != q.lane(),
{
}

/// Configuring one priority's lane sets that lane's budget and leaves every
/// other lane's budget as it was.
pub proof fn lemma_lane_sets_only_its_own(b: QueueBuilder, p: Priority, c: LaneConfig, q: Priority)
    ensures
        b.lanes().update(p.lane(), c)[q.lane()] == (if p == q {
            c
        } else {
            b.lane_of(q)
        }),
{
    b.lemma_lane_count();
}

/// A push of a key that completed is answered with that key's output, and
/// changes nothing: the work is not run again, however often it is pushed.
pub proof fn lemma_completed_key_is_cached<W>(
    v: LedgerView<W>,
    key: Seq<char>,
    output: Seq<char>,
    waiter: W,
)
    requires
        v.states.get(key) == Some(StateView::Completed { output }),
    ensures
        v.decide(key) == (Admission::Cached { output }),
        v.claim(key, waiter) == v,
{
}

/// Once a push claims a key, later pushes of the key join that job instead
/// of claiming it again, also after a worker has started it; and every
/// caller of the key, the claiming one first, is among the key's waiters in
/// the order they came.
pub proof fn lemma_claim_is_exclusive<W>(v: LedgerView<W>, key: Seq<char>, first: W, second: W)
    requires
        v.decide(key) is Claimed,
    ensures
        v.claim(key, first).decide(key) is Joined,
        v.claim(key, first).begin(key).decide(key) is Joined,
        v.claim(key, first).claim(key, second).decide(key) is Joined,
        v.claim(key, first).claim(key, second).waiting(key) == v.waiting(key).push(first).push(
            second,
        ),
        v.claim(key, first).claim(key, second).begin(key).waiting(key) == v.waiting(key).push(
            first,
        ).push(second),
{
    let v1 = v.claim(key, first);
    assert(v1.states.get(key) == Some(StateView::Pending));
    let v2 = v1.claim(key, second);
    assert(v2.states.get(key) == Some(StateView::Pending));
}

/// A push of a key whose job is queued or running leaves the key's state as
/// it was; only the list of waiters grows.
pub proof fn lemma_joining_keeps_the_state<W>(v: LedgerView<W>, key: Seq<char>, waiter: W)
    requires
        v.states.contains_key(key),
        v.states[key].in_flight(),
    ensures
        v.decide(key) is Joined,
        v.claim(key, waiter).states == v.states,
        v.claim(key, waiter).waiting(key) == v.waiting(key).push(waiter),
{
}

/// When a key's job ends, how it ended is what the key records, no caller
/// is left waiting on it, and the next push of the key is answered by it:
/// from cache if the job completed, by a fresh claim if it failed or
/// panicked.
pub proof fn lemma_finish_records_the_outcome<W>(
    v: LedgerView<W>,
    key: Seq<char>,
    reported: Option<OutcomeView>,
    waiter: W,
)
    ensures
        v.finish(key, reported).states.get(key) == Some(StateView::ended(reported)),
        v.finish(key, reported).waiting(key) == Seq::<W>::empty(),
        match reported {
            Some(OutcomeView::Completed { output }) => v.finish(key, reported).decide(key) == (
            Admission::Cached { output }) && v.finish(key, reported).claim(key, waiter) == v.finish(
                key,
                reported,
            ),
            _ => v.finish(key, reported).decide(key) is Claimed,
        },
{
}

/// A panic is recorded apart from every ending a job's work can report: no
/// outcome, whether the work returned an output or an error of any text,
/// records the state a panic records.
pub proof fn lemma_panic_is_recorded_apart(outcome: OutcomeView)
    ensures
        StateView::ended(None) is Panicked,
        StateView::ended(Some(outcome)) != StateView::ended(None),
{
}

/// A key whose job the lane refused records the refusal, lets go of the
/// callers that joined it, and can be pushed again.
pub proof fn lemma_refused_key_is_retryable<W>(v: LedgerView<W>, key: Seq<char>, reason: Seq<char>)
    ensures
        v.fail_send(key, reason).states.get(key) == Some(StateView::Failed { reason }),
        v.fail_send(key, reason).decide(key) is Claimed,
        v.fail_send(key, reason).waiting(key) == Seq::<W>::empty(),
{
}

/// Abandoning a claim leaves no trace: a key the table had not seen is
/// unseen again, and a released key can be claimed by the next push.
pub proof fn lemma_release_undoes_a_claim<W>(v: LedgerView<W>, key: Seq<char>, waiter: W)
    ensures
        v.release(key).decide(key) is Claimed,
        v.release(key).waiting(key) == Seq::<W>::empty(),
        !v.states.contains_key(key) && !v.waiters.contains_key(key) ==> v.claim(key, waiter).release(
            key,
        ) == v,
{
    if !v.states.contains_key(key) && !v.waiters.contains_key(key) {
        let r = v.claim(key, waiter).release(key);
        assert(r.states =~= v.states);
        assert(r.waiters =~= v.waiters);
    }
}

/// Every step on one key leaves every other key's state and waiters as they
/// were.
pub proof fn lemma_steps_touch_only_their_key<W>(
    v: LedgerView<W>,
    key: Seq<char>,
    other: Seq<char>,
    waiter: W,
    reason: Seq<char>,
    reported: Option<OutcomeView>,
)
    requires
        key != other,
    ensures
        v.claim(key, waiter).states.get(other) == v.states.get(other),
        v.claim(key, waiter).waiting(other) == v.waiting(other),
        v.fail_send(key, reason).states.get(other) == v.states.get(other),
        v.fail_send(key, reason).waiting(other) == v.waiting(other),
        v.begin(key).states.get(other) == v.states.get(other),
        v.begin(key).waiting(other) == v.waiting(other),
        v.finish(key, reported).states.get(other) == v.states.get(other),
        v.finish(key, reported).waiting(other) == v.waiting(other),
        v.release(key).states.get(other) == v.states.get(other),
        v.release(key).waiting(other) == v.waiting(other),
{
}

/// Keys are never forgotten except by abandoning a claim: every other step
/// keeps every key the table has recorded, and records the key it acts on.
pub proof fn lemma_recorded_keys_are_kept<W>(
    v: LedgerView<W>,
    key: Seq<char>,
    other: Seq<char>,
    waiter: W,
    reason: Seq<char>,
    reported: Option<OutcomeView>,
)
    requires
        v.states.contains_key(other),
    ensures
        v.claim(key, waiter).states.contains_key(other),
        v.fail_send(key, reason).states.contains_key(other),
        v.begin(key).states.contains_key(other),
        v.finish(key, reported).states.contains_key(other),
        v.claim(key, waiter).states.contains_key(key),
        v.fail_send(key, reason).states.contains_key(key),
        v.begin(key).states.contains_key(key),
        v.finish(key, reported).states.contains_key(key),
{
}

/// A completed key stays completed, with the same output, through every
/// later run of steps that the queue's protocol allows, and a push of it at
/// the end is answered from cache: no later step re-runs or rewrites it.
pub proof fn lemma_completed_key_stays_completed<W>(
    v: LedgerView<W>,
    key: Seq<char>,
    output: Seq<char>,
    steps: Seq<Step<W>>,
)
    requires
        v.states.get(key) == Some(StateView::Completed { output }),
        v.allows_run(steps),
    ensures
        v.run(steps).states.get(key) == Some(StateView::Completed { output }),
        v.run(steps).decide(key) == (Admission::Cached { output }),
    decreases steps.len(),
{
    if steps.len() > 0 {
        let next = v.apply(steps[0]);
        assert(next.states.get(key) == Some(StateView::Completed { output }));
        lemma_completed_key_stays_completed(next, key, output, steps.drop_first());
    }
}

/// Until a step ends a key's job, the key's waiters only grow: whoever was
/// waiting on it is still waiting, in the same place, after any run of
/// other steps.
pub proof fn lemma_waiters_only_grow<W>(v: LedgerView<W>, key: Seq<char>, steps: Seq<Step<W>>)
    requires
        forall|i: int| 0 <= i < steps.len() ==> !(#[trigger] steps[i]).ends(key),
    ensures
        v.waiting(key).is_prefix_of(v.run(steps).waiting(key)),
    decreases steps.len(),
{
    if steps.len() > 0 {
        let next = v.apply(steps[0]);
        assert(!steps[0].ends(key));
        assert(v.waiting(key).is_prefix_of(next.waiting(key)));
        assert forall|i: int| 0 <= i < steps.drop_first().len() implies !(
        #[trigger] steps.drop_first()[i]).ends(key) by {
            assert(steps.drop_first()[i] == steps[i + 1]);
        }
        lemma_waiters_only_grow(next, key, steps.drop_first());
        let last = next.run(steps.drop_first()).waiting(key);
        assert(v.waiting(key) =~= last.subrange(0, v.waiting(key).len() as int));
    }
}

/// The caller whose push claims a key stays registered, in its place, for
/// the job's outcome through any run of steps that does not end the job:
/// any number of joins, starts, and steps on other keys.
pub proof fn lemma_claimer_stays_registered<W>(
    v: LedgerView<W>,
    key: Seq<char>,
    waiter: W,
    steps: Seq<Step<W>>,
)
    requires
        v.decide(key) is Claimed,
        forall|i: int| 0 <= i < steps.len() ==> !(#[trigger] steps[i]).ends(key),
    ensures
        v.claim(key, waiter).run(steps).waiting(key).len() > v.waiting(key).len(),
        v.claim(key, waiter).run(steps).waiting(key)[v.waiting(key).len() as int] == waiter,
{
    let claimed = v.claim(key, waiter);
    assert(claimed.waiting(key) == v.waiting(key).push(waiter));
    lemma_waiters_only_grow(claimed, key, steps);
    let last = claimed.run(steps).waiting(key);
    assert(last[v.waiting(key).len() as int] == claimed.waiting(key)[v.waiting(key).len() as int]);
}

/// A key has at most one job in flight: while a job for it is queued or
/// running, no run of steps that does not end that job takes it out of
/// flight, so every push of the key in the meantime joins it.
pub proof fn lemma_one_job_in_flight<W>(v: LedgerView<W>, key: Seq<char>, steps: Seq<Step<W>>)
    requires
        v.states.contains_key(key),
        v.states[key].in_flight(),
        forall|i: int| 0 <= i < steps.len() ==> !(#[trigger] steps[i]).ends(key),
    ensures
        v.run(steps).states.contains_key(key),
        v.run(steps).states[key].in_flight(),
        v.run(steps).decide(key) is Joined,
    decreases steps.len(),
{
    if steps.len() > 0 {
        let next = v.apply(steps[0]);
        assert(!steps[0].ends(key));
        assert(next.states.contains_key(key) && next.states[key].in_flight());
        assert forall|i: int| 0 <= i < steps.drop_first().len() implies !(
        #[trigger] steps.drop_first()[i]).ends(key) by {
            assert(steps.drop_first()[i] == steps[i + 1]);
        }
        lemma_one_job_in_flight(next, key, steps.drop_first());
    }
}

/// How a push of a key is answered, by what the key holds: a completed key
/// gives back its output and changes nothing; a pending or running key is
/// joined, its state kept and the caller added after its earlier waiters;
/// any other key (unseen, failed, or panicked) is claimed: it becomes
/// pending, whatever it held before, and the caller is added after its
/// earlier waiters. No other key is touched.
pub proof fn lemma_claim_by_what_the_key_holds<W>(
    v: LedgerView<W>,
    key: Seq<char>,
    waiter: W,
    other: Seq<char>,
)
    ensures
        match v.states.get(key) {
            Some(StateView::Completed { output }) => v.decide(key) == (Admission::Cached {
                output,
            }) && v.claim(key, waiter) == v,
            Some(StateView::Pending) => v.decide(key) is Joined && v.claim(key, waiter).states
                == v.states,
            Some(StateView::Processing) => v.decide(key) is Joined && v.claim(key, waiter).states
                == v.states,
            _ => v.decide(key) is Claimed && v.claim(key, waiter).states.get(key) == Some(
                StateView::Pending,
            ),
        },
        v.decide(key) is Claimed ==> v.claim(key, waiter).states.get(key) == Some(
            StateView::Pending,
        ),
        !(v.decide(key) is Cached) ==> v.claim(key, waiter).waiters.get(key) == Some(
            v.waiting(key).push(waiter),
        ),
        other != key ==> v.claim(key, waiter).states.get(other) == v.states.get(other)
            && v.claim(key, waiter).waiters.get(other) == v.waiters.get(other),
{
}

/// Starting a job marks its key running, whatever waiters it has, and
/// changes nothing else.
pub proof fn lemma_begin_marks_the_key_running<W>(v: LedgerView<W>, key: Seq<char>, other: Seq<char>)
    ensures
        v.begin(key).states.get(key) == Some(StateView::Processing),
        v.begin(key).waiters == v.waiters,
        other != key ==> v.begin(key).states.get(other) == v.states.get(other),
{
}

/// When a job ends, its key records exactly how: the output the work
/// returned, the text of the error it returned, or a panic; and no caller is
/// left waiting on it.
pub proof fn lemma_finish_records_exactly_how_the_job_ended<W>(
    v: LedgerView<W>,
    key: Seq<char>,
    output: Seq<char>,
    reason: Seq<char>,
    reported: Option<OutcomeView>,
)
    ensures
        v.finish(key, Some(OutcomeView::Completed { output })).states.get(key) == Some(
            StateView::Completed { output },
        ),
        v.finish(key, Some(OutcomeView::Failed { reason })).states.get(key) == Some(
            StateView::Failed { reason },
        ),
        v.finish(key, None).states.get(key) == Some(StateView::Panicked),
        !v.finish(key, reported).waiters.contains_key(key),
{
}

/// A job's outcome is recorded as the state of the same kind with the same
/// text, and a panic as `Panicked`.
pub proof fn lemma_outcomes_are_recorded_as_they_are(output: Seq<char>, reason: Seq<char>)
    ensures
        (OutcomeView::Completed { output }).recorded() == (StateView::Completed { output }),
        (OutcomeView::Failed { reason }).recorded() == (StateView::Failed { reason }),
        StateView::ended(Some(OutcomeView::Completed { output })) == (StateView::Completed {
            output,
        }),
        StateView::ended(Some(OutcomeView::Failed { reason })) == (StateView::Failed { reason }),
        StateView::ended(None) == StateView::Panicked,
{
}

/// Releasing a claim forgets the key, whatever its waiters, as if it had
/// never been pushed, and drops every caller waiting on it.
pub proof fn lemma_release_forgets_the_key<W>(v: LedgerView<W>, key: Seq<char>, waiter: W)
    ensures
        !v.release(key).states.contains_key(key),
        !v.release(key).waiters.contains_key(key),
        v.release(key).states.get(key) is None,
        v.release(key).decide(key) is Claimed,
        v.release(key).claim(key, waiter).states.get(key) == Some(StateView::Pending),
{
}

/// A job the lane refused records the refusal's text as the key's failure,
/// and no caller is left waiting on it.
pub proof fn lemma_refusal_records_its_text<W>(v: LedgerView<W>, key: Seq<char>, reason: Seq<char>)
    ensures
        v.fail_send(key, reason).states.get(key) == Some(StateView::Failed { reason }),
        !v.fail_send(key, reason).waiters.contains_key(key),
        v.fail_send(key, reason).decide(key) is Claimed,
{
}

} // verus!
