use vstd::prelude::*;
use crate::event::Event;

verus! {

/// An eligible event is not paused and its target instant has been
/// reached: `spec_should_run(now)` implies `pause_time` is absent and
/// `target_instant` is at or before `now`.
pub proof fn lemma_should_run_eligible(e: Event, now: u64)
    requires
        e.spec_should_run(now),
    ensures
        e.pause_time is None,
        e.target_instant <= now,
{
}

/// Pausing at `t1` and resuming at `t2` advances the target instant by
/// exactly the pause duration `t2 - t1`, and leaves the event unpaused,
/// with its repeat and expiration flags untouched.
pub proof fn lemma_pause_resume_advances_target(e: Event, t1: u64, t2: u64)
    requires
        e.pause_time is None,
        t1 <= t2,
        e.target_instant + (t2 - t1) <= u64::MAX,
    ensures
        e.paused(t1).resumed(t2).target_instant == e.target_instant + (t2 - t1),
        e.paused(t1).resumed(t2).pause_time is None,
        e.paused(t1).resumed(t2).repeat == e.repeat,
        e.paused(t1).resumed(t2).expired == e.expired,
{
}

/// The call counter of a repeat handler after `n` runs, as the contract
/// of `TaskHandler::run` steps it: each run below the limit increments
/// it and invokes the inner handler once; at the limit nothing runs.
pub open spec fn repeat_count_after(n: nat, limit: nat) -> nat
    decreases n,
{
    if n == 0 {
        0
    } else {
        let prev = repeat_count_after((n - 1) as nat, limit);
        if prev < limit {
            prev + 1
        } else {
            prev
        }
    }
}

/// Across any number of runs, a repeat handler that started at zero
/// invokes its inner handler exactly `limit` times: the call counter —
/// one count per inner invocation, by the contract of
/// `TaskHandler::run` — is `n` until the limit is reached and `limit`
/// ever after, however many further runs elapse.
pub proof fn lemma_repeat_invokes_inner_exactly_limit(n: nat, limit: nat)
    ensures
        repeat_count_after(n, limit) == if n <= limit {
            n
        } else {
            limit
        },
    decreases n,
{
    if n > 0 {
        lemma_repeat_invokes_inner_exactly_limit((n - 1) as nat, limit);
    }
}

} // verus!
