//! Laws of the bridge, stated over the answers of `FringeFut::poll`,
//! `FringeFut::dispose`, `poll_round`, `resume_round` and `run_body`.
use vstd::prelude::*;
use crate::bridge::{dispose_outcome, phase_after_poll, poll_outcome, AbnormalExit, DisposeReport, Phase};
use crate::protocol::{Async, Step, WaitCommand};
use crate::thunk::{entry_step, resolution, round_after_resume, AwaitRound};

verus! {

/// What a poll answers once the body has returned `res`.
pub open spec fn answer_of<T, E>(res: Result<T, E>) -> Result<Result<Async<T>, E>, AbnormalExit> {
    match res {
        Ok(v) => Ok(Ok(Async::Ready(v))),
        Err(e) => Ok(Err(e)),
    }
}

/// The step result that a continuation hands back on a resume with
/// `Continue`, for a body that awaits one sub-operation and then returns
/// `finish(o)`, `o` being the await's outcome, when the sub-operation's poll
/// on this resume answers `p`. On the first resume the body enters through
/// `run_body`; on each later one the pending await was resumed with
/// `Continue` and polls again.
pub open spec fn single_await_step<T, E, I, X>(
    p: Result<Async<I>, X>,
    finish: spec_fn(Result<I, X>) -> Result<T, E>,
) -> Option<Step<T, E>> {
    match resolution(p) {
        Some(o) => entry_step(WaitCommand::Continue, finish(o)),
        None => Some(Async::NotReady),
    }
}

/// An await driven by resumes that all bring `Continue`, whose
/// sub-operation answers its polls with `polls` in order, built from
/// `poll_round` and `resume_round`: the await's result (`None` if `polls`
/// runs out first) and the number of times it suspended.
pub open spec fn await_run<I, X>(polls: Seq<Result<Async<I>, X>>) -> (Option<Result<I, X>>, nat)
    decreases polls.len(),
{
    if polls.len() == 0 {
        (None, 0)
    } else {
        match resolution(polls[0]) {
            Some(o) => (Some(o), 0),
            None => match round_after_resume(WaitCommand::Continue) {
                AwaitRound::Repoll => {
                    let rest = await_run(polls.drop_first());
                    (rest.0, rest.1 + 1)
                },
                AwaitRound::Unwind => (None, 1),
            },
        }
    }
}

/// An await on a sub-operation that is pending on its first `k` polls and
/// resolved on poll `k + 1` suspends exactly `k` times and returns the
/// outcome of that last poll; one resolved at once returns without
/// suspending.
pub proof fn law_await_suspends_once_per_pending_poll<I, X>(polls: Seq<Result<Async<I>, X>>, k: nat)
    requires
        polls.len() == k + 1,
        forall|j: int| 0 <= j < k ==> resolution(#[trigger] polls[j]) is None,
        resolution(polls[k as int]) is Some,
    ensures
        await_run(polls) == (resolution(polls[k as int]), k),
    decreases k,
{
    if k > 0 {
        let rest = polls.drop_first();
        assert forall|j: int| 0 <= j < (k - 1) as nat implies resolution(#[trigger] rest[j]) is None by {
            assert(rest[j] == polls[j + 1]);
        }
        assert(rest[(k - 1) as int] == polls[k as int]);
        law_await_suspends_once_per_pending_poll(rest, (k - 1) as nat);
        assert(resolution(polls[0]) is None);
    }
}

/// A body that never awaits: the first poll answers with the body's own
/// outcome, and the bridge is then completed.
pub proof fn law_body_without_await<T, E>(res: Result<T, E>)
    ensures
        poll_outcome(entry_step(WaitCommand::Continue, res)) == answer_of(res),
        phase_after_poll(entry_step(WaitCommand::Continue, res)) == Phase::Completed,
{
}

/// A body that awaits one sub-operation, pending on its first `k` polls and
/// resolved on poll `k + 1` (`polls` holds the sub-operation's answers in
/// order): the first `k` polls of the bridge answer `NotReady` and leave it
/// suspended, and poll `k + 1` answers with the body's outcome and
/// completes it.
pub proof fn law_single_await<T, E, I, X>(
    polls: Seq<Result<Async<I>, X>>,
    k: nat,
    finish: spec_fn(Result<I, X>) -> Result<T, E>,
)
    requires
        polls.len() == k + 1,
        forall|j: int| 0 <= j < k ==> resolution(#[trigger] polls[j]) is None,
        resolution(polls[k as int]) is Some,
    ensures
        round_after_resume(WaitCommand::Continue) == AwaitRound::Repoll,
        forall|j: int|
            0 <= j < k ==> poll_outcome(#[trigger] single_await_step(polls[j], finish)) == Ok::<
                Result<Async<T>, E>,
                AbnormalExit,
            >(Ok(Async::NotReady)) && phase_after_poll(single_await_step(polls[j], finish))
                == Phase::Suspended,
        poll_outcome(single_await_step(polls[k as int], finish)) == answer_of(
            finish(resolution(polls[k as int])->Some_0),
        ),
        phase_after_poll(single_await_step(polls[k as int], finish)) == Phase::Completed,
{
}

/// Disposing of a body suspended in an await: the resume with `Terminate`
/// makes the await unwind, so that what the body owns is released on its
/// own stack. A continuation that then ends is reported as unwound, and a
/// fault raised while unwinding is reported, never raised.
pub proof fn law_dispose_suspended_body<T, E, I, X>(fault: String)
    ensures
        round_after_resume(WaitCommand::Terminate) == AwaitRound::Unwind,
        dispose_outcome::<T, E>(Ok(None)) == DisposeReport::Unwound,
        !dispose_outcome::<T, E>(Ok(None)).is_warning_spec(),
        dispose_outcome::<T, E>(Err(fault)) == DisposeReport::TerminationFault(fault),
        dispose_outcome::<T, E>(Err(fault)).is_warning_spec(),
{
}

/// A body that ignores `Terminate` and hands back another step result (it
/// awaits again, or completes): disposal reports a leak warning.
pub proof fn law_termination_ignored<T, E>(s: Step<T, E>)
    ensures
        dispose_outcome(Ok(Some(s))) == DisposeReport::TerminationIgnored,
        dispose_outcome(Ok(Some(s))).is_warning_spec(),
{
}

} // verus!
