//! The suspension token handed to the body, and the entry of the body into
//! its continuation.
use vstd::prelude::*;
use crate::protocol::{Async, Step, WaitCommand};

verus! {

/// How an await goes on once its suspension has been resumed.
#[derive(Debug, Clone, Copy, PartialEq, Eq, Structural)]
pub enum AwaitRound {
    /// The continuation was resumed with `Continue`: poll the sub-operation
    /// again.
    Repoll,
    /// The continuation was resumed with `Terminate`: the body is to unwind
    /// and release what it owns, without polling the sub-operation again.
    Unwind,
}

/// The outcome of a sub-operation's poll, or `None` while it is pending.
pub open spec fn resolution<I, X>(p: Result<Async<I>, X>) -> Option<Result<I, X>> {
    match p {
        Ok(Async::NotReady) => None,
        Ok(Async::Ready(v)) => Some(Ok(v)),
        Err(e) => Some(Err(e)),
    }
}

/// How an await goes on after a suspension that was resumed with `cmd`.
pub open spec fn round_after_resume(cmd: WaitCommand) -> AwaitRound {
    match cmd {
        WaitCommand::Continue => AwaitRound::Repoll,
        WaitCommand::Terminate => AwaitRound::Unwind,
    }
}

/// What the entry of a continuation hands back when it is first resumed
/// with `first` and the body, if it ran, returned `res`.
pub open spec fn entry_step<T, E>(first: WaitCommand, res: Result<T, E>) -> Option<Step<T, E>> {
    match first {
        WaitCommand::Continue => Some(Async::Ready(res)),
        WaitCommand::Terminate => None,
    }
}

/// The first half of a round of an await: polls the sub-operation exactly
/// once. `Some` is the await's result, to be returned to the body at once,
/// with no suspension; `None` means the sub-operation is pending, and only
/// then does the await suspend (`SchedThunk::suspend_pending`).
pub fn poll_round<I, X, P>(poll: P) -> (r: Option<Result<I, X>>)
    where
        P: FnOnce() -> Result<Async<I>, X>,
    requires
        call_requires(poll, ()),
    ensures
        exists|p: Result<Async<I>, X>|
            {
                &&& call_ensures(poll, (), p)
                &&& r == resolution(p)
            },
{
    let p = poll();
    let ghost polled = p;
    let r = match p {
        Ok(Async::Ready(v)) => Some(Ok(v)),
        Err(e) => Some(Err(e)),
        Ok(Async::NotReady) => None,
    };
    assert(call_ensures(poll, (), polled));
    assert(r == resolution(polled));
    r
}

/// The second half of a round of an await: the command that resumed the
/// suspension decides whether to poll again or to unwind.
pub fn resume_round(cmd: WaitCommand) -> (r: AwaitRound)
    ensures
        r == round_after_resume(cmd),
{
    match cmd {
        WaitCommand::Continue => AwaitRound::Repoll,
        WaitCommand::Terminate => AwaitRound::Unwind,
    }
}

/// The suspension token: the capability, given to the body, to suspend its
/// continuation. `suspend` hands a step result to the resumer and returns
/// the command of the next resume.
pub struct SchedThunk<S> {
    suspend: S,
}

impl<S> SchedThunk<S> {
    pub closed spec fn suspend_spec(&self) -> S {
        self.suspend
    }

    /// A token that suspends its continuation through `suspend`.
    pub fn new(suspend: S) -> (r: SchedThunk<S>)
        ensures
            r.suspend_spec() == suspend,
    {
        SchedThunk { suspend }
    }

    /// Suspends the continuation of an await whose sub-operation is
    /// pending: hands `NotReady` to the resumer, which is the only step
    /// result an await ever hands out, and returns the command of the
    /// resume that follows.
    pub fn suspend_pending<T, E>(&self) -> (r: WaitCommand)
        where
            S: Fn(Step<T, E>) -> WaitCommand,
        requires
            call_requires(self.suspend_spec(), (Async::<Result<T, E>>::NotReady,)),
        ensures
            call_ensures(self.suspend_spec(), (Async::<Result<T, E>>::NotReady,), r),
    {
        (self.suspend)(Async::NotReady)
    }
}

/// The entry of a continuation: on its first resume, runs the body if the
/// command is `Continue` and hands back the body's outcome as a final step
/// result. A continuation terminated before it started ends at once, with
/// no body code run.
pub fn run_body<T, E, B>(first: WaitCommand, body: B) -> (r: Option<Step<T, E>>)
    where
        B: FnOnce() -> Result<T, E>,
    requires
        first == WaitCommand::Continue ==> call_requires(body, ()),
    ensures
        first == WaitCommand::Terminate ==> r is None,
        first == WaitCommand::Continue ==> exists|res: Result<T, E>|
            {
                &&& call_ensures(body, (), res)
                &&& r == entry_step(first, res)
            },
{
    match first {
        WaitCommand::Terminate => None,
        WaitCommand::Continue => {
            let res = body();
            let ghost returned = res;
            let r = Some(Async::Ready(res));
            assert(call_ensures(body, (), returned));
            assert(r == entry_step(first, returned));
            r
        },
    }
}

} // verus!
