//! The bridge: the poll and dispose protocol around one continuation.
use vstd::prelude::*;
use crate::protocol::{Async, Step, WaitCommand};

verus! {

/// Size of the private stack given to a continuation when none is asked for.
pub const DEFAULT_STACK_SIZE: usize = 1 << 20;

/// Where a bridge stands in its life.
#[derive(Debug, Clone, Copy, PartialEq, Eq, Structural)]
pub enum Phase {
    /// No body code has run yet.
    NotStarted,
    /// The body has run and is suspended in an await.
    Suspended,
    /// The body has produced its outcome, or the continuation is gone.
    Completed,
}

/// The continuation ended without producing a step result.
#[derive(Debug, Clone, Copy, PartialEq, Eq, Structural)]
pub struct AbnormalExit;

/// How a disposal went: the events it reports to an observability sink.
#[derive(Debug, PartialEq, Eq)]
pub enum DisposeReport {
    /// The body had already completed: the continuation was not resumed.
    AlreadyComplete,
    /// The continuation unwound and ended, releasing what the body owned.
    Unwound,
    /// The body went on and produced another step result instead of
    /// unwinding: what it owns may leak. A warning.
    TerminationIgnored,
    /// A fault was raised while the body unwound; it was caught and is
    /// described here. A warning.
    TerminationFault(String),
}

/// The state a bridge keeps about the one continuation it owns.
#[derive(Debug)]
pub struct FringeFut {
    phase: Phase,
    stack_size: usize,
}

/// What a poll returns once the continuation has answered with `s`.
pub open spec fn poll_outcome<T, E>(s: Option<Step<T, E>>) -> Result<Result<Async<T>, E>, AbnormalExit> {
    match s {
        Some(Async::NotReady) => Ok(Ok(Async::NotReady)),
        Some(Async::Ready(Ok(v))) => Ok(Ok(Async::Ready(v))),
        Some(Async::Ready(Err(e))) => Ok(Err(e)),
        None => Err(AbnormalExit),
    }
}

/// The phase a poll leaves behind once the continuation has answered with `s`.
pub open spec fn phase_after_poll<T, E>(s: Option<Step<T, E>>) -> Phase {
    match s {
        Some(Async::NotReady) => Phase::Suspended,
        _ => Phase::Completed,
    }
}

/// What a disposal reports once the continuation, resumed with `Terminate`,
/// has answered with `o` (`Err` carries a description of a caught fault).
pub open spec fn dispose_outcome<T, E>(o: Result<Option<Step<T, E>>, String>) -> DisposeReport {
    match o {
        Ok(None) => DisposeReport::Unwound,
        Ok(Some(_)) => DisposeReport::TerminationIgnored,
        Err(m) => DisposeReport::TerminationFault(m),
    }
}

impl DisposeReport {
    /// Whether this report is to be logged as a warning.
    pub open spec fn is_warning_spec(&self) -> bool {
        self is TerminationIgnored || self is TerminationFault
    }

    /// Whether this report is to be logged as a warning.
    pub fn is_warning(&self) -> (r: bool)
        ensures
            r == self.is_warning_spec(),
    {
        match self {
            DisposeReport::TerminationIgnored => true,
            DisposeReport::TerminationFault(_) => true,
            _ => false,
        }
    }
}

impl FringeFut {
    pub closed spec fn phase_spec(&self) -> Phase {
        self.phase
    }

    pub closed spec fn stack_size_spec(&self) -> usize {
        self.stack_size
    }

    /// A bridge whose continuation gets the default stack size and has not
    /// started.
    pub fn new() -> (r: FringeFut)
        ensures
            r.phase_spec() == Phase::NotStarted,
            r.stack_size_spec() == DEFAULT_STACK_SIZE,
    {
        FringeFut { phase: Phase::NotStarted, stack_size: DEFAULT_STACK_SIZE }
    }

    /// A bridge whose continuation gets a private stack of `stack_size`
    /// bytes and has not started.
    pub fn with_stack_size(stack_size: usize) -> (r: FringeFut)
        ensures
            r.phase_spec() == Phase::NotStarted,
            r.stack_size_spec() == stack_size,
    {
        FringeFut { phase: Phase::NotStarted, stack_size }
    }

    /// The size in bytes of the continuation's private stack.
    pub fn stack_size(&self) -> (r: usize)
        ensures
            r == self.stack_size_spec(),
    {
        self.stack_size
    }

    /// Where the bridge stands in its life.
    pub fn phase(&self) -> (r: Phase)
        ensures
            r == self.phase_spec(),
    {
        self.phase
    }

    /// Disposes of the bridge. A body that has not completed is resumed
    /// exactly once with `Terminate`, and whatever comes back (another step
    /// result, or a caught fault) is reported, never raised. The bridge is
    /// completed afterwards and is not resumed again.
    pub fn dispose<T, E, R>(&mut self, resume: R) -> (r: DisposeReport)
        where
            R: FnOnce(WaitCommand) -> Result<Option<Step<T, E>>, String>,
        requires
            old(self).phase_spec() != Phase::Completed ==> call_requires(
                resume,
                (WaitCommand::Terminate,),
            ),
        ensures
            old(self).phase_spec() == Phase::Completed ==> r == DisposeReport::AlreadyComplete,
            old(self).phase_spec() != Phase::Completed ==> exists|o: Result<Option<Step<T, E>>, String>|
                {
                    &&& call_ensures(resume, (WaitCommand::Terminate,), o)
                    &&& r == dispose_outcome(o)
                },
            final(self).phase_spec() == Phase::Completed,
            final(self).stack_size_spec() == old(self).stack_size_spec(),
    {
        if self.phase == Phase::Completed {
            return DisposeReport::AlreadyComplete;
        }
        let o = resume(WaitCommand::Terminate);
        let ghost answered = o;
        self.phase = Phase::Completed;
        let r = match o {
            Ok(None) => DisposeReport::Unwound,
            Ok(Some(_)) => DisposeReport::TerminationIgnored,
            Err(m) => DisposeReport::TerminationFault(m),
        };
        assert(call_ensures(resume, (WaitCommand::Terminate,), answered));
        assert(r == dispose_outcome(answered));
        r
    }

    /// Polls the body: resumes the continuation once with `Continue` and
    /// turns what it hands back into the poll's answer.
    pub fn poll<T, E, R>(&mut self, resume: R) -> (r: Result<Result<Async<T>, E>, AbnormalExit>)
        where
            R: FnOnce(WaitCommand) -> Option<Step<T, E>>,
        requires
            old(self).phase_spec() != Phase::Completed,
            call_requires(resume, (WaitCommand::Continue,)),
        ensures
            exists|s: Option<Step<T, E>>|
                {
                    &&& call_ensures(resume, (WaitCommand::Continue,), s)
                    &&& r == poll_outcome(s)
                    &&& final(self).phase_spec() == phase_after_poll(s)
                },
            final(self).stack_size_spec() == old(self).stack_size_spec(),
    {
        let s = resume(WaitCommand::Continue);
        let ghost answered = s;
        let r = match s {
            Some(Async::NotReady) => {
                self.phase = Phase::Suspended;
                Ok(Ok(Async::NotReady))
            },
            Some(Async::Ready(Ok(v))) => {
                self.phase = Phase::Completed;
                Ok(Ok(Async::Ready(v)))
            },
            Some(Async::Ready(Err(e))) => {
                self.phase = Phase::Completed;
                Ok(Err(e))
            },
            None => {
                self.phase = Phase::Completed;
                Err(AbnormalExit)
            },
        };
        assert(call_ensures(resume, (WaitCommand::Continue,), answered));
        assert(r == poll_outcome(answered));
        assert(self.phase == phase_after_poll(answered));
        r
    }
}

} // verus!
