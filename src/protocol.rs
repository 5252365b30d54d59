//! The two messages that cross the boundary of the continuation.
use vstd::prelude::*;

verus! {

/// The signal sent into the continuation on every resume.
#[derive(Debug, Clone, Copy, PartialEq, Eq, Structural)]
pub enum WaitCommand {
    /// Proceed normally.
    Continue,
    /// Unwind and exit.
    Terminate,
}

/// The readiness of a poll-based computation: either still pending, or
/// finished with a value.
#[derive(Debug, PartialEq, Eq)]
pub enum Async<T> {
    Ready(T),
    NotReady,
}

/// The value a continuation hands back to its resumer each time it
/// suspends: pending, or finished with the body's outcome.
pub type Step<T, E> = Async<Result<T, E>>;

} // verus!
