//! Drives a sequential body that awaits poll-based sub-operations from inside
//! a private continuation, and presents the whole body to an outer scheduler
//! as one poll-based computation.
//!
//! The continuation engine itself (its stack and the switch between stacks)
//! is a collaborator of this library: every resume of it is handed in as a
//! one-shot closure, so that each decision the bridge and the suspension
//! token take is stated and proved here.
pub mod protocol;
pub mod bridge;
pub mod thunk;
pub mod laws;

pub use protocol::{Async, WaitCommand};
pub use bridge::{AbnormalExit, DisposeReport, FringeFut, Phase};
pub use thunk::{poll_round, resume_round, run_body, AwaitRound, SchedThunk};
