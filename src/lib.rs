//! Run an external command, directly or through a shell, and describe how it
//! ended: its captured output and its exit code.
//!
//! The library decides everything about a run: how the command is launched,
//! whether its output is captured, how the way the process ended maps to a
//! result, and what the verbose report says. Spawning the process and waiting
//! for it is left to the caller, who hands back a [`Termination`].
use vstd::prelude::*;

pub mod report;
pub mod runcmd;

pub use runcmd::{Launch, RunCmd, RunCmdOutput, RunError, Termination};
