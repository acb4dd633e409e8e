//! Model of the observable result of one external command invocation.
//!
//! The library never runs a command itself: it hands command strings out
//! and receives a `CmdOutput` back from the caller.

use vstd::prelude::*;

verus! {

/// What an external command left behind: its exit status collapsed to
/// success/failure, and its captured output streams.
#[derive(Debug)]
pub struct CmdOutput {
    pub success: bool,
    pub stdout: String,
    pub stderr: String,
}

} // verus!
