//! Boundary value types.

use std::path::PathBuf;
use vstd::prelude::*;

use crate::error::PtyError;
use crate::session::PtySession;

verus! {

/// A path handed through to the child's working directory unchanged.
#[verifier::external_type_specification]
#[verifier::external_body]
pub struct ExPathBuf(PathBuf);

/// Terminal grid size in character cells.
#[derive(Debug, Clone, Copy, Default, PartialEq, Eq, Structural)]
pub struct PtySize {
    pub rows: u16,
    pub cols: u16,
}

/// What to run inside the PTY.
#[derive(Debug, Clone, Default)]
pub struct SpawnCommand {
    pub program: String,
    pub args: Vec<String>,
    /// Initial working directory; `None` inherits the parent's.
    pub cwd: Option<PathBuf>,
    /// Extra environment variables overlaid on the inherited environment.
    pub env: Vec<(String, String)>,
}

/// Final status of an exited PTY child.
#[derive(Debug, Clone, Copy)]
pub struct PtyExitStatus {
    pub code: u32,
    /// Whether the platform considers the exit clean.
    pub success: bool,
}

/// Factory for PTY sessions.
pub trait PtyBackend {
    /// The sessions this backend opens.
    type Session: PtySession;

    /// Opens a PTY of the given size and spawns `cmd` inside it.
    /// A session it returns starts open, with its writer not yet taken.
    fn spawn(&self, cmd: &SpawnCommand, size: PtySize) -> (r: Result<Self::Session, PtyError>)
        ensures
            r matches Ok(s) ==> !s.is_closed() && !s.writer_taken(),
    ;
}

} // verus!
