//! The typed failure modes of the PTY boundary.

use vstd::prelude::*;

verus! {

/// An operating-system error carried through unchanged as a failure's source.
#[verifier::external_type_specification]
#[verifier::external_body]
pub struct ExIoError(std::io::Error);

/// Typed failure modes of the PTY boundary.
///
/// Consumers branch on these: [`PtyError::AlreadyReaped`] is a benign race
/// outcome (stop escalating), while [`PtyError::Kill`] is a real delivery
/// failure (escalate).
#[derive(Debug)]
pub enum PtyError {
    /// Failed to open the PTY.
    Open(std::io::Error),
    /// The program could not be spawned inside the PTY.
    Spawn { program: String, source: std::io::Error },
    /// The PTY refused a resize.
    Resize(std::io::Error),
    /// Failed to clone the PTY reader.
    Reader(std::io::Error),
    /// Failed to acquire the PTY writer.
    WriterInit(std::io::Error),
    /// The single-use writer was already taken.
    WriterTaken,
    /// The session is closed.
    Closed,
    /// The child was already reaped; a kill would signal a possibly reused PID.
    AlreadyReaped,
    /// The kill was not delivered.
    Kill(std::io::Error),
    /// Waiting for the child failed.
    Wait(std::io::Error),
}

} // verus!
