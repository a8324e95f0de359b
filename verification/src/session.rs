//! The live-session traits and the lifecycle guards every backend shares.
//!
//! A session moves through three states:
//!
//! ```text
//! Running ──wait()/try_wait()=Some──▶ Exited ──close()──▶ Closed
//!     └────────────close()──────────────────────────────▶ Closed
//! ```
//!
//! The guards here are facets of that one machine: the single-take writer
//! slot, the live/closed master slot, and the reap flag that refuses a kill
//! once the child's PID may have been reused.

use std::sync::atomic::{AtomicBool, Ordering};
use std::sync::Arc;
use vstd::prelude::*;

use crate::backend::{PtyExitStatus, PtySize};
use crate::error::PtyError;
use crate::pump::PtyRead;

verus! {

/// One live PTY with a child process attached.
///
/// `killer()`/`resizer()` return detached handles usable from other threads
/// while the owner blocks in [`PtySession::wait`]. The contracts state the
/// lifecycle: a closed session answers [`PtyError::Closed`] to every
/// master operation, the writer is taken at most once, and neither `wait`
/// nor `try_wait` nor `close` touches the writer slot.
pub trait PtySession: Send {
    /// Output stream (PTY -> caller); reaches EOF once the session is closed.
    type Reader: PtyRead + Send;
    /// Input stream (caller -> PTY).
    type Writer: Send;
    /// Detached kill handle.
    type Killer: PtyKiller;
    /// Detached resize handle.
    type Resizer: PtyResizer;

    /// Whether `close()` has run.
    spec fn is_closed(&self) -> bool;

    /// Whether the single-use writer has been handed out.
    spec fn writer_taken(&self) -> bool;

    /// Applies while the session is open (the child may have exited);
    /// `Closed` once closed.
    fn resize(&self, size: PtySize) -> (r: Result<(), PtyError>)
        ensures
            self.is_closed() ==> r matches Err(PtyError::Closed),
    ;

    /// May be called multiple times while the session is open; `Closed`
    /// once closed.
    fn reader(&self) -> (r: Result<Self::Reader, PtyError>)
        ensures
            self.is_closed() ==> r matches Err(PtyError::Closed),
    ;

    /// Single-use: the first call hands the writer out, every later call
    /// returns [`PtyError::WriterTaken`]; closing does not change this.
    fn take_writer(&mut self) -> (r: Result<Self::Writer, PtyError>)
        ensures
            !old(self).writer_taken() ==> r is Ok,
            old(self).writer_taken() ==> r matches Err(PtyError::WriterTaken),
            final(self).writer_taken(),
            final(self).is_closed() == old(self).is_closed(),
    ;

    fn killer(&self) -> Self::Killer;

    fn resizer(&self) -> Self::Resizer;

    /// Blocks until the child exits; returns its exit status.
    fn wait(&mut self) -> (r: Result<PtyExitStatus, PtyError>)
        ensures
            final(self).is_closed() == old(self).is_closed(),
            final(self).writer_taken() == old(self).writer_taken(),
            r is Err ==> r matches Err(PtyError::Wait(_)),
    ;

    /// `Some(status)` once the child has exited, `None` while it runs.
    fn try_wait(&mut self) -> (r: Result<Option<PtyExitStatus>, PtyError>)
        ensures
            final(self).is_closed() == old(self).is_closed(),
            final(self).writer_taken() == old(self).writer_taken(),
            r is Err ==> r matches Err(PtyError::Wait(_)),
    ;

    /// Closes the master / pseudo console; every reader then reaches EOF.
    /// Never fails, idempotent, legal after `wait()`.
    fn close(&mut self) -> (r: Result<(), PtyError>)
        ensures
            r is Ok,
            final(self).is_closed(),
            final(self).writer_taken() == old(self).writer_taken(),
    ;
}

/// Detached kill handle for a [`PtySession`]'s child. Once the session has
/// reaped the child, `kill` refuses with [`PtyError::AlreadyReaped`].
pub trait PtyKiller: Send {
    fn kill(&mut self) -> Result<(), PtyError>;
}

/// Detached resize handle for a [`PtySession`]'s PTY; reports
/// [`PtyError::Closed`] once the session is closed.
pub trait PtyResizer: Send {
    fn resize(&self, size: PtySize) -> Result<(), PtyError>;
}

/// Calls `Arc::clone`: another pointer to the same allocation, so the same
/// value.
#[verifier::external_body]
fn arc_clone<T>(a: &Arc<T>) -> (r: Arc<T>)
    ensures
        r == *a,
{
    Arc::clone(a)
}

/// The verdict on a kill request, given whether the child has been reaped.
pub fn reap_verdict(reaped: bool) -> (r: Result<(), PtyError>)
    ensures
        reaped ==> r matches Err(PtyError::AlreadyReaped),
        !reaped ==> r is Ok,
{
    if reaped {
        Err(PtyError::AlreadyReaped)
    } else {
        Ok(())
    }
}

/// The shared kill-after-reap latch: `mark()` at every reap site, `check()`
/// in every killer. Clones share one flag.
#[derive(Clone)]
pub struct ReapFlag(Arc<AtomicBool>);

impl ReapFlag {
    /// A fresh, unlatched flag.
    pub fn new() -> Self {
        ReapFlag(Arc::new(AtomicBool::new(false)))
    }

    /// Another handle onto the same flag.
    pub fn share(&self) -> (r: Self)
        ensures
            r == *self,
    {
        ReapFlag(arc_clone(&self.0))
    }

    /// Latch "the child has been reaped" — its PID may be reused from here on.
    pub fn mark(&self) {
        self.0.store(true, Ordering::Release);
    }

    /// Whether the latch is set: the child has been reaped through some
    /// handle onto this flag.
    pub fn is_reaped(&self) -> bool {
        self.0.load(Ordering::Acquire)
    }

    /// Refuse the kill once reaped: the result is `Ok` or
    /// [`PtyError::AlreadyReaped`], by [`reap_verdict`] on the latch's state.
    pub fn check(&self) -> (r: Result<(), PtyError>)
        ensures
            r is Ok || r matches Err(PtyError::AlreadyReaped),
    {
        reap_verdict(self.is_reaped())
    }
}

/// A read-only view of a reap latch. It tells whether the child has been
/// reaped and cannot set the latch: a handle that sets it is handed out only
/// against the exit status of a reap ([`ReapWatch::reaper`]), so code that
/// holds a view (a detached killer, a session closing) cannot latch a child
/// nobody reaped.
pub struct ReapWatch(Arc<AtomicBool>);

impl ReapWatch {
    /// The latch this view reads.
    pub closed spec fn flag(&self) -> ReapFlag {
        ReapFlag(self.0)
    }

    /// A view onto a fresh, unlatched flag.
    pub fn new() -> Self {
        ReapWatch(Arc::new(AtomicBool::new(false)))
    }

    /// Another view onto the same latch.
    pub fn share(&self) -> (r: Self)
        ensures
            r.flag() == self.flag(),
    {
        ReapWatch(arc_clone(&self.0))
    }

    /// Whether the latch is set.
    pub fn is_reaped(&self) -> bool {
        self.0.load(Ordering::Acquire)
    }

    /// The handle that latches this flag, handed out against `status`, the
    /// exit status a reap of the child returned.
    pub fn reaper(&self, status: &portable_pty::ExitStatus) -> (r: ReapFlag)
        ensures
            r == self.flag(),
    {
        let _ = status;
        ReapFlag(arc_clone(&self.0))
    }
}

/// The outcome of taking from a single-use slot: the slot afterwards and
/// what the caller gets.
pub open spec fn take_once_spec<W>(slot: Option<W>) -> (Option<W>, Result<W, PtyError>) {
    match slot {
        Some(w) => (None, Ok(w)),
        None => (None, Err(PtyError::WriterTaken)),
    }
}

/// Moves the writer out of its single-use slot; once it is gone, reports
/// [`PtyError::WriterTaken`].
pub fn take_once<W>(slot: &mut Option<W>) -> (r: Result<W, PtyError>)
    ensures
        (*final(slot), r) == take_once_spec(*old(slot)),
{
    match slot.take() {
        Some(w) => Ok(w),
        None => Err(PtyError::WriterTaken),
    }
}

/// The session's result for a kill the platform attempted: success, or the
/// delivery failure as [`PtyError::Kill`].
pub open spec fn kill_result_spec(delivered: Result<(), std::io::Error>) -> Result<(), PtyError> {
    match delivered {
        Ok(()) => Ok(()),
        Err(e) => Err(PtyError::Kill(e)),
    }
}

/// The session's result for a kill the platform attempted.
pub fn kill_result(delivered: Result<(), std::io::Error>) -> (r: Result<(), PtyError>)
    ensures
        r == kill_result_spec(delivered),
{
    match delivered {
        Ok(()) => Ok(()),
        Err(e) => Err(PtyError::Kill(e)),
    }
}

/// The delivery of a kill signal to a child (the platform's part of a kill).
pub trait ChildKill: Send + Sized {
    /// That delivering a kill took the handle from `self` to `next` and
    /// answered `r`. Handles that do not state it relate nothing more than
    /// the method's type says.
    closed spec fn kill_post(self, next: Self, r: Result<(), std::io::Error>) -> bool {
        true
    }

    /// Attempts to terminate the child.
    fn kill_child(&mut self) -> (r: Result<(), std::io::Error>)
        ensures
            old(self).kill_post(*final(self), r),
    ;
}

/// A kill decided on the reap latch's state: refused with
/// [`PtyError::AlreadyReaped`], without touching `handle`, when the child has
/// been reaped; otherwise delivered through `handle` and reported through
/// [`kill_result`].
pub fn kill_unless_reaped<K: ChildKill>(reaped: bool, handle: &mut K) -> (r: Result<(), PtyError>)
    ensures
        reaped ==> (r matches Err(PtyError::AlreadyReaped) && *final(handle) == *old(handle)),
        !reaped ==> exists|d: Result<(), std::io::Error>|
            #[trigger] old(handle).kill_post(*final(handle), d) && r == kill_result_spec(d),
{
    if reaped {
        return Err(PtyError::AlreadyReaped);
    }
    let d = handle.kill_child();
    let ghost seen = d;
    let r = kill_result(d);
    assert(old(handle).kill_post(*handle, seen));
    r
}

/// A kill guarded by the reap flag: refused with [`PtyError::AlreadyReaped`]
/// once the child has been reaped, with no signal sent; otherwise delivered
/// through `handle` and reported through [`kill_result`].
pub fn guarded_kill<K: ChildKill>(reaped: &ReapFlag, handle: &mut K) -> (r: Result<(), PtyError>)
    ensures
        r matches Err(PtyError::AlreadyReaped) ==> *final(handle) == *old(handle),
        r matches Err(PtyError::AlreadyReaped)
            || exists|d: Result<(), std::io::Error>|
                #[trigger] old(handle).kill_post(*final(handle), d) && r == kill_result_spec(d),
{
    kill_unless_reaped(reaped.is_reaped(), handle)
}

/// Calls `std::io::Error::other` with `message` as the payload.
#[verifier::external_body]
fn io_error_with_message(message: &str) -> std::io::Error {
    std::io::Error::other(message)
}

/// Undoes the inverted result of `portable-pty`'s Windows child killer
/// (it reports success as an error carrying a stale code, and failure as
/// `Ok`): an error becomes success, success becomes a failure without code.
pub fn invert_terminate_result(raw: Result<(), std::io::Error>) -> (r: Result<(), std::io::Error>)
    ensures
        raw is Err ==> r is Ok,
        raw is Ok ==> r is Err,
{
    match raw {
        Err(_) => Ok(()),
        Ok(()) => Err(io_error_with_message("TerminateProcess failed (error code discarded by portable-pty)")),
    }
}

/// The writer is single-use: whatever the slot held, a second take reports
/// [`PtyError::WriterTaken`].
pub proof fn law_writer_single_use<W>(slot: Option<W>)
    ensures
        take_once_spec(take_once_spec(slot).0).1 matches Err(PtyError::WriterTaken),
        slot matches Some(w) ==> take_once_spec(slot).1 == Ok::<W, PtyError>(w),
{
}

} // verus!
