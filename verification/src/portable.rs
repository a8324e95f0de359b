//! The `portable-pty` side of the boundary: the decisions and pure
//! computations of the production backend. Opening the PTY, spawning the
//! child, resizing, reading, waiting and killing are operating-system work
//! and stay with the caller; what is decided around them stands here.

use portable_pty::CommandBuilder;
use portable_pty::PtySize as NativePtySize;
use std::path::PathBuf;
use vstd::prelude::*;

use crate::backend::{PtyBackend, PtyExitStatus, PtySize, SpawnCommand};
use crate::error::PtyError;
use crate::pump::PtyRead;
use crate::session::{
    kill_result_spec, kill_unless_reaped, take_once, ChildKill, PtyKiller, PtyResizer,
    PtySession, ReapFlag, ReapWatch,
};

verus! {

/// `portable-pty`'s description of a PTY size.
#[verifier::external_type_specification]
#[verifier::external_body]
pub struct ExNativePtySize(NativePtySize);

/// `portable-pty`'s builder for the command spawned into the PTY.
#[verifier::external_type_specification]
#[verifier::external_body]
pub struct ExCommandBuilder(CommandBuilder);

/// `portable-pty`'s exit status of a reaped child.
#[verifier::external_type_specification]
#[verifier::external_body]
pub struct ExExitStatus(portable_pty::ExitStatus);

/// The error type `portable-pty` surfaces from several of its APIs.
#[verifier::external_type_specification]
#[verifier::external_body]
pub struct ExAnyhowError(anyhow::Error);

/// The largest cell count ConPTY's `COORD` fields (`i16`) can carry.
pub const MAX_NATIVE_CELLS: u16 = 32767;

/// `v` clamped to [`MAX_NATIVE_CELLS`].
pub open spec fn clamp_cells(v: u16) -> u16 {
    if v <= MAX_NATIVE_CELLS { v } else { MAX_NATIVE_CELLS }
}

/// Clamps both dimensions so an oversized `u16` cannot wrap negative in a
/// signed 16-bit console coordinate.
pub fn clamp_size(size: PtySize) -> (r: PtySize)
    ensures
        r.rows == clamp_cells(size.rows),
        r.cols == clamp_cells(size.cols),
{
    let rows = if size.rows <= MAX_NATIVE_CELLS { size.rows } else { MAX_NATIVE_CELLS };
    let cols = if size.cols <= MAX_NATIVE_CELLS { size.cols } else { MAX_NATIVE_CELLS };
    PtySize { rows, cols }
}

/// The public fields of a `portable_pty::PtySize`:
/// `(rows, cols, pixel_width, pixel_height)`.
pub uninterp spec fn native_size_fields(s: NativePtySize) -> (u16, u16, u16, u16);

/// Builds `portable_pty::PtySize`, a plain struct of four public fields.
#[verifier::external_body]
fn native_size_from_fields(rows: u16, cols: u16, pixel_width: u16, pixel_height: u16) -> (r: NativePtySize)
    ensures
        native_size_fields(r) == (rows, cols, pixel_width, pixel_height),
{
    NativePtySize { rows, cols, pixel_width, pixel_height }
}

/// The native size handed to `portable-pty` for `size`: the cell size
/// clamped by [`clamp_size`], with zero pixel dimensions.
pub fn to_native_size(size: PtySize) -> (r: NativePtySize)
    ensures
        native_size_fields(r) == (clamp_cells(size.rows), clamp_cells(size.cols), 0u16, 0u16),
{
    let cells = clamp_size(size);
    native_size_from_fields(cells.rows, cells.cols, 0, 0)
}

/// What `anyhow::Error::downcast::<std::io::Error>` returns for `err`.
pub uninterp spec fn io_downcast(err: anyhow::Error) -> Result<std::io::Error, anyhow::Error>;

/// What `std::io::Error::other` returns for `err`.
pub uninterp spec fn io_error_wrapping(err: anyhow::Error) -> std::io::Error;

/// Calls `anyhow::Error::downcast::<std::io::Error>`: `Ok` with the wrapped
/// I/O error when the error is one, otherwise the same error handed back
/// unchanged.
#[verifier::external_body]
fn downcast_io(err: anyhow::Error) -> (r: Result<std::io::Error, anyhow::Error>)
    ensures
        r == io_downcast(err),
        r matches Err(back) ==> back == err,
        io_error_on_top(err) ==> r is Ok,
{
    err.downcast::<std::io::Error>()
}

/// Calls `std::io::Error::other`, wrapping the error with kind `Other`.
#[verifier::external_body]
fn io_error_other(err: anyhow::Error) -> (r: std::io::Error)
    ensures
        r == io_error_wrapping(err),
{
    std::io::Error::other(err)
}

/// The I/O error recovered from a downcast attempt: the recovered error
/// itself, or the handed-back error wrapped with kind `Other`.
pub open spec fn recovered_io_error(d: Result<std::io::Error, anyhow::Error>) -> std::io::Error {
    match d {
        Ok(io) => io,
        Err(err) => io_error_wrapping(err),
    }
}

/// The I/O error recovered from a downcast attempt: the recovered error
/// itself when there is one, otherwise the handed-back error wrapped with
/// kind `Other`.
pub fn io_error_from_downcast(d: Result<std::io::Error, anyhow::Error>) -> (r: std::io::Error)
    ensures
        r == recovered_io_error(d),
{
    match d {
        Ok(io) => io,
        Err(err) => io_error_other(err),
    }
}

/// Whether the top of `err`'s chain (the outermost error, not one under a
/// context layer) is a `std::io::Error`.
pub uninterp spec fn io_error_on_top(err: anyhow::Error) -> bool;

/// Calls `<dyn std::error::Error>::is::<std::io::Error>` on the outermost
/// error of the chain, which `anyhow::Error::as_ref` exposes.
#[verifier::external_body]
fn is_io_error_on_top(err: &anyhow::Error) -> (r: bool)
    ensures
        r == io_error_on_top(*err),
{
    let top: &(dyn std::error::Error + 'static) = err.as_ref();
    top.is::<std::io::Error>()
}

/// What [`to_io`] makes of `err`: the I/O error itself when the top of the
/// chain is one, otherwise the whole error, chain and context kept, wrapped
/// with kind `Other`.
pub open spec fn to_io_spec(err: anyhow::Error) -> std::io::Error {
    if io_error_on_top(err) {
        recovered_io_error(io_downcast(err))
    } else {
        io_error_wrapping(err)
    }
}

/// Flattens `anyhow::Error` to `std::io::Error` for the typed boundary.
/// When the chain's top IS an I/O error it is recovered as is, so its kind
/// stays machine-readable; anything else (an I/O error under a context
/// layer included) is wrapped whole with kind `Other`, keeping its chain.
pub fn to_io(err: anyhow::Error) -> (r: std::io::Error)
    ensures
        r == to_io_spec(err),
        io_error_on_top(err) ==> (io_downcast(err) is Ok && r == io_downcast(err)->Ok_0),
        !io_error_on_top(err) ==> r == io_error_wrapping(err),
{
    if is_io_error_on_top(&err) {
        io_error_from_downcast(downcast_io(err))
    } else {
        io_error_other(err)
    }
}

/// The argument vector (program first) that a command builder holds.
pub uninterp spec fn command_argv(b: CommandBuilder) -> Seq<Seq<char>>;

/// The working directory a command builder holds (`None`: the parent's).
pub uninterp spec fn command_cwd_of(b: CommandBuilder) -> Option<PathBuf>;

/// The environment a command builder holds, by the key `portable-pty`
/// files each variable under.
pub uninterp spec fn command_env_of(b: CommandBuilder) -> Map<Seq<char>, Seq<char>>;

/// The key `portable-pty` files an environment variable under on this
/// platform (the variable's name; lower-cased where names are
/// case-insensitive).
pub uninterp spec fn env_key(name: Seq<char>) -> Seq<char>;

/// Calls `CommandBuilder::new`: a builder whose argument vector is just the
/// program, with no working directory set. (Its base environment is read
/// from the process environment and is not stated.)
#[verifier::external_body]
fn command_new(program: &String) -> (b: CommandBuilder)
    ensures
        command_argv(b) == seq![program@],
        command_cwd_of(b) is None,
{
    CommandBuilder::new(program)
}

/// Calls `CommandBuilder::args`: appends `args` to the argument vector.
/// `args` panics on a builder without a program, hence the `requires`.
#[verifier::external_body]
fn command_args(b: &mut CommandBuilder, args: &Vec<String>)
    requires
        command_argv(*old(b)).len() > 0,
    ensures
        command_argv(*final(b)) == command_argv(*old(b)) + args@.map_values(|a: String| a@),
        command_cwd_of(*final(b)) == command_cwd_of(*old(b)),
        command_env_of(*final(b)) == command_env_of(*old(b)),
{
    b.args(args)
}

/// Calls `CommandBuilder::cwd`: sets the working directory; the argument
/// vector and the environment are left as they were.
#[verifier::external_body]
fn command_cwd(b: &mut CommandBuilder, dir: &PathBuf)
    ensures
        command_cwd_of(*final(b)) == Some(*dir),
        command_argv(*final(b)) == command_argv(*old(b)),
        command_env_of(*final(b)) == command_env_of(*old(b)),
{
    b.cwd(dir)
}

/// Calls `CommandBuilder::env`: files `value` under the key for `key`; the
/// argument vector and the working directory are left as they were.
#[verifier::external_body]
fn command_env(b: &mut CommandBuilder, key: &String, value: &String)
    ensures
        command_env_of(*final(b)) == command_env_of(*old(b)).insert(env_key(key@), value@),
        command_argv(*final(b)) == command_argv(*old(b)),
        command_cwd_of(*final(b)) == command_cwd_of(*old(b)),
{
    b.env(key, value)
}

/// `base` overlaid by each `(name, value)` of `pairs`, in order: a later
/// pair filed under the same key wins.
pub open spec fn env_overlay(base: Map<Seq<char>, Seq<char>>, pairs: Seq<(String, String)>) -> Map<Seq<char>, Seq<char>>
    decreases pairs.len(),
{
    if pairs.len() == 0 {
        base
    } else {
        env_overlay(base, pairs.drop_last()).insert(env_key(pairs.last().0@), pairs.last().1@)
    }
}

/// The command to spawn for `cmd`: its program followed by its arguments,
/// in its working directory when given, with the inherited environment
/// overlaid by its environment pairs in order.
pub fn build_command(cmd: &SpawnCommand) -> (b: CommandBuilder)
    ensures
        command_argv(b) == seq![cmd.program@] + cmd.args@.map_values(|a: String| a@),
        command_cwd_of(b) == cmd.cwd,
        exists|base: Map<Seq<char>, Seq<char>>| command_env_of(b) == env_overlay(base, cmd.env@),
{
    let mut b = command_new(&cmd.program);
    command_args(&mut b, &cmd.args);
    match &cmd.cwd {
        Some(dir) => command_cwd(&mut b, dir),
        None => {},
    }
    let ghost argv = command_argv(b);
    let ghost base = command_env_of(b);
    let n = cmd.env.len();
    let mut i: usize = 0;
    while i < n
        invariant
            n == cmd.env@.len(),
            i <= n,
            command_argv(b) == argv,
            command_cwd_of(b) == cmd.cwd,
            command_env_of(b) == env_overlay(base, cmd.env@.take(i as int)),
        decreases n - i,
    {
        let (key, value) = &cmd.env[i];
        command_env(&mut b, key, value);
        assert(cmd.env@.take(i + 1).drop_last() =~= cmd.env@.take(i as int));
        i = i + 1;
    }
    assert(cmd.env@.take(n as int) =~= cmd.env@);
    b
}

/// The code a `portable_pty::ExitStatus` was constructed with.
pub uninterp spec fn exit_status_code(status: portable_pty::ExitStatus) -> u32;

/// Whether a `portable_pty::ExitStatus` records a terminating signal.
pub uninterp spec fn exit_status_signalled(status: portable_pty::ExitStatus) -> bool;

/// Whether a `portable_pty::ExitStatus` reports successful completion: no
/// terminating signal and code zero.
pub open spec fn exit_status_success(status: portable_pty::ExitStatus) -> bool {
    !exit_status_signalled(status) && exit_status_code(status) == 0
}

/// Calls `portable_pty::ExitStatus::exit_code`: the code the status holds.
#[verifier::external_body]
fn exit_code_of(status: &portable_pty::ExitStatus) -> (r: u32)
    ensures
        r == exit_status_code(*status),
{
    status.exit_code()
}

/// Calls `portable_pty::ExitStatus::success`: true exactly when no signal
/// ended the child and its code is zero.
#[verifier::external_body]
fn exit_success_of(status: &portable_pty::ExitStatus) -> (r: bool)
    ensures
        r == (!exit_status_signalled(*status) && exit_status_code(*status) == 0),
{
    status.success()
}

/// Latches the reap flag and converts the status: called exactly at the
/// sites that reap the child, so every later kill through a clone of
/// `reaped` is refused.
pub fn status_from(reaped: &ReapFlag, status: &portable_pty::ExitStatus) -> (r: PtyExitStatus)
    ensures
        r.code == exit_status_code(*status),
        r.success == exit_status_success(*status),
        r.success == (!exit_status_signalled(*status) && exit_status_code(*status) == 0),
        r.success ==> r.code == 0,
{
    reaped.mark();
    PtyExitStatus { code: exit_code_of(status), success: exit_success_of(status) }
}

/// A resize of the PTY master as the session reports it: a failure
/// flattened by [`to_io`] as [`PtyError::Resize`].
pub open spec fn resize_result_spec(r: Result<(), anyhow::Error>) -> Result<(), PtyError> {
    match r {
        Ok(()) => Ok(()),
        Err(e) => Err(PtyError::Resize(to_io_spec(e))),
    }
}

/// A reader clone of the PTY master as the session reports it: a failure
/// flattened by [`to_io`] as [`PtyError::Reader`].
pub open spec fn reader_result_spec<T>(r: Result<T, anyhow::Error>) -> Result<T, PtyError> {
    match r {
        Ok(t) => Ok(t),
        Err(e) => Err(PtyError::Reader(to_io_spec(e))),
    }
}

/// A resize through a detached handle as reported: `Closed` once the
/// master has been released, otherwise as [`resize_result_spec`].
pub open spec fn detached_resize_result_spec(r: Option<Result<(), anyhow::Error>>) -> Result<(), PtyError> {
    match r {
        None => Err(PtyError::Closed),
        Some(raw) => resize_result_spec(raw),
    }
}

/// A detached resize that reaches the master reports the master's answer
/// exactly as the session's own resize does; one whose master is gone
/// answers `Closed`.
pub proof fn law_detached_resize_agrees_with_session(raw: Result<(), anyhow::Error>)
    ensures
        detached_resize_result_spec(Some(raw)) == resize_result_spec(raw),
        !(resize_result_spec(raw) matches Err(PtyError::Closed)),
        detached_resize_result_spec(None) matches Err(PtyError::Closed),
{
}

/// A wait for the child as reported: the converted status, a failure as
/// [`PtyError::Wait`].
pub open spec fn wait_result_spec(r: Result<portable_pty::ExitStatus, std::io::Error>) -> Result<PtyExitStatus, PtyError> {
    match r {
        Ok(s) => Ok(PtyExitStatus { code: exit_status_code(s), success: exit_status_success(s) }),
        Err(e) => Err(PtyError::Wait(e)),
    }
}

/// A non-blocking wait as reported: `None` while the child runs, the
/// converted status once it has exited, a failure as [`PtyError::Wait`].
pub open spec fn try_wait_result_spec(r: Result<Option<portable_pty::ExitStatus>, std::io::Error>) -> Result<Option<PtyExitStatus>, PtyError> {
    match r {
        Ok(None) => Ok(None),
        Ok(Some(s)) => Ok(Some(PtyExitStatus { code: exit_status_code(s), success: exit_status_success(s) })),
        Err(e) => Err(PtyError::Wait(e)),
    }
}

/// What a reaped child is reported as, whichever call reaped it: the code
/// the raw status holds, and success exactly when no signal ended the child
/// and that code is zero. A non-blocking probe reports an exited child just
/// as a blocking wait does, and a child still running as `None`.
pub proof fn law_reap_reports_the_raw_status(s: portable_pty::ExitStatus)
    ensures
        try_wait_result_spec(Ok(Some(s))) matches Ok(Some(st)) && {
            &&& st.code == exit_status_code(s)
            &&& st.success == (!exit_status_signalled(s) && exit_status_code(s) == 0)
            &&& wait_result_spec(Ok(s)) == Ok::<PtyExitStatus, PtyError>(st)
        },
        wait_result_spec(Ok(s)) matches Ok(st) && st.code == exit_status_code(s)
            && st.success == (!exit_status_signalled(s) && exit_status_code(s) == 0),
        exit_status_signalled(s) ==> !(try_wait_result_spec(Ok(Some(s))) matches Ok(Some(st)) && st.success),
        exit_status_code(s) != 0 ==> !(try_wait_result_spec(Ok(Some(s))) matches Ok(Some(st)) && st.success),
        try_wait_result_spec(Ok(None)) == Ok::<Option<PtyExitStatus>, PtyError>(None),
{
}

/// A resize of the PTY master as the session reports it.
pub fn resize_result(r: Result<(), anyhow::Error>) -> (res: Result<(), PtyError>)
    ensures
        res == resize_result_spec(r),
{
    match r {
        Ok(()) => Ok(()),
        Err(e) => Err(PtyError::Resize(to_io(e))),
    }
}

/// A reader clone of the PTY master as the session reports it.
pub fn reader_result<T>(r: Result<T, anyhow::Error>) -> (res: Result<T, PtyError>)
    ensures
        res == reader_result_spec(r),
{
    match r {
        Ok(t) => Ok(t),
        Err(e) => Err(PtyError::Reader(to_io(e))),
    }
}

/// Resizing of a PTY master that may already have been released.
pub trait MasterResize: Send + Sized {
    /// That `r` is what a resize of the master to `size` answered. Handles
    /// that do not state it relate nothing more than the method's type says.
    closed spec fn resized_with(&self, size: NativePtySize, r: Option<Result<(), anyhow::Error>>) -> bool {
        true
    }

    /// Resizes the master; `None` once it has been released.
    fn resize_master(&self, size: NativePtySize) -> (r: Option<Result<(), anyhow::Error>>)
        ensures
            self.resized_with(size, r),
    ;
}

/// The operating-system side of one live PTY: the master (held until
/// released), the child, and the detached handles onto them. The session
/// makes no master operation after releasing the master.
///
/// Each spec function relates a call to what it answered or left behind;
/// drivers that do not state them relate nothing more than the methods'
/// types say.
pub trait PtyDriver: Send + Sized {
    type Reader: PtyRead + Send;
    type Writer: Send;
    type KillHandle: ChildKill;
    type MasterHandle: MasterResize;

    /// That `r` is what resizing the master to `size` answered.
    closed spec fn resized_with(&self, size: NativePtySize, r: Result<(), anyhow::Error>) -> bool {
        true
    }

    /// That `r` is what cloning a reader of the master answered.
    closed spec fn reader_cloned(&self, r: Result<Self::Reader, anyhow::Error>) -> bool {
        true
    }

    /// That waiting for the child took the driver from `self` to `next`
    /// and answered `r`.
    closed spec fn waited(self, next: Self, r: Result<portable_pty::ExitStatus, std::io::Error>) -> bool {
        true
    }

    /// That probing the child took the driver from `self` to `next` and
    /// answered `r`.
    closed spec fn probed(self, next: Self, r: Result<Option<portable_pty::ExitStatus>, std::io::Error>) -> bool {
        true
    }

    /// That releasing the master took the driver from `self` to `next`.
    closed spec fn released_from(self, next: Self) -> bool {
        true
    }

    /// Resizes the held master.
    fn resize_master(&self, size: NativePtySize) -> (r: Result<(), anyhow::Error>)
        ensures
            self.resized_with(size, r),
    ;

    /// Clones a reader of the held master's output.
    fn clone_reader(&self) -> (r: Result<Self::Reader, anyhow::Error>)
        ensures
            self.reader_cloned(r),
    ;

    /// A detached kill handle onto the child.
    fn kill_handle(&self) -> Self::KillHandle;

    /// A detached handle onto the master that does not keep it alive.
    fn master_handle(&self) -> Self::MasterHandle;

    /// Blocks until the child exits.
    fn wait_child(&mut self) -> (r: Result<portable_pty::ExitStatus, std::io::Error>)
        ensures
            old(self).waited(*final(self), r),
    ;

    /// The child's status if it has exited.
    fn try_wait_child(&mut self) -> (r: Result<Option<portable_pty::ExitStatus>, std::io::Error>)
        ensures
            old(self).probed(*final(self), r),
    ;

    /// Releases the master (closing the console). Releasing twice is
    /// harmless.
    fn release_master(&mut self)
        ensures
            old(self).released_from(*final(self)),
    ;
}

/// The operating-system steps of launching a session, in the order the
/// backend runs them. Each spec function relates a step to its inputs and
/// what it answered; launchers that do not state them relate nothing more
/// than the methods' types say.
pub trait PtyLauncher {
    /// An opened PTY pair.
    type Opened;
    /// A PTY with the child spawned in it.
    type Spawned;
    /// The live session's operating-system side.
    type Driver: PtyDriver;

    /// That `r` is what opening a PTY of `size` answered.
    closed spec fn opened(&self, size: NativePtySize, r: Result<Self::Opened, anyhow::Error>) -> bool {
        true
    }

    /// That `r` is what spawning `cmd` in `opened` answered.
    closed spec fn spawned(&self, opened: Self::Opened, cmd: CommandBuilder, r: Result<Self::Spawned, anyhow::Error>) -> bool {
        true
    }

    /// That `r` is what taking the writer of `spawned` answered.
    closed spec fn writer_taken_from(&self, spawned: Self::Spawned, r: Result<<Self::Driver as PtyDriver>::Writer, anyhow::Error>) -> bool {
        true
    }

    /// That `d` is the live side of `spawned`.
    closed spec fn driver_of(&self, spawned: Self::Spawned, d: Self::Driver) -> bool {
        true
    }

    /// Opens a PTY of the given size.
    fn open_pty(&self, size: NativePtySize) -> (r: Result<Self::Opened, anyhow::Error>)
        ensures
            self.opened(size, r),
    ;

    /// Spawns `cmd` in the PTY, releasing the parent's handle to the child's
    /// end.
    fn spawn_child(&self, opened: Self::Opened, cmd: CommandBuilder) -> (r: Result<Self::Spawned, anyhow::Error>)
        ensures
            self.spawned(opened, cmd, r),
    ;

    /// Takes the master's single writer.
    fn take_writer(&self, spawned: &Self::Spawned) -> (r: Result<<Self::Driver as PtyDriver>::Writer, anyhow::Error>)
        ensures
            self.writer_taken_from(*spawned, r),
    ;

    /// The live session's operating-system side.
    fn into_driver(&self, spawned: Self::Spawned) -> (d: Self::Driver)
        ensures
            self.driver_of(spawned, d),
    ;
}

/// Whether `c` is the command [`build_command`] makes of `cmd`.
pub open spec fn builds(c: CommandBuilder, cmd: SpawnCommand) -> bool {
    &&& command_argv(c) == seq![cmd.program@] + cmd.args@.map_values(|a: String| a@)
    &&& command_cwd_of(c) == cmd.cwd
    &&& exists|base: Map<Seq<char>, Seq<char>>| command_env_of(c) == env_overlay(base, cmd.env@)
}

/// Whether `n` is the native size [`to_native_size`] makes of `size`.
pub open spec fn native_of(n: NativePtySize, size: PtySize) -> bool {
    native_size_fields(n) == (clamp_cells(size.rows), clamp_cells(size.cols), 0u16, 0u16)
}

/// [`PtyBackend`] over `portable-pty`: the launch steps come from `L`.
pub struct PortablePtyBackend<L: PtyLauncher> {
    pub launcher: L,
}

/// A live `portable-pty` session. It holds only a view of its reap latch:
/// the latch is set through [`ReapWatch::reaper`], which takes the exit
/// status a reap returned, so nothing but `wait` and `try_wait` (and
/// nothing in `close`) can set it.
pub struct PortablePtySession<D: PtyDriver> {
    driver: D,
    writer: Option<D::Writer>,
    closed: bool,
    reaped: ReapWatch,
}

impl<D: PtyDriver> PortablePtySession<D> {
    /// The session's operating-system side.
    pub closed spec fn driver(&self) -> D {
        self.driver
    }

    /// The reap flag the session latches and its killers check.
    pub closed spec fn reap_flag(&self) -> ReapFlag {
        self.reaped.flag()
    }
}

/// Detached kill handle: refused once the session has reaped the child. It
/// holds a view of the session's reap latch, which it reads and cannot set.
pub struct PortablePtyKiller<K: ChildKill> {
    handle: K,
    reaped: ReapWatch,
}

impl<K: ChildKill> PortablePtyKiller<K> {
    /// The kill delivery this killer uses.
    pub closed spec fn handle(&self) -> K {
        self.handle
    }

    /// The reap flag this killer checks.
    pub closed spec fn reap_flag(&self) -> ReapFlag {
        self.reaped.flag()
    }
}

/// Detached resize handle; it does not keep the master alive.
pub struct PortablePtyResizer<H: MasterResize> {
    handle: H,
    after_close: bool,
}

impl<H: MasterResize> PortablePtyResizer<H> {
    /// The detached handle onto the master.
    pub closed spec fn handle(&self) -> H {
        self.handle
    }

    /// Whether the resizer was made from an already closed session.
    pub closed spec fn made_after_close(&self) -> bool {
        self.after_close
    }
}

impl<L: PtyLauncher> PtyBackend for PortablePtyBackend<L> {
    type Session = PortablePtySession<L::Driver>;

    /// Opens the PTY at the clamped size, spawns the command
    /// [`build_command`] makes and takes the writer, in that order; the
    /// first failing step decides the error (`Open`, `Spawn` naming the
    /// program, or `WriterInit`), with the step's error flattened by
    /// [`to_io`]. The session's driver is the live side of what was spawned.
    fn spawn(&self, cmd: &SpawnCommand, size: PtySize) -> (r: Result<PortablePtySession<L::Driver>, PtyError>)
        ensures
            r matches Ok(s) ==> !s.is_closed() && !s.writer_taken(),
            r matches Err(PtyError::Open(io)) ==> exists|n: NativePtySize, e: anyhow::Error|
                #[trigger] self.launcher.opened(n, Err(e)) && native_of(n, size) && io == to_io_spec(e),
            r matches Err(PtyError::Spawn { program, source }) ==> program@ == cmd.program@
                && exists|n: NativePtySize, o: L::Opened, c: CommandBuilder, e: anyhow::Error|
                    #[trigger] self.launcher.opened(n, Ok(o)) && native_of(n, size)
                    && #[trigger] self.launcher.spawned(o, c, Err(e)) && builds(c, *cmd)
                    && source == to_io_spec(e),
            r matches Err(PtyError::WriterInit(io)) ==> exists|n: NativePtySize, o: L::Opened, c: CommandBuilder, sp: L::Spawned, e: anyhow::Error|
                #[trigger] self.launcher.opened(n, Ok(o)) && native_of(n, size)
                && #[trigger] self.launcher.spawned(o, c, Ok(sp)) && builds(c, *cmd)
                && #[trigger] self.launcher.writer_taken_from(sp, Err(e)) && io == to_io_spec(e),
            r matches Ok(s) ==> exists|n: NativePtySize, o: L::Opened, c: CommandBuilder, sp: L::Spawned,
                w: <L::Driver as PtyDriver>::Writer|
                #[trigger] self.launcher.opened(n, Ok(o)) && native_of(n, size)
                && #[trigger] self.launcher.spawned(o, c, Ok(sp)) && builds(c, *cmd)
                && #[trigger] self.launcher.writer_taken_from(sp, Ok(w))
                && #[trigger] self.launcher.driver_of(sp, s.driver()),
            r is Ok || r matches Err(PtyError::Open(_)) || r matches Err(PtyError::Spawn { .. })
                || r matches Err(PtyError::WriterInit(_)),
    {
        let native = to_native_size(size);
        let opened = match self.launcher.open_pty(native) {
            Ok(o) => o,
            Err(e) => return Err(PtyError::Open(to_io(e))),
        };
        let ghost o0 = opened;
        let command = build_command(cmd);
        let ghost c0 = command;
        let spawned = match self.launcher.spawn_child(opened, command) {
            Ok(s) => s,
            Err(e) => {
                assert(self.launcher.opened(native, Ok(o0)));
                return Err(PtyError::Spawn { program: cmd.program.clone(), source: to_io(e) });
            },
        };
        let writer = match self.launcher.take_writer(&spawned) {
            Ok(w) => w,
            Err(e) => {
                assert(self.launcher.opened(native, Ok(o0)) && self.launcher.spawned(o0, c0, Ok(spawned)));
                return Err(PtyError::WriterInit(to_io(e)));
            },
        };
        let ghost sp0 = spawned;
        let ghost w0 = writer;
        let driver = self.launcher.into_driver(spawned);
        let s = PortablePtySession { driver, writer: Some(writer), closed: false, reaped: ReapWatch::new() };
        assert(self.launcher.opened(native, Ok(o0)) && self.launcher.spawned(o0, c0, Ok(sp0))
            && self.launcher.writer_taken_from(sp0, Ok(w0)) && self.launcher.driver_of(sp0, s.driver()));
        Ok(s)
    }
}

impl<D: PtyDriver> PtySession for PortablePtySession<D> {
    type Reader = D::Reader;
    type Writer = D::Writer;
    type Killer = PortablePtyKiller<D::KillHandle>;
    type Resizer = PortablePtyResizer<D::MasterHandle>;

    closed spec fn is_closed(&self) -> bool {
        self.closed
    }

    closed spec fn writer_taken(&self) -> bool {
        self.writer is None
    }

    /// An open session hands the master the clamped size and reports the
    /// answer through [`resize_result`]; it is never `Closed`.
    fn resize(&self, size: PtySize) -> (r: Result<(), PtyError>)
        ensures
            !self.is_closed() ==> exists|n: NativePtySize, raw: Result<(), anyhow::Error>|
                #[trigger] self.driver().resized_with(n, raw) && native_of(n, size)
                && r == resize_result_spec(raw),
            !self.is_closed() ==> !(r matches Err(PtyError::Closed)),
    {
        if self.closed {
            return Err(PtyError::Closed);
        }
        let n = to_native_size(size);
        let raw = self.driver.resize_master(n);
        let ghost seen = raw;
        let r = resize_result(raw);
        assert(self.driver().resized_with(n, seen) && native_of(n, size) && r == resize_result_spec(seen));
        r
    }

    /// An open session clones a reader of the master and reports the
    /// answer through [`reader_result`]; it is never `Closed`.
    fn reader(&self) -> (r: Result<D::Reader, PtyError>)
        ensures
            !self.is_closed() ==> exists|raw: Result<D::Reader, anyhow::Error>|
                #[trigger] self.driver().reader_cloned(raw) && r == reader_result_spec(raw),
            !self.is_closed() ==> !(r matches Err(PtyError::Closed)),
    {
        if self.closed {
            return Err(PtyError::Closed);
        }
        let raw = self.driver.clone_reader();
        let ghost seen = raw;
        let r = reader_result(raw);
        assert(self.driver().reader_cloned(seen) && r == reader_result_spec(seen));
        r
    }

    fn take_writer(&mut self) -> (r: Result<D::Writer, PtyError>) {
        take_once(&mut self.writer)
    }

    /// The killer checks this session's own reap flag.
    fn killer(&self) -> (k: PortablePtyKiller<D::KillHandle>)
        ensures
            k.reap_flag() == self.reap_flag(),
    {
        PortablePtyKiller { handle: self.driver.kill_handle(), reaped: self.reaped.share() }
    }

    /// A resizer made from a closed session answers `Closed`.
    fn resizer(&self) -> (z: PortablePtyResizer<D::MasterHandle>)
        ensures
            z.made_after_close() == self.is_closed(),
    {
        PortablePtyResizer { handle: self.driver.master_handle(), after_close: self.closed }
    }

    /// Reaps the child: the driver's answer is converted by [`status_from`],
    /// which latches the reap flag every killer of this session checks.
    fn wait(&mut self) -> (r: Result<PtyExitStatus, PtyError>)
        ensures
            exists|raw: Result<portable_pty::ExitStatus, std::io::Error>|
                #[trigger] old(self).driver().waited(final(self).driver(), raw) && r == wait_result_spec(raw),
    {
        let raw = self.driver.wait_child();
        let ghost seen = raw;
        let r = match raw {
            Ok(status) => Ok(status_from(&self.reaped.reaper(&status), &status)),
            Err(e) => Err(PtyError::Wait(e)),
        };
        assert(old(self).driver().waited(self.driver(), seen) && r == wait_result_spec(seen));
        r
    }

    /// Probes the child without blocking: `Ok(None)` while it runs; once it
    /// has exited, reaps it as [`PtySession::wait`] does.
    fn try_wait(&mut self) -> (r: Result<Option<PtyExitStatus>, PtyError>)
        ensures
            exists|raw: Result<Option<portable_pty::ExitStatus>, std::io::Error>|
                #[trigger] old(self).driver().probed(final(self).driver(), raw) && r == try_wait_result_spec(raw),
    {
        let raw = self.driver.try_wait_child();
        let ghost seen = raw;
        let r = match raw {
            Ok(Some(status)) => Ok(Some(status_from(&self.reaped.reaper(&status), &status))),
            Ok(None) => Ok(None),
            Err(e) => Err(PtyError::Wait(e)),
        };
        assert(old(self).driver().probed(self.driver(), seen) && r == try_wait_result_spec(seen));
        r
    }

    /// Releases the driver's master, then marks the session closed.
    fn close(&mut self) -> (r: Result<(), PtyError>)
        ensures
            old(self).driver().released_from(final(self).driver()),
    {
        self.driver.release_master();
        self.closed = true;
        Ok(())
    }
}

impl<K: ChildKill> PtyKiller for PortablePtyKiller<K> {
    /// Refused once the child was reaped, with the handle left untouched (no
    /// signal sent); otherwise delivered through the handle and reported
    /// through [`kill_result`].
    fn kill(&mut self) -> (r: Result<(), PtyError>)
        ensures
            final(self).reap_flag() == old(self).reap_flag(),
            r matches Err(PtyError::AlreadyReaped) ==> final(self).handle() == old(self).handle(),
            r matches Err(PtyError::AlreadyReaped)
                || exists|d: Result<(), std::io::Error>|
                    #[trigger] old(self).handle().kill_post(final(self).handle(), d) && r == kill_result_spec(d),
    {
        let r = kill_unless_reaped(self.reaped.is_reaped(), &mut self.handle);
        proof {
            if !(r matches Err(PtyError::AlreadyReaped)) {
                let d = choose|d: Result<(), std::io::Error>|
                    #[trigger] old(self).handle.kill_post(self.handle, d) && r == kill_result_spec(d);
                assert(old(self).handle().kill_post(self.handle(), d));
            }
        }
        r
    }
}

impl<H: MasterResize> PtyResizer for PortablePtyResizer<H> {
    /// `Closed` if made after close or once the master has been released;
    /// otherwise the master is handed the clamped size.
    fn resize(&self, size: PtySize) -> (r: Result<(), PtyError>)
        ensures
            self.made_after_close() ==> r matches Err(PtyError::Closed),
            !self.made_after_close() ==> exists|n: NativePtySize, raw: Option<Result<(), anyhow::Error>>|
                #[trigger] self.handle().resized_with(n, raw) && native_of(n, size)
                && r == detached_resize_result_spec(raw),
    {
        if self.after_close {
            return Err(PtyError::Closed);
        }
        let n = to_native_size(size);
        let raw = self.handle.resize_master(n);
        let ghost seen = raw;
        let r = match raw {
            None => Err(PtyError::Closed),
            Some(res) => resize_result(res),
        };
        assert(self.handle().resized_with(n, seen) && r == detached_resize_result_spec(seen));
        r
    }
}

} // verus!
