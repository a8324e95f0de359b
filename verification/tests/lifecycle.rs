use std::io::{ErrorKind, Write};
use std::sync::atomic::{AtomicBool, AtomicUsize, Ordering};
use std::sync::{Arc, Mutex};

use portable_pty::{CommandBuilder, ExitStatus, PtySize as NativeSize};
use tessmux_pty::{
    pump_reader, reader_result, resize_result, ChildKill, MasterResize, PortablePtyBackend,
    PtyBackend, PtyDriver, PtyError, PtyKiller, PtyLauncher, PtyRead, PtyResizer, PtySession,
    PtySize, SpawnCommand,
};

/// Which launch step fails, if any.
#[derive(Clone, Copy, PartialEq)]
enum FailAt {
    Nothing,
    Open,
    Spawn,
    Writer,
}

/// What the scripted operating-system side saw.
#[derive(Default)]
struct Seen {
    sizes: Mutex<Vec<(u16, u16)>>,
    argv: Mutex<Vec<String>>,
    released: AtomicBool,
    kills: AtomicUsize,
}

struct ScriptedLauncher {
    fail_at: FailAt,
    seen: Arc<Seen>,
    exit_code: u32,
    running: bool,
    output: Vec<&'static [u8]>,
}

struct ScriptedDriver {
    seen: Arc<Seen>,
    exit_code: u32,
    running: bool,
    output: Vec<&'static [u8]>,
}

/// Replays the scripted output one chunk per read, then reports EOF.
struct ScriptedOutput(Vec<&'static [u8]>);

impl PtyRead for ScriptedOutput {
    fn read(&mut self, buf: &mut [u8]) -> std::io::Result<usize> {
        if self.0.is_empty() {
            return Ok(0);
        }
        let chunk = self.0.remove(0);
        buf[..chunk.len()].copy_from_slice(chunk);
        Ok(chunk.len())
    }
}

struct ScriptedKill(Arc<Seen>);

impl ChildKill for ScriptedKill {
    fn kill_child(&mut self) -> std::io::Result<()> {
        self.0.kills.fetch_add(1, Ordering::SeqCst);
        Ok(())
    }
}

struct ScriptedMaster(Arc<Seen>);

impl MasterResize for ScriptedMaster {
    fn resize_master(&self, size: NativeSize) -> Option<anyhow::Result<()>> {
        if self.0.released.load(Ordering::SeqCst) {
            return None;
        }
        self.0.sizes.lock().unwrap().push((size.rows, size.cols));
        Some(Ok(()))
    }
}

fn failure(step: &str) -> anyhow::Error {
    anyhow::Error::msg(format!("{step} failed"))
}

impl PtyLauncher for ScriptedLauncher {
    type Opened = ();
    type Spawned = ();
    type Driver = ScriptedDriver;

    fn open_pty(&self, size: NativeSize) -> anyhow::Result<()> {
        self.seen.sizes.lock().unwrap().push((size.rows, size.cols));
        if self.fail_at == FailAt::Open {
            return Err(failure("open"));
        }
        Ok(())
    }

    fn spawn_child(&self, _opened: (), cmd: CommandBuilder) -> anyhow::Result<()> {
        *self.seen.argv.lock().unwrap() =
            cmd.get_argv().iter().map(|a| a.to_string_lossy().into_owned()).collect();
        if self.fail_at == FailAt::Spawn {
            return Err(failure("spawn"));
        }
        Ok(())
    }

    fn take_writer(&self, _spawned: &()) -> anyhow::Result<Vec<u8>> {
        if self.fail_at == FailAt::Writer {
            return Err(anyhow::Error::from(std::io::Error::from(ErrorKind::BrokenPipe)));
        }
        Ok(Vec::new())
    }

    fn into_driver(&self, _spawned: ()) -> ScriptedDriver {
        ScriptedDriver {
            seen: self.seen.clone(),
            exit_code: self.exit_code,
            running: self.running,
            output: self.output.clone(),
        }
    }
}

impl PtyDriver for ScriptedDriver {
    type Reader = ScriptedOutput;
    type Writer = Vec<u8>;
    type KillHandle = ScriptedKill;
    type MasterHandle = ScriptedMaster;

    fn resize_master(&self, size: NativeSize) -> anyhow::Result<()> {
        assert!(!self.seen.released.load(Ordering::SeqCst), "resize after release");
        self.seen.sizes.lock().unwrap().push((size.rows, size.cols));
        Ok(())
    }

    fn clone_reader(&self) -> anyhow::Result<ScriptedOutput> {
        assert!(!self.seen.released.load(Ordering::SeqCst), "reader after release");
        Ok(ScriptedOutput(self.output.clone()))
    }

    fn kill_handle(&self) -> ScriptedKill {
        ScriptedKill(self.seen.clone())
    }

    fn master_handle(&self) -> ScriptedMaster {
        ScriptedMaster(self.seen.clone())
    }

    fn wait_child(&mut self) -> std::io::Result<ExitStatus> {
        Ok(ExitStatus::with_exit_code(self.exit_code))
    }

    fn try_wait_child(&mut self) -> std::io::Result<Option<ExitStatus>> {
        if self.running {
            return Ok(None);
        }
        Ok(Some(ExitStatus::with_exit_code(self.exit_code)))
    }

    fn release_master(&mut self) {
        self.seen.released.store(true, Ordering::SeqCst);
    }
}

fn backend(fail_at: FailAt) -> (PortablePtyBackend<ScriptedLauncher>, Arc<Seen>) {
    let seen = Arc::new(Seen::default());
    let launcher = ScriptedLauncher {
        fail_at,
        seen: seen.clone(),
        exit_code: 1,
        running: false,
        output: vec![&b"output"[..]],
    };
    (PortablePtyBackend { launcher }, seen)
}

fn agent() -> SpawnCommand {
    SpawnCommand {
        program: "fake-agent".into(),
        args: vec!["--flag".into()],
        ..Default::default()
    }
}

#[test]
fn spawn_errors_follow_the_failing_step() {
    let size = PtySize { rows: 24, cols: 80 };
    assert!(matches!(backend(FailAt::Open).0.spawn(&agent(), size), Err(PtyError::Open(_))));
    match backend(FailAt::Spawn).0.spawn(&agent(), size) {
        Err(PtyError::Spawn { program, source }) => {
            assert_eq!(program, "fake-agent");
            assert_eq!(source.kind(), ErrorKind::Other);
        }
        _ => panic!("expected Spawn"),
    }
    match backend(FailAt::Writer).0.spawn(&agent(), size) {
        Err(PtyError::WriterInit(e)) => assert_eq!(e.kind(), ErrorKind::BrokenPipe),
        _ => panic!("expected WriterInit"),
    }
}

#[test]
fn spawn_passes_clamped_size_and_command() {
    let (backend, seen) = backend(FailAt::Nothing);
    let _session = backend
        .spawn(&agent(), PtySize { rows: 40000, cols: 80 })
        .expect("spawn failed");
    assert_eq!(seen.sizes.lock().unwrap()[0], (32767, 80));
    assert_eq!(*seen.argv.lock().unwrap(), vec!["fake-agent", "--flag"]);
}

#[test]
fn session_lifecycle_follows_the_table() {
    let (backend, seen) = backend(FailAt::Nothing);
    let mut session = backend.spawn(&agent(), PtySize { rows: 24, cols: 80 }).expect("spawn");

    // Running: writer once, reader and resize reach the master.
    assert!(session.take_writer().is_ok());
    assert!(matches!(session.take_writer(), Err(PtyError::WriterTaken)));
    assert!(session.reader().is_ok());
    session.resize(PtySize { rows: 30, cols: 100 }).expect("resize");

    let mut killer = session.killer();
    killer.kill().expect("kill before reap");
    assert_eq!(seen.kills.load(Ordering::SeqCst), 1);

    // Exited: the status passes through, a late kill is refused, resize
    // still applies.
    let status = session.wait().expect("wait");
    assert_eq!(status.code, 1);
    assert!(!status.success);
    assert!(matches!(killer.kill(), Err(PtyError::AlreadyReaped)));
    assert_eq!(seen.kills.load(Ordering::SeqCst), 1);
    session.resize(PtySize { rows: 25, cols: 90 }).expect("resize after exit");

    // Closed: idempotent close, every master operation reports Closed.
    let resizer = session.resizer();
    session.close().expect("close");
    session.close().expect("close is idempotent");
    assert!(matches!(session.reader(), Err(PtyError::Closed)));
    assert!(matches!(session.resize(PtySize { rows: 30, cols: 100 }), Err(PtyError::Closed)));
    assert!(matches!(resizer.resize(PtySize { rows: 30, cols: 100 }), Err(PtyError::Closed)));
    assert_eq!(
        *seen.sizes.lock().unwrap(),
        vec![(24, 80), (30, 100), (25, 90)]
    );
}

#[test]
fn try_wait_reaps_too() {
    let (backend, _seen) = backend(FailAt::Nothing);
    let mut session = backend.spawn(&agent(), PtySize { rows: 24, cols: 80 }).expect("spawn");
    let mut killer = session.killer();
    let status = session.try_wait().expect("try_wait").expect("exited");
    assert_eq!(status.code, 1);
    assert!(matches!(killer.kill(), Err(PtyError::AlreadyReaped)));
}

#[test]
fn master_results_map_to_typed_errors() {
    assert!(resize_result(Ok(())).is_ok());
    assert!(matches!(resize_result(Err(failure("resize"))), Err(PtyError::Resize(_))));
    assert_eq!(reader_result(Ok(5u8)).unwrap(), 5);
    assert!(matches!(reader_result::<u8>(Err(failure("clone"))), Err(PtyError::Reader(_))));
}

#[test]
fn resizer_made_after_close_answers_closed() {
    let (backend, seen) = backend(FailAt::Nothing);
    let mut session = backend.spawn(&agent(), PtySize { rows: 24, cols: 80 }).expect("spawn");
    session.close().expect("close");
    let resizer = session.resizer();
    assert!(matches!(resizer.resize(PtySize { rows: 30, cols: 100 }), Err(PtyError::Closed)));
    assert_eq!(*seen.sizes.lock().unwrap(), vec![(24, 80)]);
}

#[test]
fn running_child_is_reported_as_none() {
    let seen = Arc::new(Seen::default());
    let launcher = ScriptedLauncher {
        fail_at: FailAt::Nothing,
        seen,
        exit_code: 0,
        running: true,
        output: Vec::new(),
    };
    let backend = PortablePtyBackend { launcher };
    let mut session = backend.spawn(&agent(), PtySize { rows: 24, cols: 80 }).expect("spawn");
    assert!(session.try_wait().expect("try_wait").is_none());
    let mut killer = session.killer();
    assert!(killer.kill().is_ok(), "a running child is not reaped");
}

/// A scripted backend: the same launch steps as the real one, with the
/// operating-system side replaced by a script and a record of what it saw.
fn scripted_backend(
    exit_code: u32,
    running: bool,
    output: Vec<&'static [u8]>,
) -> (PortablePtyBackend<ScriptedLauncher>, Arc<Seen>) {
    let seen = Arc::new(Seen::default());
    let launcher =
        ScriptedLauncher { fail_at: FailAt::Nothing, seen: seen.clone(), exit_code, running, output };
    (PortablePtyBackend { launcher }, seen)
}

#[test]
fn fake_backend_honors_the_contract() {
    // Marker split across chunks on purpose.
    let (backend, seen) =
        scripted_backend(0, false, vec![&b"noise poc0-"[..], &b"marker tail"[..]]);
    let cmd = SpawnCommand { program: "fake-agent".into(), ..Default::default() };
    let mut session = backend.spawn(&cmd, PtySize { rows: 24, cols: 80 }).expect("spawn failed");
    session.resize(PtySize { rows: 30, cols: 100 }).expect("resize failed");

    let reader = session.reader().expect("reader failed");
    let mut output = Vec::new();
    let mut chunks = 0;
    pump_reader(reader, |c| {
        output.extend_from_slice(c);
        chunks += 1;
    });
    assert_eq!(chunks, 2, "chunk boundaries are kept");
    let marker = b"poc0-marker";
    assert!(output.windows(marker.len()).any(|w| w == marker), "marker not seen");

    drop(session.reader().expect("second reader clone failed"));
    let status = session.wait().expect("wait failed");
    assert!(status.success, "child should exit cleanly, got {status:?}");
    assert_eq!(status.code, 0);
    session.resize(PtySize { rows: 25, cols: 90 }).expect("resize after child exit must succeed");
    session.close().expect("close failed");

    assert_eq!(*seen.argv.lock().unwrap(), vec!["fake-agent"]);
    assert_eq!(*seen.sizes.lock().unwrap(), vec![(24, 80), (30, 100), (25, 90)]);
}

#[test]
fn fake_captures_input_and_kill_lifecycle() {
    let (backend, seen) = scripted_backend(1, true, Vec::new());
    let mut session = backend
        .spawn(&SpawnCommand::default(), PtySize { rows: 24, cols: 80 })
        .expect("spawn failed");

    let mut writer = session.take_writer().expect("take_writer failed");
    assert!(matches!(session.take_writer(), Err(PtyError::WriterTaken)));
    writer.write_all(b"do-something\r\n").expect("write failed");
    assert_eq!(writer, b"do-something\r\n");

    assert!(session.try_wait().expect("try_wait failed").is_none());
    let mut killer = session.killer();
    killer.kill().expect("kill failed");
    assert_eq!(seen.kills.load(Ordering::SeqCst), 1);
    let status = session.wait().expect("wait failed");
    assert_eq!(status.code, 1);
    assert!(!status.success);
    assert!(matches!(killer.kill(), Err(PtyError::AlreadyReaped)));
    assert_eq!(seen.kills.load(Ordering::SeqCst), 1, "a refused kill sends nothing");
}
