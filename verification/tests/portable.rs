use std::io::ErrorKind;
use std::path::PathBuf;

use tessmux_pty::{
    build_command, clamp_size, io_error_from_downcast, status_from, to_io, to_native_size, PtySize,
    ReapFlag, SpawnCommand, MAX_NATIVE_CELLS,
};

#[test]
fn native_size_is_clamped_to_signed_16_bit() {
    let n = to_native_size(PtySize { rows: 40000, cols: 120 });
    assert_eq!((n.rows, n.cols, n.pixel_width, n.pixel_height), (32767, 120, 0, 0));
    let n = to_native_size(PtySize { rows: 24, cols: u16::MAX });
    assert_eq!((n.rows, n.cols), (24, 32767));
    assert_eq!(clamp_size(PtySize { rows: 32767, cols: 32768 }), PtySize { rows: 32767, cols: 32767 });
    assert_eq!(MAX_NATIVE_CELLS, i16::MAX as u16);
}

#[test]
fn io_error_under_context_is_wrapped_whole() {
    let inner = anyhow::Error::from(std::io::Error::from(ErrorKind::BrokenPipe));
    let err = inner.context("outer");
    let shown = err.to_string();
    let io = to_io(err);
    assert_eq!(io.kind(), ErrorKind::Other);
    assert_eq!(io.to_string(), shown);
    assert!(io.get_ref().is_some());
}

#[test]
fn io_errors_keep_their_kind_through_to_io() {
    let err = anyhow::Error::from(std::io::Error::from(ErrorKind::BrokenPipe));
    assert_eq!(to_io(err).kind(), ErrorKind::BrokenPipe);
    let err = anyhow::Error::msg("not an io error");
    let io = to_io(err);
    assert_eq!(io.kind(), ErrorKind::Other);
    assert!(io.to_string().contains("not an io error"));
}

#[test]
fn downcast_result_is_recovered_or_wrapped() {
    let io = io_error_from_downcast(Ok(std::io::Error::from(ErrorKind::PermissionDenied)));
    assert_eq!(io.kind(), ErrorKind::PermissionDenied);
    let io = io_error_from_downcast(Err(anyhow::Error::msg("boom")));
    assert_eq!(io.kind(), ErrorKind::Other);
}

#[test]
fn command_is_program_then_args_with_cwd_and_env() {
    let cmd = SpawnCommand {
        program: "sh".into(),
        args: vec!["-c".into(), "echo hi".into()],
        cwd: Some(PathBuf::from("/tmp")),
        env: vec![("TESSMUX_A".into(), "1".into()), ("TESSMUX_A".into(), "2".into())],
    };
    let b = build_command(&cmd);
    let argv: Vec<String> = b.get_argv().iter().map(|s| s.to_string_lossy().into_owned()).collect();
    assert_eq!(argv, vec!["sh", "-c", "echo hi"]);
    assert_eq!(b.get_cwd().map(|c| c.to_string_lossy().into_owned()), Some("/tmp".to_string()));
    assert_eq!(b.get_env("TESSMUX_A").and_then(|v| v.to_str()), Some("2"));
    let extra: Vec<(String, String)> = b
        .iter_extra_env_as_str()
        .map(|(k, v)| (k.to_string(), v.to_string()))
        .collect();
    assert_eq!(extra, vec![("TESSMUX_A".to_string(), "2".to_string())]);
}

#[test]
fn command_without_cwd_leaves_it_unset() {
    let cmd = SpawnCommand { program: "true".into(), ..Default::default() };
    let b = build_command(&cmd);
    assert_eq!(b.get_argv().len(), 1);
    assert!(b.get_cwd().is_none());
}

#[test]
fn status_conversion_latches_the_reap_flag() {
    let flag = ReapFlag::new();
    let s = status_from(&flag, &portable_pty::ExitStatus::with_exit_code(7));
    assert_eq!(s.code, 7);
    assert!(!s.success);
    assert!(flag.check().is_err());
    let s = status_from(&ReapFlag::new(), &portable_pty::ExitStatus::with_exit_code(0));
    assert_eq!(s.code, 0);
    assert!(s.success);
}
