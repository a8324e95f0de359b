//! The PTY boundary of tessmux: value types, the typed error, the session
//! traits, and the decision logic of the portable backend and the
//! passthrough front end, with their contracts.

mod backend;
mod cli;
mod error;
mod portable;
mod pump;
mod session;

pub use backend::{PtyBackend, PtyExitStatus, PtySize, SpawnCommand};
pub use cli::{
    initial_size, input_step, parse_args, resize_target, split_at_kill_byte, Cli, InputStep, KILL_BYTE,
};
pub use error::PtyError;
pub use pump::{
    classify_read, law_slice_pump_delivers_input, pump_reader, PtyRead, PumpRead, PumpRecord,
    ReadEvent, PUMP_CHUNK_LEN,
};
pub use session::{
    guarded_kill, invert_terminate_result, kill_result, kill_unless_reaped, law_writer_single_use,
    reap_verdict,
    take_once, ChildKill, PtyKiller, PtyResizer, PtySession, ReapFlag, ReapWatch,
};
pub use portable::{
    build_command, clamp_size, io_error_from_downcast, law_detached_resize_agrees_with_session,
    law_reap_reports_the_raw_status,
    reader_result, resize_result, status_from,
    to_io, to_native_size, MasterResize, PortablePtyBackend, PortablePtyKiller,
    PortablePtyResizer, PortablePtySession, PtyDriver, PtyLauncher, MAX_NATIVE_CELLS,
};
