//! The passthrough front end's pure decisions: command-line parsing and the
//! kill-byte split of forwarded input.

use vstd::prelude::*;
use crate::backend::{PtySize, SpawnCommand};

verus! {

/// Ctrl+] — telnet-style escape byte: kill the child instead of forwarding.
pub const KILL_BYTE: u8 = 0x1d;

/// Whether `s` holds no kill byte.
pub open spec fn kill_free(s: Seq<u8>) -> bool {
    forall|i: int| 0 <= i < s.len() ==> s[i] != KILL_BYTE
}

/// Splits an input chunk at the first [`KILL_BYTE`]: returns the bytes to
/// forward to the child and whether the kill byte was present. Bytes after
/// the kill byte are discarded — the session is going down.
pub fn split_at_kill_byte(chunk: &[u8]) -> (r: (&[u8], bool))
    ensures
        kill_free(r.0@),
        r.1 <==> !kill_free(chunk@),
        !r.1 ==> r.0@ == chunk@,
        r.1 ==> r.0@.len() < chunk@.len() && chunk@[r.0@.len() as int] == KILL_BYTE
            && r.0@ == chunk@.take(r.0@.len() as int),
{
    let n = chunk.len();
    let mut i: usize = 0;
    while i < n
        invariant
            n == chunk@.len(),
            i <= n,
            kill_free(chunk@.take(i as int)),
        decreases n - i,
    {
        if chunk[i] == KILL_BYTE {
            let (head, _) = chunk.split_at(i);
            return (head, true);
        }
        assert(chunk@.take(i as int + 1) =~= chunk@.take(i as int).push(chunk@[i as int]));
        i = i + 1;
    }
    assert(chunk@.take(n as int) =~= chunk@);
    (chunk, false)
}

/// What the command line asks for.
pub enum Cli {
    Run(SpawnCommand),
    Help,
    Version,
}

/// Whether an argument is one of the help flags.
pub open spec fn is_help_flag(a: Seq<char>) -> bool {
    a == "--help"@ || a == "-h"@
}

/// Whether an argument is one of the version flags.
pub open spec fn is_version_flag(a: Seq<char>) -> bool {
    a == "--version"@ || a == "-V"@
}

/// Whether `c` runs `program` with `args`, the parent's working directory
/// and no extra environment.
pub open spec fn runs(c: SpawnCommand, program: Seq<char>, args: Seq<Seq<char>>) -> bool {
    &&& c.program@ == program
    &&& c.args@.map_values(|a: String| a@) == args
    &&& c.cwd is None
    &&& c.env@.len() == 0
}

/// `poc0-pty [program [args...]]`; defaults to an interactive `pwsh`.
/// `--help`/`--version` (and `-h`/`-V`) are intercepted — everything else is
/// a program name, so they never reach the spawn path.
pub fn parse_args(args: Vec<String>) -> (r: Cli)
    ensures
        args@.len() == 0 ==> (r matches Cli::Run(c) && runs(c, "pwsh"@, Seq::empty())),
        args@.len() > 0 && is_help_flag(args@[0]@) ==> r is Help,
        args@.len() > 0 && is_version_flag(args@[0]@) ==> r is Version,
        args@.len() > 0 && !is_help_flag(args@[0]@) && !is_version_flag(args@[0]@) ==> (r matches Cli::Run(c)
            && runs(c, args@[0]@, args@.skip(1).map_values(|a: String| a@))),
{
    proof {
        reveal_strlit("--help");
        reveal_strlit("-h");
        reveal_strlit("--version");
        reveal_strlit("-V");
        assert("--help"@.len() == 6 && "-h"@.len() == 2 && "--version"@.len() == 9);
        assert("-h"@[1] != "-V"@[1]);
    }
    let mut args = args;
    if args.len() == 0 {
        let c = SpawnCommand { program: "pwsh".to_owned(), args: Vec::new(), cwd: None, env: Vec::new() };
        assert(c.args@.map_values(|a: String| a@) =~= Seq::<Seq<char>>::empty());
        return Cli::Run(c);
    }
    let ghost original = args@;
    let first = args.remove(0);
    if first == "--help".to_owned() || first == "-h".to_owned() {
        return Cli::Help;
    }
    if first == "--version".to_owned() || first == "-V".to_owned() {
        return Cli::Version;
    }
    assert(args@ =~= original.skip(1));
    Cli::Run(SpawnCommand { program: first, args, cwd: None, env: Vec::new() })
}

/// The size a fresh session starts with, from the console's `(cols, rows)`:
/// a degenerate console (either dimension zero, as on some headless ptys)
/// gets 24 rows by 80 columns instead of a 0-sized terminal.
pub fn initial_size(cols: u16, rows: u16) -> (r: PtySize)
    ensures
        rows == 0 || cols == 0 ==> r == (PtySize { rows: 24, cols: 80 }),
        rows != 0 && cols != 0 ==> r == (PtySize { rows, cols }),
{
    if rows == 0 || cols == 0 {
        PtySize { rows: 24, cols: 80 }
    } else {
        PtySize { rows, cols }
    }
}

/// The size to push to the PTY when the console measures `now` (as
/// `(cols, rows)`) after `last`: `None` while it is unchanged.
pub fn resize_target(last: (u16, u16), now: (u16, u16)) -> (r: Option<PtySize>)
    ensures
        now == last ==> r is None,
        now != last ==> r == Some(PtySize { rows: now.1, cols: now.0 }),
{
    if now.0 == last.0 && now.1 == last.1 {
        None
    } else {
        Some(PtySize { rows: now.1, cols: now.0 })
    }
}

/// What the input forwarder does after handling one chunk.
#[derive(Debug, Clone, Copy, PartialEq, Eq, Structural)]
pub enum InputStep {
    /// Kill the child, then stop forwarding.
    KillAndStop,
    /// Stop forwarding (the child's input is broken).
    Stop,
    /// Read the next chunk.
    Continue,
}

/// The forwarder's next step, given whether the chunk held the kill byte
/// and whether forwarding its prefix failed. The kill fires even when the
/// write failed: a dead child breaks the pipe, but the user still asked.
pub fn input_step(kill: bool, write_failed: bool) -> (r: InputStep)
    ensures
        kill ==> r == InputStep::KillAndStop,
        !kill && write_failed ==> r == InputStep::Stop,
        !kill && !write_failed ==> r == InputStep::Continue,
{
    if kill {
        InputStep::KillAndStop
    } else if write_failed {
        InputStep::Stop
    } else {
        InputStep::Continue
    }
}

} // verus!
