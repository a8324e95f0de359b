# tessmux_pty

The PTY boundary of tessmux, verified with Verus.

- `src/` — the library: boundary value types (`PtySize`, `SpawnCommand`,
  `PtyExitStatus`), the typed `PtyError`, the session traits with their
  lifecycle contracts, the `portable-pty` backend, session, killer and
  resizer (verified against those contracts, generic over the
  operating-system steps, which come through the `PtyLauncher`,
  `PtyDriver`, `MasterResize` and `ChildKill` traits), the reap flag and guarded kill, the output pump, the `portable-pty` conversions (size clamping,
  error flattening, command building, exit-status conversion) and the front
  end's decisions (argument parsing, kill-byte split, resize and input steps).
- `app/` — the `poc0-pty` program and the operating-system steps (opening
  the PTY, spawning, the master and child handles) the library drives.
- `tests/` — runtime tests of the library. `tests/lifecycle.rs` drives the
  backend through a scripted operating-system side (the swappable fake
  backend: it records sizes, argv and kills); `tests/native.rs` drives it
  through the platform's real PTY.
