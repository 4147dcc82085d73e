# worktrunk-wip

`wt wip` — append-only cross-machine WIP sync for worktrunk: `wt wip push`
stages, makes a `wip @ <hostname> — <timestamp>` checkpoint commit and
pushes (never force-pushing); `wt wip pull` fetches and fast-forwards
(refusing divergence); `wt wip get <branch>` finds or provisions the
branch's worktree with `wt switch` and fast-forwards it.

## Layout

- `src/` — the verified library. Each verb is a step machine
  (`push.rs`, `pull.rs`, `get.rs`): given the answer to its last request
  (`protocol.rs`), it says what to do next — run a git or `wt` command,
  show a line, finish with a result, or stop with an error. Every step is
  specified exactly by a spec transition function, and `laws.rs` proves the
  safety model over those functions: every git command any verb can issue
  is append-only, refusals name the way out, outcomes match their counts,
  and every run ends. `runs.rs` states laws of whole runs over any
  sequence of replies (what a finished pull or get did, and the order in
  which `get` runs `wt`). `text.rs` reads git's output (`str::trim`,
  `usize::from_str`), `config.rs` resolves the stage mode (flag → project
  `[wip] stage` → user `[wip] stage` → `all`), `util.rs` holds the remote
  fallback and the wip message.
- `app/` — the `wt-wip` command line and the driver that performs the
  requested work through worktrunk's `Repository`.
- `tests/` — scenarios driven against a scripted repository, and the pure
  functions on concrete values.

## Dependencies

`vergen`, `vergen-gitcl` and `vergen-lib` are not used by this crate's
code. They are pinned to 10.0.0 because worktrunk 0.67 builds with
`vergen-gitcl` (a build dependency, `^10.0.0`), whose newest release needs a
newer rustc than the toolchain this crate is built with; the pins make
cargo choose the release that builds.
