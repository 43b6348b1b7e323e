# ji

`ji` manages [Jujutsu](https://jj-vcs.github.io) workspaces: it creates, switches, syncs, merges
and closes them, and integrates itself into the shell. Its core is a library whose functions state
their behaviour in Verus contracts and are proved against them.

## Layout

- `src/` is the library. Nothing in it touches the outside world.
  - `tape.rs` holds the one idea that the rest is built on. A command such as `close` or `install`
    is a function of the replies that the outside world has given so far: run on a tape of replies
    it finishes, fails, or stops with the next request. Its contract says which, for every tape,
    by a spec function of the same name with `_spec` behind it.
  - `commands/`, `operations.rs`, `jj_utils.rs`, `jujutsu.rs`, `revisions.rs`, `workspaces.rs` and
    `stale.rs` hold the workspace commands and the jj calls that they are made of.
  - `shell/` detects shells and installs, checks and removes the shell integration.
  - `hooks.rs`, `templates.rs`, `finder_xattrs.rs`, `action_history.rs`, `completion.rs`,
    `config.rs`, `text_utils.rs` and `run.rs` hold what their names say.
  - `replay.rs` proves of the procedures behind a command that a run on fewer replies asks what the
    whole run asked. What must have happened during a run is stated through it.
  - Proof functions named `law_..` state what holds across functions. `infallible.rs`,
    `commands/stays_open.rs`, `commands/keeps_revisions.rs` and `shell/read_only.rs` hold those
    that speak of every run of a command.
- `tests/` runs the library against worlds made of scripted replies.
- `app/` is the program: it parses the command line, performs the requests and prints.

The hash, width, segmentation, version and time crates are called from `src/` through functions whose
doc comments say what is taken from them without proof.
