//! Writing files so that no reader sees half of one.

use vstd::prelude::*;

use crate::jj_parse::or_empty;
use crate::paths::{
    name_or_empty, name_or_empty_spec, parent, parent_spec, path_join, path_join_spec,
};
use crate::search::{dec_spec, dec_usize, parse_usize, parse_usize_spec};
use crate::tape::{
    agrees, ask, ask_spec, at, at_spec, bind, failure, failure_spec, fetch, fetch_spec, holds,
    holds_spec, need, need_spec, request, request_spec, Act, Failure, FailureV, Kind, Out, ReplyV,
    Stop, Tape, Trace,
};
use crate::text::{args1, args2, cat2, cat4, same};

verus! {

#[derive(Clone, Copy, PartialEq, Eq, Structural, Debug)]
pub enum WriteOutcome {
    Created,
    Updated,
    Unchanged,
}

impl DeepView for WriteOutcome {
    type V = WriteOutcome;

    open spec fn deep_view(&self) -> WriteOutcome {
        *self
    }
}

/// The file that a path leads to.
#[verifier::opaque]
pub open spec fn real_target_spec(t: Trace, path: Seq<char>) -> Out<Seq<char>> {
    bind(
        holds_spec(t, at_spec(Act::Exists, path)),
        |there: bool, t: Trace|
            if there {
                need_spec(t, at_spec(Act::Canonical, path), "failed to canonicalize "@ + path)
            } else {
                Out::Got(path, t)
            },
    )
}

fn real_target(tape: &mut Tape, path: &str) -> (r: Result<String, Stop>)
    ensures
        agrees(r, final(tape)@, real_target_spec(old(tape)@, path@)),
{
    reveal(real_target_spec);
    if holds(tape, at(Act::Exists, path))? {
        need(tape, at(Act::Canonical, path), &cat2("failed to canonicalize ", path))
    } else {
        Ok(path.to_string())
    }
}

/// The permission bits for a file: those that it has, else those of a new one.
pub open spec fn mode_of(reply: Option<Seq<char>>) -> nat {
    match reply {
        Some(text) => match parse_usize_spec(text) {
            Some(m) => m as nat % 4096,
            None => 420,
        },
        None => 420,
    }
}

#[verifier::opaque]
pub open spec fn file_mode_spec(t: Trace, target: Seq<char>) -> Out<usize> {
    bind(
        fetch_spec(t, at_spec(Act::FileMode, target)),
        |m: Option<Seq<char>>, t: Trace| Out::Got(mode_of(m) as usize, t),
    )
}

fn file_mode(tape: &mut Tape, target: &str) -> (r: Result<usize, Stop>)
    ensures
        agrees(r, final(tape)@, file_mode_spec(old(tape)@, target@)),
{
    reveal(file_mode_spec);
    match fetch(tape, at(Act::FileMode, target))? {
        Some(text) => match parse_usize(&text) {
            Some(m) => Ok(m % 4096),
            None => Ok(420),
        },
        None => Ok(420),
    }
}

#[verifier::opaque]
pub open spec fn ready_dir_spec(t: Trace, dir: Seq<char>) -> Out<()> {
    bind(
        holds_spec(t, at_spec(Act::Exists, dir)),
        |there: bool, t: Trace|
            if there {
                Out::Got((), t)
            } else {
                bind(
                    need_spec(t, at_spec(Act::MakeDirs, dir), "failed to create "@ + dir),
                    |s: Seq<char>, t: Trace| Out::Got((), t),
                )
            },
    )
}

/// Creates a directory unless it is there.
pub fn ready_dir(tape: &mut Tape, dir: &str) -> (r: Result<(), Stop>)
    ensures
        agrees(r, final(tape)@, ready_dir_spec(old(tape)@, dir@)),
{
    reveal(ready_dir_spec);
    if !holds(tape, at(Act::Exists, dir))? {
        let _ = need(tape, at(Act::MakeDirs, dir), &cat2("failed to create ", dir))?;
    }
    Ok(())
}

/// The name of the temporary file for `target`.
pub open spec fn temp_name(target: Seq<char>, pid: Option<Seq<char>>) -> Seq<char> {
    "."@ + name_or_empty_spec(target) + ".ji.tmp."@ + or_empty(pid)
}

/// Where the temporary file goes; one that was left behind is deleted.
#[verifier::opaque]
pub open spec fn temp_path_spec(t: Trace, target: Seq<char>, dir: Seq<char>) -> Out<Seq<char>> {
    bind(
        fetch_spec(t, at_spec(Act::ProcessId, ""@)),
        |pid: Option<Seq<char>>, t: Trace|
            {
                let tmp = path_join_spec(dir, temp_name(target, pid));
                bind(
                    holds_spec(t, at_spec(Act::Exists, tmp)),
                    |there: bool, t: Trace|
                        if there {
                            bind(
                                ask_spec(t, at_spec(Act::RemoveFile, tmp)),
                                |r: ReplyV, t: Trace| Out::Got(tmp, t),
                            )
                        } else {
                            Out::Got(tmp, t)
                        },
                )
            },
    )
}

fn temp_path(tape: &mut Tape, target: &str, dir: &str) -> (r: Result<String, Stop>)
    ensures
        agrees(r, final(tape)@, temp_path_spec(old(tape)@, target@, dir@)),
{
    reveal(temp_path_spec);
    let pid = match fetch(tape, at(Act::ProcessId, ""))? {
        Some(s) => s,
        None => {
            let s = String::new();
            assert(s@ =~= Seq::<char>::empty());
            s
        },
    };
    let name = cat4(".", &name_or_empty(target), ".ji.tmp.", &pid);
    let tmp = path_join(dir, &name);
    if holds(tape, at(Act::Exists, &tmp))? {
        let _ = ask(tape, at(Act::RemoveFile, &tmp))?;
    }
    Ok(tmp)
}

#[verifier::opaque]
pub open spec fn fill_temp_spec(
    t: Trace,
    tmp: Seq<char>,
    contents: Seq<char>,
    mode: usize,
) -> Out<()> {
    bind(
        ask_spec(t, request_spec(Act::CreateFile, tmp, seq![contents, dec_spec(mode as nat)])),
        |r: ReplyV, t: Trace|
            match r.kind {
                Kind::Done => Out::Got((), t),
                Kind::Refused => Out::Fail(
                    FailureV { chain: seq!["failed to create "@ + tmp, r.err], command: None },
                    t,
                ),
                _ => Out::Fail(
                    FailureV { chain: seq!["failed to write "@ + tmp, r.err], command: None },
                    t,
                ),
            },
    )
}

fn fill_temp(tape: &mut Tape, tmp: &str, contents: &str, mode: usize) -> (r: Result<(), Stop>)
    ensures
        agrees(r, final(tape)@, fill_temp_spec(old(tape)@, tmp@, contents@, mode)),
{
    reveal(fill_temp_spec);
    let r = ask(tape, request(Act::CreateFile, tmp, args2(contents, &dec_usize(mode))))?;
    match r.kind {
        Kind::Done => Ok(()),
        Kind::Refused => {
            let msg = cat2("failed to create ", tmp);
            Err(Stop::Fail(Failure { chain: args2(&msg, &r.err), command: None }))
        },
        _ => {
            let msg = cat2("failed to write ", tmp);
            Err(Stop::Fail(Failure { chain: args2(&msg, &r.err), command: None }))
        },
    }
}

/// Writes a temporary file beside the target and renames it.
#[verifier::opaque]
pub open spec fn swap_in_spec(
    t: Trace,
    target: Seq<char>,
    dir: Seq<char>,
    contents: Seq<char>,
    mode: usize,
) -> Out<WriteOutcome> {
    bind(
        temp_path_spec(t, target, dir),
        |tmp: Seq<char>, t: Trace|
            bind(
                holds_spec(t, at_spec(Act::Exists, target)),
                |there: bool, t: Trace|
                    bind(
                        fill_temp_spec(t, tmp, contents, mode),
                        |u: (), t: Trace|
                            bind(
                                need_spec(
                                    t,
                                    request_spec(Act::Rename, tmp, seq![target]),
                                    "failed to rename "@ + tmp + " -> "@ + target,
                                ),
                                |s: Seq<char>, t: Trace|
                                    bind(
                                        ask_spec(t, at_spec(Act::SyncDir, dir)),
                                        |r: ReplyV, t: Trace|
                                            Out::Got(
                                                if there {
                                                    WriteOutcome::Updated
                                                } else {
                                                    WriteOutcome::Created
                                                },
                                                t,
                                            ),
                                    ),
                            ),
                    ),
            ),
    )
}

fn swap_in(
    tape: &mut Tape,
    target: &str,
    dir: &str,
    contents: &str,
    mode: usize,
) -> (r: Result<WriteOutcome, Stop>)
    ensures
        agrees(r, final(tape)@, swap_in_spec(old(tape)@, target@, dir@, contents@, mode)),
{
    reveal(swap_in_spec);
    let tmp = temp_path(tape, target, dir)?;
    let there = holds(tape, at(Act::Exists, target))?;
    fill_temp(tape, &tmp, contents, mode)?;
    let _ = need(
        tape,
        request(Act::Rename, &tmp, args1(target)),
        &cat4("failed to rename ", &tmp, " -> ", target),
    )?;
    let _ = ask(tape, at(Act::SyncDir, dir))?;
    if there {
        Ok(WriteOutcome::Updated)
    } else {
        Ok(WriteOutcome::Created)
    }
}

#[verifier::opaque]
pub open spec fn write_atomic_spec(
    t: Trace,
    path: Seq<char>,
    contents: Seq<char>,
) -> Out<WriteOutcome> {
    bind(
        real_target_spec(t, path),
        |target: Seq<char>, t: Trace|
            bind(
                fetch_spec(t, at_spec(Act::ReadFile, target)),
                |existing: Option<Seq<char>>, t: Trace|
                    if existing == Some(contents) {
                        Out::Got(WriteOutcome::Unchanged, t)
                    } else {
                        bind(
                            file_mode_spec(t, target),
                            |mode: usize, t: Trace|
                                match parent_spec(target) {
                                    None => Out::Fail(failure_spec(target + " has no parent"@), t),
                                    Some(dir) => bind(
                                        ready_dir_spec(t, dir),
                                        |u: (), t: Trace|
                                            swap_in_spec(t, target, dir, contents, mode),
                                    ),
                                },
                        )
                    },
            ),
    )
}

/// Puts `contents` into the file at `path`, through a link if it is one, and keeps its permissions.
/// A file that holds them already is left alone.
pub fn write_atomic(tape: &mut Tape, path: &str, contents: &str) -> (r: Result<WriteOutcome, Stop>)
    ensures
        agrees(r, final(tape)@, write_atomic_spec(old(tape)@, path@, contents@)),
{
    reveal(write_atomic_spec);
    let target = real_target(tape, path)?;
    if let Some(existing) = fetch(tape, at(Act::ReadFile, &target))? {
        if same(&existing, contents) {
            return Ok(WriteOutcome::Unchanged);
        }
    }
    let mode = file_mode(tape, &target)?;
    match parent(&target) {
        None => Err(Stop::Fail(failure(cat2(&target, " has no parent")))),
        Some(dir) => {
            ready_dir(tape, &dir)?;
            swap_in(tape, &target, &dir, contents, mode)
        },
    }
}

/// A file that holds the contents already is not written.
pub proof fn law_same_contents_write_nothing(t: Trace, path: Seq<char>, contents: Seq<char>)
    requires
        t.len() >= 3,
        t[0].kind == Kind::Done,
        t[1].kind == Kind::Done,
        t[2].kind == Kind::Done,
        t[2].text == contents,
    ensures
        write_atomic_spec(t, path, contents) == Out::Got(WriteOutcome::Unchanged, t.skip(3)),
{
    reveal(write_atomic_spec);
    reveal(real_target_spec);
    assert(t.drop_first().drop_first().drop_first() =~= t.skip(3));
}

} // verus!
