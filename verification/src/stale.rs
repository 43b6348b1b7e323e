//! Working copies that jj has left behind, and how their files differ from what jj expects.

use vstd::prelude::*;

use crate::content::{blake3_hash, content_hash, same_bytes};
use crate::jj_parse::{full_lines, full_lines_spec};
use crate::jj_run::{jj, jj_output, jj_output_spec, jj_spec, utf8, utf8_spec};
use crate::order::{is_sorted, lemma_sort_texts, sort_texts, sort_texts_spec, text_order};
use crate::paths::{path_join, path_join_spec};
use crate::search::{contains, contains_spec, dec_spec, dec_usize};
use crate::tape::{
    agrees, agrees_or, ask, ask_spec, at, at_spec, attempt, attempt_spec, bind, each, failure,
    failure_spec, holds, holds_spec, labelled, labelled_spec, lemma_each_step, list, list_spec,
    outermost_spec, tell, tell_spec, Act, Failure, FailureV, Kind, Out, ReplyV, Stop, Tape, Trace,
};
use crate::text::{among, args2, args4, args5, cat2, cat4, chain, empty, same};

verus! {

/// Does `msg` say that a working copy is stale?
pub open spec fn says_stale(msg: Seq<char>) -> bool {
    ||| contains_spec(msg, "The working copy is stale"@)
    ||| contains_spec(msg, "Could not read working copy's operation"@)
}

fn stale_text(msg: &str) -> (r: bool)
    ensures
        r == says_stale(msg@),
{
    contains(msg, "The working copy is stale") || contains(
        msg,
        "Could not read working copy's operation",
    )
}

/// Is a stale working copy the reason of `err`?
pub fn is_stale_error(err: &Failure) -> (r: bool)
    ensures
        r == says_stale(outermost_spec(err.deep_view())),
{
    stale_text(&err.outermost())
}

pub open spec fn status_args() -> Seq<Seq<char>> {
    seq!["status"@, "--no-pager"@, "--color"@, "never"@, "--quiet"@]
}

fn status_argv() -> (r: Vec<String>)
    ensures
        r.deep_view() == status_args(),
{
    args5("status", "--no-pager", "--color", "never", "--quiet")
}

#[verifier::opaque]
pub open spec fn is_working_copy_stale_spec(t: Trace, repo: Seq<char>) -> Out<bool> {
    bind(
        ask_spec(t, labelled_spec(Act::JjRepoLive, repo, status_args(), "status (stale check)"@)),
        |r: ReplyV, t: Trace| Out::Got(r.kind == Kind::Nonzero && says_stale(r.err), t),
    )
}

/// Is the working copy of the repository stale?
pub fn is_working_copy_stale(tape: &mut Tape, repo: &str) -> (r: Result<bool, Stop>)
    ensures
        agrees(r, final(tape)@, is_working_copy_stale_spec(old(tape)@, repo@)),
{
    reveal(is_working_copy_stale_spec);
    let q = labelled(Act::JjRepoLive, repo, status_argv(), "status (stale check)");
    let r = ask(tape, q)?;
    Ok(r.kind == Kind::Nonzero && stale_text(&r.err))
}

#[verifier::opaque]
pub open spec fn update_stale_spec(t: Trace, repo: Seq<char>) -> Out<Seq<char>> {
    jj_spec(t, Act::JjRepoLive, repo, seq!["workspace"@, "update-stale"@])
}

/// Brings the stale working copy of the repository up to date.
pub fn update_stale(tape: &mut Tape, repo: &str) -> (r: Result<String, Stop>)
    ensures
        agrees(r, final(tape)@, update_stale_spec(old(tape)@, repo@)),
{
    reveal(update_stale_spec);
    jj(tape, Act::JjRepoLive, repo, args2("workspace", "update-stale"))
}

#[verifier::opaque]
pub open spec fn is_workspace_stale_spec(t: Trace, ws_path: Seq<char>) -> Out<bool> {
    bind(
        holds_spec(t, at_spec(Act::Exists, ws_path)),
        |there: bool, t: Trace|
            if !there {
                Out::Got(false, t)
            } else {
                bind(
                    ask_spec(
                        t,
                        labelled_spec(
                            Act::JjWsLive,
                            ws_path,
                            status_args(),
                            "status (workspace stale check)"@,
                        ),
                    ),
                    |r: ReplyV, t: Trace|
                        Out::Got(r.kind == Kind::Nonzero && says_stale(r.err), t),
                )
            },
    )
}

/// Is the working copy of a workspace stale? The live status also captures its pending edits.
pub fn is_workspace_stale(tape: &mut Tape, ws_path: &str) -> (r: Result<bool, Stop>)
    ensures
        agrees(r, final(tape)@, is_workspace_stale_spec(old(tape)@, ws_path@)),
{
    reveal(is_workspace_stale_spec);
    if !holds(tape, at(Act::Exists, ws_path))? {
        return Ok(false);
    }
    let q = labelled(Act::JjWsLive, ws_path, status_argv(), "status (workspace stale check)");
    let r = ask(tape, q)?;
    Ok(r.kind == Kind::Nonzero && stale_text(&r.err))
}

#[verifier::opaque]
pub open spec fn update_workspace_stale_spec(t: Trace, ws_path: Seq<char>) -> Out<Seq<char>> {
    bind(
        holds_spec(t, at_spec(Act::Exists, ws_path)),
        |there: bool, t: Trace|
            if !there {
                Out::Fail(failure_spec("workspace directory missing: "@ + ws_path), t)
            } else {
                jj_spec(t, Act::JjWsLive, ws_path, seq!["workspace"@, "update-stale"@])
            },
    )
}

/// Brings the stale working copy of a workspace up to date.
pub fn update_workspace_stale(tape: &mut Tape, ws_path: &str) -> (r: Result<String, Stop>)
    ensures
        agrees(r, final(tape)@, update_workspace_stale_spec(old(tape)@, ws_path@)),
{
    reveal(update_workspace_stale_spec);
    if !holds(tape, at(Act::Exists, ws_path))? {
        return Err(Stop::Fail(failure(cat2("workspace directory missing: ", ws_path))));
    }
    jj(tape, Act::JjWsLive, ws_path, args2("workspace", "update-stale"))
}

/// Is there a stale working copy at `path`?
#[verifier::opaque]
pub open spec fn stale_here_spec(t: Trace, path: Seq<char>) -> Out<bool> {
    if path.len() == 0 {
        Out::Got(false, t)
    } else {
        bind(
            holds_spec(t, at_spec(Act::Exists, path)),
            |there: bool, t: Trace|
                if there {
                    is_workspace_stale_spec(t, path)
                } else {
                    Out::Got(false, t)
                },
        )
    }
}

fn stale_here(tape: &mut Tape, path: &str) -> (r: Result<bool, Stop>)
    ensures
        agrees(r, final(tape)@, stale_here_spec(old(tape)@, path@)),
{
    reveal(stale_here_spec);
    if empty(path) {
        return Ok(false);
    }
    if !holds(tape, at(Act::Exists, path))? {
        return Ok(false);
    }
    is_workspace_stale(tape, path)
}

pub open spec fn stale_step() -> spec_fn(Trace, Seq<Seq<char>>, (Seq<char>, Seq<char>)) -> Out<
    Seq<Seq<char>>,
> {
    |t: Trace, acc: Seq<Seq<char>>, w: (Seq<char>, Seq<char>)|
        bind(
            stale_here_spec(t, w.1),
            |stale: bool, t: Trace|
                Out::Got(
                    if stale {
                        acc.push(w.0)
                    } else {
                        acc
                    },
                    t,
                ),
        )
}

#[verifier::opaque]
pub open spec fn stale_workspace_names_spec(
    t: Trace,
    workspaces: Seq<(Seq<char>, Seq<char>)>,
) -> Out<Seq<Seq<char>>> {
    each(t, workspaces, Seq::<Seq<char>>::empty(), stale_step())
}

/// The names of the workspaces whose working copy is stale.
pub fn stale_workspace_names(
    tape: &mut Tape,
    workspaces: &Vec<(String, String)>,
) -> (r: Result<Vec<String>, Stop>)
    ensures
        agrees(r, final(tape)@, stale_workspace_names_spec(old(tape)@, workspaces.deep_view())),
{
    reveal(stale_workspace_names_spec);
    let ghost t0 = tape@;
    let ghost all = workspaces.deep_view();
    let ghost step = stale_step();
    let mut out: Vec<String> = Vec::new();
    assert(out.deep_view() =~= Seq::<Seq<char>>::empty());
    assert(all.skip(0) =~= all);
    for i in 0..workspaces.len()
        invariant
            t0 == old(tape)@,
            all == workspaces.deep_view(),
            step == stale_step(),
            each(t0, all, Seq::<Seq<char>>::empty(), step) == each(
                tape@,
                all.skip(i as int),
                out.deep_view(),
                step,
            ),
            stale_workspace_names_spec(t0, all) == each(t0, all, Seq::<Seq<char>>::empty(), step),
    {
        proof {
            lemma_each_step(all, i as int);
        }
        assert(all[i as int] == (workspaces@[i as int].0@, workspaces@[i as int].1@));
        let ghost before = out.deep_view();
        if stale_here(tape, &workspaces[i].1)? {
            out.push(workspaces[i].0.clone());
            assert(out.deep_view() =~= before.push(all[i as int].0));
        }
    }
    Ok(out)
}

// ---------------------------------------------------------------------------
// Differences
// ---------------------------------------------------------------------------

/// How the files on disk differ from what jj expects in the working-copy commit.
#[derive(Debug)]
pub struct StaleDiff {
    /// On disk with another content.
    pub modified: Vec<String>,
    /// On disk, unknown to jj.
    pub disk_only: Vec<String>,
    /// Expected by jj, missing on disk.
    pub jj_only: Vec<String>,
}

pub struct StaleDiffV {
    pub modified: Seq<Seq<char>>,
    pub disk_only: Seq<Seq<char>>,
    pub jj_only: Seq<Seq<char>>,
}

impl DeepView for StaleDiff {
    type V = StaleDiffV;

    open spec fn deep_view(&self) -> StaleDiffV {
        StaleDiffV {
            modified: self.modified.deep_view(),
            disk_only: self.disk_only.deep_view(),
            jj_only: self.jj_only.deep_view(),
        }
    }
}

pub open spec fn diff_summary_spec(d: StaleDiffV) -> Seq<char> {
    dec_spec(d.modified.len()) + " modified, "@ + dec_spec(d.disk_only.len())
        + " added on disk, "@ + dec_spec(d.jj_only.len()) + " missing"@
}

impl StaleDiff {
    /// The counts in one line.
    pub fn summary(&self) -> (r: String)
        ensures
            r@ == diff_summary_spec(self.deep_view()),
    {
        let head = cat4(
            &dec_usize(self.modified.len()),
            " modified, ",
            &dec_usize(self.disk_only.len()),
            " added on disk, ",
        );
        assert(self.deep_view().modified.len() == self.modified@.len());
        assert(self.deep_view().disk_only.len() == self.disk_only@.len());
        assert(self.deep_view().jj_only.len() == self.jj_only@.len());
        let tail = cat2(&dec_usize(self.jj_only.len()), " missing");
        let r = cat2(&head, &tail);
        assert(r@ =~= diff_summary_spec(self.deep_view()));
        r
    }
}

/// Progress of a comparison that runs in the background.
#[derive(Debug)]
pub enum StaleDiffMsg {
    /// The number of files to check.
    Total(usize),
    /// The number of files checked so far.
    Checked(usize),
    /// The comparison is over.
    Done(Result<StaleDiff, Failure>),
}

/// What jj and the disk say of one tracked file.
#[derive(Debug)]
pub enum Found {
    Same,
    Modified,
    Missing,
}

/// Why the content of `path` could not be had.
pub open spec fn unread(path: Seq<char>, r: ReplyV) -> FailureV {
    FailureV {
        chain: seq![
            if r.kind == Kind::Garbled {
                "failed to hash "@ + path
            } else {
                "failed to read "@ + path
            },
            r.err,
        ],
        command: None,
    }
}

/// A tracked file that jj shows or not, by the hashes of what jj and the disk hold.
pub open spec fn matched(shown: bool, known: Seq<u8>, disk: Seq<u8>) -> Found {
    if shown && known == disk {
        Found::Same
    } else {
        Found::Modified
    }
}

/// Holds what jj shows of a tracked file against what is on disk, by their hashes.
pub fn match_hashes(shown: bool, known: &Vec<u8>, disk: &Vec<u8>) -> (r: Found)
    ensures
        r == matched(shown, known@, disk@),
{
    if shown && same_bytes(known, disk) {
        Found::Same
    } else {
        Found::Modified
    }
}

#[verifier::opaque]
pub open spec fn found_spec(t: Trace, ws_path: Seq<char>, rel: Seq<char>) -> Out<Found> {
    let path = path_join_spec(ws_path, rel);
    bind(
        holds_spec(t, at_spec(Act::Exists, path)),
        |there: bool, t: Trace|
            if !there {
                Out::Got(Found::Missing, t)
            } else {
                bind(
                    ask_spec(t, at_spec(Act::ReadBytes, path)),
                    |h: ReplyV, t: Trace|
                        if h.kind != Kind::Done {
                            Out::Fail(unread(path, h), t)
                        } else {
                            bind(
                                jj_output_spec(
                                    t,
                                    Act::JjWsBytes,
                                    ws_path,
                                    seq!["file"@, "show"@, "--revision"@, "@"@, rel],
                                    "file show --revision @ "@ + rel,
                                    "failed to run jj file show for "@ + rel,
                                ),
                                |r: ReplyV, t: Trace|
                                    Out::Got(
                                        matched(
                                            r.kind != Kind::Nonzero,
                                            blake3_hash(r.bytes),
                                            blake3_hash(h.bytes),
                                        ),
                                        t,
                                    ),
                            )
                        },
                )
            },
    )
}

impl DeepView for Found {
    type V = Found;

    open spec fn deep_view(&self) -> Found {
        *self
    }
}

fn find(tape: &mut Tape, ws_path: &str, rel: &str) -> (r: Result<Found, Stop>)
    ensures
        agrees(r, final(tape)@, found_spec(old(tape)@, ws_path@, rel@)),
{
    reveal(found_spec);
    let path = path_join(ws_path, rel);
    if !holds(tape, at(Act::Exists, &path))? {
        return Ok(Found::Missing);
    }
    let h = ask(tape, at(Act::ReadBytes, &path))?;
    if h.kind != Kind::Done {
        let doing = if h.kind == Kind::Garbled {
            cat2("failed to hash ", &path)
        } else {
            cat2("failed to read ", &path)
        };
        return Err(Stop::Fail(Failure { chain: args2(&doing, &h.err), command: None }));
    }
    let label = cat2("file show --revision @ ", rel);
    let doing = cat2("failed to run jj file show for ", rel);
    let r = jj_output(
        tape,
        Act::JjWsBytes,
        ws_path,
        args5("file", "show", "--revision", "@", rel),
        &label,
        &doing,
    )?;
    Ok(match_hashes(r.kind != Kind::Nonzero, &content_hash(&r.bytes), &content_hash(&h.bytes)))
}

/// Reports `n` when progress is wanted.
pub open spec fn report_spec(t: Trace, wanted: bool, act: Act, n: nat) -> Out<()> {
    if wanted {
        tell_spec(t, act, dec_spec(n))
    } else {
        Out::Got((), t)
    }
}

fn report(tape: &mut Tape, wanted: bool, act: Act, n: usize) -> (r: Result<(), Stop>)
    ensures
        agrees(r, final(tape)@, report_spec(old(tape)@, wanted, act, n as nat)),
{
    if wanted {
        tell(tape, act, dec_usize(n))
    } else {
        Ok(())
    }
}

/// The comparison so far: files modified, files missing, files checked.
pub struct ComparedV {
    pub modified: Seq<Seq<char>>,
    pub missing: Seq<Seq<char>>,
    pub checked: nat,
}

pub open spec fn compared_with(c: ComparedV, rel: Seq<char>, f: Found) -> ComparedV {
    ComparedV {
        modified: if f is Modified {
            c.modified.push(rel)
        } else {
            c.modified
        },
        missing: if f is Missing {
            c.missing.push(rel)
        } else {
            c.missing
        },
        checked: c.checked + 1,
    }
}

pub open spec fn compare_step(ws_path: Seq<char>, progress: bool) -> spec_fn(
    Trace,
    ComparedV,
    Seq<char>,
) -> Out<ComparedV> {
    |t: Trace, c: ComparedV, rel: Seq<char>|
        bind(
            found_spec(t, ws_path, rel),
            |f: Found, t: Trace|
                bind(
                    report_spec(t, progress, Act::Checked, c.checked + 1),
                    |u: (), t: Trace| Out::Got(compared_with(c, rel, f), t),
                ),
        )
}

pub open spec fn nothing_compared() -> ComparedV {
    ComparedV { modified: Seq::empty(), missing: Seq::empty(), checked: 0 }
}

/// `names` without those in `known`.
pub open spec fn unknown_spec(names: Seq<Seq<char>>, known: Seq<Seq<char>>) -> Seq<Seq<char>>
    decreases names.len(),
{
    if names.len() == 0 {
        names
    } else if known.contains(names.last()) {
        unknown_spec(names.drop_last(), known)
    } else {
        unknown_spec(names.drop_last(), known).push(names.last())
    }
}

pub fn unknown(names: &Vec<String>, known: &Vec<String>) -> (r: Vec<String>)
    ensures
        r.deep_view() == unknown_spec(names.deep_view(), known.deep_view()),
{
    let ghost all = names.deep_view();
    let mut out: Vec<String> = Vec::new();
    assert(out.deep_view() =~= unknown_spec(all.take(0), known.deep_view()));
    for i in 0..names.len()
        invariant
            all == names.deep_view(),
            out.deep_view() == unknown_spec(all.take(i as int), known.deep_view()),
    {
        let ghost before = out.deep_view();
        assert(all.take(i + 1).drop_last() =~= all.take(i as int));
        assert(all.take(i + 1).last() == names@[i as int]@);
        if !among(known, &names[i]) {
            out.push(names[i].clone());
            assert(out.deep_view() =~= before.push(names@[i as int]@));
        }
    }
    assert(all.take(all.len() as int) =~= all);
    out
}

// ---------------------------------------------------------------------------
// Files on disk
// ---------------------------------------------------------------------------

/// Does the name stand for data of a version control system?
pub open spec fn is_internal(name: Seq<char>) -> bool {
    name == ".jj"@ || name == ".git"@ || name == ".ji"@
}

/// The path of `name` in the directory `dir`, both relative to the workspace.
pub open spec fn below(dir: Seq<char>, name: Seq<char>) -> Seq<char> {
    if dir.len() == 0 {
        name
    } else {
        path_join_spec(dir, name)
    }
}

/// The entries of a directory that are to be looked at; none if it cannot be listed.
pub open spec fn entries_spec(dir: Seq<char>, names: Option<Seq<Seq<char>>>) -> Seq<Seq<char>>
{
    match names {
        None => Seq::empty(),
        Some(v) => kept_entries(dir, v),
    }
}

pub open spec fn kept_entries(dir: Seq<char>, names: Seq<Seq<char>>) -> Seq<Seq<char>>
    decreases names.len(),
{
    if names.len() == 0 {
        Seq::empty()
    } else if is_internal(names.last()) {
        kept_entries(dir, names.drop_last())
    } else {
        kept_entries(dir, names.drop_last()).push(below(dir, names.last()))
    }
}

fn entries(dir: &str, names: &Option<Vec<String>>) -> (r: Vec<String>)
    ensures
        r.deep_view() == entries_spec(dir@, names.deep_view()),
{
    let mut out: Vec<String> = Vec::new();
    assert(out.deep_view() =~= Seq::<Seq<char>>::empty());
    if let Some(v) = names {
        let ghost all = v.deep_view();
        assert(kept_entries(dir@, all.take(0)) =~= Seq::<Seq<char>>::empty());
        for i in 0..v.len()
            invariant
                all == v.deep_view(),
                out.deep_view() == kept_entries(dir@, all.take(i as int)),
        {
            let ghost before = out.deep_view();
            assert(all.take(i + 1).drop_last() =~= all.take(i as int));
            assert(all.take(i + 1).last() == v@[i as int]@);
            if !same(&v[i], ".jj") && !same(&v[i], ".git") && !same(&v[i], ".ji") {
                let rel = if empty(dir) {
                    v[i].clone()
                } else {
                    path_join(dir, &v[i])
                };
                out.push(rel);
                assert(out.deep_view() =~= before.push(rel@));
            }
        }
        assert(all.take(all.len() as int) =~= all);
    }
    out
}

/// The regular files among `todo` and in the directories there, behind those that were `found`.
pub open spec fn walk_spec(
    t: Trace,
    ws_path: Seq<char>,
    todo: Seq<Seq<char>>,
    found: Seq<Seq<char>>,
) -> Out<Seq<Seq<char>>>
    decreases t.len(),
{
    if todo.len() == 0 {
        Out::Got(found, t)
    } else {
        let rel = todo.last();
        let path = path_join_spec(ws_path, rel);
        match holds_spec(t, at_spec(Act::IsDir, path)) {
            Out::Ask(q) => Out::Ask(q),
            Out::Fail(e, u) => Out::Fail(e, u),
            Out::Got(true, u) => match list_spec(u, at_spec(Act::ListDir, path)) {
                Out::Ask(q) => Out::Ask(q),
                Out::Fail(e, w) => Out::Fail(e, w),
                Out::Got(names, w) => walk_spec(
                    w,
                    ws_path,
                    todo.drop_last() + entries_spec(rel, names),
                    found,
                ),
            },
            Out::Got(false, u) => match holds_spec(u, at_spec(Act::IsFile, path)) {
                Out::Ask(q) => Out::Ask(q),
                Out::Fail(e, w) => Out::Fail(e, w),
                Out::Got(is_file, w) => walk_spec(
                    w,
                    ws_path,
                    todo.drop_last(),
                    if is_file {
                        found.push(rel)
                    } else {
                        found
                    },
                ),
            },
        }
    }
}

fn walk(tape: &mut Tape, ws_path: &str, start: Vec<String>) -> (r: Result<Vec<String>, Stop>)
    ensures
        agrees(
            r,
            final(tape)@,
            walk_spec(old(tape)@, ws_path@, start.deep_view(), Seq::empty()),
        ),
{
    let ghost t0 = tape@;
    let ghost start0 = start.deep_view();
    let mut todo = start;
    let mut found: Vec<String> = Vec::new();
    assert(found.deep_view() =~= Seq::<Seq<char>>::empty());
    while todo.len() > 0
        invariant
            t0 == old(tape)@,
            start0 == start.deep_view(),
            walk_spec(t0, ws_path@, start0, Seq::empty()) == walk_spec(
                tape@,
                ws_path@,
                todo.deep_view(),
                found.deep_view(),
            ),
        decreases tape@.len(),
    {
        let ghost all = todo.deep_view();
        let ghost so_far = found.deep_view();
        let rel = match todo.pop() {
            Some(rel) => rel,
            None => String::new(),
        };
        assert(all.last() == rel@);
        assert(todo.deep_view() =~= all.drop_last());
        let path = path_join(ws_path, &rel);
        if holds(tape, at(Act::IsDir, &path))? {
            let names = list(tape, at(Act::ListDir, &path))?;
            let more = entries(&rel, &names);
            todo = chain(todo, more);
        } else {
            let is_file = holds(tape, at(Act::IsFile, &path))?;
            if is_file {
                found.push(rel);
                assert(found.deep_view() =~= so_far.push(rel@));
            }
        }
    }
    assert(todo.deep_view().len() == 0);
    Ok(found)
}

/// The regular files of a workspace, without those of version control systems.
#[verifier::opaque]
pub open spec fn disk_files_spec(t: Trace, ws_path: Seq<char>) -> Out<Seq<Seq<char>>> {
    bind(
        list_spec(t, at_spec(Act::ListDir, ws_path)),
        |names: Option<Seq<Seq<char>>>, t: Trace|
            walk_spec(t, ws_path, entries_spec(Seq::empty(), names), Seq::empty()),
    )
}

fn disk_files(tape: &mut Tape, ws_path: &str) -> (r: Result<Vec<String>, Stop>)
    ensures
        agrees(r, final(tape)@, disk_files_spec(old(tape)@, ws_path@)),
{
    reveal(disk_files_spec);
    let names = list(tape, at(Act::ListDir, ws_path))?;
    let top = String::new();
    assert(top@ =~= Seq::<char>::empty());
    let start = entries(&top, &names);
    walk(tape, ws_path, start)
}

#[verifier::opaque]
pub open spec fn tracked_files_spec(t: Trace, ws_path: Seq<char>) -> Out<Seq<Seq<char>>> {
    bind(
        jj_output_spec(
            t,
            Act::JjWs,
            ws_path,
            seq!["file"@, "list"@, "--revision"@, "@"@],
            "file list --revision @"@,
            "failed to run jj file list"@,
        ),
        |r: ReplyV, t: Trace|
            if r.kind == Kind::Nonzero {
                Out::Fail(failure_spec("jj file list failed: "@ + r.err), t)
            } else {
                bind(
                    utf8_spec(t, r, "invalid utf-8 in file list"@),
                    |text: Seq<char>, t: Trace| Out::Got(full_lines_spec(text), t),
                )
            },
    )
}

/// The files in the working-copy commit of a workspace.
pub fn tracked_files(tape: &mut Tape, ws_path: &str) -> (r: Result<Vec<String>, Stop>)
    ensures
        agrees(r, final(tape)@, tracked_files_spec(old(tape)@, ws_path@)),
{
    reveal(tracked_files_spec);
    let r = jj_output(
        tape,
        Act::JjWs,
        ws_path,
        args4("file", "list", "--revision", "@"),
        "file list --revision @",
        "failed to run jj file list",
    )?;
    if r.kind == Kind::Nonzero {
        return Err(Stop::Fail(failure(cat2("jj file list failed: ", &r.err))));
    }
    let text = utf8(r, "invalid utf-8 in file list")?;
    Ok(full_lines(&text))
}

/// Result of a comparison as an outcome of a procedure.
pub open spec fn compared_out(m: Out<ComparedV>) -> Out<(Seq<Seq<char>>, Seq<Seq<char>>)> {
    bind(m, |c: ComparedV, t: Trace| Out::Got((c.modified, c.missing), t))
}

fn compare_all(tape: &mut Tape, ws_path: &str, progress: bool, files: &Vec<String>) -> (r: Result<
    (Vec<String>, Vec<String>),
    Stop,
>)
    ensures
        agrees(
            r,
            final(tape)@,
            compared_out(
                each(
                    old(tape)@,
                    files.deep_view(),
                    nothing_compared(),
                    compare_step(ws_path@, progress),
                ),
            ),
        ),
{
    let ghost t0 = tape@;
    let ghost all = files.deep_view();
    let ghost step = compare_step(ws_path@, progress);
    let mut modified: Vec<String> = Vec::new();
    let mut missing: Vec<String> = Vec::new();
    let ghost mut c = nothing_compared();
    assert(modified.deep_view() =~= c.modified);
    assert(missing.deep_view() =~= c.missing);
    assert(all.skip(0) =~= all);
    for i in 0..files.len()
        invariant
            t0 == old(tape)@,
            all == files.deep_view(),
            step == compare_step(ws_path@, progress),
            c.checked == i,
            modified.deep_view() == c.modified,
            missing.deep_view() == c.missing,
            each(t0, all, nothing_compared(), step) == each(tape@, all.skip(i as int), c, step),
    {
        proof {
            lemma_each_step(all, i as int);
        }
        assert(all[i as int] == files@[i as int]@);
        let f = find(tape, ws_path, &files[i])?;
        report(tape, progress, Act::Checked, i + 1)?;
        proof {
            c = compared_with(c, all[i as int], f);
        }
        match f {
            Found::Same => {},
            Found::Modified => {
                modified.push(files[i].clone());
                assert(modified.deep_view() =~= c.modified);
            },
            Found::Missing => {
                missing.push(files[i].clone());
                assert(missing.deep_view() =~= c.missing);
            },
        }
    }
    Ok((modified, missing))
}

#[verifier::opaque]
pub open spec fn stale_workspace_diff_inner_spec(
    t: Trace,
    ws_path: Seq<char>,
    progress: bool,
) -> Out<StaleDiffV> {
    bind(
        tracked_files_spec(t, ws_path),
        |files: Seq<Seq<char>>, t: Trace|
            bind(
                report_spec(t, progress, Act::Total, files.len()),
                |u: (), t: Trace|
                    bind(
                        each(t, files, nothing_compared(), compare_step(ws_path, progress)),
                        |c: ComparedV, t: Trace|
                            bind(
                                disk_files_spec(t, ws_path),
                                |there: Seq<Seq<char>>, t: Trace|
                                    Out::Got(
                                        StaleDiffV {
                                            modified: sort_texts_spec(c.modified),
                                            disk_only: sort_texts_spec(
                                                unknown_spec(there, files),
                                            ),
                                            jj_only: sort_texts_spec(c.missing),
                                        },
                                        t,
                                    ),
                            ),
                    ),
            ),
    )
}

fn stale_workspace_diff_inner(
    tape: &mut Tape,
    ws_path: &str,
    progress: bool,
) -> (r: Result<StaleDiff, Stop>)
    ensures
        agrees(r, final(tape)@, stale_workspace_diff_inner_spec(old(tape)@, ws_path@, progress)),
{
    reveal(stale_workspace_diff_inner_spec);
    let files = tracked_files(tape, ws_path)?;
    assert(files.deep_view().len() == files@.len());
    report(tape, progress, Act::Total, files.len())?;
    let (modified, missing) = compare_all(tape, ws_path, progress, &files)?;
    let there = disk_files(tape, ws_path)?;
    Ok(
        StaleDiff {
            modified: sort_texts(&modified),
            disk_only: sort_texts(&unknown(&there, &files)),
            jj_only: sort_texts(&missing),
        },
    )
}

#[verifier::opaque]
pub open spec fn stale_workspace_diff_spec(t: Trace, ws_path: Seq<char>) -> Out<StaleDiffV> {
    stale_workspace_diff_inner_spec(t, ws_path, false)
}

/// How the files of a stale workspace differ from what jj expects.
pub fn stale_workspace_diff(tape: &mut Tape, ws_path: &str) -> (r: Result<StaleDiff, Stop>)
    ensures
        agrees(r, final(tape)@, stale_workspace_diff_spec(old(tape)@, ws_path@)),
{
    reveal(stale_workspace_diff_spec);
    stale_workspace_diff_inner(tape, ws_path, false)
}

/// As [`stale_workspace_diff`], reporting progress: the last message holds the outcome.
pub fn stale_workspace_diff_threaded(tape: &mut Tape, ws_path: &str) -> (r: Result<
    StaleDiffMsg,
    Stop,
>)
    ensures
        match r {
            Ok(StaleDiffMsg::Done(x)) => agrees_or::<StaleDiff>(
                Ok(x),
                final(tape)@,
                attempt_spec(stale_workspace_diff_inner_spec(old(tape)@, ws_path@, true)),
            ),
            Ok(_) => false,
            Err(e) => agrees_or::<StaleDiff>(
                Err(e),
                final(tape)@,
                attempt_spec(stale_workspace_diff_inner_spec(old(tape)@, ws_path@, true)),
            ),
        },
{
    let x = attempt(stale_workspace_diff_inner(tape, ws_path, true))?;
    Ok(StaleDiffMsg::Done(x))
}

#[verifier::opaque]
pub open spec fn file_show_raw_spec(t: Trace, ws_path: Seq<char>, rel_path: Seq<char>) -> Out<
    Seq<u8>,
> {
    bind(
        jj_output_spec(
            t,
            Act::JjWsBytes,
            ws_path,
            seq!["file"@, "show"@, "--revision"@, "@"@, rel_path],
            "file show --revision @ "@ + rel_path,
            "failed to run jj file show for "@ + rel_path,
        ),
        |r: ReplyV, t: Trace|
            if r.kind == Kind::Nonzero {
                Out::Fail(
                    failure_spec("jj file show failed for "@ + rel_path + ": "@ + r.err),
                    t,
                )
            } else {
                Out::Got(r.bytes, t)
            },
    )
}

/// The content of a file in the working-copy commit.
pub fn file_show_raw(tape: &mut Tape, ws_path: &str, rel_path: &str) -> (r: Result<Vec<u8>, Stop>)
    ensures
        agrees(r, final(tape)@, file_show_raw_spec(old(tape)@, ws_path@, rel_path@)),
{
    reveal(file_show_raw_spec);
    let label = cat2("file show --revision @ ", rel_path);
    let doing = cat2("failed to run jj file show for ", rel_path);
    let r = jj_output(
        tape,
        Act::JjWsBytes,
        ws_path,
        args5("file", "show", "--revision", "@", rel_path),
        &label,
        &doing,
    )?;
    if r.kind == Kind::Nonzero {
        let msg = cat4("jj file show failed for ", rel_path, ": ", &r.err);
        return Err(Stop::Fail(failure(msg)));
    }
    assert(r.bytes.deep_view() =~= r.bytes@);
    Ok(r.bytes)
}

// ---------------------------------------------------------------------------
// Laws
// ---------------------------------------------------------------------------

proof fn lemma_unknown(names: Seq<Seq<char>>, known: Seq<Seq<char>>, x: Seq<char>)
    ensures
        unknown_spec(names, known).contains(x) ==> !known.contains(x),
    decreases names.len(),
{
    if names.len() > 0 {
        let rest = unknown_spec(names.drop_last(), known);
        lemma_unknown(names.drop_last(), known, x);
        if !known.contains(names.last()) && rest.push(names.last()).contains(x) {
            let i = choose|i: int| 0 <= i < rest.len() + 1 && rest.push(names.last())[i] == x;
            if i < rest.len() {
                assert(rest[i] == x);
            }
        }
    }
}

/// Both lists of a comparison hold files that jj knows.
pub open spec fn compared_known(c: ComparedV, files: Seq<Seq<char>>) -> bool {
    &&& forall|i: int| 0 <= i < c.modified.len() ==> files.contains(#[trigger] c.modified[i])
    &&& forall|i: int| 0 <= i < c.missing.len() ==> files.contains(#[trigger] c.missing[i])
}

proof fn lemma_compared(
    t: Trace,
    ws_path: Seq<char>,
    progress: bool,
    files: Seq<Seq<char>>,
    todo: Seq<Seq<char>>,
    c: ComparedV,
)
    requires
        compared_known(c, files),
        forall|i: int| 0 <= i < todo.len() ==> files.contains(#[trigger] todo[i]),
    ensures
        each(t, todo, c, compare_step(ws_path, progress)) matches Out::Got(d, _) ==> compared_known(
            d,
            files,
        ),
    decreases todo.len(),
{
    if todo.len() > 0 {
        let step = compare_step(ws_path, progress);
        if let Out::Got(f, u) = found_spec(t, ws_path, todo[0]) {
            let d = compared_with(c, todo[0], f);
            assert forall|i: int| 0 <= i < d.modified.len() implies files.contains(
                #[trigger] d.modified[i],
            ) by {
                if i < c.modified.len() {
                    assert(d.modified[i] == c.modified[i]);
                }
            }
            assert forall|i: int| 0 <= i < d.missing.len() implies files.contains(
                #[trigger] d.missing[i],
            ) by {
                if i < c.missing.len() {
                    assert(d.missing[i] == c.missing[i]);
                }
            }
            assert forall|i: int| 0 <= i < todo.drop_first().len() implies files.contains(
                #[trigger] todo.drop_first()[i],
            ) by {
                assert(todo.drop_first()[i] == todo[i + 1]);
            }
            if let Out::Got(_, w) = report_spec(u, progress, Act::Checked, c.checked + 1) {
                lemma_compared(w, ws_path, progress, files, todo.drop_first(), d);
            }
        }
    }
}

/// No file is both modified and missing.
pub open spec fn compared_apart(c: ComparedV) -> bool {
    forall|x: Seq<char>| #[trigger] c.modified.contains(x) ==> !c.missing.contains(x)
}

proof fn lemma_apart(
    t: Trace,
    ws_path: Seq<char>,
    progress: bool,
    todo: Seq<Seq<char>>,
    c: ComparedV,
)
    requires
        todo.no_duplicates(),
        compared_apart(c),
        forall|i: int|
            0 <= i < todo.len() ==> !c.modified.contains(#[trigger] todo[i])
                && !c.missing.contains(todo[i]),
    ensures
        each(t, todo, c, compare_step(ws_path, progress)) matches Out::Got(d, _) ==> compared_apart(
            d,
        ),
    decreases todo.len(),
{
    broadcast use vstd::seq_lib::group_seq_properties;

    if todo.len() > 0 {
        if let Out::Got(f, u) = found_spec(t, ws_path, todo[0]) {
            let d = compared_with(c, todo[0], f);
            let rest = todo.drop_first();
            assert forall|i: int| 0 <= i < rest.len() implies !d.modified.contains(
                #[trigger] rest[i],
            ) && !d.missing.contains(rest[i]) by {
                assert(rest[i] == todo[i + 1]);
                assert(todo[i + 1] != todo[0]);
            }
            assert(rest.no_duplicates()) by {
                assert forall|i: int, j: int|
                    0 <= i < rest.len() && 0 <= j < rest.len() && i != j implies rest[i]
                    != rest[j] by {
                    assert(todo[i + 1] != todo[j + 1]);
                }
            }
            if let Out::Got(_, w) = report_spec(u, progress, Act::Checked, c.checked + 1) {
                lemma_apart(w, ws_path, progress, rest, d);
            }
        }
    }
}

/// What is only on disk is neither modified nor missing, and each list is sorted. Where jj lists no
/// file twice, none is both modified and missing.
pub proof fn law_stale_lists_are_apart(t: Trace, ws_path: Seq<char>)
    ensures
        stale_workspace_diff_spec(t, ws_path) matches Out::Got(d, _) ==> {
            &&& tracked_files_spec(t, ws_path) matches Out::Got(files, _)
            &&& files.no_duplicates() ==> forall|x: Seq<char>| #[trigger]
                d.modified.contains(x) ==> !d.jj_only.contains(x)
            &&& forall|x: Seq<char>|
                d.disk_only.contains(x) ==> !#[trigger] d.modified.contains(x)
                    && !d.jj_only.contains(x)
            &&& is_sorted(d.modified, text_order())
            &&& is_sorted(d.disk_only, text_order())
            &&& is_sorted(d.jj_only, text_order())
        },
{
    broadcast use vstd::seq_lib::group_to_multiset_ensures;

    reveal(stale_workspace_diff_spec);
    reveal(stale_workspace_diff_inner_spec);
    if let Out::Got(files, u) = tracked_files_spec(t, ws_path) {
        if let Out::Got(c, w) = each(u, files, nothing_compared(), compare_step(ws_path, false)) {
            lemma_compared(u, ws_path, false, files, files, nothing_compared());
            if let Out::Got(there, rest) = disk_files_spec(w, ws_path) {
                let only = unknown_spec(there, files);
                let d = StaleDiffV {
                    modified: sort_texts_spec(c.modified),
                    disk_only: sort_texts_spec(only),
                    jj_only: sort_texts_spec(c.missing),
                };
                assert(stale_workspace_diff_spec(t, ws_path) == Out::Got(d, rest));
                lemma_sort_texts(c.modified);
                lemma_sort_texts(c.missing);
                lemma_sort_texts(only);
                if files.no_duplicates() {
                    lemma_apart(u, ws_path, false, files, nothing_compared());
                    assert forall|x: Seq<char>| #[trigger] d.modified.contains(x) implies
                        !d.jj_only.contains(x) by {
                        assert(d.modified.to_multiset().count(x) > 0);
                        assert(c.modified.contains(x));
                        if d.jj_only.contains(x) {
                            assert(d.jj_only.to_multiset().count(x) > 0);
                            assert(c.missing.contains(x));
                        }
                    }
                }
                assert forall|x: Seq<char>|
                    sort_texts_spec(only).contains(x) implies !#[trigger] sort_texts_spec(
                    c.modified,
                ).contains(x) && !sort_texts_spec(c.missing).contains(x) by {
                    lemma_unknown(there, files, x);
                    assert(sort_texts_spec(only).to_multiset().count(x) > 0);
                    assert(only.contains(x));
                    if sort_texts_spec(c.modified).contains(x) {
                        assert(sort_texts_spec(c.modified).to_multiset().count(x) > 0);
                        assert(c.modified.contains(x));
                    }
                    if sort_texts_spec(c.missing).contains(x) {
                        assert(sort_texts_spec(c.missing).to_multiset().count(x) > 0);
                        assert(c.missing.contains(x));
                    }
                }
            }
        }
    }
}

} // verus!
