//! What ji asks of jj: queries, mutations, bookmarks, staleness.
//!
//! A request that leaves the working copy alone reads recorded state. A live one makes jj fold
//! pending edits into the working-copy commit first.

use vstd::prelude::*;

use crate::jj_logs::{
    build_pass2_template, completion_bookmarks_spec, line_heads_spec, parse_completion_bookmarks,
    parse_line_heads, pass2_spec, rank, rank_of,
};
use crate::jj_parse::{
    completion_ws_list_spec, entries_spec, escape_revset_string, escape_spec, full_lines,
    full_lines_spec, operations_spec, parse_completion_workspaces, parse_entries, parse_operations,
    records, records_spec, snapshots_only, snapshots_only_spec, COMPLETION_BOOKMARK_TEMPLATE,
    COMPLETION_WS_TEMPLATE, CompletionWorkspace, CompletionWorkspaceV, LIST_TEMPLATE,
    OP_LOG_TEMPLATE, OP_SNAPSHOT_TEMPLATE, Operation, OperationV, WorkspaceEntry, WorkspaceEntryV,
};
use crate::jj_run::{
    jj, jj_done, jj_done_spec, jj_output, jj_output_spec, jj_spec, jj_timed, jj_timed_spec,
    log_args, log_args_spec, utf8, utf8_spec,
};
use crate::order::{
    is_sorted, lemma_positions, positions, positions_spec, sort_texts, sort_texts_spec,
    stable_order,
};
use crate::paths::{path_join, path_join_spec};
use crate::search::{dec_spec, dec_usize, parse_i64, parse_i64_spec};
use crate::tape::{
    agrees, at, at_spec, attempt, attempt_spec, bind, context, context_spec, failure, failure_spec,
    list, list_spec, request_spec, Act, FailureV, Kind, Out, ReplyV, RequestV, Stop, Tape, Trace,
};
use crate::text::{
    args2, args3, args4, args5, args8, cat2, cat3, copy_all, empty, join, join_spec, same, trim,
    trim_spec, Cut,
};

verus! {

/// Revisions that one abandon may take at most.
pub const MAX_DESTRUCTIVE_REVISIONS: usize = 50;

pub const TMPL_ID_LINE: &'static str = "change_id ++ \"\\n\"";

/// The working-copy commit of the workspace `name`.
pub open spec fn ws_rev_spec(name: Seq<char>) -> Seq<char> {
    "\""@ + escape_spec(name) + "\"@"@
}

pub fn ws_rev(name: &str) -> (r: String)
    ensures
        r@ == ws_rev_spec(name@),
{
    cat3("\"", &escape_revset_string(name), "\"@")
}

/// Arguments `head` followed by `rest`.
pub fn args_then(head: Vec<String>, rest: &Vec<String>) -> (r: Vec<String>)
    ensures
        r.deep_view() == head.deep_view() + rest.deep_view(),
{
    let mut v = head;
    let mut tail = copy_all(rest);
    let ghost a = v.deep_view();
    let ghost b = tail.deep_view();
    v.append(&mut tail);
    assert(v.deep_view() =~= a + b);
    v
}

// ---------------------------------------------------------------------------
// Snapshots
// ---------------------------------------------------------------------------

#[verifier::opaque]
pub open spec fn snapshot_ws_spec(t: Trace, ws_path: Seq<char>) -> Out<()> {
    jj_done_spec(t, Act::JjWsLive, ws_path, seq!["util"@, "snapshot"@])
}

/// jj is to capture the pending edits of a workspace.
pub open spec fn snapshot_request(ws_path: Seq<char>) -> RequestV {
    request_spec(Act::JjWsLive, ws_path, seq!["util"@, "snapshot"@])
}

/// Captures the pending edits of a workspace. Fails on a stale working copy.
pub fn snapshot_ws(tape: &mut Tape, ws_path: &str) -> (r: Result<(), Stop>)
    ensures
        agrees(r, final(tape)@, snapshot_ws_spec(old(tape)@, ws_path@)),
{
    reveal(snapshot_ws_spec);
    jj_done(tape, Act::JjWsLive, ws_path, args2("util", "snapshot"))
}

#[verifier::opaque]
pub open spec fn has_unsnapshotted_changes_spec(t: Trace, ws_path: Seq<char>) -> Out<bool> {
    bind(
        context_spec(
            jj_spec(t, Act::JjWs, ws_path, log_args_spec("@"@, "commit_id"@)),
            "probe recorded @ commit id"@,
        ),
        |recorded: Seq<char>, t: Trace|
            bind(
                context_spec(
                    jj_spec(
                        t,
                        Act::JjWsLive,
                        ws_path,
                        seq!["--no-integrate-operation"@, "--quiet"@] + log_args_spec(
                            "@"@,
                            "commit_id"@,
                        ),
                    ),
                    "probe would-be @ commit id (preview snapshot)"@,
                ),
                |preview: Seq<char>, t: Trace| Out::Got(recorded != preview, t),
            ),
    )
}

/// Does a workspace have edits that no snapshot has captured? The would-be commit id is computed
/// in an operation that is never integrated.
pub fn has_unsnapshotted_changes(tape: &mut Tape, ws_path: &str) -> (r: Result<bool, Stop>)
    ensures
        agrees(r, final(tape)@, has_unsnapshotted_changes_spec(old(tape)@, ws_path@)),
{
    reveal(has_unsnapshotted_changes_spec);
    let recorded = context(
        jj(tape, Act::JjWs, ws_path, log_args("@", "commit_id")),
        "probe recorded @ commit id",
    )?;
    let args = args_then(args2("--no-integrate-operation", "--quiet"), &log_args("@", "commit_id"));
    let preview = context(
        jj(tape, Act::JjWsLive, ws_path, args),
        "probe would-be @ commit id (preview snapshot)",
    )?;
    Ok(!same(&recorded, &preview))
}

// ---------------------------------------------------------------------------
// Graph
// ---------------------------------------------------------------------------

pub open spec fn template_args(tmpl: Option<Seq<char>>) -> Seq<Seq<char>> {
    match tmpl {
        Some(x) => seq!["--template"@, x],
        None => Seq::empty(),
    }
}

fn template_argv(tmpl: Option<&str>) -> (r: Vec<String>)
    ensures
        r.deep_view() == template_args(tmpl.deep_view()),
{
    match tmpl {
        Some(x) => args2("--template", x),
        None => {
            let v: Vec<String> = Vec::new();
            assert(v.deep_view() =~= Seq::<Seq<char>>::empty());
            v
        },
    }
}

pub open spec fn heads_template(tmpl: Option<Seq<char>>) -> Seq<char> {
    match tmpl {
        Some(x) => pass2_spec(x),
        None => "change_id ++ \"\\n\" ++ change_id"@,
    }
}

#[verifier::opaque]
pub open spec fn log_graph_with_heads_inner_spec(
    t: Trace,
    repo: Seq<char>,
    log_template: Option<Seq<char>>,
    extra_args: Seq<Seq<char>>,
) -> Out<(Seq<char>, Seq<Option<Seq<char>>>)> {
    bind(
        jj_output_spec(
            t,
            Act::JjRepo,
            repo,
            extra_args + seq!["log"@, "--color"@, "always"@] + template_args(log_template),
            "log --color always"@,
            "failed to run jj log (graph)"@,
        ),
        |r: ReplyV, t: Trace|
            if r.kind == Kind::Nonzero {
                Out::Fail(failure_spec("jj log failed: "@ + r.err), t)
            } else {
                bind(
                    utf8_spec(t, r, "invalid utf-8"@),
                    |graph: Seq<char>, t: Trace|
                        bind(
                            jj_output_spec(
                                t,
                                Act::JjRepo,
                                repo,
                                extra_args + seq![
                                    "log"@,
                                    "--color"@,
                                    "never"@,
                                    "--template"@,
                                    heads_template(log_template),
                                ],
                                "log --color never (heads pass)"@,
                                "failed to run jj log (heads)"@,
                            ),
                            |r: ReplyV, t: Trace|
                                bind(
                                    utf8_spec(t, r, "invalid utf-8"@),
                                    |heads: Seq<char>, t: Trace|
                                        Out::Got((graph, line_heads_spec(heads)), t),
                                ),
                        ),
                )
            },
    )
}

/// The colored graph, and the change id that stands on each of its lines. The arguments
/// `extra_args` go in front of both queries.
fn log_graph_with_heads_inner(
    tape: &mut Tape,
    repo: &str,
    log_template: Option<&str>,
    extra_args: &Vec<String>,
) -> (r: Result<(String, Vec<Option<String>>), Stop>)
    ensures
        agrees(
            r,
            final(tape)@,
            log_graph_with_heads_inner_spec(
                old(tape)@,
                repo@,
                log_template.deep_view(),
                extra_args.deep_view(),
            ),
        ),
{
    reveal(log_graph_with_heads_inner_spec);
    let display = args_then(
        args_then(copy_all(extra_args), &args3("log", "--color", "always")),
        &template_argv(log_template),
    );
    let r = jj_output(
        tape,
        Act::JjRepo,
        repo,
        display,
        "log --color always",
        "failed to run jj log (graph)",
    )?;
    if r.kind == Kind::Nonzero {
        return Err(Stop::Fail(failure(cat2("jj log failed: ", &r.err))));
    }
    let graph = utf8(r, "invalid utf-8")?;
    let heads_tmpl = match log_template {
        Some(x) => build_pass2_template(x),
        None => "change_id ++ \"\\n\" ++ change_id".to_string(),
    };
    let args = args_then(
        copy_all(extra_args),
        &args5("log", "--color", "never", "--template", &heads_tmpl),
    );
    let r = jj_output(
        tape,
        Act::JjRepo,
        repo,
        args,
        "log --color never (heads pass)",
        "failed to run jj log (heads)",
    )?;
    let heads = utf8(r, "invalid utf-8")?;
    Ok((graph, parse_line_heads(&heads)))
}

#[verifier::opaque]
pub open spec fn log_graph_with_heads_spec(
    t: Trace,
    repo: Seq<char>,
    log_template: Option<Seq<char>>,
) -> Out<(Seq<char>, Seq<Option<Seq<char>>>)> {
    log_graph_with_heads_inner_spec(t, repo, log_template, Seq::empty())
}

/// The colored graph and a change id for each of its lines.
pub fn log_graph_with_heads(
    tape: &mut Tape,
    repo: &str,
    log_template: Option<&str>,
) -> (r: Result<(String, Vec<Option<String>>), Stop>)
    ensures
        agrees(
            r,
            final(tape)@,
            log_graph_with_heads_spec(old(tape)@, repo@, log_template.deep_view()),
        ),
{
    reveal(log_graph_with_heads_spec);
    let none: Vec<String> = Vec::new();
    assert(none.deep_view() =~= Seq::<Seq<char>>::empty());
    log_graph_with_heads_inner(tape, repo, log_template, &none)
}

#[verifier::opaque]
pub open spec fn log_graph_at_operation_spec(
    t: Trace,
    repo: Seq<char>,
    op_id: Seq<char>,
    log_template: Option<Seq<char>>,
) -> Out<(Seq<char>, Seq<Option<Seq<char>>>)> {
    log_graph_with_heads_inner_spec(
        t,
        repo,
        log_template,
        seq!["--at-operation="@ + op_id],
    )
}

/// As [`log_graph_with_heads`], at the operation `op_id`.
pub fn log_graph_at_operation(
    tape: &mut Tape,
    repo: &str,
    op_id: &str,
    log_template: Option<&str>,
) -> (r: Result<(String, Vec<Option<String>>), Stop>)
    ensures
        agrees(
            r,
            final(tape)@,
            log_graph_at_operation_spec(old(tape)@, repo@, op_id@, log_template.deep_view()),
        ),
{
    reveal(log_graph_at_operation_spec);
    let mut extra: Vec<String> = Vec::new();
    extra.push(cat2("--at-operation=", op_id));
    assert(extra.deep_view() =~= seq!["--at-operation="@ + op_id@]);
    log_graph_with_heads_inner(tape, repo, log_template, &extra)
}

// ---------------------------------------------------------------------------
// Operations
// ---------------------------------------------------------------------------

pub open spec fn op_heads_dir(repo_root: Seq<char>) -> Seq<char> {
    path_join_spec(repo_root, ".jj/repo/op_heads/heads"@)
}

#[verifier::opaque]
pub open spec fn current_op_head_spec(t: Trace, repo_root: Seq<char>) -> Out<Option<Seq<char>>> {
    bind(
        list_spec(t, at_spec(Act::ListDir, op_heads_dir(repo_root))),
        |names: Option<Seq<Seq<char>>>, t: Trace|
            Out::Got(
                match names {
                    Some(v) => if v.len() == 0 {
                        None
                    } else {
                        Some(join_spec(sort_texts_spec(v), ","@))
                    },
                    None => None,
                },
                t,
            ),
    )
}

/// A key for the operation heads, the same in whatever order the directory is read.
pub fn current_op_head(tape: &mut Tape, repo_root: &str) -> (r: Result<Option<String>, Stop>)
    ensures
        agrees(r, final(tape)@, current_op_head_spec(old(tape)@, repo_root@)),
{
    reveal(current_op_head_spec);
    let dir = path_join(repo_root, ".jj/repo/op_heads/heads");
    match list(tape, at(Act::ListDir, &dir))? {
        Some(v) => {
            assert(v.deep_view().len() == v@.len());
            if v.len() == 0 {
                Ok(None)
            } else {
                Ok(Some(join(&sort_texts(&v), ",")))
            }
        },
        None => Ok(None),
    }
}

#[verifier::opaque]
pub open spec fn current_op_id_spec(t: Trace, repo_root: Seq<char>) -> Out<Option<Seq<char>>> {
    bind(
        list_spec(t, at_spec(Act::ListDir, op_heads_dir(repo_root))),
        |names: Option<Seq<Seq<char>>>, t: Trace|
            Out::Got(
                match names {
                    Some(v) => if v.len() == 1 {
                        Some(v[0])
                    } else {
                        None
                    },
                    None => None,
                },
                t,
            ),
    )
}

/// The operation head, unless there is none or more than one.
pub fn current_op_id(tape: &mut Tape, repo_root: &str) -> (r: Result<Option<String>, Stop>)
    ensures
        agrees(r, final(tape)@, current_op_id_spec(old(tape)@, repo_root@)),
{
    reveal(current_op_id_spec);
    let dir = path_join(repo_root, ".jj/repo/op_heads/heads");
    match list(tape, at(Act::ListDir, &dir))? {
        Some(v) => {
            assert(v.deep_view().len() == v@.len());
            if v.len() == 1 {
                Ok(Some(v[0].clone()))
            } else {
                Ok(None)
            }
        },
        None => Ok(None),
    }
}

pub open spec fn op_log_args(limit: usize, tmpl: Seq<char>) -> Seq<Seq<char>> {
    seq![
        "--at-op=@"@,
        "op"@,
        "log"@,
        "--no-graph"@,
        "--limit"@,
        dec_spec(limit as nat),
        "--template"@,
        tmpl,
    ]
}

fn op_log_argv(limit: usize, tmpl: &str) -> (r: Vec<String>)
    ensures
        r.deep_view() == op_log_args(limit, tmpl@),
{
    args8("--at-op=@", "op", "log", "--no-graph", "--limit", &dec_usize(limit), "--template", tmpl)
}

#[verifier::opaque]
pub open spec fn op_log_spec(t: Trace, repo: Seq<char>, limit: usize) -> Out<Seq<OperationV>> {
    bind(
        jj_spec(t, Act::JjRepo, repo, op_log_args(limit, OP_LOG_TEMPLATE@)),
        |out: Seq<char>, t: Trace| Out::Got(operations_spec(out), t),
    )
}

/// The operation log, newest first.
pub fn op_log(tape: &mut Tape, repo: &str, limit: usize) -> (r: Result<Vec<Operation>, Stop>)
    ensures
        agrees(r, final(tape)@, op_log_spec(old(tape)@, repo@, limit)),
{
    reveal(op_log_spec);
    let out = jj(tape, Act::JjRepo, repo, op_log_argv(limit, OP_LOG_TEMPLATE))?;
    Ok(parse_operations(&out))
}

#[verifier::opaque]
pub open spec fn op_show_spec(t: Trace, repo: Seq<char>, op_id: Seq<char>) -> Out<Seq<char>> {
    jj_spec(t, Act::JjRepo, repo, seq!["--at-op=@"@, "op"@, "show"@, op_id])
}

/// What the operation `op_id` changed.
pub fn op_show(tape: &mut Tape, repo: &str, op_id: &str) -> (r: Result<String, Stop>)
    ensures
        agrees(r, final(tape)@, op_show_spec(old(tape)@, repo@, op_id@)),
{
    reveal(op_show_spec);
    jj(tape, Act::JjRepo, repo, args4("--at-op=@", "op", "show", op_id))
}

#[verifier::opaque]
pub open spec fn op_restore_spec(t: Trace, repo: Seq<char>, op_id: Seq<char>) -> Out<Seq<char>> {
    jj_spec(t, Act::JjRepoLive, repo, seq!["op"@, "restore"@, op_id])
}

/// Restores the repository to the operation `op_id`.
pub fn op_restore(tape: &mut Tape, repo: &str, op_id: &str) -> (r: Result<String, Stop>)
    ensures
        agrees(r, final(tape)@, op_restore_spec(old(tape)@, repo@, op_id@)),
{
    reveal(op_restore_spec);
    jj(tape, Act::JjRepoLive, repo, args3("op", "restore", op_id))
}

#[verifier::opaque]
pub open spec fn only_snapshots_since_spec(
    t: Trace,
    repo: Seq<char>,
    expected_op_id: Seq<char>,
    limit: usize,
) -> Out<bool> {
    bind(
        jj_spec(t, Act::JjRepo, repo, op_log_args(limit, OP_SNAPSHOT_TEMPLATE@)),
        |out: Seq<char>, t: Trace|
            Out::Got(snapshots_only_spec(records_spec(out), expected_op_id), t),
    )
}

/// Are all operations since `expected_op_id` snapshots? An operation that is not among the last
/// `limit` counts as left behind by more than snapshots.
pub fn only_snapshots_since(
    tape: &mut Tape,
    repo: &str,
    expected_op_id: &str,
    limit: usize,
) -> (r: Result<bool, Stop>)
    ensures
        agrees(
            r,
            final(tape)@,
            only_snapshots_since_spec(old(tape)@, repo@, expected_op_id@, limit),
        ),
{
    reveal(only_snapshots_since_spec);
    let out = jj(tape, Act::JjRepo, repo, op_log_argv(limit, OP_SNAPSHOT_TEMPLATE))?;
    Ok(snapshots_only(&records(&out), expected_op_id))
}

// ---------------------------------------------------------------------------
// Workspaces
// ---------------------------------------------------------------------------

#[verifier::opaque]
pub open spec fn workspace_root_by_name_spec(t: Trace, name: Option<Seq<char>>) -> Out<Seq<char>> {
    jj_spec(
        t,
        Act::JjBootstrap,
        Seq::empty(),
        match name {
            Some(n) => seq!["workspace"@, "root"@, "--name"@, n],
            None => seq!["workspace"@, "root"@],
        },
    )
}

fn workspace_root_by_name(tape: &mut Tape, name: Option<&str>) -> (r: Result<String, Stop>)
    ensures
        agrees(r, final(tape)@, workspace_root_by_name_spec(old(tape)@, name.deep_view())),
{
    reveal(workspace_root_by_name_spec);
    let args = match name {
        Some(n) => args4("workspace", "root", "--name", n),
        None => args2("workspace", "root"),
    };
    let here = String::new();
    assert(here@ =~= Seq::<char>::empty());
    jj(tape, Act::JjBootstrap, &here, args)
}

#[verifier::opaque]
pub open spec fn workspace_root_spec(t: Trace) -> Out<Seq<char>> {
    workspace_root_by_name_spec(t, Some("default"@))
}

/// The root of the default workspace.
pub fn workspace_root(tape: &mut Tape) -> (r: Result<String, Stop>)
    ensures
        agrees(r, final(tape)@, workspace_root_spec(old(tape)@)),
{
    reveal(workspace_root_spec);
    workspace_root_by_name(tape, Some("default"))
}

#[verifier::opaque]
pub open spec fn current_workspace_root_spec(t: Trace) -> Out<Seq<char>> {
    workspace_root_by_name_spec(t, None)
}

/// The root of the workspace that the current directory is in.
pub fn current_workspace_root(tape: &mut Tape) -> (r: Result<String, Stop>)
    ensures
        agrees(r, final(tape)@, current_workspace_root_spec(old(tape)@)),
{
    reveal(current_workspace_root_spec);
    workspace_root_by_name(tape, None)
}

#[verifier::opaque]
pub open spec fn list_workspace_entries_spec(
    t: Trace,
    repo: Seq<char>,
) -> Out<Seq<WorkspaceEntryV>> {
    bind(
        jj_spec(
            t,
            Act::JjRepo,
            repo,
            seq!["workspace"@, "list"@, "--template"@, LIST_TEMPLATE@],
        ),
        |out: Seq<char>, t: Trace|
            match entries_spec(out) {
                Ok(v) => Out::Got(v, t),
                Err(e) => Out::Fail(e, t),
            },
    )
}

/// The workspaces, with one jj call.
pub fn list_workspace_entries(tape: &mut Tape, repo: &str) -> (r: Result<Vec<WorkspaceEntry>, Stop>)
    ensures
        agrees(r, final(tape)@, list_workspace_entries_spec(old(tape)@, repo@)),
{
    reveal(list_workspace_entries_spec);
    let out = jj(tape, Act::JjRepo, repo, args4("workspace", "list", "--template", LIST_TEMPLATE))?;
    match parse_entries(&out) {
        Ok(v) => Ok(v),
        Err(e) => Err(Stop::Fail(e)),
    }
}

#[verifier::opaque]
pub open spec fn completion_workspaces_spec(t: Trace) -> Out<Seq<CompletionWorkspaceV>> {
    bind(
        jj_timed_spec(
            t,
            seq!["--no-pager"@, "workspace"@, "list"@, "--template"@, COMPLETION_WS_TEMPLATE@],
        ),
        |out: Seq<char>, t: Trace| Out::Got(completion_ws_list_spec(out), t),
    )
}

/// The workspaces for shell completion, under a bounded time.
pub fn completion_workspaces(tape: &mut Tape) -> (r: Result<Vec<CompletionWorkspace>, Stop>)
    ensures
        agrees(r, final(tape)@, completion_workspaces_spec(old(tape)@)),
{
    reveal(completion_workspaces_spec);
    let out = jj_timed(
        tape,
        args5("--no-pager", "workspace", "list", "--template", COMPLETION_WS_TEMPLATE),
    )?;
    Ok(parse_completion_workspaces(&out))
}

#[verifier::opaque]
pub open spec fn completion_local_bookmarks_spec(t: Trace) -> Out<Seq<(Seq<char>, Option<i64>)>> {
    bind(
        jj_timed_spec(
            t,
            seq!["--no-pager"@] + log_args_spec("bookmarks()"@, COMPLETION_BOOKMARK_TEMPLATE@),
        ),
        |out: Seq<char>, t: Trace| Out::Got(completion_bookmarks_spec(out), t),
    )
}

/// The local bookmarks for shell completion, each with the committer time of its commit.
pub fn completion_local_bookmarks(tape: &mut Tape) -> (r: Result<Vec<(String, Option<i64>)>, Stop>)
    ensures
        agrees(r, final(tape)@, completion_local_bookmarks_spec(old(tape)@)),
{
    reveal(completion_local_bookmarks_spec);
    let mut head: Vec<String> = Vec::new();
    head.push("--no-pager".to_string());
    assert(head.deep_view() =~= seq!["--no-pager"@]);
    let args = args_then(head, &log_args("bookmarks()", COMPLETION_BOOKMARK_TEMPLATE));
    let out = jj_timed(tape, args)?;
    Ok(parse_completion_bookmarks(&out))
}

/// A revset of the working-copy commits of `entries`.
pub open spec fn all_wcs_spec(entries: Seq<WorkspaceEntryV>) -> Seq<char> {
    join_spec(entries.map_values(|e: WorkspaceEntryV| ws_rev_spec(e.name)), " | "@)
}

fn all_wcs(entries: &Vec<WorkspaceEntry>) -> (r: String)
    ensures
        r@ == all_wcs_spec(entries.deep_view()),
{
    let ghost all = entries.deep_view().map_values(|e: WorkspaceEntryV| ws_rev_spec(e.name));
    let mut v: Vec<String> = Vec::new();
    for i in 0..entries.len()
        invariant
            all == entries.deep_view().map_values(|e: WorkspaceEntryV| ws_rev_spec(e.name)),
            v.deep_view() == all.take(i as int),
    {
        let ghost before = v.deep_view();
        let w = ws_rev(&entries[i].name);
        v.push(w);
        assert(v.deep_view() =~= before.push(w@));
        assert(all.take(i + 1) =~= all.take(i as int).push(all[i as int]));
    }
    assert(all.take(entries@.len() as int) =~= all);
    join(&v, " | ")
}

/// The ranks of the change ids of `entries` in `ids`.
pub open spec fn ranks_in(entries: Seq<WorkspaceEntryV>, ids: Seq<Seq<char>>) -> Seq<usize> {
    entries.map_values(|e: WorkspaceEntryV| rank_of(ids, e.change_id))
}

fn rank_all(entries: &Vec<WorkspaceEntry>, ids: &Vec<String>) -> (r: Vec<usize>)
    ensures
        r@ == ranks_in(entries.deep_view(), ids.deep_view()),
{
    let ghost all = ranks_in(entries.deep_view(), ids.deep_view());
    let mut v: Vec<usize> = Vec::new();
    for i in 0..entries.len()
        invariant
            all == ranks_in(entries.deep_view(), ids.deep_view()),
            v@ == all.take(i as int),
    {
        let k: usize = rank(ids, &entries[i].change_id);
        v.push(k);
        assert(all.take(i + 1) =~= all.take(i as int).push(all[i as int]));
    }
    assert(all.take(entries@.len() as int) =~= all);
    v
}

#[verifier::opaque]
pub open spec fn descendant_first_workspaces_spec(
    t: Trace,
    repo: Seq<char>,
    entries: Seq<WorkspaceEntryV>,
) -> Out<Seq<usize>> {
    if entries.len() <= 1 {
        Out::Got(Seq::new(entries.len(), |i: int| i as usize), t)
    } else {
        bind(
            jj_spec(t, Act::JjRepo, repo, log_args_spec(all_wcs_spec(entries), TMPL_ID_LINE@)),
            |out: Seq<char>, t: Trace|
                Out::Got(positions_spec(ranks_in(entries, full_lines_spec(out))), t),
        )
    }
}

/// The positions of `entries`, descendants before their ancestors. Entries that jj no longer
/// knows come last, in their own order.
pub fn descendant_first_workspaces(
    tape: &mut Tape,
    repo: &str,
    entries: &Vec<WorkspaceEntry>,
) -> (r: Result<Vec<usize>, Stop>)
    ensures
        agrees(
            r,
            final(tape)@,
            descendant_first_workspaces_spec(old(tape)@, repo@, entries.deep_view()),
        ),
        r matches Ok(v) ==> forall|i: int| 0 <= i < v@.len() ==> v@[i] < entries@.len(),
{
    reveal(descendant_first_workspaces_spec);
    assert(entries.deep_view().len() == entries@.len());
    if entries.len() <= 1 {
        let mut v: Vec<usize> = Vec::new();
        for i in 0..entries.len()
            invariant
                v@ == Seq::new(i as nat, |i: int| i as usize),
        {
            v.push(i);
            assert(v@ =~= Seq::new((i + 1) as nat, |i: int| i as usize));
        }
        assert(v.deep_view() =~= v@);
        return Ok(v);
    }
    let out = jj(tape, Act::JjRepo, repo, log_args(&all_wcs(entries), TMPL_ID_LINE))?;
    let v = positions(&rank_all(entries, &full_lines(&out)));
    assert(v.deep_view() =~= v@);
    Ok(v)
}

#[verifier::opaque]
pub open spec fn last_nonempty_timestamp_spec(
    t: Trace,
    repo: Seq<char>,
    change_id: Seq<char>,
) -> Out<Option<i64>> {
    bind(
        attempt_spec(
            jj_spec(
                t,
                Act::JjRepo,
                repo,
                seq![
                    "log"@,
                    "--no-graph"@,
                    "--limit"@,
                    "1"@,
                    "--revision"@,
                    "::"@ + change_id + " ~ empty()"@,
                    "--template"@,
                    "committer.timestamp().format(\"%s\")"@,
                ],
            ),
        ),
        |r: Result<Seq<char>, FailureV>, t: Trace|
            Out::Got(
                match r {
                    Ok(s) => parse_i64_spec(trim_spec(s, Cut::White)),
                    Err(_) => None,
                },
                t,
            ),
    )
}

/// When the newest non-empty ancestor of `change_id` was committed, in epoch seconds.
pub fn last_nonempty_timestamp(
    tape: &mut Tape,
    repo: &str,
    change_id: &str,
) -> (r: Result<Option<i64>, Stop>)
    ensures
        agrees(r, final(tape)@, last_nonempty_timestamp_spec(old(tape)@, repo@, change_id@)),
{
    reveal(last_nonempty_timestamp_spec);
    let rev = cat3("::", change_id, " ~ empty()");
    let args = args8(
        "log",
        "--no-graph",
        "--limit",
        "1",
        "--revision",
        &rev,
        "--template",
        "committer.timestamp().format(\"%s\")",
    );
    match attempt(jj(tape, Act::JjRepo, repo, args))? {
        Ok(s) => {
            let n = parse_i64(&trim(&s, Cut::White));
            assert(n.deep_view() == n);
            Ok(n)
        },
        Err(_) => {
            let n: Option<i64> = None;
            assert(n.deep_view() == n);
            Ok(n)
        },
    }
}

// ---------------------------------------------------------------------------
// Laws
// ---------------------------------------------------------------------------

/// Workspaces come in the order in which jj lists their revisions, which is that of descendants
/// before ancestors. Each comes once; those that jj does not list come last, in their own order.
pub proof fn law_descendants_come_first(
    t: Trace,
    repo: Seq<char>,
    entries: Seq<WorkspaceEntryV>,
    listing: Seq<char>,
    u: Trace,
)
    requires
        1 < entries.len() <= usize::MAX,
        jj_spec(t, Act::JjRepo, repo, log_args_spec(all_wcs_spec(entries), TMPL_ID_LINE@))
            == Out::Got(listing, u),
    ensures
        descendant_first_workspaces_spec(t, repo, entries) matches Out::Got(order, w) && {
            let keys = ranks_in(entries, full_lines_spec(listing));
            &&& w == u
            &&& is_sorted(order, stable_order(keys))
            &&& order.len() == entries.len()
            &&& order.to_multiset() == Seq::new(
                entries.len(),
                |i: int| i as usize,
            ).to_multiset()
        },
{
    reveal(descendant_first_workspaces_spec);
    let keys = ranks_in(entries, full_lines_spec(listing));
    assert(keys.len() == entries.len());
    lemma_positions(keys);
}

} // verus!
