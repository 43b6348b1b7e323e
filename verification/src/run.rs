//! The commands as they run from the command line.

use vstd::prelude::*;

use crate::commands::close::{close, close_spec, CloseParams, CloseParamsV};
use crate::commands::sync::{sync, sync_spec};
use crate::commands::transfer::{transfer, transfer_spec, TransferParams, TransferParamsV};
use crate::commands::types::{
    blocks_spec, display_blocks, format_post_close_errors, post_close_spec, BookmarkAction,
    CloseMethod, CloseTransferResult, CloseTransferResultV, PostOperationErrorV, TransferMethod,
};
use crate::config::{repo_name_spec, resolve_repo_name, Config, ConfigV};
use crate::jj_logs::{copy_revisions, RevisionInfo, RevisionInfoV};
use crate::jujutsu::{
    current_workspace_root, current_workspace_root_spec, workspace_root, workspace_root_spec,
};
use crate::operations::{SyncOutcome, SyncOutcomeV};
use crate::paths::{components_spec, same_components};
use crate::shell::env::{cd_command, write_directive_cd, write_directive_cd_spec};
use crate::shell::install::{print_all, print_all_spec};
use crate::stale::{is_stale_error, says_stale};
use crate::tape::{
    agrees, ask, ask_spec, at, at_spec, bind, each, failure, failure_spec, lemma_each_step,
    outermost_spec, tell, tell_spec, Act, Failure, FailureV, Kind, Out, ReplyV, Stop, Tape, Trace,
};
use crate::text::{
    borrow_opt, cat2, cat3, cat7, chain, head_bytes, join, join_spec, same, take_bytes,
};
use crate::text_map::Pairs;
use crate::text_utils::{truncate_end, truncate_end_spec};
use crate::workspaces::{list_workspaces, list_workspaces_spec, Workspace, WorkspaceV};

verus! {

// ---------------------------------------------------------------------------
// Source and target
// ---------------------------------------------------------------------------

/// The two workspaces of a command.
#[derive(Debug)]
pub struct Sides {
    pub src_name: String,
    pub src_path: String,
    pub tgt_name: String,
    pub tgt_path: String,
}

pub struct SidesV {
    pub src_name: Seq<char>,
    pub src_path: Seq<char>,
    pub tgt_name: Seq<char>,
    pub tgt_path: Seq<char>,
}

impl DeepView for Sides {
    type V = SidesV;

    open spec fn deep_view(&self) -> SidesV {
        SidesV {
            src_name: self.src_name@,
            src_path: self.src_path@,
            tgt_name: self.tgt_name@,
            tgt_path: self.tgt_path@,
        }
    }
}

/// The first workspace of a name.
pub open spec fn named(ws: Seq<WorkspaceV>, name: Seq<char>) -> Option<WorkspaceV>
    decreases ws.len(),
{
    if ws.len() == 0 {
        None
    } else if ws[0].name == name {
        Some(ws[0])
    } else {
        named(ws.drop_first(), name)
    }
}

fn find_named(ws: &Vec<Workspace>, name: &str) -> (r: Option<usize>)
    ensures
        match r {
            Some(i) => i < ws@.len() && named(ws.deep_view(), name@) == Some(
                ws@[i as int].deep_view(),
            ),
            None => named(ws.deep_view(), name@) is None,
        },
{
    let ghost all = ws.deep_view();
    assert(all.skip(0) =~= all);
    for i in 0..ws.len()
        invariant
            all == ws.deep_view(),
            named(all, name@) == named(all.skip(i as int), name@),
    {
        proof {
            lemma_each_step(all, i as int);
        }
        assert(all[i as int] == ws@[i as int].deep_view());
        if same(&ws[i].name, name) {
            return Some(i);
        }
    }
    None
}

/// The first workspace at a path.
pub open spec fn rooted(ws: Seq<WorkspaceV>, path: Seq<char>) -> Option<WorkspaceV>
    decreases ws.len(),
{
    if ws.len() == 0 {
        None
    } else if components_spec(ws[0].path) == components_spec(path) {
        Some(ws[0])
    } else {
        rooted(ws.drop_first(), path)
    }
}

fn find_rooted(ws: &Vec<Workspace>, path: &str) -> (r: Option<usize>)
    ensures
        match r {
            Some(i) => i < ws@.len() && rooted(ws.deep_view(), path@) == Some(
                ws@[i as int].deep_view(),
            ),
            None => rooted(ws.deep_view(), path@) is None,
        },
{
    let ghost all = ws.deep_view();
    assert(all.skip(0) =~= all);
    for i in 0..ws.len()
        invariant
            all == ws.deep_view(),
            rooted(all, path@) == rooted(all.skip(i as int), path@),
    {
        proof {
            lemma_each_step(all, i as int);
        }
        assert(all[i as int] == ws@[i as int].deep_view());
        if same_components(&ws[i].path, path) {
            return Some(i);
        }
    }
    None
}

pub open spec fn not_found_spec(name: Seq<char>) -> FailureV {
    failure_spec("workspace '"@ + name + "' not found"@)
}

fn not_found(name: &str) -> (r: Failure)
    ensures
        r.deep_view() == not_found_spec(name@),
{
    failure(cat3("workspace '", name, "' not found"))
}

pub open spec fn name_path(w: WorkspaceV) -> (Seq<char>, Seq<char>) {
    (w.name, w.path)
}

/// The named workspace, else the one of the current directory.
#[verifier::opaque]
pub open spec fn source_of_spec(
    t: Trace,
    workspaces: Seq<WorkspaceV>,
    source: Option<Seq<char>>,
) -> Out<(Seq<char>, Seq<char>)> {
    match source {
        Some(name) => match named(workspaces, name) {
            Some(w) => Out::Got(name_path(w), t),
            None => Out::Fail(not_found_spec(name), t),
        },
        None => bind(
            current_workspace_root_spec(t),
            |root: Seq<char>, t: Trace|
                match rooted(workspaces, root) {
                    Some(w) => Out::Got(name_path(w), t),
                    None => Out::Fail(
                        failure_spec("current directory is not a jj workspace"@),
                        t,
                    ),
                },
        ),
    }
}

fn source_of(
    tape: &mut Tape,
    workspaces: &Vec<Workspace>,
    source: Option<&str>,
) -> (r: Result<(String, String), Stop>)
    ensures
        agrees(
            r,
            final(tape)@,
            source_of_spec(old(tape)@, workspaces.deep_view(), source.deep_view()),
        ),
{
    reveal(source_of_spec);
    match source {
        Some(name) => match find_named(workspaces, name) {
            Some(i) => Ok((workspaces[i].name.clone(), workspaces[i].path.clone())),
            None => Err(Stop::Fail(not_found(name))),
        },
        None => {
            let root = current_workspace_root(tape)?;
            match find_rooted(workspaces, &root) {
                Some(i) => Ok((workspaces[i].name.clone(), workspaces[i].path.clone())),
                None => Err(
                    Stop::Fail(failure("current directory is not a jj workspace".to_string())),
                ),
            }
        },
    }
}

/// The named workspace, else the default one.
pub open spec fn target_spec(
    repo_root: Seq<char>,
    workspaces: Seq<WorkspaceV>,
    target: Option<Seq<char>>,
) -> Result<(Seq<char>, Seq<char>), FailureV> {
    match target {
        Some(name) => match named(workspaces, name) {
            Some(w) => Ok(name_path(w)),
            None => Err(not_found_spec(name)),
        },
        None => match rooted(workspaces, repo_root) {
            Some(w) => Ok(name_path(w)),
            None => Err(
                failure_spec(
                    "no target workspace specified and no default workspace found"@,
                ),
            ),
        },
    }
}

fn target_of(repo_root: &str, workspaces: &Vec<Workspace>, target: Option<&str>) -> (r: Result<
    (String, String),
    Failure,
>)
    ensures
        match (r, target_spec(repo_root@, workspaces.deep_view(), target.deep_view())) {
            (Ok(x), Ok(y)) => (x.0@, x.1@) == y,
            (Err(e), Err(f)) => e.deep_view() == f,
            _ => false,
        },
{
    match target {
        Some(name) => match find_named(workspaces, name) {
            Some(i) => Ok((workspaces[i].name.clone(), workspaces[i].path.clone())),
            None => Err(not_found(name)),
        },
        None => match find_rooted(workspaces, repo_root) {
            Some(i) => Ok((workspaces[i].name.clone(), workspaces[i].path.clone())),
            None => Err(
                failure(
                    "no target workspace specified and no default workspace found".to_string(),
                ),
            ),
        },
    }
}

#[verifier::opaque]
pub open spec fn resolve_src_tgt_spec(
    t: Trace,
    repo_root: Seq<char>,
    workspaces: Seq<WorkspaceV>,
    source: Option<Seq<char>>,
    target: Option<Seq<char>>,
) -> Out<SidesV> {
    bind(
        source_of_spec(t, workspaces, source),
        |src: (Seq<char>, Seq<char>), t: Trace|
            match target_spec(repo_root, workspaces, target) {
                Ok(tgt) => Out::Got(
                    SidesV { src_name: src.0, src_path: src.1, tgt_name: tgt.0, tgt_path: tgt.1 },
                    t,
                ),
                Err(e) => Out::Fail(e, t),
            },
    )
}

/// The workspaces that a command is about. Without a source it is the current one, and without a
/// target the default one.
pub fn resolve_src_tgt(
    tape: &mut Tape,
    repo_root: &str,
    workspaces: &Vec<Workspace>,
    source: Option<&str>,
    target: Option<&str>,
) -> (r: Result<Sides, Stop>)
    ensures
        agrees(
            r,
            final(tape)@,
            resolve_src_tgt_spec(
                old(tape)@,
                repo_root@,
                workspaces.deep_view(),
                source.deep_view(),
                target.deep_view(),
            ),
        ),
{
    reveal(resolve_src_tgt_spec);
    let src = source_of(tape, workspaces, source)?;
    match target_of(repo_root, workspaces, target) {
        Ok(tgt) => Ok(
            Sides { src_name: src.0, src_path: src.1, tgt_name: tgt.0, tgt_path: tgt.1 },
        ),
        Err(e) => Err(Stop::Fail(e)),
    }
}

// ---------------------------------------------------------------------------
// Close
// ---------------------------------------------------------------------------

/// Does a method close into a target?
pub open spec fn needs_target_spec(m: CloseMethod) -> bool {
    m != CloseMethod::Detach && m != CloseMethod::Abandon
}

pub open spec fn method_name_spec(m: CloseMethod) -> Seq<char> {
    match m {
        CloseMethod::Adaptive => "Adaptive"@,
        CloseMethod::Merge => "Merge"@,
        CloseMethod::SquashMerge => "SquashMerge"@,
        CloseMethod::FastForward => "FastForward"@,
        CloseMethod::Detach => "Detach"@,
        CloseMethod::Abandon => "Abandon"@,
    }
}

fn method_name(m: CloseMethod) -> (r: String)
    ensures
        r@ == method_name_spec(m),
{
    match m {
        CloseMethod::Adaptive => "Adaptive".to_string(),
        CloseMethod::Merge => "Merge".to_string(),
        CloseMethod::SquashMerge => "SquashMerge".to_string(),
        CloseMethod::FastForward => "FastForward".to_string(),
        CloseMethod::Detach => "Detach".to_string(),
        CloseMethod::Abandon => "Abandon".to_string(),
    }
}

/// Is a target missing? One of the two workspaces has to be named.
pub open spec fn close_refusal_spec(
    method: CloseMethod,
    source: Option<Seq<char>>,
    target: Option<Seq<char>>,
) -> Option<FailureV> {
    if needs_target_spec(method) && target is None && source is None {
        Some(
            failure_spec(
                "target workspace is required for --method "@ + method_name_spec(method),
            ),
        )
    } else {
        None
    }
}

pub fn close_refusal(method: CloseMethod, source: Option<&str>, target: Option<&str>) -> (r: Option<
    Failure,
>)
    ensures
        r.deep_view() == close_refusal_spec(method, source.deep_view(), target.deep_view()),
{
    if method != CloseMethod::Detach && method != CloseMethod::Abandon && target.is_none()
        && source.is_none() {
        Some(
            failure(cat2("target workspace is required for --method ", &method_name(method))),
        )
    } else {
        None
    }
}

/// What a close is asked to do.
pub open spec fn close_params(
    repo_root: Seq<char>,
    config: ConfigV,
    workspaces: Seq<WorkspaceV>,
    sides: SidesV,
    method: CloseMethod,
    delete_files: bool,
) -> CloseParamsV {
    CloseParamsV {
        repo_root,
        source_name: sides.src_name,
        source_path: sides.src_path,
        target_name: sides.tgt_name,
        target_path: sides.tgt_path,
        target_change_id: match (
            named(workspaces, sides.src_name),
            named(workspaces, sides.tgt_name),
        ) {
            (Some(_), Some(w)) => w.change_id,
            _ => Seq::empty(),
        },
        method,
        delete_files,
        bookmark_action: BookmarkAction::NoAction,
        bookmarks: Seq::empty(),
        revisions: match named(workspaces, sides.src_name) {
            Some(w) => w.revisions,
            None => Seq::empty(),
        },
        workspace_path_template: config.workspace_path,
        repo_name: repo_name_spec(config, repo_root),
        author: config.ji_author,
    }
}

#[verifier::opaque]
pub open spec fn close_sides_spec(
    t: Trace,
    repo_root: Seq<char>,
    config: ConfigV,
    workspaces: Seq<WorkspaceV>,
    sides: SidesV,
    method: CloseMethod,
    delete_files: bool,
) -> Out<CloseTransferResultV> {
    close_spec(
        t,
        close_params(repo_root, config, workspaces, sides, method, delete_files),
    )
}

fn close_sides(
    tape: &mut Tape,
    repo_root: &str,
    config: &Config,
    workspaces: &Vec<Workspace>,
    sides: &Sides,
    method: CloseMethod,
    delete_files: bool,
) -> (r: Result<CloseTransferResult, Stop>)
    ensures
        agrees(
            r,
            final(tape)@,
            close_sides_spec(
                old(tape)@,
                repo_root@,
                config.deep_view(),
                workspaces.deep_view(),
                sides.deep_view(),
                method,
                delete_files,
            ),
        ),
{
    reveal(close_sides_spec);
    let src = find_named(workspaces, &sides.src_name);
    let tgt = find_named(workspaces, &sides.tgt_name);
    let revisions = match src {
        Some(i) => copy_revisions(&workspaces[i].revisions),
        None => {
            let none: Vec<RevisionInfo> = Vec::new();
            assert(none.deep_view() =~= Seq::<RevisionInfoV>::empty());
            none
        },
    };
    let target_change_id = match (src, tgt) {
        (Some(_), Some(j)) => workspaces[j].change_id.clone(),
        _ => {
            let s = String::new();
            assert(s@ =~= Seq::<char>::empty());
            s
        },
    };
    let repo_name = resolve_repo_name(config, repo_root);
    let bookmarks: Vec<String> = Vec::new();
    assert(bookmarks.deep_view() =~= Seq::empty());
    let listed = revisions.as_slice();
    assert(listed.deep_view() =~= revisions.deep_view());
    let params = CloseParams {
        repo_root,
        source_name: &sides.src_name,
        source_path: &sides.src_path,
        target_name: &sides.tgt_name,
        target_path: &sides.tgt_path,
        target_change_id: &target_change_id,
        method,
        delete_files,
        bookmark_action: BookmarkAction::NoAction,
        bookmarks,
        revisions: listed,
        workspace_path_template: &config.workspace_path,
        repo_name: &repo_name,
        author: borrow_opt(&config.ji_author),
    };
    close(tape, &params)
}

#[verifier::opaque]
pub open spec fn tell_stale_spec(t: Trace, stale: Seq<Seq<char>>) -> Out<()> {
    if stale.len() == 0 {
        Out::Got((), t)
    } else {
        tell_spec(t, Act::Warn, "(ji)::stale: "@ + join_spec(stale, ", "@))
    }
}

fn tell_stale(tape: &mut Tape, stale: &Vec<String>) -> (r: Result<(), Stop>)
    ensures
        agrees(r, final(tape)@, tell_stale_spec(old(tape)@, stale.deep_view())),
{
    reveal(tell_stale_spec);
    assert(stale.deep_view().len() == stale@.len());
    if stale.len() == 0 {
        Ok(())
    } else {
        tell(tape, Act::Warn, cat2("(ji)::stale: ", &join(stale, ", ")))
    }
}

/// Says one warning behind `prefix`.
pub open spec fn warning_step(prefix: Seq<char>) -> spec_fn(Trace, (), Seq<char>) -> Out<()> {
    |t: Trace, u: (), w: Seq<char>| tell_spec(t, Act::Warn, prefix + w)
}

fn tell_warnings(tape: &mut Tape, prefix: &str, warnings: &Vec<String>) -> (r: Result<(), Stop>)
    ensures
        agrees(
            r,
            final(tape)@,
            each(old(tape)@, warnings.deep_view(), (), warning_step(prefix@)),
        ),
{
    let ghost t0 = tape@;
    let ghost all = warnings.deep_view();
    let ghost step = warning_step(prefix@);
    assert(all.skip(0) =~= all);
    for i in 0..warnings.len()
        invariant
            t0 == old(tape)@,
            all == warnings.deep_view(),
            step == warning_step(prefix@),
            each(t0, all, (), step) == each(tape@, all.skip(i as int), (), step),
    {
        proof {
            lemma_each_step(all, i as int);
        }
        assert(all[i as int] == warnings@[i as int]@);
        tell(tape, Act::Warn, cat2(prefix, &warnings[i]))?;
    }
    Ok(())
}

/// Says `report` where something failed after the main operation.
pub open spec fn tell_errors_spec(
    t: Trace,
    errors: Seq<PostOperationErrorV>,
    report: Seq<char>,
) -> Out<()> {
    if errors.len() == 0 {
        Out::Got((), t)
    } else {
        tell_spec(t, Act::Warn, report)
    }
}

/// What a close has to say: what stayed stale, its warnings, and what failed after it.
#[verifier::opaque]
pub open spec fn tell_close_spec(t: Trace, src_name: Seq<char>, r: CloseTransferResultV) -> Out<
    (),
> {
    bind(
        tell_stale_spec(t, r.stale_warnings),
        |u: (), t: Trace|
            bind(
                each(t, r.warnings, (), warning_step("(ji)::close warning: "@)),
                |u: (), t: Trace|
                    tell_errors_spec(t, r.post_errors, post_close_spec(src_name, r.post_errors)),
            ),
    )
}

fn tell_close(tape: &mut Tape, src_name: &str, r: &CloseTransferResult) -> (x: Result<(), Stop>)
    ensures
        agrees(x, final(tape)@, tell_close_spec(old(tape)@, src_name@, r.deep_view())),
{
    reveal(tell_close_spec);
    tell_stale(tape, &r.stale_warnings)?;
    tell_warnings(tape, "(ji)::close warning: ", &r.warnings)?;
    assert(r.post_errors.deep_view().len() == r.post_errors@.len());
    if r.post_errors.len() == 0 {
        return Ok(());
    }
    tell(tape, Act::Warn, format_post_close_errors(src_name, r.post_errors.as_slice()))
}

/// What a transfer has to say: what stayed stale, its warnings, and what failed after it.
#[verifier::opaque]
pub open spec fn tell_transfer_spec(t: Trace, r: CloseTransferResultV) -> Out<()> {
    bind(
        tell_stale_spec(t, r.stale_warnings),
        |u: (), t: Trace|
            bind(
                each(t, r.warnings, (), warning_step("(ji)::transfer warning: "@)),
                |u: (), t: Trace|
                    tell_errors_spec(t, r.post_errors, blocks_spec(r.post_errors)),
            ),
    )
}

fn tell_transfer(tape: &mut Tape, r: &CloseTransferResult) -> (x: Result<(), Stop>)
    ensures
        agrees(x, final(tape)@, tell_transfer_spec(old(tape)@, r.deep_view())),
{
    reveal(tell_transfer_spec);
    tell_stale(tape, &r.stale_warnings)?;
    tell_warnings(tape, "(ji)::transfer warning: ", &r.warnings)?;
    assert(r.post_errors.deep_view().len() == r.post_errors@.len());
    if r.post_errors.len() == 0 {
        return Ok(());
    }
    tell(tape, Act::Warn, display_blocks(r.post_errors.as_slice()))
}

#[verifier::opaque]
pub open spec fn remove_files_spec(t: Trace, path: Option<Seq<char>>) -> Out<()> {
    match path {
        None => Out::Got((), t),
        Some(p) => bind(
            tell_spec(t, Act::Warn, "(ji)::removing "@ + p),
            |u: (), t: Trace|
                bind(
                    ask_spec(t, at_spec(Act::RemoveDir, p)),
                    |r: ReplyV, t: Trace| Out::Got((), t),
                ),
        ),
    }
}

fn remove_files(tape: &mut Tape, path: Option<&str>) -> (r: Result<(), Stop>)
    ensures
        agrees(r, final(tape)@, remove_files_spec(old(tape)@, path.deep_view())),
{
    reveal(remove_files_spec);
    match path {
        None => Ok(()),
        Some(p) => {
            tell(tape, Act::Warn, cat2("(ji)::removing ", p))?;
            let _ = ask(tape, at(Act::RemoveDir, p))?;
            Ok(())
        },
    }
}

/// Whoever stands in the workspace that was closed goes to the root of the repository.
#[verifier::opaque]
pub open spec fn leave_spec(t: Trace, repo_root: Seq<char>, src_path: Seq<char>) -> Out<()> {
    bind(
        current_workspace_root_spec(t),
        |root: Seq<char>, t: Trace|
            if components_spec(src_path) == components_spec(root) {
                write_directive_cd_spec(t, repo_root)
            } else {
                Out::Got((), t)
            },
    )
}

fn leave(tape: &mut Tape, repo_root: &str, src_path: &str) -> (r: Result<(), Stop>)
    ensures
        agrees(r, final(tape)@, leave_spec(old(tape)@, repo_root@, src_path@)),
{
    reveal(leave_spec);
    let root = current_workspace_root(tape)?;
    if same_components(src_path, &root) {
        write_directive_cd(tape, repo_root)
    } else {
        Ok(())
    }
}

#[verifier::opaque]
pub open spec fn cmd_close_spec(
    t: Trace,
    repo_root: Seq<char>,
    config: ConfigV,
    source: Option<Seq<char>>,
    target: Option<Seq<char>>,
    method: CloseMethod,
    delete_files: bool,
) -> Out<()> {
    match close_refusal_spec(method, source, target) {
        Some(e) => Out::Fail(e, t),
        None => bind(
            list_workspaces_spec(t, repo_root),
            |workspaces: Seq<WorkspaceV>, t: Trace|
                bind(
                    resolve_src_tgt_spec(t, repo_root, workspaces, source, target),
                    |sides: SidesV, t: Trace|
                        bind(
                            close_sides_spec(
                                t,
                                repo_root,
                                config,
                                workspaces,
                                sides,
                                method,
                                delete_files,
                            ),
                            |r: CloseTransferResultV, t: Trace|
                                bind(
                                    tell_close_spec(t, sides.src_name, r),
                                    |u: (), t: Trace|
                                        bind(
                                            remove_files_spec(t, r.pending_remove_path),
                                            |u: (), t: Trace|
                                                leave_spec(t, repo_root, sides.src_path),
                                        ),
                                ),
                        ),
                ),
        ),
    }
}

/// Closes a workspace, says what stayed stale, what to look out for and what failed, removes its
/// files if that was asked for, and leaves it if it is the current one.
pub fn cmd_close(
    tape: &mut Tape,
    repo_root: &str,
    config: &Config,
    source: Option<&str>,
    target: Option<&str>,
    method: CloseMethod,
    delete_files: bool,
) -> (r: Result<(), Stop>)
    ensures
        agrees(
            r,
            final(tape)@,
            cmd_close_spec(
                old(tape)@,
                repo_root@,
                config.deep_view(),
                source.deep_view(),
                target.deep_view(),
                method,
                delete_files,
            ),
        ),
{
    reveal(cmd_close_spec);
    if let Some(e) = close_refusal(method, source, target) {
        return Err(Stop::Fail(e));
    }
    let workspaces = list_workspaces(tape, repo_root)?;
    let sides = resolve_src_tgt(tape, repo_root, &workspaces, source, target)?;
    let r = close_sides(tape, repo_root, config, &workspaces, &sides, method, delete_files)?;
    tell_close(tape, &sides.src_name, &r)?;
    remove_files(tape, borrow_opt(&r.pending_remove_path))?;
    leave(tape, repo_root, &sides.src_path)
}

// ---------------------------------------------------------------------------
// Transfer and sync
// ---------------------------------------------------------------------------

pub open spec fn transfer_params(
    repo_root: Seq<char>,
    config: ConfigV,
    sides: SidesV,
    method: TransferMethod,
) -> TransferParamsV {
    TransferParamsV {
        repo_root,
        source_name: sides.src_name,
        source_path: sides.src_path,
        target_name: sides.tgt_name,
        target_path: sides.tgt_path,
        method,
        workspace_path_template: config.workspace_path,
        repo_name: repo_name_spec(config, repo_root),
        author: config.ji_author,
    }
}

#[verifier::opaque]
pub open spec fn cmd_transfer_spec(
    t: Trace,
    repo_root: Seq<char>,
    config: ConfigV,
    source: Option<Seq<char>>,
    target: Option<Seq<char>>,
    method: TransferMethod,
) -> Out<()> {
    bind(
        list_workspaces_spec(t, repo_root),
        |workspaces: Seq<WorkspaceV>, t: Trace|
            bind(
                resolve_src_tgt_spec(t, repo_root, workspaces, source, target),
                |sides: SidesV, t: Trace|
                    bind(
                        transfer_spec(t, transfer_params(repo_root, config, sides, method)),
                        |r: CloseTransferResultV, t: Trace| tell_transfer_spec(t, r),
                    ),
            ),
    )
}

/// Transfers work between two workspaces, and says what stayed stale, what to look out for and what
/// failed.
pub fn cmd_transfer(
    tape: &mut Tape,
    repo_root: &str,
    config: &Config,
    source: Option<&str>,
    target: Option<&str>,
    method: TransferMethod,
) -> (r: Result<(), Stop>)
    ensures
        agrees(
            r,
            final(tape)@,
            cmd_transfer_spec(
                old(tape)@,
                repo_root@,
                config.deep_view(),
                source.deep_view(),
                target.deep_view(),
                method,
            ),
        ),
{
    reveal(cmd_transfer_spec);
    let workspaces = list_workspaces(tape, repo_root)?;
    let sides = resolve_src_tgt(tape, repo_root, &workspaces, source, target)?;
    let repo_name = resolve_repo_name(config, repo_root);
    let params = TransferParams {
        repo_root,
        source_name: &sides.src_name,
        source_path: &sides.src_path,
        target_name: &sides.tgt_name,
        target_path: &sides.tgt_path,
        method,
        workspace_path_template: &config.workspace_path,
        repo_name: &repo_name,
        author: borrow_opt(&config.ji_author),
    };
    let r = transfer(tape, &params)?;
    tell_transfer(tape, &r)
}

pub open spec fn tell_sync_spec(t: Trace, outcome: SyncOutcomeV) -> Out<()> {
    match outcome {
        SyncOutcomeV::AlreadyInSync => tell_spec(t, Act::Warn, "(ji)::sync already in sync"@),
        SyncOutcomeV::Done { warnings } => each(
            t,
            warnings,
            (),
            warning_step("(ji)::sync warning: "@),
        ),
    }
}

fn tell_sync(tape: &mut Tape, outcome: &SyncOutcome) -> (r: Result<(), Stop>)
    ensures
        agrees(r, final(tape)@, tell_sync_spec(old(tape)@, outcome.deep_view())),
{
    match outcome {
        SyncOutcome::AlreadyInSync => tell(
            tape,
            Act::Warn,
            "(ji)::sync already in sync".to_string(),
        ),
        SyncOutcome::Done { warnings } => tell_warnings(
            tape,
            "(ji)::sync warning: ",
            warnings,
        ),
    }
}

#[verifier::opaque]
pub open spec fn cmd_sync_spec(
    t: Trace,
    repo_root: Seq<char>,
    config: ConfigV,
    source: Option<Seq<char>>,
    target: Option<Seq<char>>,
) -> Out<()> {
    bind(
        list_workspaces_spec(t, repo_root),
        |workspaces: Seq<WorkspaceV>, t: Trace|
            bind(
                resolve_src_tgt_spec(t, repo_root, workspaces, source, target),
                |sides: SidesV, t: Trace|
                    bind(
                        sync_spec(
                            t,
                            repo_root,
                            sides.src_name,
                            sides.src_path,
                            sides.tgt_name,
                            sides.tgt_path,
                            config.workspace_path,
                            repo_name_spec(config, repo_root),
                            config.ji_author,
                            config.preserve_finder_xattrs,
                        ),
                        |outcome: SyncOutcomeV, t: Trace| tell_sync_spec(t, outcome),
                    ),
            ),
    )
}

/// Syncs two workspaces and says how that went.
pub fn cmd_sync(
    tape: &mut Tape,
    repo_root: &str,
    config: &Config,
    source: Option<&str>,
    target: Option<&str>,
) -> (r: Result<(), Stop>)
    ensures
        agrees(
            r,
            final(tape)@,
            cmd_sync_spec(
                old(tape)@,
                repo_root@,
                config.deep_view(),
                source.deep_view(),
                target.deep_view(),
            ),
        ),
{
    reveal(cmd_sync_spec);
    let workspaces = list_workspaces(tape, repo_root)?;
    let sides = resolve_src_tgt(tape, repo_root, &workspaces, source, target)?;
    let repo_name = resolve_repo_name(config, repo_root);
    let outcome = sync(
        tape,
        repo_root,
        &sides.src_name,
        &sides.src_path,
        &sides.tgt_name,
        &sides.tgt_path,
        &config.workspace_path,
        &repo_name,
        borrow_opt(&config.ji_author),
        config.preserve_finder_xattrs,
    )?;
    tell_sync(tape, &outcome)
}

// ---------------------------------------------------------------------------
// List
// ---------------------------------------------------------------------------

/// `s` with spaces behind it, up to `n` characters.
pub open spec fn padded(s: Seq<char>, n: nat) -> Seq<char>
    decreases n - s.len(),
{
    if s.len() >= n {
        s
    } else {
        padded(s.push(' '), n)
    }
}

fn pad(s: &str, n: usize) -> (r: String)
    ensures
        r@ == padded(s@, n as nat),
{
    let mut out = s.to_string();
    let mut k: usize = s.unicode_len();
    while k < n
        invariant
            k == out@.len(),
            padded(s@, n as nat) == padded(out@, n as nat),
        decreases n - k,
    {
        out.push(' ');
        k = k + 1;
    }
    out
}

/// Bookmarks at the head, then those behind it in brackets.
pub open spec fn bookmark_parts(at_head: Pairs, behind: Pairs) -> Seq<Seq<char>> {
    at_head.map_values(|b: (Seq<char>, Seq<char>)| b.0) + behind.map_values(
        |b: (Seq<char>, Seq<char>)| "("@ + b.0 + ")"@,
    )
}

fn list_bookmarks(at_head: &Vec<(String, String)>, behind: &Vec<(String, String)>) -> (r: Vec<
    String,
>)
    ensures
        r.deep_view() == bookmark_parts(at_head.deep_view(), behind.deep_view()),
{
    let ghost a = at_head.deep_view().map_values(|b: (Seq<char>, Seq<char>)| b.0);
    let mut first: Vec<String> = Vec::new();
    for i in 0..at_head.len()
        invariant
            a == at_head.deep_view().map_values(|b: (Seq<char>, Seq<char>)| b.0),
            first.deep_view() == a.take(i as int),
    {
        let ghost before = first.deep_view();
        first.push(at_head[i].0.clone());
        assert(first.deep_view() =~= before.push(at_head@[i as int].0@));
        assert(a.take(i + 1) =~= a.take(i as int).push(a[i as int]));
    }
    assert(a.take(at_head@.len() as int) =~= a);
    let ghost b = behind.deep_view().map_values(
        |b: (Seq<char>, Seq<char>)| "("@ + b.0 + ")"@,
    );
    let mut rest: Vec<String> = Vec::new();
    for i in 0..behind.len()
        invariant
            b == behind.deep_view().map_values(
                |b: (Seq<char>, Seq<char>)| "("@ + b.0 + ")"@,
            ),
            rest.deep_view() == b.take(i as int),
    {
        let ghost before = rest.deep_view();
        rest.push(cat3("(", &behind[i].0, ")"));
        assert(rest.deep_view() =~= before.push("("@ + behind@[i as int].0@ + ")"@));
        assert(b.take(i + 1) =~= b.take(i as int).push(b[i as int]));
    }
    assert(b.take(behind@.len() as int) =~= b);
    chain(first, rest)
}

/// A workspace in one line: whether it is current, its name, id, bookmarks and description.
pub open spec fn list_line_spec(w: WorkspaceV, current_root: Seq<char>) -> Seq<char> {
    (if components_spec(w.path) == components_spec(current_root) {
        "@"@
    } else {
        "+"@
    }) + " "@ + padded(w.name, 20) + " "@ + padded(head_bytes(w.change_id, 8), 10) + " "@ + padded(
        join_spec(bookmark_parts(w.bookmarks_at_head, w.bookmarks_behind), ", "@),
        20,
    ) + " "@ + truncate_end_spec(w.description, 60)
}

pub fn list_line(w: &Workspace, current_root: &str) -> (r: String)
    ensures
        r@ == list_line_spec(w.deep_view(), current_root@),
{
    let gutter = if same_components(&w.path, current_root) {
        "@"
    } else {
        "+"
    };
    let name = pad(&w.name, 20);
    let id = pad(&take_bytes(&w.change_id, 8), 10);
    let bookmarks = pad(
        &join(&list_bookmarks(&w.bookmarks_at_head, &w.bookmarks_behind), ", "),
        20,
    );
    let desc = truncate_end(&w.description, 60);
    let left = cat7(gutter, " ", &name, " ", &id, " ", &bookmarks);
    cat3(&left, " ", &desc)
}

pub open spec fn list_lines(ws: Seq<WorkspaceV>, current_root: Seq<char>) -> Seq<Seq<char>> {
    ws.map_values(|w: WorkspaceV| list_line_spec(w, current_root))
}

fn show_list(ws: &Vec<Workspace>, current_root: &str) -> (r: Vec<String>)
    ensures
        r.deep_view() == list_lines(ws.deep_view(), current_root@),
{
    let ghost all = list_lines(ws.deep_view(), current_root@);
    let mut out: Vec<String> = Vec::new();
    for i in 0..ws.len()
        invariant
            all == list_lines(ws.deep_view(), current_root@),
            out.deep_view() == all.take(i as int),
    {
        let ghost before = out.deep_view();
        assert(ws.deep_view()[i as int] == ws@[i as int].deep_view());
        let line = list_line(&ws[i], current_root);
        out.push(line);
        assert(out.deep_view() =~= before.push(line@));
        assert(all.take(i + 1) =~= all.take(i as int).push(all[i as int]));
    }
    assert(all.take(ws@.len() as int) =~= all);
    out
}

#[verifier::opaque]
pub open spec fn cmd_ls_spec(t: Trace) -> Out<()> {
    bind(
        workspace_root_spec(t),
        |repo_root: Seq<char>, t: Trace|
            bind(
                current_workspace_root_spec(t),
                |current: Seq<char>, t: Trace|
                    bind(
                        list_workspaces_spec(t, repo_root),
                        |ws: Seq<WorkspaceV>, t: Trace|
                            print_all_spec(t, list_lines(ws, current)),
                    ),
            ),
    )
}

/// Lists the workspaces.
pub fn cmd_ls(tape: &mut Tape) -> (r: Result<(), Stop>)
    ensures
        agrees(r, final(tape)@, cmd_ls_spec(old(tape)@)),
{
    reveal(cmd_ls_spec);
    let repo_root = workspace_root(tape)?;
    let current = current_workspace_root(tape)?;
    let ws = list_workspaces(tape, &repo_root)?;
    print_all(tape, &show_list(&ws, &current))
}

// ---------------------------------------------------------------------------
// Failures
// ---------------------------------------------------------------------------

pub const STALE_HINT: &'static str =
    "(ji)::stale working copy is stale \u{2014} another tool modified the repo.\nFix with: jj workspace update-stale";

/// What to say instead of a failure that a stale working copy caused.
pub fn stale_hint(e: &Failure) -> (r: Option<String>)
    ensures
        r.deep_view() == (if says_stale(outermost_spec(e.deep_view())) {
            Some(STALE_HINT@)
        } else {
            None
        }),
{
    if is_stale_error(e) {
        Some(STALE_HINT.to_string())
    } else {
        None
    }
}

// ---------------------------------------------------------------------------
// Laws
// ---------------------------------------------------------------------------

/// A close that names no workspace is refused before jj is asked anything, unless its method needs
/// no target.
pub proof fn law_bare_close_is_refused(
    t: Trace,
    repo_root: Seq<char>,
    config: ConfigV,
    method: CloseMethod,
    delete_files: bool,
)
    requires
        needs_target_spec(method),
    ensures
        cmd_close_spec(t, repo_root, config, None, None, method, delete_files) == Out::<()>::Fail(
            failure_spec(
                "target workspace is required for --method "@ + method_name_spec(method),
            ),
            t,
        ),
{
    reveal(cmd_close_spec);
}

/// Where both workspaces are named, the current directory does not matter.
pub proof fn law_named_sides_need_no_directory(
    t: Trace,
    repo_root: Seq<char>,
    workspaces: Seq<WorkspaceV>,
    source: Seq<char>,
    target: Seq<char>,
)
    requires
        named(workspaces, source) is Some,
        named(workspaces, target) is Some,
    ensures
        resolve_src_tgt_spec(t, repo_root, workspaces, Some(source), Some(target)) matches Out::Got(
            s,
            u,
        ) && u == t && s.src_name == source && s.tgt_name == target,
{
    reveal(resolve_src_tgt_spec);
    reveal(source_of_spec);
    lemma_named(workspaces, source);
    lemma_named(workspaces, target);
}

proof fn lemma_named(ws: Seq<WorkspaceV>, name: Seq<char>)
    ensures
        named(ws, name) matches Some(w) ==> w.name == name,
    decreases ws.len(),
{
    if ws.len() > 0 {
        lemma_named(ws.drop_first(), name);
    }
}

/// Is the workspace at `i` the first of this name?
pub open spec fn first_named(ws: Seq<WorkspaceV>, name: Seq<char>, i: int) -> bool {
    &&& 0 <= i < ws.len()
    &&& ws[i].name == name
    &&& forall|j: int| 0 <= j < i ==> (#[trigger] ws[j]).name != name
}

/// Is the workspace at `i` the first at this path?
pub open spec fn first_rooted(ws: Seq<WorkspaceV>, path: Seq<char>, i: int) -> bool {
    &&& 0 <= i < ws.len()
    &&& components_spec(ws[i].path) == components_spec(path)
    &&& forall|j: int|
        0 <= j < i ==> components_spec((#[trigger] ws[j]).path) != components_spec(path)
}

proof fn lemma_first_named(ws: Seq<WorkspaceV>, name: Seq<char>)
    ensures
        named(ws, name) matches Some(w) ==> exists|i: int| #[trigger]
            first_named(ws, name, i) && ws[i] == w,
        named(ws, name) is None ==> forall|i: int| 0 <= i < ws.len() ==> (#[trigger] ws[i]).name
            != name,
    decreases ws.len(),
{
    if ws.len() > 0 {
        let rest = ws.drop_first();
        if ws[0].name == name {
            assert(first_named(ws, name, 0));
        } else {
            lemma_first_named(rest, name);
            if let Some(w) = named(rest, name) {
                let i = choose|i: int| #[trigger] first_named(rest, name, i) && rest[i] == w;
                assert forall|j: int| 0 <= j < i + 1 implies (#[trigger] ws[j]).name != name by {
                    if j > 0 {
                        assert(rest[j - 1] == ws[j]);
                    }
                }
                assert(first_named(ws, name, i + 1));
            } else {
                assert forall|i: int| 0 <= i < ws.len() implies (#[trigger] ws[i]).name != name by {
                    if i > 0 {
                        assert(rest[i - 1] == ws[i]);
                    }
                }
            }
        }
    }
}

proof fn lemma_first_rooted(ws: Seq<WorkspaceV>, path: Seq<char>)
    ensures
        rooted(ws, path) matches Some(w) ==> exists|i: int| #[trigger]
            first_rooted(ws, path, i) && ws[i] == w,
    decreases ws.len(),
{
    if ws.len() > 0 {
        let rest = ws.drop_first();
        if components_spec(ws[0].path) == components_spec(path) {
            assert(first_rooted(ws, path, 0));
        } else {
            lemma_first_rooted(rest, path);
            if let Some(w) = rooted(rest, path) {
                let i = choose|i: int| #[trigger] first_rooted(rest, path, i) && rest[i] == w;
                assert forall|j: int| 0 <= j < i + 1 implies components_spec(
                    (#[trigger] ws[j]).path,
                ) != components_spec(path) by {
                    if j > 0 {
                        assert(rest[j - 1] == ws[j]);
                    }
                }
                assert(first_rooted(ws, path, i + 1));
            }
        }
    }
}

/// The sides of a command are two of the listed workspaces: the source is the one that is named, or
/// the one at the root of the current directory, and the target the one that is named, or the one at
/// the root of the repository.
pub proof fn law_sides_are_the_ones_meant(
    t: Trace,
    repo_root: Seq<char>,
    workspaces: Seq<WorkspaceV>,
    source: Option<Seq<char>>,
    target: Option<Seq<char>>,
)
    ensures
        resolve_src_tgt_spec(t, repo_root, workspaces, source, target) matches Out::Got(s, u) ==> {
            &&& match source {
                Some(name) => u == t && exists|i: int| #[trigger]
                    first_named(workspaces, name, i) && s.src_name == workspaces[i].name
                        && s.src_path == workspaces[i].path,
                None => current_workspace_root_spec(t) matches Out::Got(root, v) && u == v
                    && exists|i: int| #[trigger]
                    first_rooted(workspaces, root, i) && s.src_name == workspaces[i].name
                        && s.src_path == workspaces[i].path,
            }
            &&& match target {
                Some(name) => exists|i: int| #[trigger]
                    first_named(workspaces, name, i) && s.tgt_name == workspaces[i].name
                        && s.tgt_path == workspaces[i].path,
                None => exists|i: int| #[trigger]
                    first_rooted(workspaces, repo_root, i) && s.tgt_name == workspaces[i].name
                        && s.tgt_path == workspaces[i].path,
            }
        },
{
    reveal(resolve_src_tgt_spec);
    reveal(source_of_spec);
    match source {
        Some(name) => {
            lemma_first_named(workspaces, name);
        },
        None => {
            if let Out::Got(root, _) = current_workspace_root_spec(t) {
                lemma_first_rooted(workspaces, root);
            }
        },
    }
    match target {
        Some(name) => {
            lemma_first_named(workspaces, name);
        },
        None => {
            lemma_first_rooted(workspaces, repo_root);
        },
    }
}

/// A close command that succeeds has closed the source of its sides into the target of its sides,
/// by the method that was asked for, with what the configuration says, and with the revisions that
/// the listing shows of the source.
pub proof fn law_close_command_closes_its_source(
    t: Trace,
    repo_root: Seq<char>,
    config: ConfigV,
    source: Option<Seq<char>>,
    target: Option<Seq<char>>,
    method: CloseMethod,
    delete_files: bool,
)
    requires
        cmd_close_spec(t, repo_root, config, source, target, method, delete_files) is Got,
    ensures
        ({
            &&& list_workspaces_spec(t, repo_root) matches Out::Got(ws, u)
            &&& resolve_src_tgt_spec(u, repo_root, ws, source, target) matches Out::Got(s, v)
            &&& exists|p: CloseParamsV|
                {
                    &&& (#[trigger] close_spec(v, p)) is Got
                    &&& p.repo_root == repo_root
                    &&& p.source_name == s.src_name
                    &&& p.source_path == s.src_path
                    &&& p.target_name == s.tgt_name
                    &&& p.target_path == s.tgt_path
                    &&& p.method == method
                    &&& p.delete_files == delete_files
                    &&& p.bookmark_action == BookmarkAction::NoAction
                    &&& p.bookmarks.len() == 0
                    &&& p.workspace_path_template == config.workspace_path
                    &&& p.repo_name == repo_name_spec(config, repo_root)
                    &&& p.author == config.ji_author
                    &&& forall|i: int| #[trigger]
                        first_named(ws, s.src_name, i) ==> p.revisions == ws[i].revisions
                    &&& forall|i: int, j: int| #[trigger]
                        first_named(ws, s.src_name, i) && #[trigger] first_named(ws, s.tgt_name, j)
                            ==> p.target_change_id == ws[j].change_id
                }
        }),
{
    reveal(cmd_close_spec);
    reveal(close_sides_spec);
    if let Out::Got(ws, u) = list_workspaces_spec(t, repo_root) {
        if let Out::Got(s, v) = resolve_src_tgt_spec(u, repo_root, ws, source, target) {
            let p = close_params(repo_root, config, ws, s, method, delete_files);
            lemma_first_named(ws, s.src_name);
            lemma_first_named(ws, s.tgt_name);
            assert(close_spec(v, p) is Got);
        }
    }
}

/// A transfer command that succeeds has transferred between its sides, by the method that was asked
/// for and with what the configuration says.
pub proof fn law_transfer_command_joins_its_sides(
    t: Trace,
    repo_root: Seq<char>,
    config: ConfigV,
    source: Option<Seq<char>>,
    target: Option<Seq<char>>,
    method: TransferMethod,
)
    requires
        cmd_transfer_spec(t, repo_root, config, source, target, method) is Got,
    ensures
        ({
            &&& list_workspaces_spec(t, repo_root) matches Out::Got(ws, u)
            &&& resolve_src_tgt_spec(u, repo_root, ws, source, target) matches Out::Got(s, v)
            &&& exists|p: TransferParamsV|
                {
                    &&& (#[trigger] transfer_spec(v, p)) is Got
                    &&& p.repo_root == repo_root
                    &&& p.source_name == s.src_name
                    &&& p.source_path == s.src_path
                    &&& p.target_name == s.tgt_name
                    &&& p.target_path == s.tgt_path
                    &&& p.method == method
                    &&& p.workspace_path_template == config.workspace_path
                    &&& p.repo_name == repo_name_spec(config, repo_root)
                    &&& p.author == config.ji_author
                }
        }),
{
    reveal(cmd_transfer_spec);
    if let Out::Got(ws, u) = list_workspaces_spec(t, repo_root) {
        if let Out::Got(s, v) = resolve_src_tgt_spec(u, repo_root, ws, source, target) {
            assert(transfer_spec(v, transfer_params(repo_root, config, s, method)) is Got);
        }
    }
}

/// A sync command that succeeds has synced its sides with what the configuration says.
pub proof fn law_sync_command_joins_its_sides(
    t: Trace,
    repo_root: Seq<char>,
    config: ConfigV,
    source: Option<Seq<char>>,
    target: Option<Seq<char>>,
)
    requires
        cmd_sync_spec(t, repo_root, config, source, target) is Got,
    ensures
        ({
            &&& list_workspaces_spec(t, repo_root) matches Out::Got(ws, u)
            &&& resolve_src_tgt_spec(u, repo_root, ws, source, target) matches Out::Got(s, v)
            &&& sync_spec(
                v,
                repo_root,
                s.src_name,
                s.src_path,
                s.tgt_name,
                s.tgt_path,
                config.workspace_path,
                repo_name_spec(config, repo_root),
                config.ji_author,
                config.preserve_finder_xattrs,
            ) is Got
        }),
{
    reveal(cmd_sync_spec);
}

/// Where files are to be removed, the directory is removed, whatever comes of it.
pub proof fn law_removal_asks_for_the_directory(t: Trace, path: Seq<char>)
    requires
        remove_files_spec(t, Some(path)) is Got,
    ensures
        t.len() >= 2,
        remove_files_spec(t.take(1), Some(path)) == Out::<()>::Ask(
            at_spec(Act::RemoveDir, path),
        ),
{
    reveal(remove_files_spec);
}

/// Who stands in the workspace that was closed is led to the root of the repository, by a command
/// left in the file that the shell wrapper names. Nobody else is led anywhere.
pub proof fn law_the_closed_directory_is_left(
    t: Trace,
    repo_root: Seq<char>,
    src_path: Seq<char>,
    root: Seq<char>,
    u: Trace,
)
    requires
        current_workspace_root_spec(t) == Out::Got(root, u),
    ensures
        components_spec(src_path) != components_spec(root) ==> leave_spec(t, repo_root, src_path)
            == Out::Got((), u),
        components_spec(src_path) == components_spec(root) && u.len() == 1 && u[0].kind == Kind::Done
            && u[0].text.len() != 0 ==> (leave_spec(t, repo_root, src_path) matches Out::Ask(q)
            && q.act == Act::WriteFile && q.at == u[0].text && q.args == seq![cd_command(repo_root)]),
{
    reveal(leave_spec);
    reveal(write_directive_cd_spec);
}

} // verus!
