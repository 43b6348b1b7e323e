//! Closing a workspace: merged into another, detached or abandoned.

use vstd::prelude::*;

use crate::commands::after::{
    post_op_bookmarks, post_op_bookmarks_spec, post_op_manual_bookmarks,
    post_op_manual_bookmarks_spec, post_op_stale, post_op_stale_spec, predict_stale_workspaces,
    predict_stale_workspaces_spec, resolve_predicted_stale, resolve_predicted_stale_spec,
    BookmarkResultV,
};
use crate::commands::plan::{
    adaptive_close_spec, detect_sync_mode, detect_sync_mode_spec, resolve_adaptive_close,
    validate_head_info, validate_head_info_spec,
};
use crate::commands::protect::{
    prepare_execution_freshness, prepare_execution_freshness_spec, ExecutionFreshness,
    ExecutionFreshnessV,
};
use crate::commands::types::{
    close_operation, src_heads, tgt_heads, BookmarkAction, CloseMethod, CloseTransferResult,
    CloseTransferResultV, Operation, PostOperationError, PostOperationErrorV, SyncMode,
    SyncModeInfo, SyncModeInfoV, SyncModeV,
};
use crate::jj_logs::{RevisionInfo, RevisionInfoV};
use crate::jj_utils::{
    check_chain_safety, check_chain_safety_spec, check_revision_safety, check_revision_safety_spec,
    check_working_copy_safety, check_working_copy_safety_spec, filter_existing_revisions,
    filter_existing_revisions_spec, find_effective_head, find_effective_head_spec,
    workspace_unique_change_ids, workspace_unique_change_ids_spec, ws_head_revset, ws_head_spec,
    RevisionSafety, RevisionSafetyV,
};
use crate::jujutsu::{snapshot_request, snapshot_ws_spec};
use crate::operations::{
    fast_forward_close, fast_forward_close_spec, forget_workspace, forget_workspace_spec,
    merge_close, merge_close_spec, merge_squash_close, merge_squash_close_spec, WsRef, WsRefV,
};
use crate::replay::{
    group_rest, is_rest, left, lemma_rest, replays_check_chain_safety,
    replays_check_revision_safety, replays_detect_sync_mode, replays_find_effective_head,
    replays_is_workspace_stale, replays_predict_stale_workspaces,
    replays_prepare_execution_freshness, replays_source_warnings, replays_target_guard,
    replays_update_workspace_stale, replays_validate_head_info, replays_workspace_unique_change_ids,
};
use crate::revisions::{
    abandon_revisions, abandon_revisions_spec, forget_request, workspace_forget_spec,
};
use crate::stale::{
    is_workspace_stale_spec, unknown, unknown_spec, update_workspace_stale,
    update_workspace_stale_spec,
};
use crate::tape::{
    agrees, at, at_spec, attempt, attempt_spec, bind, failure, failure_spec, holds, holds_spec, Act,
    Failure, FailureV, Kind, Out, RequestV, Stop, Tape, Trace,
};
use crate::text::{among, args1, args2, cat2, cat3, cat5, chain, copy_all, empty, join, join_spec};

verus! {

/// What a close needs to know.
#[derive(Debug)]
pub struct CloseParams<'a> {
    pub repo_root: &'a str,
    pub source_name: &'a str,
    pub source_path: &'a str,
    pub target_name: &'a str,
    pub target_path: &'a str,
    pub target_change_id: &'a str,
    pub method: CloseMethod,
    pub delete_files: bool,
    pub bookmark_action: BookmarkAction,
    pub bookmarks: Vec<String>,
    pub revisions: &'a [RevisionInfo],
    pub workspace_path_template: &'a str,
    pub repo_name: &'a str,
    pub author: Option<&'a str>,
}

/// The same, owning its data.
#[derive(Debug)]
pub struct CloseParamsOwned {
    pub repo_root: String,
    pub source_name: String,
    pub source_path: String,
    pub target_name: String,
    pub target_path: String,
    pub target_change_id: String,
    pub method: CloseMethod,
    pub delete_files: bool,
    pub bookmark_action: BookmarkAction,
    pub bookmarks: Vec<String>,
    pub revisions: Vec<RevisionInfo>,
    pub workspace_path_template: String,
    pub repo_name: String,
    pub author: Option<String>,
}

pub struct CloseParamsV {
    pub repo_root: Seq<char>,
    pub source_name: Seq<char>,
    pub source_path: Seq<char>,
    pub target_name: Seq<char>,
    pub target_path: Seq<char>,
    pub target_change_id: Seq<char>,
    pub method: CloseMethod,
    pub delete_files: bool,
    pub bookmark_action: BookmarkAction,
    pub bookmarks: Seq<Seq<char>>,
    pub revisions: Seq<RevisionInfoV>,
    pub workspace_path_template: Seq<char>,
    pub repo_name: Seq<char>,
    pub author: Option<Seq<char>>,
}

impl<'a> DeepView for CloseParams<'a> {
    type V = CloseParamsV;

    open spec fn deep_view(&self) -> CloseParamsV {
        CloseParamsV {
            repo_root: self.repo_root@,
            source_name: self.source_name@,
            source_path: self.source_path@,
            target_name: self.target_name@,
            target_path: self.target_path@,
            target_change_id: self.target_change_id@,
            method: self.method,
            delete_files: self.delete_files,
            bookmark_action: self.bookmark_action,
            bookmarks: self.bookmarks.deep_view(),
            revisions: self.revisions.deep_view(),
            workspace_path_template: self.workspace_path_template@,
            repo_name: self.repo_name@,
            author: self.author.deep_view(),
        }
    }
}

/// Change ids of the revisions.
pub open spec fn ids_of(revisions: Seq<RevisionInfoV>) -> Seq<Seq<char>> {
    revisions.map_values(|r: RevisionInfoV| r.change_id)
}

fn ids(revisions: &[RevisionInfo]) -> (r: Vec<String>)
    ensures
        r.deep_view() == ids_of(revisions.deep_view()),
{
    let ghost all = ids_of(revisions.deep_view());
    let mut out: Vec<String> = Vec::new();
    for i in 0..revisions.len()
        invariant
            all == ids_of(revisions.deep_view()),
            out.deep_view() == all.take(i as int),
    {
        let ghost before = out.deep_view();
        out.push(revisions[i].change_id.clone());
        assert(out.deep_view() =~= before.push(revisions@[i as int].change_id@));
        assert(all.take(i + 1) =~= all.take(i as int).push(all[i as int]));
    }
    assert(all.take(revisions@.len() as int) =~= all);
    out
}

/// Is every element of `a` in `b`?
pub open spec fn within_set(a: Seq<Seq<char>>, b: Seq<Seq<char>>) -> bool {
    forall|i: int| 0 <= i < a.len() ==> b.contains(#[trigger] a[i])
}

fn all_in(a: &Vec<String>, b: &Vec<String>) -> (r: bool)
    ensures
        r == within_set(a.deep_view(), b.deep_view()),
{
    for i in 0..a.len()
        invariant
            forall|j: int| 0 <= j < i ==> b.deep_view().contains(#[trigger] a.deep_view()[j]),
    {
        assert(a.deep_view()[i as int] == a@[i as int]@);
        if !among(b, &a[i]) {
            return false;
        }
    }
    true
}

/// The concrete operation of a close.
pub open spec fn resolved_close(method: CloseMethod, mode: SyncModeV) -> Result<
    Operation,
    FailureV,
> {
    if method == CloseMethod::Adaptive {
        adaptive_close_spec(mode)
    } else {
        Ok(close_operation(method))
    }
}

fn resolve_close(method: CloseMethod, mode: &SyncMode) -> (r: Result<Operation, Failure>)
    ensures
        resolved_close(method, mode.deep_view()) == (match r {
            Ok(op) => Ok::<Operation, FailureV>(op),
            Err(e) => Err(e.deep_view()),
        }),
{
    match method {
        CloseMethod::Adaptive => resolve_adaptive_close(mode),
        CloseMethod::Merge => Ok(Operation::MergeClose),
        CloseMethod::SquashMerge => Ok(Operation::MergeSquashClose),
        CloseMethod::FastForward => Ok(Operation::FastForwardTargetClose),
        CloseMethod::Detach => Ok(Operation::Detach),
        CloseMethod::Abandon => Ok(Operation::Abandon),
    }
}

/// Operations that only dispose of the source.
pub open spec fn disposes(op: Operation) -> bool {
    op == Operation::Detach || op == Operation::Abandon
}

/// The change id that a bookmark is to advance to, where the target must still have it.
pub open spec fn advance_id_spec(p: CloseParamsV) -> Option<Seq<char>> {
    if p.bookmark_action == BookmarkAction::Advance && p.target_change_id.len() != 0 {
        Some(p.target_change_id)
    } else {
        None
    }
}

pub open spec fn source_ref(p: CloseParamsV, info: SyncModeInfoV) -> WsRefV {
    WsRefV { name: p.source_name, path: p.source_path, info: src_heads(info) }
}

pub open spec fn target_ref(p: CloseParamsV, info: SyncModeInfoV) -> WsRefV {
    WsRefV { name: p.target_name, path: p.target_path, info: tgt_heads(info) }
}

// ---------------------------------------------------------------------------
// The operations
// ---------------------------------------------------------------------------

/// What an operation leaves behind: warnings, and the head of a detached source.
pub type Done = (Vec<String>, Option<String>);

pub type DoneV = (Seq<Seq<char>>, Option<Seq<char>>);

/// A warning when the source has undescribed work; `fate` says what becomes of it.
#[verifier::opaque]
pub open spec fn source_warnings_spec(
    t: Trace,
    params: CloseParamsV,
    fate: Seq<char>,
) -> Out<Seq<Seq<char>>> {
    bind(
        check_revision_safety_spec(
            t,
            params.repo_root,
            ws_head_spec(params.source_name),
            Some(params.source_path),
        ),
        |s: RevisionSafetyV, t: Trace|
            Out::Got(
                match s {
                    RevisionSafetyV::Safe => Seq::empty(),
                    RevisionSafetyV::AtRisk { change_id } => seq![
                        "source workspace "@ + params.source_name + " has undescribed work in "@
                            + change_id + fate,
                    ],
                },
                t,
            ),
    )
}

fn source_warnings(
    tape: &mut Tape,
    params: &CloseParams<'_>,
    fate: &str,
) -> (r: Result<Vec<String>, Stop>)
    ensures
        agrees(r, final(tape)@, source_warnings_spec(old(tape)@, params.deep_view(), fate@)),
{
    reveal(source_warnings_spec);
    let s = check_revision_safety(
        tape,
        params.repo_root,
        &ws_head_revset(params.source_name),
        Some(params.source_path),
    )?;
    match s {
        RevisionSafety::Safe => {
            let v: Vec<String> = Vec::new();
            assert(v.deep_view() =~= Seq::<Seq<char>>::empty());
            Ok(v)
        },
        RevisionSafety::AtRisk { change_id } => {
            let msg = cat5(
                "source workspace ",
                params.source_name,
                " has undescribed work in ",
                &change_id,
                fate,
            );
            Ok(args1(&msg))
        },
    }
}

/// Brings the target up to date, as far as that works, after `m`.
pub open spec fn then_refreshed(m: Out<Seq<Seq<char>>>, target_path: Seq<char>) -> Out<DoneV> {
    bind(
        m,
        |w: Seq<Seq<char>>, t: Trace|
            bind(
                attempt_spec(update_workspace_stale_spec(t, target_path)),
                |r: Result<Seq<char>, FailureV>, t: Trace| Out::Got((w, None), t),
            ),
    )
}

/// Merges the source into the target.
#[verifier::opaque]
pub open spec fn close_by_merge_spec(
    t: Trace,
    params: CloseParamsV,
    info: SyncModeInfoV,
) -> Out<(Seq<Seq<char>>, Option<Seq<char>>)> {
    then_refreshed(
        bind(
            source_warnings_spec(t, params, "; it will be preserved as a merge parent but may be hard to find"@),
            |w: Seq<Seq<char>>, t: Trace|
                bind(
                    merge_close_spec(
                        t,
                        params.repo_root,
                        source_ref(params, info),
                        target_ref(params, info),
                        params.author,
                    ),
                    |more: Seq<Seq<char>>, t: Trace| Out::Got(w + more, t),
                ),
        ),
        params.target_path,
    )
}

fn close_by_merge(
    tape: &mut Tape,
    params: &CloseParams<'_>,
    info: &SyncModeInfo,
) -> (r: Result<(Vec<String>, Option<String>), Stop>)
    ensures
        agrees(
            r,
            final(tape)@,
            close_by_merge_spec(old(tape)@, params.deep_view(), info.deep_view()),
        ),
{
    reveal(close_by_merge_spec);
    let src_hi = info.src_head_info();
    let tgt_hi = info.tgt_head_info();
    let src = WsRef { name: params.source_name, path: params.source_path, info: &src_hi };
    let tgt = WsRef { name: params.target_name, path: params.target_path, info: &tgt_hi };
    let w = source_warnings(tape, params, "; it will be preserved as a merge parent but may be hard to find")?;
    let more = merge_close(tape, params.repo_root, src, tgt, params.author)?;
    let all = chain(w, more);
    let _ = attempt(update_workspace_stale(tape, params.target_path))?;
    Ok((all, None))
}

/// Squashes the source and merges it into the target.
#[verifier::opaque]
pub open spec fn close_by_squash_spec(
    t: Trace,
    params: CloseParamsV,
    info: SyncModeInfoV,
) -> Out<(Seq<Seq<char>>, Option<Seq<char>>)> {
    then_refreshed(
        bind(
            source_warnings_spec(t, params, "; it will be squashed but the revision may be hard to find"@),
            |w: Seq<Seq<char>>, t: Trace|
                bind(
                    merge_squash_close_spec(
                        t,
                        params.repo_root,
                        source_ref(params, info),
                        target_ref(params, info),
                        info.lca,
                        params.author,
                    ),
                    |more: Seq<Seq<char>>, t: Trace| Out::Got(w + more, t),
                ),
        ),
        params.target_path,
    )
}

fn close_by_squash(
    tape: &mut Tape,
    params: &CloseParams<'_>,
    info: &SyncModeInfo,
) -> (r: Result<(Vec<String>, Option<String>), Stop>)
    ensures
        agrees(
            r,
            final(tape)@,
            close_by_squash_spec(old(tape)@, params.deep_view(), info.deep_view()),
        ),
{
    reveal(close_by_squash_spec);
    let src_hi = info.src_head_info();
    let tgt_hi = info.tgt_head_info();
    let src = WsRef { name: params.source_name, path: params.source_path, info: &src_hi };
    let tgt = WsRef { name: params.target_name, path: params.target_path, info: &tgt_hi };
    let w = source_warnings(tape, params, "; it will be squashed but the revision may be hard to find")?;
    let more = merge_squash_close(
        tape,
        params.repo_root,
        src,
        tgt,
        &info.lca,
        params.author,
    )?;
    let all = chain(w, more);
    let _ = attempt(update_workspace_stale(tape, params.target_path))?;
    Ok((all, None))
}

/// Refuses to move the target off undescribed work.
#[verifier::opaque]
pub open spec fn target_guard_spec(t: Trace, params: CloseParamsV, info: SyncModeInfoV) -> Out<()> {
    if info.tgt_trivial_id is Some {
        Out::Got((), t)
    } else {
        bind(
            check_working_copy_safety_spec(
                t,
                params.repo_root,
                ws_head_spec(params.target_name),
                params.target_path,
            ),
            |s: RevisionSafetyV, t: Trace|
                match s {
                    RevisionSafetyV::Safe => Out::Got((), t),
                    RevisionSafetyV::AtRisk { change_id } => Out::Fail(
                        failure_spec(
                            "target workspace "@ + params.target_name + " has undescribed work in "@
                                + change_id
                                + "; describe the revision first, or use a merge-close instead"@,
                        ),
                        t,
                    ),
                },
        )
    }
}

fn target_guard(
    tape: &mut Tape,
    params: &CloseParams<'_>,
    info: &SyncModeInfo,
) -> (r: Result<(), Stop>)
    ensures
        agrees(
            r,
            final(tape)@,
            target_guard_spec(old(tape)@, params.deep_view(), info.deep_view()),
        ),
{
    reveal(target_guard_spec);
    if info.tgt_trivial_id.is_some() {
        return Ok(());
    }
    let s = check_working_copy_safety(
        tape,
        params.repo_root,
        &ws_head_revset(params.target_name),
        params.target_path,
    )?;
    match s {
        RevisionSafety::Safe => Ok(()),
        RevisionSafety::AtRisk { change_id } => {
            let msg = cat5(
                "target workspace ",
                params.target_name,
                " has undescribed work in ",
                &change_id,
                "; describe the revision first, or use a merge-close instead",
            );
            Err(Stop::Fail(failure(msg)))
        },
    }
}

/// Moves the target onto the work of the source.
#[verifier::opaque]
pub open spec fn close_by_fast_forward_spec(
    t: Trace,
    params: CloseParamsV,
    info: SyncModeInfoV,
) -> Out<(Seq<Seq<char>>, Option<Seq<char>>)> {
    then_refreshed(
        bind(
            target_guard_spec(t, params, info),
            |u: (), t: Trace|
                fast_forward_close_spec(
                    t,
                    params.repo_root,
                    source_ref(params, info),
                    params.target_path,
                    tgt_heads(info),
                ),
        ),
        params.target_path,
    )
}

fn close_by_fast_forward(
    tape: &mut Tape,
    params: &CloseParams<'_>,
    info: &SyncModeInfo,
) -> (r: Result<(Vec<String>, Option<String>), Stop>)
    ensures
        agrees(
            r,
            final(tape)@,
            close_by_fast_forward_spec(old(tape)@, params.deep_view(), info.deep_view()),
        ),
{
    reveal(close_by_fast_forward_spec);
    let src_hi = info.src_head_info();
    let tgt_hi = info.tgt_head_info();
    let src = WsRef { name: params.source_name, path: params.source_path, info: &src_hi };
    target_guard(tape, params, info)?;
    let w = fast_forward_close(tape, params.repo_root, src, params.target_path, &tgt_hi)?;
    let _ = attempt(update_workspace_stale(tape, params.target_path))?;
    Ok((w, None))
}

/// Forgets the source and leaves its revisions; its effective head is found before.
#[verifier::opaque]
pub open spec fn close_by_detaching_spec(
    t: Trace,
    params: CloseParamsV,
) -> Out<(Seq<Seq<char>>, Option<Seq<char>>)> {
    bind(
        check_revision_safety_spec(
            t,
            params.repo_root,
            ws_head_spec(params.source_name),
            Some(params.source_path),
        ),
        |s: RevisionSafetyV, t: Trace|
            match s {
                RevisionSafetyV::AtRisk { change_id } => Out::Fail(
                    failure_spec(
                        "workspace "@ + params.source_name + " has undescribed work in "@ + change_id
                            + "; describe the revision before detaching"@,
                    ),
                    t,
                ),
                RevisionSafetyV::Safe => bind(
                    find_effective_head_spec(t, params.repo_root, params.source_name),
                    |head: Seq<char>, t: Trace|
                        bind(
                            forget_workspace_spec(
                                t,
                                params.repo_root,
                                params.source_path,
                                params.source_name,
                            ),
                            |u: (), t: Trace| Out::Got((Seq::empty(), Some(head)), t),
                        ),
                ),
            },
    )
}

fn close_by_detaching(
    tape: &mut Tape,
    params: &CloseParams<'_>,
) -> (r: Result<(Vec<String>, Option<String>), Stop>)
    ensures
        agrees(r, final(tape)@, close_by_detaching_spec(old(tape)@, params.deep_view())),
{
    reveal(close_by_detaching_spec);
    let s = check_revision_safety(
        tape,
        params.repo_root,
        &ws_head_revset(params.source_name),
        Some(params.source_path),
    )?;
    if let RevisionSafety::AtRisk { change_id } = s {
        let msg = cat5(
            "workspace ",
            params.source_name,
            " has undescribed work in ",
            &change_id,
            "; describe the revision before detaching",
        );
        return Err(Stop::Fail(failure(msg)));
    }
    let head = find_effective_head(tape, params.repo_root, params.source_name)?;
    forget_workspace(tape, params.repo_root, params.source_path, params.source_name)?;
    let none: Vec<String> = Vec::new();
    assert(none.deep_view() =~= Seq::<Seq<char>>::empty());
    Ok((none, Some(head)))
}

/// Abandons those of `ids` that still exist.
#[verifier::opaque]
pub open spec fn abandon_surviving_spec(t: Trace, repo: Seq<char>, ids: Seq<Seq<char>>) -> Out<()> {
    if ids.len() == 0 {
        Out::Got((), t)
    } else {
        bind(
            filter_existing_revisions_spec(t, repo, ids),
            |left: Seq<Seq<char>>, t: Trace|
                if left.len() == 0 {
                    Out::Got((), t)
                } else {
                    abandon_revisions_spec(t, repo, left)
                },
        )
    }
}

fn abandon_surviving(tape: &mut Tape, repo: &str, ids: &Vec<String>) -> (r: Result<(), Stop>)
    ensures
        agrees(r, final(tape)@, abandon_surviving_spec(old(tape)@, repo@, ids.deep_view())),
{
    reveal(abandon_surviving_spec);
    assert(ids.deep_view().len() == ids@.len());
    if ids.len() == 0 {
        return Ok(());
    }
    let left = filter_existing_revisions(tape, repo, ids)?;
    assert(left.deep_view().len() == left@.len());
    if left.len() == 0 {
        return Ok(());
    }
    abandon_revisions(tape, repo, &left)
}

/// Forgets the source and abandons its revisions, if they are the ones that were shown and none of
/// them has undescribed work.
#[verifier::opaque]
pub open spec fn close_by_abandoning_spec(
    t: Trace,
    params: CloseParamsV,
) -> Out<(Seq<Seq<char>>, Option<Seq<char>>)> {
    let frozen = ids_of(params.revisions);
    bind(
        workspace_unique_change_ids_spec(t, params.repo_root, params.source_name),
        |live: Seq<Seq<char>>, t: Trace|
            if !(within_set(live, frozen) && within_set(frozen, live)) {
                Out::Fail(failure_spec("source revisions changed, please retry"@), t)
            } else {
                bind(
                    check_chain_safety_spec(
                        t,
                        params.repo_root,
                        frozen,
                        Some(params.source_path),
                    ),
                    |at_risk: Seq<Seq<char>>, t: Trace|
                        if at_risk.len() != 0 {
                            Out::Fail(
                                failure_spec(
                                    "refusing to abandon: revisions "@ + join_spec(at_risk, ", "@)
                                        + " have work with no description; describe them first"@,
                                ),
                                t,
                            )
                        } else {
                            bind(
                                forget_workspace_spec(
                                    t,
                                    params.repo_root,
                                    params.source_path,
                                    params.source_name,
                                ),
                                |u: (), t: Trace|
                                    bind(
                                        abandon_surviving_spec(t, params.repo_root, frozen),
                                        |u: (), t: Trace| Out::Got((Seq::empty(), None), t),
                                    ),
                            )
                        },
                )
            },
    )
}

fn close_by_abandoning(
    tape: &mut Tape,
    params: &CloseParams<'_>,
) -> (r: Result<(Vec<String>, Option<String>), Stop>)
    ensures
        agrees(r, final(tape)@, close_by_abandoning_spec(old(tape)@, params.deep_view())),
{
    reveal(close_by_abandoning_spec);
    let frozen = ids(params.revisions);
    let live = workspace_unique_change_ids(tape, params.repo_root, params.source_name)?;
    if !(all_in(&live, &frozen) && all_in(&frozen, &live)) {
        return Err(Stop::Fail(failure("source revisions changed, please retry".to_string())));
    }
    let at_risk = check_chain_safety(tape, params.repo_root, &frozen, Some(params.source_path))?;
    assert(at_risk.deep_view().len() == at_risk@.len());
    if at_risk.len() != 0 {
        let msg = cat3(
            "refusing to abandon: revisions ",
            &join(&at_risk, ", "),
            " have work with no description; describe them first",
        );
        return Err(Stop::Fail(failure(msg)));
    }
    forget_workspace(tape, params.repo_root, params.source_path, params.source_name)?;
    abandon_surviving(tape, params.repo_root, &frozen)?;
    let none: Vec<String> = Vec::new();
    assert(none.deep_view() =~= Seq::<Seq<char>>::empty());
    Ok((none, None))
}

/// Executes a concrete close operation; abandoning is the one that is left.
#[verifier::opaque]
pub open spec fn execute_close_spec(
    t: Trace,
    params: CloseParamsV,
    operation: Operation,
    info: SyncModeInfoV,
) -> Out<(Seq<Seq<char>>, Option<Seq<char>>)> {
    match operation {
        Operation::MergeClose => close_by_merge_spec(t, params, info),
        Operation::MergeSquashClose => close_by_squash_spec(t, params, info),
        Operation::FastForwardTargetClose => close_by_fast_forward_spec(t, params, info),
        Operation::Detach => close_by_detaching_spec(t, params),
        _ => close_by_abandoning_spec(t, params),
    }
}

fn execute_close(
    tape: &mut Tape,
    params: &CloseParams<'_>,
    operation: Operation,
    info: &SyncModeInfo,
) -> (r: Result<(Vec<String>, Option<String>), Stop>)
    ensures
        agrees(
            r,
            final(tape)@,
            execute_close_spec(old(tape)@, params.deep_view(), operation, info.deep_view()),
        ),
{
    reveal(execute_close_spec);
    match operation {
        Operation::MergeClose => close_by_merge(tape, params, info),
        Operation::MergeSquashClose => close_by_squash(tape, params, info),
        Operation::FastForwardTargetClose => close_by_fast_forward(tape, params, info),
        Operation::Detach => close_by_detaching(tape, params),
        _ => close_by_abandoning(tape, params),
    }
}

// ---------------------------------------------------------------------------
// The whole
// ---------------------------------------------------------------------------

/// The workspaces that an operation needs, when staleness of others is predicted.
pub open spec fn needed_by(p: CloseParamsV, op: Operation) -> Seq<Seq<char>> {
    if op == Operation::Abandon {
        seq![p.source_name]
    } else {
        seq![p.source_name, p.target_name]
    }
}

/// The revisions that an operation abandons.
pub open spec fn abandoned_by(p: CloseParamsV, op: Operation) -> Seq<Seq<char>> {
    if op == Operation::Abandon {
        ids_of(p.revisions)
    } else {
        Seq::empty()
    }
}

/// The directory that may be removed, if removal was wanted and it is there.
#[verifier::opaque]
pub open spec fn removable_spec(t: Trace, params: CloseParamsV) -> Out<Option<Seq<char>>> {
    if params.delete_files && params.source_path.len() != 0 {
        bind(
            holds_spec(t, at_spec(Act::Exists, params.source_path)),
            |there: bool, t: Trace|
                Out::Got(
                    if there {
                        Some(params.source_path)
                    } else {
                        None
                    },
                    t,
                ),
        )
    } else {
        Out::Got(None, t)
    }
}

fn removable(tape: &mut Tape, params: &CloseParams<'_>) -> (r: Result<Option<String>, Stop>)
    ensures
        agrees(r, final(tape)@, removable_spec(old(tape)@, params.deep_view())),
{
    reveal(removable_spec);
    if params.delete_files && !empty(params.source_path) {
        if holds(tape, at(Act::Exists, params.source_path))? {
            return Ok(Some(params.source_path.to_string()));
        }
    }
    Ok(None)
}

/// Handles all bookmarks after a close; what failed comes back.
#[verifier::opaque]
pub open spec fn close_bookmarks_spec(
    t: Trace,
    params: CloseParamsV,
    operation: Operation,
    info: SyncModeInfoV,
    head: Option<Seq<char>>,
) -> Out<Seq<PostOperationErrorV>> {
    bind(
        post_op_bookmarks_spec(
            t,
            params.repo_root,
            operation,
            params.source_name,
            params.target_name,
            Some(info),
            params.workspace_path_template,
            params.repo_name,
            params.bookmarks,
            head,
        ),
        |b: BookmarkResultV, t: Trace|
            if b.remaining.len() == 0 {
                Out::Got(b.errors, t)
            } else {
                bind(
                    post_op_manual_bookmarks_spec(
                        t,
                        params.repo_root,
                        b.remaining,
                        params.bookmark_action,
                        params.target_change_id,
                    ),
                    |more: Seq<PostOperationErrorV>, t: Trace| Out::Got(b.errors + more, t),
                )
            },
    )
}

fn close_bookmarks(
    tape: &mut Tape,
    params: &CloseParams<'_>,
    operation: Operation,
    info: &SyncModeInfo,
    head: Option<&str>,
) -> (r: Result<Vec<PostOperationError>, Stop>)
    ensures
        agrees(
            r,
            final(tape)@,
            close_bookmarks_spec(
                old(tape)@,
                params.deep_view(),
                operation,
                info.deep_view(),
                head.deep_view(),
            ),
        ),
{
    reveal(close_bookmarks_spec);
    let b = post_op_bookmarks(
        tape,
        params.repo_root,
        operation,
        params.source_name,
        params.target_name,
        Some(info),
        params.workspace_path_template,
        params.repo_name,
        &params.bookmarks,
        head,
    )?;
    assert(b.remaining.deep_view().len() == b.remaining@.len());
    if b.remaining.len() == 0 {
        return Ok(b.errors);
    }
    let mut more = post_op_manual_bookmarks(
        tape,
        params.repo_root,
        &b.remaining,
        params.bookmark_action,
        params.target_change_id,
    )?;
    let ghost x = b.errors.deep_view();
    let ghost y = more.deep_view();
    let mut errors = b.errors;
    errors.append(&mut more);
    assert(errors.deep_view() =~= x + y);
    Ok(errors)
}

/// After the operation: other workspaces, bookmarks, the directory.
#[verifier::opaque]
pub open spec fn finish_close_spec(
    t: Trace,
    params: CloseParamsV,
    operation: Operation,
    fresh: ExecutionFreshnessV,
    predicted: Seq<Seq<char>>,
    op_warnings: Seq<Seq<char>>,
    head: Option<Seq<char>>,
) -> Out<CloseTransferResultV> {
    bind(
        resolve_predicted_stale_spec(
            t,
            unknown_spec(predicted, fresh.stale_skipped),
            fresh.ws_paths,
        ),
        |u: (), t: Trace|
            bind(
                post_op_stale_spec(t, fresh.ws_paths, fresh.stale_skipped),
                |stale: Seq<Seq<char>>, t: Trace|
                    bind(
                        close_bookmarks_spec(t, params, operation, fresh.info, head),
                        |errors: Seq<PostOperationErrorV>, t: Trace|
                            bind(
                                removable_spec(t, params),
                                |path: Option<Seq<char>>, t: Trace|
                                    Out::Got(
                                        CloseTransferResultV {
                                            stale_warnings: stale,
                                            warnings: op_warnings,
                                            post_errors: errors,
                                            resolved_operation: operation,
                                            predicted_stale: predicted,
                                            pending_remove_path: path,
                                        },
                                        t,
                                    ),
                            ),
                    ),
            ),
    )
}

fn finish_close(
    tape: &mut Tape,
    params: &CloseParams<'_>,
    operation: Operation,
    fresh: &ExecutionFreshness,
    predicted: &Vec<String>,
    op_warnings: &Vec<String>,
    head: Option<&str>,
) -> (r: Result<CloseTransferResult, Stop>)
    ensures
        agrees(
            r,
            final(tape)@,
            finish_close_spec(
                old(tape)@,
                params.deep_view(),
                operation,
                fresh.deep_view(),
                predicted.deep_view(),
                op_warnings.deep_view(),
                head.deep_view(),
            ),
        ),
{
    reveal(finish_close_spec);
    resolve_predicted_stale(tape, &unknown(predicted, &fresh.stale_skipped), &fresh.ws_paths)?;
    let stale = post_op_stale(tape, &fresh.ws_paths, &fresh.stale_skipped)?;
    let errors = close_bookmarks(tape, params, operation, &fresh.info, head)?;
    let path = removable(tape, params)?;
    Ok(
        CloseTransferResult {
            stale_warnings: stale,
            warnings: copy_all(op_warnings),
            post_errors: errors,
            resolved_operation: operation,
            predicted_stale: copy_all(predicted),
            pending_remove_path: path,
        },
    )
}

fn opt_ref(o: &Option<String>) -> (r: Option<&str>)
    ensures
        r.deep_view() == o.deep_view(),
{
    match o {
        Some(s) => Some(s.as_str()),
        None => None,
    }
}

#[verifier::opaque]
pub open spec fn close_with_info_spec(
    t: Trace,
    params: CloseParamsV,
    info: SyncModeInfoV,
) -> Out<CloseTransferResultV> {
    match resolved_close(params.method, info.mode) {
        Err(e) => Out::Fail(e, t),
        Ok(op) => if !disposes(op) && info.mode is Error {
            Out::Fail(
                failure_spec("sync state could not be determined: "@ + info.mode->Error_0),
                t,
            )
        } else {
            bind(
                validate_head_info_spec(
                    t,
                    params.repo_root,
                    info,
                    params.source_name,
                    params.target_name,
                    false,
                ),
                |validated: SyncModeInfoV, t: Trace|
                    bind(
                        prepare_execution_freshness_spec(
                            t,
                            params.repo_root,
                            validated,
                            params.source_name,
                            params.source_path,
                            params.target_name,
                            params.target_path,
                            !disposes(op),
                            !disposes(op),
                            advance_id_spec(params),
                        ),
                        |fresh: ExecutionFreshnessV, t: Trace|
                            bind(
                                predict_stale_workspaces_spec(
                                    t,
                                    params.repo_root,
                                    op,
                                    fresh.info,
                                    abandoned_by(params, op),
                                    needed_by(params, op),
                                ),
                                |predicted: Seq<Seq<char>>, t: Trace|
                                    bind(
                                        execute_close_spec(t, params, op, fresh.info),
                                        |done: DoneV, t: Trace|
                                            finish_close_spec(
                                                t,
                                                params,
                                                op,
                                                fresh,
                                                predicted,
                                                done.0,
                                                done.1,
                                            ),
                                    ),
                            ),
                    ),
            )
        },
    }
}

/// Closes a workspace by a plan that was made before.
pub fn close_with_info(
    tape: &mut Tape,
    params: &CloseParams<'_>,
    info: &SyncModeInfo,
) -> (r: Result<CloseTransferResult, Stop>)
    ensures
        agrees(
            r,
            final(tape)@,
            close_with_info_spec(old(tape)@, params.deep_view(), info.deep_view()),
        ),
{
    reveal(close_with_info_spec);
    let op = match resolve_close(params.method, &info.mode) {
        Ok(op) => op,
        Err(e) => {
            return Err(Stop::Fail(e));
        },
    };
    let disposal = op == Operation::Detach || op == Operation::Abandon;
    if !disposal {
        if let SyncMode::Error(e) = &info.mode {
            return Err(Stop::Fail(failure(cat2("sync state could not be determined: ", e))));
        }
    }
    let validated = validate_head_info(
        tape,
        params.repo_root,
        info,
        params.source_name,
        params.target_name,
        false,
    )?;
    let advance = if params.bookmark_action == BookmarkAction::Advance && !empty(
        params.target_change_id,
    ) {
        Some(params.target_change_id)
    } else {
        None
    };
    let fresh = prepare_execution_freshness(
        tape,
        params.repo_root,
        &validated,
        params.source_name,
        params.source_path,
        params.target_name,
        params.target_path,
        !disposal,
        !disposal,
        advance,
    )?;
    let abandoned = if op == Operation::Abandon {
        ids(params.revisions)
    } else {
        let v: Vec<String> = Vec::new();
        assert(v.deep_view() =~= Seq::<Seq<char>>::empty());
        v
    };
    let involved = if op == Operation::Abandon {
        args1(params.source_name)
    } else {
        args2(params.source_name, params.target_name)
    };
    let predicted = predict_stale_workspaces(
        tape,
        params.repo_root,
        op,
        &fresh.info,
        &abandoned,
        &involved,
    )?;
    let (warnings, head) = execute_close(tape, params, op, &fresh.info)?;
    finish_close(tape, params, op, &fresh, &predicted, &warnings, opt_ref(&head))
}

#[verifier::opaque]
pub open spec fn close_spec(t: Trace, params: CloseParamsV) -> Out<CloseTransferResultV> {
    bind(
        detect_sync_mode_spec(t, params.repo_root, params.source_name, params.target_name),
        |info: SyncModeInfoV, t: Trace| close_with_info_spec(t, params, info),
    )
}

/// Closes a workspace by a plan made now.
pub fn close(tape: &mut Tape, params: &CloseParams<'_>) -> (r: Result<CloseTransferResult, Stop>)
    ensures
        agrees(r, final(tape)@, close_spec(old(tape)@, params.deep_view())),
{
    reveal(close_spec);
    let info = detect_sync_mode(
        tape,
        params.repo_root,
        params.source_name,
        params.target_name,
    )?;
    close_with_info(tape, params, &info)
}

// ---------------------------------------------------------------------------
// Laws
// ---------------------------------------------------------------------------

/// A close that consumes the sync state fails on an undetermined one before anything is asked, and
/// so does an adaptive close of workspaces without work to move.
pub proof fn law_close_needs_state(t: Trace, params: CloseParamsV, info: SyncModeInfoV)
    ensures
        info.mode is Error && params.method != CloseMethod::Detach && params.method
            != CloseMethod::Abandon ==> exists|e: FailureV|
            close_with_info_spec(t, params, info) == Out::<CloseTransferResultV>::Fail(e, t),
        params.method == CloseMethod::Adaptive && adaptive_close_spec(info.mode) is Err ==> exists|
            e: FailureV,
        |
            close_with_info_spec(t, params, info) == Out::<CloseTransferResultV>::Fail(e, t),
{
    reveal(close_with_info_spec);
    match resolved_close(params.method, info.mode) {
        Err(e) => {
            assert(close_with_info_spec(t, params, info) == Out::<CloseTransferResultV>::Fail(e, t));
        },
        Ok(op) => {
            if !disposes(op) && info.mode is Error {
                let e = failure_spec(
                    "sync state could not be determined: "@ + info.mode->Error_0,
                );
                assert(close_with_info_spec(t, params, info) == Out::<CloseTransferResultV>::Fail(
                    e,
                    t,
                ));
            }
        },
    }
}

/// Detaching a source with undescribed work fails right after the check: nothing more is asked, so
/// the workspace is not forgotten.
pub proof fn law_detach_refuses_undescribed(
    t: Trace,
    params: CloseParamsV,
    change_id: Seq<char>,
    u: Trace,
)
    requires
        check_revision_safety_spec(
            t,
            params.repo_root,
            ws_head_spec(params.source_name),
            Some(params.source_path),
        ) == Out::Got(RevisionSafetyV::AtRisk { change_id }, u),
    ensures
        exists|e: FailureV| close_by_detaching_spec(t, params) == Out::<DoneV>::Fail(e, u),
{
    reveal(close_by_detaching_spec);
    let e = failure_spec(
        "workspace "@ + params.source_name + " has undescribed work in "@ + change_id
            + "; describe the revision before detaching"@,
    );
    assert(close_by_detaching_spec(t, params) == Out::<DoneV>::Fail(e, u));
}

/// Abandoning fails before the workspace is forgotten when the revisions are no longer those that
/// were shown.
pub proof fn law_abandon_refuses_changed(
    t: Trace,
    params: CloseParamsV,
    live: Seq<Seq<char>>,
    u: Trace,
)
    requires
        workspace_unique_change_ids_spec(t, params.repo_root, params.source_name) == Out::Got(
            live,
            u,
        ),
        !(within_set(live, ids_of(params.revisions)) && within_set(ids_of(params.revisions), live)),
    ensures
        close_by_abandoning_spec(t, params) == Out::<DoneV>::Fail(
            failure_spec("source revisions changed, please retry"@),
            u,
        ),
{
    reveal(close_by_abandoning_spec);
}

/// Abandoning fails before the workspace is forgotten when one of the revisions has undescribed
/// work.
pub proof fn law_abandon_refuses_undescribed(
    t: Trace,
    params: CloseParamsV,
    live: Seq<Seq<char>>,
    u: Trace,
    at_risk: Seq<Seq<char>>,
    v: Trace,
)
    requires
        workspace_unique_change_ids_spec(t, params.repo_root, params.source_name) == Out::Got(
            live,
            u,
        ),
        within_set(live, ids_of(params.revisions)),
        within_set(ids_of(params.revisions), live),
        check_chain_safety_spec(
            u,
            params.repo_root,
            ids_of(params.revisions),
            Some(params.source_path),
        ) == Out::Got(at_risk, v),
        at_risk.len() > 0,
    ensures
        exists|e: FailureV| close_by_abandoning_spec(t, params) == Out::<DoneV>::Fail(e, v),
{
    reveal(close_by_abandoning_spec);
    let e = failure_spec(
        "refusing to abandon: revisions "@ + join_spec(at_risk, ", "@)
            + " have work with no description; describe them first"@,
    );
    assert(close_by_abandoning_spec(t, params) == Out::<DoneV>::Fail(e, v));
}

/// A fast-forward close fails before the source is forgotten when the target has undescribed work.
pub proof fn law_fast_forward_close_refuses_undescribed(
    t: Trace,
    params: CloseParamsV,
    info: SyncModeInfoV,
    change_id: Seq<char>,
    u: Trace,
)
    requires
        info.tgt_trivial_id is None,
        check_working_copy_safety_spec(
            t,
            params.repo_root,
            ws_head_spec(params.target_name),
            params.target_path,
        ) == Out::Got(RevisionSafetyV::AtRisk { change_id }, u),
    ensures
        exists|e: FailureV| close_by_fast_forward_spec(t, params, info) == Out::<DoneV>::Fail(e, u),
{
    reveal(close_by_fast_forward_spec);
    reveal(target_guard_spec);
    let e = failure_spec(
        "target workspace "@ + params.target_name + " has undescribed work in "@ + change_id
            + "; describe the revision first, or use a merge-close instead"@,
    );
    assert(close_by_fast_forward_spec(t, params, info) == Out::<DoneV>::Fail(e, u));
}

/// With the first `k` replies the close asks for `q`, and the next reply says that it was done.
pub open spec fn close_asked(
    t: Trace,
    params: CloseParamsV,
    info: SyncModeInfoV,
    k: int,
    q: RequestV,
) -> bool {
    &&& 0 <= k < t.len()
    &&& close_with_info_spec(t.take(k), params, info) == Out::<CloseTransferResultV>::Ask(q)
    &&& t[k].kind == Kind::Done
}

/// Where a workspace is forgotten: after how many replies its pending edits are captured, and after
/// how many jj is told to forget it.
proof fn lemma_forgets(t: Trace, repo: Seq<char>, path: Seq<char>, name: Seq<char>) -> (r: (int, int))
    requires
        forget_workspace_spec(t, repo, path, name) is Got,
    ensures
        0 <= r.0 < r.1 < t.len(),
        forget_workspace_spec(t.take(r.0), repo, path, name) == Out::<()>::Ask(
            snapshot_request(path),
        ),
        forget_workspace_spec(t.take(r.1), repo, path, name) == Out::<()>::Ask(
            forget_request(repo, name),
        ),
        t[r.0].kind == Kind::Done,
        t[r.1].kind == Kind::Done,
{
    broadcast use {group_rest, replays_is_workspace_stale, replays_update_workspace_stale};

    reveal(forget_workspace_spec);
    reveal(workspace_forget_spec);
    reveal(snapshot_ws_spec);
    let (stale, u) = match is_workspace_stale_spec(t, path) {
        Out::Got(stale, u) => (stale, u),
        _ => (false, t),
    };
    let w = if stale {
        match attempt_spec(update_workspace_stale_spec(u, path)) {
            Out::Got(_, w) => w,
            _ => u,
        }
    } else {
        u
    };
    let j = t.len() - w.len();
    assert(is_rest(w, t));
    lemma_rest(w, t);
    assert(w.take(0) =~= Seq::empty());
    assert(w.take(1).drop_first() =~= Seq::empty());
    assert(w.take(1)[0] == w[0]);
    assert(forget_workspace_spec(t.take(j), repo, path, name) == Out::<()>::Ask(
        snapshot_request(path),
    ));
    assert(forget_workspace_spec(t.take(j + 1), repo, path, name) == Out::<()>::Ask(
        forget_request(repo, name),
    ));
    (j, j + 1)
}

proof fn lemma_execution_forgets(
    t: Trace,
    params: CloseParamsV,
    op: Operation,
    info: SyncModeInfoV,
) -> (r: (int, int))
    requires
        execute_close_spec(t, params, op, info) is Got,
    ensures
        0 <= r.0 < r.1 < t.len(),
        execute_close_spec(t.take(r.0), params, op, info) == Out::<DoneV>::Ask(
            snapshot_request(params.source_path),
        ),
        execute_close_spec(t.take(r.1), params, op, info) == Out::<DoneV>::Ask(
            forget_request(params.repo_root, params.source_name),
        ),
        t[r.0].kind == Kind::Done,
        t[r.1].kind == Kind::Done,
{
    broadcast use {
        group_rest,
        replays_source_warnings,
        replays_target_guard,
        replays_check_revision_safety,
        replays_find_effective_head,
        replays_workspace_unique_change_ids,
        replays_check_chain_safety,
    };

    reveal(execute_close_spec);
    reveal(close_by_merge_spec);
    reveal(close_by_squash_spec);
    reveal(close_by_fast_forward_spec);
    reveal(close_by_detaching_spec);
    reveal(close_by_abandoning_spec);
    reveal(merge_close_spec);
    reveal(merge_squash_close_spec);
    reveal(fast_forward_close_spec);
    let repo = params.repo_root;
    let path = params.source_path;
    let name = params.source_name;
    let u = before_forgetting(t, params, op, info);
    let (j, k) = lemma_forgets(u, repo, path, name);
    let n = t.len() - u.len();
    assert(is_rest(u, t));
    lemma_rest(u, t);
    assert(execute_close_spec(t.take(n + j), params, op, info) is Ask);
    assert(execute_close_spec(t.take(n + k), params, op, info) is Ask);
    (n + j, n + k)
}

/// What an execution has left to read when it comes to forgetting the source.
spec fn before_forgetting(
    t: Trace,
    params: CloseParamsV,
    op: Operation,
    info: SyncModeInfoV,
) -> Trace {
    let repo = params.repo_root;
    let head = ws_head_spec(params.source_name);
    match op {
        Operation::MergeClose => left(
            source_warnings_spec(
                t,
                params,
                "; it will be preserved as a merge parent but may be hard to find"@,
            ),
        ),
        Operation::MergeSquashClose => left(
            source_warnings_spec(
                t,
                params,
                "; it will be squashed but the revision may be hard to find"@,
            ),
        ),
        Operation::FastForwardTargetClose => left(target_guard_spec(t, params, info)),
        Operation::Detach => left(
            find_effective_head_spec(
                left(check_revision_safety_spec(t, repo, head, Some(params.source_path))),
                repo,
                params.source_name,
            ),
        ),
        _ => left(
            check_chain_safety_spec(
                left(workspace_unique_change_ids_spec(t, repo, params.source_name)),
                repo,
                ids_of(params.revisions),
                Some(params.source_path),
            ),
        ),
    }
}

/// A close that succeeds, by whatever method, has had jj capture the pending edits of the source and
/// then forget it.
pub proof fn law_close_forgets_source(t: Trace, params: CloseParamsV, info: SyncModeInfoV)
    ensures
        close_with_info_spec(t, params, info) is Got ==> exists|j: int, k: int|
            j < k && #[trigger] close_asked(
                t,
                params,
                info,
                j,
                snapshot_request(params.source_path),
            ) && #[trigger] close_asked(
                t,
                params,
                info,
                k,
                forget_request(params.repo_root, params.source_name),
            ),
{
    broadcast use {
        group_rest,
        replays_validate_head_info,
        replays_prepare_execution_freshness,
        replays_predict_stale_workspaces,
    };

    reveal(close_with_info_spec);
    if close_with_info_spec(t, params, info) is Got {
        let op = resolved_close(params.method, info.mode)->Ok_0;
        let repo = params.repo_root;
        let (validated, t1) = match validate_head_info_spec(
            t,
            repo,
            info,
            params.source_name,
            params.target_name,
            false,
        ) {
            Out::Got(v, t1) => (v, t1),
            _ => (info, t),
        };
        let prepared = prepare_execution_freshness_spec(
            t1,
            repo,
            validated,
            params.source_name,
            params.source_path,
            params.target_name,
            params.target_path,
            !disposes(op),
            !disposes(op),
            advance_id_spec(params),
        );
        let fresh = prepared->Got_0;
        let t2 = left(prepared);
        let t3 = left(
            predict_stale_workspaces_spec(
                t2,
                repo,
                op,
                fresh.info,
                abandoned_by(params, op),
                needed_by(params, op),
            ),
        );
        let (j, k) = lemma_execution_forgets(t3, params, op, fresh.info);
        let n = t.len() - t3.len();
        assert(is_rest(t3, t));
        lemma_rest(t3, t);
        assert(close_asked(t, params, info, n + j, snapshot_request(params.source_path)));
        assert(close_asked(t, params, info, n + k, forget_request(repo, params.source_name)));
    }
}

/// With the first `k` replies a close that makes its own plan asks for `q`, and the next reply says
/// that it was done.
pub open spec fn fresh_close_asked(t: Trace, params: CloseParamsV, k: int, q: RequestV) -> bool {
    &&& 0 <= k < t.len()
    &&& close_spec(t.take(k), params) == Out::<CloseTransferResultV>::Ask(q)
    &&& t[k].kind == Kind::Done
}

/// A close that makes its own plan and succeeds has had jj capture the pending edits of the source
/// and then forget it, too.
pub proof fn law_fresh_close_forgets_source(t: Trace, params: CloseParamsV)
    ensures
        close_spec(t, params) is Got ==> exists|j: int, k: int|
            j < k && #[trigger] fresh_close_asked(
                t,
                params,
                j,
                snapshot_request(params.source_path),
            ) && #[trigger] fresh_close_asked(
                t,
                params,
                k,
                forget_request(params.repo_root, params.source_name),
            ),
{
    broadcast use {group_rest, replays_detect_sync_mode};

    reveal(close_spec);
    if close_spec(t, params) is Got {
        let detected = detect_sync_mode_spec(
            t,
            params.repo_root,
            params.source_name,
            params.target_name,
        );
        let info = detected->Got_0;
        let u = left(detected);
        let snapshot = snapshot_request(params.source_path);
        let forget = forget_request(params.repo_root, params.source_name);
        law_close_forgets_source(u, params, info);
        let (j, k) = choose|j: int, k: int|
            j < k && #[trigger] close_asked(u, params, info, j, snapshot)
                && #[trigger] close_asked(u, params, info, k, forget);
        let n = t.len() - u.len();
        lemma_rest(u, t);
        assert(fresh_close_asked(t, params, n + j, snapshot));
        assert(fresh_close_asked(t, params, n + k, forget));
    }
}

} // verus!
