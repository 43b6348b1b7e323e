//! Transferring work between two workspaces that both stay.

use vstd::prelude::*;

use crate::commands::after::{
    post_op_bookmarks, post_op_bookmarks_spec, post_op_stale, post_op_stale_spec,
    predict_stale_workspaces, predict_stale_workspaces_spec, resolve_predicted_stale,
    resolve_predicted_stale_spec, BookmarkResultV,
};
use crate::commands::plan::{
    adaptive_transfer_spec, detect_sync_mode, detect_sync_mode_spec, resolve_adaptive_transfer,
    validate_head_info, validate_head_info_spec,
};
use crate::commands::protect::{
    prepare_execution_freshness, prepare_execution_freshness_spec, ExecutionFreshness,
    ExecutionFreshnessV,
};
use crate::commands::types::{
    src_heads, tgt_heads, transfer_operation, CloseTransferResult, CloseTransferResultV, Operation,
    SyncMode, SyncModeInfo, SyncModeInfoV, SyncModeV, TransferMethod,
};
use crate::jj_utils::{
    check_working_copy_safety, check_working_copy_safety_spec, step_head, step_head_spec,
    ws_head_revset, ws_head_spec, RevisionSafety, RevisionSafetyV,
};
use crate::operations::{
    fast_forward, fast_forward_spec, merge, merge_abandon_parents_old,
    merge_abandon_parents_old_spec, merge_spec, merge_squash, merge_squash_spec, rebase,
    rebase_spec, WsRef, WsRefV,
};
use crate::stale::{unknown, unknown_spec, update_workspace_stale, update_workspace_stale_spec};
use crate::tape::{
    agrees, attempt, attempt_spec, bind, failure, failure_spec, Failure, FailureV, Out, Stop, Tape,
    Trace,
};
use crate::text::{args2, cat6, copy_all};

verus! {

/// What a transfer needs to know.
#[derive(Debug)]
pub struct TransferParams<'a> {
    pub repo_root: &'a str,
    pub source_name: &'a str,
    pub source_path: &'a str,
    pub target_name: &'a str,
    pub target_path: &'a str,
    pub method: TransferMethod,
    pub workspace_path_template: &'a str,
    pub repo_name: &'a str,
    pub author: Option<&'a str>,
}

/// The same, owning its data.
#[derive(Debug)]
pub struct TransferParamsOwned {
    pub repo_root: String,
    pub source_name: String,
    pub source_path: String,
    pub target_name: String,
    pub target_path: String,
    pub method: TransferMethod,
    pub workspace_path_template: String,
    pub repo_name: String,
    pub author: Option<String>,
}

pub struct TransferParamsV {
    pub repo_root: Seq<char>,
    pub source_name: Seq<char>,
    pub source_path: Seq<char>,
    pub target_name: Seq<char>,
    pub target_path: Seq<char>,
    pub method: TransferMethod,
    pub workspace_path_template: Seq<char>,
    pub repo_name: Seq<char>,
    pub author: Option<Seq<char>>,
}

impl<'a> DeepView for TransferParams<'a> {
    type V = TransferParamsV;

    open spec fn deep_view(&self) -> TransferParamsV {
        TransferParamsV {
            repo_root: self.repo_root@,
            source_name: self.source_name@,
            source_path: self.source_path@,
            target_name: self.target_name@,
            target_path: self.target_path@,
            method: self.method,
            workspace_path_template: self.workspace_path_template@,
            repo_name: self.repo_name@,
            author: self.author.deep_view(),
        }
    }
}

/// The concrete operation of a transfer.
pub open spec fn resolved_transfer(method: TransferMethod, mode: SyncModeV) -> Result<
    Operation,
    FailureV,
> {
    if method == TransferMethod::Adaptive {
        adaptive_transfer_spec(mode)
    } else {
        Ok(transfer_operation(method))
    }
}

fn resolve_transfer(method: TransferMethod, mode: &SyncMode) -> (r: Result<Operation, Failure>)
    ensures
        resolved_transfer(method, mode.deep_view()) == (match r {
            Ok(op) => Ok::<Operation, FailureV>(op),
            Err(e) => Err(e.deep_view()),
        }),
{
    match method {
        TransferMethod::Adaptive => resolve_adaptive_transfer(mode),
        TransferMethod::Merge => Ok(Operation::Merge),
        TransferMethod::FastForwardTarget => Ok(Operation::FastForwardTarget),
        TransferMethod::FastForwardSource => Ok(Operation::FastForwardSource),
        TransferMethod::MergeAbandonOld => Ok(Operation::MergeAbandonOld),
        TransferMethod::Rebase => Ok(Operation::Rebase),
        TransferMethod::MergeSquash => Ok(Operation::MergeSquash),
    }
}

pub open spec fn source_ref(p: TransferParamsV, info: SyncModeInfoV) -> WsRefV {
    WsRefV { name: p.source_name, path: p.source_path, info: src_heads(info) }
}

pub open spec fn target_ref(p: TransferParamsV, info: SyncModeInfoV) -> WsRefV {
    WsRefV { name: p.target_name, path: p.target_path, info: tgt_heads(info) }
}

/// The refusal to move a workspace off undescribed work; `role` tells which one.
pub open spec fn refusal(role: Seq<char>, name: Seq<char>, id: Seq<char>) -> Seq<char> {
    role + " workspace "@ + name + " has undescribed work in "@ + id
        + "; describe the revision first"@
}

/// Refuses to move a workspace off undescribed work.
#[verifier::opaque]
pub open spec fn guard_spec(t: Trace, repo: Seq<char>, role: Seq<char>, ws: WsRefV) -> Out<()> {
    if ws.info.trivial_id is Some {
        Out::Got((), t)
    } else {
        bind(
            check_working_copy_safety_spec(t, repo, ws_head_spec(ws.name), ws.path),
            |s: RevisionSafetyV, t: Trace|
                match s {
                    RevisionSafetyV::Safe => Out::Got((), t),
                    RevisionSafetyV::AtRisk { change_id } => Out::Fail(
                        failure_spec(refusal(role, ws.name, change_id)),
                        t,
                    ),
                },
        )
    }
}

fn guard(tape: &mut Tape, repo: &str, role: &str, ws: WsRef<'_>) -> (r: Result<(), Stop>)
    ensures
        agrees(r, final(tape)@, guard_spec(old(tape)@, repo@, role@, ws.deep_view())),
{
    reveal(guard_spec);
    if ws.info.trivial_id.is_some() {
        return Ok(());
    }
    match check_working_copy_safety(tape, repo, &ws_head_revset(ws.name), ws.path)? {
        RevisionSafety::Safe => Ok(()),
        RevisionSafety::AtRisk { change_id } => {
            let msg = cat6(
                role,
                " workspace ",
                ws.name,
                " has undescribed work in ",
                &change_id,
                "; describe the revision first",
            );
            Err(Stop::Fail(failure(msg)))
        },
    }
}

/// Fast-forwards one workspace to the other and gives that one a fresh head.
#[verifier::opaque]
pub open spec fn forward_spec(
    t: Trace,
    repo: Seq<char>,
    role: Seq<char>,
    behind: WsRefV,
    ahead: WsRefV,
    author: Option<Seq<char>>,
) -> Out<Seq<Seq<char>>> {
    bind(
        guard_spec(t, repo, role, behind),
        |u: (), t: Trace|
            bind(
                fast_forward_spec(
                    t,
                    repo,
                    behind,
                    ahead.name,
                    ahead.info.effective_head,
                    author,
                ),
                |w: Seq<Seq<char>>, t: Trace|
                    bind(
                        attempt_spec(
                            step_head_spec(t, repo, ahead.name, ahead.path, None, author),
                        ),
                        |r: Result<Seq<char>, FailureV>, t: Trace| Out::Got(w, t),
                    ),
            ),
    )
}

fn forward(
    tape: &mut Tape,
    repo: &str,
    role: &str,
    behind: WsRef<'_>,
    ahead: WsRef<'_>,
    author: Option<&str>,
) -> (r: Result<Vec<String>, Stop>)
    ensures
        agrees(
            r,
            final(tape)@,
            forward_spec(
                old(tape)@,
                repo@,
                role@,
                behind.deep_view(),
                ahead.deep_view(),
                author.deep_view(),
            ),
        ),
{
    reveal(forward_spec);
    guard(tape, repo, role, behind)?;
    let w = fast_forward(tape, repo, behind, ahead.name, &ahead.info.effective_head, author)?;
    let _ = attempt(step_head(tape, repo, ahead.name, ahead.path, None, author))?;
    Ok(w)
}

/// Executes a concrete transfer operation; the squashing merge is the one that is left.
#[verifier::opaque]
pub open spec fn execute_transfer_spec(
    t: Trace,
    params: TransferParamsV,
    operation: Operation,
    info: SyncModeInfoV,
) -> Out<Seq<Seq<char>>> {
    let src = source_ref(params, info);
    let tgt = target_ref(params, info);
    match operation {
        Operation::FastForwardTarget => forward_spec(
            t,
            params.repo_root,
            "target"@,
            tgt,
            src,
            params.author,
        ),
        Operation::FastForwardSource => forward_spec(
            t,
            params.repo_root,
            "source"@,
            src,
            tgt,
            params.author,
        ),
        Operation::Merge => merge_spec(t, params.repo_root, src, tgt, params.author),
        Operation::MergeAbandonOld => merge_abandon_parents_old_spec(
            t,
            params.repo_root,
            src,
            tgt,
            params.author,
        ),
        Operation::Rebase => bind(
            rebase_spec(t, params.repo_root, src_heads(info), tgt, info.lca, params.author),
            |u: (), t: Trace| Out::Got(Seq::empty(), t),
        ),
        _ => merge_squash_spec(t, params.repo_root, src, tgt, info.lca, params.author),
    }
}

fn execute_transfer(
    tape: &mut Tape,
    params: &TransferParams<'_>,
    operation: Operation,
    info: &SyncModeInfo,
) -> (r: Result<Vec<String>, Stop>)
    ensures
        agrees(
            r,
            final(tape)@,
            execute_transfer_spec(old(tape)@, params.deep_view(), operation, info.deep_view()),
        ),
{
    reveal(execute_transfer_spec);
    let src_hi = info.src_head_info();
    let tgt_hi = info.tgt_head_info();
    let src = WsRef { name: params.source_name, path: params.source_path, info: &src_hi };
    let tgt = WsRef { name: params.target_name, path: params.target_path, info: &tgt_hi };
    let repo = params.repo_root;
    match operation {
        Operation::FastForwardTarget => forward(tape, repo, "target", tgt, src, params.author),
        Operation::FastForwardSource => forward(tape, repo, "source", src, tgt, params.author),
        Operation::Merge => merge(tape, repo, src, tgt, params.author),
        Operation::MergeAbandonOld => merge_abandon_parents_old(tape, repo, src, tgt, params.author),
        Operation::Rebase => {
            rebase(tape, repo, &src_hi, tgt, &info.lca, params.author)?;
            let none: Vec<String> = Vec::new();
            assert(none.deep_view() =~= Seq::<Seq<char>>::empty());
            Ok(none)
        },
        _ => merge_squash(tape, repo, src, tgt, &info.lca, params.author),
    }
}

/// After the operation: both workspaces and the others, bookmarks.
#[verifier::opaque]
pub open spec fn finish_transfer_spec(
    t: Trace,
    params: TransferParamsV,
    operation: Operation,
    fresh: ExecutionFreshnessV,
    predicted: Seq<Seq<char>>,
    op_warnings: Seq<Seq<char>>,
) -> Out<CloseTransferResultV> {
    bind(
        attempt_spec(update_workspace_stale_spec(t, params.source_path)),
        |a: Result<Seq<char>, FailureV>, t: Trace|
            bind(
                attempt_spec(update_workspace_stale_spec(t, params.target_path)),
                |b: Result<Seq<char>, FailureV>, t: Trace|
                    bind(
                        resolve_predicted_stale_spec(
                            t,
                            unknown_spec(predicted, fresh.stale_skipped),
                            fresh.ws_paths,
                        ),
                        |u: (), t: Trace|
                            bind(
                                post_op_stale_spec(t, fresh.ws_paths, fresh.stale_skipped),
                                |stale: Seq<Seq<char>>, t: Trace|
                                    bind(
                                        post_op_bookmarks_spec(
                                            t,
                                            params.repo_root,
                                            operation,
                                            params.source_name,
                                            params.target_name,
                                            Some(fresh.info),
                                            params.workspace_path_template,
                                            params.repo_name,
                                            Seq::empty(),
                                            None,
                                        ),
                                        |b: BookmarkResultV, t: Trace|
                                            Out::Got(
                                                CloseTransferResultV {
                                                    stale_warnings: stale,
                                                    warnings: op_warnings,
                                                    post_errors: b.errors,
                                                    resolved_operation: operation,
                                                    predicted_stale: predicted,
                                                    pending_remove_path: None,
                                                },
                                                t,
                                            ),
                                    ),
                            ),
                    ),
            ),
    )
}

fn finish_transfer(
    tape: &mut Tape,
    params: &TransferParams<'_>,
    operation: Operation,
    fresh: &ExecutionFreshness,
    predicted: &Vec<String>,
    op_warnings: &Vec<String>,
) -> (r: Result<CloseTransferResult, Stop>)
    ensures
        agrees(
            r,
            final(tape)@,
            finish_transfer_spec(
                old(tape)@,
                params.deep_view(),
                operation,
                fresh.deep_view(),
                predicted.deep_view(),
                op_warnings.deep_view(),
            ),
        ),
{
    reveal(finish_transfer_spec);
    let _ = attempt(update_workspace_stale(tape, params.source_path))?;
    let _ = attempt(update_workspace_stale(tape, params.target_path))?;
    resolve_predicted_stale(tape, &unknown(predicted, &fresh.stale_skipped), &fresh.ws_paths)?;
    let stale = post_op_stale(tape, &fresh.ws_paths, &fresh.stale_skipped)?;
    let none: Vec<String> = Vec::new();
    assert(none.deep_view() =~= Seq::<Seq<char>>::empty());
    let b = post_op_bookmarks(
        tape,
        params.repo_root,
        operation,
        params.source_name,
        params.target_name,
        Some(&fresh.info),
        params.workspace_path_template,
        params.repo_name,
        &none,
        None,
    )?;
    Ok(
        CloseTransferResult {
            stale_warnings: stale,
            warnings: copy_all(op_warnings),
            post_errors: b.errors,
            resolved_operation: operation,
            predicted_stale: copy_all(predicted),
            pending_remove_path: None,
        },
    )
}

#[verifier::opaque]
pub open spec fn transfer_with_info_spec(
    t: Trace,
    params: TransferParamsV,
    info: SyncModeInfoV,
) -> Out<CloseTransferResultV> {
    match resolved_transfer(params.method, info.mode) {
        Err(e) => Out::Fail(e, t),
        Ok(op) => bind(
            validate_head_info_spec(
                t,
                params.repo_root,
                info,
                params.source_name,
                params.target_name,
                false,
            ),
            |validated: SyncModeInfoV, t: Trace|
                bind(
                    prepare_execution_freshness_spec(
                        t,
                        params.repo_root,
                        validated,
                        params.source_name,
                        params.source_path,
                        params.target_name,
                        params.target_path,
                        true,
                        true,
                        None,
                    ),
                    |fresh: ExecutionFreshnessV, t: Trace|
                        bind(
                            predict_stale_workspaces_spec(
                                t,
                                params.repo_root,
                                op,
                                fresh.info,
                                Seq::empty(),
                                seq![params.source_name, params.target_name],
                            ),
                            |predicted: Seq<Seq<char>>, t: Trace|
                                bind(
                                    execute_transfer_spec(t, params, op, fresh.info),
                                    |w: Seq<Seq<char>>, t: Trace|
                                        finish_transfer_spec(t, params, op, fresh, predicted, w),
                                ),
                        ),
                ),
        ),
    }
}

/// Transfers work by a plan that was made before.
pub fn transfer_with_info(
    tape: &mut Tape,
    params: &TransferParams<'_>,
    info: &SyncModeInfo,
) -> (r: Result<CloseTransferResult, Stop>)
    ensures
        agrees(
            r,
            final(tape)@,
            transfer_with_info_spec(old(tape)@, params.deep_view(), info.deep_view()),
        ),
{
    reveal(transfer_with_info_spec);
    let op = match resolve_transfer(params.method, &info.mode) {
        Ok(op) => op,
        Err(e) => {
            return Err(Stop::Fail(e));
        },
    };
    let validated = validate_head_info(
        tape,
        params.repo_root,
        info,
        params.source_name,
        params.target_name,
        false,
    )?;
    let fresh = prepare_execution_freshness(
        tape,
        params.repo_root,
        &validated,
        params.source_name,
        params.source_path,
        params.target_name,
        params.target_path,
        true,
        true,
        None,
    )?;
    let none: Vec<String> = Vec::new();
    assert(none.deep_view() =~= Seq::<Seq<char>>::empty());
    let predicted = predict_stale_workspaces(
        tape,
        params.repo_root,
        op,
        &fresh.info,
        &none,
        &args2(params.source_name, params.target_name),
    )?;
    let w = execute_transfer(tape, params, op, &fresh.info)?;
    finish_transfer(tape, params, op, &fresh, &predicted, &w)
}

#[verifier::opaque]
pub open spec fn transfer_spec(t: Trace, params: TransferParamsV) -> Out<CloseTransferResultV> {
    bind(
        detect_sync_mode_spec(t, params.repo_root, params.source_name, params.target_name),
        |info: SyncModeInfoV, t: Trace| transfer_with_info_spec(t, params, info),
    )
}

/// Transfers work by a plan made now.
pub fn transfer(
    tape: &mut Tape,
    params: &TransferParams<'_>,
) -> (r: Result<CloseTransferResult, Stop>)
    ensures
        agrees(r, final(tape)@, transfer_spec(old(tape)@, params.deep_view())),
{
    reveal(transfer_spec);
    let info = detect_sync_mode(
        tape,
        params.repo_root,
        params.source_name,
        params.target_name,
    )?;
    transfer_with_info(tape, params, &info)
}

/// A fast-forward off undescribed work fails right after the check: nothing more is asked, so that
/// no head moves.
pub proof fn law_transfer_refuses_undescribed(
    t: Trace,
    repo: Seq<char>,
    role: Seq<char>,
    behind: WsRefV,
    ahead: WsRefV,
    author: Option<Seq<char>>,
    change_id: Seq<char>,
    u: Trace,
)
    requires
        behind.info.trivial_id is None,
        check_working_copy_safety_spec(t, repo, ws_head_spec(behind.name), behind.path) == Out::Got(
            RevisionSafetyV::AtRisk { change_id },
            u,
        ),
    ensures
        forward_spec(t, repo, role, behind, ahead, author) == Out::<Seq<Seq<char>>>::Fail(
            failure_spec(refusal(role, behind.name, change_id)),
            u,
        ),
{
    reveal(forward_spec);
    reveal(guard_spec);
}

} // verus!
