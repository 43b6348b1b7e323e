//! What follows an operation: trivial heads, stale workspaces, bookmarks and the directory of the source.

use vstd::prelude::*;

use crate::commands::after::{
    advance_own_spec, advance_to_spec, closes_keeping, manual_step, own_bookmarks_spec,
    post_op_bookmarks_spec, post_op_manual_bookmarks_spec, post_op_stale_spec,
    predict_stale_workspaces_spec, refresh_spec, refresh_step, resolve_predicted_stale_spec,
    source_head, transfers, BookmarkResultV,
};
use crate::commands::close::{
    abandoned_by, advance_id_spec, close_bookmarks_spec, close_by_abandoning_spec,
    close_by_fast_forward_spec, close_by_merge_spec, close_by_squash_spec, close_spec,
    close_with_info_spec, disposes, execute_close_spec, finish_close_spec, needed_by,
    removable_spec, resolved_close, source_ref, source_warnings_spec, target_guard_spec, target_ref,
    CloseParamsV,
};
use crate::commands::outcomes::{close_executes, transfer_executes};
use crate::commands::plan::{
    detect_sync_mode_spec, law_validated_plan, plan_same, validate_head_info_spec,
};
use crate::commands::protect::{law_prepared_plan, prepare_execution_freshness_spec};
use crate::commands::sync::{advance_both_spec, finish_sync_spec, sync_with_info_spec};
use crate::commands::transfer::{
    execute_transfer_spec, finish_transfer_spec, resolved_transfer, transfer_spec,
    transfer_with_info_spec, TransferParamsV,
};
use crate::commands::types::{
    src_heads, tgt_heads, BookmarkAction, CloseMethod, CloseTransferResultV, Operation,
    PostOperationErrorV, SyncModeInfoV, TransferMethod,
};
use crate::commands::verdicts::lemma_kept_apart;
use crate::effects::{
    answer, bookmark_gone, bookmark_moved, bookmark_put, call, clears_fast_forward_close,
    clears_merge, clears_merge_close, clears_merge_squash, clears_merge_squash_close,
    clears_transfer_forward, head_checked, looked_up, refreshed,
};
use crate::finder_xattrs::{capture_spec, restore_spec};
use crate::jj_parse::escape_spec;
use crate::jj_utils::{
    advance_singular_bookmark_spec, advance_singular_bookmark_to_effective_head_spec,
    delete_singular_bookmark_spec, find_effective_head_spec, identify_singular_bookmark_spec,
};
use crate::operations::{
    done, fast_forward_close_spec, merge_close_spec, merge_squash_close_spec, sync_spec,
    SyncOutcomeV, WsRefV,
};
use crate::replay::{
    each_reaches, group_rest, is_rest, left, lemma_rest, replays_advance_both, replays_advance_own,
    replays_advance_to, replays_bookmark_delete, replays_bookmark_set_exact, replays_capture,
    replays_close_bookmarks, replays_execute_close, replays_execute_transfer,
    replays_fast_forward_close, replays_find_effective_head, replays_identify_singular_bookmark,
    replays_merge_close, replays_merge_squash_close, replays_operations_sync, replays_own_bookmarks,
    replays_post_op_bookmarks, replays_post_op_stale, replays_predict_stale_workspaces,
    replays_prepare_execution_freshness, replays_refresh, replays_removable,
    replays_resolve_predicted_stale, replays_restore, replays_source_warnings, replays_target_guard,
    replays_update_workspace_stale, replays_validate_head_info,
};
use crate::revisions::{
    bookmark_change_id_spec, bookmark_delete_spec, bookmark_set_exact_spec, bookmark_set_spec,
    resolve_sanitized_bookmark_spec,
};
use crate::stale::{unknown_spec, update_workspace_stale_spec};
use crate::tape::{attempt_spec, each, Act, Kind, Out, RequestV, Trace};
use crate::templates::derive_spec;
use crate::text_map::Pairs;

verus! {

/// The revset of the bookmark of this very name.
pub open spec fn exact_bookmark(name: Seq<char>) -> Seq<char> {
    "latest(bookmarks(exact:\""@ + escape_spec(name) + "\"))"@
}

/// A bookmark that bears the name derived from the workspace is the bookmark of the workspace.
proof fn lemma_identified(
    t: Trace,
    repo: Seq<char>,
    workspace_path_template: Seq<char>,
    repo_name: Seq<char>,
    ws_name: Seq<char>,
    name: Seq<char>,
)
    requires
        derive_spec(workspace_path_template, repo_name, ws_name) == Some(name),
        t.len() > 0,
    ensures
        identify_singular_bookmark_spec(
            t.take(0),
            repo,
            workspace_path_template,
            repo_name,
            ws_name,
        ) == Out::<Option<(Seq<char>, Seq<char>)>>::Ask(
            looked_up(Act::JjRepo, repo, exact_bookmark(name), "change_id"@),
        ),
        t[0].kind == Kind::Done && answer(t, 0).len() != 0 ==> identify_singular_bookmark_spec(
            t,
            repo,
            workspace_path_template,
            repo_name,
            ws_name,
        ) == Out::Got(Some((name, answer(t, 0))), t.skip(1)),
{
    reveal(identify_singular_bookmark_spec);
    reveal(resolve_sanitized_bookmark_spec);
    reveal(bookmark_change_id_spec);
    assert(t.skip(1) =~= t.drop_first());
}

/// After an operation that closes the source and keeps its work, the bookmark of the source goes to
/// the head that was given, else to the effective head of the source, unless it is there.
pub proof fn law_kept_work_takes_its_bookmark(
    t: Trace,
    repo: Seq<char>,
    operation: Operation,
    source_name: Seq<char>,
    target_name: Seq<char>,
    close_info: Option<SyncModeInfoV>,
    workspace_path_template: Seq<char>,
    repo_name: Seq<char>,
    bookmarks: Seq<Seq<char>>,
    given: Option<Seq<char>>,
    head: Seq<char>,
    bm: Seq<char>,
    id: Seq<char>,
    u: Trace,
)
    requires
        operation == Operation::MergeClose || operation == Operation::MergeSquashClose || operation
            == Operation::FastForwardTargetClose || operation == Operation::Detach,
        given == Some(head) || given is None && close_info is Some
            && close_info->0.src_effective_head == head,
        identify_singular_bookmark_spec(
            t,
            repo,
            workspace_path_template,
            repo_name,
            source_name,
        ) == Out::Got(Some((bm, id)), u),
        id != head,
        post_op_bookmarks_spec(
            t,
            repo,
            operation,
            source_name,
            target_name,
            close_info,
            workspace_path_template,
            repo_name,
            bookmarks,
            given,
        ) is Got,
    ensures
        0 < u.len() <= t.len(),
        post_op_bookmarks_spec(
            t.take(t.len() - u.len()),
            repo,
            operation,
            source_name,
            target_name,
            close_info,
            workspace_path_template,
            repo_name,
            bookmarks,
            given,
        ) == Out::<BookmarkResultV>::Ask(bookmark_moved(repo, head, bm)),
{
    broadcast use {group_rest, replays_identify_singular_bookmark};

    reveal(post_op_bookmarks_spec);
    reveal(own_bookmarks_spec);
    reveal(advance_to_spec);
    reveal(advance_singular_bookmark_spec);
    reveal(bookmark_set_spec);
    assert(is_rest(u, t));
    lemma_rest(u, t);
    assert(u.take(0) =~= Seq::empty());
}

/// After the source was abandoned, its bookmark is deleted.
pub proof fn law_abandoned_work_loses_its_bookmark(
    t: Trace,
    repo: Seq<char>,
    source_name: Seq<char>,
    target_name: Seq<char>,
    close_info: Option<SyncModeInfoV>,
    workspace_path_template: Seq<char>,
    repo_name: Seq<char>,
    bookmarks: Seq<Seq<char>>,
    given: Option<Seq<char>>,
    bm: Seq<char>,
    id: Seq<char>,
    u: Trace,
)
    requires
        identify_singular_bookmark_spec(
            t,
            repo,
            workspace_path_template,
            repo_name,
            source_name,
        ) == Out::Got(Some((bm, id)), u),
        post_op_bookmarks_spec(
            t,
            repo,
            Operation::Abandon,
            source_name,
            target_name,
            close_info,
            workspace_path_template,
            repo_name,
            bookmarks,
            given,
        ) is Got,
    ensures
        0 < u.len() <= t.len(),
        post_op_bookmarks_spec(
            t.take(t.len() - u.len()),
            repo,
            Operation::Abandon,
            source_name,
            target_name,
            close_info,
            workspace_path_template,
            repo_name,
            bookmarks,
            given,
        ) == Out::<BookmarkResultV>::Ask(bookmark_gone(repo, bm)),
{
    broadcast use {group_rest, replays_identify_singular_bookmark};

    reveal(post_op_bookmarks_spec);
    reveal(own_bookmarks_spec);
    reveal(delete_singular_bookmark_spec);
    reveal(bookmark_delete_spec);
    assert(is_rest(u, t));
    lemma_rest(u, t);
    assert(u.take(0) =~= Seq::empty());
}

/// The bookmark of a workspace that stays goes to the effective head of that workspace, unless it is
/// there.
pub proof fn law_own_bookmark_follows_the_head(
    t: Trace,
    repo: Seq<char>,
    workspace_path_template: Seq<char>,
    repo_name: Seq<char>,
    ws_name: Seq<char>,
    bm: Seq<char>,
    id: Seq<char>,
    u: Trace,
    eff: Seq<char>,
    w: Trace,
)
    requires
        identify_singular_bookmark_spec(
            t,
            repo,
            workspace_path_template,
            repo_name,
            ws_name,
        ) == Out::Got(Some((bm, id)), u),
        find_effective_head_spec(u, repo, ws_name) == Out::Got(eff, w),
        id != eff,
        advance_own_spec(t, repo, workspace_path_template, repo_name, ws_name) is Got,
    ensures
        0 < w.len() <= t.len(),
        advance_own_spec(
            t.take(t.len() - w.len()),
            repo,
            workspace_path_template,
            repo_name,
            ws_name,
        ) == Out::<Seq<PostOperationErrorV>>::Ask(bookmark_moved(repo, eff, bm)),
        advance_singular_bookmark_to_effective_head_spec(
            t.take(t.len() - w.len()),
            repo,
            workspace_path_template,
            repo_name,
            ws_name,
        ) == Out::<Option<Seq<char>>>::Ask(bookmark_moved(repo, eff, bm)),
{
    broadcast use {
        group_rest,
        replays_identify_singular_bookmark,
        replays_find_effective_head,
    };

    reveal(advance_own_spec);
    reveal(advance_singular_bookmark_to_effective_head_spec);
    reveal(bookmark_set_spec);
    assert(is_rest(w, t));
    lemma_rest(w, t);
    assert(w.take(0) =~= Seq::empty());
}

/// With the first `k` replies a close asks for `q`, and there is a reply to it.
pub open spec fn close_asks(
    t: Trace,
    params: CloseParamsV,
    info: SyncModeInfoV,
    k: int,
    q: RequestV,
) -> bool {
    &&& 0 <= k < t.len()
    &&& close_with_info_spec(t.take(k), params, info) == Out::<CloseTransferResultV>::Ask(q)
}

/// With the first `k` replies a transfer asks for `q`, and there is a reply to it.
pub open spec fn transfer_asks(
    t: Trace,
    params: TransferParamsV,
    info: SyncModeInfoV,
    k: int,
    q: RequestV,
) -> bool {
    &&& 0 <= k < t.len()
    &&& transfer_with_info_spec(t.take(k), params, info) == Out::<CloseTransferResultV>::Ask(q)
}

/// A close that succeeds comes to the bookmarks with the heads of its plan, and what these ask for is
/// asked for by the close.
#[verifier::rlimit(40)]
proof fn close_comes_to_bookmarks(t: Trace, params: CloseParamsV, info: SyncModeInfoV) -> (r: (
    Trace,
    SyncModeInfoV,
    Option<Seq<char>>,
))
    requires
        close_with_info_spec(t, params, info) is Got,
    ensures
        is_rest(r.0, t),
        plan_same(info, r.1),
        resolved_close(params.method, info.mode) is Ok,
        close_bookmarks_spec(
            r.0,
            params,
            resolved_close(params.method, info.mode)->Ok_0,
            r.1,
            r.2,
        ) is Got,
        resolved_close(params.method, info.mode)->Ok_0 == Operation::Detach || r.2 is None,
        forall|j: int|
            0 <= j <= r.0.len() && (#[trigger] close_bookmarks_spec(
                r.0.take(j),
                params,
                resolved_close(params.method, info.mode)->Ok_0,
                r.1,
                r.2,
            )) is Ask ==> close_with_info_spec(t.take(t.len() - r.0.len() + j), params, info)
                == Out::<CloseTransferResultV>::Ask(
                close_bookmarks_spec(
                    r.0.take(j),
                    params,
                    resolved_close(params.method, info.mode)->Ok_0,
                    r.1,
                    r.2,
                )->Ask_0,
            ),
{
    broadcast use {
        group_rest,
        replays_validate_head_info,
        replays_prepare_execution_freshness,
        replays_predict_stale_workspaces,
        replays_execute_close,
        replays_resolve_predicted_stale,
        replays_post_op_stale,
        replays_close_bookmarks,
    };

    reveal(close_with_info_spec);
    reveal(finish_close_spec);
    let op = resolved_close(params.method, info.mode)->Ok_0;
    let repo = params.repo_root;
    let checked = validate_head_info_spec(
        t,
        repo,
        info,
        params.source_name,
        params.target_name,
        false,
    );
    let prepared = prepare_execution_freshness_spec(
        left(checked),
        repo,
        checked->Got_0,
        params.source_name,
        params.source_path,
        params.target_name,
        params.target_path,
        !disposes(op),
        !disposes(op),
        advance_id_spec(params),
    );
    let fresh = prepared->Got_0;
    let predicted = predict_stale_workspaces_spec(
        left(prepared),
        repo,
        op,
        fresh.info,
        abandoned_by(params, op),
        needed_by(params, op),
    );
    let done = execute_close_spec(left(predicted), params, op, fresh.info);
    let a = left(
        resolve_predicted_stale_spec(
            left(done),
            unknown_spec(predicted->Got_0, fresh.stale_skipped),
            fresh.ws_paths,
        ),
    );
    let u = left(post_op_stale_spec(a, fresh.ws_paths, fresh.stale_skipped));
    assert(is_rest(u, t));
    lemma_rest(u, t);
    law_validated_plan(t, repo, info, params.source_name, params.target_name, false);
    law_prepared_plan(
        left(checked),
        repo,
        checked->Got_0,
        params.source_name,
        params.source_path,
        params.target_name,
        params.target_path,
        !disposes(op),
        !disposes(op),
        advance_id_spec(params),
    );
    assert(op == Operation::Detach || done->Got_0.1 is None) by {
        reveal(execute_close_spec);
        reveal(close_by_merge_spec);
        reveal(close_by_squash_spec);
        reveal(close_by_fast_forward_spec);
        reveal(close_by_abandoning_spec);
    }
    (u, fresh.info, done->Got_0.1)
}

/// A close that keeps the work of the source, and succeeds, looks for the bookmark of the name that
/// the template derives from the source. If there is one, off the effective head of the source, jj
/// is asked to move it there.
pub proof fn law_close_moves_the_source_bookmark(
    t: Trace,
    params: CloseParamsV,
    info: SyncModeInfoV,
    name: Seq<char>,
)
    requires
        close_with_info_spec(t, params, info) is Got,
        params.method == CloseMethod::Merge || params.method == CloseMethod::SquashMerge
            || params.method == CloseMethod::FastForward || params.method == CloseMethod::Adaptive,
        derive_spec(params.workspace_path_template, params.repo_name, params.source_name) == Some(
            name,
        ),
    ensures
        exists|j: int|
            {
                &&& #[trigger] close_asks(
                    t,
                    params,
                    info,
                    j,
                    looked_up(Act::JjRepo, params.repo_root, exact_bookmark(name), "change_id"@),
                )
                &&& t[j].kind == Kind::Done && answer(t, j).len() != 0 && answer(t, j)
                    != info.src_effective_head ==> close_asks(
                    t,
                    params,
                    info,
                    j + 1,
                    bookmark_moved(params.repo_root, info.src_effective_head, name),
                )
            },
{
    broadcast use {group_rest, replays_identify_singular_bookmark, replays_post_op_bookmarks};

    let (u, plan, head) = close_comes_to_bookmarks(t, params, info);
    let op = resolved_close(params.method, info.mode)->Ok_0;
    let n = t.len() - u.len();
    lemma_rest(u, t);
    let repo = params.repo_root;
    reveal(close_bookmarks_spec);
    assert(post_op_bookmarks_spec(
        u,
        repo,
        op,
        params.source_name,
        params.target_name,
        Some(plan),
        params.workspace_path_template,
        params.repo_name,
        params.bookmarks,
        head,
    ) is Got);
    assert(u.len() > 0 && close_bookmarks_spec(u.take(0), params, op, plan, head) == Out::<
        Seq<PostOperationErrorV>,
    >::Ask(looked_up(Act::JjRepo, repo, exact_bookmark(name), "change_id"@))) by {
        reveal(post_op_bookmarks_spec);
        reveal(own_bookmarks_spec);
        reveal(advance_to_spec);
        reveal(advance_singular_bookmark_spec);
        reveal(identify_singular_bookmark_spec);
        reveal(resolve_sanitized_bookmark_spec);
        reveal(bookmark_change_id_spec);
        assert(u.take(0) =~= Seq::empty());
    }
    assert(close_asks(
        t,
        params,
        info,
        n,
        looked_up(Act::JjRepo, repo, exact_bookmark(name), "change_id"@),
    ));
    assert(answer(t, n) == answer(u, 0));
    if t[n].kind == Kind::Done && answer(t, n).len() != 0 && answer(t, n)
        != info.src_effective_head {
        lemma_identified(
            u,
            repo,
            params.workspace_path_template,
            params.repo_name,
            params.source_name,
            name,
        );
        law_kept_work_takes_its_bookmark(
            u,
            repo,
            op,
            params.source_name,
            params.target_name,
            Some(plan),
            params.workspace_path_template,
            params.repo_name,
            params.bookmarks,
            head,
            info.src_effective_head,
            name,
            answer(u, 0),
            u.skip(1),
        );
        assert(close_bookmarks_spec(u.take(1), params, op, plan, head) is Ask);
        assert(close_asks(
            t,
            params,
            info,
            n + 1,
            bookmark_moved(repo, info.src_effective_head, name),
        ));
    }
}

/// A close that abandons, and succeeds, looks for the bookmark of the name that the template derives
/// from the source. If there is one, jj is asked to delete it.
pub proof fn law_abandoning_deletes_the_source_bookmark(
    t: Trace,
    params: CloseParamsV,
    info: SyncModeInfoV,
    name: Seq<char>,
)
    requires
        close_with_info_spec(t, params, info) is Got,
        params.method == CloseMethod::Abandon,
        derive_spec(params.workspace_path_template, params.repo_name, params.source_name) == Some(
            name,
        ),
    ensures
        exists|j: int|
            {
                &&& #[trigger] close_asks(
                    t,
                    params,
                    info,
                    j,
                    looked_up(Act::JjRepo, params.repo_root, exact_bookmark(name), "change_id"@),
                )
                &&& t[j].kind == Kind::Done && answer(t, j).len() != 0 ==> close_asks(
                    t,
                    params,
                    info,
                    j + 1,
                    bookmark_gone(params.repo_root, name),
                )
            },
{
    broadcast use {group_rest, replays_identify_singular_bookmark, replays_post_op_bookmarks};

    let (u, plan, head) = close_comes_to_bookmarks(t, params, info);
    let op = Operation::Abandon;
    let n = t.len() - u.len();
    lemma_rest(u, t);
    let repo = params.repo_root;
    reveal(close_bookmarks_spec);
    assert(post_op_bookmarks_spec(
        u,
        repo,
        op,
        params.source_name,
        params.target_name,
        Some(plan),
        params.workspace_path_template,
        params.repo_name,
        params.bookmarks,
        head,
    ) is Got);
    assert(u.len() > 0 && close_bookmarks_spec(u.take(0), params, op, plan, head) == Out::<
        Seq<PostOperationErrorV>,
    >::Ask(looked_up(Act::JjRepo, repo, exact_bookmark(name), "change_id"@))) by {
        reveal(post_op_bookmarks_spec);
        reveal(own_bookmarks_spec);
        reveal(delete_singular_bookmark_spec);
        reveal(identify_singular_bookmark_spec);
        reveal(resolve_sanitized_bookmark_spec);
        reveal(bookmark_change_id_spec);
        assert(u.take(0) =~= Seq::empty());
    }
    assert(close_asks(
        t,
        params,
        info,
        n,
        looked_up(Act::JjRepo, repo, exact_bookmark(name), "change_id"@),
    ));
    assert(answer(t, n) == answer(u, 0));
    if t[n].kind == Kind::Done && answer(t, n).len() != 0 {
        lemma_identified(
            u,
            repo,
            params.workspace_path_template,
            params.repo_name,
            params.source_name,
            name,
        );
        law_abandoned_work_loses_its_bookmark(
            u,
            repo,
            params.source_name,
            params.target_name,
            Some(plan),
            params.workspace_path_template,
            params.repo_name,
            params.bookmarks,
            head,
            name,
            answer(u, 0),
            u.skip(1),
        );
        assert(close_bookmarks_spec(u.take(1), params, op, plan, head) is Ask);
        assert(close_asks(t, params, info, n + 1, bookmark_gone(repo, name)));
    }
}

/// A close that plans for itself goes by the state of its source and its target.
pub proof fn law_close_goes_by_its_sides(t: Trace, params: CloseParamsV)
    ensures
        close_spec(t, params) matches Out::Got(r, w) ==> {
            &&& detect_sync_mode_spec(
                t,
                params.repo_root,
                params.source_name,
                params.target_name,
            ) matches Out::Got(info, u)
            &&& close_with_info_spec(u, params, info) == Out::Got(r, w)
        },
{
    reveal(close_spec);
}

/// A transfer that plans for itself goes by the state of its source and its target.
pub proof fn law_transfer_goes_by_its_sides(t: Trace, params: TransferParamsV)
    ensures
        transfer_spec(t, params) matches Out::Got(r, w) ==> {
            &&& detect_sync_mode_spec(
                t,
                params.repo_root,
                params.source_name,
                params.target_name,
            ) matches Out::Got(info, u)
            &&& transfer_with_info_spec(u, params, info) == Out::Got(r, w)
        },
{
    reveal(transfer_spec);
}

/// A close leaves the directory of the source to be removed exactly where that was asked for and
/// there is one.
pub proof fn law_close_removes_only_on_demand(t: Trace, params: CloseParamsV, info: SyncModeInfoV)
    ensures
        close_with_info_spec(t, params, info) matches Out::Got(r, u) ==> {
            &&& r.pending_remove_path matches Some(p) ==> params.delete_files && p
                == params.source_path && p.len() != 0
            &&& params.delete_files && params.source_path.len() != 0 ==> close_asks(
                t,
                params,
                info,
                t.len() - u.len() - 1,
                call(Act::Exists, params.source_path, Seq::empty()),
            ) && (r.pending_remove_path is Some <==> t[t.len() - u.len() - 1].kind == Kind::Done)
        },
{
    broadcast use {
        group_rest,
        replays_validate_head_info,
        replays_prepare_execution_freshness,
        replays_predict_stale_workspaces,
        replays_execute_close,
        replays_resolve_predicted_stale,
        replays_post_op_stale,
        replays_close_bookmarks,
        replays_removable,
    };

    reveal(close_with_info_spec);
    reveal(finish_close_spec);
    reveal(removable_spec);
    if let Out::Got(r, u) = close_with_info_spec(t, params, info) {
        let (x, plan, head) = close_comes_to_bookmarks(t, params, info);
        let op = resolved_close(params.method, info.mode)->Ok_0;
        let checked = validate_head_info_spec(
            t,
            params.repo_root,
            info,
            params.source_name,
            params.target_name,
            false,
        );
        let prepared = prepare_execution_freshness_spec(
            left(checked),
            params.repo_root,
            checked->Got_0,
            params.source_name,
            params.source_path,
            params.target_name,
            params.target_path,
            !disposes(op),
            !disposes(op),
            advance_id_spec(params),
        );
        let fresh = prepared->Got_0;
        let predicted = predict_stale_workspaces_spec(
            left(prepared),
            params.repo_root,
            op,
            fresh.info,
            abandoned_by(params, op),
            needed_by(params, op),
        );
        let done = execute_close_spec(left(predicted), params, op, fresh.info);
        let a = left(
            resolve_predicted_stale_spec(
                left(done),
                unknown_spec(predicted->Got_0, fresh.stale_skipped),
                fresh.ws_paths,
            ),
        );
        let b = left(post_op_stale_spec(a, fresh.ws_paths, fresh.stale_skipped));
        let c = left(close_bookmarks_spec(b, params, op, fresh.info, done->Got_0.1));
        assert(is_rest(c, t));
        lemma_rest(c, t);
        assert(removable_spec(c, params) == Out::Got(r.pending_remove_path, u));
        if params.delete_files && params.source_path.len() != 0 {
            assert(c.take(0) =~= Seq::empty());
            assert(c[0] == t[t.len() - c.len()]);
            assert(u.len() == c.len() - 1);
        }
    }
}

/// The trivial head of the source, else that of the target.
pub open spec fn trivial_head(info: SyncModeInfoV) -> Seq<char> {
    if info.src_trivial_id is Some {
        info.src_trivial_id->0
    } else {
        info.tgt_trivial_id->0
    }
}

/// A close that merges asks whether the trivial head that was the source's, else the target's, is
/// one still, to abandon it.
pub proof fn law_merge_close_tidies(t: Trace, params: CloseParamsV, info: SyncModeInfoV)
    requires
        close_with_info_spec(t, params, info) is Got,
        params.method == CloseMethod::Merge || params.method == CloseMethod::Adaptive
            && info.mode is Diverged,
        info.src_trivial_id is Some || info.tgt_trivial_id is Some,
    ensures
        exists|k: int| #[trigger] close_asks(
            t,
            params,
            info,
            k,
            head_checked(params.repo_root, trivial_head(info)),
        ),
{
    broadcast use {
        group_rest,
        replays_source_warnings,
        replays_target_guard,
        replays_merge_close,
        replays_merge_squash_close,
        replays_fast_forward_close,
    };

    reveal(execute_close_spec);
    reveal(close_by_merge_spec);
    reveal(close_by_squash_spec);
    reveal(close_by_fast_forward_spec);
    let (u, plan) = close_executes(t, params, info);
    let v = left(
        source_warnings_spec(
            u,
            params,
            "; it will be preserved as a merge parent but may be hard to find"@,
        ),
    );
    assert(is_rest(v, u));
    let j = clears_merge_close(
        v,
        params.repo_root,
        source_ref(params, plan),
        target_ref(params, plan),
        params.author,
    );
    lemma_rest(u, t);
    lemma_rest(v, u);
    let k = u.len() - v.len() + j;
    assert(execute_close_spec(u.take(k), params, Operation::MergeClose, plan) is Ask);
    assert(
        close_asks(
            t,
            params,
            info,
            t.len() - u.len() + k,
            head_checked(params.repo_root, trivial_head(info)),
        )
    );
}

/// A close that squashes does so, too.
pub proof fn law_squash_close_tidies(t: Trace, params: CloseParamsV, info: SyncModeInfoV)
    requires
        close_with_info_spec(t, params, info) is Got,
        params.method == CloseMethod::SquashMerge,
        info.src_trivial_id is Some || info.tgt_trivial_id is Some,
    ensures
        exists|k: int| #[trigger] close_asks(
            t,
            params,
            info,
            k,
            head_checked(params.repo_root, trivial_head(info)),
        ),
{
    broadcast use {
        group_rest,
        replays_source_warnings,
        replays_target_guard,
        replays_merge_close,
        replays_merge_squash_close,
        replays_fast_forward_close,
    };

    reveal(execute_close_spec);
    reveal(close_by_merge_spec);
    reveal(close_by_squash_spec);
    reveal(close_by_fast_forward_spec);
    let (u, plan) = close_executes(t, params, info);
    let v = left(
        source_warnings_spec(
            u,
            params,
            "; it will be squashed but the revision may be hard to find"@,
        ),
    );
    assert(is_rest(v, u));
    let j = clears_merge_squash_close(
        v,
        params.repo_root,
        source_ref(params, plan),
        target_ref(params, plan),
        plan.lca,
        params.author,
    );
    lemma_rest(u, t);
    lemma_rest(v, u);
    let k = u.len() - v.len() + j;
    assert(execute_close_spec(u.take(k), params, Operation::MergeSquashClose, plan) is Ask);
    assert(
        close_asks(
            t,
            params,
            info,
            t.len() - u.len() + k,
            head_checked(params.repo_root, trivial_head(info)),
        )
    );
}

/// A close that fast-forwards asks so of the trivial head that was the target's.
pub proof fn law_forwarding_close_tidies(t: Trace, params: CloseParamsV, info: SyncModeInfoV)
    requires
        close_with_info_spec(t, params, info) is Got,
        params.method == CloseMethod::FastForward || params.method == CloseMethod::Adaptive
            && info.mode is SourceOnly,
        info.tgt_trivial_id is Some,
    ensures
        exists|k: int| #[trigger] close_asks(
            t,
            params,
            info,
            k,
            head_checked(params.repo_root, info.tgt_trivial_id->0),
        ),
{
    broadcast use {
        group_rest,
        replays_source_warnings,
        replays_target_guard,
        replays_merge_close,
        replays_merge_squash_close,
        replays_fast_forward_close,
    };

    reveal(execute_close_spec);
    reveal(close_by_merge_spec);
    reveal(close_by_squash_spec);
    reveal(close_by_fast_forward_spec);
    let (u, plan) = close_executes(t, params, info);
    let v = left(target_guard_spec(u, params, plan));
    assert(is_rest(v, u));
    let j = clears_fast_forward_close(
        v,
        params.repo_root,
        source_ref(params, plan),
        params.target_path,
        tgt_heads(plan),
    );
    lemma_rest(u, t);
    lemma_rest(v, u);
    let k = u.len() - v.len() + j;
    assert(execute_close_spec(u.take(k), params, Operation::FastForwardTargetClose, plan) is Ask);
    assert(
        close_asks(
            t,
            params,
            info,
            t.len() - u.len() + k,
            head_checked(params.repo_root, info.tgt_trivial_id->0),
        )
    );
}

/// A transfer that merges asks whether the trivial head that was the source's, else the target's, is
/// one still, to abandon it.
pub proof fn law_merge_transfer_tidies(t: Trace, params: TransferParamsV, info: SyncModeInfoV)
    requires
        transfer_with_info_spec(t, params, info) is Got,
        params.method == TransferMethod::Merge || params.method == TransferMethod::Adaptive
            && info.mode is Diverged,
        info.src_trivial_id is Some || info.tgt_trivial_id is Some,
    ensures
        exists|k: int| #[trigger]
            transfer_asks(t, params, info, k, head_checked(params.repo_root, trivial_head(info))),
{
    reveal(execute_transfer_spec);
    let (u, plan) = transfer_executes(t, params, info);
    let j = clears_merge(
        u,
        params.repo_root,
        crate::commands::transfer::source_ref(params, plan),
        crate::commands::transfer::target_ref(params, plan),
        params.author,
    );
    lemma_rest(u, t);
    assert(execute_transfer_spec(u.take(j), params, Operation::Merge, plan) is Ask);
    assert(transfer_asks(
        t,
        params,
        info,
        t.len() - u.len() + j,
        head_checked(params.repo_root, trivial_head(info)),
    ));
}

/// A transfer that squashes does so, too.
pub proof fn law_squash_transfer_tidies(t: Trace, params: TransferParamsV, info: SyncModeInfoV)
    requires
        transfer_with_info_spec(t, params, info) is Got,
        params.method == TransferMethod::MergeSquash,
        info.src_trivial_id is Some || info.tgt_trivial_id is Some,
    ensures
        exists|k: int| #[trigger]
            transfer_asks(t, params, info, k, head_checked(params.repo_root, trivial_head(info))),
{
    reveal(execute_transfer_spec);
    let (u, plan) = transfer_executes(t, params, info);
    let j = clears_merge_squash(
        u,
        params.repo_root,
        crate::commands::transfer::source_ref(params, plan),
        crate::commands::transfer::target_ref(params, plan),
        plan.lca,
        params.author,
    );
    lemma_rest(u, t);
    assert(execute_transfer_spec(u.take(j), params, Operation::MergeSquash, plan) is Ask);
    assert(transfer_asks(
        t,
        params,
        info,
        t.len() - u.len() + j,
        head_checked(params.repo_root, trivial_head(info)),
    ));
}

/// A transfer that fast-forwards the target asks so of the trivial head that was the target's.
pub proof fn law_forwarded_target_is_tidied(t: Trace, params: TransferParamsV, info: SyncModeInfoV)
    requires
        transfer_with_info_spec(t, params, info) is Got,
        params.method == TransferMethod::FastForwardTarget || params.method
            == TransferMethod::Adaptive && info.mode is SourceOnly,
        info.tgt_trivial_id is Some,
    ensures
        exists|k: int| #[trigger]
            transfer_asks(
                t,
                params,
                info,
                k,
                head_checked(params.repo_root, info.tgt_trivial_id->0),
            ),
{
    reveal(execute_transfer_spec);
    let (u, plan) = transfer_executes(t, params, info);
    let j = clears_transfer_forward(
        u,
        params.repo_root,
        "target"@,
        crate::commands::transfer::target_ref(params, plan),
        crate::commands::transfer::source_ref(params, plan),
        params.author,
    );
    lemma_rest(u, t);
    assert(execute_transfer_spec(u.take(j), params, Operation::FastForwardTarget, plan) is Ask);
    assert(transfer_asks(
        t,
        params,
        info,
        t.len() - u.len() + j,
        head_checked(params.repo_root, info.tgt_trivial_id->0),
    ));
}

/// A transfer that fast-forwards the source asks so of the trivial head that was the source's.
pub proof fn law_forwarded_source_is_tidied(t: Trace, params: TransferParamsV, info: SyncModeInfoV)
    requires
        transfer_with_info_spec(t, params, info) is Got,
        params.method == TransferMethod::FastForwardSource || params.method
            == TransferMethod::Adaptive && info.mode is TargetOnly,
        info.src_trivial_id is Some,
    ensures
        exists|k: int| #[trigger]
            transfer_asks(
                t,
                params,
                info,
                k,
                head_checked(params.repo_root, info.src_trivial_id->0),
            ),
{
    reveal(execute_transfer_spec);
    let (u, plan) = transfer_executes(t, params, info);
    let j = clears_transfer_forward(
        u,
        params.repo_root,
        "source"@,
        crate::commands::transfer::source_ref(params, plan),
        crate::commands::transfer::target_ref(params, plan),
        params.author,
    );
    lemma_rest(u, t);
    assert(execute_transfer_spec(u.take(j), params, Operation::FastForwardSource, plan) is Ask);
    assert(transfer_asks(
        t,
        params,
        info,
        t.len() - u.len() + j,
        head_checked(params.repo_root, info.src_trivial_id->0),
    ));
}

/// With the first `k` replies the bringing up to date asks for `q`, and there is a reply to it.
pub open spec fn resolving_asks(
    t: Trace,
    predicted: Seq<Seq<char>>,
    ws_paths: Pairs,
    k: int,
    q: RequestV,
) -> bool {
    &&& 0 <= k < t.len()
    &&& resolve_predicted_stale_spec(t.take(k), predicted, ws_paths) == Out::<()>::Ask(q)
}

/// Every workspace that was predicted to go stale, and whose directory is there, is brought up to
/// date.
pub proof fn law_predicted_workspaces_are_refreshed(
    t: Trace,
    predicted: Seq<Seq<char>>,
    ws_paths: Pairs,
    i: int,
)
    requires
        resolve_predicted_stale_spec(t, predicted, ws_paths) is Got,
        0 <= i < ws_paths.len(),
        predicted.contains(ws_paths[i].0),
        ws_paths[i].1.len() != 0,
    ensures
        exists|k: int|
            {
                &&& #[trigger] resolving_asks(
                    t,
                    predicted,
                    ws_paths,
                    k,
                    call(Act::Exists, ws_paths[i].1, Seq::empty()),
                )
                &&& t[k].kind == Kind::Done ==> resolving_asks(
                    t,
                    predicted,
                    ws_paths,
                    k + 1,
                    call(Act::Exists, ws_paths[i].1, Seq::empty()),
                ) && (t[k + 1].kind == Kind::Done ==> resolving_asks(
                    t,
                    predicted,
                    ws_paths,
                    k + 2,
                    refreshed(ws_paths[i].1),
                ))
            },
{
    broadcast use {group_rest, replays_refresh};

    reveal(resolve_predicted_stale_spec);
    let step = refresh_step(predicted);
    let (u, a) = each_reaches(t, ws_paths, (), step, i);
    lemma_rest(u, t);
    let n = t.len() - u.len();
    reveal(refresh_spec);
    reveal(update_workspace_stale_spec);
    assert(u.take(0) =~= Seq::empty());
    assert(step(u.take(0), a, ws_paths[i]) is Ask);
    assert(resolving_asks(
        t,
        predicted,
        ws_paths,
        n,
        call(Act::Exists, ws_paths[i].1, Seq::empty()),
    ));
    if t[n].kind == Kind::Done {
        assert(u[0] == t[n]);
        assert(u.take(1)[0] == u[0]);
        assert(u.take(1).drop_first() =~= Seq::empty());
        assert(step(u.take(1), a, ws_paths[i]) is Ask);
        if t[n + 1].kind == Kind::Done {
            assert(u[1] == t[n + 1]);
            assert(u.drop_first()[0] == u[1]);
            assert(u.take(2).drop_first()[0] == u[1]);
            assert(u.take(2)[0] == u[0]);
            assert(u.take(2).drop_first().drop_first() =~= Seq::empty());
            assert(step(u.take(2), a, ws_paths[i]) is Ask);
        }
    }
}

/// With the first `k` replies the care for the bookmarks asks for `q`, and there is a reply to it.
pub open spec fn manual_asks(
    t: Trace,
    repo: Seq<char>,
    bookmarks: Seq<Seq<char>>,
    action: BookmarkAction,
    target: Seq<char>,
    k: int,
    q: RequestV,
) -> bool {
    &&& 0 <= k < t.len()
    &&& post_op_manual_bookmarks_spec(t.take(k), repo, bookmarks, action, target) == Out::<
        Seq<PostOperationErrorV>,
    >::Ask(q)
}

/// Every other bookmark is put on the target, or deleted, or left alone, as was chosen.
pub proof fn law_bookmarks_are_dealt_with_as_chosen(
    t: Trace,
    repo: Seq<char>,
    bookmarks: Seq<Seq<char>>,
    action: BookmarkAction,
    target: Seq<char>,
    i: int,
)
    requires
        post_op_manual_bookmarks_spec(t, repo, bookmarks, action, target) is Got,
        0 <= i < bookmarks.len(),
    ensures
        action == BookmarkAction::Advance ==> exists|k: int| #[trigger]
            manual_asks(
                t,
                repo,
                bookmarks,
                action,
                target,
                k,
                bookmark_put(repo, target, bookmarks[i]),
            ),
        action == BookmarkAction::Delete ==> exists|k: int| #[trigger]
            manual_asks(t, repo, bookmarks, action, target, k, bookmark_gone(repo, bookmarks[i])),
{
    broadcast use {group_rest, replays_bookmark_set_exact, replays_bookmark_delete};

    reveal(post_op_manual_bookmarks_spec);
    let step = manual_step(repo, action, target);
    let (u, a) = each_reaches(t, bookmarks, Seq::<PostOperationErrorV>::empty(), step, i);
    lemma_rest(u, t);
    let n = t.len() - u.len();
    reveal(bookmark_set_exact_spec);
    reveal(bookmark_delete_spec);
    assert(u.take(0) =~= Seq::empty());
    if action != BookmarkAction::NoAction {
        assert(step(u.take(0), a, bookmarks[i]) is Ask);
    }
    if action == BookmarkAction::Advance {
        assert(manual_asks(
            t,
            repo,
            bookmarks,
            action,
            target,
            n,
            bookmark_put(repo, target, bookmarks[i]),
        ));
    }
    if action == BookmarkAction::Delete {
        assert(
            manual_asks(t, repo, bookmarks, action, target, n, bookmark_gone(repo, bookmarks[i]))
        );
    }
}

/// Bookmarks that are to be left alone are.
pub proof fn law_no_action_touches_no_bookmark(
    t: Trace,
    repo: Seq<char>,
    bookmarks: Seq<Seq<char>>,
    target: Seq<char>,
)
    ensures
        post_op_manual_bookmarks_spec(t, repo, bookmarks, BookmarkAction::NoAction, target)
            == Out::Got(Seq::<PostOperationErrorV>::empty(), t),
{
    reveal(post_op_manual_bookmarks_spec);
    lemma_no_action(t, repo, bookmarks, target);
}

proof fn lemma_no_action(t: Trace, repo: Seq<char>, bookmarks: Seq<Seq<char>>, target: Seq<char>)
    ensures
        each(
            t,
            bookmarks,
            Seq::<PostOperationErrorV>::empty(),
            manual_step(repo, BookmarkAction::NoAction, target),
        ) == Out::Got(Seq::<PostOperationErrorV>::empty(), t),
    decreases bookmarks.len(),
{
    if bookmarks.len() > 0 {
        lemma_no_action(t, repo, bookmarks.drop_first(), target);
        assert(Seq::<PostOperationErrorV>::empty() + Seq::<PostOperationErrorV>::empty()
            =~= Seq::<PostOperationErrorV>::empty());
    }
}

proof fn lemma_refresh_asks(t: Trace, path: Seq<char>)
    requires
        attempt_spec(update_workspace_stale_spec(t, path)) is Got,
    ensures
        0 < t.len(),
        update_workspace_stale_spec(t.take(0), path) == Out::<Seq<char>>::Ask(
            call(Act::Exists, path, Seq::empty()),
        ),
        t[0].kind == Kind::Done ==> 1 < t.len() && update_workspace_stale_spec(t.take(1), path)
            == Out::<Seq<char>>::Ask(refreshed(path)),
{
    reveal(update_workspace_stale_spec);
    assert(t.take(0) =~= Seq::empty());
    if t[0].kind == Kind::Done {
        assert(t.take(1)[0] == t[0]);
        assert(t.take(1).drop_first() =~= Seq::empty());
    }
}

/// A transfer that succeeds comes, after its operation, to bringing the source up to date, then the
/// target, and then to the bookmarks; and what these ask for is asked for by the transfer.
#[verifier::rlimit(60)]
proof fn transfer_finishes(t: Trace, params: TransferParamsV, info: SyncModeInfoV) -> (r: (
    Trace,
    Trace,
    Trace,
    SyncModeInfoV,
))
    requires
        transfer_with_info_spec(t, params, info) is Got,
    ensures
        is_rest(r.0, t),
        is_rest(r.1, t),
        is_rest(r.2, t),
        resolved_transfer(params.method, info.mode) is Ok,
        attempt_spec(update_workspace_stale_spec(r.0, params.source_path)) is Got,
        attempt_spec(update_workspace_stale_spec(r.1, params.target_path)) is Got,
        post_op_bookmarks_spec(
            r.2,
            params.repo_root,
            resolved_transfer(params.method, info.mode)->Ok_0,
            params.source_name,
            params.target_name,
            Some(r.3),
            params.workspace_path_template,
            params.repo_name,
            Seq::empty(),
            None,
        ) is Got,
        forall|j: int|
            0 <= j <= r.0.len() && (#[trigger] update_workspace_stale_spec(
                r.0.take(j),
                params.source_path,
            )) is Ask ==> transfer_with_info_spec(t.take(t.len() - r.0.len() + j), params, info)
                == Out::<CloseTransferResultV>::Ask(
                update_workspace_stale_spec(r.0.take(j), params.source_path)->Ask_0,
            ),
        forall|j: int|
            0 <= j <= r.1.len() && (#[trigger] update_workspace_stale_spec(
                r.1.take(j),
                params.target_path,
            )) is Ask ==> transfer_with_info_spec(t.take(t.len() - r.1.len() + j), params, info)
                == Out::<CloseTransferResultV>::Ask(
                update_workspace_stale_spec(r.1.take(j), params.target_path)->Ask_0,
            ),
        forall|j: int|
            0 <= j <= r.2.len() && (#[trigger] post_op_bookmarks_spec(
                r.2.take(j),
                params.repo_root,
                resolved_transfer(params.method, info.mode)->Ok_0,
                params.source_name,
                params.target_name,
                Some(r.3),
                params.workspace_path_template,
                params.repo_name,
                Seq::empty(),
                None,
            )) is Ask ==> transfer_with_info_spec(t.take(t.len() - r.2.len() + j), params, info)
                == Out::<CloseTransferResultV>::Ask(
                post_op_bookmarks_spec(
                    r.2.take(j),
                    params.repo_root,
                    resolved_transfer(params.method, info.mode)->Ok_0,
                    params.source_name,
                    params.target_name,
                    Some(r.3),
                    params.workspace_path_template,
                    params.repo_name,
                    Seq::empty(),
                    None,
                )->Ask_0,
            ),
{
    broadcast use {
        group_rest,
        replays_validate_head_info,
        replays_prepare_execution_freshness,
        replays_predict_stale_workspaces,
        replays_execute_transfer,
        replays_update_workspace_stale,
        replays_resolve_predicted_stale,
        replays_post_op_stale,
        replays_post_op_bookmarks,
    };

    reveal(transfer_with_info_spec);
    reveal(finish_transfer_spec);
    let op = resolved_transfer(params.method, info.mode)->Ok_0;
    let repo = params.repo_root;
    let checked = validate_head_info_spec(
        t,
        repo,
        info,
        params.source_name,
        params.target_name,
        false,
    );
    let prepared = prepare_execution_freshness_spec(
        left(checked),
        repo,
        checked->Got_0,
        params.source_name,
        params.source_path,
        params.target_name,
        params.target_path,
        true,
        true,
        None,
    );
    let fresh = prepared->Got_0;
    let predicted = predict_stale_workspaces_spec(
        left(prepared),
        repo,
        op,
        fresh.info,
        Seq::empty(),
        seq![params.source_name, params.target_name],
    );
    let u = left(execute_transfer_spec(left(predicted), params, op, fresh.info));
    let v = attempt_spec(update_workspace_stale_spec(u, params.source_path))->Got_1;
    let w = attempt_spec(update_workspace_stale_spec(v, params.target_path))->Got_1;
    let x = left(
        resolve_predicted_stale_spec(
            w,
            unknown_spec(predicted->Got_0, fresh.stale_skipped),
            fresh.ws_paths,
        ),
    );
    let y = left(post_op_stale_spec(x, fresh.ws_paths, fresh.stale_skipped));
    assert(is_rest(u, t));
    assert(is_rest(v, t));
    assert(is_rest(y, t));
    lemma_rest(u, t);
    lemma_rest(v, t);
    lemma_rest(y, t);
    (u, v, y, fresh.info)
}

/// A transfer that succeeds has, after its operation, looked whether the source is there, and if so
/// brought it up to date, and the same of the target.
pub proof fn law_transfer_refreshes_both_sides(
    t: Trace,
    params: TransferParamsV,
    info: SyncModeInfoV,
)
    requires
        transfer_with_info_spec(t, params, info) is Got,
    ensures
        exists|j: int|
            {
                &&& #[trigger] transfer_asks(
                    t,
                    params,
                    info,
                    j,
                    call(Act::Exists, params.source_path, Seq::empty()),
                )
                &&& t[j].kind == Kind::Done ==> transfer_asks(
                    t,
                    params,
                    info,
                    j + 1,
                    refreshed(params.source_path),
                )
            },
        exists|j: int|
            {
                &&& #[trigger] transfer_asks(
                    t,
                    params,
                    info,
                    j,
                    call(Act::Exists, params.target_path, Seq::empty()),
                )
                &&& t[j].kind == Kind::Done ==> transfer_asks(
                    t,
                    params,
                    info,
                    j + 1,
                    refreshed(params.target_path),
                )
            },
{
    let (u, v, y, plan) = transfer_finishes(t, params, info);
    lemma_rest(u, t);
    lemma_rest(v, t);
    lemma_refresh_asks(u, params.source_path);
    lemma_refresh_asks(v, params.target_path);
    let m = t.len() - u.len();
    let n = t.len() - v.len();
    assert(u[0] == t[m]);
    assert(v[0] == t[n]);
    assert(update_workspace_stale_spec(u.take(0), params.source_path) is Ask);
    assert(update_workspace_stale_spec(v.take(0), params.target_path) is Ask);
    assert(transfer_asks(
        t,
        params,
        info,
        m,
        call(Act::Exists, params.source_path, Seq::empty()),
    ));
    assert(transfer_asks(
        t,
        params,
        info,
        n,
        call(Act::Exists, params.target_path, Seq::empty()),
    ));
    if t[m].kind == Kind::Done {
        assert(update_workspace_stale_spec(u.take(1), params.source_path) is Ask);
        assert(transfer_asks(t, params, info, m + 1, refreshed(params.source_path)));
    }
    if t[n].kind == Kind::Done {
        assert(update_workspace_stale_spec(v.take(1), params.target_path) is Ask);
        assert(transfer_asks(t, params, info, n + 1, refreshed(params.target_path)));
    }
}

/// A transfer that succeeds looks for the bookmark of the name that the template derives from the
/// source. If there is one, off the effective head that the source then has, jj is asked to move it
/// there.
pub proof fn law_transfer_moves_the_source_bookmark(
    t: Trace,
    params: TransferParamsV,
    info: SyncModeInfoV,
    name: Seq<char>,
)
    requires
        transfer_with_info_spec(t, params, info) is Got,
        derive_spec(params.workspace_path_template, params.repo_name, params.source_name) == Some(
            name,
        ),
    ensures
        exists|j: int|
            {
                &&& #[trigger] transfer_asks(
                    t,
                    params,
                    info,
                    j,
                    looked_up(Act::JjRepo, params.repo_root, exact_bookmark(name), "change_id"@),
                )
                &&& t[j].kind == Kind::Done && answer(t, j).len() != 0 ==> (
                find_effective_head_spec(
                    t.skip(j + 1),
                    params.repo_root,
                    params.source_name,
                ) matches Out::Got(eff, w) ==> eff != answer(t, j) ==> transfer_asks(
                    t,
                    params,
                    info,
                    t.len() - w.len(),
                    bookmark_moved(params.repo_root, eff, name),
                ))
            },
{
    broadcast use {
        group_rest,
        replays_identify_singular_bookmark,
        replays_find_effective_head,
        replays_advance_own,
    };

    let (_u, _v, y, plan) = transfer_finishes(t, params, info);
    let op = resolved_transfer(params.method, info.mode)->Ok_0;
    lemma_rest(y, t);
    let n = t.len() - y.len();
    let repo = params.repo_root;
    reveal(post_op_bookmarks_spec);
    reveal(own_bookmarks_spec);
    let q = looked_up(Act::JjRepo, repo, exact_bookmark(name), "change_id"@);
    let tmpl = params.workspace_path_template;
    assert(transfers(op));
    assert(advance_own_spec(y, repo, tmpl, params.repo_name, params.source_name) is Got);
    assert(y.len() > 0 && advance_own_spec(
        y.take(0),
        repo,
        tmpl,
        params.repo_name,
        params.source_name,
    ) == Out::<Seq<PostOperationErrorV>>::Ask(q)) by {
        reveal(advance_own_spec);
        reveal(advance_singular_bookmark_to_effective_head_spec);
        reveal(identify_singular_bookmark_spec);
        reveal(resolve_sanitized_bookmark_spec);
        reveal(bookmark_change_id_spec);
        assert(y.take(0) =~= Seq::empty());
    }
    assert(post_op_bookmarks_spec(
        y.take(0),
        repo,
        op,
        params.source_name,
        params.target_name,
        Some(plan),
        tmpl,
        params.repo_name,
        Seq::empty(),
        None,
    ) is Ask);
    assert(transfer_asks(t, params, info, n, q));
    assert(answer(t, n) == answer(y, 0));
    assert(t.skip(n + 1) =~= y.skip(1));
    if t[n].kind == Kind::Done && answer(t, n).len() != 0 {
        lemma_identified(y, repo, tmpl, params.repo_name, params.source_name, name);
        if let Out::Got(eff, w) = find_effective_head_spec(y.skip(1), repo, params.source_name) {
            if eff != answer(t, n) {
                law_own_bookmark_follows_the_head(
                    y,
                    repo,
                    tmpl,
                    params.repo_name,
                    params.source_name,
                    name,
                    answer(y, 0),
                    y.skip(1),
                    eff,
                    w,
                );
                assert(post_op_bookmarks_spec(
                    y.take(y.len() - w.len()),
                    repo,
                    op,
                    params.source_name,
                    params.target_name,
                    Some(plan),
                    tmpl,
                    params.repo_name,
                    Seq::empty(),
                    None,
                ) is Ask);
                assert(transfer_asks(
                    t,
                    params,
                    info,
                    t.len() - w.len(),
                    bookmark_moved(repo, eff, name),
                ));
            }
        }
    }
}

/// What a close by one of the methods that keep the work has left to read when it brings the target
/// up to date.
spec fn at_refreshing(t: Trace, params: CloseParamsV, op: Operation, plan: SyncModeInfoV) -> Trace {
    let src = source_ref(params, plan);
    let tgt = target_ref(params, plan);
    match op {
        Operation::MergeClose => left(
            merge_close_spec(
                left(
                    source_warnings_spec(
                        t,
                        params,
                        "; it will be preserved as a merge parent but may be hard to find"@,
                    ),
                ),
                params.repo_root,
                src,
                tgt,
                params.author,
            ),
        ),
        Operation::MergeSquashClose => left(
            merge_squash_close_spec(
                left(
                    source_warnings_spec(
                        t,
                        params,
                        "; it will be squashed but the revision may be hard to find"@,
                    ),
                ),
                params.repo_root,
                src,
                tgt,
                plan.lca,
                params.author,
            ),
        ),
        _ => left(
            fast_forward_close_spec(
                left(target_guard_spec(t, params, plan)),
                params.repo_root,
                src,
                params.target_path,
                tgt_heads(plan),
            ),
        ),
    }
}

/// A close that keeps the work of the source, and succeeds, has, after its operation, looked whether
/// the target is there, and if so brought it up to date.
#[verifier::rlimit(40)]
pub proof fn law_close_refreshes_the_target(t: Trace, params: CloseParamsV, info: SyncModeInfoV)
    requires
        close_with_info_spec(t, params, info) is Got,
        params.method == CloseMethod::Merge || params.method == CloseMethod::SquashMerge
            || params.method == CloseMethod::FastForward || params.method == CloseMethod::Adaptive,
    ensures
        exists|j: int|
            {
                &&& #[trigger] close_asks(
                    t,
                    params,
                    info,
                    j,
                    call(Act::Exists, params.target_path, Seq::empty()),
                )
                &&& t[j].kind == Kind::Done ==> close_asks(
                    t,
                    params,
                    info,
                    j + 1,
                    refreshed(params.target_path),
                )
            },
{
    broadcast use {
        group_rest,
        replays_source_warnings,
        replays_target_guard,
        replays_merge_close,
        replays_merge_squash_close,
        replays_fast_forward_close,
        replays_update_workspace_stale,
    };

    reveal(execute_close_spec);
    reveal(close_by_merge_spec);
    reveal(close_by_squash_spec);
    reveal(close_by_fast_forward_spec);
    let (u, plan) = close_executes(t, params, info);
    let op = resolved_close(params.method, info.mode)->Ok_0;
    let v = at_refreshing(u, params, op, plan);
    assert(is_rest(v, u));
    lemma_rest(u, t);
    lemma_rest(v, u);
    assert(attempt_spec(update_workspace_stale_spec(v, params.target_path)) is Got);
    lemma_refresh_asks(v, params.target_path);
    let m = u.len() - v.len();
    let n = t.len() - u.len();
    assert(v[0] == t[n + m]);
    assert(execute_close_spec(u.take(m), params, op, plan) is Ask);
    assert(close_asks(
        t,
        params,
        info,
        n + m,
        call(Act::Exists, params.target_path, Seq::empty()),
    ));
    if t[n + m].kind == Kind::Done {
        assert(execute_close_spec(u.take(m + 1), params, op, plan) is Ask);
        assert(close_asks(t, params, info, n + m + 1, refreshed(params.target_path)));
    }
}

/// With the first `k` replies a sync asks for `q`, and there is a reply to it.
pub open spec fn sync_asks(
    t: Trace,
    repo: Seq<char>,
    info: SyncModeInfoV,
    src_name: Seq<char>,
    src_path: Seq<char>,
    tgt_name: Seq<char>,
    tgt_path: Seq<char>,
    workspace_path_template: Seq<char>,
    repo_name: Seq<char>,
    author: Option<Seq<char>>,
    preserve_finder_xattrs: bool,
    k: int,
    q: RequestV,
) -> bool {
    &&& 0 <= k < t.len()
    &&& sync_with_info_spec(
        t.take(k),
        repo,
        info,
        src_name,
        src_path,
        tgt_name,
        tgt_path,
        workspace_path_template,
        repo_name,
        author,
        preserve_finder_xattrs,
    ) == Out::<SyncOutcomeV>::Ask(q)
}

/// A sync that has brought the heads together has then looked whether the source is there, and if so
/// brought it up to date, and the same of the target; put back the Finder metadata that it had
/// captured; and looked for the bookmark of the name that the template derives from the source. If
/// there is one, off the effective head that the source then has, jj is asked to move it there.
#[verifier::rlimit(80)]
pub proof fn law_sync_refreshes_and_moves_bookmarks(
    t: Trace,
    repo: Seq<char>,
    info: SyncModeInfoV,
    src_name: Seq<char>,
    src_path: Seq<char>,
    tgt_name: Seq<char>,
    tgt_path: Seq<char>,
    workspace_path_template: Seq<char>,
    repo_name: Seq<char>,
    author: Option<Seq<char>>,
    preserve_finder_xattrs: bool,
)
    requires
        sync_with_info_spec(
            t,
            repo,
            info,
            src_name,
            src_path,
            tgt_name,
            tgt_path,
            workspace_path_template,
            repo_name,
            author,
            preserve_finder_xattrs,
        ) is Got,
        !(
            sync_with_info_spec(
                t,
                repo,
                info,
                src_name,
                src_path,
                tgt_name,
                tgt_path,
                workspace_path_template,
                repo_name,
                author,
                preserve_finder_xattrs,
            )->Got_0 is AlreadyInSync
        ),
    ensures
        exists|j: int|
            #[trigger] sync_asks(t, repo, info, src_name, src_path, tgt_name, tgt_path, workspace_path_template, repo_name, author, preserve_finder_xattrs, j, call(Act::Exists, src_path, Seq::empty())) && (
                t[j].kind == Kind::Done ==> sync_asks(
                    t,
                    repo,
                    info,
                    src_name,
                    src_path,
                    tgt_name,
                    tgt_path,
                    workspace_path_template,
                    repo_name,
                    author,
                    preserve_finder_xattrs,
                    j + 1,
                    refreshed(src_path),
                )
            ),
        exists|j: int|
            #[trigger] sync_asks(t, repo, info, src_name, src_path, tgt_name, tgt_path, workspace_path_template, repo_name, author, preserve_finder_xattrs, j, call(Act::Exists, tgt_path, Seq::empty())) && (
                t[j].kind == Kind::Done ==> sync_asks(
                    t,
                    repo,
                    info,
                    src_name,
                    src_path,
                    tgt_name,
                    tgt_path,
                    workspace_path_template,
                    repo_name,
                    author,
                    preserve_finder_xattrs,
                    j + 1,
                    refreshed(tgt_path),
                )
            ),
        derive_spec(
            workspace_path_template,
            repo_name,
            src_name,
        ) matches Some(name) ==> exists|j: int|
            #[trigger] sync_asks(
                t,
                repo,
                info,
                src_name,
                src_path,
                tgt_name,
                tgt_path,
                workspace_path_template,
                repo_name,
                author,
                preserve_finder_xattrs,
                j,
                looked_up(Act::JjRepo, repo, exact_bookmark(name), "change_id"@),
            ) && (t[j].kind == Kind::Done && answer(t, j).len() != 0 ==> (
                find_effective_head_spec(t.skip(j + 1), repo, src_name) matches Out::Got(eff, w)
                    ==> eff != answer(t, j) ==> sync_asks(
                        t,
                        repo,
                        info,
                        src_name,
                        src_path,
                        tgt_name,
                        tgt_path,
                        workspace_path_template,
                        repo_name,
                        author,
                        preserve_finder_xattrs,
                        t.len() - w.len(),
                        bookmark_moved(repo, eff, name),
                    ))),
{
    broadcast use {
        group_rest,
        replays_validate_head_info,
        replays_prepare_execution_freshness,
        replays_capture,
        replays_operations_sync,
        replays_update_workspace_stale,
        replays_restore,
        replays_advance_both,
        replays_identify_singular_bookmark,
        replays_find_effective_head,
    };

    reveal(sync_with_info_spec);
    reveal(finish_sync_spec);
    let checked = validate_head_info_spec(t, repo, info, src_name, tgt_name, true);
    let prepared = prepare_execution_freshness_spec(
        left(checked),
        repo,
        checked->Got_0,
        src_name,
        src_path,
        tgt_name,
        tgt_path,
        true,
        true,
        None,
    );
    let fresh = prepared->Got_0;
    let captured = capture_spec(left(prepared), fresh.ws_paths, preserve_finder_xattrs);
    let u = left(
        sync_spec(
            left(captured),
            repo,
            WsRefV { name: src_name, path: src_path, info: src_heads(fresh.info) },
            WsRefV { name: tgt_name, path: tgt_path, info: tgt_heads(fresh.info) },
            author,
        ),
    );
    let v = attempt_spec(update_workspace_stale_spec(u, src_path))->Got_1;
    let w = attempt_spec(update_workspace_stale_spec(v, tgt_path))->Got_1;
    let y = left(restore_spec(w, captured->Got_0, fresh.ws_paths));
    assert(is_rest(u, t));
    assert(is_rest(v, t));
    assert(is_rest(y, t));
    lemma_rest(u, t);
    lemma_rest(v, t);
    lemma_rest(y, t);
    let m = t.len() - u.len();
    let n = t.len() - v.len();
    let o = t.len() - y.len();
    lemma_refresh_asks(u, src_path);
    lemma_refresh_asks(v, tgt_path);
    assert(u[0] == t[m]);
    assert(v[0] == t[n]);
    assert(
        sync_asks(
            t,
            repo,
            info,
            src_name,
            src_path,
            tgt_name,
            tgt_path,
            workspace_path_template,
            repo_name,
            author,
            preserve_finder_xattrs,
            m,
            call(Act::Exists, src_path, Seq::empty()),
        )
    );
    assert(
        sync_asks(
            t,
            repo,
            info,
            src_name,
            src_path,
            tgt_name,
            tgt_path,
            workspace_path_template,
            repo_name,
            author,
            preserve_finder_xattrs,
            n,
            call(Act::Exists, tgt_path, Seq::empty()),
        )
    );
    if t[m].kind == Kind::Done {
        assert(
            sync_asks(
                t,
                repo,
                info,
                src_name,
                src_path,
                tgt_name,
                tgt_path,
                workspace_path_template,
                repo_name,
                author,
                preserve_finder_xattrs,
                m + 1,
                refreshed(src_path),
            )
        );
    }
    if t[n].kind == Kind::Done {
        assert(
            sync_asks(
                t,
                repo,
                info,
                src_name,
                src_path,
                tgt_name,
                tgt_path,
                workspace_path_template,
                repo_name,
                author,
                preserve_finder_xattrs,
                n + 1,
                refreshed(tgt_path),
            )
        );
    }
    if let Some(name) = derive_spec(workspace_path_template, repo_name, src_name) {
        reveal(advance_both_spec);
        let q = looked_up(Act::JjRepo, repo, exact_bookmark(name), "change_id"@);
        let own = advance_singular_bookmark_to_effective_head_spec(
            y.take(0),
            repo,
            workspace_path_template,
            repo_name,
            src_name,
        );
        assert(y.len() > 0 && own == Out::<Option<Seq<char>>>::Ask(q)) by {
            reveal(advance_singular_bookmark_to_effective_head_spec);
            reveal(identify_singular_bookmark_spec);
            reveal(resolve_sanitized_bookmark_spec);
            reveal(bookmark_change_id_spec);
            assert(y.take(0) =~= Seq::empty());
        }
        assert(advance_both_spec(
            y.take(0),
            repo,
            src_name,
            tgt_name,
            workspace_path_template,
            repo_name,
        ) is Ask);
        assert(
            sync_asks(
                t,
                repo,
                info,
                src_name,
                src_path,
                tgt_name,
                tgt_path,
                workspace_path_template,
                repo_name,
                author,
                preserve_finder_xattrs,
                o,
                q,
            )
        );
        assert(answer(t, o) == answer(y, 0));
        assert(t.skip(o + 1) =~= y.skip(1));
        if t[o].kind == Kind::Done && answer(t, o).len() != 0 {
            lemma_identified(y, repo, workspace_path_template, repo_name, src_name, name);
            if let Out::Got(eff, z) = find_effective_head_spec(y.skip(1), repo, src_name) {
                if eff != answer(t, o) {
                    assert(advance_own_spec(
                        y,
                        repo,
                        workspace_path_template,
                        repo_name,
                        src_name,
                    ) is Got) by {
                        reveal(advance_own_spec);
                    }
                    law_own_bookmark_follows_the_head(
                        y,
                        repo,
                        workspace_path_template,
                        repo_name,
                        src_name,
                        name,
                        answer(y, 0),
                        y.skip(1),
                        eff,
                        z,
                    );
                    assert(advance_both_spec(
                        y.take(y.len() - z.len()),
                        repo,
                        src_name,
                        tgt_name,
                        workspace_path_template,
                        repo_name,
                    ) is Ask);
                    assert(
                        sync_asks(
                            t,
                            repo,
                            info,
                            src_name,
                            src_path,
                            tgt_name,
                            tgt_path,
                            workspace_path_template,
                            repo_name,
                            author,
                            preserve_finder_xattrs,
                            t.len() - z.len(),
                            bookmark_moved(repo, eff, name),
                        )
                    );
                }
            }
        }
    }
}

/// With the first `k` replies the care for the bookmarks of the sides asks for `q`, and there is a
/// reply to it.
pub open spec fn bookmarks_ask(
    t: Trace,
    repo: Seq<char>,
    operation: Operation,
    source_name: Seq<char>,
    target_name: Seq<char>,
    close_info: Option<SyncModeInfoV>,
    workspace_path_template: Seq<char>,
    repo_name: Seq<char>,
    bookmarks: Seq<Seq<char>>,
    given: Option<Seq<char>>,
    k: int,
    q: RequestV,
) -> bool {
    &&& 0 <= k < t.len()
    &&& post_op_bookmarks_spec(
            t.take(k),
            repo,
            operation,
            source_name,
            target_name,
            close_info,
            workspace_path_template,
            repo_name,
            bookmarks,
            given,
        ) == Out::<BookmarkResultV>::Ask(q)
}

/// After an operation that leaves the target in place, the bookmark of the name that the template
/// derives from the target is looked for. If there is one, off the effective head that the target
/// then has, jj is asked to move it there.
#[verifier::rlimit(40)]
pub proof fn law_target_bookmark_follows_the_head(
    t: Trace,
    repo: Seq<char>,
    operation: Operation,
    source_name: Seq<char>,
    target_name: Seq<char>,
    close_info: Option<SyncModeInfoV>,
    workspace_path_template: Seq<char>,
    repo_name: Seq<char>,
    bookmarks: Seq<Seq<char>>,
    given: Option<Seq<char>>,
    name: Seq<char>,
)
    requires
        post_op_bookmarks_spec(
            t,
            repo,
            operation,
            source_name,
            target_name,
            close_info,
            workspace_path_template,
            repo_name,
            bookmarks,
            given,
        ) is Got,
        operation == Operation::MergeClose || operation == Operation::MergeSquashClose || operation
            == Operation::FastForwardTargetClose || operation == Operation::Merge || operation
            == Operation::FastForwardTarget || operation == Operation::FastForwardSource || operation
            == Operation::MergeAbandonOld || operation == Operation::Rebase || operation
            == Operation::MergeSquash,
        derive_spec(workspace_path_template, repo_name, target_name) == Some(name),
    ensures
        exists|j: int|
            #[trigger] bookmarks_ask(
                t,
                repo,
                operation,
                source_name,
                target_name,
                close_info,
                workspace_path_template,
                repo_name,
                bookmarks,
                given,
                j,
                looked_up(Act::JjRepo, repo, exact_bookmark(name), "change_id"@),
            ) && (t[j].kind == Kind::Done && answer(t, j).len() != 0 ==> (
            find_effective_head_spec(t.skip(j + 1), repo, target_name) matches Out::Got(eff, w)
                ==> eff != answer(t, j) ==> bookmarks_ask(
                t,
                repo,
                operation,
                source_name,
                target_name,
                close_info,
                workspace_path_template,
                repo_name,
                bookmarks,
                given,
                t.len() - w.len(),
                bookmark_moved(repo, eff, name),
            ))),
{
    broadcast use {
        group_rest,
        replays_advance_to,
        replays_advance_own,
        replays_identify_singular_bookmark,
        replays_find_effective_head,
    };

    reveal(post_op_bookmarks_spec);
    reveal(own_bookmarks_spec);
    let tmpl = workspace_path_template;
    let y = if closes_keeping(operation) {
        left(advance_to_spec(t, repo, tmpl, repo_name, source_name, source_head(given, close_info)))
    } else {
        left(advance_own_spec(t, repo, tmpl, repo_name, source_name))
    };
    assert(is_rest(y, t));
    lemma_rest(y, t);
    let n = t.len() - y.len();
    let q = looked_up(Act::JjRepo, repo, exact_bookmark(name), "change_id"@);
    assert(advance_own_spec(y, repo, tmpl, repo_name, target_name) is Got);
    assert(y.len() > 0 && advance_own_spec(y.take(0), repo, tmpl, repo_name, target_name) == Out::<
        Seq<PostOperationErrorV>,
    >::Ask(q)) by {
        reveal(advance_own_spec);
        reveal(advance_singular_bookmark_to_effective_head_spec);
        reveal(identify_singular_bookmark_spec);
        reveal(resolve_sanitized_bookmark_spec);
        reveal(bookmark_change_id_spec);
        assert(y.take(0) =~= Seq::empty());
    }
    assert(bookmarks_ask(
        t,
        repo,
        operation,
        source_name,
        target_name,
        close_info,
        workspace_path_template,
        repo_name,
        bookmarks,
        given,
        n,
        q,
    ));
    assert(answer(t, n) == answer(y, 0));
    assert(t.skip(n + 1) =~= y.skip(1));
    if t[n].kind == Kind::Done && answer(t, n).len() != 0 {
        lemma_identified(y, repo, tmpl, repo_name, target_name, name);
        if let Out::Got(eff, w) = find_effective_head_spec(y.skip(1), repo, target_name) {
            if eff != answer(t, n) {
                law_own_bookmark_follows_the_head(
                    y,
                    repo,
                    tmpl,
                    repo_name,
                    target_name,
                    name,
                    answer(y, 0),
                    y.skip(1),
                    eff,
                    w,
                );
                assert(bookmarks_ask(
                    t,
                    repo,
                    operation,
                    source_name,
                    target_name,
                    close_info,
                    workspace_path_template,
                    repo_name,
                    bookmarks,
                    given,
                    t.len() - w.len(),
                    bookmark_moved(repo, eff, name),
                ));
            }
        }
    }
}

/// Is this the bookmark that was found?
pub open spec fn is_mark(found: Option<(Seq<char>, Seq<char>)>, bm: Seq<char>) -> bool {
    found matches Some(mark) && mark.0 == bm
}

/// The bookmarks that are left to deal with are those that were given, but for the bookmark that
/// belongs to the source.
pub proof fn law_the_source_bookmark_is_dealt_with(
    t: Trace,
    repo: Seq<char>,
    operation: Operation,
    source_name: Seq<char>,
    target_name: Seq<char>,
    close_info: Option<SyncModeInfoV>,
    workspace_path_template: Seq<char>,
    repo_name: Seq<char>,
    bookmarks: Seq<Seq<char>>,
    given: Option<Seq<char>>,
)
    ensures
        post_op_bookmarks_spec(
            t,
            repo,
            operation,
            source_name,
            target_name,
            close_info,
            workspace_path_template,
            repo_name,
            bookmarks,
            given,
        ) matches Out::Got(r, w) ==> {
            &&& own_bookmarks_spec(
                t,
                repo,
                operation,
                source_name,
                target_name,
                close_info,
                workspace_path_template,
                repo_name,
                given,
            ) == Out::Got(r.errors, t.skip(t.len() - left(
                own_bookmarks_spec(
                    t,
                    repo,
                    operation,
                    source_name,
                    target_name,
                    close_info,
                    workspace_path_template,
                    repo_name,
                    given,
                ),
            ).len()))
            &&& identify_singular_bookmark_spec(
                left(
                    own_bookmarks_spec(
                        t,
                        repo,
                        operation,
                        source_name,
                        target_name,
                        close_info,
                        workspace_path_template,
                        repo_name,
                        given,
                    ),
                ),
                repo,
                workspace_path_template,
                repo_name,
                source_name,
            ) matches Out::Got(found, x)
            &&& forall|bm: Seq<char>| #[trigger]
                r.remaining.contains(bm) <==> bookmarks.contains(bm) && !is_mark(found, bm)
        },
{
    broadcast use {group_rest, replays_own_bookmarks};

    reveal(post_op_bookmarks_spec);
    let own = own_bookmarks_spec(
        t,
        repo,
        operation,
        source_name,
        target_name,
        close_info,
        workspace_path_template,
        repo_name,
        given,
    );
    if own is Got {
        assert(is_rest(left(own), t));
        lemma_rest(left(own), t);
    }
    if let Out::Got(r, w) = post_op_bookmarks_spec(
            t,
            repo,
            operation,
            source_name,
            target_name,
            close_info,
            workspace_path_template,
            repo_name,
            bookmarks,
            given,
        ) {
        let found = identify_singular_bookmark_spec(
            left(own),
            repo,
            workspace_path_template,
            repo_name,
            source_name,
        )->Got_0;
        assert forall|bm: Seq<char>| #[trigger] r.remaining.contains(bm) <==> bookmarks.contains(bm)
            && !is_mark(found, bm) by {
            if found is Some {
                let own_mark = found->0;
                let known = seq![own_mark.0];
                lemma_kept_apart(bookmarks, known, bm);
                assert(known[0] == own_mark.0);
                assert(known.contains(bm) <==> bm == own_mark.0);
            }
        }
    }
}

} // verus!
