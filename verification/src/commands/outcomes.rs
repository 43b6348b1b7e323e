//! What the commands have jj do to the heads of the workspaces.

use vstd::prelude::*;

use crate::commands::after::predict_stale_workspaces_spec;
use crate::commands::close::{
    abandoned_by, advance_id_spec, close_asked, close_with_info_spec, disposes, execute_close_spec,
    finish_close_spec, ids_of, needed_by, resolved_close, CloseParamsV,
};
use crate::commands::create::create_spec;
use crate::commands::plan::{law_validated_plan, plan_same, validate_head_info_spec};
use crate::commands::protect::{law_prepared_plan, prepare_execution_freshness_spec};
use crate::commands::sync::sync_with_info_spec;
use crate::commands::transfer::{
    execute_transfer_spec, finish_transfer_spec, resolved_transfer, source_ref, target_ref,
    transfer_with_info_spec, TransferParamsV,
};
use crate::commands::types::{
    src_heads, tgt_heads, CloseMethod, CloseTransferResultV, CreateResultV, Operation,
    SyncModeInfoV, TransferMethod,
};
use crate::config::ConfigV;
use crate::effects::{
    abandoned, added, answer, asks_close_by_abandoning, asks_close_by_fast_forward,
    asks_close_by_merge, asks_close_by_squash, asks_create_workspace, asks_is_head,
    asks_junction_steps, asks_lca, asks_merge, asks_merge_abandon_old, asks_merge_squash,
    asks_rebase, asks_sync_forwards_source, asks_sync_forwards_target, asks_sync_merges,
    asks_transfer_forward, at_full_head, authored, both, branch_base, edited, looked_up, merged,
    put_on, rebased, squash_message, squashed, stepped, surviving,
};
use crate::finder_xattrs::capture_spec;
use crate::jj_parse::TMPL_ID_DESC;
use crate::jj_utils::{make_desc_spec, present_spec, Op};
use crate::jujutsu::snapshot_ws_spec;
use crate::operations::{
    create_workspace_spec, junction_spec, merge_detail_spec, sync_spec, SyncOutcomeV, WsRefV,
};
use crate::replay::{
    group_rest, is_rest, left, lemma_rest, replays_capture, replays_execute_close,
    replays_execute_transfer, replays_is_head, replays_is_trivial_head, replays_junction,
    replays_operations_create_workspace, replays_operations_sync, replays_predict_stale_workspaces,
    replays_prepare_execution_freshness, replays_snapshot_ws, replays_validate_head_info,
};
use crate::tape::{attempt_spec, Act, Kind, Out, RequestV, Trace};

verus! {

/// What a merge of two heads is described with.
pub open spec fn merge_message(
    name1: Seq<char>,
    id1: Seq<char>,
    name2: Seq<char>,
    id2: Seq<char>,
) -> Seq<char> {
    make_desc_spec(Op::Merge, Some(merge_detail_spec(name1, id1, name2, id2)))
}

/// What a fast-forward is described with.
pub open spec fn forward_message(
    behind: Seq<char>,
    ahead: Seq<char>,
    head: Seq<char>,
) -> Seq<char> {
    make_desc_spec(Op::FastForward, Some(behind + "@ to "@ + ahead + "@"@ + head))
}

/// A close that succeeds comes to its operation with the heads of its plan, and what the operation
/// asks for is asked for by the close.
pub proof fn close_executes(t: Trace, params: CloseParamsV, info: SyncModeInfoV) -> (r: (
    Trace,
    SyncModeInfoV,
))
    requires
        close_with_info_spec(t, params, info) is Got,
    ensures
        is_rest(r.0, t),
        plan_same(info, r.1),
        resolved_close(params.method, info.mode) is Ok,
        execute_close_spec(
            r.0,
            params,
            resolved_close(params.method, info.mode)->Ok_0,
            r.1,
        ) is Got,
        close_with_info_spec(t, params, info)->Got_0.resolved_operation == resolved_close(
            params.method,
            info.mode,
        )->Ok_0,
        forall|j: int|
            0 <= j <= r.0.len() && (#[trigger] execute_close_spec(
                r.0.take(j),
                params,
                resolved_close(params.method, info.mode)->Ok_0,
                r.1,
            )) is Ask ==> close_with_info_spec(t.take(t.len() - r.0.len() + j), params, info)
                == Out::<CloseTransferResultV>::Ask(
                execute_close_spec(
                    r.0.take(j),
                    params,
                    resolved_close(params.method, info.mode)->Ok_0,
                    r.1,
                )->Ask_0,
            ),
{
    broadcast use {
        group_rest,
        replays_validate_head_info,
        replays_prepare_execution_freshness,
        replays_predict_stale_workspaces,
        replays_execute_close,
    };

    reveal(close_with_info_spec);
    reveal(finish_close_spec);
    let op = resolved_close(params.method, info.mode)->Ok_0;
    let repo = params.repo_root;
    let checked = validate_head_info_spec(
        t,
        repo,
        info,
        params.source_name,
        params.target_name,
        false,
    );
    let prepared = prepare_execution_freshness_spec(
        left(checked),
        repo,
        checked->Got_0,
        params.source_name,
        params.source_path,
        params.target_name,
        params.target_path,
        !disposes(op),
        !disposes(op),
        advance_id_spec(params),
    );
    let fresh = prepared->Got_0;
    let u = left(
        predict_stale_workspaces_spec(
            left(prepared),
            repo,
            op,
            fresh.info,
            abandoned_by(params, op),
            needed_by(params, op),
        ),
    );
    assert(is_rest(u, t));
    lemma_rest(u, t);
    law_validated_plan(t, repo, info, params.source_name, params.target_name, false);
    law_prepared_plan(
        left(checked),
        repo,
        checked->Got_0,
        params.source_name,
        params.source_path,
        params.target_name,
        params.target_path,
        !disposes(op),
        !disposes(op),
        advance_id_spec(params),
    );
    (u, fresh.info)
}

/// A close that merges, and succeeds, has had jj make a revision in the target whose parents are
/// the effective heads of the source and of the target and nothing else, and give it the author
/// that is wanted.
pub proof fn law_close_merges_both_heads(t: Trace, params: CloseParamsV, info: SyncModeInfoV)
    requires
        close_with_info_spec(t, params, info) is Got,
        params.method == CloseMethod::Merge || params.method == CloseMethod::Adaptive
            && info.mode is Diverged,
    ensures
        close_with_info_spec(t, params, info)->Got_0.resolved_operation == Operation::MergeClose,
        exists|k: int|
            {
                &&& #[trigger] close_asked(
                    t,
                    params,
                    info,
                    k,
                    merged(
                        params.target_path,
                        both(info.src_effective_head, info.tgt_effective_head),
                        merge_message(
                            params.source_name,
                            info.src_effective_head,
                            params.target_name,
                            info.tgt_effective_head,
                        ),
                    ),
                )
                &&& params.author matches Some(a) ==> close_asked(
                    t,
                    params,
                    info,
                    k + 1,
                    authored(params.target_path, a),
                )
            },
{
    reveal(execute_close_spec);
    let (u, plan) = close_executes(t, params, info);
    let j = asks_close_by_merge(u, params, plan);
    lemma_rest(u, t);
    let k = t.len() - u.len() + j;
    assert(execute_close_spec(u.take(j), params, Operation::MergeClose, plan) is Ask);
    assert(close_asked(
        t,
        params,
        info,
        k,
        merged(
            params.target_path,
            both(info.src_effective_head, info.tgt_effective_head),
            merge_message(
                params.source_name,
                info.src_effective_head,
                params.target_name,
                info.tgt_effective_head,
            ),
        ),
    ));
    if let Some(a) = params.author {
        assert(execute_close_spec(u.take(j + 1), params, Operation::MergeClose, plan) is Ask);
        assert(close_asked(t, params, info, k + 1, authored(params.target_path, a)));
    }
}

/// A close that squashes, and succeeds, has had jj look up the latest root of what the source has
/// of its own, squash all of that into it under a description made of theirs, and make a revision
/// in the target whose parents are that root and the effective head of the target and nothing else.
pub proof fn law_close_squashes_chain(t: Trace, params: CloseParamsV, info: SyncModeInfoV)
    requires
        close_with_info_spec(t, params, info) is Got,
        params.method == CloseMethod::SquashMerge,
    ensures
        close_with_info_spec(t, params, info)->Got_0.resolved_operation
            == Operation::MergeSquashClose,
        exists|i: int, d: int, j: int, k: int|
            {
                &&& i < d < j < k
                &&& #[trigger] close_asked(
                    t,
                    params,
                    info,
                    i,
                    looked_up(
                        Act::JjRepo,
                        params.repo_root,
                        "latest(roots("@ + info.lca + ".."@ + info.src_effective_head + "))"@,
                        "change_id ++ \"\\n\""@,
                    ),
                )
                &&& #[trigger] close_asked(
                    t,
                    params,
                    info,
                    d,
                    looked_up(
                        Act::JjRepo,
                        params.repo_root,
                        info.lca + ".."@ + info.src_effective_head,
                        TMPL_ID_DESC@,
                    ),
                )
                &&& #[trigger] close_asked(
                    t,
                    params,
                    info,
                    j,
                    squashed(
                        params.repo_root,
                        info.lca + ".."@ + info.src_effective_head,
                        answer(t, i),
                        squash_message(
                            params.source_name,
                            info.src_effective_head,
                            params.target_name,
                            info.tgt_effective_head,
                            answer(t, d),
                        ),
                    ),
                )
                &&& #[trigger] close_asked(
                    t,
                    params,
                    info,
                    k,
                    merged(
                        params.target_path,
                        both(answer(t, i), info.tgt_effective_head),
                        merge_message(
                            params.source_name,
                            answer(t, i),
                            params.target_name,
                            info.tgt_effective_head,
                        ),
                    ),
                )
                &&& params.author matches Some(a) ==> close_asked(
                    t,
                    params,
                    info,
                    k + 1,
                    authored(params.target_path, a),
                )
            },
{
    reveal(execute_close_spec);
    let (u, plan) = close_executes(t, params, info);
    let (i, d, j, k, last) = asks_close_by_squash(u, params, plan);
    lemma_rest(u, t);
    let n = t.len() - u.len();
    assert(answer(t, n + i) == answer(u, i));
    assert(answer(t, n + d) == answer(u, d));
    let op = Operation::MergeSquashClose;
    assert(execute_close_spec(u.take(i), params, op, plan) is Ask);
    assert(execute_close_spec(u.take(d), params, op, plan) is Ask);
    assert(execute_close_spec(u.take(j), params, op, plan) is Ask);
    assert(execute_close_spec(u.take(k), params, op, plan) is Ask);
    assert(close_asked(
        t,
        params,
        info,
        n + i,
        looked_up(
            Act::JjRepo,
            params.repo_root,
            "latest(roots("@ + info.lca + ".."@ + info.src_effective_head + "))"@,
            "change_id ++ \"\\n\""@,
        ),
    ));
    assert(close_asked(
        t,
        params,
        info,
        n + d,
        looked_up(
            Act::JjRepo,
            params.repo_root,
            info.lca + ".."@ + info.src_effective_head,
            TMPL_ID_DESC@,
        ),
    ));
    assert(close_asked(
        t,
        params,
        info,
        n + j,
        squashed(
            params.repo_root,
            info.lca + ".."@ + info.src_effective_head,
            answer(t, n + i),
            squash_message(
                params.source_name,
                info.src_effective_head,
                params.target_name,
                info.tgt_effective_head,
                answer(t, n + d),
            ),
        ),
    ));
    assert(close_asked(
        t,
        params,
        info,
        n + k,
        merged(
            params.target_path,
            both(answer(t, n + i), info.tgt_effective_head),
            merge_message(
                params.source_name,
                answer(t, n + i),
                params.target_name,
                info.tgt_effective_head,
            ),
        ),
    ));
    if let Some(a) = params.author {
        assert(execute_close_spec(u.take(k + 1), params, op, plan) is Ask);
        assert(close_asked(t, params, info, n + k + 1, authored(params.target_path, a)));
    }
}

/// A close that fast-forwards, and succeeds, has had jj put the target on the effective head of the
/// source itself.
pub proof fn law_close_forwards_target(t: Trace, params: CloseParamsV, info: SyncModeInfoV)
    requires
        close_with_info_spec(t, params, info) is Got,
        params.method == CloseMethod::FastForward || params.method == CloseMethod::Adaptive
            && info.mode is SourceOnly,
    ensures
        close_with_info_spec(t, params, info)->Got_0.resolved_operation
            == Operation::FastForwardTargetClose,
        exists|k: int| #[trigger]
            close_asked(t, params, info, k, edited(params.target_path, info.src_effective_head)),
{
    reveal(execute_close_spec);
    let (u, plan) = close_executes(t, params, info);
    let j = asks_close_by_fast_forward(u, params, plan);
    lemma_rest(u, t);
    assert(execute_close_spec(u.take(j), params, Operation::FastForwardTargetClose, plan) is Ask);
    assert(close_asked(
        t,
        params,
        info,
        t.len() - u.len() + j,
        edited(params.target_path, info.src_effective_head),
    ));
}

/// A close that abandons, and succeeds, has had jj tell which of the revisions that were shown are
/// still there, and abandon these, if any, and no others.
pub proof fn law_close_abandons_what_was_shown(t: Trace, params: CloseParamsV, info: SyncModeInfoV)
    requires
        close_with_info_spec(t, params, info) is Got,
        params.method == CloseMethod::Abandon,
        params.revisions.len() != 0,
    ensures
        close_with_info_spec(t, params, info)->Got_0.resolved_operation == Operation::Abandon,
        exists|i: int|
            {
                &&& #[trigger] close_asked(
                    t,
                    params,
                    info,
                    i,
                    looked_up(
                        Act::JjRepo,
                        params.repo_root,
                        present_spec(ids_of(params.revisions)),
                        "change_id ++ \"\\n\""@,
                    ),
                )
                &&& surviving(ids_of(params.revisions), answer(t, i)).len() != 0 ==> exists|k: int|
                    i < k && #[trigger] close_asked(
                        t,
                        params,
                        info,
                        k,
                        abandoned(
                            params.repo_root,
                            surviving(ids_of(params.revisions), answer(t, i)),
                        ),
                    )
            },
{
    reveal(execute_close_spec);
    let (u, plan) = close_executes(t, params, info);
    let (i, k) = asks_close_by_abandoning(u, params);
    lemma_rest(u, t);
    let n = t.len() - u.len();
    let ids = ids_of(params.revisions);
    assert(answer(t, n + i) == answer(u, i));
    assert(execute_close_spec(u.take(i), params, Operation::Abandon, plan) is Ask);
    assert(close_asked(
        t,
        params,
        info,
        n + i,
        looked_up(Act::JjRepo, params.repo_root, present_spec(ids), "change_id ++ \"\\n\""@),
    ));
    let rest = surviving(ids, answer(t, n + i));
    if rest.len() != 0 {
        assert(execute_close_spec(u.take(k), params, Operation::Abandon, plan) is Ask);
        assert(close_asked(t, params, info, n + k, abandoned(params.repo_root, rest)));
    }
}

/// With the first `k` replies a transfer asks for `q`, and the next reply says that it was done.
pub open spec fn transfer_asked(
    t: Trace,
    params: TransferParamsV,
    info: SyncModeInfoV,
    k: int,
    q: RequestV,
) -> bool {
    &&& 0 <= k < t.len()
    &&& transfer_with_info_spec(t.take(k), params, info) == Out::<CloseTransferResultV>::Ask(q)
    &&& t[k].kind == Kind::Done
}

/// A transfer that succeeds comes to its operation with the heads of its plan, and what the
/// operation asks for is asked for by the transfer.
pub proof fn transfer_executes(t: Trace, params: TransferParamsV, info: SyncModeInfoV) -> (r: (
    Trace,
    SyncModeInfoV,
))
    requires
        transfer_with_info_spec(t, params, info) is Got,
    ensures
        is_rest(r.0, t),
        plan_same(info, r.1),
        resolved_transfer(params.method, info.mode) is Ok,
        execute_transfer_spec(
            r.0,
            params,
            resolved_transfer(params.method, info.mode)->Ok_0,
            r.1,
        ) is Got,
        transfer_with_info_spec(t, params, info)->Got_0.resolved_operation == resolved_transfer(
            params.method,
            info.mode,
        )->Ok_0,
        forall|j: int|
            0 <= j <= r.0.len() && (#[trigger] execute_transfer_spec(
                r.0.take(j),
                params,
                resolved_transfer(params.method, info.mode)->Ok_0,
                r.1,
            )) is Ask ==> transfer_with_info_spec(t.take(t.len() - r.0.len() + j), params, info)
                == Out::<CloseTransferResultV>::Ask(
                execute_transfer_spec(
                    r.0.take(j),
                    params,
                    resolved_transfer(params.method, info.mode)->Ok_0,
                    r.1,
                )->Ask_0,
            ),
{
    broadcast use {
        group_rest,
        replays_validate_head_info,
        replays_prepare_execution_freshness,
        replays_predict_stale_workspaces,
        replays_execute_transfer,
    };

    reveal(transfer_with_info_spec);
    reveal(finish_transfer_spec);
    let op = resolved_transfer(params.method, info.mode)->Ok_0;
    let repo = params.repo_root;
    let checked = validate_head_info_spec(
        t,
        repo,
        info,
        params.source_name,
        params.target_name,
        false,
    );
    let prepared = prepare_execution_freshness_spec(
        left(checked),
        repo,
        checked->Got_0,
        params.source_name,
        params.source_path,
        params.target_name,
        params.target_path,
        true,
        true,
        None,
    );
    let fresh = prepared->Got_0;
    let u = left(
        predict_stale_workspaces_spec(
            left(prepared),
            repo,
            op,
            fresh.info,
            Seq::empty(),
            seq![params.source_name, params.target_name],
        ),
    );
    assert(is_rest(u, t));
    lemma_rest(u, t);
    law_validated_plan(t, repo, info, params.source_name, params.target_name, false);
    law_prepared_plan(
        left(checked),
        repo,
        checked->Got_0,
        params.source_name,
        params.source_path,
        params.target_name,
        params.target_path,
        true,
        true,
        None,
    );
    (u, fresh.info)
}

/// A transfer that fast-forwards the target, and succeeds, has had jj put the target on a new
/// revision whose one parent is the effective head of the source.
pub proof fn law_transfer_forwards_target(t: Trace, params: TransferParamsV, info: SyncModeInfoV)
    requires
        transfer_with_info_spec(t, params, info) is Got,
        params.method == TransferMethod::FastForwardTarget || params.method == TransferMethod::Adaptive
            && info.mode is SourceOnly,
    ensures
        transfer_with_info_spec(
            t,
            params,
            info,
        )->Got_0.resolved_operation == Operation::FastForwardTarget,
        exists|k: int|
            {
                &&& #[trigger] transfer_asked(
                    t,
                    params,
                    info,
                    k,
                    put_on(
                        Act::JjWsLive,
                        params.target_path,
                        info.src_effective_head,
                        forward_message(
                            params.target_name,
                            params.source_name,
                            info.src_effective_head,
                        ),
                    ),
                )
                &&& params.author matches Some(a) ==> transfer_asked(
                    t,
                    params,
                    info,
                    k + 1,
                    authored(params.target_path, a),
                )
            },
{
    reveal(execute_transfer_spec);
    let (u, plan) = transfer_executes(t, params, info);
    let k = asks_transfer_forward(
        u,
        params.repo_root,
        "target"@,
        target_ref(params, plan),
        source_ref(params, plan),
        params.author,
    );
    lemma_rest(u, t);
    let n = t.len() - u.len();
    assert(answer(t, n + k) == answer(u, k));
    assert(execute_transfer_spec(u.take(k), params, Operation::FastForwardTarget, plan) is Ask);
    assert(
        transfer_asked(
            t,
            params,
            info,
            n + k,
            put_on(
                Act::JjWsLive,
                params.target_path,
                info.src_effective_head,
                forward_message(params.target_name, params.source_name, info.src_effective_head),
            ),
        )
    );
    if let Some(a) = params.author {
        assert(
            execute_transfer_spec(u.take(k + 1), params, Operation::FastForwardTarget, plan) is Ask
        );
        assert(transfer_asked(t, params, info, n + k + 1, authored(params.target_path, a)));
    }
}

/// A transfer that fast-forwards the source, and succeeds, has had jj put the source on a new
/// revision whose one parent is the effective head of the target.
pub proof fn law_transfer_forwards_source(t: Trace, params: TransferParamsV, info: SyncModeInfoV)
    requires
        transfer_with_info_spec(t, params, info) is Got,
        params.method == TransferMethod::FastForwardSource || params.method == TransferMethod::Adaptive
            && info.mode is TargetOnly,
    ensures
        transfer_with_info_spec(
            t,
            params,
            info,
        )->Got_0.resolved_operation == Operation::FastForwardSource,
        exists|k: int|
            {
                &&& #[trigger] transfer_asked(
                    t,
                    params,
                    info,
                    k,
                    put_on(
                        Act::JjWsLive,
                        params.source_path,
                        info.tgt_effective_head,
                        forward_message(
                            params.source_name,
                            params.target_name,
                            info.tgt_effective_head,
                        ),
                    ),
                )
                &&& params.author matches Some(a) ==> transfer_asked(
                    t,
                    params,
                    info,
                    k + 1,
                    authored(params.source_path, a),
                )
            },
{
    reveal(execute_transfer_spec);
    let (u, plan) = transfer_executes(t, params, info);
    let k = asks_transfer_forward(
        u,
        params.repo_root,
        "source"@,
        source_ref(params, plan),
        target_ref(params, plan),
        params.author,
    );
    lemma_rest(u, t);
    let n = t.len() - u.len();
    assert(answer(t, n + k) == answer(u, k));
    assert(execute_transfer_spec(u.take(k), params, Operation::FastForwardSource, plan) is Ask);
    assert(
        transfer_asked(
            t,
            params,
            info,
            n + k,
            put_on(
                Act::JjWsLive,
                params.source_path,
                info.tgt_effective_head,
                forward_message(params.source_name, params.target_name, info.tgt_effective_head),
            ),
        )
    );
    if let Some(a) = params.author {
        assert(
            execute_transfer_spec(u.take(k + 1), params, Operation::FastForwardSource, plan) is Ask
        );
        assert(transfer_asked(t, params, info, n + k + 1, authored(params.source_path, a)));
    }
}

/// A transfer that merges, and succeeds, has had jj make a revision in the source whose parents are
/// the effective heads of the source and of the target and nothing else, and then put both workspaces
/// on new revisions on top of it.
pub proof fn law_transfer_merges_both_heads(t: Trace, params: TransferParamsV, info: SyncModeInfoV)
    requires
        transfer_with_info_spec(t, params, info) is Got,
        params.method == TransferMethod::Merge || params.method == TransferMethod::Adaptive
            && info.mode is Diverged,
    ensures
        transfer_with_info_spec(t, params, info)->Got_0.resolved_operation == Operation::Merge,
        exists|i: int, d: int, j: int, k: int|
            {
                &&& i < d < j < k
                &&& #[trigger] transfer_asked(
                    t,
                    params,
                    info,
                    i,
                    merged(
                        params.source_path,
                        both(info.src_effective_head, info.tgt_effective_head),
                        merge_message(
                            params.source_name,
                            info.src_effective_head,
                            params.target_name,
                            info.tgt_effective_head,
                        ),
                    ),
                )
                &&& params.author matches Some(a) ==> transfer_asked(
                    t,
                    params,
                    info,
                    i + 1,
                    authored(params.source_path, a),
                )
                &&& #[trigger] transfer_asked(
                    t,
                    params,
                    info,
                    d,
                    looked_up(Act::JjWs, params.source_path, "@"@, "change_id"@),
                )
                &&& #[trigger] transfer_asked(
                    t,
                    params,
                    info,
                    j,
                    stepped(Act::JjWs, params.source_path, make_desc_spec(Op::Step, None)),
                )
                &&& params.author matches Some(a) ==> transfer_asked(
                    t,
                    params,
                    info,
                    j + 1,
                    authored(params.source_path, a),
                )
                &&& #[trigger] transfer_asked(
                    t,
                    params,
                    info,
                    k,
                    put_on(
                        Act::JjWs,
                        params.target_path,
                        answer(t, d),
                        make_desc_spec(Op::Step, None),
                    ),
                )
                &&& params.author matches Some(a) ==> transfer_asked(
                    t,
                    params,
                    info,
                    k + 1,
                    authored(params.target_path, a),
                )
            },
{
    reveal(execute_transfer_spec);
    let (u, plan) = transfer_executes(t, params, info);
    let (i, d, j, k) = asks_merge(
        u,
        params.repo_root,
        source_ref(params, plan),
        target_ref(params, plan),
        params.author,
    );
    lemma_rest(u, t);
    let n = t.len() - u.len();
    assert(answer(t, n + i) == answer(u, i));
    assert(answer(t, n + d) == answer(u, d));
    assert(answer(t, n + j) == answer(u, j));
    assert(answer(t, n + k) == answer(u, k));
    assert(execute_transfer_spec(u.take(i), params, Operation::Merge, plan) is Ask);
    assert(
        transfer_asked(
            t,
            params,
            info,
            n + i,
            merged(
                params.source_path,
                both(info.src_effective_head, info.tgt_effective_head),
                merge_message(
                    params.source_name,
                    info.src_effective_head,
                    params.target_name,
                    info.tgt_effective_head,
                ),
            ),
        )
    );
    if let Some(a) = params.author {
        assert(execute_transfer_spec(u.take(i + 1), params, Operation::Merge, plan) is Ask);
        assert(transfer_asked(t, params, info, n + i + 1, authored(params.source_path, a)));
    }
    assert(execute_transfer_spec(u.take(d), params, Operation::Merge, plan) is Ask);
    assert(
        transfer_asked(
            t,
            params,
            info,
            n + d,
            looked_up(Act::JjWs, params.source_path, "@"@, "change_id"@),
        )
    );
    assert(execute_transfer_spec(u.take(j), params, Operation::Merge, plan) is Ask);
    assert(
        transfer_asked(
            t,
            params,
            info,
            n + j,
            stepped(Act::JjWs, params.source_path, make_desc_spec(Op::Step, None)),
        )
    );
    if let Some(a) = params.author {
        assert(execute_transfer_spec(u.take(j + 1), params, Operation::Merge, plan) is Ask);
        assert(transfer_asked(t, params, info, n + j + 1, authored(params.source_path, a)));
    }
    assert(execute_transfer_spec(u.take(k), params, Operation::Merge, plan) is Ask);
    assert(
        transfer_asked(
            t,
            params,
            info,
            n + k,
            put_on(Act::JjWs, params.target_path, answer(t, n + d), make_desc_spec(Op::Step, None)),
        )
    );
    if let Some(a) = params.author {
        assert(execute_transfer_spec(u.take(k + 1), params, Operation::Merge, plan) is Ask);
        assert(transfer_asked(t, params, info, n + k + 1, authored(params.target_path, a)));
    }
}

/// A transfer that merges and leaves the parents behind, and succeeds, has had jj make a revision in
/// the source whose parents are the actual heads of the source and of the target and nothing else,
/// and then put both workspaces on new revisions on top of it.
pub proof fn law_transfer_merges_actual_heads(
    t: Trace,
    params: TransferParamsV,
    info: SyncModeInfoV,
)
    requires
        transfer_with_info_spec(t, params, info) is Got,
        params.method == TransferMethod::MergeAbandonOld,
    ensures
        transfer_with_info_spec(
            t,
            params,
            info,
        )->Got_0.resolved_operation == Operation::MergeAbandonOld,
        exists|i: int, d: int, j: int, k: int|
            {
                &&& i < d < j < k
                &&& #[trigger] transfer_asked(
                    t,
                    params,
                    info,
                    i,
                    merged(
                        params.source_path,
                        both(info.src_actual_head, info.tgt_actual_head),
                        make_desc_spec(
                            Op::Merge,
                            Some(
                                params.target_name + "@"@ + info.tgt_effective_head + " into "@ + params.source_name + "@"@ + info.src_effective_head,
                            ),
                        ),
                    ),
                )
                &&& params.author matches Some(a) ==> transfer_asked(
                    t,
                    params,
                    info,
                    i + 1,
                    authored(params.source_path, a),
                )
                &&& #[trigger] transfer_asked(
                    t,
                    params,
                    info,
                    d,
                    looked_up(Act::JjWs, params.source_path, "@"@, "change_id"@),
                )
                &&& #[trigger] transfer_asked(
                    t,
                    params,
                    info,
                    j,
                    put_on(
                        Act::JjWs,
                        params.source_path,
                        answer(t, d),
                        make_desc_spec(Op::Step, None),
                    ),
                )
                &&& params.author matches Some(a) ==> transfer_asked(
                    t,
                    params,
                    info,
                    j + 1,
                    authored(params.source_path, a),
                )
                &&& #[trigger] transfer_asked(
                    t,
                    params,
                    info,
                    k,
                    put_on(
                        Act::JjWs,
                        params.target_path,
                        answer(t, d),
                        make_desc_spec(Op::Step, None),
                    ),
                )
                &&& params.author matches Some(a) ==> transfer_asked(
                    t,
                    params,
                    info,
                    k + 1,
                    authored(params.target_path, a),
                )
            },
{
    reveal(execute_transfer_spec);
    let (u, plan) = transfer_executes(t, params, info);
    let (i, d, j, k) = asks_merge_abandon_old(
        u,
        params.repo_root,
        source_ref(params, plan),
        target_ref(params, plan),
        params.author,
    );
    lemma_rest(u, t);
    let n = t.len() - u.len();
    assert(answer(t, n + i) == answer(u, i));
    assert(answer(t, n + d) == answer(u, d));
    assert(answer(t, n + j) == answer(u, j));
    assert(answer(t, n + k) == answer(u, k));
    assert(execute_transfer_spec(u.take(i), params, Operation::MergeAbandonOld, plan) is Ask);
    assert(
        transfer_asked(
            t,
            params,
            info,
            n + i,
            merged(
                params.source_path,
                both(info.src_actual_head, info.tgt_actual_head),
                make_desc_spec(
                    Op::Merge,
                    Some(
                        params.target_name + "@"@ + info.tgt_effective_head + " into "@ + params.source_name + "@"@ + info.src_effective_head,
                    ),
                ),
            ),
        )
    );
    if let Some(a) = params.author {
        assert(
            execute_transfer_spec(u.take(i + 1), params, Operation::MergeAbandonOld, plan) is Ask
        );
        assert(transfer_asked(t, params, info, n + i + 1, authored(params.source_path, a)));
    }
    assert(execute_transfer_spec(u.take(d), params, Operation::MergeAbandonOld, plan) is Ask);
    assert(
        transfer_asked(
            t,
            params,
            info,
            n + d,
            looked_up(Act::JjWs, params.source_path, "@"@, "change_id"@),
        )
    );
    assert(execute_transfer_spec(u.take(j), params, Operation::MergeAbandonOld, plan) is Ask);
    assert(
        transfer_asked(
            t,
            params,
            info,
            n + j,
            put_on(Act::JjWs, params.source_path, answer(t, n + d), make_desc_spec(Op::Step, None)),
        )
    );
    if let Some(a) = params.author {
        assert(
            execute_transfer_spec(u.take(j + 1), params, Operation::MergeAbandonOld, plan) is Ask
        );
        assert(transfer_asked(t, params, info, n + j + 1, authored(params.source_path, a)));
    }
    assert(execute_transfer_spec(u.take(k), params, Operation::MergeAbandonOld, plan) is Ask);
    assert(
        transfer_asked(
            t,
            params,
            info,
            n + k,
            put_on(Act::JjWs, params.target_path, answer(t, n + d), make_desc_spec(Op::Step, None)),
        )
    );
    if let Some(a) = params.author {
        assert(
            execute_transfer_spec(u.take(k + 1), params, Operation::MergeAbandonOld, plan) is Ask
        );
        assert(transfer_asked(t, params, info, n + k + 1, authored(params.target_path, a)));
    }
}

/// A transfer that rebases, and succeeds, has had jj put the roots of what the source has of its own
/// onto the effective head of the target.
pub proof fn law_transfer_rebases_onto_target(
    t: Trace,
    params: TransferParamsV,
    info: SyncModeInfoV,
)
    requires
        transfer_with_info_spec(t, params, info) is Got,
        params.method == TransferMethod::Rebase,
    ensures
        transfer_with_info_spec(t, params, info)->Got_0.resolved_operation == Operation::Rebase,
        exists|k: int|
            {
                &&& #[trigger] transfer_asked(
                    t,
                    params,
                    info,
                    k,
                    rebased(
                        params.repo_root,
                        "roots("@ + info.lca + ".."@ + info.src_effective_head + ")"@,
                        info.tgt_effective_head,
                    ),
                )
            },
{
    reveal(execute_transfer_spec);
    let (u, plan) = transfer_executes(t, params, info);
    let k = asks_rebase(
        u,
        params.repo_root,
        src_heads(plan),
        target_ref(params, plan),
        plan.lca,
        params.author,
    );
    lemma_rest(u, t);
    let n = t.len() - u.len();
    assert(answer(t, n + k) == answer(u, k));
    assert(execute_transfer_spec(u.take(k), params, Operation::Rebase, plan) is Ask);
    assert(
        transfer_asked(
            t,
            params,
            info,
            n + k,
            rebased(
                params.repo_root,
                "roots("@ + info.lca + ".."@ + info.src_effective_head + ")"@,
                info.tgt_effective_head,
            ),
        )
    );
}

/// A transfer that squashes, and succeeds, has had jj squash what the source has of its own into the
/// latest root of it, make a revision in the source whose parents are that root and the effective
/// head of the target and nothing else, and put both workspaces on new revisions on top of it.
#[verifier::rlimit(60)]
pub proof fn law_transfer_squashes_chain(t: Trace, params: TransferParamsV, info: SyncModeInfoV)
    requires
        transfer_with_info_spec(t, params, info) is Got,
        params.method == TransferMethod::MergeSquash,
    ensures
        transfer_with_info_spec(
            t,
            params,
            info,
        )->Got_0.resolved_operation == Operation::MergeSquash,
        exists|i: int, d: int, j: int, k: int, l: int, x: int, y: int|
            {
                &&& i < d < j < k < l < x < y
                &&& #[trigger] transfer_asked(
                    t,
                    params,
                    info,
                    i,
                    looked_up(
                        Act::JjRepo,
                        params.repo_root,
                        "latest(roots("@ + info.lca + ".."@ + info.src_effective_head + "))"@,
                        "change_id ++ \"\\n\""@,
                    ),
                )
                &&& #[trigger] transfer_asked(
                    t,
                    params,
                    info,
                    d,
                    looked_up(
                        Act::JjRepo,
                        params.repo_root,
                        info.lca + ".."@ + info.src_effective_head,
                        TMPL_ID_DESC@,
                    ),
                )
                &&& #[trigger] transfer_asked(
                    t,
                    params,
                    info,
                    j,
                    squashed(
                        params.repo_root,
                        info.lca + ".."@ + info.src_effective_head,
                        answer(t, i),
                        squash_message(
                            params.source_name,
                            info.src_effective_head,
                            params.target_name,
                            info.tgt_effective_head,
                            answer(t, d),
                        ),
                    ),
                )
                &&& #[trigger] transfer_asked(
                    t,
                    params,
                    info,
                    k,
                    merged(
                        params.source_path,
                        both(answer(t, i), info.tgt_effective_head),
                        merge_message(
                            params.source_name,
                            answer(t, i),
                            params.target_name,
                            info.tgt_effective_head,
                        ),
                    ),
                )
                &&& params.author matches Some(a) ==> transfer_asked(
                    t,
                    params,
                    info,
                    k + 1,
                    authored(params.source_path, a),
                )
                &&& #[trigger] transfer_asked(
                    t,
                    params,
                    info,
                    l,
                    looked_up(Act::JjWs, params.source_path, "@"@, "change_id"@),
                )
                &&& #[trigger] transfer_asked(
                    t,
                    params,
                    info,
                    x,
                    stepped(Act::JjWs, params.source_path, make_desc_spec(Op::Step, None)),
                )
                &&& params.author matches Some(a) ==> transfer_asked(
                    t,
                    params,
                    info,
                    x + 1,
                    authored(params.source_path, a),
                )
                &&& #[trigger] transfer_asked(
                    t,
                    params,
                    info,
                    y,
                    put_on(
                        Act::JjWs,
                        params.target_path,
                        answer(t, l),
                        make_desc_spec(Op::Step, None),
                    ),
                )
                &&& params.author matches Some(a) ==> transfer_asked(
                    t,
                    params,
                    info,
                    y + 1,
                    authored(params.target_path, a),
                )
            },
{
    reveal(execute_transfer_spec);
    let (u, plan) = transfer_executes(t, params, info);
    let (i, d, j, k, l, x, y) = asks_merge_squash(
        u,
        params.repo_root,
        source_ref(params, plan),
        target_ref(params, plan),
        plan.lca,
        params.author,
    );
    lemma_rest(u, t);
    let n = t.len() - u.len();
    assert(answer(t, n + i) == answer(u, i));
    assert(answer(t, n + d) == answer(u, d));
    assert(answer(t, n + j) == answer(u, j));
    assert(answer(t, n + k) == answer(u, k));
    assert(answer(t, n + l) == answer(u, l));
    assert(answer(t, n + x) == answer(u, x));
    assert(answer(t, n + y) == answer(u, y));
    assert(execute_transfer_spec(u.take(i), params, Operation::MergeSquash, plan) is Ask);
    assert(
        transfer_asked(
            t,
            params,
            info,
            n + i,
            looked_up(
                Act::JjRepo,
                params.repo_root,
                "latest(roots("@ + info.lca + ".."@ + info.src_effective_head + "))"@,
                "change_id ++ \"\\n\""@,
            ),
        )
    );
    assert(execute_transfer_spec(u.take(d), params, Operation::MergeSquash, plan) is Ask);
    assert(
        transfer_asked(
            t,
            params,
            info,
            n + d,
            looked_up(
                Act::JjRepo,
                params.repo_root,
                info.lca + ".."@ + info.src_effective_head,
                TMPL_ID_DESC@,
            ),
        )
    );
    assert(execute_transfer_spec(u.take(j), params, Operation::MergeSquash, plan) is Ask);
    assert(
        transfer_asked(
            t,
            params,
            info,
            n + j,
            squashed(
                params.repo_root,
                info.lca + ".."@ + info.src_effective_head,
                answer(t, n + i),
                squash_message(
                    params.source_name,
                    info.src_effective_head,
                    params.target_name,
                    info.tgt_effective_head,
                    answer(t, n + d),
                ),
            ),
        )
    );
    assert(execute_transfer_spec(u.take(k), params, Operation::MergeSquash, plan) is Ask);
    assert(
        transfer_asked(
            t,
            params,
            info,
            n + k,
            merged(
                params.source_path,
                both(answer(t, n + i), info.tgt_effective_head),
                merge_message(
                    params.source_name,
                    answer(t, n + i),
                    params.target_name,
                    info.tgt_effective_head,
                ),
            ),
        )
    );
    if let Some(a) = params.author {
        assert(execute_transfer_spec(u.take(k + 1), params, Operation::MergeSquash, plan) is Ask);
        assert(transfer_asked(t, params, info, n + k + 1, authored(params.source_path, a)));
    }
    assert(execute_transfer_spec(u.take(l), params, Operation::MergeSquash, plan) is Ask);
    assert(
        transfer_asked(
            t,
            params,
            info,
            n + l,
            looked_up(Act::JjWs, params.source_path, "@"@, "change_id"@),
        )
    );
    assert(execute_transfer_spec(u.take(x), params, Operation::MergeSquash, plan) is Ask);
    assert(
        transfer_asked(
            t,
            params,
            info,
            n + x,
            stepped(Act::JjWs, params.source_path, make_desc_spec(Op::Step, None)),
        )
    );
    if let Some(a) = params.author {
        assert(execute_transfer_spec(u.take(x + 1), params, Operation::MergeSquash, plan) is Ask);
        assert(transfer_asked(t, params, info, n + x + 1, authored(params.source_path, a)));
    }
    assert(execute_transfer_spec(u.take(y), params, Operation::MergeSquash, plan) is Ask);
    assert(
        transfer_asked(
            t,
            params,
            info,
            n + y,
            put_on(Act::JjWs, params.target_path, answer(t, n + l), make_desc_spec(Op::Step, None)),
        )
    );
    if let Some(a) = params.author {
        assert(execute_transfer_spec(u.take(y + 1), params, Operation::MergeSquash, plan) is Ask);
        assert(transfer_asked(t, params, info, n + y + 1, authored(params.target_path, a)));
    }
}

/// With the first `k` replies a sync asks for `q`, and the next reply says that it was done.
pub open spec fn sync_asked(
    t: Trace,
    repo: Seq<char>,
    info: SyncModeInfoV,
    src_name: Seq<char>,
    src_path: Seq<char>,
    tgt_name: Seq<char>,
    tgt_path: Seq<char>,
    workspace_path_template: Seq<char>,
    repo_name: Seq<char>,
    author: Option<Seq<char>>,
    preserve_finder_xattrs: bool,
    k: int,
    q: RequestV,
) -> bool {
    &&& 0 <= k < t.len()
    &&& sync_with_info_spec(
        t.take(k),
        repo,
        info,
        src_name,
        src_path,
        tgt_name,
        tgt_path,
        workspace_path_template,
        repo_name,
        author,
        preserve_finder_xattrs,
    ) == Out::<SyncOutcomeV>::Ask(q)
    &&& t[k].kind == Kind::Done
}

spec fn sync_heads_at(
    t: Trace,
    repo: Seq<char>,
    src_name: Seq<char>,
    src_path: Seq<char>,
    tgt_name: Seq<char>,
    tgt_path: Seq<char>,
    plan: SyncModeInfoV,
    author: Option<Seq<char>>,
) -> Out<SyncOutcomeV> {
    sync_spec(
        t,
        repo,
        WsRefV { name: src_name, path: src_path, info: src_heads(plan) },
        WsRefV { name: tgt_name, path: tgt_path, info: tgt_heads(plan) },
        author,
    )
}

/// A sync that succeeds comes to its operation with the heads of its plan, and what the operation
/// asks for is asked for by the sync.
proof fn sync_executes(
    t: Trace,
    repo: Seq<char>,
    info: SyncModeInfoV,
    src_name: Seq<char>,
    src_path: Seq<char>,
    tgt_name: Seq<char>,
    tgt_path: Seq<char>,
    workspace_path_template: Seq<char>,
    repo_name: Seq<char>,
    author: Option<Seq<char>>,
    preserve_finder_xattrs: bool,
) -> (r: (Trace, SyncModeInfoV))
    requires
        sync_with_info_spec(
            t,
            repo,
            info,
            src_name,
            src_path,
            tgt_name,
            tgt_path,
            workspace_path_template,
            repo_name,
            author,
            preserve_finder_xattrs,
        ) is Got,
    ensures
        is_rest(r.0, t),
        plan_same(info, r.1),
        sync_heads_at(r.0, repo, src_name, src_path, tgt_name, tgt_path, r.1, author) is Got,
        sync_heads_at(r.0, repo, src_name, src_path, tgt_name, tgt_path, r.1, author)->Got_0 is AlreadyInSync <==> sync_with_info_spec(
            t,
            repo,
            info,
            src_name,
            src_path,
            tgt_name,
            tgt_path,
            workspace_path_template,
            repo_name,
            author,
            preserve_finder_xattrs,
        )->Got_0 is AlreadyInSync,
        forall|j: int|
            0 <= j <= r.0.len() && (#[trigger] sync_heads_at(r.0.take(j), repo, src_name, src_path, tgt_name, tgt_path, r.1, author)) is Ask ==> sync_with_info_spec(
                t.take(t.len() - r.0.len() + j),
                repo,
                info,
                src_name,
                src_path,
                tgt_name,
                tgt_path,
                workspace_path_template,
                repo_name,
                author,
                preserve_finder_xattrs,
            )
                == Out::<SyncOutcomeV>::Ask(
                    sync_heads_at(
                        r.0.take(j),
                        repo,
                        src_name,
                        src_path,
                        tgt_name,
                        tgt_path,
                        r.1,
                        author,
                    )->Ask_0,
                ),
{
    broadcast use {
        group_rest,
        replays_validate_head_info,
        replays_prepare_execution_freshness,
        replays_capture,
        replays_operations_sync,
    };

    reveal(sync_with_info_spec);
    let checked = validate_head_info_spec(t, repo, info, src_name, tgt_name, true);
    let prepared = prepare_execution_freshness_spec(
        left(checked),
        repo,
        checked->Got_0,
        src_name,
        src_path,
        tgt_name,
        tgt_path,
        true,
        true,
        None,
    );
    let fresh = prepared->Got_0;
    let u = left(capture_spec(left(prepared), fresh.ws_paths, preserve_finder_xattrs));
    assert(is_rest(u, t));
    lemma_rest(u, t);
    law_validated_plan(t, repo, info, src_name, tgt_name, true);
    law_prepared_plan(
        left(checked),
        repo,
        checked->Got_0,
        src_name,
        src_path,
        tgt_name,
        tgt_path,
        true,
        true,
        None,
    );
    (u, fresh.info)
}

/// A sync that succeeds has had jj tell the last common ancestor of the effective heads. Where that
/// is both of them, they are in sync, and else not. Where it is the head of the target alone, jj has
/// put the target on a new revision whose one parent is the head of the source; where it is that of
/// the source alone, the other way round. Where it is neither, jj has made a revision in the source
/// whose parents are the two heads and nothing else, and put both workspaces on top of it.
#[verifier::rlimit(60)]
pub proof fn law_sync_brings_heads_together(
    t: Trace,
    repo: Seq<char>,
    info: SyncModeInfoV,
    src_name: Seq<char>,
    src_path: Seq<char>,
    tgt_name: Seq<char>,
    tgt_path: Seq<char>,
    workspace_path_template: Seq<char>,
    repo_name: Seq<char>,
    author: Option<Seq<char>>,
    preserve_finder_xattrs: bool,
)
    requires
        sync_with_info_spec(
            t,
            repo,
            info,
            src_name,
            src_path,
            tgt_name,
            tgt_path,
            workspace_path_template,
            repo_name,
            author,
            preserve_finder_xattrs,
        ) is Got,
    ensures
        exists|i: int|
            {
                &&& #[trigger] sync_asked(
                    t,
                    repo,
                    info,
                    src_name,
                    src_path,
                    tgt_name,
                    tgt_path,
                    workspace_path_template,
                    repo_name,
                    author,
                    preserve_finder_xattrs,
                    i,
                    looked_up(
                        Act::JjRepo,
                        repo,
                        "latest(fork_point("@ + info.src_effective_head + " | "@ + info.tgt_effective_head + "))"@,
                        "change_id"@,
                    ),
                )
                &&& sync_with_info_spec(
                    t,
                    repo,
                    info,
                    src_name,
                    src_path,
                    tgt_name,
                    tgt_path,
                    workspace_path_template,
                    repo_name,
                    author,
                    preserve_finder_xattrs,
                )->Got_0 is AlreadyInSync <==> info.src_effective_head == answer(
                    t,
                    i,
                ) && info.tgt_effective_head == answer(t, i)
                &&& info.tgt_effective_head == answer(
                    t,
                    i,
                ) && info.src_effective_head != answer(t, i) ==> exists|k: int|
                    i < k && #[trigger] sync_asked(
                        t,
                        repo,
                        info,
                        src_name,
                        src_path,
                        tgt_name,
                        tgt_path,
                        workspace_path_template,
                        repo_name,
                        author,
                        preserve_finder_xattrs,
                        k,
                        put_on(
                            Act::JjWsLive,
                            tgt_path,
                            info.src_effective_head,
                            forward_message(tgt_name, src_name, info.src_effective_head),
                        ),
                    ) && (
                        author matches Some(a) ==> sync_asked(
                            t,
                            repo,
                            info,
                            src_name,
                            src_path,
                            tgt_name,
                            tgt_path,
                            workspace_path_template,
                            repo_name,
                            author,
                            preserve_finder_xattrs,
                            k + 1,
                            authored(tgt_path, a),
                        )
                    )
                &&& info.src_effective_head == answer(
                    t,
                    i,
                ) && info.tgt_effective_head != answer(t, i) ==> exists|k: int|
                    i < k && #[trigger] sync_asked(
                        t,
                        repo,
                        info,
                        src_name,
                        src_path,
                        tgt_name,
                        tgt_path,
                        workspace_path_template,
                        repo_name,
                        author,
                        preserve_finder_xattrs,
                        k,
                        put_on(
                            Act::JjWsLive,
                            src_path,
                            info.tgt_effective_head,
                            forward_message(src_name, tgt_name, info.tgt_effective_head),
                        ),
                    ) && (
                        author matches Some(a) ==> sync_asked(
                            t,
                            repo,
                            info,
                            src_name,
                            src_path,
                            tgt_name,
                            tgt_path,
                            workspace_path_template,
                            repo_name,
                            author,
                            preserve_finder_xattrs,
                            k + 1,
                            authored(src_path, a),
                        )
                    )
                &&& info.src_effective_head != answer(
                    t,
                    i,
                ) && info.tgt_effective_head != answer(
                    t,
                    i,
                ) ==> exists|j: int, d: int, k: int, l: int|
                    i < j < d < k < l && #[trigger] sync_asked(
                        t,
                        repo,
                        info,
                        src_name,
                        src_path,
                        tgt_name,
                        tgt_path,
                        workspace_path_template,
                        repo_name,
                        author,
                        preserve_finder_xattrs,
                        j,
                        merged(
                            src_path,
                            both(info.src_effective_head, info.tgt_effective_head),
                            merge_message(
                                src_name,
                                info.src_effective_head,
                                tgt_name,
                                info.tgt_effective_head,
                            ),
                        ),
                    ) && (
                        author matches Some(a) ==> sync_asked(
                            t,
                            repo,
                            info,
                            src_name,
                            src_path,
                            tgt_name,
                            tgt_path,
                            workspace_path_template,
                            repo_name,
                            author,
                            preserve_finder_xattrs,
                            j + 1,
                            authored(src_path, a),
                        )
                    )
                        && #[trigger] sync_asked(
                            t,
                            repo,
                            info,
                            src_name,
                            src_path,
                            tgt_name,
                            tgt_path,
                            workspace_path_template,
                            repo_name,
                            author,
                            preserve_finder_xattrs,
                            d,
                            looked_up(Act::JjWs, src_path, "@"@, "change_id"@),
                        )
                        && #[trigger] sync_asked(t, repo, info, src_name, src_path, tgt_name, tgt_path, workspace_path_template, repo_name, author, preserve_finder_xattrs, k, stepped(Act::JjWs, src_path, make_desc_spec(Op::Step, None))) && (
                            author matches Some(a) ==> sync_asked(
                                t,
                                repo,
                                info,
                                src_name,
                                src_path,
                                tgt_name,
                                tgt_path,
                                workspace_path_template,
                                repo_name,
                                author,
                                preserve_finder_xattrs,
                                k + 1,
                                authored(src_path, a),
                            )
                        )
                        && #[trigger] sync_asked(
                            t,
                            repo,
                            info,
                            src_name,
                            src_path,
                            tgt_name,
                            tgt_path,
                            workspace_path_template,
                            repo_name,
                            author,
                            preserve_finder_xattrs,
                            l,
                            put_on(
                                Act::JjWs,
                                tgt_path,
                                answer(t, d),
                                make_desc_spec(Op::Step, None),
                            ),
                        ) && (
                            author matches Some(a) ==> sync_asked(
                                t,
                                repo,
                                info,
                                src_name,
                                src_path,
                                tgt_name,
                                tgt_path,
                                workspace_path_template,
                                repo_name,
                                author,
                                preserve_finder_xattrs,
                                l + 1,
                                authored(tgt_path, a),
                            )
                        )
            },
{
    let (u, plan) = sync_executes(
        t,
        repo,
        info,
        src_name,
        src_path,
        tgt_name,
        tgt_path,
        workspace_path_template,
        repo_name,
        author,
        preserve_finder_xattrs,
    );
    let src = WsRefV { name: src_name, path: src_path, info: src_heads(plan) };
    let tgt = WsRefV { name: tgt_name, path: tgt_path, info: tgt_heads(plan) };
    let i = asks_lca(u, repo, src, tgt, author);
    lemma_rest(u, t);
    let n = t.len() - u.len();
    assert(answer(t, n + i) == answer(u, i));
    assert(
        sync_heads_at(u.take(i), repo, src_name, src_path, tgt_name, tgt_path, plan, author) is Ask
    );
    assert(
        sync_asked(
            t,
            repo,
            info,
            src_name,
            src_path,
            tgt_name,
            tgt_path,
            workspace_path_template,
            repo_name,
            author,
            preserve_finder_xattrs,
            n + i,
            looked_up(
                Act::JjRepo,
                repo,
                "latest(fork_point("@ + info.src_effective_head + " | "@ + info.tgt_effective_head + "))"@,
                "change_id"@,
            ),
        )
    );
    if tgt.info.effective_head == answer(u, 0) && src.info.effective_head != answer(u, 0) {
        let k = asks_sync_forwards_target(u, repo, src, tgt, author);
        assert(
            sync_heads_at(
                u.take(k),
                repo,
                src_name,
                src_path,
                tgt_name,
                tgt_path,
                plan,
                author,
            ) is Ask
        );
        assert(
            sync_asked(
                t,
                repo,
                info,
                src_name,
                src_path,
                tgt_name,
                tgt_path,
                workspace_path_template,
                repo_name,
                author,
                preserve_finder_xattrs,
                n + k,
                put_on(
                    Act::JjWsLive,
                    tgt_path,
                    info.src_effective_head,
                    forward_message(tgt_name, src_name, info.src_effective_head),
                ),
            )
        );
        if let Some(a) = author {
            assert(
                sync_heads_at(
                    u.take(k + 1),
                    repo,
                    src_name,
                    src_path,
                    tgt_name,
                    tgt_path,
                    plan,
                    author,
                ) is Ask
            );
            assert(
                sync_asked(
                    t,
                    repo,
                    info,
                    src_name,
                    src_path,
                    tgt_name,
                    tgt_path,
                    workspace_path_template,
                    repo_name,
                    author,
                    preserve_finder_xattrs,
                    n + k + 1,
                    authored(tgt_path, a),
                )
            );
        }
    }
    if src.info.effective_head == answer(u, 0) && tgt.info.effective_head != answer(u, 0) {
        let k = asks_sync_forwards_source(u, repo, src, tgt, author);
        assert(
            sync_heads_at(
                u.take(k),
                repo,
                src_name,
                src_path,
                tgt_name,
                tgt_path,
                plan,
                author,
            ) is Ask
        );
        assert(
            sync_asked(
                t,
                repo,
                info,
                src_name,
                src_path,
                tgt_name,
                tgt_path,
                workspace_path_template,
                repo_name,
                author,
                preserve_finder_xattrs,
                n + k,
                put_on(
                    Act::JjWsLive,
                    src_path,
                    info.tgt_effective_head,
                    forward_message(src_name, tgt_name, info.tgt_effective_head),
                ),
            )
        );
        if let Some(a) = author {
            assert(
                sync_heads_at(
                    u.take(k + 1),
                    repo,
                    src_name,
                    src_path,
                    tgt_name,
                    tgt_path,
                    plan,
                    author,
                ) is Ask
            );
            assert(
                sync_asked(
                    t,
                    repo,
                    info,
                    src_name,
                    src_path,
                    tgt_name,
                    tgt_path,
                    workspace_path_template,
                    repo_name,
                    author,
                    preserve_finder_xattrs,
                    n + k + 1,
                    authored(src_path, a),
                )
            );
        }
    }
    if src.info.effective_head != answer(u, 0) && tgt.info.effective_head != answer(u, 0) {
        let (j, d, k, l) = asks_sync_merges(u, repo, src, tgt, author);
        assert(answer(t, n + d) == answer(u, d));
        assert(
            sync_heads_at(
                u.take(j),
                repo,
                src_name,
                src_path,
                tgt_name,
                tgt_path,
                plan,
                author,
            ) is Ask
        );
        assert(
            sync_asked(
                t,
                repo,
                info,
                src_name,
                src_path,
                tgt_name,
                tgt_path,
                workspace_path_template,
                repo_name,
                author,
                preserve_finder_xattrs,
                n + j,
                merged(
                    src_path,
                    both(info.src_effective_head, info.tgt_effective_head),
                    merge_message(
                        src_name,
                        info.src_effective_head,
                        tgt_name,
                        info.tgt_effective_head,
                    ),
                ),
            )
        );
        if let Some(a) = author {
            assert(
                sync_heads_at(
                    u.take(j + 1),
                    repo,
                    src_name,
                    src_path,
                    tgt_name,
                    tgt_path,
                    plan,
                    author,
                ) is Ask
            );
            assert(
                sync_asked(
                    t,
                    repo,
                    info,
                    src_name,
                    src_path,
                    tgt_name,
                    tgt_path,
                    workspace_path_template,
                    repo_name,
                    author,
                    preserve_finder_xattrs,
                    n + j + 1,
                    authored(src_path, a),
                )
            );
        }
        assert(
            sync_heads_at(
                u.take(d),
                repo,
                src_name,
                src_path,
                tgt_name,
                tgt_path,
                plan,
                author,
            ) is Ask
        );
        assert(
            sync_asked(
                t,
                repo,
                info,
                src_name,
                src_path,
                tgt_name,
                tgt_path,
                workspace_path_template,
                repo_name,
                author,
                preserve_finder_xattrs,
                n + d,
                looked_up(Act::JjWs, src_path, "@"@, "change_id"@),
            )
        );
        assert(
            sync_heads_at(
                u.take(k),
                repo,
                src_name,
                src_path,
                tgt_name,
                tgt_path,
                plan,
                author,
            ) is Ask
        );
        assert(
            sync_asked(
                t,
                repo,
                info,
                src_name,
                src_path,
                tgt_name,
                tgt_path,
                workspace_path_template,
                repo_name,
                author,
                preserve_finder_xattrs,
                n + k,
                stepped(Act::JjWs, src_path, make_desc_spec(Op::Step, None)),
            )
        );
        if let Some(a) = author {
            assert(
                sync_heads_at(
                    u.take(k + 1),
                    repo,
                    src_name,
                    src_path,
                    tgt_name,
                    tgt_path,
                    plan,
                    author,
                ) is Ask
            );
            assert(
                sync_asked(
                    t,
                    repo,
                    info,
                    src_name,
                    src_path,
                    tgt_name,
                    tgt_path,
                    workspace_path_template,
                    repo_name,
                    author,
                    preserve_finder_xattrs,
                    n + k + 1,
                    authored(src_path, a),
                )
            );
        }
        assert(
            sync_heads_at(
                u.take(l),
                repo,
                src_name,
                src_path,
                tgt_name,
                tgt_path,
                plan,
                author,
            ) is Ask
        );
        assert(
            sync_asked(
                t,
                repo,
                info,
                src_name,
                src_path,
                tgt_name,
                tgt_path,
                workspace_path_template,
                repo_name,
                author,
                preserve_finder_xattrs,
                n + l,
                put_on(Act::JjWs, tgt_path, answer(t, n + d), make_desc_spec(Op::Step, None)),
            )
        );
        if let Some(a) = author {
            assert(
                sync_heads_at(
                    u.take(l + 1),
                    repo,
                    src_name,
                    src_path,
                    tgt_name,
                    tgt_path,
                    plan,
                    author,
                ) is Ask
            );
            assert(
                sync_asked(
                    t,
                    repo,
                    info,
                    src_name,
                    src_path,
                    tgt_name,
                    tgt_path,
                    workspace_path_template,
                    repo_name,
                    author,
                    preserve_finder_xattrs,
                    n + l + 1,
                    authored(tgt_path, a),
                )
            );
        }
    }
}

/// With the first `k` replies a creation asks for `q`, and the next reply says that it was done.
pub open spec fn create_asked(
    t: Trace,
    repo_root: Seq<char>,
    config: ConfigV,
    repo_name: Seq<char>,
    bookmark: Seq<char>,
    revision: Seq<char>,
    source_ws_path: Seq<char>,
    ws_path: Seq<char>,
    msg: Seq<char>,
    quiet: bool,
    k: int,
    q: RequestV,
) -> bool {
    &&& 0 <= k < t.len()
    &&& create_spec(
        t.take(k),
        repo_root,
        config,
        repo_name,
        bookmark,
        revision,
        source_ws_path,
        ws_path,
        msg,
        quiet,
    ) == Out::<CreateResultV>::Ask(q)
    &&& t[k].kind == Kind::Done
}

/// What a creation has left to read when it comes to the workspace itself.
spec fn at_addition(t: Trace, config: ConfigV, source_ws_path: Seq<char>) -> Trace {
    let u = attempt_spec(snapshot_ws_spec(t, source_ws_path))->Got_1;
    left(capture_spec(u, seq![("source"@, source_ws_path)], config.preserve_finder_xattrs))
}

/// A creation that succeeds has had jj tell whether the revision to branch from is a head, resolve
/// that revision, or the parent of it where it is a trivial head, and add the workspace, at its
/// path, on the change that was resolved. A head that is not trivial is stepped off in the source.
#[verifier::rlimit(60)]
pub proof fn law_create_branches_off_the_revision(
    t: Trace,
    repo_root: Seq<char>,
    config: ConfigV,
    repo_name: Seq<char>,
    bookmark: Seq<char>,
    revision: Seq<char>,
    source_ws_path: Seq<char>,
    ws_path: Seq<char>,
    msg: Seq<char>,
    quiet: bool,
)
    requires
        create_spec(
            t,
            repo_root,
            config,
            repo_name,
            bookmark,
            revision,
            source_ws_path,
            ws_path,
            msg,
            quiet,
        ) is Got,
    ensures
        create_spec(
            t,
            repo_root,
            config,
            repo_name,
            bookmark,
            revision,
            source_ws_path,
            ws_path,
            msg,
            quiet,
        )->Got_0.workspace_path == ws_path,
        exists|h: int, i: int, k: int|
            {
                &&& h < i < k
                &&& #[trigger] create_asked(
                    t,
                    repo_root,
                    config,
                    repo_name,
                    bookmark,
                    revision,
                    source_ws_path,
                    ws_path,
                    msg,
                    quiet,
                    h,
                    looked_up(
                        Act::JjRepo,
                        repo_root,
                        "("@ + revision + ") ~ parents(children("@ + revision + "))"@,
                        "\".\""@,
                    ),
                )
                &&& #[trigger] create_asked(
                    t,
                    repo_root,
                    config,
                    repo_name,
                    bookmark,
                    revision,
                    source_ws_path,
                    ws_path,
                    msg,
                    quiet,
                    i,
                    looked_up(
                        Act::JjRepo,
                        repo_root,
                        branch_base(t.skip(h), repo_root, revision),
                        "change_id ++ \"\\n\""@,
                    ),
                )
                &&& #[trigger] create_asked(
                    t,
                    repo_root,
                    config,
                    repo_name,
                    bookmark,
                    revision,
                    source_ws_path,
                    ws_path,
                    msg,
                    quiet,
                    k,
                    added(repo_root, ws_path, answer(t, i), msg),
                )
                &&& at_full_head(t.skip(h), repo_root, revision) ==> exists|j: int|
                    #[trigger] create_asked(t, repo_root, config, repo_name, bookmark, revision, source_ws_path, ws_path, msg, quiet, j, stepped(Act::JjWs, source_ws_path, make_desc_spec(Op::Step, None))) && (
                        config.ji_author matches Some(a) ==> create_asked(
                            t,
                            repo_root,
                            config,
                            repo_name,
                            bookmark,
                            revision,
                            source_ws_path,
                            ws_path,
                            msg,
                            quiet,
                            j + 1,
                            authored(source_ws_path, a),
                        )
                    )
            },
{
    broadcast use {
        group_rest,
        replays_snapshot_ws,
        replays_capture,
        replays_operations_create_workspace,
        replays_junction,
        replays_is_head,
        replays_is_trivial_head,
    };

    reveal(create_spec);
    reveal(create_workspace_spec);
    let u = at_addition(t, config, source_ws_path);
    assert(is_rest(u, t));
    lemma_rest(u, t);
    let n = t.len() - u.len();
    assert(t.skip(n) =~= u);
    let (i, k) = asks_create_workspace(
        u,
        repo_root,
        source_ws_path,
        revision,
        ws_path,
        msg,
        config.ji_author,
    );
    asks_is_head(u, repo_root, revision);
    assert(answer(t, n + i) == answer(u, i));
    assert(
        create_workspace_spec(
            u.take(0),
            repo_root,
            source_ws_path,
            revision,
            ws_path,
            msg,
            config.ji_author,
        ) is Ask
    );
    assert(
        create_asked(
            t,
            repo_root,
            config,
            repo_name,
            bookmark,
            revision,
            source_ws_path,
            ws_path,
            msg,
            quiet,
            n,
            looked_up(
                Act::JjRepo,
                repo_root,
                "("@ + revision + ") ~ parents(children("@ + revision + "))"@,
                "\".\""@,
            ),
        )
    );
    assert(
        create_workspace_spec(
            u.take(i),
            repo_root,
            source_ws_path,
            revision,
            ws_path,
            msg,
            config.ji_author,
        ) is Ask
    );
    assert(
        create_asked(
            t,
            repo_root,
            config,
            repo_name,
            bookmark,
            revision,
            source_ws_path,
            ws_path,
            msg,
            quiet,
            n + i,
            looked_up(
                Act::JjRepo,
                repo_root,
                branch_base(t.skip(n), repo_root, revision),
                "change_id ++ \"\\n\""@,
            ),
        )
    );
    assert(
        create_workspace_spec(
            u.take(k),
            repo_root,
            source_ws_path,
            revision,
            ws_path,
            msg,
            config.ji_author,
        ) is Ask
    );
    assert(
        create_asked(
            t,
            repo_root,
            config,
            repo_name,
            bookmark,
            revision,
            source_ws_path,
            ws_path,
            msg,
            quiet,
            n + k,
            added(repo_root, ws_path, answer(t, n + i), msg),
        )
    );
    if at_full_head(u, repo_root, revision) {
        let j = asks_junction_steps(u, repo_root, source_ws_path, revision, config.ji_author);
        assert(
            junction_spec(u.take(j), repo_root, source_ws_path, revision, config.ji_author) is Ask
        );
        assert(
            create_workspace_spec(
                u.take(j),
                repo_root,
                source_ws_path,
                revision,
                ws_path,
                msg,
                config.ji_author,
            ) is Ask
        );
        assert(
            create_asked(
                t,
                repo_root,
                config,
                repo_name,
                bookmark,
                revision,
                source_ws_path,
                ws_path,
                msg,
                quiet,
                n + j,
                stepped(Act::JjWs, source_ws_path, make_desc_spec(Op::Step, None)),
            )
        );
        if let Some(a) = config.ji_author {
            assert(
                create_workspace_spec(
                    u.take(j + 1),
                    repo_root,
                    source_ws_path,
                    revision,
                    ws_path,
                    msg,
                    config.ji_author,
                ) is Ask
            );
            assert(
                create_asked(
                    t,
                    repo_root,
                    config,
                    repo_name,
                    bookmark,
                    revision,
                    source_ws_path,
                    ws_path,
                    msg,
                    quiet,
                    n + j + 1,
                    authored(source_ws_path, a),
                )
            );
        }
    }
}

} // verus!
