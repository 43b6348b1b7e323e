//! Procedures on fewer replies: what they ask on the way to a result.
//!
//! A reply does not say what it answers. What a run has asked is seen where its replies are cut
//! short: with the first `k` of them it stops with its next request.

use vstd::prelude::*;

use crate::commands::after::{
    advance_own_spec, advance_to_spec, own_bookmarks_spec, post_op_bookmarks_spec,
    post_op_manual_bookmarks_spec, post_op_stale_spec, predict_stale_workspaces_spec, refresh_spec,
    resolve_predicted_stale_spec,
};
use crate::commands::close::{
    abandon_surviving_spec, close_bookmarks_spec, close_by_abandoning_spec, close_by_detaching_spec,
    close_by_fast_forward_spec, close_by_merge_spec, close_by_squash_spec, execute_close_spec,
    removable_spec, source_warnings_spec, target_guard_spec, CloseParamsV,
};
use crate::commands::create::{
    absolute_spec, dress_spec, heal_spec, paths_equivalent_spec, start_spec,
    validate_resolved_path_spec,
};
use crate::commands::plan::{
    detect_sync_mode_spec, op_head_now_spec, stable_spec, validate_head_info_spec,
};
use crate::commands::protect::{
    capture_needed_spec, capture_other_spec, capture_others_spec, captured_spec,
    check_involved_paths_spec, check_one_path_spec, on_disk_spec, prepare_execution_freshness_spec,
    recheck_execution_freshness_spec, same_dir_spec,
};
use crate::commands::sync::advance_both_spec;
use crate::commands::transfer::{execute_transfer_spec, forward_spec, guard_spec, TransferParamsV};
use crate::commands::types::{BookmarkAction, Operation, SyncModeInfoV};
use crate::config::ConfigV;
use crate::finder_xattrs::{
    apply_spec, bytes_spec, capture_file_spec, capture_spec, capture_ws_spec, carry_out_spec,
    hash_spec, process_file_spec, put_back_spec, restore_new_spec, restore_spec, set_xattr_spec,
    CandidateV, PlanV, XattrGuardV,
};
use crate::hooks::{
    hook_vars_spec, path_vars_spec, run_background_spec, run_blocking_spec, run_one_spec, say_spec,
    start_one_spec, write_one_spec, write_templates_spec,
};
use crate::jj_parse::WorkspaceEntryV;
use crate::jj_run::{jj_done_spec, jj_output_spec, jj_spec, utf8_spec};
use crate::jj_utils::{
    abandon_trivial_heads_spec, advance_singular_bookmark_spec,
    advance_singular_bookmark_to_effective_head_spec, check_chain_safety_spec, check_emptiness_spec,
    check_revision_safety_spec, check_trivial_head_spec, check_working_copy_safety_spec,
    delete_singular_bookmark_spec, edit_workspace_head_spec, examine_spec,
    filter_existing_revisions_spec, find_effective_head_spec, identify_singular_bookmark_spec,
    is_head_spec, is_trivial_description_spec, is_trivial_head_spec, live_log_spec, make_head_spec,
    matches_default_new_description_spec, move_bookmarks_spec, nontrivial_spec,
    resolve_change_id_spec, resolve_workspace_head_info_spec, step_head_spec, vacate_spec,
    workspace_unique_change_ids_spec, Op, WalkV, WorkspaceHeadInfoV,
};
use crate::jujutsu::{
    current_op_head_spec, descendant_first_workspaces_spec, list_workspace_entries_spec,
    only_snapshots_since_spec, snapshot_ws_spec,
};
use crate::operations::{
    create_workspace_spec, fast_forward_close_spec, fast_forward_spec,
    find_abandon_trivial_heads_spec, forget_workspace_spec, junction_spec,
    merge_abandon_parents_old_spec, merge_close_spec, merge_spec, merge_squash_close_spec,
    merge_squash_spec, rebase_spec, squash_chain_spec, step_both_spec, sync_spec, WsRefV,
};
use crate::revisions::{
    abandon_revisions_spec, bookmark_change_id_spec, bookmark_delete_spec, bookmark_set_exact_spec,
    bookmark_set_spec, create_bookmark_spec, last_common_ancestor_spec, local_bookmarks_on_spec,
    metaedit_author_in_workspace_spec, new_merge_spec, new_on_in_workspace_spec,
    progress_workspace_spec, rebase_source_spec, resolve_sanitized_bookmark_spec,
    revision_descriptions_spec, squash_into_spec, with_author_spec, workspace_forget_spec,
    workspace_revisions_with_bookmarks_spec, workspaces_in_descendants_spec,
};
use crate::run::tell_stale_spec;
use crate::stale::{
    is_workspace_stale_spec, stale_here_spec, stale_workspace_names_spec, tracked_files_spec,
    update_workspace_stale_spec,
};
use crate::tape::{
    ask_spec, each, fetch_spec, holds_spec, list_spec, need_spec, tell_spec, Act, Out, ReplyV,
    RequestV, Trace,
};
use crate::text_map::Pairs;
use crate::workspaces::filled_spec;

verus! {

/// `u` is what is left of `t` when some replies are read.
#[verifier::opaque]
pub open spec fn is_rest(u: Trace, t: Trace) -> bool {
    u.len() <= t.len() && u == t.skip(t.len() - u.len())
}

pub broadcast proof fn lemma_rest_of_itself(t: Trace)
    ensures
        #[trigger] is_rest(t, t),
{
    reveal(is_rest);
    assert(t.skip(0) =~= t);
}

pub broadcast proof fn lemma_rest_of_rest(v: Trace, u: Trace, t: Trace)
    requires
        #[trigger] is_rest(v, u),
        #[trigger] is_rest(u, t),
    ensures
        is_rest(v, t),
{
    reveal(is_rest);
    assert(u.skip(u.len() - v.len()) =~= t.skip(t.len() - v.len()));
}

pub broadcast proof fn lemma_rest_len(u: Trace, t: Trace)
    requires
        #[trigger] is_rest(u, t),
    ensures
        u.len() <= t.len(),
{
    reveal(is_rest);
}

pub proof fn lemma_rest(u: Trace, t: Trace)
    requires
        is_rest(u, t),
    ensures
        u.len() <= t.len(),
        u == t.skip(t.len() - u.len()),
{
    reveal(is_rest);
}

/// What the run leaves is a rest of `t`.
pub open spec fn leaves<A>(m: Out<A>, t: Trace) -> bool {
    match m {
        Out::Ask(_) => true,
        Out::Fail(_, u) => is_rest(u, t),
        Out::Got(_, u) => is_rest(u, t),
    }
}

/// The run that is `m` on `t` is `c` on the first `k` replies of `t`: it is the same where it has
/// read no more of them, else it asks for another.
pub open spec fn replays<A>(m: Out<A>, t: Trace, k: int, c: Out<A>) -> bool {
    match m {
        Out::Ask(_) => c is Ask,
        Out::Fail(e, u) => {
            let n = t.len() - u.len();
            if k < n {
                c is Ask
            } else {
                c == Out::<A>::Fail(e, u.take(k - n))
            }
        },
        Out::Got(a, u) => {
            let n = t.len() - u.len();
            if k < n {
                c is Ask
            } else {
                c == Out::Got(a, u.take(k - n))
            }
        },
    }
}

/// What a run that got its result has left to read.
pub open spec fn left<A>(m: Out<A>) -> Trace {
    m->Got_1
}

pub broadcast group group_rest {
    lemma_rest_of_itself,
    lemma_rest_of_rest,
    lemma_rest_len,
}

pub broadcast proof fn replays_ask(t: Trace, q: RequestV)
    ensures
        leaves(#[trigger] ask_spec(t, q), t),
        forall|k: int|
            0 <= k <= t.len() ==> replays(ask_spec(t, q), t, k, #[trigger] ask_spec(t.take(k), q)),
{
    reveal(is_rest);
    if t.len() > 0 {
        assert(t.drop_first() =~= t.skip(1));
        assert forall|k: int| 0 <= k <= t.len() implies replays(
            ask_spec(t, q),
            t,
            k,
            #[trigger] ask_spec(t.take(k), q),
        ) by {
            if k > 0 {
                assert(t.take(k).drop_first() =~= t.drop_first().take(k - 1));
            }
        }
    }
}

pub broadcast proof fn replays_each<X, A>(
    t: Trace,
    xs: Seq<X>,
    acc: A,
    step: spec_fn(Trace, A, X) -> Out<A>,
)
    requires
        forall|t: Trace, a: A, x: X| leaves(#[trigger] step(t, a, x), t),
        forall|t: Trace, k: int, a: A, x: X|
            0 <= k <= t.len() ==> replays(step(t, a, x), t, k, #[trigger] step(t.take(k), a, x)),
    ensures
        leaves(#[trigger] each(t, xs, acc, step), t),
        forall|k: int|
            0 <= k <= t.len() ==> replays(
                each(t, xs, acc, step),
                t,
                k,
                #[trigger] each(t.take(k), xs, acc, step),
            ),
    decreases xs.len(),
{
    broadcast use group_rest;

    if xs.len() > 0 {
        assert(leaves(step(t, acc, xs[0]), t));
        if let Out::Got(a, u) = step(t, acc, xs[0]) {
            replays_each(u, xs.drop_first(), a, step);
        }
        assert forall|k: int| 0 <= k <= t.len() implies replays(
            each(t, xs, acc, step),
            t,
            k,
            #[trigger] each(t.take(k), xs, acc, step),
        ) by {
            assert(replays(step(t, acc, xs[0]), t, k, step(t.take(k), acc, xs[0])));
            if let Out::Got(a, u) = step(t, acc, xs[0]) {
                let rest = xs.drop_first();
                let j = k - (t.len() - u.len());
                if j >= 0 {
                    assert(replays(each(u, rest, a, step), u, j, each(u.take(j), rest, a, step)));
                }
            }
        }
    }
}

/// A walk over `xs` that succeeds comes to each of them, and what its step there asks for is asked
/// for by the walk.
pub proof fn each_reaches<X, A>(
    t: Trace,
    xs: Seq<X>,
    acc: A,
    step: spec_fn(Trace, A, X) -> Out<A>,
    i: int,
) -> (r: (Trace, A))
    requires
        each(t, xs, acc, step) is Got,
        0 <= i < xs.len(),
        forall|t: Trace, a: A, x: X| leaves(#[trigger] step(t, a, x), t),
        forall|t: Trace, k: int, a: A, x: X|
            0 <= k <= t.len() ==> replays(step(t, a, x), t, k, #[trigger] step(t.take(k), a, x)),
    ensures
        is_rest(r.0, t),
        step(r.0, r.1, xs[i]) is Got,
        forall|j: int|
            0 <= j <= r.0.len() && (#[trigger] step(r.0.take(j), r.1, xs[i])) is Ask ==> each(
                t.take(t.len() - r.0.len() + j),
                xs,
                acc,
                step,
            ) == Out::<A>::Ask(step(r.0.take(j), r.1, xs[i])->Ask_0),
    decreases i,
{
    broadcast use group_rest;

    assert(leaves(step(t, acc, xs[0]), t));
    if i == 0 {
        (t, acc)
    } else {
        let a = step(t, acc, xs[0])->Got_0;
        let u = left(step(t, acc, xs[0]));
        let rest = xs.drop_first();
        let r = each_reaches(u, rest, a, step, i - 1);
        assert(rest[i - 1] == xs[i]);
        assert(is_rest(r.0, t));
        assert forall|j: int|
            0 <= j <= r.0.len() && (#[trigger] step(r.0.take(j), r.1, xs[i])) is Ask implies each(
            t.take(t.len() - r.0.len() + j),
            xs,
            acc,
            step,
        ) == Out::<A>::Ask(step(r.0.take(j), r.1, xs[i])->Ask_0) by {
            let k = t.len() - r.0.len() + j;
            assert(replays(step(t, acc, xs[0]), t, k, step(t.take(k), acc, xs[0])));
            assert(u.take(k - (t.len() - u.len())) == u.take(u.len() - r.0.len() + j));
        }
        r
    }
}

pub broadcast proof fn replays_list(t: Trace, q: RequestV)
    ensures
        leaves(#[trigger] list_spec(t, q), t),
        forall|k: int|
            0 <= k <= t.len() ==> replays(
                list_spec(t, q),
                t,
                k,
                #[trigger] list_spec(t.take(k), q),
            ),
{
    broadcast use {replays_ask, group_rest};

}

pub broadcast proof fn replays_current_op_head(t: Trace, repo_root: Seq<char>)
    ensures
        leaves(#[trigger] current_op_head_spec(t, repo_root), t),
        forall|k: int|
            0 <= k <= t.len() ==> replays(
                current_op_head_spec(t, repo_root),
                t,
                k,
                #[trigger] current_op_head_spec(t.take(k), repo_root),
            ),
{
    broadcast use {replays_list, group_rest};

    reveal(current_op_head_spec);
}

pub broadcast proof fn replays_op_head_now(t: Trace, repo: Seq<char>)
    ensures
        leaves(#[trigger] op_head_now_spec(t, repo), t),
        forall|k: int|
            0 <= k <= t.len() ==> replays(
                op_head_now_spec(t, repo),
                t,
                k,
                #[trigger] op_head_now_spec(t.take(k), repo),
            ),
{
    broadcast use {replays_current_op_head, group_rest};

    reveal(op_head_now_spec);
}

pub broadcast proof fn replays_jj(t: Trace, act: Act, at: Seq<char>, args: Seq<Seq<char>>)
    ensures
        leaves(#[trigger] jj_spec(t, act, at, args), t),
        forall|k: int|
            0 <= k <= t.len() ==> replays(
                jj_spec(t, act, at, args),
                t,
                k,
                #[trigger] jj_spec(t.take(k), act, at, args),
            ),
{
    broadcast use {replays_ask, group_rest};

}

pub broadcast proof fn replays_last_common_ancestor(
    t: Trace,
    repo: Seq<char>,
    id_a: Seq<char>,
    id_b: Seq<char>,
)
    ensures
        leaves(#[trigger] last_common_ancestor_spec(t, repo, id_a, id_b), t),
        forall|k: int|
            0 <= k <= t.len() ==> replays(
                last_common_ancestor_spec(t, repo, id_a, id_b),
                t,
                k,
                #[trigger] last_common_ancestor_spec(t.take(k), repo, id_a, id_b),
            ),
{
    broadcast use {replays_jj, group_rest};

    reveal(last_common_ancestor_spec);
}

pub broadcast proof fn replays_matches_default_new_description(
    t: Trace,
    repo: Seq<char>,
    revset: Seq<char>,
    desc: Seq<char>,
)
    ensures
        leaves(#[trigger] matches_default_new_description_spec(t, repo, revset, desc), t),
        forall|k: int|
            0 <= k <= t.len() ==> replays(
                matches_default_new_description_spec(t, repo, revset, desc),
                t,
                k,
                #[trigger] matches_default_new_description_spec(t.take(k), repo, revset, desc),
            ),
{
    broadcast use {replays_jj, group_rest};

    reveal(matches_default_new_description_spec);
}

pub broadcast proof fn replays_is_trivial_description(
    t: Trace,
    repo: Seq<char>,
    revset: Seq<char>,
    desc: Seq<char>,
)
    ensures
        leaves(#[trigger] is_trivial_description_spec(t, repo, revset, desc), t),
        forall|k: int|
            0 <= k <= t.len() ==> replays(
                is_trivial_description_spec(t, repo, revset, desc),
                t,
                k,
                #[trigger] is_trivial_description_spec(t.take(k), repo, revset, desc),
            ),
{
    broadcast use {replays_matches_default_new_description, group_rest};

    reveal(is_trivial_description_spec);
}

pub broadcast proof fn replays_examine(t: Trace, repo: Seq<char>, revset: Seq<char>)
    ensures
        leaves(#[trigger] examine_spec(t, repo, revset), t),
        forall|k: int|
            0 <= k <= t.len() ==> replays(
                examine_spec(t, repo, revset),
                t,
                k,
                #[trigger] examine_spec(t.take(k), repo, revset),
            ),
{
    broadcast use {replays_is_trivial_description, replays_jj, group_rest};

    reveal(examine_spec);
}

pub broadcast proof fn replays_resolve_change_id(
    t: Trace,
    repo: Seq<char>,
    revset: Seq<char>,
)
    ensures
        leaves(#[trigger] resolve_change_id_spec(t, repo, revset), t),
        forall|k: int|
            0 <= k <= t.len() ==> replays(
                resolve_change_id_spec(t, repo, revset),
                t,
                k,
                #[trigger] resolve_change_id_spec(t.take(k), repo, revset),
            ),
{
    broadcast use {replays_jj, group_rest};

    reveal(resolve_change_id_spec);
}

pub broadcast proof fn replays_nontrivial(
    t: Trace,
    repo: Seq<char>,
    revset: Seq<char>,
    last: Seq<char>,
    n: nat,
)
    ensures
        leaves(#[trigger] nontrivial_spec(t, repo, revset, last, n), t),
        forall|k: int|
            0 <= k <= t.len() ==> replays(
                nontrivial_spec(t, repo, revset, last, n),
                t,
                k,
                #[trigger] nontrivial_spec(t.take(k), repo, revset, last, n),
            ),
    decreases n,
{
    broadcast use {replays_examine, replays_resolve_change_id, group_rest};

    reveal_with_fuel(nontrivial_spec, 2);
    if n > 0 {
        if let Out::Got(WalkV::Up(id), u) = examine_spec(t, repo, revset) {
            let up = "parents("@ + id + ")"@;
            let m = (n - 1) as nat;
            replays_nontrivial(u, repo, up, id, m);
            assert forall|k: int| 0 <= k <= t.len() implies replays(
                nontrivial_spec(t, repo, revset, last, n),
                t,
                k,
                #[trigger] nontrivial_spec(t.take(k), repo, revset, last, n),
            ) by {
                let j = k - (t.len() - u.len());
                if j >= 0 {
                    assert(replays(
                        nontrivial_spec(u, repo, up, id, m),
                        u,
                        j,
                        nontrivial_spec(u.take(j), repo, up, id, m),
                    ));
                }
            }
        }
    }
}

pub broadcast proof fn replays_resolve_workspace_head_info(
    t: Trace,
    repo: Seq<char>,
    ws_name: Seq<char>,
)
    ensures
        leaves(#[trigger] resolve_workspace_head_info_spec(t, repo, ws_name), t),
        forall|k: int|
            0 <= k <= t.len() ==> replays(
                resolve_workspace_head_info_spec(t, repo, ws_name),
                t,
                k,
                #[trigger] resolve_workspace_head_info_spec(t.take(k), repo, ws_name),
            ),
{
    broadcast use {
        replays_is_trivial_description,
        replays_jj,
        replays_nontrivial,
        replays_resolve_change_id,
        group_rest,
    };

    reveal(resolve_workspace_head_info_spec);
}

pub broadcast proof fn replays_detect_sync_mode(
    t: Trace,
    repo: Seq<char>,
    src_name: Seq<char>,
    tgt_name: Seq<char>,
)
    ensures
        leaves(#[trigger] detect_sync_mode_spec(t, repo, src_name, tgt_name), t),
        forall|k: int|
            0 <= k <= t.len() ==> replays(
                detect_sync_mode_spec(t, repo, src_name, tgt_name),
                t,
                k,
                #[trigger] detect_sync_mode_spec(t.take(k), repo, src_name, tgt_name),
            ),
{
    broadcast use {
        replays_last_common_ancestor,
        replays_op_head_now,
        replays_resolve_workspace_head_info,
        group_rest,
    };

    reveal(detect_sync_mode_spec);
}

pub broadcast proof fn replays_stable(
    t: Trace,
    repo: Seq<char>,
    src_name: Seq<char>,
    tgt_name: Seq<char>,
    n: nat,
)
    ensures
        leaves(#[trigger] stable_spec(t, repo, src_name, tgt_name, n), t),
        forall|k: int|
            0 <= k <= t.len() ==> replays(
                stable_spec(t, repo, src_name, tgt_name, n),
                t,
                k,
                #[trigger] stable_spec(t.take(k), repo, src_name, tgt_name, n),
            ),
    decreases n,
{
    broadcast use {replays_detect_sync_mode, replays_op_head_now, group_rest};

    reveal_with_fuel(stable_spec, 2);
    if n > 0 {
        if let Out::Got(fresh, u) = detect_sync_mode_spec(t, repo, src_name, tgt_name) {
            if let Out::Got(after, v) = op_head_now_spec(u, repo) {
                let m = (n - 1) as nat;
                replays_stable(v, repo, src_name, tgt_name, m);
                assert forall|k: int| 0 <= k <= t.len() implies replays(
                    stable_spec(t, repo, src_name, tgt_name, n),
                    t,
                    k,
                    #[trigger] stable_spec(t.take(k), repo, src_name, tgt_name, n),
                ) by {
                    let j = k - (t.len() - v.len());
                    if j >= 0 {
                        assert(replays(
                            stable_spec(v, repo, src_name, tgt_name, m),
                            v,
                            j,
                            stable_spec(v.take(j), repo, src_name, tgt_name, m),
                        ));
                    }
                }
            }
        }
    }
}

pub broadcast proof fn replays_validate_head_info(
    t: Trace,
    repo: Seq<char>,
    info: SyncModeInfoV,
    src_name: Seq<char>,
    tgt_name: Seq<char>,
    allow_equivalent: bool,
)
    ensures
        leaves(#[trigger] validate_head_info_spec(t, repo, info, src_name, tgt_name, allow_equivalent), t),
        forall|k: int|
            0 <= k <= t.len() ==> replays(
                validate_head_info_spec(t, repo, info, src_name, tgt_name, allow_equivalent),
                t,
                k,
                #[trigger] validate_head_info_spec(
                    t.take(k),
                    repo,
                    info,
                    src_name,
                    tgt_name,
                    allow_equivalent,
                ),
            ),
{
    broadcast use {replays_op_head_now, replays_stable, group_rest};

    reveal(validate_head_info_spec);
}

pub broadcast proof fn replays_jj_done(
    t: Trace,
    act: Act,
    at: Seq<char>,
    args: Seq<Seq<char>>,
)
    ensures
        leaves(#[trigger] jj_done_spec(t, act, at, args), t),
        forall|k: int|
            0 <= k <= t.len() ==> replays(
                jj_done_spec(t, act, at, args),
                t,
                k,
                #[trigger] jj_done_spec(t.take(k), act, at, args),
            ),
{
    broadcast use {replays_jj, group_rest};

}

pub broadcast proof fn replays_snapshot_ws(t: Trace, ws_path: Seq<char>)
    ensures
        leaves(#[trigger] snapshot_ws_spec(t, ws_path), t),
        forall|k: int|
            0 <= k <= t.len() ==> replays(
                snapshot_ws_spec(t, ws_path),
                t,
                k,
                #[trigger] snapshot_ws_spec(t.take(k), ws_path),
            ),
{
    broadcast use {replays_jj_done, group_rest};

    reveal(snapshot_ws_spec);
}

pub broadcast proof fn replays_capture_needed(
    t: Trace,
    entries: Seq<WorkspaceEntryV>,
    src_name: Seq<char>,
    tgt_name: Seq<char>,
    target_involved: bool,
)
    ensures
        leaves(#[trigger] capture_needed_spec(t, entries, src_name, tgt_name, target_involved), t),
        forall|k: int|
            0 <= k <= t.len() ==> replays(
                capture_needed_spec(t, entries, src_name, tgt_name, target_involved),
                t,
                k,
                #[trigger] capture_needed_spec(
                    t.take(k),
                    entries,
                    src_name,
                    tgt_name,
                    target_involved,
                ),
            ),
{
    broadcast use {replays_each, replays_snapshot_ws, group_rest};

    reveal(capture_needed_spec);
}

pub broadcast proof fn replays_holds(t: Trace, q: RequestV)
    ensures
        leaves(#[trigger] holds_spec(t, q), t),
        forall|k: int|
            0 <= k <= t.len() ==> replays(
                holds_spec(t, q),
                t,
                k,
                #[trigger] holds_spec(t.take(k), q),
            ),
{
    broadcast use {replays_ask, group_rest};

}

pub broadcast proof fn replays_is_workspace_stale(t: Trace, ws_path: Seq<char>)
    ensures
        leaves(#[trigger] is_workspace_stale_spec(t, ws_path), t),
        forall|k: int|
            0 <= k <= t.len() ==> replays(
                is_workspace_stale_spec(t, ws_path),
                t,
                k,
                #[trigger] is_workspace_stale_spec(t.take(k), ws_path),
            ),
{
    broadcast use {replays_ask, replays_holds, group_rest};

    reveal(is_workspace_stale_spec);
}

pub broadcast proof fn replays_capture_other(t: Trace, entry: WorkspaceEntryV)
    ensures
        leaves(#[trigger] capture_other_spec(t, entry), t),
        forall|k: int|
            0 <= k <= t.len() ==> replays(
                capture_other_spec(t, entry),
                t,
                k,
                #[trigger] capture_other_spec(t.take(k), entry),
            ),
{
    broadcast use {replays_is_workspace_stale, replays_snapshot_ws, group_rest};

    reveal(capture_other_spec);
}

pub broadcast proof fn replays_capture_others(
    t: Trace,
    entries: Seq<WorkspaceEntryV>,
    src_name: Seq<char>,
    tgt_name: Seq<char>,
    target_involved: bool,
)
    ensures
        leaves(#[trigger] capture_others_spec(t, entries, src_name, tgt_name, target_involved), t),
        forall|k: int|
            0 <= k <= t.len() ==> replays(
                capture_others_spec(t, entries, src_name, tgt_name, target_involved),
                t,
                k,
                #[trigger] capture_others_spec(
                    t.take(k),
                    entries,
                    src_name,
                    tgt_name,
                    target_involved,
                ),
            ),
{
    broadcast use {replays_capture_other, replays_each, group_rest};

    reveal(capture_others_spec);
}

pub broadcast proof fn replays_descendant_first_workspaces(
    t: Trace,
    repo: Seq<char>,
    entries: Seq<WorkspaceEntryV>,
)
    ensures
        leaves(#[trigger] descendant_first_workspaces_spec(t, repo, entries), t),
        forall|k: int|
            0 <= k <= t.len() ==> replays(
                descendant_first_workspaces_spec(t, repo, entries),
                t,
                k,
                #[trigger] descendant_first_workspaces_spec(t.take(k), repo, entries),
            ),
{
    broadcast use {replays_jj, group_rest};

    reveal(descendant_first_workspaces_spec);
}

pub broadcast proof fn replays_on_disk(t: Trace, entries: Seq<WorkspaceEntryV>)
    ensures
        leaves(#[trigger] on_disk_spec(t, entries), t),
        forall|k: int|
            0 <= k <= t.len() ==> replays(
                on_disk_spec(t, entries),
                t,
                k,
                #[trigger] on_disk_spec(t.take(k), entries),
            ),
{
    broadcast use {replays_each, replays_holds, group_rest};

    reveal(on_disk_spec);
}

pub broadcast proof fn replays_captured(
    t: Trace,
    repo: Seq<char>,
    entries: Seq<WorkspaceEntryV>,
    src_name: Seq<char>,
    tgt_name: Seq<char>,
    target_involved: bool,
)
    ensures
        leaves(#[trigger] captured_spec(t, repo, entries, src_name, tgt_name, target_involved), t),
        forall|k: int|
            0 <= k <= t.len() ==> replays(
                captured_spec(t, repo, entries, src_name, tgt_name, target_involved),
                t,
                k,
                #[trigger] captured_spec(
                    t.take(k),
                    repo,
                    entries,
                    src_name,
                    tgt_name,
                    target_involved,
                ),
            ),
{
    broadcast use {
        replays_capture_needed,
        replays_capture_others,
        replays_descendant_first_workspaces,
        replays_on_disk,
        group_rest,
    };

    reveal(captured_spec);
}

pub broadcast proof fn replays_fetch(t: Trace, q: RequestV)
    ensures
        leaves(#[trigger] fetch_spec(t, q), t),
        forall|k: int|
            0 <= k <= t.len() ==> replays(
                fetch_spec(t, q),
                t,
                k,
                #[trigger] fetch_spec(t.take(k), q),
            ),
{
    broadcast use {replays_ask, group_rest};

}

pub broadcast proof fn replays_same_dir(t: Trace, a: Seq<char>, b: Seq<char>)
    ensures
        leaves(#[trigger] same_dir_spec(t, a, b), t),
        forall|k: int|
            0 <= k <= t.len() ==> replays(
                same_dir_spec(t, a, b),
                t,
                k,
                #[trigger] same_dir_spec(t.take(k), a, b),
            ),
{
    broadcast use {replays_fetch, group_rest};

    reveal(same_dir_spec);
}

pub broadcast proof fn replays_check_one_path(
    t: Trace,
    entries: Seq<WorkspaceEntryV>,
    name: Seq<char>,
    path: Seq<char>,
)
    ensures
        leaves(#[trigger] check_one_path_spec(t, entries, name, path), t),
        forall|k: int|
            0 <= k <= t.len() ==> replays(
                check_one_path_spec(t, entries, name, path),
                t,
                k,
                #[trigger] check_one_path_spec(t.take(k), entries, name, path),
            ),
{
    broadcast use {replays_same_dir, group_rest};

    reveal(check_one_path_spec);
}

pub broadcast proof fn replays_check_involved_paths(
    t: Trace,
    entries: Seq<WorkspaceEntryV>,
    src_name: Seq<char>,
    src_path: Seq<char>,
    target: Option<(Seq<char>, Seq<char>)>,
)
    ensures
        leaves(#[trigger] check_involved_paths_spec(t, entries, src_name, src_path, target), t),
        forall|k: int|
            0 <= k <= t.len() ==> replays(
                check_involved_paths_spec(t, entries, src_name, src_path, target),
                t,
                k,
                #[trigger] check_involved_paths_spec(
                    t.take(k),
                    entries,
                    src_name,
                    src_path,
                    target,
                ),
            ),
{
    broadcast use {replays_check_one_path, group_rest};

    reveal(check_involved_paths_spec);
}

pub broadcast proof fn replays_list_workspace_entries(t: Trace, repo: Seq<char>)
    ensures
        leaves(#[trigger] list_workspace_entries_spec(t, repo), t),
        forall|k: int|
            0 <= k <= t.len() ==> replays(
                list_workspace_entries_spec(t, repo),
                t,
                k,
                #[trigger] list_workspace_entries_spec(t.take(k), repo),
            ),
{
    broadcast use {replays_jj, group_rest};

    reveal(list_workspace_entries_spec);
}

pub broadcast proof fn replays_only_snapshots_since(
    t: Trace,
    repo: Seq<char>,
    expected_op_id: Seq<char>,
    limit: usize,
)
    ensures
        leaves(#[trigger] only_snapshots_since_spec(t, repo, expected_op_id, limit), t),
        forall|k: int|
            0 <= k <= t.len() ==> replays(
                only_snapshots_since_spec(t, repo, expected_op_id, limit),
                t,
                k,
                #[trigger] only_snapshots_since_spec(t.take(k), repo, expected_op_id, limit),
            ),
{
    broadcast use {replays_jj, group_rest};

    reveal(only_snapshots_since_spec);
}

pub broadcast proof fn replays_recheck_execution_freshness(
    t: Trace,
    repo: Seq<char>,
    validated: SyncModeInfoV,
    src_name: Seq<char>,
    src_path: Seq<char>,
    tgt_name: Seq<char>,
    tgt_path: Seq<char>,
    target_involved: bool,
    plan_consuming: bool,
)
    ensures
        leaves(#[trigger] recheck_execution_freshness_spec(
            t,
            repo,
            validated,
            src_name,
            src_path,
            tgt_name,
            tgt_path,
            target_involved,
            plan_consuming,
        ), t),
        forall|k: int|
            0 <= k <= t.len() ==> replays(
                recheck_execution_freshness_spec(
                    t,
                    repo,
                    validated,
                    src_name,
                    src_path,
                    tgt_name,
                    tgt_path,
                    target_involved,
                    plan_consuming,
                ),
                t,
                k,
                #[trigger] recheck_execution_freshness_spec(
                    t.take(k),
                    repo,
                    validated,
                    src_name,
                    src_path,
                    tgt_name,
                    tgt_path,
                    target_involved,
                    plan_consuming,
                ),
            ),
{
    broadcast use {
        replays_check_involved_paths,
        replays_list_workspace_entries,
        replays_only_snapshots_since,
        replays_stable,
        group_rest,
    };

    reveal(recheck_execution_freshness_spec);
}

pub broadcast proof fn replays_prepare_execution_freshness(
    t: Trace,
    repo: Seq<char>,
    validated: SyncModeInfoV,
    src_name: Seq<char>,
    src_path: Seq<char>,
    tgt_name: Seq<char>,
    tgt_path: Seq<char>,
    target_involved: bool,
    plan_consuming: bool,
    advance_target_change_id: Option<Seq<char>>,
)
    ensures
        leaves(#[trigger] prepare_execution_freshness_spec(
            t,
            repo,
            validated,
            src_name,
            src_path,
            tgt_name,
            tgt_path,
            target_involved,
            plan_consuming,
            advance_target_change_id,
        ), t),
        forall|k: int|
            0 <= k <= t.len() ==> replays(
                prepare_execution_freshness_spec(
                    t,
                    repo,
                    validated,
                    src_name,
                    src_path,
                    tgt_name,
                    tgt_path,
                    target_involved,
                    plan_consuming,
                    advance_target_change_id,
                ),
                t,
                k,
                #[trigger] prepare_execution_freshness_spec(
                    t.take(k),
                    repo,
                    validated,
                    src_name,
                    src_path,
                    tgt_name,
                    tgt_path,
                    target_involved,
                    plan_consuming,
                    advance_target_change_id,
                ),
            ),
{
    broadcast use {
        replays_captured,
        replays_check_involved_paths,
        replays_list_workspace_entries,
        replays_recheck_execution_freshness,
        group_rest,
    };

    reveal(prepare_execution_freshness_spec);
}

pub broadcast proof fn replays_workspaces_in_descendants(
    t: Trace,
    repo: Seq<char>,
    revset: Seq<char>,
)
    ensures
        leaves(#[trigger] workspaces_in_descendants_spec(t, repo, revset), t),
        forall|k: int|
            0 <= k <= t.len() ==> replays(
                workspaces_in_descendants_spec(t, repo, revset),
                t,
                k,
                #[trigger] workspaces_in_descendants_spec(t.take(k), repo, revset),
            ),
{
    broadcast use {replays_jj, group_rest};

    reveal(workspaces_in_descendants_spec);
}

pub broadcast proof fn replays_predict_stale_workspaces(
    t: Trace,
    repo: Seq<char>,
    operation: Operation,
    info: SyncModeInfoV,
    abandoned_ids: Seq<Seq<char>>,
    involved: Seq<Seq<char>>,
)
    ensures
        leaves(#[trigger] predict_stale_workspaces_spec(
            t,
            repo,
            operation,
            info,
            abandoned_ids,
            involved,
        ), t),
        forall|k: int|
            0 <= k <= t.len() ==> replays(
                predict_stale_workspaces_spec(t, repo, operation, info, abandoned_ids, involved),
                t,
                k,
                #[trigger] predict_stale_workspaces_spec(
                    t.take(k),
                    repo,
                    operation,
                    info,
                    abandoned_ids,
                    involved,
                ),
            ),
{
    broadcast use {replays_workspaces_in_descendants, group_rest};

    reveal(predict_stale_workspaces_spec);
}

pub broadcast proof fn replays_update_workspace_stale(t: Trace, ws_path: Seq<char>)
    ensures
        leaves(#[trigger] update_workspace_stale_spec(t, ws_path), t),
        forall|k: int|
            0 <= k <= t.len() ==> replays(
                update_workspace_stale_spec(t, ws_path),
                t,
                k,
                #[trigger] update_workspace_stale_spec(t.take(k), ws_path),
            ),
{
    broadcast use {replays_holds, replays_jj, group_rest};

    reveal(update_workspace_stale_spec);
}

pub broadcast proof fn replays_workspace_unique_change_ids(
    t: Trace,
    repo: Seq<char>,
    ws_name: Seq<char>,
)
    ensures
        leaves(#[trigger] workspace_unique_change_ids_spec(t, repo, ws_name), t),
        forall|k: int|
            0 <= k <= t.len() ==> replays(
                workspace_unique_change_ids_spec(t, repo, ws_name),
                t,
                k,
                #[trigger] workspace_unique_change_ids_spec(t.take(k), repo, ws_name),
            ),
{
    broadcast use {replays_jj, group_rest};

    reveal(workspace_unique_change_ids_spec);
}

pub broadcast proof fn replays_live_log(
    t: Trace,
    repo: Seq<char>,
    ws_path: Option<Seq<char>>,
    args: Seq<Seq<char>>,
)
    ensures
        leaves(#[trigger] live_log_spec(t, repo, ws_path, args), t),
        forall|k: int|
            0 <= k <= t.len() ==> replays(
                live_log_spec(t, repo, ws_path, args),
                t,
                k,
                #[trigger] live_log_spec(t.take(k), repo, ws_path, args),
            ),
{
    broadcast use {replays_jj, group_rest};

}

pub broadcast proof fn replays_check_chain_safety(
    t: Trace,
    repo: Seq<char>,
    change_ids: Seq<Seq<char>>,
    ws_path: Option<Seq<char>>,
)
    ensures
        leaves(#[trigger] check_chain_safety_spec(t, repo, change_ids, ws_path), t),
        forall|k: int|
            0 <= k <= t.len() ==> replays(
                check_chain_safety_spec(t, repo, change_ids, ws_path),
                t,
                k,
                #[trigger] check_chain_safety_spec(t.take(k), repo, change_ids, ws_path),
            ),
{
    broadcast use {replays_jj, replays_live_log, group_rest};

    reveal(check_chain_safety_spec);
}

pub broadcast proof fn replays_check_emptiness(
    t: Trace,
    repo: Seq<char>,
    revset: Seq<char>,
    ws_path: Option<Seq<char>>,
    change_id: Seq<char>,
)
    ensures
        leaves(#[trigger] check_emptiness_spec(t, repo, revset, ws_path, change_id), t),
        forall|k: int|
            0 <= k <= t.len() ==> replays(
                check_emptiness_spec(t, repo, revset, ws_path, change_id),
                t,
                k,
                #[trigger] check_emptiness_spec(t.take(k), repo, revset, ws_path, change_id),
            ),
{
    broadcast use {replays_live_log, group_rest};

    reveal(check_emptiness_spec);
}

pub broadcast proof fn replays_check_revision_safety(
    t: Trace,
    repo: Seq<char>,
    revset: Seq<char>,
    ws_path: Option<Seq<char>>,
)
    ensures
        leaves(#[trigger] check_revision_safety_spec(t, repo, revset, ws_path), t),
        forall|k: int|
            0 <= k <= t.len() ==> replays(
                check_revision_safety_spec(t, repo, revset, ws_path),
                t,
                k,
                #[trigger] check_revision_safety_spec(t.take(k), repo, revset, ws_path),
            ),
{
    broadcast use {replays_check_emptiness, replays_jj, group_rest};

    reveal(check_revision_safety_spec);
}

pub broadcast proof fn replays_find_effective_head(
    t: Trace,
    repo: Seq<char>,
    ws_name: Seq<char>,
)
    ensures
        leaves(#[trigger] find_effective_head_spec(t, repo, ws_name), t),
        forall|k: int|
            0 <= k <= t.len() ==> replays(
                find_effective_head_spec(t, repo, ws_name),
                t,
                k,
                #[trigger] find_effective_head_spec(t.take(k), repo, ws_name),
            ),
{
    broadcast use {replays_nontrivial, group_rest};

    reveal(find_effective_head_spec);
}

pub broadcast proof fn replays_check_working_copy_safety(
    t: Trace,
    repo: Seq<char>,
    revset: Seq<char>,
    ws_path: Seq<char>,
)
    ensures
        leaves(#[trigger] check_working_copy_safety_spec(t, repo, revset, ws_path), t),
        forall|k: int|
            0 <= k <= t.len() ==> replays(
                check_working_copy_safety_spec(t, repo, revset, ws_path),
                t,
                k,
                #[trigger] check_working_copy_safety_spec(t.take(k), repo, revset, ws_path),
            ),
{
    broadcast use {replays_check_emptiness, replays_jj, group_rest};

    reveal(check_working_copy_safety_spec);
}

pub broadcast proof fn replays_target_guard(
    t: Trace,
    params: CloseParamsV,
    info: SyncModeInfoV,
)
    ensures
        leaves(#[trigger] target_guard_spec(t, params, info), t),
        forall|k: int|
            0 <= k <= t.len() ==> replays(
                target_guard_spec(t, params, info),
                t,
                k,
                #[trigger] target_guard_spec(t.take(k), params, info),
            ),
{
    broadcast use {replays_check_working_copy_safety, group_rest};

    reveal(target_guard_spec);
}

pub broadcast proof fn replays_source_warnings(
    t: Trace,
    params: CloseParamsV,
    fate: Seq<char>,
)
    ensures
        leaves(#[trigger] source_warnings_spec(t, params, fate), t),
        forall|k: int|
            0 <= k <= t.len() ==> replays(
                source_warnings_spec(t, params, fate),
                t,
                k,
                #[trigger] source_warnings_spec(t.take(k), params, fate),
            ),
{
    broadcast use {replays_check_revision_safety, group_rest};

    reveal(source_warnings_spec);
}

pub broadcast proof fn replays_workspace_revisions_with_bookmarks(
    t: Trace,
    repo: Seq<char>,
    ws_change_id: Seq<char>,
    default_change_id: Seq<char>,
)
    ensures
        leaves(#[trigger] workspace_revisions_with_bookmarks_spec(
            t,
            repo,
            ws_change_id,
            default_change_id,
        ), t),
        forall|k: int|
            0 <= k <= t.len() ==> replays(
                workspace_revisions_with_bookmarks_spec(
                    t,
                    repo,
                    ws_change_id,
                    default_change_id,
                ),
                t,
                k,
                #[trigger] workspace_revisions_with_bookmarks_spec(
                    t.take(k),
                    repo,
                    ws_change_id,
                    default_change_id,
                ),
            ),
{
    broadcast use {replays_jj, group_rest};

    reveal(workspace_revisions_with_bookmarks_spec);
}

pub broadcast proof fn replays_filled(
    t: Trace,
    repo: Seq<char>,
    default_id: Seq<char>,
    e: WorkspaceEntryV,
)
    ensures
        leaves(#[trigger] filled_spec(t, repo, default_id, e), t),
        forall|k: int|
            0 <= k <= t.len() ==> replays(
                filled_spec(t, repo, default_id, e),
                t,
                k,
                #[trigger] filled_spec(t.take(k), repo, default_id, e),
            ),
{
    broadcast use {replays_workspace_revisions_with_bookmarks, group_rest};

    reveal(filled_spec);
}

pub broadcast proof fn replays_workspace_forget(
    t: Trace,
    repo: Seq<char>,
    ws_path: Seq<char>,
    name: Seq<char>,
)
    ensures
        leaves(#[trigger] workspace_forget_spec(t, repo, ws_path, name), t),
        forall|k: int|
            0 <= k <= t.len() ==> replays(
                workspace_forget_spec(t, repo, ws_path, name),
                t,
                k,
                #[trigger] workspace_forget_spec(t.take(k), repo, ws_path, name),
            ),
{
    broadcast use {replays_jj_done, replays_snapshot_ws, group_rest};

    reveal(workspace_forget_spec);
}

pub broadcast proof fn replays_forget_workspace(
    t: Trace,
    repo: Seq<char>,
    ws_path: Seq<char>,
    ws_name: Seq<char>,
)
    ensures
        leaves(#[trigger] forget_workspace_spec(t, repo, ws_path, ws_name), t),
        forall|k: int|
            0 <= k <= t.len() ==> replays(
                forget_workspace_spec(t, repo, ws_path, ws_name),
                t,
                k,
                #[trigger] forget_workspace_spec(t.take(k), repo, ws_path, ws_name),
            ),
{
    broadcast use {
        replays_is_workspace_stale,
        replays_update_workspace_stale,
        replays_workspace_forget,
        group_rest,
    };

    reveal(forget_workspace_spec);
}

pub broadcast proof fn replays_metaedit_author_in_workspace(
    t: Trace,
    ws_path: Seq<char>,
    author: Seq<char>,
)
    ensures
        leaves(#[trigger] metaedit_author_in_workspace_spec(t, ws_path, author), t),
        forall|k: int|
            0 <= k <= t.len() ==> replays(
                metaedit_author_in_workspace_spec(t, ws_path, author),
                t,
                k,
                #[trigger] metaedit_author_in_workspace_spec(t.take(k), ws_path, author),
            ),
{
    broadcast use {replays_jj_done, group_rest};

    reveal(metaedit_author_in_workspace_spec);
}

pub broadcast proof fn replays_with_author(t: Trace, ws_path: Seq<char>, author: Option<Seq<char>>)
    ensures
        leaves(#[trigger] with_author_spec(t, ws_path, author), t),
        forall|k: int|
            0 <= k <= t.len() ==> replays(
                with_author_spec(t, ws_path, author),
                t,
                k,
                #[trigger] with_author_spec(t.take(k), ws_path, author),
            ),
{
    broadcast use {replays_metaedit_author_in_workspace, group_rest};

    reveal(with_author_spec);
}

pub broadcast proof fn replays_new_merge(
    t: Trace,
    ws_path: Seq<char>,
    parents: Seq<Seq<char>>,
    msg: Seq<char>,
    author: Option<Seq<char>>,
)
    ensures
        leaves(#[trigger] new_merge_spec(t, ws_path, parents, msg, author), t),
        forall|k: int|
            0 <= k <= t.len() ==> replays(
                new_merge_spec(t, ws_path, parents, msg, author),
                t,
                k,
                #[trigger] new_merge_spec(t.take(k), ws_path, parents, msg, author),
            ),
{
    broadcast use {replays_holds, replays_jj, replays_jj_done, replays_with_author, group_rest};

    reveal(new_merge_spec);
}

pub broadcast proof fn replays_check_trivial_head(t: Trace, repo: Seq<char>, revset: Seq<char>)
    ensures
        leaves(#[trigger] check_trivial_head_spec(t, repo, revset), t),
        forall|k: int|
            0 <= k <= t.len() ==> replays(
                check_trivial_head_spec(t, repo, revset),
                t,
                k,
                #[trigger] check_trivial_head_spec(t.take(k), repo, revset),
            ),
{
    broadcast use {replays_is_trivial_description, replays_jj, group_rest};

    reveal(check_trivial_head_spec);
}

pub broadcast proof fn replays_local_bookmarks_on(t: Trace, repo: Seq<char>, revset: Seq<char>)
    ensures
        leaves(#[trigger] local_bookmarks_on_spec(t, repo, revset), t),
        forall|k: int|
            0 <= k <= t.len() ==> replays(
                local_bookmarks_on_spec(t, repo, revset),
                t,
                k,
                #[trigger] local_bookmarks_on_spec(t.take(k), repo, revset),
            ),
{
    broadcast use {replays_jj, group_rest};

    reveal(local_bookmarks_on_spec);
}

pub broadcast proof fn replays_bookmark_set(
    t: Trace,
    repo: Seq<char>,
    bookmark: Seq<char>,
    revision: Seq<char>,
)
    ensures
        leaves(#[trigger] bookmark_set_spec(t, repo, bookmark, revision), t),
        forall|k: int|
            0 <= k <= t.len() ==> replays(
                bookmark_set_spec(t, repo, bookmark, revision),
                t,
                k,
                #[trigger] bookmark_set_spec(t.take(k), repo, bookmark, revision),
            ),
{
    broadcast use {replays_jj_done, group_rest};

    reveal(bookmark_set_spec);
}

pub broadcast proof fn replays_move_bookmarks(
    t: Trace,
    repo: Seq<char>,
    bookmarks: Seq<Seq<char>>,
    parent: Seq<char>,
    id: Seq<char>,
)
    ensures
        leaves(#[trigger] move_bookmarks_spec(t, repo, bookmarks, parent, id), t),
        forall|k: int|
            0 <= k <= t.len() ==> replays(
                move_bookmarks_spec(t, repo, bookmarks, parent, id),
                t,
                k,
                #[trigger] move_bookmarks_spec(t.take(k), repo, bookmarks, parent, id),
            ),
{
    broadcast use {replays_bookmark_set, replays_each, group_rest};

    reveal(move_bookmarks_spec);
}

pub broadcast proof fn replays_vacate(t: Trace, repo: Seq<char>, id: Seq<char>)
    ensures
        leaves(#[trigger] vacate_spec(t, repo, id), t),
        forall|k: int|
            0 <= k <= t.len() ==> replays(
                vacate_spec(t, repo, id),
                t,
                k,
                #[trigger] vacate_spec(t.take(k), repo, id),
            ),
{
    broadcast use {
        replays_local_bookmarks_on,
        replays_move_bookmarks,
        replays_resolve_change_id,
        group_rest,
    };

    reveal(vacate_spec);
}

pub broadcast proof fn replays_abandon_revisions(
    t: Trace,
    repo: Seq<char>,
    change_ids: Seq<Seq<char>>,
)
    ensures
        leaves(#[trigger] abandon_revisions_spec(t, repo, change_ids), t),
        forall|k: int|
            0 <= k <= t.len() ==> replays(
                abandon_revisions_spec(t, repo, change_ids),
                t,
                k,
                #[trigger] abandon_revisions_spec(t.take(k), repo, change_ids),
            ),
{
    broadcast use {replays_jj_done, group_rest};

    reveal(abandon_revisions_spec);
}

pub broadcast proof fn replays_abandon_trivial_heads(
    t: Trace,
    repo: Seq<char>,
    change_ids: Seq<Seq<char>>,
)
    ensures
        leaves(#[trigger] abandon_trivial_heads_spec(t, repo, change_ids), t),
        forall|k: int|
            0 <= k <= t.len() ==> replays(
                abandon_trivial_heads_spec(t, repo, change_ids),
                t,
                k,
                #[trigger] abandon_trivial_heads_spec(t.take(k), repo, change_ids),
            ),
{
    broadcast use {
        replays_abandon_revisions,
        replays_check_trivial_head,
        replays_each,
        replays_vacate,
        group_rest,
    };

    reveal(abandon_trivial_heads_spec);
}

pub broadcast proof fn replays_find_abandon_trivial_heads(
    t: Trace,
    repo: Seq<char>,
    ids: Seq<Seq<char>>,
)
    ensures
        leaves(#[trigger] find_abandon_trivial_heads_spec(t, repo, ids), t),
        forall|k: int|
            0 <= k <= t.len() ==> replays(
                find_abandon_trivial_heads_spec(t, repo, ids),
                t,
                k,
                #[trigger] find_abandon_trivial_heads_spec(t.take(k), repo, ids),
            ),
{
    broadcast use {replays_abandon_trivial_heads, group_rest};

    reveal(find_abandon_trivial_heads_spec);
}

pub broadcast proof fn replays_merge_close(
    t: Trace,
    repo: Seq<char>,
    src: WsRefV,
    tgt: WsRefV,
    author: Option<Seq<char>>,
)
    ensures
        leaves(#[trigger] merge_close_spec(t, repo, src, tgt, author), t),
        forall|k: int|
            0 <= k <= t.len() ==> replays(
                merge_close_spec(t, repo, src, tgt, author),
                t,
                k,
                #[trigger] merge_close_spec(t.take(k), repo, src, tgt, author),
            ),
{
    broadcast use {
        replays_find_abandon_trivial_heads,
        replays_forget_workspace,
        replays_new_merge,
        group_rest,
    };

    reveal(merge_close_spec);
}

pub broadcast proof fn replays_close_by_merge(t: Trace, params: CloseParamsV, info: SyncModeInfoV)
    ensures
        leaves(#[trigger] close_by_merge_spec(t, params, info), t),
        forall|k: int|
            0 <= k <= t.len() ==> replays(
                close_by_merge_spec(t, params, info),
                t,
                k,
                #[trigger] close_by_merge_spec(t.take(k), params, info),
            ),
{
    broadcast use {
        replays_merge_close,
        replays_source_warnings,
        replays_update_workspace_stale,
        group_rest,
    };

    reveal(close_by_merge_spec);
}

pub broadcast proof fn replays_revision_descriptions(t: Trace, repo: Seq<char>, revset: Seq<char>)
    ensures
        leaves(#[trigger] revision_descriptions_spec(t, repo, revset), t),
        forall|k: int|
            0 <= k <= t.len() ==> replays(
                revision_descriptions_spec(t, repo, revset),
                t,
                k,
                #[trigger] revision_descriptions_spec(t.take(k), repo, revset),
            ),
{
    broadcast use {replays_jj, group_rest};

    reveal(revision_descriptions_spec);
}

pub broadcast proof fn replays_squash_into(
    t: Trace,
    repo: Seq<char>,
    from_revset: Seq<char>,
    into_rev: Seq<char>,
    message: Seq<char>,
)
    ensures
        leaves(#[trigger] squash_into_spec(t, repo, from_revset, into_rev, message), t),
        forall|k: int|
            0 <= k <= t.len() ==> replays(
                squash_into_spec(t, repo, from_revset, into_rev, message),
                t,
                k,
                #[trigger] squash_into_spec(t.take(k), repo, from_revset, into_rev, message),
            ),
{
    broadcast use {replays_jj, group_rest};

    reveal(squash_into_spec);
}

pub broadcast proof fn replays_squash_chain(
    t: Trace,
    repo: Seq<char>,
    src_name: Seq<char>,
    src_eff: Seq<char>,
    tgt_name: Seq<char>,
    tgt_eff: Seq<char>,
    lca: Seq<char>,
)
    ensures
        leaves(#[trigger] squash_chain_spec(t, repo, src_name, src_eff, tgt_name, tgt_eff, lca), t),
        forall|k: int|
            0 <= k <= t.len() ==> replays(
                squash_chain_spec(t, repo, src_name, src_eff, tgt_name, tgt_eff, lca),
                t,
                k,
                #[trigger] squash_chain_spec(
                    t.take(k),
                    repo,
                    src_name,
                    src_eff,
                    tgt_name,
                    tgt_eff,
                    lca,
                ),
            ),
{
    broadcast use {
        replays_resolve_change_id,
        replays_revision_descriptions,
        replays_squash_into,
        group_rest,
    };

    reveal(squash_chain_spec);
}

pub broadcast proof fn replays_merge_squash_close(
    t: Trace,
    repo: Seq<char>,
    src: WsRefV,
    tgt: WsRefV,
    lca: Seq<char>,
    author: Option<Seq<char>>,
)
    ensures
        leaves(#[trigger] merge_squash_close_spec(t, repo, src, tgt, lca, author), t),
        forall|k: int|
            0 <= k <= t.len() ==> replays(
                merge_squash_close_spec(t, repo, src, tgt, lca, author),
                t,
                k,
                #[trigger] merge_squash_close_spec(t.take(k), repo, src, tgt, lca, author),
            ),
{
    broadcast use {
        replays_find_abandon_trivial_heads,
        replays_forget_workspace,
        replays_new_merge,
        replays_squash_chain,
        group_rest,
    };

    reveal(merge_squash_close_spec);
}

pub broadcast proof fn replays_close_by_squash(t: Trace, params: CloseParamsV, info: SyncModeInfoV)
    ensures
        leaves(#[trigger] close_by_squash_spec(t, params, info), t),
        forall|k: int|
            0 <= k <= t.len() ==> replays(
                close_by_squash_spec(t, params, info),
                t,
                k,
                #[trigger] close_by_squash_spec(t.take(k), params, info),
            ),
{
    broadcast use {
        replays_merge_squash_close,
        replays_source_warnings,
        replays_update_workspace_stale,
        group_rest,
    };

    reveal(close_by_squash_spec);
}

pub broadcast proof fn replays_edit_workspace_head(t: Trace, ws_path: Seq<char>, commit: Seq<char>)
    ensures
        leaves(#[trigger] edit_workspace_head_spec(t, ws_path, commit), t),
        forall|k: int|
            0 <= k <= t.len() ==> replays(
                edit_workspace_head_spec(t, ws_path, commit),
                t,
                k,
                #[trigger] edit_workspace_head_spec(t.take(k), ws_path, commit),
            ),
{
    broadcast use {replays_jj_done, group_rest};

    reveal(edit_workspace_head_spec);
}

pub broadcast proof fn replays_fast_forward_close(
    t: Trace,
    repo: Seq<char>,
    src: WsRefV,
    tgt_path: Seq<char>,
    tgt_info: WorkspaceHeadInfoV,
)
    ensures
        leaves(#[trigger] fast_forward_close_spec(t, repo, src, tgt_path, tgt_info), t),
        forall|k: int|
            0 <= k <= t.len() ==> replays(
                fast_forward_close_spec(t, repo, src, tgt_path, tgt_info),
                t,
                k,
                #[trigger] fast_forward_close_spec(t.take(k), repo, src, tgt_path, tgt_info),
            ),
{
    broadcast use {
        replays_edit_workspace_head,
        replays_find_abandon_trivial_heads,
        replays_forget_workspace,
        group_rest,
    };

    reveal(fast_forward_close_spec);
}

pub broadcast proof fn replays_close_by_fast_forward(
    t: Trace,
    params: CloseParamsV,
    info: SyncModeInfoV,
)
    ensures
        leaves(#[trigger] close_by_fast_forward_spec(t, params, info), t),
        forall|k: int|
            0 <= k <= t.len() ==> replays(
                close_by_fast_forward_spec(t, params, info),
                t,
                k,
                #[trigger] close_by_fast_forward_spec(t.take(k), params, info),
            ),
{
    broadcast use {
        replays_fast_forward_close,
        replays_target_guard,
        replays_update_workspace_stale,
        group_rest,
    };

    reveal(close_by_fast_forward_spec);
}

pub broadcast proof fn replays_close_by_detaching(t: Trace, params: CloseParamsV)
    ensures
        leaves(#[trigger] close_by_detaching_spec(t, params), t),
        forall|k: int|
            0 <= k <= t.len() ==> replays(
                close_by_detaching_spec(t, params),
                t,
                k,
                #[trigger] close_by_detaching_spec(t.take(k), params),
            ),
{
    broadcast use {
        replays_check_revision_safety,
        replays_find_effective_head,
        replays_forget_workspace,
        group_rest,
    };

    reveal(close_by_detaching_spec);
}

pub broadcast proof fn replays_filter_existing_revisions(
    t: Trace,
    repo: Seq<char>,
    change_ids: Seq<Seq<char>>,
)
    ensures
        leaves(#[trigger] filter_existing_revisions_spec(t, repo, change_ids), t),
        forall|k: int|
            0 <= k <= t.len() ==> replays(
                filter_existing_revisions_spec(t, repo, change_ids),
                t,
                k,
                #[trigger] filter_existing_revisions_spec(t.take(k), repo, change_ids),
            ),
{
    broadcast use {replays_jj, group_rest};

    reveal(filter_existing_revisions_spec);
}

pub broadcast proof fn replays_abandon_surviving(t: Trace, repo: Seq<char>, ids: Seq<Seq<char>>)
    ensures
        leaves(#[trigger] abandon_surviving_spec(t, repo, ids), t),
        forall|k: int|
            0 <= k <= t.len() ==> replays(
                abandon_surviving_spec(t, repo, ids),
                t,
                k,
                #[trigger] abandon_surviving_spec(t.take(k), repo, ids),
            ),
{
    broadcast use {replays_abandon_revisions, replays_filter_existing_revisions, group_rest};

    reveal(abandon_surviving_spec);
}

pub broadcast proof fn replays_close_by_abandoning(t: Trace, params: CloseParamsV)
    ensures
        leaves(#[trigger] close_by_abandoning_spec(t, params), t),
        forall|k: int|
            0 <= k <= t.len() ==> replays(
                close_by_abandoning_spec(t, params),
                t,
                k,
                #[trigger] close_by_abandoning_spec(t.take(k), params),
            ),
{
    broadcast use {
        replays_abandon_surviving,
        replays_check_chain_safety,
        replays_forget_workspace,
        replays_workspace_unique_change_ids,
        group_rest,
    };

    reveal(close_by_abandoning_spec);
}

pub broadcast proof fn replays_execute_close(
    t: Trace,
    params: CloseParamsV,
    operation: Operation,
    info: SyncModeInfoV,
)
    ensures
        leaves(#[trigger] execute_close_spec(t, params, operation, info), t),
        forall|k: int|
            0 <= k <= t.len() ==> replays(
                execute_close_spec(t, params, operation, info),
                t,
                k,
                #[trigger] execute_close_spec(t.take(k), params, operation, info),
            ),
{
    broadcast use {
        replays_close_by_abandoning,
        replays_close_by_detaching,
        replays_close_by_fast_forward,
        replays_close_by_merge,
        replays_close_by_squash,
        group_rest,
    };

    reveal(execute_close_spec);
}

pub broadcast proof fn replays_refresh(t: Trace, path: Seq<char>)
    ensures
        leaves(#[trigger] refresh_spec(t, path), t),
        forall|k: int|
            0 <= k <= t.len() ==> replays(
                refresh_spec(t, path),
                t,
                k,
                #[trigger] refresh_spec(t.take(k), path),
            ),
{
    broadcast use {replays_holds, replays_update_workspace_stale, group_rest};

    reveal(refresh_spec);
}

pub broadcast proof fn replays_resolve_predicted_stale(
    t: Trace,
    predicted: Seq<Seq<char>>,
    ws_paths: Pairs,
)
    ensures
        leaves(#[trigger] resolve_predicted_stale_spec(t, predicted, ws_paths), t),
        forall|k: int|
            0 <= k <= t.len() ==> replays(
                resolve_predicted_stale_spec(t, predicted, ws_paths),
                t,
                k,
                #[trigger] resolve_predicted_stale_spec(t.take(k), predicted, ws_paths),
            ),
{
    broadcast use {replays_each, replays_refresh, group_rest};

    reveal(resolve_predicted_stale_spec);
}

pub broadcast proof fn replays_stale_here(t: Trace, path: Seq<char>)
    ensures
        leaves(#[trigger] stale_here_spec(t, path), t),
        forall|k: int|
            0 <= k <= t.len() ==> replays(
                stale_here_spec(t, path),
                t,
                k,
                #[trigger] stale_here_spec(t.take(k), path),
            ),
{
    broadcast use {replays_holds, replays_is_workspace_stale, group_rest};

    reveal(stale_here_spec);
}

pub broadcast proof fn replays_stale_workspace_names(
    t: Trace,
    workspaces: Seq<(Seq<char>, Seq<char>)>,
)
    ensures
        leaves(#[trigger] stale_workspace_names_spec(t, workspaces), t),
        forall|k: int|
            0 <= k <= t.len() ==> replays(
                stale_workspace_names_spec(t, workspaces),
                t,
                k,
                #[trigger] stale_workspace_names_spec(t.take(k), workspaces),
            ),
{
    broadcast use {replays_each, replays_stale_here, group_rest};

    reveal(stale_workspace_names_spec);
}

pub broadcast proof fn replays_post_op_stale(t: Trace, ws_paths: Pairs, pre_stale: Seq<Seq<char>>)
    ensures
        leaves(#[trigger] post_op_stale_spec(t, ws_paths, pre_stale), t),
        forall|k: int|
            0 <= k <= t.len() ==> replays(
                post_op_stale_spec(t, ws_paths, pre_stale),
                t,
                k,
                #[trigger] post_op_stale_spec(t.take(k), ws_paths, pre_stale),
            ),
{
    broadcast use {replays_stale_workspace_names, group_rest};

    reveal(post_op_stale_spec);
}

pub broadcast proof fn replays_bookmark_change_id(t: Trace, repo: Seq<char>, bookmark: Seq<char>)
    ensures
        leaves(#[trigger] bookmark_change_id_spec(t, repo, bookmark), t),
        forall|k: int|
            0 <= k <= t.len() ==> replays(
                bookmark_change_id_spec(t, repo, bookmark),
                t,
                k,
                #[trigger] bookmark_change_id_spec(t.take(k), repo, bookmark),
            ),
{
    broadcast use {replays_jj, group_rest};

    reveal(bookmark_change_id_spec);
}

pub broadcast proof fn replays_resolve_sanitized_bookmark(
    t: Trace,
    repo: Seq<char>,
    derived: Seq<char>,
)
    ensures
        leaves(#[trigger] resolve_sanitized_bookmark_spec(t, repo, derived), t),
        forall|k: int|
            0 <= k <= t.len() ==> replays(
                resolve_sanitized_bookmark_spec(t, repo, derived),
                t,
                k,
                #[trigger] resolve_sanitized_bookmark_spec(t.take(k), repo, derived),
            ),
{
    broadcast use {replays_bookmark_change_id, replays_jj, group_rest};

    reveal(resolve_sanitized_bookmark_spec);
}

pub broadcast proof fn replays_identify_singular_bookmark(
    t: Trace,
    repo: Seq<char>,
    workspace_path_template: Seq<char>,
    repo_name: Seq<char>,
    ws_name: Seq<char>,
)
    ensures
        leaves(#[trigger] identify_singular_bookmark_spec(
            t,
            repo,
            workspace_path_template,
            repo_name,
            ws_name,
        ), t),
        forall|k: int|
            0 <= k <= t.len() ==> replays(
                identify_singular_bookmark_spec(
                    t,
                    repo,
                    workspace_path_template,
                    repo_name,
                    ws_name,
                ),
                t,
                k,
                #[trigger] identify_singular_bookmark_spec(
                    t.take(k),
                    repo,
                    workspace_path_template,
                    repo_name,
                    ws_name,
                ),
            ),
{
    broadcast use {replays_resolve_sanitized_bookmark, group_rest};

    reveal(identify_singular_bookmark_spec);
}

pub broadcast proof fn replays_bookmark_delete(t: Trace, repo: Seq<char>, bookmark: Seq<char>)
    ensures
        leaves(#[trigger] bookmark_delete_spec(t, repo, bookmark), t),
        forall|k: int|
            0 <= k <= t.len() ==> replays(
                bookmark_delete_spec(t, repo, bookmark),
                t,
                k,
                #[trigger] bookmark_delete_spec(t.take(k), repo, bookmark),
            ),
{
    broadcast use {replays_jj_done, group_rest};

    reveal(bookmark_delete_spec);
}

pub broadcast proof fn replays_delete_singular_bookmark(
    t: Trace,
    repo: Seq<char>,
    workspace_path_template: Seq<char>,
    repo_name: Seq<char>,
    ws_name: Seq<char>,
)
    ensures
        leaves(#[trigger] delete_singular_bookmark_spec(
            t,
            repo,
            workspace_path_template,
            repo_name,
            ws_name,
        ), t),
        forall|k: int|
            0 <= k <= t.len() ==> replays(
                delete_singular_bookmark_spec(
                    t,
                    repo,
                    workspace_path_template,
                    repo_name,
                    ws_name,
                ),
                t,
                k,
                #[trigger] delete_singular_bookmark_spec(
                    t.take(k),
                    repo,
                    workspace_path_template,
                    repo_name,
                    ws_name,
                ),
            ),
{
    broadcast use {replays_bookmark_delete, replays_identify_singular_bookmark, group_rest};

    reveal(delete_singular_bookmark_spec);
}

pub broadcast proof fn replays_advance_singular_bookmark(
    t: Trace,
    repo: Seq<char>,
    workspace_path_template: Seq<char>,
    repo_name: Seq<char>,
    ws_name: Seq<char>,
    target_revision: Seq<char>,
)
    ensures
        leaves(#[trigger] advance_singular_bookmark_spec(
            t,
            repo,
            workspace_path_template,
            repo_name,
            ws_name,
            target_revision,
        ), t),
        forall|k: int|
            0 <= k <= t.len() ==> replays(
                advance_singular_bookmark_spec(
                    t,
                    repo,
                    workspace_path_template,
                    repo_name,
                    ws_name,
                    target_revision,
                ),
                t,
                k,
                #[trigger] advance_singular_bookmark_spec(
                    t.take(k),
                    repo,
                    workspace_path_template,
                    repo_name,
                    ws_name,
                    target_revision,
                ),
            ),
{
    broadcast use {replays_bookmark_set, replays_identify_singular_bookmark, group_rest};

    reveal(advance_singular_bookmark_spec);
}

pub broadcast proof fn replays_advance_to(
    t: Trace,
    repo: Seq<char>,
    workspace_path_template: Seq<char>,
    repo_name: Seq<char>,
    source_name: Seq<char>,
    head: Option<Seq<char>>,
)
    ensures
        leaves(#[trigger] advance_to_spec(
            t,
            repo,
            workspace_path_template,
            repo_name,
            source_name,
            head,
        ), t),
        forall|k: int|
            0 <= k <= t.len() ==> replays(
                advance_to_spec(t, repo, workspace_path_template, repo_name, source_name, head),
                t,
                k,
                #[trigger] advance_to_spec(
                    t.take(k),
                    repo,
                    workspace_path_template,
                    repo_name,
                    source_name,
                    head,
                ),
            ),
{
    broadcast use {replays_advance_singular_bookmark, group_rest};

    reveal(advance_to_spec);
}

pub broadcast proof fn replays_advance_singular_bookmark_to_effective_head(
    t: Trace,
    repo: Seq<char>,
    workspace_path_template: Seq<char>,
    repo_name: Seq<char>,
    ws_name: Seq<char>,
)
    ensures
        leaves(#[trigger] advance_singular_bookmark_to_effective_head_spec(
            t,
            repo,
            workspace_path_template,
            repo_name,
            ws_name,
        ), t),
        forall|k: int|
            0 <= k <= t.len() ==> replays(
                advance_singular_bookmark_to_effective_head_spec(
                    t,
                    repo,
                    workspace_path_template,
                    repo_name,
                    ws_name,
                ),
                t,
                k,
                #[trigger] advance_singular_bookmark_to_effective_head_spec(
                    t.take(k),
                    repo,
                    workspace_path_template,
                    repo_name,
                    ws_name,
                ),
            ),
{
    broadcast use {
        replays_bookmark_set,
        replays_find_effective_head,
        replays_identify_singular_bookmark,
        group_rest,
    };

    reveal(advance_singular_bookmark_to_effective_head_spec);
}

pub broadcast proof fn replays_advance_own(
    t: Trace,
    repo: Seq<char>,
    workspace_path_template: Seq<char>,
    repo_name: Seq<char>,
    ws_name: Seq<char>,
)
    ensures
        leaves(#[trigger] advance_own_spec(t, repo, workspace_path_template, repo_name, ws_name), t),
        forall|k: int|
            0 <= k <= t.len() ==> replays(
                advance_own_spec(t, repo, workspace_path_template, repo_name, ws_name),
                t,
                k,
                #[trigger] advance_own_spec(
                    t.take(k),
                    repo,
                    workspace_path_template,
                    repo_name,
                    ws_name,
                ),
            ),
{
    broadcast use {replays_advance_singular_bookmark_to_effective_head, group_rest};

    reveal(advance_own_spec);
}

pub broadcast proof fn replays_own_bookmarks(
    t: Trace,
    repo: Seq<char>,
    operation: Operation,
    source_name: Seq<char>,
    target_name: Seq<char>,
    close_info: Option<SyncModeInfoV>,
    workspace_path_template: Seq<char>,
    repo_name: Seq<char>,
    given: Option<Seq<char>>,
)
    ensures
        leaves(#[trigger] own_bookmarks_spec(
            t,
            repo,
            operation,
            source_name,
            target_name,
            close_info,
            workspace_path_template,
            repo_name,
            given,
        ), t),
        forall|k: int|
            0 <= k <= t.len() ==> replays(
                own_bookmarks_spec(
                    t,
                    repo,
                    operation,
                    source_name,
                    target_name,
                    close_info,
                    workspace_path_template,
                    repo_name,
                    given,
                ),
                t,
                k,
                #[trigger] own_bookmarks_spec(
                    t.take(k),
                    repo,
                    operation,
                    source_name,
                    target_name,
                    close_info,
                    workspace_path_template,
                    repo_name,
                    given,
                ),
            ),
{
    broadcast use {
        replays_advance_own,
        replays_advance_to,
        replays_delete_singular_bookmark,
        group_rest,
    };

    reveal(own_bookmarks_spec);
}

pub broadcast proof fn replays_post_op_bookmarks(
    t: Trace,
    repo: Seq<char>,
    operation: Operation,
    source_name: Seq<char>,
    target_name: Seq<char>,
    close_info: Option<SyncModeInfoV>,
    workspace_path_template: Seq<char>,
    repo_name: Seq<char>,
    bookmarks: Seq<Seq<char>>,
    src_effective_head_override: Option<Seq<char>>,
)
    ensures
        leaves(#[trigger] post_op_bookmarks_spec(
            t,
            repo,
            operation,
            source_name,
            target_name,
            close_info,
            workspace_path_template,
            repo_name,
            bookmarks,
            src_effective_head_override,
        ), t),
        forall|k: int|
            0 <= k <= t.len() ==> replays(
                post_op_bookmarks_spec(
                    t,
                    repo,
                    operation,
                    source_name,
                    target_name,
                    close_info,
                    workspace_path_template,
                    repo_name,
                    bookmarks,
                    src_effective_head_override,
                ),
                t,
                k,
                #[trigger] post_op_bookmarks_spec(
                    t.take(k),
                    repo,
                    operation,
                    source_name,
                    target_name,
                    close_info,
                    workspace_path_template,
                    repo_name,
                    bookmarks,
                    src_effective_head_override,
                ),
            ),
{
    broadcast use {replays_identify_singular_bookmark, replays_own_bookmarks, group_rest};

    reveal(post_op_bookmarks_spec);
}

pub broadcast proof fn replays_bookmark_set_exact(
    t: Trace,
    repo: Seq<char>,
    bookmark: Seq<char>,
    revision: Seq<char>,
)
    ensures
        leaves(#[trigger] bookmark_set_exact_spec(t, repo, bookmark, revision), t),
        forall|k: int|
            0 <= k <= t.len() ==> replays(
                bookmark_set_exact_spec(t, repo, bookmark, revision),
                t,
                k,
                #[trigger] bookmark_set_exact_spec(t.take(k), repo, bookmark, revision),
            ),
{
    broadcast use {replays_jj_done, group_rest};

    reveal(bookmark_set_exact_spec);
}

pub broadcast proof fn replays_post_op_manual_bookmarks(
    t: Trace,
    repo: Seq<char>,
    bookmarks: Seq<Seq<char>>,
    action: BookmarkAction,
    target_change_id: Seq<char>,
)
    ensures
        leaves(#[trigger] post_op_manual_bookmarks_spec(t, repo, bookmarks, action, target_change_id), t),
        forall|k: int|
            0 <= k <= t.len() ==> replays(
                post_op_manual_bookmarks_spec(t, repo, bookmarks, action, target_change_id),
                t,
                k,
                #[trigger] post_op_manual_bookmarks_spec(
                    t.take(k),
                    repo,
                    bookmarks,
                    action,
                    target_change_id,
                ),
            ),
{
    broadcast use {replays_bookmark_delete, replays_bookmark_set_exact, replays_each, group_rest};

    reveal(post_op_manual_bookmarks_spec);
}

pub broadcast proof fn replays_close_bookmarks(
    t: Trace,
    params: CloseParamsV,
    operation: Operation,
    info: SyncModeInfoV,
    head: Option<Seq<char>>,
)
    ensures
        leaves(#[trigger] close_bookmarks_spec(t, params, operation, info, head), t),
        forall|k: int|
            0 <= k <= t.len() ==> replays(
                close_bookmarks_spec(t, params, operation, info, head),
                t,
                k,
                #[trigger] close_bookmarks_spec(t.take(k), params, operation, info, head),
            ),
{
    broadcast use {replays_post_op_bookmarks, replays_post_op_manual_bookmarks, group_rest};

    reveal(close_bookmarks_spec);
}

pub broadcast proof fn replays_removable(t: Trace, params: CloseParamsV)
    ensures
        leaves(#[trigger] removable_spec(t, params), t),
        forall|k: int|
            0 <= k <= t.len() ==> replays(
                removable_spec(t, params),
                t,
                k,
                #[trigger] removable_spec(t.take(k), params),
            ),
{
    broadcast use {replays_holds, group_rest};

    reveal(removable_spec);
}

pub broadcast proof fn replays_tell(t: Trace, act: Act, msg: Seq<char>)
    ensures
        leaves(#[trigger] tell_spec(t, act, msg), t),
        forall|k: int|
            0 <= k <= t.len() ==> replays(
                tell_spec(t, act, msg),
                t,
                k,
                #[trigger] tell_spec(t.take(k), act, msg),
            ),
{
    broadcast use {replays_ask, group_rest};

}

pub broadcast proof fn replays_tell_stale(t: Trace, stale: Seq<Seq<char>>)
    ensures
        leaves(#[trigger] tell_stale_spec(t, stale), t),
        forall|k: int|
            0 <= k <= t.len() ==> replays(
                tell_stale_spec(t, stale),
                t,
                k,
                #[trigger] tell_stale_spec(t.take(k), stale),
            ),
{
    broadcast use {replays_tell, group_rest};

    reveal(tell_stale_spec);
}

pub broadcast proof fn replays_need(t: Trace, q: RequestV, doing: Seq<char>)
    ensures
        leaves(#[trigger] need_spec(t, q, doing), t),
        forall|k: int|
            0 <= k <= t.len() ==> replays(
                need_spec(t, q, doing),
                t,
                k,
                #[trigger] need_spec(t.take(k), q, doing),
            ),
{
    broadcast use {replays_ask, group_rest};

}

pub broadcast proof fn replays_transfer_guard(
    t: Trace,
    repo: Seq<char>,
    role: Seq<char>,
    ws: WsRefV,
)
    ensures
        leaves(#[trigger] guard_spec(t, repo, role, ws), t),
        forall|k: int|
            0 <= k <= t.len() ==> replays(
                guard_spec(t, repo, role, ws),
                t,
                k,
                #[trigger] guard_spec(t.take(k), repo, role, ws),
            ),
{
    broadcast use {replays_check_working_copy_safety, group_rest};

    reveal(guard_spec);
}

pub broadcast proof fn replays_make_head(
    t: Trace,
    repo: Seq<char>,
    ws_name: Seq<char>,
    ws_path: Seq<char>,
    parent: Option<Seq<char>>,
    op: Op,
    desc: Option<Seq<char>>,
    author: Option<Seq<char>>,
)
    ensures
        leaves(#[trigger] make_head_spec(t, repo, ws_name, ws_path, parent, op, desc, author), t),
        forall|k: int|
            0 <= k <= t.len() ==> replays(
                make_head_spec(t, repo, ws_name, ws_path, parent, op, desc, author),
                t,
                k,
                #[trigger] make_head_spec(
                    t.take(k),
                    repo,
                    ws_name,
                    ws_path,
                    parent,
                    op,
                    desc,
                    author,
                ),
            ),
{
    broadcast use {replays_jj_done, replays_resolve_change_id, replays_with_author, group_rest};

    reveal(make_head_spec);
}

pub broadcast proof fn replays_fast_forward(
    t: Trace,
    repo: Seq<char>,
    behind: WsRefV,
    ahead_name: Seq<char>,
    ahead_head: Seq<char>,
    author: Option<Seq<char>>,
)
    ensures
        leaves(#[trigger] fast_forward_spec(t, repo, behind, ahead_name, ahead_head, author), t),
        forall|k: int|
            0 <= k <= t.len() ==> replays(
                fast_forward_spec(t, repo, behind, ahead_name, ahead_head, author),
                t,
                k,
                #[trigger] fast_forward_spec(
                    t.take(k),
                    repo,
                    behind,
                    ahead_name,
                    ahead_head,
                    author,
                ),
            ),
{
    broadcast use {replays_find_abandon_trivial_heads, replays_make_head, group_rest};

    reveal(fast_forward_spec);
}

pub broadcast proof fn replays_is_trivial_head(t: Trace, repo: Seq<char>, revset: Seq<char>)
    ensures
        leaves(#[trigger] is_trivial_head_spec(t, repo, revset), t),
        forall|k: int|
            0 <= k <= t.len() ==> replays(
                is_trivial_head_spec(t, repo, revset),
                t,
                k,
                #[trigger] is_trivial_head_spec(t.take(k), repo, revset),
            ),
{
    broadcast use {replays_check_trivial_head, group_rest};

    reveal(is_trivial_head_spec);
}

pub broadcast proof fn replays_step_head(
    t: Trace,
    repo: Seq<char>,
    ws_name: Seq<char>,
    ws_path: Seq<char>,
    desc: Option<Seq<char>>,
    author: Option<Seq<char>>,
)
    ensures
        leaves(#[trigger] step_head_spec(t, repo, ws_name, ws_path, desc, author), t),
        forall|k: int|
            0 <= k <= t.len() ==> replays(
                step_head_spec(t, repo, ws_name, ws_path, desc, author),
                t,
                k,
                #[trigger] step_head_spec(t.take(k), repo, ws_name, ws_path, desc, author),
            ),
{
    broadcast use {
        replays_is_trivial_head,
        replays_jj_done,
        replays_resolve_change_id,
        replays_with_author,
        group_rest,
    };

    reveal(step_head_spec);
}

pub broadcast proof fn replays_transfer_forward(
    t: Trace,
    repo: Seq<char>,
    role: Seq<char>,
    behind: WsRefV,
    ahead: WsRefV,
    author: Option<Seq<char>>,
)
    ensures
        leaves(#[trigger] forward_spec(t, repo, role, behind, ahead, author), t),
        forall|k: int|
            0 <= k <= t.len() ==> replays(
                forward_spec(t, repo, role, behind, ahead, author),
                t,
                k,
                #[trigger] forward_spec(
                    t.take(k),
                    repo,
                    role,
                    behind,
                    ahead,
                    author,
                ),
            ),
{
    broadcast use {replays_fast_forward, replays_step_head, replays_transfer_guard, group_rest};

    reveal(forward_spec);
}

pub broadcast proof fn replays_progress_workspace(
    t: Trace,
    ws_path: Seq<char>,
    msg: Seq<char>,
    author: Option<Seq<char>>,
)
    ensures
        leaves(#[trigger] progress_workspace_spec(t, ws_path, msg, author), t),
        forall|k: int|
            0 <= k <= t.len() ==> replays(
                progress_workspace_spec(t, ws_path, msg, author),
                t,
                k,
                #[trigger] progress_workspace_spec(t.take(k), ws_path, msg, author),
            ),
{
    broadcast use {replays_holds, replays_jj_done, replays_with_author, group_rest};

    reveal(progress_workspace_spec);
}

pub broadcast proof fn replays_new_on_in_workspace(
    t: Trace,
    ws_path: Seq<char>,
    revision: Seq<char>,
    msg: Seq<char>,
    author: Option<Seq<char>>,
)
    ensures
        leaves(#[trigger] new_on_in_workspace_spec(t, ws_path, revision, msg, author), t),
        forall|k: int|
            0 <= k <= t.len() ==> replays(
                new_on_in_workspace_spec(t, ws_path, revision, msg, author),
                t,
                k,
                #[trigger] new_on_in_workspace_spec(t.take(k), ws_path, revision, msg, author),
            ),
{
    broadcast use {replays_holds, replays_jj_done, replays_with_author, group_rest};

    reveal(new_on_in_workspace_spec);
}

pub broadcast proof fn replays_step_both(
    t: Trace,
    src: WsRefV,
    tgt: WsRefV,
    merge_id: Seq<char>,
    author: Option<Seq<char>>,
)
    ensures
        leaves(#[trigger] step_both_spec(t, src, tgt, merge_id, author), t),
        forall|k: int|
            0 <= k <= t.len() ==> replays(
                step_both_spec(t, src, tgt, merge_id, author),
                t,
                k,
                #[trigger] step_both_spec(t.take(k), src, tgt, merge_id, author),
            ),
{
    broadcast use {replays_new_on_in_workspace, replays_progress_workspace, group_rest};

    reveal(step_both_spec);
}

pub broadcast proof fn replays_merge(
    t: Trace,
    repo: Seq<char>,
    src: WsRefV,
    tgt: WsRefV,
    author: Option<Seq<char>>,
)
    ensures
        leaves(#[trigger] merge_spec(t, repo, src, tgt, author), t),
        forall|k: int|
            0 <= k <= t.len() ==> replays(
                merge_spec(t, repo, src, tgt, author),
                t,
                k,
                #[trigger] merge_spec(t.take(k), repo, src, tgt, author),
            ),
{
    broadcast use {
        replays_find_abandon_trivial_heads,
        replays_new_merge,
        replays_snapshot_ws,
        replays_step_both,
        group_rest,
    };

    reveal(merge_spec);
}

pub broadcast proof fn replays_merge_abandon_parents_old(
    t: Trace,
    repo: Seq<char>,
    src: WsRefV,
    tgt: WsRefV,
    author: Option<Seq<char>>,
)
    ensures
        leaves(#[trigger] merge_abandon_parents_old_spec(t, repo, src, tgt, author), t),
        forall|k: int|
            0 <= k <= t.len() ==> replays(
                merge_abandon_parents_old_spec(t, repo, src, tgt, author),
                t,
                k,
                #[trigger] merge_abandon_parents_old_spec(t.take(k), repo, src, tgt, author),
            ),
{
    broadcast use {
        replays_find_abandon_trivial_heads,
        replays_new_merge,
        replays_new_on_in_workspace,
        replays_snapshot_ws,
        group_rest,
    };

    reveal(merge_abandon_parents_old_spec);
}

pub broadcast proof fn replays_rebase_source(
    t: Trace,
    repo: Seq<char>,
    source_revset: Seq<char>,
    onto: Seq<char>,
)
    ensures
        leaves(#[trigger] rebase_source_spec(t, repo, source_revset, onto), t),
        forall|k: int|
            0 <= k <= t.len() ==> replays(
                rebase_source_spec(t, repo, source_revset, onto),
                t,
                k,
                #[trigger] rebase_source_spec(t.take(k), repo, source_revset, onto),
            ),
{
    broadcast use {replays_jj, group_rest};

    reveal(rebase_source_spec);
}

pub broadcast proof fn replays_rebase(
    t: Trace,
    repo: Seq<char>,
    src_info: WorkspaceHeadInfoV,
    tgt: WsRefV,
    lca: Seq<char>,
    author: Option<Seq<char>>,
)
    ensures
        leaves(#[trigger] rebase_spec(t, repo, src_info, tgt, lca, author), t),
        forall|k: int|
            0 <= k <= t.len() ==> replays(
                rebase_spec(t, repo, src_info, tgt, lca, author),
                t,
                k,
                #[trigger] rebase_spec(t.take(k), repo, src_info, tgt, lca, author),
            ),
{
    broadcast use {replays_rebase_source, replays_step_head, group_rest};

    reveal(rebase_spec);
}

pub broadcast proof fn replays_merge_squash(
    t: Trace,
    repo: Seq<char>,
    src: WsRefV,
    tgt: WsRefV,
    lca: Seq<char>,
    author: Option<Seq<char>>,
)
    ensures
        leaves(#[trigger] merge_squash_spec(t, repo, src, tgt, lca, author), t),
        forall|k: int|
            0 <= k <= t.len() ==> replays(
                merge_squash_spec(t, repo, src, tgt, lca, author),
                t,
                k,
                #[trigger] merge_squash_spec(t.take(k), repo, src, tgt, lca, author),
            ),
{
    broadcast use {
        replays_find_abandon_trivial_heads,
        replays_new_merge,
        replays_snapshot_ws,
        replays_squash_chain,
        replays_step_both,
        group_rest,
    };

    reveal(merge_squash_spec);
}

pub broadcast proof fn replays_execute_transfer(
    t: Trace,
    params: TransferParamsV,
    operation: Operation,
    info: SyncModeInfoV,
)
    ensures
        leaves(#[trigger] execute_transfer_spec(t, params, operation, info), t),
        forall|k: int|
            0 <= k <= t.len() ==> replays(
                execute_transfer_spec(t, params, operation, info),
                t,
                k,
                #[trigger] execute_transfer_spec(t.take(k), params, operation, info),
            ),
{
    broadcast use {
        replays_merge,
        replays_merge_abandon_parents_old,
        replays_merge_squash,
        replays_rebase,
        replays_transfer_forward,
        group_rest,
    };

    reveal(execute_transfer_spec);
}

pub broadcast proof fn replays_jj_output(
    t: Trace,
    act: Act,
    at: Seq<char>,
    args: Seq<Seq<char>>,
    label: Seq<char>,
    doing: Seq<char>,
)
    ensures
        leaves(#[trigger] jj_output_spec(t, act, at, args, label, doing), t),
        forall|k: int|
            0 <= k <= t.len() ==> replays(
                jj_output_spec(t, act, at, args, label, doing),
                t,
                k,
                #[trigger] jj_output_spec(t.take(k), act, at, args, label, doing),
            ),
{
    broadcast use {replays_ask, group_rest};

}

pub broadcast proof fn replays_utf8(t: Trace, r: ReplyV, doing: Seq<char>)
    ensures
        leaves(#[trigger] utf8_spec(t, r, doing), t),
        forall|k: int|
            0 <= k <= t.len() ==> replays(
                utf8_spec(t, r, doing),
                t,
                k,
                #[trigger] utf8_spec(t.take(k), r, doing),
            ),
{
    broadcast use {group_rest};

}

pub broadcast proof fn replays_tracked_files(t: Trace, ws_path: Seq<char>)
    ensures
        leaves(#[trigger] tracked_files_spec(t, ws_path), t),
        forall|k: int|
            0 <= k <= t.len() ==> replays(
                tracked_files_spec(t, ws_path),
                t,
                k,
                #[trigger] tracked_files_spec(t.take(k), ws_path),
            ),
{
    broadcast use {replays_jj_output, replays_utf8, group_rest};

    reveal(tracked_files_spec);
}

pub broadcast proof fn replays_bytes(t: Trace, q: RequestV)
    ensures
        leaves(#[trigger] bytes_spec(t, q), t),
        forall|k: int|
            0 <= k <= t.len() ==> replays(
                bytes_spec(t, q),
                t,
                k,
                #[trigger] bytes_spec(t.take(k), q),
            ),
{
    broadcast use {replays_ask, group_rest};

}

pub broadcast proof fn replays_hash(t: Trace, path: Seq<char>)
    ensures
        leaves(#[trigger] hash_spec(t, path), t),
        forall|k: int|
            0 <= k <= t.len() ==> replays(
                hash_spec(t, path),
                t,
                k,
                #[trigger] hash_spec(t.take(k), path),
            ),
{
    broadcast use {replays_bytes, group_rest};

}

pub broadcast proof fn replays_capture_file(
    t: Trace,
    ws_name: Seq<char>,
    ws_path: Seq<char>,
    rel: Seq<char>,
)
    ensures
        leaves(#[trigger] capture_file_spec(t, ws_name, ws_path, rel), t),
        forall|k: int|
            0 <= k <= t.len() ==> replays(
                capture_file_spec(t, ws_name, ws_path, rel),
                t,
                k,
                #[trigger] capture_file_spec(t.take(k), ws_name, ws_path, rel),
            ),
{
    broadcast use {replays_ask, replays_bytes, replays_hash, group_rest};

    reveal(capture_file_spec);
}

pub broadcast proof fn replays_capture_ws(
    t: Trace,
    g: XattrGuardV,
    ws_name: Seq<char>,
    ws_path: Seq<char>,
)
    ensures
        leaves(#[trigger] capture_ws_spec(t, g, ws_name, ws_path), t),
        forall|k: int|
            0 <= k <= t.len() ==> replays(
                capture_ws_spec(t, g, ws_name, ws_path),
                t,
                k,
                #[trigger] capture_ws_spec(t.take(k), g, ws_name, ws_path),
            ),
{
    broadcast use {replays_capture_file, replays_each, replays_tracked_files, group_rest};

    reveal(capture_ws_spec);
}

pub broadcast proof fn replays_capture(t: Trace, ws_paths: Pairs, restore_enabled: bool)
    ensures
        leaves(#[trigger] capture_spec(t, ws_paths, restore_enabled), t),
        forall|k: int|
            0 <= k <= t.len() ==> replays(
                capture_spec(t, ws_paths, restore_enabled),
                t,
                k,
                #[trigger] capture_spec(t.take(k), ws_paths, restore_enabled),
            ),
{
    broadcast use {replays_capture_ws, replays_each, group_rest};

    reveal(capture_spec);
}

pub broadcast proof fn replays_set_xattr(t: Trace, path: Seq<char>, name: Seq<char>, value: Seq<u8>)
    ensures
        leaves(#[trigger] set_xattr_spec(t, path, name, value), t),
        forall|k: int|
            0 <= k <= t.len() ==> replays(
                set_xattr_spec(t, path, name, value),
                t,
                k,
                #[trigger] set_xattr_spec(t.take(k), path, name, value),
            ),
{
    broadcast use {replays_ask, group_rest};

    reveal(set_xattr_spec);
}

pub broadcast proof fn replays_put_back(
    t: Trace,
    path: Seq<char>,
    label: Seq<char>,
    name: Seq<char>,
    value: Option<Seq<u8>>,
)
    ensures
        leaves(#[trigger] put_back_spec(t, path, label, name, value), t),
        forall|k: int|
            0 <= k <= t.len() ==> replays(
                put_back_spec(t, path, label, name, value),
                t,
                k,
                #[trigger] put_back_spec(t.take(k), path, label, name, value),
            ),
{
    broadcast use {replays_set_xattr, group_rest};

    reveal(put_back_spec);
}

pub broadcast proof fn replays_apply(
    t: Trace,
    enabled: bool,
    path: Seq<char>,
    label: Seq<char>,
    c: CandidateV,
    finder_info_only: bool,
)
    ensures
        leaves(#[trigger] apply_spec(t, enabled, path, label, c, finder_info_only), t),
        forall|k: int|
            0 <= k <= t.len() ==> replays(
                apply_spec(t, enabled, path, label, c, finder_info_only),
                t,
                k,
                #[trigger] apply_spec(t.take(k), enabled, path, label, c, finder_info_only),
            ),
{
    broadcast use {replays_put_back, group_rest};

    reveal(apply_spec);
}

pub broadcast proof fn replays_carry_out(
    t: Trace,
    enabled: bool,
    path: Seq<char>,
    label: Seq<char>,
    plan: PlanV,
)
    ensures
        leaves(#[trigger] carry_out_spec(t, enabled, path, label, plan), t),
        forall|k: int|
            0 <= k <= t.len() ==> replays(
                carry_out_spec(t, enabled, path, label, plan),
                t,
                k,
                #[trigger] carry_out_spec(t.take(k), enabled, path, label, plan),
            ),
{
    broadcast use {replays_apply, group_rest};

}

pub broadcast proof fn replays_process_file(
    t: Trace,
    g: XattrGuardV,
    ws_name: Seq<char>,
    ws_path: Seq<char>,
    rel: Seq<char>,
)
    ensures
        leaves(#[trigger] process_file_spec(t, g, ws_name, ws_path, rel), t),
        forall|k: int|
            0 <= k <= t.len() ==> replays(
                process_file_spec(t, g, ws_name, ws_path, rel),
                t,
                k,
                #[trigger] process_file_spec(t.take(k), g, ws_name, ws_path, rel),
            ),
{
    broadcast use {replays_ask, replays_bytes, replays_carry_out, replays_hash, group_rest};

    reveal(process_file_spec);
}

pub broadcast proof fn replays_restore(t: Trace, g: XattrGuardV, ws_paths: Pairs)
    ensures
        leaves(#[trigger] restore_spec(t, g, ws_paths), t),
        forall|k: int|
            0 <= k <= t.len() ==> replays(
                restore_spec(t, g, ws_paths),
                t,
                k,
                #[trigger] restore_spec(t.take(k), g, ws_paths),
            ),
{
    broadcast use {replays_ask, replays_each, replays_process_file, group_rest};

    reveal(restore_spec);
}

pub broadcast proof fn replays_advance_both(
    t: Trace,
    repo: Seq<char>,
    src_name: Seq<char>,
    tgt_name: Seq<char>,
    workspace_path_template: Seq<char>,
    repo_name: Seq<char>,
)
    ensures
        leaves(#[trigger] advance_both_spec(
            t,
            repo,
            src_name,
            tgt_name,
            workspace_path_template,
            repo_name,
        ), t),
        forall|k: int|
            0 <= k <= t.len() ==> replays(
                advance_both_spec(
                    t,
                    repo,
                    src_name,
                    tgt_name,
                    workspace_path_template,
                    repo_name,
                ),
                t,
                k,
                #[trigger] advance_both_spec(
                    t.take(k),
                    repo,
                    src_name,
                    tgt_name,
                    workspace_path_template,
                    repo_name,
                ),
            ),
{
    broadcast use {replays_advance_singular_bookmark_to_effective_head, group_rest};

    reveal(advance_both_spec);
}

pub broadcast proof fn replays_operations_guard(t: Trace, repo: Seq<char>, ws: WsRefV)
    ensures
        leaves(#[trigger] crate::operations::guard_spec(t, repo, ws), t),
        forall|k: int|
            0 <= k <= t.len() ==> replays(
                crate::operations::guard_spec(t, repo, ws),
                t,
                k,
                #[trigger] crate::operations::guard_spec(t.take(k), repo, ws),
            ),
{
    broadcast use {replays_check_working_copy_safety, group_rest};

    reveal(crate::operations::guard_spec);
}

pub broadcast proof fn replays_operations_forward(
    t: Trace,
    repo: Seq<char>,
    behind: WsRefV,
    ahead: WsRefV,
    author: Option<Seq<char>>,
)
    ensures
        leaves(#[trigger] crate::operations::forward_spec(t, repo, behind, ahead, author), t),
        forall|k: int|
            0 <= k <= t.len() ==> replays(
                crate::operations::forward_spec(t, repo, behind, ahead, author),
                t,
                k,
                #[trigger] crate::operations::forward_spec(
                    t.take(k),
                    repo,
                    behind,
                    ahead,
                    author,
                ),
            ),
{
    broadcast use {replays_fast_forward, replays_operations_guard, replays_step_head, group_rest};

    reveal(crate::operations::forward_spec);
}

pub broadcast proof fn replays_operations_sync(
    t: Trace,
    repo: Seq<char>,
    src: WsRefV,
    tgt: WsRefV,
    author: Option<Seq<char>>,
)
    ensures
        leaves(#[trigger] sync_spec(t, repo, src, tgt, author), t),
        forall|k: int|
            0 <= k <= t.len() ==> replays(
                sync_spec(t, repo, src, tgt, author),
                t,
                k,
                #[trigger] sync_spec(t.take(k), repo, src, tgt, author),
            ),
{
    broadcast use {
        replays_last_common_ancestor,
        replays_merge,
        replays_operations_forward,
        group_rest,
    };

    reveal(sync_spec);
}

pub broadcast proof fn replays_is_head(t: Trace, repo: Seq<char>, revset: Seq<char>)
    ensures
        leaves(#[trigger] is_head_spec(t, repo, revset), t),
        forall|k: int|
            0 <= k <= t.len() ==> replays(
                is_head_spec(t, repo, revset),
                t,
                k,
                #[trigger] is_head_spec(t.take(k), repo, revset),
            ),
{
    broadcast use {replays_jj, group_rest};

    reveal(is_head_spec);
}

pub broadcast proof fn replays_junction(
    t: Trace,
    repo: Seq<char>,
    source_ws_path: Seq<char>,
    branch_rev: Seq<char>,
    author: Option<Seq<char>>,
)
    ensures
        leaves(#[trigger] junction_spec(t, repo, source_ws_path, branch_rev, author), t),
        forall|k: int|
            0 <= k <= t.len() ==> replays(
                junction_spec(t, repo, source_ws_path, branch_rev, author),
                t,
                k,
                #[trigger] junction_spec(t.take(k), repo, source_ws_path, branch_rev, author),
            ),
{
    broadcast use {
        replays_is_head,
        replays_is_trivial_head,
        replays_progress_workspace,
        replays_resolve_change_id,
        replays_snapshot_ws,
        group_rest,
    };

    reveal(junction_spec);
}

pub broadcast proof fn replays_create_workspace(
    t: Trace,
    repo: Seq<char>,
    path: Seq<char>,
    revision: Seq<char>,
    msg: Seq<char>,
)
    ensures
        leaves(#[trigger] crate::revisions::create_workspace_spec(t, repo, path, revision, msg), t),
        forall|k: int|
            0 <= k <= t.len() ==> replays(
                crate::revisions::create_workspace_spec(t, repo, path, revision, msg),
                t,
                k,
                #[trigger] crate::revisions::create_workspace_spec(
                    t.take(k),
                    repo,
                    path,
                    revision,
                    msg,
                ),
            ),
{
    broadcast use {replays_jj_done, replays_need, group_rest};

    reveal(crate::revisions::create_workspace_spec);
}

pub broadcast proof fn replays_operations_create_workspace(
    t: Trace,
    repo: Seq<char>,
    source_ws_path: Seq<char>,
    branch_rev: Seq<char>,
    new_ws_path: Seq<char>,
    msg: Seq<char>,
    author: Option<Seq<char>>,
)
    ensures
        leaves(#[trigger] create_workspace_spec(
            t,
            repo,
            source_ws_path,
            branch_rev,
            new_ws_path,
            msg,
            author,
        ), t),
        forall|k: int|
            0 <= k <= t.len() ==> replays(
                create_workspace_spec(
                    t,
                    repo,
                    source_ws_path,
                    branch_rev,
                    new_ws_path,
                    msg,
                    author,
                ),
                t,
                k,
                #[trigger] create_workspace_spec(
                    t.take(k),
                    repo,
                    source_ws_path,
                    branch_rev,
                    new_ws_path,
                    msg,
                    author,
                ),
            ),
{
    broadcast use {replays_create_workspace, replays_junction, group_rest};

    reveal(create_workspace_spec);
}

pub broadcast proof fn replays_restore_new(
    t: Trace,
    g: XattrGuardV,
    ws_name: Seq<char>,
    ws_path: Seq<char>,
)
    ensures
        leaves(#[trigger] restore_new_spec(t, g, ws_name, ws_path), t),
        forall|k: int|
            0 <= k <= t.len() ==> replays(
                restore_new_spec(t, g, ws_name, ws_path),
                t,
                k,
                #[trigger] restore_new_spec(t.take(k), g, ws_name, ws_path),
            ),
{
    broadcast use {
        replays_ask,
        replays_each,
        replays_process_file,
        replays_tracked_files,
        group_rest,
    };

    reveal(restore_new_spec);
}

pub broadcast proof fn replays_heal(
    t: Trace,
    guard: XattrGuardV,
    source: Pairs,
    ws_name: Seq<char>,
    ws_path: Seq<char>,
)
    ensures
        leaves(#[trigger] heal_spec(t, guard, source, ws_name, ws_path), t),
        forall|k: int|
            0 <= k <= t.len() ==> replays(
                heal_spec(t, guard, source, ws_name, ws_path),
                t,
                k,
                #[trigger] heal_spec(t.take(k), guard, source, ws_name, ws_path),
            ),
{
    broadcast use {replays_restore, replays_restore_new, group_rest};

    reveal(heal_spec);
}

pub broadcast proof fn replays_create_bookmark(
    t: Trace,
    repo: Seq<char>,
    ws_name: Seq<char>,
    bookmark_name: Seq<char>,
)
    ensures
        leaves(#[trigger] create_bookmark_spec(t, repo, ws_name, bookmark_name), t),
        forall|k: int|
            0 <= k <= t.len() ==> replays(
                create_bookmark_spec(t, repo, ws_name, bookmark_name),
                t,
                k,
                #[trigger] create_bookmark_spec(t.take(k), repo, ws_name, bookmark_name),
            ),
{
    broadcast use {replays_jj_done, group_rest};

    reveal(create_bookmark_spec);
}

pub broadcast proof fn replays_path_vars(
    t: Trace,
    repo_root: Seq<char>,
    bookmark: Seq<char>,
    repo_name: Seq<char>,
)
    ensures
        leaves(#[trigger] path_vars_spec(t, repo_root, bookmark, repo_name), t),
        forall|k: int|
            0 <= k <= t.len() ==> replays(
                path_vars_spec(t, repo_root, bookmark, repo_name),
                t,
                k,
                #[trigger] path_vars_spec(t.take(k), repo_root, bookmark, repo_name),
            ),
{
    broadcast use {replays_fetch, group_rest};

    reveal(path_vars_spec);
}

pub broadcast proof fn replays_hook_vars(
    t: Trace,
    repo: Seq<char>,
    ws_path: Seq<char>,
    ws_name: Seq<char>,
    bookmark: Seq<char>,
    repo_name: Seq<char>,
)
    ensures
        leaves(#[trigger] hook_vars_spec(t, repo, ws_path, ws_name, bookmark, repo_name), t),
        forall|k: int|
            0 <= k <= t.len() ==> replays(
                hook_vars_spec(t, repo, ws_path, ws_name, bookmark, repo_name),
                t,
                k,
                #[trigger] hook_vars_spec(
                    t.take(k),
                    repo,
                    ws_path,
                    ws_name,
                    bookmark,
                    repo_name,
                ),
            ),
{
    broadcast use {replays_jj, replays_path_vars, group_rest};

    reveal(hook_vars_spec);
}

pub broadcast proof fn replays_say(t: Trace, quiet: bool, msg: Seq<char>)
    ensures
        leaves(#[trigger] say_spec(t, quiet, msg), t),
        forall|k: int|
            0 <= k <= t.len() ==> replays(
                say_spec(t, quiet, msg),
                t,
                k,
                #[trigger] say_spec(t.take(k), quiet, msg),
            ),
{
    broadcast use {replays_tell, group_rest};

}

pub broadcast proof fn replays_write_one(
    t: Trace,
    ws_root: Seq<char>,
    rel_path: Seq<char>,
    content: Seq<char>,
    quiet: bool,
)
    ensures
        leaves(#[trigger] write_one_spec(t, ws_root, rel_path, content, quiet), t),
        forall|k: int|
            0 <= k <= t.len() ==> replays(
                write_one_spec(t, ws_root, rel_path, content, quiet),
                t,
                k,
                #[trigger] write_one_spec(t.take(k), ws_root, rel_path, content, quiet),
            ),
{
    broadcast use {replays_need, replays_say, group_rest};

    reveal(write_one_spec);
}

pub broadcast proof fn replays_write_templates(
    t: Trace,
    templates: Pairs,
    vars: Pairs,
    ws_root: Seq<char>,
    quiet: bool,
)
    ensures
        leaves(#[trigger] write_templates_spec(t, templates, vars, ws_root, quiet), t),
        forall|k: int|
            0 <= k <= t.len() ==> replays(
                write_templates_spec(t, templates, vars, ws_root, quiet),
                t,
                k,
                #[trigger] write_templates_spec(t.take(k), templates, vars, ws_root, quiet),
            ),
{
    broadcast use {replays_each, replays_write_one, group_rest};

    reveal(write_templates_spec);
}

pub broadcast proof fn replays_run_one(
    t: Trace,
    label: Seq<char>,
    name: Seq<char>,
    cmd: Seq<char>,
    cwd: Seq<char>,
    quiet: bool,
)
    ensures
        leaves(#[trigger] run_one_spec(t, label, name, cmd, cwd, quiet), t),
        forall|k: int|
            0 <= k <= t.len() ==> replays(
                run_one_spec(t, label, name, cmd, cwd, quiet),
                t,
                k,
                #[trigger] run_one_spec(t.take(k), label, name, cmd, cwd, quiet),
            ),
{
    broadcast use {replays_ask, replays_say, group_rest};

    reveal(run_one_spec);
}

pub broadcast proof fn replays_run_blocking(
    t: Trace,
    label: Seq<char>,
    hooks: Pairs,
    vars: Pairs,
    cwd: Seq<char>,
    quiet: bool,
)
    ensures
        leaves(#[trigger] run_blocking_spec(t, label, hooks, vars, cwd, quiet), t),
        forall|k: int|
            0 <= k <= t.len() ==> replays(
                run_blocking_spec(t, label, hooks, vars, cwd, quiet),
                t,
                k,
                #[trigger] run_blocking_spec(t.take(k), label, hooks, vars, cwd, quiet),
            ),
{
    broadcast use {replays_each, replays_run_one, group_rest};

    reveal(run_blocking_spec);
}

pub broadcast proof fn replays_start_one(
    t: Trace,
    label: Seq<char>,
    name: Seq<char>,
    cmd: Seq<char>,
    cwd: Seq<char>,
    quiet: bool,
)
    ensures
        leaves(#[trigger] start_one_spec(t, label, name, cmd, cwd, quiet), t),
        forall|k: int|
            0 <= k <= t.len() ==> replays(
                start_one_spec(t, label, name, cmd, cwd, quiet),
                t,
                k,
                #[trigger] start_one_spec(t.take(k), label, name, cmd, cwd, quiet),
            ),
{
    broadcast use {replays_ask, replays_say, group_rest};

    reveal(start_one_spec);
}

pub broadcast proof fn replays_run_background(
    t: Trace,
    label: Seq<char>,
    hooks: Pairs,
    vars: Pairs,
    cwd: Seq<char>,
    quiet: bool,
)
    ensures
        leaves(#[trigger] run_background_spec(t, label, hooks, vars, cwd, quiet), t),
        forall|k: int|
            0 <= k <= t.len() ==> replays(
                run_background_spec(t, label, hooks, vars, cwd, quiet),
                t,
                k,
                #[trigger] run_background_spec(t.take(k), label, hooks, vars, cwd, quiet),
            ),
{
    broadcast use {replays_each, replays_start_one, group_rest};

    reveal(run_background_spec);
}

pub broadcast proof fn replays_start(
    t: Trace,
    config: ConfigV,
    vars: Pairs,
    ws_path: Seq<char>,
    quiet: bool,
)
    ensures
        leaves(#[trigger] start_spec(t, config, vars, ws_path, quiet), t),
        forall|k: int|
            0 <= k <= t.len() ==> replays(
                start_spec(t, config, vars, ws_path, quiet),
                t,
                k,
                #[trigger] start_spec(t.take(k), config, vars, ws_path, quiet),
            ),
{
    broadcast use {
        replays_run_background,
        replays_run_blocking,
        replays_write_templates,
        group_rest,
    };

    reveal(start_spec);
}

pub broadcast proof fn replays_dress(
    t: Trace,
    repo_root: Seq<char>,
    config: ConfigV,
    repo_name: Seq<char>,
    bookmark: Seq<char>,
    ws_path: Seq<char>,
    ws_name: Seq<char>,
    quiet: bool,
)
    ensures
        leaves(#[trigger] dress_spec(
            t,
            repo_root,
            config,
            repo_name,
            bookmark,
            ws_path,
            ws_name,
            quiet,
        ), t),
        forall|k: int|
            0 <= k <= t.len() ==> replays(
                dress_spec(t, repo_root, config, repo_name, bookmark, ws_path, ws_name, quiet),
                t,
                k,
                #[trigger] dress_spec(
                    t.take(k),
                    repo_root,
                    config,
                    repo_name,
                    bookmark,
                    ws_path,
                    ws_name,
                    quiet,
                ),
            ),
{
    broadcast use {replays_create_bookmark, replays_hook_vars, replays_start, group_rest};

    reveal(dress_spec);
}

pub broadcast proof fn replays_absolute(t: Trace, p: Seq<char>)
    ensures
        leaves(#[trigger] absolute_spec(t, p), t),
        forall|k: int|
            0 <= k <= t.len() ==> replays(
                absolute_spec(t, p),
                t,
                k,
                #[trigger] absolute_spec(t.take(k), p),
            ),
{
    broadcast use {replays_need, group_rest};

    reveal(absolute_spec);
}

pub broadcast proof fn replays_paths_equivalent(t: Trace, a: Seq<char>, b: Seq<char>)
    ensures
        leaves(#[trigger] paths_equivalent_spec(t, a, b), t),
        forall|k: int|
            0 <= k <= t.len() ==> replays(
                paths_equivalent_spec(t, a, b),
                t,
                k,
                #[trigger] paths_equivalent_spec(t.take(k), a, b),
            ),
{
    broadcast use {replays_fetch, group_rest};

    reveal(paths_equivalent_spec);
}

pub broadcast proof fn replays_validate_resolved_path(
    t: Trace,
    resolved: Seq<char>,
    repo_root: Seq<char>,
    template: Option<Seq<char>>,
)
    ensures
        leaves(#[trigger] validate_resolved_path_spec(t, resolved, repo_root, template), t),
        forall|k: int|
            0 <= k <= t.len() ==> replays(
                validate_resolved_path_spec(t, resolved, repo_root, template),
                t,
                k,
                #[trigger] validate_resolved_path_spec(t.take(k), resolved, repo_root, template),
            ),
{
    broadcast use {replays_holds, replays_paths_equivalent, group_rest};

    reveal(validate_resolved_path_spec);
}

} // verus!
