//! Commands that leave the workspaces open: a transfer and a sync forget none and delete nothing.

use vstd::prelude::*;

use crate::operations;
use crate::commands::{sync, transfer};
use crate::commands::after::{
    advance_own_spec, advance_to_spec, own_bookmarks_spec, post_op_bookmarks_spec,
    post_op_stale_spec, predict_stale_workspaces_spec, refresh_spec, resolve_predicted_stale_spec,
};
use crate::commands::plan::{
    detect_sync_mode_spec, op_head_now_spec, stable_spec, validate_head_info_spec,
};
use crate::commands::protect::{
    capture_needed_spec, capture_other_spec, capture_others_spec, captured_spec,
    check_involved_paths_spec, check_one_path_spec, on_disk_spec, prepare_execution_freshness_spec,
    recheck_execution_freshness_spec, same_dir_spec, ExecutionFreshnessV,
};
use crate::commands::sync::{
    abandon_both_spec, advance_both_spec, finish_sync_spec, sync_with_info_spec,
};
use crate::commands::transfer::{
    execute_transfer_spec, finish_transfer_spec, transfer_spec, transfer_with_info_spec,
    TransferParamsV,
};
use crate::commands::types::{Operation, SyncModeInfoV};
use crate::finder_xattrs::{
    apply_spec, capture_file_spec, capture_spec, capture_ws_spec, process_file_spec, put_back_spec,
    restore_spec, set_xattr_spec, CandidateV, XattrGuardV,
};
use crate::jj_parse::WorkspaceEntryV;
use crate::jj_utils::{
    abandon_trivial_heads_spec, advance_singular_bookmark_spec,
    advance_singular_bookmark_to_effective_head_spec, check_emptiness_spec, check_trivial_head_spec,
    check_working_copy_safety_spec, delete_singular_bookmark_spec, examine_spec,
    find_effective_head_spec, identify_singular_bookmark_spec, is_trivial_description_spec,
    is_trivial_head_spec, make_head_spec, matches_default_new_description_spec, move_bookmarks_spec,
    nontrivial_spec, resolve_change_id_spec, resolve_workspace_head_info_spec, step_head_spec,
    vacate_spec, Op, WalkV, WorkspaceHeadInfoV,
};
use crate::jujutsu::{
    current_op_head_spec, descendant_first_workspaces_spec, list_workspace_entries_spec,
    only_snapshots_since_spec, snapshot_ws_spec,
};
use crate::operations::{
    fast_forward_spec, find_abandon_trivial_heads_spec, merge_abandon_parents_old_spec, merge_spec,
    merge_squash_spec, rebase_spec, squash_chain_spec, step_both_spec, WsRefV,
};
use crate::revisions::{
    abandon_revisions_spec, bookmark_change_id_spec, bookmark_delete_spec, bookmark_set_spec,
    last_common_ancestor_spec, local_bookmarks_on_spec, metaedit_author_in_workspace_spec,
    new_merge_spec, new_on_in_workspace_spec, progress_workspace_spec, rebase_source_spec,
    resolve_sanitized_bookmark_spec, revision_descriptions_spec, squash_into_spec, with_author_spec,
    workspaces_in_descendants_spec,
};
use crate::stale::{
    is_workspace_stale_spec, stale_here_spec, stale_workspace_names_spec, tracked_files_spec,
    update_workspace_stale_spec,
};
use crate::tape::{each, Act, Out, RequestV, Trace};
use crate::text_map::Pairs;

verus! {

/// Does the request close a workspace: have jj forget one, or delete files?
pub open spec fn closes(q: RequestV) -> bool {
    ||| q.args.len() >= 2 && q.args[0] == "workspace"@ && q.args[1] == "forget"@
    ||| q.act == Act::RemoveFile
    ||| q.act == Act::RemoveDir
}

/// What comes next closes no workspace.
pub open spec fn stays<A>(m: Out<A>) -> bool {
    m matches Out::Ask(q) ==> !closes(q)
}

broadcast proof fn stays_each<X, A>(
    t: Trace,
    xs: Seq<X>,
    acc: A,
    step: spec_fn(Trace, A, X) -> Out<A>,
)
    requires
        forall|t: Trace, a: A, x: X| stays(#[trigger] step(t, a, x)),
    ensures
        stays(#[trigger] each(t, xs, acc, step)),
    decreases xs.len(),
{
    if xs.len() > 0 {
        assert(stays(step(t, acc, xs[0])));
        if let Out::Got(a, u) = step(t, acc, xs[0]) {
            stays_each(u, xs.drop_first(), a, step);
        }
    }
}

proof fn lemma_words()
    ensures
        "log"@ != "workspace"@,
        "--at-op=@"@ != "workspace"@,
        "bookmark"@ != "workspace"@,
        "new"@ != "workspace"@,
        "rebase"@ != "workspace"@,
        "squash"@ != "workspace"@,
        "abandon"@ != "workspace"@,
        "metaedit"@ != "workspace"@,
        "file"@ != "workspace"@,
        "status"@ != "workspace"@,
        "util"@ != "workspace"@,
        "config"@ != "workspace"@,
        "list"@ != "forget"@,
        "update-stale"@ != "forget"@,
{
    reveal_strlit("workspace");
    reveal_strlit("forget");
    reveal_strlit("log");
    reveal_strlit("--at-op=@");
    reveal_strlit("bookmark");
    reveal_strlit("new");
    reveal_strlit("rebase");
    reveal_strlit("squash");
    reveal_strlit("abandon");
    reveal_strlit("metaedit");
    reveal_strlit("file");
    reveal_strlit("status");
    reveal_strlit("util");
    reveal_strlit("config");
    reveal_strlit("list");
    reveal_strlit("update-stale");
    assert("--at-op=@"@[0] != "workspace"@[0]);
    assert("list"@.len() != "forget"@.len());
    assert("update-stale"@.len() != "forget"@.len());
}

broadcast proof fn stays_last_common_ancestor(
    t: Trace,
    repo: Seq<char>,
    id_a: Seq<char>,
    id_b: Seq<char>,
)
    ensures
        stays(#[trigger] last_common_ancestor_spec(t, repo, id_a, id_b)),
{
    reveal(last_common_ancestor_spec);
    lemma_words();
}

broadcast proof fn stays_current_op_head(t: Trace, repo_root: Seq<char>)
    ensures
        stays(#[trigger] current_op_head_spec(t, repo_root)),
{
    reveal(current_op_head_spec);
}

broadcast proof fn stays_op_head_now(t: Trace, repo: Seq<char>)
    ensures
        stays(#[trigger] op_head_now_spec(t, repo)),
{
    broadcast use stays_current_op_head;

    reveal(op_head_now_spec);
}

broadcast proof fn stays_matches_default_new_description(
    t: Trace,
    repo: Seq<char>,
    revset: Seq<char>,
    desc: Seq<char>,
)
    ensures
        stays(#[trigger] matches_default_new_description_spec(t, repo, revset, desc)),
{
    reveal(matches_default_new_description_spec);
    lemma_words();
}

broadcast proof fn stays_is_trivial_description(
    t: Trace,
    repo: Seq<char>,
    revset: Seq<char>,
    desc: Seq<char>,
)
    ensures
        stays(#[trigger] is_trivial_description_spec(t, repo, revset, desc)),
{
    broadcast use stays_matches_default_new_description;

    reveal(is_trivial_description_spec);
}

broadcast proof fn stays_examine(t: Trace, repo: Seq<char>, revset: Seq<char>)
    ensures
        stays(#[trigger] examine_spec(t, repo, revset)),
{
    broadcast use stays_is_trivial_description;

    reveal(examine_spec);
    lemma_words();
}

broadcast proof fn stays_resolve_change_id(t: Trace, repo: Seq<char>, revset: Seq<char>)
    ensures
        stays(#[trigger] resolve_change_id_spec(t, repo, revset)),
{
    reveal(resolve_change_id_spec);
    lemma_words();
}

broadcast proof fn stays_nontrivial(
    t: Trace,
    repo: Seq<char>,
    revset: Seq<char>,
    last: Seq<char>,
    n: nat,
)
    ensures
        stays(#[trigger] nontrivial_spec(t, repo, revset, last, n)),
    decreases n,
{
    broadcast use {stays_examine, stays_resolve_change_id};

    reveal(nontrivial_spec);
    if n > 0 {
        if let Out::Got(WalkV::Up(id), u) = examine_spec(t, repo, revset) {
            stays_nontrivial(u, repo, "parents("@ + id + ")"@, id, (n - 1) as nat);
        }
    }
}

broadcast proof fn stays_resolve_workspace_head_info(t: Trace, repo: Seq<char>, ws_name: Seq<char>)
    ensures
        stays(#[trigger] resolve_workspace_head_info_spec(t, repo, ws_name)),
{
    broadcast use {stays_is_trivial_description, stays_nontrivial, stays_resolve_change_id};

    reveal(resolve_workspace_head_info_spec);
    lemma_words();
}

broadcast proof fn stays_detect_sync_mode(
    t: Trace,
    repo: Seq<char>,
    src_name: Seq<char>,
    tgt_name: Seq<char>,
)
    ensures
        stays(#[trigger] detect_sync_mode_spec(t, repo, src_name, tgt_name)),
{
    broadcast use {
        stays_last_common_ancestor,
        stays_op_head_now,
        stays_resolve_workspace_head_info,
    };

    reveal(detect_sync_mode_spec);
}

broadcast proof fn stays_abandon_revisions(t: Trace, repo: Seq<char>, change_ids: Seq<Seq<char>>)
    ensures
        stays(#[trigger] abandon_revisions_spec(t, repo, change_ids)),
{
    reveal(abandon_revisions_spec);
    lemma_words();
}

broadcast proof fn stays_check_trivial_head(t: Trace, repo: Seq<char>, revset: Seq<char>)
    ensures
        stays(#[trigger] check_trivial_head_spec(t, repo, revset)),
{
    broadcast use stays_is_trivial_description;

    reveal(check_trivial_head_spec);
    lemma_words();
}

broadcast proof fn stays_local_bookmarks_on(t: Trace, repo: Seq<char>, revset: Seq<char>)
    ensures
        stays(#[trigger] local_bookmarks_on_spec(t, repo, revset)),
{
    reveal(local_bookmarks_on_spec);
    lemma_words();
}

broadcast proof fn stays_bookmark_set(
    t: Trace,
    repo: Seq<char>,
    bookmark: Seq<char>,
    revision: Seq<char>,
)
    ensures
        stays(#[trigger] bookmark_set_spec(t, repo, bookmark, revision)),
{
    reveal(bookmark_set_spec);
    lemma_words();
}

broadcast proof fn stays_move_bookmarks(
    t: Trace,
    repo: Seq<char>,
    bookmarks: Seq<Seq<char>>,
    parent: Seq<char>,
    id: Seq<char>,
)
    ensures
        stays(#[trigger] move_bookmarks_spec(t, repo, bookmarks, parent, id)),
{
    broadcast use {stays_bookmark_set, stays_each};

    reveal(move_bookmarks_spec);
}

broadcast proof fn stays_vacate(t: Trace, repo: Seq<char>, id: Seq<char>)
    ensures
        stays(#[trigger] vacate_spec(t, repo, id)),
{
    broadcast use {stays_local_bookmarks_on, stays_move_bookmarks, stays_resolve_change_id};

    reveal(vacate_spec);
}

broadcast proof fn stays_abandon_trivial_heads(
    t: Trace,
    repo: Seq<char>,
    change_ids: Seq<Seq<char>>,
)
    ensures
        stays(#[trigger] abandon_trivial_heads_spec(t, repo, change_ids)),
{
    broadcast use {stays_abandon_revisions, stays_check_trivial_head, stays_vacate, stays_each};

    reveal(abandon_trivial_heads_spec);
}

broadcast proof fn stays_find_abandon_trivial_heads(t: Trace, repo: Seq<char>, ids: Seq<Seq<char>>)
    ensures
        stays(#[trigger] find_abandon_trivial_heads_spec(t, repo, ids)),
{
    broadcast use stays_abandon_trivial_heads;

    reveal(find_abandon_trivial_heads_spec);
}

broadcast proof fn stays_metaedit_author_in_workspace(
    t: Trace,
    ws_path: Seq<char>,
    author: Seq<char>,
)
    ensures
        stays(#[trigger] metaedit_author_in_workspace_spec(t, ws_path, author)),
{
    reveal(metaedit_author_in_workspace_spec);
    lemma_words();
}

broadcast proof fn stays_with_author(t: Trace, ws_path: Seq<char>, author: Option<Seq<char>>)
    ensures
        stays(#[trigger] with_author_spec(t, ws_path, author)),
{
    broadcast use stays_metaedit_author_in_workspace;

    reveal(with_author_spec);
}

broadcast proof fn stays_make_head(
    t: Trace,
    repo: Seq<char>,
    ws_name: Seq<char>,
    ws_path: Seq<char>,
    parent: Option<Seq<char>>,
    op: Op,
    desc: Option<Seq<char>>,
    author: Option<Seq<char>>,
)
    ensures
        stays(#[trigger] make_head_spec(t, repo, ws_name, ws_path, parent, op, desc, author)),
{
    broadcast use {stays_resolve_change_id, stays_with_author};

    reveal(make_head_spec);
    lemma_words();
}

broadcast proof fn stays_fast_forward(
    t: Trace,
    repo: Seq<char>,
    behind: WsRefV,
    ahead_name: Seq<char>,
    ahead_head: Seq<char>,
    author: Option<Seq<char>>,
)
    ensures
        stays(#[trigger] fast_forward_spec(t, repo, behind, ahead_name, ahead_head, author)),
{
    broadcast use {stays_find_abandon_trivial_heads, stays_make_head};

    reveal(fast_forward_spec);
}

broadcast proof fn stays_check_emptiness(
    t: Trace,
    repo: Seq<char>,
    revset: Seq<char>,
    ws_path: Option<Seq<char>>,
    change_id: Seq<char>,
)
    ensures
        stays(#[trigger] check_emptiness_spec(t, repo, revset, ws_path, change_id)),
{
    reveal(check_emptiness_spec);
    lemma_words();
}

broadcast proof fn stays_check_working_copy_safety(
    t: Trace,
    repo: Seq<char>,
    revset: Seq<char>,
    ws_path: Seq<char>,
)
    ensures
        stays(#[trigger] check_working_copy_safety_spec(t, repo, revset, ws_path)),
{
    broadcast use stays_check_emptiness;

    reveal(check_working_copy_safety_spec);
    lemma_words();
}

broadcast proof fn stays_transfer_guard(t: Trace, repo: Seq<char>, role: Seq<char>, ws: WsRefV)
    ensures
        stays(#[trigger] transfer::guard_spec(t, repo, role, ws)),
{
    broadcast use stays_check_working_copy_safety;

    reveal(transfer::guard_spec);
}

broadcast proof fn stays_is_trivial_head(t: Trace, repo: Seq<char>, revset: Seq<char>)
    ensures
        stays(#[trigger] is_trivial_head_spec(t, repo, revset)),
{
    broadcast use stays_check_trivial_head;

    reveal(is_trivial_head_spec);
}

broadcast proof fn stays_step_head(
    t: Trace,
    repo: Seq<char>,
    ws_name: Seq<char>,
    ws_path: Seq<char>,
    desc: Option<Seq<char>>,
    author: Option<Seq<char>>,
)
    ensures
        stays(#[trigger] step_head_spec(t, repo, ws_name, ws_path, desc, author)),
{
    broadcast use {stays_is_trivial_head, stays_resolve_change_id, stays_with_author};

    reveal(step_head_spec);
    lemma_words();
}

broadcast proof fn stays_transfer_forward(
    t: Trace,
    repo: Seq<char>,
    role: Seq<char>,
    behind: WsRefV,
    ahead: WsRefV,
    author: Option<Seq<char>>,
)
    ensures
        stays(#[trigger] transfer::forward_spec(t, repo, role, behind, ahead, author)),
{
    broadcast use {stays_fast_forward, stays_transfer_guard, stays_step_head};

    reveal(transfer::forward_spec);
}

broadcast proof fn stays_new_merge(
    t: Trace,
    ws_path: Seq<char>,
    parents: Seq<Seq<char>>,
    msg: Seq<char>,
    author: Option<Seq<char>>,
)
    ensures
        stays(#[trigger] new_merge_spec(t, ws_path, parents, msg, author)),
{
    broadcast use stays_with_author;

    reveal(new_merge_spec);
    lemma_words();
}

broadcast proof fn stays_new_on_in_workspace(
    t: Trace,
    ws_path: Seq<char>,
    revision: Seq<char>,
    msg: Seq<char>,
    author: Option<Seq<char>>,
)
    ensures
        stays(#[trigger] new_on_in_workspace_spec(t, ws_path, revision, msg, author)),
{
    broadcast use stays_with_author;

    reveal(new_on_in_workspace_spec);
    lemma_words();
}

broadcast proof fn stays_snapshot_ws(t: Trace, ws_path: Seq<char>)
    ensures
        stays(#[trigger] snapshot_ws_spec(t, ws_path)),
{
    reveal(snapshot_ws_spec);
    lemma_words();
}

broadcast proof fn stays_merge_abandon_parents_old(
    t: Trace,
    repo: Seq<char>,
    src: WsRefV,
    tgt: WsRefV,
    author: Option<Seq<char>>,
)
    ensures
        stays(#[trigger] merge_abandon_parents_old_spec(t, repo, src, tgt, author)),
{
    broadcast use {
        stays_find_abandon_trivial_heads,
        stays_new_merge,
        stays_new_on_in_workspace,
        stays_snapshot_ws,
    };

    reveal(merge_abandon_parents_old_spec);
}

broadcast proof fn stays_progress_workspace(
    t: Trace,
    ws_path: Seq<char>,
    msg: Seq<char>,
    author: Option<Seq<char>>,
)
    ensures
        stays(#[trigger] progress_workspace_spec(t, ws_path, msg, author)),
{
    broadcast use stays_with_author;

    reveal(progress_workspace_spec);
    lemma_words();
}

broadcast proof fn stays_step_both(
    t: Trace,
    src: WsRefV,
    tgt: WsRefV,
    merge_id: Seq<char>,
    author: Option<Seq<char>>,
)
    ensures
        stays(#[trigger] step_both_spec(t, src, tgt, merge_id, author)),
{
    broadcast use {stays_new_on_in_workspace, stays_progress_workspace};

    reveal(step_both_spec);
}

broadcast proof fn stays_merge(
    t: Trace,
    repo: Seq<char>,
    src: WsRefV,
    tgt: WsRefV,
    author: Option<Seq<char>>,
)
    ensures
        stays(#[trigger] merge_spec(t, repo, src, tgt, author)),
{
    broadcast use {
        stays_find_abandon_trivial_heads,
        stays_new_merge,
        stays_snapshot_ws,
        stays_step_both,
    };

    reveal(merge_spec);
}

broadcast proof fn stays_revision_descriptions(t: Trace, repo: Seq<char>, revset: Seq<char>)
    ensures
        stays(#[trigger] revision_descriptions_spec(t, repo, revset)),
{
    reveal(revision_descriptions_spec);
    lemma_words();
}

broadcast proof fn stays_squash_into(
    t: Trace,
    repo: Seq<char>,
    from_revset: Seq<char>,
    into_rev: Seq<char>,
    message: Seq<char>,
)
    ensures
        stays(#[trigger] squash_into_spec(t, repo, from_revset, into_rev, message)),
{
    reveal(squash_into_spec);
    lemma_words();
}

broadcast proof fn stays_squash_chain(
    t: Trace,
    repo: Seq<char>,
    src_name: Seq<char>,
    src_eff: Seq<char>,
    tgt_name: Seq<char>,
    tgt_eff: Seq<char>,
    lca: Seq<char>,
)
    ensures
        stays(#[trigger] squash_chain_spec(t, repo, src_name, src_eff, tgt_name, tgt_eff, lca)),
{
    broadcast use {stays_resolve_change_id, stays_revision_descriptions, stays_squash_into};

    reveal(squash_chain_spec);
}

broadcast proof fn stays_merge_squash(
    t: Trace,
    repo: Seq<char>,
    src: WsRefV,
    tgt: WsRefV,
    lca: Seq<char>,
    author: Option<Seq<char>>,
)
    ensures
        stays(#[trigger] merge_squash_spec(t, repo, src, tgt, lca, author)),
{
    broadcast use {
        stays_find_abandon_trivial_heads,
        stays_new_merge,
        stays_snapshot_ws,
        stays_squash_chain,
        stays_step_both,
    };

    reveal(merge_squash_spec);
}

broadcast proof fn stays_rebase_source(
    t: Trace,
    repo: Seq<char>,
    source_revset: Seq<char>,
    onto: Seq<char>,
)
    ensures
        stays(#[trigger] rebase_source_spec(t, repo, source_revset, onto)),
{
    reveal(rebase_source_spec);
    lemma_words();
}

broadcast proof fn stays_rebase(
    t: Trace,
    repo: Seq<char>,
    src_info: WorkspaceHeadInfoV,
    tgt: WsRefV,
    lca: Seq<char>,
    author: Option<Seq<char>>,
)
    ensures
        stays(#[trigger] rebase_spec(t, repo, src_info, tgt, lca, author)),
{
    broadcast use {stays_rebase_source, stays_step_head};

    reveal(rebase_spec);
}

broadcast proof fn stays_execute_transfer(
    t: Trace,
    params: TransferParamsV,
    operation: Operation,
    info: SyncModeInfoV,
)
    ensures
        stays(#[trigger] execute_transfer_spec(t, params, operation, info)),
{
    broadcast use {
        stays_transfer_forward,
        stays_merge_abandon_parents_old,
        stays_merge,
        stays_merge_squash,
        stays_rebase,
    };

    reveal(execute_transfer_spec);
}

broadcast proof fn stays_bookmark_change_id(t: Trace, repo: Seq<char>, bookmark: Seq<char>)
    ensures
        stays(#[trigger] bookmark_change_id_spec(t, repo, bookmark)),
{
    reveal(bookmark_change_id_spec);
    lemma_words();
}

broadcast proof fn stays_resolve_sanitized_bookmark(t: Trace, repo: Seq<char>, derived: Seq<char>)
    ensures
        stays(#[trigger] resolve_sanitized_bookmark_spec(t, repo, derived)),
{
    broadcast use stays_bookmark_change_id;

    reveal(resolve_sanitized_bookmark_spec);
    lemma_words();
}

broadcast proof fn stays_identify_singular_bookmark(
    t: Trace,
    repo: Seq<char>,
    workspace_path_template: Seq<char>,
    repo_name: Seq<char>,
    ws_name: Seq<char>,
)
    ensures
        stays(
            #[trigger] identify_singular_bookmark_spec(
                t,
                repo,
                workspace_path_template,
                repo_name,
                ws_name,
            ),
        ),
{
    broadcast use stays_resolve_sanitized_bookmark;

    reveal(identify_singular_bookmark_spec);
}

broadcast proof fn stays_find_effective_head(t: Trace, repo: Seq<char>, ws_name: Seq<char>)
    ensures
        stays(#[trigger] find_effective_head_spec(t, repo, ws_name)),
{
    broadcast use stays_nontrivial;

    reveal(find_effective_head_spec);
}

broadcast proof fn stays_advance_singular_bookmark_to_effective_head(
    t: Trace,
    repo: Seq<char>,
    workspace_path_template: Seq<char>,
    repo_name: Seq<char>,
    ws_name: Seq<char>,
)
    ensures
        stays(
            #[trigger] advance_singular_bookmark_to_effective_head_spec(
                t,
                repo,
                workspace_path_template,
                repo_name,
                ws_name,
            ),
        ),
{
    broadcast use {
        stays_bookmark_set,
        stays_find_effective_head,
        stays_identify_singular_bookmark,
    };

    reveal(advance_singular_bookmark_to_effective_head_spec);
}

broadcast proof fn stays_advance_own(
    t: Trace,
    repo: Seq<char>,
    workspace_path_template: Seq<char>,
    repo_name: Seq<char>,
    ws_name: Seq<char>,
)
    ensures
        stays(#[trigger] advance_own_spec(t, repo, workspace_path_template, repo_name, ws_name)),
{
    broadcast use stays_advance_singular_bookmark_to_effective_head;

    reveal(advance_own_spec);
}

broadcast proof fn stays_advance_singular_bookmark(
    t: Trace,
    repo: Seq<char>,
    workspace_path_template: Seq<char>,
    repo_name: Seq<char>,
    ws_name: Seq<char>,
    target_revision: Seq<char>,
)
    ensures
        stays(
            #[trigger] advance_singular_bookmark_spec(
                t,
                repo,
                workspace_path_template,
                repo_name,
                ws_name,
                target_revision,
            ),
        ),
{
    broadcast use {stays_bookmark_set, stays_identify_singular_bookmark};

    reveal(advance_singular_bookmark_spec);
}

broadcast proof fn stays_advance_to(
    t: Trace,
    repo: Seq<char>,
    workspace_path_template: Seq<char>,
    repo_name: Seq<char>,
    source_name: Seq<char>,
    head: Option<Seq<char>>,
)
    ensures
        stays(
            #[trigger] advance_to_spec(
                t,
                repo,
                workspace_path_template,
                repo_name,
                source_name,
                head,
            ),
        ),
{
    broadcast use stays_advance_singular_bookmark;

    reveal(advance_to_spec);
}

broadcast proof fn stays_bookmark_delete(t: Trace, repo: Seq<char>, bookmark: Seq<char>)
    ensures
        stays(#[trigger] bookmark_delete_spec(t, repo, bookmark)),
{
    reveal(bookmark_delete_spec);
    lemma_words();
}

broadcast proof fn stays_delete_singular_bookmark(
    t: Trace,
    repo: Seq<char>,
    workspace_path_template: Seq<char>,
    repo_name: Seq<char>,
    ws_name: Seq<char>,
)
    ensures
        stays(
            #[trigger] delete_singular_bookmark_spec(
                t,
                repo,
                workspace_path_template,
                repo_name,
                ws_name,
            ),
        ),
{
    broadcast use {stays_bookmark_delete, stays_identify_singular_bookmark};

    reveal(delete_singular_bookmark_spec);
}

broadcast proof fn stays_own_bookmarks(
    t: Trace,
    repo: Seq<char>,
    operation: Operation,
    source_name: Seq<char>,
    target_name: Seq<char>,
    close_info: Option<SyncModeInfoV>,
    workspace_path_template: Seq<char>,
    repo_name: Seq<char>,
    given: Option<Seq<char>>,
)
    ensures
        stays(
            #[trigger] own_bookmarks_spec(
                t,
                repo,
                operation,
                source_name,
                target_name,
                close_info,
                workspace_path_template,
                repo_name,
                given,
            ),
        ),
{
    broadcast use {stays_advance_own, stays_advance_to, stays_delete_singular_bookmark};

    reveal(own_bookmarks_spec);
}

broadcast proof fn stays_post_op_bookmarks(
    t: Trace,
    repo: Seq<char>,
    operation: Operation,
    source_name: Seq<char>,
    target_name: Seq<char>,
    close_info: Option<SyncModeInfoV>,
    workspace_path_template: Seq<char>,
    repo_name: Seq<char>,
    bookmarks: Seq<Seq<char>>,
    src_effective_head_override: Option<Seq<char>>,
)
    ensures
        stays(
            #[trigger] post_op_bookmarks_spec(
                t,
                repo,
                operation,
                source_name,
                target_name,
                close_info,
                workspace_path_template,
                repo_name,
                bookmarks,
                src_effective_head_override,
            ),
        ),
{
    broadcast use {stays_identify_singular_bookmark, stays_own_bookmarks};

    reveal(post_op_bookmarks_spec);
}

broadcast proof fn stays_is_workspace_stale(t: Trace, ws_path: Seq<char>)
    ensures
        stays(#[trigger] is_workspace_stale_spec(t, ws_path)),
{
    reveal(is_workspace_stale_spec);
    lemma_words();
}

broadcast proof fn stays_stale_here(t: Trace, path: Seq<char>)
    ensures
        stays(#[trigger] stale_here_spec(t, path)),
{
    broadcast use stays_is_workspace_stale;

    reveal(stale_here_spec);
}

broadcast proof fn stays_stale_workspace_names(t: Trace, workspaces: Seq<(Seq<char>, Seq<char>)>)
    ensures
        stays(#[trigger] stale_workspace_names_spec(t, workspaces)),
{
    broadcast use {stays_stale_here, stays_each};

    reveal(stale_workspace_names_spec);
}

broadcast proof fn stays_post_op_stale(t: Trace, ws_paths: Pairs, pre_stale: Seq<Seq<char>>)
    ensures
        stays(#[trigger] post_op_stale_spec(t, ws_paths, pre_stale)),
{
    broadcast use stays_stale_workspace_names;

    reveal(post_op_stale_spec);
}

broadcast proof fn stays_update_workspace_stale(t: Trace, ws_path: Seq<char>)
    ensures
        stays(#[trigger] update_workspace_stale_spec(t, ws_path)),
{
    reveal(update_workspace_stale_spec);
    lemma_words();
}

broadcast proof fn stays_refresh(t: Trace, path: Seq<char>)
    ensures
        stays(#[trigger] refresh_spec(t, path)),
{
    broadcast use stays_update_workspace_stale;

    reveal(refresh_spec);
}

broadcast proof fn stays_resolve_predicted_stale(
    t: Trace,
    predicted: Seq<Seq<char>>,
    ws_paths: Pairs,
)
    ensures
        stays(#[trigger] resolve_predicted_stale_spec(t, predicted, ws_paths)),
{
    broadcast use {stays_refresh, stays_each};

    reveal(resolve_predicted_stale_spec);
}

broadcast proof fn stays_finish_transfer(
    t: Trace,
    params: TransferParamsV,
    operation: Operation,
    fresh: ExecutionFreshnessV,
    predicted: Seq<Seq<char>>,
    op_warnings: Seq<Seq<char>>,
)
    ensures
        stays(#[trigger] finish_transfer_spec(t, params, operation, fresh, predicted, op_warnings)),
{
    broadcast use {
        stays_post_op_bookmarks,
        stays_post_op_stale,
        stays_resolve_predicted_stale,
        stays_update_workspace_stale,
    };

    reveal(finish_transfer_spec);
}

broadcast proof fn stays_workspaces_in_descendants(t: Trace, repo: Seq<char>, revset: Seq<char>)
    ensures
        stays(#[trigger] workspaces_in_descendants_spec(t, repo, revset)),
{
    reveal(workspaces_in_descendants_spec);
    lemma_words();
}

broadcast proof fn stays_predict_stale_workspaces(
    t: Trace,
    repo: Seq<char>,
    operation: Operation,
    info: SyncModeInfoV,
    abandoned_ids: Seq<Seq<char>>,
    involved: Seq<Seq<char>>,
)
    ensures
        stays(
            #[trigger] predict_stale_workspaces_spec(
                t,
                repo,
                operation,
                info,
                abandoned_ids,
                involved,
            ),
        ),
{
    broadcast use stays_workspaces_in_descendants;

    reveal(predict_stale_workspaces_spec);
}

broadcast proof fn stays_capture_needed(
    t: Trace,
    entries: Seq<WorkspaceEntryV>,
    src_name: Seq<char>,
    tgt_name: Seq<char>,
    target_involved: bool,
)
    ensures
        stays(#[trigger] capture_needed_spec(t, entries, src_name, tgt_name, target_involved)),
{
    broadcast use {stays_snapshot_ws, stays_each};

    reveal(capture_needed_spec);
}

broadcast proof fn stays_capture_other(t: Trace, entry: WorkspaceEntryV)
    ensures
        stays(#[trigger] capture_other_spec(t, entry)),
{
    broadcast use {stays_is_workspace_stale, stays_snapshot_ws};

    reveal(capture_other_spec);
}

broadcast proof fn stays_capture_others(
    t: Trace,
    entries: Seq<WorkspaceEntryV>,
    src_name: Seq<char>,
    tgt_name: Seq<char>,
    target_involved: bool,
)
    ensures
        stays(#[trigger] capture_others_spec(t, entries, src_name, tgt_name, target_involved)),
{
    broadcast use {stays_capture_other, stays_each};

    reveal(capture_others_spec);
}

broadcast proof fn stays_descendant_first_workspaces(
    t: Trace,
    repo: Seq<char>,
    entries: Seq<WorkspaceEntryV>,
)
    ensures
        stays(#[trigger] descendant_first_workspaces_spec(t, repo, entries)),
{
    reveal(descendant_first_workspaces_spec);
    lemma_words();
}

broadcast proof fn stays_on_disk(t: Trace, entries: Seq<WorkspaceEntryV>)
    ensures
        stays(#[trigger] on_disk_spec(t, entries)),
{
    broadcast use stays_each;

    reveal(on_disk_spec);
}

broadcast proof fn stays_captured(
    t: Trace,
    repo: Seq<char>,
    entries: Seq<WorkspaceEntryV>,
    src_name: Seq<char>,
    tgt_name: Seq<char>,
    target_involved: bool,
)
    ensures
        stays(#[trigger] captured_spec(t, repo, entries, src_name, tgt_name, target_involved)),
{
    broadcast use {
        stays_capture_needed,
        stays_capture_others,
        stays_descendant_first_workspaces,
        stays_on_disk,
    };

    reveal(captured_spec);
}

broadcast proof fn stays_same_dir(t: Trace, a: Seq<char>, b: Seq<char>)
    ensures
        stays(#[trigger] same_dir_spec(t, a, b)),
{
    reveal(same_dir_spec);
}

broadcast proof fn stays_check_one_path(
    t: Trace,
    entries: Seq<WorkspaceEntryV>,
    name: Seq<char>,
    path: Seq<char>,
)
    ensures
        stays(#[trigger] check_one_path_spec(t, entries, name, path)),
{
    broadcast use stays_same_dir;

    reveal(check_one_path_spec);
}

broadcast proof fn stays_check_involved_paths(
    t: Trace,
    entries: Seq<WorkspaceEntryV>,
    src_name: Seq<char>,
    src_path: Seq<char>,
    target: Option<(Seq<char>, Seq<char>)>,
)
    ensures
        stays(#[trigger] check_involved_paths_spec(t, entries, src_name, src_path, target)),
{
    broadcast use stays_check_one_path;

    reveal(check_involved_paths_spec);
}

broadcast proof fn stays_list_workspace_entries(t: Trace, repo: Seq<char>)
    ensures
        stays(#[trigger] list_workspace_entries_spec(t, repo)),
{
    reveal(list_workspace_entries_spec);
    lemma_words();
}

broadcast proof fn stays_only_snapshots_since(
    t: Trace,
    repo: Seq<char>,
    expected_op_id: Seq<char>,
    limit: usize,
)
    ensures
        stays(#[trigger] only_snapshots_since_spec(t, repo, expected_op_id, limit)),
{
    reveal(only_snapshots_since_spec);
    lemma_words();
}

broadcast proof fn stays_stable(
    t: Trace,
    repo: Seq<char>,
    src_name: Seq<char>,
    tgt_name: Seq<char>,
    n: nat,
)
    ensures
        stays(#[trigger] stable_spec(t, repo, src_name, tgt_name, n)),
    decreases n,
{
    broadcast use {stays_detect_sync_mode, stays_op_head_now};

    reveal(stable_spec);
    if n > 0 {
        if let Out::Got(_, u) = detect_sync_mode_spec(t, repo, src_name, tgt_name) {
            if let Out::Got(_, w) = op_head_now_spec(u, repo) {
                stays_stable(w, repo, src_name, tgt_name, (n - 1) as nat);
            }
        }
    }
}

broadcast proof fn stays_recheck_execution_freshness(
    t: Trace,
    repo: Seq<char>,
    validated: SyncModeInfoV,
    src_name: Seq<char>,
    src_path: Seq<char>,
    tgt_name: Seq<char>,
    tgt_path: Seq<char>,
    target_involved: bool,
    plan_consuming: bool,
)
    ensures
        stays(
            #[trigger] recheck_execution_freshness_spec(
                t,
                repo,
                validated,
                src_name,
                src_path,
                tgt_name,
                tgt_path,
                target_involved,
                plan_consuming,
            ),
        ),
{
    broadcast use {
        stays_check_involved_paths,
        stays_list_workspace_entries,
        stays_only_snapshots_since,
        stays_stable,
    };

    reveal(recheck_execution_freshness_spec);
}

broadcast proof fn stays_prepare_execution_freshness(
    t: Trace,
    repo: Seq<char>,
    validated: SyncModeInfoV,
    src_name: Seq<char>,
    src_path: Seq<char>,
    tgt_name: Seq<char>,
    tgt_path: Seq<char>,
    target_involved: bool,
    plan_consuming: bool,
    advance_target_change_id: Option<Seq<char>>,
)
    ensures
        stays(
            #[trigger] prepare_execution_freshness_spec(
                t,
                repo,
                validated,
                src_name,
                src_path,
                tgt_name,
                tgt_path,
                target_involved,
                plan_consuming,
                advance_target_change_id,
            ),
        ),
{
    broadcast use {
        stays_captured,
        stays_check_involved_paths,
        stays_list_workspace_entries,
        stays_recheck_execution_freshness,
    };

    reveal(prepare_execution_freshness_spec);
}

broadcast proof fn stays_validate_head_info(
    t: Trace,
    repo: Seq<char>,
    info: SyncModeInfoV,
    src_name: Seq<char>,
    tgt_name: Seq<char>,
    allow_equivalent: bool,
)
    ensures
        stays(
            #[trigger] validate_head_info_spec(
                t,
                repo,
                info,
                src_name,
                tgt_name,
                allow_equivalent,
            ),
        ),
{
    broadcast use {stays_op_head_now, stays_stable};

    reveal(validate_head_info_spec);
}

broadcast proof fn stays_transfer_with_info(t: Trace, params: TransferParamsV, info: SyncModeInfoV)
    ensures
        stays(#[trigger] transfer_with_info_spec(t, params, info)),
{
    broadcast use {
        stays_execute_transfer,
        stays_finish_transfer,
        stays_predict_stale_workspaces,
        stays_prepare_execution_freshness,
        stays_validate_head_info,
    };

    reveal(transfer_with_info_spec);
}

broadcast proof fn stays_transfer(t: Trace, params: TransferParamsV)
    ensures
        stays(#[trigger] transfer_spec(t, params)),
{
    broadcast use {stays_detect_sync_mode, stays_transfer_with_info};

    reveal(transfer_spec);
}

broadcast proof fn stays_capture_file(
    t: Trace,
    ws_name: Seq<char>,
    ws_path: Seq<char>,
    rel: Seq<char>,
)
    ensures
        stays(#[trigger] capture_file_spec(t, ws_name, ws_path, rel)),
{
    reveal(capture_file_spec);
}

broadcast proof fn stays_tracked_files(t: Trace, ws_path: Seq<char>)
    ensures
        stays(#[trigger] tracked_files_spec(t, ws_path)),
{
    reveal(tracked_files_spec);
    lemma_words();
}

broadcast proof fn stays_capture_ws(
    t: Trace,
    g: XattrGuardV,
    ws_name: Seq<char>,
    ws_path: Seq<char>,
)
    ensures
        stays(#[trigger] capture_ws_spec(t, g, ws_name, ws_path)),
{
    broadcast use {stays_capture_file, stays_tracked_files, stays_each};

    reveal(capture_ws_spec);
}

broadcast proof fn stays_capture(t: Trace, ws_paths: Pairs, restore_enabled: bool)
    ensures
        stays(#[trigger] capture_spec(t, ws_paths, restore_enabled)),
{
    broadcast use {stays_capture_ws, stays_each};

    reveal(capture_spec);
}

broadcast proof fn stays_abandon_both(t: Trace, repo: Seq<char>, info: SyncModeInfoV)
    ensures
        stays(#[trigger] abandon_both_spec(t, repo, info)),
{
    broadcast use stays_abandon_trivial_heads;

    reveal(abandon_both_spec);
}

broadcast proof fn stays_advance_both(
    t: Trace,
    repo: Seq<char>,
    src_name: Seq<char>,
    tgt_name: Seq<char>,
    workspace_path_template: Seq<char>,
    repo_name: Seq<char>,
)
    ensures
        stays(
            #[trigger] advance_both_spec(
                t,
                repo,
                src_name,
                tgt_name,
                workspace_path_template,
                repo_name,
            ),
        ),
{
    broadcast use stays_advance_singular_bookmark_to_effective_head;

    reveal(advance_both_spec);
}

broadcast proof fn stays_set_xattr(t: Trace, path: Seq<char>, name: Seq<char>, value: Seq<u8>)
    ensures
        stays(#[trigger] set_xattr_spec(t, path, name, value)),
{
    reveal(set_xattr_spec);
}

broadcast proof fn stays_put_back(
    t: Trace,
    path: Seq<char>,
    label: Seq<char>,
    name: Seq<char>,
    value: Option<Seq<u8>>,
)
    ensures
        stays(#[trigger] put_back_spec(t, path, label, name, value)),
{
    broadcast use stays_set_xattr;

    reveal(put_back_spec);
}

broadcast proof fn stays_apply(
    t: Trace,
    enabled: bool,
    path: Seq<char>,
    label: Seq<char>,
    c: CandidateV,
    finder_info_only: bool,
)
    ensures
        stays(#[trigger] apply_spec(t, enabled, path, label, c, finder_info_only)),
{
    broadcast use stays_put_back;

    reveal(apply_spec);
}

broadcast proof fn stays_process_file(
    t: Trace,
    g: XattrGuardV,
    ws_name: Seq<char>,
    ws_path: Seq<char>,
    rel: Seq<char>,
)
    ensures
        stays(#[trigger] process_file_spec(t, g, ws_name, ws_path, rel)),
{
    broadcast use stays_apply;

    reveal(process_file_spec);
}

broadcast proof fn stays_restore(t: Trace, g: XattrGuardV, ws_paths: Pairs)
    ensures
        stays(#[trigger] restore_spec(t, g, ws_paths)),
{
    broadcast use {stays_process_file, stays_each};

    reveal(restore_spec);
}

broadcast proof fn stays_finish_sync(
    t: Trace,
    repo: Seq<char>,
    fresh: ExecutionFreshnessV,
    guard: XattrGuardV,
    src_name: Seq<char>,
    src_path: Seq<char>,
    tgt_name: Seq<char>,
    tgt_path: Seq<char>,
    workspace_path_template: Seq<char>,
    repo_name: Seq<char>,
    warnings: Seq<Seq<char>>,
)
    ensures
        stays(
            #[trigger] finish_sync_spec(
                t,
                repo,
                fresh,
                guard,
                src_name,
                src_path,
                tgt_name,
                tgt_path,
                workspace_path_template,
                repo_name,
                warnings,
            ),
        ),
{
    broadcast use {
        stays_abandon_both,
        stays_advance_both,
        stays_restore,
        stays_post_op_stale,
        stays_update_workspace_stale,
    };

    reveal(finish_sync_spec);
}

broadcast proof fn stays_operations_guard(t: Trace, repo: Seq<char>, ws: WsRefV)
    ensures
        stays(#[trigger] operations::guard_spec(t, repo, ws)),
{
    broadcast use stays_check_working_copy_safety;

    reveal(operations::guard_spec);
}

broadcast proof fn stays_operations_forward(
    t: Trace,
    repo: Seq<char>,
    behind: WsRefV,
    ahead: WsRefV,
    author: Option<Seq<char>>,
)
    ensures
        stays(#[trigger] operations::forward_spec(t, repo, behind, ahead, author)),
{
    broadcast use {stays_fast_forward, stays_operations_guard, stays_step_head};

    reveal(operations::forward_spec);
}

broadcast proof fn stays_operations_sync(
    t: Trace,
    repo: Seq<char>,
    src: WsRefV,
    tgt: WsRefV,
    author: Option<Seq<char>>,
)
    ensures
        stays(#[trigger] operations::sync_spec(t, repo, src, tgt, author)),
{
    broadcast use {stays_operations_forward, stays_last_common_ancestor, stays_merge};

    reveal(operations::sync_spec);
}

broadcast proof fn stays_sync_with_info(
    t: Trace,
    repo: Seq<char>,
    info: SyncModeInfoV,
    src_name: Seq<char>,
    src_path: Seq<char>,
    tgt_name: Seq<char>,
    tgt_path: Seq<char>,
    workspace_path_template: Seq<char>,
    repo_name: Seq<char>,
    author: Option<Seq<char>>,
    preserve_finder_xattrs: bool,
)
    ensures
        stays(
            #[trigger] sync_with_info_spec(
                t,
                repo,
                info,
                src_name,
                src_path,
                tgt_name,
                tgt_path,
                workspace_path_template,
                repo_name,
                author,
                preserve_finder_xattrs,
            ),
        ),
{
    broadcast use {
        stays_capture,
        stays_finish_sync,
        stays_prepare_execution_freshness,
        stays_operations_sync,
        stays_validate_head_info,
    };

    reveal(sync_with_info_spec);
}

broadcast proof fn stays_sync_sync(
    t: Trace,
    repo: Seq<char>,
    src_name: Seq<char>,
    src_path: Seq<char>,
    tgt_name: Seq<char>,
    tgt_path: Seq<char>,
    workspace_path_template: Seq<char>,
    repo_name: Seq<char>,
    author: Option<Seq<char>>,
    preserve_finder_xattrs: bool,
)
    ensures
        stays(
            #[trigger] sync::sync_spec(
                t,
                repo,
                src_name,
                src_path,
                tgt_name,
                tgt_path,
                workspace_path_template,
                repo_name,
                author,
                preserve_finder_xattrs,
            ),
        ),
{
    broadcast use {stays_detect_sync_mode, stays_sync_with_info};

    reveal(sync::sync_spec);
}

/// A transfer leaves both workspaces open, by every method and whatever jj answers.
pub proof fn law_transfer_keeps_both_open(t: Trace, params: TransferParamsV, info: SyncModeInfoV)
    ensures
        stays(transfer_spec(t, params)),
        stays(transfer_with_info_spec(t, params, info)),
{
    broadcast use {stays_transfer, stays_transfer_with_info};

}

/// A sync leaves both workspaces open, whatever jj answers.
pub proof fn law_sync_keeps_both_open(
    t: Trace,
    repo: Seq<char>,
    src_name: Seq<char>,
    src_path: Seq<char>,
    tgt_name: Seq<char>,
    tgt_path: Seq<char>,
    workspace_path_template: Seq<char>,
    repo_name: Seq<char>,
    author: Option<Seq<char>>,
    preserve_finder_xattrs: bool,
)
    ensures
        stays(
            sync::sync_spec(
                t,
                repo,
                src_name,
                src_path,
                tgt_name,
                tgt_path,
                workspace_path_template,
                repo_name,
                author,
                preserve_finder_xattrs,
            ),
        ),
{
    broadcast use stays_sync_sync;

}

} // verus!
