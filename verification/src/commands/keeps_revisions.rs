//! Detaching leaves the revisions of a workspace as they are.

use vstd::prelude::*;

use crate::commands::after::{
    advance_own_spec, advance_to_spec, own_bookmarks_spec, post_op_bookmarks_spec,
    post_op_manual_bookmarks_spec, post_op_stale_spec, predict_stale_workspaces_spec, refresh_spec,
    resolve_predicted_stale_spec,
};
use crate::commands::close::{
    close_bookmarks_spec, close_by_detaching_spec, close_spec, close_with_info_spec,
    execute_close_spec, finish_close_spec, removable_spec, CloseParamsV,
};
use crate::commands::plan::{
    detect_sync_mode_spec, op_head_now_spec, stable_spec, validate_head_info_spec,
};
use crate::commands::protect::{
    capture_needed_spec, capture_other_spec, capture_others_spec, captured_spec,
    check_involved_paths_spec, check_one_path_spec, on_disk_spec, prepare_execution_freshness_spec,
    recheck_execution_freshness_spec, same_dir_spec, ExecutionFreshnessV,
};
use crate::commands::types::{BookmarkAction, CloseMethod, Operation, SyncModeInfoV};
use crate::jj_parse::WorkspaceEntryV;
use crate::jj_utils::{
    advance_singular_bookmark_spec, advance_singular_bookmark_to_effective_head_spec,
    check_emptiness_spec, check_revision_safety_spec, delete_singular_bookmark_spec, examine_spec,
    find_effective_head_spec, identify_singular_bookmark_spec, is_trivial_description_spec,
    matches_default_new_description_spec, nontrivial_spec, resolve_change_id_spec,
    resolve_workspace_head_info_spec, WalkV,
};
use crate::jujutsu::{
    current_op_head_spec, descendant_first_workspaces_spec, list_workspace_entries_spec,
    only_snapshots_since_spec, snapshot_ws_spec,
};
use crate::operations::forget_workspace_spec;
use crate::revisions::{
    bookmark_change_id_spec, bookmark_delete_spec, bookmark_set_exact_spec, bookmark_set_spec,
    last_common_ancestor_spec, resolve_sanitized_bookmark_spec, workspace_forget_spec,
    workspaces_in_descendants_spec,
};
use crate::stale::{
    is_workspace_stale_spec, stale_here_spec, stale_workspace_names_spec,
    update_workspace_stale_spec,
};
use crate::tape::{each, Out, RequestV, Trace};
use crate::text_map::Pairs;

verus! {

/// Does the request take revisions away or rewrite them?
pub open spec fn rewrites(q: RequestV) -> bool {
    q.args.len() >= 1 && (q.args[0] == "abandon"@ || q.args[0] == "squash"@ || q.args[0]
        == "rebase"@)
}

/// What comes next keeps all revisions.
pub open spec fn keeps<A>(m: Out<A>) -> bool {
    m matches Out::Ask(q) ==> !rewrites(q)
}

broadcast proof fn keeps_each<X, A>(
    t: Trace,
    xs: Seq<X>,
    acc: A,
    step: spec_fn(Trace, A, X) -> Out<A>,
)
    requires
        forall|t: Trace, a: A, x: X| keeps(#[trigger] step(t, a, x)),
    ensures
        keeps(#[trigger] each(t, xs, acc, step)),
    decreases xs.len(),
{
    if xs.len() > 0 {
        assert(keeps(step(t, acc, xs[0])));
        if let Out::Got(a, u) = step(t, acc, xs[0]) {
            keeps_each(u, xs.drop_first(), a, step);
        }
    }
}

/// Is the word none that rewrites revisions?
spec fn harmless(w: Seq<char>) -> bool {
    w != "abandon"@ && w != "squash"@ && w != "rebase"@
}

proof fn lemma_words()
    ensures
        harmless("workspace"@),
        harmless("log"@),
        harmless("--at-op=@"@),
        harmless("bookmark"@),
        harmless("file"@),
        harmless("status"@),
        harmless("util"@),
        harmless("config"@),
        harmless("op"@),
{
    reveal_strlit("abandon");
    reveal_strlit("squash");
    reveal_strlit("rebase");
    reveal_strlit("workspace");
    reveal_strlit("log");
    reveal_strlit("--at-op=@");
    reveal_strlit("bookmark");
    reveal_strlit("file");
    reveal_strlit("status");
    reveal_strlit("util");
    reveal_strlit("config");
    reveal_strlit("op");
    assert("abandon"@.len() == 7);
    assert("squash"@.len() == 6);
    assert("rebase"@.len() == 6);
    assert("workspace"@.len() == 9);
    assert("log"@.len() == 3);
    assert("--at-op=@"@.len() == 9);
    assert("bookmark"@.len() == 8);
    assert("file"@.len() == 4);
    assert("status"@.len() == 6);
    assert("util"@.len() == 4);
    assert("config"@.len() == 6);
    assert("op"@.len() == 2);
    assert("status"@[1] == 't' && "config"@[0] == 'c');
    assert("squash"@[1] == 'q' && "rebase"@[0] == 'r');
}

broadcast proof fn keeps_is_workspace_stale(t: Trace, ws_path: Seq<char>)
    ensures
        keeps(#[trigger] is_workspace_stale_spec(t, ws_path)),
{
    reveal(is_workspace_stale_spec);
    lemma_words();
}

broadcast proof fn keeps_update_workspace_stale(t: Trace, ws_path: Seq<char>)
    ensures
        keeps(#[trigger] update_workspace_stale_spec(t, ws_path)),
{
    reveal(update_workspace_stale_spec);
    lemma_words();
}

broadcast proof fn keeps_snapshot_ws(t: Trace, ws_path: Seq<char>)
    ensures
        keeps(#[trigger] snapshot_ws_spec(t, ws_path)),
{
    reveal(snapshot_ws_spec);
    lemma_words();
}

broadcast proof fn keeps_workspace_forget(
    t: Trace,
    repo: Seq<char>,
    ws_path: Seq<char>,
    name: Seq<char>,
)
    ensures
        keeps(#[trigger] workspace_forget_spec(t, repo, ws_path, name)),
{
    broadcast use keeps_snapshot_ws;

    reveal(workspace_forget_spec);
    lemma_words();
}

broadcast proof fn keeps_forget_workspace(
    t: Trace,
    repo: Seq<char>,
    ws_path: Seq<char>,
    ws_name: Seq<char>,
)
    ensures
        keeps(#[trigger] forget_workspace_spec(t, repo, ws_path, ws_name)),
{
    broadcast use {
        keeps_is_workspace_stale,
        keeps_update_workspace_stale,
        keeps_workspace_forget,
    };

    reveal(forget_workspace_spec);
}

broadcast proof fn keeps_check_emptiness(
    t: Trace,
    repo: Seq<char>,
    revset: Seq<char>,
    ws_path: Option<Seq<char>>,
    change_id: Seq<char>,
)
    ensures
        keeps(#[trigger] check_emptiness_spec(t, repo, revset, ws_path, change_id)),
{
    reveal(check_emptiness_spec);
    lemma_words();
}

broadcast proof fn keeps_check_revision_safety(
    t: Trace,
    repo: Seq<char>,
    revset: Seq<char>,
    ws_path: Option<Seq<char>>,
)
    ensures
        keeps(#[trigger] check_revision_safety_spec(t, repo, revset, ws_path)),
{
    broadcast use keeps_check_emptiness;

    reveal(check_revision_safety_spec);
    lemma_words();
}

broadcast proof fn keeps_matches_default_new_description(
    t: Trace,
    repo: Seq<char>,
    revset: Seq<char>,
    desc: Seq<char>,
)
    ensures
        keeps(#[trigger] matches_default_new_description_spec(t, repo, revset, desc)),
{
    reveal(matches_default_new_description_spec);
    lemma_words();
}

broadcast proof fn keeps_is_trivial_description(
    t: Trace,
    repo: Seq<char>,
    revset: Seq<char>,
    desc: Seq<char>,
)
    ensures
        keeps(#[trigger] is_trivial_description_spec(t, repo, revset, desc)),
{
    broadcast use keeps_matches_default_new_description;

    reveal(is_trivial_description_spec);
}

broadcast proof fn keeps_examine(t: Trace, repo: Seq<char>, revset: Seq<char>)
    ensures
        keeps(#[trigger] examine_spec(t, repo, revset)),
{
    broadcast use keeps_is_trivial_description;

    reveal(examine_spec);
    lemma_words();
}

broadcast proof fn keeps_resolve_change_id(t: Trace, repo: Seq<char>, revset: Seq<char>)
    ensures
        keeps(#[trigger] resolve_change_id_spec(t, repo, revset)),
{
    reveal(resolve_change_id_spec);
    lemma_words();
}

broadcast proof fn keeps_nontrivial(
    t: Trace,
    repo: Seq<char>,
    revset: Seq<char>,
    last: Seq<char>,
    n: nat,
)
    ensures
        keeps(#[trigger] nontrivial_spec(t, repo, revset, last, n)),
    decreases n,
{
    broadcast use {keeps_examine, keeps_resolve_change_id};

    reveal(nontrivial_spec);
    if n > 0 {
        if let Out::Got(WalkV::Up(id), u) = examine_spec(t, repo, revset) {
            keeps_nontrivial(u, repo, "parents("@ + id + ")"@, id, (n - 1) as nat);
        }
    }
}

broadcast proof fn keeps_find_effective_head(t: Trace, repo: Seq<char>, ws_name: Seq<char>)
    ensures
        keeps(#[trigger] find_effective_head_spec(t, repo, ws_name)),
{
    broadcast use keeps_nontrivial;

    reveal(find_effective_head_spec);
}

broadcast proof fn keeps_close_by_detaching(t: Trace, params: CloseParamsV)
    ensures
        keeps(#[trigger] close_by_detaching_spec(t, params)),
{
    broadcast use {
        keeps_check_revision_safety,
        keeps_find_effective_head,
        keeps_forget_workspace,
    };

    reveal(close_by_detaching_spec);
}

broadcast proof fn keeps_bookmark_set(
    t: Trace,
    repo: Seq<char>,
    bookmark: Seq<char>,
    revision: Seq<char>,
)
    ensures
        keeps(#[trigger] bookmark_set_spec(t, repo, bookmark, revision)),
{
    reveal(bookmark_set_spec);
    lemma_words();
}

broadcast proof fn keeps_execute_close(
    t: Trace,
    params: CloseParamsV,
    operation: Operation,
    info: SyncModeInfoV,
)
    requires
        operation == Operation::Detach,
    ensures
        keeps(#[trigger] execute_close_spec(t, params, operation, info)),
{
    broadcast use keeps_close_by_detaching;

    reveal(execute_close_spec);
}

broadcast proof fn keeps_bookmark_change_id(t: Trace, repo: Seq<char>, bookmark: Seq<char>)
    ensures
        keeps(#[trigger] bookmark_change_id_spec(t, repo, bookmark)),
{
    reveal(bookmark_change_id_spec);
    lemma_words();
}

broadcast proof fn keeps_resolve_sanitized_bookmark(t: Trace, repo: Seq<char>, derived: Seq<char>)
    ensures
        keeps(#[trigger] resolve_sanitized_bookmark_spec(t, repo, derived)),
{
    broadcast use keeps_bookmark_change_id;

    reveal(resolve_sanitized_bookmark_spec);
    lemma_words();
}

broadcast proof fn keeps_identify_singular_bookmark(
    t: Trace,
    repo: Seq<char>,
    workspace_path_template: Seq<char>,
    repo_name: Seq<char>,
    ws_name: Seq<char>,
)
    ensures
        keeps(
            #[trigger] identify_singular_bookmark_spec(
                t,
                repo,
                workspace_path_template,
                repo_name,
                ws_name,
            ),
        ),
{
    broadcast use keeps_resolve_sanitized_bookmark;

    reveal(identify_singular_bookmark_spec);
}

broadcast proof fn keeps_advance_singular_bookmark_to_effective_head(
    t: Trace,
    repo: Seq<char>,
    workspace_path_template: Seq<char>,
    repo_name: Seq<char>,
    ws_name: Seq<char>,
)
    ensures
        keeps(
            #[trigger] advance_singular_bookmark_to_effective_head_spec(
                t,
                repo,
                workspace_path_template,
                repo_name,
                ws_name,
            ),
        ),
{
    broadcast use {
        keeps_bookmark_set,
        keeps_find_effective_head,
        keeps_identify_singular_bookmark,
    };

    reveal(advance_singular_bookmark_to_effective_head_spec);
}

broadcast proof fn keeps_advance_own(
    t: Trace,
    repo: Seq<char>,
    workspace_path_template: Seq<char>,
    repo_name: Seq<char>,
    ws_name: Seq<char>,
)
    ensures
        keeps(#[trigger] advance_own_spec(t, repo, workspace_path_template, repo_name, ws_name)),
{
    broadcast use keeps_advance_singular_bookmark_to_effective_head;

    reveal(advance_own_spec);
}

broadcast proof fn keeps_advance_singular_bookmark(
    t: Trace,
    repo: Seq<char>,
    workspace_path_template: Seq<char>,
    repo_name: Seq<char>,
    ws_name: Seq<char>,
    target_revision: Seq<char>,
)
    ensures
        keeps(
            #[trigger] advance_singular_bookmark_spec(
                t,
                repo,
                workspace_path_template,
                repo_name,
                ws_name,
                target_revision,
            ),
        ),
{
    broadcast use {keeps_bookmark_set, keeps_identify_singular_bookmark};

    reveal(advance_singular_bookmark_spec);
}

broadcast proof fn keeps_advance_to(
    t: Trace,
    repo: Seq<char>,
    workspace_path_template: Seq<char>,
    repo_name: Seq<char>,
    source_name: Seq<char>,
    head: Option<Seq<char>>,
)
    ensures
        keeps(
            #[trigger] advance_to_spec(
                t,
                repo,
                workspace_path_template,
                repo_name,
                source_name,
                head,
            ),
        ),
{
    broadcast use keeps_advance_singular_bookmark;

    reveal(advance_to_spec);
}

broadcast proof fn keeps_bookmark_delete(t: Trace, repo: Seq<char>, bookmark: Seq<char>)
    ensures
        keeps(#[trigger] bookmark_delete_spec(t, repo, bookmark)),
{
    reveal(bookmark_delete_spec);
    lemma_words();
}

broadcast proof fn keeps_delete_singular_bookmark(
    t: Trace,
    repo: Seq<char>,
    workspace_path_template: Seq<char>,
    repo_name: Seq<char>,
    ws_name: Seq<char>,
)
    ensures
        keeps(
            #[trigger] delete_singular_bookmark_spec(
                t,
                repo,
                workspace_path_template,
                repo_name,
                ws_name,
            ),
        ),
{
    broadcast use {keeps_bookmark_delete, keeps_identify_singular_bookmark};

    reveal(delete_singular_bookmark_spec);
}

broadcast proof fn keeps_own_bookmarks(
    t: Trace,
    repo: Seq<char>,
    operation: Operation,
    source_name: Seq<char>,
    target_name: Seq<char>,
    close_info: Option<SyncModeInfoV>,
    workspace_path_template: Seq<char>,
    repo_name: Seq<char>,
    given: Option<Seq<char>>,
)
    requires
        operation == Operation::Detach,
    ensures
        keeps(
            #[trigger] own_bookmarks_spec(
                t,
                repo,
                operation,
                source_name,
                target_name,
                close_info,
                workspace_path_template,
                repo_name,
                given,
            ),
        ),
{
    broadcast use {keeps_advance_own, keeps_advance_to, keeps_delete_singular_bookmark};

    reveal(own_bookmarks_spec);
}

broadcast proof fn keeps_post_op_bookmarks(
    t: Trace,
    repo: Seq<char>,
    operation: Operation,
    source_name: Seq<char>,
    target_name: Seq<char>,
    close_info: Option<SyncModeInfoV>,
    workspace_path_template: Seq<char>,
    repo_name: Seq<char>,
    bookmarks: Seq<Seq<char>>,
    src_effective_head_override: Option<Seq<char>>,
)
    requires
        operation == Operation::Detach,
    ensures
        keeps(
            #[trigger] post_op_bookmarks_spec(
                t,
                repo,
                operation,
                source_name,
                target_name,
                close_info,
                workspace_path_template,
                repo_name,
                bookmarks,
                src_effective_head_override,
            ),
        ),
{
    broadcast use {keeps_identify_singular_bookmark, keeps_own_bookmarks};

    reveal(post_op_bookmarks_spec);
}

broadcast proof fn keeps_bookmark_set_exact(
    t: Trace,
    repo: Seq<char>,
    bookmark: Seq<char>,
    revision: Seq<char>,
)
    ensures
        keeps(#[trigger] bookmark_set_exact_spec(t, repo, bookmark, revision)),
{
    reveal(bookmark_set_exact_spec);
    lemma_words();
}

broadcast proof fn keeps_post_op_manual_bookmarks(
    t: Trace,
    repo: Seq<char>,
    bookmarks: Seq<Seq<char>>,
    action: BookmarkAction,
    target_change_id: Seq<char>,
)
    ensures
        keeps(
            #[trigger] post_op_manual_bookmarks_spec(
                t,
                repo,
                bookmarks,
                action,
                target_change_id,
            ),
        ),
{
    broadcast use {keeps_bookmark_delete, keeps_bookmark_set_exact, keeps_each};

    reveal(post_op_manual_bookmarks_spec);
}

broadcast proof fn keeps_close_bookmarks(
    t: Trace,
    params: CloseParamsV,
    operation: Operation,
    info: SyncModeInfoV,
    head: Option<Seq<char>>,
)
    requires
        operation == Operation::Detach,
    ensures
        keeps(#[trigger] close_bookmarks_spec(t, params, operation, info, head)),
{
    broadcast use {keeps_post_op_bookmarks, keeps_post_op_manual_bookmarks};

    reveal(close_bookmarks_spec);
}

broadcast proof fn keeps_stale_here(t: Trace, path: Seq<char>)
    ensures
        keeps(#[trigger] stale_here_spec(t, path)),
{
    broadcast use keeps_is_workspace_stale;

    reveal(stale_here_spec);
}

broadcast proof fn keeps_stale_workspace_names(t: Trace, workspaces: Seq<(Seq<char>, Seq<char>)>)
    ensures
        keeps(#[trigger] stale_workspace_names_spec(t, workspaces)),
{
    broadcast use {keeps_stale_here, keeps_each};

    reveal(stale_workspace_names_spec);
}

broadcast proof fn keeps_post_op_stale(t: Trace, ws_paths: Pairs, pre_stale: Seq<Seq<char>>)
    ensures
        keeps(#[trigger] post_op_stale_spec(t, ws_paths, pre_stale)),
{
    broadcast use keeps_stale_workspace_names;

    reveal(post_op_stale_spec);
}

broadcast proof fn keeps_removable(t: Trace, params: CloseParamsV)
    ensures
        keeps(#[trigger] removable_spec(t, params)),
{
    reveal(removable_spec);
}

broadcast proof fn keeps_refresh(t: Trace, path: Seq<char>)
    ensures
        keeps(#[trigger] refresh_spec(t, path)),
{
    broadcast use keeps_update_workspace_stale;

    reveal(refresh_spec);
}

broadcast proof fn keeps_resolve_predicted_stale(
    t: Trace,
    predicted: Seq<Seq<char>>,
    ws_paths: Pairs,
)
    ensures
        keeps(#[trigger] resolve_predicted_stale_spec(t, predicted, ws_paths)),
{
    broadcast use {keeps_refresh, keeps_each};

    reveal(resolve_predicted_stale_spec);
}

broadcast proof fn keeps_finish_close(
    t: Trace,
    params: CloseParamsV,
    operation: Operation,
    fresh: ExecutionFreshnessV,
    predicted: Seq<Seq<char>>,
    op_warnings: Seq<Seq<char>>,
    head: Option<Seq<char>>,
)
    requires
        operation == Operation::Detach,
    ensures
        keeps(
            #[trigger] finish_close_spec(
                t,
                params,
                operation,
                fresh,
                predicted,
                op_warnings,
                head,
            ),
        ),
{
    broadcast use {
        keeps_close_bookmarks,
        keeps_post_op_stale,
        keeps_removable,
        keeps_resolve_predicted_stale,
    };

    reveal(finish_close_spec);
}

broadcast proof fn keeps_workspaces_in_descendants(t: Trace, repo: Seq<char>, revset: Seq<char>)
    ensures
        keeps(#[trigger] workspaces_in_descendants_spec(t, repo, revset)),
{
    reveal(workspaces_in_descendants_spec);
    lemma_words();
}

broadcast proof fn keeps_predict_stale_workspaces(
    t: Trace,
    repo: Seq<char>,
    operation: Operation,
    info: SyncModeInfoV,
    abandoned_ids: Seq<Seq<char>>,
    involved: Seq<Seq<char>>,
)
    requires
        operation == Operation::Detach,
    ensures
        keeps(
            #[trigger] predict_stale_workspaces_spec(
                t,
                repo,
                operation,
                info,
                abandoned_ids,
                involved,
            ),
        ),
{
    broadcast use keeps_workspaces_in_descendants;

    reveal(predict_stale_workspaces_spec);
}

broadcast proof fn keeps_capture_needed(
    t: Trace,
    entries: Seq<WorkspaceEntryV>,
    src_name: Seq<char>,
    tgt_name: Seq<char>,
    target_involved: bool,
)
    ensures
        keeps(#[trigger] capture_needed_spec(t, entries, src_name, tgt_name, target_involved)),
{
    broadcast use {keeps_snapshot_ws, keeps_each};

    reveal(capture_needed_spec);
}

broadcast proof fn keeps_capture_other(t: Trace, entry: WorkspaceEntryV)
    ensures
        keeps(#[trigger] capture_other_spec(t, entry)),
{
    broadcast use {keeps_is_workspace_stale, keeps_snapshot_ws};

    reveal(capture_other_spec);
}

broadcast proof fn keeps_capture_others(
    t: Trace,
    entries: Seq<WorkspaceEntryV>,
    src_name: Seq<char>,
    tgt_name: Seq<char>,
    target_involved: bool,
)
    ensures
        keeps(#[trigger] capture_others_spec(t, entries, src_name, tgt_name, target_involved)),
{
    broadcast use {keeps_capture_other, keeps_each};

    reveal(capture_others_spec);
}

broadcast proof fn keeps_descendant_first_workspaces(
    t: Trace,
    repo: Seq<char>,
    entries: Seq<WorkspaceEntryV>,
)
    ensures
        keeps(#[trigger] descendant_first_workspaces_spec(t, repo, entries)),
{
    reveal(descendant_first_workspaces_spec);
    lemma_words();
}

broadcast proof fn keeps_on_disk(t: Trace, entries: Seq<WorkspaceEntryV>)
    ensures
        keeps(#[trigger] on_disk_spec(t, entries)),
{
    broadcast use keeps_each;

    reveal(on_disk_spec);
}

broadcast proof fn keeps_captured(
    t: Trace,
    repo: Seq<char>,
    entries: Seq<WorkspaceEntryV>,
    src_name: Seq<char>,
    tgt_name: Seq<char>,
    target_involved: bool,
)
    ensures
        keeps(#[trigger] captured_spec(t, repo, entries, src_name, tgt_name, target_involved)),
{
    broadcast use {
        keeps_capture_needed,
        keeps_capture_others,
        keeps_descendant_first_workspaces,
        keeps_on_disk,
    };

    reveal(captured_spec);
}

broadcast proof fn keeps_same_dir(t: Trace, a: Seq<char>, b: Seq<char>)
    ensures
        keeps(#[trigger] same_dir_spec(t, a, b)),
{
    reveal(same_dir_spec);
}

broadcast proof fn keeps_check_one_path(
    t: Trace,
    entries: Seq<WorkspaceEntryV>,
    name: Seq<char>,
    path: Seq<char>,
)
    ensures
        keeps(#[trigger] check_one_path_spec(t, entries, name, path)),
{
    broadcast use keeps_same_dir;

    reveal(check_one_path_spec);
}

broadcast proof fn keeps_check_involved_paths(
    t: Trace,
    entries: Seq<WorkspaceEntryV>,
    src_name: Seq<char>,
    src_path: Seq<char>,
    target: Option<(Seq<char>, Seq<char>)>,
)
    ensures
        keeps(#[trigger] check_involved_paths_spec(t, entries, src_name, src_path, target)),
{
    broadcast use keeps_check_one_path;

    reveal(check_involved_paths_spec);
}

broadcast proof fn keeps_list_workspace_entries(t: Trace, repo: Seq<char>)
    ensures
        keeps(#[trigger] list_workspace_entries_spec(t, repo)),
{
    reveal(list_workspace_entries_spec);
    lemma_words();
}

broadcast proof fn keeps_only_snapshots_since(
    t: Trace,
    repo: Seq<char>,
    expected_op_id: Seq<char>,
    limit: usize,
)
    ensures
        keeps(#[trigger] only_snapshots_since_spec(t, repo, expected_op_id, limit)),
{
    reveal(only_snapshots_since_spec);
    lemma_words();
}

broadcast proof fn keeps_last_common_ancestor(
    t: Trace,
    repo: Seq<char>,
    id_a: Seq<char>,
    id_b: Seq<char>,
)
    ensures
        keeps(#[trigger] last_common_ancestor_spec(t, repo, id_a, id_b)),
{
    reveal(last_common_ancestor_spec);
    lemma_words();
}

broadcast proof fn keeps_current_op_head(t: Trace, repo_root: Seq<char>)
    ensures
        keeps(#[trigger] current_op_head_spec(t, repo_root)),
{
    reveal(current_op_head_spec);
}

broadcast proof fn keeps_op_head_now(t: Trace, repo: Seq<char>)
    ensures
        keeps(#[trigger] op_head_now_spec(t, repo)),
{
    broadcast use keeps_current_op_head;

    reveal(op_head_now_spec);
}

broadcast proof fn keeps_resolve_workspace_head_info(t: Trace, repo: Seq<char>, ws_name: Seq<char>)
    ensures
        keeps(#[trigger] resolve_workspace_head_info_spec(t, repo, ws_name)),
{
    broadcast use {keeps_is_trivial_description, keeps_nontrivial, keeps_resolve_change_id};

    reveal(resolve_workspace_head_info_spec);
    lemma_words();
}

broadcast proof fn keeps_detect_sync_mode(
    t: Trace,
    repo: Seq<char>,
    src_name: Seq<char>,
    tgt_name: Seq<char>,
)
    ensures
        keeps(#[trigger] detect_sync_mode_spec(t, repo, src_name, tgt_name)),
{
    broadcast use {
        keeps_last_common_ancestor,
        keeps_op_head_now,
        keeps_resolve_workspace_head_info,
    };

    reveal(detect_sync_mode_spec);
}

broadcast proof fn keeps_stable(
    t: Trace,
    repo: Seq<char>,
    src_name: Seq<char>,
    tgt_name: Seq<char>,
    n: nat,
)
    ensures
        keeps(#[trigger] stable_spec(t, repo, src_name, tgt_name, n)),
    decreases n,
{
    broadcast use {keeps_detect_sync_mode, keeps_op_head_now};

    reveal(stable_spec);
    if n > 0 {
        if let Out::Got(_, u) = detect_sync_mode_spec(t, repo, src_name, tgt_name) {
            if let Out::Got(_, w) = op_head_now_spec(u, repo) {
                keeps_stable(w, repo, src_name, tgt_name, (n - 1) as nat);
            }
        }
    }
}

broadcast proof fn keeps_recheck_execution_freshness(
    t: Trace,
    repo: Seq<char>,
    validated: SyncModeInfoV,
    src_name: Seq<char>,
    src_path: Seq<char>,
    tgt_name: Seq<char>,
    tgt_path: Seq<char>,
    target_involved: bool,
    plan_consuming: bool,
)
    ensures
        keeps(
            #[trigger] recheck_execution_freshness_spec(
                t,
                repo,
                validated,
                src_name,
                src_path,
                tgt_name,
                tgt_path,
                target_involved,
                plan_consuming,
            ),
        ),
{
    broadcast use {
        keeps_check_involved_paths,
        keeps_list_workspace_entries,
        keeps_only_snapshots_since,
        keeps_stable,
    };

    reveal(recheck_execution_freshness_spec);
}

broadcast proof fn keeps_prepare_execution_freshness(
    t: Trace,
    repo: Seq<char>,
    validated: SyncModeInfoV,
    src_name: Seq<char>,
    src_path: Seq<char>,
    tgt_name: Seq<char>,
    tgt_path: Seq<char>,
    target_involved: bool,
    plan_consuming: bool,
    advance_target_change_id: Option<Seq<char>>,
)
    ensures
        keeps(
            #[trigger] prepare_execution_freshness_spec(
                t,
                repo,
                validated,
                src_name,
                src_path,
                tgt_name,
                tgt_path,
                target_involved,
                plan_consuming,
                advance_target_change_id,
            ),
        ),
{
    broadcast use {
        keeps_captured,
        keeps_check_involved_paths,
        keeps_list_workspace_entries,
        keeps_recheck_execution_freshness,
    };

    reveal(prepare_execution_freshness_spec);
}

broadcast proof fn keeps_validate_head_info(
    t: Trace,
    repo: Seq<char>,
    info: SyncModeInfoV,
    src_name: Seq<char>,
    tgt_name: Seq<char>,
    allow_equivalent: bool,
)
    ensures
        keeps(
            #[trigger] validate_head_info_spec(
                t,
                repo,
                info,
                src_name,
                tgt_name,
                allow_equivalent,
            ),
        ),
{
    broadcast use {keeps_op_head_now, keeps_stable};

    reveal(validate_head_info_spec);
}

broadcast proof fn keeps_close_with_info(t: Trace, params: CloseParamsV, info: SyncModeInfoV)
    requires
        params.method == CloseMethod::Detach,
    ensures
        keeps(#[trigger] close_with_info_spec(t, params, info)),
{
    broadcast use {
        keeps_execute_close,
        keeps_finish_close,
        keeps_predict_stale_workspaces,
        keeps_prepare_execution_freshness,
        keeps_validate_head_info,
    };

    reveal(close_with_info_spec);
}

broadcast proof fn keeps_close(t: Trace, params: CloseParamsV)
    requires
        params.method == CloseMethod::Detach,
    ensures
        keeps(#[trigger] close_spec(t, params)),
{
    broadcast use {keeps_close_with_info, keeps_detect_sync_mode};

    reveal(close_spec);
}

/// Detaching a workspace abandons, squashes and rebases nothing, whatever jj answers.
pub proof fn law_detaching_keeps_revisions(t: Trace, params: CloseParamsV, info: SyncModeInfoV)
    requires
        params.method == CloseMethod::Detach,
    ensures
        keeps(close_spec(t, params)),
        keeps(close_with_info_spec(t, params, info)),
{
    broadcast use {keeps_close, keeps_close_with_info};

}

} // verus!
