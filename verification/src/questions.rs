//! What the questions and the changes ask of jj and of the machine, to the letter.

use vstd::prelude::*;

use crate::action_history::{store_spec, temp_of};
use crate::commands::after::refresh_spec;
use crate::commands::close::{
    abandon_surviving_spec, close_by_abandoning_spec, close_by_detaching_spec, source_warnings_spec,
    target_guard_spec, CloseParamsV,
};
use crate::commands::create::{absolute_spec, create_spec, dress_spec, paths_equivalent_spec};
use crate::commands::plan::{op_head_now_spec, required_spec};
use crate::commands::protect::{
    bad_baseline, capture_other_spec, prepare_execution_freshness_spec,
    recheck_execution_freshness_spec, same_dir_spec, ExecutionFreshnessV, RECHECK_OP_SCAN_LIMIT,
};
use crate::commands::sync::finish_sync_spec;
use crate::commands::transfer::{finish_transfer_spec, TransferParamsV};
use crate::commands::types::{
    CloseTransferResultV, CreateResultV, Operation, PostOperationErrorV, SyncModeInfoV,
};
use crate::completion::current_workspace_name_spec;
use crate::config::{create_config_spec, ConfigV};
use crate::effects::{call, named_call};
use crate::finder_xattrs::{capture_file_spec, process_file_spec, CapturedV, XattrGuardV};
use crate::graph::{forks, is_effectively_linear_spec};
use crate::hooks::{hook_vars_spec, path_vars_spec, run_one_spec, say_spec, start_one_spec};
use crate::jj_logs::{DiffSummaryV, RevisionInfoV};
use crate::jj_parse::{CompletionWorkspaceV, OperationV, WorkspaceEntryV};
use crate::jj_run::{jj_output_spec, jj_timed_spec};
use crate::jj_utils::{
    check_chain_safety_spec, check_revision_safety_spec, check_trivial_head_spec,
    check_working_copy_safety_spec, edit_workspace_head_spec, ensure_ji_dir_spec, examine_spec,
    filter_existing_revisions_spec, is_head_spec, is_trivial_description_spec, is_trivial_head_spec,
    make_desc_spec, make_head_spec, matches_default_new_description_spec, or_at, plainly_trivial,
    present_spec, resolve_change_id_spec, resolve_workspace_head_info_spec, vacate_spec,
    workspace_unique_change_ids_spec, Op, RevisionSafetyV, WalkV, WorkspaceHeadInfoV,
};
use crate::jujutsu::{
    all_wcs_spec, completion_local_bookmarks_spec, completion_workspaces_spec, current_op_head_spec,
    current_op_id_spec, current_workspace_root_spec, descendant_first_workspaces_spec,
    has_unsnapshotted_changes_spec, last_nonempty_timestamp_spec, list_workspace_entries_spec,
    log_graph_with_heads_inner_spec, only_snapshots_since_spec, op_log_spec, op_restore_spec,
    op_show_spec, snapshot_ws_spec, template_args, workspace_root_by_name_spec, workspace_root_spec,
    MAX_DESTRUCTIVE_REVISIONS,
};
use crate::operations::{
    fast_forward_spec, forget_workspace_spec, guard_spec, junction_spec,
    merge_abandon_parents_old_spec, merge_spec, merge_squash_spec, rebase_spec, squash_chain_spec,
    step_both_spec, sync_spec, SyncOutcomeV, WsRefV,
};
use crate::paths::{components_spec, is_absolute_spec, parent, path_join_spec};
use crate::revisions::{
    abandon_revisions_spec, ancestor_ids_spec, bookmark_change_id_spec, bookmark_delete_spec,
    bookmark_set_exact_spec, bookmark_set_spec, closest_ancestor_workspace_spec,
    create_bookmark_at_spec, create_bookmark_spec, default_workspace_revisions_spec, distinct_spec,
    last_common_ancestor_spec, local_bookmarks_on_spec, metaedit_author_in_workspace_spec,
    new_merge_spec, new_on_in_workspace_spec, progress_workspace_spec, rebase_source_spec,
    resolve_sanitized_bookmark_spec, revision_descriptions_spec, revision_diff_summary_spec,
    shortest_change_ids_spec, split_revision_spec, squash_into_spec, symbols,
    workspace_bookmarks_spec, workspace_forget_orphaned_spec, workspace_forget_spec,
    workspace_revisions_with_bookmarks_spec, workspaces_in_descendants_spec,
};
use crate::run::{tell_close_spec, tell_errors_spec, tell_stale_spec, tell_transfer_spec};
use crate::search::{dec_spec, replace_spec};
use crate::shell::checks::{
    bash_primary_spec, check_primary_spec, check_writable_spec, posix_primary_spec,
};
use crate::shell::env::{from_process_env_spec, omz_spec, write_directive_cd_spec, ShellEnvV};
use crate::shell::install::{
    check_owned_spec, current_text_spec, drop_block_spec, existing_or_empty_spec, install_fish_spec,
    place_fish_spec, preview_posix_spec, preview_spec, remove_owned_spec, uninstall_fish_spec,
    write_rc_spec, InstallOpts, UninstallOpts,
};
use crate::shell::markers::{HitV, ViaV};
use crate::shell::scan::{add_dir_spec, add_if_file_spec, look_at_spec, ScanLocationV};
use crate::shell::status::{
    candidate_spec, display_canonical_spec, print_candidates_spec, print_file_spec,
    print_fish_files_spec, print_posix_files_spec, rc_stanza_state_spec, state_for_spec,
    status_fish_spec,
};
use crate::shell::write::{
    file_mode_spec, fill_temp_spec, ready_dir_spec, real_target_spec, swap_in_spec, temp_path_spec,
    write_atomic_spec, WriteOutcome,
};
use crate::stale::{
    disk_files_spec, file_show_raw_spec, found_spec, is_working_copy_stale_spec,
    is_workspace_stale_spec, stale_here_spec, tracked_files_spec, update_stale_spec,
    update_workspace_stale_spec, Found,
};
use crate::subprocess_log::{init_spec, log_path_spec, open_log_spec};
use crate::tape::{Act, Out, ReplyV};
use crate::text::{join_spec, trim_spec, Cut};
use crate::text_map::Pairs;
use crate::workspaces::{fill_default_spec, filled_spec, list_workspaces_spec, WorkspaceV};

verus! {

/// The first thing that `create_bookmark` asks for.
pub proof fn law_create_bookmark_asks(repo: Seq<char>, ws_name: Seq<char>, bookmark_name: Seq<char>)
    ensures
        create_bookmark_spec(Seq::empty(), repo, ws_name, bookmark_name) == Out::<()>::Ask(
            call(
                Act::JjRepo,
                repo,
                seq![
                    "bookmark"@,
                    "create"@,
                    "--revision"@,
                    "\""@ + replace_spec(
                        replace_spec(ws_name, "\\"@, "\\\\"@),
                        "\""@,
                        "\\\""@,
                    ) + "\"@"@,
                    "--"@,
                    bookmark_name,
                ],
            ),
        ),
{
    reveal(create_bookmark_spec);
}

/// The first thing that `create_bookmark_at` asks for.
pub proof fn law_create_bookmark_at_asks(
    repo: Seq<char>,
    bookmark_name: Seq<char>,
    revision: Seq<char>,
)
    ensures
        create_bookmark_at_spec(Seq::empty(), repo, bookmark_name, revision) == Out::<()>::Ask(
            call(
                Act::JjRepo,
                repo,
                seq!["bookmark"@, "create"@, "--revision"@, revision, "--"@, bookmark_name],
            ),
        ),
{
    reveal(create_bookmark_at_spec);
}

/// The first thing that `bookmark_set` asks for.
pub proof fn law_bookmark_set_asks(repo: Seq<char>, bookmark: Seq<char>, revision: Seq<char>)
    ensures
        bookmark_set_spec(Seq::empty(), repo, bookmark, revision) == Out::<()>::Ask(
            call(
                Act::JjRepo,
                repo,
                seq!["bookmark"@, "set"@, "--revision"@, revision, "--"@, bookmark],
            ),
        ),
{
    reveal(bookmark_set_spec);
}

/// The first thing that `bookmark_set_exact` asks for.
pub proof fn law_bookmark_set_exact_asks(repo: Seq<char>, bookmark: Seq<char>, revision: Seq<char>)
    ensures
        bookmark_set_exact_spec(Seq::empty(), repo, bookmark, revision) == Out::<()>::Ask(
            call(
                Act::JjRepo,
                repo,
                seq![
                    "bookmark"@,
                    "set"@,
                    "--allow-backwards"@,
                    "--revision"@,
                    revision,
                    "--"@,
                    bookmark,
                ],
            ),
        ),
{
    reveal(bookmark_set_exact_spec);
}

/// The first thing that `bookmark_delete` asks for.
pub proof fn law_bookmark_delete_asks(repo: Seq<char>, bookmark: Seq<char>)
    ensures
        bookmark_delete_spec(Seq::empty(), repo, bookmark) == Out::<()>::Ask(
            call(Act::JjRepo, repo, seq!["bookmark"@, "delete"@, "--"@, bookmark]),
        ),
{
    reveal(bookmark_delete_spec);
}

/// The first thing that `local_bookmarks_on` asks for.
pub proof fn law_local_bookmarks_on_asks(repo: Seq<char>, revset: Seq<char>)
    ensures
        local_bookmarks_on_spec(Seq::empty(), repo, revset) == Out::<Seq<Seq<char>>>::Ask(
            call(
                Act::JjRepo,
                repo,
                seq![
                    "log"@,
                    "--no-graph"@,
                    "--revision"@,
                    revset,
                    "--template"@,
                    "local_bookmarks.map(|b| b.name()).join(\"\\x01\")"@,
                ],
            ),
        ),
{
    reveal(local_bookmarks_on_spec);
}

/// The first thing that `bookmark_change_id` asks for.
pub proof fn law_bookmark_change_id_asks(repo: Seq<char>, bookmark: Seq<char>)
    ensures
        bookmark_change_id_spec(Seq::empty(), repo, bookmark) == Out::<Option<Seq<char>>>::Ask(
            call(
                Act::JjRepo,
                repo,
                seq![
                    "log"@,
                    "--no-graph"@,
                    "--revision"@,
                    "latest(bookmarks(exact:\""@ + replace_spec(
                        replace_spec(bookmark, "\\"@, "\\\\"@),
                        "\""@,
                        "\\\""@,
                    ) + "\"))"@,
                    "--template"@,
                    "change_id"@,
                ],
            ),
        ),
{
    reveal(bookmark_change_id_spec);
}

/// The first thing that `resolve_sanitized_bookmark` asks for.
pub proof fn law_resolve_sanitized_bookmark_asks(repo: Seq<char>, derived: Seq<char>)
    ensures
        resolve_sanitized_bookmark_spec(Seq::empty(), repo, derived) == Out::<Option<(Seq<char>, Seq<char>)>>::Ask(
            call(
                Act::JjRepo,
                repo,
                seq![
                    "log"@,
                    "--no-graph"@,
                    "--revision"@,
                    "latest(bookmarks(exact:\""@ + replace_spec(
                        replace_spec(derived, "\\"@, "\\\\"@),
                        "\""@,
                        "\\\""@,
                    ) + "\"))"@,
                    "--template"@,
                    "change_id"@,
                ],
            ),
        ),
{
    reveal(resolve_sanitized_bookmark_spec);
    reveal(bookmark_change_id_spec);
}

/// The first thing that `workspace_bookmarks` asks for.
pub proof fn law_workspace_bookmarks_asks(
    repo: Seq<char>,
    ws_change_id: Seq<char>,
    default_change_id: Seq<char>,
)
    ensures
        workspace_bookmarks_spec(Seq::empty(), repo, ws_change_id, default_change_id) == Out::<Seq<(Seq<char>, Seq<char>)>>::Ask(
            call(
                Act::JjRepo,
                repo,
                seq![
                    "log"@,
                    "--no-graph"@,
                    "--revision"@,
                    if ws_change_id == default_change_id { "::"@ + ws_change_id } else { default_change_id + ".."@ + ws_change_id },
                    "--template"@,
                    "local_bookmarks.map(|b| b.name() ++ \"\\x1f\" ++ change_id).join(\"\\x01\") ++ \"\\x1e\""@,
                ],
            ),
        ),
{
    reveal(workspace_bookmarks_spec);
}

/// The first thing that `revision_diff_summary` asks for.
pub proof fn law_revision_diff_summary_asks(repo: Seq<char>, change_id: Seq<char>)
    ensures
        revision_diff_summary_spec(Seq::empty(), repo, change_id) == Out::<DiffSummaryV>::Ask(
            call(Act::JjRepo, repo, seq!["diff"@, "--revision"@, change_id, "--summary"@]),
        ),
{
    reveal(revision_diff_summary_spec);
}

/// The first thing that `workspace_revisions_with_bookmarks` asks for.
pub proof fn law_workspace_revisions_with_bookmarks_asks(
    repo: Seq<char>,
    ws_change_id: Seq<char>,
    default_change_id: Seq<char>,
)
    ensures
        workspace_revisions_with_bookmarks_spec(
            Seq::empty(),
            repo,
            ws_change_id,
            default_change_id,
        ) == Out::<(Seq<RevisionInfoV>, Seq<(Seq<char>, Seq<char>)>)>::Ask(
            call(
                Act::JjRepo,
                repo,
                seq![
                    "log"@,
                    "--no-graph"@,
                    "--revision"@,
                    default_change_id + ".."@ + ws_change_id,
                    "--template"@,
                    "change_id ++ \"\\x1f\" ++ local_bookmarks.map(|b| b.name()).join(\"\\x01\") ++ \"\\x1f\" ++ description ++ \"\\x1e\""@,
                ],
            ),
        ),
{
    reveal(workspace_revisions_with_bookmarks_spec);
}

/// The first thing that `default_workspace_revisions` asks for.
pub proof fn law_default_workspace_revisions_asks(repo: Seq<char>, default_change_id: Seq<char>)
    ensures
        default_workspace_revisions_spec(Seq::empty(), repo, default_change_id) == Out::<Seq<RevisionInfoV>>::Ask(
            call(
                Act::JjRepo,
                repo,
                seq![
                    "log"@,
                    "--no-graph"@,
                    "--revision"@,
                    "::"@ + default_change_id,
                    "--template"@,
                    "change_id ++ \"\\x1f\" ++ description ++ \"\\x1e\""@,
                ],
            ),
        ),
{
    reveal(default_workspace_revisions_spec);
}

/// The first thing that `ancestor_ids` asks for.
pub proof fn law_ancestor_ids_asks(repo: Seq<char>, change_id: Seq<char>)
    ensures
        ancestor_ids_spec(Seq::empty(), repo, change_id) == Out::<Seq<Seq<char>>>::Ask(
            call(
                Act::JjRepo,
                repo,
                seq![
                    "log"@,
                    "--no-graph"@,
                    "--revision"@,
                    "::"@ + change_id,
                    "--template"@,
                    "change_id ++ \"\\n\""@,
                ],
            ),
        ),
{
    reveal(ancestor_ids_spec);
}

/// The first thing that `revision_descriptions` asks for.
pub proof fn law_revision_descriptions_asks(repo: Seq<char>, revset: Seq<char>)
    ensures
        revision_descriptions_spec(Seq::empty(), repo, revset) == Out::<Seq<(Seq<char>, Seq<char>)>>::Ask(
            call(
                Act::JjRepo,
                repo,
                seq![
                    "log"@,
                    "--no-graph"@,
                    "--revision"@,
                    revset,
                    "--template"@,
                    "change_id ++ \"\\x1f\" ++ description ++ \"\\x1e\""@,
                ],
            ),
        ),
{
    reveal(revision_descriptions_spec);
}

/// The first thing that `closest_ancestor_workspace` asks for.
pub proof fn law_closest_ancestor_workspace_asks(
    repo: Seq<char>,
    source_change_id: Seq<char>,
    candidate_ids: Seq<Seq<char>>,
)
    requires
        !(candidate_ids.len() == 0),
    ensures
        closest_ancestor_workspace_spec(Seq::empty(), repo, source_change_id, candidate_ids) == Out::<Option<Seq<char>>>::Ask(
            call(
                Act::JjRepo,
                repo,
                seq![
                    "log"@,
                    "--no-graph"@,
                    "--limit"@,
                    "1"@,
                    "--revision"@,
                    "("@ + join_spec(candidate_ids, " | "@) + ") & ::"@ + source_change_id,
                    "--template"@,
                    "change_id"@,
                ],
            ),
        ),
{
    reveal(closest_ancestor_workspace_spec);
}

/// The first thing that `last_common_ancestor` asks for.
pub proof fn law_last_common_ancestor_asks(repo: Seq<char>, id_a: Seq<char>, id_b: Seq<char>)
    ensures
        last_common_ancestor_spec(Seq::empty(), repo, id_a, id_b) == Out::<Seq<char>>::Ask(
            call(
                Act::JjRepo,
                repo,
                seq![
                    "log"@,
                    "--no-graph"@,
                    "--revision"@,
                    "latest(fork_point("@ + id_a + " | "@ + id_b + "))"@,
                    "--template"@,
                    "change_id"@,
                ],
            ),
        ),
{
    reveal(last_common_ancestor_spec);
}

/// The first thing that `shortest_change_ids` asks for.
pub proof fn law_shortest_change_ids_asks(repo: Seq<char>, ids: Seq<Seq<char>>)
    requires
        !(distinct_spec(ids).len() == 0),
    ensures
        shortest_change_ids_spec(Seq::empty(), repo, ids) == Out::<Pairs>::Ask(
            call(
                Act::JjRepo,
                repo,
                seq![
                    "log"@,
                    "--no-graph"@,
                    "--revision"@,
                    present_spec(symbols(distinct_spec(ids))),
                    "--template"@,
                    "change_id ++ \"\\x1f\" ++ change_id.shortest() ++ \"\\x1e\""@,
                ],
            ),
        ),
{
    reveal(shortest_change_ids_spec);
}

/// The first thing that `workspaces_in_descendants` asks for.
pub proof fn law_workspaces_in_descendants_asks(repo: Seq<char>, revset: Seq<char>)
    ensures
        workspaces_in_descendants_spec(Seq::empty(), repo, revset) == Out::<Seq<Seq<char>>>::Ask(
            call(
                Act::JjRepo,
                repo,
                seq![
                    "log"@,
                    "--no-graph"@,
                    "--revision"@,
                    "("@ + revset + ")::"@,
                    "--template"@,
                    "if(working_copies, working_copies ++ \"\\x1e\")"@,
                ],
            ),
        ),
{
    reveal(workspaces_in_descendants_spec);
}

/// The first thing that `workspace_forget` asks for.
pub proof fn law_workspace_forget_asks(repo: Seq<char>, ws_path: Seq<char>, name: Seq<char>)
    ensures
        workspace_forget_spec(Seq::empty(), repo, ws_path, name) == Out::<()>::Ask(
            call(Act::JjWsLive, ws_path, seq!["util"@, "snapshot"@]),
        ),
{
    reveal(workspace_forget_spec);
    reveal(snapshot_ws_spec);
}

/// The first thing that `workspace_forget_orphaned` asks for.
pub proof fn law_workspace_forget_orphaned_asks(repo: Seq<char>, name: Seq<char>)
    ensures
        workspace_forget_orphaned_spec(Seq::empty(), repo, name) == Out::<()>::Ask(
            call(Act::JjRepo, repo, seq!["workspace"@, "forget"@, "--"@, name]),
        ),
{
    reveal(workspace_forget_orphaned_spec);
}

/// The first thing that `metaedit_author_in_workspace` asks for.
pub proof fn law_metaedit_author_in_workspace_asks(ws_path: Seq<char>, author: Seq<char>)
    ensures
        metaedit_author_in_workspace_spec(Seq::empty(), ws_path, author) == Out::<()>::Ask(
            call(Act::JjWs, ws_path, seq!["metaedit"@, "--author"@, author]),
        ),
{
    reveal(metaedit_author_in_workspace_spec);
}

/// The first thing that `new_merge` asks for.
pub proof fn law_new_merge_asks(
    ws_path: Seq<char>,
    parents: Seq<Seq<char>>,
    msg: Seq<char>,
    author: Option<Seq<char>>,
)
    ensures
        new_merge_spec(
            Seq::empty(),
            ws_path,
            parents,
            msg,
            author,
        ) == Out::<Seq<char>>::Ask(call(Act::Exists, ws_path, Seq::empty())),
{
    reveal(new_merge_spec);
}

/// The first thing that `new_on_in_workspace` asks for.
pub proof fn law_new_on_in_workspace_asks(
    ws_path: Seq<char>,
    revision: Seq<char>,
    msg: Seq<char>,
    author: Option<Seq<char>>,
)
    ensures
        new_on_in_workspace_spec(
            Seq::empty(),
            ws_path,
            revision,
            msg,
            author,
        ) == Out::<()>::Ask(call(Act::Exists, ws_path, Seq::empty())),
{
    reveal(new_on_in_workspace_spec);
}

/// The first thing that `progress_workspace` asks for.
pub proof fn law_progress_workspace_asks(
    ws_path: Seq<char>,
    msg: Seq<char>,
    author: Option<Seq<char>>,
)
    ensures
        progress_workspace_spec(Seq::empty(), ws_path, msg, author) == Out::<()>::Ask(
            call(Act::Exists, ws_path, Seq::empty()),
        ),
{
    reveal(progress_workspace_spec);
}

/// The first thing that `rebase_source` asks for.
pub proof fn law_rebase_source_asks(repo: Seq<char>, source_revset: Seq<char>, onto: Seq<char>)
    ensures
        rebase_source_spec(Seq::empty(), repo, source_revset, onto) == Out::<Seq<char>>::Ask(
            call(Act::JjRepo, repo, seq!["rebase"@, "--source"@, source_revset, "--onto"@, onto]),
        ),
{
    reveal(rebase_source_spec);
}

/// The first thing that `squash_into` asks for.
pub proof fn law_squash_into_asks(
    repo: Seq<char>,
    from_revset: Seq<char>,
    into_rev: Seq<char>,
    message: Seq<char>,
)
    ensures
        squash_into_spec(Seq::empty(), repo, from_revset, into_rev, message) == Out::<Seq<char>>::Ask(
            call(
                Act::JjRepo,
                repo,
                seq!["squash"@, "--from"@, from_revset, "--into"@, into_rev, "--message"@, message],
            ),
        ),
{
    reveal(squash_into_spec);
}

/// The first thing that `split_revision` asks for.
pub proof fn law_split_revision_asks(repo: Seq<char>, change_id: Seq<char>)
    ensures
        split_revision_spec(Seq::empty(), repo, change_id) == Out::<()>::Ask(
            call(Act::JjTerminal, repo, seq!["split"@, "--revision"@, change_id]),
        ),
{
    reveal(split_revision_spec);
}

/// The first thing that `abandon_revisions` asks for.
pub proof fn law_abandon_revisions_asks(repo: Seq<char>, change_ids: Seq<Seq<char>>)
    requires
        !(change_ids.len() == 0),
        !(change_ids.len() > MAX_DESTRUCTIVE_REVISIONS),
    ensures
        abandon_revisions_spec(Seq::empty(), repo, change_ids) == Out::<()>::Ask(
            call(Act::JjRepo, repo, seq!["abandon"@, "--"@] + change_ids),
        ),
{
    reveal(abandon_revisions_spec);
}

/// The first thing that `store` asks for.
pub proof fn law_store_asks(path: Seq<char>, json: Seq<char>)
    ensures
        store_spec(Seq::empty(), path, json) == Out::<()>::Ask(
            call(Act::WriteFile, temp_of(path), seq![json]),
        ),
{
    reveal(store_spec);
}

/// The first thing that `forget_workspace` asks for.
pub proof fn law_forget_workspace_asks(repo: Seq<char>, ws_path: Seq<char>, ws_name: Seq<char>)
    ensures
        forget_workspace_spec(Seq::empty(), repo, ws_path, ws_name) == Out::<()>::Ask(
            call(Act::Exists, ws_path, Seq::empty()),
        ),
{
    reveal(forget_workspace_spec);
    reveal(is_workspace_stale_spec);
}

/// The first thing that `squash_chain` asks for.
pub proof fn law_squash_chain_asks(
    repo: Seq<char>,
    src_name: Seq<char>,
    src_eff: Seq<char>,
    tgt_name: Seq<char>,
    tgt_eff: Seq<char>,
    lca: Seq<char>,
)
    ensures
        squash_chain_spec(Seq::empty(), repo, src_name, src_eff, tgt_name, tgt_eff, lca) == Out::<Seq<char>>::Ask(
            call(
                Act::JjRepo,
                repo,
                seq![
                    "log"@,
                    "--no-graph"@,
                    "--revision"@,
                    "latest(roots("@ + lca + ".."@ + src_eff + "))"@,
                    "--template"@,
                    "change_id ++ \"\\n\""@,
                ],
            ),
        ),
{
    reveal(squash_chain_spec);
    reveal(resolve_change_id_spec);
}

/// The first thing that `junction` asks for.
pub proof fn law_junction_asks(
    repo: Seq<char>,
    source_ws_path: Seq<char>,
    branch_rev: Seq<char>,
    author: Option<Seq<char>>,
)
    ensures
        junction_spec(Seq::empty(), repo, source_ws_path, branch_rev, author) == Out::<Seq<char>>::Ask(
            call(
                Act::JjRepo,
                repo,
                seq![
                    "log"@,
                    "--no-graph"@,
                    "--revision"@,
                    "("@ + branch_rev + ") ~ parents(children("@ + branch_rev + "))"@,
                    "--template"@,
                    "\".\""@,
                ],
            ),
        ),
{
    reveal(junction_spec);
    reveal(is_head_spec);
}

/// The first thing that `guard` asks for.
pub proof fn law_operations_guard_asks(repo: Seq<char>, ws: WsRefV)
    requires
        !(ws.info.trivial_id is Some),
    ensures
        guard_spec(Seq::empty(), repo, ws) == Out::<()>::Ask(
            call(
                Act::JjRepo,
                repo,
                seq![
                    "log"@,
                    "--no-graph"@,
                    "--revision"@,
                    (
                        "\""@ + replace_spec(
                            replace_spec(ws.name, "\\"@, "\\\\"@),
                            "\""@,
                            "\\\""@,
                        ) + "\""@
                    ) + "@"@,
                    "--template"@,
                    "change_id ++ \"\\x1f\" ++ local_bookmarks.map(|b| b.name()).join(\"\\x01\") ++ \"\\x1f\" ++ description ++ \"\\x1e\""@,
                ],
            ),
        ),
{
    reveal(guard_spec);
    reveal(check_working_copy_safety_spec);
}

/// The first thing that `fast_forward` asks for.
pub proof fn law_fast_forward_asks(
    repo: Seq<char>,
    behind: WsRefV,
    ahead_name: Seq<char>,
    ahead_head: Seq<char>,
    author: Option<Seq<char>>,
)
    ensures
        fast_forward_spec(Seq::empty(), repo, behind, ahead_name, ahead_head, author) == Out::<Seq<Seq<char>>>::Ask(
            call(
                Act::JjWsLive,
                behind.path,
                seq![
                    "new"@,
                    "--message"@,
                    make_desc_spec(
                        Op::FastForward,
                        Some(behind.name + "@ to "@ + ahead_name + "@"@ + ahead_head),
                    ),
                    "--"@,
                    or_at(Some(ahead_head)),
                ],
            ),
        ),
{
    reveal(fast_forward_spec);
    reveal(make_head_spec);
}

/// The first thing that `step_both` asks for.
pub proof fn law_step_both_asks(
    src: WsRefV,
    tgt: WsRefV,
    merge_id: Seq<char>,
    author: Option<Seq<char>>,
)
    ensures
        step_both_spec(Seq::empty(), src, tgt, merge_id, author) == Out::<()>::Ask(
            call(Act::Exists, src.path, Seq::empty()),
        ),
{
    reveal(step_both_spec);
    reveal(progress_workspace_spec);
}

/// The first thing that `merge` asks for.
pub proof fn law_merge_asks(repo: Seq<char>, src: WsRefV, tgt: WsRefV, author: Option<Seq<char>>)
    ensures
        merge_spec(Seq::empty(), repo, src, tgt, author) == Out::<Seq<Seq<char>>>::Ask(
            call(Act::JjWsLive, tgt.path, seq!["util"@, "snapshot"@]),
        ),
{
    reveal(merge_spec);
    reveal(snapshot_ws_spec);
}

/// The first thing that `sync` asks for.
pub proof fn law_operations_sync_asks(
    repo: Seq<char>,
    src: WsRefV,
    tgt: WsRefV,
    author: Option<Seq<char>>,
)
    ensures
        sync_spec(Seq::empty(), repo, src, tgt, author) == Out::<SyncOutcomeV>::Ask(
            call(
                Act::JjRepo,
                repo,
                seq![
                    "log"@,
                    "--no-graph"@,
                    "--revision"@,
                    "latest(fork_point("@ + src.info.effective_head + " | "@ + tgt.info.effective_head + "))"@,
                    "--template"@,
                    "change_id"@,
                ],
            ),
        ),
{
    reveal(sync_spec);
    reveal(last_common_ancestor_spec);
}

/// The first thing that `rebase` asks for.
pub proof fn law_rebase_asks(
    repo: Seq<char>,
    src_info: WorkspaceHeadInfoV,
    tgt: WsRefV,
    lca: Seq<char>,
    author: Option<Seq<char>>,
)
    ensures
        rebase_spec(Seq::empty(), repo, src_info, tgt, lca, author) == Out::<()>::Ask(
            call(
                Act::JjRepo,
                repo,
                seq![
                    "rebase"@,
                    "--source"@,
                    "roots("@ + lca + ".."@ + src_info.effective_head + ")"@,
                    "--onto"@,
                    tgt.info.effective_head,
                ],
            ),
        ),
{
    reveal(rebase_spec);
    reveal(rebase_source_spec);
}

/// The first thing that `merge_squash` asks for.
pub proof fn law_merge_squash_asks(
    repo: Seq<char>,
    src: WsRefV,
    tgt: WsRefV,
    lca: Seq<char>,
    author: Option<Seq<char>>,
)
    ensures
        merge_squash_spec(Seq::empty(), repo, src, tgt, lca, author) == Out::<Seq<Seq<char>>>::Ask(
            call(Act::JjWsLive, tgt.path, seq!["util"@, "snapshot"@]),
        ),
{
    reveal(merge_squash_spec);
    reveal(snapshot_ws_spec);
}

/// The first thing that `merge_abandon_parents_old` asks for.
pub proof fn law_merge_abandon_parents_old_asks(
    repo: Seq<char>,
    src: WsRefV,
    tgt: WsRefV,
    author: Option<Seq<char>>,
)
    ensures
        merge_abandon_parents_old_spec(Seq::empty(), repo, src, tgt, author) == Out::<Seq<Seq<char>>>::Ask(
            call(Act::JjWsLive, tgt.path, seq!["util"@, "snapshot"@]),
        ),
{
    reveal(merge_abandon_parents_old_spec);
    reveal(snapshot_ws_spec);
}

/// The first thing that `path_vars` asks for.
pub proof fn law_path_vars_asks(repo_root: Seq<char>, bookmark: Seq<char>, repo_name: Seq<char>)
    ensures
        path_vars_spec(
            Seq::empty(),
            repo_root,
            bookmark,
            repo_name,
        ) == Out::<Pairs>::Ask(call(Act::EnvVar, "HOME"@, Seq::empty())),
{
    reveal(path_vars_spec);
}

/// The first thing that `hook_vars` asks for.
pub proof fn law_hook_vars_asks(
    repo: Seq<char>,
    ws_path: Seq<char>,
    ws_name: Seq<char>,
    bookmark: Seq<char>,
    repo_name: Seq<char>,
)
    ensures
        hook_vars_spec(
            Seq::empty(),
            repo,
            ws_path,
            ws_name,
            bookmark,
            repo_name,
        ) == Out::<Pairs>::Ask(call(Act::EnvVar, "HOME"@, Seq::empty())),
{
    reveal(hook_vars_spec);
    reveal(path_vars_spec);
}

/// The first thing that `say` asks for.
pub proof fn law_say_asks(quiet: bool, msg: Seq<char>)
    requires
        !(quiet),
    ensures
        say_spec(Seq::empty(), quiet, msg) == Out::<()>::Ask(
            call(Act::Warn, Seq::empty(), seq![msg]),
        ),
{
}

/// The first thing that `run_one` asks for.
pub proof fn law_run_one_asks(
    label: Seq<char>,
    name: Seq<char>,
    cmd: Seq<char>,
    cwd: Seq<char>,
    quiet: bool,
)
    requires
        !(quiet),
    ensures
        run_one_spec(Seq::empty(), label, name, cmd, cwd, quiet) == Out::<()>::Ask(
            call(
                Act::Warn,
                Seq::empty(),
                seq!["(ji)::hook running "@ + label + "/"@ + name + ": "@ + cmd],
            ),
        ),
{
    reveal(run_one_spec);
}

/// The first thing that `start_one` asks for.
pub proof fn law_start_one_asks(
    label: Seq<char>,
    name: Seq<char>,
    cmd: Seq<char>,
    cwd: Seq<char>,
    quiet: bool,
)
    requires
        !(quiet),
    ensures
        start_one_spec(Seq::empty(), label, name, cmd, cwd, quiet) == Out::<()>::Ask(
            call(
                Act::Warn,
                Seq::empty(),
                seq!["(ji)::hook starting "@ + label + "/"@ + name + ": "@ + cmd],
            ),
        ),
{
    reveal(start_one_spec);
}

/// The first thing that `current_workspace_name` asks for.
pub proof fn law_current_workspace_name_asks(workspaces: Seq<CompletionWorkspaceV>)
    ensures
        current_workspace_name_spec(Seq::empty(), workspaces) == Out::<Option<Seq<char>>>::Ask(
            call(Act::CurrentDir, ""@, Seq::empty()),
        ),
{
    reveal(current_workspace_name_spec);
}

/// The first thing that `snapshot_ws` asks for.
pub proof fn law_snapshot_ws_asks(ws_path: Seq<char>)
    ensures
        snapshot_ws_spec(Seq::empty(), ws_path) == Out::<()>::Ask(
            call(Act::JjWsLive, ws_path, seq!["util"@, "snapshot"@]),
        ),
{
    reveal(snapshot_ws_spec);
}

/// The first thing that `has_unsnapshotted_changes` asks for.
pub proof fn law_has_unsnapshotted_changes_asks(ws_path: Seq<char>)
    ensures
        has_unsnapshotted_changes_spec(Seq::empty(), ws_path) == Out::<bool>::Ask(
            call(
                Act::JjWs,
                ws_path,
                seq!["log"@, "--no-graph"@, "--revision"@, "@"@, "--template"@, "commit_id"@],
            ),
        ),
{
    reveal(has_unsnapshotted_changes_spec);
}

/// The first thing that `log_graph_with_heads_inner` asks for.
pub proof fn law_log_graph_with_heads_inner_asks(
    repo: Seq<char>,
    log_template: Option<Seq<char>>,
    extra_args: Seq<Seq<char>>,
)
    ensures
        log_graph_with_heads_inner_spec(Seq::empty(), repo, log_template, extra_args) == Out::<(Seq<char>, Seq<Option<Seq<char>>>)>::Ask(
            named_call(
                Act::JjRepo,
                repo,
                extra_args + seq!["log"@, "--color"@, "always"@] + template_args(log_template),
                "log --color always"@,
            ),
        ),
{
    reveal(log_graph_with_heads_inner_spec);
}

/// The first thing that `current_op_head` asks for.
pub proof fn law_current_op_head_asks(repo_root: Seq<char>)
    ensures
        current_op_head_spec(Seq::empty(), repo_root) == Out::<Option<Seq<char>>>::Ask(
            call(Act::ListDir, path_join_spec(repo_root, ".jj/repo/op_heads/heads"@), Seq::empty()),
        ),
{
    reveal(current_op_head_spec);
}

/// The first thing that `current_op_id` asks for.
pub proof fn law_current_op_id_asks(repo_root: Seq<char>)
    ensures
        current_op_id_spec(Seq::empty(), repo_root) == Out::<Option<Seq<char>>>::Ask(
            call(Act::ListDir, path_join_spec(repo_root, ".jj/repo/op_heads/heads"@), Seq::empty()),
        ),
{
    reveal(current_op_id_spec);
}

/// The first thing that `op_log` asks for.
pub proof fn law_op_log_asks(repo: Seq<char>, limit: usize)
    ensures
        op_log_spec(Seq::empty(), repo, limit) == Out::<Seq<OperationV>>::Ask(
            call(
                Act::JjRepo,
                repo,
                seq![
                    "--at-op=@"@,
                    "op"@,
                    "log"@,
                    "--no-graph"@,
                    "--limit"@,
                    dec_spec(limit as nat),
                    "--template"@,
                    "id ++ \"\\x1f\" ++ description.first_line() ++ \"\\x1f\" ++ if(self.snapshot(), \"true\", \"false\") ++ \"\\x1f\" ++ if(self.current_operation(), \"true\", \"false\") ++ \"\\x1f\" ++ tags ++ \"\\x1f\" ++ self.time().start() ++ \"\\x1e\""@,
                ],
            ),
        ),
{
    reveal(op_log_spec);
}

/// The first thing that `op_show` asks for.
pub proof fn law_op_show_asks(repo: Seq<char>, op_id: Seq<char>)
    ensures
        op_show_spec(Seq::empty(), repo, op_id) == Out::<Seq<char>>::Ask(
            call(Act::JjRepo, repo, seq!["--at-op=@"@, "op"@, "show"@, op_id]),
        ),
{
    reveal(op_show_spec);
}

/// The first thing that `op_restore` asks for.
pub proof fn law_op_restore_asks(repo: Seq<char>, op_id: Seq<char>)
    ensures
        op_restore_spec(Seq::empty(), repo, op_id) == Out::<Seq<char>>::Ask(
            call(Act::JjRepoLive, repo, seq!["op"@, "restore"@, op_id]),
        ),
{
    reveal(op_restore_spec);
}

/// The first thing that `only_snapshots_since` asks for.
pub proof fn law_only_snapshots_since_asks(repo: Seq<char>, expected_op_id: Seq<char>, limit: usize)
    ensures
        only_snapshots_since_spec(Seq::empty(), repo, expected_op_id, limit) == Out::<bool>::Ask(
            call(
                Act::JjRepo,
                repo,
                seq![
                    "--at-op=@"@,
                    "op"@,
                    "log"@,
                    "--no-graph"@,
                    "--limit"@,
                    dec_spec(limit as nat),
                    "--template"@,
                    "id ++ \"\\x1f\" ++ if(self.snapshot(), \"true\", \"false\") ++ \"\\x1e\""@,
                ],
            ),
        ),
{
    reveal(only_snapshots_since_spec);
}

/// The first thing that `workspace_root_by_name` asks for.
pub proof fn law_workspace_root_by_name_asks(name: Option<Seq<char>>)
    ensures
        workspace_root_by_name_spec(Seq::empty(), name) == Out::<Seq<char>>::Ask(
            call(
                Act::JjBootstrap,
                Seq::empty(),
                match name { Some(n) => seq!["workspace"@, "root"@, "--name"@, n], None => seq!["workspace"@, "root"@], },
            ),
        ),
{
    reveal(workspace_root_by_name_spec);
}

/// The first thing that `workspace_root` asks for.
pub proof fn law_workspace_root_asks()
    ensures
        workspace_root_spec(Seq::empty()) == Out::<Seq<char>>::Ask(
            call(
                Act::JjBootstrap,
                Seq::empty(),
                match Some(
                    "default"@,
                ) { Some(n) => seq!["workspace"@, "root"@, "--name"@, n], None => seq!["workspace"@, "root"@], },
            ),
        ),
{
    reveal(workspace_root_spec);
    reveal(workspace_root_by_name_spec);
}

/// The first thing that `current_workspace_root` asks for.
pub proof fn law_current_workspace_root_asks()
    ensures
        current_workspace_root_spec(Seq::empty()) == Out::<Seq<char>>::Ask(
            call(
                Act::JjBootstrap,
                Seq::empty(),
                match None {
                    Some(n) => seq!["workspace"@, "root"@, "--name"@, n],
                    None => seq!["workspace"@, "root"@],
                },
            ),
        ),
{
    reveal(current_workspace_root_spec);
    reveal(workspace_root_by_name_spec);
}

/// The first thing that `list_workspace_entries` asks for.
pub proof fn law_list_workspace_entries_asks(repo: Seq<char>)
    ensures
        list_workspace_entries_spec(Seq::empty(), repo) == Out::<Seq<WorkspaceEntryV>>::Ask(
            call(
                Act::JjRepo,
                repo,
                seq![
                    "workspace"@,
                    "list"@,
                    "--template"@,
                    "name ++ \"\\x1f\" ++ self.root() ++ \"\\x1f\" ++ self.target().change_id() ++ \"\\x1f\" ++ self.target().description() ++ \"\\x1e\""@,
                ],
            ),
        ),
{
    reveal(list_workspace_entries_spec);
}

/// The first thing that `completion_workspaces` asks for.
pub proof fn law_completion_workspaces_asks()
    ensures
        completion_workspaces_spec(Seq::empty()) == Out::<Seq<CompletionWorkspaceV>>::Ask(
            call(
                Act::JjTimed,
                Seq::empty(),
                seq![
                    "--no-pager"@,
                    "workspace"@,
                    "list"@,
                    "--template"@,
                    "name ++ \"\\x1f\" ++ self.target().committer().timestamp().format(\"%s\") ++ \"\\x1f\" ++ self.root() ++ \"\\x1e\""@,
                ],
            ),
        ),
{
    reveal(completion_workspaces_spec);
}

/// The first thing that `completion_local_bookmarks` asks for.
pub proof fn law_completion_local_bookmarks_asks()
    ensures
        completion_local_bookmarks_spec(Seq::empty()) == Out::<Seq<(Seq<char>, Option<i64>)>>::Ask(
            call(
                Act::JjTimed,
                Seq::empty(),
                seq!["--no-pager"@] + seq![
                    "log"@,
                    "--no-graph"@,
                    "--revision"@,
                    "bookmarks()"@,
                    "--template"@,
                    "committer.timestamp().format(\"%s\") ++ \"\\x1f\" ++ local_bookmarks.map(|b| b.name()).join(\"\\x01\") ++ \"\\x1e\""@,
                ],
            ),
        ),
{
    reveal(completion_local_bookmarks_spec);
}

/// The first thing that `descendant_first_workspaces` asks for.
pub proof fn law_descendant_first_workspaces_asks(repo: Seq<char>, entries: Seq<WorkspaceEntryV>)
    requires
        !(entries.len() <= 1),
    ensures
        descendant_first_workspaces_spec(Seq::empty(), repo, entries) == Out::<Seq<usize>>::Ask(
            call(
                Act::JjRepo,
                repo,
                seq![
                    "log"@,
                    "--no-graph"@,
                    "--revision"@,
                    all_wcs_spec(entries),
                    "--template"@,
                    "change_id ++ \"\\n\""@,
                ],
            ),
        ),
{
    reveal(descendant_first_workspaces_spec);
}

/// The first thing that `last_nonempty_timestamp` asks for.
pub proof fn law_last_nonempty_timestamp_asks(repo: Seq<char>, change_id: Seq<char>)
    ensures
        last_nonempty_timestamp_spec(Seq::empty(), repo, change_id) == Out::<Option<i64>>::Ask(
            call(
                Act::JjRepo,
                repo,
                seq![
                    "log"@,
                    "--no-graph"@,
                    "--limit"@,
                    "1"@,
                    "--revision"@,
                    "::"@ + change_id + " ~ empty()"@,
                    "--template"@,
                    "committer.timestamp().format(\"%s\")"@,
                ],
            ),
        ),
{
    reveal(last_nonempty_timestamp_spec);
}

/// The first thing that `is_working_copy_stale` asks for.
pub proof fn law_is_working_copy_stale_asks(repo: Seq<char>)
    ensures
        is_working_copy_stale_spec(Seq::empty(), repo) == Out::<bool>::Ask(
            named_call(
                Act::JjRepoLive,
                repo,
                seq!["status"@, "--no-pager"@, "--color"@, "never"@, "--quiet"@],
                "status (stale check)"@,
            ),
        ),
{
    reveal(is_working_copy_stale_spec);
}

/// The first thing that `update_stale` asks for.
pub proof fn law_update_stale_asks(repo: Seq<char>)
    ensures
        update_stale_spec(Seq::empty(), repo) == Out::<Seq<char>>::Ask(
            call(Act::JjRepoLive, repo, seq!["workspace"@, "update-stale"@]),
        ),
{
    reveal(update_stale_spec);
}

/// The first thing that `is_workspace_stale` asks for.
pub proof fn law_is_workspace_stale_asks(ws_path: Seq<char>)
    ensures
        is_workspace_stale_spec(Seq::empty(), ws_path) == Out::<bool>::Ask(
            call(Act::Exists, ws_path, Seq::empty()),
        ),
{
    reveal(is_workspace_stale_spec);
}

/// The first thing that `update_workspace_stale` asks for.
pub proof fn law_update_workspace_stale_asks(ws_path: Seq<char>)
    ensures
        update_workspace_stale_spec(Seq::empty(), ws_path) == Out::<Seq<char>>::Ask(
            call(Act::Exists, ws_path, Seq::empty()),
        ),
{
    reveal(update_workspace_stale_spec);
}

/// The first thing that `stale_here` asks for.
pub proof fn law_stale_here_asks(path: Seq<char>)
    requires
        !(path.len() == 0),
    ensures
        stale_here_spec(Seq::empty(), path) == Out::<bool>::Ask(
            call(Act::Exists, path, Seq::empty()),
        ),
{
    reveal(stale_here_spec);
}

/// The first thing that `found` asks for.
pub proof fn law_found_asks(ws_path: Seq<char>, rel: Seq<char>)
    ensures
        found_spec(Seq::empty(), ws_path, rel) == Out::<Found>::Ask(
            call(Act::Exists, path_join_spec(ws_path, rel), Seq::empty()),
        ),
{
    reveal(found_spec);
}

/// The first thing that `disk_files` asks for.
pub proof fn law_disk_files_asks(ws_path: Seq<char>)
    ensures
        disk_files_spec(Seq::empty(), ws_path) == Out::<Seq<Seq<char>>>::Ask(
            call(Act::ListDir, ws_path, Seq::empty()),
        ),
{
    reveal(disk_files_spec);
}

/// The first thing that `tracked_files` asks for.
pub proof fn law_tracked_files_asks(ws_path: Seq<char>)
    ensures
        tracked_files_spec(Seq::empty(), ws_path) == Out::<Seq<Seq<char>>>::Ask(
            named_call(
                Act::JjWs,
                ws_path,
                seq!["file"@, "list"@, "--revision"@, "@"@],
                "file list --revision @"@,
            ),
        ),
{
    reveal(tracked_files_spec);
}

/// The first thing that `file_show_raw` asks for.
pub proof fn law_file_show_raw_asks(ws_path: Seq<char>, rel_path: Seq<char>)
    ensures
        file_show_raw_spec(Seq::empty(), ws_path, rel_path) == Out::<Seq<u8>>::Ask(
            named_call(
                Act::JjWsBytes,
                ws_path,
                seq!["file"@, "show"@, "--revision"@, "@"@, rel_path],
                "file show --revision @ "@ + rel_path,
            ),
        ),
{
    reveal(file_show_raw_spec);
}

/// The first thing that `is_effectively_linear` asks for.
pub proof fn law_is_effectively_linear_asks(repo: Seq<char>, lca: Seq<char>, src_eff: Seq<char>)
    ensures
        is_effectively_linear_spec(Seq::empty(), repo, lca, src_eff) == Out::<bool>::Ask(
            call(
                Act::JjRepo,
                repo,
                seq![
                    "log"@,
                    "--no-graph"@,
                    "--revision"@,
                    forks(lca, src_eff),
                    "--template"@,
                    "change_id ++ \"\\n\""@,
                ],
            ),
        ),
{
    reveal(is_effectively_linear_spec);
}

/// The first thing that `jj_output` asks for.
pub proof fn law_jj_output_asks(
    act: Act,
    at: Seq<char>,
    args: Seq<Seq<char>>,
    label: Seq<char>,
    doing: Seq<char>,
)
    ensures
        jj_output_spec(
            Seq::empty(),
            act,
            at,
            args,
            label,
            doing,
        ) == Out::<ReplyV>::Ask(named_call(act, at, args, label)),
{
}

/// The first thing that `jj_timed` asks for.
pub proof fn law_jj_timed_asks(args: Seq<Seq<char>>)
    ensures
        jj_timed_spec(Seq::empty(), args) == Out::<Seq<char>>::Ask(
            call(Act::JjTimed, Seq::empty(), args),
        ),
{
}

/// The first thing that `log_path` asks for.
pub proof fn law_log_path_asks(repo_root: Seq<char>, val: Seq<char>)
    requires
        !(val != "1"@),
    ensures
        log_path_spec(Seq::empty(), repo_root, val) == Out::<Option<Seq<char>>>::Ask(
            call(Act::MakeDirs, path_join_spec(repo_root, ".ji"@), Seq::empty()),
        ),
{
    reveal(log_path_spec);
    reveal(ensure_ji_dir_spec);
}

/// The first thing that `open_log` asks for.
pub proof fn law_open_log_asks(path: Seq<char>)
    ensures
        open_log_spec(Seq::empty(), path) == Out::<Option<Seq<char>>>::Ask(
            call(Act::OpenLog, path, Seq::empty()),
        ),
{
    reveal(open_log_spec);
}

/// The first thing that `init` asks for.
pub proof fn law_init_asks(repo_root: Seq<char>)
    ensures
        init_spec(Seq::empty(), repo_root) == Out::<Option<Seq<char>>>::Ask(
            call(Act::EnvVar, "JI_LOG"@, Seq::empty()),
        ),
{
    reveal(init_spec);
}

/// The first thing that `workspace_unique_change_ids` asks for.
pub proof fn law_workspace_unique_change_ids_asks(repo: Seq<char>, ws_name: Seq<char>)
    ensures
        workspace_unique_change_ids_spec(Seq::empty(), repo, ws_name) == Out::<Seq<Seq<char>>>::Ask(
            call(
                Act::JjRepo,
                repo,
                seq![
                    "log"@,
                    "--no-graph"@,
                    "--revision"@,
                    (
                        (
                            "\""@ + replace_spec(
                                replace_spec("default"@, "\\"@, "\\\\"@),
                                "\""@,
                                "\\\""@,
                            ) + "\""@
                        ) + "@"@
                    ) + ".."@ + (
                        (
                            "\""@ + replace_spec(
                                replace_spec(ws_name, "\\"@, "\\\\"@),
                                "\""@,
                                "\\\""@,
                            ) + "\""@
                        ) + "@"@
                    ),
                    "--template"@,
                    "change_id ++ \"\\n\""@,
                ],
            ),
        ),
{
    reveal(workspace_unique_change_ids_spec);
}

/// The first thing that `resolve_change_id` asks for.
pub proof fn law_resolve_change_id_asks(repo: Seq<char>, revset: Seq<char>)
    ensures
        resolve_change_id_spec(Seq::empty(), repo, revset) == Out::<Seq<char>>::Ask(
            call(
                Act::JjRepo,
                repo,
                seq![
                    "log"@,
                    "--no-graph"@,
                    "--revision"@,
                    revset,
                    "--template"@,
                    "change_id ++ \"\\n\""@,
                ],
            ),
        ),
{
    reveal(resolve_change_id_spec);
}

/// The first thing that `filter_existing_revisions` asks for.
pub proof fn law_filter_existing_revisions_asks(repo: Seq<char>, change_ids: Seq<Seq<char>>)
    requires
        !(change_ids.len() == 0),
    ensures
        filter_existing_revisions_spec(Seq::empty(), repo, change_ids) == Out::<Seq<Seq<char>>>::Ask(
            call(
                Act::JjRepo,
                repo,
                seq![
                    "log"@,
                    "--no-graph"@,
                    "--revision"@,
                    present_spec(change_ids),
                    "--template"@,
                    "change_id ++ \"\\n\""@,
                ],
            ),
        ),
{
    reveal(filter_existing_revisions_spec);
}

/// The first thing that `matches_default_new_description` asks for.
pub proof fn law_matches_default_new_description_asks(
    repo: Seq<char>,
    revset: Seq<char>,
    desc: Seq<char>,
)
    ensures
        matches_default_new_description_spec(Seq::empty(), repo, revset, desc) == Out::<bool>::Ask(
            call(Act::JjRepo, repo, seq!["config"@, "get"@, "templates.new_description"@]),
        ),
{
    reveal(matches_default_new_description_spec);
}

/// The first thing that `is_trivial_description` asks for.
pub proof fn law_is_trivial_description_asks(repo: Seq<char>, revset: Seq<char>, desc: Seq<char>)
    requires
        !(plainly_trivial(trim_spec(desc, Cut::White))),
    ensures
        is_trivial_description_spec(Seq::empty(), repo, revset, desc) == Out::<bool>::Ask(
            call(Act::JjRepo, repo, seq!["config"@, "get"@, "templates.new_description"@]),
        ),
{
    reveal(is_trivial_description_spec);
    reveal(matches_default_new_description_spec);
}

/// The first thing that `check_trivial_head` asks for.
pub proof fn law_check_trivial_head_asks(repo: Seq<char>, revset: Seq<char>)
    ensures
        check_trivial_head_spec(Seq::empty(), repo, revset) == Out::<Option<Seq<char>>>::Ask(
            call(
                Act::JjRepo,
                repo,
                seq![
                    "log"@,
                    "--no-graph"@,
                    "--revision"@,
                    "("@ + revset + ") ~ parents(children("@ + revset + "))"@,
                    "--template"@,
                    "change_id ++ \"\\x1f\" ++ if(empty, \"true\", \"false\") ++ \"\\x1f\" ++ if(parents.len() > 1, \"true\", \"false\") ++ \"\\x1f\" ++ description ++ \"\\x1e\""@,
                ],
            ),
        ),
{
    reveal(check_trivial_head_spec);
}

/// The first thing that `examine` asks for.
pub proof fn law_examine_asks(repo: Seq<char>, revset: Seq<char>)
    ensures
        examine_spec(Seq::empty(), repo, revset) == Out::<WalkV>::Ask(
            call(
                Act::JjRepo,
                repo,
                seq![
                    "log"@,
                    "--no-graph"@,
                    "--revision"@,
                    revset,
                    "--template"@,
                    "change_id ++ \"\\x1f\" ++ if(empty, \"true\", \"false\") ++ \"\\x1f\" ++ parents.len() ++ \"\\x1f\" ++ description"@,
                ],
            ),
        ),
{
    reveal(examine_spec);
}

/// The first thing that `resolve_workspace_head_info` asks for.
pub proof fn law_resolve_workspace_head_info_asks(repo: Seq<char>, ws_name: Seq<char>)
    ensures
        resolve_workspace_head_info_spec(Seq::empty(), repo, ws_name) == Out::<WorkspaceHeadInfoV>::Ask(
            call(
                Act::JjRepo,
                repo,
                seq![
                    "log"@,
                    "--no-graph"@,
                    "--revision"@,
                    "("@ + (
                        (
                            "\""@ + replace_spec(
                                replace_spec(ws_name, "\\"@, "\\\\"@),
                                "\""@,
                                "\\\""@,
                            ) + "\""@
                        ) + "@"@
                    ) + ") ~ parents(children("@ + (
                        (
                            "\""@ + replace_spec(
                                replace_spec(ws_name, "\\"@, "\\\\"@),
                                "\""@,
                                "\\\""@,
                            ) + "\""@
                        ) + "@"@
                    ) + "))"@,
                    "--template"@,
                    "change_id ++ \"\\x1f\" ++ if(empty, \"true\", \"false\") ++ \"\\x1f\" ++ if(parents.len() > 1, \"true\", \"false\") ++ \"\\x1f\" ++ description ++ \"\\x1e\""@,
                ],
            ),
        ),
{
    reveal(resolve_workspace_head_info_spec);
}

/// The first thing that `is_head` asks for.
pub proof fn law_is_head_asks(repo: Seq<char>, revset: Seq<char>)
    ensures
        is_head_spec(Seq::empty(), repo, revset) == Out::<bool>::Ask(
            call(
                Act::JjRepo,
                repo,
                seq![
                    "log"@,
                    "--no-graph"@,
                    "--revision"@,
                    "("@ + revset + ") ~ parents(children("@ + revset + "))"@,
                    "--template"@,
                    "\".\""@,
                ],
            ),
        ),
{
    reveal(is_head_spec);
}

/// The first thing that `is_trivial_head` asks for.
pub proof fn law_is_trivial_head_asks(repo: Seq<char>, revset: Seq<char>)
    ensures
        is_trivial_head_spec(Seq::empty(), repo, revset) == Out::<bool>::Ask(
            call(
                Act::JjRepo,
                repo,
                seq![
                    "log"@,
                    "--no-graph"@,
                    "--revision"@,
                    "("@ + revset + ") ~ parents(children("@ + revset + "))"@,
                    "--template"@,
                    "change_id ++ \"\\x1f\" ++ if(empty, \"true\", \"false\") ++ \"\\x1f\" ++ if(parents.len() > 1, \"true\", \"false\") ++ \"\\x1f\" ++ description ++ \"\\x1e\""@,
                ],
            ),
        ),
{
    reveal(is_trivial_head_spec);
    reveal(check_trivial_head_spec);
}

/// The first thing that `check_revision_safety` asks for.
pub proof fn law_check_revision_safety_asks(
    repo: Seq<char>,
    revset: Seq<char>,
    ws_path: Option<Seq<char>>,
)
    ensures
        check_revision_safety_spec(Seq::empty(), repo, revset, ws_path) == Out::<RevisionSafetyV>::Ask(
            call(
                Act::JjRepo,
                repo,
                seq![
                    "log"@,
                    "--no-graph"@,
                    "--revision"@,
                    "("@ + revset + ") ~ parents(children("@ + revset + "))"@,
                    "--template"@,
                    "change_id ++ \"\\x1f\" ++ local_bookmarks.map(|b| b.name()).join(\"\\x01\") ++ \"\\x1f\" ++ description ++ \"\\x1e\""@,
                ],
            ),
        ),
{
    reveal(check_revision_safety_spec);
}

/// The first thing that `check_working_copy_safety` asks for.
pub proof fn law_check_working_copy_safety_asks(
    repo: Seq<char>,
    revset: Seq<char>,
    ws_path: Seq<char>,
)
    ensures
        check_working_copy_safety_spec(Seq::empty(), repo, revset, ws_path) == Out::<RevisionSafetyV>::Ask(
            call(
                Act::JjRepo,
                repo,
                seq![
                    "log"@,
                    "--no-graph"@,
                    "--revision"@,
                    revset,
                    "--template"@,
                    "change_id ++ \"\\x1f\" ++ local_bookmarks.map(|b| b.name()).join(\"\\x01\") ++ \"\\x1f\" ++ description ++ \"\\x1e\""@,
                ],
            ),
        ),
{
    reveal(check_working_copy_safety_spec);
}

/// The first thing that `check_chain_safety` asks for.
pub proof fn law_check_chain_safety_asks(
    repo: Seq<char>,
    change_ids: Seq<Seq<char>>,
    ws_path: Option<Seq<char>>,
)
    requires
        !(change_ids.len() == 0),
    ensures
        check_chain_safety_spec(Seq::empty(), repo, change_ids, ws_path) == Out::<Seq<Seq<char>>>::Ask(
            call(
                Act::JjRepo,
                repo,
                seq![
                    "log"@,
                    "--no-graph"@,
                    "--revision"@,
                    join_spec(change_ids, " | "@),
                    "--template"@,
                    "change_id ++ \"\\x1f\" ++ description ++ \"\\x1e\""@,
                ],
            ),
        ),
{
    reveal(check_chain_safety_spec);
}

/// The first thing that `vacate` asks for.
pub proof fn law_vacate_asks(repo: Seq<char>, id: Seq<char>)
    ensures
        vacate_spec(Seq::empty(), repo, id) == Out::<()>::Ask(
            call(
                Act::JjRepo,
                repo,
                seq![
                    "log"@,
                    "--no-graph"@,
                    "--revision"@,
                    id,
                    "--template"@,
                    "local_bookmarks.map(|b| b.name()).join(\"\\x01\")"@,
                ],
            ),
        ),
{
    reveal(vacate_spec);
    reveal(local_bookmarks_on_spec);
}

/// The first thing that `make_head` asks for.
pub proof fn law_make_head_asks(
    repo: Seq<char>,
    ws_name: Seq<char>,
    ws_path: Seq<char>,
    parent: Option<Seq<char>>,
    op: Op,
    desc: Option<Seq<char>>,
    author: Option<Seq<char>>,
)
    ensures
        make_head_spec(Seq::empty(), repo, ws_name, ws_path, parent, op, desc, author) == Out::<Seq<char>>::Ask(
            call(
                Act::JjWsLive,
                ws_path,
                seq!["new"@, "--message"@, make_desc_spec(op, desc), "--"@, or_at(parent)],
            ),
        ),
{
    reveal(make_head_spec);
}

/// The first thing that `edit_workspace_head` asks for.
pub proof fn law_edit_workspace_head_asks(ws_path: Seq<char>, commit: Seq<char>)
    ensures
        edit_workspace_head_spec(Seq::empty(), ws_path, commit) == Out::<()>::Ask(
            call(Act::JjWsLive, ws_path, seq!["edit"@, commit]),
        ),
{
    reveal(edit_workspace_head_spec);
}

/// The first thing that `ensure_ji_dir` asks for.
pub proof fn law_ensure_ji_dir_asks(ws_path: Seq<char>)
    ensures
        ensure_ji_dir_spec(Seq::empty(), ws_path) == Out::<()>::Ask(
            call(Act::MakeDirs, path_join_spec(ws_path, ".ji"@), Seq::empty()),
        ),
{
    reveal(ensure_ji_dir_spec);
}

/// The first thing that `capture_file` asks for.
pub proof fn law_capture_file_asks(ws_name: Seq<char>, ws_path: Seq<char>, rel: Seq<char>)
    ensures
        capture_file_spec(Seq::empty(), ws_name, ws_path, rel) == Out::<CapturedV>::Ask(
            call(Act::Stat, path_join_spec(ws_path, rel), Seq::empty()),
        ),
{
    reveal(capture_file_spec);
}

/// The first thing that `process_file` asks for.
pub proof fn law_process_file_asks(
    g: XattrGuardV,
    ws_name: Seq<char>,
    ws_path: Seq<char>,
    rel: Seq<char>,
)
    ensures
        process_file_spec(Seq::empty(), g, ws_name, ws_path, rel) == Out::<Seq<Seq<char>>>::Ask(
            call(Act::Stat, path_join_spec(ws_path, rel), Seq::empty()),
        ),
{
    reveal(process_file_spec);
}

/// The first thing that `create_config` asks for.
pub proof fn law_create_config_asks(repo_root: Seq<char>, template: Seq<char>)
    ensures
        create_config_spec(Seq::empty(), repo_root, template) == Out::<()>::Ask(
            call(
                Act::Exists,
                path_join_spec(path_join_spec(repo_root, ".config"@), "ji.toml"@),
                Seq::empty(),
            ),
        ),
{
    reveal(create_config_spec);
}

/// The first thing that `filled` asks for.
pub proof fn law_filled_asks(repo: Seq<char>, default_id: Seq<char>, e: WorkspaceEntryV)
    requires
        !(default_id.len() == 0 || e.name == "default"@),
    ensures
        filled_spec(Seq::empty(), repo, default_id, e) == Out::<WorkspaceV>::Ask(
            call(
                Act::JjRepo,
                repo,
                seq![
                    "log"@,
                    "--no-graph"@,
                    "--revision"@,
                    default_id + ".."@ + e.change_id,
                    "--template"@,
                    "change_id ++ \"\\x1f\" ++ local_bookmarks.map(|b| b.name()).join(\"\\x01\") ++ \"\\x1f\" ++ description ++ \"\\x1e\""@,
                ],
            ),
        ),
{
    reveal(filled_spec);
    reveal(workspace_revisions_with_bookmarks_spec);
}

/// The first thing that `fill_default` asks for.
pub proof fn law_fill_default_asks(
    repo: Seq<char>,
    default_id: Seq<char>,
    wss: Seq<WorkspaceV>,
    i: int,
)
    ensures
        fill_default_spec(Seq::empty(), repo, default_id, wss, i) == Out::<Seq<WorkspaceV>>::Ask(
            call(
                Act::JjRepo,
                repo,
                seq![
                    "log"@,
                    "--no-graph"@,
                    "--revision"@,
                    if default_id == default_id { "::"@ + default_id } else { default_id + ".."@ + default_id },
                    "--template"@,
                    "local_bookmarks.map(|b| b.name() ++ \"\\x1f\" ++ change_id).join(\"\\x01\") ++ \"\\x1e\""@,
                ],
            ),
        ),
{
    reveal(fill_default_spec);
    reveal(workspace_bookmarks_spec);
}

/// The first thing that `list_workspaces` asks for.
pub proof fn law_list_workspaces_asks(repo: Seq<char>)
    ensures
        list_workspaces_spec(Seq::empty(), repo) == Out::<Seq<WorkspaceV>>::Ask(
            call(
                Act::JjRepo,
                repo,
                seq![
                    "workspace"@,
                    "list"@,
                    "--template"@,
                    "name ++ \"\\x1f\" ++ self.root() ++ \"\\x1f\" ++ self.target().change_id() ++ \"\\x1f\" ++ self.target().description() ++ \"\\x1e\""@,
                ],
            ),
        ),
{
    reveal(list_workspaces_spec);
    reveal(list_workspace_entries_spec);
}

/// The first thing that `guard` asks for.
pub proof fn law_transfer_guard_asks(repo: Seq<char>, role: Seq<char>, ws: WsRefV)
    requires
        !(ws.info.trivial_id is Some),
    ensures
        crate::commands::transfer::guard_spec(Seq::empty(), repo, role, ws) == Out::<()>::Ask(
            call(
                Act::JjRepo,
                repo,
                seq![
                    "log"@,
                    "--no-graph"@,
                    "--revision"@,
                    (
                        "\""@ + replace_spec(
                            replace_spec(ws.name, "\\"@, "\\\\"@),
                            "\""@,
                            "\\\""@,
                        ) + "\""@
                    ) + "@"@,
                    "--template"@,
                    "change_id ++ \"\\x1f\" ++ local_bookmarks.map(|b| b.name()).join(\"\\x01\") ++ \"\\x1f\" ++ description ++ \"\\x1e\""@,
                ],
            ),
        ),
{
    reveal(crate::commands::transfer::guard_spec);
    reveal(check_working_copy_safety_spec);
}

/// The first thing that `tell_stale` asks for.
pub proof fn law_tell_stale_asks(stale: Seq<Seq<char>>)
    requires
        !(stale.len() == 0),
    ensures
        tell_stale_spec(Seq::empty(), stale) == Out::<()>::Ask(
            call(Act::Warn, Seq::empty(), seq!["(ji)::stale: "@ + join_spec(stale, ", "@)]),
        ),
{
    reveal(tell_stale_spec);
}

/// The first thing that `tell_errors` asks for.
pub proof fn law_tell_errors_asks(errors: Seq<PostOperationErrorV>, report: Seq<char>)
    requires
        !(errors.len() == 0),
    ensures
        tell_errors_spec(Seq::empty(), errors, report) == Out::<()>::Ask(
            call(Act::Warn, Seq::empty(), seq![report]),
        ),
{
}

/// The first thing that `tell_close` asks for.
pub proof fn law_tell_close_asks(src_name: Seq<char>, r: CloseTransferResultV)
    requires
        !(r.stale_warnings.len() == 0),
    ensures
        tell_close_spec(Seq::empty(), src_name, r) == Out::<()>::Ask(
            call(
                Act::Warn,
                Seq::empty(),
                seq!["(ji)::stale: "@ + join_spec(r.stale_warnings, ", "@)],
            ),
        ),
{
    reveal(tell_close_spec);
    reveal(tell_stale_spec);
}

/// The first thing that `tell_transfer` asks for.
pub proof fn law_tell_transfer_asks(r: CloseTransferResultV)
    requires
        !(r.stale_warnings.len() == 0),
    ensures
        tell_transfer_spec(Seq::empty(), r) == Out::<()>::Ask(
            call(
                Act::Warn,
                Seq::empty(),
                seq!["(ji)::stale: "@ + join_spec(r.stale_warnings, ", "@)],
            ),
        ),
{
    reveal(tell_transfer_spec);
    reveal(tell_stale_spec);
}

/// The first thing that `refresh` asks for.
pub proof fn law_refresh_asks(path: Seq<char>)
    ensures
        refresh_spec(Seq::empty(), path) == Out::<()>::Ask(call(Act::Exists, path, Seq::empty())),
{
    reveal(refresh_spec);
}

/// The first thing that `dress` asks for.
pub proof fn law_dress_asks(
    repo_root: Seq<char>,
    config: ConfigV,
    repo_name: Seq<char>,
    bookmark: Seq<char>,
    ws_path: Seq<char>,
    ws_name: Seq<char>,
    quiet: bool,
)
    ensures
        dress_spec(
            Seq::empty(),
            repo_root,
            config,
            repo_name,
            bookmark,
            ws_path,
            ws_name,
            quiet,
        ) == Out::<()>::Ask(
            call(
                Act::JjRepo,
                repo_root,
                seq![
                    "bookmark"@,
                    "create"@,
                    "--revision"@,
                    "\""@ + replace_spec(
                        replace_spec(ws_name, "\\"@, "\\\\"@),
                        "\""@,
                        "\\\""@,
                    ) + "\"@"@,
                    "--"@,
                    bookmark,
                ],
            ),
        ),
{
    reveal(dress_spec);
    reveal(create_bookmark_spec);
}

/// The first thing that `create` asks for.
pub proof fn law_create_asks(
    repo_root: Seq<char>,
    config: ConfigV,
    repo_name: Seq<char>,
    bookmark: Seq<char>,
    revision: Seq<char>,
    source_ws_path: Seq<char>,
    ws_path: Seq<char>,
    msg: Seq<char>,
    quiet: bool,
)
    ensures
        create_spec(
            Seq::empty(),
            repo_root,
            config,
            repo_name,
            bookmark,
            revision,
            source_ws_path,
            ws_path,
            msg,
            quiet,
        ) == Out::<CreateResultV>::Ask(
            call(Act::JjWsLive, source_ws_path, seq!["util"@, "snapshot"@]),
        ),
{
    reveal(create_spec);
    reveal(snapshot_ws_spec);
}

/// The first thing that `paths_equivalent` asks for.
pub proof fn law_paths_equivalent_asks(a: Seq<char>, b: Seq<char>)
    ensures
        paths_equivalent_spec(Seq::empty(), a, b) == Out::<bool>::Ask(
            call(Act::Canonical, a, Seq::empty()),
        ),
{
    reveal(paths_equivalent_spec);
}

/// The first thing that `absolute` asks for.
pub proof fn law_absolute_asks(p: Seq<char>)
    requires
        !(is_absolute_spec(p)),
    ensures
        absolute_spec(Seq::empty(), p) == Out::<Seq<char>>::Ask(
            call(Act::CurrentDir, ""@, Seq::empty()),
        ),
{
    reveal(absolute_spec);
}

/// The first thing that `finish_sync` asks for.
pub proof fn law_finish_sync_asks(
    repo: Seq<char>,
    fresh: ExecutionFreshnessV,
    guard: XattrGuardV,
    src_name: Seq<char>,
    src_path: Seq<char>,
    tgt_name: Seq<char>,
    tgt_path: Seq<char>,
    workspace_path_template: Seq<char>,
    repo_name: Seq<char>,
    warnings: Seq<Seq<char>>,
)
    ensures
        finish_sync_spec(
            Seq::empty(),
            repo,
            fresh,
            guard,
            src_name,
            src_path,
            tgt_name,
            tgt_path,
            workspace_path_template,
            repo_name,
            warnings,
        ) == Out::<Seq<Seq<char>>>::Ask(call(Act::Exists, src_path, Seq::empty())),
{
    reveal(finish_sync_spec);
    reveal(update_workspace_stale_spec);
}

/// The first thing that `source_warnings` asks for.
pub proof fn law_source_warnings_asks(params: CloseParamsV, fate: Seq<char>)
    ensures
        source_warnings_spec(Seq::empty(), params, fate) == Out::<Seq<Seq<char>>>::Ask(
            call(
                Act::JjRepo,
                params.repo_root,
                seq![
                    "log"@,
                    "--no-graph"@,
                    "--revision"@,
                    "("@ + (
                        (
                            "\""@ + replace_spec(
                                replace_spec(params.source_name, "\\"@, "\\\\"@),
                                "\""@,
                                "\\\""@,
                            ) + "\""@
                        ) + "@"@
                    ) + ") ~ parents(children("@ + (
                        (
                            "\""@ + replace_spec(
                                replace_spec(params.source_name, "\\"@, "\\\\"@),
                                "\""@,
                                "\\\""@,
                            ) + "\""@
                        ) + "@"@
                    ) + "))"@,
                    "--template"@,
                    "change_id ++ \"\\x1f\" ++ local_bookmarks.map(|b| b.name()).join(\"\\x01\") ++ \"\\x1f\" ++ description ++ \"\\x1e\""@,
                ],
            ),
        ),
{
    reveal(source_warnings_spec);
    reveal(check_revision_safety_spec);
}

/// The first thing that `target_guard` asks for.
pub proof fn law_target_guard_asks(params: CloseParamsV, info: SyncModeInfoV)
    requires
        !(info.tgt_trivial_id is Some),
    ensures
        target_guard_spec(Seq::empty(), params, info) == Out::<()>::Ask(
            call(
                Act::JjRepo,
                params.repo_root,
                seq![
                    "log"@,
                    "--no-graph"@,
                    "--revision"@,
                    (
                        "\""@ + replace_spec(
                            replace_spec(params.target_name, "\\"@, "\\\\"@),
                            "\""@,
                            "\\\""@,
                        ) + "\""@
                    ) + "@"@,
                    "--template"@,
                    "change_id ++ \"\\x1f\" ++ local_bookmarks.map(|b| b.name()).join(\"\\x01\") ++ \"\\x1f\" ++ description ++ \"\\x1e\""@,
                ],
            ),
        ),
{
    reveal(target_guard_spec);
    reveal(check_working_copy_safety_spec);
}

/// The first thing that `close_by_detaching` asks for.
pub proof fn law_close_by_detaching_asks(params: CloseParamsV)
    ensures
        close_by_detaching_spec(Seq::empty(), params) == Out::<(Seq<Seq<char>>, Option<Seq<char>>)>::Ask(
            call(
                Act::JjRepo,
                params.repo_root,
                seq![
                    "log"@,
                    "--no-graph"@,
                    "--revision"@,
                    "("@ + (
                        (
                            "\""@ + replace_spec(
                                replace_spec(params.source_name, "\\"@, "\\\\"@),
                                "\""@,
                                "\\\""@,
                            ) + "\""@
                        ) + "@"@
                    ) + ") ~ parents(children("@ + (
                        (
                            "\""@ + replace_spec(
                                replace_spec(params.source_name, "\\"@, "\\\\"@),
                                "\""@,
                                "\\\""@,
                            ) + "\""@
                        ) + "@"@
                    ) + "))"@,
                    "--template"@,
                    "change_id ++ \"\\x1f\" ++ local_bookmarks.map(|b| b.name()).join(\"\\x01\") ++ \"\\x1f\" ++ description ++ \"\\x1e\""@,
                ],
            ),
        ),
{
    reveal(close_by_detaching_spec);
    reveal(check_revision_safety_spec);
}

/// The first thing that `abandon_surviving` asks for.
pub proof fn law_abandon_surviving_asks(repo: Seq<char>, ids: Seq<Seq<char>>)
    requires
        !(ids.len() == 0),
        !(ids.len() == 0),
    ensures
        abandon_surviving_spec(Seq::empty(), repo, ids) == Out::<()>::Ask(
            call(
                Act::JjRepo,
                repo,
                seq![
                    "log"@,
                    "--no-graph"@,
                    "--revision"@,
                    present_spec(ids),
                    "--template"@,
                    "change_id ++ \"\\n\""@,
                ],
            ),
        ),
{
    reveal(abandon_surviving_spec);
    reveal(filter_existing_revisions_spec);
}

/// The first thing that `close_by_abandoning` asks for.
pub proof fn law_close_by_abandoning_asks(params: CloseParamsV)
    ensures
        close_by_abandoning_spec(Seq::empty(), params) == Out::<(Seq<Seq<char>>, Option<Seq<char>>)>::Ask(
            call(
                Act::JjRepo,
                params.repo_root,
                seq![
                    "log"@,
                    "--no-graph"@,
                    "--revision"@,
                    (("\""@ + replace_spec(replace_spec("default"@, "\\"@, "\\\\"@), "\""@, "\\\""@) + "\""@) + "@"@) + ".."@ + (
                        (
                            "\""@ + replace_spec(
                                replace_spec(params.source_name, "\\"@, "\\\\"@),
                                "\""@,
                                "\\\""@,
                            ) + "\""@
                        ) + "@"@
                    ),
                    "--template"@,
                    "change_id ++ \"\\n\""@,
                ],
            ),
        ),
{
    reveal(close_by_abandoning_spec);
    reveal(workspace_unique_change_ids_spec);
}

/// The first thing that `op_head_now` asks for.
pub proof fn law_op_head_now_asks(repo: Seq<char>)
    ensures
        op_head_now_spec(Seq::empty(), repo) == Out::<Seq<char>>::Ask(
            call(Act::ListDir, path_join_spec(repo, ".jj/repo/op_heads/heads"@), Seq::empty()),
        ),
{
    reveal(op_head_now_spec);
    reveal(current_op_head_spec);
}

/// The first thing that `required` asks for.
pub proof fn law_required_asks(name: Seq<char>, path: Seq<char>)
    requires
        !(path.len() == 0),
    ensures
        required_spec(Seq::empty(), name, path) == Out::<()>::Ask(
            call(Act::Exists, path, Seq::empty()),
        ),
{
    reveal(required_spec);
}

/// The first thing that `same_dir` asks for.
pub proof fn law_same_dir_asks(a: Seq<char>, b: Seq<char>)
    requires
        !(components_spec(a) == components_spec(b)),
    ensures
        same_dir_spec(Seq::empty(), a, b) == Out::<bool>::Ask(
            call(Act::Canonical, a, Seq::empty()),
        ),
{
    reveal(same_dir_spec);
}

/// The first thing that `capture_other` asks for.
pub proof fn law_capture_other_asks(entry: WorkspaceEntryV)
    ensures
        capture_other_spec(Seq::empty(), entry) == Out::<bool>::Ask(
            call(Act::JjWsLive, entry.path, seq!["util"@, "snapshot"@]),
        ),
{
    reveal(capture_other_spec);
    reveal(snapshot_ws_spec);
}

/// The first thing that `recheck_execution_freshness` asks for.
pub proof fn law_recheck_execution_freshness_asks(
    repo: Seq<char>,
    validated: SyncModeInfoV,
    src_name: Seq<char>,
    src_path: Seq<char>,
    tgt_name: Seq<char>,
    tgt_path: Seq<char>,
    target_involved: bool,
    plan_consuming: bool,
)
    ensures
        recheck_execution_freshness_spec(
            Seq::empty(),
            repo,
            validated,
            src_name,
            src_path,
            tgt_name,
            tgt_path,
            target_involved,
            plan_consuming,
        ) == Out::<SyncModeInfoV>::Ask(
            call(
                Act::JjRepo,
                repo,
                seq![
                    "--at-op=@"@,
                    "op"@,
                    "log"@,
                    "--no-graph"@,
                    "--limit"@,
                    dec_spec(RECHECK_OP_SCAN_LIMIT as nat),
                    "--template"@,
                    "id ++ \"\\x1f\" ++ if(self.snapshot(), \"true\", \"false\") ++ \"\\x1e\""@,
                ],
            ),
        ),
{
    reveal(recheck_execution_freshness_spec);
    reveal(only_snapshots_since_spec);
}

/// The first thing that `prepare_execution_freshness` asks for.
pub proof fn law_prepare_execution_freshness_asks(
    repo: Seq<char>,
    validated: SyncModeInfoV,
    src_name: Seq<char>,
    src_path: Seq<char>,
    tgt_name: Seq<char>,
    tgt_path: Seq<char>,
    target_involved: bool,
    plan_consuming: bool,
    advance_target_change_id: Option<Seq<char>>,
)
    requires
        !(bad_baseline(validated.op_head)),
    ensures
        prepare_execution_freshness_spec(
            Seq::empty(),
            repo,
            validated,
            src_name,
            src_path,
            tgt_name,
            tgt_path,
            target_involved,
            plan_consuming,
            advance_target_change_id,
        ) == Out::<ExecutionFreshnessV>::Ask(
            call(
                Act::JjRepo,
                repo,
                seq![
                    "workspace"@,
                    "list"@,
                    "--template"@,
                    "name ++ \"\\x1f\" ++ self.root() ++ \"\\x1f\" ++ self.target().change_id() ++ \"\\x1f\" ++ self.target().description() ++ \"\\x1e\""@,
                ],
            ),
        ),
{
    reveal(prepare_execution_freshness_spec);
    reveal(list_workspace_entries_spec);
}

/// The first thing that `finish_transfer` asks for.
pub proof fn law_finish_transfer_asks(
    params: TransferParamsV,
    operation: Operation,
    fresh: ExecutionFreshnessV,
    predicted: Seq<Seq<char>>,
    op_warnings: Seq<Seq<char>>,
)
    ensures
        finish_transfer_spec(
            Seq::empty(),
            params,
            operation,
            fresh,
            predicted,
            op_warnings,
        ) == Out::<CloseTransferResultV>::Ask(call(Act::Exists, params.source_path, Seq::empty())),
{
    reveal(finish_transfer_spec);
    reveal(update_workspace_stale_spec);
}

/// The first thing that `bash_primary` asks for.
pub proof fn law_bash_primary_asks(env: ShellEnvV)
    ensures
        bash_primary_spec(Seq::empty(), env) == Out::<Seq<char>>::Ask(
            call(Act::Exists, path_join_spec(env.home, ".bash_profile"@), Seq::empty()),
        ),
{
    reveal(bash_primary_spec);
}

/// The first thing that `posix_primary` asks for.
pub proof fn law_posix_primary_asks(env: ShellEnvV, shell: Seq<char>)
    requires
        !(shell == "zsh"@),
    ensures
        posix_primary_spec(Seq::empty(), env, shell) == Out::<Seq<char>>::Ask(
            call(Act::Exists, path_join_spec(env.home, ".bash_profile"@), Seq::empty()),
        ),
{
    reveal(posix_primary_spec);
    reveal(bash_primary_spec);
}

/// The first thing that `check_writable` asks for.
pub proof fn law_check_writable_asks(primary: Seq<char>)
    ensures
        check_writable_spec(Seq::empty(), primary) == Out::<()>::Ask(
            call(Act::IsReadOnly, primary, Seq::empty()),
        ),
{
    reveal(check_writable_spec);
}

/// The first thing that `check_primary` asks for.
pub proof fn law_check_primary_asks(env: ShellEnvV, primary: Seq<char>, force: bool)
    ensures
        check_primary_spec(Seq::empty(), env, primary, force) == Out::<()>::Ask(
            call(Act::Exists, primary, Seq::empty()),
        ),
{
    reveal(check_primary_spec);
}

/// The first thing that `real_target` asks for.
pub proof fn law_real_target_asks(path: Seq<char>)
    ensures
        real_target_spec(Seq::empty(), path) == Out::<Seq<char>>::Ask(
            call(Act::Exists, path, Seq::empty()),
        ),
{
    reveal(real_target_spec);
}

/// The first thing that `file_mode` asks for.
pub proof fn law_file_mode_asks(target: Seq<char>)
    ensures
        file_mode_spec(Seq::empty(), target) == Out::<usize>::Ask(
            call(Act::FileMode, target, Seq::empty()),
        ),
{
    reveal(file_mode_spec);
}

/// The first thing that `ready_dir` asks for.
pub proof fn law_ready_dir_asks(dir: Seq<char>)
    ensures
        ready_dir_spec(Seq::empty(), dir) == Out::<()>::Ask(call(Act::Exists, dir, Seq::empty())),
{
    reveal(ready_dir_spec);
}

/// The first thing that `temp_path` asks for.
pub proof fn law_temp_path_asks(target: Seq<char>, dir: Seq<char>)
    ensures
        temp_path_spec(Seq::empty(), target, dir) == Out::<Seq<char>>::Ask(
            call(Act::ProcessId, ""@, Seq::empty()),
        ),
{
    reveal(temp_path_spec);
}

/// The first thing that `fill_temp` asks for.
pub proof fn law_fill_temp_asks(tmp: Seq<char>, contents: Seq<char>, mode: usize)
    ensures
        fill_temp_spec(Seq::empty(), tmp, contents, mode) == Out::<()>::Ask(
            call(Act::CreateFile, tmp, seq![contents, dec_spec(mode as nat)]),
        ),
{
    reveal(fill_temp_spec);
}

/// The first thing that `swap_in` asks for.
pub proof fn law_swap_in_asks(target: Seq<char>, dir: Seq<char>, contents: Seq<char>, mode: usize)
    ensures
        swap_in_spec(
            Seq::empty(),
            target,
            dir,
            contents,
            mode,
        ) == Out::<WriteOutcome>::Ask(call(Act::ProcessId, ""@, Seq::empty())),
{
    reveal(swap_in_spec);
    reveal(temp_path_spec);
}

/// The first thing that `write_atomic` asks for.
pub proof fn law_write_atomic_asks(path: Seq<char>, contents: Seq<char>)
    ensures
        write_atomic_spec(Seq::empty(), path, contents) == Out::<WriteOutcome>::Ask(
            call(Act::Exists, path, Seq::empty()),
        ),
{
    reveal(write_atomic_spec);
    reveal(real_target_spec);
}

/// The first thing that `omz` asks for.
pub proof fn law_omz_asks(home: Seq<char>)
    ensures
        omz_spec(Seq::empty(), home) == Out::<Option<Seq<char>>>::Ask(
            call(Act::EnvVar, "ZSH"@, Seq::empty()),
        ),
{
    reveal(omz_spec);
}

/// The first thing that `from_process_env` asks for.
pub proof fn law_from_process_env_asks()
    ensures
        from_process_env_spec(Seq::empty()) == Out::<ShellEnvV>::Ask(
            call(Act::EnvVar, "HOME"@, Seq::empty()),
        ),
{
    reveal(from_process_env_spec);
}

/// The first thing that `write_directive_cd` asks for.
pub proof fn law_write_directive_cd_asks(path: Seq<char>)
    ensures
        write_directive_cd_spec(Seq::empty(), path) == Out::<()>::Ask(
            call(Act::EnvVar, "JI_DIRECTIVE_FILE"@, Seq::empty()),
        ),
{
    reveal(write_directive_cd_spec);
}

/// The first thing that `add_dir` asks for.
pub proof fn law_add_dir_asks(locs: Seq<ScanLocationV>, dir: Seq<char>, ext: Seq<char>)
    ensures
        add_dir_spec(Seq::empty(), locs, dir, ext) == Out::<Seq<ScanLocationV>>::Ask(
            call(Act::ListDir, dir, Seq::empty()),
        ),
{
    reveal(add_dir_spec);
}

/// The first thing that `add_if_file` asks for.
pub proof fn law_add_if_file_asks(locs: Seq<ScanLocationV>, path: Seq<char>, via: Option<ViaV>)
    ensures
        add_if_file_spec(Seq::empty(), locs, path, via) == Out::<Seq<ScanLocationV>>::Ask(
            call(Act::IsFile, path, Seq::empty()),
        ),
{
    reveal(add_if_file_spec);
}

/// The first thing that `look_at` asks for.
pub proof fn law_look_at_asks(env: ShellEnvV, loc: ScanLocationV, hits: Seq<HitV>)
    ensures
        look_at_spec(Seq::empty(), env, loc, hits) == Out::<Seq<HitV>>::Ask(
            call(Act::IsFile, loc.path, Seq::empty()),
        ),
{
    reveal(look_at_spec);
}

/// The first thing that `display_canonical` asks for.
pub proof fn law_display_canonical_asks(p: Seq<char>)
    ensures
        display_canonical_spec(Seq::empty(), p) == Out::<Seq<char>>::Ask(
            call(Act::Canonical, p, Seq::empty()),
        ),
{
    reveal(display_canonical_spec);
}

/// The first thing that `state_for` asks for.
pub proof fn law_state_for_asks(path: Seq<char>, desired: Seq<char>)
    ensures
        state_for_spec(Seq::empty(), path, desired) == Out::<Seq<char>>::Ask(
            call(Act::Exists, path, Seq::empty()),
        ),
{
    reveal(state_for_spec);
}

/// The first thing that `rc_stanza_state` asks for.
pub proof fn law_rc_stanza_state_asks(rc: Seq<char>, stanza: Seq<char>)
    ensures
        rc_stanza_state_spec(Seq::empty(), rc, stanza) == Out::<Seq<char>>::Ask(
            call(Act::IsFile, rc, Seq::empty()),
        ),
{
    reveal(rc_stanza_state_spec);
}

/// The first thing that `candidate` asks for.
pub proof fn law_candidate_asks(path: Seq<char>)
    ensures
        candidate_spec(Seq::empty(), path) == Out::<Seq<char>>::Ask(
            call(Act::Exists, path, Seq::empty()),
        ),
{
    reveal(candidate_spec);
}

/// The first thing that `print_candidates` asks for.
pub proof fn law_print_candidates_asks(env: ShellEnvV)
    ensures
        print_candidates_spec(Seq::empty(), env) == Out::<()>::Ask(
            call(Act::Exists, path_join_spec(env.home, ".bash_profile"@), Seq::empty()),
        ),
{
    reveal(print_candidates_spec);
    reveal(candidate_spec);
}

/// The first thing that `print_file` asks for.
pub proof fn law_print_file_asks(label: Seq<char>, path: Seq<char>, desired: Seq<char>)
    ensures
        print_file_spec(Seq::empty(), label, path, desired) == Out::<()>::Ask(
            call(Act::Canonical, path, Seq::empty()),
        ),
{
    reveal(print_file_spec);
    reveal(display_canonical_spec);
}

/// The first thing that `print_posix_files` asks for.
pub proof fn law_print_posix_files_asks(
    env: ShellEnvV,
    shell: Seq<char>,
    primary: Seq<char>,
    managed: Seq<char>,
    body: Seq<char>,
    stanza: Seq<char>,
)
    ensures
        print_posix_files_spec(Seq::empty(), env, shell, primary, managed, body, stanza) == Out::<()>::Ask(
            call(Act::Print, Seq::empty(), seq!["ji shell integration: "@ + shell]),
        ),
{
    reveal(print_posix_files_spec);
}

/// The first thing that `print_fish_files` asks for.
pub proof fn law_print_fish_files_asks(env: ShellEnvV, generated: Seq<char>)
    ensures
        print_fish_files_spec(Seq::empty(), env, generated) == Out::<()>::Ask(
            call(Act::Print, Seq::empty(), seq!["ji shell integration: fish"@]),
        ),
{
    reveal(print_fish_files_spec);
}

/// The first thing that `status_fish` asks for.
pub proof fn law_status_fish_asks(env: ShellEnvV, generated: Seq<char>)
    ensures
        status_fish_spec(Seq::empty(), env, generated) == Out::<()>::Ask(
            call(Act::Print, Seq::empty(), seq!["ji shell integration: fish"@]),
        ),
{
    reveal(status_fish_spec);
    reveal(print_fish_files_spec);
}

/// The first thing that `existing_or_empty` asks for.
pub proof fn law_existing_or_empty_asks(p: Seq<char>)
    ensures
        existing_or_empty_spec(Seq::empty(), p) == Out::<Seq<char>>::Ask(
            call(Act::ReadFile, p, Seq::empty()),
        ),
{
    reveal(existing_or_empty_spec);
}

/// The first thing that `current_text` asks for.
pub proof fn law_current_text_asks(primary: Seq<char>)
    ensures
        current_text_spec(Seq::empty(), primary) == Out::<Seq<char>>::Ask(
            call(Act::Exists, primary, Seq::empty()),
        ),
{
    reveal(current_text_spec);
}

/// The first thing that `write_rc` asks for.
pub proof fn law_write_rc_asks(primary: Seq<char>, contents: Seq<char>, new: Seq<char>)
    requires
        !(new == contents),
    ensures
        write_rc_spec(Seq::empty(), primary, contents, new) == Out::<WriteOutcome>::Ask(
            call(Act::Exists, primary, Seq::empty()),
        ),
{
    reveal(write_rc_spec);
}

/// The first thing that `preview_posix` asks for.
pub proof fn law_preview_posix_asks(
    managed: Seq<char>,
    body: Seq<char>,
    primary: Seq<char>,
    contents: Seq<char>,
    new: Seq<char>,
)
    ensures
        preview_posix_spec(
            Seq::empty(),
            managed,
            body,
            primary,
            contents,
            new,
        ) == Out::<()>::Ask(call(Act::ReadFile, managed, Seq::empty())),
{
    reveal(preview_posix_spec);
    reveal(existing_or_empty_spec);
}

/// The first thing that `check_owned` asks for.
pub proof fn law_check_owned_asks(path: Seq<char>, label: Seq<char>, force: bool)
    ensures
        check_owned_spec(Seq::empty(), path, label, force) == Out::<()>::Ask(
            call(Act::Exists, path, Seq::empty()),
        ),
{
    reveal(check_owned_spec);
}

/// The first thing that `preview` asks for.
pub proof fn law_preview_asks(path: Seq<char>, body: Seq<char>)
    ensures
        preview_spec(Seq::empty(), path, body) == Out::<()>::Ask(
            call(Act::ReadFile, path, Seq::empty()),
        ),
{
    reveal(preview_spec);
    reveal(existing_or_empty_spec);
}

/// The first thing that `place_fish` asks for.
pub proof fn law_place_fish_asks(env: ShellEnvV, generated: Seq<char>, opts: InstallOpts)
    ensures
        place_fish_spec(Seq::empty(), env, generated, opts) == Out::<()>::Ask(
            call(
                Act::Exists,
                path_join_spec(env.xdg_config_home, "fish/functions/ji.fish"@),
                Seq::empty(),
            ),
        ),
{
    reveal(place_fish_spec);
    reveal(check_owned_spec);
}

/// The first thing that `install_fish` asks for.
pub proof fn law_install_fish_asks(env: ShellEnvV, generated: Seq<char>, opts: InstallOpts)
    ensures
        install_fish_spec(Seq::empty(), env, generated, opts) == Out::<()>::Ask(
            call(
                Act::Exists,
                path_join_spec(env.xdg_config_home, "fish/conf.d/ji.fish"@),
                Seq::empty(),
            ),
        ),
{
    reveal(install_fish_spec);
}

/// The first thing that `drop_block` asks for.
pub proof fn law_drop_block_asks(primary: Seq<char>, dry_run: bool)
    ensures
        drop_block_spec(Seq::empty(), primary, dry_run) == Out::<bool>::Ask(
            call(Act::IsFile, primary, Seq::empty()),
        ),
{
    reveal(drop_block_spec);
}

/// The first thing that `remove_owned` asks for.
pub proof fn law_remove_owned_asks(path: Seq<char>, opts: UninstallOpts, idle: bool)
    ensures
        remove_owned_spec(Seq::empty(), path, opts, idle) == Out::<bool>::Ask(
            call(Act::IsFile, path, Seq::empty()),
        ),
{
    reveal(remove_owned_spec);
}

/// The first thing that `uninstall_fish` asks for.
pub proof fn law_uninstall_fish_asks(env: ShellEnvV, opts: UninstallOpts)
    ensures
        uninstall_fish_spec(Seq::empty(), env, opts) == Out::<()>::Ask(
            call(
                Act::IsFile,
                path_join_spec(env.xdg_config_home, "fish/functions/ji.fish"@),
                Seq::empty(),
            ),
        ),
{
    reveal(uninstall_fish_spec);
    reveal(remove_owned_spec);
}

} // verus!
