//! Procedures that never fail: what goes wrong on the way is worked around, or is part of the result.

use vstd::prelude::*;

use crate::commands::after::{
    advance_own_spec, advance_to_spec, own_bookmarks_spec, post_op_bookmarks_spec,
    post_op_manual_bookmarks_spec, post_op_stale_spec, refresh_spec, resolve_predicted_stale_spec,
};
use crate::commands::create::{dress_spec, heal_spec, start_spec};
use crate::commands::plan::{detect_sync_mode_spec, op_head_now_spec};
use crate::commands::types::{BookmarkAction, Operation, SyncModeInfoV};
use crate::completion::{
    current_workspace_name_spec, new_bookmark_candidates_spec, render_workspace_candidates_spec,
    workspace_candidates_spec,
};
use crate::config::ConfigV;
use crate::finder_xattrs::{
    apply_spec, capture_file_spec, capture_spec, capture_ws_spec, process_file_spec, put_back_spec,
    restore_new_spec, restore_spec, CandidateV, XattrGuardV,
};
use crate::hooks::{run_background_spec, start_one_spec};
use crate::jj_parse::CompletionWorkspaceV;
use crate::jj_utils::identify_singular_bookmark_spec;
use crate::jujutsu::current_op_head_spec;
use crate::revisions::{bookmark_change_id_spec, resolve_sanitized_bookmark_spec};
use crate::shell::env::ShellEnvV;
use crate::shell::markers::ViaV;
use crate::shell::scan::{
    add_dir_spec, add_if_file_spec, expand_glob_spec, follow_spec, scan_locations_spec,
    usual_places_spec, ScanLocationV,
};
use crate::stale::{is_workspace_stale_spec, stale_here_spec, stale_workspace_names_spec};
use crate::subprocess_log::{init_spec, log_path_spec, open_log_spec};
use crate::tape::{each, Out, Trace};
use crate::text_map::Pairs;

verus! {

/// It asks for more or comes to a result, and does not fail.
pub open spec fn ends<A>(m: Out<A>) -> bool {
    !(m is Fail)
}

broadcast proof fn ends_each<X, A>(
    t: Trace,
    xs: Seq<X>,
    acc: A,
    step: spec_fn(Trace, A, X) -> Out<A>,
)
    requires
        forall|t: Trace, a: A, x: X| ends(#[trigger] step(t, a, x)),
    ensures
        ends(#[trigger] each(t, xs, acc, step)),
    decreases xs.len(),
{
    if xs.len() > 0 {
        assert(ends(step(t, acc, xs[0])));
        if let Out::Got(a, u) = step(t, acc, xs[0]) {
            ends_each(u, xs.drop_first(), a, step);
        }
    }
}

broadcast proof fn ends_bookmark_change_id(t: Trace, repo: Seq<char>, bookmark: Seq<char>)
    ensures
        ends(#[trigger] bookmark_change_id_spec(t, repo, bookmark)),
{
    reveal(bookmark_change_id_spec);
}

broadcast proof fn ends_resolve_sanitized_bookmark(t: Trace, repo: Seq<char>, derived: Seq<char>)
    ensures
        ends(#[trigger] resolve_sanitized_bookmark_spec(t, repo, derived)),
{
    broadcast use ends_bookmark_change_id;

    reveal(resolve_sanitized_bookmark_spec);
}

broadcast proof fn ends_start_one(
    t: Trace,
    label: Seq<char>,
    name: Seq<char>,
    cmd: Seq<char>,
    cwd: Seq<char>,
    quiet: bool,
)
    ensures
        ends(#[trigger] start_one_spec(t, label, name, cmd, cwd, quiet)),
{
    reveal(start_one_spec);
}

broadcast proof fn ends_run_background(
    t: Trace,
    label: Seq<char>,
    hooks: Pairs,
    vars: Pairs,
    cwd: Seq<char>,
    quiet: bool,
)
    ensures
        ends(#[trigger] run_background_spec(t, label, hooks, vars, cwd, quiet)),
{
    broadcast use {ends_start_one, ends_each};

    reveal(run_background_spec);
}

broadcast proof fn ends_current_workspace_name(t: Trace, workspaces: Seq<CompletionWorkspaceV>)
    ensures
        ends(#[trigger] current_workspace_name_spec(t, workspaces)),
{
    broadcast use ends_each;

    reveal(current_workspace_name_spec);
}

broadcast proof fn ends_render_workspace_candidates(
    t: Trace,
    workspaces: Seq<CompletionWorkspaceV>,
    current_name: Option<Seq<char>>,
    now: i64,
    bash: bool,
    token: Seq<char>,
)
    ensures
        ends(
            #[trigger] render_workspace_candidates_spec(
                t,
                workspaces,
                current_name,
                now,
                bash,
                token,
            ),
        ),
{
    broadcast use ends_each;

    reveal(render_workspace_candidates_spec);
}

broadcast proof fn ends_workspace_candidates(t: Trace, token: Seq<char>, now: i64, bash: bool)
    ensures
        ends(#[trigger] workspace_candidates_spec(t, token, now, bash)),
{
    broadcast use {ends_current_workspace_name, ends_render_workspace_candidates};

    reveal(workspace_candidates_spec);
}

broadcast proof fn ends_new_bookmark_candidates(t: Trace, token: Seq<char>, now: i64, bash: bool)
    ensures
        ends(#[trigger] new_bookmark_candidates_spec(t, token, now, bash)),
{
    reveal(new_bookmark_candidates_spec);
}

broadcast proof fn ends_current_op_head(t: Trace, repo_root: Seq<char>)
    ensures
        ends(#[trigger] current_op_head_spec(t, repo_root)),
{
    reveal(current_op_head_spec);
}

broadcast proof fn ends_is_workspace_stale(t: Trace, ws_path: Seq<char>)
    ensures
        ends(#[trigger] is_workspace_stale_spec(t, ws_path)),
{
    reveal(is_workspace_stale_spec);
}

broadcast proof fn ends_stale_here(t: Trace, path: Seq<char>)
    ensures
        ends(#[trigger] stale_here_spec(t, path)),
{
    broadcast use ends_is_workspace_stale;

    reveal(stale_here_spec);
}

broadcast proof fn ends_stale_workspace_names(t: Trace, workspaces: Seq<(Seq<char>, Seq<char>)>)
    ensures
        ends(#[trigger] stale_workspace_names_spec(t, workspaces)),
{
    broadcast use {ends_stale_here, ends_each};

    reveal(stale_workspace_names_spec);
}

broadcast proof fn ends_log_path(t: Trace, repo_root: Seq<char>, val: Seq<char>)
    ensures
        ends(#[trigger] log_path_spec(t, repo_root, val)),
{
    reveal(log_path_spec);
}

broadcast proof fn ends_open_log(t: Trace, path: Seq<char>)
    ensures
        ends(#[trigger] open_log_spec(t, path)),
{
    reveal(open_log_spec);
}

broadcast proof fn ends_init(t: Trace, repo_root: Seq<char>)
    ensures
        ends(#[trigger] init_spec(t, repo_root)),
{
    broadcast use {ends_log_path, ends_open_log};

    reveal(init_spec);
}

broadcast proof fn ends_identify_singular_bookmark(
    t: Trace,
    repo: Seq<char>,
    workspace_path_template: Seq<char>,
    repo_name: Seq<char>,
    ws_name: Seq<char>,
)
    ensures
        ends(
            #[trigger] identify_singular_bookmark_spec(
                t,
                repo,
                workspace_path_template,
                repo_name,
                ws_name,
            ),
        ),
{
    broadcast use ends_resolve_sanitized_bookmark;

    reveal(identify_singular_bookmark_spec);
}

broadcast proof fn ends_capture_file(
    t: Trace,
    ws_name: Seq<char>,
    ws_path: Seq<char>,
    rel: Seq<char>,
)
    ensures
        ends(#[trigger] capture_file_spec(t, ws_name, ws_path, rel)),
{
    reveal(capture_file_spec);
}

broadcast proof fn ends_capture_ws(t: Trace, g: XattrGuardV, ws_name: Seq<char>, ws_path: Seq<char>)
    ensures
        ends(#[trigger] capture_ws_spec(t, g, ws_name, ws_path)),
{
    broadcast use {ends_capture_file, ends_each};

    reveal(capture_ws_spec);
}

broadcast proof fn ends_capture(t: Trace, ws_paths: Pairs, restore_enabled: bool)
    ensures
        ends(#[trigger] capture_spec(t, ws_paths, restore_enabled)),
{
    broadcast use {ends_capture_ws, ends_each};

    reveal(capture_spec);
}

broadcast proof fn ends_put_back(
    t: Trace,
    path: Seq<char>,
    label: Seq<char>,
    name: Seq<char>,
    value: Option<Seq<u8>>,
)
    ensures
        ends(#[trigger] put_back_spec(t, path, label, name, value)),
{
    reveal(put_back_spec);
}

broadcast proof fn ends_apply(
    t: Trace,
    enabled: bool,
    path: Seq<char>,
    label: Seq<char>,
    c: CandidateV,
    finder_info_only: bool,
)
    ensures
        ends(#[trigger] apply_spec(t, enabled, path, label, c, finder_info_only)),
{
    broadcast use ends_put_back;

    reveal(apply_spec);
}

broadcast proof fn ends_process_file(
    t: Trace,
    g: XattrGuardV,
    ws_name: Seq<char>,
    ws_path: Seq<char>,
    rel: Seq<char>,
)
    ensures
        ends(#[trigger] process_file_spec(t, g, ws_name, ws_path, rel)),
{
    broadcast use ends_apply;

    reveal(process_file_spec);
}

broadcast proof fn ends_restore(t: Trace, g: XattrGuardV, ws_paths: Pairs)
    ensures
        ends(#[trigger] restore_spec(t, g, ws_paths)),
{
    broadcast use {ends_process_file, ends_each};

    reveal(restore_spec);
}

broadcast proof fn ends_restore_new(
    t: Trace,
    g: XattrGuardV,
    ws_name: Seq<char>,
    ws_path: Seq<char>,
)
    ensures
        ends(#[trigger] restore_new_spec(t, g, ws_name, ws_path)),
{
    broadcast use {ends_process_file, ends_each};

    reveal(restore_new_spec);
}

broadcast proof fn ends_expand_glob(t: Trace, pattern: Seq<char>)
    ensures
        ends(#[trigger] expand_glob_spec(t, pattern)),
{
    reveal(expand_glob_spec);
}

broadcast proof fn ends_add_if_file(
    t: Trace,
    locs: Seq<ScanLocationV>,
    path: Seq<char>,
    via: Option<ViaV>,
)
    ensures
        ends(#[trigger] add_if_file_spec(t, locs, path, via)),
{
    reveal(add_if_file_spec);
}

broadcast proof fn ends_follow(
    t: Trace,
    env: ShellEnvV,
    primary: Seq<char>,
    base_dir: Seq<char>,
    locs: Seq<ScanLocationV>,
    line_no: nat,
    line: Seq<char>,
)
    ensures
        ends(#[trigger] follow_spec(t, env, primary, base_dir, locs, line_no, line)),
{
    broadcast use {ends_add_if_file, ends_expand_glob, ends_each};

    reveal(follow_spec);
}

broadcast proof fn ends_add_dir(t: Trace, locs: Seq<ScanLocationV>, dir: Seq<char>, ext: Seq<char>)
    ensures
        ends(#[trigger] add_dir_spec(t, locs, dir, ext)),
{
    reveal(add_dir_spec);
}

broadcast proof fn ends_usual_places(t: Trace, env: ShellEnvV, shell: Seq<char>, primary: Seq<char>)
    ensures
        ends(#[trigger] usual_places_spec(t, env, shell, primary)),
{
    broadcast use ends_add_dir;

    reveal(usual_places_spec);
}

broadcast proof fn ends_scan_locations(
    t: Trace,
    env: ShellEnvV,
    shell: Seq<char>,
    primary: Seq<char>,
)
    ensures
        ends(#[trigger] scan_locations_spec(t, env, shell, primary)),
{
    broadcast use {ends_follow, ends_usual_places, ends_each};

    reveal(scan_locations_spec);
}

broadcast proof fn ends_post_op_stale(t: Trace, ws_paths: Pairs, pre_stale: Seq<Seq<char>>)
    ensures
        ends(#[trigger] post_op_stale_spec(t, ws_paths, pre_stale)),
{
    broadcast use ends_stale_workspace_names;

    reveal(post_op_stale_spec);
}

broadcast proof fn ends_refresh(t: Trace, path: Seq<char>)
    ensures
        ends(#[trigger] refresh_spec(t, path)),
{
    reveal(refresh_spec);
}

broadcast proof fn ends_resolve_predicted_stale(
    t: Trace,
    predicted: Seq<Seq<char>>,
    ws_paths: Pairs,
)
    ensures
        ends(#[trigger] resolve_predicted_stale_spec(t, predicted, ws_paths)),
{
    broadcast use {ends_refresh, ends_each};

    reveal(resolve_predicted_stale_spec);
}

broadcast proof fn ends_post_op_manual_bookmarks(
    t: Trace,
    repo: Seq<char>,
    bookmarks: Seq<Seq<char>>,
    action: BookmarkAction,
    target_change_id: Seq<char>,
)
    ensures
        ends(
            #[trigger] post_op_manual_bookmarks_spec(
                t,
                repo,
                bookmarks,
                action,
                target_change_id,
            ),
        ),
{
    broadcast use ends_each;

    reveal(post_op_manual_bookmarks_spec);
}

broadcast proof fn ends_advance_to(
    t: Trace,
    repo: Seq<char>,
    workspace_path_template: Seq<char>,
    repo_name: Seq<char>,
    source_name: Seq<char>,
    head: Option<Seq<char>>,
)
    ensures
        ends(
            #[trigger] advance_to_spec(
                t,
                repo,
                workspace_path_template,
                repo_name,
                source_name,
                head,
            ),
        ),
{
    reveal(advance_to_spec);
}

broadcast proof fn ends_advance_own(
    t: Trace,
    repo: Seq<char>,
    workspace_path_template: Seq<char>,
    repo_name: Seq<char>,
    ws_name: Seq<char>,
)
    ensures
        ends(#[trigger] advance_own_spec(t, repo, workspace_path_template, repo_name, ws_name)),
{
    reveal(advance_own_spec);
}

broadcast proof fn ends_own_bookmarks(
    t: Trace,
    repo: Seq<char>,
    operation: Operation,
    source_name: Seq<char>,
    target_name: Seq<char>,
    close_info: Option<SyncModeInfoV>,
    workspace_path_template: Seq<char>,
    repo_name: Seq<char>,
    given: Option<Seq<char>>,
)
    ensures
        ends(
            #[trigger] own_bookmarks_spec(
                t,
                repo,
                operation,
                source_name,
                target_name,
                close_info,
                workspace_path_template,
                repo_name,
                given,
            ),
        ),
{
    broadcast use {ends_advance_own, ends_advance_to};

    reveal(own_bookmarks_spec);
}

broadcast proof fn ends_post_op_bookmarks(
    t: Trace,
    repo: Seq<char>,
    operation: Operation,
    source_name: Seq<char>,
    target_name: Seq<char>,
    close_info: Option<SyncModeInfoV>,
    workspace_path_template: Seq<char>,
    repo_name: Seq<char>,
    bookmarks: Seq<Seq<char>>,
    src_effective_head_override: Option<Seq<char>>,
)
    ensures
        ends(
            #[trigger] post_op_bookmarks_spec(
                t,
                repo,
                operation,
                source_name,
                target_name,
                close_info,
                workspace_path_template,
                repo_name,
                bookmarks,
                src_effective_head_override,
            ),
        ),
{
    broadcast use {ends_identify_singular_bookmark, ends_own_bookmarks};

    reveal(post_op_bookmarks_spec);
}

broadcast proof fn ends_op_head_now(t: Trace, repo: Seq<char>)
    ensures
        ends(#[trigger] op_head_now_spec(t, repo)),
{
    broadcast use ends_current_op_head;

    reveal(op_head_now_spec);
}

broadcast proof fn ends_detect_sync_mode(
    t: Trace,
    repo: Seq<char>,
    src_name: Seq<char>,
    tgt_name: Seq<char>,
)
    ensures
        ends(#[trigger] detect_sync_mode_spec(t, repo, src_name, tgt_name)),
{
    broadcast use ends_op_head_now;

    reveal(detect_sync_mode_spec);
}

broadcast proof fn ends_start(
    t: Trace,
    config: ConfigV,
    vars: Pairs,
    ws_path: Seq<char>,
    quiet: bool,
)
    requires
        quiet,
    ensures
        ends(#[trigger] start_spec(t, config, vars, ws_path, quiet)),
{
    broadcast use ends_run_background;

    reveal(start_spec);
}

broadcast proof fn ends_dress(
    t: Trace,
    repo_root: Seq<char>,
    config: ConfigV,
    repo_name: Seq<char>,
    bookmark: Seq<char>,
    ws_path: Seq<char>,
    ws_name: Seq<char>,
    quiet: bool,
)
    requires
        quiet,
    ensures
        ends(
            #[trigger] dress_spec(
                t,
                repo_root,
                config,
                repo_name,
                bookmark,
                ws_path,
                ws_name,
                quiet,
            ),
        ),
{
    broadcast use ends_start;

    reveal(dress_spec);
}

broadcast proof fn ends_heal(
    t: Trace,
    guard: XattrGuardV,
    source: Pairs,
    ws_name: Seq<char>,
    ws_path: Seq<char>,
)
    ensures
        ends(#[trigger] heal_spec(t, guard, source, ws_name, ws_path)),
{
    broadcast use {ends_restore_new, ends_restore};

    reveal(heal_spec);
}

/// Completion never fails: without an answer from jj there are no candidates.
pub proof fn law_completion_never_fails(t: Trace, token: Seq<char>, now: i64, bash: bool)
    ensures
        ends(workspace_candidates_spec(t, token, now, bash)),
        ends(new_bookmark_candidates_spec(t, token, now, bash)),
{
    broadcast use {ends_workspace_candidates, ends_new_bookmark_candidates};

}

/// Finder metadata never stops an operation: what cannot be read is left out of the record, and
/// what cannot be restored is a warning.
pub proof fn law_metadata_never_fails(
    t: Trace,
    ws_paths: Pairs,
    restore_enabled: bool,
    g: XattrGuardV,
    ws_name: Seq<char>,
    ws_path: Seq<char>,
)
    ensures
        ends(capture_spec(t, ws_paths, restore_enabled)),
        ends(restore_spec(t, g, ws_paths)),
        ends(restore_new_spec(t, g, ws_name, ws_path)),
{
    broadcast use {ends_capture, ends_restore, ends_restore_new};

}

/// After an operation nothing fails any more: other workspaces and bookmarks that could not be
/// handled are reported.
pub proof fn law_cleanup_never_fails(
    t: Trace,
    repo: Seq<char>,
    operation: Operation,
    source_name: Seq<char>,
    target_name: Seq<char>,
    close_info: Option<SyncModeInfoV>,
    workspace_path_template: Seq<char>,
    repo_name: Seq<char>,
    bookmarks: Seq<Seq<char>>,
    head: Option<Seq<char>>,
    action: BookmarkAction,
    target_change_id: Seq<char>,
    ws_paths: Pairs,
    names: Seq<Seq<char>>,
)
    ensures
        ends(post_op_stale_spec(t, ws_paths, names)),
        ends(resolve_predicted_stale_spec(t, names, ws_paths)),
        ends(
            post_op_bookmarks_spec(
                t,
                repo,
                operation,
                source_name,
                target_name,
                close_info,
                workspace_path_template,
                repo_name,
                bookmarks,
                head,
            ),
        ),
        ends(post_op_manual_bookmarks_spec(t, repo, bookmarks, action, target_change_id)),
{
    broadcast use {
        ends_post_op_stale,
        ends_resolve_predicted_stale,
        ends_post_op_bookmarks,
        ends_post_op_manual_bookmarks,
    };

}

/// The state of two workspaces is always reported; that it is unknown is one of the states.
pub proof fn law_sync_state_is_always_reported(
    t: Trace,
    repo: Seq<char>,
    src_name: Seq<char>,
    tgt_name: Seq<char>,
)
    ensures
        ends(detect_sync_mode_spec(t, repo, src_name, tgt_name)),
{
    broadcast use ends_detect_sync_mode;

}

/// Logging never fails: a log that cannot be opened is said and left off.
pub proof fn law_logging_never_fails(t: Trace, repo_root: Seq<char>)
    ensures
        ends(init_spec(t, repo_root)),
{
    broadcast use ends_init;

}

/// Background hooks never fail: one that does not start is said.
pub proof fn law_background_hooks_never_fail(
    t: Trace,
    label: Seq<char>,
    hooks: Pairs,
    vars: Pairs,
    cwd: Seq<char>,
    quiet: bool,
)
    ensures
        ends(run_background_spec(t, label, hooks, vars, cwd, quiet)),
{
    broadcast use ends_run_background;

}

/// The search for places where the integration may be never fails: what is not there is skipped.
pub proof fn law_scan_never_fails(
    t: Trace,
    env: ShellEnvV,
    shell: Seq<char>,
    primary: Seq<char>,
)
    ensures
        ends(scan_locations_spec(t, env, shell, primary)),
{
    broadcast use ends_scan_locations;

}

/// A quiet creation does not fail once the workspace is there: neither Finder metadata nor the
/// bookmark, files or hooks make it fail.
pub proof fn law_quiet_creation_survives_its_hooks(
    t: Trace,
    repo_root: Seq<char>,
    config: ConfigV,
    repo_name: Seq<char>,
    bookmark: Seq<char>,
    ws_path: Seq<char>,
    ws_name: Seq<char>,
    guard: XattrGuardV,
    source: Pairs,
)
    ensures
        ends(heal_spec(t, guard, source, ws_name, ws_path)),
        ends(dress_spec(t, repo_root, config, repo_name, bookmark, ws_path, ws_name, true)),
{
    broadcast use {ends_heal, ends_dress};

}

} // verus!
