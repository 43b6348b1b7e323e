//! Syncing two workspaces.

use vstd::prelude::*;

use crate::commands::after::{post_op_stale, post_op_stale_spec};
use crate::commands::plan::{
    detect_sync_mode, detect_sync_mode_spec, validate_head_info, validate_head_info_spec,
};
use crate::commands::protect::{
    prepare_execution_freshness, prepare_execution_freshness_spec, ExecutionFreshness,
    ExecutionFreshnessV,
};
use crate::commands::types::{src_heads, tgt_heads, SyncModeInfo, SyncModeInfoV};
use crate::finder_xattrs::{capture_spec, restore_spec, XattrGuard, XattrGuardV};
use crate::jj_utils::{
    abandon_trivial_heads, abandon_trivial_heads_spec, advance_singular_bookmark_to_effective_head,
    advance_singular_bookmark_to_effective_head_spec,
};
use crate::operations::{
    sync as sync_heads, sync_spec as sync_heads_spec, SyncOutcome, SyncOutcomeV, WsRef, WsRefV,
};
use crate::revisions::last_common_ancestor_spec;
use crate::stale::{update_workspace_stale, update_workspace_stale_spec};
use crate::tape::{
    agrees, attempt, attempt_spec, bind, render_spec, Failure, FailureV, Out, Stop, Tape, Trace,
};
use crate::text::{args1, chain, copy_all};

verus! {

/// What a sync needs to know, owning its data.
#[derive(Debug)]
pub struct SyncParamsOwned {
    pub repo_root: String,
    pub info: SyncModeInfo,
    pub source_name: String,
    pub source_path: String,
    pub target_name: String,
    pub target_path: String,
    pub workspace_path_template: String,
    pub repo_name: String,
    pub author: Option<String>,
    pub preserve_finder_xattrs: bool,
}

/// How `m` failed, as a warning.
pub open spec fn warned<A>(m: Out<A>) -> Out<Seq<Seq<char>>> {
    bind(
        attempt_spec(m),
        |r: Result<A, FailureV>, t: Trace|
            Out::Got(
                match r {
                    Ok(_) => Seq::empty(),
                    Err(e) => seq![render_spec(e)],
                },
                t,
            ),
    )
}

fn warn<T>(r: Result<T, Failure>) -> (v: Vec<String>)
    ensures
        v.deep_view() == (match r {
            Ok(_) => Seq::<Seq<char>>::empty(),
            Err(e) => seq![render_spec(e.deep_view())],
        }),
{
    match r {
        Ok(_) => {
            let v: Vec<String> = Vec::new();
            assert(v.deep_view() =~= Seq::<Seq<char>>::empty());
            v
        },
        Err(e) => args1(&e.render()),
    }
}

/// Moves the bookmarks of both workspaces to their effective heads.
#[verifier::opaque]
pub open spec fn advance_both_spec(
    t: Trace,
    repo: Seq<char>,
    src_name: Seq<char>,
    tgt_name: Seq<char>,
    workspace_path_template: Seq<char>,
    repo_name: Seq<char>,
) -> Out<Seq<Seq<char>>> {
    bind(
        warned(
            advance_singular_bookmark_to_effective_head_spec(
                t,
                repo,
                workspace_path_template,
                repo_name,
                src_name,
            ),
        ),
        |a: Seq<Seq<char>>, t: Trace|
            bind(
                warned(
                    advance_singular_bookmark_to_effective_head_spec(
                        t,
                        repo,
                        workspace_path_template,
                        repo_name,
                        tgt_name,
                    ),
                ),
                |b: Seq<Seq<char>>, t: Trace| Out::Got(a + b, t),
            ),
    )
}

fn advance_both(
    tape: &mut Tape,
    repo: &str,
    src_name: &str,
    tgt_name: &str,
    workspace_path_template: &str,
    repo_name: &str,
) -> (r: Result<Vec<String>, Stop>)
    ensures
        agrees(
            r,
            final(tape)@,
            advance_both_spec(
                old(tape)@,
                repo@,
                src_name@,
                tgt_name@,
                workspace_path_template@,
                repo_name@,
            ),
        ),
{
    reveal(advance_both_spec);
    let a = attempt(
        advance_singular_bookmark_to_effective_head(
            tape,
            repo,
            workspace_path_template,
            repo_name,
            src_name,
        ),
    )?;
    let a = warn(a);
    let b = attempt(
        advance_singular_bookmark_to_effective_head(
            tape,
            repo,
            workspace_path_template,
            repo_name,
            tgt_name,
        ),
    )?;
    Ok(chain(a, warn(b)))
}

/// Cleans up the further trivial heads of both workspaces.
#[verifier::opaque]
pub open spec fn abandon_both_spec(
    t: Trace,
    repo: Seq<char>,
    info: SyncModeInfoV,
) -> Out<Seq<Seq<char>>> {
    bind(
        warned(abandon_trivial_heads_spec(t, repo, info.src_trivial_ids)),
        |a: Seq<Seq<char>>, t: Trace|
            bind(
                warned(abandon_trivial_heads_spec(t, repo, info.tgt_trivial_ids)),
                |b: Seq<Seq<char>>, t: Trace| Out::Got(a + b, t),
            ),
    )
}

fn abandon_both(tape: &mut Tape, repo: &str, info: &SyncModeInfo) -> (r: Result<Vec<String>, Stop>)
    ensures
        agrees(r, final(tape)@, abandon_both_spec(old(tape)@, repo@, info.deep_view())),
{
    reveal(abandon_both_spec);
    let a = attempt(abandon_trivial_heads(tape, repo, &info.src_trivial_ids))?;
    let a = warn(a);
    let b = attempt(abandon_trivial_heads(tape, repo, &info.tgt_trivial_ids))?;
    Ok(chain(a, warn(b)))
}

pub open spec fn guard_restored(
    t: Trace,
    guard: XattrGuardV,
    fresh: ExecutionFreshnessV,
    warnings: Seq<Seq<char>>,
) -> Out<Seq<Seq<char>>> {
    bind(
        restore_spec(t, guard, fresh.ws_paths),
        |more: Seq<Seq<char>>, t: Trace| Out::Got(warnings + more, t),
    )
}

/// After the sync: working copies, Finder metadata, bookmarks, trivial heads, stale workspaces.
#[verifier::opaque]
pub open spec fn finish_sync_spec(
    t: Trace,
    repo: Seq<char>,
    fresh: ExecutionFreshnessV,
    guard: XattrGuardV,
    src_name: Seq<char>,
    src_path: Seq<char>,
    tgt_name: Seq<char>,
    tgt_path: Seq<char>,
    workspace_path_template: Seq<char>,
    repo_name: Seq<char>,
    warnings: Seq<Seq<char>>,
) -> Out<Seq<Seq<char>>> {
    bind(
        attempt_spec(update_workspace_stale_spec(t, src_path)),
        |a: Result<Seq<char>, FailureV>, t: Trace|
            bind(
                attempt_spec(update_workspace_stale_spec(t, tgt_path)),
                |b: Result<Seq<char>, FailureV>, t: Trace|
                    bind(
                        guard_restored(t, guard, fresh, warnings),
                        |w: Seq<Seq<char>>, t: Trace|
                            bind(
                                advance_both_spec(
                                    t,
                                    repo,
                                    src_name,
                                    tgt_name,
                                    workspace_path_template,
                                    repo_name,
                                ),
                                |x: Seq<Seq<char>>, t: Trace|
                                    bind(
                                        abandon_both_spec(t, repo, fresh.info),
                                        |y: Seq<Seq<char>>, t: Trace|
                                            bind(
                                                post_op_stale_spec(
                                                    t,
                                                    fresh.ws_paths,
                                                    fresh.stale_skipped,
                                                ),
                                                |z: Seq<Seq<char>>, t: Trace|
                                                    Out::Got(w + x + y + z, t),
                                            ),
                                    ),
                            ),
                    ),
            ),
    )
}

fn finish_sync(
    tape: &mut Tape,
    repo: &str,
    fresh: &ExecutionFreshness,
    guard: &XattrGuard,
    src_name: &str,
    src_path: &str,
    tgt_name: &str,
    tgt_path: &str,
    workspace_path_template: &str,
    repo_name: &str,
    warnings: &Vec<String>,
) -> (r: Result<Vec<String>, Stop>)
    ensures
        agrees(
            r,
            final(tape)@,
            finish_sync_spec(
                old(tape)@,
                repo@,
                fresh.deep_view(),
                guard.deep_view(),
                src_name@,
                src_path@,
                tgt_name@,
                tgt_path@,
                workspace_path_template@,
                repo_name@,
                warnings.deep_view(),
            ),
        ),
{
    reveal(finish_sync_spec);
    let _ = attempt(update_workspace_stale(tape, src_path))?;
    let _ = attempt(update_workspace_stale(tape, tgt_path))?;
    let more = guard.restore(tape, &fresh.ws_paths)?;
    let w = chain(copy_all(warnings), more);
    let x = advance_both(tape, repo, src_name, tgt_name, workspace_path_template, repo_name)?;
    let y = abandon_both(tape, repo, &fresh.info)?;
    let z = post_op_stale(tape, &fresh.ws_paths, &fresh.stale_skipped)?;
    Ok(chain(chain(chain(w, x), y), z))
}

#[verifier::opaque]
pub open spec fn sync_with_info_spec(
    t: Trace,
    repo: Seq<char>,
    info: SyncModeInfoV,
    src_name: Seq<char>,
    src_path: Seq<char>,
    tgt_name: Seq<char>,
    tgt_path: Seq<char>,
    workspace_path_template: Seq<char>,
    repo_name: Seq<char>,
    author: Option<Seq<char>>,
    preserve_finder_xattrs: bool,
) -> Out<SyncOutcomeV> {
    bind(
        validate_head_info_spec(t, repo, info, src_name, tgt_name, true),
        |validated: SyncModeInfoV, t: Trace|
            bind(
                prepare_execution_freshness_spec(
                    t,
                    repo,
                    validated,
                    src_name,
                    src_path,
                    tgt_name,
                    tgt_path,
                    true,
                    true,
                    None,
                ),
                |fresh: ExecutionFreshnessV, t: Trace|
                    bind(
                        capture_spec(t, fresh.ws_paths, preserve_finder_xattrs),
                        |guard: XattrGuardV, t: Trace|
                            bind(
                                sync_heads_spec(
                                    t,
                                    repo,
                                    WsRefV {
                                        name: src_name,
                                        path: src_path,
                                        info: src_heads(fresh.info),
                                    },
                                    WsRefV {
                                        name: tgt_name,
                                        path: tgt_path,
                                        info: tgt_heads(fresh.info),
                                    },
                                    author,
                                ),
                                |out: SyncOutcomeV, t: Trace|
                                    match out {
                                        SyncOutcomeV::AlreadyInSync => Out::Got(out, t),
                                        SyncOutcomeV::Done { warnings } => bind(
                                            finish_sync_spec(
                                                t,
                                                repo,
                                                fresh,
                                                guard,
                                                src_name,
                                                src_path,
                                                tgt_name,
                                                tgt_path,
                                                workspace_path_template,
                                                repo_name,
                                                warnings,
                                            ),
                                            |w: Seq<Seq<char>>, t: Trace|
                                                Out::Got(SyncOutcomeV::Done { warnings: w }, t),
                                        ),
                                    },
                            ),
                    ),
            ),
    )
}

/// Syncs two workspaces by a plan that was made before.
pub fn sync_with_info(
    tape: &mut Tape,
    repo: &str,
    info: &SyncModeInfo,
    src_name: &str,
    src_path: &str,
    tgt_name: &str,
    tgt_path: &str,
    workspace_path_template: &str,
    repo_name: &str,
    author: Option<&str>,
    preserve_finder_xattrs: bool,
) -> (r: Result<SyncOutcome, Stop>)
    ensures
        agrees(
            r,
            final(tape)@,
            sync_with_info_spec(
                old(tape)@,
                repo@,
                info.deep_view(),
                src_name@,
                src_path@,
                tgt_name@,
                tgt_path@,
                workspace_path_template@,
                repo_name@,
                author.deep_view(),
                preserve_finder_xattrs,
            ),
        ),
{
    reveal(sync_with_info_spec);
    let validated = validate_head_info(tape, repo, info, src_name, tgt_name, true)?;
    let fresh = prepare_execution_freshness(
        tape,
        repo,
        &validated,
        src_name,
        src_path,
        tgt_name,
        tgt_path,
        true,
        true,
        None,
    )?;
    let guard = XattrGuard::capture(tape, &fresh.ws_paths, preserve_finder_xattrs)?;
    let src_hi = fresh.info.src_head_info();
    let tgt_hi = fresh.info.tgt_head_info();
    let src = WsRef { name: src_name, path: src_path, info: &src_hi };
    let tgt = WsRef { name: tgt_name, path: tgt_path, info: &tgt_hi };
    match sync_heads(tape, repo, src, tgt, author)? {
        SyncOutcome::AlreadyInSync => Ok(SyncOutcome::AlreadyInSync),
        SyncOutcome::Done { warnings } => {
            let w = finish_sync(
                tape,
                repo,
                &fresh,
                &guard,
                src_name,
                src_path,
                tgt_name,
                tgt_path,
                workspace_path_template,
                repo_name,
                &warnings,
            )?;
            Ok(SyncOutcome::Done { warnings: w })
        },
    }
}

#[verifier::opaque]
pub open spec fn sync_spec(
    t: Trace,
    repo: Seq<char>,
    src_name: Seq<char>,
    src_path: Seq<char>,
    tgt_name: Seq<char>,
    tgt_path: Seq<char>,
    workspace_path_template: Seq<char>,
    repo_name: Seq<char>,
    author: Option<Seq<char>>,
    preserve_finder_xattrs: bool,
) -> Out<SyncOutcomeV> {
    bind(
        detect_sync_mode_spec(t, repo, src_name, tgt_name),
        |info: SyncModeInfoV, t: Trace|
            sync_with_info_spec(
                t,
                repo,
                info,
                src_name,
                src_path,
                tgt_name,
                tgt_path,
                workspace_path_template,
                repo_name,
                author,
                preserve_finder_xattrs,
            ),
    )
}

/// Syncs two workspaces by a plan made now.
pub fn sync(
    tape: &mut Tape,
    repo: &str,
    src_name: &str,
    src_path: &str,
    tgt_name: &str,
    tgt_path: &str,
    workspace_path_template: &str,
    repo_name: &str,
    author: Option<&str>,
    preserve_finder_xattrs: bool,
) -> (r: Result<SyncOutcome, Stop>)
    ensures
        agrees(
            r,
            final(tape)@,
            sync_spec(
                old(tape)@,
                repo@,
                src_name@,
                src_path@,
                tgt_name@,
                tgt_path@,
                workspace_path_template@,
                repo_name@,
                author.deep_view(),
                preserve_finder_xattrs,
            ),
        ),
{
    reveal(sync_spec);
    let info = detect_sync_mode(tape, repo, src_name, tgt_name)?;
    sync_with_info(
        tape,
        repo,
        &info,
        src_name,
        src_path,
        tgt_name,
        tgt_path,
        workspace_path_template,
        repo_name,
        author,
        preserve_finder_xattrs,
    )
}

/// Workspaces whose effective heads are both the last common ancestor are left as they are: once
/// the ancestor is known, nothing more is asked.
pub proof fn law_in_sync_is_left_alone(
    t: Trace,
    repo: Seq<char>,
    src: WsRefV,
    tgt: WsRefV,
    author: Option<Seq<char>>,
    lca: Seq<char>,
    u: Trace,
)
    requires
        src.info.effective_head == lca,
        tgt.info.effective_head == lca,
        last_common_ancestor_spec(t, repo, src.info.effective_head, tgt.info.effective_head)
            == Out::Got(lca, u),
    ensures
        sync_heads_spec(t, repo, src, tgt, author) == Out::Got(SyncOutcomeV::AlreadyInSync, u),
{
    reveal(crate::operations::sync_spec);
}

} // verus!
