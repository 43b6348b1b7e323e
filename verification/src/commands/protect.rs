//! Before execution: every workspace's pending edits are captured, and the plan is proved again.

use vstd::prelude::*;
use vstd::seq_lib::*;

use crate::commands::plan::{plan_equivalent, plan_same, stable_detect_sync_mode, stable_spec};
use crate::commands::types::{SyncMode, SyncModeInfo, SyncModeInfoV, SyncModeV};
use crate::jj_parse::{WorkspaceEntry, WorkspaceEntryV};
use crate::jj_run::{jj_spec, log_args_spec};
use crate::jujutsu::{
    all_wcs_spec, descendant_first_workspaces, descendant_first_workspaces_spec,
    law_descendants_come_first, list_workspace_entries, list_workspace_entries_spec,
    only_snapshots_since, only_snapshots_since_spec, snapshot_request, snapshot_ws,
    snapshot_ws_spec, TMPL_ID_LINE,
};
use crate::paths::{components_spec, same_components};
use crate::replay::{
    group_rest, is_rest, leaves, left, lemma_rest, replays, replays_capture_needed,
    replays_capture_other, replays_capture_others, replays_check_involved_paths,
    replays_descendant_first_workspaces, replays_holds, replays_list_workspace_entries,
    replays_on_disk, replays_snapshot_ws,
};
use crate::search::contains_char;
use crate::stale::{is_workspace_stale, is_workspace_stale_spec};
use crate::tape::{
    agrees, at, at_spec, attempt, attempt_spec, bind, context, context_spec, each, failure,
    failure_spec, fetch, fetch_spec, holds, holds_spec, lemma_each_step, within, within_spec, Act,
    FailureV, Kind, Out, RequestV, Stop, Tape, Trace,
};
use crate::text::{cat3, empty, same};
use crate::text_map::Pairs;

verus! {

/// How many operations are looked at for changes by others.
pub const RECHECK_OP_SCAN_LIMIT: usize = 1000;

/// What is known when execution may begin.
#[derive(Debug)]
pub struct ExecutionFreshness {
    /// The plan to execute.
    pub info: SyncModeInfo,
    /// Name and path of every workspace with a directory.
    pub ws_paths: Vec<(String, String)>,
    /// Workspaces that were stale before the operation.
    pub stale_skipped: Vec<String>,
}

pub struct ExecutionFreshnessV {
    pub info: SyncModeInfoV,
    pub ws_paths: Pairs,
    pub stale_skipped: Seq<Seq<char>>,
}

impl DeepView for ExecutionFreshness {
    type V = ExecutionFreshnessV;

    open spec fn deep_view(&self) -> ExecutionFreshnessV {
        ExecutionFreshnessV {
            info: self.info.deep_view(),
            ws_paths: self.ws_paths.deep_view(),
            stale_skipped: self.stale_skipped.deep_view(),
        }
    }
}

pub open spec fn changed() -> FailureV {
    failure_spec("repo changed, please retry"@)
}

fn repo_changed() -> (r: Stop)
    ensures
        r matches Stop::Fail(e) && e.deep_view() == changed(),
{
    Stop::Fail(failure("repo changed, please retry".to_string()))
}

// ---------------------------------------------------------------------------
// Paths
// ---------------------------------------------------------------------------

/// Do two paths name one directory, as written or once links are resolved?
#[verifier::opaque]
pub open spec fn same_dir_spec(t: Trace, a: Seq<char>, b: Seq<char>) -> Out<bool> {
    if components_spec(a) == components_spec(b) {
        Out::Got(true, t)
    } else {
        bind(
            fetch_spec(t, at_spec(Act::Canonical, a)),
            |x: Option<Seq<char>>, t: Trace|
                bind(
                    fetch_spec(t, at_spec(Act::Canonical, b)),
                    |y: Option<Seq<char>>, t: Trace|
                        Out::Got(
                            match (x, y) {
                                (Some(p), Some(q)) => components_spec(p) == components_spec(q),
                                _ => false,
                            },
                            t,
                        ),
                ),
        )
    }
}

fn same_dir(tape: &mut Tape, a: &str, b: &str) -> (r: Result<bool, Stop>)
    ensures
        agrees(r, final(tape)@, same_dir_spec(old(tape)@, a@, b@)),
{
    reveal(same_dir_spec);
    if same_components(a, b) {
        return Ok(true);
    }
    let x = fetch(tape, at(Act::Canonical, a))?;
    let y = fetch(tape, at(Act::Canonical, b))?;
    match (x, y) {
        (Some(p), Some(q)) => Ok(same_components(&p, &q)),
        _ => Ok(false),
    }
}

/// The first entry called `name`.
pub open spec fn entry_named(entries: Seq<WorkspaceEntryV>, name: Seq<char>) -> Option<
    WorkspaceEntryV,
>
    decreases entries.len(),
{
    if entries.len() == 0 {
        None
    } else if entries[0].name == name {
        Some(entries[0])
    } else {
        entry_named(entries.drop_first(), name)
    }
}

fn find_entry(entries: &Vec<WorkspaceEntry>, name: &str) -> (r: Option<usize>)
    ensures
        match r {
            Some(i) => i < entries@.len() && entry_named(entries.deep_view(), name@) == Some(
                entries@[i as int].deep_view(),
            ),
            None => entry_named(entries.deep_view(), name@) is None,
        },
{
    let ghost all = entries.deep_view();
    assert(all.skip(0) =~= all);
    for i in 0..entries.len()
        invariant
            all == entries.deep_view(),
            entry_named(all, name@) == entry_named(all.skip(i as int), name@),
    {
        proof {
            lemma_each_step(all, i as int);
        }
        assert(all[i as int] == entries@[i as int].deep_view());
        if same(&entries[i].name, name) {
            return Some(i);
        }
    }
    None
}

#[verifier::opaque]
pub open spec fn check_one_path_spec(
    t: Trace,
    entries: Seq<WorkspaceEntryV>,
    name: Seq<char>,
    path: Seq<char>,
) -> Out<()> {
    match entry_named(entries, name) {
        None => Out::Fail(changed(), t),
        Some(e) => bind(
            same_dir_spec(t, e.path, path),
            |ok: bool, t: Trace|
                if ok {
                    Out::Got((), t)
                } else {
                    Out::Fail(changed(), t)
                },
        ),
    }
}

fn check_one_path(
    tape: &mut Tape,
    entries: &Vec<WorkspaceEntry>,
    name: &str,
    path: &str,
) -> (r: Result<(), Stop>)
    ensures
        agrees(r, final(tape)@, check_one_path_spec(old(tape)@, entries.deep_view(), name@, path@)),
{
    reveal(check_one_path_spec);
    match find_entry(entries, name) {
        None => Err(repo_changed()),
        Some(i) => {
            if same_dir(tape, &entries[i].path, path)? {
                Ok(())
            } else {
                Err(repo_changed())
            }
        },
    }
}

/// Do the workspaces that the operation needs still have the paths that it was given?
#[verifier::opaque]
pub open spec fn check_involved_paths_spec(
    t: Trace,
    entries: Seq<WorkspaceEntryV>,
    src_name: Seq<char>,
    src_path: Seq<char>,
    target: Option<(Seq<char>, Seq<char>)>,
) -> Out<()> {
    bind(
        check_one_path_spec(t, entries, src_name, src_path),
        |u: (), t: Trace|
            match target {
                None => Out::Got((), t),
                Some((name, path)) => check_one_path_spec(t, entries, name, path),
            },
    )
}

fn check_involved_paths(
    tape: &mut Tape,
    entries: &Vec<WorkspaceEntry>,
    src_name: &str,
    src_path: &str,
    target: Option<(&str, &str)>,
) -> (r: Result<(), Stop>)
    ensures
        agrees(
            r,
            final(tape)@,
            check_involved_paths_spec(
                old(tape)@,
                entries.deep_view(),
                src_name@,
                src_path@,
                target.deep_view(),
            ),
        ),
{
    reveal(check_involved_paths_spec);
    check_one_path(tape, entries, src_name, src_path)?;
    match target {
        None => Ok(()),
        Some((name, path)) => check_one_path(tape, entries, name, path),
    }
}

// ---------------------------------------------------------------------------
// Capture
// ---------------------------------------------------------------------------

pub open spec fn on_disk_step() -> spec_fn(
    Trace,
    Seq<WorkspaceEntryV>,
    WorkspaceEntryV,
) -> Out<Seq<WorkspaceEntryV>> {
    |t: Trace, acc: Seq<WorkspaceEntryV>, e: WorkspaceEntryV|
        if e.path.len() == 0 {
            Out::Got(acc, t)
        } else {
            bind(
                holds_spec(t, at_spec(Act::Exists, e.path)),
                |there: bool, t: Trace|
                    Out::Got(
                        if there {
                            acc.push(e)
                        } else {
                            acc
                        },
                        t,
                    ),
            )
        }
}

/// The entries with a directory.
#[verifier::opaque]
pub open spec fn on_disk_spec(
    t: Trace,
    entries: Seq<WorkspaceEntryV>,
) -> Out<Seq<WorkspaceEntryV>> {
    each(t, entries, Seq::<WorkspaceEntryV>::empty(), on_disk_step())
}

fn on_disk(tape: &mut Tape, entries: &Vec<WorkspaceEntry>) -> (r: Result<Vec<WorkspaceEntry>, Stop>)
    ensures
        agrees(r, final(tape)@, on_disk_spec(old(tape)@, entries.deep_view())),
{
    reveal(on_disk_spec);
    let mut out: Vec<WorkspaceEntry> = Vec::new();
    assert(out.deep_view() =~= Seq::<WorkspaceEntryV>::empty());
    let ghost t0 = tape@;
    let ghost all = entries.deep_view();
    let ghost step = on_disk_step();
    assert(all.skip(0) =~= all);
    for i in 0..entries.len()
        invariant
            t0 == old(tape)@,
            all == entries.deep_view(),
            step == on_disk_step(),
            on_disk_spec(t0, all) == each(t0, all, Seq::<WorkspaceEntryV>::empty(), step),
            each(t0, all, Seq::<WorkspaceEntryV>::empty(), step) == each(tape@, all.skip(i as int), out.deep_view(), step),
    {
        proof {
            lemma_each_step(all, i as int);
        }
        assert(all[i as int] == entries@[i as int].deep_view());
        let ghost before = out.deep_view();
        if !empty(&entries[i].path) {
            if holds(tape, at(Act::Exists, &entries[i].path))? {
                out.push(entries[i].copy());
                assert(out.deep_view() =~= before.push(all[i as int]));
            }
        }
    }
    Ok(out)
}

pub open spec fn named_paths(entries: Seq<WorkspaceEntryV>) -> Pairs {
    entries.map_values(|e: WorkspaceEntryV| (e.name, e.path))
}

fn paths_of(entries: &Vec<WorkspaceEntry>) -> (r: Vec<(String, String)>)
    ensures
        r.deep_view() == named_paths(entries.deep_view()),
{
    let ghost all = named_paths(entries.deep_view());
    let mut out: Vec<(String, String)> = Vec::new();
    for i in 0..entries.len()
        invariant
            all == named_paths(entries.deep_view()),
            out.deep_view() == all.take(i as int),
    {
        let ghost before = out.deep_view();
        out.push((entries[i].name.clone(), entries[i].path.clone()));
        assert(out.deep_view() =~= before.push((entries@[i as int].name@, entries@[i as int].path@)));
        assert(all.take(i + 1) =~= all.take(i as int).push(all[i as int]));
    }
    assert(all.take(entries@.len() as int) =~= all);
    out
}

/// The entries at the positions `order`.
pub open spec fn picked(entries: Seq<WorkspaceEntryV>, order: Seq<usize>) -> Seq<WorkspaceEntryV> {
    order.map_values(|i: usize| entries[i as int])
}

fn pick(entries: &Vec<WorkspaceEntry>, order: &Vec<usize>) -> (r: Vec<WorkspaceEntry>)
    requires
        forall|i: int| 0 <= i < order@.len() ==> order@[i] < entries@.len(),
    ensures
        r.deep_view() == picked(entries.deep_view(), order.deep_view()),
{
    let ghost all = picked(entries.deep_view(), order.deep_view());
    let mut out: Vec<WorkspaceEntry> = Vec::new();
    for i in 0..order.len()
        invariant
            forall|i: int| 0 <= i < order@.len() ==> order@[i] < entries@.len(),
            all == picked(entries.deep_view(), order.deep_view()),
            out.deep_view() == all.take(i as int),
    {
        let ghost before = out.deep_view();
        let k: usize = order[i];
        assert(order.deep_view()[i as int] == k);
        let e = entries[k].copy();
        let ghost x = e.deep_view();
        out.push(e);
        assert(out.deep_view() =~= before.push(x));
        assert(all.take(i + 1) =~= all.take(i as int).push(all[i as int]));
    }
    assert(all.take(order@.len() as int) =~= all);
    out
}

/// Which workspaces the operation needs.
pub open spec fn is_involved(
    name: Seq<char>,
    src_name: Seq<char>,
    tgt_name: Seq<char>,
    target_involved: bool,
) -> bool {
    name == src_name || (target_involved && name == tgt_name)
}

/// Captures a workspace that the operation does not need; is it skipped because it is stale?
#[verifier::opaque]
pub open spec fn capture_other_spec(t: Trace, entry: WorkspaceEntryV) -> Out<bool> {
    bind(
        attempt_spec(snapshot_ws_spec(t, entry.path)),
        |r: Result<(), FailureV>, t: Trace|
            match r {
                Ok(_) => Out::Got(false, t),
                Err(e) => bind(
                    is_workspace_stale_spec(t, entry.path),
                    |stale: bool, t: Trace|
                        if stale {
                            Out::Got(true, t)
                        } else {
                            Out::Fail(
                                within_spec(
                                    e,
                                    "snapshotting workspace "@ + entry.name + " before execution"@,
                                ),
                                t,
                            )
                        },
                ),
            },
    )
}

fn capture_other(tape: &mut Tape, entry: &WorkspaceEntry) -> (r: Result<bool, Stop>)
    ensures
        agrees(r, final(tape)@, capture_other_spec(old(tape)@, entry.deep_view())),
{
    reveal(capture_other_spec);
    match attempt(snapshot_ws(tape, &entry.path))? {
        Ok(()) => Ok(false),
        Err(e) => {
            if is_workspace_stale(tape, &entry.path)? {
                return Ok(true);
            }
            let msg = cat3("snapshotting workspace ", &entry.name, " before execution");
            Err(Stop::Fail(within(e, &msg)))
        },
    }
}

pub open spec fn other_step(
    src_name: Seq<char>,
    tgt_name: Seq<char>,
    target_involved: bool,
) -> spec_fn(Trace, Seq<Seq<char>>, WorkspaceEntryV) -> Out<Seq<Seq<char>>> {
    |t: Trace, skipped: Seq<Seq<char>>, e: WorkspaceEntryV|
        if is_involved(e.name, src_name, tgt_name, target_involved) {
            Out::Got(skipped, t)
        } else {
            bind(
                capture_other_spec(t, e),
                |stale: bool, t: Trace|
                    Out::Got(
                        if stale {
                            skipped.push(e.name)
                        } else {
                            skipped
                        },
                        t,
                    ),
            )
        }
}

/// Captures the workspaces that the operation does not need; the stale ones are skipped and named.
#[verifier::opaque]
pub open spec fn capture_others_spec(
    t: Trace,
    entries: Seq<WorkspaceEntryV>,
    src_name: Seq<char>,
    tgt_name: Seq<char>,
    target_involved: bool,
) -> Out<Seq<Seq<char>>> {
    each(
        t,
        entries,
        Seq::<Seq<char>>::empty(),
        other_step(src_name, tgt_name, target_involved),
    )
}

fn capture_others(
    tape: &mut Tape,
    entries: &Vec<WorkspaceEntry>,
    src_name: &str,
    tgt_name: &str,
    target_involved: bool,
) -> (r: Result<Vec<String>, Stop>)
    ensures
        agrees(
            r,
            final(tape)@,
            capture_others_spec(
                old(tape)@,
                entries.deep_view(),
                src_name@,
                tgt_name@,
                target_involved,
            ),
        ),
{
    reveal(capture_others_spec);
    let mut skipped: Vec<String> = Vec::new();
    assert(skipped.deep_view() =~= Seq::<Seq<char>>::empty());
    let ghost t0 = tape@;
    let ghost all = entries.deep_view();
    let ghost step = other_step(src_name@, tgt_name@, target_involved);
    assert(all.skip(0) =~= all);
    for i in 0..entries.len()
        invariant
            t0 == old(tape)@,
            all == entries.deep_view(),
            step == other_step(src_name@, tgt_name@, target_involved),
            capture_others_spec(t0, all, src_name@, tgt_name@, target_involved) == each(
                t0,
                all,
                Seq::<Seq<char>>::empty(),
                step,
            ),
            each(t0, all, Seq::<Seq<char>>::empty(), step) == each(tape@, all.skip(i as int), skipped.deep_view(), step),
    {
        proof {
            lemma_each_step(all, i as int);
        }
        assert(all[i as int] == entries@[i as int].deep_view());
        let ghost before = skipped.deep_view();
        let e = &entries[i];
        if !(same(&e.name, src_name) || (target_involved && same(&e.name, tgt_name))) {
            if capture_other(tape, e)? {
                skipped.push(e.name.clone());
                assert(skipped.deep_view() =~= before.push(all[i as int].name));
            }
        }
    }
    Ok(skipped)
}

pub open spec fn needed_step(
    src_name: Seq<char>,
    tgt_name: Seq<char>,
    target_involved: bool,
) -> spec_fn(Trace, (), WorkspaceEntryV) -> Out<()> {
    |t: Trace, u: (), e: WorkspaceEntryV|
        if is_involved(e.name, src_name, tgt_name, target_involved) {
            context_spec(
                snapshot_ws_spec(t, e.path),
                "snapshotting workspace "@ + e.name + " (repo changed?)"@,
            )
        } else {
            Out::Got((), t)
        }
}

/// Captures the workspaces that the operation needs; any failure stops it.
#[verifier::opaque]
pub open spec fn capture_needed_spec(
    t: Trace,
    entries: Seq<WorkspaceEntryV>,
    src_name: Seq<char>,
    tgt_name: Seq<char>,
    target_involved: bool,
) -> Out<()> {
    each(t, entries, (), needed_step(src_name, tgt_name, target_involved))
}

fn capture_needed(
    tape: &mut Tape,
    entries: &Vec<WorkspaceEntry>,
    src_name: &str,
    tgt_name: &str,
    target_involved: bool,
) -> (r: Result<(), Stop>)
    ensures
        agrees(
            r,
            final(tape)@,
            capture_needed_spec(
                old(tape)@,
                entries.deep_view(),
                src_name@,
                tgt_name@,
                target_involved,
            ),
        ),
{
    reveal(capture_needed_spec);
    let ghost t0 = tape@;
    let ghost all = entries.deep_view();
    let ghost step = needed_step(src_name@, tgt_name@, target_involved);
    assert(all.skip(0) =~= all);
    for i in 0..entries.len()
        invariant
            t0 == old(tape)@,
            all == entries.deep_view(),
            step == needed_step(src_name@, tgt_name@, target_involved),
            capture_needed_spec(t0, all, src_name@, tgt_name@, target_involved) == each(
                t0,
                all,
                (),
                step,
            ),
            each(t0, all, (), step) == each(tape@, all.skip(i as int), (), step),
    {
        proof {
            lemma_each_step(all, i as int);
        }
        assert(all[i as int] == entries@[i as int].deep_view());
        let e = &entries[i];
        if same(&e.name, src_name) || (target_involved && same(&e.name, tgt_name)) {
            let doing = cat3("snapshotting workspace ", &e.name, " (repo changed?)");
            context(snapshot_ws(tape, &e.path), &doing)?;
        }
    }
    Ok(())
}

// ---------------------------------------------------------------------------
// Recheck
// ---------------------------------------------------------------------------

pub open spec fn target_of(
    involved: bool,
    tgt_name: Seq<char>,
    tgt_path: Seq<char>,
) -> Option<(Seq<char>, Seq<char>)> {
    if involved {
        Some((tgt_name, tgt_path))
    } else {
        None
    }
}

/// After the capture: nothing but snapshots happened, the paths stand, and the plan is the same
/// where the operation consumes it.
#[verifier::opaque]
pub open spec fn recheck_execution_freshness_spec(
    t: Trace,
    repo: Seq<char>,
    validated: SyncModeInfoV,
    src_name: Seq<char>,
    src_path: Seq<char>,
    tgt_name: Seq<char>,
    tgt_path: Seq<char>,
    target_involved: bool,
    plan_consuming: bool,
) -> Out<SyncModeInfoV> {
    bind(
        only_snapshots_since_spec(t, repo, validated.op_head, RECHECK_OP_SCAN_LIMIT),
        |quiet: bool, t: Trace|
            if !quiet {
                Out::Fail(changed(), t)
            } else {
                bind(
                    list_workspace_entries_spec(t, repo),
                    |entries: Seq<WorkspaceEntryV>, t: Trace|
                        bind(
                            check_involved_paths_spec(
                                t,
                                entries,
                                src_name,
                                src_path,
                                target_of(target_involved, tgt_name, tgt_path),
                            ),
                            |u: (), t: Trace|
                                if !plan_consuming {
                                    Out::Got(validated, t)
                                } else {
                                    bind(
                                        stable_spec(t, repo, src_name, tgt_name, 2),
                                        |fresh: SyncModeInfoV, t: Trace|
                                            match fresh.mode {
                                                SyncModeV::Error(e) => Out::Fail(
                                                    failure_spec(
                                                        "repo changed, please retry ("@ + e + ")"@,
                                                    ),
                                                    t,
                                                ),
                                                _ => if plan_same(validated, fresh) {
                                                    Out::Got(fresh, t)
                                                } else {
                                                    Out::Fail(changed(), t)
                                                },
                                            },
                                    )
                                },
                        ),
                )
            },
    )
}

fn recheck_execution_freshness(
    tape: &mut Tape,
    repo: &str,
    validated: &SyncModeInfo,
    src_name: &str,
    src_path: &str,
    tgt_name: &str,
    tgt_path: &str,
    target_involved: bool,
    plan_consuming: bool,
) -> (r: Result<SyncModeInfo, Stop>)
    ensures
        agrees(
            r,
            final(tape)@,
            recheck_execution_freshness_spec(
                old(tape)@,
                repo@,
                validated.deep_view(),
                src_name@,
                src_path@,
                tgt_name@,
                tgt_path@,
                target_involved,
                plan_consuming,
            ),
        ),
{
    reveal(recheck_execution_freshness_spec);
    if !only_snapshots_since(tape, repo, &validated.op_head, RECHECK_OP_SCAN_LIMIT)? {
        return Err(repo_changed());
    }
    let entries = list_workspace_entries(tape, repo)?;
    let target = if target_involved {
        Some((tgt_name, tgt_path))
    } else {
        None
    };
    check_involved_paths(tape, &entries, src_name, src_path, target)?;
    if !plan_consuming {
        return Ok(validated.copy());
    }
    let fresh = stable_detect_sync_mode(tape, repo, src_name, tgt_name)?;
    if let SyncMode::Error(e) = &fresh.mode {
        return Err(Stop::Fail(failure(cat3("repo changed, please retry (", e, ")"))));
    }
    if !plan_equivalent(validated, &fresh) {
        return Err(repo_changed());
    }
    Ok(fresh)
}

/// Captures every workspace with a directory, descendants before ancestors and those that the
/// operation needs last; gives their paths and the stale ones that were skipped.
#[verifier::opaque]
pub open spec fn captured_spec(
    t: Trace,
    repo: Seq<char>,
    entries: Seq<WorkspaceEntryV>,
    src_name: Seq<char>,
    tgt_name: Seq<char>,
    target_involved: bool,
) -> Out<(Seq<(Seq<char>, Seq<char>)>, Seq<Seq<char>>)> {
    bind(
        on_disk_spec(t, entries),
        |live: Seq<WorkspaceEntryV>, t: Trace|
            bind(
                context_spec(
                    descendant_first_workspaces_spec(t, repo, live),
                    "ordering workspaces for the protection snapshot"@,
                ),
                |order: Seq<usize>, t: Trace|
                    bind(
                        capture_others_spec(
                            t,
                            picked(live, order),
                            src_name,
                            tgt_name,
                            target_involved,
                        ),
                        |skipped: Seq<Seq<char>>, t: Trace|
                            bind(
                                capture_needed_spec(
                                    t,
                                    picked(live, order),
                                    src_name,
                                    tgt_name,
                                    target_involved,
                                ),
                                |u: (), t: Trace| Out::Got((named_paths(live), skipped), t),
                            ),
                    ),
            ),
    )
}

fn captured(
    tape: &mut Tape,
    repo: &str,
    entries: &Vec<WorkspaceEntry>,
    src_name: &str,
    tgt_name: &str,
    target_involved: bool,
) -> (r: Result<(Vec<(String, String)>, Vec<String>), Stop>)
    ensures
        agrees(
            r,
            final(tape)@,
            captured_spec(
                old(tape)@,
                repo@,
                entries.deep_view(),
                src_name@,
                tgt_name@,
                target_involved,
            ),
        ),
{
    reveal(captured_spec);
    let live = on_disk(tape, entries)?;
    let order = context(
        descendant_first_workspaces(tape, repo, &live),
        "ordering workspaces for the protection snapshot",
    )?;
    let ordered = pick(&live, &order);
    let skipped = capture_others(tape, &ordered, src_name, tgt_name, target_involved)?;
    capture_needed(tape, &ordered, src_name, tgt_name, target_involved)?;
    Ok((paths_of(&live), skipped))
}

/// Is an operation head unusable as a baseline: unread, or one of several?
pub open spec fn bad_baseline(op_head: Seq<char>) -> bool {
    op_head.len() == 0 || op_head.contains(',')
}

/// Does the target still have the change id that a bookmark is to advance to?
pub open spec fn target_stands(
    entries: Seq<WorkspaceEntryV>,
    tgt_name: Seq<char>,
    expected: Option<Seq<char>>,
) -> bool {
    match expected {
        None => true,
        Some(id) => match entry_named(entries, tgt_name) {
            Some(e) => e.change_id == id,
            None => false,
        },
    }
}

fn target_as_expected(entries: &Vec<WorkspaceEntry>, tgt_name: &str, expected: Option<&str>) -> (r:
    bool)
    ensures
        r == target_stands(entries.deep_view(), tgt_name@, expected.deep_view()),
{
    match expected {
        None => true,
        Some(id) => match find_entry(entries, tgt_name) {
            Some(i) => same(&entries[i].change_id, id),
            None => false,
        },
    }
}

#[verifier::opaque]
pub open spec fn prepare_execution_freshness_spec(
    t: Trace,
    repo: Seq<char>,
    validated: SyncModeInfoV,
    src_name: Seq<char>,
    src_path: Seq<char>,
    tgt_name: Seq<char>,
    tgt_path: Seq<char>,
    target_involved: bool,
    plan_consuming: bool,
    advance_target_change_id: Option<Seq<char>>,
) -> Out<ExecutionFreshnessV> {
    if bad_baseline(validated.op_head) {
        Out::Fail(changed(), t)
    } else {
        bind(
            list_workspace_entries_spec(t, repo),
            |entries: Seq<WorkspaceEntryV>, t: Trace|
                bind(
                    check_involved_paths_spec(
                        t,
                        entries,
                        src_name,
                        src_path,
                        target_of(target_involved, tgt_name, tgt_path),
                    ),
                    |u: (), t: Trace|
                        if !target_stands(entries, tgt_name, advance_target_change_id) {
                            Out::Fail(changed(), t)
                        } else {
                            bind(
                                captured_spec(
                                    t,
                                    repo,
                                    entries,
                                    src_name,
                                    tgt_name,
                                    target_involved,
                                ),
                                |c: (Pairs, Seq<Seq<char>>), t: Trace|
                                    bind(
                                        recheck_execution_freshness_spec(
                                            t,
                                            repo,
                                            validated,
                                            src_name,
                                            src_path,
                                            tgt_name,
                                            tgt_path,
                                            target_involved,
                                            plan_consuming,
                                        ),
                                        |info: SyncModeInfoV, t: Trace|
                                            Out::Got(
                                                ExecutionFreshnessV {
                                                    info,
                                                    ws_paths: c.0,
                                                    stale_skipped: c.1,
                                                },
                                                t,
                                            ),
                                    ),
                            )
                        },
                ),
        )
    }
}

/// The phase before execution: a usable baseline, paths that stand, every workspace captured, and
/// the plan proved again.
pub fn prepare_execution_freshness(
    tape: &mut Tape,
    repo: &str,
    validated: &SyncModeInfo,
    src_name: &str,
    src_path: &str,
    tgt_name: &str,
    tgt_path: &str,
    target_involved: bool,
    plan_consuming: bool,
    advance_target_change_id: Option<&str>,
) -> (r: Result<ExecutionFreshness, Stop>)
    ensures
        agrees(
            r,
            final(tape)@,
            prepare_execution_freshness_spec(
                old(tape)@,
                repo@,
                validated.deep_view(),
                src_name@,
                src_path@,
                tgt_name@,
                tgt_path@,
                target_involved,
                plan_consuming,
                advance_target_change_id.deep_view(),
            ),
        ),
{
    reveal(prepare_execution_freshness_spec);
    if empty(&validated.op_head) || contains_char(&validated.op_head, ',') {
        return Err(repo_changed());
    }
    let entries = list_workspace_entries(tape, repo)?;
    let target = if target_involved {
        Some((tgt_name, tgt_path))
    } else {
        None
    };
    check_involved_paths(tape, &entries, src_name, src_path, target)?;
    if !target_as_expected(&entries, tgt_name, advance_target_change_id) {
        return Err(repo_changed());
    }
    let (ws_paths, stale_skipped) = captured(
        tape,
        repo,
        &entries,
        src_name,
        tgt_name,
        target_involved,
    )?;
    let info = recheck_execution_freshness(
        tape,
        repo,
        validated,
        src_name,
        src_path,
        tgt_name,
        tgt_path,
        target_involved,
        plan_consuming,
    )?;
    Ok(ExecutionFreshness { info, ws_paths, stale_skipped })
}

/// A plan that passed is the validated one where the operation does not consume it, else one that
/// agrees with it and is no error.
pub proof fn law_prepared_plan(
    t: Trace,
    repo: Seq<char>,
    validated: SyncModeInfoV,
    src_name: Seq<char>,
    src_path: Seq<char>,
    tgt_name: Seq<char>,
    tgt_path: Seq<char>,
    target_involved: bool,
    plan_consuming: bool,
    advance: Option<Seq<char>>,
)
    ensures
        prepare_execution_freshness_spec(
            t,
            repo,
            validated,
            src_name,
            src_path,
            tgt_name,
            tgt_path,
            target_involved,
            plan_consuming,
            advance,
        ) matches Out::Got(f, u) ==> {
            &&& !bad_baseline(validated.op_head)
            &&& plan_same(validated, f.info)
            &&& !plan_consuming ==> f.info == validated
            &&& plan_consuming ==> !(f.info.mode is Error)
        },
{
    reveal(prepare_execution_freshness_spec);
    reveal(recheck_execution_freshness_spec);
}

/// With the first `k` replies the phase asks for `q`.
pub open spec fn phase_asks(
    t: Trace,
    repo: Seq<char>,
    validated: SyncModeInfoV,
    src_name: Seq<char>,
    src_path: Seq<char>,
    tgt_name: Seq<char>,
    tgt_path: Seq<char>,
    target_involved: bool,
    plan_consuming: bool,
    advance: Option<Seq<char>>,
    k: int,
    q: RequestV,
) -> bool {
    &&& 0 <= k < t.len()
    &&& prepare_execution_freshness_spec(
        t.take(k),
        repo,
        validated,
        src_name,
        src_path,
        tgt_name,
        tgt_path,
        target_involved,
        plan_consuming,
        advance,
    ) == Out::<ExecutionFreshnessV>::Ask(q)
}

proof fn lemma_replays_steps(src_name: Seq<char>, tgt_name: Seq<char>, target_involved: bool)
    ensures
        forall|t: Trace, a: Seq<Seq<char>>, x: WorkspaceEntryV|
            leaves(#[trigger] other_step(src_name, tgt_name, target_involved)(t, a, x), t),
        forall|t: Trace, k: int, a: Seq<Seq<char>>, x: WorkspaceEntryV|
            0 <= k <= t.len() ==> replays(
                other_step(src_name, tgt_name, target_involved)(t, a, x),
                t,
                k,
                #[trigger] other_step(src_name, tgt_name, target_involved)(t.take(k), a, x),
            ),
        forall|t: Trace, a: (), x: WorkspaceEntryV|
            leaves(#[trigger] needed_step(src_name, tgt_name, target_involved)(t, a, x), t),
        forall|t: Trace, k: int, a: (), x: WorkspaceEntryV|
            0 <= k <= t.len() ==> replays(
                needed_step(src_name, tgt_name, target_involved)(t, a, x),
                t,
                k,
                #[trigger] needed_step(src_name, tgt_name, target_involved)(t.take(k), a, x),
            ),
        forall|t: Trace, a: Seq<WorkspaceEntryV>, x: WorkspaceEntryV|
            leaves(#[trigger] on_disk_step()(t, a, x), t),
        forall|t: Trace, k: int, a: Seq<WorkspaceEntryV>, x: WorkspaceEntryV|
            0 <= k <= t.len() ==> replays(
                on_disk_step()(t, a, x),
                t,
                k,
                #[trigger] on_disk_step()(t.take(k), a, x),
            ),
{
    broadcast use {group_rest, replays_capture_other, replays_snapshot_ws, replays_holds};

}

/// What was skipped stays skipped.
proof fn lemma_skipped_grows(
    t: Trace,
    entries: Seq<WorkspaceEntryV>,
    src_name: Seq<char>,
    tgt_name: Seq<char>,
    target_involved: bool,
    acc: Seq<Seq<char>>,
)
    ensures
        each(t, entries, acc, other_step(src_name, tgt_name, target_involved)) matches Out::Got(
            skipped,
            _,
        ) ==> acc.is_prefix_of(skipped),
    decreases entries.len(),
{
    let step = other_step(src_name, tgt_name, target_involved);
    if entries.len() > 0 {
        if let Out::Got(a, u) = step(t, acc, entries[0]) {
            let rest = entries.drop_first();
            lemma_skipped_grows(u, rest, src_name, tgt_name, target_involved, a);
            assert(acc.is_prefix_of(a));
        }
    }
}

/// After how many replies the other workspace at `i` is captured.
proof fn lemma_other_captured(
    t: Trace,
    entries: Seq<WorkspaceEntryV>,
    src_name: Seq<char>,
    tgt_name: Seq<char>,
    target_involved: bool,
    acc: Seq<Seq<char>>,
    i: int,
) -> (k: int)
    requires
        each(t, entries, acc, other_step(src_name, tgt_name, target_involved)) is Got,
        0 <= i < entries.len(),
        !is_involved(entries[i].name, src_name, tgt_name, target_involved),
        !each(
            t,
            entries,
            acc,
            other_step(src_name, tgt_name, target_involved),
        )->Got_0.contains(entries[i].name),
    ensures
        0 <= k < t.len(),
        each(t.take(k), entries, acc, other_step(src_name, tgt_name, target_involved)) == Out::<
            Seq<Seq<char>>,
        >::Ask(snapshot_request(entries[i].path)),
        t[k].kind == Kind::Done,
    decreases entries.len(),
{
    broadcast use group_rest;

    lemma_replays_steps(src_name, tgt_name, target_involved);
    let step = other_step(src_name, tgt_name, target_involved);
    let e = entries[0];
    let rest = entries.drop_first();
    let a = step(t, acc, e)->Got_0;
    let u = left(step(t, acc, e));
    assert(leaves(step(t, acc, e), t));
    let n = t.len() - u.len();
    if i == 0 {
        reveal(capture_other_spec);
        reveal(snapshot_ws_spec);
        lemma_skipped_grows(u, rest, src_name, tgt_name, target_involved, a);
        if a == acc.push(e.name) {
            assert(a[acc.len() as int] == e.name);
            let skipped = each(t, entries, acc, step)->Got_0;
            assert(skipped[acc.len() as int] == e.name);
        }
        assert(t.take(0) =~= Seq::empty());
        0
    } else {
        assert(rest[i - 1] == entries[i]);
        let j = lemma_other_captured(u, rest, src_name, tgt_name, target_involved, a, i - 1);
        lemma_rest(u, t);
        assert(replays(step(t, acc, e), t, n + j, step(t.take(n + j), acc, e)));
        n + j
    }
}

/// After how many replies the needed workspace at `i` is captured.
proof fn lemma_needed_captured(
    t: Trace,
    entries: Seq<WorkspaceEntryV>,
    src_name: Seq<char>,
    tgt_name: Seq<char>,
    target_involved: bool,
    i: int,
) -> (k: int)
    requires
        each(t, entries, (), needed_step(src_name, tgt_name, target_involved)) is Got,
        0 <= i < entries.len(),
        is_involved(entries[i].name, src_name, tgt_name, target_involved),
    ensures
        0 <= k < t.len(),
        each(t.take(k), entries, (), needed_step(src_name, tgt_name, target_involved)) == Out::<
            (),
        >::Ask(snapshot_request(entries[i].path)),
        t[k].kind == Kind::Done,
    decreases entries.len(),
{
    broadcast use group_rest;

    lemma_replays_steps(src_name, tgt_name, target_involved);
    let step = needed_step(src_name, tgt_name, target_involved);
    let e = entries[0];
    let rest = entries.drop_first();
    let u = left(step(t, (), e));
    assert(leaves(step(t, (), e), t));
    let n = t.len() - u.len();
    if i == 0 {
        reveal(snapshot_ws_spec);
        assert(t.take(0) =~= Seq::empty());
        0
    } else {
        assert(rest[i - 1] == entries[i]);
        let j = lemma_needed_captured(u, rest, src_name, tgt_name, target_involved, i - 1);
        lemma_rest(u, t);
        assert(replays(step(t, (), e), t, n + j, step(t.take(n + j), (), e)));
        n + j
    }
}

/// Every position comes up in the order.
proof fn lemma_ordered(t: Trace, repo: Seq<char>, live: Seq<WorkspaceEntryV>, p: int) -> (i: int)
    requires
        live.len() <= usize::MAX,
        descendant_first_workspaces_spec(t, repo, live) is Got,
        0 <= p < live.len(),
    ensures
        ({
            let order = descendant_first_workspaces_spec(t, repo, live)->Got_0;
            0 <= i < order.len() && order[i] == p
        }),
{
    broadcast use group_to_multiset_ensures;

    reveal(descendant_first_workspaces_spec);
    let order = descendant_first_workspaces_spec(t, repo, live)->Got_0;
    let all = Seq::new(live.len(), |i: int| i as usize);
    if live.len() > 1 {
        let args = log_args_spec(all_wcs_spec(live), TMPL_ID_LINE@);
        if let Out::Got(listing, u) = jj_spec(t, Act::JjRepo, repo, args) {
            law_descendants_come_first(t, repo, live, listing, u);
        }
        assert(all[p] == p as usize);
        assert(all.to_multiset().count(p as usize) > 0);
        assert(order.contains(p as usize));
        choose|i: int| 0 <= i < order.len() && order[i] == p as usize
    } else {
        p
    }
}

/// After how many replies the capture of the workspace at `p` is asked for.
proof fn lemma_captured(
    t: Trace,
    repo: Seq<char>,
    entries: Seq<WorkspaceEntryV>,
    src_name: Seq<char>,
    tgt_name: Seq<char>,
    target_involved: bool,
    p: int,
) -> (k: int)
    requires
        captured_spec(t, repo, entries, src_name, tgt_name, target_involved) is Got,
        ({
            let c = captured_spec(t, repo, entries, src_name, tgt_name, target_involved)->Got_0;
            &&& c.0.len() <= usize::MAX
            &&& 0 <= p < c.0.len()
            &&& !c.1.contains(c.0[p].0)
        }),
    ensures
        0 <= k < t.len(),
        ({
            let c = captured_spec(t, repo, entries, src_name, tgt_name, target_involved)->Got_0;
            captured_spec(t.take(k), repo, entries, src_name, tgt_name, target_involved) == Out::<
                (Pairs, Seq<Seq<char>>),
            >::Ask(snapshot_request(c.0[p].1))
        }),
        t[k].kind == Kind::Done,
{
    broadcast use {
        group_rest,
        replays_on_disk,
        replays_descendant_first_workspaces,
        replays_capture_others,
        replays_capture_needed,
    };

    reveal(captured_spec);
    let on_disk = on_disk_spec(t, entries);
    let live = on_disk->Got_0;
    let t1 = left(on_disk);
    let ordering = descendant_first_workspaces_spec(t1, repo, live);
    let order = ordering->Got_0;
    let t2 = left(ordering);
    let all = picked(live, order);
    let others = capture_others_spec(t2, all, src_name, tgt_name, target_involved);
    let t3 = left(others);
    assert(named_paths(live)[p] == (live[p].name, live[p].path));
    let i = lemma_ordered(t1, repo, live, p);
    assert(all[i] == live[p]);
    assert(is_rest(t2, t) && is_rest(t3, t));
    if is_involved(live[p].name, src_name, tgt_name, target_involved) {
        reveal(capture_needed_spec);
        let j = lemma_needed_captured(t3, all, src_name, tgt_name, target_involved, i);
        lemma_rest(t3, t);
        t.len() - t3.len() + j
    } else {
        reveal(capture_others_spec);
        let j = lemma_other_captured(
            t2,
            all,
            src_name,
            tgt_name,
            target_involved,
            Seq::empty(),
            i,
        );
        lemma_rest(t2, t);
        t.len() - t2.len() + j
    }
}

/// Before anything is executed, the pending edits of every workspace with a directory are captured,
/// but for those that are named as stale.
pub proof fn law_workspaces_are_captured_first(
    t: Trace,
    repo: Seq<char>,
    validated: SyncModeInfoV,
    src_name: Seq<char>,
    src_path: Seq<char>,
    tgt_name: Seq<char>,
    tgt_path: Seq<char>,
    target_involved: bool,
    plan_consuming: bool,
    advance: Option<Seq<char>>,
    p: int,
)
    ensures
        prepare_execution_freshness_spec(
            t,
            repo,
            validated,
            src_name,
            src_path,
            tgt_name,
            tgt_path,
            target_involved,
            plan_consuming,
            advance,
        ) matches Out::Got(f, _) ==> 0 <= p < f.ws_paths.len() <= usize::MAX
            && !f.stale_skipped.contains(f.ws_paths[p].0) ==> exists|k: int|
            #[trigger] phase_asks(
                t,
                repo,
                validated,
                src_name,
                src_path,
                tgt_name,
                tgt_path,
                target_involved,
                plan_consuming,
                advance,
                k,
                snapshot_request(f.ws_paths[p].1),
            ) && t[k].kind == Kind::Done,
{
    broadcast use {group_rest, replays_list_workspace_entries, replays_check_involved_paths};

    reveal(prepare_execution_freshness_spec);
    let phase = prepare_execution_freshness_spec(
        t,
        repo,
        validated,
        src_name,
        src_path,
        tgt_name,
        tgt_path,
        target_involved,
        plan_consuming,
        advance,
    );
    if let Out::Got(f, _) = phase {
        if 0 <= p < f.ws_paths.len() <= usize::MAX && !f.stale_skipped.contains(f.ws_paths[p].0) {
            let listed = list_workspace_entries_spec(t, repo);
            let entries = listed->Got_0;
            let t1 = left(listed);
            let target = target_of(target_involved, tgt_name, tgt_path);
            let t2 = left(check_involved_paths_spec(t1, entries, src_name, src_path, target));
            let j = lemma_captured(t2, repo, entries, src_name, tgt_name, target_involved, p);
            assert(is_rest(t2, t));
            lemma_rest(t2, t);
            let k = t.len() - t2.len() + j;
            assert(phase_asks(
                t,
                repo,
                validated,
                src_name,
                src_path,
                tgt_name,
                tgt_path,
                target_involved,
                plan_consuming,
                advance,
                k,
                snapshot_request(f.ws_paths[p].1),
            ));
        }
    }
}

/// After how many replies the directory of the workspace at `i` is asked about, and what the answer
/// makes of it.
proof fn lemma_looked_for(
    t: Trace,
    entries: Seq<WorkspaceEntryV>,
    acc: Seq<WorkspaceEntryV>,
    i: int,
) -> (k: int)
    requires
        each(t, entries, acc, on_disk_step()) is Got,
        0 <= i < entries.len(),
        entries[i].path.len() > 0,
    ensures
        0 <= k < t.len(),
        each(t.take(k), entries, acc, on_disk_step()) == Out::<Seq<WorkspaceEntryV>>::Ask(
            at_spec(Act::Exists, entries[i].path),
        ),
        t[k].kind == Kind::Done ==> each(t, entries, acc, on_disk_step())->Got_0.contains(
            entries[i],
        ),
    decreases entries.len(),
{
    broadcast use group_rest;

    lemma_replays_steps(Seq::empty(), Seq::empty(), false);
    let step = on_disk_step();
    let e = entries[0];
    let rest = entries.drop_first();
    let a = step(t, acc, e)->Got_0;
    let u = left(step(t, acc, e));
    assert(leaves(step(t, acc, e), t));
    let n = t.len() - u.len();
    if i == 0 {
        assert(t.take(0) =~= Seq::empty());
        lemma_found_grows(u, rest, a);
        if t[0].kind == Kind::Done {
            assert(a == acc.push(e));
            let live = each(t, entries, acc, step)->Got_0;
            assert(a[acc.len() as int] == e);
            assert(live[acc.len() as int] == e);
        }
        0
    } else {
        assert(rest[i - 1] == entries[i]);
        let j = lemma_looked_for(u, rest, a, i - 1);
        lemma_rest(u, t);
        assert(replays(step(t, acc, e), t, n + j, step(t.take(n + j), acc, e)));
        n + j
    }
}

proof fn lemma_found_grows(t: Trace, entries: Seq<WorkspaceEntryV>, acc: Seq<WorkspaceEntryV>)
    ensures
        each(t, entries, acc, on_disk_step()) matches Out::Got(live, _) ==> acc.is_prefix_of(live),
    decreases entries.len(),
{
    if entries.len() > 0 {
        if let Out::Got(a, u) = on_disk_step()(t, acc, entries[0]) {
            lemma_found_grows(u, entries.drop_first(), a);
            assert(acc.is_prefix_of(a));
        }
    }
}

/// Every workspace that jj lists with a path is looked for, and known where its directory exists.
pub proof fn law_existing_workspaces_are_known(
    t: Trace,
    repo: Seq<char>,
    validated: SyncModeInfoV,
    src_name: Seq<char>,
    src_path: Seq<char>,
    tgt_name: Seq<char>,
    tgt_path: Seq<char>,
    target_involved: bool,
    plan_consuming: bool,
    advance: Option<Seq<char>>,
    i: int,
)
    ensures
        prepare_execution_freshness_spec(
            t,
            repo,
            validated,
            src_name,
            src_path,
            tgt_name,
            tgt_path,
            target_involved,
            plan_consuming,
            advance,
        ) matches Out::Got(f, _) ==> list_workspace_entries_spec(t, repo) matches Out::Got(
            entries,
            _,
        ) && (0 <= i < entries.len() && entries[i].path.len() > 0 ==> exists|k: int|
            #[trigger] phase_asks(
                t,
                repo,
                validated,
                src_name,
                src_path,
                tgt_name,
                tgt_path,
                target_involved,
                plan_consuming,
                advance,
                k,
                at_spec(Act::Exists, entries[i].path),
            ) && (t[k].kind == Kind::Done ==> f.ws_paths.contains(
                (entries[i].name, entries[i].path),
            ))),
{
    broadcast use {group_rest, replays_list_workspace_entries, replays_check_involved_paths};

    reveal(prepare_execution_freshness_spec);
    reveal(captured_spec);
    reveal(on_disk_spec);
    let phase = prepare_execution_freshness_spec(
        t,
        repo,
        validated,
        src_name,
        src_path,
        tgt_name,
        tgt_path,
        target_involved,
        plan_consuming,
        advance,
    );
    if let Out::Got(f, _) = phase {
        let listed = list_workspace_entries_spec(t, repo);
        let entries = listed->Got_0;
        if 0 <= i < entries.len() && entries[i].path.len() > 0 {
            let e = entries[i];
            let t1 = left(listed);
            let target = target_of(target_involved, tgt_name, tgt_path);
            let t2 = left(check_involved_paths_spec(t1, entries, src_name, src_path, target));
            let j = lemma_looked_for(t2, entries, Seq::empty(), i);
            assert(is_rest(t2, t));
            lemma_rest(t2, t);
            let k = t.len() - t2.len() + j;
            assert(phase_asks(
                t,
                repo,
                validated,
                src_name,
                src_path,
                tgt_name,
                tgt_path,
                target_involved,
                plan_consuming,
                advance,
                k,
                at_spec(Act::Exists, e.path),
            ));
            if t[k].kind == Kind::Done {
                let live = on_disk_spec(t2, entries)->Got_0;
                let x = choose|x: int| 0 <= x < live.len() && live[x] == e;
                assert(named_paths(live)[x] == (e.name, e.path));
            }
        }
    }
}

} // verus!
