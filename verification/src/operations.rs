//! Operations on pairs of workspaces: creation, sync, merge, rebase, close.

use vstd::prelude::*;

use crate::jj_utils::{
    abandon_trivial_heads, abandon_trivial_heads_spec, check_working_copy_safety,
    check_working_copy_safety_spec, edit_workspace_head, edit_workspace_head_spec, is_head,
    is_head_spec, is_trivial_head, is_trivial_head_spec, make_desc, make_desc_spec, make_head,
    make_head_spec, resolve_change_id, resolve_change_id_spec, step_head, step_head_spec,
    ws_head_revset, ws_head_spec, Op, RevisionSafety, RevisionSafetyV, WorkspaceHeadInfo,
    WorkspaceHeadInfoV,
};
use crate::jujutsu::{snapshot_ws, snapshot_ws_spec};
use crate::revisions::{
    last_common_ancestor, last_common_ancestor_spec, new_merge, new_merge_spec, new_on_in_workspace,
    new_on_in_workspace_spec, progress_workspace, progress_workspace_spec, rebase_source,
    rebase_source_spec, revision_descriptions, revision_descriptions_spec, squash_into,
    squash_into_spec, workspace_forget, workspace_forget_spec,
};
use crate::search::{dec_spec, dec_usize};
use crate::stale::{
    is_workspace_stale, is_workspace_stale_spec, update_workspace_stale,
    update_workspace_stale_spec,
};
use crate::tape::{
    agrees, attempt, attempt_spec, bind, context, context_spec, failure, failure_spec, render_spec,
    FailureV, Out, Stop, Tape, Trace,
};
use crate::text::{args1, args2, cat2, cat3, cat5, cat7, head_bytes, same, take_bytes};
use crate::text_map::Pairs;

verus! {

/// A workspace with its heads.
#[derive(Clone, Copy)]
pub struct WsRef<'a> {
    pub name: &'a str,
    pub path: &'a str,
    pub info: &'a WorkspaceHeadInfo,
}

pub struct WsRefV {
    pub name: Seq<char>,
    pub path: Seq<char>,
    pub info: WorkspaceHeadInfoV,
}

impl<'a> DeepView for WsRef<'a> {
    type V = WsRefV;

    open spec fn deep_view(&self) -> WsRefV {
        WsRefV { name: self.name@, path: self.path@, info: self.info.deep_view() }
    }
}

// ---------------------------------------------------------------------------
// Helpers
// ---------------------------------------------------------------------------

#[verifier::opaque]
pub open spec fn forget_workspace_spec(
    t: Trace,
    repo: Seq<char>,
    ws_path: Seq<char>,
    ws_name: Seq<char>,
) -> Out<()> {
    bind(
        is_workspace_stale_spec(t, ws_path),
        |stale: bool, t: Trace|
            bind(
                if stale {
                    bind(
                        attempt_spec(update_workspace_stale_spec(t, ws_path)),
                        |r: Result<Seq<char>, FailureV>, t: Trace| Out::Got((), t),
                    )
                } else {
                    Out::Got((), t)
                },
                |u: (), t: Trace|
                    context_spec(
                        workspace_forget_spec(t, repo, ws_path, ws_name),
                        "forget failed (jj undo to recover)"@,
                    ),
            ),
    )
}

/// Forgets a workspace, after its working copy is brought up to date and captured.
pub fn forget_workspace(
    tape: &mut Tape,
    repo: &str,
    ws_path: &str,
    ws_name: &str,
) -> (r: Result<(), Stop>)
    ensures
        agrees(r, final(tape)@, forget_workspace_spec(old(tape)@, repo@, ws_path@, ws_name@)),
{
    reveal(forget_workspace_spec);
    if is_workspace_stale(tape, ws_path)? {
        let _ = attempt(update_workspace_stale(tape, ws_path))?;
    }
    context(workspace_forget(tape, repo, ws_path, ws_name), "forget failed (jj undo to recover)")
}

/// The first four bytes of an id.
pub open spec fn short_spec(id: Seq<char>) -> Seq<char> {
    head_bytes(id, 4)
}

fn short(id: &str) -> (r: String)
    ensures
        r@ == short_spec(id@),
{
    take_bytes(id, 4)
}

/// `name1@id1 + name2@id2`, ids shortened.
pub open spec fn merge_detail_spec(
    name1: Seq<char>,
    id1: Seq<char>,
    name2: Seq<char>,
    id2: Seq<char>,
) -> Seq<char> {
    name1 + "@"@ + short_spec(id1) + " + "@ + name2 + "@"@ + short_spec(id2)
}

fn merge_detail(name1: &str, id1: &str, name2: &str, id2: &str) -> (r: String)
    ensures
        r@ == merge_detail_spec(name1@, id1@, name2@, id2@),
{
    cat7(name1, "@", &short(id1), " + ", name2, "@", &short(id2))
}

/// The part of a squash message for revision `i` of `n`.
pub open spec fn squash_part(i: nat, n: nat, id: Seq<char>, desc: Seq<char>) -> Seq<char> {
    "\n\n### (ji::squash) revision "@ + dec_spec(i) + " of "@ + dec_spec(n) + " ("@ + id
        + ") ###\n\n"@ + desc
}

/// `base` followed by the parts for `descs`, of `n` in all.
pub open spec fn squash_msg_spec(base: Seq<char>, descs: Pairs, n: nat) -> Seq<char>
    decreases descs.len(),
{
    if descs.len() == 0 {
        base
    } else {
        squash_msg_spec(base, descs.drop_last(), n) + squash_part(
            descs.len(),
            n,
            descs.last().0,
            descs.last().1,
        )
    }
}

fn squash_msg(base: String, descs: &Vec<(String, String)>) -> (r: String)
    ensures
        r@ == squash_msg_spec(base@, descs.deep_view().reverse(), descs@.len()),
{
    let ghost all = descs.deep_view().reverse();
    let n = descs.len();
    let ghost b = base@;
    let mut msg = base;
    assert(all.take(0) =~= Pairs::empty());
    for i in 0..n
        invariant
            n == descs@.len(),
            all == descs.deep_view().reverse(),
            msg@ == squash_msg_spec(b, all.take(i as int), n as nat),
    {
        assert(all.take(i + 1).drop_last() =~= all.take(i as int));
        let (id, desc) = &descs[n - 1 - i];
        assert(all.take(i + 1).last() == (id@, desc@));
        let head = cat5(
            "\n\n### (ji::squash) revision ",
            &dec_usize(i + 1),
            " of ",
            &dec_usize(n),
            " (",
        );
        let tail = cat3(id, ") ###\n\n", desc);
        let ghost before = msg@;
        let part = cat2(&head, &tail);
        assert(part@ =~= squash_part((i + 1) as nat, n as nat, id@, desc@));
        msg = cat2(&msg, &part);
    }
    assert(all.take(n as int) =~= all);
    msg
}

/// Squashes the chain of a workspace into its root; the change id of the root comes back.
#[verifier::opaque]
pub open spec fn squash_chain_spec(
    t: Trace,
    repo: Seq<char>,
    src_name: Seq<char>,
    src_eff: Seq<char>,
    tgt_name: Seq<char>,
    tgt_eff: Seq<char>,
    lca: Seq<char>,
) -> Out<Seq<char>> {
    let chain = lca + ".."@ + src_eff;
    bind(
        context_spec(
            resolve_change_id_spec(t, repo, "latest(roots("@ + lca + ".."@ + src_eff + "))"@),
            "resolve squash target"@,
        ),
        |target: Seq<char>, t: Trace|
            bind(
                context_spec(
                    revision_descriptions_spec(t, repo, chain),
                    "fetch revision descriptions"@,
                ),
                |descs: Pairs, t: Trace|
                    bind(
                        context_spec(
                            squash_into_spec(
                                t,
                                repo,
                                chain,
                                target,
                                squash_msg_spec(
                                    make_desc_spec(
                                        Op::Squash,
                                        Some(merge_detail_spec(src_name, src_eff, tgt_name, tgt_eff)),
                                    ),
                                    descs.reverse(),
                                    descs.len(),
                                ),
                            ),
                            "squash failed (jj undo to recover)"@,
                        ),
                        |s: Seq<char>, t: Trace| Out::Got(target, t),
                    ),
            ),
    )
}

fn squash_chain(
    tape: &mut Tape,
    repo: &str,
    src_name: &str,
    src_eff: &str,
    tgt_name: &str,
    tgt_eff: &str,
    lca: &str,
) -> (r: Result<String, Stop>)
    ensures
        agrees(
            r,
            final(tape)@,
            squash_chain_spec(old(tape)@, repo@, src_name@, src_eff@, tgt_name@, tgt_eff@, lca@),
        ),
{
    reveal(squash_chain_spec);
    let chain = cat3(lca, "..", src_eff);
    let roots = cat5("latest(roots(", lca, "..", src_eff, "))");
    let target = context(resolve_change_id(tape, repo, &roots), "resolve squash target")?;
    let descs = context(
        revision_descriptions(tape, repo, &chain),
        "fetch revision descriptions",
    )?;
    assert(descs.deep_view().len() == descs@.len());
    let detail = merge_detail(src_name, src_eff, tgt_name, tgt_eff);
    let msg = squash_msg(make_desc(Op::Squash, Some(&detail)), &descs);
    let _ = context(
        squash_into(tape, repo, &chain, &target, &msg),
        "squash failed (jj undo to recover)",
    )?;
    Ok(target)
}

pub open spec fn opt_list(o: Option<Seq<char>>) -> Seq<Seq<char>> {
    match o {
        Some(s) => seq![s],
        None => Seq::empty(),
    }
}

fn opt_vec(o: &Option<String>) -> (r: Vec<String>)
    ensures
        r.deep_view() == opt_list(o.deep_view()),
{
    match o {
        Some(s) => args1(s),
        None => {
            let v: Vec<String> = Vec::new();
            assert(v.deep_view() =~= Seq::<Seq<char>>::empty());
            v
        },
    }
}

/// The trivial heads of `a` and `b`.
pub open spec fn trivial_pair(a: WorkspaceHeadInfoV, b: WorkspaceHeadInfoV) -> Seq<Seq<char>> {
    opt_list(a.trivial_id) + opt_list(b.trivial_id)
}

fn trivial_two(a: &WorkspaceHeadInfo, b: &WorkspaceHeadInfo) -> (r: Vec<String>)
    ensures
        r.deep_view() == trivial_pair(a.deep_view(), b.deep_view()),
{
    let mut v = opt_vec(&a.trivial_id);
    let mut w = opt_vec(&b.trivial_id);
    let ghost x = v.deep_view();
    let ghost y = w.deep_view();
    v.append(&mut w);
    assert(v.deep_view() =~= x + y);
    v
}

/// Abandons trivial heads; a failure becomes a warning.
#[verifier::opaque]
pub open spec fn find_abandon_trivial_heads_spec(
    t: Trace,
    repo: Seq<char>,
    ids: Seq<Seq<char>>,
) -> Out<Seq<Seq<char>>> {
    if ids.len() == 0 {
        Out::Got(Seq::empty(), t)
    } else {
        bind(
            attempt_spec(abandon_trivial_heads_spec(t, repo, ids)),
            |r: Result<(), FailureV>, t: Trace|
                Out::Got(
                    match r {
                        Ok(_) => Seq::empty(),
                        Err(e) => seq![render_spec(e)],
                    },
                    t,
                ),
        )
    }
}

fn find_abandon_trivial_heads(
    tape: &mut Tape,
    repo: &str,
    ids: &Vec<String>,
) -> (r: Result<Vec<String>, Stop>)
    ensures
        agrees(
            r,
            final(tape)@,
            find_abandon_trivial_heads_spec(old(tape)@, repo@, ids.deep_view()),
        ),
{
    reveal(find_abandon_trivial_heads_spec);
    let none: Vec<String> = Vec::new();
    assert(none.deep_view() =~= Seq::<Seq<char>>::empty());
    assert(ids.deep_view().len() == ids@.len());
    if ids.len() == 0 {
        return Ok(none);
    }
    match attempt(abandon_trivial_heads(tape, repo, ids))? {
        Ok(()) => Ok(none),
        Err(e) => Ok(args1(&e.render())),
    }
}

// ---------------------------------------------------------------------------
// Creation
// ---------------------------------------------------------------------------

/// The revision to branch from: a trivial head gives way to its parent, and a head with work lets
/// the source workspace step forward.
#[verifier::opaque]
pub open spec fn junction_spec(
    t: Trace,
    repo: Seq<char>,
    source_ws_path: Seq<char>,
    branch_rev: Seq<char>,
    author: Option<Seq<char>>,
) -> Out<Seq<char>> {
    bind(
        context_spec(is_head_spec(t, repo, branch_rev), "check if branch revision is a head"@),
        |head: bool, t: Trace|
            if !head {
                context_spec(
                    resolve_change_id_spec(t, repo, branch_rev),
                    "resolve branch revision"@,
                )
            } else {
                bind(
                    context_spec(
                        is_trivial_head_spec(t, repo, branch_rev),
                        "check if branch revision is trivial"@,
                    ),
                    |trivial: bool, t: Trace|
                        if trivial {
                            context_spec(
                                resolve_change_id_spec(t, repo, "("@ + branch_rev + ")-"@),
                                "resolve parent of trivial head"@,
                            )
                        } else {
                            bind(
                                context_spec(
                                    resolve_change_id_spec(t, repo, branch_rev),
                                    "resolve branch revision"@,
                                ),
                                |id: Seq<char>, t: Trace|
                                    bind(
                                        snapshot_ws_spec(t, source_ws_path),
                                        |u: (), t: Trace|
                                            bind(
                                                context_spec(
                                                    progress_workspace_spec(
                                                        t,
                                                        source_ws_path,
                                                        make_desc_spec(Op::Step, None),
                                                        author,
                                                    ),
                                                    "step source workspace forward"@,
                                                ),
                                                |u: (), t: Trace| Out::Got(id, t),
                                            ),
                                    ),
                            )
                        },
                )
            },
    )
}

fn junction(
    tape: &mut Tape,
    repo: &str,
    source_ws_path: &str,
    branch_rev: &str,
    author: Option<&str>,
) -> (r: Result<String, Stop>)
    ensures
        agrees(
            r,
            final(tape)@,
            junction_spec(old(tape)@, repo@, source_ws_path@, branch_rev@, author.deep_view()),
        ),
{
    reveal(junction_spec);
    if !context(is_head(tape, repo, branch_rev), "check if branch revision is a head")? {
        return context(resolve_change_id(tape, repo, branch_rev), "resolve branch revision");
    }
    if context(is_trivial_head(tape, repo, branch_rev), "check if branch revision is trivial")? {
        let parent = cat3("(", branch_rev, ")-");
        return context(resolve_change_id(tape, repo, &parent), "resolve parent of trivial head");
    }
    let id = context(resolve_change_id(tape, repo, branch_rev), "resolve branch revision")?;
    snapshot_ws(tape, source_ws_path)?;
    let msg = make_desc(Op::Step, None);
    context(
        progress_workspace(tape, source_ws_path, &msg, author),
        "step source workspace forward",
    )?;
    Ok(id)
}

#[verifier::opaque]
pub open spec fn create_workspace_spec(
    t: Trace,
    repo: Seq<char>,
    source_ws_path: Seq<char>,
    branch_rev: Seq<char>,
    new_ws_path: Seq<char>,
    msg: Seq<char>,
    author: Option<Seq<char>>,
) -> Out<()> {
    bind(
        junction_spec(t, repo, source_ws_path, branch_rev, author),
        |id: Seq<char>, t: Trace|
            context_spec(
                crate::revisions::create_workspace_spec(t, repo, new_ws_path, id, msg),
                "jj workspace add failed"@,
            ),
    )
}

/// A new workspace that branches from `branch_rev`.
pub fn create_workspace(
    tape: &mut Tape,
    repo: &str,
    source_ws_path: &str,
    branch_rev: &str,
    new_ws_path: &str,
    msg: &str,
    author: Option<&str>,
) -> (r: Result<(), Stop>)
    ensures
        agrees(
            r,
            final(tape)@,
            create_workspace_spec(
                old(tape)@,
                repo@,
                source_ws_path@,
                branch_rev@,
                new_ws_path@,
                msg@,
                author.deep_view(),
            ),
        ),
{
    reveal(create_workspace_spec);
    let id = junction(tape, repo, source_ws_path, branch_rev, author)?;
    context(
        crate::revisions::create_workspace(tape, repo, new_ws_path, &id, msg),
        "jj workspace add failed",
    )
}

// ---------------------------------------------------------------------------
// Sync
// ---------------------------------------------------------------------------

#[derive(Debug)]
pub enum SyncOutcome {
    AlreadyInSync,
    /// Done, with warnings from the cleanup.
    Done { warnings: Vec<String> },
}

pub enum SyncOutcomeV {
    AlreadyInSync,
    Done { warnings: Seq<Seq<char>> },
}

impl DeepView for SyncOutcome {
    type V = SyncOutcomeV;

    open spec fn deep_view(&self) -> SyncOutcomeV {
        match self {
            SyncOutcome::AlreadyInSync => SyncOutcomeV::AlreadyInSync,
            SyncOutcome::Done { warnings } => SyncOutcomeV::Done {
                warnings: warnings.deep_view(),
            },
        }
    }
}

/// The refusal to move a workspace off work that nobody described.
pub open spec fn undescribed_msg(ws_name: Seq<char>, id: Seq<char>) -> Seq<char> {
    "workspace "@ + ws_name + " has undescribed work in "@ + id
        + "; describe the revision first"@
}

/// Refuses to move a workspace off undescribed work; a trivial head is none.
#[verifier::opaque]
pub open spec fn guard_spec(t: Trace, repo: Seq<char>, ws: WsRefV) -> Out<()> {
    if ws.info.trivial_id is Some {
        Out::Got((), t)
    } else {
        bind(
            check_working_copy_safety_spec(t, repo, ws_head_spec(ws.name), ws.path),
            |s: RevisionSafetyV, t: Trace|
                match s {
                    RevisionSafetyV::Safe => Out::Got((), t),
                    RevisionSafetyV::AtRisk { change_id } => Out::Fail(
                        failure_spec(undescribed_msg(ws.name, change_id)),
                        t,
                    ),
                },
        )
    }
}

fn guard(tape: &mut Tape, repo: &str, ws: WsRef<'_>) -> (r: Result<(), Stop>)
    ensures
        agrees(r, final(tape)@, guard_spec(old(tape)@, repo@, ws.deep_view())),
{
    reveal(guard_spec);
    if ws.info.trivial_id.is_some() {
        return Ok(());
    }
    match check_working_copy_safety(tape, repo, &ws_head_revset(ws.name), ws.path)? {
        RevisionSafety::Safe => Ok(()),
        RevisionSafety::AtRisk { change_id } => {
            let msg = cat5(
                "workspace ",
                ws.name,
                " has undescribed work in ",
                &change_id,
                "; describe the revision first",
            );
            Err(Stop::Fail(failure(msg)))
        },
    }
}

#[verifier::opaque]
pub open spec fn fast_forward_spec(
    t: Trace,
    repo: Seq<char>,
    behind: WsRefV,
    ahead_name: Seq<char>,
    ahead_head: Seq<char>,
    author: Option<Seq<char>>,
) -> Out<Seq<Seq<char>>> {
    bind(
        context_spec(
            make_head_spec(
                t,
                repo,
                behind.name,
                behind.path,
                Some(ahead_head),
                Op::FastForward,
                Some(behind.name + "@ to "@ + ahead_name + "@"@ + ahead_head),
                author,
            ),
            "fast-forward failed (jj undo to recover)"@,
        ),
        |id: Seq<char>, t: Trace|
            find_abandon_trivial_heads_spec(t, repo, opt_list(behind.info.trivial_id)),
    )
}

/// Moves the workspace that is behind onto a new revision on `ahead_head`.
pub fn fast_forward(
    tape: &mut Tape,
    repo: &str,
    behind: WsRef<'_>,
    ahead_name: &str,
    ahead_head: &str,
    author: Option<&str>,
) -> (r: Result<Vec<String>, Stop>)
    ensures
        agrees(
            r,
            final(tape)@,
            fast_forward_spec(
                old(tape)@,
                repo@,
                behind.deep_view(),
                ahead_name@,
                ahead_head@,
                author.deep_view(),
            ),
        ),
{
    reveal(fast_forward_spec);
    let detail = cat5(behind.name, "@ to ", ahead_name, "@", ahead_head);
    let _ = context(
        make_head(
            tape,
            repo,
            behind.name,
            behind.path,
            Some(ahead_head),
            Op::FastForward,
            Some(&detail),
            author,
        ),
        "fast-forward failed (jj undo to recover)",
    )?;
    find_abandon_trivial_heads(tape, repo, &opt_vec(&behind.info.trivial_id))
}

/// Steps both workspaces forward from a merge that the source is on.
#[verifier::opaque]
pub open spec fn step_both_spec(
    t: Trace,
    src: WsRefV,
    tgt: WsRefV,
    merge_id: Seq<char>,
    author: Option<Seq<char>>,
) -> Out<()> {
    bind(
        context_spec(
            progress_workspace_spec(t, src.path, make_desc_spec(Op::Step, None), author),
            "step "@ + src.name,
        ),
        |u: (), t: Trace|
            context_spec(
                new_on_in_workspace_spec(
                    t,
                    tgt.path,
                    merge_id,
                    make_desc_spec(Op::Step, None),
                    author,
                ),
                "step "@ + tgt.name,
            ),
    )
}

fn step_both(
    tape: &mut Tape,
    src: WsRef<'_>,
    tgt: WsRef<'_>,
    merge_id: &str,
    author: Option<&str>,
) -> (r: Result<(), Stop>)
    ensures
        agrees(
            r,
            final(tape)@,
            step_both_spec(
                old(tape)@,
                src.deep_view(),
                tgt.deep_view(),
                merge_id@,
                author.deep_view(),
            ),
        ),
{
    reveal(step_both_spec);
    let msg = make_desc(Op::Step, None);
    context(progress_workspace(tape, src.path, &msg, author), &cat2("step ", src.name))?;
    context(
        new_on_in_workspace(tape, tgt.path, merge_id, &msg, author),
        &cat2("step ", tgt.name),
    )
}

#[verifier::opaque]
pub open spec fn merge_spec(
    t: Trace,
    repo: Seq<char>,
    src: WsRefV,
    tgt: WsRefV,
    author: Option<Seq<char>>,
) -> Out<Seq<Seq<char>>> {
    bind(
        snapshot_ws_spec(t, tgt.path),
        |u: (), t: Trace|
            bind(
                context_spec(
                    new_merge_spec(
                        t,
                        src.path,
                        seq![src.info.effective_head, tgt.info.effective_head],
                        make_desc_spec(
                            Op::Merge,
                            Some(
                                merge_detail_spec(
                                    src.name,
                                    src.info.effective_head,
                                    tgt.name,
                                    tgt.info.effective_head,
                                ),
                            ),
                        ),
                        author,
                    ),
                    "merge failed (jj undo to recover)"@,
                ),
                |id: Seq<char>, t: Trace|
                    bind(
                        step_both_spec(t, src, tgt, id, author),
                        |u: (), t: Trace|
                            find_abandon_trivial_heads_spec(t, repo, trivial_pair(src.info, tgt.info)),
                    ),
            ),
    )
}

/// Merges two workspaces at their effective heads.
pub fn merge(
    tape: &mut Tape,
    repo: &str,
    src: WsRef<'_>,
    tgt: WsRef<'_>,
    author: Option<&str>,
) -> (r: Result<Vec<String>, Stop>)
    ensures
        agrees(
            r,
            final(tape)@,
            merge_spec(old(tape)@, repo@, src.deep_view(), tgt.deep_view(), author.deep_view()),
        ),
{
    reveal(merge_spec);
    let src_eff = &src.info.effective_head;
    let tgt_eff = &tgt.info.effective_head;
    snapshot_ws(tape, tgt.path)?;
    let detail = merge_detail(src.name, src_eff, tgt.name, tgt_eff);
    let msg = make_desc(Op::Merge, Some(&detail));
    let id = context(
        new_merge(tape, src.path, &args2(src_eff, tgt_eff), &msg, author),
        "merge failed (jj undo to recover)",
    )?;
    step_both(tape, src, tgt, &id, author)?;
    find_abandon_trivial_heads(tape, repo, &trivial_two(src.info, tgt.info))
}

/// Fast-forwards the workspace that is behind, if that loses nothing, and gives the other one a
/// fresh head.
#[verifier::opaque]
pub open spec fn forward_spec(
    t: Trace,
    repo: Seq<char>,
    behind: WsRefV,
    ahead: WsRefV,
    author: Option<Seq<char>>,
) -> Out<Seq<Seq<char>>> {
    bind(
        guard_spec(t, repo, behind),
        |u: (), t: Trace|
            bind(
                fast_forward_spec(
                    t,
                    repo,
                    behind,
                    ahead.name,
                    ahead.info.effective_head,
                    author,
                ),
                |warnings: Seq<Seq<char>>, t: Trace|
                    bind(
                        attempt_spec(
                            step_head_spec(t, repo, ahead.name, ahead.path, None, author),
                        ),
                        |r: Result<Seq<char>, FailureV>, t: Trace| Out::Got(warnings, t),
                    ),
            ),
    )
}

fn forward(
    tape: &mut Tape,
    repo: &str,
    behind: WsRef<'_>,
    ahead: WsRef<'_>,
    author: Option<&str>,
) -> (r: Result<Vec<String>, Stop>)
    ensures
        agrees(
            r,
            final(tape)@,
            forward_spec(
                old(tape)@,
                repo@,
                behind.deep_view(),
                ahead.deep_view(),
                author.deep_view(),
            ),
        ),
{
    reveal(forward_spec);
    guard(tape, repo, behind)?;
    let warnings = fast_forward(
        tape,
        repo,
        behind,
        ahead.name,
        &ahead.info.effective_head,
        author,
    )?;
    let _ = attempt(step_head(tape, repo, ahead.name, ahead.path, None, author))?;
    Ok(warnings)
}

/// A sync that did something, with its warnings.
pub open spec fn done(m: Out<Seq<Seq<char>>>) -> Out<SyncOutcomeV> {
    bind(m, |warnings: Seq<Seq<char>>, t: Trace| Out::Got(SyncOutcomeV::Done { warnings }, t))
}

#[verifier::opaque]
pub open spec fn sync_spec(
    t: Trace,
    repo: Seq<char>,
    src: WsRefV,
    tgt: WsRefV,
    author: Option<Seq<char>>,
) -> Out<SyncOutcomeV> {
    bind(
        context_spec(
            last_common_ancestor_spec(t, repo, src.info.effective_head, tgt.info.effective_head),
            "failed to find common ancestor"@,
        ),
        |lca: Seq<char>, t: Trace|
            {
                let src_at = src.info.effective_head == lca;
                let tgt_at = tgt.info.effective_head == lca;
                if src_at && tgt_at {
                    Out::Got(SyncOutcomeV::AlreadyInSync, t)
                } else {
                    done(
                        if tgt_at {
                            forward_spec(t, repo, tgt, src, author)
                        } else if src_at {
                            forward_spec(t, repo, src, tgt, author)
                        } else {
                            merge_spec(t, repo, src, tgt, author)
                        },
                    )
                }
            },
    )
}

/// Makes two workspaces converge, by a fast-forward or a merge.
pub fn sync(
    tape: &mut Tape,
    repo: &str,
    src: WsRef<'_>,
    tgt: WsRef<'_>,
    author: Option<&str>,
) -> (r: Result<SyncOutcome, Stop>)
    ensures
        agrees(
            r,
            final(tape)@,
            sync_spec(old(tape)@, repo@, src.deep_view(), tgt.deep_view(), author.deep_view()),
        ),
{
    reveal(sync_spec);
    let lca = context(
        last_common_ancestor(tape, repo, &src.info.effective_head, &tgt.info.effective_head),
        "failed to find common ancestor",
    )?;
    let src_at = same(&src.info.effective_head, &lca);
    let tgt_at = same(&tgt.info.effective_head, &lca);
    if src_at && tgt_at {
        return Ok(SyncOutcome::AlreadyInSync);
    }
    let warnings = if tgt_at {
        forward(tape, repo, tgt, src, author)?
    } else if src_at {
        forward(tape, repo, src, tgt, author)?
    } else {
        merge(tape, repo, src, tgt, author)?
    };
    Ok(SyncOutcome::Done { warnings })
}

// ---------------------------------------------------------------------------
// Close
// ---------------------------------------------------------------------------

#[verifier::opaque]
pub open spec fn merge_close_spec(
    t: Trace,
    repo: Seq<char>,
    src: WsRefV,
    tgt: WsRefV,
    author: Option<Seq<char>>,
) -> Out<Seq<Seq<char>>> {
    bind(
        forget_workspace_spec(t, repo, src.path, src.name),
        |u: (), t: Trace|
            bind(
                context_spec(
                    new_merge_spec(
                        t,
                        tgt.path,
                        seq![src.info.effective_head, tgt.info.effective_head],
                        make_desc_spec(
                            Op::Merge,
                            Some(
                                merge_detail_spec(
                                    src.name,
                                    src.info.effective_head,
                                    tgt.name,
                                    tgt.info.effective_head,
                                ),
                            ),
                        ),
                        author,
                    ),
                    "merge failed (jj undo to recover)"@,
                ),
                |id: Seq<char>, t: Trace|
                    find_abandon_trivial_heads_spec(t, repo, trivial_pair(src.info, tgt.info)),
            ),
    )
}

/// Forgets the source and merges it into the target.
pub fn merge_close(
    tape: &mut Tape,
    repo: &str,
    src: WsRef<'_>,
    tgt: WsRef<'_>,
    author: Option<&str>,
) -> (r: Result<Vec<String>, Stop>)
    ensures
        agrees(
            r,
            final(tape)@,
            merge_close_spec(
                old(tape)@,
                repo@,
                src.deep_view(),
                tgt.deep_view(),
                author.deep_view(),
            ),
        ),
{
    reveal(merge_close_spec);
    let src_eff = &src.info.effective_head;
    let tgt_eff = &tgt.info.effective_head;
    forget_workspace(tape, repo, src.path, src.name)?;
    let detail = merge_detail(src.name, src_eff, tgt.name, tgt_eff);
    let msg = make_desc(Op::Merge, Some(&detail));
    let _ = context(
        new_merge(tape, tgt.path, &args2(src_eff, tgt_eff), &msg, author),
        "merge failed (jj undo to recover)",
    )?;
    find_abandon_trivial_heads(tape, repo, &trivial_two(src.info, tgt.info))
}

#[verifier::opaque]
pub open spec fn merge_squash_close_spec(
    t: Trace,
    repo: Seq<char>,
    src: WsRefV,
    tgt: WsRefV,
    lca: Seq<char>,
    author: Option<Seq<char>>,
) -> Out<Seq<Seq<char>>> {
    bind(
        forget_workspace_spec(t, repo, src.path, src.name),
        |u: (), t: Trace|
            bind(
                squash_chain_spec(
                    t,
                    repo,
                    src.name,
                    src.info.effective_head,
                    tgt.name,
                    tgt.info.effective_head,
                    lca,
                ),
                |root: Seq<char>, t: Trace|
                    bind(
                        context_spec(
                            new_merge_spec(
                                t,
                                tgt.path,
                                seq![root, tgt.info.effective_head],
                                make_desc_spec(
                                    Op::Merge,
                                    Some(
                                        merge_detail_spec(
                                            src.name,
                                            root,
                                            tgt.name,
                                            tgt.info.effective_head,
                                        ),
                                    ),
                                ),
                                author,
                            ),
                            "merge failed (jj undo to recover)"@,
                        ),
                        |id: Seq<char>, t: Trace|
                            find_abandon_trivial_heads_spec(
                                t,
                                repo,
                                trivial_pair(src.info, tgt.info),
                            ),
                    ),
            ),
    )
}

/// Forgets the source, squashes its chain and merges it into the target.
pub fn merge_squash_close(
    tape: &mut Tape,
    repo: &str,
    src: WsRef<'_>,
    tgt: WsRef<'_>,
    lca: &str,
    author: Option<&str>,
) -> (r: Result<Vec<String>, Stop>)
    ensures
        agrees(
            r,
            final(tape)@,
            merge_squash_close_spec(
                old(tape)@,
                repo@,
                src.deep_view(),
                tgt.deep_view(),
                lca@,
                author.deep_view(),
            ),
        ),
{
    reveal(merge_squash_close_spec);
    let src_eff = &src.info.effective_head;
    let tgt_eff = &tgt.info.effective_head;
    forget_workspace(tape, repo, src.path, src.name)?;
    let root = squash_chain(tape, repo, src.name, src_eff, tgt.name, tgt_eff, lca)?;
    let detail = merge_detail(src.name, &root, tgt.name, tgt_eff);
    let msg = make_desc(Op::Merge, Some(&detail));
    let _ = context(
        new_merge(tape, tgt.path, &args2(&root, tgt_eff), &msg, author),
        "merge failed (jj undo to recover)",
    )?;
    find_abandon_trivial_heads(tape, repo, &trivial_two(src.info, tgt.info))
}

#[verifier::opaque]
pub open spec fn fast_forward_close_spec(
    t: Trace,
    repo: Seq<char>,
    src: WsRefV,
    tgt_path: Seq<char>,
    tgt_info: WorkspaceHeadInfoV,
) -> Out<Seq<Seq<char>>> {
    bind(
        forget_workspace_spec(t, repo, src.path, src.name),
        |u: (), t: Trace|
            bind(
                context_spec(
                    edit_workspace_head_spec(t, tgt_path, src.info.effective_head),
                    "fast-forward failed (jj undo to recover)"@,
                ),
                |u: (), t: Trace|
                    find_abandon_trivial_heads_spec(t, repo, opt_list(tgt_info.trivial_id)),
            ),
    )
}

/// Forgets the source and moves the target onto its effective head.
pub fn fast_forward_close(
    tape: &mut Tape,
    repo: &str,
    src: WsRef<'_>,
    tgt_path: &str,
    tgt_info: &WorkspaceHeadInfo,
) -> (r: Result<Vec<String>, Stop>)
    ensures
        agrees(
            r,
            final(tape)@,
            fast_forward_close_spec(
                old(tape)@,
                repo@,
                src.deep_view(),
                tgt_path@,
                tgt_info.deep_view(),
            ),
        ),
{
    reveal(fast_forward_close_spec);
    forget_workspace(tape, repo, src.path, src.name)?;
    context(
        edit_workspace_head(tape, tgt_path, &src.info.effective_head),
        "fast-forward failed (jj undo to recover)",
    )?;
    find_abandon_trivial_heads(tape, repo, &opt_vec(&tgt_info.trivial_id))
}

// ---------------------------------------------------------------------------
// Transfer
// ---------------------------------------------------------------------------

#[verifier::opaque]
pub open spec fn rebase_spec(
    t: Trace,
    repo: Seq<char>,
    src_info: WorkspaceHeadInfoV,
    tgt: WsRefV,
    lca: Seq<char>,
    author: Option<Seq<char>>,
) -> Out<()> {
    bind(
        context_spec(
            rebase_source_spec(
                t,
                repo,
                "roots("@ + lca + ".."@ + src_info.effective_head + ")"@,
                tgt.info.effective_head,
            ),
            "rebase failed (jj undo to recover)"@,
        ),
        |s: Seq<char>, t: Trace|
            bind(
                step_head_spec(t, repo, tgt.name, tgt.path, None, author),
                |id: Seq<char>, t: Trace| Out::Got((), t),
            ),
    )
}

/// Rebases the chain of the source onto the effective head of the target.
pub fn rebase(
    tape: &mut Tape,
    repo: &str,
    src_info: &WorkspaceHeadInfo,
    tgt: WsRef<'_>,
    lca: &str,
    author: Option<&str>,
) -> (r: Result<(), Stop>)
    ensures
        agrees(
            r,
            final(tape)@,
            rebase_spec(
                old(tape)@,
                repo@,
                src_info.deep_view(),
                tgt.deep_view(),
                lca@,
                author.deep_view(),
            ),
        ),
{
    reveal(rebase_spec);
    let roots = cat5("roots(", lca, "..", &src_info.effective_head, ")");
    let _ = context(
        rebase_source(tape, repo, &roots, &tgt.info.effective_head),
        "rebase failed (jj undo to recover)",
    )?;
    let _ = step_head(tape, repo, tgt.name, tgt.path, None, author)?;
    Ok(())
}

#[verifier::opaque]
pub open spec fn merge_squash_spec(
    t: Trace,
    repo: Seq<char>,
    src: WsRefV,
    tgt: WsRefV,
    lca: Seq<char>,
    author: Option<Seq<char>>,
) -> Out<Seq<Seq<char>>> {
    bind(
        snapshot_ws_spec(t, tgt.path),
        |u: (), t: Trace|
            bind(
                squash_chain_spec(
                    t,
                    repo,
                    src.name,
                    src.info.effective_head,
                    tgt.name,
                    tgt.info.effective_head,
                    lca,
                ),
                |root: Seq<char>, t: Trace|
                    bind(
                        context_spec(
                            new_merge_spec(
                                t,
                                src.path,
                                seq![root, tgt.info.effective_head],
                                make_desc_spec(
                                    Op::Merge,
                                    Some(
                                        merge_detail_spec(
                                            src.name,
                                            root,
                                            tgt.name,
                                            tgt.info.effective_head,
                                        ),
                                    ),
                                ),
                                author,
                            ),
                            "merge failed (jj undo to recover)"@,
                        ),
                        |id: Seq<char>, t: Trace|
                            bind(
                                step_both_spec(t, src, tgt, id, author),
                                |u: (), t: Trace|
                                    find_abandon_trivial_heads_spec(
                                        t,
                                        repo,
                                        trivial_pair(src.info, tgt.info),
                                    ),
                            ),
                    ),
            ),
    )
}

/// Squashes the chain of the source and merges it with the target.
pub fn merge_squash(
    tape: &mut Tape,
    repo: &str,
    src: WsRef<'_>,
    tgt: WsRef<'_>,
    lca: &str,
    author: Option<&str>,
) -> (r: Result<Vec<String>, Stop>)
    ensures
        agrees(
            r,
            final(tape)@,
            merge_squash_spec(
                old(tape)@,
                repo@,
                src.deep_view(),
                tgt.deep_view(),
                lca@,
                author.deep_view(),
            ),
        ),
{
    reveal(merge_squash_spec);
    let src_eff = &src.info.effective_head;
    let tgt_eff = &tgt.info.effective_head;
    snapshot_ws(tape, tgt.path)?;
    let root = squash_chain(tape, repo, src.name, src_eff, tgt.name, tgt_eff, lca)?;
    let detail = merge_detail(src.name, &root, tgt.name, tgt_eff);
    let msg = make_desc(Op::Merge, Some(&detail));
    let id = context(
        new_merge(tape, src.path, &args2(&root, tgt_eff), &msg, author),
        "merge failed (jj undo to recover)",
    )?;
    step_both(tape, src, tgt, &id, author)?;
    find_abandon_trivial_heads(tape, repo, &trivial_two(src.info, tgt.info))
}

#[verifier::opaque]
pub open spec fn merge_abandon_parents_old_spec(
    t: Trace,
    repo: Seq<char>,
    src: WsRefV,
    tgt: WsRefV,
    author: Option<Seq<char>>,
) -> Out<Seq<Seq<char>>> {
    let step = make_desc_spec(Op::Step, None);
    bind(
        snapshot_ws_spec(t, tgt.path),
        |u: (), t: Trace|
            bind(
                context_spec(
                    new_merge_spec(
                        t,
                        src.path,
                        seq![src.info.actual_head, tgt.info.actual_head],
                        make_desc_spec(
                            Op::Merge,
                            Some(
                                tgt.name + "@"@ + tgt.info.effective_head + " into "@ + src.name
                                    + "@"@ + src.info.effective_head,
                            ),
                        ),
                        author,
                    ),
                    "merge failed (jj undo to recover)"@,
                ),
                |id: Seq<char>, t: Trace|
                    bind(
                        context_spec(
                            new_on_in_workspace_spec(t, src.path, id, step, author),
                            "step "@ + src.name,
                        ),
                        |u: (), t: Trace|
                            bind(
                                context_spec(
                                    new_on_in_workspace_spec(t, tgt.path, id, step, author),
                                    "step "@ + tgt.name,
                                ),
                                |u: (), t: Trace|
                                    find_abandon_trivial_heads_spec(
                                        t,
                                        repo,
                                        trivial_pair(src.info, tgt.info),
                                    ),
                            ),
                    ),
            ),
    )
}

/// Merges two workspaces at their working-copy commits.
pub fn merge_abandon_parents_old(
    tape: &mut Tape,
    repo: &str,
    src: WsRef<'_>,
    tgt: WsRef<'_>,
    author: Option<&str>,
) -> (r: Result<Vec<String>, Stop>)
    ensures
        agrees(
            r,
            final(tape)@,
            merge_abandon_parents_old_spec(
                old(tape)@,
                repo@,
                src.deep_view(),
                tgt.deep_view(),
                author.deep_view(),
            ),
        ),
{
    reveal(merge_abandon_parents_old_spec);
    snapshot_ws(tape, tgt.path)?;
    let detail = cat7(
        tgt.name,
        "@",
        &tgt.info.effective_head,
        " into ",
        src.name,
        "@",
        &src.info.effective_head,
    );
    let msg = make_desc(Op::Merge, Some(&detail));
    let id = context(
        new_merge(
            tape,
            src.path,
            &args2(&src.info.actual_head, &tgt.info.actual_head),
            &msg,
            author,
        ),
        "merge failed (jj undo to recover)",
    )?;
    let step = make_desc(Op::Step, None);
    context(
        new_on_in_workspace(tape, src.path, &id, &step, author),
        &cat2("step ", src.name),
    )?;
    context(
        new_on_in_workspace(tape, tgt.path, &id, &step, author),
        &cat2("step ", tgt.name),
    )?;
    find_abandon_trivial_heads(tape, repo, &trivial_two(src.info, tgt.info))
}

// ---------------------------------------------------------------------------
// Laws
// ---------------------------------------------------------------------------

/// A sync fast-forwards the workspace that is at the last common ancestor to the other one, merges
/// if neither is there, and does nothing if both are.
pub proof fn law_sync_fits_the_state(
    t: Trace,
    repo: Seq<char>,
    src: WsRefV,
    tgt: WsRefV,
    author: Option<Seq<char>>,
    lca: Seq<char>,
    u: Trace,
)
    requires
        last_common_ancestor_spec(t, repo, src.info.effective_head, tgt.info.effective_head)
            == Out::Got(lca, u),
    ensures
        ({
            let src_at = src.info.effective_head == lca;
            let tgt_at = tgt.info.effective_head == lca;
            let r = sync_spec(t, repo, src, tgt, author);
            &&& src_at && tgt_at ==> r == Out::Got(SyncOutcomeV::AlreadyInSync, u)
            &&& !src_at && tgt_at ==> r == done(forward_spec(u, repo, tgt, src, author))
            &&& src_at && !tgt_at ==> r == done(forward_spec(u, repo, src, tgt, author))
            &&& !src_at && !tgt_at ==> r == done(merge_spec(u, repo, src, tgt, author))
        }),
{
    reveal(sync_spec);
}

} // verus!
