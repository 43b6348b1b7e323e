//! The plan of a command: how two workspaces stand, and whether that is still so.

use vstd::prelude::*;

use crate::commands::types::{
    from_heads_spec, same_mode, Operation, SyncMode, SyncModeInfo, SyncModeInfoV, SyncModeV,
};
use crate::jj_parse::or_empty;
use crate::jj_utils::{
    resolve_workspace_head_info, resolve_workspace_head_info_spec, WorkspaceHeadInfo,
    WorkspaceHeadInfoV,
};
use crate::jujutsu::{
    current_op_head, current_op_head_spec, op_heads_dir, snapshot_ws, snapshot_ws_spec,
};
use crate::replay::{group_rest, left, lemma_rest, replays_detect_sync_mode, replays_op_head_now};
use crate::revisions::{last_common_ancestor, last_common_ancestor_spec};
use crate::tape::{
    agrees, at, at_spec, attempt, attempt_spec, bind, context, context_spec, each, failure,
    failure_spec, holds, holds_spec, lemma_each_step, render_spec, Act, Failure, FailureV, Out,
    Stop, Tape, Trace,
};
use crate::text::{cat2, cat3, cat5, empty, same, same_all, same_opt};
use crate::text_map::Pairs;

verus! {

// ---------------------------------------------------------------------------
// Detection
// ---------------------------------------------------------------------------

/// The operation head, empty when it cannot be read.
#[verifier::opaque]
pub open spec fn op_head_now_spec(t: Trace, repo: Seq<char>) -> Out<Seq<char>> {
    bind(
        current_op_head_spec(t, repo),
        |h: Option<Seq<char>>, t: Trace| Out::Got(or_empty(h), t),
    )
}

pub fn op_head_now(tape: &mut Tape, repo: &str) -> (r: Result<String, Stop>)
    ensures
        agrees(r, final(tape)@, op_head_now_spec(old(tape)@, repo@)),
{
    reveal(op_head_now_spec);
    match current_op_head(tape, repo)? {
        Some(h) => Ok(h),
        None => {
            let s = String::new();
            assert(s@ =~= Seq::<char>::empty());
            Ok(s)
        },
    }
}

/// Head data of which only an error and the operation head are known.
pub open spec fn error_info(msg: Seq<char>, op_head: Seq<char>) -> SyncModeInfoV {
    SyncModeInfoV {
        mode: SyncModeV::Error(msg),
        src_effective_head: Seq::empty(),
        tgt_effective_head: Seq::empty(),
        src_actual_head: Seq::empty(),
        tgt_actual_head: Seq::empty(),
        src_trivial_id: None,
        tgt_trivial_id: None,
        src_trivial_ids: Seq::empty(),
        tgt_trivial_ids: Seq::empty(),
        lca: Seq::empty(),
        op_head,
    }
}

fn failed_info(msg: String, op_head: String) -> (r: SyncModeInfo)
    ensures
        r.deep_view() == error_info(msg@, op_head@),
{
    let r = SyncModeInfo {
        mode: SyncMode::Error(msg),
        src_effective_head: String::new(),
        tgt_effective_head: String::new(),
        src_actual_head: String::new(),
        tgt_actual_head: String::new(),
        src_trivial_id: None,
        tgt_trivial_id: None,
        src_trivial_ids: Vec::new(),
        tgt_trivial_ids: Vec::new(),
        lca: String::new(),
        op_head,
    };
    let ghost v = r.deep_view();
    assert(v.src_effective_head =~= Seq::<char>::empty());
    assert(v.tgt_effective_head =~= Seq::<char>::empty());
    assert(v.src_actual_head =~= Seq::<char>::empty());
    assert(v.tgt_actual_head =~= Seq::<char>::empty());
    assert(v.lca =~= Seq::<char>::empty());
    assert(v.src_trivial_ids =~= Seq::<Seq<char>>::empty());
    assert(v.tgt_trivial_ids =~= Seq::<Seq<char>>::empty());
    r
}

/// Head data of two workspaces with a last common ancestor.
pub open spec fn pair_info(
    src: WorkspaceHeadInfoV,
    tgt: WorkspaceHeadInfoV,
    lca: Seq<char>,
    op_head: Seq<char>,
) -> SyncModeInfoV {
    SyncModeInfoV {
        mode: from_heads_spec(src.effective_head == lca, tgt.effective_head == lca),
        src_effective_head: src.effective_head,
        tgt_effective_head: tgt.effective_head,
        src_actual_head: src.actual_head,
        tgt_actual_head: tgt.actual_head,
        src_trivial_id: src.trivial_id,
        tgt_trivial_id: tgt.trivial_id,
        src_trivial_ids: src.trivial_ids,
        tgt_trivial_ids: tgt.trivial_ids,
        lca,
        op_head,
    }
}

/// The heads of a workspace, or what to say when there are none.
pub open spec fn heads_or_msg(
    name: Seq<char>,
    r: Result<WorkspaceHeadInfoV, FailureV>,
) -> Result<WorkspaceHeadInfoV, Seq<char>> {
    match r {
        Ok(i) => if i.effective_head.len() == 0 {
            Err("empty head for "@ + name)
        } else {
            Ok(i)
        },
        Err(e) => Err(name + ": "@ + render_spec(e)),
    }
}

fn heads_or(name: &str, r: Result<WorkspaceHeadInfo, Failure>) -> (x: Result<
    WorkspaceHeadInfo,
    String,
>)
    ensures
        heads_or_msg(
            name@,
            match r {
                Ok(i) => Ok(i.deep_view()),
                Err(e) => Err(e.deep_view()),
            },
        ) == (match x {
            Ok(i) => Ok::<WorkspaceHeadInfoV, Seq<char>>(i.deep_view()),
            Err(m) => Err(m@),
        }),
{
    match r {
        Ok(i) => if empty(&i.effective_head) {
            Err(cat2("empty head for ", name))
        } else {
            Ok(i)
        },
        Err(e) => Err(cat3(name, ": ", &e.render())),
    }
}

#[verifier::opaque]
pub open spec fn detect_sync_mode_spec(
    t: Trace,
    repo: Seq<char>,
    src_name: Seq<char>,
    tgt_name: Seq<char>,
) -> Out<SyncModeInfoV> {
    bind(
        op_head_now_spec(t, repo),
        |op: Seq<char>, t: Trace|
            bind(
                attempt_spec(resolve_workspace_head_info_spec(t, repo, src_name)),
                |a: Result<WorkspaceHeadInfoV, FailureV>, t: Trace|
                    match heads_or_msg(src_name, a) {
                        Err(m) => Out::Got(error_info(m, op), t),
                        Ok(src) => bind(
                            attempt_spec(resolve_workspace_head_info_spec(t, repo, tgt_name)),
                            |b: Result<WorkspaceHeadInfoV, FailureV>, t: Trace|
                                match heads_or_msg(tgt_name, b) {
                                    Err(m) => Out::Got(error_info(m, op), t),
                                    Ok(tgt) => bind(
                                        attempt_spec(
                                            last_common_ancestor_spec(
                                                t,
                                                repo,
                                                src.effective_head,
                                                tgt.effective_head,
                                            ),
                                        ),
                                        |l: Result<Seq<char>, FailureV>, t: Trace|
                                            Out::Got(
                                                match l {
                                                    Ok(lca) => if lca.len() == 0 {
                                                        error_info("no common ancestor"@, op)
                                                    } else {
                                                        pair_info(src, tgt, lca, op)
                                                    },
                                                    Err(e) => error_info("lca: "@ + render_spec(e), op),
                                                },
                                                t,
                                            ),
                                    ),
                                },
                        ),
                    },
            ),
    )
}

/// How two workspaces stand to each other. The operation head is read first, so that it is never
/// newer than the data.
pub fn detect_sync_mode(
    tape: &mut Tape,
    repo: &str,
    src_name: &str,
    tgt_name: &str,
) -> (r: Result<SyncModeInfo, Stop>)
    ensures
        agrees(r, final(tape)@, detect_sync_mode_spec(old(tape)@, repo@, src_name@, tgt_name@)),
{
    reveal(detect_sync_mode_spec);
    let op = op_head_now(tape, repo)?;
    let a = attempt(resolve_workspace_head_info(tape, repo, src_name))?;
    let src = match heads_or(src_name, a) {
        Ok(i) => i,
        Err(m) => {
            return Ok(failed_info(m, op));
        },
    };
    let b = attempt(resolve_workspace_head_info(tape, repo, tgt_name))?;
    let tgt = match heads_or(tgt_name, b) {
        Ok(i) => i,
        Err(m) => {
            return Ok(failed_info(m, op));
        },
    };
    match attempt(last_common_ancestor(tape, repo, &src.effective_head, &tgt.effective_head))? {
        Err(e) => Ok(failed_info(cat2("lca: ", &e.render()), op)),
        Ok(lca) => {
            if empty(&lca) {
                return Ok(failed_info("no common ancestor".to_string(), op));
            }
            let mode = SyncMode::from_heads(
                same(&src.effective_head, &lca),
                same(&tgt.effective_head, &lca),
            );
            Ok(
                SyncModeInfo {
                    mode,
                    src_effective_head: src.effective_head,
                    tgt_effective_head: tgt.effective_head,
                    src_actual_head: src.actual_head,
                    tgt_actual_head: tgt.actual_head,
                    src_trivial_id: src.trivial_id,
                    tgt_trivial_id: tgt.trivial_id,
                    src_trivial_ids: src.trivial_ids,
                    tgt_trivial_ids: tgt.trivial_ids,
                    lca,
                    op_head: op,
                },
            )
        },
    }
}

// ---------------------------------------------------------------------------
// Freshness
// ---------------------------------------------------------------------------

/// Captures the pending edits of one workspace that the plan needs.
pub open spec fn required_step() -> spec_fn(Trace, (), (Seq<char>, Seq<char>)) -> Out<()> {
    |t: Trace, u: (), w: (Seq<char>, Seq<char>)| required_spec(t, w.0, w.1)
}

#[verifier::opaque]
pub open spec fn required_spec(t: Trace, name: Seq<char>, path: Seq<char>) -> Out<()> {
    bind(
        if path.len() == 0 {
            Out::Got(false, t)
        } else {
            holds_spec(t, at_spec(Act::Exists, path))
        },
        |there: bool, t: Trace|
            if there {
                context_spec(snapshot_ws_spec(t, path), "snapshotting workspace "@ + name)
            } else {
                Out::Fail(
                    failure_spec(
                        "workspace "@ + name + " has no usable working-copy directory ("@ + path
                            + "); cannot snapshot pending edits"@,
                    ),
                    t,
                )
            },
    )
}

fn required(tape: &mut Tape, name: &str, path: &str) -> (r: Result<(), Stop>)
    ensures
        agrees(r, final(tape)@, required_spec(old(tape)@, name@, path@)),
{
    reveal(required_spec);
    let there = if empty(path) {
        false
    } else {
        holds(tape, at(Act::Exists, path))?
    };
    if !there {
        let msg = cat5(
            "workspace ",
            name,
            " has no usable working-copy directory (",
            path,
            "); cannot snapshot pending edits",
        );
        return Err(Stop::Fail(failure(msg)));
    }
    context(snapshot_ws(tape, path), &cat2("snapshotting workspace ", name))
}

#[verifier::opaque]
pub open spec fn snapshot_workspaces_spec(t: Trace, pairs: Pairs) -> Out<()> {
    each(t, pairs, (), required_step())
}

/// Captures the pending edits of the workspaces that a plan needs; one without a directory is an
/// error.
pub fn snapshot_workspaces(tape: &mut Tape, pairs: &[(&str, &str)]) -> (r: Result<(), Stop>)
    ensures
        agrees(r, final(tape)@, snapshot_workspaces_spec(old(tape)@, pairs.deep_view())),
{
    reveal(snapshot_workspaces_spec);
    let ghost t0 = tape@;
    let ghost all = pairs.deep_view();
    let ghost step = required_step();
    assert(all.skip(0) =~= all);
    for i in 0..pairs.len()
        invariant
            t0 == old(tape)@,
            all == pairs.deep_view(),
            step == required_step(),
            snapshot_workspaces_spec(t0, all) == each(t0, all, (), step),
            each(t0, all, (), step) == each(tape@, all.skip(i as int), (), step),
    {
        proof {
            lemma_each_step(all, i as int);
        }
        assert(all[i as int] == (pairs@[i as int].0@, pairs@[i as int].1@));
        let (name, path) = pairs[i];
        required(tape, name, path)?;
    }
    Ok(())
}

/// Do two plans agree in all but the operation head?
pub open spec fn plan_same(a: SyncModeInfoV, b: SyncModeInfoV) -> bool {
    &&& same_mode(a.mode, b.mode)
    &&& a.src_effective_head == b.src_effective_head
    &&& a.tgt_effective_head == b.tgt_effective_head
    &&& a.src_actual_head == b.src_actual_head
    &&& a.tgt_actual_head == b.tgt_actual_head
    &&& a.src_trivial_id == b.src_trivial_id
    &&& a.tgt_trivial_id == b.tgt_trivial_id
    &&& a.src_trivial_ids == b.src_trivial_ids
    &&& a.tgt_trivial_ids == b.tgt_trivial_ids
    &&& a.lca == b.lca
}

pub fn plan_equivalent(a: &SyncModeInfo, b: &SyncModeInfo) -> (r: bool)
    ensures
        r == plan_same(a.deep_view(), b.deep_view()),
{
    a.mode.same_kind(&b.mode) && same(&a.src_effective_head, &b.src_effective_head) && same(
        &a.tgt_effective_head,
        &b.tgt_effective_head,
    ) && same(&a.src_actual_head, &b.src_actual_head) && same(
        &a.tgt_actual_head,
        &b.tgt_actual_head,
    ) && same_opt(&a.src_trivial_id, &b.src_trivial_id) && same_opt(
        &a.tgt_trivial_id,
        &b.tgt_trivial_id,
    ) && same_all(&a.src_trivial_ids, &b.src_trivial_ids) && same_all(
        &a.tgt_trivial_ids,
        &b.tgt_trivial_ids,
    ) && same(&a.lca, &b.lca)
}

/// Equivalence of plans is an equivalence, and the operation head has no part in it.
pub proof fn law_plan_equivalence(
    a: SyncModeInfoV,
    b: SyncModeInfoV,
    c: SyncModeInfoV,
    op_head: Seq<char>,
)
    ensures
        plan_same(a, a),
        plan_same(a, b) == plan_same(b, a),
        plan_same(a, b) && plan_same(b, c) ==> plan_same(a, c),
        plan_same(a, SyncModeInfoV { op_head, ..a }),
        plan_same(SyncModeInfoV { op_head, ..a }, b) == plan_same(a, b),
{
}

/// What a check at execution time finds.
#[derive(Debug)]
pub enum Freshness {
    /// The operation head has not moved.
    Unchanged,
    /// It has, and the plan is the same: here with the newer head.
    Equivalent(Box<SyncModeInfo>),
    /// The plan may have changed.
    Changed,
}

pub enum FreshnessV {
    Unchanged,
    Equivalent(SyncModeInfoV),
    Changed,
}

impl DeepView for Freshness {
    type V = FreshnessV;

    open spec fn deep_view(&self) -> FreshnessV {
        match self {
            Freshness::Unchanged => FreshnessV::Unchanged,
            Freshness::Equivalent(i) => FreshnessV::Equivalent(i.deep_view()),
            Freshness::Changed => FreshnessV::Changed,
        }
    }
}

#[verifier::opaque]
pub open spec fn check_freshness_spec(
    t: Trace,
    repo: Seq<char>,
    info: SyncModeInfoV,
    src_name: Seq<char>,
    tgt_name: Seq<char>,
    required: Pairs,
    allow_equivalent: bool,
) -> Out<FreshnessV> {
    bind(
        snapshot_workspaces_spec(t, required),
        |u: (), t: Trace|
            bind(
                op_head_now_spec(t, repo),
                |op: Seq<char>, t: Trace|
                    if op == info.op_head {
                        Out::Got(FreshnessV::Unchanged, t)
                    } else if !allow_equivalent {
                        Out::Got(FreshnessV::Changed, t)
                    } else {
                        bind(
                            detect_sync_mode_spec(t, repo, src_name, tgt_name),
                            |fresh: SyncModeInfoV, t: Trace|
                                Out::Got(
                                    if plan_same(info, fresh) {
                                        FreshnessV::Equivalent(fresh)
                                    } else {
                                        FreshnessV::Changed
                                    },
                                    t,
                                ),
                        )
                    },
            ),
    )
}

/// Captures the required workspaces, then tells whether `info` still describes reality.
pub fn check_freshness(
    tape: &mut Tape,
    repo: &str,
    info: &SyncModeInfo,
    src_name: &str,
    tgt_name: &str,
    required: &[(&str, &str)],
    allow_equivalent: bool,
) -> (r: Result<Freshness, Stop>)
    ensures
        agrees(
            r,
            final(tape)@,
            check_freshness_spec(
                old(tape)@,
                repo@,
                info.deep_view(),
                src_name@,
                tgt_name@,
                required.deep_view(),
                allow_equivalent,
            ),
        ),
{
    reveal(check_freshness_spec);
    snapshot_workspaces(tape, required)?;
    let op = op_head_now(tape, repo)?;
    if same(&op, &info.op_head) {
        return Ok(Freshness::Unchanged);
    }
    if !allow_equivalent {
        return Ok(Freshness::Changed);
    }
    let fresh = detect_sync_mode(tape, repo, src_name, tgt_name)?;
    if plan_equivalent(info, &fresh) {
        Ok(Freshness::Equivalent(Box::new(fresh)))
    } else {
        Ok(Freshness::Changed)
    }
}

/// Detects until the operation head stood still, at most `n` times.
#[verifier::opaque]
pub open spec fn stable_spec(
    t: Trace,
    repo: Seq<char>,
    src_name: Seq<char>,
    tgt_name: Seq<char>,
    n: nat,
) -> Out<SyncModeInfoV>
    decreases n,
{
    if n == 0 {
        Out::Fail(failure_spec("repo changed externally, please retry"@), t)
    } else {
        match detect_sync_mode_spec(t, repo, src_name, tgt_name) {
            Out::Ask(q) => Out::Ask(q),
            Out::Fail(e, t) => Out::Fail(e, t),
            Out::Got(fresh, t) => match op_head_now_spec(t, repo) {
                Out::Ask(q) => Out::Ask(q),
                Out::Fail(e, t) => Out::Fail(e, t),
                Out::Got(after, t) => if after == fresh.op_head {
                    Out::Got(fresh, t)
                } else {
                    stable_spec(t, repo, src_name, tgt_name, (n - 1) as nat)
                },
            },
        }
    }
}

/// Detects in a window in which the operation head stands still; two tries.
pub fn stable_detect_sync_mode(tape: &mut Tape, repo: &str, src_name: &str, tgt_name: &str) -> (r:
    Result<SyncModeInfo, Stop>)
    ensures
        agrees(r, final(tape)@, stable_spec(old(tape)@, repo@, src_name@, tgt_name@, 2)),
{
    let ghost t0 = tape@;
    for i in 0..2usize
        invariant
            t0 == old(tape)@,
            stable_spec(t0, repo@, src_name@, tgt_name@, 2) == stable_spec(
                tape@,
                repo@,
                src_name@,
                tgt_name@,
                (2 - i) as nat,
            ),
    {
        reveal_with_fuel(stable_spec, 2);
        let fresh = detect_sync_mode(tape, repo, src_name, tgt_name)?;
        let after = op_head_now(tape, repo)?;
        if same(&after, &fresh.op_head) {
            return Ok(fresh);
        }
    }
    reveal_with_fuel(stable_spec, 1);
    Err(Stop::Fail(failure("repo changed externally, please retry".to_string())))
}

/// With the first `k` replies the stable detection reads the operation heads.
pub open spec fn reads_heads(
    t: Trace,
    repo: Seq<char>,
    src_name: Seq<char>,
    tgt_name: Seq<char>,
    n: nat,
    k: int,
) -> bool {
    &&& 0 <= k < t.len()
    &&& stable_spec(t.take(k), repo, src_name, tgt_name, n) == Out::<SyncModeInfoV>::Ask(
        at_spec(Act::ListDir, op_heads_dir(repo)),
    )
}

/// From the reply `m` on `info` was detected, up to the reply `k`, which gives its operation head
/// once more.
pub open spec fn is_window(
    t: Trace,
    repo: Seq<char>,
    src_name: Seq<char>,
    tgt_name: Seq<char>,
    info: SyncModeInfoV,
    m: int,
    k: int,
) -> bool {
    &&& 0 <= m <= k < t.len()
    &&& detect_sync_mode_spec(t.skip(m), repo, src_name, tgt_name) == Out::Got(info, t.skip(k))
    &&& op_head_now_spec(t.skip(k), repo) == Out::Got(info.op_head, t.skip(k + 1))
}

/// A stable detection ends in a window: what it gives was detected there, and the last thing that it
/// reads are the operation heads, which still are those of the result.
pub proof fn law_stable_window(
    t: Trace,
    repo: Seq<char>,
    src_name: Seq<char>,
    tgt_name: Seq<char>,
    n: nat,
)
    ensures
        stable_spec(t, repo, src_name, tgt_name, n) matches Out::Got(info, u) ==> exists|
            m: int,
            k: int,
        |
            #[trigger] is_window(t, repo, src_name, tgt_name, info, m, k) && reads_heads(
                t,
                repo,
                src_name,
                tgt_name,
                n,
                k,
            ) && u == t.skip(k + 1),
    decreases n,
{
    broadcast use {group_rest, replays_detect_sync_mode, replays_op_head_now};

    reveal_with_fuel(stable_spec, 2);
    if let Out::Got(info, u) = stable_spec(t, repo, src_name, tgt_name, n) {
        let detected = detect_sync_mode_spec(t, repo, src_name, tgt_name);
        let fresh = detected->Got_0;
        let s = left(detected);
        let v = left(op_head_now_spec(s, repo));
        lemma_rest(s, t);
        lemma_op_head_now(s, repo);
        let n0 = t.len() - s.len();
        assert(t.skip(n0 + 1) =~= v);
        if op_head_now_spec(s, repo)->Got_0 == fresh.op_head {
            assert(t.skip(0) =~= t);
            lemma_op_head_now(s.take(0), repo);
            assert(reads_heads(t, repo, src_name, tgt_name, n, n0));
            assert(is_window(t, repo, src_name, tgt_name, info, 0, n0));
        } else {
            let less = (n - 1) as nat;
            law_stable_window(v, repo, src_name, tgt_name, less);
            let (m, k) = choose|m: int, k: int|
                #[trigger] is_window(v, repo, src_name, tgt_name, info, m, k) && reads_heads(
                    v,
                    repo,
                    src_name,
                    tgt_name,
                    less,
                    k,
                ) && u == v.skip(k + 1);
            let d = n0 + 1;
            assert(v.skip(m) =~= t.skip(d + m));
            assert(v.skip(k) =~= t.skip(d + k));
            assert(v.skip(k + 1) =~= t.skip(d + k + 1));
            let c = detect_sync_mode_spec(t.take(d + k), repo, src_name, tgt_name);
            assert(c == Out::Got(fresh, s.take(k + 1)));
            assert(op_head_now_spec(s.take(k + 1), repo) == Out::Got(
                op_head_now_spec(s, repo)->Got_0,
                v.take(k),
            ));
            assert(reads_heads(t, repo, src_name, tgt_name, n, d + k));
            assert(is_window(t, repo, src_name, tgt_name, info, d + m, d + k));
        }
    }
}

/// The operation heads are read with one reply.
proof fn lemma_op_head_now(t: Trace, repo: Seq<char>)
    ensures
        op_head_now_spec(t, repo) matches Out::Got(_, u) ==> t.len() > 0 && u == t.drop_first(),
        t.len() == 0 ==> op_head_now_spec(t, repo) == Out::<Seq<char>>::Ask(
            at_spec(Act::ListDir, op_heads_dir(repo)),
        ),
{
    reveal(op_head_now_spec);
    reveal(current_op_head_spec);
}

#[verifier::opaque]
pub open spec fn validate_head_info_spec(
    t: Trace,
    repo: Seq<char>,
    info: SyncModeInfoV,
    src_name: Seq<char>,
    tgt_name: Seq<char>,
    allow_equivalent: bool,
) -> Out<SyncModeInfoV> {
    bind(
        op_head_now_spec(t, repo),
        |op: Seq<char>, t: Trace|
            if op == info.op_head {
                Out::Got(info, t)
            } else if !allow_equivalent {
                Out::Fail(failure_spec("repo changed, please retry"@), t)
            } else {
                bind(
                    stable_spec(t, repo, src_name, tgt_name, 2),
                    |fresh: SyncModeInfoV, t: Trace|
                        match fresh.mode {
                            SyncModeV::Error(e) => Out::Fail(
                                failure_spec("repo changed externally, please retry ("@ + e + ")"@),
                                t,
                            ),
                            _ => if plan_same(info, fresh) {
                                Out::Got(fresh, t)
                            } else {
                                Out::Fail(failure_spec("repo changed externally, please retry"@), t)
                            },
                        },
                )
            },
    )
}

/// The last check before execution: `info` itself while the operation head stands, else a fresh plan
/// that agrees with it where `allow_equivalent` lets one in.
pub fn validate_head_info(
    tape: &mut Tape,
    repo: &str,
    info: &SyncModeInfo,
    src_name: &str,
    tgt_name: &str,
    allow_equivalent: bool,
) -> (r: Result<SyncModeInfo, Stop>)
    ensures
        agrees(
            r,
            final(tape)@,
            validate_head_info_spec(
                old(tape)@,
                repo@,
                info.deep_view(),
                src_name@,
                tgt_name@,
                allow_equivalent,
            ),
        ),
{
    reveal(validate_head_info_spec);
    let op = op_head_now(tape, repo)?;
    if same(&op, &info.op_head) {
        return Ok(info.copy());
    }
    if !allow_equivalent {
        return Err(Stop::Fail(failure("repo changed, please retry".to_string())));
    }
    let fresh = stable_detect_sync_mode(tape, repo, src_name, tgt_name)?;
    if let SyncMode::Error(e) = &fresh.mode {
        let msg = cat3("repo changed externally, please retry (", e, ")");
        return Err(Stop::Fail(failure(msg)));
    }
    if plan_equivalent(info, &fresh) {
        return Ok(fresh);
    }
    Err(Stop::Fail(failure("repo changed externally, please retry".to_string())))
}

/// A validated plan agrees with the one it was validated against, and in strict mode it is that
/// one, read at the operation head that stands.
pub proof fn law_validated_plan(
    t: Trace,
    repo: Seq<char>,
    info: SyncModeInfoV,
    src_name: Seq<char>,
    tgt_name: Seq<char>,
    allow_equivalent: bool,
)
    ensures
        validate_head_info_spec(t, repo, info, src_name, tgt_name, allow_equivalent) matches Out::Got(
            got,
            u,
        ) ==> {
            &&& plan_same(info, got)
            &&& !allow_equivalent ==> got == info && op_head_now_spec(t, repo) == Out::Got(
                info.op_head,
                u,
            )
        },
{
    reveal(validate_head_info_spec);
}

// ---------------------------------------------------------------------------
// Adaptive methods
// ---------------------------------------------------------------------------

pub open spec fn adaptive_close_spec(mode: SyncModeV) -> Result<Operation, FailureV> {
    match mode {
        SyncModeV::SourceOnly => Ok(Operation::FastForwardTargetClose),
        SyncModeV::Diverged => Ok(Operation::MergeClose),
        _ => Err(failure_spec("adaptive close unavailable for current sync state"@)),
    }
}

/// The close operation that suits a sync state.
pub fn resolve_adaptive_close(mode: &SyncMode) -> (r: Result<Operation, Failure>)
    ensures
        adaptive_close_spec(mode.deep_view()) == (match r {
            Ok(op) => Ok::<Operation, FailureV>(op),
            Err(e) => Err(e.deep_view()),
        }),
{
    match mode {
        SyncMode::SourceOnly => Ok(Operation::FastForwardTargetClose),
        SyncMode::Diverged => Ok(Operation::MergeClose),
        _ => Err(failure("adaptive close unavailable for current sync state".to_string())),
    }
}

pub open spec fn adaptive_transfer_spec(mode: SyncModeV) -> Result<Operation, FailureV> {
    match mode {
        SyncModeV::SourceOnly => Ok(Operation::FastForwardTarget),
        SyncModeV::TargetOnly => Ok(Operation::FastForwardSource),
        SyncModeV::Diverged => Ok(Operation::Merge),
        _ => Err(failure_spec("adaptive merge unavailable for current sync state"@)),
    }
}

/// The transfer operation that suits a sync state.
pub fn resolve_adaptive_transfer(mode: &SyncMode) -> (r: Result<Operation, Failure>)
    ensures
        adaptive_transfer_spec(mode.deep_view()) == (match r {
            Ok(op) => Ok::<Operation, FailureV>(op),
            Err(e) => Err(e.deep_view()),
        }),
{
    match mode {
        SyncMode::SourceOnly => Ok(Operation::FastForwardTarget),
        SyncMode::TargetOnly => Ok(Operation::FastForwardSource),
        SyncMode::Diverged => Ok(Operation::Merge),
        _ => Err(failure("adaptive merge unavailable for current sync state".to_string())),
    }
}

/// An adaptive method never resolves to another adaptive one, and resolves only where there is
/// work to move.
pub proof fn law_adaptive_is_concrete(mode: SyncModeV)
    ensures
        adaptive_close_spec(mode) matches Ok(op) ==> op == Operation::FastForwardTargetClose || op
            == Operation::MergeClose,
        adaptive_transfer_spec(mode) matches Ok(op) ==> op != Operation::AdaptiveMerge,
        mode is InSync || mode is Error ==> adaptive_close_spec(mode) is Err
            && adaptive_transfer_spec(mode) is Err,
        mode is SourceOnly || mode is Diverged <==> adaptive_close_spec(mode) is Ok,
{
}

/// A state that could be told rests on the heads of the two workspaces and on their last common
/// ancestor: they are in sync where both are at it, one is ahead where the other alone is at it,
/// and they have diverged where neither is.
pub proof fn law_state_follows_from_heads(
    t: Trace,
    repo: Seq<char>,
    src_name: Seq<char>,
    tgt_name: Seq<char>,
)
    ensures
        detect_sync_mode_spec(t, repo, src_name, tgt_name) matches Out::Got(info, u) ==> !(
        info.mode is Error) ==> {
            let src_at = info.src_effective_head == info.lca;
            let tgt_at = info.tgt_effective_head == info.lca;
            &&& info.mode is InSync <==> src_at && tgt_at
            &&& info.mode is SourceOnly <==> !src_at && tgt_at
            &&& info.mode is TargetOnly <==> src_at && !tgt_at
            &&& info.mode is Diverged <==> !src_at && !tgt_at
            &&& info.lca.len() != 0
            &&& info.src_effective_head.len() != 0
            &&& info.tgt_effective_head.len() != 0
            &&& op_head_now_spec(t, repo) matches Out::Got(op, v)
            &&& info.op_head == op
            &&& resolve_workspace_head_info_spec(v, repo, src_name) matches Out::Got(a, w)
            &&& info.src_effective_head == a.effective_head
            &&& info.src_actual_head == a.actual_head
            &&& info.src_trivial_id == a.trivial_id
            &&& info.src_trivial_ids == a.trivial_ids
            &&& resolve_workspace_head_info_spec(w, repo, tgt_name) matches Out::Got(b, x)
            &&& info.tgt_effective_head == b.effective_head
            &&& info.tgt_actual_head == b.actual_head
            &&& info.tgt_trivial_id == b.trivial_id
            &&& info.tgt_trivial_ids == b.trivial_ids
            &&& last_common_ancestor_spec(
                x,
                repo,
                info.src_effective_head,
                info.tgt_effective_head,
            ) == Out::Got(info.lca, u)
        },
{
    reveal(detect_sync_mode_spec);
}

/// An adaptive operation does what the state calls for: the one behind is brought forward, and
/// where both have moved they are merged.
pub proof fn law_adaptive_fits_the_state(mode: SyncModeV)
    ensures
        adaptive_close_spec(mode) == Ok::<Operation, FailureV>(Operation::FastForwardTargetClose)
            <==> mode is SourceOnly,
        adaptive_close_spec(mode) == Ok::<Operation, FailureV>(Operation::MergeClose)
            <==> mode is Diverged,
        adaptive_transfer_spec(mode) == Ok::<Operation, FailureV>(Operation::FastForwardTarget)
            <==> mode is SourceOnly,
        adaptive_transfer_spec(mode) == Ok::<Operation, FailureV>(Operation::FastForwardSource)
            <==> mode is TargetOnly,
        adaptive_transfer_spec(mode) == Ok::<Operation, FailureV>(Operation::Merge)
            <==> mode is Diverged,
{
}

} // verus!
