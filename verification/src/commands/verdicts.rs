//! What jj's answers are taken to mean, and what is done about them.

use vstd::prelude::*;

use crate::commands::after::{predict_stale_workspaces_spec, rewritten};
use crate::commands::close::{close_by_detaching_spec, CloseParamsV};
use crate::commands::types::{CloseTransferResultV, Operation, SyncModeInfoV};
use crate::effects::{
    answer, asks_rebase, asks_step_head, call, head_checked, looked_up, rebased, stepped,
};
use crate::graph::is_effectively_linear_spec;
use crate::jj_utils::{
    check_emptiness_spec, check_revision_safety_spec, check_trivial_head_spec,
    check_working_copy_safety_spec, find_effective_head_spec, head_record_spec,
    is_trivial_description_spec, is_trivial_head_spec, make_desc_spec, resolve_change_id_spec,
    step_head_spec, unclaimed_spec, ws_head_spec, Op, RevisionSafetyV, TMPL_EMPTY,
    TMPL_ID_BOOKMARKS_DESC, WorkspaceHeadInfoV,
};
use crate::operations::{done, rebase_spec, WsRefV};
use crate::replay::{
    each_reaches, group_rest, is_rest, left, lemma_rest, replays_ask, replays_is_trivial_head,
    replays_rebase_source, replays_step_head, replays_tell, replays_tell_stale,
};
use crate::revisions::{rebase_source_spec, workspaces_in_descendants_spec, TMPL_WORKING_COPIES};
use crate::run::{tell_close_spec, tell_stale_spec, warning_step};
use crate::stale::{is_workspace_stale_spec, says_stale, unknown_spec};
use crate::tape::{Act, Kind, Out, RequestV, Trace};
use crate::text::{join_spec, trim_spec, Cut};

verus! {

/// A head is at risk exactly where jj shows neither a bookmark nor a description of it and, asked
/// with the working copy captured, does not call it empty.
pub proof fn law_unnamed_work_is_at_risk(
    t: Trace,
    repo: Seq<char>,
    revset: Seq<char>,
    ws_path: Option<Seq<char>>,
)
    ensures
        check_revision_safety_spec(t, repo, revset, ws_path) matches Out::Got(s, u) ==> {
            &&& 0 < t.len()
            &&& check_revision_safety_spec(t.take(0), repo, revset, ws_path) == Out::<
                RevisionSafetyV,
            >::Ask(
                looked_up(
                    Act::JjRepo,
                    repo,
                    "("@ + revset + ") ~ parents(children("@ + revset + "))"@,
                    TMPL_ID_BOOKMARKS_DESC@,
                ),
            )
            &&& unclaimed_spec(answer(t, 0)) is None ==> s is Safe && u == t.skip(1)
            &&& unclaimed_spec(answer(t, 0)) matches Some(id) ==> {
                &&& 1 < t.len()
                &&& check_revision_safety_spec(t.take(1), repo, revset, ws_path) == Out::<
                    RevisionSafetyV,
                >::Ask(
                    match ws_path {
                        Some(ws) => looked_up(Act::JjWsLive, ws, revset, TMPL_EMPTY@),
                        None => looked_up(Act::JjRepo, repo, revset, TMPL_EMPTY@),
                    },
                )
                &&& s is Safe <==> trim_spec(answer(t, 1), Cut::White) == "true"@
                &&& s matches RevisionSafetyV::AtRisk { change_id } ==> change_id == id
            }
        },
{
    reveal(check_revision_safety_spec);
    reveal(check_emptiness_spec);
    if check_revision_safety_spec(t, repo, revset, ws_path) is Got {
        assert(t.take(0) =~= Seq::empty());
        assert(t.skip(1) =~= t.drop_first());
        if unclaimed_spec(answer(t, 0)) is Some {
            assert(t.take(1)[0] == t[0]);
            assert(t.take(1).drop_first() =~= Seq::empty());
            assert(t.drop_first()[0] == t[1]);
        }
    }
}

/// The same of the revision of a working copy, whether or not it is a head.
pub proof fn law_unnamed_working_copy_is_at_risk(
    t: Trace,
    repo: Seq<char>,
    revset: Seq<char>,
    ws_path: Seq<char>,
)
    ensures
        check_working_copy_safety_spec(t, repo, revset, ws_path) matches Out::Got(s, u) ==> {
            &&& 0 < t.len()
            &&& check_working_copy_safety_spec(t.take(0), repo, revset, ws_path) == Out::<
                RevisionSafetyV,
            >::Ask(looked_up(Act::JjRepo, repo, revset, TMPL_ID_BOOKMARKS_DESC@))
            &&& unclaimed_spec(answer(t, 0)) is None ==> s is Safe && u == t.skip(1)
            &&& unclaimed_spec(answer(t, 0)) matches Some(id) ==> {
                &&& 1 < t.len()
                &&& check_working_copy_safety_spec(t.take(1), repo, revset, ws_path) == Out::<
                    RevisionSafetyV,
                >::Ask(looked_up(Act::JjWsLive, ws_path, revset, TMPL_EMPTY@))
                &&& s is Safe <==> trim_spec(answer(t, 1), Cut::White) == "true"@
                &&& s matches RevisionSafetyV::AtRisk { change_id } ==> change_id == id
            }
        },
{
    reveal(check_working_copy_safety_spec);
    reveal(check_emptiness_spec);
    if check_working_copy_safety_spec(t, repo, revset, ws_path) is Got {
        assert(t.take(0) =~= Seq::empty());
        assert(t.skip(1) =~= t.drop_first());
        if unclaimed_spec(answer(t, 0)) is Some {
            assert(t.take(1)[0] == t[0]);
            assert(t.take(1).drop_first() =~= Seq::empty());
            assert(t.drop_first()[0] == t[1]);
        }
    }
}

/// A head is trivial only if jj calls it empty and no merge; and a head that is empty, no merge and
/// without a description is trivial.
pub proof fn law_trivial_heads_are_empty(t: Trace, repo: Seq<char>, revset: Seq<char>)
    ensures
        check_trivial_head_spec(t, repo, revset) matches Out::Got(found, u) ==> {
            &&& found matches Some(id) ==> {
                &&& answer(t, 0).len() != 0
                &&& head_record_spec(answer(t, 0)) matches Some(h)
                &&& h.is_empty && !h.is_merge && h.id == id
            }
            &&& answer(t, 0).len() != 0 ==> (head_record_spec(answer(t, 0)) matches Some(h)
                ==> h.is_empty && !h.is_merge && trim_spec(h.desc, Cut::White).len() == 0
                ==> found == Some(h.id))
        },
{
    reveal(check_trivial_head_spec);
    reveal(is_trivial_description_spec);
}

/// What the source has of its own runs in one line exactly where jj names no fork in it.
pub proof fn law_linear_means_no_forks(
    t: Trace,
    repo: Seq<char>,
    lca: Seq<char>,
    src_eff: Seq<char>,
)
    ensures
        is_effectively_linear_spec(t, repo, lca, src_eff) matches Out::Got(linear, u) ==> (linear
            <==> trim_spec(answer(t, 0), Cut::White).len() == 0),
{
    reveal(is_effectively_linear_spec);
}

/// A workspace is stale exactly where jj fails there, and says that it is stale.
pub proof fn law_stale_is_what_jj_says(t: Trace, ws_path: Seq<char>)
    ensures
        is_workspace_stale_spec(t, ws_path) matches Out::Got(stale, u) ==> {
            &&& t[0].kind != Kind::Done ==> !stale && u == t.skip(1)
            &&& t[0].kind == Kind::Done ==> 1 < t.len() && (stale <==> t[1].kind == Kind::Nonzero
                && says_stale(t[1].err))
        },
{
    reveal(is_workspace_stale_spec);
    if is_workspace_stale_spec(t, ws_path) is Got {
        assert(t.skip(1) =~= t.drop_first());
        if t[0].kind == Kind::Done {
            assert(t.drop_first()[0] == t[1]);
        }
    }
}

/// The workspaces that an operation will leave stale are looked for among those on what it rewrites:
/// what the source has of its own, for a rebase and for a squash, and what is abandoned. The
/// workspaces that take part are never among them.
pub proof fn law_stale_workspaces_are_foretold(
    t: Trace,
    repo: Seq<char>,
    operation: Operation,
    info: SyncModeInfoV,
    abandoned_ids: Seq<Seq<char>>,
    involved: Seq<Seq<char>>,
)
    ensures
        predict_stale_workspaces_spec(
            t,
            repo,
            operation,
            info,
            abandoned_ids,
            involved,
        ) matches Out::Got(names, u) ==> forall|n: Seq<char>| #[trigger]
            names.contains(n) ==> !involved.contains(n),
        (operation == Operation::Rebase || operation == Operation::MergeSquash || operation
            == Operation::MergeSquashClose) && info.lca != info.src_effective_head
            ==> predict_stale_workspaces_spec(
            Seq::empty(),
            repo,
            operation,
            info,
            abandoned_ids,
            involved,
        ) == Out::<Seq<Seq<char>>>::Ask(
            looked_up(
                Act::JjRepo,
                repo,
                "("@ + ("roots("@ + info.lca + ".."@ + info.src_effective_head + ")"@) + ")::"@,
                TMPL_WORKING_COPIES@,
            ),
        ),
        operation == Operation::Abandon && abandoned_ids.len() != 0
            ==> predict_stale_workspaces_spec(
            Seq::empty(),
            repo,
            operation,
            info,
            abandoned_ids,
            involved,
        ) == Out::<Seq<Seq<char>>>::Ask(
            looked_up(
                Act::JjRepo,
                repo,
                "("@ + join_spec(abandoned_ids, " | "@) + ")::"@,
                TMPL_WORKING_COPIES@,
            ),
        ),
        operation == Operation::Merge || operation == Operation::FastForwardTarget || operation
            == Operation::FastForwardSource || operation == Operation::MergeAbandonOld || operation
            == Operation::MergeClose || operation == Operation::FastForwardTargetClose || operation
            == Operation::Detach ==> predict_stale_workspaces_spec(
            t,
            repo,
            operation,
            info,
            abandoned_ids,
            involved,
        ) == Out::Got(Seq::<Seq<char>>::empty(), t),
{
    reveal(predict_stale_workspaces_spec);
    reveal(workspaces_in_descendants_spec);
    if let Some(revset) = rewritten(operation, info, abandoned_ids) {
        if let Out::Got(names, _) = workspaces_in_descendants_spec(t, repo, revset) {
            assert forall|n: Seq<char>| #[trigger]
                unknown_spec(names, involved).contains(n) implies !involved.contains(n) by {
                lemma_kept_apart(names, involved, n);
            }
        }
    }
}

pub proof fn lemma_kept_apart(names: Seq<Seq<char>>, known: Seq<Seq<char>>, n: Seq<char>)
    ensures
        unknown_spec(names, known).contains(n) ==> !known.contains(n) && names.contains(n),
        names.contains(n) && !known.contains(n) ==> unknown_spec(names, known).contains(n),
    decreases names.len(),
{
    if names.len() > 0 {
        let front = names.drop_last();
        lemma_kept_apart(front, known, n);
        let less = unknown_spec(front, known);
        if unknown_spec(names, known).contains(n) && !less.contains(n) {
            assert(!known.contains(names.last()));
            let i = choose|i: int|
                0 <= i < less.push(names.last()).len() && less.push(names.last())[i] == n;
            assert(i == less.len());
            assert(names[names.len() - 1] == n);
        }
        if less.contains(n) {
            let i = choose|i: int| 0 <= i < front.len() && front[i] == n;
            assert(names[i] == n);
            let j = choose|j: int| 0 <= j < less.len() && less[j] == n;
            assert(less.push(names.last())[j] == n);
        }
        if names.contains(n) && !known.contains(n) && !front.contains(n) {
            let i = choose|i: int| 0 <= i < names.len() && names[i] == n;
            if i < front.len() {
                assert(front[i] == n);
            }
            assert(names.last() == n);
            assert(less.push(names.last())[less.len() as int] == n);
        }
    }
}

/// A detached workspace leaves its bookmark to the effective head that it had before it was
/// forgotten.
pub proof fn law_detaching_keeps_the_head(t: Trace, params: CloseParamsV)
    ensures
        close_by_detaching_spec(t, params) matches Out::Got(done, w) ==> {
            &&& check_revision_safety_spec(
                t,
                params.repo_root,
                ws_head_spec(params.source_name),
                Some(params.source_path),
            ) matches Out::Got(s, u)
            &&& s is Safe
            &&& find_effective_head_spec(u, params.repo_root, params.source_name) matches Out::Got(
                head,
                v,
            )
            &&& done.1 == Some(head)
            &&& done.0.len() == 0
        },
{
    reveal(close_by_detaching_spec);
}

/// With the first `k` replies the report of a close asks for `q`, and there is a reply to it.
pub open spec fn report_asks(
    t: Trace,
    src_name: Seq<char>,
    r: CloseTransferResultV,
    k: int,
    q: RequestV,
) -> bool {
    &&& 0 <= k < t.len()
    &&& tell_close_spec(t.take(k), src_name, r) == Out::<()>::Ask(q)
}

/// Every warning of a close is told.
pub proof fn law_close_warnings_are_told(
    t: Trace,
    src_name: Seq<char>,
    r: CloseTransferResultV,
    i: int,
)
    requires
        tell_close_spec(t, src_name, r) is Got,
        0 <= i < r.warnings.len(),
    ensures
        exists|k: int| #[trigger]
            report_asks(t, src_name, r, k, said("(ji)::close warning: "@ + r.warnings[i])),
{
    broadcast use {group_rest, replays_tell_stale, replays_ask, replays_tell};

    reveal(tell_close_spec);
    let u = left(tell_stale_spec(t, r.stale_warnings));
    assert(is_rest(u, t));
    let step = warning_step("(ji)::close warning: "@);
    let (v, a) = each_reaches(u, r.warnings, (), step, i);
    lemma_rest(u, t);
    lemma_rest(v, u);
    assert(v.take(0) =~= Seq::empty());
    assert(step(v.take(0), a, r.warnings[i]) is Ask);
    assert(report_asks(
        t,
        src_name,
        r,
        t.len() - v.len(),
        said("(ji)::close warning: "@ + r.warnings[i]),
    ));
}

/// The user is to be told.
pub open spec fn said(msg: Seq<char>) -> RequestV {
    call(Act::Warn, Seq::empty(), seq![msg])
}

/// With the first `k` replies a rebase asks for `q`, and the next reply says that it was done.
pub open spec fn rebase_asked(
    t: Trace,
    repo: Seq<char>,
    src_info: WorkspaceHeadInfoV,
    tgt: WsRefV,
    lca: Seq<char>,
    author: Option<Seq<char>>,
    k: int,
    q: RequestV,
) -> bool {
    &&& 0 <= k < t.len()
    &&& rebase_spec(t.take(k), repo, src_info, tgt, lca, author) == Out::<()>::Ask(q)
    &&& t[k].kind == Kind::Done
}

/// After a rebase the target steps on to a new revision, unless it stands on a trivial head.
pub proof fn law_rebase_steps_the_target(
    t: Trace,
    repo: Seq<char>,
    src_info: WorkspaceHeadInfoV,
    tgt: WsRefV,
    lca: Seq<char>,
    author: Option<Seq<char>>,
)
    requires
        rebase_spec(t, repo, src_info, tgt, lca, author) is Got,
    ensures
        1 < t.len(),
        rebase_asked(
            t,
            repo,
            src_info,
            tgt,
            lca,
            author,
            0,
            rebased(
                repo,
                "roots("@ + lca + ".."@ + src_info.effective_head + ")"@,
                tgt.info.effective_head,
            ),
        ),
        rebase_asked(
            t,
            repo,
            src_info,
            tgt,
            lca,
            author,
            1,
            head_checked(repo, ws_head_spec(tgt.name)),
        ),
        is_trivial_head_spec(t.skip(1), repo, ws_head_spec(tgt.name)) matches Out::Got(trivial, u)
            ==> !trivial ==> rebase_asked(
            t,
            repo,
            src_info,
            tgt,
            lca,
            author,
            t.len() - u.len(),
            stepped(Act::JjWsLive, tgt.path, make_desc_spec(Op::Step, None)),
        ),
{
    broadcast use {group_rest, replays_rebase_source, replays_step_head, replays_is_trivial_head};

    reveal(rebase_spec);
    reveal(rebase_source_spec);
    let k = asks_rebase(t, repo, src_info, tgt, lca, author);
    assert(t.take(0) =~= Seq::empty());
    let u = t.skip(1);
    assert(u =~= t.drop_first());
    assert(is_rest(u, t)) by {
        reveal(is_rest);
    }
    assert(t.take(1)[0] == t[0]);
    assert(t.take(1).drop_first() =~= Seq::empty());
    assert(step_head_spec(u, repo, tgt.name, tgt.path, None, author) is Got);
    assert(u.len() > 0 && u[0].kind == Kind::Done && rebase_spec(
        t.take(1),
        repo,
        src_info,
        tgt,
        lca,
        author,
    ) == Out::<()>::Ask(head_checked(repo, ws_head_spec(tgt.name)))) by {
        reveal(step_head_spec);
        reveal(is_trivial_head_spec);
        reveal(check_trivial_head_spec);
    }
    assert(u[0] == t[1]);
    if let Out::Got(trivial, v) = is_trivial_head_spec(u, repo, ws_head_spec(tgt.name)) {
        if !trivial {
            let j = asks_step_head(u, repo, tgt.name, tgt.path, None, author);
            lemma_step_index(u, repo, tgt.name, tgt.path, author);
            assert(is_rest(v, u));
            lemma_rest(v, u);
            let m = u.len() - v.len();
            assert(t.take(m + 1).drop_first() =~= u.take(m));
            assert(t.take(m + 1)[0] == t[0]);
        }
    }
}

proof fn lemma_step_index(
    t: Trace,
    repo: Seq<char>,
    ws_name: Seq<char>,
    ws_path: Seq<char>,
    author: Option<Seq<char>>,
)
    requires
        step_head_spec(t, repo, ws_name, ws_path, None, author) is Got,
        !is_trivial_head_spec(t, repo, ws_head_spec(ws_name))->Got_0,
    ensures
        ({
            let n = t.len() - left(is_trivial_head_spec(t, repo, ws_head_spec(ws_name))).len();
            &&& 0 <= n < t.len()
            &&& t[n].kind == Kind::Done
            &&& step_head_spec(t.take(n), repo, ws_name, ws_path, None, author) == Out::<
                Seq<char>,
            >::Ask(stepped(Act::JjWsLive, ws_path, make_desc_spec(Op::Step, None)))
        }),
{
    broadcast use {group_rest, replays_is_trivial_head};

    reveal(step_head_spec);
    let u = left(is_trivial_head_spec(t, repo, ws_head_spec(ws_name)));
    assert(is_rest(u, t));
    lemma_rest(u, t);
    assert(u.take(0) =~= Seq::empty());
}

/// A workspace on a trivial head does not step on: its head is looked up, and nothing is changed.
pub proof fn law_trivial_heads_do_not_step(
    t: Trace,
    repo: Seq<char>,
    ws_name: Seq<char>,
    ws_path: Seq<char>,
    desc: Option<Seq<char>>,
    author: Option<Seq<char>>,
    u: Trace,
)
    requires
        is_trivial_head_spec(t, repo, ws_head_spec(ws_name)) == Out::Got(true, u),
    ensures
        step_head_spec(t, repo, ws_name, ws_path, desc, author) == resolve_change_id_spec(
            u,
            repo,
            ws_head_spec(ws_name),
        ),
{
    reveal(step_head_spec);
}

} // verus!
