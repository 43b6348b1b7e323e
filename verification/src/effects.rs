//! What the operations have jj do: the requests that a run which succeeds has made.

use vstd::prelude::*;

use crate::commands::close::{
    abandon_surviving_spec, close, close_by_abandoning_spec, close_by_fast_forward_spec,
    close_by_merge_spec, close_by_squash_spec, ids_of, source_warnings_spec, target_guard_spec,
    CloseParamsV, Done,
};
use crate::commands::create::create;
use crate::commands::transfer::{source_ref, target_ref, transfer};
use crate::commands::types::{tgt_heads, SyncModeInfoV};
use crate::hooks::{run_one_spec, say_spec, start_one_spec, write_one_spec};
use crate::jj_logs::described_spec;
use crate::jj_parse::TMPL_ID_DESC;
use crate::jj_utils::{
    abandon_trivial_heads_spec, check_chain_safety_spec, check_trivial_head_spec,
    edit_workspace_head_spec, filter_existing_revisions_spec, found_in, is_head_spec,
    is_trivial_head_spec, make_desc_spec, make_head_spec, present_spec, resolve_change_id_spec,
    step_head_spec, trimmed_fn, workspace_unique_change_ids_spec, ws_head_spec, Op,
    TMPL_ID_EMPTY_MERGE_DESC, WorkspaceHeadInfoV,
};
use crate::jujutsu::snapshot_ws_spec;
use crate::operations::{
    create_workspace_spec, fast_forward_close_spec, fast_forward_spec,
    find_abandon_trivial_heads_spec, forget_workspace_spec, forward_spec, guard_spec, junction_spec,
    merge, merge_abandon_parents_old_spec, merge_close_spec, merge_detail_spec, merge_spec,
    merge_squash_close_spec, merge_squash_spec, rebase, rebase_spec, squash_chain_spec,
    squash_msg_spec, step_both_spec, sync_spec, trivial_pair, SyncOutcomeV, WsRefV,
};
use crate::paths::{parent, parent_spec, path_join_spec};
use crate::replay::{
    group_rest, is_rest, left, lemma_rest, replays_abandon_revisions, replays_abandon_surviving,
    replays_ask, replays_check_chain_safety, replays_create_workspace, replays_edit_workspace_head,
    replays_fast_forward, replays_fast_forward_close, replays_filter_existing_revisions,
    replays_find_abandon_trivial_heads, replays_forget_workspace, replays_holds, replays_is_head,
    replays_is_trivial_head, replays_jj, replays_jj_done, replays_junction,
    replays_last_common_ancestor, replays_make_head, replays_merge, replays_merge_close,
    replays_merge_squash_close, replays_need, replays_new_merge, replays_new_on_in_workspace,
    replays_operations_forward, replays_operations_guard, replays_progress_workspace,
    replays_rebase_source, replays_resolve_change_id, replays_revision_descriptions, replays_say,
    replays_snapshot_ws, replays_source_warnings, replays_squash_chain, replays_squash_into,
    replays_step_both, replays_step_head, replays_target_guard, replays_transfer_guard,
    replays_update_workspace_stale, replays_with_author, replays_workspace_unique_change_ids,
};
use crate::revisions::{
    abandon_revisions_spec, last_common_ancestor_spec, metaedit_author_in_workspace_spec,
    new_merge_spec, new_on_in_workspace_spec, progress_workspace_spec, rebase_source_spec,
    revision_descriptions_spec, squash_into_spec, with_author_spec,
};
use crate::search::{contains, lines_spec};
use crate::seqs::filter_map;
use crate::tape::{at, at_spec, holds_spec, Act, Kind, Out, RequestV, Trace};
use crate::text::{empty, listed, trim_spec, Cut};

verus! {

/// What jj printed in its `k`-th reply, without the white space round it.
pub open spec fn answer(t: Trace, k: int) -> Seq<char> {
    trim_spec(t[k].text, Cut::White)
}

/// jj is to run with these arguments.
pub open spec fn call(act: Act, at: Seq<char>, args: Seq<Seq<char>>) -> RequestV {
    RequestV { act, at, args, data: Seq::empty(), label: Seq::empty() }
}

/// jj is to make a revision with these parents in a workspace, and put the workspace on it.
pub open spec fn merged(path: Seq<char>, parents: Seq<Seq<char>>, msg: Seq<char>) -> RequestV {
    call(Act::JjWsLive, path, seq!["new"@, "--message"@, msg, "--"@] + parents)
}

/// jj is to put a workspace on a new revision on top of its own.
pub open spec fn stepped(act: Act, path: Seq<char>, msg: Seq<char>) -> RequestV {
    call(act, path, seq!["new"@, "--message"@, msg])
}

/// jj is to put a workspace on a new revision on top of another.
pub open spec fn put_on(act: Act, path: Seq<char>, rev: Seq<char>, msg: Seq<char>) -> RequestV {
    call(act, path, seq!["new"@, "--message"@, msg, "--"@, rev])
}

/// jj is to give the revision of a workspace an author.
pub open spec fn authored(path: Seq<char>, author: Seq<char>) -> RequestV {
    call(Act::JjWs, path, seq!["metaedit"@, "--author"@, author])
}

/// jj is to print a template for some revisions.
pub open spec fn looked_up(act: Act, at: Seq<char>, rev: Seq<char>, tmpl: Seq<char>) -> RequestV {
    call(act, at, seq!["log"@, "--no-graph"@, "--revision"@, rev, "--template"@, tmpl])
}

/// jj is to squash revisions into one of them.
pub open spec fn squashed(
    repo: Seq<char>,
    from: Seq<char>,
    into: Seq<char>,
    msg: Seq<char>,
) -> RequestV {
    call(
        Act::JjRepo,
        repo,
        seq!["squash"@, "--from"@, from, "--into"@, into, "--message"@, msg],
    )
}

/// What a squash is described with, where jj printed `listed` for the revisions and descriptions of
/// the chain.
pub open spec fn squash_message(
    src_name: Seq<char>,
    src_eff: Seq<char>,
    tgt_name: Seq<char>,
    tgt_eff: Seq<char>,
    listed: Seq<char>,
) -> Seq<char> {
    let descs = described_spec(listed);
    squash_msg_spec(
        make_desc_spec(Op::Squash, Some(merge_detail_spec(src_name, src_eff, tgt_name, tgt_eff))),
        descs.reverse(),
        descs.len(),
    )
}

/// jj is to put a workspace on a revision.
pub open spec fn edited(path: Seq<char>, rev: Seq<char>) -> RequestV {
    call(Act::JjWsLive, path, seq!["edit"@, rev])
}

/// jj is to put some revisions and what stands on them on top of another.
pub open spec fn rebased(repo: Seq<char>, source: Seq<char>, onto: Seq<char>) -> RequestV {
    call(Act::JjRepo, repo, seq!["rebase"@, "--source"@, source, "--onto"@, onto])
}

/// jj is to abandon revisions.
pub open spec fn abandoned(repo: Seq<char>, ids: Seq<Seq<char>>) -> RequestV {
    call(Act::JjRepo, repo, seq!["abandon"@, "--"@] + ids)
}

/// Those of the ids that jj printed, one to a line.
pub open spec fn surviving(ids: Seq<Seq<char>>, printed: Seq<char>) -> Seq<Seq<char>> {
    found_in(ids, filter_map(lines_spec(printed), trimmed_fn()))
}

/// jj is to add a workspace at a revision.
pub open spec fn added(
    repo: Seq<char>,
    path: Seq<char>,
    revision: Seq<char>,
    msg: Seq<char>,
) -> RequestV {
    call(
        Act::JjRepoLive,
        repo,
        seq!["workspace"@, "add"@, "--revision"@, revision, "--message"@, msg, "--"@, path],
    )
}

/// Is the revision a head, and a trivial one?
pub open spec fn at_trivial_head(t: Trace, repo: Seq<char>, rev: Seq<char>) -> bool {
    &&& is_head_spec(t, repo, rev) matches Out::Got(head, u)
    &&& head
    &&& is_trivial_head_spec(u, repo, rev) matches Out::Got(trivial, v)
    &&& trivial
}

/// Is the revision a head, and not a trivial one?
pub open spec fn at_full_head(t: Trace, repo: Seq<char>, rev: Seq<char>) -> bool {
    &&& is_head_spec(t, repo, rev) matches Out::Got(head, u)
    &&& head
    &&& is_trivial_head_spec(u, repo, rev) matches Out::Got(trivial, v)
    &&& !trivial
}

/// Where a branch starts: at the revision itself, but at the parent of a trivial head.
pub open spec fn branch_base(t: Trace, repo: Seq<char>, rev: Seq<char>) -> Seq<char> {
    if at_trivial_head(t, repo, rev) {
        "("@ + rev + ")-"@
    } else {
        rev
    }
}

/// What is left to read when a branch point is looked up.
spec fn at_junction(t: Trace, repo: Seq<char>, rev: Seq<char>) -> Trace {
    let u = left(is_head_spec(t, repo, rev));
    if is_head_spec(t, repo, rev)->Got_0 {
        left(is_trivial_head_spec(u, repo, rev))
    } else {
        u
    }
}

/// These two parents and no other.
pub open spec fn both(a: Seq<char>, b: Seq<char>) -> Seq<Seq<char>> {
    seq![a, b]
}

/// A file is to be written.
pub open spec fn written(path: Seq<char>, content: Seq<char>) -> RequestV {
    call(Act::WriteFile, path, seq![content])
}

/// A hook is to be run to its end in a directory.
pub open spec fn hook_run(cwd: Seq<char>, cmd: Seq<char>, label: Seq<char>) -> RequestV {
    RequestV { act: Act::RunHook, at: cwd, args: seq![cmd], data: Seq::empty(), label }
}

/// A hook is to be started in a directory.
pub open spec fn hook_started(cwd: Seq<char>, cmd: Seq<char>) -> RequestV {
    call(Act::StartHook, cwd, seq![cmd])
}

/// jj is to make a bookmark.
pub open spec fn bookmark_made(repo: Seq<char>, rev: Seq<char>, bookmark: Seq<char>) -> RequestV {
    call(Act::JjRepo, repo, seq!["bookmark"@, "create"@, "--revision"@, rev, "--"@, bookmark])
}

/// jj is to move a bookmark forward.
pub open spec fn bookmark_moved(repo: Seq<char>, rev: Seq<char>, bookmark: Seq<char>) -> RequestV {
    call(Act::JjRepo, repo, seq!["bookmark"@, "set"@, "--revision"@, rev, "--"@, bookmark])
}

/// jj is to put a bookmark on a revision, wherever it was.
pub open spec fn bookmark_put(repo: Seq<char>, rev: Seq<char>, bookmark: Seq<char>) -> RequestV {
    call(
        Act::JjRepo,
        repo,
        seq!["bookmark"@, "set"@, "--allow-backwards"@, "--revision"@, rev, "--"@, bookmark],
    )
}

/// jj is to delete a bookmark.
pub open spec fn bookmark_gone(repo: Seq<char>, bookmark: Seq<char>) -> RequestV {
    call(Act::JjRepo, repo, seq!["bookmark"@, "delete"@, "--"@, bookmark])
}

/// A stale working copy is to be brought up to date.
pub open spec fn refreshed(path: Seq<char>) -> RequestV {
    call(Act::JjWsLive, path, seq!["workspace"@, "update-stale"@])
}

/// The same, under a name of its own.
pub open spec fn named_call(
    act: Act,
    at: Seq<char>,
    args: Seq<Seq<char>>,
    label: Seq<char>,
) -> RequestV {
    RequestV { act, at, args, data: Seq::empty(), label }
}

/// jj is to tell of a revision, if it is a head, whether it is empty, whether it is a merge, and what
/// describes it.
pub open spec fn head_checked(repo: Seq<char>, rev: Seq<char>) -> RequestV {
    looked_up(
        Act::JjRepo,
        repo,
        "("@ + rev + ") ~ parents(children("@ + rev + "))"@,
        TMPL_ID_EMPTY_MERGE_DESC@,
    )
}

/// The trivial head of the first, else that of the second.
pub open spec fn first_trivial(a: WorkspaceHeadInfoV, b: WorkspaceHeadInfoV) -> Seq<char> {
    if a.trivial_id is Some {
        a.trivial_id->0
    } else {
        b.trivial_id->0
    }
}

pub proof fn asks_new_merge(
    t: Trace,
    ws_path: Seq<char>,
    parents: Seq<Seq<char>>,
    msg: Seq<char>,
    author: Option<Seq<char>>,
) -> (r: (int, int))
    requires
        new_merge_spec(t, ws_path, parents, msg, author) is Got,
    ensures
        0 <= r.0 < r.1 < t.len(),
        new_merge_spec(
            t.take(r.0),
            ws_path,
            parents,
            msg,
            author,
        ) == Out::<Seq<char>>::Ask(merged(ws_path, parents, msg)),
        t[r.0].kind == Kind::Done,
        author is Some ==> r.0 + 1 < t.len() && new_merge_spec(
            t.take(r.0 + 1),
            ws_path,
            parents,
            msg,
            author,
        ) == Out::<Seq<char>>::Ask(
            authored(ws_path, author->0),
        ) && t[r.0 + 1].kind == Kind::Done,
        new_merge_spec(t.take(r.1), ws_path, parents, msg, author) == Out::<Seq<char>>::Ask(
            looked_up(Act::JjWs, ws_path, "@"@, "change_id"@),
        ),
        t[r.1].kind == Kind::Done,
        new_merge_spec(t, ws_path, parents, msg, author)->Got_0 == answer(t, r.1),
{
    broadcast use {replays_holds, replays_jj, replays_jj_done, replays_with_author, group_rest};

    reveal(new_merge_spec);
    reveal(with_author_spec);
    reveal(metaedit_author_in_workspace_spec);
    let u0 = left(holds_spec(t, at_spec(Act::Exists, ws_path)));
    assert(is_rest(u0, t));
    lemma_rest(u0, t);
    assert(u0.take(0) =~= Seq::empty());
    let k0 = t.len() - u0.len();
    assert(
        new_merge_spec(
            t.take(k0),
            ws_path,
            parents,
            msg,
            author,
        ) == Out::<Seq<char>>::Ask(merged(ws_path, parents, msg))
    );
    if author is Some {
        assert(u0.take(1).drop_first() =~= Seq::empty());
        assert(u0.take(1)[0] == u0[0]);
        assert(u0.drop_first().take(0) =~= Seq::empty());
        assert(
            new_merge_spec(
                t.take(k0 + 1),
                ws_path,
                parents,
                msg,
                author,
            ) == Out::<Seq<char>>::Ask(authored(ws_path, author->0))
        );
    }
    let u1 = left(with_author_spec(u0.drop_first(), ws_path, author));
    assert(is_rest(u1, t));
    lemma_rest(u1, t);
    assert(u1.take(0) =~= Seq::empty());
    let k1 = t.len() - u1.len();
    assert(
        new_merge_spec(t.take(k1), ws_path, parents, msg, author) == Out::<Seq<char>>::Ask(
            looked_up(Act::JjWs, ws_path, "@"@, "change_id"@),
        )
    );
    (k0, k1)
}

pub proof fn asks_progress(
    t: Trace,
    ws_path: Seq<char>,
    msg: Seq<char>,
    author: Option<Seq<char>>,
) -> (r: int)
    requires
        progress_workspace_spec(t, ws_path, msg, author) is Got,
    ensures
        0 <= r < t.len(),
        progress_workspace_spec(t.take(r), ws_path, msg, author) == Out::<()>::Ask(
            stepped(Act::JjWs, ws_path, msg),
        ),
        t[r].kind == Kind::Done,
        author is Some ==> r + 1 < t.len() && progress_workspace_spec(
            t.take(r + 1),
            ws_path,
            msg,
            author,
        ) == Out::<()>::Ask(
            authored(ws_path, author->0),
        ) && t[r + 1].kind == Kind::Done,
{
    broadcast use {replays_holds, replays_jj_done, replays_with_author, group_rest};

    reveal(progress_workspace_spec);
    reveal(with_author_spec);
    reveal(metaedit_author_in_workspace_spec);
    let u0 = left(holds_spec(t, at_spec(Act::Exists, ws_path)));
    assert(is_rest(u0, t));
    lemma_rest(u0, t);
    assert(u0.take(0) =~= Seq::empty());
    let k0 = t.len() - u0.len();
    assert(
        progress_workspace_spec(
            t.take(k0),
            ws_path,
            msg,
            author,
        ) == Out::<()>::Ask(stepped(Act::JjWs, ws_path, msg))
    );
    if author is Some {
        assert(u0.take(1).drop_first() =~= Seq::empty());
        assert(u0.take(1)[0] == u0[0]);
        assert(u0.drop_first().take(0) =~= Seq::empty());
        assert(
            progress_workspace_spec(
                t.take(k0 + 1),
                ws_path,
                msg,
                author,
            ) == Out::<()>::Ask(authored(ws_path, author->0))
        );
    }
    k0
}

pub proof fn asks_new_on(
    t: Trace,
    ws_path: Seq<char>,
    revision: Seq<char>,
    msg: Seq<char>,
    author: Option<Seq<char>>,
) -> (r: int)
    requires
        new_on_in_workspace_spec(t, ws_path, revision, msg, author) is Got,
    ensures
        0 <= r < t.len(),
        new_on_in_workspace_spec(
            t.take(r),
            ws_path,
            revision,
            msg,
            author,
        ) == Out::<()>::Ask(put_on(Act::JjWs, ws_path, revision, msg)),
        t[r].kind == Kind::Done,
        author is Some ==> r + 1 < t.len() && new_on_in_workspace_spec(
            t.take(r + 1),
            ws_path,
            revision,
            msg,
            author,
        ) == Out::<()>::Ask(
            authored(ws_path, author->0),
        ) && t[r + 1].kind == Kind::Done,
{
    broadcast use {replays_holds, replays_jj_done, replays_with_author, group_rest};

    reveal(new_on_in_workspace_spec);
    reveal(with_author_spec);
    reveal(metaedit_author_in_workspace_spec);
    let u0 = left(holds_spec(t, at_spec(Act::Exists, ws_path)));
    assert(is_rest(u0, t));
    lemma_rest(u0, t);
    assert(u0.take(0) =~= Seq::empty());
    let k0 = t.len() - u0.len();
    assert(
        new_on_in_workspace_spec(
            t.take(k0),
            ws_path,
            revision,
            msg,
            author,
        ) == Out::<()>::Ask(put_on(Act::JjWs, ws_path, revision, msg))
    );
    if author is Some {
        assert(u0.take(1).drop_first() =~= Seq::empty());
        assert(u0.take(1)[0] == u0[0]);
        assert(u0.drop_first().take(0) =~= Seq::empty());
        assert(
            new_on_in_workspace_spec(
                t.take(k0 + 1),
                ws_path,
                revision,
                msg,
                author,
            ) == Out::<()>::Ask(authored(ws_path, author->0))
        );
    }
    k0
}

pub proof fn asks_make_head(
    t: Trace,
    repo: Seq<char>,
    ws_name: Seq<char>,
    ws_path: Seq<char>,
    parent: Option<Seq<char>>,
    op: Op,
    desc: Option<Seq<char>>,
    author: Option<Seq<char>>,
) -> (r: int)
    requires
        make_head_spec(t, repo, ws_name, ws_path, parent, op, desc, author) is Got,
        parent is Some,
    ensures
        0 <= r < t.len(),
        make_head_spec(
            t.take(r),
            repo,
            ws_name,
            ws_path,
            parent,
            op,
            desc,
            author,
        ) == Out::<Seq<char>>::Ask(put_on(
            Act::JjWsLive,
            ws_path,
            parent->0,
            make_desc_spec(op, desc),
        )),
        t[r].kind == Kind::Done,
        author is Some ==> r + 1 < t.len() && make_head_spec(
            t.take(r + 1),
            repo,
            ws_name,
            ws_path,
            parent,
            op,
            desc,
            author,
        ) == Out::<Seq<char>>::Ask(
            authored(ws_path, author->0),
        ) && t[r + 1].kind == Kind::Done,
{
    broadcast use {replays_jj_done, replays_resolve_change_id, replays_with_author, group_rest};

    reveal(make_head_spec);
    reveal(with_author_spec);
    reveal(metaedit_author_in_workspace_spec);
    let u0 = t;
    assert(is_rest(u0, t));
    lemma_rest(u0, t);
    assert(u0.take(0) =~= Seq::empty());
    let k0 = t.len() - u0.len();
    assert(make_head_spec(
        t.take(k0),
        repo,
        ws_name,
        ws_path,
        parent,
        op,
        desc,
        author,
    ) == Out::<Seq<char>>::Ask(put_on(
            Act::JjWsLive,
            ws_path,
            parent->0,
            make_desc_spec(op, desc),
        )));
    if author is Some {
        assert(u0.take(1).drop_first() =~= Seq::empty());
        assert(u0.take(1)[0] == u0[0]);
        assert(u0.drop_first().take(0) =~= Seq::empty());
        assert(
            make_head_spec(
                t.take(k0 + 1),
                repo,
                ws_name,
                ws_path,
                parent,
                op,
                desc,
                author,
            ) == Out::<Seq<char>>::Ask(authored(ws_path, author->0))
        );
    }
    k0
}

pub proof fn asks_step_head(
    t: Trace,
    repo: Seq<char>,
    ws_name: Seq<char>,
    ws_path: Seq<char>,
    desc: Option<Seq<char>>,
    author: Option<Seq<char>>,
) -> (r: int)
    requires
        step_head_spec(t, repo, ws_name, ws_path, desc, author) is Got,
        !is_trivial_head_spec(t, repo, ws_head_spec(ws_name))->Got_0,
    ensures
        0 <= r < t.len(),
        step_head_spec(
            t.take(r),
            repo,
            ws_name,
            ws_path,
            desc,
            author,
        ) == Out::<Seq<char>>::Ask(stepped(
            Act::JjWsLive,
            ws_path,
            make_desc_spec(Op::Step, desc),
        )),
        t[r].kind == Kind::Done,
        author is Some ==> r + 1 < t.len() && step_head_spec(
            t.take(r + 1),
            repo,
            ws_name,
            ws_path,
            desc,
            author,
        ) == Out::<Seq<char>>::Ask(
            authored(ws_path, author->0),
        ) && t[r + 1].kind == Kind::Done,
{
    broadcast use {
        replays_is_trivial_head,
        replays_jj_done,
        replays_resolve_change_id,
        replays_with_author,
        group_rest,
    };

    reveal(step_head_spec);
    reveal(with_author_spec);
    reveal(metaedit_author_in_workspace_spec);
    let u0 = left(is_trivial_head_spec(t, repo, ws_head_spec(ws_name)));
    assert(is_rest(u0, t));
    lemma_rest(u0, t);
    assert(u0.take(0) =~= Seq::empty());
    let k0 = t.len() - u0.len();
    assert(step_head_spec(
        t.take(k0),
        repo,
        ws_name,
        ws_path,
        desc,
        author,
    ) == Out::<Seq<char>>::Ask(stepped(
            Act::JjWsLive,
            ws_path,
            make_desc_spec(Op::Step, desc),
        )));
    if author is Some {
        assert(u0.take(1).drop_first() =~= Seq::empty());
        assert(u0.take(1)[0] == u0[0]);
        assert(u0.drop_first().take(0) =~= Seq::empty());
        assert(
            step_head_spec(
                t.take(k0 + 1),
                repo,
                ws_name,
                ws_path,
                desc,
                author,
            ) == Out::<Seq<char>>::Ask(authored(ws_path, author->0))
        );
    }
    k0
}

pub proof fn asks_resolve(t: Trace, repo: Seq<char>, revset: Seq<char>) -> (r: int)
    requires
        resolve_change_id_spec(t, repo, revset) is Got,
    ensures
        0 <= r < t.len(),
        resolve_change_id_spec(t.take(r), repo, revset) == Out::<Seq<char>>::Ask(
            looked_up(Act::JjRepo, repo, revset, "change_id ++ \"\\n\""@),
        ),
        t[r].kind == Kind::Done,
        r == 0,
        resolve_change_id_spec(t, repo, revset)->Got_0 == answer(t, r),
        !answer(t, r).contains('\n'),
{
    broadcast use {replays_jj, group_rest};

    reveal(resolve_change_id_spec);
    let u0 = t;
    assert(is_rest(u0, t));
    lemma_rest(u0, t);
    assert(u0.take(0) =~= Seq::empty());
    let k0 = t.len() - u0.len();
    assert(
        resolve_change_id_spec(t.take(k0), repo, revset) == Out::<Seq<char>>::Ask(
            looked_up(Act::JjRepo, repo, revset, "change_id ++ \"\\n\""@),
        )
    );
    k0
}

pub proof fn asks_squash_chain(
    t: Trace,
    repo: Seq<char>,
    src_name: Seq<char>,
    src_eff: Seq<char>,
    tgt_name: Seq<char>,
    tgt_eff: Seq<char>,
    lca: Seq<char>,
) -> (r: (int, int, int))
    requires
        squash_chain_spec(t, repo, src_name, src_eff, tgt_name, tgt_eff, lca) is Got,
    ensures
        0 <= r.0 < r.1 < r.2 < t.len(),
        squash_chain_spec(
            t.take(r.0),
            repo,
            src_name,
            src_eff,
            tgt_name,
            tgt_eff,
            lca,
        ) == Out::<Seq<char>>::Ask(looked_up(
            Act::JjRepo,
            repo,
            "latest(roots("@ + lca + ".."@ + src_eff + "))"@,
            "change_id ++ \"\\n\""@,
        )),
        t[r.0].kind == Kind::Done,
        squash_chain_spec(t.take(r.1), repo, src_name, src_eff, tgt_name, tgt_eff, lca) == Out::<Seq<char>>::Ask(
            looked_up(Act::JjRepo, repo, lca + ".."@ + src_eff, TMPL_ID_DESC@),
        ),
        t[r.1].kind == Kind::Done,
        squash_chain_spec(
            t.take(r.2),
            repo,
            src_name,
            src_eff,
            tgt_name,
            tgt_eff,
            lca,
        ) == Out::<Seq<char>>::Ask(squashed(
            repo,
            lca + ".."@ + src_eff,
            answer(t, r.0),
            squash_message(src_name, src_eff, tgt_name, tgt_eff, answer(t, r.1)),
        )),
        t[r.2].kind == Kind::Done,
        squash_chain_spec(
            t,
            repo,
            src_name,
            src_eff,
            tgt_name,
            tgt_eff,
            lca,
        )->Got_0 == answer(t, r.0),
{
    broadcast use {
        replays_resolve_change_id,
        replays_revision_descriptions,
        replays_squash_into,
        group_rest,
    };

    reveal(squash_chain_spec);
    reveal(squash_into_spec);
    reveal(revision_descriptions_spec);
    let u0 = t;
    assert(is_rest(u0, t));
    lemma_rest(u0, t);
    let j0 = asks_resolve(u0, repo, "latest(roots("@ + lca + ".."@ + src_eff + "))"@);
    let k0 = t.len() - u0.len() + j0;
    assert(squash_chain_spec(
        t.take(k0),
        repo,
        src_name,
        src_eff,
        tgt_name,
        tgt_eff,
        lca,
    ) == Out::<Seq<char>>::Ask(looked_up(
            Act::JjRepo,
            repo,
            "latest(roots("@ + lca + ".."@ + src_eff + "))"@,
            "change_id ++ \"\\n\""@,
        )));
    let u1 = left(
        resolve_change_id_spec(t, repo, "latest(roots("@ + lca + ".."@ + src_eff + "))"@),
    );
    assert(is_rest(u1, t));
    lemma_rest(u1, t);
    assert(u1.take(0) =~= Seq::empty());
    let k1 = t.len() - u1.len();
    assert(
        squash_chain_spec(t.take(k1), repo, src_name, src_eff, tgt_name, tgt_eff, lca) == Out::<Seq<char>>::Ask(
            looked_up(Act::JjRepo, repo, lca + ".."@ + src_eff, TMPL_ID_DESC@),
        )
    );
    let u2 = left(revision_descriptions_spec(u1, repo, lca + ".."@ + src_eff));
    assert(is_rest(u2, t));
    lemma_rest(u2, t);
    assert(u2.take(0) =~= Seq::empty());
    let k2 = t.len() - u2.len();
    assert(squash_chain_spec(
        t.take(k2),
        repo,
        src_name,
        src_eff,
        tgt_name,
        tgt_eff,
        lca,
    ) == Out::<Seq<char>>::Ask(squashed(
            repo,
            lca + ".."@ + src_eff,
            answer(t, k0),
            squash_message(src_name, src_eff, tgt_name, tgt_eff, answer(t, k1)),
        )));
    (k0, k1, k2)
}

pub proof fn asks_step_both(
    t: Trace,
    src: WsRefV,
    tgt: WsRefV,
    merge_id: Seq<char>,
    author: Option<Seq<char>>,
) -> (r: (int, int))
    requires
        step_both_spec(t, src, tgt, merge_id, author) is Got,
    ensures
        0 <= r.0 < r.1 < t.len(),
        step_both_spec(t.take(r.0), src, tgt, merge_id, author) == Out::<()>::Ask(
            stepped(Act::JjWs, src.path, make_desc_spec(Op::Step, None)),
        ),
        t[r.0].kind == Kind::Done,
        author is Some ==> r.0 + 1 < t.len() && step_both_spec(
            t.take(r.0 + 1),
            src,
            tgt,
            merge_id,
            author,
        ) == Out::<()>::Ask(
            authored(src.path, author->0),
        ) && t[r.0 + 1].kind == Kind::Done,
        step_both_spec(t.take(r.1), src, tgt, merge_id, author) == Out::<()>::Ask(
            put_on(Act::JjWs, tgt.path, merge_id, make_desc_spec(Op::Step, None)),
        ),
        t[r.1].kind == Kind::Done,
        author is Some ==> r.1 + 1 < t.len() && step_both_spec(
            t.take(r.1 + 1),
            src,
            tgt,
            merge_id,
            author,
        ) == Out::<()>::Ask(
            authored(tgt.path, author->0),
        ) && t[r.1 + 1].kind == Kind::Done,
{
    broadcast use {replays_new_on_in_workspace, replays_progress_workspace, group_rest};

    reveal(step_both_spec);
    let u0 = t;
    assert(is_rest(u0, t));
    lemma_rest(u0, t);
    let j0 = asks_progress(u0, src.path, make_desc_spec(Op::Step, None), author);
    let k0 = t.len() - u0.len() + j0;
    assert(
        step_both_spec(t.take(k0), src, tgt, merge_id, author) == Out::<()>::Ask(
            stepped(Act::JjWs, src.path, make_desc_spec(Op::Step, None)),
        )
    );
    if author is Some {
        assert(
            step_both_spec(
                t.take(k0 + 1),
                src,
                tgt,
                merge_id,
                author,
            ) == Out::<()>::Ask(authored(src.path, author->0))
        );
    }
    let u1 = left(progress_workspace_spec(t, src.path, make_desc_spec(Op::Step, None), author));
    assert(is_rest(u1, t));
    lemma_rest(u1, t);
    let j1 = asks_new_on(u1, tgt.path, merge_id, make_desc_spec(Op::Step, None), author);
    let k1 = t.len() - u1.len() + j1;
    assert(
        step_both_spec(t.take(k1), src, tgt, merge_id, author) == Out::<()>::Ask(
            put_on(Act::JjWs, tgt.path, merge_id, make_desc_spec(Op::Step, None)),
        )
    );
    if author is Some {
        assert(
            step_both_spec(
                t.take(k1 + 1),
                src,
                tgt,
                merge_id,
                author,
            ) == Out::<()>::Ask(authored(tgt.path, author->0))
        );
    }
    (k0, k1)
}

pub proof fn asks_merge(
    t: Trace,
    repo: Seq<char>,
    src: WsRefV,
    tgt: WsRefV,
    author: Option<Seq<char>>,
) -> (r: (int, int, int, int))
    requires
        merge_spec(t, repo, src, tgt, author) is Got,
    ensures
        0 <= r.0 < r.1 < r.2 < r.3 < t.len(),
        merge_spec(t.take(r.0), repo, src, tgt, author) == Out::<Seq<Seq<char>>>::Ask(merged(
            src.path,
            seq![src.info.effective_head, tgt.info.effective_head],
            make_desc_spec(
                Op::Merge,
                Some(
                    merge_detail_spec(
                        src.name,
                        src.info.effective_head,
                        tgt.name,
                        tgt.info.effective_head,
                    ),
                ),
            ),
        )),
        t[r.0].kind == Kind::Done,
        author is Some ==> r.0 + 1 < t.len() && merge_spec(
            t.take(r.0 + 1),
            repo,
            src,
            tgt,
            author,
        ) == Out::<Seq<Seq<char>>>::Ask(
            authored(src.path, author->0),
        ) && t[r.0 + 1].kind == Kind::Done,
        merge_spec(t.take(r.1), repo, src, tgt, author) == Out::<Seq<Seq<char>>>::Ask(
            looked_up(Act::JjWs, src.path, "@"@, "change_id"@),
        ),
        t[r.1].kind == Kind::Done,
        merge_spec(t.take(r.2), repo, src, tgt, author) == Out::<Seq<Seq<char>>>::Ask(
            stepped(Act::JjWs, src.path, make_desc_spec(Op::Step, None)),
        ),
        t[r.2].kind == Kind::Done,
        author is Some ==> r.2 + 1 < t.len() && merge_spec(
            t.take(r.2 + 1),
            repo,
            src,
            tgt,
            author,
        ) == Out::<Seq<Seq<char>>>::Ask(
            authored(src.path, author->0),
        ) && t[r.2 + 1].kind == Kind::Done,
        merge_spec(t.take(r.3), repo, src, tgt, author) == Out::<Seq<Seq<char>>>::Ask(
            put_on(Act::JjWs, tgt.path, answer(t, r.1), make_desc_spec(Op::Step, None)),
        ),
        t[r.3].kind == Kind::Done,
        author is Some ==> r.3 + 1 < t.len() && merge_spec(
            t.take(r.3 + 1),
            repo,
            src,
            tgt,
            author,
        ) == Out::<Seq<Seq<char>>>::Ask(
            authored(tgt.path, author->0),
        ) && t[r.3 + 1].kind == Kind::Done,
{
    broadcast use {
        replays_find_abandon_trivial_heads,
        replays_new_merge,
        replays_snapshot_ws,
        replays_step_both,
        group_rest,
    };

    reveal(merge_spec);
    let u0 = left(snapshot_ws_spec(t, tgt.path));
    assert(is_rest(u0, t));
    lemma_rest(u0, t);
    let (j0, j1) = asks_new_merge(u0, src.path, seq![
        src.info.effective_head,
        tgt.info.effective_head,
    ], make_desc_spec(
                Op::Merge,
                Some(
                    merge_detail_spec(
                        src.name,
                        src.info.effective_head,
                        tgt.name,
                        tgt.info.effective_head,
                    ),
                ),
            ), author);
    let k0 = t.len() - u0.len() + j0;
    assert(merge_spec(t.take(k0), repo, src, tgt, author) == Out::<Seq<Seq<char>>>::Ask(merged(
            src.path,
            seq![src.info.effective_head, tgt.info.effective_head],
            make_desc_spec(
                Op::Merge,
                Some(
                    merge_detail_spec(
                        src.name,
                        src.info.effective_head,
                        tgt.name,
                        tgt.info.effective_head,
                    ),
                ),
            ),
        )));
    if author is Some {
        assert(
            merge_spec(
                t.take(k0 + 1),
                repo,
                src,
                tgt,
                author,
            ) == Out::<Seq<Seq<char>>>::Ask(authored(src.path, author->0))
        );
    }
    let k1 = t.len() - u0.len() + j1;
    assert(
        merge_spec(t.take(k1), repo, src, tgt, author) == Out::<Seq<Seq<char>>>::Ask(
            looked_up(Act::JjWs, src.path, "@"@, "change_id"@),
        )
    );
    let u2 = left(new_merge_spec(u0, src.path, seq![
        src.info.effective_head,
        tgt.info.effective_head,
    ], make_desc_spec(
                Op::Merge,
                Some(
                    merge_detail_spec(
                        src.name,
                        src.info.effective_head,
                        tgt.name,
                        tgt.info.effective_head,
                    ),
                ),
            ), author));
    assert(is_rest(u2, t));
    lemma_rest(u2, t);
    let (j2, j3) = asks_step_both(u2, src, tgt, answer(t, k1), author);
    let k2 = t.len() - u2.len() + j2;
    assert(
        merge_spec(t.take(k2), repo, src, tgt, author) == Out::<Seq<Seq<char>>>::Ask(
            stepped(Act::JjWs, src.path, make_desc_spec(Op::Step, None)),
        )
    );
    if author is Some {
        assert(
            merge_spec(
                t.take(k2 + 1),
                repo,
                src,
                tgt,
                author,
            ) == Out::<Seq<Seq<char>>>::Ask(authored(src.path, author->0))
        );
    }
    let k3 = t.len() - u2.len() + j3;
    assert(
        merge_spec(t.take(k3), repo, src, tgt, author) == Out::<Seq<Seq<char>>>::Ask(
            put_on(Act::JjWs, tgt.path, answer(t, k1), make_desc_spec(Op::Step, None)),
        )
    );
    if author is Some {
        assert(
            merge_spec(
                t.take(k3 + 1),
                repo,
                src,
                tgt,
                author,
            ) == Out::<Seq<Seq<char>>>::Ask(authored(tgt.path, author->0))
        );
    }
    (k0, k1, k2, k3)
}

pub proof fn asks_merge_abandon_old(
    t: Trace,
    repo: Seq<char>,
    src: WsRefV,
    tgt: WsRefV,
    author: Option<Seq<char>>,
) -> (r: (int, int, int, int))
    requires
        merge_abandon_parents_old_spec(t, repo, src, tgt, author) is Got,
    ensures
        0 <= r.0 < r.1 < r.2 < r.3 < t.len(),
        merge_abandon_parents_old_spec(
            t.take(r.0),
            repo,
            src,
            tgt,
            author,
        ) == Out::<Seq<Seq<char>>>::Ask(merged(
            src.path,
            seq![src.info.actual_head, tgt.info.actual_head],
            make_desc_spec(
                Op::Merge,
                Some(
                    tgt.name + "@"@ + tgt.info.effective_head + " into "@ + src.name + "@"@
                        + src.info.effective_head,
                ),
            ),
        )),
        t[r.0].kind == Kind::Done,
        author is Some ==> r.0 + 1 < t.len() && merge_abandon_parents_old_spec(
            t.take(r.0 + 1),
            repo,
            src,
            tgt,
            author,
        ) == Out::<Seq<Seq<char>>>::Ask(
            authored(src.path, author->0),
        ) && t[r.0 + 1].kind == Kind::Done,
        merge_abandon_parents_old_spec(t.take(r.1), repo, src, tgt, author) == Out::<Seq<Seq<char>>>::Ask(
            looked_up(Act::JjWs, src.path, "@"@, "change_id"@),
        ),
        t[r.1].kind == Kind::Done,
        merge_abandon_parents_old_spec(t.take(r.2), repo, src, tgt, author) == Out::<Seq<Seq<char>>>::Ask(
            put_on(Act::JjWs, src.path, answer(t, r.1), make_desc_spec(Op::Step, None)),
        ),
        t[r.2].kind == Kind::Done,
        author is Some ==> r.2 + 1 < t.len() && merge_abandon_parents_old_spec(
            t.take(r.2 + 1),
            repo,
            src,
            tgt,
            author,
        ) == Out::<Seq<Seq<char>>>::Ask(
            authored(src.path, author->0),
        ) && t[r.2 + 1].kind == Kind::Done,
        merge_abandon_parents_old_spec(t.take(r.3), repo, src, tgt, author) == Out::<Seq<Seq<char>>>::Ask(
            put_on(Act::JjWs, tgt.path, answer(t, r.1), make_desc_spec(Op::Step, None)),
        ),
        t[r.3].kind == Kind::Done,
        author is Some ==> r.3 + 1 < t.len() && merge_abandon_parents_old_spec(
            t.take(r.3 + 1),
            repo,
            src,
            tgt,
            author,
        ) == Out::<Seq<Seq<char>>>::Ask(
            authored(tgt.path, author->0),
        ) && t[r.3 + 1].kind == Kind::Done,
{
    broadcast use {
        replays_find_abandon_trivial_heads,
        replays_new_merge,
        replays_new_on_in_workspace,
        replays_snapshot_ws,
        group_rest,
    };

    reveal(merge_abandon_parents_old_spec);
    let u0 = left(snapshot_ws_spec(t, tgt.path));
    assert(is_rest(u0, t));
    lemma_rest(u0, t);
    let (j0, j1) = asks_new_merge(u0, src.path, seq![
        src.info.actual_head,
        tgt.info.actual_head,
    ], make_desc_spec(
                Op::Merge,
                Some(
                    tgt.name + "@"@ + tgt.info.effective_head + " into "@ + src.name + "@"@
                        + src.info.effective_head,
                ),
            ), author);
    let k0 = t.len() - u0.len() + j0;
    assert(merge_abandon_parents_old_spec(
        t.take(k0),
        repo,
        src,
        tgt,
        author,
    ) == Out::<Seq<Seq<char>>>::Ask(merged(
            src.path,
            seq![src.info.actual_head, tgt.info.actual_head],
            make_desc_spec(
                Op::Merge,
                Some(
                    tgt.name + "@"@ + tgt.info.effective_head + " into "@ + src.name + "@"@
                        + src.info.effective_head,
                ),
            ),
        )));
    if author is Some {
        assert(
            merge_abandon_parents_old_spec(
                t.take(k0 + 1),
                repo,
                src,
                tgt,
                author,
            ) == Out::<Seq<Seq<char>>>::Ask(authored(src.path, author->0))
        );
    }
    let k1 = t.len() - u0.len() + j1;
    assert(
        merge_abandon_parents_old_spec(t.take(k1), repo, src, tgt, author) == Out::<Seq<Seq<char>>>::Ask(
            looked_up(Act::JjWs, src.path, "@"@, "change_id"@),
        )
    );
    let u2 = left(new_merge_spec(u0, src.path, seq![
        src.info.actual_head,
        tgt.info.actual_head,
    ], make_desc_spec(
                Op::Merge,
                Some(
                    tgt.name + "@"@ + tgt.info.effective_head + " into "@ + src.name + "@"@
                        + src.info.effective_head,
                ),
            ), author));
    assert(is_rest(u2, t));
    lemma_rest(u2, t);
    let j2 = asks_new_on(u2, src.path, answer(t, k1), make_desc_spec(Op::Step, None), author);
    let k2 = t.len() - u2.len() + j2;
    assert(
        merge_abandon_parents_old_spec(t.take(k2), repo, src, tgt, author) == Out::<Seq<Seq<char>>>::Ask(
            put_on(Act::JjWs, src.path, answer(t, k1), make_desc_spec(Op::Step, None)),
        )
    );
    if author is Some {
        assert(
            merge_abandon_parents_old_spec(
                t.take(k2 + 1),
                repo,
                src,
                tgt,
                author,
            ) == Out::<Seq<Seq<char>>>::Ask(authored(src.path, author->0))
        );
    }
    let u3 = left(
        new_on_in_workspace_spec(
            u2,
            src.path,
            answer(t, k1),
            make_desc_spec(Op::Step, None),
            author,
        ),
    );
    assert(is_rest(u3, t));
    lemma_rest(u3, t);
    let j3 = asks_new_on(u3, tgt.path, answer(t, k1), make_desc_spec(Op::Step, None), author);
    let k3 = t.len() - u3.len() + j3;
    assert(
        merge_abandon_parents_old_spec(t.take(k3), repo, src, tgt, author) == Out::<Seq<Seq<char>>>::Ask(
            put_on(Act::JjWs, tgt.path, answer(t, k1), make_desc_spec(Op::Step, None)),
        )
    );
    if author is Some {
        assert(
            merge_abandon_parents_old_spec(
                t.take(k3 + 1),
                repo,
                src,
                tgt,
                author,
            ) == Out::<Seq<Seq<char>>>::Ask(authored(tgt.path, author->0))
        );
    }
    (k0, k1, k2, k3)
}

pub proof fn asks_merge_close(
    t: Trace,
    repo: Seq<char>,
    src: WsRefV,
    tgt: WsRefV,
    author: Option<Seq<char>>,
) -> (r: int)
    requires
        merge_close_spec(t, repo, src, tgt, author) is Got,
    ensures
        0 <= r < t.len(),
        merge_close_spec(t.take(r), repo, src, tgt, author) == Out::<Seq<Seq<char>>>::Ask(merged(
            tgt.path,
            seq![src.info.effective_head, tgt.info.effective_head],
            make_desc_spec(
                Op::Merge,
                Some(
                    merge_detail_spec(
                        src.name,
                        src.info.effective_head,
                        tgt.name,
                        tgt.info.effective_head,
                    ),
                ),
            ),
        )),
        t[r].kind == Kind::Done,
        author is Some ==> r + 1 < t.len() && merge_close_spec(
            t.take(r + 1),
            repo,
            src,
            tgt,
            author,
        ) == Out::<Seq<Seq<char>>>::Ask(
            authored(tgt.path, author->0),
        ) && t[r + 1].kind == Kind::Done,
{
    broadcast use {
        replays_find_abandon_trivial_heads,
        replays_forget_workspace,
        replays_new_merge,
        group_rest,
    };

    reveal(merge_close_spec);
    let u0 = left(forget_workspace_spec(t, repo, src.path, src.name));
    assert(is_rest(u0, t));
    lemma_rest(u0, t);
    let (j0, j1) = asks_new_merge(u0, tgt.path, seq![
        src.info.effective_head,
        tgt.info.effective_head,
    ], make_desc_spec(
                Op::Merge,
                Some(
                    merge_detail_spec(
                        src.name,
                        src.info.effective_head,
                        tgt.name,
                        tgt.info.effective_head,
                    ),
                ),
            ), author);
    let k0 = t.len() - u0.len() + j0;
    assert(merge_close_spec(
        t.take(k0),
        repo,
        src,
        tgt,
        author,
    ) == Out::<Seq<Seq<char>>>::Ask(merged(
            tgt.path,
            seq![src.info.effective_head, tgt.info.effective_head],
            make_desc_spec(
                Op::Merge,
                Some(
                    merge_detail_spec(
                        src.name,
                        src.info.effective_head,
                        tgt.name,
                        tgt.info.effective_head,
                    ),
                ),
            ),
        )));
    if author is Some {
        assert(
            merge_close_spec(
                t.take(k0 + 1),
                repo,
                src,
                tgt,
                author,
            ) == Out::<Seq<Seq<char>>>::Ask(authored(tgt.path, author->0))
        );
    }
    k0
}

pub proof fn asks_merge_squash_close(
    t: Trace,
    repo: Seq<char>,
    src: WsRefV,
    tgt: WsRefV,
    lca: Seq<char>,
    author: Option<Seq<char>>,
) -> (r: (int, int, int, int, int))
    requires
        merge_squash_close_spec(t, repo, src, tgt, lca, author) is Got,
    ensures
        0 <= r.0 < r.1 < r.2 < r.3 < r.4 < t.len(),
        merge_squash_close_spec(
            t.take(r.0),
            repo,
            src,
            tgt,
            lca,
            author,
        ) == Out::<Seq<Seq<char>>>::Ask(looked_up(
            Act::JjRepo,
            repo,
            "latest(roots("@ + lca + ".."@ + src.info.effective_head + "))"@,
            "change_id ++ \"\\n\""@,
        )),
        t[r.0].kind == Kind::Done,
        merge_squash_close_spec(t.take(r.1), repo, src, tgt, lca, author) == Out::<Seq<Seq<char>>>::Ask(
            looked_up(Act::JjRepo, repo, lca + ".."@ + src.info.effective_head, TMPL_ID_DESC@),
        ),
        t[r.1].kind == Kind::Done,
        merge_squash_close_spec(
            t.take(r.2),
            repo,
            src,
            tgt,
            lca,
            author,
        ) == Out::<Seq<Seq<char>>>::Ask(squashed(
            repo,
            lca + ".."@ + src.info.effective_head,
            answer(t, r.0),
            squash_message(
                src.name,
                src.info.effective_head,
                tgt.name,
                tgt.info.effective_head,
                answer(t, r.1),
            ),
        )),
        t[r.2].kind == Kind::Done,
        merge_squash_close_spec(
            t.take(r.3),
            repo,
            src,
            tgt,
            lca,
            author,
        ) == Out::<Seq<Seq<char>>>::Ask(merged(
            tgt.path,
            seq![answer(t, r.0), tgt.info.effective_head],
            make_desc_spec(
                Op::Merge,
                Some(
                    merge_detail_spec(src.name, answer(t, r.0), tgt.name, tgt.info.effective_head),
                ),
            ),
        )),
        t[r.3].kind == Kind::Done,
        author is Some ==> r.3 + 1 < t.len() && merge_squash_close_spec(
            t.take(r.3 + 1),
            repo,
            src,
            tgt,
            lca,
            author,
        ) == Out::<Seq<Seq<char>>>::Ask(
            authored(tgt.path, author->0),
        ) && t[r.3 + 1].kind == Kind::Done,
        merge_squash_close_spec(t.take(r.4), repo, src, tgt, lca, author) == Out::<Seq<Seq<char>>>::Ask(
            looked_up(Act::JjWs, tgt.path, "@"@, "change_id"@),
        ),
        t[r.4].kind == Kind::Done,
{
    broadcast use {
        replays_find_abandon_trivial_heads,
        replays_forget_workspace,
        replays_new_merge,
        replays_squash_chain,
        group_rest,
    };

    reveal(merge_squash_close_spec);
    let u0 = left(forget_workspace_spec(t, repo, src.path, src.name));
    assert(is_rest(u0, t));
    lemma_rest(u0, t);
    let (j0, j1, j2) = asks_squash_chain(
        u0,
        repo,
        src.name,
        src.info.effective_head,
        tgt.name,
        tgt.info.effective_head,
        lca,
    );
    let k0 = t.len() - u0.len() + j0;
    assert(merge_squash_close_spec(
        t.take(k0),
        repo,
        src,
        tgt,
        lca,
        author,
    ) == Out::<Seq<Seq<char>>>::Ask(looked_up(
            Act::JjRepo,
            repo,
            "latest(roots("@ + lca + ".."@ + src.info.effective_head + "))"@,
            "change_id ++ \"\\n\""@,
        )));
    let k1 = t.len() - u0.len() + j1;
    assert(
        merge_squash_close_spec(t.take(k1), repo, src, tgt, lca, author) == Out::<Seq<Seq<char>>>::Ask(
            looked_up(Act::JjRepo, repo, lca + ".."@ + src.info.effective_head, TMPL_ID_DESC@),
        )
    );
    let k2 = t.len() - u0.len() + j2;
    assert(merge_squash_close_spec(
        t.take(k2),
        repo,
        src,
        tgt,
        lca,
        author,
    ) == Out::<Seq<Seq<char>>>::Ask(squashed(
            repo,
            lca + ".."@ + src.info.effective_head,
            answer(t, k0),
            squash_message(
                src.name,
                src.info.effective_head,
                tgt.name,
                tgt.info.effective_head,
                answer(t, k1),
            ),
        )));
    let u3 = left(
        squash_chain_spec(
            u0,
            repo,
            src.name,
            src.info.effective_head,
            tgt.name,
            tgt.info.effective_head,
            lca,
        ),
    );
    assert(is_rest(u3, t));
    lemma_rest(u3, t);
    let (j3, j4) = asks_new_merge(u3, tgt.path, seq![
        answer(t, k0),
        tgt.info.effective_head,
    ], make_desc_spec(
                Op::Merge,
                Some(merge_detail_spec(src.name, answer(t, k0), tgt.name, tgt.info.effective_head)),
            ), author);
    let k3 = t.len() - u3.len() + j3;
    assert(merge_squash_close_spec(
        t.take(k3),
        repo,
        src,
        tgt,
        lca,
        author,
    ) == Out::<Seq<Seq<char>>>::Ask(merged(
            tgt.path,
            seq![answer(t, k0), tgt.info.effective_head],
            make_desc_spec(
                Op::Merge,
                Some(merge_detail_spec(src.name, answer(t, k0), tgt.name, tgt.info.effective_head)),
            ),
        )));
    if author is Some {
        assert(
            merge_squash_close_spec(
                t.take(k3 + 1),
                repo,
                src,
                tgt,
                lca,
                author,
            ) == Out::<Seq<Seq<char>>>::Ask(authored(tgt.path, author->0))
        );
    }
    let k4 = t.len() - u3.len() + j4;
    assert(
        merge_squash_close_spec(t.take(k4), repo, src, tgt, lca, author) == Out::<Seq<Seq<char>>>::Ask(
            looked_up(Act::JjWs, tgt.path, "@"@, "change_id"@),
        )
    );
    (k0, k1, k2, k3, k4)
}

#[verifier::rlimit(60)]
pub proof fn asks_merge_squash(
    t: Trace,
    repo: Seq<char>,
    src: WsRefV,
    tgt: WsRefV,
    lca: Seq<char>,
    author: Option<Seq<char>>,
) -> (r: (int, int, int, int, int, int, int))
    requires
        merge_squash_spec(t, repo, src, tgt, lca, author) is Got,
    ensures
        0 <= r.0 < r.1 < r.2 < r.3 < r.4 < r.5 < r.6 < t.len(),
        merge_squash_spec(
            t.take(r.0),
            repo,
            src,
            tgt,
            lca,
            author,
        ) == Out::<Seq<Seq<char>>>::Ask(looked_up(
            Act::JjRepo,
            repo,
            "latest(roots("@ + lca + ".."@ + src.info.effective_head + "))"@,
            "change_id ++ \"\\n\""@,
        )),
        t[r.0].kind == Kind::Done,
        merge_squash_spec(t.take(r.1), repo, src, tgt, lca, author) == Out::<Seq<Seq<char>>>::Ask(
            looked_up(Act::JjRepo, repo, lca + ".."@ + src.info.effective_head, TMPL_ID_DESC@),
        ),
        t[r.1].kind == Kind::Done,
        merge_squash_spec(
            t.take(r.2),
            repo,
            src,
            tgt,
            lca,
            author,
        ) == Out::<Seq<Seq<char>>>::Ask(squashed(
            repo,
            lca + ".."@ + src.info.effective_head,
            answer(t, r.0),
            squash_message(
                src.name,
                src.info.effective_head,
                tgt.name,
                tgt.info.effective_head,
                answer(t, r.1),
            ),
        )),
        t[r.2].kind == Kind::Done,
        merge_squash_spec(
            t.take(r.3),
            repo,
            src,
            tgt,
            lca,
            author,
        ) == Out::<Seq<Seq<char>>>::Ask(merged(
            src.path,
            seq![answer(t, r.0), tgt.info.effective_head],
            make_desc_spec(
                Op::Merge,
                Some(
                    merge_detail_spec(src.name, answer(t, r.0), tgt.name, tgt.info.effective_head),
                ),
            ),
        )),
        t[r.3].kind == Kind::Done,
        author is Some ==> r.3 + 1 < t.len() && merge_squash_spec(
            t.take(r.3 + 1),
            repo,
            src,
            tgt,
            lca,
            author,
        ) == Out::<Seq<Seq<char>>>::Ask(
            authored(src.path, author->0),
        ) && t[r.3 + 1].kind == Kind::Done,
        merge_squash_spec(t.take(r.4), repo, src, tgt, lca, author) == Out::<Seq<Seq<char>>>::Ask(
            looked_up(Act::JjWs, src.path, "@"@, "change_id"@),
        ),
        t[r.4].kind == Kind::Done,
        merge_squash_spec(t.take(r.5), repo, src, tgt, lca, author) == Out::<Seq<Seq<char>>>::Ask(
            stepped(Act::JjWs, src.path, make_desc_spec(Op::Step, None)),
        ),
        t[r.5].kind == Kind::Done,
        author is Some ==> r.5 + 1 < t.len() && merge_squash_spec(
            t.take(r.5 + 1),
            repo,
            src,
            tgt,
            lca,
            author,
        ) == Out::<Seq<Seq<char>>>::Ask(
            authored(src.path, author->0),
        ) && t[r.5 + 1].kind == Kind::Done,
        merge_squash_spec(t.take(r.6), repo, src, tgt, lca, author) == Out::<Seq<Seq<char>>>::Ask(
            put_on(Act::JjWs, tgt.path, answer(t, r.4), make_desc_spec(Op::Step, None)),
        ),
        t[r.6].kind == Kind::Done,
        author is Some ==> r.6 + 1 < t.len() && merge_squash_spec(
            t.take(r.6 + 1),
            repo,
            src,
            tgt,
            lca,
            author,
        ) == Out::<Seq<Seq<char>>>::Ask(
            authored(tgt.path, author->0),
        ) && t[r.6 + 1].kind == Kind::Done,
{
    broadcast use {
        replays_find_abandon_trivial_heads,
        replays_new_merge,
        replays_snapshot_ws,
        replays_squash_chain,
        replays_step_both,
        group_rest,
    };

    reveal(merge_squash_spec);
    let u0 = left(snapshot_ws_spec(t, tgt.path));
    assert(is_rest(u0, t));
    lemma_rest(u0, t);
    let (j0, j1, j2) = asks_squash_chain(
        u0,
        repo,
        src.name,
        src.info.effective_head,
        tgt.name,
        tgt.info.effective_head,
        lca,
    );
    let k0 = t.len() - u0.len() + j0;
    assert(merge_squash_spec(
        t.take(k0),
        repo,
        src,
        tgt,
        lca,
        author,
    ) == Out::<Seq<Seq<char>>>::Ask(looked_up(
            Act::JjRepo,
            repo,
            "latest(roots("@ + lca + ".."@ + src.info.effective_head + "))"@,
            "change_id ++ \"\\n\""@,
        )));
    let k1 = t.len() - u0.len() + j1;
    assert(
        merge_squash_spec(t.take(k1), repo, src, tgt, lca, author) == Out::<Seq<Seq<char>>>::Ask(
            looked_up(Act::JjRepo, repo, lca + ".."@ + src.info.effective_head, TMPL_ID_DESC@),
        )
    );
    let k2 = t.len() - u0.len() + j2;
    assert(merge_squash_spec(
        t.take(k2),
        repo,
        src,
        tgt,
        lca,
        author,
    ) == Out::<Seq<Seq<char>>>::Ask(squashed(
            repo,
            lca + ".."@ + src.info.effective_head,
            answer(t, k0),
            squash_message(
                src.name,
                src.info.effective_head,
                tgt.name,
                tgt.info.effective_head,
                answer(t, k1),
            ),
        )));
    let u3 = left(
        squash_chain_spec(
            u0,
            repo,
            src.name,
            src.info.effective_head,
            tgt.name,
            tgt.info.effective_head,
            lca,
        ),
    );
    assert(is_rest(u3, t));
    lemma_rest(u3, t);
    let (j3, j4) = asks_new_merge(u3, src.path, seq![
        answer(t, k0),
        tgt.info.effective_head,
    ], make_desc_spec(
                Op::Merge,
                Some(merge_detail_spec(src.name, answer(t, k0), tgt.name, tgt.info.effective_head)),
            ), author);
    let k3 = t.len() - u3.len() + j3;
    assert(merge_squash_spec(
        t.take(k3),
        repo,
        src,
        tgt,
        lca,
        author,
    ) == Out::<Seq<Seq<char>>>::Ask(merged(
            src.path,
            seq![answer(t, k0), tgt.info.effective_head],
            make_desc_spec(
                Op::Merge,
                Some(merge_detail_spec(src.name, answer(t, k0), tgt.name, tgt.info.effective_head)),
            ),
        )));
    if author is Some {
        assert(
            merge_squash_spec(
                t.take(k3 + 1),
                repo,
                src,
                tgt,
                lca,
                author,
            ) == Out::<Seq<Seq<char>>>::Ask(authored(src.path, author->0))
        );
    }
    let k4 = t.len() - u3.len() + j4;
    assert(
        merge_squash_spec(t.take(k4), repo, src, tgt, lca, author) == Out::<Seq<Seq<char>>>::Ask(
            looked_up(Act::JjWs, src.path, "@"@, "change_id"@),
        )
    );
    let u5 = left(new_merge_spec(u3, src.path, seq![
        answer(t, k0),
        tgt.info.effective_head,
    ], make_desc_spec(
                Op::Merge,
                Some(merge_detail_spec(src.name, answer(t, k0), tgt.name, tgt.info.effective_head)),
            ), author));
    assert(is_rest(u5, t));
    lemma_rest(u5, t);
    let (j5, j6) = asks_step_both(u5, src, tgt, answer(t, k4), author);
    let k5 = t.len() - u5.len() + j5;
    assert(
        merge_squash_spec(t.take(k5), repo, src, tgt, lca, author) == Out::<Seq<Seq<char>>>::Ask(
            stepped(Act::JjWs, src.path, make_desc_spec(Op::Step, None)),
        )
    );
    if author is Some {
        assert(
            merge_squash_spec(
                t.take(k5 + 1),
                repo,
                src,
                tgt,
                lca,
                author,
            ) == Out::<Seq<Seq<char>>>::Ask(authored(src.path, author->0))
        );
    }
    let k6 = t.len() - u5.len() + j6;
    assert(
        merge_squash_spec(t.take(k6), repo, src, tgt, lca, author) == Out::<Seq<Seq<char>>>::Ask(
            put_on(Act::JjWs, tgt.path, answer(t, k4), make_desc_spec(Op::Step, None)),
        )
    );
    if author is Some {
        assert(
            merge_squash_spec(
                t.take(k6 + 1),
                repo,
                src,
                tgt,
                lca,
                author,
            ) == Out::<Seq<Seq<char>>>::Ask(authored(tgt.path, author->0))
        );
    }
    (k0, k1, k2, k3, k4, k5, k6)
}

pub proof fn asks_fast_forward_close(
    t: Trace,
    repo: Seq<char>,
    src: WsRefV,
    tgt_path: Seq<char>,
    tgt_info: WorkspaceHeadInfoV,
) -> (r: int)
    requires
        fast_forward_close_spec(t, repo, src, tgt_path, tgt_info) is Got,
    ensures
        0 <= r < t.len(),
        fast_forward_close_spec(t.take(r), repo, src, tgt_path, tgt_info) == Out::<Seq<Seq<char>>>::Ask(
            edited(tgt_path, src.info.effective_head),
        ),
        t[r].kind == Kind::Done,
{
    broadcast use {
        replays_edit_workspace_head,
        replays_find_abandon_trivial_heads,
        replays_forget_workspace,
        group_rest,
    };

    reveal(fast_forward_close_spec);
    reveal(edit_workspace_head_spec);
    let u0 = left(forget_workspace_spec(t, repo, src.path, src.name));
    assert(is_rest(u0, t));
    lemma_rest(u0, t);
    assert(u0.take(0) =~= Seq::empty());
    let k0 = t.len() - u0.len();
    assert(
        fast_forward_close_spec(
            t.take(k0),
            repo,
            src,
            tgt_path,
            tgt_info,
        ) == Out::<Seq<Seq<char>>>::Ask(edited(tgt_path, src.info.effective_head))
    );
    k0
}

pub proof fn asks_rebase(
    t: Trace,
    repo: Seq<char>,
    src_info: WorkspaceHeadInfoV,
    tgt: WsRefV,
    lca: Seq<char>,
    author: Option<Seq<char>>,
) -> (r: int)
    requires
        rebase_spec(t, repo, src_info, tgt, lca, author) is Got,
    ensures
        0 <= r < t.len(),
        rebase_spec(t.take(r), repo, src_info, tgt, lca, author) == Out::<()>::Ask(rebased(
            repo,
            "roots("@ + lca + ".."@ + src_info.effective_head + ")"@,
            tgt.info.effective_head,
        )),
        t[r].kind == Kind::Done,
{
    broadcast use {replays_rebase_source, replays_step_head, group_rest};

    reveal(rebase_spec);
    reveal(rebase_source_spec);
    let u0 = t;
    assert(is_rest(u0, t));
    lemma_rest(u0, t);
    assert(u0.take(0) =~= Seq::empty());
    let k0 = t.len() - u0.len();
    assert(rebase_spec(t.take(k0), repo, src_info, tgt, lca, author) == Out::<()>::Ask(rebased(
            repo,
            "roots("@ + lca + ".."@ + src_info.effective_head + ")"@,
            tgt.info.effective_head,
        )));
    k0
}

pub proof fn asks_forward(
    t: Trace,
    repo: Seq<char>,
    behind: WsRefV,
    ahead: WsRefV,
    author: Option<Seq<char>>,
) -> (r: int)
    requires
        forward_spec(t, repo, behind, ahead, author) is Got,
    ensures
        0 <= r < t.len(),
        forward_spec(t.take(r), repo, behind, ahead, author) == Out::<Seq<Seq<char>>>::Ask(put_on(
            Act::JjWsLive,
            behind.path,
            ahead.info.effective_head,
            make_desc_spec(
                Op::FastForward,
                Some(
                    behind.name + "@ to "@ + ahead.name + "@"@ + ahead.info.effective_head,
                ),
            ),
        )),
        t[r].kind == Kind::Done,
        author is Some ==> r + 1 < t.len() && forward_spec(
            t.take(r + 1),
            repo,
            behind,
            ahead,
            author,
        ) == Out::<Seq<Seq<char>>>::Ask(
            authored(behind.path, author->0),
        ) && t[r + 1].kind == Kind::Done,
{
    broadcast use {
        replays_fast_forward,
        replays_find_abandon_trivial_heads,
        replays_make_head,
        replays_operations_guard,
        replays_step_head,
        group_rest,
    };

    reveal(forward_spec);
    reveal(fast_forward_spec);
    let u0 = left(guard_spec(t, repo, behind));
    assert(is_rest(u0, t));
    lemma_rest(u0, t);
    let j0 = asks_make_head(
        u0,
        repo,
        behind.name,
        behind.path,
        Some(ahead.info.effective_head),
        Op::FastForward,
        Some(behind.name + "@ to "@ + ahead.name + "@"@ + ahead.info.effective_head),
        author,
    );
    let k0 = t.len() - u0.len() + j0;
    assert(forward_spec(
        t.take(k0),
        repo,
        behind,
        ahead,
        author,
    ) == Out::<Seq<Seq<char>>>::Ask(put_on(
            Act::JjWsLive,
            behind.path,
            ahead.info.effective_head,
            make_desc_spec(
                Op::FastForward,
                Some(
                    behind.name + "@ to "@ + ahead.name + "@"@ + ahead.info.effective_head,
                ),
            ),
        )));
    if author is Some {
        assert(
            forward_spec(
                t.take(k0 + 1),
                repo,
                behind,
                ahead,
                author,
            ) == Out::<Seq<Seq<char>>>::Ask(authored(behind.path, author->0))
        );
    }
    k0
}

pub proof fn asks_transfer_forward(
    t: Trace,
    repo: Seq<char>,
    role: Seq<char>,
    behind: WsRefV,
    ahead: WsRefV,
    author: Option<Seq<char>>,
) -> (r: int)
    requires
        crate::commands::transfer::forward_spec(t, repo, role, behind, ahead, author) is Got,
    ensures
        0 <= r < t.len(),
        crate::commands::transfer::forward_spec(
            t.take(r),
            repo,
            role,
            behind,
            ahead,
            author,
        ) == Out::<Seq<Seq<char>>>::Ask(put_on(
            Act::JjWsLive,
            behind.path,
            ahead.info.effective_head,
            make_desc_spec(
                Op::FastForward,
                Some(
                    behind.name + "@ to "@ + ahead.name + "@"@ + ahead.info.effective_head,
                ),
            ),
        )),
        t[r].kind == Kind::Done,
        author is Some ==> r + 1 < t.len() && crate::commands::transfer::forward_spec(
            t.take(r + 1),
            repo,
            role,
            behind,
            ahead,
            author,
        ) == Out::<Seq<Seq<char>>>::Ask(
            authored(behind.path, author->0),
        ) && t[r + 1].kind == Kind::Done,
{
    broadcast use {
        replays_fast_forward,
        replays_find_abandon_trivial_heads,
        replays_make_head,
        replays_step_head,
        replays_transfer_guard,
        group_rest,
    };

    reveal(crate::commands::transfer::forward_spec);
    reveal(fast_forward_spec);
    let u0 = left(crate::commands::transfer::guard_spec(t, repo, role, behind));
    assert(is_rest(u0, t));
    lemma_rest(u0, t);
    let j0 = asks_make_head(
        u0,
        repo,
        behind.name,
        behind.path,
        Some(ahead.info.effective_head),
        Op::FastForward,
        Some(behind.name + "@ to "@ + ahead.name + "@"@ + ahead.info.effective_head),
        author,
    );
    let k0 = t.len() - u0.len() + j0;
    assert(crate::commands::transfer::forward_spec(
               t.take(k0),
               repo,
               role,
               behind,
               ahead,
               author,
           ) == Out::<Seq<Seq<char>>>::Ask(put_on(
            Act::JjWsLive,
            behind.path,
            ahead.info.effective_head,
            make_desc_spec(
                Op::FastForward,
                Some(
                    behind.name + "@ to "@ + ahead.name + "@"@ + ahead.info.effective_head,
                ),
            ),
        )));
    if author is Some {
        assert(crate::commands::transfer::forward_spec(
                   t.take(k0 + 1),
                   repo,
                   role,
                   behind,
                   ahead,
                   author,
               ) == Out::<Seq<Seq<char>>>::Ask(authored(behind.path, author->0)));
    }
    k0
}

pub proof fn asks_close_by_merge(t: Trace, params: CloseParamsV, info: SyncModeInfoV) -> (r: int)
    requires
        close_by_merge_spec(t, params, info) is Got,
    ensures
        0 <= r < t.len(),
        close_by_merge_spec(t.take(r), params, info) == Out::<(
            Seq<Seq<char>>,
            Option<Seq<char>>,
        )>::Ask(merged(
            params.target_path,
            seq![info.src_effective_head, info.tgt_effective_head],
            make_desc_spec(
                Op::Merge,
                Some(
                    merge_detail_spec(
                        params.source_name,
                        info.src_effective_head,
                        params.target_name,
                        info.tgt_effective_head,
                    ),
                ),
            ),
        )),
        t[r].kind == Kind::Done,
        params.author is Some ==> r + 1 < t.len() && close_by_merge_spec(t.take(r + 1), params, info) == Out::<(
            Seq<Seq<char>>,
            Option<Seq<char>>,
        )>::Ask(
            authored(params.target_path, params.author->0),
        ) && t[r + 1].kind == Kind::Done,
{
    broadcast use {
        replays_merge_close,
        replays_source_warnings,
        replays_update_workspace_stale,
        group_rest,
    };

    reveal(close_by_merge_spec);
    let u0 = left(
        source_warnings_spec(
            t,
            params,
            "; it will be preserved as a merge parent but may be hard to find"@,
        ),
    );
    assert(is_rest(u0, t));
    lemma_rest(u0, t);
    let j0 = asks_merge_close(
        u0,
        params.repo_root,
        crate::commands::close::source_ref(params, info),
        crate::commands::close::target_ref(params, info),
        params.author,
    );
    let k0 = t.len() - u0.len() + j0;
    assert(close_by_merge_spec(t.take(k0), params, info) == Out::<(
        Seq<Seq<char>>,
        Option<Seq<char>>,
    )>::Ask(merged(
            params.target_path,
            seq![info.src_effective_head, info.tgt_effective_head],
            make_desc_spec(
                Op::Merge,
                Some(
                    merge_detail_spec(
                        params.source_name,
                        info.src_effective_head,
                        params.target_name,
                        info.tgt_effective_head,
                    ),
                ),
            ),
        )));
    if params.author is Some {
        assert(
            close_by_merge_spec(t.take(k0 + 1), params, info) == Out::<(Seq<Seq<char>>, Option<Seq<char>>)>::Ask(
                authored(params.target_path, params.author->0),
            )
        );
    }
    k0
}

pub proof fn asks_close_by_squash(
    t: Trace,
    params: CloseParamsV,
    info: SyncModeInfoV,
) -> (r: (int, int, int, int, int))
    requires
        close_by_squash_spec(t, params, info) is Got,
    ensures
        0 <= r.0 < r.1 < r.2 < r.3 < r.4 < t.len(),
        close_by_squash_spec(t.take(r.0), params, info) == Out::<(
            Seq<Seq<char>>,
            Option<Seq<char>>,
        )>::Ask(looked_up(
            Act::JjRepo,
            params.repo_root,
            "latest(roots("@ + info.lca + ".."@ + info.src_effective_head + "))"@,
            "change_id ++ \"\\n\""@,
        )),
        t[r.0].kind == Kind::Done,
        close_by_squash_spec(t.take(r.1), params, info) == Out::<(Seq<Seq<char>>, Option<Seq<char>>)>::Ask(
            looked_up(
                Act::JjRepo,
                params.repo_root,
                info.lca + ".."@ + info.src_effective_head,
                TMPL_ID_DESC@,
            ),
        ),
        t[r.1].kind == Kind::Done,
        close_by_squash_spec(t.take(r.2), params, info) == Out::<(
            Seq<Seq<char>>,
            Option<Seq<char>>,
        )>::Ask(squashed(
            params.repo_root,
            info.lca + ".."@ + info.src_effective_head,
            answer(t, r.0),
            squash_message(
                params.source_name,
                info.src_effective_head,
                params.target_name,
                info.tgt_effective_head,
                answer(t, r.1),
            ),
        )),
        t[r.2].kind == Kind::Done,
        close_by_squash_spec(t.take(r.3), params, info) == Out::<(
            Seq<Seq<char>>,
            Option<Seq<char>>,
        )>::Ask(merged(
            params.target_path,
            seq![answer(t, r.0), info.tgt_effective_head],
            make_desc_spec(
                Op::Merge,
                Some(
                    merge_detail_spec(
                        params.source_name,
                        answer(t, r.0),
                        params.target_name,
                        info.tgt_effective_head,
                    ),
                ),
            ),
        )),
        t[r.3].kind == Kind::Done,
        params.author is Some ==> r.3 + 1 < t.len() && close_by_squash_spec(t.take(r.3 + 1), params, info) == Out::<(
            Seq<Seq<char>>,
            Option<Seq<char>>,
        )>::Ask(
            authored(params.target_path, params.author->0),
        ) && t[r.3 + 1].kind == Kind::Done,
        close_by_squash_spec(t.take(r.4), params, info) == Out::<(Seq<Seq<char>>, Option<Seq<char>>)>::Ask(
            looked_up(Act::JjWs, params.target_path, "@"@, "change_id"@),
        ),
        t[r.4].kind == Kind::Done,
{
    broadcast use {
        replays_merge_squash_close,
        replays_source_warnings,
        replays_update_workspace_stale,
        group_rest,
    };

    reveal(close_by_squash_spec);
    let u0 = left(
        source_warnings_spec(
            t,
            params,
            "; it will be squashed but the revision may be hard to find"@,
        ),
    );
    let (j0, j1, j2, j3, j4) = asks_merge_squash_close(
        u0,
        params.repo_root,
        crate::commands::close::source_ref(params, info),
        crate::commands::close::target_ref(params, info),
        info.lca,
        params.author,
    );
    assert(is_rest(u0, t));
    lemma_rest(u0, t);
    let k0 = t.len() - u0.len() + j0;
    assert(close_by_squash_spec(t.take(k0), params, info) == Out::<(
        Seq<Seq<char>>,
        Option<Seq<char>>,
    )>::Ask(looked_up(
            Act::JjRepo,
            params.repo_root,
            "latest(roots("@ + info.lca + ".."@ + info.src_effective_head + "))"@,
            "change_id ++ \"\\n\""@,
        )));
    let k1 = t.len() - u0.len() + j1;
    assert(
        close_by_squash_spec(t.take(k1), params, info) == Out::<(Seq<Seq<char>>, Option<Seq<char>>)>::Ask(
            looked_up(
                Act::JjRepo,
                params.repo_root,
                info.lca + ".."@ + info.src_effective_head,
                TMPL_ID_DESC@,
            ),
        )
    );
    let k2 = t.len() - u0.len() + j2;
    assert(close_by_squash_spec(t.take(k2), params, info) == Out::<(
        Seq<Seq<char>>,
        Option<Seq<char>>,
    )>::Ask(squashed(
            params.repo_root,
            info.lca + ".."@ + info.src_effective_head,
            answer(t, k0),
            squash_message(
                params.source_name,
                info.src_effective_head,
                params.target_name,
                info.tgt_effective_head,
                answer(t, k1),
            ),
        )));
    let k3 = t.len() - u0.len() + j3;
    assert(close_by_squash_spec(t.take(k3), params, info) == Out::<(
        Seq<Seq<char>>,
        Option<Seq<char>>,
    )>::Ask(merged(
            params.target_path,
            seq![answer(t, k0), info.tgt_effective_head],
            make_desc_spec(
                Op::Merge,
                Some(
                    merge_detail_spec(
                        params.source_name,
                        answer(t, k0),
                        params.target_name,
                        info.tgt_effective_head,
                    ),
                ),
            ),
        )));
    if params.author is Some {
        assert(
            close_by_squash_spec(t.take(k3 + 1), params, info) == Out::<(Seq<Seq<char>>, Option<Seq<char>>)>::Ask(
                authored(params.target_path, params.author->0),
            )
        );
    }
    let k4 = t.len() - u0.len() + j4;
    assert(
        close_by_squash_spec(t.take(k4), params, info) == Out::<(Seq<Seq<char>>, Option<Seq<char>>)>::Ask(
            looked_up(Act::JjWs, params.target_path, "@"@, "change_id"@),
        )
    );
    (k0, k1, k2, k3, k4)
}

pub proof fn asks_close_by_fast_forward(
    t: Trace,
    params: CloseParamsV,
    info: SyncModeInfoV,
) -> (r: int)
    requires
        close_by_fast_forward_spec(t, params, info) is Got,
    ensures
        0 <= r < t.len(),
        close_by_fast_forward_spec(t.take(r), params, info) == Out::<(Seq<Seq<char>>, Option<Seq<char>>)>::Ask(
            edited(params.target_path, info.src_effective_head),
        ),
        t[r].kind == Kind::Done,
{
    broadcast use {
        replays_fast_forward_close,
        replays_target_guard,
        replays_update_workspace_stale,
        group_rest,
    };

    reveal(close_by_fast_forward_spec);
    let u0 = left(target_guard_spec(t, params, info));
    assert(is_rest(u0, t));
    lemma_rest(u0, t);
    let j0 = asks_fast_forward_close(
        u0,
        params.repo_root,
        crate::commands::close::source_ref(params, info),
        params.target_path,
        tgt_heads(info),
    );
    let k0 = t.len() - u0.len() + j0;
    assert(
        close_by_fast_forward_spec(t.take(k0), params, info) == Out::<(Seq<Seq<char>>, Option<Seq<char>>)>::Ask(
            edited(params.target_path, info.src_effective_head),
        )
    );
    k0
}

pub proof fn asks_abandon_surviving(t: Trace, repo: Seq<char>, ids: Seq<Seq<char>>) -> (r: int)
    requires
        abandon_surviving_spec(t, repo, ids) is Got,
        ids.len() != 0,
        filter_existing_revisions_spec(t, repo, ids)->Got_0.len() != 0,
    ensures
        0 <= r < t.len(),
        abandon_surviving_spec(t.take(r), repo, ids) == Out::<()>::Ask(
            abandoned(repo, filter_existing_revisions_spec(t, repo, ids)->Got_0),
        ),
        t[r].kind == Kind::Done,
        1 <= r,
{
    broadcast use {replays_abandon_revisions, replays_filter_existing_revisions, group_rest};

    reveal(abandon_surviving_spec);
    reveal(abandon_revisions_spec);
    reveal(filter_existing_revisions_spec);
    let u0 = left(filter_existing_revisions_spec(t, repo, ids));
    assert(is_rest(u0, t));
    lemma_rest(u0, t);
    assert(u0.take(0) =~= Seq::empty());
    let k0 = t.len() - u0.len();
    assert(
        abandon_surviving_spec(t.take(k0), repo, ids) == Out::<()>::Ask(
            abandoned(repo, filter_existing_revisions_spec(t, repo, ids)->Got_0),
        )
    );
    k0
}

pub proof fn asks_existing(t: Trace, repo: Seq<char>, change_ids: Seq<Seq<char>>) -> (r: int)
    requires
        filter_existing_revisions_spec(t, repo, change_ids) is Got,
        change_ids.len() != 0,
    ensures
        0 <= r < t.len(),
        filter_existing_revisions_spec(t.take(r), repo, change_ids) == Out::<Seq<Seq<char>>>::Ask(
            looked_up(Act::JjRepo, repo, present_spec(change_ids), "change_id ++ \"\\n\""@),
        ),
        t[r].kind == Kind::Done,
        r == 0,
        filter_existing_revisions_spec(t, repo, change_ids)->Got_0 == surviving(
            change_ids,
            answer(t, r),
        ),
{
    broadcast use {replays_jj, group_rest};

    reveal(filter_existing_revisions_spec);
    let u0 = t;
    assert(is_rest(u0, t));
    lemma_rest(u0, t);
    assert(u0.take(0) =~= Seq::empty());
    let k0 = t.len() - u0.len();
    assert(
        filter_existing_revisions_spec(t.take(k0), repo, change_ids) == Out::<Seq<Seq<char>>>::Ask(
            looked_up(Act::JjRepo, repo, present_spec(change_ids), "change_id ++ \"\\n\""@),
        )
    );
    k0
}

pub proof fn asks_close_by_abandoning(t: Trace, params: CloseParamsV) -> (r: (int, int))
    requires
        close_by_abandoning_spec(t, params) is Got,
        params.revisions.len() != 0,
    ensures
        0 <= r.0 < t.len(),
        close_by_abandoning_spec(t.take(r.0), params) == Out::<(
            Seq<Seq<char>>,
            Option<Seq<char>>,
        )>::Ask(looked_up(
            Act::JjRepo,
            params.repo_root,
            present_spec(ids_of(params.revisions)),
            "change_id ++ \"\\n\""@,
        )),
        t[r.0].kind == Kind::Done,
        surviving(
            ids_of(params.revisions),
            answer(t, r.0),
        ).len() != 0 ==> r.0 < r.1 < t.len() && close_by_abandoning_spec(t.take(r.1), params) == Out::<(
            Seq<Seq<char>>,
            Option<Seq<char>>,
        )>::Ask(
            abandoned(params.repo_root, surviving(ids_of(params.revisions), answer(t, r.0))),
        ) && t[r.1].kind == Kind::Done,
{
    broadcast use {
        replays_abandon_surviving,
        replays_check_chain_safety,
        replays_filter_existing_revisions,
        replays_forget_workspace,
        replays_workspace_unique_change_ids,
        group_rest,
    };

    reveal(close_by_abandoning_spec);
    reveal(abandon_surviving_spec);
    let u0 = left(
        forget_workspace_spec(
            left(
                check_chain_safety_spec(
                    left(workspace_unique_change_ids_spec(t, params.repo_root, params.source_name)),
                    params.repo_root,
                    ids_of(params.revisions),
                    Some(params.source_path),
                ),
            ),
            params.repo_root,
            params.source_path,
            params.source_name,
        ),
    );
    assert(is_rest(u0, t));
    lemma_rest(u0, t);
    let j0 = asks_existing(u0, params.repo_root, ids_of(params.revisions));
    let k0 = t.len() - u0.len() + j0;
    assert(close_by_abandoning_spec(t.take(k0), params) == Out::<(
        Seq<Seq<char>>,
        Option<Seq<char>>,
    )>::Ask(looked_up(
            Act::JjRepo,
            params.repo_root,
            present_spec(ids_of(params.revisions)),
            "change_id ++ \"\\n\""@,
        )));
    if surviving(ids_of(params.revisions), answer(t, k0)).len() != 0 {
        let j = asks_abandon_surviving(u0, params.repo_root, ids_of(params.revisions));
        let k1 = t.len() - u0.len() + j;
        assert(close_by_abandoning_spec(t.take(k1), params) == Out::<(
            Seq<Seq<char>>,
            Option<Seq<char>>,
        )>::Ask(
            abandoned(params.repo_root, surviving(ids_of(params.revisions), answer(t, k0))),
        ));
        (k0, k1)
    } else {
        (k0, k0)
    }
}

pub proof fn asks_add_workspace(
    t: Trace,
    repo: Seq<char>,
    path: Seq<char>,
    revision: Seq<char>,
    msg: Seq<char>,
) -> (r: int)
    requires
        crate::revisions::create_workspace_spec(t, repo, path, revision, msg) is Got,
    ensures
        0 <= r < t.len(),
        crate::revisions::create_workspace_spec(
            t.take(r),
            repo,
            path,
            revision,
            msg,
        ) == Out::<()>::Ask(added(repo, path, revision, msg)),
        t[r].kind == Kind::Done,
{
    broadcast use {replays_jj_done, replays_need, group_rest};

    reveal(crate::revisions::create_workspace_spec);
    let u0 = match parent_spec(path) {
        Some(dir) => t.drop_first(),
        None => t,
    };
    assert(is_rest(u0, t));
    lemma_rest(u0, t);
    assert(u0.take(0) =~= Seq::empty());
    let k0 = t.len() - u0.len();
    assert(
        crate::revisions::create_workspace_spec(
            t.take(k0),
            repo,
            path,
            revision,
            msg,
        ) == Out::<()>::Ask(added(repo, path, revision, msg))
    );
    k0
}

pub proof fn asks_is_head(t: Trace, repo: Seq<char>, revset: Seq<char>) -> (r: int)
    requires
        is_head_spec(t, repo, revset) is Got,
    ensures
        0 <= r < t.len(),
        is_head_spec(t.take(r), repo, revset) == Out::<bool>::Ask(
            looked_up(
                Act::JjRepo,
                repo,
                "("@ + revset + ") ~ parents(children("@ + revset + "))"@,
                "\".\""@,
            ),
        ),
        t[r].kind == Kind::Done,
        r == 0,
        is_head_spec(t, repo, revset)->Got_0 <==> answer(t, 0).len() != 0,
{
    broadcast use {replays_jj, group_rest};

    reveal(is_head_spec);
    let u0 = t;
    assert(is_rest(u0, t));
    lemma_rest(u0, t);
    assert(u0.take(0) =~= Seq::empty());
    let k0 = t.len() - u0.len();
    assert(
        is_head_spec(t.take(k0), repo, revset) == Out::<bool>::Ask(
            looked_up(
                Act::JjRepo,
                repo,
                "("@ + revset + ") ~ parents(children("@ + revset + "))"@,
                "\".\""@,
            ),
        )
    );
    k0
}

pub proof fn asks_junction(
    t: Trace,
    repo: Seq<char>,
    source_ws_path: Seq<char>,
    branch_rev: Seq<char>,
    author: Option<Seq<char>>,
) -> (r: int)
    requires
        junction_spec(t, repo, source_ws_path, branch_rev, author) is Got,
    ensures
        0 <= r < t.len(),
        junction_spec(t.take(r), repo, source_ws_path, branch_rev, author) == Out::<Seq<char>>::Ask(
            looked_up(Act::JjRepo, repo, branch_base(t, repo, branch_rev), "change_id ++ \"\\n\""@),
        ),
        t[r].kind == Kind::Done,
        1 <= r,
        junction_spec(t, repo, source_ws_path, branch_rev, author)->Got_0 == answer(t, r),
        is_head_spec(t, repo, branch_rev) is Got,
        junction_spec(t.take(0), repo, source_ws_path, branch_rev, author) == Out::<Seq<char>>::Ask(
            looked_up(
                Act::JjRepo,
                repo,
                "("@ + branch_rev + ") ~ parents(children("@ + branch_rev + "))"@,
                "\".\""@,
            ),
        ),
{
    broadcast use {
        replays_is_head,
        replays_is_trivial_head,
        replays_progress_workspace,
        replays_resolve_change_id,
        replays_snapshot_ws,
        group_rest,
    };

    reveal(junction_spec);
    let u0 = at_junction(t, repo, branch_rev);
    assert(is_rest(u0, t));
    lemma_rest(u0, t);
    let j0 = asks_resolve(u0, repo, branch_base(t, repo, branch_rev));
    let k0 = t.len() - u0.len() + j0;
    assert(
        junction_spec(t.take(k0), repo, source_ws_path, branch_rev, author) == Out::<Seq<char>>::Ask(
            looked_up(Act::JjRepo, repo, branch_base(t, repo, branch_rev), "change_id ++ \"\\n\""@),
        )
    );
    asks_is_head(t, repo, branch_rev);
    k0
}

pub proof fn asks_create_workspace(
    t: Trace,
    repo: Seq<char>,
    source_ws_path: Seq<char>,
    branch_rev: Seq<char>,
    new_ws_path: Seq<char>,
    msg: Seq<char>,
    author: Option<Seq<char>>,
) -> (r: (int, int))
    requires
        create_workspace_spec(
            t,
            repo,
            source_ws_path,
            branch_rev,
            new_ws_path,
            msg,
            author,
        ) is Got,
    ensures
        0 <= r.0 < r.1 < t.len(),
        create_workspace_spec(
            t.take(r.0),
            repo,
            source_ws_path,
            branch_rev,
            new_ws_path,
            msg,
            author,
        ) == Out::<()>::Ask(
            looked_up(Act::JjRepo, repo, branch_base(t, repo, branch_rev), "change_id ++ \"\\n\""@),
        ),
        t[r.0].kind == Kind::Done,
        create_workspace_spec(
            t.take(r.1),
            repo,
            source_ws_path,
            branch_rev,
            new_ws_path,
            msg,
            author,
        ) == Out::<()>::Ask(added(repo, new_ws_path, answer(t, r.0), msg)),
        t[r.1].kind == Kind::Done,
        1 <= r.0,
        is_head_spec(t, repo, branch_rev) is Got,
        create_workspace_spec(t.take(0), repo, source_ws_path, branch_rev, new_ws_path, msg, author) == Out::<()>::Ask(
            looked_up(
                Act::JjRepo,
                repo,
                "("@ + branch_rev + ") ~ parents(children("@ + branch_rev + "))"@,
                "\".\""@,
            ),
        ),
{
    broadcast use {replays_create_workspace, replays_junction, group_rest};

    reveal(create_workspace_spec);
    let u0 = t;
    assert(is_rest(u0, t));
    lemma_rest(u0, t);
    let j0 = asks_junction(u0, repo, source_ws_path, branch_rev, author);
    let k0 = t.len() - u0.len() + j0;
    assert(create_workspace_spec(
               t.take(k0),
               repo,
               source_ws_path,
               branch_rev,
               new_ws_path,
               msg,
               author,
           ) == Out::<()>::Ask(
               looked_up(
                   Act::JjRepo,
                   repo,
                   branch_base(t, repo, branch_rev),
                   "change_id ++ \"\\n\""@,
               ),
           ));
    let u1 = left(junction_spec(t, repo, source_ws_path, branch_rev, author));
    assert(is_rest(u1, t));
    lemma_rest(u1, t);
    let j1 = asks_add_workspace(u1, repo, new_ws_path, answer(t, k0), msg);
    let k1 = t.len() - u1.len() + j1;
    assert(create_workspace_spec(
               t.take(k1),
               repo,
               source_ws_path,
               branch_rev,
               new_ws_path,
               msg,
               author,
           ) == Out::<()>::Ask(added(repo, new_ws_path, answer(t, k0), msg)));
    (k0, k1)
}

pub proof fn asks_junction_steps(
    t: Trace,
    repo: Seq<char>,
    source_ws_path: Seq<char>,
    branch_rev: Seq<char>,
    author: Option<Seq<char>>,
) -> (r: int)
    requires
        junction_spec(t, repo, source_ws_path, branch_rev, author) is Got,
        at_full_head(t, repo, branch_rev),
    ensures
        0 <= r < t.len(),
        junction_spec(t.take(r), repo, source_ws_path, branch_rev, author) == Out::<Seq<char>>::Ask(
            stepped(Act::JjWs, source_ws_path, make_desc_spec(Op::Step, None)),
        ),
        t[r].kind == Kind::Done,
        author is Some ==> r + 1 < t.len() && junction_spec(
            t.take(r + 1),
            repo,
            source_ws_path,
            branch_rev,
            author,
        ) == Out::<Seq<char>>::Ask(
            authored(source_ws_path, author->0),
        ) && t[r + 1].kind == Kind::Done,
{
    broadcast use {
        replays_is_head,
        replays_is_trivial_head,
        replays_progress_workspace,
        replays_resolve_change_id,
        replays_snapshot_ws,
        group_rest,
    };

    reveal(junction_spec);
    let u0 = left(
        snapshot_ws_spec(
            left(
                resolve_change_id_spec(
                    left(
                        is_trivial_head_spec(
                            left(is_head_spec(t, repo, branch_rev)),
                            repo,
                            branch_rev,
                        ),
                    ),
                    repo,
                    branch_rev,
                ),
            ),
            source_ws_path,
        ),
    );
    assert(is_rest(u0, t));
    lemma_rest(u0, t);
    let j0 = asks_progress(u0, source_ws_path, make_desc_spec(Op::Step, None), author);
    let k0 = t.len() - u0.len() + j0;
    assert(
        junction_spec(t.take(k0), repo, source_ws_path, branch_rev, author) == Out::<Seq<char>>::Ask(
            stepped(Act::JjWs, source_ws_path, make_desc_spec(Op::Step, None)),
        )
    );
    if author is Some {
        assert(
            junction_spec(
                t.take(k0 + 1),
                repo,
                source_ws_path,
                branch_rev,
                author,
            ) == Out::<Seq<char>>::Ask(authored(source_ws_path, author->0))
        );
    }
    k0
}

pub proof fn asks_lca(
    t: Trace,
    repo: Seq<char>,
    src: WsRefV,
    tgt: WsRefV,
    author: Option<Seq<char>>,
) -> (r: int)
    requires
        sync_spec(t, repo, src, tgt, author) is Got,
    ensures
        0 <= r < t.len(),
        sync_spec(t.take(r), repo, src, tgt, author) == Out::<SyncOutcomeV>::Ask(looked_up(
            Act::JjRepo,
            repo,
            "latest(fork_point("@ + src.info.effective_head + " | "@ + tgt.info.effective_head
                + "))"@,
            "change_id"@,
        )),
        t[r].kind == Kind::Done,
        r == 0,
        sync_spec(
            t,
            repo,
            src,
            tgt,
            author,
        )->Got_0 is AlreadyInSync <==> src.info.effective_head == answer(
            t,
            r,
        ) && tgt.info.effective_head == answer(t, r),
{
    broadcast use {
        replays_last_common_ancestor,
        replays_merge,
        replays_operations_forward,
        group_rest,
    };

    reveal(sync_spec);
    reveal(last_common_ancestor_spec);
    let u0 = t;
    assert(is_rest(u0, t));
    lemma_rest(u0, t);
    assert(u0.take(0) =~= Seq::empty());
    let k0 = t.len() - u0.len();
    assert(sync_spec(t.take(k0), repo, src, tgt, author) == Out::<SyncOutcomeV>::Ask(looked_up(
            Act::JjRepo,
            repo,
            "latest(fork_point("@ + src.info.effective_head + " | "@ + tgt.info.effective_head
                + "))"@,
            "change_id"@,
        )));
    k0
}

pub proof fn asks_sync_forwards_target(
    t: Trace,
    repo: Seq<char>,
    src: WsRefV,
    tgt: WsRefV,
    author: Option<Seq<char>>,
) -> (r: int)
    requires
        sync_spec(t, repo, src, tgt, author) is Got,
        tgt.info.effective_head == answer(t, 0),
        src.info.effective_head != answer(t, 0),
    ensures
        0 <= r < t.len(),
        sync_spec(t.take(r), repo, src, tgt, author) == Out::<SyncOutcomeV>::Ask(put_on(
            Act::JjWsLive,
            tgt.path,
            src.info.effective_head,
            make_desc_spec(
                Op::FastForward,
                Some(
                    tgt.name + "@ to "@ + src.name + "@"@ + src.info.effective_head,
                ),
            ),
        )),
        t[r].kind == Kind::Done,
        author is Some ==> r + 1 < t.len() && sync_spec(
            t.take(r + 1),
            repo,
            src,
            tgt,
            author,
        ) == Out::<SyncOutcomeV>::Ask(
            authored(tgt.path, author->0),
        ) && t[r + 1].kind == Kind::Done,
        1 <= r,
{
    broadcast use {
        replays_last_common_ancestor,
        replays_merge,
        replays_operations_forward,
        group_rest,
    };

    reveal(sync_spec);
    reveal(last_common_ancestor_spec);
    let u0 = left(
        last_common_ancestor_spec(t, repo, src.info.effective_head, tgt.info.effective_head),
    );
    assert(is_rest(u0, t));
    lemma_rest(u0, t);
    let j0 = asks_forward(u0, repo, tgt, src, author);
    let k0 = t.len() - u0.len() + j0;
    assert(sync_spec(t.take(k0), repo, src, tgt, author) == Out::<SyncOutcomeV>::Ask(put_on(
            Act::JjWsLive,
            tgt.path,
            src.info.effective_head,
            make_desc_spec(
                Op::FastForward,
                Some(
                    tgt.name + "@ to "@ + src.name + "@"@ + src.info.effective_head,
                ),
            ),
        )));
    if author is Some {
        assert(
            sync_spec(
                t.take(k0 + 1),
                repo,
                src,
                tgt,
                author,
            ) == Out::<SyncOutcomeV>::Ask(authored(tgt.path, author->0))
        );
    }
    k0
}

pub proof fn asks_sync_forwards_source(
    t: Trace,
    repo: Seq<char>,
    src: WsRefV,
    tgt: WsRefV,
    author: Option<Seq<char>>,
) -> (r: int)
    requires
        sync_spec(t, repo, src, tgt, author) is Got,
        src.info.effective_head == answer(t, 0),
        tgt.info.effective_head != answer(t, 0),
    ensures
        0 <= r < t.len(),
        sync_spec(t.take(r), repo, src, tgt, author) == Out::<SyncOutcomeV>::Ask(put_on(
            Act::JjWsLive,
            src.path,
            tgt.info.effective_head,
            make_desc_spec(
                Op::FastForward,
                Some(
                    src.name + "@ to "@ + tgt.name + "@"@ + tgt.info.effective_head,
                ),
            ),
        )),
        t[r].kind == Kind::Done,
        author is Some ==> r + 1 < t.len() && sync_spec(
            t.take(r + 1),
            repo,
            src,
            tgt,
            author,
        ) == Out::<SyncOutcomeV>::Ask(
            authored(src.path, author->0),
        ) && t[r + 1].kind == Kind::Done,
        1 <= r,
{
    broadcast use {
        replays_last_common_ancestor,
        replays_merge,
        replays_operations_forward,
        group_rest,
    };

    reveal(sync_spec);
    reveal(last_common_ancestor_spec);
    let u0 = left(
        last_common_ancestor_spec(t, repo, src.info.effective_head, tgt.info.effective_head),
    );
    assert(is_rest(u0, t));
    lemma_rest(u0, t);
    let j0 = asks_forward(u0, repo, src, tgt, author);
    let k0 = t.len() - u0.len() + j0;
    assert(sync_spec(t.take(k0), repo, src, tgt, author) == Out::<SyncOutcomeV>::Ask(put_on(
            Act::JjWsLive,
            src.path,
            tgt.info.effective_head,
            make_desc_spec(
                Op::FastForward,
                Some(
                    src.name + "@ to "@ + tgt.name + "@"@ + tgt.info.effective_head,
                ),
            ),
        )));
    if author is Some {
        assert(
            sync_spec(
                t.take(k0 + 1),
                repo,
                src,
                tgt,
                author,
            ) == Out::<SyncOutcomeV>::Ask(authored(src.path, author->0))
        );
    }
    k0
}

pub proof fn asks_sync_merges(
    t: Trace,
    repo: Seq<char>,
    src: WsRefV,
    tgt: WsRefV,
    author: Option<Seq<char>>,
) -> (r: (int, int, int, int))
    requires
        sync_spec(t, repo, src, tgt, author) is Got,
        src.info.effective_head != answer(t, 0),
        tgt.info.effective_head != answer(t, 0),
    ensures
        0 <= r.0 < r.1 < r.2 < r.3 < t.len(),
        sync_spec(t.take(r.0), repo, src, tgt, author) == Out::<SyncOutcomeV>::Ask(merged(
            src.path,
            seq![src.info.effective_head, tgt.info.effective_head],
            make_desc_spec(
                Op::Merge,
                Some(
                    merge_detail_spec(
                        src.name,
                        src.info.effective_head,
                        tgt.name,
                        tgt.info.effective_head,
                    ),
                ),
            ),
        )),
        t[r.0].kind == Kind::Done,
        author is Some ==> r.0 + 1 < t.len() && sync_spec(
            t.take(r.0 + 1),
            repo,
            src,
            tgt,
            author,
        ) == Out::<SyncOutcomeV>::Ask(
            authored(src.path, author->0),
        ) && t[r.0 + 1].kind == Kind::Done,
        sync_spec(t.take(r.1), repo, src, tgt, author) == Out::<SyncOutcomeV>::Ask(
            looked_up(Act::JjWs, src.path, "@"@, "change_id"@),
        ),
        t[r.1].kind == Kind::Done,
        sync_spec(t.take(r.2), repo, src, tgt, author) == Out::<SyncOutcomeV>::Ask(
            stepped(Act::JjWs, src.path, make_desc_spec(Op::Step, None)),
        ),
        t[r.2].kind == Kind::Done,
        author is Some ==> r.2 + 1 < t.len() && sync_spec(
            t.take(r.2 + 1),
            repo,
            src,
            tgt,
            author,
        ) == Out::<SyncOutcomeV>::Ask(
            authored(src.path, author->0),
        ) && t[r.2 + 1].kind == Kind::Done,
        sync_spec(t.take(r.3), repo, src, tgt, author) == Out::<SyncOutcomeV>::Ask(
            put_on(Act::JjWs, tgt.path, answer(t, r.1), make_desc_spec(Op::Step, None)),
        ),
        t[r.3].kind == Kind::Done,
        author is Some ==> r.3 + 1 < t.len() && sync_spec(
            t.take(r.3 + 1),
            repo,
            src,
            tgt,
            author,
        ) == Out::<SyncOutcomeV>::Ask(
            authored(tgt.path, author->0),
        ) && t[r.3 + 1].kind == Kind::Done,
        1 <= r.0,
{
    broadcast use {
        replays_last_common_ancestor,
        replays_merge,
        replays_operations_forward,
        group_rest,
    };

    reveal(sync_spec);
    reveal(last_common_ancestor_spec);
    let u0 = left(
        last_common_ancestor_spec(t, repo, src.info.effective_head, tgt.info.effective_head),
    );
    let (j0, j1, j2, j3) = asks_merge(u0, repo, src, tgt, author);
    assert(is_rest(u0, t));
    lemma_rest(u0, t);
    let k0 = t.len() - u0.len() + j0;
    assert(sync_spec(t.take(k0), repo, src, tgt, author) == Out::<SyncOutcomeV>::Ask(merged(
            src.path,
            seq![src.info.effective_head, tgt.info.effective_head],
            make_desc_spec(
                Op::Merge,
                Some(
                    merge_detail_spec(
                        src.name,
                        src.info.effective_head,
                        tgt.name,
                        tgt.info.effective_head,
                    ),
                ),
            ),
        )));
    if author is Some {
        assert(
            sync_spec(
                t.take(k0 + 1),
                repo,
                src,
                tgt,
                author,
            ) == Out::<SyncOutcomeV>::Ask(authored(src.path, author->0))
        );
    }
    let k1 = t.len() - u0.len() + j1;
    assert(
        sync_spec(t.take(k1), repo, src, tgt, author) == Out::<SyncOutcomeV>::Ask(
            looked_up(Act::JjWs, src.path, "@"@, "change_id"@),
        )
    );
    let k2 = t.len() - u0.len() + j2;
    assert(
        sync_spec(t.take(k2), repo, src, tgt, author) == Out::<SyncOutcomeV>::Ask(
            stepped(Act::JjWs, src.path, make_desc_spec(Op::Step, None)),
        )
    );
    if author is Some {
        assert(
            sync_spec(
                t.take(k2 + 1),
                repo,
                src,
                tgt,
                author,
            ) == Out::<SyncOutcomeV>::Ask(authored(src.path, author->0))
        );
    }
    let k3 = t.len() - u0.len() + j3;
    assert(
        sync_spec(t.take(k3), repo, src, tgt, author) == Out::<SyncOutcomeV>::Ask(
            put_on(Act::JjWs, tgt.path, answer(t, k1), make_desc_spec(Op::Step, None)),
        )
    );
    if author is Some {
        assert(
            sync_spec(
                t.take(k3 + 1),
                repo,
                src,
                tgt,
                author,
            ) == Out::<SyncOutcomeV>::Ask(authored(tgt.path, author->0))
        );
    }
    (k0, k1, k2, k3)
}

pub proof fn asks_write_one(
    t: Trace,
    ws_root: Seq<char>,
    rel_path: Seq<char>,
    content: Seq<char>,
    quiet: bool,
) -> (r: int)
    requires
        write_one_spec(t, ws_root, rel_path, content, quiet) is Got,
    ensures
        0 <= r < t.len(),
        write_one_spec(t.take(r), ws_root, rel_path, content, quiet) == Out::<()>::Ask(
            written(path_join_spec(ws_root, rel_path), content),
        ),
        t[r].kind == Kind::Done,
{
    broadcast use {replays_need, replays_say, group_rest};

    reveal(write_one_spec);
    let u0 = match parent_spec(path_join_spec(ws_root, rel_path)) {
        Some(dir) => t.drop_first(),
        None => t,
    };
    assert(is_rest(u0, t));
    lemma_rest(u0, t);
    assert(u0.take(0) =~= Seq::empty());
    let k0 = t.len() - u0.len();
    assert(
        write_one_spec(t.take(k0), ws_root, rel_path, content, quiet) == Out::<()>::Ask(
            written(path_join_spec(ws_root, rel_path), content),
        )
    );
    k0
}

pub proof fn asks_run_one(
    t: Trace,
    label: Seq<char>,
    name: Seq<char>,
    cmd: Seq<char>,
    cwd: Seq<char>,
    quiet: bool,
) -> (r: int)
    requires
        run_one_spec(t, label, name, cmd, cwd, quiet) is Got,
    ensures
        0 <= r < t.len(),
        run_one_spec(
            t.take(r),
            label,
            name,
            cmd,
            cwd,
            quiet,
        ) == Out::<()>::Ask(hook_run(cwd, cmd, label + "/"@ + name)),
        t[r].kind == Kind::Done,
{
    broadcast use {replays_ask, replays_say, group_rest};

    reveal(run_one_spec);
    let u0 = left(say_spec(t, quiet, "(ji)::hook running "@ + label + "/"@ + name + ": "@ + cmd));
    assert(is_rest(u0, t));
    lemma_rest(u0, t);
    assert(u0.take(0) =~= Seq::empty());
    let k0 = t.len() - u0.len();
    assert(
        run_one_spec(
            t.take(k0),
            label,
            name,
            cmd,
            cwd,
            quiet,
        ) == Out::<()>::Ask(hook_run(cwd, cmd, label + "/"@ + name))
    );
    k0
}

pub proof fn asks_start_one(
    t: Trace,
    label: Seq<char>,
    name: Seq<char>,
    cmd: Seq<char>,
    cwd: Seq<char>,
    quiet: bool,
) -> (r: int)
    requires
        start_one_spec(t, label, name, cmd, cwd, quiet) is Got,
    ensures
        0 <= r < t.len(),
        start_one_spec(
            t.take(r),
            label,
            name,
            cmd,
            cwd,
            quiet,
        ) == Out::<()>::Ask(hook_started(cwd, cmd)),
{
    broadcast use {replays_ask, replays_say, group_rest};

    reveal(start_one_spec);
    let u0 = left(say_spec(t, quiet, "(ji)::hook starting "@ + label + "/"@ + name + ": "@ + cmd));
    assert(is_rest(u0, t));
    lemma_rest(u0, t);
    assert(u0.take(0) =~= Seq::empty());
    let k0 = t.len() - u0.len();
    assert(
        start_one_spec(
            t.take(k0),
            label,
            name,
            cmd,
            cwd,
            quiet,
        ) == Out::<()>::Ask(hook_started(cwd, cmd))
    );
    k0
}

pub proof fn clears_merge_close(
    t: Trace,
    repo: Seq<char>,
    src: WsRefV,
    tgt: WsRefV,
    author: Option<Seq<char>>,
) -> (r: int)
    requires
        merge_close_spec(t, repo, src, tgt, author) is Got,
        src.info.trivial_id is Some || tgt.info.trivial_id is Some,
    ensures
        0 <= r < t.len(),
        merge_close_spec(t.take(r), repo, src, tgt, author) == Out::<Seq<Seq<char>>>::Ask(
            head_checked(repo, first_trivial(src.info, tgt.info)),
        ),
{
    broadcast use {
        replays_find_abandon_trivial_heads,
        replays_forget_workspace,
        replays_new_merge,
        group_rest,
    };

    reveal(merge_close_spec);
    reveal(find_abandon_trivial_heads_spec);
    reveal(abandon_trivial_heads_spec);
    reveal(check_trivial_head_spec);
    assert(trivial_pair(src.info, tgt.info)[0] == first_trivial(src.info, tgt.info));
    let u0 = left(new_merge_spec(left(
        forget_workspace_spec(t, repo, src.path, src.name),
    ), tgt.path, seq![src.info.effective_head, tgt.info.effective_head], make_desc_spec(
                Op::Merge,
                Some(
                    merge_detail_spec(
                        src.name,
                        src.info.effective_head,
                        tgt.name,
                        tgt.info.effective_head,
                    ),
                ),
            ), author));
    assert(is_rest(u0, t));
    lemma_rest(u0, t);
    assert(u0.take(0) =~= Seq::empty());
    let k0 = t.len() - u0.len();
    assert(
        merge_close_spec(t.take(k0), repo, src, tgt, author) == Out::<Seq<Seq<char>>>::Ask(
            head_checked(repo, first_trivial(src.info, tgt.info)),
        )
    );
    k0
}

pub proof fn clears_merge_squash_close(
    t: Trace,
    repo: Seq<char>,
    src: WsRefV,
    tgt: WsRefV,
    lca: Seq<char>,
    author: Option<Seq<char>>,
) -> (r: int)
    requires
        merge_squash_close_spec(t, repo, src, tgt, lca, author) is Got,
        src.info.trivial_id is Some || tgt.info.trivial_id is Some,
    ensures
        0 <= r < t.len(),
        merge_squash_close_spec(t.take(r), repo, src, tgt, lca, author) == Out::<Seq<Seq<char>>>::Ask(
            head_checked(repo, first_trivial(src.info, tgt.info)),
        ),
{
    broadcast use {
        replays_find_abandon_trivial_heads,
        replays_forget_workspace,
        replays_new_merge,
        replays_squash_chain,
        group_rest,
    };

    reveal(merge_squash_close_spec);
    reveal(find_abandon_trivial_heads_spec);
    reveal(abandon_trivial_heads_spec);
    reveal(check_trivial_head_spec);
    assert(trivial_pair(src.info, tgt.info)[0] == first_trivial(src.info, tgt.info));
    let u0 = left(new_merge_spec(left(squash_chain_spec(left(forget_workspace_spec(t, repo, src.path, src.name)), repo, src.name, src.info.effective_head, tgt.name, tgt.info.effective_head, lca)), tgt.path, seq![
        squash_chain_spec(
            left(forget_workspace_spec(t, repo, src.path, src.name)),
            repo,
            src.name,
            src.info.effective_head,
            tgt.name,
            tgt.info.effective_head,
            lca,
        )->Got_0,
        tgt.info.effective_head,
    ], make_desc_spec(
                Op::Merge,
                Some(
                    merge_detail_spec(
                        src.name,
                        squash_chain_spec(
                            left(forget_workspace_spec(t, repo, src.path, src.name)),
                            repo,
                            src.name,
                            src.info.effective_head,
                            tgt.name,
                            tgt.info.effective_head,
                            lca,
                        )->Got_0,
                        tgt.name,
                        tgt.info.effective_head,
                    ),
                ),
            ), author));
    assert(is_rest(u0, t));
    lemma_rest(u0, t);
    assert(u0.take(0) =~= Seq::empty());
    let k0 = t.len() - u0.len();
    assert(
        merge_squash_close_spec(t.take(k0), repo, src, tgt, lca, author) == Out::<Seq<Seq<char>>>::Ask(
            head_checked(repo, first_trivial(src.info, tgt.info)),
        )
    );
    k0
}

pub proof fn clears_fast_forward_close(
    t: Trace,
    repo: Seq<char>,
    src: WsRefV,
    tgt_path: Seq<char>,
    tgt_info: WorkspaceHeadInfoV,
) -> (r: int)
    requires
        fast_forward_close_spec(t, repo, src, tgt_path, tgt_info) is Got,
        tgt_info.trivial_id is Some,
    ensures
        0 <= r < t.len(),
        fast_forward_close_spec(t.take(r), repo, src, tgt_path, tgt_info) == Out::<Seq<Seq<char>>>::Ask(
            head_checked(repo, tgt_info.trivial_id->0),
        ),
{
    broadcast use {
        replays_edit_workspace_head,
        replays_find_abandon_trivial_heads,
        replays_forget_workspace,
        group_rest,
    };

    reveal(fast_forward_close_spec);
    reveal(find_abandon_trivial_heads_spec);
    reveal(abandon_trivial_heads_spec);
    reveal(check_trivial_head_spec);
    let u0 = left(
        edit_workspace_head_spec(
            left(forget_workspace_spec(t, repo, src.path, src.name)),
            tgt_path,
            src.info.effective_head,
        ),
    );
    assert(is_rest(u0, t));
    lemma_rest(u0, t);
    assert(u0.take(0) =~= Seq::empty());
    let k0 = t.len() - u0.len();
    assert(
        fast_forward_close_spec(t.take(k0), repo, src, tgt_path, tgt_info) == Out::<Seq<Seq<char>>>::Ask(
            head_checked(repo, tgt_info.trivial_id->0),
        )
    );
    k0
}

pub proof fn clears_merge(
    t: Trace,
    repo: Seq<char>,
    src: WsRefV,
    tgt: WsRefV,
    author: Option<Seq<char>>,
) -> (r: int)
    requires
        merge_spec(t, repo, src, tgt, author) is Got,
        src.info.trivial_id is Some || tgt.info.trivial_id is Some,
    ensures
        0 <= r < t.len(),
        merge_spec(t.take(r), repo, src, tgt, author) == Out::<Seq<Seq<char>>>::Ask(
            head_checked(repo, first_trivial(src.info, tgt.info)),
        ),
{
    broadcast use {
        replays_find_abandon_trivial_heads,
        replays_new_merge,
        replays_snapshot_ws,
        replays_step_both,
        group_rest,
    };

    reveal(merge_spec);
    reveal(find_abandon_trivial_heads_spec);
    reveal(abandon_trivial_heads_spec);
    reveal(check_trivial_head_spec);
    assert(trivial_pair(src.info, tgt.info)[0] == first_trivial(src.info, tgt.info));
    let u0 = left(step_both_spec(left(new_merge_spec(left(snapshot_ws_spec(t, tgt.path)), src.path, seq![
        src.info.effective_head,
        tgt.info.effective_head,
    ], make_desc_spec(
                Op::Merge,
                Some(
                    merge_detail_spec(
                        src.name,
                        src.info.effective_head,
                        tgt.name,
                        tgt.info.effective_head,
                    ),
                ),
            ), author)), src, tgt, new_merge_spec(left(snapshot_ws_spec(t, tgt.path)), src.path, seq![
                src.info.effective_head,
                tgt.info.effective_head,
            ], make_desc_spec(
                Op::Merge,
                Some(
                    merge_detail_spec(
                        src.name,
                        src.info.effective_head,
                        tgt.name,
                        tgt.info.effective_head,
                    ),
                ),
            ), author)->Got_0, author));
    assert(is_rest(u0, t));
    lemma_rest(u0, t);
    assert(u0.take(0) =~= Seq::empty());
    let k0 = t.len() - u0.len();
    assert(
        merge_spec(t.take(k0), repo, src, tgt, author) == Out::<Seq<Seq<char>>>::Ask(
            head_checked(repo, first_trivial(src.info, tgt.info)),
        )
    );
    k0
}

pub proof fn clears_merge_squash(
    t: Trace,
    repo: Seq<char>,
    src: WsRefV,
    tgt: WsRefV,
    lca: Seq<char>,
    author: Option<Seq<char>>,
) -> (r: int)
    requires
        merge_squash_spec(t, repo, src, tgt, lca, author) is Got,
        src.info.trivial_id is Some || tgt.info.trivial_id is Some,
    ensures
        0 <= r < t.len(),
        merge_squash_spec(t.take(r), repo, src, tgt, lca, author) == Out::<Seq<Seq<char>>>::Ask(
            head_checked(repo, first_trivial(src.info, tgt.info)),
        ),
{
    broadcast use {
        replays_find_abandon_trivial_heads,
        replays_new_merge,
        replays_snapshot_ws,
        replays_squash_chain,
        replays_step_both,
        group_rest,
    };

    reveal(merge_squash_spec);
    reveal(find_abandon_trivial_heads_spec);
    reveal(abandon_trivial_heads_spec);
    reveal(check_trivial_head_spec);
    assert(trivial_pair(src.info, tgt.info)[0] == first_trivial(src.info, tgt.info));
    let u0 = left(step_both_spec(left(new_merge_spec(left(squash_chain_spec(left(snapshot_ws_spec(t, tgt.path)), repo, src.name, src.info.effective_head, tgt.name, tgt.info.effective_head, lca)), src.path, seq![
        squash_chain_spec(
            left(snapshot_ws_spec(t, tgt.path)),
            repo,
            src.name,
            src.info.effective_head,
            tgt.name,
            tgt.info.effective_head,
            lca,
        )->Got_0,
        tgt.info.effective_head,
    ], make_desc_spec(
                Op::Merge,
                Some(
                    merge_detail_spec(
                        src.name,
                        squash_chain_spec(
                            left(snapshot_ws_spec(t, tgt.path)),
                            repo,
                            src.name,
                            src.info.effective_head,
                            tgt.name,
                            tgt.info.effective_head,
                            lca,
                        )->Got_0,
                        tgt.name,
                        tgt.info.effective_head,
                    ),
                ),
            ), author)), src, tgt, new_merge_spec(left(squash_chain_spec(left(snapshot_ws_spec(t, tgt.path)), repo, src.name, src.info.effective_head, tgt.name, tgt.info.effective_head, lca)), src.path, seq![
                squash_chain_spec(
                    left(snapshot_ws_spec(t, tgt.path)),
                    repo,
                    src.name,
                    src.info.effective_head,
                    tgt.name,
                    tgt.info.effective_head,
                    lca,
                )->Got_0,
                tgt.info.effective_head,
            ], make_desc_spec(
                Op::Merge,
                Some(
                    merge_detail_spec(
                        src.name,
                        squash_chain_spec(
                            left(snapshot_ws_spec(t, tgt.path)),
                            repo,
                            src.name,
                            src.info.effective_head,
                            tgt.name,
                            tgt.info.effective_head,
                            lca,
                        )->Got_0,
                        tgt.name,
                        tgt.info.effective_head,
                    ),
                ),
            ), author)->Got_0, author));
    assert(is_rest(u0, t));
    lemma_rest(u0, t);
    assert(u0.take(0) =~= Seq::empty());
    let k0 = t.len() - u0.len();
    assert(
        merge_squash_spec(t.take(k0), repo, src, tgt, lca, author) == Out::<Seq<Seq<char>>>::Ask(
            head_checked(repo, first_trivial(src.info, tgt.info)),
        )
    );
    k0
}

pub proof fn clears_fast_forward(
    t: Trace,
    repo: Seq<char>,
    behind: WsRefV,
    ahead_name: Seq<char>,
    ahead_head: Seq<char>,
    author: Option<Seq<char>>,
) -> (r: int)
    requires
        fast_forward_spec(t, repo, behind, ahead_name, ahead_head, author) is Got,
        behind.info.trivial_id is Some,
    ensures
        0 <= r < t.len(),
        fast_forward_spec(
            t.take(r),
            repo,
            behind,
            ahead_name,
            ahead_head,
            author,
        ) == Out::<Seq<Seq<char>>>::Ask(head_checked(repo, behind.info.trivial_id->0)),
{
    broadcast use {replays_find_abandon_trivial_heads, replays_make_head, group_rest};

    reveal(fast_forward_spec);
    reveal(find_abandon_trivial_heads_spec);
    reveal(abandon_trivial_heads_spec);
    reveal(check_trivial_head_spec);
    let u0 = left(
        make_head_spec(
            t,
            repo,
            behind.name,
            behind.path,
            Some(ahead_head),
            Op::FastForward,
            Some(behind.name + "@ to "@ + ahead_name + "@"@ + ahead_head),
            author,
        ),
    );
    assert(is_rest(u0, t));
    lemma_rest(u0, t);
    assert(u0.take(0) =~= Seq::empty());
    let k0 = t.len() - u0.len();
    assert(
        fast_forward_spec(
            t.take(k0),
            repo,
            behind,
            ahead_name,
            ahead_head,
            author,
        ) == Out::<Seq<Seq<char>>>::Ask(head_checked(repo, behind.info.trivial_id->0))
    );
    k0
}

pub proof fn clears_transfer_forward(
    t: Trace,
    repo: Seq<char>,
    role: Seq<char>,
    behind: WsRefV,
    ahead: WsRefV,
    author: Option<Seq<char>>,
) -> (r: int)
    requires
        crate::commands::transfer::forward_spec(t, repo, role, behind, ahead, author) is Got,
        behind.info.trivial_id is Some,
    ensures
        0 <= r < t.len(),
        crate::commands::transfer::forward_spec(t.take(r), repo, role, behind, ahead, author) == Out::<Seq<Seq<char>>>::Ask(
            head_checked(repo, behind.info.trivial_id->0),
        ),
{
    broadcast use {replays_fast_forward, replays_step_head, replays_transfer_guard, group_rest};

    reveal(crate::commands::transfer::forward_spec);
    let u0 = left(crate::commands::transfer::guard_spec(t, repo, role, behind));
    assert(is_rest(u0, t));
    lemma_rest(u0, t);
    let j0 = clears_fast_forward(u0, repo, behind, ahead.name, ahead.info.effective_head, author);
    let k0 = t.len() - u0.len() + j0;
    assert(crate::commands::transfer::forward_spec(
               t.take(k0),
               repo,
               role,
               behind,
               ahead,
               author,
           ) == Out::<Seq<Seq<char>>>::Ask(head_checked(repo, behind.info.trivial_id->0)));
    k0
}

} // verus!
