//! What a listing of workspaces and the search for their heads come to.

use vstd::prelude::*;

use crate::effects::looked_up;
use crate::jj_parse::WorkspaceEntryV;
use crate::jj_utils::{
    check_trivial_head_spec, examine_spec, is_trivial_head_spec, nontrivial_spec,
    resolve_change_id_spec, resolve_workspace_head_info_spec, ws_head_spec, MAX_TRIVIAL_WALK,
    TMPL_ID_EMPTY_PARENTS_DESC, WalkV, WorkspaceHeadInfoV,
};
use crate::jujutsu::{last_nonempty_timestamp_spec, list_workspace_entries_spec};
use crate::operations::done;
use crate::replay::{
    each_reaches, group_rest, is_rest, left, lemma_rest, replays_examine, replays_filled,
    replays_list_workspace_entries, replays_nontrivial,
};
use crate::revisions::{workspace_bookmarks_spec, workspace_revisions_with_bookmarks_spec};
use crate::tape::{each, Act, Out, Trace};
use crate::text_map::Pairs;
use crate::workspaces::{
    bare_spec, chain_head, classify_all_spec, classify_spec, default_at, fill_default_spec,
    fill_step, filled_spec, list_workspaces_spec, stamp_step, WorkspaceV,
};

verus! {

/// The workspace is that of the entry, and each of its bookmarks stands at its head or behind it, as
/// the change that it marks is the head of the workspace or another.
pub open spec fn lists(w: WorkspaceV, e: WorkspaceEntryV) -> bool {
    let head = if w.revisions.len() > 0 {
        w.revisions[0].change_id
    } else {
        w.change_id
    };
    &&& w.name == e.name
    &&& w.path == e.path
    &&& w.change_id == e.change_id
    &&& w.description == e.description
    &&& forall|i: int|
        0 <= i < w.bookmarks_at_head.len() ==> (#[trigger] w.bookmarks_at_head[i]).1 == head
    &&& forall|i: int|
        0 <= i < w.bookmarks_behind.len() ==> (#[trigger] w.bookmarks_behind[i]).1 != head
}

/// The workspaces are those of the entries, in their order.
pub open spec fn lists_all(ws: Seq<WorkspaceV>, entries: Seq<WorkspaceEntryV>) -> bool {
    &&& ws.len() == entries.len()
    &&& forall|i: int| 0 <= i < ws.len() ==> lists(#[trigger] ws[i], entries[i])
}

proof fn lemma_classified(w: WorkspaceV, bms: Pairs, e: WorkspaceEntryV)
    requires
        lists(w, e),
    ensures
        lists(classify_all_spec(w, bms), e),
        classify_all_spec(w, bms).revisions == w.revisions,
    decreases bms.len(),
{
    if bms.len() > 0 {
        lemma_classified(w, bms.drop_last(), e);
        let v = classify_all_spec(w, bms.drop_last());
        let name = bms.last().0;
        let id = bms.last().1;
        let c = classify_spec(v, name, id);
        assert forall|i: int| 0 <= i < c.bookmarks_at_head.len() implies (
        #[trigger] c.bookmarks_at_head[i]).1 == chain_head(c) by {
            if i < v.bookmarks_at_head.len() {
                assert(c.bookmarks_at_head[i] == v.bookmarks_at_head[i]);
            }
        }
        assert forall|i: int| 0 <= i < c.bookmarks_behind.len() implies (
        #[trigger] c.bookmarks_behind[i]).1 != chain_head(c) by {
            if i < v.bookmarks_behind.len() {
                assert(c.bookmarks_behind[i] == v.bookmarks_behind[i]);
            }
        }
    }
}

proof fn lemma_fills(
    t: Trace,
    repo: Seq<char>,
    default_id: Seq<char>,
    entries: Seq<WorkspaceEntryV>,
    done: Seq<WorkspaceEntryV>,
    acc: Seq<WorkspaceV>,
)
    requires
        lists_all(acc, done),
    ensures
        each(t, entries, acc, fill_step(repo, default_id)) matches Out::Got(ws, u) ==> lists_all(
            ws,
            done + entries,
        ),
    decreases entries.len(),
{
    if entries.len() > 0 {
        let e = entries[0];
        if let Out::Got(w, u) = filled_spec(t, repo, default_id, e) {
            assert(lists(w, e)) by {
                reveal(filled_spec);
                if let Out::Got((revs, bms), _) = workspace_revisions_with_bookmarks_spec(
                    t,
                    repo,
                    e.change_id,
                    default_id,
                ) {
                    let bare = bare_spec(e);
                    let with_revisions = WorkspaceV { revisions: revs, ..bare };
                    lemma_classified(with_revisions, bms, e);
                }
            }
            assert(lists_all(acc.push(w), done.push(e)));
            lemma_fills(u, repo, default_id, entries.drop_first(), done.push(e), acc.push(w));
            assert(done.push(e) + entries.drop_first() =~= done + entries);
        }
    } else {
        assert(done + entries =~= done);
    }
}

proof fn lemma_stamps(
    t: Trace,
    repo: Seq<char>,
    ws: Seq<WorkspaceV>,
    entries: Seq<WorkspaceEntryV>,
    acc: Seq<WorkspaceV>,
)
    requires
        entries.len() == acc.len() + ws.len(),
        forall|i: int| 0 <= i < acc.len() ==> lists(#[trigger] acc[i], entries[i]),
        forall|i: int| 0 <= i < ws.len() ==> lists(#[trigger] ws[i], entries[acc.len() + i]),
    ensures
        each(t, ws, acc, stamp_step(repo)) matches Out::Got(all, u) ==> lists_all(all, entries),
    decreases ws.len(),
{
    if ws.len() > 0 {
        if let Out::Got(n, u) = last_nonempty_timestamp_spec(t, repo, ws[0].change_id) {
            let w = WorkspaceV { last_modified: n, ..ws[0] };
            assert(lists(w, entries[acc.len() as int]));
            let rest = ws.drop_first();
            assert forall|i: int| 0 <= i < rest.len() implies lists(
                #[trigger] rest[i],
                entries[acc.push(w).len() + i],
            ) by {
                assert(rest[i] == ws[i + 1]);
            }
            lemma_stamps(u, repo, rest, entries, acc.push(w));
        }
    }
}

proof fn lemma_home(entries: Seq<WorkspaceEntryV>)
    ensures
        default_at(entries) matches Some(i) ==> 0 <= i < entries.len(),
    decreases entries.len(),
{
    if entries.len() > 0 {
        lemma_home(entries.drop_first());
    }
}

/// The listing has one workspace for each entry that jj lists, in the same order, with the name, the
/// path, the change and the description of the entry; and each of its bookmarks stands at the head
/// exactly where it marks the head.
pub proof fn law_listing_keeps_the_entries(t: Trace, repo: Seq<char>)
    ensures
        list_workspaces_spec(t, repo) matches Out::Got(ws, w) ==> {
            &&& list_workspace_entries_spec(t, repo) matches Out::Got(entries, u)
            &&& lists_all(ws, entries)
        },
{
    reveal(list_workspaces_spec);
    if let Out::Got(entries, u) = list_workspace_entries_spec(t, repo) {
        let home = default_at(entries);
        let id = match home {
            Some(i) => entries[i].change_id,
            None => Seq::empty(),
        };
        lemma_home(entries);
        lemma_fills(u, repo, id, entries, Seq::empty(), Seq::empty());
        assert(Seq::<WorkspaceEntryV>::empty() + entries =~= entries);
        if let Out::Got(ws, v) = each(u, entries, Seq::<WorkspaceV>::empty(), fill_step(repo, id)) {
            if id.len() == 0 {
                lemma_stamps(v, repo, ws, entries, Seq::empty());
            } else {
                reveal(fill_default_spec);
                let at = home->Some_0;
                match workspace_bookmarks_spec(v, repo, id, id) {
                    Out::Got(bms, x) => {
                        lemma_classified(ws[at], bms, entries[at]);
                        let filed = ws.update(at, classify_all_spec(ws[at], bms));
                        lemma_stamps(x, repo, filed, entries, Seq::empty());
                    },
                    Out::Fail(_, x) => {
                        lemma_stamps(x, repo, ws, entries, Seq::empty());
                    },
                    _ => {},
                }
            }
        }
    }
}

/// What a workspace has of its own is looked up from the default workspace to it.
pub proof fn law_own_revisions_start_at_the_default(
    t: Trace,
    repo: Seq<char>,
    entries: Seq<WorkspaceEntryV>,
    u: Trace,
    d: int,
    i: int,
)
    requires
        list_workspaces_spec(t, repo) is Got,
        list_workspace_entries_spec(t, repo) == Out::Got(entries, u),
        0 <= d < entries.len(),
        entries[d].name == "default"@,
        entries[d].change_id.len() != 0,
        forall|j: int| 0 <= j < d ==> (#[trigger] entries[j]).name != "default"@,
        0 <= i < entries.len(),
        entries[i].name != "default"@,
    ensures
        exists|k: int|
            0 <= k < t.len() && #[trigger] revisions_asked(
                t,
                repo,
                k,
                entries[d].change_id + ".."@ + entries[i].change_id,
            ),
{
    broadcast use {group_rest, replays_list_workspace_entries, replays_filled};

    reveal(list_workspaces_spec);
    lemma_default_found(entries, d);
    let id = entries[d].change_id;
    let step = fill_step(repo, id);
    let (v, a) = each_reaches(u, entries, Seq::<WorkspaceV>::empty(), step, i);
    assert(is_rest(u, t));
    lemma_rest(u, t);
    lemma_rest(v, u);
    reveal(filled_spec);
    reveal(workspace_revisions_with_bookmarks_spec);
    assert(v.take(0) =~= Seq::empty());
    assert(step(v.take(0), a, entries[i]) is Ask);
    assert(revisions_asked(t, repo, t.len() - v.len(), id + ".."@ + entries[i].change_id));
}

/// With the first `k` replies a listing asks jj to log the revisions.
pub open spec fn revisions_asked(t: Trace, repo: Seq<char>, k: int, revisions: Seq<char>) -> bool {
    &&& list_workspaces_spec(t.take(k), repo) matches Out::Ask(q)
    &&& q.act == Act::JjRepo
    &&& q.at == repo
    &&& q.args.len() == 6
    &&& q.args[0] == "log"@
    &&& q.args[2] == "--revision"@
    &&& q.args[3] == revisions
}

proof fn lemma_default_found(entries: Seq<WorkspaceEntryV>, d: int)
    requires
        0 <= d < entries.len(),
        entries[d].name == "default"@,
        forall|j: int| 0 <= j < d ==> (#[trigger] entries[j]).name != "default"@,
    ensures
        default_at(entries) == Some(d),
    decreases d,
{
    if d > 0 {
        let rest = entries.drop_first();
        assert(entries[0].name != "default"@);
        assert forall|j: int| 0 <= j < d - 1 implies (#[trigger] rest[j]).name != "default"@ by {
            assert(rest[j] == entries[j + 1]);
        }
        lemma_default_found(rest, d - 1);
    }
}

/// The heads of a workspace hang together: the trivial head, if there is one, is the actual head,
/// and else the effective head is; and the head is trivial exactly where the test for a trivial head
/// says so.
pub proof fn law_heads_hang_together(t: Trace, repo: Seq<char>, ws_name: Seq<char>)
    ensures
        resolve_workspace_head_info_spec(t, repo, ws_name) matches Out::Got(h, u) ==> {
            &&& h.trivial_id matches Some(id) ==> id == h.actual_head
            &&& h.trivial_id is None ==> h.effective_head == h.actual_head
            &&& check_trivial_head_spec(t, repo, ws_head_spec(ws_name)) matches Out::Got(found, v)
            &&& found == h.trivial_id
            &&& is_trivial_head_spec(t, repo, ws_head_spec(ws_name)) == Out::Got(
                h.trivial_id is Some,
                v,
            )
        },
{
    reveal(resolve_workspace_head_info_spec);
    reveal(check_trivial_head_spec);
    reveal(is_trivial_head_spec);
}

/// The head below a trivial one is looked for from its parent on.
pub proof fn law_effective_head_lies_below(
    t: Trace,
    repo: Seq<char>,
    ws_name: Seq<char>,
    id: Seq<char>,
    v: Trace,
)
    requires
        check_trivial_head_spec(t, repo, ws_head_spec(ws_name)) == Out::Got(Some(id), v),
    ensures
        v.len() == 0 ==> resolve_workspace_head_info_spec(t, repo, ws_name) == Out::<
            WorkspaceHeadInfoV,
        >::Ask(
            looked_up(
                Act::JjRepo,
                repo,
                ws_head_spec(ws_name) + "-"@,
                TMPL_ID_EMPTY_PARENTS_DESC@,
            ),
        ),
        nontrivial_spec(
            v,
            repo,
            ws_head_spec(ws_name) + "-"@,
            Seq::empty(),
            MAX_TRIVIAL_WALK as nat,
        ) matches Out::Got(eff, w) ==> resolve_workspace_head_info_spec(t, repo, ws_name)
            matches Out::Got(h, x) && x == w && h.effective_head == eff && h.actual_head == id,
{
    reveal(resolve_workspace_head_info_spec);
    reveal(check_trivial_head_spec);
    reveal_with_fuel(nontrivial_spec, 2);
    reveal(examine_spec);
}

/// At `k`, the walk asks for the revision `rev` and then stops at `eff`: at a revision that is not
/// trivial, at the last trivial one that it looks at, or at what jj makes of a record that cannot be
/// read.
pub open spec fn walk_stops(
    t: Trace,
    repo: Seq<char>,
    start: Seq<char>,
    last: Seq<char>,
    n: nat,
    k: int,
    rev: Seq<char>,
    eff: Seq<char>,
) -> bool {
    &&& 0 <= k < t.len()
    &&& nontrivial_spec(t.take(k), repo, start, last, n) == Out::<Seq<char>>::Ask(
        looked_up(Act::JjRepo, repo, rev, TMPL_ID_EMPTY_PARENTS_DESC@),
    )
    &&& examine_spec(t.skip(k), repo, rev) matches Out::Got(w, u)
    &&& w == WalkV::Here(eff) || w == WalkV::Up(eff) || w == WalkV::Malformed
        && resolve_change_id_spec(u, repo, rev) is Got && resolve_change_id_spec(
        u,
        repo,
        rev,
    )->Got_0 == eff
}

/// The walk to the effective head stops at a revision that jj was asked about.
pub proof fn law_walk_stops_at_what_was_seen(
    t: Trace,
    repo: Seq<char>,
    start: Seq<char>,
    last: Seq<char>,
    n: nat,
)
    requires
        nontrivial_spec(t, repo, start, last, n) is Got,
        n > 0,
    ensures
        exists|k: int, rev: Seq<char>| #[trigger]
            walk_stops(
                t,
                repo,
                start,
                last,
                n,
                k,
                rev,
                nontrivial_spec(t, repo, start, last, n)->Got_0,
            ),
    decreases n,
{
    broadcast use {group_rest, replays_examine, replays_nontrivial};

    reveal_with_fuel(nontrivial_spec, 2);
    let eff = nontrivial_spec(t, repo, start, last, n)->Got_0;
    let seen = examine_spec(t, repo, start);
    let u = left(seen);
    assert(t.skip(0) =~= t);
    assert(t.take(0) =~= Seq::empty());
    let here = seen->Got_0;
    assert(examine_spec(t.take(0), repo, start) == Out::<WalkV>::Ask(
        looked_up(Act::JjRepo, repo, start, TMPL_ID_EMPTY_PARENTS_DESC@),
    ) && t.len() > 0) by {
        reveal(examine_spec);
    }
    if here is Up && n > 1 {
        let id = here->Up_0;
        let up = "parents("@ + id + ")"@;
        let less = (n - 1) as nat;
        law_walk_stops_at_what_was_seen(u, repo, up, id, less);
        let (k, rev) = choose|k: int, rev: Seq<char>| #[trigger]
            walk_stops(u, repo, up, id, less, k, rev, eff);
        assert(is_rest(u, t));
        lemma_rest(u, t);
        let m = t.len() - u.len() + k;
        assert(t.skip(m) =~= u.skip(k));
        assert(examine_spec(t.take(m), repo, start) == Out::Got(here, u.take(k)));
        assert(walk_stops(t, repo, start, last, n, m, rev, eff));
    } else {
        assert(walk_stops(t, repo, start, last, n, 0, start, eff));
    }
}

} // verus!
