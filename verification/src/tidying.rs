//! What becomes of trivial heads and of the bookmarks on them.

use vstd::prelude::*;

use crate::effects::{abandoned, answer, asks_resolve, bookmark_moved, head_checked, looked_up};
use crate::jj_utils::{
    abandon_trivial_heads_spec, check_trivial_head_spec, move_bookmarks_spec, move_step,
    resolve_change_id_spec, sort_step, unsorted, vacate_spec, SortedV,
};
use crate::paths::parent;
use crate::replay::{
    each_reaches, group_rest, is_rest, leaves, left, lemma_rest, replays, replays_bookmark_set,
    replays_check_trivial_head, replays_each, replays_local_bookmarks_on, replays_move_bookmarks,
    replays_resolve_change_id, replays_vacate,
};
use crate::revisions::{abandon_revisions_spec, bookmark_set_spec, local_bookmarks_on_spec};
use crate::tape::{each, Act, Kind, Out, RequestV, Trace};

verus! {

/// With the first `k` replies the abandoning of trivial heads asks for `q`, and the next reply says
/// that it was done.
pub open spec fn tidying_asked(
    t: Trace,
    repo: Seq<char>,
    ids: Seq<Seq<char>>,
    k: int,
    q: RequestV,
) -> bool {
    &&& 0 <= k < t.len()
    &&& abandon_trivial_heads_spec(t.take(k), repo, ids) == Out::<()>::Ask(q)
    &&& t[k].kind == Kind::Done
}

/// The replies tell that the revision is a trivial head.
pub open spec fn found_trivial(t: Trace, repo: Seq<char>, rev: Seq<char>) -> bool {
    check_trivial_head_spec(t, repo, rev) matches Out::Got(found, u) && found is Some
}

proof fn lemma_sorted(t: Trace, repo: Seq<char>, ids: Seq<Seq<char>>, acc: SortedV)
    ensures
        each(t, ids, acc, sort_step(repo)) matches Out::Got(s, u) ==> {
            &&& s.skipped.len() >= acc.skipped.len()
            &&& s.skipped.len() == acc.skipped.len() ==> s.trivial == acc.trivial + ids
        },
    decreases ids.len(),
{
    if ids.len() > 0 {
        if let Out::Got(a, u) = sort_step(repo)(t, acc, ids[0]) {
            lemma_sorted(u, repo, ids.drop_first(), a);
            if a.skipped.len() == acc.skipped.len() {
                assert(a.trivial == acc.trivial.push(ids[0]));
                assert(a.trivial + ids.drop_first() =~= acc.trivial + ids);
            }
        }
    } else {
        assert(acc.trivial + ids =~= acc.trivial);
    }
}

proof fn lemma_sort_replays(repo: Seq<char>)
    ensures
        forall|t: Trace, a: SortedV, x: Seq<char>| leaves(#[trigger] sort_step(repo)(t, a, x), t),
        forall|t: Trace, k: int, a: SortedV, x: Seq<char>|
            0 <= k <= t.len() ==> replays(
                sort_step(repo)(t, a, x),
                t,
                k,
                #[trigger] sort_step(repo)(t.take(k), a, x),
            ),
{
    broadcast use {group_rest, replays_check_trivial_head, replays_vacate};

}

/// Where revisions are abandoned as trivial heads without a failure, jj was asked of each of them
/// whether it is one, and it was; and then all of them were abandoned, and no others.
pub proof fn law_only_trivial_heads_are_abandoned(t: Trace, repo: Seq<char>, ids: Seq<Seq<char>>)
    requires
        abandon_trivial_heads_spec(t, repo, ids) is Got,
        ids.len() != 0,
    ensures
        exists|k: int| #[trigger] tidying_asked(t, repo, ids, k, abandoned(repo, ids)),
        forall|i: int| #![trigger ids[i]]
            0 <= i < ids.len() ==> exists|j: int| #[trigger]
                tidying_asked(t, repo, ids, j, head_checked(repo, ids[i]))
                    && found_trivial(t.skip(j), repo, ids[i]),
{
    broadcast use {group_rest, replays_each, replays_check_trivial_head, replays_vacate};

    reveal(abandon_trivial_heads_spec);
    reveal(abandon_revisions_spec);
    lemma_sort_replays(repo);
    let sorted = each(t, ids, unsorted(), sort_step(repo));
    lemma_sorted(t, repo, ids, unsorted());
    let u = left(sorted);
    assert(is_rest(u, t));
    lemma_rest(u, t);
    assert(sorted->Got_0.trivial =~= ids);
    assert(u.take(0) =~= Seq::empty());
    assert(tidying_asked(t, repo, ids, t.len() - u.len(), abandoned(repo, ids)));
    assert forall|i: int| #![trigger ids[i]] 0 <= i < ids.len() implies exists|j: int| #[trigger]
        tidying_asked(t, repo, ids, j, head_checked(repo, ids[i])) && found_trivial(
            t.skip(j),
            repo,
            ids[i],
        ) by {
        lemma_all_trivial(t, repo, ids, unsorted(), i);
        reveal(check_trivial_head_spec);
        let w = reaching(t, repo, ids, unsorted(), i);
        lemma_reaching(t, repo, ids, unsorted(), i);
        lemma_rest(w.0, t);
        let m = t.len() - w.0.len();
        assert(w.0.take(0) =~= Seq::empty());
        assert(sort_step(repo)(w.0.take(0), w.1, ids[i]) is Ask);
        assert(t.skip(m) =~= w.0);
        assert(tidying_asked(t, repo, ids, m, head_checked(repo, ids[i])));
    }
}

/// What is left to read, and what was sorted, when the walk comes to the revision at `i`.
spec fn reaching(
    t: Trace,
    repo: Seq<char>,
    ids: Seq<Seq<char>>,
    acc: SortedV,
    i: int,
) -> (Trace, SortedV)
    decreases i,
{
    if i <= 0 {
        (t, acc)
    } else {
        let m = sort_step(repo)(t, acc, ids[0]);
        reaching(left(m), repo, ids.drop_first(), m->Got_0, i - 1)
    }
}

proof fn lemma_all_trivial(t: Trace, repo: Seq<char>, ids: Seq<Seq<char>>, acc: SortedV, i: int)
    requires
        each(t, ids, acc, sort_step(repo)) is Got,
        each(t, ids, acc, sort_step(repo))->Got_0.skipped.len() == acc.skipped.len(),
        0 <= i < ids.len(),
    ensures
        ({
            let w = reaching(t, repo, ids, acc, i);
            check_trivial_head_spec(w.0, repo, ids[i]) matches Out::Got(found, u) && found is Some
        }),
    decreases i,
{
    let m = sort_step(repo)(t, acc, ids[0]);
    lemma_sorted(left(m), repo, ids.drop_first(), m->Got_0);
    if i > 0 {
        lemma_all_trivial(left(m), repo, ids.drop_first(), m->Got_0, i - 1);
        assert(ids.drop_first()[i - 1] == ids[i]);
    }
}

proof fn lemma_reaching(t: Trace, repo: Seq<char>, ids: Seq<Seq<char>>, acc: SortedV, i: int)
    requires
        each(t, ids, acc, sort_step(repo)) is Got,
        0 <= i < ids.len(),
    ensures
        is_rest(reaching(t, repo, ids, acc, i).0, t),
        sort_step(repo)(
            reaching(t, repo, ids, acc, i).0,
            reaching(t, repo, ids, acc, i).1,
            ids[i],
        ) is Got,
        forall|j: int|
            0 <= j <= reaching(t, repo, ids, acc, i).0.len() && (#[trigger] sort_step(repo)(
                reaching(t, repo, ids, acc, i).0.take(j),
                reaching(t, repo, ids, acc, i).1,
                ids[i],
            )) is Ask ==> each(
                t.take(t.len() - reaching(t, repo, ids, acc, i).0.len() + j),
                ids,
                acc,
                sort_step(repo),
            ) == Out::<SortedV>::Ask(
                sort_step(repo)(
                    reaching(t, repo, ids, acc, i).0.take(j),
                    reaching(t, repo, ids, acc, i).1,
                    ids[i],
                )->Ask_0,
            ),
    decreases i,
{
    broadcast use group_rest;

    lemma_sort_replays(repo);
    let step = sort_step(repo);
    assert(leaves(step(t, acc, ids[0]), t));
    if i > 0 {
        let m = step(t, acc, ids[0]);
        let u = left(m);
        let rest = ids.drop_first();
        lemma_reaching(u, repo, rest, m->Got_0, i - 1);
        let r = reaching(t, repo, ids, acc, i);
        assert(rest[i - 1] == ids[i]);
        assert forall|j: int|
            0 <= j <= r.0.len() && (#[trigger] step(r.0.take(j), r.1, ids[i])) is Ask implies each(
            t.take(t.len() - r.0.len() + j),
            ids,
            acc,
            step,
        ) == Out::<SortedV>::Ask(step(r.0.take(j), r.1, ids[i])->Ask_0) by {
            let k = t.len() - r.0.len() + j;
            assert(replays(step(t, acc, ids[0]), t, k, step(t.take(k), acc, ids[0])));
            assert(u.take(k - (t.len() - u.len())) == u.take(u.len() - r.0.len() + j));
        }
    }
}

/// A revision that is no trivial head is not abandoned as one: the run fails before it changes
/// anything.
pub proof fn law_a_full_head_is_not_abandoned(t: Trace, repo: Seq<char>, id: Seq<char>, u: Trace)
    requires
        check_trivial_head_spec(t, repo, id) == Out::Got(None::<Seq<char>>, u),
    ensures
        abandon_trivial_heads_spec(t, repo, seq![id]) matches Out::Fail(_, v) && v == u,
{
    reveal(abandon_trivial_heads_spec);
    let ids = seq![id];
    assert(ids.drop_first() =~= Seq::empty());
    reveal_with_fuel(each, 3);
}

/// With the first `k` replies the clearing of a revision asks for `q`, and the next reply says that
/// it was done.
pub open spec fn vacating_asked(
    t: Trace,
    repo: Seq<char>,
    id: Seq<char>,
    k: int,
    q: RequestV,
) -> bool {
    &&& 0 <= k < t.len()
    &&& vacate_spec(t.take(k), repo, id) == Out::<()>::Ask(q)
    &&& t[k].kind == Kind::Done
}

/// Before a trivial head is abandoned, every bookmark on it is moved to its parent.
pub proof fn law_bookmarks_go_to_the_parent(
    t: Trace,
    repo: Seq<char>,
    id: Seq<char>,
    bms: Seq<Seq<char>>,
    u: Trace,
    i: int,
)
    requires
        vacate_spec(t, repo, id) is Got,
        local_bookmarks_on_spec(t, repo, id) == Out::Got(bms, u),
        0 <= i < bms.len(),
    ensures
        exists|j: int, k: int|
            j < k && #[trigger] vacating_asked(
                t,
                repo,
                id,
                j,
                looked_up(
                    Act::JjRepo,
                    repo,
                    "parents("@ + id + ")"@,
                    "change_id ++ \"\\n\""@,
                ),
            ) && #[trigger] vacating_asked(
                t,
                repo,
                id,
                k,
                bookmark_moved(repo, answer(t, j), bms[i]),
            ),
{
    broadcast use {
        group_rest,
        replays_local_bookmarks_on,
        replays_resolve_change_id,
        replays_move_bookmarks,
        replays_bookmark_set,
    };

    reveal(vacate_spec);
    reveal(move_bookmarks_spec);
    assert(is_rest(u, t));
    lemma_rest(u, t);
    let up = resolve_change_id_spec(u, repo, "parents("@ + id + ")"@);
    let parent = up->Got_0;
    let j = asks_resolve(u, repo, "parents("@ + id + ")"@);
    let w = left(up);
    assert(is_rest(w, t));
    lemma_rest(w, t);
    let step = move_step(repo, parent, id);
    let (x, a) = each_reaches(w, bms, (), step, i);
    assert(is_rest(x, t));
    lemma_rest(x, w);
    lemma_rest(x, t);
    reveal(bookmark_set_spec);
    assert(x.take(0) =~= Seq::empty());
    assert(step(x.take(0), a, bms[i]) is Ask);
    assert(move_bookmarks_spec(w.take(w.len() - x.len()), repo, bms, parent, id) is Ask);
    let n = t.len() - u.len();
    assert(answer(t, n + j) == answer(u, j));
    assert(vacating_asked(
        t,
        repo,
        id,
        n + j,
        looked_up(Act::JjRepo, repo, "parents("@ + id + ")"@, "change_id ++ \"\\n\""@),
    ));
    lemma_resolve_reads_one(u, repo, "parents("@ + id + ")"@);
    assert(vacating_asked(
        t,
        repo,
        id,
        t.len() - x.len(),
        bookmark_moved(repo, answer(t, n + j), bms[i]),
    ));
}

proof fn lemma_resolve_reads_one(t: Trace, repo: Seq<char>, rev: Seq<char>)
    requires
        resolve_change_id_spec(t, repo, rev) is Got,
    ensures
        left(resolve_change_id_spec(t, repo, rev)).len() == t.len() - 1,
{
    reveal(resolve_change_id_spec);
}

} // verus!
