//! Switching to a workspace.

use vstd::prelude::*;

use crate::search::starts_with;
use crate::tape::{agrees, bind, failure, failure_spec, Out, Stop, Tape, Trace};
use crate::text::{cat3, cat4, join, join_spec, same};
use crate::text_map::Pairs;
use crate::workspaces::{list_workspaces, list_workspaces_spec, Workspace, WorkspaceV};

verus! {

pub open spec fn names_mark(marks: Pairs, name: Seq<char>) -> bool {
    exists|i: int| 0 <= i < marks.len() && #[trigger] marks[i].0 == name
}

fn mark_named(marks: &Vec<(String, String)>, name: &str) -> (r: bool)
    ensures
        r == names_mark(marks.deep_view(), name@),
{
    for i in 0..marks.len()
        invariant
            forall|j: int| 0 <= j < i ==> #[trigger] marks.deep_view()[j].0 != name@,
    {
        assert(marks.deep_view()[i as int].0 == marks@[i as int].0@);
        if same(&marks[i].0, name) {
            return true;
        }
    }
    false
}

/// Does `target` stand for `w`: by name, by the start of its change id or by a bookmark?
pub open spec fn matches_target(w: WorkspaceV, target: Seq<char>) -> bool {
    ||| w.name == target
    ||| target.is_prefix_of(w.change_id)
    ||| names_mark(w.bookmarks_at_head, target)
    ||| names_mark(w.bookmarks_behind, target)
}

fn fits(w: &Workspace, target: &str) -> (r: bool)
    ensures
        r == matches_target(w.deep_view(), target@),
{
    same(&w.name, target) || starts_with(&w.change_id, target) || mark_named(
        &w.bookmarks_at_head,
        target,
    ) || mark_named(&w.bookmarks_behind, target)
}

/// The workspaces that `target` stands for.
pub open spec fn matching(ws: Seq<WorkspaceV>, target: Seq<char>) -> Seq<WorkspaceV>
    decreases ws.len(),
{
    if ws.len() == 0 {
        ws
    } else if matches_target(ws.last(), target) {
        matching(ws.drop_last(), target).push(ws.last())
    } else {
        matching(ws.drop_last(), target)
    }
}

pub open spec fn names_of(ws: Seq<WorkspaceV>) -> Seq<Seq<char>> {
    ws.map_values(|w: WorkspaceV| w.name)
}

/// Names and paths of the workspaces that `target` stands for.
fn find(ws: &Vec<Workspace>, target: &str) -> (r: (Vec<String>, Vec<String>))
    ensures
        r.0.deep_view() == names_of(matching(ws.deep_view(), target@)),
        r.1.deep_view() == matching(ws.deep_view(), target@).map_values(|w: WorkspaceV| w.path),
{
    let ghost all = ws.deep_view();
    let mut names: Vec<String> = Vec::new();
    let mut paths: Vec<String> = Vec::new();
    assert(names.deep_view() =~= names_of(matching(all.take(0), target@)));
    assert(paths.deep_view() =~= matching(all.take(0), target@).map_values(
        |w: WorkspaceV| w.path,
    ));
    for i in 0..ws.len()
        invariant
            all == ws.deep_view(),
            names.deep_view() == names_of(matching(all.take(i as int), target@)),
            paths.deep_view() == matching(all.take(i as int), target@).map_values(
                |w: WorkspaceV| w.path,
            ),
    {
        let ghost found = matching(all.take(i as int), target@);
        let ghost nb = names.deep_view();
        let ghost pb = paths.deep_view();
        assert(all.take(i + 1).drop_last() =~= all.take(i as int));
        assert(all.take(i + 1).last() == ws@[i as int].deep_view());
        if fits(&ws[i], target) {
            names.push(ws[i].name.clone());
            paths.push(ws[i].path.clone());
            let ghost w = all[i as int];
            assert(names.deep_view() =~= nb.push(w.name));
            assert(paths.deep_view() =~= pb.push(w.path));
            assert(names_of(found.push(w)) =~= names_of(found).push(w.name));
            assert(found.push(w).map_values(|w: WorkspaceV| w.path) =~= found.map_values(
                |w: WorkspaceV| w.path,
            ).push(w.path));
        }
    }
    assert(all.take(all.len() as int) =~= all);
    (names, paths)
}

#[verifier::opaque]
pub open spec fn existing_spec(t: Trace, repo_root: Seq<char>, target: Seq<char>) -> Out<
    Option<Seq<char>>,
> {
    bind(
        list_workspaces_spec(t, repo_root),
        |ws: Seq<WorkspaceV>, t: Trace|
            {
                let found = matching(ws, target);
                if found.len() == 0 {
                    Out::Got(None, t)
                } else if found.len() == 1 {
                    Out::Got(Some(found[0].path), t)
                } else {
                    Out::Fail(
                        failure_spec(
                            "ambiguous target '"@ + target + "': matches "@ + join_spec(
                                names_of(found),
                                ", "@,
                            ),
                        ),
                        t,
                    )
                }
            },
    )
}

/// The path of the one workspace that `target` stands for, if it stands for any.
pub fn existing(tape: &mut Tape, repo_root: &str, target: &str) -> (r: Result<Option<String>, Stop>)
    ensures
        agrees(r, final(tape)@, existing_spec(old(tape)@, repo_root@, target@)),
{
    reveal(existing_spec);
    let ws = list_workspaces(tape, repo_root)?;
    let (names, paths) = find(&ws, target);
    let ghost found = matching(ws.deep_view(), target@);
    assert(names.deep_view().len() == found.len() && names@.len() == names.deep_view().len());
    assert(paths.deep_view().len() == found.len() && paths@.len() == paths.deep_view().len());
    if names.len() == 0 {
        return Ok(None);
    }
    if names.len() == 1 {
        assert(paths.deep_view()[0] == found[0].path);
        return Ok(Some(paths[0].clone()));
    }
    let msg = cat4("ambiguous target '", target, "': matches ", &join(&names, ", "));
    Err(Stop::Fail(failure(msg)))
}

#[verifier::opaque]
pub open spec fn switch_spec(t: Trace, repo_root: Seq<char>, target: Seq<char>) -> Out<Seq<char>> {
    bind(
        existing_spec(t, repo_root, target),
        |path: Option<Seq<char>>, t: Trace|
            match path {
                Some(p) => Out::Got(p, t),
                None => Out::Fail(failure_spec("no workspace matching '"@ + target + "'"@), t),
            },
    )
}

/// The path of the one workspace that `target` stands for.
pub fn switch(tape: &mut Tape, repo_root: &str, target: &str) -> (r: Result<String, Stop>)
    ensures
        agrees(r, final(tape)@, switch_spec(old(tape)@, repo_root@, target@)),
{
    reveal(switch_spec);
    match existing(tape, repo_root, target)? {
        Some(p) => Ok(p),
        None => Err(Stop::Fail(failure(cat3("no workspace matching '", target, "'")))),
    }
}

/// Is `target` the name of the workspace, the start of its change id, or a bookmark of it, whether
/// at its head or behind?
pub open spec fn answers_to(w: WorkspaceV, target: Seq<char>) -> bool {
    ||| w.name == target
    ||| target.len() <= w.change_id.len() && w.change_id.take(target.len() as int) == target
    ||| exists|id: Seq<char>| #[trigger] w.bookmarks_at_head.contains((target, id))
    ||| exists|id: Seq<char>| #[trigger] w.bookmarks_behind.contains((target, id))
}

proof fn lemma_named(marks: Pairs, name: Seq<char>)
    ensures
        names_mark(marks, name) <==> exists|id: Seq<char>| #[trigger] marks.contains((name, id)),
{
    if names_mark(marks, name) {
        let i = choose|i: int| 0 <= i < marks.len() && #[trigger] marks[i].0 == name;
        assert(marks[i] == (name, marks[i].1));
        assert(marks.contains((name, marks[i].1)));
    }
    if exists|id: Seq<char>| #[trigger] marks.contains((name, id)) {
        let id = choose|id: Seq<char>| #[trigger] marks.contains((name, id));
        let i = choose|i: int| 0 <= i < marks.len() && marks[i] == (name, id);
        assert(marks[i].0 == name);
    }
}

proof fn lemma_answers(w: WorkspaceV, target: Seq<char>)
    ensures
        matches_target(w, target) <==> answers_to(w, target),
{
    lemma_named(w.bookmarks_at_head, target);
    lemma_named(w.bookmarks_behind, target);
    if target.len() <= w.change_id.len() {
        assert(target.is_prefix_of(w.change_id) <==> w.change_id.take(target.len() as int)
            =~= target);
    }
}

proof fn lemma_matching(ws: Seq<WorkspaceV>, target: Seq<char>)
    ensures
        (forall|i: int| 0 <= i < ws.len() ==> !answers_to(#[trigger] ws[i], target)) ==> matching(
            ws,
            target,
        ).len() == 0,
        forall|i: int|
            0 <= i < ws.len() && answers_to(#[trigger] ws[i], target) ==> matching(ws, target).len()
                >= 1,
        forall|i: int|
            0 <= i < ws.len() && answers_to(#[trigger] ws[i], target) && (forall|j: int|
                0 <= j < ws.len() && j != i ==> !answers_to(#[trigger] ws[j], target)) ==> matching(
                ws,
                target,
            ) == seq![ws[i]],
        forall|i: int, j: int|
            0 <= i < j < ws.len() && answers_to(#[trigger] ws[i], target) && answers_to(
                #[trigger] ws[j],
                target,
            ) ==> matching(ws, target).len() >= 2,
    decreases ws.len(),
{
    if ws.len() > 0 {
        let front = ws.drop_last();
        lemma_matching(front, target);
        lemma_answers(ws.last(), target);
        assert forall|i: int| 0 <= i < front.len() implies #[trigger] front[i] == ws[i] by {}
        if forall|i: int| 0 <= i < ws.len() ==> !answers_to(#[trigger] ws[i], target) {
            assert(forall|i: int| 0 <= i < front.len() ==> !answers_to(#[trigger] front[i], target));
        }
        assert forall|i: int|
            0 <= i < ws.len() && answers_to(#[trigger] ws[i], target) implies matching(
            ws,
            target,
        ).len() >= 1 by {
            if i < front.len() {
                assert(front[i] == ws[i]);
            }
        }
        assert forall|i: int|
            0 <= i < ws.len() && answers_to(#[trigger] ws[i], target) && (forall|j: int|
                0 <= j < ws.len() && j != i ==> !answers_to(#[trigger] ws[j], target)) implies matching(
            ws,
            target,
        ) == seq![ws[i]] by {
            if i < front.len() {
                assert(front[i] == ws[i]);
                assert(!answers_to(ws[ws.len() - 1], target));
                assert(matching(front, target) == seq![front[i]]);
            } else {
                assert(forall|j: int|
                    0 <= j < front.len() ==> !answers_to(#[trigger] front[j], target));
                assert(matching(front, target) =~= Seq::empty());
                assert(matching(ws, target) =~= seq![ws[i]]);
            }
        }
        assert forall|i: int, j: int|
            0 <= i < j < ws.len() && answers_to(#[trigger] ws[i], target) && answers_to(
                #[trigger] ws[j],
                target,
            ) implies matching(ws, target).len() >= 2 by {
            assert(front[i] == ws[i]);
            if j < front.len() {
                assert(front[j] == ws[j]);
            }
        }
    }
}

/// Where exactly one of the listed workspaces answers to the target, by its name, by its change id
/// or by any of its bookmarks, the switch leads to the path of that workspace.
pub proof fn law_switch_finds_the_one(
    t: Trace,
    repo_root: Seq<char>,
    target: Seq<char>,
    ws: Seq<WorkspaceV>,
    u: Trace,
    i: int,
)
    requires
        list_workspaces_spec(t, repo_root) == Out::Got(ws, u),
        0 <= i < ws.len(),
        answers_to(ws[i], target),
        forall|j: int| 0 <= j < ws.len() && j != i ==> !answers_to(#[trigger] ws[j], target),
    ensures
        existing_spec(t, repo_root, target) == Out::Got(Some(ws[i].path), u),
        switch_spec(t, repo_root, target) == Out::Got(ws[i].path, u),
{
    reveal(existing_spec);
    reveal(switch_spec);
    lemma_matching(ws, target);
}

/// Where no listed workspace answers to the target, there is none to switch to.
pub proof fn law_switch_needs_a_match(
    t: Trace,
    repo_root: Seq<char>,
    target: Seq<char>,
    ws: Seq<WorkspaceV>,
    u: Trace,
)
    requires
        list_workspaces_spec(t, repo_root) == Out::Got(ws, u),
        forall|j: int| 0 <= j < ws.len() ==> !answers_to(#[trigger] ws[j], target),
    ensures
        existing_spec(t, repo_root, target) == Out::Got(None::<Seq<char>>, u),
        switch_spec(t, repo_root, target) is Fail,
{
    reveal(existing_spec);
    reveal(switch_spec);
    lemma_matching(ws, target);
}

/// Where two listed workspaces answer to the target, the switch is refused.
pub proof fn law_switch_refuses_ambiguity(
    t: Trace,
    repo_root: Seq<char>,
    target: Seq<char>,
    ws: Seq<WorkspaceV>,
    u: Trace,
    i: int,
    j: int,
)
    requires
        list_workspaces_spec(t, repo_root) == Out::Got(ws, u),
        0 <= i < j < ws.len(),
        answers_to(ws[i], target),
        answers_to(ws[j], target),
    ensures
        existing_spec(t, repo_root, target) is Fail,
        switch_spec(t, repo_root, target) is Fail,
{
    reveal(existing_spec);
    reveal(switch_spec);
    lemma_matching(ws, target);
}

} // verus!
