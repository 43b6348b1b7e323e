//! Workspaces with their revisions and bookmarks.

use vstd::prelude::*;

use crate::jj_logs::{copy_revisions, RevisionInfo, RevisionInfoV};
use crate::jj_parse::{WorkspaceEntry, WorkspaceEntryV};
use crate::jujutsu::{
    last_nonempty_timestamp, last_nonempty_timestamp_spec, list_workspace_entries,
    list_workspace_entries_spec,
};
use crate::revisions::{
    workspace_bookmarks, workspace_bookmarks_spec, workspace_revisions_with_bookmarks,
    workspace_revisions_with_bookmarks_spec,
};
use crate::tape::{
    agrees, attempt, attempt_spec, bind, each, lemma_each_step, FailureV, Out, Stop, Tape, Trace,
};
use crate::text::{empty, same};
use crate::text_map::Pairs;

verus! {

#[derive(Debug)]
pub struct Workspace {
    pub name: String,
    pub change_id: String,
    pub description: String,
    /// Bookmarks at the head of the revision chain, with their change ids.
    pub bookmarks_at_head: Vec<(String, String)>,
    /// Bookmarks behind the head, with their change ids.
    pub bookmarks_behind: Vec<(String, String)>,
    pub is_current: bool,
    pub path: String,
    /// Revisions unique to this workspace, not shared with the default one. The default workspace
    /// has none.
    pub revisions: Vec<RevisionInfo>,
    /// Epoch seconds of the newest non-empty revision.
    pub last_modified: Option<i64>,
}

pub struct WorkspaceV {
    pub name: Seq<char>,
    pub change_id: Seq<char>,
    pub description: Seq<char>,
    pub bookmarks_at_head: Pairs,
    pub bookmarks_behind: Pairs,
    pub is_current: bool,
    pub path: Seq<char>,
    pub revisions: Seq<RevisionInfoV>,
    pub last_modified: Option<i64>,
}

impl DeepView for Workspace {
    type V = WorkspaceV;

    open spec fn deep_view(&self) -> WorkspaceV {
        WorkspaceV {
            name: self.name@,
            change_id: self.change_id@,
            description: self.description@,
            bookmarks_at_head: self.bookmarks_at_head.deep_view(),
            bookmarks_behind: self.bookmarks_behind.deep_view(),
            is_current: self.is_current,
            path: self.path@,
            revisions: self.revisions.deep_view(),
            last_modified: self.last_modified,
        }
    }
}

/// The change id at the head of the revision chain of `w`.
pub open spec fn chain_head(w: WorkspaceV) -> Seq<char> {
    if w.revisions.len() > 0 {
        w.revisions[0].change_id
    } else {
        w.change_id
    }
}

/// `w` with one more bookmark: at the head, or behind it.
pub open spec fn classify_spec(w: WorkspaceV, name: Seq<char>, change_id: Seq<char>) -> WorkspaceV {
    if chain_head(w) == change_id {
        WorkspaceV { bookmarks_at_head: w.bookmarks_at_head.push((name, change_id)), ..w }
    } else {
        WorkspaceV { bookmarks_behind: w.bookmarks_behind.push((name, change_id)), ..w }
    }
}

pub open spec fn classify_all_spec(w: WorkspaceV, bms: Pairs) -> WorkspaceV
    decreases bms.len(),
{
    if bms.len() == 0 {
        w
    } else {
        classify_spec(classify_all_spec(w, bms.drop_last()), bms.last().0, bms.last().1)
    }
}

pub fn copy_pairs(v: &Vec<(String, String)>) -> (r: Vec<(String, String)>)
    ensures
        r.deep_view() == v.deep_view(),
{
    let mut out: Vec<(String, String)> = Vec::new();
    for i in 0..v.len()
        invariant
            out.deep_view() == v.deep_view().take(i as int),
    {
        let ghost before = out.deep_view();
        out.push((v[i].0.clone(), v[i].1.clone()));
        assert(out.deep_view() =~= before.push((v@[i as int].0@, v@[i as int].1@)));
        assert(v.deep_view().take(i + 1) =~= before.push((v@[i as int].0@, v@[i as int].1@)));
    }
    assert(v.deep_view().take(v@.len() as int) =~= v.deep_view());
    out
}

impl Workspace {
    /// Files a bookmark under those at the head or those behind it.
    pub fn classify_bookmark(&mut self, name: String, change_id: String)
        ensures
            final(self).deep_view() == classify_spec(old(self).deep_view(), name@, change_id@),
    {
        let ghost before = self.deep_view();
        assert(self.revisions.deep_view().len() == self.revisions@.len());
        let at_head = if self.revisions.len() > 0 {
            same(&self.revisions[0].change_id, &change_id)
        } else {
            same(&self.change_id, &change_id)
        };
        assert(at_head == (chain_head(before) == change_id@));
        let ghost entry = (name@, change_id@);
        if at_head {
            self.bookmarks_at_head.push((name, change_id));
            assert(self.bookmarks_at_head.deep_view() =~= before.bookmarks_at_head.push(entry));
        } else {
            self.bookmarks_behind.push((name, change_id));
            assert(self.bookmarks_behind.deep_view() =~= before.bookmarks_behind.push(entry));
        }
    }

    fn classify_all(&mut self, bms: &Vec<(String, String)>)
        ensures
            final(self).deep_view() == classify_all_spec(old(self).deep_view(), bms.deep_view()),
    {
        let ghost before = self.deep_view();
        let ghost all = bms.deep_view();
        assert(all.take(0) =~= Pairs::empty());
        for i in 0..bms.len()
            invariant
                all == bms.deep_view(),
                self.deep_view() == classify_all_spec(before, all.take(i as int)),
        {
            assert(all.take(i + 1).drop_last() =~= all.take(i as int));
            assert(all.take(i + 1).last() == (bms@[i as int].0@, bms@[i as int].1@));
            self.classify_bookmark(bms[i].0.clone(), bms[i].1.clone());
        }
        assert(all.take(all.len() as int) =~= all);
    }

    pub fn copy(&self) -> (r: Workspace)
        ensures
            r.deep_view() == self.deep_view(),
    {
        Workspace {
            name: self.name.clone(),
            change_id: self.change_id.clone(),
            description: self.description.clone(),
            bookmarks_at_head: copy_pairs(&self.bookmarks_at_head),
            bookmarks_behind: copy_pairs(&self.bookmarks_behind),
            is_current: self.is_current,
            path: self.path.clone(),
            revisions: copy_revisions(&self.revisions),
            last_modified: self.last_modified,
        }
    }
}

/// Filing a bookmark keeps every bookmark that was there and adds it in exactly one of the lists.
pub proof fn law_classify_keeps(w: WorkspaceV, name: Seq<char>, id: Seq<char>)
    ensures
        ({
            let v = classify_spec(w, name, id);
            &&& v.bookmarks_at_head.len() + v.bookmarks_behind.len() == w.bookmarks_at_head.len()
                + w.bookmarks_behind.len() + 1
            &&& w.bookmarks_at_head.is_prefix_of(v.bookmarks_at_head)
            &&& w.bookmarks_behind.is_prefix_of(v.bookmarks_behind)
            &&& v.bookmarks_at_head.contains((name, id)) || v.bookmarks_behind.contains((name, id))
            &&& chain_head(v) == chain_head(w)
        }),
{
    let v = classify_spec(w, name, id);
    if chain_head(w) == id {
        assert(v.bookmarks_at_head.last() == (name, id));
    } else {
        assert(v.bookmarks_behind.last() == (name, id));
    }
}

/// A workspace of which only the entry is known.
pub open spec fn bare_spec(e: WorkspaceEntryV) -> WorkspaceV {
    WorkspaceV {
        name: e.name,
        change_id: e.change_id,
        description: e.description,
        bookmarks_at_head: Seq::empty(),
        bookmarks_behind: Seq::empty(),
        is_current: false,
        path: e.path,
        revisions: Seq::empty(),
        last_modified: None,
    }
}

fn bare(e: &WorkspaceEntry) -> (r: Workspace)
    ensures
        r.deep_view() == bare_spec(e.deep_view()),
{
    let r = Workspace {
        name: e.name.clone(),
        change_id: e.change_id.clone(),
        description: e.description.clone(),
        bookmarks_at_head: Vec::new(),
        bookmarks_behind: Vec::new(),
        is_current: false,
        path: e.path.clone(),
        revisions: Vec::new(),
        last_modified: None,
    };
    assert(r.bookmarks_at_head.deep_view() =~= Pairs::empty());
    assert(r.bookmarks_behind.deep_view() =~= Pairs::empty());
    assert(r.revisions.deep_view() =~= Seq::<RevisionInfoV>::empty());
    r
}

/// The position of the default workspace.
pub open spec fn default_at(names: Seq<WorkspaceEntryV>) -> Option<int>
    decreases names.len(),
{
    if names.len() == 0 {
        None
    } else if names[0].name == "default"@ {
        Some(0)
    } else {
        match default_at(names.drop_first()) {
            Some(i) => Some(i + 1),
            None => None,
        }
    }
}

fn find_default(entries: &Vec<WorkspaceEntry>) -> (r: Option<usize>)
    ensures
        match r {
            Some(i) => default_at(entries.deep_view()) == Some(i as int) && i < entries@.len(),
            None => default_at(entries.deep_view()) is None,
        },
{
    let ghost all = entries.deep_view();
    assert(all.skip(0) =~= all);
    for i in 0..entries.len()
        invariant
            all == entries.deep_view(),
            default_at(all) == (match default_at(all.skip(i as int)) {
                Some(k) => Some(k + i),
                None => None,
            }),
    {
        proof {
            lemma_each_step(all, i as int);
        }
        assert(all[i as int].name == entries@[i as int].name@);
        if same(&entries[i].name, "default") {
            return Some(i);
        }
    }
    None
}

/// What the listing adds to one entry: revisions and bookmarks, of all workspaces but the default.
#[verifier::opaque]
pub open spec fn filled_spec(
    t: Trace,
    repo: Seq<char>,
    default_id: Seq<char>,
    e: WorkspaceEntryV,
) -> Out<WorkspaceV> {
    if default_id.len() == 0 || e.name == "default"@ {
        Out::Got(bare_spec(e), t)
    } else {
        bind(
            attempt_spec(
                workspace_revisions_with_bookmarks_spec(t, repo, e.change_id, default_id),
            ),
            |r: Result<(Seq<RevisionInfoV>, Pairs), FailureV>, t: Trace|
                Out::Got(
                    match r {
                        Ok((revs, bms)) => classify_all_spec(
                            WorkspaceV { revisions: revs, ..bare_spec(e) },
                            bms,
                        ),
                        Err(_) => bare_spec(e),
                    },
                    t,
                ),
        )
    }
}

fn filled(tape: &mut Tape, repo: &str, default_id: &str, e: &WorkspaceEntry) -> (r: Result<
    Workspace,
    Stop,
>)
    ensures
        agrees(
            r,
            final(tape)@,
            filled_spec(old(tape)@, repo@, default_id@, e.deep_view()),
        ),
{
    reveal(filled_spec);
    let mut w = bare(e);
    if empty(default_id) || same(&e.name, "default") {
        return Ok(w);
    }
    match attempt(workspace_revisions_with_bookmarks(tape, repo, &e.change_id, default_id))? {
        Ok((revs, bms)) => {
            w.revisions = revs;
            w.classify_all(&bms);
            Ok(w)
        },
        Err(_) => Ok(w),
    }
}

pub open spec fn fill_step(repo: Seq<char>, default_id: Seq<char>) -> spec_fn(
    Trace,
    Seq<WorkspaceV>,
    WorkspaceEntryV,
) -> Out<Seq<WorkspaceV>> {
    |t: Trace, acc: Seq<WorkspaceV>, e: WorkspaceEntryV|
        bind(
            filled_spec(t, repo, default_id, e),
            |w: WorkspaceV, t: Trace| Out::Got(acc.push(w), t),
        )
}

fn fill_all(tape: &mut Tape, repo: &str, default_id: &str, entries: &Vec<WorkspaceEntry>) -> (r:
    Result<Vec<Workspace>, Stop>)
    ensures
        agrees(
            r,
            final(tape)@,
            each(
                old(tape)@,
                entries.deep_view(),
                Seq::<WorkspaceV>::empty(),
                fill_step(repo@, default_id@),
            ),
        ),
        r matches Ok(v) ==> v@.len() == entries@.len(),
{
    let ghost t0 = tape@;
    let ghost all = entries.deep_view();
    let ghost step = fill_step(repo@, default_id@);
    let mut out: Vec<Workspace> = Vec::new();
    assert(out.deep_view() =~= Seq::<WorkspaceV>::empty());
    assert(all.skip(0) =~= all);
    for i in 0..entries.len()
        invariant
            all == entries.deep_view(),
            t0 == old(tape)@,
            step == fill_step(repo@, default_id@),
            out@.len() == i,
            each(t0, all, Seq::<WorkspaceV>::empty(), step) == each(
                tape@,
                all.skip(i as int),
                out.deep_view(),
                step,
            ),
    {
        proof {
            lemma_each_step(all, i as int);
        }
        assert(all[i as int] == entries@[i as int].deep_view());
        let ghost before = out.deep_view();
        let w = filled(tape, repo, default_id, &entries[i])?;
        let ghost x = w.deep_view();
        out.push(w);
        assert(out.deep_view() =~= before.push(x));
    }
    Ok(out)
}

pub open spec fn stamp_step(repo: Seq<char>) -> spec_fn(Trace, Seq<WorkspaceV>, WorkspaceV) -> Out<
    Seq<WorkspaceV>,
> {
    |t: Trace, acc: Seq<WorkspaceV>, w: WorkspaceV|
        bind(
            last_nonempty_timestamp_spec(t, repo, w.change_id),
            |n: Option<i64>, t: Trace|
                Out::Got(acc.push(WorkspaceV { last_modified: n, ..w }), t),
        )
}

fn stamp_all(tape: &mut Tape, repo: &str, wss: &Vec<Workspace>) -> (r: Result<Vec<Workspace>, Stop>)
    ensures
        agrees(
            r,
            final(tape)@,
            each(
                old(tape)@,
                wss.deep_view(),
                Seq::<WorkspaceV>::empty(),
                stamp_step(repo@),
            ),
        ),
{
    let ghost t0 = tape@;
    let ghost all = wss.deep_view();
    let ghost step = stamp_step(repo@);
    let mut out: Vec<Workspace> = Vec::new();
    assert(out.deep_view() =~= Seq::<WorkspaceV>::empty());
    assert(all.skip(0) =~= all);
    for i in 0..wss.len()
        invariant
            all == wss.deep_view(),
            t0 == old(tape)@,
            step == stamp_step(repo@),
            each(t0, all, Seq::<WorkspaceV>::empty(), step) == each(
                tape@,
                all.skip(i as int),
                out.deep_view(),
                step,
            ),
    {
        proof {
            lemma_each_step(all, i as int);
        }
        assert(all[i as int] == wss@[i as int].deep_view());
        let ghost before = out.deep_view();
        let n = last_nonempty_timestamp(tape, repo, &wss[i].change_id)?;
        assert(n.deep_view() == n);
        let mut w = wss[i].copy();
        w.last_modified = n;
        let ghost x = w.deep_view();
        out.push(w);
        assert(out.deep_view() =~= before.push(x));
    }
    Ok(out)
}

/// Files the bookmarks of the default workspace, which is at `i`, as far as jj lists them.
#[verifier::opaque]
pub open spec fn fill_default_spec(
    t: Trace,
    repo: Seq<char>,
    default_id: Seq<char>,
    wss: Seq<WorkspaceV>,
    i: int,
) -> Out<Seq<WorkspaceV>> {
    bind(
        attempt_spec(workspace_bookmarks_spec(t, repo, default_id, default_id)),
        |b: Result<Pairs, FailureV>, t: Trace|
            Out::Got(
                match b {
                    Ok(bms) => wss.update(i, classify_all_spec(wss[i], bms)),
                    Err(_) => wss,
                },
                t,
            ),
    )
}

fn fill_default(
    tape: &mut Tape,
    repo: &str,
    default_id: &str,
    wss: Vec<Workspace>,
    i: usize,
) -> (r: Result<Vec<Workspace>, Stop>)
    requires
        i < wss@.len(),
    ensures
        agrees(
            r,
            final(tape)@,
            fill_default_spec(old(tape)@, repo@, default_id@, wss.deep_view(), i as int),
        ),
{
    reveal(fill_default_spec);
    let ghost before = wss.deep_view();
    match attempt(workspace_bookmarks(tape, repo, default_id, default_id))? {
        Err(_) => Ok(wss),
        Ok(bms) => {
            let mut w = wss[i].copy();
            w.classify_all(&bms);
            let ghost x = w.deep_view();
            let mut out = wss;
            out.set(i, w);
            assert(out.deep_view() =~= before.update(i as int, x));
            Ok(out)
        },
    }
}

#[verifier::opaque]
pub open spec fn list_workspaces_spec(t: Trace, repo: Seq<char>) -> Out<Seq<WorkspaceV>> {
    bind(
        list_workspace_entries_spec(t, repo),
        |entries: Seq<WorkspaceEntryV>, t: Trace|
            {
                let home = default_at(entries);
                let default_id = match home {
                    Some(i) => entries[i].change_id,
                    None => Seq::empty(),
                };
                bind(
                    each(t, entries, Seq::<WorkspaceV>::empty(), fill_step(repo, default_id)),
                    |wss: Seq<WorkspaceV>, t: Trace|
                        bind(
                            if default_id.len() == 0 {
                                Out::Got(wss, t)
                            } else {
                                fill_default_spec(t, repo, default_id, wss, home->Some_0)
                            },
                            |wss: Seq<WorkspaceV>, t: Trace|
                                each(t, wss, Seq::<WorkspaceV>::empty(), stamp_step(repo)),
                        ),
                )
            },
    )
}

/// All workspaces with their revisions, bookmarks and times. What jj does not list of one stays
/// empty.
pub fn list_workspaces(tape: &mut Tape, repo: &str) -> (r: Result<Vec<Workspace>, Stop>)
    ensures
        agrees(r, final(tape)@, list_workspaces_spec(old(tape)@, repo@)),
{
    reveal(list_workspaces_spec);
    let entries = list_workspace_entries(tape, repo)?;
    let home = find_default(&entries);
    let default_id = match home {
        Some(i) => entries[i].change_id.clone(),
        None => String::new(),
    };
    assert(home is None ==> default_id@ =~= Seq::<char>::empty());
    let wss = fill_all(tape, repo, &default_id, &entries)?;
    let wss = if empty(&default_id) {
        wss
    } else {
        match home {
            Some(i) => fill_default(tape, repo, &default_id, wss, i)?,
            None => wss,
        }
    };
    stamp_all(tape, repo, &wss)
}

// ---------------------------------------------------------------------------
// Laws
// ---------------------------------------------------------------------------

/// No default workspace among `wss` has revisions.
pub open spec fn default_has_none(wss: Seq<WorkspaceV>) -> bool {
    forall|i: int|
        0 <= i < wss.len() && (#[trigger] wss[i]).name == "default"@ ==> wss[i].revisions.len() == 0
}

proof fn lemma_classify_all(w: WorkspaceV, bms: Pairs)
    ensures
        classify_all_spec(w, bms).name == w.name,
        classify_all_spec(w, bms).revisions == w.revisions,
    decreases bms.len(),
{
    if bms.len() > 0 {
        lemma_classify_all(w, bms.drop_last());
    }
}

proof fn lemma_default_at(entries: Seq<WorkspaceEntryV>)
    ensures
        default_at(entries) matches Some(i) ==> 0 <= i < entries.len(),
    decreases entries.len(),
{
    if entries.len() > 0 {
        lemma_default_at(entries.drop_first());
    }
}

proof fn lemma_filled(
    t: Trace,
    repo: Seq<char>,
    default_id: Seq<char>,
    entries: Seq<WorkspaceEntryV>,
    acc: Seq<WorkspaceV>,
)
    requires
        default_has_none(acc),
    ensures
        each(t, entries, acc, fill_step(repo, default_id)) matches Out::Got(wss, _) ==> {
            &&& default_has_none(wss)
            &&& wss.len() == acc.len() + entries.len()
        },
    decreases entries.len(),
{
    if entries.len() > 0 {
        match filled_spec(t, repo, default_id, entries[0]) {
            Out::Got(w, u) => {
                assert(w.name == "default"@ ==> w.revisions.len() == 0) by {
                    reveal(filled_spec);
                    match workspace_revisions_with_bookmarks_spec(
                        t,
                        repo,
                        entries[0].change_id,
                        default_id,
                    ) {
                        Out::Got((revs, bms), _) => {
                            lemma_classify_all(
                                WorkspaceV { revisions: revs, ..bare_spec(entries[0]) },
                                bms,
                            );
                        },
                        _ => {},
                    }
                }
                lemma_filled(u, repo, default_id, entries.drop_first(), acc.push(w));
            },
            _ => {},
        }
    }
}

proof fn lemma_stamped(t: Trace, repo: Seq<char>, wss: Seq<WorkspaceV>, acc: Seq<WorkspaceV>)
    requires
        default_has_none(wss),
        default_has_none(acc),
    ensures
        each(t, wss, acc, stamp_step(repo)) matches Out::Got(all, _) ==> default_has_none(all),
    decreases wss.len(),
{
    if wss.len() > 0 {
        match last_nonempty_timestamp_spec(t, repo, wss[0].change_id) {
            Out::Got(n, u) => {
                let w = WorkspaceV { last_modified: n, ..wss[0] };
                let rest = wss.drop_first();
                assert forall|i: int|
                    0 <= i < rest.len() && (#[trigger] rest[i]).name == "default"@ implies rest[i].revisions.len()
                    == 0 by {
                    assert(rest[i] == wss[i + 1]);
                }
                lemma_stamped(u, repo, rest, acc.push(w));
            },
            _ => {},
        }
    }
}

/// The revisions of a workspace are those that it does not share with the default one, so the
/// default workspace is listed with none.
pub proof fn law_default_has_no_own_revisions(t: Trace, repo: Seq<char>)
    ensures
        list_workspaces_spec(t, repo) matches Out::Got(wss, _) ==> forall|i: int|
            0 <= i < wss.len() && (#[trigger] wss[i]).name == "default"@
                ==> wss[i].revisions.len() == 0,
{
    reveal(list_workspaces_spec);
    match list_workspace_entries_spec(t, repo) {
        Out::Got(entries, t) => {
            let home = default_at(entries);
            let id = match home {
                Some(i) => entries[i].change_id,
                None => Seq::empty(),
            };
            lemma_default_at(entries);
            lemma_filled(t, repo, id, entries, Seq::empty());
            match each(t, entries, Seq::<WorkspaceV>::empty(), fill_step(repo, id)) {
                Out::Got(wss, t) => {
                    if id.len() == 0 {
                        lemma_stamped(t, repo, wss, Seq::empty());
                    } else {
                        reveal(fill_default_spec);
                        match workspace_bookmarks_spec(t, repo, id, id) {
                            Out::Got(bms, u) => {
                                lemma_classify_all(wss[home->Some_0], bms);
                                let filed = wss.update(
                                    home->Some_0,
                                    classify_all_spec(wss[home->Some_0], bms),
                                );
                                lemma_stamped(u, repo, filed, Seq::empty());
                            },
                            Out::Fail(_, u) => {
                                lemma_stamped(u, repo, wss, Seq::empty());
                            },
                            _ => {},
                        }
                    }
                },
                _ => {},
            }
        },
        _ => {},
    }
}

} // verus!
