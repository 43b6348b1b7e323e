//! Candidates for shell completion.
//!
//! Whatever fails yields no candidates, never an error at the prompt.

use vstd::prelude::*;

use crate::jj_parse::{CompletionWorkspace, CompletionWorkspaceV};
use crate::jujutsu::{
    completion_local_bookmarks, completion_local_bookmarks_spec, completion_workspaces,
    completion_workspaces_spec,
};
use crate::order::{
    comes_before, is_sorted, lemma_insert_at, lemma_sort_by, lemma_text_order, ranks, sort_by,
    text_lt, text_order,
};
use crate::paths::{components, components_spec, file_stem, file_stem_spec};
use crate::search::{lower, lower_spec, starts_with};
use crate::shell::checks::{is_below, lies_in};
use crate::tape::{
    agrees, at, at_spec, attempt, attempt_spec, bind, each, fetch, fetch_spec, holds, holds_spec,
    lemma_each_step, Act, FailureV, Out, RequestV, Stop, Tape, Trace,
};
use crate::text::{borrow_opt, cat3, cat4, same};
use crate::text_utils::{age_spec, relative_time_short};

verus! {

// ---------------------------------------------------------------------------
// The shell
// ---------------------------------------------------------------------------

/// The shell that completes, from what it says of itself: the stem of its path in lower case.
pub open spec fn capture_shell_spec(raw: Option<Seq<char>>) -> Option<Seq<char>> {
    match raw {
        Some(s) => Some(
            match file_stem_spec(s) {
                Some(stem) => lower_spec(stem),
                None => s,
            },
        ),
        None => None,
    }
}

pub fn capture_shell(raw: Option<String>) -> (r: Option<String>)
    ensures
        r.deep_view() == capture_shell_spec(raw.deep_view()),
{
    match raw {
        Some(s) => match file_stem(&s) {
            Some(stem) => Some(lower(&stem)),
            None => Some(s),
        },
        None => None,
    }
}

/// Is it bash? It does not select candidates by the text that was typed; the other shells do.
pub fn is_bash(shell: &Option<String>) -> (r: bool)
    ensures
        r == (shell.deep_view() == Some("bash"@)),
{
    match shell {
        Some(s) => same(s, "bash"),
        None => false,
    }
}

// ---------------------------------------------------------------------------
// Candidates
// ---------------------------------------------------------------------------

/// A candidate with its help and its place.
#[derive(Debug, Clone)]
pub struct CompletionCandidate {
    pub value: String,
    pub help: Option<String>,
    pub display_order: usize,
}

pub struct CompletionCandidateV {
    pub value: Seq<char>,
    pub help: Option<Seq<char>>,
    pub display_order: nat,
}

impl DeepView for CompletionCandidate {
    type V = CompletionCandidateV;

    open spec fn deep_view(&self) -> CompletionCandidateV {
        CompletionCandidateV {
            value: self.value@,
            help: self.help.deep_view(),
            display_order: self.display_order as nat,
        }
    }
}

/// What a candidate is about.
#[derive(Debug)]
pub struct Row {
    pub name: String,
    pub last_touched: Option<i64>,
    pub is_current: bool,
    /// Its directory is gone.
    pub is_orphaned: bool,
}

pub struct RowV {
    pub name: Seq<char>,
    pub last_touched: Option<i64>,
    pub is_current: bool,
    pub is_orphaned: bool,
}

impl DeepView for Row {
    type V = RowV;

    open spec fn deep_view(&self) -> RowV {
        RowV {
            name: self.name@,
            last_touched: self.last_touched,
            is_current: self.is_current,
            is_orphaned: self.is_orphaned,
        }
    }
}

fn copy_row(r: &Row) -> (c: Row)
    ensures
        c.deep_view() == r.deep_view(),
{
    Row {
        name: r.name.clone(),
        last_touched: r.last_touched,
        is_current: r.is_current,
        is_orphaned: r.is_orphaned,
    }
}

/// Was `a` touched after `b`? What has no time was never touched.
pub open spec fn touched_after(a: Option<i64>, b: Option<i64>) -> bool {
    match (a, b) {
        (Some(x), Some(y)) => x > y,
        (Some(_), None) => true,
        _ => false,
    }
}

/// What has its directory first, then what was touched last, then by name.
pub open spec fn row_lt(a: RowV, b: RowV) -> bool {
    if a.is_orphaned != b.is_orphaned {
        b.is_orphaned
    } else if a.last_touched != b.last_touched {
        touched_after(a.last_touched, b.last_touched)
    } else {
        text_lt(a.name, b.name)
    }
}

pub open spec fn row_order() -> spec_fn(RowV, RowV) -> bool {
    |a: RowV, b: RowV| row_lt(a, b)
}

fn row_before(a: &Row, b: &Row) -> (r: bool)
    ensures
        r == row_lt(a.deep_view(), b.deep_view()),
{
    if a.is_orphaned != b.is_orphaned {
        return b.is_orphaned;
    }
    match (a.last_touched, b.last_touched) {
        (Some(x), Some(y)) => if x != y {
            x > y
        } else {
            comes_before(&a.name, &b.name)
        },
        (Some(_), None) => true,
        (None, Some(_)) => false,
        (None, None) => comes_before(&a.name, &b.name),
    }
}

fn sort_rows(rows: &Vec<Row>) -> (r: Vec<Row>)
    ensures
        r.deep_view() == sort_by(rows.deep_view(), row_order()),
{
    let ghost all = rows.deep_view();
    let ghost lt = row_order();
    let mut out: Vec<Row> = Vec::new();
    assert(out.deep_view() =~= sort_by(all.take(0), lt));
    for i in 0..rows.len()
        invariant
            all == rows.deep_view(),
            lt == row_order(),
            out.deep_view() == sort_by(all.take(i as int), lt),
    {
        let ghost before = out.deep_view();
        let x = copy_row(&rows[i]);
        assert(x.deep_view() == all[i as int]);
        assert(all.take(i + 1).drop_last() =~= all.take(i as int));
        let mut k: usize = out.len();
        while k > 0 && row_before(&x, &out[k - 1])
            invariant
                k <= out@.len(),
                out.deep_view() == before,
                lt == row_order(),
                forall|j: int| k <= j < before.len() ==> lt(x.deep_view(), #[trigger] before[j]),
            decreases k,
        {
            assert(before[k - 1] == out@[k - 1].deep_view());
            k = k - 1;
        }
        proof {
            if k > 0 {
                assert(before[k - 1] == out@[k - 1].deep_view());
            }
            lemma_insert_at(before, x.deep_view(), lt, k as int);
        }
        let ghost xv = x.deep_view();
        out.insert(k, x);
        assert(out.deep_view() =~= before.insert(k as int, xv));
    }
    assert(all.take(all.len() as int) =~= all);
    out
}

/// The rows that are offered: for bash those that start with what was typed.
pub open spec fn offered(rows: Seq<RowV>, bash: bool, token: Seq<char>) -> Seq<RowV>
    decreases rows.len(),
{
    if rows.len() == 0 {
        rows
    } else if !bash || token.is_prefix_of(rows.last().name) {
        offered(rows.drop_last(), bash, token).push(rows.last())
    } else {
        offered(rows.drop_last(), bash, token)
    }
}

fn offer(rows: &Vec<Row>, bash: bool, token: &str) -> (r: Vec<Row>)
    ensures
        r.deep_view() == offered(rows.deep_view(), bash, token@),
{
    let ghost all = rows.deep_view();
    let mut out: Vec<Row> = Vec::new();
    assert(out.deep_view() =~= offered(all.take(0), bash, token@));
    for i in 0..rows.len()
        invariant
            all == rows.deep_view(),
            out.deep_view() == offered(all.take(i as int), bash, token@),
    {
        let ghost before = out.deep_view();
        assert(all.take(i + 1).drop_last() =~= all.take(i as int));
        assert(all[i as int] == rows@[i as int].deep_view());
        if !bash || starts_with(&rows[i].name, token) {
            out.push(copy_row(&rows[i]));
            assert(out.deep_view() =~= before.push(all[i as int]));
        }
    }
    assert(all.take(all.len() as int) =~= all);
    out
}

/// The age of a workspace, and whether it is current (`*`) or its directory is gone (`x`).
pub open spec fn workspace_help(r: RowV, now: i64) -> Option<Seq<char>> {
    let age = match r.last_touched {
        Some(t) => age_spec(now - t),
        None => "?"@,
    };
    let sym = if r.is_current {
        "[*]"@
    } else if r.is_orphaned {
        "[x]"@
    } else {
        ""@
    };
    Some("("@ + age + ")"@ + sym)
}

/// The age of a bookmark, if it is known.
pub open spec fn bookmark_help(r: RowV, now: i64) -> Option<Seq<char>> {
    match r.last_touched {
        Some(t) => Some("("@ + age_spec(now - t) + ")"@),
        None => None,
    }
}

fn help_of(r: &Row, now: i64, workspace: bool) -> (h: Option<String>)
    ensures
        h.deep_view() == (if workspace {
            workspace_help(r.deep_view(), now)
        } else {
            bookmark_help(r.deep_view(), now)
        }),
{
    if workspace {
        let age = match r.last_touched {
            Some(t) => relative_time_short(t, now),
            None => "?".to_string(),
        };
        let sym = if r.is_current {
            "[*]"
        } else if r.is_orphaned {
            "[x]"
        } else {
            ""
        };
        Some(cat4("(", &age, ")", sym))
    } else {
        match r.last_touched {
            Some(t) => Some(cat3("(", &relative_time_short(t, now), ")")),
            None => None,
        }
    }
}

/// One candidate for each row, in their order.
pub open spec fn candidates(rows: Seq<RowV>, now: i64, workspace: bool) -> Seq<
    CompletionCandidateV,
> {
    Seq::new(
        rows.len(),
        |i: int|
            CompletionCandidateV {
                value: rows[i].name,
                help: if workspace {
                    workspace_help(rows[i], now)
                } else {
                    bookmark_help(rows[i], now)
                },
                display_order: i as nat,
            },
    )
}

fn make_candidates(rows: &Vec<Row>, now: i64, workspace: bool) -> (r: Vec<CompletionCandidate>)
    ensures
        r.deep_view() == candidates(rows.deep_view(), now, workspace),
{
    let ghost all = candidates(rows.deep_view(), now, workspace);
    let mut out: Vec<CompletionCandidate> = Vec::new();
    for i in 0..rows.len()
        invariant
            all == candidates(rows.deep_view(), now, workspace),
            out.deep_view() == all.take(i as int),
    {
        let ghost before = out.deep_view();
        assert(rows.deep_view()[i as int] == rows@[i as int].deep_view());
        let c = CompletionCandidate {
            value: rows[i].name.clone(),
            help: help_of(&rows[i], now, workspace),
            display_order: i,
        };
        out.push(c);
        assert(out.deep_view() =~= before.push(c.deep_view()));
        assert(all.take(i + 1) =~= all.take(i as int).push(all[i as int]));
    }
    assert(all.take(rows@.len() as int) =~= all);
    out
}

/// The candidates of some rows.
pub open spec fn ranked(rows: Seq<RowV>, now: i64, workspace: bool, bash: bool, token: Seq<char>) -> Seq<
    CompletionCandidateV,
> {
    candidates(offered(sort_by(rows, row_order()), bash, token), now, workspace)
}

// ---------------------------------------------------------------------------
// Workspaces
// ---------------------------------------------------------------------------

/// A better place for the current directory: a workspace root that it lies in, deeper than `best`.
pub open spec fn better(
    best: Option<(nat, Seq<char>)>,
    cwd: Seq<char>,
    root: Seq<char>,
    name: Seq<char>,
) -> Option<(nat, Seq<char>)> {
    let depth = components_spec(root).len();
    if lies_in(cwd, root) && (best matches Some(b) ==> depth > b.0) {
        Some((depth, name))
    } else {
        best
    }
}

pub open spec fn place_step(cwd: Seq<char>) -> spec_fn(
    Trace,
    Option<(nat, Seq<char>)>,
    CompletionWorkspaceV,
) -> Out<Option<(nat, Seq<char>)>> {
    |t: Trace, best: Option<(nat, Seq<char>)>, ws: CompletionWorkspaceV|
        match ws.root {
            None => Out::Got(best, t),
            Some(root) => bind(
                fetch_spec(t, at_spec(Act::Canonical, root)),
                |c: Option<Seq<char>>, t: Trace|
                    Out::Got(
                        match c {
                            Some(c) => better(best, cwd, c, ws.name),
                            None => best,
                        },
                        t,
                    ),
            ),
        }
}

pub open spec fn depth_name(best: Option<(usize, String)>) -> Option<(nat, Seq<char>)> {
    match best {
        Some(b) => Some((b.0 as nat, b.1@)),
        None => None,
    }
}

fn improve(best: Option<(usize, String)>, cwd: &str, root: &str, name: &str) -> (r: Option<
    (usize, String),
>)
    ensures
        depth_name(r) == better(depth_name(best), cwd@, root@, name@),
{
    if !is_below(cwd, root) {
        return best;
    }
    let parts = components(root);
    assert(parts.deep_view().len() == parts@.len());
    let depth = parts.len();
    match best {
        Some(b) => if depth > b.0 {
            Some((depth, name.to_string()))
        } else {
            Some(b)
        },
        None => Some((depth, name.to_string())),
    }
}

fn find_place(tape: &mut Tape, workspaces: &Vec<CompletionWorkspace>, cwd: &str) -> (r: Result<
    Option<(usize, String)>,
    Stop,
>)
    ensures
        match r {
            Ok(b) => each(
                old(tape)@,
                workspaces.deep_view(),
                None::<(nat, Seq<char>)>,
                place_step(cwd@),
            ) == Out::Got(depth_name(b), final(tape)@),
            Err(Stop::Ask(q)) => each(
                old(tape)@,
                workspaces.deep_view(),
                None::<(nat, Seq<char>)>,
                place_step(cwd@),
            ) == Out::<Option<(nat, Seq<char>)>>::Ask(q.deep_view()),
            Err(Stop::Fail(e)) => each(
                old(tape)@,
                workspaces.deep_view(),
                None::<(nat, Seq<char>)>,
                place_step(cwd@),
            ) == Out::<Option<(nat, Seq<char>)>>::Fail(e.deep_view(), final(tape)@),
        },
{
    let mut best: Option<(usize, String)> = None;
    let ghost t0 = tape@;
    let ghost all = workspaces.deep_view();
    let ghost step = place_step(cwd@);
    assert(all.skip(0) =~= all);
    for i in 0..workspaces.len()
        invariant
            t0 == old(tape)@,
            all == workspaces.deep_view(),
            step == place_step(cwd@),
            each(t0, all, None::<(nat, Seq<char>)>, step) == each(tape@, all.skip(i as int), depth_name(best), step),
    {
        proof {
            lemma_each_step(all, i as int);
        }
        assert(all[i as int] == workspaces@[i as int].deep_view());
        if let Some(root) = &workspaces[i].root {
            if let Some(c) = fetch(tape, at(Act::Canonical, root))? {
                best = improve(best, cwd, &c, &workspaces[i].name);
            }
        }
    }
    Ok(best)
}

#[verifier::opaque]
pub open spec fn current_workspace_name_spec(
    t: Trace,
    workspaces: Seq<CompletionWorkspaceV>,
) -> Out<Option<Seq<char>>> {
    bind(
        fetch_spec(t, at_spec(Act::CurrentDir, ""@)),
        |dir: Option<Seq<char>>, t: Trace|
            match dir {
                None => Out::Got(None, t),
                Some(dir) => bind(
                    fetch_spec(t, at_spec(Act::Canonical, dir)),
                    |cwd: Option<Seq<char>>, t: Trace|
                        match cwd {
                            None => Out::Got(None, t),
                            Some(cwd) => bind(
                                each(
                                    t,
                                    workspaces,
                                    None::<(nat, Seq<char>)>,
                                    place_step(cwd),
                                ),
                                |best: Option<(nat, Seq<char>)>, t: Trace|
                                    Out::Got(
                                        match best {
                                            Some(b) => Some(b.1),
                                            None => None,
                                        },
                                        t,
                                    ),
                            ),
                        },
                ),
            },
    )
}

/// The workspace that the current directory lies in: the one with the deepest root.
pub fn current_workspace_name(
    tape: &mut Tape,
    workspaces: &Vec<CompletionWorkspace>,
) -> (r: Result<Option<String>, Stop>)
    ensures
        agrees(r, final(tape)@, current_workspace_name_spec(old(tape)@, workspaces.deep_view())),
{
    reveal(current_workspace_name_spec);
    let dir = match fetch(tape, at(Act::CurrentDir, ""))? {
        Some(d) => d,
        None => return Ok(None),
    };
    let cwd = match fetch(tape, at(Act::Canonical, &dir))? {
        Some(c) => c,
        None => return Ok(None),
    };
    match find_place(tape, workspaces, &cwd)? {
        Some(b) => Ok(Some(b.1)),
        None => Ok(None),
    }
}

pub open spec fn row_of(ws: CompletionWorkspaceV, current: Option<Seq<char>>, there: bool) -> RowV {
    RowV {
        name: ws.name,
        last_touched: ws.last_touched,
        is_current: current == Some(ws.name),
        is_orphaned: !there,
    }
}

pub open spec fn row_step(current: Option<Seq<char>>) -> spec_fn(
    Trace,
    Seq<RowV>,
    CompletionWorkspaceV,
) -> Out<Seq<RowV>> {
    |t: Trace, rows: Seq<RowV>, ws: CompletionWorkspaceV|
        match ws.root {
            None => Out::Got(rows.push(row_of(ws, current, false)), t),
            Some(root) => bind(
                holds_spec(t, at_spec(Act::Exists, root)),
                |there: bool, t: Trace| Out::Got(rows.push(row_of(ws, current, there)), t),
            ),
        }
}

fn rows_of(tape: &mut Tape, workspaces: &Vec<CompletionWorkspace>, current: Option<&str>) -> (r:
    Result<Vec<Row>, Stop>)
    ensures
        agrees(
            r,
            final(tape)@,
            each(
                old(tape)@,
                workspaces.deep_view(),
                Seq::<RowV>::empty(),
                row_step(current.deep_view()),
            ),
        ),
{
    let mut out: Vec<Row> = Vec::new();
    assert(out.deep_view() =~= Seq::<RowV>::empty());
    let ghost t0 = tape@;
    let ghost all = workspaces.deep_view();
    let ghost step = row_step(current.deep_view());
    assert(all.skip(0) =~= all);
    for i in 0..workspaces.len()
        invariant
            t0 == old(tape)@,
            all == workspaces.deep_view(),
            step == row_step(current.deep_view()),
            each(t0, all, Seq::<RowV>::empty(), step) == each(tape@, all.skip(i as int), out.deep_view(), step),
    {
        proof {
            lemma_each_step(all, i as int);
        }
        assert(all[i as int] == workspaces@[i as int].deep_view());
        let ghost before = out.deep_view();
        let there = match &workspaces[i].root {
            Some(root) => holds(tape, at(Act::Exists, root))?,
            None => false,
        };
        let is_current = match current {
            Some(c) => same(c, &workspaces[i].name),
            None => false,
        };
        let row = Row {
            name: workspaces[i].name.clone(),
            last_touched: workspaces[i].last_touched,
            is_current,
            is_orphaned: !there,
        };
        out.push(row);
        assert(out.deep_view() =~= before.push(row.deep_view()));
    }
    Ok(out)
}

#[verifier::opaque]
pub open spec fn render_workspace_candidates_spec(
    t: Trace,
    workspaces: Seq<CompletionWorkspaceV>,
    current_name: Option<Seq<char>>,
    now: i64,
    bash: bool,
    token: Seq<char>,
) -> Out<Seq<CompletionCandidateV>> {
    bind(
        each(t, workspaces, Seq::<RowV>::empty(), row_step(current_name)),
        |rows: Seq<RowV>, t: Trace| Out::Got(ranked(rows, now, true, bash, token), t),
    )
}

/// The candidates for workspaces.
pub fn render_workspace_candidates(
    tape: &mut Tape,
    workspaces: &Vec<CompletionWorkspace>,
    current_name: Option<&str>,
    now: i64,
    bash: bool,
    token: &str,
) -> (r: Result<Vec<CompletionCandidate>, Stop>)
    ensures
        agrees(
            r,
            final(tape)@,
            render_workspace_candidates_spec(
                old(tape)@,
                workspaces.deep_view(),
                current_name.deep_view(),
                now,
                bash,
                token@,
            ),
        ),
{
    reveal(render_workspace_candidates_spec);
    let rows = rows_of(tape, workspaces, current_name)?;
    Ok(make_candidates(&offer(&sort_rows(&rows), bash, token), now, true))
}

fn nothing() -> (r: Vec<CompletionCandidate>)
    ensures
        r.deep_view() == Seq::<CompletionCandidateV>::empty(),
{
    let v: Vec<CompletionCandidate> = Vec::new();
    assert(v.deep_view() =~= Seq::empty());
    v
}

#[verifier::opaque]
pub open spec fn workspace_candidates_spec(
    t: Trace,
    token: Seq<char>,
    now: i64,
    bash: bool,
) -> Out<Seq<CompletionCandidateV>> {
    if "-"@.is_prefix_of(token) {
        Out::Got(Seq::empty(), t)
    } else {
        bind(
            attempt_spec(completion_workspaces_spec(t)),
            |r: Result<Seq<CompletionWorkspaceV>, FailureV>, t: Trace|
                match r {
                    Err(_) => Out::Got(Seq::empty(), t),
                    Ok(workspaces) => bind(
                        current_workspace_name_spec(t, workspaces),
                        |current: Option<Seq<char>>, t: Trace|
                            render_workspace_candidates_spec(
                                t,
                                workspaces,
                                current,
                                now,
                                bash,
                                token,
                            ),
                    ),
                },
        )
    }
}

/// The candidates for an argument that names a workspace. A flag has none.
pub fn workspace_candidates(
    tape: &mut Tape,
    token: &str,
    now: i64,
    bash: bool,
) -> (r: Result<Vec<CompletionCandidate>, Stop>)
    ensures
        agrees(r, final(tape)@, workspace_candidates_spec(old(tape)@, token@, now, bash)),
{
    reveal(workspace_candidates_spec);
    if starts_with(token, "-") {
        return Ok(nothing());
    }
    let workspaces = match attempt(completion_workspaces(tape))? {
        Ok(w) => w,
        Err(_) => return Ok(nothing()),
    };
    let current = current_workspace_name(tape, &workspaces)?;
    render_workspace_candidates(tape, &workspaces, borrow_opt(&current), now, bash, token)
}

// ---------------------------------------------------------------------------
// Bookmarks
// ---------------------------------------------------------------------------

pub open spec fn bookmark_rows(bookmarks: Seq<(Seq<char>, Option<i64>)>) -> Seq<RowV> {
    bookmarks.map_values(
        |b: (Seq<char>, Option<i64>)|
            RowV { name: b.0, last_touched: b.1, is_current: false, is_orphaned: false },
    )
}

fn rows_of_bookmarks(bookmarks: &Vec<(String, Option<i64>)>) -> (r: Vec<Row>)
    ensures
        r.deep_view() == bookmark_rows(bookmarks.deep_view()),
{
    let ghost all = bookmark_rows(bookmarks.deep_view());
    let mut out: Vec<Row> = Vec::new();
    for i in 0..bookmarks.len()
        invariant
            all == bookmark_rows(bookmarks.deep_view()),
            out.deep_view() == all.take(i as int),
    {
        let ghost before = out.deep_view();
        let touched = bookmarks[i].1;
        assert(touched.deep_view() == touched);
        assert(bookmarks.deep_view()[i as int] == (bookmarks@[i as int].0@, touched));
        let row = Row {
            name: bookmarks[i].0.clone(),
            last_touched: touched,
            is_current: false,
            is_orphaned: false,
        };
        out.push(row);
        assert(out.deep_view() =~= before.push(row.deep_view()));
        assert(all.take(i + 1) =~= all.take(i as int).push(all[i as int]));
    }
    assert(all.take(bookmarks@.len() as int) =~= all);
    out
}

#[verifier::opaque]
pub open spec fn new_bookmark_candidates_spec(
    t: Trace,
    token: Seq<char>,
    now: i64,
    bash: bool,
) -> Out<Seq<CompletionCandidateV>> {
    if "-"@.is_prefix_of(token) {
        Out::Got(Seq::empty(), t)
    } else {
        bind(
            attempt_spec(completion_local_bookmarks_spec(t)),
            |r: Result<Seq<(Seq<char>, Option<i64>)>, FailureV>, t: Trace|
                match r {
                    Err(_) => Out::Got(Seq::empty(), t),
                    Ok(bookmarks) => Out::Got(
                        ranked(bookmark_rows(bookmarks), now, false, bash, token),
                        t,
                    ),
                },
        )
    }
}

/// The candidates for the bookmark of a new workspace: those that exist. Other names are fine too.
pub fn new_bookmark_candidates(
    tape: &mut Tape,
    token: &str,
    now: i64,
    bash: bool,
) -> (r: Result<Vec<CompletionCandidate>, Stop>)
    ensures
        agrees(r, final(tape)@, new_bookmark_candidates_spec(old(tape)@, token@, now, bash)),
{
    reveal(new_bookmark_candidates_spec);
    if starts_with(token, "-") {
        return Ok(nothing());
    }
    let bookmarks = match attempt(completion_local_bookmarks(tape))? {
        Ok(b) => b,
        Err(_) => return Ok(nothing()),
    };
    let rows = rows_of_bookmarks(&bookmarks);
    Ok(make_candidates(&offer(&sort_rows(&rows), bash, token), now, false))
}

// ---------------------------------------------------------------------------
// Laws
// ---------------------------------------------------------------------------

/// Candidates come in order: what has its directory, then what was touched last, then by name. No
/// row is lost or made up by sorting.
pub proof fn law_candidates_are_ranked(rows: Seq<RowV>)
    ensures
        is_sorted(sort_by(rows, row_order()), row_order()),
        sort_by(rows, row_order()).to_multiset() == rows.to_multiset(),
{
    lemma_row_order();
    lemma_sort_by(rows, row_order());
}

proof fn lemma_row_order()
    ensures
        ranks(row_order()),
{
    let lt = row_order();
    let text = text_order();
    lemma_text_order();
    assert forall|a: RowV, b: RowV| #[trigger] lt(a, b) implies !lt(b, a) by {
        assert(text(a.name, b.name) ==> !text(b.name, a.name));
    }
    assert forall|a: RowV, b: RowV, c: RowV|
        !#[trigger] lt(a, b) && !#[trigger] lt(b, c) implies !lt(a, c) by {
        assert(!text(a.name, b.name) && !text(b.name, c.name) ==> !text(a.name, c.name));
    }
}

/// A shell other than bash gets all candidates, and bash exactly those that start with what was
/// typed, in their order.
pub proof fn law_only_bash_is_filtered(rows: Seq<RowV>, token: Seq<char>)
    ensures
        offered(rows, false, token) == rows,
        offered(rows, true, token) == rows.filter(|r: RowV| token.is_prefix_of(r.name)),
    decreases rows.len(),
{
    reveal(Seq::filter);
    if rows.len() > 0 {
        law_only_bash_is_filtered(rows.drop_last(), token);
        assert(rows.drop_last().push(rows.last()) =~= rows);
    }
}

/// Does the request only look: ask jj under a deadline, or ask about paths?
pub open spec fn only_looks(q: RequestV) -> bool {
    ||| q.act == Act::JjTimed
    ||| q.act == Act::CurrentDir
    ||| q.act == Act::Canonical
    ||| q.act == Act::Exists
}

/// What comes next only looks.
pub open spec fn looks<A>(m: Out<A>) -> bool {
    m matches Out::Ask(q) ==> only_looks(q)
}

broadcast proof fn looks_each<X, A>(
    t: Trace,
    xs: Seq<X>,
    acc: A,
    step: spec_fn(Trace, A, X) -> Out<A>,
)
    requires
        forall|t: Trace, a: A, x: X| looks(#[trigger] step(t, a, x)),
    ensures
        looks(#[trigger] each(t, xs, acc, step)),
    decreases xs.len(),
{
    if xs.len() > 0 {
        assert(looks(step(t, acc, xs[0])));
        if let Out::Got(a, u) = step(t, acc, xs[0]) {
            looks_each(u, xs.drop_first(), a, step);
        }
    }
}

broadcast proof fn looks_completion_workspaces(t: Trace)
    ensures
        looks(#[trigger] completion_workspaces_spec(t)),
{
    reveal(completion_workspaces_spec);
}

broadcast proof fn looks_current_workspace_name(t: Trace, workspaces: Seq<CompletionWorkspaceV>)
    ensures
        looks(#[trigger] current_workspace_name_spec(t, workspaces)),
{
    broadcast use looks_each;

    reveal(current_workspace_name_spec);
}

broadcast proof fn looks_render_workspace_candidates(
    t: Trace,
    workspaces: Seq<CompletionWorkspaceV>,
    current_name: Option<Seq<char>>,
    now: i64,
    bash: bool,
    token: Seq<char>,
)
    ensures
        looks(
            #[trigger] render_workspace_candidates_spec(
                t,
                workspaces,
                current_name,
                now,
                bash,
                token,
            ),
        ),
{
    broadcast use looks_each;

    reveal(render_workspace_candidates_spec);
}

broadcast proof fn looks_workspace_candidates(t: Trace, token: Seq<char>, now: i64, bash: bool)
    ensures
        looks(#[trigger] workspace_candidates_spec(t, token, now, bash)),
{
    broadcast use {
        looks_completion_workspaces,
        looks_current_workspace_name,
        looks_render_workspace_candidates,
    };

    reveal(workspace_candidates_spec);
}

broadcast proof fn looks_completion_local_bookmarks(t: Trace)
    ensures
        looks(#[trigger] completion_local_bookmarks_spec(t)),
{
    reveal(completion_local_bookmarks_spec);
}

broadcast proof fn looks_new_bookmark_candidates(t: Trace, token: Seq<char>, now: i64, bash: bool)
    ensures
        looks(#[trigger] new_bookmark_candidates_spec(t, token, now, bash)),
{
    broadcast use looks_completion_local_bookmarks;

    reveal(new_bookmark_candidates_spec);
}

/// Completion runs jj only under a deadline, and changes nothing.
pub proof fn law_completion_only_looks(t: Trace, token: Seq<char>, now: i64, bash: bool)
    ensures
        looks(workspace_candidates_spec(t, token, now, bash)),
        looks(new_bookmark_candidates_spec(t, token, now, bash)),
{
    broadcast use {looks_workspace_candidates, looks_new_bookmark_candidates};

}

} // verus!
