//! Heads of workspaces: which are trivial, which are safe to leave, how they move.

use vstd::prelude::*;

use crate::jj_parse::{
    escape_revset_string, escape_spec, full_lines, full_lines_spec, nonempty_of, records,
    records_spec, DELIM_FIELD, DELIM_RECORD, TMPL_ID_DESC,
};
use crate::jj_run::{jj, jj_done, jj_done_spec, jj_spec, log_args, log_args_spec};
use crate::jujutsu::TMPL_ID_LINE;
use crate::paths::{path_join, path_join_spec};
use crate::revisions::{
    abandon_revisions, abandon_revisions_spec, bookmark_delete, bookmark_delete_spec, bookmark_set,
    bookmark_set_spec, local_bookmarks_on, local_bookmarks_on_spec, resolve_sanitized_bookmark,
    resolve_sanitized_bookmark_spec, with_author, with_author_spec,
};
use crate::search::{contains_char, lines, lines_spec, parse_usize, parse_usize_spec, starts_with};
use crate::seqs::{collect, filter_map};
use crate::tape::{
    agrees, at, at_spec, attempt, attempt_spec, bind, context, context_spec, each, failure,
    failure_spec, holds, holds_spec, lemma_each_step, need, need_spec, request, request_spec, Act,
    FailureV, Out, Stop, Tape, Trace,
};
use crate::templates::{derive_bookmark_from_ws_name, derive_spec};
use crate::text::{
    among, args1, args2, args3, args5, cat2, cat3, cat4, cat5, chars_of, empty, is_white,
    is_white_spec, join, join_spec, same, split_once, split_once_spec, splitn, splitn_spec, trim,
    trim_end, trim_end_spec, trim_spec, Cut,
};

verus! {

/// Change id, empty?, merge?, description.
pub const TMPL_ID_EMPTY_MERGE_DESC: &'static str = "change_id ++ \"\\x1f\" ++ if(empty, \"true\", \"false\") ++ \"\\x1f\" ++ if(parents.len() > 1, \"true\", \"false\") ++ \"\\x1f\" ++ description ++ \"\\x1e\"";

/// Change id, local bookmarks, description.
pub const TMPL_ID_BOOKMARKS_DESC: &'static str = "change_id ++ \"\\x1f\" ++ local_bookmarks.map(|b| b.name()).join(\"\\x01\") ++ \"\\x1f\" ++ description ++ \"\\x1e\"";

/// Change id, empty?
pub const TMPL_ID_EMPTY: &'static str = "change_id ++ \"\\x1f\" ++ if(empty, \"true\", \"false\") ++ \"\\x1e\"";

/// Change id, empty?, number of parents, description; a single record without its end.
pub const TMPL_ID_EMPTY_PARENTS_DESC: &'static str = "change_id ++ \"\\x1f\" ++ if(empty, \"true\", \"false\") ++ \"\\x1f\" ++ parents.len() ++ \"\\x1f\" ++ description";

pub const TMPL_EMPTY: &'static str = "if(empty, \"true\", \"false\")";

/// Marks the descriptions that ji writes.
pub const PREFIX: &'static str = "ji::";

/// How far a walk through trivial ancestors goes.
pub const MAX_TRIVIAL_WALK: usize = 10;

// ---------------------------------------------------------------------------
// Descriptions
// ---------------------------------------------------------------------------

/// What a description that ji writes is about.
#[derive(Clone, Copy, PartialEq, Eq, Structural, Debug)]
pub enum Op {
    Step,
    FastForward,
    Merge,
    Squash,
}

pub open spec fn operation_spec(op: Op) -> Seq<char> {
    match op {
        Op::Step => "step-forward"@,
        Op::FastForward => "fast-forward"@,
        Op::Merge => "merge"@,
        Op::Squash => "squash"@,
    }
}

impl Op {
    pub fn operation(&self) -> (r: &'static str)
        ensures
            r@ == operation_spec(*self),
    {
        match self {
            Op::Step => "step-forward",
            Op::FastForward => "fast-forward",
            Op::Merge => "merge",
            Op::Squash => "squash",
        }
    }
}

/// `(ji::operation)`, followed by the detail when there is one.
pub open spec fn make_desc_spec(op: Op, detail: Option<Seq<char>>) -> Seq<char> {
    let marker = "("@ + PREFIX@ + operation_spec(op) + ")"@;
    match detail {
        Some(d) => if d.len() == 0 {
            marker
        } else {
            marker + " "@ + d
        },
        None => marker,
    }
}

pub fn make_desc(op: Op, detail: Option<&str>) -> (r: String)
    ensures
        r@ == make_desc_spec(op, detail.deep_view()),
{
    let marker = cat4("(", PREFIX, op.operation(), ")");
    match detail {
        Some(d) => if empty(d) {
            marker
        } else {
            cat3(&marker, " ", d)
        },
        None => marker,
    }
}

// ---------------------------------------------------------------------------
// Revsets
// ---------------------------------------------------------------------------

/// The name of a workspace, or a change id, as a revset symbol.
pub open spec fn ws_at_spec(ws_name: Seq<char>) -> Seq<char> {
    "\""@ + escape_spec(ws_name) + "\""@
}

pub fn ws_at_revset(ws_name: &str) -> (r: String)
    ensures
        r@ == ws_at_spec(ws_name@),
{
    cat3("\"", &escape_revset_string(ws_name), "\"")
}

pub open spec fn ws_head_spec(ws_name: Seq<char>) -> Seq<char> {
    ws_at_spec(ws_name) + "@"@
}

/// The working-copy commit of a workspace.
pub fn ws_head_revset(ws_name: &str) -> (r: String)
    ensures
        r@ == ws_head_spec(ws_name@),
{
    cat2(&ws_at_revset(ws_name), "@")
}

/// `revset`, as far as it has no descendants.
pub open spec fn heads_of(revset: Seq<char>) -> Seq<char> {
    "("@ + revset + ") ~ parents(children("@ + revset + "))"@
}

fn heads_of_revset(revset: &str) -> (r: String)
    ensures
        r@ == heads_of(revset@),
{
    cat5("(", revset, ") ~ parents(children(", revset, "))")
}

#[verifier::opaque]
pub open spec fn workspace_unique_change_ids_spec(
    t: Trace,
    repo: Seq<char>,
    ws_name: Seq<char>,
) -> Out<Seq<Seq<char>>> {
    bind(
        jj_spec(
            t,
            Act::JjRepo,
            repo,
            log_args_spec(
                ws_head_spec("default"@) + ".."@ + ws_head_spec(ws_name),
                TMPL_ID_LINE@,
            ),
        ),
        |out: Seq<char>, t: Trace| Out::Got(full_lines_spec(out), t),
    )
}

/// The change ids of the revisions that a workspace does not share with the default one.
pub fn workspace_unique_change_ids(
    tape: &mut Tape,
    repo: &str,
    ws_name: &str,
) -> (r: Result<Vec<String>, Stop>)
    ensures
        agrees(r, final(tape)@, workspace_unique_change_ids_spec(old(tape)@, repo@, ws_name@)),
{
    reveal(workspace_unique_change_ids_spec);
    let revset = cat3(&ws_head_revset("default"), "..", &ws_head_revset(ws_name));
    let out = jj(tape, Act::JjRepo, repo, log_args(&revset, TMPL_ID_LINE))?;
    Ok(full_lines(&out))
}

#[verifier::opaque]
pub open spec fn resolve_change_id_spec(
    t: Trace,
    repo: Seq<char>,
    revset: Seq<char>,
) -> Out<Seq<char>> {
    bind(
        jj_spec(t, Act::JjRepo, repo, log_args_spec(revset, TMPL_ID_LINE@)),
        |out: Seq<char>, t: Trace|
            if out.contains('\n') {
                Out::Fail(
                    failure_spec(
                        "expected single revision for `"@ + revset + "`, got multiple"@,
                    ),
                    t,
                )
            } else {
                Out::Got(out, t)
            },
    )
}

/// The change id of the one revision that `revset` stands for.
pub fn resolve_change_id(tape: &mut Tape, repo: &str, revset: &str) -> (r: Result<String, Stop>)
    ensures
        agrees(r, final(tape)@, resolve_change_id_spec(old(tape)@, repo@, revset@)),
{
    reveal(resolve_change_id_spec);
    let out = jj(tape, Act::JjRepo, repo, log_args(revset, TMPL_ID_LINE))?;
    if contains_char(&out, '\n') {
        let msg = cat3("expected single revision for `", revset, "`, got multiple");
        return Err(Stop::Fail(failure(msg)));
    }
    Ok(out)
}

/// The union of `ids`, as far as they exist.
pub open spec fn present_spec(ids: Seq<Seq<char>>) -> Seq<char> {
    join_spec(ids.map_values(|id: Seq<char>| "present("@ + id + ")"@), " | "@)
}

pub fn present(ids: &Vec<String>) -> (r: String)
    ensures
        r@ == present_spec(ids.deep_view()),
{
    let ghost all = ids.deep_view().map_values(|id: Seq<char>| "present("@ + id + ")"@);
    let mut v: Vec<String> = Vec::new();
    for i in 0..ids.len()
        invariant
            all == ids.deep_view().map_values(|id: Seq<char>| "present("@ + id + ")"@),
            v.deep_view() == all.take(i as int),
    {
        let ghost before = v.deep_view();
        let p = cat3("present(", &ids[i], ")");
        v.push(p);
        assert(v.deep_view() =~= before.push(p@));
        assert(all.take(i + 1) =~= all.take(i as int).push(all[i as int]));
    }
    assert(all.take(ids@.len() as int) =~= all);
    join(&v, " | ")
}

pub open spec fn trimmed_of(l: Seq<char>) -> Option<Seq<char>> {
    nonempty_of(trim_spec(l, Cut::White))
}

pub open spec fn trimmed_fn() -> spec_fn(Seq<char>) -> Option<Seq<char>> {
    |l: Seq<char>| trimmed_of(l)
}

fn trimmed(l: &str) -> (r: Option<String>)
    ensures
        r.deep_view() == trimmed_of(l@),
{
    let s = trim(l, Cut::White);
    if empty(&s) {
        None
    } else {
        Some(s)
    }
}

/// The elements of `ids` that are in `found`, in their order.
pub open spec fn found_in(ids: Seq<Seq<char>>, found: Seq<Seq<char>>) -> Seq<Seq<char>>
    decreases ids.len(),
{
    if ids.len() == 0 {
        ids
    } else if found.contains(ids.last()) {
        found_in(ids.drop_last(), found).push(ids.last())
    } else {
        found_in(ids.drop_last(), found)
    }
}

pub fn keep_found(ids: &Vec<String>, found: &Vec<String>) -> (r: Vec<String>)
    ensures
        r.deep_view() == found_in(ids.deep_view(), found.deep_view()),
{
    let ghost all = ids.deep_view();
    let mut out: Vec<String> = Vec::new();
    assert(out.deep_view() =~= found_in(all.take(0), found.deep_view()));
    for i in 0..ids.len()
        invariant
            all == ids.deep_view(),
            out.deep_view() == found_in(all.take(i as int), found.deep_view()),
    {
        let ghost before = out.deep_view();
        assert(all.take(i + 1).drop_last() =~= all.take(i as int));
        assert(all.take(i + 1).last() == ids@[i as int]@);
        if among(found, &ids[i]) {
            out.push(ids[i].clone());
            assert(out.deep_view() =~= before.push(ids@[i as int]@));
        }
    }
    assert(all.take(all.len() as int) =~= all);
    out
}

#[verifier::opaque]
pub open spec fn filter_existing_revisions_spec(
    t: Trace,
    repo: Seq<char>,
    change_ids: Seq<Seq<char>>,
) -> Out<Seq<Seq<char>>> {
    if change_ids.len() == 0 {
        Out::Got(Seq::empty(), t)
    } else {
        bind(
            jj_spec(t, Act::JjRepo, repo, log_args_spec(present_spec(change_ids), TMPL_ID_LINE@)),
            |out: Seq<char>, t: Trace|
                Out::Got(found_in(change_ids, filter_map(lines_spec(out), trimmed_fn())), t),
        )
    }
}

/// Those of `change_ids` that still exist.
pub fn filter_existing_revisions(
    tape: &mut Tape,
    repo: &str,
    change_ids: &Vec<String>,
) -> (r: Result<Vec<String>, Stop>)
    ensures
        agrees(
            r,
            final(tape)@,
            filter_existing_revisions_spec(old(tape)@, repo@, change_ids.deep_view()),
        ),
{
    reveal(filter_existing_revisions_spec);
    assert(change_ids.deep_view().len() == change_ids@.len());
    if change_ids.len() == 0 {
        let v: Vec<String> = Vec::new();
        assert(v.deep_view() =~= Seq::<Seq<char>>::empty());
        return Ok(v);
    }
    let out = jj(tape, Act::JjRepo, repo, log_args(&present(change_ids), TMPL_ID_LINE))?;
    let found = collect(&lines(&out), trimmed, Ghost(trimmed_fn()));
    Ok(keep_found(change_ids, &found))
}

// ---------------------------------------------------------------------------
// Trivial heads
// ---------------------------------------------------------------------------

pub open spec fn has_white(s: Seq<char>) -> bool {
    exists|i: int| 0 <= i < s.len() && is_white_spec(#[trigger] s[i])
}

fn any_white(s: &str) -> (r: bool)
    ensures
        r == has_white(s@),
{
    let cs = chars_of(s);
    for i in 0..cs.len()
        invariant
            cs@ == s@,
            forall|j: int| 0 <= j < i ==> !is_white_spec(#[trigger] cs@[j]),
    {
        if is_white(cs[i]) {
            return true;
        }
    }
    false
}

/// Is a trimmed description trivial by its text: empty, one word, or one line that ji wrote?
pub open spec fn plainly_trivial(d: Seq<char>) -> bool {
    ||| d.len() == 0
    ||| !has_white(d)
    ||| !d.contains('\n') && ("("@ + PREFIX@).is_prefix_of(d)
}

/// Is `desc` what jj would write for a new revision?
#[verifier::opaque]
pub open spec fn matches_default_new_description_spec(
    t: Trace,
    repo: Seq<char>,
    revset: Seq<char>,
    desc: Seq<char>,
) -> Out<bool> {
    bind(
        attempt_spec(
            jj_spec(t, Act::JjRepo, repo, seq!["config"@, "get"@, "templates.new_description"@]),
        ),
        |tmpl: Result<Seq<char>, FailureV>, t: Trace|
            match tmpl {
                Err(_) => Out::Got(false, t),
                Ok(tmpl) => if tmpl.len() == 0 {
                    Out::Got(false, t)
                } else {
                    bind(
                        attempt_spec(jj_spec(t, Act::JjRepo, repo, log_args_spec(revset, tmpl))),
                        |d: Result<Seq<char>, FailureV>, t: Trace|
                            Out::Got(
                                match d {
                                    Ok(d) => desc == trim_spec(d, Cut::White),
                                    Err(_) => false,
                                },
                                t,
                            ),
                    )
                },
            },
    )
}

fn matches_default_new_description(
    tape: &mut Tape,
    repo: &str,
    revset: &str,
    desc: &str,
) -> (r: Result<bool, Stop>)
    ensures
        agrees(
            r,
            final(tape)@,
            matches_default_new_description_spec(old(tape)@, repo@, revset@, desc@),
        ),
{
    reveal(matches_default_new_description_spec);
    let tmpl = match attempt(
        jj(tape, Act::JjRepo, repo, args3("config", "get", "templates.new_description")),
    )? {
        Ok(x) => x,
        Err(_) => {
            return Ok(false);
        },
    };
    if empty(&tmpl) {
        return Ok(false);
    }
    match attempt(jj(tape, Act::JjRepo, repo, log_args(revset, &tmpl)))? {
        Ok(d) => Ok(same(desc, &trim(&d, Cut::White))),
        Err(_) => Ok(false),
    }
}

/// Is a description trivial: by its text, or as the one that jj would write?
#[verifier::opaque]
pub open spec fn is_trivial_description_spec(
    t: Trace,
    repo: Seq<char>,
    revset: Seq<char>,
    desc: Seq<char>,
) -> Out<bool> {
    let d = trim_spec(desc, Cut::White);
    if plainly_trivial(d) {
        Out::Got(true, t)
    } else {
        matches_default_new_description_spec(t, repo, revset, d)
    }
}

fn is_trivial_description(
    tape: &mut Tape,
    repo: &str,
    revset: &str,
    desc: &str,
) -> (r: Result<bool, Stop>)
    ensures
        agrees(r, final(tape)@, is_trivial_description_spec(old(tape)@, repo@, revset@, desc@)),
{
    reveal(is_trivial_description_spec);
    let d = trim(desc, Cut::White);
    if empty(&d) || !any_white(&d) || (!contains_char(&d, '\n') && starts_with(
        &d,
        &cat2("(", PREFIX),
    )) {
        return Ok(true);
    }
    matches_default_new_description(tape, repo, revset, &d)
}

/// A record of a head: change id, empty?, merge?, description.
pub struct HeadRecordV {
    pub id: Seq<char>,
    pub is_empty: bool,
    pub is_merge: bool,
    pub desc: Seq<char>,
}

#[derive(Debug)]
pub struct HeadRecord {
    pub id: String,
    pub is_empty: bool,
    pub is_merge: bool,
    pub desc: String,
}

impl DeepView for HeadRecord {
    type V = HeadRecordV;

    open spec fn deep_view(&self) -> HeadRecordV {
        HeadRecordV {
            id: self.id@,
            is_empty: self.is_empty,
            is_merge: self.is_merge,
            desc: self.desc@,
        }
    }
}

/// The single record in `out`, unless it has too few fields.
pub open spec fn head_record_spec(out: Seq<char>) -> Option<HeadRecordV> {
    let f = splitn_spec(trim_end_spec(out, Cut::Only(DELIM_RECORD)), 4, DELIM_FIELD);
    if f.len() < 4 {
        None
    } else {
        Some(
            HeadRecordV {
                id: f[0],
                is_empty: f[1] == "true"@,
                is_merge: f[2] == "true"@,
                desc: f[3],
            },
        )
    }
}

fn head_record(out: &str) -> (r: Option<HeadRecord>)
    ensures
        r.deep_view() == head_record_spec(out@),
{
    let f = splitn(&trim_end(out, Cut::Only(DELIM_RECORD)), 4, DELIM_FIELD);
    assert(f.deep_view().len() == f@.len());
    if f.len() < 4 {
        None
    } else {
        Some(
            HeadRecord {
                id: f[0].clone(),
                is_empty: same(&f[1], "true"),
                is_merge: same(&f[2], "true"),
                desc: f[3].clone(),
            },
        )
    }
}

#[verifier::opaque]
pub open spec fn check_trivial_head_spec(
    t: Trace,
    repo: Seq<char>,
    revset: Seq<char>,
) -> Out<Option<Seq<char>>> {
    bind(
        jj_spec(t, Act::JjRepo, repo, log_args_spec(heads_of(revset), TMPL_ID_EMPTY_MERGE_DESC@)),
        |out: Seq<char>, t: Trace|
            if out.len() == 0 {
                Out::Got(None, t)
            } else {
                match head_record_spec(out) {
                    None => Out::Got(None, t),
                    Some(h) => if !h.is_empty || h.is_merge {
                        Out::Got(None, t)
                    } else {
                        bind(
                            is_trivial_description_spec(t, repo, revset, h.desc),
                            |trivial: bool, t: Trace|
                                Out::Got(
                                    if trivial {
                                        Some(h.id)
                                    } else {
                                        None
                                    },
                                    t,
                                ),
                        )
                    },
                }
            },
    )
}

/// The change id of a trivial head: no descendants, no changes, one parent, a trivial description.
pub fn check_trivial_head(
    tape: &mut Tape,
    repo: &str,
    revset: &str,
) -> (r: Result<Option<String>, Stop>)
    ensures
        agrees(r, final(tape)@, check_trivial_head_spec(old(tape)@, repo@, revset@)),
{
    reveal(check_trivial_head_spec);
    let args = log_args(&heads_of_revset(revset), TMPL_ID_EMPTY_MERGE_DESC);
    let out = jj(tape, Act::JjRepo, repo, args)?;
    if empty(&out) {
        return Ok(None);
    }
    match head_record(&out) {
        None => Ok(None),
        Some(h) => {
            if !h.is_empty || h.is_merge {
                return Ok(None);
            }
            if is_trivial_description(tape, repo, revset, &h.desc)? {
                Ok(Some(h.id))
            } else {
                Ok(None)
            }
        },
    }
}

/// The heads of a workspace.
#[derive(Debug)]
pub struct WorkspaceHeadInfo {
    /// The working-copy commit, or the nearest ancestor with content when that is a trivial head.
    pub effective_head: String,
    /// The working-copy commit.
    pub actual_head: String,
    /// The working-copy commit when it is a trivial head.
    pub trivial_id: Option<String>,
    /// Further trivial heads to clean up.
    pub trivial_ids: Vec<String>,
}

pub struct WorkspaceHeadInfoV {
    pub effective_head: Seq<char>,
    pub actual_head: Seq<char>,
    pub trivial_id: Option<Seq<char>>,
    pub trivial_ids: Seq<Seq<char>>,
}

impl DeepView for WorkspaceHeadInfo {
    type V = WorkspaceHeadInfoV;

    open spec fn deep_view(&self) -> WorkspaceHeadInfoV {
        WorkspaceHeadInfoV {
            effective_head: self.effective_head@,
            actual_head: self.actual_head@,
            trivial_id: self.trivial_id.deep_view(),
            trivial_ids: self.trivial_ids.deep_view(),
        }
    }
}

pub open spec fn head_info_spec(
    effective: Seq<char>,
    actual: Seq<char>,
    trivial: bool,
) -> WorkspaceHeadInfoV {
    WorkspaceHeadInfoV {
        effective_head: effective,
        actual_head: actual,
        trivial_id: if trivial {
            Some(actual)
        } else {
            None
        },
        trivial_ids: Seq::empty(),
    }
}

fn head_info(effective: String, actual: String, trivial: bool) -> (r: WorkspaceHeadInfo)
    ensures
        r.deep_view() == head_info_spec(effective@, actual@, trivial),
{
    let trivial_id = if trivial {
        Some(actual.clone())
    } else {
        None
    };
    let trivial_ids: Vec<String> = Vec::new();
    assert(trivial_ids.deep_view() =~= Seq::<Seq<char>>::empty());
    WorkspaceHeadInfo { effective_head: effective, actual_head: actual, trivial_id, trivial_ids }
}

/// What one step of the walk through trivial ancestors finds.
pub enum WalkV {
    /// The query gave no usable record.
    Malformed,
    /// A revision to stop at.
    Here(Seq<char>),
    /// A trivial revision with one parent.
    Up(Seq<char>),
}

#[derive(Debug)]
pub enum Walk {
    Malformed,
    Here(String),
    Up(String),
}

impl DeepView for Walk {
    type V = WalkV;

    open spec fn deep_view(&self) -> WalkV {
        match self {
            Walk::Malformed => WalkV::Malformed,
            Walk::Here(s) => WalkV::Here(s@),
            Walk::Up(s) => WalkV::Up(s@),
        }
    }
}

pub open spec fn one_parent(s: Seq<char>) -> bool {
    parse_usize_spec(s) == Some(1usize)
}

#[verifier::opaque]
pub open spec fn examine_spec(t: Trace, repo: Seq<char>, revset: Seq<char>) -> Out<WalkV> {
    bind(
        jj_spec(t, Act::JjRepo, repo, log_args_spec(revset, TMPL_ID_EMPTY_PARENTS_DESC@)),
        |out: Seq<char>, t: Trace|
            {
                let f = splitn_spec(out, 4, DELIM_FIELD);
                if f.len() < 4 {
                    Out::Got(WalkV::Malformed, t)
                } else if f[1] != "true"@ || !one_parent(f[2]) {
                    Out::Got(WalkV::Here(f[0]), t)
                } else {
                    bind(
                        is_trivial_description_spec(t, repo, revset, f[3]),
                        |trivial: bool, t: Trace|
                            Out::Got(
                                if trivial {
                                    WalkV::Up(f[0])
                                } else {
                                    WalkV::Here(f[0])
                                },
                                t,
                            ),
                    )
                }
            },
    )
}

fn examine(tape: &mut Tape, repo: &str, revset: &str) -> (r: Result<Walk, Stop>)
    ensures
        agrees(r, final(tape)@, examine_spec(old(tape)@, repo@, revset@)),
{
    reveal(examine_spec);
    let out = jj(tape, Act::JjRepo, repo, log_args(revset, TMPL_ID_EMPTY_PARENTS_DESC))?;
    let f = splitn(&out, 4, DELIM_FIELD);
    assert(f.deep_view().len() == f@.len());
    if f.len() < 4 {
        return Ok(Walk::Malformed);
    }
    let single = match parse_usize(&f[2]) {
        Some(n) => n == 1,
        None => false,
    };
    if !same(&f[1], "true") || !single {
        return Ok(Walk::Here(f[0].clone()));
    }
    if is_trivial_description(tape, repo, revset, &f[3])? {
        Ok(Walk::Up(f[0].clone()))
    } else {
        Ok(Walk::Here(f[0].clone()))
    }
}

/// The first revision with content from `revset` on, through at most `n` trivial ones; `last` is
/// the one examined before.
#[verifier::opaque]
pub open spec fn nontrivial_spec(
    t: Trace,
    repo: Seq<char>,
    revset: Seq<char>,
    last: Seq<char>,
    n: nat,
) -> Out<Seq<char>>
    decreases n,
{
    if n == 0 {
        Out::Got(last, t)
    } else {
        match examine_spec(t, repo, revset) {
            Out::Ask(q) => Out::Ask(q),
            Out::Fail(e, t) => Out::Fail(e, t),
            Out::Got(w, t) => match w {
                WalkV::Malformed => resolve_change_id_spec(t, repo, revset),
                WalkV::Here(id) => Out::Got(id, t),
                WalkV::Up(id) => nontrivial_spec(
                    t,
                    repo,
                    "parents("@ + id + ")"@,
                    id,
                    (n - 1) as nat,
                ),
            },
        }
    }
}

fn find_nontrivial_target(tape: &mut Tape, repo: &str, starting_revset: &str) -> (r: Result<
    String,
    Stop,
>)
    ensures
        agrees(
            r,
            final(tape)@,
            nontrivial_spec(
                old(tape)@,
                repo@,
                starting_revset@,
                Seq::empty(),
                MAX_TRIVIAL_WALK as nat,
            ),
        ),
{
    let ghost t0 = tape@;
    let mut revset = starting_revset.to_string();
    let mut last = String::new();
    assert(last@ =~= Seq::<char>::empty());
    for i in 0..MAX_TRIVIAL_WALK
        invariant
            t0 == old(tape)@,
            nontrivial_spec(
                t0,
                repo@,
                starting_revset@,
                Seq::empty(),
                MAX_TRIVIAL_WALK as nat,
            ) == nontrivial_spec(
                tape@,
                repo@,
                revset@,
                last@,
                (MAX_TRIVIAL_WALK - i) as nat,
            ),
    {
        reveal_with_fuel(nontrivial_spec, 2);
        match examine(tape, repo, &revset)? {
            Walk::Malformed => {
                return resolve_change_id(tape, repo, &revset);
            },
            Walk::Here(id) => {
                return Ok(id);
            },
            Walk::Up(id) => {
                revset = cat3("parents(", &id, ")");
                last = id;
            },
        }
    }
    reveal_with_fuel(nontrivial_spec, 1);
    Ok(last)
}

#[verifier::opaque]
pub open spec fn resolve_workspace_head_info_spec(
    t: Trace,
    repo: Seq<char>,
    ws_name: Seq<char>,
) -> Out<WorkspaceHeadInfoV> {
    let ws_at = ws_head_spec(ws_name);
    bind(
        jj_spec(t, Act::JjRepo, repo, log_args_spec(heads_of(ws_at), TMPL_ID_EMPTY_MERGE_DESC@)),
        |out: Seq<char>, t: Trace|
            if out.len() == 0 || head_record_spec(out) is None {
                bind(
                    resolve_change_id_spec(t, repo, ws_at),
                    |id: Seq<char>, t: Trace| Out::Got(head_info_spec(id, id, false), t),
                )
            } else {
                let h = head_record_spec(out)->Some_0;
                bind(
                    if h.is_empty && !h.is_merge {
                        is_trivial_description_spec(t, repo, ws_at, h.desc)
                    } else {
                        Out::Got(false, t)
                    },
                    |trivial: bool, t: Trace|
                        if trivial {
                            bind(
                                nontrivial_spec(
                                    t,
                                    repo,
                                    ws_at + "-"@,
                                    Seq::empty(),
                                    MAX_TRIVIAL_WALK as nat,
                                ),
                                |eff: Seq<char>, t: Trace|
                                    Out::Got(head_info_spec(eff, h.id, true), t),
                            )
                        } else {
                            Out::Got(head_info_spec(h.id, h.id, false), t)
                        },
                )
            },
    )
}

/// The heads of a workspace, with as few queries as they take.
pub fn resolve_workspace_head_info(
    tape: &mut Tape,
    repo: &str,
    ws_name: &str,
) -> (r: Result<WorkspaceHeadInfo, Stop>)
    ensures
        agrees(r, final(tape)@, resolve_workspace_head_info_spec(old(tape)@, repo@, ws_name@)),
{
    reveal(resolve_workspace_head_info_spec);
    let ws_at = ws_head_revset(ws_name);
    let args = log_args(&heads_of_revset(&ws_at), TMPL_ID_EMPTY_MERGE_DESC);
    let out = jj(tape, Act::JjRepo, repo, args)?;
    let record = if empty(&out) {
        None
    } else {
        head_record(&out)
    };
    match record {
        None => {
            let id = resolve_change_id(tape, repo, &ws_at)?;
            Ok(head_info(id.clone(), id, false))
        },
        Some(h) => {
            let trivial = if h.is_empty && !h.is_merge {
                is_trivial_description(tape, repo, &ws_at, &h.desc)?
            } else {
                false
            };
            if trivial {
                let eff = find_nontrivial_target(tape, repo, &cat2(&ws_at, "-"))?;
                Ok(head_info(eff, h.id, true))
            } else {
                Ok(head_info(h.id.clone(), h.id, false))
            }
        },
    }
}

#[verifier::opaque]
pub open spec fn is_head_spec(t: Trace, repo: Seq<char>, revset: Seq<char>) -> Out<bool> {
    bind(
        jj_spec(t, Act::JjRepo, repo, log_args_spec(heads_of(revset), "\".\""@)),
        |out: Seq<char>, t: Trace| Out::Got(out.len() != 0, t),
    )
}

/// Does a revision have no descendants?
pub fn is_head(tape: &mut Tape, repo: &str, revset: &str) -> (r: Result<bool, Stop>)
    ensures
        agrees(r, final(tape)@, is_head_spec(old(tape)@, repo@, revset@)),
{
    reveal(is_head_spec);
    let out = jj(tape, Act::JjRepo, repo, log_args(&heads_of_revset(revset), "\".\""))?;
    Ok(!empty(&out))
}

#[verifier::opaque]
pub open spec fn is_trivial_head_spec(t: Trace, repo: Seq<char>, revset: Seq<char>) -> Out<bool> {
    bind(
        check_trivial_head_spec(t, repo, revset),
        |id: Option<Seq<char>>, t: Trace| Out::Got(id is Some, t),
    )
}

/// Is a revision a trivial head?
pub fn is_trivial_head(tape: &mut Tape, repo: &str, revset: &str) -> (r: Result<bool, Stop>)
    ensures
        agrees(r, final(tape)@, is_trivial_head_spec(old(tape)@, repo@, revset@)),
{
    reveal(is_trivial_head_spec);
    let id = check_trivial_head(tape, repo, revset)?;
    Ok(id.is_some())
}

// ---------------------------------------------------------------------------
// Safety
// ---------------------------------------------------------------------------

/// Would leaving a revision behind risk work?
#[derive(Debug)]
pub enum RevisionSafety {
    /// No.
    Safe,
    /// It has changes and no description.
    AtRisk { change_id: String },
}

pub enum RevisionSafetyV {
    Safe,
    AtRisk { change_id: Seq<char> },
}

impl DeepView for RevisionSafety {
    type V = RevisionSafetyV;

    open spec fn deep_view(&self) -> RevisionSafetyV {
        match self {
            RevisionSafety::Safe => RevisionSafetyV::Safe,
            RevisionSafety::AtRisk { change_id } => RevisionSafetyV::AtRisk {
                change_id: change_id@,
            },
        }
    }
}

/// Runs jj in the workspace, live, or on the repository when there is none.
pub open spec fn live_log_spec(
    t: Trace,
    repo: Seq<char>,
    ws_path: Option<Seq<char>>,
    args: Seq<Seq<char>>,
) -> Out<Seq<char>> {
    match ws_path {
        Some(ws) => jj_spec(t, Act::JjWsLive, ws, args),
        None => jj_spec(t, Act::JjRepo, repo, args),
    }
}

fn live_log(tape: &mut Tape, repo: &str, ws_path: Option<&str>, args: Vec<String>) -> (r: Result<
    String,
    Stop,
>)
    ensures
        agrees(
            r,
            final(tape)@,
            live_log_spec(old(tape)@, repo@, ws_path.deep_view(), args.deep_view()),
        ),
{
    match ws_path {
        Some(ws) => jj(tape, Act::JjWsLive, ws, args),
        None => jj(tape, Act::JjRepo, repo, args),
    }
}

#[verifier::opaque]
pub open spec fn check_emptiness_spec(
    t: Trace,
    repo: Seq<char>,
    revset: Seq<char>,
    ws_path: Option<Seq<char>>,
    change_id: Seq<char>,
) -> Out<RevisionSafetyV> {
    bind(
        live_log_spec(t, repo, ws_path, log_args_spec(revset, TMPL_EMPTY@)),
        |out: Seq<char>, t: Trace|
            Out::Got(
                if trim_spec(out, Cut::White) == "true"@ {
                    RevisionSafetyV::Safe
                } else {
                    RevisionSafetyV::AtRisk { change_id }
                },
                t,
            ),
    )
}

fn check_emptiness(
    tape: &mut Tape,
    repo: &str,
    revset: &str,
    ws_path: Option<&str>,
    change_id: &str,
) -> (r: Result<RevisionSafety, Stop>)
    ensures
        agrees(
            r,
            final(tape)@,
            check_emptiness_spec(old(tape)@, repo@, revset@, ws_path.deep_view(), change_id@),
        ),
{
    reveal(check_emptiness_spec);
    let out = live_log(tape, repo, ws_path, log_args(revset, TMPL_EMPTY))?;
    if same(&trim(&out, Cut::White), "true") {
        Ok(RevisionSafety::Safe)
    } else {
        Ok(RevisionSafety::AtRisk { change_id: change_id.to_string() })
    }
}

/// The change id of a revision that nothing but its emptiness can save: it was found, it has no
/// bookmark and no description.
pub open spec fn unclaimed_spec(out: Seq<char>) -> Option<Seq<char>> {
    let f = splitn_spec(trim_end_spec(out, Cut::Only(DELIM_RECORD)), 3, DELIM_FIELD);
    if out.len() == 0 || f.len() < 3 || f[1].len() != 0 || trim_spec(f[2], Cut::White).len() != 0 {
        None
    } else {
        Some(f[0])
    }
}

fn unclaimed(out: &str) -> (r: Option<String>)
    ensures
        r.deep_view() == unclaimed_spec(out@),
{
    let f = splitn(&trim_end(out, Cut::Only(DELIM_RECORD)), 3, DELIM_FIELD);
    assert(f.deep_view().len() == f@.len());
    if empty(out) || f.len() < 3 || !empty(&f[1]) || !empty(&trim(&f[2], Cut::White)) {
        None
    } else {
        Some(f[0].clone())
    }
}

#[verifier::opaque]
pub open spec fn check_revision_safety_spec(
    t: Trace,
    repo: Seq<char>,
    revset: Seq<char>,
    ws_path: Option<Seq<char>>,
) -> Out<RevisionSafetyV> {
    bind(
        jj_spec(t, Act::JjRepo, repo, log_args_spec(heads_of(revset), TMPL_ID_BOOKMARKS_DESC@)),
        |out: Seq<char>, t: Trace|
            match unclaimed_spec(out) {
                None => Out::Got(RevisionSafetyV::Safe, t),
                Some(id) => check_emptiness_spec(t, repo, revset, ws_path, id),
            },
    )
}

/// Would orphaning a head risk work? Only a head without bookmark and description that has changes
/// is at risk. With `ws_path`, pending edits are captured first.
pub fn check_revision_safety(
    tape: &mut Tape,
    repo: &str,
    revset: &str,
    ws_path: Option<&str>,
) -> (r: Result<RevisionSafety, Stop>)
    ensures
        agrees(
            r,
            final(tape)@,
            check_revision_safety_spec(old(tape)@, repo@, revset@, ws_path.deep_view()),
        ),
{
    reveal(check_revision_safety_spec);
    let out = jj(tape, Act::JjRepo, repo, log_args(&heads_of_revset(revset), TMPL_ID_BOOKMARKS_DESC))?;
    match unclaimed(&out) {
        None => Ok(RevisionSafety::Safe),
        Some(id) => check_emptiness(tape, repo, revset, ws_path, &id),
    }
}

#[verifier::opaque]
pub open spec fn check_working_copy_safety_spec(
    t: Trace,
    repo: Seq<char>,
    revset: Seq<char>,
    ws_path: Seq<char>,
) -> Out<RevisionSafetyV> {
    bind(
        jj_spec(t, Act::JjRepo, repo, log_args_spec(revset, TMPL_ID_BOOKMARKS_DESC@)),
        |out: Seq<char>, t: Trace|
            match unclaimed_spec(out) {
                None => Out::Got(RevisionSafetyV::Safe, t),
                Some(id) => check_emptiness_spec(t, repo, revset, Some(ws_path), id),
            },
    )
}

/// As [`check_revision_safety`], whether the revision has descendants or not.
pub fn check_working_copy_safety(
    tape: &mut Tape,
    repo: &str,
    revset: &str,
    ws_path: &str,
) -> (r: Result<RevisionSafety, Stop>)
    ensures
        agrees(
            r,
            final(tape)@,
            check_working_copy_safety_spec(old(tape)@, repo@, revset@, ws_path@),
        ),
{
    reveal(check_working_copy_safety_spec);
    let out = jj(tape, Act::JjRepo, repo, log_args(revset, TMPL_ID_BOOKMARKS_DESC))?;
    match unclaimed(&out) {
        None => Ok(RevisionSafety::Safe),
        Some(id) => check_emptiness(tape, repo, revset, Some(ws_path), &id),
    }
}

pub open spec fn undescribed_of(rec: Seq<char>) -> Option<Seq<char>> {
    match split_once_spec(rec, DELIM_FIELD) {
        None => None,
        Some((id, desc)) => if id.len() != 0 && trim_spec(desc, Cut::White).len() == 0 {
            Some(id)
        } else {
            None
        },
    }
}

pub open spec fn undescribed_fn() -> spec_fn(Seq<char>) -> Option<Seq<char>> {
    |r: Seq<char>| undescribed_of(r)
}

fn undescribed(rec: &str) -> (r: Option<String>)
    ensures
        r.deep_view() == undescribed_of(rec@),
{
    match split_once(rec, DELIM_FIELD) {
        None => None,
        Some((id, desc)) => if !empty(&id) && empty(&trim(&desc, Cut::White)) {
            Some(id)
        } else {
            None
        },
    }
}

pub open spec fn not_empty_of(rec: Seq<char>) -> Option<Seq<char>> {
    match split_once_spec(rec, DELIM_FIELD) {
        None => None,
        Some((id, e)) => if e == "false"@ {
            Some(id)
        } else {
            None
        },
    }
}

pub open spec fn not_empty_fn() -> spec_fn(Seq<char>) -> Option<Seq<char>> {
    |r: Seq<char>| not_empty_of(r)
}

fn not_empty(rec: &str) -> (r: Option<String>)
    ensures
        r.deep_view() == not_empty_of(rec@),
{
    match split_once(rec, DELIM_FIELD) {
        None => None,
        Some((id, e)) => if same(&e, "false") {
            Some(id)
        } else {
            None
        },
    }
}

#[verifier::opaque]
pub open spec fn check_chain_safety_spec(
    t: Trace,
    repo: Seq<char>,
    change_ids: Seq<Seq<char>>,
    ws_path: Option<Seq<char>>,
) -> Out<Seq<Seq<char>>> {
    if change_ids.len() == 0 {
        Out::Got(Seq::empty(), t)
    } else {
        bind(
            jj_spec(
                t,
                Act::JjRepo,
                repo,
                log_args_spec(join_spec(change_ids, " | "@), TMPL_ID_DESC@),
            ),
            |out: Seq<char>, t: Trace|
                {
                    let bare = filter_map(records_spec(out), undescribed_fn());
                    if bare.len() == 0 {
                        Out::Got(Seq::empty(), t)
                    } else {
                        bind(
                            live_log_spec(
                                t,
                                repo,
                                ws_path,
                                log_args_spec(join_spec(bare, " | "@), TMPL_ID_EMPTY@),
                            ),
                            |out: Seq<char>, t: Trace|
                                Out::Got(filter_map(records_spec(out), not_empty_fn()), t),
                        )
                    }
                },
        )
    }
}

/// Those of `change_ids` that have changes and no description.
pub fn check_chain_safety(
    tape: &mut Tape,
    repo: &str,
    change_ids: &Vec<String>,
    ws_path: Option<&str>,
) -> (r: Result<Vec<String>, Stop>)
    ensures
        agrees(
            r,
            final(tape)@,
            check_chain_safety_spec(
                old(tape)@,
                repo@,
                change_ids.deep_view(),
                ws_path.deep_view(),
            ),
        ),
{
    reveal(check_chain_safety_spec);
    let none: Vec<String> = Vec::new();
    assert(none.deep_view() =~= Seq::<Seq<char>>::empty());
    assert(change_ids.deep_view().len() == change_ids@.len());
    if change_ids.len() == 0 {
        return Ok(none);
    }
    let out = jj(tape, Act::JjRepo, repo, log_args(&join(change_ids, " | "), TMPL_ID_DESC))?;
    let bare = collect(&records(&out), undescribed, Ghost(undescribed_fn()));
    assert(bare.deep_view().len() == bare@.len());
    if bare.len() == 0 {
        return Ok(none);
    }
    let out = live_log(tape, repo, ws_path, log_args(&join(&bare, " | "), TMPL_ID_EMPTY))?;
    Ok(collect(&records(&out), not_empty, Ghost(not_empty_fn())))
}

// ---------------------------------------------------------------------------
// Cleaning up
// ---------------------------------------------------------------------------

pub open spec fn move_step(repo: Seq<char>, parent: Seq<char>, id: Seq<char>) -> spec_fn(
    Trace,
    (),
    Seq<char>,
) -> Out<()> {
    |t: Trace, u: (), bm: Seq<char>|
        context_spec(
            bookmark_set_spec(t, repo, bm, parent),
            "moving bookmark "@ + bm + " off trivial head "@ + id,
        )
}

#[verifier::opaque]
pub open spec fn move_bookmarks_spec(
    t: Trace,
    repo: Seq<char>,
    bookmarks: Seq<Seq<char>>,
    parent: Seq<char>,
    id: Seq<char>,
) -> Out<()> {
    each(t, bookmarks, (), move_step(repo, parent, id))
}

fn move_bookmarks(
    tape: &mut Tape,
    repo: &str,
    bookmarks: &Vec<String>,
    parent: &str,
    id: &str,
) -> (r: Result<(), Stop>)
    ensures
        agrees(
            r,
            final(tape)@,
            move_bookmarks_spec(old(tape)@, repo@, bookmarks.deep_view(), parent@, id@),
        ),
{
    reveal(move_bookmarks_spec);
    let ghost t0 = tape@;
    let ghost all = bookmarks.deep_view();
    let ghost step = move_step(repo@, parent@, id@);
    assert(all.skip(0) =~= all);
    for i in 0..bookmarks.len()
        invariant
            t0 == old(tape)@,
            all == bookmarks.deep_view(),
            step == move_step(repo@, parent@, id@),
            move_bookmarks_spec(t0, repo@, all, parent@, id@) == each(t0, all, (), step),
            each(t0, all, (), step) == each(tape@, all.skip(i as int), (), step),
    {
        proof {
            lemma_each_step(all, i as int);
        }
        assert(all[i as int] == bookmarks@[i as int]@);
        let doing = cat4("moving bookmark ", &bookmarks[i], " off trivial head ", id);
        context(bookmark_set(tape, repo, &bookmarks[i], parent), &doing)?;
    }
    Ok(())
}

/// Moves the bookmarks of a trivial head to its parent.
#[verifier::opaque]
pub open spec fn vacate_spec(t: Trace, repo: Seq<char>, id: Seq<char>) -> Out<()> {
    bind(
        local_bookmarks_on_spec(t, repo, id),
        |bms: Seq<Seq<char>>, t: Trace|
            if bms.len() == 0 {
                Out::Got((), t)
            } else {
                bind(
                    resolve_change_id_spec(t, repo, "parents("@ + id + ")"@),
                    |parent: Seq<char>, t: Trace| move_bookmarks_spec(t, repo, bms, parent, id),
                )
            },
    )
}

fn vacate(tape: &mut Tape, repo: &str, id: &str) -> (r: Result<(), Stop>)
    ensures
        agrees(r, final(tape)@, vacate_spec(old(tape)@, repo@, id@)),
{
    reveal(vacate_spec);
    let bms = local_bookmarks_on(tape, repo, id)?;
    assert(bms.deep_view().len() == bms@.len());
    if bms.len() == 0 {
        return Ok(());
    }
    let parent = resolve_change_id(tape, repo, &cat3("parents(", id, ")"))?;
    move_bookmarks(tape, repo, &bms, &parent, id)
}

/// Heads that were found trivial, and those that were not.
pub struct SortedV {
    pub trivial: Seq<Seq<char>>,
    pub skipped: Seq<Seq<char>>,
}

pub open spec fn sort_step(repo: Seq<char>) -> spec_fn(Trace, SortedV, Seq<char>) -> Out<SortedV> {
    |t: Trace, s: SortedV, id: Seq<char>|
        bind(
            check_trivial_head_spec(t, repo, id),
            |found: Option<Seq<char>>, t: Trace|
                if found is Some {
                    bind(
                        vacate_spec(t, repo, id),
                        |u: (), t: Trace|
                            Out::Got(SortedV { trivial: s.trivial.push(id), ..s }, t),
                    )
                } else {
                    Out::Got(SortedV { skipped: s.skipped.push(id), ..s }, t)
                },
        )
}

pub open spec fn unsorted() -> SortedV {
    SortedV { trivial: Seq::empty(), skipped: Seq::empty() }
}

pub open spec fn sorted_out(m: Out<SortedV>) -> Out<(Seq<Seq<char>>, Seq<Seq<char>>)> {
    bind(m, |s: SortedV, t: Trace| Out::Got((s.trivial, s.skipped), t))
}

fn sort_heads(tape: &mut Tape, repo: &str, ids: &Vec<String>) -> (r: Result<
    (Vec<String>, Vec<String>),
    Stop,
>)
    ensures
        agrees(
            r,
            final(tape)@,
            sorted_out(each(old(tape)@, ids.deep_view(), unsorted(), sort_step(repo@))),
        ),
{
    let mut trivial: Vec<String> = Vec::new();
    let mut skipped: Vec<String> = Vec::new();
    let ghost mut s = unsorted();
    assert(trivial.deep_view() =~= s.trivial);
    assert(skipped.deep_view() =~= s.skipped);
    let ghost t0 = tape@;
    let ghost all = ids.deep_view();
    let ghost step = sort_step(repo@);
    assert(all.skip(0) =~= all);
    for i in 0..ids.len()
        invariant
            t0 == old(tape)@,
            all == ids.deep_view(),
            step == sort_step(repo@),
            trivial.deep_view() == s.trivial,
            skipped.deep_view() == s.skipped,
            each(t0, all, unsorted(), step) == each(tape@, all.skip(i as int), s, step),
    {
        proof {
            lemma_each_step(all, i as int);
        }
        assert(all[i as int] == ids@[i as int]@);
        if check_trivial_head(tape, repo, &ids[i])?.is_some() {
            vacate(tape, repo, &ids[i])?;
            trivial.push(ids[i].clone());
            proof {
                s = SortedV { trivial: s.trivial.push(all[i as int]), ..s };
            }
            assert(trivial.deep_view() =~= s.trivial);
        } else {
            skipped.push(ids[i].clone());
            proof {
                s = SortedV { skipped: s.skipped.push(all[i as int]), ..s };
            }
            assert(skipped.deep_view() =~= s.skipped);
        }
    }
    Ok((trivial, skipped))
}

#[verifier::opaque]
pub open spec fn abandon_trivial_heads_spec(
    t: Trace,
    repo: Seq<char>,
    change_ids: Seq<Seq<char>>,
) -> Out<()> {
    bind(
        each(t, change_ids, unsorted(), sort_step(repo)),
        |s: SortedV, t: Trace|
            bind(
                if s.trivial.len() == 0 {
                    Out::Got((), t)
                } else {
                    abandon_revisions_spec(t, repo, s.trivial)
                },
                |u: (), t: Trace|
                    if s.skipped.len() == 0 {
                        Out::Got((), t)
                    } else {
                        Out::Fail(
                            failure_spec(
                                "revisions not trivial heads: "@ + join_spec(s.skipped, ", "@),
                            ),
                            t,
                        )
                    },
            ),
    )
}

/// Abandons those of `change_ids` that are still trivial heads, after their bookmarks moved to the
/// parent; it is an error when some are not.
pub fn abandon_trivial_heads(
    tape: &mut Tape,
    repo: &str,
    change_ids: &Vec<String>,
) -> (r: Result<(), Stop>)
    ensures
        agrees(
            r,
            final(tape)@,
            abandon_trivial_heads_spec(old(tape)@, repo@, change_ids.deep_view()),
        ),
{
    reveal(abandon_trivial_heads_spec);
    let (trivial, skipped) = sort_heads(tape, repo, change_ids)?;
    assert(trivial.deep_view().len() == trivial@.len());
    assert(skipped.deep_view().len() == skipped@.len());
    if trivial.len() != 0 {
        abandon_revisions(tape, repo, &trivial)?;
    }
    if skipped.len() != 0 {
        let msg = cat2("revisions not trivial heads: ", &join(&skipped, ", "));
        return Err(Stop::Fail(failure(msg)));
    }
    Ok(())
}

// ---------------------------------------------------------------------------
// Moving heads
// ---------------------------------------------------------------------------

#[verifier::opaque]
pub open spec fn find_effective_head_spec(
    t: Trace,
    repo: Seq<char>,
    ws_name: Seq<char>,
) -> Out<Seq<char>> {
    nontrivial_spec(t, repo, ws_head_spec(ws_name), Seq::empty(), MAX_TRIVIAL_WALK as nat)
}

/// The nearest revision with content, from the working-copy commit of a workspace on.
pub fn find_effective_head(tape: &mut Tape, repo: &str, ws_name: &str) -> (r: Result<String, Stop>)
    ensures
        agrees(r, final(tape)@, find_effective_head_spec(old(tape)@, repo@, ws_name@)),
{
    reveal(find_effective_head_spec);
    find_nontrivial_target(tape, repo, &ws_head_revset(ws_name))
}

#[verifier::opaque]
pub open spec fn step_head_spec(
    t: Trace,
    repo: Seq<char>,
    ws_name: Seq<char>,
    ws_path: Seq<char>,
    desc: Option<Seq<char>>,
    author: Option<Seq<char>>,
) -> Out<Seq<char>> {
    bind(
        is_trivial_head_spec(t, repo, ws_head_spec(ws_name)),
        |trivial: bool, t: Trace|
            if trivial {
                resolve_change_id_spec(t, repo, ws_head_spec(ws_name))
            } else {
                bind(
                    jj_done_spec(
                        t,
                        Act::JjWsLive,
                        ws_path,
                        seq!["new"@, "--message"@, make_desc_spec(Op::Step, desc)],
                    ),
                    |u: (), t: Trace|
                        bind(
                            with_author_spec(t, ws_path, author),
                            |u: (), t: Trace|
                                resolve_change_id_spec(t, repo, ws_head_spec(ws_name)),
                        ),
                )
            },
    )
}

/// Sees to it that a workspace has a trivial head, and gives its change id.
pub fn step_head(
    tape: &mut Tape,
    repo: &str,
    ws_name: &str,
    ws_path: &str,
    desc: Option<&str>,
    author: Option<&str>,
) -> (r: Result<String, Stop>)
    ensures
        agrees(
            r,
            final(tape)@,
            step_head_spec(
                old(tape)@,
                repo@,
                ws_name@,
                ws_path@,
                desc.deep_view(),
                author.deep_view(),
            ),
        ),
{
    reveal(step_head_spec);
    let ws_at = ws_head_revset(ws_name);
    if is_trivial_head(tape, repo, &ws_at)? {
        return resolve_change_id(tape, repo, &ws_at);
    }
    let msg = make_desc(Op::Step, desc);
    jj_done(tape, Act::JjWsLive, ws_path, args3("new", "--message", &msg))?;
    with_author(tape, ws_path, author)?;
    resolve_change_id(tape, repo, &ws_at)
}

pub open spec fn or_at(parent: Option<Seq<char>>) -> Seq<char> {
    match parent {
        Some(p) => p,
        None => "@"@,
    }
}

#[verifier::opaque]
pub open spec fn make_head_spec(
    t: Trace,
    repo: Seq<char>,
    ws_name: Seq<char>,
    ws_path: Seq<char>,
    parent: Option<Seq<char>>,
    op: Op,
    desc: Option<Seq<char>>,
    author: Option<Seq<char>>,
) -> Out<Seq<char>> {
    bind(
        jj_done_spec(
            t,
            Act::JjWsLive,
            ws_path,
            seq![
                "new"@,
                "--message"@,
                make_desc_spec(op, desc),
                "--"@,
                or_at(parent),
            ],
        ),
        |u: (), t: Trace|
            bind(
                with_author_spec(t, ws_path, author),
                |u: (), t: Trace| resolve_change_id_spec(t, repo, ws_head_spec(ws_name)),
            ),
    )
}

/// A new revision on `parent` in a workspace; its change id comes back.
pub fn make_head(
    tape: &mut Tape,
    repo: &str,
    ws_name: &str,
    ws_path: &str,
    parent: Option<&str>,
    op: Op,
    desc: Option<&str>,
    author: Option<&str>,
) -> (r: Result<String, Stop>)
    ensures
        agrees(
            r,
            final(tape)@,
            make_head_spec(
                old(tape)@,
                repo@,
                ws_name@,
                ws_path@,
                parent.deep_view(),
                op,
                desc.deep_view(),
                author.deep_view(),
            ),
        ),
{
    reveal(make_head_spec);
    let on = match parent {
        Some(p) => p,
        None => "@",
    };
    assert(on@ == or_at(parent.deep_view()));
    let msg = make_desc(op, desc);
    jj_done(tape, Act::JjWsLive, ws_path, args5("new", "--message", &msg, "--", on))?;
    with_author(tape, ws_path, author)?;
    resolve_change_id(tape, repo, &ws_head_revset(ws_name))
}

#[verifier::opaque]
pub open spec fn edit_workspace_head_spec(
    t: Trace,
    ws_path: Seq<char>,
    commit: Seq<char>,
) -> Out<()> {
    jj_done_spec(t, Act::JjWsLive, ws_path, seq!["edit"@, commit])
}

/// Moves a workspace onto an existing commit.
pub fn edit_workspace_head(tape: &mut Tape, ws_path: &str, commit: &str) -> (r: Result<(), Stop>)
    ensures
        agrees(r, final(tape)@, edit_workspace_head_spec(old(tape)@, ws_path@, commit@)),
{
    reveal(edit_workspace_head_spec);
    jj_done(tape, Act::JjWsLive, ws_path, args2("edit", commit))
}

// ---------------------------------------------------------------------------
// Bookmarks of workspaces
// ---------------------------------------------------------------------------

#[verifier::opaque]
pub open spec fn identify_singular_bookmark_spec(
    t: Trace,
    repo: Seq<char>,
    workspace_path_template: Seq<char>,
    repo_name: Seq<char>,
    ws_name: Seq<char>,
) -> Out<Option<(Seq<char>, Seq<char>)>> {
    match derive_spec(workspace_path_template, repo_name, ws_name) {
        None => Out::Got(None, t),
        Some(derived) => resolve_sanitized_bookmark_spec(t, repo, derived),
    }
}

/// The bookmark that belongs to a workspace by its name, and its change id.
pub fn identify_singular_bookmark(
    tape: &mut Tape,
    repo: &str,
    workspace_path_template: &str,
    repo_name: &str,
    ws_name: &str,
) -> (r: Result<Option<(String, String)>, Stop>)
    ensures
        agrees(
            r,
            final(tape)@,
            identify_singular_bookmark_spec(
                old(tape)@,
                repo@,
                workspace_path_template@,
                repo_name@,
                ws_name@,
            ),
        ),
{
    reveal(identify_singular_bookmark_spec);
    match derive_bookmark_from_ws_name(workspace_path_template, repo_name, ws_name) {
        None => Ok(None),
        Some(derived) => resolve_sanitized_bookmark(tape, repo, &derived),
    }
}

#[verifier::opaque]
pub open spec fn advance_singular_bookmark_spec(
    t: Trace,
    repo: Seq<char>,
    workspace_path_template: Seq<char>,
    repo_name: Seq<char>,
    ws_name: Seq<char>,
    target_revision: Seq<char>,
) -> Out<Option<Seq<char>>> {
    bind(
        identify_singular_bookmark_spec(t, repo, workspace_path_template, repo_name, ws_name),
        |found: Option<(Seq<char>, Seq<char>)>, t: Trace|
            match found {
                None => Out::Got(None, t),
                Some((bm, id)) => if id == target_revision {
                    Out::Got(None, t)
                } else {
                    bind(
                        context_spec(
                            bookmark_set_spec(t, repo, bm, target_revision),
                            "advancing bookmark "@ + bm,
                        ),
                        |u: (), t: Trace| Out::Got(Some(bm), t),
                    )
                },
            },
    )
}

/// Moves the bookmark of a workspace to `target_revision`; its name comes back when it moved.
pub fn advance_singular_bookmark(
    tape: &mut Tape,
    repo: &str,
    workspace_path_template: &str,
    repo_name: &str,
    ws_name: &str,
    target_revision: &str,
) -> (r: Result<Option<String>, Stop>)
    ensures
        agrees(
            r,
            final(tape)@,
            advance_singular_bookmark_spec(
                old(tape)@,
                repo@,
                workspace_path_template@,
                repo_name@,
                ws_name@,
                target_revision@,
            ),
        ),
{
    reveal(advance_singular_bookmark_spec);
    match identify_singular_bookmark(tape, repo, workspace_path_template, repo_name, ws_name)? {
        None => Ok(None),
        Some((bm, id)) => {
            if same(&id, target_revision) {
                return Ok(None);
            }
            let doing = cat2("advancing bookmark ", &bm);
            context(bookmark_set(tape, repo, &bm, target_revision), &doing)?;
            Ok(Some(bm))
        },
    }
}

#[verifier::opaque]
pub open spec fn advance_singular_bookmark_to_effective_head_spec(
    t: Trace,
    repo: Seq<char>,
    workspace_path_template: Seq<char>,
    repo_name: Seq<char>,
    ws_name: Seq<char>,
) -> Out<Option<Seq<char>>> {
    bind(
        identify_singular_bookmark_spec(t, repo, workspace_path_template, repo_name, ws_name),
        |found: Option<(Seq<char>, Seq<char>)>, t: Trace|
            match found {
                None => Out::Got(None, t),
                Some((bm, id)) => bind(
                    find_effective_head_spec(t, repo, ws_name),
                    |eff: Seq<char>, t: Trace|
                        if id == eff {
                            Out::Got(None, t)
                        } else {
                            bind(
                                context_spec(
                                    bookmark_set_spec(t, repo, bm, eff),
                                    "advancing bookmark "@ + bm,
                                ),
                                |u: (), t: Trace| Out::Got(Some(bm), t),
                            )
                        },
                ),
            },
    )
}

/// Moves the bookmark of a workspace to its effective head; its name comes back when it moved.
pub fn advance_singular_bookmark_to_effective_head(
    tape: &mut Tape,
    repo: &str,
    workspace_path_template: &str,
    repo_name: &str,
    ws_name: &str,
) -> (r: Result<Option<String>, Stop>)
    ensures
        agrees(
            r,
            final(tape)@,
            advance_singular_bookmark_to_effective_head_spec(
                old(tape)@,
                repo@,
                workspace_path_template@,
                repo_name@,
                ws_name@,
            ),
        ),
{
    reveal(advance_singular_bookmark_to_effective_head_spec);
    match identify_singular_bookmark(tape, repo, workspace_path_template, repo_name, ws_name)? {
        None => Ok(None),
        Some((bm, id)) => {
            let eff = find_effective_head(tape, repo, ws_name)?;
            if same(&id, &eff) {
                return Ok(None);
            }
            let doing = cat2("advancing bookmark ", &bm);
            context(bookmark_set(tape, repo, &bm, &eff), &doing)?;
            Ok(Some(bm))
        },
    }
}

#[verifier::opaque]
pub open spec fn delete_singular_bookmark_spec(
    t: Trace,
    repo: Seq<char>,
    workspace_path_template: Seq<char>,
    repo_name: Seq<char>,
    ws_name: Seq<char>,
) -> Out<Option<Seq<char>>> {
    bind(
        identify_singular_bookmark_spec(t, repo, workspace_path_template, repo_name, ws_name),
        |found: Option<(Seq<char>, Seq<char>)>, t: Trace|
            match found {
                None => Out::Got(None, t),
                Some((bm, id)) => bind(
                    context_spec(bookmark_delete_spec(t, repo, bm), "deleting bookmark "@ + bm),
                    |u: (), t: Trace| Out::Got(Some(bm), t),
                ),
            },
    )
}

/// Deletes the bookmark of a workspace; its name comes back when there was one.
pub fn delete_singular_bookmark(
    tape: &mut Tape,
    repo: &str,
    workspace_path_template: &str,
    repo_name: &str,
    ws_name: &str,
) -> (r: Result<Option<String>, Stop>)
    ensures
        agrees(
            r,
            final(tape)@,
            delete_singular_bookmark_spec(
                old(tape)@,
                repo@,
                workspace_path_template@,
                repo_name@,
                ws_name@,
            ),
        ),
{
    reveal(delete_singular_bookmark_spec);
    match identify_singular_bookmark(tape, repo, workspace_path_template, repo_name, ws_name)? {
        None => Ok(None),
        Some((bm, _)) => {
            let doing = cat2("deleting bookmark ", &bm);
            context(bookmark_delete(tape, repo, &bm), &doing)?;
            Ok(Some(bm))
        },
    }
}

#[verifier::opaque]
pub open spec fn ensure_ji_dir_spec(t: Trace, ws_path: Seq<char>) -> Out<()> {
    let dir = path_join_spec(ws_path, ".ji"@);
    let ignore = path_join_spec(dir, ".gitignore"@);
    bind(
        need_spec(t, at_spec(Act::MakeDirs, dir), "failed to create .ji directory"@),
        |s: Seq<char>, t: Trace|
            bind(
                holds_spec(t, at_spec(Act::Exists, ignore)),
                |there: bool, t: Trace|
                    if there {
                        Out::Got((), t)
                    } else {
                        bind(
                            need_spec(
                                t,
                                request_spec(Act::WriteFile, ignore, seq!["/*\n"@]),
                                "failed to write .ji/.gitignore"@,
                            ),
                            |s: Seq<char>, t: Trace| Out::Got((), t),
                        )
                    },
            ),
    )
}

/// Sees to it that a workspace has a `.ji` directory that version control ignores.
pub fn ensure_ji_dir(tape: &mut Tape, ws_path: &str) -> (r: Result<(), Stop>)
    ensures
        agrees(r, final(tape)@, ensure_ji_dir_spec(old(tape)@, ws_path@)),
{
    reveal(ensure_ji_dir_spec);
    let dir = path_join(ws_path, ".ji");
    let _ = need(tape, at(Act::MakeDirs, &dir), "failed to create .ji directory")?;
    let ignore = path_join(&dir, ".gitignore");
    if holds(tape, at(Act::Exists, &ignore))? {
        return Ok(());
    }
    let _ = need(
        tape,
        request(Act::WriteFile, &ignore, args1("/*\n")),
        "failed to write .ji/.gitignore",
    )?;
    Ok(())
}

} // verus!
