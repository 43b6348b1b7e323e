//! Revisions, bookmarks and workspaces: reading and changing them through jj.

use vstd::prelude::*;

use crate::jj_logs::{
    bookmark_entries_spec, changed_files_spec, described_spec, marked_spec, parse_bookmark_entries,
    parse_changed_files, parse_described, parse_marked, parse_revision_records, parse_stat_line,
    parse_working_copy_names, pick_sanitized, revision_records_spec, sanitized_spec, stat_line_spec,
    working_copy_names_spec, DiffSummary, DiffSummaryV, RevisionInfo, RevisionInfoV,
};
use crate::jj_parse::{
    escape_revset_string, escape_spec, full_lines, full_lines_spec, records, records_spec,
    DELIM_FIELD, DELIM_LIST, TMPL_ID_DESC,
};
use crate::jj_run::{jj, jj_done, jj_done_spec, jj_spec, log_args, log_args_spec};
use crate::jj_utils::{present, present_spec, ws_at_revset, ws_at_spec};
use crate::jujutsu::{
    args_then, snapshot_ws, snapshot_ws_spec, ws_rev, ws_rev_spec, MAX_DESTRUCTIVE_REVISIONS,
    TMPL_ID_LINE,
};
use crate::paths::{parent, parent_spec};
use crate::search::{contains_char, dec_spec, dec_usize, replace, replace_spec};
use crate::seqs::{collect, filter_map};
use crate::tape::{
    agrees, ask, ask_spec, at, at_spec, attempt, attempt_spec, bind, failure, failure_spec, holds,
    holds_spec, need, need_spec, request, request_spec, Act, Failure, FailureV, Kind, Out, ReplyV,
    RequestV, Stop, Tape, Trace,
};
use crate::text::{
    among, args2, args3, args4, args5, args6, args7, args8, cat2, cat3, cat4, cat5, empty, join,
    join_spec, same, split, split_once, split_once_spec, split_spec,
};
use crate::text_map::{put_spec, Pairs, TextMap};

verus! {

/// Separates names from change ids inside a list of bookmarks.
pub const TMPL_MARKED_IDS: &'static str = "local_bookmarks.map(|b| b.name() ++ \"\\x1f\" ++ change_id).join(\"\\x01\")";

pub const TMPL_MARKED_ID_RECORDS: &'static str = "local_bookmarks.map(|b| b.name() ++ \"\\x1f\" ++ change_id).join(\"\\x01\") ++ \"\\x1e\"";

pub const TMPL_BOOKMARKS: &'static str = "local_bookmarks.map(|b| b.name()).join(\"\\x01\")";

/// Change id, bookmarks, description.
pub const TMPL_ID_MARKS_DESC: &'static str = "change_id ++ \"\\x1f\" ++ local_bookmarks.map(|b| b.name()).join(\"\\x01\") ++ \"\\x1f\" ++ description ++ \"\\x1e\"";

pub const TMPL_SHORT_IDS: &'static str = "change_id ++ \"\\x1f\" ++ change_id.shortest() ++ \"\\x1e\"";

pub const TMPL_WORKING_COPIES: &'static str = "if(working_copies, working_copies ++ \"\\x1e\")";

pub open spec fn ok_nonempty(r: Result<Seq<char>, FailureV>) -> Option<Seq<char>> {
    match r {
        Ok(s) => if s.len() == 0 {
            None
        } else {
            Some(s)
        },
        Err(_) => None,
    }
}

fn kept(r: Result<String, Failure>) -> (x: Option<String>)
    ensures
        x.deep_view() == ok_nonempty(
            match r {
                Ok(s) => Ok(s@),
                Err(e) => Err(e.deep_view()),
            },
        ),
{
    match r {
        Ok(s) => if empty(&s) {
            None
        } else {
            Some(s)
        },
        Err(_) => None,
    }
}

// ---------------------------------------------------------------------------
// Bookmarks
// ---------------------------------------------------------------------------

#[verifier::opaque]
pub open spec fn create_bookmark_spec(
    t: Trace,
    repo: Seq<char>,
    ws_name: Seq<char>,
    bookmark_name: Seq<char>,
) -> Out<()> {
    jj_done_spec(
        t,
        Act::JjRepo,
        repo,
        seq![
            "bookmark"@,
            "create"@,
            "--revision"@,
            ws_rev_spec(ws_name),
            "--"@,
            bookmark_name,
        ],
    )
}

/// A new bookmark on the working-copy commit of a workspace.
pub fn create_bookmark(
    tape: &mut Tape,
    repo: &str,
    ws_name: &str,
    bookmark_name: &str,
) -> (r: Result<(), Stop>)
    ensures
        agrees(r, final(tape)@, create_bookmark_spec(old(tape)@, repo@, ws_name@, bookmark_name@)),
{
    reveal(create_bookmark_spec);
    jj_done(
        tape,
        Act::JjRepo,
        repo,
        args6("bookmark", "create", "--revision", &ws_rev(ws_name), "--", bookmark_name),
    )
}

#[verifier::opaque]
pub open spec fn create_bookmark_at_spec(
    t: Trace,
    repo: Seq<char>,
    bookmark_name: Seq<char>,
    revision: Seq<char>,
) -> Out<()> {
    jj_done_spec(
        t,
        Act::JjRepo,
        repo,
        seq!["bookmark"@, "create"@, "--revision"@, revision, "--"@, bookmark_name],
    )
}

/// A new bookmark on `revision`; jj refuses a name that is taken.
pub fn create_bookmark_at(
    tape: &mut Tape,
    repo: &str,
    bookmark_name: &str,
    revision: &str,
) -> (r: Result<(), Stop>)
    ensures
        agrees(
            r,
            final(tape)@,
            create_bookmark_at_spec(old(tape)@, repo@, bookmark_name@, revision@),
        ),
{
    reveal(create_bookmark_at_spec);
    jj_done(tape, Act::JjRepo, repo, args6("bookmark", "create", "--revision", revision, "--", bookmark_name))
}

#[verifier::opaque]
pub open spec fn bookmark_set_spec(
    t: Trace,
    repo: Seq<char>,
    bookmark: Seq<char>,
    revision: Seq<char>,
) -> Out<()> {
    jj_done_spec(
        t,
        Act::JjRepo,
        repo,
        seq!["bookmark"@, "set"@, "--revision"@, revision, "--"@, bookmark],
    )
}

/// Moves a bookmark to `revision`.
pub fn bookmark_set(
    tape: &mut Tape,
    repo: &str,
    bookmark: &str,
    revision: &str,
) -> (r: Result<(), Stop>)
    ensures
        agrees(r, final(tape)@, bookmark_set_spec(old(tape)@, repo@, bookmark@, revision@)),
{
    reveal(bookmark_set_spec);
    jj_done(tape, Act::JjRepo, repo, args6("bookmark", "set", "--revision", revision, "--", bookmark))
}

#[verifier::opaque]
pub open spec fn bookmark_set_exact_spec(
    t: Trace,
    repo: Seq<char>,
    bookmark: Seq<char>,
    revision: Seq<char>,
) -> Out<()> {
    jj_done_spec(
        t,
        Act::JjRepo,
        repo,
        seq!["bookmark"@, "set"@, "--allow-backwards"@, "--revision"@, revision, "--"@, bookmark],
    )
}

/// Moves a bookmark to `revision`, backwards or sideways if need be.
pub fn bookmark_set_exact(
    tape: &mut Tape,
    repo: &str,
    bookmark: &str,
    revision: &str,
) -> (r: Result<(), Stop>)
    ensures
        agrees(r, final(tape)@, bookmark_set_exact_spec(old(tape)@, repo@, bookmark@, revision@)),
{
    reveal(bookmark_set_exact_spec);
    jj_done(tape, Act::JjRepo, repo, args7("bookmark", "set", "--allow-backwards", "--revision", revision, "--", bookmark))
}

#[verifier::opaque]
pub open spec fn bookmark_delete_spec(t: Trace, repo: Seq<char>, bookmark: Seq<char>) -> Out<()> {
    jj_done_spec(
        t,
        Act::JjRepo,
        repo,
        seq!["bookmark"@, "delete"@, "--"@, bookmark],
    )
}

/// Deletes a bookmark.
pub fn bookmark_delete(tape: &mut Tape, repo: &str, bookmark: &str) -> (r: Result<(), Stop>)
    ensures
        agrees(r, final(tape)@, bookmark_delete_spec(old(tape)@, repo@, bookmark@)),
{
    reveal(bookmark_delete_spec);
    jj_done(tape, Act::JjRepo, repo, args4("bookmark", "delete", "--", bookmark))
}

#[verifier::opaque]
pub open spec fn local_bookmarks_on_spec(
    t: Trace,
    repo: Seq<char>,
    revset: Seq<char>,
) -> Out<Seq<Seq<char>>> {
    bind(
        jj_spec(t, Act::JjRepo, repo, log_args_spec(revset, TMPL_BOOKMARKS@)),
        |out: Seq<char>, t: Trace|
            Out::Got(
                if out.len() == 0 {
                    Seq::empty()
                } else {
                    split_spec(out, DELIM_LIST)
                },
                t,
            ),
    )
}

/// The local bookmarks on a revision.
pub fn local_bookmarks_on(
    tape: &mut Tape,
    repo: &str,
    revset: &str,
) -> (r: Result<Vec<String>, Stop>)
    ensures
        agrees(r, final(tape)@, local_bookmarks_on_spec(old(tape)@, repo@, revset@)),
{
    reveal(local_bookmarks_on_spec);
    let out = jj(tape, Act::JjRepo, repo, log_args(revset, TMPL_BOOKMARKS))?;
    if empty(&out) {
        let v: Vec<String> = Vec::new();
        assert(v.deep_view() =~= Seq::<Seq<char>>::empty());
        Ok(v)
    } else {
        Ok(split(&out, DELIM_LIST))
    }
}

#[verifier::opaque]
pub open spec fn bookmark_change_id_spec(
    t: Trace,
    repo: Seq<char>,
    bookmark: Seq<char>,
) -> Out<Option<Seq<char>>> {
    bind(
        attempt_spec(
            jj_spec(
                t,
                Act::JjRepo,
                repo,
                log_args_spec(
                    "latest(bookmarks(exact:\""@ + escape_spec(bookmark) + "\"))"@,
                    "change_id"@,
                ),
            ),
        ),
        |r: Result<Seq<char>, FailureV>, t: Trace| Out::Got(ok_nonempty(r), t),
    )
}

/// The change id that a bookmark points at, if the bookmark exists.
pub fn bookmark_change_id(
    tape: &mut Tape,
    repo: &str,
    bookmark: &str,
) -> (r: Result<Option<String>, Stop>)
    ensures
        agrees(r, final(tape)@, bookmark_change_id_spec(old(tape)@, repo@, bookmark@)),
{
    reveal(bookmark_change_id_spec);
    let rev = cat3("latest(bookmarks(exact:\"", &escape_revset_string(bookmark), "\"))");
    let r = attempt(jj(tape, Act::JjRepo, repo, log_args(&rev, "change_id")))?;
    Ok(kept(r))
}

pub open spec fn field_pair_fn() -> spec_fn(Seq<char>) -> Option<(Seq<char>, Seq<char>)> {
    |e: Seq<char>| split_once_spec(e, DELIM_FIELD)
}

fn field_pair(e: &str) -> (r: Option<(String, String)>)
    ensures
        r.deep_view() == split_once_spec(e@, DELIM_FIELD),
{
    split_once(e, DELIM_FIELD)
}

/// Bookmark names that could read `derived` after sanitizing: each dash may have been a slash.
pub open spec fn sanitized_glob(derived: Seq<char>) -> Seq<char> {
    "latest(bookmarks(glob:\""@ + escape_spec(replace_spec(derived, "-"@, "[-/]"@)) + "\"))"@
}

#[verifier::opaque]
pub open spec fn resolve_sanitized_bookmark_spec(
    t: Trace,
    repo: Seq<char>,
    derived: Seq<char>,
) -> Out<Option<(Seq<char>, Seq<char>)>> {
    bind(
        bookmark_change_id_spec(t, repo, derived),
        |exact: Option<Seq<char>>, t: Trace|
            match exact {
                Some(id) => Out::Got(Some((derived, id)), t),
                None => if !derived.contains('-') {
                    Out::Got(None, t)
                } else {
                    bind(
                        attempt_spec(
                            jj_spec(
                                t,
                                Act::JjRepo,
                                repo,
                                log_args_spec(sanitized_glob(derived), TMPL_MARKED_IDS@),
                            ),
                        ),
                        |r: Result<Seq<char>, FailureV>, t: Trace|
                            Out::Got(
                                match r {
                                    Ok(out) => sanitized_spec(
                                        filter_map(split_spec(out, DELIM_LIST), field_pair_fn()),
                                        derived,
                                    ),
                                    Err(_) => None,
                                },
                                t,
                            ),
                    )
                },
            },
    )
}

/// The bookmark that `derived` stands for, and its change id. A name without its own bookmark may
/// be one whose slashes became dashes in a path.
pub fn resolve_sanitized_bookmark(
    tape: &mut Tape,
    repo: &str,
    derived: &str,
) -> (r: Result<Option<(String, String)>, Stop>)
    ensures
        agrees(r, final(tape)@, resolve_sanitized_bookmark_spec(old(tape)@, repo@, derived@)),
{
    reveal(resolve_sanitized_bookmark_spec);
    proof {
        reveal_strlit("-");
    }
    if let Some(id) = bookmark_change_id(tape, repo, derived)? {
        return Ok(Some((derived.to_string(), id)));
    }
    if !contains_char(derived, '-') {
        return Ok(None);
    }
    let glob = replace(derived, "-", "[-/]");
    let rev = cat3("latest(bookmarks(glob:\"", &escape_revset_string(&glob), "\"))");
    match attempt(jj(tape, Act::JjRepo, repo, log_args(&rev, TMPL_MARKED_IDS)))? {
        Ok(out) => {
            let marks = collect(&split(&out, DELIM_LIST), field_pair, Ghost(field_pair_fn()));
            Ok(pick_sanitized(&marks, derived))
        },
        Err(_) => Ok(None),
    }
}

#[verifier::opaque]
pub open spec fn workspace_bookmarks_spec(
    t: Trace,
    repo: Seq<char>,
    ws_change_id: Seq<char>,
    default_change_id: Seq<char>,
) -> Out<Seq<(Seq<char>, Seq<char>)>> {
    let revset = if ws_change_id == default_change_id {
        "::"@ + ws_change_id
    } else {
        default_change_id + ".."@ + ws_change_id
    };
    bind(
        jj_spec(t, Act::JjRepo, repo, log_args_spec(revset, TMPL_MARKED_ID_RECORDS@)),
        |out: Seq<char>, t: Trace| Out::Got(bookmark_entries_spec(out), t),
    )
}

/// The bookmarks on the revisions that are unique to a workspace, or on all ancestors when it is the
/// default one, each with its change id.
pub fn workspace_bookmarks(
    tape: &mut Tape,
    repo: &str,
    ws_change_id: &str,
    default_change_id: &str,
) -> (r: Result<Vec<(String, String)>, Stop>)
    ensures
        agrees(
            r,
            final(tape)@,
            workspace_bookmarks_spec(old(tape)@, repo@, ws_change_id@, default_change_id@),
        ),
{
    reveal(workspace_bookmarks_spec);
    let revset = if same(ws_change_id, default_change_id) {
        cat2("::", ws_change_id)
    } else {
        cat3(default_change_id, "..", ws_change_id)
    };
    let out = jj(tape, Act::JjRepo, repo, log_args(&revset, TMPL_MARKED_ID_RECORDS))?;
    Ok(parse_bookmark_entries(&out))
}

// ---------------------------------------------------------------------------
// Revisions
// ---------------------------------------------------------------------------

#[verifier::opaque]
pub open spec fn revision_diff_summary_spec(
    t: Trace,
    repo: Seq<char>,
    change_id: Seq<char>,
) -> Out<DiffSummaryV> {
    bind(
        jj_spec(t, Act::JjRepo, repo, seq!["diff"@, "--revision"@, change_id, "--summary"@]),
        |files: Seq<char>, t: Trace|
            bind(
                attempt_spec(
                    jj_spec(t, Act::JjRepo, repo, seq!["diff"@, "--revision"@, change_id, "--stat"@]),
                ),
                |stat: Result<Seq<char>, FailureV>, t: Trace|
                    Out::Got(
                        DiffSummaryV {
                            files: changed_files_spec(files),
                            stat_line: match stat {
                                Ok(s) => stat_line_spec(s),
                                Err(_) => None,
                            },
                        },
                        t,
                    ),
            ),
    )
}

/// The files that a revision changes.
pub fn revision_diff_summary(
    tape: &mut Tape,
    repo: &str,
    change_id: &str,
) -> (r: Result<DiffSummary, Stop>)
    ensures
        agrees(r, final(tape)@, revision_diff_summary_spec(old(tape)@, repo@, change_id@)),
{
    reveal(revision_diff_summary_spec);
    let files = jj(tape, Act::JjRepo, repo, args4("diff", "--revision", change_id, "--summary"))?;
    let stat = attempt(jj(tape, Act::JjRepo, repo, args4("diff", "--revision", change_id, "--stat")))?;
    let stat_line = match stat {
        Ok(s) => parse_stat_line(&s),
        Err(_) => None,
    };
    Ok(DiffSummary { files: parse_changed_files(&files), stat_line })
}

#[verifier::opaque]
pub open spec fn workspace_revisions_with_bookmarks_spec(
    t: Trace,
    repo: Seq<char>,
    ws_change_id: Seq<char>,
    default_change_id: Seq<char>,
) -> Out<(Seq<RevisionInfoV>, Seq<(Seq<char>, Seq<char>)>)> {
    bind(
        jj_spec(
            t,
            Act::JjRepo,
            repo,
            log_args_spec(default_change_id + ".."@ + ws_change_id, TMPL_ID_MARKS_DESC@),
        ),
        |out: Seq<char>, t: Trace| Out::Got(marked_spec(out), t),
    )
}

/// The revisions unique to a workspace, newest first, and the bookmarks on them.
pub fn workspace_revisions_with_bookmarks(
    tape: &mut Tape,
    repo: &str,
    ws_change_id: &str,
    default_change_id: &str,
) -> (r: Result<(Vec<RevisionInfo>, Vec<(String, String)>), Stop>)
    ensures
        agrees(
            r,
            final(tape)@,
            workspace_revisions_with_bookmarks_spec(
                old(tape)@,
                repo@,
                ws_change_id@,
                default_change_id@,
            ),
        ),
{
    reveal(workspace_revisions_with_bookmarks_spec);
    let revset = cat3(default_change_id, "..", ws_change_id);
    let out = jj(tape, Act::JjRepo, repo, log_args(&revset, TMPL_ID_MARKS_DESC))?;
    Ok(parse_marked(&out))
}

#[verifier::opaque]
pub open spec fn default_workspace_revisions_spec(
    t: Trace,
    repo: Seq<char>,
    default_change_id: Seq<char>,
) -> Out<Seq<RevisionInfoV>> {
    bind(
        jj_spec(t, Act::JjRepo, repo, log_args_spec("::"@ + default_change_id, TMPL_ID_DESC@)),
        |out: Seq<char>, t: Trace| Out::Got(revision_records_spec(out), t),
    )
}

/// All ancestors of the default workspace head, newest first.
pub fn default_workspace_revisions(
    tape: &mut Tape,
    repo: &str,
    default_change_id: &str,
) -> (r: Result<Vec<RevisionInfo>, Stop>)
    ensures
        agrees(
            r,
            final(tape)@,
            default_workspace_revisions_spec(old(tape)@, repo@, default_change_id@),
        ),
{
    reveal(default_workspace_revisions_spec);
    let revset = cat2("::", default_change_id);
    let out = jj(tape, Act::JjRepo, repo, log_args(&revset, TMPL_ID_DESC))?;
    Ok(parse_revision_records(&out))
}

#[verifier::opaque]
pub open spec fn ancestor_ids_spec(
    t: Trace,
    repo: Seq<char>,
    change_id: Seq<char>,
) -> Out<Seq<Seq<char>>> {
    bind(
        jj_spec(t, Act::JjRepo, repo, log_args_spec("::"@ + change_id, TMPL_ID_LINE@)),
        |out: Seq<char>, t: Trace| Out::Got(full_lines_spec(out), t),
    )
}

/// The change ids of all ancestors of `change_id`, itself included.
pub fn ancestor_ids(tape: &mut Tape, repo: &str, change_id: &str) -> (r: Result<Vec<String>, Stop>)
    ensures
        agrees(r, final(tape)@, ancestor_ids_spec(old(tape)@, repo@, change_id@)),
{
    reveal(ancestor_ids_spec);
    let revset = cat2("::", change_id);
    let out = jj(tape, Act::JjRepo, repo, log_args(&revset, TMPL_ID_LINE))?;
    Ok(full_lines(&out))
}

#[verifier::opaque]
pub open spec fn revision_descriptions_spec(
    t: Trace,
    repo: Seq<char>,
    revset: Seq<char>,
) -> Out<Seq<(Seq<char>, Seq<char>)>> {
    bind(
        jj_spec(t, Act::JjRepo, repo, log_args_spec(revset, TMPL_ID_DESC@)),
        |out: Seq<char>, t: Trace| Out::Got(described_spec(out), t),
    )
}

/// Change id and description of each revision of `revset`, newest first.
pub fn revision_descriptions(
    tape: &mut Tape,
    repo: &str,
    revset: &str,
) -> (r: Result<Vec<(String, String)>, Stop>)
    ensures
        agrees(r, final(tape)@, revision_descriptions_spec(old(tape)@, repo@, revset@)),
{
    reveal(revision_descriptions_spec);
    let out = jj(tape, Act::JjRepo, repo, log_args(revset, TMPL_ID_DESC))?;
    Ok(parse_described(&out))
}

pub open spec fn closest_args(revset: Seq<char>) -> Seq<Seq<char>> {
    seq![
        "log"@,
        "--no-graph"@,
        "--limit"@,
        "1"@,
        "--revision"@,
        revset,
        "--template"@,
        "change_id"@,
    ]
}

#[verifier::opaque]
pub open spec fn closest_ancestor_workspace_spec(
    t: Trace,
    repo: Seq<char>,
    source_change_id: Seq<char>,
    candidate_ids: Seq<Seq<char>>,
) -> Out<Option<Seq<char>>> {
    if candidate_ids.len() == 0 {
        Out::Got(None, t)
    } else {
        bind(
            attempt_spec(
                jj_spec(
                    t,
                    Act::JjRepo,
                    repo,
                    closest_args(
                        "("@ + join_spec(candidate_ids, " | "@) + ") & ::"@ + source_change_id,
                    ),
                ),
            ),
            |r: Result<Seq<char>, FailureV>, t: Trace| Out::Got(ok_nonempty(r), t),
        )
    }
}

/// The candidate that is the closest ancestor of `source_change_id`.
pub fn closest_ancestor_workspace(
    tape: &mut Tape,
    repo: &str,
    source_change_id: &str,
    candidate_ids: &Vec<String>,
) -> (r: Result<Option<String>, Stop>)
    ensures
        agrees(
            r,
            final(tape)@,
            closest_ancestor_workspace_spec(
                old(tape)@,
                repo@,
                source_change_id@,
                candidate_ids.deep_view(),
            ),
        ),
{
    reveal(closest_ancestor_workspace_spec);
    assert(candidate_ids.deep_view().len() == candidate_ids@.len());
    if candidate_ids.len() == 0 {
        return Ok(None);
    }
    let revset = cat4("(", &join(candidate_ids, " | "), ") & ::", source_change_id);
    let args = args8("log", "--no-graph", "--limit", "1", "--revision", &revset, "--template", "change_id");
    let r = attempt(jj(tape, Act::JjRepo, repo, args))?;
    Ok(kept(r))
}

#[verifier::opaque]
pub open spec fn last_common_ancestor_spec(
    t: Trace,
    repo: Seq<char>,
    id_a: Seq<char>,
    id_b: Seq<char>,
) -> Out<Seq<char>> {
    jj_spec(
        t,
        Act::JjRepo,
        repo,
        log_args_spec("latest(fork_point("@ + id_a + " | "@ + id_b + "))"@, "change_id"@),
    )
}

/// The last common ancestor of two revisions.
pub fn last_common_ancestor(
    tape: &mut Tape,
    repo: &str,
    id_a: &str,
    id_b: &str,
) -> (r: Result<String, Stop>)
    ensures
        agrees(r, final(tape)@, last_common_ancestor_spec(old(tape)@, repo@, id_a@, id_b@)),
{
    reveal(last_common_ancestor_spec);
    let revset = cat5("latest(fork_point(", id_a, " | ", id_b, "))");
    jj(tape, Act::JjRepo, repo, log_args(&revset, "change_id"))
}

/// `ids` without the empty ones and without repetitions.
pub open spec fn distinct_spec(ids: Seq<Seq<char>>) -> Seq<Seq<char>>
    decreases ids.len(),
{
    if ids.len() == 0 {
        ids
    } else {
        let r = distinct_spec(ids.drop_last());
        if ids.last().len() == 0 || r.contains(ids.last()) {
            r
        } else {
            r.push(ids.last())
        }
    }
}

fn distinct(ids: &Vec<String>) -> (r: Vec<String>)
    ensures
        r.deep_view() == distinct_spec(ids.deep_view()),
{
    let ghost all = ids.deep_view();
    let mut out: Vec<String> = Vec::new();
    assert(out.deep_view() =~= distinct_spec(all.take(0)));
    for i in 0..ids.len()
        invariant
            all == ids.deep_view(),
            out.deep_view() == distinct_spec(all.take(i as int)),
    {
        let ghost before = out.deep_view();
        assert(all.take(i + 1).drop_last() =~= all.take(i as int));
        assert(all.take(i + 1).last() == ids@[i as int]@);
        if !(empty(&ids[i]) || among(&out, &ids[i])) {
            out.push(ids[i].clone());
            assert(out.deep_view() =~= before.push(ids@[i as int]@));
        }
    }
    assert(all.take(all.len() as int) =~= all);
    out
}

/// The map that binding the pairs one after the other leads to.
pub open spec fn bound(pairs: Pairs) -> Pairs
    decreases pairs.len(),
{
    if pairs.len() == 0 {
        Seq::empty()
    } else {
        put_spec(bound(pairs.drop_last()), pairs.last().0, pairs.last().1)
    }
}

fn bind_all(pairs: &Vec<(String, String)>) -> (r: TextMap)
    ensures
        r.deep_view() == bound(pairs.deep_view()),
{
    let ghost all = pairs.deep_view();
    let mut map = TextMap::new();
    assert(all.len() == pairs@.len());
    for i in 0..pairs.len()
        invariant
            all == pairs.deep_view(),
            all.len() == pairs@.len(),
            map.deep_view() == bound(all.take(i as int)),
    {
        assert(all.take(i + 1).drop_last() =~= all.take(i as int));
        assert(all.take(i + 1).last() == (pairs@[i as int].0@, pairs@[i as int].1@));
        map = map.with(&pairs[i].0, &pairs[i].1);
    }
    assert(all.take(all.len() as int) =~= all);
    map
}

/// The ids as revset symbols, so that none of them is read as an expression.
pub open spec fn symbols(ids: Seq<Seq<char>>) -> Seq<Seq<char>> {
    ids.map_values(|id: Seq<char>| ws_at_spec(id))
}

fn quote_all(ids: &Vec<String>) -> (r: Vec<String>)
    ensures
        r.deep_view() == symbols(ids.deep_view()),
{
    let ghost all = symbols(ids.deep_view());
    let mut v: Vec<String> = Vec::new();
    assert(v.deep_view() =~= all.take(0));
    for i in 0..ids.len()
        invariant
            all == symbols(ids.deep_view()),
            v.deep_view() == all.take(i as int),
    {
        let ghost before = v.deep_view();
        let q = ws_at_revset(&ids[i]);
        v.push(q);
        assert(v.deep_view() =~= before.push(q@));
        assert(all.take(i + 1) =~= all.take(i as int).push(all[i as int]));
    }
    assert(all.take(ids@.len() as int) =~= all);
    v
}

#[verifier::opaque]
pub open spec fn shortest_change_ids_spec(
    t: Trace,
    repo: Seq<char>,
    ids: Seq<Seq<char>>,
) -> Out<Pairs> {
    let unique = distinct_spec(ids);
    if unique.len() == 0 {
        Out::Got(Seq::empty(), t)
    } else {
        bind(
            attempt_spec(
                jj_spec(
                    t,
                    Act::JjRepo,
                    repo,
                    log_args_spec(present_spec(symbols(unique)), TMPL_SHORT_IDS@),
                ),
            ),
            |r: Result<Seq<char>, FailureV>, t: Trace|
                Out::Got(
                    match r {
                        Ok(out) => bound(filter_map(records_spec(out), field_pair_fn())),
                        Err(_) => Seq::empty(),
                    },
                    t,
                ),
        )
    }
}

/// Full change ids with their shortest unambiguous prefixes. An id that does not resolve is left
/// out and keeps no other from being resolved.
pub fn shortest_change_ids(
    tape: &mut Tape,
    repo: &str,
    ids: &Vec<String>,
) -> (r: Result<TextMap, Stop>)
    ensures
        agrees(r, final(tape)@, shortest_change_ids_spec(old(tape)@, repo@, ids.deep_view())),
{
    reveal(shortest_change_ids_spec);
    let unique = distinct(ids);
    assert(unique.deep_view().len() == unique@.len());
    if unique.len() == 0 {
        return Ok(TextMap::new());
    }
    let revset = present(&quote_all(&unique));
    match attempt(jj(tape, Act::JjRepo, repo, log_args(&revset, TMPL_SHORT_IDS)))? {
        Ok(out) => Ok(bind_all(&collect(&records(&out), field_pair, Ghost(field_pair_fn())))),
        Err(_) => Ok(TextMap::new()),
    }
}

#[verifier::opaque]
pub open spec fn workspaces_in_descendants_spec(
    t: Trace,
    repo: Seq<char>,
    revset: Seq<char>,
) -> Out<Seq<Seq<char>>> {
    bind(
        jj_spec(t, Act::JjRepo, repo, log_args_spec("("@ + revset + ")::"@, TMPL_WORKING_COPIES@)),
        |out: Seq<char>, t: Trace| Out::Got(working_copy_names_spec(out), t),
    )
}

/// The workspaces whose working-copy commit descends from `revset`.
pub fn workspaces_in_descendants(
    tape: &mut Tape,
    repo: &str,
    revset: &str,
) -> (r: Result<Vec<String>, Stop>)
    ensures
        agrees(r, final(tape)@, workspaces_in_descendants_spec(old(tape)@, repo@, revset@)),
{
    reveal(workspaces_in_descendants_spec);
    let full = cat3("(", revset, ")::");
    let out = jj(tape, Act::JjRepo, repo, log_args(&full, TMPL_WORKING_COPIES))?;
    Ok(parse_working_copy_names(&out))
}

// ---------------------------------------------------------------------------
// Changes
// ---------------------------------------------------------------------------

#[verifier::opaque]
pub open spec fn create_workspace_spec(
    t: Trace,
    repo: Seq<char>,
    path: Seq<char>,
    revision: Seq<char>,
    msg: Seq<char>,
) -> Out<()> {
    let made = match parent_spec(path) {
        Some(dir) => bind(
            need_spec(
                t,
                at_spec(Act::MakeDirs, dir),
                "failed to create parent directory "@ + dir,
            ),
            |s: Seq<char>, t: Trace| Out::Got((), t),
        ),
        None => Out::Got((), t),
    };
    bind(
        made,
        |u: (), t: Trace|
            jj_done_spec(
                t,
                Act::JjRepoLive,
                repo,
                seq![
                    "workspace"@,
                    "add"@,
                    "--revision"@,
                    revision,
                    "--message"@,
                    msg,
                    "--"@,
                    path,
                ],
            ),
    )
}

/// Adds a workspace at `path` on `revision`.
pub fn create_workspace(
    tape: &mut Tape,
    repo: &str,
    path: &str,
    revision: &str,
    msg: &str,
) -> (r: Result<(), Stop>)
    ensures
        agrees(r, final(tape)@, create_workspace_spec(old(tape)@, repo@, path@, revision@, msg@)),
{
    reveal(create_workspace_spec);
    if let Some(dir) = parent(path) {
        let doing = cat2("failed to create parent directory ", &dir);
        let _ = need(tape, at(Act::MakeDirs, &dir), &doing)?;
    }
    jj_done(
        tape,
        Act::JjRepoLive,
        repo,
        args8("workspace", "add", "--revision", revision, "--message", msg, "--", path),
    )
}

#[verifier::opaque]
pub open spec fn workspace_forget_spec(
    t: Trace,
    repo: Seq<char>,
    ws_path: Seq<char>,
    name: Seq<char>,
) -> Out<()> {
    bind(
        snapshot_ws_spec(t, ws_path),
        |u: (), t: Trace|
            jj_done_spec(t, Act::JjRepo, repo, seq!["workspace"@, "forget"@, "--"@, name]),
    )
}

/// jj is to forget a workspace.
pub open spec fn forget_request(repo: Seq<char>, name: Seq<char>) -> RequestV {
    request_spec(Act::JjRepo, repo, seq!["workspace"@, "forget"@, "--"@, name])
}

/// Forgets a workspace, after its pending edits are captured.
pub fn workspace_forget(
    tape: &mut Tape,
    repo: &str,
    ws_path: &str,
    name: &str,
) -> (r: Result<(), Stop>)
    ensures
        agrees(r, final(tape)@, workspace_forget_spec(old(tape)@, repo@, ws_path@, name@)),
{
    reveal(workspace_forget_spec);
    snapshot_ws(tape, ws_path)?;
    jj_done(tape, Act::JjRepo, repo, args4("workspace", "forget", "--", name))
}

#[verifier::opaque]
pub open spec fn workspace_forget_orphaned_spec(
    t: Trace,
    repo: Seq<char>,
    name: Seq<char>,
) -> Out<()> {
    jj_done_spec(
        t,
        Act::JjRepo,
        repo,
        seq!["workspace"@, "forget"@, "--"@, name],
    )
}

/// Forgets a workspace that has no directory.
pub fn workspace_forget_orphaned(tape: &mut Tape, repo: &str, name: &str) -> (r: Result<(), Stop>)
    ensures
        agrees(r, final(tape)@, workspace_forget_orphaned_spec(old(tape)@, repo@, name@)),
{
    reveal(workspace_forget_orphaned_spec);
    jj_done(tape, Act::JjRepo, repo, args4("workspace", "forget", "--", name))
}

#[verifier::opaque]
pub open spec fn metaedit_author_in_workspace_spec(
    t: Trace,
    ws_path: Seq<char>,
    author: Seq<char>,
) -> Out<()> {
    jj_done_spec(
        t,
        Act::JjWs,
        ws_path,
        seq!["metaedit"@, "--author"@, author],
    )
}

/// Overrides the author of the working-copy commit.
pub fn metaedit_author_in_workspace(
    tape: &mut Tape,
    ws_path: &str,
    author: &str,
) -> (r: Result<(), Stop>)
    ensures
        agrees(r, final(tape)@, metaedit_author_in_workspace_spec(old(tape)@, ws_path@, author@)),
{
    reveal(metaedit_author_in_workspace_spec);
    jj_done(tape, Act::JjWs, ws_path, args3("metaedit", "--author", author))
}

#[verifier::opaque]
pub open spec fn with_author_spec(
    t: Trace,
    ws_path: Seq<char>,
    author: Option<Seq<char>>,
) -> Out<()> {
    match author {
        Some(a) => metaedit_author_in_workspace_spec(t, ws_path, a),
        None => Out::Got((), t),
    }
}

/// Overrides the author when there is one to set.
pub fn with_author(tape: &mut Tape, ws_path: &str, author: Option<&str>) -> (r: Result<(), Stop>)
    ensures
        agrees(r, final(tape)@, with_author_spec(old(tape)@, ws_path@, author.deep_view())),
{
    reveal(with_author_spec);
    match author {
        Some(a) => metaedit_author_in_workspace(tape, ws_path, a),
        None => Ok(()),
    }
}

#[verifier::opaque]
pub open spec fn new_merge_spec(
    t: Trace,
    ws_path: Seq<char>,
    parents: Seq<Seq<char>>,
    msg: Seq<char>,
    author: Option<Seq<char>>,
) -> Out<Seq<char>> {
    bind(
        holds_spec(t, at_spec(Act::Exists, ws_path)),
        |there: bool, t: Trace|
            if !there {
                Out::Fail(failure_spec("merge skipped — directory missing: "@ + ws_path), t)
            } else {
                bind(
                    jj_done_spec(
                        t,
                        Act::JjWsLive,
                        ws_path,
                        seq!["new"@, "--message"@, msg, "--"@] + parents,
                    ),
                    |u: (), t: Trace|
                        bind(
                            with_author_spec(t, ws_path, author),
                            |u: (), t: Trace|
                                jj_spec(
                                    t,
                                    Act::JjWs,
                                    ws_path,
                                    log_args_spec("@"@, "change_id"@),
                                ),
                        ),
                )
            },
    )
}

/// A merge commit in a workspace; its change id comes back.
pub fn new_merge(
    tape: &mut Tape,
    ws_path: &str,
    parents: &Vec<String>,
    msg: &str,
    author: Option<&str>,
) -> (r: Result<String, Stop>)
    ensures
        agrees(
            r,
            final(tape)@,
            new_merge_spec(old(tape)@, ws_path@, parents.deep_view(), msg@, author.deep_view()),
        ),
{
    reveal(new_merge_spec);
    if !holds(tape, at(Act::Exists, ws_path))? {
        return Err(Stop::Fail(failure(cat2("merge skipped — directory missing: ", ws_path))));
    }
    jj_done(tape, Act::JjWsLive, ws_path, args_then(args4("new", "--message", msg, "--"), parents))?;
    with_author(tape, ws_path, author)?;
    jj(tape, Act::JjWs, ws_path, log_args("@", "change_id"))
}

#[verifier::opaque]
pub open spec fn new_on_in_workspace_spec(
    t: Trace,
    ws_path: Seq<char>,
    revision: Seq<char>,
    msg: Seq<char>,
    author: Option<Seq<char>>,
) -> Out<()> {
    bind(
        holds_spec(t, at_spec(Act::Exists, ws_path)),
        |there: bool, t: Trace|
            if !there {
                Out::Fail(failure_spec("new skipped — directory missing: "@ + ws_path), t)
            } else {
                bind(
                    jj_done_spec(
                        t,
                        Act::JjWs,
                        ws_path,
                        seq!["new"@, "--message"@, msg, "--"@, revision],
                    ),
                    |u: (), t: Trace| with_author_spec(t, ws_path, author),
                )
            },
    )
}

/// A new commit on `revision` in a workspace.
pub fn new_on_in_workspace(
    tape: &mut Tape,
    ws_path: &str,
    revision: &str,
    msg: &str,
    author: Option<&str>,
) -> (r: Result<(), Stop>)
    ensures
        agrees(
            r,
            final(tape)@,
            new_on_in_workspace_spec(old(tape)@, ws_path@, revision@, msg@, author.deep_view()),
        ),
{
    reveal(new_on_in_workspace_spec);
    if !holds(tape, at(Act::Exists, ws_path))? {
        return Err(Stop::Fail(failure(cat2("new skipped — directory missing: ", ws_path))));
    }
    jj_done(tape, Act::JjWs, ws_path, args5("new", "--message", msg, "--", revision))?;
    with_author(tape, ws_path, author)
}

#[verifier::opaque]
pub open spec fn progress_workspace_spec(
    t: Trace,
    ws_path: Seq<char>,
    msg: Seq<char>,
    author: Option<Seq<char>>,
) -> Out<()> {
    bind(
        holds_spec(t, at_spec(Act::Exists, ws_path)),
        |there: bool, t: Trace|
            if !there {
                Out::Fail(failure_spec("progress skipped — directory missing: "@ + ws_path), t)
            } else {
                bind(
                    jj_done_spec(t, Act::JjWs, ws_path, seq!["new"@, "--message"@, msg]),
                    |u: (), t: Trace| with_author_spec(t, ws_path, author),
                )
            },
    )
}

/// A new commit on the head of a workspace.
pub fn progress_workspace(
    tape: &mut Tape,
    ws_path: &str,
    msg: &str,
    author: Option<&str>,
) -> (r: Result<(), Stop>)
    ensures
        agrees(
            r,
            final(tape)@,
            progress_workspace_spec(old(tape)@, ws_path@, msg@, author.deep_view()),
        ),
{
    reveal(progress_workspace_spec);
    if !holds(tape, at(Act::Exists, ws_path))? {
        return Err(Stop::Fail(failure(cat2("progress skipped — directory missing: ", ws_path))));
    }
    jj_done(tape, Act::JjWs, ws_path, args3("new", "--message", msg))?;
    with_author(tape, ws_path, author)
}

#[verifier::opaque]
pub open spec fn rebase_source_spec(
    t: Trace,
    repo: Seq<char>,
    source_revset: Seq<char>,
    onto: Seq<char>,
) -> Out<Seq<char>> {
    jj_spec(
        t,
        Act::JjRepo,
        repo,
        seq!["rebase"@, "--source"@, source_revset, "--onto"@, onto],
    )
}

/// Rebases `source_revset` and its descendants onto `onto`.
pub fn rebase_source(
    tape: &mut Tape,
    repo: &str,
    source_revset: &str,
    onto: &str,
) -> (r: Result<String, Stop>)
    ensures
        agrees(r, final(tape)@, rebase_source_spec(old(tape)@, repo@, source_revset@, onto@)),
{
    reveal(rebase_source_spec);
    jj(tape, Act::JjRepo, repo, args5("rebase", "--source", source_revset, "--onto", onto))
}

#[verifier::opaque]
pub open spec fn squash_into_spec(
    t: Trace,
    repo: Seq<char>,
    from_revset: Seq<char>,
    into_rev: Seq<char>,
    message: Seq<char>,
) -> Out<Seq<char>> {
    jj_spec(
        t,
        Act::JjRepo,
        repo,
        seq!["squash"@, "--from"@, from_revset, "--into"@, into_rev, "--message"@, message],
    )
}

/// Squashes `from_revset` into `into_rev`.
pub fn squash_into(
    tape: &mut Tape,
    repo: &str,
    from_revset: &str,
    into_rev: &str,
    message: &str,
) -> (r: Result<String, Stop>)
    ensures
        agrees(
            r,
            final(tape)@,
            squash_into_spec(old(tape)@, repo@, from_revset@, into_rev@, message@),
        ),
{
    reveal(squash_into_spec);
    jj(tape, Act::JjRepo, repo, args7("squash", "--from", from_revset, "--into", into_rev, "--message", message))
}

#[verifier::opaque]
pub open spec fn split_revision_spec(t: Trace, repo: Seq<char>, change_id: Seq<char>) -> Out<()> {
    bind(
        ask_spec(
            t,
            request_spec(Act::JjTerminal, repo, seq!["split"@, "--revision"@, change_id]),
        ),
        |r: ReplyV, t: Trace|
            match r.kind {
                Kind::Done => Out::Got((), t),
                Kind::Nonzero => Out::Fail(failure_spec("jj split failed with "@ + r.err), t),
                _ => Out::Fail(
                    FailureV { chain: seq!["failed to run jj split"@, r.err], command: None },
                    t,
                ),
            },
    )
}

/// Splits a revision interactively, with the terminal attached.
pub fn split_revision(tape: &mut Tape, repo: &str, change_id: &str) -> (r: Result<(), Stop>)
    ensures
        agrees(r, final(tape)@, split_revision_spec(old(tape)@, repo@, change_id@)),
{
    reveal(split_revision_spec);
    let r = ask(tape, request(Act::JjTerminal, repo, args3("split", "--revision", change_id)))?;
    match r.kind {
        Kind::Done => Ok(()),
        Kind::Nonzero => Err(Stop::Fail(failure(cat2("jj split failed with ", &r.err)))),
        _ => {
            let chain = args2("failed to run jj split", &r.err);
            Err(Stop::Fail(Failure { chain, command: None }))
        },
    }
}

#[verifier::opaque]
pub open spec fn abandon_revisions_spec(
    t: Trace,
    repo: Seq<char>,
    change_ids: Seq<Seq<char>>,
) -> Out<()> {
    if change_ids.len() == 0 {
        Out::Got((), t)
    } else if change_ids.len() > MAX_DESTRUCTIVE_REVISIONS {
        Out::Fail(
            failure_spec(
                "refusing to abandon "@ + dec_spec(change_ids.len())
                    + " revisions (safety cap is 50). This likely indicates a bug in revision selection."@,
            ),
            t,
        )
    } else {
        jj_done_spec(t, Act::JjRepo, repo, seq!["abandon"@, "--"@] + change_ids)
    }
}

/// Abandons revisions, up to the safety cap.
pub fn abandon_revisions(
    tape: &mut Tape,
    repo: &str,
    change_ids: &Vec<String>,
) -> (r: Result<(), Stop>)
    ensures
        agrees(r, final(tape)@, abandon_revisions_spec(old(tape)@, repo@, change_ids.deep_view())),
{
    reveal(abandon_revisions_spec);
    assert(change_ids.deep_view().len() == change_ids@.len());
    if change_ids.len() == 0 {
        return Ok(());
    }
    if change_ids.len() > MAX_DESTRUCTIVE_REVISIONS {
        return Err(
            Stop::Fail(
                failure(
                    cat3(
                        "refusing to abandon ",
                        &dec_usize(change_ids.len()),
                        " revisions (safety cap is 50). This likely indicates a bug in revision selection.",
                    ),
                ),
            ),
        );
    }
    jj_done(tape, Act::JjRepo, repo, args_then(args2("abandon", "--"), change_ids))
}

/// More revisions than the cap are refused before anything is asked of jj, and no list within the
/// cap is refused for its length.
pub proof fn law_abandon_cap(t: Trace, repo: Seq<char>, ids: Seq<Seq<char>>)
    ensures
        ids.len() > MAX_DESTRUCTIVE_REVISIONS ==> abandon_revisions_spec(t, repo, ids) is Fail,
        abandon_revisions_spec(t, repo, ids) is Ask ==> 0 < ids.len() <= MAX_DESTRUCTIVE_REVISIONS,
        t.len() == 0 && 0 < ids.len() <= MAX_DESTRUCTIVE_REVISIONS ==> abandon_revisions_spec(
            t,
            repo,
            ids,
        ) is Ask,
{
    reveal(abandon_revisions_spec);
}

} // verus!
