//! After an operation: stale workspaces, bookmarks.

use vstd::prelude::*;

use crate::commands::types::{
    post_error_spec, BookmarkAction, Operation, PostOperationError, PostOperationErrorV,
    SyncModeInfo, SyncModeInfoV,
};
use crate::jj_utils::{
    advance_singular_bookmark, advance_singular_bookmark_spec,
    advance_singular_bookmark_to_effective_head, advance_singular_bookmark_to_effective_head_spec,
    delete_singular_bookmark, delete_singular_bookmark_spec, identify_singular_bookmark,
    identify_singular_bookmark_spec,
};
use crate::revisions::{
    bookmark_delete, bookmark_delete_spec, bookmark_set_exact, bookmark_set_exact_spec,
    workspaces_in_descendants, workspaces_in_descendants_spec,
};
use crate::stale::{
    stale_workspace_names, stale_workspace_names_spec, unknown, unknown_spec,
    update_workspace_stale, update_workspace_stale_spec,
};
use crate::tape::{
    agrees, at, at_spec, attempt, attempt_spec, bind, each, holds, holds_spec, lemma_each_step, Act,
    Failure, FailureV, Out, Stop, Tape, Trace,
};
use crate::text::{among, cat2, cat5, copy_all, empty, join, join_spec, same};
use crate::text_map::Pairs;

verus! {

// ---------------------------------------------------------------------------
// Stale workspaces
// ---------------------------------------------------------------------------

/// The report on a stale workspace.
pub open spec fn stale_note(name: Seq<char>, pre_stale: Seq<Seq<char>>) -> Seq<char> {
    if pre_stale.contains(name) {
        name + " (was already stale)"@
    } else {
        name + " (unexpected)"@
    }
}

pub open spec fn stale_notes(names: Seq<Seq<char>>, pre_stale: Seq<Seq<char>>) -> Seq<Seq<char>> {
    names.map_values(|n: Seq<char>| stale_note(n, pre_stale))
}

fn note_all(names: &Vec<String>, pre_stale: &Vec<String>) -> (r: Vec<String>)
    ensures
        r.deep_view() == stale_notes(names.deep_view(), pre_stale.deep_view()),
{
    let ghost all = stale_notes(names.deep_view(), pre_stale.deep_view());
    let mut out: Vec<String> = Vec::new();
    for i in 0..names.len()
        invariant
            all == stale_notes(names.deep_view(), pre_stale.deep_view()),
            out.deep_view() == all.take(i as int),
    {
        let ghost before = out.deep_view();
        let n = if among(pre_stale, &names[i]) {
            cat2(&names[i], " (was already stale)")
        } else {
            cat2(&names[i], " (unexpected)")
        };
        out.push(n);
        assert(out.deep_view() =~= before.push(n@));
        assert(all.take(i + 1) =~= all.take(i as int).push(all[i as int]));
    }
    assert(all.take(names@.len() as int) =~= all);
    out
}

#[verifier::opaque]
pub open spec fn post_op_stale_spec(
    t: Trace,
    ws_paths: Pairs,
    pre_stale: Seq<Seq<char>>,
) -> Out<Seq<Seq<char>>> {
    bind(
        stale_workspace_names_spec(t, ws_paths),
        |names: Seq<Seq<char>>, t: Trace| Out::Got(stale_notes(names, pre_stale), t),
    )
}

/// The workspaces that are stale after an operation, with whether they were before.
pub fn post_op_stale(
    tape: &mut Tape,
    ws_paths: &Vec<(String, String)>,
    pre_stale: &Vec<String>,
) -> (r: Result<Vec<String>, Stop>)
    ensures
        agrees(
            r,
            final(tape)@,
            post_op_stale_spec(old(tape)@, ws_paths.deep_view(), pre_stale.deep_view()),
        ),
{
    reveal(post_op_stale_spec);
    let names = stale_workspace_names(tape, ws_paths)?;
    Ok(note_all(&names, pre_stale))
}

/// The revisions that an operation rewrites, if it rewrites any below other workspaces.
pub open spec fn rewritten(
    operation: Operation,
    info: SyncModeInfoV,
    abandoned: Seq<Seq<char>>,
) -> Option<Seq<char>> {
    match operation {
        Operation::Rebase | Operation::MergeSquash | Operation::MergeSquashClose => if info.lca
            == info.src_effective_head {
            None
        } else {
            Some("roots("@ + info.lca + ".."@ + info.src_effective_head + ")"@)
        },
        Operation::Abandon => if abandoned.len() == 0 {
            None
        } else {
            Some(join_spec(abandoned, " | "@))
        },
        _ => None,
    }
}

fn rewrites(operation: Operation, info: &SyncModeInfo, abandoned: &Vec<String>) -> (r: Option<
    String,
>)
    ensures
        r.deep_view() == rewritten(operation, info.deep_view(), abandoned.deep_view()),
{
    assert(abandoned.deep_view().len() == abandoned@.len());
    match operation {
        Operation::Rebase | Operation::MergeSquash | Operation::MergeSquashClose => if same(
            &info.lca,
            &info.src_effective_head,
        ) {
            None
        } else {
            Some(cat5("roots(", &info.lca, "..", &info.src_effective_head, ")"))
        },
        Operation::Abandon => if abandoned.len() == 0 {
            None
        } else {
            Some(join(abandoned, " | "))
        },
        _ => None,
    }
}

#[verifier::opaque]
pub open spec fn predict_stale_workspaces_spec(
    t: Trace,
    repo: Seq<char>,
    operation: Operation,
    info: SyncModeInfoV,
    abandoned_ids: Seq<Seq<char>>,
    involved: Seq<Seq<char>>,
) -> Out<Seq<Seq<char>>> {
    match rewritten(operation, info, abandoned_ids) {
        None => Out::Got(Seq::empty(), t),
        Some(revset) => bind(
            attempt_spec(workspaces_in_descendants_spec(t, repo, revset)),
            |r: Result<Seq<Seq<char>>, FailureV>, t: Trace|
                Out::Got(
                    match r {
                        Ok(names) => unknown_spec(names, involved),
                        Err(_) => Seq::empty(),
                    },
                    t,
                ),
        ),
    }
}

/// Other workspaces that an operation will make stale. A query that fails predicts none.
pub fn predict_stale_workspaces(
    tape: &mut Tape,
    repo: &str,
    operation: Operation,
    info: &SyncModeInfo,
    abandoned_ids: &Vec<String>,
    involved: &Vec<String>,
) -> (r: Result<Vec<String>, Stop>)
    ensures
        agrees(
            r,
            final(tape)@,
            predict_stale_workspaces_spec(
                old(tape)@,
                repo@,
                operation,
                info.deep_view(),
                abandoned_ids.deep_view(),
                involved.deep_view(),
            ),
        ),
{
    reveal(predict_stale_workspaces_spec);
    let none: Vec<String> = Vec::new();
    assert(none.deep_view() =~= Seq::<Seq<char>>::empty());
    match rewrites(operation, info, abandoned_ids) {
        None => Ok(none),
        Some(revset) => match attempt(workspaces_in_descendants(tape, repo, &revset))? {
            Ok(names) => Ok(unknown(&names, involved)),
            Err(_) => Ok(none),
        },
    }
}

pub open spec fn refresh_step(predicted: Seq<Seq<char>>) -> spec_fn(
    Trace,
    (),
    (Seq<char>, Seq<char>),
) -> Out<()> {
    |t: Trace, u: (), w: (Seq<char>, Seq<char>)|
        if predicted.contains(w.0) && w.1.len() != 0 {
            refresh_spec(t, w.1)
        } else {
            Out::Got((), t)
        }
}

/// Brings the workspace at `path` up to date, as far as that works.
#[verifier::opaque]
pub open spec fn refresh_spec(t: Trace, path: Seq<char>) -> Out<()> {
    bind(
        holds_spec(t, at_spec(Act::Exists, path)),
        |there: bool, t: Trace|
            if there {
                bind(
                    attempt_spec(update_workspace_stale_spec(t, path)),
                    |r: Result<Seq<char>, FailureV>, t: Trace| Out::Got((), t),
                )
            } else {
                Out::Got((), t)
            },
    )
}

fn refresh(tape: &mut Tape, path: &str) -> (r: Result<(), Stop>)
    ensures
        agrees(r, final(tape)@, refresh_spec(old(tape)@, path@)),
{
    reveal(refresh_spec);
    if holds(tape, at(Act::Exists, path))? {
        let _ = attempt(update_workspace_stale(tape, path))?;
    }
    Ok(())
}

#[verifier::opaque]
pub open spec fn resolve_predicted_stale_spec(
    t: Trace,
    predicted: Seq<Seq<char>>,
    ws_paths: Pairs,
) -> Out<()> {
    each(t, ws_paths, (), refresh_step(predicted))
}

/// Brings the predicted workspaces up to date.
pub fn resolve_predicted_stale(
    tape: &mut Tape,
    predicted: &Vec<String>,
    ws_paths: &Vec<(String, String)>,
) -> (r: Result<(), Stop>)
    ensures
        agrees(
            r,
            final(tape)@,
            resolve_predicted_stale_spec(
                old(tape)@,
                predicted.deep_view(),
                ws_paths.deep_view(),
            ),
        ),
{
    reveal(resolve_predicted_stale_spec);
    let ghost t0 = tape@;
    let ghost all = ws_paths.deep_view();
    let ghost step = refresh_step(predicted.deep_view());
    assert(all.skip(0) =~= all);
    for i in 0..ws_paths.len()
        invariant
            t0 == old(tape)@,
            all == ws_paths.deep_view(),
            step == refresh_step(predicted.deep_view()),
            resolve_predicted_stale_spec(t0, predicted.deep_view(), all) == each(t0, all, (), step),
            each(t0, all, (), step) == each(tape@, all.skip(i as int), (), step),
    {
        proof {
            lemma_each_step(all, i as int);
        }
        assert(all[i as int] == (ws_paths@[i as int].0@, ws_paths@[i as int].1@));
        if among(predicted, &ws_paths[i].0) && !empty(&ws_paths[i].1) {
            refresh(tape, &ws_paths[i].1)?;
        }
    }
    Ok(())
}

// ---------------------------------------------------------------------------
// Bookmarks
// ---------------------------------------------------------------------------

/// What became of the bookmarks.
#[derive(Debug)]
pub struct BookmarkResult {
    /// Bookmarks that were not handled.
    pub remaining: Vec<String>,
    /// Commands that failed.
    pub errors: Vec<PostOperationError>,
}

pub struct BookmarkResultV {
    pub remaining: Seq<Seq<char>>,
    pub errors: Seq<PostOperationErrorV>,
}

impl DeepView for BookmarkResult {
    type V = BookmarkResultV;

    open spec fn deep_view(&self) -> BookmarkResultV {
        BookmarkResultV {
            remaining: self.remaining.deep_view(),
            errors: self.errors.deep_view(),
        }
    }
}

/// The failure in `r`, if it is one.
pub open spec fn errors_of<A>(r: Result<A, FailureV>) -> Seq<PostOperationErrorV> {
    match r {
        Ok(_) => Seq::empty(),
        Err(e) => seq![post_error_spec(e)],
    }
}

/// Runs `m` and keeps only how it failed.
pub open spec fn noted<A>(m: Out<A>) -> Out<Seq<PostOperationErrorV>> {
    bind(attempt_spec(m), |r: Result<A, FailureV>, t: Trace| Out::Got(errors_of(r), t))
}

fn note<T>(r: Result<T, Failure>) -> (v: Vec<PostOperationError>)
    ensures
        v.deep_view() == (match r {
            Ok(_) => Seq::<PostOperationErrorV>::empty(),
            Err(e) => seq![post_error_spec(e.deep_view())],
        }),
{
    let mut v: Vec<PostOperationError> = Vec::new();
    match r {
        Ok(_) => {
            assert(v.deep_view() =~= Seq::<PostOperationErrorV>::empty());
        },
        Err(e) => {
            v.push(PostOperationError::from_anyhow(&e));
            assert(v.deep_view() =~= seq![post_error_spec(e.deep_view())]);
        },
    }
    v
}

fn joined(a: Vec<PostOperationError>, b: Vec<PostOperationError>) -> (r: Vec<PostOperationError>)
    ensures
        r.deep_view() == a.deep_view() + b.deep_view(),
{
    let ghost x = a.deep_view();
    let ghost y = b.deep_view();
    let mut v = a;
    let mut w = b;
    v.append(&mut w);
    assert(v.deep_view() =~= x + y);
    v
}

/// Close operations that keep the work of the source.
pub open spec fn closes_keeping(op: Operation) -> bool {
    op == Operation::MergeClose || op == Operation::MergeSquashClose || op
        == Operation::FastForwardTargetClose || op == Operation::Detach
}

/// Transfer operations: both workspaces survive.
pub open spec fn transfers(op: Operation) -> bool {
    op == Operation::Merge || op == Operation::FastForwardTarget || op
        == Operation::FastForwardSource || op == Operation::MergeAbandonOld || op
        == Operation::Rebase || op == Operation::MergeSquash
}

#[verifier::opaque]
pub open spec fn advance_to_spec(
    t: Trace,
    repo: Seq<char>,
    workspace_path_template: Seq<char>,
    repo_name: Seq<char>,
    source_name: Seq<char>,
    head: Option<Seq<char>>,
) -> Out<Seq<PostOperationErrorV>> {
    match head {
        None => Out::Got(Seq::empty(), t),
        Some(h) => noted(
            advance_singular_bookmark_spec(
                t,
                repo,
                workspace_path_template,
                repo_name,
                source_name,
                h,
            ),
        ),
    }
}

fn advance_to(
    tape: &mut Tape,
    repo: &str,
    workspace_path_template: &str,
    repo_name: &str,
    source_name: &str,
    head: Option<&str>,
) -> (r: Result<Vec<PostOperationError>, Stop>)
    ensures
        agrees(
            r,
            final(tape)@,
            advance_to_spec(
                old(tape)@,
                repo@,
                workspace_path_template@,
                repo_name@,
                source_name@,
                head.deep_view(),
            ),
        ),
{
    reveal(advance_to_spec);
    match head {
        None => {
            let v: Vec<PostOperationError> = Vec::new();
            assert(v.deep_view() =~= Seq::<PostOperationErrorV>::empty());
            Ok(v)
        },
        Some(h) => {
            let r = attempt(
                advance_singular_bookmark(
                    tape,
                    repo,
                    workspace_path_template,
                    repo_name,
                    source_name,
                    h,
                ),
            )?;
            Ok(note(r))
        },
    }
}

#[verifier::opaque]
pub open spec fn advance_own_spec(
    t: Trace,
    repo: Seq<char>,
    workspace_path_template: Seq<char>,
    repo_name: Seq<char>,
    ws_name: Seq<char>,
) -> Out<Seq<PostOperationErrorV>> {
    noted(
        advance_singular_bookmark_to_effective_head_spec(
            t,
            repo,
            workspace_path_template,
            repo_name,
            ws_name,
        ),
    )
}

fn advance_own(
    tape: &mut Tape,
    repo: &str,
    workspace_path_template: &str,
    repo_name: &str,
    ws_name: &str,
) -> (r: Result<Vec<PostOperationError>, Stop>)
    ensures
        agrees(
            r,
            final(tape)@,
            advance_own_spec(old(tape)@, repo@, workspace_path_template@, repo_name@, ws_name@),
        ),
{
    reveal(advance_own_spec);
    let r = attempt(
        advance_singular_bookmark_to_effective_head(
            tape,
            repo,
            workspace_path_template,
            repo_name,
            ws_name,
        ),
    )?;
    Ok(note(r))
}

/// Where the bookmark of a closed source goes: to the given head, else to the one in the plan.
pub open spec fn source_head(
    given: Option<Seq<char>>,
    info: Option<SyncModeInfoV>,
) -> Option<Seq<char>> {
    match given {
        Some(h) => Some(h),
        None => match info {
            Some(i) => Some(i.src_effective_head),
            None => None,
        },
    }
}

/// Moves or deletes the bookmarks that belong to the workspaces by their names.
#[verifier::opaque]
pub open spec fn own_bookmarks_spec(
    t: Trace,
    repo: Seq<char>,
    operation: Operation,
    source_name: Seq<char>,
    target_name: Seq<char>,
    close_info: Option<SyncModeInfoV>,
    workspace_path_template: Seq<char>,
    repo_name: Seq<char>,
    given: Option<Seq<char>>,
) -> Out<Seq<PostOperationErrorV>> {
    if operation == Operation::Abandon {
        noted(
            delete_singular_bookmark_spec(
                t,
                repo,
                workspace_path_template,
                repo_name,
                source_name,
            ),
        )
    } else if closes_keeping(operation) {
        bind(
            advance_to_spec(
                t,
                repo,
                workspace_path_template,
                repo_name,
                source_name,
                source_head(given, close_info),
            ),
            |a: Seq<PostOperationErrorV>, t: Trace|
                if operation == Operation::Detach {
                    Out::Got(a, t)
                } else {
                    bind(
                        advance_own_spec(t, repo, workspace_path_template, repo_name, target_name),
                        |b: Seq<PostOperationErrorV>, t: Trace| Out::Got(a + b, t),
                    )
                },
        )
    } else if transfers(operation) {
        bind(
            advance_own_spec(t, repo, workspace_path_template, repo_name, source_name),
            |a: Seq<PostOperationErrorV>, t: Trace|
                bind(
                    advance_own_spec(t, repo, workspace_path_template, repo_name, target_name),
                    |b: Seq<PostOperationErrorV>, t: Trace| Out::Got(a + b, t),
                ),
        )
    } else {
        Out::Got(Seq::empty(), t)
    }
}

fn own_bookmarks(
    tape: &mut Tape,
    repo: &str,
    operation: Operation,
    source_name: &str,
    target_name: &str,
    close_info: Option<&SyncModeInfo>,
    workspace_path_template: &str,
    repo_name: &str,
    given: Option<&str>,
) -> (r: Result<Vec<PostOperationError>, Stop>)
    ensures
        agrees(
            r,
            final(tape)@,
            own_bookmarks_spec(
                old(tape)@,
                repo@,
                operation,
                source_name@,
                target_name@,
                close_info.deep_view(),
                workspace_path_template@,
                repo_name@,
                given.deep_view(),
            ),
        ),
{
    reveal(own_bookmarks_spec);
    match operation {
        Operation::Abandon => {
            let r = attempt(
                delete_singular_bookmark(
                    tape,
                    repo,
                    workspace_path_template,
                    repo_name,
                    source_name,
                ),
            )?;
            Ok(note(r))
        },
        Operation::MergeClose
        | Operation::MergeSquashClose
        | Operation::FastForwardTargetClose
        | Operation::Detach => {
            let head = match given {
                Some(h) => Some(h),
                None => match close_info {
                    Some(i) => Some(i.src_effective_head.as_str()),
                    None => None,
                },
            };
            assert(head.deep_view() == source_head(given.deep_view(), close_info.deep_view()));
            let a = advance_to(
                tape,
                repo,
                workspace_path_template,
                repo_name,
                source_name,
                head,
            )?;
            if operation == Operation::Detach {
                return Ok(a);
            }
            let b = advance_own(tape, repo, workspace_path_template, repo_name, target_name)?;
            Ok(joined(a, b))
        },
        Operation::Merge
        | Operation::FastForwardTarget
        | Operation::FastForwardSource
        | Operation::MergeAbandonOld
        | Operation::Rebase
        | Operation::MergeSquash => {
            let a = advance_own(tape, repo, workspace_path_template, repo_name, source_name)?;
            let b = advance_own(tape, repo, workspace_path_template, repo_name, target_name)?;
            Ok(joined(a, b))
        },
        Operation::AdaptiveMerge | Operation::AdaptiveClose => {
            let v: Vec<PostOperationError> = Vec::new();
            assert(v.deep_view() =~= Seq::<PostOperationErrorV>::empty());
            Ok(v)
        },
    }
}

/// `names` without `name`.
pub open spec fn without(names: Seq<Seq<char>>, name: Seq<char>) -> Seq<Seq<char>> {
    unknown_spec(names, seq![name])
}

#[verifier::opaque]
pub open spec fn post_op_bookmarks_spec(
    t: Trace,
    repo: Seq<char>,
    operation: Operation,
    source_name: Seq<char>,
    target_name: Seq<char>,
    close_info: Option<SyncModeInfoV>,
    workspace_path_template: Seq<char>,
    repo_name: Seq<char>,
    bookmarks: Seq<Seq<char>>,
    src_effective_head_override: Option<Seq<char>>,
) -> Out<BookmarkResultV> {
    bind(
        own_bookmarks_spec(
            t,
            repo,
            operation,
            source_name,
            target_name,
            close_info,
            workspace_path_template,
            repo_name,
            src_effective_head_override,
        ),
        |errors: Seq<PostOperationErrorV>, t: Trace|
            bind(
                identify_singular_bookmark_spec(
                    t,
                    repo,
                    workspace_path_template,
                    repo_name,
                    source_name,
                ),
                |found: Option<(Seq<char>, Seq<char>)>, t: Trace|
                    Out::Got(
                        BookmarkResultV {
                            remaining: match found {
                                Some((bm, id)) => without(bookmarks, bm),
                                None => bookmarks,
                            },
                            errors,
                        },
                        t,
                    ),
            ),
    )
}

/// Handles the bookmarks of the workspaces after an operation. A head given for the source takes the
/// place of the one in the plan.
pub fn post_op_bookmarks(
    tape: &mut Tape,
    repo: &str,
    operation: Operation,
    source_name: &str,
    target_name: &str,
    close_info: Option<&SyncModeInfo>,
    workspace_path_template: &str,
    repo_name: &str,
    bookmarks: &Vec<String>,
    src_effective_head_override: Option<&str>,
) -> (r: Result<BookmarkResult, Stop>)
    ensures
        agrees(
            r,
            final(tape)@,
            post_op_bookmarks_spec(
                old(tape)@,
                repo@,
                operation,
                source_name@,
                target_name@,
                close_info.deep_view(),
                workspace_path_template@,
                repo_name@,
                bookmarks.deep_view(),
                src_effective_head_override.deep_view(),
            ),
        ),
{
    reveal(post_op_bookmarks_spec);
    let errors = own_bookmarks(
        tape,
        repo,
        operation,
        source_name,
        target_name,
        close_info,
        workspace_path_template,
        repo_name,
        src_effective_head_override,
    )?;
    let remaining = match identify_singular_bookmark(
        tape,
        repo,
        workspace_path_template,
        repo_name,
        source_name,
    )? {
        Some((bm, _)) => {
            let mut known: Vec<String> = Vec::new();
            known.push(bm);
            assert(known.deep_view() =~= seq![bm@]);
            unknown(bookmarks, &known)
        },
        None => copy_all(bookmarks),
    };
    Ok(BookmarkResult { remaining, errors })
}

pub open spec fn manual_step(
    repo: Seq<char>,
    action: BookmarkAction,
    target: Seq<char>,
) -> spec_fn(Trace, Seq<PostOperationErrorV>, Seq<char>) -> Out<Seq<PostOperationErrorV>> {
    |t: Trace, errors: Seq<PostOperationErrorV>, bm: Seq<char>|
        bind(
            match action {
                BookmarkAction::Advance => noted(bookmark_set_exact_spec(t, repo, bm, target)),
                BookmarkAction::Delete => noted(bookmark_delete_spec(t, repo, bm)),
                BookmarkAction::NoAction => Out::Got(Seq::empty(), t),
            },
            |e: Seq<PostOperationErrorV>, t: Trace| Out::Got(errors + e, t),
        )
}

#[verifier::opaque]
pub open spec fn post_op_manual_bookmarks_spec(
    t: Trace,
    repo: Seq<char>,
    bookmarks: Seq<Seq<char>>,
    action: BookmarkAction,
    target_change_id: Seq<char>,
) -> Out<Seq<PostOperationErrorV>> {
    each(
        t,
        bookmarks,
        Seq::<PostOperationErrorV>::empty(),
        manual_step(repo, action, target_change_id),
    )
}

/// Applies the chosen action to the remaining bookmarks.
pub fn post_op_manual_bookmarks(
    tape: &mut Tape,
    repo: &str,
    bookmarks: &Vec<String>,
    action: BookmarkAction,
    target_change_id: &str,
) -> (r: Result<Vec<PostOperationError>, Stop>)
    ensures
        agrees(
            r,
            final(tape)@,
            post_op_manual_bookmarks_spec(
                old(tape)@,
                repo@,
                bookmarks.deep_view(),
                action,
                target_change_id@,
            ),
        ),
{
    reveal(post_op_manual_bookmarks_spec);
    let mut errors: Vec<PostOperationError> = Vec::new();
    assert(errors.deep_view() =~= Seq::<PostOperationErrorV>::empty());
    let ghost t0 = tape@;
    let ghost all = bookmarks.deep_view();
    let ghost step = manual_step(repo@, action, target_change_id@);
    assert(all.skip(0) =~= all);
    for i in 0..bookmarks.len()
        invariant
            t0 == old(tape)@,
            all == bookmarks.deep_view(),
            step == manual_step(repo@, action, target_change_id@),
            post_op_manual_bookmarks_spec(t0, repo@, all, action, target_change_id@) == each(
                t0,
                all,
                Seq::<PostOperationErrorV>::empty(),
                step,
            ),
            each(t0, all, Seq::<PostOperationErrorV>::empty(), step) == each(tape@, all.skip(i as int), errors.deep_view(), step),
    {
        proof {
            lemma_each_step(all, i as int);
        }
        assert(all[i as int] == bookmarks@[i as int]@);
        let e = match action {
            BookmarkAction::Advance => {
                let r = attempt(bookmark_set_exact(tape, repo, &bookmarks[i], target_change_id))?;
                note(r)
            },
            BookmarkAction::Delete => {
                let r = attempt(bookmark_delete(tape, repo, &bookmarks[i]))?;
                note(r)
            },
            BookmarkAction::NoAction => {
                let v: Vec<PostOperationError> = Vec::new();
                assert(v.deep_view() =~= Seq::<PostOperationErrorV>::empty());
                v
            },
        };
        errors = joined(errors, e);
    }
    Ok(errors)
}

} // verus!
