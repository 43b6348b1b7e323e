//! Installing and uninstalling the shell integration.

use vstd::prelude::*;

use crate::jj_parse::or_empty;
use crate::paths::{parent, parent_spec};
use crate::search::{contains_spec, lines, lines_spec};
use crate::shell::checks::{
    check_foreign, check_foreign_spec, check_malformed, check_malformed_spec, check_own_legacy,
    check_own_legacy_spec, check_primary, check_primary_spec, fish_completions_path,
    fish_completions_spec, fish_primary, fish_primary_spec, fish_shadow_path, fish_shadow_spec,
    note_unresolved, note_unresolved_spec, own_block, own_block_spec, picked, posix_primary,
    posix_primary_spec, Pick,
};
use crate::shell::env::{managed_file_spec, ShellEnv, ShellEnvV};
use crate::shell::markers::{
    append_block, find_marker_blocks, installed, lemma_first_range, lemma_row_len, mark_row,
    mark_text, marks_of, no_marks, ranges_of, remove_block, removed, renew_block, renewed, row_len,
    spaced, span, spans, Hit, HitKindV, HitV, MarksV, ViaV,
};
use crate::shell::scan::{
    find_hits, find_hits_spec, hits_in, legacy_hits, scan_locations, scan_locations_spec,
    ScanLocationV,
};
use crate::shell::scripts::{
    fish_completion_body, fish_wrapper_body, is_managed, managed_body_spec, rc_stanza_spec,
    render_fish_completion_body, render_fish_wrapper_body, render_managed_body, render_rc_stanza,
    unsupported, unsupported_spec, MANAGED_HEADER,
};
use crate::shell::write::{ready_dir, ready_dir_spec, write_atomic, write_atomic_spec, WriteOutcome};
use crate::tape::{
    agrees, at, at_spec, bind, each, failure, failure_spec, fetch, fetch_spec, holds, holds_spec,
    lemma_each_step, need, need_spec, tell, tell_spec, Act, FailureV, Out, Stop, Tape, Trace,
};
use crate::text::{
    args1, args2, at_cut, bytes_of, cat2, cat3, cat4, cat5, chain, char_at, is_cut,
    lemma_char_at_order, same,
};

verus! {

#[derive(Debug, Default, Clone, Copy)]
pub struct InstallOpts {
    pub dry_run: bool,
    pub force: bool,
}

#[derive(Debug, Default, Clone, Copy)]
pub struct UninstallOpts {
    pub dry_run: bool,
    pub force: bool,
}

// ---------------------------------------------------------------------------
// Showing
// ---------------------------------------------------------------------------

/// Each line with `mark` in front.
pub open spec fn marked(mark: Seq<char>, rows: Seq<Seq<char>>) -> Seq<Seq<char>> {
    rows.map_values(|l: Seq<char>| mark + l)
}

fn mark_all(mark: &str, rows: &Vec<String>) -> (r: Vec<String>)
    ensures
        r.deep_view() == marked(mark@, rows.deep_view()),
{
    let ghost all = marked(mark@, rows.deep_view());
    let mut out: Vec<String> = Vec::new();
    for i in 0..rows.len()
        invariant
            all == marked(mark@, rows.deep_view()),
            out.deep_view() == all.take(i as int),
    {
        let ghost before = out.deep_view();
        out.push(cat2(mark, &rows[i]));
        assert(out.deep_view() =~= before.push(mark@ + rows@[i as int]@));
        assert(all.take(i + 1) =~= all.take(i as int).push(all[i as int]));
    }
    assert(all.take(rows@.len() as int) =~= all);
    out
}

/// What a dry run shows of a file: all old lines, then all new ones.
pub open spec fn diff_lines(path: Seq<char>, before: Seq<char>, after: Seq<char>) -> Seq<Seq<char>> {
    if before == after {
        Seq::empty()
    } else {
        seq!["--- "@ + path, "+++ "@ + path + " (after install)"@] + marked(
            "- "@,
            lines_spec(before),
        ) + marked("+ "@, lines_spec(after)) + seq![""@]
    }
}

fn diff(path: &str, before: &str, after: &str) -> (r: Vec<String>)
    ensures
        r.deep_view() == diff_lines(path@, before@, after@),
{
    if same(before, after) {
        let none: Vec<String> = Vec::new();
        assert(none.deep_view() =~= Seq::empty());
        return none;
    }
    let a = args2(&cat2("--- ", path), &cat3("+++ ", path, " (after install)"));
    let b = mark_all("- ", &lines(before));
    let c = mark_all("+ ", &lines(after));
    chain(chain(chain(a, b), c), args1(""))
}

pub open spec fn print_step() -> spec_fn(Trace, (), Seq<char>) -> Out<()> {
    |t: Trace, u: (), line: Seq<char>| tell_spec(t, Act::Print, line)
}

/// Prints lines.
pub open spec fn print_all_spec(t: Trace, rows: Seq<Seq<char>>) -> Out<()> {
    each(t, rows, (), print_step())
}

pub fn print_all(tape: &mut Tape, rows: &Vec<String>) -> (r: Result<(), Stop>)
    ensures
        agrees(r, final(tape)@, print_all_spec(old(tape)@, rows.deep_view())),
{
    let ghost t0 = tape@;
    let ghost all = rows.deep_view();
    let ghost step = print_step();
    assert(all.skip(0) =~= all);
    for i in 0..rows.len()
        invariant
            t0 == old(tape)@,
            all == rows.deep_view(),
            step == print_step(),
            each(t0, all, (), step) == each(tape@, all.skip(i as int), (), step),
    {
        proof {
            lemma_each_step(all, i as int);
        }
        assert(all[i as int] == rows@[i as int]@);
        tell(tape, Act::Print, rows[i].clone())?;
    }
    Ok(())
}

#[verifier::opaque]
pub open spec fn print_dry_run_diff_spec(
    t: Trace,
    path: Seq<char>,
    before: Seq<char>,
    after: Seq<char>,
) -> Out<()> {
    print_all_spec(t, diff_lines(path, before, after))
}

/// Shows what would change in a file.
pub fn print_dry_run_diff(
    tape: &mut Tape,
    path: &str,
    before: &str,
    after: &str,
) -> (r: Result<(), Stop>)
    ensures
        agrees(r, final(tape)@, print_dry_run_diff_spec(old(tape)@, path@, before@, after@)),
{
    reveal(print_dry_run_diff_spec);
    print_all(tape, &diff(path, before, after))
}

#[verifier::opaque]
pub open spec fn existing_or_empty_spec(t: Trace, p: Seq<char>) -> Out<Seq<char>> {
    bind(
        fetch_spec(t, at_spec(Act::ReadFile, p)),
        |text: Option<Seq<char>>, t: Trace| Out::Got(or_empty(text), t),
    )
}

/// The text of a file, if it can be read.
pub fn existing_or_empty(tape: &mut Tape, p: &str) -> (r: Result<String, Stop>)
    ensures
        agrees(r, final(tape)@, existing_or_empty_spec(old(tape)@, p@)),
{
    reveal(existing_or_empty_spec);
    match fetch(tape, at(Act::ReadFile, p))? {
        Some(s) => Ok(s),
        None => {
            let s = String::new();
            assert(s@ =~= Seq::<char>::empty());
            Ok(s)
        },
    }
}

// ---------------------------------------------------------------------------
// Installing for zsh and bash
// ---------------------------------------------------------------------------

#[verifier::opaque]
pub open spec fn current_text_spec(t: Trace, primary: Seq<char>) -> Out<Seq<char>> {
    bind(
        holds_spec(t, at_spec(Act::Exists, primary)),
        |there: bool, t: Trace|
            if there {
                need_spec(t, at_spec(Act::ReadFile, primary), "failed to read "@ + primary)
            } else {
                Out::Got(Seq::empty(), t)
            },
    )
}

fn current_text(tape: &mut Tape, primary: &str) -> (r: Result<String, Stop>)
    ensures
        agrees(r, final(tape)@, current_text_spec(old(tape)@, primary@)),
{
    reveal(current_text_spec);
    if holds(tape, at(Act::Exists, primary))? {
        need(tape, at(Act::ReadFile, primary), &cat2("failed to read ", primary))
    } else {
        let s = String::new();
        assert(s@ =~= Seq::<char>::empty());
        Ok(s)
    }
}

/// The new text of an rc file whose block was found at `block`; `None` if it is not there.
pub open spec fn new_text(contents: Seq<char>, block: Option<(nat, nat)>, stanza: Seq<char>) -> Option<
    Seq<char>,
> {
    match block {
        Some(b) => if is_cut(contents, b.0) && is_cut(contents, b.1) {
            Some(
                renewed(
                    contents,
                    char_at(contents, b.0) as int,
                    char_at(contents, b.1) as int,
                    stanza,
                ),
            )
        } else {
            None
        },
        None => Some(spaced(contents) + stanza),
    }
}

fn make_text(contents: &str, block: Option<(usize, usize)>, stanza: &str) -> (r: Option<String>)
    ensures
        r.deep_view() == new_text(contents@, span(block), stanza@),
{
    match block {
        Some(b) => {
            if at_cut(contents, b.0) && at_cut(contents, b.1) {
                Some(renew_block(contents, b.0, b.1, stanza))
            } else {
                None
            }
        },
        None => Some(append_block(contents, stanza)),
    }
}

/// Says how a file was written, unless there is nothing to say.
pub open spec fn tell_outcome(
    t: Trace,
    o: WriteOutcome,
    created: Seq<char>,
    updated: Seq<char>,
    unchanged: Option<Seq<char>>,
) -> Out<()> {
    match o {
        WriteOutcome::Created => tell_spec(t, Act::Warn, created),
        WriteOutcome::Updated => tell_spec(t, Act::Warn, updated),
        WriteOutcome::Unchanged => match unchanged {
            Some(msg) => tell_spec(t, Act::Warn, msg),
            None => Out::Got((), t),
        },
    }
}

fn say_outcome(
    tape: &mut Tape,
    o: WriteOutcome,
    created: String,
    updated: String,
    unchanged: Option<String>,
) -> (r: Result<(), Stop>)
    ensures
        agrees(
            r,
            final(tape)@,
            tell_outcome(old(tape)@, o, created@, updated@, unchanged.deep_view()),
        ),
{
    match o {
        WriteOutcome::Created => tell(tape, Act::Warn, created),
        WriteOutcome::Updated => tell(tape, Act::Warn, updated),
        WriteOutcome::Unchanged => match unchanged {
            Some(msg) => tell(tape, Act::Warn, msg),
            None => Ok(()),
        },
    }
}

/// Writes an rc file, unless it stays as it is.
#[verifier::opaque]
pub open spec fn write_rc_spec(
    t: Trace,
    primary: Seq<char>,
    contents: Seq<char>,
    new: Seq<char>,
) -> Out<WriteOutcome> {
    if new == contents {
        Out::Got(WriteOutcome::Unchanged, t)
    } else {
        bind(
            holds_spec(t, at_spec(Act::Exists, primary)),
            |there: bool, t: Trace|
                bind(
                    match parent_spec(primary) {
                        Some(dir) => if there {
                            Out::Got((), t)
                        } else {
                            ready_dir_spec(t, dir)
                        },
                        None => Out::Got((), t),
                    },
                    |u: (), t: Trace| write_atomic_spec(t, primary, new),
                ),
        )
    }
}

fn write_rc(
    tape: &mut Tape,
    primary: &str,
    contents: &str,
    new: &str,
) -> (r: Result<WriteOutcome, Stop>)
    ensures
        agrees(r, final(tape)@, write_rc_spec(old(tape)@, primary@, contents@, new@)),
{
    reveal(write_rc_spec);
    if same(new, contents) {
        return Ok(WriteOutcome::Unchanged);
    }
    let there = holds(tape, at(Act::Exists, primary))?;
    if let Some(dir) = parent(primary) {
        if !there {
            ready_dir(tape, &dir)?;
        }
    }
    write_atomic(tape, primary, new)
}

/// The managed file first, then the block that loads it.
#[verifier::opaque]
pub open spec fn write_posix_spec(
    t: Trace,
    managed: Seq<char>,
    body: Seq<char>,
    primary: Seq<char>,
    contents: Seq<char>,
    new: Seq<char>,
) -> Out<()> {
    bind(
        write_atomic_spec(t, managed, body),
        |o: WriteOutcome, t: Trace|
            bind(
                tell_outcome(
                    t,
                    o,
                    "(ji)::shell installed managed file "@ + managed,
                    "(ji)::shell updated managed file "@ + managed,
                    None,
                ),
                |u: (), t: Trace|
                    bind(
                        write_rc_spec(t, primary, contents, new),
                        |o: WriteOutcome, t: Trace|
                            tell_outcome(
                                t,
                                o,
                                "(ji)::shell created "@ + primary + " with managed block"@,
                                "(ji)::shell updated "@ + primary + " with managed block"@,
                                Some("(ji)::shell "@ + primary + " already up-to-date"@),
                            ),
                    ),
            ),
    )
}

fn write_posix(
    tape: &mut Tape,
    managed: &str,
    body: &str,
    primary: &str,
    contents: &str,
    new: &str,
) -> (r: Result<(), Stop>)
    ensures
        agrees(
            r,
            final(tape)@,
            write_posix_spec(old(tape)@, managed@, body@, primary@, contents@, new@),
        ),
{
    reveal(write_posix_spec);
    let o = write_atomic(tape, managed, body)?;
    say_outcome(
        tape,
        o,
        cat2("(ji)::shell installed managed file ", managed),
        cat2("(ji)::shell updated managed file ", managed),
        None,
    )?;
    let o = write_rc(tape, primary, contents, new)?;
    say_outcome(
        tape,
        o,
        cat3("(ji)::shell created ", primary, " with managed block"),
        cat3("(ji)::shell updated ", primary, " with managed block"),
        Some(cat3("(ji)::shell ", primary, " already up-to-date")),
    )
}

#[verifier::opaque]
pub open spec fn preview_posix_spec(
    t: Trace,
    managed: Seq<char>,
    body: Seq<char>,
    primary: Seq<char>,
    contents: Seq<char>,
    new: Seq<char>,
) -> Out<()> {
    bind(
        existing_or_empty_spec(t, managed),
        |before: Seq<char>, t: Trace|
            bind(
                print_dry_run_diff_spec(t, managed, before, body),
                |u: (), t: Trace| print_dry_run_diff_spec(t, primary, contents, new),
            ),
    )
}

fn preview_posix(
    tape: &mut Tape,
    managed: &str,
    body: &str,
    primary: &str,
    contents: &str,
    new: &str,
) -> (r: Result<(), Stop>)
    ensures
        agrees(
            r,
            final(tape)@,
            preview_posix_spec(old(tape)@, managed@, body@, primary@, contents@, new@),
        ),
{
    reveal(preview_posix_spec);
    let before = existing_or_empty(tape, managed)?;
    print_dry_run_diff(tape, managed, &before, body)?;
    print_dry_run_diff(tape, primary, contents, new)
}

/// Shows or writes the managed file and the block.
#[verifier::opaque]
pub open spec fn place_posix_spec(
    t: Trace,
    env: ShellEnvV,
    shell: Seq<char>,
    primary: Seq<char>,
    block: Option<(nat, nat)>,
    generated: Seq<char>,
    dry_run: bool,
) -> Out<()> {
    match (managed_file_spec(env, shell), managed_body_spec(shell, generated), rc_stanza_spec(shell)) {
        (Err(e), _, _) => Out::Fail(e, t),
        (_, Err(e), _) => Out::Fail(e, t),
        (_, _, Err(e)) => Out::Fail(e, t),
        (Ok(managed), Ok(body), Ok(stanza)) => bind(
            current_text_spec(t, primary),
            |contents: Seq<char>, t: Trace|
                match new_text(contents, block, stanza) {
                    None => Out::Fail(failure_spec(primary + " changed while it was read"@), t),
                    Some(new) => if dry_run {
                        preview_posix_spec(t, managed, body, primary, contents, new)
                    } else {
                        write_posix_spec(t, managed, body, primary, contents, new)
                    },
                },
        ),
    }
}

fn place_posix(
    tape: &mut Tape,
    env: &ShellEnv,
    shell: &str,
    primary: &str,
    block: Option<(usize, usize)>,
    generated: &str,
    dry_run: bool,
) -> (r: Result<(), Stop>)
    ensures
        agrees(
            r,
            final(tape)@,
            place_posix_spec(
                old(tape)@,
                env.deep_view(),
                shell@,
                primary@,
                span(block),
                generated@,
                dry_run,
            ),
        ),
{
    reveal(place_posix_spec);
    let managed = match env.managed_file(shell) {
        Ok(p) => p,
        Err(e) => return Err(Stop::Fail(e)),
    };
    let body = match render_managed_body(shell, generated) {
        Ok(s) => s,
        Err(e) => return Err(Stop::Fail(e)),
    };
    let stanza = match render_rc_stanza(shell) {
        Ok(s) => s,
        Err(e) => return Err(Stop::Fail(e)),
    };
    let contents = current_text(tape, primary)?;
    let new = match make_text(&contents, block, &stanza) {
        Some(s) => s,
        None => return Err(Stop::Fail(failure(cat2(primary, " changed while it was read")))),
    };
    if dry_run {
        preview_posix(tape, &managed, &body, primary, &contents, &new)
    } else {
        write_posix(tape, &managed, &body, primary, &contents, &new)
    }
}

/// Installs unless something found speaks against it.
#[verifier::opaque]
pub open spec fn judge_posix_spec(
    t: Trace,
    env: ShellEnvV,
    shell: Seq<char>,
    primary: Seq<char>,
    hits: Seq<HitV>,
    generated: Seq<char>,
    opts: InstallOpts,
) -> Out<()> {
    match check_malformed_spec(hits, primary, opts.force) {
        Some(e) => Out::Fail(e, t),
        None => bind(
            note_unresolved_spec(t, hits, primary),
            |u: (), t: Trace|
                match check_foreign_spec(hits, primary, opts.force, true) {
                    Some(e) => Out::Fail(e, t),
                    None => match check_own_legacy_spec(hits, primary, opts.force) {
                        Some(e) => Out::Fail(e, t),
                        None => place_posix_spec(
                            t,
                            env,
                            shell,
                            primary,
                            own_block_spec(hits, primary),
                            generated,
                            opts.dry_run,
                        ),
                    },
                },
        ),
    }
}

fn judge_posix(
    tape: &mut Tape,
    env: &ShellEnv,
    shell: &str,
    primary: &str,
    hits: &Vec<Hit>,
    generated: &str,
    opts: InstallOpts,
) -> (r: Result<(), Stop>)
    ensures
        agrees(
            r,
            final(tape)@,
            judge_posix_spec(
                old(tape)@,
                env.deep_view(),
                shell@,
                primary@,
                hits.deep_view(),
                generated@,
                opts,
            ),
        ),
{
    reveal(judge_posix_spec);
    if let Some(e) = check_malformed(hits, primary, opts.force) {
        return Err(Stop::Fail(e));
    }
    note_unresolved(tape, hits, primary)?;
    if let Some(e) = check_foreign(hits, primary, opts.force, true) {
        return Err(Stop::Fail(e));
    }
    if let Some(e) = check_own_legacy(hits, primary, opts.force) {
        return Err(Stop::Fail(e));
    }
    let block = own_block(hits, primary);
    place_posix(tape, env, shell, primary, block, generated, opts.dry_run)
}

#[verifier::opaque]
pub open spec fn install_posix_spec(
    t: Trace,
    env: ShellEnvV,
    shell: Seq<char>,
    generated: Seq<char>,
    opts: InstallOpts,
) -> Out<()> {
    bind(
        posix_primary_spec(t, env, shell),
        |primary: Seq<char>, t: Trace|
            bind(
                check_primary_spec(t, env, primary, opts.force),
                |u: (), t: Trace|
                    bind(
                        scan_locations_spec(t, env, shell, primary),
                        |locs: Seq<ScanLocationV>, t: Trace|
                            bind(
                                find_hits_spec(t, locs, env),
                                |hits: Seq<HitV>, t: Trace|
                                    judge_posix_spec(t, env, shell, primary, hits, generated, opts),
                            ),
                    ),
            ),
    )
}

/// Installs for zsh or bash: a managed file, and a block in the rc file that loads it.
pub fn install_posix(
    tape: &mut Tape,
    env: &ShellEnv,
    shell: &str,
    generated: &str,
    opts: InstallOpts,
) -> (r: Result<(), Stop>)
    ensures
        agrees(
            r,
            final(tape)@,
            install_posix_spec(old(tape)@, env.deep_view(), shell@, generated@, opts),
        ),
{
    reveal(install_posix_spec);
    let primary = posix_primary(tape, env, shell)?;
    check_primary(tape, env, &primary, opts.force)?;
    let locs = scan_locations(tape, env, shell, &primary)?;
    let hits = find_hits(tape, &locs, env)?;
    judge_posix(tape, env, shell, &primary, &hits, generated, opts)
}

// ---------------------------------------------------------------------------
// Installing for fish
// ---------------------------------------------------------------------------

/// A file of somebody else is not overwritten without `force`.
#[verifier::opaque]
pub open spec fn check_owned_spec(
    t: Trace,
    path: Seq<char>,
    label: Seq<char>,
    force: bool,
) -> Out<()> {
    bind(
        holds_spec(t, at_spec(Act::Exists, path)),
        |there: bool, t: Trace|
            if !there {
                Out::Got((), t)
            } else {
                bind(
                    need_spec(t, at_spec(Act::ReadFile, path), "failed to read "@ + path),
                    |text: Seq<char>, t: Trace|
                        if !contains_spec(text, MANAGED_HEADER@) && !force {
                            Out::Fail(
                                failure_spec(
                                    "(ji)::shell: "@ + path
                                        + " exists and is not ji-managed \u{2014} remove it manually, or pass --force to overwrite ("@
                                        + label + ")."@,
                                ),
                                t,
                            )
                        } else {
                            Out::Got((), t)
                        },
                )
            },
    )
}

fn check_owned(tape: &mut Tape, path: &str, label: &str, force: bool) -> (r: Result<(), Stop>)
    ensures
        agrees(r, final(tape)@, check_owned_spec(old(tape)@, path@, label@, force)),
{
    reveal(check_owned_spec);
    if !holds(tape, at(Act::Exists, path))? {
        return Ok(());
    }
    let text = need(tape, at(Act::ReadFile, path), &cat2("failed to read ", path))?;
    if !is_managed(&text) && !force {
        return Err(
            Stop::Fail(
                failure(
                    cat5(
                        "(ji)::shell: ",
                        path,
                        " exists and is not ji-managed \u{2014} remove it manually, or pass --force to overwrite (",
                        label,
                        ").",
                    ),
                ),
            ),
        );
    }
    Ok(())
}

#[verifier::opaque]
pub open spec fn write_fish_file_spec(
    t: Trace,
    path: Seq<char>,
    body: Seq<char>,
    what: Seq<char>,
) -> Out<()> {
    bind(
        write_atomic_spec(t, path, body),
        |o: WriteOutcome, t: Trace|
            tell_outcome(
                t,
                o,
                "(ji)::shell "@ + what + " installed in "@ + path,
                "(ji)::shell "@ + what + " updated in "@ + path,
                Some("(ji)::shell "@ + what + " already up-to-date in "@ + path),
            ),
    )
}

fn write_fish_file(tape: &mut Tape, path: &str, body: &str, what: &str) -> (r: Result<(), Stop>)
    ensures
        agrees(r, final(tape)@, write_fish_file_spec(old(tape)@, path@, body@, what@)),
{
    reveal(write_fish_file_spec);
    let o = write_atomic(tape, path, body)?;
    say_outcome(
        tape,
        o,
        cat4("(ji)::shell ", what, " installed in ", path),
        cat4("(ji)::shell ", what, " updated in ", path),
        Some(cat4("(ji)::shell ", what, " already up-to-date in ", path)),
    )
}

#[verifier::opaque]
pub open spec fn preview_spec(t: Trace, path: Seq<char>, body: Seq<char>) -> Out<()> {
    bind(
        existing_or_empty_spec(t, path),
        |before: Seq<char>, t: Trace| print_dry_run_diff_spec(t, path, before, body),
    )
}

fn preview(tape: &mut Tape, path: &str, body: &str) -> (r: Result<(), Stop>)
    ensures
        agrees(r, final(tape)@, preview_spec(old(tape)@, path@, body@)),
{
    reveal(preview_spec);
    let before = existing_or_empty(tape, path)?;
    print_dry_run_diff(tape, path, &before, body)
}

#[verifier::opaque]
pub open spec fn place_fish_spec(
    t: Trace,
    env: ShellEnvV,
    generated: Seq<char>,
    opts: InstallOpts,
) -> Out<()> {
    let primary = fish_primary_spec(env);
    let completions = fish_completions_spec(env);
    let wrapper = fish_wrapper_body();
    let completion = fish_completion_body(generated);
    bind(
        check_owned_spec(t, primary, "wrapper"@, opts.force),
        |u: (), t: Trace|
            bind(
                check_owned_spec(t, completions, "completions"@, opts.force),
                |u: (), t: Trace|
                    if opts.dry_run {
                        bind(
                            preview_spec(t, primary, wrapper),
                            |u: (), t: Trace| preview_spec(t, completions, completion),
                        )
                    } else {
                        bind(
                            write_fish_file_spec(t, primary, wrapper, "wrapper"@),
                            |u: (), t: Trace|
                                write_fish_file_spec(t, completions, completion, "completions"@),
                        )
                    },
            ),
    )
}

fn place_fish(
    tape: &mut Tape,
    env: &ShellEnv,
    generated: &str,
    opts: InstallOpts,
) -> (r: Result<(), Stop>)
    ensures
        agrees(r, final(tape)@, place_fish_spec(old(tape)@, env.deep_view(), generated@, opts)),
{
    reveal(place_fish_spec);
    let primary = fish_primary(env);
    let completions = fish_completions_path(env);
    let wrapper = render_fish_wrapper_body();
    let completion = render_fish_completion_body(generated);
    check_owned(tape, &primary, "wrapper", opts.force)?;
    check_owned(tape, &completions, "completions", opts.force)?;
    if opts.dry_run {
        preview(tape, &primary, &wrapper)?;
        preview(tape, &completions, &completion)
    } else {
        write_fish_file(tape, &primary, &wrapper, "wrapper")?;
        write_fish_file(tape, &completions, &completion, "completions")
    }
}

pub open spec fn shadow_refusal(shadow: Seq<char>) -> FailureV {
    failure_spec(
        "(ji)::shell: "@ + shadow
            + " exists and would shadow our `functions/ji.fish` (fish auto-sources conf.d at startup, blocking the autoload) \u{2014} remove it manually, or pass --force."@,
    )
}

#[verifier::opaque]
pub open spec fn install_fish_spec(
    t: Trace,
    env: ShellEnvV,
    generated: Seq<char>,
    opts: InstallOpts,
) -> Out<()> {
    let primary = fish_primary_spec(env);
    let shadow = fish_shadow_spec(env);
    bind(
        holds_spec(t, at_spec(Act::Exists, shadow)),
        |there: bool, t: Trace|
            if there && !opts.force {
                Out::Fail(shadow_refusal(shadow), t)
            } else {
                bind(
                    scan_locations_spec(t, env, "fish"@, primary),
                    |locs: Seq<ScanLocationV>, t: Trace|
                        bind(
                            find_hits_spec(t, locs, env),
                            |hits: Seq<HitV>, t: Trace|
                                match check_malformed_spec(hits, primary, opts.force) {
                                    Some(e) => Out::Fail(e, t),
                                    None => match check_foreign_spec(hits, primary, opts.force, false) {
                                        Some(e) => Out::Fail(e, t),
                                        None => place_fish_spec(t, env, generated, opts),
                                    },
                                },
                        ),
                )
            },
    )
}

/// Installs for fish: a function file and a completion file, which fish loads by itself.
pub fn install_fish(
    tape: &mut Tape,
    env: &ShellEnv,
    generated: &str,
    opts: InstallOpts,
) -> (r: Result<(), Stop>)
    ensures
        agrees(r, final(tape)@, install_fish_spec(old(tape)@, env.deep_view(), generated@, opts)),
{
    reveal(install_fish_spec);
    let primary = fish_primary(env);
    let shadow = fish_shadow_path(env);
    if holds(tape, at(Act::Exists, &shadow))? && !opts.force {
        return Err(
            Stop::Fail(
                failure(
                    cat3(
                        "(ji)::shell: ",
                        &shadow,
                        " exists and would shadow our `functions/ji.fish` (fish auto-sources conf.d at startup, blocking the autoload) \u{2014} remove it manually, or pass --force.",
                    ),
                ),
            ),
        );
    }
    let locs = scan_locations(tape, env, "fish", &primary)?;
    let hits = find_hits(tape, &locs, env)?;
    if let Some(e) = check_malformed(&hits, &primary, opts.force) {
        return Err(Stop::Fail(e));
    }
    if let Some(e) = check_foreign(&hits, &primary, opts.force, false) {
        return Err(Stop::Fail(e));
    }
    place_fish(tape, env, generated, opts)
}

#[verifier::opaque]
pub open spec fn install_spec(
    t: Trace,
    env: ShellEnvV,
    shell: Seq<char>,
    generated: Seq<char>,
    opts: InstallOpts,
) -> Out<()> {
    if shell == "zsh"@ || shell == "bash"@ {
        install_posix_spec(t, env, shell, generated, opts)
    } else if shell == "fish"@ {
        install_fish_spec(t, env, generated, opts)
    } else {
        Out::Fail(unsupported_spec(shell), t)
    }
}

/// Installs the integration of a shell; `generated` is the completion script for it.
pub fn install(
    tape: &mut Tape,
    env: &ShellEnv,
    shell: &str,
    generated: &str,
    opts: InstallOpts,
) -> (r: Result<(), Stop>)
    ensures
        agrees(
            r,
            final(tape)@,
            install_spec(old(tape)@, env.deep_view(), shell@, generated@, opts),
        ),
{
    reveal(install_spec);
    if same(shell, "zsh") || same(shell, "bash") {
        install_posix(tape, env, shell, generated, opts)
    } else if same(shell, "fish") {
        install_fish(tape, env, generated, opts)
    } else {
        Err(Stop::Fail(unsupported(shell)))
    }
}

// ---------------------------------------------------------------------------
// Uninstalling
// ---------------------------------------------------------------------------

/// The first block of a file.
pub open spec fn first_block_spec(path: Seq<char>, contents: Seq<char>) -> Option<(nat, nat)> {
    let found = ranges_of(path, None, contents);
    if found.len() == 0 {
        None
    } else {
        Some(found[0])
    }
}

pub fn first_block(path: &str, contents: &str) -> (r: Option<(usize, usize)>)
    ensures
        span(r) == first_block_spec(path@, contents@),
        r matches Some(b) ==> {
            &&& is_cut(contents@, b.0 as nat)
            &&& is_cut(contents@, b.1 as nat)
            &&& char_at(contents@, b.0 as nat) <= char_at(contents@, b.1 as nat)
        },
{
    let (ranges, _hits) = find_marker_blocks(path, contents, &None);
    assert(spans(ranges@).len() == ranges@.len());
    if ranges.len() == 0 {
        None
    } else {
        proof {
            lemma_first_range(path@, None, no_marks(), contents@);
            assert(spans(ranges@)[0] == (ranges@[0].0 as nat, ranges@[0].1 as nat));
            lemma_char_at_order(contents@, ranges@[0].0 as nat, ranges@[0].1 as nat);
        }
        Some(ranges[0])
    }
}

#[verifier::opaque]
pub open spec fn rewrite_spec(
    t: Trace,
    primary: Seq<char>,
    contents: Seq<char>,
    after: Seq<char>,
    dry_run: bool,
) -> Out<()> {
    if dry_run {
        print_dry_run_diff_spec(t, primary, contents, after)
    } else {
        bind(
            write_atomic_spec(t, primary, after),
            |o: WriteOutcome, t: Trace|
                tell_spec(t, Act::Warn, "(ji)::shell removed managed block from "@ + primary),
        )
    }
}

fn rewrite(
    tape: &mut Tape,
    primary: &str,
    contents: &str,
    after: &str,
    dry_run: bool,
) -> (r: Result<(), Stop>)
    ensures
        agrees(r, final(tape)@, rewrite_spec(old(tape)@, primary@, contents@, after@, dry_run)),
{
    reveal(rewrite_spec);
    if dry_run {
        print_dry_run_diff(tape, primary, contents, after)
    } else {
        let _ = write_atomic(tape, primary, after)?;
        tell(tape, Act::Warn, cat2("(ji)::shell removed managed block from ", primary))
    }
}

/// Takes the block out of an rc file; says whether there was one.
#[verifier::opaque]
pub open spec fn drop_block_spec(t: Trace, primary: Seq<char>, dry_run: bool) -> Out<bool> {
    bind(
        holds_spec(t, at_spec(Act::IsFile, primary)),
        |there: bool, t: Trace|
            if !there {
                Out::Got(false, t)
            } else {
                bind(
                    need_spec(t, at_spec(Act::ReadFile, primary), "failed to read "@ + primary),
                    |contents: Seq<char>, t: Trace|
                        match first_block_spec(primary, contents) {
                            None => Out::Got(false, t),
                            Some(b) => bind(
                                rewrite_spec(
                                    t,
                                    primary,
                                    contents,
                                    removed(
                                        contents,
                                        char_at(contents, b.0) as int,
                                        char_at(contents, b.1) as int,
                                    ),
                                    dry_run,
                                ),
                                |u: (), t: Trace| Out::Got(true, t),
                            ),
                        },
                )
            },
    )
}

fn drop_block(tape: &mut Tape, primary: &str, dry_run: bool) -> (r: Result<bool, Stop>)
    ensures
        agrees(r, final(tape)@, drop_block_spec(old(tape)@, primary@, dry_run)),
{
    reveal(drop_block_spec);
    if !holds(tape, at(Act::IsFile, primary))? {
        return Ok(false);
    }
    let contents = need(tape, at(Act::ReadFile, primary), &cat2("failed to read ", primary))?;
    match first_block(primary, &contents) {
        None => Ok(false),
        Some(b) => {
            let after = remove_block(&contents, b.0, b.1);
            rewrite(tape, primary, &contents, &after, dry_run)?;
            Ok(true)
        },
    }
}

#[verifier::opaque]
pub open spec fn delete_spec(t: Trace, path: Seq<char>, dry_run: bool, done: Seq<char>) -> Out<()> {
    if dry_run {
        tell_spec(t, Act::Print, "- would delete "@ + path)
    } else {
        bind(
            need_spec(t, at_spec(Act::RemoveFile, path), "failed to remove "@ + path),
            |s: Seq<char>, t: Trace| tell_spec(t, Act::Warn, done + path),
        )
    }
}

fn delete(tape: &mut Tape, path: &str, dry_run: bool, done: &str) -> (r: Result<(), Stop>)
    ensures
        agrees(r, final(tape)@, delete_spec(old(tape)@, path@, dry_run, done@)),
{
    reveal(delete_spec);
    if dry_run {
        tell(tape, Act::Print, cat2("- would delete ", path))
    } else {
        let _ = need(tape, at(Act::RemoveFile, path), &cat2("failed to remove ", path))?;
        tell(tape, Act::Warn, cat2(done, path))
    }
}

#[verifier::opaque]
pub open spec fn uninstall_posix_spec(
    t: Trace,
    env: ShellEnvV,
    shell: Seq<char>,
    opts: UninstallOpts,
) -> Out<()> {
    bind(
        posix_primary_spec(t, env, shell),
        |primary: Seq<char>, t: Trace|
            match managed_file_spec(env, shell) {
                Err(e) => Out::Fail(e, t),
                Ok(managed) => bind(
                    drop_block_spec(t, primary, opts.dry_run),
                    |dropped: bool, t: Trace|
                        bind(
                            holds_spec(t, at_spec(Act::IsFile, managed)),
                            |there: bool, t: Trace|
                                if there {
                                    delete_spec(
                                        t,
                                        managed,
                                        opts.dry_run,
                                        "(ji)::shell removed managed file "@,
                                    )
                                } else if dropped {
                                    Out::Got((), t)
                                } else {
                                    tell_spec(
                                        t,
                                        Act::Warn,
                                        "(ji)::shell nothing to uninstall for "@ + shell,
                                    )
                                },
                        ),
                ),
            },
    )
}

/// Takes the block out of the rc file and deletes the managed file.
pub fn uninstall_posix(
    tape: &mut Tape,
    env: &ShellEnv,
    shell: &str,
    opts: UninstallOpts,
) -> (r: Result<(), Stop>)
    ensures
        agrees(r, final(tape)@, uninstall_posix_spec(old(tape)@, env.deep_view(), shell@, opts)),
{
    reveal(uninstall_posix_spec);
    let primary = posix_primary(tape, env, shell)?;
    let managed = match env.managed_file(shell) {
        Ok(p) => p,
        Err(e) => return Err(Stop::Fail(e)),
    };
    let dropped = drop_block(tape, &primary, opts.dry_run)?;
    if holds(tape, at(Act::IsFile, &managed))? {
        delete(tape, &managed, opts.dry_run, "(ji)::shell removed managed file ")
    } else if dropped {
        Ok(())
    } else {
        tell(tape, Act::Warn, cat2("(ji)::shell nothing to uninstall for ", shell))
    }
}

/// Deletes a file of ours; `idle` becomes false with it.
#[verifier::opaque]
pub open spec fn remove_owned_spec(
    t: Trace,
    path: Seq<char>,
    opts: UninstallOpts,
    idle: bool,
) -> Out<bool> {
    bind(
        holds_spec(t, at_spec(Act::IsFile, path)),
        |there: bool, t: Trace|
            if !there {
                Out::Got(idle, t)
            } else {
                bind(
                    need_spec(t, at_spec(Act::ReadFile, path), "failed to read "@ + path),
                    |text: Seq<char>, t: Trace|
                        if contains_spec(text, MANAGED_HEADER@) || opts.force {
                            bind(
                                delete_spec(t, path, opts.dry_run, "(ji)::shell removed "@),
                                |u: (), t: Trace| Out::Got(false, t),
                            )
                        } else {
                            bind(
                                tell_spec(
                                    t,
                                    Act::Warn,
                                    "(ji)::shell: leaving "@ + path
                                        + " (not ji-managed; pass --force to remove)"@,
                                ),
                                |u: (), t: Trace| Out::Got(idle, t),
                            )
                        },
                )
            },
    )
}

fn remove_owned(
    tape: &mut Tape,
    path: &str,
    opts: UninstallOpts,
    idle: bool,
) -> (r: Result<bool, Stop>)
    ensures
        agrees(r, final(tape)@, remove_owned_spec(old(tape)@, path@, opts, idle)),
{
    reveal(remove_owned_spec);
    if !holds(tape, at(Act::IsFile, path))? {
        return Ok(idle);
    }
    let text = need(tape, at(Act::ReadFile, path), &cat2("failed to read ", path))?;
    if is_managed(&text) || opts.force {
        delete(tape, path, opts.dry_run, "(ji)::shell removed ")?;
        Ok(false)
    } else {
        tell(
            tape,
            Act::Warn,
            cat3(
                "(ji)::shell: leaving ",
                path,
                " (not ji-managed; pass --force to remove)",
            ),
        )?;
        Ok(idle)
    }
}

#[verifier::opaque]
pub open spec fn uninstall_fish_spec(t: Trace, env: ShellEnvV, opts: UninstallOpts) -> Out<()> {
    bind(
        remove_owned_spec(t, fish_primary_spec(env), opts, true),
        |idle: bool, t: Trace|
            bind(
                remove_owned_spec(t, fish_completions_spec(env), opts, idle),
                |idle: bool, t: Trace|
                    bind(
                        remove_owned_spec(t, fish_shadow_spec(env), opts, idle),
                        |idle: bool, t: Trace|
                            if idle {
                                tell_spec(
                                    t,
                                    Act::Warn,
                                    "(ji)::shell nothing to uninstall for fish"@,
                                )
                            } else {
                                Out::Got((), t)
                            },
                    ),
            ),
    )
}

/// Deletes the files of the integration. One that is not ours needs `force`.
pub fn uninstall_fish(tape: &mut Tape, env: &ShellEnv, opts: UninstallOpts) -> (r: Result<(), Stop>)
    ensures
        agrees(r, final(tape)@, uninstall_fish_spec(old(tape)@, env.deep_view(), opts)),
{
    reveal(uninstall_fish_spec);
    let idle = remove_owned(tape, &fish_primary(env), opts, true)?;
    let idle = remove_owned(tape, &fish_completions_path(env), opts, idle)?;
    let idle = remove_owned(tape, &fish_shadow_path(env), opts, idle)?;
    if idle {
        tell(tape, Act::Warn, "(ji)::shell nothing to uninstall for fish".to_string())
    } else {
        Ok(())
    }
}

#[verifier::opaque]
pub open spec fn uninstall_spec(
    t: Trace,
    env: ShellEnvV,
    shell: Seq<char>,
    opts: UninstallOpts,
) -> Out<()> {
    if shell == "zsh"@ || shell == "bash"@ {
        uninstall_posix_spec(t, env, shell, opts)
    } else if shell == "fish"@ {
        uninstall_fish_spec(t, env, opts)
    } else {
        Out::Fail(unsupported_spec(shell), t)
    }
}

/// Uninstalls the integration of a shell.
pub fn uninstall(
    tape: &mut Tape,
    env: &ShellEnv,
    shell: &str,
    opts: UninstallOpts,
) -> (r: Result<(), Stop>)
    ensures
        agrees(r, final(tape)@, uninstall_spec(old(tape)@, env.deep_view(), shell@, opts)),
{
    reveal(uninstall_spec);
    if same(shell, "zsh") || same(shell, "bash") {
        uninstall_posix(tape, env, shell, opts)
    } else if same(shell, "fish") {
        uninstall_fish(tape, env, opts)
    } else {
        Err(Stop::Fail(unsupported(shell)))
    }
}

// ---------------------------------------------------------------------------
// Laws
// ---------------------------------------------------------------------------

/// Where the blocks among the hits are.
pub open spec fn blocks(hits: Seq<HitV>) -> Seq<(nat, nat)>
    decreases hits.len(),
{
    if hits.len() == 0 {
        Seq::empty()
    } else {
        match hits.last().kind {
            HitKindV::MarkerBlock { start, end } => blocks(hits.drop_last()).push((start, end)),
            _ => blocks(hits.drop_last()),
        }
    }
}

proof fn lemma_blocks_push(hits: Seq<HitV>, h: HitV)
    ensures
        blocks(hits.push(h)) == (match h.kind {
            HitKindV::MarkerBlock { start, end } => blocks(hits).push((start, end)),
            _ => blocks(hits),
        }),
{
    assert(hits.push(h).drop_last() =~= hits);
}

proof fn lemma_blocks_add(a: Seq<HitV>, b: Seq<HitV>)
    ensures
        blocks(a + b) == blocks(a) + blocks(b),
    decreases b.len(),
{
    if b.len() == 0 {
        assert(a + b =~= a);
        assert(blocks(a) + blocks(b) =~= blocks(a));
    } else {
        lemma_blocks_add(a, b.drop_last());
        assert((a + b).drop_last() =~= a + b.drop_last());
        assert((a + b).last() == b.last());
        match b.last().kind {
            HitKindV::MarkerBlock { start, end } => {
                assert((blocks(a) + blocks(b.drop_last())).push((start, end)) =~= blocks(a)
                    + blocks(b.drop_last()).push((start, end)));
            },
            _ => {},
        }
    }
}

proof fn lemma_marks_blocks(
    path: Seq<char>,
    via: Option<ViaV>,
    m: MarksV,
    s: Seq<char>,
)
    requires
        blocks(m.hits) == m.ranges,
    ensures
        ({
            let r = mark_text(path, via, m, s);
            blocks(r.hits) == r.ranges
        }),
    decreases s.len(),
{
    if s.len() > 0 {
        lemma_row_len(s);
        let n = row_len(s) as int;
        let next = mark_row(path, via, m, s.take(n));
        if next.hits.len() > m.hits.len() {
            lemma_blocks_push(m.hits, next.hits.last());
            assert(next.hits =~= m.hits.push(next.hits.last()));
        }
        lemma_marks_blocks(path, via, next, s.skip(n));
    }
}

proof fn lemma_legacy_no_blocks(
    env: ShellEnvV,
    path: Seq<char>,
    via: Option<ViaV>,
    ranges: Seq<(nat, nat)>,
    pos: nat,
    line: nat,
    s: Seq<char>,
)
    ensures
        blocks(legacy_hits(env, path, via, ranges, pos, line, s)) == Seq::<(nat, nat)>::empty(),
    decreases s.len(),
{
    if s.len() > 0 {
        lemma_row_len(s);
        let n = row_len(s);
        let end = pos + bytes_of(s.take(n as int));
        let rest = legacy_hits(env, path, via, ranges, end, line + 1, s.skip(n as int));
        lemma_legacy_no_blocks(env, path, via, ranges, end, line + 1, s.skip(n as int));
        let all = legacy_hits(env, path, via, ranges, pos, line, s);
        let here = all.take(all.len() - rest.len());
        assert(all =~= here + rest);
        lemma_blocks_add(here, rest);
        reveal_with_fuel(blocks, 3);
        assert(blocks(here) =~= Seq::empty());
    } else {
        assert(blocks(Seq::<HitV>::empty()) =~= Seq::empty());
    }
}

proof fn lemma_hits_path(env: ShellEnvV, path: Seq<char>, contents: Seq<char>)
    ensures
        forall|i: int|
            0 <= i < hits_in(env, path, None, contents).len() ==> #[trigger] hits_in(
                env,
                path,
                None,
                contents,
            )[i].path == path,
{
    lemma_marks_path(path, no_marks(), contents);
    lemma_legacy_path(env, path, ranges_of(path, None, contents), 0, 0, contents);
}

pub open spec fn all_at(hits: Seq<HitV>, path: Seq<char>) -> bool {
    forall|i: int| 0 <= i < hits.len() ==> #[trigger] hits[i].path == path
}

proof fn lemma_marks_path(path: Seq<char>, m: MarksV, s: Seq<char>)
    requires
        all_at(m.hits, path),
    ensures
        all_at(mark_text(path, None, m, s).hits, path),
    decreases s.len(),
{
    if s.len() > 0 {
        lemma_row_len(s);
        let n = row_len(s) as int;
        lemma_marks_path(
            path,
            mark_row(path, None, m, s.take(n)),
            s.skip(n),
        );
    }
}

proof fn lemma_legacy_path(
    env: ShellEnvV,
    path: Seq<char>,
    ranges: Seq<(nat, nat)>,
    pos: nat,
    line: nat,
    s: Seq<char>,
)
    ensures
        all_at(legacy_hits(env, path, None, ranges, pos, line, s), path),
    decreases s.len(),
{
    if s.len() > 0 {
        lemma_row_len(s);
        let n = row_len(s);
        let end = pos + bytes_of(s.take(n as int));
        lemma_legacy_path(env, path, ranges, end, line + 1, s.skip(n as int));
    }
}

proof fn lemma_picked_blocks(path: Seq<char>, hits: Seq<HitV>)
    requires
        all_at(hits, path),
    ensures
        blocks(picked(Pick::OwnBlock, path, hits)) == blocks(hits),
        picked(Pick::OwnBlock, path, hits).len() == blocks(hits).len(),
        forall|i: int|
            0 <= i < blocks(hits).len() ==> (#[trigger] picked(
                Pick::OwnBlock,
                path,
                hits,
            )[i]).kind == (HitKindV::MarkerBlock {
                start: blocks(hits)[i].0,
                end: blocks(hits)[i].1,
            }),
    decreases hits.len(),
{
    if hits.len() > 0 {
        assert(hits.last().path == path);
        assert(all_at(hits.drop_last(), path)) by {
            assert forall|i: int| 0 <= i < hits.drop_last().len() implies #[trigger] hits.drop_last()[i].path
                == path by {
                assert(hits[i].path == path);
            }
        }
        lemma_picked_blocks(path, hits.drop_last());
        if hits.last().kind is MarkerBlock {
            lemma_blocks_push(picked(Pick::OwnBlock, path, hits.drop_last()), hits.last());
        }
    }
}

/// What the scan reports as the block of an rc file is its first block, so that what an
/// installation writes is what [`installed`] says.
pub proof fn law_install_renews_the_first_block(
    env: ShellEnvV,
    path: Seq<char>,
    contents: Seq<char>,
    stanza: Seq<char>,
)
    ensures
        own_block_spec(hits_in(env, path, None, contents), path) == first_block_spec(
            path,
            contents,
        ),
        new_text(
            contents,
            own_block_spec(hits_in(env, path, None, contents), path),
            stanza,
        ) == Some(installed(path, contents, stanza)),
{
    let hits = hits_in(env, path, None, contents);
    let marks = marks_of(path, None, contents);
    let m = mark_text(path, None, no_marks(), contents);
    let rest = legacy_hits(env, path, None, ranges_of(path, None, contents), 0, 0, contents);
    assert(blocks(no_marks().hits) =~= no_marks().ranges);
    lemma_marks_blocks(path, None, no_marks(), contents);
    if marks.len() > m.hits.len() {
        lemma_blocks_push(m.hits, marks.last());
    }
    assert(blocks(marks) == m.ranges);
    lemma_legacy_no_blocks(env, path, None, ranges_of(path, None, contents), 0, 0, contents);
    lemma_blocks_add(marks, rest);
    assert(blocks(hits) =~= m.ranges);
    lemma_hits_path(env, path, contents);
    lemma_picked_blocks(path, hits);
    if m.ranges.len() > 0 {
        lemma_first_range(path, None, no_marks(), contents);
    }
}

} // verus!
