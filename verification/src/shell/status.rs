//! The state of the shell integration, for a reader.

use vstd::prelude::*;

use crate::order::{
    comes_before, is_sorted, lemma_insert_at, lemma_sort_by, lemma_text_lt_total, lemma_text_order,
    ranks, sort_by, text_lt, text_order,
};
use crate::paths::{components, components_spec, path_join, path_join_spec, same_components};
use crate::shell::checks::{
    copy_hit, fish_completions_path, fish_completions_spec, fish_primary, fish_primary_spec,
    fish_shadow_path, fish_shadow_spec, pick, picked, place, place_of, posix_primary,
    posix_primary_spec, via_text, via_text_spec, Pick,
};
use crate::shell::detect::{
    status_action, status_action_spec, ActiveReport, ActiveReportV, Detection, DetectionV,
    StatusAction, StatusActionV,
};
use crate::shell::env::{managed_file_spec, ShellEnv, ShellEnvV};
use crate::shell::install::{first_block, first_block_spec, print_all, print_all_spec};
use crate::shell::markers::{Hit, HitV};
use crate::shell::scan::{
    find_hits, find_hits_spec, scan_locations, scan_locations_spec, ScanLocationV,
};
use crate::shell::scripts::{
    fish_completion_body, fish_wrapper_body, managed_body_spec, rc_stanza_spec,
    render_fish_completion_body, render_fish_wrapper_body, render_managed_body, render_rc_stanza,
    unsupported, unsupported_spec,
};
use crate::tape::{
    agrees, at, at_spec, bind, fetch, fetch_spec, holds, holds_spec, tell, tell_spec, Act, Out,
    Stop, Tape, Trace,
};
use crate::text::{
    args1, args2, cat2, cat3, cat4, cat5, cat6, chain, char_at, char_index, chars_of, same, slice,
    trim_end, trim_end_spec, Cut,
};

verus! {

// ---------------------------------------------------------------------------
// The active shell
// ---------------------------------------------------------------------------

pub open spec fn report_lines(r: ActiveReportV) -> Seq<Seq<char>> {
    let active = match r.detected {
        DetectionV::Supported(s) => s,
        DetectionV::Unsupported(s) => s + " (unsupported)"@,
        DetectionV::Unknown => "unknown"@,
    };
    let exe = match r.active_exe {
        Some(p) => "   ["@ + p + "]"@,
        None => Seq::empty(),
    };
    let login = match r.shell_env_raw {
        Some(s) => s,
        None => "<unset>"@,
    };
    seq!["  active shell (detected): "@ + active + exe, "  login shell ($SHELL):    "@ + login]
}

fn show_report(r: &ActiveReport) -> (v: Vec<String>)
    ensures
        v.deep_view() == report_lines(r.deep_view()),
{
    let active = match &r.detected {
        Detection::Supported(s) => s.clone(),
        Detection::Unsupported(s) => cat2(s, " (unsupported)"),
        Detection::Unknown => "unknown".to_string(),
    };
    let exe = match &r.active_exe {
        Some(p) => cat3("   [", p, "]"),
        None => {
            let s = String::new();
            assert(s@ =~= Seq::<char>::empty());
            s
        },
    };
    let login = match &r.shell_env_raw {
        Some(s) => s.clone(),
        None => "<unset>".to_string(),
    };
    let a = cat3("  active shell (detected): ", &active, &exe);
    let b = cat2("  login shell ($SHELL):    ", &login);
    args2(&a, &b)
}

#[verifier::opaque]
pub open spec fn print_active_report_spec(t: Trace, r: ActiveReportV) -> Out<()> {
    print_all_spec(t, report_lines(r))
}

/// Prints the active shell and the login shell.
pub fn print_active_report(tape: &mut Tape, r: &ActiveReport) -> (x: Result<(), Stop>)
    ensures
        agrees(x, final(tape)@, print_active_report_spec(old(tape)@, r.deep_view())),
{
    reveal(print_active_report_spec);
    print_all(tape, &show_report(r))
}

// ---------------------------------------------------------------------------
// Files
// ---------------------------------------------------------------------------

#[verifier::opaque]
pub open spec fn display_canonical_spec(t: Trace, p: Seq<char>) -> Out<Seq<char>> {
    bind(
        fetch_spec(t, at_spec(Act::Canonical, p)),
        |c: Option<Seq<char>>, t: Trace|
            Out::Got(
                match c {
                    Some(c) => if components_spec(c) == components_spec(p) {
                        p
                    } else {
                        p + " -> "@ + c
                    },
                    None => p,
                },
                t,
            ),
    )
}

/// A path, and where it leads if that is elsewhere.
pub fn display_canonical(tape: &mut Tape, p: &str) -> (r: Result<String, Stop>)
    ensures
        agrees(r, final(tape)@, display_canonical_spec(old(tape)@, p@)),
{
    reveal(display_canonical_spec);
    match fetch(tape, at(Act::Canonical, p))? {
        Some(c) => if same_components(&c, p) {
            Ok(p.to_string())
        } else {
            Ok(cat3(p, " -> ", &c))
        },
        None => Ok(p.to_string()),
    }
}

#[verifier::opaque]
pub open spec fn state_for_spec(t: Trace, path: Seq<char>, desired: Seq<char>) -> Out<Seq<char>> {
    bind(
        holds_spec(t, at_spec(Act::Exists, path)),
        |there: bool, t: Trace|
            if !there {
                Out::Got("absent"@, t)
            } else {
                bind(
                    fetch_spec(t, at_spec(Act::ReadFile, path)),
                    |text: Option<Seq<char>>, t: Trace|
                        Out::Got(
                            match text {
                                Some(s) => if s == desired {
                                    "present"@
                                } else {
                                    "drift"@
                                },
                                None => "absent"@,
                            },
                            t,
                        ),
                )
            },
    )
}

/// Does a file hold what it should?
pub fn state_for(tape: &mut Tape, path: &str, desired: &str) -> (r: Result<String, Stop>)
    ensures
        agrees(r, final(tape)@, state_for_spec(old(tape)@, path@, desired@)),
{
    reveal(state_for_spec);
    if !holds(tape, at(Act::Exists, path))? {
        return Ok("absent".to_string());
    }
    match fetch(tape, at(Act::ReadFile, path))? {
        Some(s) => if same(&s, desired) {
            Ok("present".to_string())
        } else {
            Ok("drift".to_string())
        },
        None => Ok("absent".to_string()),
    }
}

/// How the block of an rc file compares with the stanza; newlines at their ends do not count.
pub open spec fn stanza_verdict(path: Seq<char>, contents: Seq<char>, stanza: Seq<char>) -> Seq<char> {
    match first_block_spec(path, contents) {
        None => "absent"@,
        Some(b) => if trim_end_spec(
            contents.subrange(
                char_at(contents, b.0) as int,
                char_at(contents, b.1) as int,
            ),
            Cut::Only('\n'),
        ) == trim_end_spec(stanza, Cut::Only('\n')) {
            "present"@
        } else {
            "drift"@
        },
    }
}

fn compare_stanza(path: &str, contents: &str, stanza: &str) -> (r: String)
    ensures
        r@ == stanza_verdict(path@, contents@, stanza@),
{
    match first_block(path, contents) {
        None => "absent".to_string(),
        Some(b) => {
            let cs = chars_of(contents);
            let block = slice(&cs, char_index(&cs, b.0), char_index(&cs, b.1));
            if same(
                &trim_end(&block, Cut::Only('\n')),
                &trim_end(stanza, Cut::Only('\n')),
            ) {
                "present".to_string()
            } else {
                "drift".to_string()
            }
        },
    }
}

#[verifier::opaque]
pub open spec fn rc_stanza_state_spec(
    t: Trace,
    rc: Seq<char>,
    stanza: Seq<char>,
) -> Out<Seq<char>> {
    bind(
        holds_spec(t, at_spec(Act::IsFile, rc)),
        |there: bool, t: Trace|
            if !there {
                Out::Got(rc + " ("@ + "absent"@ + ")"@, t)
            } else {
                bind(
                    fetch_spec(t, at_spec(Act::ReadFile, rc)),
                    |text: Option<Seq<char>>, t: Trace|
                        Out::Got(
                            rc + " ("@ + (match text {
                                Some(s) => stanza_verdict(rc, s, stanza),
                                None => "unreadable"@,
                            }) + ")"@,
                            t,
                        ),
                )
            },
    )
}

/// The state of the block in an rc file.
pub fn rc_stanza_state(tape: &mut Tape, rc: &str, stanza: &str) -> (r: Result<String, Stop>)
    ensures
        agrees(r, final(tape)@, rc_stanza_state_spec(old(tape)@, rc@, stanza@)),
{
    reveal(rc_stanza_state_spec);
    if !holds(tape, at(Act::IsFile, rc))? {
        return Ok(cat4(rc, " (", "absent", ")"));
    }
    let state = match fetch(tape, at(Act::ReadFile, rc))? {
        Some(s) => compare_stanza(rc, &s, stanza),
        None => "unreadable".to_string(),
    };
    Ok(cat4(rc, " (", &state, ")"))
}

// ---------------------------------------------------------------------------
// Hits in order
// ---------------------------------------------------------------------------

/// Roots come first, then `.`, then `..`, then names.
pub open spec fn component_rank(c: Seq<char>) -> int {
    if c == "/"@ {
        0
    } else if c == "."@ {
        1
    } else if c == ".."@ {
        2
    } else {
        3
    }
}

fn rank_component(c: &str) -> (r: u8)
    ensures
        r == component_rank(c@),
{
    if same(c, "/") {
        0
    } else if same(c, ".") {
        1
    } else if same(c, "..") {
        2
    } else {
        3
    }
}

pub open spec fn component_lt(a: Seq<char>, b: Seq<char>) -> bool {
    component_rank(a) < component_rank(b) || (component_rank(a) == component_rank(b) && text_lt(
        a,
        b,
    ))
}

/// Paths in order: component by component.
pub open spec fn components_lt(a: Seq<Seq<char>>, b: Seq<Seq<char>>) -> bool
    decreases a.len(),
{
    if b.len() == 0 {
        false
    } else if a.len() == 0 {
        true
    } else if a[0] == b[0] {
        components_lt(a.drop_first(), b.drop_first())
    } else {
        component_lt(a[0], b[0])
    }
}

fn components_before(a: &Vec<String>, b: &Vec<String>) -> (r: bool)
    ensures
        r == components_lt(a.deep_view(), b.deep_view()),
{
    let ghost x = a.deep_view();
    let ghost y = b.deep_view();
    let mut i: usize = 0;
    assert(x.skip(0) =~= x);
    assert(y.skip(0) =~= y);
    while i < a.len() && i < b.len()
        invariant
            i <= a@.len(),
            i <= b@.len(),
            x == a.deep_view(),
            y == b.deep_view(),
            components_lt(x, y) == components_lt(x.skip(i as int), y.skip(i as int)),
        decreases a@.len() - i,
    {
        assert(x.skip(i as int)[0] == a@[i as int]@);
        assert(y.skip(i as int)[0] == b@[i as int]@);
        assert(x.skip(i as int).drop_first() =~= x.skip(i + 1));
        assert(y.skip(i as int).drop_first() =~= y.skip(i + 1));
        if !same(&a[i], &b[i]) {
            let ra = rank_component(&a[i]);
            let rb = rank_component(&b[i]);
            return ra < rb || (ra == rb && comes_before(&a[i], &b[i]));
        }
        i = i + 1;
    }
    i < b.len()
}

/// By path, then by line.
pub open spec fn hit_lt(a: HitV, b: HitV) -> bool {
    let p = components_spec(a.path);
    let q = components_spec(b.path);
    if p == q {
        a.line_no < b.line_no
    } else {
        components_lt(p, q)
    }
}

pub open spec fn hit_order() -> spec_fn(HitV, HitV) -> bool {
    |a: HitV, b: HitV| hit_lt(a, b)
}

fn hit_before(a: &Hit, b: &Hit) -> (r: bool)
    ensures
        r == hit_lt(a.deep_view(), b.deep_view()),
{
    if same_components(&a.path, &b.path) {
        a.line_no < b.line_no
    } else {
        components_before(&components(&a.path), &components(&b.path))
    }
}

fn sort_hits(hits: &Vec<Hit>) -> (r: Vec<Hit>)
    ensures
        r.deep_view() == sort_by(hits.deep_view(), hit_order()),
{
    let ghost all = hits.deep_view();
    let ghost lt = hit_order();
    let mut out: Vec<Hit> = Vec::new();
    assert(out.deep_view() =~= sort_by(all.take(0), lt));
    for i in 0..hits.len()
        invariant
            all == hits.deep_view(),
            lt == hit_order(),
            out.deep_view() == sort_by(all.take(i as int), lt),
    {
        let ghost before = out.deep_view();
        let x = copy_hit(&hits[i]);
        assert(x.deep_view() == all[i as int]);
        assert(all.take(i + 1).drop_last() =~= all.take(i as int));
        let mut k: usize = out.len();
        while k > 0 && hit_before(&x, &out[k - 1])
            invariant
                k <= out@.len(),
                out.deep_view() == before,
                lt == hit_order(),
                forall|j: int| k <= j < before.len() ==> lt(x.deep_view(), #[trigger] before[j]),
            decreases k,
        {
            assert(before[k - 1] == out@[k - 1].deep_view());
            k = k - 1;
        }
        proof {
            if k > 0 {
                assert(before[k - 1] == out@[k - 1].deep_view());
            }
            lemma_insert_at(before, x.deep_view(), lt, k as int);
        }
        let ghost xv = x.deep_view();
        out.insert(k, x);
        assert(out.deep_view() =~= before.insert(k as int, xv));
    }
    assert(all.take(all.len() as int) =~= all);
    out
}

/// One line for each hit.
pub open spec fn hit_line(h: HitV, name_via: bool) -> Seq<char> {
    "    "@ + place(h) + (if name_via {
        via_text_spec(h.via)
    } else {
        Seq::empty()
    }) + " \u{2014} "@ + h.line_text
}

pub open spec fn hit_lines(hits: Seq<HitV>, name_via: bool) -> Seq<Seq<char>> {
    hits.map_values(|h: HitV| hit_line(h, name_via))
}

fn show_hits(hits: &Vec<Hit>, name_via: bool) -> (r: Vec<String>)
    ensures
        r.deep_view() == hit_lines(hits.deep_view(), name_via),
{
    let ghost all = hit_lines(hits.deep_view(), name_via);
    let mut out: Vec<String> = Vec::new();
    for i in 0..hits.len()
        invariant
            all == hit_lines(hits.deep_view(), name_via),
            out.deep_view() == all.take(i as int),
    {
        let ghost before = out.deep_view();
        assert(hits.deep_view()[i as int] == hits@[i as int].deep_view());
        let how = if name_via {
            via_text(&hits[i].via)
        } else {
            let s = String::new();
            assert(s@ =~= Seq::<char>::empty());
            s
        };
        let at = place_of(&hits[i]);
        let line = cat5("    ", &at, &how, " \u{2014} ", &hits[i].line_text);
        out.push(line);
        assert(out.deep_view() =~= before.push(line@));
        assert(all.take(i + 1) =~= all.take(i as int).push(all[i as int]));
    }
    assert(all.take(hits@.len() as int) =~= all);
    out
}

/// The hits in other files.
pub open spec fn cross_lines(cross: Seq<HitV>, name_via: bool) -> Seq<Seq<char>> {
    if cross.len() == 0 {
        seq!["  cross-file hits: none"@]
    } else {
        seq!["  cross-file hits:"@] + hit_lines(cross, name_via)
    }
}

fn show_cross(cross: &Vec<Hit>, name_via: bool) -> (r: Vec<String>)
    ensures
        r.deep_view() == cross_lines(cross.deep_view(), name_via),
{
    assert(cross.deep_view().len() == cross@.len());
    if cross.len() == 0 {
        args1("  cross-file hits: none")
    } else {
        chain(args1("  cross-file hits:"), show_hits(cross, name_via))
    }
}

/// What a posix report says of the hits: those in other files by path and line, then the lines
/// that load files which cannot be told.
pub open spec fn posix_hit_lines(hits: Seq<HitV>, primary: Seq<char>) -> Seq<Seq<char>> {
    let unresolved = picked(Pick::Unresolved, primary, hits);
    cross_lines(sort_by(picked(Pick::Foreign, primary, hits), hit_order()), true) + (
    if unresolved.len() == 0 {
        Seq::empty()
    } else {
        seq!["  unresolved source lines:"@] + hit_lines(unresolved, false)
    })
}

fn show_posix_hits(hits: &Vec<Hit>, primary: &str) -> (r: Vec<String>)
    ensures
        r.deep_view() == posix_hit_lines(hits.deep_view(), primary@),
{
    let cross = sort_hits(&pick(Pick::Foreign, primary, hits));
    let unresolved = pick(Pick::Unresolved, primary, hits);
    assert(unresolved.deep_view().len() == unresolved@.len());
    let rest = if unresolved.len() == 0 {
        let none: Vec<String> = Vec::new();
        assert(none.deep_view() =~= Seq::empty());
        none
    } else {
        chain(args1("  unresolved source lines:"), show_hits(&unresolved, false))
    };
    chain(show_cross(&cross, true), rest)
}

// ---------------------------------------------------------------------------
// Reports
// ---------------------------------------------------------------------------

#[verifier::opaque]
pub open spec fn candidate_spec(t: Trace, path: Seq<char>) -> Out<Seq<char>> {
    bind(
        holds_spec(t, at_spec(Act::Exists, path)),
        |there: bool, t: Trace|
            Out::Got(
                path + " ("@ + (if there {
                    "exists"@
                } else {
                    "absent"@
                }) + ")"@,
                t,
            ),
    )
}

fn candidate(tape: &mut Tape, path: &str) -> (r: Result<String, Stop>)
    ensures
        agrees(r, final(tape)@, candidate_spec(old(tape)@, path@)),
{
    reveal(candidate_spec);
    let state = if holds(tape, at(Act::Exists, path))? {
        "exists"
    } else {
        "absent"
    };
    Ok(cat4(path, " (", state, ")"))
}

/// Which login files of bash exist.
#[verifier::opaque]
pub open spec fn print_candidates_spec(t: Trace, env: ShellEnvV) -> Out<()> {
    bind(
        candidate_spec(t, path_join_spec(env.home, ".bash_profile"@)),
        |a: Seq<char>, t: Trace|
            bind(
                candidate_spec(t, path_join_spec(env.home, ".bash_login"@)),
                |b: Seq<char>, t: Trace|
                    bind(
                        candidate_spec(t, path_join_spec(env.home, ".profile"@)),
                        |c: Seq<char>, t: Trace|
                            tell_spec(
                                t,
                                Act::Print,
                                "  bash candidates: "@ + a + ", "@ + b + ", "@ + c,
                            ),
                    ),
            ),
    )
}

fn print_candidates(tape: &mut Tape, env: &ShellEnv) -> (r: Result<(), Stop>)
    ensures
        agrees(r, final(tape)@, print_candidates_spec(old(tape)@, env.deep_view())),
{
    reveal(print_candidates_spec);
    let a = candidate(tape, &path_join(&env.home, ".bash_profile"))?;
    let b = candidate(tape, &path_join(&env.home, ".bash_login"))?;
    let c = candidate(tape, &path_join(&env.home, ".profile"))?;
    tell(tape, Act::Print, cat6("  bash candidates: ", &a, ", ", &b, ", ", &c))
}

#[verifier::opaque]
pub open spec fn print_file_spec(
    t: Trace,
    label: Seq<char>,
    path: Seq<char>,
    desired: Seq<char>,
) -> Out<()> {
    bind(
        display_canonical_spec(t, path),
        |shown: Seq<char>, t: Trace|
            bind(
                state_for_spec(t, path, desired),
                |state: Seq<char>, t: Trace|
                    tell_spec(t, Act::Print, label + shown + " ("@ + state + ")"@),
            ),
    )
}

fn print_file(tape: &mut Tape, label: &str, path: &str, desired: &str) -> (r: Result<(), Stop>)
    ensures
        agrees(r, final(tape)@, print_file_spec(old(tape)@, label@, path@, desired@)),
{
    reveal(print_file_spec);
    let shown = display_canonical(tape, path)?;
    let state = state_for(tape, path, desired)?;
    tell(tape, Act::Print, cat5(label, &shown, " (", &state, ")"))
}

#[verifier::opaque]
pub open spec fn print_posix_files_spec(
    t: Trace,
    env: ShellEnvV,
    shell: Seq<char>,
    primary: Seq<char>,
    managed: Seq<char>,
    body: Seq<char>,
    stanza: Seq<char>,
) -> Out<()> {
    bind(
        tell_spec(t, Act::Print, "ji shell integration: "@ + shell),
        |u: (), t: Trace|
            bind(
                display_canonical_spec(t, primary),
                |shown: Seq<char>, t: Trace|
                    bind(
                        tell_spec(t, Act::Print, "  primary rc: "@ + shown),
                        |u: (), t: Trace|
                            bind(
                                if shell == "bash"@ {
                                    print_candidates_spec(t, env)
                                } else {
                                    Out::Got((), t)
                                },
                                |u: (), t: Trace|
                                    bind(
                                        print_file_spec(t, "  managed file: "@, managed, body),
                                        |u: (), t: Trace|
                                            bind(
                                                rc_stanza_state_spec(t, primary, stanza),
                                                |state: Seq<char>, t: Trace|
                                                    tell_spec(
                                                        t,
                                                        Act::Print,
                                                        "  rc stanza: "@ + state,
                                                    ),
                                            ),
                                    ),
                            ),
                    ),
            ),
    )
}

fn print_posix_files(
    tape: &mut Tape,
    env: &ShellEnv,
    shell: &str,
    primary: &str,
    managed: &str,
    body: &str,
    stanza: &str,
) -> (r: Result<(), Stop>)
    ensures
        agrees(
            r,
            final(tape)@,
            print_posix_files_spec(
                old(tape)@,
                env.deep_view(),
                shell@,
                primary@,
                managed@,
                body@,
                stanza@,
            ),
        ),
{
    reveal(print_posix_files_spec);
    tell(tape, Act::Print, cat2("ji shell integration: ", shell))?;
    let shown = display_canonical(tape, primary)?;
    tell(tape, Act::Print, cat2("  primary rc: ", &shown))?;
    if same(shell, "bash") {
        print_candidates(tape, env)?;
    }
    print_file(tape, "  managed file: ", managed, body)?;
    let state = rc_stanza_state(tape, primary, stanza)?;
    tell(tape, Act::Print, cat2("  rc stanza: ", &state))
}

#[verifier::opaque]
pub open spec fn status_posix_spec(
    t: Trace,
    env: ShellEnvV,
    shell: Seq<char>,
    generated: Seq<char>,
) -> Out<()> {
    bind(
        posix_primary_spec(t, env, shell),
        |primary: Seq<char>, t: Trace|
            match (
                managed_file_spec(env, shell),
                managed_body_spec(shell, generated),
                rc_stanza_spec(shell),
            ) {
                (Err(e), _, _) => Out::Fail(e, t),
                (_, Err(e), _) => Out::Fail(e, t),
                (_, _, Err(e)) => Out::Fail(e, t),
                (Ok(managed), Ok(body), Ok(stanza)) => bind(
                    print_posix_files_spec(t, env, shell, primary, managed, body, stanza),
                    |u: (), t: Trace|
                        bind(
                            scan_locations_spec(t, env, shell, primary),
                            |locs: Seq<ScanLocationV>, t: Trace|
                                bind(
                                    find_hits_spec(t, locs, env),
                                    |hits: Seq<HitV>, t: Trace|
                                        print_all_spec(t, posix_hit_lines(hits, primary)),
                                ),
                        ),
                ),
            },
    )
}

/// Reports on zsh or bash.
pub fn status_posix(
    tape: &mut Tape,
    env: &ShellEnv,
    shell: &str,
    generated: &str,
) -> (r: Result<(), Stop>)
    ensures
        agrees(r, final(tape)@, status_posix_spec(old(tape)@, env.deep_view(), shell@, generated@)),
{
    reveal(status_posix_spec);
    let primary = posix_primary(tape, env, shell)?;
    let managed = match env.managed_file(shell) {
        Ok(p) => p,
        Err(e) => return Err(Stop::Fail(e)),
    };
    let body = match render_managed_body(shell, generated) {
        Ok(s) => s,
        Err(e) => return Err(Stop::Fail(e)),
    };
    let stanza = match render_rc_stanza(shell) {
        Ok(s) => s,
        Err(e) => return Err(Stop::Fail(e)),
    };
    print_posix_files(tape, env, shell, &primary, &managed, &body, &stanza)?;
    let locs = scan_locations(tape, env, shell, &primary)?;
    let hits = find_hits(tape, &locs, env)?;
    print_all(tape, &show_posix_hits(&hits, &primary))
}

#[verifier::opaque]
pub open spec fn print_fish_files_spec(t: Trace, env: ShellEnvV, generated: Seq<char>) -> Out<()> {
    let shadow = fish_shadow_spec(env);
    bind(
        tell_spec(t, Act::Print, "ji shell integration: fish"@),
        |u: (), t: Trace|
            bind(
                print_file_spec(t, "  wrapper file: "@, fish_primary_spec(env), fish_wrapper_body()),
                |u: (), t: Trace|
                    bind(
                        print_file_spec(
                            t,
                            "  completions file: "@,
                            fish_completions_spec(env),
                            fish_completion_body(generated),
                        ),
                        |u: (), t: Trace|
                            bind(
                                holds_spec(t, at_spec(Act::Exists, shadow)),
                                |there: bool, t: Trace|
                                    if there {
                                        bind(
                                            display_canonical_spec(t, shadow),
                                            |shown: Seq<char>, t: Trace|
                                                tell_spec(
                                                    t,
                                                    Act::Print,
                                                    "  WARNING shadow file: "@ + shown
                                                        + " (would override the autoload)"@,
                                                ),
                                        )
                                    } else {
                                        Out::Got((), t)
                                    },
                            ),
                    ),
            ),
    )
}

fn print_fish_files(tape: &mut Tape, env: &ShellEnv, generated: &str) -> (r: Result<(), Stop>)
    ensures
        agrees(r, final(tape)@, print_fish_files_spec(old(tape)@, env.deep_view(), generated@)),
{
    reveal(print_fish_files_spec);
    tell(tape, Act::Print, "ji shell integration: fish".to_string())?;
    print_file(tape, "  wrapper file: ", &fish_primary(env), &render_fish_wrapper_body())?;
    print_file(
        tape,
        "  completions file: ",
        &fish_completions_path(env),
        &render_fish_completion_body(generated),
    )?;
    let shadow = fish_shadow_path(env);
    if holds(tape, at(Act::Exists, &shadow))? {
        let shown = display_canonical(tape, &shadow)?;
        return tell(
            tape,
            Act::Print,
            cat3("  WARNING shadow file: ", &shown, " (would override the autoload)"),
        );
    }
    Ok(())
}

#[verifier::opaque]
pub open spec fn status_fish_spec(t: Trace, env: ShellEnvV, generated: Seq<char>) -> Out<()> {
    let primary = fish_primary_spec(env);
    bind(
        print_fish_files_spec(t, env, generated),
        |u: (), t: Trace|
            bind(
                scan_locations_spec(t, env, "fish"@, primary),
                |locs: Seq<ScanLocationV>, t: Trace|
                    bind(
                        find_hits_spec(t, locs, env),
                        |hits: Seq<HitV>, t: Trace|
                            print_all_spec(
                                t,
                                cross_lines(picked(Pick::Foreign, primary, hits), false),
                            ),
                    ),
            ),
    )
}

/// Reports on fish.
pub fn status_fish(tape: &mut Tape, env: &ShellEnv, generated: &str) -> (r: Result<(), Stop>)
    ensures
        agrees(r, final(tape)@, status_fish_spec(old(tape)@, env.deep_view(), generated@)),
{
    reveal(status_fish_spec);
    let primary = fish_primary(env);
    print_fish_files(tape, env, generated)?;
    let locs = scan_locations(tape, env, "fish", &primary)?;
    let hits = find_hits(tape, &locs, env)?;
    print_all(tape, &show_cross(&pick(Pick::Foreign, &primary, &hits), false))
}

/// The shell to report on: the one that was asked for, else the active one.
pub open spec fn status_shell_spec(target: Option<Seq<char>>, report: ActiveReportV) -> Option<
    Seq<char>,
> {
    match target {
        Some(s) => Some(s),
        None => match status_action_spec(report) {
            StatusActionV::Inspect(s) => Some(s),
            StatusActionV::ReportOnly => None,
        },
    }
}

pub fn status_shell(target: Option<&str>, report: &ActiveReport) -> (r: Option<String>)
    ensures
        r.deep_view() == status_shell_spec(target.deep_view(), report.deep_view()),
{
    match target {
        Some(s) => Some(s.to_string()),
        None => match status_action(report) {
            StatusAction::Inspect(s) => Some(s),
            StatusAction::ReportOnly => None,
        },
    }
}

#[verifier::opaque]
pub open spec fn status_spec(
    t: Trace,
    env: ShellEnvV,
    target: Option<Seq<char>>,
    report: ActiveReportV,
    generated: Seq<char>,
) -> Out<()> {
    bind(
        print_active_report_spec(t, report),
        |u: (), t: Trace|
            match status_shell_spec(target, report) {
                None => tell_spec(
                    t,
                    Act::Print,
                    "  no supported active shell to inspect; pass one explicitly (zsh|bash|fish)"@,
                ),
                Some(shell) => if shell == "zsh"@ || shell == "bash"@ {
                    status_posix_spec(t, env, shell, generated)
                } else if shell == "fish"@ {
                    status_fish_spec(t, env, generated)
                } else {
                    Out::Fail(unsupported_spec(shell), t)
                },
            },
    )
}

/// Reports on the active shell and on the integration of `target`, or of the active shell.
/// `generated` is the completion script for that shell.
pub fn status(
    tape: &mut Tape,
    env: &ShellEnv,
    target: Option<&str>,
    report: &ActiveReport,
    generated: &str,
) -> (r: Result<(), Stop>)
    ensures
        agrees(
            r,
            final(tape)@,
            status_spec(
                old(tape)@,
                env.deep_view(),
                target.deep_view(),
                report.deep_view(),
                generated@,
            ),
        ),
{
    reveal(status_spec);
    print_active_report(tape, report)?;
    let shell = match status_shell(target, report) {
        Some(s) => s,
        None => {
            let msg = "  no supported active shell to inspect; pass one explicitly (zsh|bash|fish)";
            return tell(tape, Act::Print, msg.to_string());
        },
    };
    if same(&shell, "zsh") || same(&shell, "bash") {
        status_posix(tape, env, &shell, generated)
    } else if same(&shell, "fish") {
        status_fish(tape, env, generated)
    } else {
        Err(Stop::Fail(unsupported(&shell)))
    }
}

// ---------------------------------------------------------------------------
// Laws
// ---------------------------------------------------------------------------

proof fn lemma_component_lt(a: Seq<char>, b: Seq<char>, c: Seq<char>)
    ensures
        component_lt(a, b) ==> !component_lt(b, a),
        component_lt(a, b) || component_lt(b, a) || a == b,
        !component_lt(a, b) && !component_lt(b, c) ==> !component_lt(a, c),
{
    let text = text_order();
    lemma_text_order();
    lemma_text_lt_total(a, b);
    assert(text(a, b) ==> !text(b, a));
    assert(!text(a, b) && !text(b, c) ==> !text(a, c));
}

proof fn lemma_components_lt(a: Seq<Seq<char>>, b: Seq<Seq<char>>, c: Seq<Seq<char>>)
    ensures
        components_lt(a, b) ==> !components_lt(b, a),
        components_lt(a, b) || components_lt(b, a) || a == b,
        !components_lt(a, b) && !components_lt(b, c) ==> !components_lt(a, c),
    decreases a.len() + b.len() + c.len(),
{
    if a.len() > 0 && b.len() > 0 {
        lemma_component_lt(a[0], b[0], b[0]);
        if c.len() > 0 {
            lemma_component_lt(a[0], b[0], c[0]);
            lemma_components_lt(a.drop_first(), b.drop_first(), c.drop_first());
        } else {
            lemma_components_lt(a.drop_first(), b.drop_first(), c);
        }
        if a[0] == b[0] && a.drop_first() == b.drop_first() {
            assert(a =~= seq![a[0]] + a.drop_first());
            assert(b =~= seq![b[0]] + b.drop_first());
        }
    } else if a.len() == 0 && b.len() == 0 {
        assert(a =~= b);
    }
}

proof fn lemma_hit_order()
    ensures
        ranks(hit_order()),
{
    let lt = hit_order();
    assert forall|a: HitV, b: HitV| #[trigger] lt(a, b) implies !lt(b, a) by {
        let p = components_spec(a.path);
        lemma_components_lt(p, components_spec(b.path), p);
    }
    assert forall|a: HitV, b: HitV, c: HitV|
        !#[trigger] lt(a, b) && !#[trigger] lt(b, c) implies !lt(a, c) by {
        let p = components_spec(a.path);
        let q = components_spec(b.path);
        let r = components_spec(c.path);
        lemma_components_lt(p, q, r);
        lemma_components_lt(q, r, p);
    }
}

/// Hits in other files are listed by path, and by line within a file. None is lost or made up by
/// sorting.
pub proof fn law_hits_are_listed_in_order(hits: Seq<HitV>)
    ensures
        is_sorted(sort_by(hits, hit_order()), hit_order()),
        sort_by(hits, hit_order()).to_multiset() == hits.to_multiset(),
{
    lemma_hit_order();
    lemma_sort_by(hits, hit_order());
}

} // verus!
