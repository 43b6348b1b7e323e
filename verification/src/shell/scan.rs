//! The files that configure a shell, and what they say about ji.

use vstd::prelude::*;

use crate::jj_parse::or_empty;
use crate::paths::{
    components_spec, extension, extension_spec, parent, parent_spec, path_join, path_join_spec,
    same_components,
};
use crate::search::{contains_char, lines, lines_spec, starts_with};
use crate::shell::env::{ShellEnv, ShellEnvV};
use crate::shell::lines::{
    directive_spec, extract_for_loop_source, extract_source_directive_arg, fit, fitting,
    for_loop_spec, is_legacy_line, legacy_spec, pattern_of, pattern_spec, resolve_path,
    resolve_path_spec, strip_comment_spec, strip_if_spec, strip_if_then, strip_inline_comment,
    strip_logical_guard, strip_logical_spec, strip_test_guard, strip_test_spec,
};
use crate::shell::markers::{
    copy_via, cut_row, find_marker_blocks, lemma_row_len, marks_of, ranges_of, row_len, spans, Hit,
    HitKind, HitKindV, HitV, Via, ViaV,
};
use crate::tape::{
    agrees, at, at_spec, bind, each, fetch, fetch_spec, holds, holds_spec, lemma_each_step, list,
    list_spec, need, need_spec, Act, Out, Stop, Tape, Trace,
};
use crate::text::{
    args1, byte_len, bytes_of, cat2, chars_of, empty, same, strs, trim_end, trim_end_spec,
    trim_start, trim_start_spec, Cut,
};

verus! {

// ---------------------------------------------------------------------------
// What a line loads
// ---------------------------------------------------------------------------

/// What a line loads.
#[derive(Debug, Clone)]
pub enum SourceArg {
    File(String),
    /// The files that a pattern stands for.
    Glob(String),
    /// A text that stands for no path here.
    Unresolved(String),
}

pub enum SourceArgV {
    File(Seq<char>),
    Glob(Seq<char>),
    Unresolved(Seq<char>),
}

impl DeepView for SourceArg {
    type V = SourceArgV;

    open spec fn deep_view(&self) -> SourceArgV {
        match self {
            SourceArg::File(p) => SourceArgV::File(p@),
            SourceArg::Glob(p) => SourceArgV::Glob(p@),
            SourceArg::Unresolved(raw) => SourceArgV::Unresolved(raw@),
        }
    }
}

/// The command of a line behind its guards.
pub open spec fn unguarded(line: Seq<char>) -> Seq<char> {
    trim_start_spec(
        strip_logical_spec(strip_if_spec(strip_test_spec(line))),
        Cut::White,
    )
}

pub open spec fn source_args_spec(env: ShellEnvV, base_dir: Seq<char>, line: Seq<char>) -> Option<
    SourceArgV,
> {
    let l = trim_start_spec(strip_comment_spec(line), Cut::White);
    if l.len() == 0 || "#"@.is_prefix_of(l) {
        None
    } else {
        match for_loop_spec(l) {
            Some(arg) => match resolve_path_spec(env, base_dir, arg) {
                Some(p) => Some(SourceArgV::Glob(p)),
                None => Some(SourceArgV::Unresolved(arg)),
            },
            None => match directive_spec(unguarded(l)) {
                Some(arg) => match resolve_path_spec(env, base_dir, arg) {
                    Some(p) => Some(SourceArgV::File(p)),
                    None => Some(SourceArgV::Unresolved(arg)),
                },
                None => None,
            },
        }
    }
}

/// What a line of a file in `base_dir` loads, if anything.
pub fn extract_source_args(env: &ShellEnv, base_dir: &str, line: &str) -> (r: Option<SourceArg>)
    ensures
        r.deep_view() == source_args_spec(env.deep_view(), base_dir@, line@),
{
    let l = trim_start(&strip_inline_comment(line), Cut::White);
    if empty(&l) || starts_with(&l, "#") {
        return None;
    }
    if let Some(arg) = extract_for_loop_source(&l) {
        return match resolve_path(env, base_dir, &arg) {
            Some(p) => Some(SourceArg::Glob(p)),
            None => Some(SourceArg::Unresolved(arg)),
        };
    }
    let work = strip_logical_guard(&strip_if_then(&strip_test_guard(&l)));
    match extract_source_directive_arg(&trim_start(&work, Cut::White)) {
        Some(arg) => match resolve_path(env, base_dir, &arg) {
            Some(p) => Some(SourceArg::File(p)),
            None => Some(SourceArg::Unresolved(arg)),
        },
        None => None,
    }
}

fn no_paths() -> (r: Vec<String>)
    ensures
        r.deep_view() == Seq::<Seq<char>>::empty(),
{
    let v: Vec<String> = Vec::new();
    assert(v.deep_view() =~= Seq::empty());
    v
}

#[verifier::opaque]
pub open spec fn expand_glob_spec(t: Trace, pattern: Seq<char>) -> Out<Seq<Seq<char>>> {
    if !pattern.contains('*') {
        Out::Got(seq![pattern], t)
    } else {
        match pattern_spec(pattern) {
            None => Out::Got(Seq::empty(), t),
            Some(p) => bind(
                list_spec(t, at_spec(Act::ListDir, p.dir)),
                |names: Option<Seq<Seq<char>>>, t: Trace|
                    Out::Got(
                        match names {
                            Some(ns) => fitting(p, ns),
                            None => Seq::empty(),
                        },
                        t,
                    ),
            ),
        }
    }
}

/// The paths that a pattern stands for. A path without a star stands for itself.
pub fn expand_glob(tape: &mut Tape, pattern: &str) -> (r: Result<Vec<String>, Stop>)
    ensures
        agrees(r, final(tape)@, expand_glob_spec(old(tape)@, pattern@)),
{
    reveal(expand_glob_spec);
    if !contains_char(pattern, '*') {
        return Ok(args1(pattern));
    }
    let p = match pattern_of(pattern) {
        Some(p) => p,
        None => return Ok(no_paths()),
    };
    match list(tape, at(Act::ListDir, &p.dir))? {
        Some(names) => Ok(fit(&p, &names)),
        None => Ok(no_paths()),
    }
}

// ---------------------------------------------------------------------------
// Where to look
// ---------------------------------------------------------------------------

/// A file to look at, and the line that loads it if that is why.
#[derive(Debug, Clone)]
pub struct ScanLocation {
    pub path: String,
    pub via: Option<Via>,
}

pub struct ScanLocationV {
    pub path: Seq<char>,
    pub via: Option<ViaV>,
}

impl DeepView for ScanLocation {
    type V = ScanLocationV;

    open spec fn deep_view(&self) -> ScanLocationV {
        ScanLocationV { path: self.path@, via: self.via.deep_view() }
    }
}

/// Is the path one of the locations?
pub open spec fn located(locs: Seq<ScanLocationV>, path: Seq<char>) -> bool {
    exists|i: int|
        0 <= i < locs.len() && components_spec(#[trigger] locs[i].path) == components_spec(path)
}

/// The locations with one more, unless it is there.
pub open spec fn with_location(locs: Seq<ScanLocationV>, path: Seq<char>, via: Option<ViaV>) -> Seq<
    ScanLocationV,
> {
    if located(locs, path) {
        locs
    } else {
        locs.push(ScanLocationV { path, via })
    }
}

fn add_location(locs: Vec<ScanLocation>, path: &str, via: &Option<Via>) -> (r: Vec<ScanLocation>)
    ensures
        r.deep_view() == with_location(locs.deep_view(), path@, via.deep_view()),
{
    let ghost all = locs.deep_view();
    let mut out = locs;
    for i in 0..out.len()
        invariant
            all == locs.deep_view(),
            all == out.deep_view(),
            forall|j: int|
                0 <= j < i ==> components_spec(#[trigger] all[j].path) != components_spec(path@),
    {
        assert(all[i as int].path == out@[i as int].path@);
        if same_components(&out[i].path, path) {
            return out;
        }
    }
    out.push(ScanLocation { path: path.to_string(), via: copy_via(via) });
    assert(out.deep_view() =~= all.push(ScanLocationV { path: path@, via: via.deep_view() }));
    out
}

/// The files `names` in `dir`.
pub open spec fn with_names(locs: Seq<ScanLocationV>, dir: Seq<char>, names: Seq<Seq<char>>) -> Seq<
    ScanLocationV,
>
    decreases names.len(),
{
    if names.len() == 0 {
        locs
    } else {
        with_location(
            with_names(locs, dir, names.drop_last()),
            path_join_spec(dir, names.last()),
            None,
        )
    }
}

fn add_names(locs: Vec<ScanLocation>, dir: &str, names: &[&str]) -> (r: Vec<ScanLocation>)
    ensures
        r.deep_view() == with_names(locs.deep_view(), dir@, strs(names@)),
{
    let ghost l0 = locs.deep_view();
    let ghost all = strs(names@);
    let mut out = locs;
    assert(all.take(0) =~= Seq::empty());
    for i in 0..names.len()
        invariant
            all == strs(names@),
            out.deep_view() == with_names(l0, dir@, all.take(i as int)),
    {
        assert(all.take(i + 1).drop_last() =~= all.take(i as int));
        out = add_location(out, &path_join(dir, names[i]), &None);
    }
    assert(all.take(all.len() as int) =~= all);
    out
}

/// The files of a directory that have an extension.
pub open spec fn with_listed(
    locs: Seq<ScanLocationV>,
    dir: Seq<char>,
    names: Seq<Seq<char>>,
    ext: Seq<char>,
) -> Seq<ScanLocationV>
    decreases names.len(),
{
    if names.len() == 0 {
        locs
    } else {
        let before = with_listed(locs, dir, names.drop_last(), ext);
        let path = path_join_spec(dir, names.last());
        if extension_spec(path) == Some(ext) {
            with_location(before, path, None)
        } else {
            before
        }
    }
}

fn add_listed(locs: Vec<ScanLocation>, dir: &str, names: &Vec<String>, ext: &str) -> (r: Vec<
    ScanLocation,
>)
    ensures
        r.deep_view() == with_listed(locs.deep_view(), dir@, names.deep_view(), ext@),
{
    let ghost l0 = locs.deep_view();
    let ghost all = names.deep_view();
    let mut out = locs;
    assert(all.take(0) =~= Seq::empty());
    for i in 0..names.len()
        invariant
            all == names.deep_view(),
            out.deep_view() == with_listed(l0, dir@, all.take(i as int), ext@),
    {
        assert(all.take(i + 1).drop_last() =~= all.take(i as int));
        assert(all[i as int] == names@[i as int]@);
        let path = path_join(dir, &names[i]);
        if let Some(e) = extension(&path) {
            if same(&e, ext) {
                out = add_location(out, &path, &None);
            }
        }
    }
    assert(all.take(all.len() as int) =~= all);
    out
}

#[verifier::opaque]
pub open spec fn add_dir_spec(
    t: Trace,
    locs: Seq<ScanLocationV>,
    dir: Seq<char>,
    ext: Seq<char>,
) -> Out<Seq<ScanLocationV>> {
    bind(
        list_spec(t, at_spec(Act::ListDir, dir)),
        |names: Option<Seq<Seq<char>>>, t: Trace|
            Out::Got(
                match names {
                    Some(ns) => with_listed(locs, dir, ns, ext),
                    None => locs,
                },
                t,
            ),
    )
}

fn add_dir(
    tape: &mut Tape,
    locs: Vec<ScanLocation>,
    dir: &str,
    ext: &str,
) -> (r: Result<Vec<ScanLocation>, Stop>)
    ensures
        agrees(r, final(tape)@, add_dir_spec(old(tape)@, locs.deep_view(), dir@, ext@)),
{
    reveal(add_dir_spec);
    match list(tape, at(Act::ListDir, dir))? {
        Some(names) => Ok(add_listed(locs, dir, &names, ext)),
        None => Ok(locs),
    }
}

pub const ZSH_FILES: [&'static str; 6] = [
    ".zshenv",
    ".zprofile",
    ".zlogin",
    ".zshrc.local",
    ".zshrc.custom",
    ".zshrc.custom.zsh",
];

pub const BASH_FILES: [&'static str; 5] = [
    ".bashrc",
    ".bash_profile",
    ".bash_login",
    ".profile",
    ".bashrc.local",
];

/// The files that a shell reads by itself.
#[verifier::opaque]
pub open spec fn usual_places_spec(
    t: Trace,
    env: ShellEnvV,
    shell: Seq<char>,
    primary: Seq<char>,
) -> Out<Seq<ScanLocationV>> {
    let start = with_location(Seq::empty(), primary, None);
    if shell == "zsh"@ {
        let locs = with_names(start, env.zdotdir, strs(ZSH_FILES@));
        match env.zsh_custom {
            Some(dir) => add_dir_spec(t, locs, dir, "zsh"@),
            None => Out::Got(locs, t),
        }
    } else if shell == "bash"@ {
        add_dir_spec(
            t,
            with_names(start, env.home, strs(BASH_FILES@)),
            path_join_spec(env.home, ".bashrc.d"@),
            "sh"@,
        )
    } else if shell == "fish"@ {
        add_dir_spec(
            t,
            with_location(start, path_join_spec(env.xdg_config_home, "fish/config.fish"@), None),
            path_join_spec(env.xdg_config_home, "fish/conf.d"@),
            "fish"@,
        )
    } else {
        Out::Got(start, t)
    }
}

fn usual_places(
    tape: &mut Tape,
    env: &ShellEnv,
    shell: &str,
    primary: &str,
) -> (r: Result<Vec<ScanLocation>, Stop>)
    ensures
        agrees(r, final(tape)@, usual_places_spec(old(tape)@, env.deep_view(), shell@, primary@)),
{
    reveal(usual_places_spec);
    let none: Vec<ScanLocation> = Vec::new();
    assert(none.deep_view() =~= Seq::empty());
    let start = add_location(none, primary, &None);
    if same(shell, "zsh") {
        let files = ZSH_FILES;
        let names = files.as_slice();
        assert(strs(names@) =~= strs(ZSH_FILES@));
        let locs = add_names(start, &env.zdotdir, names);
        match &env.zsh_custom {
            Some(dir) => add_dir(tape, locs, dir, "zsh"),
            None => Ok(locs),
        }
    } else if same(shell, "bash") {
        let files = BASH_FILES;
        let names = files.as_slice();
        assert(strs(names@) =~= strs(BASH_FILES@));
        let locs = add_names(start, &env.home, names);
        add_dir(tape, locs, &path_join(&env.home, ".bashrc.d"), "sh")
    } else if same(shell, "fish") {
        let locs = add_location(start, &path_join(&env.xdg_config_home, "fish/config.fish"), &None);
        add_dir(tape, locs, &path_join(&env.xdg_config_home, "fish/conf.d"), "fish")
    } else {
        Ok(start)
    }
}

#[verifier::opaque]
pub open spec fn add_if_file_spec(
    t: Trace,
    locs: Seq<ScanLocationV>,
    path: Seq<char>,
    via: Option<ViaV>,
) -> Out<Seq<ScanLocationV>> {
    bind(
        holds_spec(t, at_spec(Act::IsFile, path)),
        |yes: bool, t: Trace|
            Out::Got(
                if yes {
                    with_location(locs, path, via)
                } else {
                    locs
                },
                t,
            ),
    )
}

fn add_if_file(
    tape: &mut Tape,
    locs: Vec<ScanLocation>,
    path: &str,
    via: &Option<Via>,
) -> (r: Result<Vec<ScanLocation>, Stop>)
    ensures
        agrees(
            r,
            final(tape)@,
            add_if_file_spec(old(tape)@, locs.deep_view(), path@, via.deep_view()),
        ),
{
    reveal(add_if_file_spec);
    if holds(tape, at(Act::IsFile, path))? {
        Ok(add_location(locs, path, via))
    } else {
        Ok(locs)
    }
}

pub open spec fn file_step(via: Option<ViaV>) -> spec_fn(
    Trace,
    Seq<ScanLocationV>,
    Seq<char>,
) -> Out<Seq<ScanLocationV>> {
    |t: Trace, locs: Seq<ScanLocationV>, path: Seq<char>| add_if_file_spec(t, locs, path, via)
}

fn add_files(tape: &mut Tape, locs: Vec<ScanLocation>, paths: &Vec<String>, via: &Option<Via>) -> (r:
    Result<Vec<ScanLocation>, Stop>)
    ensures
        agrees(
            r,
            final(tape)@,
            each(
                old(tape)@,
                paths.deep_view(),
                locs.deep_view(),
                file_step(via.deep_view()),
            ),
        ),
{
    let ghost l0 = locs.deep_view();
    let mut out = locs;
    let ghost t0 = tape@;
    let ghost all = paths.deep_view();
    let ghost step = file_step(via.deep_view());
    assert(all.skip(0) =~= all);
    for i in 0..paths.len()
        invariant
            t0 == old(tape)@,
            all == paths.deep_view(),
            step == file_step(via.deep_view()),
            l0 == locs.deep_view(),
            each(t0, all, l0, step) == each(tape@, all.skip(i as int), out.deep_view(), step),
    {
        proof {
            lemma_each_step(all, i as int);
        }
        assert(all[i as int] == paths@[i as int]@);
        out = add_if_file(tape, out, &paths[i], via)?;
    }
    Ok(out)
}

/// The files that a line of the primary file loads.
#[verifier::opaque]
pub open spec fn follow_spec(
    t: Trace,
    env: ShellEnvV,
    primary: Seq<char>,
    base_dir: Seq<char>,
    locs: Seq<ScanLocationV>,
    line_no: nat,
    line: Seq<char>,
) -> Out<Seq<ScanLocationV>> {
    let via = Some(ViaV { path: primary, line_no });
    match source_args_spec(env, base_dir, line) {
        Some(SourceArgV::File(p)) => add_if_file_spec(t, locs, p, via),
        Some(SourceArgV::Glob(p)) => bind(
            expand_glob_spec(t, p),
            |paths: Seq<Seq<char>>, t: Trace| each(t, paths, locs, file_step(via)),
        ),
        _ => Out::Got(locs, t),
    }
}

fn follow(
    tape: &mut Tape,
    env: &ShellEnv,
    primary: &str,
    base_dir: &str,
    locs: Vec<ScanLocation>,
    line_no: usize,
    line: &str,
) -> (r: Result<Vec<ScanLocation>, Stop>)
    ensures
        agrees(
            r,
            final(tape)@,
            follow_spec(
                old(tape)@,
                env.deep_view(),
                primary@,
                base_dir@,
                locs.deep_view(),
                line_no as nat,
                line@,
            ),
        ),
{
    reveal(follow_spec);
    let via = Some(Via { path: primary.to_string(), line_no });
    match extract_source_args(env, base_dir, line) {
        Some(SourceArg::File(p)) => add_if_file(tape, locs, &p, &via),
        Some(SourceArg::Glob(p)) => {
            let paths = expand_glob(tape, &p)?;
            add_files(tape, locs, &paths, &via)
        },
        _ => Ok(locs),
    }
}

pub open spec fn follow_step(env: ShellEnvV, primary: Seq<char>, base_dir: Seq<char>) -> spec_fn(
    Trace,
    (Seq<ScanLocationV>, nat),
    Seq<char>,
) -> Out<(Seq<ScanLocationV>, nat)> {
    |t: Trace, a: (Seq<ScanLocationV>, nat), line: Seq<char>|
        bind(
            follow_spec(t, env, primary, base_dir, a.0, a.1 + 1, line),
            |locs: Seq<ScanLocationV>, t: Trace| Out::Got((locs, a.1 + 1), t),
        )
}

/// The directory of a file.
pub open spec fn dir_of(path: Seq<char>) -> Seq<char> {
    match parent_spec(path) {
        Some(d) => d,
        None => "/"@,
    }
}

fn dir_or_root(path: &str) -> (r: String)
    ensures
        r@ == dir_of(path@),
{
    match parent(path) {
        Some(d) => d,
        None => "/".to_string(),
    }
}

/// The files that the text of the primary file loads.
pub open spec fn sourced_spec(
    t: Trace,
    env: ShellEnvV,
    primary: Seq<char>,
    locs: Seq<ScanLocationV>,
    text: Seq<char>,
) -> Out<Seq<ScanLocationV>> {
    bind(
        each(t, lines_spec(text), (locs, 0nat), follow_step(env, primary, dir_of(primary))),
        |a: (Seq<ScanLocationV>, nat), t: Trace| Out::Got(a.0, t),
    )
}

fn add_sourced(
    tape: &mut Tape,
    env: &ShellEnv,
    primary: &str,
    locs: Vec<ScanLocation>,
    text: &str,
) -> (r: Result<Vec<ScanLocation>, Stop>)
    ensures
        agrees(
            r,
            final(tape)@,
            sourced_spec(old(tape)@, env.deep_view(), primary@, locs.deep_view(), text@),
        ),
{
    let base_dir = dir_or_root(primary);
    let rows = lines(text);
    let ghost a0 = (locs.deep_view(), 0nat);
    let mut out = locs;
    let ghost t0 = tape@;
    let ghost all = rows.deep_view();
    let ghost step = follow_step(env.deep_view(), primary@, dir_of(primary@));
    assert(all.skip(0) =~= all);
    for i in 0..rows.len()
        invariant
            t0 == old(tape)@,
            all == rows.deep_view(),
            step == follow_step(env.deep_view(), primary@, dir_of(primary@)),
            a0 == (locs.deep_view(), 0nat),
            base_dir@ == dir_of(primary@),
            all == lines_spec(text@),
            each(t0, all, a0, step) == each(tape@, all.skip(i as int), (out.deep_view(), i as nat), step),
    {
        proof {
            lemma_each_step(all, i as int);
        }
        assert(all[i as int] == rows@[i as int]@);
        out = follow(tape, env, primary, &base_dir, out, i + 1, &rows[i])?;
    }
    Ok(out)
}

#[verifier::opaque]
pub open spec fn scan_locations_spec(
    t: Trace,
    env: ShellEnvV,
    shell: Seq<char>,
    primary: Seq<char>,
) -> Out<Seq<ScanLocationV>> {
    bind(
        usual_places_spec(t, env, shell, primary),
        |locs: Seq<ScanLocationV>, t: Trace|
            if shell != "zsh"@ && shell != "bash"@ {
                Out::Got(locs, t)
            } else {
                bind(
                    holds_spec(t, at_spec(Act::IsFile, primary)),
                    |yes: bool, t: Trace|
                        if !yes {
                            Out::Got(locs, t)
                        } else {
                            bind(
                                fetch_spec(t, at_spec(Act::ReadFile, primary)),
                                |text: Option<Seq<char>>, t: Trace|
                                    sourced_spec(t, env, primary, locs, or_empty(text)),
                            )
                        },
                )
            },
    )
}

/// The files to look at: the primary one, those that the shell reads by itself, and for zsh and bash
/// those that the primary one loads.
pub fn scan_locations(
    tape: &mut Tape,
    env: &ShellEnv,
    shell: &str,
    primary: &str,
) -> (r: Result<Vec<ScanLocation>, Stop>)
    ensures
        agrees(r, final(tape)@, scan_locations_spec(old(tape)@, env.deep_view(), shell@, primary@)),
{
    reveal(scan_locations_spec);
    let locs = usual_places(tape, env, shell, primary)?;
    if !same(shell, "zsh") && !same(shell, "bash") {
        return Ok(locs);
    }
    if !holds(tape, at(Act::IsFile, primary))? {
        return Ok(locs);
    }
    let text = match fetch(tape, at(Act::ReadFile, primary))? {
        Some(s) => s,
        None => {
            let s = String::new();
            assert(s@ =~= Seq::<char>::empty());
            s
        },
    };
    add_sourced(tape, env, primary, locs, &text)
}

// ---------------------------------------------------------------------------
// What the files say
// ---------------------------------------------------------------------------

/// Does the position lie in one of the ranges?
pub open spec fn covered(ranges: Seq<(nat, nat)>, pos: nat) -> bool {
    exists|i: int| 0 <= i < ranges.len() && #[trigger] ranges[i].0 <= pos < ranges[i].1
}

fn is_covered(ranges: &Vec<(usize, usize)>, pos: usize) -> (r: bool)
    ensures
        r == covered(spans(ranges@), pos as nat),
{
    for i in 0..ranges.len()
        invariant
            forall|j: int|
                0 <= j < i ==> !(#[trigger] spans(ranges@)[j].0 <= pos < spans(ranges@)[j].1),
    {
        assert(spans(ranges@)[i as int] == (ranges@[i as int].0 as nat, ranges@[i as int].1 as nat));
        if ranges[i].0 <= pos && pos < ranges[i].1 {
            return true;
        }
    }
    false
}

/// What a line outside of the blocks says.
pub open spec fn line_hits(
    env: ShellEnvV,
    path: Seq<char>,
    via: Option<ViaV>,
    line_no: nat,
    text: Seq<char>,
) -> Seq<HitV> {
    if legacy_spec(text) {
        seq![HitV { path, line_no, line_text: text, kind: HitKindV::Legacy, via }]
    } else {
        match source_args_spec(env, dir_of(path), text) {
            Some(SourceArgV::Unresolved(raw)) => seq![
                HitV { path, line_no, line_text: text, kind: HitKindV::UnresolvedSource(raw), via },
            ],
            _ => Seq::empty(),
        }
    }
}

/// What the lines of `s` say that stand outside of the blocks; `pos` bytes and `line` lines
/// go before.
pub open spec fn legacy_hits(
    env: ShellEnvV,
    path: Seq<char>,
    via: Option<ViaV>,
    ranges: Seq<(nat, nat)>,
    pos: nat,
    line: nat,
    s: Seq<char>,
) -> Seq<HitV>
    decreases s.len(),
    via legacy_decreases
{
    if s.len() == 0 {
        Seq::empty()
    } else {
        let n = row_len(s);
        let here = if covered(ranges, pos) {
            Seq::empty()
        } else {
            line_hits(
                env,
                path,
                via,
                line + 1,
                trim_end_spec(s.take(n as int), Cut::Only('\n')),
            )
        };
        here + legacy_hits(
            env,
            path,
            via,
            ranges,
            pos + bytes_of(s.take(n as int)),
            line + 1,
            s.skip(n as int),
        )
    }
}

#[via_fn]
proof fn legacy_decreases(
    env: ShellEnvV,
    path: Seq<char>,
    via: Option<ViaV>,
    ranges: Seq<(nat, nat)>,
    pos: nat,
    line: nat,
    s: Seq<char>,
) {
    if s.len() > 0 {
        lemma_row_len(s);
    }
}

/// What a line outside of the blocks says, if anything.
fn line_hit(
    env: &ShellEnv,
    base_dir: &str,
    path: &str,
    via: &Option<Via>,
    line_no: usize,
    text: String,
) -> (r: Option<Hit>)
    requires
        base_dir@ == dir_of(path@),
    ensures
        line_hits(env.deep_view(), path@, via.deep_view(), line_no as nat, text@) == (match r {
            Some(h) => seq![h.deep_view()],
            None => Seq::empty(),
        }),
{
    let kind = if is_legacy_line(&text) {
        HitKind::Legacy
    } else {
        match extract_source_args(env, base_dir, &text) {
            Some(SourceArg::Unresolved(raw)) => HitKind::UnresolvedSource(raw),
            _ => {
                return None;
            },
        }
    };
    Some(Hit { path: path.to_string(), line_no, line_text: text, kind, via: copy_via(via) })
}

/// The lines of a file outside of its blocks that load the integration, or a file that cannot be
/// told.
pub fn scan_for_legacy(
    env: &ShellEnv,
    path: &str,
    contents: &str,
    marker_ranges: &Vec<(usize, usize)>,
    via: &Option<Via>,
) -> (r: Vec<Hit>)
    ensures
        r.deep_view() == legacy_hits(
            env.deep_view(),
            path@,
            via.deep_view(),
            spans(marker_ranges@),
            0,
            0,
            contents@,
        ),
{
    let base_dir = dir_or_root(path);
    let cs = chars_of(contents);
    let n = cs.len();
    let total = byte_len(contents);
    let mut i: usize = 0;
    let mut pos: usize = 0;
    let mut line: usize = 0;
    let mut out: Vec<Hit> = Vec::new();
    let ghost e = env.deep_view();
    let ghost v = via.deep_view();
    let ghost rs = spans(marker_ranges@);
    let ghost whole = legacy_hits(e, path@, v, rs, 0, 0, contents@);
    assert(contents@.skip(0) =~= contents@);
    assert(contents@.take(0) =~= Seq::empty());
    assert(out.deep_view() + whole =~= whole);
    while i < n
        invariant
            line <= i <= n,
            total == bytes_of(contents@),
            pos == bytes_of(contents@.take(i as int)),
            n == cs@.len(),
            cs@ == contents@,
            base_dir@ == dir_of(path@),
            e == env.deep_view(),
            v == via.deep_view(),
            rs == spans(marker_ranges@),
            whole == out.deep_view() + legacy_hits(
                e,
                path@,
                v,
                rs,
                pos as nat,
                line as nat,
                contents@.skip(i as int),
            ),
        decreases n - i,
    {
        let ghost before = out.deep_view();
        let (next, row, end) = cut_row(&cs, i, pos, total);
        let ghost tail = legacy_hits(
            e,
            path@,
            v,
            rs,
            end as nat,
            line as nat + 1,
            contents@.skip(next as int),
        );
        let hit = if is_covered(marker_ranges, pos) {
            None
        } else {
            let text = trim_end(&row, Cut::Only('\n'));
            line_hit(env, &base_dir, path, via, line + 1, text)
        };
        match hit {
            Some(h) => {
                let ghost x = h.deep_view();
                out.push(h);
                assert(out.deep_view() =~= before.push(x));
                assert(before + (seq![x] + tail) =~= before.push(x) + tail);
            },
            None => {
                assert(before + (Seq::<HitV>::empty() + tail) =~= before + tail);
            },
        }
        i = next;
        pos = end;
        line = line + 1;
    }
    assert(contents@.skip(n as int) =~= Seq::empty());
    assert(out.deep_view() + Seq::<HitV>::empty() =~= out.deep_view());
    out
}

/// Everything that a file says about ji.
pub open spec fn hits_in(
    env: ShellEnvV,
    path: Seq<char>,
    via: Option<ViaV>,
    contents: Seq<char>,
) -> Seq<HitV> {
    marks_of(path, via, contents) + legacy_hits(
        env,
        path,
        via,
        ranges_of(path, via, contents),
        0,
        0,
        contents,
    )
}

#[verifier::opaque]
pub open spec fn look_at_spec(
    t: Trace,
    env: ShellEnvV,
    loc: ScanLocationV,
    hits: Seq<HitV>,
) -> Out<Seq<HitV>> {
    bind(
        holds_spec(t, at_spec(Act::IsFile, loc.path)),
        |yes: bool, t: Trace|
            if !yes {
                Out::Got(hits, t)
            } else {
                bind(
                    need_spec(t, at_spec(Act::ReadFile, loc.path), "failed to read "@ + loc.path),
                    |text: Seq<char>, t: Trace|
                        Out::Got(hits + hits_in(env, loc.path, loc.via, text), t),
                )
            },
    )
}

fn look_at(
    tape: &mut Tape,
    env: &ShellEnv,
    loc: &ScanLocation,
    hits: Vec<Hit>,
) -> (r: Result<Vec<Hit>, Stop>)
    ensures
        agrees(
            r,
            final(tape)@,
            look_at_spec(old(tape)@, env.deep_view(), loc.deep_view(), hits.deep_view()),
        ),
{
    reveal(look_at_spec);
    if !holds(tape, at(Act::IsFile, &loc.path))? {
        return Ok(hits);
    }
    let text = need(
        tape,
        at(Act::ReadFile, &loc.path),
        &cat2("failed to read ", &loc.path),
    )?;
    let (ranges, marks) = find_marker_blocks(&loc.path, &text, &loc.via);
    let legacy = scan_for_legacy(env, &loc.path, &text, &ranges, &loc.via);
    let ghost h0 = hits.deep_view();
    let ghost m0 = marks.deep_view();
    let ghost l0 = legacy.deep_view();
    let mut out = hits;
    let mut more = marks;
    let mut rest = legacy;
    out.append(&mut more);
    out.append(&mut rest);
    assert(out.deep_view() =~= h0 + (m0 + l0));
    Ok(out)
}

pub open spec fn look_step(env: ShellEnvV) -> spec_fn(Trace, Seq<HitV>, ScanLocationV) -> Out<
    Seq<HitV>,
> {
    |t: Trace, hits: Seq<HitV>, loc: ScanLocationV| look_at_spec(t, env, loc, hits)
}

#[verifier::opaque]
pub open spec fn find_hits_spec(
    t: Trace,
    locations: Seq<ScanLocationV>,
    env: ShellEnvV,
) -> Out<Seq<HitV>> {
    each(t, locations, Seq::<HitV>::empty(), look_step(env))
}

/// What the files say about ji.
pub fn find_hits(
    tape: &mut Tape,
    locations: &Vec<ScanLocation>,
    env: &ShellEnv,
) -> (r: Result<Vec<Hit>, Stop>)
    ensures
        agrees(r, final(tape)@, find_hits_spec(old(tape)@, locations.deep_view(), env.deep_view())),
{
    reveal(find_hits_spec);
    let mut out: Vec<Hit> = Vec::new();
    assert(out.deep_view() =~= Seq::<HitV>::empty());
    let ghost t0 = tape@;
    let ghost all = locations.deep_view();
    let ghost step = look_step(env.deep_view());
    assert(all.skip(0) =~= all);
    for i in 0..locations.len()
        invariant
            t0 == old(tape)@,
            all == locations.deep_view(),
            step == look_step(env.deep_view()),
            find_hits_spec(t0, all, env.deep_view()) == each(t0, all, Seq::<HitV>::empty(), step),
            each(t0, all, Seq::<HitV>::empty(), step) == each(tape@, all.skip(i as int), out.deep_view(), step),
    {
        proof {
            lemma_each_step(all, i as int);
        }
        assert(all[i as int] == locations@[i as int].deep_view());
        out = look_at(tape, env, &locations[i], out)?;
    }
    Ok(out)
}

} // verus!
