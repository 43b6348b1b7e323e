//! Hooks and file templates of new workspaces, and the variables they use.

use vstd::prelude::*;

use crate::jj_parse::or_empty;
use crate::jj_run::{jj, jj_spec, log_args, log_args_spec};
use crate::jujutsu::{ws_rev, ws_rev_spec};
use crate::paths::{parent, parent_spec, path_join, path_join_spec};
use crate::search::{replace, replace_spec};
use crate::tape::{
    agrees, ask, ask_spec, at, at_spec, bind, each, failure, failure_spec, fetch, fetch_spec,
    labelled, labelled_spec, lemma_each_append, lemma_each_step, need, need_spec, request,
    request_spec, tell, tell_spec, Act, Failure, FailureV, Kind, Out, ReplyV, Stop, Tape, Trace,
};
use crate::templates::{expand, expand_spec, HookVars};
use crate::text::{args1, args2, cat2, cat3, cat4, cat5, cat6};
use crate::text_map::{put_spec, Pairs, TextMap};

verus! {

// ---------------------------------------------------------------------------
// Variables
// ---------------------------------------------------------------------------

/// The variables that are known before a workspace exists.
pub open spec fn path_vars_of(
    home: Seq<char>,
    repo_root: Seq<char>,
    bookmark: Seq<char>,
    repo_name: Seq<char>,
) -> Pairs {
    put_spec(
        put_spec(
            put_spec(
                put_spec(Seq::empty(), "home"@, home),
                "repo"@,
                repo_name,
            ),
            "bookmark"@,
            replace_spec(bookmark, "/"@, "-"@),
        ),
        "default_workspace_path"@,
        repo_root,
    )
}

#[verifier::opaque]
pub open spec fn path_vars_spec(
    t: Trace,
    repo_root: Seq<char>,
    bookmark: Seq<char>,
    repo_name: Seq<char>,
) -> Out<Pairs> {
    bind(
        fetch_spec(t, at_spec(Act::EnvVar, "HOME"@)),
        |home: Option<Seq<char>>, t: Trace|
            Out::Got(path_vars_of(or_empty(home), repo_root, bookmark, repo_name), t),
    )
}

/// The variables for the path of a new workspace. Slashes in the bookmark become dashes.
pub fn path_vars(
    tape: &mut Tape,
    repo_root: &str,
    bookmark: &str,
    repo_name: &str,
) -> (r: Result<HookVars, Stop>)
    ensures
        agrees(r, final(tape)@, path_vars_spec(old(tape)@, repo_root@, bookmark@, repo_name@)),
{
    reveal(path_vars_spec);
    proof {
        reveal_strlit("/");
    }
    let home = match fetch(tape, at(Act::EnvVar, "HOME"))? {
        Some(h) => h,
        None => {
            let s = String::new();
            assert(s@ =~= Seq::<char>::empty());
            s
        },
    };
    let sanitized = replace(bookmark, "/", "-");
    Ok(
        TextMap::new().with("home", &home).with("repo", repo_name).with(
            "bookmark",
            &sanitized,
        ).with("default_workspace_path", repo_root),
    )
}

#[verifier::opaque]
pub open spec fn hook_vars_spec(
    t: Trace,
    repo: Seq<char>,
    ws_path: Seq<char>,
    ws_name: Seq<char>,
    bookmark: Seq<char>,
    repo_name: Seq<char>,
) -> Out<Pairs> {
    bind(
        path_vars_spec(t, repo, bookmark, repo_name),
        |vars: Pairs, t: Trace|
            bind(
                jj_spec(t, Act::JjRepo, repo, log_args_spec(ws_rev_spec(ws_name), "change_id"@)),
                |id: Seq<char>, t: Trace|
                    Out::Got(
                        put_spec(
                            put_spec(
                                put_spec(vars, "workspace_path"@, ws_path),
                                "workspace_name"@,
                                ws_name,
                            ),
                            "change_id"@,
                            id,
                        ),
                        t,
                    ),
            ),
    )
}

/// The variables for the hooks and templates of a workspace.
pub fn hook_vars(
    tape: &mut Tape,
    repo: &str,
    ws_path: &str,
    ws_name: &str,
    bookmark: &str,
    repo_name: &str,
) -> (r: Result<HookVars, Stop>)
    ensures
        agrees(
            r,
            final(tape)@,
            hook_vars_spec(old(tape)@, repo@, ws_path@, ws_name@, bookmark@, repo_name@),
        ),
{
    reveal(hook_vars_spec);
    let vars = path_vars(tape, repo, bookmark, repo_name)?;
    let id = jj(tape, Act::JjRepo, repo, log_args(&ws_rev(ws_name), "change_id"))?;
    Ok(
        vars.with("workspace_path", ws_path).with("workspace_name", ws_name).with("change_id", &id),
    )
}

// ---------------------------------------------------------------------------
// Hooks
// ---------------------------------------------------------------------------

/// Says something unless the run is quiet.
pub open spec fn say_spec(t: Trace, quiet: bool, msg: Seq<char>) -> Out<()> {
    if quiet {
        Out::Got((), t)
    } else {
        tell_spec(t, Act::Warn, msg)
    }
}

fn say(tape: &mut Tape, quiet: bool, msg: String) -> (r: Result<(), Stop>)
    ensures
        agrees(r, final(tape)@, say_spec(old(tape)@, quiet, msg@)),
{
    if quiet {
        Ok(())
    } else {
        tell(tape, Act::Warn, msg)
    }
}

#[verifier::opaque]
pub open spec fn run_one_spec(
    t: Trace,
    label: Seq<char>,
    name: Seq<char>,
    cmd: Seq<char>,
    cwd: Seq<char>,
    quiet: bool,
) -> Out<()> {
    bind(
        say_spec(t, quiet, "(ji)::hook running "@ + label + "/"@ + name + ": "@ + cmd),
        |u: (), t: Trace|
            bind(
                ask_spec(
                    t,
                    labelled_spec(Act::RunHook, cwd, seq![cmd], label + "/"@ + name),
                ),
                |r: ReplyV, t: Trace|
                    match r.kind {
                        Kind::Done => Out::Got((), t),
                        Kind::Nonzero => Out::Fail(
                            failure_spec(label + "/"@ + name + " failed with "@ + r.err),
                            t,
                        ),
                        _ => Out::Fail(
                            FailureV {
                                chain: seq!["failed to run "@ + label + "/"@ + name, r.err],
                                command: None,
                            },
                            t,
                        ),
                    },
            ),
    )
}

fn run_one(
    tape: &mut Tape,
    label: &str,
    name: &str,
    cmd: &str,
    cwd: &str,
    quiet: bool,
) -> (r: Result<(), Stop>)
    ensures
        agrees(r, final(tape)@, run_one_spec(old(tape)@, label@, name@, cmd@, cwd@, quiet)),
{
    reveal(run_one_spec);
    say(tape, quiet, cat6("(ji)::hook running ", label, "/", name, ": ", cmd))?;
    let hook = cat3(label, "/", name);
    let r = ask(tape, labelled(Act::RunHook, cwd, args1(cmd), &hook))?;
    match r.kind {
        Kind::Done => Ok(()),
        Kind::Nonzero => Err(Stop::Fail(failure(cat5(label, "/", name, " failed with ", &r.err)))),
        _ => {
            let doing = cat4("failed to run ", label, "/", name);
            Err(Stop::Fail(Failure { chain: args2(&doing, &r.err), command: None }))
        },
    }
}

pub open spec fn run_step(label: Seq<char>, vars: Pairs, cwd: Seq<char>, quiet: bool) -> spec_fn(
    Trace,
    (),
    (Seq<char>, Seq<char>),
) -> Out<()> {
    |t: Trace, u: (), h: (Seq<char>, Seq<char>)|
        run_one_spec(t, label, h.0, expand_spec(h.1, vars), cwd, quiet)
}

#[verifier::opaque]
pub open spec fn run_blocking_spec(
    t: Trace,
    label: Seq<char>,
    hooks: Pairs,
    vars: Pairs,
    cwd: Seq<char>,
    quiet: bool,
) -> Out<()> {
    each(t, hooks, (), run_step(label, vars, cwd, quiet))
}

/// Runs hooks in turn; the first that fails ends it.
pub fn run_blocking(
    tape: &mut Tape,
    label: &str,
    hooks: &TextMap,
    vars: &TextMap,
    cwd: &str,
    quiet: bool,
) -> (r: Result<(), Stop>)
    ensures
        agrees(
            r,
            final(tape)@,
            run_blocking_spec(
                old(tape)@,
                label@,
                hooks.deep_view(),
                vars.deep_view(),
                cwd@,
                quiet,
            ),
        ),
{
    reveal(run_blocking_spec);
    let ghost t0 = tape@;
    let ghost all = hooks.deep_view();
    let ghost step = run_step(label@, vars.deep_view(), cwd@, quiet);
    let n = hooks.len();
    assert(all.skip(0) =~= all);
    for i in 0..n
        invariant
            t0 == old(tape)@,
            n == all.len(),
            all == hooks.deep_view(),
            step == run_step(label@, vars.deep_view(), cwd@, quiet),
            run_blocking_spec(t0, label@, all, vars.deep_view(), cwd@, quiet) == each(t0, all, (), step),
            each(t0, all, (), step) == each(tape@, all.skip(i as int), (), step),
    {
        proof {
            lemma_each_step(all, i as int);
        }
        let cmd = expand(hooks.value(i), vars);
        run_one(tape, label, hooks.key(i), &cmd, cwd, quiet)?;
    }
    Ok(())
}

#[verifier::opaque]
pub open spec fn write_one_spec(
    t: Trace,
    ws_root: Seq<char>,
    rel_path: Seq<char>,
    content: Seq<char>,
    quiet: bool,
) -> Out<()> {
    let dest = path_join_spec(ws_root, rel_path);
    bind(
        match parent_spec(dest) {
            None => Out::Got(Seq::empty(), t),
            Some(dir) => need_spec(
                t,
                at_spec(Act::MakeDirs, dir),
                "failed to create directory for "@ + rel_path,
            ),
        },
        |s: Seq<char>, t: Trace|
            bind(
                need_spec(
                    t,
                    request_spec(Act::WriteFile, dest, seq![content]),
                    "failed to write template "@ + rel_path,
                ),
                |s: Seq<char>, t: Trace|
                    say_spec(t, quiet, "(ji)::template wrote "@ + rel_path),
            ),
    )
}

fn write_one(
    tape: &mut Tape,
    ws_root: &str,
    rel_path: &str,
    content: &str,
    quiet: bool,
) -> (r: Result<(), Stop>)
    ensures
        agrees(r, final(tape)@, write_one_spec(old(tape)@, ws_root@, rel_path@, content@, quiet)),
{
    reveal(write_one_spec);
    let dest = path_join(ws_root, rel_path);
    if let Some(dir) = parent(&dest) {
        let _ = need(
            tape,
            at(Act::MakeDirs, &dir),
            &cat2("failed to create directory for ", rel_path),
        )?;
    }
    let _ = need(
        tape,
        request(Act::WriteFile, &dest, args1(content)),
        &cat2("failed to write template ", rel_path),
    )?;
    say(tape, quiet, cat2("(ji)::template wrote ", rel_path))
}

pub open spec fn write_step(vars: Pairs, ws_root: Seq<char>, quiet: bool) -> spec_fn(
    Trace,
    (),
    (Seq<char>, Seq<char>),
) -> Out<()> {
    |t: Trace, u: (), f: (Seq<char>, Seq<char>)|
        write_one_spec(t, ws_root, f.0, expand_spec(f.1, vars), quiet)
}

#[verifier::opaque]
pub open spec fn write_templates_spec(
    t: Trace,
    templates: Pairs,
    vars: Pairs,
    ws_root: Seq<char>,
    quiet: bool,
) -> Out<()> {
    each(t, templates, (), write_step(vars, ws_root, quiet))
}

/// Writes file templates with their variables expanded.
pub fn write_templates(
    tape: &mut Tape,
    templates: &TextMap,
    vars: &TextMap,
    ws_root: &str,
    quiet: bool,
) -> (r: Result<(), Stop>)
    ensures
        agrees(
            r,
            final(tape)@,
            write_templates_spec(
                old(tape)@,
                templates.deep_view(),
                vars.deep_view(),
                ws_root@,
                quiet,
            ),
        ),
{
    reveal(write_templates_spec);
    let ghost t0 = tape@;
    let ghost all = templates.deep_view();
    let ghost step = write_step(vars.deep_view(), ws_root@, quiet);
    let n = templates.len();
    assert(all.skip(0) =~= all);
    for i in 0..n
        invariant
            t0 == old(tape)@,
            n == all.len(),
            all == templates.deep_view(),
            step == write_step(vars.deep_view(), ws_root@, quiet),
            write_templates_spec(t0, all, vars.deep_view(), ws_root@, quiet) == each(t0, all, (), step),
            each(t0, all, (), step) == each(tape@, all.skip(i as int), (), step),
    {
        proof {
            lemma_each_step(all, i as int);
        }
        let content = expand(templates.value(i), vars);
        write_one(tape, ws_root, templates.key(i), &content, quiet)?;
    }
    Ok(())
}

#[verifier::opaque]
pub open spec fn start_one_spec(
    t: Trace,
    label: Seq<char>,
    name: Seq<char>,
    cmd: Seq<char>,
    cwd: Seq<char>,
    quiet: bool,
) -> Out<()> {
    bind(
        say_spec(t, quiet, "(ji)::hook starting "@ + label + "/"@ + name + ": "@ + cmd),
        |u: (), t: Trace|
            bind(
                ask_spec(t, request_spec(Act::StartHook, cwd, seq![cmd])),
                |r: ReplyV, t: Trace|
                    if r.kind == Kind::Done {
                        Out::Got((), t)
                    } else {
                        say_spec(
                            t,
                            quiet,
                            "(ji)::hook failed to start "@ + label + "/"@ + name + ": "@ + r.err,
                        )
                    },
            ),
    )
}

fn start_one(
    tape: &mut Tape,
    label: &str,
    name: &str,
    cmd: &str,
    cwd: &str,
    quiet: bool,
) -> (r: Result<(), Stop>)
    ensures
        agrees(r, final(tape)@, start_one_spec(old(tape)@, label@, name@, cmd@, cwd@, quiet)),
{
    reveal(start_one_spec);
    say(tape, quiet, cat6("(ji)::hook starting ", label, "/", name, ": ", cmd))?;
    let r = ask(tape, request(Act::StartHook, cwd, args1(cmd)))?;
    if r.kind == Kind::Done {
        Ok(())
    } else {
        say(tape, quiet, cat6("(ji)::hook failed to start ", label, "/", name, ": ", &r.err))
    }
}

pub open spec fn start_step(label: Seq<char>, vars: Pairs, cwd: Seq<char>, quiet: bool) -> spec_fn(
    Trace,
    (),
    (Seq<char>, Seq<char>),
) -> Out<()> {
    |t: Trace, u: (), h: (Seq<char>, Seq<char>)|
        start_one_spec(t, label, h.0, expand_spec(h.1, vars), cwd, quiet)
}

#[verifier::opaque]
pub open spec fn run_background_spec(
    t: Trace,
    label: Seq<char>,
    hooks: Pairs,
    vars: Pairs,
    cwd: Seq<char>,
    quiet: bool,
) -> Out<()> {
    each(t, hooks, (), start_step(label, vars, cwd, quiet))
}

/// Starts hooks and does not wait for them.
pub fn run_background(
    tape: &mut Tape,
    label: &str,
    hooks: &TextMap,
    vars: &TextMap,
    cwd: &str,
    quiet: bool,
) -> (r: Result<(), Stop>)
    ensures
        agrees(
            r,
            final(tape)@,
            run_background_spec(
                old(tape)@,
                label@,
                hooks.deep_view(),
                vars.deep_view(),
                cwd@,
                quiet,
            ),
        ),
{
    reveal(run_background_spec);
    let ghost t0 = tape@;
    let ghost all = hooks.deep_view();
    let ghost step = start_step(label@, vars.deep_view(), cwd@, quiet);
    let n = hooks.len();
    assert(all.skip(0) =~= all);
    for i in 0..n
        invariant
            t0 == old(tape)@,
            n == all.len(),
            all == hooks.deep_view(),
            step == start_step(label@, vars.deep_view(), cwd@, quiet),
            run_background_spec(t0, label@, all, vars.deep_view(), cwd@, quiet) == each(
                t0,
                all,
                (),
                step,
            ),
            each(t0, all, (), step) == each(tape@, all.skip(i as int), (), step),
    {
        proof {
            lemma_each_step(all, i as int);
        }
        let cmd = expand(hooks.value(i), vars);
        start_one(tape, label, hooks.key(i), &cmd, cwd, quiet)?;
    }
    Ok(())
}

// ---------------------------------------------------------------------------
// Laws
// ---------------------------------------------------------------------------

/// Blocking hooks run one after another: the later ones when the earlier ones are done, and not at
/// all after one has failed.
pub proof fn law_hooks_run_in_turn(
    t: Trace,
    label: Seq<char>,
    first: Pairs,
    rest: Pairs,
    vars: Pairs,
    cwd: Seq<char>,
    quiet: bool,
)
    ensures
        run_blocking_spec(t, label, first + rest, vars, cwd, quiet) == (match run_blocking_spec(
            t,
            label,
            first,
            vars,
            cwd,
            quiet,
        ) {
            Out::Ask(q) => Out::Ask(q),
            Out::Fail(e, u) => Out::Fail(e, u),
            Out::Got(_, u) => run_blocking_spec(u, label, rest, vars, cwd, quiet),
        }),
{
    reveal(run_blocking_spec);
    lemma_each_append(t, first, rest, (), run_step(label, vars, cwd, quiet));
}

} // verus!
