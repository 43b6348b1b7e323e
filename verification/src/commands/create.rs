//! Creating a workspace.

use vstd::prelude::*;
use super::types::{CreateResult, CreateResultV};

use crate::config::{Config, ConfigV};
use crate::finder_xattrs::{capture_spec, restore_new_spec, restore_spec, XattrGuard, XattrGuardV};
use crate::hooks::{
    hook_vars, hook_vars_spec, path_vars, path_vars_of, path_vars_spec, run_background,
    run_background_spec, run_blocking, run_blocking_spec, write_templates, write_templates_spec,
};
use crate::jj_parse::or_empty;
use crate::jujutsu::{snapshot_ws, snapshot_ws_spec};
use crate::operations::{create_workspace, create_workspace_spec};
use crate::paths::{
    components_spec, is_absolute, is_absolute_spec, name_or_empty, name_or_empty_spec,
    normalize_path, normalize_spec, path_join, path_join_spec, same_components,
};
use crate::replay::{
    group_rest, is_rest, left, lemma_rest, replays_absolute, replays_path_vars,
    replays_paths_equivalent, replays_validate_resolved_path,
};
use crate::revisions::{create_bookmark, create_bookmark_spec};
use crate::search::{contains, contains_spec};
use crate::stale::{update_workspace_stale, update_workspace_stale_spec};
use crate::tape::{
    agrees, at, at_spec, attempt, attempt_spec, bind, failure, failure_spec, fetch, fetch_spec,
    holds, holds_spec, need, need_spec, within, within_spec, Act, FailureV, Kind, Out, Stop, Tape,
    Trace,
};
use crate::tape::Kind::Done;
use crate::templates::{expand, expand_spec};
use crate::text::{borrow_opt, cat2, cat3, chain};
use crate::text_map::{Pairs, TextMap};

verus! {

/// What a creation needs to know, owning its data.
#[derive(Debug)]
pub struct CreateParamsOwned {
    pub repo_root: String,
    pub config: Config,
    pub repo_name: String,
    pub bookmark: String,
    pub revision: String,
    pub source_ws_path: String,
    pub ws_path: String,
    pub msg: String,
}

// ---------------------------------------------------------------------------
// Creation
// ---------------------------------------------------------------------------

/// `m` without its result. When quiet a failure counts for nothing, else it gets a message.
pub open spec fn tolerated<A>(m: Out<A>, quiet: bool, msg: Seq<char>) -> Out<()> {
    match m {
        Out::Ask(q) => Out::Ask(q),
        Out::Fail(e, t) => if quiet {
            Out::Got((), t)
        } else {
            Out::Fail(within_spec(e, msg), t)
        },
        Out::Got(a, t) => Out::Got((), t),
    }
}

fn tolerate(r: Result<(), Stop>, quiet: bool, msg: &str) -> (x: Result<(), Stop>)
    ensures
        match (r, x) {
            (Ok(_), Ok(_)) => true,
            (Err(Stop::Ask(q)), Err(Stop::Ask(p))) => p == q,
            (Err(Stop::Fail(e)), Ok(_)) => quiet,
            (Err(Stop::Fail(e)), Err(Stop::Fail(f))) => !quiet && f.deep_view() == within_spec(
                e.deep_view(),
                msg@,
            ),
            _ => false,
        },
{
    match r {
        Ok(()) => Ok(()),
        Err(Stop::Ask(q)) => Err(Stop::Ask(q)),
        Err(Stop::Fail(e)) => if quiet {
            Ok(())
        } else {
            Err(Stop::Fail(within(e, msg)))
        },
    }
}

/// File templates, then the hooks to wait for, then the others.
#[verifier::opaque]
pub open spec fn start_spec(
    t: Trace,
    config: ConfigV,
    vars: Pairs,
    ws_path: Seq<char>,
    quiet: bool,
) -> Out<()> {
    bind(
        tolerated(
            write_templates_spec(t, config.templates, vars, ws_path, quiet),
            quiet,
            "write templates"@,
        ),
        |u: (), t: Trace|
            bind(
                tolerated(
                    run_blocking_spec(t, "pre-start"@, config.pre_start, vars, ws_path, quiet),
                    quiet,
                    "pre-start hook"@,
                ),
                |u: (), t: Trace|
                    run_background_spec(t, "post-start"@, config.post_start, vars, ws_path, quiet),
            ),
    )
}

fn start(
    tape: &mut Tape,
    config: &Config,
    vars: &TextMap,
    ws_path: &str,
    quiet: bool,
) -> (r: Result<(), Stop>)
    ensures
        agrees(
            r,
            final(tape)@,
            start_spec(old(tape)@, config.deep_view(), vars.deep_view(), ws_path@, quiet),
        ),
{
    reveal(start_spec);
    tolerate(
        write_templates(tape, &config.templates, vars, ws_path, quiet),
        quiet,
        "write templates",
    )?;
    tolerate(
        run_blocking(tape, "pre-start", &config.pre_start, vars, ws_path, quiet),
        quiet,
        "pre-start hook",
    )?;
    run_background(tape, "post-start", &config.post_start, vars, ws_path, quiet)
}

/// The bookmark of a new workspace, then its files and hooks, where the variables can be had.
#[verifier::opaque]
pub open spec fn dress_spec(
    t: Trace,
    repo_root: Seq<char>,
    config: ConfigV,
    repo_name: Seq<char>,
    bookmark: Seq<char>,
    ws_path: Seq<char>,
    ws_name: Seq<char>,
    quiet: bool,
) -> Out<()> {
    bind(
        tolerated(
            create_bookmark_spec(t, repo_root, ws_name, bookmark),
            quiet,
            "create bookmark"@,
        ),
        |u: (), t: Trace|
            bind(
                attempt_spec(hook_vars_spec(t, repo_root, ws_path, ws_name, bookmark, repo_name)),
                |r: Result<Pairs, FailureV>, t: Trace|
                    match r {
                        Ok(vars) => start_spec(t, config, vars, ws_path, quiet),
                        Err(_) => Out::Got((), t),
                    },
            ),
    )
}

fn dress(
    tape: &mut Tape,
    repo_root: &str,
    config: &Config,
    repo_name: &str,
    bookmark: &str,
    ws_path: &str,
    ws_name: &str,
    quiet: bool,
) -> (r: Result<(), Stop>)
    ensures
        agrees(
            r,
            final(tape)@,
            dress_spec(
                old(tape)@,
                repo_root@,
                config.deep_view(),
                repo_name@,
                bookmark@,
                ws_path@,
                ws_name@,
                quiet,
            ),
        ),
{
    reveal(dress_spec);
    tolerate(create_bookmark(tape, repo_root, ws_name, bookmark), quiet, "create bookmark")?;
    match attempt(hook_vars(tape, repo_root, ws_path, ws_name, bookmark, repo_name))? {
        Ok(vars) => start(tape, config, &vars, ws_path, quiet),
        Err(_) => Ok(()),
    }
}

/// Writes Finder metadata back, in the source and in the new workspace.
#[verifier::opaque]
pub open spec fn heal_spec(
    t: Trace,
    guard: XattrGuardV,
    source: Pairs,
    ws_name: Seq<char>,
    ws_path: Seq<char>,
) -> Out<Seq<Seq<char>>> {
    bind(
        restore_spec(t, guard, source),
        |a: Seq<Seq<char>>, t: Trace|
            bind(
                restore_new_spec(t, guard, ws_name, ws_path),
                |b: Seq<Seq<char>>, t: Trace| Out::Got(a + b, t),
            ),
    )
}

fn heal(
    tape: &mut Tape,
    guard: &XattrGuard,
    source: &Vec<(String, String)>,
    ws_name: &str,
    ws_path: &str,
) -> (r: Result<Vec<String>, Stop>)
    ensures
        agrees(
            r,
            final(tape)@,
            heal_spec(old(tape)@, guard.deep_view(), source.deep_view(), ws_name@, ws_path@),
        ),
{
    reveal(heal_spec);
    let a = guard.restore(tape, source)?;
    let b = guard.restore_new_workspace(tape, ws_name, ws_path)?;
    Ok(chain(a, b))
}

#[verifier::opaque]
pub open spec fn create_spec(
    t: Trace,
    repo_root: Seq<char>,
    config: ConfigV,
    repo_name: Seq<char>,
    bookmark: Seq<char>,
    revision: Seq<char>,
    source_ws_path: Seq<char>,
    ws_path: Seq<char>,
    msg: Seq<char>,
    quiet: bool,
) -> Out<CreateResultV> {
    let source = seq![("source"@, source_ws_path)];
    let ws_name = name_or_empty_spec(ws_path);
    bind(
        attempt_spec(snapshot_ws_spec(t, source_ws_path)),
        |s: Result<(), FailureV>, t: Trace|
            bind(
                capture_spec(t, source, config.preserve_finder_xattrs),
                |guard: XattrGuardV, t: Trace|
                    bind(
                        create_workspace_spec(
                            t,
                            repo_root,
                            source_ws_path,
                            revision,
                            ws_path,
                            msg,
                            config.ji_author,
                        ),
                        |u: (), t: Trace|
                            bind(
                                attempt_spec(update_workspace_stale_spec(t, source_ws_path)),
                                |s: Result<Seq<char>, FailureV>, t: Trace|
                                    bind(
                                        heal_spec(t, guard, source, ws_name, ws_path),
                                        |warnings: Seq<Seq<char>>, t: Trace|
                                            bind(
                                                dress_spec(
                                                    t,
                                                    repo_root,
                                                    config,
                                                    repo_name,
                                                    bookmark,
                                                    ws_path,
                                                    ws_name,
                                                    quiet,
                                                ),
                                                |u: (), t: Trace|
                                                    Out::Got(
                                                        CreateResultV {
                                                            workspace_name: ws_name,
                                                            workspace_path: ws_path,
                                                            warnings,
                                                        },
                                                        t,
                                                    ),
                                            ),
                                    ),
                            ),
                    ),
            ),
    )
}

/// Creates a workspace with its bookmark, files and hooks. The source is snapshotted first, so far
/// as that works, and Finder metadata is back before any hook runs. When `quiet`, what fails after
/// the workspace exists is passed over.
pub fn create(
    tape: &mut Tape,
    repo_root: &str,
    config: &Config,
    repo_name: &str,
    bookmark: &str,
    revision: &str,
    source_ws_path: &str,
    ws_path: &str,
    msg: &str,
    quiet: bool,
) -> (r: Result<CreateResult, Stop>)
    ensures
        agrees(
            r,
            final(tape)@,
            create_spec(
                old(tape)@,
                repo_root@,
                config.deep_view(),
                repo_name@,
                bookmark@,
                revision@,
                source_ws_path@,
                ws_path@,
                msg@,
                quiet,
            ),
        ),
{
    reveal(create_spec);
    let _ = attempt(snapshot_ws(tape, source_ws_path))?;
    let mut source: Vec<(String, String)> = Vec::new();
    source.push(("source".to_string(), source_ws_path.to_string()));
    assert(source.deep_view() =~= seq![("source"@, source_ws_path@)]);
    let guard = XattrGuard::capture(tape, &source, config.preserve_finder_xattrs)?;
    create_workspace(
        tape,
        repo_root,
        source_ws_path,
        revision,
        ws_path,
        msg,
        borrow_opt(&config.ji_author),
    )?;
    let _ = attempt(update_workspace_stale(tape, source_ws_path))?;
    let ws_name = name_or_empty(ws_path);
    let warnings = heal(tape, &guard, &source, &ws_name, ws_path)?;
    dress(tape, repo_root, config, repo_name, bookmark, ws_path, &ws_name, quiet)?;
    Ok(CreateResult { workspace_name: ws_name, workspace_path: ws_path.to_string(), warnings })
}

// ---------------------------------------------------------------------------
// Where it goes
// ---------------------------------------------------------------------------

#[verifier::opaque]
pub open spec fn paths_equivalent_spec(t: Trace, a: Seq<char>, b: Seq<char>) -> Out<bool> {
    bind(
        fetch_spec(t, at_spec(Act::Canonical, a)),
        |ca: Option<Seq<char>>, t: Trace|
            bind(
                fetch_spec(t, at_spec(Act::Canonical, b)),
                |cb: Option<Seq<char>>, t: Trace|
                    Out::Got(
                        match (ca, cb) {
                            (Some(x), Some(y)) => components_spec(x) == components_spec(y),
                            _ => components_spec(normalize_spec(a)) == components_spec(
                                normalize_spec(b),
                            ),
                        },
                        t,
                    ),
            ),
    )
}

/// Are two paths the same: by their canonical forms where both have one, else lexically?
pub fn paths_equivalent(tape: &mut Tape, a: &str, b: &str) -> (r: Result<bool, Stop>)
    ensures
        agrees(r, final(tape)@, paths_equivalent_spec(old(tape)@, a@, b@)),
{
    reveal(paths_equivalent_spec);
    let ca = fetch(tape, at(Act::Canonical, a))?;
    let cb = fetch(tape, at(Act::Canonical, b))?;
    match (ca, cb) {
        (Some(x), Some(y)) => Ok(same_components(&x, &y)),
        _ => Ok(same_components(&normalize_path(a), &normalize_path(b))),
    }
}

pub const NO_BOOKMARK: &'static str =
    "workspace-path must contain {{ bookmark }} \u{2014} each workspace needs a unique path; use --path to override per invocation";

pub const OVERWRITES: &'static str = "workspace-path resolves to the default workspace root (";

pub const OVERWRITES_END: &'static str =
    ") \u{2014} the template must produce a different path";

#[verifier::opaque]
pub open spec fn validate_resolved_path_spec(
    t: Trace,
    resolved: Seq<char>,
    repo_root: Seq<char>,
    template: Option<Seq<char>>,
) -> Out<()> {
    if template matches Some(x) && !contains_spec(x, "{{ bookmark }}"@) {
        Out::Fail(failure_spec(NO_BOOKMARK@), t)
    } else {
        bind(
            paths_equivalent_spec(t, resolved, repo_root),
            |equal: bool, t: Trace|
                if equal {
                    Out::Fail(failure_spec(OVERWRITES@ + repo_root + OVERWRITES_END@), t)
                } else {
                    bind(
                        holds_spec(t, at_spec(Act::Exists, resolved)),
                        |there: bool, t: Trace|
                            if there {
                                Out::Fail(
                                    failure_spec("workspace path already exists: "@ + resolved),
                                    t,
                                )
                            } else {
                                Out::Got((), t)
                            },
                    )
                },
        )
    }
}

/// Refuses a path that no new workspace can take: one from a `template` that does not name the
/// bookmark, the root of the default workspace, or one that exists.
pub fn validate_resolved_path(
    tape: &mut Tape,
    resolved: &str,
    repo_root: &str,
    template: Option<&str>,
) -> (r: Result<(), Stop>)
    ensures
        agrees(
            r,
            final(tape)@,
            validate_resolved_path_spec(old(tape)@, resolved@, repo_root@, template.deep_view()),
        ),
{
    reveal(validate_resolved_path_spec);
    if let Some(x) = template {
        if !contains(x, "{{ bookmark }}") {
            return Err(Stop::Fail(failure(NO_BOOKMARK.to_string())));
        }
    }
    if paths_equivalent(tape, resolved, repo_root)? {
        return Err(Stop::Fail(failure(cat3(OVERWRITES, repo_root, OVERWRITES_END))));
    }
    if holds(tape, at(Act::Exists, resolved))? {
        return Err(Stop::Fail(failure(cat2("workspace path already exists: ", resolved))));
    }
    Ok(())
}

/// `p` below the current directory.
#[verifier::opaque]
pub open spec fn absolute_spec(t: Trace, p: Seq<char>) -> Out<Seq<char>> {
    if is_absolute_spec(p) {
        Out::Got(p, t)
    } else {
        bind(
            need_spec(t, at_spec(Act::CurrentDir, ""@), "failed to get current directory"@),
            |cwd: Seq<char>, t: Trace| Out::Got(path_join_spec(cwd, p), t),
        )
    }
}

fn absolute(tape: &mut Tape, p: &str) -> (r: Result<String, Stop>)
    ensures
        agrees(r, final(tape)@, absolute_spec(old(tape)@, p@)),
{
    reveal(absolute_spec);
    if is_absolute(p) {
        return Ok(p.to_string());
    }
    let cwd = need(tape, at(Act::CurrentDir, ""), "failed to get current directory")?;
    Ok(path_join(&cwd, p))
}

#[verifier::opaque]
pub open spec fn resolve_workspace_path_spec(
    t: Trace,
    repo_root: Seq<char>,
    config: ConfigV,
    repo_name: Seq<char>,
    bookmark: Seq<char>,
    path_override: Option<Seq<char>>,
) -> Out<Seq<char>> {
    bind(
        match path_override {
            Some(p) => absolute_spec(t, p),
            None => bind(
                path_vars_spec(t, repo_root, bookmark, repo_name),
                |vars: Pairs, t: Trace| Out::Got(expand_spec(config.workspace_path, vars), t),
            ),
        },
        |path: Seq<char>, t: Trace|
            bind(
                validate_resolved_path_spec(
                    t,
                    path_join_spec(repo_root, path),
                    repo_root,
                    match path_override {
                        Some(_) => None,
                        None => Some(config.workspace_path),
                    },
                ),
                |u: (), t: Trace| Out::Got(path_join_spec(repo_root, path), t),
            ),
    )
}

/// Where a new workspace goes: the given path, or what the configured template says.
pub fn resolve_workspace_path(
    tape: &mut Tape,
    repo_root: &str,
    config: &Config,
    repo_name: &str,
    bookmark: &str,
    path_override: Option<&str>,
) -> (r: Result<String, Stop>)
    ensures
        agrees(
            r,
            final(tape)@,
            resolve_workspace_path_spec(
                old(tape)@,
                repo_root@,
                config.deep_view(),
                repo_name@,
                bookmark@,
                path_override.deep_view(),
            ),
        ),
{
    reveal(resolve_workspace_path_spec);
    let path = match path_override {
        Some(p) => absolute(tape, p)?,
        None => {
            let vars = path_vars(tape, repo_root, bookmark, repo_name)?;
            expand(&config.workspace_path, &vars)
        },
    };
    let resolved = path_join(repo_root, &path);
    let template = match path_override {
        Some(_) => None,
        None => Some(config.workspace_path.as_str()),
    };
    validate_resolved_path(tape, &resolved, repo_root, template)?;
    Ok(resolved)
}

/// A path from a template without the bookmark is refused, whatever the file system holds.
pub proof fn law_template_names_bookmark(
    t: Trace,
    resolved: Seq<char>,
    repo_root: Seq<char>,
    template: Seq<char>,
)
    requires
        !contains_spec(template, "{{ bookmark }}"@),
    ensures
        validate_resolved_path_spec(t, resolved, repo_root, Some(template)) == Out::<()>::Fail(
            failure_spec(NO_BOOKMARK@),
            t,
        ),
{
    reveal(validate_resolved_path_spec);
}

/// A path that is lexically the root of the default workspace is refused when one of the two does
/// not exist.
pub proof fn law_own_root_is_refused(t: Trace, resolved: Seq<char>, repo_root: Seq<char>)
    requires
        normalize_spec(resolved) == normalize_spec(repo_root),
        t.len() >= 2,
        t[0].kind != Done || t[1].kind != Done,
    ensures
        validate_resolved_path_spec(t, resolved, repo_root, None) is Fail,
{
    reveal(validate_resolved_path_spec);
    reveal(paths_equivalent_spec);
}

/// The path that a workspace gets is that of the template, with the bookmark in it, below the root
/// of the repository, and it was free: the last thing that was asked is whether something is there,
/// and there was not.
pub proof fn law_path_is_free_and_follows_the_template(
    t: Trace,
    repo_root: Seq<char>,
    config: ConfigV,
    repo_name: Seq<char>,
    bookmark: Seq<char>,
    path_override: Option<Seq<char>>,
)
    ensures
        resolve_workspace_path_spec(
            t,
            repo_root,
            config,
            repo_name,
            bookmark,
            path_override,
        ) matches Out::Got(path, u) ==> {
            &&& u.len() < t.len()
            &&& t[t.len() - u.len() - 1].kind != Kind::Done
            &&& resolve_workspace_path_spec(
                t.take(t.len() - u.len() - 1),
                repo_root,
                config,
                repo_name,
                bookmark,
                path_override,
            ) == Out::<Seq<char>>::Ask(at_spec(Act::Exists, path))
            &&& path_override matches Some(p) ==> is_absolute_spec(p) ==> path == path_join_spec(
                repo_root,
                p,
            )
            &&& path_override is None ==> exists|home: Seq<char>|
                path == path_join_spec(
                    repo_root,
                    expand_spec(
                        config.workspace_path,
                        #[trigger] path_vars_of(home, repo_root, bookmark, repo_name),
                    ),
                ) && contains_spec(config.workspace_path, "{{ bookmark }}"@)
        },
{
    broadcast use {
        group_rest,
        replays_path_vars,
        replays_absolute,
        replays_paths_equivalent,
        replays_validate_resolved_path,
    };

    reveal(resolve_workspace_path_spec);
    reveal(validate_resolved_path_spec);
    reveal(path_vars_spec);
    reveal(absolute_spec);
    if let Out::Got(path, u) = resolve_workspace_path_spec(
        t,
        repo_root,
        config,
        repo_name,
        bookmark,
        path_override,
    ) {
        let v = match path_override {
            Some(p) => left(absolute_spec(t, p)),
            None => left(path_vars_spec(t, repo_root, bookmark, repo_name)),
        };
        let w = left(paths_equivalent_spec(v, path, repo_root));
        assert(is_rest(w, t));
        lemma_rest(w, t);
        assert(w.take(0) =~= Seq::empty());
        assert(u.len() == w.len() - 1);
        assert(w[0] == t[t.len() - w.len()]);
        if path_override is None {
            let home = or_empty(fetch_spec(t, at_spec(Act::EnvVar, "HOME"@))->Got_0);
            assert(path_vars_spec(t, repo_root, bookmark, repo_name)->Got_0 == path_vars_of(
                home,
                repo_root,
                bookmark,
                repo_name,
            ));
        }
    }
}

} // verus!
