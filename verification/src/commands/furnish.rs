//! What a new workspace is furnished with.

use vstd::prelude::*;

use crate::commands::create::{create_spec, dress_spec, heal_spec, start_spec};
use crate::commands::outcomes::create_asked;
use crate::commands::types::CreateResultV;
use crate::config::ConfigV;
use crate::effects::{
    answer, asks_run_one, asks_start_one, asks_write_one, bookmark_made, hook_run, hook_started,
    looked_up, named_call, written,
};
use crate::finder_xattrs::{capture_spec, restore_new_spec, restore_spec, XattrGuardV};
use crate::hooks::{
    hook_vars_spec, path_vars_of, path_vars_spec, run_background_spec, run_blocking_spec, run_step,
    start_step, write_step, write_templates_spec,
};
use crate::jj_parse::or_empty;
use crate::jujutsu::{snapshot_ws_spec, ws_rev_spec};
use crate::operations::create_workspace_spec;
use crate::paths::{name_or_empty_spec, path_join_spec};
use crate::replay::{
    each_reaches, group_rest, is_rest, left, lemma_rest, replays_capture, replays_create_bookmark,
    replays_dress, replays_heal, replays_hook_vars, replays_operations_create_workspace,
    replays_path_vars, replays_restore, replays_run_background, replays_run_blocking,
    replays_run_one, replays_snapshot_ws, replays_start, replays_start_one,
    replays_update_workspace_stale, replays_write_one, replays_write_templates,
};
use crate::revisions::create_bookmark_spec;
use crate::search::replace_spec;
use crate::stale::{tracked_files_spec, update_workspace_stale_spec};
use crate::tape::{at_spec, attempt_spec, fetch_spec, Act, Kind, Out, RequestV, Trace};
use crate::templates::expand_spec;
use crate::text_map::{bindings, law_binding_keeps_order, put_spec, Pairs};

verus! {

/// With the first `k` replies the walk asks for `q`, and the next reply says that it was done.
pub open spec fn templates_asked(
    t: Trace,
    templates: Pairs,
    vars: Pairs,
    ws_root: Seq<char>,
    quiet: bool,
    k: int,
    q: RequestV,
) -> bool {
    &&& 0 <= k < t.len()
    &&& write_templates_spec(t.take(k), templates, vars, ws_root, quiet) == Out::<()>::Ask(q)
    &&& t[k].kind == Kind::Done
}

/// Where the templates are written without a failure, each of them is: its content, with the variables
/// filled in, goes to its place in the workspace.
pub proof fn law_templates_are_written(
    t: Trace,
    templates: Pairs,
    vars: Pairs,
    ws_root: Seq<char>,
    quiet: bool,
    i: int,
)
    requires
        write_templates_spec(t, templates, vars, ws_root, quiet) is Got,
        0 <= i < templates.len(),
    ensures
        exists|k: int| #[trigger] templates_asked(
            t,
            templates,
            vars,
            ws_root,
            quiet,
            k,
            written(path_join_spec(ws_root, templates[i].0), expand_spec(templates[i].1, vars)),
        ),
{
    broadcast use {group_rest, replays_write_one};

    reveal(write_templates_spec);
    let (u, a) = each_reaches(t, templates, (), write_step(vars, ws_root, quiet), i);
    let j = asks_write_one(u, ws_root, templates[i].0, expand_spec(templates[i].1, vars), quiet);
    lemma_rest(u, t);
    assert(write_step(vars, ws_root, quiet)(u.take(j), a, templates[i]) is Ask);
    assert(
        templates_asked(
            t,
            templates,
            vars,
            ws_root,
            quiet,
            t.len() - u.len() + j,
            written(path_join_spec(ws_root, templates[i].0), expand_spec(templates[i].1, vars)),
        )
    );
}

/// With the first `k` replies the walk asks for `q`, and the next reply says that it was done.
pub open spec fn hooks_asked(
    t: Trace,
    label: Seq<char>,
    hooks: Pairs,
    vars: Pairs,
    cwd: Seq<char>,
    quiet: bool,
    k: int,
    q: RequestV,
) -> bool {
    &&& 0 <= k < t.len()
    &&& run_blocking_spec(t.take(k), label, hooks, vars, cwd, quiet) == Out::<()>::Ask(q)
    &&& t[k].kind == Kind::Done
}

/// Where the hooks that are waited for run without a failure, each of them has run, with the variables
/// filled in, in the directory that is meant.
pub proof fn law_hooks_are_run(
    t: Trace,
    label: Seq<char>,
    hooks: Pairs,
    vars: Pairs,
    cwd: Seq<char>,
    quiet: bool,
    i: int,
)
    requires
        run_blocking_spec(t, label, hooks, vars, cwd, quiet) is Got,
        0 <= i < hooks.len(),
    ensures
        exists|k: int| #[trigger] hooks_asked(
            t,
            label,
            hooks,
            vars,
            cwd,
            quiet,
            k,
            hook_run(cwd, expand_spec(hooks[i].1, vars), label + "/"@ + hooks[i].0),
        ),
{
    broadcast use {group_rest, replays_run_one};

    reveal(run_blocking_spec);
    let (u, a) = each_reaches(t, hooks, (), run_step(label, vars, cwd, quiet), i);
    let j = asks_run_one(u, label, hooks[i].0, expand_spec(hooks[i].1, vars), cwd, quiet);
    lemma_rest(u, t);
    assert(run_step(label, vars, cwd, quiet)(u.take(j), a, hooks[i]) is Ask);
    assert(
        hooks_asked(
            t,
            label,
            hooks,
            vars,
            cwd,
            quiet,
            t.len() - u.len() + j,
            hook_run(cwd, expand_spec(hooks[i].1, vars), label + "/"@ + hooks[i].0),
        )
    );
}

/// With the first `k` replies the walk asks for `q`.
pub open spec fn starts_asked(
    t: Trace,
    label: Seq<char>,
    hooks: Pairs,
    vars: Pairs,
    cwd: Seq<char>,
    quiet: bool,
    k: int,
    q: RequestV,
) -> bool {
    &&& 0 <= k < t.len()
    &&& run_background_spec(t.take(k), label, hooks, vars, cwd, quiet) == Out::<()>::Ask(q)
}

/// Each hook that is not waited for is started, with the variables filled in, in the directory that is
/// meant.
pub proof fn law_background_hooks_are_started(
    t: Trace,
    label: Seq<char>,
    hooks: Pairs,
    vars: Pairs,
    cwd: Seq<char>,
    quiet: bool,
    i: int,
)
    requires
        run_background_spec(t, label, hooks, vars, cwd, quiet) is Got,
        0 <= i < hooks.len(),
    ensures
        exists|k: int| #[trigger] starts_asked(
            t,
            label,
            hooks,
            vars,
            cwd,
            quiet,
            k,
            hook_started(cwd, expand_spec(hooks[i].1, vars)),
        ),
{
    broadcast use {group_rest, replays_start_one};

    reveal(run_background_spec);
    let (u, a) = each_reaches(t, hooks, (), start_step(label, vars, cwd, quiet), i);
    let j = asks_start_one(u, label, hooks[i].0, expand_spec(hooks[i].1, vars), cwd, quiet);
    lemma_rest(u, t);
    assert(start_step(label, vars, cwd, quiet)(u.take(j), a, hooks[i]) is Ask);
    assert(
        starts_asked(
            t,
            label,
            hooks,
            vars,
            cwd,
            quiet,
            t.len() - u.len() + j,
            hook_started(cwd, expand_spec(hooks[i].1, vars)),
        )
    );
}

/// With the first `k` replies a creation asks for `q`, and there is a reply to it.
pub open spec fn create_asks(
    t: Trace,
    repo_root: Seq<char>,
    config: ConfigV,
    repo_name: Seq<char>,
    bookmark: Seq<char>,
    revision: Seq<char>,
    source_ws_path: Seq<char>,
    ws_path: Seq<char>,
    msg: Seq<char>,
    quiet: bool,
    k: int,
    q: RequestV,
) -> bool {
    &&& 0 <= k < t.len()
    &&& create_spec(
        t.take(k),
        repo_root,
        config,
        repo_name,
        bookmark,
        revision,
        source_ws_path,
        ws_path,
        msg,
        quiet,
    ) == Out::<CreateResultV>::Ask(q)
}

/// A creation asks for `q` at some time, and is told that it was done.
pub open spec fn create_did(
    t: Trace,
    repo_root: Seq<char>,
    config: ConfigV,
    repo_name: Seq<char>,
    bookmark: Seq<char>,
    revision: Seq<char>,
    source_ws_path: Seq<char>,
    ws_path: Seq<char>,
    msg: Seq<char>,
    quiet: bool,
    q: RequestV,
) -> bool {
    exists|k: int| #[trigger] create_asked(
        t,
        repo_root,
        config,
        repo_name,
        bookmark,
        revision,
        source_ws_path,
        ws_path,
        msg,
        quiet,
        k,
        q,
    )
}

/// A creation asks for `q` at some time.
pub open spec fn create_tried(
    t: Trace,
    repo_root: Seq<char>,
    config: ConfigV,
    repo_name: Seq<char>,
    bookmark: Seq<char>,
    revision: Seq<char>,
    source_ws_path: Seq<char>,
    ws_path: Seq<char>,
    msg: Seq<char>,
    quiet: bool,
    q: RequestV,
) -> bool {
    exists|k: int| #[trigger] create_asks(
        t,
        repo_root,
        config,
        repo_name,
        bookmark,
        revision,
        source_ws_path,
        ws_path,
        msg,
        quiet,
        k,
        q,
    )
}

/// A creation that succeeds comes to what the workspace is furnished with, and what that asks for
/// is asked for by the creation.
proof fn create_dresses(
    t: Trace,
    repo_root: Seq<char>,
    config: ConfigV,
    repo_name: Seq<char>,
    bookmark: Seq<char>,
    revision: Seq<char>,
    source_ws_path: Seq<char>,
    ws_path: Seq<char>,
    msg: Seq<char>,
    quiet: bool,
) -> (u: Trace)
    requires
        create_spec(
            t,
            repo_root,
            config,
            repo_name,
            bookmark,
            revision,
            source_ws_path,
            ws_path,
            msg,
            quiet,
        ) is Got,
    ensures
        is_rest(u, t),
        dress_spec(
            u,
            repo_root,
            config,
            repo_name,
            bookmark,
            ws_path,
            name_or_empty_spec(ws_path),
            quiet,
        ) is Got,
        forall|j: int|
            0 <= j <= u.len() && (
                #[trigger] dress_spec(
                    u.take(j),
                    repo_root,
                    config,
                    repo_name,
                    bookmark,
                    ws_path,
                    name_or_empty_spec(ws_path),
                    quiet,
                )
            ) is Ask ==> create_spec(
                t.take(t.len() - u.len() + j),
                repo_root,
                config,
                repo_name,
                bookmark,
                revision,
                source_ws_path,
                ws_path,
                msg,
                quiet,
            ) == Out::<CreateResultV>::Ask(
                dress_spec(
                    u.take(j),
                    repo_root,
                    config,
                    repo_name,
                    bookmark,
                    ws_path,
                    name_or_empty_spec(ws_path),
                    quiet,
                )->Ask_0,
            ),
{
    broadcast use {
        group_rest,
        replays_snapshot_ws,
        replays_capture,
        replays_operations_create_workspace,
        replays_update_workspace_stale,
        replays_heal,
        replays_dress,
    };

    reveal(create_spec);
    let name = name_or_empty_spec(ws_path);
    let source = seq![("source"@, source_ws_path)];
    let a = attempt_spec(snapshot_ws_spec(t, source_ws_path))->Got_1;
    let captured = capture_spec(a, source, config.preserve_finder_xattrs);
    let b = left(
        create_workspace_spec(
            left(captured),
            repo_root,
            source_ws_path,
            revision,
            ws_path,
            msg,
            config.ji_author,
        ),
    );
    let c = attempt_spec(update_workspace_stale_spec(b, source_ws_path))->Got_1;
    let u = left(heal_spec(c, captured->Got_0, source, name, ws_path));
    assert(is_rest(u, t));
    lemma_rest(u, t);
    u
}

/// What the hooks and the templates of a new workspace can name.
pub open spec fn tells(
    vars: Pairs,
    repo_root: Seq<char>,
    ws_path: Seq<char>,
    bookmark: Seq<char>,
    repo_name: Seq<char>,
    change_id: Seq<char>,
) -> bool {
    let m = bindings(vars);
    &&& m.dom().contains("repo"@) && m["repo"@] == repo_name
    &&& m.dom().contains("bookmark"@) && m["bookmark"@] == replace_spec(bookmark, "/"@, "-"@)
    &&& m.dom().contains("default_workspace_path"@) && m["default_workspace_path"@] == repo_root
    &&& m.dom().contains("workspace_path"@) && m["workspace_path"@] == ws_path
    &&& m.dom().contains("workspace_name"@) && m["workspace_name"@] == name_or_empty_spec(ws_path)
    &&& m.dom().contains("change_id"@) && m["change_id"@] == change_id
}

proof fn lemma_tells(
    home: Seq<char>,
    repo_root: Seq<char>,
    ws_path: Seq<char>,
    bookmark: Seq<char>,
    repo_name: Seq<char>,
    change_id: Seq<char>,
)
    ensures
        tells(
            put_spec(
                put_spec(
                    put_spec(
                        path_vars_of(home, repo_root, bookmark, repo_name),
                        "workspace_path"@,
                        ws_path,
                    ),
                    "workspace_name"@,
                    name_or_empty_spec(ws_path),
                ),
                "change_id"@,
                change_id,
            ),
            repo_root,
            ws_path,
            bookmark,
            repo_name,
            change_id,
        ),
{
    let name = name_or_empty_spec(ws_path);
    let none = Seq::<(Seq<char>, Seq<char>)>::empty();
    let v1 = put_spec(none, "home"@, home);
    let v2 = put_spec(v1, "repo"@, repo_name);
    let v3 = put_spec(v2, "bookmark"@, replace_spec(bookmark, "/"@, "-"@));
    let v4 = put_spec(v3, "default_workspace_path"@, repo_root);
    let v5 = put_spec(v4, "workspace_path"@, ws_path);
    let v6 = put_spec(v5, "workspace_name"@, name);
    law_binding_keeps_order(none, "home"@, home);
    law_binding_keeps_order(v1, "repo"@, repo_name);
    law_binding_keeps_order(v2, "bookmark"@, replace_spec(bookmark, "/"@, "-"@));
    law_binding_keeps_order(v3, "default_workspace_path"@, repo_root);
    law_binding_keeps_order(v4, "workspace_path"@, ws_path);
    law_binding_keeps_order(v5, "workspace_name"@, name);
    law_binding_keeps_order(v6, "change_id"@, change_id);
    reveal_strlit("home");
    reveal_strlit("repo");
    reveal_strlit("bookmark");
    reveal_strlit("default_workspace_path");
    reveal_strlit("workspace_path");
    reveal_strlit("workspace_name");
    reveal_strlit("change_id");
    assert("bookmark"@[0] != "repo"@[0]);
    assert("workspace_path"@[10] == 'p');
    assert("workspace_name"@[10] == 'n');
}

/// A creation that succeeds aloud has had jj make the bookmark on the new workspace, and has asked
/// for the change id there. If that was told, every template is written into the workspace, every
/// hook to be waited for has run in it, and every other hook is started in it, with variables filled
/// in that tell of this workspace.
#[verifier::rlimit(60)]
pub proof fn law_create_furnishes_the_workspace(
    t: Trace,
    repo_root: Seq<char>,
    config: ConfigV,
    repo_name: Seq<char>,
    bookmark: Seq<char>,
    revision: Seq<char>,
    source_ws_path: Seq<char>,
    ws_path: Seq<char>,
    msg: Seq<char>,
    quiet: bool,
)
    requires
        create_spec(
            t,
            repo_root,
            config,
            repo_name,
            bookmark,
            revision,
            source_ws_path,
            ws_path,
            msg,
            quiet,
        ) is Got,
        !quiet,
    ensures
        exists|b: int, v: int|
            {
                &&& b < v
                &&& #[trigger] create_asked(
                    t,
                    repo_root,
                    config,
                    repo_name,
                    bookmark,
                    revision,
                    source_ws_path,
                    ws_path,
                    msg,
                    quiet,
                    b,
                    bookmark_made(repo_root, ws_rev_spec(name_or_empty_spec(ws_path)), bookmark),
                )
                &&& #[trigger] create_asks(
                    t,
                    repo_root,
                    config,
                    repo_name,
                    bookmark,
                    revision,
                    source_ws_path,
                    ws_path,
                    msg,
                    quiet,
                    v,
                    looked_up(
                        Act::JjRepo,
                        repo_root,
                        ws_rev_spec(name_or_empty_spec(ws_path)),
                        "change_id"@,
                    ),
                )
                &&& t[v].kind == Kind::Done ==> exists|vars: Pairs|
                    {
                        &&& #[trigger] tells(
                            vars,
                            repo_root,
                            ws_path,
                            bookmark,
                            repo_name,
                            answer(t, v),
                        )
                        &&& forall|i: int|
                            0 <= i < config.templates.len() ==> create_did(
                                t,
                                repo_root,
                                config,
                                repo_name,
                                bookmark,
                                revision,
                                source_ws_path,
                                ws_path,
                                msg,
                                quiet,
                                written(
                                    path_join_spec(ws_path, (#[trigger] config.templates[i]).0),
                                    expand_spec(config.templates[i].1, vars),
                                ),
                            )
                        &&& forall|i: int|
                            0 <= i < config.pre_start.len() ==> create_did(
                                t,
                                repo_root,
                                config,
                                repo_name,
                                bookmark,
                                revision,
                                source_ws_path,
                                ws_path,
                                msg,
                                quiet,
                                hook_run(
                                    ws_path,
                                    expand_spec((#[trigger] config.pre_start[i]).1, vars),
                                    "pre-start"@ + "/"@ + config.pre_start[i].0,
                                ),
                            )
                        &&& forall|i: int|
                            0 <= i < config.post_start.len() ==> create_tried(
                                t,
                                repo_root,
                                config,
                                repo_name,
                                bookmark,
                                revision,
                                source_ws_path,
                                ws_path,
                                msg,
                                quiet,
                                hook_started(
                                    ws_path,
                                    expand_spec((#[trigger] config.post_start[i]).1, vars),
                                ),
                            )
                    }
            },
{
    broadcast use {
        group_rest,
        replays_create_bookmark,
        replays_path_vars,
        replays_hook_vars,
        replays_start,
        replays_write_templates,
        replays_run_blocking,
        replays_run_background,
    };

    reveal(dress_spec);
    reveal(create_bookmark_spec);
    reveal(hook_vars_spec);
    reveal(path_vars_spec);
    reveal(start_spec);
    let u = create_dresses(
        t,
        repo_root,
        config,
        repo_name,
        bookmark,
        revision,
        source_ws_path,
        ws_path,
        msg,
        quiet,
    );
    lemma_rest(u, t);
    let n = t.len() - u.len();
    assert(u.take(0) =~= Seq::empty());
    assert(
        dress_spec(
            u.take(0),
            repo_root,
            config,
            repo_name,
            bookmark,
            ws_path,
            name_or_empty_spec(ws_path),
            quiet,
        ) is Ask
    );
    assert(
        create_asked(
            t,
            repo_root,
            config,
            repo_name,
            bookmark,
            revision,
            source_ws_path,
            ws_path,
            msg,
            quiet,
            n,
            bookmark_made(repo_root, ws_rev_spec(name_or_empty_spec(ws_path)), bookmark),
        )
    );
    let w = left(create_bookmark_spec(u, repo_root, name_or_empty_spec(ws_path), bookmark));
    assert(is_rest(w, u));
    lemma_rest(w, u);
    let home = path_vars_spec(w, repo_root, bookmark, repo_name);
    let x = left(home);
    assert(is_rest(x, u));
    lemma_rest(x, u);
    assert(x.take(0) =~= Seq::empty());
    let d = u.len() - x.len();
    assert(
        dress_spec(
            u.take(d),
            repo_root,
            config,
            repo_name,
            bookmark,
            ws_path,
            name_or_empty_spec(ws_path),
            quiet,
        ) is Ask
    );
    assert(
        create_asks(
            t,
            repo_root,
            config,
            repo_name,
            bookmark,
            revision,
            source_ws_path,
            ws_path,
            msg,
            quiet,
            n + d,
            looked_up(
                Act::JjRepo,
                repo_root,
                ws_rev_spec(name_or_empty_spec(ws_path)),
                "change_id"@,
            ),
        )
    );
    assert(answer(t, n + d) == answer(x, 0));
    if t[n + d].kind == Kind::Done {
        assert(t[n + d] == x[0]);
        let got = hook_vars_spec(
            w,
            repo_root,
            ws_path,
            name_or_empty_spec(ws_path),
            bookmark,
            repo_name,
        );
        let vars = got->Got_0;
        let y = left(got);
        assert(is_rest(y, u));
        lemma_rest(y, u);
        lemma_tells(
            or_empty(fetch_spec(w, at_spec(Act::EnvVar, "HOME"@))->Got_0),
            repo_root,
            ws_path,
            bookmark,
            repo_name,
            answer(t, n + d),
        );
        assert(tells(vars, repo_root, ws_path, bookmark, repo_name, answer(t, n + d)));
        let m = u.len() - y.len();
        assert forall|i: int| 0 <= i < config.templates.len() implies create_did(
            t,
            repo_root,
            config,
            repo_name,
            bookmark,
            revision,
            source_ws_path,
            ws_path,
            msg,
            quiet,
            written(
                path_join_spec(ws_path, (#[trigger] config.templates[i]).0),
                expand_spec(config.templates[i].1, vars),
            ),
        ) by {
            law_templates_are_written(y, config.templates, vars, ws_path, quiet, i);
            let q = written(
                path_join_spec(ws_path, config.templates[i].0),
                expand_spec(config.templates[i].1, vars),
            );
            let k = choose|k: int| #[trigger]
                templates_asked(y, config.templates, vars, ws_path, quiet, k, q);
            assert(
                dress_spec(
                    u.take(m + k),
                    repo_root,
                    config,
                    repo_name,
                    bookmark,
                    ws_path,
                    name_or_empty_spec(ws_path),
                    quiet,
                ) is Ask
            );
            assert(
                create_asked(
                    t,
                    repo_root,
                    config,
                    repo_name,
                    bookmark,
                    revision,
                    source_ws_path,
                    ws_path,
                    msg,
                    quiet,
                    n + m + k,
                    q,
                )
            );
        }
        let y2 = left(write_templates_spec(y, config.templates, vars, ws_path, quiet));
        assert(is_rest(y2, u));
        lemma_rest(y2, u);
        lemma_rest(y2, y);
        let m2 = u.len() - y2.len();
        assert forall|i: int| 0 <= i < config.pre_start.len() implies create_did(
            t,
            repo_root,
            config,
            repo_name,
            bookmark,
            revision,
            source_ws_path,
            ws_path,
            msg,
            quiet,
            hook_run(
                ws_path,
                expand_spec((#[trigger] config.pre_start[i]).1, vars),
                "pre-start"@ + "/"@ + config.pre_start[i].0,
            ),
        ) by {
            law_hooks_are_run(y2, "pre-start"@, config.pre_start, vars, ws_path, quiet, i);
            let q = hook_run(
                ws_path,
                expand_spec(config.pre_start[i].1, vars),
                "pre-start"@ + "/"@ + config.pre_start[i].0,
            );
            let k = choose|k: int| #[trigger]
                hooks_asked(y2, "pre-start"@, config.pre_start, vars, ws_path, quiet, k, q);
            assert(start_spec(y.take(y.len() - y2.len() + k), config, vars, ws_path, quiet) is Ask);
            assert(
                dress_spec(
                    u.take(m2 + k),
                    repo_root,
                    config,
                    repo_name,
                    bookmark,
                    ws_path,
                    name_or_empty_spec(ws_path),
                    quiet,
                ) is Ask
            );
            assert(
                create_asked(
                    t,
                    repo_root,
                    config,
                    repo_name,
                    bookmark,
                    revision,
                    source_ws_path,
                    ws_path,
                    msg,
                    quiet,
                    n + m2 + k,
                    q,
                )
            );
        }
        let y3 = left(run_blocking_spec(y2, "pre-start"@, config.pre_start, vars, ws_path, quiet));
        assert(is_rest(y3, u));
        lemma_rest(y3, u);
        lemma_rest(y3, y);
        let m3 = u.len() - y3.len();
        assert forall|i: int| 0 <= i < config.post_start.len() implies create_tried(
            t,
            repo_root,
            config,
            repo_name,
            bookmark,
            revision,
            source_ws_path,
            ws_path,
            msg,
            quiet,
            hook_started(ws_path, expand_spec((#[trigger] config.post_start[i]).1, vars)),
        ) by {
            law_background_hooks_are_started(
                y3,
                "post-start"@,
                config.post_start,
                vars,
                ws_path,
                quiet,
                i,
            );
            let q = hook_started(ws_path, expand_spec(config.post_start[i].1, vars));
            let k = choose|k: int| #[trigger]
                starts_asked(y3, "post-start"@, config.post_start, vars, ws_path, quiet, k, q);
            assert(start_spec(y.take(y.len() - y3.len() + k), config, vars, ws_path, quiet) is Ask);
            assert(
                dress_spec(
                    u.take(m3 + k),
                    repo_root,
                    config,
                    repo_name,
                    bookmark,
                    ws_path,
                    name_or_empty_spec(ws_path),
                    quiet,
                ) is Ask
            );
            assert(
                create_asks(
                    t,
                    repo_root,
                    config,
                    repo_name,
                    bookmark,
                    revision,
                    source_ws_path,
                    ws_path,
                    msg,
                    quiet,
                    n + m3 + k,
                    q,
                )
            );
        }
    }
}

/// The Finder metadata that was captured is put back in the source and then in the new workspace,
/// whose files are listed for that, and the warnings of both are told.
pub proof fn law_metadata_is_put_back_on_both_sides(
    t: Trace,
    guard: XattrGuardV,
    source: Pairs,
    ws_name: Seq<char>,
    ws_path: Seq<char>,
)
    ensures
        heal_spec(t, guard, source, ws_name, ws_path) matches Out::Got(w, v) ==> {
            &&& restore_spec(t, guard, source) matches Out::Got(a, u)
            &&& 0 < u.len() <= t.len()
            &&& heal_spec(t.take(t.len() - u.len()), guard, source, ws_name, ws_path) == Out::<
                Seq<Seq<char>>,
            >::Ask(
                named_call(
                    Act::JjWs,
                    ws_path,
                    seq!["file"@, "list"@, "--revision"@, "@"@],
                    "file list --revision @"@,
                ),
            )
            &&& restore_new_spec(u, guard, ws_name, ws_path) matches Out::Got(b, x)
            &&& w == a + b
        },
{
    broadcast use {group_rest, replays_restore};

    reveal(heal_spec);
    reveal(restore_new_spec);
    reveal(tracked_files_spec);
    if let Out::Got(a, u) = restore_spec(t, guard, source) {
        assert(is_rest(u, t));
        lemma_rest(u, t);
        assert(u.take(0) =~= Seq::empty());
    }
}

/// A creation that succeeds has listed the files of the new workspace, to put the Finder metadata
/// back on them.
pub proof fn law_create_heals_the_new_workspace(
    t: Trace,
    repo_root: Seq<char>,
    config: ConfigV,
    repo_name: Seq<char>,
    bookmark: Seq<char>,
    revision: Seq<char>,
    source_ws_path: Seq<char>,
    ws_path: Seq<char>,
    msg: Seq<char>,
    quiet: bool,
)
    requires
        create_spec(
            t,
            repo_root,
            config,
            repo_name,
            bookmark,
            revision,
            source_ws_path,
            ws_path,
            msg,
            quiet,
        ) is Got,
    ensures
        create_tried(
            t,
            repo_root,
            config,
            repo_name,
            bookmark,
            revision,
            source_ws_path,
            ws_path,
            msg,
            quiet,
            named_call(
                Act::JjWs,
                ws_path,
                seq!["file"@, "list"@, "--revision"@, "@"@],
                "file list --revision @"@,
            ),
        ),
{
    broadcast use {
        group_rest,
        replays_snapshot_ws,
        replays_capture,
        replays_operations_create_workspace,
        replays_update_workspace_stale,
        replays_restore,
    };

    reveal(create_spec);
    let name = name_or_empty_spec(ws_path);
    let source = seq![("source"@, source_ws_path)];
    let a = attempt_spec(snapshot_ws_spec(t, source_ws_path))->Got_1;
    let captured = capture_spec(a, source, config.preserve_finder_xattrs);
    let b = left(
        create_workspace_spec(
            left(captured),
            repo_root,
            source_ws_path,
            revision,
            ws_path,
            msg,
            config.ji_author,
        ),
    );
    let c = attempt_spec(update_workspace_stale_spec(b, source_ws_path))->Got_1;
    assert(is_rest(c, t));
    law_metadata_is_put_back_on_both_sides(c, captured->Got_0, source, name, ws_path);
    let u = left(restore_spec(c, captured->Got_0, source));
    assert(is_rest(u, t));
    lemma_rest(c, t);
    lemma_rest(u, c);
    lemma_rest(u, t);
    assert(create_asks(
        t,
        repo_root,
        config,
        repo_name,
        bookmark,
        revision,
        source_ws_path,
        ws_path,
        msg,
        quiet,
        t.len() - u.len(),
        named_call(
            Act::JjWs,
            ws_path,
            seq!["file"@, "list"@, "--revision"@, "@"@],
            "file list --revision @"@,
        ),
    ));
}

} // verus!
