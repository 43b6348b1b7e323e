//! What an installation looks at before it writes.

use vstd::prelude::*;

use crate::paths::{
    components, components_spec, parent, parent_spec, path_join, path_join_spec, same_components,
};
use crate::search::{dec_spec, dec_usize, starts_with};
use crate::shell::env::{ShellEnv, ShellEnvV};
use crate::shell::markers::{copy_via, span, Hit, HitKind, HitKindV, HitV, Via, ViaV};
use crate::tape::{
    agrees, ask, ask_spec, at, at_spec, bind, each, failure, failure_spec, holds, holds_spec,
    lemma_each_step, list, list_spec, need, need_spec, tell, tell_spec, Act, Failure, FailureV,
    Kind, Out, ReplyV, Stop, Tape, Trace,
};
use crate::text::{args2, cat2, cat3, cat4, cat5, same};

verus! {

// ---------------------------------------------------------------------------
// Primary files
// ---------------------------------------------------------------------------

pub open spec fn zsh_primary_spec(env: ShellEnvV) -> Seq<char> {
    path_join_spec(env.zdotdir, ".zshrc"@)
}

pub fn zsh_primary(env: &ShellEnv) -> (r: String)
    ensures
        r@ == zsh_primary_spec(env.deep_view()),
{
    path_join(&env.zdotdir, ".zshrc")
}

pub open spec fn fish_primary_spec(env: ShellEnvV) -> Seq<char> {
    path_join_spec(env.xdg_config_home, "fish/functions/ji.fish"@)
}

pub fn fish_primary(env: &ShellEnv) -> (r: String)
    ensures
        r@ == fish_primary_spec(env.deep_view()),
{
    path_join(&env.xdg_config_home, "fish/functions/ji.fish")
}

pub open spec fn fish_completions_spec(env: ShellEnvV) -> Seq<char> {
    path_join_spec(env.xdg_config_home, "fish/completions/ji.fish"@)
}

pub fn fish_completions_path(env: &ShellEnv) -> (r: String)
    ensures
        r@ == fish_completions_spec(env.deep_view()),
{
    path_join(&env.xdg_config_home, "fish/completions/ji.fish")
}

/// A file that fish reads at its start. It would define `ji` before ours is loaded.
pub open spec fn fish_shadow_spec(env: ShellEnvV) -> Seq<char> {
    path_join_spec(env.xdg_config_home, "fish/conf.d/ji.fish"@)
}

pub fn fish_shadow_path(env: &ShellEnv) -> (r: String)
    ensures
        r@ == fish_shadow_spec(env.deep_view()),
{
    path_join(&env.xdg_config_home, "fish/conf.d/ji.fish")
}

#[verifier::opaque]
pub open spec fn bash_primary_spec(t: Trace, env: ShellEnvV) -> Out<Seq<char>> {
    let a = path_join_spec(env.home, ".bash_profile"@);
    let b = path_join_spec(env.home, ".bash_login"@);
    let c = path_join_spec(env.home, ".profile"@);
    bind(
        holds_spec(t, at_spec(Act::Exists, a)),
        |there: bool, t: Trace|
            if there {
                Out::Got(a, t)
            } else {
                bind(
                    holds_spec(t, at_spec(Act::Exists, b)),
                    |there: bool, t: Trace|
                        if there {
                            Out::Got(b, t)
                        } else {
                            bind(
                                holds_spec(t, at_spec(Act::Exists, c)),
                                |there: bool, t: Trace|
                                    Out::Got(
                                        if there {
                                            c
                                        } else {
                                            a
                                        },
                                        t,
                                    ),
                            )
                        },
                )
            },
    )
}

/// The first login file of bash that exists, else the one to create.
pub fn bash_primary(tape: &mut Tape, env: &ShellEnv) -> (r: Result<String, Stop>)
    ensures
        agrees(r, final(tape)@, bash_primary_spec(old(tape)@, env.deep_view())),
{
    reveal(bash_primary_spec);
    let a = path_join(&env.home, ".bash_profile");
    let b = path_join(&env.home, ".bash_login");
    let c = path_join(&env.home, ".profile");
    if holds(tape, at(Act::Exists, &a))? {
        return Ok(a);
    }
    if holds(tape, at(Act::Exists, &b))? {
        return Ok(b);
    }
    if holds(tape, at(Act::Exists, &c))? {
        return Ok(c);
    }
    Ok(a)
}

#[verifier::opaque]
pub open spec fn posix_primary_spec(t: Trace, env: ShellEnvV, shell: Seq<char>) -> Out<Seq<char>> {
    if shell == "zsh"@ {
        Out::Got(zsh_primary_spec(env), t)
    } else {
        bash_primary_spec(t, env)
    }
}

/// The rc file of zsh or bash.
pub fn posix_primary(tape: &mut Tape, env: &ShellEnv, shell: &str) -> (r: Result<String, Stop>)
    ensures
        agrees(r, final(tape)@, posix_primary_spec(old(tape)@, env.deep_view(), shell@)),
{
    reveal(posix_primary_spec);
    if same(shell, "zsh") {
        Ok(zsh_primary(env))
    } else {
        bash_primary(tape, env)
    }
}

// ---------------------------------------------------------------------------
// Dotfile managers
// ---------------------------------------------------------------------------

pub open spec fn chezmoi_markers(dir: Seq<char>) -> Seq<Seq<char>> {
    seq![
        path_join_spec(dir, "chezmoi.toml"@),
        path_join_spec(dir, ".chezmoiroot"@),
        path_join_spec(dir, ".chezmoiignore"@),
        path_join_spec(dir, ".chezmoiversion"@),
    ]
}

/// Does one of the paths exist? The first that does ends the search.
pub open spec fn any_exists_spec(t: Trace, paths: Seq<Seq<char>>) -> Out<bool>
    decreases paths.len(),
{
    if paths.len() == 0 {
        Out::Got(false, t)
    } else {
        match holds_spec(t, at_spec(Act::Exists, paths[0])) {
            Out::Ask(q) => Out::Ask(q),
            Out::Fail(e, u) => Out::Fail(e, u),
            Out::Got(there, u) => if there {
                Out::Got(true, u)
            } else {
                any_exists_spec(u, paths.drop_first())
            },
        }
    }
}

fn any_exists(tape: &mut Tape, paths: &Vec<String>) -> (r: Result<bool, Stop>)
    ensures
        agrees(r, final(tape)@, any_exists_spec(old(tape)@, paths.deep_view())),
{
    let ghost all = paths.deep_view();
    assert(all.skip(0) =~= all);
    for i in 0..paths.len()
        invariant
            all == paths.deep_view(),
            any_exists_spec(old(tape)@, all) == any_exists_spec(tape@, all.skip(i as int)),
    {
        proof {
            lemma_each_step(all, i as int);
        }
        assert(all[i as int] == paths@[i as int]@);
        if holds(tape, at(Act::Exists, &paths[i]))? {
            return Ok(true);
        }
    }
    Ok(false)
}

/// The places that tell a chezmoi source directory: the two directories above the file.
pub open spec fn chezmoi_places(canonical: Seq<char>) -> Seq<Seq<char>> {
    match parent_spec(canonical) {
        None => Seq::empty(),
        Some(a) => match parent_spec(a) {
            None => chezmoi_markers(a),
            Some(b) => chezmoi_markers(a) + chezmoi_markers(b),
        },
    }
}

fn add_markers(out: &mut Vec<String>, dir: &str)
    ensures
        final(out).deep_view() == old(out).deep_view() + chezmoi_markers(dir@),
{
    let ghost before = out.deep_view();
    out.push(path_join(dir, "chezmoi.toml"));
    out.push(path_join(dir, ".chezmoiroot"));
    out.push(path_join(dir, ".chezmoiignore"));
    out.push(path_join(dir, ".chezmoiversion"));
    assert(out.deep_view() =~= before + chezmoi_markers(dir@));
}

#[verifier::opaque]
pub open spec fn chezmoi_strong_signal_spec(t: Trace, canonical: Seq<char>) -> Out<bool> {
    any_exists_spec(t, chezmoi_places(canonical))
}

/// Is a file in the source directory of chezmoi?
pub fn chezmoi_strong_signal(tape: &mut Tape, canonical: &str) -> (r: Result<bool, Stop>)
    ensures
        agrees(r, final(tape)@, chezmoi_strong_signal_spec(old(tape)@, canonical@)),
{
    reveal(chezmoi_strong_signal_spec);
    let mut places: Vec<String> = Vec::new();
    assert(places.deep_view() =~= Seq::empty());
    if let Some(a) = parent(canonical) {
        add_markers(&mut places, &a);
        assert(Seq::<Seq<char>>::empty() + chezmoi_markers(a@) =~= chezmoi_markers(a@));
        if let Some(b) = parent(&a) {
            add_markers(&mut places, &b);
        }
    }
    any_exists(tape, &places)
}

/// Is the path in the directory?
pub open spec fn lies_in(path: Seq<char>, dir: Seq<char>) -> bool {
    components_spec(dir).is_prefix_of(components_spec(path))
}

pub fn is_below(path: &str, dir: &str) -> (r: bool)
    ensures
        r == lies_in(path@, dir@),
{
    let p = components(path);
    let d = components(dir);
    assert(p.deep_view().len() == p@.len());
    assert(d.deep_view().len() == d@.len());
    if d.len() > p.len() {
        return false;
    }
    for i in 0..d.len()
        invariant
            d@.len() <= p@.len(),
            p.deep_view() == components_spec(path@),
            d.deep_view() == components_spec(dir@),
            forall|j: int| 0 <= j < i ==> d.deep_view()[j] == p.deep_view()[j],
    {
        assert(p.deep_view()[i as int] == p@[i as int]@);
        assert(d.deep_view()[i as int] == d@[i as int]@);
        if !same(&p[i], &d[i]) {
            assert(components_spec(path@).take(components_spec(dir@).len() as int)[i as int]
                == components_spec(path@)[i as int]);
            return false;
        }
    }
    assert(components_spec(dir@) =~= components_spec(path@).take(
        components_spec(dir@).len() as int,
    ));
    true
}

/// A name as a dotfile manager writes it.
pub open spec fn managed_name(name: Seq<char>) -> bool {
    "dot_"@.is_prefix_of(name) || "private_"@.is_prefix_of(name) || "symlink_"@.is_prefix_of(name)
}

pub open spec fn any_managed(names: Seq<Seq<char>>) -> bool {
    exists|i: int| 0 <= i < names.len() && managed_name(#[trigger] names[i])
}

fn has_managed(names: &Vec<String>) -> (r: bool)
    ensures
        r == any_managed(names.deep_view()),
{
    for i in 0..names.len()
        invariant
            forall|j: int| 0 <= j < i ==> !managed_name(#[trigger] names.deep_view()[j]),
    {
        assert(names.deep_view()[i as int] == names@[i as int]@);
        if starts_with(&names[i], "dot_") || starts_with(&names[i], "private_") || starts_with(
            &names[i],
            "symlink_",
        ) {
            return true;
        }
    }
    false
}

#[verifier::opaque]
pub open spec fn dotfile_manager_soft_signal_spec(
    t: Trace,
    env: ShellEnvV,
    canonical: Seq<char>,
) -> Out<bool> {
    if !lies_in(canonical, env.home) {
        Out::Got(true, t)
    } else {
        match parent_spec(canonical) {
            None => Out::Got(false, t),
            Some(dir) => bind(
                list_spec(t, at_spec(Act::ListDir, dir)),
                |names: Option<Seq<Seq<char>>>, t: Trace|
                    Out::Got(
                        match names {
                            Some(ns) => any_managed(ns),
                            None => false,
                        },
                        t,
                    ),
            ),
        }
    }
}

/// Is a file outside of the home directory, or among files that a dotfile manager named?
pub fn dotfile_manager_soft_signal(
    tape: &mut Tape,
    env: &ShellEnv,
    canonical: &str,
) -> (r: Result<bool, Stop>)
    ensures
        agrees(
            r,
            final(tape)@,
            dotfile_manager_soft_signal_spec(old(tape)@, env.deep_view(), canonical@),
        ),
{
    reveal(dotfile_manager_soft_signal_spec);
    if !is_below(canonical, &env.home) {
        return Ok(true);
    }
    match parent(canonical) {
        None => Ok(false),
        Some(dir) => match list(tape, at(Act::ListDir, &dir))? {
            Some(names) => Ok(has_managed(&names)),
            None => Ok(false),
        },
    }
}

#[verifier::opaque]
pub open spec fn check_writable_spec(t: Trace, primary: Seq<char>) -> Out<()> {
    bind(
        ask_spec(t, at_spec(Act::IsReadOnly, primary)),
        |r: ReplyV, t: Trace|
            match r.kind {
                Kind::Done => Out::Fail(
                    failure_spec("(ji)::shell: "@ + primary + " is not writable"@),
                    t,
                ),
                Kind::Nonzero => Out::Got((), t),
                _ => Out::Fail(
                    FailureV { chain: seq!["failed to stat "@ + primary, r.err], command: None },
                    t,
                ),
            },
    )
}

fn check_writable(tape: &mut Tape, primary: &str) -> (r: Result<(), Stop>)
    ensures
        agrees(r, final(tape)@, check_writable_spec(old(tape)@, primary@)),
{
    reveal(check_writable_spec);
    let r = ask(tape, at(Act::IsReadOnly, primary))?;
    match r.kind {
        Kind::Done => Err(
            Stop::Fail(failure(cat3("(ji)::shell: ", primary, " is not writable"))),
        ),
        Kind::Nonzero => Ok(()),
        _ => {
            let msg = cat2("failed to stat ", primary);
            Err(Stop::Fail(Failure { chain: args2(&msg, &r.err), command: None }))
        },
    }
}

pub open spec fn chezmoi_refusal(primary: Seq<char>, canonical: Seq<char>) -> Seq<char> {
    "(ji)::shell: "@ + primary + " resolves into a chezmoi source directory ("@ + canonical
        + "); edits will be reverted by `chezmoi apply`. Pass --force to install anyway."@
}

pub open spec fn dotfile_note(primary: Seq<char>, canonical: Seq<char>) -> Seq<char> {
    "(ji)::shell: note: "@ + primary + " resolves to "@ + canonical
        + " (outside $HOME or dotfile-manager-shaped layout); edits may be reverted by your dotfile tool."@
}

#[verifier::opaque]
pub open spec fn note_dotfiles_spec(
    t: Trace,
    env: ShellEnvV,
    primary: Seq<char>,
    canonical: Seq<char>,
) -> Out<()> {
    bind(
        dotfile_manager_soft_signal_spec(t, env, canonical),
        |soft: bool, t: Trace|
            if soft {
                tell_spec(t, Act::Warn, dotfile_note(primary, canonical))
            } else {
                Out::Got((), t)
            },
    )
}

fn note_dotfiles(
    tape: &mut Tape,
    env: &ShellEnv,
    primary: &str,
    canonical: &str,
) -> (r: Result<(), Stop>)
    ensures
        agrees(
            r,
            final(tape)@,
            note_dotfiles_spec(old(tape)@, env.deep_view(), primary@, canonical@),
        ),
{
    reveal(note_dotfiles_spec);
    if dotfile_manager_soft_signal(tape, env, canonical)? {
        return tell(
            tape,
            Act::Warn,
            cat5(
                "(ji)::shell: note: ",
                primary,
                " resolves to ",
                canonical,
                " (outside $HOME or dotfile-manager-shaped layout); edits may be reverted by your dotfile tool.",
            ),
        );
    }
    Ok(())
}

#[verifier::opaque]
pub open spec fn check_primary_spec(
    t: Trace,
    env: ShellEnvV,
    primary: Seq<char>,
    force: bool,
) -> Out<()> {
    bind(
        holds_spec(t, at_spec(Act::Exists, primary)),
        |there: bool, t: Trace|
            if !there {
                Out::Got((), t)
            } else {
                bind(
                    need_spec(
                        t,
                        at_spec(Act::Canonical, primary),
                        "failed to canonicalize "@ + primary,
                    ),
                    |canonical: Seq<char>, t: Trace|
                        bind(
                            chezmoi_strong_signal_spec(t, canonical),
                            |strong: bool, t: Trace|
                                if strong && !force {
                                    Out::Fail(failure_spec(chezmoi_refusal(primary, canonical)), t)
                                } else {
                                    bind(
                                        note_dotfiles_spec(t, env, primary, canonical),
                                        |u: (), t: Trace| check_writable_spec(t, primary),
                                    )
                                },
                        ),
                )
            },
    )
}

/// May the rc file be changed? A file that chezmoi owns needs `force`, one that another tool may own
/// is noted, and one that is read-only is refused.
pub fn check_primary(
    tape: &mut Tape,
    env: &ShellEnv,
    primary: &str,
    force: bool,
) -> (r: Result<(), Stop>)
    ensures
        agrees(r, final(tape)@, check_primary_spec(old(tape)@, env.deep_view(), primary@, force)),
{
    reveal(check_primary_spec);
    if !holds(tape, at(Act::Exists, primary))? {
        return Ok(());
    }
    let canonical = need(
        tape,
        at(Act::Canonical, primary),
        &cat2("failed to canonicalize ", primary),
    )?;
    if chezmoi_strong_signal(tape, &canonical)? && !force {
        return Err(
            Stop::Fail(
                failure(
                    cat5(
                        "(ji)::shell: ",
                        primary,
                        " resolves into a chezmoi source directory (",
                        &canonical,
                        "); edits will be reverted by `chezmoi apply`. Pass --force to install anyway.",
                    ),
                ),
            ),
        );
    }
    note_dotfiles(tape, env, primary, &canonical)?;
    check_writable(tape, primary)
}

// ---------------------------------------------------------------------------
// Choosing among hits
// ---------------------------------------------------------------------------

/// A kind of hit that matters.
#[derive(Clone, Copy, PartialEq, Eq, Structural, Debug)]
pub enum Pick {
    Malformed,
    /// A block in the primary file.
    OwnBlock,
    /// A line in the primary file that loads the integration.
    OwnLegacy,
    /// A block or a line that loads the integration, elsewhere.
    Foreign,
    Unresolved,
}

pub open spec fn picks(k: Pick, primary: Seq<char>, h: HitV) -> bool {
    let own = components_spec(h.path) == components_spec(primary);
    match k {
        Pick::Malformed => h.kind is MalformedMarker,
        Pick::OwnBlock => own && h.kind is MarkerBlock,
        Pick::OwnLegacy => own && h.kind is Legacy,
        Pick::Foreign => !own && (h.kind is MarkerBlock || h.kind is Legacy),
        Pick::Unresolved => h.kind is UnresolvedSource,
    }
}

pub open spec fn picked(k: Pick, primary: Seq<char>, hits: Seq<HitV>) -> Seq<HitV>
    decreases hits.len(),
{
    if hits.len() == 0 {
        hits
    } else if picks(k, primary, hits.last()) {
        picked(k, primary, hits.drop_last()).push(hits.last())
    } else {
        picked(k, primary, hits.drop_last())
    }
}

pub fn copy_hit(h: &Hit) -> (r: Hit)
    ensures
        r.deep_view() == h.deep_view(),
{
    let kind = match &h.kind {
        HitKind::MarkerBlock { start, end } => HitKind::MarkerBlock { start: *start, end: *end },
        HitKind::Legacy => HitKind::Legacy,
        HitKind::MalformedMarker => HitKind::MalformedMarker,
        HitKind::UnresolvedSource(raw) => HitKind::UnresolvedSource(raw.clone()),
    };
    Hit {
        path: h.path.clone(),
        line_no: h.line_no,
        line_text: h.line_text.clone(),
        kind,
        via: copy_via(&h.via),
    }
}

/// The hits of a kind, in their order.
pub fn pick(k: Pick, primary: &str, hits: &Vec<Hit>) -> (r: Vec<Hit>)
    ensures
        r.deep_view() == picked(k, primary@, hits.deep_view()),
{
    let ghost all = hits.deep_view();
    let mut out: Vec<Hit> = Vec::new();
    assert(out.deep_view() =~= picked(k, primary@, all.take(0)));
    for i in 0..hits.len()
        invariant
            all == hits.deep_view(),
            out.deep_view() == picked(k, primary@, all.take(i as int)),
    {
        let ghost before = out.deep_view();
        assert(all.take(i + 1).drop_last() =~= all.take(i as int));
        assert(all[i as int] == hits@[i as int].deep_view());
        let own = same_components(&hits[i].path, primary);
        let fits = match (k, &hits[i].kind) {
            (Pick::Malformed, HitKind::MalformedMarker) => true,
            (Pick::OwnBlock, HitKind::MarkerBlock { .. }) => own,
            (Pick::OwnLegacy, HitKind::Legacy) => own,
            (Pick::Foreign, HitKind::MarkerBlock { .. }) => !own,
            (Pick::Foreign, HitKind::Legacy) => !own,
            (Pick::Unresolved, HitKind::UnresolvedSource(_)) => true,
            _ => false,
        };
        assert(fits == picks(k, primary@, all[i as int]));
        if fits {
            out.push(copy_hit(&hits[i]));
            assert(out.deep_view() =~= before.push(all[i as int]));
        }
    }
    assert(all.take(all.len() as int) =~= all);
    out
}

pub open spec fn place(h: HitV) -> Seq<char> {
    h.path + ":"@ + dec_spec(h.line_no)
}

pub fn place_of(h: &Hit) -> (r: String)
    ensures
        r@ == place(h.deep_view()),
{
    cat3(&h.path, ":", &dec_usize(h.line_no))
}

/// How a file is reached.
pub open spec fn via_text_spec(via: Option<ViaV>) -> Seq<char> {
    match via {
        Some(v) => " (via source line "@ + dec_spec(v.line_no) + " in "@ + v.path + ")"@,
        None => Seq::empty(),
    }
}

pub fn via_text(via: &Option<Via>) -> (r: String)
    ensures
        r@ == via_text_spec(via.deep_view()),
{
    match via {
        Some(v) => cat5(" (via source line ", &dec_usize(v.line_no), " in ", &v.path, ")"),
        None => {
            let s = String::new();
            assert(s@ =~= Seq::<char>::empty());
            s
        },
    }
}

/// The reason not to install: markers that belong to no block.
pub open spec fn malformed_refusal(h: HitV) -> FailureV {
    failure_spec(
        "(ji)::shell: malformed marker block in "@ + place(h)
            + " \u{2014} edit manually or pass --force to overwrite"@,
    )
}

pub open spec fn check_malformed_spec(hits: Seq<HitV>, primary: Seq<char>, force: bool) -> Option<
    FailureV,
> {
    let bad = picked(Pick::Malformed, primary, hits);
    if bad.len() > 0 && !force {
        Some(malformed_refusal(bad[0]))
    } else {
        None
    }
}

pub fn check_malformed(hits: &Vec<Hit>, primary: &str, force: bool) -> (r: Option<Failure>)
    ensures
        r.deep_view() == check_malformed_spec(hits.deep_view(), primary@, force),
{
    let bad = pick(Pick::Malformed, primary, hits);
    assert(bad.deep_view().len() == bad@.len());
    if bad.len() > 0 && !force {
        assert(bad.deep_view()[0] == bad@[0].deep_view());
        Some(
            failure(
                cat3(
                    "(ji)::shell: malformed marker block in ",
                    &place_of(&bad[0]),
                    " \u{2014} edit manually or pass --force to overwrite",
                ),
            ),
        )
    } else {
        None
    }
}

/// The reason not to install: another file loads the integration.
pub open spec fn foreign_refusal(h: HitV, how: Seq<char>) -> FailureV {
    failure_spec(
        "(ji)::shell: existing integration found in "@ + place(h) + how
            + " \u{2014} remove it manually, or pass --force to install anyway."@,
    )
}

pub open spec fn check_foreign_spec(
    hits: Seq<HitV>,
    primary: Seq<char>,
    force: bool,
    name_via: bool,
) -> Option<FailureV> {
    let found = picked(Pick::Foreign, primary, hits);
    if found.len() > 0 && !force {
        Some(
            foreign_refusal(
                found[0],
                if name_via {
                    via_text_spec(found[0].via)
                } else {
                    Seq::empty()
                },
            ),
        )
    } else {
        None
    }
}

pub fn check_foreign(hits: &Vec<Hit>, primary: &str, force: bool, name_via: bool) -> (r: Option<
    Failure,
>)
    ensures
        r.deep_view() == check_foreign_spec(hits.deep_view(), primary@, force, name_via),
{
    let found = pick(Pick::Foreign, primary, hits);
    assert(found.deep_view().len() == found@.len());
    if found.len() > 0 && !force {
        assert(found.deep_view()[0] == found@[0].deep_view());
        let how = if name_via {
            via_text(&found[0].via)
        } else {
            let s = String::new();
            assert(s@ =~= Seq::<char>::empty());
            s
        };
        Some(
            failure(
                cat4(
                    "(ji)::shell: existing integration found in ",
                    &place_of(&found[0]),
                    &how,
                    " \u{2014} remove it manually, or pass --force to install anyway.",
                ),
            ),
        )
    } else {
        None
    }
}

/// The reason not to install: the rc file loads the integration outside of a block.
pub open spec fn check_own_legacy_spec(hits: Seq<HitV>, primary: Seq<char>, force: bool) -> Option<
    FailureV,
> {
    let found = picked(Pick::OwnLegacy, primary, hits);
    if found.len() > 0 && picked(Pick::OwnBlock, primary, hits).len() == 0 && !force {
        Some(
            failure_spec(
                "(ji)::shell: existing integration line found in "@ + place(found[0])
                    + " \u{2014} remove it manually, or pass --force to install alongside it."@,
            ),
        )
    } else {
        None
    }
}

pub fn check_own_legacy(hits: &Vec<Hit>, primary: &str, force: bool) -> (r: Option<Failure>)
    ensures
        r.deep_view() == check_own_legacy_spec(hits.deep_view(), primary@, force),
{
    let found = pick(Pick::OwnLegacy, primary, hits);
    let blocks = pick(Pick::OwnBlock, primary, hits);
    assert(found.deep_view().len() == found@.len());
    assert(blocks.deep_view().len() == blocks@.len());
    if found.len() > 0 && blocks.len() == 0 && !force {
        assert(found.deep_view()[0] == found@[0].deep_view());
        Some(
            failure(
                cat3(
                    "(ji)::shell: existing integration line found in ",
                    &place_of(&found[0]),
                    " \u{2014} remove it manually, or pass --force to install alongside it.",
                ),
            ),
        )
    } else {
        None
    }
}

/// Where the block of the rc file is.
pub open spec fn own_block_spec(hits: Seq<HitV>, primary: Seq<char>) -> Option<(nat, nat)> {
    let found = picked(Pick::OwnBlock, primary, hits);
    if found.len() == 0 {
        None
    } else {
        match found[0].kind {
            HitKindV::MarkerBlock { start, end } => Some((start, end)),
            _ => None,
        }
    }
}

pub fn own_block(hits: &Vec<Hit>, primary: &str) -> (r: Option<(usize, usize)>)
    ensures
        span(r) == own_block_spec(hits.deep_view(), primary@),
{
    let found = pick(Pick::OwnBlock, primary, hits);
    assert(found.deep_view().len() == found@.len());
    if found.len() == 0 {
        return None;
    }
    assert(found.deep_view()[0] == found@[0].deep_view());
    match &found[0].kind {
        HitKind::MarkerBlock { start, end } => Some((*start, *end)),
        _ => None,
    }
}

/// A line that loads a file which cannot be told.
pub open spec fn unresolved_note(h: HitV) -> Seq<char> {
    "(ji)::shell: note: unresolved source-like line in "@ + place(h) + " (`"@ + (match h.kind {
        HitKindV::UnresolvedSource(raw) => raw,
        _ => Seq::empty(),
    }) + "`)"@
}

pub open spec fn note_step() -> spec_fn(Trace, (), HitV) -> Out<()> {
    |t: Trace, u: (), h: HitV| tell_spec(t, Act::Warn, unresolved_note(h))
}

#[verifier::opaque]
pub open spec fn note_unresolved_spec(t: Trace, hits: Seq<HitV>, primary: Seq<char>) -> Out<()> {
    each(t, picked(Pick::Unresolved, primary, hits), (), note_step())
}

/// Notes the lines that load files which cannot be told.
pub fn note_unresolved(tape: &mut Tape, hits: &Vec<Hit>, primary: &str) -> (r: Result<(), Stop>)
    ensures
        agrees(r, final(tape)@, note_unresolved_spec(old(tape)@, hits.deep_view(), primary@)),
{
    reveal(note_unresolved_spec);
    let found = pick(Pick::Unresolved, primary, hits);
    let ghost t0 = tape@;
    let ghost all = found.deep_view();
    let ghost step = note_step();
    assert(all.skip(0) =~= all);
    for i in 0..found.len()
        invariant
            t0 == old(tape)@,
            all == found.deep_view(),
            step == note_step(),
            note_unresolved_spec(t0, hits.deep_view(), primary@) == each(t0, all, (), step),
            each(t0, all, (), step) == each(tape@, all.skip(i as int), (), step),
    {
        proof {
            lemma_each_step(all, i as int);
        }
        assert(all[i as int] == found@[i as int].deep_view());
        let raw = match &found[i].kind {
            HitKind::UnresolvedSource(raw) => raw.clone(),
            _ => {
                let s = String::new();
                assert(s@ =~= Seq::<char>::empty());
                s
            },
        };
        let at = place_of(&found[i]);
        tell(
            tape,
            Act::Warn,
            cat5(
                "(ji)::shell: note: unresolved source-like line in ",
                &at,
                " (`",
                &raw,
                "`)",
            ),
        )?;
    }
    Ok(())
}

} // verus!
