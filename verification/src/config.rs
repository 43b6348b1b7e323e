//! The configuration.

use vstd::prelude::*;

use crate::paths::{name_or_empty, name_or_empty_spec, path_join, path_join_spec};
use crate::tape::{
    agrees, at, at_spec, bind, failure, failure_spec, holds, holds_spec, need, need_spec, request,
    request_spec, tell, tell_spec, Act, Out, Stop, Tape, Trace,
};
use crate::templates::{
    validate_path_spec, validate_spec, validate_template, validate_workspace_path_template,
    HOOK_VARS, PATH_VARS, TemplateWarning, TemplateWarningV,
};
use crate::text::{args1, cat2, cat3, empty, trim, trim_spec, Cut};
use crate::text_map::{Pairs, TextMap};

verus! {

#[derive(Debug)]
pub struct Config {
    /// Where new workspaces go.
    pub workspace_path: String,
    /// Takes the place of the directory name as `{{ repo }}`.
    pub repo: Option<String>,
    pub pre_start: TextMap,
    pub post_start: TextMap,
    /// Relative paths and template contents.
    pub templates: TextMap,
    /// The template of the displayed graph.
    pub log_template: Option<String>,
    /// The author of every revision that ji makes.
    pub ji_author: Option<String>,
    /// Is Finder metadata written back?
    pub preserve_finder_xattrs: bool,
    /// What looks wrong in the templates.
    pub warnings: Vec<TemplateWarning>,
}

pub struct ConfigV {
    pub workspace_path: Seq<char>,
    pub repo: Option<Seq<char>>,
    pub pre_start: Pairs,
    pub post_start: Pairs,
    pub templates: Pairs,
    pub log_template: Option<Seq<char>>,
    pub ji_author: Option<Seq<char>>,
    pub preserve_finder_xattrs: bool,
    pub warnings: Seq<TemplateWarningV>,
}

impl DeepView for Config {
    type V = ConfigV;

    open spec fn deep_view(&self) -> ConfigV {
        ConfigV {
            workspace_path: self.workspace_path@,
            repo: self.repo.deep_view(),
            pre_start: self.pre_start.deep_view(),
            post_start: self.post_start.deep_view(),
            templates: self.templates.deep_view(),
            log_template: self.log_template.deep_view(),
            ji_author: self.ji_author.deep_view(),
            preserve_finder_xattrs: self.preserve_finder_xattrs,
            warnings: self.warnings.deep_view(),
        }
    }
}

pub const DEFAULT_WORKSPACE_PATH: &'static str = "../{{ repo }}.{{ bookmark }}";

/// What holds where nothing is configured.
pub open spec fn default_config() -> ConfigV {
    ConfigV {
        workspace_path: DEFAULT_WORKSPACE_PATH@,
        repo: None,
        pre_start: Seq::empty(),
        post_start: Seq::empty(),
        templates: Seq::empty(),
        log_template: None,
        ji_author: None,
        preserve_finder_xattrs: true,
        warnings: Seq::empty(),
    }
}

impl Default for Config {
    fn default() -> (r: Config)
        ensures
            r.deep_view() == default_config(),
    {
        let warnings: Vec<TemplateWarning> = Vec::new();
        assert(warnings.deep_view() =~= Seq::<TemplateWarningV>::empty());
        Config {
            workspace_path: DEFAULT_WORKSPACE_PATH.to_string(),
            repo: None,
            pre_start: TextMap::new(),
            post_start: TextMap::new(),
            templates: TextMap::new(),
            log_template: None,
            ji_author: None,
            preserve_finder_xattrs: true,
            warnings,
        }
    }
}

/// The configured name, unless it is blank, else the name of the directory.
pub open spec fn repo_name_spec(c: ConfigV, repo_root: Seq<char>) -> Seq<char> {
    match c.repo {
        Some(n) => if trim_spec(n, Cut::White).len() != 0 {
            trim_spec(n, Cut::White)
        } else {
            name_or_empty_spec(repo_root)
        },
        None => name_or_empty_spec(repo_root),
    }
}

pub fn resolve_repo_name(config: &Config, repo_root: &str) -> (r: String)
    ensures
        r@ == repo_name_spec(config.deep_view(), repo_root@),
{
    if let Some(n) = &config.repo {
        let name = trim(n, Cut::White);
        if !empty(&name) {
            return name;
        }
    }
    name_or_empty(repo_root)
}

// ---------------------------------------------------------------------------
// Warnings
// ---------------------------------------------------------------------------

pub open spec fn section_step(section: Seq<char>, e: (Seq<char>, Seq<char>)) -> Seq<
    TemplateWarningV,
> {
    validate_spec(e.1, section + "/"@ + e.0, HOOK_VARS@.map_values(|s: &'static str| s@))
}

/// Warnings on the templates of a section, key by key.
pub open spec fn section_warnings(section: Seq<char>, entries: Pairs) -> Seq<TemplateWarningV>
    decreases entries.len(),
{
    if entries.len() == 0 {
        Seq::empty()
    } else {
        section_warnings(section, entries.drop_last()) + section_step(section, entries.last())
    }
}

/// Warnings on all templates of a configuration.
pub open spec fn config_warnings_spec(c: ConfigV) -> Seq<TemplateWarningV> {
    validate_spec(
        c.workspace_path,
        "workspace-path"@,
        PATH_VARS@.map_values(|s: &'static str| s@),
    ) + validate_path_spec(c.workspace_path) + section_warnings("pre-start"@, c.pre_start)
        + section_warnings("post-start"@, c.post_start) + section_warnings(
        "templates"@,
        c.templates,
    )
}

fn join_warnings(a: Vec<TemplateWarning>, b: Vec<TemplateWarning>) -> (r: Vec<TemplateWarning>)
    ensures
        r.deep_view() == a.deep_view() + b.deep_view(),
{
    let ghost x = a.deep_view();
    let ghost y = b.deep_view();
    let mut v = a;
    let mut w = b;
    v.append(&mut w);
    assert(v.deep_view() =~= x + y);
    v
}

fn check_section(section: &str, entries: &TextMap) -> (r: Vec<TemplateWarning>)
    ensures
        r.deep_view() == section_warnings(section@, entries.deep_view()),
{
    let ghost all = entries.deep_view();
    let n = entries.len();
    let mut out: Vec<TemplateWarning> = Vec::new();
    assert(out.deep_view() =~= section_warnings(section@, all.take(0)));
    for i in 0..n
        invariant
            n == all.len(),
            all == entries.deep_view(),
            out.deep_view() == section_warnings(section@, all.take(i as int)),
    {
        assert(all.take(i + 1).drop_last() =~= all.take(i as int));
        let vars = HOOK_VARS;
        let known = vars.as_slice();
        assert(known.deep_view() =~= HOOK_VARS@.map_values(|s: &'static str| s@));
        let context = cat3(section, "/", entries.key(i));
        let w = validate_template(entries.value(i), &context, known);
        out = join_warnings(out, w);
    }
    assert(all.take(all.len() as int) =~= all);
    out
}

/// The warnings that belong to a configuration.
pub fn config_warnings(config: &Config) -> (r: Vec<TemplateWarning>)
    ensures
        r.deep_view() == config_warnings_spec(config.deep_view()),
{
    let vars = PATH_VARS;
    let known = vars.as_slice();
    assert(known.deep_view() =~= PATH_VARS@.map_values(|s: &'static str| s@));
    let a = validate_template(&config.workspace_path, "workspace-path", known);
    let b = validate_workspace_path_template(&config.workspace_path);
    let c = check_section("pre-start", &config.pre_start);
    let d = check_section("post-start", &config.post_start);
    let e = check_section("templates", &config.templates);
    join_warnings(join_warnings(join_warnings(join_warnings(a, b), c), d), e)
}

/// A configuration as it was read, with its warnings.
pub fn load_config(config: Config) -> (r: Config)
    ensures
        r.deep_view() == (ConfigV {
            warnings: config_warnings_spec(config.deep_view()),
            ..config.deep_view()
        }),
{
    let warnings = config_warnings(&config);
    Config { warnings, ..config }
}

#[verifier::opaque]
pub open spec fn create_config_spec(
    t: Trace,
    repo_root: Seq<char>,
    template: Seq<char>,
) -> Out<()> {
    let dir = path_join_spec(repo_root, ".config"@);
    let path = path_join_spec(dir, "ji.toml"@);
    bind(
        holds_spec(t, at_spec(Act::Exists, path)),
        |there: bool, t: Trace|
            if there {
                Out::Fail(failure_spec(path + " already exists"@), t)
            } else {
                bind(
                    need_spec(t, at_spec(Act::MakeDirs, dir), "failed to create "@ + dir),
                    |s: Seq<char>, t: Trace|
                        bind(
                            need_spec(
                                t,
                                request_spec(Act::WriteFile, path, seq![template]),
                                "failed to write "@ + path,
                            ),
                            |s: Seq<char>, t: Trace|
                                tell_spec(t, Act::Warn, "(ji)::config created "@ + path),
                        ),
                )
            },
    )
}

/// Writes a first configuration, unless there is one.
pub fn create_config(tape: &mut Tape, repo_root: &str, template: &str) -> (r: Result<(), Stop>)
    ensures
        agrees(r, final(tape)@, create_config_spec(old(tape)@, repo_root@, template@)),
{
    reveal(create_config_spec);
    let dir = path_join(repo_root, ".config");
    let path = path_join(&dir, "ji.toml");
    if holds(tape, at(Act::Exists, &path))? {
        return Err(Stop::Fail(failure(cat2(&path, " already exists"))));
    }
    let _ = need(tape, at(Act::MakeDirs, &dir), &cat2("failed to create ", &dir))?;
    let _ = need(
        tape,
        request(Act::WriteFile, &path, args1(template)),
        &cat2("failed to write ", &path),
    )?;
    tell(tape, Act::Warn, cat2("(ji)::config created ", &path))
}

} // verus!
