use ji::config::{config_warnings, resolve_repo_name, Config};
use ji::templates::{
    derive_bookmark_from_ws_name, expand, known_vars_hint, validate_template,
    validate_workspace_path_template, WarningKind, HOOK_VARS, PATH_VARS,
};
use ji::text_map::TextMap;

#[test]
fn valid_template_produces_no_warnings() {
    let w = validate_template("../{{ repo }}.{{ bookmark }}", "test", &PATH_VARS);
    assert!(w.is_empty(), "expected no warnings, got: {w:?}");
}

#[test]
fn unknown_variable_detected() {
    let w = validate_template("{{ bbb }}", "workspace-path", &PATH_VARS);
    assert_eq!(w.len(), 1);
    assert_eq!(w[0].pattern, "{{ bbb }}");
    assert_eq!(w[0].kind, WarningKind::UnknownVariable);
    assert_eq!(w[0].context, "workspace-path");
}

#[test]
fn malformed_no_spaces() {
    let w = validate_template("{{home}}", "workspace-path", &PATH_VARS);
    assert_eq!(w.len(), 1);
    assert_eq!(w[0].pattern, "{{home}}");
    assert_eq!(w[0].kind, WarningKind::MalformedDelimiters);
}

#[test]
fn malformed_asymmetric_spaces() {
    let w = validate_template("{{ home}}", "workspace-path", &PATH_VARS);
    assert_eq!(w.len(), 1);
    assert_eq!(w[0].kind, WarningKind::MalformedDelimiters);

    let w = validate_template("{{home }}", "workspace-path", &PATH_VARS);
    assert_eq!(w.len(), 1);
    assert_eq!(w[0].kind, WarningKind::MalformedDelimiters);
}

#[test]
fn malformed_single_braces() {
    let w = validate_template("{home}", "workspace-path", &PATH_VARS);
    assert_eq!(w.len(), 1);
    assert_eq!(w[0].pattern, "{home}");
    assert_eq!(w[0].kind, WarningKind::MalformedDelimiters);
}

#[test]
fn single_braces_with_spaces() {
    let w = validate_template("{ home }", "workspace-path", &PATH_VARS);
    assert_eq!(w.len(), 1);
    assert_eq!(w[0].kind, WarningKind::MalformedDelimiters);
}

#[test]
fn unknown_with_malformed_delimiters() {
    let w = validate_template("{{bbb}}", "workspace-path", &PATH_VARS);
    assert_eq!(w.len(), 1);
    assert_eq!(w[0].kind, WarningKind::UnknownVariable);
}

#[test]
fn multiple_issues_in_one_template() {
    let w = validate_template("../{{ bbb }}/{{home}}/{{ repo }}", "workspace-path", &PATH_VARS);
    assert_eq!(w.len(), 2);
    assert_eq!(w[0].pattern, "{{ bbb }}");
    assert_eq!(w[0].kind, WarningKind::UnknownVariable);
    assert_eq!(w[1].pattern, "{{home}}");
    assert_eq!(w[1].kind, WarningKind::MalformedDelimiters);
}

#[test]
fn hook_vars_superset_of_path_vars() {
    for v in PATH_VARS {
        assert!(HOOK_VARS.contains(&v), "{v} should be in HOOK_VARS");
    }
}

#[test]
fn no_false_positives_on_plain_text() {
    let w = validate_template("/some/path/to/dir", "test", &PATH_VARS);
    assert!(w.is_empty());
}

#[test]
fn no_false_positives_on_json_braces() {
    let w = validate_template(r#"{"key": "value"}"#, "test", &HOOK_VARS);
    assert!(w.is_empty());
}

#[test]
fn no_false_positives_on_shell_vars() {
    let w = validate_template("echo ${HOME}/bin", "pre-start/test", &HOOK_VARS);
    assert!(w.is_empty());
}

#[test]
fn hook_context_allows_workspace_path() {
    let w = validate_template("{{ workspace_path }}", "pre-start/mcp", &HOOK_VARS);
    assert!(w.is_empty());
}

#[test]
fn path_context_rejects_workspace_path() {
    let w = validate_template("{{ workspace_path }}", "workspace-path", &PATH_VARS);
    assert_eq!(w.len(), 1);
    assert_eq!(w[0].kind, WarningKind::UnknownVariable);
}

#[test]
fn ws_template_with_bookmark_no_missing_warning() {
    let w = validate_workspace_path_template("../{{ repo }}.{{ bookmark }}");
    assert!(
        !w.iter().any(|w| w.kind == WarningKind::MissingBookmark),
        "expected no MissingBookmark, got: {w:?}"
    );
}

#[test]
fn ws_template_without_bookmark_warns() {
    let w = validate_workspace_path_template("../{{ repo }}");
    assert_eq!(w.len(), 1);
    assert_eq!(w[0].kind, WarningKind::MissingBookmark);
}

#[test]
fn ws_template_tilde_slash_warns() {
    let w = validate_workspace_path_template("~/workspaces/{{ bookmark }}");
    assert!(w.iter().any(|w| w.kind == WarningKind::ShellSyntax && w.pattern == "~"));
}

#[test]
fn ws_template_bare_tilde_warns() {
    let w = validate_workspace_path_template("~");
    assert!(w.iter().any(|w| w.kind == WarningKind::ShellSyntax && w.pattern == "~"));
    assert!(w.iter().any(|w| w.kind == WarningKind::MissingBookmark));
}

#[test]
fn ws_template_shell_var_warns() {
    let w = validate_workspace_path_template("${HOME}/ws/{{ bookmark }}");
    assert!(w.iter().any(|w| w.kind == WarningKind::ShellSyntax && w.pattern == "${HOME}"));
}

#[test]
fn ws_template_home_var_no_shell_warning() {
    let w = validate_workspace_path_template("{{ home }}/ws/{{ bookmark }}");
    assert!(
        !w.iter().any(|w| w.kind == WarningKind::ShellSyntax),
        "expected no ShellSyntax, got: {w:?}"
    );
}

#[test]
fn ws_template_combined_issues() {
    let w = validate_workspace_path_template("~/ws/${USER}");
    assert!(w.iter().any(|w| w.kind == WarningKind::MissingBookmark));
    assert!(w.iter().any(|w| w.kind == WarningKind::ShellSyntax && w.pattern == "~"));
    assert!(w.iter().any(|w| w.kind == WarningKind::ShellSyntax && w.pattern == "${USER}"));
}

#[test]
fn expansion_fills_known_variables_only() {
    let vars = TextMap::new().with("repo", "proj").with("bookmark", "feat-x");
    assert_eq!(expand("../{{ repo }}.{{ bookmark }}", &vars), "../proj.feat-x");
    assert_eq!(expand("{{ other }} {{repo}}", &vars), "{{ other }} {{repo}}");
}

#[test]
fn bookmark_comes_back_from_the_workspace_name() {
    let template = "../{{ repo }}.{{ bookmark }}";
    assert_eq!(
        derive_bookmark_from_ws_name(template, "proj", "proj.feat-x").as_deref(),
        Some("feat-x")
    );
    assert_eq!(derive_bookmark_from_ws_name(template, "proj", "other.feat-x"), None);
    assert_eq!(derive_bookmark_from_ws_name(template, "proj", "proj."), None);
}

#[test]
fn expanded_names_read_back() {
    let vars = TextMap::new().with("bookmark", "feat").with("repo", "proj");
    for name in ["{{ bookmark }}", "{{ repo }}.{{ bookmark }}", "a{{ bookmark }}{{ repo }}b{{ repo }}"] {
        let template = format!("../{{{{ home }}}}/{name}");
        let ws = expand(name, &vars);
        assert_eq!(derive_bookmark_from_ws_name(&template, "proj", &ws).as_deref(), Some("feat"));
    }
}

#[test]
fn later_values_replace_earlier_ones() {
    let m = TextMap::new().with("b", "1").with("a", "2").with("b", "3");
    assert_eq!(m.len(), 2);
    assert_eq!((m.key(0).as_str(), m.value(0).as_str()), ("a", "2"));
    assert_eq!((m.key(1).as_str(), m.value(1).as_str()), ("b", "3"));
}

#[test]
fn repo_name_is_configured_or_the_directory() {
    let mut config = Config::default();
    assert_eq!(resolve_repo_name(&config, "/src/proj"), "proj");
    config.repo = Some("  ".to_string());
    assert_eq!(resolve_repo_name(&config, "/src/proj"), "proj");
    config.repo = Some(" named ".to_string());
    assert_eq!(resolve_repo_name(&config, "/src/proj"), "named");
}

#[test]
fn config_warnings_name_their_section() {
    let config = Config {
        workspace_path: "../{{ repo }}".to_string(),
        pre_start: TextMap::new().with("deps", "{{ nope }}"),
        templates: TextMap::new().with(".envrc", "{{workspace_path}}"),
        ..Config::default()
    };
    let w = config_warnings(&config);
    assert_eq!(w.len(), 3);
    assert_eq!(w[0].kind, WarningKind::MissingBookmark);
    assert_eq!(w[1].context, "pre-start/deps");
    assert_eq!(w[1].kind, WarningKind::UnknownVariable);
    assert_eq!(w[2].context, "templates/.envrc");
    assert_eq!(w[2].kind, WarningKind::MalformedDelimiters);
    assert!(w[1].message().contains("pre-start/deps"), "{}", w[1].message());
}

#[test]
fn hint_names_the_variables() {
    assert_eq!(known_vars_hint(&PATH_VARS), "home, repo, bookmark, default_workspace_path");
}
