use ji::commands::create::{resolve_workspace_path, validate_resolved_path};
use ji::config::Config;
use ji::paths::{components, file_stem, normalize_path, path_join};
use ji::tape::{Act, Failure, Kind, Reply, Request, Stop, Tape};

fn reply(kind: Kind, text: &str) -> Reply {
    Reply {
        kind,
        text: text.to_string(),
        err: "no such file".to_string(),
        items: Vec::new(),
        bytes: Vec::new(),
        stat: None,
    }
}

/// A file system that holds the paths `there`, each canonical.
fn look(there: &[&str], q: &Request) -> Reply {
    let held = there.contains(&q.at.as_str());
    match q.act {
        Act::Canonical if held => reply(Kind::Done, &q.at),
        Act::Exists if held => reply(Kind::Done, ""),
        Act::EnvVar if q.at == "HOME" => reply(Kind::Done, "/home/u"),
        Act::CurrentDir => reply(Kind::Done, "/cwd"),
        _ => reply(Kind::Nonzero, ""),
    }
}

fn drive<T>(there: &[&str], f: impl Fn(&mut Tape) -> Result<T, Stop>) -> Result<T, Failure> {
    let mut replies: Vec<Reply> = Vec::new();
    loop {
        match f(&mut Tape::new(replies.clone())) {
            Ok(v) => return Ok(v),
            Err(Stop::Fail(e)) => return Err(e),
            Err(Stop::Ask(q)) => replies.push(look(there, &q)),
        }
    }
}

fn validate(
    there: &[&str],
    resolved: &str,
    repo_root: &str,
    template: Option<&str>,
) -> Result<(), Failure> {
    drive(there, |tape| validate_resolved_path(tape, resolved, repo_root, template))
}

// -- normalize_path --

#[test]
fn normalize_resolves_parent() {
    assert_eq!(normalize_path("/a/b/../c"), "/a/c");
}

#[test]
fn normalize_resolves_curdir() {
    assert_eq!(normalize_path("/a/b/./c"), "/a/b/c");
}

#[test]
fn normalize_noop_clean_path() {
    assert_eq!(normalize_path("/a/b/c"), "/a/b/c");
}

#[test]
fn normalize_relative_underflow_preserves_dotdot() {
    assert_eq!(normalize_path("a/../../b"), "../b");
}

#[test]
fn normalize_absolute_underflow_noop_past_root() {
    assert_eq!(normalize_path("/a/../../b"), "/b");
}

#[test]
fn normalize_root_dotdot_noop() {
    assert_eq!(normalize_path("/../b"), "/b");
}

#[test]
fn normalize_is_final() {
    for p in ["/a/./b/../..//c", "../../x/../y", "a/b/../../..", "/", "", "./a"] {
        let once = normalize_path(p);
        assert_eq!(normalize_path(&once), once);
    }
    assert_eq!(normalize_path("a/b/../../.."), "..");
    assert_eq!(normalize_path("./a"), "a");
}

// -- validate_resolved_path --

#[test]
fn rejects_self_overwrite_via_dotdot() {
    let repo = "/a/b/repo";
    let resolved = path_join(repo, "../repo");
    let err = validate(&[], &resolved, repo, None).unwrap_err().outermost();
    assert!(err.contains("default workspace root"), "got: {err}");
}

#[test]
fn rejects_self_overwrite_via_dot() {
    let repo = "/a/b/repo";
    let resolved = path_join(repo, ".");
    let err = validate(&[], &resolved, repo, None).unwrap_err().outermost();
    assert!(err.contains("default workspace root"), "got: {err}");
}

#[test]
fn rejects_existing_path() {
    let there = ["/tmp/d", "/tmp/d/repo", "/tmp/d/existing"];
    let err = validate(&there, "/tmp/d/existing", "/tmp/d/repo", Some("../{{ bookmark }}"))
        .unwrap_err()
        .outermost();
    assert!(err.contains("already exists"), "got: {err}");
}

#[test]
fn rejects_missing_bookmark_from_template() {
    let err = validate(&[], "/somewhere/else", "/a/b/repo", Some("../{{ repo }}"))
        .unwrap_err()
        .outermost();
    assert!(err.contains("{{ bookmark }}"), "got: {err}");
    assert_eq!(
        err,
        "workspace-path must contain {{ bookmark }} \u{2014} each workspace needs a unique path; \
         use --path to override per invocation"
    );
}

#[test]
fn accepts_missing_bookmark_when_override() {
    assert!(validate(&[], "/somewhere/unique", "/a/b/repo", None).is_ok());
}

#[test]
fn accepts_valid_path() {
    assert!(
        validate(&[], "/a/b/repo.feature", "/a/b/repo", Some("../{{ repo }}.{{ bookmark }}"))
            .is_ok()
    );
}

#[test]
fn rejects_path_override_to_existing_dir() {
    let there = ["/tmp/d", "/tmp/d/repo"];
    let err = validate(&there, "/tmp/d", "/tmp/d/repo", None).unwrap_err().outermost();
    assert!(err.contains("already exists"), "got: {err}");
}

#[test]
fn canonical_forms_decide_where_both_exist() {
    let there = ["/a/repo"];
    let err = validate(&there, "/a/repo", "/a/repo", None).unwrap_err().outermost();
    assert!(err.contains("default workspace root (/a/repo)"), "got: {err}");
}

// -- resolve_workspace_path --

#[test]
fn template_path_uses_the_bookmark_without_slashes() {
    let config = Config::default();
    let p = drive(&[], |tape| {
        resolve_workspace_path(tape, "/src/proj", &config, "proj", "feat/x", None)
    });
    assert_eq!(p.unwrap(), "/src/proj/../proj.feat-x");
}

#[test]
fn given_path_is_below_the_current_directory() {
    let config = Config::default();
    let rel = drive(&[], |tape| {
        resolve_workspace_path(tape, "/src/proj", &config, "proj", "b", Some("w/x"))
    });
    assert_eq!(rel.unwrap(), "/cwd/w/x");
    let abs = drive(&[], |tape| {
        resolve_workspace_path(tape, "/src/proj", &config, "proj", "b", Some("/other"))
    });
    assert_eq!(abs.unwrap(), "/other");
}

// -- paths --

#[test]
fn path_pieces() {
    assert_eq!(components("/a//b/./c/"), ["/", "a", "b", "c"]);
    assert_eq!(components("./a"), [".", "a"]);
    assert_eq!(path_join("/a", "/b"), "/b");
    assert_eq!(path_join("/a/", "b"), "/a/b");
    assert_eq!(file_stem("/x/history.json").as_deref(), Some("history"));
    assert_eq!(file_stem("/x/.bashrc").as_deref(), Some(".bashrc"));
    assert_eq!(file_stem("/x/.."), None);
}
