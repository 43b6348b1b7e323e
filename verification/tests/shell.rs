use std::cell::RefCell;
use std::collections::BTreeMap;

use ji::shell::detect::{ActiveReport, Detection};
use ji::shell::env::{write_directive_cd, ShellEnv};
use ji::shell::install::{install, uninstall, InstallOpts, UninstallOpts};
use ji::shell::lines::{
    extract_for_loop_source, extract_source_directive_arg, is_legacy_line, resolve_path,
    strip_inline_comment, strip_logical_guard, strip_test_guard,
};
use ji::shell::markers::{
    append_block, find_marker_blocks, remove_block, renew_block, replace_block, HitKind,
};
use ji::shell::scan::{expand_glob, extract_source_args, find_hits, scan_locations, SourceArg};
use ji::shell::scripts::{
    is_managed, render_rc_stanza, wrapper_script, MANAGED_HEADER, MARKER_BEGIN, MARKER_END,
};
use ji::shell::status::status;
use ji::shell::write::{write_atomic, WriteOutcome};
use ji::tape::{Act, Failure, Kind, Reply, Request, Stop, Tape};

fn reply(kind: Kind, text: &str) -> Reply {
    Reply {
        kind,
        text: text.to_string(),
        err: "denied".to_string(),
        items: Vec::new(),
        bytes: Vec::new(),
        stat: None,
    }
}

/// Files by path, the environment, and what was printed.
#[derive(Default)]
struct World {
    files: RefCell<BTreeMap<String, String>>,
    vars: BTreeMap<String, String>,
    read_only: bool,
    out: RefCell<Vec<String>>,
    warned: RefCell<Vec<String>>,
    writes: RefCell<usize>,
}

impl World {
    fn new(files: &[(&str, &str)]) -> World {
        let w = World::default();
        for (p, c) in files {
            w.files.borrow_mut().insert(p.to_string(), c.to_string());
        }
        w
    }

    fn file(&self, path: &str) -> Option<String> {
        self.files.borrow().get(path).cloned()
    }

    fn is_dir(&self, path: &str) -> bool {
        let below = format!("{}/", path.trim_end_matches('/'));
        self.files.borrow().keys().any(|k| k.starts_with(&below))
    }

    fn yes(b: bool) -> Reply {
        reply(if b { Kind::Done } else { Kind::Nonzero }, "")
    }

    fn perform(&self, q: &Request) -> Reply {
        let held = self.file(&q.at);
        match q.act {
            Act::EnvVar => match self.vars.get(&q.at) {
                Some(v) => reply(Kind::Done, v),
                None => reply(Kind::Nonzero, ""),
            },
            Act::ProcessId => reply(Kind::Done, "42"),
            Act::Exists => World::yes(held.is_some() || self.is_dir(&q.at)),
            Act::IsFile => World::yes(held.is_some()),
            Act::IsDir => World::yes(self.is_dir(&q.at)),
            Act::IsReadOnly if held.is_some() => World::yes(self.read_only),
            Act::Canonical if held.is_some() || self.is_dir(&q.at) => reply(Kind::Done, &q.at),
            Act::FileMode if held.is_some() => reply(Kind::Done, "33188"),
            Act::ReadFile => match held {
                Some(c) => reply(Kind::Done, &c),
                None => reply(Kind::Unstarted, ""),
            },
            Act::ListDir if self.is_dir(&q.at) => {
                let below = format!("{}/", q.at.trim_end_matches('/'));
                let mut items: Vec<String> = self
                    .files
                    .borrow()
                    .keys()
                    .filter_map(|k| k.strip_prefix(&below))
                    .map(|k| k.split('/').next().unwrap_or("").to_string())
                    .collect();
                items.dedup();
                Reply { items, ..reply(Kind::Done, "") }
            }
            Act::WriteFile | Act::CreateFile => {
                *self.writes.borrow_mut() += 1;
                self.files.borrow_mut().insert(q.at.clone(), q.args[0].clone());
                reply(Kind::Done, "")
            }
            Act::Rename => {
                let c = self.files.borrow_mut().remove(&q.at).unwrap();
                self.files.borrow_mut().insert(q.args[0].clone(), c);
                reply(Kind::Done, "")
            }
            Act::RemoveFile => {
                self.files.borrow_mut().remove(&q.at);
                reply(Kind::Done, "")
            }
            Act::SyncDir | Act::MakeDirs => reply(Kind::Done, ""),
            Act::Print => {
                self.out.borrow_mut().push(q.args[0].clone());
                reply(Kind::Done, "")
            }
            Act::Warn => {
                self.warned.borrow_mut().push(q.args[0].clone());
                reply(Kind::Done, "")
            }
            _ => reply(Kind::Unstarted, ""),
        }
    }

    fn drive<T>(&self, f: impl Fn(&mut Tape) -> Result<T, Stop>) -> Result<T, Failure> {
        let mut replies: Vec<Reply> = Vec::new();
        loop {
            match f(&mut Tape::new(replies.clone())) {
                Ok(v) => return Ok(v),
                Err(Stop::Fail(e)) => return Err(e),
                Err(Stop::Ask(q)) => replies.push(self.perform(&q)),
            }
        }
    }

    fn install(&self, shell: &str, opts: InstallOpts) -> Result<(), Failure> {
        self.drive(|tape| install(tape, &env(), shell, "GENERATED\n", opts))
    }

    fn uninstall(&self, shell: &str, opts: UninstallOpts) -> Result<(), Failure> {
        self.drive(|tape| uninstall(tape, &env(), shell, opts))
    }

    fn status(&self, shell: &str) -> String {
        let report = ActiveReport {
            detected: Detection::Supported(shell.to_string()),
            active_exe: Some(format!("/bin/{shell}")),
            shell_env_raw: None,
        };
        self.drive(|tape| status(tape, &env(), None, &report, "GENERATED\n")).unwrap();
        self.out.borrow().join("\n")
    }
}

fn env() -> ShellEnv {
    ShellEnv {
        home: "/h".to_string(),
        xdg_config_home: "/h/.config".to_string(),
        zdotdir: "/h".to_string(),
        zsh_custom: None,
        omz_root: None,
    }
}

fn plain() -> InstallOpts {
    InstallOpts::default()
}

// -- lines --

#[test]
fn comments_end_lines() {
    assert_eq!(strip_inline_comment("source x # why"), "source x");
    assert_eq!(strip_inline_comment("echo a#b"), "echo a#b");
}

#[test]
fn loaders_of_old_are_recognised() {
    assert!(is_legacy_line("eval \"$(ji config shell init zsh)\""));
    assert!(!is_legacy_line("echo hello"));
    assert!(!is_legacy_line("# eval \"$(ji config shell init zsh)\""));
}

#[test]
fn guards_are_peeled() {
    assert_eq!(strip_test_guard("[ -f ~/.a ] && source ~/.a"), "source ~/.a");
    assert_eq!(strip_logical_guard("command -v ji && . y"), ". y");
    assert_eq!(extract_source_directive_arg("source ~/.a").as_deref(), Some("~/.a"));
    assert_eq!(extract_source_directive_arg(". \"$HOME/b\"").as_deref(), Some("$HOME/b"));
    assert_eq!(extract_source_directive_arg("echo source"), None);
    assert_eq!(
        extract_for_loop_source("for f in ~/.d/*.zsh; do source \"$f\"; done").as_deref(),
        Some("~/.d/*.zsh")
    );
}

#[test]
fn paths_are_resolved() {
    assert_eq!(resolve_path(&env(), "/base", "~/x").as_deref(), Some("/h/x"));
    assert_eq!(resolve_path(&env(), "/base", "$HOME/x").as_deref(), Some("/h/x"));
    assert_eq!(resolve_path(&env(), "/base", "${ZDOTDIR}/x").as_deref(), Some("/h/x"));
    assert_eq!(resolve_path(&env(), "/base", "rel").as_deref(), Some("/base/rel"));
    assert_eq!(resolve_path(&env(), "/base", "$WHO/x"), None);
}

#[test]
fn source_arguments_are_told_apart() {
    let of = |line: &str| extract_source_args(&env(), "/h", line);
    assert!(matches!(of("source ~/.a"), Some(SourceArg::File(p)) if p == "/h/.a"));
    let each = of("for f in ~/.d/*.zsh; do source \"$f\"; done");
    assert!(matches!(each, Some(SourceArg::Glob(p)) if p == "/h/.d/*.zsh"));
    assert!(matches!(of("source $WHO/x"), Some(SourceArg::Unresolved(_))));
    assert!(of("echo hi").is_none());
}

#[test]
fn globs_are_expanded_in_order() {
    let w = World::new(&[("/d/b.zsh", ""), ("/d/a.zsh", ""), ("/d/c.txt", "")]);
    let found = w.drive(|tape| expand_glob(tape, "/d/*.zsh")).unwrap();
    assert_eq!(found, ["/d/a.zsh", "/d/b.zsh"]);
}

// -- blocks --

fn block(body: &str) -> String {
    format!("{MARKER_BEGIN}\n{body}\n{MARKER_END}\n")
}

#[test]
fn blocks_are_found() {
    let text = format!("a\n{}b\n", block("x"));
    let (ranges, hits) = find_marker_blocks("/rc", &text, &None);
    assert_eq!(ranges, [(2, text.len() - 2)]);
    assert_eq!(hits.len(), 1);
    assert!(matches!(hits[0].kind, HitKind::MarkerBlock { .. }));
    let (ranges, hits) = find_marker_blocks("/rc", &format!("{MARKER_BEGIN}\nx\n"), &None);
    assert!(ranges.is_empty());
    assert_eq!(hits.len(), 1);
}

#[test]
fn blocks_run_from_begin_to_end_without_overlap() {
    let text = format!("{}{MARKER_END}\n{}x\n{MARKER_BEGIN}\n{}", block("1"), block("2"), block("3"));
    let (ranges, hits) = find_marker_blocks("/rc", &text, &None);
    let found: Vec<&str> = ranges.iter().map(|r| &text[r.0..r.1]).collect();
    assert_eq!(found, [block("1"), block("2")]);
    assert!(ranges[0].1 <= ranges[1].0);
    assert_eq!(hits.len(), 4);
}

#[test]
fn blocks_are_appended_replaced_and_removed() {
    let stanza = block("x");
    assert_eq!(append_block("", &stanza), stanza);
    let with = append_block("a", &stanza);
    assert_eq!(with, format!("a\n\n{stanza}"));
    let (ranges, _) = find_marker_blocks("/rc", &with, &None);
    let (start, end) = ranges[0];
    let other = block("y");
    assert_eq!(replace_block(&with, start, end, &other), format!("a\n\n{other}"));
    assert_eq!(remove_block(&with, start, end), "a\n");
    assert_eq!(renew_block(&with, start, end, &stanza), with);
}

#[test]
fn wide_characters_do_not_shift_blocks() {
    let stanza = block("x");
    let with = append_block("# \u{4e16}\u{754c}\u{e9}\n", &stanza);
    let (ranges, hits) = find_marker_blocks("/rc", &with, &None);
    assert_eq!(ranges, [(12, with.len())]);
    assert_eq!(&with[ranges[0].0..ranges[0].1], stanza);
    assert!(matches!(hits[0].kind, HitKind::MarkerBlock { start: 12, end } if end == with.len()));
    assert_eq!(renew_block(&with, ranges[0].0, ranges[0].1, &stanza), with);
    assert_eq!(remove_block(&with, ranges[0].0, ranges[0].1), "# \u{4e16}\u{754c}\u{e9}\n");
}

// -- install --

#[test]
fn installing_twice_changes_nothing_more() {
    for shell in ["zsh", "bash", "fish"] {
        let w = World::new(&[("/h/.zshrc", "alias x=y\n"), ("/h/.profile", "alias x=y\n")]);
        w.install(shell, plain()).unwrap();
        let once = w.files.borrow().clone();
        let writes = *w.writes.borrow();
        assert!(writes > 0);
        w.install(shell, plain()).unwrap();
        assert_eq!(*w.files.borrow(), once, "{shell}");
        assert_eq!(*w.writes.borrow(), writes, "{shell}");
    }
}

#[test]
fn uninstalling_gives_the_rc_back() {
    for (shell, rc) in [("zsh", "/h/.zshrc"), ("bash", "/h/.profile")] {
        let w = World::new(&[(rc, "alias x=y\n")]);
        w.install(shell, plain()).unwrap();
        let installed = w.file(rc).unwrap();
        assert!(installed.contains(&render_rc_stanza(shell).unwrap()), "{installed}");
        assert!(is_managed(&w.file(&format!("/h/.config/ji/init.{shell}")).unwrap()));
        w.uninstall(shell, UninstallOpts::default()).unwrap();
        assert_eq!(w.file(rc).as_deref(), Some("alias x=y\n"));
        assert_eq!(w.files.borrow().len(), 1);
    }
}

#[test]
fn fish_gets_its_own_files() {
    let w = World::new(&[("/h/.config/fish/config.fish", "\n")]);
    w.install("fish", plain()).unwrap();
    let installed: Vec<String> = w.files.borrow().keys().cloned().collect();
    assert_eq!(installed.len(), 3, "{installed:?}");
    w.uninstall("fish", UninstallOpts::default()).unwrap();
    assert_eq!(w.files.borrow().len(), 1);
}

#[test]
fn a_dry_run_writes_nothing() {
    let w = World::new(&[("/h/.zshrc", "a\n")]);
    w.install("zsh", InstallOpts { dry_run: true, ..plain() }).unwrap();
    assert_eq!(*w.writes.borrow(), 0);
    assert!(!w.out.borrow().is_empty());
}

#[test]
fn read_only_files_are_refused() {
    let mut w = World::new(&[("/h/.zshrc", "a\n")]);
    w.read_only = true;
    assert!(w.install("zsh", plain()).is_err());
    assert_eq!(w.file("/h/.zshrc").as_deref(), Some("a\n"));
}

#[test]
fn old_loaders_are_refused() {
    let w = World::new(&[("/h/.zshrc", "eval \"$(ji config shell init zsh)\"\n")]);
    assert!(w.install("zsh", plain()).is_err());
    w.install("zsh", InstallOpts { force: true, ..plain() }).unwrap();
}

#[test]
fn open_blocks_are_refused() {
    let w = World::new(&[("/h/.zshrc", &format!("{MARKER_BEGIN}\n"))]);
    assert!(w.install("zsh", plain()).is_err());
}

#[test]
fn blocks_in_sourced_files_are_refused() {
    let w = World::new(&[
        ("/h/.zshrc", "source ~/.more\n"),
        ("/h/.more", &block("[ -r x ] && source x")),
    ]);
    let locations = w.drive(|tape| scan_locations(tape, &env(), "zsh", "/h/.zshrc")).unwrap();
    assert!(locations.iter().any(|l| l.path == "/h/.more"));
    let hits = w.drive(|tape| find_hits(tape, &locations, &env())).unwrap();
    assert!(hits.iter().any(|h| h.path == "/h/.more"));
    assert!(w.install("zsh", plain()).is_err());
}

#[test]
fn unknown_shells_are_refused() {
    let w = World::new(&[]);
    assert!(w.install("nu", plain()).is_err());
    assert!(w.uninstall("nu", UninstallOpts::default()).is_err());
    assert!(wrapper_script("nu").is_err());
    assert!(wrapper_script("zsh").unwrap().contains("JI_DIRECTIVE_FILE"));
    assert!(!is_managed("# something else\n"));
    assert!(is_managed(&format!("{MANAGED_HEADER}\n")));
}

// -- status --

#[test]
fn status_tells_what_is_installed() {
    let w = World::new(&[("/h/.zshrc", "a\n")]);
    let before = w.status("zsh");
    assert!(before.contains("zsh"), "{before}");
    w.out.borrow_mut().clear();
    w.install("zsh", plain()).unwrap();
    w.out.borrow_mut().clear();
    let after = w.status("zsh");
    assert_ne!(before, after);
    assert_eq!(*w.writes.borrow(), 2);
}

#[test]
fn status_lists_other_files_in_order() {
    let line = "eval \"$(ji config shell init zsh)\"\n";
    let twice = format!("{line}{line}");
    let w = World::new(&[("/h/.zshenv", &twice), ("/h/.zprofile", line), ("/h/.zshrc", "a\n")]);
    let text = w.status("zsh");
    let at = |place: &str| text.find(place).unwrap_or_else(|| panic!("no {place} in {text}"));
    assert!(at("/h/.zprofile:1") < at("/h/.zshenv:1"), "{text}");
    assert!(at("/h/.zshenv:1") < at("/h/.zshenv:2"), "{text}");
}

// -- files --

#[test]
fn the_same_contents_are_not_written_again() {
    let w = World::new(&[("/d/f", "x")]);
    assert_eq!(w.drive(|t| write_atomic(t, "/d/f", "x")).unwrap(), WriteOutcome::Unchanged);
    assert_eq!(w.drive(|t| write_atomic(t, "/d/f", "y")).unwrap(), WriteOutcome::Updated);
    assert_eq!(w.drive(|t| write_atomic(t, "/d/g", "z")).unwrap(), WriteOutcome::Created);
    assert_eq!(w.file("/d/f").as_deref(), Some("y"));
    assert_eq!(w.file("/d/g").as_deref(), Some("z"));
    assert_eq!(w.files.borrow().len(), 2);
}

#[test]
fn directives_quote_their_path() {
    let mut w = World::new(&[]);
    assert!(w.drive(|t| write_directive_cd(t, "/a")).is_err());
    w.vars.insert("JI_DIRECTIVE_FILE".to_string(), "/tmp/d".to_string());
    w.drive(|t| write_directive_cd(t, "/it's here")).unwrap();
    assert_eq!(w.file("/tmp/d").as_deref(), Some("cd '/it'\\''s here'\n"));
}

#[test]
fn places_come_from_the_environment() {
    let mut w = World::new(&[("/h/.oh-my-zsh/x", "")]);
    assert!(w.drive(|t| ShellEnv::from_process_env(t)).is_err());
    w.vars.insert("HOME".to_string(), "/h".to_string());
    let e = w.drive(|t| ShellEnv::from_process_env(t)).unwrap();
    assert_eq!(e.xdg_config_home, "/h/.config");
    assert_eq!(e.zdotdir, "/h");
    assert_eq!(e.omz_root.as_deref(), Some("/h/.oh-my-zsh"));
    assert_eq!(e.zsh_custom.as_deref(), Some("/h/.oh-my-zsh/custom"));
    assert_eq!(e.managed_file("zsh").unwrap(), "/h/.config/ji/init.zsh");
    assert!(e.managed_file("fish").is_err());
}
