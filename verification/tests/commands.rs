use std::cell::RefCell;

use ji::commands::after::post_op_manual_bookmarks;
use ji::commands::close::{close, close_with_info, CloseParams};
use ji::commands::create::create;
use ji::commands::plan::{
    detect_sync_mode, plan_equivalent, resolve_adaptive_close, resolve_adaptive_transfer,
    stable_detect_sync_mode, validate_head_info,
};
use ji::commands::switch::{existing, switch};
use ji::commands::sync::{sync, sync_with_info};
use ji::commands::transfer::{transfer_with_info, TransferParams};
use ji::commands::types::{
    BookmarkAction, CloseMethod, Operation, SyncMode, SyncModeInfo, TransferMethod,
};
use ji::config::{create_config, Config};
use ji::graph::is_effectively_linear;
use ji::hooks::{run_background, run_blocking, write_templates};
use ji::jj_logs::RevisionInfo;
use ji::operations::SyncOutcome;
use ji::run::{
    close_refusal, cmd_close, cmd_ls, cmd_transfer, resolve_src_tgt, stale_hint, STALE_HINT,
};
use ji::subprocess_log::{init, log_hook, log_subprocess, timestamp};
use ji::tape::{Act, Failure, Kind, Reply, Request, Stop, Tape};
use ji::text_map::TextMap;
use ji::workspaces::list_workspaces;

fn reply(kind: Kind, text: &str) -> Reply {
    Reply {
        kind,
        text: text.to_string(),
        err: "refused".to_string(),
        items: Vec::new(),
        bytes: Vec::new(),
        stat: None,
    }
}

/// A repository with two workspaces that have diverged: `default`, at `t`, and `feat`, at `s`.
struct Repo {
    src_desc: &'static str,
    tgt_desc: &'static str,
    lca: &'static str,
    op: &'static str,
    cwd: &'static str,
    env: Option<&'static str>,
    unique: &'static str,
    /// Where bookmarks point; nothing for the workspace that they are named after.
    mark: &'static str,
    fails: Option<&'static str>,
    /// What was changed, printed or run.
    done: RefCell<Vec<String>>,
}

fn repo() -> Repo {
    Repo {
        src_desc: "src work",
        tgt_desc: "tgt work",
        lca: "l",
        op: "op",
        cwd: "/src/feat",
        env: None,
        unique: "s\n",
        mark: "",
        fails: None,
        done: RefCell::new(Vec::new()),
    }
}

impl Repo {
    fn record(&self, id: &str, template: &str) -> String {
        let desc = if id == "s" { self.src_desc } else { self.tgt_desc };
        let empty = "false";
        if !template.contains("empty") {
            return match template.contains("bookmarks") {
                true => format!("{id}\u{1f}\u{1f}{desc}\u{1e}"),
                false => format!("{id}\u{1f}{desc}\u{1e}"),
            };
        }
        if template.contains("parents.len() ++") {
            return format!("{id}\u{1f}{empty}\u{1f}1\u{1f}{desc}\u{1e}");
        }
        if template.contains("parents") {
            return format!("{id}\u{1f}{empty}\u{1f}false\u{1f}{desc}\u{1e}");
        }
        format!("{id}\u{1f}{empty}\u{1e}")
    }

    fn log(&self, revset: &str, template: &str) -> String {
        if revset.contains("fork_point") {
            return self.lca.to_string();
        }
        if revset.contains("exact:") && !self.mark.is_empty() {
            return self.mark.to_string();
        }
        if template == "change_id" || template == "change_id ++ \"\\n\"" {
            return match revset {
                r if r.contains("children") => String::new(),
                r if r.contains("..") => self.unique.to_string(),
                r if r.contains("feat") => "s".to_string(),
                r if r.contains("default") => "t".to_string(),
                r => r.to_string(),
            };
        }
        if template.contains("timestamp") {
            return "1700000000".to_string();
        }
        if template.starts_with("local_bookmarks") {
            return String::new();
        }
        if template == "\".\"" {
            return ".".to_string();
        }
        if revset.contains("\"feat\"@") || revset == "s" || revset == "t..s" {
            return self.record("s", template);
        }
        if revset.contains("\"default\"@") || revset == "t" || revset == "::t" {
            return self.record("t", template);
        }
        String::new()
    }

    fn perform(&self, q: &Request) -> Reply {
        let line = q.args.join(" ");
        match q.act {
            Act::ListDir => Reply { items: vec![self.op.to_string()], ..reply(Kind::Done, "") },
            Act::Exists | Act::IsDir => reply(Kind::Done, ""),
            Act::Canonical => reply(Kind::Done, &q.at),
            Act::CurrentDir => reply(Kind::Done, self.cwd),
            Act::EnvVar => match self.env {
                Some(v) => reply(Kind::Done, v),
                None => reply(Kind::Nonzero, ""),
            },
            Act::JjRepo | Act::JjRepoLive | Act::JjWs | Act::JjWsLive | Act::JjBootstrap => {
                if self.fails.is_some_and(|f| line.starts_with(f)) {
                    return reply(Kind::Nonzero, "");
                }
                let flag = |name: &str| {
                    let at = q.args.iter().position(|a| a == name);
                    at.map_or("", |i| q.args[i + 1].as_str())
                };
                if line.contains("op log") {
                    reply(Kind::Done, "op\u{1f}false\u{1e}")
                } else if line.starts_with("log") {
                    reply(Kind::Done, &self.log(flag("--revision"), flag("--template")))
                } else if line.starts_with("workspace list") {
                    let d = self.tgt_desc;
                    let s = self.src_desc;
                    reply(
                        Kind::Done,
                        &format!(
                            "default\u{1f}/src/proj\u{1f}t\u{1f}{d}\u{1e}\
                             feat\u{1f}/src/feat\u{1f}s\u{1f}{s}\u{1e}"
                        ),
                    )
                } else if line.starts_with("workspace root --name") {
                    reply(Kind::Done, "/src/proj")
                } else if line.starts_with("workspace root") {
                    reply(Kind::Done, self.cwd)
                } else if ["status", "file list", "util snapshot"]
                    .iter()
                    .any(|q| line.starts_with(q))
                {
                    reply(Kind::Done, "")
                } else {
                    self.done.borrow_mut().push(format!("jj {line}"));
                    reply(Kind::Done, "")
                }
            }
            _ => {
                self.done.borrow_mut().push(format!("{:?} {} {line}", q.act, q.at));
                if self.fails.is_some_and(|f| line.starts_with(f)) {
                    reply(Kind::Nonzero, "")
                } else {
                    reply(Kind::Done, "")
                }
            }
        }
    }

    fn drive<T>(&self, f: impl Fn(&mut Tape) -> Result<T, Stop>) -> Result<T, String> {
        let mut replies: Vec<Reply> = Vec::new();
        loop {
            match f(&mut Tape::new(replies.clone())) {
                Ok(v) => return Ok(v),
                Err(Stop::Fail(e)) => return Err(e.render()),
                Err(Stop::Ask(q)) => replies.push(self.perform(&q)),
            }
        }
    }

    /// What is asked in turn, and that a run with fewer replies asks the same.
    fn asked<T>(&self, f: impl Fn(&mut Tape) -> Result<T, Stop>) -> Vec<(Act, String, String)> {
        let mut replies: Vec<Reply> = Vec::new();
        let mut asked = Vec::new();
        while let Err(Stop::Ask(q)) = f(&mut Tape::new(replies.clone())) {
            replies.push(self.perform(&q));
            asked.push((q.act, q.at.clone(), q.args.join(" ")));
        }
        for (k, (act, at, args)) in asked.iter().enumerate() {
            match f(&mut Tape::new(replies[..k].to_vec())) {
                Err(Stop::Ask(q)) => {
                    assert_eq!((q.act, &q.at, &q.args.join(" ")), (*act, at, args))
                }
                _ => panic!("no request after {k} replies"),
            }
        }
        asked
    }

    fn did(&self, what: &str) -> bool {
        self.done.borrow().iter().any(|d| d.starts_with(what))
    }
}

fn info(mode: SyncMode) -> SyncModeInfo {
    SyncModeInfo {
        mode,
        src_effective_head: "s".to_string(),
        tgt_effective_head: "t".to_string(),
        src_actual_head: "s".to_string(),
        tgt_actual_head: "t".to_string(),
        src_trivial_id: None,
        tgt_trivial_id: None,
        src_trivial_ids: Vec::new(),
        tgt_trivial_ids: Vec::new(),
        lca: "l".to_string(),
        op_head: "op".to_string(),
    }
}

fn closing<'a>(method: CloseMethod, revisions: &'a [RevisionInfo]) -> CloseParams<'a> {
    CloseParams {
        repo_root: "/src/proj",
        source_name: "feat",
        source_path: "/src/feat",
        target_name: "default",
        target_path: "/src/proj",
        target_change_id: "t",
        method,
        delete_files: true,
        bookmark_action: BookmarkAction::NoAction,
        bookmarks: Vec::new(),
        revisions,
        workspace_path_template: "../{{ repo }}.{{ bookmark }}",
        repo_name: "proj",
        author: None,
    }
}

fn transferring(method: TransferMethod) -> TransferParams<'static> {
    TransferParams {
        repo_root: "/src/proj",
        source_name: "feat",
        source_path: "/src/feat",
        target_name: "default",
        target_path: "/src/proj",
        method,
        workspace_path_template: "../{{ repo }}.{{ bookmark }}",
        repo_name: "proj",
        author: None,
    }
}

fn revisions() -> Vec<RevisionInfo> {
    vec![RevisionInfo { change_id: "s".to_string(), description: "src work".to_string() }]
}

// -- plans --

#[test]
fn diverged_workspaces_are_seen_as_such() {
    let r = repo();
    let i = r.drive(|t| detect_sync_mode(t, "/src/proj", "feat", "default")).unwrap();
    assert!(matches!(i.mode, SyncMode::Diverged));
    assert_eq!((i.src_effective_head.as_str(), i.tgt_effective_head.as_str()), ("s", "t"));
    assert_eq!(i.lca, "l");
    let behind = Repo { lca: "t", ..repo() };
    let i = behind.drive(|t| stable_detect_sync_mode(t, "/src/proj", "feat", "default")).unwrap();
    assert!(matches!(i.mode, SyncMode::SourceOnly));
    let ahead = Repo { lca: "s", ..repo() };
    let i = ahead.drive(|t| detect_sync_mode(t, "/src/proj", "feat", "default")).unwrap();
    assert!(matches!(i.mode, SyncMode::TargetOnly));
}

#[test]
fn plans_are_equivalent_up_to_their_operation() {
    let a = info(SyncMode::Diverged);
    let mut b = info(SyncMode::Diverged);
    b.op_head = "later".to_string();
    assert!(plan_equivalent(&a, &b));
    b.lca = "other".to_string();
    assert!(!plan_equivalent(&a, &b));
}

#[test]
fn a_moved_operation_is_refused_unless_the_plan_stands() {
    let r = Repo { op: "op2", ..repo() };
    let i = info(SyncMode::Diverged);
    let strict = r.drive(|t| validate_head_info(t, "/src/proj", &i, "feat", "default", false));
    assert!(strict.unwrap_err().starts_with("repo changed"));
    let lenient = r.drive(|t| validate_head_info(t, "/src/proj", &i, "feat", "default", true));
    assert_eq!(lenient.unwrap().op_head, "op2");
}

#[test]
fn adaptive_requests_are_made_concrete() {
    assert_eq!(
        resolve_adaptive_close(&SyncMode::SourceOnly).unwrap(),
        Operation::FastForwardTargetClose
    );
    assert_eq!(resolve_adaptive_close(&SyncMode::Diverged).unwrap(), Operation::MergeClose);
    assert!(resolve_adaptive_close(&SyncMode::InSync).is_err());
    assert!(resolve_adaptive_close(&SyncMode::TargetOnly).is_err());
    assert_eq!(
        resolve_adaptive_transfer(&SyncMode::TargetOnly).unwrap(),
        Operation::FastForwardSource
    );
    assert!(resolve_adaptive_transfer(&SyncMode::InSync).is_err());
}

// -- close --

#[test]
fn detaching_forgets_the_source() {
    let r = repo();
    let i = info(SyncMode::Diverged);
    let out =
        r.drive(|t| close_with_info(t, &closing(CloseMethod::Detach, &[]), &i)).unwrap();
    assert_eq!(out.resolved_operation, Operation::Detach);
    assert_eq!(out.pending_remove_path.as_deref(), Some("/src/feat"));
    assert!(r.did("jj workspace forget -- feat"));
    assert!(!r.did("jj abandon"));
}

#[test]
fn undescribed_work_is_not_detached() {
    let r = Repo { src_desc: "", ..repo() };
    let i = info(SyncMode::Diverged);
    let e = r.drive(|t| close_with_info(t, &closing(CloseMethod::Detach, &[]), &i)).unwrap_err();
    assert_eq!(
        e,
        "workspace feat has undescribed work in s; describe the revision before detaching"
    );
    assert!(r.done.borrow().is_empty());
}

fn place(asked: &[(Act, String, String)], act: Act, at: &str, args: &str) -> usize {
    asked
        .iter()
        .rposition(|q| q.0 == act && q.1 == at && q.2 == args)
        .unwrap_or_else(|| panic!("{act:?} {at} {args} is not asked"))
}

#[test]
fn every_close_captures_the_source_and_forgets_it() {
    let revs = revisions();
    for method in [
        CloseMethod::Merge,
        CloseMethod::SquashMerge,
        CloseMethod::FastForward,
        CloseMethod::Detach,
        CloseMethod::Abandon,
    ] {
        let r = repo();
        let asked = r.asked(|t| close(t, &closing(method, &revs)));
        let captured = place(&asked, Act::JjWsLive, "/src/feat", "util snapshot");
        let forgotten = place(&asked, Act::JjRepo, "/src/proj", "workspace forget -- feat");
        assert!(captured < forgotten, "{method:?}");
        // Nothing is changed before.
        assert_eq!(r.done.borrow()[0], "jj workspace forget -- feat", "{method:?}");
    }
}

#[test]
fn every_workspace_is_captured_before_a_rewrite() {
    let r = repo();
    let i = info(SyncMode::Diverged);
    let asked = r.asked(|t| transfer_with_info(t, &transferring(TransferMethod::Merge), &i));
    let first = |at: &str| {
        asked.iter().position(|q| q.0 == Act::JjWsLive && q.1 == at && q.2 == "util snapshot")
    };
    let changed = asked.iter().position(|q| q.2.starts_with("new ")).unwrap();
    for at in ["/src/proj", "/src/feat"] {
        assert!(first(at).unwrap() < changed, "{at}");
    }
}

#[test]
fn a_stable_detection_reads_the_heads_last() {
    let r = repo();
    let asked = r.asked(|t| stable_detect_sync_mode(t, "/src/proj", "feat", "default"));
    let heads: Vec<usize> = (0..asked.len()).filter(|k| asked[*k].0 == Act::ListDir).collect();
    assert_eq!(heads.len(), 2);
    assert_eq!(heads[1], asked.len() - 1);
}

#[test]
fn abandoning_checks_the_revisions() {
    let i = info(SyncMode::Diverged);
    let revs = revisions();
    let r = Repo { unique: "s\nmore\n", ..repo() };
    let e =
        r.drive(|t| close_with_info(t, &closing(CloseMethod::Abandon, &revs), &i)).unwrap_err();
    assert_eq!(e, "source revisions changed, please retry");
    assert!(r.done.borrow().is_empty());
    let r = Repo { src_desc: "", ..repo() };
    let e =
        r.drive(|t| close_with_info(t, &closing(CloseMethod::Abandon, &revs), &i)).unwrap_err();
    assert_eq!(
        e,
        "refusing to abandon: revisions s have work with no description; describe them first"
    );
    assert!(r.done.borrow().is_empty());
    let r = repo();
    let out =
        r.drive(|t| close_with_info(t, &closing(CloseMethod::Abandon, &revs), &i)).unwrap();
    assert_eq!(out.resolved_operation, Operation::Abandon);
    assert!(r.did("jj workspace forget -- feat"));
}

#[test]
fn an_unknown_state_is_not_merged() {
    let r = repo();
    let i = info(SyncMode::Error("why".to_string()));
    let e = r.drive(|t| close_with_info(t, &closing(CloseMethod::Merge, &[]), &i)).unwrap_err();
    assert_eq!(e, "sync state could not be determined: why");
    assert!(r.done.borrow().is_empty());
}

#[test]
fn a_merge_close_merges_and_forgets() {
    let r = repo();
    let out = r.drive(|t| close(t, &closing(CloseMethod::Adaptive, &[]))).unwrap();
    assert_eq!(out.resolved_operation, Operation::MergeClose);
    assert!(r.did("jj new"), "{:?}", r.done.borrow());
    assert!(r.did("jj workspace forget -- feat"));
}

#[test]
fn a_fast_forward_close_needs_a_described_target() {
    let r = Repo { tgt_desc: "", lca: "t", ..repo() };
    let mut i = info(SyncMode::SourceOnly);
    i.lca = "t".to_string();
    let e = r
        .drive(|t| close_with_info(t, &closing(CloseMethod::FastForward, &[]), &i))
        .unwrap_err();
    assert_eq!(
        e,
        "target workspace default has undescribed work in t; describe the revision first, \
         or use a merge-close instead"
    );
    assert!(r.done.borrow().is_empty());
}

#[test]
fn manual_bookmark_actions() {
    let marks = vec!["a".to_string(), "b".to_string()];
    let act = |r: &Repo, action| {
        r.drive(|t| post_op_manual_bookmarks(t, "/src/proj", &marks, action, "t")).unwrap().len()
    };
    let r = repo();
    assert_eq!(act(&r, BookmarkAction::Delete), 0);
    assert!(r.did("jj bookmark delete"));
    let r = Repo { fails: Some("bookmark"), ..repo() };
    assert_eq!(act(&r, BookmarkAction::Advance), 2);
    let r = repo();
    assert_eq!(act(&r, BookmarkAction::NoAction), 0);
    assert!(r.done.borrow().is_empty());
}

// -- transfer and sync --

#[test]
fn transfers_keep_both_workspaces() {
    for method in
        [TransferMethod::Merge, TransferMethod::Rebase, TransferMethod::MergeSquash]
    {
        let r = repo();
        let i = info(SyncMode::Diverged);
        let out = r.drive(|t| transfer_with_info(t, &transferring(method), &i)).unwrap();
        assert_eq!(TransferMethod::try_from(out.resolved_operation), Ok(method));
        assert!(!r.done.borrow().is_empty());
        assert!(!r.did("jj workspace forget"));
        assert_eq!(out.pending_remove_path, None);
    }
}

#[test]
fn a_fast_forward_needs_described_work() {
    let r = Repo { tgt_desc: "", lca: "t", ..repo() };
    let mut i = info(SyncMode::SourceOnly);
    i.lca = "t".to_string();
    let e = r
        .drive(|t| transfer_with_info(t, &transferring(TransferMethod::FastForwardTarget), &i))
        .unwrap_err();
    assert_eq!(
        e,
        "target workspace default has undescribed work in t; describe the revision first"
    );
    assert!(r.done.borrow().is_empty());
}

fn run_sync(r: &Repo, i: &SyncModeInfo) -> Result<SyncOutcome, String> {
    r.drive(|t| {
        sync_with_info(
            t,
            "/src/proj",
            i,
            "feat",
            "/src/feat",
            "default",
            "/src/proj",
            "../{{ repo }}.{{ bookmark }}",
            "proj",
            None,
            true,
        )
    })
}

#[test]
fn diverged_workspaces_are_merged_by_a_sync() {
    let r = repo();
    assert!(matches!(run_sync(&r, &info(SyncMode::Diverged)), Ok(SyncOutcome::Done { .. })));
    assert!(r.did("jj new"), "{:?}", r.done.borrow());
}

#[test]
fn a_side_that_is_behind_is_fast_forwarded() {
    for (lca, moved) in [("t", "default"), ("s", "feat")] {
        let r = Repo { lca, ..repo() };
        let mut i = info(if lca == "t" { SyncMode::SourceOnly } else { SyncMode::TargetOnly });
        i.lca = lca.to_string();
        assert!(matches!(run_sync(&r, &i), Ok(SyncOutcome::Done { .. })));
        let done = r.done.borrow().join("\n");
        assert!(done.contains(&format!("fast-forward) {moved}@ to ")), "{done}");
        assert!(!done.contains("ji::merge"), "{done}");
        assert!(!r.did("jj workspace forget"));
    }
}

#[test]
fn workspaces_in_sync_are_left_alone() {
    let r = Repo { lca: "t", ..repo() };
    let out = r.drive(|t| {
        sync(
            t,
            "/src/proj",
            "default",
            "/src/proj",
            "default",
            "/src/proj",
            "../{{ repo }}.{{ bookmark }}",
            "proj",
            None,
            true,
        )
    });
    assert!(matches!(out, Ok(SyncOutcome::AlreadyInSync)), "{out:?}");
    assert!(r.done.borrow().is_empty());
}

// -- other commands --

#[test]
fn targets_are_found_by_name_and_id() {
    let r = repo();
    let to = |target: &str| r.drive(|t| switch(t, "/src/proj", target));
    assert_eq!(to("feat").unwrap(), "/src/feat");
    assert_eq!(to("t").unwrap(), "/src/proj");
    assert_eq!(to("nope").unwrap_err(), "no workspace matching 'nope'");
    let both = to("").unwrap_err();
    assert!(both.starts_with("ambiguous target '': matches default, feat"), "{both}");
    let there = |target: &str| r.drive(|t| existing(t, "/src/proj", target));
    assert_eq!(there("feat").unwrap().as_deref(), Some("/src/feat"));
    assert_eq!(there("nope").unwrap(), None);
    assert!(there("").is_err());
}

#[test]
fn sides_default_to_here_and_the_root() {
    let r = repo();
    let ws = r.drive(|t| list_workspaces(t, "/src/proj")).unwrap();
    let s = r.drive(|t| resolve_src_tgt(t, "/src/proj", &ws, None, None)).unwrap();
    assert_eq!((s.src_name.as_str(), s.tgt_name.as_str()), ("feat", "default"));
    let e = r.drive(|t| resolve_src_tgt(t, "/src/proj", &ws, Some("x"), None)).unwrap_err();
    assert_eq!(e, "workspace 'x' not found");
    let lost = Repo { cwd: "/elsewhere", ..repo() };
    let e = lost.drive(|t| resolve_src_tgt(t, "/src/proj", &ws, None, None)).unwrap_err();
    assert_eq!(e, "current directory is not a jj workspace");
    let e = r.drive(|t| resolve_src_tgt(t, "/other", &ws, Some("feat"), None)).unwrap_err();
    assert_eq!(e, "no target workspace specified and no default workspace found");
}

#[test]
fn the_default_workspace_has_nothing_of_its_own_to_abandon() {
    let r = Repo { unique: "", cwd: "/elsewhere", ..repo() };
    let c = Config::default();
    let closed = r.drive(|t| {
        cmd_close(t, "/src/proj", &c, Some("default"), None, CloseMethod::Abandon, false)
    });
    assert_eq!(closed, Ok(()));
    assert!(!r.did("jj abandon"));
}

#[test]
fn a_bare_close_is_refused() {
    assert!(close_refusal(CloseMethod::Merge, None, None).is_some());
    assert!(close_refusal(CloseMethod::Detach, None, None).is_none());
    assert!(close_refusal(CloseMethod::Merge, None, Some("default")).is_none());
    let r = repo();
    let c = Config::default();
    let e = r
        .drive(|t| cmd_close(t, "/src/proj", &c, None, None, CloseMethod::Merge, false))
        .unwrap_err();
    assert!(e.starts_with("target workspace is required for --method "), "{e}");
    assert!(r.done.borrow().is_empty());
}

fn named_after_bookmarks() -> Config {
    Config { workspace_path: "../{{ bookmark }}".to_string(), ..Config::default() }
}

#[test]
fn a_close_says_its_warnings() {
    let r = Repo { src_desc: "", ..repo() };
    let c = named_after_bookmarks();
    r.drive(|t| {
        let (source, target) = (Some("feat"), Some("default"));
        cmd_close(t, "/src/proj", &c, source, target, CloseMethod::Merge, false)
    })
    .unwrap_err();
    // It fails only where the one who stands in the workspace cannot be led out.
    assert!(r.did(
        "Warn  (ji)::close warning: source workspace feat has undescribed work in s; \
         it will be preserved as a merge parent but may be hard to find"
    ));
    assert!(!r.did("Warn  (ji)::stale"));
}

#[test]
fn a_close_says_what_failed_after_it() {
    let r = Repo { cwd: "/elsewhere", fails: Some("bookmark delete"), ..repo() };
    let c = named_after_bookmarks();
    r.drive(|t| cmd_close(t, "/src/proj", &c, Some("feat"), None, CloseMethod::Abandon, false))
        .unwrap();
    assert!(r.did("jj workspace forget -- feat"));
    assert!(r.did(
        "Warn  workspace 'feat' closed with error.\nCmd: `jj bookmark delete -- feat`\nrefused"
    ));
    // Nothing is said where nothing went wrong.
    let r = Repo { cwd: "/elsewhere", ..repo() };
    r.drive(|t| cmd_close(t, "/src/proj", &c, Some("feat"), None, CloseMethod::Abandon, false))
        .unwrap();
    assert!(!r.did("Warn"));
}

#[test]
fn a_transfer_says_what_failed_after_it() {
    let r = Repo { mark: "old", fails: Some("bookmark set"), ..repo() };
    let c = named_after_bookmarks();
    r.drive(|t| {
        cmd_transfer(t, "/src/proj", &c, Some("feat"), Some("default"), TransferMethod::Merge)
    })
    .unwrap();
    assert!(r.did(
        "Warn  Cmd: `jj bookmark set --revision s -- feat`\nrefused\n\n\
         Cmd: `jj bookmark set --revision t -- default`\nrefused"
    ));
    let r = repo();
    r.drive(|t| {
        cmd_transfer(t, "/src/proj", &c, Some("feat"), Some("default"), TransferMethod::Merge)
    })
    .unwrap();
    assert!(!r.did("Warn"));
}

#[test]
fn the_list_shows_where_one_is() {
    let r = repo();
    r.drive(|t| cmd_ls(t)).unwrap();
    let out = r.done.borrow();
    assert_eq!(out.len(), 2);
    assert_eq!(out[0], format!("Print  + {:<20} {:<10} {:<20} tgt work", "default", "t", ""));
    assert_eq!(out[1], format!("Print  @ {:<20} {:<10} {:<20} src work", "feat", "s", ""));
}

#[test]
fn creating_makes_workspace_bookmark_and_runs_hooks() {
    let r = Repo { env: Some("/home/u"), ..repo() };
    let config = Config {
        pre_start: TextMap::new().with("deps", "make {{ bookmark }}"),
        templates: TextMap::new().with(".envrc", "{{ workspace_name }}"),
        ..Config::default()
    };
    let make = |r: &Repo| {
        r.drive(|t| {
            create(
                t, "/src/proj", &config, "proj", "new/one", "t", "/src/proj", "/src/proj.new-one",
                "msg", false,
            )
        })
    };
    let out = make(&r).unwrap();
    assert_eq!(out.workspace_name, "proj.new-one");
    assert_eq!(out.workspace_path, "/src/proj.new-one");
    assert!(r.did("jj workspace add"), "{:?}", r.done.borrow());
    assert!(r.did("jj bookmark create --revision \"proj.new-one\"@ -- new/one"));
    assert!(r.did("RunHook /src/proj.new-one make new"), "{:?}", r.done.borrow());
    let failing = Repo { env: Some("/home/u"), fails: Some("make"), ..repo() };
    let e = make(&failing).unwrap_err();
    assert!(e.starts_with("pre-start hook: pre-start/deps failed with "), "{e}");
    let failing = Repo { env: Some("/home/u"), fails: Some("bookmark create"), ..repo() };
    assert!(make(&failing).unwrap_err().starts_with("create bookmark"));
}

#[test]
fn a_quiet_creation_survives_its_hooks() {
    let config = Config {
        pre_start: TextMap::new().with("deps", "make"),
        post_start: TextMap::new().with("serve", "make"),
        ..Config::default()
    };
    for fails in ["make", "bookmark create"] {
        let r = Repo { env: Some("/home/u"), fails: Some(fails), ..repo() };
        let out = r.drive(|t| {
            create(
                t, "/src/proj", &config, "proj", "b", "t", "/src/proj", "/src/proj.b", "msg", true,
            )
        });
        assert_eq!(out.unwrap().workspace_name, "proj.b");
    }
}

#[test]
fn background_hooks_do_not_fail() {
    let hooks = TextMap::new().with("serve", "npm run dev");
    let r = Repo { fails: Some("npm"), ..repo() };
    r.drive(|t| run_background(t, "post-start", &hooks, &TextMap::new(), "/d", false)).unwrap();
    assert!(r.did("StartHook /d npm run dev"));
    assert!(r.did("Warn  (ji)::hook failed to start post-start/serve"), "{:?}", r.done.borrow());
}

#[test]
fn hooks_stop_at_the_first_failure() {
    let hooks = TextMap::new().with("a", "one").with("b", "two").with("c", "three");
    let vars = TextMap::new();
    let r = Repo { fails: Some("two"), ..repo() };
    let e = r.drive(|t| run_blocking(t, "pre", &hooks, &vars, "/d", true)).unwrap_err();
    assert_eq!(e, "pre/b failed with refused");
    assert!(r.did("RunHook /d one") && !r.did("RunHook /d three"));
}

#[test]
fn templates_are_filled_and_written() {
    let templates = TextMap::new().with("sub/.env", "R={{ repo }}");
    let vars = TextMap::new().with("repo", "proj");
    let r = repo();
    r.drive(|t| write_templates(t, &templates, &vars, "/w", true)).unwrap();
    assert!(r.did("WriteFile /w/sub/.env R=proj"), "{:?}", r.done.borrow());
}

#[test]
fn an_existing_config_is_kept() {
    let r = repo();
    assert!(r.drive(|t| create_config(t, "/src/proj", "x = 1")).is_err());
    assert!(!r.did("WriteFile"));
}

#[test]
fn linear_ranges_have_no_forks() {
    let r = repo();
    assert!(r.drive(|t| is_effectively_linear(t, "/src/proj", "l", "s")).unwrap());
    let e = Repo { fails: Some("log"), ..repo() }
        .drive(|t| is_effectively_linear(t, "/src/proj", "l", "s"))
        .unwrap_err();
    assert!(e.starts_with("check effective linearity"), "{e}");
}

#[test]
fn stale_failures_get_a_hint() {
    let with = |m: &str| Failure { chain: vec![m.to_string()], command: None };
    assert_eq!(
        stale_hint(&with("jj: The working copy is stale (not updated)")).as_deref(),
        Some(STALE_HINT)
    );
    assert_eq!(stale_hint(&with("other")), None);
}

#[test]
fn calls_are_logged_where_asked() {
    assert_eq!(timestamp(1_518_568_087_133).as_deref(), Some("2018-02-14T00:28:07.133Z"));
    assert_eq!(timestamp(0).as_deref(), Some("1970-01-01T00:00:00.000Z"));
    assert_eq!(timestamp(253_402_300_799_999).as_deref(), Some("9999-12-31T23:59:59.999Z"));
    assert_eq!(timestamp(253_402_300_800_000), None);
    assert_eq!(log_subprocess("T", 7, "log"), "T       7ms  jj log\n");
    assert_eq!(log_hook("T", 1_234_567, "pre/x", "make"), "T  1234567ms  hook:pre/x  make\n");
    assert_eq!(repo().drive(|t| init(t, "/r")).unwrap(), None);
    let at = |v| Repo { env: Some(v), ..repo() }.drive(|t| init(t, "/r")).unwrap();
    assert_eq!(at("1").as_deref(), Some("/r/.ji/subprocess.log"));
    assert_eq!(at("/tmp/x").as_deref(), Some("/tmp/x"));
    assert_eq!(at(""), None);
}
