use std::cell::RefCell;

use ji::commands::plan::{check_freshness, Freshness};
use ji::commands::types::{Operation, SyncMode, SyncModeInfo};
use ji::finder_xattrs::get_xattr;
use ji::jj_run::{jj_argv, needs_version, runs_at};
use ji::jj_utils::{check_revision_safety, RevisionSafety};
use ji::jujutsu::{
    has_unsnapshotted_changes, log_graph_at_operation, log_graph_with_heads, op_log, op_restore,
    op_show,
};
use ji::revisions::{
    ancestor_ids, closest_ancestor_workspace, create_bookmark_at, default_workspace_revisions,
    revision_diff_summary, shortest_change_ids, split_revision, workspace_forget_orphaned,
};
use ji::stale::{file_show_raw, stale_workspace_diff_threaded, update_stale, StaleDiffMsg};
use ji::tape::{Act, Failure, Kind, Reply, Request, Stop, Tape};
use ji::workspaces::list_workspaces;

fn reply(kind: Kind, text: &str) -> Reply {
    Reply {
        kind,
        text: text.to_string(),
        err: String::new(),
        items: Vec::new(),
        bytes: Vec::new(),
        stat: None,
    }
}

fn done(text: &str) -> Reply {
    reply(Kind::Done, text)
}

/// A world that gives its answers in turn and notes what was asked of it.
struct World {
    answers: Vec<Reply>,
    asked: RefCell<Vec<(Act, String, String)>>,
}

impl World {
    fn new(answers: Vec<Reply>) -> World {
        World { answers, asked: RefCell::new(Vec::new()) }
    }

    fn drive<T>(&self, f: impl Fn(&mut Tape) -> Result<T, Stop>) -> Result<T, Failure> {
        let mut replies: Vec<Reply> = Vec::new();
        loop {
            match f(&mut Tape::new(replies.clone())) {
                Ok(v) => return Ok(v),
                Err(Stop::Fail(e)) => return Err(e),
                Err(Stop::Ask(q)) => {
                    self.note(&q);
                    replies.push(self.answers[replies.len()].clone());
                }
            }
        }
    }

    fn note(&self, q: &Request) {
        self.asked.borrow_mut().push((q.act, q.at.clone(), q.args.join(" ")));
    }

    fn asked(&self) -> Vec<(Act, String, String)> {
        self.asked.borrow().clone()
    }
}

fn one(act: Act, at: &str, args: &str) -> Vec<(Act, String, String)> {
    vec![(act, at.to_string(), args.to_string())]
}

#[test]
fn shortest_ids_are_a_map() {
    let w = World::new(vec![done("aaa\u{1f}a\u{1e}bbb\u{1f}b\u{1e}aaa\u{1f}aa\u{1e}bare\u{1e}")]);
    let ids = ["bbb", "", "aaa", "bbb"].map(String::from).to_vec();
    let map = w.drive(|tape| shortest_change_ids(tape, "/r", &ids)).unwrap();
    assert!(w.asked()[0].2.starts_with("log --no-graph --revision present(\"bbb\") | present(\"aaa\") --template "));
    // A later record replaces an earlier one.
    assert_eq!(map.len(), 2);
    assert_eq!((map.key(0).as_str(), map.value(0).as_str()), ("aaa", "aa"));
    assert_eq!((map.key(1).as_str(), map.value(1).as_str()), ("bbb", "b"));
    // An id that is no symbol is quoted.
    let w = World::new(vec![done("")]);
    let odd = vec!["a\"b".to_string()];
    assert_eq!(w.drive(|tape| shortest_change_ids(tape, "/r", &odd)).unwrap().len(), 0);
    assert!(w.asked()[0].2.starts_with("log --no-graph --revision present(\"a\\\"b\") --"));
    // Nothing is asked for nothing, and a failure leaves all of them out.
    let w = World::new(vec![]);
    let none = vec![String::new()];
    assert_eq!(w.drive(|tape| shortest_change_ids(tape, "/r", &none)).unwrap().len(), 0);
    let w = World::new(vec![reply(Kind::Nonzero, "")]);
    assert_eq!(w.drive(|tape| shortest_change_ids(tape, "/r", &ids)).unwrap().len(), 0);
}

#[test]
fn ancestors_are_listed_and_the_closest_is_found() {
    let w = World::new(vec![done("c\n\nb\na\n")]);
    assert_eq!(w.drive(|tape| ancestor_ids(tape, "/r", "c")).unwrap(), ["c", "b", "a"]);
    assert!(w.asked()[0].2.starts_with("log --no-graph --revision ::c "));
    let ids = ["x", "y"].map(String::from).to_vec();
    let w = World::new(vec![done("y")]);
    let got = w.drive(|tape| closest_ancestor_workspace(tape, "/r", "s", &ids)).unwrap();
    assert_eq!(got.as_deref(), Some("y"));
    assert_eq!(
        w.asked(),
        one(
            Act::JjRepo,
            "/r",
            "log --no-graph --limit 1 --revision (x | y) & ::s --template change_id"
        )
    );
    for answer in [done(""), reply(Kind::Nonzero, "y")] {
        let w = World::new(vec![answer]);
        assert!(w
            .drive(|tape| closest_ancestor_workspace(tape, "/r", "s", &ids))
            .unwrap()
            .is_none());
    }
    let w = World::new(vec![]);
    assert!(w
        .drive(|tape| closest_ancestor_workspace(tape, "/r", "s", &vec![]))
        .unwrap()
        .is_none());
}

#[test]
fn the_default_workspace_is_listed_without_revisions() {
    let w = World::new(vec![
        done("default\u{1f}/p\u{1f}t\u{1f}d\u{1e}feat\u{1f}/f\u{1f}s\u{1f}e\u{1e}"),
        done("s\u{1f}mine\u{1f}work\u{1e}"),
        done("main\u{1f}t\u{1e}old\u{1f}r\u{1e}"),
        done("7"),
        done("8"),
    ]);
    let all = w.drive(|tape| list_workspaces(tape, "/p")).unwrap();
    assert_eq!(all[0].name, "default");
    assert!(all[0].revisions.is_empty());
    assert_eq!(all[0].bookmarks_at_head, [("main".to_string(), "t".to_string())]);
    assert_eq!(all[0].bookmarks_behind, [("old".to_string(), "r".to_string())]);
    assert_eq!(all[0].last_modified, Some(7));
    assert_eq!(all[1].revisions.len(), 1);
    assert_eq!(all[1].revisions[0].change_id, "s");
    assert_eq!(all[1].bookmarks_at_head, [("mine".to_string(), "s".to_string())]);
    assert_eq!(w.asked().len(), 5);
}

#[test]
fn ancestors_of_the_default_head_come_newest_first() {
    let w = World::new(vec![done("t\u{1f}new\n\u{1e}r\u{1f}old\u{1e}")]);
    let revs = w.drive(|tape| default_workspace_revisions(tape, "/p", "t")).unwrap();
    let got: Vec<(&str, &str)> =
        revs.iter().map(|r| (r.change_id.as_str(), r.description.as_str())).collect();
    assert_eq!(got, [("t", "new"), ("r", "old")]);
    assert!(w.asked()[0].2.starts_with("log --no-graph --revision ::t "));
}

#[test]
fn diffs_are_summarized() {
    let stat = "a | 2 +-\n 1 file changed, 1 insertion(+), 1 deletion(-)\n";
    let w = World::new(vec![done("M a\nC {b => c}\nD d\nR {e => f}\nnoise\n"), done(stat)]);
    let d = w.drive(|tape| revision_diff_summary(tape, "/r", "id")).unwrap();
    let files: Vec<String> = d.files.iter().map(|f| format!("{:?} {}", f.kind, f.path)).collect();
    assert_eq!(files, ["Modified a", "Added {b => c}", "Deleted d", "Renamed {e => f}"]);
    assert_eq!(
        d.stat_line.as_deref(),
        Some("1 file changed, 1 insertion(+), 1 deletion(-)")
    );
    let w = World::new(vec![done(""), reply(Kind::Nonzero, "")]);
    let d = w.drive(|tape| revision_diff_summary(tape, "/r", "id")).unwrap();
    assert!(d.files.is_empty() && d.stat_line.is_none());
}

#[test]
fn bookmarks_are_created_at_revisions() {
    let w = World::new(vec![done("")]);
    w.drive(|tape| create_bookmark_at(tape, "/r", "-b", "rev")).unwrap();
    assert_eq!(
        w.asked(),
        one(Act::JjRepo, "/r", "bookmark create --revision rev -- -b")
    );
    let taken = Reply { err: "exists".to_string(), ..reply(Kind::Nonzero, "") };
    let w = World::new(vec![taken]);
    let e = w.drive(|tape| create_bookmark_at(tape, "/r", "b", "rev")).unwrap_err();
    assert_eq!(e.render(), "jj bookmark create --revision rev -- b failed: exists");
}

#[test]
fn orphans_are_forgotten_without_a_snapshot() {
    let w = World::new(vec![done("")]);
    w.drive(|tape| workspace_forget_orphaned(tape, "/r", "ws")).unwrap();
    assert_eq!(w.asked(), one(Act::JjRepo, "/r", "workspace forget -- ws"));
}

#[test]
fn splitting_takes_the_terminal() {
    let w = World::new(vec![done("")]);
    w.drive(|tape| split_revision(tape, "/r", "id")).unwrap();
    assert_eq!(w.asked(), one(Act::JjTerminal, "/r", "split --revision id"));
    let code = Reply { err: "exit status: 1".to_string(), ..reply(Kind::Nonzero, "") };
    let w = World::new(vec![code]);
    let e = w.drive(|tape| split_revision(tape, "/r", "id")).unwrap_err();
    assert_eq!(e.render(), "jj split failed with exit status: 1");
    let gone = Reply { err: "no jj".to_string(), ..reply(Kind::NotFound, "") };
    let w = World::new(vec![gone]);
    let e = w.drive(|tape| split_revision(tape, "/r", "id")).unwrap_err();
    assert_eq!(e.render(), "failed to run jj split: no jj");
}

#[test]
fn pending_edits_show_in_the_commit_id() {
    for (preview, pending) in [("one", false), ("two", true)] {
        let w = World::new(vec![done("one"), done(preview)]);
        assert_eq!(w.drive(|tape| has_unsnapshotted_changes(tape, "/w")).unwrap(), pending);
        let asked = w.asked();
        assert_eq!(asked[0].0, Act::JjWs);
        assert_eq!(asked[1].0, Act::JjWsLive);
        assert!(asked[1].2.starts_with("--no-integrate-operation --quiet log "));
    }
    let w = World::new(vec![done("one"), reply(Kind::Nonzero, "")]);
    let e = w.drive(|tape| has_unsnapshotted_changes(tape, "/w")).unwrap_err();
    assert!(e.render().starts_with("probe would-be @ commit id (preview snapshot): "));
}

#[test]
fn graph_lines_carry_their_change_ids() {
    let id = "k".repeat(32);
    let graph = "\u{1b}[1mgraph\u{1b}[0m\n~\n";
    let heads = format!("@  {id}\n~  (elided)\n");
    let w = World::new(vec![done(graph), done(&heads)]);
    let (g, lines) = w.drive(|tape| log_graph_with_heads(tape, "/r", None)).unwrap();
    // The graph keeps its white space.
    assert_eq!(g, graph);
    assert_eq!(lines, [Some(id), None]);
    let asked = w.asked();
    assert_eq!(asked[0].2, "log --color always");
    assert_eq!(
        asked[1].2,
        r#"log --color never --template change_id ++ "\n" ++ change_id"#
    );

    let w = World::new(vec![done(""), done("")]);
    let tmpl = r#"a ++ "\n" ++ b ++ "\n" ++ c ++ "\n""#;
    w.drive(|tape| log_graph_at_operation(tape, "/r", "op1", Some(tmpl))).unwrap();
    let asked = w.asked();
    assert_eq!(
        asked[0].2,
        format!("--at-operation=op1 log --color always --template {tmpl}")
    );
    assert_eq!(
        asked[1].2,
        r#"--at-operation=op1 log --color never --template change_id ++ "\n" ++ change_id ++ "\n" ++ change_id"#
    );

    let bad = Reply { err: "bad template".to_string(), ..reply(Kind::Nonzero, "") };
    let w = World::new(vec![bad]);
    let e = w.drive(|tape| log_graph_with_heads(tape, "/r", Some("x"))).unwrap_err();
    assert_eq!(e.render(), "jj log failed: bad template");
}

#[test]
fn operations_are_logged_shown_and_restored() {
    let log = "id1\u{1f}new\u{1f}false\u{1f}true\u{1f}tags\u{1f}now\u{1e}cut\u{1f}short\u{1e}";
    let w = World::new(vec![done(log)]);
    let ops = w.drive(|tape| op_log(tape, "/r", 7)).unwrap();
    assert_eq!(ops.len(), 1);
    assert_eq!(ops[0].description, "new");
    assert!(ops[0].is_current && !ops[0].is_snapshot);
    assert!(w.asked()[0].2.starts_with("--at-op=@ op log --no-graph --limit 7 --template "));
    let w = World::new(vec![done("  changed\n")]);
    assert_eq!(w.drive(|tape| op_show(tape, "/r", "id1")).unwrap(), "changed");
    assert_eq!(w.asked(), one(Act::JjRepo, "/r", "--at-op=@ op show id1"));
    let w = World::new(vec![done("")]);
    w.drive(|tape| op_restore(tape, "/r", "id1")).unwrap();
    assert_eq!(w.asked(), one(Act::JjRepoLive, "/r", "op restore id1"));
}

#[test]
fn stale_copies_are_updated_in_the_repository() {
    let w = World::new(vec![done("updated\n")]);
    assert_eq!(w.drive(|tape| update_stale(tape, "/r")).unwrap(), "updated");
    assert_eq!(w.asked(), one(Act::JjRepoLive, "/r", "workspace update-stale"));
}

#[test]
fn files_are_shown_as_bytes() {
    let raw = Reply { bytes: vec![0xff, 0, 10], ..done("") };
    let w = World::new(vec![raw]);
    assert_eq!(w.drive(|tape| file_show_raw(tape, "/w", "a b")).unwrap(), [0xff, 0, 10]);
    assert_eq!(w.asked(), one(Act::JjWsBytes, "/w", "file show --revision @ a b"));
    let bad = Reply { err: "no such path".to_string(), ..reply(Kind::Nonzero, "") };
    let w = World::new(vec![bad]);
    let e = w.drive(|tape| file_show_raw(tape, "/w", "a")).unwrap_err();
    assert_eq!(e.render(), "jj file show failed for a: no such path");
}

#[test]
fn progress_is_reported_and_failure_handed_over() {
    // One tracked file, which is missing; then the empty disk.
    let no = || reply(Kind::Nonzero, "");
    let w = World::new(vec![done("a\n"), done(""), no(), done(""), done("")]);
    let StaleDiffMsg::Done(d) =
        w.drive(|tape| stale_workspace_diff_threaded(tape, "/w")).unwrap()
    else {
        panic!("not done")
    };
    assert_eq!(d.unwrap().jj_only, ["a"]);
    let acts: Vec<Act> = w.asked().iter().map(|a| a.0).collect();
    assert_eq!(acts, [Act::JjWs, Act::Total, Act::Exists, Act::Checked, Act::ListDir]);
    let bad = Reply { err: "why".to_string(), ..no() };
    let w = World::new(vec![bad]);
    let StaleDiffMsg::Done(d) =
        w.drive(|tape| stale_workspace_diff_threaded(tape, "/w")).unwrap()
    else {
        panic!("not done")
    };
    assert_eq!(d.unwrap_err().render(), "jj file list failed: why");
}

#[test]
fn attributes_are_read_where_they_exist() {
    let value = Reply { bytes: vec![1, 2], ..done("") };
    let w = World::new(vec![value]);
    assert_eq!(w.drive(|tape| get_xattr(tape, "/f", "name")).unwrap(), Some(vec![1, 2]));
    assert_eq!(w.asked(), one(Act::GetXattr, "/f", "name"));
    let w = World::new(vec![reply(Kind::Nonzero, "")]);
    assert_eq!(w.drive(|tape| get_xattr(tape, "/f", "name")).unwrap(), None);
}

fn info(op_head: &str) -> SyncModeInfo {
    SyncModeInfo {
        mode: SyncMode::Diverged,
        src_effective_head: "s".to_string(),
        tgt_effective_head: "t".to_string(),
        src_actual_head: "s".to_string(),
        tgt_actual_head: "t".to_string(),
        src_trivial_id: None,
        tgt_trivial_id: None,
        src_trivial_ids: Vec::new(),
        tgt_trivial_ids: Vec::new(),
        lca: "l".to_string(),
        op_head: op_head.to_string(),
    }
}

fn heads(name: &str) -> Reply {
    Reply { items: vec![name.to_string()], ..done("") }
}

fn record(id: &str) -> Reply {
    done(&format!("{id}\u{1f}false\u{1f}false\u{1f}work\u{1e}"))
}

#[test]
fn plans_are_fresh_equivalent_or_changed() {
    let required = [("src", "/s")];
    // Snapshot, then the operation head.
    let w = World::new(vec![done(""), done(""), heads("op1")]);
    let f = |tape: &mut Tape| check_freshness(tape, "/r", &info("op1"), "src", "tgt", &required, true);
    assert!(matches!(w.drive(f).unwrap(), Freshness::Unchanged));
    let w = World::new(vec![done(""), done(""), heads("op2")]);
    let f = |tape: &mut Tape| check_freshness(tape, "/r", &info("op1"), "src", "tgt", &required, false);
    assert!(matches!(w.drive(f).unwrap(), Freshness::Changed));
    // The head moved, and detection finds the same plan.
    let found = |lca: &str| {
        vec![
            done(""),
            done(""),
            heads("op2"),
            heads("op2"),
            record("s"),
            record("t"),
            done(lca),
        ]
    };
    let f = |tape: &mut Tape| check_freshness(tape, "/r", &info("op1"), "src", "tgt", &required, true);
    let w = World::new(found("l"));
    match w.drive(f).unwrap() {
        Freshness::Equivalent(fresh) => assert_eq!(fresh.op_head, "op2"),
        _ => panic!("expected an equivalent plan"),
    }
    let w = World::new(found("other"));
    assert!(matches!(w.drive(f).unwrap(), Freshness::Changed));
    // A workspace that cannot be snapshotted blocks.
    let w = World::new(vec![reply(Kind::Nonzero, "")]);
    let e = w.drive(f).err().unwrap();
    assert!(e.render().starts_with("workspace src has no usable working-copy directory (/s)"));
}

#[test]
fn close_methods_have_labels() {
    assert_eq!(Operation::MergeClose.close_method_label(), Some("merge"));
    assert_eq!(Operation::MergeSquashClose.close_method_label(), Some("squash-merge"));
    assert_eq!(Operation::FastForwardTargetClose.close_method_label(), Some("fast-forward"));
    assert_eq!(Operation::Detach.close_method_label(), Some("detach"));
    assert_eq!(Operation::Abandon.close_method_label(), Some("abandon"));
    assert_eq!(Operation::Merge.close_method_label(), None);
    assert_eq!(Operation::AdaptiveClose.close_method_label(), None);
}

#[test]
fn flags_follow_the_act() {
    let argv = |act: Act| {
        let args = vec!["log".to_string()];
        let (data, label) = (Vec::new(), String::new());
        jj_argv(&Request { act, at: "/r".to_string(), args, data, label }).join(" ")
    };
    assert_eq!(argv(Act::JjRepo), "--repository /r --ignore-working-copy log");
    assert_eq!(argv(Act::JjRepoLive), "--repository /r log");
    assert_eq!(argv(Act::JjTerminal), "--repository /r log");
    for act in [Act::JjWs, Act::JjWsBytes, Act::JjBootstrap, Act::JjTimed] {
        assert_eq!(argv(act), "--ignore-working-copy log");
    }
    assert_eq!(argv(Act::JjWsLive), "log");
    for act in [Act::JjRepo, Act::JjRepoLive, Act::JjWs, Act::JjWsLive, Act::JjWsBytes] {
        assert!(needs_version(act) && runs_at(act));
    }
    for act in [Act::JjBootstrap, Act::JjTimed] {
        assert!(!needs_version(act) && !runs_at(act));
    }
    assert!(!needs_version(Act::JjTerminal) && runs_at(Act::JjTerminal));
}

#[test]
fn only_local_bookmarks_keep_a_head_safe() {
    let check = |answers: Vec<Reply>| {
        let w = World::new(answers);
        let safety = w.drive(|tape| check_revision_safety(tape, "/r", "x", Some("/w"))).unwrap();
        assert!(w.asked()[0].2.contains(r#"local_bookmarks.map(|b| b.name()).join("\x01")"#));
        safety
    };
    let head = |marks: &str, desc: &str| done(&format!("id\u{1f}{marks}\u{1f}{desc}\u{1e}"));
    match check(vec![head("", " "), done("false")]) {
        RevisionSafety::AtRisk { change_id } => assert_eq!(change_id, "id"),
        RevisionSafety::Safe => panic!("work would be lost"),
    }
    assert!(matches!(check(vec![head("", ""), done("true")]), RevisionSafety::Safe));
    assert!(matches!(check(vec![head("main", "")]), RevisionSafety::Safe));
    assert!(matches!(check(vec![head("", "described")]), RevisionSafety::Safe));
    assert!(matches!(check(vec![done("")]), RevisionSafety::Safe));
}
