use ji::jj_logs::{parse_changed_files, parse_stat_line, FileChangeKind};
use ji::jj_parse::{
    escape_revset_string, parse_completion_workspaces, parse_entries, parse_operations,
    parse_ws_root, unquote_ws_name, DELIM_FIELD, DELIM_LIST, DELIM_RECORD, LIST_TEMPLATE,
    TMPL_ID_DESC,
};
use ji::jj_run::{
    check_min_jj_version, jj_timed, judge_text, judge_version, parse_jj_version_output,
    run_jj_bootstrap_timeout, PollEvent, PollStep,
};
use ji::jujutsu::{
    current_op_head, current_op_id, descendant_first_workspaces, list_workspace_entries,
    only_snapshots_since,
};
use ji::revisions::abandon_revisions;
use ji::stale::{is_working_copy_stale, match_hashes, stale_workspace_diff, Found};
use ji::tape::{Act, Failure, Kind, Reply, Request, Stop, Tape};

fn reply(kind: Kind, text: &str) -> Reply {
    Reply {
        kind,
        text: text.to_string(),
        err: String::new(),
        items: Vec::new(),
        bytes: Vec::new(),
        stat: None,
    }
}

fn drive<T>(
    answer: impl Fn(&Request) -> Reply,
    f: impl Fn(&mut Tape) -> Result<T, Stop>,
) -> Result<T, Failure> {
    let mut replies: Vec<Reply> = Vec::new();
    loop {
        match f(&mut Tape::new(replies.clone())) {
            Ok(v) => return Ok(v),
            Err(Stop::Fail(e)) => return Err(e),
            Err(Stop::Ask(q)) => replies.push(answer(&q)),
        }
    }
}

#[test]
fn templates_use_documented_delimiters() {
    assert!(TMPL_ID_DESC.contains(r#""\x1f""#), "TMPL_ID_DESC missing \\x1f field delim");
    assert!(TMPL_ID_DESC.contains(r#""\x1e""#), "TMPL_ID_DESC missing \\x1e record delim");
    assert!(LIST_TEMPLATE.contains(r#""\x1f""#), "LIST_TEMPLATE missing \\x1f field delim");
    assert!(LIST_TEMPLATE.contains(r#""\x1e""#), "LIST_TEMPLATE missing \\x1e record delim");
    assert_eq!(DELIM_RECORD, '\x1e');
    assert_eq!(DELIM_FIELD, '\x1f');
    assert_eq!(DELIM_LIST, '\x01');
    assert!(!TMPL_ID_DESC.contains(r#""\0""#), "TMPL_ID_DESC still uses legacy \\0 delim");
    assert!(!LIST_TEMPLATE.contains(r#""\0""#), "LIST_TEMPLATE still uses legacy \\0 delim");
}

/// Waits as the steps say for a child that exits after `exits` milliseconds, if ever.
fn wait_for(exits: Option<u64>, timeout: u64) -> (PollStep, u64) {
    let mut elapsed: u64 = 0;
    loop {
        let event = match exits {
            Some(e) if e <= elapsed => PollEvent::Exited,
            _ => PollEvent::Running { elapsed },
        };
        match run_jj_bootstrap_timeout(event, timeout) {
            PollStep::Sleep { millis } => elapsed += millis,
            step => return (step, elapsed),
        }
    }
}

#[test]
fn bootstrap_timeout_bounds_a_slow_child() {
    let (step, elapsed) = wait_for(Some(30_000), 150);
    assert_eq!(step, PollStep::Kill);
    assert!(elapsed < 5000, "timeout did not bound the wait: {elapsed:?}");
    let res = drive(
        |_| Reply { err: "150ms".to_string(), ..reply(Kind::Refused, "") },
        |tape| jj_timed(tape, vec!["30".to_string()]),
    );
    assert!(res.is_err(), "expected timeout error, got {res:?}");
}

#[test]
fn bootstrap_timeout_propagates_nonzero_exit() {
    assert_eq!(wait_for(Some(0), 5000).0, PollStep::Collect);
    let res = drive(
        |_| Reply { err: "exit status: 1".to_string(), ..reply(Kind::Nonzero, "partial") },
        |tape| jj_timed(tape, Vec::new()),
    );
    assert!(res.is_err(), "nonzero exit must be an error, got {res:?}");
}

#[test]
fn a_lost_child_is_killed() {
    assert_eq!(run_jj_bootstrap_timeout(PollEvent::Lost, 5000), PollStep::Kill);
    let res = drive(
        |_| Reply { err: "no child".to_string(), ..reply(Kind::Lost, "") },
        |tape| jj_timed(tape, Vec::new()),
    );
    assert_eq!(res.unwrap_err().render(), "waiting on jj completion query: no child");
}

#[test]
fn an_error_is_no_root() {
    assert_eq!(parse_ws_root(" /work/a b\n").as_deref(), Some("/work/a b"));
    assert_eq!(parse_ws_root("<Error: No such file or directory>"), None);
}

#[test]
fn unquote_ws_name_strips_and_unescapes() {
    assert_eq!(unquote_ws_name("plain"), "plain");
    assert_eq!(unquote_ws_name(r#""with space""#), "with space");
    assert_eq!(unquote_ws_name(r#""a \" b""#), r#"a " b"#);
    assert_eq!(unquote_ws_name(r#""a \\ b""#), r"a \ b");
}

#[test]
fn unquoting_reverts_escaping() {
    for s in ["plain", "a b", "q\"q", "back\\slash", "\\\"", ""] {
        assert_eq!(unquote_ws_name(&format!("\"{}\"", escape_revset_string(s))), s);
    }
}

#[test]
fn completion_workspaces_root_with_delimiter_not_misparsed() {
    let f = DELIM_FIELD;
    let r = DELIM_RECORD;
    let stdout =
        format!("ws-a{f}1700000000{f}/normal/root{r}weird{f}1700000001{f}/has{f}delim{r}");
    let parsed = parse_completion_workspaces(&stdout);
    assert_eq!(parsed.len(), 2);
    assert_eq!(parsed[0].name, "ws-a");
    assert_eq!(parsed[0].last_touched, Some(1_700_000_000));
    assert_eq!(parsed[0].root.as_deref(), Some("/normal/root"));
    assert_eq!(parsed[1].name, "weird");
    assert_eq!(parsed[1].last_touched, Some(1_700_000_001));
    assert_eq!(parsed[1].root, Some(format!("/has{f}delim")));
}

// -- versions --

#[test]
fn versions_are_read_and_judged() {
    assert_eq!(parse_jj_version_output("jj 0.41.0\n").as_deref(), Ok("0.41.0"));
    assert_eq!(
        parse_jj_version_output("git 2\n").unwrap_err(),
        "unexpected `jj --version` output: \"git 2\\n\""
    );
    let e = parse_jj_version_output("jj nope").unwrap_err();
    assert!(e.starts_with("could not parse jj version: \"nope\": "), "{e}");
    assert!(check_min_jj_version("jj 0.42.0").is_ok());
    assert!(check_min_jj_version("jj 1.0.0").is_ok());
    let old = check_min_jj_version("jj 0.41.9").unwrap_err();
    assert!(old.starts_with("installed jj 0.41.9 is older than required 0.42.0"), "{old}");
    // A pre-release comes before its release.
    assert!(check_min_jj_version("jj 0.42.0-alpha").is_err());
    assert!(judge_version(Ok("9.9.9".to_string()), true).is_err());
    assert_eq!(judge_version(Err("why".to_string()), false).unwrap_err(), "why");
}

#[test]
fn version_texts_are_judged_by_their_error() {
    let text = || Some("1.x".to_string());
    assert_eq!(judge_text(text(), "'1.x'", None).as_deref(), Ok("1.x"));
    assert_eq!(
        judge_text(text(), "'1.x'", Some("bad minor".to_string())).unwrap_err(),
        "could not parse jj version: '1.x': bad minor"
    );
    assert_eq!(
        judge_text(None, "'git'", None).unwrap_err(),
        "unexpected `jj --version` output: 'git'"
    );
}

// -- jj answers --

#[test]
fn operations_are_parsed() {
    let ops = parse_operations(
        "abc\u{1f}snapshot working copy\u{1f}true\u{1f}true\u{1f}args: jj st\u{1f}2024\u{1e}",
    );
    assert_eq!(ops.len(), 1);
    assert_eq!(ops[0].id, "abc");
    assert!(ops[0].is_snapshot);
    assert!(ops[0].is_current);
}

#[test]
fn workspace_entries_are_parsed() {
    let out = "default\u{1f}/src/proj\u{1f}abc\u{1f}work\u{1e}";
    let entries = parse_entries(out).unwrap();
    assert_eq!(entries.len(), 1);
    assert_eq!(entries[0].name, "default");
    assert_eq!(entries[0].change_id, "abc");
    assert!(parse_entries("too\u{1f}few\u{1e}").is_err());
    let same = drive(|_| reply(Kind::Done, out), |tape| list_workspace_entries(tape, "/src/proj"));
    assert_eq!(same.unwrap()[0].name, "default");
}

#[test]
fn changed_files_are_parsed() {
    let files = parse_changed_files("M src/a.rs\nA b\nD c d\n\n1 file changed\n");
    assert_eq!(files.len(), 3);
    assert_eq!(files[0].kind, FileChangeKind::Modified);
    assert_eq!(files[0].path, "src/a.rs");
    assert_eq!(files[2].path, "c d");
    assert_eq!(
        parse_stat_line("a | 2 +-\n1 file changed, 1 insertion(+)\n").as_deref(),
        Some("1 file changed, 1 insertion(+)")
    );
}

#[test]
fn a_missing_jj_is_explained() {
    let e = drive(|_| reply(Kind::NotFound, ""), |tape| list_workspace_entries(tape, "/r"))
        .unwrap_err();
    assert!(e.render().contains("jj"), "{}", e.render());
    let e = drive(
        |_| Reply { err: "Error: nope".to_string(), ..reply(Kind::Nonzero, "") },
        |tape| list_workspace_entries(tape, "/r"),
    )
    .unwrap_err();
    assert_eq!(e.command.unwrap().stderr, "Error: nope");
}

#[test]
fn operation_heads_and_snapshots() {
    let heads = |names: &[&str]| {
        let items: Vec<String> = names.iter().map(|n| n.to_string()).collect();
        let listed = || Reply { items: items.clone(), ..reply(Kind::Done, "") };
        (
            drive(|_| listed(), |tape| current_op_head(tape, "/r")).unwrap(),
            drive(|_| listed(), |tape| current_op_id(tape, "/r")).unwrap(),
        )
    };
    assert_eq!(heads(&["abc"]), (Some("abc".to_string()), Some("abc".to_string())));
    assert_eq!(heads(&["b", "a"]), (Some("a,b".to_string()), None));
    assert_eq!(heads(&[]), (None, None));
    let log = "c\u{1f}true\u{1e}b\u{1f}true\u{1e}a\u{1f}false\u{1e}";
    let since = |id: &str| {
        drive(|_| reply(Kind::Done, log), |tape| only_snapshots_since(tape, "/r", id, 10)).unwrap()
    };
    assert!(since("a"));
    assert!(since("c"));
    assert!(!since("zzz"));
}

#[test]
fn descendants_come_first() {
    let entry = |name: &str, id: &str| {
        let record = format!("{name}\u{1f}/{name}\u{1f}{id}\u{1f}\u{1e}");
        parse_entries(&record).unwrap().remove(0)
    };
    let entries =
        vec![entry("gone", "x"), entry("old", "a"), entry("lost", "y"), entry("new", "b")];
    let order = drive(
        |_| reply(Kind::Done, "b\na\n"),
        |tape| descendant_first_workspaces(tape, "/r", &entries),
    );
    assert_eq!(order.unwrap(), [3, 1, 0, 2]);
}

#[test]
fn too_many_revisions_are_not_abandoned() {
    let ids: Vec<String> = (0..51).map(|i| format!("id{i}")).collect();
    let e = drive(|_| reply(Kind::Done, ""), |tape| abandon_revisions(tape, "/r", &ids));
    assert!(e.is_err());
    let few: Vec<String> = ids[..50].to_vec();
    assert!(drive(|_| reply(Kind::Done, ""), |tape| abandon_revisions(tape, "/r", &few)).is_ok());
}

#[test]
fn stale_working_copies_are_told_from_other_errors() {
    let stale = |err: &str| {
        drive(
            |_| Reply { err: err.to_string(), ..reply(Kind::Nonzero, "") },
            |tape| is_working_copy_stale(tape, "/r"),
        )
    };
    assert!(stale("Error: The working copy is stale (not updated since operation x)").unwrap());
    assert!(!stale("Error: no repository").unwrap());
}

#[test]
fn stale_diff_compares_contents() {
    let names = |all: &[&str]| Reply {
        items: all.iter().map(|n| n.to_string()).collect(),
        ..reply(Kind::Done, "")
    };
    let answer = |q: &Request| match (q.act, q.at.as_str()) {
        (Act::JjWs, _) => reply(Kind::Done, "same\nchanged\nmissing\n"),
        (Act::JjWsBytes, _) => {
            let name = q.args.iter().find(|a| ["same", "changed"].iter().any(|n| a.contains(n)));
            match name {
                Some(_) => Reply { bytes: b"expected".to_vec(), ..reply(Kind::Done, "") },
                None => reply(Kind::Nonzero, ""),
            }
        }
        (Act::ReadBytes, "/w/same") => {
            Reply { bytes: b"expected".to_vec(), ..reply(Kind::Done, "") }
        }
        (Act::ReadBytes, "/w/changed") => {
            Reply { bytes: b"other".to_vec(), ..reply(Kind::Done, "") }
        }
        (Act::Exists, "/w/same" | "/w/changed") => reply(Kind::Done, ""),
        (Act::ListDir, "/w") => names(&[".git", "same", "changed", "sub", ".jj"]),
        (Act::ListDir, "/w/sub") => names(&["b", "a", "link"]),
        (Act::IsDir, at) if at.ends_with("/sub") || at.contains("/.") => reply(Kind::Done, ""),
        (Act::IsFile, at) if !at.ends_with("link") => reply(Kind::Done, ""),
        _ => reply(Kind::Nonzero, ""),
    };
    let d = drive(answer, |tape| stale_workspace_diff(tape, "/w")).unwrap();
    assert_eq!(d.modified, ["changed"]);
    assert_eq!(d.jj_only, ["missing"]);
    assert_eq!(d.disk_only, ["sub/a", "sub/b"]);
    assert_eq!(d.summary(), "1 modified, 2 added on disk, 1 missing");
}

#[test]
fn tracked_files_are_held_against_the_disk_by_hash() {
    let (a, b) = (vec![1u8; 32], vec![2u8; 32]);
    assert!(matches!(match_hashes(true, &a, &a), Found::Same));
    assert!(matches!(match_hashes(true, &a, &b), Found::Modified));
    // What jj does not show is not the same as anything.
    assert!(matches!(match_hashes(false, &a, &a), Found::Modified));
}
