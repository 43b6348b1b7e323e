use ji::completion::{
    capture_shell, current_workspace_name, is_bash, new_bookmark_candidates,
    render_workspace_candidates, workspace_candidates,
};
use ji::jj_parse::CompletionWorkspace;
use ji::tape::{Act, Failure, Kind, Reply, Request, Stop, Tape};

fn reply(kind: Kind, text: &str) -> Reply {
    Reply {
        kind,
        text: text.to_string(),
        err: String::new(),
        items: Vec::new(),
        bytes: Vec::new(),
        stat: None,
    }
}

fn drive<T>(
    answer: impl Fn(&Request) -> Reply,
    f: impl Fn(&mut Tape) -> Result<T, Stop>,
) -> Result<T, Failure> {
    let mut replies: Vec<Reply> = Vec::new();
    loop {
        match f(&mut Tape::new(replies.clone())) {
            Ok(v) => return Ok(v),
            Err(Stop::Fail(e)) => return Err(e),
            Err(Stop::Ask(q)) => replies.push(answer(&q)),
        }
    }
}

/// Every path exists, and is canonical.
fn all_there(q: &Request) -> Reply {
    match q.act {
        Act::Exists | Act::IsDir => reply(Kind::Done, ""),
        Act::Canonical => reply(Kind::Done, &q.at),
        Act::CurrentDir => reply(Kind::Done, "/w/alpha/deep"),
        _ => reply(Kind::Unstarted, ""),
    }
}

fn ws(name: &str, root: Option<&str>, last: Option<i64>) -> CompletionWorkspace {
    CompletionWorkspace {
        name: name.to_string(),
        root: root.map(String::from),
        last_touched: last,
    }
}

/// Renders to (value, help, display order).
fn render(
    wss: Vec<CompletionWorkspace>,
    current: Option<&str>,
    bash: bool,
    token: &str,
) -> Vec<(String, String, usize)> {
    drive(all_there, |tape| {
        render_workspace_candidates(tape, &wss, current, 1_000_000, bash, token)
    })
    .unwrap()
    .into_iter()
    .map(|c| (c.value, c.help.unwrap_or_default(), c.display_order))
    .collect()
}

#[test]
fn sort_symbols_and_display_order() {
    let now = 1_000_000;
    let wss = vec![
        ws("alpha", Some("/"), Some(now - 7200)),
        ws("bravo", Some("/"), Some(now - 3600)),
        ws("gone", None, Some(now - 86_400)),
    ];
    let out = render(wss, Some("bravo"), false, "");
    let names: Vec<&str> = out.iter().map(|(n, _, _)| n.as_str()).collect();
    assert_eq!(names, ["bravo", "alpha", "gone"]);
    assert_eq!(out[0].1, "(1h)[*]");
    assert_eq!(out[1].1, "(2h)");
    assert_eq!(out[2].1, "(1d)[x]");
    let orders: Vec<usize> = out.iter().map(|(_, _, d)| *d).collect();
    assert_eq!(orders, [0, 1, 2]);
}

#[test]
fn bash_prefix_filters_zsh_fish_do_not() {
    let now = 1_000_000;
    let make = || {
        vec![
            ws("main", Some("/"), Some(now - 10)),
            ws("maint", Some("/"), Some(now - 20)),
            ws("other", Some("/"), Some(now - 5)),
        ]
    };
    let bash: Vec<String> =
        render(make(), None, true, "mai").into_iter().map(|(n, _, _)| n).collect();
    assert_eq!(bash, ["main", "maint"]);
    assert_eq!(render(make(), None, false, "mai").len(), 3);
}

#[test]
fn equal_times_go_by_name_and_unknown_times_last() {
    let out = render(
        vec![
            ws("c", Some("/"), None),
            ws("b", Some("/"), Some(999_999)),
            ws("a", Some("/"), Some(999_999)),
        ],
        None,
        false,
        "",
    );
    let names: Vec<&str> = out.iter().map(|(n, _, _)| n.as_str()).collect();
    assert_eq!(names, ["a", "b", "c"]);
    assert_eq!(out[0].1, "(now)");
    assert_eq!(out[2].1, "(?)");
}

#[test]
fn shell_is_the_lower_case_stem() {
    assert_eq!(capture_shell(Some("/bin/Bash.exe".to_string())).as_deref(), Some("bash"));
    assert!(is_bash(&capture_shell(Some("bash".to_string()))));
    assert!(!is_bash(&capture_shell(Some("/usr/bin/zsh".to_string()))));
    assert_eq!(capture_shell(None), None);
}

#[test]
fn deepest_enclosing_workspace_is_current() {
    let wss = vec![
        ws("outer", Some("/w"), None),
        ws("alpha", Some("/w/alpha"), None),
        ws("beside", Some("/w/alp"), None),
    ];
    let name = drive(all_there, |tape| current_workspace_name(tape, &wss)).unwrap();
    assert_eq!(name.as_deref(), Some("alpha"));
}

#[test]
fn candidates_come_from_jj() {
    let answer = |q: &Request| match q.act {
        Act::JjTimed if q.args.contains(&"bookmark".to_string()) || q.args.contains(&"log".to_string()) => {
            reply(Kind::Done, "999940\u{1f}feat\u{1}fix\u{1e}")
        }
        Act::JjTimed => reply(
            Kind::Done,
            "alpha\u{1f}999940\u{1f}/w/alpha\u{1e}gone\u{1f}999000\u{1f}/w/gone\u{1e}",
        ),
        _ => all_there(q),
    };
    let out = drive(answer, |tape| workspace_candidates(tape, "", 1_000_000, false)).unwrap();
    let names: Vec<&str> = out.iter().map(|c| c.value.as_str()).collect();
    assert_eq!(names, ["alpha", "gone"]);
    assert_eq!(out[0].help.as_deref(), Some("(1m)[*]"));
    let marks = drive(answer, |tape| new_bookmark_candidates(tape, "fi", 1_000_000, true)).unwrap();
    assert_eq!(marks.len(), 1);
    assert_eq!(marks[0].value, "fix");
    assert_eq!(marks[0].help.as_deref(), Some("(1m)"));
}

#[test]
fn a_failing_query_offers_nothing() {
    for kind in [Kind::Nonzero, Kind::Refused, Kind::NotFound, Kind::Unstarted, Kind::Garbled] {
        let out = drive(
            |q| if q.act == Act::JjTimed { reply(kind, "x\u{1f}1\u{1f}/r\u{1e}") } else { all_there(q) },
            |tape| workspace_candidates(tape, "", 1_000_000, false),
        );
        assert!(out.map_or(true, |v| v.is_empty()), "{kind:?}");
    }
}
