use std::collections::HashMap;

use ji::shell::detect::{
    classify, decide, detect_shell, live_parent, resolve_in_tree, shell_basename, status_action,
    ActiveReport, Class, Detection, StatusAction, MAX_WALK_DEPTH, SUPPORTED, SUPPORTED_SHELLS,
    UNSUPPORTED_SHELLS,
};

#[test]
fn classify_supported_unsupported_and_non_shells() {
    for s in ["zsh", "bash", "fish"] {
        assert_eq!(classify(s), Class::Supported(s.to_string()));
    }
    for s in ["sh", "dash", "nu", "nushell", "tcsh", "pwsh", "xonsh"] {
        assert_eq!(classify(s), Class::Unsupported(s.to_string()));
    }
    for s in ["make", "python", "login", "ji", "code"] {
        assert_eq!(classify(s), Class::NotAShell);
    }
}

#[test]
fn every_unsupported_registry_entry_classifies_unsupported() {
    for s in UNSUPPORTED_SHELLS {
        assert_eq!(classify(s), Class::Unsupported(s.to_string()), "registry entry {s}");
    }
}

#[test]
fn supported_display_string_stays_in_sync() {
    assert_eq!(SUPPORTED.join(", "), SUPPORTED_SHELLS);
}

#[test]
fn basename_strips_path_dash_and_lowercases() {
    assert_eq!(shell_basename("/bin/zsh").as_deref(), Some("zsh"));
    assert_eq!(shell_basename("-zsh").as_deref(), Some("zsh"));
    assert_eq!(shell_basename("/opt/homebrew/bin/fish").as_deref(), Some("fish"));
    assert_eq!(shell_basename("/usr/bin/ZSH").as_deref(), Some("zsh"));
    assert_eq!(shell_basename(""), None);
    assert_eq!(shell_basename("-"), None);
}

/// Walks a process tree of `(pid, ppid, exe_path)` rows; an empty path is a lookup that fails.
fn walk(start: i32, rows: &[(i32, i32, &str)]) -> (Detection, Option<String>) {
    let parents: HashMap<i32, i32> = rows.iter().map(|&(p, pp, _)| (p, pp)).collect();
    let names: HashMap<i32, String> = rows
        .iter()
        .filter(|&&(_, _, n)| !n.is_empty())
        .map(|&(p, _, n)| (p, n.to_string()))
        .collect();
    resolve_in_tree(
        start,
        |p| live_parent(parents.get(&p).copied()),
        |p| names.get(&p).cloned(),
        MAX_WALK_DEPTH,
    )
}

#[test]
fn direct_parent_supported_shell() {
    let (d, exe) = walk(100, &[(100, 50, "ji"), (50, 40, "/bin/zsh")]);
    assert_eq!(d, Detection::Supported("zsh".into()));
    assert_eq!(exe.as_deref(), Some("/bin/zsh"));
}

#[test]
fn walks_through_non_shell_intermediaries() {
    let (d, _) = walk(100, &[(100, 50, "ji"), (50, 40, "make"), (40, 30, "/bin/bash")]);
    assert_eq!(d, Detection::Supported("bash".into()));
    let (d, _) =
        walk(10, &[(10, 9, "ji"), (9, 8, "sudo"), (8, 7, "env"), (7, 6, "fish")]);
    assert_eq!(d, Detection::Supported("fish".into()));
}

#[test]
fn nearest_shell_wins_sh_below_fish() {
    let (d, _) = walk(100, &[(100, 50, "ji"), (50, 40, "sh"), (40, 30, "fish")]);
    assert_eq!(d, Detection::Unsupported("sh".into()));
}

#[test]
fn direct_parent_unsupported_shell() {
    let (d, _) = walk(100, &[(100, 50, "ji"), (50, 40, "nu")]);
    assert_eq!(d, Detection::Unsupported("nu".into()));
}

#[test]
fn no_shell_chain_terminating_at_init_is_unknown() {
    let (d, exe) = walk(100, &[(100, 50, "ji"), (50, 40, "make"), (40, 1, "login")]);
    assert_eq!(d, Detection::Unknown);
    assert_eq!(exe, None);
}

#[test]
fn name_lookup_failure_is_skipped() {
    let (d, _) = walk(
        100,
        &[(100, 50, "ji"), (50, 40, "make"), (40, 30, ""), (30, 20, "/bin/zsh")],
    );
    assert_eq!(d, Detection::Supported("zsh".into()));
}

#[test]
fn depth_cap_bounds_the_walk() {
    let deep = 101 + MAX_WALK_DEPTH as i32 + 5;
    let mut rows: Vec<(i32, i32, &str)> = vec![(100, 101, "ji")];
    for pid in 101..deep {
        rows.push((pid, pid + 1, "make"));
    }
    rows.push((deep, deep + 1, "zsh"));
    let (d, _) = walk(100, &rows);
    assert_eq!(d, Detection::Unknown);
}

#[test]
fn depth_cap_still_reaches_the_last_process() {
    let last = 100 + MAX_WALK_DEPTH as i32;
    let mut rows: Vec<(i32, i32, &str)> = vec![(100, 101, "ji")];
    for pid in 101..last {
        rows.push((pid, pid + 1, "make"));
    }
    rows.push((last, last + 1, "zsh"));
    let (d, _) = walk(100, &rows);
    assert_eq!(d, Detection::Supported("zsh".into()));
}

#[test]
fn cycle_is_bounded() {
    let (d, _) = walk(100, &[(100, 50, "ji"), (50, 60, "make"), (60, 50, "make")]);
    assert_eq!(d, Detection::Unknown);
}

#[test]
fn decide_active_supported_wins() {
    assert_eq!(decide(Detection::Supported("zsh".into()), Some("/bin/bash")).unwrap(), "zsh");
}

#[test]
fn decide_active_unsupported_errors_and_ignores_shell_env() {
    let err = decide(Detection::Unsupported("nu".into()), Some("/bin/zsh")).unwrap_err();
    let m = err.outermost();
    assert!(m.contains("detected active shell 'nu'"), "{m}");
}

#[test]
fn decide_unknown_uses_supported_shell_env() {
    assert_eq!(decide(Detection::Unknown, Some("/usr/bin/zsh")).unwrap(), "zsh");
    assert_eq!(decide(Detection::Unknown, Some("-bash")).unwrap(), "bash");
}

#[test]
fn decide_unknown_unsupported_shell_env_has_distinct_message() {
    let err = decide(Detection::Unknown, Some("/bin/tcsh")).unwrap_err();
    let m = err.outermost();
    assert!(m.contains("tcsh"), "{m}");
    assert!(m.contains("login shell"), "should name $SHELL as the source: {m}");
}

#[test]
fn decide_unknown_nonshell_shell_env() {
    let err = decide(Detection::Unknown, Some("/usr/bin/whatever")).unwrap_err();
    assert!(err.outermost().contains("could not determine"));
}

#[test]
fn decide_unknown_unset_shell_env() {
    assert!(decide(Detection::Unknown, None).unwrap_err().outermost().contains("SHELL not set"));
    assert!(
        decide(Detection::Unknown, Some("")).unwrap_err().outermost().contains("SHELL not set")
    );
}

fn report(detected: Detection, shell_env: Option<&str>) -> ActiveReport {
    ActiveReport { detected, active_exe: None, shell_env_raw: shell_env.map(String::from) }
}

#[test]
fn status_inspects_supported_active() {
    assert_eq!(
        status_action(&report(Detection::Supported("zsh".into()), Some("/bin/bash"))),
        StatusAction::Inspect("zsh".into())
    );
}

#[test]
fn status_unsupported_active_reports_only_never_shell_env() {
    assert_eq!(
        status_action(&report(Detection::Unsupported("nu".into()), Some("/bin/zsh"))),
        StatusAction::ReportOnly
    );
}

#[test]
fn status_unknown_active_may_use_supported_shell_env() {
    assert_eq!(
        status_action(&report(Detection::Unknown, Some("/usr/bin/fish"))),
        StatusAction::Inspect("fish".into())
    );
    assert_eq!(
        status_action(&report(Detection::Unknown, Some("/bin/tcsh"))),
        StatusAction::ReportOnly
    );
    assert_eq!(status_action(&report(Detection::Unknown, None)), StatusAction::ReportOnly);
}

#[test]
fn detect_shell_live_is_ok_or_clear_error() {
    let tree = [(100, 50), (50, 40)];
    for exe in ["/bin/zsh", "/bin/sh", "/sbin/init"] {
        let parent_of = |p: i32| tree.iter().find(|r| r.0 == p).map(|r| r.1);
        let name_of = |_p: i32| Some(exe.to_string());
        match detect_shell(100, parent_of, name_of, Some("/usr/bin/fish")) {
            Ok(s) => assert!(SUPPORTED.contains(&s.as_str()), "returned unsupported shell {s}"),
            Err(e) => {
                let m = e.outermost();
                assert!(m.contains("shell") || m.contains("SHELL"), "unexpected error: {m}");
            }
        }
    }
}
