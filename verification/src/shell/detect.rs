//! The shell that ji was started from.
//!
//! `$SHELL` names the login shell, which need not be the one in use. The nearest ancestor process
//! that is a shell decides, and `$SHELL` counts only where no ancestor is one.

use vstd::prelude::*;

use crate::paths::{file_name, file_name_spec};
use crate::search::{lower, lower_spec, strip_prefix, strip_prefix_spec};
use crate::tape::{failure, failure_spec, Failure, FailureV};
use crate::text::{cat5, copy_opt, empty, listed, strs};

verus! {

/// Shells with an integration.
pub const SUPPORTED: [&'static str; 3] = ["zsh", "bash", "fish"];

/// The same for a reader.
pub const SUPPORTED_SHELLS: &'static str = "zsh, bash, fish";

/// Shells without an integration. One that is missing here would be walked past, so that a shell
/// further out could win.
pub const UNSUPPORTED_SHELLS: [&'static str; 27] = [
    "sh",
    "dash",
    "ash",
    "busybox",
    "ksh",
    "mksh",
    "pdksh",
    "loksh",
    "oksh",
    "rksh",
    "csh",
    "tcsh",
    "nu",
    "nushell",
    "pwsh",
    "powershell",
    "xonsh",
    "elvish",
    "ion",
    "oil",
    "osh",
    "rc",
    "es",
    "yash",
    "scsh",
    "tclsh",
    "murex",
];

/// How many ancestors are looked at.
pub const MAX_WALK_DEPTH: usize = 24;

/// What a program name stands for.
#[derive(Debug, Clone, PartialEq, Eq)]
pub enum Class {
    Supported(String),
    Unsupported(String),
    NotAShell,
}

pub enum ClassV {
    Supported(Seq<char>),
    Unsupported(Seq<char>),
    NotAShell,
}

impl DeepView for Class {
    type V = ClassV;

    open spec fn deep_view(&self) -> ClassV {
        match self {
            Class::Supported(s) => ClassV::Supported(s@),
            Class::Unsupported(s) => ClassV::Unsupported(s@),
            Class::NotAShell => ClassV::NotAShell,
        }
    }
}

/// What the walk up the process tree found.
#[derive(Debug, Clone, PartialEq, Eq)]
pub enum Detection {
    Supported(String),
    Unsupported(String),
    /// No ancestor is a shell.
    Unknown,
}

pub enum DetectionV {
    Supported(Seq<char>),
    Unsupported(Seq<char>),
    Unknown,
}

impl DeepView for Detection {
    type V = DetectionV;

    open spec fn deep_view(&self) -> DetectionV {
        match self {
            Detection::Supported(s) => DetectionV::Supported(s@),
            Detection::Unsupported(s) => DetectionV::Unsupported(s@),
            Detection::Unknown => DetectionV::Unknown,
        }
    }
}

// ---------------------------------------------------------------------------
// Names
// ---------------------------------------------------------------------------

/// The file name of `path` without the dash of a login shell, in lower case.
pub open spec fn shell_basename_spec(path: Seq<char>) -> Option<Seq<char>> {
    match file_name_spec(path) {
        None => None,
        Some(name) => {
            let bare = match strip_prefix_spec(name, "-"@) {
                Some(rest) => rest,
                None => name,
            };
            if bare.len() == 0 {
                None
            } else {
                Some(lower_spec(bare))
            }
        },
    }
}

pub fn shell_basename(path: &str) -> (r: Option<String>)
    ensures
        r.deep_view() == shell_basename_spec(path@),
{
    match file_name(path) {
        None => None,
        Some(name) => {
            let bare = match strip_prefix(&name, "-") {
                Some(rest) => rest,
                None => name,
            };
            if empty(&bare) {
                None
            } else {
                Some(lower(&bare))
            }
        },
    }
}

pub open spec fn classify_spec(name: Seq<char>) -> ClassV {
    if strs(SUPPORTED@).contains(name) {
        ClassV::Supported(name)
    } else if strs(UNSUPPORTED_SHELLS@).contains(name) {
        ClassV::Unsupported(name)
    } else {
        ClassV::NotAShell
    }
}

pub fn classify(name: &str) -> (r: Class)
    ensures
        r.deep_view() == classify_spec(name@),
{
    let with = SUPPORTED;
    let without = UNSUPPORTED_SHELLS;
    let yes = with.as_slice();
    let no = without.as_slice();
    assert(yes.deep_view() =~= strs(SUPPORTED@));
    assert(no.deep_view() =~= strs(UNSUPPORTED_SHELLS@));
    if listed(yes, name) {
        Class::Supported(name.to_string())
    } else if listed(no, name) {
        Class::Unsupported(name.to_string())
    } else {
        Class::NotAShell
    }
}

/// What an executable path says, if it is that of a shell.
pub open spec fn verdict(path: Option<Seq<char>>) -> Option<DetectionV> {
    match path {
        None => None,
        Some(p) => match shell_basename_spec(p) {
            None => None,
            Some(base) => match classify_spec(base) {
                ClassV::Supported(s) => Some(DetectionV::Supported(s)),
                ClassV::Unsupported(s) => Some(DetectionV::Unsupported(s)),
                ClassV::NotAShell => None,
            },
        },
    }
}

fn judge(path: &Option<String>) -> (r: Option<Detection>)
    ensures
        r.deep_view() == verdict(path.deep_view()),
{
    match path {
        None => None,
        Some(p) => match shell_basename(p) {
            None => None,
            Some(base) => match classify(&base) {
                Class::Supported(s) => Some(Detection::Supported(s)),
                Class::Unsupported(s) => Some(Detection::Unsupported(s)),
                Class::NotAShell => None,
            },
        },
    }
}

// ---------------------------------------------------------------------------
// The process tree
// ---------------------------------------------------------------------------

/// From the parent `q` on, with `depth` processes left to look at, the answers of the two lookups
/// lead to the shell `d` at the path `exe`.
pub open spec fn leads<P: Fn(i32) -> Option<i32>, N: Fn(i32) -> Option<String>>(
    parent_of: P,
    name_of: N,
    q: Option<i32>,
    depth: nat,
    d: DetectionV,
    exe: Option<Seq<char>>,
) -> bool
    decreases depth,
{
    match q {
        None => d == DetectionV::Unknown && exe is None,
        Some(pid) => if depth == 0 {
            d == DetectionV::Unknown && exe is None
        } else {
            exists|name: Option<String>| #[trigger]
                name_of.ensures((pid,), name) && match verdict(name.deep_view()) {
                    Some(x) => d == x && exe == name.deep_view(),
                    None => exists|up: Option<i32>| #[trigger]
                        parent_of.ensures((pid,), up) && leads(
                            parent_of,
                            name_of,
                            up,
                            (depth - 1) as nat,
                            d,
                            exe,
                        ),
                }
        },
    }
}

/// As [`leads`], from the process `pid` itself, which is not looked at.
pub open spec fn climbs<P: Fn(i32) -> Option<i32>, N: Fn(i32) -> Option<String>>(
    parent_of: P,
    name_of: N,
    pid: i32,
    depth: nat,
    d: DetectionV,
    exe: Option<Seq<char>>,
) -> bool {
    exists|up: Option<i32>| #[trigger]
        parent_of.ensures((pid,), up) && leads(parent_of, name_of, up, depth, d, exe)
}

/// The nearest ancestor of `start_pid` that is a shell, and its executable. `parent_of` and
/// `name_of` say what the process tree looks like; a process without a name is passed over.
pub fn resolve_in_tree<P: Fn(i32) -> Option<i32>, N: Fn(i32) -> Option<String>>(
    start_pid: i32,
    parent_of: P,
    name_of: N,
    max_depth: usize,
) -> (r: (Detection, Option<String>))
    requires
        forall|pid: i32| #[trigger] parent_of.requires((pid,)),
        forall|pid: i32| #[trigger] name_of.requires((pid,)),
    ensures
        climbs(
            parent_of,
            name_of,
            start_pid,
            max_depth as nat,
            r.0.deep_view(),
            r.1.deep_view(),
        ),
{
    let mut cur = parent_of(start_pid);
    let mut left: usize = max_depth;
    while left > 0
        invariant
            forall|pid: i32| #[trigger] parent_of.requires((pid,)),
            forall|pid: i32| #[trigger] name_of.requires((pid,)),
            forall|d: DetectionV, exe: Option<Seq<char>>| #[trigger]
                leads(parent_of, name_of, cur, left as nat, d, exe) ==> climbs(
                    parent_of,
                    name_of,
                    start_pid,
                    max_depth as nat,
                    d,
                    exe,
                ),
        ensures
            leads(parent_of, name_of, cur, left as nat, DetectionV::Unknown, None),
        decreases left,
    {
        let pid = match cur {
            Some(pid) => pid,
            None => break,
        };
        let name = name_of(pid);
        if let Some(found) = judge(&name) {
            assert(leads(
                parent_of,
                name_of,
                cur,
                left as nat,
                found.deep_view(),
                name.deep_view(),
            ));
            return (found, name);
        }
        let ghost below = cur;
        let ghost before = left as nat;
        cur = parent_of(pid);
        left = left - 1;
        assert forall|d: DetectionV, exe: Option<Seq<char>>| #[trigger]
            leads(parent_of, name_of, cur, left as nat, d, exe) implies climbs(
            parent_of,
            name_of,
            start_pid,
            max_depth as nat,
            d,
            exe,
        ) by {
            assert(parent_of.ensures((pid,), cur));
            assert(name_of.ensures((pid,), name));
            assert(leads(parent_of, name_of, below, before, d, exe));
        }
    }
    (Detection::Unknown, None)
}

/// A parent to climb to: process 1 and below end the walk.
pub fn live_parent(ppid: Option<i32>) -> (r: Option<i32>)
    ensures
        r == (match ppid {
            Some(p) => if p > 1 {
                Some(p)
            } else {
                None
            },
            None => None,
        }),
{
    match ppid {
        Some(p) => if p > 1 {
            Some(p)
        } else {
            None
        },
        None => None,
    }
}

// ---------------------------------------------------------------------------
// Deciding
// ---------------------------------------------------------------------------

/// The shell to work for: the one found, else what `$SHELL` names.
pub open spec fn decide_spec(active: DetectionV, env_shell_raw: Option<Seq<char>>) -> Result<
    Seq<char>,
    FailureV,
> {
    match active {
        DetectionV::Supported(s) => Ok(s),
        DetectionV::Unsupported(name) => Err(
            failure_spec(
                "detected active shell '"@ + name + "', which ji doesn't support (supported: "@
                    + SUPPORTED_SHELLS@
                    + "); pass the shell explicitly, e.g. `ji config shell install zsh`"@,
            ),
        ),
        DetectionV::Unknown => match env_shell_raw {
            Some(raw) => if raw.len() == 0 {
                Err(failure_spec(SHELL_UNSET@))
            } else {
                match verdict(Some(raw)) {
                    Some(DetectionV::Supported(s)) => Ok(s),
                    Some(DetectionV::Unsupported(name)) => Err(
                        failure_spec(
                            "could not identify your active shell; $SHELL names an unsupported login shell '"@
                                + name + "' (supported: "@ + SUPPORTED_SHELLS@
                                + "); pass the shell explicitly"@,
                        ),
                    ),
                    _ => Err(
                        failure_spec(
                            "could not determine your shell; pass it explicitly (zsh|bash|fish)"@,
                        ),
                    ),
                }
            },
            None => Err(failure_spec(SHELL_UNSET@)),
        },
    }
}

pub const SHELL_UNSET: &'static str = "SHELL not set \u{2014} pass the shell explicitly";

/// The result `r` is what `o` says.
pub open spec fn comes_to(r: Result<String, Failure>, o: Result<Seq<char>, FailureV>) -> bool {
    match (r, o) {
        (Ok(s), Ok(v)) => s@ == v,
        (Err(e), Err(f)) => e.deep_view() == f,
        _ => false,
    }
}

pub fn decide(active: Detection, env_shell_raw: Option<&str>) -> (r: Result<String, Failure>)
    ensures
        comes_to(r, decide_spec(active.deep_view(), env_shell_raw.deep_view())),
{
    match active {
        Detection::Supported(s) => Ok(s),
        Detection::Unsupported(name) => Err(
            failure(
                cat5(
                    "detected active shell '",
                    &name,
                    "', which ji doesn't support (supported: ",
                    SUPPORTED_SHELLS,
                    "); pass the shell explicitly, e.g. `ji config shell install zsh`",
                ),
            ),
        ),
        Detection::Unknown => match env_shell_raw {
            None => Err(failure(SHELL_UNSET.to_string())),
            Some(raw) => {
                if empty(raw) {
                    return Err(failure(SHELL_UNSET.to_string()));
                }
                match judge(&Some(raw.to_string())) {
                    Some(Detection::Supported(s)) => Ok(s),
                    Some(Detection::Unsupported(name)) => Err(
                        failure(
                            cat5(
                                "could not identify your active shell; $SHELL names an unsupported login shell '",
                                &name,
                                "' (supported: ",
                                SUPPORTED_SHELLS,
                                "); pass the shell explicitly",
                            ),
                        ),
                    ),
                    _ => Err(
                        failure(
                            "could not determine your shell; pass it explicitly (zsh|bash|fish)".to_string(),
                        ),
                    ),
                }
            },
        },
    }
}

/// The shell that the process `pid` was started from.
pub fn detect_shell<P: Fn(i32) -> Option<i32>, N: Fn(i32) -> Option<String>>(
    pid: i32,
    parent_of: P,
    name_of: N,
    env_shell_raw: Option<&str>,
) -> (r: Result<String, Failure>)
    requires
        forall|pid: i32| #[trigger] parent_of.requires((pid,)),
        forall|pid: i32| #[trigger] name_of.requires((pid,)),
    ensures
        exists|d: DetectionV, exe: Option<Seq<char>>| #[trigger]
            climbs(parent_of, name_of, pid, MAX_WALK_DEPTH as nat, d, exe) && comes_to(
                r,
                decide_spec(d, env_shell_raw.deep_view()),
            ),
{
    let (active, _exe) = resolve_in_tree(pid, parent_of, name_of, MAX_WALK_DEPTH);
    decide(active, env_shell_raw)
}

// ---------------------------------------------------------------------------
// Reporting
// ---------------------------------------------------------------------------

/// The active shell for a report; nothing here fails.
#[derive(Debug, Clone)]
pub struct ActiveReport {
    pub detected: Detection,
    /// The executable of the nearest shell.
    pub active_exe: Option<String>,
    /// `$SHELL`, if it is set and not empty.
    pub shell_env_raw: Option<String>,
}

pub struct ActiveReportV {
    pub detected: DetectionV,
    pub active_exe: Option<Seq<char>>,
    pub shell_env_raw: Option<Seq<char>>,
}

impl DeepView for ActiveReport {
    type V = ActiveReportV;

    open spec fn deep_view(&self) -> ActiveReportV {
        ActiveReportV {
            detected: self.detected.deep_view(),
            active_exe: self.active_exe.deep_view(),
            shell_env_raw: self.shell_env_raw.deep_view(),
        }
    }
}

/// A value that is set and not empty.
pub open spec fn nonempty(v: Option<Seq<char>>) -> Option<Seq<char>> {
    match v {
        Some(s) => if s.len() == 0 {
            None
        } else {
            v
        },
        None => None,
    }
}

/// What the process tree and `$SHELL` say.
pub fn detect_active_report<P: Fn(i32) -> Option<i32>, N: Fn(i32) -> Option<String>>(
    pid: i32,
    parent_of: P,
    name_of: N,
    env_shell_raw: &Option<String>,
) -> (r: ActiveReport)
    requires
        forall|pid: i32| #[trigger] parent_of.requires((pid,)),
        forall|pid: i32| #[trigger] name_of.requires((pid,)),
    ensures
        climbs(
            parent_of,
            name_of,
            pid,
            MAX_WALK_DEPTH as nat,
            r.deep_view().detected,
            r.deep_view().active_exe,
        ),
        r.deep_view().shell_env_raw == nonempty(env_shell_raw.deep_view()),
{
    let (detected, active_exe) = resolve_in_tree(pid, parent_of, name_of, MAX_WALK_DEPTH);
    let shell_env_raw = match env_shell_raw {
        Some(s) => if empty(s) {
            None
        } else {
            Some(s.clone())
        },
        None => None,
    };
    ActiveReport { detected, active_exe, shell_env_raw }
}

/// What a status report does.
#[derive(Debug, PartialEq, Eq)]
pub enum StatusAction {
    /// Inspect the integration of a shell.
    Inspect(String),
    ReportOnly,
}

pub enum StatusActionV {
    Inspect(Seq<char>),
    ReportOnly,
}

impl DeepView for StatusAction {
    type V = StatusActionV;

    open spec fn deep_view(&self) -> StatusActionV {
        match self {
            StatusAction::Inspect(s) => StatusActionV::Inspect(s@),
            StatusAction::ReportOnly => StatusActionV::ReportOnly,
        }
    }
}

pub open spec fn status_action_spec(r: ActiveReportV) -> StatusActionV {
    match r.detected {
        DetectionV::Supported(s) => StatusActionV::Inspect(s),
        DetectionV::Unsupported(_) => StatusActionV::ReportOnly,
        DetectionV::Unknown => match verdict(r.shell_env_raw) {
            Some(DetectionV::Supported(s)) => StatusActionV::Inspect(s),
            _ => StatusActionV::ReportOnly,
        },
    }
}

/// Which integration a status report inspects. `$SHELL` counts only where no shell was found.
pub fn status_action(r: &ActiveReport) -> (a: StatusAction)
    ensures
        a.deep_view() == status_action_spec(r.deep_view()),
{
    match &r.detected {
        Detection::Supported(s) => StatusAction::Inspect(s.clone()),
        Detection::Unsupported(_) => StatusAction::ReportOnly,
        Detection::Unknown => match judge(&copy_opt(&r.shell_env_raw)) {
            Some(Detection::Supported(s)) => StatusAction::Inspect(s),
            _ => StatusAction::ReportOnly,
        },
    }
}

// ---------------------------------------------------------------------------
// Laws
// ---------------------------------------------------------------------------

/// The closure `f` answers as `g` does.
pub open spec fn parents_are<P: Fn(i32) -> Option<i32>>(
    f: P,
    g: spec_fn(i32) -> Option<i32>,
) -> bool {
    forall|pid: i32, r: Option<i32>| #[trigger] f.ensures((pid,), r) ==> r == g(pid)
}

/// The closure `f` answers as `g` does.
pub open spec fn names_are<N: Fn(i32) -> Option<String>>(
    f: N,
    g: spec_fn(i32) -> Option<Seq<char>>,
) -> bool {
    forall|pid: i32, r: Option<String>| #[trigger]
        f.ensures((pid,), r) ==> r.deep_view() == g(pid)
}

/// The ancestor of `pid` that is `n` generations up.
pub open spec fn ancestor(
    parent: spec_fn(i32) -> Option<i32>,
    pid: i32,
    n: nat,
) -> Option<i32>
    decreases n,
{
    if n == 0 {
        Some(pid)
    } else {
        match ancestor(parent, pid, (n - 1) as nat) {
            Some(p) => parent(p),
            None => None,
        }
    }
}

/// The ancestor `n` generations up is no shell.
pub open spec fn passed_over(
    parent: spec_fn(i32) -> Option<i32>,
    name: spec_fn(i32) -> Option<Seq<char>>,
    pid: i32,
    n: nat,
) -> bool {
    ancestor(parent, pid, n) matches Some(p) && verdict(name(p)) is None
}

proof fn lemma_leads<P: Fn(i32) -> Option<i32>, N: Fn(i32) -> Option<String>>(
    parent_of: P,
    name_of: N,
    parent: spec_fn(i32) -> Option<i32>,
    name: spec_fn(i32) -> Option<Seq<char>>,
    pid: i32,
    from: nat,
    to: nat,
    depth: nat,
    d: DetectionV,
    exe: Option<Seq<char>>,
)
    requires
        parents_are(parent_of, parent),
        names_are(name_of, name),
        from <= to <= from + depth,
        forall|n: nat| from <= n < to ==> #[trigger] passed_over(parent, name, pid, n),
        leads(parent_of, name_of, ancestor(parent, pid, from), depth, d, exe),
    ensures
        leads(parent_of, name_of, ancestor(parent, pid, to), (depth - (to - from)) as nat, d, exe),
    decreases to - from,
{
    if from < to {
        assert(passed_over(parent, name, pid, from));
        let p = ancestor(parent, pid, from)->0;
        let n = choose|n: Option<String>| #[trigger]
            name_of.ensures((p,), n) && match verdict(n.deep_view()) {
                Some(x) => d == x && exe == n.deep_view(),
                None => exists|up: Option<i32>| #[trigger]
                    parent_of.ensures((p,), up) && leads(
                        parent_of,
                        name_of,
                        up,
                        (depth - 1) as nat,
                        d,
                        exe,
                    ),
            };
        assert(n.deep_view() == name(p));
        let up = choose|up: Option<i32>| #[trigger]
            parent_of.ensures((p,), up) && leads(
                parent_of,
                name_of,
                up,
                (depth - 1) as nat,
                d,
                exe,
            );
        assert(up == parent(p));
        assert(ancestor(parent, pid, from + 1) == up);
        lemma_leads(
            parent_of,
            name_of,
            parent,
            name,
            pid,
            from + 1,
            to,
            (depth - 1) as nat,
            d,
            exe,
        );
    }
}

/// The nearest ancestor that is a shell wins, whatever stands above it.
pub proof fn law_nearest_shell_wins<P: Fn(i32) -> Option<i32>, N: Fn(i32) -> Option<String>>(
    parent_of: P,
    name_of: N,
    parent: spec_fn(i32) -> Option<i32>,
    name: spec_fn(i32) -> Option<Seq<char>>,
    pid: i32,
    at: nat,
    depth: nat,
    d: DetectionV,
    exe: Option<Seq<char>>,
)
    requires
        parents_are(parent_of, parent),
        names_are(name_of, name),
        1 <= at <= depth,
        forall|n: nat| 1 <= n < at ==> #[trigger] passed_over(parent, name, pid, n),
        ancestor(parent, pid, at) is Some,
        verdict(name(ancestor(parent, pid, at)->0)) is Some,
        climbs(parent_of, name_of, pid, depth, d, exe),
    ensures
        Some(d) == verdict(name(ancestor(parent, pid, at)->0)),
        exe == name(ancestor(parent, pid, at)->0),
{
    let up = choose|up: Option<i32>| #[trigger]
        parent_of.ensures((pid,), up) && leads(parent_of, name_of, up, depth, d, exe);
    assert(ancestor(parent, pid, 0) == Some(pid));
    assert(ancestor(parent, pid, 1) == up);
    lemma_leads(parent_of, name_of, parent, name, pid, 1, at, depth, d, exe);
}

/// Where no ancestor within reach is a shell, none is found.
pub proof fn law_no_shell_is_unknown<P: Fn(i32) -> Option<i32>, N: Fn(i32) -> Option<String>>(
    parent_of: P,
    name_of: N,
    parent: spec_fn(i32) -> Option<i32>,
    name: spec_fn(i32) -> Option<Seq<char>>,
    pid: i32,
    last: nat,
    depth: nat,
    d: DetectionV,
    exe: Option<Seq<char>>,
)
    requires
        parents_are(parent_of, parent),
        names_are(name_of, name),
        last <= depth,
        forall|n: nat| 1 <= n <= last ==> #[trigger] passed_over(parent, name, pid, n),
        last == depth || ancestor(parent, pid, last + 1) is None,
        climbs(parent_of, name_of, pid, depth, d, exe),
    ensures
        d == DetectionV::Unknown,
        exe is None,
{
    let up = choose|up: Option<i32>| #[trigger]
        parent_of.ensures((pid,), up) && leads(parent_of, name_of, up, depth, d, exe);
    assert(ancestor(parent, pid, 0) == Some(pid));
    assert(ancestor(parent, pid, 1) == up);
    lemma_leads(parent_of, name_of, parent, name, pid, 1, last + 1, depth, d, exe);
}

/// `$SHELL` counts only where no ancestor is a shell.
pub proof fn law_found_shell_beats_login_shell(
    active: DetectionV,
    one: Option<Seq<char>>,
    other: Option<Seq<char>>,
)
    requires
        active != DetectionV::Unknown,
    ensures
        decide_spec(active, one) == decide_spec(active, other),
        status_action_spec(
            ActiveReportV { detected: active, active_exe: None, shell_env_raw: one },
        ) == status_action_spec(
            ActiveReportV { detected: active, active_exe: None, shell_env_raw: other },
        ),
{
}

/// What is found and what is decided is a supported shell, or there is an error.
pub proof fn law_decided_shell_is_supported(path: Option<Seq<char>>, raw: Option<Seq<char>>)
    ensures
        match verdict(path) {
            Some(d) => decide_spec(d, raw) matches Ok(s) ==> strs(SUPPORTED@).contains(s),
            None => decide_spec(DetectionV::Unknown, raw) matches Ok(s) ==> strs(
                SUPPORTED@,
            ).contains(s),
        },
{
}

} // verus!
