//! Running jj: what a finished command means, and which jj is new enough.

use vstd::prelude::*;

use crate::search::{contains, contains_spec, strip_prefix, strip_prefix_spec};
use crate::tape::{
    agrees, ask, ask_spec, bind, failure, failure_spec, labelled, labelled_spec, request,
    request_spec, Act, Failure, FailureV, JjCommandError, JjCommandErrorV, Kind, Out, Reply, ReplyV,
    Request, RequestV, Stop, Tape, Trace,
};
use crate::text::{
    args1, args2, args3, args6, cat2, cat3, cat4, cat6, chain, copy_all, join, join_spec, trim,
    trim_spec, Cut,
};

verus! {

pub const JJ_INSTALL_URL: &'static str = "https://jj-vcs.github.io/jj/latest/install-and-setup/";

pub const MIN_JJ_VERSION: &'static str = "0.42.0";

pub open spec fn command_line(args: Seq<Seq<char>>) -> Seq<char> {
    "jj "@ + join_spec(args, " "@)
}

/// A jj that could not be started.
pub open spec fn spawn_failure_spec(
    not_found: bool,
    reason: Seq<char>,
    args: Seq<Seq<char>>,
) -> FailureV {
    if not_found {
        failure_spec(
            "jj binary not found on PATH. Install jj from "@ + JJ_INSTALL_URL@ + ", then retry."@,
        )
    } else {
        FailureV { chain: seq!["failed to run jj "@ + join_spec(args, " "@), reason], command: None }
    }
}

pub fn classify_jj_spawn_failure(not_found: bool, reason: String, args: &Vec<String>) -> (r: Failure)
    ensures
        r.deep_view() == spawn_failure_spec(not_found, reason@, args.deep_view()),
{
    if not_found {
        failure(cat3("jj binary not found on PATH. Install jj from ", JJ_INSTALL_URL, ", then retry."))
    } else {
        let mut chain: Vec<String> = Vec::new();
        let joined = join(args, " ");
        let ghost outer = "failed to run jj "@ + join_spec(args.deep_view(), " "@);
        chain.push(cat2("failed to run jj ", &joined));
        chain.push(reason);
        assert(chain.deep_view() =~= seq![outer, reason@]);
        Failure { chain, command: None }
    }
}

/// A jj that exited unsuccessfully; a missing repository gets a hint.
pub open spec fn nonzero_spec(
    args: Seq<Seq<char>>,
    stdout: Seq<char>,
    stderr: Seq<char>,
) -> FailureV {
    let msg = if contains_spec(stderr, "There is no jj repo in"@) || contains_spec(
        stderr,
        "no jj repo"@,
    ) {
        "not inside a jj repository. Run `ji init` to create one, or cd into an existing jj repo.\n(jj stderr: "@
            + trim_spec(stderr, Cut::White) + ")"@
    } else {
        "jj "@ + join_spec(args, " "@) + " failed: "@ + stderr
    };
    FailureV {
        chain: seq![msg],
        command: Some(JjCommandErrorV { command: command_line(args), stdout, stderr }),
    }
}

pub fn classify_jj_nonzero(args: &Vec<String>, stdout: String, stderr: String) -> (r: Failure)
    ensures
        r.deep_view() == nonzero_spec(args.deep_view(), stdout@, stderr@),
{
    let joined = join(args, " ");
    let msg = if contains(&stderr, "There is no jj repo in") || contains(&stderr, "no jj repo") {
        cat3(
            "not inside a jj repository. Run `ji init` to create one, or cd into an existing jj repo.\n(jj stderr: ",
            &trim(&stderr, Cut::White),
            ")",
        )
    } else {
        cat4("jj ", &joined, " failed: ", &stderr)
    };
    let mut chain: Vec<String> = Vec::new();
    let ghost m = msg@;
    chain.push(msg);
    assert(chain.deep_view() =~= seq![m]);
    Failure {
        chain,
        command: Some(JjCommandError { command: cat2("jj ", &joined), stdout, stderr }),
    }
}

// ---------------------------------------------------------------------------
// Which jj is run
// ---------------------------------------------------------------------------

/// Does jj snapshot the working copy before the act? It does exactly where it is not told to
/// leave the working copy alone.
pub open spec fn is_live(act: Act) -> bool {
    act == Act::JjRepoLive || act == Act::JjWsLive || act == Act::JjTerminal
}

/// Is the act carried out by a run of jj?
pub open spec fn runs_jj(act: Act) -> bool {
    is_live(act) || act == Act::JjRepo || act == Act::JjWs || act == Act::JjWsBytes || act
        == Act::JjBootstrap || act == Act::JjTimed
}

/// What goes before the arguments of a jj command: the repository where it is given by a flag, and
/// whether to leave the working copy alone.
pub open spec fn jj_flags(act: Act, at: Seq<char>) -> Seq<Seq<char>> {
    match act {
        Act::JjRepo => seq!["--repository"@, at, "--ignore-working-copy"@],
        Act::JjRepoLive | Act::JjTerminal => seq!["--repository"@, at],
        Act::JjWs | Act::JjWsBytes | Act::JjBootstrap | Act::JjTimed => seq![
            "--ignore-working-copy"@,
        ],
        _ => Seq::empty(),
    }
}

pub open spec fn jj_argv_spec(q: RequestV) -> Seq<Seq<char>> {
    jj_flags(q.act, q.at) + q.args
}

/// The arguments that jj is run with for a request.
pub fn jj_argv(q: &Request) -> (r: Vec<String>)
    ensures
        r.deep_view() == jj_argv_spec(q.deep_view()),
{
    let flags = match q.act {
        Act::JjRepo => args3("--repository", &q.at, "--ignore-working-copy"),
        Act::JjRepoLive | Act::JjTerminal => args2("--repository", &q.at),
        Act::JjWs | Act::JjWsBytes | Act::JjBootstrap | Act::JjTimed => args1(
            "--ignore-working-copy",
        ),
        _ => {
            let v: Vec<String> = Vec::new();
            assert(v.deep_view() =~= Seq::empty());
            v
        },
    };
    chain(flags, copy_all(&q.args))
}

/// Is jj held to the oldest version that will do before the act? Not while the repository is looked
/// for, not under a deadline, and not with the terminal attached.
pub fn needs_version(act: Act) -> (r: bool)
    ensures
        r == (act == Act::JjRepo || act == Act::JjRepoLive || act == Act::JjWs || act
            == Act::JjWsLive || act == Act::JjWsBytes),
{
    match act {
        Act::JjRepo | Act::JjRepoLive | Act::JjWs | Act::JjWsLive | Act::JjWsBytes => true,
        _ => false,
    }
}

/// Does the jj of the act run in the directory of the request? Else it runs in the current one.
pub fn runs_at(act: Act) -> (r: bool)
    ensures
        r == (runs_jj(act) && act != Act::JjBootstrap && act != Act::JjTimed),
{
    match act {
        Act::JjRepo
        | Act::JjRepoLive
        | Act::JjWs
        | Act::JjWsLive
        | Act::JjWsBytes
        | Act::JjTerminal => true,
        _ => false,
    }
}

/// A jj call snapshots the working copy exactly where it is not told to leave it alone. A repository
/// whose path reads like the flag is set aside.
pub proof fn law_only_live_calls_snapshot(act: Act, at: Seq<char>)
    requires
        runs_jj(act),
        at != "--ignore-working-copy"@,
    ensures
        jj_flags(act, at).contains("--ignore-working-copy"@) <==> !is_live(act),
{
    reveal_strlit("--repository");
    reveal_strlit("--ignore-working-copy");
    let flags = jj_flags(act, at);
    assert("--repository"@.len() != "--ignore-working-copy"@.len());
    if !is_live(act) {
        assert(flags.last() == "--ignore-working-copy"@);
    }
}

/// What the reply to a jj command means: its trimmed output, or why it failed.
pub open spec fn jj_result(args: Seq<Seq<char>>, r: ReplyV) -> Result<Seq<char>, FailureV> {
    match r.kind {
        Kind::Done => Ok(trim_spec(r.text, Cut::White)),
        Kind::Nonzero => Err(nonzero_spec(args, r.text, r.err)),
        Kind::NotFound => Err(spawn_failure_spec(true, r.err, args)),
        Kind::Unstarted => Err(spawn_failure_spec(false, r.err, args)),
        Kind::Garbled => Err(FailureV { chain: seq!["invalid utf-8"@, r.err], command: None }),
        Kind::Refused | Kind::Lost => Err(failure_spec(r.err)),
    }
}

pub fn run_jj_raw(args: &Vec<String>, r: Reply) -> (x: Result<String, Failure>)
    ensures
        match x {
            Ok(s) => jj_result(args.deep_view(), r.deep_view()) == Ok::<Seq<char>, FailureV>(s@),
            Err(e) => jj_result(args.deep_view(), r.deep_view()) == Err::<Seq<char>, FailureV>(
                e.deep_view(),
            ),
        },
{
    match r.kind {
        Kind::Done => Ok(trim(&r.text, Cut::White)),
        Kind::Nonzero => Err(classify_jj_nonzero(args, r.text, r.err)),
        Kind::NotFound => Err(classify_jj_spawn_failure(true, r.err, args)),
        Kind::Unstarted => Err(classify_jj_spawn_failure(false, r.err, args)),
        Kind::Garbled => {
            let mut chain: Vec<String> = Vec::new();
            chain.push("invalid utf-8".to_string());
            chain.push(r.err);
            assert(chain.deep_view() =~= seq!["invalid utf-8"@, r.err@]);
            Err(Failure { chain, command: None })
        },
        Kind::Refused | Kind::Lost => Err(failure(r.err)),
    }
}

/// Runs jj and gives its trimmed output.
pub open spec fn jj_spec(t: Trace, act: Act, at: Seq<char>, args: Seq<Seq<char>>) -> Out<
    Seq<char>,
> {
    bind(
        ask_spec(t, request_spec(act, at, args)),
        |r: ReplyV, t: Trace|
            match jj_result(args, r) {
                Ok(s) => Out::Got(s, t),
                Err(e) => Out::Fail(e, t),
            },
    )
}

pub fn jj(tape: &mut Tape, act: Act, at: &str, args: Vec<String>) -> (r: Result<String, Stop>)
    ensures
        agrees(r, final(tape)@, jj_spec(old(tape)@, act, at@, args.deep_view())),
{
    let sent = copy_all(&args);
    let reply = ask(tape, request(act, at, sent))?;
    match run_jj_raw(&args, reply) {
        Ok(s) => Ok(s),
        Err(e) => Err(Stop::Fail(e)),
    }
}

/// Runs jj for its effect alone.
pub open spec fn jj_done_spec(t: Trace, act: Act, at: Seq<char>, args: Seq<Seq<char>>) -> Out<()> {
    bind(jj_spec(t, act, at, args), |s: Seq<char>, t: Trace| Out::Got((), t))
}

pub fn jj_done(tape: &mut Tape, act: Act, at: &str, args: Vec<String>) -> (r: Result<(), Stop>)
    ensures
        agrees(r, final(tape)@, jj_done_spec(old(tape)@, act, at@, args.deep_view())),
{
    let _ = jj(tape, act, at, args)?;
    Ok(())
}

/// Why a jj that was run for its raw output did not run; `label` stands for its arguments.
pub open spec fn unrun_spec(r: ReplyV, label: Seq<char>, doing: Seq<char>) -> FailureV {
    let why = match r.kind {
        Kind::NotFound => "jj binary not found on PATH. Install jj from "@ + JJ_INSTALL_URL@
            + ", then retry."@,
        Kind::Unstarted => "failed to run jj "@ + label,
        _ => r.err,
    };
    FailureV { chain: seq![doing, why], command: None }
}

/// Runs jj for its raw output, whether it exits successfully or not.
pub open spec fn jj_output_spec(
    t: Trace,
    act: Act,
    at: Seq<char>,
    args: Seq<Seq<char>>,
    label: Seq<char>,
    doing: Seq<char>,
) -> Out<ReplyV> {
    bind(
        ask_spec(t, labelled_spec(act, at, args, label)),
        |r: ReplyV, t: Trace|
            if r.kind == Kind::NotFound || r.kind == Kind::Unstarted || r.kind == Kind::Refused
                || r.kind == Kind::Lost {
                Out::Fail(unrun_spec(r, label, doing), t)
            } else {
                Out::Got(r, t)
            },
    )
}

pub fn jj_output(
    tape: &mut Tape,
    act: Act,
    at: &str,
    args: Vec<String>,
    label: &str,
    doing: &str,
) -> (r: Result<Reply, Stop>)
    ensures
        agrees(
            r,
            final(tape)@,
            jj_output_spec(old(tape)@, act, at@, args.deep_view(), label@, doing@),
        ),
{
    let r = ask(tape, labelled(act, at, args, label))?;
    let why = match r.kind {
        Kind::NotFound => cat3(
            "jj binary not found on PATH. Install jj from ",
            JJ_INSTALL_URL,
            ", then retry.",
        ),
        Kind::Unstarted => cat2("failed to run jj ", label),
        Kind::Refused | Kind::Lost => r.err.clone(),
        _ => {
            return Ok(r);
        },
    };
    let mut chain: Vec<String> = Vec::new();
    chain.push(doing.to_string());
    chain.push(why);
    assert(chain.deep_view() =~= seq![doing@, why@]);
    Err(Stop::Fail(Failure { chain, command: None }))
}

/// The text of raw output; it must be UTF-8.
pub open spec fn utf8_spec(t: Trace, r: ReplyV, doing: Seq<char>) -> Out<Seq<char>> {
    if r.kind == Kind::Garbled {
        Out::Fail(FailureV { chain: seq![doing, r.err], command: None }, t)
    } else {
        Out::Got(r.text, t)
    }
}

pub fn utf8(r: Reply, doing: &str) -> (x: Result<String, Stop>)
    ensures
        forall|t: Trace| agrees(x, t, #[trigger] utf8_spec(t, r.deep_view(), doing@)),
{
    if r.kind == Kind::Garbled {
        let mut chain: Vec<String> = Vec::new();
        chain.push(doing.to_string());
        chain.push(r.err);
        assert(chain.deep_view() =~= seq![doing@, r.err@]);
        Err(Stop::Fail(Failure { chain, command: None }))
    } else {
        Ok(r.text)
    }
}

/// Arguments that print `tmpl` for the revisions `rev`.
pub open spec fn log_args_spec(rev: Seq<char>, tmpl: Seq<char>) -> Seq<Seq<char>> {
    seq!["log"@, "--no-graph"@, "--revision"@, rev, "--template"@, tmpl]
}

pub fn log_args(rev: &str, tmpl: &str) -> (r: Vec<String>)
    ensures
        r.deep_view() == log_args_spec(rev@, tmpl@),
{
    args6("log", "--no-graph", "--revision", rev, "--template", tmpl)
}

// ---------------------------------------------------------------------------
// Queries under a deadline
// ---------------------------------------------------------------------------

/// How long a completion query may take, in milliseconds.
pub const COMPLETION_TIMEOUT: u64 = 9000;

/// How long to wait between two looks at a running query, in milliseconds.
pub const POLL_INTERVAL: u64 = 20;

/// What a look at a running query found.
#[derive(Clone, Copy, PartialEq, Eq, Structural, Debug)]
pub enum PollEvent {
    Exited,
    /// It runs for so many milliseconds.
    Running { elapsed: u64 },
    /// It could not be looked at.
    Lost,
}

/// What to do about a query.
#[derive(Clone, Copy, PartialEq, Eq, Structural, Debug)]
pub enum PollStep {
    /// Take its output.
    Collect,
    /// Look again after so many milliseconds.
    Sleep { millis: u64 },
    /// Kill it: its time is over, or it is lost.
    Kill,
}

/// The next step of a query that may take `timeout` milliseconds. It is never waited for once its
/// time is over, whatever it does.
pub fn run_jj_bootstrap_timeout(event: PollEvent, timeout: u64) -> (r: PollStep)
    ensures
        r == (match event {
            PollEvent::Exited => PollStep::Collect,
            PollEvent::Running { elapsed } => if elapsed >= timeout {
                PollStep::Kill
            } else {
                PollStep::Sleep { millis: POLL_INTERVAL }
            },
            PollEvent::Lost => PollStep::Kill,
        }),
{
    match event {
        PollEvent::Exited => PollStep::Collect,
        PollEvent::Running { elapsed } => if elapsed >= timeout {
            PollStep::Kill
        } else {
            PollStep::Sleep { millis: POLL_INTERVAL }
        },
        PollEvent::Lost => PollStep::Kill,
    }
}

/// What the reply to a query means. One that failed is not read: its output may be partial.
pub open spec fn timed_result(args: Seq<Seq<char>>, r: ReplyV) -> Result<Seq<char>, FailureV> {
    match r.kind {
        Kind::Nonzero => Err(
            failure_spec("jj completion query exited unsuccessfully ("@ + r.err + ")"@),
        ),
        Kind::Refused => Err(failure_spec("jj completion query timed out after "@ + r.err)),
        Kind::Lost => Err(
            FailureV { chain: seq!["waiting on jj completion query"@, r.err], command: None },
        ),
        _ => jj_result(args, r),
    }
}

/// Runs jj under a deadline and gives its trimmed output.
pub open spec fn jj_timed_spec(t: Trace, args: Seq<Seq<char>>) -> Out<Seq<char>> {
    bind(
        ask_spec(t, request_spec(Act::JjTimed, Seq::empty(), args)),
        |r: ReplyV, t: Trace|
            match timed_result(args, r) {
                Ok(s) => Out::Got(s, t),
                Err(e) => Out::Fail(e, t),
            },
    )
}

pub fn jj_timed(tape: &mut Tape, args: Vec<String>) -> (r: Result<String, Stop>)
    ensures
        agrees(r, final(tape)@, jj_timed_spec(old(tape)@, args.deep_view())),
{
    let sent = copy_all(&args);
    let here = String::new();
    assert(here@ =~= Seq::<char>::empty());
    let reply = ask(tape, request(Act::JjTimed, &here, sent))?;
    match reply.kind {
        Kind::Nonzero => Err(
            Stop::Fail(
                failure(
                    cat3("jj completion query exited unsuccessfully (", &reply.err, ")"),
                ),
            ),
        ),
        Kind::Refused => Err(
            Stop::Fail(failure(cat2("jj completion query timed out after ", &reply.err))),
        ),
        Kind::Lost => {
            let mut chain: Vec<String> = Vec::new();
            chain.push("waiting on jj completion query".to_string());
            chain.push(reply.err);
            assert(chain.deep_view() =~= seq!["waiting on jj completion query"@, reply.err@]);
            Err(Stop::Fail(Failure { chain, command: None }))
        },
        _ => match run_jj_raw(&args, reply) {
            Ok(s) => Ok(s),
            Err(e) => Err(Stop::Fail(e)),
        },
    }
}

// ---------------------------------------------------------------------------
// Version
// ---------------------------------------------------------------------------

/// What `semver::Version::parse` answers to `text`: nothing when `text` is a version, else the
/// text of its error.
pub uninterp spec fn semver_error(text: Seq<char>) -> Option<Seq<char>>;

/// Does the version `text` come before the release `major.minor.patch` in semver's order?
pub uninterp spec fn semver_before(text: Seq<char>, major: u64, minor: u64, patch: u64) -> bool;

/// How `str` shows `text` in its `Debug` form: quoted and escaped.
pub uninterp spec fn debug_form(text: Seq<char>) -> Seq<char>;

/// Calls `semver::Version::parse`: no result when it accepts `text`, else the error that it
/// displays.
#[verifier::external_body]
fn version_error(text: &str) -> (r: Option<String>)
    ensures
        r.deep_view() == semver_error(text@),
{
    semver::Version::parse(text).err().map(|e| e.to_string())
}

/// Calls the `<` of `semver::Version` on the version that `text` writes and the release
/// `major.minor.patch`. `text` must be one that `semver::Version::parse` accepts.
#[verifier::external_body]
fn version_before(text: &str, major: u64, minor: u64, patch: u64) -> (r: bool)
    requires
        semver_error(text@) is None,
    ensures
        r == semver_before(text@, major, minor, patch),
{
    semver::Version::parse(text).unwrap() < semver::Version::new(major, minor, patch)
}

/// Calls the `Debug` formatting of `str`.
#[verifier::external_body]
fn debug_of(text: &str) -> (r: String)
    ensures
        r@ == debug_form(text@),
{
    format!("{:?}", text)
}

/// What stands behind "jj " in the output of `jj --version`, which reads "jj 0.41.0".
pub open spec fn version_text(stdout: Seq<char>) -> Option<Seq<char>> {
    strip_prefix_spec(trim_spec(stdout, Cut::White), "jj "@)
}

/// The verdict on what stands behind "jj ": `shown` is that text, or the whole output where there
/// is none, in quotes, and `error` what is wrong with the text as a version.
pub open spec fn version_verdict(
    text: Option<Seq<char>>,
    shown: Seq<char>,
    error: Option<Seq<char>>,
) -> Result<Seq<char>, Seq<char>> {
    match text {
        None => Err("unexpected `jj --version` output: "@ + shown),
        Some(v) => match error {
            None => Ok(v),
            Some(e) => Err("could not parse jj version: "@ + shown + ": "@ + e),
        },
    }
}

/// The verdict on what stands behind "jj " in the output of `jj --version`.
pub fn judge_text(text: Option<String>, shown: &str, error: Option<String>) -> (r: Result<
    String,
    String,
>)
    ensures
        match r {
            Ok(v) => version_verdict(text.deep_view(), shown@, error.deep_view()) == Ok::<
                Seq<char>,
                Seq<char>,
            >(v@),
            Err(e) => version_verdict(text.deep_view(), shown@, error.deep_view()) == Err::<
                Seq<char>,
                Seq<char>,
            >(e@),
        },
{
    match text {
        None => Err(cat2("unexpected `jj --version` output: ", shown)),
        Some(v) => match error {
            None => Ok(v),
            Some(e) => Err(cat4("could not parse jj version: ", shown, ": ", &e)),
        },
    }
}

/// The version in the output of `jj --version`.
pub open spec fn version_output_spec(stdout: Seq<char>) -> Result<Seq<char>, Seq<char>> {
    match version_text(stdout) {
        None => version_verdict(None, debug_form(stdout), None),
        Some(v) => version_verdict(Some(v), debug_form(v), semver_error(v)),
    }
}

/// The version in the output of `jj --version`, or why there is none.
pub fn parse_jj_version_output(stdout: &str) -> (r: Result<String, String>)
    ensures
        match r {
            Ok(v) => version_output_spec(stdout@) == Ok::<Seq<char>, Seq<char>>(v@),
            Err(e) => version_output_spec(stdout@) == Err::<Seq<char>, Seq<char>>(e@),
        },
        r matches Ok(v) ==> semver_error(v@) is None,
{
    match strip_prefix(&trim(stdout, Cut::White), "jj ") {
        None => judge_text(None, &debug_of(stdout), None),
        Some(v) => {
            let shown = debug_of(&v);
            let error = version_error(&v);
            judge_text(Some(v), &shown, error)
        },
    }
}

/// Is the jj that printed `stdout` recent enough? `before` says whether a version comes before
/// the oldest one that is.
pub open spec fn min_version_spec(parsed: Result<Seq<char>, Seq<char>>, before: bool) -> Result<
    (),
    Seq<char>,
> {
    match parsed {
        Err(e) => Err(e),
        Ok(v) => if before {
            Err(
                "installed jj "@ + v + " is older than required "@ + MIN_JJ_VERSION@
                    + ". Upgrade jj — see "@ + JJ_INSTALL_URL@,
            )
        } else {
            Ok(())
        },
    }
}

/// The verdict on a version, given whether it comes before the oldest one that will do.
pub fn judge_version(parsed: Result<String, String>, before: bool) -> (r: Result<(), String>)
    ensures
        match (r, parsed) {
            (Ok(()), Ok(v)) => min_version_spec(Ok(v@), before) is Ok,
            (Err(e), Ok(v)) => min_version_spec(Ok(v@), before) == Err::<(), Seq<char>>(e@),
            (Err(e), Err(p)) => e@ == p@,
            (Ok(()), Err(_)) => false,
        },
{
    match parsed {
        Err(e) => Err(e),
        Ok(v) => if before {
            Err(
                cat6(
                    "installed jj ",
                    &v,
                    " is older than required ",
                    MIN_JJ_VERSION,
                    ". Upgrade jj — see ",
                    JJ_INSTALL_URL,
                ),
            )
        } else {
            Ok(())
        },
    }
}

/// Checks the output of `jj --version` against the oldest jj that will do.
pub fn check_min_jj_version(stdout: &str) -> (r: Result<(), String>)
    ensures
        ({
            let parsed = version_output_spec(stdout@);
            let old = parsed is Ok && semver_before(parsed->Ok_0, 0, 42, 0);
            match r {
                Ok(()) => min_version_spec(parsed, old) is Ok,
                Err(e) => min_version_spec(parsed, old) == Err::<(), Seq<char>>(e@),
            }
        }),
{
    let parsed = parse_jj_version_output(stdout);
    let before = match &parsed {
        Ok(v) => version_before(v, 0, 42, 0),
        Err(_) => false,
    };
    judge_version(parsed, before)
}

} // verus!
