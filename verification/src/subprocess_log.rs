//! The log of subprocess calls, which `JI_LOG` asks for.
//!
//! `JI_LOG=1` logs to `.ji/subprocess.log`, another value to the file that it names.

use vstd::prelude::*;

use crate::jj_utils::{ensure_ji_dir, ensure_ji_dir_spec};
use crate::paths::{path_join, path_join_spec};
use crate::search::{dec, dec_spec};
use crate::tape::{
    agrees, ask, ask_spec, at, at_spec, attempt, attempt_spec, bind, fetch, fetch_spec, render_spec,
    tell, tell_spec, Act, FailureV, Kind, Out, ReplyV, Stop, Tape, Trace,
};
use crate::text::{cat2, cat3, cat4, cat6, empty, same};

verus! {

/// Where the log goes.
#[verifier::opaque]
pub open spec fn log_path_spec(
    t: Trace,
    repo_root: Seq<char>,
    val: Seq<char>,
) -> Out<Option<Seq<char>>> {
    if val != "1"@ {
        Out::Got(Some(val), t)
    } else {
        bind(
            attempt_spec(ensure_ji_dir_spec(t, repo_root)),
            |r: Result<(), FailureV>, t: Trace|
                match r {
                    Ok(_) => Out::Got(
                        Some(
                            path_join_spec(path_join_spec(repo_root, ".ji"@), "subprocess.log"@),
                        ),
                        t,
                    ),
                    Err(e) => bind(
                        tell_spec(
                            t,
                            Act::Warn,
                            "(ji)::log: failed to create .ji directory: "@ + render_spec(e),
                        ),
                        |u: (), t: Trace| Out::Got(None, t),
                    ),
                },
        )
    }
}

fn log_path(tape: &mut Tape, repo_root: &str, val: &str) -> (r: Result<Option<String>, Stop>)
    ensures
        agrees(r, final(tape)@, log_path_spec(old(tape)@, repo_root@, val@)),
{
    reveal(log_path_spec);
    if !same(val, "1") {
        return Ok(Some(val.to_string()));
    }
    match attempt(ensure_ji_dir(tape, repo_root))? {
        Ok(_) => Ok(Some(path_join(&path_join(repo_root, ".ji"), "subprocess.log"))),
        Err(e) => {
            tell(
                tape,
                Act::Warn,
                cat2("(ji)::log: failed to create .ji directory: ", &e.render()),
            )?;
            Ok(None)
        },
    }
}

#[verifier::opaque]
pub open spec fn open_log_spec(t: Trace, path: Seq<char>) -> Out<Option<Seq<char>>> {
    bind(
        ask_spec(t, at_spec(Act::OpenLog, path)),
        |r: ReplyV, t: Trace|
            if r.kind == Kind::Done {
                Out::Got(Some(path), t)
            } else {
                bind(
                    tell_spec(t, Act::Warn, "(ji)::log: cannot open "@ + path + ": "@ + r.err),
                    |u: (), t: Trace| Out::Got(None, t),
                )
            },
    )
}

fn open_log(tape: &mut Tape, path: &str) -> (r: Result<Option<String>, Stop>)
    ensures
        agrees(r, final(tape)@, open_log_spec(old(tape)@, path@)),
{
    reveal(open_log_spec);
    let r = ask(tape, at(Act::OpenLog, path))?;
    if r.kind == Kind::Done {
        return Ok(Some(path.to_string()));
    }
    tell(tape, Act::Warn, cat4("(ji)::log: cannot open ", path, ": ", &r.err))?;
    Ok(None)
}

#[verifier::opaque]
pub open spec fn init_spec(t: Trace, repo_root: Seq<char>) -> Out<Option<Seq<char>>> {
    bind(
        fetch_spec(t, at_spec(Act::EnvVar, "JI_LOG"@)),
        |val: Option<Seq<char>>, t: Trace|
            match val {
                Some(v) => if v.len() == 0 {
                    Out::Got(None, t)
                } else {
                    bind(
                        log_path_spec(t, repo_root, v),
                        |path: Option<Seq<char>>, t: Trace|
                            match path {
                                Some(p) => open_log_spec(t, p),
                                None => Out::Got(None, t),
                            },
                    )
                },
                None => Out::Got(None, t),
            },
    )
}

/// Opens the log if one is wanted. What fails is said, and leaves logging off.
pub fn init(tape: &mut Tape, repo_root: &str) -> (r: Result<Option<String>, Stop>)
    ensures
        agrees(r, final(tape)@, init_spec(old(tape)@, repo_root@)),
{
    reveal(init_spec);
    let val = match fetch(tape, at(Act::EnvVar, "JI_LOG"))? {
        Some(v) => v,
        None => return Ok(None),
    };
    if empty(&val) {
        return Ok(None);
    }
    match log_path(tape, repo_root, &val)? {
        Some(p) => open_log(tape, &p),
        None => Ok(None),
    }
}

/// The last millisecond after the epoch that has a timestamp: the end of the year 9999.
pub const LAST_MILLISECOND: u64 = 253402300799999;

/// How the `humantime` crate writes the time `millis` milliseconds after the epoch.
pub uninterp spec fn rfc3339(millis: u64) -> Seq<char>;

/// Calls `humantime::format_rfc3339_millis` on the time `millis` milliseconds after the epoch, and
/// displays what it returns: a function of that time alone, in UTC. From the year 10000 on it
/// cannot be displayed. The text is an RFC 3339 timestamp with milliseconds, of 24 characters.
#[verifier::external_body]
fn rfc3339_of(millis: u64) -> (r: String)
    requires
        millis <= LAST_MILLISECOND,
    ensures
        r@ == rfc3339(millis),
        r@.len() == 24,
{
    let time = std::time::UNIX_EPOCH + std::time::Duration::from_millis(millis);
    humantime::format_rfc3339_millis(time).to_string()
}

/// The timestamp of a log line that is written `millis` milliseconds after the epoch; none for a
/// time that has none.
pub fn timestamp(millis: u64) -> (r: Option<String>)
    ensures
        r.deep_view() == (if millis <= LAST_MILLISECOND {
            Some(rfc3339(millis))
        } else {
            None
        }),
        r matches Some(ts) ==> ts@.len() == 24,
{
    if millis <= LAST_MILLISECOND {
        Some(rfc3339_of(millis))
    } else {
        None
    }
}

/// A duration, at least six characters wide.
pub open spec fn millis_spec(ms: nat) -> Seq<char> {
    right(dec_spec(ms), 6)
}

/// `s` with spaces before it, up to `n` characters.
pub open spec fn right(s: Seq<char>, n: nat) -> Seq<char>
    decreases n - s.len(),
{
    if s.len() >= n {
        s
    } else {
        right(seq![' '] + s, n)
    }
}

fn align_right(s: &str, n: usize) -> (r: String)
    ensures
        r@ == right(s@, n as nat),
{
    let mut out = s.to_string();
    let mut k: usize = s.unicode_len();
    while k < n
        invariant
            k == out@.len(),
            right(s@, n as nat) == right(out@, n as nat),
        decreases n - k,
    {
        proof {
            reveal_strlit(" ");
            assert(" "@ =~= seq![' ']);
        }
        out = cat2(" ", &out);
        k = k + 1;
    }
    out
}

/// The line for a jj call that started at `ts` and took `ms` milliseconds.
pub fn log_subprocess(ts: &str, ms: u64, label: &str) -> (r: String)
    ensures
        r@ == ts@ + "  "@ + millis_spec(ms as nat) + "ms  jj "@ + label@ + "\n"@,
{
    cat6(ts, "  ", &align_right(&dec(ms), 6), "ms  jj ", label, "\n")
}

/// The line for a hook.
pub fn log_hook(ts: &str, ms: u64, hook_label: &str, cmd: &str) -> (r: String)
    ensures
        r@ == ts@ + "  "@ + millis_spec(ms as nat) + "ms  hook:"@ + hook_label@ + "  "@ + cmd@
            + "\n"@,
{
    let head = cat6(ts, "  ", &align_right(&dec(ms), 6), "ms  hook:", hook_label, "  ");
    cat3(&head, cmd, "\n")
}

} // verus!
