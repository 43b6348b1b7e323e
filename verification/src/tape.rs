//! Procedures that alternate decisions and outside work.
//!
//! A procedure is a function of the replies that the outside world has given so far. Run on a
//! tape of replies it either finishes, or stops with the next request. The caller performs the
//! request, appends the reply to the tape and runs the procedure again from the start.

use vstd::prelude::*;

use crate::text::{copy_all, join, join_spec};

verus! {

/// What a request asks the outside world to do.
#[derive(Clone, Copy, PartialEq, Eq, Structural, Debug)]
pub enum Act {
    /// Run jj on the repository `at`, leaving the working copy alone.
    JjRepo,
    /// Run jj on the repository `at`, snapshotting its working copy first.
    JjRepoLive,
    /// Run jj in the workspace directory `at`, leaving the working copy alone.
    JjWs,
    /// Run jj in the workspace directory `at`, snapshotting its working copy first.
    JjWsLive,
    /// Run jj in the workspace directory `at`, leaving the working copy alone; its output is
    /// wanted as bytes.
    JjWsBytes,
    /// Run jj in the current directory, without a version check.
    JjBootstrap,
    /// As `JjBootstrap`, under a bounded wall-clock time. Refused, with the bound as the reason,
    /// when that is over.
    JjTimed,
    /// Run jj on the repository `at` with the terminal attached.
    JjTerminal,
    /// The value of the environment variable `at`.
    EnvVar,
    /// The current directory.
    CurrentDir,
    /// The number of this process.
    ProcessId,
    /// Does the path `at` exist?
    Exists,
    /// Is `at` a regular file?
    IsFile,
    /// Is `at` a directory?
    IsDir,
    /// Is `at` read-only? Unstarted if that cannot be told.
    IsReadOnly,
    /// The canonical form of the path `at`.
    Canonical,
    /// The entry names of the directory `at`.
    ListDir,
    /// The content of the file `at`.
    ReadFile,
    /// Write the first argument to the file `at`.
    WriteFile,
    /// The permission bits of `at`, in decimal.
    FileMode,
    /// Create the file `at`, which must not exist, with the first argument as its content and the
    /// second as its permission bits, in decimal. Refused if it cannot be created.
    CreateFile,
    /// Rename `at` to the first argument.
    Rename,
    /// Flush the directory `at` to disk.
    SyncDir,
    /// Delete the file `at`.
    RemoveFile,
    /// Delete the directory `at` and what is in it.
    RemoveDir,
    /// Create the directory `at` and its parents.
    MakeDirs,
    /// The content of the file `at`, as bytes. Garbled if it was opened and could not be read.
    ReadBytes,
    /// Run the first argument as a shell command in the directory `at` and wait for it.
    RunHook,
    /// Start the first argument as a shell command in the directory `at`.
    StartHook,
    /// Open the log file `at` for the calls that follow.
    OpenLog,
    /// Print the first argument to standard output, as a line.
    Print,
    /// Print the first argument to standard error, as a line.
    Warn,
    /// The first argument is the number of files to check.
    Total,
    /// The first argument is the number of files checked so far.
    Checked,
    /// What kind of file `at` is, links not followed.
    Stat,
    /// The extended attribute of `at` that the first argument names, as bytes.
    GetXattr,
    /// Set the extended attribute of `at` that the first argument names to the data.
    SetXattr,
    /// At most as many bytes as the first argument says, from the start of the file `at`.
    ReadPrefix,
}

/// How a request ended.
#[derive(Clone, Copy, PartialEq, Eq, Structural, Debug)]
pub enum Kind {
    /// It was done; of a question: yes.
    Done,
    /// The program ran and exited unsuccessfully; of a question: no.
    Nonzero,
    /// The program was not found.
    NotFound,
    /// It could not be started or carried out.
    Unstarted,
    /// Its output was not UTF-8.
    Garbled,
    /// It was refused before it started.
    Refused,
    /// It was started, and could not be waited for.
    Lost,
}

/// What the file system says of a path.
#[derive(Clone, Copy, PartialEq, Eq, Structural, Debug)]
pub struct FileStat {
    pub is_file: bool,
    pub nlink: u64,
    pub dev: u64,
    pub ino: u64,
}

/// One thing for the outside world to do.
#[derive(Debug)]
pub struct Request {
    pub act: Act,
    pub at: String,
    pub args: Vec<String>,
    /// Bytes to write.
    pub data: Vec<u8>,
    /// What a log calls it; empty if its arguments say it.
    pub label: String,
}

pub struct RequestV {
    pub act: Act,
    pub at: Seq<char>,
    pub args: Seq<Seq<char>>,
    pub data: Seq<u8>,
    pub label: Seq<char>,
}

impl DeepView for Request {
    type V = RequestV;

    open spec fn deep_view(&self) -> RequestV {
        RequestV {
            act: self.act,
            at: self.at@,
            args: self.args.deep_view(),
            data: self.data@,
            label: self.label@,
        }
    }
}

/// What came back for a request.
#[derive(Clone, Debug)]
pub struct Reply {
    pub kind: Kind,
    /// Standard output, or the content that was asked for.
    pub text: String,
    /// Standard error, or the reason of a failure.
    pub err: String,
    /// The names that were asked for.
    pub items: Vec<String>,
    /// The bytes that were asked for.
    pub bytes: Vec<u8>,
    /// What kind of file was asked about.
    pub stat: Option<FileStat>,
}

pub struct ReplyV {
    pub kind: Kind,
    pub text: Seq<char>,
    pub err: Seq<char>,
    pub items: Seq<Seq<char>>,
    pub bytes: Seq<u8>,
    pub stat: Option<FileStat>,
}

impl DeepView for Reply {
    type V = ReplyV;

    open spec fn deep_view(&self) -> ReplyV {
        ReplyV {
            kind: self.kind,
            text: self.text@,
            err: self.err@,
            items: self.items.deep_view(),
            bytes: self.bytes@,
            stat: self.stat,
        }
    }
}

/// A jj command that exited unsuccessfully.
#[derive(Clone, Debug)]
pub struct JjCommandError {
    pub command: String,
    pub stdout: String,
    pub stderr: String,
}

pub struct JjCommandErrorV {
    pub command: Seq<char>,
    pub stdout: Seq<char>,
    pub stderr: Seq<char>,
}

impl DeepView for JjCommandError {
    type V = JjCommandErrorV;

    open spec fn deep_view(&self) -> JjCommandErrorV {
        JjCommandErrorV { command: self.command@, stdout: self.stdout@, stderr: self.stderr@ }
    }
}

/// Why a procedure failed: messages from the outermost context to the cause.
#[derive(Clone, Debug)]
pub struct Failure {
    pub chain: Vec<String>,
    pub command: Option<JjCommandError>,
}

pub struct FailureV {
    pub chain: Seq<Seq<char>>,
    pub command: Option<JjCommandErrorV>,
}

impl DeepView for Failure {
    type V = FailureV;

    open spec fn deep_view(&self) -> FailureV {
        FailureV { chain: self.chain.deep_view(), command: self.command.deep_view() }
    }
}

pub open spec fn failure_spec(msg: Seq<char>) -> FailureV {
    FailureV { chain: seq![msg], command: None }
}

pub fn failure(msg: String) -> (r: Failure)
    ensures
        r.deep_view() == failure_spec(msg@),
{
    let mut chain: Vec<String> = Vec::new();
    chain.push(msg);
    assert(chain.deep_view() =~= seq![msg@]);
    Failure { chain, command: None }
}

/// All messages of a failure in one line, outermost first.
pub open spec fn render_spec(f: FailureV) -> Seq<char> {
    join_spec(f.chain, ": "@)
}

impl Failure {
    pub fn render(&self) -> (r: String)
        ensures
            r@ == render_spec(self.deep_view()),
    {
        join(&self.chain, ": ")
    }

    /// The outermost message.
    pub fn outermost(&self) -> (r: String)
        ensures
            r@ == outermost_spec(self.deep_view()),
    {
        if self.chain.len() == 0 {
            String::new()
        } else {
            self.chain[0].clone()
        }
    }
}

pub open spec fn outermost_spec(f: FailureV) -> Seq<char> {
    if f.chain.len() == 0 {
        Seq::empty()
    } else {
        f.chain[0]
    }
}

/// Why a procedure stopped before it had a result.
#[derive(Debug)]
pub enum Stop {
    Ask(Request),
    Fail(Failure),
}

/// Replies that are still to be read.
pub type Trace = Seq<ReplyV>;

/// What a procedure does on given replies: it asks for more, it fails or it gets a result.
/// The replies that it has not read follow.
pub enum Out<T> {
    Ask(RequestV),
    Fail(FailureV, Trace),
    Got(T, Trace),
}

pub open spec fn bind<A, B>(m: Out<A>, f: spec_fn(A, Trace) -> Out<B>) -> Out<B> {
    match m {
        Out::Ask(q) => Out::Ask(q),
        Out::Fail(e, t) => Out::Fail(e, t),
        Out::Got(a, t) => f(a, t),
    }
}

/// Turns a failure into a value.
pub open spec fn attempt_spec<A>(m: Out<A>) -> Out<Result<A, FailureV>> {
    match m {
        Out::Ask(q) => Out::Ask(q),
        Out::Fail(e, t) => Out::Got(Err(e), t),
        Out::Got(a, t) => Out::Got(Ok(a), t),
    }
}

/// `e` with a message in front.
pub open spec fn within_spec(e: FailureV, msg: Seq<char>) -> FailureV {
    FailureV { chain: seq![msg] + e.chain, command: e.command }
}

/// Adds a message in front of a failure.
pub open spec fn context_spec<A>(m: Out<A>, msg: Seq<char>) -> Out<A> {
    match m {
        Out::Fail(e, t) => Out::Fail(within_spec(e, msg), t),
        _ => m,
    }
}

/// The result `r`, with `t` left to read, is what `o` says.
pub open spec fn agrees<T: DeepView>(r: Result<T, Stop>, t: Trace, o: Out<T::V>) -> bool {
    match r {
        Ok(v) => o == Out::Got(v.deep_view(), t),
        Err(Stop::Ask(q)) => o == Out::<T::V>::Ask(q.deep_view()),
        Err(Stop::Fail(e)) => o == Out::<T::V>::Fail(e.deep_view(), t),
    }
}

/// As [`agrees`], for a result in which a failure is a value.
pub open spec fn agrees_or<T: DeepView>(
    r: Result<Result<T, Failure>, Stop>,
    t: Trace,
    o: Out<Result<T::V, FailureV>>,
) -> bool {
    match r {
        Ok(Ok(v)) => o == Out::<Result<T::V, FailureV>>::Got(Ok(v.deep_view()), t),
        Ok(Err(e)) => o == Out::<Result<T::V, FailureV>>::Got(Err(e.deep_view()), t),
        Err(Stop::Ask(q)) => o == Out::<Result<T::V, FailureV>>::Ask(q.deep_view()),
        Err(Stop::Fail(e)) => o == Out::<Result<T::V, FailureV>>::Fail(e.deep_view(), t),
    }
}

pub fn copy_bytes(v: &Vec<u8>) -> (r: Vec<u8>)
    ensures
        r@ == v@,
{
    let mut out: Vec<u8> = Vec::new();
    for i in 0..v.len()
        invariant
            out@ == v@.take(i as int),
    {
        out.push(v[i]);
    }
    assert(v@.take(v@.len() as int) =~= v@);
    out
}

pub fn attempt<T>(r: Result<T, Stop>) -> (x: Result<Result<T, Failure>, Stop>)
    ensures
        x == (match r {
            Ok(v) => Ok::<Result<T, Failure>, Stop>(Ok(v)),
            Err(Stop::Fail(e)) => Ok(Err(e)),
            Err(Stop::Ask(q)) => Err(Stop::Ask(q)),
        }),
{
    match r {
        Ok(v) => Ok(Ok(v)),
        Err(Stop::Fail(e)) => Ok(Err(e)),
        Err(Stop::Ask(q)) => Err(Stop::Ask(q)),
    }
}

pub fn within(e: Failure, msg: &str) -> (r: Failure)
    ensures
        r.deep_view() == within_spec(e.deep_view(), msg@),
{
    let ghost before = e.deep_view();
    let mut chain: Vec<String> = Vec::new();
    chain.push(msg.to_string());
    let mut rest = e.chain;
    chain.append(&mut rest);
    assert(chain.deep_view() =~= seq![msg@] + before.chain);
    Failure { chain, command: e.command }
}

pub fn context<T>(r: Result<T, Stop>, msg: &str) -> (x: Result<T, Stop>)
    ensures
        match (r, x) {
            (Ok(v), Ok(w)) => v == w,
            (Err(Stop::Ask(q)), Err(Stop::Ask(p))) => q == p,
            (Err(Stop::Fail(e)), Err(Stop::Fail(f))) => f.deep_view() == within_spec(
                e.deep_view(),
                msg@,
            ),
            _ => false,
        },
{
    match r {
        Ok(v) => Ok(v),
        Err(Stop::Ask(q)) => Err(Stop::Ask(q)),
        Err(Stop::Fail(e)) => Err(Stop::Fail(within(e, msg))),
    }
}

/// Runs `step` on each of `xs` in turn, from `acc` on.
pub open spec fn each<X, A>(
    t: Trace,
    xs: Seq<X>,
    acc: A,
    step: spec_fn(Trace, A, X) -> Out<A>,
) -> Out<A>
    decreases xs.len(),
{
    if xs.len() == 0 {
        Out::Got(acc, t)
    } else {
        match step(t, acc, xs[0]) {
            Out::Ask(q) => Out::Ask(q),
            Out::Fail(e, u) => Out::Fail(e, u),
            Out::Got(a, u) => each(u, xs.drop_first(), a, step),
        }
    }
}

pub proof fn lemma_each_step<X>(xs: Seq<X>, i: int)
    requires
        0 <= i < xs.len(),
    ensures
        xs.skip(i)[0] == xs[i],
        xs.skip(i).drop_first() == xs.skip(i + 1),
{
    assert(xs.skip(i).drop_first() =~= xs.skip(i + 1));
}

/// What is behind is done when what is in front was.
pub proof fn lemma_each_append<X, A>(
    t: Trace,
    a: Seq<X>,
    b: Seq<X>,
    acc: A,
    step: spec_fn(Trace, A, X) -> Out<A>,
)
    ensures
        each(t, a + b, acc, step) == (match each(t, a, acc, step) {
            Out::Ask(q) => Out::Ask(q),
            Out::Fail(e, u) => Out::Fail(e, u),
            Out::Got(x, u) => each(u, b, x, step),
        }),
    decreases a.len(),
{
    if a.len() == 0 {
        assert(a + b =~= b);
    } else {
        assert((a + b).drop_first() =~= a.drop_first() + b);
        if let Out::Got(x, u) = step(t, acc, a[0]) {
            lemma_each_append(u, a.drop_first(), b, x, step);
        }
    }
}

/// The replies given so far and how many of them have been read.
#[derive(Debug)]
pub struct Tape {
    replies: Vec<Reply>,
    pos: usize,
}

impl View for Tape {
    type V = Trace;

    closed spec fn view(&self) -> Trace {
        self.replies.deep_view().skip(self.pos as int)
    }
}

impl Tape {
    #[verifier::type_invariant]
    spec fn in_range(self) -> bool {
        self.pos <= self.replies@.len()
    }

    /// A tape on which nothing has been read.
    pub fn new(replies: Vec<Reply>) -> (r: Tape)
        ensures
            r@ == replies.deep_view(),
    {
        let t = Tape { replies, pos: 0 };
        assert(t@ =~= replies.deep_view());
        t
    }
}

/// The next reply, or a stop with the request when there is none.
pub open spec fn ask_spec(t: Trace, q: RequestV) -> Out<ReplyV> {
    if t.len() == 0 {
        Out::Ask(q)
    } else {
        Out::Got(t[0], t.drop_first())
    }
}

pub fn ask(tape: &mut Tape, q: Request) -> (r: Result<Reply, Stop>)
    ensures
        agrees(r, final(tape)@, ask_spec(old(tape)@, q.deep_view())),
{
    proof {
        use_type_invariant(&*tape);
    }
    if tape.pos == tape.replies.len() {
        return Err(Stop::Ask(q));
    }
    let at = &tape.replies[tape.pos];
    let r = Reply {
        kind: at.kind,
        text: at.text.clone(),
        err: at.err.clone(),
        items: copy_all(&at.items),
        bytes: copy_bytes(&at.bytes),
        stat: at.stat,
    };
    tape.pos = tape.pos + 1;
    assert(tape@ =~= old(tape)@.drop_first());
    Ok(r)
}

pub open spec fn request_spec(act: Act, at: Seq<char>, args: Seq<Seq<char>>) -> RequestV {
    RequestV { act, at, args, data: Seq::empty(), label: Seq::empty() }
}

pub fn request(act: Act, at: &str, args: Vec<String>) -> (q: Request)
    ensures
        q.deep_view() == request_spec(act, at@, args.deep_view()),
{
    let data: Vec<u8> = Vec::new();
    assert(data@ =~= Seq::<u8>::empty());
    let label = String::new();
    assert(label@ =~= Seq::<char>::empty());
    Request { act, at: at.to_string(), args, data, label }
}

/// A request with a name of its own.
pub open spec fn labelled_spec(
    act: Act,
    at: Seq<char>,
    args: Seq<Seq<char>>,
    label: Seq<char>,
) -> RequestV {
    RequestV { act, at, args, data: Seq::empty(), label }
}

pub fn labelled(act: Act, at: &str, args: Vec<String>, label: &str) -> (q: Request)
    ensures
        q.deep_view() == labelled_spec(act, at@, args.deep_view(), label@),
{
    let q = request(act, at, args);
    Request { label: label.to_string(), ..q }
}

pub open spec fn at_spec(act: Act, at: Seq<char>) -> RequestV {
    request_spec(act, at, Seq::empty())
}

/// A request without arguments.
pub fn at(act: Act, path: &str) -> (q: Request)
    ensures
        q.deep_view() == at_spec(act, path@),
{
    let args: Vec<String> = Vec::new();
    assert(args.deep_view() =~= Seq::empty());
    request(act, path, args)
}

/// Was the request done, or the question answered with yes?
pub open spec fn holds_spec(t: Trace, q: RequestV) -> Out<bool> {
    bind(ask_spec(t, q), |r: ReplyV, t: Trace| Out::Got(r.kind == Kind::Done, t))
}

pub fn holds(tape: &mut Tape, q: Request) -> (r: Result<bool, Stop>)
    ensures
        agrees(r, final(tape)@, holds_spec(old(tape)@, q.deep_view())),
{
    let r = ask(tape, q)?;
    Ok(r.kind == Kind::Done)
}

/// The content that was asked for, if it could be had.
pub open spec fn fetch_spec(t: Trace, q: RequestV) -> Out<Option<Seq<char>>> {
    bind(
        ask_spec(t, q),
        |r: ReplyV, t: Trace|
            Out::Got(
                if r.kind == Kind::Done {
                    Some(r.text)
                } else {
                    None
                },
                t,
            ),
    )
}

pub fn fetch(tape: &mut Tape, q: Request) -> (r: Result<Option<String>, Stop>)
    ensures
        agrees(r, final(tape)@, fetch_spec(old(tape)@, q.deep_view())),
{
    let r = ask(tape, q)?;
    if r.kind == Kind::Done {
        Ok(Some(r.text))
    } else {
        Ok(None)
    }
}

/// The content that was asked for; a failure says what `doing` could not do, and why.
pub open spec fn need_spec(t: Trace, q: RequestV, doing: Seq<char>) -> Out<Seq<char>> {
    bind(
        ask_spec(t, q),
        |r: ReplyV, t: Trace|
            if r.kind == Kind::Done {
                Out::Got(r.text, t)
            } else {
                Out::Fail(FailureV { chain: seq![doing, r.err], command: None }, t)
            },
    )
}

pub fn need(tape: &mut Tape, q: Request, doing: &str) -> (r: Result<String, Stop>)
    ensures
        agrees(r, final(tape)@, need_spec(old(tape)@, q.deep_view(), doing@)),
{
    let r = ask(tape, q)?;
    if r.kind == Kind::Done {
        Ok(r.text)
    } else {
        let mut chain: Vec<String> = Vec::new();
        chain.push(doing.to_string());
        chain.push(r.err);
        assert(chain.deep_view() =~= seq![doing@, r.err@]);
        Err(Stop::Fail(Failure { chain, command: None }))
    }
}

/// The names that were asked for, if they could be had.
pub open spec fn list_spec(t: Trace, q: RequestV) -> Out<Option<Seq<Seq<char>>>> {
    bind(
        ask_spec(t, q),
        |r: ReplyV, t: Trace|
            Out::Got(
                if r.kind == Kind::Done {
                    Some(r.items)
                } else {
                    None
                },
                t,
            ),
    )
}

pub fn list(tape: &mut Tape, q: Request) -> (r: Result<Option<Vec<String>>, Stop>)
    ensures
        agrees(r, final(tape)@, list_spec(old(tape)@, q.deep_view())),
{
    let r = ask(tape, q)?;
    if r.kind == Kind::Done {
        Ok(Some(r.items))
    } else {
        Ok(None)
    }
}

/// Shows `msg`; what comes back does not matter.
pub open spec fn tell_spec(t: Trace, act: Act, msg: Seq<char>) -> Out<()> {
    bind(
        ask_spec(t, request_spec(act, Seq::empty(), seq![msg])),
        |r: ReplyV, t: Trace| Out::Got((), t),
    )
}

pub fn tell(tape: &mut Tape, act: Act, msg: String) -> (r: Result<(), Stop>)
    ensures
        agrees(r, final(tape)@, tell_spec(old(tape)@, act, msg@)),
{
    let mut args: Vec<String> = Vec::new();
    args.push(msg);
    assert(args.deep_view() =~= seq![msg@]);
    let here = String::new();
    assert(here@ =~= Seq::<char>::empty());
    let _ = ask(tape, request(act, &here, args))?;
    Ok(())
}

} // verus!
