//! Finder metadata and hard links across operations that rewrite files.
//!
//! jj stores content and mode alone, and writes every file anew. A Finder alias is a regular file
//! that an extended attribute marks as one, so a rewrite turns it into a plain document; a hard
//! link becomes an independent file. The guard records both before an operation, and afterwards
//! restores what it can and warns of the rest.

use vstd::prelude::*;
use vstd::seq_lib::*;

use crate::content::{blake3_hash, content_hash, same_bytes};
use crate::order::{
    is_sorted, lemma_sort_texts, lemma_text_lt_total, lemma_text_lt_trans, lemma_text_order,
    sort_texts, sort_texts_spec, text_lt, text_order,
};
use crate::paths::{path_join, path_join_spec};
use crate::stale::{tracked_files, tracked_files_spec};
use crate::tape::{
    agrees, ask, ask_spec, at, at_spec, attempt, attempt_spec, bind, copy_bytes, each,
    lemma_each_step, render_spec, request, request_spec, Act, Failure, FailureV, FileStat, Kind,
    Out, Reply, ReplyV, Request, RequestV, Stop, Tape, Trace,
};
use crate::text::{args1, args2, cat2, cat3, cat4, chain, same};
use crate::text_map::Pairs;

verus! {

pub const FINDER_INFO_XATTR: &'static str = "com.apple.FinderInfo";

pub const RESOURCE_FORK_XATTR: &'static str = "com.apple.ResourceFork";

/// How many bytes mark the data of an alias.
pub const MAGIC_LEN: &'static str = "16";

/// The start of macOS bookmark data, which an alias holds: `book` and `mark`, each followed by four
/// zero bytes.
pub open spec fn bookmark_magic() -> Seq<u8> {
    seq![
        98u8, 111u8, 111u8, 107u8, 0u8, 0u8, 0u8, 0u8, 109u8, 97u8, 114u8, 107u8, 0u8, 0u8, 0u8, 0u8,
    ]
}

fn magic() -> (r: Vec<u8>)
    ensures
        r@ == bookmark_magic(),
{
    let r: Vec<u8> = vec![
        98u8, 111u8, 111u8, 107u8, 0u8, 0u8, 0u8, 0u8, 109u8, 97u8, 114u8, 107u8, 0u8, 0u8, 0u8, 0u8,
    ];
    assert(r@ =~= bookmark_magic());
    r
}

/// Does Finder information mark an alias: the high bit of its ninth byte?
pub open spec fn marks_alias(info: Seq<u8>) -> bool {
    info.len() == 32 && info[8] >= 128
}

pub fn finder_info_marks_alias(info: &[u8]) -> (r: bool)
    ensures
        r == marks_alias(info@),
{
    if info.len() != 32 {
        return false;
    }
    let b: u8 = info[8];
    assert((b & 0x80u8 != 0) == (b >= 128)) by (bit_vector);
    b & 0x80 != 0
}

pub open spec fn opt_bytes(o: Option<Vec<u8>>) -> Option<Seq<u8>> {
    match o {
        Some(v) => Some(v@),
        None => None,
    }
}

/// What was recorded of a file with Finder metadata.
#[derive(Debug)]
pub struct Candidate {
    pub ws_name: String,
    pub finder_info: Option<Vec<u8>>,
    pub resource_fork: Option<Vec<u8>>,
    pub content_hash: Vec<u8>,
    pub is_alias: bool,
}

pub struct CandidateV {
    pub ws_name: Seq<char>,
    pub finder_info: Option<Seq<u8>>,
    pub resource_fork: Option<Seq<u8>>,
    pub content_hash: Seq<u8>,
    pub is_alias: bool,
}

impl DeepView for Candidate {
    type V = CandidateV;

    open spec fn deep_view(&self) -> CandidateV {
        CandidateV {
            ws_name: self.ws_name@,
            finder_info: opt_bytes(self.finder_info),
            resource_fork: opt_bytes(self.resource_fork),
            content_hash: self.content_hash@,
            is_alias: self.is_alias,
        }
    }
}

fn copy_opt_bytes(o: &Option<Vec<u8>>) -> (r: Option<Vec<u8>>)
    ensures
        opt_bytes(r) == opt_bytes(*o),
{
    match o {
        Some(v) => Some(copy_bytes(v)),
        None => None,
    }
}

impl Candidate {
    pub fn copy(&self) -> (r: Candidate)
        ensures
            r.deep_view() == self.deep_view(),
    {
        Candidate {
            ws_name: self.ws_name.clone(),
            finder_info: copy_opt_bytes(&self.finder_info),
            resource_fork: copy_opt_bytes(&self.resource_fork),
            content_hash: copy_bytes(&self.content_hash),
            is_alias: self.is_alias,
        }
    }
}

/// The first candidate that `keep` takes.
pub open spec fn first_where(cs: Seq<CandidateV>, keep: spec_fn(CandidateV) -> bool) -> Option<
    CandidateV,
>
    decreases cs.len(),
{
    if cs.len() == 0 {
        None
    } else if keep(cs[0]) {
        Some(cs[0])
    } else {
        first_where(cs.drop_first(), keep)
    }
}

pub open spec fn has_hash(hash: Seq<u8>) -> spec_fn(CandidateV) -> bool {
    |c: CandidateV| c.content_hash == hash
}

pub open spec fn gives_alias() -> spec_fn(CandidateV) -> bool {
    |c: CandidateV| c.is_alias && c.finder_info is Some
}

pub open spec fn in_ws(ws_name: Seq<char>, keep: spec_fn(CandidateV) -> bool) -> spec_fn(
    CandidateV,
) -> bool {
    |c: CandidateV| c.ws_name == ws_name && keep(c)
}

/// The first candidate of the workspace itself that `keep` takes, else the first one at all.
pub open spec fn prefer_own(
    cs: Seq<CandidateV>,
    ws_name: Seq<char>,
    keep: spec_fn(CandidateV) -> bool,
) -> Option<CandidateV> {
    match first_where(cs, in_ws(ws_name, keep)) {
        Some(c) => Some(c),
        None => first_where(cs, keep),
    }
}

fn first_of<'a, F: Fn(&Candidate) -> bool>(
    cs: &'a Vec<Candidate>,
    f: F,
    keep: Ghost<spec_fn(CandidateV) -> bool>,
) -> (r: Option<&'a Candidate>)
    requires
        forall|c: &Candidate| #[trigger] call_requires(f, (c,)),
        forall|c: &Candidate, b: bool| #[trigger]
            call_ensures(f, (c,), b) ==> b == keep@(c.deep_view()),
    ensures
        r.deep_view() == first_where(cs.deep_view(), keep@),
{
    let ghost all = cs.deep_view();
    assert(all.skip(0) =~= all);
    for i in 0..cs.len()
        invariant
            all == cs.deep_view(),
            forall|c: &Candidate| #[trigger] call_requires(f, (c,)),
            forall|c: &Candidate, b: bool| #[trigger]
                call_ensures(f, (c,), b) ==> b == keep@(c.deep_view()),
            first_where(all, keep@) == first_where(all.skip(i as int), keep@),
    {
        proof {
            lemma_each_step(all, i as int);
        }
        assert(all[i as int] == cs@[i as int].deep_view());
        if f(&cs[i]) {
            return Some(&cs[i]);
        }
    }
    None
}

/// The candidate with the content `hash`, one of the same workspace before others.
pub fn pick_exact<'a>(candidates: &'a Vec<Candidate>, ws_name: &str, hash: &Vec<u8>) -> (r: Option<
    &'a Candidate,
>)
    ensures
        r.deep_view() == prefer_own(candidates.deep_view(), ws_name@, has_hash(hash@)),
{
    let own = |c: &Candidate| -> (b: bool)
        ensures
            b == (c.ws_name@ == ws_name@ && c.content_hash@ == hash@),
        { same(&c.ws_name, ws_name) && same_bytes(&c.content_hash, hash) };
    let any = |c: &Candidate| -> (b: bool)
        ensures
            b == (c.content_hash@ == hash@),
        { same_bytes(&c.content_hash, hash) };
    match first_of(candidates, own, Ghost(in_ws(ws_name@, has_hash(hash@)))) {
        Some(c) => Some(c),
        None => first_of(candidates, any, Ghost(has_hash(hash@))),
    }
}

/// The candidate to take an alias mark from, one of the same workspace before others.
pub fn pick_alias<'a>(candidates: &'a Vec<Candidate>, ws_name: &str) -> (r: Option<&'a Candidate>)
    ensures
        r.deep_view() == prefer_own(candidates.deep_view(), ws_name@, gives_alias()),
{
    let own = |c: &Candidate| -> (b: bool)
        ensures
            b == (c.ws_name@ == ws_name@ && c.is_alias && c.finder_info is Some),
        { same(&c.ws_name, ws_name) && c.is_alias && c.finder_info.is_some() };
    let any = |c: &Candidate| -> (b: bool)
        ensures
            b == (c.is_alias && c.finder_info is Some),
        { c.is_alias && c.finder_info.is_some() };
    match first_of(candidates, own, Ghost(in_ws(ws_name@, gives_alias()))) {
        Some(c) => Some(c),
        None => first_of(candidates, any, Ghost(gives_alias())),
    }
}

proof fn lemma_first_where(cs: Seq<CandidateV>, keep: spec_fn(CandidateV) -> bool)
    ensures
        match first_where(cs, keep) {
            Some(c) => cs.contains(c) && keep(c),
            None => forall|i: int| 0 <= i < cs.len() ==> !keep(#[trigger] cs[i]),
        },
    decreases cs.len(),
{
    if cs.len() > 0 && !keep(cs[0]) {
        lemma_first_where(cs.drop_first(), keep);
        match first_where(cs.drop_first(), keep) {
            Some(c) => {
                let i = choose|i: int| 0 <= i < cs.drop_first().len() && cs.drop_first()[i] == c;
                assert(cs[i + 1] == c);
            },
            None => {
                assert forall|i: int| 0 <= i < cs.len() implies !keep(#[trigger] cs[i]) by {
                    if i > 0 {
                        assert(!keep(cs.drop_first()[i - 1]));
                    }
                }
            },
        }
    } else if cs.len() > 0 {
        assert(cs[0] == first_where(cs, keep)->Some_0);
    }
}

/// A pick is one of the candidates and fits; there is none only when no candidate fits; and it is
/// of the same workspace whenever one that fits is.
pub proof fn law_pick(
    cs: Seq<CandidateV>,
    ws_name: Seq<char>,
    keep: spec_fn(CandidateV) -> bool,
    i: int,
)
    ensures
        match prefer_own(cs, ws_name, keep) {
            Some(c) => cs.contains(c) && keep(c),
            None => 0 <= i < cs.len() ==> !keep(cs[i]),
        },
        0 <= i < cs.len() && keep(cs[i]) && cs[i].ws_name == ws_name ==> (prefer_own(
            cs,
            ws_name,
            keep,
        ) matches Some(c) && c.ws_name == ws_name),
{
    lemma_first_where(cs, keep);
    lemma_first_where(cs, in_ws(ws_name, keep));
    if 0 <= i < cs.len() {
        let x = cs[i];
        assert(in_ws(ws_name, keep)(x) == (x.ws_name == ws_name && keep(x)));
    }
}

// ---------------------------------------------------------------------------
// Extended attributes
// ---------------------------------------------------------------------------

/// The bytes that were asked for, if they could be had.
pub open spec fn bytes_spec(t: Trace, q: RequestV) -> Out<Option<Seq<u8>>> {
    bind(
        ask_spec(t, q),
        |r: ReplyV, t: Trace|
            Out::Got(
                if r.kind == Kind::Done {
                    Some(r.bytes)
                } else {
                    None
                },
                t,
            ),
    )
}

fn fetch_bytes(tape: &mut Tape, q: Request) -> (r: Result<Option<Vec<u8>>, Stop>)
    ensures
        agrees_bytes(r, final(tape)@, bytes_spec(old(tape)@, q.deep_view())),
{
    let r = ask(tape, q)?;
    if r.kind == Kind::Done {
        Ok(Some(r.bytes))
    } else {
        Ok(None)
    }
}

/// The hash of the content of a file, if it can be read.
pub open spec fn hash_spec(t: Trace, path: Seq<char>) -> Out<Option<Seq<u8>>> {
    bind(
        bytes_spec(t, at_spec(Act::ReadBytes, path)),
        |content: Option<Seq<u8>>, t: Trace|
            Out::Got(
                match content {
                    Some(b) => Some(blake3_hash(b)),
                    None => None,
                },
                t,
            ),
    )
}

fn fetch_hash(tape: &mut Tape, path: &str) -> (r: Result<Option<Vec<u8>>, Stop>)
    ensures
        agrees_bytes(r, final(tape)@, hash_spec(old(tape)@, path@)),
{
    match fetch_bytes(tape, at(Act::ReadBytes, path))? {
        Some(b) => Ok(Some(content_hash(&b))),
        None => Ok(None),
    }
}

/// The result `r` is what `o` says.
pub open spec fn agrees_bytes(
    r: Result<Option<Vec<u8>>, Stop>,
    t: Trace,
    o: Out<Option<Seq<u8>>>,
) -> bool {
    match r {
        Ok(v) => o == Out::Got(opt_bytes(v), t),
        Err(Stop::Ask(q)) => o == Out::<Option<Seq<u8>>>::Ask(q.deep_view()),
        Err(Stop::Fail(e)) => o == Out::<Option<Seq<u8>>>::Fail(e.deep_view(), t),
    }
}

pub open spec fn xattr_request(path: Seq<char>, name: Seq<char>) -> RequestV {
    request_spec(Act::GetXattr, path, seq![name])
}

#[verifier::opaque]
pub open spec fn get_xattr_spec(t: Trace, path: Seq<char>, name: Seq<char>) -> Out<
    Option<Seq<u8>>,
> {
    bind(
        ask_spec(t, xattr_request(path, name)),
        |r: ReplyV, t: Trace|
            match r.kind {
                Kind::Done => Out::Got(Some(r.bytes), t),
                Kind::Nonzero => Out::Got(None, t),
                _ => Out::Fail(
                    FailureV {
                        chain: seq!["reading xattr "@ + name + " on "@ + path, r.err],
                        command: None,
                    },
                    t,
                ),
            },
    )
}

/// An extended attribute of a file, if it has it.
pub fn get_xattr(tape: &mut Tape, path: &str, name: &str) -> (r: Result<Option<Vec<u8>>, Stop>)
    ensures
        agrees_bytes(r, final(tape)@, get_xattr_spec(old(tape)@, path@, name@)),
{
    reveal(get_xattr_spec);
    let r = ask(tape, request(Act::GetXattr, path, args1(name)))?;
    match r.kind {
        Kind::Done => Ok(Some(r.bytes)),
        Kind::Nonzero => Ok(None),
        _ => {
            let doing = cat4("reading xattr ", name, " on ", path);
            Err(Stop::Fail(Failure { chain: args2(&doing, &r.err), command: None }))
        },
    }
}

#[verifier::opaque]
pub open spec fn set_xattr_spec(
    t: Trace,
    path: Seq<char>,
    name: Seq<char>,
    value: Seq<u8>,
) -> Out<()> {
    bind(
        ask_spec(
            t,
            RequestV { data: value, ..request_spec(Act::SetXattr, path, seq![name]) },
        ),
        |r: ReplyV, t: Trace|
            if r.kind == Kind::Done {
                Out::Got((), t)
            } else {
                Out::Fail(
                    FailureV {
                        chain: seq!["writing xattr "@ + name + " on "@ + path, r.err],
                        command: None,
                    },
                    t,
                )
            },
    )
}

/// Sets an extended attribute of a file.
pub fn set_xattr(tape: &mut Tape, path: &str, name: &str, value: &Vec<u8>) -> (r: Result<(), Stop>)
    ensures
        agrees(r, final(tape)@, set_xattr_spec(old(tape)@, path@, name@, value@)),
{
    reveal(set_xattr_spec);
    let q = request(Act::SetXattr, path, args1(name));
    let r = ask(tape, Request { data: copy_bytes(value), ..q })?;
    if r.kind == Kind::Done {
        Ok(())
    } else {
        let doing = cat4("writing xattr ", name, " on ", path);
        Err(Stop::Fail(Failure { chain: args2(&doing, &r.err), command: None }))
    }
}

// ---------------------------------------------------------------------------
// The guard
// ---------------------------------------------------------------------------

/// A captured path and what was recorded for it.
#[derive(Debug)]
pub struct Finding {
    /// The path in its workspace.
    pub rel: String,
    /// One for each workspace whose file of that path has Finder metadata, in the order of their
    /// capture.
    pub candidates: Vec<Candidate>,
}

pub struct FindingV {
    pub rel: Seq<char>,
    pub candidates: Seq<CandidateV>,
}

impl DeepView for Finding {
    type V = FindingV;

    open spec fn deep_view(&self) -> FindingV {
        FindingV { rel: self.rel@, candidates: self.candidates.deep_view() }
    }
}

/// A hard-linked file and its identity.
#[derive(Debug)]
pub struct HardLink {
    pub ws_name: String,
    pub rel: String,
    pub dev: u64,
    pub ino: u64,
}

pub struct HardLinkV {
    pub ws_name: Seq<char>,
    pub rel: Seq<char>,
    pub dev: u64,
    pub ino: u64,
}

impl DeepView for HardLink {
    type V = HardLinkV;

    open spec fn deep_view(&self) -> HardLinkV {
        HardLinkV { ws_name: self.ws_name@, rel: self.rel@, dev: self.dev, ino: self.ino }
    }
}

/// What was recorded before an operation.
#[derive(Debug)]
pub struct XattrGuard {
    /// Is metadata written back, or only reported?
    pub restore_enabled: bool,
    /// The captured paths, in the order of their capture.
    pub findings: Vec<Finding>,
    /// Hard-linked files, in the order of their capture.
    pub hard_links: Vec<HardLink>,
}

pub struct XattrGuardV {
    pub restore_enabled: bool,
    pub findings: Seq<FindingV>,
    pub hard_links: Seq<HardLinkV>,
}

impl DeepView for XattrGuard {
    type V = XattrGuardV;

    open spec fn deep_view(&self) -> XattrGuardV {
        XattrGuardV {
            restore_enabled: self.restore_enabled,
            findings: self.findings.deep_view(),
            hard_links: self.hard_links.deep_view(),
        }
    }
}

/// What one file adds to the capture.
pub struct CapturedV {
    pub link: Option<HardLinkV>,
    pub candidate: Option<CandidateV>,
}

pub open spec fn captured_view(link: Option<HardLink>, candidate: Option<Candidate>) -> CapturedV {
    CapturedV { link: link.deep_view(), candidate: candidate.deep_view() }
}

pub open spec fn nothing_captured() -> CapturedV {
    CapturedV { link: None, candidate: None }
}

pub open spec fn is_regular(r: ReplyV) -> bool {
    r.kind == Kind::Done && r.stat is Some && r.stat->Some_0.is_file
}

pub open spec fn link_of(ws_name: Seq<char>, rel: Seq<char>, s: FileStat) -> Option<HardLinkV> {
    if s.nlink > 1 {
        Some(HardLinkV { ws_name, rel, dev: s.dev, ino: s.ino })
    } else {
        None
    }
}

/// What is recorded of one file: its identity when it is hard-linked, and its Finder metadata when
/// it has any and its content can be hashed.
#[verifier::opaque]
pub open spec fn capture_file_spec(
    t: Trace,
    ws_name: Seq<char>,
    ws_path: Seq<char>,
    rel: Seq<char>,
) -> Out<CapturedV> {
    let path = path_join_spec(ws_path, rel);
    bind(
        ask_spec(t, at_spec(Act::Stat, path)),
        |s: ReplyV, t: Trace|
            if !is_regular(s) {
                Out::Got(nothing_captured(), t)
            } else {
                let link = link_of(ws_name, rel, s.stat->Some_0);
                bind(
                    bytes_spec(t, xattr_request(path, FINDER_INFO_XATTR@)),
                    |info: Option<Seq<u8>>, t: Trace|
                        bind(
                            bytes_spec(t, xattr_request(path, RESOURCE_FORK_XATTR@)),
                            |fork: Option<Seq<u8>>, t: Trace|
                                if info is None && fork is None {
                                    Out::Got(CapturedV { link, candidate: None }, t)
                                } else {
                                    bind(
                                        hash_spec(t, path),
                                        |hash: Option<Seq<u8>>, t: Trace|
                                            Out::Got(
                                                CapturedV {
                                                    link,
                                                    candidate: match hash {
                                                        None => None,
                                                        Some(h) => Some(
                                                            CandidateV {
                                                                ws_name,
                                                                finder_info: info,
                                                                resource_fork: fork,
                                                                content_hash: h,
                                                                is_alias: info is Some
                                                                    && marks_alias(info->Some_0),
                                                            },
                                                        ),
                                                    },
                                                },
                                                t,
                                            ),
                                    )
                                },
                        ),
                )
            },
    )
}

/// The result `r` is what `o` says.
pub open spec fn agrees_captured(
    r: Result<(Option<HardLink>, Option<Candidate>), Stop>,
    t: Trace,
    o: Out<CapturedV>,
) -> bool {
    match r {
        Ok((l, c)) => o == Out::Got(captured_view(l, c), t),
        Err(Stop::Ask(q)) => o == Out::<CapturedV>::Ask(q.deep_view()),
        Err(Stop::Fail(e)) => o == Out::<CapturedV>::Fail(e.deep_view(), t),
    }
}

fn regular(r: &Reply) -> (x: Option<FileStat>)
    ensures
        match x {
            Some(s) => is_regular(r.deep_view()) && r.stat == Some(s),
            None => !is_regular(r.deep_view()),
        },
{
    if r.kind != Kind::Done {
        return None;
    }
    match r.stat {
        Some(s) => if s.is_file {
            Some(s)
        } else {
            None
        },
        None => None,
    }
}

fn capture_file(tape: &mut Tape, ws_name: &str, ws_path: &str, rel: &str) -> (r: Result<
    (Option<HardLink>, Option<Candidate>),
    Stop,
>)
    ensures
        agrees_captured(
            r,
            final(tape)@,
            capture_file_spec(old(tape)@, ws_name@, ws_path@, rel@),
        ),
{
    reveal(capture_file_spec);
    let path = path_join(ws_path, rel);
    let s = ask(tape, at(Act::Stat, &path))?;
    let stat = match regular(&s) {
        Some(x) => x,
        None => {
            return Ok((None, None));
        },
    };
    let link = if stat.nlink > 1 {
        Some(
            HardLink {
                ws_name: ws_name.to_string(),
                rel: rel.to_string(),
                dev: stat.dev,
                ino: stat.ino,
            },
        )
    } else {
        None
    };
    let info = fetch_bytes(tape, request(Act::GetXattr, &path, args1(FINDER_INFO_XATTR)))?;
    let fork = fetch_bytes(tape, request(Act::GetXattr, &path, args1(RESOURCE_FORK_XATTR)))?;
    if info.is_none() && fork.is_none() {
        return Ok((link, None));
    }
    match fetch_hash(tape, &path)? {
        None => Ok((link, None)),
        Some(h) => {
            let is_alias = match &info {
                Some(i) => finder_info_marks_alias(i.as_slice()),
                None => false,
            };
            let c = Candidate {
                ws_name: ws_name.to_string(),
                finder_info: info,
                resource_fork: fork,
                content_hash: h,
                is_alias,
            };
            Ok((link, Some(c)))
        },
    }
}

/// `links` with `l` in place of an earlier entry for the same file.
pub open spec fn put_link(links: Seq<HardLinkV>, l: HardLinkV) -> Seq<HardLinkV> {
    other_links(links, l.ws_name, l.rel).push(l)
}

pub open spec fn other_links(links: Seq<HardLinkV>, ws_name: Seq<char>, rel: Seq<char>) -> Seq<
    HardLinkV,
>
    decreases links.len(),
{
    if links.len() == 0 {
        links
    } else if links.last().ws_name == ws_name && links.last().rel == rel {
        other_links(links.drop_last(), ws_name, rel)
    } else {
        other_links(links.drop_last(), ws_name, rel).push(links.last())
    }
}

fn add_link(links: &Vec<HardLink>, l: HardLink) -> (r: Vec<HardLink>)
    ensures
        r.deep_view() == put_link(links.deep_view(), l.deep_view()),
{
    let ghost all = links.deep_view();
    let ghost x = l.deep_view();
    let mut out: Vec<HardLink> = Vec::new();
    assert(out.deep_view() =~= other_links(all.take(0), x.ws_name, x.rel));
    for i in 0..links.len()
        invariant
            all == links.deep_view(),
            x == l.deep_view(),
            out.deep_view() == other_links(all.take(i as int), x.ws_name, x.rel),
    {
        let ghost before = out.deep_view();
        let k = &links[i];
        assert(all.take(i + 1).drop_last() =~= all.take(i as int));
        assert(all.take(i + 1).last() == k.deep_view());
        if !(same(&k.ws_name, &l.ws_name) && same(&k.rel, &l.rel)) {
            out.push(
                HardLink {
                    ws_name: k.ws_name.clone(),
                    rel: k.rel.clone(),
                    dev: k.dev,
                    ino: k.ino,
                },
            );
            assert(out.deep_view() =~= before.push(k.deep_view()));
        }
    }
    assert(all.take(all.len() as int) =~= all);
    let ghost before = out.deep_view();
    out.push(l);
    assert(out.deep_view() =~= before.push(x));
    out
}

/// Where the finding for `rel` is; behind the last one where there is none.
pub open spec fn finding_at(fs: Seq<FindingV>, rel: Seq<char>) -> nat
    decreases fs.len(),
{
    if fs.len() == 0 || fs[0].rel == rel {
        0
    } else {
        1 + finding_at(fs.drop_first(), rel)
    }
}

fn find_finding(fs: &Vec<Finding>, rel: &str) -> (r: usize)
    ensures
        r == finding_at(fs.deep_view(), rel@),
        r <= fs@.len(),
{
    let ghost all = fs.deep_view();
    let n = fs.len();
    let mut i: usize = 0;
    assert(all.skip(0) =~= all);
    while i < n && !same(&fs[i].rel, rel)
        invariant
            all == fs.deep_view(),
            n == fs@.len(),
            i <= n,
            finding_at(all, rel@) == i + finding_at(all.skip(i as int), rel@),
        decreases n - i,
    {
        proof {
            lemma_each_step(all, i as int);
        }
        i = i + 1;
    }
    assert(i < n ==> all.skip(i as int)[0].rel == fs@[i as int].rel@);
    i
}

/// `fs` with one more candidate for `rel`.
pub open spec fn put_candidate(fs: Seq<FindingV>, rel: Seq<char>, c: CandidateV) -> Seq<FindingV> {
    let i = finding_at(fs, rel) as int;
    if i < fs.len() {
        fs.update(i, FindingV { rel: fs[i].rel, candidates: fs[i].candidates.push(c) })
    } else {
        fs.push(FindingV { rel, candidates: seq![c] })
    }
}

fn add_candidate(findings: &mut Vec<Finding>, rel: &str, c: Candidate)
    ensures
        final(findings).deep_view() == put_candidate(
            old(findings).deep_view(),
            rel@,
            c.deep_view(),
        ),
{
    let ghost before = findings.deep_view();
    let ghost x = c.deep_view();
    let i = find_finding(findings, rel);
    if i < findings.len() {
        let ghost had = findings@[i as int].candidates.deep_view();
        findings[i].candidates.push(c);
        assert(findings@[i as int].candidates.deep_view() =~= had.push(x));
        assert(findings.deep_view() =~= put_candidate(before, rel@, x));
    } else {
        let mut candidates: Vec<Candidate> = Vec::new();
        candidates.push(c);
        assert(candidates.deep_view() =~= seq![x]);
        findings.push(Finding { rel: rel.to_string(), candidates });
        assert(findings.deep_view() =~= put_candidate(before, rel@, x));
    }
}

pub open spec fn with_captured(g: XattrGuardV, rel: Seq<char>, c: CapturedV) -> XattrGuardV {
    XattrGuardV {
        restore_enabled: g.restore_enabled,
        findings: match c.candidate {
            Some(x) => put_candidate(g.findings, rel, x),
            None => g.findings,
        },
        hard_links: match c.link {
            Some(l) => put_link(g.hard_links, l),
            None => g.hard_links,
        },
    }
}

pub open spec fn file_step(ws_name: Seq<char>, ws_path: Seq<char>) -> spec_fn(
    Trace,
    XattrGuardV,
    Seq<char>,
) -> Out<XattrGuardV> {
    |t: Trace, g: XattrGuardV, rel: Seq<char>|
        bind(
            capture_file_spec(t, ws_name, ws_path, rel),
            |c: CapturedV, t: Trace| Out::Got(with_captured(g, rel, c), t),
        )
}

/// What one workspace adds: its files, if they can be listed.
#[verifier::opaque]
pub open spec fn capture_ws_spec(
    t: Trace,
    g: XattrGuardV,
    ws_name: Seq<char>,
    ws_path: Seq<char>,
) -> Out<XattrGuardV> {
    bind(
        attempt_spec(tracked_files_spec(t, ws_path)),
        |r: Result<Seq<Seq<char>>, FailureV>, t: Trace|
            match r {
                Err(_) => Out::Got(g, t),
                Ok(files) => each(t, files, g, file_step(ws_name, ws_path)),
            },
    )
}

fn capture_files(
    tape: &mut Tape,
    start: XattrGuard,
    ws_name: &str,
    ws_path: &str,
    files: &Vec<String>,
) -> (r: Result<XattrGuard, Stop>)
    ensures
        agrees(
            r,
            final(tape)@,
            each(
                old(tape)@,
                files.deep_view(),
                start.deep_view(),
                file_step(ws_name@, ws_path@),
            ),
        ),
{
    let ghost g0 = start.deep_view();
    let mut guard = start;
    let ghost t0 = tape@;
    let ghost all = files.deep_view();
    let ghost step = file_step(ws_name@, ws_path@);
    assert(all.skip(0) =~= all);
    for i in 0..files.len()
        invariant
            t0 == old(tape)@,
            all == files.deep_view(),
            step == file_step(ws_name@, ws_path@),
            g0 == start.deep_view(),
            each(t0, all, g0, step) == each(tape@, all.skip(i as int), guard.deep_view(), step),
    {
        proof {
            lemma_each_step(all, i as int);
        }
        assert(all[i as int] == files@[i as int]@);
        let ghost before = guard.deep_view();
        let (link, candidate) = capture_file(tape, ws_name, ws_path, &files[i])?;
        let ghost c = captured_view(link, candidate);
        let hard_links = match link {
            Some(l) => add_link(&guard.hard_links, l),
            None => guard.hard_links,
        };
        let mut findings = guard.findings;
        if let Some(x) = candidate {
            add_candidate(&mut findings, &files[i], x);
        }
        guard = XattrGuard { restore_enabled: guard.restore_enabled, findings, hard_links };
        assert(guard.deep_view() == with_captured(before, files@[i as int]@, c));
    }
    Ok(guard)
}

fn capture_ws(tape: &mut Tape, guard: XattrGuard, ws_name: &str, ws_path: &str) -> (r: Result<
    XattrGuard,
    Stop,
>)
    ensures
        agrees(
            r,
            final(tape)@,
            capture_ws_spec(old(tape)@, guard.deep_view(), ws_name@, ws_path@),
        ),
{
    reveal(capture_ws_spec);
    match attempt(tracked_files(tape, ws_path))? {
        Err(_) => Ok(guard),
        Ok(files) => capture_files(tape, guard, ws_name, ws_path, &files),
    }
}

pub open spec fn ws_step() -> spec_fn(Trace, XattrGuardV, (Seq<char>, Seq<char>)) -> Out<
    XattrGuardV,
> {
    |t: Trace, g: XattrGuardV, w: (Seq<char>, Seq<char>)| capture_ws_spec(t, g, w.0, w.1)
}

pub open spec fn empty_guard(restore_enabled: bool) -> XattrGuardV {
    XattrGuardV { restore_enabled, findings: Seq::empty(), hard_links: Seq::empty() }
}

/// The capture over all workspaces. What cannot be read is left out.
#[verifier::opaque]
pub open spec fn capture_spec(t: Trace, ws_paths: Pairs, restore_enabled: bool) -> Out<
    XattrGuardV,
> {
    each(t, ws_paths, empty_guard(restore_enabled), ws_step())
}

// ---------------------------------------------------------------------------
// Restoring
// ---------------------------------------------------------------------------

pub open spec fn at_file(ws_name: Seq<char>, rel: Seq<char>) -> Seq<char> {
    ws_name + ":"@ + rel
}

fn file_label(ws_name: &str, rel: &str) -> (r: String)
    ensures
        r@ == at_file(ws_name@, rel@),
{
    cat3(ws_name, ":", rel)
}

/// Writes one attribute back; a failure becomes a warning.
#[verifier::opaque]
pub open spec fn put_back_spec(
    t: Trace,
    path: Seq<char>,
    label: Seq<char>,
    name: Seq<char>,
    value: Option<Seq<u8>>,
) -> Out<Seq<Seq<char>>> {
    match value {
        None => Out::Got(Seq::empty(), t),
        Some(v) => bind(
            attempt_spec(set_xattr_spec(t, path, name, v)),
            |r: Result<(), FailureV>, t: Trace|
                Out::Got(
                    match r {
                        Ok(_) => Seq::empty(),
                        Err(e) => seq![
                            "finder metadata restore failed: "@ + label + ": "@ + render_spec(e),
                        ],
                    },
                    t,
                ),
        ),
    }
}

fn no_texts() -> (r: Vec<String>)
    ensures
        r.deep_view() == Seq::<Seq<char>>::empty(),
{
    let v: Vec<String> = Vec::new();
    assert(v.deep_view() =~= Seq::<Seq<char>>::empty());
    v
}

fn put_back(tape: &mut Tape, path: &str, label: &str, name: &str, value: &Option<Vec<u8>>) -> (r:
    Result<Vec<String>, Stop>)
    ensures
        agrees(
            r,
            final(tape)@,
            put_back_spec(old(tape)@, path@, label@, name@, opt_bytes(*value)),
        ),
{
    reveal(put_back_spec);
    match value {
        None => Ok(no_texts()),
        Some(v) => match attempt(set_xattr(tape, path, name, v))? {
            Ok(()) => Ok(no_texts()),
            Err(e) => {
                let msg = cat4("finder metadata restore failed: ", label, ": ", &e.render());
                Ok(args1(&msg))
            },
        },
    }
}

/// Restores the metadata of a candidate on a file, or says that it was not wanted.
#[verifier::opaque]
pub open spec fn apply_spec(
    t: Trace,
    enabled: bool,
    path: Seq<char>,
    label: Seq<char>,
    c: CandidateV,
    finder_info_only: bool,
) -> Out<Seq<Seq<char>>> {
    if !enabled {
        Out::Got(
            seq!["finder metadata not restored (preserve-finder-xattrs = false): "@ + label],
            t,
        )
    } else {
        bind(
            put_back_spec(t, path, label, FINDER_INFO_XATTR@, c.finder_info),
            |a: Seq<Seq<char>>, t: Trace|
                if finder_info_only {
                    Out::Got(a, t)
                } else {
                    bind(
                        put_back_spec(t, path, label, RESOURCE_FORK_XATTR@, c.resource_fork),
                        |b: Seq<Seq<char>>, t: Trace| Out::Got(a + b, t),
                    )
                },
        )
    }
}

fn apply(
    tape: &mut Tape,
    enabled: bool,
    path: &str,
    label: &str,
    c: &Candidate,
    finder_info_only: bool,
) -> (r: Result<Vec<String>, Stop>)
    ensures
        agrees(
            r,
            final(tape)@,
            apply_spec(old(tape)@, enabled, path@, label@, c.deep_view(), finder_info_only),
        ),
{
    reveal(apply_spec);
    if !enabled {
        let msg = cat2(
            "finder metadata not restored (preserve-finder-xattrs = false): ",
            label,
        );
        return Ok(args1(&msg));
    }
    let a = put_back(tape, path, label, FINDER_INFO_XATTR, &c.finder_info)?;
    if finder_info_only {
        return Ok(a);
    }
    let b = put_back(tape, path, label, RESOURCE_FORK_XATTR, &c.resource_fork)?;
    Ok(chain(a, b))
}

/// The candidates for `rel`, in the order of their capture.
pub open spec fn candidates_for(fs: Seq<FindingV>, rel: Seq<char>) -> Seq<CandidateV> {
    let i = finding_at(fs, rel) as int;
    if i < fs.len() {
        fs[i].candidates
    } else {
        Seq::empty()
    }
}

fn gather(fs: &Vec<Finding>, rel: &str) -> (r: Vec<Candidate>)
    ensures
        r.deep_view() == candidates_for(fs.deep_view(), rel@),
{
    let ghost want = candidates_for(fs.deep_view(), rel@);
    let mut out: Vec<Candidate> = Vec::new();
    assert(out.deep_view() =~= want.take(0));
    let k = find_finding(fs, rel);
    if k < fs.len() {
        let cs = &fs[k].candidates;
        assert(cs.deep_view() == want);
        for i in 0..cs.len()
            invariant
                cs.deep_view() == want,
                out.deep_view() == want.take(i as int),
        {
            let ghost before = out.deep_view();
            let c = cs[i].copy();
            let ghost x = c.deep_view();
            out.push(c);
            assert(out.deep_view() =~= before.push(x));
            assert(want[i as int] == cs@[i as int].deep_view());
            assert(want.take(i + 1) =~= want.take(i as int).push(want[i as int]));
        }
        assert(want.take(cs@.len() as int) =~= want);
    } else {
        assert(want.take(0) =~= want);
    }
    out
}

/// Bookmark data without a mark that could be restored.
pub open spec fn lost_alias(label: Seq<char>) -> Seq<char> {
    "finder alias: "@ + label
        + " has bookmark data but no restorable Finder metadata (alias flag lost)"@
}

/// What to do with a file that an operation rewrote and whose content is known.
pub enum PlanV {
    /// All metadata of a candidate with the same content.
    Full(CandidateV),
    /// The alias mark alone: the data is bookmark data, and not that of a candidate.
    Mark(CandidateV),
    /// Bookmark data for which nothing was recorded.
    Lost,
    /// A file of another kind.
    Leave,
}

/// The plan for a file, from the start of its content and, where candidates exist, its hash.
pub open spec fn file_plan(
    cs: Seq<CandidateV>,
    ws_name: Seq<char>,
    prefix: Seq<u8>,
    hash: Option<Seq<u8>>,
) -> PlanV {
    let exact = match hash {
        Some(h) => prefer_own(cs, ws_name, has_hash(h)),
        None => None,
    };
    match exact {
        Some(c) => PlanV::Full(c),
        None => if prefix == bookmark_magic() {
            match prefer_own(cs, ws_name, gives_alias()) {
                Some(c) => PlanV::Mark(c),
                None => PlanV::Lost,
            }
        } else {
            PlanV::Leave
        },
    }
}

/// What becomes of a file whose metadata was lost.
#[derive(Debug)]
pub enum Plan<'a> {
    Full(&'a Candidate),
    Mark(&'a Candidate),
    Lost,
    Leave,
}

impl<'a> DeepView for Plan<'a> {
    type V = PlanV;

    open spec fn deep_view(&self) -> PlanV {
        match *self {
            Plan::Full(c) => PlanV::Full(c.deep_view()),
            Plan::Mark(c) => PlanV::Mark(c.deep_view()),
            Plan::Lost => PlanV::Lost,
            Plan::Leave => PlanV::Leave,
        }
    }
}

/// The plan for a file, from the start of its content and, where candidates exist, its hash.
pub fn plan_file<'a>(
    cs: &'a Vec<Candidate>,
    ws_name: &str,
    prefix: &Vec<u8>,
    hash: Option<Vec<u8>>,
) -> (r: Plan<'a>)
    ensures
        r.deep_view() == file_plan(
            cs.deep_view(),
            ws_name@,
            prefix@,
            match hash {
                Some(h) => Some(h@),
                None => None,
            },
        ),
{
    if let Some(h) = hash {
        if let Some(c) = pick_exact(cs, ws_name, &h) {
            return Plan::Full(c);
        }
    }
    if same_bytes(prefix, &magic()) {
        match pick_alias(cs, ws_name) {
            Some(c) => Plan::Mark(c),
            None => Plan::Lost,
        }
    } else {
        Plan::Leave
    }
}

pub open spec fn carry_out_spec(
    t: Trace,
    enabled: bool,
    path: Seq<char>,
    label: Seq<char>,
    plan: PlanV,
) -> Out<Seq<Seq<char>>> {
    match plan {
        PlanV::Full(c) => apply_spec(t, enabled, path, label, c, false),
        PlanV::Mark(c) => apply_spec(t, enabled, path, label, c, true),
        PlanV::Lost => Out::Got(seq![lost_alias(label)], t),
        PlanV::Leave => Out::Got(Seq::empty(), t),
    }
}

fn carry_out(tape: &mut Tape, enabled: bool, path: &str, label: &str, plan: Plan) -> (r: Result<
    Vec<String>,
    Stop,
>)
    ensures
        agrees(
            r,
            final(tape)@,
            carry_out_spec(old(tape)@, enabled, path@, label@, plan.deep_view()),
        ),
{
    match plan {
        Plan::Full(c) => apply(tape, enabled, path, label, c, false),
        Plan::Mark(c) => apply(tape, enabled, path, label, c, true),
        Plan::Lost => {
            let msg = cat3(
                "finder alias: ",
                label,
                " has bookmark data but no restorable Finder metadata (alias flag lost)",
            );
            Ok(args1(&msg))
        },
        Plan::Leave => Ok(no_texts()),
    }
}

/// A file that has other content than every candidate and does not start like bookmark data gets no
/// metadata; and the resource fork goes only to a file with the very content it was recorded with.
pub proof fn law_restore_fits_content(
    cs: Seq<CandidateV>,
    ws_name: Seq<char>,
    prefix: Seq<u8>,
    hash: Option<Seq<u8>>,
)
    ensures
        file_plan(cs, ws_name, prefix, hash) matches PlanV::Full(c) ==> hash == Some(c.content_hash)
            && cs.contains(c),
        file_plan(cs, ws_name, prefix, hash) matches PlanV::Mark(c) ==> prefix == bookmark_magic()
            && c.is_alias && c.finder_info is Some && cs.contains(c),
        file_plan(cs, ws_name, prefix, hash) is Lost ==> prefix == bookmark_magic(),
{
    if let Some(h) = hash {
        law_pick(cs, ws_name, has_hash(h), 0);
    }
    law_pick(cs, ws_name, gives_alias(), 0);
}

/// Restores one file: a regular one that has lost its Finder information.
#[verifier::opaque]
pub open spec fn process_file_spec(
    t: Trace,
    g: XattrGuardV,
    ws_name: Seq<char>,
    ws_path: Seq<char>,
    rel: Seq<char>,
) -> Out<Seq<Seq<char>>> {
    let path = path_join_spec(ws_path, rel);
    let cs = candidates_for(g.findings, rel);
    let label = at_file(ws_name, rel);
    bind(
        ask_spec(t, at_spec(Act::Stat, path)),
        |s: ReplyV, t: Trace|
            if !is_regular(s) {
                Out::Got(Seq::empty(), t)
            } else {
                bind(
                    bytes_spec(t, xattr_request(path, FINDER_INFO_XATTR@)),
                    |info: Option<Seq<u8>>, t: Trace|
                        if info is Some {
                            Out::Got(Seq::empty(), t)
                        } else {
                            bind(
                                bytes_spec(
                                    t,
                                    request_spec(Act::ReadPrefix, path, seq![MAGIC_LEN@]),
                                ),
                                |prefix: Option<Seq<u8>>, t: Trace|
                                    match prefix {
                                        None => Out::Got(Seq::empty(), t),
                                        Some(p) => if cs.len() == 0 {
                                            carry_out_spec(
                                                t,
                                                g.restore_enabled,
                                                path,
                                                label,
                                                file_plan(cs, ws_name, p, None),
                                            )
                                        } else {
                                            bind(
                                                hash_spec(t, path),
                                                |hash: Option<Seq<u8>>, t: Trace|
                                                    match hash {
                                                        None => Out::Got(Seq::empty(), t),
                                                        Some(h) => carry_out_spec(
                                                            t,
                                                            g.restore_enabled,
                                                            path,
                                                            label,
                                                            file_plan(cs, ws_name, p, Some(h)),
                                                        ),
                                                    },
                                            )
                                        },
                                    },
                            )
                        },
                )
            },
    )
}

fn process_file(tape: &mut Tape, g: &XattrGuard, ws_name: &str, ws_path: &str, rel: &str) -> (r:
    Result<Vec<String>, Stop>)
    ensures
        agrees(
            r,
            final(tape)@,
            process_file_spec(old(tape)@, g.deep_view(), ws_name@, ws_path@, rel@),
        ),
{
    reveal(process_file_spec);
    let path = path_join(ws_path, rel);
    let cs = gather(&g.findings, rel);
    assert(cs.deep_view().len() == cs@.len());
    let label = file_label(ws_name, rel);
    let s = ask(tape, at(Act::Stat, &path))?;
    if regular(&s).is_none() {
        return Ok(no_texts());
    }
    let info = fetch_bytes(tape, request(Act::GetXattr, &path, args1(FINDER_INFO_XATTR)))?;
    if info.is_some() {
        return Ok(no_texts());
    }
    let prefix = match fetch_bytes(tape, request(Act::ReadPrefix, &path, args1(MAGIC_LEN)))? {
        Some(p) => p,
        None => {
            return Ok(no_texts());
        },
    };
    let hash = if cs.len() == 0 {
        None
    } else {
        match fetch_hash(tape, &path)? {
            None => {
                return Ok(no_texts());
            },
            Some(h) => Some(h),
        }
    };
    let plan = plan_file(&cs, ws_name, &prefix, hash);
    carry_out(tape, g.restore_enabled, &path, &label, plan)
}

pub open spec fn broken_link(label: Seq<char>) -> Seq<char> {
    "hard link broken: "@ + label
        + " is now an independent file (jj cannot represent hard links)"@
}

fn hard_link_warning(ws_name: &str, rel: &str) -> (r: String)
    ensures
        r@ == broken_link(at_file(ws_name@, rel@)),
{
    let label = file_label(ws_name, rel);
    cat3(
        "hard link broken: ",
        &label,
        " is now an independent file (jj cannot represent hard links)",
    )
}

/// `s` without elements that equal the one before them.
pub open spec fn dedup_spec(s: Seq<Seq<char>>) -> Seq<Seq<char>>
    decreases s.len(),
{
    if s.len() <= 1 {
        s
    } else if s[s.len() - 2] == s.last() {
        dedup_spec(s.drop_last())
    } else {
        dedup_spec(s.drop_last()).push(s.last())
    }
}

fn dedup(v: &Vec<String>) -> (r: Vec<String>)
    ensures
        r.deep_view() == dedup_spec(v.deep_view()),
{
    let ghost all = v.deep_view();
    let mut out: Vec<String> = Vec::new();
    assert(out.deep_view() =~= dedup_spec(all.take(0)));
    for i in 0..v.len()
        invariant
            all == v.deep_view(),
            out.deep_view() == dedup_spec(all.take(i as int)),
    {
        let ghost before = out.deep_view();
        assert(all.take(i + 1).drop_last() =~= all.take(i as int));
        assert(all.take(i + 1).last() == v@[i as int]@);
        assert(i > 0 ==> all.take(i + 1)[i - 1] == v@[i - 1]@);
        if i == 0 || !same(&v[i - 1], &v[i]) {
            out.push(v[i].clone());
            assert(out.deep_view() =~= before.push(v@[i as int]@));
            assert(i == 0 ==> all.take(1) =~= before.push(v@[0]@));
        }
    }
    assert(all.take(all.len() as int) =~= all);
    out
}

/// Warnings in order, each once.
pub open spec fn finished(w: Seq<Seq<char>>) -> Seq<Seq<char>> {
    dedup_spec(sort_texts_spec(w))
}

fn finish_warnings(w: &Vec<String>) -> (r: Vec<String>)
    ensures
        r.deep_view() == finished(w.deep_view()),
{
    dedup(&sort_texts(w))
}

pub open spec fn rels_of(fs: Seq<FindingV>) -> Seq<Seq<char>> {
    fs.map_values(|f: FindingV| f.rel)
}

fn all_rels(fs: &Vec<Finding>) -> (r: Vec<String>)
    ensures
        r.deep_view() == rels_of(fs.deep_view()),
{
    let ghost all = rels_of(fs.deep_view());
    let mut out: Vec<String> = Vec::new();
    for i in 0..fs.len()
        invariant
            all == rels_of(fs.deep_view()),
            out.deep_view() == all.take(i as int),
    {
        let ghost before = out.deep_view();
        out.push(fs[i].rel.clone());
        assert(out.deep_view() =~= before.push(fs@[i as int].rel@));
        assert(all.take(i + 1) =~= all.take(i as int).push(all[i as int]));
    }
    assert(all.take(fs@.len() as int) =~= all);
    out
}

pub open spec fn process_step(g: XattrGuardV, ws_name: Seq<char>, ws_path: Seq<char>) -> spec_fn(
    Trace,
    Seq<Seq<char>>,
    Seq<char>,
) -> Out<Seq<Seq<char>>> {
    |t: Trace, w: Seq<Seq<char>>, rel: Seq<char>|
        bind(
            process_file_spec(t, g, ws_name, ws_path, rel),
            |more: Seq<Seq<char>>, t: Trace| Out::Got(w + more, t),
        )
}

fn process_all(
    tape: &mut Tape,
    g: &XattrGuard,
    ws_name: &str,
    ws_path: &str,
    rels: &Vec<String>,
    warnings: Vec<String>,
) -> (r: Result<Vec<String>, Stop>)
    ensures
        agrees(
            r,
            final(tape)@,
            each(
                old(tape)@,
                rels.deep_view(),
                warnings.deep_view(),
                process_step(g.deep_view(), ws_name@, ws_path@),
            ),
        ),
{
    let ghost w0 = warnings.deep_view();
    let mut w = warnings;
    let ghost t0 = tape@;
    let ghost all = rels.deep_view();
    let ghost step = process_step(g.deep_view(), ws_name@, ws_path@);
    assert(all.skip(0) =~= all);
    for i in 0..rels.len()
        invariant
            t0 == old(tape)@,
            all == rels.deep_view(),
            step == process_step(g.deep_view(), ws_name@, ws_path@),
            w0 == warnings.deep_view(),
            each(t0, all, w0, step) == each(tape@, all.skip(i as int), w.deep_view(), step),
    {
        proof {
            lemma_each_step(all, i as int);
        }
        assert(all[i as int] == rels@[i as int]@);
        let more = process_file(tape, g, ws_name, ws_path, &rels[i])?;
        w = chain(w, more);
    }
    Ok(w)
}

pub open spec fn restore_ws_step(g: XattrGuardV, rels: Seq<Seq<char>>) -> spec_fn(
    Trace,
    Seq<Seq<char>>,
    (Seq<char>, Seq<char>),
) -> Out<Seq<Seq<char>>> {
    |t: Trace, w: Seq<Seq<char>>, ws: (Seq<char>, Seq<char>)|
        each(t, rels, w, process_step(g, ws.0, ws.1))
}

/// The path of the first workspace called `name`.
pub open spec fn path_named(ws_paths: Pairs, name: Seq<char>) -> Option<Seq<char>>
    decreases ws_paths.len(),
{
    if ws_paths.len() == 0 {
        None
    } else if ws_paths[0].0 == name {
        Some(ws_paths[0].1)
    } else {
        path_named(ws_paths.drop_first(), name)
    }
}

fn find_path(ws_paths: &Vec<(String, String)>, name: &str) -> (r: Option<String>)
    ensures
        r.deep_view() == path_named(ws_paths.deep_view(), name@),
{
    let ghost all = ws_paths.deep_view();
    assert(all.skip(0) =~= all);
    for i in 0..ws_paths.len()
        invariant
            all == ws_paths.deep_view(),
            path_named(all, name@) == path_named(all.skip(i as int), name@),
    {
        proof {
            lemma_each_step(all, i as int);
        }
        assert(all[i as int] == (ws_paths@[i as int].0@, ws_paths@[i as int].1@));
        if same(&ws_paths[i].0, name) {
            return Some(ws_paths[i].1.clone());
        }
    }
    None
}

/// Is a hard-linked file another one now, or the only one of its name?
pub open spec fn severed(l: HardLinkV, r: ReplyV) -> bool {
    is_regular(r) && (r.stat->Some_0.dev != l.dev || r.stat->Some_0.ino != l.ino
        || r.stat->Some_0.nlink == 1)
}

pub open spec fn link_step(ws_paths: Pairs) -> spec_fn(Trace, Seq<Seq<char>>, HardLinkV) -> Out<
    Seq<Seq<char>>,
> {
    |t: Trace, w: Seq<Seq<char>>, l: HardLinkV|
        match path_named(ws_paths, l.ws_name) {
            None => Out::Got(w, t),
            Some(p) => bind(
                ask_spec(t, at_spec(Act::Stat, path_join_spec(p, l.rel))),
                |r: ReplyV, t: Trace|
                    Out::Got(
                        if severed(l, r) {
                            w.push(broken_link(at_file(l.ws_name, l.rel)))
                        } else {
                            w
                        },
                        t,
                    ),
            ),
        }
}

fn check_links(
    tape: &mut Tape,
    links: &Vec<HardLink>,
    ws_paths: &Vec<(String, String)>,
    warnings: Vec<String>,
) -> (r: Result<Vec<String>, Stop>)
    ensures
        agrees(
            r,
            final(tape)@,
            each(
                old(tape)@,
                links.deep_view(),
                warnings.deep_view(),
                link_step(ws_paths.deep_view()),
            ),
        ),
{
    let ghost w0 = warnings.deep_view();
    let mut w = warnings;
    let ghost t0 = tape@;
    let ghost all = links.deep_view();
    let ghost step = link_step(ws_paths.deep_view());
    assert(all.skip(0) =~= all);
    for i in 0..links.len()
        invariant
            t0 == old(tape)@,
            all == links.deep_view(),
            step == link_step(ws_paths.deep_view()),
            w0 == warnings.deep_view(),
            each(t0, all, w0, step) == each(tape@, all.skip(i as int), w.deep_view(), step),
    {
        proof {
            lemma_each_step(all, i as int);
        }
        assert(all[i as int] == links@[i as int].deep_view());
        let ghost before = w.deep_view();
        let l = &links[i];
        if let Some(p) = find_path(ws_paths, &l.ws_name) {
            let r = ask(tape, at(Act::Stat, &path_join(&p, &l.rel)))?;
            if let Some(s) = regular(&r) {
                if s.dev != l.dev || s.ino != l.ino || s.nlink == 1 {
                    let msg = hard_link_warning(&l.ws_name, &l.rel);
                    w.push(msg);
                    assert(w.deep_view() =~= before.push(msg@));
                }
            }
        }
    }
    Ok(w)
}

/// Restores every listed workspace, then looks at the hard links.
#[verifier::opaque]
pub open spec fn restore_spec(t: Trace, g: XattrGuardV, ws_paths: Pairs) -> Out<Seq<Seq<char>>> {
    let rels = finished(rels_of(g.findings));
    bind(
        each(t, ws_paths, Seq::<Seq<char>>::empty(), restore_ws_step(g, rels)),
        |w: Seq<Seq<char>>, t: Trace|
            bind(
                each(t, g.hard_links, w, link_step(ws_paths)),
                |w: Seq<Seq<char>>, t: Trace| Out::Got(finished(w), t),
            ),
    )
}

fn restore_all(
    tape: &mut Tape,
    g: &XattrGuard,
    ws_paths: &Vec<(String, String)>,
    rels: &Vec<String>,
) -> (r: Result<Vec<String>, Stop>)
    ensures
        agrees(
            r,
            final(tape)@,
            each(
                old(tape)@,
                ws_paths.deep_view(),
                Seq::<Seq<char>>::empty(),
                restore_ws_step(g.deep_view(), rels.deep_view()),
            ),
        ),
{
    let mut w = no_texts();
    let ghost t0 = tape@;
    let ghost all = ws_paths.deep_view();
    let ghost step = restore_ws_step(g.deep_view(), rels.deep_view());
    assert(all.skip(0) =~= all);
    for i in 0..ws_paths.len()
        invariant
            t0 == old(tape)@,
            all == ws_paths.deep_view(),
            step == restore_ws_step(g.deep_view(), rels.deep_view()),
            each(t0, all, Seq::<Seq<char>>::empty(), step) == each(tape@, all.skip(i as int), w.deep_view(), step),
    {
        proof {
            lemma_each_step(all, i as int);
        }
        assert(all[i as int] == (ws_paths@[i as int].0@, ws_paths@[i as int].1@));
        w = process_all(tape, g, &ws_paths[i].0, &ws_paths[i].1, rels, w)?;
    }
    Ok(w)
}

pub open spec fn new_link_step(ws_name: Seq<char>, ws_path: Seq<char>) -> spec_fn(
    Trace,
    Seq<Seq<char>>,
    HardLinkV,
) -> Out<Seq<Seq<char>>> {
    |t: Trace, w: Seq<Seq<char>>, l: HardLinkV|
        bind(
            ask_spec(t, at_spec(Act::Stat, path_join_spec(ws_path, l.rel))),
            |r: ReplyV, t: Trace|
                Out::Got(
                    if is_regular(r) {
                        w.push(broken_link(at_file(ws_name, l.rel)))
                    } else {
                        w
                    },
                    t,
                ),
        )
}

fn check_new_links(
    tape: &mut Tape,
    links: &Vec<HardLink>,
    ws_name: &str,
    ws_path: &str,
    warnings: Vec<String>,
) -> (r: Result<Vec<String>, Stop>)
    ensures
        agrees(
            r,
            final(tape)@,
            each(
                old(tape)@,
                links.deep_view(),
                warnings.deep_view(),
                new_link_step(ws_name@, ws_path@),
            ),
        ),
{
    let ghost w0 = warnings.deep_view();
    let mut w = warnings;
    let ghost t0 = tape@;
    let ghost all = links.deep_view();
    let ghost step = new_link_step(ws_name@, ws_path@);
    assert(all.skip(0) =~= all);
    for i in 0..links.len()
        invariant
            t0 == old(tape)@,
            all == links.deep_view(),
            step == new_link_step(ws_name@, ws_path@),
            w0 == warnings.deep_view(),
            each(t0, all, w0, step) == each(tape@, all.skip(i as int), w.deep_view(), step),
    {
        proof {
            lemma_each_step(all, i as int);
        }
        assert(all[i as int] == links@[i as int].deep_view());
        let ghost before = w.deep_view();
        let r = ask(tape, at(Act::Stat, &path_join(ws_path, &links[i].rel)))?;
        if regular(&r).is_some() {
            let msg = hard_link_warning(ws_name, &links[i].rel);
            w.push(msg);
            assert(w.deep_view() =~= before.push(msg@));
        }
    }
    Ok(w)
}

/// Restores a new workspace: all its files were just written, so that each is looked at.
#[verifier::opaque]
pub open spec fn restore_new_spec(
    t: Trace,
    g: XattrGuardV,
    ws_name: Seq<char>,
    ws_path: Seq<char>,
) -> Out<Seq<Seq<char>>> {
    bind(
        attempt_spec(tracked_files_spec(t, ws_path)),
        |r: Result<Seq<Seq<char>>, FailureV>, t: Trace|
            {
                let files = match r {
                    Ok(v) => v,
                    Err(_) => Seq::empty(),
                };
                let rels = finished(rels_of(g.findings) + files);
                bind(
                    each(
                        t,
                        rels,
                        Seq::<Seq<char>>::empty(),
                        process_step(g, ws_name, ws_path),
                    ),
                    |w: Seq<Seq<char>>, t: Trace|
                        bind(
                            each(t, g.hard_links, w, new_link_step(ws_name, ws_path)),
                            |w: Seq<Seq<char>>, t: Trace| Out::Got(finished(w), t),
                        ),
                )
            },
    )
}

impl XattrGuard {
    /// Records the metadata of every listed workspace.
    pub fn capture(tape: &mut Tape, ws_paths: &Vec<(String, String)>, restore_enabled: bool) -> (r:
        Result<XattrGuard, Stop>)
        ensures
            agrees(
                r,
                final(tape)@,
                capture_spec(old(tape)@, ws_paths.deep_view(), restore_enabled),
            ),
    {
        reveal(capture_spec);
        let mut guard = XattrGuard {
            restore_enabled,
            findings: Vec::new(),
            hard_links: Vec::new(),
        };
        let ghost g0 = empty_guard(restore_enabled);
        assert(guard.deep_view().findings =~= g0.findings);
        assert(guard.deep_view().hard_links =~= g0.hard_links);
        let ghost t0 = tape@;
        let ghost all = ws_paths.deep_view();
        let ghost step = ws_step();
        assert(all.skip(0) =~= all);
        for i in 0..ws_paths.len()
            invariant
                t0 == old(tape)@,
                all == ws_paths.deep_view(),
                step == ws_step(),
                g0 == empty_guard(restore_enabled),
                capture_spec(t0, all, restore_enabled) == each(t0, all, g0, step),
                each(t0, all, g0, step) == each(tape@, all.skip(i as int), guard.deep_view(), step),
        {
            proof {
                lemma_each_step(all, i as int);
            }
            assert(all[i as int] == (ws_paths@[i as int].0@, ws_paths@[i as int].1@));
            guard = capture_ws(tape, guard, &ws_paths[i].0, &ws_paths[i].1)?;
        }
        Ok(guard)
    }

    /// Restores every listed workspace; the warnings come sorted, each once.
    pub fn restore(&self, tape: &mut Tape, ws_paths: &Vec<(String, String)>) -> (r: Result<
        Vec<String>,
        Stop,
    >)
        ensures
            agrees(
                r,
                final(tape)@,
                restore_spec(old(tape)@, self.deep_view(), ws_paths.deep_view()),
            ),
    {
        reveal(restore_spec);
        let rels = finish_warnings(&all_rels(&self.findings));
        let w = restore_all(tape, self, ws_paths, &rels)?;
        let w = check_links(tape, &self.hard_links, ws_paths, w)?;
        Ok(finish_warnings(&w))
    }

    /// Restores a workspace that was just created.
    pub fn restore_new_workspace(&self, tape: &mut Tape, ws_name: &str, ws_path: &str) -> (r:
        Result<Vec<String>, Stop>)
        ensures
            agrees(
                r,
                final(tape)@,
                restore_new_spec(old(tape)@, self.deep_view(), ws_name@, ws_path@),
            ),
    {
        reveal(restore_new_spec);
        let files = match attempt(tracked_files(tape, ws_path))? {
            Ok(v) => v,
            Err(_) => no_texts(),
        };
        let rels = finish_warnings(&chain(all_rels(&self.findings), files));
        let w = process_all(tape, self, ws_name, ws_path, &rels, no_texts())?;
        let w = check_new_links(tape, &self.hard_links, ws_name, ws_path, w)?;
        Ok(finish_warnings(&w))
    }
}

// ---------------------------------------------------------------------------
// Laws
// ---------------------------------------------------------------------------

/// Each element before the next one.
spec fn is_rising(s: Seq<Seq<char>>) -> bool {
    forall|i: int, j: int| 0 <= i < j < s.len() ==> text_lt(#[trigger] s[i], #[trigger] s[j])
}

proof fn lemma_dedup(s: Seq<Seq<char>>)
    requires
        is_sorted(s, text_order()),
    ensures
        is_rising(dedup_spec(s)),
        s.len() > 0 ==> dedup_spec(s).len() > 0 && dedup_spec(s).last() == s.last(),
        forall|x: Seq<char>| #[trigger] dedup_spec(s).contains(x) <==> s.contains(x),
    decreases s.len(),
{
    if s.len() > 1 {
        let p = s.drop_last();
        let q = dedup_spec(p);
        let r = dedup_spec(s);
        let x = s.last();
        lemma_dedup(p);
        assert(s =~= p.push(x));
        assert(p.last() == s[s.len() - 2]);
        if p.last() != x {
            assert(!text_order()(s[s.len() - 1], s[s.len() - 2]));
            lemma_text_lt_total(p.last(), x);
            assert forall|i: int, j: int| 0 <= i < j < r.len() implies text_lt(
                #[trigger] r[i],
                #[trigger] r[j],
            ) by {
                if j == q.len() && i < q.len() - 1 {
                    lemma_text_lt_trans(q[i], q.last(), x);
                }
            }
        }
        assert forall|y: Seq<char>| #[trigger] r.contains(y) <==> s.contains(y) by {
            assert(p.contains(p.last()));
            assert(s.contains(y) <==> p.contains(y) || y == x) by {
                if s.contains(y) && y != x {
                    let k = choose|k: int| 0 <= k < s.len() && s[k] == y;
                    assert(p[k] == y);
                }
                if p.contains(y) {
                    let k = choose|k: int| 0 <= k < p.len() && p[k] == y;
                    assert(s[k] == y);
                }
                assert(s[s.len() - 1] == x);
            }
            if p.last() != x {
                assert(r.contains(y) <==> q.contains(y) || y == x) by {
                    if r.contains(y) && y != x {
                        let k = choose|k: int| 0 <= k < r.len() && r[k] == y;
                        assert(q[k] == y);
                    }
                    if q.contains(y) {
                        let k = choose|k: int| 0 <= k < q.len() && q[k] == y;
                        assert(r[k] == y);
                    }
                    assert(r[r.len() - 1] == x);
                }
            }
        }
    }
}

/// Finished warnings are in order, each of them stands once, and none is lost or made up.
pub proof fn law_warnings_are_sorted_and_distinct(w: Seq<Seq<char>>)
    ensures
        is_sorted(finished(w), text_order()),
        finished(w).no_duplicates(),
        forall|x: Seq<char>| #[trigger] finished(w).contains(x) <==> w.contains(x),
{
    broadcast use group_to_multiset_ensures;

    let s = sort_texts_spec(w);
    let r = finished(w);
    lemma_sort_texts(w);
    lemma_dedup(s);
    lemma_text_order();
    assert forall|i: int, j: int| 0 <= i < j < r.len() implies !text_order()(
        #[trigger] r[j],
        #[trigger] r[i],
    ) by {
        assert(text_order()(r[i], r[j]));
    }
    assert forall|i: int, j: int| 0 <= i < r.len() && 0 <= j < r.len() && i != j implies r[i]
        != r[j] by {
        if i < j {
            assert(text_order()(r[i], r[j]));
        } else {
            assert(text_order()(r[j], r[i]));
        }
    }
    assert forall|x: Seq<char>| #[trigger] r.contains(x) <==> w.contains(x) by {
        assert(s.contains(x) <==> s.to_multiset().count(x) > 0);
        assert(w.contains(x) <==> w.to_multiset().count(x) > 0);
    }
}

/// No path stands twice, and none stands without a candidate.
pub open spec fn is_map(fs: Seq<FindingV>) -> bool {
    &&& forall|i: int, j: int|
        0 <= i < j < fs.len() ==> (#[trigger] fs[i]).rel != (#[trigger] fs[j]).rel
    &&& forall|i: int| 0 <= i < fs.len() ==> (#[trigger] fs[i]).candidates.len() > 0
}

proof fn lemma_finding_at(fs: Seq<FindingV>, rel: Seq<char>)
    ensures
        finding_at(fs, rel) <= fs.len(),
        finding_at(fs, rel) < fs.len() ==> fs[finding_at(fs, rel) as int].rel == rel,
        finding_at(fs, rel) == fs.len() ==> forall|i: int|
            0 <= i < fs.len() ==> (#[trigger] fs[i]).rel != rel,
    decreases fs.len(),
{
    if fs.len() > 0 && fs[0].rel != rel {
        let rest = fs.drop_first();
        lemma_finding_at(rest, rel);
        if finding_at(rest, rel) == rest.len() {
            assert forall|i: int| 0 <= i < fs.len() implies (#[trigger] fs[i]).rel != rel by {
                if i > 0 {
                    assert(rest[i - 1] == fs[i]);
                }
            }
        }
    }
}

/// A candidate is added to those of its path, and those of the other paths stay.
pub proof fn law_candidates_stay_with_their_path(
    fs: Seq<FindingV>,
    rel: Seq<char>,
    c: CandidateV,
    other: Seq<char>,
)
    requires
        is_map(fs),
    ensures
        is_map(put_candidate(fs, rel, c)),
        candidates_for(put_candidate(fs, rel, c), rel) == candidates_for(fs, rel).push(c),
        other != rel ==> candidates_for(put_candidate(fs, rel, c), other) == candidates_for(
            fs,
            other,
        ),
{
    let r = put_candidate(fs, rel, c);
    lemma_finding_at(fs, rel);
    lemma_finding_at(r, rel);
    lemma_finding_at(fs, other);
    lemma_finding_at(r, other);
    let i = finding_at(fs, rel) as int;
    assert(r[i].rel == rel);
    let k = finding_at(r, rel) as int;
    assert(k == i) by {
        if k != i && k < r.len() {
            assert(r[k].rel == rel);
            assert(fs[k].rel == rel);
        }
    }
    assert(Seq::<CandidateV>::empty().push(c) =~= seq![c]);
    if other != rel {
        let a = finding_at(fs, other) as int;
        let b = finding_at(r, other) as int;
        if a < fs.len() {
            assert(r[a].rel == other);
        }
        if b < r.len() {
            assert(r[b].rel == other);
            assert(b < fs.len());
            assert(fs[b].rel == other);
        }
    }
}

proof fn lemma_capture_files(
    t: Trace,
    files: Seq<Seq<char>>,
    g: XattrGuardV,
    ws_name: Seq<char>,
    ws_path: Seq<char>,
)
    requires
        is_map(g.findings),
    ensures
        each(t, files, g, file_step(ws_name, ws_path)) matches Out::Got(r, _) ==> is_map(
            r.findings,
        ),
    decreases files.len(),
{
    if files.len() > 0 {
        match capture_file_spec(t, ws_name, ws_path, files[0]) {
            Out::Got(c, u) => {
                if let Some(x) = c.candidate {
                    law_candidates_stay_with_their_path(g.findings, files[0], x, files[0]);
                }
                let next = with_captured(g, files[0], c);
                lemma_capture_files(u, files.drop_first(), next, ws_name, ws_path);
            },
            _ => {},
        }
    }
}

proof fn lemma_capture_all(t: Trace, ws_paths: Pairs, g: XattrGuardV)
    requires
        is_map(g.findings),
    ensures
        each(t, ws_paths, g, ws_step()) matches Out::Got(r, _) ==> is_map(r.findings),
    decreases ws_paths.len(),
{
    if ws_paths.len() > 0 {
        let w = ws_paths[0];
        reveal(capture_ws_spec);
        match tracked_files_spec(t, w.1) {
            Out::Got(files, u) => {
                lemma_capture_files(u, files, g, w.0, w.1);
            },
            _ => {},
        }
        match capture_ws_spec(t, g, w.0, w.1) {
            Out::Got(next, u) => {
                lemma_capture_all(u, ws_paths.drop_first(), next);
            },
            _ => {},
        }
    }
}

/// A capture holds each path once, with at least one candidate.
pub proof fn law_captured_paths_stand_once(t: Trace, ws_paths: Pairs, restore_enabled: bool)
    ensures
        capture_spec(t, ws_paths, restore_enabled) matches Out::Got(g, _) ==> is_map(g.findings),
{
    reveal(capture_spec);
    lemma_capture_all(t, ws_paths, empty_guard(restore_enabled));
}

/// The extended attribute of a file is to be written.
pub open spec fn attribute_set(path: Seq<char>, name: Seq<char>, value: Seq<u8>) -> RequestV {
    RequestV {
        act: Act::SetXattr,
        at: path,
        args: seq![name],
        data: value,
        label: Seq::empty(),
    }
}

/// What was captured of a file is put back on it, to the byte: the Finder info, and the resource
/// fork unless the Finder info alone is wanted. Where that is switched off nothing is written.
pub proof fn law_captured_metadata_is_put_back(
    t: Trace,
    enabled: bool,
    path: Seq<char>,
    label: Seq<char>,
    c: CandidateV,
    finder_info_only: bool,
)
    ensures
        !enabled ==> (apply_spec(t, enabled, path, label, c, finder_info_only) matches Out::Got(
            w,
            u,
        ) && u == t && w.len() == 1),
        enabled && c.finder_info is Some && t.len() == 0 ==> apply_spec(
            t,
            enabled,
            path,
            label,
            c,
            finder_info_only,
        ) == Out::<Seq<Seq<char>>>::Ask(
            attribute_set(path, "com.apple.FinderInfo"@, c.finder_info->0),
        ),
        enabled && !finder_info_only && c.resource_fork is Some && t.len() == (
        if c.finder_info is Some {
            1int
        } else {
            0int
        }) ==> apply_spec(t, enabled, path, label, c, finder_info_only) == Out::<
            Seq<Seq<char>>,
        >::Ask(attribute_set(path, "com.apple.ResourceFork"@, c.resource_fork->0)),
        enabled && c.finder_info is None && (finder_info_only || c.resource_fork is None)
            ==> apply_spec(t, enabled, path, label, c, finder_info_only) == Out::Got(
            Seq::<Seq<char>>::empty(),
            t,
        ),
{
    reveal(apply_spec);
    reveal(put_back_spec);
    reveal(set_xattr_spec);
    assert(Seq::<Seq<char>>::empty() + Seq::<Seq<char>>::empty() =~= Seq::<Seq<char>>::empty());
}

} // verus!
