//! Reading what jj prints.
//!
//! Templates separate records, the fields of a record and the elements of a list field by three
//! control characters.

use vstd::prelude::*;

use crate::search::{
    contains, contains_spec, lemma_replace_step, lines, lines_spec, parse_i64, parse_i64_spec,
    replace, replace_spec,
};
use crate::seqs::{collect, filter_map, lemma_filter_map_step};
use crate::tape::{failure, failure_spec, Failure, FailureV};
use crate::text::{
    cat2, chars_of, empty, join, same, slice, split, split_once, split_once_spec, split_spec,
    splitn, splitn_spec, trim, trim_spec, Cut,
};

verus! {

pub const DELIM_RECORD: char = '\u{1e}';

pub const DELIM_FIELD: char = '\u{1f}';

pub const DELIM_LIST: char = '\u{1}';

/// `change_id`, `description`.
pub const TMPL_ID_DESC: &'static str = "change_id ++ \"\\x1f\" ++ description ++ \"\\x1e\"";

/// Workspace name, root, change id and description of its working-copy commit.
pub const LIST_TEMPLATE: &'static str = "name ++ \"\\x1f\" ++ self.root() ++ \"\\x1f\" ++ self.target().change_id() ++ \"\\x1f\" ++ self.target().description() ++ \"\\x1e\"";

/// Workspace name, committer time of its working-copy commit, root. The root comes last: it is
/// the only field that can hold a delimiter.
pub const COMPLETION_WS_TEMPLATE: &'static str = "name ++ \"\\x1f\" ++ self.target().committer().timestamp().format(\"%s\") ++ \"\\x1f\" ++ self.root() ++ \"\\x1e\"";

/// Committer time, local bookmark names.
pub const COMPLETION_BOOKMARK_TEMPLATE: &'static str = "committer.timestamp().format(\"%s\") ++ \"\\x1f\" ++ local_bookmarks.map(|b| b.name()).join(\"\\x01\") ++ \"\\x1e\"";

/// Operation id, description, snapshot?, current?, tags, start time.
pub const OP_LOG_TEMPLATE: &'static str = "id ++ \"\\x1f\" ++ description.first_line() ++ \"\\x1f\" ++ if(self.snapshot(), \"true\", \"false\") ++ \"\\x1f\" ++ if(self.current_operation(), \"true\", \"false\") ++ \"\\x1f\" ++ tags ++ \"\\x1f\" ++ self.time().start() ++ \"\\x1e\"";

/// Operation id, snapshot?
pub const OP_SNAPSHOT_TEMPLATE: &'static str = "id ++ \"\\x1f\" ++ if(self.snapshot(), \"true\", \"false\") ++ \"\\x1e\"";

// ---------------------------------------------------------------------------
// Records
// ---------------------------------------------------------------------------

pub open spec fn record_of(piece: Seq<char>) -> Option<Seq<char>> {
    let r = trim_spec(piece, Cut::Only('\n'));
    if r.len() == 0 {
        None
    } else {
        Some(r)
    }
}

pub open spec fn record_fn() -> spec_fn(Seq<char>) -> Option<Seq<char>> {
    |p: Seq<char>| record_of(p)
}

/// The records of `output`: framing newlines trimmed, empty records left out.
pub open spec fn records_spec(output: Seq<char>) -> Seq<Seq<char>> {
    filter_map(split_spec(output, DELIM_RECORD), record_fn())
}

fn record(piece: &str) -> (r: Option<String>)
    ensures
        r.deep_view() == record_of(piece@),
{
    let r = trim(piece, Cut::Only('\n'));
    if empty(&r) {
        None
    } else {
        Some(r)
    }
}

pub fn records(output: &str) -> (r: Vec<String>)
    ensures
        r.deep_view() == records_spec(output@),
{
    collect(&split(output, DELIM_RECORD), record, Ghost(record_fn()))
}

pub open spec fn nonempty_of(s: Seq<char>) -> Option<Seq<char>> {
    if s.len() == 0 {
        None
    } else {
        Some(s)
    }
}

pub open spec fn nonempty_fn() -> spec_fn(Seq<char>) -> Option<Seq<char>> {
    |p: Seq<char>| nonempty_of(p)
}

fn nonempty(s: &str) -> (r: Option<String>)
    ensures
        r.deep_view() == nonempty_of(s@),
{
    if empty(s) {
        None
    } else {
        Some(s.to_string())
    }
}

/// The lines of `s` that hold something.
pub open spec fn full_lines_spec(s: Seq<char>) -> Seq<Seq<char>> {
    filter_map(lines_spec(s), nonempty_fn())
}

pub fn full_lines(s: &str) -> (r: Vec<String>)
    ensures
        r.deep_view() == full_lines_spec(s@),
{
    collect(&lines(s), nonempty, Ghost(nonempty_fn()))
}

/// The elements of a list field that hold something.
pub open spec fn list_items_spec(s: Seq<char>) -> Seq<Seq<char>> {
    filter_map(split_spec(s, DELIM_LIST), nonempty_fn())
}

pub fn list_items(s: &str) -> (r: Vec<String>)
    ensures
        r.deep_view() == list_items_spec(s@),
{
    collect(&split(s, DELIM_LIST), nonempty, Ghost(nonempty_fn()))
}

// ---------------------------------------------------------------------------
// Names
// ---------------------------------------------------------------------------

/// `s` for use inside a double-quoted revset string.
pub open spec fn escape_spec(s: Seq<char>) -> Seq<char> {
    replace_spec(replace_spec(s, "\\"@, "\\\\"@), "\""@, "\\\""@)
}

pub fn escape_revset_string(s: &str) -> (r: String)
    ensures
        r@ == escape_spec(s@),
{
    proof {
        reveal_strlit("\\");
        reveal_strlit("\"");
    }
    replace(&replace(s, "\\", "\\\\"), "\"", "\\\"")
}

/// A workspace name as jj lists it, without the quotes and escapes that jj may add.
pub open spec fn unquote_spec(raw: Seq<char>) -> Seq<char> {
    if raw.len() > 1 && raw[0] == '"' && raw.last() == '"' {
        replace_spec(
            replace_spec(raw.subrange(1, raw.len() - 1), "\\\""@, "\""@),
            "\\\\"@,
            "\\"@,
        )
    } else {
        raw
    }
}

pub fn unquote_ws_name(raw: &str) -> (r: String)
    ensures
        r@ == unquote_spec(raw@),
{
    let cs = chars_of(raw);
    if cs.len() > 1 && cs[0] == '"' && cs[cs.len() - 1] == '"' {
        proof {
            reveal_strlit("\\\"");
            reveal_strlit("\\\\");
        }
        replace(&replace(&slice(&cs, 1, cs.len() - 1), "\\\"", "\""), "\\\\", "\\")
    } else {
        raw.to_string()
    }
}

/// A character as it is escaped.
pub open spec fn escaped_char(c: char) -> Seq<char> {
    if c == '\\' {
        seq!['\\', '\\']
    } else if c == '"' {
        seq!['\\', '"']
    } else {
        seq![c]
    }
}

proof fn lemma_escape_literals()
    ensures
        "\\"@ == seq!['\\'],
        "\\\\"@ == seq!['\\', '\\'],
        "\""@ == seq!['"'],
        "\\\""@ == seq!['\\', '"'],
{
    reveal_strlit("\\");
    reveal_strlit("\\\\");
    reveal_strlit("\"");
    reveal_strlit("\\\"");
    assert("\\"@ =~= seq!['\\']);
    assert("\\\\"@ =~= seq!['\\', '\\']);
    assert("\""@ =~= seq!['"']);
    assert("\\\""@ =~= seq!['\\', '"']);
}

/// `s` with every backslash doubled.
#[verifier::opaque]
pub open spec fn doubled(s: Seq<char>) -> Seq<char> {
    replace_spec(s, "\\"@, "\\\\"@)
}

proof fn lemma_doubled_step(s: Seq<char>)
    requires
        s.len() > 0,
    ensures
        doubled(s) == (if s[0] == '\\' {
            seq!['\\', '\\']
        } else {
            seq![s[0]]
        }) + doubled(s.drop_first()),
{
    lemma_escape_literals();
    reveal(doubled);
    lemma_replace_step(s, "\\"@, "\\\\"@);
    assert(s.take(1) =~= seq![s[0]]);
    assert(s.skip(1) =~= s.drop_first());
    assert("\\"@.is_prefix_of(s) == (s[0] == '\\')) by {
        assert(seq!['\\'][0] == '\\');
        if s[0] == '\\' {
            assert(seq!['\\'] =~= s.take(1));
        } else {
            assert(s.take(1)[0] != '\\');
        }
    }
}

proof fn lemma_quote_step(x: Seq<char>)
    requires
        x.len() > 0,
    ensures
        replace_spec(x, "\""@, "\\\""@) == (if x[0] == '"' {
            seq!['\\', '"']
        } else {
            seq![x[0]]
        }) + replace_spec(x.drop_first(), "\""@, "\\\""@),
{
    lemma_escape_literals();
    lemma_replace_step(x, "\""@, "\\\""@);
    assert(x.skip(1) =~= x.drop_first());
    assert("\""@.is_prefix_of(x) == (x[0] == '"')) by {
        assert(seq!['"'][0] == '"');
        if x[0] == '"' {
            assert(seq!['"'] =~= x.take(1));
        } else {
            assert(x.take(1)[0] != '"');
        }
    }
}

/// Escaping goes character by character.
proof fn lemma_escape_step(s: Seq<char>)
    requires
        s.len() > 0,
    ensures
        escape_spec(s) == escaped_char(s[0]) + escape_spec(s.drop_first()),
{
    lemma_doubled_step(s);
    reveal(doubled);
    let d = doubled(s);
    let rest = doubled(s.drop_first());
    lemma_quote_step(d);
    if s[0] == '\\' {
        assert(d.drop_first() =~= seq!['\\'] + rest);
        lemma_quote_step(d.drop_first());
        assert(d.drop_first().drop_first() =~= rest);
        assert(seq!['\\'] + (seq!['\\'] + escape_spec(s.drop_first())) =~= escaped_char(s[0])
            + escape_spec(s.drop_first()));
    } else {
        assert(d.drop_first() =~= rest);
    }
}

/// `x` with every escaped quote bare.
#[verifier::opaque]
pub open spec fn bare_quotes(x: Seq<char>) -> Seq<char> {
    replace_spec(x, "\\\""@, "\""@)
}

proof fn lemma_bare_step(x: Seq<char>)
    requires
        x.len() > 0,
    ensures
        bare_quotes(x) == (if x.len() > 1 && x[0] == '\\' && x[1] == '"' {
            seq!['"'] + bare_quotes(x.skip(2))
        } else {
            seq![x[0]] + bare_quotes(x.drop_first())
        }),
{
    lemma_escape_literals();
    let p = seq!['\\', '"'];
    reveal(bare_quotes);
    lemma_replace_step(x, "\\\""@, "\""@);
    if x.len() > 1 && x[0] == '\\' && x[1] == '"' {
        assert(x.take(2) =~= p);
    } else {
        assert(!p.is_prefix_of(x)) by {
            if p.is_prefix_of(x) {
                assert(x.take(2)[0] == x[0] && x.take(2)[1] == x[1]);
            }
        }
    }
}

/// A character that was escaped loses the backslash of a quote, and no other.
proof fn lemma_bare_char(c: char, er: Seq<char>)
    requires
        er.len() == 0 || er[0] != '"',
    ensures
        bare_quotes(escaped_char(c) + er) == (if c == '\\' {
            seq!['\\', '\\']
        } else {
            seq![c]
        }) + bare_quotes(er),
{
    let e = escaped_char(c) + er;
    lemma_bare_step(e);
    if c == '\\' {
        let f = e.drop_first();
        assert(f =~= seq!['\\'] + er);
        lemma_bare_step(f);
        assert(f.drop_first() =~= er);
        assert(seq!['\\'] + (seq!['\\'] + bare_quotes(er)) =~= seq!['\\', '\\']
            + bare_quotes(er));
    } else if c == '"' {
        assert(e.skip(2) =~= er);
    } else {
        assert(e.drop_first() =~= er);
    }
}

proof fn lemma_unescape_quotes(s: Seq<char>)
    ensures
        bare_quotes(escape_spec(s)) == doubled(s),
        s.len() > 0 ==> escape_spec(s).len() > 0 && escape_spec(s)[0] != '"',
        s.len() == 0 ==> escape_spec(s).len() == 0,
    decreases s.len(),
{
    if s.len() == 0 {
        lemma_escape_literals();
        reveal(bare_quotes);
        reveal(doubled);
        assert(doubled(s) =~= s);
        assert(escape_spec(s) =~= s);
        assert(bare_quotes(s) =~= s);
    } else {
        lemma_escape_step(s);
        lemma_doubled_step(s);
        lemma_unescape_quotes(s.drop_first());
        lemma_bare_char(s[0], escape_spec(s.drop_first()));
    }
}

proof fn lemma_halve(s: Seq<char>)
    ensures
        replace_spec(doubled(s), "\\\\"@, "\\"@) == s,
    decreases s.len(),
{
    lemma_escape_literals();
    let p = "\\\\"@;
    let to = "\\"@;
    if s.len() == 0 {
        reveal(doubled);
        assert(doubled(s) =~= s);
        assert(replace_spec(s, p, to) =~= s);
    } else {
        let rest = s.drop_first();
        lemma_doubled_step(s);
        lemma_halve(rest);
        let d = doubled(s);
        lemma_replace_step(d, p, to);
        if s[0] == '\\' {
            assert(d.take(2) =~= p);
            assert(d.skip(2) =~= doubled(rest));
            assert(to + rest =~= s);
        } else {
            assert(!p.is_prefix_of(d)) by {
                if p.is_prefix_of(d) {
                    assert(d[0] == p[0]);
                }
            }
            assert(d.drop_first() =~= doubled(rest));
            assert(seq![s[0]] + rest =~= s);
        }
    }
}

/// A name that is quoted and escaped reads back as it was, whatever characters it has.
pub proof fn law_unquote_reverts_escape(s: Seq<char>)
    ensures
        unquote_spec(seq!['"'] + escape_spec(s) + seq!['"']) == s,
{
    let q = seq!['"'] + escape_spec(s) + seq!['"'];
    assert(q.subrange(1, q.len() - 1) =~= escape_spec(s));
    lemma_unescape_quotes(s);
    reveal(bare_quotes);
    lemma_halve(s);
}

/// The root of a workspace; jj prints `<Error: ..>` in its place when the directory is gone.
pub open spec fn ws_root_spec(raw: Seq<char>) -> Option<Seq<char>> {
    let r = trim_spec(raw, Cut::White);
    if contains_spec(r, "<Error"@) {
        None
    } else {
        Some(r)
    }
}

pub fn parse_ws_root(raw: &str) -> (r: Option<String>)
    ensures
        r.deep_view() == ws_root_spec(raw@),
{
    let r = trim(raw, Cut::White);
    if contains(&r, "<Error") {
        None
    } else {
        Some(r)
    }
}

// ---------------------------------------------------------------------------
// Operation log
// ---------------------------------------------------------------------------

/// A single jj operation.
#[derive(Debug)]
pub struct Operation {
    pub id: String,
    pub description: String,
    pub is_snapshot: bool,
    pub is_current: bool,
    pub tags: String,
    pub timestamp: String,
}

pub struct OperationV {
    pub id: Seq<char>,
    pub description: Seq<char>,
    pub is_snapshot: bool,
    pub is_current: bool,
    pub tags: Seq<char>,
    pub timestamp: Seq<char>,
}

impl DeepView for Operation {
    type V = OperationV;

    open spec fn deep_view(&self) -> OperationV {
        OperationV {
            id: self.id@,
            description: self.description@,
            is_snapshot: self.is_snapshot,
            is_current: self.is_current,
            tags: self.tags@,
            timestamp: self.timestamp@,
        }
    }
}

pub open spec fn operation_of(rec: Seq<char>) -> Option<OperationV> {
    let f = split_spec(rec, DELIM_FIELD);
    if f.len() < 6 {
        None
    } else {
        Some(
            OperationV {
                id: f[0],
                description: f[1],
                is_snapshot: f[2] == "true"@,
                is_current: f[3] == "true"@,
                tags: f[4],
                timestamp: f[5],
            },
        )
    }
}

pub open spec fn operation_fn() -> spec_fn(Seq<char>) -> Option<OperationV> {
    |r: Seq<char>| operation_of(r)
}

pub open spec fn operations_spec(output: Seq<char>) -> Seq<OperationV> {
    filter_map(records_spec(output), operation_fn())
}

fn operation(rec: &str) -> (r: Option<Operation>)
    ensures
        r.deep_view() == operation_of(rec@),
{
    let f = split(rec, DELIM_FIELD);
    if f.len() < 6 {
        None
    } else {
        assert(f.deep_view().len() == f@.len());
        Some(
            Operation {
                id: f[0].clone(),
                description: f[1].clone(),
                is_snapshot: same(&f[2], "true"),
                is_current: same(&f[3], "true"),
                tags: f[4].clone(),
                timestamp: f[5].clone(),
            },
        )
    }
}

pub fn parse_operations(output: &str) -> (r: Vec<Operation>)
    ensures
        r.deep_view() == operations_spec(output@),
{
    collect(&records(output), operation, Ghost(operation_fn()))
}

/// Walking `recs` from the newest operation on: is `expected` reached with nothing but snapshots
/// before it?
pub open spec fn snapshots_only_spec(recs: Seq<Seq<char>>, expected: Seq<char>) -> bool
    decreases recs.len(),
{
    if recs.len() == 0 {
        false
    } else {
        match split_once_spec(recs[0], DELIM_FIELD) {
            None => snapshots_only_spec(recs.drop_first(), expected),
            Some((id, snap)) => {
                ||| id == expected
                ||| snap == "true"@ && snapshots_only_spec(recs.drop_first(), expected)
            },
        }
    }
}

pub fn snapshots_only(recs: &Vec<String>, expected: &str) -> (r: bool)
    ensures
        r == snapshots_only_spec(recs.deep_view(), expected@),
{
    let ghost all = recs.deep_view();
    assert(all.skip(0) =~= all);
    for i in 0..recs.len()
        invariant
            all == recs.deep_view(),
            snapshots_only_spec(all, expected@) == snapshots_only_spec(
                all.skip(i as int),
                expected@,
            ),
    {
        assert(all.skip(i as int).drop_first() =~= all.skip(i + 1));
        assert(all.skip(i as int)[0] == recs@[i as int]@);
        match split_once(&recs[i], DELIM_FIELD) {
            None => {},
            Some((id, snap)) => {
                if same(&id, expected) {
                    return true;
                }
                if !same(&snap, "true") {
                    return false;
                }
            },
        }
    }
    false
}

// ---------------------------------------------------------------------------
// Workspaces
// ---------------------------------------------------------------------------

/// Workspace record from a single `jj workspace list` call.
#[derive(Debug)]
pub struct WorkspaceEntry {
    pub name: String,
    /// Empty when jj reports the root as an error.
    pub path: String,
    /// Change id of the workspace's working-copy commit.
    pub change_id: String,
    pub description: String,
}

pub struct WorkspaceEntryV {
    pub name: Seq<char>,
    pub path: Seq<char>,
    pub change_id: Seq<char>,
    pub description: Seq<char>,
}

impl DeepView for WorkspaceEntry {
    type V = WorkspaceEntryV;

    open spec fn deep_view(&self) -> WorkspaceEntryV {
        WorkspaceEntryV {
            name: self.name@,
            path: self.path@,
            change_id: self.change_id@,
            description: self.description@,
        }
    }
}

impl WorkspaceEntry {
    pub fn copy(&self) -> (r: WorkspaceEntry)
        ensures
            r.deep_view() == self.deep_view(),
    {
        WorkspaceEntry {
            name: self.name.clone(),
            path: self.path.clone(),
            change_id: self.change_id.clone(),
            description: self.description.clone(),
        }
    }
}

pub open spec fn or_empty(o: Option<Seq<char>>) -> Seq<char> {
    match o {
        Some(s) => s,
        None => Seq::empty(),
    }
}

pub open spec fn entry_of(rec: Seq<char>) -> Option<WorkspaceEntryV> {
    let f = splitn_spec(rec, 4, DELIM_FIELD);
    if f.len() < 4 {
        None
    } else {
        Some(
            WorkspaceEntryV {
                name: unquote_spec(f[0]),
                path: or_empty(ws_root_spec(f[1])),
                change_id: f[2],
                description: f[3],
            },
        )
    }
}

/// The first of `recs` that is no workspace record.
pub open spec fn bad_entry(recs: Seq<Seq<char>>) -> Option<Seq<char>>
    decreases recs.len(),
{
    if recs.len() == 0 {
        None
    } else if entry_of(recs[0]) is None {
        Some(recs[0])
    } else {
        bad_entry(recs.drop_first())
    }
}

pub open spec fn entry_fn() -> spec_fn(Seq<char>) -> Option<WorkspaceEntryV> {
    |r: Seq<char>| entry_of(r)
}

/// The workspaces in the output of `jj workspace list`; any malformed record is an error.
pub open spec fn entries_spec(output: Seq<char>) -> Result<Seq<WorkspaceEntryV>, FailureV> {
    match bad_entry(records_spec(output)) {
        Some(rec) => Err(failure_spec("unexpected workspace list format: "@ + rec)),
        None => Ok(filter_map(records_spec(output), entry_fn())),
    }
}

fn entry(rec: &str) -> (r: Option<WorkspaceEntry>)
    ensures
        r.deep_view() == entry_of(rec@),
{
    let f = splitn(rec, 4, DELIM_FIELD);
    if f.len() < 4 {
        None
    } else {
        assert(f.deep_view().len() == f@.len());
        let path = match parse_ws_root(&f[1]) {
            Some(p) => p,
            None => String::new(),
        };
        assert(path@ =~= or_empty(ws_root_spec(f@[1]@)));
        Some(
            WorkspaceEntry {
                name: unquote_ws_name(&f[0]),
                path,
                change_id: f[2].clone(),
                description: f[3].clone(),
            },
        )
    }
}

pub fn parse_entries(output: &str) -> (r: Result<Vec<WorkspaceEntry>, Failure>)
    ensures
        match r {
            Ok(v) => entries_spec(output@) == Ok::<Seq<WorkspaceEntryV>, FailureV>(v.deep_view()),
            Err(e) => entries_spec(output@) == Err::<Seq<WorkspaceEntryV>, FailureV>(e.deep_view()),
        },
{
    let recs = records(output);
    let ghost all = recs.deep_view();
    let mut out: Vec<WorkspaceEntry> = Vec::new();
    assert(all.skip(0) =~= all);
    assert(out.deep_view() =~= filter_map(all.take(0), entry_fn()));
    for i in 0..recs.len()
        invariant
            all == recs.deep_view(),
            all == records_spec(output@),
            bad_entry(all) == bad_entry(all.skip(i as int)),
            out.deep_view() == filter_map(all.take(i as int), entry_fn()),
    {
        let ghost before = out.deep_view();
        assert(all.skip(i as int).drop_first() =~= all.skip(i + 1));
        assert(all.skip(i as int)[0] == recs@[i as int]@);
        proof {
            lemma_filter_map_step(all, i as int, entry_fn());
        }
        match entry(&recs[i]) {
            None => {
                return Err(failure(cat2("unexpected workspace list format: ", &recs[i])));
            },
            Some(e) => {
                out.push(e);
                assert(out.deep_view() =~= before.push(e.deep_view()));
            },
        }
    }
    assert(all.take(all.len() as int) =~= all);
    Ok(out)
}

/// A workspace as shell completion needs it.
#[derive(Debug)]
pub struct CompletionWorkspace {
    pub name: String,
    /// `None` when the directory is gone.
    pub root: Option<String>,
    /// Committer time of the working-copy commit, in epoch seconds.
    pub last_touched: Option<i64>,
}

pub struct CompletionWorkspaceV {
    pub name: Seq<char>,
    pub root: Option<Seq<char>>,
    pub last_touched: Option<i64>,
}

impl DeepView for CompletionWorkspace {
    type V = CompletionWorkspaceV;

    open spec fn deep_view(&self) -> CompletionWorkspaceV {
        CompletionWorkspaceV {
            name: self.name@,
            root: self.root.deep_view(),
            last_touched: self.last_touched,
        }
    }
}

pub open spec fn completion_ws_of(rec: Seq<char>) -> Option<CompletionWorkspaceV> {
    let f = splitn_spec(rec, 3, DELIM_FIELD);
    if f.len() < 3 {
        None
    } else {
        Some(
            CompletionWorkspaceV {
                name: unquote_spec(f[0]),
                root: ws_root_spec(f[2]),
                last_touched: parse_i64_spec(trim_spec(f[1], Cut::White)),
            },
        )
    }
}

pub open spec fn completion_ws_fn() -> spec_fn(Seq<char>) -> Option<CompletionWorkspaceV> {
    |r: Seq<char>| completion_ws_of(r)
}

pub open spec fn completion_ws_list_spec(stdout: Seq<char>) -> Seq<CompletionWorkspaceV> {
    filter_map(records_spec(stdout), completion_ws_fn())
}

fn completion_ws(rec: &str) -> (r: Option<CompletionWorkspace>)
    ensures
        r.deep_view() == completion_ws_of(rec@),
{
    let f = splitn(rec, 3, DELIM_FIELD);
    if f.len() < 3 {
        None
    } else {
        assert(f.deep_view().len() == f@.len());
        Some(
            CompletionWorkspace {
                name: unquote_ws_name(&f[0]),
                root: parse_ws_root(&f[2]),
                last_touched: parse_i64(&trim(&f[1], Cut::White)),
            },
        )
    }
}

/// The workspaces in completion records; malformed ones are skipped.
pub fn parse_completion_workspaces(stdout: &str) -> (r: Vec<CompletionWorkspace>)
    ensures
        r.deep_view() == completion_ws_list_spec(stdout@),
{
    collect(&records(stdout), completion_ws, Ghost(completion_ws_fn()))
}

} // verus!
