//! Reading what `jj log` and `jj diff` print: revisions, bookmarks, changed files.

use vstd::prelude::*;

use crate::jj_parse::{
    list_items, list_items_spec, records, records_spec, DELIM_FIELD, DELIM_LIST, DELIM_RECORD,
};
use crate::search::{
    contains, contains_spec, count, count_spec, lines, lines_spec, parse_i64, parse_i64_spec,
    replace, replace_spec, strip_prefix, strip_prefix_spec, words, words_spec,
};
use crate::seqs::{collect, collect_flat, filter_map, flat};
use crate::text::{
    chars_of, empty, join, join_spec, same, split, split_once, split_once_spec, split_spec, splitn,
    splitn_spec, trim, trim_end, trim_end_spec, trim_spec, Cut,
};

verus! {

// ---------------------------------------------------------------------------
// Revisions
// ---------------------------------------------------------------------------

#[derive(Debug)]
pub struct RevisionInfo {
    pub change_id: String,
    pub description: String,
}

pub struct RevisionInfoV {
    pub change_id: Seq<char>,
    pub description: Seq<char>,
}

impl DeepView for RevisionInfo {
    type V = RevisionInfoV;

    open spec fn deep_view(&self) -> RevisionInfoV {
        RevisionInfoV { change_id: self.change_id@, description: self.description@ }
    }
}

impl RevisionInfo {
    pub fn copy(&self) -> (r: RevisionInfo)
        ensures
            r.deep_view() == self.deep_view(),
    {
        RevisionInfo { change_id: self.change_id.clone(), description: self.description.clone() }
    }
}

pub fn copy_revisions(v: &Vec<RevisionInfo>) -> (r: Vec<RevisionInfo>)
    ensures
        r.deep_view() == v.deep_view(),
{
    let mut out: Vec<RevisionInfo> = Vec::new();
    for i in 0..v.len()
        invariant
            out.deep_view() == v.deep_view().take(i as int),
    {
        let ghost before = out.deep_view();
        out.push(v[i].copy());
        assert(out.deep_view() =~= before.push(v@[i as int].deep_view()));
        assert(v.deep_view().take(i + 1) =~= before.push(v@[i as int].deep_view()));
    }
    assert(v.deep_view().take(v@.len() as int) =~= v.deep_view());
    out
}

pub open spec fn pair_of(rec: Seq<char>) -> Option<(Seq<char>, Seq<char>)> {
    match split_once_spec(rec, DELIM_FIELD) {
        None => None,
        Some((id, desc)) => Some((id, trim_end_spec(desc, Cut::White))),
    }
}

pub open spec fn pair_fn() -> spec_fn(Seq<char>) -> Option<(Seq<char>, Seq<char>)> {
    |r: Seq<char>| pair_of(r)
}

/// Pairs of change id and description; records with a single field are skipped.
pub open spec fn described_spec(stdout: Seq<char>) -> Seq<(Seq<char>, Seq<char>)> {
    filter_map(records_spec(stdout), pair_fn())
}

fn pair(rec: &str) -> (r: Option<(String, String)>)
    ensures
        r.deep_view() == pair_of(rec@),
{
    match split_once(rec, DELIM_FIELD) {
        None => None,
        Some((id, desc)) => Some((id, trim_end(&desc, Cut::White))),
    }
}

pub fn parse_described(stdout: &str) -> (r: Vec<(String, String)>)
    ensures
        r.deep_view() == described_spec(stdout@),
{
    collect(&records(stdout), pair, Ghost(pair_fn()))
}

pub open spec fn revision_of(rec: Seq<char>) -> Option<RevisionInfoV> {
    match split_once_spec(rec, DELIM_FIELD) {
        None => None,
        Some((id, desc)) => Some(
            RevisionInfoV { change_id: id, description: trim_end_spec(desc, Cut::White) },
        ),
    }
}

pub open spec fn revision_fn() -> spec_fn(Seq<char>) -> Option<RevisionInfoV> {
    |r: Seq<char>| revision_of(r)
}

pub open spec fn revision_records_spec(stdout: Seq<char>) -> Seq<RevisionInfoV> {
    filter_map(records_spec(stdout), revision_fn())
}

fn revision(rec: &str) -> (r: Option<RevisionInfo>)
    ensures
        r.deep_view() == revision_of(rec@),
{
    match split_once(rec, DELIM_FIELD) {
        None => None,
        Some((id, desc)) => Some(
            RevisionInfo { change_id: id, description: trim_end(&desc, Cut::White) },
        ),
    }
}

pub fn parse_revision_records(stdout: &str) -> (r: Vec<RevisionInfo>)
    ensures
        r.deep_view() == revision_records_spec(stdout@),
{
    collect(&records(stdout), revision, Ghost(revision_fn()))
}

/// Field `i` of `f`, empty when there are fewer.
pub open spec fn field_or_empty(f: Seq<Seq<char>>, i: int) -> Seq<char> {
    if i < f.len() {
        f[i]
    } else {
        Seq::empty()
    }
}

fn field(f: &Vec<String>, i: usize) -> (r: String)
    ensures
        r@ == field_or_empty(f.deep_view(), i as int),
{
    if i < f.len() {
        f[i].clone()
    } else {
        String::new()
    }
}

pub open spec fn marked_revision_of(rec: Seq<char>) -> Option<RevisionInfoV> {
    let f = splitn_spec(rec, 3, DELIM_FIELD);
    Some(
        RevisionInfoV {
            change_id: field_or_empty(f, 0),
            description: trim_end_spec(field_or_empty(f, 2), Cut::White),
        },
    )
}

pub open spec fn marked_revision_fn() -> spec_fn(Seq<char>) -> Option<RevisionInfoV> {
    |r: Seq<char>| marked_revision_of(r)
}

pub open spec fn tagged(names: Seq<Seq<char>>, id: Seq<char>) -> Seq<(Seq<char>, Seq<char>)> {
    names.map_values(|n: Seq<char>| (n, id))
}

pub open spec fn marks_of(rec: Seq<char>) -> Seq<(Seq<char>, Seq<char>)> {
    let f = splitn_spec(rec, 3, DELIM_FIELD);
    tagged(list_items_spec(field_or_empty(f, 1)), field_or_empty(f, 0))
}

pub open spec fn marks_fn() -> spec_fn(Seq<char>) -> Seq<(Seq<char>, Seq<char>)> {
    |r: Seq<char>| marks_of(r)
}

/// Revisions with the bookmarks on them: the revisions, and each bookmark with its change id.
pub open spec fn marked_spec(stdout: Seq<char>) -> (
    Seq<RevisionInfoV>,
    Seq<(Seq<char>, Seq<char>)>,
) {
    (
        filter_map(records_spec(stdout), marked_revision_fn()),
        flat(records_spec(stdout).map_values(marks_fn())),
    )
}

fn marked_revision(rec: &str) -> (r: Option<RevisionInfo>)
    ensures
        r.deep_view() == marked_revision_of(rec@),
{
    let f = splitn(rec, 3, DELIM_FIELD);
    Some(
        RevisionInfo {
            change_id: field(&f, 0),
            description: trim_end(&field(&f, 2), Cut::White),
        },
    )
}

fn tag_all(names: &Vec<String>, id: &str) -> (r: Vec<(String, String)>)
    ensures
        r.deep_view() == tagged(names.deep_view(), id@),
{
    let mut out: Vec<(String, String)> = Vec::new();
    let ghost all = tagged(names.deep_view(), id@);
    for i in 0..names.len()
        invariant
            all == tagged(names.deep_view(), id@),
            out.deep_view() == all.take(i as int),
    {
        let ghost before = out.deep_view();
        out.push((names[i].clone(), id.to_string()));
        assert(out.deep_view() =~= before.push((names@[i as int]@, id@)));
        assert(all.take(i + 1) =~= all.take(i as int).push(all[i as int]));
    }
    assert(all.take(names@.len() as int) =~= all);
    out
}

fn marks(rec: &str) -> (r: Vec<(String, String)>)
    ensures
        r.deep_view() == marks_of(rec@),
{
    let f = splitn(rec, 3, DELIM_FIELD);
    tag_all(&list_items(&field(&f, 1)), &field(&f, 0))
}

pub fn parse_marked(stdout: &str) -> (r: (Vec<RevisionInfo>, Vec<(String, String)>))
    ensures
        r.deep_view() == marked_spec(stdout@),
{
    let recs = records(stdout);
    (
        collect(&recs, marked_revision, Ghost(marked_revision_fn())),
        collect_flat(&recs, marks, Ghost(marks_fn())),
    )
}

// ---------------------------------------------------------------------------
// Bookmarks
// ---------------------------------------------------------------------------

pub open spec fn field_pair_fn() -> spec_fn(Seq<char>) -> Option<(Seq<char>, Seq<char>)> {
    |e: Seq<char>| split_once_spec(e, DELIM_FIELD)
}

fn field_pair(e: &str) -> (r: Option<(String, String)>)
    ensures
        r.deep_view() == split_once_spec(e@, DELIM_FIELD),
{
    split_once(e, DELIM_FIELD)
}

pub open spec fn listed_marks_of(rec: Seq<char>) -> Seq<(Seq<char>, Seq<char>)> {
    filter_map(split_spec(rec, DELIM_LIST), field_pair_fn())
}

pub open spec fn listed_marks_fn() -> spec_fn(Seq<char>) -> Seq<(Seq<char>, Seq<char>)> {
    |r: Seq<char>| listed_marks_of(r)
}

/// Each bookmark with its change id, from one record per revision.
pub open spec fn bookmark_entries_spec(stdout: Seq<char>) -> Seq<(Seq<char>, Seq<char>)> {
    flat(split_spec(stdout, DELIM_RECORD).map_values(listed_marks_fn()))
}

fn listed_marks(rec: &str) -> (r: Vec<(String, String)>)
    ensures
        r.deep_view() == listed_marks_of(rec@),
{
    collect(&split(rec, DELIM_LIST), field_pair, Ghost(field_pair_fn()))
}

pub fn parse_bookmark_entries(stdout: &str) -> (r: Vec<(String, String)>)
    ensures
        r.deep_view() == bookmark_entries_spec(stdout@),
{
    collect_flat(&split(stdout, DELIM_RECORD), listed_marks, Ghost(listed_marks_fn()))
}

/// The first of `marks` that reads `derived` once its slashes are dashes.
pub open spec fn sanitized_spec(marks: Seq<(Seq<char>, Seq<char>)>, derived: Seq<char>) -> Option<
    (Seq<char>, Seq<char>),
>
    decreases marks.len(),
{
    if marks.len() == 0 {
        None
    } else if replace_spec(marks[0].0, "/"@, "-"@) == derived {
        Some(marks[0])
    } else {
        sanitized_spec(marks.drop_first(), derived)
    }
}

pub fn pick_sanitized(marks: &Vec<(String, String)>, derived: &str) -> (r: Option<(String, String)>)
    ensures
        r.deep_view() == sanitized_spec(marks.deep_view(), derived@),
{
    proof {
        reveal_strlit("/");
    }
    let ghost all = marks.deep_view();
    assert(all.skip(0) =~= all);
    for i in 0..marks.len()
        invariant
            "/"@.len() > 0,
            all == marks.deep_view(),
            sanitized_spec(all, derived@) == sanitized_spec(all.skip(i as int), derived@),
    {
        assert(all.skip(i as int).drop_first() =~= all.skip(i + 1));
        assert(all.skip(i as int)[0] == (marks@[i as int].0@, marks@[i as int].1@));
        if same(&replace(&marks[i].0, "/", "-"), derived) {
            return Some((marks[i].0.clone(), marks[i].1.clone()));
        }
    }
    None
}

pub open spec fn named<X>(s: Seq<(Seq<char>, X)>, name: Seq<char>) -> bool {
    exists|i: int| 0 <= i < s.len() && #[trigger] s[i].0 == name
}

/// `s` without the entries whose name occurred before.
pub open spec fn first_named<X>(s: Seq<(Seq<char>, X)>) -> Seq<(Seq<char>, X)>
    decreases s.len(),
{
    if s.len() == 0 {
        s
    } else {
        let r = first_named(s.drop_last());
        if named(r, s.last().0) {
            r
        } else {
            r.push(s.last())
        }
    }
}

pub open spec fn timed(names: Seq<Seq<char>>, at: Option<i64>) -> Seq<(Seq<char>, Option<i64>)> {
    names.map_values(|n: Seq<char>| (n, at))
}

pub open spec fn timed_marks_of(rec: Seq<char>) -> Seq<(Seq<char>, Option<i64>)> {
    let f = splitn_spec(rec, 2, DELIM_FIELD);
    timed(
        list_items_spec(field_or_empty(f, 1)),
        parse_i64_spec(trim_spec(field_or_empty(f, 0), Cut::White)),
    )
}

pub open spec fn timed_marks_fn() -> spec_fn(Seq<char>) -> Seq<(Seq<char>, Option<i64>)> {
    |r: Seq<char>| timed_marks_of(r)
}

/// Local bookmarks with the committer time of their commit, each name once.
pub open spec fn completion_bookmarks_spec(stdout: Seq<char>) -> Seq<(Seq<char>, Option<i64>)> {
    first_named(flat(records_spec(stdout).map_values(timed_marks_fn())))
}

fn time_all(names: &Vec<String>, at: Option<i64>) -> (r: Vec<(String, Option<i64>)>)
    ensures
        r.deep_view() == timed(names.deep_view(), at),
{
    let mut out: Vec<(String, Option<i64>)> = Vec::new();
    let ghost all = timed(names.deep_view(), at);
    for i in 0..names.len()
        invariant
            all == timed(names.deep_view(), at),
            out.deep_view() == all.take(i as int),
    {
        let ghost before = out.deep_view();
        out.push((names[i].clone(), at));
        assert(at.deep_view() == at);
        assert(out.deep_view() =~= before.push((names@[i as int]@, at)));
        assert(all.take(i + 1) =~= all.take(i as int).push(all[i as int]));
    }
    assert(all.take(names@.len() as int) =~= all);
    out
}

fn timed_marks(rec: &str) -> (r: Vec<(String, Option<i64>)>)
    ensures
        r.deep_view() == timed_marks_of(rec@),
{
    let f = splitn(rec, 2, DELIM_FIELD);
    time_all(&list_items(&field(&f, 1)), parse_i64(&trim(&field(&f, 0), Cut::White)))
}

pub fn parse_completion_bookmarks(stdout: &str) -> (r: Vec<(String, Option<i64>)>)
    ensures
        r.deep_view() == completion_bookmarks_spec(stdout@),
{
    let v = collect_flat(&records(stdout), timed_marks, Ghost(timed_marks_fn()));
    let ghost all = v.deep_view();
    let mut out: Vec<(String, Option<i64>)> = Vec::new();
    assert(out.deep_view() =~= first_named(all.take(0)));
    for i in 0..v.len()
        invariant
            all == v.deep_view(),
            out.deep_view() == first_named(all.take(i as int)),
    {
        let ghost before = out.deep_view();
        assert(all.take(i + 1).drop_last() =~= all.take(i as int));
        let mut seen = false;
        for j in 0..out.len()
            invariant
                i < v@.len(),
                all == v.deep_view(),
                before == out.deep_view(),
                seen == exists|k: int| 0 <= k < j && #[trigger] before[k].0 == all[i as int].0,
        {
            assert(before[j as int].0 == out@[j as int].0@);
            if same(&out[j].0, &v[i].0) {
                seen = true;
            }
        }
        assert(seen == named(before, all[i as int].0));
        if !seen {
            out.push((v[i].0.clone(), v[i].1));
            assert(v@[i as int].1.deep_view() == v@[i as int].1);
            assert(out.deep_view() =~= before.push(all[i as int]));
        }
    }
    assert(all.take(all.len() as int) =~= all);
    out
}

// ---------------------------------------------------------------------------
// Changed files
// ---------------------------------------------------------------------------

/// The kind of change to a file.
#[derive(Clone, Copy, PartialEq, Eq, Structural, Debug)]
pub enum FileChangeKind {
    Added,
    Modified,
    Deleted,
    Renamed,
}

/// A single file change from `jj diff --summary`.
#[derive(Debug)]
pub struct FileChange {
    pub kind: FileChangeKind,
    pub path: String,
}

pub struct FileChangeV {
    pub kind: FileChangeKind,
    pub path: Seq<char>,
}

impl DeepView for FileChange {
    type V = FileChangeV;

    open spec fn deep_view(&self) -> FileChangeV {
        FileChangeV { kind: self.kind, path: self.path@ }
    }
}

/// Changed files, and the closing line of `jj diff --stat`.
#[derive(Debug)]
pub struct DiffSummary {
    pub files: Vec<FileChange>,
    pub stat_line: Option<String>,
}

pub struct DiffSummaryV {
    pub files: Seq<FileChangeV>,
    pub stat_line: Option<Seq<char>>,
}

impl DeepView for DiffSummary {
    type V = DiffSummaryV;

    open spec fn deep_view(&self) -> DiffSummaryV {
        DiffSummaryV { files: self.files.deep_view(), stat_line: self.stat_line.deep_view() }
    }
}

/// A line of `jj diff --summary`. A copied file counts as added.
pub open spec fn summary_line_spec(line: Seq<char>) -> Option<FileChangeV> {
    let l = trim_spec(line, Cut::White);
    if let Some(path) = strip_prefix_spec(l, "R "@) {
        Some(FileChangeV { kind: FileChangeKind::Renamed, path })
    } else if let Some(path) = strip_prefix_spec(l, "C "@) {
        Some(FileChangeV { kind: FileChangeKind::Added, path })
    } else if let Some(path) = strip_prefix_spec(l, "A "@) {
        Some(FileChangeV { kind: FileChangeKind::Added, path })
    } else if let Some(path) = strip_prefix_spec(l, "M "@) {
        Some(FileChangeV { kind: FileChangeKind::Modified, path })
    } else if let Some(path) = strip_prefix_spec(l, "D "@) {
        Some(FileChangeV { kind: FileChangeKind::Deleted, path })
    } else {
        None
    }
}

pub fn parse_summary_line(line: &str) -> (r: Option<FileChange>)
    ensures
        r.deep_view() == summary_line_spec(line@),
{
    let l = trim(line, Cut::White);
    if let Some(path) = strip_prefix(&l, "R ") {
        Some(FileChange { kind: FileChangeKind::Renamed, path })
    } else if let Some(path) = strip_prefix(&l, "C ") {
        Some(FileChange { kind: FileChangeKind::Added, path })
    } else if let Some(path) = strip_prefix(&l, "A ") {
        Some(FileChange { kind: FileChangeKind::Added, path })
    } else if let Some(path) = strip_prefix(&l, "M ") {
        Some(FileChange { kind: FileChangeKind::Modified, path })
    } else if let Some(path) = strip_prefix(&l, "D ") {
        Some(FileChange { kind: FileChangeKind::Deleted, path })
    } else {
        None
    }
}

pub open spec fn summary_line_fn() -> spec_fn(Seq<char>) -> Option<FileChangeV> {
    |l: Seq<char>| summary_line_spec(l)
}

pub open spec fn changed_files_spec(out: Seq<char>) -> Seq<FileChangeV> {
    filter_map(lines_spec(out), summary_line_fn())
}

pub fn parse_changed_files(out: &str) -> (r: Vec<FileChange>)
    ensures
        r.deep_view() == changed_files_spec(out@),
{
    collect(&lines(out), parse_summary_line, Ghost(summary_line_fn()))
}

/// The last line of `jj diff --stat`, when it tells what changed.
pub open spec fn stat_line_spec(out: Seq<char>) -> Option<Seq<char>> {
    let ls = lines_spec(out);
    if ls.len() > 0 && contains_spec(ls.last(), "changed"@) {
        Some(trim_spec(ls.last(), Cut::White))
    } else {
        None
    }
}

pub fn parse_stat_line(out: &str) -> (r: Option<String>)
    ensures
        r.deep_view() == stat_line_spec(out@),
{
    let ls = lines(out);
    assert(ls.deep_view().len() == ls@.len());
    if ls.len() > 0 && contains(&ls[ls.len() - 1], "changed") {
        Some(trim(&ls[ls.len() - 1], Cut::White))
    } else {
        None
    }
}

// ---------------------------------------------------------------------------
// Working copies
// ---------------------------------------------------------------------------

pub open spec fn bare_names(ws: Seq<Seq<char>>) -> Seq<Seq<char>> {
    ws.map_values(|w: Seq<char>| trim_end_spec(w, Cut::Only('@')))
}

pub open spec fn names_of(rec: Seq<char>) -> Seq<Seq<char>> {
    bare_names(words_spec(rec))
}

pub open spec fn names_fn() -> spec_fn(Seq<char>) -> Seq<Seq<char>> {
    |r: Seq<char>| names_of(r)
}

/// The workspace names in `working_copies` records, without the `@` behind each.
pub open spec fn working_copy_names_spec(out: Seq<char>) -> Seq<Seq<char>> {
    flat(split_spec(out, DELIM_RECORD).map_values(names_fn()))
}

fn names(rec: &str) -> (r: Vec<String>)
    ensures
        r.deep_view() == names_of(rec@),
{
    let ws = words(rec);
    let ghost all = bare_names(ws.deep_view());
    let mut out: Vec<String> = Vec::new();
    for i in 0..ws.len()
        invariant
            all == bare_names(ws.deep_view()),
            out.deep_view() == all.take(i as int),
    {
        let ghost before = out.deep_view();
        let n = trim_end(&ws[i], Cut::Only('@'));
        out.push(n);
        assert(out.deep_view() =~= before.push(n@));
        assert(all.take(i + 1) =~= all.take(i as int).push(all[i as int]));
    }
    assert(all.take(ws@.len() as int) =~= all);
    out
}

pub fn parse_working_copy_names(out: &str) -> (r: Vec<String>)
    ensures
        r.deep_view() == working_copy_names_spec(out@),
{
    collect_flat(&split(out, DELIM_RECORD), names, Ghost(names_fn()))
}

// ---------------------------------------------------------------------------
// Graph lines
// ---------------------------------------------------------------------------

pub open spec fn is_full_id(s: Seq<char>) -> bool {
    s.len() == 32 && forall|i: int| 0 <= i < s.len() ==> 'a' <= #[trigger] s[i] <= 'z'
}

/// The change id at the end of a graph line, when there is one.
pub open spec fn line_head_spec(line: Seq<char>) -> Option<Seq<char>> {
    let ws = words_spec(line);
    if ws.len() > 0 && is_full_id(ws.last()) {
        Some(ws.last())
    } else {
        None
    }
}

pub open spec fn line_heads_spec(s: Seq<char>) -> Seq<Option<Seq<char>>> {
    lines_spec(s).map_values(|l: Seq<char>| line_head_spec(l))
}

fn full_id(s: &str) -> (r: bool)
    ensures
        r == is_full_id(s@),
{
    let cs = chars_of(s);
    if cs.len() != 32 {
        return false;
    }
    for i in 0..cs.len()
        invariant
            cs@ == s@,
            cs@.len() == 32,
            forall|j: int| 0 <= j < i ==> 'a' <= #[trigger] cs@[j] <= 'z',
    {
        if !('a' <= cs[i] && cs[i] <= 'z') {
            return false;
        }
    }
    true
}

fn line_head(line: &str) -> (r: Option<String>)
    ensures
        r.deep_view() == line_head_spec(line@),
{
    let ws = words(line);
    assert(ws.deep_view().len() == ws@.len());
    if ws.len() > 0 && full_id(&ws[ws.len() - 1]) {
        Some(ws[ws.len() - 1].clone())
    } else {
        None
    }
}

pub fn parse_line_heads(s: &str) -> (r: Vec<Option<String>>)
    ensures
        r.deep_view() == line_heads_spec(s@),
{
    let ls = lines(s);
    let ghost all = line_heads_spec(s@);
    let mut out: Vec<Option<String>> = Vec::new();
    for i in 0..ls.len()
        invariant
            all == line_heads_spec(s@),
            ls.deep_view() == lines_spec(s@),
            out.deep_view() == all.take(i as int),
    {
        let ghost before = out.deep_view();
        assert(ls.deep_view()[i as int] == ls@[i as int]@);
        let h = line_head(&ls[i]);
        out.push(h);
        assert(out.deep_view() =~= before.push(h.deep_view()));
        assert(all.take(i + 1) =~= all.take(i as int).push(all[i as int]));
    }
    assert(all.take(ls@.len() as int) =~= all);
    out
}

/// How many lines a display template writes for each revision.
pub open spec fn template_lines(tmpl: Seq<char>) -> nat {
    let n = count_spec(tmpl, "\"\\n\""@);
    if n == 0 {
        1
    } else {
        n
    }
}

/// A template that writes the change id on each of the lines that `tmpl` writes.
pub open spec fn pass2_spec(tmpl: Seq<char>) -> Seq<char> {
    join_spec(
        Seq::new(template_lines(tmpl), |i: int| "change_id"@),
        " ++ \"\\n\" ++ "@,
    )
}

pub fn build_pass2_template(display_template: &str) -> (r: String)
    ensures
        r@ == pass2_spec(display_template@),
{
    proof {
        reveal_strlit("\"\\n\"");
    }
    let n = count(display_template, "\"\\n\"");
    let lines_wanted: usize = if n == 0 {
        1
    } else {
        n
    };
    let mut parts: Vec<String> = Vec::new();
    for i in 0..lines_wanted
        invariant
            parts.deep_view() == Seq::new(i as nat, |i: int| "change_id"@),
    {
        let ghost before = parts.deep_view();
        parts.push("change_id".to_string());
        assert(parts.deep_view() =~= before.push("change_id"@));
        assert(parts.deep_view() =~= Seq::new((i + 1) as nat, |i: int| "change_id"@));
    }
    join(&parts, " ++ \"\\n\" ++ ")
}

// ---------------------------------------------------------------------------
// Ranks
// ---------------------------------------------------------------------------

/// Where `id` stands last in `ids`; behind everything when it is absent.
pub open spec fn rank_of(ids: Seq<Seq<char>>, id: Seq<char>) -> usize
    decreases ids.len(),
{
    if ids.len() == 0 {
        usize::MAX
    } else if ids.last() == id {
        (ids.len() - 1) as usize
    } else {
        rank_of(ids.drop_last(), id)
    }
}

pub fn rank(ids: &Vec<String>, id: &str) -> (r: usize)
    ensures
        r == rank_of(ids.deep_view(), id@),
{
    let ghost all = ids.deep_view();
    let mut i = ids.len();
    assert(all.take(i as int) =~= all);
    while i > 0
        invariant
            i <= ids@.len(),
            all == ids.deep_view(),
            rank_of(all, id@) == rank_of(all.take(i as int), id@),
        decreases i,
    {
        assert(all.take(i as int).drop_last() =~= all.take(i - 1));
        assert(all.take(i as int).last() == ids@[i - 1]@);
        if same(&ids[i - 1], id) {
            return i - 1;
        }
        i = i - 1;
    }
    usize::MAX
}

} // verus!
