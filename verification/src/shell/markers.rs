//! Marker blocks in rc files: finding, adding, replacing and removing them.

use vstd::prelude::*;

use crate::shell::scripts::{stanza_body, stanza_of, MANAGED_HEADER, MARKER_BEGIN, MARKER_END};
use crate::text::{
    byte_len, bytes_of, cat2, cat3, char_at, char_index, chars_of, empty, first_index, index_of,
    is_cut, lemma_bytes_add, lemma_char_at_order, lemma_cut, lemma_head_bytes, lemma_index_is,
    lemma_index_of, same, slice, trim_end, trim_end_spec, Cut,
};

verus! {

// ---------------------------------------------------------------------------
// Hits
// ---------------------------------------------------------------------------

/// What was found in a configuration file.
#[derive(Debug, Clone)]
pub enum HitKind {
    /// A whole marker block: where it starts and ends, in bytes, both marker lines included.
    MarkerBlock { start: usize, end: usize },
    /// A line outside of a block that loads the integration.
    Legacy,
    MalformedMarker,
    /// A line that loads a file which cannot be told.
    UnresolvedSource(String),
}

pub enum HitKindV {
    MarkerBlock { start: nat, end: nat },
    Legacy,
    MalformedMarker,
    UnresolvedSource(Seq<char>),
}

impl DeepView for HitKind {
    type V = HitKindV;

    open spec fn deep_view(&self) -> HitKindV {
        match self {
            HitKind::MarkerBlock { start, end } => HitKindV::MarkerBlock {
                start: *start as nat,
                end: *end as nat,
            },
            HitKind::Legacy => HitKindV::Legacy,
            HitKind::MalformedMarker => HitKindV::MalformedMarker,
            HitKind::UnresolvedSource(raw) => HitKindV::UnresolvedSource(raw@),
        }
    }
}

/// The line of a file that loads another one.
#[derive(Debug, Clone)]
pub struct Via {
    pub path: String,
    pub line_no: usize,
}

pub struct ViaV {
    pub path: Seq<char>,
    pub line_no: nat,
}

impl DeepView for Via {
    type V = ViaV;

    open spec fn deep_view(&self) -> ViaV {
        ViaV { path: self.path@, line_no: self.line_no as nat }
    }
}

pub fn copy_via(v: &Option<Via>) -> (r: Option<Via>)
    ensures
        r.deep_view() == v.deep_view(),
{
    match v {
        Some(x) => Some(Via { path: x.path.clone(), line_no: x.line_no }),
        None => None,
    }
}

#[derive(Debug, Clone)]
pub struct Hit {
    pub path: String,
    pub line_no: usize,
    pub line_text: String,
    pub kind: HitKind,
    pub via: Option<Via>,
}

pub struct HitV {
    pub path: Seq<char>,
    pub line_no: nat,
    pub line_text: Seq<char>,
    pub kind: HitKindV,
    pub via: Option<ViaV>,
}

impl DeepView for Hit {
    type V = HitV;

    open spec fn deep_view(&self) -> HitV {
        HitV {
            path: self.path@,
            line_no: self.line_no as nat,
            line_text: self.line_text@,
            kind: self.kind.deep_view(),
            via: self.via.deep_view(),
        }
    }
}

// ---------------------------------------------------------------------------
// Finding
// ---------------------------------------------------------------------------

/// Length of the first row of `s`, its newline included.
pub open spec fn row_len(s: Seq<char>) -> nat {
    if index_of(s, '\n') < s.len() {
        index_of(s, '\n') + 1
    } else {
        s.len()
    }
}

pub proof fn lemma_row_len(s: Seq<char>)
    requires
        s.len() > 0,
    ensures
        0 < row_len(s) <= s.len(),
        row_len(s) == s.len() || s[row_len(s) - 1] == '\n',
        forall|j: int| 0 <= j < row_len(s) - 1 ==> s[j] != '\n',
{
    lemma_index_of(s, '\n');
}

/// How far a file has been read.
pub struct MarksV {
    /// Where the open block started and in which line.
    pub begin: Option<(nat, nat)>,
    /// Has the open block started twice?
    pub double: bool,
    /// Bytes read.
    pub at: nat,
    /// Lines read.
    pub line: nat,
    /// The whole blocks.
    pub ranges: Seq<(nat, nat)>,
    pub hits: Seq<HitV>,
}

pub open spec fn no_marks() -> MarksV {
    MarksV {
        begin: None,
        double: false,
        at: 0,
        line: 0,
        ranges: Seq::empty(),
        hits: Seq::empty(),
    }
}

pub open spec fn malformed(
    path: Seq<char>,
    via: Option<ViaV>,
    line_no: nat,
    line_text: Seq<char>,
) -> HitV {
    HitV { path, line_no, line_text, kind: HitKindV::MalformedMarker, via }
}

pub open spec fn block_hit(
    path: Seq<char>,
    via: Option<ViaV>,
    line_no: nat,
    start: nat,
    end: nat,
) -> HitV {
    HitV {
        path,
        line_no,
        line_text: MARKER_BEGIN@,
        kind: HitKindV::MarkerBlock { start, end },
        via,
    }
}

/// Reads one row.
pub open spec fn mark_row(path: Seq<char>, via: Option<ViaV>, m: MarksV, row: Seq<char>) -> MarksV {
    let text = trim_end_spec(row, Cut::Only('\n'));
    let next = MarksV { at: m.at + bytes_of(row), line: m.line + 1, ..m };
    if text == MARKER_BEGIN@ {
        MarksV {
            begin: Some((m.at, m.line + 1)),
            double: m.double || m.begin is Some,
            hits: match m.begin {
                Some(b) => m.hits.push(malformed(path, via, b.1, text)),
                None => m.hits,
            },
            ..next
        }
    } else if text == MARKER_END@ {
        match m.begin {
            Some(b) => if m.double {
                MarksV { begin: None, double: false, ..next }
            } else {
                MarksV {
                    begin: None,
                    double: false,
                    ranges: m.ranges.push((b.0, m.at + bytes_of(row))),
                    hits: m.hits.push(block_hit(path, via, b.1, b.0, m.at + bytes_of(row))),
                    ..next
                }
            },
            None => MarksV {
                hits: m.hits.push(malformed(path, via, m.line + 1, text)),
                ..next
            },
        }
    } else {
        next
    }
}

/// Reads `s` row by row.
pub open spec fn mark_text(path: Seq<char>, via: Option<ViaV>, m: MarksV, s: Seq<char>) -> MarksV
    decreases s.len(),
    via mark_text_decreases
{
    if s.len() == 0 {
        m
    } else {
        let n = row_len(s) as int;
        mark_text(path, via, mark_row(path, via, m, s.take(n)), s.skip(n))
    }
}

#[via_fn]
proof fn mark_text_decreases(path: Seq<char>, via: Option<ViaV>, m: MarksV, s: Seq<char>) {
    if s.len() > 0 {
        lemma_row_len(s);
    }
}

/// The whole blocks of a file, as ranges of bytes.
pub open spec fn ranges_of(path: Seq<char>, via: Option<ViaV>, s: Seq<char>) -> Seq<(nat, nat)> {
    mark_text(path, via, no_marks(), s).ranges
}

/// The whole blocks and the markers that belong to none. A block that stays open is malformed.
pub open spec fn marks_of(path: Seq<char>, via: Option<ViaV>, s: Seq<char>) -> Seq<HitV> {
    let m = mark_text(path, via, no_marks(), s);
    match m.begin {
        Some(b) => m.hits.push(malformed(path, via, b.1, MARKER_BEGIN@)),
        None => m.hits,
    }
}

pub open spec fn spans(v: Seq<(usize, usize)>) -> Seq<(nat, nat)> {
    v.map_values(|p: (usize, usize)| (p.0 as nat, p.1 as nat))
}

pub open spec fn span(p: Option<(usize, usize)>) -> Option<(nat, nat)> {
    match p {
        Some(x) => Some((x.0 as nat, x.1 as nat)),
        None => None,
    }
}

fn add_hit(hits: &mut Vec<Hit>, hit: Hit)
    ensures
        final(hits).deep_view() == old(hits).deep_view().push(hit.deep_view()),
{
    let ghost before = hits.deep_view();
    hits.push(hit);
    assert(hits.deep_view() =~= before.push(hit.deep_view()));
}

/// The row that starts at the character `i` and the byte `at`: where the next one starts, the row
/// itself, and the byte behind it.
pub fn cut_row(cs: &Vec<char>, i: usize, at: usize, total: usize) -> (r: (usize, String, usize))
    requires
        i < cs@.len(),
        at == bytes_of(cs@.take(i as int)),
        total == bytes_of(cs@),
    ensures
        i < r.0 <= cs@.len(),
        r.0 == i + row_len(cs@.skip(i as int)),
        r.1@ == cs@.skip(i as int).take(r.0 - i),
        cs@.skip(i as int).skip(r.0 - i) == cs@.skip(r.0 as int),
        r.2 == at + bytes_of(r.1@),
        r.2 == bytes_of(cs@.take(r.0 as int)),
{
    let n = cs.len();
    let ghost rest = cs@.skip(i as int);
    proof {
        lemma_row_len(rest);
    }
    let newline = first_index(cs, i, '\n');
    let next: usize = if newline < n {
        newline + 1
    } else {
        n
    };
    assert(next - i == row_len(rest));
    let row = slice(cs, i, next);
    assert(row@ =~= rest.take(next - i));
    assert(rest.skip(next - i) =~= cs@.skip(next as int));
    proof {
        lemma_bytes_add(cs@.take(i as int), row@);
        assert(cs@.take(i as int) + row@ =~= cs@.take(next as int));
        lemma_bytes_add(cs@.take(next as int), cs@.skip(next as int));
        assert(cs@.take(next as int) + cs@.skip(next as int) =~= cs@);
    }
    let end = at + byte_len(&row);
    (next, row, end)
}

/// The blocks of a file and what is wrong with its markers.
pub fn find_marker_blocks(path: &str, contents: &str, via: &Option<Via>) -> (r: (
    Vec<(usize, usize)>,
    Vec<Hit>,
))
    ensures
        spans(r.0@) == ranges_of(path@, via.deep_view(), contents@),
        r.1.deep_view() == marks_of(path@, via.deep_view(), contents@),
{
    let cs = chars_of(contents);
    let n = cs.len();
    let total = byte_len(contents);
    let mut begin: Option<(usize, usize)> = None;
    let mut double = false;
    let mut i: usize = 0;
    let mut at: usize = 0;
    let mut line: usize = 0;
    let mut ranges: Vec<(usize, usize)> = Vec::new();
    let mut hits: Vec<Hit> = Vec::new();
    let ghost p = path@;
    let ghost v = via.deep_view();
    assert(contents@.skip(0) =~= contents@);
    assert(contents@.take(0) =~= Seq::empty());
    assert(spans(ranges@) =~= Seq::empty());
    assert(hits.deep_view() =~= Seq::empty());
    while i < n
        invariant
            line <= i <= n,
            total == bytes_of(contents@),
            at == bytes_of(contents@.take(i as int)),
            n == cs@.len(),
            cs@ == contents@,
            p == path@,
            v == via.deep_view(),
            mark_text(p, v, no_marks(), contents@) == mark_text(
                p,
                v,
                MarksV {
                    begin: span(begin),
                    double,
                    at: at as nat,
                    line: line as nat,
                    ranges: spans(ranges@),
                    hits: hits.deep_view(),
                },
                contents@.skip(i as int),
            ),
        decreases n - i,
    {
        let ghost m = MarksV {
            begin: span(begin),
            double,
            at: at as nat,
            line: line as nat,
            ranges: spans(ranges@),
            hits: hits.deep_view(),
        };
        let (next, row, end) = cut_row(&cs, i, at, total);
        let text = trim_end(&row, Cut::Only('\n'));
        if same(&text, MARKER_BEGIN) {
            if let Some(b) = begin {
                add_hit(
                    &mut hits,
                    Hit {
                        path: path.to_string(),
                        line_no: b.1,
                        line_text: text,
                        kind: HitKind::MalformedMarker,
                        via: copy_via(via),
                    },
                );
                double = true;
            }
            begin = Some((at, line + 1));
        } else if same(&text, MARKER_END) {
            match begin {
                Some(b) => {
                    if !double {
                        let ghost before = spans(ranges@);
                        ranges.push((b.0, end));
                        assert(spans(ranges@) =~= before.push((b.0 as nat, end as nat)));
                        add_hit(
                            &mut hits,
                            Hit {
                                path: path.to_string(),
                                line_no: b.1,
                                line_text: MARKER_BEGIN.to_string(),
                                kind: HitKind::MarkerBlock { start: b.0, end },
                                via: copy_via(via),
                            },
                        );
                    }
                    double = false;
                    begin = None;
                },
                None => {
                    add_hit(
                        &mut hits,
                        Hit {
                            path: path.to_string(),
                            line_no: line + 1,
                            line_text: text,
                            kind: HitKind::MalformedMarker,
                            via: copy_via(via),
                        },
                    );
                },
            }
        }
        i = next;
        at = end;
        line = line + 1;
        proof {
            let after = MarksV {
                begin: span(begin),
                double,
                at: at as nat,
                line: line as nat,
                ranges: spans(ranges@),
                hits: hits.deep_view(),
            };
            assert(after == mark_row(p, v, m, row@));
        }
    }
    assert(contents@.skip(n as int) =~= Seq::empty());
    if let Some(b) = begin {
        add_hit(
            &mut hits,
            Hit {
                path: path.to_string(),
                line_no: b.1,
                line_text: MARKER_BEGIN.to_string(),
                kind: HitKind::MalformedMarker,
                via: copy_via(via),
            },
        );
    }
    (ranges, hits)
}

// ---------------------------------------------------------------------------
// Changing
// ---------------------------------------------------------------------------

/// Does `s` end in an empty line?
pub open spec fn ends_blank(s: Seq<char>) -> bool {
    s.len() >= 2 && s[s.len() - 1] == '\n' && s[s.len() - 2] == '\n'
}

/// `s` with its last line ended.
pub open spec fn ended(s: Seq<char>) -> Seq<char> {
    if s.len() > 0 && s.last() != '\n' {
        s.push('\n')
    } else {
        s
    }
}

/// `s` with an empty line at its end, unless it is empty.
pub open spec fn spaced(s: Seq<char>) -> Seq<char> {
    if ended(s).len() > 0 && !ends_blank(ended(s)) {
        ended(s).push('\n')
    } else {
        ended(s)
    }
}

/// Adds a block behind an empty line.
pub fn append_block(rc_contents: &str, stanza: &str) -> (r: String)
    ensures
        r@ == spaced(rc_contents@) + stanza@,
{
    let mut out = chars_of(rc_contents);
    let n = out.len();
    if n > 0 && out[n - 1] != '\n' {
        out.push('\n');
    }
    assert(out@ == ended(rc_contents@));
    let n = out.len();
    if n > 0 && !(n >= 2 && out[n - 1] == '\n' && out[n - 2] == '\n') {
        out.push('\n');
    }
    assert(out@ == spaced(rc_contents@));
    let head = slice(&out, 0, out.len());
    assert(head@ =~= out@);
    cat2(&head, stanza)
}

pub open spec fn replaced(rc: Seq<char>, start: int, end: int, stanza: Seq<char>) -> Seq<char> {
    rc.take(start) + stanza + rc.skip(end)
}

/// Puts a block in the place of another, which stands from byte `start` to byte `end`.
pub fn replace_block(rc_contents: &str, start: usize, end: usize, stanza: &str) -> (r: String)
    requires
        is_cut(rc_contents@, start as nat),
        is_cut(rc_contents@, end as nat),
    ensures
        r@ == replaced(
            rc_contents@,
            char_at(rc_contents@, start as nat) as int,
            char_at(rc_contents@, end as nat) as int,
            stanza@,
        ),
{
    let cs = chars_of(rc_contents);
    let from = char_index(&cs, start);
    let to = char_index(&cs, end);
    let head = slice(&cs, 0, from);
    let tail = slice(&cs, to, cs.len());
    assert(head@ =~= rc_contents@.take(from as int));
    assert(tail@ =~= rc_contents@.skip(to as int));
    cat3(&head, stanza, &tail)
}

/// `rc` without the block from `start` to `end`. Of an empty line before the block one newline
/// goes with it, and of two empty lines around it one stays.
pub open spec fn removed(rc: Seq<char>, start: int, end: int) -> Seq<char> {
    if ends_blank(rc.take(start)) {
        rc.take(start - 1) + (if end < rc.len() && rc[end] == '\n' {
            rc.skip(end + 1)
        } else {
            rc.skip(end)
        })
    } else {
        rc.take(start) + rc.skip(end)
    }
}

/// Takes out the block that stands from byte `start` to byte `end`.
pub fn remove_block(rc_contents: &str, start: usize, end: usize) -> (r: String)
    requires
        is_cut(rc_contents@, start as nat),
        is_cut(rc_contents@, end as nat),
    ensures
        r@ == removed(
            rc_contents@,
            char_at(rc_contents@, start as nat) as int,
            char_at(rc_contents@, end as nat) as int,
        ),
{
    let cs = chars_of(rc_contents);
    let mut from: usize = char_index(&cs, start);
    let mut to: usize = char_index(&cs, end);
    if from >= 2 && cs[from - 1] == '\n' && cs[from - 2] == '\n' {
        from = from - 1;
        if to < cs.len() && cs[to] == '\n' {
            to = to + 1;
        }
    }
    let head = slice(&cs, 0, from);
    let tail = slice(&cs, to, cs.len());
    assert(head@ =~= rc_contents@.take(from as int));
    assert(tail@ =~= rc_contents@.skip(to as int));
    cat2(&head, &tail)
}

/// `rc` with the block in the place of the one that it has.
pub open spec fn renewed(rc: Seq<char>, start: int, end: int, stanza: Seq<char>) -> Seq<char> {
    replaced(
        rc,
        start,
        end,
        if end >= rc.len() || rc[end] == '\n' {
            stanza
        } else {
            stanza.push('\n')
        },
    )
}

/// Puts the block in the place of the one that stands from byte `start` to byte `end`, on lines of
/// its own.
pub fn renew_block(rc_contents: &str, start: usize, end: usize, stanza: &str) -> (r: String)
    requires
        is_cut(rc_contents@, start as nat),
        is_cut(rc_contents@, end as nat),
    ensures
        r@ == renewed(
            rc_contents@,
            char_at(rc_contents@, start as nat) as int,
            char_at(rc_contents@, end as nat) as int,
            stanza@,
        ),
{
    let cs = chars_of(rc_contents);
    let to = char_index(&cs, end);
    if to >= cs.len() || cs[to] == '\n' {
        replace_block(rc_contents, start, end, stanza)
    } else {
        let mut block = stanza.to_string();
        block.push('\n');
        replace_block(rc_contents, start, end, &block)
    }
}

/// An rc file with the integration: its first block renewed, else a new block.
pub open spec fn installed(path: Seq<char>, rc: Seq<char>, stanza: Seq<char>) -> Seq<char> {
    let found = ranges_of(path, None, rc);
    if found.len() > 0 {
        renewed(rc, char_at(rc, found[0].0) as int, char_at(rc, found[0].1) as int, stanza)
    } else {
        spaced(rc) + stanza
    }
}

/// An rc file without its first block.
pub open spec fn uninstalled(path: Seq<char>, rc: Seq<char>) -> Seq<char> {
    let found = ranges_of(path, None, rc);
    if found.len() > 0 {
        removed(rc, char_at(rc, found[0].0) as int, char_at(rc, found[0].1) as int)
    } else {
        rc
    }
}

// ---------------------------------------------------------------------------
// Laws
// ---------------------------------------------------------------------------

/// Reading a text whose first part is whole lines is reading one part after the other.
proof fn lemma_mark_concat(
    path: Seq<char>,
    via: Option<ViaV>,
    m: MarksV,
    a: Seq<char>,
    b: Seq<char>,
)
    requires
        a.len() == 0 || a.last() == '\n',
    ensures
        mark_text(path, via, m, a + b) == mark_text(path, via, mark_text(path, via, m, a), b),
    decreases a.len(),
{
    if a.len() == 0 {
        assert(a + b =~= b);
    } else {
        lemma_row_len(a);
        let n = row_len(a) as int;
        let s = a + b;
        if n == a.len() {
            assert(a[n - 1] == '\n');
        }
        assert forall|j: int| 0 <= j < n - 1 implies s[j] != '\n' by {
            assert(s[j] == a[j]);
        }
        assert(s[n - 1] == '\n');
        lemma_index_is(s, '\n', n - 1);
        assert(row_len(s) == n);
        assert(s.take(n) =~= a.take(n));
        assert(s.skip(n) =~= a.skip(n) + b);
        let row = mark_row(path, via, m, a.take(n));
        if a.skip(n).len() > 0 {
            assert(a.skip(n).last() == a.last());
        }
        lemma_mark_concat(path, via, row, a.skip(n), b);
    }
}

proof fn lemma_bytes_split(s: Seq<char>, n: int)
    requires
        0 <= n <= s.len(),
    ensures
        bytes_of(s) == bytes_of(s.take(n)) + bytes_of(s.skip(n)),
{
    assert(s =~= s.take(n) + s.skip(n));
    lemma_bytes_add(s.take(n), s.skip(n));
}

/// Blocks that were found stay found.
proof fn lemma_ranges_grow(path: Seq<char>, via: Option<ViaV>, m: MarksV, s: Seq<char>)
    ensures
        m.ranges.is_prefix_of(mark_text(path, via, m, s).ranges),
        mark_text(path, via, m, s).at == m.at + bytes_of(s),
    decreases s.len(),
{
    if s.len() > 0 {
        lemma_row_len(s);
        let n = row_len(s) as int;
        lemma_bytes_split(s, n);
        lemma_ranges_grow(path, via, mark_row(path, via, m, s.take(n)), s.skip(n));
    }
}

/// Nothing that a marker line has.
pub open spec fn no_angle(s: Seq<char>) -> bool {
    forall|i: int| 0 <= i < s.len() ==> s[i] != '>' && s[i] != '<'
}

proof fn lemma_trim_newline(row: Seq<char>)
    requires
        row.len() > 0,
        forall|j: int| 0 <= j < row.len() - 1 ==> row[j] != '\n',
    ensures
        trim_end_spec(row, Cut::Only('\n')) == (if row.last() == '\n' {
            row.drop_last()
        } else {
            row
        }),
{
    reveal_with_fuel(trim_end_spec, 2);
}

/// Text without marker lines changes nothing but the position.
proof fn lemma_mark_plain(path: Seq<char>, via: Option<ViaV>, m: MarksV, s: Seq<char>)
    requires
        no_angle(s),
    ensures
        ({
            let r = mark_text(path, via, m, s);
            r == MarksV { at: m.at + bytes_of(s), line: r.line, ..m }
        }),
    decreases s.len(),
{
    if s.len() > 0 {
        lemma_row_len(s);
        let n = row_len(s) as int;
        let row = s.take(n);
        assert forall|j: int| 0 <= j < row.len() - 1 implies row[j] != '\n' by {
            assert(row[j] == s[j]);
        }
        lemma_trim_newline(row);
        let text = trim_end_spec(row, Cut::Only('\n'));
        reveal_strlit("# >>> ji shell integration >>>");
        reveal_strlit("# <<< ji shell integration <<<");
        assert(forall|i: int| 0 <= i < text.len() ==> text[i] == s[i]);
        assert(MARKER_BEGIN@[2] == '>');
        assert(MARKER_END@[2] == '<');
        if text == MARKER_BEGIN@ {
            assert(text[2] == s[2]);
        }
        if text == MARKER_END@ {
            assert(text[2] == s[2]);
        }
        lemma_bytes_split(s, n);
        lemma_mark_plain(path, via, mark_row(path, via, m, row), s.skip(n));
    }
}

proof fn lemma_marker_rows()
    ensures
        trim_end_spec(MARKER_BEGIN@.push('\n'), Cut::Only('\n')) == MARKER_BEGIN@,
        trim_end_spec(MARKER_END@.push('\n'), Cut::Only('\n')) == MARKER_END@,
        forall|j: int| 0 <= j < MARKER_BEGIN@.len() ==> MARKER_BEGIN@[j] != '\n',
        forall|j: int| 0 <= j < MARKER_END@.len() ==> MARKER_END@[j] != '\n',
        MARKER_BEGIN@ != MARKER_END@,
{
    reveal_strlit("# >>> ji shell integration >>>");
    reveal_strlit("# <<< ji shell integration <<<");
    assert(MARKER_BEGIN@[2] == '>');
    assert(MARKER_END@[2] == '<');
    lemma_trim_newline(MARKER_BEGIN@.push('\n'));
    lemma_trim_newline(MARKER_END@.push('\n'));
    assert(MARKER_BEGIN@.push('\n').drop_last() =~= MARKER_BEGIN@);
    assert(MARKER_END@.push('\n').drop_last() =~= MARKER_END@);
}

proof fn lemma_one_row(path: Seq<char>, via: Option<ViaV>, m: MarksV, text: Seq<char>)
    requires
        forall|j: int| 0 <= j < text.len() ==> text[j] != '\n',
    ensures
        mark_text(path, via, m, text.push('\n')) == mark_row(path, via, m, text.push('\n')),
{
    let s = text.push('\n');
    lemma_index_is(s, '\n', text.len() as int);
    assert(row_len(s) == s.len());
    assert(s.take(s.len() as int) =~= s);
    assert(s.skip(s.len() as int) =~= Seq::empty());
    reveal_with_fuel(mark_text, 2);
}

proof fn lemma_stanza_body(init: Seq<char>)
    requires
        no_angle(init),
    ensures
        no_angle(stanza_body(init)),
        stanza_body(init).len() > 0,
        stanza_body(init).last() == '\n',
{
    reveal_strlit("# ji-managed: do not edit");
    reveal_strlit(
        ". Run `ji config shell uninstall` to remove.\n[ -f \"${XDG_CONFIG_HOME:-$HOME/.config}/ji/",
    );
    reveal_strlit("\" ] \\\n    && . \"${XDG_CONFIG_HOME:-$HOME/.config}/ji/");
    reveal_strlit("\"\n");
    let a = MANAGED_HEADER@;
    let b =
        ". Run `ji config shell uninstall` to remove.\n[ -f \"${XDG_CONFIG_HOME:-$HOME/.config}/ji/"@;
    let c = "\" ] \\\n    && . \"${XDG_CONFIG_HOME:-$HOME/.config}/ji/"@;
    let d = "\"\n"@;
    assert(no_angle(a));
    assert(no_angle(b));
    assert(no_angle(c));
    assert(no_angle(d));
    assert(d.last() == '\n');
}

/// Outside of a block, the stanza is read as one whole block.
proof fn lemma_mark_stanza(path: Seq<char>, via: Option<ViaV>, m: MarksV, init: Seq<char>)
    requires
        m.begin is None,
        !m.double,
        no_angle(init),
    ensures
        ({
            let r = mark_text(path, via, m, stanza_of(init));
            let end = m.at + bytes_of(stanza_of(init));
            &&& r.begin is None
            &&& !r.double
            &&& r.at == end
            &&& r.ranges == m.ranges.push((m.at, end))
        }),
{
    let first = MARKER_BEGIN@.push('\n');
    let body = stanza_body(init);
    let last = MARKER_END@.push('\n');
    reveal_strlit("\n");
    assert(stanza_of(init) =~= first + (body + last)) by {
        assert("\n"@ =~= seq!['\n']);
    }
    lemma_bytes_add(first, body + last);
    lemma_bytes_add(body, last);
    lemma_marker_rows();
    lemma_stanza_body(init);
    lemma_mark_concat(path, via, m, first, body + last);
    lemma_one_row(path, via, m, MARKER_BEGIN@);
    let m1 = mark_row(path, via, m, first);
    lemma_mark_concat(path, via, m1, body, last);
    lemma_mark_plain(path, via, m1, body);
    let m2 = mark_text(path, via, m1, body);
    lemma_one_row(path, via, m2, MARKER_END@);
}

/// The state outside of a block, with none found yet.
pub open spec fn is_clear(m: MarksV) -> bool {
    m.begin is None && !m.double && m.ranges.len() == 0
}

/// In `s`, read from `m` on, the first block starts at `start`: either it was open in `m`, or the
/// lines before it are read and no block is open.
pub open spec fn starts_at(
    path: Seq<char>,
    via: Option<ViaV>,
    m: MarksV,
    s: Seq<char>,
    start: nat,
) -> bool {
    let k = char_at(s, (start - m.at) as nat) as int;
    ||| m.begin matches Some(b) && !m.double && start == b.0
    ||| {
        &&& m.at <= start
        &&& is_cut(s, (start - m.at) as nat)
        &&& k == 0 || s[k - 1] == '\n'
        &&& is_clear(mark_text(path, via, m, s.take(k)))
    }
}

proof fn lemma_cut_behind(s: Seq<char>, n: int, x: nat)
    requires
        0 <= n <= s.len(),
        is_cut(s.skip(n), x),
    ensures
        is_cut(s, bytes_of(s.take(n)) + x),
        char_at(s, bytes_of(s.take(n)) + x) == n + char_at(s.skip(n), x),
{
    let rest = s.skip(n);
    lemma_head_bytes(rest, x);
    let k = char_at(rest, x) as int;
    assert(s.take(n + k) =~= s.take(n) + rest.take(k));
    lemma_bytes_add(s.take(n), rest.take(k));
    lemma_cut(s, n + k);
}

pub proof fn lemma_first_range(path: Seq<char>, via: Option<ViaV>, m: MarksV, s: Seq<char>)
    requires
        m.ranges.len() == 0,
        m.double ==> m.begin is Some,
        m.begin matches Some(b) ==> b.0 <= m.at,
        mark_text(path, via, m, s).ranges.len() > 0,
    ensures
        mark_text(path, via, m, s).ranges[0].0 <= mark_text(path, via, m, s).ranges[0].1,
        m.at <= mark_text(path, via, m, s).ranges[0].1,
        is_cut(s, (mark_text(path, via, m, s).ranges[0].1 - m.at) as nat),
        starts_at(path, via, m, s, mark_text(path, via, m, s).ranges[0].0),
    decreases s.len(),
{
    let all = mark_text(path, via, m, s).ranges;
    if s.len() > 0 {
        lemma_row_len(s);
        let n = row_len(s) as int;
        let row = s.take(n);
        let next = mark_row(path, via, m, row);
        let rest = s.skip(n);
        lemma_ranges_grow(path, via, next, rest);
        if next.ranges.len() > 0 {
            assert(all[0] == next.ranges[0]);
            lemma_cut(s, n);
        } else {
            lemma_first_range(path, via, next, rest);
            lemma_cut_behind(s, n, (all[0].1 - next.at) as nat);
            let k = char_at(rest, (all[0].0 - next.at) as nat) as int;
            if next.begin matches Some(b) && !next.double && all[0].0 == b.0 {
                if m.begin is None {
                    assert(s.take(0) =~= Seq::empty());
                }
            } else {
                assert(rest.len() > 0);
                assert(s[n - 1] == '\n');
                lemma_cut_behind(s, n, (all[0].0 - next.at) as nat);
                lemma_head_bytes(rest, (all[0].0 - next.at) as nat);
                let t = s.take(n + k);
                assert(t.take(n) =~= row);
                assert(t.skip(n) =~= rest.take(k));
                assert forall|j: int| 0 <= j < n - 1 implies t[j] != '\n' by {
                    assert(t[j] == s[j]);
                }
                assert(t[n - 1] == '\n');
                lemma_index_is(t, '\n', n - 1);
                assert(row_len(t) == n);
                if k > 0 {
                    assert(rest[k - 1] == s[n + k - 1]);
                }
            }
        }
    }
}

/// Ending the last line of a text that has no whole block changes nothing but the position.
proof fn lemma_mark_ended(path: Seq<char>, via: Option<ViaV>, m: MarksV, s: Seq<char>)
    requires
        mark_text(path, via, m, s).ranges.len() == 0,
    ensures
        mark_text(path, via, m, ended(s)) == (MarksV {
            at: m.at + bytes_of(ended(s)),
            ..mark_text(path, via, m, s)
        }),
    decreases s.len(),
{
    lemma_ranges_grow(path, via, m, s);
    if s.len() > 0 && s.last() != '\n' {
        lemma_row_len(s);
        let n = row_len(s) as int;
        let e = ended(s);
        if n == s.len() {
            assert forall|j: int| 0 <= j < n implies s[j] != '\n' by {
                assert(j == n - 1 || s[j] != '\n');
            }
            lemma_one_row(path, via, m, s);
            assert(s.take(n) =~= s);
            assert(s.skip(n) =~= Seq::empty());
            reveal_with_fuel(mark_text, 2);
            lemma_trim_newline(s);
            lemma_trim_newline(e);
            assert(e.drop_last() =~= s);
        } else {
            assert forall|j: int| 0 <= j < n - 1 implies e[j] != '\n' by {
                assert(e[j] == s[j]);
            }
            lemma_index_is(e, '\n', n - 1);
            assert(e.take(n) =~= s.take(n));
            assert(e.skip(n) =~= ended(s.skip(n)));
            assert(s.skip(n).last() == s.last());
            lemma_bytes_split(e, n);
            lemma_mark_ended(path, via, mark_row(path, via, m, s.take(n)), s.skip(n));
        }
    }
}

/// The empty line in front of a block changes nothing but the position.
proof fn lemma_mark_spaced(path: Seq<char>, via: Option<ViaV>, m: MarksV, s: Seq<char>)
    requires
        mark_text(path, via, m, s).ranges.len() == 0,
    ensures
        spaced(s).len() == 0 || spaced(s).last() == '\n',
        ({
            let r = mark_text(path, via, m, spaced(s));
            r == MarksV {
                at: m.at + bytes_of(spaced(s)),
                line: r.line,
                ..mark_text(path, via, m, s)
            }
        }),
{
    lemma_mark_ended(path, via, m, s);
    let e = ended(s);
    if e.len() > 0 && !ends_blank(e) {
        assert(e.push('\n') =~= e + seq!['\n']);
        lemma_bytes_add(e, seq!['\n']);
        lemma_mark_concat(path, via, m, e, seq!['\n']);
        lemma_mark_plain(path, via, mark_text(path, via, m, e), seq!['\n']);
    }
}

/// A new block is found again: it is the first one, at the end of the file.
proof fn lemma_appended(path: Seq<char>, rc: Seq<char>, init: Seq<char>)
    requires
        no_angle(init),
        is_clear(mark_text(path, None, no_marks(), rc)),
    ensures
        ({
            let at = bytes_of(spaced(rc));
            let all = spaced(rc) + stanza_of(init);
            &&& ranges_of(path, None, all) == seq![(at, bytes_of(all))]
            &&& char_at(all, at) == spaced(rc).len()
            &&& char_at(all, bytes_of(all)) == all.len()
            &&& mark_text(path, None, no_marks(), all).begin is None
        }),
{
    let s = spaced(rc);
    lemma_mark_spaced(path, None, no_marks(), rc);
    let m = mark_text(path, None, no_marks(), s);
    lemma_mark_concat(path, None, no_marks(), s, stanza_of(init));
    lemma_mark_stanza(path, None, m, init);
    let all = s + stanza_of(init);
    lemma_bytes_add(s, stanza_of(init));
    assert(m.ranges.push((m.at, m.at + bytes_of(stanza_of(init)))) =~= seq![
        (bytes_of(s), bytes_of(all)),
    ]);
    assert(all.take(s.len() as int) =~= s);
    lemma_cut(all, s.len() as int);
    assert(all.take(all.len() as int) =~= all);
    lemma_cut(all, all.len() as int);
}

/// A renewed block is found again: it is the first one, where the old one was.
proof fn lemma_renewed(path: Seq<char>, rc: Seq<char>, init: Seq<char>)
    requires
        no_angle(init),
        ranges_of(path, None, rc).len() > 0,
    ensures
        ({
            let r = ranges_of(path, None, rc)[0];
            let once = installed(path, rc, stanza_of(init));
            let end = r.0 + bytes_of(stanza_of(init));
            &&& char_at(rc, r.0) <= char_at(rc, r.1) <= rc.len()
            &&& ranges_of(path, None, once).len() > 0
            &&& ranges_of(path, None, once)[0] == (r.0, end)
            &&& char_at(once, r.0) == char_at(rc, r.0)
            &&& char_at(once, end) == char_at(rc, r.0) + stanza_of(init).len()
        }),
{
    let stanza = stanza_of(init);
    let found = ranges_of(path, None, rc);
    lemma_first_range(path, None, no_marks(), rc);
    lemma_char_at_order(rc, found[0].0, found[0].1);
    lemma_head_bytes(rc, found[0].0);
    lemma_head_bytes(rc, found[0].1);
    let a = char_at(rc, found[0].0) as int;
    let b = char_at(rc, found[0].1) as int;
    let pre = rc.take(a);
    let rest = gap_of(rc, b) + rc.skip(b);
    let once = installed(path, rc, stanza);
    assert(once =~= pre + (stanza + rest));
    let m0 = mark_text(path, None, no_marks(), pre);
    lemma_ranges_grow(path, None, no_marks(), pre);
    if a > 0 {
        assert(pre.last() == rc[a - 1]);
    }
    lemma_mark_concat(path, None, no_marks(), pre, stanza + rest);
    lemma_stanza_ends(init);
    lemma_mark_concat(path, None, m0, stanza, rest);
    lemma_mark_stanza(path, None, m0, init);
    let m1 = mark_text(path, None, m0, stanza);
    lemma_ranges_grow(path, None, m1, rest);
    assert(m1.ranges[0] == (m0.at, m0.at + bytes_of(stanza)));
    let end = a + stanza.len();
    assert(once.take(a) =~= pre);
    lemma_cut(once, a);
    assert(once.take(end) =~= pre + stanza);
    lemma_bytes_add(pre, stanza);
    lemma_cut(once, end);
}

/// What a renewed block gets behind it.
pub open spec fn gap_of(rc: Seq<char>, end: int) -> Seq<char> {
    if end >= rc.len() || rc[end] == '\n' {
        Seq::empty()
    } else {
        seq!['\n']
    }
}

proof fn lemma_renew_again(rc: Seq<char>, a: int, b: int, stanza: Seq<char>)
    requires
        0 <= a <= b <= rc.len(),
    ensures
        ({
            let once = renewed(rc, a, b, stanza);
            renewed(once, a, a + stanza.len(), stanza) == once
        }),
{
    let once = renewed(rc, a, b, stanza);
    let end = a + stanza.len();
    let rest = gap_of(rc, b) + rc.skip(b);
    assert(once =~= rc.take(a) + (stanza + rest));
    assert(once.take(a) =~= rc.take(a));
    assert(once.skip(end) =~= rest);
    if end < once.len() {
        assert(once[end] == rest[0]);
        if gap_of(rc, b).len() == 0 {
            assert(rest[0] == rc[b]);
        }
    }
    assert(renewed(once, a, end, stanza) =~= once);
}

/// Installing twice is installing once, unless a block of the file stays open.
pub proof fn law_install_is_idempotent(path: Seq<char>, rc: Seq<char>, init: Seq<char>)
    requires
        no_angle(init),
        mark_text(path, None, no_marks(), rc).begin is None || ranges_of(path, None, rc).len() > 0,
    ensures
        installed(path, installed(path, rc, stanza_of(init)), stanza_of(init)) == installed(
            path,
            rc,
            stanza_of(init),
        ),
{
    let stanza = stanza_of(init);
    let found = ranges_of(path, None, rc);
    let once = installed(path, rc, stanza);
    lemma_flags(path, None, no_marks(), rc);
    if found.len() == 0 {
        lemma_appended(path, rc, init);
        let at = spaced(rc).len() as int;
        assert(once.take(at) + stanza + once.skip(once.len() as int) =~= once);
    } else {
        lemma_renewed(path, rc, init);
        lemma_renew_again(
            rc,
            char_at(rc, found[0].0) as int,
            char_at(rc, found[0].1) as int,
            stanza,
        );
    }
}

proof fn lemma_stanza_ends(init: Seq<char>)
    ensures
        stanza_of(init).len() > 0,
        stanza_of(init).last() == '\n',
{
    reveal_strlit("\n");
}

/// Only an open block can have started twice.
proof fn lemma_flags(path: Seq<char>, via: Option<ViaV>, m: MarksV, s: Seq<char>)
    requires
        m.double ==> m.begin is Some,
    ensures
        mark_text(path, via, m, s).double ==> mark_text(path, via, m, s).begin is Some,
    decreases s.len(),
{
    if s.len() > 0 {
        lemma_row_len(s);
        let n = row_len(s) as int;
        lemma_flags(path, via, mark_row(path, via, m, s.take(n)), s.skip(n));
    }
}

/// Uninstalling takes out what installing put in: a file that had no markers comes back, with its
/// last line ended, and with one newline less where it ended in an empty line.
pub proof fn law_uninstall_undoes_install(path: Seq<char>, rc: Seq<char>, init: Seq<char>)
    requires
        no_angle(init),
        ranges_of(path, None, rc).len() == 0,
        mark_text(path, None, no_marks(), rc).begin is None,
    ensures
        uninstalled(path, installed(path, rc, stanza_of(init))) == (if ends_blank(rc) {
            rc.drop_last()
        } else {
            ended(rc)
        }),
{
    lemma_flags(path, None, no_marks(), rc);
    lemma_appended(path, rc, init);
    let at = spaced(rc).len() as int;
    let all = spaced(rc) + stanza_of(init);
    assert(all.take(at) =~= spaced(rc));
    assert(all.skip(all.len() as int) =~= Seq::empty());
    if at > 0 {
        assert(ends_blank(spaced(rc)) || (at == 1));
        assert(all.take(at - 1) =~= spaced(rc).drop_last());
    }
    assert(uninstalled(path, all) =~= if ends_blank(rc) {
        rc.drop_last()
    } else {
        ended(rc)
    });
}

/// What was installed last is found as the first block, so that installing and uninstalling agree
/// on what is theirs.
pub proof fn law_installed_block_is_found(path: Seq<char>, rc: Seq<char>, init: Seq<char>)
    requires
        no_angle(init),
        ranges_of(path, None, rc).len() == 0,
        mark_text(path, None, no_marks(), rc).begin is None,
    ensures
        ({
            let all = installed(path, rc, stanza_of(init));
            &&& ranges_of(path, None, all) == seq![(bytes_of(spaced(rc)), bytes_of(all))]
            &&& all.skip(spaced(rc).len() as int) == stanza_of(init)
        }),
{
    lemma_flags(path, None, no_marks(), rc);
    lemma_appended(path, rc, init);
    assert((spaced(rc) + stanza_of(init)).skip(spaced(rc).len() as int) =~= stanza_of(init));
}

/// Does `s` consist of whole lines?
pub open spec fn is_whole(s: Seq<char>) -> bool {
    s.len() == 0 || s.last() == '\n'
}

/// No line of `s` is a marker.
pub open spec fn no_markers(s: Seq<char>) -> bool
    decreases s.len(),
    via no_markers_decreases
{
    if s.len() == 0 {
        true
    } else {
        let n = row_len(s) as int;
        let text = trim_end_spec(s.take(n), Cut::Only('\n'));
        text != MARKER_BEGIN@ && text != MARKER_END@ && no_markers(s.skip(n))
    }
}

#[via_fn]
proof fn no_markers_decreases(s: Seq<char>) {
    if s.len() > 0 {
        lemma_row_len(s);
    }
}

/// A block that has started: a begin line, then lines that are no markers.
pub open spec fn is_open(s: Seq<char>) -> bool {
    let first = MARKER_BEGIN@.push('\n');
    &&& first.is_prefix_of(s)
    &&& is_whole(s.skip(first.len() as int))
    &&& no_markers(s.skip(first.len() as int))
}

/// A block: one that has started, and an end line. Only the last line of a file may lack its
/// newline.
pub open spec fn is_block(s: Seq<char>) -> bool {
    let last = if s.len() > 0 && s.last() == '\n' {
        MARKER_END@.push('\n')
    } else {
        MARKER_END@
    };
    &&& last.is_suffix_of(s)
    &&& is_open(s.take(s.len() - last.len()))
}

/// In `s`, a block fills the lines from byte `r.0` to byte `r.1`.
pub open spec fn block_at(s: Seq<char>, r: (nat, nat)) -> bool {
    let from = char_at(s, r.0) as int;
    let to = char_at(s, r.1) as int;
    &&& is_cut(s, r.0)
    &&& is_cut(s, r.1)
    &&& from < to <= s.len()
    &&& is_whole(s.take(from))
    &&& to == s.len() || is_whole(s.take(to))
    &&& is_block(s.subrange(from, to))
}

proof fn lemma_no_markers_add(a: Seq<char>, b: Seq<char>)
    requires
        is_whole(a),
    ensures
        no_markers(a + b) <==> no_markers(a) && no_markers(b),
    decreases a.len(),
{
    if a.len() == 0 {
        assert(a + b =~= b);
    } else {
        lemma_row_len(a);
        let n = row_len(a) as int;
        let s = a + b;
        assert forall|j: int| 0 <= j < n - 1 implies s[j] != '\n' by {
            assert(s[j] == a[j]);
        }
        assert(s[n - 1] == a[n - 1] == '\n');
        lemma_index_is(s, '\n', n - 1);
        assert(s.take(n) =~= a.take(n));
        assert(s.skip(n) =~= a.skip(n) + b);
        if a.skip(n).len() > 0 {
            assert(a.skip(n).last() == a.last());
        }
        lemma_no_markers_add(a.skip(n), b);
    }
}

/// A position in `a` is the same one in `a + b`.
proof fn lemma_cut_stays(a: Seq<char>, b: Seq<char>, x: nat)
    requires
        is_cut(a, x),
    ensures
        is_cut(a + b, x),
        char_at(a + b, x) == char_at(a, x),
        char_at(a, x) <= a.len(),
{
    lemma_head_bytes(a, x);
    let k = char_at(a, x) as int;
    assert((a + b).take(k) =~= a.take(k));
    lemma_cut(a + b, k);
}

proof fn lemma_block_stays(a: Seq<char>, b: Seq<char>, r: (nat, nat))
    requires
        is_whole(a),
        block_at(a, r),
    ensures
        block_at(a + b, r),
{
    lemma_cut_stays(a, b, r.0);
    lemma_cut_stays(a, b, r.1);
    let from = char_at(a, r.0) as int;
    let to = char_at(a, r.1) as int;
    assert((a + b).take(from) =~= a.take(from));
    assert((a + b).take(to) =~= a.take(to));
    assert((a + b).subrange(from, to) =~= a.subrange(from, to));
    assert(a.take(a.len() as int) =~= a);
}

/// What the marks say of the text `pre` that was read.
spec fn marks_fit(pre: Seq<char>, m: MarksV) -> bool {
    &&& m.at == bytes_of(pre)
    &&& forall|i: int| 0 <= i < m.ranges.len() ==> block_at(pre, #[trigger] m.ranges[i])
    &&& forall|i: int, j: int|
        0 <= i < j < m.ranges.len() ==> (#[trigger] m.ranges[i]).1 <= (#[trigger] m.ranges[j]).0
    &&& forall|i: int|
        0 <= i < m.ranges.len() ==> (#[trigger] m.ranges[i]).1 <= (match m.begin {
            Some(b) => b.0,
            None => m.at,
        })
    &&& m.double ==> m.begin is Some
    &&& match m.begin {
        Some(b) => {
            &&& b.0 <= m.at
            &&& is_cut(pre, b.0)
            &&& is_whole(pre.take(char_at(pre, b.0) as int))
            &&& is_whole(pre) && !m.double ==> is_open(pre.skip(char_at(pre, b.0) as int))
        },
        None => true,
    }
}

/// A started block and an end line make a block.
proof fn lemma_closed(open: Seq<char>, row: Seq<char>)
    requires
        is_open(open),
        row == MARKER_END@ || row == MARKER_END@.push('\n'),
    ensures
        is_block(open + row),
{
    let s = open + row;
    lemma_marker_rows();
    lemma_marker_lens();
    assert(s.last() == row.last());
    assert(s.take(s.len() - row.len()) =~= open);
    assert(s.skip(s.len() - row.len()) =~= row);
}

proof fn lemma_marker_lens()
    ensures
        MARKER_BEGIN@.len() > 0,
        MARKER_END@.len() > 0,
{
    reveal_strlit("# >>> ji shell integration >>>");
    reveal_strlit("# <<< ji shell integration <<<");
}

/// A line that is no marker may follow in a started block.
proof fn lemma_open_grows(open: Seq<char>, row: Seq<char>)
    requires
        is_open(open),
        is_whole(row),
        no_markers(row),
    ensures
        is_open(open + row),
{
    let n = MARKER_BEGIN@.len() as int + 1;
    assert((open + row).skip(n) =~= open.skip(n) + row);
    assert((open + row).take(n) =~= open.take(n));
    lemma_no_markers_add(open.skip(n), row);
    if row.len() > 0 {
        assert((open + row).skip(n).last() == row.last());
    } else {
        assert(open + row =~= open);
    }
}

proof fn lemma_row_fits(
    path: Seq<char>,
    via: Option<ViaV>,
    pre: Seq<char>,
    m: MarksV,
    row: Seq<char>,
)
    requires
        is_whole(pre),
        marks_fit(pre, m),
        row.len() > 0,
        forall|j: int| 0 <= j < row.len() - 1 ==> row[j] != '\n',
    ensures
        marks_fit(pre + row, mark_row(path, via, m, row)),
{
    let all = pre + row;
    let r = mark_row(path, via, m, row);
    let text = trim_end_spec(row, Cut::Only('\n'));
    lemma_trim_newline(row);
    lemma_marker_rows();
    lemma_marker_lens();
    lemma_bytes_add(pre, row);
    assert(all.last() == row.last());
    assert(all.take(all.len() as int) =~= all);
    lemma_cut(all, all.len() as int);
    assert(all.take(pre.len() as int) =~= pre);
    lemma_cut(all, pre.len() as int);
    assert forall|i: int| 0 <= i < m.ranges.len() implies block_at(all, #[trigger] m.ranges[i]) by {
        lemma_block_stays(pre, row, m.ranges[i]);
    }
    if row.last() == '\n' {
        assert(row =~= row.drop_last().push('\n'));
    }
    if let Some(b) = m.begin {
        lemma_cut_stays(pre, row, b.0);
        let k = char_at(pre, b.0) as int;
        assert(all.take(k) =~= pre.take(k));
        assert(all.skip(k) =~= pre.skip(k) + row);
    }
    if text == MARKER_BEGIN@ {
        if is_whole(all) {
            assert(all.skip(pre.len() as int) =~= row);
            assert(row.skip(row.len() as int) =~= Seq::empty());
            assert(row == MARKER_BEGIN@.push('\n'));
            assert(is_open(row));
        }
    } else if text == MARKER_END@ {
        if let Some(b) = m.begin {
            if !m.double {
                let k = char_at(pre, b.0) as int;
                lemma_closed(pre.skip(k), row);
                assert(all.subrange(k, all.len() as int) =~= all.skip(k));
                assert(block_at(all, (b.0, m.at + bytes_of(row))));
            }
        }
    } else if is_whole(all) {
        assert(no_markers(row)) by {
            lemma_index_is(row, '\n', row.len() - 1);
            assert(row.take(row.len() as int) =~= row);
            assert(row.skip(row.len() as int) =~= Seq::empty());
            reveal_with_fuel(no_markers, 2);
        }
        if let Some(b) = m.begin {
            if !m.double {
                lemma_open_grows(pre.skip(char_at(pre, b.0) as int), row);
            }
        }
    }
}

proof fn lemma_text_fits(
    path: Seq<char>,
    via: Option<ViaV>,
    pre: Seq<char>,
    m: MarksV,
    s: Seq<char>,
)
    requires
        is_whole(pre),
        marks_fit(pre, m),
    ensures
        marks_fit(pre + s, mark_text(path, via, m, s)),
    decreases s.len(),
{
    if s.len() == 0 {
        assert(pre + s =~= pre);
    } else {
        lemma_row_len(s);
        let n = row_len(s) as int;
        let row = s.take(n);
        let rest = s.skip(n);
        let next = mark_row(path, via, m, row);
        assert forall|j: int| 0 <= j < row.len() - 1 implies row[j] != '\n' by {
            assert(row[j] == s[j]);
        }
        lemma_row_fits(path, via, pre, m, row);
        assert(pre + s =~= (pre + row) + rest);
        if rest.len() == 0 {
            assert((pre + row) + rest =~= pre + row);
            reveal_with_fuel(mark_text, 2);
        } else {
            assert(row.last() == s[n - 1]);
            assert((pre + row).last() == row.last());
            lemma_text_fits(path, via, pre + row, next, rest);
        }
    }
}

/// Each block that is found runs from a begin line to just behind an end line, with no other marker
/// between them, and the blocks follow one another without overlap.
pub proof fn law_blocks_run_from_begin_to_end(path: Seq<char>, via: Option<ViaV>, s: Seq<char>)
    ensures
        forall|i: int|
            0 <= i < ranges_of(path, via, s).len() ==> block_at(
                s,
                #[trigger] ranges_of(path, via, s)[i],
            ),
        forall|i: int, j: int|
            0 <= i < j < ranges_of(path, via, s).len() ==> (#[trigger] ranges_of(path, via, s)[i]).1
                <= (#[trigger] ranges_of(path, via, s)[j]).0,
{
    let none = Seq::<char>::empty();
    assert(none + s =~= s);
    lemma_text_fits(path, via, none, no_marks(), s);
}

} // verus!
