//! Text in columns, grapheme clusters and words.

use vstd::prelude::*;

use unicode_segmentation::UnicodeSegmentation;
use unicode_width::{UnicodeWidthChar, UnicodeWidthStr};

use crate::search::{dec, dec_spec};
use crate::seqs::{flat, lemma_flat_step};
use crate::text::{byte_len, bytes_of, cat2, chars_of, lemma_bytes_add, slice};

verus! {

// ---------------------------------------------------------------------------
// Widths and clusters
// ---------------------------------------------------------------------------

/// The columns that a text takes, as the `unicode-width` crate computes them.
pub uninterp spec fn str_width(s: Seq<char>) -> usize;

/// `UnicodeWidthStr::width`: a function of the text alone. It is not the sum of the widths of the
/// characters.
#[verifier::external_body]
fn width_of(s: &str) -> (r: usize)
    ensures
        r == str_width(s@),
{
    UnicodeWidthStr::width(s)
}

/// The columns that a character takes, as the `unicode-width` crate says; none for a control
/// character.
pub uninterp spec fn char_width(c: char) -> Option<usize>;

/// `UnicodeWidthChar::width`: a function of the character alone.
#[verifier::external_body]
fn width_of_char(c: char) -> (r: Option<usize>)
    ensures
        r == char_width(c),
{
    UnicodeWidthChar::width(c)
}

/// The extended grapheme clusters of a text, as the `unicode-segmentation` crate finds them.
pub uninterp spec fn graphemes(s: Seq<char>) -> Seq<Seq<char>>;

/// `UnicodeSegmentation::graphemes` for extended clusters: a function of the text alone. The
/// clusters are the text cut into pieces, none of them empty.
#[verifier::external_body]
fn clusters(s: &str) -> (r: Vec<String>)
    ensures
        r.deep_view() == graphemes(s@),
        flat(r.deep_view()) == s@,
        forall|i: int| 0 <= i < r.deep_view().len() ==> (#[trigger] r.deep_view()[i]).len() > 0,
{
    s.graphemes(true).map(|g| g.to_string()).collect()
}

/// The columns of a character, where a control character takes none.
pub open spec fn columns(c: char) -> usize {
    match char_width(c) {
        Some(w) => w,
        None => 0,
    }
}

/// The columns of the characters of a text, one by one.
pub open spec fn text_columns(s: Seq<char>) -> Seq<usize> {
    s.map_values(|c: char| columns(c))
}

fn columns_of(s: &str) -> (r: Vec<usize>)
    ensures
        r@ == text_columns(s@),
{
    let cs = chars_of(s);
    let mut out: Vec<usize> = Vec::new();
    for i in 0..cs.len()
        invariant
            cs@ == s@,
            out@ =~= text_columns(s@).take(i as int),
    {
        let w = match width_of_char(cs[i]) {
            Some(w) => w,
            None => 0,
        };
        out.push(w);
    }
    assert(text_columns(s@).take(s@.len() as int) =~= text_columns(s@));
    out
}

/// The columns of clusters, one by one.
pub open spec fn cluster_columns(gs: Seq<Seq<char>>) -> Seq<usize> {
    gs.map_values(|g: Seq<char>| str_width(g))
}

fn columns_of_clusters(gs: &Vec<String>) -> (r: Vec<usize>)
    ensures
        r@ == cluster_columns(gs.deep_view()),
{
    let ghost all = gs.deep_view();
    let mut out: Vec<usize> = Vec::new();
    assert(all.len() == gs@.len());
    for i in 0..gs.len()
        invariant
            all == gs.deep_view(),
            all.len() == gs@.len(),
            out@ =~= cluster_columns(all).take(i as int),
    {
        assert(all[i as int] == gs@[i as int]@);
        out.push(width_of(&gs[i]));
    }
    assert(cluster_columns(all).take(all.len() as int) =~= cluster_columns(all));
    out
}

/// How many pieces, of the columns `ws`, fit into `limit` columns.
pub open spec fn fitting(ws: Seq<usize>, limit: nat) -> nat
    decreases ws.len(),
{
    if ws.len() == 0 || ws[0] > limit {
        0
    } else {
        1 + fitting(ws.drop_first(), (limit - ws[0]) as nat)
    }
}

/// How many pieces, of the columns `ws`, start before the column `target`.
pub open spec fn before_column(ws: Seq<usize>, target: int) -> nat
    decreases ws.len(),
{
    if ws.len() == 0 || target <= 0 {
        0
    } else {
        1 + before_column(ws.drop_first(), target - ws[0])
    }
}

fn count_before(ws: &Vec<usize>, target: usize) -> (k: usize)
    ensures
        k <= ws@.len(),
        k == before_column(ws@, target as int),
{
    let mut left: usize = target;
    let mut i: usize = 0;
    assert(ws@.skip(0) =~= ws@);
    while i < ws.len() && left > 0
        invariant
            i <= ws@.len(),
            before_column(ws@, target as int) == i + before_column(
                ws@.skip(i as int),
                left as int,
            ),
        decreases ws@.len() - i,
    {
        let w = ws[i];
        let ghost rest = ws@.skip(i + 1);
        assert(ws@.skip(i as int).drop_first() =~= rest);
        assert(left <= w ==> before_column(rest, left - w) == 0);
        assert(before_column(rest, 0) == 0);
        left = if w < left {
            left - w
        } else {
            0
        };
        i = i + 1;
    }
    i
}

// ---------------------------------------------------------------------------
// Truncation
// ---------------------------------------------------------------------------

/// A text of `width` columns, whose characters have the columns `ws`, cut at its end.
pub open spec fn cut_end_spec(s: Seq<char>, width: usize, ws: Seq<usize>, max_cols: nat) -> Seq<
    char,
> {
    if max_cols == 0 {
        Seq::empty()
    } else if width <= max_cols {
        s
    } else {
        s.take(fitting(ws, (max_cols - 1) as nat) as int).push('\u{2026}')
    }
}

/// Cuts a text of `width` columns, whose characters have the columns `ws`, at its end.
pub fn cut_end(s: &str, width: usize, ws: &Vec<usize>, max_cols: usize) -> (r: String)
    requires
        ws@.len() == s@.len(),
    ensures
        r@ == cut_end_spec(s@, width, ws@, max_cols as nat),
{
    if max_cols == 0 {
        let e = String::new();
        assert(e@ =~= Seq::<char>::empty());
        return e;
    }
    if width <= max_cols {
        return s.to_string();
    }
    let cs = chars_of(s);
    let limit = max_cols - 1;
    let mut left: usize = limit;
    let mut i: usize = 0;
    assert(ws@.skip(0) =~= ws@);
    while i < ws.len()
        invariant
            i <= ws@.len(),
            fitting(ws@, limit as nat) == i + fitting(ws@.skip(i as int), left as nat),
        ensures
            i <= ws@.len(),
            fitting(ws@, limit as nat) == i,
        decreases ws@.len() - i,
    {
        assert(ws@.skip(i as int).drop_first() =~= ws@.skip(i + 1));
        if ws[i] > left {
            break;
        }
        left = left - ws[i];
        i = i + 1;
    }
    let mut out = slice(&cs, 0, i);
    assert(out@ =~= s@.take(i as int));
    out.push('\u{2026}');
    out
}

pub open spec fn truncate_end_spec(s: Seq<char>, max_cols: nat) -> Seq<char> {
    cut_end_spec(s, str_width(s), text_columns(s), max_cols)
}

/// Truncates at the end to `max_cols` columns; an ellipsis stands for what is cut.
pub fn truncate_end(s: &str, max_cols: usize) -> (r: String)
    ensures
        r@ == truncate_end_spec(s@, max_cols as nat),
{
    cut_end(s, width_of(s), &columns_of(s), max_cols)
}

/// A text of `width` columns, whose characters have the columns `ws`, cut at its start.
pub open spec fn cut_start_spec(s: Seq<char>, width: usize, ws: Seq<usize>, max_cols: nat) -> Seq<
    char,
> {
    if max_cols == 0 {
        Seq::empty()
    } else if width <= max_cols {
        s
    } else {
        seq!['\u{2026}'] + s.skip(before_column(ws, width - (max_cols - 1)) as int)
    }
}

/// Cuts a text of `width` columns, whose characters have the columns `ws`, at its start.
pub fn cut_start(s: &str, width: usize, ws: &Vec<usize>, max_cols: usize) -> (r: String)
    requires
        ws@.len() == s@.len(),
    ensures
        r@ == cut_start_spec(s@, width, ws@, max_cols as nat),
{
    if max_cols == 0 {
        let e = String::new();
        assert(e@ =~= Seq::<char>::empty());
        return e;
    }
    if width <= max_cols {
        return s.to_string();
    }
    let cs = chars_of(s);
    let k = count_before(ws, width - (max_cols - 1));
    let rest = slice(&cs, k, cs.len());
    assert(rest@ =~= s@.skip(k as int));
    let mut out = String::new();
    out.push('\u{2026}');
    assert(out@ =~= seq!['\u{2026}']);
    cat2(&out, &rest)
}

pub open spec fn truncate_start_spec(s: Seq<char>, max_cols: nat) -> Seq<char> {
    cut_start_spec(s, str_width(s), text_columns(s), max_cols)
}

/// Truncates at the start to `max_cols` columns; an ellipsis stands for what is cut.
pub fn truncate_start(s: &str, max_cols: usize) -> (r: String)
    ensures
        r@ == truncate_start_spec(s@, max_cols as nat),
{
    cut_start(s, width_of(s), &columns_of(s), max_cols)
}

// ---------------------------------------------------------------------------
// Bytes
// ---------------------------------------------------------------------------

/// Where the clusters `gs` end, in bytes.
pub open spec fn end_of(gs: Seq<Seq<char>>) -> nat {
    bytes_of(flat(gs))
}

proof fn lemma_end_step(gs: Seq<Seq<char>>, i: int)
    requires
        0 <= i < gs.len(),
    ensures
        end_of(gs.take(i + 1)) == end_of(gs.take(i)) + bytes_of(gs[i]),
        end_of(gs.take(i + 1)) <= end_of(gs),
{
    lemma_flat_step(gs, i);
    lemma_bytes_add(flat(gs.take(i)), gs[i]);
    lemma_end_prefix(gs, i + 1);
}

proof fn lemma_end_prefix(gs: Seq<Seq<char>>, i: int)
    requires
        0 <= i <= gs.len(),
    ensures
        end_of(gs.take(i)) <= end_of(gs),
    decreases gs.len() - i,
{
    if i < gs.len() {
        lemma_end_prefix(gs, i + 1);
        lemma_flat_step(gs, i);
        lemma_bytes_add(flat(gs.take(i)), gs[i]);
    } else {
        assert(gs.take(i) =~= gs);
    }
}

// ---------------------------------------------------------------------------
// Positions
// ---------------------------------------------------------------------------

/// Where the first `k` clusters end.
fn end_at(gs: &Vec<String>, k: usize) -> (r: usize)
    requires
        k <= gs@.len(),
        end_of(gs.deep_view()) <= usize::MAX,
    ensures
        r == end_of(gs.deep_view().take(k as int)),
{
    let ghost all = gs.deep_view();
    let mut at: usize = 0;
    assert(all.take(0) =~= Seq::empty());
    assert(all.len() == gs@.len());
    for i in 0..k
        invariant
            k <= gs@.len(),
            all == gs.deep_view(),
            all.len() == gs@.len(),
            end_of(all) <= usize::MAX,
            at == end_of(all.take(i as int)),
    {
        proof {
            lemma_end_step(all, i as int);
        }
        assert(all[i as int] == gs@[i as int]@);
        at = at + byte_len(&gs[i]);
    }
    at
}

pub open spec fn none_empty(gs: Seq<Seq<char>>) -> bool {
    forall|i: int| 0 <= i < gs.len() ==> (#[trigger] gs[i]).len() > 0
}

/// The clusters of `s` make up `s`, and none of them is empty.
pub open spec fn segmented(s: Seq<char>) -> bool {
    &&& flat(graphemes(s)) == s
    &&& none_empty(graphemes(s))
}

/// The clusters of a text, which make it up.
fn clusters_in(s: &str) -> (gs: Vec<String>)
    ensures
        gs.deep_view() == graphemes(s@),
        segmented(s@),
        end_of(gs.deep_view()) == bytes_of(s@),
        end_of(gs.deep_view()) <= usize::MAX,
{
    let _n = byte_len(s);
    clusters(s)
}

/// The offset of the first of the clusters `gs`, of the columns `ws`, at or behind a column.
pub open spec fn offset_spec(gs: Seq<Seq<char>>, ws: Seq<usize>, target: nat) -> nat {
    end_of(gs.take(before_column(ws, target as int) as int))
}

/// The offset of the first of the clusters `gs`, of the columns `ws`, at or behind a column.
pub fn offset_in(gs: &Vec<String>, ws: &Vec<usize>, target: usize) -> (r: usize)
    requires
        ws@.len() == gs@.len(),
        end_of(gs.deep_view()) <= usize::MAX,
    ensures
        r == offset_spec(gs.deep_view(), ws@, target as nat),
{
    end_at(gs, count_before(ws, target))
}

pub open spec fn column_offset(s: Seq<char>, target: nat) -> nat {
    offset_spec(graphemes(s), cluster_columns(graphemes(s)), target)
}

/// The byte offset of the cluster at or behind a column; never inside of a cluster.
pub fn col_to_byte_offset(s: &str, target_col: usize) -> (r: usize)
    ensures
        r == column_offset(s@, target_col as nat),
        is_boundary(s@, r as nat),
{
    let gs = clusters_in(s);
    proof {
        law_positions_are_boundaries(s@, target_col as nat);
    }
    assert(gs.deep_view().len() == gs@.len());
    offset_in(&gs, &columns_of_clusters(&gs), target_col)
}

/// How many of the clusters end at or before `pos`, when `from` bytes go before them.
pub open spec fn ended_by(gs: Seq<Seq<char>>, from: nat, pos: nat) -> nat
    decreases gs.len(),
{
    if gs.len() == 0 || from + bytes_of(gs[0]) > pos {
        0
    } else {
        1 + ended_by(gs.drop_first(), from + bytes_of(gs[0]), pos)
    }
}

/// The end of the cluster that `pos` lies in or before; `pos` itself where no cluster ends behind it.
pub open spec fn next_edge(gs: Seq<Seq<char>>, pos: nat) -> nat {
    let k = ended_by(gs, 0, pos) as int;
    if k < gs.len() {
        end_of(gs.take(k + 1))
    } else {
        pos
    }
}

/// The end of the cluster that `byte_pos` lies in or before; `byte_pos` itself where no cluster ends
/// behind it.
pub fn next_edge_in(gs: &Vec<String>, byte_pos: usize) -> (r: usize)
    requires
        end_of(gs.deep_view()) <= usize::MAX,
    ensures
        r == next_edge(gs.deep_view(), byte_pos as nat),
{
    let ghost all = gs.deep_view();
    let mut at: usize = 0;
    assert(all.skip(0) =~= all);
    assert(all.take(0) =~= Seq::empty());
    assert(all.len() == gs@.len());
    for i in 0..gs.len()
        invariant
            all == gs.deep_view(),
            all.len() == gs@.len(),
            end_of(all) <= usize::MAX,
            at == end_of(all.take(i as int)),
            ended_by(all, 0, byte_pos as nat) == i + ended_by(
                all.skip(i as int),
                at as nat,
                byte_pos as nat,
            ),
    {
        assert(all.skip(i as int)[0] == gs@[i as int]@);
        assert(all.skip(i as int).drop_first() =~= all.skip(i + 1));
        proof {
            lemma_end_step(all, i as int);
        }
        at = at + byte_len(&gs[i]);
        if at > byte_pos {
            return at;
        }
    }
    byte_pos
}

pub open spec fn next_boundary_spec(s: Seq<char>, pos: nat) -> nat {
    next_edge(graphemes(s), pos)
}

/// The byte offset behind the cluster at `byte_pos`. A position at the end of the text or beyond it
/// comes back as it is.
pub fn next_grapheme_boundary(s: &str, byte_pos: usize) -> (r: usize)
    ensures
        segmented(s@),
        r == next_boundary_spec(s@, byte_pos as nat),
        byte_pos >= bytes_of(s@) ==> r == byte_pos,
        byte_pos < bytes_of(s@) ==> byte_pos < r <= bytes_of(s@),
        byte_pos <= bytes_of(s@) ==> is_boundary(s@, r as nat),
        byte_pos < bytes_of(s@) && is_boundary(s@, byte_pos as nat) ==> prev_boundary_spec(
            s@,
            r as nat,
        ) == byte_pos,
{
    let gs = clusters_in(s);
    proof {
        let pos = byte_pos as nat;
        law_positions_are_boundaries(s@, pos);
        if pos < bytes_of(s@) {
            law_going_forward_moves_forward(s@, pos);
            if is_boundary(s@, pos) {
                law_back_reverts_forward(s@, pos);
            }
        } else {
            law_positions_beyond_stay(s@, pos);
        }
    }
    next_edge_in(&gs, byte_pos)
}

/// How many of the clusters start before `pos`, when `from` bytes go before them.
pub open spec fn started_by(gs: Seq<Seq<char>>, from: nat, pos: nat) -> nat
    decreases gs.len(),
{
    if gs.len() == 0 || from >= pos {
        0
    } else {
        1 + started_by(gs.drop_first(), from + bytes_of(gs[0]), pos)
    }
}

proof fn lemma_started_by(gs: Seq<Seq<char>>, from: nat, pos: nat)
    ensures
        started_by(gs, from, pos) <= gs.len(),
    decreases gs.len(),
{
    if gs.len() > 0 && from < pos {
        lemma_started_by(gs.drop_first(), from + bytes_of(gs[0]), pos);
    }
}

/// The position `pos`, or `end` where it lies behind that.
pub open spec fn clamped(end: nat, pos: nat) -> nat {
    if pos <= end {
        pos
    } else {
        end
    }
}

/// The clusters that start before `pos`.
pub open spec fn leading(gs: Seq<Seq<char>>, pos: nat) -> Seq<Seq<char>> {
    gs.take(started_by(gs, 0, clamped(end_of(gs), pos)) as int)
}

/// How many clusters start before `byte_pos`.
fn count_leading(gs: &Vec<String>, byte_pos: usize) -> (k: usize)
    requires
        end_of(gs.deep_view()) <= usize::MAX,
    ensures
        k <= gs@.len(),
        gs.deep_view().take(k as int) == leading(gs.deep_view(), byte_pos as nat),
{
    let ghost all = gs.deep_view();
    assert(all.take(all.len() as int) =~= all);
    assert(all.len() == gs@.len());
    let n = end_at(gs, gs.len());
    let pos = if byte_pos <= n {
        byte_pos
    } else {
        n
    };
    let mut at: usize = 0;
    let mut i: usize = 0;
    assert(all.skip(0) =~= all);
    assert(all.take(0) =~= Seq::empty());
    while i < gs.len() && at < pos
        invariant
            i <= gs@.len(),
            all == gs.deep_view(),
            all.len() == gs@.len(),
            end_of(all) <= usize::MAX,
            at == end_of(all.take(i as int)),
            started_by(all, 0, pos as nat) == i + started_by(
                all.skip(i as int),
                at as nat,
                pos as nat,
            ),
        decreases gs@.len() - i,
    {
        assert(all.skip(i as int)[0] == gs@[i as int]@);
        assert(all.skip(i as int).drop_first() =~= all.skip(i + 1));
        proof {
            lemma_end_step(all, i as int);
        }
        at = at + byte_len(&gs[i]);
        i = i + 1;
    }
    i
}

/// The start of the last cluster that starts before `pos`, or 0.
pub open spec fn prev_edge(gs: Seq<Seq<char>>, pos: nat) -> nat {
    let lead = leading(gs, pos);
    if lead.len() == 0 {
        0
    } else {
        end_of(lead.drop_last())
    }
}

/// The start of the last cluster that starts before `byte_pos`, or 0.
pub fn prev_edge_in(gs: &Vec<String>, byte_pos: usize) -> (r: usize)
    requires
        end_of(gs.deep_view()) <= usize::MAX,
    ensures
        r == prev_edge(gs.deep_view(), byte_pos as nat),
{
    let k = count_leading(gs, byte_pos);
    let ghost lead = leading(gs.deep_view(), byte_pos as nat);
    assert(gs.deep_view().len() == gs@.len());
    assert(lead.len() == k);
    if k == 0 {
        0
    } else {
        assert(lead.drop_last() =~= gs.deep_view().take(k - 1));
        end_at(gs, k - 1)
    }
}

pub open spec fn prev_boundary_spec(s: Seq<char>, pos: nat) -> nat {
    prev_edge(graphemes(s), pos)
}

/// The byte offset of the last cluster that starts before `byte_pos`, or 0.
pub fn prev_grapheme_boundary(s: &str, byte_pos: usize) -> (r: usize)
    ensures
        segmented(s@),
        r == prev_boundary_spec(s@, byte_pos as nat),
        byte_pos > 0 ==> r < byte_pos,
        is_boundary(s@, r as nat),
        byte_pos > 0 && is_boundary(s@, byte_pos as nat) ==> next_boundary_spec(s@, r as nat)
            == byte_pos,
{
    let gs = clusters_in(s);
    proof {
        let pos = byte_pos as nat;
        law_positions_are_boundaries(s@, pos);
        if pos > 0 {
            law_going_back_moves_back(s@, pos);
            if is_boundary(s@, pos) {
                law_forward_reverts_back(s@, pos);
            }
        }
    }
    prev_edge_in(&gs, byte_pos)
}

// ---------------------------------------------------------------------------
// Words
// ---------------------------------------------------------------------------

pub open spec fn is_space(g: Seq<char>) -> bool {
    g.len() > 0 && g[0] == ' '
}

fn spaces(g: &str) -> (r: bool)
    ensures
        r == is_space(g@),
{
    let cs = chars_of(g);
    cs.len() > 0 && cs[0] == ' '
}

/// Clusters without spaces at their end.
pub open spec fn drop_spaces(gs: Seq<Seq<char>>) -> Seq<Seq<char>>
    decreases gs.len(),
{
    if gs.len() > 0 && is_space(gs.last()) {
        drop_spaces(gs.drop_last())
    } else {
        gs
    }
}

/// Clusters without the word at their end.
pub open spec fn drop_word(gs: Seq<Seq<char>>) -> Seq<Seq<char>>
    decreases gs.len(),
{
    if gs.len() > 0 && !is_space(gs.last()) {
        drop_word(gs.drop_last())
    } else {
        gs
    }
}

/// The start of the word that `pos` lies in or behind.
pub open spec fn prev_word_edge(gs: Seq<Seq<char>>, pos: nat) -> nat {
    end_of(drop_word(drop_spaces(leading(gs, pos))))
}

/// The start of the word that `byte_pos` lies in or behind: back over spaces, then over what is no
/// space.
pub fn prev_word_in(gs: &Vec<String>, byte_pos: usize) -> (r: usize)
    requires
        end_of(gs.deep_view()) <= usize::MAX,
    ensures
        r == prev_word_edge(gs.deep_view(), byte_pos as nat),
{
    let ghost all = gs.deep_view();
    let ghost lead = leading(all, byte_pos as nat);
    let mut k = count_leading(gs, byte_pos);
    while k > 0 && spaces(&gs[k - 1])
        invariant
            k <= gs@.len(),
            all == gs.deep_view(),
            drop_spaces(lead) == drop_spaces(all.take(k as int)),
        decreases k,
    {
        assert(all.take(k as int).drop_last() =~= all.take(k - 1));
        assert(all.take(k as int).last() == gs@[k - 1]@);
        k = k - 1;
    }
    proof {
        if k > 0 {
            assert(all.take(k as int).last() == gs@[k - 1]@);
        }
    }
    assert(drop_spaces(lead) == all.take(k as int));
    while k > 0 && !spaces(&gs[k - 1])
        invariant
            k <= gs@.len(),
            all == gs.deep_view(),
            drop_word(drop_spaces(lead)) == drop_word(all.take(k as int)),
        decreases k,
    {
        assert(all.take(k as int).drop_last() =~= all.take(k - 1));
        assert(all.take(k as int).last() == gs@[k - 1]@);
        k = k - 1;
    }
    proof {
        if k > 0 {
            assert(all.take(k as int).last() == gs@[k - 1]@);
        }
    }
    end_at(gs, k)
}

pub open spec fn prev_word_spec(s: Seq<char>, pos: nat) -> nat {
    prev_word_edge(graphemes(s), pos)
}

/// The byte offset of the word that `byte_pos` lies in or behind.
pub fn prev_word_boundary(s: &str, byte_pos: usize) -> (r: usize)
    ensures
        r == prev_word_spec(s@, byte_pos as nat),
        is_boundary(s@, r as nat),
{
    proof {
        law_positions_are_boundaries(s@, byte_pos as nat);
    }
    prev_word_in(&clusters_in(s), byte_pos)
}

/// How many of the clusters go before the next word, when `from` bytes go before them: those that
/// end by `pos`, then those up to a space, then the spaces.
pub open spec fn before_next_word(gs: Seq<Seq<char>>, from: nat, pos: nat, seen: bool) -> nat
    decreases gs.len(),
{
    if gs.len() == 0 {
        0
    } else if from + bytes_of(gs[0]) <= pos {
        1 + before_next_word(gs.drop_first(), from + bytes_of(gs[0]), pos, seen)
    } else if seen && !is_space(gs[0]) {
        0
    } else {
        1 + before_next_word(
            gs.drop_first(),
            from + bytes_of(gs[0]),
            pos,
            seen || is_space(gs[0]),
        )
    }
}

/// The start of the word behind the one that `pos` lies in, or the end of the last cluster.
pub open spec fn next_word_edge(gs: Seq<Seq<char>>, pos: nat) -> nat {
    end_of(gs.take(before_next_word(gs, 0, clamped(end_of(gs), pos), false) as int))
}

/// The start of the word behind the one that `byte_pos` lies in, or the end of the last cluster.
pub fn next_word_in(gs: &Vec<String>, byte_pos: usize) -> (r: usize)
    requires
        end_of(gs.deep_view()) <= usize::MAX,
    ensures
        r == next_word_edge(gs.deep_view(), byte_pos as nat),
{
    let ghost all = gs.deep_view();
    assert(all.take(all.len() as int) =~= all);
    assert(all.len() == gs@.len());
    let n = end_at(gs, gs.len());
    let pos = if byte_pos <= n {
        byte_pos
    } else {
        n
    };
    let mut at: usize = 0;
    let mut seen = false;
    assert(all.skip(0) =~= all);
    assert(all.take(0) =~= Seq::empty());
    for i in 0..gs.len()
        invariant
            all == gs.deep_view(),
            all.len() == gs@.len(),
            end_of(all) <= usize::MAX,
            pos == clamped(end_of(all), byte_pos as nat),
            at == end_of(all.take(i as int)),
            before_next_word(all, 0, pos as nat, false) == i + before_next_word(
                all.skip(i as int),
                at as nat,
                pos as nat,
                seen,
            ),
    {
        assert(all.skip(i as int)[0] == gs@[i as int]@);
        assert(all.skip(i as int).drop_first() =~= all.skip(i + 1));
        proof {
            lemma_end_step(all, i as int);
        }
        let next = at + byte_len(&gs[i]);
        if next > pos {
            let space = spaces(&gs[i]);
            if seen && !space {
                return at;
            }
            seen = seen || space;
        }
        at = next;
    }
    at
}

pub open spec fn next_word_spec(s: Seq<char>, pos: nat) -> nat {
    next_word_edge(graphemes(s), pos)
}

/// The byte offset of the word behind the one that `byte_pos` lies in, or the end of the text.
pub fn next_word_boundary(s: &str, byte_pos: usize) -> (r: usize)
    ensures
        r == next_word_spec(s@, byte_pos as nat),
        is_boundary(s@, r as nat),
{
    proof {
        law_positions_are_boundaries(s@, byte_pos as nat);
    }
    next_word_in(&clusters_in(s), byte_pos)
}

// ---------------------------------------------------------------------------
// The cursor
// ---------------------------------------------------------------------------

/// The first of the clusters `gs` of a text and the rest; a space stands for the end of the text.
pub open spec fn peel_edge(s: Seq<char>, gs: Seq<Seq<char>>) -> (Seq<char>, Seq<char>) {
    if gs.len() == 0 {
        (" "@, ""@)
    } else {
        let n = gs[0].len() as int;
        (s.take(n), s.skip(n))
    }
}

pub open spec fn peel_spec(s: Seq<char>) -> (Seq<char>, Seq<char>) {
    peel_edge(s, graphemes(s))
}

proof fn lemma_flat_first(gs: Seq<Seq<char>>)
    requires
        gs.len() > 0,
    ensures
        gs[0].is_prefix_of(flat(gs)),
    decreases gs.len(),
{
    if gs.len() == 1 {
        reveal_with_fuel(flat, 2);
        assert(flat(gs) =~= gs[0]);
    } else {
        lemma_flat_first(gs.drop_last());
        assert(gs.drop_last()[0] == gs[0]);
        assert(gs[0] =~= flat(gs).take(gs[0].len() as int));
    }
}

/// Takes the first of its clusters `gs` off a text.
pub fn peel_in<'a>(s: &'a str, gs: &Vec<String>) -> (r: (&'a str, &'a str))
    requires
        gs@.len() > 0 ==> gs@[0]@.len() <= s@.len(),
    ensures
        (r.0@, r.1@) == peel_edge(s@, gs.deep_view()),
{
    assert(gs.deep_view().len() == gs@.len());
    if gs.len() == 0 {
        return (" ", "");
    }
    assert(gs.deep_view()[0] == gs@[0]@);
    let k = gs[0].as_str().unicode_len();
    let n = s.unicode_len();
    let head = s.substring_char(0, k);
    let tail = s.substring_char(k, n);
    assert(head@ =~= s@.take(k as int));
    assert(tail@ =~= s@.skip(k as int));
    (head, tail)
}

/// Takes the first cluster off a text, for a cell with the cursor.
pub fn peel_first_grapheme_for_cursor(s: &str) -> (r: (&str, &str))
    ensures
        (r.0@, r.1@) == peel_spec(s@),
        graphemes(s@).len() > 0 ==> r.0@ == graphemes(s@)[0] && r.0@ + r.1@ == s@,
{
    let gs = clusters(s);
    proof {
        assert(gs.deep_view().len() == gs@.len());
        if gs@.len() > 0 {
            lemma_flat_first(gs.deep_view());
            assert(gs.deep_view()[0] == gs@[0]@);
            let n = gs@[0]@.len() as int;
            assert(s@.take(n) =~= gs@[0]@);
            assert(s@.take(n) + s@.skip(n) =~= s@);
        }
    }
    peel_in(s, &gs)
}

// ---------------------------------------------------------------------------
// Ages
// ---------------------------------------------------------------------------

pub const MINUTE: i64 = 60;

pub const HOUR: i64 = 3600;

pub const DAY: i64 = 86400;

pub const WEEK: i64 = 604800;

pub const MONTH: i64 = 2592000;

pub const YEAR: i64 = 31536000;

/// An age in its largest whole unit. A month has 30 days and a year 365.
pub open spec fn age_spec(secs: int) -> Seq<char> {
    if secs < 0 {
        "future"@
    } else if secs < MINUTE {
        "now"@
    } else if secs < HOUR {
        dec_spec((secs / MINUTE as int) as nat) + "m"@
    } else if secs < DAY {
        dec_spec((secs / HOUR as int) as nat) + "h"@
    } else if secs < WEEK {
        dec_spec((secs / DAY as int) as nat) + "d"@
    } else if secs < MONTH {
        dec_spec((secs / WEEK as int) as nat) + "w"@
    } else if secs < YEAR {
        dec_spec((secs / MONTH as int) as nat) + "mo"@
    } else {
        dec_spec((secs / YEAR as int) as nat) + "y"@
    }
}

/// How long ago a time was, short.
pub fn relative_time_short(epoch_secs: i64, now_secs: i64) -> (r: String)
    ensures
        r@ == age_spec(now_secs - epoch_secs),
{
    let ago = now_secs as i128 - epoch_secs as i128;
    if ago < 0 {
        "future".to_string()
    } else if ago < MINUTE as i128 {
        "now".to_string()
    } else if ago < HOUR as i128 {
        cat2(&dec((ago / (MINUTE as i128)) as u64), "m")
    } else if ago < DAY as i128 {
        cat2(&dec((ago / (HOUR as i128)) as u64), "h")
    } else if ago < WEEK as i128 {
        cat2(&dec((ago / (DAY as i128)) as u64), "d")
    } else if ago < MONTH as i128 {
        cat2(&dec((ago / (WEEK as i128)) as u64), "w")
    } else if ago < YEAR as i128 {
        cat2(&dec((ago / (MONTH as i128)) as u64), "mo")
    } else {
        cat2(&dec((ago / (YEAR as i128)) as u64), "y")
    }
}

// ---------------------------------------------------------------------------
// Laws
// ---------------------------------------------------------------------------

/// The sum of the columns `ws`.
pub open spec fn total_columns(ws: Seq<usize>) -> nat
    decreases ws.len(),
{
    if ws.len() == 0 {
        0
    } else {
        ws[0] as nat + total_columns(ws.drop_first())
    }
}

proof fn lemma_fitting(ws: Seq<usize>, limit: nat)
    ensures
        fitting(ws, limit) <= ws.len(),
        total_columns(ws.take(fitting(ws, limit) as int)) <= limit,
        fitting(ws, limit) < ws.len() ==> total_columns(ws.take(fitting(ws, limit) as int + 1))
            > limit,
    decreases ws.len(),
{
    if ws.len() > 0 {
        if ws[0] <= limit {
            let rest = ws.drop_first();
            let left = (limit - ws[0]) as nat;
            lemma_fitting(rest, left);
            let k = fitting(rest, left) as int;
            assert(ws.take(k + 1).drop_first() =~= rest.take(k));
            if k < rest.len() {
                assert(ws.take(k + 2).drop_first() =~= rest.take(k + 1));
            }
        } else {
            assert(ws.take(1).drop_first() =~= Seq::empty());
        }
    }
}

/// A text that is truncated at its end keeps as many characters as fit beside the ellipsis, by
/// their columns: no more, and no fewer.
pub proof fn law_truncate_end_fits(s: Seq<char>, max_cols: nat)
    requires
        max_cols > 0,
    ensures
        str_width(s) > max_cols ==> ({
            let ws = text_columns(s);
            let k = fitting(ws, (max_cols - 1) as nat) as int;
            &&& k <= s.len()
            &&& truncate_end_spec(s, max_cols) == s.take(k).push('\u{2026}')
            &&& total_columns(ws.take(k)) + 1 <= max_cols
            &&& k < s.len() ==> total_columns(ws.take(k + 1)) + 1 > max_cols
        }),
{
    lemma_fitting(text_columns(s), (max_cols - 1) as nat);
}

proof fn lemma_before_column(ws: Seq<usize>, target: int)
    ensures
        before_column(ws, target) <= ws.len(),
        target > 0 && before_column(ws, target) < ws.len() ==> total_columns(ws) - total_columns(
            ws.skip(before_column(ws, target) as int),
        ) >= target,
    decreases ws.len(),
{
    if ws.len() > 0 && target > 0 {
        let rest = ws.drop_first();
        lemma_before_column(rest, target - ws[0]);
        let k = before_column(rest, target - ws[0]) as int;
        assert(ws.skip(k + 1) =~= rest.skip(k));
        assert(rest.skip(0) =~= rest);
    }
}

/// A text that is truncated at its start keeps an end of it. Where the width of the text is the
/// sum of the columns of its characters, that end fits beside the ellipsis.
pub proof fn law_truncate_start_fits(s: Seq<char>, max_cols: nat)
    requires
        max_cols > 0,
    ensures
        str_width(s) > max_cols ==> ({
            let ws = text_columns(s);
            let k = before_column(ws, str_width(s) - (max_cols - 1)) as int;
            &&& k <= s.len()
            &&& truncate_start_spec(s, max_cols) == seq!['\u{2026}'] + s.skip(k)
            &&& str_width(s) == total_columns(ws) ==> total_columns(ws.skip(k)) + 1 <= max_cols
        }),
{
    lemma_before_column(text_columns(s), str_width(s) - (max_cols - 1));
}

/// The offset `at` is where some number of whole clusters ends.
pub open spec fn is_boundary(s: Seq<char>, at: nat) -> bool {
    exists|k: int| 0 <= k <= graphemes(s).len() && at == #[trigger] end_of(graphemes(s).take(k))
}

proof fn lemma_boundary(s: Seq<char>, k: int)
    requires
        0 <= k <= graphemes(s).len(),
    ensures
        is_boundary(s, end_of(graphemes(s).take(k))),
{
}

proof fn lemma_counts(gs: Seq<Seq<char>>, from: nat, pos: nat, seen: bool)
    ensures
        ended_by(gs, from, pos) <= gs.len(),
        started_by(gs, from, pos) <= gs.len(),
        before_next_word(gs, from, pos, seen) <= gs.len(),
    decreases gs.len(),
{
    if gs.len() > 0 {
        lemma_counts(gs.drop_first(), from + bytes_of(gs[0]), pos, seen);
        lemma_counts(gs.drop_first(), from + bytes_of(gs[0]), pos, seen || is_space(gs[0]));
    }
}

proof fn lemma_drops(gs: Seq<Seq<char>>, k: int)
    requires
        0 <= k <= gs.len(),
    ensures
        drop_spaces(gs.take(k)).len() <= k,
        drop_spaces(gs.take(k)) == gs.take(drop_spaces(gs.take(k)).len() as int),
        drop_word(gs.take(k)).len() <= k,
        drop_word(gs.take(k)) == gs.take(drop_word(gs.take(k)).len() as int),
    decreases k,
{
    if k > 0 {
        assert(gs.take(k).drop_last() =~= gs.take(k - 1));
        lemma_drops(gs, k - 1);
    }
}

/// No cursor position lies inside of a cluster: every offset that a click, or a motion from a position
/// in the text, leads to is the end of whole clusters.
pub proof fn law_positions_are_boundaries(s: Seq<char>, pos: nat)
    ensures
        is_boundary(s, column_offset(s, pos)),
        pos <= end_of(graphemes(s)) ==> is_boundary(s, next_boundary_spec(s, pos)),
        is_boundary(s, prev_boundary_spec(s, pos)),
        is_boundary(s, prev_word_spec(s, pos)),
        is_boundary(s, next_word_spec(s, pos)),
{
    let gs = graphemes(s);
    let end = clamped(end_of(gs), pos);
    lemma_counts(gs, 0, pos, false);
    lemma_counts(gs, 0, end, false);
    lemma_before_column(cluster_columns(gs), pos as int);
    lemma_boundary(s, before_column(cluster_columns(gs), pos as int) as int);
    lemma_boundary(s, before_next_word(gs, 0, end, false) as int);
    let e = ended_by(gs, 0, pos) as int;
    lemma_ended(gs, 0, pos);
    assert(gs.take(gs.len() as int) =~= gs);
    lemma_boundary(s, gs.len() as int);
    if e < gs.len() {
        lemma_boundary(s, e + 1);
    }
    let k = started_by(gs, 0, end) as int;
    let lead = leading(gs, pos);
    assert(gs.take(0) =~= Seq::empty());
    lemma_boundary(s, 0);
    if k > 0 {
        assert(lead.drop_last() =~= gs.take(k - 1));
        lemma_boundary(s, k - 1);
    }
    lemma_drops(gs, k);
    let j = drop_spaces(lead).len() as int;
    lemma_drops(gs, j);
    lemma_boundary(s, drop_word(gs.take(j)).len() as int);
}

proof fn lemma_started_before(gs: Seq<Seq<char>>, from: nat, pos: nat)
    requires
        started_by(gs, from, pos) > 0,
    ensures
        from + end_of(gs.take(started_by(gs, from, pos) - 1)) < pos,
    decreases gs.len(),
{
    let k = started_by(gs, from, pos) as int;
    lemma_started_by(gs, from, pos);
    let rest = gs.drop_first();
    let next = from + bytes_of(gs[0]);
    if started_by(rest, next, pos) > 0 {
        lemma_started_before(rest, next, pos);
        lemma_started_by(rest, next, pos);
        lemma_flat_cons(gs, k - 1);
    } else {
        assert(gs.take(0) =~= Seq::empty());
    }
}

proof fn lemma_flat_cons(gs: Seq<Seq<char>>, k: int)
    requires
        0 < k <= gs.len(),
    ensures
        end_of(gs.take(k)) == bytes_of(gs[0]) + end_of(gs.drop_first().take(k - 1)),
    decreases k,
{
    lemma_flat_step(gs, k - 1);
    lemma_bytes_add(flat(gs.take(k - 1)), gs[k - 1]);
    if k > 1 {
        lemma_flat_cons(gs, k - 1);
        lemma_flat_step(gs.drop_first(), k - 2);
        lemma_bytes_add(flat(gs.drop_first().take(k - 2)), gs.drop_first()[k - 2]);
    } else {
        assert(gs.take(0) =~= Seq::empty());
        assert(gs.drop_first().take(0) =~= Seq::empty());
    }
}

/// Going back moves back: the boundary before a position that is not the start lies before it.
pub proof fn law_going_back_moves_back(s: Seq<char>, pos: nat)
    requires
        pos > 0,
    ensures
        prev_boundary_spec(s, pos) < pos,
{
    let gs = graphemes(s);
    let end = clamped(end_of(gs), pos);
    lemma_started_by(gs, 0, end);
    let k = started_by(gs, 0, end) as int;
    if k > 0 {
        lemma_started_before(gs, 0, end);
        assert(leading(gs, pos).drop_last() =~= gs.take(k - 1));
    }
}

/// Going forward moves forward: the boundary behind a position in the text lies behind it.
pub proof fn law_going_forward_moves_forward(s: Seq<char>, pos: nat)
    requires
        segmented(s),
        pos < bytes_of(s),
    ensures
        pos < next_boundary_spec(s, pos) <= bytes_of(s),
{
    let gs = graphemes(s);
    lemma_counts(gs, 0, pos, false);
    let k = ended_by(gs, 0, pos) as int;
    assert(gs.take(gs.len() as int) =~= gs);
    lemma_ended(gs, 0, pos);
    if k < gs.len() {
        lemma_end_prefix(gs, k + 1);
    }
}

/// A position at the end of the text or beyond it stays as it is.
pub proof fn law_positions_beyond_stay(s: Seq<char>, pos: nat)
    requires
        segmented(s),
        pos >= bytes_of(s),
    ensures
        next_boundary_spec(s, pos) == pos,
{
    let gs = graphemes(s);
    let k = ended_by(gs, 0, pos) as int;
    lemma_ended(gs, 0, pos);
    if k < gs.len() {
        lemma_end_prefix(gs, k + 1);
    }
}

proof fn lemma_some_bytes(s: Seq<char>)
    requires
        s.len() > 0,
    ensures
        bytes_of(s) > 0,
{
}

/// Where clusters are not empty, those that end by the end of the `j`th are the first `j`, and so
/// are those that start before it.
proof fn lemma_counts_at(gs: Seq<Seq<char>>, from: nat, j: int)
    requires
        none_empty(gs),
        0 <= j <= gs.len(),
    ensures
        ended_by(gs, from, from + end_of(gs.take(j))) == j,
        started_by(gs, from, from + end_of(gs.take(j))) == j,
    decreases j,
{
    if j == 0 {
        assert(gs.take(0) =~= Seq::empty());
        assert(flat(Seq::<Seq<char>>::empty()) =~= Seq::empty());
        if gs.len() > 0 {
            lemma_some_bytes(gs[0]);
        }
    } else {
        let rest = gs.drop_first();
        lemma_flat_cons(gs, j);
        lemma_some_bytes(gs[0]);
        assert(none_empty(rest)) by {
            assert forall|i: int| 0 <= i < rest.len() implies (#[trigger] rest[i]).len() > 0 by {
                assert(rest[i] == gs[i + 1]);
            }
        }
        lemma_counts_at(rest, from + bytes_of(gs[0]), j - 1);
    }
}

/// Going back after going forward from a boundary in the text leads to that boundary.
pub proof fn law_back_reverts_forward(s: Seq<char>, pos: nat)
    requires
        segmented(s),
        is_boundary(s, pos),
        pos < bytes_of(s),
    ensures
        prev_boundary_spec(s, next_boundary_spec(s, pos)) == pos,
{
    let gs = graphemes(s);
    let j = choose|k: int| 0 <= k <= gs.len() && pos == #[trigger] end_of(gs.take(k));
    assert(gs.take(gs.len() as int) =~= gs);
    lemma_counts_at(gs, 0, j);
    lemma_counts_at(gs, 0, j + 1);
    lemma_end_prefix(gs, j + 1);
    assert(leading(gs, next_boundary_spec(s, pos)).drop_last() =~= gs.take(j));
}

/// Going forward after going back from a boundary behind the start leads to that boundary.
pub proof fn law_forward_reverts_back(s: Seq<char>, pos: nat)
    requires
        segmented(s),
        is_boundary(s, pos),
        pos > 0,
    ensures
        next_boundary_spec(s, prev_boundary_spec(s, pos)) == pos,
{
    let gs = graphemes(s);
    let j = choose|k: int| 0 <= k <= gs.len() && pos == #[trigger] end_of(gs.take(k));
    if j == 0 {
        assert(gs.take(0) =~= Seq::empty());
        assert(flat(Seq::<Seq<char>>::empty()) =~= Seq::empty());
    }
    lemma_counts_at(gs, 0, j);
    lemma_counts_at(gs, 0, j - 1);
    lemma_end_prefix(gs, j);
    assert(leading(gs, pos).drop_last() =~= gs.take(j - 1));
}

proof fn lemma_ended(gs: Seq<Seq<char>>, from: nat, pos: nat)
    ensures
        ended_by(gs, from, pos) <= gs.len(),
        ended_by(gs, from, pos) < gs.len() ==> from + end_of(
            gs.take(ended_by(gs, from, pos) as int + 1),
        ) > pos,
        ended_by(gs, from, pos) == gs.len() ==> gs.len() == 0 || from + end_of(gs) <= pos,
    decreases gs.len(),
{
    if gs.len() > 0 {
        let rest = gs.drop_first();
        let next = from + bytes_of(gs[0]);
        if next <= pos {
            lemma_ended(rest, next, pos);
            let k = ended_by(rest, next, pos) as int;
            if k < rest.len() {
                lemma_flat_cons(gs, k + 2);
            } else {
                lemma_flat_cons(gs, gs.len() as int);
                assert(gs.take(gs.len() as int) =~= gs);
                assert(rest.take(rest.len() as int) =~= rest);
                assert(flat(Seq::<Seq<char>>::empty()) =~= Seq::empty());
            }
        } else {
            lemma_flat_cons(gs, 1);
            assert(rest.take(0) =~= Seq::empty());
        }
    }
}

} // verus!
