//! Searching, replacing, line and word splitting, decimal numbers and order of texts.

use vstd::prelude::*;

use crate::text::{
    chars_of, cuts, first_index, index_of, is_white, is_white_spec, lower_char, slice,
    to_lower_char, trim_start_spec, Cut,
};

verus! {

// ---------------------------------------------------------------------------
// Substrings
// ---------------------------------------------------------------------------

pub open spec fn occurs_at(s: Seq<char>, p: Seq<char>, i: int) -> bool {
    0 <= i && i + p.len() <= s.len() && s.subrange(i, i + p.len()) == p
}

pub open spec fn contains_spec(s: Seq<char>, p: Seq<char>) -> bool {
    exists|i: int| occurs_at(s, p, i)
}

/// Position of the first occurrence of `p` in `s`.
pub open spec fn find_spec(s: Seq<char>, p: Seq<char>) -> Option<nat>
    decreases s.len(),
{
    if p.is_prefix_of(s) {
        Some(0)
    } else if s.len() == 0 {
        None
    } else {
        match find_spec(s.drop_first(), p) {
            Some(i) => Some(i + 1),
            None => None,
        }
    }
}

pub proof fn lemma_find(s: Seq<char>, p: Seq<char>)
    ensures
        match find_spec(s, p) {
            Some(i) => occurs_at(s, p, i as int) && forall|j: int|
                0 <= j < i ==> !occurs_at(s, p, j),
            None => forall|j: int| !occurs_at(s, p, j),
        },
    decreases s.len(),
{
    assert(occurs_at(s, p, 0) <==> p.is_prefix_of(s)) by {
        if p.len() <= s.len() {
            assert(s.subrange(0, p.len() as int) =~= s.take(p.len() as int));
        }
    }
    if !p.is_prefix_of(s) && s.len() > 0 {
        let d = s.drop_first();
        lemma_find(d, p);
        assert forall|j: int| j >= 1 implies occurs_at(s, p, j) == occurs_at(d, p, j - 1) by {
            if j + p.len() <= s.len() {
                assert(s.subrange(j, j + p.len()) =~= d.subrange(j - 1, j - 1 + p.len()));
            }
        }
        match find_spec(d, p) {
            Some(i) => {
                assert(occurs_at(s, p, i as int + 1));
                assert forall|j: int| 0 <= j < i + 1 implies !occurs_at(s, p, j) by {
                    if j > 0 {
                        assert(!occurs_at(d, p, j - 1));
                    }
                }
            },
            None => {
                assert forall|j: int| !occurs_at(s, p, j) by {
                    if j >= 1 {
                        assert(!occurs_at(d, p, j - 1));
                    }
                }
            },
        }
    }
}

pub proof fn lemma_contains(s: Seq<char>, p: Seq<char>)
    ensures
        contains_spec(s, p) <==> find_spec(s, p) is Some,
{
    lemma_find(s, p);
}

fn matches_at(cs: &Vec<char>, p: &Vec<char>, i: usize) -> (r: bool)
    requires
        i <= cs@.len(),
    ensures
        r == occurs_at(cs@, p@, i as int),
{
    if p.len() > cs.len() - i {
        return false;
    }
    let mut k: usize = 0;
    while k < p.len()
        invariant
            i + p@.len() <= cs@.len() <= usize::MAX,
            k <= p@.len(),
            forall|j: int| 0 <= j < k ==> cs@[i + j] == p@[j],
        decreases p@.len() - k,
    {
        if cs[i + k] != p[k] {
            assert(cs@.subrange(i as int, i + p@.len())[k as int] != p@[k as int]);
            return false;
        }
        k = k + 1;
    }
    assert(cs@.subrange(i as int, i + p@.len()) =~= p@);
    true
}

/// First position at or after `from` where `p` stands in `cs`.
pub fn find_at(cs: &Vec<char>, p: &Vec<char>, from: usize) -> (r: Option<usize>)
    requires
        from <= cs@.len(),
    ensures
        match r {
            Some(i) => from <= i && i + p@.len() <= cs@.len() <= usize::MAX && occurs_at(cs@, p@, i as int)
                && find_spec(cs@.skip(from as int), p@) == Some((i - from) as nat),
            None => find_spec(cs@.skip(from as int), p@) is None,
        },
{
    let ghost rest = cs@.skip(from as int);
    proof {
        lemma_find(rest, p@);
        assert forall|j: int| j >= from implies occurs_at(cs@, p@, j) == occurs_at(
            rest,
            p@,
            j - from,
        ) by {
            if j + p@.len() <= cs@.len() {
                assert(cs@.subrange(j, j + p@.len()) =~= rest.subrange(
                    j - from,
                    j - from + p@.len(),
                ));
            }
        }
    }
    let mut i: usize = from;
    let n = cs.len();
    loop
        invariant
            n == cs@.len(),
            from <= i <= cs@.len(),
            rest == cs@.skip(from as int),
            from <= cs@.len(),
            forall|j: int| j >= from ==> occurs_at(cs@, p@, j) == #[trigger] occurs_at(
                rest,
                p@,
                j - from,
            ),
            forall|j: int| from <= j < i ==> !#[trigger] occurs_at(rest, p@, j - from),
        decreases cs@.len() + 1 - i,
    {
        if matches_at(cs, p, i) {
            proof {
                lemma_find(rest, p@);
                assert(occurs_at(rest, p@, i - from));
                match find_spec(rest, p@) {
                    Some(k) => {
                        if k < i - from {
                            assert(!occurs_at(rest, p@, (from + k) - from));
                        }
                    },
                    None => {},
                }
            }
            return Some(i);
        }
        assert(!occurs_at(rest, p@, i - from));
        if i == n {
            proof {
                lemma_find(rest, p@);
                match find_spec(rest, p@) {
                    Some(k) => {
                        assert(!occurs_at(rest, p@, (from + k) - from));
                    },
                    None => {},
                }
            }
            return None;
        }
        i = i + 1;
    }
}

pub fn contains(s: &str, p: &str) -> (r: bool)
    ensures
        r == contains_spec(s@, p@),
{
    let cs = chars_of(s);
    let pc = chars_of(p);
    proof {
        lemma_contains(s@, p@);
        assert(s@.skip(0) =~= s@);
    }
    match find_at(&cs, &pc, 0) {
        Some(_) => true,
        None => false,
    }
}

pub fn contains_char(s: &str, c: char) -> (r: bool)
    ensures
        r == s@.contains(c),
{
    let cs = chars_of(s);
    for i in 0..cs.len()
        invariant
            cs@ == s@,
            forall|j: int| 0 <= j < i ==> cs@[j] != c,
    {
        if cs[i] == c {
            return true;
        }
    }
    false
}

pub fn starts_with(s: &str, p: &str) -> (r: bool)
    ensures
        r == p@.is_prefix_of(s@),
{
    let cs = chars_of(s);
    let pc = chars_of(p);
    let r = matches_at(&cs, &pc, 0);
    proof {
        if p@.len() <= s@.len() {
            assert(s@.subrange(0, p@.len() as int) =~= s@.take(p@.len() as int));
        }
    }
    r
}

pub fn ends_with(s: &str, p: &str) -> (r: bool)
    ensures
        r == p@.is_suffix_of(s@),
{
    let cs = chars_of(s);
    let pc = chars_of(p);
    if pc.len() > cs.len() {
        return false;
    }
    matches_at(&cs, &pc, cs.len() - pc.len())
}

/// `s` without the prefix `p`.
pub open spec fn strip_prefix_spec(s: Seq<char>, p: Seq<char>) -> Option<Seq<char>> {
    if p.is_prefix_of(s) {
        Some(s.skip(p.len() as int))
    } else {
        None
    }
}

pub fn strip_prefix(s: &str, p: &str) -> (r: Option<String>)
    ensures
        r.deep_view() == strip_prefix_spec(s@, p@),
{
    if starts_with(s, p) {
        let cs = chars_of(s);
        let n = chars_of(p).len();
        assert(cs@.subrange(n as int, cs@.len() as int) =~= s@.skip(n as int));
        Some(slice(&cs, n, cs.len()))
    } else {
        None
    }
}

/// `s` without the suffix `p`.
pub open spec fn strip_suffix_spec(s: Seq<char>, p: Seq<char>) -> Option<Seq<char>> {
    if p.is_suffix_of(s) {
        Some(s.take(s.len() - p.len()))
    } else {
        None
    }
}

pub fn strip_suffix(s: &str, p: &str) -> (r: Option<String>)
    ensures
        r.deep_view() == strip_suffix_spec(s@, p@),
{
    if ends_with(s, p) {
        let cs = chars_of(s);
        let n = chars_of(p).len();
        assert(cs@.subrange(0, cs@.len() - n) =~= s@.take(s@.len() - p@.len()));
        Some(slice(&cs, 0, cs.len() - n))
    } else {
        None
    }
}

/// What stands before and after the first `p` in `s`.
pub open spec fn cut_once_spec(s: Seq<char>, p: Seq<char>) -> Option<(Seq<char>, Seq<char>)> {
    match find_spec(s, p) {
        Some(i) => Some((s.take(i as int), s.skip(i as int + p.len()))),
        None => None,
    }
}

pub fn cut_once(s: &str, p: &str) -> (r: Option<(String, String)>)
    ensures
        r.deep_view() == cut_once_spec(s@, p@),
{
    let cs = chars_of(s);
    let pc = chars_of(p);
    let n = cs.len();
    assert(s@.skip(0) =~= s@);
    match find_at(&cs, &pc, 0) {
        Some(i) => {
            assert(cs@.subrange(0, i as int) =~= s@.take(i as int));
            assert(cs@.subrange(i + p@.len(), cs@.len() as int) =~= s@.skip(i + p@.len()));
            Some((slice(&cs, 0, i), slice(&cs, i + pc.len(), n)))
        },
        None => None,
    }
}

/// The text before the last `c`.
pub open spec fn before_last(s: Seq<char>, c: char) -> Option<Seq<char>>
    decreases s.len(),
{
    if s.len() == 0 {
        None
    } else if s.last() == c {
        Some(s.drop_last())
    } else {
        before_last(s.drop_last(), c)
    }
}

pub fn up_to_last(s: &str, c: char) -> (r: Option<String>)
    ensures
        r.deep_view() == before_last(s@, c),
{
    let cs = chars_of(s);
    let mut n: usize = cs.len();
    assert(s@.take(n as int) =~= s@);
    while n > 0
        invariant
            n <= cs@.len(),
            cs@ == s@,
            before_last(s@, c) == before_last(s@.take(n as int), c),
        decreases n,
    {
        assert(s@.take(n as int).drop_last() =~= s@.take(n - 1));
        if cs[n - 1] == c {
            let head = slice(&cs, 0, n - 1);
            assert(head@ =~= s@.take(n - 1));
            return Some(head);
        }
        n = n - 1;
    }
    None
}

pub proof fn lemma_before_last(s: Seq<char>, c: char)
    ensures
        before_last(s, c) matches Some(d) ==> d.len() < s.len() && d == s.take(d.len() as int),
    decreases s.len(),
{
    if s.len() > 0 {
        if s.last() == c {
            assert(s.drop_last() =~= s.take(s.len() - 1));
        } else {
            lemma_before_last(s.drop_last(), c);
            if let Some(d) = before_last(s.drop_last(), c) {
                assert(s.drop_last().take(d.len() as int) =~= s.take(d.len() as int));
            }
        }
    }
}

/// `s` with every occurrence of `p`, from the left and without overlap, replaced by `to`.
pub open spec fn replace_spec(s: Seq<char>, p: Seq<char>, to: Seq<char>) -> Seq<char>
    decreases s.len(),
{
    if p.len() == 0 {
        s
    } else {
        match find_spec(s, p) {
            Some(i) => if i + p.len() <= s.len() {
                s.take(i as int) + to + replace_spec(s.skip(i as int + p.len()), p, to)
            } else {
                s
            },
            None => s,
        }
    }
}

/// One step of a replacement: at an occurrence it goes on behind it, else at the next character.
pub proof fn lemma_replace_step(s: Seq<char>, p: Seq<char>, to: Seq<char>)
    requires
        p.len() > 0,
        s.len() > 0,
    ensures
        p.is_prefix_of(s) ==> replace_spec(s, p, to) == to + replace_spec(
            s.skip(p.len() as int),
            p,
            to,
        ),
        !p.is_prefix_of(s) ==> replace_spec(s, p, to) == seq![s[0]] + replace_spec(
            s.drop_first(),
            p,
            to,
        ),
{
    if p.is_prefix_of(s) {
        assert(s.take(0) + to + replace_spec(s.skip(p.len() as int), p, to) =~= to + replace_spec(
            s.skip(p.len() as int),
            p,
            to,
        ));
    } else {
        let rest = s.drop_first();
        match find_spec(rest, p) {
            Some(n) => {
                let i = n as int;
                lemma_find(rest, p);
                assert(find_spec(s, p) == Some((n + 1) as nat));
                assert(s.take(i + 1) =~= seq![s[0]] + rest.take(i));
                assert(s.skip(i + 1 + p.len()) =~= rest.skip(i + p.len()));
                let tail = replace_spec(rest.skip(i + p.len()), p, to);
                assert(s.take(i + 1) + to + tail =~= seq![s[0]] + (rest.take(i) + to + tail));
            },
            None => {
                assert(find_spec(s, p) is None);
                assert(s =~= seq![s[0]] + rest);
            },
        }
    }
}

pub fn replace(s: &str, p: &str, to: &str) -> (r: String)
    requires
        p@.len() > 0,
    ensures
        r@ == replace_spec(s@, p@, to@),
{
    let cs = chars_of(s);
    let pc = chars_of(p);
    let mut out = String::new();
    let mut start: usize = 0;
    assert(s@.skip(0) =~= s@);
    loop
        invariant
            cs@ == s@,
            pc@ == p@,
            p@.len() > 0,
            start <= cs@.len(),
            replace_spec(s@, p@, to@) =~= out@ + replace_spec(s@.skip(start as int), p@, to@),
        decreases cs@.len() - start,
    {
        match find_at(&cs, &pc, start) {
            Some(i) => {
                let ghost rest = s@.skip(start as int);
                assert(rest.take(i - start) =~= s@.subrange(start as int, i as int));
                assert(rest.skip(i - start + p@.len()) =~= s@.skip(i + p@.len()));
                out.append(&slice(&cs, start, i));
                out.append(to);
                start = i + pc.len();
            },
            None => {
                assert(s@.subrange(start as int, s@.len() as int) =~= s@.skip(start as int));
                out.append(&slice(&cs, start, cs.len()));
                return out;
            },
        }
    }
}

/// How many times `p` stands in `s`, from the left and without overlap.
pub open spec fn count_spec(s: Seq<char>, p: Seq<char>) -> nat
    decreases s.len(),
{
    if p.len() == 0 {
        0
    } else {
        match find_spec(s, p) {
            Some(i) => if i + p.len() <= s.len() {
                1 + count_spec(s.skip(i as int + p.len()), p)
            } else {
                0
            },
            None => 0,
        }
    }
}

pub fn count(s: &str, p: &str) -> (r: usize)
    requires
        p@.len() > 0,
    ensures
        r == count_spec(s@, p@),
{
    let cs = chars_of(s);
    let pc = chars_of(p);
    let mut n: usize = 0;
    let mut start: usize = 0;
    assert(s@.skip(0) =~= s@);
    loop
        invariant
            cs@ == s@,
            pc@ == p@,
            p@.len() > 0,
            n <= start <= cs@.len(),
            count_spec(s@, p@) == n + count_spec(s@.skip(start as int), p@),
        decreases cs@.len() - start,
    {
        match find_at(&cs, &pc, start) {
            Some(i) => {
                let ghost rest = s@.skip(start as int);
                assert(rest.skip(i - start + p@.len()) =~= s@.skip(i + p@.len()));
                start = i + pc.len();
                n = n + 1;
            },
            None => {
                return n;
            },
        }
    }
}

// ---------------------------------------------------------------------------
// Lines and words
// ---------------------------------------------------------------------------

/// The lines of `s`, each with its newline; the last may lack one.
pub open spec fn rows_spec(s: Seq<char>) -> Seq<Seq<char>>
    decreases s.len(),
{
    let i = index_of(s, '\n') as int;
    if s.len() == 0 {
        Seq::empty()
    } else if i >= s.len() {
        seq![s]
    } else {
        seq![s.take(i + 1)] + rows_spec(s.skip(i + 1))
    }
}

pub fn rows(s: &str) -> (r: Vec<String>)
    ensures
        r.deep_view() == rows_spec(s@),
{
    let cs = chars_of(s);
    let mut out: Vec<String> = Vec::new();
    let mut start: usize = 0;
    assert(s@.skip(0) =~= s@);
    assert(out.deep_view() + rows_spec(s@) =~= rows_spec(s@));
    while start < cs.len()
        invariant
            cs@ == s@,
            start <= cs@.len(),
            rows_spec(s@) == out.deep_view() + rows_spec(s@.skip(start as int)),
        decreases cs@.len() - start,
    {
        let i = first_index(&cs, start, '\n');
        let end = if i == cs.len() {
            i
        } else {
            i + 1
        };
        let ghost rest = s@.skip(start as int);
        let ghost before = out.deep_view();
        let ghost piece = s@.subrange(start as int, end as int);
        proof {
            assert(rest.skip(end - start) =~= s@.skip(end as int));
            if i == cs@.len() {
                assert(piece =~= rest);
                assert(rows_spec(s@.skip(end as int)) =~= Seq::empty());
            } else {
                assert(piece =~= rest.take(i - start + 1));
            }
        }
        out.push(slice(&cs, start, end));
        start = end;
        assert(out.deep_view() =~= before.push(piece));
        assert(out.deep_view() + rows_spec(s@.skip(start as int)) =~= before + rows_spec(rest));
    }
    assert(rows_spec(s@.skip(start as int)) =~= Seq::empty());
    assert(out.deep_view() =~= rows_spec(s@));
    out
}

/// A line without its line ending.
pub open spec fn strip_eol_spec(row: Seq<char>) -> Seq<char> {
    if row.len() > 0 && row.last() == '\n' {
        let r = row.drop_last();
        if r.len() > 0 && r.last() == '\r' {
            r.drop_last()
        } else {
            r
        }
    } else {
        row
    }
}

pub open spec fn lines_spec(s: Seq<char>) -> Seq<Seq<char>> {
    rows_spec(s).map_values(|r: Seq<char>| strip_eol_spec(r))
}

fn strip_eol(row: &str) -> (r: String)
    ensures
        r@ == strip_eol_spec(row@),
{
    let cs = chars_of(row);
    let mut n: usize = cs.len();
    if n > 0 && cs[n - 1] == '\n' {
        n = n - 1;
        if n > 0 && cs[n - 1] == '\r' {
            n = n - 1;
        }
    }
    let r = slice(&cs, 0, n);
    assert(r@ =~= strip_eol_spec(row@));
    r
}

pub fn lines(s: &str) -> (r: Vec<String>)
    ensures
        r.deep_view() == lines_spec(s@),
{
    let rs = rows(s);
    let mut out: Vec<String> = Vec::new();
    for i in 0..rs.len()
        invariant
            rs.deep_view() == rows_spec(s@),
            out@.len() == i,
            forall|j: int| 0 <= j < i ==> out@[j]@ == strip_eol_spec(rs.deep_view()[j]),
    {
        out.push(strip_eol(&rs[i]));
    }
    assert(out.deep_view() =~= lines_spec(s@));
    out
}

/// Length of the longest prefix of `s` without white space.
pub open spec fn word_len(s: Seq<char>) -> nat
    decreases s.len(),
{
    if s.len() == 0 || is_white_spec(s[0]) {
        0
    } else {
        1 + word_len(s.drop_first())
    }
}

proof fn lemma_word_len_is(s: Seq<char>, n: int)
    requires
        0 <= n <= s.len(),
        forall|j: int| 0 <= j < n ==> !is_white_spec(s[j]),
        n < s.len() ==> is_white_spec(s[n]),
    ensures
        word_len(s) == n,
    decreases s.len(),
{
    if n > 0 {
        lemma_word_len_is(s.drop_first(), n - 1);
    }
}

proof fn lemma_word_len_bound(s: Seq<char>)
    ensures
        word_len(s) <= s.len(),
    decreases s.len(),
{
    if s.len() > 0 {
        lemma_word_len_bound(s.drop_first());
    }
}

proof fn lemma_trim_start_len(s: Seq<char>, k: Cut)
    ensures
        trim_start_spec(s, k).len() <= s.len(),
        trim_start_spec(s, k).len() > 0 ==> !cuts(k, trim_start_spec(s, k)[0]),
    decreases s.len(),
{
    if s.len() > 0 {
        lemma_trim_start_len(s.drop_first(), k);
    }
}

/// The words of `s`, separated by white space.
pub open spec fn words_spec(s: Seq<char>) -> Seq<Seq<char>>
    decreases s.len(),
    via words_decreases
{
    let t = trim_start_spec(s, Cut::White);
    if t.len() == 0 {
        Seq::empty()
    } else {
        seq![t.take(word_len(t) as int)] + words_spec(t.skip(word_len(t) as int))
    }
}

#[via_fn]
proof fn words_decreases(s: Seq<char>) {
    let t = trim_start_spec(s, Cut::White);
    lemma_trim_start_len(s, Cut::White);
    lemma_word_len_bound(t);
}

proof fn lemma_trim_start_white(s: Seq<char>)
    requires
        s.len() > 0,
        is_white_spec(s[0]),
    ensures
        words_spec(s) == words_spec(s.drop_first()),
{
}

pub fn words(s: &str) -> (r: Vec<String>)
    ensures
        r.deep_view() == words_spec(s@),
{
    let cs = chars_of(s);
    let mut out: Vec<String> = Vec::new();
    let mut i: usize = 0;
    assert(s@.skip(0) =~= s@);
    assert(out.deep_view() + words_spec(s@) =~= words_spec(s@));
    while i < cs.len()
        invariant
            cs@ == s@,
            i <= cs@.len(),
            words_spec(s@) == out.deep_view() + words_spec(s@.skip(i as int)),
        decreases cs@.len() - i,
    {
        let ghost rest = s@.skip(i as int);
        if is_white(cs[i]) {
            proof {
                lemma_trim_start_white(rest);
                assert(rest.drop_first() =~= s@.skip(i + 1));
            }
            i = i + 1;
        } else {
            let start: usize = i;
            let ghost before = out.deep_view();
            while i < cs.len() && !is_white(cs[i])
                invariant
                    cs@ == s@,
                    start <= i <= cs@.len(),
                    forall|j: int| start <= j < i ==> !is_white_spec(cs@[j]),
                decreases cs@.len() - i,
            {
                i = i + 1;
            }
            let ghost piece = s@.subrange(start as int, i as int);
            proof {
                lemma_word_len_is(rest, i - start);
                assert(trim_start_spec(rest, Cut::White) == rest);
                assert(rest.take(i - start) =~= piece);
                assert(rest.skip(i - start) =~= s@.skip(i as int));
            }
            out.push(slice(&cs, start, i));
            assert(out.deep_view() =~= before.push(piece));
            assert(out.deep_view() + words_spec(s@.skip(i as int)) =~= before + words_spec(rest));
        }
    }
    assert(words_spec(s@.skip(i as int)) =~= Seq::empty());
    assert(out.deep_view() =~= words_spec(s@));
    out
}

// ---------------------------------------------------------------------------
// Letter case
// ---------------------------------------------------------------------------

/// `s` with its ASCII letters in lower case.
pub open spec fn lower_spec(s: Seq<char>) -> Seq<char> {
    s.map_values(|c: char| lower_char(c))
}

pub fn lower(s: &str) -> (r: String)
    ensures
        r@ == lower_spec(s@),
{
    let mut out = String::new();
    for c in it: s.chars()
        invariant
            it.seq() == s@,
            out@ == lower_spec(s@.take(it.index())),
    {
        out.push(to_lower_char(c));
        assert(lower_spec(s@.take(it.index() + 1)) =~= lower_spec(s@.take(it.index())).push(
            lower_char(s@[it.index()]),
        ));
    }
    assert(s@.take(s@.len() as int) =~= s@);
    out
}

// ---------------------------------------------------------------------------
// Decimal numbers
// ---------------------------------------------------------------------------

pub open spec fn digit_char(d: nat) -> char {
    if d == 0 { '0' } else if d == 1 { '1' } else if d == 2 { '2' } else if d == 3 { '3' }
    else if d == 4 { '4' } else if d == 5 { '5' } else if d == 6 { '6' } else if d == 7 { '7' }
    else if d == 8 { '8' } else { '9' }
}

/// The decimal digits of `n`.
pub open spec fn dec_spec(n: nat) -> Seq<char>
    decreases n,
{
    if n < 10 {
        seq![digit_char(n)]
    } else {
        dec_spec(n / 10).push(digit_char(n % 10))
    }
}

fn digit(d: u64) -> (c: char)
    requires
        d < 10,
    ensures
        c == digit_char(d as nat),
{
    if d == 0 { '0' } else if d == 1 { '1' } else if d == 2 { '2' } else if d == 3 { '3' }
    else if d == 4 { '4' } else if d == 5 { '5' } else if d == 6 { '6' } else if d == 7 { '7' }
    else if d == 8 { '8' } else { '9' }
}

pub fn dec(n: u64) -> (r: String)
    ensures
        r@ == dec_spec(n as nat),
    decreases n,
{
    if n < 10 {
        let mut s = String::new();
        s.push(digit(n));
        assert(s@ =~= seq![digit_char(n as nat)]);
        s
    } else {
        let mut s = dec(n / 10);
        s.push(digit(n % 10));
        s
    }
}

pub fn dec_usize(n: usize) -> (r: String)
    ensures
        r@ == dec_spec(n as nat),
{
    dec(n as u64)
}

pub open spec fn is_digit(c: char) -> bool {
    '0' <= c <= '9'
}

pub open spec fn digit_value(c: char) -> nat {
    (c as u32 - '0' as u32) as nat
}

pub open spec fn all_digits(s: Seq<char>) -> bool {
    forall|i: int| 0 <= i < s.len() ==> is_digit(#[trigger] s[i])
}

/// The number that the digits `s` write in base ten.
pub open spec fn value_of(s: Seq<char>) -> nat
    decreases s.len(),
{
    if s.len() == 0 {
        0
    } else {
        value_of(s.drop_last()) * 10 + digit_value(s.last())
    }
}

proof fn lemma_value_grows(s: Seq<char>, i: int)
    requires
        0 <= i <= s.len(),
        all_digits(s),
    ensures
        value_of(s.take(i)) <= value_of(s),
    decreases s.len(),
{
    if i == s.len() {
        assert(s.take(i) =~= s);
    } else {
        assert(s.drop_last().take(i) =~= s.take(i));
        assert(all_digits(s.drop_last())) by {
            assert forall|j: int| 0 <= j < s.len() - 1 implies is_digit(#[trigger] s.drop_last()[j]) by {
                assert(is_digit(s[j]));
            }
        }
        lemma_value_grows(s.drop_last(), i);
    }
}

/// The number written by `s[from..]`, if that is one or more digits and at most `max`.
fn digits_from(cs: &Vec<char>, from: usize, max: u64) -> (r: Option<u64>)
    requires
        from <= cs@.len(),
    ensures
        match r {
            Some(v) => cs@.len() > from && all_digits(cs@.skip(from as int)) && v == value_of(
                cs@.skip(from as int),
            ) && v <= max,
            None => !(cs@.len() > from && all_digits(cs@.skip(from as int)) && value_of(
                cs@.skip(from as int),
            ) <= max),
        },
{
    if from == cs.len() {
        return None;
    }
    let ghost d = cs@.skip(from as int);
    let mut acc: u64 = 0;
    let mut i: usize = from;
    while i < cs.len()
        invariant
            d == cs@.skip(from as int),
            from <= i <= cs@.len(),
            acc == value_of(d.take(i - from)),
            acc <= max,
            forall|j: int| 0 <= j < i - from ==> is_digit(#[trigger] d[j]),
        decreases cs@.len() - i,
    {
        let c = cs[i];
        assert(d[i - from] == c);
        if !('0' <= c && c <= '9') {
            assert(!is_digit(d[i - from]));
            return None;
        }
        let v: u64 = (c as u32 - '0' as u32) as u64;
        assert(d.take(i - from + 1).drop_last() =~= d.take(i - from));
        assert(value_of(d.take(i - from + 1)) == acc * 10 + v);
        if v > max || acc > max / 10 || acc * 10 > max - v {
            proof {
                if all_digits(d) {
                    lemma_value_grows(d, i - from + 1);
                }
            }
            return None;
        }
        acc = acc * 10 + v;
        i = i + 1;
    }
    assert(d.take(i - from) =~= d);
    Some(acc)
}

/// The unsigned number that `s` writes, with an optional plus sign, if it fits in `usize`.
pub open spec fn parse_usize_spec(s: Seq<char>) -> Option<usize> {
    let d = if s.len() > 0 && s[0] == '+' {
        s.drop_first()
    } else {
        s
    };
    if d.len() > 0 && all_digits(d) && value_of(d) <= usize::MAX {
        Some(value_of(d) as usize)
    } else {
        None
    }
}

pub fn parse_usize(s: &str) -> (r: Option<usize>)
    ensures
        r == parse_usize_spec(s@),
{
    let cs = chars_of(s);
    let from: usize = if cs.len() > 0 && cs[0] == '+' {
        1
    } else {
        0
    };
    proof {
        assert(s@.skip(0) =~= s@);
        assert(s@.len() > 0 ==> s@.skip(1) =~= s@.drop_first());
    }
    match digits_from(&cs, from, usize::MAX as u64) {
        Some(v) => Some(v as usize),
        None => None,
    }
}

/// The number that `s` writes, with an optional sign, if it fits in `i64`.
pub open spec fn parse_i64_spec(s: Seq<char>) -> Option<i64> {
    let signed = s.len() > 0 && (s[0] == '+' || s[0] == '-');
    let d = if signed {
        s.drop_first()
    } else {
        s
    };
    let v = if signed && s[0] == '-' {
        -(value_of(d) as int)
    } else {
        value_of(d) as int
    };
    if d.len() > 0 && all_digits(d) && i64::MIN <= v <= i64::MAX {
        Some(v as i64)
    } else {
        None
    }
}

pub fn parse_i64(s: &str) -> (r: Option<i64>)
    ensures
        r == parse_i64_spec(s@),
{
    let cs = chars_of(s);
    let minus = cs.len() > 0 && cs[0] == '-';
    let from: usize = if cs.len() > 0 && (cs[0] == '+' || cs[0] == '-') {
        1
    } else {
        0
    };
    proof {
        assert(s@.skip(0) =~= s@);
        assert(s@.len() > 0 ==> s@.skip(1) =~= s@.drop_first());
    }
    if minus {
        match digits_from(&cs, from, 0x8000_0000_0000_0000) {
            Some(v) => if v == 0x8000_0000_0000_0000 {
                Some(i64::MIN)
            } else {
                Some(-(v as i64))
            },
            None => None,
        }
    } else {
        match digits_from(&cs, from, 0x7fff_ffff_ffff_ffff) {
            Some(v) => Some(v as i64),
            None => None,
        }
    }
}

} // verus!
