//! Text operations on strings, stated over sequences of characters.

use vstd::prelude::*;

verus! {

/// `String::push` appends the given character to the end of the string.
pub assume_specification[ String::push ](s: &mut String, c: char)
    ensures
        final(s)@ == old(s)@.push(c),
;

// ---------------------------------------------------------------------------
// Characters
// ---------------------------------------------------------------------------

/// Unicode `White_Space`.
pub open spec fn is_white_spec(c: char) -> bool {
    ||| '\u{9}' <= c <= '\u{d}'
    ||| c == ' '
    ||| c == '\u{85}'
    ||| c == '\u{a0}'
    ||| c == '\u{1680}'
    ||| '\u{2000}' <= c <= '\u{200a}'
    ||| c == '\u{2028}'
    ||| c == '\u{2029}'
    ||| c == '\u{202f}'
    ||| c == '\u{205f}'
    ||| c == '\u{3000}'
}

pub fn is_white(c: char) -> (r: bool)
    ensures
        r == is_white_spec(c),
{
    ('\u{9}' <= c && c <= '\u{d}') || c == ' ' || c == '\u{85}' || c == '\u{a0}' || c == '\u{1680}'
        || ('\u{2000}' <= c && c <= '\u{200a}') || c == '\u{2028}' || c == '\u{2029}'
        || c == '\u{202f}' || c == '\u{205f}' || c == '\u{3000}'
}

/// The characters that a trim removes.
#[derive(Clone, Copy)]
pub enum Cut {
    White,
    Only(char),
}

pub open spec fn cuts(k: Cut, c: char) -> bool {
    match k {
        Cut::White => is_white_spec(c),
        Cut::Only(d) => c == d,
    }
}

fn cut_has(k: Cut, c: char) -> (r: bool)
    ensures
        r == cuts(k, c),
{
    match k {
        Cut::White => is_white(c),
        Cut::Only(d) => c == d,
    }
}

pub open spec fn lower_char(c: char) -> char {
    if 'A' <= c <= 'Z' {
        ((c as u32 + 32) as u32) as char
    } else {
        c
    }
}

pub fn to_lower_char(c: char) -> (r: char)
    ensures
        r == lower_char(c),
{
    if 'A' <= c && c <= 'Z' {
        let b: u8 = c as u8;
        (b + 32) as char
    } else {
        c
    }
}

/// Number of bytes that `c` takes in UTF-8.
pub open spec fn char_bytes(c: char) -> nat {
    if (c as u32) < 0x80 {
        1
    } else if (c as u32) < 0x800 {
        2
    } else if (c as u32) < 0x10000 {
        3
    } else {
        4
    }
}

pub fn char_len(c: char) -> (r: usize)
    ensures
        r == char_bytes(c),
        1 <= r <= 4,
{
    let u: u32 = c as u32;
    if u < 0x80 {
        1
    } else if u < 0x800 {
        2
    } else if u < 0x10000 {
        3
    } else {
        4
    }
}

/// Number of bytes that `s` takes in UTF-8.
pub open spec fn bytes_of(s: Seq<char>) -> nat
    decreases s.len(),
{
    if s.len() == 0 {
        0
    } else {
        bytes_of(s.drop_last()) + char_bytes(s.last())
    }
}

pub proof fn lemma_bytes_add(a: Seq<char>, b: Seq<char>)
    ensures
        bytes_of(a + b) == bytes_of(a) + bytes_of(b),
    decreases b.len(),
{
    if b.len() == 0 {
        assert(a + b =~= a);
    } else {
        assert((a + b).drop_last() =~= a + b.drop_last());
        lemma_bytes_add(a, b.drop_last());
    }
}

proof fn lemma_bytes_encoded(s: Seq<char>)
    ensures
        bytes_of(s) == vstd::utf8::encode_utf8(s).len(),
    decreases s.len(),
{
    if s.len() > 0 {
        lemma_bytes_encoded(s.drop_first());
        assert(s =~= seq![s[0]] + s.drop_first());
        lemma_bytes_add(seq![s[0]], s.drop_first());
        let one = seq![s[0]];
        assert(one.drop_last() =~= Seq::empty());
        assert(bytes_of(one.drop_last()) == 0);
        assert(bytes_of(one) == char_bytes(s[0]));
        vstd::utf8::char_is_scalar(s[0]);
        assert(vstd::utf8::encode_scalar(s[0] as u32).len() == char_bytes(s[0]));
    }
}

/// The length of a text in bytes.
pub fn byte_len(s: &str) -> (r: usize)
    ensures
        r == bytes_of(s@),
{
    proof {
        lemma_bytes_encoded(s@);
    }
    s.as_bytes().len()
}

// ---------------------------------------------------------------------------
// Building and taking apart
// ---------------------------------------------------------------------------

/// The characters of `s`.
pub fn chars_of(s: &str) -> (r: Vec<char>)
    ensures
        r@ == s@,
{
    let mut v: Vec<char> = Vec::new();
    for c in it: s.chars()
        invariant
            v@ == s@.take(it.index()),
            it.seq() == s@,
    {
        v.push(c);
    }
    v
}

/// The string made of `cs[from..to]`.
pub fn slice(cs: &Vec<char>, from: usize, to: usize) -> (r: String)
    requires
        from <= to <= cs@.len(),
    ensures
        r@ == cs@.subrange(from as int, to as int),
{
    let mut out = String::new();
    let mut i: usize = from;
    while i < to
        invariant
            from <= i <= to <= cs@.len(),
            out@ == cs@.subrange(from as int, i as int),
        decreases to - i,
    {
        out.push(cs[i]);
        i = i + 1;
        assert(cs@.subrange(from as int, i as int) =~= cs@.subrange(from as int, i - 1).push(
            cs@[i - 1],
        ));
    }
    out
}

/// The longest start of `s` that takes at most `n` bytes.
pub open spec fn head_bytes(s: Seq<char>, n: nat) -> Seq<char>
    decreases s.len(),
{
    if s.len() == 0 || char_bytes(s[0]) > n {
        Seq::empty()
    } else {
        seq![s[0]] + head_bytes(s.drop_first(), (n - char_bytes(s[0])) as nat)
    }
}

/// How many characters of `s` the first `n` bytes hold.
pub open spec fn char_at(s: Seq<char>, n: nat) -> nat {
    head_bytes(s, n).len()
}

/// Does `s` have `n` bytes, the last of which ends a character?
pub open spec fn is_cut(s: Seq<char>, n: nat) -> bool {
    bytes_of(head_bytes(s, n)) == n
}

proof fn lemma_bytes_first(s: Seq<char>)
    requires
        s.len() > 0,
    ensures
        bytes_of(s) == char_bytes(s[0]) + bytes_of(s.drop_first()),
{
    let one = seq![s[0]];
    assert(s =~= one + s.drop_first());
    lemma_bytes_add(one, s.drop_first());
    assert(one.drop_last() =~= Seq::empty());
    assert(bytes_of(one.drop_last()) == 0);
}

pub proof fn lemma_head_bytes(s: Seq<char>, n: nat)
    ensures
        char_at(s, n) <= s.len(),
        head_bytes(s, n) == s.take(char_at(s, n) as int),
    decreases s.len(),
{
    if s.len() == 0 || char_bytes(s[0]) > n {
        assert(s.take(0) =~= Seq::empty());
    } else {
        let left = (n - char_bytes(s[0])) as nat;
        lemma_head_bytes(s.drop_first(), left);
        let k = char_at(s.drop_first(), left) as int;
        assert(seq![s[0]] + s.drop_first().take(k) =~= s.take(k + 1));
    }
}

/// A character starts behind the bytes of those before it.
pub proof fn lemma_cut(s: Seq<char>, k: int)
    requires
        0 <= k <= s.len(),
    ensures
        is_cut(s, bytes_of(s.take(k))),
        char_at(s, bytes_of(s.take(k))) == k,
    decreases s.len(),
{
    let head = s.take(k);
    if k == 0 {
        assert(bytes_of(head) == 0);
    } else {
        let rest = s.drop_first();
        lemma_bytes_first(head);
        assert(head.drop_first() =~= rest.take(k - 1));
        lemma_cut(rest, k - 1);
        lemma_head_bytes(s, bytes_of(head));
    }
}

/// More bytes hold no fewer characters.
pub proof fn lemma_char_at_order(s: Seq<char>, a: nat, b: nat)
    requires
        a <= b,
    ensures
        char_at(s, a) <= char_at(s, b),
    decreases s.len(),
{
    if s.len() > 0 && char_bytes(s[0]) <= a {
        let n = char_bytes(s[0]);
        lemma_char_at_order(s.drop_first(), (a - n) as nat, (b - n) as nat);
    }
}

/// How many characters of `cs` the first `n` bytes hold.
pub fn char_index(cs: &Vec<char>, n: usize) -> (r: usize)
    ensures
        r == char_at(cs@, n as nat),
        r <= cs@.len(),
{
    let mut i: usize = 0;
    let mut left: usize = n;
    assert(cs@.skip(0) =~= cs@);
    while i < cs.len() && char_len(cs[i]) <= left
        invariant
            i <= cs@.len(),
            i + char_at(cs@.skip(i as int), left as nat) == char_at(cs@, n as nat),
        decreases cs@.len() - i,
    {
        let k = char_len(cs[i]);
        assert(cs@.skip(i as int).drop_first() =~= cs@.skip(i + 1));
        left = left - k;
        i = i + 1;
    }
    i
}

/// Does `s` have `n` bytes, the last of which ends a character?
pub fn at_cut(s: &str, n: usize) -> (r: bool)
    ensures
        r == is_cut(s@, n as nat),
{
    byte_len(&take_bytes(s, n)) == n
}

/// The start of `id` that takes at most `n` bytes, no character cut.
pub fn take_bytes(id: &str, n: usize) -> (r: String)
    ensures
        r@ == head_bytes(id@, n as nat),
{
    let cs = chars_of(id);
    let k = char_index(&cs, n);
    proof {
        lemma_head_bytes(id@, n as nat);
    }
    assert(cs@.take(k as int) =~= cs@.subrange(0, k as int));
    slice(&cs, 0, k)
}

pub fn same(a: &str, b: &str) -> (r: bool)
    ensures
        r == (a@ == b@),
{
    a.to_string() == b.to_string()
}

/// Does `s` hold nothing?
pub fn empty(s: &str) -> (r: bool)
    ensures
        r == (s@.len() == 0),
{
    s.unicode_len() == 0
}

pub fn cat2(a: &str, b: &str) -> (r: String)
    ensures
        r@ == a@ + b@,
{
    let mut out = a.to_string();
    out.append(b);
    out
}

pub fn cat3(a: &str, b: &str, c: &str) -> (r: String)
    ensures
        r@ == a@ + b@ + c@,
{
    let mut out = a.to_string();
    out.append(b);
    out.append(c);
    out
}

pub fn cat4(a: &str, b: &str, c: &str, d: &str) -> (r: String)
    ensures
        r@ == a@ + b@ + c@ + d@,
{
    let mut out = cat3(a, b, c);
    out.append(d);
    out
}

pub fn cat5(a: &str, b: &str, c: &str, d: &str, e: &str) -> (r: String)
    ensures
        r@ == a@ + b@ + c@ + d@ + e@,
{
    let mut out = cat4(a, b, c, d);
    out.append(e);
    out
}

pub fn cat6(a: &str, b: &str, c: &str, d: &str, e: &str, f: &str) -> (r: String)
    ensures
        r@ == a@ + b@ + c@ + d@ + e@ + f@,
{
    let mut out = cat5(a, b, c, d, e);
    out.append(f);
    out
}

pub fn cat7(a: &str, b: &str, c: &str, d: &str, e: &str, f: &str, g: &str) -> (r: String)
    ensures
        r@ == a@ + b@ + c@ + d@ + e@ + f@ + g@,
{
    let mut out = cat6(a, b, c, d, e, f);
    out.append(g);
    out
}

pub open spec fn strs(a: Seq<&str>) -> Seq<Seq<char>> {
    a.map_values(|s: &str| s@)
}

/// Owned copies of `parts`.
pub fn argv(parts: &[&str]) -> (r: Vec<String>)
    ensures
        r.deep_view() == strs(parts@),
{
    let mut v: Vec<String> = Vec::new();
    for i in 0..parts.len()
        invariant
            v.deep_view() == strs(parts@.take(i as int)),
    {
        v.push(parts[i].to_string());
        assert(strs(parts@.take(i + 1)) =~= strs(parts@.take(i as int)).push(parts@[i as int]@));
        assert(v.deep_view() =~= strs(parts@.take(i + 1)));
    }
    assert(parts@.take(parts@.len() as int) =~= parts@);
    v
}

pub fn args1(a: &str) -> (r: Vec<String>)
    ensures
        r.deep_view() == seq![a@],
{
    let r = argv(&[a]);
    assert(r.deep_view() =~= seq![a@]);
    r
}

pub fn args2(a: &str, b: &str) -> (r: Vec<String>)
    ensures
        r.deep_view() == seq![a@, b@],
{
    let r = argv(&[a, b]);
    assert(r.deep_view() =~= seq![a@, b@]);
    r
}

pub fn args3(a: &str, b: &str, c: &str) -> (r: Vec<String>)
    ensures
        r.deep_view() == seq![a@, b@, c@],
{
    let r = argv(&[a, b, c]);
    assert(r.deep_view() =~= seq![a@, b@, c@]);
    r
}

pub fn args4(a: &str, b: &str, c: &str, d: &str) -> (r: Vec<String>)
    ensures
        r.deep_view() == seq![a@, b@, c@, d@],
{
    let r = argv(&[a, b, c, d]);
    assert(r.deep_view() =~= seq![a@, b@, c@, d@]);
    r
}

pub fn args5(a: &str, b: &str, c: &str, d: &str, e: &str) -> (r: Vec<String>)
    ensures
        r.deep_view() == seq![a@, b@, c@, d@, e@],
{
    let r = argv(&[a, b, c, d, e]);
    assert(r.deep_view() =~= seq![a@, b@, c@, d@, e@]);
    r
}

pub fn args6(a: &str, b: &str, c: &str, d: &str, e: &str, f: &str) -> (r: Vec<String>)
    ensures
        r.deep_view() == seq![a@, b@, c@, d@, e@, f@],
{
    let r = argv(&[a, b, c, d, e, f]);
    assert(r.deep_view() =~= seq![a@, b@, c@, d@, e@, f@]);
    r
}

pub fn args7(a: &str, b: &str, c: &str, d: &str, e: &str, f: &str, g: &str) -> (r: Vec<String>)
    ensures
        r.deep_view() == seq![a@, b@, c@, d@, e@, f@, g@],
{
    let r = argv(&[a, b, c, d, e, f, g]);
    assert(r.deep_view() =~= seq![a@, b@, c@, d@, e@, f@, g@]);
    r
}

pub fn args8(a: &str, b: &str, c: &str, d: &str, e: &str, f: &str, g: &str, h: &str) -> (r: Vec<String>)
    ensures
        r.deep_view() == seq![a@, b@, c@, d@, e@, f@, g@, h@],
{
    let r = argv(&[a, b, c, d, e, f, g, h]);
    assert(r.deep_view() =~= seq![a@, b@, c@, d@, e@, f@, g@, h@]);
    r
}

pub fn copy_all(v: &Vec<String>) -> (r: Vec<String>)
    ensures
        r.deep_view() == v.deep_view(),
{
    let mut out: Vec<String> = Vec::new();
    for i in 0..v.len()
        invariant
            out.deep_view() == v.deep_view().take(i as int),
    {
        let ghost before = out.deep_view();
        out.push(v[i].clone());
        assert(out.deep_view() =~= before.push(v@[i as int]@));
        assert(out.deep_view() =~= v.deep_view().take(i + 1));
    }
    assert(v.deep_view().take(v@.len() as int) =~= v.deep_view());
    out
}

pub fn copy_opt(v: &Option<String>) -> (r: Option<String>)
    ensures
        r.deep_view() == v.deep_view(),
{
    match v {
        Some(s) => Some(s.clone()),
        None => None,
    }
}

pub fn borrow_opt(v: &Option<String>) -> (r: Option<&str>)
    ensures
        r.deep_view() == v.deep_view(),
{
    match v {
        Some(s) => Some(s.as_str()),
        None => None,
    }
}

/// `a`, then `b`.
pub fn chain(a: Vec<String>, b: Vec<String>) -> (r: Vec<String>)
    ensures
        r.deep_view() == a.deep_view() + b.deep_view(),
{
    let ghost x = a.deep_view();
    let ghost y = b.deep_view();
    let mut v = a;
    let mut w = b;
    v.append(&mut w);
    assert(v.deep_view() =~= x + y);
    v
}

/// Does `v` hold the text `s`?
pub fn among(v: &Vec<String>, s: &str) -> (r: bool)
    ensures
        r == v.deep_view().contains(s@),
{
    for i in 0..v.len()
        invariant
            forall|j: int| 0 <= j < i ==> v.deep_view()[j] != s@,
    {
        if same(&v[i], s) {
            assert(v.deep_view()[i as int] == s@);
            return true;
        }
    }
    false
}

/// Is `s` one of `names`?
pub fn listed(names: &[&str], s: &str) -> (r: bool)
    ensures
        r == names.deep_view().contains(s@),
{
    for i in 0..names.len()
        invariant
            forall|j: int| 0 <= j < i ==> names.deep_view()[j] != s@,
    {
        assert(names.deep_view()[i as int] == names@[i as int]@);
        if same(names[i], s) {
            return true;
        }
    }
    false
}

pub fn same_all(a: &Vec<String>, b: &Vec<String>) -> (r: bool)
    ensures
        r == (a.deep_view() == b.deep_view()),
{
    if a.len() != b.len() {
        assert(a.deep_view().len() != b.deep_view().len());
        return false;
    }
    for i in 0..a.len()
        invariant
            a@.len() == b@.len(),
            forall|j: int| 0 <= j < i ==> a.deep_view()[j] == b.deep_view()[j],
    {
        assert(a.deep_view()[i as int] == a@[i as int]@);
        assert(b.deep_view()[i as int] == b@[i as int]@);
        if !same(&a[i], &b[i]) {
            return false;
        }
    }
    assert(a.deep_view() =~= b.deep_view());
    true
}

pub fn same_opt(a: &Option<String>, b: &Option<String>) -> (r: bool)
    ensures
        r == (a.deep_view() == b.deep_view()),
{
    match (a, b) {
        (Some(x), Some(y)) => same(x, y),
        (None, None) => true,
        _ => false,
    }
}

/// `parts` with `sep` between each two neighbours.
pub open spec fn join_spec(parts: Seq<Seq<char>>, sep: Seq<char>) -> Seq<char>
    decreases parts.len(),
{
    if parts.len() == 0 {
        Seq::empty()
    } else if parts.len() == 1 {
        parts[0]
    } else {
        join_spec(parts.drop_last(), sep) + sep + parts.last()
    }
}

pub fn join(parts: &Vec<String>, sep: &str) -> (r: String)
    ensures
        r@ == join_spec(parts.deep_view(), sep@),
{
    let mut out = String::new();
    let ghost all = parts.deep_view();
    for i in 0..parts.len()
        invariant
            all == parts.deep_view(),
            out@ == join_spec(all.take(i as int), sep@),
    {
        if i > 0 {
            out.append(sep);
        }
        out.append(&parts[i]);
        assert(all.take(i + 1).drop_last() =~= all.take(i as int));
        assert(out@ =~= join_spec(all.take(i + 1), sep@));
    }
    assert(all.take(parts@.len() as int) =~= all);
    out
}

// ---------------------------------------------------------------------------
// Trimming
// ---------------------------------------------------------------------------

pub open spec fn trim_start_spec(s: Seq<char>, k: Cut) -> Seq<char>
    decreases s.len(),
{
    if s.len() > 0 && cuts(k, s[0]) {
        trim_start_spec(s.drop_first(), k)
    } else {
        s
    }
}

pub open spec fn trim_end_spec(s: Seq<char>, k: Cut) -> Seq<char>
    decreases s.len(),
{
    if s.len() > 0 && cuts(k, s.last()) {
        trim_end_spec(s.drop_last(), k)
    } else {
        s
    }
}

pub open spec fn trim_spec(s: Seq<char>, k: Cut) -> Seq<char> {
    trim_end_spec(trim_start_spec(s, k), k)
}

fn start_after_cut(cs: &Vec<char>, k: Cut) -> (i: usize)
    ensures
        i <= cs@.len(),
        cs@.skip(i as int) == trim_start_spec(cs@, k),
{
    let mut i: usize = 0;
    assert(cs@.skip(0) =~= cs@);
    while i < cs.len() && cut_has(k, cs[i])
        invariant
            i <= cs@.len(),
            trim_start_spec(cs@, k) == trim_start_spec(cs@.skip(i as int), k),
        decreases cs@.len() - i,
    {
        assert(cs@.skip(i as int).drop_first() =~= cs@.skip(i + 1));
        i = i + 1;
    }
    i
}

fn end_before_cut(cs: &Vec<char>, from: usize, k: Cut) -> (j: usize)
    requires
        from <= cs@.len(),
    ensures
        from <= j <= cs@.len(),
        cs@.subrange(from as int, j as int) == trim_end_spec(cs@.skip(from as int), k),
{
    let mut j: usize = cs.len();
    assert(cs@.subrange(from as int, j as int) =~= cs@.skip(from as int));
    while j > from && cut_has(k, cs[j - 1])
        invariant
            from <= j <= cs@.len(),
            trim_end_spec(cs@.skip(from as int), k) == trim_end_spec(
                cs@.subrange(from as int, j as int),
                k,
            ),
        decreases j,
    {
        assert(cs@.subrange(from as int, j as int).drop_last() =~= cs@.subrange(
            from as int,
            j - 1,
        ));
        j = j - 1;
    }
    j
}

/// `s` without the characters of `k` at its two ends.
pub fn trim(s: &str, k: Cut) -> (r: String)
    ensures
        r@ == trim_spec(s@, k),
{
    let cs = chars_of(s);
    let i = start_after_cut(&cs, k);
    let j = end_before_cut(&cs, i, k);
    slice(&cs, i, j)
}

pub fn trim_end(s: &str, k: Cut) -> (r: String)
    ensures
        r@ == trim_end_spec(s@, k),
{
    let cs = chars_of(s);
    let j = end_before_cut(&cs, 0, k);
    assert(cs@.skip(0) =~= cs@);
    slice(&cs, 0, j)
}

pub fn trim_start(s: &str, k: Cut) -> (r: String)
    ensures
        r@ == trim_start_spec(s@, k),
{
    let cs = chars_of(s);
    let i = start_after_cut(&cs, k);
    assert(cs@.subrange(i as int, cs@.len() as int) =~= cs@.skip(i as int));
    slice(&cs, i, cs.len())
}

// ---------------------------------------------------------------------------
// Splitting on a character
// ---------------------------------------------------------------------------

/// Position of the first `c` in `s`, or the length of `s`.
pub open spec fn index_of(s: Seq<char>, c: char) -> nat
    decreases s.len(),
{
    if s.len() == 0 || s[0] == c {
        0
    } else {
        1 + index_of(s.drop_first(), c)
    }
}

pub proof fn lemma_index_of(s: Seq<char>, c: char)
    ensures
        index_of(s, c) <= s.len(),
        forall|j: int| 0 <= j < index_of(s, c) ==> s[j] != c,
        index_of(s, c) < s.len() ==> s[index_of(s, c) as int] == c,
        s.contains(c) <==> index_of(s, c) < s.len(),
    decreases s.len(),
{
    if s.len() > 0 && s[0] != c {
        let d = s.drop_first();
        lemma_index_of(d, c);
        assert forall|j: int| 0 <= j < index_of(s, c) implies s[j] != c by {
            if j > 0 {
                assert(s[j] == d[j - 1]);
            }
        }
        if s.contains(c) {
            let j = choose|j: int| 0 <= j < s.len() && s[j] == c;
            assert(d[j - 1] == c);
        }
    }
}

pub proof fn lemma_index_is(s: Seq<char>, c: char, i: int)
    requires
        0 <= i <= s.len(),
        forall|j: int| 0 <= j < i ==> s[j] != c,
        i < s.len() ==> s[i] == c,
    ensures
        index_of(s, c) == i,
{
    lemma_index_of(s, c);
}

/// The pieces of `s` between the occurrences of `c`.
pub open spec fn split_spec(s: Seq<char>, c: char) -> Seq<Seq<char>>
    decreases s.len(),
{
    let i = index_of(s, c) as int;
    if i >= s.len() {
        seq![s]
    } else {
        seq![s.take(i)] + split_spec(s.skip(i + 1), c)
    }
}

/// No piece of a split text holds the separator, and there is at least one piece.
pub proof fn lemma_split_pieces(s: Seq<char>, c: char)
    ensures
        split_spec(s, c).len() > 0,
        forall|i: int| 0 <= i < split_spec(s, c).len() ==> !(#[trigger] split_spec(s, c)[i]).contains(c),
    decreases s.len(),
{
    lemma_index_of(s, c);
    let k = index_of(s, c) as int;
    if k < s.len() {
        let rest = split_spec(s.skip(k + 1), c);
        lemma_split_pieces(s.skip(k + 1), c);
        assert forall|i: int| 0 <= i < split_spec(s, c).len() implies !(#[trigger] split_spec(
            s,
            c,
        )[i]).contains(c) by {
            if i > 0 {
                assert(split_spec(s, c)[i] == rest[i - 1]);
            } else {
                assert(split_spec(s, c)[0] == s.take(k));
            }
        }
    }
}

pub proof fn lemma_join_cons(parts: Seq<Seq<char>>, sep: Seq<char>)
    requires
        parts.len() > 1,
    ensures
        join_spec(parts, sep) == parts[0] + sep + join_spec(parts.drop_first(), sep),
    decreases parts.len(),
{
    reveal_with_fuel(join_spec, 2);
    let init = parts.drop_last();
    let rest = parts.drop_first();
    assert(rest.last() == parts.last());
    if parts.len() > 2 {
        lemma_join_cons(init, sep);
        assert(init.drop_first() =~= rest.drop_last());
        assert(init[0] == parts[0]);
        let mid = join_spec(rest.drop_last(), sep);
        assert(join_spec(rest, sep) == mid + sep + parts.last());
        assert((parts[0] + sep + mid) + sep + parts.last() =~= parts[0] + sep + (mid + sep
            + parts.last()));
    }
}

/// Splitting what was joined gives the parts back, where none of them holds the separator.
pub proof fn lemma_split_join(parts: Seq<Seq<char>>, c: char)
    requires
        parts.len() > 0,
        forall|i: int| 0 <= i < parts.len() ==> !(#[trigger] parts[i]).contains(c),
    ensures
        split_spec(join_spec(parts, seq![c]), c) == parts,
    decreases parts.len(),
{
    let s = join_spec(parts, seq![c]);
    lemma_index_of(s, c);
    let k = index_of(s, c) as int;
    if parts.len() == 1 {
        assert(!parts[0].contains(c));
        assert(split_spec(s, c) =~= parts);
    } else {
        let rest = parts.drop_first();
        let n = parts[0].len() as int;
        lemma_join_cons(parts, seq![c]);
        assert forall|i: int| 0 <= i < rest.len() implies !(#[trigger] rest[i]).contains(c) by {
            assert(rest[i] == parts[i + 1]);
        }
        lemma_split_join(rest, c);
        assert(s[n] == c);
        assert(s.contains(c));
        if k < n {
            assert(s[k] == parts[0][k]);
            assert(parts[0].contains(c));
        }
        assert(k == n);
        assert(s.take(k) =~= parts[0]);
        assert(s.skip(k + 1) =~= join_spec(rest, seq![c]));
        assert(split_spec(s, c) =~= parts);
    }
}

pub fn split(s: &str, c: char) -> (r: Vec<String>)
    ensures
        r.deep_view() == split_spec(s@, c),
        r@.len() > 0,
{
    let cs = chars_of(s);
    let mut parts: Vec<String> = Vec::new();
    let mut start: usize = 0;
    let mut i: usize = 0;
    assert(s@.skip(0) =~= s@);
    assert(parts.deep_view() + split_spec(s@, c) =~= split_spec(s@, c));
    while i < cs.len()
        invariant
            cs@ == s@,
            start <= i <= cs@.len(),
            forall|j: int| start <= j < i ==> cs@[j] != c,
            split_spec(s@, c) == parts.deep_view() + split_spec(s@.skip(start as int), c),
        decreases cs@.len() - i,
    {
        if cs[i] == c {
            let ghost rest = s@.skip(start as int);
            let ghost before = parts.deep_view();
            proof {
                lemma_index_is(rest, c, i - start);
                assert(rest.skip(i - start + 1) =~= s@.skip(i + 1));
                assert(rest.take(i - start) =~= s@.subrange(start as int, i as int));
            }
            parts.push(slice(&cs, start, i));
            start = i + 1;
            assert(parts.deep_view() =~= before.push(s@.subrange(rest_at(s@, rest), i as int)));
            assert(parts.deep_view() + split_spec(s@.skip(start as int), c) =~= before
                + split_spec(rest, c));
        }
        i = i + 1;
    }
    let ghost rest = s@.skip(start as int);
    let ghost before = parts.deep_view();
    proof {
        lemma_index_is(rest, c, rest.len() as int);
        assert(s@.subrange(start as int, s@.len() as int) =~= rest);
    }
    parts.push(slice(&cs, start, cs.len()));
    assert(parts.deep_view() =~= before + seq![rest]);
    parts
}

spec fn rest_at(s: Seq<char>, rest: Seq<char>) -> int {
    s.len() - rest.len()
}

/// What stands before and after the first `c` in `s`.
pub open spec fn split_once_spec(s: Seq<char>, c: char) -> Option<(Seq<char>, Seq<char>)> {
    let i = index_of(s, c) as int;
    if i >= s.len() {
        None
    } else {
        Some((s.take(i), s.skip(i + 1)))
    }
}

pub fn first_index(cs: &Vec<char>, from: usize, c: char) -> (i: usize)
    requires
        from <= cs@.len(),
    ensures
        from <= i <= cs@.len(),
        i - from == index_of(cs@.skip(from as int), c),
{
    let mut i: usize = from;
    while i < cs.len() && cs[i] != c
        invariant
            from <= i <= cs@.len(),
            forall|j: int| from <= j < i ==> cs@[j] != c,
        decreases cs@.len() - i,
    {
        i = i + 1;
    }
    proof {
        lemma_index_is(cs@.skip(from as int), c, i - from);
    }
    i
}

pub fn split_once(s: &str, c: char) -> (r: Option<(String, String)>)
    ensures
        r.deep_view() == split_once_spec(s@, c),
{
    let cs = chars_of(s);
    let i = first_index(&cs, 0, c);
    assert(s@.skip(0) =~= s@);
    if i == cs.len() {
        None
    } else {
        assert(s@.subrange(0, i as int) =~= s@.take(i as int));
        assert(s@.subrange(i + 1, s@.len() as int) =~= s@.skip(i + 1));
        Some((slice(&cs, 0, i), slice(&cs, i + 1, cs.len())))
    }
}

/// At most `n` pieces of `s`: the last holds what is left, separators included.
pub open spec fn splitn_spec(s: Seq<char>, n: nat, c: char) -> Seq<Seq<char>>
    decreases n,
{
    if n == 0 {
        Seq::empty()
    } else {
        let i = index_of(s, c) as int;
        if n == 1 || i >= s.len() {
            seq![s]
        } else {
            seq![s.take(i)] + splitn_spec(s.skip(i + 1), (n - 1) as nat, c)
        }
    }
}

pub fn splitn(s: &str, n: usize, c: char) -> (r: Vec<String>)
    ensures
        r.deep_view() == splitn_spec(s@, n as nat, c),
        r@.len() <= n,
{
    let mut parts: Vec<String> = Vec::new();
    if n == 0 {
        assert(parts.deep_view() =~= Seq::empty());
        return parts;
    }
    let cs = chars_of(s);
    let mut start: usize = 0;
    let mut left: usize = n;
    assert(s@.skip(0) =~= s@);
    assert(parts.deep_view() + splitn_spec(s@, n as nat, c) =~= splitn_spec(s@, n as nat, c));
    while left > 1
        invariant
            cs@ == s@,
            1 <= left <= n,
            start <= cs@.len(),
            parts@.len() == n - left,
            splitn_spec(s@, n as nat, c) == parts.deep_view() + splitn_spec(
                s@.skip(start as int),
                left as nat,
                c,
            ),
        ensures
            left <= 1 || index_of(s@.skip(start as int), c) >= s@.len() - start,
        decreases left,
    {
        let i = first_index(&cs, start, c);
        if i == cs.len() {
            break;
        }
        let ghost rest = s@.skip(start as int);
        let ghost before = parts.deep_view();
        proof {
            assert(rest.skip(i - start + 1) =~= s@.skip(i + 1));
            assert(rest.take(i - start) =~= s@.subrange(start as int, i as int));
        }
        let ghost piece = s@.subrange(start as int, i as int);
        parts.push(slice(&cs, start, i));
        start = i + 1;
        left = left - 1;
        assert(parts.deep_view() =~= before.push(piece));
        assert(parts.deep_view() + splitn_spec(s@.skip(start as int), left as nat, c) =~= before
            + splitn_spec(rest, (left + 1) as nat, c));
    }
    let ghost rest = s@.skip(start as int);
    let ghost before = parts.deep_view();
    proof {
        assert(s@.subrange(start as int, s@.len() as int) =~= rest);
    }
    parts.push(slice(&cs, start, cs.len()));
    assert(parts.deep_view() =~= before + seq![rest]);
    parts
}

} // verus!
