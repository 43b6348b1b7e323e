//! Sorting: texts by their characters, positions by a rank.

use vstd::prelude::*;
use vstd::seq_lib::*;

use crate::text::chars_of;

verus! {

/// `x` put into `s` behind every element that it does not precede.
pub open spec fn insert_by<A>(s: Seq<A>, x: A, lt: spec_fn(A, A) -> bool) -> Seq<A>
    decreases s.len(),
{
    if s.len() == 0 || !lt(x, s.last()) {
        s.push(x)
    } else {
        insert_by(s.drop_last(), x, lt).push(s.last())
    }
}

/// `s` in the order `lt`; elements that do not precede each other keep their order.
pub open spec fn sort_by<A>(s: Seq<A>, lt: spec_fn(A, A) -> bool) -> Seq<A>
    decreases s.len(),
{
    if s.len() == 0 {
        s
    } else {
        insert_by(sort_by(s.drop_last(), lt), s.last(), lt)
    }
}

pub open spec fn is_sorted<A>(s: Seq<A>, lt: spec_fn(A, A) -> bool) -> bool {
    forall|i: int, j: int| 0 <= i < j < s.len() ==> !lt(#[trigger] s[j], #[trigger] s[i])
}

/// `lt` compares by rank: it is asymmetric, and what does not precede stays behind.
pub open spec fn ranks<A>(lt: spec_fn(A, A) -> bool) -> bool {
    &&& forall|a: A, b: A| #[trigger] lt(a, b) ==> !lt(b, a)
    &&& forall|a: A, b: A, c: A|
        !#[trigger] lt(a, b) && !#[trigger] lt(b, c) ==> !lt(a, c)
}

pub proof fn lemma_insert_by<A>(s: Seq<A>, x: A, lt: spec_fn(A, A) -> bool)
    requires
        ranks(lt),
        is_sorted(s, lt),
    ensures
        is_sorted(insert_by(s, x, lt), lt),
        insert_by(s, x, lt).to_multiset() == s.to_multiset().insert(x),
        insert_by(s, x, lt).len() == s.len() + 1,
    decreases s.len(),
{
    broadcast use group_to_multiset_ensures;

    let r = insert_by(s, x, lt);
    if s.len() == 0 || !lt(x, s.last()) {
        assert forall|i: int, j: int| 0 <= i < j < r.len() implies !lt(
            #[trigger] r[j],
            #[trigger] r[i],
        ) by {
            if j == s.len() {
                if i < s.len() - 1 {
                    assert(!lt(s.last(), s[i]));
                }
            }
        }
    } else {
        let p = s.drop_last();
        lemma_insert_by(p, x, lt);
        assert(p.push(s.last()) =~= s);
        let q = insert_by(p, x, lt);
        assert(r == q.push(s.last()));
        assert(r.to_multiset() == q.to_multiset().insert(s.last()));
        assert(s.to_multiset() == p.to_multiset().insert(s.last()));
        assert(p.to_multiset().insert(x).insert(s.last()) =~= p.to_multiset().insert(
            s.last(),
        ).insert(x));
        assert forall|i: int, j: int| 0 <= i < j < r.len() implies !lt(
            #[trigger] r[j],
            #[trigger] r[i],
        ) by {
            if j == q.len() {
                let y = r[i];
                assert(q.to_multiset().contains(q[i]));
                assert(p.to_multiset().insert(x).contains(y));
                if y == x {
                } else {
                    assert(p.to_multiset().contains(y));
                    assert(p.contains(y));
                    let k = choose|k: int| 0 <= k < p.len() && p[k] == y;
                    assert(s[k] == y);
                    assert(!lt(s[s.len() - 1], s[k]));
                }
            }
        }
    }
}

/// Sorting loses and invents nothing, and puts the elements in order.
pub proof fn lemma_sort_by<A>(s: Seq<A>, lt: spec_fn(A, A) -> bool)
    requires
        ranks(lt),
    ensures
        is_sorted(sort_by(s, lt), lt),
        sort_by(s, lt).to_multiset() == s.to_multiset(),
        sort_by(s, lt).len() == s.len(),
    decreases s.len(),
{
    broadcast use group_to_multiset_ensures;

    if s.len() > 0 {
        lemma_sort_by(s.drop_last(), lt);
        lemma_insert_by(sort_by(s.drop_last(), lt), s.last(), lt);
        assert(s.drop_last().push(s.last()) =~= s);
    }
}

// ---------------------------------------------------------------------------
// Texts
// ---------------------------------------------------------------------------

/// Does `a` come before `b`, character by character?
pub open spec fn text_lt(a: Seq<char>, b: Seq<char>) -> bool
    decreases b.len(),
{
    if b.len() == 0 {
        false
    } else if a.len() == 0 {
        true
    } else if a[0] != b[0] {
        (a[0] as int) < (b[0] as int)
    } else {
        text_lt(a.drop_first(), b.drop_first())
    }
}

pub open spec fn text_order() -> spec_fn(Seq<char>, Seq<char>) -> bool {
    |a: Seq<char>, b: Seq<char>| text_lt(a, b)
}

/// `s` sorted by character.
pub open spec fn sort_texts_spec(s: Seq<Seq<char>>) -> Seq<Seq<char>> {
    sort_by(s, text_order())
}

proof fn lemma_text_lt_asymmetric(a: Seq<char>, b: Seq<char>)
    requires
        text_lt(a, b),
    ensures
        !text_lt(b, a),
    decreases b.len(),
{
    if a.len() > 0 && b.len() > 0 && a[0] == b[0] {
        lemma_text_lt_asymmetric(a.drop_first(), b.drop_first());
    }
}

proof fn lemma_text_lt_ranks(a: Seq<char>, b: Seq<char>, c: Seq<char>)
    requires
        !text_lt(a, b),
        !text_lt(b, c),
    ensures
        !text_lt(a, c),
    decreases c.len(),
{
    if a.len() > 0 && b.len() > 0 && c.len() > 0 {
        if a[0] == b[0] && b[0] == c[0] {
            lemma_text_lt_ranks(a.drop_first(), b.drop_first(), c.drop_first());
        } else {
            assert((a[0] as int) >= (b[0] as int) >= (c[0] as int));
            assert(a[0] as int != c[0] as int);
        }
    }
}

pub proof fn lemma_text_lt_total(a: Seq<char>, b: Seq<char>)
    ensures
        text_lt(a, b) || text_lt(b, a) || a == b,
    decreases a.len(),
{
    if a.len() > 0 && b.len() > 0 && a[0] == b[0] {
        lemma_text_lt_total(a.drop_first(), b.drop_first());
        if a.drop_first() == b.drop_first() {
            assert(a =~= seq![a[0]] + a.drop_first());
            assert(b =~= seq![b[0]] + b.drop_first());
        }
    } else if a.len() == 0 && b.len() == 0 {
        assert(a =~= b);
    } else if a.len() > 0 && b.len() > 0 {
        assert(a[0] as int != b[0] as int);
    }
}

pub proof fn lemma_text_lt_trans(a: Seq<char>, b: Seq<char>, c: Seq<char>)
    requires
        text_lt(a, b),
        text_lt(b, c),
    ensures
        text_lt(a, c),
    decreases c.len(),
{
    if a.len() > 0 && b.len() > 0 && c.len() > 0 {
        if a[0] == b[0] && b[0] == c[0] {
            lemma_text_lt_trans(a.drop_first(), b.drop_first(), c.drop_first());
        } else {
            assert((a[0] as int) <= (b[0] as int) <= (c[0] as int));
            assert(a[0] as int != c[0] as int);
        }
    }
}

pub proof fn lemma_text_order()
    ensures
        ranks(text_order()),
{
    assert forall|a: Seq<char>, b: Seq<char>| #[trigger] text_order()(a, b) implies !text_order()(
        b,
        a,
    ) by {
        lemma_text_lt_asymmetric(a, b);
    }
    assert forall|a: Seq<char>, b: Seq<char>, c: Seq<char>|
        !#[trigger] text_order()(a, b) && !#[trigger] text_order()(b, c) implies !text_order()(
        a,
        c,
    ) by {
        lemma_text_lt_ranks(a, b, c);
    }
}

/// Sorting texts keeps each of them as often as it occurs, and leaves none before a smaller one.
pub proof fn lemma_sort_texts(s: Seq<Seq<char>>)
    ensures
        is_sorted(sort_texts_spec(s), text_order()),
        sort_texts_spec(s).to_multiset() == s.to_multiset(),
        sort_texts_spec(s).len() == s.len(),
{
    lemma_text_order();
    lemma_sort_by(s, text_order());
}

pub fn comes_before(a: &str, b: &str) -> (r: bool)
    ensures
        r == text_lt(a@, b@),
{
    let x = chars_of(a);
    let y = chars_of(b);
    let mut i: usize = 0;
    assert(x@.skip(0) =~= x@);
    assert(y@.skip(0) =~= y@);
    while i < x.len() && i < y.len() && x[i] == y[i]
        invariant
            i <= x@.len(),
            i <= y@.len(),
            x@ == a@,
            y@ == b@,
            text_lt(a@, b@) == text_lt(x@.skip(i as int), y@.skip(i as int)),
        decreases x@.len() - i,
    {
        assert(x@.skip(i as int).drop_first() =~= x@.skip(i + 1));
        assert(y@.skip(i as int).drop_first() =~= y@.skip(i + 1));
        i = i + 1;
    }
    if i == y.len() {
        false
    } else if i == x.len() {
        true
    } else {
        x[i] < y[i]
    }
}

/// Where `x` goes in `s`: behind the last element that it does not precede.
pub proof fn lemma_insert_at<A>(s: Seq<A>, x: A, lt: spec_fn(A, A) -> bool, k: int)
    requires
        0 <= k <= s.len(),
        k > 0 ==> !lt(x, s[k - 1]),
        forall|j: int| k <= j < s.len() ==> #[trigger] lt(x, s[j]),
    ensures
        insert_by(s, x, lt) == s.insert(k, x),
    decreases s.len(),
{
    if k < s.len() {
        lemma_insert_at(s.drop_last(), x, lt, k);
        assert(s.insert(k, x) =~= s.drop_last().insert(k, x).push(s.last()));
    } else {
        assert(s.insert(k, x) =~= s.push(x));
    }
}

pub fn sort_texts(v: &Vec<String>) -> (r: Vec<String>)
    ensures
        r.deep_view() == sort_texts_spec(v.deep_view()),
{
    let mut out: Vec<String> = Vec::new();
    let ghost all = v.deep_view();
    assert(out.deep_view() =~= sort_texts_spec(all.take(0)));
    for i in 0..v.len()
        invariant
            all == v.deep_view(),
            out.deep_view() == sort_texts_spec(all.take(i as int)),
            out@.len() == i,
    {
        let ghost before = out.deep_view();
        let ghost x = all[i as int];
        assert(all.take(i + 1).drop_last() =~= all.take(i as int));
        let mut k = out.len();
        while k > 0 && comes_before(&v[i], &out[k - 1])
            invariant
                k <= out@.len(),
                i < v@.len(),
                x == v@[i as int]@,
                before == out.deep_view(),
                forall|j: int| k <= j < before.len() ==> #[trigger] text_order()(x, before[j]),
            decreases k,
        {
            assert(text_order()(x, before[k - 1]));
            k = k - 1;
        }
        proof {
            if k > 0 {
                assert(!text_order()(x, before[k - 1]));
            }
            lemma_insert_at(before, x, text_order(), k as int);
        }
        out.insert(k, v[i].clone());
        assert(out.deep_view() =~= before.insert(k as int, x));
    }
    assert(all.take(all.len() as int) =~= all);
    out
}

// ---------------------------------------------------------------------------
// Positions
// ---------------------------------------------------------------------------

pub open spec fn rank_order(keys: Seq<usize>) -> spec_fn(usize, usize) -> bool {
    |i: usize, j: usize| keys[i as int] < keys[j as int]
}

/// The positions of `keys`, those with the smaller key first, else in their own order.
pub open spec fn positions_spec(keys: Seq<usize>) -> Seq<usize> {
    sort_by(Seq::new(keys.len(), |i: int| i as usize), rank_order(keys))
}

/// By key, and by position where the keys are the same.
pub open spec fn stable_order(keys: Seq<usize>) -> spec_fn(usize, usize) -> bool {
    |i: usize, j: usize|
        keys[i as int] < keys[j as int] || (keys[i as int] == keys[j as int] && i < j)
}

proof fn lemma_insert_where<A>(s: Seq<A>, x: A, lt: spec_fn(A, A) -> bool) -> (k: int)
    ensures
        0 <= k <= s.len(),
        insert_by(s, x, lt) == s.insert(k, x),
        k > 0 ==> !lt(x, s[k - 1]),
        forall|j: int| k <= j < s.len() ==> #[trigger] lt(x, s[j]),
    decreases s.len(),
{
    if s.len() == 0 || !lt(x, s.last()) {
        assert(s.push(x) =~= s.insert(s.len() as int, x));
        s.len() as int
    } else {
        let k = lemma_insert_where(s.drop_last(), x, lt);
        assert(s.insert(k, x) =~= s.drop_last().insert(k, x).push(s.last()));
        assert forall|j: int| k <= j < s.len() implies #[trigger] lt(x, s[j]) by {
            if j < s.len() - 1 {
                assert(s.drop_last()[j] == s[j]);
            }
        }
        k
    }
}

proof fn lemma_positions_up_to(keys: Seq<usize>, n: int)
    requires
        0 <= n <= keys.len() <= usize::MAX,
    ensures
        ({
            let r = sort_by(Seq::new(n as nat, |i: int| i as usize), rank_order(keys));
            &&& is_sorted(r, stable_order(keys))
            &&& forall|i: int| 0 <= i < r.len() ==> (#[trigger] r[i]) < n
        }),
    decreases n,
{
    if n > 0 {
        let all = Seq::new(n as nat, |i: int| i as usize);
        let x = (n - 1) as usize;
        assert(all.drop_last() =~= Seq::new((n - 1) as nat, |i: int| i as usize));
        assert(all.last() == x);
        let s = sort_by(all.drop_last(), rank_order(keys));
        lemma_positions_up_to(keys, n - 1);
        let k = lemma_insert_where(s, x, rank_order(keys));
        let r = s.insert(k, x);
        let st = stable_order(keys);
        assert forall|i: int| 0 <= i < r.len() implies (#[trigger] r[i]) < n by {
            if i < k {
                assert(r[i] == s[i]);
            } else if i > k {
                assert(r[i] == s[i - 1]);
            }
        }
        assert forall|i: int, j: int| 0 <= i < j < r.len() implies !st(
            #[trigger] r[j],
            #[trigger] r[i],
        ) by {
            if i == k {
                assert(r[j] == s[j - 1]);
                assert(rank_order(keys)(x, s[j - 1]));
            } else if j == k {
                assert(r[i] == s[i]);
                if i < k - 1 {
                    assert(!st(s[k - 1], s[i]));
                }
            } else {
                let a = if i < k { i } else { i - 1 };
                let b = if j < k { j } else { j - 1 };
                assert(r[i] == s[a] && r[j] == s[b]);
                assert(!st(s[b], s[a]));
            }
        }
    }
}

/// Every position comes out once: those with a smaller key first, and in their own order where
/// their keys are the same.
pub proof fn lemma_positions(keys: Seq<usize>)
    requires
        keys.len() <= usize::MAX,
    ensures
        is_sorted(positions_spec(keys), stable_order(keys)),
        positions_spec(keys).to_multiset() == Seq::new(
            keys.len(),
            |i: int| i as usize,
        ).to_multiset(),
        positions_spec(keys).len() == keys.len(),
{
    lemma_sort_by(Seq::new(keys.len(), |i: int| i as usize), rank_order(keys));
    lemma_positions_up_to(keys, keys.len() as int);
}

pub fn positions(keys: &Vec<usize>) -> (r: Vec<usize>)
    ensures
        r@ == positions_spec(keys@),
        r@.len() == keys@.len(),
        forall|i: int| 0 <= i < r@.len() ==> r@[i] < keys@.len(),
{
    let mut out: Vec<usize> = Vec::new();
    let ghost all = Seq::new(keys@.len(), |i: int| i as usize);
    let ghost lt = rank_order(keys@);
    assert(out@ =~= sort_by(all.take(0), lt));
    for i in 0..keys.len()
        invariant
            all == Seq::new(keys@.len(), |i: int| i as usize),
            lt == rank_order(keys@),
            out@ == sort_by(all.take(i as int), lt),
            out@.len() == i,
            forall|j: int| 0 <= j < out@.len() ==> out@[j] < keys@.len(),
    {
        let ghost before = out@;
        assert(all.take(i + 1).drop_last() =~= all.take(i as int));
        let mut k = out.len();
        while k > 0 && keys[i] < keys[out[k - 1]]
            invariant
                k <= out@.len(),
                i < keys@.len(),
                lt == rank_order(keys@),
                before == out@,
                forall|j: int| 0 <= j < out@.len() ==> out@[j] < keys@.len(),
                forall|j: int| k <= j < before.len() ==> #[trigger] lt(i, before[j]),
            decreases k,
        {
            assert(lt(i, before[k - 1]));
            k = k - 1;
        }
        proof {
            lemma_insert_at(before, i, lt, k as int);
        }
        out.insert(k, i);
    }
    assert(all.take(all.len() as int) =~= all);
    out
}

} // verus!
