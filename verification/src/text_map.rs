//! A map from texts to texts that is walked in ascending key order.

use vstd::prelude::*;

use crate::order::{comes_before, lemma_text_lt_total, lemma_text_lt_trans, text_lt};
use crate::text::same;

verus! {

pub type Pairs = Seq<(Seq<char>, Seq<char>)>;

pub open spec fn ascending(s: Pairs) -> bool {
    forall|i: int, j: int| 0 <= i < j < s.len() ==> text_lt(#[trigger] s[i].0, #[trigger] s[j].0)
}

/// `s` with `k` bound to `v`.
pub open spec fn put_spec(s: Pairs, k: Seq<char>, v: Seq<char>) -> Pairs
    decreases s.len(),
{
    if s.len() == 0 {
        seq![(k, v)]
    } else if s.last().0 == k {
        s.drop_last().push((k, v))
    } else if text_lt(s.last().0, k) {
        s.push((k, v))
    } else {
        put_spec(s.drop_last(), k, v).push(s.last())
    }
}

/// The bindings of `s`.
pub open spec fn bindings(s: Pairs) -> Map<Seq<char>, Seq<char>>
    decreases s.len(),
{
    if s.len() == 0 {
        Map::empty()
    } else {
        bindings(s.drop_last()).insert(s.last().0, s.last().1)
    }
}

pub open spec fn has_key(s: Pairs, k: Seq<char>) -> bool {
    exists|i: int| 0 <= i < s.len() && #[trigger] s[i].0 == k
}

proof fn lemma_put_keys(s: Pairs, k: Seq<char>, v: Seq<char>, i: int)
    requires
        0 <= i < put_spec(s, k, v).len(),
    ensures
        put_spec(s, k, v)[i].0 == k || has_key(s, put_spec(s, k, v)[i].0),
    decreases s.len(),
{
    let r = put_spec(s, k, v);
    if s.len() > 0 && s.last().0 != k && !text_lt(s.last().0, k) {
        let p = s.drop_last();
        if i < put_spec(p, k, v).len() {
            lemma_put_keys(p, k, v, i);
            if r[i].0 != k {
                let m = choose|m: int| 0 <= m < p.len() && #[trigger] p[m].0 == r[i].0;
                assert(s[m].0 == r[i].0);
            }
        } else {
            assert(s[s.len() - 1].0 == r[i].0);
        }
    } else if i < s.len() {
        assert(s[i].0 == r[i].0);
    }
}

proof fn lemma_put_ascending(s: Pairs, k: Seq<char>, v: Seq<char>)
    requires
        ascending(s),
    ensures
        ascending(put_spec(s, k, v)),
    decreases s.len(),
{
    let r = put_spec(s, k, v);
    if s.len() == 0 {
    } else if s.last().0 == k {
        assert forall|i: int, j: int| 0 <= i < j < r.len() implies text_lt(
            #[trigger] r[i].0,
            #[trigger] r[j].0,
        ) by {
            assert(text_lt(s[i].0, s[j].0));
        }
    } else if text_lt(s.last().0, k) {
        assert forall|i: int, j: int| 0 <= i < j < r.len() implies text_lt(
            #[trigger] r[i].0,
            #[trigger] r[j].0,
        ) by {
            if j < s.len() {
                assert(text_lt(s[i].0, s[j].0));
            } else if i < s.len() - 1 {
                assert(text_lt(s[i].0, s[s.len() - 1].0));
                lemma_text_lt_trans(s[i].0, s.last().0, k);
            }
        }
    } else {
        lemma_text_lt_total(s.last().0, k);
        let p = s.drop_last();
        let q = put_spec(p, k, v);
        assert(ascending(p)) by {
            assert forall|i: int, j: int| 0 <= i < j < p.len() implies text_lt(
                #[trigger] p[i].0,
                #[trigger] p[j].0,
            ) by {
                assert(text_lt(s[i].0, s[j].0));
            }
        }
        lemma_put_ascending(p, k, v);
        assert forall|i: int, j: int| 0 <= i < j < r.len() implies text_lt(
            #[trigger] r[i].0,
            #[trigger] r[j].0,
        ) by {
            assert(r[i] == q[i]);
            if j < q.len() {
                assert(r[j] == q[j]);
                assert(text_lt(q[i].0, q[j].0));
            } else {
                lemma_put_keys(p, k, v, i);
                if q[i].0 != k {
                    let m = choose|m: int| 0 <= m < p.len() && #[trigger] p[m].0 == q[i].0;
                    assert(text_lt(s[m].0, s[s.len() - 1].0));
                }
            }
        }
    }
}

proof fn lemma_put_bindings(s: Pairs, k: Seq<char>, v: Seq<char>)
    ensures
        bindings(put_spec(s, k, v)) == bindings(s).insert(k, v),
    decreases s.len(),
{
    let r = put_spec(s, k, v);
    if s.len() == 0 {
        assert(r.drop_last() =~= s);
        assert(bindings(r) =~= bindings(s).insert(k, v));
    } else if s.last().0 == k {
        assert(r.drop_last() =~= s.drop_last());
        assert(bindings(r) =~= bindings(s).insert(k, v));
    } else if text_lt(s.last().0, k) {
        assert(r.drop_last() =~= s);
    } else {
        lemma_put_bindings(s.drop_last(), k, v);
        assert(r.drop_last() =~= put_spec(s.drop_last(), k, v));
        assert(bindings(r) =~= bindings(s).insert(k, v));
    }
}

/// Binding a key keeps the keys ascending, and changes that key's value alone.
pub proof fn law_binding_keeps_order(s: Pairs, k: Seq<char>, v: Seq<char>)
    requires
        ascending(s),
    ensures
        ascending(put_spec(s, k, v)),
        bindings(put_spec(s, k, v)) == bindings(s).insert(k, v),
{
    lemma_put_ascending(s, k, v);
    lemma_put_bindings(s, k, v);
}

/// Texts bound to texts, keys ascending.
#[derive(Debug)]
pub struct TextMap {
    entries: Vec<(String, String)>,
}

impl DeepView for TextMap {
    type V = Pairs;

    closed spec fn deep_view(&self) -> Pairs {
        self.entries.deep_view()
    }
}

impl TextMap {
    #[verifier::type_invariant]
    spec fn in_order(self) -> bool {
        ascending(self.entries.deep_view())
    }

    pub fn new() -> (r: TextMap)
        ensures
            r.deep_view() == Seq::<(Seq<char>, Seq<char>)>::empty(),
    {
        let r = TextMap { entries: Vec::new() };
        assert(r.deep_view() =~= Seq::<(Seq<char>, Seq<char>)>::empty());
        r
    }

    pub fn len(&self) -> (n: usize)
        ensures
            n == self.deep_view().len(),
            ascending(self.deep_view()),
    {
        proof {
            use_type_invariant(self);
        }
        self.entries.len()
    }

    pub fn key(&self, i: usize) -> (r: &String)
        requires
            i < self.deep_view().len(),
        ensures
            r@ == self.deep_view()[i as int].0,
    {
        &self.entries[i].0
    }

    pub fn value(&self, i: usize) -> (r: &String)
        requires
            i < self.deep_view().len(),
        ensures
            r@ == self.deep_view()[i as int].1,
    {
        &self.entries[i].1
    }

    /// `self` with `k` bound to `v`.
    pub fn with(self, k: &str, v: &str) -> (r: TextMap)
        ensures
            r.deep_view() == put_spec(self.deep_view(), k@, v@),
            ascending(r.deep_view()),
    {
        proof {
            use_type_invariant(&self);
            law_binding_keeps_order(self.entries.deep_view(), k@, v@);
        }
        let ghost before = self.entries.deep_view();
        let mut entries = self.entries;
        let mut tail: Vec<(String, String)> = Vec::new();
        proof {
            assert(put_spec(before, k@, v@) + tail.deep_view() =~= put_spec(before, k@, v@));
        }
        loop
            invariant_except_break
                put_spec(before, k@, v@) == put_spec(entries.deep_view(), k@, v@)
                    + tail.deep_view().reverse(),
            ensures
                put_spec(before, k@, v@) == entries.deep_view().push((k@, v@))
                    + tail.deep_view().reverse(),
            decreases entries@.len(),
        {
            let n = entries.len();
            let ghost now = entries.deep_view();
            let ghost gone = tail.deep_view();
            if n == 0 {
                assert(now.push((k@, v@)) =~= seq![(k@, v@)]);
                break;
            }
            assert(now.last().0 == entries@[n - 1].0@);
            if same(&entries[n - 1].0, k) {
                let _ = entries.pop();
                assert(entries.deep_view() =~= now.drop_last());
                break;
            }
            if comes_before(&entries[n - 1].0, k) {
                break;
            }
            match entries.pop() {
                None => {
                    break;
                },
                Some(e) => {
                    let ghost x = e.deep_view();
                    tail.push(e);
                    assert(entries.deep_view() =~= now.drop_last());
                    assert(tail.deep_view() =~= gone.push(x));
                    assert(put_spec(now, k@, v@) + gone.reverse() =~= put_spec(
                        now.drop_last(),
                        k@,
                        v@,
                    ) + gone.push(x).reverse());
                },
            }
        }
        let ghost now = entries.deep_view();
        entries.push((k.to_string(), v.to_string()));
        assert(entries.deep_view() =~= now.push((k@, v@)));
        while tail.len() > 0
            invariant
                put_spec(before, k@, v@) == entries.deep_view() + tail.deep_view().reverse(),
            decreases tail@.len(),
        {
            let ghost now = entries.deep_view();
            let ghost gone = tail.deep_view();
            if let Some(e) = tail.pop() {
                let ghost x = e.deep_view();
                entries.push(e);
                assert(tail.deep_view() =~= gone.drop_last());
                assert(entries.deep_view() =~= now.push(x));
                assert(gone.last() == x);
                assert(now + gone.reverse() =~= now.push(x) + gone.drop_last().reverse());
            }
        }
        assert(entries.deep_view() =~= put_spec(before, k@, v@));
        TextMap { entries }
    }
}

} // verus!
