//! Sequences: selecting and mapping in one pass.

use vstd::prelude::*;

verus! {

/// The values that `f` gives for the elements of `s`, in order, without those it gives none for.
pub open spec fn filter_map<A, B>(s: Seq<A>, f: spec_fn(A) -> Option<B>) -> Seq<B>
    decreases s.len(),
{
    if s.len() == 0 {
        Seq::empty()
    } else {
        match f(s.last()) {
            Some(b) => filter_map(s.drop_last(), f).push(b),
            None => filter_map(s.drop_last(), f),
        }
    }
}

pub proof fn lemma_filter_map_step<A, B>(s: Seq<A>, i: int, f: spec_fn(A) -> Option<B>)
    requires
        0 <= i < s.len(),
    ensures
        filter_map(s.take(i + 1), f) == (match f(s[i]) {
            Some(b) => filter_map(s.take(i), f).push(b),
            None => filter_map(s.take(i), f),
        }),
{
    assert(s.take(i + 1).drop_last() =~= s.take(i));
}

/// Laying the pieces of `s` one after the other.
pub open spec fn flat<A>(s: Seq<Seq<A>>) -> Seq<A>
    decreases s.len(),
{
    if s.len() == 0 {
        Seq::empty()
    } else {
        flat(s.drop_last()) + s.last()
    }
}

pub proof fn lemma_flat_step<A>(s: Seq<Seq<A>>, i: int)
    requires
        0 <= i < s.len(),
    ensures
        flat(s.take(i + 1)) == flat(s.take(i)) + s[i],
{
    assert(s.take(i + 1).drop_last() =~= s.take(i));
}

/// What `f` makes of each text of `v`, in order, without those it makes nothing of.
pub fn collect<T: DeepView, F: Fn(&str) -> Option<T>>(
    v: &Vec<String>,
    f: F,
    g: Ghost<spec_fn(Seq<char>) -> Option<T::V>>,
) -> (r: Vec<T>)
    requires
        forall|s: &str| #[trigger] call_requires(f, (s,)),
        forall|s: &str, o: Option<T>| #[trigger]
            call_ensures(f, (s,), o) ==> o.deep_view() == g@(s@),
    ensures
        r.deep_view() == filter_map(v.deep_view(), g@),
{
    let mut out: Vec<T> = Vec::new();
    assert(out.deep_view() =~= filter_map(v.deep_view().take(0), g@));
    for i in 0..v.len()
        invariant
            forall|s: &str| #[trigger] call_requires(f, (s,)),
            forall|s: &str, o: Option<T>| #[trigger]
                call_ensures(f, (s,), o) ==> o.deep_view() == g@(s@),
            out.deep_view() == filter_map(v.deep_view().take(i as int), g@),
    {
        let ghost before = out.deep_view();
        proof {
            lemma_filter_map_step(v.deep_view(), i as int, g@);
        }
        let o = f(&v[i]);
        if let Some(x) = o {
            out.push(x);
            assert(out.deep_view() =~= before.push(x.deep_view()));
        }
    }
    assert(v.deep_view().take(v@.len() as int) =~= v.deep_view());
    out
}

/// What `f` makes of each text of `v`, laid one after the other.
pub fn collect_flat<T: DeepView, F: Fn(&str) -> Vec<T>>(
    v: &Vec<String>,
    f: F,
    g: Ghost<spec_fn(Seq<char>) -> Seq<T::V>>,
) -> (r: Vec<T>)
    requires
        forall|s: &str| #[trigger] call_requires(f, (s,)),
        forall|s: &str, o: Vec<T>| #[trigger]
            call_ensures(f, (s,), o) ==> o.deep_view() == g@(s@),
    ensures
        r.deep_view() == flat(v.deep_view().map_values(g@)),
{
    let mut out: Vec<T> = Vec::new();
    let ghost pieces = v.deep_view().map_values(g@);
    assert(out.deep_view() =~= flat(pieces.take(0)));
    for i in 0..v.len()
        invariant
            forall|s: &str| #[trigger] call_requires(f, (s,)),
            forall|s: &str, o: Vec<T>| #[trigger]
                call_ensures(f, (s,), o) ==> o.deep_view() == g@(s@),
            pieces == v.deep_view().map_values(g@),
            out.deep_view() == flat(pieces.take(i as int)),
    {
        let ghost before = out.deep_view();
        proof {
            lemma_flat_step(pieces, i as int);
        }
        let mut o = f(&v[i]);
        let ghost added = o.deep_view();
        out.append(&mut o);
        assert(out.deep_view() =~= before + added);
    }
    assert(pieces.take(v@.len() as int) =~= pieces);
    out
}

} // verus!
