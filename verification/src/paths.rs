//! Paths as texts: joining, parents, names, components, lexical normalization.

use vstd::prelude::*;

use crate::search::{before_last, lemma_before_last, up_to_last};
use crate::seqs::{collect, filter_map};
use crate::text::{
    cat2, cat3, chars_of, empty, join, join_spec, lemma_split_join, lemma_split_pieces, same, slice,
    split, split_spec,
};

verus! {

pub open spec fn is_absolute_spec(p: Seq<char>) -> bool {
    p.len() > 0 && p[0] == '/'
}

pub fn is_absolute(p: &str) -> (r: bool)
    ensures
        r == is_absolute_spec(p@),
{
    let cs = chars_of(p);
    cs.len() > 0 && cs[0] == '/'
}

/// The path `rel` seen from `base`.
pub open spec fn path_join_spec(base: Seq<char>, rel: Seq<char>) -> Seq<char> {
    if is_absolute_spec(rel) || base.len() == 0 {
        rel
    } else if base.last() == '/' {
        base + rel
    } else {
        base + "/"@ + rel
    }
}

pub fn path_join(base: &str, rel: &str) -> (r: String)
    ensures
        r@ == path_join_spec(base@, rel@),
{
    let cs = chars_of(base);
    if is_absolute(rel) || cs.len() == 0 {
        rel.to_string()
    } else if cs[cs.len() - 1] == '/' {
        cat2(base, rel)
    } else {
        cat3(base, "/", rel)
    }
}

/// `p` without separators and `.` components at its end.
pub open spec fn cut_spec(p: Seq<char>) -> Seq<char>
    decreases p.len(),
{
    if p.len() > 1 && (p.last() == '/' || (p.last() == '.' && p[p.len() - 2] == '/')) {
        cut_spec(p.drop_last())
    } else {
        p
    }
}

fn cut_len(cs: &Vec<char>, end: usize) -> (n: usize)
    requires
        end <= cs@.len(),
    ensures
        n <= end,
        cs@.take(n as int) == cut_spec(cs@.take(end as int)),
{
    let mut n = end;
    while n > 1 && (cs[n - 1] == '/' || (cs[n - 1] == '.' && cs[n - 2] == '/'))
        invariant
            n <= end <= cs@.len(),
            cut_spec(cs@.take(n as int)) == cut_spec(cs@.take(end as int)),
        decreases n,
    {
        assert(cs@.take(n as int).drop_last() =~= cs@.take(n - 1));
        n = n - 1;
    }
    n
}

/// How many characters of `p` come before its last component.
pub open spec fn dir_len(p: Seq<char>) -> nat
    decreases p.len(),
{
    if p.len() == 0 || p.last() == '/' {
        p.len()
    } else {
        dir_len(p.drop_last())
    }
}

fn dir_end(cs: &Vec<char>, end: usize) -> (n: usize)
    requires
        end <= cs@.len(),
    ensures
        n <= end,
        n == dir_len(cs@.take(end as int)),
{
    let mut n = end;
    while n > 0 && cs[n - 1] != '/'
        invariant
            n <= end <= cs@.len(),
            dir_len(cs@.take(n as int)) == dir_len(cs@.take(end as int)),
        decreases n,
    {
        assert(cs@.take(n as int).drop_last() =~= cs@.take(n - 1));
        n = n - 1;
    }
    n
}

/// The path of the directory that holds `p`; the root and the empty path have none.
pub open spec fn parent_spec(p: Seq<char>) -> Option<Seq<char>> {
    let q = cut_spec(p);
    if q.len() == 0 || q == "/"@ {
        None
    } else {
        Some(cut_spec(q.take(dir_len(q) as int)))
    }
}

pub fn parent(p: &str) -> (r: Option<String>)
    ensures
        r.deep_view() == parent_spec(p@),
{
    proof {
        reveal_strlit("/");
    }
    let cs = chars_of(p);
    assert(cs@.take(cs@.len() as int) =~= cs@);
    let n = cut_len(&cs, cs.len());
    let ghost q = cs@.take(n as int);
    assert(q == "/"@ <==> q.len() == 1 && q[0] == '/') by {
        if q.len() == 1 && q[0] == '/' {
            assert(q =~= "/"@);
        }
    }
    if n == 0 || (n == 1 && cs[0] == '/') {
        return None;
    }
    let d = dir_end(&cs, n);
    assert(q.take(d as int) =~= cs@.take(d as int));
    let k = cut_len(&cs, d);
    assert(cs@.subrange(0, k as int) =~= cs@.take(k as int));
    Some(slice(&cs, 0, k))
}

/// The last component of `p`, unless it is the root, `.` or `..`.
pub open spec fn file_name_spec(p: Seq<char>) -> Option<Seq<char>> {
    let q = cut_spec(p);
    let name = q.skip(dir_len(q) as int);
    if name.len() == 0 || name == "."@ || name == ".."@ {
        None
    } else {
        Some(name)
    }
}

pub fn file_name(p: &str) -> (r: Option<String>)
    ensures
        r.deep_view() == file_name_spec(p@),
{
    let cs = chars_of(p);
    assert(cs@.take(cs@.len() as int) =~= cs@);
    let n = cut_len(&cs, cs.len());
    let d = dir_end(&cs, n);
    let name = slice(&cs, d, n);
    assert(cs@.subrange(d as int, n as int) =~= cs@.take(n as int).skip(d as int));
    if empty(&name) || same(&name, ".") || same(&name, "..") {
        None
    } else {
        Some(name)
    }
}

/// A file name without its extension.
pub open spec fn stem_spec(name: Seq<char>) -> Seq<char> {
    match before_last(name, '.') {
        Some(stem) => if stem.len() == 0 {
            name
        } else {
            stem
        },
        None => name,
    }
}

fn stem_of(name: &str) -> (r: String)
    ensures
        r@ == stem_spec(name@),
{
    match up_to_last(name, '.') {
        Some(stem) => if empty(&stem) {
            name.to_string()
        } else {
            stem
        },
        None => name.to_string(),
    }
}

pub open spec fn file_stem_spec(path: Seq<char>) -> Option<Seq<char>> {
    match file_name_spec(path) {
        Some(name) => Some(stem_spec(name)),
        None => None,
    }
}

/// The file name of a path without its extension.
pub fn file_stem(path: &str) -> (r: Option<String>)
    ensures
        r.deep_view() == file_stem_spec(path@),
{
    match file_name(path) {
        Some(name) => Some(stem_of(&name)),
        None => None,
    }
}

/// What follows the last dot of a file name that does not start with it.
pub open spec fn extension_spec(path: Seq<char>) -> Option<Seq<char>> {
    match file_name_spec(path) {
        None => None,
        Some(name) => match before_last(name, '.') {
            None => None,
            Some(stem) => if stem.len() == 0 {
                None
            } else {
                Some(name.skip(stem.len() as int + 1))
            },
        },
    }
}

pub fn extension(path: &str) -> (r: Option<String>)
    ensures
        r.deep_view() == extension_spec(path@),
{
    let name = match file_name(path) {
        Some(n) => n,
        None => return None,
    };
    match up_to_last(&name, '.') {
        None => None,
        Some(stem) => {
            if empty(&stem) {
                return None;
            }
            let k = chars_of(&stem).len();
            let cs = chars_of(&name);
            let n = cs.len();
            proof {
                lemma_before_last(name@, '.');
            }
            assert(k < n);
            let ext = slice(&cs, k + 1, n);
            assert(ext@ =~= name@.skip(k + 1));
            Some(ext)
        },
    }
}

/// The last component of `p`, empty when it has no name.
pub open spec fn name_or_empty_spec(p: Seq<char>) -> Seq<char> {
    match file_name_spec(p) {
        Some(n) => n,
        None => Seq::empty(),
    }
}

pub fn name_or_empty(p: &str) -> (r: String)
    ensures
        r@ == name_or_empty_spec(p@),
{
    match file_name(p) {
        Some(n) => n,
        None => String::new(),
    }
}

// ---------------------------------------------------------------------------
// Components
// ---------------------------------------------------------------------------

pub open spec fn body_of(piece: Seq<char>) -> Option<Seq<char>> {
    if piece.len() == 0 || piece == "."@ {
        None
    } else {
        Some(piece)
    }
}

pub open spec fn body_fn() -> spec_fn(Seq<char>) -> Option<Seq<char>> {
    |p: Seq<char>| body_of(p)
}

fn body(piece: &str) -> (r: Option<String>)
    ensures
        r.deep_view() == body_of(piece@),
{
    if empty(piece) || same(piece, ".") {
        None
    } else {
        Some(piece.to_string())
    }
}

/// The components of `p`. The root is `/`; a `.` counts only at the start of a relative path.
pub open spec fn components_spec(p: Seq<char>) -> Seq<Seq<char>> {
    let pieces = split_spec(p, '/');
    let lead: Seq<Seq<char>> = if is_absolute_spec(p) {
        seq!["/"@]
    } else if pieces[0] == "."@ {
        seq!["."@]
    } else {
        Seq::empty()
    };
    lead + filter_map(pieces, body_fn())
}

pub fn components(p: &str) -> (r: Vec<String>)
    ensures
        r.deep_view() == components_spec(p@),
{
    let pieces = split(p, '/');
    let mut out: Vec<String> = Vec::new();
    if is_absolute(p) {
        out.push("/".to_string());
        assert(out.deep_view() =~= seq!["/"@]);
    } else if same(&pieces[0], ".") {
        out.push(".".to_string());
        assert(out.deep_view() =~= seq!["."@]);
    }
    let ghost lead = out.deep_view();
    let mut rest = collect(&pieces, body, Ghost(body_fn()));
    let ghost tail = rest.deep_view();
    out.append(&mut rest);
    assert(out.deep_view() =~= lead + tail);
    out
}

/// The path made of the components `cs`.
pub open spec fn path_of_spec(cs: Seq<Seq<char>>) -> Seq<char> {
    if cs.len() > 0 && cs[0] == "/"@ {
        "/"@ + join_spec(cs.drop_first(), "/"@)
    } else {
        join_spec(cs, "/"@)
    }
}

pub fn path_of(cs: &Vec<String>) -> (r: String)
    ensures
        r@ == path_of_spec(cs.deep_view()),
{
    assert(cs.deep_view().len() == cs@.len());
    if cs.len() > 0 && same(&cs[0], "/") {
        let mut rest: Vec<String> = Vec::new();
        let ghost all = cs.deep_view().drop_first();
        for i in 1..cs.len()
            invariant
                all == cs.deep_view().drop_first(),
                1 <= i <= cs@.len(),
                rest.deep_view() == all.take(i - 1),
        {
            let ghost before = rest.deep_view();
            rest.push(cs[i].clone());
            assert(rest.deep_view() =~= before.push(cs@[i as int]@));
            assert(all.take(i as int) =~= all.take(i - 1).push(all[i - 1]));
        }
        assert(all.take(cs@.len() - 1) =~= all);
        cat2("/", &join(&rest, "/"))
    } else {
        join(cs, "/")
    }
}

/// One step of lexical normalization: `..` takes back a name, is nothing at the root and stays
/// where there is nothing to take back.
pub open spec fn resolve_spec(acc: Seq<Seq<char>>, c: Seq<char>) -> Seq<Seq<char>> {
    if c == ".."@ {
        if acc.len() == 0 || acc.last() == ".."@ {
            acc.push(c)
        } else if acc.last() == "/"@ {
            acc
        } else {
            acc.drop_last()
        }
    } else if c == "."@ {
        acc
    } else {
        acc.push(c)
    }
}

pub open spec fn resolve_all_spec(cs: Seq<Seq<char>>) -> Seq<Seq<char>>
    decreases cs.len(),
{
    if cs.len() == 0 {
        cs
    } else {
        resolve_spec(resolve_all_spec(cs.drop_last()), cs.last())
    }
}

pub open spec fn normalize_spec(p: Seq<char>) -> Seq<char> {
    path_of_spec(resolve_all_spec(components_spec(p)))
}

fn resolve_all(cs: &Vec<String>) -> (r: Vec<String>)
    ensures
        r.deep_view() == resolve_all_spec(cs.deep_view()),
{
    let ghost all = cs.deep_view();
    let mut acc: Vec<String> = Vec::new();
    assert(acc.deep_view() =~= resolve_all_spec(all.take(0)));
    for i in 0..cs.len()
        invariant
            all == cs.deep_view(),
            acc.deep_view() == resolve_all_spec(all.take(i as int)),
    {
        let ghost before = acc.deep_view();
        assert(before.len() == acc@.len());
        assert(all.take(i + 1).drop_last() =~= all.take(i as int));
        assert(all.take(i + 1).last() == cs@[i as int]@);
        if same(&cs[i], "..") {
            if acc.len() == 0 || same(&acc[acc.len() - 1], "..") {
                acc.push(cs[i].clone());
                assert(acc.deep_view() =~= before.push(cs@[i as int]@));
            } else if same(&acc[acc.len() - 1], "/") {
            } else {
                let _ = acc.pop();
                assert(acc.deep_view() =~= before.drop_last());
            }
        } else if same(&cs[i], ".") {
        } else {
            acc.push(cs[i].clone());
            assert(acc.deep_view() =~= before.push(cs@[i as int]@));
        }
    }
    assert(all.take(all.len() as int) =~= all);
    acc
}

/// `path` with `.` and `..` resolved lexically.
pub fn normalize_path(path: &str) -> (r: String)
    ensures
        r@ == normalize_spec(path@),
{
    path_of(&resolve_all(&components(path)))
}

/// Do `a` and `b` have the same components?
pub fn same_components(a: &str, b: &str) -> (r: bool)
    ensures
        r == (components_spec(a@) == components_spec(b@)),
{
    let x = components(a);
    let y = components(b);
    if x.len() != y.len() {
        assert(x.deep_view().len() != y.deep_view().len());
        return false;
    }
    for i in 0..x.len()
        invariant
            x@.len() == y@.len(),
            x.deep_view() == components_spec(a@),
            y.deep_view() == components_spec(b@),
            forall|j: int| 0 <= j < i ==> x.deep_view()[j] == y.deep_view()[j],
    {
        assert(x.deep_view()[i as int] == x@[i as int]@);
        assert(y.deep_view()[i as int] == y@[i as int]@);
        if !same(&x[i], &y[i]) {
            return false;
        }
    }
    assert(x.deep_view() =~= y.deep_view());
    true
}

/// Components without `.`, where `..` stands only at the start of a relative path.
pub open spec fn is_clean(cs: Seq<Seq<char>>) -> bool {
    &&& forall|i: int| 0 <= i < cs.len() ==> #[trigger] cs[i] != "."@
    &&& forall|i: int|
        0 < i < cs.len() && #[trigger] cs[i] == ".."@ ==> cs[i - 1] == ".."@
}

proof fn lemma_resolve_all_clean(cs: Seq<Seq<char>>)
    ensures
        is_clean(resolve_all_spec(cs)),
    decreases cs.len(),
{
    reveal_strlit(".");
    reveal_strlit("..");
    assert("."@.len() != ".."@.len());
    if cs.len() > 0 {
        lemma_resolve_all_clean(cs.drop_last());
    }
}

proof fn lemma_clean_stays(cs: Seq<Seq<char>>)
    requires
        is_clean(cs),
    ensures
        resolve_all_spec(cs) == cs,
    decreases cs.len(),
{
    if cs.len() > 0 {
        let p = cs.drop_last();
        assert forall|i: int| 0 < i < p.len() && #[trigger] p[i] == ".."@ implies p[i - 1]
            == ".."@ by {
            assert(cs[i] == ".."@);
        }
        lemma_clean_stays(p);
        if cs.last() == ".."@ && cs.len() > 1 {
            assert(cs[cs.len() - 1] == ".."@);
            assert(p.last() == ".."@);
        }
        assert(cs.last() != "."@);
        assert(p.push(cs.last()) =~= cs);
    }
}

/// A name as it stands between two slashes.
pub open spec fn is_part(x: Seq<char>) -> bool {
    x.len() > 0 && !x.contains('/')
}

/// Components as a path can have them: the root stands only at the start.
pub open spec fn is_components(cs: Seq<Seq<char>>) -> bool {
    forall|i: int| 0 <= i < cs.len() ==> (i == 0 && cs[0] == "/"@) || is_part(#[trigger] cs[i])
}

proof fn lemma_bodies(pieces: Seq<Seq<char>>)
    requires
        forall|i: int| 0 <= i < pieces.len() ==> !(#[trigger] pieces[i]).contains('/'),
    ensures
        forall|i: int|
            0 <= i < filter_map(pieces, body_fn()).len() ==> is_part(
                #[trigger] filter_map(pieces, body_fn())[i],
            ),
    decreases pieces.len(),
{
    if pieces.len() > 0 {
        let init = pieces.drop_last();
        assert forall|i: int| 0 <= i < init.len() implies !(#[trigger] init[i]).contains('/') by {
            assert(init[i] == pieces[i]);
        }
        lemma_bodies(init);
        assert(!pieces[pieces.len() - 1].contains('/'));
        let all = filter_map(pieces, body_fn());
        let some = filter_map(init, body_fn());
        assert forall|i: int| 0 <= i < all.len() implies is_part(#[trigger] all[i]) by {
            if i < some.len() {
                assert(all[i] == some[i]);
            }
        }
    }
}

proof fn lemma_components(p: Seq<char>)
    ensures
        is_components(components_spec(p)),
        is_absolute_spec(p) <==> components_spec(p).len() > 0 && components_spec(p)[0] == "/"@,
{
    reveal_strlit("/");
    reveal_strlit(".");
    let pieces = split_spec(p, '/');
    lemma_split_pieces(p, '/');
    lemma_bodies(pieces);
    let bodies = filter_map(pieces, body_fn());
    let cs = components_spec(p);
    assert(is_part("."@));
    assert("/"@.contains('/')) by {
        assert("/"@[0] == '/');
    }
    let n = cs.len() - bodies.len();
    assert forall|i: int| 0 <= i < cs.len() implies (i == 0 && cs[0] == "/"@) || is_part(
        #[trigger] cs[i],
    ) by {
        if i >= n {
            assert(cs[i] == bodies[i - n]);
        }
    }
    if !is_absolute_spec(p) && cs.len() > 0 {
        assert(is_part(cs[0])) by {
            if n == 0 {
                assert(cs[0] == bodies[0]);
            }
        }
    }
}

proof fn lemma_resolved(cs: Seq<Seq<char>>)
    requires
        is_components(cs),
    ensures
        is_components(resolve_all_spec(cs)),
        cs.len() == 0 || cs[0] != "/"@ ==> resolve_all_spec(cs).len() == 0 || resolve_all_spec(
            cs,
        )[0] != "/"@,
    decreases cs.len(),
{
    reveal_strlit("/");
    assert("/"@.contains('/')) by {
        assert("/"@[0] == '/');
    }
    if cs.len() > 0 {
        let init = cs.drop_last();
        assert forall|i: int| 0 <= i < init.len() implies (i == 0 && init[0] == "/"@) || is_part(
            #[trigger] init[i],
        ) by {
            assert(init[i] == cs[i]);
        }
        lemma_resolved(init);
        let acc = resolve_all_spec(init);
        let c = cs.last();
        assert(cs[cs.len() - 1] == c);
        assert(cs.len() == 1 ==> acc.len() == 0);
        let r = resolve_spec(acc, c);
        assert forall|i: int| 0 <= i < r.len() implies (i == 0 && r[0] == "/"@) || is_part(
            #[trigger] r[i],
        ) by {
            if i < acc.len() {
                assert(r[i] == acc[i]);
            }
        }
    }
}

proof fn lemma_bodies_stay(xs: Seq<Seq<char>>)
    requires
        forall|i: int| 0 <= i < xs.len() ==> is_part(#[trigger] xs[i]) && xs[i] != "."@,
    ensures
        filter_map(xs, body_fn()) == xs,
    decreases xs.len(),
{
    if xs.len() > 0 {
        let init = xs.drop_last();
        assert forall|i: int| 0 <= i < init.len() implies is_part(#[trigger] init[i]) && init[i]
            != "."@ by {
            assert(init[i] == xs[i]);
        }
        lemma_bodies_stay(init);
        assert(is_part(xs[xs.len() - 1]));
        assert(init.push(xs.last()) =~= xs);
    } else {
        assert(filter_map(xs, body_fn()) =~= xs);
    }
}

proof fn lemma_first_body(x: Seq<char>, xs: Seq<Seq<char>>)
    requires
        body_of(x) is None,
    ensures
        filter_map(seq![x] + xs, body_fn()) == filter_map(xs, body_fn()),
    decreases xs.len(),
{
    let all = seq![x] + xs;
    if xs.len() > 0 {
        lemma_first_body(x, xs.drop_last());
        assert(all.drop_last() =~= seq![x] + xs.drop_last());
        assert(all.last() == xs.last());
    } else {
        assert(all.drop_last() =~= Seq::empty());
        assert(all.last() == x);
        assert(filter_map(all.drop_last(), body_fn()) =~= Seq::empty());
        assert(filter_map(xs, body_fn()) =~= Seq::empty());
    }
}

proof fn lemma_split_parts(xs: Seq<Seq<char>>)
    requires
        forall|i: int| 0 <= i < xs.len() ==> is_part(#[trigger] xs[i]) && xs[i] != "."@,
    ensures
        filter_map(split_spec(join_spec(xs, "/"@), '/'), body_fn()) == xs,
        xs.len() > 0 ==> split_spec(join_spec(xs, "/"@), '/') == xs,
{
    reveal_strlit("/");
    assert("/"@ =~= seq!['/']);
    if xs.len() > 0 {
        assert forall|i: int| 0 <= i < xs.len() implies !(#[trigger] xs[i]).contains('/') by {
            assert(is_part(xs[i]));
        }
        lemma_split_join(xs, '/');
        lemma_bodies_stay(xs);
    } else {
        let none = Seq::<char>::empty();
        assert(split_spec(join_spec(xs, "/"@), '/') =~= seq![none]);
        assert(seq![none] =~= seq![none] + xs);
        lemma_first_body(none, xs);
        assert(filter_map(xs, body_fn()) =~= xs);
    }
}

/// The path made of clean components has those components.
proof fn lemma_components_of_path(cs: Seq<Seq<char>>)
    requires
        is_components(cs),
        is_clean(cs),
    ensures
        components_spec(path_of_spec(cs)) == cs,
{
    reveal_strlit("/");
    assert("/"@ =~= seq!['/']);
    let p = path_of_spec(cs);
    if cs.len() > 0 && cs[0] == "/"@ {
        let xs = cs.drop_first();
        assert forall|i: int| 0 <= i < xs.len() implies is_part(#[trigger] xs[i]) && xs[i]
            != "."@ by {
            assert(xs[i] == cs[i + 1]);
        }
        lemma_split_parts(xs);
        let body = join_spec(xs, "/"@);
        assert(p[0] == '/');
        assert(p.skip(1) =~= body);
        assert(p.take(0) =~= Seq::empty());
        assert(split_spec(p, '/') == seq![p.take(0)] + split_spec(body, '/'));
        lemma_first_body(p.take(0), split_spec(body, '/'));
        assert(components_spec(p) =~= cs);
    } else {
        assert forall|i: int| 0 <= i < cs.len() implies is_part(#[trigger] cs[i]) && cs[i]
            != "."@ by {}
        lemma_split_parts(cs);
        if cs.len() > 0 {
            lemma_join_start(cs, "/"@);
            assert(is_part(cs[0]));
            assert(p[0] == cs[0][0]);
            assert(!is_absolute_spec(p));
            assert(cs[0] != "."@);
        } else {
            reveal_strlit(".");
            assert(p =~= Seq::empty());
            assert(split_spec(p, '/') =~= seq![p]);
            assert(split_spec(p, '/')[0] != "."@);
        }
        assert(components_spec(p) =~= cs);
    }
}

proof fn lemma_join_start(parts: Seq<Seq<char>>, sep: Seq<char>)
    requires
        parts.len() > 0,
        parts[0].len() > 0,
    ensures
        join_spec(parts, sep).len() > 0,
        join_spec(parts, sep)[0] == parts[0][0],
    decreases parts.len(),
{
    if parts.len() > 1 {
        lemma_join_start(parts.drop_last(), sep);
    }
}

/// Lexical normalization leaves no `.`, and `..` only at the start of a relative path. Doing it
/// again changes nothing.
pub proof fn law_normalization_is_final(cs: Seq<Seq<char>>)
    ensures
        is_clean(resolve_all_spec(cs)),
        resolve_all_spec(resolve_all_spec(cs)) == resolve_all_spec(cs),
{
    lemma_resolve_all_clean(cs);
    lemma_clean_stays(resolve_all_spec(cs));
}

/// The root takes every `..`: an absolute path has none once it is normalized, and stays absolute.
pub proof fn law_root_takes_parents(cs: Seq<Seq<char>>)
    requires
        cs.len() > 0,
        cs[0] == "/"@,
    ensures
        resolve_all_spec(cs).len() > 0,
        resolve_all_spec(cs)[0] == "/"@,
        forall|i: int| 0 <= i < resolve_all_spec(cs).len() ==> #[trigger] resolve_all_spec(cs)[i] != ".."@,
    decreases cs.len(),
{
    reveal_strlit("/");
    reveal_strlit(".");
    reveal_strlit("..");
    assert("/"@[0] == '/' && "."@[0] == '.' && ".."@.len() == 2);
    if cs.len() == 1 {
        assert(resolve_all_spec(cs.drop_last()) =~= Seq::empty());
        assert(resolve_all_spec(cs) =~= seq!["/"@]);
    } else {
        law_root_takes_parents(cs.drop_last());
    }
}

proof fn lemma_parents_lead(cs: Seq<Seq<char>>, i: int, j: int)
    requires
        is_clean(cs),
        0 <= i <= j < cs.len(),
        cs[j] == ".."@,
    ensures
        cs[i] == ".."@,
    decreases j - i,
{
    if i < j {
        assert(cs[j - 1] == ".."@);
        lemma_parents_lead(cs, i, j - 1);
    }
}

/// Normalizing a path again changes nothing, and an absolute path stays absolute, a relative one
/// relative. The normalized path has no `.`; where it is absolute it has no `..`, and where it is
/// relative every `..` comes before every name.
pub proof fn law_normalized_paths_stay(p: Seq<char>)
    ensures
        normalize_spec(normalize_spec(p)) == normalize_spec(p),
        is_absolute_spec(normalize_spec(p)) <==> is_absolute_spec(p),
        forall|i: int|
            0 <= i < components_spec(normalize_spec(p)).len() ==> #[trigger] components_spec(
                normalize_spec(p),
            )[i] != "."@,
        is_absolute_spec(p) ==> forall|i: int|
            0 <= i < components_spec(normalize_spec(p)).len() ==> #[trigger] components_spec(
                normalize_spec(p),
            )[i] != ".."@,
        forall|i: int, j: int|
            0 <= i <= j < components_spec(normalize_spec(p)).len() && #[trigger] components_spec(
                normalize_spec(p),
            )[j] == ".."@ ==> #[trigger] components_spec(normalize_spec(p))[i] == ".."@,
{
    let cs = components_spec(p);
    let q = normalize_spec(p);
    let r = resolve_all_spec(cs);
    lemma_components(p);
    lemma_resolved(cs);
    law_normalization_is_final(cs);
    lemma_components_of_path(r);
    lemma_components(q);
    assert(components_spec(q) == r);
    if is_absolute_spec(p) {
        law_root_takes_parents(cs);
    }
    assert forall|i: int, j: int|
        0 <= i <= j < r.len() && #[trigger] r[j] == ".."@ implies #[trigger] r[i] == ".."@ by {
        lemma_parents_lead(r, i, j);
    }
}

} // verus!
