//! Templates: expanding variables, reading a name back, finding what looks wrong.

use vstd::prelude::*;

use crate::search::{
    contains, contains_spec, cut_once, cut_once_spec, find_at, find_spec, lemma_replace_step,
    occurs_at, replace, replace_spec, starts_with, strip_prefix, strip_prefix_spec, strip_suffix,
    strip_suffix_spec,
};
use crate::text::{
    cat2, cat3, cat5, chars_of, empty, first_index, index_of, join, join_spec, lemma_join_cons,
    listed, same, slice, split, split_spec, trim, trim_spec, Cut,
};
use crate::text_map::{Pairs, TextMap};

verus! {

/// Variables of a template, ascending by name.
pub type HookVars = TextMap;

/// Variables known before a workspace exists: those of `workspace-path`.
pub const PATH_VARS: [&'static str; 4] = ["home", "repo", "bookmark", "default_workspace_path"];

/// Variables of hook commands and file templates.
pub const HOOK_VARS: [&'static str; 7] = [
    "home",
    "repo",
    "bookmark",
    "workspace_path",
    "default_workspace_path",
    "workspace_name",
    "change_id",
];

// ---------------------------------------------------------------------------
// Expansion
// ---------------------------------------------------------------------------

pub open spec fn mention_of(key: Seq<char>) -> Seq<char> {
    "{{ "@ + key + " }}"@
}

/// `cmd` with each variable of `vars` replaced, one after the other.
pub open spec fn expand_spec(cmd: Seq<char>, vars: Pairs) -> Seq<char>
    decreases vars.len(),
{
    if vars.len() == 0 {
        cmd
    } else {
        replace_spec(
            expand_spec(cmd, vars.drop_last()),
            mention_of(vars.last().0),
            vars.last().1,
        )
    }
}

pub fn expand(cmd: &str, vars: &HookVars) -> (r: String)
    ensures
        r@ == expand_spec(cmd@, vars.deep_view()),
{
    let ghost all = vars.deep_view();
    let mut out = cmd.to_string();
    assert(all.take(0) =~= Pairs::empty());
    let n = vars.len();
    for i in 0..n
        invariant
            n == all.len(),
            all == vars.deep_view(),
            out@ == expand_spec(cmd@, all.take(i as int)),
    {
        proof {
            reveal_strlit("{{ ");
        }
        assert(all.take(i + 1).drop_last() =~= all.take(i as int));
        let mention = cat3("{{ ", vars.key(i), " }}");
        out = replace(&out, &mention, vars.value(i));
    }
    assert(all.take(all.len() as int) =~= all);
    out
}

/// The text that stands for the bookmark in a workspace name, read back through the last
/// component of the path template.
pub open spec fn derive_spec(
    template: Seq<char>,
    repo_name: Seq<char>,
    ws_name: Seq<char>,
) -> Option<Seq<char>> {
    let name_pattern = split_spec(template, '/').last();
    let pattern = replace_spec(
        replace_spec(
            replace_spec(name_pattern, "{{ repo }}"@, repo_name),
            "{{ home }}"@,
            Seq::empty(),
        ),
        "{{ default_workspace_path }}"@,
        Seq::empty(),
    );
    if !contains_spec(name_pattern, "{{ bookmark }}"@) {
        None
    } else {
        match cut_once_spec(pattern, "{{ bookmark }}"@) {
            None => None,
            Some((prefix, suffix)) => match strip_prefix_spec(ws_name, prefix) {
                None => None,
                Some(rest) => match strip_suffix_spec(rest, suffix) {
                    None => None,
                    Some(bookmark) => if bookmark.len() == 0 {
                        None
                    } else {
                        Some(bookmark)
                    },
                },
            },
        }
    }
}

pub fn derive_bookmark_from_ws_name(template: &str, repo_name: &str, ws_name: &str) -> (r: Option<
    String,
>)
    ensures
        r.deep_view() == derive_spec(template@, repo_name@, ws_name@),
{
    proof {
        reveal_strlit("{{ repo }}");
        reveal_strlit("{{ home }}");
        reveal_strlit("{{ default_workspace_path }}");
    }
    let pieces = split(template, '/');
    assert(pieces.deep_view().last() == pieces@[pieces@.len() - 1]@);
    let name_pattern = &pieces[pieces.len() - 1];
    if !contains(name_pattern, "{{ bookmark }}") {
        return None;
    }
    let nothing = String::new();
    assert(nothing@ =~= Seq::<char>::empty());
    let pattern = replace(
        &replace(&replace(name_pattern, "{{ repo }}", repo_name), "{{ home }}", &nothing),
        "{{ default_workspace_path }}",
        &nothing,
    );
    match cut_once(&pattern, "{{ bookmark }}") {
        None => None,
        Some((prefix, suffix)) => match strip_prefix(ws_name, &prefix) {
            None => None,
            Some(rest) => match strip_suffix(&rest, &suffix) {
                None => None,
                Some(bookmark) => if empty(&bookmark) {
                    None
                } else {
                    Some(bookmark)
                },
            },
        },
    }
}

/// A workspace name that was made of a prefix, a non-empty bookmark and a suffix gives the
/// bookmark back, where prefix and suffix are what the template has around it.
pub proof fn law_derive_inverts(
    template: Seq<char>,
    repo_name: Seq<char>,
    prefix: Seq<char>,
    suffix: Seq<char>,
    bookmark: Seq<char>,
)
    requires
        bookmark.len() > 0,
        contains_spec(split_spec(template, '/').last(), "{{ bookmark }}"@),
        cut_once_spec(
            replace_spec(
                replace_spec(
                    replace_spec(split_spec(template, '/').last(), "{{ repo }}"@, repo_name),
                    "{{ home }}"@,
                    Seq::empty(),
                ),
                "{{ default_workspace_path }}"@,
                Seq::empty(),
            ),
            "{{ bookmark }}"@,
        ) == Some((prefix, suffix)),
    ensures
        derive_spec(template, repo_name, prefix + bookmark + suffix) == Some(bookmark),
{
    let name = prefix + bookmark + suffix;
    assert(name.take(prefix.len() as int) =~= prefix);
    assert(name.skip(prefix.len() as int) =~= bookmark + suffix);
    let rest = bookmark + suffix;
    assert(rest.skip(bookmark.len() as int) =~= suffix);
    assert(rest.take(bookmark.len() as int) =~= bookmark);
}

/// Text without braces.
pub open spec fn is_plain(s: Seq<char>) -> bool {
    !s.contains('{') && !s.contains('}')
}

pub open spec fn all_plain(xs: Seq<Seq<char>>) -> bool {
    forall|i: int| 0 <= i < xs.len() ==> is_plain(#[trigger] xs[i])
}

/// A replacement goes over `q` where no occurrence starts in it.
proof fn lemma_replace_past(q: Seq<char>, t: Seq<char>, p: Seq<char>, to: Seq<char>)
    requires
        p.len() > 0,
        forall|i: int| 0 <= i < q.len() ==> !p.is_prefix_of(#[trigger] (q + t).skip(i)),
    ensures
        replace_spec(q + t, p, to) == q + replace_spec(t, p, to),
    decreases q.len(),
{
    let s = q + t;
    if q.len() == 0 {
        assert(s =~= t);
        assert(q + replace_spec(t, p, to) =~= replace_spec(t, p, to));
    } else {
        let rest = q.drop_first();
        assert(s.skip(0) =~= s);
        assert(s.drop_first() =~= rest + t);
        assert forall|i: int| 0 <= i < rest.len() implies !p.is_prefix_of(
            #[trigger] (rest + t).skip(i),
        ) by {
            assert((rest + t).skip(i) =~= s.skip(i + 1));
        }
        lemma_replace_past(rest, t, p, to);
        lemma_replace_step(s, p, to);
        assert(seq![s[0]] + (rest + replace_spec(t, p, to)) =~= q + replace_spec(t, p, to));
    }
}

proof fn lemma_replace_past_plain(x: Seq<char>, t: Seq<char>, p: Seq<char>, to: Seq<char>)
    requires
        p.len() > 0,
        p[0] == '{',
        is_plain(x),
    ensures
        replace_spec(x + t, p, to) == x + replace_spec(t, p, to),
{
    assert forall|i: int| 0 <= i < x.len() implies !p.is_prefix_of(#[trigger] (x + t).skip(i)) by {
        assert((x + t).skip(i)[0] == x[i]);
        assert(x.contains(x[i]));
    }
    lemma_replace_past(x, t, p, to);
}

/// `key` is a name whose first letter tells its mention from that of another name.
proof fn lemma_replace_past_mention(
    key: Seq<char>,
    t: Seq<char>,
    other: Seq<char>,
    to: Seq<char>,
)
    requires
        key.len() > 0,
        other.len() > 0,
        is_plain(key),
        key[0] != other[0],
    ensures
        replace_spec(mention_of(key) + t, mention_of(other), to) == mention_of(key) + replace_spec(
            t,
            mention_of(other),
            to,
        ),
{
    reveal_strlit("{{ ");
    reveal_strlit(" }}");
    let q = mention_of(key);
    let p = mention_of(other);
    let s = q + t;
    assert(q[0] == '{' && q[1] == '{' && q[2] == ' ' && q[3] == key[0]);
    assert(p[0] == '{' && p[1] == '{' && p[2] == ' ' && p[3] == other[0]);
    assert forall|i: int| 0 <= i < q.len() implies !p.is_prefix_of(#[trigger] s.skip(i)) by {
        let u = s.skip(i);
        assert(u[0] == q[i]);
        if p.is_prefix_of(u) {
            assert(u[0] == p[0] && u[1] == p[1] && u[3] == p[3]);
            assert(i != 0) by {
                assert(s.skip(0)[3] == key[0]);
            }
            assert(i != 1) by {
                assert(s.skip(1)[1] == ' ');
            }
            if 3 <= i < 3 + key.len() {
                assert(q[i] == key[i - 3]);
                assert(key.contains('{'));
            } else if i >= 3 + key.len() {
                assert(q[i] == " }}"@[i - 3 - key.len()]);
            }
        }
    }
    lemma_replace_past(q, t, p, to);
}

proof fn lemma_replace_mention(t: Seq<char>, key: Seq<char>, to: Seq<char>)
    ensures
        replace_spec(mention_of(key) + t, mention_of(key), to) == to + replace_spec(
            t,
            mention_of(key),
            to,
        ),
{
    reveal_strlit("{{ ");
    let p = mention_of(key);
    let s = p + t;
    lemma_replace_step(s, p, to);
    assert(p.is_prefix_of(s)) by {
        assert(s.take(p.len() as int) =~= p);
    }
    assert(s.skip(p.len() as int) =~= t);
}

/// Replacing `p` in what is woven of plain texts and `m`, where a replacement makes `with` of `m`.
proof fn lemma_replace_woven(
    xs: Seq<Seq<char>>,
    m: Seq<char>,
    t: Seq<char>,
    p: Seq<char>,
    to: Seq<char>,
    with: Seq<char>,
)
    requires
        xs.len() > 0,
        all_plain(xs),
        p.len() > 0,
        p[0] == '{',
        forall|u: Seq<char>| #[trigger]
            replace_spec(m + u, p, to) == with + replace_spec(u, p, to),
    ensures
        replace_spec(join_spec(xs, m) + t, p, to) == join_spec(xs, with) + replace_spec(t, p, to),
    decreases xs.len(),
{
    let end = replace_spec(t, p, to);
    assert(is_plain(xs[0]));
    if xs.len() == 1 {
        lemma_replace_past_plain(xs[0], t, p, to);
    } else {
        let rest = xs.drop_first();
        assert(all_plain(rest)) by {
            assert forall|i: int| 0 <= i < rest.len() implies is_plain(#[trigger] rest[i]) by {
                assert(rest[i] == xs[i + 1]);
            }
        }
        lemma_replace_woven(rest, m, t, p, to, with);
        lemma_join_cons(xs, m);
        lemma_join_cons(xs, with);
        let tail = join_spec(rest, m) + t;
        assert(join_spec(xs, m) + t =~= xs[0] + (m + tail));
        lemma_replace_past_plain(xs[0], m + tail, p, to);
        assert(replace_spec(m + tail, p, to) == with + (join_spec(rest, with) + end));
        assert(xs[0] + (with + (join_spec(rest, with) + end)) =~= join_spec(xs, with) + end);
    }
}

proof fn lemma_woven_plain(xs: Seq<Seq<char>>, with: Seq<char>)
    requires
        all_plain(xs),
        is_plain(with),
    ensures
        is_plain(join_spec(xs, with)),
    decreases xs.len(),
{
    if xs.len() == 1 {
        assert(is_plain(xs[0]));
    } else if xs.len() > 1 {
        let init = xs.drop_last();
        assert(all_plain(init)) by {
            assert forall|i: int| 0 <= i < init.len() implies is_plain(#[trigger] init[i]) by {
                assert(init[i] == xs[i]);
            }
        }
        lemma_woven_plain(init, with);
        assert(is_plain(xs[xs.len() - 1]));
        let a = join_spec(init, with);
        let s = join_spec(xs, with);
        assert(s == a + with + xs.last());
        assert forall|i: int| 0 <= i < s.len() implies s[i] != '{' && s[i] != '}' by {
            if i < a.len() {
                assert(a.contains(s[i])) by {
                    assert(a[i] == s[i]);
                }
            } else if i < a.len() + with.len() {
                assert(with.contains(s[i])) by {
                    assert(with[i - a.len()] == s[i]);
                }
            } else {
                assert(xs.last().contains(s[i])) by {
                    assert(xs.last()[i - a.len() - with.len()] == s[i]);
                }
            }
        }
    }
}

/// The mentions of the repository and of the bookmark under replacement.
proof fn lemma_mentions(to: Seq<char>)
    ensures
        mention_of("repo"@) == "{{ repo }}"@,
        mention_of("bookmark"@) == "{{ bookmark }}"@,
        mention_of("home"@) == "{{ home }}"@,
        mention_of("default_workspace_path"@) == "{{ default_workspace_path }}"@,
        "{{ repo }}"@[0] == '{',
        "{{ repo }}"@.len() > 0,
        "{{ bookmark }}"@[0] == '{',
        "{{ bookmark }}"@.len() > 0,
        forall|u: Seq<char>| #[trigger]
            replace_spec("{{ repo }}"@ + u, "{{ repo }}"@, to) == to + replace_spec(
                u,
                "{{ repo }}"@,
                to,
            ),
        forall|u: Seq<char>| #[trigger]
            replace_spec("{{ bookmark }}"@ + u, "{{ bookmark }}"@, to) == to + replace_spec(
                u,
                "{{ bookmark }}"@,
                to,
            ),
        forall|u: Seq<char>| #[trigger]
            replace_spec("{{ repo }}"@ + u, "{{ bookmark }}"@, to) == "{{ repo }}"@ + replace_spec(
                u,
                "{{ bookmark }}"@,
                to,
            ),
        forall|u: Seq<char>| #[trigger]
            replace_spec("{{ bookmark }}"@ + u, "{{ repo }}"@, to) == "{{ bookmark }}"@
                + replace_spec(u, "{{ repo }}"@, to),
{
    reveal_strlit("{{ ");
    reveal_strlit(" }}");
    reveal_strlit("repo");
    reveal_strlit("bookmark");
    reveal_strlit("home");
    reveal_strlit("default_workspace_path");
    reveal_strlit("{{ repo }}");
    reveal_strlit("{{ bookmark }}");
    reveal_strlit("{{ home }}");
    reveal_strlit("{{ default_workspace_path }}");
    let repo = mention_of("repo"@);
    let mark = mention_of("bookmark"@);
    assert(repo =~= "{{ repo }}"@);
    assert(mark =~= "{{ bookmark }}"@);
    assert(mention_of("home"@) =~= "{{ home }}"@);
    assert(mention_of("default_workspace_path"@) =~= "{{ default_workspace_path }}"@);
    assert(is_plain("repo"@));
    assert(is_plain("bookmark"@));
    assert forall|u: Seq<char>| #[trigger]
        replace_spec(repo + u, repo, to) == to + replace_spec(u, repo, to) by {
        lemma_replace_mention(u, "repo"@, to);
    }
    assert forall|u: Seq<char>| #[trigger]
        replace_spec(mark + u, mark, to) == to + replace_spec(u, mark, to) by {
        lemma_replace_mention(u, "bookmark"@, to);
    }
    assert forall|u: Seq<char>| #[trigger]
        replace_spec(repo + u, mark, to) == repo + replace_spec(u, mark, to) by {
        lemma_replace_past_mention("repo"@, u, "bookmark"@, to);
    }
    assert forall|u: Seq<char>| #[trigger]
        replace_spec(mark + u, repo, to) == mark + replace_spec(u, repo, to) by {
        lemma_replace_past_mention("bookmark"@, u, "repo"@, to);
    }
}

/// What is woven around a mention of the bookmark.
pub open spec fn woven(before: Seq<Seq<char>>, after: Seq<Seq<char>>) -> Seq<char> {
    join_spec(before, "{{ repo }}"@) + "{{ bookmark }}"@ + join_spec(after, "{{ repo }}"@)
}

proof fn lemma_woven_name(
    before: Seq<Seq<char>>,
    after: Seq<Seq<char>>,
    repo_name: Seq<char>,
    bookmark: Seq<char>,
)
    requires
        before.len() > 0,
        after.len() > 0,
        all_plain(before),
        all_plain(after),
        is_plain(bookmark),
    ensures
        expand_spec(
            woven(before, after),
            seq![("bookmark"@, bookmark), ("repo"@, repo_name)],
        ) == join_spec(before, repo_name) + bookmark + join_spec(after, repo_name),
{
    let repo = "{{ repo }}"@;
    let mark = "{{ bookmark }}"@;
    let none = Seq::<char>::empty();
    let x = join_spec(before, repo);
    let y = join_spec(after, repo);
    let prefix = join_spec(before, repo_name);
    let suffix = join_spec(after, repo_name);
    lemma_mentions(bookmark);
    assert(woven(before, after) =~= x + (mark + y));
    assert(y + none =~= y);
    assert(replace_spec(none, mark, bookmark) =~= none);
    lemma_replace_woven(before, repo, mark + y, mark, bookmark, repo);
    lemma_replace_woven(after, repo, none, mark, bookmark, repo);
    let half = x + (bookmark + y);
    assert(replace_spec(woven(before, after), mark, bookmark) =~= half);
    lemma_mentions(repo_name);
    assert(replace_spec(none, repo, repo_name) =~= none);
    lemma_replace_woven(before, repo, bookmark + y, repo, repo_name, repo_name);
    lemma_replace_past_plain(bookmark, y, repo, repo_name);
    lemma_replace_woven(after, repo, none, repo, repo_name, repo_name);
    assert(suffix + none =~= suffix);
    assert(replace_spec(half, repo, repo_name) =~= prefix + bookmark + suffix);
    let vars = seq![("bookmark"@, bookmark), ("repo"@, repo_name)];
    let first = seq![("bookmark"@, bookmark)];
    assert(vars.drop_last() =~= first);
    assert(first.drop_last() =~= Pairs::empty());
    assert(expand_spec(woven(before, after), first.drop_last()) == woven(before, after));
    assert(expand_spec(woven(before, after), first) == half);
}

proof fn lemma_woven_pattern(
    before: Seq<Seq<char>>,
    after: Seq<Seq<char>>,
    repo_name: Seq<char>,
)
    requires
        before.len() > 0,
        after.len() > 0,
        all_plain(before),
        all_plain(after),
        is_plain(repo_name),
    ensures
        replace_spec(
            replace_spec(
                replace_spec(woven(before, after), "{{ repo }}"@, repo_name),
                "{{ home }}"@,
                Seq::empty(),
            ),
            "{{ default_workspace_path }}"@,
            Seq::empty(),
        ) == join_spec(before, repo_name) + ("{{ bookmark }}"@ + join_spec(after, repo_name)),
{
    let repo = "{{ repo }}"@;
    let mark = "{{ bookmark }}"@;
    let none = Seq::<char>::empty();
    let x = join_spec(before, repo);
    let y = join_spec(after, repo);
    let prefix = join_spec(before, repo_name);
    let suffix = join_spec(after, repo_name);
    lemma_mentions(repo_name);
    lemma_woven_plain(before, repo_name);
    lemma_woven_plain(after, repo_name);
    assert(woven(before, after) =~= x + (mark + y));
    assert(y + none =~= y);
    assert(suffix + none =~= suffix);
    assert(replace_spec(none, repo, repo_name) =~= none);
    lemma_replace_woven(before, repo, mark + y, repo, repo_name, repo_name);
    lemma_replace_woven(after, repo, none, repo, repo_name, repo_name);
    assert(replace_spec(woven(before, after), repo, repo_name) == prefix + (mark + suffix));
    assert("home"@.len() > 0 && "home"@[0] == 'h') by {
        reveal_strlit("home");
    }
    assert("default_workspace_path"@.len() > 0 && "default_workspace_path"@[0] == 'd') by {
        reveal_strlit("default_workspace_path");
    }
    lemma_unmentioned(prefix, suffix, "home"@);
    lemma_unmentioned(prefix, suffix, "default_workspace_path"@);
}

/// A workspace name that was expanded from the last component of the path template gives its
/// bookmark back. The component is woven of texts without braces, mentions of the repository and
/// one mention of the bookmark: `before` stands before that one, `after` behind it, each cut at the
/// mentions of the repository.
pub proof fn law_expanded_names_read_back(
    template: Seq<char>,
    before: Seq<Seq<char>>,
    after: Seq<Seq<char>>,
    repo_name: Seq<char>,
    bookmark: Seq<char>,
)
    requires
        before.len() > 0,
        after.len() > 0,
        all_plain(before),
        all_plain(after),
        is_plain(repo_name),
        is_plain(bookmark),
        bookmark.len() > 0,
        split_spec(template, '/').last() == woven(before, after),
    ensures
        derive_spec(
            template,
            repo_name,
            expand_spec(
                split_spec(template, '/').last(),
                seq![("bookmark"@, bookmark), ("repo"@, repo_name)],
            ),
        ) == Some(bookmark),
{
    let mark = "{{ bookmark }}"@;
    let x = join_spec(before, "{{ repo }}"@);
    let y = join_spec(after, "{{ repo }}"@);
    let prefix = join_spec(before, repo_name);
    let suffix = join_spec(after, repo_name);
    assert(mark.len() > 0 && mark[0] == '{') by {
        reveal_strlit("{{ bookmark }}");
    }
    lemma_woven_name(before, after, repo_name, bookmark);
    lemma_woven_pattern(before, after, repo_name);
    lemma_woven_plain(before, repo_name);
    lemma_occurs_between(x, mark, y);
    lemma_cut_behind_plain(prefix, mark, suffix);
    law_derive_inverts(template, repo_name, prefix, suffix, bookmark);
}

proof fn lemma_occurs_between(x: Seq<char>, m: Seq<char>, y: Seq<char>)
    ensures
        contains_spec(x + m + y, m),
{
    let at = x.len() as int;
    assert((x + m + y).subrange(at, at + m.len()) =~= m);
    assert(occurs_at(x + m + y, m, at));
}

proof fn lemma_find_behind_plain(x: Seq<char>, m: Seq<char>, y: Seq<char>)
    requires
        is_plain(x),
        m.len() > 0,
        m[0] == '{',
    ensures
        find_spec(x + (m + y), m) == Some(x.len()),
    decreases x.len(),
{
    let s = x + (m + y);
    if x.len() == 0 {
        assert(s.take(m.len() as int) =~= m);
        assert(m.is_prefix_of(s));
    } else {
        let rest = x.drop_first();
        assert(x.contains(x[0]));
        assert(s[0] == x[0]);
        assert(is_plain(rest)) by {
            assert forall|c: char| rest.contains(c) implies x.contains(c) by {
                let i = choose|i: int| 0 <= i < rest.len() && rest[i] == c;
                assert(x[i + 1] == c);
            }
        }
        lemma_find_behind_plain(rest, m, y);
        assert(s.drop_first() =~= rest + (m + y));
    }
}

/// A text is cut at the first brace behind plain text.
proof fn lemma_cut_behind_plain(prefix: Seq<char>, m: Seq<char>, suffix: Seq<char>)
    requires
        is_plain(prefix),
        m.len() > 0,
        m[0] == '{',
    ensures
        cut_once_spec(prefix + (m + suffix), m) == Some((prefix, suffix)),
{
    let s = prefix + (m + suffix);
    let at = prefix.len() as int;
    lemma_find_behind_plain(prefix, m, suffix);
    assert(s.take(at) =~= prefix);
    assert(s.skip(at + m.len()) =~= suffix);
}

/// Nothing is replaced around a mention of the bookmark where nothing else is mentioned.
proof fn lemma_unmentioned(prefix: Seq<char>, suffix: Seq<char>, other: Seq<char>)
    requires
        is_plain(prefix),
        is_plain(suffix),
        other.len() > 0,
        other[0] != 'b',
    ensures
        replace_spec(
            prefix + (mention_of("bookmark"@) + suffix),
            mention_of(other),
            Seq::empty(),
        ) == prefix + (mention_of("bookmark"@) + suffix),
{
    reveal_strlit("{{ ");
    reveal_strlit("bookmark");
    let mark = mention_of("bookmark"@);
    let p = mention_of(other);
    let none = Seq::<char>::empty();
    assert(p[0] == '{');
    assert(is_plain("bookmark"@));
    lemma_replace_past_plain(prefix, mark + suffix, p, none);
    lemma_replace_past_mention("bookmark"@, suffix, other, none);
    lemma_replace_past_plain(suffix, none, p, none);
    assert(suffix + none =~= suffix);
    assert(replace_spec(none, p, none) =~= none);
}

// ---------------------------------------------------------------------------
// Warnings
// ---------------------------------------------------------------------------

#[derive(Clone, Copy, PartialEq, Eq, Structural, Debug)]
pub enum WarningKind {
    /// `{{ x }}` where `x` is no known variable.
    UnknownVariable,
    /// Braces around a word that are not `{{ ` and ` }}`.
    MalformedDelimiters,
    /// `workspace-path` lacks `{{ bookmark }}`, so that all workspaces share a path.
    MissingBookmark,
    /// `workspace-path` holds shell syntax that nothing expands.
    ShellSyntax,
}

#[derive(Debug)]
pub struct TemplateWarning {
    /// The configuration field.
    pub context: String,
    /// The suspicious text.
    pub pattern: String,
    pub kind: WarningKind,
}

pub struct TemplateWarningV {
    pub context: Seq<char>,
    pub pattern: Seq<char>,
    pub kind: WarningKind,
}

impl DeepView for TemplateWarning {
    type V = TemplateWarningV;

    open spec fn deep_view(&self) -> TemplateWarningV {
        TemplateWarningV { context: self.context@, pattern: self.pattern@, kind: self.kind }
    }
}

pub open spec fn warning_text(w: TemplateWarningV) -> Seq<char> {
    match w.kind {
        WarningKind::UnknownVariable => "unknown template variable '"@ + w.pattern + "' in "@
            + w.context,
        WarningKind::MalformedDelimiters => "malformed template variable '"@ + w.pattern
            + "' in "@ + w.context + " (expected '{{ name }}')"@,
        WarningKind::MissingBookmark => w.context
            + " must contain {{ bookmark }} — each workspace needs a unique path"@,
        WarningKind::ShellSyntax => w.context + " contains '"@ + w.pattern
            + "' which won't be expanded (use {{ home }} instead)"@,
    }
}

impl TemplateWarning {
    /// The warning as a sentence.
    pub fn message(&self) -> (r: String)
        ensures
            r@ == warning_text(self.deep_view()),
    {
        match self.kind {
            WarningKind::UnknownVariable => cat2(
                &cat3("unknown template variable '", &self.pattern, "' in "),
                &self.context,
            ),
            WarningKind::MalformedDelimiters => cat5(
                "malformed template variable '",
                &self.pattern,
                "' in ",
                &self.context,
                " (expected '{{ name }}')",
            ),
            WarningKind::MissingBookmark => cat2(
                &self.context,
                " must contain {{ bookmark }} — each workspace needs a unique path",
            ),
            WarningKind::ShellSyntax => cat2(
                &cat3(&self.context, " contains '", &self.pattern),
                "' which won't be expanded (use {{ home }} instead)",
            ),
        }
    }
}

fn push_warning(out: &mut Vec<TemplateWarning>, context: &str, pattern: &str, kind: WarningKind)
    ensures
        final(out).deep_view() == old(out).deep_view().push(
            TemplateWarningV { context: context@, pattern: pattern@, kind },
        ),
{
    let ghost before = out.deep_view();
    let w = TemplateWarning { context: context.to_string(), pattern: pattern.to_string(), kind };
    let ghost x = w.deep_view();
    out.push(w);
    assert(out.deep_view() =~= before.push(x));
}

// ---------------------------------------------------------------------------
// Variables in braces
// ---------------------------------------------------------------------------

pub open spec fn word_char(c: char) -> bool {
    'a' <= c <= 'z' || 'A' <= c <= 'Z' || '0' <= c <= '9' || c == '_'
}

/// Is `s` one word of letters, digits and underscores?
pub open spec fn is_word_spec(s: Seq<char>) -> bool {
    s.len() > 0 && forall|i: int| 0 <= i < s.len() ==> word_char(#[trigger] s[i])
}

fn is_word(s: &str) -> (r: bool)
    ensures
        r == is_word_spec(s@),
{
    let cs = chars_of(s);
    if cs.len() == 0 {
        return false;
    }
    for i in 0..cs.len()
        invariant
            cs@ == s@,
            forall|j: int| 0 <= j < i ==> word_char(#[trigger] cs@[j]),
    {
        let c = cs[i];
        if !(('a' <= c && c <= 'z') || ('A' <= c && c <= 'Z') || ('0' <= c && c <= '9')
            || c == '_') {
            assert(!word_char(cs@[i as int]));
            return false;
        }
    }
    true
}

/// What is wrong with `{{inner}}`; nothing when it is no word, or a known one in its proper form.
pub open spec fn double_verdict(inner: Seq<char>, known: Seq<Seq<char>>) -> Option<WarningKind> {
    let word = trim_spec(inner, Cut::White);
    if !is_word_spec(word) {
        None
    } else if !known.contains(word) {
        Some(WarningKind::UnknownVariable)
    } else if "{{"@ + inner + "}}"@ != mention_of(word) {
        Some(WarningKind::MalformedDelimiters)
    } else {
        None
    }
}

/// Warnings on the double-braced parts of `s`, from the left.
pub open spec fn double_spec(s: Seq<char>, context: Seq<char>, known: Seq<Seq<char>>) -> Seq<
    TemplateWarningV,
>
    decreases s.len(),
{
    if s.len() < 2 {
        Seq::empty()
    } else if s[0] == '{' && s[1] == '{' {
        match find_spec(s.skip(2), "}}"@) {
            Some(k) => if k + 4 > s.len() {
                Seq::empty()
            } else {
                let inner = s.subrange(2, k as int + 2);
                let rest = double_spec(s.skip(k as int + 4), context, known);
                match double_verdict(inner, known) {
                    Some(kind) => seq![
                        TemplateWarningV { context, pattern: s.take(k as int + 4), kind },
                    ] + rest,
                    None => rest,
                }
            },
            None => double_spec(s.skip(2), context, known),
        }
    } else {
        double_spec(s.skip(1), context, known)
    }
}

fn double(cs: &Vec<char>, context: &str, known: &[&str], out: &mut Vec<TemplateWarning>)
    ensures
        final(out).deep_view() == old(out).deep_view() + double_spec(
            cs@,
            context@,
            known.deep_view(),
        ),
{
    let ghost start = out.deep_view();
    let ghost kn = known.deep_view();
    let close = chars_of("}}");
    proof {
        reveal_strlit("{{");
        reveal_strlit("}}");
    }
    let mut i: usize = 0;
    let n = cs.len();
    assert(cs@.skip(0) =~= cs@);
    while i < n && n - i >= 2
        invariant
            n == cs@.len(),
            i <= n,
            kn == known.deep_view(),
            close@ == "}}"@,
            "}}"@.len() == 2,
            "{{"@.len() == 2,
            "{{"@[0] == '{',
            "{{"@[1] == '{',
            "}}"@[0] == '}',
            "}}"@[1] == '}',
            start + double_spec(cs@, context@, kn) == out.deep_view() + double_spec(
                cs@.skip(i as int),
                context@,
                kn,
            ),
        decreases n - i,
    {
        let ghost s = cs@.skip(i as int);
        let ghost before = out.deep_view();
        if cs[i] == '{' && cs[i + 1] == '{' {
            assert(s.skip(2) =~= cs@.skip(i + 2));
            match find_at(cs, &close, i + 2) {
                Some(c) => {
                    let ghost k = (c - i - 2) as int;
                    assert(find_spec(s.skip(2), "}}"@) == Some(k as nat));
                    let inner = slice(cs, i + 2, c);
                    let full = slice(cs, i, c + 2);
                    assert(inner@ =~= s.subrange(2, k + 2));
                    assert(full@ =~= s.take(k + 4));
                    assert(s.skip(k + 4) =~= cs@.skip(c + 2));
                    assert(cs@.subrange(c as int, c + 2) == "}}"@);
                    assert(cs@.subrange(c as int, c + 2)[0] == cs@[c as int]);
                    assert(cs@.subrange(c as int, c + 2)[1] == cs@[c + 1]);
                    assert("{{"@ + inner@ + "}}"@ =~= full@);
                    let word = trim(&inner, Cut::White);
                    let ghost rest = double_spec(cs@.skip(c + 2), context@, kn);
                    if is_word(&word) {
                        if !listed(known, &word) {
                            push_warning(out, context, &full, WarningKind::UnknownVariable);
                            assert(before.push(out.deep_view().last()) + rest =~= before + (seq![
                                out.deep_view().last(),
                            ] + rest));
                        } else {
                            let canonical = cat3("{{ ", &word, " }}");
                            if !same(&full, &canonical) {
                                push_warning(
                                    out,
                                    context,
                                    &full,
                                    WarningKind::MalformedDelimiters,
                                );
                                assert(before.push(out.deep_view().last()) + rest =~= before + (
                                seq![out.deep_view().last()] + rest));
                            }
                        }
                    }
                    i = c + 2;
                },
                None => {
                    i = i + 2;
                },
            }
        } else {
            assert(s.skip(1) =~= cs@.skip(i + 1));
            i = i + 1;
        }
    }
    assert(out.deep_view() + double_spec(cs@.skip(i as int), context@, kn) =~= out.deep_view());
}

/// Does a single brace open at `i`: not one of a pair, and not that of a shell variable?
pub open spec fn opens_single(s: Seq<char>, i: int) -> bool {
    &&& s[i] == '{'
    &&& (i + 1 >= s.len() || s[i + 1] != '{')
    &&& (i == 0 || (s[i - 1] != '{' && s[i - 1] != '$'))
}

/// Warnings on the words in single braces at or after `i`.
pub open spec fn single_spec(s: Seq<char>, i: int, context: Seq<char>) -> Seq<TemplateWarningV>
    decreases s.len() - i,
{
    if i < 0 || i >= s.len() {
        Seq::empty()
    } else if opens_single(s, i) {
        let k = index_of(s.skip(i + 1), '}') as int;
        let close = i + 1 + k;
        if close < s.len() {
            let rest = single_spec(s, close + 1, context);
            if (close + 1 >= s.len() || s[close + 1] != '}') && is_word_spec(
                trim_spec(s.subrange(i + 1, close), Cut::White),
            ) {
                seq![
                    TemplateWarningV {
                        context,
                        pattern: s.subrange(i, close + 1),
                        kind: WarningKind::MalformedDelimiters,
                    },
                ] + rest
            } else {
                rest
            }
        } else {
            single_spec(s, i + 1, context)
        }
    } else {
        single_spec(s, i + 1, context)
    }
}

fn single(cs: &Vec<char>, context: &str, out: &mut Vec<TemplateWarning>)
    ensures
        final(out).deep_view() == old(out).deep_view() + single_spec(cs@, 0, context@),
{
    let ghost start = out.deep_view();
    let n = cs.len();
    let mut i: usize = 0;
    while i < n
        invariant
            n == cs@.len(),
            i <= n,
            start + single_spec(cs@, 0, context@) == out.deep_view() + single_spec(
                cs@,
                i as int,
                context@,
            ),
        decreases n - i,
    {
        let ghost before = out.deep_view();
        if cs[i] == '{' && (i + 1 >= n || cs[i + 1] != '{') && (i == 0 || (cs[i - 1] != '{' && cs[i
            - 1] != '$')) {
            let close = first_index(cs, i + 1, '}');
            if close < n {
                let ghost rest = single_spec(cs@, close + 1, context@);
                if close + 1 >= n || cs[close + 1] != '}' {
                    let inner = slice(cs, i + 1, close);
                    if is_word(&trim(&inner, Cut::White)) {
                        let full = slice(cs, i, close + 1);
                        push_warning(out, context, &full, WarningKind::MalformedDelimiters);
                        assert(before.push(out.deep_view().last()) + rest =~= before + (seq![
                            out.deep_view().last(),
                        ] + rest));
                    }
                }
                i = close + 1;
            } else {
                i = i + 1;
            }
        } else {
            i = i + 1;
        }
    }
    assert(out.deep_view() + single_spec(cs@, i as int, context@) =~= out.deep_view());
}

/// Warnings on variables that are unknown or not written `{{ name }}`.
pub open spec fn validate_spec(template: Seq<char>, context: Seq<char>, known: Seq<Seq<char>>) -> Seq<
    TemplateWarningV,
> {
    double_spec(template, context, known) + single_spec(template, 0, context)
}

pub fn validate_template(template: &str, context: &str, known_vars: &[&str]) -> (r: Vec<
    TemplateWarning,
>)
    ensures
        r.deep_view() == validate_spec(template@, context@, known_vars.deep_view()),
{
    let cs = chars_of(template);
    let mut out: Vec<TemplateWarning> = Vec::new();
    assert(out.deep_view() =~= Seq::<TemplateWarningV>::empty());
    double(&cs, context, known_vars, &mut out);
    single(&cs, context, &mut out);
    assert(out.deep_view() =~= validate_spec(template@, context@, known_vars.deep_view()));
    out
}

// ---------------------------------------------------------------------------
// The path of a workspace
// ---------------------------------------------------------------------------

/// Warnings on `${..}` in `s`.
pub open spec fn shell_vars_spec(s: Seq<char>, context: Seq<char>) -> Seq<TemplateWarningV>
    decreases s.len(),
{
    if s.len() < 3 {
        Seq::empty()
    } else if s[0] == '$' && s[1] == '{' {
        let k = index_of(s.skip(2), '}') as int;
        if k + 2 < s.len() {
            seq![
                TemplateWarningV {
                    context,
                    pattern: s.take(k + 3),
                    kind: WarningKind::ShellSyntax,
                },
            ] + shell_vars_spec(s.skip(k + 3), context)
        } else {
            shell_vars_spec(s.skip(2), context)
        }
    } else {
        shell_vars_spec(s.skip(1), context)
    }
}

pub open spec fn tilde_spec(template: Seq<char>) -> bool {
    template == "~"@ || "~/"@.is_prefix_of(template)
}

/// Warnings on a `workspace-path` that gives all workspaces one path, or waits for a shell.
pub open spec fn validate_path_spec(template: Seq<char>) -> Seq<TemplateWarningV> {
    let context = "workspace-path"@;
    let missing: Seq<TemplateWarningV> = if contains_spec(template, "{{ bookmark }}"@) {
        Seq::empty()
    } else {
        seq![
            TemplateWarningV { context, pattern: Seq::empty(), kind: WarningKind::MissingBookmark },
        ]
    };
    let tilde: Seq<TemplateWarningV> = if tilde_spec(template) {
        seq![TemplateWarningV { context, pattern: "~"@, kind: WarningKind::ShellSyntax }]
    } else {
        Seq::empty()
    };
    missing + tilde + shell_vars_spec(template, context)
}

pub fn validate_workspace_path_template(template: &str) -> (r: Vec<TemplateWarning>)
    ensures
        r.deep_view() == validate_path_spec(template@),
{
    let context = "workspace-path";
    let mut out: Vec<TemplateWarning> = Vec::new();
    assert(out.deep_view() =~= Seq::<TemplateWarningV>::empty());
    if !contains(template, "{{ bookmark }}") {
        let nothing = String::new();
        assert(nothing@ =~= Seq::<char>::empty());
        push_warning(&mut out, context, &nothing, WarningKind::MissingBookmark);
    }
    if same(template, "~") || starts_with(template, "~/") {
        push_warning(&mut out, context, "~", WarningKind::ShellSyntax);
    }
    let ghost start = out.deep_view();
    let cs = chars_of(template);
    let n = cs.len();
    let mut i: usize = 0;
    assert(cs@.skip(0) =~= cs@);
    while i < n && n - i >= 3
        invariant
            n == cs@.len(),
            i <= n,
            context@ == "workspace-path"@,
            start + shell_vars_spec(cs@, context@) == out.deep_view() + shell_vars_spec(
                cs@.skip(i as int),
                context@,
            ),
        decreases n - i,
    {
        let ghost s = cs@.skip(i as int);
        let ghost before = out.deep_view();
        if cs[i] == '$' && cs[i + 1] == '{' {
            let close = first_index(&cs, i + 2, '}');
            assert(s.skip(2) =~= cs@.skip(i + 2));
            if close < n {
                let ghost k = (close - i - 2) as int;
                let full = slice(&cs, i, close + 1);
                assert(full@ =~= s.take(k + 3));
                assert(s.skip(k + 3) =~= cs@.skip(close + 1));
                let ghost rest = shell_vars_spec(cs@.skip(close + 1), context@);
                push_warning(&mut out, context, &full, WarningKind::ShellSyntax);
                assert(before.push(out.deep_view().last()) + rest =~= before + (seq![
                    out.deep_view().last(),
                ] + rest));
                i = close + 1;
            } else {
                i = i + 2;
            }
        } else {
            assert(s.skip(1) =~= cs@.skip(i + 1));
            i = i + 1;
        }
    }
    assert(out.deep_view() + shell_vars_spec(cs@.skip(i as int), context@) =~= out.deep_view());
    assert(out.deep_view() =~= validate_path_spec(template@));
    out
}

/// The known variables, for a message.
pub fn known_vars_hint(known_vars: &[&str]) -> (r: String)
    ensures
        r@ == join_spec(known_vars.deep_view(), ", "@),
{
    let mut v: Vec<String> = Vec::new();
    let ghost all = known_vars.deep_view();
    for i in 0..known_vars.len()
        invariant
            all == known_vars.deep_view(),
            v.deep_view() == all.take(i as int),
    {
        let ghost before = v.deep_view();
        v.push(known_vars[i].to_string());
        assert(v.deep_view() =~= before.push(known_vars@[i as int]@));
        assert(all.take(i + 1) =~= all.take(i as int).push(all[i as int]));
    }
    assert(all.take(known_vars@.len() as int) =~= all);
    join(&v, ", ")
}

} // verus!
