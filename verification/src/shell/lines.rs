//! Reading the lines of shell configuration files.

use vstd::prelude::*;

use crate::paths::{is_absolute, is_absolute_spec, path_join, path_join_spec};
use crate::search::{
    before_last, contains, contains_char, contains_spec, cut_once, cut_once_spec, ends_with,
    lemma_before_last, lemma_find, starts_with, strip_prefix, strip_prefix_spec, up_to_last, words,
    words_spec,
};
use crate::seqs::{filter_map, lemma_filter_map_step};
use crate::shell::env::{ShellEnv, ShellEnvV};
use crate::text::{
    chars_of, copy_opt, empty, first_index, index_of, lemma_index_of, listed, same, slice,
    split_once, split_once_spec, strs, trim, trim_end, trim_end_spec, trim_spec, trim_start,
    trim_start_spec, Cut,
};

verus! {

// ---------------------------------------------------------------------------
// Comments
// ---------------------------------------------------------------------------

pub open spec fn ascii_white(c: char) -> bool {
    c == ' ' || c == '\t' || c == '\n' || c == '\u{c}' || c == '\r'
}

/// Where the comment of `s` starts, from position `i` on, inside or outside of quotes.
pub open spec fn comment_at(s: Seq<char>, i: int, single: bool, double: bool) -> int
    decreases s.len() - i,
{
    if i < 0 || i >= s.len() {
        s.len() as int
    } else if !double && s[i] == '\'' {
        comment_at(s, i + 1, !single, double)
    } else if !single && s[i] == '"' {
        comment_at(s, i + 1, single, !double)
    } else if !single && !double && s[i] == '#' && (i == 0 || ascii_white(s[i - 1])) {
        i
    } else {
        comment_at(s, i + 1, single, double)
    }
}

/// `s` without its comment and without white space at the end.
pub open spec fn strip_comment_spec(s: Seq<char>) -> Seq<char> {
    trim_end_spec(s.take(comment_at(s, 0, false, false)), Cut::White)
}

pub fn strip_inline_comment(s: &str) -> (r: String)
    ensures
        r@ == strip_comment_spec(s@),
{
    let cs = chars_of(s);
    let mut i: usize = 0;
    let mut single = false;
    let mut double = false;
    while i < cs.len()
        invariant
            i <= cs@.len(),
            cs@ == s@,
            comment_at(s@, 0, false, false) == comment_at(s@, i as int, single, double),
        ensures
            i <= cs@.len(),
            comment_at(s@, 0, false, false) == i,
        decreases cs@.len() - i,
    {
        let c = cs[i];
        if !double && c == '\'' {
            single = !single;
        } else if !single && c == '"' {
            double = !double;
        } else if !single && !double && c == '#' {
            if i == 0 {
                break;
            }
            let b = cs[i - 1];
            if b == ' ' || b == '\t' || b == '\n' || b == '\u{c}' || b == '\r' {
                break;
            }
        }
        i = i + 1;
    }
    let head = slice(&cs, 0, i);
    assert(s@.take(i as int) =~= cs@.subrange(0, i as int));
    trim_end(&head, Cut::White)
}

// ---------------------------------------------------------------------------
// Lines that install the integration
// ---------------------------------------------------------------------------

/// Words that a line which loads the integration can start with.
pub const LOADERS: [&'static str; 10] = [
    "eval",
    "source",
    ".",
    "if",
    "command",
    "type",
    "hash",
    "ji",
    "[",
    "[[",
];

pub open spec fn first_word(s: Seq<char>) -> Seq<char> {
    if words_spec(s).len() == 0 {
        Seq::empty()
    } else {
        words_spec(s)[0]
    }
}

pub open spec fn mentions_init(s: Seq<char>) -> bool {
    ||| contains_spec(s, "ji config shell init"@)
    ||| contains_spec(s, "/ji/init.zsh"@)
    ||| contains_spec(s, "/ji/init.bash"@)
    ||| contains_spec(s, "/ji/init.fish"@)
}

/// Does a line load the integration? Comments, aliases and printing commands do not.
pub open spec fn legacy_spec(line: Seq<char>) -> bool {
    let l = strip_comment_spec(trim_start_spec(line, Cut::White));
    l.len() > 0 && !"#"@.is_prefix_of(l) && mentions_init(l) && strs(LOADERS@).contains(
        first_word(l),
    )
}

pub fn is_legacy_line(line: &str) -> (r: bool)
    ensures
        r == legacy_spec(line@),
{
    let l = strip_inline_comment(&trim_start(line, Cut::White));
    if empty(&l) || starts_with(&l, "#") {
        return false;
    }
    if !(contains(&l, "ji config shell init") || contains(&l, "/ji/init.zsh") || contains(
        &l,
        "/ji/init.bash",
    ) || contains(&l, "/ji/init.fish")) {
        return false;
    }
    let ws = words(&l);
    assert(ws.deep_view().len() == ws@.len());
    let first = if ws.len() == 0 {
        String::new()
    } else {
        ws[0].clone()
    };
    assert(first@ =~= first_word(l@));
    let loaders = LOADERS;
    let names = loaders.as_slice();
    assert(names.deep_view() =~= strs(LOADERS@));
    listed(names, &first)
}

// ---------------------------------------------------------------------------
// Lines that load another file
// ---------------------------------------------------------------------------

/// The command of a one-line `if`, else the line.
pub open spec fn strip_if_spec(line: Seq<char>) -> Seq<char> {
    match strip_prefix_spec(line, "if "@) {
        None => line,
        Some(rest) => match split_once_spec(rest, ';') {
            None => line,
            Some(parts) => {
                let body = trim_start_spec(parts.1, Cut::White);
                let body = match strip_prefix_spec(body, "then "@) {
                    Some(b) => b,
                    None => match strip_prefix_spec(body, "then\t"@) {
                        Some(b) => b,
                        None => body,
                    },
                };
                let body = trim_start_spec(body, Cut::White);
                match before_last(body, ';') {
                    Some(b) => trim_spec(b, Cut::White),
                    None => body,
                }
            },
        },
    }
}

pub fn strip_if_then(line: &str) -> (r: String)
    ensures
        r@ == strip_if_spec(line@),
{
    let rest = match strip_prefix(line, "if ") {
        Some(r) => r,
        None => return line.to_string(),
    };
    let body = match split_once(&rest, ';') {
        Some(parts) => trim_start(&parts.1, Cut::White),
        None => return line.to_string(),
    };
    let body = match strip_prefix(&body, "then ") {
        Some(b) => b,
        None => match strip_prefix(&body, "then\t") {
            Some(b) => b,
            None => body,
        },
    };
    let body = trim_start(&body, Cut::White);
    match up_to_last(&body, ';') {
        Some(b) => trim(&b, Cut::White),
        None => body,
    }
}

/// What follows a `[ .. ] &&`, else the line.
pub open spec fn strip_test_spec(line: Seq<char>) -> Seq<char> {
    match cut_once_spec(line, "&&"@) {
        Some(parts) => {
            let head = trim_spec(parts.0, Cut::White);
            if "["@.is_prefix_of(head) && "]"@.is_suffix_of(head) {
                trim_start_spec(parts.1, Cut::White)
            } else {
                line
            }
        },
        None => line,
    }
}

pub fn strip_test_guard(line: &str) -> (r: String)
    ensures
        r@ == strip_test_spec(line@),
{
    if let Some(parts) = cut_once(line, "&&") {
        let head = trim(&parts.0, Cut::White);
        if starts_with(&head, "[") && ends_with(&head, "]") {
            return trim_start(&parts.1, Cut::White);
        }
    }
    line.to_string()
}

/// What follows a test that ji is installed, else the line.
pub open spec fn strip_logical_spec(line: Seq<char>) -> Seq<char> {
    match cut_once_spec(line, "&&"@) {
        Some(parts) => {
            let head = trim_spec(parts.0, Cut::White);
            if ("command -v"@.is_prefix_of(head) || "type "@.is_prefix_of(head)
                || "hash "@.is_prefix_of(head)) && contains_spec(head, "ji"@) {
                trim_start_spec(parts.1, Cut::White)
            } else {
                line
            }
        },
        None => line,
    }
}

pub fn strip_logical_guard(line: &str) -> (r: String)
    ensures
        r@ == strip_logical_spec(line@),
{
    if let Some(parts) = cut_once(line, "&&") {
        let head = trim(&parts.0, Cut::White);
        if (starts_with(&head, "command -v") || starts_with(&head, "type ") || starts_with(
            &head,
            "hash ",
        )) && contains(&head, "ji") {
            return trim_start(&parts.1, Cut::White);
        }
    }
    line.to_string()
}

/// What follows the first of some prefixes that fits.
pub open spec fn after_source(s: Seq<char>) -> Option<Seq<char>> {
    match strip_prefix_spec(s, ". "@) {
        Some(r) => Some(r),
        None => match strip_prefix_spec(s, ".\t"@) {
            Some(r) => Some(r),
            None => match strip_prefix_spec(s, "source "@) {
                Some(r) => Some(r),
                None => strip_prefix_spec(s, "source\t"@),
            },
        },
    }
}

/// The text between the first character and its next occurrence.
pub open spec fn quoted(s: Seq<char>) -> Option<Seq<char>> {
    let i = index_of(s.drop_first(), s[0]);
    if i < s.len() - 1 {
        Some(s.drop_first().take(i as int))
    } else {
        None
    }
}

/// The file that a line loads, as it is written: quoted, or one word.
pub open spec fn directive_spec(s: Seq<char>) -> Option<Seq<char>> {
    match after_source(s) {
        None => None,
        Some(r) => {
            let rest = trim_start_spec(r, Cut::White);
            if rest.len() == 0 {
                None
            } else if rest[0] == '"' || rest[0] == '\'' {
                quoted(rest)
            } else if words_spec(rest).len() == 0 {
                None
            } else {
                Some(trim_end_spec(words_spec(rest)[0], Cut::Only(';')))
            }
        },
    }
}

pub fn extract_source_directive_arg(s: &str) -> (r: Option<String>)
    ensures
        r.deep_view() == directive_spec(s@),
{
    let found = match strip_prefix(s, ". ") {
        Some(r) => Some(r),
        None => match strip_prefix(s, ".\t") {
            Some(r) => Some(r),
            None => match strip_prefix(s, "source ") {
                Some(r) => Some(r),
                None => strip_prefix(s, "source\t"),
            },
        },
    };
    let rest = match found {
        Some(r) => trim_start(&r, Cut::White),
        None => return None,
    };
    let cs = chars_of(&rest);
    if cs.len() == 0 {
        return None;
    }
    let q = cs[0];
    if q == '"' || q == '\'' {
        let i = first_index(&cs, 1, q);
        assert(rest@.drop_first() =~= cs@.skip(1));
        if i < cs.len() {
            let inner = slice(&cs, 1, i);
            assert(inner@ =~= rest@.drop_first().take(i - 1));
            Some(inner)
        } else {
            None
        }
    } else {
        let ws = words(&rest);
        assert(ws.deep_view().len() == ws@.len());
        if ws.len() == 0 {
            None
        } else {
            assert(ws.deep_view()[0] == ws@[0]@);
            Some(trim_end(&ws[0], Cut::Only(';')))
        }
    }
}

/// The files that a one-line loop loads, as they are written.
pub open spec fn for_loop_spec(line: Seq<char>) -> Option<Seq<char>> {
    match strip_prefix_spec(line, "for "@) {
        None => None,
        Some(rest) => match cut_once_spec(rest, " in "@) {
            None => None,
            Some(a) => match split_once_spec(a.1, ';') {
                None => None,
                Some(b) => if !contains_spec(b.1, "source"@) && !contains_spec(b.1, ". \""@)
                    && !". "@.is_prefix_of(trim_start_spec(b.1, Cut::White)) {
                    None
                } else {
                    Some(trim_spec(b.0, Cut::White))
                },
            },
        },
    }
}

pub fn extract_for_loop_source(line: &str) -> (r: Option<String>)
    ensures
        r.deep_view() == for_loop_spec(line@),
{
    let rest = match strip_prefix(line, "for ") {
        Some(r) => r,
        None => return None,
    };
    let rest = match cut_once(&rest, " in ") {
        Some(parts) => parts.1,
        None => return None,
    };
    let (glob, body) = match split_once(&rest, ';') {
        Some(parts) => parts,
        None => return None,
    };
    if !contains(&body, "source") && !contains(&body, ". \"") && !starts_with(
        &trim_start(&body, Cut::White),
        ". ",
    ) {
        return None;
    }
    Some(trim(&glob, Cut::White))
}

// ---------------------------------------------------------------------------
// Variables
// ---------------------------------------------------------------------------

/// What [`char::is_alphanumeric`] says of `c`.
pub uninterp spec fn alphanumeric(c: char) -> bool;

/// [`char::is_alphanumeric`]: a function of the character alone, by the Unicode tables.
pub assume_specification[ char::is_alphanumeric ](c: char) -> (r: bool)
    ensures
        r == alphanumeric(c),
;

/// Does `c` stand in the name of a variable? ASCII letters and digits are told by their ranges,
/// other characters by the Unicode tables.
pub open spec fn in_name(c: char) -> bool {
    if (c as u32) < 128 {
        'a' <= c <= 'z' || 'A' <= c <= 'Z' || '0' <= c <= '9' || c == '_'
    } else {
        alphanumeric(c)
    }
}

fn stands_in_name(c: char) -> (r: bool)
    ensures
        r == in_name(c),
{
    if (c as u32) < 128 {
        'a' <= c && c <= 'z' || 'A' <= c && c <= 'Z' || '0' <= c && c <= '9' || c == '_'
    } else {
        c.is_alphanumeric()
    }
}

/// Length of the variable name that `s` starts with.
pub open spec fn name_len(s: Seq<char>) -> nat
    decreases s.len(),
{
    if s.len() > 0 && in_name(s[0]) {
        1 + name_len(s.drop_first())
    } else {
        0
    }
}

proof fn lemma_name_len(s: Seq<char>)
    ensures
        name_len(s) <= s.len(),
    decreases s.len(),
{
    if s.len() > 0 && in_name(s[0]) {
        lemma_name_len(s.drop_first());
    }
}

/// The variable that `s`, the text behind a dollar sign, starts with.
pub open spec fn var_of(s: Seq<char>) -> Seq<char> {
    if s.len() > 0 && s[0] == '{' {
        s.drop_first().take(index_of(s.drop_first(), '}') as int)
    } else {
        s.take(name_len(s) as int)
    }
}

/// How many characters of `s` the variable takes, braces and all.
pub open spec fn var_len(s: Seq<char>) -> int {
    if s.len() > 0 && s[0] == '{' {
        let i = index_of(s.drop_first(), '}');
        if i < s.len() - 1 {
            i as int + 2
        } else {
            s.len() as int
        }
    } else {
        name_len(s) as int
    }
}

proof fn lemma_var(s: Seq<char>)
    ensures
        0 <= var_len(s) <= s.len(),
        var_of(s).len() <= s.len(),
{
    if s.len() > 0 && s[0] == '{' {
        lemma_index_of(s.drop_first(), '}');
    } else {
        lemma_name_len(s);
    }
}

/// The value of a variable that is known.
pub open spec fn known_value(env: ShellEnvV, name: Seq<char>) -> Option<Seq<char>> {
    if name == "HOME"@ {
        Some(env.home)
    } else if name == "ZDOTDIR"@ {
        Some(env.zdotdir)
    } else if name == "XDG_CONFIG_HOME"@ {
        Some(env.xdg_config_home)
    } else if name == "ZSH"@ {
        env.omz_root
    } else if name == "ZSH_CUSTOM"@ {
        env.zsh_custom
    } else {
        None
    }
}

fn find_value(env: &ShellEnv, name: &str) -> (r: Option<String>)
    ensures
        r.deep_view() == known_value(env.deep_view(), name@),
{
    if same(name, "HOME") {
        Some(env.home.clone())
    } else if same(name, "ZDOTDIR") {
        Some(env.zdotdir.clone())
    } else if same(name, "XDG_CONFIG_HOME") {
        Some(env.xdg_config_home.clone())
    } else if same(name, "ZSH") {
        copy_opt(&env.omz_root)
    } else if same(name, "ZSH_CUSTOM") {
        copy_opt(&env.zsh_custom)
    } else {
        None
    }
}

/// The name in `name:-default` or `name-default`.
pub open spec fn var_name(raw: Seq<char>) -> Seq<char> {
    match cut_once_spec(raw, ":-"@) {
        Some(parts) => parts.0,
        None => match cut_once_spec(raw, "-"@) {
            Some(parts) => parts.0,
            None => raw,
        },
    }
}

/// The default in `name:-default` or `name-default`.
pub open spec fn var_default(raw: Seq<char>) -> Option<Seq<char>> {
    match cut_once_spec(raw, ":-"@) {
        Some(parts) => Some(parts.1),
        None => match cut_once_spec(raw, "-"@) {
            Some(parts) => Some(parts.1),
            None => None,
        },
    }
}

proof fn lemma_default_shorter(raw: Seq<char>)
    ensures
        var_default(raw) matches Some(d) ==> d.len() < raw.len(),
{
    reveal_strlit(":-");
    reveal_strlit("-");
    lemma_find(raw, ":-"@);
    lemma_find(raw, "-"@);
}

/// The value of a variable as it stands behind a dollar sign: that of its name, else its default.
pub open spec fn lookup_spec(env: ShellEnvV, raw: Seq<char>) -> Option<Seq<char>>
    decreases raw.len(), 0nat,
    via lookup_decreases
{
    match known_value(env, var_name(raw)) {
        Some(v) => Some(v),
        None => match var_default(raw) {
            Some(d) => fill_spec(env, d),
            None => None,
        },
    }
}

#[via_fn]
proof fn lookup_decreases(env: ShellEnvV, raw: Seq<char>) {
    lemma_default_shorter(raw);
}

/// `s` with its variables replaced; `None` if one has no value.
pub open spec fn fill_spec(env: ShellEnvV, s: Seq<char>) -> Option<Seq<char>>
    decreases s.len(), 0nat,
    via fill_decreases
{
    if s.len() == 0 {
        Some(s)
    } else if s[0] != '$' {
        match fill_spec(env, s.drop_first()) {
            Some(rest) => Some(seq![s[0]] + rest),
            None => None,
        }
    } else {
        let t = s.drop_first();
        match lookup_spec(env, var_of(t)) {
            Some(v) => match fill_spec(env, t.skip(var_len(t))) {
                Some(rest) => Some(v + rest),
                None => None,
            },
            None => None,
        }
    }
}

#[via_fn]
proof fn fill_decreases(env: ShellEnvV, s: Seq<char>) {
    if s.len() > 0 {
        lemma_var(s.drop_first());
    }
}

pub fn lookup_var(env: &ShellEnv, raw: &str) -> (r: Option<String>)
    ensures
        r.deep_view() == lookup_spec(env.deep_view(), raw@),
    decreases raw@.len(), 0nat,
{
    proof {
        lemma_default_shorter(raw@);
    }
    let (name, default) = match cut_once(raw, ":-") {
        Some(parts) => (parts.0, Some(parts.1)),
        None => match cut_once(raw, "-") {
            Some(parts) => (parts.0, Some(parts.1)),
            None => (raw.to_string(), None),
        },
    };
    if let Some(v) = find_value(env, &name) {
        return Some(v);
    }
    match default {
        Some(d) => fill(env, &d),
        None => None,
    }
}

/// How far the variable name at `from` goes.
fn name_end(cs: &Vec<char>, from: usize) -> (end: usize)
    requires
        from <= cs@.len(),
    ensures
        from <= end <= cs@.len(),
        end - from == name_len(cs@.skip(from as int)),
{
    let mut end = from;
    while end < cs.len()
        invariant
            from <= end <= cs@.len(),
            name_len(cs@.skip(from as int)) == (end - from) + name_len(cs@.skip(end as int)),
        ensures
            from <= end <= cs@.len(),
            name_len(cs@.skip(from as int)) == end - from,
        decreases cs@.len() - end,
    {
        assert(cs@.skip(end as int).drop_first() =~= cs@.skip(end + 1));
        let c = cs[end];
        if !stands_in_name(c) {
            break;
        }
        end = end + 1;
    }
    end
}

/// `s` with its variables replaced; `None` if one has no value.
pub fn fill(env: &ShellEnv, s: &str) -> (r: Option<String>)
    ensures
        r.deep_view() == fill_spec(env.deep_view(), s@),
    decreases s@.len(), 0nat,
{
    let cs = chars_of(s);
    let n = cs.len();
    let mut out = String::new();
    let mut i: usize = 0;
    assert(s@.skip(0) =~= s@);
    assert(fill_spec(env.deep_view(), s@) == joined(
        out@,
        fill_spec(env.deep_view(), s@.skip(0)),
    )) by {
        let f = fill_spec(env.deep_view(), s@);
        if f is Some {
            assert(out@ + f->0 =~= f->0);
        }
    }
    while i < n
        invariant
            i <= n,
            n == cs@.len(),
            cs@ == s@,
            fill_spec(env.deep_view(), s@) == joined(
                out@,
                fill_spec(env.deep_view(), s@.skip(i as int)),
            ),
        decreases n - i,
    {
        let ghost rest = s@.skip(i as int);
        let ghost done = out@;
        assert(rest.drop_first() =~= s@.skip(i + 1));
        if cs[i] != '$' {
            out.push(cs[i]);
            i = i + 1;
            proof {
                if let Some(f) = fill_spec(env.deep_view(), s@.skip(i as int)) {
                    assert(done + (seq![rest[0]] + f) =~= done.push(rest[0]) + f);
                }
            }
        } else {
            let ghost t = rest.drop_first();
            proof {
                lemma_var(t);
            }
            let var: String;
            let next: usize;
            if i + 1 < n && cs[i + 1] == '{' {
                assert(t.drop_first() =~= cs@.skip(i + 2));
                let end = first_index(&cs, i + 2, '}');
                var = slice(&cs, i + 2, end);
                assert(var@ =~= var_of(t));
                next = if end < n {
                    end + 1
                } else {
                    n
                };
            } else {
                let end = name_end(&cs, i + 1);
                var = slice(&cs, i + 1, end);
                assert(var@ =~= var_of(t));
                next = end;
            }
            assert(next == i + 1 + var_len(t));
            assert(t.skip(var_len(t)) =~= s@.skip(next as int));
            match lookup_var(env, &var) {
                Some(v) => {
                    out.append(&v);
                    proof {
                        if let Some(f) = fill_spec(env.deep_view(), s@.skip(next as int)) {
                            assert(done + (v@ + f) =~= (done + v@) + f);
                        }
                    }
                },
                None => return None,
            }
            i = next;
        }
    }
    assert(s@.skip(n as int) =~= Seq::empty());
    assert(out@ + Seq::<char>::empty() =~= out@);
    Some(out)
}

/// `a` in front of `b`, if there is one.
pub open spec fn joined(a: Seq<char>, b: Option<Seq<char>>) -> Option<Seq<char>> {
    match b {
        Some(s) => Some(a + s),
        None => None,
    }
}

/// `raw` with the home directory in the place of a tilde.
pub open spec fn untilde_spec(env: ShellEnvV, raw: Seq<char>) -> Seq<char> {
    match strip_prefix_spec(raw, "~/"@) {
        Some(rest) => path_join_spec(env.home, rest),
        None => if raw == "~"@ {
            env.home
        } else {
            raw
        },
    }
}

/// The path that `raw` stands for, if all its variables have values.
pub open spec fn resolve_path_spec(env: ShellEnvV, base_dir: Seq<char>, raw: Seq<char>) -> Option<
    Seq<char>,
> {
    match fill_spec(env, untilde_spec(env, raw)) {
        None => None,
        Some(p) => if p.contains('$') {
            None
        } else if is_absolute_spec(p) {
            Some(p)
        } else {
            Some(path_join_spec(base_dir, p))
        },
    }
}

pub fn resolve_path(env: &ShellEnv, base_dir: &str, raw: &str) -> (r: Option<String>)
    ensures
        r.deep_view() == resolve_path_spec(env.deep_view(), base_dir@, raw@),
{
    let s = match strip_prefix(raw, "~/") {
        Some(rest) => path_join(&env.home, &rest),
        None => if same(raw, "~") {
            env.home.clone()
        } else {
            raw.to_string()
        },
    };
    let p = match fill(env, &s) {
        Some(p) => p,
        None => return None,
    };
    if contains_char(&p, '$') {
        None
    } else if is_absolute(&p) {
        Some(p)
    } else {
        Some(path_join(base_dir, &p))
    }
}

// ---------------------------------------------------------------------------
// Patterns
// ---------------------------------------------------------------------------

/// A path pattern with a star: the directory, what a name there starts and ends with, and the
/// path behind the name.
#[derive(Debug, Clone)]
pub struct Pattern {
    pub dir: String,
    pub prefix: String,
    pub suffix: String,
    pub tail: String,
}

pub struct PatternV {
    pub dir: Seq<char>,
    pub prefix: Seq<char>,
    pub suffix: Seq<char>,
    pub tail: Seq<char>,
}

impl DeepView for Pattern {
    type V = PatternV;

    open spec fn deep_view(&self) -> PatternV {
        PatternV {
            dir: self.dir@,
            prefix: self.prefix@,
            suffix: self.suffix@,
            tail: self.tail@,
        }
    }
}

/// Where the directory part of `s` ends, the last slash before the first star.
pub open spec fn glob_dir_len(s: Seq<char>) -> int {
    match before_last(s.take(index_of(s, '*') as int), '/') {
        Some(d) => d.len() as int,
        None => 0,
    }
}

/// Where the name with the first star ends.
pub open spec fn glob_name_end(s: Seq<char>) -> int {
    let star = index_of(s, '*') as int;
    star + index_of(s.skip(star), '/')
}

/// What a path with a star stands for; `None` if no name can fit.
pub open spec fn pattern_spec(s: Seq<char>) -> Option<PatternV> {
    let from = glob_dir_len(s);
    let to = glob_name_end(s);
    match split_once_spec(s.subrange(from + 1, to), '*') {
        None => None,
        Some(parts) => Some(
            PatternV {
                dir: if from == 0 {
                    "/"@
                } else {
                    s.take(from)
                },
                prefix: parts.0,
                suffix: parts.1,
                tail: if to < s.len() {
                    s.skip(to + 1)
                } else {
                    Seq::empty()
                },
            },
        ),
    }
}

pub fn pattern_of(s: &str) -> (r: Option<Pattern>)
    requires
        s@.contains('*'),
    ensures
        r.deep_view() == pattern_spec(s@),
{
    let cs = chars_of(s);
    let n = cs.len();
    assert(cs@.skip(0) =~= s@);
    let star = first_index(&cs, 0, '*');
    proof {
        lemma_index_of(s@, '*');
        if index_of(s@, '*') == s@.len() {
            let k = choose|k: int| 0 <= k < s@.len() && s@[k] == '*';
            assert(s@[k] != '*');
        }
    }
    let before = slice(&cs, 0, star);
    assert(before@ =~= s@.take(star as int));
    proof {
        lemma_before_last(before@, '/');
    }
    let dir = up_to_last(&before, '/');
    let from: usize = match &dir {
        Some(d) => chars_of(d).len(),
        None => 0,
    };
    let to = first_index(&cs, star, '/');
    proof {
        lemma_index_of(s@.skip(star as int), '/');
        if to == star {
            assert(s@.skip(star as int)[0] == s@[star as int]);
        }
    }
    let name = slice(&cs, from + 1, to);
    let parts = match split_once(&name, '*') {
        Some(parts) => parts,
        None => return None,
    };
    let tail = if to < n {
        let t = slice(&cs, to + 1, n);
        assert(t@ =~= s@.skip(to + 1));
        t
    } else {
        let t = String::new();
        assert(t@ =~= Seq::empty());
        t
    };
    let root = if from == 0 {
        "/".to_string()
    } else {
        let d = slice(&cs, 0, from);
        assert(d@ =~= s@.take(from as int));
        d
    };
    Some(Pattern { dir: root, prefix: parts.0, suffix: parts.1, tail })
}

/// Does a name fit a pattern?
pub open spec fn name_fits(p: PatternV, name: Seq<char>) -> bool {
    p.prefix.is_prefix_of(name) && p.suffix.is_suffix_of(name)
}

/// The paths that a pattern stands for, given the names in its directory.
pub open spec fn fitting(p: PatternV, names: Seq<Seq<char>>) -> Seq<Seq<char>> {
    filter_map(names, fit_fn(p))
}

/// The path of a name that fits.
pub open spec fn fit_fn(p: PatternV) -> spec_fn(Seq<char>) -> Option<Seq<char>> {
    |name: Seq<char>|
        if name_fits(p, name) {
            let path = path_join_spec(p.dir, name);
            Some(
                if p.tail.len() == 0 {
                    path
                } else {
                    path_join_spec(path, p.tail)
                },
            )
        } else {
            None
        }
}

pub fn fit(p: &Pattern, names: &Vec<String>) -> (r: Vec<String>)
    ensures
        r.deep_view() == fitting(p.deep_view(), names.deep_view()),
{
    let ghost all = names.deep_view();
    let ghost f = fit_fn(p.deep_view());
    let mut out: Vec<String> = Vec::new();
    assert(out.deep_view() =~= filter_map(all.take(0), f));
    for i in 0..names.len()
        invariant
            all == names.deep_view(),
            f == fit_fn(p.deep_view()),
            out.deep_view() == filter_map(all.take(i as int), f),
    {
        let ghost before = out.deep_view();
        proof {
            lemma_filter_map_step(all, i as int, f);
        }
        assert(all[i as int] == names@[i as int]@);
        if starts_with(&names[i], &p.prefix) && ends_with(&names[i], &p.suffix) {
            let mut path = path_join(&p.dir, &names[i]);
            if !empty(&p.tail) {
                path = path_join(&path, &p.tail);
            }
            out.push(path);
            assert(out.deep_view() =~= before.push(path@));
        }
    }
    assert(all.take(all.len() as int) =~= all);
    out
}

} // verus!
