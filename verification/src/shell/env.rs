//! The places that a shell configuration is looked for in.

use vstd::prelude::*;

use crate::paths::{path_join, path_join_spec};
use crate::search::{lemma_replace_step, replace, replace_spec};
use crate::shell::detect::comes_to;
use crate::tape::{
    agrees, at, at_spec, bind, failure, failure_spec, fetch, fetch_spec, holds, holds_spec, need,
    need_spec, request, request_spec, Act, Failure, FailureV, Out, Stop, Tape, Trace,
};
use crate::text::{args1, cat2, cat3, empty, same};

verus! {

#[derive(Debug, Clone)]
pub struct ShellEnv {
    pub home: String,
    pub xdg_config_home: String,
    pub zdotdir: String,
    pub zsh_custom: Option<String>,
    /// Where Oh My Zsh is.
    pub omz_root: Option<String>,
}

pub struct ShellEnvV {
    pub home: Seq<char>,
    pub xdg_config_home: Seq<char>,
    pub zdotdir: Seq<char>,
    pub zsh_custom: Option<Seq<char>>,
    pub omz_root: Option<Seq<char>>,
}

impl DeepView for ShellEnv {
    type V = ShellEnvV;

    open spec fn deep_view(&self) -> ShellEnvV {
        ShellEnvV {
            home: self.home@,
            xdg_config_home: self.xdg_config_home@,
            zdotdir: self.zdotdir@,
            zsh_custom: self.zsh_custom.deep_view(),
            omz_root: self.omz_root.deep_view(),
        }
    }
}

/// `v`, or `d` where there is none.
pub open spec fn or_else(v: Option<Seq<char>>, d: Seq<char>) -> Seq<char> {
    match v {
        Some(s) => s,
        None => d,
    }
}

/// `$ZSH`, else the usual place if it is there.
#[verifier::opaque]
pub open spec fn omz_spec(t: Trace, home: Seq<char>) -> Out<Option<Seq<char>>> {
    bind(
        fetch_spec(t, at_spec(Act::EnvVar, "ZSH"@)),
        |set: Option<Seq<char>>, t: Trace|
            match set {
                Some(p) => Out::Got(Some(p), t),
                None => bind(
                    holds_spec(t, at_spec(Act::IsDir, path_join_spec(home, ".oh-my-zsh"@))),
                    |there: bool, t: Trace|
                        Out::Got(
                            if there {
                                Some(path_join_spec(home, ".oh-my-zsh"@))
                            } else {
                                None
                            },
                            t,
                        ),
                ),
            },
    )
}

fn omz(tape: &mut Tape, home: &str) -> (r: Result<Option<String>, Stop>)
    ensures
        agrees(r, final(tape)@, omz_spec(old(tape)@, home@)),
{
    reveal(omz_spec);
    if let Some(p) = fetch(tape, at(Act::EnvVar, "ZSH"))? {
        return Ok(Some(p));
    }
    let p = path_join(home, ".oh-my-zsh");
    if holds(tape, at(Act::IsDir, &p))? {
        Ok(Some(p))
    } else {
        Ok(None)
    }
}

#[verifier::opaque]
pub open spec fn from_process_env_spec(t: Trace) -> Out<ShellEnvV> {
    bind(
        fetch_spec(t, at_spec(Act::EnvVar, "HOME"@)),
        |home: Option<Seq<char>>, t: Trace|
            match home {
                None => Out::Fail(failure_spec("HOME not set"@), t),
                Some(home) => bind(
                    fetch_spec(t, at_spec(Act::EnvVar, "XDG_CONFIG_HOME"@)),
                    |xdg: Option<Seq<char>>, t: Trace|
                        bind(
                            fetch_spec(t, at_spec(Act::EnvVar, "ZDOTDIR"@)),
                            |zdotdir: Option<Seq<char>>, t: Trace|
                                bind(
                                    omz_spec(t, home),
                                    |omz: Option<Seq<char>>, t: Trace|
                                        bind(
                                            fetch_spec(t, at_spec(Act::EnvVar, "ZSH_CUSTOM"@)),
                                            |custom: Option<Seq<char>>, t: Trace|
                                                Out::Got(env_of(home, xdg, zdotdir, omz, custom), t),
                                        ),
                                ),
                        ),
                ),
            },
    )
}

/// The places, where some may not be set.
pub open spec fn env_of(
    home: Seq<char>,
    xdg: Option<Seq<char>>,
    zdotdir: Option<Seq<char>>,
    omz: Option<Seq<char>>,
    custom: Option<Seq<char>>,
) -> ShellEnvV {
    ShellEnvV {
        home,
        xdg_config_home: or_else(xdg, path_join_spec(home, ".config"@)),
        zdotdir: or_else(zdotdir, home),
        zsh_custom: match (custom, omz) {
            (Some(c), _) => Some(c),
            (None, Some(r)) => Some(path_join_spec(r, "custom"@)),
            (None, None) => None,
        },
        omz_root: omz,
    }
}

/// Where the managed file of a shell is.
pub open spec fn managed_file_spec(env: ShellEnvV, shell: Seq<char>) -> Result<Seq<char>, FailureV> {
    let dir = path_join_spec(env.xdg_config_home, "ji"@);
    if shell == "zsh"@ {
        Ok(path_join_spec(dir, "init.zsh"@))
    } else if shell == "bash"@ {
        Ok(path_join_spec(dir, "init.bash"@))
    } else {
        Err(failure_spec("managed_file is only defined for zsh and bash, got: "@ + shell))
    }
}

impl ShellEnv {
    /// The places that the environment variables name.
    pub fn from_process_env(tape: &mut Tape) -> (r: Result<ShellEnv, Stop>)
        ensures
            agrees(r, final(tape)@, from_process_env_spec(old(tape)@)),
    {
        reveal(from_process_env_spec);
        let home = match fetch(tape, at(Act::EnvVar, "HOME"))? {
            Some(h) => h,
            None => return Err(Stop::Fail(failure("HOME not set".to_string()))),
        };
        let xdg_config_home = match fetch(tape, at(Act::EnvVar, "XDG_CONFIG_HOME"))? {
            Some(p) => p,
            None => path_join(&home, ".config"),
        };
        let zdotdir = match fetch(tape, at(Act::EnvVar, "ZDOTDIR"))? {
            Some(p) => p,
            None => home.clone(),
        };
        let omz_root = omz(tape, &home)?;
        let zsh_custom = match fetch(tape, at(Act::EnvVar, "ZSH_CUSTOM"))? {
            Some(p) => Some(p),
            None => match &omz_root {
                Some(r) => Some(path_join(r, "custom")),
                None => None,
            },
        };
        Ok(ShellEnv { home, xdg_config_home, zdotdir, zsh_custom, omz_root })
    }

    pub fn managed_file(&self, shell: &str) -> (r: Result<String, Failure>)
        ensures
            comes_to(r, managed_file_spec(self.deep_view(), shell@)),
    {
        let dir = path_join(&self.xdg_config_home, "ji");
        if same(shell, "zsh") {
            Ok(path_join(&dir, "init.zsh"))
        } else if same(shell, "bash") {
            Ok(path_join(&dir, "init.bash"))
        } else {
            Err(
                failure(
                    cat2("managed_file is only defined for zsh and bash, got: ", shell),
                ),
            )
        }
    }
}

pub const NO_DIRECTIVE_FILE: &'static str =
    "JI_DIRECTIVE_FILE not set \u{2014} did you run `ji config shell install`?";

/// The command that changes to `path`, with its quotes escaped for a POSIX shell.
pub open spec fn cd_command(path: Seq<char>) -> Seq<char> {
    "cd '"@ + replace_spec(path, "'"@, "'\\''"@) + "'\n"@
}

/// What a POSIX shell makes of a word: the text inside of single quotes, and the character behind a
/// backslash outside of them.
pub open spec fn shell_reads(s: Seq<char>, quoted: bool) -> Option<Seq<char>>
    decreases s.len(),
{
    if s.len() == 0 {
        if quoted {
            None
        } else {
            Some(s)
        }
    } else if s[0] == '\'' {
        shell_reads(s.drop_first(), !quoted)
    } else if quoted || s[0] != '\\' {
        match shell_reads(s.drop_first(), quoted) {
            Some(rest) => Some(seq![s[0]] + rest),
            None => None,
        }
    } else if s.len() == 1 {
        None
    } else {
        match shell_reads(s.skip(2), quoted) {
            Some(rest) => Some(seq![s[1]] + rest),
            None => None,
        }
    }
}

/// A path with its quotes escaped.
pub open spec fn quote_free(path: Seq<char>) -> Seq<char> {
    replace_spec(path, "'"@, "'\\''"@)
}

proof fn lemma_quote_free_step(path: Seq<char>)
    requires
        path.len() > 0,
    ensures
        quote_free(path) == (if path[0] == '\'' {
            seq!['\'', '\\', '\'', '\'']
        } else {
            seq![path[0]]
        }) + quote_free(path.drop_first()),
{
    reveal_strlit("'");
    reveal_strlit("'\\''");
    assert("'"@ =~= seq!['\'']);
    assert("'\\''"@ =~= seq!['\'', '\\', '\'', '\'']);
    lemma_replace_step(path, "'"@, "'\\''"@);
    assert(path.skip(1) =~= path.drop_first());
    if path[0] == '\'' {
        assert(path.take(1) =~= seq!['\'']);
    } else {
        assert(!seq!['\''].is_prefix_of(path)) by {
            if seq!['\''].is_prefix_of(path) {
                assert(path.take(1)[0] == path[0]);
            }
        }
    }
}

proof fn lemma_shell_reads(path: Seq<char>)
    ensures
        shell_reads(quote_free(path) + seq!['\''], true) == Some(path),
    decreases path.len(),
{
    let end = seq!['\''];
    let s = quote_free(path) + end;
    if path.len() == 0 {
        reveal_strlit("'");
        assert(quote_free(path) =~= path);
        assert(s =~= end);
        assert(end.drop_first() =~= Seq::empty());
        reveal_with_fuel(shell_reads, 2);
    } else {
        let rest = quote_free(path.drop_first()) + end;
        lemma_quote_free_step(path);
        lemma_shell_reads(path.drop_first());
        if path[0] == '\'' {
            let a = s.drop_first();
            assert(a =~= seq!['\\', '\'', '\''] + rest);
            assert(a.skip(2) =~= seq!['\''] + rest);
            assert(a.skip(2).drop_first() =~= rest);
            assert(shell_reads(a.skip(2), false) == shell_reads(rest, true));
            assert(shell_reads(a, false) == Some(seq!['\''] + path.drop_first()));
            assert(shell_reads(s, true) == shell_reads(a, false));
        } else {
            assert(s.drop_first() =~= rest);
        }
        assert(seq![path[0]] + path.drop_first() =~= path);
    }
}

/// The shell changes to the very directory that was meant, whatever characters its path has.
pub proof fn law_directive_reads_back(path: Seq<char>)
    ensures
        cd_command(path) == "cd "@ + (seq!['\''] + quote_free(path) + seq!['\'']) + "\n"@,
        shell_reads(seq!['\''] + quote_free(path) + seq!['\''], false) == Some(path),
{
    let word = seq!['\''] + quote_free(path) + seq!['\''];
    reveal_strlit("cd '");
    reveal_strlit("cd ");
    reveal_strlit("'\n");
    reveal_strlit("\n");
    assert("cd '"@ =~= "cd "@ + seq!['\'']);
    assert("'\n"@ =~= seq!['\''] + "\n"@);
    assert(cd_command(path) =~= "cd "@ + word + "\n"@);
    lemma_shell_reads(path);
    assert(word.drop_first() =~= quote_free(path) + seq!['\'']);
}

#[verifier::opaque]
pub open spec fn write_directive_cd_spec(t: Trace, path: Seq<char>) -> Out<()> {
    bind(
        need_spec(t, at_spec(Act::EnvVar, "JI_DIRECTIVE_FILE"@), NO_DIRECTIVE_FILE@),
        |file: Seq<char>, t: Trace|
            if file.len() == 0 {
                Out::Got((), t)
            } else {
                bind(
                    need_spec(
                        t,
                        request_spec(Act::WriteFile, file, seq![cd_command(path)]),
                        "failed to write directive to "@ + file,
                    ),
                    |s: Seq<char>, t: Trace| Out::Got((), t),
                )
            },
    )
}

/// Leaves a command to change to `path` for the shell wrapper, which runs it.
pub fn write_directive_cd(tape: &mut Tape, path: &str) -> (r: Result<(), Stop>)
    ensures
        agrees(r, final(tape)@, write_directive_cd_spec(old(tape)@, path@)),
{
    reveal(write_directive_cd_spec);
    proof {
        reveal_strlit("'");
    }
    let file = need(tape, at(Act::EnvVar, "JI_DIRECTIVE_FILE"), NO_DIRECTIVE_FILE)?;
    if empty(&file) {
        return Ok(());
    }
    let escaped = replace(path, "'", "'\\''");
    let cmd = cat3("cd '", &escaped, "'\n");
    let _ = need(
        tape,
        request(Act::WriteFile, &file, args1(&cmd)),
        &cat2("failed to write directive to ", &file),
    )?;
    Ok(())
}

} // verus!
