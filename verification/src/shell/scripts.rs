//! The text that is installed.

use vstd::prelude::*;

use crate::search::{contains, contains_spec};
use crate::shell::detect::{comes_to, SUPPORTED_SHELLS};
use crate::tape::{failure, failure_spec, Failure, FailureV};
use crate::text::{cat2, cat3, cat5, same};

verus! {

pub const MARKER_BEGIN: &'static str = "# >>> ji shell integration >>>";

pub const MARKER_END: &'static str = "# <<< ji shell integration <<<";

pub const MANAGED_HEADER: &'static str = "# ji-managed: do not edit";

/// For zsh and bash.
pub const POSIX_WRAPPER: &'static str = r#"if command -v ji >/dev/null 2>&1; then
    ji() {
        local directive_file exit_code=0
        directive_file="$(mktemp)"

        JI_DIRECTIVE_FILE="$directive_file" command ji "$@" || exit_code=$?

        if [[ -s "$directive_file" ]]; then
            source "$directive_file"
            local directive_status=$?
            if [[ $exit_code -eq 0 ]]; then
                exit_code=$directive_status
            fi
        fi

        rm -f "$directive_file"
        return "$exit_code"
    }
fi
"#;

pub const FISH_WRAPPER: &'static str = r#"function ji --description 'ji workspace switcher (with cd directive support)'
    set -l directive_file (mktemp)

    JI_DIRECTIVE_FILE=$directive_file command ji $argv
    set -l exit_code $status

    if test -s $directive_file
        eval (string collect <$directive_file)
        set -l directive_status $status
        if test $exit_code -eq 0
            set exit_code $directive_status
        end
    end

    command rm -f $directive_file
    return $exit_code
end
"#;

/// A shell with an integration.
#[derive(Clone, Copy, PartialEq, Eq, Structural, Debug)]
pub enum ShellKind {
    Zsh,
    Bash,
    Fish,
}

pub open spec fn unsupported_spec(shell: Seq<char>) -> FailureV {
    failure_spec("unsupported shell: "@ + shell + " (supported: "@ + SUPPORTED_SHELLS@ + ")"@)
}

pub fn unsupported(shell: &str) -> (r: Failure)
    ensures
        r.deep_view() == unsupported_spec(shell@),
{
    failure(cat5("unsupported shell: ", shell, " (supported: ", SUPPORTED_SHELLS, ")"))
}

pub open spec fn kind_of(shell: Seq<char>) -> Option<ShellKind> {
    if shell == "zsh"@ {
        Some(ShellKind::Zsh)
    } else if shell == "bash"@ {
        Some(ShellKind::Bash)
    } else if shell == "fish"@ {
        Some(ShellKind::Fish)
    } else {
        None
    }
}

/// The shell of a name.
pub fn shell_kind(shell: &str) -> (r: Result<ShellKind, Failure>)
    ensures
        match kind_of(shell@) {
            Some(k) => r == Ok::<ShellKind, Failure>(k),
            None => r matches Err(e) && e.deep_view() == unsupported_spec(shell@),
        },
{
    if same(shell, "zsh") {
        Ok(ShellKind::Zsh)
    } else if same(shell, "bash") {
        Ok(ShellKind::Bash)
    } else if same(shell, "fish") {
        Ok(ShellKind::Fish)
    } else {
        Err(unsupported(shell))
    }
}

pub open spec fn wrapper_of(k: ShellKind) -> Seq<char> {
    match k {
        ShellKind::Fish => FISH_WRAPPER@,
        _ => POSIX_WRAPPER@,
    }
}

/// The function that wraps ji in a shell.
pub fn wrapper_script(shell: &str) -> (r: Result<String, Failure>)
    ensures
        comes_to(
            r,
            match kind_of(shell@) {
                Some(k) => Ok(wrapper_of(k)),
                None => Err(unsupported_spec(shell@)),
            },
        ),
{
    match shell_kind(shell) {
        Ok(ShellKind::Fish) => Ok(FISH_WRAPPER.to_string()),
        Ok(_) => Ok(POSIX_WRAPPER.to_string()),
        Err(e) => Err(e),
    }
}

/// A completion script as it is installed. In zsh it runs only once `compdef` is there.
pub open spec fn completion_of(k: ShellKind, generated: Seq<char>) -> Seq<char> {
    match k {
        ShellKind::Zsh => "if (( ${+functions[compdef]} )); then\n"@ + generated + "\nfi\n"@,
        _ => generated,
    }
}

/// The completion script of a shell around the one that was generated for it.
pub fn completion_script(shell: &str, generated: &str) -> (r: Result<String, Failure>)
    ensures
        comes_to(
            r,
            match kind_of(shell@) {
                Some(k) => Ok(completion_of(k, generated@)),
                None => Err(unsupported_spec(shell@)),
            },
        ),
{
    match shell_kind(shell) {
        Ok(ShellKind::Zsh) => Ok(
            cat3("if (( ${+functions[compdef]} )); then\n", generated, "\nfi\n"),
        ),
        Ok(_) => Ok(generated.to_string()),
        Err(e) => Err(e),
    }
}

/// The wrapper and the completions of a shell in one text.
pub open spec fn managed_body(k: ShellKind, generated: Seq<char>) -> Seq<char> {
    MANAGED_HEADER@ + "\n"@ + wrapper_of(k) + "\n"@ + completion_of(k, generated)
}

pub open spec fn managed_body_spec(shell: Seq<char>, generated: Seq<char>) -> Result<
    Seq<char>,
    FailureV,
> {
    match kind_of(shell) {
        Some(k) => Ok(managed_body(k, generated)),
        None => Err(unsupported_spec(shell)),
    }
}

pub fn render_managed_body(shell: &str, generated: &str) -> (r: Result<String, Failure>)
    ensures
        comes_to(r, managed_body_spec(shell@, generated@)),
{
    let wrapper = match wrapper_script(shell) {
        Ok(w) => w,
        Err(e) => return Err(e),
    };
    let completion = match completion_script(shell, generated) {
        Ok(c) => c,
        Err(e) => return Err(e),
    };
    Ok(cat5(MANAGED_HEADER, "\n", &wrapper, "\n", &completion))
}

pub open spec fn fish_wrapper_body() -> Seq<char> {
    MANAGED_HEADER@ + "\n"@ + FISH_WRAPPER@
}

pub fn render_fish_wrapper_body() -> (r: String)
    ensures
        r@ == fish_wrapper_body(),
{
    cat3(MANAGED_HEADER, "\n", FISH_WRAPPER)
}

pub open spec fn fish_completion_body(generated: Seq<char>) -> Seq<char> {
    MANAGED_HEADER@ + "\n"@ + generated
}

pub fn render_fish_completion_body(generated: &str) -> (r: String)
    ensures
        r@ == fish_completion_body(generated@),
{
    cat3(MANAGED_HEADER, "\n", generated)
}

/// The block of an rc file that loads the managed file `init`.
pub open spec fn stanza_of(init: Seq<char>) -> Seq<char> {
    MARKER_BEGIN@ + "\n"@ + stanza_body(init) + MARKER_END@ + "\n"@
}

/// The lines between the markers.
pub open spec fn stanza_body(init: Seq<char>) -> Seq<char> {
    MANAGED_HEADER@ + ". Run `ji config shell uninstall` to remove.\n[ -f \"${XDG_CONFIG_HOME:-$HOME/.config}/ji/"@
        + init + "\" ] \\\n    && . \"${XDG_CONFIG_HOME:-$HOME/.config}/ji/"@ + init + "\"\n"@
}

pub open spec fn init_name(shell: Seq<char>) -> Option<Seq<char>> {
    if shell == "zsh"@ {
        Some("init.zsh"@)
    } else if shell == "bash"@ {
        Some("init.bash"@)
    } else {
        None
    }
}

pub open spec fn rc_stanza_spec(shell: Seq<char>) -> Result<Seq<char>, FailureV> {
    match init_name(shell) {
        Some(init) => Ok(stanza_of(init)),
        None => Err(
            failure_spec("render_rc_stanza is only defined for zsh and bash, got: "@ + shell),
        ),
    }
}

pub fn render_rc_stanza(shell: &str) -> (r: Result<String, Failure>)
    ensures
        comes_to(r, rc_stanza_spec(shell@)),
{
    let init = if same(shell, "zsh") {
        "init.zsh"
    } else if same(shell, "bash") {
        "init.bash"
    } else {
        return Err(
            failure(
                cat2("render_rc_stanza is only defined for zsh and bash, got: ", shell),
            ),
        );
    };
    let body = cat2(
        MANAGED_HEADER,
        ". Run `ji config shell uninstall` to remove.\n[ -f \"${XDG_CONFIG_HOME:-$HOME/.config}/ji/",
    );
    let body = cat5(
        &body,
        init,
        "\" ] \\\n    && . \"${XDG_CONFIG_HOME:-$HOME/.config}/ji/",
        init,
        "\"\n",
    );
    Ok(cat5(MARKER_BEGIN, "\n", &body, MARKER_END, "\n"))
}

pub fn is_managed(s: &str) -> (r: bool)
    ensures
        r == contains_spec(s@, MANAGED_HEADER@),
{
    contains(s, MANAGED_HEADER)
}

} // verus!
