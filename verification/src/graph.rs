//! The shape of the revision graph.

use vstd::prelude::*;

use crate::jj_run::{jj, jj_spec, log_args, log_args_spec};
use crate::jujutsu::TMPL_ID_LINE;
use crate::tape::{agrees, bind, context, context_spec, Act, Out, Stop, Tape, Trace};
use crate::text::{cat3, cat7, empty, trim, trim_spec, Cut};

verus! {

/// Non-empty children of the chain `lca..src_eff` that are not in it, those of its end left out.
pub open spec fn forks(lca: Seq<char>, src_eff: Seq<char>) -> Seq<char> {
    let chain = lca + ".."@ + src_eff;
    "(children(("@ + chain + ") ~ "@ + src_eff + ") ~ ("@ + chain + ")) ~ empty()"@
}

fn fork_revset(lca: &str, src_eff: &str) -> (r: String)
    ensures
        r@ == forks(lca@, src_eff@),
{
    let chain = cat3(lca, "..", src_eff);
    cat7("(children((", &chain, ") ~ ", src_eff, ") ~ (", &chain, ")) ~ empty()")
}

#[verifier::opaque]
pub open spec fn is_effectively_linear_spec(
    t: Trace,
    repo: Seq<char>,
    lca: Seq<char>,
    src_eff: Seq<char>,
) -> Out<bool> {
    bind(
        context_spec(
            jj_spec(t, Act::JjRepo, repo, log_args_spec(forks(lca, src_eff), TMPL_ID_LINE@)),
            "check effective linearity"@,
        ),
        |out: Seq<char>, t: Trace| Out::Got(trim_spec(out, Cut::White).len() == 0, t),
    )
}

/// Is the range from `lca` to `src_eff` closed, so that no work forks off it? Forks that rejoin are
/// fine.
pub fn is_effectively_linear(
    tape: &mut Tape,
    repo: &str,
    lca: &str,
    src_eff: &str,
) -> (r: Result<bool, Stop>)
    ensures
        agrees(r, final(tape)@, is_effectively_linear_spec(old(tape)@, repo@, lca@, src_eff@)),
{
    reveal(is_effectively_linear_spec);
    let out = context(
        jj(tape, Act::JjRepo, repo, log_args(&fork_revset(lca, src_eff), TMPL_ID_LINE)),
        "check effective linearity",
    )?;
    Ok(empty(&trim(&out, Cut::White)))
}

} // verus!
