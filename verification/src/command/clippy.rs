//! The lint task.

use crate::command::{cargo, cargo_invocation, literals, Invocation, InvocationView};
use crate::tool::Tool;
use crate::validation::Validation;
use vstd::prelude::*;

verus! {

/// The logical tool that the lint task needs.
pub open spec fn clippy_tool() -> Seq<char> {
    "cargo-clippy"@
}

/// The name of the logical tool that the lint task needs.
pub fn tool() -> (name: &'static str)
    ensures
        name@ == clippy_tool(),
{
    "cargo-clippy"
}

/// The tool that the lint task needs is one that validation knows.
pub proof fn lemma_tool_is_known()
    ensures
        Tool::named(clippy_tool()) == Some(Tool::CargoClippy),
{
    crate::tool::lemma_named_by_name(Tool::CargoClippy);
}

/// The command line of the lint task: the lints run on the project's own
/// packages, and every warning counts as an error.
pub open spec fn clippy_invocation(
    toolchain: Seq<char>,
    env_vars: Map<Seq<char>, Seq<char>>,
) -> InvocationView {
    cargo_invocation(
        toolchain,
        "clippy"@,
        seq!["--package"@, "xtask"@, "--package"@, "cxx-auto"@],
        seq!["--"@, "-D"@, "warnings"@],
        env_vars,
    )
}

/// The process of the lint task, under the release channel `toolchain` and
/// the variables of the overlay of the validated lint runner.
pub fn clippy(toolchain: &str, validation: Validation) -> (invocation: Invocation)
    requires
        validation.wf(),
    ensures
        invocation.wf(),
        invocation@ == clippy_invocation(toolchain@, validation@.env_vars),
{
    let front = ["--package", "xtask", "--package", "cxx-auto"];
    let back = ["--", "-D", "warnings"];
    assert(literals(front@) =~= seq!["--package"@, "xtask"@, "--package"@, "cxx-auto"@]);
    assert(literals(back@) =~= seq!["--"@, "-D"@, "warnings"@]);
    cargo(toolchain, "clippy", &front, &back, validation.env_vars)
}

} // verus!
