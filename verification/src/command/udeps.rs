//! The task that looks for dependencies that nothing uses.

use crate::command::{cargo, cargo_invocation, literals, Invocation, InvocationView};
use crate::tool::Tool;
use crate::validation::Validation;
use vstd::prelude::*;

verus! {

/// The logical tool that the task needs.
pub open spec fn udeps_tool() -> Seq<char> {
    "cargo-udeps"@
}

/// The name of the logical tool that the task needs.
pub fn tool() -> (name: &'static str)
    ensures
        name@ == udeps_tool(),
{
    "cargo-udeps"
}

/// The tool that the task needs is one that validation knows.
pub proof fn lemma_tool_is_known()
    ensures
        Tool::named(udeps_tool()) == Some(Tool::CargoUdeps),
{
    crate::tool::lemma_named_by_name(Tool::CargoUdeps);
}

/// The command line of the task: the check runs on the project's own
/// packages.
pub open spec fn udeps_invocation(
    toolchain: Seq<char>,
    env_vars: Map<Seq<char>, Seq<char>>,
) -> InvocationView {
    cargo_invocation(
        toolchain,
        "udeps"@,
        seq!["--package"@, "xtask"@, "--package"@, "cxx-auto"@],
        Seq::empty(),
        env_vars,
    )
}

/// The process of the task, under the release channel `toolchain` and the
/// variables of the overlay of the validated dependency checker.
pub fn udeps(toolchain: &str, validation: Validation) -> (invocation: Invocation)
    requires
        validation.wf(),
    ensures
        invocation.wf(),
        invocation@ == udeps_invocation(toolchain@, validation@.env_vars),
{
    let front = ["--package", "xtask", "--package", "cxx-auto"];
    let back: [&str; 0] = [];
    assert(literals(front@) =~= seq!["--package"@, "xtask"@, "--package"@, "cxx-auto"@]);
    assert(literals(back@) =~= Seq::<Seq<char>>::empty());
    cargo(toolchain, "udeps", &front, &back, validation.env_vars)
}

} // verus!
