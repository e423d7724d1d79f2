//! The documentation task.

use crate::command::{cargo, cargo_invocation, literals, Invocation, InvocationView};
use crate::tool::Tool;
use crate::validation::Validation;
use vstd::prelude::*;

verus! {

/// The logical tool that the documentation task needs.
pub open spec fn doc_tool() -> Seq<char> {
    "cargo-doc"@
}

/// The name of the logical tool that the documentation task needs.
pub fn tool() -> (name: &'static str)
    ensures
        name@ == doc_tool(),
{
    "cargo-doc"
}

/// The tool that the documentation task needs is one that validation knows.
pub proof fn lemma_tool_is_known()
    ensures
        Tool::named(doc_tool()) == Some(Tool::CargoDoc),
{
    crate::tool::lemma_named_by_name(Tool::CargoDoc);
}

/// The command line of the documentation task.
pub open spec fn doc_invocation(
    toolchain: Seq<char>,
    env_vars: Map<Seq<char>, Seq<char>>,
) -> InvocationView {
    cargo_invocation(toolchain, "doc"@, Seq::empty(), Seq::empty(), env_vars)
}

/// The process of the documentation task, under the release channel
/// `toolchain` and the variables of the overlay of the validated
/// documentation generator.
pub fn doc(toolchain: &str, validation: Validation) -> (invocation: Invocation)
    requires
        validation.wf(),
    ensures
        invocation.wf(),
        invocation@ == doc_invocation(toolchain@, validation@.env_vars),
{
    let none: [&str; 0] = [];
    assert(literals(none@) =~= Seq::<Seq<char>>::empty());
    cargo(toolchain, "doc", &none, &none, validation.env_vars)
}

} // verus!
