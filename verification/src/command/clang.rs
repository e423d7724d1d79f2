//! The tasks that run the formatter and the static analyzer of the compiler
//! suite on the project's native code.

use crate::command::{push_passed_on, Invocation, InvocationView};
use crate::error::{ErrorKind, ErrorView, ValidationError};
use crate::probe::{arg_views, ArgView, ProbeArg};
use crate::tool::Tool;
use crate::text::{join2, join3, same};
use crate::validation::{Validation, ValidationView};
use vstd::prelude::*;

verus! {

/// What has to be done before the process of a task is started.
#[derive(Clone, Copy, Debug, PartialEq, Eq, Structural)]
pub enum Preparation {
    /// Nothing.
    Nothing,
    /// The project is built, so that the analyzer finds the compilation
    /// database.
    Build,
}

/// The logical tool that the subcommand needs.
pub open spec fn clang_tool(subcommand: Seq<char>) -> Seq<char> {
    "clang-"@ + subcommand
}

/// The error for a subcommand that the task does not have.
pub open spec fn unrecognized_subcommand(subcommand: Seq<char>) -> ErrorView {
    ErrorView {
        kind: ErrorKind::UnrecognizedTool,
        message: "unrecognized clang subcommand `"@ + subcommand + "`"@,
    }
}

/// The name of the binary that stands for `tool`: the one that validation
/// mapped it to, or its own.
pub open spec fn resolved_name(tools: Map<Seq<char>, Seq<char>>, tool: Seq<char>) -> Seq<char> {
    if tools.contains_key(tool) {
        tools[tool]
    } else {
        tool
    }
}

/// What a subcommand runs, and what has to be done before: `format` runs the
/// formatting script under its launcher; `tidy` builds the project and then
/// runs the analyzer's driver, under the name that validation found for it.
/// Both get what the user passed on, and the variables of the overlay.
pub open spec fn clang_invocation(subcommand: Seq<char>, validation: ValidationView) -> Result<
    (Preparation, InvocationView),
    ErrorView,
> {
    if subcommand == "format"@ {
        Ok(
            (
                Preparation::Nothing,
                InvocationView {
                    program: "python3"@,
                    args: seq![ArgView::HelperScript("run-clang-format.py"@), ArgView::PassedOn],
                    env_vars: validation.env_vars,
                    in_project_root: false,
                },
            ),
        )
    } else if subcommand == "tidy"@ {
        Ok(
            (
                Preparation::Build,
                InvocationView {
                    program: resolved_name(validation.tools, "run-clang-tidy"@),
                    args: seq![ArgView::PassedOn],
                    env_vars: validation.env_vars,
                    in_project_root: false,
                },
            ),
        )
    } else {
        Err(unrecognized_subcommand(subcommand))
    }
}

/// The tools that the two subcommands need are tools that validation knows.
pub proof fn lemma_tools_are_known()
    ensures
        Tool::named(clang_tool("format"@)) == Some(Tool::ClangFormat),
        Tool::named(clang_tool("tidy"@)) == Some(Tool::ClangTidy),
{
    reveal_strlit("clang-");
    reveal_strlit("format");
    reveal_strlit("tidy");
    reveal_strlit("clang-format");
    reveal_strlit("clang-tidy");
    assert("clang-"@ + "format"@ =~= "clang-format"@);
    assert("clang-"@ + "tidy"@ =~= "clang-tidy"@);
    crate::tool::lemma_named_by_name(Tool::ClangFormat);
    crate::tool::lemma_named_by_name(Tool::ClangTidy);
}

/// The name of the logical tool that `subcommand` needs.
pub fn tool_for(subcommand: &str) -> (tool: String)
    ensures
        tool@ == clang_tool(subcommand@),
{
    join2("clang-", subcommand)
}

/// A task and what precedes it, or an error, as plain mathematical data.
pub open spec fn task_view(r: Result<(Preparation, Invocation), ValidationError>) -> Result<
    (Preparation, InvocationView),
    ErrorView,
> {
    match r {
        Ok((p, i)) => Ok((p, i@)),
        Err(e) => Err(e@),
    }
}

/// The process of the subcommand, under the overlay of its validated tools.
pub fn clang(subcommand: &str, validation: Validation) -> (r: Result<
    (Preparation, Invocation),
    ValidationError,
>)
    requires
        validation.wf(),
    ensures
        r matches Ok(task) ==> task.1.wf(),
        task_view(r) == clang_invocation(subcommand@, validation@),
{
    let mut args: Vec<ProbeArg> = Vec::new();
    assert(arg_views(args@) =~= Seq::<ArgView>::empty());
    if same(subcommand, "format") {
        args.push(ProbeArg::HelperScript(String::from_str("run-clang-format.py")));
        assert(arg_views(args@) =~= seq![ArgView::HelperScript("run-clang-format.py"@)]);
        push_passed_on(&mut args);
        assert(arg_views(args@) =~= seq![
            ArgView::HelperScript("run-clang-format.py"@),
            ArgView::PassedOn,
        ]);
        Ok(
            (
                Preparation::Nothing,
                Invocation {
                    program: String::from_str("python3"),
                    args,
                    env_vars: validation.env_vars,
                    in_project_root: false,
                },
            ),
        )
    } else if same(subcommand, "tidy") {
        push_passed_on(&mut args);
        assert(arg_views(args@) =~= seq![ArgView::PassedOn]);
        let program = match validation.tools.get("run-clang-tidy") {
            Some(name) => name.clone(),
            None => String::from_str("run-clang-tidy"),
        };
        Ok(
            (
                Preparation::Build,
                Invocation {
                    program,
                    args,
                    env_vars: validation.env_vars,
                    in_project_root: false,
                },
            ),
        )
    } else {
        Err(
            ValidationError::reported(
                ErrorKind::UnrecognizedTool,
                join3("unrecognized clang subcommand `", subcommand, "`"),
            ),
        )
    }
}

} // verus!
