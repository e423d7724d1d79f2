//! Why a validation failed: a kind for callers to react to, and a message
//! for the user.

use crate::text::join3;
use vstd::prelude::*;

verus! {

/// The ways in which a validation fails.
#[derive(Clone, Copy, Debug, PartialEq, Eq, Structural)]
pub enum ErrorKind {
    /// The binary is not in any search location.
    NotFound,
    /// The operating system could not start the binary for another reason.
    SpawnFailed,
    /// The binary ran and exited non-zero.
    ProbeFailed,
    /// The binary's output is not valid text.
    OutputUndecodable,
    /// The reported version does not begin with the required one.
    VersionMismatch,
    /// The version pattern matches nowhere in the output.
    UnrecognizedToolchainVendor,
    /// No resolution strategy is known for the tool.
    UnrecognizedTool,
    /// The configuration does not know the toolchain component.
    UnrecognizedComponent,
    /// The configured version pattern is not a regular expression.
    InvalidMatcher,
    /// A helper script could not be fetched.
    FetchFailed,
    /// The search path of the machine could not be looked up.
    LookupFailed,
    /// The compiler release channel is not installed.
    ToolchainChannelMissing,
}

/// A failed validation.
#[derive(Clone, Debug, PartialEq, Eq)]
pub struct ValidationError {
    pub kind: ErrorKind,
    pub message: String,
}

/// A failed validation, with its message as a sequence of characters.
pub struct ErrorView {
    pub kind: ErrorKind,
    pub message: Seq<char>,
}

impl View for ValidationError {
    type V = ErrorView;

    open spec fn view(&self) -> ErrorView {
        ErrorView { kind: self.kind, message: self.message@ }
    }
}

/// The error for a binary that is in no search location.
pub open spec fn not_found(tool: Seq<char>) -> ErrorView {
    ErrorView { kind: ErrorKind::NotFound, message: "could not find `"@ + tool + "` in path"@ }
}

/// The error for a command line that exited non-zero.
pub open spec fn probe_failed(command: Seq<char>) -> ErrorView {
    ErrorView {
        kind: ErrorKind::ProbeFailed,
        message: "`"@ + command + "` failed with non-zero exit code"@,
    }
}

/// The error for output that is not valid UTF-8.
pub open spec fn output_undecodable() -> ErrorView {
    ErrorView { kind: ErrorKind::OutputUndecodable, message: "output is not valid UTF-8"@ }
}

/// The error for a version that does not begin with the required one.
pub open spec fn version_mismatch(
    tool: Seq<char>,
    expected: Seq<char>,
    actual: Seq<char>,
) -> ErrorView {
    ErrorView {
        kind: ErrorKind::VersionMismatch,
        message: "`"@ + tool + "` failed validation; expected version compatible with `"@
            + expected + "` but found `"@ + actual + "`"@,
    }
}

/// The error for output in which the version pattern matches nowhere.
pub open spec fn unrecognized_vendor(tool: Seq<char>) -> ErrorView {
    ErrorView {
        kind: ErrorKind::UnrecognizedToolchainVendor,
        message: "`"@ + tool
            + "` failed validation; ensure you are using the official clang toolchain"@,
    }
}

/// The error for a tool that has no resolution strategy.
pub open spec fn unrecognized_tool(tool: Seq<char>) -> ErrorView {
    ErrorView { kind: ErrorKind::UnrecognizedTool, message: "unrecognized tool: `"@ + tool + "`"@ }
}

/// The error for a toolchain component that the configuration lacks.
pub open spec fn unrecognized_component(component: Seq<char>) -> ErrorView {
    ErrorView {
        kind: ErrorKind::UnrecognizedComponent,
        message: "unrecognized component: `"@ + component + "`"@,
    }
}

/// The error for a helper script that has no known source.
pub open spec fn unrecognized_xtask_bin(name: Seq<char>) -> ErrorView {
    ErrorView { kind: ErrorKind::UnrecognizedTool, message: "unrecognized xtask bin `"@ + name + "`"@ }
}

/// The error of a resolution whose last candidate failed as `cause` says.
pub open spec fn unresolved(cause: ErrorKind, tool: Seq<char>) -> ErrorView {
    ErrorView { kind: cause, message: "could not validate tool: `"@ + tool + "`"@ }
}

/// The error for a release channel that is not installed. Its message
/// suggests the command that installs it.
pub open spec fn toolchain_missing(toolchain: Seq<char>) -> ErrorView {
    ErrorView {
        kind: ErrorKind::ToolchainChannelMissing,
        message: "could not find toolchain `"@ + toolchain
            + "`\nPerhaps you need to install it with `rustup install toolchain "@ + toolchain
            + "`?"@,
    }
}

/// An error of the given kind that passes a message on as it came.
pub open spec fn reported(kind: ErrorKind, message: Seq<char>) -> ErrorView {
    ErrorView { kind, message }
}

impl ValidationError {
    /// The message for the user.
    pub fn to_string(&self) -> (text: String)
        ensures
            text@ == self@.message,
    {
        self.message.clone()
    }

    pub fn not_found(tool: &str) -> (e: Self)
        ensures
            e@ == not_found(tool@),
    {
        ValidationError {
            kind: ErrorKind::NotFound,
            message: join3("could not find `", tool, "` in path"),
        }
    }

    pub fn probe_failed(command: &str) -> (e: Self)
        ensures
            e@ == probe_failed(command@),
    {
        ValidationError {
            kind: ErrorKind::ProbeFailed,
            message: join3("`", command, "` failed with non-zero exit code"),
        }
    }

    pub fn output_undecodable() -> (e: Self)
        ensures
            e@ == output_undecodable(),
    {
        ValidationError {
            kind: ErrorKind::OutputUndecodable,
            message: String::from_str("output is not valid UTF-8"),
        }
    }

    pub fn version_mismatch(tool: &str, expected: &str, actual: &str) -> (e: Self)
        ensures
            e@ == version_mismatch(tool@, expected@, actual@),
    {
        let head = join3("`", tool, "` failed validation; expected version compatible with `");
        let middle = join3(head.as_str(), expected, "` but found `");
        ValidationError {
            kind: ErrorKind::VersionMismatch,
            message: join3(middle.as_str(), actual, "`"),
        }
    }

    pub fn unrecognized_vendor(tool: &str) -> (e: Self)
        ensures
            e@ == unrecognized_vendor(tool@),
    {
        ValidationError {
            kind: ErrorKind::UnrecognizedToolchainVendor,
            message: join3(
                "`",
                tool,
                "` failed validation; ensure you are using the official clang toolchain",
            ),
        }
    }

    pub fn unrecognized_tool(tool: &str) -> (e: Self)
        ensures
            e@ == unrecognized_tool(tool@),
    {
        ValidationError {
            kind: ErrorKind::UnrecognizedTool,
            message: join3("unrecognized tool: `", tool, "`"),
        }
    }

    pub fn unrecognized_component(component: &str) -> (e: Self)
        ensures
            e@ == unrecognized_component(component@),
    {
        ValidationError {
            kind: ErrorKind::UnrecognizedComponent,
            message: join3("unrecognized component: `", component, "`"),
        }
    }

    pub fn unrecognized_xtask_bin(name: &str) -> (e: Self)
        ensures
            e@ == unrecognized_xtask_bin(name@),
    {
        ValidationError {
            kind: ErrorKind::UnrecognizedTool,
            message: join3("unrecognized xtask bin `", name, "`"),
        }
    }

    pub fn unresolved(cause: ErrorKind, tool: &str) -> (e: Self)
        ensures
            e@ == unresolved(cause, tool@),
    {
        ValidationError { kind: cause, message: join3("could not validate tool: `", tool, "`") }
    }

    pub fn toolchain_missing(toolchain: &str) -> (e: Self)
        ensures
            e@ == toolchain_missing(toolchain@),
    {
        let head = join3(
            "could not find toolchain `",
            toolchain,
            "`\nPerhaps you need to install it with `rustup install toolchain ",
        );
        ValidationError {
            kind: ErrorKind::ToolchainChannelMissing,
            message: join3(head.as_str(), toolchain, "`?"),
        }
    }

    pub fn reported(kind: ErrorKind, message: String) -> (e: Self)
        ensures
            e@ == reported(kind, message@),
    {
        ValidationError { kind, message }
    }
}

} // verus!
