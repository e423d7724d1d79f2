//! The logical tools that can be asked for, and the checks that each of them
//! takes.

use crate::text::same;
use vstd::prelude::*;

verus! {

/// A logical tool: what a task asks for, whatever the binary on disk is
/// called.
#[derive(Clone, Copy, Debug, PartialEq, Eq, Structural)]
pub enum Tool {
    Clang,
    ClangPlusPlus,
    Clangd,
    ClangFormat,
    ClangTidy,
    CargoClippy,
    CargoDoc,
    CargoFmt,
    CargoMiri,
    CargoTarpaulin,
    CargoUdeps,
    CargoValgrind,
    Cmake,
    Ninja,
}

/// How a check finds out whether its subject is usable.
#[derive(Clone, Copy, Debug, PartialEq, Eq, Structural)]
pub enum CheckKind {
    /// A tool of the compiler suite: several candidates are tried in turn.
    ClangTool,
    /// A component of the package manager's toolchain.
    CargoComponent,
    /// A subcommand of the package manager that is installed on its own.
    CargoTool,
    /// A standalone tool.
    OtherTool,
    /// The launcher of the language runtime that runs the helper scripts.
    Python3,
    /// A helper script, which is fetched where it is missing.
    XtaskBin,
}

/// One check of a plan: its kind and the name of what it checks.
#[derive(Clone, Copy, Debug)]
pub struct Check {
    pub kind: CheckKind,
    pub subject: &'static str,
}

/// A check with its subject as a sequence of characters.
pub struct CheckView {
    pub kind: CheckKind,
    pub subject: Seq<char>,
}

impl View for Check {
    type V = CheckView;

    open spec fn view(&self) -> CheckView {
        CheckView { kind: self.kind, subject: self.subject@ }
    }
}

impl Tool {
    /// The name under which the tool is asked for.
    pub open spec fn name(self) -> Seq<char> {
        match self {
            Tool::Clang => "clang"@,
            Tool::ClangPlusPlus => "clang++"@,
            Tool::Clangd => "clangd"@,
            Tool::ClangFormat => "clang-format"@,
            Tool::ClangTidy => "clang-tidy"@,
            Tool::CargoClippy => "cargo-clippy"@,
            Tool::CargoDoc => "cargo-doc"@,
            Tool::CargoFmt => "cargo-fmt"@,
            Tool::CargoMiri => "cargo-miri"@,
            Tool::CargoTarpaulin => "cargo-tarpaulin"@,
            Tool::CargoUdeps => "cargo-udeps"@,
            Tool::CargoValgrind => "cargo-valgrind"@,
            Tool::Cmake => "cmake"@,
            Tool::Ninja => "ninja"@,
        }
    }

    /// The tool that goes by `name`, if there is one.
    pub open spec fn named(name: Seq<char>) -> Option<Tool> {
        if name == "clang"@ {
            Some(Tool::Clang)
        } else if name == "clang++"@ {
            Some(Tool::ClangPlusPlus)
        } else if name == "clangd"@ {
            Some(Tool::Clangd)
        } else if name == "clang-format"@ {
            Some(Tool::ClangFormat)
        } else if name == "clang-tidy"@ {
            Some(Tool::ClangTidy)
        } else if name == "cargo-clippy"@ {
            Some(Tool::CargoClippy)
        } else if name == "cargo-doc"@ {
            Some(Tool::CargoDoc)
        } else if name == "cargo-fmt"@ {
            Some(Tool::CargoFmt)
        } else if name == "cargo-miri"@ {
            Some(Tool::CargoMiri)
        } else if name == "cargo-tarpaulin"@ {
            Some(Tool::CargoTarpaulin)
        } else if name == "cargo-udeps"@ {
            Some(Tool::CargoUdeps)
        } else if name == "cargo-valgrind"@ {
            Some(Tool::CargoValgrind)
        } else if name == "cmake"@ {
            Some(Tool::Cmake)
        } else if name == "ninja"@ {
            Some(Tool::Ninja)
        } else {
            None
        }
    }

    /// The checks that the tool takes, in the order in which they are made.
    pub open spec fn plan(self) -> Seq<CheckView> {
        match self {
            Tool::Clang | Tool::ClangPlusPlus | Tool::Clangd => seq![
                CheckView { kind: CheckKind::ClangTool, subject: self.name() },
            ],
            Tool::ClangFormat => seq![
                CheckView { kind: CheckKind::ClangTool, subject: self.name() },
                CheckView { kind: CheckKind::Python3, subject: "python3"@ },
                CheckView { kind: CheckKind::XtaskBin, subject: "run-clang-format.py"@ },
            ],
            Tool::ClangTidy => seq![
                CheckView { kind: CheckKind::ClangTool, subject: self.name() },
                CheckView { kind: CheckKind::ClangTool, subject: "run-clang-tidy"@ },
            ],
            Tool::CargoClippy | Tool::CargoDoc | Tool::CargoFmt | Tool::CargoMiri => seq![
                CheckView { kind: CheckKind::CargoComponent, subject: self.name() },
            ],
            Tool::CargoTarpaulin | Tool::CargoUdeps | Tool::CargoValgrind => seq![
                CheckView { kind: CheckKind::CargoTool, subject: self.name() },
            ],
            Tool::Cmake | Tool::Ninja => seq![
                CheckView { kind: CheckKind::OtherTool, subject: self.name() },
            ],
        }
    }

    /// The name under which the tool is asked for.
    pub fn as_str(self) -> (name: &'static str)
        ensures
            name@ == self.name(),
    {
        match self {
            Tool::Clang => "clang",
            Tool::ClangPlusPlus => "clang++",
            Tool::Clangd => "clangd",
            Tool::ClangFormat => "clang-format",
            Tool::ClangTidy => "clang-tidy",
            Tool::CargoClippy => "cargo-clippy",
            Tool::CargoDoc => "cargo-doc",
            Tool::CargoFmt => "cargo-fmt",
            Tool::CargoMiri => "cargo-miri",
            Tool::CargoTarpaulin => "cargo-tarpaulin",
            Tool::CargoUdeps => "cargo-udeps",
            Tool::CargoValgrind => "cargo-valgrind",
            Tool::Cmake => "cmake",
            Tool::Ninja => "ninja",
        }
    }

    /// The tool that goes by `name`; nothing for a name that no tool has.
    pub fn parse(name: &str) -> (tool: Option<Tool>)
        ensures
            tool == Tool::named(name@),
    {
        if same(name, "clang") {
            Some(Tool::Clang)
        } else if same(name, "clang++") {
            Some(Tool::ClangPlusPlus)
        } else if same(name, "clangd") {
            Some(Tool::Clangd)
        } else if same(name, "clang-format") {
            Some(Tool::ClangFormat)
        } else if same(name, "clang-tidy") {
            Some(Tool::ClangTidy)
        } else if same(name, "cargo-clippy") {
            Some(Tool::CargoClippy)
        } else if same(name, "cargo-doc") {
            Some(Tool::CargoDoc)
        } else if same(name, "cargo-fmt") {
            Some(Tool::CargoFmt)
        } else if same(name, "cargo-miri") {
            Some(Tool::CargoMiri)
        } else if same(name, "cargo-tarpaulin") {
            Some(Tool::CargoTarpaulin)
        } else if same(name, "cargo-udeps") {
            Some(Tool::CargoUdeps)
        } else if same(name, "cargo-valgrind") {
            Some(Tool::CargoValgrind)
        } else if same(name, "cmake") {
            Some(Tool::Cmake)
        } else if same(name, "ninja") {
            Some(Tool::Ninja)
        } else {
            None
        }
    }

    /// The number of checks that the tool takes.
    pub fn checks(self) -> (n: usize)
        ensures
            n == self.plan().len(),
            1 <= n <= 3,
    {
        match self {
            Tool::ClangFormat => 3,
            Tool::ClangTidy => 2,
            _ => 1,
        }
    }

    /// The check at position `step` of the tool's plan.
    pub fn check_at(self, step: usize) -> (check: Check)
        requires
            step < self.plan().len(),
        ensures
            check@ == self.plan()[step as int],
    {
        match self {
            Tool::Clang | Tool::ClangPlusPlus | Tool::Clangd => Check {
                kind: CheckKind::ClangTool,
                subject: self.as_str(),
            },
            Tool::ClangFormat => if step == 0 {
                Check { kind: CheckKind::ClangTool, subject: self.as_str() }
            } else if step == 1 {
                Check { kind: CheckKind::Python3, subject: "python3" }
            } else {
                Check { kind: CheckKind::XtaskBin, subject: "run-clang-format.py" }
            },
            Tool::ClangTidy => if step == 0 {
                Check { kind: CheckKind::ClangTool, subject: self.as_str() }
            } else {
                Check { kind: CheckKind::ClangTool, subject: "run-clang-tidy" }
            },
            Tool::CargoClippy | Tool::CargoDoc | Tool::CargoFmt | Tool::CargoMiri => Check {
                kind: CheckKind::CargoComponent,
                subject: self.as_str(),
            },
            Tool::CargoTarpaulin | Tool::CargoUdeps | Tool::CargoValgrind => Check {
                kind: CheckKind::CargoTool,
                subject: self.as_str(),
            },
            Tool::Cmake | Tool::Ninja => Check { kind: CheckKind::OtherTool, subject: self.as_str() },
        }
    }
}

/// Every tool is found again by its own name.
pub proof fn lemma_named_by_name(tool: Tool)
    ensures
        Tool::named(tool.name()) == Some(tool),
{
    reveal_strlit("clang");
    reveal_strlit("clang++");
    reveal_strlit("clangd");
    reveal_strlit("clang-format");
    reveal_strlit("clang-tidy");
    reveal_strlit("cargo-clippy");
    reveal_strlit("cargo-doc");
    reveal_strlit("cargo-fmt");
    reveal_strlit("cargo-miri");
    reveal_strlit("cargo-tarpaulin");
    reveal_strlit("cargo-udeps");
    reveal_strlit("cargo-valgrind");
    reveal_strlit("cmake");
    reveal_strlit("ninja");
    assert("clang"@.len() == 5 && "cmake"@.len() == 5 && "ninja"@.len() == 5);
    assert("clang++"@.len() == 7 && "clangd"@.len() == 6);
    assert("clang-format"@.len() == 12 && "cargo-clippy"@.len() == 12);
    assert("clang-tidy"@.len() == 10 && "cargo-miri"@.len() == 10);
    assert("cargo-fmt"@.len() == 9 && "cargo-tarpaulin"@.len() == 15);
    assert("cargo-doc"@.len() == 9);
    assert("cargo-doc"@[6] != "cargo-fmt"@[6]);
    assert("cargo-udeps"@.len() == 11 && "cargo-valgrind"@.len() == 14);
    assert("clang"@[1] != "cmake"@[1]);
    assert("clang"@[0] != "ninja"@[0]);
    assert("cmake"@[0] != "ninja"@[0]);
    assert("clang-format"@[1] != "cargo-clippy"@[1]);
    assert("clang-tidy"@[1] != "cargo-miri"@[1]);
}

/// Every check has a subject with a name.
pub proof fn lemma_subjects_are_named(tool: Tool, step: int)
    requires
        0 <= step < tool.plan().len(),
    ensures
        tool.plan()[step].subject.len() > 0,
{
    reveal_strlit("clang");
    reveal_strlit("clang++");
    reveal_strlit("clangd");
    reveal_strlit("clang-format");
    reveal_strlit("clang-tidy");
    reveal_strlit("cargo-clippy");
    reveal_strlit("cargo-doc");
    reveal_strlit("cargo-fmt");
    reveal_strlit("cargo-miri");
    reveal_strlit("cargo-tarpaulin");
    reveal_strlit("cargo-udeps");
    reveal_strlit("cargo-valgrind");
    reveal_strlit("cmake");
    reveal_strlit("ninja");
    reveal_strlit("python3");
    reveal_strlit("run-clang-format.py");
    reveal_strlit("run-clang-tidy");
}

} // verus!
