use xtask::tool::{CheckKind, Tool};

const ALL: [(Tool, &str); 14] = [
    (Tool::Clang, "clang"),
    (Tool::ClangPlusPlus, "clang++"),
    (Tool::Clangd, "clangd"),
    (Tool::ClangFormat, "clang-format"),
    (Tool::ClangTidy, "clang-tidy"),
    (Tool::CargoClippy, "cargo-clippy"),
    (Tool::CargoDoc, "cargo-doc"),
    (Tool::CargoFmt, "cargo-fmt"),
    (Tool::CargoMiri, "cargo-miri"),
    (Tool::CargoTarpaulin, "cargo-tarpaulin"),
    (Tool::CargoUdeps, "cargo-udeps"),
    (Tool::CargoValgrind, "cargo-valgrind"),
    (Tool::Cmake, "cmake"),
    (Tool::Ninja, "ninja"),
];

fn plan(tool: Tool) -> Vec<(CheckKind, &'static str)> {
    (0..tool.checks()).map(|i| tool.check_at(i)).map(|c| (c.kind, c.subject)).collect()
}

#[test]
fn every_tool_goes_by_its_name() {
    for (tool, name) in ALL {
        assert_eq!(tool.as_str(), name);
        assert_eq!(Tool::parse(name), Some(tool));
    }
}

#[test]
fn other_names_are_no_tools() {
    for name in ["frobnicate", "", "Clang", "clang ", "cargo", "cargo-docs", "run-clang-tidy", "python3"] {
        assert_eq!(Tool::parse(name), None, "{name:?}");
    }
}

#[test]
fn compiler_tools_take_one_resolution() {
    for tool in [Tool::Clang, Tool::ClangPlusPlus, Tool::Clangd] {
        assert_eq!(plan(tool), vec![(CheckKind::ClangTool, tool.as_str())]);
    }
}

#[test]
fn the_formatter_needs_the_launcher_and_the_script() {
    assert_eq!(
        plan(Tool::ClangFormat),
        vec![
            (CheckKind::ClangTool, "clang-format"),
            (CheckKind::Python3, "python3"),
            (CheckKind::XtaskBin, "run-clang-format.py"),
        ]
    );
}

#[test]
fn the_analyzer_needs_its_driver() {
    assert_eq!(
        plan(Tool::ClangTidy),
        vec![(CheckKind::ClangTool, "clang-tidy"), (CheckKind::ClangTool, "run-clang-tidy")]
    );
}

#[test]
fn the_other_tools_take_one_probe() {
    for tool in [Tool::CargoClippy, Tool::CargoDoc, Tool::CargoFmt, Tool::CargoMiri] {
        assert_eq!(plan(tool), vec![(CheckKind::CargoComponent, tool.as_str())]);
    }
    for tool in [Tool::CargoTarpaulin, Tool::CargoUdeps, Tool::CargoValgrind] {
        assert_eq!(plan(tool), vec![(CheckKind::CargoTool, tool.as_str())]);
    }
    for tool in [Tool::Cmake, Tool::Ninja] {
        assert_eq!(plan(tool), vec![(CheckKind::OtherTool, tool.as_str())]);
    }
}
