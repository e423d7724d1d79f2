use xtask::checks::{
    cargo_component_probe, cargo_tool_probe, check_status, other_tool_probe, python3_probe,
    validate_cargo_component, validate_cargo_tool, validate_other_tool,
    validate_python3, validate_xtask_bin, xtask_bin_probe,
    xtask_bin_source,
};
use xtask::config::xtask::{
    Xtask, XtaskClang, XtaskPlatform, XtaskPlatformMacos, XtaskRust, XtaskRustComponent,
    XtaskRustToolchain,
};
use xtask::config::Config;
use xtask::error::{ErrorKind, ValidationError};
use xtask::ordered_map::OrderedMap;
use xtask::probe::{Probe, ProbeArg, ProbeOutcome, Streams};
use xtask::validation::{rust_toolchain_probe, validate_rust_toolchain, Validation};

fn config() -> Config {
    let mut components = OrderedMap::new();
    components.insert("clippy".to_string(), XtaskRustComponent { toolchain: "nightly".to_string() });
    components.insert("fmt".to_string(), XtaskRustComponent { toolchain: "stable".to_string() });
    components.insert("rustdoc".to_string(), XtaskRustComponent { toolchain: "nightly".to_string() });
    Config {
        xtask: Xtask {
            clang: XtaskClang {
                matchers: OrderedMap::new(),
                platform: XtaskPlatform { macos: XtaskPlatformMacos { search_paths: vec![] } },
                suffix: "-16".to_string(),
                version: "16".to_string(),
            },
            rust: XtaskRust {
                components,
                toolchain: XtaskRustToolchain { nightly: "nightly-2024-01-01".to_string() },
            },
        },
        stable_toolchain: "1.75.0".to_string(),
    }
}

fn text(arg: &str) -> ProbeArg {
    ProbeArg::Text(arg.to_string())
}

fn exited(success: bool, stdout: &str) -> ProbeOutcome {
    ProbeOutcome::Exited { success, stdout: stdout.as_bytes().to_vec() }
}

fn not_found() -> ProbeOutcome {
    ProbeOutcome::NotFound { message: "No such file or directory (os error 2)".to_string() }
}

fn denied() -> ProbeOutcome {
    ProbeOutcome::SpawnFailed { message: "Permission denied (os error 13)".to_string() }
}

fn error(kind: ErrorKind, message: &str) -> ValidationError {
    ValidationError { kind, message: message.to_string() }
}

#[test]
fn the_exit_status_decides() {
    assert_eq!(check_status(Some("cmake"), "cmake", exited(true, "")), Ok(()));
    assert_eq!(check_status(None, "cmake", exited(true, "ignored")), Ok(()));
    assert_eq!(
        check_status(Some("cmake"), "cmake --help", exited(false, "")),
        Err(error(ErrorKind::ProbeFailed, "`cmake --help` failed with non-zero exit code"))
    );
}

#[test]
fn a_missing_binary_is_told_from_a_failing_one() {
    assert_eq!(
        check_status(Some("cmake"), "cmake", not_found()),
        Err(error(ErrorKind::NotFound, "could not find `cmake` in path"))
    );
    assert_eq!(
        check_status(None, "cmake", not_found()),
        Err(error(ErrorKind::NotFound, "No such file or directory (os error 2)"))
    );
    assert_eq!(
        check_status(Some("cmake"), "cmake", denied()),
        Err(error(ErrorKind::SpawnFailed, "Permission denied (os error 13)"))
    );
}

#[test]
fn a_component_is_probed_under_its_release_channel() {
    let config = config();
    assert_eq!(
        cargo_component_probe(&config, "cargo-clippy"),
        Ok(Probe {
            program: "cargo".to_string(),
            args: vec![text("+nightly-2024-01-01"), text("clippy"), text("--help")],
            env_vars: OrderedMap::new(),
            streams: Streams::DiscardStdout,
        })
    );
    assert_eq!(
        cargo_component_probe(&config, "cargo-fmt").unwrap().args,
        vec![text("+1.75.0"), text("fmt"), text("--help")]
    );
    assert_eq!(
        cargo_component_probe(&config, "fmt").unwrap().args,
        vec![text("+1.75.0"), text("fmt"), text("--help")]
    );
}

#[test]
fn the_documentation_generator_is_listed_as_rustdoc() {
    let config = config();
    assert_eq!(
        cargo_component_probe(&config, "cargo-doc").unwrap().args,
        vec![text("+nightly-2024-01-01"), text("doc"), text("--help")]
    );
    assert_eq!(validate_cargo_component(&config, "cargo-doc", exited(true, "")), Ok(()));
}

#[test]
fn an_unlisted_component_is_an_error() {
    let config = config();
    let expected = error(ErrorKind::UnrecognizedComponent, "unrecognized component: `miri`");
    assert_eq!(cargo_component_probe(&config, "cargo-miri"), Err(expected.clone()));
    assert_eq!(validate_cargo_component(&config, "cargo-miri", exited(true, "")), Err(expected));
    assert_eq!(
        validate_cargo_component(&config, "cargo-", exited(true, "")),
        Err(error(ErrorKind::UnrecognizedComponent, "unrecognized component: ``"))
    );
}

#[test]
fn a_failing_component_names_its_command_line() {
    let config = config();
    assert_eq!(validate_cargo_component(&config, "cargo-clippy", exited(true, "")), Ok(()));
    assert_eq!(
        validate_cargo_component(&config, "cargo-clippy", exited(false, "")),
        Err(error(
            ErrorKind::ProbeFailed,
            "`cargo +nightly-2024-01-01 clippy --help` failed with non-zero exit code"
        ))
    );
    assert_eq!(
        validate_cargo_component(&config, "cargo-fmt", not_found()),
        Err(error(ErrorKind::NotFound, "No such file or directory (os error 2)"))
    );
}

#[test]
fn a_subcommand_is_asked_for_help() {
    assert_eq!(
        cargo_tool_probe("cargo-udeps"),
        Probe {
            program: "cargo-udeps".to_string(),
            args: vec![text("--help")],
            env_vars: OrderedMap::new(),
            streams: Streams::DiscardStdout,
        }
    );
    assert_eq!(validate_cargo_tool("cargo-udeps", exited(true, "")), Ok(()));
    assert_eq!(
        validate_cargo_tool("cargo-udeps", not_found()),
        Err(error(ErrorKind::NotFound, "could not find `cargo-udeps` in path"))
    );
    assert_eq!(
        validate_cargo_tool("cargo-udeps", exited(false, "")),
        Err(error(ErrorKind::ProbeFailed, "`cargo-udeps` failed with non-zero exit code"))
    );
    assert_eq!(
        validate_cargo_tool("cargo-udeps", denied()),
        Err(error(ErrorKind::SpawnFailed, "Permission denied (os error 13)"))
    );
}

#[test]
fn ninja_is_asked_for_its_version() {
    let mut env_vars = OrderedMap::new();
    env_vars.insert("CC".to_string(), "clang-16".to_string());
    let ninja = other_tool_probe("ninja", env_vars.clone());
    assert_eq!(ninja.program, "ninja");
    assert_eq!(ninja.args, vec![text("--version")]);
    assert_eq!(ninja.env_vars, env_vars);
    assert_eq!(ninja.streams, Streams::DiscardBoth);
    let cmake = other_tool_probe("cmake", OrderedMap::new());
    assert_eq!(cmake.args, vec![text("--help")]);
    assert!(cmake.env_vars.is_empty());
}

#[test]
fn a_standalone_tool_yields_the_empty_overlay() {
    assert_eq!(validate_other_tool("cmake", exited(true, "")), Ok(Validation::default()));
    assert_eq!(
        validate_other_tool("cmake", not_found()),
        Err(error(ErrorKind::NotFound, "could not find `cmake` in path"))
    );
    assert_eq!(
        validate_other_tool("ninja", exited(false, "")),
        Err(error(ErrorKind::ProbeFailed, "`ninja` failed with non-zero exit code"))
    );
}

#[test]
fn the_launcher_is_asked_for_help() {
    assert_eq!(
        python3_probe(),
        Probe {
            program: "python3".to_string(),
            args: vec![text("--help")],
            env_vars: OrderedMap::new(),
            streams: Streams::DiscardStdout,
        }
    );
    assert_eq!(validate_python3(exited(true, "usage")), Ok(()));
    assert_eq!(
        validate_python3(not_found()),
        Err(error(ErrorKind::NotFound, "could not find `python3` in path"))
    );
    assert_eq!(
        validate_python3(exited(false, "")),
        Err(error(ErrorKind::ProbeFailed, "`python3` failed with non-zero exit code"))
    );
}

#[test]
fn a_helper_script_runs_under_the_launcher() {
    assert_eq!(
        xtask_bin_probe("run-clang-format.py"),
        Ok(Probe {
            program: "python3".to_string(),
            args: vec![ProbeArg::HelperScript("run-clang-format.py".to_string()), text("--help")],
            env_vars: OrderedMap::new(),
            streams: Streams::DiscardBoth,
        })
    );
    assert_eq!(validate_xtask_bin("run-clang-format.py", true, exited(true, "")), Ok(None));
}

#[test]
fn a_helper_script_that_fails_is_to_be_fetched() {
    let url = "https://raw.githubusercontent.com/Sarcasm/run-clang-format/master/run-clang-format.py";
    assert_eq!(xtask_bin_source("run-clang-format.py"), Some(url));
    assert_eq!(
        validate_xtask_bin("run-clang-format.py", true, exited(false, "")),
        Ok(Some(url.to_string()))
    );
    for retry in [true, false] {
        assert_eq!(
            validate_xtask_bin("run-clang-format.py", retry, not_found()),
            Err(error(ErrorKind::NotFound, "No such file or directory (os error 2)"))
        );
        assert_eq!(
            validate_xtask_bin("run-clang-format.py", retry, denied()),
            Err(error(ErrorKind::SpawnFailed, "Permission denied (os error 13)"))
        );
    }
}

#[test]
fn a_helper_script_that_fails_after_the_fetch_is_an_error() {
    assert_eq!(validate_xtask_bin("run-clang-format.py", false, exited(true, "")), Ok(None));
    assert_eq!(
        validate_xtask_bin("run-clang-format.py", false, exited(false, "")),
        Err(error(
            ErrorKind::ProbeFailed,
            "`run-clang-format.py` failed with non-zero exit code"
        ))
    );
}

#[test]
fn an_unknown_helper_script_is_an_error() {
    let expected = error(ErrorKind::UnrecognizedTool, "unrecognized xtask bin `format.py`");
    assert_eq!(xtask_bin_source("format.py"), None);
    assert_eq!(xtask_bin_probe("format.py"), Err(expected.clone()));
    assert_eq!(validate_xtask_bin("format.py", true, exited(true, "")), Err(expected.clone()));
    assert_eq!(validate_xtask_bin("format.py", false, exited(false, "")), Err(expected));
}

#[test]
fn the_release_channels_are_listed_by_rustup() {
    assert_eq!(
        rust_toolchain_probe(),
        Probe {
            program: "rustup".to_string(),
            args: vec![text("toolchain"), text("list")],
            env_vars: OrderedMap::new(),
            streams: Streams::Capture,
        }
    );
}

#[test]
fn an_installed_channel_is_found_in_the_listing() {
    let listing = "stable-x86_64-unknown-linux-gnu (default)\nnightly-2024-01-01-x86_64-unknown-linux-gnu\n";
    assert_eq!(validate_rust_toolchain("nightly-2024-01-01", exited(true, listing)), Ok(()));
    assert_eq!(validate_rust_toolchain("stable", exited(true, listing)), Ok(()));
    assert_eq!(validate_rust_toolchain("nightly", exited(true, "stable\r\nnightly\r\n")), Ok(()));
}

#[test]
fn a_missing_channel_suggests_its_installation() {
    let listing = "stable-x86_64-unknown-linux-gnu (default)\nnightly-2023-12-31-x86_64-unknown-linux-gnu\n";
    let error = validate_rust_toolchain("nightly-2024-01-01", exited(true, listing)).unwrap_err();
    assert_eq!(error.kind, ErrorKind::ToolchainChannelMissing);
    assert_eq!(
        error.message,
        "could not find toolchain `nightly-2024-01-01`\nPerhaps you need to install it with `rustup install toolchain nightly-2024-01-01`?"
    );
    assert!(error.message.contains("rustup install toolchain nightly-2024-01-01"));
    assert_eq!(
        validate_rust_toolchain("stable", exited(true, "")).unwrap_err().kind,
        ErrorKind::ToolchainChannelMissing
    );
    assert_eq!(
        validate_rust_toolchain("", exited(true, "")).unwrap_err().kind,
        ErrorKind::ToolchainChannelMissing
    );
}

#[test]
fn a_failed_listing_is_an_error() {
    let expected =
        error(ErrorKind::ProbeFailed, "`rustup toolchain list` failed with non-zero exit code");
    assert_eq!(validate_rust_toolchain("stable", exited(false, "stable\n")), Err(expected));
    assert_eq!(
        validate_rust_toolchain("stable", not_found()),
        Err(error(ErrorKind::NotFound, "No such file or directory (os error 2)"))
    );
    assert_eq!(
        validate_rust_toolchain("stable", denied()),
        Err(error(ErrorKind::SpawnFailed, "Permission denied (os error 13)"))
    );
}

#[test]
fn a_listing_that_is_no_text_is_an_error() {
    let outcome = ProbeOutcome::Exited { success: true, stdout: b"stable\n\xff\n".to_vec() };
    assert_eq!(
        validate_rust_toolchain("stable", outcome),
        Err(error(ErrorKind::OutputUndecodable, "output is not valid UTF-8"))
    );
}
