use xtask::config::xtask::{
    Xtask, XtaskClang, XtaskPlatform, XtaskPlatformMacos, XtaskPlatformMacosSearchPath, XtaskRust,
    XtaskRustComponent, XtaskRustToolchain,
};
use xtask::config::Config;
use xtask::error::{ErrorKind, ValidationError};
use xtask::ordered_map::OrderedMap;
use xtask::probe::{Probe, ProbeArg, ProbeOutcome, Streams};
use xtask::search_path::{Host, Platform};
use xtask::session::{Progress, Reply, Request};
use xtask::validation::{validate_tool, Validation};

const PATTERN: &str = r"version (\d+\.\d+\.\d+)";
const SCRIPT_URL: &str =
    "https://raw.githubusercontent.com/Sarcasm/run-clang-format/master/run-clang-format.py";
const MAC_PATH: &str = "/usr/bin:/bin:/opt/homebrew/opt/llvm@16/bin";

fn config() -> Config {
    let mut matchers = OrderedMap::new();
    matchers.insert("clang".to_string(), PATTERN.to_string());
    matchers.insert("clang-format".to_string(), PATTERN.to_string());
    matchers.insert("clang-tidy".to_string(), PATTERN.to_string());
    matchers.insert("clang++".to_string(), "(".to_string());
    let mut components = OrderedMap::new();
    components.insert("clippy".to_string(), XtaskRustComponent { toolchain: "nightly".to_string() });
    components.insert("fmt".to_string(), XtaskRustComponent { toolchain: "stable".to_string() });
    components.insert("rustdoc".to_string(), XtaskRustComponent { toolchain: "nightly".to_string() });
    Config {
        xtask: Xtask {
            clang: XtaskClang {
                matchers,
                platform: XtaskPlatform {
                    macos: XtaskPlatformMacos {
                        search_paths: vec![XtaskPlatformMacosSearchPath::Homebrew],
                    },
                },
                suffix: "-16".to_string(),
                version: "16".to_string(),
            },
            rust: XtaskRust {
                components,
                toolchain: XtaskRustToolchain { nightly: "nightly-2024-01-01".to_string() },
            },
        },
        stable_toolchain: "stable".to_string(),
    }
}

fn mac() -> Host {
    Host {
        platform: Platform::Macos,
        path: Some("/usr/bin:/bin".to_string()),
        homebrew: vec!["/opt/homebrew/opt/llvm@16/bin".to_string()],
    }
}

fn map(entries: &[(&str, &str)]) -> OrderedMap<String> {
    let mut out = OrderedMap::new();
    for (key, value) in entries {
        out.insert(key.to_string(), value.to_string());
    }
    out
}

fn overlay(tools: &[(&str, &str)], env_vars: &[(&str, &str)]) -> Validation {
    Validation { tools: map(tools), env_vars: map(env_vars) }
}

fn exited(success: bool, stdout: &str) -> Reply {
    Reply::Probed(ProbeOutcome::Exited { success, stdout: stdout.as_bytes().to_vec() })
}

fn not_found() -> Reply {
    Reply::Probed(ProbeOutcome::NotFound {
        message: "No such file or directory (os error 2)".to_string(),
    })
}

fn error(kind: ErrorKind, message: &str) -> ValidationError {
    ValidationError { kind, message: message.to_string() }
}

fn on_search_path(probe: &Probe) -> bool {
    probe.env_vars.contains_key("PATH")
}

fn run(
    config: &Config,
    host: &Host,
    tool: &str,
    mut world: impl FnMut(&Request) -> Reply,
) -> (Result<Validation, ValidationError>, Vec<Request>) {
    let mut asked = Vec::new();
    let mut progress = validate_tool(config, tool);
    loop {
        match progress {
            Progress::Finished(result) => return (result, asked),
            Progress::Pending(session) => {
                let request = session.request().clone();
                let reply = match &request {
                    Request::Locate => Reply::Located(Ok(host.clone())),
                    other => world(other),
                };
                asked.push(request);
                assert!(asked.len() <= 18, "a validation makes eighteen requests at most");
                progress = session.resume(config, reply);
            }
        }
    }
}

fn programs(asked: &[Request]) -> Vec<String> {
    asked
        .iter()
        .map(|request| match request {
            Request::Run(probe) => probe.program.clone(),
            Request::Locate => "locate".to_string(),
            Request::Fetch { name, .. } => format!("fetch {name}"),
        })
        .collect()
}

fn present(binaries: &'static [&'static str], stdout: &'static str) -> impl FnMut(&Request) -> Reply {
    move |request| match request {
        Request::Run(probe) if binaries.contains(&probe.program.as_str()) => exited(true, stdout),
        Request::Run(_) => not_found(),
        _ => Reply::Fetched(Ok(())),
    }
}

#[test]
fn combine_unites_and_the_later_value_wins() {
    let mut first = overlay(&[], &[("A", "1"), ("B", "2")]);
    first.combine(overlay(&[], &[("B", "3"), ("C", "4")]));
    assert_eq!(first, overlay(&[], &[("A", "1"), ("B", "3"), ("C", "4")]));
    let mut tools = overlay(&[("clang", "clang-15")], &[]);
    tools.combine(overlay(&[("clang", "clang-16"), ("clangd", "clangd-16")], &[("PATH", "/bin")]));
    assert_eq!(tools, overlay(&[("clang", "clang-16"), ("clangd", "clangd-16")], &[("PATH", "/bin")]));
}

#[test]
fn combine_is_associative() {
    let a = overlay(&[("t", "a")], &[("A", "1"), ("B", "2")]);
    let b = overlay(&[("t", "b"), ("u", "b")], &[("B", "3"), ("C", "4")]);
    let c = overlay(&[("u", "c")], &[("C", "5"), ("D", "6")]);
    let mut left = a.clone();
    left.combine(b.clone());
    left.combine(c.clone());
    let mut tail = b;
    tail.combine(c);
    let mut right = a;
    right.combine(tail);
    assert_eq!(left, right);
    assert_eq!(
        left,
        overlay(&[("t", "b"), ("u", "c")], &[("A", "1"), ("B", "3"), ("C", "5"), ("D", "6")])
    );
}

#[test]
fn the_empty_overlay_changes_nothing() {
    let some = overlay(&[("clang", "clang-16")], &[("PATH", "/bin")]);
    let mut left = Validation::default();
    left.combine(some.clone());
    assert_eq!(left, some);
    let mut right = some.clone();
    right.combine(Validation::default());
    assert_eq!(right, some);
    assert!(Validation::default().tools.is_empty());
    assert!(Validation::default().env_vars.is_empty());
}

#[test]
fn equal_overlays_are_listed_alike() {
    let mut one = Validation::default();
    one.env_vars.insert("PATH".to_string(), "/bin".to_string());
    one.env_vars.insert("CC".to_string(), "clang".to_string());
    let mut other = Validation::default();
    other.env_vars.insert("CC".to_string(), "clang".to_string());
    other.env_vars.insert("PATH".to_string(), "/bin".to_string());
    assert_eq!(one, other);
    assert_eq!(one.env_vars.key_at(0), "CC");
    assert_eq!(one.env_vars.key_at(1), "PATH");
}

#[test]
fn an_unrecognized_tool_is_turned_down_before_any_probe() {
    let (result, asked) = run(&config(), &mac(), "frobnicate", |_| unreachable!());
    assert_eq!(result, Err(error(ErrorKind::UnrecognizedTool, "unrecognized tool: `frobnicate`")));
    assert!(asked.is_empty());
    let (result, asked) = run(&config(), &mac(), "", |_| unreachable!());
    assert_eq!(result, Err(error(ErrorKind::UnrecognizedTool, "unrecognized tool: ``")));
    assert!(asked.is_empty());
}

#[test]
fn the_suffixed_binary_is_chosen_where_both_are_present() {
    let world = present(&["clang", "clang-16"], "clang version 16.0.1");
    let (result, asked) = run(&config(), &mac(), "clang", world);
    assert_eq!(result, Ok(overlay(&[("clang", "clang-16")], &[])));
    assert_eq!(
        asked,
        vec![Request::Run(Probe {
            program: "clang-16".to_string(),
            args: vec![ProbeArg::Text("--version".to_string())],
            env_vars: map(&[]),
            streams: Streams::Capture,
        })]
    );
}

#[test]
fn resolution_is_repeatable() {
    let first = run(&config(), &mac(), "clang", present(&["clang", "clang-16"], "version 16.0.0"));
    let second = run(&config(), &mac(), "clang", present(&["clang", "clang-16"], "version 16.0.0"));
    assert_eq!(first, second);
}

#[test]
fn the_formatter_is_found_under_its_suffixed_name() {
    let world = |request: &Request| match request {
        Request::Run(probe) if probe.program == "clang-format-16" => {
            assert_eq!(probe.args, vec![ProbeArg::Text("--version".to_string())]);
            exited(true, "clang version 16.0.1")
        }
        Request::Run(probe) if probe.program == "python3" => exited(true, ""),
        _ => not_found(),
    };
    let (result, asked) = run(&config(), &mac(), "clang-format", world);
    assert_eq!(result, Ok(overlay(&[("clang-format", "clang-format-16")], &[])));
    assert_eq!(programs(&asked), vec!["clang-format-16", "python3", "python3"]);
    assert_eq!(
        asked[2],
        Request::Run(Probe {
            program: "python3".to_string(),
            args: vec![
                ProbeArg::HelperScript("run-clang-format.py".to_string()),
                ProbeArg::Text("--help".to_string()),
            ],
            env_vars: map(&[]),
            streams: Streams::DiscardBoth,
        })
    );
}

#[test]
fn the_formatter_is_found_on_the_extended_search_path() {
    let world = |request: &Request| match request {
        Request::Run(probe) if probe.program == "clang-format-16" && on_search_path(probe) => {
            exited(true, "clang version 16.0.1")
        }
        Request::Run(probe) if probe.program == "python3" => exited(true, ""),
        _ => not_found(),
    };
    let (result, asked) = run(&config(), &mac(), "clang-format", world);
    let validation = result.unwrap();
    assert_eq!(validation.env_vars.get("PATH"), Some(&MAC_PATH.to_string()));
    assert_eq!(validation, overlay(&[("clang-format", "clang-format-16")], &[("PATH", MAC_PATH)]));
    assert_eq!(
        programs(&asked),
        vec!["clang-format-16", "locate", "clang-format-16", "python3", "python3"]
    );
}

#[test]
fn the_plain_binary_is_the_third_candidate() {
    let world = |request: &Request| match request {
        Request::Run(probe) if probe.program == "clang" && !on_search_path(probe) => {
            exited(true, "clang version 16.0.6")
        }
        _ => not_found(),
    };
    let (result, asked) = run(&config(), &mac(), "clang", world);
    assert_eq!(result, Ok(Validation::default()));
    assert_eq!(programs(&asked), vec!["clang-16", "locate", "clang-16", "clang"]);
    let paths: Vec<bool> = asked
        .iter()
        .map(|request| match request {
            Request::Run(probe) => on_search_path(probe),
            _ => false,
        })
        .collect();
    assert_eq!(paths, vec![false, false, true, false]);
}

#[test]
fn a_wrong_version_falls_through_to_the_next_candidate() {
    let world = |request: &Request| match request {
        Request::Run(probe) if probe.program == "clang-16" => exited(true, "clang version 15.0.0"),
        Request::Run(probe) if on_search_path(probe) => exited(true, "clang version 16.0.0"),
        Request::Run(_) => exited(false, ""),
        _ => Reply::Fetched(Ok(())),
    };
    let (result, asked) = run(&config(), &mac(), "clang", world);
    assert_eq!(result, Ok(overlay(&[], &[("PATH", MAC_PATH)])));
    assert_eq!(programs(&asked), vec!["clang-16", "locate", "clang-16", "clang", "locate", "clang"]);
}

#[test]
fn only_the_last_failure_is_reported() {
    let (result, asked) = run(&config(), &mac(), "clang", |_| not_found());
    assert_eq!(result, Err(error(ErrorKind::NotFound, "could not validate tool: `clang`")));
    assert_eq!(programs(&asked), vec!["clang-16", "locate", "clang-16", "clang", "locate", "clang"]);
    let mut count = 0;
    let world = |_: &Request| {
        count += 1;
        if count < 4 {
            not_found()
        } else {
            exited(true, "clang version 17.0.0")
        }
    };
    let (result, _) = run(&config(), &mac(), "clang", world);
    assert_eq!(result, Err(error(ErrorKind::VersionMismatch, "could not validate tool: `clang`")));
}

#[test]
fn a_broken_pattern_is_reported_before_any_probe() {
    let (result, asked) = run(&config(), &mac(), "clang++", |_| unreachable!());
    let error = result.unwrap_err();
    assert_eq!(error.kind, ErrorKind::InvalidMatcher);
    assert_eq!(error.message, regex::Regex::new("(").unwrap_err().to_string());
    assert!(asked.is_empty());
}

#[test]
fn the_analyzer_and_its_driver_are_both_resolved() {
    let world = |request: &Request| match request {
        Request::Run(probe) if probe.program == "clang-tidy-16" => exited(true, "LLVM version 16.0.0"),
        Request::Run(probe) if probe.program == "run-clang-tidy" && on_search_path(probe) => {
            assert_eq!(probe.args, vec![ProbeArg::Text("--help".to_string())]);
            exited(true, "usage")
        }
        _ => not_found(),
    };
    let (result, asked) = run(&config(), &mac(), "clang-tidy", world);
    assert_eq!(result, Ok(overlay(&[("clang-tidy", "clang-tidy-16")], &[("PATH", MAC_PATH)])));
    assert_eq!(
        programs(&asked),
        vec![
            "clang-tidy-16",
            "run-clang-tidy-16",
            "locate",
            "run-clang-tidy-16",
            "run-clang-tidy",
            "locate",
            "run-clang-tidy",
        ]
    );
}

#[test]
fn a_failing_driver_fails_the_analyzer() {
    let world = present(&["clang-tidy-16"], "LLVM version 16.0.0");
    let (result, asked) = run(&config(), &mac(), "clang-tidy", world);
    assert_eq!(result, Err(error(ErrorKind::NotFound, "could not validate tool: `run-clang-tidy`")));
    assert_eq!(asked.len(), 7);
}

#[test]
fn a_missing_launcher_fails_the_formatter() {
    let world = present(&["clang-format-16"], "clang-format version 16.0.0");
    let (result, asked) = run(&config(), &mac(), "clang-format", world);
    assert_eq!(result, Err(error(ErrorKind::NotFound, "could not find `python3` in path")));
    assert_eq!(programs(&asked), vec!["clang-format-16", "python3"]);
}

#[test]
fn a_missing_script_is_fetched_and_probed_again() {
    let mut fetched = false;
    let world = |request: &Request| match request {
        Request::Run(probe) if probe.program == "clang-format-16" => exited(true, "version 16.0.0"),
        Request::Run(probe) if probe.args.len() == 1 => exited(true, ""),
        Request::Run(_) => exited(fetched, ""),
        Request::Fetch { url, name } => {
            assert_eq!(url, SCRIPT_URL);
            assert_eq!(name, "run-clang-format.py");
            fetched = true;
            Reply::Fetched(Ok(()))
        }
        Request::Locate => unreachable!(),
    };
    let (result, asked) = run(&config(), &mac(), "clang-format", world);
    assert_eq!(result, Ok(overlay(&[("clang-format", "clang-format-16")], &[])));
    assert_eq!(
        programs(&asked),
        vec!["clang-format-16", "python3", "python3", "fetch run-clang-format.py", "python3"]
    );
}

#[test]
fn a_script_that_still_fails_after_the_fetch_fails_the_formatter() {
    let mut fetches = 0;
    let world = |request: &Request| match request {
        Request::Run(probe) if probe.program == "clang-format-16" => exited(true, "version 16.0.0"),
        Request::Run(probe) if probe.args.len() == 1 => exited(true, ""),
        Request::Run(_) => exited(false, ""),
        _ => {
            fetches += 1;
            Reply::Fetched(Ok(()))
        }
    };
    let (result, asked) = run(&config(), &mac(), "clang-format", world);
    assert_eq!(
        result,
        Err(error(
            ErrorKind::ProbeFailed,
            "`run-clang-format.py` failed with non-zero exit code"
        ))
    );
    assert_eq!(
        programs(&asked),
        vec!["clang-format-16", "python3", "python3", "fetch run-clang-format.py", "python3"]
    );
    assert_eq!(fetches, 1);
}

#[test]
fn a_failed_fetch_fails_the_formatter() {
    let world = |request: &Request| match request {
        Request::Run(probe) if probe.program == "clang-format-16" => exited(true, "version 16.0.0"),
        Request::Run(probe) if probe.args.len() == 1 => exited(true, ""),
        Request::Run(_) => exited(false, ""),
        _ => Reply::Fetched(Err("connection refused".to_string())),
    };
    let (result, asked) = run(&config(), &mac(), "clang-format", world);
    assert_eq!(result, Err(error(ErrorKind::FetchFailed, "connection refused")));
    assert_eq!(asked.len(), 4);
}

#[test]
fn a_component_takes_one_probe() {
    let (result, asked) = run(&config(), &mac(), "cargo-clippy", |_| exited(true, ""));
    assert_eq!(result, Ok(Validation::default()));
    assert_eq!(
        asked,
        vec![Request::Run(Probe {
            program: "cargo".to_string(),
            args: vec![
                ProbeArg::Text("+nightly-2024-01-01".to_string()),
                ProbeArg::Text("clippy".to_string()),
                ProbeArg::Text("--help".to_string()),
            ],
            env_vars: map(&[]),
            streams: Streams::DiscardStdout,
        })]
    );
    let (result, _) = run(&config(), &mac(), "cargo-fmt", |_| exited(false, ""));
    assert_eq!(
        result,
        Err(error(ErrorKind::ProbeFailed, "`cargo +stable fmt --help` failed with non-zero exit code"))
    );
}

#[test]
fn an_unlisted_component_is_turned_down_before_any_probe() {
    let (result, asked) = run(&config(), &mac(), "cargo-miri", |_| unreachable!());
    assert_eq!(result, Err(error(ErrorKind::UnrecognizedComponent, "unrecognized component: `miri`")));
    assert!(asked.is_empty());
}

#[test]
fn a_subcommand_takes_one_probe() {
    for tool in ["cargo-tarpaulin", "cargo-udeps", "cargo-valgrind"] {
        let (result, asked) = run(&config(), &mac(), tool, |_| exited(true, ""));
        assert_eq!(result, Ok(Validation::default()));
        assert_eq!(programs(&asked), vec![tool]);
        let (result, _) = run(&config(), &mac(), tool, |_| not_found());
        assert_eq!(result, Err(error(ErrorKind::NotFound, &format!("could not find `{tool}` in path"))));
        let (result, _) = run(&config(), &mac(), tool, |_| exited(false, ""));
        assert_eq!(
            result,
            Err(error(ErrorKind::ProbeFailed, &format!("`{tool}` failed with non-zero exit code")))
        );
    }
}

#[test]
fn a_standalone_tool_takes_one_probe() {
    let (result, asked) = run(&config(), &mac(), "ninja", |_| exited(true, "1.11.1"));
    assert_eq!(result, Ok(Validation::default()));
    assert_eq!(
        asked,
        vec![Request::Run(Probe {
            program: "ninja".to_string(),
            args: vec![ProbeArg::Text("--version".to_string())],
            env_vars: map(&[]),
            streams: Streams::DiscardBoth,
        })]
    );
    let (result, asked) = run(&config(), &mac(), "cmake", |_| not_found());
    assert_eq!(result, Err(error(ErrorKind::NotFound, "could not find `cmake` in path")));
    assert_eq!(programs(&asked), vec!["cmake"]);
}

#[test]
fn the_documentation_generator_is_validated_as_a_component() {
    let (result, asked) = run(&config(), &mac(), "cargo-doc", |_| exited(true, ""));
    assert_eq!(result, Ok(Validation::default()));
    assert_eq!(
        asked,
        vec![Request::Run(Probe {
            program: "cargo".to_string(),
            args: vec![
                ProbeArg::Text("+nightly-2024-01-01".to_string()),
                ProbeArg::Text("doc".to_string()),
                ProbeArg::Text("--help".to_string()),
            ],
            env_vars: map(&[]),
            streams: Streams::DiscardStdout,
        })]
    );
    let (result, _) = run(&config(), &mac(), "cargo-doc", |_| exited(false, ""));
    assert_eq!(
        result,
        Err(error(
            ErrorKind::ProbeFailed,
            "`cargo +nightly-2024-01-01 doc --help` failed with non-zero exit code"
        ))
    );
}

#[test]
fn a_failed_lookup_ends_the_validation() {
    let config = config();
    let Progress::Pending(session) = validate_tool(&config, "clang") else {
        panic!("the validation of clang begins with a probe");
    };
    let Progress::Pending(session) = session.resume(&config, not_found()) else {
        panic!("a failed candidate hands over");
    };
    assert_eq!(session.request(), &Request::Locate);
    let reply = Reply::Located(Err("brew: command not found".to_string()));
    let Progress::Finished(result) = session.resume(&config, reply) else {
        panic!("a failed lookup ends the validation");
    };
    assert_eq!(result, Err(error(ErrorKind::LookupFailed, "brew: command not found")));
}

#[test]
fn the_search_path_is_that_of_the_machine_at_the_time() {
    let config = config();
    let Progress::Pending(session) = validate_tool(&config, "clang") else {
        panic!("the validation of clang begins with a probe");
    };
    let Progress::Pending(session) = session.resume(&config, not_found()) else {
        panic!("a failed candidate hands over");
    };
    let host = Host { platform: Platform::Other, path: Some("/opt/bin".to_string()), homebrew: vec![] };
    let Progress::Pending(session) = session.resume(&config, Reply::Located(Ok(host))) else {
        panic!("the next candidate is probed");
    };
    assert_eq!(
        session.request(),
        &Request::Run(Probe {
            program: "clang-16".to_string(),
            args: vec![ProbeArg::Text("--version".to_string())],
            env_vars: map(&[("PATH", "/opt/bin")]),
            streams: Streams::Capture,
        })
    );
    let Progress::Finished(result) = session.resume(&config, exited(true, "clang version 16.0.0"))
    else {
        panic!("an accepted candidate ends the resolution");
    };
    assert_eq!(result, Ok(overlay(&[("clang", "clang-16")], &[("PATH", "/opt/bin")])));
}

#[test]
fn a_reply_of_the_wrong_sort_changes_nothing() {
    let config = config();
    let Progress::Pending(session) = validate_tool(&config, "cmake") else {
        panic!("the validation of cmake begins with a probe");
    };
    let request = session.request().clone();
    let Progress::Pending(session) = session.resume(&config, Reply::Fetched(Ok(()))) else {
        panic!("a fetch does not answer a probe");
    };
    assert_eq!(session.request(), &request);
    let Progress::Pending(session) = session.resume(&config, Reply::Located(Ok(mac()))) else {
        panic!("a lookup does not answer a probe");
    };
    assert_eq!(session.request(), &request);
    let Progress::Finished(result) = session.resume(&config, exited(true, "")) else {
        panic!("one probe settles cmake");
    };
    assert_eq!(result, Ok(Validation::default()));
}
