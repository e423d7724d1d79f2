//! The checks that take a single probe: toolchain components, subcommands
//! of the package manager, standalone tools, the script launcher, helper
//! scripts, and the installed release channels.
//!
//! Each check comes as a pair: the probe to run, and what follows from the
//! probe's outcome.

use crate::config::Config;
use crate::error::{
    not_found, probe_failed, reported, unrecognized_component, unrecognized_xtask_bin, ErrorKind,
    ErrorView, ValidationError,
};
use crate::ordered_map::OrderedMap;
use crate::probe::{
    flag_probe, no_env_vars, single_flag, ArgView, OutcomeView, Probe, ProbeArg, ProbeOutcome,
    ProbeView, Streams,
};
use crate::text::{is_prefix, join2, same, starts_with};
use crate::validation::{Validation, ValidationView};
use crate::version::check_view;
use vstd::prelude::*;

verus! {

broadcast use vstd::string::group_string_axioms;

/// What follows from a probe of which only the exit status counts. Where
/// `missing` names a tool, a binary that was not found is reported under that
/// name; otherwise the operating system's report is passed on.
pub open spec fn status_verdict(
    missing: Option<Seq<char>>,
    command: Seq<char>,
    outcome: OutcomeView,
) -> Result<(), ErrorView> {
    match outcome {
        OutcomeView::NotFound { message } => match missing {
            Some(tool) => Err(not_found(tool)),
            None => Err(reported(ErrorKind::NotFound, message)),
        },
        OutcomeView::SpawnFailed { message } => Err(reported(ErrorKind::SpawnFailed, message)),
        OutcomeView::Exited { success, stdout } => if success {
            Ok(())
        } else {
            Err(probe_failed(command))
        },
    }
}

/// What follows from a probe of which only the exit status counts.
pub fn check_status(missing: Option<&str>, command: &str, outcome: ProbeOutcome) -> (r: Result<
    (),
    ValidationError,
>)
    ensures
        check_view(r) == status_verdict(
            crate::version::optional_text(missing),
            command@,
            outcome@,
        ),
{
    match outcome {
        ProbeOutcome::NotFound { message } => match missing {
            Some(tool) => Err(ValidationError::not_found(tool)),
            None => Err(ValidationError::reported(ErrorKind::NotFound, message)),
        },
        ProbeOutcome::SpawnFailed { message } => Err(
            ValidationError::reported(ErrorKind::SpawnFailed, message),
        ),
        ProbeOutcome::Exited { success, stdout } => if success {
            Ok(())
        } else {
            Err(ValidationError::probe_failed(command))
        },
    }
}

/// The name of a toolchain component: the tool's name without `cargo-` in
/// front.
pub open spec fn component_of(tool: Seq<char>) -> Seq<char> {
    if is_prefix("cargo-"@, tool) {
        tool.skip("cargo-"@.len() as int)
    } else {
        tool
    }
}

/// The name under which the configuration lists a component.
pub open spec fn component_key(component: Seq<char>) -> Seq<char> {
    if component == "doc"@ {
        "rustdoc"@
    } else {
        component
    }
}

/// The release channel under which the component of `tool` runs; nothing
/// where the configuration does not list the component.
pub open spec fn component_toolchain(config: &Config, tool: Seq<char>) -> Option<Seq<char>> {
    let key = component_key(component_of(tool));
    if config.xtask.rust.components@.contains_key(key) {
        Some(
            if config.xtask.rust.components@[key].toolchain@ == "nightly"@ {
                config.xtask.rust.toolchain.nightly@
            } else {
                config.stable_toolchain@
            },
        )
    } else {
        None
    }
}

/// The command line that probes a component, as the messages show it.
pub open spec fn component_command(toolchain: Seq<char>, component: Seq<char>) -> Seq<char> {
    "cargo +"@ + toolchain + " "@ + component + " --help"@
}

/// The probe of a component: the package manager, told the release channel
/// and the component, asked for help.
pub open spec fn component_probe(toolchain: Seq<char>, component: Seq<char>) -> ProbeView {
    ProbeView {
        program: "cargo"@,
        args: seq![
            ArgView::Text("+"@ + toolchain),
            ArgView::Text(component),
            ArgView::Text("--help"@),
        ],
        env_vars: Map::empty(),
        streams: Streams::DiscardStdout,
    }
}

/// The probe for the component of `tool`, or the error for a component that
/// the configuration does not list.
pub open spec fn cargo_component_request(config: &Config, tool: Seq<char>) -> Result<
    ProbeView,
    ErrorView,
> {
    match component_toolchain(config, tool) {
        Some(toolchain) => Ok(component_probe(toolchain, component_of(tool))),
        None => Err(unrecognized_component(component_of(tool))),
    }
}

/// What follows from the probe of the component of `tool`.
pub open spec fn cargo_component_verdict(
    config: &Config,
    tool: Seq<char>,
    outcome: OutcomeView,
) -> Result<(), ErrorView> {
    match component_toolchain(config, tool) {
        Some(toolchain) => status_verdict(
            None,
            component_command(toolchain, component_of(tool)),
            outcome,
        ),
        None => Err(unrecognized_component(component_of(tool))),
    }
}

/// The component name of `tool` and the release channel it runs under.
fn component_parts<'a>(config: &'a Config, tool: &'a str) -> (parts: (&'a str, Option<&'a str>))
    requires
        config.wf(),
    ensures
        parts.0@ == component_of(tool@),
        crate::version::optional_text(parts.1) == component_toolchain(config, tool@),
{
    proof {
        reveal_strlit("cargo-");
    }
    let component = if starts_with(tool, "cargo-") {
        let n = tool.unicode_len();
        let rest = tool.substring_char(6, n);
        assert(rest@ =~= tool@.skip(6));
        rest
    } else {
        tool
    };
    let key = if same(component, "doc") {
        "rustdoc"
    } else {
        component
    };
    match config.xtask.rust.components.get(key) {
        Some(entry) => {
            if same(entry.toolchain.as_str(), "nightly") {
                (component, Some(config.xtask.rust.toolchain.nightly.as_str()))
            } else {
                (component, Some(config.stable_toolchain.as_str()))
            }
        },
        None => (component, None),
    }
}

/// The probe for the toolchain component that `tool` names.
pub fn cargo_component_probe(config: &Config, tool: &str) -> (r: Result<Probe, ValidationError>)
    requires
        config.wf(),
    ensures
        r matches Ok(p) ==> p.wf(),
        probe_result_view(r) == cargo_component_request(config, tool@),
{
    let (component, toolchain) = component_parts(config, tool);
    match toolchain {
        None => Err(ValidationError::unrecognized_component(component)),
        Some(channel) => {
            let mut args: Vec<ProbeArg> = Vec::new();
            args.push(ProbeArg::Text(join2("+", channel)));
            args.push(ProbeArg::Text(String::from_str(component)));
            args.push(ProbeArg::Text(String::from_str("--help")));
            let probe = Probe {
                program: String::from_str("cargo"),
                args,
                env_vars: no_env_vars(),
                streams: Streams::DiscardStdout,
            };
            assert(probe@.args =~= component_probe(channel@, component@).args);
            Ok(probe)
        },
    }
}

/// A probe or an error, as plain mathematical data.
pub open spec fn probe_result_view(r: Result<Probe, ValidationError>) -> Result<
    ProbeView,
    ErrorView,
> {
    match r {
        Ok(p) => Ok(p@),
        Err(e) => Err(e@),
    }
}

/// Whether the toolchain component that `tool` names is usable, going by the
/// outcome of its probe.
pub fn validate_cargo_component(config: &Config, tool: &str, outcome: ProbeOutcome) -> (r: Result<
    (),
    ValidationError,
>)
    requires
        config.wf(),
    ensures
        check_view(r) == cargo_component_verdict(config, tool@, outcome@),
{
    let (component, toolchain) = component_parts(config, tool);
    match toolchain {
        None => Err(ValidationError::unrecognized_component(component)),
        Some(channel) => {
            let head = join2("cargo +", channel);
            let middle = join2(head.as_str(), " ");
            let tail = join2(middle.as_str(), component);
            let command = join2(tail.as_str(), " --help");
            check_status(None, command.as_str(), outcome)
        },
    }
}

/// The probe of a subcommand that is installed on its own.
pub fn cargo_tool_probe(tool: &str) -> (probe: Probe)
    ensures
        probe.wf(),
        probe@ == flag_probe(tool@, "--help"@, Map::empty(), Streams::DiscardStdout),
{
    single_flag(tool, "--help", no_env_vars(), Streams::DiscardStdout)
}

/// Whether a subcommand that is installed on its own is usable, going by the
/// outcome of its probe.
pub fn validate_cargo_tool(tool: &str, outcome: ProbeOutcome) -> (r: Result<(), ValidationError>)
    ensures
        check_view(r) == status_verdict(Some(tool@), tool@, outcome@),
{
    check_status(Some(tool), tool, outcome)
}

/// The argument with which a standalone tool is probed.
pub open spec fn other_tool_flag(tool: Seq<char>) -> Seq<char> {
    if tool == "ninja"@ {
        "--version"@
    } else {
        "--help"@
    }
}

/// The probe of a standalone tool, under the given environment overlay.
pub fn other_tool_probe(tool: &str, env_vars: OrderedMap<String>) -> (probe: Probe)
    requires
        env_vars.wf(),
    ensures
        probe.wf(),
        probe@ == flag_probe(tool@, other_tool_flag(tool@), env_vars.text(), Streams::DiscardBoth),
{
    if same(tool, "ninja") {
        single_flag(tool, "--version", env_vars, Streams::DiscardBoth)
    } else {
        single_flag(tool, "--help", env_vars, Streams::DiscardBoth)
    }
}

/// What follows from the probe of a standalone tool: the empty overlay, or
/// the error.
pub open spec fn other_tool_verdict(tool: Seq<char>, outcome: OutcomeView) -> Result<
    ValidationView,
    ErrorView,
> {
    match status_verdict(Some(tool), tool, outcome) {
        Ok(_) => Ok(ValidationView::empty()),
        Err(e) => Err(e),
    }
}

/// Whether a standalone tool is usable, going by the outcome of its probe.
pub fn validate_other_tool(tool: &str, outcome: ProbeOutcome) -> (r: Result<
    Validation,
    ValidationError,
>)
    ensures
        r matches Ok(v) ==> v.wf(),
        crate::validation::outcome_view(r) == other_tool_verdict(tool@, outcome@),
{
    match check_status(Some(tool), tool, outcome) {
        Ok(_) => Ok(Validation::default()),
        Err(e) => Err(e),
    }
}

/// The probe of the script launcher.
pub fn python3_probe() -> (probe: Probe)
    ensures
        probe.wf(),
        probe@ == flag_probe("python3"@, "--help"@, Map::empty(), Streams::DiscardStdout),
{
    single_flag("python3", "--help", no_env_vars(), Streams::DiscardStdout)
}

/// Whether the script launcher is usable, going by the outcome of its probe.
pub fn validate_python3(outcome: ProbeOutcome) -> (r: Result<(), ValidationError>)
    ensures
        check_view(r) == status_verdict(Some("python3"@), "python3"@, outcome@),
{
    check_status(Some("python3"), "python3", outcome)
}

/// Where a helper script is fetched from; nothing for a name that is not a
/// helper script.
pub open spec fn script_source(name: Seq<char>) -> Option<Seq<char>> {
    if name == "run-clang-format.py"@ {
        Some(
            "https://raw.githubusercontent.com/Sarcasm/run-clang-format/master/run-clang-format.py"@,
        )
    } else {
        None
    }
}

/// The probe of a helper script: the launcher, given the script's path,
/// asked for help.
pub open spec fn script_probe(name: Seq<char>) -> ProbeView {
    ProbeView {
        program: "python3"@,
        args: seq![ArgView::HelperScript(name), ArgView::Text("--help"@)],
        env_vars: Map::empty(),
        streams: Streams::DiscardBoth,
    }
}

/// The probe for the helper script `name`, or the error for a name that is
/// not a helper script.
pub open spec fn xtask_bin_request(name: Seq<char>) -> Result<ProbeView, ErrorView> {
    match script_source(name) {
        Some(_) => Ok(script_probe(name)),
        None => Err(unrecognized_xtask_bin(name)),
    }
}

/// What follows from the probe of the helper script `name`: nothing to do
/// where it ran. Where it did not, `retry` decides: the first time the
/// result is the address to fetch the script from, and once it has been
/// fetched the failure stands.
pub open spec fn xtask_bin_verdict(name: Seq<char>, retry: bool, outcome: OutcomeView) -> Result<
    Option<Seq<char>>,
    ErrorView,
> {
    match script_source(name) {
        None => Err(unrecognized_xtask_bin(name)),
        Some(url) => match outcome {
            OutcomeView::NotFound { message } => Err(reported(ErrorKind::NotFound, message)),
            OutcomeView::SpawnFailed { message } => Err(reported(ErrorKind::SpawnFailed, message)),
            OutcomeView::Exited { success, stdout } => if success {
                Ok(None)
            } else if retry {
                Ok(Some(url))
            } else {
                Err(probe_failed(name))
            },
        },
    }
}

/// Where the helper script `name` is fetched from.
pub fn xtask_bin_source(name: &str) -> (url: Option<&'static str>)
    ensures
        crate::version::optional_text(url) == script_source(name@),
{
    if same(name, "run-clang-format.py") {
        Some("https://raw.githubusercontent.com/Sarcasm/run-clang-format/master/run-clang-format.py")
    } else {
        None
    }
}

/// The probe for the helper script `name`.
pub fn xtask_bin_probe(name: &str) -> (r: Result<Probe, ValidationError>)
    ensures
        r matches Ok(p) ==> p.wf(),
        probe_result_view(r) == xtask_bin_request(name@),
{
    match xtask_bin_source(name) {
        None => Err(ValidationError::unrecognized_xtask_bin(name)),
        Some(_) => {
            let mut args: Vec<ProbeArg> = Vec::new();
            args.push(ProbeArg::HelperScript(String::from_str(name)));
            args.push(ProbeArg::Text(String::from_str("--help")));
            let probe = Probe {
                program: String::from_str("python3"),
                args,
                env_vars: no_env_vars(),
                streams: Streams::DiscardBoth,
            };
            assert(probe@.args =~= script_probe(name@).args);
            Ok(probe)
        },
    }
}

/// The address to fetch from, or nothing, as plain mathematical data.
pub open spec fn install_view(r: Result<Option<String>, ValidationError>) -> Result<
    Option<Seq<char>>,
    ErrorView,
> {
    match r {
        Ok(Some(url)) => Ok(Some(url@)),
        Ok(None) => Ok(None),
        Err(e) => Err(e@),
    }
}

/// Whether the helper script `name` is in place, going by the outcome of its
/// probe. Where it is not and `retry` is set, the result holds the address
/// to fetch it from; the probe after the fetch is judged with `retry`
/// unset, and a failure then is an error: the script is fetched once, and
/// probed once more.
pub fn validate_xtask_bin(name: &str, retry: bool, outcome: ProbeOutcome) -> (r: Result<
    Option<String>,
    ValidationError,
>)
    ensures
        install_view(r) == xtask_bin_verdict(name@, retry, outcome@),
{
    match xtask_bin_source(name) {
        None => Err(ValidationError::unrecognized_xtask_bin(name)),
        Some(url) => match outcome {
            ProbeOutcome::NotFound { message } => Err(
                ValidationError::reported(ErrorKind::NotFound, message),
            ),
            ProbeOutcome::SpawnFailed { message } => Err(
                ValidationError::reported(ErrorKind::SpawnFailed, message),
            ),
            ProbeOutcome::Exited { success, stdout } => if success {
                Ok(None)
            } else if retry {
                Ok(Some(String::from_str(url)))
            } else {
                Err(ValidationError::probe_failed(name))
            },
        },
    }
}

} // verus!
