//! The resolution strategy for the tools of the compiler suite, whose
//! binaries may carry a version suffix and may live outside the ambient
//! search path.
//!
//! Four candidates are tried in a fixed order; the first one that runs and
//! reports a fitting version is taken.

use crate::config::Config;
use crate::error::{probe_failed, reported, unresolved, ErrorKind, ErrorView, ValidationError};
use crate::ordered_map::{lemma_text_insert, OrderedMap};
use crate::pattern::{check_pattern, pattern_complaint};
use crate::probe::{flag_probe, no_env_vars, single_flag, OutcomeView, Probe, ProbeOutcome, ProbeView, Streams};
use crate::search_path::{search_path, Host};
use crate::text::{join2, same};
use crate::validation::{outcome_view, Validation, ValidationView};
use crate::version::{match_version, optional_text, output_verdict};
use vstd::prelude::*;

verus! {

/// The candidates of a resolution, in the order in which they are tried.
#[derive(Clone, Copy, Debug, PartialEq, Eq, Structural)]
pub enum Attempt {
    /// The name with the configured suffix, on the ambient search path.
    Suffixed,
    /// The name with the configured suffix, on the extended search path.
    SuffixedOnSearchPath,
    /// The name as it is, on the ambient search path.
    Plain,
    /// The name as it is, on the extended search path.
    PlainOnSearchPath,
}

impl Attempt {
    /// The candidate's name carries the suffix.
    pub open spec fn suffixed(self) -> bool {
        self == Attempt::Suffixed || self == Attempt::SuffixedOnSearchPath
    }

    /// The candidate runs under the extended search path.
    pub open spec fn on_search_path(self) -> bool {
        self == Attempt::SuffixedOnSearchPath || self == Attempt::PlainOnSearchPath
    }

    /// The candidate that is tried after this one has failed.
    pub open spec fn following(self) -> Option<Attempt> {
        match self {
            Attempt::Suffixed => Some(Attempt::SuffixedOnSearchPath),
            Attempt::SuffixedOnSearchPath => Some(Attempt::Plain),
            Attempt::Plain => Some(Attempt::PlainOnSearchPath),
            Attempt::PlainOnSearchPath => None,
        }
    }

    /// How many candidates come after this one.
    pub open spec fn remaining(self) -> nat {
        match self {
            Attempt::Suffixed => 3,
            Attempt::SuffixedOnSearchPath => 2,
            Attempt::Plain => 1,
            Attempt::PlainOnSearchPath => 0,
        }
    }

    /// The candidate that is tried after this one has failed.
    pub fn next(self) -> (n: Option<Attempt>)
        ensures
            n == self.following(),
    {
        match self {
            Attempt::Suffixed => Some(Attempt::SuffixedOnSearchPath),
            Attempt::SuffixedOnSearchPath => Some(Attempt::Plain),
            Attempt::Plain => Some(Attempt::PlainOnSearchPath),
            Attempt::PlainOnSearchPath => None,
        }
    }
}

/// A candidate: the binary to run, and the environment overlay for this one
/// run.
#[derive(Clone, Debug, PartialEq, Eq)]
pub struct Candidate {
    pub binary: String,
    pub env_vars: OrderedMap<String>,
}

/// A candidate as plain mathematical data.
pub struct CandidateView {
    pub binary: Seq<char>,
    pub env_vars: Map<Seq<char>, Seq<char>>,
}

impl View for Candidate {
    type V = CandidateView;

    open spec fn view(&self) -> CandidateView {
        CandidateView { binary: self.binary@, env_vars: self.env_vars.text() }
    }
}

/// The candidate that `attempt` stands for, where `path` is the extended
/// search path: the name with or without the suffix, and the search path
/// under `PATH` for the candidates that run under it.
pub open spec fn candidate_on(
    suffix: Seq<char>,
    tool: Seq<char>,
    attempt: Attempt,
    path: Seq<char>,
) -> CandidateView {
    CandidateView {
        binary: if attempt.suffixed() {
            tool + suffix
        } else {
            tool
        },
        env_vars: if attempt.on_search_path() {
            Map::<Seq<char>, Seq<char>>::empty().insert("PATH"@, path)
        } else {
            Map::empty()
        },
    }
}

/// The candidate that `attempt` stands for on the machine `host`.
pub open spec fn candidate_for(
    config: &Config,
    host: &Host,
    tool: Seq<char>,
    attempt: Attempt,
) -> CandidateView {
    candidate_on(config.xtask.clang.suffix@, tool, attempt, search_path(config, host))
}

/// The version pattern that the configuration holds for `tool`, if any.
pub open spec fn matcher_for(config: &Config, tool: Seq<char>) -> Option<Seq<char>> {
    if config.xtask.clang.matchers@.contains_key(tool) {
        Some(config.xtask.clang.matchers@[tool]@)
    } else {
        None
    }
}

/// The probe of a candidate: asked for its version where a pattern is there
/// to read it, and for help otherwise, since not every tool knows
/// `--version`.
pub open spec fn clang_probe(matcher: Option<Seq<char>>, candidate: CandidateView) -> ProbeView {
    flag_probe(
        candidate.binary,
        if matcher is Some {
            "--version"@
        } else {
            "--help"@
        },
        candidate.env_vars,
        Streams::Capture,
    )
}

/// The overlay of a candidate that was accepted: its environment, and its
/// binary's name where that differs from the tool's.
pub open spec fn clang_validation(tool: Seq<char>, candidate: CandidateView) -> ValidationView {
    ValidationView {
        tools: if candidate.binary != tool {
            Map::<Seq<char>, Seq<char>>::empty().insert(tool, candidate.binary)
        } else {
            Map::empty()
        },
        env_vars: candidate.env_vars,
    }
}

/// What follows from the probe of a candidate.
pub open spec fn clang_verdict(
    required: Seq<char>,
    matcher: Option<Seq<char>>,
    tool: Seq<char>,
    candidate: CandidateView,
    outcome: OutcomeView,
) -> Result<ValidationView, ErrorView> {
    match outcome {
        OutcomeView::NotFound { message } => Err(reported(ErrorKind::NotFound, message)),
        OutcomeView::SpawnFailed { message } => Err(reported(ErrorKind::SpawnFailed, message)),
        OutcomeView::Exited { success, stdout } => if !success {
            Err(probe_failed(tool))
        } else {
            match output_verdict(tool, required, matcher, stdout) {
                Ok(_) => Ok(clang_validation(tool, candidate)),
                Err(e) => Err(e),
            }
        },
    }
}

/// The candidate that `attempt` stands for, where `path` is the extended
/// search path. A candidate on the ambient search path does not look at it.
pub fn candidate(config: &Config, tool: &str, attempt: Attempt, path: &str) -> (c: Candidate)
    ensures
        c.env_vars.wf(),
        c@ == candidate_on(config.xtask.clang.suffix@, tool@, attempt, path@),
{
    let binary = match attempt {
        Attempt::Suffixed | Attempt::SuffixedOnSearchPath => join2(
            tool,
            config.xtask.clang.suffix.as_str(),
        ),
        _ => String::from_str(tool),
    };
    let mut env_vars = no_env_vars();
    match attempt {
        Attempt::SuffixedOnSearchPath | Attempt::PlainOnSearchPath => {
            let value = String::from_str(path);
            proof {
                lemma_text_insert(env_vars@, "PATH"@, value);
            }
            env_vars.insert(String::from_str("PATH"), value);
        },
        _ => {},
    }
    Candidate { binary, env_vars }
}

/// The binary that is run: the elaborated name where there is one.
pub open spec fn elaborated(tool: Seq<char>, tool_elaborated: Option<Seq<char>>) -> Seq<char> {
    match tool_elaborated {
        Some(name) => name,
        None => tool,
    }
}

/// The probe of the candidate `tool_elaborated`, or of `tool` itself where
/// no other name is given.
pub fn clang_tool_probe(
    matcher: Option<&str>,
    tool: &str,
    tool_elaborated: Option<&str>,
    env_vars: OrderedMap<String>,
) -> (probe: Probe)
    requires
        env_vars.wf(),
    ensures
        probe.wf(),
        probe@ == clang_probe(
            optional_text(matcher),
            CandidateView {
                binary: elaborated(tool@, optional_text(tool_elaborated)),
                env_vars: env_vars.text(),
            },
        ),
{
    let binary = match tool_elaborated {
        Some(name) => name,
        None => tool,
    };
    match matcher {
        Some(_) => single_flag(binary, "--version", env_vars, Streams::Capture),
        None => single_flag(binary, "--help", env_vars, Streams::Capture),
    }
}

/// Whether the candidate `tool_elaborated` stands for `tool`, going by the
/// outcome of its probe: it has to have run successfully and, where a
/// pattern is given, to report a version that begins with the required one.
/// The overlay of an accepted candidate holds `env_vars`, and the
/// candidate's name where that is not the tool's.
pub fn try_validate_clang_tool(
    config: &Config,
    matcher: Option<&str>,
    tool: &str,
    tool_elaborated: Option<&str>,
    env_vars: OrderedMap<String>,
    outcome: ProbeOutcome,
) -> (r: Result<Validation, ValidationError>)
    requires
        env_vars.wf(),
    ensures
        r matches Ok(v) ==> v.wf(),
        outcome_view(r) == clang_verdict(
            config.xtask.clang.version@,
            optional_text(matcher),
            tool@,
            CandidateView {
                binary: elaborated(tool@, optional_text(tool_elaborated)),
                env_vars: env_vars.text(),
            },
            outcome@,
        ),
{
    let binary = match tool_elaborated {
        Some(name) => name,
        None => tool,
    };
    match outcome {
        ProbeOutcome::NotFound { message } => Err(
            ValidationError::reported(ErrorKind::NotFound, message),
        ),
        ProbeOutcome::SpawnFailed { message } => Err(
            ValidationError::reported(ErrorKind::SpawnFailed, message),
        ),
        ProbeOutcome::Exited { success, stdout } => {
            if !success {
                return Err(ValidationError::probe_failed(tool));
            }
            let mut tools: OrderedMap<String> = no_env_vars();
            if !same(binary, tool) {
                let name = String::from_str(binary);
                proof {
                    lemma_text_insert(tools@, tool@, name);
                }
                tools.insert(String::from_str(tool), name);
            }
            let validation = Validation { tools, env_vars };
            match match_version(tool, config.xtask.clang.version.as_str(), matcher, stdout) {
                Ok(_) => Ok(validation),
                Err(e) => Err(e),
            }
        },
    }
}

/// The request with which a candidate is put to the test: its probe, or the
/// error for a pattern that is not a regular expression.
pub open spec fn clang_request(config: &Config, tool: Seq<char>, attempt: Attempt, path: Seq<char>) -> Result<
    ProbeView,
    ErrorView,
> {
    match matcher_for(config, tool) {
        Some(p) if pattern_complaint(p) is Some => Err(
            reported(ErrorKind::InvalidMatcher, pattern_complaint(p)->0),
        ),
        matcher => Ok(
            clang_probe(
                matcher,
                candidate_on(config.xtask.clang.suffix@, tool, attempt, path),
            ),
        ),
    }
}

/// One step of a resolution.
#[derive(Clone, Debug, PartialEq, Eq)]
pub enum Resolution {
    /// The candidate was accepted; this is its overlay.
    Resolved(Validation),
    /// The candidate failed; the next one is to be probed.
    Next(Attempt),
    /// The last candidate failed.
    Failed(ValidationError),
}

/// A step of a resolution as plain mathematical data.
pub enum ResolutionView {
    Resolved(ValidationView),
    Next(Attempt),
    Failed(ErrorView),
}

impl View for Resolution {
    type V = ResolutionView;

    open spec fn view(&self) -> ResolutionView {
        match self {
            Resolution::Resolved(v) => ResolutionView::Resolved(v@),
            Resolution::Next(a) => ResolutionView::Next(*a),
            Resolution::Failed(e) => ResolutionView::Failed(e@),
        }
    }
}

/// What the outcome of the probe of one candidate means for the resolution
/// of `tool`: an accepted candidate ends it; a failed one hands over to the
/// next, without a word; and the failure of the last one is reported as the
/// failure to validate the tool, under the kind of that last failure.
pub open spec fn resolution_step(
    config: &Config,
    tool: Seq<char>,
    attempt: Attempt,
    candidate: CandidateView,
    outcome: OutcomeView,
) -> ResolutionView {
    match clang_verdict(
        config.xtask.clang.version@,
        matcher_for(config, tool),
        tool,
        candidate,
        outcome,
    ) {
        Ok(v) => ResolutionView::Resolved(v),
        Err(e) => match attempt.following() {
            Some(next) => ResolutionView::Next(next),
            None => ResolutionView::Failed(unresolved(e.kind, tool)),
        },
    }
}

/// The probe with which the candidate of `attempt` is put to the test,
/// where `path` is the extended search path.
pub fn clang_tool_request(config: &Config, tool: &str, attempt: Attempt, path: &str) -> (r: Result<
    Probe,
    ValidationError,
>)
    requires
        config.wf(),
    ensures
        r matches Ok(p) ==> p.wf(),
        crate::checks::probe_result_view(r) == clang_request(config, tool@, attempt, path@),
{
    let matcher = config.xtask.clang.matchers.get(tool);
    let pattern = match matcher {
        Some(p) => {
            if let Some(complaint) = check_pattern(p.as_str()) {
                return Err(ValidationError::reported(ErrorKind::InvalidMatcher, complaint));
            }
            Some(p.as_str())
        },
        None => None,
    };
    let c = candidate(config, tool, attempt, path);
    Ok(clang_tool_probe(pattern, tool, Some(c.binary.as_str()), c.env_vars))
}

/// Takes the resolution of `tool` one step further, given the candidate of
/// `attempt` and the outcome of its probe.
pub fn validate_clang_tool(
    config: &Config,
    tool: &str,
    attempt: Attempt,
    candidate: Candidate,
    outcome: ProbeOutcome,
) -> (r: Resolution)
    requires
        config.wf(),
        candidate.env_vars.wf(),
    ensures
        r matches Resolution::Resolved(v) ==> v.wf(),
        r@ == resolution_step(config, tool@, attempt, candidate@, outcome@),
{
    let matcher = match config.xtask.clang.matchers.get(tool) {
        Some(p) => Some(p.as_str()),
        None => None,
    };
    let c = candidate;
    match try_validate_clang_tool(config, matcher, tool, Some(c.binary.as_str()), c.env_vars, outcome) {
        Ok(v) => Resolution::Resolved(v),
        Err(e) => match attempt.next() {
            Some(next) => Resolution::Next(next),
            None => Resolution::Failed(ValidationError::unresolved(e.kind, tool)),
        },
    }
}

/// What the probe of the candidate of `attempt` means, in a world in which
/// each probe has the outcome that `world` gives it.
pub open spec fn verdict_in(
    config: &Config,
    host: &Host,
    tool: Seq<char>,
    attempt: Attempt,
    world: spec_fn(ProbeView) -> OutcomeView,
) -> Result<ValidationView, ErrorView> {
    let matcher = matcher_for(config, tool);
    let candidate = candidate_for(config, host, tool, attempt);
    clang_verdict(
        config.xtask.clang.version@,
        matcher,
        tool,
        candidate,
        world(clang_probe(matcher, candidate)),
    )
}

/// The resolution of `tool` in a given world: the overlay of the first
/// candidate, in the fixed order, whose probe is accepted; and where none is,
/// the failure to validate the tool, under the kind of the last candidate's
/// failure.
pub open spec fn resolution(
    config: &Config,
    host: &Host,
    tool: Seq<char>,
    world: spec_fn(ProbeView) -> OutcomeView,
) -> Result<ValidationView, ErrorView> {
    if verdict_in(config, host, tool, Attempt::Suffixed, world) is Ok {
        verdict_in(config, host, tool, Attempt::Suffixed, world)
    } else if verdict_in(config, host, tool, Attempt::SuffixedOnSearchPath, world) is Ok {
        verdict_in(config, host, tool, Attempt::SuffixedOnSearchPath, world)
    } else if verdict_in(config, host, tool, Attempt::Plain, world) is Ok {
        verdict_in(config, host, tool, Attempt::Plain, world)
    } else {
        match verdict_in(config, host, tool, Attempt::PlainOnSearchPath, world) {
            Ok(v) => Ok(v),
            Err(e) => Err(unresolved(e.kind, tool)),
        }
    }
}

/// Where the steps of a resolution lead, from the candidate of `attempt`
/// on, in a given world.
pub open spec fn steps_from(
    config: &Config,
    host: &Host,
    tool: Seq<char>,
    attempt: Attempt,
    world: spec_fn(ProbeView) -> OutcomeView,
) -> Result<ValidationView, ErrorView>
    decreases attempt.remaining(),
{
    let probe = clang_probe(
        matcher_for(config, tool),
        candidate_for(config, host, tool, attempt),
    );
    match resolution_step(
        config,
        tool,
        attempt,
        candidate_for(config, host, tool, attempt),
        world(probe),
    ) {
        ResolutionView::Resolved(v) => Ok(v),
        ResolutionView::Next(next) => steps_from(config, host, tool, next, world),
        ResolutionView::Failed(e) => Err(e),
    }
}

/// Taken step by step from the first candidate, a resolution ends where
/// `resolution` says: the order of the candidates is fixed, and the outcome
/// depends on nothing but the configuration, the host and the world.
pub proof fn lemma_steps_reach_resolution(
    config: &Config,
    host: &Host,
    tool: Seq<char>,
    world: spec_fn(ProbeView) -> OutcomeView,
)
    ensures
        steps_from(config, host, tool, Attempt::Suffixed, world) == resolution(
            config,
            host,
            tool,
            world,
        ),
{
    reveal_with_fuel(steps_from, 5);
}

/// Where the suffixed candidate on the ambient search path is accepted, it
/// is the one chosen, whatever the other candidates would have done; and
/// with a suffix that is not empty its overlay maps the tool's name to the
/// suffixed name, and holds no variable.
pub proof fn lemma_suffixed_candidate_wins(
    config: &Config,
    host: &Host,
    tool: Seq<char>,
    world: spec_fn(ProbeView) -> OutcomeView,
)
    requires
        verdict_in(config, host, tool, Attempt::Suffixed, world) is Ok,
    ensures
        resolution(config, host, tool, world) == verdict_in(
            config,
            host,
            tool,
            Attempt::Suffixed,
            world,
        ),
        resolution(config, host, tool, world) matches Ok(v) && v.env_vars == Map::<
            Seq<char>,
            Seq<char>,
        >::empty() && (config.xtask.clang.suffix@.len() > 0 ==> v.tools == Map::<
            Seq<char>,
            Seq<char>,
        >::empty().insert(tool, tool + config.xtask.clang.suffix@)),
{
    let suffixed = tool + config.xtask.clang.suffix@;
    if config.xtask.clang.suffix@.len() > 0 {
        assert(suffixed.len() != tool.len());
    }
}

/// An accepted candidate is remapped exactly if its binary goes by another
/// name than the tool, and no other name is ever mapped.
pub proof fn lemma_remapping(tool: Seq<char>, candidate: CandidateView)
    ensures
        clang_validation(tool, candidate).tools.contains_key(tool) <==> candidate.binary != tool,
        forall|k: Seq<char>| clang_validation(tool, candidate).tools.contains_key(k) ==> k == tool,
{
}

/// For a tool without a version pattern, a probe that exits zero is
/// accepted, whatever it wrote.
pub proof fn lemma_success_without_pattern_is_accepted(
    required: Seq<char>,
    tool: Seq<char>,
    candidate: CandidateView,
    stdout: Seq<u8>,
)
    ensures
        clang_verdict(
            required,
            None,
            tool,
            candidate,
            OutcomeView::Exited { success: true, stdout },
        ) == Ok::<ValidationView, ErrorView>(clang_validation(tool, candidate)),
{
}

} // verus!
