//! A validation under way. Validation cannot run a probe, look at the
//! machine or fetch a script itself, so it is a session that hands out one
//! request at a time and goes on when the reply comes in. What a session
//! does depends on the configuration, its state and the reply alone.

use crate::checks::{
    cargo_component_probe, cargo_component_request, cargo_component_verdict, cargo_tool_probe,
    other_tool_flag, other_tool_probe, other_tool_verdict, python3_probe, status_verdict,
    validate_cargo_component, validate_cargo_tool, validate_other_tool, validate_python3,
    validate_xtask_bin, xtask_bin_probe, xtask_bin_request, xtask_bin_verdict,
};
use crate::config::Config;
use crate::error::{reported, unrecognized_tool, ErrorKind, ErrorView, ValidationError};
use crate::pattern::pattern_complaint;
use crate::probe::{flag_probe, OutcomeView, Probe, ProbeOutcome, ProbeView, Streams};
use crate::resolution::{
    clang_request, clang_tool_request, matcher_for, resolution, resolution_step,
    validate_clang_tool, Attempt, Candidate, CandidateView, Resolution, ResolutionView,
};
use crate::search_path::{augmented_search_path, search_path, Host};
use crate::tool::{CheckKind, CheckView, Tool};
use crate::validation::{lemma_combine_empty, outcome_view, Validation, ValidationView};
use vstd::prelude::*;

verus! {

/// What a session is waiting for.
#[derive(Clone, Copy, Debug, PartialEq, Eq, Structural)]
pub enum Awaiting {
    /// The outcome of the probe of a candidate.
    Candidate(Attempt),
    /// What the machine looks like, before the candidate of this attempt is
    /// probed under the extended search path.
    Locations(Attempt),
    /// The outcome of the one probe of a check.
    Probe,
    /// The outcome of the probe of a helper script; `retry` says whether the
    /// script may still be fetched and probed again.
    Script { retry: bool },
    /// The outcome of fetching a helper script.
    Fetch,
}

/// What the caller is asked to do for a session.
#[derive(Clone, Debug, PartialEq, Eq)]
pub enum Request {
    /// Run the probe and report its outcome.
    Run(Probe),
    /// Look up the platform, the ambient search path and the directories
    /// that the search-path strategies contribute on this machine, and
    /// report them.
    Locate,
    /// Fetch the helper script `name` from `url` into the directory of the
    /// helper scripts, and report whether that worked.
    Fetch { url: String, name: String },
}

/// A request as plain mathematical data.
pub enum RequestView {
    Run(ProbeView),
    Locate,
    Fetch { url: Seq<char>, name: Seq<char> },
}

impl View for Request {
    type V = RequestView;

    open spec fn view(&self) -> RequestView {
        match self {
            Request::Run(p) => RequestView::Run(p@),
            Request::Locate => RequestView::Locate,
            Request::Fetch { url, name } => RequestView::Fetch { url: url@, name: name@ },
        }
    }
}

impl Request {
    /// The overlay of a probe is well-formed.
    pub open spec fn wf(&self) -> bool {
        match self {
            Request::Run(p) => p.wf(),
            Request::Locate => true,
            Request::Fetch { url, name } => true,
        }
    }
}

/// What the caller reports back.
#[derive(Debug, PartialEq, Eq)]
pub enum Reply {
    /// The outcome of the probe that was asked for.
    Probed(ProbeOutcome),
    /// What the machine looks like, or the reason why that could not be
    /// found out.
    Located(Result<Host, String>),
    /// Whether the helper script was fetched, with the reason where it was
    /// not.
    Fetched(Result<(), String>),
}

/// A reply as plain mathematical data.
pub enum ReplyView {
    Probed(OutcomeView),
    Located(Result<Host, Seq<char>>),
    Fetched(Result<(), Seq<char>>),
}

impl View for Reply {
    type V = ReplyView;

    open spec fn view(&self) -> ReplyView {
        match self {
            Reply::Probed(o) => ReplyView::Probed(o@),
            Reply::Located(Ok(host)) => ReplyView::Located(Ok(*host)),
            Reply::Located(Err(reason)) => ReplyView::Located(Err(reason@)),
            Reply::Fetched(Ok(_)) => ReplyView::Fetched(Ok(())),
            Reply::Fetched(Err(reason)) => ReplyView::Fetched(Err(reason@)),
        }
    }
}

/// A validation under way: the tool, the check that has been reached, the
/// request that is out, and the overlay gathered so far.
#[derive(Debug)]
pub struct Session {
    tool: Tool,
    step: usize,
    awaiting: Awaiting,
    validation: Validation,
    request: Request,
}

/// A session as plain mathematical data.
pub struct SessionView {
    pub tool: Tool,
    pub step: nat,
    pub awaiting: Awaiting,
    pub validation: ValidationView,
    pub request: RequestView,
}

impl View for Session {
    type V = SessionView;

    closed spec fn view(&self) -> SessionView {
        SessionView {
            tool: self.tool,
            step: self.step as nat,
            awaiting: self.awaiting,
            validation: self.validation@,
            request: self.request@,
        }
    }
}

impl SessionView {
    /// The check that the session has reached.
    pub open spec fn check(self) -> CheckView {
        self.tool.plan()[self.step as int]
    }

    /// How many requests the session can still make at most, the one that is
    /// out included.
    pub open spec fn budget(self) -> nat {
        (6 * (self.tool.plan().len() - self.step - 1) + match self.awaiting {
            Awaiting::Candidate(attempt) => candidate_budget(attempt),
            Awaiting::Locations(attempt) => candidate_budget(attempt) + 1,
            Awaiting::Probe => 1,
            Awaiting::Script { retry } => if retry {
                3
            } else {
                1
            },
            Awaiting::Fetch => 2,
        }) as nat
    }
}

/// How many requests a resolution can still make at most when the candidate
/// of `attempt` is being probed, that probe included: a probe for each
/// candidate that is left, and a look at the machine before each of them
/// that runs under the extended search path.
pub open spec fn candidate_budget(attempt: Attempt) -> int {
    match attempt {
        Attempt::Suffixed => 6,
        Attempt::SuffixedOnSearchPath => 4,
        Attempt::Plain => 3,
        Attempt::PlainOnSearchPath => 1,
    }
}

/// How far a validation has come.
#[derive(Debug)]
pub enum Progress {
    /// The session waits for the reply to its request.
    Pending(Session),
    /// The validation is over: the overlay under which the tool runs, or the
    /// reason why it cannot be used.
    Finished(Result<Validation, ValidationError>),
}

/// Progress as plain mathematical data.
pub enum ProgressView {
    Pending(SessionView),
    Finished(Result<ValidationView, ErrorView>),
}

impl View for Progress {
    type V = ProgressView;

    open spec fn view(&self) -> ProgressView {
        match self {
            Progress::Pending(s) => ProgressView::Pending(s@),
            Progress::Finished(r) => ProgressView::Finished(outcome_view(*r)),
        }
    }
}

impl Progress {
    /// What the progress holds is well-formed.
    pub open spec fn wf(&self) -> bool {
        match self {
            Progress::Pending(s) => s.wf(),
            Progress::Finished(Ok(v)) => v.wf(),
            Progress::Finished(Err(_)) => true,
        }
    }
}

/// How a check opens: what the session then waits for, and the probe that it
/// asks for, or the error that ends the validation before any probe.
pub open spec fn opening(config: &Config, check: CheckView, validation: ValidationView) -> (
    Awaiting,
    Result<ProbeView, ErrorView>,
) {
    match check.kind {
        CheckKind::ClangTool => (
            Awaiting::Candidate(Attempt::Suffixed),
            clang_request(config, check.subject, Attempt::Suffixed, Seq::empty()),
        ),
        CheckKind::CargoComponent => (
            Awaiting::Probe,
            cargo_component_request(config, check.subject),
        ),
        CheckKind::CargoTool => (
            Awaiting::Probe,
            Ok(flag_probe(check.subject, "--help"@, Map::empty(), Streams::DiscardStdout)),
        ),
        CheckKind::OtherTool => (
            Awaiting::Probe,
            Ok(
                flag_probe(
                    check.subject,
                    other_tool_flag(check.subject),
                    validation.env_vars,
                    Streams::DiscardBoth,
                ),
            ),
        ),
        CheckKind::Python3 => (
            Awaiting::Probe,
            Ok(flag_probe("python3"@, "--help"@, Map::empty(), Streams::DiscardStdout)),
        ),
        CheckKind::XtaskBin => (Awaiting::Script { retry: true }, xtask_bin_request(check.subject)),
    }
}

/// A session that waits for the outcome of `probe`; or, where there is an
/// error in place of a probe, the end of the validation.
pub open spec fn asking(
    tool: Tool,
    step: nat,
    awaiting: Awaiting,
    validation: ValidationView,
    probe: Result<ProbeView, ErrorView>,
) -> ProgressView {
    match probe {
        Ok(p) => ProgressView::Pending(
            SessionView { tool, step, awaiting, validation, request: RequestView::Run(p) },
        ),
        Err(e) => ProgressView::Finished(Err(e)),
    }
}

/// Where a validation stands when check number `step` is reached with the
/// overlay `validation`: past the last check it is over and the overlay is
/// its result; otherwise the check opens.
pub open spec fn entering(
    config: &Config,
    tool: Tool,
    step: nat,
    validation: ValidationView,
) -> ProgressView {
    if step >= tool.plan().len() {
        ProgressView::Finished(Ok(validation))
    } else {
        let (awaiting, probe) = opening(config, tool.plan()[step as int], validation);
        asking(tool, step, awaiting, validation, probe)
    }
}

/// Where the validation of the tool called `name` begins. A name that no
/// tool has ends it at once, before any request.
pub open spec fn beginning(config: &Config, name: Seq<char>) -> ProgressView {
    match Tool::named(name) {
        None => ProgressView::Finished(Err(unrecognized_tool(name))),
        Some(tool) => entering(config, tool, 0, ValidationView::empty()),
    }
}

/// Where a check of which only the exit status counts leaves the session.
pub open spec fn after_check(
    config: &Config,
    s: SessionView,
    verdict: Result<(), ErrorView>,
) -> ProgressView {
    match verdict {
        Ok(_) => entering(config, s.tool, s.step + 1, s.validation),
        Err(e) => ProgressView::Finished(Err(e)),
    }
}

/// The candidate that a probe stands for: its binary and its environment.
pub open spec fn probed_candidate(probe: ProbeView) -> CandidateView {
    CandidateView { binary: probe.program, env_vars: probe.env_vars }
}

/// What follows a candidate that has failed: the next candidate is probed
/// at once where it runs under the ambient search path; where it runs under
/// the extended one, the machine is looked at first.
pub open spec fn handing_over(config: &Config, s: SessionView, next: Attempt) -> ProgressView {
    if next.on_search_path() {
        ProgressView::Pending(
            SessionView {
                awaiting: Awaiting::Locations(next),
                request: RequestView::Locate,
                ..s
            },
        )
    } else {
        asking(
            s.tool,
            s.step,
            Awaiting::Candidate(next),
            s.validation,
            clang_request(config, s.check().subject, next, Seq::empty()),
        )
    }
}

/// Where a reply takes a session.
///
/// - A candidate that is accepted adds its overlay to the one gathered so
///   far, and the next check is entered. One that fails hands over to the
///   next candidate; the failure of the last one ends the validation.
/// - The machine is looked at only when a candidate needs the extended
///   search path. Where that fails, the validation ends.
/// - A check with one probe is passed or ends the validation.
/// - A helper script that runs is in place. One that does not is fetched
///   once and probed once more; if it still does not run, the validation
///   ends with that failure.
/// - A reply that does not answer the request leaves the session as it is.
pub open spec fn resuming(config: &Config, s: SessionView, reply: ReplyView) -> ProgressView {
    let subject = s.check().subject;
    match (s.awaiting, reply, s.request) {
        (
            Awaiting::Candidate(attempt),
            ReplyView::Probed(outcome),
            RequestView::Run(probe),
        ) => match resolution_step(config, subject, attempt, probed_candidate(probe), outcome) {
            ResolutionView::Resolved(v) => entering(
                config,
                s.tool,
                s.step + 1,
                s.validation.combine(v),
            ),
            ResolutionView::Next(next) => handing_over(config, s, next),
            ResolutionView::Failed(e) => ProgressView::Finished(Err(e)),
        },
        (Awaiting::Locations(attempt), ReplyView::Located(found), _) => match found {
            Err(reason) => ProgressView::Finished(Err(reported(ErrorKind::LookupFailed, reason))),
            Ok(host) => asking(
                s.tool,
                s.step,
                Awaiting::Candidate(attempt),
                s.validation,
                clang_request(config, subject, attempt, search_path(config, &host)),
            ),
        },
        (Awaiting::Probe, ReplyView::Probed(outcome), _) => match s.check().kind {
            CheckKind::CargoComponent => after_check(
                config,
                s,
                cargo_component_verdict(config, subject, outcome),
            ),
            CheckKind::CargoTool => after_check(
                config,
                s,
                status_verdict(Some(subject), subject, outcome),
            ),
            CheckKind::OtherTool => after_check(
                config,
                s,
                match other_tool_verdict(subject, outcome) {
                    Ok(_) => Ok(()),
                    Err(e) => Err(e),
                },
            ),
            CheckKind::Python3 => after_check(
                config,
                s,
                status_verdict(Some("python3"@), "python3"@, outcome),
            ),
            _ => ProgressView::Pending(s),
        },
        (Awaiting::Script { retry }, ReplyView::Probed(outcome), _) => match xtask_bin_verdict(
            subject,
            retry,
            outcome,
        ) {
            Ok(None) => entering(config, s.tool, s.step + 1, s.validation),
            Ok(Some(url)) => ProgressView::Pending(
                SessionView {
                    awaiting: Awaiting::Fetch,
                    request: RequestView::Fetch { url, name: subject },
                    ..s
                },
            ),
            Err(e) => ProgressView::Finished(Err(e)),
        },
        (Awaiting::Fetch, ReplyView::Fetched(fetched), _) => match fetched {
            Err(reason) => ProgressView::Finished(Err(reported(ErrorKind::FetchFailed, reason))),
            Ok(_) => asking(
                s.tool,
                s.step,
                Awaiting::Script { retry: false },
                s.validation,
                xtask_bin_request(subject),
            ),
        },
        _ => ProgressView::Pending(s),
    }
}

/// Whether `reply` is of the sort that `awaiting` waits for.
pub open spec fn answers(awaiting: Awaiting, reply: ReplyView) -> bool {
    match awaiting {
        Awaiting::Fetch => reply is Fetched,
        Awaiting::Locations(_) => reply is Located,
        _ => reply is Probed,
    }
}

impl Session {
    /// The overlay and the request are well-formed, and the session stands
    /// at a check of its tool's plan.
    pub closed spec fn wf(&self) -> bool {
        &&& self.validation.wf()
        &&& self.request.wf()
        &&& self.step < self.tool.plan().len()
    }

    /// The request that the session waits on.
    pub fn request(&self) -> (request: &Request)
        ensures
            request@ == self@.request,
            self.wf() ==> request.wf(),
    {
        &self.request
    }

    /// The session after `reply` has come in.
    pub fn resume(self, config: &Config, reply: Reply) -> (progress: Progress)
        requires
            self.wf(),
            config.wf(),
        ensures
            progress.wf(),
            progress@ == resuming(config, self@, reply@),
    {
        let check = self.tool.check_at(self.step);
        let subject = check.subject;
        let Session { tool, step, awaiting, validation, request } = self;
        match (awaiting, reply, request) {
            (Awaiting::Candidate(attempt), Reply::Probed(outcome), Request::Run(probe)) => {
                let candidate = Candidate { binary: probe.program, env_vars: probe.env_vars };
                match validate_clang_tool(config, subject, attempt, candidate, outcome) {
                    Resolution::Resolved(v) => {
                        let mut validation = validation;
                        validation.combine(v);
                        enter(config, tool, step + 1, validation)
                    },
                    Resolution::Next(next) => match next {
                        Attempt::SuffixedOnSearchPath | Attempt::PlainOnSearchPath => {
                            Progress::Pending(
                                Session {
                                    tool,
                                    step,
                                    awaiting: Awaiting::Locations(next),
                                    validation,
                                    request: Request::Locate,
                                },
                            )
                        },
                        _ => {
                            proof {
                                reveal_strlit("");
                                assert(""@ =~= Seq::<char>::empty());
                            }
                            ask(
                                tool,
                                step,
                                Awaiting::Candidate(next),
                                validation,
                                clang_tool_request(config, subject, next, ""),
                            )
                        },
                    },
                    Resolution::Failed(e) => Progress::Finished(Err(e)),
                }
            },
            (Awaiting::Locations(attempt), Reply::Located(found), _) => {
                match found {
                    Err(reason) => Progress::Finished(
                        Err(ValidationError::reported(ErrorKind::LookupFailed, reason)),
                    ),
                    Ok(host) => {
                        let path = augmented_search_path(config, &host);
                        ask(
                            tool,
                            step,
                            Awaiting::Candidate(attempt),
                            validation,
                            clang_tool_request(config, subject, attempt, path.as_str()),
                        )
                    },
                }
            },
            (Awaiting::Probe, Reply::Probed(outcome), request) => {
                let verdict = match check.kind {
                    CheckKind::CargoComponent => validate_cargo_component(config, subject, outcome),
                    CheckKind::CargoTool => validate_cargo_tool(subject, outcome),
                    CheckKind::OtherTool => match validate_other_tool(subject, outcome) {
                        Ok(_) => Ok(()),
                        Err(e) => Err(e),
                    },
                    CheckKind::Python3 => validate_python3(outcome),
                    _ => {
                        return Progress::Pending(
                            Session { tool, step, awaiting, validation, request },
                        );
                    },
                };
                match verdict {
                    Ok(_) => enter(config, tool, step + 1, validation),
                    Err(e) => Progress::Finished(Err(e)),
                }
            },
            (Awaiting::Script { retry }, Reply::Probed(outcome), _) => {
                match validate_xtask_bin(subject, retry, outcome) {
                    Ok(None) => enter(config, tool, step + 1, validation),
                    Ok(Some(url)) => Progress::Pending(
                        Session {
                            tool,
                            step,
                            awaiting: Awaiting::Fetch,
                            validation,
                            request: Request::Fetch { url, name: String::from_str(subject) },
                        },
                    ),
                    Err(e) => Progress::Finished(Err(e)),
                }
            },
            (Awaiting::Fetch, Reply::Fetched(fetched), _) => {
                match fetched {
                    Err(reason) => Progress::Finished(
                        Err(ValidationError::reported(ErrorKind::FetchFailed, reason)),
                    ),
                    Ok(_) => ask(
                        tool,
                        step,
                        Awaiting::Script { retry: false },
                        validation,
                        xtask_bin_probe(subject),
                    ),
                }
            },
            (awaiting, _, request) => Progress::Pending(
                Session { tool, step, awaiting, validation, request },
            ),
        }
    }
}

/// A session that waits for the outcome of `probe`; or, where there is an
/// error in place of a probe, the end of the validation.
fn ask(
    tool: Tool,
    step: usize,
    awaiting: Awaiting,
    validation: Validation,
    probe: Result<Probe, ValidationError>,
) -> (progress: Progress)
    requires
        validation.wf(),
        step < tool.plan().len(),
        probe matches Ok(p) ==> p.wf(),
    ensures
        progress.wf(),
        progress@ == asking(
            tool,
            step as nat,
            awaiting,
            validation@,
            crate::checks::probe_result_view(probe),
        ),
{
    match probe {
        Ok(p) => Progress::Pending(
            Session { tool, step, awaiting, validation, request: Request::Run(p) },
        ),
        Err(e) => Progress::Finished(Err(e)),
    }
}

/// Enters check number `step` of the plan of `tool`.
pub(crate) fn enter(config: &Config, tool: Tool, step: usize, validation: Validation) -> (progress:
    Progress)
    requires
        config.wf(),
        validation.wf(),
        step <= tool.plan().len(),
    ensures
        progress.wf(),
        progress@ == entering(config, tool, step as nat, validation@),
{
    if step >= tool.checks() {
        return Progress::Finished(Ok(validation));
    }
    let check = tool.check_at(step);
    let subject = check.subject;
    match check.kind {
        CheckKind::ClangTool => {
            proof {
                reveal_strlit("");
                assert(""@ =~= Seq::<char>::empty());
            }
            ask(
                tool,
                step,
                Awaiting::Candidate(Attempt::Suffixed),
                validation,
                clang_tool_request(config, subject, Attempt::Suffixed, ""),
            )
        },
        CheckKind::CargoComponent => ask(
            tool,
            step,
            Awaiting::Probe,
            validation,
            cargo_component_probe(config, subject),
        ),
        CheckKind::CargoTool => ask(
            tool,
            step,
            Awaiting::Probe,
            validation,
            Ok(cargo_tool_probe(subject)),
        ),
        CheckKind::OtherTool => {
            let env_vars = validation.env_vars.duplicate();
            ask(tool, step, Awaiting::Probe, validation, Ok(other_tool_probe(subject, env_vars)))
        },
        CheckKind::Python3 => ask(tool, step, Awaiting::Probe, validation, Ok(python3_probe())),
        CheckKind::XtaskBin => ask(
            tool,
            step,
            Awaiting::Script { retry: true },
            validation,
            xtask_bin_probe(subject),
        ),
    }
}

/// Whether a session may wait for `awaiting` at a check of this kind.
pub open spec fn fits(kind: CheckKind, awaiting: Awaiting) -> bool {
    match kind {
        CheckKind::ClangTool => match awaiting {
            Awaiting::Candidate(_) => true,
            Awaiting::Locations(attempt) => attempt.on_search_path(),
            _ => false,
        },
        CheckKind::XtaskBin => awaiting is Script || awaiting is Fetch,
        _ => awaiting == Awaiting::Probe,
    }
}

impl SessionView {
    /// The session stands at a check of its tool's plan, waits for what
    /// that check asks for, and has the request out that it waits for.
    pub open spec fn consistent(self) -> bool {
        &&& self.step < self.tool.plan().len()
        &&& fits(self.check().kind, self.awaiting)
        &&& (self.awaiting is Fetch <==> self.request is Fetch)
        &&& (self.awaiting is Locations <==> self.request is Locate)
    }
}

/// The session that a validation begins with is consistent.
pub proof fn lemma_first_session_is_consistent(config: &Config, name: Seq<char>)
    ensures
        beginning(config, name) matches ProgressView::Pending(first) ==> first.consistent(),
{
}

/// A reply leads from a consistent session to a consistent session of the
/// same tool.
pub proof fn lemma_sessions_stay_consistent(config: &Config, s: SessionView, reply: ReplyView)
    requires
        s.consistent(),
    ensures
        resuming(config, s, reply) matches ProgressView::Pending(next) ==> next.consistent()
            && next.tool == s.tool,
{
}

/// A validation ends: each reply that answers the request of a consistent
/// session either ends the validation or leaves a session with a smaller
/// budget, and no budget is over eighteen requests.
pub proof fn lemma_each_answer_is_progress(config: &Config, s: SessionView, reply: ReplyView)
    requires
        s.consistent(),
        answers(s.awaiting, reply),
    ensures
        1 <= s.budget() <= 18,
        resuming(config, s, reply) matches ProgressView::Pending(next) ==> next.budget()
            < s.budget(),
{
}

/// A reply that does not answer the request changes nothing.
pub proof fn lemma_other_replies_are_ignored(config: &Config, s: SessionView, reply: ReplyView)
    requires
        !answers(s.awaiting, reply),
    ensures
        resuming(config, s, reply) == ProgressView::Pending(s),
{
}

/// Outside a resolution nothing is added to the overlay: a reply to a
/// session that does not wait for a candidate leaves the overlay as it is,
/// where the validation goes on and where it succeeds.
pub proof fn lemma_checks_keep_the_overlay(config: &Config, s: SessionView, reply: ReplyView)
    requires
        s.consistent(),
        !(s.awaiting is Candidate),
    ensures
        resuming(config, s, reply) matches ProgressView::Pending(next) ==> next.validation
            == s.validation,
        resuming(config, s, reply) matches ProgressView::Finished(Ok(v)) ==> v == s.validation,
{
}

/// Only an accepted candidate adds to the overlay, and what it adds is its
/// own overlay, combined onto the one gathered so far: that is the overlay
/// with which the validation goes on, or succeeds where this was the last
/// check. A candidate that is not accepted leaves the overlay as it is, and
/// the validation does not succeed on its account.
pub proof fn lemma_accepted_candidates_add(
    config: &Config,
    s: SessionView,
    attempt: Attempt,
    probe: ProbeView,
    outcome: OutcomeView,
)
    requires
        s.consistent(),
        s.awaiting == Awaiting::Candidate(attempt),
        s.request == RequestView::Run(probe),
    ensures
        match resolution_step(
            config,
            s.check().subject,
            attempt,
            probed_candidate(probe),
            outcome,
        ) {
            ResolutionView::Resolved(v) => match resuming(config, s, ReplyView::Probed(outcome)) {
                ProgressView::Pending(next) => next.validation == s.validation.combine(v),
                ProgressView::Finished(r) => r is Ok ==> r == Ok::<ValidationView, ErrorView>(
                    s.validation.combine(v),
                ),
            },
            _ => match resuming(config, s, ReplyView::Probed(outcome)) {
                ProgressView::Pending(next) => next.validation == s.validation,
                ProgressView::Finished(r) => r is Err,
            },
        },
{
}

/// A helper script is fetched once and probed once more: when the probe
/// after the fetch exits non-zero, the validation ends with that failure,
/// and whatever the probe after the fetch brings, no second fetch is asked
/// for.
pub proof fn lemma_script_is_fetched_once(config: &Config, s: SessionView, reply: ReplyView)
    requires
        s.consistent(),
        s.awaiting == (Awaiting::Script { retry: false }),
    ensures
        !(resuming(config, s, reply) matches ProgressView::Pending(next) && next.request is Fetch),
        reply matches ReplyView::Probed(OutcomeView::Exited { success: false, stdout })
            && crate::checks::script_source(s.check().subject) is Some ==> resuming(
            config,
            s,
            reply,
        ) == ProgressView::Finished(Err(crate::error::probe_failed(s.check().subject))),
{
}

/// Where a validation ends in a world in which each request has the reply
/// that `world` gives it; nothing where it is not over after `fuel` replies.
pub open spec fn outcome_in(
    config: &Config,
    progress: ProgressView,
    world: spec_fn(RequestView) -> ReplyView,
    fuel: nat,
) -> Option<Result<ValidationView, ErrorView>>
    decreases fuel,
{
    match progress {
        ProgressView::Finished(r) => Some(r),
        ProgressView::Pending(s) => if fuel == 0 {
            None
        } else {
            outcome_in(config, resuming(config, s, world(s.request)), world, (fuel - 1) as nat)
        },
    }
}

/// The world answers each request with a reply of the right sort.
pub open spec fn answering(world: spec_fn(RequestView) -> ReplyView) -> bool {
    forall|r: RequestView|
        (r is Fetch <==> #[trigger] world(r) is Fetched) && (r is Locate <==> world(r) is Located)
}

/// From a consistent session a validation is over after as many replies as
/// the session's budget allows.
pub proof fn lemma_session_ends(
    config: &Config,
    s: SessionView,
    world: spec_fn(RequestView) -> ReplyView,
    fuel: nat,
)
    requires
        s.consistent(),
        answering(world),
        fuel >= s.budget(),
    ensures
        outcome_in(config, ProgressView::Pending(s), world, fuel) is Some,
    decreases fuel,
{
    reveal_with_fuel(outcome_in, 2);
    let reply = world(s.request);
    lemma_each_answer_is_progress(config, s, reply);
    lemma_sessions_stay_consistent(config, s, reply);
    match resuming(config, s, reply) {
        ProgressView::Pending(next) => {
            lemma_session_ends(config, next, world, (fuel - 1) as nat);
        },
        ProgressView::Finished(_) => {},
    }
}

/// Every validation ends: in a world that answers each request, the
/// validation of any name is over after eighteen replies at most.
pub proof fn lemma_every_validation_ends(
    config: &Config,
    name: Seq<char>,
    world: spec_fn(RequestView) -> ReplyView,
)
    requires
        answering(world),
    ensures
        outcome_in(config, beginning(config, name), world, 18) is Some,
{
    match beginning(config, name) {
        ProgressView::Pending(first) => {
            lemma_first_session_is_consistent(config, name);
            lemma_each_answer_is_progress(config, first, world(first.request));
            lemma_session_ends(config, first, world, 18);
        },
        ProgressView::Finished(_) => {},
    }
}

/// The world of the machine `host`, in which each probe has the outcome
/// that `probes` gives it and each fetch succeeds.
pub open spec fn probing(probes: spec_fn(ProbeView) -> OutcomeView, host: Host) -> spec_fn(
    RequestView,
) -> ReplyView {
    |r: RequestView|
        match r {
            RequestView::Run(p) => ReplyView::Probed(probes(p)),
            RequestView::Locate => ReplyView::Located(Ok(host)),
            RequestView::Fetch { url, name } => ReplyView::Fetched(Ok(())),
        }
}

/// For a tool that takes a single resolution, the validation, run reply by
/// reply, ends where `resolution` says, after four probes and two looks at
/// the machine at most. So the candidates are tried in their fixed order,
/// the first one accepted is taken, and no failure but the last one's is
/// reported.
pub proof fn lemma_validation_is_resolution(
    config: &Config,
    host: Host,
    tool: Tool,
    probes: spec_fn(ProbeView) -> OutcomeView,
)
    requires
        tool == Tool::Clang || tool == Tool::ClangPlusPlus || tool == Tool::Clangd,
        matcher_for(config, tool.name()) matches Some(p) ==> pattern_complaint(p) is None,
    ensures
        outcome_in(config, beginning(config, tool.name()), probing(probes, host), 6) == Some(
            resolution(config, &host, tool.name(), probes),
        ),
{
    crate::tool::lemma_named_by_name(tool);
    reveal_with_fuel(outcome_in, 7);
    assert forall|v: ValidationView| #[trigger] ValidationView::empty().combine(v) == v by {
        lemma_combine_empty(v);
    }
}

/// Where the first candidate of a resolution is accepted, the machine is
/// never looked at: the validation is over after that one probe.
pub proof fn lemma_first_candidate_needs_no_lookup(
    config: &Config,
    tool: Tool,
    world: spec_fn(RequestView) -> ReplyView,
)
    requires
        tool == Tool::Clang || tool == Tool::ClangPlusPlus || tool == Tool::Clangd,
        beginning(config, tool.name()) matches ProgressView::Pending(first) && first.request
            matches RequestView::Run(probe) && world(first.request) matches ReplyView::Probed(
            outcome,
        ) && resolution_step(
            config,
            tool.name(),
            Attempt::Suffixed,
            probed_candidate(probe),
            outcome,
        ) is Resolved,
    ensures
        outcome_in(config, beginning(config, tool.name()), world, 1) is Some,
{
    crate::tool::lemma_named_by_name(tool);
    reveal_with_fuel(outcome_in, 2);
}

/// A tool outside the compiler suite is settled by a single probe, with no
/// fallback: its validation is over after one reply.
pub proof fn lemma_direct_tools_take_one_probe(
    config: &Config,
    tool: Tool,
    world: spec_fn(RequestView) -> ReplyView,
)
    requires
        answering(world),
        tool.plan().len() == 1,
        tool.plan()[0].kind != CheckKind::ClangTool,
    ensures
        outcome_in(config, beginning(config, tool.name()), world, 1) is Some,
{
    crate::tool::lemma_named_by_name(tool);
    match beginning(config, tool.name()) {
        ProgressView::Pending(first) => {
            lemma_first_session_is_consistent(config, tool.name());
            lemma_session_ends(config, first, world, 1);
        },
        ProgressView::Finished(_) => {},
    }
}

/// A version pattern that is not a regular expression ends the validation
/// of its tool before any probe.
pub proof fn lemma_broken_matcher_ends_validation(config: &Config, tool: Tool)
    requires
        tool.plan()[0].kind == CheckKind::ClangTool,
        matcher_for(config, tool.name()) matches Some(p) && pattern_complaint(p) is Some,
    ensures
        beginning(config, tool.name()) == ProgressView::Finished(
            Err(
                reported(
                    ErrorKind::InvalidMatcher,
                    pattern_complaint(matcher_for(config, tool.name())->0)->0,
                ),
            ),
        ),
{
    crate::tool::lemma_named_by_name(tool);
}

/// The analyzer needs its driver: the validation of the analyzer ends,
/// after twelve requests at most, with the overlays of both resolutions
/// combined, or with the failure of the first resolution that fails.
#[verifier::rlimit(100)]
#[verifier::spinoff_prover]
pub proof fn lemma_analyzer_needs_its_driver(
    config: &Config,
    host: Host,
    probes: spec_fn(ProbeView) -> OutcomeView,
)
    requires
        matcher_for(config, "clang-tidy"@) matches Some(p) ==> pattern_complaint(p) is None,
        matcher_for(config, "run-clang-tidy"@) matches Some(p) ==> pattern_complaint(p) is None,
    ensures
        outcome_in(config, beginning(config, "clang-tidy"@), probing(probes, host), 12) == Some(
            match resolution(config, &host, "clang-tidy"@, probes) {
                Err(e) => Err(e),
                Ok(tool) => match resolution(config, &host, "run-clang-tidy"@, probes) {
                    Err(e) => Err(e),
                    Ok(driver) => Ok(tool.combine(driver)),
                },
            },
        ),
{
    crate::tool::lemma_named_by_name(Tool::ClangTidy);
    reveal_with_fuel(outcome_in, 13);
    assert forall|v: ValidationView| #[trigger] ValidationView::empty().combine(v) == v by {
        lemma_combine_empty(v);
    }
}

/// The formatter needs the script launcher and the formatting script. In a
/// world in which a probe always has the same outcome and every fetch
/// succeeds, the validation of the formatter ends, after ten requests at
/// most, with the overlay of its resolution, unless the resolution fails,
/// the launcher fails, or the script does not run: a script that does not
/// run before the fetch does not run after it either in such a world, and
/// the failure of the second probe is the result. The launcher and the
/// script add nothing to the overlay.
pub proof fn lemma_formatter_needs_launcher_and_script(
    config: &Config,
    host: Host,
    probes: spec_fn(ProbeView) -> OutcomeView,
)
    requires
        matcher_for(config, "clang-format"@) matches Some(p) ==> pattern_complaint(p) is None,
    ensures
        outcome_in(config, beginning(config, "clang-format"@), probing(probes, host), 10) == Some(
            match resolution(config, &host, "clang-format"@, probes) {
                Err(e) => Err(e),
                Ok(v) => match status_verdict(
                    Some("python3"@),
                    "python3"@,
                    probes(flag_probe("python3"@, "--help"@, Map::empty(), Streams::DiscardStdout)),
                ) {
                    Err(e) => Err(e),
                    Ok(_) => match xtask_bin_verdict(
                        "run-clang-format.py"@,
                        true,
                        probes(crate::checks::script_probe("run-clang-format.py"@)),
                    ) {
                        Err(e) => Err(e),
                        Ok(None) => Ok(v),
                        Ok(Some(_)) => match xtask_bin_verdict(
                            "run-clang-format.py"@,
                            false,
                            probes(crate::checks::script_probe("run-clang-format.py"@)),
                        ) {
                            Err(e) => Err(e),
                            Ok(_) => Ok(v),
                        },
                    },
                },
            },
        ),
{
    crate::tool::lemma_named_by_name(Tool::ClangFormat);
    reveal_with_fuel(outcome_in, 11);
    assert forall|v: ValidationView| #[trigger] ValidationView::empty().combine(v) == v by {
        lemma_combine_empty(v);
    }
}

/// The request names what it is about: a probe has a binary to run, and a
/// fetch has a script and an address.
pub open spec fn well_named(request: RequestView) -> bool {
    match request {
        RequestView::Run(p) => p.program.len() > 0,
        RequestView::Locate => true,
        RequestView::Fetch { url, name } => url.len() > 0 && name.len() > 0,
    }
}

/// The first request of a validation is well named.
pub proof fn lemma_first_request_is_well_named(config: &Config, name: Seq<char>)
    ensures
        beginning(config, name) matches ProgressView::Pending(first) ==> well_named(first.request),
{
    reveal_strlit("cargo");
    reveal_strlit("python3");
    if let Some(tool) = Tool::named(name) {
        crate::tool::lemma_subjects_are_named(tool, 0);
    }
}

/// No session asks for a probe of a binary without a name: each request
/// that an answer leads to is well named.
pub proof fn lemma_requests_stay_well_named(config: &Config, s: SessionView, reply: ReplyView)
    requires
        s.consistent(),
        answers(s.awaiting, reply),
    ensures
        resuming(config, s, reply) matches ProgressView::Pending(next) ==> well_named(
            next.request,
        ),
{
    reveal_strlit("cargo");
    reveal_strlit("python3");
    reveal_strlit("run-clang-format.py");
    reveal_strlit(
        "https://raw.githubusercontent.com/Sarcasm/run-clang-format/master/run-clang-format.py",
    );
    crate::tool::lemma_subjects_are_named(s.tool, s.step as int);
    if s.step + 1 < s.tool.plan().len() {
        crate::tool::lemma_subjects_are_named(s.tool, s.step as int + 1);
    }
}

} // verus!
