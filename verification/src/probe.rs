//! A probe is one diagnostic run of a candidate binary. This module says what
//! such a run consists of and what can come back from it; the caller performs
//! it.

use crate::ordered_map::OrderedMap;
use vstd::prelude::*;

verus! {

/// What becomes of the standard streams of a probe.
#[derive(Clone, Copy, Debug, PartialEq, Eq, Structural)]
pub enum Streams {
    /// Standard output and standard error are captured.
    Capture,
    /// Standard output is discarded.
    DiscardStdout,
    /// Standard output and standard error are discarded.
    DiscardBoth,
}

/// One argument of a probe.
#[derive(Clone, Debug, PartialEq, Eq)]
pub enum ProbeArg {
    /// The text itself.
    Text(String),
    /// The path of the helper script of this name in the directory where the
    /// project keeps its helper scripts.
    HelperScript(String),
    /// Every argument that the user passed on for the tool, in order and as
    /// it came. It stands in the command lines of the tasks only.
    PassedOn,
}

/// An argument with its text as a sequence of characters.
pub enum ArgView {
    Text(Seq<char>),
    HelperScript(Seq<char>),
    PassedOn,
}

impl View for ProbeArg {
    type V = ArgView;

    open spec fn view(&self) -> ArgView {
        match self {
            ProbeArg::Text(t) => ArgView::Text(t@),
            ProbeArg::HelperScript(n) => ArgView::HelperScript(n@),
            ProbeArg::PassedOn => ArgView::PassedOn,
        }
    }
}

/// A diagnostic run: the binary, its arguments, the variables to add to its
/// environment, and what to do with its streams.
#[derive(Clone, Debug, PartialEq, Eq)]
pub struct Probe {
    pub program: String,
    pub args: Vec<ProbeArg>,
    pub env_vars: OrderedMap<String>,
    pub streams: Streams,
}

/// A probe as plain mathematical data.
pub struct ProbeView {
    pub program: Seq<char>,
    pub args: Seq<ArgView>,
    pub env_vars: Map<Seq<char>, Seq<char>>,
    pub streams: Streams,
}

/// Each argument of a list as plain mathematical data.
pub open spec fn arg_views(args: Seq<ProbeArg>) -> Seq<ArgView> {
    args.map_values(|a: ProbeArg| a@)
}

/// The arguments that hold the given texts as they are.
pub open spec fn text_args(texts: Seq<Seq<char>>) -> Seq<ArgView> {
    texts.map_values(|t: Seq<char>| ArgView::Text(t))
}

impl View for Probe {
    type V = ProbeView;

    open spec fn view(&self) -> ProbeView {
        ProbeView {
            program: self.program@,
            args: arg_views(self.args@),
            env_vars: self.env_vars.text(),
            streams: self.streams,
        }
    }
}

impl Probe {
    /// The environment overlay is well-formed.
    pub open spec fn wf(&self) -> bool {
        self.env_vars.wf()
    }
}

/// What came back from a probe.
#[derive(Clone, Debug, PartialEq, Eq)]
pub enum ProbeOutcome {
    /// The operating system found no such binary; `message` is its report.
    NotFound { message: String },
    /// The binary could not be started for another reason.
    SpawnFailed { message: String },
    /// The binary ran. `stdout` holds what it wrote to standard output, where
    /// that was captured.
    Exited { success: bool, stdout: Vec<u8> },
}

/// An outcome as plain mathematical data.
pub enum OutcomeView {
    NotFound { message: Seq<char> },
    SpawnFailed { message: Seq<char> },
    Exited { success: bool, stdout: Seq<u8> },
}

impl View for ProbeOutcome {
    type V = OutcomeView;

    open spec fn view(&self) -> OutcomeView {
        match self {
            ProbeOutcome::NotFound { message } => OutcomeView::NotFound { message: message@ },
            ProbeOutcome::SpawnFailed { message } => OutcomeView::SpawnFailed { message: message@ },
            ProbeOutcome::Exited { success, stdout } => OutcomeView::Exited {
                success: *success,
                stdout: stdout@,
            },
        }
    }
}

/// The probe that runs `program` with the single argument `flag`.
pub open spec fn flag_probe(
    program: Seq<char>,
    flag: Seq<char>,
    env_vars: Map<Seq<char>, Seq<char>>,
    streams: Streams,
) -> ProbeView {
    ProbeView { program, args: seq![ArgView::Text(flag)], env_vars, streams }
}

/// The probe that runs `program` with the single argument `flag`.
pub fn single_flag(program: &str, flag: &str, env_vars: OrderedMap<String>, streams: Streams) -> (probe:
    Probe)
    requires
        env_vars.wf(),
    ensures
        probe.wf(),
        probe@ == flag_probe(program@, flag@, env_vars.text(), streams),
{
    let mut args: Vec<ProbeArg> = Vec::new();
    args.push(ProbeArg::Text(String::from_str(flag)));
    let probe = Probe { program: String::from_str(program), args, env_vars, streams };
    assert(probe@.args =~= seq![ArgView::Text(flag@)]);
    probe
}

/// An environment overlay without entries.
pub fn no_env_vars() -> (env_vars: OrderedMap<String>)
    ensures
        env_vars.wf(),
        env_vars@ == Map::<Seq<char>, String>::empty(),
        env_vars.text() == Map::<Seq<char>, Seq<char>>::empty(),
{
    let env_vars: OrderedMap<String> = OrderedMap::new();
    assert(env_vars.text() =~= Map::<Seq<char>, Seq<char>>::empty());
    env_vars
}

} // verus!
