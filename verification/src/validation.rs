//! Tool validation: is a tool usable, under what name, and under what
//! environment? The answer is an environment overlay for the one process
//! that runs the tool; nothing global is read or changed on the way.

use crate::config::Config;
use crate::error::{
    output_undecodable, probe_failed, reported, toolchain_missing, ErrorKind, ErrorView,
    ValidationError,
};
use crate::ordered_map::{lemma_text_union, OrderedMap};
use crate::probe::{no_env_vars, ArgView, OutcomeView, Probe, ProbeArg, ProbeOutcome, ProbeView, Streams};
use crate::session::{beginning, enter, Progress};
use crate::text::{any_line_starts_with, decode, some_line_starts_with};
use crate::tool::Tool;
use crate::version::check_view;
use vstd::prelude::*;
use vstd::utf8::{decode_utf8, valid_utf8};

verus! {


/// The environment overlay that a validation yields: how logical tool names
/// map to the binaries found for them, and which variables the tool's
/// process needs. Both are listed in lexicographic order of their keys.
#[derive(Clone, Debug, PartialEq, Eq)]
pub struct Validation {
    /// Logical name to binary name, for the tools whose binary goes by
    /// another name.
    pub tools: OrderedMap<String>,
    /// Variable name to value.
    pub env_vars: OrderedMap<String>,
}

/// An overlay as a pair of mathematical maps.
pub struct ValidationView {
    pub tools: Map<Seq<char>, Seq<char>>,
    pub env_vars: Map<Seq<char>, Seq<char>>,
}

impl ValidationView {
    /// The overlay without entries.
    pub open spec fn empty() -> ValidationView {
        ValidationView { tools: Map::empty(), env_vars: Map::empty() }
    }

    /// The union of two overlays, key by key. Where both hold a key, the
    /// value of `later` stays: the last writer wins, on purpose.
    pub open spec fn combine(self, later: ValidationView) -> ValidationView {
        ValidationView {
            tools: self.tools.union_prefer_right(later.tools),
            env_vars: self.env_vars.union_prefer_right(later.env_vars),
        }
    }
}

impl View for Validation {
    type V = ValidationView;

    open spec fn view(&self) -> ValidationView {
        ValidationView { tools: self.tools.text(), env_vars: self.env_vars.text() }
    }
}

impl Validation {
    /// Both maps are well-formed.
    pub open spec fn wf(&self) -> bool {
        self.tools.wf() && self.env_vars.wf()
    }

    /// Merges `other` into this overlay. Where both hold a key, the value of
    /// `other` replaces the one held before.
    pub fn combine(&mut self, other: Validation)
        requires
            old(self).wf(),
            other.wf(),
        ensures
            final(self).wf(),
            final(self)@ == old(self)@.combine(other@),
    {
        proof {
            lemma_text_union(self.tools@, other.tools@);
            lemma_text_union(self.env_vars@, other.env_vars@);
        }
        self.tools.extend(other.tools);
        self.env_vars.extend(other.env_vars);
    }
}

impl Default for Validation {
    /// The overlay without entries.
    fn default() -> (v: Validation)
        ensures
            v.wf(),
            v@ == ValidationView::empty(),
            v.tools@ == Map::<Seq<char>, String>::empty(),
            v.env_vars@ == Map::<Seq<char>, String>::empty(),
    {
        let v = Validation { tools: OrderedMap::new(), env_vars: OrderedMap::new() };
        assert(v.tools.text() =~= Map::<Seq<char>, Seq<char>>::empty());
        assert(v.env_vars.text() =~= Map::<Seq<char>, Seq<char>>::empty());
        v
    }
}

/// An overlay or an error, as plain mathematical data.
pub open spec fn outcome_view(r: Result<Validation, ValidationError>) -> Result<
    ValidationView,
    ErrorView,
> {
    match r {
        Ok(v) => Ok(v@),
        Err(e) => Err(e@),
    }
}

/// Combining is associative: how a row of overlays is bracketed makes no
/// difference.
pub proof fn lemma_combine_associative(a: ValidationView, b: ValidationView, c: ValidationView)
    ensures
        a.combine(b).combine(c) == a.combine(b.combine(c)),
{
    assert(a.tools.union_prefer_right(b.tools).union_prefer_right(c.tools)
        =~= a.tools.union_prefer_right(b.tools.union_prefer_right(c.tools)));
    assert(a.env_vars.union_prefer_right(b.env_vars).union_prefer_right(c.env_vars)
        =~= a.env_vars.union_prefer_right(b.env_vars.union_prefer_right(c.env_vars)));
}

/// Combining is right-biased: the result holds every key of either overlay,
/// with the later overlay's value wherever it has one and the earlier
/// overlay's value elsewhere.
pub proof fn lemma_combine_right_biased(a: ValidationView, b: ValidationView)
    ensures
        a.combine(b).tools.dom() == a.tools.dom().union(b.tools.dom()),
        a.combine(b).env_vars.dom() == a.env_vars.dom().union(b.env_vars.dom()),
        forall|k: Seq<char>| b.tools.contains_key(k) ==> a.combine(b).tools[k] == b.tools[k],
        forall|k: Seq<char>|
            a.tools.contains_key(k) && !b.tools.contains_key(k) ==> a.combine(b).tools[k]
                == a.tools[k],
        forall|k: Seq<char>|
            b.env_vars.contains_key(k) ==> a.combine(b).env_vars[k] == b.env_vars[k],
        forall|k: Seq<char>|
            a.env_vars.contains_key(k) && !b.env_vars.contains_key(k) ==> a.combine(b).env_vars[k]
                == a.env_vars[k],
{
    assert(a.combine(b).tools.dom() =~= a.tools.dom().union(b.tools.dom()));
    assert(a.combine(b).env_vars.dom() =~= a.env_vars.dom().union(b.env_vars.dom()));
}

/// The empty overlay changes nothing, on either side.
pub proof fn lemma_combine_empty(a: ValidationView)
    ensures
        a.combine(ValidationView::empty()) == a,
        ValidationView::empty().combine(a) == a,
{
    let e = ValidationView::empty();
    assert(a.combine(e).tools =~= a.tools);
    assert(a.combine(e).env_vars =~= a.env_vars);
    assert(e.combine(a).tools =~= a.tools);
    assert(e.combine(a).env_vars =~= a.env_vars);
}

/// Begins the validation of the tool called `tool`: is it usable, under what
/// name, and under what environment? The result is either the end of the
/// validation or a session with a request; the caller carries the request
/// out, hands the reply to `Session::resume`, and goes on so until the
/// validation is over. A name that no tool has is turned down at once.
pub fn validate_tool(config: &Config, tool: &str) -> (progress: Progress)
    requires
        config.wf(),
    ensures
        progress.wf(),
        progress@ == beginning(config, tool@),
{
    match Tool::parse(tool) {
        None => Progress::Finished(Err(ValidationError::unrecognized_tool(tool))),
        Some(t) => enter(config, t, 0, Validation::default()),
    }
}

/// The probe that lists the installed release channels.
pub open spec fn toolchain_listing() -> ProbeView {
    ProbeView {
        program: "rustup"@,
        args: seq![ArgView::Text("toolchain"@), ArgView::Text("list"@)],
        env_vars: Map::empty(),
        streams: Streams::Capture,
    }
}

/// The probe that lists the installed release channels.
pub fn rust_toolchain_probe() -> (probe: Probe)
    ensures
        probe.wf(),
        probe@ == toolchain_listing(),
{
    let mut args: Vec<ProbeArg> = Vec::new();
    args.push(ProbeArg::Text(String::from_str("toolchain")));
    args.push(ProbeArg::Text(String::from_str("list")));
    let probe = Probe {
        program: String::from_str("rustup"),
        args,
        env_vars: no_env_vars(),
        streams: Streams::Capture,
    };
    assert(probe@.args =~= toolchain_listing().args);
    probe
}

/// What follows from the listing of the installed release channels: the
/// channel is installed exactly if some line of the listing begins with its
/// name.
pub open spec fn toolchain_verdict(toolchain: Seq<char>, outcome: OutcomeView) -> Result<
    (),
    ErrorView,
> {
    match outcome {
        OutcomeView::NotFound { message } => Err(reported(ErrorKind::NotFound, message)),
        OutcomeView::SpawnFailed { message } => Err(reported(ErrorKind::SpawnFailed, message)),
        OutcomeView::Exited { success, stdout } => if !success {
            Err(probe_failed("rustup toolchain list"@))
        } else if !valid_utf8(stdout) {
            Err(output_undecodable())
        } else if some_line_starts_with(decode_utf8(stdout), toolchain) {
            Ok(())
        } else {
            Err(toolchain_missing(toolchain))
        },
    }
}

/// Whether the release channel `toolchain` is installed, going by the
/// outcome of the listing.
pub fn validate_rust_toolchain(toolchain: &str, outcome: ProbeOutcome) -> (r: Result<
    (),
    ValidationError,
>)
    ensures
        check_view(r) == toolchain_verdict(toolchain@, outcome@),
{
    match outcome {
        ProbeOutcome::NotFound { message } => Err(
            ValidationError::reported(ErrorKind::NotFound, message),
        ),
        ProbeOutcome::SpawnFailed { message } => Err(
            ValidationError::reported(ErrorKind::SpawnFailed, message),
        ),
        ProbeOutcome::Exited { success, stdout } => {
            if !success {
                return Err(ValidationError::probe_failed("rustup toolchain list"));
            }
            match decode(stdout) {
                None => Err(ValidationError::output_undecodable()),
                Some(listing) => {
                    if any_line_starts_with(listing.as_str(), toolchain) {
                        Ok(())
                    } else {
                        Err(ValidationError::toolchain_missing(toolchain))
                    }
                },
            }
        },
    }
}

} // verus!
