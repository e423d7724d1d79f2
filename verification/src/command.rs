//! The command lines of the tasks. A task validates the tools it needs and
//! then starts one process; what that process is, is decided here, and the
//! caller starts it.

pub mod clang;
pub mod clippy;
pub mod doc;
pub mod udeps;

use crate::ordered_map::OrderedMap;
use crate::probe::{arg_views, text_args, ArgView, ProbeArg};
use vstd::prelude::*;

verus! {

/// The process that a task starts once its tools are validated.
#[derive(Clone, Debug, PartialEq, Eq)]
pub struct Invocation {
    pub program: String,
    pub args: Vec<ProbeArg>,
    /// The variables that validation found the tool to need. They are set
    /// for this one process, and nowhere else.
    pub env_vars: OrderedMap<String>,
    /// Whether the process runs in the root directory of the project.
    pub in_project_root: bool,
}

/// An invocation as plain mathematical data.
pub struct InvocationView {
    pub program: Seq<char>,
    pub args: Seq<ArgView>,
    pub env_vars: Map<Seq<char>, Seq<char>>,
    pub in_project_root: bool,
}

impl View for Invocation {
    type V = InvocationView;

    open spec fn view(&self) -> InvocationView {
        InvocationView {
            program: self.program@,
            args: arg_views(self.args@),
            env_vars: self.env_vars.text(),
            in_project_root: self.in_project_root,
        }
    }
}

impl Invocation {
    /// The environment overlay is well-formed.
    pub open spec fn wf(&self) -> bool {
        self.env_vars.wf()
    }
}

/// The command line of the package manager for `subcommand` under the
/// release channel `toolchain`: the channel, the subcommand, the fixed
/// arguments in front, what the user passed on, and the fixed arguments
/// behind. It runs in the root directory of the project.
pub open spec fn cargo_invocation(
    toolchain: Seq<char>,
    subcommand: Seq<char>,
    front: Seq<Seq<char>>,
    back: Seq<Seq<char>>,
    env_vars: Map<Seq<char>, Seq<char>>,
) -> InvocationView {
    InvocationView {
        program: "cargo"@,
        args: text_args(seq!["+"@ + toolchain, subcommand] + front) + seq![ArgView::PassedOn]
            + text_args(back),
        env_vars,
        in_project_root: true,
    }
}

/// Appends `text` to `args`, as it is.
pub fn push_text(args: &mut Vec<ProbeArg>, text: String)
    ensures
        arg_views(final(args)@) == arg_views(old(args)@).push(ArgView::Text(text@)),
{
    let ghost before = arg_views(args@);
    args.push(ProbeArg::Text(text));
    assert(arg_views(args@) =~= before.push(ArgView::Text(text@)));
}

/// Appends each of `more` to `args`, as it is and in order.
pub fn push_texts(args: &mut Vec<ProbeArg>, more: &[&str])
    ensures
        arg_views(final(args)@) == arg_views(old(args)@) + text_args(literals(more@)),
{
    let ghost before = arg_views(args@);
    let mut i: usize = 0;
    assert(text_args(literals(more@).take(0)) =~= Seq::<ArgView>::empty());
    assert(before + Seq::<ArgView>::empty() =~= before);
    while i < more.len()
        invariant
            i <= more.len(),
            arg_views(args@) == before + text_args(literals(more@).take(i as int)),
        decreases more.len() - i,
    {
        let ghost sofar = text_args(literals(more@).take(i as int));
        push_text(args, String::from_str(more[i]));
        assert(text_args(literals(more@).take(i + 1)) =~= sofar.push(
            ArgView::Text(more@[i as int]@),
        ));
        assert((before + sofar).push(ArgView::Text(more@[i as int]@)) =~= before + sofar.push(
            ArgView::Text(more@[i as int]@),
        ));
        i += 1;
    }
    assert(literals(more@).take(more@.len() as int) =~= literals(more@));
}

/// Marks the place of the arguments that the user passed on.
pub fn push_passed_on(args: &mut Vec<ProbeArg>)
    ensures
        arg_views(final(args)@) == arg_views(old(args)@).push(ArgView::PassedOn),
{
    let ghost before = arg_views(args@);
    args.push(ProbeArg::PassedOn);
    assert(arg_views(args@) =~= before.push(ArgView::PassedOn));
}

/// The characters of each string slice of a list.
pub open spec fn literals(items: Seq<&str>) -> Seq<Seq<char>> {
    items.map_values(|s: &str| s@)
}

/// The command line of the package manager for `subcommand` under the
/// release channel `toolchain`.
pub fn cargo(
    toolchain: &str,
    subcommand: &str,
    front: &[&str],
    back: &[&str],
    env_vars: OrderedMap<String>,
) -> (invocation: Invocation)
    requires
        env_vars.wf(),
    ensures
        invocation.wf(),
        invocation@ == cargo_invocation(
            toolchain@,
            subcommand@,
            literals(front@),
            literals(back@),
            env_vars.text(),
        ),
{
    let mut args: Vec<ProbeArg> = Vec::new();
    assert(arg_views(args@) =~= Seq::<ArgView>::empty());
    push_text(&mut args, crate::text::join2("+", toolchain));
    push_text(&mut args, String::from_str(subcommand));
    push_texts(&mut args, front);
    push_passed_on(&mut args);
    push_texts(&mut args, back);
    proof {
        let head = seq!["+"@ + toolchain@, subcommand@];
        let f = literals(front@);
        assert(Seq::<ArgView>::empty().push(ArgView::Text("+"@ + toolchain@)).push(
            ArgView::Text(subcommand@),
        ) =~= text_args(head));
        assert(text_args(head + f) =~= text_args(head) + text_args(f));
        assert((text_args(head) + text_args(f)).push(ArgView::PassedOn) =~= text_args(head + f)
            + seq![ArgView::PassedOn]);
    }
    Invocation { program: String::from_str("cargo"), args, env_vars, in_project_root: true }
}

} // verus!
