//! Fallback search locations: on macOS, the directories that the configured
//! strategies contribute are appended to the ambient search path.
//!
//! The ambient search path is an input, which the caller looks up when a
//! validation asks for it. Nothing here reads or changes the environment of
//! the process.

use crate::config::xtask::XtaskPlatformMacosSearchPath;
use crate::config::Config;
use crate::text::{is_prefix, same};
use vstd::prelude::*;

verus! {

/// The operating system that the tools run on.
#[derive(Clone, Copy, Debug, PartialEq, Eq, Structural)]
pub enum Platform {
    Macos,
    Other,
}

/// What validation learns of the machine from its caller, when it asks for
/// it: a resolution asks each time that a candidate is to run under the
/// extended search path, and not before.
#[derive(Clone, Debug, PartialEq, Eq)]
pub struct Host {
    pub platform: Platform,
    /// The ambient search path, as the variable `PATH` holds it; nothing
    /// where the variable is not set.
    pub path: Option<String>,
    /// The directories in which a Homebrew installation keeps the tools, as
    /// found on this machine.
    pub homebrew: Vec<String>,
}

/// The character that separates the entries of a search path.
pub open spec fn separator() -> char {
    ':'
}

/// The characters of each string of a list.
pub open spec fn texts(items: Seq<String>) -> Seq<Seq<char>> {
    items.map_values(|s: String| s@)
}

/// The ambient search path; empty where the variable is not set.
pub open spec fn ambient(host: &Host) -> Seq<char> {
    match host.path {
        Some(p) => p@,
        None => Seq::empty(),
    }
}

/// What the strategies contribute, one after the other.
pub open spec fn contributed(
    strategies: Seq<XtaskPlatformMacosSearchPath>,
    homebrew: Seq<Seq<char>>,
) -> Seq<Seq<char>>
    decreases strategies.len(),
{
    if strategies.len() == 0 {
        Seq::empty()
    } else {
        contributed(strategies.drop_last(), homebrew) + match strategies.last() {
            XtaskPlatformMacosSearchPath::Homebrew => homebrew,
        }
    }
}

/// `items` with every repetition of an earlier item left out.
pub open spec fn without_repeats(items: Seq<Seq<char>>) -> Seq<Seq<char>>
    decreases items.len(),
{
    if items.len() == 0 {
        Seq::empty()
    } else {
        let head = without_repeats(items.drop_last());
        if head.contains(items.last()) {
            head
        } else {
            head.push(items.last())
        }
    }
}

/// The additional locations, in order and each once: what the configured
/// strategies contribute on macOS, and nothing on another platform.
pub open spec fn extra_locations(config: &Config, host: &Host) -> Seq<Seq<char>> {
    if host.platform == Platform::Macos {
        without_repeats(
            contributed(config.xtask.clang.platform.macos.search_paths@, texts(host.homebrew@)),
        )
    } else {
        Seq::empty()
    }
}

/// `path` with `locations` appended, entry by entry.
pub open spec fn appended(path: Seq<char>, locations: Seq<Seq<char>>) -> Seq<char>
    decreases locations.len(),
{
    if locations.len() == 0 {
        path
    } else {
        let head = appended(path, locations.drop_last());
        if head.len() == 0 {
            locations.last()
        } else {
            head + seq![separator()] + locations.last()
        }
    }
}

/// The search path for the fallback candidates: the ambient one, followed by
/// the additional locations.
pub open spec fn search_path(config: &Config, host: &Host) -> Seq<char> {
    appended(ambient(host), extra_locations(config, host))
}

/// Appending locations leaves what the path held before in front.
pub proof fn lemma_appended_keeps_path(path: Seq<char>, locations: Seq<Seq<char>>)
    requires
        path.len() > 0,
    ensures
        is_prefix(path, appended(path, locations)),
        appended(path, locations).len() > 0,
    decreases locations.len(),
{
    if locations.len() == 0 {
        assert(path.subrange(0, path.len() as int) =~= path);
    } else {
        lemma_appended_keeps_path(path, locations.drop_last());
        let head = appended(path, locations.drop_last());
        let whole = head + seq![separator()] + locations.last();
        assert(whole.subrange(0, path.len() as int) =~= head.subrange(0, path.len() as int));
    }
}

/// No location is listed twice, and a location is listed exactly if some
/// strategy contributes it.
pub proof fn lemma_without_repeats(items: Seq<Seq<char>>)
    ensures
        without_repeats(items).no_duplicates(),
        forall|x: Seq<char>| without_repeats(items).contains(x) <==> items.contains(x),
    decreases items.len(),
{
    if items.len() > 0 {
        let front = items.drop_last();
        lemma_without_repeats(front);
        let head = without_repeats(front);
        let out = without_repeats(items);
        assert forall|x: Seq<char>| out.contains(x) <==> items.contains(x) by {
            if out.contains(x) {
                let i = out.index_of(x);
                if i < head.len() {
                    assert(head[i] == x);
                    assert(head.contains(x));
                    assert(front.contains(x));
                    let j = front.index_of(x);
                    assert(front[j] == x);
                    assert(items[j] == x);
                } else {
                    assert(items[items.len() - 1] == x);
                }
            }
            if items.contains(x) {
                let j = items.index_of(x);
                if j < front.len() {
                    assert(front[j] == x);
                    assert(front.contains(x));
                    let i = head.index_of(x);
                    assert(out[i] == x);
                } else if !head.contains(x) {
                    assert(out[head.len() as int] == x);
                } else {
                    let i = head.index_of(x);
                    assert(out[i] == x);
                }
            }
        }
    }
}

/// On a platform other than macOS the search path is the ambient one,
/// unchanged.
pub proof fn lemma_other_platform_keeps_path(config: &Config, host: &Host)
    requires
        host.platform != Platform::Macos,
    ensures
        search_path(config, host) == ambient(host),
        extra_locations(config, host).len() == 0,
{
}

/// Whether `items` holds a string with the characters of `wanted`.
fn holds(items: &Vec<String>, wanted: &str) -> (found: bool)
    ensures
        found == texts(items@).contains(wanted@),
{
    let mut i: usize = 0;
    while i < items.len()
        invariant
            i <= items.len(),
            forall|j: int| 0 <= j < i ==> texts(items@)[j] != wanted@,
        decreases items.len() - i,
    {
        if same(items[i].as_str(), wanted) {
            assert(texts(items@)[i as int] == wanted@);
            return true;
        }
        i += 1;
    }
    false
}

/// The additional locations for the fallback candidates.
pub fn additional_locations(config: &Config, host: &Host) -> (out: Vec<String>)
    ensures
        texts(out@) == extra_locations(config, host),
{
    let mut out: Vec<String> = Vec::new();
    if host.platform != Platform::Macos {
        assert(texts(out@) =~= Seq::<Seq<char>>::empty());
        return out;
    }
    let strategies = &config.xtask.clang.platform.macos.search_paths;
    let ghost homebrew = texts(host.homebrew@);
    let mut s: usize = 0;
    assert(strategies@.take(0) =~= Seq::<XtaskPlatformMacosSearchPath>::empty());
    assert(texts(out@) =~= Seq::<Seq<char>>::empty());
    while s < strategies.len()
        invariant
            s <= strategies.len(),
            homebrew == texts(host.homebrew@),
            texts(out@) == without_repeats(contributed(strategies@.take(s as int), homebrew)),
        decreases strategies.len() - s,
    {
        let ghost before = contributed(strategies@.take(s as int), homebrew);
        match strategies[s] {
            XtaskPlatformMacosSearchPath::Homebrew => {
                let mut i: usize = 0;
                assert(before + homebrew.take(0) =~= before);
                while i < host.homebrew.len()
                    invariant
                        i <= host.homebrew.len(),
                        homebrew == texts(host.homebrew@),
                        texts(out@) == without_repeats(before + homebrew.take(i as int)),
                    decreases host.homebrew.len() - i,
                {
                    let ghost sofar = before + homebrew.take(i as int);
                    let ghost next = before + homebrew.take(i + 1);
                    assert(next.drop_last() =~= sofar);
                    assert(next.last() == homebrew[i as int]);
                    assert(homebrew[i as int] == host.homebrew@[i as int]@);
                    if !holds(&out, host.homebrew[i].as_str()) {
                        let ghost listed = texts(out@);
                        out.push(host.homebrew[i].clone());
                        assert(texts(out@) =~= listed.push(homebrew[i as int]));
                    }
                    i += 1;
                }
                assert(homebrew.take(homebrew.len() as int) =~= homebrew);
            },
        }
        assert(strategies@.take(s + 1).drop_last() =~= strategies@.take(s as int));
        assert(strategies@.take(s + 1).last() == strategies@[s as int]);
        s += 1;
    }
    assert(strategies@.take(strategies@.len() as int) =~= strategies@);
    out
}

/// The search path for the fallback candidates. On a platform other than
/// macOS it is the ambient search path, unchanged.
pub fn augmented_search_path(config: &Config, host: &Host) -> (out: String)
    ensures
        out@ == search_path(config, host),
        host.platform != Platform::Macos ==> out@ == ambient(host),
{
    let locations = additional_locations(config, host);
    let mut out = match &host.path {
        Some(p) => p.clone(),
        None => String::new(),
    };
    let ghost all = texts(locations@);
    let mut i: usize = 0;
    assert(all.take(0) =~= Seq::<Seq<char>>::empty());
    while i < locations.len()
        invariant
            i <= locations.len(),
            all == texts(locations@),
            out@ == appended(ambient(host), all.take(i as int)),
        decreases locations.len() - i,
    {
        assert(all.take(i + 1).drop_last() =~= all.take(i as int));
        assert(all.take(i + 1).last() == locations@[i as int]@);
        if out.as_str().unicode_len() == 0 {
            out = locations[i].clone();
        } else {
            proof {
                reveal_strlit(":");
                assert(":"@ =~= seq![separator()]);
            }
            out.append(":");
            out.append(locations[i].as_str());
        }
        i += 1;
    }
    assert(all.take(all.len() as int) =~= all);
    out
}

} // verus!
