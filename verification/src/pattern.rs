//! The regular-expression engine behind the version matchers.
//!
//! What the engine computes is not proved here. Each of its two results has a
//! name, and the contracts of this library are stated over those names.

use vstd::prelude::*;

verus! {

/// The message with which the engine turns `pattern` down; nothing where it
/// accepts the pattern. It is the verdict of the engine as it is built into
/// the program: an expression close to the engine's size limit may pass in
/// one build and not in another.
pub uninterp spec fn pattern_complaint(pattern: Seq<char>) -> Option<Seq<char>>;

/// What capture group number `group` holds in the leftmost match of
/// `pattern` in `haystack`; nothing where the pattern is turned down,
/// matches nowhere, has no such group, or matches without that group taking
/// part. Group 0 is the whole match.
pub uninterp spec fn captured_group(
    pattern: Seq<char>,
    haystack: Seq<char>,
    group: nat,
) -> Option<Seq<char>>;

/// The characters of an optional string.
pub open spec fn option_text(s: Option<String>) -> Option<Seq<char>> {
    match s {
        Some(t) => Some(t@),
        None => None,
    }
}

/// `regex::Regex::new`, for its verdict alone: the engine's complaint about
/// `pattern`, or nothing where the pattern compiles. Trusted to depend on the
/// pattern only.
#[verifier::external_body]
pub(crate) fn check_pattern(pattern: &str) -> (complaint: Option<String>)
    ensures
        option_text(complaint) == pattern_complaint(pattern@),
{
    match regex::Regex::new(pattern) {
        Ok(_) => None,
        Err(e) => Some(e.to_string()),
    }
}

/// `regex::Regex::captures` followed by `regex::Captures::get`, on the
/// expression compiled from `pattern`: the text of capture group number
/// `group` in the leftmost match. Trusted to depend on the pattern, the
/// haystack and the number only.
#[verifier::external_body]
pub(crate) fn capture(pattern: &str, haystack: &str, group: usize) -> (found: Option<String>)
    ensures
        option_text(found) == captured_group(pattern@, haystack@, group as nat),
{
    let expression = regex::Regex::new(pattern).ok()?;
    let groups = expression.captures(haystack)?;
    match groups.get(group) {
        Some(m) => Some(m.as_str().to_owned()),
        None => None,
    }
}

} // verus!
