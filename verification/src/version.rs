//! The version matcher: what a tool reports about itself is held against the
//! required version. The comparison is by prefix, character by character, so
//! that `16` admits `16.0.3`; it also admits `160`.

use crate::error::{
    output_undecodable, reported, unrecognized_vendor, version_mismatch, ErrorKind, ErrorView,
    ValidationError,
};
use crate::pattern::{capture, captured_group, check_pattern, pattern_complaint};
use crate::text::{decode, is_prefix, starts_with};
use vstd::prelude::*;
use vstd::utf8::{decode_utf8, valid_utf8};

verus! {

/// A result without a value, its error as plain mathematical data.
pub open spec fn check_view(r: Result<(), ValidationError>) -> Result<(), ErrorView> {
    match r {
        Ok(_) => Ok(()),
        Err(e) => Err(e@),
    }
}

/// The characters of an optional string slice.
pub open spec fn optional_text(s: Option<&str>) -> Option<Seq<char>> {
    match s {
        Some(t) => Some(t@),
        None => None,
    }
}

/// The version that a tool reports, as `pattern` reads it from `haystack`:
/// what the first capture group of the leftmost match holds.
pub open spec fn first_capture(pattern: Seq<char>, haystack: Seq<char>) -> Option<Seq<char>> {
    captured_group(pattern, haystack, 1)
}

/// What follows from the version that the pattern captured: accepted where
/// it begins with `required`; a mismatch that names both where it does not;
/// and the wrong toolchain where the pattern captured nothing.
pub open spec fn version_verdict(
    tool: Seq<char>,
    required: Seq<char>,
    captured: Option<Seq<char>>,
) -> Result<(), ErrorView> {
    match captured {
        None => Err(unrecognized_vendor(tool)),
        Some(actual) => if is_prefix(required, actual) {
            Ok(())
        } else {
            Err(version_mismatch(tool, required, actual))
        },
    }
}

/// What follows from the output of a successful probe. Without a pattern
/// the output is not looked at.
pub open spec fn output_verdict(
    tool: Seq<char>,
    required: Seq<char>,
    pattern: Option<Seq<char>>,
    stdout: Seq<u8>,
) -> Result<(), ErrorView> {
    match pattern {
        None => Ok(()),
        Some(p) => if pattern_complaint(p) is Some {
            Err(reported(ErrorKind::InvalidMatcher, pattern_complaint(p)->0))
        } else if !valid_utf8(stdout) {
            Err(output_undecodable())
        } else {
            version_verdict(tool, required, first_capture(p, decode_utf8(stdout)))
        },
    }
}

/// Holds a captured version against the required one.
pub fn check_version(tool: &str, required: &str, captured: Option<&str>) -> (r: Result<
    (),
    ValidationError,
>)
    ensures
        check_view(r) == version_verdict(tool@, required@, optional_text(captured)),
{
    match captured {
        None => Err(ValidationError::unrecognized_vendor(tool)),
        Some(actual) => {
            if starts_with(actual, required) {
                Ok(())
            } else {
                Err(ValidationError::version_mismatch(tool, required, actual))
            }
        },
    }
}

/// Holds the output of a successful probe against the pattern and the
/// required version.
pub fn match_version(tool: &str, required: &str, pattern: Option<&str>, stdout: Vec<u8>) -> (r:
    Result<(), ValidationError>)
    ensures
        check_view(r) == output_verdict(tool@, required@, optional_text(pattern), stdout@),
{
    match pattern {
        None => Ok(()),
        Some(p) => {
            if let Some(complaint) = check_pattern(p) {
                return Err(ValidationError::reported(ErrorKind::InvalidMatcher, complaint));
            }
            match decode(stdout) {
                None => Err(ValidationError::output_undecodable()),
                Some(haystack) => {
                    let found = capture(p, haystack.as_str(), 1);
                    match &found {
                        None => check_version(tool, required, None),
                        Some(actual) => check_version(tool, required, Some(actual.as_str())),
                    }
                },
            }
        },
    }
}

/// Without a pattern every output is accepted.
pub proof fn lemma_no_pattern_accepts(tool: Seq<char>, required: Seq<char>, stdout: Seq<u8>)
    ensures
        output_verdict(tool, required, None, stdout) == Ok::<(), ErrorView>(()),
{
}

/// With a pattern that compiles and captures a version from well-formed
/// output, the output is accepted exactly if the version begins with the
/// required one; where it is not, the error names both versions.
pub proof fn lemma_prefix_decides(
    tool: Seq<char>,
    required: Seq<char>,
    pattern: Seq<char>,
    stdout: Seq<u8>,
    actual: Seq<char>,
)
    requires
        pattern_complaint(pattern) is None,
        valid_utf8(stdout),
        first_capture(pattern, decode_utf8(stdout)) == Some(actual),
    ensures
        is_prefix(required, actual) ==> output_verdict(tool, required, Some(pattern), stdout)
            == Ok::<(), ErrorView>(()),
        !is_prefix(required, actual) ==> output_verdict(tool, required, Some(pattern), stdout)
            == Err::<(), ErrorView>(version_mismatch(tool, required, actual)),
        version_mismatch(tool, required, actual).message == "`"@ + tool
            + "` failed validation; expected version compatible with `"@ + required
            + "` but found `"@ + actual + "`"@,
{
}

} // verus!
