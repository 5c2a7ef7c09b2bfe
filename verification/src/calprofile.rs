//! Recognising calibration profile files.

use vstd::prelude::*;

verus! {

/// The marker line of a calibration profile: `calfiletype = "profile"`, with
/// any whitespace around the `=`.
pub const CAL_TYPE_PATTERN: &'static str = "calfiletype\\s+=\\s+\"profile\"";

/// What `regex::Regex::new(pattern)` and then `is_match(text)` give; `None`
/// when the pattern does not compile.
pub uninterp spec fn regex_match_of(pattern: Seq<char>, text: Seq<char>) -> Option<bool>;

/// Compiles `pattern` with `regex::Regex::new` and tests it on `text` with
/// `is_match`. Trusted: the result is the named `regex_match_of` of the two
/// arguments; `None` exactly where the pattern does not compile.
#[verifier::external_body]
fn regex_is_match(pattern: &str, text: &str) -> (r: Option<bool>)
    ensures
        r == regex_match_of(pattern@, text@),
{
    match regex::Regex::new(pattern) {
        Ok(re) => Some(re.is_match(text)),
        Err(_) => None,
    }
}

/// Whether a marker test found the marker: a pattern that does not compile
/// finds nothing.
pub fn marker_found(result: Option<bool>) -> (r: bool)
    ensures
        r == (result == Some(true)),
{
    match result {
        Some(m) => m,
        None => false,
    }
}

/// Whether a text holds the calibration profile marker.
pub fn is_calibration_profile(text: &str) -> (r: bool)
    ensures
        r == (regex_match_of(CAL_TYPE_PATTERN@, text@) == Some(true)),
{
    marker_found(regex_is_match(CAL_TYPE_PATTERN, text))
}

} // verus!
