//! Trusted boundary around the regular-expression engine.  The configured
//! section and entry patterns are arbitrary user-supplied regexes, so their
//! compilation and matching are delegated to the `regex` crate; what a
//! pattern accepts is named, not restated.
use vstd::prelude::*;

verus! {

/// Whether `pattern` compiles as a regular expression.
pub uninterp spec fn rx_valid(pattern: Seq<char>) -> bool;

/// Whether the compiled `pattern` matches anywhere in `text`.
pub uninterp spec fn rx_matches(pattern: Seq<char>, text: Seq<char>) -> bool;

/// The texts of capture groups 1 and 2 of the leftmost match of `pattern` in
/// `text`: `None` when there is no match or group 1 did not participate.
pub uninterp spec fn rx_captures12(pattern: Seq<char>, text: Seq<char>) -> Option<
    (Seq<char>, Option<Seq<char>>),
>;

/// Relies on `regex::Regex::new`: whether a pattern compiles depends on the
/// pattern text alone.
#[verifier::external_body]
pub(crate) fn rx_check(pattern: &str) -> (r: bool)
    ensures
        r == rx_valid(pattern@),
{
    regex::Regex::new(pattern).is_ok()
}

/// Relies on `regex::Regex::is_match`: whether a compiled pattern matches
/// somewhere in a haystack depends on the pattern and haystack texts alone.
#[verifier::external_body]
pub(crate) fn rx_is_match(pattern: &str, text: &str) -> (r: bool)
    requires
        rx_valid(pattern@),
    ensures
        r == rx_matches(pattern@, text@),
{
    match regex::Regex::new(pattern) {
        Ok(re) => re.is_match(text),
        Err(_) => false,
    }
}

/// Relies on `regex::Regex::captures` and `regex::Captures::get`: the
/// leftmost match and its groups depend on the pattern and haystack texts
/// alone.  Yields group 1's text and, when present, group 2's.
#[verifier::external_body]
pub(crate) fn rx_captures(pattern: &str, text: &str) -> (r: Option<(String, Option<String>)>)
    requires
        rx_valid(pattern@),
    ensures
        r is None ==> rx_captures12(pattern@, text@) is None,
        r matches Some(c) ==> rx_captures12(pattern@, text@) == Some((c.0@, c.1.deep_view())),
{
    let re = match regex::Regex::new(pattern) {
        Ok(re) => re,
        Err(_) => return None,
    };
    let caps = re.captures(text)?;
    let g1 = caps.get(1)?;
    Some((g1.as_str().to_string(), caps.get(2).map(|m| m.as_str().to_string())))
}

} // verus!
