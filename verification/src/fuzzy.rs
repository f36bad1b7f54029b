//! Trusted boundary around the fuzzy-matching engine.  Scoring is treated
//! as a pluggable dependency: what a query scores against a haystack is
//! named, and everything built on top is verified against that name.
use vstd::prelude::*;

use vstd::string::StrSliceExecFns;

verus! {

/// The score the fuzzy matcher assigns to `needle` against `haystack` under
/// its default configuration, or `None` when they do not match.
pub uninterp spec fn fuzzy_score(haystack: Seq<char>, needle: Seq<char>) -> Option<u16>;

/// `fuzzy_score`, guarded by the size limit the matcher enforces.
pub open spec fn spec_fuzzy(haystack: Seq<char>, needle: Seq<char>) -> Option<u16> {
    if haystack.len() <= u32::MAX {
        fuzzy_score(haystack, needle)
    } else {
        None
    }
}

/// Relies on `nucleo::Matcher::fuzzy_match` with `nucleo::Config::DEFAULT`:
/// the score depends on the two texts alone.  The matcher refuses haystacks
/// of more than `u32::MAX` characters, so those are excluded here.
#[verifier::external_body]
fn fuzzy_match_raw(haystack: &str, needle: &str) -> (r: Option<u16>)
    requires
        haystack@.len() <= u32::MAX,
    ensures
        r == fuzzy_score(haystack@, needle@),
{
    let mut matcher = nucleo::Matcher::new(nucleo::Config::DEFAULT);
    let mut hbuf = Vec::new();
    let mut nbuf = Vec::new();
    let h = nucleo::Utf32Str::new(haystack, &mut hbuf);
    let n = nucleo::Utf32Str::new(needle, &mut nbuf);
    matcher.fuzzy_match(h, n)
}

/// Scores `needle` against `haystack`, declining haystacks too large for
/// the matcher.
pub fn fuzzy_match_score(haystack: &str, needle: &str) -> (r: Option<u16>)
    ensures
        r == spec_fuzzy(haystack@, needle@),
{
    let len = haystack.unicode_len();
    if len <= u32::MAX as usize {
        fuzzy_match_raw(haystack, needle)
    } else {
        None
    }
}

} // verus!
