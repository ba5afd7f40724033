//! Trusted boundary to the regex crate: pattern compilation and
//! leftmost-match search. Everything the engine proves about pattern
//! matching rests on the contracts stated here.

use vstd::prelude::*;

verus! {

#[verifier::external_type_specification]
#[verifier::external_body]
pub struct ExRegex(regex::Regex);

/// Whether `regex::Regex::new` accepts a pattern; compilation succeeds
/// or fails as a function of the pattern text alone.
pub uninterp spec fn regex_ok(pattern: Seq<char>) -> bool;

/// What `regex::Regex::as_str` returns: the original pattern text the
/// value was compiled from.
pub uninterp spec fn regex_src(re: regex::Regex) -> Seq<char>;

/// What `regex::Regex::find` returns on a haystack: the byte offset of
/// the leftmost match, a function of the pattern and the haystack alone.
pub uninterp spec fn regex_find_at(pattern: Seq<char>, hay: Seq<char>) -> Option<int>;

/// Relies on regex::Regex::new: an invalid pattern is an error, a valid
/// one compiles to a regex that keeps its original pattern text (what
/// as_str returns).
#[verifier::external_body]
pub(crate) fn compile_pattern(pattern: &str) -> (r: Option<regex::Regex>)
    ensures
        r is Some <==> regex_ok(pattern@),
        r matches Some(re) ==> regex_src(re) == pattern@,
{
    match regex::Regex::new(pattern) {
        Ok(re) => Some(re),
        Err(_) => None,
    }
}

/// Relies on regex::Regex::find and regex::Match::start: the leftmost
/// match's byte offset, determined by the pattern and the haystack; an
/// offset never exceeds the haystack's byte length, which is below the
/// machine's address-space limit.
#[verifier::external_body]
pub(crate) fn find_in(re: &regex::Regex, hay: &str) -> (r: Option<usize>)
    ensures
        match r {
            Some(i) => regex_find_at(regex_src(*re), hay@) == Some(i as int) && i < usize::MAX,
            None => regex_find_at(regex_src(*re), hay@) is None,
        },
{
    match re.find(hay) {
        Some(m) => Some(m.start()),
        None => None,
    }
}

} // verus!
