//! Regular expressions, as the `regex` crate provides them.
//!
//! Matching is left to the `regex` crate: the items below name what its
//! functions return and state the few facts that its documentation gives.
use vstd::prelude::*;

use regex::{Regex, RegexSet};

verus! {

#[verifier::external_type_specification]
#[verifier::external_body]
pub struct ExRegexSet(RegexSet);

#[verifier::external_type_specification]
#[verifier::external_body]
pub struct ExRegex(Regex);

#[verifier::external_type_specification]
#[verifier::external_body]
pub struct ExRegexError(regex::Error);

/// The patterns that a regex set was built from, in order.
pub uninterp spec fn regex_set_patterns(set: RegexSet) -> Seq<Seq<char>>;

/// Whether `RegexSet::new` accepts the given patterns.
pub uninterp spec fn regex_set_compiles(patterns: Seq<Seq<char>>) -> bool;

/// Whether `pattern` matches somewhere in `haystack` (what `Regex::is_match`
/// answers for the compiled pattern).
pub uninterp spec fn regex_matches(pattern: Seq<char>, haystack: Seq<char>) -> bool;

/// The pattern that a regex was compiled from.
pub uninterp spec fn regex_source(re: Regex) -> Seq<char>;

/// Whether `Regex::new` accepts the given pattern.
pub uninterp spec fn regex_compiles(pattern: Seq<char>) -> bool;

/// What `Regex::replace` makes of `haystack`: the leftmost-first match of
/// `pattern` replaced by the expanded `replacement`.
pub uninterp spec fn regex_replace_first(
    pattern: Seq<char>,
    haystack: Seq<char>,
    replacement: Seq<char>,
) -> Seq<char>;

/// The contents of a list of strings.
pub open spec fn strings_view(v: Seq<String>) -> Seq<Seq<char>> {
    v.map_values(|s: String| s@)
}

/// Every pattern of the list is empty (which includes an empty list).
pub open spec fn all_empty(patterns: Seq<Seq<char>>) -> bool {
    forall|i: int| 0 <= i < patterns.len() ==> (#[trigger] patterns[i]).len() == 0
}

/// Some pattern of the list matches `haystack`.
pub open spec fn any_pattern_matches(patterns: Seq<Seq<char>>, haystack: Seq<char>) -> bool {
    exists|i: int| 0 <= i < patterns.len() && regex_matches(#[trigger] patterns[i], haystack)
}

/// `RegexSet::new`: builds a set from the patterns; the set holds the patterns
/// in order, and it fails exactly when the crate rejects the patterns. No
/// pattern at all, or only empty patterns, are accepted.
#[verifier::external_body]
pub fn regex_set_new(patterns: &Vec<String>) -> (r: Result<RegexSet, regex::Error>)
    ensures
        r is Ok <==> regex_set_compiles(strings_view(patterns@)),
        all_empty(strings_view(patterns@)) ==> r is Ok,
        r matches Ok(set) ==> regex_set_patterns(set) == strings_view(patterns@),
{
    RegexSet::new(patterns)
}

/// `RegexSet::empty`: a set without patterns.
#[verifier::external_body]
pub fn regex_set_empty() -> (set: RegexSet)
    ensures
        regex_set_patterns(set) == Seq::<Seq<char>>::empty(),
{
    RegexSet::empty()
}

/// `RegexSet::is_match`: true if and only if one of the patterns of the set
/// matches the haystack; an empty pattern matches every haystack.
#[verifier::external_body]
pub fn regex_set_is_match(set: &RegexSet, haystack: &str) -> (b: bool)
    ensures
        b == any_pattern_matches(regex_set_patterns(*set), haystack@),
        regex_set_patterns(*set).contains(Seq::<char>::empty()) ==> b,
{
    set.is_match(haystack)
}

/// `Regex::new`: compiles a pattern; it fails exactly when the crate rejects
/// the pattern.
#[verifier::external_body]
pub fn regex_new(pattern: &str) -> (r: Result<Regex, regex::Error>)
    ensures
        r is Ok <==> regex_compiles(pattern@),
        r matches Ok(re) ==> regex_source(re) == pattern@,
{
    Regex::new(pattern)
}

/// `Regex::replace`: replaces the leftmost-first match of the regex in the
/// haystack; when nothing matches, the haystack comes back unchanged.
#[verifier::external_body]
pub fn regex_replace(re: &Regex, haystack: &str, replacement: &str) -> (r: String)
    ensures
        r@ == regex_replace_first(regex_source(*re), haystack@, replacement@),
        !regex_matches(regex_source(*re), haystack@) ==> r@ == haystack@,
{
    re.replace(haystack, replacement).into_owned()
}

} // verus!
