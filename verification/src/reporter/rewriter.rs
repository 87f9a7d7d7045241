//! Rewriting source paths for reports.
use vstd::prelude::*;

use regex::Regex;

use crate::patterns::{regex_matches, regex_new, regex_replace, regex_replace_first, regex_source};

verus! {

/// Replaces the first match of a regular expression in a path.
pub struct PathRewriter {
    regex: Regex,
    replacement: String,
}

impl PathRewriter {
    pub closed spec fn spec_pattern(&self) -> Seq<char> {
        regex_source(self.regex)
    }

    pub closed spec fn spec_replacement(&self) -> Seq<char> {
        self.replacement@
    }

    /// A rewriter that replaces the first match of `regex` by
    /// `replacement`; it fails when the pattern is rejected.
    pub fn new(regex: &str, replacement: &str) -> (r: Result<Self, regex::Error>)
        ensures
            r is Ok <==> crate::patterns::regex_compiles(regex@),
            r matches Ok(p) ==> p.spec_pattern() == regex@ && p.spec_replacement() == replacement@,
    {
        match regex_new(regex) {
            Ok(re) => Ok(PathRewriter { regex: re, replacement: String::from_str(replacement) }),
            Err(e) => Err(e),
        }
    }

    /// The path with the first match replaced.
    pub fn rewrite(&self, path: &str) -> (r: String)
        ensures
            r@ == regex_replace_first(self.spec_pattern(), path@, self.spec_replacement()),
            !regex_matches(self.spec_pattern(), path@) ==> r@ == path@,
    {
        regex_replace(&self.regex, path, self.replacement.as_str())
    }
}

} // verus!
