//! Configuration of mutant filtering, operators and reports.
//!
//! Reading the TOML file is left to the caller; this module holds the
//! configuration values and fills in the defaults of missing sections.
use vstd::prelude::*;

use crate::patterns::strings_view;

verus! {

/// Copy a list of strings.
pub fn copy_strings(v: &Vec<String>) -> (r: Vec<String>)
    ensures
        r@ == v@,
{
    let mut r: Vec<String> = Vec::new();
    let mut i: usize = 0;
    while i < v.len()
        invariant
            i <= v.len(),
            r@ == v@.subrange(0, i as int),
        decreases v.len() - i,
    {
        r.push(v[i].clone());
        i = i + 1;
        assert(r@ =~= v@.subrange(0, i as int));
    }
    assert(r@ =~= v@);
    r
}

/// Configuration for mutant filtering.
pub struct FilterConfig {
    /// Regex list of all files that should be mutated
    allowed_files: Option<Vec<String>>,
    /// Regex list of all functions that should be mutated
    allowed_functions: Option<Vec<String>>,
}

impl FilterConfig {
    /// A filter section with the given lists.
    pub fn new(allowed_files: Option<Vec<String>>, allowed_functions: Option<Vec<String>>) -> (r: Self)
        ensures
            r.spec_allowed_files() == allowed_files,
            r.spec_allowed_functions() == allowed_functions,
    {
        FilterConfig { allowed_files, allowed_functions }
    }

    pub closed spec fn spec_allowed_files(&self) -> Option<Vec<String>> {
        self.allowed_files
    }

    pub closed spec fn spec_allowed_functions(&self) -> Option<Vec<String>> {
        self.allowed_functions
    }

    /// Get list of regular expressions of all files that should be mutated
    pub fn allowed_files(&self) -> (r: Option<&Vec<String>>)
        ensures
            r matches Some(v) ==> self.spec_allowed_files() == Some(*v),
            r is None <==> self.spec_allowed_files() is None,
    {
        self.allowed_files.as_ref()
    }

    /// Get list of regular expressions of all functions that should be mutated
    pub fn allowed_functions(&self) -> (r: Option<&Vec<String>>)
        ensures
            r matches Some(v) ==> self.spec_allowed_functions() == Some(*v),
            r is None <==> self.spec_allowed_functions() is None,
    {
        self.allowed_functions.as_ref()
    }
}

impl Default for FilterConfig {
    fn default() -> (r: Self)
        ensures
            r.spec_allowed_files() is None,
            r.spec_allowed_functions() is None,
    {
        FilterConfig { allowed_files: None, allowed_functions: None }
    }
}

/// Configuration regarding report generation
pub struct ReportConfig {
    /// Rewrite paths using Regex::replace
    path_rewrite: Option<(String, String)>,
}

impl ReportConfig {
    /// A report section with the given path rewrite rule.
    pub fn new(path_rewrite: Option<(String, String)>) -> (r: Self)
        ensures
            r.spec_path_rewrite() == path_rewrite,
    {
        ReportConfig { path_rewrite }
    }

    pub closed spec fn spec_path_rewrite(&self) -> Option<(String, String)> {
        self.path_rewrite
    }

    /// Return path replacement configuration: a regex and its replacement.
    pub fn path_rewrite(&self) -> (r: Option<(&str, &str)>)
        ensures
            r is None <==> self.spec_path_rewrite() is None,
            r matches Some((a, b)) ==> (a@, b@) == (self.spec_path_rewrite().unwrap().0@,
                self.spec_path_rewrite().unwrap().1@),
    {
        match &self.path_rewrite {
            Some((regex, replacement)) => Some((regex.as_str(), replacement.as_str())),
            None => None,
        }
    }
}

impl Default for ReportConfig {
    fn default() -> (r: Self)
        ensures
            r.spec_path_rewrite() is None,
    {
        ReportConfig { path_rewrite: None }
    }
}

/// Configuration for mutation operators
pub struct OperatorConfig {
    /// (Regex) list of all enabled mutation operators
    enabled_operators: Option<Vec<String>>,
}

/// The operator patterns in effect: the configured list, or a single empty
/// pattern, which enables every operator.
pub open spec fn effective_operator_patterns(configured: Option<Vec<String>>) -> Seq<Seq<char>> {
    match configured {
        Some(v) => strings_view(v@),
        None => seq![Seq::<char>::empty()],
    }
}

impl OperatorConfig {
    /// An operator section with the given list.
    pub fn new(enabled_operators: Option<Vec<String>>) -> (r: Self)
        ensures
            r.spec_enabled_operators() == enabled_operators,
    {
        OperatorConfig { enabled_operators }
    }

    pub closed spec fn spec_enabled_operators(&self) -> Option<Vec<String>> {
        self.enabled_operators
    }

    /// Return a (regex) list of all enabled mutation operators
    pub fn enabled_operators(&self) -> (r: Vec<String>)
        ensures
            strings_view(r@) == effective_operator_patterns(self.spec_enabled_operators()),
    {
        match &self.enabled_operators {
            Some(v) => copy_strings(v),
            None => {
                let r = vec![String::new()];
                assert(strings_view(r@) =~= seq![Seq::<char>::empty()]);
                r
            },
        }
    }
}

impl Default for OperatorConfig {
    fn default() -> (r: Self)
        ensures
            r.spec_enabled_operators() is None,
    {
        OperatorConfig { enabled_operators: None }
    }
}

/// The configuration sections that mutant discovery and reporting read.
pub struct Config {
    filter: FilterConfig,
    report: ReportConfig,
    operators: OperatorConfig,
}

impl Config {
    /// Assemble a configuration from the sections that were present; a
    /// missing section takes its default.
    pub fn from_sections(
        filter: Option<FilterConfig>,
        report: Option<ReportConfig>,
        operators: Option<OperatorConfig>,
    ) -> (r: Self)
        ensures
            filter matches Some(f) ==> r.spec_filter() == f,
            filter is None ==> r.spec_filter().spec_allowed_files() is None
                && r.spec_filter().spec_allowed_functions() is None,
            report matches Some(x) ==> r.spec_report() == x,
            report is None ==> r.spec_report().spec_path_rewrite() is None,
            operators matches Some(o) ==> r.spec_operators() == o,
            operators is None ==> r.spec_operators().spec_enabled_operators() is None,
    {
        let filter = match filter {
            Some(f) => f,
            None => FilterConfig::default(),
        };
        let report = match report {
            Some(x) => x,
            None => ReportConfig::default(),
        };
        let operators = match operators {
            Some(o) => o,
            None => OperatorConfig::default(),
        };
        Config { filter, report, operators }
    }

    pub closed spec fn spec_filter(&self) -> FilterConfig {
        self.filter
    }

    pub closed spec fn spec_report(&self) -> ReportConfig {
        self.report
    }

    pub closed spec fn spec_operators(&self) -> OperatorConfig {
        self.operators
    }

    /// Return filter subsection
    pub fn filter(&self) -> (r: &FilterConfig)
        ensures
            *r == self.spec_filter(),
    {
        &self.filter
    }

    /// Return report subsection
    pub fn report(&self) -> (r: &ReportConfig)
        ensures
            *r == self.spec_report(),
    {
        &self.report
    }

    /// Return operators subsection
    pub fn operators(&self) -> (r: &OperatorConfig)
        ensures
            *r == self.spec_operators(),
    {
        &self.operators
    }
}

impl Default for Config {
    fn default() -> (r: Self)
        ensures
            r.spec_filter().spec_allowed_files() is None,
            r.spec_filter().spec_allowed_functions() is None,
            r.spec_report().spec_path_rewrite() is None,
            r.spec_operators().spec_enabled_operators() is None,
    {
        Config::from_sections(None, None, None)
    }
}

} // verus!
