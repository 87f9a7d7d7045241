//! The mutants of a JSON report.
use vstd::prelude::*;

use crate::addressresolver::opt_str;
use crate::config::ReportConfig;
use crate::patterns::regex_replace_first;
use crate::reporter::rewriter::PathRewriter;
use crate::reporter::{outcome_text_lower, ReportableMutant};

verus! {

/// A mutant as the JSON report lists it.
pub struct JSONMutant {
    pub operator: String,
    pub file: Option<String>,
    pub function: Option<String>,
    pub line: Option<u64>,
    pub outcome: String,
}

/// A path as a report shows it: rewritten by the first match of `pattern`
/// being replaced, where a rewrite is configured.
pub open spec fn reported_path(path: Seq<char>, rewrite: Option<(Seq<char>, Seq<char>)>) -> Seq<char> {
    match rewrite {
        Some((pattern, replacement)) => regex_replace_first(pattern, path, replacement),
        None => path,
    }
}

/// The rewrite that a rewriter performs.
pub open spec fn rewrite_of(rewriter: Option<PathRewriter>) -> Option<(Seq<char>, Seq<char>)> {
    match rewriter {
        Some(p) => Some((p.spec_pattern(), p.spec_replacement())),
        None => None,
    }
}

/// `j` lists mutant `m`: its operator's name, its (reported) file, function
/// and line, and its outcome in lower case.
pub open spec fn lists_mutant(j: JSONMutant, m: ReportableMutant, rewrite: Option<(Seq<char>, Seq<char>)>) -> bool {
    &&& j.operator@ == m.operator.kind.spec_name()
    &&& opt_str(j.file) == match m.location.file {
        Some(f) => Some(reported_path(f@, rewrite)),
        None => None,
    }
    &&& opt_str(j.function) == opt_str(m.location.function)
    &&& j.line == m.location.line
    &&& j.outcome@ == outcome_text_lower(m.outcome)
}

/// Writes the mutants of a module as JSON.
pub struct JSONReporter {
    path_rewriter: Option<PathRewriter>,
    file: String,
    execution_time: u64,
}

impl JSONReporter {
    pub closed spec fn spec_rewrite(&self) -> Option<(Seq<char>, Seq<char>)> {
        rewrite_of(self.path_rewriter)
    }

    pub closed spec fn spec_file(&self) -> Seq<char> {
        self.file@
    }

    pub closed spec fn spec_execution_time(&self) -> u64 {
        self.execution_time
    }

    /// A reporter for module `wasmfile` whose mutants ran for
    /// `execution_time` milliseconds, with the path rewrite of `config`.
    pub fn new(config: &ReportConfig, wasmfile: &str, execution_time: u64) -> (r: Result<Self, regex::Error>)
        ensures
            r is Ok <==> match config.spec_path_rewrite() {
                Some((pattern, _)) => crate::patterns::regex_compiles(pattern@),
                None => true,
            },
            r matches Ok(j) ==> {
                &&& j.spec_file() == wasmfile@
                &&& j.spec_execution_time() == execution_time
                &&& j.spec_rewrite() == match config.spec_path_rewrite() {
                    Some((pattern, replacement)) => Some((pattern@, replacement@)),
                    None => None,
                }
            },
    {
        let path_rewriter = match config.path_rewrite() {
            Some((regex, replacement)) => match PathRewriter::new(regex, replacement) {
                Ok(p) => Some(p),
                Err(e) => {
                    return Err(e);
                },
            },
            None => None,
        };
        Ok(JSONReporter { path_rewriter, file: String::from_str(wasmfile), execution_time })
    }

    /// The module the report is about.
    pub fn file(&self) -> (r: &str)
        ensures
            r@ == self.spec_file(),
    {
        self.file.as_str()
    }

    /// How long the mutants ran, in milliseconds.
    pub fn execution_time(&self) -> (r: u64)
        ensures
            r == self.spec_execution_time(),
    {
        self.execution_time
    }

    /// The mutants as the report lists them, in order.
    pub fn map_to_json_mutants(&self, executed_mutants: &[ReportableMutant]) -> (r: Vec<JSONMutant>)
        ensures
            r@.len() == executed_mutants@.len(),
            forall|i: int|
                0 <= i < r@.len() ==> lists_mutant(#[trigger] r@[i], executed_mutants@[i], self.spec_rewrite()),
    {
        let mut mutants: Vec<JSONMutant> = Vec::new();
        let mut i: usize = 0;
        while i < executed_mutants.len()
            invariant
                i <= executed_mutants@.len(),
                mutants@.len() == i,
                forall|k: int|
                    0 <= k < i ==> lists_mutant(#[trigger] mutants@[k], executed_mutants@[k], self.spec_rewrite()),
            decreases executed_mutants.len() - i,
        {
            let em = &executed_mutants[i];
            let file = match &em.location.file {
                Some(f) => match &self.path_rewriter {
                    Some(p) => Some(p.rewrite(f.as_str())),
                    None => Some(f.clone()),
                },
                None => None,
            };
            let function = match &em.location.function {
                Some(g) => Some(g.clone()),
                None => None,
            };
            mutants.push(
                JSONMutant {
                    operator: String::from_str(em.operator.name()),
                    file,
                    function,
                    line: em.location.line,
                    outcome: String::from_str(em.outcome.text_lower()),
                },
            );
            i = i + 1;
        }
        mutants
    }
}

} // verus!
