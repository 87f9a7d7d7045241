//! What became of the mutants, gathered for reports.
use vstd::prelude::*;

use crate::addressresolver::CodeLocation;
use crate::executor::ExecutedMutant;
use crate::operator::{replacement_view, InstructionReplacement};
use crate::runtime::ExecutionResult;

pub mod cli;
pub mod files;
pub mod html;
pub mod json;
pub mod rewriter;

verus! {

/// What became of a mutant.
#[derive(Debug, PartialEq, Eq, Clone, Copy, Structural)]
pub enum MutationOutcome {
    Alive,
    Killed,
    Timeout,
    Error,
    Skipped,
}

/// The outcome of a mutant whose run gave `result`: a mutant that exits
/// with code 0 survived the tests, any other exit code killed it.
pub open spec fn outcome_of(result: ExecutionResult) -> MutationOutcome {
    match result {
        ExecutionResult::ProcessExit { exit_code, .. } => if exit_code == 0 {
            MutationOutcome::Alive
        } else {
            MutationOutcome::Killed
        },
        ExecutionResult::Timeout => MutationOutcome::Timeout,
        ExecutionResult::Error => MutationOutcome::Error,
        ExecutionResult::Skipped => MutationOutcome::Skipped,
    }
}

/// The upper-case name of an outcome.
pub open spec fn outcome_text(m: MutationOutcome) -> Seq<char> {
    match m {
        MutationOutcome::Alive => "ALIVE"@,
        MutationOutcome::Killed => "KILLED"@,
        MutationOutcome::Timeout => "TIMEOUT"@,
        MutationOutcome::Error => "ERROR"@,
        MutationOutcome::Skipped => "SKIPPED"@,
    }
}

/// The lower-case name of an outcome.
pub open spec fn outcome_text_lower(m: MutationOutcome) -> Seq<char> {
    match m {
        MutationOutcome::Alive => "alive"@,
        MutationOutcome::Killed => "killed"@,
        MutationOutcome::Timeout => "timeout"@,
        MutationOutcome::Error => "error"@,
        MutationOutcome::Skipped => "skipped"@,
    }
}

impl MutationOutcome {
    /// The outcome of a mutant whose run gave `result`.
    pub fn from_execution_result(result: ExecutionResult) -> (r: Self)
        ensures
            r == outcome_of(result),
    {
        match result {
            ExecutionResult::ProcessExit { exit_code, .. } => if exit_code == 0 {
                MutationOutcome::Alive
            } else {
                MutationOutcome::Killed
            },
            ExecutionResult::Timeout => MutationOutcome::Timeout,
            ExecutionResult::Error => MutationOutcome::Error,
            ExecutionResult::Skipped => MutationOutcome::Skipped,
        }
    }

    /// The upper-case name of the outcome.
    pub fn text(&self) -> (s: &'static str)
        ensures
            s@ == outcome_text(*self),
    {
        match self {
            MutationOutcome::Alive => "ALIVE",
            MutationOutcome::Killed => "KILLED",
            MutationOutcome::Timeout => "TIMEOUT",
            MutationOutcome::Error => "ERROR",
            MutationOutcome::Skipped => "SKIPPED",
        }
    }

    /// The lower-case name of the outcome.
    pub fn text_lower(&self) -> (s: &'static str)
        ensures
            s@ == outcome_text_lower(*self),
    {
        match self {
            MutationOutcome::Alive => "alive",
            MutationOutcome::Killed => "killed",
            MutationOutcome::Timeout => "timeout",
            MutationOutcome::Error => "error",
            MutationOutcome::Skipped => "skipped",
        }
    }
}

/// A mutant with its source location and outcome, ready to report.
#[derive(Debug)]
pub struct ReportableMutant {
    pub location: CodeLocation,
    pub outcome: MutationOutcome,
    pub operator: InstructionReplacement,
}

impl ReportableMutant {
    /// An executed mutant at source location `location`.
    pub fn new(executed: ExecutedMutant, location: CodeLocation) -> (r: Self)
        ensures
            r.location == location,
            r.outcome == outcome_of(executed.outcome),
            replacement_view(r.operator) == replacement_view(executed.operator),
    {
        ReportableMutant {
            location,
            outcome: MutationOutcome::from_execution_result(executed.outcome),
            operator: executed.operator,
        }
    }
}

/// How many results of each kind there are among the first `upto`: alive,
/// timeout, killed, error (a skipped run counts in none of them).
pub open spec fn result_counts(results: Seq<ExecutionResult>, upto: int) -> (nat, nat, nat, nat)
    decreases upto,
{
    if upto <= 0 {
        (0, 0, 0, 0)
    } else {
        let (a, t, k, e) = result_counts(results, upto - 1);
        match results[upto - 1] {
            ExecutionResult::ProcessExit { exit_code, .. } => if exit_code == 0 {
                (a + 1, t, k, e)
            } else {
                (a, t, k + 1, e)
            },
            ExecutionResult::Timeout => (a, t + 1, k, e),
            ExecutionResult::Error => (a, t, k, e + 1),
            ExecutionResult::Skipped => (a, t, k, e),
        }
    }
}

/// The numbers of alive, timed-out, killed and failed mutants among the
/// results, in that order.
pub fn report_results(results: &[ExecutionResult]) -> (r: (usize, usize, usize, usize))
    ensures
        (r.0 as nat, r.1 as nat, r.2 as nat, r.3 as nat) == result_counts(results@, results@.len() as int),
{
    let mut alive: usize = 0;
    let mut timeout: usize = 0;
    let mut killed: usize = 0;
    let mut error: usize = 0;
    let mut i: usize = 0;
    while i < results.len()
        invariant
            i <= results@.len(),
            (alive as nat, timeout as nat, killed as nat, error as nat) == result_counts(results@, i as int),
            alive + timeout + killed + error <= i,
        decreases results.len() - i,
    {
        match results[i] {
            ExecutionResult::ProcessExit { exit_code, .. } => if exit_code == 0 {
                alive = alive + 1;
            } else {
                killed = killed + 1;
            },
            ExecutionResult::Timeout => timeout = timeout + 1,
            ExecutionResult::Error => error = error + 1,
            ExecutionResult::Skipped => {},
        }
        i = i + 1;
    }
    (alive, timeout, killed, error)
}

/// The number of mutants of each outcome.
#[derive(Debug, Clone, Copy, PartialEq, Eq, Structural)]
pub struct OutcomeCounts {
    pub total: i32,
    pub alive: i32,
    pub timeout: i32,
    pub killed: i32,
    pub error: i32,
    pub skipped: i32,
}

/// How often outcome `m` occurs among the first `upto` outcomes.
pub open spec fn count_outcome(outcomes: Seq<MutationOutcome>, m: MutationOutcome, upto: int) -> nat
    decreases upto,
{
    if upto <= 0 {
        0
    } else {
        count_outcome(outcomes, m, upto - 1) + if outcomes[upto - 1] == m {
            1nat
        } else {
            0nat
        }
    }
}

/// The counts of a list of outcomes.
pub open spec fn counts_of(outcomes: Seq<MutationOutcome>) -> OutcomeCounts {
    let n = outcomes.len() as int;
    OutcomeCounts {
        total: n as i32,
        alive: count_outcome(outcomes, MutationOutcome::Alive, n) as i32,
        timeout: count_outcome(outcomes, MutationOutcome::Timeout, n) as i32,
        killed: count_outcome(outcomes, MutationOutcome::Killed, n) as i32,
        error: count_outcome(outcomes, MutationOutcome::Error, n) as i32,
        skipped: count_outcome(outcomes, MutationOutcome::Skipped, n) as i32,
    }
}

/// The outcomes of the first `upto` counts sum to `upto`.
proof fn lemma_counts_sum(outcomes: Seq<MutationOutcome>, upto: int)
    requires
        0 <= upto <= outcomes.len(),
    ensures
        count_outcome(outcomes, MutationOutcome::Alive, upto) + count_outcome(outcomes, MutationOutcome::Timeout, upto)
            + count_outcome(outcomes, MutationOutcome::Killed, upto) + count_outcome(
            outcomes,
            MutationOutcome::Error,
            upto,
        ) + count_outcome(outcomes, MutationOutcome::Skipped, upto) == upto,
    decreases upto,
{
    if upto > 0 {
        lemma_counts_sum(outcomes, upto - 1);
    }
}

/// Every mutant has exactly one outcome: the counts of the outcomes add up
/// to the total.
pub proof fn lemma_outcome_counts_add_up(outcomes: Seq<MutationOutcome>)
    requires
        outcomes.len() <= i32::MAX,
    ensures
        counts_of(outcomes).alive + counts_of(outcomes).timeout + counts_of(outcomes).killed + counts_of(
            outcomes,
        ).error + counts_of(outcomes).skipped == counts_of(outcomes).total,
{
    lemma_counts_sum(outcomes, outcomes.len() as int);
}

/// Count the outcomes of a list of mutants.
pub fn accumulate_outcomes(outcomes: &[MutationOutcome]) -> (r: OutcomeCounts)
    requires
        outcomes@.len() <= i32::MAX,
    ensures
        r == counts_of(outcomes@),
{
    let mut alive: i32 = 0;
    let mut timeout: i32 = 0;
    let mut killed: i32 = 0;
    let mut error: i32 = 0;
    let mut skipped: i32 = 0;
    let mut i: usize = 0;
    while i < outcomes.len()
        invariant
            i <= outcomes@.len() <= i32::MAX,
            alive == count_outcome(outcomes@, MutationOutcome::Alive, i as int),
            timeout == count_outcome(outcomes@, MutationOutcome::Timeout, i as int),
            killed == count_outcome(outcomes@, MutationOutcome::Killed, i as int),
            error == count_outcome(outcomes@, MutationOutcome::Error, i as int),
            skipped == count_outcome(outcomes@, MutationOutcome::Skipped, i as int),
        decreases outcomes.len() - i,
    {
        proof {
            lemma_counts_sum(outcomes@, i as int);
        }
        match outcomes[i] {
            MutationOutcome::Alive => alive = alive + 1,
            MutationOutcome::Killed => killed = killed + 1,
            MutationOutcome::Timeout => timeout = timeout + 1,
            MutationOutcome::Error => error = error + 1,
            MutationOutcome::Skipped => skipped = skipped + 1,
        }
        i = i + 1;
    }
    OutcomeCounts { total: outcomes.len() as i32, alive, timeout, killed, error, skipped }
}

} // verus!
