//! The decisions of mutant execution: what a run of the unmutated module
//! means, which mutants run and which are skipped.
use vstd::prelude::*;

use crate::mutation::{mutations_before, MutationLocation};
use crate::operator::InstructionReplacement;
use crate::runtime::{ExecutionResult, TracePoints};

verus! {

/// A mutant and the result of running it.
#[derive(Debug)]
pub struct ExecutedMutant {
    /// Offset of the mutated instruction in the code section.
    pub offset: u64,
    pub outcome: ExecutionResult,
    pub operator: InstructionReplacement,
}

/// Why mutants could not be executed.
#[derive(Debug, Clone, Copy, PartialEq, Eq, Structural)]
pub enum ExecutorError {
    /// The unmutated module exited with this code.
    NonZeroExit(u32),
    /// The unmutated module failed to execute.
    ModuleFailed,
}

/// A run without an execution limit can neither time out nor be skipped.
pub open spec fn unlimited_run_result(result: ExecutionResult) -> bool {
    !(result is Timeout) && !(result is Skipped)
}

/// The cost of a run of the unmutated module, which must exit with code 0.
pub fn baseline_cost(result: ExecutionResult) -> (r: Result<u64, ExecutorError>)
    requires
        unlimited_run_result(result),
    ensures
        r == match result {
            ExecutionResult::ProcessExit { exit_code, execution_cost } => if exit_code == 0 {
                Ok(execution_cost)
            } else {
                Err(ExecutorError::NonZeroExit(exit_code))
            },
            _ => Err(ExecutorError::ModuleFailed),
        },
{
    match result {
        ExecutionResult::ProcessExit { exit_code, execution_cost } => if exit_code == 0 {
            Ok(execution_cost)
        } else {
            Err(ExecutorError::NonZeroExit(exit_code))
        },
        _ => Err(ExecutorError::ModuleFailed),
    }
}

/// A run of the unmutated module with coverage tracing must exit with code
/// 0; then its trace points count.
pub fn check_trace_run(result: ExecutionResult) -> (r: Result<(), ExecutorError>)
    requires
        unlimited_run_result(result),
    ensures
        r == match result {
            ExecutionResult::ProcessExit { exit_code, .. } => if exit_code == 0 {
                Ok(())
            } else {
                Err(ExecutorError::NonZeroExit(exit_code))
            },
            _ => Err(ExecutorError::ModuleFailed),
        },
{
    match result {
        ExecutionResult::ProcessExit { exit_code, .. } => if exit_code == 0 {
            Ok(())
        } else {
            Err(ExecutorError::NonZeroExit(exit_code))
        },
        _ => Err(ExecutorError::ModuleFailed),
    }
}

/// One mutant to execute: mutation `mutation` of location `location`, or
/// to skip because its instruction was never executed.
#[derive(Debug, Clone, Copy, PartialEq, Eq, Structural)]
pub struct MutantJob {
    pub location: usize,
    pub mutation: usize,
    pub skipped: bool,
}

/// The jobs for the first `upto` locations: every mutation of every
/// location in order; with coverage on, those whose instruction the trace
/// points do not cover are skipped.
pub open spec fn jobs_spec(locs: Seq<MutationLocation>, coverage: bool, points: Set<u64>, upto: int) -> Seq<
    MutantJob,
>
    decreases upto,
{
    if upto <= 0 {
        Seq::empty()
    } else {
        let k = upto - 1;
        jobs_spec(locs, coverage, points, k) + Seq::new(
            locs[k].mutations@.len(),
            |j: int| MutantJob { location: k as usize, mutation: j as usize, skipped: coverage && !points.contains(locs[k].offset) },
        )
    }
}

/// The mutants to execute, location by location and mutation by mutation.
/// Every mutation of every location gets exactly one job, in order: as many
/// jobs as mutations, each naming an existing mutation; a job is skipped
/// only with coverage-based execution, and then exactly when its
/// instruction was never reached.
pub proof fn lemma_one_job_per_mutation(locs: Seq<MutationLocation>, coverage: bool, points: Set<u64>, upto: int)
    requires
        0 <= upto <= locs.len(),
        locs.len() <= usize::MAX,
    ensures
        jobs_spec(locs, coverage, points, upto).len() == mutations_before(locs, upto),
        forall|i: int|
            #![trigger jobs_spec(locs, coverage, points, upto)[i]]
            0 <= i < jobs_spec(locs, coverage, points, upto).len() ==> {
                let job = jobs_spec(locs, coverage, points, upto)[i];
                &&& job.location < upto
                &&& job.mutation < locs[job.location as int].mutations@.len()
                &&& job.skipped == (coverage && !points.contains(locs[job.location as int].offset))
            },
    decreases upto,
{
    if upto > 0 {
        lemma_one_job_per_mutation(locs, coverage, points, upto - 1);
        let prev = jobs_spec(locs, coverage, points, upto - 1);
        let all = jobs_spec(locs, coverage, points, upto);
        assert forall|i: int| 0 <= i < all.len() implies {
            let job = #[trigger] all[i];
            &&& job.location < upto
            &&& job.mutation < locs[job.location as int].mutations@.len()
            &&& job.skipped == (coverage && !points.contains(locs[job.location as int].offset))
        } by {
            if i < prev.len() {
                assert(all[i] == prev[i]);
            }
        }
    }
}

pub fn mutant_jobs(locations: &[MutationLocation], coverage: bool, trace_points: &TracePoints) -> (r: Vec<MutantJob>)
    ensures
        r@ == jobs_spec(locations@, coverage, trace_points@, locations@.len() as int),
{
    let mut jobs: Vec<MutantJob> = Vec::new();
    let mut k: usize = 0;
    while k < locations.len()
        invariant
            k <= locations@.len(),
            jobs@ == jobs_spec(locations@, coverage, trace_points@, k as int),
        decreases locations.len() - k,
    {
        let location = &locations[k];
        let skipped = coverage && !trace_points.is_covered(location.offset);
        let ghost start = jobs@;
        let mut j: usize = 0;
        while j < location.mutations.len()
            invariant
                j <= location.mutations@.len(),
                jobs@ == start + Seq::new(
                    j as nat,
                    |q: int| MutantJob { location: k, mutation: q as usize, skipped },
                ),
            decreases location.mutations.len() - j,
        {
            jobs.push(MutantJob { location: k, mutation: j, skipped });
            j = j + 1;
            assert(jobs@ =~= start + Seq::new(j as nat, |q: int| MutantJob { location: k, mutation: q as usize, skipped }));
        }
        assert(locations@[k as int] == *location);
        assert(Seq::new(j as nat, |q: int| MutantJob { location: k, mutation: q as usize, skipped }) =~= Seq::new(
            locations@[k as int].mutations@.len(),
            |q: int| MutantJob {
                location: k as usize,
                mutation: q as usize,
                skipped: coverage && !trace_points@.contains(locations@[k as int].offset),
            },
        ));
        k = k + 1;
    }
    jobs
}

/// The record of a mutant that was skipped.
pub fn skipped_mutant(location: &MutationLocation, mutation: usize) -> (r: ExecutedMutant)
    requires
        mutation < location.mutations@.len(),
    ensures
        r.offset == location.offset,
        r.outcome == ExecutionResult::Skipped,
        crate::operator::replacement_view(r.operator) == crate::operator::replacement_view(
            location.mutations@[mutation as int].operator,
        ),
{
    ExecutedMutant {
        offset: location.offset,
        outcome: ExecutionResult::Skipped,
        operator: location.mutations[mutation].operator.duplicate(),
    }
}

/// The number of skipped mutants among the first `upto`.
pub open spec fn skipped_count(outcomes: Seq<ExecutedMutant>, upto: int) -> nat
    decreases upto,
{
    if upto <= 0 {
        0
    } else {
        skipped_count(outcomes, upto - 1) + if outcomes[upto - 1].outcome is Skipped {
            1nat
        } else {
            0nat
        }
    }
}

/// How many mutants were skipped.
pub fn count_skipped(outcomes: &[ExecutedMutant]) -> (r: usize)
    ensures
        r == skipped_count(outcomes@, outcomes@.len() as int),
{
    let mut n: usize = 0;
    let mut k: usize = 0;
    while k < outcomes.len()
        invariant
            k <= outcomes@.len(),
            n == skipped_count(outcomes@, k as int),
            n <= k,
        decreases outcomes.len() - k,
    {
        if let ExecutionResult::Skipped = outcomes[k].outcome {
            n = n + 1;
        }
        k = k + 1;
    }
    n
}

} // verus!
