//! The outcome of running a module, and what a run records.
use vstd::prelude::*;

use std::collections::HashSet;

use crate::policy::ExecutionPolicy;

verus! {

broadcast use vstd::std_specs::hash::group_hash_axioms;

/// Result of an executed module
#[derive(Debug, Clone, Copy, PartialEq, Eq, Structural)]
pub enum ExecutionResult {
    /// Normal termination
    ProcessExit { exit_code: u32, execution_cost: u64 },
    /// Execution limit exceeded
    Timeout,
    /// Execution was skipped
    Skipped,
    /// Other error (e.g. module trapped)
    Error,
}

/// The code offsets that a run of an instrumented module passed.
pub struct TracePoints {
    points: HashSet<u64>,
}

impl View for TracePoints {
    type V = Set<u64>;

    closed spec fn view(&self) -> Set<u64> {
        self.points@
    }
}

impl TracePoints {
    /// Record that the instruction at `offset` was executed.
    pub fn add_point(&mut self, offset: u64)
        ensures
            final(self)@ == old(self)@.insert(offset),
    {
        self.points.insert(offset);
    }

    /// Whether the instruction at `offset` was executed.
    pub fn is_covered(&self, offset: u64) -> (r: bool)
        ensures
            r == self@.contains(offset),
    {
        self.points.contains(&offset)
    }

    /// A copy with the same points.
    pub fn duplicate(&self) -> (r: Self)
        ensures
            r@ == self@,
    {
        let mut points: HashSet<u64> = HashSet::new();
        for p in it: self.points.iter()
            invariant
                it.seq().unref().to_set() == self.points@,
                points@ == it.seq().take(it.index()).unref().to_set(),
                it.index() == it.seq().len() ==> points@ == self.points@,
        {
            proof {
                assert(it.seq().take(it.index() + 1).unref() =~= it.seq().take(it.index()).unref().push(*p));
                it.seq().take(it.index()).unref().lemma_push_to_set_commute(*p);
                assert(it.seq().take(it.seq().len() as int) =~= it.seq());
            }
            points.insert(*p);
        }
        TracePoints { points }
    }
}

impl Default for TracePoints {
    fn default() -> (r: Self)
        ensures
            r@ == Set::<u64>::empty(),
    {
        TracePoints { points: HashSet::new() }
    }
}

} // verus!

verus! {

/// The compiler that a runtime uses.
#[derive(Debug, Clone, Copy, PartialEq, Eq, Structural)]
pub enum Compiler {
    Singlepass,
    Cranelift,
}

impl Compiler {
    /// The compiler's name.
    pub fn text(&self) -> (s: &'static str)
        ensures
            s@ == match self {
                Compiler::Singlepass => "Singlepass"@,
                Compiler::Cranelift => "Cranelift"@,
            },
    {
        match self {
            Compiler::Singlepass => "Singlepass",
            Compiler::Cranelift => "Cranelift",
        }
    }
}

/// The host side of a running module: the trace points it has reported and
/// the id of the mutation that is active in a meta mutant.
pub struct MutantEnv {
    points: TracePoints,
    activated_mutant_id: i64,
}

impl MutantEnv {
    pub closed spec fn spec_points(&self) -> Set<u64> {
        self.points@
    }

    pub closed spec fn spec_activated_mutant_id(&self) -> i64 {
        self.activated_mutant_id
    }

    /// An environment without trace points in which mutation
    /// `activated_mutant_id` is active.
    pub fn new(activated_mutant_id: i64) -> (r: Self)
        ensures
            r.spec_points() == Set::<u64>::empty(),
            r.spec_activated_mutant_id() == activated_mutant_id,
    {
        MutantEnv { points: TracePoints::default(), activated_mutant_id }
    }

    /// The trace function of an instrumented module: record the offset it
    /// passes.
    pub fn trace(&mut self, address: i64)
        ensures
            final(self).spec_points() == old(self).spec_points().insert(address as u64),
            final(self).spec_activated_mutant_id() == old(self).spec_activated_mutant_id(),
    {
        self.points.add_point(address as u64);
    }

    /// The check function of a meta mutant: 1 if `mutant_id` is the active
    /// mutation, else 0.
    pub fn check_mutant_id(&self, mutant_id: i64) -> (r: i32)
        ensures
            r == if self.spec_activated_mutant_id() == mutant_id {
                1i32
            } else {
                0i32
            },
    {
        if self.activated_mutant_id == mutant_id {
            1
        } else {
            0
        }
    }

    /// The trace points recorded so far.
    pub fn trace_points(&self) -> (r: TracePoints)
        ensures
            r@ == self.spec_points(),
    {
        self.points.duplicate()
    }
}

/// How a call of the module's `_start` function ended, as the runtime
/// reports it.
pub enum CallOutcome {
    /// The function returned.
    Returned,
    /// The module called the WASI `proc_exit` with this code.
    Exited(u32),
    /// The module needs a WASI version that the runtime does not know.
    UnknownWasiVersion,
    /// Any other failure (a trap, for example).
    Failed,
}

/// The execution budget left after a call.
pub enum MeteringPoints {
    Remaining(u64),
    Exhausted,
}

/// The state of a runtime for one module: its host environment and the
/// compiler it was built with.
pub struct WasmerRuntime {
    mutant_env: MutantEnv,
    compiler: Compiler,
}

impl WasmerRuntime {
    pub closed spec fn spec_env(&self) -> MutantEnv {
        self.mutant_env
    }

    pub closed spec fn spec_compiler(&self) -> Compiler {
        self.compiler
    }

    /// A runtime for a module compiled on its own, without an active
    /// mutation.
    pub fn new() -> (r: Self)
        ensures
            r.spec_compiler() == Compiler::Singlepass,
            r.spec_env().spec_points() == Set::<u64>::empty(),
            r.spec_env().spec_activated_mutant_id() == 0,
    {
        WasmerRuntime { mutant_env: MutantEnv::new(0), compiler: Compiler::Singlepass }
    }

    /// The host environment, for the module's imported functions.
    pub fn env_mut(&mut self) -> (r: &mut MutantEnv)
        ensures
            *r == old(self).spec_env(),
            final(self).spec_env() == *final(r),
            final(self).spec_compiler() == old(self).spec_compiler(),
    {
        &mut self.mutant_env
    }

    /// The trace points that runs of the module have reported.
    pub fn trace_points(&self) -> (r: TracePoints)
        ensures
            r@ == self.spec_env().spec_points(),
    {
        self.mutant_env.trace_points()
    }

    /// The compiler the runtime uses.
    pub fn compiler(&self) -> (r: Compiler)
        ensures
            r == self.spec_compiler(),
    {
        self.compiler
    }

    /// The instruction budget of a call under `policy`: the limit, or no
    /// limit at all.
    pub fn execution_limit(policy: &ExecutionPolicy) -> (r: u64)
        ensures
            r == match policy {
                ExecutionPolicy::RunUntilLimit { limit } => *limit,
                ExecutionPolicy::RunUntilReturn => u64::MAX,
            },
    {
        match policy {
            ExecutionPolicy::RunUntilLimit { limit } => *limit,
            ExecutionPolicy::RunUntilReturn => u64::MAX,
        }
    }

    /// The result of a call that had budget `limit`, ended as `outcome` and
    /// left `points`: a return exits with code 0; a failure with the budget
    /// used up is a timeout; a WASI exit keeps its code; other failures are
    /// errors. The cost is the budget used.
    pub fn execution_result(limit: u64, outcome: CallOutcome, points: MeteringPoints) -> (r: ExecutionResult)
        requires
            points matches MeteringPoints::Remaining(rest) ==> rest <= limit,
        ensures
            r == match outcome {
                CallOutcome::Returned => ExecutionResult::ProcessExit {
                    exit_code: 0,
                    execution_cost: match points {
                        MeteringPoints::Remaining(rest) => (limit - rest) as u64,
                        MeteringPoints::Exhausted => limit,
                    },
                },
                _ => match points {
                    MeteringPoints::Exhausted => ExecutionResult::Timeout,
                    MeteringPoints::Remaining(rest) => match outcome {
                        CallOutcome::Exited(code) => ExecutionResult::ProcessExit {
                            exit_code: code,
                            execution_cost: (limit - rest) as u64,
                        },
                        _ => ExecutionResult::Error,
                    },
                },
            },
    {
        match outcome {
            CallOutcome::Returned => {
                let execution_cost = match points {
                    MeteringPoints::Remaining(rest) => limit - rest,
                    MeteringPoints::Exhausted => limit,
                };
                ExecutionResult::ProcessExit { exit_code: 0, execution_cost }
            },
            CallOutcome::Exited(exit_code) => match points {
                MeteringPoints::Exhausted => ExecutionResult::Timeout,
                MeteringPoints::Remaining(rest) => ExecutionResult::ProcessExit {
                    exit_code,
                    execution_cost: limit - rest,
                },
            },
            _ => match points {
                MeteringPoints::Exhausted => ExecutionResult::Timeout,
                MeteringPoints::Remaining(_) => ExecutionResult::Error,
            },
        }
    }
}

/// Makes runtimes for the mutants of one compiled meta mutant.
pub struct WasmerRuntimeFactory {
    compiled_code: Vec<u8>,
    discard_output: bool,
    map_dirs: Vec<(String, String)>,
}

impl WasmerRuntimeFactory {
    pub closed spec fn spec_compiled_code(&self) -> Seq<u8> {
        self.compiled_code@
    }

    pub closed spec fn spec_discard_output(&self) -> bool {
        self.discard_output
    }

    pub closed spec fn spec_map_dirs(&self) -> Seq<(String, String)> {
        self.map_dirs@
    }

    /// A factory for the compiled module `compiled_code`, whose runtimes
    /// discard the module's output if asked and map the directories
    /// `map_dirs` (host path, guest path) into it.
    pub fn new(compiled_code: Vec<u8>, discard_output: bool, map_dirs: Vec<(String, String)>) -> (r: Self)
        ensures
            r.spec_compiled_code() == compiled_code@,
            r.spec_discard_output() == discard_output,
            r.spec_map_dirs() == map_dirs@,
    {
        WasmerRuntimeFactory { compiled_code, discard_output, map_dirs }
    }

    /// The compiled module.
    pub fn compiled_code(&self) -> (r: &Vec<u8>)
        ensures
            r@ == self.spec_compiled_code(),
    {
        &self.compiled_code
    }

    /// Whether runtimes discard the module's output.
    pub fn discard_output(&self) -> (r: bool)
        ensures
            r == self.spec_discard_output(),
    {
        self.discard_output
    }

    /// The directories mapped into the module.
    pub fn map_dirs(&self) -> (r: &Vec<(String, String)>)
        ensures
            r@ == self.spec_map_dirs(),
    {
        &self.map_dirs
    }

    /// The runtime state for mutant `mutant_id` of the meta mutant: compiled
    /// with Cranelift, with `mutant_id` active and no trace points yet.
    pub fn instantiate_mutant(&self, mutant_id: i64) -> (r: WasmerRuntime)
        ensures
            r.spec_compiler() == Compiler::Cranelift,
            r.spec_env().spec_activated_mutant_id() == mutant_id,
            r.spec_env().spec_points() == Set::<u64>::empty(),
    {
        WasmerRuntime { mutant_env: MutantEnv::new(mutant_id), compiler: Compiler::Cranelift }
    }
}

} // verus!
