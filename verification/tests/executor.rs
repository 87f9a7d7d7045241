use wasmut::executor::{
    baseline_cost, check_trace_run, count_skipped, mutant_jobs, skipped_mutant, ExecutedMutant,
    ExecutorError, MutantJob,
};
use wasmut::instruction::Instruction;
use wasmut::mutation::{Mutation, MutationLocation};
use wasmut::operator::ops::{ConstReplaceNonZero, RelationalOperatorLtToGe, RelationalOperatorLtToLe};
use wasmut::runtime::{ExecutionResult, TracePoints};

#[test]
fn baseline_needs_exit_code_zero() {
    assert_eq!(
        baseline_cost(ExecutionResult::ProcessExit { exit_code: 0, execution_cost: 40 }),
        Ok(40)
    );
    assert_eq!(
        baseline_cost(ExecutionResult::ProcessExit { exit_code: 1, execution_cost: 40 }),
        Err(ExecutorError::NonZeroExit(1))
    );
    assert_eq!(baseline_cost(ExecutionResult::Error), Err(ExecutorError::ModuleFailed));
    assert_eq!(
        check_trace_run(ExecutionResult::ProcessExit { exit_code: 0, execution_cost: 1 }),
        Ok(())
    );
    assert_eq!(
        check_trace_run(ExecutionResult::ProcessExit { exit_code: 3, execution_cost: 1 }),
        Err(ExecutorError::NonZeroExit(3))
    );
}

fn locations() -> Vec<MutationLocation> {
    vec![
        MutationLocation {
            function_number: 1,
            statement_number: 5,
            offset: 42,
            mutations: vec![
                Mutation { id: 3, operator: RelationalOperatorLtToGe::new(&Instruction::I32LtS).unwrap() },
                Mutation { id: 4, operator: RelationalOperatorLtToLe::new(&Instruction::I32LtS).unwrap() },
            ],
        },
        MutationLocation {
            function_number: 3,
            statement_number: 0,
            offset: 46,
            mutations: vec![Mutation {
                id: 0,
                operator: ConstReplaceNonZero::new(&Instruction::I32Const(-1)).unwrap(),
            }],
        },
    ]
}

#[test]
fn skip_because_not_covered() {
    let mut points = TracePoints::default();
    points.add_point(42);
    let jobs = mutant_jobs(&locations(), true, &points);
    assert_eq!(
        jobs,
        vec![
            MutantJob { location: 0, mutation: 0, skipped: false },
            MutantJob { location: 0, mutation: 1, skipped: false },
            MutantJob { location: 1, mutation: 0, skipped: true },
        ]
    );
    let jobs = mutant_jobs(&locations(), false, &TracePoints::default());
    assert!(jobs.iter().all(|j| !j.skipped));
}

#[test]
fn skipped_mutants_are_counted() {
    let locs = locations();
    let skipped = skipped_mutant(&locs[1], 0);
    assert_eq!(skipped.offset, 46);
    assert_eq!(skipped.outcome, ExecutionResult::Skipped);
    let ran = ExecutedMutant {
        offset: 42,
        outcome: ExecutionResult::ProcessExit { exit_code: 1, execution_cost: 9 },
        operator: locs[0].mutations[0].operator.clone(),
    };
    assert_eq!(count_skipped(&[ran, skipped]), 1);
    assert_eq!(count_skipped(&[]), 0);
}
