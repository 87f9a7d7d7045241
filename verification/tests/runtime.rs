use wasmut::policy::ExecutionPolicy;
use wasmut::runtime::{
    CallOutcome, Compiler, ExecutionResult, MeteringPoints, MutantEnv, TracePoints, WasmerRuntime,
    WasmerRuntimeFactory,
};

#[test]
fn trace_points() {
    let mut trace_points = TracePoints::default();

    assert!(!trace_points.is_covered(0));
    assert!(!trace_points.is_covered(1337));

    trace_points.add_point(10);
    assert!(trace_points.is_covered(10));
}

#[test]
fn trace_points_copy_keeps_points() {
    let mut trace_points = TracePoints::default();
    trace_points.add_point(3);
    trace_points.add_point(7);
    trace_points.add_point(3);
    let copy = trace_points.duplicate();
    assert!(copy.is_covered(3));
    assert!(copy.is_covered(7));
    assert!(!copy.is_covered(5));
}

#[test]
fn compiler_display() {
    assert_eq!("Cranelift", Compiler::Cranelift.text());
    assert_eq!("Singlepass", Compiler::Singlepass.text());
}

#[test]
fn test_correct_compiler() {
    let runtime = WasmerRuntime::new();
    assert!(matches!(runtime.compiler(), Compiler::Singlepass));

    let factory = WasmerRuntimeFactory::new(vec![0, 97, 115, 109], true, vec![]);
    let runtime = factory.instantiate_mutant(0);
    assert!(matches!(runtime.compiler(), Compiler::Cranelift));
}

#[test]
fn mutant_env_checks_active_id_and_traces() {
    let mut env = MutantEnv::new(12);
    assert_eq!(env.check_mutant_id(12), 1);
    assert_eq!(env.check_mutant_id(13), 0);
    env.trace(46);
    env.trace(-1);
    let points = env.trace_points();
    assert!(points.is_covered(46));
    assert!(points.is_covered(u64::MAX));
    assert!(!points.is_covered(45));
}

#[test]
fn factory_runtime_traces_into_its_own_env() {
    let factory = WasmerRuntimeFactory::new(vec![1, 2, 3], false, vec![("a".into(), "b".into())]);
    assert_eq!(factory.compiled_code(), &vec![1, 2, 3]);
    assert!(!factory.discard_output());
    let mut runtime = factory.instantiate_mutant(5);
    assert_eq!(runtime.env_mut().check_mutant_id(5), 1);
    runtime.env_mut().trace(34);
    assert!(runtime.trace_points().is_covered(34));
}

#[test]
fn execution_limit_of_policies() {
    assert_eq!(
        WasmerRuntime::execution_limit(&ExecutionPolicy::RunUntilLimit { limit: 80 }),
        80
    );
    assert_eq!(
        WasmerRuntime::execution_limit(&ExecutionPolicy::RunUntilReturn),
        u64::MAX
    );
}

#[test]
fn execution_result_of_calls() {
    assert_eq!(
        WasmerRuntime::execution_result(100, CallOutcome::Returned, MeteringPoints::Remaining(60)),
        ExecutionResult::ProcessExit { exit_code: 0, execution_cost: 40 }
    );
    assert_eq!(
        WasmerRuntime::execution_result(100, CallOutcome::Returned, MeteringPoints::Exhausted),
        ExecutionResult::ProcessExit { exit_code: 0, execution_cost: 100 }
    );
    assert_eq!(
        WasmerRuntime::execution_result(100, CallOutcome::Exited(3), MeteringPoints::Remaining(1)),
        ExecutionResult::ProcessExit { exit_code: 3, execution_cost: 99 }
    );
    assert_eq!(
        WasmerRuntime::execution_result(1, CallOutcome::Failed, MeteringPoints::Exhausted),
        ExecutionResult::Timeout
    );
    assert_eq!(
        WasmerRuntime::execution_result(1, CallOutcome::Exited(0), MeteringPoints::Exhausted),
        ExecutionResult::Timeout
    );
    assert_eq!(
        WasmerRuntime::execution_result(10, CallOutcome::Failed, MeteringPoints::Remaining(2)),
        ExecutionResult::Error
    );
    assert_eq!(
        WasmerRuntime::execution_result(
            10,
            CallOutcome::UnknownWasiVersion,
            MeteringPoints::Remaining(2)
        ),
        ExecutionResult::Error
    );
}
