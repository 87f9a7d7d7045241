use wasmut::addressresolver::CodeLocation;
use wasmut::config::ReportConfig;
use wasmut::executor::ExecutedMutant;
use wasmut::instruction::Instruction;
use wasmut::operator::ops::BinaryOperatorAddToSub;
use wasmut::reporter::cli::mutant_position;
use wasmut::reporter::files::{accumulate_outcomes_for_file, map_mutants_to_files};
use wasmut::reporter::html::{generate_html_filename, hex_string, BulmaClass};
use wasmut::reporter::json::JSONReporter;
use wasmut::reporter::rewriter::PathRewriter;
use wasmut::reporter::{
    accumulate_outcomes, report_results, MutationOutcome, OutcomeCounts, ReportableMutant,
};
use wasmut::runtime::ExecutionResult;

#[test]
fn path_rewriter_simple_replace() {
    let rewriter = PathRewriter::new("/home/lukas/", "").ok().unwrap();

    assert_eq!(rewriter.rewrite("/home/lukas/wasmut/test.wasm"), "wasmut/test.wasm");
}

#[test]
fn path_rewriter_leaves_unmatched_paths() {
    let rewriter = PathRewriter::new("^/opt/", "build/").ok().unwrap();
    assert_eq!(rewriter.rewrite("/home/a.c"), "/home/a.c");
    assert_eq!(rewriter.rewrite("/opt/a.c"), "build/a.c");
    assert!(PathRewriter::new("(", "").is_err());
}

#[test]
fn html_generate_filename_for_simple_add() {
    let s = generate_html_filename("/home/lukas/Repos/wasmut/testdata/simple_add/simple_add.c").unwrap();
    assert_eq!(&s, "simple_add.c-ce4786400a5a428e3c19c99a8478f672.html");
}

#[test]
fn html_filename_needs_a_file_name() {
    assert!(generate_html_filename("/").is_none());
    assert!(generate_html_filename("src/..").is_none());
}

#[test]
fn hex_is_two_lower_case_digits_per_byte() {
    assert_eq!(hex_string(&vec![0, 15, 16, 171, 255]), "000f10abff");
}

#[test]
fn outcome_of_execution_results() {
    let pe = |code| ExecutionResult::ProcessExit { exit_code: code, execution_cost: 1337 };
    assert_eq!(MutationOutcome::from_execution_result(pe(0)), MutationOutcome::Alive);
    assert_eq!(MutationOutcome::from_execution_result(pe(1)), MutationOutcome::Killed);
    assert_eq!(MutationOutcome::from_execution_result(ExecutionResult::Timeout), MutationOutcome::Timeout);
    assert_eq!(MutationOutcome::from_execution_result(ExecutionResult::Error), MutationOutcome::Error);
    assert_eq!(MutationOutcome::from_execution_result(ExecutionResult::Skipped), MutationOutcome::Skipped);
    assert_eq!(MutationOutcome::Killed.text(), "KILLED");
    assert_eq!(MutationOutcome::Skipped.text_lower(), "skipped");
}

#[test]
fn report_results_counts() {
    let results = [
        ExecutionResult::ProcessExit { exit_code: 0, execution_cost: 3 },
        ExecutionResult::ProcessExit { exit_code: 2, execution_cost: 3 },
        ExecutionResult::ProcessExit { exit_code: 0, execution_cost: 3 },
        ExecutionResult::Timeout,
        ExecutionResult::Error,
        ExecutionResult::Skipped,
    ];
    assert_eq!(report_results(&results), (2, 1, 1, 1));
}

#[test]
fn accumulated_outcomes_add_up() {
    let outcomes = [
        MutationOutcome::Alive,
        MutationOutcome::Killed,
        MutationOutcome::Killed,
        MutationOutcome::Timeout,
        MutationOutcome::Skipped,
    ];
    let acc = accumulate_outcomes(&outcomes);
    assert_eq!(
        acc,
        OutcomeCounts { total: 5, alive: 1, timeout: 1, killed: 2, error: 0, skipped: 1 }
    );
    assert_eq!(acc.alive + acc.timeout + acc.killed + acc.error + acc.skipped, acc.total);
}

fn counts(alive: i32, timeout: i32, killed: i32, error: i32) -> OutcomeCounts {
    OutcomeCounts { total: alive + timeout + killed + error, alive, timeout, killed, error, skipped: 0 }
}

#[test]
fn bulma_class_from_counts() {
    assert_eq!(BulmaClass::from_counts(counts(1, 0, 5, 0)), BulmaClass::Danger);
    assert_eq!(BulmaClass::from_counts(counts(0, 0, 5, 0)), BulmaClass::Success);
    assert_eq!(BulmaClass::from_counts(counts(0, 1, 5, 0)), BulmaClass::Warning);
    assert_eq!(BulmaClass::from_counts(counts(0, 0, 0, 0)), BulmaClass::Success);
    assert_eq!(BulmaClass::Danger.text(), "is-danger");
    assert_eq!(BulmaClass::Invalid.text(), "");
}

fn mutant(file: Option<&str>, outcome: ExecutionResult) -> ReportableMutant {
    let executed = ExecutedMutant {
        offset: 34,
        outcome,
        operator: BinaryOperatorAddToSub::new(&Instruction::I32Add).unwrap(),
    };
    let location = CodeLocation {
        file: file.map(String::from),
        function: Some("add".into()),
        line: Some(3),
        column: Some(14),
    };
    ReportableMutant::new(executed, location)
}

#[test]
fn json_mutants_rewrite_paths() {
    let config = ReportConfig::new(Some(("^.*/wasmut/".into(), "".into())));
    let reporter = JSONReporter::new(&config, "test.wasm", 1500).ok().unwrap();
    assert_eq!(reporter.file(), "test.wasm");
    assert_eq!(reporter.execution_time(), 1500);
    let mutants = vec![
        mutant(Some("/home/user/wasmut/testdata/simple_add/simple_add.c"), ExecutionResult::Timeout),
        mutant(None, ExecutionResult::ProcessExit { exit_code: 0, execution_cost: 1 }),
    ];
    let json = reporter.map_to_json_mutants(&mutants);
    assert_eq!(json.len(), 2);
    assert_eq!(json[0].operator, "binop_add_to_sub");
    assert_eq!(json[0].file.as_deref(), Some("testdata/simple_add/simple_add.c"));
    assert_eq!(json[0].function.as_deref(), Some("add"));
    assert_eq!(json[0].line, Some(3));
    assert_eq!(json[0].outcome, "timeout");
    assert_eq!(json[1].file, None);
    assert_eq!(json[1].outcome, "alive");
}

#[test]
fn cli_position_and_caret() {
    let location = CodeLocation {
        file: Some("/abs/simple_add.c".into()),
        function: Some("add".into()),
        line: Some(3),
        column: Some(4),
    };
    let (position, caret) = mutant_position("testdata/simple_add/simple_add.c", &location);
    assert_eq!(position, "testdata/simple_add/simple_add.c:3:4");
    assert_eq!(caret, "    ^");

    let no_column = CodeLocation { column: None, ..location.clone() };
    assert_eq!(mutant_position("f.c", &no_column), ("f.c:3".to_string(), String::new()));

    let no_file = CodeLocation { file: None, ..location };
    assert_eq!(mutant_position("f.c", &no_file), (String::new(), String::new()));
}

fn mutant_at(file: Option<&str>, line: Option<u64>, outcome: ExecutionResult) -> ReportableMutant {
    let executed = ExecutedMutant {
        offset: 34,
        outcome,
        operator: BinaryOperatorAddToSub::new(&Instruction::I32Add).unwrap(),
    };
    let location = CodeLocation { file: file.map(String::from), function: None, line, column: None };
    ReportableMutant::new(executed, location)
}

#[test]
fn mutants_grouped_by_file_and_line() {
    let alive = || ExecutionResult::ProcessExit { exit_code: 0, execution_cost: 1 };
    let mutants = vec![
        mutant_at(Some("b.c"), Some(7), alive()),
        mutant_at(Some("a.c"), Some(3), ExecutionResult::Timeout),
        mutant_at(None, Some(3), alive()),
        mutant_at(Some("b.c"), Some(2), ExecutionResult::Error),
        mutant_at(Some("a.c"), None, alive()),
        mutant_at(Some("b.c"), Some(7), ExecutionResult::ProcessExit { exit_code: 1, execution_cost: 1 }),
    ];
    let files = map_mutants_to_files(&mutants, None);
    assert_eq!(files.len(), 2);
    assert_eq!(files[0].file, "a.c");
    assert_eq!(files[0].lines.len(), 1);
    assert_eq!(files[0].lines[0].line, 3);
    assert_eq!(files[0].lines[0].mutants, vec![1]);
    assert_eq!(files[1].file, "b.c");
    assert_eq!(files[1].lines.len(), 2);
    assert_eq!(files[1].lines[0].line, 2);
    assert_eq!(files[1].lines[0].mutants, vec![3]);
    assert_eq!(files[1].lines[1].line, 7);
    assert_eq!(files[1].lines[1].mutants, vec![0, 5]);

    assert_eq!(
        accumulate_outcomes_for_file(&files[1], &mutants),
        OutcomeCounts { total: 3, alive: 1, timeout: 0, killed: 1, error: 1, skipped: 0 }
    );
}

#[test]
fn mutants_grouped_under_rewritten_paths() {
    let config = ReportConfig::new(Some(("^/src/(old|new)/".into(), "".into())));
    let rewriter = PathRewriter::new("^/src/(old|new)/", "").ok().unwrap();
    assert!(config.path_rewrite().is_some());
    let mutants = vec![
        mutant_at(Some("/src/old/x.c"), Some(1), ExecutionResult::Timeout),
        mutant_at(Some("/src/new/x.c"), Some(1), ExecutionResult::Error),
        mutant_at(Some("/src/new/w.c"), Some(9), ExecutionResult::Skipped),
    ];
    let files = map_mutants_to_files(&mutants, Some(&rewriter));
    assert_eq!(files.len(), 2);
    assert_eq!(files[0].file, "w.c");
    assert_eq!(files[1].file, "x.c");
    assert_eq!(files[1].lines[0].mutants, vec![0, 1]);
    assert!(map_mutants_to_files(&[], None).is_empty());
}
