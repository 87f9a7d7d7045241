use wasmut::addressresolver::CodeLocation;
use wasmut::config::{Config, FilterConfig, OperatorConfig};
use wasmut::instruction::{Instruction, ValueType};
use wasmut::mutation::{count_mutants, DiscoveryError, Mutation, MutationEngine, MutationLocation};
use wasmut::operator::ops::BinaryOperatorMulToDivS;
use wasmut::operator::OperatorKind;
use wasmut::wasmmodule::{FuncBody, FunctionType, ModuleError, WasmModule};

#[test]
fn test_count_mutants() {
    assert_eq!(count_mutants(&[]), 0);

    let m = Mutation {
        id: 1234,
        operator: BinaryOperatorMulToDivS::new(&Instruction::I32Mul).unwrap(),
    };

    assert_eq!(
        count_mutants(&[MutationLocation {
            function_number: 1,
            statement_number: 1,
            offset: 1337,
            mutations: vec![m.clone(); 2],
        }]),
        2
    );

    assert_eq!(
        count_mutants(&[
            MutationLocation {
                function_number: 1,
                statement_number: 1,
                offset: 1337,
                mutations: vec![m.clone(); 2],
            },
            MutationLocation {
                function_number: 1,
                statement_number: 1,
                offset: 1337,
                mutations: vec![m; 2],
            },
        ]),
        4
    );
}

fn module() -> WasmModule {
    WasmModule {
        types: Some(vec![FunctionType {
            params: vec![ValueType::I32, ValueType::I32],
            results: vec![ValueType::I32],
        }]),
        imports: None,
        functions: Some(vec![0, 0]),
        tables: None,
        globals: None,
        exports: None,
        elements: None,
        code: Some(vec![
            FuncBody {
                instructions: vec![Instruction::Other(0), Instruction::I32Add, Instruction::End],
                offsets: vec![20, 21, 22],
            },
            FuncBody {
                instructions: vec![Instruction::I32LtS, Instruction::Call(0), Instruction::End],
                offsets: vec![30, 31, 33],
            },
        ]),
        code_section_offset: 10,
        path: "test.wasm".into(),
    }
}

fn place(file: &str, function: &str) -> CodeLocation {
    CodeLocation {
        file: Some(file.into()),
        function: Some(function.into()),
        line: Some(1),
        column: Some(1),
    }
}

fn places() -> Vec<Vec<CodeLocation>> {
    vec![
        vec![place("src/add.c", "add"); 3],
        vec![place("test/main.c", "main"); 3],
    ]
}

#[test]
fn discovery_numbers_mutations_in_order() {
    let config = Config::default();
    let engine = MutationEngine::new(&config).ok().unwrap();
    let locations = engine.discover_mutation_positions(&module(), &places()).ok().unwrap();

    assert_eq!(locations.len(), 3);
    assert_eq!(
        (locations[0].function_number, locations[0].statement_number, locations[0].offset),
        (0, 1, 11)
    );
    assert_eq!(locations[0].mutations.len(), 1);
    assert_eq!(locations[0].mutations[0].operator.kind, OperatorKind::BinaryOperatorAddToSub);
    assert_eq!(locations[0].mutations[0].id, 1);

    assert_eq!((locations[1].function_number, locations[1].statement_number), (1, 0));
    assert_eq!(locations[1].offset, 20);
    assert_eq!(locations[1].mutations.len(), 2);
    assert_eq!(locations[1].mutations[0].id, 2);
    assert_eq!(locations[1].mutations[1].id, 3);

    assert_eq!((locations[2].function_number, locations[2].statement_number), (1, 1));
    assert_eq!(locations[2].mutations.len(), 1);
    assert_eq!(
        locations[2].mutations[0].operator.kind,
        OperatorKind::CallRemoveScalarCall
    );
    assert_eq!(locations[2].mutations[0].id, 4);
    assert_eq!(count_mutants(&locations), 4);
}

#[test]
fn discovery_respects_the_policy() {
    let filter = FilterConfig::new(Some(vec!["^src/".into()]), None);
    let config = Config::from_sections(Some(filter), None, None);
    let engine = MutationEngine::new(&config).ok().unwrap();
    let locations = engine.discover_mutation_positions(&module(), &places()).ok().unwrap();
    assert_eq!(locations.len(), 1);
    assert_eq!(locations[0].function_number, 0);
}

#[test]
fn discovery_respects_enabled_operators() {
    let ops = OperatorConfig::new(Some(vec!["relop_".into()]));
    let config = Config::from_sections(None, None, Some(ops));
    let engine = MutationEngine::new(&config).ok().unwrap();
    let locations = engine.discover_mutation_positions(&module(), &places()).ok().unwrap();
    assert_eq!(locations.len(), 1);
    assert_eq!(locations[0].mutations.len(), 2);
    assert_eq!(locations[0].mutations[0].operator.kind, OperatorKind::RelationalOperatorLtToGe);
    assert_eq!(locations[0].mutations[1].operator.kind, OperatorKind::RelationalOperatorLtToLe);
}

#[test]
fn discovery_errors() {
    let engine = MutationEngine::new(&Config::default()).ok().unwrap();
    let mut m = module();
    m.code = None;
    assert!(matches!(
        engine.discover_mutation_positions(&m, &places()),
        Err(DiscoveryError::Module(ModuleError::NoCodeSection))
    ));
    m.types = None;
    assert!(matches!(
        engine.discover_mutation_positions(&m, &places()),
        Err(DiscoveryError::Module(ModuleError::NoTypeSection))
    ));
    let ops = OperatorConfig::new(Some(vec!["(".into()]));
    let engine = MutationEngine::new(&Config::from_sections(None, None, Some(ops))).ok().unwrap();
    assert!(matches!(
        engine.discover_mutation_positions(&module(), &places()),
        Err(DiscoveryError::Registry(_))
    ));
}
