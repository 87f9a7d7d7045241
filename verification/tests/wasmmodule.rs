use wasmut::instruction::{BlockType, Instruction, ValueType};
use wasmut::mutation::{Mutation, MutationLocation};
use wasmut::operator::ops::{BinaryOperatorAddToSub, BinaryOperatorMulToDivS, BinaryOperatorMulToDivU};
use wasmut::wasmmodule::mutate::{generate_mutant_sequence, ParameterSaver};
use wasmut::wasmmodule::{
    CallRemovalCandidate, ElementSegment, ExportEntry, External, FuncBody, FunctionType, GlobalEntry,
    ImportEntry, Internal, ModuleError, TableElementType, WasmModule,
};

use Instruction::{Call, Else, End, F32Const, F64Const, GetGlobal, I32Add, I32Const, I32DivS, I32DivU, I32Mul, I32Sub, I64Const, If, Other, SetGlobal};

fn sample_module() -> WasmModule {
    WasmModule {
        types: Some(vec![
            FunctionType { params: vec![ValueType::I32], results: vec![] },
            FunctionType { params: vec![], results: vec![] },
            FunctionType { params: vec![ValueType::I32, ValueType::I32], results: vec![ValueType::I32] },
        ]),
        imports: Some(vec![ImportEntry {
            module: "env".into(),
            field: "print".into(),
            external: External::Function(0),
        }]),
        functions: Some(vec![2]),
        tables: Some(vec![TableElementType::AnyFunc]),
        globals: None,
        exports: Some(vec![
            ExportEntry { field: "add".into(), internal: Internal::Function(1) },
            ExportEntry { field: "memory".into(), internal: Internal::Memory(0) },
        ]),
        elements: Some(vec![ElementSegment { index: 0, members: vec![1] }]),
        code: Some(vec![FuncBody {
            instructions: vec![Other(0), Other(1), I32Add, End],
            offsets: vec![10, 12, 14, 15],
        }]),
        code_section_offset: 5,
        path: "test.wasm".into(),
    }
}

#[test]
fn parameter_save_restore() {
    let mut entries = vec![GlobalEntry { value_type: ValueType::I32, mutable: true, init: vec![] }];

    let params = vec![
        ValueType::I32,
        ValueType::I32,
        ValueType::I64,
        ValueType::I64,
        ValueType::F32,
        ValueType::F32,
        ValueType::F64,
        ValueType::F64,
    ];

    let saver = ParameterSaver::new(10, &mut entries);

    assert_eq!(entries.len(), 41);

    let (save, restore) = saver.save_sequence(&params);

    assert_eq!(
        save,
        vec![
            Instruction::SetGlobal(32),
            Instruction::SetGlobal(31),
            Instruction::SetGlobal(22),
            Instruction::SetGlobal(21),
            Instruction::SetGlobal(12),
            Instruction::SetGlobal(11),
            Instruction::SetGlobal(2),
            Instruction::SetGlobal(1)
        ]
    );

    assert_eq!(
        restore,
        vec![
            Instruction::GetGlobal(1),
            Instruction::GetGlobal(2),
            Instruction::GetGlobal(11),
            Instruction::GetGlobal(12),
            Instruction::GetGlobal(21),
            Instruction::GetGlobal(22),
            Instruction::GetGlobal(31),
            Instruction::GetGlobal(32),
        ]
    );
}

#[test]
fn saved_globals_start_at_zero() {
    let mut entries = vec![];
    let _saver = ParameterSaver::new(1, &mut entries);
    assert_eq!(entries.len(), 4);
    assert_eq!(entries[0].value_type, ValueType::I32);
    assert_eq!(entries[0].init, vec![I32Const(0), End]);
    assert_eq!(entries[1].value_type, ValueType::I64);
    assert_eq!(entries[1].init, vec![I64Const(0), End]);
    assert_eq!(entries[2].value_type, ValueType::F32);
    assert_eq!(entries[2].init, vec![F32Const(0), End]);
    assert_eq!(entries[3].value_type, ValueType::F64);
    assert_eq!(entries[3].init, vec![F64Const(0), End]);
    assert!(entries.iter().all(|g| g.mutable));
}

#[test]
fn generate_base_case() {
    let result = generate_mutant_sequence(
        1337,
        &[Mutation {
            id: 1234,
            operator: BinaryOperatorAddToSub::new(&Instruction::I32Add).unwrap(),
        }],
        &[Instruction::GetGlobal(10), Instruction::GetGlobal(11)],
    );

    assert_eq!(
        result,
        vec![
            Instruction::I64Const(1234),
            Instruction::Call(1337),
            Instruction::If(BlockType::Value(ValueType::I32)),
            Instruction::GetGlobal(10),
            Instruction::GetGlobal(11),
            Instruction::I32Sub,
            Instruction::Else,
            Instruction::GetGlobal(10),
            Instruction::GetGlobal(11),
            Instruction::I32Add,
            Instruction::End
        ]
    );
}

#[test]
fn generate_recursive_case() {
    let result = generate_mutant_sequence(
        1337,
        &[
            Mutation {
                id: 1234,
                operator: BinaryOperatorMulToDivS::new(&Instruction::I32Mul).unwrap(),
            },
            Mutation {
                id: 1235,
                operator: BinaryOperatorMulToDivU::new(&Instruction::I32Mul).unwrap(),
            },
        ],
        &[Instruction::GetGlobal(10), Instruction::GetGlobal(11)],
    );

    assert_eq!(
        result,
        vec![
            Instruction::I64Const(1234),
            Instruction::Call(1337),
            Instruction::If(BlockType::Value(ValueType::I32)),
            Instruction::GetGlobal(10),
            Instruction::GetGlobal(11),
            Instruction::I32DivS,
            Instruction::Else,
            Instruction::I64Const(1235),
            Instruction::Call(1337),
            Instruction::If(BlockType::Value(ValueType::I32)),
            Instruction::GetGlobal(10),
            Instruction::GetGlobal(11),
            Instruction::I32DivU,
            Instruction::Else,
            Instruction::GetGlobal(10),
            Instruction::GetGlobal(11),
            Instruction::I32Mul,
            Instruction::End,
            Instruction::End
        ]
    );
}

#[test]
fn scalar_and_void_candidates() {
    let module = sample_module();
    let result = module.call_removal_candidates().unwrap();
    assert_eq!(
        result,
        vec![
            CallRemovalCandidate::FuncReturningVoid { index: 0, params: vec![ValueType::I32] },
            CallRemovalCandidate::FuncReturningScalar {
                index: 1,
                params: vec![ValueType::I32, ValueType::I32],
                return_type: ValueType::I32,
            },
        ]
    );
}

#[test]
fn candidates_need_a_type_section() {
    let mut module = sample_module();
    module.types = None;
    assert_eq!(module.call_removal_candidates(), Err(ModuleError::NoTypeSection));
}

#[test]
fn find_or_insert_reuses_and_inserts() {
    let mut module = sample_module();
    assert_eq!(module.find_or_insert_type_signature(&vec![ValueType::I32], &vec![]), Ok(0));
    assert_eq!(module.types.as_ref().unwrap().len(), 3);
    assert_eq!(module.find_or_insert_type_signature(&vec![ValueType::I64], &vec![]), Ok(3));
    assert_eq!(module.types.as_ref().unwrap().len(), 4);
    assert_eq!(module.find_or_insert_type_signature(&vec![ValueType::I64], &vec![]), Ok(3));
    assert_eq!(module.types.as_ref().unwrap().len(), 4);
}

#[test]
fn max_params_of_one_type() {
    let module = sample_module();
    assert_eq!(module.max_number_of_params_of_same_type(), 2);
}

#[test]
fn trace_points_are_inserted() {
    let mut module = sample_module();
    assert_eq!(module.insert_trace_points(), Ok(()));

    let types = module.types.as_ref().unwrap();
    assert_eq!(types.len(), 4);
    assert_eq!(types[3].params, vec![ValueType::I64]);
    assert!(types[3].results.is_empty());

    let imports = module.imports.as_ref().unwrap();
    assert_eq!(imports[0].module, "wasmut_api");
    assert_eq!(imports[0].field, "__wasmut_trace");
    assert_eq!(imports[0].external, External::Function(3));
    assert_eq!(imports[1].field, "print");

    let exports = module.exports.as_ref().unwrap();
    assert_eq!(exports[0].internal, Internal::Function(2));
    assert_eq!(exports[1].internal, Internal::Memory(0));
    assert_eq!(module.elements.as_ref().unwrap()[0].members, vec![2]);

    assert_eq!(
        module.code.as_ref().unwrap()[0].instructions,
        vec![
            I64Const(5),
            Call(0),
            Other(0),
            I64Const(7),
            Call(0),
            Other(1),
            I64Const(9),
            Call(0),
            I32Add,
            I64Const(10),
            Call(0),
            End
        ]
    );
}

#[test]
fn trace_points_need_an_import_section() {
    let mut module = sample_module();
    module.imports = None;
    assert_eq!(module.insert_trace_points(), Err(ModuleError::NoImportSection));
}

fn add_location() -> MutationLocation {
    MutationLocation {
        function_number: 0,
        statement_number: 2,
        offset: 9,
        mutations: vec![Mutation { id: 1, operator: BinaryOperatorAddToSub::new(&I32Add).unwrap() }],
    }
}

#[test]
fn clone_and_mutate_replaces_one_instruction() {
    let module = sample_module();
    let mutant = module.clone_and_mutate(&add_location(), 0);
    assert_eq!(mutant.code.as_ref().unwrap()[0].instructions, vec![Other(0), Other(1), I32Sub, End]);
    assert_eq!(module.code.as_ref().unwrap()[0].instructions, vec![Other(0), Other(1), I32Add, End]);
    assert_eq!(mutant.path(), "test.wasm");
}

#[test]
fn meta_mutant_selects_at_run_time() {
    let module = sample_module();
    let mutant = module.clone_and_mutate_all(&[add_location()]).unwrap();

    let imports = mutant.imports.as_ref().unwrap();
    assert_eq!(imports[0].field, "__wasmut_check_mutant_id");
    assert_eq!(imports[0].external, External::Function(3));
    let types = mutant.types.as_ref().unwrap();
    assert_eq!(types[3].params, vec![ValueType::I64]);
    assert_eq!(types[3].results, vec![ValueType::I32]);
    assert_eq!(mutant.globals.as_ref().unwrap().len(), 8);

    assert_eq!(
        mutant.code.as_ref().unwrap()[0].instructions,
        vec![
            Other(0),
            Other(1),
            SetGlobal(1),
            SetGlobal(0),
            I64Const(1),
            Call(0),
            If(BlockType::Value(ValueType::I32)),
            GetGlobal(0),
            GetGlobal(1),
            I32Sub,
            Else,
            GetGlobal(0),
            GetGlobal(1),
            I32Add,
            End,
            End
        ]
    );
}

#[test]
fn meta_mutant_errors() {
    let mut module = sample_module();
    let mut bad = add_location();
    bad.function_number = 5;
    assert!(matches!(
        module.clone_and_mutate_all(&[bad]),
        Err(ModuleError::UnexpectedFunctionIndex)
    ));
    module.code = None;
    assert!(matches!(
        module.clone_and_mutate_all(&[]),
        Err(ModuleError::NoCodeSection)
    ));
}

#[test]
fn duplicate_keeps_everything() {
    let module = sample_module();
    let copy = module.duplicate();
    assert_eq!(copy.path(), module.path());
    assert_eq!(copy.code.as_ref().unwrap()[0].offsets, vec![10, 12, 14, 15]);
    assert_eq!(copy.exports.as_ref().unwrap()[0].field, "add");
}

#[test]
fn instruction_offsets_are_relative_to_the_code_section() {
    let mut module = sample_module();
    assert_eq!(module.instruction_offsets().ok().unwrap(), vec![vec![5, 7, 9, 10]]);

    // Only instructions that have an offset are walked.
    module.code = Some(vec![
        FuncBody { instructions: vec![I32Add, End], offsets: vec![5] },
        FuncBody { instructions: vec![End], offsets: vec![6, 7] },
    ]);
    assert_eq!(module.instruction_offsets().ok().unwrap(), vec![vec![0], vec![1]]);

    module.code = None;
    assert_eq!(module.instruction_offsets().err(), Some(ModuleError::NoCodeSection));
}

#[test]
fn candidates_use_the_function_index_space() {
    let mut module = sample_module();
    module.imports = Some(vec![
        ImportEntry { module: "env".into(), field: "memory".into(), external: External::Other(0) },
        ImportEntry { module: "env".into(), field: "print".into(), external: External::Function(0) },
        ImportEntry { module: "env".into(), field: "table".into(), external: External::Other(2) },
    ]);
    let result = module.call_removal_candidates().unwrap();
    assert_eq!(
        result,
        vec![
            CallRemovalCandidate::FuncReturningVoid { index: 0, params: vec![ValueType::I32] },
            CallRemovalCandidate::FuncReturningScalar {
                index: 1,
                params: vec![ValueType::I32, ValueType::I32],
                return_type: ValueType::I32,
            },
        ]
    );
}
