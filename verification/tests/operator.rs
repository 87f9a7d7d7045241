use wasmut::instruction::{BlockType, Instruction, ValueType};
use wasmut::operator::mutable::{BinaryOperator, Constant, MutableInstruction};
use wasmut::operator::{all_operator_kinds, InstructionContext, InstructionReplacement, OperatorRegistry};
use wasmut::wasmmodule::CallRemovalCandidate;

use Instruction::{Call, Drop, F32Const, F64Const, I32Add, I32Const, I32DivS, I32DivU, I32Mul, I32Sub, I64Const, Nop};

fn patterns(ps: &[&str]) -> Vec<String> {
    ps.iter().map(|p| p.to_string()).collect()
}

#[test]
fn call_remove_void_call_enabled() {
    let registry = OperatorRegistry::new(&patterns(&["call_remove_void_call"])).ok().unwrap();
    let context = InstructionContext::new(vec![CallRemovalCandidate::FuncReturningVoid {
        index: 0,
        params: [ValueType::I32, ValueType::I32].into(),
    }]);

    let ops = registry.mutants_for_instruction(&Call(0), &context);
    assert_eq!(ops.len(), 1);
    assert_eq!(ops[0].result(), BlockType::NoResult);

    let mut instructions = vec![I32Const(10), I32Const(12), Call(0), I32Const(13), Call(1)];

    ops[0].apply(&mut instructions, 2);

    let expected = vec![I32Const(10), I32Const(12), Drop, Drop, Nop, I32Const(13), Call(1)];

    assert_eq!(instructions, expected);
}

#[test]
fn call_remove_void_call_disabled() {
    let registry = OperatorRegistry::new(&patterns(&[])).ok().unwrap();
    let context = InstructionContext::new(vec![CallRemovalCandidate::FuncReturningVoid {
        index: 0,
        params: [ValueType::I32, ValueType::I32].into(),
    }]);
    let ops = registry.mutants_for_instruction(&Call(0), &context);
    assert_eq!(ops.len(), 0);
}

#[test]
fn call_remove_scalar_call_i64_enabled() {
    let registry = OperatorRegistry::new(&patterns(&["call_remove_scalar_call"])).ok().unwrap();
    let context = InstructionContext::new(vec![CallRemovalCandidate::FuncReturningScalar {
        index: 0,
        params: [ValueType::I32, ValueType::I32].into(),
        return_type: ValueType::I64,
    }]);
    let ops = registry.mutants_for_instruction(&Call(0), &context);
    assert_eq!(ops.len(), 1);
    assert_eq!(ops[0].result(), BlockType::Value(ValueType::I64));
    let mut instructions = vec![I32Const(10), I32Const(12), Call(0), I32Const(13), Call(1)];
    ops[0].apply(&mut instructions, 2);
    assert_eq!(
        instructions,
        vec![I32Const(10), I32Const(12), Drop, Drop, I64Const(42), I32Const(13), Call(1)]
    );
}

#[test]
fn call_remove_scalar_call_f32_replacement() {
    let registry = OperatorRegistry::new(&patterns(&["call_remove_scalar_call"])).ok().unwrap();
    let context = InstructionContext::new(vec![CallRemovalCandidate::FuncReturningScalar {
        index: 3,
        params: vec![],
        return_type: ValueType::F32,
    }]);
    let ops = registry.mutants_for_instruction(&Call(3), &context);
    assert_eq!(ops.len(), 1);
    assert_eq!(ops[0].replacement(), vec![F32Const(42f32.to_bits())]);
}

#[test]
fn registry_correct_number_of_ops() {
    assert_eq!(
        OperatorRegistry::new(&patterns(&["binop_mul_to_div"])).ok().unwrap().number_of_operators(),
        2
    );
    assert_eq!(
        OperatorRegistry::new(&patterns(&["binop_shl_to_shr"])).ok().unwrap().number_of_operators(),
        2
    );
    assert_eq!(
        OperatorRegistry::new(&patterns(&["binop_"])).ok().unwrap().number_of_operators(),
        16
    );
    assert_eq!(
        OperatorRegistry::new(&patterns(&["const_replace_"])).ok().unwrap().number_of_operators(),
        2
    );
    assert_eq!(
        OperatorRegistry::new(&patterns(&[""])).ok().unwrap().number_of_operators(),
        31
    );
}

#[test]
fn enabled_and_disabled_names_partition_all_operators() {
    let registry = OperatorRegistry::new(&patterns(&["call_"])).ok().unwrap();
    assert_eq!(
        registry.enabled_operators(),
        &vec!["call_remove_void_call".to_string(), "call_remove_scalar_call".to_string()]
    );
    assert_eq!(registry.disabled_operators().len(), 29);
    assert!(registry.disabled_operators().iter().all(|n| !n.starts_with("call_")));
}

#[test]
fn const_replace_zero_and_nonzero() {
    let registry = OperatorRegistry::new(&patterns(&["const_replace_"])).ok().unwrap();
    let context = InstructionContext::empty();
    let zero = registry.mutants_for_instruction(&I32Const(0), &context);
    assert_eq!(zero.len(), 1);
    assert_eq!(zero[0].replacement(), vec![I32Const(42)]);
    let nonzero = registry.mutants_for_instruction(&I64Const(-7), &context);
    assert_eq!(nonzero.len(), 1);
    assert_eq!(nonzero[0].replacement(), vec![I64Const(0)]);
    let negative_zero = registry.mutants_for_instruction(&F64Const((-0f64).to_bits()), &context);
    assert_eq!(negative_zero[0].replacement(), vec![F64Const(42f64.to_bits())]);
}

#[test]
fn description_names_both_instructions() {
    let registry = OperatorRegistry::new(&patterns(&["binop_add_to_sub"])).ok().unwrap();
    let ops = registry.mutants_for_instruction(&I32Add, &InstructionContext::empty());
    assert_eq!(ops[0].description(), "binop_add_to_sub: Replaced I32Add with I32Sub");
}

#[test]
fn mutable_instruction_alternatives() {
    let add = MutableInstruction::from_instruction(&I32Add).unwrap();
    assert_eq!(
        add.generate_mutanted_instructions(),
        vec![
            MutableInstruction::BinaryOperatorInstr(BinaryOperator::I32Sub),
            MutableInstruction::BinaryOperatorInstr(BinaryOperator::I32Mul),
            MutableInstruction::BinaryOperatorInstr(BinaryOperator::I32DivU),
            MutableInstruction::BinaryOperatorInstr(BinaryOperator::I32DivS),
        ]
    );
    let c = MutableInstruction::from_instruction(&I64Const(5)).unwrap();
    let alts = c.generate_mutanted_instructions();
    assert_eq!(alts.len(), 5);
    assert_eq!(alts[4], MutableInstruction::ConstantInstr(Constant::I64(-42)));
    assert_eq!(alts[4].instruction(), I64Const(-42));
    assert!(MutableInstruction::from_instruction(&Nop).is_none());
}

#[test]
fn every_mutant_changes_the_code() {
    let context = InstructionContext::new(vec![
        CallRemovalCandidate::FuncReturningVoid { index: 0, params: vec![] },
        CallRemovalCandidate::FuncReturningScalar { index: 1, params: vec![ValueType::I32], return_type: ValueType::F64 },
    ]);
    let instructions = [
        I32Add, I32Sub, I32Mul, I32DivS, I32DivU, Instruction::I64ShrU, Instruction::F32Neg, Instruction::I32LeS,
        Instruction::F64Gt, Instruction::I64RemU, Instruction::I32Rotl, Instruction::I64Xor,
        I32Const(0), I32Const(7), I64Const(0), F32Const(0x8000_0000), F64Const(1), Call(0), Call(1), Nop,
    ];
    let mut applied = 0;
    for kind in all_operator_kinds() {
        for instr in &instructions {
            if let Some(r) = InstructionReplacement::new(kind, instr, &context) {
                applied += 1;
                assert_ne!(r.new, *instr);
                assert_ne!(r.replacement(), vec![*instr]);
            }
        }
    }
    assert!(applied >= 20);
}
