//! Instructions that the simple replacement scheme mutates: a few `i32`
//! operators and integer constants.
use vstd::prelude::*;

use crate::instruction::Instruction;

verus! {

/// A mutable binary operator.
#[derive(Debug, Clone, Copy, PartialEq, Eq, Structural)]
pub enum BinaryOperator {
    I32Add,
    I32Sub,
    I32Mul,
    I32DivU,
    I32DivS,
}

/// A mutable constant.
#[derive(Debug, Clone, Copy, PartialEq, Eq, Structural)]
pub enum Constant {
    I32(i32),
    I64(i64),
}

/// An instruction that the simple scheme can mutate.
#[derive(Debug, Clone, Copy, PartialEq, Eq, Structural)]
pub enum MutableInstruction {
    BinaryOperatorInstr(BinaryOperator),
    ConstantInstr(Constant),
}

/// The instructions that replace a mutable instruction: every other binary
/// operator, in the order add, sub, mul, div_u, div_s; or the constants 0,
/// 1, -1, 42 and -42 of the constant's type.
pub open spec fn mutants_of(m: MutableInstruction) -> Seq<MutableInstruction> {
    match m {
        MutableInstruction::BinaryOperatorInstr(op) => {
            let all = seq![
                BinaryOperator::I32Add,
                BinaryOperator::I32Sub,
                BinaryOperator::I32Mul,
                BinaryOperator::I32DivU,
                BinaryOperator::I32DivS,
            ];
            all.filter(|o: BinaryOperator| o != op).map_values(
                |o: BinaryOperator| MutableInstruction::BinaryOperatorInstr(o),
            )
        },
        MutableInstruction::ConstantInstr(Constant::I32(_)) => seq![
            MutableInstruction::ConstantInstr(Constant::I32(0i32)),
            MutableInstruction::ConstantInstr(Constant::I32(1i32)),
            MutableInstruction::ConstantInstr(Constant::I32(-1i32)),
            MutableInstruction::ConstantInstr(Constant::I32(42i32)),
            MutableInstruction::ConstantInstr(Constant::I32(-42i32)),
        ],
        MutableInstruction::ConstantInstr(Constant::I64(_)) => seq![
            MutableInstruction::ConstantInstr(Constant::I64(0i64)),
            MutableInstruction::ConstantInstr(Constant::I64(1i64)),
            MutableInstruction::ConstantInstr(Constant::I64(-1i64)),
            MutableInstruction::ConstantInstr(Constant::I64(42i64)),
            MutableInstruction::ConstantInstr(Constant::I64(-42i64)),
        ],
    }
}

/// The instruction that a mutable instruction stands for.
pub open spec fn instruction_of(m: MutableInstruction) -> Instruction {
    match m {
        MutableInstruction::BinaryOperatorInstr(BinaryOperator::I32Add) => Instruction::I32Add,
        MutableInstruction::BinaryOperatorInstr(BinaryOperator::I32Sub) => Instruction::I32Sub,
        MutableInstruction::BinaryOperatorInstr(BinaryOperator::I32Mul) => Instruction::I32Mul,
        MutableInstruction::BinaryOperatorInstr(BinaryOperator::I32DivU) => Instruction::I32DivU,
        MutableInstruction::BinaryOperatorInstr(BinaryOperator::I32DivS) => Instruction::I32DivS,
        MutableInstruction::ConstantInstr(Constant::I32(i)) => Instruction::I32Const(i),
        MutableInstruction::ConstantInstr(Constant::I64(i)) => Instruction::I64Const(i),
    }
}

impl MutableInstruction {
    /// The mutable instruction that `instruction` is, if any.
    pub fn from_instruction(instruction: &Instruction) -> (r: Option<Self>)
        ensures
            match r {
                Some(m) => instruction_of(m) == *instruction,
                None => forall|m: MutableInstruction| instruction_of(m) != *instruction,
            },
    {
        match *instruction {
            Instruction::I32Add => Some(MutableInstruction::BinaryOperatorInstr(BinaryOperator::I32Add)),
            Instruction::I32Sub => Some(MutableInstruction::BinaryOperatorInstr(BinaryOperator::I32Sub)),
            Instruction::I32Mul => Some(MutableInstruction::BinaryOperatorInstr(BinaryOperator::I32Mul)),
            Instruction::I32DivU => Some(MutableInstruction::BinaryOperatorInstr(BinaryOperator::I32DivU)),
            Instruction::I32DivS => Some(MutableInstruction::BinaryOperatorInstr(BinaryOperator::I32DivS)),
            Instruction::I32Const(i) => Some(MutableInstruction::ConstantInstr(Constant::I32(i))),
            Instruction::I64Const(i) => Some(MutableInstruction::ConstantInstr(Constant::I64(i))),
            _ => None,
        }
    }

    /// The instructions that replace this one.
    pub fn generate_mutanted_instructions(&self) -> (r: Vec<MutableInstruction>)
        ensures
            r@ == mutants_of(*self),
    {
        let mut mutated_instructions: Vec<MutableInstruction> = Vec::new();
        match *self {
            MutableInstruction::BinaryOperatorInstr(op) => {
                let all: Vec<BinaryOperator> = vec![
                    BinaryOperator::I32Add,
                    BinaryOperator::I32Sub,
                    BinaryOperator::I32Mul,
                    BinaryOperator::I32DivU,
                    BinaryOperator::I32DivS,
                ];
                let ghost spec_all = seq![
                    BinaryOperator::I32Add,
                    BinaryOperator::I32Sub,
                    BinaryOperator::I32Mul,
                    BinaryOperator::I32DivU,
                    BinaryOperator::I32DivS,
                ];
                assert(all@ == spec_all);
                let mut i: usize = 0;
                while i < all.len()
                    invariant
                        all@ == spec_all,
                        i <= all@.len(),
                        mutated_instructions@ == all@.subrange(0, i as int).filter(|o: BinaryOperator| o != op).map_values(
                            |o: BinaryOperator| MutableInstruction::BinaryOperatorInstr(o),
                        ),
                    decreases all.len() - i,
                {
                    let o = all[i];
                    proof {
                        assert(all@.subrange(0, i + 1).drop_last() =~= all@.subrange(0, i as int));
                        assert(all@.subrange(0, i + 1).last() == o);
                        reveal(Seq::filter);
                    }
                    if o != op {
                        mutated_instructions.push(MutableInstruction::BinaryOperatorInstr(o));
                    }
                    assert(mutated_instructions@ =~= all@.subrange(0, i + 1).filter(|o: BinaryOperator| o != op).map_values(
                        |o: BinaryOperator| MutableInstruction::BinaryOperatorInstr(o),
                    ));
                    i = i + 1;
                }
                assert(all@.subrange(0, i as int) =~= all@);
            },
            MutableInstruction::ConstantInstr(Constant::I32(_)) => {
                mutated_instructions.push(MutableInstruction::ConstantInstr(Constant::I32(0)));
                mutated_instructions.push(MutableInstruction::ConstantInstr(Constant::I32(1)));
                mutated_instructions.push(MutableInstruction::ConstantInstr(Constant::I32(-1)));
                mutated_instructions.push(MutableInstruction::ConstantInstr(Constant::I32(42)));
                mutated_instructions.push(MutableInstruction::ConstantInstr(Constant::I32(-42)));
            },
            MutableInstruction::ConstantInstr(Constant::I64(_)) => {
                mutated_instructions.push(MutableInstruction::ConstantInstr(Constant::I64(0)));
                mutated_instructions.push(MutableInstruction::ConstantInstr(Constant::I64(1)));
                mutated_instructions.push(MutableInstruction::ConstantInstr(Constant::I64(-1)));
                mutated_instructions.push(MutableInstruction::ConstantInstr(Constant::I64(42)));
                mutated_instructions.push(MutableInstruction::ConstantInstr(Constant::I64(-42)));
            },
        }
        assert(mutated_instructions@ =~= mutants_of(*self));
        mutated_instructions
    }

    /// The instruction this mutable instruction stands for.
    pub fn instruction(&self) -> (r: Instruction)
        ensures
            r == instruction_of(*self),
    {
        match *self {
            MutableInstruction::BinaryOperatorInstr(BinaryOperator::I32Add) => Instruction::I32Add,
            MutableInstruction::BinaryOperatorInstr(BinaryOperator::I32Sub) => Instruction::I32Sub,
            MutableInstruction::BinaryOperatorInstr(BinaryOperator::I32Mul) => Instruction::I32Mul,
            MutableInstruction::BinaryOperatorInstr(BinaryOperator::I32DivU) => Instruction::I32DivU,
            MutableInstruction::BinaryOperatorInstr(BinaryOperator::I32DivS) => Instruction::I32DivS,
            MutableInstruction::ConstantInstr(Constant::I32(i)) => Instruction::I32Const(i),
            MutableInstruction::ConstantInstr(Constant::I64(i)) => Instruction::I64Const(i),
        }
    }
}

} // verus!
