//! Mutation operators: which instructions each one replaces, with what,
//! and the registry that enables operators by name.
use vstd::prelude::*;

pub mod mutable;

use crate::instruction::{
    arith_instr, arith_instr_exec, arith_of, arith_of_exec, block_results, cmp_instr, cmp_instr_exec,
    cmp_of, cmp_of_exec, f32_bits_zero, instruction_text, f64_bits_zero, forty_two, forty_two_exec, is_int, neg_of,
    ArithOp, BlockType, CmpOp, Instruction, ValueType, F32_FORTY_TWO, F64_FORTY_TWO,
};
use crate::patterns::{
    all_empty, any_pattern_matches, regex_set_compiles, regex_set_is_match, regex_set_new, strings_view,
};
use crate::wasmmodule::{
    candidate_index, candidate_params, candidate_results, candidate_view, candidates_distinct, copy_value_types,
    CallRemovalCandidate,
};

pub mod ops;

verus! {

/// Every mutation operator, in the order in which the registry offers them.
#[derive(Clone, Copy, Debug, PartialEq, Eq, Structural)]
pub enum OperatorKind {
    BinaryOperatorSubToAdd,
    BinaryOperatorAddToSub,
    BinaryOperatorMulToDivS,
    BinaryOperatorMulToDivU,
    BinaryOperatorDivXToMul,
    BinaryOperatorShlToShrS,
    BinaryOperatorShlToShrU,
    BinaryOperatorShrXToShl,
    BinaryOperatorRemToDiv,
    BinaryOperatorDivToRem,
    BinaryOperatorAndToOr,
    BinaryOperatorOrToAnd,
    BinaryOperatorXorToOr,
    BinaryOperatorOrToXor,
    BinaryOperatorRotlToRotr,
    BinaryOperatorRotrToRotl,
    UnaryOperatorNegToNop,
    RelationalOperatorEqToNe,
    RelationalOperatorNeToEq,
    RelationalOperatorLeToGt,
    RelationalOperatorLeToLt,
    RelationalOperatorLtToGe,
    RelationalOperatorLtToLe,
    RelationalOperatorGeToGt,
    RelationalOperatorGeToLt,
    RelationalOperatorGtToGe,
    RelationalOperatorGtToLe,
    ConstReplaceZero,
    ConstReplaceNonZero,
    CallRemoveVoidCall,
    CallRemoveScalarCall,
}

/// All operators, in registration order.
pub open spec fn registration_order() -> Seq<OperatorKind> {
    seq![
        OperatorKind::BinaryOperatorSubToAdd,
        OperatorKind::BinaryOperatorAddToSub,
        OperatorKind::BinaryOperatorMulToDivS,
        OperatorKind::BinaryOperatorMulToDivU,
        OperatorKind::BinaryOperatorDivXToMul,
        OperatorKind::BinaryOperatorShlToShrS,
        OperatorKind::BinaryOperatorShlToShrU,
        OperatorKind::BinaryOperatorShrXToShl,
        OperatorKind::BinaryOperatorRemToDiv,
        OperatorKind::BinaryOperatorDivToRem,
        OperatorKind::BinaryOperatorAndToOr,
        OperatorKind::BinaryOperatorOrToAnd,
        OperatorKind::BinaryOperatorXorToOr,
        OperatorKind::BinaryOperatorOrToXor,
        OperatorKind::BinaryOperatorRotlToRotr,
        OperatorKind::BinaryOperatorRotrToRotl,
        OperatorKind::UnaryOperatorNegToNop,
        OperatorKind::RelationalOperatorEqToNe,
        OperatorKind::RelationalOperatorNeToEq,
        OperatorKind::RelationalOperatorLeToGt,
        OperatorKind::RelationalOperatorLeToLt,
        OperatorKind::RelationalOperatorLtToGe,
        OperatorKind::RelationalOperatorLtToLe,
        OperatorKind::RelationalOperatorGeToGt,
        OperatorKind::RelationalOperatorGeToLt,
        OperatorKind::RelationalOperatorGtToGe,
        OperatorKind::RelationalOperatorGtToLe,
        OperatorKind::ConstReplaceZero,
        OperatorKind::ConstReplaceNonZero,
        OperatorKind::CallRemoveVoidCall,
        OperatorKind::CallRemoveScalarCall,
    ]
}

/// All operators, in registration order.
pub fn all_operator_kinds() -> (r: Vec<OperatorKind>)
    ensures
        r@ == registration_order(),
{
    let r = vec![
        OperatorKind::BinaryOperatorSubToAdd,
        OperatorKind::BinaryOperatorAddToSub,
        OperatorKind::BinaryOperatorMulToDivS,
        OperatorKind::BinaryOperatorMulToDivU,
        OperatorKind::BinaryOperatorDivXToMul,
        OperatorKind::BinaryOperatorShlToShrS,
        OperatorKind::BinaryOperatorShlToShrU,
        OperatorKind::BinaryOperatorShrXToShl,
        OperatorKind::BinaryOperatorRemToDiv,
        OperatorKind::BinaryOperatorDivToRem,
        OperatorKind::BinaryOperatorAndToOr,
        OperatorKind::BinaryOperatorOrToAnd,
        OperatorKind::BinaryOperatorXorToOr,
        OperatorKind::BinaryOperatorOrToXor,
        OperatorKind::BinaryOperatorRotlToRotr,
        OperatorKind::BinaryOperatorRotrToRotl,
        OperatorKind::UnaryOperatorNegToNop,
        OperatorKind::RelationalOperatorEqToNe,
        OperatorKind::RelationalOperatorNeToEq,
        OperatorKind::RelationalOperatorLeToGt,
        OperatorKind::RelationalOperatorLeToLt,
        OperatorKind::RelationalOperatorLtToGe,
        OperatorKind::RelationalOperatorLtToLe,
        OperatorKind::RelationalOperatorGeToGt,
        OperatorKind::RelationalOperatorGeToLt,
        OperatorKind::RelationalOperatorGtToGe,
        OperatorKind::RelationalOperatorGtToLe,
        OperatorKind::ConstReplaceZero,
        OperatorKind::ConstReplaceNonZero,
        OperatorKind::CallRemoveVoidCall,
        OperatorKind::CallRemoveScalarCall,
    ];
    assert(r@ =~= registration_order());
    r
}

impl OperatorKind {
    /// The name under which the operator is enabled or disabled.
    pub open spec fn spec_name(self) -> Seq<char> {
        match self {
            OperatorKind::BinaryOperatorSubToAdd => "binop_sub_to_add"@,
            OperatorKind::BinaryOperatorAddToSub => "binop_add_to_sub"@,
            OperatorKind::BinaryOperatorMulToDivS => "binop_mul_to_div"@,
            OperatorKind::BinaryOperatorMulToDivU => "binop_mul_to_div"@,
            OperatorKind::BinaryOperatorDivXToMul => "binop_div_to_mul"@,
            OperatorKind::BinaryOperatorShlToShrS => "binop_shl_to_shr"@,
            OperatorKind::BinaryOperatorShlToShrU => "binop_shl_to_shr"@,
            OperatorKind::BinaryOperatorShrXToShl => "binop_shr_to_shl"@,
            OperatorKind::BinaryOperatorRemToDiv => "binop_rem_to_div"@,
            OperatorKind::BinaryOperatorDivToRem => "binop_div_to_rem"@,
            OperatorKind::BinaryOperatorAndToOr => "binop_and_to_or"@,
            OperatorKind::BinaryOperatorOrToAnd => "binop_or_to_and"@,
            OperatorKind::BinaryOperatorXorToOr => "binop_xor_to_or"@,
            OperatorKind::BinaryOperatorOrToXor => "binop_or_to_xor"@,
            OperatorKind::BinaryOperatorRotlToRotr => "binop_rotl_to_rotr"@,
            OperatorKind::BinaryOperatorRotrToRotl => "binop_rotr_to_rotl"@,
            OperatorKind::UnaryOperatorNegToNop => "unop_neg_to_nop"@,
            OperatorKind::RelationalOperatorEqToNe => "relop_eq_to_ne"@,
            OperatorKind::RelationalOperatorNeToEq => "relop_ne_to_eq"@,
            OperatorKind::RelationalOperatorLeToGt => "relop_le_to_gt"@,
            OperatorKind::RelationalOperatorLeToLt => "relop_le_to_lt"@,
            OperatorKind::RelationalOperatorLtToGe => "relop_lt_to_ge"@,
            OperatorKind::RelationalOperatorLtToLe => "relop_lt_to_le"@,
            OperatorKind::RelationalOperatorGeToGt => "relop_ge_to_gt"@,
            OperatorKind::RelationalOperatorGeToLt => "relop_ge_to_lt"@,
            OperatorKind::RelationalOperatorGtToGe => "relop_gt_to_ge"@,
            OperatorKind::RelationalOperatorGtToLe => "relop_gt_to_le"@,
            OperatorKind::ConstReplaceZero => "const_replace_zero"@,
            OperatorKind::ConstReplaceNonZero => "const_replace_nonzero"@,
            OperatorKind::CallRemoveVoidCall => "call_remove_void_call"@,
            OperatorKind::CallRemoveScalarCall => "call_remove_scalar_call"@,
        }
    }

    /// The name under which the operator is enabled or disabled.
    pub fn name(&self) -> (s: &'static str)
        ensures
            s@ == self.spec_name(),
    {
        match self {
            OperatorKind::BinaryOperatorSubToAdd => "binop_sub_to_add",
            OperatorKind::BinaryOperatorAddToSub => "binop_add_to_sub",
            OperatorKind::BinaryOperatorMulToDivS => "binop_mul_to_div",
            OperatorKind::BinaryOperatorMulToDivU => "binop_mul_to_div",
            OperatorKind::BinaryOperatorDivXToMul => "binop_div_to_mul",
            OperatorKind::BinaryOperatorShlToShrS => "binop_shl_to_shr",
            OperatorKind::BinaryOperatorShlToShrU => "binop_shl_to_shr",
            OperatorKind::BinaryOperatorShrXToShl => "binop_shr_to_shl",
            OperatorKind::BinaryOperatorRemToDiv => "binop_rem_to_div",
            OperatorKind::BinaryOperatorDivToRem => "binop_div_to_rem",
            OperatorKind::BinaryOperatorAndToOr => "binop_and_to_or",
            OperatorKind::BinaryOperatorOrToAnd => "binop_or_to_and",
            OperatorKind::BinaryOperatorXorToOr => "binop_xor_to_or",
            OperatorKind::BinaryOperatorOrToXor => "binop_or_to_xor",
            OperatorKind::BinaryOperatorRotlToRotr => "binop_rotl_to_rotr",
            OperatorKind::BinaryOperatorRotrToRotl => "binop_rotr_to_rotl",
            OperatorKind::UnaryOperatorNegToNop => "unop_neg_to_nop",
            OperatorKind::RelationalOperatorEqToNe => "relop_eq_to_ne",
            OperatorKind::RelationalOperatorNeToEq => "relop_ne_to_eq",
            OperatorKind::RelationalOperatorLeToGt => "relop_le_to_gt",
            OperatorKind::RelationalOperatorLeToLt => "relop_le_to_lt",
            OperatorKind::RelationalOperatorLtToGe => "relop_lt_to_ge",
            OperatorKind::RelationalOperatorLtToLe => "relop_lt_to_le",
            OperatorKind::RelationalOperatorGeToGt => "relop_ge_to_gt",
            OperatorKind::RelationalOperatorGeToLt => "relop_ge_to_lt",
            OperatorKind::RelationalOperatorGtToGe => "relop_gt_to_ge",
            OperatorKind::RelationalOperatorGtToLe => "relop_gt_to_le",
            OperatorKind::ConstReplaceZero => "const_replace_zero",
            OperatorKind::ConstReplaceNonZero => "const_replace_nonzero",
            OperatorKind::CallRemoveVoidCall => "call_remove_void_call",
            OperatorKind::CallRemoveScalarCall => "call_remove_scalar_call",
        }
    }
}


// ---------------------------------------------------------------------------
// Stack typing
// ---------------------------------------------------------------------------

/// The signature of the first candidate, at or after position `i`, that
/// describes function `f`.
pub open spec fn call_signature_from(cs: Seq<CallRemovalCandidate>, f: u32, i: int) -> Option<
    (Seq<ValueType>, Seq<ValueType>),
>
    decreases cs.len() - i,
{
    if i < 0 || i >= cs.len() {
        None
    } else if candidate_index(cs[i]) == f {
        Some((candidate_params(cs[i]), candidate_results(cs[i])))
    } else {
        call_signature_from(cs, f, i + 1)
    }
}

/// The values an instruction pops and pushes, where they are fixed; calls
/// take their signature from the candidates that describe their callee.
pub open spec fn instr_signature(i: Instruction, cs: Seq<CallRemovalCandidate>) -> Option<
    (Seq<ValueType>, Seq<ValueType>),
> {
    if let Some((t, _)) = arith_of(i) {
        Some((seq![t, t], seq![t]))
    } else if let Some((t, _)) = cmp_of(i) {
        Some((seq![t, t], seq![ValueType::I32]))
    } else if let Some(t) = neg_of(i) {
        Some((seq![t], seq![t]))
    } else {
        match i {
            Instruction::I32Const(_) => Some((Seq::empty(), seq![ValueType::I32])),
            Instruction::I64Const(_) => Some((Seq::empty(), seq![ValueType::I64])),
            Instruction::F32Const(_) => Some((Seq::empty(), seq![ValueType::F32])),
            Instruction::F64Const(_) => Some((Seq::empty(), seq![ValueType::F64])),
            Instruction::Nop => Some((Seq::empty(), Seq::empty())),
            Instruction::Call(f) => call_signature_from(cs, f, 0),
            _ => None,
        }
    }
}

/// Execute one instruction on an abstract stack of types; `None` when the
/// stack does not fit the instruction.
pub open spec fn type_step(stack: Seq<ValueType>, i: Instruction, cs: Seq<CallRemovalCandidate>) -> Option<
    Seq<ValueType>,
> {
    if i == Instruction::Drop {
        if stack.len() > 0 {
            Some(stack.drop_last())
        } else {
            None
        }
    } else {
        match instr_signature(i, cs) {
            Some((p, r)) => {
                if stack.len() >= p.len() && stack.subrange(stack.len() - p.len(), stack.len() as int)
                    == p {
                    Some(stack.subrange(0, stack.len() - p.len()) + r)
                } else {
                    None
                }
            },
            None => None,
        }
    }
}

/// Execute a sequence of instructions on an abstract stack of types.
pub open spec fn type_run(stack: Seq<ValueType>, is: Seq<Instruction>, cs: Seq<CallRemovalCandidate>) -> Option<
    Seq<ValueType>,
>
    decreases is.len(),
{
    if is.len() == 0 {
        Some(stack)
    } else {
        match type_step(stack, is[0], cs) {
            Some(s) => type_run(s, is.drop_first(), cs),
            None => None,
        }
    }
}

// ---------------------------------------------------------------------------
// What each operator does
// ---------------------------------------------------------------------------

/// The operation that an arithmetic operator puts in place of `op`.
pub open spec fn arith_rule(kind: OperatorKind, t: ValueType, op: ArithOp) -> Option<ArithOp> {
    match (kind, op) {
        (OperatorKind::BinaryOperatorSubToAdd, ArithOp::Sub) => Some(ArithOp::Add),
        (OperatorKind::BinaryOperatorAddToSub, ArithOp::Add) => Some(ArithOp::Sub),
        (OperatorKind::BinaryOperatorMulToDivS, ArithOp::Mul) => Some(
            if is_int(t) {
                ArithOp::DivS
            } else {
                ArithOp::Div
            },
        ),
        (OperatorKind::BinaryOperatorMulToDivU, ArithOp::Mul) => Some(ArithOp::DivU),
        (OperatorKind::BinaryOperatorDivXToMul, ArithOp::DivS) => Some(ArithOp::Mul),
        (OperatorKind::BinaryOperatorDivXToMul, ArithOp::DivU) => Some(ArithOp::Mul),
        (OperatorKind::BinaryOperatorDivXToMul, ArithOp::Div) => Some(ArithOp::Mul),
        (OperatorKind::BinaryOperatorShlToShrS, ArithOp::Shl) => Some(ArithOp::ShrS),
        (OperatorKind::BinaryOperatorShlToShrU, ArithOp::Shl) => Some(ArithOp::ShrU),
        (OperatorKind::BinaryOperatorShrXToShl, ArithOp::ShrS) => Some(ArithOp::Shl),
        (OperatorKind::BinaryOperatorShrXToShl, ArithOp::ShrU) => Some(ArithOp::Shl),
        (OperatorKind::BinaryOperatorRemToDiv, ArithOp::RemS) => Some(ArithOp::DivS),
        (OperatorKind::BinaryOperatorRemToDiv, ArithOp::RemU) => Some(ArithOp::DivU),
        (OperatorKind::BinaryOperatorDivToRem, ArithOp::DivS) => Some(ArithOp::RemS),
        (OperatorKind::BinaryOperatorDivToRem, ArithOp::DivU) => Some(ArithOp::RemU),
        (OperatorKind::BinaryOperatorAndToOr, ArithOp::And) => Some(ArithOp::Or),
        (OperatorKind::BinaryOperatorOrToAnd, ArithOp::Or) => Some(ArithOp::And),
        (OperatorKind::BinaryOperatorXorToOr, ArithOp::Xor) => Some(ArithOp::Or),
        (OperatorKind::BinaryOperatorOrToXor, ArithOp::Or) => Some(ArithOp::Xor),
        (OperatorKind::BinaryOperatorRotlToRotr, ArithOp::Rotl) => Some(ArithOp::Rotr),
        (OperatorKind::BinaryOperatorRotrToRotl, ArithOp::Rotr) => Some(ArithOp::Rotl),
        _ => None,
    }
}

/// The comparison that a relational operator puts in place of `op`; the
/// signedness of an integer comparison is kept.
pub open spec fn cmp_rule(kind: OperatorKind, op: CmpOp) -> Option<CmpOp> {
    match (kind, op) {
        (OperatorKind::RelationalOperatorEqToNe, CmpOp::Eq) => Some(CmpOp::Ne),
        (OperatorKind::RelationalOperatorNeToEq, CmpOp::Ne) => Some(CmpOp::Eq),
        (OperatorKind::RelationalOperatorLeToGt, CmpOp::LeS) => Some(CmpOp::GtS),
        (OperatorKind::RelationalOperatorLeToGt, CmpOp::LeU) => Some(CmpOp::GtU),
        (OperatorKind::RelationalOperatorLeToGt, CmpOp::Le) => Some(CmpOp::Gt),
        (OperatorKind::RelationalOperatorLeToLt, CmpOp::LeS) => Some(CmpOp::LtS),
        (OperatorKind::RelationalOperatorLeToLt, CmpOp::LeU) => Some(CmpOp::LtU),
        (OperatorKind::RelationalOperatorLeToLt, CmpOp::Le) => Some(CmpOp::Lt),
        (OperatorKind::RelationalOperatorLtToGe, CmpOp::LtS) => Some(CmpOp::GeS),
        (OperatorKind::RelationalOperatorLtToGe, CmpOp::LtU) => Some(CmpOp::GeU),
        (OperatorKind::RelationalOperatorLtToGe, CmpOp::Lt) => Some(CmpOp::Ge),
        (OperatorKind::RelationalOperatorLtToLe, CmpOp::LtS) => Some(CmpOp::LeS),
        (OperatorKind::RelationalOperatorLtToLe, CmpOp::LtU) => Some(CmpOp::LeU),
        (OperatorKind::RelationalOperatorLtToLe, CmpOp::Lt) => Some(CmpOp::Le),
        (OperatorKind::RelationalOperatorGeToGt, CmpOp::GeS) => Some(CmpOp::GtS),
        (OperatorKind::RelationalOperatorGeToGt, CmpOp::GeU) => Some(CmpOp::GtU),
        (OperatorKind::RelationalOperatorGeToGt, CmpOp::Ge) => Some(CmpOp::Gt),
        (OperatorKind::RelationalOperatorGeToLt, CmpOp::GeS) => Some(CmpOp::LtS),
        (OperatorKind::RelationalOperatorGeToLt, CmpOp::GeU) => Some(CmpOp::LtU),
        (OperatorKind::RelationalOperatorGeToLt, CmpOp::Ge) => Some(CmpOp::Lt),
        (OperatorKind::RelationalOperatorGtToGe, CmpOp::GtS) => Some(CmpOp::GeS),
        (OperatorKind::RelationalOperatorGtToGe, CmpOp::GtU) => Some(CmpOp::GeU),
        (OperatorKind::RelationalOperatorGtToGe, CmpOp::Gt) => Some(CmpOp::Ge),
        (OperatorKind::RelationalOperatorGtToLe, CmpOp::GtS) => Some(CmpOp::LeS),
        (OperatorKind::RelationalOperatorGtToLe, CmpOp::GtU) => Some(CmpOp::LeU),
        (OperatorKind::RelationalOperatorGtToLe, CmpOp::Gt) => Some(CmpOp::Le),
        _ => None,
    }
}

/// The parameters of the first void function `f` among the candidates at or
/// after position `i`.
pub open spec fn find_void_from(cs: Seq<CallRemovalCandidate>, f: u32, i: int) -> Option<
    Seq<ValueType>,
>
    decreases cs.len() - i,
{
    if i < 0 || i >= cs.len() {
        None
    } else {
        match cs[i] {
            CallRemovalCandidate::FuncReturningVoid { index, params } => {
                if index == f {
                    Some(params@)
                } else {
                    find_void_from(cs, f, i + 1)
                }
            },
            _ => find_void_from(cs, f, i + 1),
        }
    }
}

/// The parameters and return type of the first scalar function `f` among the
/// candidates at or after position `i`.
pub open spec fn find_scalar_from(cs: Seq<CallRemovalCandidate>, f: u32, i: int) -> Option<
    (Seq<ValueType>, ValueType),
>
    decreases cs.len() - i,
{
    if i < 0 || i >= cs.len() {
        None
    } else {
        match cs[i] {
            CallRemovalCandidate::FuncReturningScalar { index, params, return_type } => {
                if index == f {
                    Some((params@, return_type))
                } else {
                    find_scalar_from(cs, f, i + 1)
                }
            },
            _ => find_scalar_from(cs, f, i + 1),
        }
    }
}

/// What operator `kind` makes of instruction `i`: the instruction put in its
/// place, the block type of the mutated code and the types of the values the
/// original instruction consumes; `None` where the operator does not apply.
pub open spec fn operator_outcome(kind: OperatorKind, i: Instruction, cs: Seq<CallRemovalCandidate>) -> Option<
    (Instruction, BlockType, Seq<ValueType>),
> {
    match kind {
        OperatorKind::UnaryOperatorNegToNop => match neg_of(i) {
            Some(t) => Some((Instruction::Nop, BlockType::Value(t), seq![t])),
            None => None,
        },
        OperatorKind::ConstReplaceZero => match i {
            Instruction::I32Const(v) => if v == 0 {
                Some((Instruction::I32Const(42), BlockType::Value(ValueType::I32), Seq::empty()))
            } else {
                None
            },
            Instruction::I64Const(v) => if v == 0 {
                Some((Instruction::I64Const(42), BlockType::Value(ValueType::I64), Seq::empty()))
            } else {
                None
            },
            Instruction::F32Const(b) => if f32_bits_zero(b) {
                Some(
                    (
                        Instruction::F32Const(F32_FORTY_TWO),
                        BlockType::Value(ValueType::F32),
                        Seq::empty(),
                    ),
                )
            } else {
                None
            },
            Instruction::F64Const(b) => if f64_bits_zero(b) {
                Some(
                    (
                        Instruction::F64Const(F64_FORTY_TWO),
                        BlockType::Value(ValueType::F64),
                        Seq::empty(),
                    ),
                )
            } else {
                None
            },
            _ => None,
        },
        OperatorKind::ConstReplaceNonZero => match i {
            Instruction::I32Const(v) => if v != 0 {
                Some((Instruction::I32Const(0), BlockType::Value(ValueType::I32), Seq::empty()))
            } else {
                None
            },
            Instruction::I64Const(v) => if v != 0 {
                Some((Instruction::I64Const(0), BlockType::Value(ValueType::I64), Seq::empty()))
            } else {
                None
            },
            Instruction::F32Const(b) => if !f32_bits_zero(b) {
                Some((Instruction::F32Const(0), BlockType::Value(ValueType::F32), Seq::empty()))
            } else {
                None
            },
            Instruction::F64Const(b) => if !f64_bits_zero(b) {
                Some((Instruction::F64Const(0), BlockType::Value(ValueType::F64), Seq::empty()))
            } else {
                None
            },
            _ => None,
        },
        OperatorKind::CallRemoveVoidCall => match i {
            Instruction::Call(f) => match find_void_from(cs, f, 0) {
                Some(p) => Some((Instruction::Nop, BlockType::NoResult, p)),
                None => None,
            },
            _ => None,
        },
        OperatorKind::CallRemoveScalarCall => match i {
            Instruction::Call(f) => match find_scalar_from(cs, f, 0) {
                Some((p, rt)) => Some((forty_two(rt), BlockType::Value(rt), p)),
                None => None,
            },
            _ => None,
        },
        _ => match arith_of(i) {
            Some((t, op)) => match arith_rule(kind, t, op) {
                Some(op2) => match arith_instr(t, op2) {
                    Some(n) => Some((n, BlockType::Value(t), seq![t, t])),
                    None => None,
                },
                None => None,
            },
            None => match cmp_of(i) {
                Some((t, op)) => match cmp_rule(kind, op) {
                    Some(op2) => match cmp_instr(t, op2) {
                        Some(n) => Some((n, BlockType::Value(ValueType::I32), seq![t, t])),
                        None => None,
                    },
                    None => None,
                },
                None => None,
            },
        },
    }
}

/// Operators that remove a call: their replacement first drops the call's
/// arguments.
pub open spec fn removes_call(kind: OperatorKind) -> bool {
    kind == OperatorKind::CallRemoveVoidCall || kind == OperatorKind::CallRemoveScalarCall
}

/// `n` drop instructions.
pub open spec fn drops(n: nat) -> Seq<Instruction> {
    Seq::new(n, |_i: int| Instruction::Drop)
}

/// The instruction sequence that takes the place of the original instruction.
pub open spec fn replacement_seq(kind: OperatorKind, new: Instruction, params: Seq<ValueType>) -> Seq<
    Instruction,
> {
    if removes_call(kind) {
        drops(params.len()) + seq![new]
    } else {
        seq![new]
    }
}

// ---------------------------------------------------------------------------
// Instruction context and replacements
// ---------------------------------------------------------------------------

/// Facts about the module that operators need besides the instruction itself.
pub struct InstructionContext {
    call_removal_candidates: Vec<CallRemovalCandidate>,
}

impl View for InstructionContext {
    type V = Seq<CallRemovalCandidate>;

    closed spec fn view(&self) -> Seq<CallRemovalCandidate> {
        self.call_removal_candidates@
    }
}

impl InstructionContext {
    /// A context with the given call removal candidates.
    pub fn new(call_removal_candidates: Vec<CallRemovalCandidate>) -> (r: Self)
        ensures
            r@ == call_removal_candidates@,
    {
        Self { call_removal_candidates }
    }

    /// A context without call removal candidates.
    pub fn empty() -> (r: Self)
        ensures
            r@ == Seq::<CallRemovalCandidate>::empty(),
    {
        Self { call_removal_candidates: Vec::new() }
    }

    fn call_removal_candidates(&self) -> (r: &Vec<CallRemovalCandidate>)
        ensures
            r@ == self@,
    {
        &self.call_removal_candidates
    }
}

/// A concrete mutation: operator `kind` replaces instruction `old` by `new`.
#[derive(Clone, Debug)]
pub struct InstructionReplacement {
    pub kind: OperatorKind,
    pub old: Instruction,
    pub new: Instruction,
    pub result_type: BlockType,
    pub parameters: Vec<ValueType>,
}

impl InstructionReplacement {
    /// The replacement that operator `kind` makes of `instr`, if it applies.
    pub fn new(kind: OperatorKind, instr: &Instruction, ctx: &InstructionContext) -> (r: Option<Self>)
        ensures
            r is None <==> operator_outcome(kind, *instr, ctx@) is None,
            r matches Some(x) ==> {
                &&& x.kind == kind
                &&& x.old == *instr
                &&& operator_outcome(kind, *instr, ctx@) == Some(
                    (x.new, x.result_type, x.parameters@),
                )
            },
    {
        match kind {
            OperatorKind::UnaryOperatorNegToNop => match instr {
                Instruction::F32Neg => Some(Self::simple(kind, *instr, Instruction::Nop, ValueType::F32, 1)),
                Instruction::F64Neg => Some(Self::simple(kind, *instr, Instruction::Nop, ValueType::F64, 1)),
                _ => None,
            },
            OperatorKind::ConstReplaceZero => match *instr {
                Instruction::I32Const(v) if v == 0 => Some(
                    Self::simple(kind, *instr, Instruction::I32Const(42), ValueType::I32, 0),
                ),
                Instruction::I64Const(v) if v == 0 => Some(
                    Self::simple(kind, *instr, Instruction::I64Const(42), ValueType::I64, 0),
                ),
                Instruction::F32Const(b) if b == 0 || b == 0x8000_0000u32 => Some(
                    Self::simple(kind, *instr, Instruction::F32Const(F32_FORTY_TWO), ValueType::F32, 0),
                ),
                Instruction::F64Const(b) if b == 0 || b == 0x8000_0000_0000_0000u64 => Some(
                    Self::simple(kind, *instr, Instruction::F64Const(F64_FORTY_TWO), ValueType::F64, 0),
                ),
                _ => None,
            },
            OperatorKind::ConstReplaceNonZero => match *instr {
                Instruction::I32Const(v) if v != 0 => Some(
                    Self::simple(kind, *instr, Instruction::I32Const(0), ValueType::I32, 0),
                ),
                Instruction::I64Const(v) if v != 0 => Some(
                    Self::simple(kind, *instr, Instruction::I64Const(0), ValueType::I64, 0),
                ),
                Instruction::F32Const(b) if !(b == 0 || b == 0x8000_0000u32) => Some(
                    Self::simple(kind, *instr, Instruction::F32Const(0), ValueType::F32, 0),
                ),
                Instruction::F64Const(b) if !(b == 0 || b == 0x8000_0000_0000_0000u64) => Some(
                    Self::simple(kind, *instr, Instruction::F64Const(0), ValueType::F64, 0),
                ),
                _ => None,
            },
            OperatorKind::CallRemoveVoidCall => match *instr {
                Instruction::Call(f) => match find_void(ctx.call_removal_candidates(), f) {
                    Some(params) => Some(
                        Self {
                            kind,
                            old: *instr,
                            new: Instruction::Nop,
                            result_type: BlockType::NoResult,
                            parameters: params,
                        },
                    ),
                    None => None,
                },
                _ => None,
            },
            OperatorKind::CallRemoveScalarCall => match *instr {
                Instruction::Call(f) => match find_scalar(ctx.call_removal_candidates(), f) {
                    Some((params, rt)) => Some(
                        Self {
                            kind,
                            old: *instr,
                            new: forty_two_exec(rt),
                            result_type: BlockType::Value(rt),
                            parameters: params,
                        },
                    ),
                    None => None,
                },
                _ => None,
            },
            _ => match arith_of_exec(instr) {
                Some((t, op)) => match arith_rule_exec(kind, t, op) {
                    Some(op2) => match arith_instr_exec(t, op2) {
                        Some(n) => Some(Self::simple(kind, *instr, n, t, 2)),
                        None => None,
                    },
                    None => None,
                },
                None => match cmp_of_exec(instr) {
                    Some((t, op)) => match cmp_rule_exec(kind, op) {
                        Some(op2) => match cmp_instr_exec(t, op2) {
                            Some(n) => {
                                let mut r = Self::simple(kind, *instr, n, t, 2);
                                r.result_type = BlockType::Value(ValueType::I32);
                                Some(r)
                            },
                            None => None,
                        },
                        None => None,
                    },
                    None => None,
                },
            },
        }
    }

    /// A replacement whose code takes `arity` operands of type `t` and leaves
    /// one value of type `t`.
    fn simple(kind: OperatorKind, old: Instruction, new: Instruction, t: ValueType, arity: usize) -> (r: Self)
        requires
            arity <= 2,
        ensures
            r.kind == kind,
            r.old == old,
            r.new == new,
            r.result_type == BlockType::Value(t),
            r.parameters@ == Seq::new(arity as nat, |_i: int| t),
    {
        let mut parameters: Vec<ValueType> = Vec::new();
        if arity >= 1 {
            parameters.push(t);
        }
        if arity >= 2 {
            parameters.push(t);
        }
        assert(parameters@ =~= Seq::new(arity as nat, |_i: int| t));
        Self { kind, old, new, result_type: BlockType::Value(t), parameters }
    }

    /// A copy of the replacement.
    pub fn duplicate(&self) -> (r: Self)
        ensures
            replacement_view(r) == replacement_view(*self),
    {
        InstructionReplacement {
            kind: self.kind,
            old: self.old,
            new: self.new,
            result_type: self.result_type,
            parameters: copy_value_types(&self.parameters),
        }
    }

    /// The original instruction.
    pub fn old_instruction(&self) -> (r: &Instruction)
        ensures
            *r == self.old,
    {
        &self.old
    }

    /// The instruction put in its place.
    pub fn new_instruction(&self) -> (r: &Instruction)
        ensures
            *r == self.new,
    {
        &self.new
    }

    /// The block type of the mutated code.
    pub fn result(&self) -> (r: BlockType)
        ensures
            r == self.result_type,
    {
        self.result_type
    }

    /// The types of the values that the original instruction consumes.
    pub fn parameters(&self) -> (r: &Vec<ValueType>)
        ensures
            r@ == self.parameters@,
    {
        &self.parameters
    }

    /// The name of the operator.
    pub fn name(&self) -> (s: &'static str)
        ensures
            s@ == self.kind.spec_name(),
    {
        self.kind.name()
    }

    /// A human-readable description of the mutation:
    /// `<operator>: Replaced <old> with <new>`.
    pub fn description(&self) -> (s: String)
        ensures
            s@ == self.kind.spec_name() + ": Replaced "@ + instruction_text(self.old) + " with "@
                + instruction_text(self.new),
    {
        let old_text = self.old.text();
        let new_text = self.new.text();
        String::from_str(self.kind.name()).concat(": Replaced ").concat(old_text.as_str()).concat(
            " with ",
        ).concat(new_text.as_str())
    }

    /// The instruction sequence that takes the place of the original one.
    pub fn replacement(&self) -> (r: Vec<Instruction>)
        ensures
            r@ == replacement_seq(self.kind, self.new, self.parameters@),
    {
        let mut r: Vec<Instruction> = Vec::new();
        if self.kind == OperatorKind::CallRemoveVoidCall || self.kind == OperatorKind::CallRemoveScalarCall {
            let n = self.parameters.len();
            let mut i: usize = 0;
            while i < n
                invariant
                    n == self.parameters@.len(),
                    i <= n,
                    r@ == drops(i as nat),
                decreases n - i,
            {
                r.push(Instruction::Drop);
                i = i + 1;
                assert(r@ =~= drops(i as nat));
            }
        }
        r.push(self.new);
        assert(r@ =~= replacement_seq(self.kind, self.new, self.parameters@));
        r
    }

    /// Replace the instruction at `instr_index`, which must be the original
    /// instruction, by the replacement sequence.
    pub fn apply(&self, instructions: &mut Vec<Instruction>, instr_index: u64)
        requires
            instr_index < old(instructions)@.len(),
            old(instructions)@[instr_index as int] == self.old,
        ensures
            final(instructions)@ == old(instructions)@.subrange(0, instr_index as int)
                + replacement_seq(self.kind, self.new, self.parameters@)
                + old(instructions)@.subrange(instr_index as int + 1, old(instructions)@.len() as int),
    {
        let len = instructions.len();
        assert(instr_index < len);
        let idx = instr_index as usize;
        let repl = self.replacement();
        let mut out: Vec<Instruction> = Vec::new();
        let mut i: usize = 0;
        while i < idx
            invariant
                i <= idx,
                idx < instructions@.len(),
                out@ == instructions@.subrange(0, i as int),
            decreases idx - i,
        {
            out.push(instructions[i]);
            i = i + 1;
            assert(out@ =~= instructions@.subrange(0, i as int));
        }
        let mut j: usize = 0;
        while j < repl.len()
            invariant
                j <= repl@.len(),
                idx < instructions@.len(),
                out@ == instructions@.subrange(0, idx as int) + repl@.subrange(0, j as int),
            decreases repl.len() - j,
        {
            out.push(repl[j]);
            j = j + 1;
            assert(out@ =~= instructions@.subrange(0, idx as int) + repl@.subrange(0, j as int));
        }
        let mut k: usize = idx + 1;
        while k < instructions.len()
            invariant
                idx + 1 <= k <= instructions@.len(),
                out@ == instructions@.subrange(0, idx as int) + repl@ + instructions@.subrange(
                    idx as int + 1,
                    k as int,
                ),
            decreases instructions.len() - k,
        {
            out.push(instructions[k]);
            k = k + 1;
            assert(out@ =~= instructions@.subrange(0, idx as int) + repl@ + instructions@.subrange(
                idx as int + 1,
                k as int,
            ));
        }
        assert(repl@.subrange(0, repl@.len() as int) =~= repl@);
        *instructions = out;
    }
}

fn arith_rule_exec(kind: OperatorKind, t: ValueType, op: ArithOp) -> (r: Option<ArithOp>)
    ensures
        r == arith_rule(kind, t, op),
{
    match (kind, op) {
        (OperatorKind::BinaryOperatorSubToAdd, ArithOp::Sub) => Some(ArithOp::Add),
        (OperatorKind::BinaryOperatorAddToSub, ArithOp::Add) => Some(ArithOp::Sub),
        (OperatorKind::BinaryOperatorMulToDivS, ArithOp::Mul) => Some(
            if t == ValueType::I32 || t == ValueType::I64 {
                ArithOp::DivS
            } else {
                ArithOp::Div
            },
        ),
        (OperatorKind::BinaryOperatorMulToDivU, ArithOp::Mul) => Some(ArithOp::DivU),
        (OperatorKind::BinaryOperatorDivXToMul, ArithOp::DivS) => Some(ArithOp::Mul),
        (OperatorKind::BinaryOperatorDivXToMul, ArithOp::DivU) => Some(ArithOp::Mul),
        (OperatorKind::BinaryOperatorDivXToMul, ArithOp::Div) => Some(ArithOp::Mul),
        (OperatorKind::BinaryOperatorShlToShrS, ArithOp::Shl) => Some(ArithOp::ShrS),
        (OperatorKind::BinaryOperatorShlToShrU, ArithOp::Shl) => Some(ArithOp::ShrU),
        (OperatorKind::BinaryOperatorShrXToShl, ArithOp::ShrS) => Some(ArithOp::Shl),
        (OperatorKind::BinaryOperatorShrXToShl, ArithOp::ShrU) => Some(ArithOp::Shl),
        (OperatorKind::BinaryOperatorRemToDiv, ArithOp::RemS) => Some(ArithOp::DivS),
        (OperatorKind::BinaryOperatorRemToDiv, ArithOp::RemU) => Some(ArithOp::DivU),
        (OperatorKind::BinaryOperatorDivToRem, ArithOp::DivS) => Some(ArithOp::RemS),
        (OperatorKind::BinaryOperatorDivToRem, ArithOp::DivU) => Some(ArithOp::RemU),
        (OperatorKind::BinaryOperatorAndToOr, ArithOp::And) => Some(ArithOp::Or),
        (OperatorKind::BinaryOperatorOrToAnd, ArithOp::Or) => Some(ArithOp::And),
        (OperatorKind::BinaryOperatorXorToOr, ArithOp::Xor) => Some(ArithOp::Or),
        (OperatorKind::BinaryOperatorOrToXor, ArithOp::Or) => Some(ArithOp::Xor),
        (OperatorKind::BinaryOperatorRotlToRotr, ArithOp::Rotl) => Some(ArithOp::Rotr),
        (OperatorKind::BinaryOperatorRotrToRotl, ArithOp::Rotr) => Some(ArithOp::Rotl),
        _ => None,
    }
}

fn cmp_rule_exec(kind: OperatorKind, op: CmpOp) -> (r: Option<CmpOp>)
    ensures
        r == cmp_rule(kind, op),
{
    match (kind, op) {
        (OperatorKind::RelationalOperatorEqToNe, CmpOp::Eq) => Some(CmpOp::Ne),
        (OperatorKind::RelationalOperatorNeToEq, CmpOp::Ne) => Some(CmpOp::Eq),
        (OperatorKind::RelationalOperatorLeToGt, CmpOp::LeS) => Some(CmpOp::GtS),
        (OperatorKind::RelationalOperatorLeToGt, CmpOp::LeU) => Some(CmpOp::GtU),
        (OperatorKind::RelationalOperatorLeToGt, CmpOp::Le) => Some(CmpOp::Gt),
        (OperatorKind::RelationalOperatorLeToLt, CmpOp::LeS) => Some(CmpOp::LtS),
        (OperatorKind::RelationalOperatorLeToLt, CmpOp::LeU) => Some(CmpOp::LtU),
        (OperatorKind::RelationalOperatorLeToLt, CmpOp::Le) => Some(CmpOp::Lt),
        (OperatorKind::RelationalOperatorLtToGe, CmpOp::LtS) => Some(CmpOp::GeS),
        (OperatorKind::RelationalOperatorLtToGe, CmpOp::LtU) => Some(CmpOp::GeU),
        (OperatorKind::RelationalOperatorLtToGe, CmpOp::Lt) => Some(CmpOp::Ge),
        (OperatorKind::RelationalOperatorLtToLe, CmpOp::LtS) => Some(CmpOp::LeS),
        (OperatorKind::RelationalOperatorLtToLe, CmpOp::LtU) => Some(CmpOp::LeU),
        (OperatorKind::RelationalOperatorLtToLe, CmpOp::Lt) => Some(CmpOp::Le),
        (OperatorKind::RelationalOperatorGeToGt, CmpOp::GeS) => Some(CmpOp::GtS),
        (OperatorKind::RelationalOperatorGeToGt, CmpOp::GeU) => Some(CmpOp::GtU),
        (OperatorKind::RelationalOperatorGeToGt, CmpOp::Ge) => Some(CmpOp::Gt),
        (OperatorKind::RelationalOperatorGeToLt, CmpOp::GeS) => Some(CmpOp::LtS),
        (OperatorKind::RelationalOperatorGeToLt, CmpOp::GeU) => Some(CmpOp::LtU),
        (OperatorKind::RelationalOperatorGeToLt, CmpOp::Ge) => Some(CmpOp::Lt),
        (OperatorKind::RelationalOperatorGtToGe, CmpOp::GtS) => Some(CmpOp::GeS),
        (OperatorKind::RelationalOperatorGtToGe, CmpOp::GtU) => Some(CmpOp::GeU),
        (OperatorKind::RelationalOperatorGtToGe, CmpOp::Gt) => Some(CmpOp::Ge),
        (OperatorKind::RelationalOperatorGtToLe, CmpOp::GtS) => Some(CmpOp::LeS),
        (OperatorKind::RelationalOperatorGtToLe, CmpOp::GtU) => Some(CmpOp::LeU),
        (OperatorKind::RelationalOperatorGtToLe, CmpOp::Gt) => Some(CmpOp::Le),
        _ => None,
    }
}

/// The parameters of the first void candidate for function `f`.
fn find_void(cs: &Vec<CallRemovalCandidate>, f: u32) -> (r: Option<Vec<ValueType>>)
    ensures
        r is None <==> find_void_from(cs@, f, 0) is None,
        r matches Some(p) ==> find_void_from(cs@, f, 0) == Some(p@),
{
    let mut i: usize = 0;
    while i < cs.len()
        invariant
            i <= cs@.len(),
            find_void_from(cs@, f, 0) == find_void_from(cs@, f, i as int),
        decreases cs.len() - i,
    {
        match &cs[i] {
            CallRemovalCandidate::FuncReturningVoid { index, params } => {
                if *index == f {
                    return Some(copy_value_types(params));
                }
            },
            _ => {},
        }
        i = i + 1;
    }
    None
}

/// The parameters and return type of the first scalar candidate for function `f`.
fn find_scalar(cs: &Vec<CallRemovalCandidate>, f: u32) -> (r: Option<(Vec<ValueType>, ValueType)>)
    ensures
        r is None <==> find_scalar_from(cs@, f, 0) is None,
        r matches Some((p, t)) ==> find_scalar_from(cs@, f, 0) == Some((p@, t)),
{
    let mut i: usize = 0;
    while i < cs.len()
        invariant
            i <= cs@.len(),
            find_scalar_from(cs@, f, 0) == find_scalar_from(cs@, f, i as int),
        decreases cs.len() - i,
    {
        match &cs[i] {
            CallRemovalCandidate::FuncReturningScalar { index, params, return_type } => {
                if *index == f {
                    return Some((copy_value_types(params), *return_type));
                }
            },
            _ => {},
        }
        i = i + 1;
    }
    None
}


// ---------------------------------------------------------------------------
// Mutants are well typed
// ---------------------------------------------------------------------------

proof fn lemma_arith_roundtrip(t: ValueType, op: ArithOp)
    requires
        arith_instr(t, op) is Some,
    ensures
        arith_of(arith_instr(t, op).unwrap()) == Some((t, op)),
        cmp_of(arith_instr(t, op).unwrap()) is None,
{
}

proof fn lemma_cmp_roundtrip(t: ValueType, op: CmpOp)
    requires
        cmp_instr(t, op) is Some,
    ensures
        cmp_of(cmp_instr(t, op).unwrap()) == Some((t, op)),
        arith_of(cmp_instr(t, op).unwrap()) is None,
        neg_of(cmp_instr(t, op).unwrap()) is None,
{
}

proof fn lemma_run_single(stack: Seq<ValueType>, i: Instruction, cs: Seq<CallRemovalCandidate>, p: Seq<ValueType>, r: Seq<ValueType>)
    requires
        i != Instruction::Drop,
        instr_signature(i, cs) == Some((p, r)),
    ensures
        type_run(stack + p, seq![i], cs) == Some(stack + r),
{
    let st = stack + p;
    assert(st.subrange(st.len() - p.len(), st.len() as int) =~= p);
    assert(st.subrange(0, st.len() - p.len()) =~= stack);
    assert(type_step(st, i, cs) == Some(stack + r));
    assert(seq![i].drop_first() =~= Seq::<Instruction>::empty());
    assert(type_run(stack + r, seq![i].drop_first(), cs) == Some(stack + r));
    assert(seq![i][0] == i);
}

proof fn lemma_run_drops(stack: Seq<ValueType>, p: Seq<ValueType>, rest: Seq<Instruction>, cs: Seq<CallRemovalCandidate>)
    ensures
        type_run(stack + p, drops(p.len()) + rest, cs) == type_run(stack, rest, cs),
    decreases p.len(),
{
    if p.len() == 0 {
        assert(drops(0) + rest =~= rest);
        assert(stack + p =~= stack);
    } else {
        let is = drops(p.len()) + rest;
        assert(is[0] == Instruction::Drop);
        assert(is.drop_first() =~= drops((p.len() - 1) as nat) + rest);
        assert((stack + p).drop_last() =~= stack + p.drop_last());
        lemma_run_drops(stack, p.drop_last(), rest, cs);
    }
}

proof fn lemma_find_void_witness(cs: Seq<CallRemovalCandidate>, f: u32, i: int) -> (j: int)
    requires
        find_void_from(cs, f, i) is Some,
    ensures
        i <= j < cs.len(),
        cs[j] is FuncReturningVoid,
        candidate_index(cs[j]) == f,
        find_void_from(cs, f, i) == Some(candidate_params(cs[j])),
    decreases cs.len() - i,
{
    match cs[i] {
        CallRemovalCandidate::FuncReturningVoid { index, params } => {
            if index == f {
                i
            } else {
                lemma_find_void_witness(cs, f, i + 1)
            }
        },
        _ => lemma_find_void_witness(cs, f, i + 1),
    }
}

proof fn lemma_find_scalar_witness(cs: Seq<CallRemovalCandidate>, f: u32, i: int) -> (j: int)
    requires
        find_scalar_from(cs, f, i) is Some,
    ensures
        i <= j < cs.len(),
        cs[j] is FuncReturningScalar,
        candidate_index(cs[j]) == f,
        find_scalar_from(cs, f, i) == Some((candidate_params(cs[j]), cs[j]->return_type)),
    decreases cs.len() - i,
{
    match cs[i] {
        CallRemovalCandidate::FuncReturningScalar { index, params, return_type } => {
            if index == f {
                i
            } else {
                lemma_find_scalar_witness(cs, f, i + 1)
            }
        },
        _ => lemma_find_scalar_witness(cs, f, i + 1),
    }
}

proof fn lemma_call_signature_of_void(cs: Seq<CallRemovalCandidate>, f: u32, i: int)
    requires
        0 <= i,
        candidates_distinct(cs),
        find_void_from(cs, f, i) is Some,
    ensures
        call_signature_from(cs, f, i) == Some((find_void_from(cs, f, i).unwrap(), Seq::<ValueType>::empty())),
    decreases cs.len() - i,
{
    let j = lemma_find_void_witness(cs, f, i);
    if candidate_index(cs[i]) == f {
        if j != i {
            assert(candidate_index(cs[i]) != candidate_index(cs[j]));
        }
    } else {
        lemma_call_signature_of_void(cs, f, i + 1);
    }
}

proof fn lemma_call_signature_of_scalar(cs: Seq<CallRemovalCandidate>, f: u32, i: int)
    requires
        0 <= i,
        candidates_distinct(cs),
        find_scalar_from(cs, f, i) is Some,
    ensures
        call_signature_from(cs, f, i) == Some(
            (find_scalar_from(cs, f, i).unwrap().0, seq![find_scalar_from(cs, f, i).unwrap().1]),
        ),
    decreases cs.len() - i,
{
    let j = lemma_find_scalar_witness(cs, f, i);
    if candidate_index(cs[i]) == f {
        if j != i {
            assert(candidate_index(cs[i]) != candidate_index(cs[j]));
        }
    } else {
        lemma_call_signature_of_scalar(cs, f, i + 1);
    }
}

/// A two-operand arithmetic instruction of type `t` with operation `to`,
/// as a replacement: it consumes two values of type `t` and leaves one.
pub open spec fn arith_replacement(t: ValueType, to: ArithOp) -> Option<(Instruction, BlockType, Seq<ValueType>)> {
    match arith_instr(t, to) {
        Some(n) => Some((n, BlockType::Value(t), seq![t, t])),
        None => None,
    }
}

/// A comparison of two values of type `t` with operation `to`, as a
/// replacement: it consumes two values of type `t` and leaves an `i32`.
pub open spec fn cmp_replacement(t: ValueType, to: CmpOp) -> Option<(Instruction, BlockType, Seq<ValueType>)> {
    match cmp_instr(t, to) {
        Some(n) => Some((n, BlockType::Value(ValueType::I32), seq![t, t])),
        None => None,
    }
}

/// What each arithmetic operator does, as its name says: it replaces the
/// operation it is named after (`binop_sub_to_add`: subtraction) by the
/// other one (addition) on operands of the same type, and leaves every
/// other arithmetic instruction alone; no other operator mutates an
/// arithmetic instruction.
pub proof fn lemma_arithmetic_operators(kind: OperatorKind, i: Instruction, cs: Seq<CallRemovalCandidate>)
    requires
        arith_of(i) is Some,
    ensures
        ({
            let (t, op) = arith_of(i).unwrap();
            &&& kind == OperatorKind::BinaryOperatorSubToAdd ==> operator_outcome(kind, i, cs) == if op == ArithOp::Sub { arith_replacement(t, ArithOp::Add) } else { None }
            &&& kind == OperatorKind::BinaryOperatorAddToSub ==> operator_outcome(kind, i, cs) == if op == ArithOp::Add { arith_replacement(t, ArithOp::Sub) } else { None }
            &&& kind == OperatorKind::BinaryOperatorMulToDivS ==> operator_outcome(kind, i, cs) == if op == ArithOp::Mul { arith_replacement(t, if is_int(t) { ArithOp::DivS } else { ArithOp::Div }) } else { None }
            &&& kind == OperatorKind::BinaryOperatorMulToDivU ==> operator_outcome(kind, i, cs) == if op == ArithOp::Mul { arith_replacement(t, ArithOp::DivU) } else { None }
            &&& kind == OperatorKind::BinaryOperatorDivXToMul ==> operator_outcome(kind, i, cs) == if op == ArithOp::DivS { arith_replacement(t, ArithOp::Mul) } else if op == ArithOp::DivU { arith_replacement(t, ArithOp::Mul) } else if op == ArithOp::Div { arith_replacement(t, ArithOp::Mul) } else { None }
            &&& kind == OperatorKind::BinaryOperatorShlToShrS ==> operator_outcome(kind, i, cs) == if op == ArithOp::Shl { arith_replacement(t, ArithOp::ShrS) } else { None }
            &&& kind == OperatorKind::BinaryOperatorShlToShrU ==> operator_outcome(kind, i, cs) == if op == ArithOp::Shl { arith_replacement(t, ArithOp::ShrU) } else { None }
            &&& kind == OperatorKind::BinaryOperatorShrXToShl ==> operator_outcome(kind, i, cs) == if op == ArithOp::ShrS { arith_replacement(t, ArithOp::Shl) } else if op == ArithOp::ShrU { arith_replacement(t, ArithOp::Shl) } else { None }
            &&& kind == OperatorKind::BinaryOperatorRemToDiv ==> operator_outcome(kind, i, cs) == if op == ArithOp::RemS { arith_replacement(t, ArithOp::DivS) } else if op == ArithOp::RemU { arith_replacement(t, ArithOp::DivU) } else { None }
            &&& kind == OperatorKind::BinaryOperatorDivToRem ==> operator_outcome(kind, i, cs) == if op == ArithOp::DivS { arith_replacement(t, ArithOp::RemS) } else if op == ArithOp::DivU { arith_replacement(t, ArithOp::RemU) } else { None }
            &&& kind == OperatorKind::BinaryOperatorAndToOr ==> operator_outcome(kind, i, cs) == if op == ArithOp::And { arith_replacement(t, ArithOp::Or) } else { None }
            &&& kind == OperatorKind::BinaryOperatorOrToAnd ==> operator_outcome(kind, i, cs) == if op == ArithOp::Or { arith_replacement(t, ArithOp::And) } else { None }
            &&& kind == OperatorKind::BinaryOperatorXorToOr ==> operator_outcome(kind, i, cs) == if op == ArithOp::Xor { arith_replacement(t, ArithOp::Or) } else { None }
            &&& kind == OperatorKind::BinaryOperatorOrToXor ==> operator_outcome(kind, i, cs) == if op == ArithOp::Or { arith_replacement(t, ArithOp::Xor) } else { None }
            &&& kind == OperatorKind::BinaryOperatorRotlToRotr ==> operator_outcome(kind, i, cs) == if op == ArithOp::Rotl { arith_replacement(t, ArithOp::Rotr) } else { None }
            &&& kind == OperatorKind::BinaryOperatorRotrToRotl ==> operator_outcome(kind, i, cs) == if op == ArithOp::Rotr { arith_replacement(t, ArithOp::Rotl) } else { None }
            &&& (kind != OperatorKind::BinaryOperatorSubToAdd && kind != OperatorKind::BinaryOperatorAddToSub && kind != OperatorKind::BinaryOperatorMulToDivS && kind != OperatorKind::BinaryOperatorMulToDivU && kind != OperatorKind::BinaryOperatorDivXToMul && kind != OperatorKind::BinaryOperatorShlToShrS && kind != OperatorKind::BinaryOperatorShlToShrU && kind != OperatorKind::BinaryOperatorShrXToShl && kind != OperatorKind::BinaryOperatorRemToDiv && kind != OperatorKind::BinaryOperatorDivToRem && kind != OperatorKind::BinaryOperatorAndToOr && kind != OperatorKind::BinaryOperatorOrToAnd && kind != OperatorKind::BinaryOperatorXorToOr && kind != OperatorKind::BinaryOperatorOrToXor && kind != OperatorKind::BinaryOperatorRotlToRotr && kind != OperatorKind::BinaryOperatorRotrToRotl)
                ==> operator_outcome(kind, i, cs) is None
        }),
{
}

/// What each relational operator does, as its name says: it replaces the
/// comparison it is named after by the other one, of the same signedness
/// and on operands of the same type, and leaves every other comparison
/// alone; no other operator mutates a comparison.
pub proof fn lemma_relational_operators(kind: OperatorKind, i: Instruction, cs: Seq<CallRemovalCandidate>)
    requires
        cmp_of(i) is Some,
    ensures
        ({
            let (t, op) = cmp_of(i).unwrap();
            &&& kind == OperatorKind::RelationalOperatorEqToNe ==> operator_outcome(kind, i, cs) == if op == CmpOp::Eq { cmp_replacement(t, CmpOp::Ne) } else { None }
            &&& kind == OperatorKind::RelationalOperatorNeToEq ==> operator_outcome(kind, i, cs) == if op == CmpOp::Ne { cmp_replacement(t, CmpOp::Eq) } else { None }
            &&& kind == OperatorKind::RelationalOperatorLeToGt ==> operator_outcome(kind, i, cs) == if op == CmpOp::LeS { cmp_replacement(t, CmpOp::GtS) } else if op == CmpOp::LeU { cmp_replacement(t, CmpOp::GtU) } else if op == CmpOp::Le { cmp_replacement(t, CmpOp::Gt) } else { None }
            &&& kind == OperatorKind::RelationalOperatorLeToLt ==> operator_outcome(kind, i, cs) == if op == CmpOp::LeS { cmp_replacement(t, CmpOp::LtS) } else if op == CmpOp::LeU { cmp_replacement(t, CmpOp::LtU) } else if op == CmpOp::Le { cmp_replacement(t, CmpOp::Lt) } else { None }
            &&& kind == OperatorKind::RelationalOperatorLtToGe ==> operator_outcome(kind, i, cs) == if op == CmpOp::LtS { cmp_replacement(t, CmpOp::GeS) } else if op == CmpOp::LtU { cmp_replacement(t, CmpOp::GeU) } else if op == CmpOp::Lt { cmp_replacement(t, CmpOp::Ge) } else { None }
            &&& kind == OperatorKind::RelationalOperatorLtToLe ==> operator_outcome(kind, i, cs) == if op == CmpOp::LtS { cmp_replacement(t, CmpOp::LeS) } else if op == CmpOp::LtU { cmp_replacement(t, CmpOp::LeU) } else if op == CmpOp::Lt { cmp_replacement(t, CmpOp::Le) } else { None }
            &&& kind == OperatorKind::RelationalOperatorGeToGt ==> operator_outcome(kind, i, cs) == if op == CmpOp::GeS { cmp_replacement(t, CmpOp::GtS) } else if op == CmpOp::GeU { cmp_replacement(t, CmpOp::GtU) } else if op == CmpOp::Ge { cmp_replacement(t, CmpOp::Gt) } else { None }
            &&& kind == OperatorKind::RelationalOperatorGeToLt ==> operator_outcome(kind, i, cs) == if op == CmpOp::GeS { cmp_replacement(t, CmpOp::LtS) } else if op == CmpOp::GeU { cmp_replacement(t, CmpOp::LtU) } else if op == CmpOp::Ge { cmp_replacement(t, CmpOp::Lt) } else { None }
            &&& kind == OperatorKind::RelationalOperatorGtToGe ==> operator_outcome(kind, i, cs) == if op == CmpOp::GtS { cmp_replacement(t, CmpOp::GeS) } else if op == CmpOp::GtU { cmp_replacement(t, CmpOp::GeU) } else if op == CmpOp::Gt { cmp_replacement(t, CmpOp::Ge) } else { None }
            &&& kind == OperatorKind::RelationalOperatorGtToLe ==> operator_outcome(kind, i, cs) == if op == CmpOp::GtS { cmp_replacement(t, CmpOp::LeS) } else if op == CmpOp::GtU { cmp_replacement(t, CmpOp::LeU) } else if op == CmpOp::Gt { cmp_replacement(t, CmpOp::Le) } else { None }
            &&& (kind != OperatorKind::RelationalOperatorEqToNe && kind != OperatorKind::RelationalOperatorNeToEq && kind != OperatorKind::RelationalOperatorLeToGt && kind != OperatorKind::RelationalOperatorLeToLt && kind != OperatorKind::RelationalOperatorLtToGe && kind != OperatorKind::RelationalOperatorLtToLe && kind != OperatorKind::RelationalOperatorGeToGt && kind != OperatorKind::RelationalOperatorGeToLt && kind != OperatorKind::RelationalOperatorGtToGe && kind != OperatorKind::RelationalOperatorGtToLe)
                ==> operator_outcome(kind, i, cs) is None
        }),
{
}

/// What the constant and negation operators do, as their names say:
/// `const_replace_zero` replaces a zero constant by 42 of the same type and
/// leaves other constants alone, `const_replace_nonzero` replaces a
/// non-zero constant by zero (a float zero of either sign counts as zero),
/// and `unop_neg_to_nop` drops a float negation, leaving its operand.
pub proof fn lemma_constant_and_negation_operators(i: Instruction, cs: Seq<CallRemovalCandidate>)
    ensures
        i == Instruction::I32Const(0) ==> operator_outcome(OperatorKind::ConstReplaceZero, i, cs) == Some(
            (Instruction::I32Const(42), BlockType::Value(ValueType::I32), Seq::<ValueType>::empty()),
        ),
        i == Instruction::I64Const(0) ==> operator_outcome(OperatorKind::ConstReplaceZero, i, cs) == Some(
            (Instruction::I64Const(42), BlockType::Value(ValueType::I64), Seq::<ValueType>::empty()),
        ),
        (i == Instruction::F32Const(0) || i == Instruction::F32Const(0x8000_0000)) ==> operator_outcome(
            OperatorKind::ConstReplaceZero,
            i,
            cs,
        ) == Some((Instruction::F32Const(0x4228_0000), BlockType::Value(ValueType::F32), Seq::<ValueType>::empty())),
        (i == Instruction::F64Const(0) || i == Instruction::F64Const(0x8000_0000_0000_0000)) ==> operator_outcome(
            OperatorKind::ConstReplaceZero,
            i,
            cs,
        ) == Some(
            (
                Instruction::F64Const(0x4045_0000_0000_0000),
                BlockType::Value(ValueType::F64),
                Seq::<ValueType>::empty(),
            ),
        ),
        i matches Instruction::I32Const(v) ==> (v != 0 <==> operator_outcome(OperatorKind::ConstReplaceZero, i, cs)
            is None),
        i matches Instruction::I32Const(v) ==> (v != 0 ==> operator_outcome(OperatorKind::ConstReplaceNonZero, i, cs)
            == Some((Instruction::I32Const(0), BlockType::Value(ValueType::I32), Seq::<ValueType>::empty()))),
        i matches Instruction::I32Const(v) ==> (v == 0 ==> operator_outcome(OperatorKind::ConstReplaceNonZero, i, cs)
            is None),
        i matches Instruction::I64Const(v) ==> (v != 0 ==> operator_outcome(OperatorKind::ConstReplaceNonZero, i, cs)
            == Some((Instruction::I64Const(0), BlockType::Value(ValueType::I64), Seq::<ValueType>::empty()))),
        i matches Instruction::I64Const(v) ==> (v == 0 ==> operator_outcome(OperatorKind::ConstReplaceNonZero, i, cs)
            is None),
        i matches Instruction::F32Const(b) ==> (b != 0 && b != 0x8000_0000 ==> operator_outcome(
            OperatorKind::ConstReplaceNonZero,
            i,
            cs,
        ) == Some((Instruction::F32Const(0), BlockType::Value(ValueType::F32), Seq::<ValueType>::empty()))),
        i matches Instruction::F64Const(b) ==> (b != 0 && b != 0x8000_0000_0000_0000 ==> operator_outcome(
            OperatorKind::ConstReplaceNonZero,
            i,
            cs,
        ) == Some((Instruction::F64Const(0), BlockType::Value(ValueType::F64), Seq::<ValueType>::empty()))),
        i == Instruction::F32Neg ==> operator_outcome(OperatorKind::UnaryOperatorNegToNop, i, cs) == Some(
            (Instruction::Nop, BlockType::Value(ValueType::F32), seq![ValueType::F32]),
        ),
        i == Instruction::F64Neg ==> operator_outcome(OperatorKind::UnaryOperatorNegToNop, i, cs) == Some(
            (Instruction::Nop, BlockType::Value(ValueType::F64), seq![ValueType::F64]),
        ),
        i != Instruction::F32Neg && i != Instruction::F64Neg ==> operator_outcome(
            OperatorKind::UnaryOperatorNegToNop,
            i,
            cs,
        ) is None,
{
}

/// What the call removal operators do: a call of a function that the
/// candidates list as returning nothing is replaced by dropping its
/// arguments; a call of a function listed as returning one value is
/// replaced by dropping its arguments and pushing 42 of the return type.
/// Calls of other functions, and other instructions, are left alone.
pub proof fn lemma_call_removal_operators(f: u32, cs: Seq<CallRemovalCandidate>, i: Instruction)
    ensures
        i == Instruction::Call(f) ==> match find_void_from(cs, f, 0) {
            Some(p) => operator_outcome(OperatorKind::CallRemoveVoidCall, i, cs) == Some(
                (Instruction::Nop, BlockType::NoResult, p),
            ) && replacement_seq(OperatorKind::CallRemoveVoidCall, Instruction::Nop, p) == drops(p.len()) + seq![
                Instruction::Nop,
            ],
            None => operator_outcome(OperatorKind::CallRemoveVoidCall, i, cs) is None,
        },
        i == Instruction::Call(f) ==> match find_scalar_from(cs, f, 0) {
            Some((p, rt)) => operator_outcome(OperatorKind::CallRemoveScalarCall, i, cs) == Some(
                (
                    match rt {
                        ValueType::I32 => Instruction::I32Const(42),
                        ValueType::I64 => Instruction::I64Const(42),
                        ValueType::F32 => Instruction::F32Const(0x4228_0000),
                        ValueType::F64 => Instruction::F64Const(0x4045_0000_0000_0000),
                    },
                    BlockType::Value(rt),
                    p,
                ),
            ),
            None => operator_outcome(OperatorKind::CallRemoveScalarCall, i, cs) is None,
        },
        !(i is Call) ==> operator_outcome(OperatorKind::CallRemoveVoidCall, i, cs) is None
            && operator_outcome(OperatorKind::CallRemoveScalarCall, i, cs) is None,
{
}

/// Every mutant changes the code: the instruction put in place of the
/// original one differs from it, and so does the replacement sequence.
pub proof fn lemma_mutants_change_code(kind: OperatorKind, i: Instruction, cs: Seq<CallRemovalCandidate>)
    requires
        operator_outcome(kind, i, cs) is Some,
    ensures
        ({
            let (n, b, p) = operator_outcome(kind, i, cs).unwrap();
            &&& n != i
            &&& replacement_seq(kind, n, p) != seq![i]
        }),
{
    let (n, b, p) = operator_outcome(kind, i, cs).unwrap();
    match arith_of(i) {
        Some((t, op)) => {
            if !removes_call(kind) && kind != OperatorKind::UnaryOperatorNegToNop && kind != OperatorKind::ConstReplaceZero
                && kind != OperatorKind::ConstReplaceNonZero {
                lemma_arith_roundtrip(t, arith_rule(kind, t, op).unwrap());
            }
        },
        None => match cmp_of(i) {
            Some((t, op)) => {
                if !removes_call(kind) && kind != OperatorKind::UnaryOperatorNegToNop && kind
                    != OperatorKind::ConstReplaceZero && kind != OperatorKind::ConstReplaceNonZero {
                    lemma_cmp_roundtrip(t, cmp_rule(kind, op).unwrap());
                }
            },
            None => {},
        },
    }
    let r = replacement_seq(kind, n, p);
    assert(r[r.len() - 1] == n);
    if r.len() == 1 {
        assert(r[0] != seq![i][0]);
    }
}

/// Every mutant is well typed: when the call removal candidates describe each
/// function at most once, the original instruction consumes the recorded
/// parameter types and leaves the values of the recorded block type, and the
/// replacement code does exactly the same on every stack.
pub proof fn lemma_mutants_preserve_stack_types(
    kind: OperatorKind,
    i: Instruction,
    cs: Seq<CallRemovalCandidate>,
    stack: Seq<ValueType>,
)
    requires
        candidates_distinct(cs),
        operator_outcome(kind, i, cs) is Some,
    ensures
        ({
            let (n, b, p) = operator_outcome(kind, i, cs).unwrap();
            &&& instr_signature(i, cs) == Some((p, block_results(b)))
            &&& type_run(stack + p, seq![i], cs) == Some(stack + block_results(b))
            &&& type_run(stack + p, replacement_seq(kind, n, p), cs) == Some(stack + block_results(b))
        }),
{
    let (n, b, p) = operator_outcome(kind, i, cs).unwrap();
    let r = block_results(b);
    match kind {
        OperatorKind::CallRemoveVoidCall => {
            let f = i->Call_0;
            lemma_call_signature_of_void(cs, f, 0);
            lemma_run_single(stack, i, cs, p, r);
            lemma_run_drops(stack, p, seq![n], cs);
            assert(instr_signature(n, cs) == Some((Seq::<ValueType>::empty(), r)));
            lemma_run_single(stack, n, cs, Seq::empty(), r);
            assert(stack + Seq::<ValueType>::empty() =~= stack);
        },
        OperatorKind::CallRemoveScalarCall => {
            let f = i->Call_0;
            lemma_call_signature_of_scalar(cs, f, 0);
            lemma_run_single(stack, i, cs, p, r);
            lemma_run_drops(stack, p, seq![n], cs);
            assert(instr_signature(n, cs) == Some((Seq::<ValueType>::empty(), r)));
            lemma_run_single(stack, n, cs, Seq::empty(), r);
            assert(stack + Seq::<ValueType>::empty() =~= stack);
        },
        OperatorKind::UnaryOperatorNegToNop => {
            lemma_run_single(stack, i, cs, p, r);
            let st = stack + p;
            assert(instr_signature(n, cs) == Some((Seq::<ValueType>::empty(), Seq::<ValueType>::empty())));
            lemma_run_single(st, n, cs, Seq::empty(), Seq::empty());
            assert(st + Seq::<ValueType>::empty() =~= st);
            assert(st =~= stack + r);
        },
        OperatorKind::ConstReplaceZero | OperatorKind::ConstReplaceNonZero => {
            lemma_run_single(stack, i, cs, p, r);
            lemma_run_single(stack, n, cs, p, r);
        },
        _ => {
            if let Some((t, op)) = arith_of(i) {
                let op2 = arith_rule(kind, t, op).unwrap();
                lemma_arith_roundtrip(t, op2);
            } else {
                let (t, op) = cmp_of(i).unwrap();
                let op2 = cmp_rule(kind, op).unwrap();
                lemma_cmp_roundtrip(t, op2);
            }
            lemma_run_single(stack, i, cs, p, r);
            lemma_run_single(stack, n, cs, p, r);
        },
    }
}


// ---------------------------------------------------------------------------
// Registry
// ---------------------------------------------------------------------------

/// The operators of `kinds` whose name matches one of `patterns`
/// (`enabled`), or whose name matches none of them (`!enabled`), in order.
pub open spec fn select_operators(kinds: Seq<OperatorKind>, patterns: Seq<Seq<char>>, enabled: bool) -> Seq<
    OperatorKind,
>
    decreases kinds.len(),
{
    if kinds.len() == 0 {
        Seq::empty()
    } else {
        let rest = select_operators(kinds.drop_last(), patterns, enabled);
        if any_pattern_matches(patterns, kinds.last().spec_name()) == enabled {
            rest.push(kinds.last())
        } else {
            rest
        }
    }
}

/// The names of a list of operators.
pub open spec fn operator_names(kinds: Seq<OperatorKind>) -> Seq<Seq<char>> {
    kinds.map_values(|k: OperatorKind| k.spec_name())
}

/// What the operators of `kinds`, in order, make of instruction `i`: one
/// entry (operator, original, replacement, block type, parameter types) for
/// each operator that applies.
pub open spec fn mutants_spec(kinds: Seq<OperatorKind>, i: Instruction, cs: Seq<CallRemovalCandidate>) -> Seq<
    (OperatorKind, Instruction, Instruction, BlockType, Seq<ValueType>),
>
    decreases kinds.len(),
{
    if kinds.len() == 0 {
        Seq::empty()
    } else {
        let rest = mutants_spec(kinds.drop_last(), i, cs);
        match operator_outcome(kinds.last(), i, cs) {
            Some((n, b, p)) => rest.push((kinds.last(), i, n, b, p)),
            None => rest,
        }
    }
}

/// Two candidate lists with the same contents.
pub open spec fn same_candidates(a: Seq<CallRemovalCandidate>, b: Seq<CallRemovalCandidate>) -> bool {
    a.map_values(|c: CallRemovalCandidate| candidate_view(c)) == b.map_values(
        |c: CallRemovalCandidate| candidate_view(c),
    )
}

proof fn lemma_find_same_candidates(a: Seq<CallRemovalCandidate>, b: Seq<CallRemovalCandidate>, f: u32, i: int)
    requires
        same_candidates(a, b),
    ensures
        find_void_from(a, f, i) == find_void_from(b, f, i),
        find_scalar_from(a, f, i) == find_scalar_from(b, f, i),
    decreases a.len() - i,
{
    assert(a.len() == b.len()) by {
        assert(a.map_values(|c: CallRemovalCandidate| candidate_view(c)).len() == a.len());
    }
    if 0 <= i < a.len() {
        assert(a.map_values(|c: CallRemovalCandidate| candidate_view(c))[i] == candidate_view(a[i]));
        assert(b.map_values(|c: CallRemovalCandidate| candidate_view(c))[i] == candidate_view(b[i]));
        lemma_find_same_candidates(a, b, f, i + 1);
    }
}

/// What the operators make of an instruction depends on the call removal
/// candidates only through their contents.
pub proof fn lemma_mutants_same_candidates(
    kinds: Seq<OperatorKind>,
    i: Instruction,
    a: Seq<CallRemovalCandidate>,
    b: Seq<CallRemovalCandidate>,
)
    requires
        same_candidates(a, b),
    ensures
        mutants_spec(kinds, i, a) == mutants_spec(kinds, i, b),
    decreases kinds.len(),
{
    if kinds.len() > 0 {
        lemma_mutants_same_candidates(kinds.drop_last(), i, a, b);
        if let Instruction::Call(f) = i {
            lemma_find_same_candidates(a, b, f, 0);
        }
        assert(operator_outcome(kinds.last(), i, a) == operator_outcome(kinds.last(), i, b));
    }
}

/// The abstract content of a replacement.
pub open spec fn replacement_view(r: InstructionReplacement) -> (OperatorKind, Instruction, Instruction, BlockType, Seq<ValueType>) {
    (r.kind, r.old, r.new, r.result_type, r.parameters@)
}

/// Why a registry could not be created.
pub enum RegistryError {
    /// The operator patterns were rejected.
    InvalidOperatorPattern(regex::Error),
}

/// The enabled mutation operators.
pub struct OperatorRegistry {
    operators: Vec<OperatorKind>,
    enabled_operator_names: Vec<String>,
    disabled_operator_names: Vec<String>,
}

impl OperatorRegistry {
    pub closed spec fn spec_operators(&self) -> Seq<OperatorKind> {
        self.operators@
    }

    pub closed spec fn spec_enabled_names(&self) -> Seq<Seq<char>> {
        strings_view(self.enabled_operator_names@)
    }

    pub closed spec fn spec_disabled_names(&self) -> Seq<Seq<char>> {
        strings_view(self.disabled_operator_names@)
    }

    /// A registry in which exactly the operators whose name matches one of
    /// the patterns are enabled, in registration order.
    pub fn new(enabled_ops: &Vec<String>) -> (r: Result<Self, RegistryError>)
        ensures
            r is Ok <==> regex_set_compiles(strings_view(enabled_ops@)),
            all_empty(strings_view(enabled_ops@)) ==> r is Ok,
            r matches Ok(reg) ==> {
                let ps = strings_view(enabled_ops@);
                &&& reg.spec_operators() == select_operators(registration_order(), ps, true)
                &&& reg.spec_enabled_names() == operator_names(reg.spec_operators())
                &&& reg.spec_disabled_names() == operator_names(
                    select_operators(registration_order(), ps, false),
                )
            },
            r matches Ok(reg) ==> (strings_view(enabled_ops@).contains(Seq::<char>::empty()) ==> {
                &&& reg.spec_operators() == registration_order()
                &&& reg.spec_disabled_names() == Seq::<Seq<char>>::empty()
            }),
    {
        let set = match regex_set_new(enabled_ops) {
            Ok(s) => s,
            Err(e) => return Err(RegistryError::InvalidOperatorPattern(e)),
        };
        let ghost ps = strings_view(enabled_ops@);
        let kinds = all_operator_kinds();
        let mut operators: Vec<OperatorKind> = Vec::new();
        let mut enabled_operator_names: Vec<String> = Vec::new();
        let mut disabled_operator_names: Vec<String> = Vec::new();
        let mut i: usize = 0;
        while i < kinds.len()
            invariant
                kinds@ == registration_order(),
                i <= kinds@.len(),
                crate::patterns::regex_set_patterns(set) == ps,
                operators@ == select_operators(kinds@.subrange(0, i as int), ps, true),
                strings_view(enabled_operator_names@) == operator_names(operators@),
                strings_view(disabled_operator_names@) == operator_names(
                    select_operators(kinds@.subrange(0, i as int), ps, false),
                ),
                ps.contains(Seq::<char>::empty()) ==> operators@ == kinds@.subrange(0, i as int),
                ps.contains(Seq::<char>::empty()) ==> disabled_operator_names@.len() == 0,
            decreases kinds.len() - i,
        {
            let k = kinds[i];
            let name = k.name();
            let ghost prev_dis = select_operators(kinds@.subrange(0, i as int), ps, false);
            proof {
                assert(kinds@.subrange(0, i + 1).drop_last() =~= kinds@.subrange(0, i as int));
                assert(kinds@.subrange(0, i + 1).last() == k);
            }
            let ghost old_ops = operators@;
            let ghost old_en = enabled_operator_names@;
            let ghost old_dis = disabled_operator_names@;
            let s = String::from_str(name);
            if regex_set_is_match(&set, name) {
                operators.push(k);
                enabled_operator_names.push(s);
                proof {
                    assert(strings_view(old_en.push(s)) =~= strings_view(old_en).push(s@));
                    assert(operator_names(old_ops.push(k)) =~= operator_names(old_ops).push(k.spec_name()));
                    assert(select_operators(kinds@.subrange(0, i + 1), ps, false) == prev_dis);
                    assert(ps.contains(Seq::<char>::empty()) ==> operators@ =~= kinds@.subrange(0, i + 1));
                }
            } else {
                disabled_operator_names.push(s);
                proof {
                    assert(strings_view(old_dis.push(s)) =~= strings_view(old_dis).push(s@));
                    assert(operator_names(prev_dis.push(k)) =~= operator_names(prev_dis).push(k.spec_name()));
                }
            }
            i = i + 1;
        }
        proof {
            assert(kinds@.subrange(0, i as int) =~= kinds@);
            if ps.contains(Seq::<char>::empty()) {
                assert(strings_view(disabled_operator_names@) =~= Seq::<Seq<char>>::empty());
            }
        }
        Ok(OperatorRegistry { operators, enabled_operator_names, disabled_operator_names })
    }

    /// All replacements that the enabled operators, in registration order,
    /// make of `instruction`.
    pub fn mutants_for_instruction(&self, instruction: &Instruction, context: &InstructionContext) -> (r: Vec<
        InstructionReplacement,
    >)
        ensures
            r@.map_values(|x: InstructionReplacement| replacement_view(x)) == mutants_spec(
                self.spec_operators(),
                *instruction,
                context@,
            ),
    {
        let mut results: Vec<InstructionReplacement> = Vec::new();
        let mut i: usize = 0;
        while i < self.operators.len()
            invariant
                i <= self.operators@.len(),
                results@.map_values(|x: InstructionReplacement| replacement_view(x)) == mutants_spec(
                    self.operators@.subrange(0, i as int),
                    *instruction,
                    context@,
                ),
            decreases self.operators.len() - i,
        {
            let k = self.operators[i];
            proof {
                assert(self.operators@.subrange(0, i + 1).drop_last() =~= self.operators@.subrange(0, i as int));
                assert(self.operators@.subrange(0, i + 1).last() == k);
            }
            match InstructionReplacement::new(k, instruction, context) {
                Some(op) => {
                    results.push(op);
                    proof {
                        assert(results@.map_values(|x: InstructionReplacement| replacement_view(x)) =~= mutants_spec(
                            self.operators@.subrange(0, i + 1),
                            *instruction,
                            context@,
                        ));
                    }
                },
                None => {},
            }
            i = i + 1;
        }
        proof {
            assert(self.operators@.subrange(0, i as int) =~= self.operators@);
        }
        results
    }

    /// The number of enabled operators.
    pub fn number_of_operators(&self) -> (r: usize)
        ensures
            r == self.spec_operators().len(),
    {
        self.operators.len()
    }

    /// The names of the enabled operators, in registration order.
    pub fn enabled_operators(&self) -> (r: &Vec<String>)
        ensures
            strings_view(r@) == self.spec_enabled_names(),
    {
        &self.enabled_operator_names
    }

    /// The names of the disabled operators, in registration order.
    pub fn disabled_operators(&self) -> (r: &Vec<String>)
        ensures
            strings_view(r@) == self.spec_disabled_names(),
    {
        &self.disabled_operator_names
    }
}

} // verus!
