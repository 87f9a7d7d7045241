//! The slice of the WebAssembly instruction set that the mutation engine
//! reads or writes, together with its stack typing.
use vstd::prelude::*;

verus! {

/// WebAssembly number types.
#[derive(Clone, Copy, Debug, PartialEq, Eq, Structural)]
pub enum ValueType {
    I32,
    I64,
    F32,
    F64,
}

/// The result type of a structured block (`if`, `block`, ...).
#[derive(Clone, Copy, Debug, PartialEq, Eq, Structural)]
pub enum BlockType {
    NoResult,
    Value(ValueType),
}

/// A WebAssembly instruction.
///
/// Every instruction that a mutation operator inspects or produces has a
/// variant of its own. Any other instruction of a module is carried as
/// `Other(handle)`, where the handle is chosen by whoever decoded the module
/// and lets it restore the instruction when the module is encoded again.
#[derive(Clone, Copy, Debug, PartialEq, Eq, Structural)]
pub enum Instruction {
    I32Add,
    I64Add,
    F32Add,
    F64Add,
    I32Sub,
    I64Sub,
    F32Sub,
    F64Sub,
    I32Mul,
    I64Mul,
    F32Mul,
    F64Mul,
    I32DivS,
    I32DivU,
    I64DivS,
    I64DivU,
    F32Div,
    F64Div,
    I32RemS,
    I32RemU,
    I64RemS,
    I64RemU,
    I32And,
    I64And,
    I32Or,
    I64Or,
    I32Xor,
    I64Xor,
    I32Shl,
    I64Shl,
    I32ShrS,
    I32ShrU,
    I64ShrS,
    I64ShrU,
    I32Rotl,
    I32Rotr,
    I64Rotl,
    I64Rotr,
    F32Neg,
    F64Neg,
    I32Eq,
    I32Ne,
    I64Eq,
    I64Ne,
    F32Eq,
    F32Ne,
    F64Eq,
    F64Ne,
    I32LtS,
    I32LtU,
    I64LtS,
    I64LtU,
    F32Lt,
    F64Lt,
    I32GtS,
    I32GtU,
    I64GtS,
    I64GtU,
    F32Gt,
    F64Gt,
    I32LeS,
    I32LeU,
    I64LeS,
    I64LeU,
    F32Le,
    F64Le,
    I32GeS,
    I32GeU,
    I64GeS,
    I64GeU,
    F32Ge,
    F64Ge,
    I32Const(i32),
    I64Const(i64),
    /// A 32-bit float constant, given by its IEEE 754 bit pattern.
    F32Const(u32),
    /// A 64-bit float constant, given by its IEEE 754 bit pattern.
    F64Const(u64),
    Call(u32),
    Drop,
    Nop,
    If(BlockType),
    Else,
    End,
    GetGlobal(u32),
    SetGlobal(u32),
    Other(u32),
}

/// Two-operand arithmetic and bitwise operations.
#[derive(Clone, Copy, Debug, PartialEq, Eq, Structural)]
pub enum ArithOp {
    Add,
    Sub,
    Mul,
    /// Signed integer division.
    DivS,
    /// Unsigned integer division.
    DivU,
    /// Float division.
    Div,
    RemS,
    RemU,
    And,
    Or,
    Xor,
    Shl,
    ShrS,
    ShrU,
    Rotl,
    Rotr,
}

/// Comparison operations; the `S`/`U` suffix gives the signedness of an
/// integer comparison, float comparisons carry none.
#[derive(Clone, Copy, Debug, PartialEq, Eq, Structural)]
pub enum CmpOp {
    Eq,
    Ne,
    LtS,
    LtU,
    Lt,
    GtS,
    GtU,
    Gt,
    LeS,
    LeU,
    Le,
    GeS,
    GeU,
    Ge,
}

/// The operand type and operation of a two-operand arithmetic instruction.
pub open spec fn arith_of(i: Instruction) -> Option<(ValueType, ArithOp)> {
    match i {
        Instruction::I32Add => Some((ValueType::I32, ArithOp::Add)),
        Instruction::I64Add => Some((ValueType::I64, ArithOp::Add)),
        Instruction::F32Add => Some((ValueType::F32, ArithOp::Add)),
        Instruction::F64Add => Some((ValueType::F64, ArithOp::Add)),
        Instruction::I32Sub => Some((ValueType::I32, ArithOp::Sub)),
        Instruction::I64Sub => Some((ValueType::I64, ArithOp::Sub)),
        Instruction::F32Sub => Some((ValueType::F32, ArithOp::Sub)),
        Instruction::F64Sub => Some((ValueType::F64, ArithOp::Sub)),
        Instruction::I32Mul => Some((ValueType::I32, ArithOp::Mul)),
        Instruction::I64Mul => Some((ValueType::I64, ArithOp::Mul)),
        Instruction::F32Mul => Some((ValueType::F32, ArithOp::Mul)),
        Instruction::F64Mul => Some((ValueType::F64, ArithOp::Mul)),
        Instruction::I32DivS => Some((ValueType::I32, ArithOp::DivS)),
        Instruction::I32DivU => Some((ValueType::I32, ArithOp::DivU)),
        Instruction::I64DivS => Some((ValueType::I64, ArithOp::DivS)),
        Instruction::I64DivU => Some((ValueType::I64, ArithOp::DivU)),
        Instruction::F32Div => Some((ValueType::F32, ArithOp::Div)),
        Instruction::F64Div => Some((ValueType::F64, ArithOp::Div)),
        Instruction::I32RemS => Some((ValueType::I32, ArithOp::RemS)),
        Instruction::I32RemU => Some((ValueType::I32, ArithOp::RemU)),
        Instruction::I64RemS => Some((ValueType::I64, ArithOp::RemS)),
        Instruction::I64RemU => Some((ValueType::I64, ArithOp::RemU)),
        Instruction::I32And => Some((ValueType::I32, ArithOp::And)),
        Instruction::I64And => Some((ValueType::I64, ArithOp::And)),
        Instruction::I32Or => Some((ValueType::I32, ArithOp::Or)),
        Instruction::I64Or => Some((ValueType::I64, ArithOp::Or)),
        Instruction::I32Xor => Some((ValueType::I32, ArithOp::Xor)),
        Instruction::I64Xor => Some((ValueType::I64, ArithOp::Xor)),
        Instruction::I32Shl => Some((ValueType::I32, ArithOp::Shl)),
        Instruction::I64Shl => Some((ValueType::I64, ArithOp::Shl)),
        Instruction::I32ShrS => Some((ValueType::I32, ArithOp::ShrS)),
        Instruction::I32ShrU => Some((ValueType::I32, ArithOp::ShrU)),
        Instruction::I64ShrS => Some((ValueType::I64, ArithOp::ShrS)),
        Instruction::I64ShrU => Some((ValueType::I64, ArithOp::ShrU)),
        Instruction::I32Rotl => Some((ValueType::I32, ArithOp::Rotl)),
        Instruction::I32Rotr => Some((ValueType::I32, ArithOp::Rotr)),
        Instruction::I64Rotl => Some((ValueType::I64, ArithOp::Rotl)),
        Instruction::I64Rotr => Some((ValueType::I64, ArithOp::Rotr)),
        _ => None,
    }
}

/// The arithmetic instruction with operand type `t` and operation `op`, if
/// WebAssembly has one.
pub open spec fn arith_instr(t: ValueType, op: ArithOp) -> Option<Instruction> {
    match (t, op) {
        (ValueType::I32, ArithOp::Add) => Some(Instruction::I32Add),
        (ValueType::I64, ArithOp::Add) => Some(Instruction::I64Add),
        (ValueType::F32, ArithOp::Add) => Some(Instruction::F32Add),
        (ValueType::F64, ArithOp::Add) => Some(Instruction::F64Add),
        (ValueType::I32, ArithOp::Sub) => Some(Instruction::I32Sub),
        (ValueType::I64, ArithOp::Sub) => Some(Instruction::I64Sub),
        (ValueType::F32, ArithOp::Sub) => Some(Instruction::F32Sub),
        (ValueType::F64, ArithOp::Sub) => Some(Instruction::F64Sub),
        (ValueType::I32, ArithOp::Mul) => Some(Instruction::I32Mul),
        (ValueType::I64, ArithOp::Mul) => Some(Instruction::I64Mul),
        (ValueType::F32, ArithOp::Mul) => Some(Instruction::F32Mul),
        (ValueType::F64, ArithOp::Mul) => Some(Instruction::F64Mul),
        (ValueType::I32, ArithOp::DivS) => Some(Instruction::I32DivS),
        (ValueType::I32, ArithOp::DivU) => Some(Instruction::I32DivU),
        (ValueType::I64, ArithOp::DivS) => Some(Instruction::I64DivS),
        (ValueType::I64, ArithOp::DivU) => Some(Instruction::I64DivU),
        (ValueType::F32, ArithOp::Div) => Some(Instruction::F32Div),
        (ValueType::F64, ArithOp::Div) => Some(Instruction::F64Div),
        (ValueType::I32, ArithOp::RemS) => Some(Instruction::I32RemS),
        (ValueType::I32, ArithOp::RemU) => Some(Instruction::I32RemU),
        (ValueType::I64, ArithOp::RemS) => Some(Instruction::I64RemS),
        (ValueType::I64, ArithOp::RemU) => Some(Instruction::I64RemU),
        (ValueType::I32, ArithOp::And) => Some(Instruction::I32And),
        (ValueType::I64, ArithOp::And) => Some(Instruction::I64And),
        (ValueType::I32, ArithOp::Or) => Some(Instruction::I32Or),
        (ValueType::I64, ArithOp::Or) => Some(Instruction::I64Or),
        (ValueType::I32, ArithOp::Xor) => Some(Instruction::I32Xor),
        (ValueType::I64, ArithOp::Xor) => Some(Instruction::I64Xor),
        (ValueType::I32, ArithOp::Shl) => Some(Instruction::I32Shl),
        (ValueType::I64, ArithOp::Shl) => Some(Instruction::I64Shl),
        (ValueType::I32, ArithOp::ShrS) => Some(Instruction::I32ShrS),
        (ValueType::I32, ArithOp::ShrU) => Some(Instruction::I32ShrU),
        (ValueType::I64, ArithOp::ShrS) => Some(Instruction::I64ShrS),
        (ValueType::I64, ArithOp::ShrU) => Some(Instruction::I64ShrU),
        (ValueType::I32, ArithOp::Rotl) => Some(Instruction::I32Rotl),
        (ValueType::I32, ArithOp::Rotr) => Some(Instruction::I32Rotr),
        (ValueType::I64, ArithOp::Rotl) => Some(Instruction::I64Rotl),
        (ValueType::I64, ArithOp::Rotr) => Some(Instruction::I64Rotr),
        _ => None,
    }
}

/// The operand type and operation of a comparison instruction.
pub open spec fn cmp_of(i: Instruction) -> Option<(ValueType, CmpOp)> {
    match i {
        Instruction::I32Eq => Some((ValueType::I32, CmpOp::Eq)),
        Instruction::I32Ne => Some((ValueType::I32, CmpOp::Ne)),
        Instruction::I64Eq => Some((ValueType::I64, CmpOp::Eq)),
        Instruction::I64Ne => Some((ValueType::I64, CmpOp::Ne)),
        Instruction::F32Eq => Some((ValueType::F32, CmpOp::Eq)),
        Instruction::F32Ne => Some((ValueType::F32, CmpOp::Ne)),
        Instruction::F64Eq => Some((ValueType::F64, CmpOp::Eq)),
        Instruction::F64Ne => Some((ValueType::F64, CmpOp::Ne)),
        Instruction::I32LtS => Some((ValueType::I32, CmpOp::LtS)),
        Instruction::I32LtU => Some((ValueType::I32, CmpOp::LtU)),
        Instruction::I64LtS => Some((ValueType::I64, CmpOp::LtS)),
        Instruction::I64LtU => Some((ValueType::I64, CmpOp::LtU)),
        Instruction::F32Lt => Some((ValueType::F32, CmpOp::Lt)),
        Instruction::F64Lt => Some((ValueType::F64, CmpOp::Lt)),
        Instruction::I32GtS => Some((ValueType::I32, CmpOp::GtS)),
        Instruction::I32GtU => Some((ValueType::I32, CmpOp::GtU)),
        Instruction::I64GtS => Some((ValueType::I64, CmpOp::GtS)),
        Instruction::I64GtU => Some((ValueType::I64, CmpOp::GtU)),
        Instruction::F32Gt => Some((ValueType::F32, CmpOp::Gt)),
        Instruction::F64Gt => Some((ValueType::F64, CmpOp::Gt)),
        Instruction::I32LeS => Some((ValueType::I32, CmpOp::LeS)),
        Instruction::I32LeU => Some((ValueType::I32, CmpOp::LeU)),
        Instruction::I64LeS => Some((ValueType::I64, CmpOp::LeS)),
        Instruction::I64LeU => Some((ValueType::I64, CmpOp::LeU)),
        Instruction::F32Le => Some((ValueType::F32, CmpOp::Le)),
        Instruction::F64Le => Some((ValueType::F64, CmpOp::Le)),
        Instruction::I32GeS => Some((ValueType::I32, CmpOp::GeS)),
        Instruction::I32GeU => Some((ValueType::I32, CmpOp::GeU)),
        Instruction::I64GeS => Some((ValueType::I64, CmpOp::GeS)),
        Instruction::I64GeU => Some((ValueType::I64, CmpOp::GeU)),
        Instruction::F32Ge => Some((ValueType::F32, CmpOp::Ge)),
        Instruction::F64Ge => Some((ValueType::F64, CmpOp::Ge)),
        _ => None,
    }
}

/// The comparison instruction with operand type `t` and operation `op`, if
/// WebAssembly has one.
pub open spec fn cmp_instr(t: ValueType, op: CmpOp) -> Option<Instruction> {
    match (t, op) {
        (ValueType::I32, CmpOp::Eq) => Some(Instruction::I32Eq),
        (ValueType::I32, CmpOp::Ne) => Some(Instruction::I32Ne),
        (ValueType::I64, CmpOp::Eq) => Some(Instruction::I64Eq),
        (ValueType::I64, CmpOp::Ne) => Some(Instruction::I64Ne),
        (ValueType::F32, CmpOp::Eq) => Some(Instruction::F32Eq),
        (ValueType::F32, CmpOp::Ne) => Some(Instruction::F32Ne),
        (ValueType::F64, CmpOp::Eq) => Some(Instruction::F64Eq),
        (ValueType::F64, CmpOp::Ne) => Some(Instruction::F64Ne),
        (ValueType::I32, CmpOp::LtS) => Some(Instruction::I32LtS),
        (ValueType::I32, CmpOp::LtU) => Some(Instruction::I32LtU),
        (ValueType::I64, CmpOp::LtS) => Some(Instruction::I64LtS),
        (ValueType::I64, CmpOp::LtU) => Some(Instruction::I64LtU),
        (ValueType::F32, CmpOp::Lt) => Some(Instruction::F32Lt),
        (ValueType::F64, CmpOp::Lt) => Some(Instruction::F64Lt),
        (ValueType::I32, CmpOp::GtS) => Some(Instruction::I32GtS),
        (ValueType::I32, CmpOp::GtU) => Some(Instruction::I32GtU),
        (ValueType::I64, CmpOp::GtS) => Some(Instruction::I64GtS),
        (ValueType::I64, CmpOp::GtU) => Some(Instruction::I64GtU),
        (ValueType::F32, CmpOp::Gt) => Some(Instruction::F32Gt),
        (ValueType::F64, CmpOp::Gt) => Some(Instruction::F64Gt),
        (ValueType::I32, CmpOp::LeS) => Some(Instruction::I32LeS),
        (ValueType::I32, CmpOp::LeU) => Some(Instruction::I32LeU),
        (ValueType::I64, CmpOp::LeS) => Some(Instruction::I64LeS),
        (ValueType::I64, CmpOp::LeU) => Some(Instruction::I64LeU),
        (ValueType::F32, CmpOp::Le) => Some(Instruction::F32Le),
        (ValueType::F64, CmpOp::Le) => Some(Instruction::F64Le),
        (ValueType::I32, CmpOp::GeS) => Some(Instruction::I32GeS),
        (ValueType::I32, CmpOp::GeU) => Some(Instruction::I32GeU),
        (ValueType::I64, CmpOp::GeS) => Some(Instruction::I64GeS),
        (ValueType::I64, CmpOp::GeU) => Some(Instruction::I64GeU),
        (ValueType::F32, CmpOp::Ge) => Some(Instruction::F32Ge),
        (ValueType::F64, CmpOp::Ge) => Some(Instruction::F64Ge),
        _ => None,
    }
}

/// The operand type of a negation instruction.
pub open spec fn neg_of(i: Instruction) -> Option<ValueType> {
    match i {
        Instruction::F32Neg => Some(ValueType::F32),
        Instruction::F64Neg => Some(ValueType::F64),
        _ => None,
    }
}

/// Integer types.
pub open spec fn is_int(t: ValueType) -> bool {
    t == ValueType::I32 || t == ValueType::I64
}

/// Classify an arithmetic instruction.
pub fn arith_of_exec(i: &Instruction) -> (r: Option<(ValueType, ArithOp)>)
    ensures
        r == arith_of(*i),
{
    match i {
        Instruction::I32Add => Some((ValueType::I32, ArithOp::Add)),
        Instruction::I64Add => Some((ValueType::I64, ArithOp::Add)),
        Instruction::F32Add => Some((ValueType::F32, ArithOp::Add)),
        Instruction::F64Add => Some((ValueType::F64, ArithOp::Add)),
        Instruction::I32Sub => Some((ValueType::I32, ArithOp::Sub)),
        Instruction::I64Sub => Some((ValueType::I64, ArithOp::Sub)),
        Instruction::F32Sub => Some((ValueType::F32, ArithOp::Sub)),
        Instruction::F64Sub => Some((ValueType::F64, ArithOp::Sub)),
        Instruction::I32Mul => Some((ValueType::I32, ArithOp::Mul)),
        Instruction::I64Mul => Some((ValueType::I64, ArithOp::Mul)),
        Instruction::F32Mul => Some((ValueType::F32, ArithOp::Mul)),
        Instruction::F64Mul => Some((ValueType::F64, ArithOp::Mul)),
        Instruction::I32DivS => Some((ValueType::I32, ArithOp::DivS)),
        Instruction::I32DivU => Some((ValueType::I32, ArithOp::DivU)),
        Instruction::I64DivS => Some((ValueType::I64, ArithOp::DivS)),
        Instruction::I64DivU => Some((ValueType::I64, ArithOp::DivU)),
        Instruction::F32Div => Some((ValueType::F32, ArithOp::Div)),
        Instruction::F64Div => Some((ValueType::F64, ArithOp::Div)),
        Instruction::I32RemS => Some((ValueType::I32, ArithOp::RemS)),
        Instruction::I32RemU => Some((ValueType::I32, ArithOp::RemU)),
        Instruction::I64RemS => Some((ValueType::I64, ArithOp::RemS)),
        Instruction::I64RemU => Some((ValueType::I64, ArithOp::RemU)),
        Instruction::I32And => Some((ValueType::I32, ArithOp::And)),
        Instruction::I64And => Some((ValueType::I64, ArithOp::And)),
        Instruction::I32Or => Some((ValueType::I32, ArithOp::Or)),
        Instruction::I64Or => Some((ValueType::I64, ArithOp::Or)),
        Instruction::I32Xor => Some((ValueType::I32, ArithOp::Xor)),
        Instruction::I64Xor => Some((ValueType::I64, ArithOp::Xor)),
        Instruction::I32Shl => Some((ValueType::I32, ArithOp::Shl)),
        Instruction::I64Shl => Some((ValueType::I64, ArithOp::Shl)),
        Instruction::I32ShrS => Some((ValueType::I32, ArithOp::ShrS)),
        Instruction::I32ShrU => Some((ValueType::I32, ArithOp::ShrU)),
        Instruction::I64ShrS => Some((ValueType::I64, ArithOp::ShrS)),
        Instruction::I64ShrU => Some((ValueType::I64, ArithOp::ShrU)),
        Instruction::I32Rotl => Some((ValueType::I32, ArithOp::Rotl)),
        Instruction::I32Rotr => Some((ValueType::I32, ArithOp::Rotr)),
        Instruction::I64Rotl => Some((ValueType::I64, ArithOp::Rotl)),
        Instruction::I64Rotr => Some((ValueType::I64, ArithOp::Rotr)),
        _ => None,
    }
}

/// Build an arithmetic instruction.
pub fn arith_instr_exec(t: ValueType, op: ArithOp) -> (r: Option<Instruction>)
    ensures
        r == arith_instr(t, op),
{
    match (t, op) {
        (ValueType::I32, ArithOp::Add) => Some(Instruction::I32Add),
        (ValueType::I64, ArithOp::Add) => Some(Instruction::I64Add),
        (ValueType::F32, ArithOp::Add) => Some(Instruction::F32Add),
        (ValueType::F64, ArithOp::Add) => Some(Instruction::F64Add),
        (ValueType::I32, ArithOp::Sub) => Some(Instruction::I32Sub),
        (ValueType::I64, ArithOp::Sub) => Some(Instruction::I64Sub),
        (ValueType::F32, ArithOp::Sub) => Some(Instruction::F32Sub),
        (ValueType::F64, ArithOp::Sub) => Some(Instruction::F64Sub),
        (ValueType::I32, ArithOp::Mul) => Some(Instruction::I32Mul),
        (ValueType::I64, ArithOp::Mul) => Some(Instruction::I64Mul),
        (ValueType::F32, ArithOp::Mul) => Some(Instruction::F32Mul),
        (ValueType::F64, ArithOp::Mul) => Some(Instruction::F64Mul),
        (ValueType::I32, ArithOp::DivS) => Some(Instruction::I32DivS),
        (ValueType::I32, ArithOp::DivU) => Some(Instruction::I32DivU),
        (ValueType::I64, ArithOp::DivS) => Some(Instruction::I64DivS),
        (ValueType::I64, ArithOp::DivU) => Some(Instruction::I64DivU),
        (ValueType::F32, ArithOp::Div) => Some(Instruction::F32Div),
        (ValueType::F64, ArithOp::Div) => Some(Instruction::F64Div),
        (ValueType::I32, ArithOp::RemS) => Some(Instruction::I32RemS),
        (ValueType::I32, ArithOp::RemU) => Some(Instruction::I32RemU),
        (ValueType::I64, ArithOp::RemS) => Some(Instruction::I64RemS),
        (ValueType::I64, ArithOp::RemU) => Some(Instruction::I64RemU),
        (ValueType::I32, ArithOp::And) => Some(Instruction::I32And),
        (ValueType::I64, ArithOp::And) => Some(Instruction::I64And),
        (ValueType::I32, ArithOp::Or) => Some(Instruction::I32Or),
        (ValueType::I64, ArithOp::Or) => Some(Instruction::I64Or),
        (ValueType::I32, ArithOp::Xor) => Some(Instruction::I32Xor),
        (ValueType::I64, ArithOp::Xor) => Some(Instruction::I64Xor),
        (ValueType::I32, ArithOp::Shl) => Some(Instruction::I32Shl),
        (ValueType::I64, ArithOp::Shl) => Some(Instruction::I64Shl),
        (ValueType::I32, ArithOp::ShrS) => Some(Instruction::I32ShrS),
        (ValueType::I32, ArithOp::ShrU) => Some(Instruction::I32ShrU),
        (ValueType::I64, ArithOp::ShrS) => Some(Instruction::I64ShrS),
        (ValueType::I64, ArithOp::ShrU) => Some(Instruction::I64ShrU),
        (ValueType::I32, ArithOp::Rotl) => Some(Instruction::I32Rotl),
        (ValueType::I32, ArithOp::Rotr) => Some(Instruction::I32Rotr),
        (ValueType::I64, ArithOp::Rotl) => Some(Instruction::I64Rotl),
        (ValueType::I64, ArithOp::Rotr) => Some(Instruction::I64Rotr),
        _ => None,
    }
}

/// Classify a comparison instruction.
pub fn cmp_of_exec(i: &Instruction) -> (r: Option<(ValueType, CmpOp)>)
    ensures
        r == cmp_of(*i),
{
    match i {
        Instruction::I32Eq => Some((ValueType::I32, CmpOp::Eq)),
        Instruction::I32Ne => Some((ValueType::I32, CmpOp::Ne)),
        Instruction::I64Eq => Some((ValueType::I64, CmpOp::Eq)),
        Instruction::I64Ne => Some((ValueType::I64, CmpOp::Ne)),
        Instruction::F32Eq => Some((ValueType::F32, CmpOp::Eq)),
        Instruction::F32Ne => Some((ValueType::F32, CmpOp::Ne)),
        Instruction::F64Eq => Some((ValueType::F64, CmpOp::Eq)),
        Instruction::F64Ne => Some((ValueType::F64, CmpOp::Ne)),
        Instruction::I32LtS => Some((ValueType::I32, CmpOp::LtS)),
        Instruction::I32LtU => Some((ValueType::I32, CmpOp::LtU)),
        Instruction::I64LtS => Some((ValueType::I64, CmpOp::LtS)),
        Instruction::I64LtU => Some((ValueType::I64, CmpOp::LtU)),
        Instruction::F32Lt => Some((ValueType::F32, CmpOp::Lt)),
        Instruction::F64Lt => Some((ValueType::F64, CmpOp::Lt)),
        Instruction::I32GtS => Some((ValueType::I32, CmpOp::GtS)),
        Instruction::I32GtU => Some((ValueType::I32, CmpOp::GtU)),
        Instruction::I64GtS => Some((ValueType::I64, CmpOp::GtS)),
        Instruction::I64GtU => Some((ValueType::I64, CmpOp::GtU)),
        Instruction::F32Gt => Some((ValueType::F32, CmpOp::Gt)),
        Instruction::F64Gt => Some((ValueType::F64, CmpOp::Gt)),
        Instruction::I32LeS => Some((ValueType::I32, CmpOp::LeS)),
        Instruction::I32LeU => Some((ValueType::I32, CmpOp::LeU)),
        Instruction::I64LeS => Some((ValueType::I64, CmpOp::LeS)),
        Instruction::I64LeU => Some((ValueType::I64, CmpOp::LeU)),
        Instruction::F32Le => Some((ValueType::F32, CmpOp::Le)),
        Instruction::F64Le => Some((ValueType::F64, CmpOp::Le)),
        Instruction::I32GeS => Some((ValueType::I32, CmpOp::GeS)),
        Instruction::I32GeU => Some((ValueType::I32, CmpOp::GeU)),
        Instruction::I64GeS => Some((ValueType::I64, CmpOp::GeS)),
        Instruction::I64GeU => Some((ValueType::I64, CmpOp::GeU)),
        Instruction::F32Ge => Some((ValueType::F32, CmpOp::Ge)),
        Instruction::F64Ge => Some((ValueType::F64, CmpOp::Ge)),
        _ => None,
    }
}

/// Build a comparison instruction.
pub fn cmp_instr_exec(t: ValueType, op: CmpOp) -> (r: Option<Instruction>)
    ensures
        r == cmp_instr(t, op),
{
    match (t, op) {
        (ValueType::I32, CmpOp::Eq) => Some(Instruction::I32Eq),
        (ValueType::I32, CmpOp::Ne) => Some(Instruction::I32Ne),
        (ValueType::I64, CmpOp::Eq) => Some(Instruction::I64Eq),
        (ValueType::I64, CmpOp::Ne) => Some(Instruction::I64Ne),
        (ValueType::F32, CmpOp::Eq) => Some(Instruction::F32Eq),
        (ValueType::F32, CmpOp::Ne) => Some(Instruction::F32Ne),
        (ValueType::F64, CmpOp::Eq) => Some(Instruction::F64Eq),
        (ValueType::F64, CmpOp::Ne) => Some(Instruction::F64Ne),
        (ValueType::I32, CmpOp::LtS) => Some(Instruction::I32LtS),
        (ValueType::I32, CmpOp::LtU) => Some(Instruction::I32LtU),
        (ValueType::I64, CmpOp::LtS) => Some(Instruction::I64LtS),
        (ValueType::I64, CmpOp::LtU) => Some(Instruction::I64LtU),
        (ValueType::F32, CmpOp::Lt) => Some(Instruction::F32Lt),
        (ValueType::F64, CmpOp::Lt) => Some(Instruction::F64Lt),
        (ValueType::I32, CmpOp::GtS) => Some(Instruction::I32GtS),
        (ValueType::I32, CmpOp::GtU) => Some(Instruction::I32GtU),
        (ValueType::I64, CmpOp::GtS) => Some(Instruction::I64GtS),
        (ValueType::I64, CmpOp::GtU) => Some(Instruction::I64GtU),
        (ValueType::F32, CmpOp::Gt) => Some(Instruction::F32Gt),
        (ValueType::F64, CmpOp::Gt) => Some(Instruction::F64Gt),
        (ValueType::I32, CmpOp::LeS) => Some(Instruction::I32LeS),
        (ValueType::I32, CmpOp::LeU) => Some(Instruction::I32LeU),
        (ValueType::I64, CmpOp::LeS) => Some(Instruction::I64LeS),
        (ValueType::I64, CmpOp::LeU) => Some(Instruction::I64LeU),
        (ValueType::F32, CmpOp::Le) => Some(Instruction::F32Le),
        (ValueType::F64, CmpOp::Le) => Some(Instruction::F64Le),
        (ValueType::I32, CmpOp::GeS) => Some(Instruction::I32GeS),
        (ValueType::I32, CmpOp::GeU) => Some(Instruction::I32GeU),
        (ValueType::I64, CmpOp::GeS) => Some(Instruction::I64GeS),
        (ValueType::I64, CmpOp::GeU) => Some(Instruction::I64GeU),
        (ValueType::F32, CmpOp::Ge) => Some(Instruction::F32Ge),
        (ValueType::F64, CmpOp::Ge) => Some(Instruction::F64Ge),
        _ => None,
    }
}

} // verus!

verus! {

/// The values that a block of the given type leaves on the stack.
pub open spec fn block_results(b: BlockType) -> Seq<ValueType> {
    match b {
        BlockType::NoResult => Seq::empty(),
        BlockType::Value(t) => seq![t],
    }
}

/// Bit pattern of the 32-bit float 42.0.
pub const F32_FORTY_TWO: u32 = 0x4228_0000u32;

/// Bit pattern of the 64-bit float 42.0.
pub const F64_FORTY_TWO: u64 = 0x4045_0000_0000_0000u64;

/// A 32-bit float bit pattern denotes zero (positive or negative).
pub open spec fn f32_bits_zero(b: u32) -> bool {
    b == 0 || b == 0x8000_0000
}

/// A 64-bit float bit pattern denotes zero (positive or negative).
pub open spec fn f64_bits_zero(b: u64) -> bool {
    b == 0 || b == 0x8000_0000_0000_0000
}

/// The constant 42 of the given type.
pub open spec fn forty_two(t: ValueType) -> Instruction {
    match t {
        ValueType::I32 => Instruction::I32Const(42),
        ValueType::I64 => Instruction::I64Const(42),
        ValueType::F32 => Instruction::F32Const(F32_FORTY_TWO),
        ValueType::F64 => Instruction::F64Const(F64_FORTY_TWO),
    }
}

/// Build the constant 42 of the given type.
pub fn forty_two_exec(t: ValueType) -> (r: Instruction)
    ensures
        r == forty_two(t),
{
    match t {
        ValueType::I32 => Instruction::I32Const(42),
        ValueType::I64 => Instruction::I64Const(42),
        ValueType::F32 => Instruction::F32Const(F32_FORTY_TWO),
        ValueType::F64 => Instruction::F64Const(F64_FORTY_TWO),
    }
}

} // verus!

verus! {

/// The decimal digits of a natural number, most significant first.
pub open spec fn decimal_digits(n: nat) -> Seq<char>
    decreases n,
{
    if n < 10 {
        seq![digit_char(n)]
    } else {
        decimal_digits(n / 10) + seq![digit_char(n % 10)]
    }
}

/// The character of a decimal digit.
pub open spec fn digit_char(d: nat) -> char {
    if d == 0 { '0' } else if d == 1 { '1' } else if d == 2 { '2' } else if d == 3 { '3' }
    else if d == 4 { '4' } else if d == 5 { '5' } else if d == 6 { '6' } else if d == 7 { '7' }
    else if d == 8 { '8' } else { '9' }
}

/// The decimal text of an integer, with a leading minus sign when negative.
pub open spec fn int_text(v: int) -> Seq<char> {
    if v < 0 {
        seq!['-'] + decimal_digits((-v) as nat)
    } else {
        decimal_digits(v as nat)
    }
}

fn digit_str(d: u64) -> (s: &'static str)
    requires
        d < 10,
    ensures
        s@ == seq![digit_char(d as nat)],
{
    proof {
        reveal_strlit("0");
        reveal_strlit("1");
        reveal_strlit("2");
        reveal_strlit("3");
        reveal_strlit("4");
        reveal_strlit("5");
        reveal_strlit("6");
        reveal_strlit("7");
        reveal_strlit("8");
        reveal_strlit("9");
    }
    if d == 0 { "0" } else if d == 1 { "1" } else if d == 2 { "2" } else if d == 3 { "3" }
    else if d == 4 { "4" } else if d == 5 { "5" } else if d == 6 { "6" } else if d == 7 { "7" }
    else if d == 8 { "8" } else { "9" }
}

/// Append the decimal digits of `n`.
fn push_digits(n: u64, out: &mut String)
    ensures
        final(out)@ == old(out)@ + decimal_digits(n as nat),
    decreases n,
{
    if n >= 10 {
        push_digits(n / 10, out);
        out.append(digit_str(n % 10));
        assert(final(out)@ =~= old(out)@ + decimal_digits(n as nat));
    } else {
        out.append(digit_str(n));
    }
}

/// The decimal text of an unsigned integer.
pub fn u64_text(n: u64) -> (s: String)
    ensures
        s@ == int_text(n as int),
{
    let mut s = String::new();
    push_digits(n, &mut s);
    assert(s@ =~= int_text(n as int));
    s
}

/// The decimal text of a signed integer.
pub fn i64_text(v: i64) -> (s: String)
    ensures
        s@ == int_text(v as int),
{
    if v < 0 {
        let m: u64 = ((-(v + 1)) as u64) + 1;
        proof {
            reveal_strlit("-");
        }
        let mut s = String::from_str("-");
        push_digits(m, &mut s);
        assert(s@ =~= int_text(v as int));
        s
    } else {
        u64_text(v as u64)
    }
}

/// The text of a value type, as it is written in descriptions.
pub open spec fn value_type_text(t: ValueType) -> Seq<char> {
    match t {
        ValueType::I32 => "I32"@,
        ValueType::I64 => "I64"@,
        ValueType::F32 => "F32"@,
        ValueType::F64 => "F64"@,
    }
}

/// The text of a block type, as it is written in descriptions.
pub open spec fn block_type_text(b: BlockType) -> Seq<char> {
    match b {
        BlockType::NoResult => "NoResult"@,
        BlockType::Value(t) => "Value("@ + value_type_text(t) + ")"@,
    }
}

/// The text of an instruction, as it is written in descriptions: its name,
/// followed by its immediate in parentheses where it has one.
pub open spec fn instruction_text(i: Instruction) -> Seq<char> {
    match i {
        Instruction::I32Add => "I32Add"@,
        Instruction::I64Add => "I64Add"@,
        Instruction::F32Add => "F32Add"@,
        Instruction::F64Add => "F64Add"@,
        Instruction::I32Sub => "I32Sub"@,
        Instruction::I64Sub => "I64Sub"@,
        Instruction::F32Sub => "F32Sub"@,
        Instruction::F64Sub => "F64Sub"@,
        Instruction::I32Mul => "I32Mul"@,
        Instruction::I64Mul => "I64Mul"@,
        Instruction::F32Mul => "F32Mul"@,
        Instruction::F64Mul => "F64Mul"@,
        Instruction::I32DivS => "I32DivS"@,
        Instruction::I32DivU => "I32DivU"@,
        Instruction::I64DivS => "I64DivS"@,
        Instruction::I64DivU => "I64DivU"@,
        Instruction::F32Div => "F32Div"@,
        Instruction::F64Div => "F64Div"@,
        Instruction::I32RemS => "I32RemS"@,
        Instruction::I32RemU => "I32RemU"@,
        Instruction::I64RemS => "I64RemS"@,
        Instruction::I64RemU => "I64RemU"@,
        Instruction::I32And => "I32And"@,
        Instruction::I64And => "I64And"@,
        Instruction::I32Or => "I32Or"@,
        Instruction::I64Or => "I64Or"@,
        Instruction::I32Xor => "I32Xor"@,
        Instruction::I64Xor => "I64Xor"@,
        Instruction::I32Shl => "I32Shl"@,
        Instruction::I64Shl => "I64Shl"@,
        Instruction::I32ShrS => "I32ShrS"@,
        Instruction::I32ShrU => "I32ShrU"@,
        Instruction::I64ShrS => "I64ShrS"@,
        Instruction::I64ShrU => "I64ShrU"@,
        Instruction::I32Rotl => "I32Rotl"@,
        Instruction::I32Rotr => "I32Rotr"@,
        Instruction::I64Rotl => "I64Rotl"@,
        Instruction::I64Rotr => "I64Rotr"@,
        Instruction::F32Neg => "F32Neg"@,
        Instruction::F64Neg => "F64Neg"@,
        Instruction::I32Eq => "I32Eq"@,
        Instruction::I32Ne => "I32Ne"@,
        Instruction::I64Eq => "I64Eq"@,
        Instruction::I64Ne => "I64Ne"@,
        Instruction::F32Eq => "F32Eq"@,
        Instruction::F32Ne => "F32Ne"@,
        Instruction::F64Eq => "F64Eq"@,
        Instruction::F64Ne => "F64Ne"@,
        Instruction::I32LtS => "I32LtS"@,
        Instruction::I32LtU => "I32LtU"@,
        Instruction::I64LtS => "I64LtS"@,
        Instruction::I64LtU => "I64LtU"@,
        Instruction::F32Lt => "F32Lt"@,
        Instruction::F64Lt => "F64Lt"@,
        Instruction::I32GtS => "I32GtS"@,
        Instruction::I32GtU => "I32GtU"@,
        Instruction::I64GtS => "I64GtS"@,
        Instruction::I64GtU => "I64GtU"@,
        Instruction::F32Gt => "F32Gt"@,
        Instruction::F64Gt => "F64Gt"@,
        Instruction::I32LeS => "I32LeS"@,
        Instruction::I32LeU => "I32LeU"@,
        Instruction::I64LeS => "I64LeS"@,
        Instruction::I64LeU => "I64LeU"@,
        Instruction::F32Le => "F32Le"@,
        Instruction::F64Le => "F64Le"@,
        Instruction::I32GeS => "I32GeS"@,
        Instruction::I32GeU => "I32GeU"@,
        Instruction::I64GeS => "I64GeS"@,
        Instruction::I64GeU => "I64GeU"@,
        Instruction::F32Ge => "F32Ge"@,
        Instruction::F64Ge => "F64Ge"@,
        Instruction::I32Const(v) => "I32Const("@ + int_text(v as int) + ")"@,
        Instruction::I64Const(v) => "I64Const("@ + int_text(v as int) + ")"@,
        Instruction::F32Const(v) => "F32Const("@ + int_text(v as int) + ")"@,
        Instruction::F64Const(v) => "F64Const("@ + int_text(v as int) + ")"@,
        Instruction::Call(v) => "Call("@ + int_text(v as int) + ")"@,
        Instruction::Drop => "Drop"@,
        Instruction::Nop => "Nop"@,
        Instruction::If(b) => "If("@ + block_type_text(b) + ")"@,
        Instruction::Else => "Else"@,
        Instruction::End => "End"@,
        Instruction::GetGlobal(v) => "GetGlobal("@ + int_text(v as int) + ")"@,
        Instruction::SetGlobal(v) => "SetGlobal("@ + int_text(v as int) + ")"@,
        Instruction::Other(v) => "Other("@ + int_text(v as int) + ")"@,
    }
}

impl ValueType {
    /// The text of a value type.
    pub fn text(&self) -> (s: &'static str)
        ensures
            s@ == value_type_text(*self),
    {
        match self {
            ValueType::I32 => "I32",
            ValueType::I64 => "I64",
            ValueType::F32 => "F32",
            ValueType::F64 => "F64",
        }
    }
}

impl BlockType {
    /// The text of a block type.
    pub fn text(&self) -> (s: String)
        ensures
            s@ == block_type_text(*self),
    {
        match self {
            BlockType::NoResult => String::from_str("NoResult"),
            BlockType::Value(t) => String::from_str("Value(").concat(t.text()).concat(")"),
        }
    }
}

impl Instruction {
    /// The text of the instruction.
    pub fn text(&self) -> (s: String)
        ensures
            s@ == instruction_text(*self),
    {
        match *self {
            Instruction::I32Add => String::from_str("I32Add"),
            Instruction::I64Add => String::from_str("I64Add"),
            Instruction::F32Add => String::from_str("F32Add"),
            Instruction::F64Add => String::from_str("F64Add"),
            Instruction::I32Sub => String::from_str("I32Sub"),
            Instruction::I64Sub => String::from_str("I64Sub"),
            Instruction::F32Sub => String::from_str("F32Sub"),
            Instruction::F64Sub => String::from_str("F64Sub"),
            Instruction::I32Mul => String::from_str("I32Mul"),
            Instruction::I64Mul => String::from_str("I64Mul"),
            Instruction::F32Mul => String::from_str("F32Mul"),
            Instruction::F64Mul => String::from_str("F64Mul"),
            Instruction::I32DivS => String::from_str("I32DivS"),
            Instruction::I32DivU => String::from_str("I32DivU"),
            Instruction::I64DivS => String::from_str("I64DivS"),
            Instruction::I64DivU => String::from_str("I64DivU"),
            Instruction::F32Div => String::from_str("F32Div"),
            Instruction::F64Div => String::from_str("F64Div"),
            Instruction::I32RemS => String::from_str("I32RemS"),
            Instruction::I32RemU => String::from_str("I32RemU"),
            Instruction::I64RemS => String::from_str("I64RemS"),
            Instruction::I64RemU => String::from_str("I64RemU"),
            Instruction::I32And => String::from_str("I32And"),
            Instruction::I64And => String::from_str("I64And"),
            Instruction::I32Or => String::from_str("I32Or"),
            Instruction::I64Or => String::from_str("I64Or"),
            Instruction::I32Xor => String::from_str("I32Xor"),
            Instruction::I64Xor => String::from_str("I64Xor"),
            Instruction::I32Shl => String::from_str("I32Shl"),
            Instruction::I64Shl => String::from_str("I64Shl"),
            Instruction::I32ShrS => String::from_str("I32ShrS"),
            Instruction::I32ShrU => String::from_str("I32ShrU"),
            Instruction::I64ShrS => String::from_str("I64ShrS"),
            Instruction::I64ShrU => String::from_str("I64ShrU"),
            Instruction::I32Rotl => String::from_str("I32Rotl"),
            Instruction::I32Rotr => String::from_str("I32Rotr"),
            Instruction::I64Rotl => String::from_str("I64Rotl"),
            Instruction::I64Rotr => String::from_str("I64Rotr"),
            Instruction::F32Neg => String::from_str("F32Neg"),
            Instruction::F64Neg => String::from_str("F64Neg"),
            Instruction::I32Eq => String::from_str("I32Eq"),
            Instruction::I32Ne => String::from_str("I32Ne"),
            Instruction::I64Eq => String::from_str("I64Eq"),
            Instruction::I64Ne => String::from_str("I64Ne"),
            Instruction::F32Eq => String::from_str("F32Eq"),
            Instruction::F32Ne => String::from_str("F32Ne"),
            Instruction::F64Eq => String::from_str("F64Eq"),
            Instruction::F64Ne => String::from_str("F64Ne"),
            Instruction::I32LtS => String::from_str("I32LtS"),
            Instruction::I32LtU => String::from_str("I32LtU"),
            Instruction::I64LtS => String::from_str("I64LtS"),
            Instruction::I64LtU => String::from_str("I64LtU"),
            Instruction::F32Lt => String::from_str("F32Lt"),
            Instruction::F64Lt => String::from_str("F64Lt"),
            Instruction::I32GtS => String::from_str("I32GtS"),
            Instruction::I32GtU => String::from_str("I32GtU"),
            Instruction::I64GtS => String::from_str("I64GtS"),
            Instruction::I64GtU => String::from_str("I64GtU"),
            Instruction::F32Gt => String::from_str("F32Gt"),
            Instruction::F64Gt => String::from_str("F64Gt"),
            Instruction::I32LeS => String::from_str("I32LeS"),
            Instruction::I32LeU => String::from_str("I32LeU"),
            Instruction::I64LeS => String::from_str("I64LeS"),
            Instruction::I64LeU => String::from_str("I64LeU"),
            Instruction::F32Le => String::from_str("F32Le"),
            Instruction::F64Le => String::from_str("F64Le"),
            Instruction::I32GeS => String::from_str("I32GeS"),
            Instruction::I32GeU => String::from_str("I32GeU"),
            Instruction::I64GeS => String::from_str("I64GeS"),
            Instruction::I64GeU => String::from_str("I64GeU"),
            Instruction::F32Ge => String::from_str("F32Ge"),
            Instruction::F64Ge => String::from_str("F64Ge"),
            Instruction::I32Const(v) => String::from_str("I32Const(").concat(i64_text(v as i64).as_str()).concat(")"),
            Instruction::I64Const(v) => String::from_str("I64Const(").concat(i64_text(v as i64).as_str()).concat(")"),
            Instruction::F32Const(v) => String::from_str("F32Const(").concat(u64_text(v as u64).as_str()).concat(")"),
            Instruction::F64Const(v) => String::from_str("F64Const(").concat(u64_text(v as u64).as_str()).concat(")"),
            Instruction::Call(v) => String::from_str("Call(").concat(u64_text(v as u64).as_str()).concat(")"),
            Instruction::Drop => String::from_str("Drop"),
            Instruction::Nop => String::from_str("Nop"),
            Instruction::If(b) => String::from_str("If(").concat(b.text().as_str()).concat(")"),
            Instruction::Else => String::from_str("Else"),
            Instruction::End => String::from_str("End"),
            Instruction::GetGlobal(v) => String::from_str("GetGlobal(").concat(u64_text(v as u64).as_str()).concat(")"),
            Instruction::SetGlobal(v) => String::from_str("SetGlobal(").concat(u64_text(v as u64).as_str()).concat(")"),
            Instruction::Other(v) => String::from_str("Other(").concat(u64_text(v as u64).as_str()).concat(")"),
        }
    }
}

} // verus!
