//! The individual mutation operators, one type per operator.
use vstd::prelude::*;

use super::{operator_outcome, InstructionContext, InstructionReplacement, OperatorKind};
use crate::instruction::Instruction;
use crate::wasmmodule::CallRemovalCandidate;

verus! {

/// The operator `BinaryOperatorAddToSub`.
pub struct BinaryOperatorAddToSub;

impl BinaryOperatorAddToSub {
    /// The operator's name.
    pub fn name() -> (s: &'static str)
        ensures
            s@ == OperatorKind::BinaryOperatorAddToSub.spec_name(),
    {
        OperatorKind::BinaryOperatorAddToSub.name()
    }

    /// The replacement that this operator makes of `instr`, if it applies.
    pub fn new(instr: &Instruction) -> (r: Option<InstructionReplacement>)
        ensures
            r is None <==> operator_outcome(OperatorKind::BinaryOperatorAddToSub, *instr, Seq::empty()) is None,
            r matches Some(x) ==> {
                &&& x.kind == OperatorKind::BinaryOperatorAddToSub
                &&& x.old == *instr
                &&& operator_outcome(OperatorKind::BinaryOperatorAddToSub, *instr, Seq::empty()) == Some(
                    (x.new, x.result_type, x.parameters@),
                )
            },
    {
        InstructionReplacement::new(OperatorKind::BinaryOperatorAddToSub, instr, &InstructionContext::empty())
    }
}

/// The operator `BinaryOperatorSubToAdd`.
pub struct BinaryOperatorSubToAdd;

impl BinaryOperatorSubToAdd {
    /// The operator's name.
    pub fn name() -> (s: &'static str)
        ensures
            s@ == OperatorKind::BinaryOperatorSubToAdd.spec_name(),
    {
        OperatorKind::BinaryOperatorSubToAdd.name()
    }

    /// The replacement that this operator makes of `instr`, if it applies.
    pub fn new(instr: &Instruction) -> (r: Option<InstructionReplacement>)
        ensures
            r is None <==> operator_outcome(OperatorKind::BinaryOperatorSubToAdd, *instr, Seq::empty()) is None,
            r matches Some(x) ==> {
                &&& x.kind == OperatorKind::BinaryOperatorSubToAdd
                &&& x.old == *instr
                &&& operator_outcome(OperatorKind::BinaryOperatorSubToAdd, *instr, Seq::empty()) == Some(
                    (x.new, x.result_type, x.parameters@),
                )
            },
    {
        InstructionReplacement::new(OperatorKind::BinaryOperatorSubToAdd, instr, &InstructionContext::empty())
    }
}

/// The operator `BinaryOperatorMulToDivU`.
pub struct BinaryOperatorMulToDivU;

impl BinaryOperatorMulToDivU {
    /// The operator's name.
    pub fn name() -> (s: &'static str)
        ensures
            s@ == OperatorKind::BinaryOperatorMulToDivU.spec_name(),
    {
        OperatorKind::BinaryOperatorMulToDivU.name()
    }

    /// The replacement that this operator makes of `instr`, if it applies.
    pub fn new(instr: &Instruction) -> (r: Option<InstructionReplacement>)
        ensures
            r is None <==> operator_outcome(OperatorKind::BinaryOperatorMulToDivU, *instr, Seq::empty()) is None,
            r matches Some(x) ==> {
                &&& x.kind == OperatorKind::BinaryOperatorMulToDivU
                &&& x.old == *instr
                &&& operator_outcome(OperatorKind::BinaryOperatorMulToDivU, *instr, Seq::empty()) == Some(
                    (x.new, x.result_type, x.parameters@),
                )
            },
    {
        InstructionReplacement::new(OperatorKind::BinaryOperatorMulToDivU, instr, &InstructionContext::empty())
    }
}

/// The operator `BinaryOperatorMulToDivS`.
pub struct BinaryOperatorMulToDivS;

impl BinaryOperatorMulToDivS {
    /// The operator's name.
    pub fn name() -> (s: &'static str)
        ensures
            s@ == OperatorKind::BinaryOperatorMulToDivS.spec_name(),
    {
        OperatorKind::BinaryOperatorMulToDivS.name()
    }

    /// The replacement that this operator makes of `instr`, if it applies.
    pub fn new(instr: &Instruction) -> (r: Option<InstructionReplacement>)
        ensures
            r is None <==> operator_outcome(OperatorKind::BinaryOperatorMulToDivS, *instr, Seq::empty()) is None,
            r matches Some(x) ==> {
                &&& x.kind == OperatorKind::BinaryOperatorMulToDivS
                &&& x.old == *instr
                &&& operator_outcome(OperatorKind::BinaryOperatorMulToDivS, *instr, Seq::empty()) == Some(
                    (x.new, x.result_type, x.parameters@),
                )
            },
    {
        InstructionReplacement::new(OperatorKind::BinaryOperatorMulToDivS, instr, &InstructionContext::empty())
    }
}

/// The operator `BinaryOperatorDivXToMul`.
pub struct BinaryOperatorDivXToMul;

impl BinaryOperatorDivXToMul {
    /// The operator's name.
    pub fn name() -> (s: &'static str)
        ensures
            s@ == OperatorKind::BinaryOperatorDivXToMul.spec_name(),
    {
        OperatorKind::BinaryOperatorDivXToMul.name()
    }

    /// The replacement that this operator makes of `instr`, if it applies.
    pub fn new(instr: &Instruction) -> (r: Option<InstructionReplacement>)
        ensures
            r is None <==> operator_outcome(OperatorKind::BinaryOperatorDivXToMul, *instr, Seq::empty()) is None,
            r matches Some(x) ==> {
                &&& x.kind == OperatorKind::BinaryOperatorDivXToMul
                &&& x.old == *instr
                &&& operator_outcome(OperatorKind::BinaryOperatorDivXToMul, *instr, Seq::empty()) == Some(
                    (x.new, x.result_type, x.parameters@),
                )
            },
    {
        InstructionReplacement::new(OperatorKind::BinaryOperatorDivXToMul, instr, &InstructionContext::empty())
    }
}

/// The operator `BinaryOperatorShlToShrS`.
pub struct BinaryOperatorShlToShrS;

impl BinaryOperatorShlToShrS {
    /// The operator's name.
    pub fn name() -> (s: &'static str)
        ensures
            s@ == OperatorKind::BinaryOperatorShlToShrS.spec_name(),
    {
        OperatorKind::BinaryOperatorShlToShrS.name()
    }

    /// The replacement that this operator makes of `instr`, if it applies.
    pub fn new(instr: &Instruction) -> (r: Option<InstructionReplacement>)
        ensures
            r is None <==> operator_outcome(OperatorKind::BinaryOperatorShlToShrS, *instr, Seq::empty()) is None,
            r matches Some(x) ==> {
                &&& x.kind == OperatorKind::BinaryOperatorShlToShrS
                &&& x.old == *instr
                &&& operator_outcome(OperatorKind::BinaryOperatorShlToShrS, *instr, Seq::empty()) == Some(
                    (x.new, x.result_type, x.parameters@),
                )
            },
    {
        InstructionReplacement::new(OperatorKind::BinaryOperatorShlToShrS, instr, &InstructionContext::empty())
    }
}

/// The operator `BinaryOperatorShlToShrU`.
pub struct BinaryOperatorShlToShrU;

impl BinaryOperatorShlToShrU {
    /// The operator's name.
    pub fn name() -> (s: &'static str)
        ensures
            s@ == OperatorKind::BinaryOperatorShlToShrU.spec_name(),
    {
        OperatorKind::BinaryOperatorShlToShrU.name()
    }

    /// The replacement that this operator makes of `instr`, if it applies.
    pub fn new(instr: &Instruction) -> (r: Option<InstructionReplacement>)
        ensures
            r is None <==> operator_outcome(OperatorKind::BinaryOperatorShlToShrU, *instr, Seq::empty()) is None,
            r matches Some(x) ==> {
                &&& x.kind == OperatorKind::BinaryOperatorShlToShrU
                &&& x.old == *instr
                &&& operator_outcome(OperatorKind::BinaryOperatorShlToShrU, *instr, Seq::empty()) == Some(
                    (x.new, x.result_type, x.parameters@),
                )
            },
    {
        InstructionReplacement::new(OperatorKind::BinaryOperatorShlToShrU, instr, &InstructionContext::empty())
    }
}

/// The operator `BinaryOperatorShrXToShl`.
pub struct BinaryOperatorShrXToShl;

impl BinaryOperatorShrXToShl {
    /// The operator's name.
    pub fn name() -> (s: &'static str)
        ensures
            s@ == OperatorKind::BinaryOperatorShrXToShl.spec_name(),
    {
        OperatorKind::BinaryOperatorShrXToShl.name()
    }

    /// The replacement that this operator makes of `instr`, if it applies.
    pub fn new(instr: &Instruction) -> (r: Option<InstructionReplacement>)
        ensures
            r is None <==> operator_outcome(OperatorKind::BinaryOperatorShrXToShl, *instr, Seq::empty()) is None,
            r matches Some(x) ==> {
                &&& x.kind == OperatorKind::BinaryOperatorShrXToShl
                &&& x.old == *instr
                &&& operator_outcome(OperatorKind::BinaryOperatorShrXToShl, *instr, Seq::empty()) == Some(
                    (x.new, x.result_type, x.parameters@),
                )
            },
    {
        InstructionReplacement::new(OperatorKind::BinaryOperatorShrXToShl, instr, &InstructionContext::empty())
    }
}

/// The operator `BinaryOperatorRemToDiv`.
pub struct BinaryOperatorRemToDiv;

impl BinaryOperatorRemToDiv {
    /// The operator's name.
    pub fn name() -> (s: &'static str)
        ensures
            s@ == OperatorKind::BinaryOperatorRemToDiv.spec_name(),
    {
        OperatorKind::BinaryOperatorRemToDiv.name()
    }

    /// The replacement that this operator makes of `instr`, if it applies.
    pub fn new(instr: &Instruction) -> (r: Option<InstructionReplacement>)
        ensures
            r is None <==> operator_outcome(OperatorKind::BinaryOperatorRemToDiv, *instr, Seq::empty()) is None,
            r matches Some(x) ==> {
                &&& x.kind == OperatorKind::BinaryOperatorRemToDiv
                &&& x.old == *instr
                &&& operator_outcome(OperatorKind::BinaryOperatorRemToDiv, *instr, Seq::empty()) == Some(
                    (x.new, x.result_type, x.parameters@),
                )
            },
    {
        InstructionReplacement::new(OperatorKind::BinaryOperatorRemToDiv, instr, &InstructionContext::empty())
    }
}

/// The operator `BinaryOperatorDivToRem`.
pub struct BinaryOperatorDivToRem;

impl BinaryOperatorDivToRem {
    /// The operator's name.
    pub fn name() -> (s: &'static str)
        ensures
            s@ == OperatorKind::BinaryOperatorDivToRem.spec_name(),
    {
        OperatorKind::BinaryOperatorDivToRem.name()
    }

    /// The replacement that this operator makes of `instr`, if it applies.
    pub fn new(instr: &Instruction) -> (r: Option<InstructionReplacement>)
        ensures
            r is None <==> operator_outcome(OperatorKind::BinaryOperatorDivToRem, *instr, Seq::empty()) is None,
            r matches Some(x) ==> {
                &&& x.kind == OperatorKind::BinaryOperatorDivToRem
                &&& x.old == *instr
                &&& operator_outcome(OperatorKind::BinaryOperatorDivToRem, *instr, Seq::empty()) == Some(
                    (x.new, x.result_type, x.parameters@),
                )
            },
    {
        InstructionReplacement::new(OperatorKind::BinaryOperatorDivToRem, instr, &InstructionContext::empty())
    }
}

/// The operator `BinaryOperatorAndToOr`.
pub struct BinaryOperatorAndToOr;

impl BinaryOperatorAndToOr {
    /// The operator's name.
    pub fn name() -> (s: &'static str)
        ensures
            s@ == OperatorKind::BinaryOperatorAndToOr.spec_name(),
    {
        OperatorKind::BinaryOperatorAndToOr.name()
    }

    /// The replacement that this operator makes of `instr`, if it applies.
    pub fn new(instr: &Instruction) -> (r: Option<InstructionReplacement>)
        ensures
            r is None <==> operator_outcome(OperatorKind::BinaryOperatorAndToOr, *instr, Seq::empty()) is None,
            r matches Some(x) ==> {
                &&& x.kind == OperatorKind::BinaryOperatorAndToOr
                &&& x.old == *instr
                &&& operator_outcome(OperatorKind::BinaryOperatorAndToOr, *instr, Seq::empty()) == Some(
                    (x.new, x.result_type, x.parameters@),
                )
            },
    {
        InstructionReplacement::new(OperatorKind::BinaryOperatorAndToOr, instr, &InstructionContext::empty())
    }
}

/// The operator `BinaryOperatorOrToAnd`.
pub struct BinaryOperatorOrToAnd;

impl BinaryOperatorOrToAnd {
    /// The operator's name.
    pub fn name() -> (s: &'static str)
        ensures
            s@ == OperatorKind::BinaryOperatorOrToAnd.spec_name(),
    {
        OperatorKind::BinaryOperatorOrToAnd.name()
    }

    /// The replacement that this operator makes of `instr`, if it applies.
    pub fn new(instr: &Instruction) -> (r: Option<InstructionReplacement>)
        ensures
            r is None <==> operator_outcome(OperatorKind::BinaryOperatorOrToAnd, *instr, Seq::empty()) is None,
            r matches Some(x) ==> {
                &&& x.kind == OperatorKind::BinaryOperatorOrToAnd
                &&& x.old == *instr
                &&& operator_outcome(OperatorKind::BinaryOperatorOrToAnd, *instr, Seq::empty()) == Some(
                    (x.new, x.result_type, x.parameters@),
                )
            },
    {
        InstructionReplacement::new(OperatorKind::BinaryOperatorOrToAnd, instr, &InstructionContext::empty())
    }
}

/// The operator `BinaryOperatorXorToOr`.
pub struct BinaryOperatorXorToOr;

impl BinaryOperatorXorToOr {
    /// The operator's name.
    pub fn name() -> (s: &'static str)
        ensures
            s@ == OperatorKind::BinaryOperatorXorToOr.spec_name(),
    {
        OperatorKind::BinaryOperatorXorToOr.name()
    }

    /// The replacement that this operator makes of `instr`, if it applies.
    pub fn new(instr: &Instruction) -> (r: Option<InstructionReplacement>)
        ensures
            r is None <==> operator_outcome(OperatorKind::BinaryOperatorXorToOr, *instr, Seq::empty()) is None,
            r matches Some(x) ==> {
                &&& x.kind == OperatorKind::BinaryOperatorXorToOr
                &&& x.old == *instr
                &&& operator_outcome(OperatorKind::BinaryOperatorXorToOr, *instr, Seq::empty()) == Some(
                    (x.new, x.result_type, x.parameters@),
                )
            },
    {
        InstructionReplacement::new(OperatorKind::BinaryOperatorXorToOr, instr, &InstructionContext::empty())
    }
}

/// The operator `BinaryOperatorOrToXor`.
pub struct BinaryOperatorOrToXor;

impl BinaryOperatorOrToXor {
    /// The operator's name.
    pub fn name() -> (s: &'static str)
        ensures
            s@ == OperatorKind::BinaryOperatorOrToXor.spec_name(),
    {
        OperatorKind::BinaryOperatorOrToXor.name()
    }

    /// The replacement that this operator makes of `instr`, if it applies.
    pub fn new(instr: &Instruction) -> (r: Option<InstructionReplacement>)
        ensures
            r is None <==> operator_outcome(OperatorKind::BinaryOperatorOrToXor, *instr, Seq::empty()) is None,
            r matches Some(x) ==> {
                &&& x.kind == OperatorKind::BinaryOperatorOrToXor
                &&& x.old == *instr
                &&& operator_outcome(OperatorKind::BinaryOperatorOrToXor, *instr, Seq::empty()) == Some(
                    (x.new, x.result_type, x.parameters@),
                )
            },
    {
        InstructionReplacement::new(OperatorKind::BinaryOperatorOrToXor, instr, &InstructionContext::empty())
    }
}

/// The operator `BinaryOperatorRotrToRotl`.
pub struct BinaryOperatorRotrToRotl;

impl BinaryOperatorRotrToRotl {
    /// The operator's name.
    pub fn name() -> (s: &'static str)
        ensures
            s@ == OperatorKind::BinaryOperatorRotrToRotl.spec_name(),
    {
        OperatorKind::BinaryOperatorRotrToRotl.name()
    }

    /// The replacement that this operator makes of `instr`, if it applies.
    pub fn new(instr: &Instruction) -> (r: Option<InstructionReplacement>)
        ensures
            r is None <==> operator_outcome(OperatorKind::BinaryOperatorRotrToRotl, *instr, Seq::empty()) is None,
            r matches Some(x) ==> {
                &&& x.kind == OperatorKind::BinaryOperatorRotrToRotl
                &&& x.old == *instr
                &&& operator_outcome(OperatorKind::BinaryOperatorRotrToRotl, *instr, Seq::empty()) == Some(
                    (x.new, x.result_type, x.parameters@),
                )
            },
    {
        InstructionReplacement::new(OperatorKind::BinaryOperatorRotrToRotl, instr, &InstructionContext::empty())
    }
}

/// The operator `BinaryOperatorRotlToRotr`.
pub struct BinaryOperatorRotlToRotr;

impl BinaryOperatorRotlToRotr {
    /// The operator's name.
    pub fn name() -> (s: &'static str)
        ensures
            s@ == OperatorKind::BinaryOperatorRotlToRotr.spec_name(),
    {
        OperatorKind::BinaryOperatorRotlToRotr.name()
    }

    /// The replacement that this operator makes of `instr`, if it applies.
    pub fn new(instr: &Instruction) -> (r: Option<InstructionReplacement>)
        ensures
            r is None <==> operator_outcome(OperatorKind::BinaryOperatorRotlToRotr, *instr, Seq::empty()) is None,
            r matches Some(x) ==> {
                &&& x.kind == OperatorKind::BinaryOperatorRotlToRotr
                &&& x.old == *instr
                &&& operator_outcome(OperatorKind::BinaryOperatorRotlToRotr, *instr, Seq::empty()) == Some(
                    (x.new, x.result_type, x.parameters@),
                )
            },
    {
        InstructionReplacement::new(OperatorKind::BinaryOperatorRotlToRotr, instr, &InstructionContext::empty())
    }
}

/// The operator `UnaryOperatorNegToNop`.
pub struct UnaryOperatorNegToNop;

impl UnaryOperatorNegToNop {
    /// The operator's name.
    pub fn name() -> (s: &'static str)
        ensures
            s@ == OperatorKind::UnaryOperatorNegToNop.spec_name(),
    {
        OperatorKind::UnaryOperatorNegToNop.name()
    }

    /// The replacement that this operator makes of `instr`, if it applies.
    pub fn new(instr: &Instruction) -> (r: Option<InstructionReplacement>)
        ensures
            r is None <==> operator_outcome(OperatorKind::UnaryOperatorNegToNop, *instr, Seq::empty()) is None,
            r matches Some(x) ==> {
                &&& x.kind == OperatorKind::UnaryOperatorNegToNop
                &&& x.old == *instr
                &&& operator_outcome(OperatorKind::UnaryOperatorNegToNop, *instr, Seq::empty()) == Some(
                    (x.new, x.result_type, x.parameters@),
                )
            },
    {
        InstructionReplacement::new(OperatorKind::UnaryOperatorNegToNop, instr, &InstructionContext::empty())
    }
}

/// The operator `RelationalOperatorEqToNe`.
pub struct RelationalOperatorEqToNe;

impl RelationalOperatorEqToNe {
    /// The operator's name.
    pub fn name() -> (s: &'static str)
        ensures
            s@ == OperatorKind::RelationalOperatorEqToNe.spec_name(),
    {
        OperatorKind::RelationalOperatorEqToNe.name()
    }

    /// The replacement that this operator makes of `instr`, if it applies.
    pub fn new(instr: &Instruction) -> (r: Option<InstructionReplacement>)
        ensures
            r is None <==> operator_outcome(OperatorKind::RelationalOperatorEqToNe, *instr, Seq::empty()) is None,
            r matches Some(x) ==> {
                &&& x.kind == OperatorKind::RelationalOperatorEqToNe
                &&& x.old == *instr
                &&& operator_outcome(OperatorKind::RelationalOperatorEqToNe, *instr, Seq::empty()) == Some(
                    (x.new, x.result_type, x.parameters@),
                )
            },
    {
        InstructionReplacement::new(OperatorKind::RelationalOperatorEqToNe, instr, &InstructionContext::empty())
    }
}

/// The operator `RelationalOperatorNeToEq`.
pub struct RelationalOperatorNeToEq;

impl RelationalOperatorNeToEq {
    /// The operator's name.
    pub fn name() -> (s: &'static str)
        ensures
            s@ == OperatorKind::RelationalOperatorNeToEq.spec_name(),
    {
        OperatorKind::RelationalOperatorNeToEq.name()
    }

    /// The replacement that this operator makes of `instr`, if it applies.
    pub fn new(instr: &Instruction) -> (r: Option<InstructionReplacement>)
        ensures
            r is None <==> operator_outcome(OperatorKind::RelationalOperatorNeToEq, *instr, Seq::empty()) is None,
            r matches Some(x) ==> {
                &&& x.kind == OperatorKind::RelationalOperatorNeToEq
                &&& x.old == *instr
                &&& operator_outcome(OperatorKind::RelationalOperatorNeToEq, *instr, Seq::empty()) == Some(
                    (x.new, x.result_type, x.parameters@),
                )
            },
    {
        InstructionReplacement::new(OperatorKind::RelationalOperatorNeToEq, instr, &InstructionContext::empty())
    }
}

/// The operator `RelationalOperatorLeToGt`.
pub struct RelationalOperatorLeToGt;

impl RelationalOperatorLeToGt {
    /// The operator's name.
    pub fn name() -> (s: &'static str)
        ensures
            s@ == OperatorKind::RelationalOperatorLeToGt.spec_name(),
    {
        OperatorKind::RelationalOperatorLeToGt.name()
    }

    /// The replacement that this operator makes of `instr`, if it applies.
    pub fn new(instr: &Instruction) -> (r: Option<InstructionReplacement>)
        ensures
            r is None <==> operator_outcome(OperatorKind::RelationalOperatorLeToGt, *instr, Seq::empty()) is None,
            r matches Some(x) ==> {
                &&& x.kind == OperatorKind::RelationalOperatorLeToGt
                &&& x.old == *instr
                &&& operator_outcome(OperatorKind::RelationalOperatorLeToGt, *instr, Seq::empty()) == Some(
                    (x.new, x.result_type, x.parameters@),
                )
            },
    {
        InstructionReplacement::new(OperatorKind::RelationalOperatorLeToGt, instr, &InstructionContext::empty())
    }
}

/// The operator `RelationalOperatorLeToLt`.
pub struct RelationalOperatorLeToLt;

impl RelationalOperatorLeToLt {
    /// The operator's name.
    pub fn name() -> (s: &'static str)
        ensures
            s@ == OperatorKind::RelationalOperatorLeToLt.spec_name(),
    {
        OperatorKind::RelationalOperatorLeToLt.name()
    }

    /// The replacement that this operator makes of `instr`, if it applies.
    pub fn new(instr: &Instruction) -> (r: Option<InstructionReplacement>)
        ensures
            r is None <==> operator_outcome(OperatorKind::RelationalOperatorLeToLt, *instr, Seq::empty()) is None,
            r matches Some(x) ==> {
                &&& x.kind == OperatorKind::RelationalOperatorLeToLt
                &&& x.old == *instr
                &&& operator_outcome(OperatorKind::RelationalOperatorLeToLt, *instr, Seq::empty()) == Some(
                    (x.new, x.result_type, x.parameters@),
                )
            },
    {
        InstructionReplacement::new(OperatorKind::RelationalOperatorLeToLt, instr, &InstructionContext::empty())
    }
}

/// The operator `RelationalOperatorLtToGe`.
pub struct RelationalOperatorLtToGe;

impl RelationalOperatorLtToGe {
    /// The operator's name.
    pub fn name() -> (s: &'static str)
        ensures
            s@ == OperatorKind::RelationalOperatorLtToGe.spec_name(),
    {
        OperatorKind::RelationalOperatorLtToGe.name()
    }

    /// The replacement that this operator makes of `instr`, if it applies.
    pub fn new(instr: &Instruction) -> (r: Option<InstructionReplacement>)
        ensures
            r is None <==> operator_outcome(OperatorKind::RelationalOperatorLtToGe, *instr, Seq::empty()) is None,
            r matches Some(x) ==> {
                &&& x.kind == OperatorKind::RelationalOperatorLtToGe
                &&& x.old == *instr
                &&& operator_outcome(OperatorKind::RelationalOperatorLtToGe, *instr, Seq::empty()) == Some(
                    (x.new, x.result_type, x.parameters@),
                )
            },
    {
        InstructionReplacement::new(OperatorKind::RelationalOperatorLtToGe, instr, &InstructionContext::empty())
    }
}

/// The operator `RelationalOperatorLtToLe`.
pub struct RelationalOperatorLtToLe;

impl RelationalOperatorLtToLe {
    /// The operator's name.
    pub fn name() -> (s: &'static str)
        ensures
            s@ == OperatorKind::RelationalOperatorLtToLe.spec_name(),
    {
        OperatorKind::RelationalOperatorLtToLe.name()
    }

    /// The replacement that this operator makes of `instr`, if it applies.
    pub fn new(instr: &Instruction) -> (r: Option<InstructionReplacement>)
        ensures
            r is None <==> operator_outcome(OperatorKind::RelationalOperatorLtToLe, *instr, Seq::empty()) is None,
            r matches Some(x) ==> {
                &&& x.kind == OperatorKind::RelationalOperatorLtToLe
                &&& x.old == *instr
                &&& operator_outcome(OperatorKind::RelationalOperatorLtToLe, *instr, Seq::empty()) == Some(
                    (x.new, x.result_type, x.parameters@),
                )
            },
    {
        InstructionReplacement::new(OperatorKind::RelationalOperatorLtToLe, instr, &InstructionContext::empty())
    }
}

/// The operator `RelationalOperatorGeToGt`.
pub struct RelationalOperatorGeToGt;

impl RelationalOperatorGeToGt {
    /// The operator's name.
    pub fn name() -> (s: &'static str)
        ensures
            s@ == OperatorKind::RelationalOperatorGeToGt.spec_name(),
    {
        OperatorKind::RelationalOperatorGeToGt.name()
    }

    /// The replacement that this operator makes of `instr`, if it applies.
    pub fn new(instr: &Instruction) -> (r: Option<InstructionReplacement>)
        ensures
            r is None <==> operator_outcome(OperatorKind::RelationalOperatorGeToGt, *instr, Seq::empty()) is None,
            r matches Some(x) ==> {
                &&& x.kind == OperatorKind::RelationalOperatorGeToGt
                &&& x.old == *instr
                &&& operator_outcome(OperatorKind::RelationalOperatorGeToGt, *instr, Seq::empty()) == Some(
                    (x.new, x.result_type, x.parameters@),
                )
            },
    {
        InstructionReplacement::new(OperatorKind::RelationalOperatorGeToGt, instr, &InstructionContext::empty())
    }
}

/// The operator `RelationalOperatorGeToLt`.
pub struct RelationalOperatorGeToLt;

impl RelationalOperatorGeToLt {
    /// The operator's name.
    pub fn name() -> (s: &'static str)
        ensures
            s@ == OperatorKind::RelationalOperatorGeToLt.spec_name(),
    {
        OperatorKind::RelationalOperatorGeToLt.name()
    }

    /// The replacement that this operator makes of `instr`, if it applies.
    pub fn new(instr: &Instruction) -> (r: Option<InstructionReplacement>)
        ensures
            r is None <==> operator_outcome(OperatorKind::RelationalOperatorGeToLt, *instr, Seq::empty()) is None,
            r matches Some(x) ==> {
                &&& x.kind == OperatorKind::RelationalOperatorGeToLt
                &&& x.old == *instr
                &&& operator_outcome(OperatorKind::RelationalOperatorGeToLt, *instr, Seq::empty()) == Some(
                    (x.new, x.result_type, x.parameters@),
                )
            },
    {
        InstructionReplacement::new(OperatorKind::RelationalOperatorGeToLt, instr, &InstructionContext::empty())
    }
}

/// The operator `RelationalOperatorGtToGe`.
pub struct RelationalOperatorGtToGe;

impl RelationalOperatorGtToGe {
    /// The operator's name.
    pub fn name() -> (s: &'static str)
        ensures
            s@ == OperatorKind::RelationalOperatorGtToGe.spec_name(),
    {
        OperatorKind::RelationalOperatorGtToGe.name()
    }

    /// The replacement that this operator makes of `instr`, if it applies.
    pub fn new(instr: &Instruction) -> (r: Option<InstructionReplacement>)
        ensures
            r is None <==> operator_outcome(OperatorKind::RelationalOperatorGtToGe, *instr, Seq::empty()) is None,
            r matches Some(x) ==> {
                &&& x.kind == OperatorKind::RelationalOperatorGtToGe
                &&& x.old == *instr
                &&& operator_outcome(OperatorKind::RelationalOperatorGtToGe, *instr, Seq::empty()) == Some(
                    (x.new, x.result_type, x.parameters@),
                )
            },
    {
        InstructionReplacement::new(OperatorKind::RelationalOperatorGtToGe, instr, &InstructionContext::empty())
    }
}

/// The operator `RelationalOperatorGtToLe`.
pub struct RelationalOperatorGtToLe;

impl RelationalOperatorGtToLe {
    /// The operator's name.
    pub fn name() -> (s: &'static str)
        ensures
            s@ == OperatorKind::RelationalOperatorGtToLe.spec_name(),
    {
        OperatorKind::RelationalOperatorGtToLe.name()
    }

    /// The replacement that this operator makes of `instr`, if it applies.
    pub fn new(instr: &Instruction) -> (r: Option<InstructionReplacement>)
        ensures
            r is None <==> operator_outcome(OperatorKind::RelationalOperatorGtToLe, *instr, Seq::empty()) is None,
            r matches Some(x) ==> {
                &&& x.kind == OperatorKind::RelationalOperatorGtToLe
                &&& x.old == *instr
                &&& operator_outcome(OperatorKind::RelationalOperatorGtToLe, *instr, Seq::empty()) == Some(
                    (x.new, x.result_type, x.parameters@),
                )
            },
    {
        InstructionReplacement::new(OperatorKind::RelationalOperatorGtToLe, instr, &InstructionContext::empty())
    }
}

/// The operator `ConstReplaceZero`.
pub struct ConstReplaceZero;

impl ConstReplaceZero {
    /// The operator's name.
    pub fn name() -> (s: &'static str)
        ensures
            s@ == OperatorKind::ConstReplaceZero.spec_name(),
    {
        OperatorKind::ConstReplaceZero.name()
    }

    /// The replacement that this operator makes of `instr`, if it applies.
    pub fn new(instr: &Instruction) -> (r: Option<InstructionReplacement>)
        ensures
            r is None <==> operator_outcome(OperatorKind::ConstReplaceZero, *instr, Seq::empty()) is None,
            r matches Some(x) ==> {
                &&& x.kind == OperatorKind::ConstReplaceZero
                &&& x.old == *instr
                &&& operator_outcome(OperatorKind::ConstReplaceZero, *instr, Seq::empty()) == Some(
                    (x.new, x.result_type, x.parameters@),
                )
            },
    {
        InstructionReplacement::new(OperatorKind::ConstReplaceZero, instr, &InstructionContext::empty())
    }
}

/// The operator `ConstReplaceNonZero`.
pub struct ConstReplaceNonZero;

impl ConstReplaceNonZero {
    /// The operator's name.
    pub fn name() -> (s: &'static str)
        ensures
            s@ == OperatorKind::ConstReplaceNonZero.spec_name(),
    {
        OperatorKind::ConstReplaceNonZero.name()
    }

    /// The replacement that this operator makes of `instr`, if it applies.
    pub fn new(instr: &Instruction) -> (r: Option<InstructionReplacement>)
        ensures
            r is None <==> operator_outcome(OperatorKind::ConstReplaceNonZero, *instr, Seq::empty()) is None,
            r matches Some(x) ==> {
                &&& x.kind == OperatorKind::ConstReplaceNonZero
                &&& x.old == *instr
                &&& operator_outcome(OperatorKind::ConstReplaceNonZero, *instr, Seq::empty()) == Some(
                    (x.new, x.result_type, x.parameters@),
                )
            },
    {
        InstructionReplacement::new(OperatorKind::ConstReplaceNonZero, instr, &InstructionContext::empty())
    }
}

/// The operator `CallRemoveVoidCall`.
pub struct CallRemoveVoidCall;

impl CallRemoveVoidCall {
    /// The operator's name.
    pub fn name() -> (s: &'static str)
        ensures
            s@ == OperatorKind::CallRemoveVoidCall.spec_name(),
    {
        OperatorKind::CallRemoveVoidCall.name()
    }

    /// The replacement that this operator makes of `instr`, if it applies.
    pub fn new(instr: &Instruction, ctx: &InstructionContext) -> (r: Option<InstructionReplacement>)
        ensures
            r is None <==> operator_outcome(OperatorKind::CallRemoveVoidCall, *instr, ctx@) is None,
            r matches Some(x) ==> {
                &&& x.kind == OperatorKind::CallRemoveVoidCall
                &&& x.old == *instr
                &&& operator_outcome(OperatorKind::CallRemoveVoidCall, *instr, ctx@) == Some(
                    (x.new, x.result_type, x.parameters@),
                )
            },
    {
        InstructionReplacement::new(OperatorKind::CallRemoveVoidCall, instr, ctx)
    }
}

/// The operator `CallRemoveScalarCall`.
pub struct CallRemoveScalarCall;

impl CallRemoveScalarCall {
    /// The operator's name.
    pub fn name() -> (s: &'static str)
        ensures
            s@ == OperatorKind::CallRemoveScalarCall.spec_name(),
    {
        OperatorKind::CallRemoveScalarCall.name()
    }

    /// The replacement that this operator makes of `instr`, if it applies.
    pub fn new(instr: &Instruction, ctx: &InstructionContext) -> (r: Option<InstructionReplacement>)
        ensures
            r is None <==> operator_outcome(OperatorKind::CallRemoveScalarCall, *instr, ctx@) is None,
            r matches Some(x) ==> {
                &&& x.kind == OperatorKind::CallRemoveScalarCall
                &&& x.old == *instr
                &&& operator_outcome(OperatorKind::CallRemoveScalarCall, *instr, ctx@) == Some(
                    (x.new, x.result_type, x.parameters@),
                )
            },
    {
        InstructionReplacement::new(OperatorKind::CallRemoveScalarCall, instr, ctx)
    }
}

} // verus!
