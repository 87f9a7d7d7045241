//! Applying mutations to a module: one at a time, or all of them at once in
//! a meta mutant that selects the active mutation at run time.
use vstd::prelude::*;

use crate::instruction::{BlockType, Instruction, ValueType};
use crate::mutation::{Mutation, MutationLocation};
use crate::operator::{replacement_seq, InstructionReplacement};
use crate::wasmmodule::rewrite::{
    calls_below_max, check_mutant_signature, count_type, functions_shifted, import_prepended, indices_below_max,
    max_nat, max_same_params, signature_added, signature_index, with_signature,
};
use crate::wasmmodule::{GlobalEntry, ModuleError, section_len, ModuleView, WasmModule, code_view, copy_instructions, global_view, globals_view};

verus! {

// ---------------------------------------------------------------------------
// Saving parameters in globals
// ---------------------------------------------------------------------------

/// The block of saved globals that holds values of type `t`.
pub open spec fn type_block(t: ValueType) -> nat {
    match t {
        ValueType::I32 => 0,
        ValueType::I64 => 1,
        ValueType::F32 => 2,
        ValueType::F64 => 3,
    }
}

/// The instruction that pushes a zero of type `t`.
pub open spec fn zero_const(t: ValueType) -> Instruction {
    match t {
        ValueType::I32 => Instruction::I32Const(0),
        ValueType::I64 => Instruction::I64Const(0),
        ValueType::F32 => Instruction::F32Const(0),
        ValueType::F64 => Instruction::F64Const(0),
    }
}

/// A mutable global of type `t` that starts at zero.
pub open spec fn zero_global(t: ValueType) -> (ValueType, bool, Seq<Instruction>) {
    (t, true, seq![zero_const(t), Instruction::End])
}

/// `n` zero globals of type `t`.
pub open spec fn zero_globals(t: ValueType, n: nat) -> Seq<(ValueType, bool, Seq<Instruction>)> {
    Seq::new(n, |_i: int| zero_global(t))
}

/// The globals that save parameters: `n` of each type, in the order
/// `i32`, `i64`, `f32`, `f64`.
pub open spec fn saved_globals(n: nat) -> Seq<(ValueType, bool, Seq<Instruction>)> {
    zero_globals(ValueType::I32, n) + zero_globals(ValueType::I64, n) + zero_globals(ValueType::F32, n)
        + zero_globals(ValueType::F64, n)
}

/// Where the block of `n` saved globals of type `t` starts, relative to the
/// first saved global.
pub open spec fn block_start(t: ValueType, n: nat) -> nat {
    match t {
        ValueType::I32 => 0,
        ValueType::I64 => n,
        ValueType::F32 => 2 * n,
        ValueType::F64 => 3 * n,
    }
}

/// The index of the global that saves parameter `i`: the block of its type,
/// then its rank among the earlier parameters of that type.
pub open spec fn save_slot(offset: nat, n: nat, params: Seq<ValueType>, i: int) -> int {
    (offset + block_start(params[i], n) + count_type(params.subrange(0, i), params[i])) as int
}

/// The block of type `t` starts after `type_block(t)` blocks.
proof fn lemma_block_start(t: ValueType, n: nat)
    ensures
        block_start(t, n) == type_block(t) * n,
{
    if t == ValueType::I32 {
        assert(0nat * n == 0);
    } else if t == ValueType::I64 {
        assert(1nat * n == n);
    } else if t == ValueType::F32 {
        assert(2nat * n == 2 * n);
    } else {
        assert(3nat * n == 3 * n);
    }
}

/// The instructions that push the saved parameters back, first parameter
/// first.
pub open spec fn restore_seq(offset: nat, n: nat, params: Seq<ValueType>) -> Seq<Instruction> {
    Seq::new(params.len(), |i: int| Instruction::GetGlobal(save_slot(offset, n, params, i) as u32))
}

/// The instructions that pop the parameters off the stack into their
/// globals, last parameter first.
pub open spec fn save_seq(offset: nat, n: nat, params: Seq<ValueType>) -> Seq<Instruction> {
    Seq::new(
        params.len(),
        |i: int| Instruction::SetGlobal(save_slot(offset, n, params, params.len() - 1 - i) as u32),
    )
}

/// Saves the parameters of a mutated instruction in globals, so that each
/// alternative of a meta mutant can push them again.
pub struct ParameterSaver {
    offset: usize,
    number_of_saved_params: usize,
}

impl ParameterSaver {
    /// The index of the first saved global.
    pub closed spec fn spec_offset(&self) -> nat {
        self.offset as nat
    }

    /// How many globals of each type save parameters.
    pub closed spec fn spec_number_of_saved_params(&self) -> nat {
        self.number_of_saved_params as nat
    }

    /// Append `number_of_saved_params` zero globals of each type to
    /// `globals`; the saved globals start at the old end of the list.
    pub fn new(number_of_saved_params: usize, globals: &mut Vec<GlobalEntry>) -> (r: Self)
        requires
            old(globals).len() + 4 * number_of_saved_params <= usize::MAX,
        ensures
            r.spec_offset() == old(globals).len(),
            r.spec_number_of_saved_params() == number_of_saved_params,
            globals_view(final(globals)@) == globals_view(old(globals)@) + saved_globals(
                number_of_saved_params as nat,
            ),
    {
        let offset = globals.len();
        let ghost start = globals_view(globals@);
        let n = number_of_saved_params;
        let types: Vec<ValueType> = vec![ValueType::I32, ValueType::I64, ValueType::F32, ValueType::F64];
        let mut b: usize = 0;
        while b < 4
            invariant
                types@ == seq![ValueType::I32, ValueType::I64, ValueType::F32, ValueType::F64],
                b <= 4,
                offset == start.len(),
                start.len() + 4 * n <= usize::MAX,
                globals_view(globals@) == start + saved_globals(n as nat).subrange(0, (b * n) as int),
            decreases 4 - b,
        {
            let t = types[b];
            let mut i: usize = 0;
            while i < n
                invariant
                    types@ == seq![ValueType::I32, ValueType::I64, ValueType::F32, ValueType::F64],
                    b < 4,
                    t == types@[b as int],
                    i <= n,
                    offset == start.len(),
                    start.len() + 4 * n <= usize::MAX,
                    globals_view(globals@) == start + saved_globals(n as nat).subrange(0, (b * n + i) as int),
                decreases n - i,
            {
                let init: Vec<Instruction> = match t {
                    ValueType::I32 => vec![Instruction::I32Const(0), Instruction::End],
                    ValueType::I64 => vec![Instruction::I64Const(0), Instruction::End],
                    ValueType::F32 => vec![Instruction::F32Const(0), Instruction::End],
                    ValueType::F64 => vec![Instruction::F64Const(0), Instruction::End],
                };
                let ghost before = globals@;
                globals.push(GlobalEntry { value_type: t, mutable: true, init });
                proof {
                    let k = (b * n + i) as int;
                    assert(b * n + i < 4 * n) by (nonlinear_arith)
                        requires
                            b < 4,
                            i < n,
                    ;
                    assert(b * n <= k);
                    assert(k < b * n + n) by (nonlinear_arith)
                        requires
                            k == b * n + i,
                            i < n,
                    ;
                    lemma_saved_global_at(n as nat, b as nat, k);
                    assert(global_view(globals@.last()) == zero_global(t));
                    assert(globals_view(globals@) =~= globals_view(before).push(zero_global(t)));
                    assert(saved_globals(n as nat).subrange(0, k + 1) =~= saved_globals(n as nat).subrange(
                        0,
                        k,
                    ).push(saved_globals(n as nat)[k]));
                }
                i = i + 1;
            }
            proof {
                assert((b * n + n) as int == ((b + 1) * n) as int) by (nonlinear_arith);
            }
            b = b + 1;
        }
        proof {
            assert(saved_globals(n as nat).len() == 4 * n);
            assert(saved_globals(n as nat).subrange(0, (4 * n) as int) =~= saved_globals(n as nat));
        }
        ParameterSaver { offset, number_of_saved_params }
    }

    /// The instructions that save the parameters `params` of an
    /// instruction, and those that push them again.
    pub fn save_sequence(&self, params: &Vec<ValueType>) -> (r: (Vec<Instruction>, Vec<Instruction>))
        requires
            self.spec_offset() + 3 * self.spec_number_of_saved_params() + params.len() <= usize::MAX,
        ensures
            r.0@ == save_seq(self.spec_offset(), self.spec_number_of_saved_params(), params@),
            r.1@ == restore_seq(self.spec_offset(), self.spec_number_of_saved_params(), params@),
    {
        let ghost off = self.offset as nat;
        let ghost n = self.number_of_saved_params as nat;
        let mut i32_params: usize = 0;
        let mut i64_params: usize = 0;
        let mut f32_params: usize = 0;
        let mut f64_params: usize = 0;
        let mut save_sequence: Vec<Instruction> = Vec::new();
        let mut restore_sequence: Vec<Instruction> = Vec::new();
        let mut i: usize = 0;
        while i < params.len()
            invariant
                off == self.offset,
                n == self.number_of_saved_params,
                self.offset + 3 * self.number_of_saved_params + params@.len() <= usize::MAX,
                i <= params@.len(),
                i32_params == count_type(params@.subrange(0, i as int), ValueType::I32),
                i64_params == count_type(params@.subrange(0, i as int), ValueType::I64),
                f32_params == count_type(params@.subrange(0, i as int), ValueType::F32),
                f64_params == count_type(params@.subrange(0, i as int), ValueType::F64),
                i32_params <= i && i64_params <= i && f32_params <= i && f64_params <= i,
                restore_sequence@ == restore_seq(off, n, params@).subrange(0, i as int),
                save_sequence@.len() == i,
                forall|k: int| 0 <= k < i ==> #[trigger] save_sequence@[k] == Instruction::SetGlobal(
                    save_slot(off, n, params@, i - 1 - k) as u32,
                ),
            decreases params.len() - i,
        {
            proof {
                assert(params@.subrange(0, i + 1).drop_last() =~= params@.subrange(0, i as int));
            }
            let index: usize = match params[i] {
                ValueType::I32 => {
                    let index = self.offset + i32_params;
                    i32_params += 1;
                    index
                },
                ValueType::I64 => {
                    let index = self.offset + self.number_of_saved_params + i64_params;
                    i64_params += 1;
                    index
                },
                ValueType::F32 => {
                    let index = self.offset + 2 * self.number_of_saved_params + f32_params;
                    f32_params += 1;
                    index
                },
                ValueType::F64 => {
                    let index = self.offset + 3 * self.number_of_saved_params + f64_params;
                    f64_params += 1;
                    index
                },
            };
            proof {
                assert(index == save_slot(off, n, params@, i as int));
            }
            let ghost old_save = save_sequence@;
            save_sequence.insert(0, Instruction::SetGlobal(index as u32));
            restore_sequence.push(Instruction::GetGlobal(index as u32));
            proof {
                assert(restore_sequence@ =~= restore_seq(off, n, params@).subrange(0, i + 1));
                assert forall|k: int| 0 <= k < i + 1 implies #[trigger] save_sequence@[k]
                    == Instruction::SetGlobal(save_slot(off, n, params@, i - k) as u32) by {
                    if k > 0 {
                        assert(save_sequence@[k] == old_save[k - 1]);
                    }
                }
            }
            i = i + 1;
        }
        proof {
            assert(restore_seq(off, n, params@).subrange(0, i as int) =~= restore_seq(off, n, params@));
            assert(save_sequence@ =~= save_seq(off, n, params@));
        }
        (save_sequence, restore_sequence)
    }
}

/// Counting a type over one more element of a prefix.
proof fn lemma_count_step(s: Seq<ValueType>, t: ValueType, k: int)
    requires
        0 <= k < s.len(),
    ensures
        count_type(s.subrange(0, k + 1), t) == count_type(s.subrange(0, k), t) + if s[k] == t {
            1int
        } else {
            0int
        },
{
    assert(s.subrange(0, k + 1).drop_last() =~= s.subrange(0, k));
}

/// Longer prefixes hold at least as many parameters of a type, and more
/// when the extra part holds one.
proof fn lemma_count_grows(s: Seq<ValueType>, t: ValueType, i: int, j: int)
    requires
        0 <= i <= j <= s.len(),
    ensures
        count_type(s.subrange(0, i), t) <= count_type(s.subrange(0, j), t),
        i < j && s[i] == t ==> count_type(s.subrange(0, i), t) < count_type(s.subrange(0, j), t),
    decreases j - i,
{
    if i < j {
        lemma_count_grows(s, t, i, j - 1);
        lemma_count_step(s, t, j - 1);
        if s[i] == t && i == j - 1 {
        }
    }
}

/// Different blocks of `n` globals do not overlap.
proof fn lemma_blocks_apart(b1: nat, b2: nat, n: nat, c1: nat, c2: nat)
    requires
        b1 < b2,
        c1 < n,
        c2 < n,
    ensures
        b1 * n + c1 < b2 * n + c2,
{
    assert(b1 * n + n <= b2 * n) by (nonlinear_arith)
        requires
            b1 < b2,
    ;
}

/// With at most `n` parameters of each type, every parameter is saved in a
/// global of its own type among the saved globals, and no two parameters
/// share a global.
pub proof fn lemma_save_slots_distinct(offset: nat, n: nat, params: Seq<ValueType>)
    requires
        forall|t: ValueType| #[trigger] count_type(params, t) <= n,
    ensures
        forall|i: int|
            0 <= i < params.len() ==> offset <= #[trigger] save_slot(offset, n, params, i) < offset + 4 * n
                && saved_globals(n)[save_slot(offset, n, params, i) - offset] == zero_global(params[i]),
        forall|i: int, j: int|
            0 <= i < j < params.len() ==> #[trigger] save_slot(offset, n, params, i) != #[trigger] save_slot(
                offset,
                n,
                params,
                j,
            ),
{
    assert(params.subrange(0, params.len() as int) =~= params);
    assert forall|i: int| 0 <= i < params.len() implies offset <= #[trigger] save_slot(offset, n, params, i) < offset
        + 4 * n && saved_globals(n)[save_slot(offset, n, params, i) - offset] == zero_global(params[i]) by {
        let t = params[i];
        lemma_block_start(t, n);
        lemma_count_grows(params, t, i, params.len() as int);
        assert(count_type(params, t) <= n);
        let c = count_type(params.subrange(0, i), t);
        assert(c < n);
        let b = type_block(t);
        assert(b * n + c < b * n + n);
        assert(b * n + n <= 4 * n) by (nonlinear_arith)
            requires
                b < 4,
        ;
        lemma_saved_global_at(n, b, (b * n + c) as int);
    }
    assert forall|i: int, j: int| 0 <= i < j < params.len() implies #[trigger] save_slot(offset, n, params, i)
        != #[trigger] save_slot(offset, n, params, j) by {
        let ti = params[i];
        let tj = params[j];
        lemma_block_start(ti, n);
        lemma_block_start(tj, n);
        lemma_count_grows(params, ti, i, params.len() as int);
        lemma_count_grows(params, tj, j, params.len() as int);
        assert(count_type(params, ti) <= n);
        assert(count_type(params, tj) <= n);
        let ci = count_type(params.subrange(0, i), ti);
        let cj = count_type(params.subrange(0, j), tj);
        if ti == tj {
            lemma_count_grows(params, ti, i, j);
        } else if type_block(ti) < type_block(tj) {
            lemma_blocks_apart(type_block(ti), type_block(tj), n, ci, cj);
        } else {
            lemma_blocks_apart(type_block(tj), type_block(ti), n, cj, ci);
        }
    }
}

// ---------------------------------------------------------------------------
// The code of a meta mutant
// ---------------------------------------------------------------------------

/// The code that selects among the mutations `ms` of one instruction at run
/// time: for each mutation in turn, ask function `fi` whether its id is the
/// active one; if so, push the saved parameters and run the replacement;
/// after the last mutation, push them and run the original instruction.
pub open spec fn mutant_seq(fi: u32, ms: Seq<Mutation>, restore: Seq<Instruction>) -> Seq<Instruction>
    decreases ms.len(),
{
    if ms.len() == 0 {
        Seq::empty()
    } else {
        let m = ms[0];
        let otherwise = if ms.len() == 1 {
            restore + seq![m.operator.old]
        } else {
            mutant_seq(fi, ms.drop_first(), restore)
        };
        seq![Instruction::I64Const(m.id), Instruction::Call(fi), Instruction::If(m.operator.result_type)]
            + restore + replacement_seq(m.operator.kind, m.operator.new, m.operator.parameters@) + seq![
            Instruction::Else,
        ] + otherwise + seq![Instruction::End]
    }
}

fn extend_instructions(out: &mut Vec<Instruction>, more: &[Instruction])
    ensures
        final(out)@ == old(out)@ + more@,
{
    let ghost start = out@;
    let mut i: usize = 0;
    while i < more.len()
        invariant
            i <= more@.len(),
            out@ == start + more@.subrange(0, i as int),
        decreases more.len() - i,
    {
        out.push(more[i]);
        i = i + 1;
        assert(out@ =~= start + more@.subrange(0, i as int));
    }
    assert(more@.subrange(0, i as int) =~= more@);
}

fn mutant_sequence_from(func_index: u32, mutations: &[Mutation], start: usize, restore_sequence: &[Instruction]) -> (r: Vec<
    Instruction,
>)
    requires
        start < mutations@.len(),
    ensures
        r@ == mutant_seq(func_index, mutations@.subrange(start as int, mutations@.len() as int), restore_sequence@),
    decreases mutations@.len() - start,
{
    let ghost ms = mutations@.subrange(start as int, mutations@.len() as int);
    let mutation = &mutations[start];
    let mut instructions: Vec<Instruction> = Vec::new();
    instructions.push(Instruction::I64Const(mutation.id));
    instructions.push(Instruction::Call(func_index));
    instructions.push(Instruction::If(mutation.operator.result()));
    extend_instructions(&mut instructions, restore_sequence);
    let replacement = mutation.operator.replacement();
    extend_instructions(&mut instructions, replacement.as_slice());
    instructions.push(Instruction::Else);
    let ghost head = instructions@;
    if start + 1 == mutations.len() {
        extend_instructions(&mut instructions, restore_sequence);
        instructions.push(*mutation.operator.old_instruction());
        proof {
            assert(ms[0] == mutations@[start as int]);
            assert(ms.len() == 1);
            assert(instructions@ =~= head + (restore_sequence@ + seq![mutation.operator.old]));
        }
    } else {
        let rest = mutant_sequence_from(func_index, mutations, start + 1, restore_sequence);
        extend_instructions(&mut instructions, rest.as_slice());
        proof {
            assert(ms.drop_first() =~= mutations@.subrange(start + 1, mutations@.len() as int));
        }
    }
    instructions.push(Instruction::End);
    proof {
        assert(ms[0] == mutations@[start as int]);
        assert(instructions@ =~= mutant_seq(func_index, ms, restore_sequence@));
    }
    instructions
}

/// The code that selects among `mutations` of one instruction at run time,
/// using function `func_index` to ask whether a mutation id is active.
pub fn generate_mutant_sequence(func_index: u32, mutations: &[Mutation], restore_sequence: &[Instruction]) -> (r: Vec<
    Instruction,
>)
    requires
        mutations@.len() > 0,
    ensures
        r@ == mutant_seq(func_index, mutations@, restore_sequence@),
{
    let r = mutant_sequence_from(func_index, mutations, 0, restore_sequence);
    assert(mutations@.subrange(0, mutations@.len() as int) =~= mutations@);
    r
}


/// Block `b` (of four) of the saved globals holds zero globals of the
/// `b`-th type.
proof fn lemma_saved_global_at(n: nat, b: nat, k: int)
    requires
        b < 4,
        b * n <= k < b * n + n,
    ensures
        0 <= k < saved_globals(n).len(),
        saved_globals(n)[k] == zero_global(
            if b == 0 {
                ValueType::I32
            } else if b == 1 {
                ValueType::I64
            } else if b == 2 {
                ValueType::F32
            } else {
                ValueType::F64
            },
        ),
{
    assert(saved_globals(n).len() == 4 * n);
    if b == 1 {
        assert(b * n == n);
    } else if b == 2 {
        assert(b * n == 2 * n);
    } else if b == 3 {
        assert(b * n == 3 * n);
    } else {
        assert(b * n == 0);
    }
}

} // verus!

verus! {

// ---------------------------------------------------------------------------
// Applying one mutation
// ---------------------------------------------------------------------------

/// `is` with the instruction at `at` replaced by `code`.
pub open spec fn splice(is: Seq<Instruction>, at: int, code: Seq<Instruction>) -> Seq<Instruction> {
    is.subrange(0, at) + code + is.subrange(at + 1, is.len() as int)
}

/// Mutation `index` of `loc` applies to the module: its function and
/// instruction exist, and the instruction is the one the mutation replaces.
pub open spec fn can_mutate(v: ModuleView, loc: MutationLocation, index: int) -> bool {
    &&& v.code is Some
    &&& 0 <= index < loc.mutations@.len()
    &&& loc.function_number < v.code.unwrap().len()
    &&& loc.statement_number < v.code.unwrap()[loc.function_number as int].0.len()
    &&& v.code.unwrap()[loc.function_number as int].0[loc.statement_number as int]
        == loc.mutations@[index].operator.old
}

/// The module with mutation `index` of `loc` applied: the instruction
/// replaced by the replacement code of the mutation's operator.
pub open spec fn mutated(v: ModuleView, loc: MutationLocation, index: int) -> ModuleView {
    let c = v.code.unwrap();
    let f = loc.function_number as int;
    let op = loc.mutations@[index].operator;
    ModuleView {
        code: Some(
            c.update(
                f,
                (splice(c[f].0, loc.statement_number as int, replacement_seq(op.kind, op.new, op.parameters@)), c[f].1),
            ),
        ),
        ..v
    }
}

impl WasmModule {
    /// Apply mutation `mutation_index` of `mutation_location`.
    fn mutate(&mut self, mutation_location: &MutationLocation, mutation_index: usize)
        requires
            can_mutate(old(self)@, *mutation_location, mutation_index as int),
        ensures
            final(self)@ == mutated(old(self)@, *mutation_location, mutation_index as int),
    {
        let ghost v0 = self@;
        match &mut self.code {
            Some(bodies) => {
                let ghost before = bodies@;
                proof {
                    assert(v0.code.unwrap() == code_view(before));
                    assert(mutation_location.function_number < before.len());
                }
                let n_bodies = bodies.len();
                assert(mutation_location.function_number < n_bodies);
                let f = mutation_location.function_number as usize;
                assert(f as int == mutation_location.function_number as int);
                assert(code_view(before)[f as int].0 == before[f as int].instructions@);
                assert(mutation_location.statement_number < before[f as int].instructions@.len());
                let mutation = &mutation_location.mutations[mutation_index];
                let body = &mut bodies[f];
                mutation.operator.apply(&mut body.instructions, mutation_location.statement_number);
                proof {
                    let op = mutation.operator;
                    assert(code_view(bodies@) =~= code_view(before).update(
                        f as int,
                        (
                            splice(
                                before[f as int].instructions@,
                                mutation_location.statement_number as int,
                                replacement_seq(op.kind, op.new, op.parameters@),
                            ),
                            before[f as int].offsets@,
                        ),
                    ));
                }
            },
            None => {},
        }
    }

    /// A copy of the module with mutation `mutation_index` of `location`
    /// applied.
    pub fn clone_and_mutate(&self, location: &MutationLocation, mutation_index: usize) -> (r: Self)
        requires
            can_mutate(self@, *location, mutation_index as int),
        ensures
            r@ == mutated(self@, *location, mutation_index as int),
    {
        let mut mutant = self.duplicate();
        mutant.mutate(location, mutation_index);
        mutant
    }
}

} // verus!

verus! {

// ---------------------------------------------------------------------------
// Applying all mutations at once
// ---------------------------------------------------------------------------

/// The code for a mutation location is generated with the function that
/// tells whether a mutation is the active one at the largest function
/// index, which no instruction of the module calls. Once that function is
/// imported at index 0, its calls go to index 0 and every other call goes
/// to the next function index, the same callee under the new numbering.
pub open spec fn shift_generated_call(i: Instruction) -> Instruction {
    match i {
        Instruction::Call(f) => if f == u32::MAX {
            Instruction::Call(0)
        } else {
            Instruction::Call((f + 1) as u32)
        },
        _ => i,
    }
}

/// The selection code for mutations `ms` starts by asking function `fi`
/// about the first mutation's id, and ends with the instruction that runs
/// when none of them is active, the last mutation's original instruction,
/// followed by the end of each of the `ms.len()` nested blocks.
proof fn lemma_mutant_seq_ends(fi: u32, ms: Seq<Mutation>, restore: Seq<Instruction>)
    requires
        ms.len() > 0,
    ensures
        ({
            let s = mutant_seq(fi, ms, restore);
            &&& s.len() >= ms.len() + 3
            &&& s[0] == Instruction::I64Const(ms[0].id)
            &&& s[1] == Instruction::Call(fi)
            &&& s[s.len() - 1 - ms.len()] == ms.last().operator.old
            &&& forall|j: int| 0 <= j < ms.len() ==> #[trigger] s[s.len() - 1 - j] == Instruction::End
        }),
    decreases ms.len(),
{
    let m = ms[0];
    let s = mutant_seq(fi, ms, restore);
    let head = seq![Instruction::I64Const(m.id), Instruction::Call(fi), Instruction::If(m.operator.result_type)]
        + restore + replacement_seq(m.operator.kind, m.operator.new, m.operator.parameters@) + seq![
        Instruction::Else,
    ];
    if ms.len() == 1 {
        let otherwise = restore + seq![m.operator.old];
        assert(s == head + otherwise + seq![Instruction::End]);
        assert(s[s.len() - 2] == m.operator.old);
    } else {
        let rest = ms.drop_first();
        lemma_mutant_seq_ends(fi, rest, restore);
        let o = mutant_seq(fi, rest, restore);
        assert(s == head + o + seq![Instruction::End]);
        assert(rest.last() == ms.last());
        assert forall|j: int| 0 <= j < ms.len() implies #[trigger] s[s.len() - 1 - j] == Instruction::End by {
            if j > 0 {
                assert(s[s.len() - 1 - j] == o[o.len() - 1 - (j - 1)]);
            }
        }
        assert(s[s.len() - 1 - ms.len()] == o[o.len() - 1 - rest.len()]);
    }
}

/// The code that a meta mutant puts in place of a location keeps what the
/// original program calls: when no mutation of the location is active, it
/// runs the original instruction, with a call of function `f` turned into a
/// call of function `f + 1` (the same callee once the check function is
/// imported at index 0) and any other instruction kept; and it asks the
/// check function, at index 0, whether the first mutation is active.
pub proof fn lemma_location_code_keeps_callees(loc: MutationLocation, offset: nat, n: nat)
    requires
        loc.mutations@.len() > 0,
        mutation_calls_below_max(loc),
    ensures
        ({
            let c = location_code(loc, offset, n);
            let m = loc.mutations@.len();
            let save = save_seq(offset, n, location_params(loc)).len();
            let old = loc.mutations@[m - 1].operator.old;
            &&& c.len() >= save + m + 3
            &&& c[save as int] == Instruction::I64Const(loc.mutations@[0].id)
            &&& c[save + 1int] == Instruction::Call(0)
            &&& (old matches Instruction::Call(f) ==> c[c.len() - 1 - m] == Instruction::Call((f + 1) as u32))
            &&& (!(old is Call) ==> c[c.len() - 1 - m] == old)
            &&& forall|j: int| 0 <= j < m ==> #[trigger] c[c.len() - 1 - j] == Instruction::End
        }),
{
    let ms = loc.mutations@;
    let params = location_params(loc);
    let sq = mutant_seq(u32::MAX, ms, restore_seq(offset, n, params));
    lemma_mutant_seq_ends(u32::MAX, ms, restore_seq(offset, n, params));
    let sh = sq.map_values(|i: Instruction| shift_generated_call(i));
    let c = location_code(loc, offset, n);
    let save = save_seq(offset, n, params);
    assert(c == save + sh);
    let m = ms.len();
    assert(ms.last() == ms[m - 1]);
    assert(ms[m - 1].operator.old != Instruction::Call(u32::MAX));
    assert(c[c.len() - 1 - m] == sh[sh.len() - 1 - m]);
    assert forall|j: int| 0 <= j < m implies #[trigger] c[c.len() - 1 - j] == Instruction::End by {
        assert(c[c.len() - 1 - j] == sh[sh.len() - 1 - j]);
        assert(sq[sq.len() - 1 - j] == Instruction::End);
    }
    assert(c[save.len() as int] == sh[0]);
    assert(c[save.len() + 1int] == sh[1]);
}

/// The parameters saved for a location: those of its first mutation.
pub open spec fn location_params(loc: MutationLocation) -> Seq<ValueType> {
    loc.mutations@[0].operator.parameters@
}

/// The code that takes the place of the instruction of `loc` in a meta
/// mutant: save the operands, then select among the mutations.
pub open spec fn location_code(loc: MutationLocation, offset: nat, n: nat) -> Seq<Instruction> {
    let params = location_params(loc);
    save_seq(offset, n, params) + mutant_seq(u32::MAX, loc.mutations@, restore_seq(offset, n, params)).map_values(
        |i: Instruction| shift_generated_call(i),
    )
}

/// The bodies after the instruction of `loc` has been replaced by its code;
/// none when `loc` names a function that the module lacks.
pub open spec fn location_applied(
    bodies: Seq<(Seq<Instruction>, Seq<u64>)>,
    loc: MutationLocation,
    offset: nat,
    n: nat,
) -> Option<Seq<(Seq<Instruction>, Seq<u64>)>> {
    let f = loc.function_number as int;
    if f >= bodies.len() {
        None
    } else {
        Some(
            bodies.update(
                f,
                (splice(bodies[f].0, loc.statement_number as int, location_code(loc, offset, n)), bodies[f].1),
            ),
        )
    }
}

/// The bodies after the locations `locs[order[0]]`, `locs[order[1]]`, ...
/// have been applied in turn; none from the first location that names a
/// missing function on.
pub open spec fn locations_applied(
    bodies: Seq<(Seq<Instruction>, Seq<u64>)>,
    locs: Seq<MutationLocation>,
    order: Seq<int>,
    offset: nat,
    n: nat,
) -> Option<Seq<(Seq<Instruction>, Seq<u64>)>>
    decreases order.len(),
{
    if order.len() == 0 {
        Some(bodies)
    } else {
        match locations_applied(bodies, locs, order.drop_last(), offset, n) {
            Some(b) => location_applied(b, locs[order.last()], offset, n),
            None => None,
        }
    }
}

/// Where index `i` goes into `order`, which lists indices by decreasing key:
/// after every index whose key is at least that of `i`.
pub open spec fn insert_position(order: Seq<int>, keys: Seq<u64>, i: int) -> nat
    decreases order.len(),
{
    if order.len() == 0 {
        0
    } else if keys[order[0]] >= keys[i] {
        1 + insert_position(order.drop_first(), keys, i)
    } else {
        0
    }
}

/// The indices of the first `n` keys by decreasing key; indices with equal
/// keys keep their order.
pub open spec fn processing_order(keys: Seq<u64>, n: nat) -> Seq<int>
    decreases n,
{
    if n == 0 {
        Seq::empty()
    } else {
        let o = processing_order(keys, (n - 1) as nat);
        let p = insert_position(o, keys, n - 1) as int;
        o.take(p) + seq![n - 1] + o.skip(p)
    }
}

/// The statement numbers of the locations.
pub open spec fn statement_numbers(locs: Seq<MutationLocation>) -> Seq<u64> {
    locs.map_values(|l: MutationLocation| l.statement_number)
}

/// How many globals of each type save parameters in a meta mutant of a
/// module with the type section `types`: enough for every signature, and
/// for the two operands of a binary operator.
pub open spec fn saved_params_per_type(types: Seq<(Seq<ValueType>, Seq<ValueType>)>) -> nat {
    max_nat(max_same_params(with_signature(types, check_mutant_signature())), 2)
}

/// The meta mutant of a module: one module that holds all mutations of
/// `locs`, each selected at run time through the imported function
/// `__wasmut_check_mutant_id`. Its signature is looked up or added, it is
/// imported at index 0, the other function indices move up by one, the
/// globals that save operands are added, and the locations are applied by
/// decreasing statement number.
pub open spec fn meta_mutant(v: ModuleView, locs: Seq<MutationLocation>) -> Result<ModuleView, ModuleError> {
    if v.types is None {
        Err(ModuleError::NoTypeSection)
    } else if v.imports is None {
        Err(ModuleError::NoImportSection)
    } else {
        let types = v.types.unwrap();
        let ti = signature_index(types, check_mutant_signature()) as u32;
        let v1 = functions_shifted(
            import_prepended(signature_added(v, check_mutant_signature()), "__wasmut_check_mutant_id"@, ti),
        );
        let n = saved_params_per_type(types);
        let gs = match v1.globals {
            Some(g) => g,
            None => Seq::empty(),
        };
        let v2 = ModuleView { globals: Some(gs + saved_globals(n)), ..v1 };
        if v2.code is None {
            Err(ModuleError::NoCodeSection)
        } else {
            match locations_applied(
                v2.code.unwrap(),
                locs,
                processing_order(statement_numbers(locs), locs.len()),
                gs.len(),
                n,
            ) {
                Some(c) => Ok(ModuleView { code: Some(c), ..v2 }),
                None => Err(ModuleError::UnexpectedFunctionIndex),
            }
        }
    }
}

/// The mutations of a location neither replace nor produce a call of the
/// function with the largest index.
pub open spec fn mutation_calls_below_max(l: MutationLocation) -> bool {
    forall|k: int|
        0 <= k < l.mutations@.len() ==> (#[trigger] l.mutations@[k]).operator.old != Instruction::Call(u32::MAX)
            && l.mutations@[k].operator.new != Instruction::Call(u32::MAX)
}

/// What building the meta mutant of `v` for `locs` needs: function indices
/// that can move up, a type section with room for one more signature, at
/// least one mutation per location, an instruction at each location of an
/// existing function, and a number of saved globals that fits in memory.
pub open spec fn meta_mutant_requires(v: ModuleView, locs: Seq<MutationLocation>) -> bool {
    let gl = match v.globals {
        Some(g) => g.len(),
        None => 0,
    };
    &&& indices_below_max(v)
    &&& v.types matches Some(ts) ==> {
        &&& ts.len() < u32::MAX
        &&& gl + 4 * saved_params_per_type(ts) <= usize::MAX
        &&& forall|k: int|
            0 <= k < locs.len() ==> gl + 3 * saved_params_per_type(ts) + location_params(#[trigger] locs[k]).len()
                <= usize::MAX
    }
    &&& forall|k: int| 0 <= k < locs.len() ==> (#[trigger] locs[k]).mutations@.len() > 0
    &&& forall|k: int| 0 <= k < locs.len() ==> mutation_calls_below_max(#[trigger] locs[k])
    &&& v.code matches Some(c) ==> forall|k: int|
        0 <= k < locs.len() && (#[trigger] locs[k]).function_number < c.len() ==> locs[k].statement_number
            < c[locs[k].function_number as int].0.len()
}

} // verus!

verus! {

/// The indices of `locations` by decreasing statement number, indices with
/// equal statement numbers in their original order.
fn processing_order_exec(locations: &[MutationLocation]) -> (order: Vec<usize>)
    ensures
        order@.map_values(|x: usize| x as int) == processing_order(
            statement_numbers(locations@),
            locations@.len(),
        ),
        forall|j: int| 0 <= j < order@.len() ==> #[trigger] order@[j] < locations@.len(),
{
    let ghost keys = statement_numbers(locations@);
    let mut order: Vec<usize> = Vec::new();
    let mut i: usize = 0;
    while i < locations.len()
        invariant
            i <= locations@.len(),
            keys == statement_numbers(locations@),
            order@.map_values(|x: usize| x as int) == processing_order(keys, i as nat),
            forall|j: int| 0 <= j < order@.len() ==> #[trigger] order@[j] < i,
        decreases locations.len() - i,
    {
        let ghost o = order@.map_values(|x: usize| x as int);
        let key = locations[i].statement_number;
        let mut p: usize = 0;
        assert(o.skip(0) =~= o);
        while p < order.len() && locations[order[p]].statement_number >= key
            invariant
                i < locations@.len(),
                keys == statement_numbers(locations@),
                key == keys[i as int],
                o == order@.map_values(|x: usize| x as int),
                forall|j: int| 0 <= j < order@.len() ==> #[trigger] order@[j] < i,
                p <= order@.len(),
                insert_position(o, keys, i as int) == p + insert_position(o.skip(p as int), keys, i as int),
            decreases order.len() - p,
        {
            proof {
                assert(o.skip(p as int).drop_first() =~= o.skip(p + 1));
                assert(o.skip(p as int)[0] == order@[p as int] as int);
            }
            p = p + 1;
        }
        proof {
            if p < order.len() {
                assert(o.skip(p as int)[0] == order@[p as int] as int);
            } else {
                assert(o.skip(p as int).len() == 0);
            }
        }
        let ghost before = order@;
        order.insert(p, i);
        proof {
            assert(order@.map_values(|x: usize| x as int) =~= o.take(p as int) + seq![i as int] + o.skip(
                p as int,
            ));
            assert forall|j: int| 0 <= j < order@.len() implies #[trigger] order@[j] < i + 1 by {
                if j < p {
                    assert(order@[j] == before[j]);
                } else if j > p {
                    assert(order@[j] == before[j - 1]);
                }
            }
        }
        i = i + 1;
    }
    order
}

/// Renumber the calls in generated code: calls of the largest index go to
/// the check function at index 0, every other call to the next index.
fn shift_generated_calls(v: &Vec<Instruction>) -> (r: Vec<Instruction>)
    ensures
        r@ == v@.map_values(|i: Instruction| shift_generated_call(i)),
{
    let mut r: Vec<Instruction> = Vec::new();
    let mut k: usize = 0;
    while k < v.len()
        invariant
            k <= v@.len(),
            r@ == v@.subrange(0, k as int).map_values(|i: Instruction| shift_generated_call(i)),
        decreases v.len() - k,
    {
        let instr = v[k];
        let shifted = match instr {
            Instruction::Call(f) => if f == u32::MAX {
                Instruction::Call(0)
            } else {
                Instruction::Call(f + 1)
            },
            _ => instr,
        };
        r.push(shifted);
        k = k + 1;
        assert(r@ =~= v@.subrange(0, k as int).map_values(|i: Instruction| shift_generated_call(i)));
    }
    assert(v@.subrange(0, k as int) =~= v@);
    r
}

/// `is` with the instruction at `at` replaced by `code`.
fn splice_instructions(is: &Vec<Instruction>, at: usize, code: &Vec<Instruction>) -> (r: Vec<Instruction>)
    requires
        at < is@.len(),
    ensures
        r@ == splice(is@, at as int, code@),
{
    let mut r: Vec<Instruction> = Vec::new();
    let mut k: usize = 0;
    while k < at
        invariant
            k <= at < is@.len(),
            r@ == is@.subrange(0, k as int),
        decreases at - k,
    {
        r.push(is[k]);
        k = k + 1;
        assert(r@ =~= is@.subrange(0, k as int));
    }
    let mut j: usize = 0;
    while j < code.len()
        invariant
            at < is@.len(),
            j <= code@.len(),
            r@ == is@.subrange(0, at as int) + code@.subrange(0, j as int),
        decreases code.len() - j,
    {
        r.push(code[j]);
        j = j + 1;
        assert(r@ =~= is@.subrange(0, at as int) + code@.subrange(0, j as int));
    }
    assert(code@.subrange(0, j as int) =~= code@);
    let len = is.len();
    let mut m: usize = at + 1;
    while m < is.len()
        invariant
            at + 1 <= m <= is@.len(),
            r@ == is@.subrange(0, at as int) + code@ + is@.subrange(at + 1, m as int),
        decreases is.len() - m,
    {
        r.push(is[m]);
        m = m + 1;
        assert(r@ =~= is@.subrange(0, at as int) + code@ + is@.subrange(at + 1, m as int));
    }
    r
}

/// No call of the function with the largest index in a concatenation.
proof fn lemma_calls_below_max_concat(a: Seq<Instruction>, b: Seq<Instruction>)
    requires
        calls_below_max(a),
        calls_below_max(b),
    ensures
        calls_below_max(a + b),
{
    assert forall|k: int| 0 <= k < (a + b).len() implies #[trigger] (a + b)[k] != Instruction::Call(u32::MAX) by {
        if k < a.len() {
            assert((a + b)[k] == a[k]);
        } else {
            assert((a + b)[k] == b[k - a.len()]);
        }
    }
}

/// The selection code of mutations that do not involve the function with the
/// largest index does not call it either.
proof fn lemma_mutant_seq_calls(ms: Seq<Mutation>, restore: Seq<Instruction>)
    requires
        calls_below_max(restore),
        forall|k: int|
            0 <= k < ms.len() ==> (#[trigger] ms[k]).operator.old != Instruction::Call(u32::MAX)
                && ms[k].operator.new != Instruction::Call(u32::MAX),
    ensures
        calls_below_max(mutant_seq(0, ms, restore)),
    decreases ms.len(),
{
    if ms.len() > 0 {
        let m = ms[0];
        assert(m.operator.old != Instruction::Call(u32::MAX));
        let head = seq![Instruction::I64Const(m.id), Instruction::Call(0), Instruction::If(m.operator.result_type)];
        assert(calls_below_max(head));
        let repl = replacement_seq(m.operator.kind, m.operator.new, m.operator.parameters@);
        assert(calls_below_max(repl)) by {
            assert forall|k: int| 0 <= k < repl.len() implies #[trigger] repl[k] != Instruction::Call(u32::MAX) by {
                if crate::operator::removes_call(m.operator.kind) && k < m.operator.parameters@.len() {
                    assert(repl[k] == Instruction::Drop);
                } else {
                    assert(repl[k] == m.operator.new);
                }
            }
        }
        let otherwise = if ms.len() == 1 {
            restore + seq![m.operator.old]
        } else {
            assert forall|k: int| 0 <= k < ms.drop_first().len() implies (#[trigger] ms.drop_first()[k]).operator.old
                != Instruction::Call(u32::MAX) && ms.drop_first()[k].operator.new != Instruction::Call(u32::MAX) by {
                assert(ms.drop_first()[k] == ms[k + 1]);
            }
            lemma_mutant_seq_calls(ms.drop_first(), restore);
            mutant_seq(0, ms.drop_first(), restore)
        };
        if ms.len() == 1 {
            assert(calls_below_max(seq![m.operator.old]));
            lemma_calls_below_max_concat(restore, seq![m.operator.old]);
        }
        assert(calls_below_max(seq![Instruction::Else]));
        assert(calls_below_max(seq![Instruction::End]));
        lemma_calls_below_max_concat(head, restore);
        lemma_calls_below_max_concat(head + restore, repl);
        lemma_calls_below_max_concat(head + restore + repl, seq![Instruction::Else]);
        lemma_calls_below_max_concat(head + restore + repl + seq![Instruction::Else], otherwise);
        lemma_calls_below_max_concat(head + restore + repl + seq![Instruction::Else] + otherwise, seq![Instruction::End]);
    }
}

} // verus!

verus! {

/// Once a location names a missing function, applying more locations
/// cannot succeed.
proof fn lemma_locations_fail_on(
    bodies: Seq<(Seq<Instruction>, Seq<u64>)>,
    locs: Seq<MutationLocation>,
    order: Seq<int>,
    offset: nat,
    n: nat,
    k: int,
    j: int,
)
    requires
        0 <= k < j <= order.len(),
        locations_applied(bodies, locs, order.take(k + 1), offset, n) is None,
    ensures
        locations_applied(bodies, locs, order.take(j), offset, n) is None,
    decreases j - k,
{
    if j > k + 1 {
        lemma_locations_fail_on(bodies, locs, order, offset, n, k, j - 1);
        assert(order.take(j).drop_last() =~= order.take(j - 1));
    }
}

impl WasmModule {
    /// Turn the module into the meta mutant for `locations`.
    fn mutate_all(&mut self, locations: &[MutationLocation]) -> (r: Result<(), ModuleError>)
        requires
            meta_mutant_requires(old(self)@, locations@),
        ensures
            match meta_mutant(old(self)@, locations@) {
                Ok(v) => r is Ok && final(self)@ == v,
                Err(e) => r == Err::<(), ModuleError>(e),
            },
    {
        let ghost v0 = self@;
        let ghost locs = locations@;
        let params: Vec<ValueType> = vec![ValueType::I64];
        let results: Vec<ValueType> = vec![ValueType::I32];
        assert((params@, results@) == check_mutant_signature());
        assert(self.types is Some ==> section_len(self.types) == v0.types.unwrap().len());
        let type_index = match self.find_or_insert_type_signature(&params, &results) {
            Ok(t) => t,
            Err(e) => {
                return Err(e);
            },
        };
        let function_index = match self.add_trace_function_import("__wasmut_check_mutant_id", type_index) {
            Ok(f) => f,
            Err(e) => {
                return Err(e);
            },
        };
        let ghost v2 = self@;
        proof {
            assert(v2.code == v0.code && v2.exports == v0.exports && v2.elements == v0.elements
                && v2.tables == v0.tables);
            if self.code is Some {
                let bs = self.code->0;
                assert forall|k: int| 0 <= k < bs@.len() implies crate::wasmmodule::rewrite::calls_below_max(
                    #[trigger] bs@[k].instructions@,
                ) by {
                    assert(code_view(bs@)[k].0 == bs@[k].instructions@);
                }
            }
            if self.exports is Some {
                let es = self.exports->0;
                assert forall|k: int| 0 <= k < es@.len() implies (#[trigger] es@[k]).internal
                    != crate::wasmmodule::Internal::Function(u32::MAX) by {
                    assert(crate::wasmmodule::exports_view(es@)[k].1 == es@[k].internal);
                }
            }
            if self.elements is Some {
                let es = self.elements->0;
                assert forall|k: int, j: int|
                    0 <= k < es@.len() && crate::wasmmodule::rewrite::is_function_table(
                        self@.tables,
                        es@[k].index,
                    ) && 0 <= j < es@[k].members@.len() implies #[trigger] es@[k].members@[j] < u32::MAX by {
                    assert(crate::wasmmodule::elements_view(es@)[k] == (es@[k].index, es@[k].members@));
                    assert(v0.elements.unwrap()[k].1[j] == es@[k].members@[j]);
                }
            }
        }
        self.fix_call_instructions();
        self.fix_tables();
        self.fix_exports();
        let ghost v3 = self@;
        assert(v3 == functions_shifted(v2));
        let max = self.max_number_of_params_of_same_type();
        let number_of_saved_params: usize = if max < 2 {
            2
        } else {
            max
        };
        let ghost n = number_of_saved_params as nat;
        assert(n == saved_params_per_type(v0.types.unwrap()));
        let mut globals = match self.globals.take() {
            Some(g) => g,
            None => Vec::new(),
        };
        let ghost gs = globals_view(globals@);
        let parameter_saver = ParameterSaver::new(number_of_saved_params, &mut globals);
        self.globals = Some(globals);
        let ghost v4 = self@;
        assert(v4 == ModuleView { globals: Some(gs + saved_globals(n)), ..v3 });
        let order = processing_order_exec(locations);
        let ghost ord = order@.map_values(|x: usize| x as int);
        let ghost offset = gs.len();
        assert(parameter_saver.spec_offset() == offset);
        match &mut self.code {
            None => {
                return Err(ModuleError::NoCodeSection);
            },
            Some(bodies) => {
                let ghost code0 = code_view(bodies@);
                assert(v4.code == Some(code0));
                assert(forall|j: int| 0 <= j < code0.len() ==> #[trigger] code0[j].0.len() == v0.code.unwrap()[j].0.len());
                assert(meta_mutant(v0, locs) == match locations_applied(code0, locs, ord, offset, n) {
                    Some(c) => Ok(ModuleView { code: Some(c), ..v4 }),
                    None => Err(ModuleError::UnexpectedFunctionIndex),
                });
                let mut k: usize = 0;
                while k < order.len()
                    invariant
                        old(self)@ == v0,
                        meta_mutant(v0, locs) == match locations_applied(code0, locs, ord, offset, n) {
                            Some(c) => Ok(ModuleView { code: Some(c), ..v4 }),
                            None => Err(ModuleError::UnexpectedFunctionIndex),
                        },
                        k <= order@.len(),
                        ord == order@.map_values(|x: usize| x as int),
                        ord == processing_order(statement_numbers(locs), locs.len()),
                        forall|j: int| 0 <= j < order@.len() ==> #[trigger] order@[j] < locs.len(),
                        locs == locations@,
                        meta_mutant_requires(v0, locs),
                        v0.types is Some,
                        n == saved_params_per_type(v0.types.unwrap()),
                        number_of_saved_params == n,
                        parameter_saver.spec_offset() == offset,
                        parameter_saver.spec_number_of_saved_params() == n,
                        offset == match v0.globals {
                            Some(g) => g.len(),
                            None => 0nat,
                        },
                        function_index == 0,
                        v0.code is Some,
                        code0.len() == v0.code.unwrap().len(),
                        forall|j: int| 0 <= j < code0.len() ==> #[trigger] code0[j].0.len() == v0.code.unwrap()[j].0.len(),
                        bodies@.len() == code0.len(),
                        forall|j: int| 0 <= j < code0.len() ==> #[trigger] bodies@[j].instructions@.len() >= code0[j].0.len(),
                        locations_applied(code0, locs, ord.take(k as int), offset, n) == Some(code_view(bodies@)),
                    decreases order.len() - k,
                {
                    let idx = order[k];
                    let location = &locations[idx];
                    let ghost cur = code_view(bodies@);
                    proof {
                        assert(ord.take(k + 1).drop_last() =~= ord.take(k as int));
                        assert(ord.take(k + 1).last() == idx as int);
                    }
                    if location.function_number >= bodies.len() as u64 {
                        proof {
                            assert(location.function_number >= cur.len());
                            assert(location_applied(cur, locs[idx as int], offset, n) is None);
                            assert(locations_applied(code0, locs, ord.take(k + 1), offset, n) is None);
                            if k + 1 < ord.len() {
                                lemma_locations_fail_on(code0, locs, ord, offset, n, k as int, ord.len() as int);
                            }
                            assert(ord.take(ord.len() as int) =~= ord);
                            assert(locations_applied(code0, locs, ord, offset, n) is None);
                            assert(ord == processing_order(statement_numbers(locs), locs.len()));
                            assert(meta_mutant(v0, locs) == Err::<ModuleView, ModuleError>(ModuleError::UnexpectedFunctionIndex));
                        }
                        return Err(ModuleError::UnexpectedFunctionIndex);
                    }
                    let f = location.function_number as usize;
                    assert(f as int == location.function_number as int);
                    assert(locs[idx as int] == *location);
                    assert(location.mutations@.len() > 0);
                    let params = location.mutations[0].operator.parameters();
                    let (save_sequence, restore_sequence) = parameter_saver.save_sequence(params);
                    proof {
                        assert(mutation_calls_below_max(locs[idx as int]));
                        assert forall|j: int| 0 <= j < restore_sequence@.len() implies #[trigger] restore_sequence@[j]
                            != Instruction::Call(u32::MAX) by {}
                        lemma_mutant_seq_calls(location.mutations@, restore_sequence@);
                    }
                    let new_sequence = generate_mutant_sequence(
                        u32::MAX,
                        location.mutations.as_slice(),
                        restore_sequence.as_slice(),
                    );
                    let shifted = shift_generated_calls(&new_sequence);
                    let mut code = save_sequence;
                    extend_instructions(&mut code, shifted.as_slice());
                    assert(code@ == location_code(*location, offset, n));
                    let cur_len = bodies[f].instructions.len();
                    proof {
                        assert(cur[f as int].0 == bodies@[f as int].instructions@);
                        assert(location.statement_number < code0[f as int].0.len());
                    }
                    assert(location.statement_number < cur_len);
                    let stmt = location.statement_number as usize;
                    proof {
                        assert(cur[f as int].0 == bodies@[f as int].instructions@);
                        assert(location.statement_number < code0[f as int].0.len());
                        assert(stmt as int == location.statement_number as int);
                    }
                    let spliced = splice_instructions(&bodies[f].instructions, stmt, &code);
                    let ghost before = bodies@;
                    let body = &mut bodies[f];
                    body.instructions = spliced;
                    proof {
                        assert(location_code(*location, offset, n).len() >= 1);
                        assert(code_view(bodies@) =~= cur.update(
                            f as int,
                            (splice(cur[f as int].0, location.statement_number as int, location_code(*location, offset, n)), cur[f as int].1),
                        ));
                        assert(forall|j: int| 0 <= j < code0.len() && j != f ==> bodies@[j] == before[j]);
                    }
                    k = k + 1;
                }
                proof {
                    assert(ord.take(k as int) =~= ord);
                }
            },
        }
        Ok(())
    }

    /// The meta mutant of the module for `locations`: a copy that holds all
    /// their mutations, the active one chosen at run time.
    pub fn clone_and_mutate_all(&self, locations: &[MutationLocation]) -> (r: Result<Self, ModuleError>)
        requires
            meta_mutant_requires(self@, locations@),
        ensures
            match meta_mutant(self@, locations@) {
                Ok(v) => r matches Ok(m) && m@ == v,
                Err(e) => r matches Err(e2) && e2 == e,
            },
    {
        let mut mutant = self.duplicate();
        match mutant.mutate_all(locations) {
            Ok(()) => Ok(mutant),
            Err(e) => Err(e),
        }
    }
}

} // verus!

verus! {

// ---------------------------------------------------------------------------
// The order in which locations are applied
// ---------------------------------------------------------------------------

/// `o` lists indices by non-increasing key, indices with equal keys in
/// increasing order.
pub open spec fn sorted_by_key_desc(o: Seq<int>, keys: Seq<u64>) -> bool {
    forall|a: int, b: int|
        0 <= a < b < o.len() ==> keys[o[a]] > keys[o[b]] || (keys[o[a]] == keys[o[b]] && o[a] < o[b])
}

/// `o` holds each of the indices `0..n` exactly once.
pub open spec fn permutation_of(o: Seq<int>, n: nat) -> bool {
    &&& o.len() == n
    &&& forall|a: int| 0 <= a < o.len() ==> 0 <= #[trigger] o[a] < n
    &&& forall|a: int, b: int| 0 <= a < b < o.len() ==> o[a] != o[b]
}

/// Where `insert_position` puts an index: after the entries whose key is
/// at least its key, before the first entry whose key is smaller.
proof fn lemma_insert_position(o: Seq<int>, keys: Seq<u64>, i: int)
    requires
        forall|a: int| 0 <= a < o.len() ==> 0 <= #[trigger] o[a] < keys.len(),
        0 <= i < keys.len(),
    ensures
        insert_position(o, keys, i) <= o.len(),
        forall|a: int| 0 <= a < insert_position(o, keys, i) ==> keys[#[trigger] o[a]] >= keys[i],
        insert_position(o, keys, i) < o.len() ==> keys[o[insert_position(o, keys, i) as int]] < keys[i],
    decreases o.len(),
{
    if o.len() > 0 && keys[o[0]] >= keys[i] {
        let rest = o.drop_first();
        assert forall|a: int| 0 <= a < rest.len() implies 0 <= #[trigger] rest[a] < keys.len() by {
            assert(rest[a] == o[a + 1]);
        }
        lemma_insert_position(rest, keys, i);
        assert forall|a: int| 0 <= a < insert_position(o, keys, i) implies keys[#[trigger] o[a]] >= keys[i] by {
            if a > 0 {
                assert(o[a] == rest[a - 1]);
            }
        }
        if insert_position(o, keys, i) < o.len() {
            assert(o[insert_position(o, keys, i) as int] == rest[insert_position(rest, keys, i) as int]);
        }
    }
}

/// Locations are applied by decreasing statement number; locations with
/// the same statement number keep their order; every location is applied
/// exactly once.
pub proof fn lemma_processing_order(keys: Seq<u64>, n: nat)
    requires
        n <= keys.len(),
    ensures
        permutation_of(processing_order(keys, n), n),
        sorted_by_key_desc(processing_order(keys, n), keys),
    decreases n,
{
    if n > 0 {
        let m = (n - 1) as nat;
        lemma_processing_order(keys, m);
        let o = processing_order(keys, m);
        let i = n - 1;
        lemma_insert_position(o, keys, i);
        let p = insert_position(o, keys, i) as int;
        let r = o.take(p) + seq![i] + o.skip(p);
        assert(r == processing_order(keys, n));
        assert forall|a: int| 0 <= a < r.len() implies r[a] == if a < p {
            o[a]
        } else if a == p {
            i
        } else {
            o[a - 1]
        } by {}
        assert forall|a: int| 0 <= a < r.len() implies 0 <= #[trigger] r[a] < n by {
            if a < p {
                assert(r[a] == o[a]);
            } else if a > p {
                assert(r[a] == o[a - 1]);
            }
        }
        assert forall|a: int, b: int| 0 <= a < b < r.len() implies r[a] != r[b] by {
            if a < p {
                assert(r[a] == o[a]);
            } else if a > p {
                assert(r[a] == o[a - 1]);
            }
            if b < p {
                assert(r[b] == o[b]);
            } else if b > p {
                assert(r[b] == o[b - 1]);
            }
        }
        assert forall|a: int, b: int| 0 <= a < b < r.len() implies keys[r[a]] > keys[r[b]] || (keys[r[a]]
            == keys[r[b]] && r[a] < r[b]) by {
            if a < p && b < p {
                assert(r[a] == o[a] && r[b] == o[b]);
            } else if a < p && b == p {
                assert(r[a] == o[a] && r[b] == i);
                assert(keys[o[a]] >= keys[i]);
            } else if a < p && b > p {
                assert(r[a] == o[a] && r[b] == o[b - 1]);
            } else if a == p {
                assert(r[a] == i && r[b] == o[b - 1]);
                assert(keys[o[p]] < keys[i]);
                if b - 1 > p {
                    assert(keys[o[p]] >= keys[o[b - 1]]);
                }
            } else {
                assert(r[a] == o[a - 1] && r[b] == o[b - 1]);
            }
        }
    }
}

} // verus!

verus! {

/// No two locations name the same instruction.
pub open spec fn distinct_locations(locs: Seq<MutationLocation>) -> bool {
    forall|a: int, b: int|
        0 <= a < b < locs.len() ==> (#[trigger] locs[a]).function_number != (#[trigger] locs[b]).function_number
            || locs[a].statement_number != locs[b].statement_number
}

/// Every location in an existing function names one of its instructions.
pub open spec fn locations_in_bodies(bodies: Seq<(Seq<Instruction>, Seq<u64>)>, locs: Seq<MutationLocation>) -> bool {
    forall|a: int|
        0 <= a < locs.len() && (#[trigger] locs[a]).function_number < bodies.len() ==> locs[a].statement_number
            < bodies[locs[a].function_number as int].0.len()
}

/// Every location has a mutation.
pub open spec fn locations_have_mutations(locs: Seq<MutationLocation>) -> bool {
    forall|a: int| 0 <= a < locs.len() ==> (#[trigger] locs[a]).mutations@.len() > 0
}

/// Applying locations in turn never shortens a body, and leaves the start of
/// a body alone up to the statements of the locations applied to it.
proof fn lemma_applied_prefixes(
    bodies: Seq<(Seq<Instruction>, Seq<u64>)>,
    locs: Seq<MutationLocation>,
    ord: Seq<int>,
    offset: nat,
    n: nat,
    q: int,
)
    requires
        0 <= q <= ord.len(),
        forall|a: int| 0 <= a < ord.len() ==> 0 <= #[trigger] ord[a] < locs.len(),
        locations_in_bodies(bodies, locs),
        locations_have_mutations(locs),
        locations_applied(bodies, locs, ord.take(q), offset, n) is Some,
    ensures
        ({
            let cur = locations_applied(bodies, locs, ord.take(q), offset, n).unwrap();
            &&& cur.len() == bodies.len()
            &&& forall|g: int| 0 <= g < bodies.len() ==> (#[trigger] cur[g]).0.len() >= bodies[g].0.len()
            &&& forall|g: int, u: int|
                0 <= g < bodies.len() && 0 <= u <= bodies[g].0.len() && (forall|r: int|
                    0 <= r < q && (#[trigger] locs[ord[r]]).function_number == g ==> locs[ord[r]].statement_number
                        >= u) ==> #[trigger] cur[g].0.subrange(0, u) == bodies[g].0.subrange(0, u)
        }),
    decreases q,
{
    if q > 0 {
        assert(ord.take(q).drop_last() =~= ord.take(q - 1));
        assert(ord.take(q).last() == ord[q - 1]);
        lemma_applied_prefixes(bodies, locs, ord, offset, n, q - 1);
        let prev = locations_applied(bodies, locs, ord.take(q - 1), offset, n).unwrap();
        let cur = locations_applied(bodies, locs, ord.take(q), offset, n).unwrap();
        let l = locs[ord[q - 1]];
        let f = l.function_number as int;
        let s = l.statement_number as int;
        let code = location_code(l, offset, n);
        assert(l.mutations@.len() > 0);
        assert(code.len() >= 1) by {
            let ms = mutant_seq(u32::MAX, l.mutations@, restore_seq(offset, n, location_params(l)));
            assert(ms.len() >= 3);
        }
        assert(f < prev.len());
        assert(s < bodies[f].0.len());
        assert(cur == prev.update(f, (splice(prev[f].0, s, code), prev[f].1)));
        assert forall|g: int| 0 <= g < bodies.len() implies (#[trigger] cur[g]).0.len() >= bodies[g].0.len() by {
            if g == f {
                assert(cur[g].0.len() == prev[f].0.len() + code.len() - 1);
            }
        }
        assert forall|g: int, u: int|
            0 <= g < bodies.len() && 0 <= u <= bodies[g].0.len() && (forall|r: int|
                0 <= r < q && (#[trigger] locs[ord[r]]).function_number == g ==> locs[ord[r]].statement_number >= u)
                implies #[trigger] cur[g].0.subrange(0, u) == bodies[g].0.subrange(0, u) by {
            assert(forall|r: int|
                0 <= r < q - 1 && (#[trigger] locs[ord[r]]).function_number == g ==> locs[ord[r]].statement_number
                    >= u);
            assert(prev[g].0.subrange(0, u) == bodies[g].0.subrange(0, u));
            if g == f {
                assert(locs[ord[q - 1]].function_number == g);
                assert(s >= u);
                assert(cur[g].0.subrange(0, u) =~= prev[g].0.subrange(0, u));
            }
        }
    }
}

/// In a meta mutant the code of each location takes the place of the
/// instruction that the location names: when a location is applied, its
/// function still holds its original instructions up to and including the
/// named one, because locations are applied by decreasing statement number.
pub proof fn lemma_meta_mutant_replaces_named_instructions(
    bodies: Seq<(Seq<Instruction>, Seq<u64>)>,
    locs: Seq<MutationLocation>,
    offset: nat,
    n: nat,
    p: int,
)
    requires
        distinct_locations(locs),
        locations_in_bodies(bodies, locs),
        locations_have_mutations(locs),
        0 <= p < locs.len(),
        locations_applied(
            bodies,
            locs,
            processing_order(statement_numbers(locs), locs.len()).take(p),
            offset,
            n,
        ) is Some,
        locs[processing_order(statement_numbers(locs), locs.len())[p]].function_number < bodies.len(),
    ensures
        ({
            let ord = processing_order(statement_numbers(locs), locs.len());
            let l = locs[ord[p]];
            let cur = locations_applied(bodies, locs, ord.take(p), offset, n).unwrap();
            cur[l.function_number as int].0.subrange(0, l.statement_number + 1) == bodies[l.function_number as int].0.subrange(
                0,
                l.statement_number + 1,
            )
        }),
{
    let keys = statement_numbers(locs);
    let ord = processing_order(keys, locs.len());
    lemma_processing_order(keys, locs.len());
    lemma_applied_prefixes(bodies, locs, ord, offset, n, p);
    let l = locs[ord[p]];
    let f = l.function_number as int;
    let s = l.statement_number as int;
    assert(s < bodies[f].0.len());
    assert forall|r: int| 0 <= r < p && (#[trigger] locs[ord[r]]).function_number == f implies locs[ord[r]].statement_number
        >= s + 1 by {
        assert(keys[ord[r]] >= keys[ord[p]]);
        assert(ord[r] != ord[p]);
        assert(keys[ord[r]] == locs[ord[r]].statement_number);
        assert(keys[ord[p]] == locs[ord[p]].statement_number);
        if ord[r] < ord[p] {
            assert(locs[ord[r]].function_number != locs[ord[p]].function_number || locs[ord[r]].statement_number
                != locs[ord[p]].statement_number);
        } else {
            assert(locs[ord[p]].function_number != locs[ord[r]].function_number || locs[ord[p]].statement_number
                != locs[ord[r]].statement_number);
        }
    }
}

} // verus!
