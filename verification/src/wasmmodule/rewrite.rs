//! Rewriting a module: new signatures and imports, shifted function
//! indices and coverage trace calls.
use vstd::prelude::*;

use crate::instruction::{Instruction, ValueType};
use crate::wasmmodule::{
    ModuleView, code_view, globals_view,
    ElementSegment, ExportEntry, External, FuncBody, FunctionType, ImportEntry, Internal, ModuleError,
    TableElementType, WasmModule, copy_value_types, section_len, ft_view, types_view, import_view,
    imports_view, exports_view, elements_view,
};

verus! {

// ---------------------------------------------------------------------------
// Rewriting the module
// ---------------------------------------------------------------------------

/// A call to function `f` calls function `f + 1` instead.
pub open spec fn bump_call(i: Instruction) -> Instruction {
    match i {
        Instruction::Call(f) => Instruction::Call((f + 1) as u32),
        _ => i,
    }
}

/// No instruction calls the function with the largest index.
pub open spec fn calls_below_max(is: Seq<Instruction>) -> bool {
    forall|k: int| 0 <= k < is.len() ==> #[trigger] is[k] != Instruction::Call(u32::MAX)
}

/// The instructions of each function body.
pub open spec fn bodies_instrs(bs: Seq<FuncBody>) -> Seq<Seq<Instruction>> {
    bs.map_values(|b: FuncBody| b.instructions@)
}

/// The instruction offsets of each function body.
pub open spec fn bodies_offsets(bs: Seq<FuncBody>) -> Seq<Seq<u64>> {
    bs.map_values(|b: FuncBody| b.offsets@)
}

/// An export of function `f` exports function `f + 1` instead.
pub open spec fn bump_internal(i: Internal) -> Internal {
    match i {
        Internal::Function(f) => Internal::Function((f + 1) as u32),
        _ => i,
    }
}

/// Table `index` holds functions.
pub open spec fn is_function_table(tables: Option<Seq<TableElementType>>, index: u32) -> bool {
    match tables {
        Some(ts) => index < ts.len() && ts[index as int] == TableElementType::AnyFunc,
        None => false,
    }
}

/// Every function index of the list grows by one.
pub open spec fn bump_indices(ms: Seq<u32>) -> Seq<u32> {
    ms.map_values(|f: u32| (f + 1) as u32)
}

/// The element segment after function indices moved up by one: only
/// segments of function tables change.
pub open spec fn bump_segment(tables: Option<Seq<TableElementType>>, e: (u32, Seq<u32>)) -> (u32, Seq<u32>) {
    if is_function_table(tables, e.0) {
        (e.0, bump_indices(e.1))
    } else {
        e
    }
}

/// The instructions of a body after a call to the trace function has been
/// put before each of the first `n` instructions, with the instruction's
/// offset relative to the code section as argument.
pub open spec fn traced(is: Seq<Instruction>, os: Seq<u64>, base: u64, fi: u32, n: int) -> Seq<Instruction>
    decreases n,
{
    if n <= 0 {
        Seq::empty()
    } else {
        traced(is, os, base, fi, n - 1) + seq![
            Instruction::I64Const((os[n - 1] - base) as i64),
            Instruction::Call(fi),
            is[n - 1],
        ]
    }
}

/// The smaller of two integers.
pub open spec fn min_int(a: int, b: int) -> int {
    if a < b {
        a
    } else {
        b
    }
}

/// How often type `t` occurs in a list.
pub open spec fn count_type(ps: Seq<ValueType>, t: ValueType) -> nat
    decreases ps.len(),
{
    if ps.len() == 0 {
        0
    } else {
        count_type(ps.drop_last(), t) + if ps.last() == t {
            1nat
        } else {
            0nat
        }
    }
}

/// The larger of two naturals.
pub open spec fn max_nat(a: nat, b: nat) -> nat {
    if a < b {
        b
    } else {
        a
    }
}

/// The largest number of parameters of one and the same type that a
/// signature of the list has.
pub open spec fn max_same_params(ts: Seq<(Seq<ValueType>, Seq<ValueType>)>) -> nat
    decreases ts.len(),
{
    if ts.len() == 0 {
        0
    } else {
        let ps = ts.last().0;
        max_nat(
            max_same_params(ts.drop_last()),
            max_nat(
                max_nat(count_type(ps, ValueType::I32), count_type(ps, ValueType::I64)),
                max_nat(count_type(ps, ValueType::F32), count_type(ps, ValueType::F64)),
            ),
        )
    }
}

/// The index of the first signature of `ts` equal to `sig`, or the length
/// of `ts` when there is none.
pub open spec fn signature_index(
    ts: Seq<(Seq<ValueType>, Seq<ValueType>)>,
    sig: (Seq<ValueType>, Seq<ValueType>),
) -> nat
    decreases ts.len(),
{
    if ts.len() == 0 {
        0
    } else {
        let p = signature_index(ts.drop_last(), sig);
        if p < ts.len() - 1 {
            p
        } else if ts.last() == sig {
            (ts.len() - 1) as nat
        } else {
            ts.len()
        }
    }
}

/// The type section after `sig` has been looked up, and added when missing.
pub open spec fn with_signature(
    ts: Seq<(Seq<ValueType>, Seq<ValueType>)>,
    sig: (Seq<ValueType>, Seq<ValueType>),
) -> Seq<(Seq<ValueType>, Seq<ValueType>)> {
    if signature_index(ts, sig) < ts.len() {
        ts
    } else {
        ts.push(sig)
    }
}

/// `signature_index` is the first index of `sig`, or the length of the
/// section where `sig` is missing.
proof fn lemma_signature_index_first(ts: Seq<(Seq<ValueType>, Seq<ValueType>)>, sig: (Seq<ValueType>, Seq<ValueType>))
    ensures
        signature_index(ts, sig) <= ts.len(),
        forall|k: int| 0 <= k < signature_index(ts, sig) ==> ts[k] != sig,
        signature_index(ts, sig) < ts.len() ==> ts[signature_index(ts, sig) as int] == sig,
    decreases ts.len(),
{
    if ts.len() > 0 {
        let prefix = ts.drop_last();
        lemma_signature_index_first(prefix, sig);
        assert forall|k: int| 0 <= k < prefix.len() implies prefix[k] == ts[k] by {}
    }
}

/// Looking a signature up twice is looking it up once: after
/// `find_or_insert_type_signature` has found or added `sig`, a second call
/// with the same signature returns the same index and leaves the module as
/// it is; the signature stands at that index.
pub proof fn lemma_signature_lookup_idempotent(v: ModuleView, sig: (Seq<ValueType>, Seq<ValueType>))
    requires
        v.types is Some,
    ensures
        ({
            let ts = v.types->0;
            let once = signature_added(v, sig);
            &&& signature_index(ts, sig) < with_signature(ts, sig).len()
            &&& with_signature(ts, sig)[signature_index(ts, sig) as int] == sig
            &&& signature_index(once.types->0, sig) == signature_index(ts, sig)
            &&& signature_added(once, sig) == once
        }),
{
    let ts = v.types->0;
    lemma_signature_index_first(ts, sig);
    let i = signature_index(ts, sig) as int;
    let ws = with_signature(ts, sig);
    assert forall|k: int| 0 <= k < i implies ws[k] != sig by {
        assert(ws[k] == ts[k]);
    }
    lemma_signature_index(ws, sig, i);
    assert(signature_added(signature_added(v, sig), sig) =~= signature_added(v, sig));
}

/// An index before which no signature equals `sig`, and at which `sig` is
/// found or the section ends, is `signature_index`.
proof fn lemma_signature_index(
    ts: Seq<(Seq<ValueType>, Seq<ValueType>)>,
    sig: (Seq<ValueType>, Seq<ValueType>),
    i: int,
)
    requires
        0 <= i <= ts.len(),
        forall|k: int| 0 <= k < i ==> ts[k] != sig,
        i < ts.len() ==> ts[i] == sig,
    ensures
        i == signature_index(ts, sig),
    decreases ts.len(),
{
    if ts.len() > 0 {
        let prefix = ts.drop_last();
        if i < ts.len() - 1 {
            lemma_signature_index(prefix, sig, i);
        } else {
            lemma_signature_index(prefix, sig, (ts.len() - 1) as int);
        }
    }
}

// ---------------------------------------------------------------------------
// Rewriting steps on the content of a module
// ---------------------------------------------------------------------------

/// The signature `(i64) -> ()` of the coverage trace function.
pub open spec fn trace_signature() -> (Seq<ValueType>, Seq<ValueType>) {
    (seq![ValueType::I64], Seq::empty())
}

/// The signature `(i64) -> i32` of the function that tells whether a mutant
/// is the active one.
pub open spec fn check_mutant_signature() -> (Seq<ValueType>, Seq<ValueType>) {
    (seq![ValueType::I64], seq![ValueType::I32])
}

/// The module after `sig` has been looked up in its type section, and
/// added when missing.
pub open spec fn signature_added(v: ModuleView, sig: (Seq<ValueType>, Seq<ValueType>)) -> ModuleView {
    ModuleView { types: Some(with_signature(v.types.unwrap(), sig)), ..v }
}

/// The module after an import of function `name` from `wasmut_api`, with
/// the signature at `type_index`, has been put first in its import section.
pub open spec fn import_prepended(v: ModuleView, name: Seq<char>, type_index: u32) -> ModuleView {
    ModuleView {
        imports: Some(seq![("wasmut_api"@, name, External::Function(type_index))] + v.imports.unwrap()),
        ..v
    }
}

/// A body whose calls go to the next function index.
pub open spec fn shift_body(b: (Seq<Instruction>, Seq<u64>)) -> (Seq<Instruction>, Seq<u64>) {
    (b.0.map_values(|i: Instruction| bump_call(i)), b.1)
}

/// The module after every function index has moved up by one, to make room
/// for an imported function at index 0: calls, function exports and the
/// members of function tables.
pub open spec fn functions_shifted(v: ModuleView) -> ModuleView {
    ModuleView {
        code: match v.code {
            Some(c) => Some(c.map_values(|b: (Seq<Instruction>, Seq<u64>)| shift_body(b))),
            None => None,
        },
        exports: match v.exports {
            Some(es) => Some(es.map_values(|e: (Seq<char>, Internal)| (e.0, bump_internal(e.1)))),
            None => None,
        },
        elements: match v.elements {
            Some(es) => Some(es.map_values(|e: (u32, Seq<u32>)| bump_segment(v.tables, e))),
            None => None,
        },
        ..v
    }
}

/// A body with a call of `fi` before each instruction that has an offset.
pub open spec fn trace_body(b: (Seq<Instruction>, Seq<u64>), base: u64, fi: u32) -> (Seq<Instruction>, Seq<u64>) {
    (traced(b.0, b.1, base, fi, min_int(b.0.len() as int, b.1.len() as int)), b.1)
}

/// The module after a call of trace function `fi` has been put before every
/// instruction that has an offset.
pub open spec fn trace_calls_added(v: ModuleView, fi: u32) -> ModuleView {
    ModuleView {
        code: match v.code {
            Some(c) => Some(c.map_values(|b: (Seq<Instruction>, Seq<u64>)| trace_body(b, v.code_section_offset, fi))),
            None => None,
        },
        ..v
    }
}

/// Every function index that moves up by one stays representable: no call
/// of, export of or function table entry for the function with the largest
/// index.
pub open spec fn indices_below_max(v: ModuleView) -> bool {
    &&& v.code matches Some(c) ==> forall|k: int| 0 <= k < c.len() ==> calls_below_max(#[trigger] c[k].0)
    &&& v.exports matches Some(es) ==> forall|k: int|
        0 <= k < es.len() ==> (#[trigger] es[k]).1 != Internal::Function(u32::MAX)
    &&& v.elements matches Some(es) ==> forall|k: int, j: int|
        0 <= k < es.len() && is_function_table(v.tables, es[k].0) && 0 <= j < es[k].1.len()
            ==> #[trigger] es[k].1[j] < u32::MAX
}

/// No instruction offset lies before the code section.
pub open spec fn offsets_in_code_section(v: ModuleView) -> bool {
    v.code matches Some(c) ==> forall|k: int, j: int|
        0 <= k < c.len() && 0 <= j < c[k].1.len() ==> #[trigger] c[k].1[j] >= v.code_section_offset
}

/// The module with coverage tracing: the trace function imported at index 0
/// and called before every instruction with its offset in the code section.
pub open spec fn trace_instrumented(v: ModuleView) -> Result<ModuleView, ModuleError> {
    if v.types is None {
        Err(ModuleError::NoTypeSection)
    } else if v.imports is None {
        Err(ModuleError::NoImportSection)
    } else {
        let ti = signature_index(v.types.unwrap(), trace_signature()) as u32;
        Ok(
            trace_calls_added(
                functions_shifted(import_prepended(signature_added(v, trace_signature()), "__wasmut_trace"@, ti)),
                0,
            ),
        )
    }
}

/// The layout of a traced body: for the `j`-th instruction, its offset,
/// the call of the trace function, then the instruction.
proof fn lemma_traced_layout(is: Seq<Instruction>, os: Seq<u64>, base: u64, fi: u32, n: int)
    requires
        0 <= n <= is.len(),
        n <= os.len(),
    ensures
        traced(is, os, base, fi, n).len() == 3 * n,
        forall|j: int|
            0 <= j < n ==> {
                &&& #[trigger] traced(is, os, base, fi, n)[3 * j] == Instruction::I64Const((os[j] - base) as i64)
                &&& traced(is, os, base, fi, n)[3 * j + 1] == Instruction::Call(fi)
                &&& traced(is, os, base, fi, n)[3 * j + 2] == is[j]
            },
    decreases n,
{
    if n > 0 {
        lemma_traced_layout(is, os, base, fi, n - 1);
        let prev = traced(is, os, base, fi, n - 1);
        let t = traced(is, os, base, fi, n);
        assert forall|j: int| 0 <= j < n implies {
            &&& #[trigger] t[3 * j] == Instruction::I64Const((os[j] - base) as i64)
            &&& t[3 * j + 1] == Instruction::Call(fi)
            &&& t[3 * j + 2] == is[j]
        } by {
            if j < n - 1 {
                assert(prev[3 * j] == Instruction::I64Const((os[j] - base) as i64));
                assert(t[3 * j] == prev[3 * j]);
                assert(t[3 * j + 1] == prev[3 * j + 1]);
                assert(t[3 * j + 2] == prev[3 * j + 2]);
            }
        }
    }
}

/// Coverage instrumentation keeps what every instruction calls: the trace
/// function is imported at index 0 ahead of the module's own imports, and
/// before each instruction that has an offset the instrumented body pushes
/// the offset (relative to the code section) and calls function 0; the
/// instruction follows, and a call of function `f` becomes a call of
/// function `f + 1`, the same callee under the new numbering. Other
/// instructions are kept as they are.
pub proof fn lemma_trace_keeps_call_targets(v: ModuleView)
    requires
        trace_instrumented(v) is Ok,
        v.code is Some,
    ensures
        ({
            let w = trace_instrumented(v)->Ok_0;
            let c = v.code->0;
            let d = w.code->0;
            &&& w.code is Some
            &&& d.len() == c.len()
            &&& w.imports->0.len() == v.imports->0.len() + 1
            &&& w.imports->0[0].0 == "wasmut_api"@ && w.imports->0[0].1 == "__wasmut_trace"@
            &&& w.imports->0[0].2 is Function
            &&& forall|i: int| 0 <= i < v.imports->0.len() ==> w.imports->0[i + 1] == #[trigger] v.imports->0[i]
            &&& forall|k: int, j: int|
                0 <= k < c.len() && 0 <= j < c[k].0.len() && j < c[k].1.len() ==> {
                    &&& d[k].0[3 * j] == Instruction::I64Const((c[k].1[j] - v.code_section_offset) as i64)
                    &&& d[k].0[3 * j + 1] == Instruction::Call(0)
                    &&& (#[trigger] c[k].0[j] matches Instruction::Call(f) ==> d[k].0[3 * j + 2]
                        == Instruction::Call((f + 1) as u32))
                    &&& (!(c[k].0[j] is Call) ==> d[k].0[3 * j + 2] == c[k].0[j])
                }
            &&& (v.exports is Some <==> w.exports is Some)
            &&& v.exports matches Some(es) ==> {
                &&& w.exports->0.len() == es.len()
                &&& forall|i: int|
                    0 <= i < es.len() ==> {
                        &&& w.exports->0[i].0 == (#[trigger] es[i]).0
                        &&& (es[i].1 matches Internal::Function(f) ==> w.exports->0[i].1 == Internal::Function(
                            (f + 1) as u32,
                        ))
                        &&& (!(es[i].1 is Function) ==> w.exports->0[i].1 == es[i].1)
                    }
            }
            &&& v.elements matches Some(es) ==> {
                &&& w.elements->0.len() == es.len()
                &&& forall|i: int, m: int|
                    0 <= i < es.len() && 0 <= m < es[i].1.len() ==> {
                        &&& w.elements->0[i].1.len() == es[i].1.len()
                        &&& (is_function_table(v.tables, es[i].0) ==> w.elements->0[i].1[m] == (#[trigger] es[i].1[m]
                            + 1) as u32)
                        &&& (!is_function_table(v.tables, es[i].0) ==> w.elements->0[i].1[m] == es[i].1[m])
                    }
            }
        }),
{
    let w = trace_instrumented(v)->Ok_0;
    let c = v.code->0;
    let d = w.code->0;
    let base = v.code_section_offset;
    assert forall|i: int| 0 <= i < v.imports->0.len() implies w.imports->0[i + 1] == #[trigger] v.imports->0[i] by {}
    assert forall|k: int, j: int|
        0 <= k < c.len() && 0 <= j < c[k].0.len() && j < c[k].1.len() implies {
            &&& d[k].0[3 * j] == Instruction::I64Const((c[k].1[j] - base) as i64)
            &&& d[k].0[3 * j + 1] == Instruction::Call(0)
            &&& (#[trigger] c[k].0[j] matches Instruction::Call(f) ==> d[k].0[3 * j + 2] == Instruction::Call(
                (f + 1) as u32,
            ))
            &&& (!(c[k].0[j] is Call) ==> d[k].0[3 * j + 2] == c[k].0[j])
        } by {
        let sb = shift_body(c[k]);
        assert(d[k] == trace_body(sb, base, 0));
        let n = min_int(sb.0.len() as int, sb.1.len() as int);
        lemma_traced_layout(sb.0, sb.1, base, 0, n);
        assert(sb.0[j] == bump_call(c[k].0[j]));
        assert(d[k].0[3 * j] == Instruction::I64Const((sb.1[j] - base) as i64));
    }
}

fn same_value_types(a: &Vec<ValueType>, b: &Vec<ValueType>) -> (r: bool)
    ensures
        r == (a@ == b@),
{
    if a.len() != b.len() {
        return false;
    }
    let mut i: usize = 0;
    while i < a.len()
        invariant
            a@.len() == b@.len(),
            i <= a@.len(),
            a@.subrange(0, i as int) == b@.subrange(0, i as int),
        decreases a.len() - i,
    {
        if a[i] != b[i] {
            assert(a@[i as int] != b@[i as int]);
            return false;
        }
        assert(a@.subrange(0, i + 1) =~= a@.subrange(0, i as int).push(a@[i as int]));
        assert(b@.subrange(0, i + 1) =~= b@.subrange(0, i as int).push(b@[i as int]));
        i = i + 1;
    }
    assert(a@ =~= a@.subrange(0, i as int));
    assert(b@ =~= b@.subrange(0, i as int));
    true
}

impl WasmModule {
    /// Find the index of the first signature with the given parameter and
    /// result types, adding the signature at the end of the type section if
    /// there is none.
    pub fn find_or_insert_type_signature(&mut self, params: &Vec<ValueType>, results: &Vec<ValueType>) -> (r: Result<u32, ModuleError>)
        requires
            section_len(old(self).types) < u32::MAX,
        ensures
            r is Err <==> old(self).types is None,
            r matches Err(e) ==> e == ModuleError::NoTypeSection && *final(self) == *old(self),
            r matches Ok(i) ==> {
                let before = types_view(old(self).types.unwrap()@);
                let after = types_view(final(self).types.unwrap()@);
                &&& final(self).types is Some
                &&& forall|k: int| 0 <= k < i ==> before[k] != (params@, results@)
                &&& i < before.len() ==> before[i as int] == (params@, results@) && after == before
                &&& i == before.len() ==> after == before.push((params@, results@))
                &&& i <= before.len()
                &&& i == signature_index(before, (params@, results@))
                &&& after == with_signature(before, (params@, results@))
                &&& final(self)@ == signature_added(old(self)@, (params@, results@))
            },
            final(self).imports == old(self).imports,
            final(self).functions == old(self).functions,
            final(self).tables == old(self).tables,
            final(self).globals == old(self).globals,
            final(self).exports == old(self).exports,
            final(self).elements == old(self).elements,
            final(self).code == old(self).code,
            final(self).code_section_offset == old(self).code_section_offset,
            final(self).path == old(self).path,
    {
        let found: Option<usize> = match &self.types {
            None => {
                return Err(ModuleError::NoTypeSection);
            },
            Some(types) => {
                let mut i: usize = 0;
                let mut found: Option<usize> = None;
                while i < types.len() && found.is_none()
                    invariant
                        i <= types@.len(),
                        found is None ==> forall|k: int| 0 <= k < i ==> ft_view(#[trigger] types@[k]) != (params@, results@),
                        found matches Some(j) ==> j + 1 == i && ft_view(types@[j as int]) == (params@, results@)
                            && forall|k: int| 0 <= k < j ==> ft_view(#[trigger] types@[k]) != (params@, results@),
                    decreases types.len() - i,
                {
                    if same_value_types(&types[i].params, params) && same_value_types(&types[i].results, results) {
                        found = Some(i);
                    }
                    i = i + 1;
                }
                proof {
                    assert forall|k: int| 0 <= k < types@.len() implies types_view(types@)[k] == ft_view(
                        types@[k],
                    ) by {}
                }
                found
            },
        };
        proof {
            let before = types_view(self.types.unwrap()@);
            match found {
                Some(j) => lemma_signature_index(before, (params@, results@), j as int),
                None => lemma_signature_index(before, (params@, results@), before.len() as int),
            }
        }
        match found {
            Some(i) => Ok(i as u32),
            None => {
                let ghost before = self.types.unwrap()@;
                let mut types = self.types.take().unwrap();
                types.push(FunctionType { params: copy_value_types(params), results: copy_value_types(results) });
                let n = types.len();
                proof {
                    assert(types_view(types@) =~= types_view(before).push((params@, results@)));
                }
                self.types = Some(types);
                Ok((n - 1) as u32)
            },
        }
    }

    /// Add an import of function `func_name` from module `wasmut_api`, with
    /// the signature at `type_index`, at the front of the import section; the
    /// new function gets index 0.
    pub fn add_trace_function_import(&mut self, func_name: &str, type_index: u32) -> (r: Result<u32, ModuleError>)
        ensures
            r is Err <==> old(self).imports is None,
            r matches Err(e) ==> e == ModuleError::NoImportSection && *final(self) == *old(self),
            r matches Ok(i) ==> {
                &&& i == 0
                &&& final(self).imports is Some
                &&& imports_view(final(self).imports.unwrap()@) == seq![
                    ("wasmut_api"@, func_name@, External::Function(type_index)),
                ] + imports_view(old(self).imports.unwrap()@)
                &&& final(self)@ == import_prepended(old(self)@, func_name@, type_index)
            },
            final(self).types == old(self).types,
            final(self).functions == old(self).functions,
            final(self).tables == old(self).tables,
            final(self).globals == old(self).globals,
            final(self).exports == old(self).exports,
            final(self).elements == old(self).elements,
            final(self).code == old(self).code,
            final(self).code_section_offset == old(self).code_section_offset,
            final(self).path == old(self).path,
    {
        match &mut self.imports {
            None => Err(ModuleError::NoImportSection),
            Some(imports) => {
                let ghost before = imports@;
                imports.insert(
                    0,
                    ImportEntry {
                        module: String::from_str("wasmut_api"),
                        field: String::from_str(func_name),
                        external: External::Function(type_index),
                    },
                );
                proof {
                    assert(imports_view(imports@) =~= seq![
                        ("wasmut_api"@, func_name@, External::Function(type_index)),
                    ] + imports_view(before));
                }
                Ok(0)
            },
        }
    }

    /// Every call instruction calls the function with the next index.
    pub fn fix_call_instructions(&mut self)
        requires
            old(self).code matches Some(bs) ==> forall|k: int|
                0 <= k < bs@.len() ==> calls_below_max(#[trigger] bs@[k].instructions@),
        ensures
            final(self)@.code == functions_shifted(old(self)@).code,
            old(self).code is None ==> final(self).code is None,
            old(self).code matches Some(bs) ==> {
                &&& final(self).code is Some
                &&& bodies_offsets(final(self).code.unwrap()@) == bodies_offsets(bs@)
                &&& bodies_instrs(final(self).code.unwrap()@) == bodies_instrs(bs@).map_values(
                    |is: Seq<Instruction>| is.map_values(|i: Instruction| bump_call(i)),
                )
            },
            final(self).types == old(self).types,
            final(self).imports == old(self).imports,
            final(self).functions == old(self).functions,
            final(self).tables == old(self).tables,
            final(self).globals == old(self).globals,
            final(self).exports == old(self).exports,
            final(self).elements == old(self).elements,
            final(self).code_section_offset == old(self).code_section_offset,
            final(self).path == old(self).path,
    {
        if let Some(bodies) = &mut self.code {
            let ghost before = bodies@;
            let mut b: usize = 0;
            while b < bodies.len()
                invariant
                    b <= bodies@.len(),
                    bodies@.len() == before.len(),
                    forall|k: int| 0 <= k < before.len() ==> calls_below_max(#[trigger] before[k].instructions@),
                    forall|k: int| 0 <= k < before.len() ==> (#[trigger] bodies@[k]).offsets@ == before[k].offsets@,
                    forall|k: int|
                        0 <= k < b ==> (#[trigger] bodies@[k]).instructions@ == before[k].instructions@.map_values(
                            |i: Instruction| bump_call(i),
                        ),
                    forall|k: int| b <= k < before.len() ==> (#[trigger] bodies@[k]).instructions@ == before[k].instructions@,
                decreases bodies.len() - b,
            {
                let body = &mut bodies[b];
                let ghost orig = body.instructions@;
                let ghost orig_offsets = body.offsets@;
                let mut i: usize = 0;
                while i < body.instructions.len()
                    invariant
                        body.offsets@ == orig_offsets,
                        i <= body.instructions@.len(),
                        body.instructions@.len() == orig.len(),
                        calls_below_max(orig),
                        forall|k: int| 0 <= k < i ==> body.instructions@[k] == bump_call(#[trigger] orig[k]),
                        forall|k: int| i <= k < orig.len() ==> body.instructions@[k] == #[trigger] orig[k],
                    decreases body.instructions.len() - i,
                {
                    if let Instruction::Call(f) = body.instructions[i] {
                        assert(orig[i as int] != Instruction::Call(u32::MAX));
                        body.instructions.set(i, Instruction::Call(f + 1));
                    }
                    i = i + 1;
                }
                assert(body.instructions@ =~= orig.map_values(|i: Instruction| bump_call(i)));
                b = b + 1;
            }
            proof {
                assert(bodies_offsets(bodies@) =~= bodies_offsets(before));
                assert(bodies_instrs(bodies@) =~= bodies_instrs(before).map_values(
                    |is: Seq<Instruction>| is.map_values(|i: Instruction| bump_call(i)),
                ));
            }
        }
    }

    /// Every export of a function exports the function with the next index.
    pub fn fix_exports(&mut self)
        requires
            old(self).exports matches Some(es) ==> forall|k: int|
                0 <= k < es@.len() ==> (#[trigger] es@[k]).internal != Internal::Function(u32::MAX),
        ensures
            final(self)@.exports == functions_shifted(old(self)@).exports,
            old(self).exports is None ==> final(self).exports is None,
            old(self).exports matches Some(es) ==> {
                &&& final(self).exports is Some
                &&& exports_view(final(self).exports.unwrap()@) == exports_view(es@).map_values(
                    |e: (Seq<char>, Internal)| (e.0, bump_internal(e.1)),
                )
            },
            final(self).types == old(self).types,
            final(self).imports == old(self).imports,
            final(self).functions == old(self).functions,
            final(self).tables == old(self).tables,
            final(self).globals == old(self).globals,
            final(self).elements == old(self).elements,
            final(self).code == old(self).code,
            final(self).code_section_offset == old(self).code_section_offset,
            final(self).path == old(self).path,
    {
        if let Some(exports) = &mut self.exports {
            let ghost before = exports@;
            let mut i: usize = 0;
            while i < exports.len()
                invariant
                    i <= exports@.len(),
                    exports@.len() == before.len(),
                    forall|k: int| 0 <= k < before.len() ==> (#[trigger] before[k]).internal != Internal::Function(u32::MAX),
                    forall|k: int| 0 <= k < before.len() ==> (#[trigger] exports@[k]).field == before[k].field,
                    forall|k: int| 0 <= k < i ==> (#[trigger] exports@[k]).internal == bump_internal(before[k].internal),
                    forall|k: int| i <= k < before.len() ==> (#[trigger] exports@[k]).internal == before[k].internal,
                decreases exports.len() - i,
            {
                let e = &mut exports[i];
                if let Internal::Function(f) = e.internal {
                    e.internal = Internal::Function(f + 1);
                }
                i = i + 1;
            }
            proof {
                assert(exports_view(exports@) =~= exports_view(before).map_values(
                    |e: (Seq<char>, Internal)| (e.0, bump_internal(e.1)),
                ));
            }
        }
    }

    /// Every element segment of a function table refers to the functions
    /// with the next indices.
    pub fn fix_tables(&mut self)
        requires
            old(self).elements matches Some(es) ==> forall|k: int, j: int|
                0 <= k < es@.len() && is_function_table(old(self)@.tables, es@[k].index) && 0 <= j
                    < es@[k].members@.len() ==> #[trigger] es@[k].members@[j] < u32::MAX,
        ensures
            final(self)@.elements == functions_shifted(old(self)@).elements,
            old(self).elements is None ==> final(self).elements is None,
            old(self).elements matches Some(es) ==> {
                &&& final(self).elements is Some
                &&& elements_view(final(self).elements.unwrap()@) == elements_view(es@).map_values(
                    |e: (u32, Seq<u32>)| bump_segment(old(self)@.tables, e),
                )
            },
            final(self).types == old(self).types,
            final(self).imports == old(self).imports,
            final(self).functions == old(self).functions,
            final(self).tables == old(self).tables,
            final(self).globals == old(self).globals,
            final(self).exports == old(self).exports,
            final(self).code == old(self).code,
            final(self).code_section_offset == old(self).code_section_offset,
            final(self).path == old(self).path,
    {
        let ghost tables = self@.tables;
        let n_tables: usize = match &self.tables {
            Some(ts) => ts.len(),
            None => 0,
        };
        proof {
            assert forall|x: u32| is_function_table(tables, x) <==> (x as int) < n_tables by {
                if let Some(ts) = tables {
                    if x < ts.len() {
                        assert(ts[x as int] == TableElementType::AnyFunc);
                    }
                }
            }
        }
        if let Some(elements) = &mut self.elements {
            let ghost before = elements@;
            let mut i: usize = 0;
            while i < elements.len()
                invariant
                    i <= elements@.len(),
                    elements@.len() == before.len(),
                    forall|x: u32| is_function_table(tables, x) <==> (x as int) < n_tables,
                    forall|k: int, j: int|
                        0 <= k < before.len() && is_function_table(tables, before[k].index) && 0 <= j
                            < before[k].members@.len() ==> #[trigger] before[k].members@[j] < u32::MAX,
                    forall|k: int| 0 <= k < i ==> (#[trigger] elements@[k]).index == before[k].index && (
                        elements@[k].index, elements@[k].members@) == bump_segment(tables, (before[k].index, before[k].members@)),
                    forall|k: int| i <= k < before.len() ==> #[trigger] elements@[k] == before[k],
                decreases elements.len() - i,
            {
                let e = &mut elements[i];
                if (e.index as usize) < n_tables {
                    let ghost orig = e.members@;
                    let ghost idx = e.index;
                    assert(is_function_table(tables, idx));
                    assert forall|m: int| 0 <= m < orig.len() implies #[trigger] orig[m] < u32::MAX by {
                        assert(before[i as int].members@[m] < u32::MAX);
                    }
                    let mut j: usize = 0;
                    while j < e.members.len()
                        invariant
                            e.index == idx,
                            j <= e.members@.len(),
                            e.members@.len() == orig.len(),
                            forall|m: int| 0 <= m < orig.len() ==> #[trigger] orig[m] < u32::MAX,
                            forall|m: int| 0 <= m < j ==> e.members@[m] == (#[trigger] orig[m] + 1) as u32,
                            forall|m: int| j <= m < orig.len() ==> e.members@[m] == #[trigger] orig[m],
                        decreases e.members.len() - j,
                    {
                        let f = e.members[j];
                        assert(f == orig[j as int] && orig[j as int] < u32::MAX);
                        e.members.set(j, f + 1);
                        j = j + 1;
                    }
                    assert(e.members@ =~= bump_indices(orig));
                }
                i = i + 1;
            }
            proof {
                assert(elements_view(elements@) =~= elements_view(before).map_values(
                    |e: (u32, Seq<u32>)| bump_segment(tables, e),
                ));
            }
        }
    }

    /// Put a call to trace function `function_index` before every
    /// instruction that has an offset, passing the instruction's offset
    /// relative to the code section.
    pub fn insert_trace_calls(&mut self, function_index: u32)
        requires
            old(self).code matches Some(bs) ==> forall|k: int, j: int|
                0 <= k < bs@.len() && 0 <= j < bs@[k].offsets@.len() ==> #[trigger] bs@[k].offsets@[j]
                    >= old(self).code_section_offset,
        ensures
            final(self)@ == trace_calls_added(old(self)@, function_index),
            old(self).code is None ==> final(self).code is None,
            old(self).code matches Some(bs) ==> {
                &&& final(self).code is Some
                &&& final(self).code.unwrap()@.len() == bs@.len()
                &&& bodies_offsets(final(self).code.unwrap()@) == bodies_offsets(bs@)
                &&& forall|k: int|
                    0 <= k < bs@.len() ==> (#[trigger] final(self).code.unwrap()@[k]).instructions@ == traced(
                        bs@[k].instructions@,
                        bs@[k].offsets@,
                        old(self).code_section_offset,
                        function_index,
                        min_int(bs@[k].instructions@.len() as int, bs@[k].offsets@.len() as int),
                    )
            },
            final(self).types == old(self).types,
            final(self).imports == old(self).imports,
            final(self).functions == old(self).functions,
            final(self).tables == old(self).tables,
            final(self).globals == old(self).globals,
            final(self).exports == old(self).exports,
            final(self).elements == old(self).elements,
            final(self).code_section_offset == old(self).code_section_offset,
            final(self).path == old(self).path,
    {
        let base = self.code_section_offset;
        if let Some(bodies) = &mut self.code {
            let ghost before = bodies@;
            let mut b: usize = 0;
            while b < bodies.len()
                invariant
                    b <= bodies@.len(),
                    bodies@.len() == before.len(),
                    forall|k: int, j: int|
                        0 <= k < before.len() && 0 <= j < before[k].offsets@.len() ==> #[trigger] before[k].offsets@[j] >= base,
                    forall|k: int| 0 <= k < before.len() ==> (#[trigger] bodies@[k]).offsets@ == before[k].offsets@,
                    forall|k: int|
                        0 <= k < b ==> (#[trigger] bodies@[k]).instructions@ == traced(
                            before[k].instructions@,
                            before[k].offsets@,
                            base,
                            function_index,
                            min_int(before[k].instructions@.len() as int, before[k].offsets@.len() as int),
                        ),
                    forall|k: int| b <= k < before.len() ==> (#[trigger] bodies@[k]).instructions@ == before[k].instructions@,
                decreases bodies.len() - b,
            {
                let body = &mut bodies[b];
                let ghost is = body.instructions@;
                let ghost os = body.offsets@;
                let mut out: Vec<Instruction> = Vec::new();
                let mut i: usize = 0;
                while i < body.instructions.len() && i < body.offsets.len()
                    invariant
                        body.instructions@ == is,
                        body.offsets@ == os,
                        i <= is.len(),
                        i <= os.len(),
                        forall|j: int| 0 <= j < os.len() ==> #[trigger] os[j] >= base,
                        out@ == traced(is, os, base, function_index, i as int),
                    decreases body.instructions.len() - i,
                {
                    let off = body.offsets[i] - base;
                    out.push(Instruction::I64Const(off as i64));
                    out.push(Instruction::Call(function_index));
                    out.push(body.instructions[i]);
                    i = i + 1;
                    assert(out@ =~= traced(is, os, base, function_index, i as int));
                }
                assert(i as int == min_int(is.len() as int, os.len() as int));
                body.instructions = out;
                b = b + 1;
            }
            proof {
                assert(bodies_offsets(bodies@) =~= bodies_offsets(before));
                assert(code_view(bodies@) =~= code_view(before).map_values(
                    |b: (Seq<Instruction>, Seq<u64>)| trace_body(b, base, function_index),
                ));
            }
        }
    }

    /// Insert calls of the coverage trace function `__wasmut_trace`: its
    /// signature is looked up (or added), it is imported at function index
    /// 0, every other function index moves up by one, and a call with the
    /// instruction's offset goes before every instruction.
    pub fn insert_trace_points(&mut self) -> (r: Result<(), ModuleError>)
        requires
            section_len(old(self).types) < u32::MAX,
            indices_below_max(old(self)@),
            offsets_in_code_section(old(self)@),
        ensures
            match trace_instrumented(old(self)@) {
                Ok(v) => r is Ok && final(self)@ == v,
                Err(e) => r == Err::<(), ModuleError>(e),
            },
            old(self).types is None ==> final(self)@ == old(self)@,
            old(self).types is Some && old(self).imports is None ==> final(self)@ == signature_added(
                old(self)@,
                trace_signature(),
            ),
    {
        let ghost v0 = self@;
        let params: Vec<ValueType> = vec![ValueType::I64];
        let results: Vec<ValueType> = Vec::new();
        assert((params@, results@) == trace_signature());
        let type_index = match self.find_or_insert_type_signature(&params, &results) {
            Ok(t) => t,
            Err(e) => {
                return Err(e);
            },
        };
        let function_index = match self.add_trace_function_import("__wasmut_trace", type_index) {
            Ok(f) => f,
            Err(e) => {
                return Err(e);
            },
        };
        let ghost v2 = self@;
        proof {
            assert(v2.code == v0.code && v2.exports == v0.exports && v2.elements == v0.elements
                && v2.tables == v0.tables);
            if self.code is Some {
                let bs = self.code->0;
                assert forall|k: int| 0 <= k < bs@.len() implies calls_below_max(
                    #[trigger] bs@[k].instructions@,
                ) by {
                    assert(code_view(bs@)[k].0 == bs@[k].instructions@);
                }
            }
            if self.exports is Some {
                let es = self.exports->0;
                assert forall|k: int| 0 <= k < es@.len() implies (#[trigger] es@[k]).internal
                    != Internal::Function(u32::MAX) by {
                    assert(exports_view(es@)[k].1 == es@[k].internal);
                }
            }
            if self.elements is Some {
                let es = self.elements->0;
                assert forall|k: int, j: int|
                    0 <= k < es@.len() && is_function_table(self@.tables, es@[k].index) && 0 <= j
                        < es@[k].members@.len() implies #[trigger] es@[k].members@[j] < u32::MAX by {
                    assert(elements_view(es@)[k] == (es@[k].index, es@[k].members@));
                    assert(v0.elements.unwrap()[k].1[j] == es@[k].members@[j]);
                }
            }
        }
        self.fix_call_instructions();
        self.fix_tables();
        self.fix_exports();
        let ghost v3 = self@;
        proof {
            assert(v3 == functions_shifted(v2));
            if self.code is Some {
                let bs = self.code->0;
                assert forall|k: int, j: int|
                    0 <= k < bs@.len() && 0 <= j < bs@[k].offsets@.len() implies #[trigger] bs@[k].offsets@[j]
                        >= self.code_section_offset by {
                    assert(code_view(bs@)[k].1 == bs@[k].offsets@);
                    assert(v0.code.unwrap()[k].1 == bs@[k].offsets@);
                }
            }
        }
        self.insert_trace_calls(function_index);
        Ok(())
    }

    /// The largest number of parameters of one and the same type that a
    /// signature of the type section has.
    pub fn max_number_of_params_of_same_type(&self) -> (r: usize)
        requires
            self.types is Some,
        ensures
            r == max_same_params(types_view(self.types.unwrap()@)),
    {
        let types = match &self.types {
            Some(t) => t,
            None => {
                return 0;
            },
        };
        let mut max: usize = 0;
        let mut k: usize = 0;
        while k < types.len()
            invariant
                k <= types@.len(),
                max == max_same_params(types_view(types@).subrange(0, k as int)),
                max <= k * usize::MAX,
            decreases types.len() - k,
        {
            let params = &types[k].params;
            let mut i32_params: usize = 0;
            let mut i64_params: usize = 0;
            let mut f32_params: usize = 0;
            let mut f64_params: usize = 0;
            let mut i: usize = 0;
            while i < params.len()
                invariant
                    i <= params@.len(),
                    i32_params == count_type(params@.subrange(0, i as int), ValueType::I32),
                    i64_params == count_type(params@.subrange(0, i as int), ValueType::I64),
                    f32_params == count_type(params@.subrange(0, i as int), ValueType::F32),
                    f64_params == count_type(params@.subrange(0, i as int), ValueType::F64),
                    i32_params <= i && i64_params <= i && f32_params <= i && f64_params <= i,
                decreases params.len() - i,
            {
                assert(params@.subrange(0, i + 1).drop_last() =~= params@.subrange(0, i as int));
                match params[i] {
                    ValueType::I32 => i32_params += 1,
                    ValueType::I64 => i64_params += 1,
                    ValueType::F32 => f32_params += 1,
                    ValueType::F64 => f64_params += 1,
                }
                i = i + 1;
            }
            assert(params@.subrange(0, i as int) =~= params@);
            proof {
                assert(types_view(types@).subrange(0, k + 1).drop_last() =~= types_view(types@).subrange(0, k as int));
                assert(types_view(types@).subrange(0, k + 1).last() == ft_view(types@[k as int]));
            }
            if i32_params > max {
                max = i32_params;
            }
            if i64_params > max {
                max = i64_params;
            }
            if f32_params > max {
                max = f32_params;
            }
            if f64_params > max {
                max = f64_params;
            }
            k = k + 1;
        }
        assert(types_view(types@).subrange(0, k as int) =~= types_view(types@));
        max
    }
}

} // verus!
