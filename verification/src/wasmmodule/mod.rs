//! A WebAssembly module, as far as the mutation engine reads and rewrites it.
use vstd::prelude::*;

use crate::instruction::{Instruction, ValueType};
use crate::wasmmodule::rewrite::{min_int, offsets_in_code_section};

pub mod rewrite;
pub mod mutate;

verus! {

/// A function whose calls the `call_remove_*` operators may remove.
#[derive(Debug, PartialEq)]
pub enum CallRemovalCandidate {
    /// Function does not return anything and has `params` parameters
    FuncReturningVoid { index: u32, params: Vec<ValueType> },
    /// Function returns a scalar and has `params` parameters
    FuncReturningScalar { index: u32, params: Vec<ValueType>, return_type: ValueType },
}

/// The function index of a candidate.
pub open spec fn candidate_index(c: CallRemovalCandidate) -> u32 {
    match c {
        CallRemovalCandidate::FuncReturningVoid { index, .. } => index,
        CallRemovalCandidate::FuncReturningScalar { index, .. } => index,
    }
}

/// The parameter types of a candidate.
pub open spec fn candidate_params(c: CallRemovalCandidate) -> Seq<ValueType> {
    match c {
        CallRemovalCandidate::FuncReturningVoid { params, .. } => params@,
        CallRemovalCandidate::FuncReturningScalar { params, .. } => params@,
    }
}

/// The result types of a candidate.
pub open spec fn candidate_results(c: CallRemovalCandidate) -> Seq<ValueType> {
    match c {
        CallRemovalCandidate::FuncReturningVoid { .. } => Seq::empty(),
        CallRemovalCandidate::FuncReturningScalar { return_type, .. } => seq![return_type],
    }
}

/// No two candidates describe the same function index.
pub open spec fn candidates_distinct(cs: Seq<CallRemovalCandidate>) -> bool {
    forall|i: int, j: int|
        0 <= i < cs.len() && 0 <= j < cs.len() && i != j ==> candidate_index(#[trigger] cs[i])
            != candidate_index(#[trigger] cs[j])
}

/// Copy a list of value types.
pub fn copy_value_types(v: &Vec<ValueType>) -> (r: Vec<ValueType>)
    ensures
        r@ == v@,
{
    let mut r: Vec<ValueType> = Vec::new();
    let mut i: usize = 0;
    while i < v.len()
        invariant
            i <= v.len(),
            r@ == v@.subrange(0, i as int),
        decreases v.len() - i,
    {
        r.push(v[i]);
        i = i + 1;
        assert(r@ =~= v@.subrange(0, i as int));
    }
    assert(r@ =~= v@);
    r
}

} // verus!

verus! {

/// A function signature.
pub struct FunctionType {
    pub params: Vec<ValueType>,
    pub results: Vec<ValueType>,
}

/// What an import provides. Imports of tables, memories and globals are
/// carried by a handle chosen by whoever decoded the module.
#[derive(Clone, Copy, Debug, PartialEq, Eq, Structural)]
pub enum External {
    /// A function with the signature at the given index of the type section.
    Function(u32),
    Other(u32),
}

/// An entry of the import section.
pub struct ImportEntry {
    pub module: String,
    pub field: String,
    pub external: External,
}

/// What an export refers to.
#[derive(Clone, Copy, Debug, PartialEq, Eq, Structural)]
pub enum Internal {
    Function(u32),
    Table(u32),
    Memory(u32),
    Global(u32),
}

/// An entry of the export section.
pub struct ExportEntry {
    pub field: String,
    pub internal: Internal,
}

/// The element type of a table.
#[derive(Clone, Copy, Debug, PartialEq, Eq, Structural)]
pub enum TableElementType {
    AnyFunc,
}

/// An element segment: function indices placed into table `index`.
pub struct ElementSegment {
    pub index: u32,
    pub members: Vec<u32>,
}

/// An entry of the global section.
pub struct GlobalEntry {
    pub value_type: ValueType,
    pub mutable: bool,
    pub init: Vec<Instruction>,
}

/// The code of a function: its instructions and, for each instruction that
/// was decoded from a file, its byte offset in that file.
pub struct FuncBody {
    pub instructions: Vec<Instruction>,
    pub offsets: Vec<u64>,
}

/// A (parsed) WebAssembly module: the sections that mutation reads or
/// rewrites. A section that the module lacks is `None`.
pub struct WasmModule {
    pub types: Option<Vec<FunctionType>>,
    pub imports: Option<Vec<ImportEntry>>,
    /// The type index of each function defined by the module.
    pub functions: Option<Vec<u32>>,
    pub tables: Option<Vec<TableElementType>>,
    pub globals: Option<Vec<GlobalEntry>>,
    pub exports: Option<Vec<ExportEntry>>,
    pub elements: Option<Vec<ElementSegment>>,
    pub code: Option<Vec<FuncBody>>,
    /// Byte offset of the code section in the module file.
    pub code_section_offset: u64,
    /// The file the module was read from.
    pub path: String,
}

/// Why a module could not be inspected or rewritten.
#[derive(Debug, PartialEq)]
pub enum ModuleError {
    NoTypeSection,
    NoImportSection,
    NoCodeSection,
    /// A mutation location names a function that the code section lacks.
    UnexpectedFunctionIndex,
}


// ---------------------------------------------------------------------------
// The abstract content of a module
// ---------------------------------------------------------------------------

/// The content of a module as mathematical values.
pub struct ModuleView {
    pub types: Option<Seq<(Seq<ValueType>, Seq<ValueType>)>>,
    pub imports: Option<Seq<(Seq<char>, Seq<char>, External)>>,
    pub functions: Option<Seq<u32>>,
    pub tables: Option<Seq<TableElementType>>,
    pub globals: Option<Seq<(ValueType, bool, Seq<Instruction>)>>,
    pub exports: Option<Seq<(Seq<char>, Internal)>>,
    pub elements: Option<Seq<(u32, Seq<u32>)>>,
    pub code: Option<Seq<(Seq<Instruction>, Seq<u64>)>>,
    pub code_section_offset: u64,
    pub path: Seq<char>,
}

/// The parameter and result types of a signature.
pub open spec fn ft_view(f: FunctionType) -> (Seq<ValueType>, Seq<ValueType>) {
    (f.params@, f.results@)
}

/// The signatures of a type section.
pub open spec fn types_view(ts: Seq<FunctionType>) -> Seq<(Seq<ValueType>, Seq<ValueType>)> {
    ts.map_values(|f: FunctionType| ft_view(f))
}

/// The abstract content of an import entry.
pub open spec fn import_view(e: ImportEntry) -> (Seq<char>, Seq<char>, External) {
    (e.module@, e.field@, e.external)
}

/// The abstract content of an import section.
pub open spec fn imports_view(es: Seq<ImportEntry>) -> Seq<(Seq<char>, Seq<char>, External)> {
    es.map_values(|e: ImportEntry| import_view(e))
}

/// The abstract content of a global entry.
pub open spec fn global_view(g: GlobalEntry) -> (ValueType, bool, Seq<Instruction>) {
    (g.value_type, g.mutable, g.init@)
}

/// The abstract content of a global section.
pub open spec fn globals_view(gs: Seq<GlobalEntry>) -> Seq<(ValueType, bool, Seq<Instruction>)> {
    gs.map_values(|g: GlobalEntry| global_view(g))
}

/// The abstract content of an export section.
pub open spec fn exports_view(es: Seq<ExportEntry>) -> Seq<(Seq<char>, Internal)> {
    es.map_values(|e: ExportEntry| (e.field@, e.internal))
}

/// The abstract content of an element section.
pub open spec fn elements_view(es: Seq<ElementSegment>) -> Seq<(u32, Seq<u32>)> {
    es.map_values(|e: ElementSegment| (e.index, e.members@))
}

/// The abstract content of a code section: instructions and offsets of
/// each body.
pub open spec fn code_view(bs: Seq<FuncBody>) -> Seq<(Seq<Instruction>, Seq<u64>)> {
    bs.map_values(|b: FuncBody| (b.instructions@, b.offsets@))
}

/// An optional section seen through `f`.
pub open spec fn opt_view<T, V>(s: Option<Vec<T>>, f: spec_fn(Seq<T>) -> V) -> Option<V> {
    match s {
        Some(v) => Some(f(v@)),
        None => None,
    }
}

impl View for WasmModule {
    type V = ModuleView;

    open spec fn view(&self) -> ModuleView {
        ModuleView {
            types: opt_view(self.types, |ts: Seq<FunctionType>| types_view(ts)),
            imports: opt_view(self.imports, |es: Seq<ImportEntry>| imports_view(es)),
            functions: opt_view(self.functions, |fs: Seq<u32>| fs),
            tables: opt_view(self.tables, |ts: Seq<TableElementType>| ts),
            globals: opt_view(self.globals, |gs: Seq<GlobalEntry>| globals_view(gs)),
            exports: opt_view(self.exports, |es: Seq<ExportEntry>| exports_view(es)),
            elements: opt_view(self.elements, |es: Seq<ElementSegment>| elements_view(es)),
            code: opt_view(self.code, |bs: Seq<FuncBody>| code_view(bs)),
            code_section_offset: self.code_section_offset,
            path: self.path@,
        }
    }
}

fn copy_u32s(v: &Vec<u32>) -> (r: Vec<u32>)
    ensures
        r@ == v@,
{
    let mut r: Vec<u32> = Vec::new();
    let mut i: usize = 0;
    while i < v.len()
        invariant
            i <= v.len(),
            r@ == v@.subrange(0, i as int),
        decreases v.len() - i,
    {
        r.push(v[i]);
        i = i + 1;
        assert(r@ =~= v@.subrange(0, i as int));
    }
    assert(r@ =~= v@);
    r
}

fn copy_u64s(v: &Vec<u64>) -> (r: Vec<u64>)
    ensures
        r@ == v@,
{
    let mut r: Vec<u64> = Vec::new();
    let mut i: usize = 0;
    while i < v.len()
        invariant
            i <= v.len(),
            r@ == v@.subrange(0, i as int),
        decreases v.len() - i,
    {
        r.push(v[i]);
        i = i + 1;
        assert(r@ =~= v@.subrange(0, i as int));
    }
    assert(r@ =~= v@);
    r
}

/// Copy a list of instructions.
pub fn copy_instructions(v: &Vec<Instruction>) -> (r: Vec<Instruction>)
    ensures
        r@ == v@,
{
    let mut r: Vec<Instruction> = Vec::new();
    let mut i: usize = 0;
    while i < v.len()
        invariant
            i <= v.len(),
            r@ == v@.subrange(0, i as int),
        decreases v.len() - i,
    {
        r.push(v[i]);
        i = i + 1;
        assert(r@ =~= v@.subrange(0, i as int));
    }
    assert(r@ =~= v@);
    r
}

fn copy_tables(v: &Vec<TableElementType>) -> (r: Vec<TableElementType>)
    ensures
        r@ == v@,
{
    let mut r: Vec<TableElementType> = Vec::new();
    let mut i: usize = 0;
    while i < v.len()
        invariant
            i <= v.len(),
            r@ == v@.subrange(0, i as int),
        decreases v.len() - i,
    {
        r.push(v[i]);
        i = i + 1;
        assert(r@ =~= v@.subrange(0, i as int));
    }
    assert(r@ =~= v@);
    r
}

fn copy_types(v: &Vec<FunctionType>) -> (r: Vec<FunctionType>)
    ensures
        types_view(r@) == types_view(v@),
{
    let mut r: Vec<FunctionType> = Vec::new();
    let mut i: usize = 0;
    while i < v.len()
        invariant
            i <= v.len(),
            r@.len() == i,
            forall|k: int| 0 <= k < i ==> ft_view(#[trigger] r@[k]) == ft_view(v@[k]),
        decreases v.len() - i,
    {
        r.push(FunctionType { params: copy_value_types(&v[i].params), results: copy_value_types(&v[i].results) });
        i = i + 1;
    }
    assert(types_view(r@) =~= types_view(v@));
    r
}

fn copy_imports(v: &Vec<ImportEntry>) -> (r: Vec<ImportEntry>)
    ensures
        imports_view(r@) == imports_view(v@),
{
    let mut r: Vec<ImportEntry> = Vec::new();
    let mut i: usize = 0;
    while i < v.len()
        invariant
            i <= v.len(),
            r@.len() == i,
            forall|k: int| 0 <= k < i ==> import_view(#[trigger] r@[k]) == import_view(v@[k]),
        decreases v.len() - i,
    {
        r.push(ImportEntry { module: v[i].module.clone(), field: v[i].field.clone(), external: v[i].external });
        i = i + 1;
    }
    assert(imports_view(r@) =~= imports_view(v@));
    r
}

fn copy_globals(v: &Vec<GlobalEntry>) -> (r: Vec<GlobalEntry>)
    ensures
        globals_view(r@) == globals_view(v@),
{
    let mut r: Vec<GlobalEntry> = Vec::new();
    let mut i: usize = 0;
    while i < v.len()
        invariant
            i <= v.len(),
            r@.len() == i,
            forall|k: int| 0 <= k < i ==> global_view(#[trigger] r@[k]) == global_view(v@[k]),
        decreases v.len() - i,
    {
        r.push(GlobalEntry { value_type: v[i].value_type, mutable: v[i].mutable, init: copy_instructions(&v[i].init) });
        i = i + 1;
    }
    assert(globals_view(r@) =~= globals_view(v@));
    r
}

fn copy_exports(v: &Vec<ExportEntry>) -> (r: Vec<ExportEntry>)
    ensures
        exports_view(r@) == exports_view(v@),
{
    let mut r: Vec<ExportEntry> = Vec::new();
    let mut i: usize = 0;
    while i < v.len()
        invariant
            i <= v.len(),
            r@.len() == i,
            forall|k: int| 0 <= k < i ==> (#[trigger] r@[k]).field@ == v@[k].field@ && r@[k].internal == v@[k].internal,
        decreases v.len() - i,
    {
        r.push(ExportEntry { field: v[i].field.clone(), internal: v[i].internal });
        i = i + 1;
    }
    assert(exports_view(r@) =~= exports_view(v@));
    r
}

fn copy_elements(v: &Vec<ElementSegment>) -> (r: Vec<ElementSegment>)
    ensures
        elements_view(r@) == elements_view(v@),
{
    let mut r: Vec<ElementSegment> = Vec::new();
    let mut i: usize = 0;
    while i < v.len()
        invariant
            i <= v.len(),
            r@.len() == i,
            forall|k: int| 0 <= k < i ==> (#[trigger] r@[k]).index == v@[k].index && r@[k].members@ == v@[k].members@,
        decreases v.len() - i,
    {
        r.push(ElementSegment { index: v[i].index, members: copy_u32s(&v[i].members) });
        i = i + 1;
    }
    assert(elements_view(r@) =~= elements_view(v@));
    r
}

fn copy_code(v: &Vec<FuncBody>) -> (r: Vec<FuncBody>)
    ensures
        code_view(r@) == code_view(v@),
{
    let mut r: Vec<FuncBody> = Vec::new();
    let mut i: usize = 0;
    while i < v.len()
        invariant
            i <= v.len(),
            r@.len() == i,
            forall|k: int| 0 <= k < i ==> (#[trigger] r@[k]).instructions@ == v@[k].instructions@ && r@[k].offsets@ == v@[k].offsets@,
        decreases v.len() - i,
    {
        r.push(FuncBody { instructions: copy_instructions(&v[i].instructions), offsets: copy_u64s(&v[i].offsets) });
        i = i + 1;
    }
    assert(code_view(r@) =~= code_view(v@));
    r
}

impl WasmModule {
    /// A copy of the module, with the same content.
    pub fn duplicate(&self) -> (r: Self)
        ensures
            r@ == self@,
    {
        let types = match &self.types {
            Some(v) => Some(copy_types(v)),
            None => None,
        };
        let imports = match &self.imports {
            Some(v) => Some(copy_imports(v)),
            None => None,
        };
        let functions = match &self.functions {
            Some(v) => Some(copy_u32s(v)),
            None => None,
        };
        let tables = match &self.tables {
            Some(v) => Some(copy_tables(v)),
            None => None,
        };
        let globals = match &self.globals {
            Some(v) => Some(copy_globals(v)),
            None => None,
        };
        let exports = match &self.exports {
            Some(v) => Some(copy_exports(v)),
            None => None,
        };
        let elements = match &self.elements {
            Some(v) => Some(copy_elements(v)),
            None => None,
        };
        let code = match &self.code {
            Some(v) => Some(copy_code(v)),
            None => None,
        };
        let r = WasmModule {
            types,
            imports,
            functions,
            tables,
            globals,
            exports,
            elements,
            code,
            code_section_offset: self.code_section_offset,
            path: self.path.clone(),
        };
        proof {
            assert(r@.types == self@.types);
            assert(r@.imports == self@.imports);
            assert(r@.functions == self@.functions);
            assert(r@.tables == self@.tables);
            assert(r@.globals == self@.globals);
            assert(r@.exports == self@.exports);
            assert(r@.elements == self@.elements);
            assert(r@.code == self@.code);
        }
        r
    }

    /// The file the module was read from.
    pub fn path(&self) -> (r: &str)
        ensures
            r@ == self.path@,
    {
        self.path.as_str()
    }

    /// Walk all instructions of the code section: for every body, the
    /// offset of each instruction that has one, relative to the start of the
    /// code section (where its source location is looked up).
    pub fn instruction_offsets(&self) -> (r: Result<Vec<Vec<u64>>, ModuleError>)
        requires
            offsets_in_code_section(self@),
        ensures
            match self.code {
                None => r == Err::<Vec<Vec<u64>>, ModuleError>(ModuleError::NoCodeSection),
                Some(bs) => r matches Ok(v) && offsets_view(v@) == relative_offsets(
                    code_view(bs@),
                    self.code_section_offset,
                ),
            },
    {
        let bodies = match &self.code {
            Some(bs) => bs,
            None => {
                return Err(ModuleError::NoCodeSection);
            },
        };
        let base = self.code_section_offset;
        let ghost cv = code_view(bodies@);
        let mut result: Vec<Vec<u64>> = Vec::new();
        let mut f: usize = 0;
        while f < bodies.len()
            invariant
                f <= bodies@.len(),
                cv == code_view(bodies@),
                base == self.code_section_offset,
                self.code == Some(*bodies),
                offsets_in_code_section(self@),
                offsets_view(result@) == relative_offsets(cv, base).take(f as int),
            decreases bodies.len() - f,
        {
            let body = &bodies[f];
            let n: usize = if body.instructions.len() < body.offsets.len() {
                body.instructions.len()
            } else {
                body.offsets.len()
            };
            let mut offsets: Vec<u64> = Vec::new();
            let mut j: usize = 0;
            while j < n
                invariant
                    j <= n,
                    n <= body.offsets@.len(),
                    body == bodies@[f as int],
                    f < bodies@.len(),
                    self.code == Some(*bodies),
                    base == self.code_section_offset,
                    offsets_in_code_section(self@),
                    offsets@ == Seq::new(j as nat, |k: int| (body.offsets@[k] - base) as u64),
                decreases n - j,
            {
                assert(self@.code == Some(code_view(bodies@)));
                assert(self@.code_section_offset == base);
                assert(code_view(bodies@)[f as int].1[j as int] == body.offsets@[j as int]);
                proof {
                    lemma_offset_in_code_section(self@, f as int, j as int);
                }
                offsets.push(body.offsets[j] - base);
                assert(offsets@ =~= Seq::new((j + 1) as nat, |k: int| (body.offsets@[k] - base) as u64));
                j = j + 1;
            }
            proof {
                let rel = relative_offsets(cv, base);
                assert(cv[f as int] == (body.instructions@, body.offsets@));
                assert(rel[f as int] =~= offsets@);
            }
            let ghost before = result@;
            assert(offsets_view(before).len() == before.len());
            assert(before.len() == f);
            result.push(offsets);
            proof {
                let rel = relative_offsets(cv, base);
                assert forall|k: int| 0 <= k < f + 1 implies offsets_view(result@)[k] == rel.take(f + 1)[k] by {
                    if k < f {
                        assert(result@[k] == before[k]);
                        assert(offsets_view(before)[k] == rel.take(f as int)[k]);
                    }
                }
            }
            assert(offsets_view(result@) =~= relative_offsets(cv, base).take(f + 1));
            f = f + 1;
        }
        assert(relative_offsets(cv, base).take(f as int) =~= relative_offsets(cv, base));
        Ok(result)
    }
}

proof fn lemma_offset_in_code_section(v: ModuleView, k: int, j: int)
    requires
        offsets_in_code_section(v),
        v.code is Some,
        0 <= k < v.code->0.len(),
        0 <= j < v.code->0[k].1.len(),
    ensures
        v.code->0[k].1[j] >= v.code_section_offset,
{
}

/// A list of lists of offsets as a sequence of sequences.
pub open spec fn offsets_view(v: Seq<Vec<u64>>) -> Seq<Seq<u64>> {
    v.map_values(|o: Vec<u64>| o@)
}

/// Body by body, the offset of each instruction that has one, relative to
/// `base`: as many as there are both instructions and offsets.
pub open spec fn relative_offsets(c: Seq<(Seq<Instruction>, Seq<u64>)>, base: u64) -> Seq<Seq<u64>> {
    c.map_values(
        |b: (Seq<Instruction>, Seq<u64>)|
            Seq::new(min_int(b.0.len() as int, b.1.len() as int) as nat, |k: int| (b.1[k] - base) as u64),
    )
}

// ---------------------------------------------------------------------------
// Call removal candidates
// ---------------------------------------------------------------------------

/// The abstract content of a candidate: function index, parameter types and
/// return type (`None` for a void function).
pub open spec fn candidate_view(c: CallRemovalCandidate) -> (u32, Seq<ValueType>, Option<ValueType>) {
    match c {
        CallRemovalCandidate::FuncReturningVoid { index, params } => (index, params@, None),
        CallRemovalCandidate::FuncReturningScalar { index, params, return_type } => (
            index,
            params@,
            Some(return_type),
        ),
    }
}

/// The candidate that function `index` with the signature at `type_ref` makes:
/// none when the type section lacks the signature or the function returns
/// more than one value.
pub open spec fn candidate_of(types: Seq<FunctionType>, index: int, type_ref: int) -> Option<
    (u32, Seq<ValueType>, Option<ValueType>),
> {
    if 0 <= type_ref < types.len() {
        let ft = types[type_ref];
        if ft.results@.len() == 0 {
            Some((index as u32, ft.params@, None))
        } else if ft.results@.len() == 1 {
            Some((index as u32, ft.params@, Some(ft.results@[0])))
        } else {
            None
        }
    } else {
        None
    }
}

/// The number of function imports among the first `upto` imports: imports
/// of tables, memories and globals take no function index.
pub open spec fn function_imports(imports: Seq<ImportEntry>, upto: int) -> int
    decreases upto,
{
    if upto <= 0 {
        0
    } else {
        function_imports(imports, upto - 1) + if imports[upto - 1].external is Function {
            1int
        } else {
            0int
        }
    }
}

/// The candidates among the first `upto` imports; an imported function's
/// index is the number of function imports before it.
pub open spec fn import_candidates(types: Seq<FunctionType>, imports: Seq<ImportEntry>, upto: int) -> Seq<
    (u32, Seq<ValueType>, Option<ValueType>),
>
    decreases upto,
{
    if upto <= 0 {
        Seq::empty()
    } else {
        let rest = import_candidates(types, imports, upto - 1);
        match imports[upto - 1].external {
            External::Function(t) => match candidate_of(types, function_imports(imports, upto - 1), t as int) {
                Some(c) => rest.push(c),
                None => rest,
            },
            _ => rest,
        }
    }
}

/// The candidates among the first `upto` functions of the function section;
/// their indices follow the `base` imported functions.
pub open spec fn function_candidates(types: Seq<FunctionType>, funcs: Seq<u32>, base: int, upto: int) -> Seq<
    (u32, Seq<ValueType>, Option<ValueType>),
>
    decreases upto,
{
    if upto <= 0 {
        Seq::empty()
    } else {
        let rest = function_candidates(types, funcs, base, upto - 1);
        match candidate_of(types, base + upto - 1, funcs[upto - 1] as int) {
            Some(c) => rest.push(c),
            None => rest,
        }
    }
}

/// The number of entries of an optional section.
pub open spec fn section_len<T>(s: Option<Vec<T>>) -> int {
    match s {
        Some(v) => v@.len() as int,
        None => 0,
    }
}

/// The number of imported functions of a module: the first index of the
/// functions that it defines itself.
pub open spec fn imported_functions(m: WasmModule) -> int {
    match m.imports {
        Some(v) => function_imports(v@, v@.len() as int),
        None => 0,
    }
}

/// All call removal candidates of a module, in the function index space
/// that `call` instructions use: imported functions first, then the
/// functions of the function section.
pub open spec fn expected_candidates(m: WasmModule) -> Seq<(u32, Seq<ValueType>, Option<ValueType>)> {
    let types = m.types.unwrap()@;
    let from_imports = match m.imports {
        Some(v) => import_candidates(types, v@, v@.len() as int),
        None => Seq::empty(),
    };
    let from_functions = match m.functions {
        Some(v) => function_candidates(types, v@, imported_functions(m), v@.len() as int),
        None => Seq::empty(),
    };
    from_imports + from_functions
}

fn check_type(types: &Vec<FunctionType>, index: u32, type_ref: u32) -> (r: Option<CallRemovalCandidate>)
    ensures
        r is None <==> candidate_of(types@, index as int, type_ref as int) is None,
        r matches Some(c) ==> candidate_of(types@, index as int, type_ref as int) == Some(candidate_view(c)),
{
    let t = type_ref as usize;
    if t < types.len() {
        let ft = &types[t];
        if ft.results.len() == 0 {
            Some(CallRemovalCandidate::FuncReturningVoid { index, params: copy_value_types(&ft.params) })
        } else if ft.results.len() == 1 {
            Some(
                CallRemovalCandidate::FuncReturningScalar {
                    index,
                    params: copy_value_types(&ft.params),
                    return_type: ft.results[0],
                },
            )
        } else {
            None
        }
    } else {
        None
    }
}

impl WasmModule {
    /// Examine the import section and function section of the module to
    /// check which call instructions may be removed using the
    /// `call_remove_*` operators. The candidates come in increasing order of
    /// function index, so no two describe the same function.
    pub fn call_removal_candidates(&self) -> (r: Result<Vec<CallRemovalCandidate>, ModuleError>)
        requires
            section_len(self.imports) + section_len(self.functions) <= u32::MAX,
        ensures
            r is Err <==> self.types is None,
            r matches Err(e) ==> e == ModuleError::NoTypeSection,
            r matches Ok(v) ==> {
                &&& v@.map_values(|c: CallRemovalCandidate| candidate_view(c)) == expected_candidates(*self)
                &&& forall|i: int, j: int|
                    0 <= i < j < v@.len() ==> candidate_index(#[trigger] v@[i]) < candidate_index(
                        #[trigger] v@[j],
                    )
                &&& candidates_distinct(v@)
            },
    {
        let types = match &self.types {
            Some(t) => t,
            None => return Err(ModuleError::NoTypeSection),
        };
        let mut candidates: Vec<CallRemovalCandidate> = Vec::new();
        let mut n_imports: usize = 0;
        if let Some(imports) = &self.imports {
            let mut i: usize = 0;
            while i < imports.len()
                invariant
                    i <= imports@.len(),
                    n_imports == function_imports(imports@, i as int),
                    n_imports <= i,
                    imports@.len() + section_len(self.functions) <= u32::MAX,
                    candidates@.map_values(|c: CallRemovalCandidate| candidate_view(c))
                        == import_candidates(types@, imports@, i as int),
                    forall|a: int| 0 <= a < candidates@.len() ==> candidate_index(#[trigger] candidates@[a]) < n_imports,
                    forall|a: int, b: int|
                        0 <= a < b < candidates@.len() ==> candidate_index(#[trigger] candidates@[a])
                            < candidate_index(#[trigger] candidates@[b]),
                decreases imports.len() - i,
            {
                if let External::Function(t) = imports[i].external {
                    let ghost before = candidates@;
                    match check_type(types, n_imports as u32, t) {
                        Some(c) => {
                            candidates.push(c);
                            proof {
                                assert(candidates@.map_values(|c: CallRemovalCandidate| candidate_view(c))
                                    =~= before.map_values(|c: CallRemovalCandidate| candidate_view(c)).push(
                                    candidate_view(c)));
                            }
                        },
                        None => {},
                    }
                    n_imports = n_imports + 1;
                }
                i = i + 1;
            }
        }
        proof {
            if self.imports is None {
                assert(candidates@.map_values(|c: CallRemovalCandidate| candidate_view(c)) =~= Seq::<
                    (u32, Seq<ValueType>, Option<ValueType>),
                >::empty());
            }
        }
        let ghost from_imports = candidates@.map_values(|c: CallRemovalCandidate| candidate_view(c));
        let ghost n_before = candidates@.len();
        if let Some(funcs) = &self.functions {
            let mut k: usize = 0;
            while k < funcs.len()
                invariant
                    k <= funcs@.len(),
                    n_imports as int == imported_functions(*self),
                    n_imports + funcs@.len() <= u32::MAX,
                    n_before <= candidates@.len(),
                    candidates@.map_values(|c: CallRemovalCandidate| candidate_view(c)) == from_imports
                        + function_candidates(types@, funcs@, n_imports as int, k as int),
                    forall|a: int| 0 <= a < candidates@.len() ==> candidate_index(#[trigger] candidates@[a]) < n_imports + k,
                    forall|a: int, b: int|
                        0 <= a < b < candidates@.len() ==> candidate_index(#[trigger] candidates@[a])
                            < candidate_index(#[trigger] candidates@[b]),
                decreases funcs.len() - k,
            {
                let index = k + n_imports;
                let ghost before = candidates@;
                match check_type(types, index as u32, funcs[k]) {
                    Some(c) => {
                        candidates.push(c);
                        proof {
                            assert(candidates@.map_values(|c: CallRemovalCandidate| candidate_view(c))
                                =~= before.map_values(|c: CallRemovalCandidate| candidate_view(c)).push(
                                candidate_view(c)));
                        }
                    },
                    None => {},
                }
                k = k + 1;
            }
        }
        proof {
            if self.functions is None {
                assert(candidates@.map_values(|c: CallRemovalCandidate| candidate_view(c)) =~= from_imports
                    + Seq::<(u32, Seq<ValueType>, Option<ValueType>)>::empty());
            }
            assert forall|i: int, j: int|
                0 <= i < candidates@.len() && 0 <= j < candidates@.len() && i != j implies candidate_index(
                #[trigger] candidates@[i],
            ) != candidate_index(#[trigger] candidates@[j]) by {
                if i < j {
                } else {
                }
            }
        }
        Ok(candidates)
    }
}

} // verus!
