//! Source locations of instructions, from the debug information of a module.
//!
//! Reading the DWARF sections and walking them is left to the `object`,
//! `gimli` and `addr2line` crates: the items below name what their functions
//! give for the bytes of a module.
use vstd::prelude::*;

use std::borrow::Cow;
use std::rc::Rc;

use addr2line::gimli;

use crate::patterns::strings_view;
use object::{Object, ObjectSection};

verus! {

/// Where an instruction comes from in the source code, as far as the debug
/// information tells.
#[derive(Debug, Default, PartialEq, Clone)]
pub struct CodeLocation {
    pub file: Option<String>,
    pub function: Option<String>,
    pub line: Option<u64>,
    pub column: Option<u64>,
}

/// The innermost frame that the debug information gives for an address:
/// the function's demangled name, if the frame names one, and the source
/// position.
pub struct DebugFrame {
    pub function: Option<String>,
    pub file: Option<String>,
    pub line: Option<u32>,
    pub column: Option<u32>,
}

/// An optional string as an optional character sequence.
pub open spec fn opt_str(s: Option<String>) -> Option<Seq<char>> {
    match s {
        Some(x) => Some(x@),
        None => None,
    }
}

/// An optional line or column number, widened.
pub open spec fn opt_u64(n: Option<u32>) -> Option<u64> {
    match n {
        Some(x) => Some(x as u64),
        None => None,
    }
}

fn copy_opt_string(s: &Option<String>) -> (r: Option<String>)
    ensures
        opt_str(r) == opt_str(*s),
{
    match s {
        Some(x) => Some(x.clone()),
        None => None,
    }
}

fn widen(n: Option<u32>) -> (r: Option<u64>)
    ensures
        r == opt_u64(n),
{
    match n {
        Some(x) => Some(x as u64),
        None => None,
    }
}

impl CodeLocation {
    /// The location of an address from the innermost debug frame, if there
    /// is one: its file, line and column, and its function name, or else
    /// the name of the symbol that covers the address. Without a frame only
    /// the symbol name is known.
    pub fn from_debug_info(frame: Option<DebugFrame>, symbol_name: Option<String>) -> (r: Self)
        ensures
            match frame {
                Some(f) => {
                    &&& opt_str(r.file) == opt_str(f.file)
                    &&& opt_str(r.function) == if f.function is Some {
                        opt_str(f.function)
                    } else {
                        opt_str(symbol_name)
                    }
                    &&& r.line == opt_u64(f.line)
                    &&& r.column == opt_u64(f.column)
                },
                None => {
                    &&& r.file is None
                    &&& opt_str(r.function) == opt_str(symbol_name)
                    &&& r.line is None
                    &&& r.column is None
                },
            },
    {
        match frame {
            Some(f) => {
                let function = if f.function.is_some() {
                    copy_opt_string(&f.function)
                } else {
                    copy_opt_string(&symbol_name)
                };
                CodeLocation { file: copy_opt_string(&f.file), function, line: widen(f.line), column: widen(f.column) }
            },
            None => CodeLocation { file: None, function: copy_opt_string(&symbol_name), line: None, column: None },
        }
    }
}

/// The debug information of a module, as `addr2line` and `object` hold it.
#[verifier::external_body]
struct DebugData<'data> {
    context: addr2line::Context<gimli::EndianRcSlice<gimli::RunTimeEndian>>,
    symbols: object::SymbolMap<object::SymbolMapName<'data>>,
}

/// Resolves code addresses of a module to source locations.
pub struct AddressResolver<'data> {
    data: DebugData<'data>,
    bytes: Ghost<Seq<u8>>,
}

/// Whether the bytes hold a module whose debug information `object`,
/// `gimli` and `addr2line` can read (`File::parse`, `Dwarf::load`,
/// `Context::from_dwarf`; a missing section counts as empty).
pub uninterp spec fn debug_info_parses(bytes: Seq<u8>) -> bool;

/// What `Context::find_frames` gives for an address of the module in
/// `bytes`: nothing where the lookup fails, `Some(None)` where no frame
/// covers the address, else the innermost frame: the function's raw name
/// and language (where the frame names a function), the file, the line and
/// the column.
pub uninterp spec fn dwarf_frame(bytes: Seq<u8>, addr: u64) -> Option<
    Option<(Option<(Seq<char>, Option<u16>)>, Option<Seq<char>>, Option<u32>, Option<u32>)>,
>;

/// The raw name of the symbol of the module in `bytes` that covers `addr`,
/// as `SymbolMap::get` finds it.
pub uninterp spec fn symbol_at(bytes: Seq<u8>, addr: u64) -> Option<Seq<char>>;

/// What `addr2line::demangle_auto` makes of a name in a language.
pub uninterp spec fn demangled(name: Seq<char>, language: Option<u16>) -> Seq<char>;

/// A frame as the debug information gives it, before demangling.
pub struct RawFrame {
    pub function: Option<(String, Option<u16>)>,
    pub file: Option<String>,
    pub line: Option<u32>,
    pub column: Option<u32>,
}

/// The abstract content of a raw frame.
pub open spec fn raw_frame_view(f: RawFrame) -> (Option<(Seq<char>, Option<u16>)>, Option<Seq<char>>, Option<u32>, Option<u32>) {
    (
        match f.function {
            Some((n, l)) => Some((n@, l)),
            None => None,
        },
        opt_str(f.file),
        f.line,
        f.column,
    )
}

/// `object::File::parse`, `gimli::Dwarf::load` (each section read with
/// `section_by_name` and `uncompressed_data`, an unreadable or missing one
/// taken as empty), `addr2line::Context::from_dwarf` and
/// `Object::symbol_map`: `None` exactly when one of them fails.
#[verifier::external_body]
fn parse_debug_info<'a>(data: &'a [u8]) -> (r: Option<AddressResolver<'a>>)
    ensures
        r is Some <==> debug_info_parses(data@),
        r matches Some(d) ==> d.spec_bytes() == data@,
{
    let file = object::File::parse(data).ok()?;
    let dwarf = gimli::Dwarf::load(|id| -> Result<_, ()> {
        let section = file.section_by_name(id.name()).and_then(|s| s.uncompressed_data().ok());
        let bytes = section.unwrap_or(Cow::Borrowed(&[]));
        Ok(gimli::EndianRcSlice::new(Rc::from(&*bytes), gimli::RunTimeEndian::Little))
    }).ok()?;
    let context = addr2line::Context::from_dwarf(dwarf).ok()?;
    Some(AddressResolver { data: DebugData { context, symbols: file.symbol_map() }, bytes: Ghost(data@) })
}

/// `Context::find_frames` and the first `FrameIter::next`, with the frame's
/// function name (`Function::raw_name`), language, file, line and column.
#[verifier::external_body]
fn innermost_frame(d: &AddressResolver, addr: u64) -> (r: Option<Option<RawFrame>>)
    requires
        addr < u64::MAX,
    ensures
        match r {
            None => dwarf_frame(d.spec_bytes(), addr) is None,
            Some(None) => dwarf_frame(d.spec_bytes(), addr) == Some(None::<(Option<(Seq<char>, Option<u16>)>, Option<Seq<char>>, Option<u32>, Option<u32>)>),
            Some(Some(f)) => dwarf_frame(d.spec_bytes(), addr) == Some(Some(raw_frame_view(f))),
        },
{
    let frame = match d.data.context.find_frames(addr).ok()?.next().ok()? {
        Some(frame) => frame,
        None => return Some(None),
    };
    let function = match frame.function {
        Some(f) => Some((f.raw_name().ok()?.into_owned(), f.language.map(|l| l.0))),
        None => None,
    };
    let (file, line, column) = frame.location.map_or((None, None, None), |l| (l.file.map(String::from), l.line, l.column));
    Some(Some(RawFrame { function, file, line, column }))
}

/// `SymbolMap::get`: the raw name of the symbol that covers `addr`.
#[verifier::external_body]
fn symbol_name(d: &AddressResolver, addr: u64) -> (r: Option<String>)
    ensures
        opt_str(r) == symbol_at(d.spec_bytes(), addr),
{
    d.data.symbols.get(addr).map(|s| String::from(s.name()))
}

/// `addr2line::demangle_auto`: the demangled name, or the name itself where
/// it is not mangled.
#[verifier::external_body]
fn demangle(name: &str, language: Option<u16>) -> (r: String)
    ensures
        r@ == demangled(name@, language),
{
    addr2line::demangle_auto(Cow::from(name), language.map(gimli::DwLang)).into_owned()
}

/// The location that the debug information gives for an address: from the
/// innermost frame, with demangled function names; where the frame names no
/// function, the symbol covering the address names it.
pub open spec fn resolved_location(
    frame: Option<(Option<(Seq<char>, Option<u16>)>, Option<Seq<char>>, Option<u32>, Option<u32>)>,
    symbol: Option<Seq<char>>,
) -> (Option<Seq<char>>, Option<Seq<char>>, Option<u64>, Option<u64>) {
    let from_symbol = match symbol {
        Some(s) => Some(demangled(s, None)),
        None => None,
    };
    match frame {
        Some((function, file, line, column)) => (
            file,
            match function {
                Some((n, l)) => Some(demangled(n, l)),
                None => from_symbol,
            },
            opt_u64(line),
            opt_u64(column),
        ),
        None => (None, from_symbol, None, None),
    }
}

/// The abstract content of a location: file, function, line, column.
pub open spec fn location_view(l: CodeLocation) -> (Option<Seq<char>>, Option<Seq<char>>, Option<u64>, Option<u64>) {
    (opt_str(l.file), opt_str(l.function), l.line, l.column)
}

/// The location `l` keeps the file, line and column of the innermost frame
/// that the debug information gives for `addr`, and its function is the
/// frame's function, demangled; without a frame it has no file, line or
/// column.
pub open spec fn keeps_frame(l: CodeLocation, bytes: Seq<u8>, addr: u64) -> bool {
    &&& dwarf_frame(bytes, addr) matches Some(Some((function, file, line, column))) ==> {
        &&& opt_str(l.file) == file
        &&& (line matches Some(n) ==> l.line == Some(n as u64))
        &&& (line is None ==> l.line is None)
        &&& (column matches Some(c) ==> l.column == Some(c as u64))
        &&& (column is None ==> l.column is None)
        &&& (function matches Some((name, language)) ==> opt_str(l.function) == Some(demangled(name, language)))
    }
    &&& dwarf_frame(bytes, addr) is None || dwarf_frame(bytes, addr) == Some(
        None::<(Option<(Seq<char>, Option<u16>)>, Option<Seq<char>>, Option<u32>, Option<u32>)>,
    ) ==> {
        &&& l.file is None
        &&& l.line is None
        &&& l.column is None
    }
}

proof fn lemma_located_keeps_frame(l: CodeLocation, bytes: Seq<u8>, addr: u64)
    requires
        location_view(l) == located(bytes, addr),
    ensures
        keeps_frame(l, bytes, addr),
{
}

fn demangle_opt(name: Option<String>, language: Option<u16>) -> (r: Option<String>)
    ensures
        opt_str(r) == match name {
            Some(n) => Some(demangled(n@, language)),
            None => None,
        },
{
    match name {
        Some(n) => Some(demangle(n.as_str(), language)),
        None => None,
    }
}

impl<'data> AddressResolver<'data> {
    /// The bytes of the module whose debug information this is.
    pub closed spec fn spec_bytes(&self) -> Seq<u8> {
        self.bytes@
    }

    /// Read the debug information of the module in `data`; `None` where it
    /// cannot be read.
    pub fn new(data: &'data [u8]) -> (r: Option<Self>)
        ensures
            r is Some <==> debug_info_parses(data@),
            r matches Some(d) ==> d.spec_bytes() == data@,
    {
        parse_debug_info(data)
    }

    /// The source location of code address `addr` (relative to the code
    /// section): none where the debug information cannot be searched.
    pub fn lookup_address(&self, addr: u64) -> (r: Option<CodeLocation>)
        requires
            addr < u64::MAX,
        ensures
            dwarf_frame(self.spec_bytes(), addr) matches Some(Some((function, file, line, column))) ==> {
                &&& r is Some
                &&& opt_str(r->0.file) == file
                &&& (line matches Some(n) ==> r->0.line == Some(n as u64))
                &&& (line is None ==> r->0.line is None)
                &&& (column matches Some(c) ==> r->0.column == Some(c as u64))
                &&& (column is None ==> r->0.column is None)
                &&& (function matches Some((name, language)) ==> opt_str(r->0.function) == Some(demangled(name, language)))
            },
            dwarf_frame(self.spec_bytes(), addr) == Some(None::<(Option<(Seq<char>, Option<u16>)>, Option<Seq<char>>, Option<u32>, Option<u32>)>) ==> {
                &&& r is Some
                &&& r->0.file is None
                &&& r->0.line is None
                &&& r->0.column is None
            },
            match dwarf_frame(self.spec_bytes(), addr) {
                None => r is None,
                Some(frame) => r matches Some(l) && location_view(l) == resolved_location(
                    frame,
                    symbol_at(self.spec_bytes(), addr),
                ),
            },
    {
        let frame = match innermost_frame(self, addr) {
            None => {
                return None;
            },
            Some(f) => f,
        };
        let symbol = demangle_opt(symbol_name(self, addr), None);
        let debug_frame = match frame {
            None => None,
            Some(f) => {
                let function = match f.function {
                    Some((n, l)) => Some(demangle(n.as_str(), l)),
                    None => None,
                };
                Some(DebugFrame { function, file: f.file, line: f.line, column: f.column })
            },
        };
        Some(CodeLocation::from_debug_info(debug_frame, symbol))
    }

    /// The source location of every address, body by body, as
    /// `lookup_address` gives it; an address that cannot be searched gets
    /// the empty location.
    pub fn locate_all(&self, addrs: &Vec<Vec<u64>>) -> (r: Vec<Vec<CodeLocation>>)
        requires
            forall|f: int, k: int| 0 <= f < addrs@.len() && 0 <= k < addrs@[f]@.len() ==> #[trigger] addrs@[f]@[k] < u64::MAX,
        ensures
            r@.len() == addrs@.len(),
            forall|f: int|
                0 <= f < addrs@.len() ==> (#[trigger] r@[f])@.len() == addrs@[f]@.len(),
            forall|f: int, k: int|
                0 <= f < addrs@.len() && 0 <= k < addrs@[f]@.len() ==> location_view(#[trigger] r@[f]@[k])
                    == located(self.spec_bytes(), addrs@[f]@[k]),
            forall|f: int, k: int|
                0 <= f < addrs@.len() && 0 <= k < addrs@[f]@.len() ==> keeps_frame(
                    #[trigger] r@[f]@[k],
                    self.spec_bytes(),
                    addrs@[f]@[k],
                ),
    {
        let mut result: Vec<Vec<CodeLocation>> = Vec::new();
        let mut f: usize = 0;
        while f < addrs.len()
            invariant
                f <= addrs@.len(),
                result@.len() == f,
                forall|g: int| 0 <= g < f ==> (#[trigger] result@[g])@.len() == addrs@[g]@.len(),
                forall|g: int, k: int| 0 <= g < addrs@.len() && 0 <= k < addrs@[g]@.len() ==> #[trigger] addrs@[g]@[k] < u64::MAX,
                forall|g: int, k: int|
                    0 <= g < f && 0 <= k < addrs@[g]@.len() ==> location_view(#[trigger] result@[g]@[k])
                        == located(self.spec_bytes(), addrs@[g]@[k]),
            decreases addrs.len() - f,
        {
            let body = &addrs[f];
            let mut locations: Vec<CodeLocation> = Vec::new();
            let mut k: usize = 0;
            while k < body.len()
                invariant
                    k <= body@.len(),
                    body == addrs@[f as int],
                    f < addrs@.len(),
                    forall|g: int, j: int| 0 <= g < addrs@.len() && 0 <= j < addrs@[g]@.len() ==> #[trigger] addrs@[g]@[j] < u64::MAX,
                    locations@.len() == k,
                    forall|j: int| 0 <= j < k ==> location_view(#[trigger] locations@[j])
                        == located(self.spec_bytes(), body@[j]),
                decreases body.len() - k,
            {
                let location = match self.lookup_address(body[k]) {
                    Some(l) => l,
                    None => CodeLocation { file: None, function: None, line: None, column: None },
                };
                locations.push(location);
                k = k + 1;
            }
            let ghost before = result@;
            result.push(locations);
            proof {
                assert forall|g: int| 0 <= g < f + 1 implies (#[trigger] result@[g])@.len() == addrs@[g]@.len() by {
                    if g < f {
                        assert(result@[g] == before[g]);
                    }
                }
                assert forall|g: int, k: int|
                    0 <= g < f + 1 && 0 <= k < addrs@[g]@.len() implies location_view(#[trigger] result@[g]@[k])
                        == located(self.spec_bytes(), addrs@[g]@[k]) by {
                    if g < f {
                        assert(result@[g] == before[g]);
                    }
                }
            }
            f = f + 1;
        }
        proof {
            assert forall|g: int, k: int|
                0 <= g < addrs@.len() && 0 <= k < addrs@[g]@.len() implies keeps_frame(
                    #[trigger] result@[g]@[k],
                    self.spec_bytes(),
                    addrs@[g]@[k],
                ) by {
                lemma_located_keeps_frame(result@[g]@[k], self.spec_bytes(), addrs@[g]@[k]);
            }
        }
        result
    }
}

/// The location of an address of the module in `bytes`: what the debug
/// information resolves it to, or the empty location where it cannot be
/// searched.
pub open spec fn located(bytes: Seq<u8>, addr: u64) -> (Option<Seq<char>>, Option<Seq<char>>, Option<u64>, Option<u64>) {
    match dwarf_frame(bytes, addr) {
        None => (None, None, None, None),
        Some(frame) => resolved_location(frame, symbol_at(bytes, addr)),
    }
}

/// The function name (`functions`) or the file of a location.
pub open spec fn name_of(l: CodeLocation, functions: bool) -> Option<Seq<char>> {
    if functions {
        opt_str(l.function)
    } else {
        opt_str(l.file)
    }
}

/// `s` is the name of a location among all of body `f` and earlier bodies
/// and the first `k` locations of body `f`.
pub open spec fn name_seen(places: Seq<Vec<CodeLocation>>, functions: bool, s: Seq<char>, f: int, k: int) -> bool {
    exists|g: int, j: int|
        0 <= g <= f && g < places.len() && 0 <= j < places[g]@.len() && (g < f || j < k) && #[trigger] name_of(
            places[g]@[j],
            functions,
        ) == Some(s)
}

/// The names of all locations.
pub open spec fn names_in(places: Seq<Vec<CodeLocation>>, functions: bool, s: Seq<char>) -> bool {
    exists|g: int, j: int|
        0 <= g < places.len() && 0 <= j < places[g]@.len() && #[trigger] name_of(places[g]@[j], functions) == Some(s)
}

fn contains_string(names: &Vec<String>, s: &String) -> (r: bool)
    ensures
        r <==> strings_view(names@).contains(s@),
{
    let mut i: usize = 0;
    while i < names.len()
        invariant
            i <= names@.len(),
            forall|j: int| 0 <= j < i ==> names@[j]@ != s@,
        decreases names.len() - i,
    {
        if names[i] == *s {
            assert(strings_view(names@)[i as int] == s@);
            return true;
        }
        i = i + 1;
    }
    proof {
        if strings_view(names@).contains(s@) {
            let j = choose|j: int| 0 <= j < strings_view(names@).len() && strings_view(names@)[j] == s@;
            assert(names@[j]@ == s@);
        }
    }
    false
}

/// Every distinct name of the locations once, in the order in which they
/// first occur.
fn collect_names(places: &Vec<Vec<CodeLocation>>, functions: bool) -> (r: Vec<String>)
    ensures
        strings_view(r@).no_duplicates(),
        forall|s: Seq<char>| #[trigger] strings_view(r@).contains(s) <==> names_in(places@, functions, s),
{
    let mut names: Vec<String> = Vec::new();
    let mut f: usize = 0;
    while f < places.len()
        invariant
            f <= places@.len(),
            strings_view(names@).no_duplicates(),
            forall|s: Seq<char>| #[trigger] strings_view(names@).contains(s) <==> name_seen(places@, functions, s, f as int, 0),
        decreases places.len() - f,
    {
        let body = &places[f];
        let mut k: usize = 0;
        while k < body.len()
            invariant
                k <= body@.len(),
                f < places@.len(),
                body == places@[f as int],
                strings_view(names@).no_duplicates(),
                forall|s: Seq<char>| #[trigger] strings_view(names@).contains(s) <==> name_seen(places@, functions, s, f as int, k as int),
            decreases body.len() - k,
        {
            let name = if functions {
                &body[k].function
            } else {
                &body[k].file
            };
            let ghost old_names = names@;
            if let Some(n) = name {
                if !contains_string(&names, n) {
                    names.push(n.clone());
                    proof {
                        assert(strings_view(names@) =~= strings_view(old_names).push(n@));
                        assert(strings_view(names@)[strings_view(names@).len() - 1] == n@);
                    }
                }
                assert(strings_view(names@).contains(n@));
            }
            proof {
                let nv = strings_view(names@);
                let ov = strings_view(old_names);
                let here = name_of(places@[f as int]@[k as int], functions);
                assert(here == opt_str(*name));
                assert forall|s: Seq<char>| ov.contains(s) implies nv.contains(s) by {
                    let i = choose|i: int| 0 <= i < ov.len() && ov[i] == s;
                    assert(nv[i] == ov[i]);
                }
                assert forall|s: Seq<char>| nv.contains(s) implies ov.contains(s) || here == Some(s) by {
                    let i = choose|i: int| 0 <= i < nv.len() && nv[i] == s;
                    if i < ov.len() {
                        assert(nv[i] == ov[i]);
                    }
                }
                if here is Some {
                    assert(nv.contains(here->0));
                }
                assert forall|s: Seq<char>| #[trigger] strings_view(names@).contains(s) <==> name_seen(places@, functions, s, f as int, k + 1) by {
                    if name_seen(places@, functions, s, f as int, k + 1) {
                        let (g, j) = choose|g: int, j: int|
                            0 <= g <= f && g < places@.len() && 0 <= j < places@[g]@.len() && (g < f || j < k + 1)
                                && #[trigger] name_of(places@[g]@[j], functions) == Some(s);
                        if !(g == f && j == k) {
                            assert(name_seen(places@, functions, s, f as int, k as int));
                            assert(ov.contains(s));
                        } else {
                            assert(here == Some(s));
                        }
                    }
                    if nv.contains(s) {
                        if ov.contains(s) {
                            let (g, j) = choose|g: int, j: int|
                                0 <= g <= f && g < places@.len() && 0 <= j < places@[g]@.len() && (g < f || j < k)
                                    && #[trigger] name_of(places@[g]@[j], functions) == Some(s);
                            assert(name_seen(places@, functions, s, f as int, k + 1));
                        } else {
                            assert(here == Some(s));
                            assert(name_seen(places@, functions, s, f as int, k + 1));
                        }
                    }
                }
            }
            k = k + 1;
        }
        proof {
            assert forall|s: Seq<char>| #[trigger] strings_view(names@).contains(s) <==> name_seen(places@, functions, s, f + 1, 0) by {
                if name_seen(places@, functions, s, f + 1, 0) {
                    let (g, j) = choose|g: int, j: int|
                        0 <= g <= f + 1 && g < places@.len() && 0 <= j < places@[g]@.len() && (g < f + 1 || j < 0)
                            && #[trigger] name_of(places@[g]@[j], functions) == Some(s);
                    assert(name_seen(places@, functions, s, f as int, k as int));
                }
                if name_seen(places@, functions, s, f as int, k as int) {
                    let (g, j) = choose|g: int, j: int|
                        0 <= g <= f && g < places@.len() && 0 <= j < places@[g]@.len() && (g < f || j < k)
                            && #[trigger] name_of(places@[g]@[j], functions) == Some(s);
                    assert(name_seen(places@, functions, s, f + 1, 0));
                }
            }
        }
        f = f + 1;
    }
    proof {
        assert forall|s: Seq<char>| #[trigger] strings_view(names@).contains(s) <==> names_in(places@, functions, s) by {
            if names_in(places@, functions, s) {
                let (g, j) = choose|g: int, j: int|
                    0 <= g < places@.len() && 0 <= j < places@[g]@.len() && #[trigger] name_of(places@[g]@[j], functions) == Some(s);
                assert(name_seen(places@, functions, s, f as int, 0));
            }
            if name_seen(places@, functions, s, f as int, 0) {
                let (g, j) = choose|g: int, j: int|
                    0 <= g <= f && g < places@.len() && 0 <= j < places@[g]@.len() && (g < f || j < 0)
                        && #[trigger] name_of(places@[g]@[j], functions) == Some(s);
                assert(names_in(places@, functions, s));
            }
        }
    }
    names
}

/// The names of all functions that the locations name, each once.
pub fn function_names(places: &Vec<Vec<CodeLocation>>) -> (r: Vec<String>)
    ensures
        strings_view(r@).no_duplicates(),
        forall|s: Seq<char>| #[trigger] strings_view(r@).contains(s) <==> names_in(places@, true, s),
{
    collect_names(places, true)
}

/// The names of all source files that the locations name, each once.
pub fn file_names(places: &Vec<Vec<CodeLocation>>) -> (r: Vec<String>)
    ensures
        strings_view(r@).no_duplicates(),
        forall|s: Seq<char>| #[trigger] strings_view(r@).contains(s) <==> names_in(places@, false, s),
{
    collect_names(places, false)
}

} // verus!
