//! Mutations and the places where they apply.
use vstd::prelude::*;

use crate::addressresolver::{opt_str, CodeLocation};
use crate::config::{effective_operator_patterns, Config};
use crate::instruction::{BlockType, Instruction, ValueType};
use crate::operator::{
    lemma_mutants_same_candidates, mutants_spec, registration_order, replacement_view, same_candidates,
    select_operators, InstructionContext, InstructionReplacement, OperatorKind, OperatorRegistry, RegistryError,
};
use crate::patterns::{all_empty, any_pattern_matches, regex_set_compiles, strings_view};
use crate::policy::{configured_patterns, MutationPolicy, PolicyError};
use crate::wasmmodule::rewrite::{min_int, offsets_in_code_section};
use crate::wasmmodule::{
    candidate_view, code_view, expected_candidates, section_len, CallRemovalCandidate, ModuleError, WasmModule,
};

verus! {

/// Definition of a position where and how a module is mutated.
#[derive(Debug, Clone)]
pub struct Mutation {
    /// A unique ID for this mutation
    pub id: i64,
    /// The mutation operator that is to be applied
    pub operator: InstructionReplacement,
}

/// An instruction of a module together with all mutations of it.
#[derive(Debug, Clone)]
pub struct MutationLocation {
    /// The index in the module's function table
    pub function_number: u64,
    /// The index of the instruction to be mutated, relative to the start
    /// of the function
    pub statement_number: u64,
    /// The offset in bytes relative to the start of the code section
    pub offset: u64,
    /// All mutations for this location
    pub mutations: Vec<Mutation>,
}

} // verus!

verus! {

/// The abstract content of a location, without the ids of its mutations:
/// function, instruction, offset and the replacements.
pub open spec fn location_shape(l: MutationLocation) -> (
    u64,
    u64,
    u64,
    Seq<(OperatorKind, Instruction, Instruction, BlockType, Seq<ValueType>)>,
) {
    (
        l.function_number,
        l.statement_number,
        l.offset,
        l.mutations@.map_values(|m: Mutation| replacement_view(m.operator)),
    )
}

/// The contents of a list of call removal candidates.
pub open spec fn candidate_views(cs: Seq<CallRemovalCandidate>) -> Seq<(u32, Seq<ValueType>, Option<ValueType>)> {
    cs.map_values(|c: CallRemovalCandidate| candidate_view(c))
}

/// The abstract content of a list of locations, without ids.
pub open spec fn location_shapes(locs: Seq<MutationLocation>) -> Seq<
    (u64, u64, u64, Seq<(OperatorKind, Instruction, Instruction, BlockType, Seq<ValueType>)>),
> {
    locs.map_values(|l: MutationLocation| location_shape(l))
}

/// Source locations by body and instruction.
pub open spec fn places_view(places: Seq<Vec<CodeLocation>>) -> Seq<Seq<CodeLocation>> {
    places.map_values(|p: Vec<CodeLocation>| p@)
}

/// The mutation locations of the first `upto` instructions of body `f`:
/// each instruction whose source location the policy allows and that some
/// enabled operator mutates.
pub open spec fn body_locations(
    policy: MutationPolicy,
    kinds: Seq<OperatorKind>,
    cs: Seq<CallRemovalCandidate>,
    f: int,
    body: (Seq<Instruction>, Seq<u64>),
    base: u64,
    places: Seq<CodeLocation>,
    upto: int,
) -> Seq<(u64, u64, u64, Seq<(OperatorKind, Instruction, Instruction, BlockType, Seq<ValueType>)>)>
    decreases upto,
{
    if upto <= 0 {
        Seq::empty()
    } else {
        let rest = body_locations(policy, kinds, cs, f, body, base, places, upto - 1);
        let i = upto - 1;
        let ms = if policy.location_allowed(opt_str(places[i].file), opt_str(places[i].function)) {
            mutants_spec(kinds, body.0[i], cs)
        } else {
            Seq::empty()
        };
        if ms.len() == 0 {
            rest
        } else {
            rest.push((f as u64, i as u64, (body.1[i] - base) as u64, ms))
        }
    }
}

/// The mutation locations of the first `upto` bodies, body by body; an
/// instruction counts where it has an offset.
pub open spec fn module_locations(
    policy: MutationPolicy,
    kinds: Seq<OperatorKind>,
    cs: Seq<CallRemovalCandidate>,
    bodies: Seq<(Seq<Instruction>, Seq<u64>)>,
    base: u64,
    places: Seq<Seq<CodeLocation>>,
    upto: int,
) -> Seq<(u64, u64, u64, Seq<(OperatorKind, Instruction, Instruction, BlockType, Seq<ValueType>)>)>
    decreases upto,
{
    if upto <= 0 {
        Seq::empty()
    } else {
        let f = upto - 1;
        module_locations(policy, kinds, cs, bodies, base, places, f) + body_locations(
            policy,
            kinds,
            cs,
            f,
            bodies[f],
            base,
            places[f],
            min_int(bodies[f].0.len() as int, bodies[f].1.len() as int),
        )
    }
}

/// The number of mutations of the first `k` locations.
pub open spec fn mutations_before(locs: Seq<MutationLocation>, k: int) -> nat
    decreases k,
{
    if k <= 0 {
        0
    } else {
        mutations_before(locs, k - 1) + locs[k - 1].mutations@.len()
    }
}

proof fn lemma_body_locations_has(
    policy: MutationPolicy,
    kinds: Seq<OperatorKind>,
    cs: Seq<CallRemovalCandidate>,
    f: int,
    body: (Seq<Instruction>, Seq<u64>),
    base: u64,
    places: Seq<CodeLocation>,
    upto: int,
    j: int,
)
    requires
        0 <= j < upto,
        policy.location_allowed(opt_str(places[j].file), opt_str(places[j].function)),
        mutants_spec(kinds, body.0[j], cs).len() > 0,
    ensures
        body_locations(policy, kinds, cs, f, body, base, places, upto).contains(
            (f as u64, j as u64, (body.1[j] - base) as u64, mutants_spec(kinds, body.0[j], cs)),
        ),
    decreases upto,
{
    let e = (f as u64, j as u64, (body.1[j] - base) as u64, mutants_spec(kinds, body.0[j], cs));
    let cur = body_locations(policy, kinds, cs, f, body, base, places, upto);
    if j < upto - 1 {
        lemma_body_locations_has(policy, kinds, cs, f, body, base, places, upto - 1, j);
        let prev = body_locations(policy, kinds, cs, f, body, base, places, upto - 1);
        let q = choose|q: int| 0 <= q < prev.len() && prev[q] == e;
        assert(cur[q] == prev[q]);
    } else {
        assert(cur[cur.len() - 1] == e);
    }
}

proof fn lemma_module_locations_has(
    policy: MutationPolicy,
    kinds: Seq<OperatorKind>,
    cs: Seq<CallRemovalCandidate>,
    bodies: Seq<(Seq<Instruction>, Seq<u64>)>,
    base: u64,
    places: Seq<Seq<CodeLocation>>,
    upto: int,
    f: int,
    x: (u64, u64, u64, Seq<(OperatorKind, Instruction, Instruction, BlockType, Seq<ValueType>)>),
)
    requires
        0 <= f < upto,
        body_locations(
            policy,
            kinds,
            cs,
            f,
            bodies[f],
            base,
            places[f],
            min_int(bodies[f].0.len() as int, bodies[f].1.len() as int),
        ).contains(x),
    ensures
        module_locations(policy, kinds, cs, bodies, base, places, upto).contains(x),
    decreases upto,
{
    let cur = module_locations(policy, kinds, cs, bodies, base, places, upto);
    let prev = module_locations(policy, kinds, cs, bodies, base, places, upto - 1);
    if f < upto - 1 {
        lemma_module_locations_has(policy, kinds, cs, bodies, base, places, upto - 1, f, x);
        let q = choose|q: int| 0 <= q < prev.len() && prev[q] == x;
        assert(cur[q] == prev[q]);
    } else {
        let b = body_locations(
            policy,
            kinds,
            cs,
            f,
            bodies[f],
            base,
            places[f],
            min_int(bodies[f].0.len() as int, bodies[f].1.len() as int),
        );
        let q = choose|q: int| 0 <= q < b.len() && b[q] == x;
        assert(cur[prev.len() + q] == b[q]);
    }
}

/// Discovery mutates every instruction that has an offset, whose function
/// or whose file the policy allows (a function name matching one of the
/// allowed function patterns suffices, whatever the file), and that some
/// enabled operator mutates: its location, with those replacements, is
/// among the locations of the module.
pub proof fn lemma_allowed_instructions_are_mutated(
    policy: MutationPolicy,
    kinds: Seq<OperatorKind>,
    cs: Seq<CallRemovalCandidate>,
    bodies: Seq<(Seq<Instruction>, Seq<u64>)>,
    base: u64,
    places: Seq<Seq<CodeLocation>>,
    f: int,
    j: int,
)
    requires
        0 <= f < bodies.len(),
        f < places.len(),
        0 <= j < bodies[f].0.len(),
        j < bodies[f].1.len(),
        j < places[f].len(),
        (places[f][j].function matches Some(g) && (policy.spec_anything_allowed() || any_pattern_matches(
            policy.function_patterns(),
            g@,
        ))) || (places[f][j].file matches Some(x) && (policy.spec_anything_allowed() || any_pattern_matches(
            policy.file_patterns(),
            x@,
        ))) || policy.spec_anything_allowed(),
        mutants_spec(kinds, bodies[f].0[j], cs).len() > 0,
    ensures
        module_locations(policy, kinds, cs, bodies, base, places, bodies.len() as int).contains(
            (f as u64, j as u64, (bodies[f].1[j] - base) as u64, mutants_spec(kinds, bodies[f].0[j], cs)),
        ),
{
    let n = min_int(bodies[f].0.len() as int, bodies[f].1.len() as int);
    lemma_body_locations_has(policy, kinds, cs, f, bodies[f], base, places[f], n, j);
    lemma_module_locations_has(
        policy,
        kinds,
        cs,
        bodies,
        base,
        places,
        bodies.len() as int,
        f,
        (f as u64, j as u64, (bodies[f].1[j] - base) as u64, mutants_spec(kinds, bodies[f].0[j], cs)),
    );
}

/// An entry of the locations of body `f` names an instruction `j` of that
/// body that the policy allows and that the operators mutate.
pub open spec fn names_allowed_mutation(
    e: (u64, u64, u64, Seq<(OperatorKind, Instruction, Instruction, BlockType, Seq<ValueType>)>),
    policy: MutationPolicy,
    kinds: Seq<OperatorKind>,
    cs: Seq<CallRemovalCandidate>,
    bodies: Seq<(Seq<Instruction>, Seq<u64>)>,
    base: u64,
    places: Seq<Seq<CodeLocation>>,
) -> bool {
    let f = e.0 as int;
    let j = e.1 as int;
    &&& 0 <= f < bodies.len()
    &&& 0 <= j < bodies[f].0.len()
    &&& j < bodies[f].1.len()
    &&& e.2 == (bodies[f].1[j] - base) as u64
    &&& e.3 == mutants_spec(kinds, bodies[f].0[j], cs)
    &&& e.3.len() > 0
    &&& policy.location_allowed(opt_str(places[f][j].file), opt_str(places[f][j].function))
}

proof fn lemma_body_locations_only(
    policy: MutationPolicy,
    kinds: Seq<OperatorKind>,
    cs: Seq<CallRemovalCandidate>,
    bodies: Seq<(Seq<Instruction>, Seq<u64>)>,
    base: u64,
    places: Seq<Seq<CodeLocation>>,
    f: int,
    upto: int,
)
    requires
        0 <= f < bodies.len(),
        f < places.len(),
        f <= u64::MAX,
        upto <= bodies[f].0.len(),
        upto <= bodies[f].1.len(),
        upto <= u64::MAX + 1,
    ensures
        forall|q: int|
            0 <= q < body_locations(policy, kinds, cs, f, bodies[f], base, places[f], upto).len()
                ==> names_allowed_mutation(
                #[trigger] body_locations(policy, kinds, cs, f, bodies[f], base, places[f], upto)[q],
                policy,
                kinds,
                cs,
                bodies,
                base,
                places,
            ),
    decreases upto,
{
    if upto > 0 {
        lemma_body_locations_only(policy, kinds, cs, bodies, base, places, f, upto - 1);
        let prev = body_locations(policy, kinds, cs, f, bodies[f], base, places[f], upto - 1);
        let cur = body_locations(policy, kinds, cs, f, bodies[f], base, places[f], upto);
        assert forall|q: int| 0 <= q < cur.len() implies names_allowed_mutation(
            #[trigger] cur[q],
            policy,
            kinds,
            cs,
            bodies,
            base,
            places,
        ) by {
            if q < prev.len() {
                assert(cur[q] == prev[q]);
            }
        }
    }
}

proof fn lemma_module_locations_only(
    policy: MutationPolicy,
    kinds: Seq<OperatorKind>,
    cs: Seq<CallRemovalCandidate>,
    bodies: Seq<(Seq<Instruction>, Seq<u64>)>,
    base: u64,
    places: Seq<Seq<CodeLocation>>,
    upto: int,
)
    requires
        upto <= bodies.len(),
        upto <= places.len(),
        bodies.len() <= u64::MAX,
        forall|g: int| 0 <= g < bodies.len() ==> (#[trigger] bodies[g]).0.len() <= u64::MAX,
    ensures
        forall|q: int|
            0 <= q < module_locations(policy, kinds, cs, bodies, base, places, upto).len() ==> names_allowed_mutation(
                #[trigger] module_locations(policy, kinds, cs, bodies, base, places, upto)[q],
                policy,
                kinds,
                cs,
                bodies,
                base,
                places,
            ),
    decreases upto,
{
    if upto > 0 {
        let f = upto - 1;
        lemma_module_locations_only(policy, kinds, cs, bodies, base, places, f);
        let n = min_int(bodies[f].0.len() as int, bodies[f].1.len() as int);
        lemma_body_locations_only(policy, kinds, cs, bodies, base, places, f, n);
        let prev = module_locations(policy, kinds, cs, bodies, base, places, f);
        let b = body_locations(policy, kinds, cs, f, bodies[f], base, places[f], n);
        let cur = module_locations(policy, kinds, cs, bodies, base, places, upto);
        assert(cur == prev + b);
        assert forall|q: int| 0 <= q < cur.len() implies names_allowed_mutation(
            #[trigger] cur[q],
            policy,
            kinds,
            cs,
            bodies,
            base,
            places,
        ) by {
            if q < prev.len() {
                assert(cur[q] == prev[q]);
            } else {
                assert(cur[q] == b[q - prev.len()]);
            }
        }
    }
}

/// Discovery mutates nothing else: every location it finds names an
/// instruction that has an offset, whose file or function the policy
/// allows, and that the enabled operators mutate, with exactly their
/// replacements.
pub proof fn lemma_only_allowed_instructions_are_mutated(
    policy: MutationPolicy,
    kinds: Seq<OperatorKind>,
    cs: Seq<CallRemovalCandidate>,
    bodies: Seq<(Seq<Instruction>, Seq<u64>)>,
    base: u64,
    places: Seq<Seq<CodeLocation>>,
)
    requires
        places.len() >= bodies.len(),
        bodies.len() <= u64::MAX,
        forall|g: int| 0 <= g < bodies.len() ==> (#[trigger] bodies[g]).0.len() <= u64::MAX,
    ensures
        forall|q: int|
            0 <= q < module_locations(policy, kinds, cs, bodies, base, places, bodies.len() as int).len()
                ==> names_allowed_mutation(
                #[trigger] module_locations(policy, kinds, cs, bodies, base, places, bodies.len() as int)[q],
                policy,
                kinds,
                cs,
                bodies,
                base,
                places,
            ),
{
    lemma_module_locations_only(policy, kinds, cs, bodies, base, places, bodies.len() as int);
}

/// The value of a wrapping 64-bit counter that starts at 1, after `k`
/// increments.
pub open spec fn counter_value(k: nat) -> u64
    decreases k,
{
    if k == 0 {
        1
    } else {
        let p = counter_value((k - 1) as nat);
        if p == u64::MAX {
            0
        } else {
            (p + 1) as u64
        }
    }
}

/// The mutations are numbered by a counter that starts at 1, in order.
pub open spec fn ids_sequential(locs: Seq<MutationLocation>) -> bool {
    forall|k: int, j: int|
        0 <= k < locs.len() && 0 <= j < locs[k].mutations@.len() ==> (#[trigger] locs[k].mutations@[j]).id
            == counter_value((mutations_before(locs, k) + j) as nat) as i64
}

/// Counting over a prefix does not look past it.
proof fn lemma_mutations_before_prefix(locs: Seq<MutationLocation>, x: MutationLocation, k: int)
    requires
        0 <= k <= locs.len(),
    ensures
        mutations_before(locs.push(x), k) == mutations_before(locs, k),
    decreases k,
{
    if k > 0 {
        lemma_mutations_before_prefix(locs, x, k - 1);
        assert(locs.push(x)[k - 1] == locs[k - 1]);
    }
}

/// The mutations of the locations of a body do not depend on which list of
/// equal call removal candidates is used.
proof fn lemma_body_locations_same_candidates(
    policy: MutationPolicy,
    kinds: Seq<OperatorKind>,
    a: Seq<CallRemovalCandidate>,
    b: Seq<CallRemovalCandidate>,
    f: int,
    body: (Seq<Instruction>, Seq<u64>),
    base: u64,
    places: Seq<CodeLocation>,
    upto: int,
)
    requires
        same_candidates(a, b),
    ensures
        body_locations(policy, kinds, a, f, body, base, places, upto) == body_locations(
            policy,
            kinds,
            b,
            f,
            body,
            base,
            places,
            upto,
        ),
    decreases upto,
{
    if upto > 0 {
        lemma_body_locations_same_candidates(policy, kinds, a, b, f, body, base, places, upto - 1);
        lemma_mutants_same_candidates(kinds, body.0[upto - 1], a, b);
    }
}

/// The mutation locations of a module do not depend on which list of equal
/// call removal candidates is used.
proof fn lemma_module_locations_same_candidates(
    policy: MutationPolicy,
    kinds: Seq<OperatorKind>,
    a: Seq<CallRemovalCandidate>,
    b: Seq<CallRemovalCandidate>,
    bodies: Seq<(Seq<Instruction>, Seq<u64>)>,
    base: u64,
    places: Seq<Seq<CodeLocation>>,
    upto: int,
)
    requires
        same_candidates(a, b),
    ensures
        module_locations(policy, kinds, a, bodies, base, places, upto) == module_locations(
            policy,
            kinds,
            b,
            bodies,
            base,
            places,
            upto,
        ),
    decreases upto,
{
    if upto > 0 {
        let f = upto - 1;
        lemma_module_locations_same_candidates(policy, kinds, a, b, bodies, base, places, f);
        lemma_body_locations_same_candidates(
            policy,
            kinds,
            a,
            b,
            f,
            bodies[f],
            base,
            places[f],
            min_int(bodies[f].0.len() as int, bodies[f].1.len() as int),
        );
    }
}

/// Source locations for every instruction of the module that has an offset.
pub open spec fn places_cover(places: Seq<Seq<CodeLocation>>, bodies: Seq<(Seq<Instruction>, Seq<u64>)>) -> bool {
    &&& places.len() >= bodies.len()
    &&& forall|f: int|
        0 <= f < bodies.len() ==> #[trigger] places[f].len() >= min_int(
            bodies[f].0.len() as int,
            bodies[f].1.len() as int,
        )
}

/// Why mutation candidates could not be discovered.
pub enum DiscoveryError {
    /// The operator patterns were rejected.
    Registry(RegistryError),
    /// The module lacks a section that discovery reads.
    Module(ModuleError),
}

/// Used for discovering possible mutants based on the module and a set of
/// operators.
pub struct MutationEngine {
    /// The policy used to filter mutant candidates.
    mutation_policy: MutationPolicy,
    /// A list of all operators that are to be enabled.
    enabled_operators: Vec<String>,
}

impl MutationEngine {
    pub closed spec fn spec_policy(&self) -> MutationPolicy {
        self.mutation_policy
    }

    pub closed spec fn spec_enabled_operators(&self) -> Seq<Seq<char>> {
        strings_view(self.enabled_operators@)
    }

    /// Create a new `MutationEngine`, based on a configuration: its policy
    /// and its operator patterns.
    pub fn new(config: &Config) -> (r: Result<Self, PolicyError>)
        ensures
            ({
                let files = configured_patterns(config.spec_filter().spec_allowed_files());
                let funcs = configured_patterns(config.spec_filter().spec_allowed_functions());
                &&& r is Ok <==> regex_set_compiles(funcs) && regex_set_compiles(files)
                &&& all_empty(funcs) && all_empty(files) ==> r is Ok
                &&& r matches Ok(e) ==> {
                    &&& e.spec_policy().function_patterns() == funcs
                    &&& e.spec_policy().file_patterns() == files
                    &&& e.spec_policy().spec_anything_allowed() == (funcs.len() == 0 && files.len() == 0)
                    &&& e.spec_enabled_operators() == effective_operator_patterns(
                        config.spec_operators().spec_enabled_operators(),
                    )
                }
            }),
    {
        let mutation_policy = match MutationPolicy::from_config(config) {
            Ok(p) => p,
            Err(e) => {
                return Err(e);
            },
        };
        Ok(MutationEngine { mutation_policy, enabled_operators: config.operators().enabled_operators() })
    }

    /// Discover all mutation candidates in a module: for every instruction
    /// with an offset whose source location (`places`, by body and
    /// instruction) the policy allows, the replacements that the enabled
    /// operators make, numbered from 1 in order.
    pub fn discover_mutation_positions(&self, module: &WasmModule, places: &Vec<Vec<CodeLocation>>) -> (r: Result<
        Vec<MutationLocation>,
        DiscoveryError,
    >)
        requires
            section_len(module.imports) + section_len(module.functions) <= u32::MAX,
            offsets_in_code_section(module@),
            module.code matches Some(bs) ==> places_cover(places_view(places@), code_view(bs@)),
        ensures
            !regex_set_compiles(self.spec_enabled_operators()) ==> r is Err,
            all_empty(self.spec_enabled_operators()) ==> regex_set_compiles(self.spec_enabled_operators()),
            r matches Err(e) ==> (e is Registry <==> !regex_set_compiles(self.spec_enabled_operators())),
            regex_set_compiles(self.spec_enabled_operators()) ==> {
                &&& module.types is None ==> (r matches Err(e) && e == DiscoveryError::Module(
                    ModuleError::NoTypeSection,
                ))
                &&& module.types is Some && module.code is None ==> (r matches Err(e) && e
                    == DiscoveryError::Module(ModuleError::NoCodeSection))
                &&& module.types is Some && module.code is Some ==> r is Ok
            },
            r matches Ok(locs) ==> {
                &&& ids_sequential(locs@)
                &&& forall|cs: Seq<CallRemovalCandidate>|
                    #[trigger] candidate_views(cs) == expected_candidates(*module) ==> location_shapes(locs@)
                        == module_locations(
                        self.spec_policy(),
                        select_operators(registration_order(), self.spec_enabled_operators(), true),
                        cs,
                        module@.code.unwrap(),
                        module.code_section_offset,
                        places_view(places@),
                        module@.code.unwrap().len() as int,
                    )
            },
    {
        let registry = match OperatorRegistry::new(&self.enabled_operators) {
            Ok(r) => r,
            Err(e) => {
                return Err(DiscoveryError::Registry(e));
            },
        };
        let candidates = match module.call_removal_candidates() {
            Ok(c) => c,
            Err(e) => {
                return Err(DiscoveryError::Module(e));
            },
        };
        let context = InstructionContext::new(candidates);
        let ghost cs = context@;
        let ghost kinds = registry.spec_operators();
        let bodies = match &module.code {
            Some(b) => b,
            None => {
                return Err(DiscoveryError::Module(ModuleError::NoCodeSection));
            },
        };
        let ghost code = code_view(bodies@);
        let ghost pl = places@.map_values(|p: Vec<CodeLocation>| p@);
        let base = module.code_section_offset;
        let mut result: Vec<MutationLocation> = Vec::new();
        let mut counter: u64 = 1;
        let mut f: usize = 0;
        while f < bodies.len()
            invariant
                f <= bodies@.len(),
                code == code_view(bodies@),
                module@.code == Some(code),
                base == module.code_section_offset,
                offsets_in_code_section(module@),
                places_cover(pl, code),
                pl == places@.map_values(|p: Vec<CodeLocation>| p@),
                kinds == registry.spec_operators(),
                cs == context@,
                result@.map_values(|l: MutationLocation| location_shape(l)) == module_locations(
                    self.spec_policy(),
                    kinds,
                    cs,
                    code,
                    base,
                    pl,
                    f as int,
                ),
                ids_sequential(result@),
                counter == counter_value(mutations_before(result@, result@.len() as int) as nat),
            decreases bodies.len() - f,
        {
            let body = &bodies[f];
            let n = if body.instructions.len() < body.offsets.len() {
                body.instructions.len()
            } else {
                body.offsets.len()
            };
            proof {
                assert(code[f as int] == (body.instructions@, body.offsets@));
                assert(pl[f as int] == places@[f as int]@);
                assert(places_cover(pl, code));
                assert(pl[f as int].len() >= min_int(code[f as int].0.len() as int, code[f as int].1.len() as int));
                assert forall|j: int| 0 <= j < body.offsets@.len() implies #[trigger] body.offsets@[j] >= base by {
                    assert(code[f as int].1[j] == body.offsets@[j]);
                    assert(module@.code.unwrap()[f as int].1[j] >= module@.code_section_offset);
                }
                assert(body_locations(self.spec_policy(), kinds, cs, f as int, code[f as int], base, pl[f as int], 0)
                    =~= Seq::empty());
                assert(module_locations(self.spec_policy(), kinds, cs, code, base, pl, f as int)
                    + Seq::empty() =~= module_locations(self.spec_policy(), kinds, cs, code, base, pl, f as int));
            }
            let mut i: usize = 0;
            while i < n
                invariant
                    f < bodies@.len(),
                    *body == bodies@[f as int],
                    code == code_view(bodies@),
                    code[f as int] == (body.instructions@, body.offsets@),
                    n as int == min_int(body.instructions@.len() as int, body.offsets@.len() as int),
                    i <= n,
                    base == module.code_section_offset,
                    forall|j: int| 0 <= j < body.offsets@.len() ==> #[trigger] body.offsets@[j] >= base,
                    f < places@.len(),
                    places@[f as int]@.len() >= n,
                    pl[f as int] == places@[f as int]@,
                    kinds == registry.spec_operators(),
                    cs == context@,
                    result@.map_values(|l: MutationLocation| location_shape(l)) == module_locations(
                        self.spec_policy(),
                        kinds,
                        cs,
                        code,
                        base,
                        pl,
                        f as int,
                    ) + body_locations(self.spec_policy(), kinds, cs, f as int, code[f as int], base, pl[f as int], i as int),
                    ids_sequential(result@),
                    counter == counter_value(mutations_before(result@, result@.len() as int) as nat),
                decreases n - i,
            {
                let place = &places[f][i];
                let file = match &place.file {
                    Some(s) => Some(s.as_str()),
                    None => None,
                };
                let function = match &place.function {
                    Some(s) => Some(s.as_str()),
                    None => None,
                };
                let allowed = self.mutation_policy.check(file, function);
                let ghost prev = result@;
                let ghost prev_shapes = result@.map_values(|l: MutationLocation| location_shape(l));
                let ghost before_count = mutations_before(prev, prev.len() as int);
                proof {
                    assert(pl[f as int][i as int] == *place);
                }
                if allowed {
                    let operators = registry.mutants_for_instruction(&body.instructions[i], &context);
                    if operators.len() > 0 {
                        let mut mutations: Vec<Mutation> = Vec::new();
                        let mut j: usize = 0;
                        while j < operators.len()
                            invariant
                                j <= operators@.len(),
                                mutations@.len() == j,
                                forall|q: int| 0 <= q < j ==> replacement_view((#[trigger] mutations@[q]).operator)
                                    == replacement_view(operators@[q]),
                                forall|q: int| 0 <= q < j ==> (#[trigger] mutations@[q]).id == counter_value(
                                    (before_count + q) as nat,
                                ) as i64,
                                counter == counter_value((before_count + j) as nat),
                                before_count >= 0,
                            decreases operators.len() - j,
                        {
                            let id = counter as i64;
                            mutations.push(Mutation { id, operator: operators[j].duplicate() });
                            counter = counter.wrapping_add(1);
                            j = j + 1;
                        }
                        let location = MutationLocation {
                            function_number: f as u64,
                            statement_number: i as u64,
                            offset: body.offsets[i] - base,
                            mutations,
                        };
                        result.push(location);
                        proof {
                            assert(location.mutations@.map_values(|m: Mutation| replacement_view(m.operator))
                                =~= operators@.map_values(|x: InstructionReplacement| replacement_view(x)));
                            assert(result@.map_values(|l: MutationLocation| location_shape(l)) =~= prev_shapes.push(
                                location_shape(location),
                            ));
                            assert forall|k: int| 0 <= k <= prev.len() implies mutations_before(result@, k)
                                == mutations_before(prev, k) by {
                                lemma_mutations_before_prefix(prev, location, k);
                            }
                            assert(mutations_before(result@, result@.len() as int) == before_count + j);
                            assert forall|k: int, q: int|
                                0 <= k < result@.len() && 0 <= q < result@[k].mutations@.len() implies (
                                #[trigger] result@[k].mutations@[q]).id == counter_value(
                                (mutations_before(result@, k) + q) as nat,
                            ) as i64 by {
                                assert(mutations_before(result@, k) == mutations_before(prev, k));
                                if k < prev.len() {
                                    assert(result@[k] == prev[k]);
                                    assert(prev[k].mutations@[q].id == counter_value(
                                        (mutations_before(prev, k) + q) as nat,
                                    ) as i64);
                                } else {
                                    assert(result@[k] == location);
                                    assert(location.mutations@[q].id == counter_value((before_count + q) as nat) as i64);
                                }
                            }
                        }
                    }
                }
                proof {
                    assert(body_locations(self.spec_policy(), kinds, cs, f as int, code[f as int], base, pl[f as int], i + 1)
                        == body_locations(self.spec_policy(), kinds, cs, f as int, code[f as int], base, pl[f as int], i as int)
                        + (if result@.len() > prev.len() {
                        seq![location_shape(result@.last())]
                    } else {
                        Seq::empty()
                    }));
                }
                i = i + 1;
            }
            proof {
                assert(module_locations(self.spec_policy(), kinds, cs, code, base, pl, f + 1) == module_locations(
                    self.spec_policy(),
                    kinds,
                    cs,
                    code,
                    base,
                    pl,
                    f as int,
                ) + body_locations(self.spec_policy(), kinds, cs, f as int, code[f as int], base, pl[f as int], n as int));
            }
            f = f + 1;
        }
        proof {
            assert(location_shapes(result@) == result@.map_values(|l: MutationLocation| location_shape(l)));
            assert(places_view(places@) == pl);
            assert forall|cs2: Seq<CallRemovalCandidate>|
                #[trigger] candidate_views(cs2) == expected_candidates(*module) implies location_shapes(result@)
                == module_locations(
                self.spec_policy(),
                select_operators(registration_order(), self.spec_enabled_operators(), true),
                cs2,
                module@.code.unwrap(),
                module.code_section_offset,
                places_view(places@),
                module@.code.unwrap().len() as int,
            ) by {
                lemma_module_locations_same_candidates(
                    self.spec_policy(),
                    kinds,
                    cs,
                    cs2,
                    code,
                    base,
                    pl,
                    code.len() as int,
                );
            }
        }
        Ok(result)
    }
}

/// The number of mutations over all locations.
pub fn count_mutants(locations: &[MutationLocation]) -> (r: i32)
    requires
        mutations_before(locations@, locations@.len() as int) <= i32::MAX,
    ensures
        r == mutations_before(locations@, locations@.len() as int),
{
    let mut total: i32 = 0;
    let mut k: usize = 0;
    while k < locations.len()
        invariant
            k <= locations@.len(),
            total == mutations_before(locations@, k as int),
            mutations_before(locations@, locations@.len() as int) <= i32::MAX,
        decreases locations.len() - k,
    {
        proof {
            lemma_mutations_before_grows(locations@, k + 1, locations@.len() as int);
            assert(mutations_before(locations@, k + 1) == mutations_before(locations@, k as int)
                + locations@[k as int].mutations@.len());
        }
        let len = locations[k].mutations.len();
        total = total + len as i32;
        k = k + 1;
    }
    total
}

/// Counting the mutations of more locations gives at least as many.
proof fn lemma_mutations_before_grows(locs: Seq<MutationLocation>, a: int, b: int)
    requires
        0 <= a <= b <= locs.len(),
    ensures
        mutations_before(locs, a) <= mutations_before(locs, b),
    decreases b - a,
{
    if a < b {
        lemma_mutations_before_grows(locs, a, b - 1);
    }
}

} // verus!
