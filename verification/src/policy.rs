//! Which functions and files may be mutated.
use vstd::prelude::*;

use crate::config::Config;
use crate::patterns::{
    all_empty, any_pattern_matches, regex_set_compiles, regex_set_empty, regex_set_is_match, regex_set_new,
    regex_set_patterns, strings_view,
};
use regex::RegexSet;

verus! {

/// Policy used when executing a WebAssembly module
pub enum ExecutionPolicy {
    /// Run the function until the execution limit is reached
    RunUntilLimit {
        /// The maximum number of instructions to execute
        limit: u64,
    },
    /// Run the function until the function returns
    RunUntilReturn,
}

/// Builder used to construct a `MutationPolicy`
pub struct MutationPolicyBuilder {
    /// List of regular expressions used to determine which functions are allowed
    /// to be mutated
    allowed_functions: Vec<String>,
    /// List of regular expressions used to determine which files are allowed
    /// to be mutated
    allowed_files: Vec<String>,
    /// If set, there are no restrictions
    anything_allowed: bool,
}

/// Why a policy could not be built.
pub enum PolicyError {
    /// The function patterns were rejected.
    InvalidFunctionPattern(regex::Error),
    /// The file patterns were rejected.
    InvalidFilePattern(regex::Error),
}

/// Policy used when discovering mutant candidates
pub struct MutationPolicy {
    allowed_functions: RegexSet,
    allowed_files: RegexSet,
    anything_allowed: bool,
}

impl MutationPolicyBuilder {
    pub closed spec fn function_patterns(&self) -> Seq<Seq<char>> {
        strings_view(self.allowed_functions@)
    }

    pub closed spec fn file_patterns(&self) -> Seq<Seq<char>> {
        strings_view(self.allowed_files@)
    }

    pub closed spec fn spec_anything_allowed(&self) -> bool {
        self.anything_allowed
    }

    /// Add a function regex
    pub fn allow_function(self, name: &str) -> (r: Self)
        ensures
            r.function_patterns() == self.function_patterns().push(name@),
            r.file_patterns() == self.file_patterns(),
            !r.spec_anything_allowed(),
    {
        let mut s = self;
        s.allowed_functions.push(String::from_str(name));
        proof {
            assert(strings_view(s.allowed_functions@) =~= strings_view(self.allowed_functions@).push(name@));
        }
        MutationPolicyBuilder { anything_allowed: false, ..s }
    }

    /// Add a file regex
    pub fn allow_file(self, name: &str) -> (r: Self)
        ensures
            r.file_patterns() == self.file_patterns().push(name@),
            r.function_patterns() == self.function_patterns(),
            !r.spec_anything_allowed(),
    {
        let mut s = self;
        s.allowed_files.push(String::from_str(name));
        proof {
            assert(strings_view(s.allowed_files@) =~= strings_view(self.allowed_files@).push(name@));
        }
        MutationPolicyBuilder { anything_allowed: false, ..s }
    }

    /// Build the final `MutationPolicy`
    pub fn build(self) -> (r: Result<MutationPolicy, PolicyError>)
        ensures
            r is Ok <==> regex_set_compiles(self.function_patterns()) && regex_set_compiles(
                self.file_patterns(),
            ),
            all_empty(self.function_patterns()) && all_empty(self.file_patterns()) ==> r is Ok,
            r matches Err(PolicyError::InvalidFunctionPattern(_)) ==> !regex_set_compiles(
                self.function_patterns(),
            ),
            r matches Err(PolicyError::InvalidFilePattern(_)) ==> regex_set_compiles(
                self.function_patterns(),
            ) && !regex_set_compiles(self.file_patterns()),
            r matches Ok(p) ==> {
                &&& p.function_patterns() == self.function_patterns()
                &&& p.file_patterns() == self.file_patterns()
                &&& p.spec_anything_allowed() == self.spec_anything_allowed()
            },
    {
        let allowed_functions = match regex_set_new(&self.allowed_functions) {
            Ok(s) => s,
            Err(e) => return Err(PolicyError::InvalidFunctionPattern(e)),
        };
        let allowed_files = match regex_set_new(&self.allowed_files) {
            Ok(s) => s,
            Err(e) => return Err(PolicyError::InvalidFilePattern(e)),
        };
        Ok(MutationPolicy { allowed_functions, allowed_files, anything_allowed: self.anything_allowed })
    }
}

impl Default for MutationPolicyBuilder {
    /// Default mutation policy, allow everything.
    fn default() -> (r: Self)
        ensures
            r.function_patterns() == Seq::<Seq<char>>::empty(),
            r.file_patterns() == Seq::<Seq<char>>::empty(),
            r.spec_anything_allowed(),
    {
        let r = MutationPolicyBuilder {
            allowed_functions: Vec::new(),
            allowed_files: Vec::new(),
            anything_allowed: true,
        };
        assert(strings_view(r.allowed_functions@) =~= Seq::<Seq<char>>::empty());
        assert(strings_view(r.allowed_files@) =~= Seq::<Seq<char>>::empty());
        r
    }
}

/// The patterns that a configuration's filter section allows, in the order
/// in which they are added to the builder.
pub open spec fn configured_patterns(list: Option<Vec<String>>) -> Seq<Seq<char>> {
    match list {
        Some(v) => strings_view(v@),
        None => Seq::empty(),
    }
}

/// Add every pattern of the list to the builder as a file pattern
/// (`files` set) or as a function pattern.
fn allow_all(builder: MutationPolicyBuilder, list: &Vec<String>, files: bool) -> (r: MutationPolicyBuilder)
    ensures
        files ==> r.file_patterns() == builder.file_patterns() + strings_view(list@),
        files ==> r.function_patterns() == builder.function_patterns(),
        !files ==> r.function_patterns() == builder.function_patterns() + strings_view(list@),
        !files ==> r.file_patterns() == builder.file_patterns(),
        r.spec_anything_allowed() == (builder.spec_anything_allowed() && list@.len() == 0),
{
    let mut b = builder;
    let mut i: usize = 0;
    while i < list.len()
        invariant
            i <= list@.len(),
            files ==> b.file_patterns() == builder.file_patterns() + strings_view(list@.subrange(0, i as int)),
            files ==> b.function_patterns() == builder.function_patterns(),
            !files ==> b.function_patterns() == builder.function_patterns() + strings_view(
                list@.subrange(0, i as int),
            ),
            !files ==> b.file_patterns() == builder.file_patterns(),
            b.spec_anything_allowed() == (builder.spec_anything_allowed() && i == 0),
        decreases list.len() - i,
    {
        if files {
            b = b.allow_file(list[i].as_str());
        } else {
            b = b.allow_function(list[i].as_str());
        }
        proof {
            assert(strings_view(list@.subrange(0, i + 1)) =~= strings_view(list@.subrange(0, i as int)).push(list@[i as int]@));
        }
        i = i + 1;
    }
    proof {
        assert(list@.subrange(0, i as int) =~= list@);
    }
    b
}

impl MutationPolicy {
    pub closed spec fn function_patterns(&self) -> Seq<Seq<char>> {
        regex_set_patterns(self.allowed_functions)
    }

    pub closed spec fn file_patterns(&self) -> Seq<Seq<char>> {
        regex_set_patterns(self.allowed_files)
    }

    pub closed spec fn spec_anything_allowed(&self) -> bool {
        self.anything_allowed
    }

    /// Whether a function may be mutated.
    pub open spec fn function_allowed(&self, name: Seq<char>) -> bool {
        self.spec_anything_allowed() || any_pattern_matches(self.function_patterns(), name)
    }

    /// Whether a file may be mutated.
    pub open spec fn file_allowed(&self, name: Seq<char>) -> bool {
        self.spec_anything_allowed() || any_pattern_matches(self.file_patterns(), name)
    }

    /// Whether code that lies in `file` and `function` (either may be unknown)
    /// may be mutated: everything without a filter, else code whose file or
    /// function matches one of the patterns.
    pub open spec fn location_allowed(&self, file: Option<Seq<char>>, func: Option<Seq<char>>) -> bool {
        ||| self.spec_anything_allowed()
        ||| (file matches Some(f) && self.file_allowed(f))
        ||| (func matches Some(g) && self.function_allowed(g))
    }

    /// Construct a mutation policy from `Config`: the filter section's file
    /// and function patterns; without any of them, everything is allowed.
    pub fn from_config(config: &Config) -> (r: Result<Self, PolicyError>)
        ensures
            ({
                let files = configured_patterns(config.spec_filter().spec_allowed_files());
                let funcs = configured_patterns(config.spec_filter().spec_allowed_functions());
                &&& r is Ok <==> regex_set_compiles(funcs) && regex_set_compiles(files)
                &&& all_empty(funcs) && all_empty(files) ==> r is Ok
                &&& r matches Ok(p) ==> {
                    &&& p.function_patterns() == funcs
                    &&& p.file_patterns() == files
                    &&& p.spec_anything_allowed() == (funcs.len() == 0 && files.len() == 0)
                }
            }),
    {
        let mut builder = MutationPolicyBuilder::default();
        if let Some(files) = config.filter().allowed_files() {
            builder = allow_all(builder, files, true);
        }
        proof {
            assert(builder.file_patterns() =~= configured_patterns(config.spec_filter().spec_allowed_files()));
        }
        if let Some(functions) = config.filter().allowed_functions() {
            builder = allow_all(builder, functions, false);
        }
        proof {
            assert(builder.function_patterns() =~= configured_patterns(config.spec_filter().spec_allowed_functions()));
        }
        builder.build()
    }

    /// Check if a function is allowed to be mutated
    pub fn check_function(&self, name: &str) -> (r: bool)
        ensures
            r == self.function_allowed(name@),
            self.function_patterns().contains(Seq::<char>::empty()) ==> r,
    {
        self.anything_allowed || regex_set_is_match(&self.allowed_functions, name)
    }

    /// Check if a file is allowed to be mutated
    pub fn check_file(&self, name: &str) -> (r: bool)
        ensures
            r == self.file_allowed(name@),
            self.file_patterns().contains(Seq::<char>::empty()) ==> r,
    {
        self.anything_allowed || regex_set_is_match(&self.allowed_files, name)
    }

    /// Check if a function/file is allowed
    pub fn check(&self, file: Option<&str>, func: Option<&str>) -> (r: bool)
        ensures
            r == self.location_allowed(
                match file {
                    Some(f) => Some(f@),
                    None => None,
                },
                match func {
                    Some(g) => Some(g@),
                    None => None,
                },
            ),
    {
        if self.anything_allowed {
            return true;
        }
        let file_allowed = match file {
            Some(f) => self.check_file(f),
            None => false,
        };
        let func_allowed = match func {
            Some(g) => self.check_function(g),
            None => false,
        };
        file_allowed || func_allowed
    }
}

/// Without a filter every instruction may be mutated, also one whose file
/// and function are unknown.
pub proof fn lemma_unrestricted_policy(policy: MutationPolicy, file: Option<Seq<char>>, func: Option<Seq<char>>)
    requires
        policy.spec_anything_allowed(),
    ensures
        policy.location_allowed(file, func),
{
}

impl Default for MutationPolicy {
    /// Create default `MutationPolicy`, where everything is allowed
    fn default() -> (r: Self)
        ensures
            r.spec_anything_allowed(),
            r.function_patterns() == Seq::<Seq<char>>::empty(),
            r.file_patterns() == Seq::<Seq<char>>::empty(),
    {
        MutationPolicy {
            allowed_functions: regex_set_empty(),
            allowed_files: regex_set_empty(),
            anything_allowed: true,
        }
    }
}

} // verus!
