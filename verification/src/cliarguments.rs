//! The commands of the command line, and where their configuration comes
//! from.
use vstd::prelude::*;

verus! {

/// The command line: one command.
pub struct CLIArguments {
    pub command: CLICommand,
}

/// Report output format
#[derive(Clone, Copy, Debug, PartialEq, Eq, Structural)]
pub enum Output {
    Console,
    Html,
}

/// The commands.
pub enum CLICommand {
    /// List all functions of the binary, and whether each may be mutated.
    ListFunctions { config: Option<String>, config_samedir: bool, wasmfile: String },
    /// List all source files of the binary, and whether each may be mutated.
    ListFiles { config: Option<String>, config_samedir: bool, wasmfile: String },
    /// Generate and run mutants, then report on them.
    Mutate {
        config: Option<String>,
        config_samedir: bool,
        threads: Option<usize>,
        report: Output,
        output: String,
        wasmfile: String,
    },
    /// Create a new configuration file.
    NewConfig { path: Option<String> },
    /// Run the module without any mutations.
    Run { config: Option<String>, config_samedir: bool, wasmfile: String },
    /// List all mutation operators, and whether each is enabled.
    ListOperators { config: Option<String>, config_samedir: bool, wasmfile: Option<String> },
}

/// What a command asks of the configuration: an explicit file, the module
/// it works on, and whether to look next to the module.
pub struct ConfigRequest {
    pub config: Option<String>,
    pub module: Option<String>,
    pub config_samedir: bool,
}

/// An optional string as an optional character sequence.
pub open spec fn opt_chars(s: Option<String>) -> Option<Seq<char>> {
    match s {
        Some(x) => Some(x@),
        None => None,
    }
}

fn copy_opt(s: &Option<String>) -> (r: Option<String>)
    ensures
        opt_chars(r) == opt_chars(*s),
{
    match s {
        Some(x) => Some(x.clone()),
        None => None,
    }
}

impl CLICommand {
    /// The configuration that the command loads: every command but
    /// `new-config` loads one, for the module it names.
    pub fn config_request(&self) -> (r: Option<ConfigRequest>)
        ensures
            match self {
                CLICommand::NewConfig { .. } => r is None,
                CLICommand::ListFunctions { config, config_samedir, wasmfile }
                | CLICommand::ListFiles { config, config_samedir, wasmfile }
                | CLICommand::Run { config, config_samedir, wasmfile }
                | CLICommand::Mutate { config, config_samedir, wasmfile, .. } => {
                    &&& r is Some
                    &&& opt_chars(r->0.config) == opt_chars(*config)
                    &&& opt_chars(r->0.module) == Some(wasmfile@)
                    &&& r->0.config_samedir == *config_samedir
                },
                CLICommand::ListOperators { config, config_samedir, wasmfile } => {
                    &&& r is Some
                    &&& opt_chars(r->0.config) == opt_chars(*config)
                    &&& opt_chars(r->0.module) == opt_chars(*wasmfile)
                    &&& r->0.config_samedir == *config_samedir
                },
            },
    {
        match self {
            CLICommand::NewConfig { .. } => None,
            CLICommand::ListFunctions { config, config_samedir, wasmfile }
            | CLICommand::ListFiles { config, config_samedir, wasmfile }
            | CLICommand::Run { config, config_samedir, wasmfile }
            | CLICommand::Mutate { config, config_samedir, wasmfile, .. } => Some(
                ConfigRequest {
                    config: copy_opt(config),
                    module: Some(wasmfile.clone()),
                    config_samedir: *config_samedir,
                },
            ),
            CLICommand::ListOperators { config, config_samedir, wasmfile } => Some(
                ConfigRequest { config: copy_opt(config), module: copy_opt(wasmfile), config_samedir: *config_samedir },
            ),
        }
    }
}

/// Where the configuration comes from.
#[derive(Debug)]
pub enum ConfigSource {
    /// The file the user named.
    File(String),
    /// `wasmut.toml` in the directory of this module.
    ModuleDirectory(String),
    /// `wasmut.toml` in the current directory if it exists, else the
    /// defaults.
    CurrentDirectory,
}

/// Why the configuration options cannot be followed.
#[derive(Debug, Clone, Copy, PartialEq, Eq, Structural)]
pub enum ConfigSourceError {
    /// Both `--config` and `--config-same-dir` were given.
    ConflictingOptions,
    /// `--config-same-dir` was given without a module.
    SameDirWithoutModule,
}

/// Decide where the configuration comes from: an explicit file, the
/// module's directory, or the current directory; the two options together,
/// or `--config-same-dir` without a module, are errors.
pub fn config_source(config_path: Option<&str>, module: Option<&str>, config_samedir: bool) -> (r: Result<
    ConfigSource,
    ConfigSourceError,
>)
    ensures
        config_path is Some && config_samedir ==> r == Err::<ConfigSource, ConfigSourceError>(
            ConfigSourceError::ConflictingOptions,
        ),
        config_path is Some && !config_samedir ==> (r matches Ok(ConfigSource::File(f)) && f@ == config_path->0@),
        config_path is None && config_samedir ==> match module {
            Some(m) => (r matches Ok(ConfigSource::ModuleDirectory(d)) && d@ == m@),
            None => r == Err::<ConfigSource, ConfigSourceError>(ConfigSourceError::SameDirWithoutModule),
        },
        config_path is None && !config_samedir ==> r matches Ok(ConfigSource::CurrentDirectory),
{
    if config_path.is_some() && config_samedir {
        return Err(ConfigSourceError::ConflictingOptions);
    }
    match config_path {
        Some(p) => Ok(ConfigSource::File(String::from_str(p))),
        None => if config_samedir {
            match module {
                Some(m) => Ok(ConfigSource::ModuleDirectory(String::from_str(m))),
                None => Err(ConfigSourceError::SameDirWithoutModule),
            }
        } else {
            Ok(ConfigSource::CurrentDirectory)
        },
    }
}

/// The file a new configuration goes to: the given path, or `wasmut.toml`
/// in the current directory.
pub fn new_config_path(path: Option<String>) -> (r: String)
    ensures
        match path {
            Some(p) => r@ == p@,
            None => r@ == "wasmut.toml"@,
        },
{
    match path {
        Some(p) => p,
        None => String::from_str("wasmut.toml"),
    }
}

/// The number of workers: as asked, or one per CPU.
pub fn worker_count(threads: Option<usize>, cpus: usize) -> (r: usize)
    ensures
        r == match threads {
            Some(t) => t,
            None => cpus,
        },
{
    match threads {
        Some(t) => t,
        None => cpus,
    }
}

} // verus!
