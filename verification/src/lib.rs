pub mod instruction;
pub mod operator;
pub mod wasmmodule;
pub mod mutation;
pub mod patterns;
pub mod config;
pub mod policy;
pub mod addressresolver;
pub mod runtime;
pub mod executor;
pub mod reporter;
pub mod output;
pub mod cliarguments;
