# wasmut

A mutation testing tool for WebAssembly WASI modules, with its logic
verified by Verus.

- `src/` is the verified library: a model of the module sections that
  mutation reads and rewrites (`wasmmodule`), the mutation operators and their
  registry (`operator`), mutant discovery (`mutation`), the filter policy
  (`policy`), coverage instrumentation and meta mutants (`wasmmodule::rewrite`,
  `wasmmodule::mutate`), the decisions of the executor and the runtime
  (`executor`, `runtime`), the configuration and command line decisions
  (`config`, `cliarguments`), and what the reports compute (`reporter`).
  Calls into the `regex`, `md5`, `object`, `gimli` and `addr2line` crates and
  into `std::path` go through the trusted items of `patterns.rs`,
  `reporter/html.rs` and `addressresolver.rs`.
- `app/` is the program around it: decoding and encoding modules with
  `wasmut-wasm`, reading module files, running modules
  with `wasmer`, parallel execution with `rayon`, reading the configuration
  file, the console and HTML reports, and `main`.
- `tests/` exercises the library on concrete values.
