# wasm-verification-component

A registry of WebAssembly attestation-verifier components and the decisions
around running them, verified with Verus.

- `src/` is the verified library:
  - `component_id`: component ids (`component-` and the lower-case hex of the
    SHA-256 digest of the component's bytes);
  - `config`: registry configuration, run options and their defaults;
  - `engine`: the wasmtime engine that compiles components;
  - `registry`: the component registry; registration is a step function
    driven by the caller, which performs the signature check and the creation
    of cache directories it asks for;
  - `json`, `evidence`: attaching a PCCS URL to evidence and reading a
    component's answer;
  - `driver`: the registry owner and the preparation of an evaluation;
  - `laws`: properties of registration proved over the contracts.
- `app/` holds what is not verified: the command-line tool, file and process
  I/O, the process-wide registry, and running components under WASI.
- `tests/` exercises the library on concrete values.
