# rslang

`rslang` lowers the AST JSON that the [slang](https://github.com/MikePopoloski/slang)
SystemVerilog frontend prints (`slang --ast-json`) into small Rust data
structures for later analysis passes. The lowering is written in Verus: its
functions carry contracts over a mathematical model of the JSON document and
of the lowered values, and Verus proves them. Reading JSON text is
`serde_json`'s work, behind two trusted functions in `src/json.rs`; what the
library does with the outcome (retrying from the first `{`, lowering) is
verified.

## Layout

- `src/json.rs`: `JsonValue`, the model of a JSON document, the field
  readers that the lowering uses, and reading slang's output as JSON.
- `src/text.rs`: trimming, splitting on whitespace, searching and integer
  parsing on `str`, each proved against a spec of what `std` does.
- `src/ir.rs`, `src/lower.rs`: the compact IR (types kept as slang's type
  text) and its lowering.
- `src/ast/`: the typed AST, where types are lowered into `DataType`, with
  concatenations and module type declarations.
- `src/slang.rs`: the `slang` command line and the report of a failed run.
- `src/error.rs`: lowering errors and their messages.
- `src/laws.rs`, `src/ast/laws.rs`: properties of the lowering as a whole
  (unknown nodes are kept, spans survive, traversal order, round trips of
  symbol references and type ranges).
- `src/copy.rs`, `src/ast/copy.rs`: `Clone` for the recursive types, proved
  to keep the model.
- `app/`: running the `slang` executable, the raw `serde_json` value of its
  output, `std::error::Error` for the error type, and `serde` copies of the
  IR types.
