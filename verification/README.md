# toy_lang

A verified library for a small two-stage language: a `source` stage with
structured control flow and lexical lambdas, and a `lowered` stage with
unstructured control flow and lifted functions. It holds the value domains
the interpreters compute over, the resolution of calls within and across
stages, the stepping of the concrete interpreters, the bookkeeping of
interprocedural abstract interpretation, and backward liveness.

Everything under `src/` is written in Verus and proved against its
contracts:

- `domains.rs`: the type lattice `ToyType` and the constant-propagation
  lattice `ConstProp`, with the abstract transfer function of every
  arithmetic, comparison, bitwise and shift operation.
- `laws.rs`: both domains are lattices; the transfer functions are sound
  with respect to concrete `i64` arithmetic and monotone; branch and loop
  decisions are sound.
- `values.rs`: the value interfaces `ToyVal` and `AbstractToyVal`.
- `pipeline.rs`, `dispatch.rs`: stages, staged functions, specializations,
  symbol tables; resolution of a call to a body at the caller's stage or
  at the other one.
- `machine.rs`: the cursor and frame stacks of the concrete interpreters.
- `fixpoint.rs`: function summaries, worklists and the call graph of the
  abstract interpreter.
- `liveness.rs`: live-variable sets, block transfer and free variables.
- `assoc.rs`: a small association map used by the above.
- `cursors.rs`, `profile.rs`, `error.rs`: cursor kinds, interpreter
  profiles and error types.

`tests/` checks each operation on concrete values, and rebuilds a few
analyses (sign and type propagation, block liveness) on hand-built IR
models: there the block-level fixpoint is a small loop in the test itself,
and the library supplies the transfer functions it iterates.
