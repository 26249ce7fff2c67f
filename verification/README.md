# ordofp_core

Functional programming building blocks with machine-checked contracts.

- `src/` is the library, verified with Verus: multiplicities and linear
  resources (`quantitative`), refinement types (`refined`), heterogeneous
  lists and extensible records (`hlist`, `labelled`, `indices`, `rows`),
  recursion-scheme base functors (`recursion`), trampolined recursion
  (`tailrec`), specialization markers and layout queries
  (`specialization`), supervision trees (`supervision`), trace contexts,
  events and collectors (`tracing`), and monad transformers over `Option`,
  `Result`, `Vec` and writer logs (`transformers`). Public functions state
  their results in `ensures`, save where a result cannot be pinned (the
  supervision tree's shared stop flag, and outcomes that rest on a
  user's closure or on `Clone`); type invariants state what every value
  of a type keeps (a refined value satisfies its predicate); the `law_*`
  proof functions state what holds across calls.
- `app/` is ordinary Rust around the library: identifier counters, locked
  and shared collectors, floating-point glue, `dyn Any` variants, `dyn Fn`
  continuations, asynchronous transformers, compiler hints and serde
  support.
- `tests/` exercises the library from the outside.
