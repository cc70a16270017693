# model-serving (Qwen3.5 contracts)

A verified library of the decisions behind native Qwen3.5 serving: input and
tensor contracts checked before MLX work is built, decoder-cache dtype flow,
quantization-config validation, memory-admission arithmetic, speculative-prefill
planning, and the optional multi-token-prediction (MTP) head's depth resolution,
verification decisions, commit planning and request bookkeeping.

Layout:

- `src/` — the library, verified with Verus. `model/` holds target-model
  contracts, `mtp/` the multi-token-prediction logic, `quantization.rs` the
  OptiQ config, `text.rs` character-level string helpers.
- `tests/` — executable tests of the library.
- `app/` — unverified glue: the serde form of the quantization document,
  structured logging of adaptive RAM growth decisions, and `Display` forms of
  the library's errors.

The library makes no MLX calls: the caller builds and runs the graphs, hands the
library plain values (shapes, dtypes, token IDs, byte counts) and acts on what it
returns.
