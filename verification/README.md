# membrain

The core of the Membrain memory system for LLM agents, verified with Verus.

- `src/` is the verified library: memories (their shared fields, provenance, validity
  window and version, the content of each kind, its type and primary text),
  memory types and their categories,
  configuration records and their validation, default scope metadata, the
  text that memories are embedded by, identifiers and their encodings,
  embedding dimension checks and byte encoding, the audit log, metrics,
  search queries, the retry policy and reply decoding of the model-backed
  services (conflict resolution, fact extraction, embeddings), the default
  decay schedule, and the checks made at the C boundary.
- `app/` is ordinary Rust around it: TOML and environment configuration,
  error messages, locks for shared logs and metrics, HTTP clients, and the
  values that are floating point.
- `tests/` exercises the library from outside.

Two parts of the system are not in this crate, because the crates they are
built on are not among its dependencies: the C entry points over the
MemScaleDB vector indexes (HNSW, Vamana, sharded, flat and distributed
search, from `memscaledb`), and the client's construction of its storage
backend, graph and pipeline (from `membrain_storage`, `membrain_graph` and
`membrain_pipeline`). What the library keeps of them is the argument checks
made at the C boundary (`ffi`) and the client's choice of embedding provider
and of the endpoints of its model-backed services (`setup`).

Real numbers never enter `src/`: a confidence, score or gauge is held there
as the IEEE-754 bit pattern of its `f64`, an embedding component as that of
its `f32`, and the arithmetic on them is done in `app/`.
