//! Verified core of the Membrain memory system: memory classification,
//! configuration rules, default scope metadata, the text memories are
//! embedded by, identifiers and embeddings and their byte encodings, audit
//! trail and metrics bookkeeping, search queries, the retry policy and reply
//! decoding of the model-backed services, the default decay schedule, and the
//! bounds checks applied at the C boundary.

pub mod memory_type;
pub mod text;
pub mod ids;
pub mod error;
pub mod config;
pub mod entries;
pub mod scope;
pub mod embedding_config;
pub mod semantic;
pub mod clock;
pub mod episodic;
pub mod procedural;
pub mod agent_state;
pub mod decode;
pub mod conflict;
pub mod audit;
pub mod distillation;
pub mod ffi;
pub mod metrics;
pub mod search;
pub mod decay;
pub mod retry;
pub mod embedding;
pub mod setup;
pub mod provenance;
pub mod memory;
