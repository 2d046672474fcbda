//! Error type of the memory system and the stable codes exposed to external
//! APIs.

use vstd::prelude::*;

use crate::ids::MemoryId;

verus! {

/// Main error type for Membrain.
#[derive(Debug, Clone, PartialEq, Eq)]
pub enum Error {
    /// Invalid confidence value (must be in [0.0, 1.0]); the rejected value is held as its IEEE-754 bit pattern
    InvalidConfidence(u64),
    /// Embedding dimension mismatch
    EmbeddingDimensionMismatch { expected: usize, actual: usize },
    /// Invalid embedding bytes
    InvalidEmbeddingBytes,
    /// Empty embedding list for aggregation
    EmptyEmbeddingList,
    /// Memory not found
    MemoryNotFound(MemoryId),
    /// Storage backend error
    Storage(String),
    /// Database connection error
    DatabaseConnection(String),
    /// Transaction failed
    TransactionFailed(String),
    /// Serialization error
    Serialization(String),
    /// Deserialization error
    Deserialization(String),
    /// Schema migration error
    SchemaMigration(String),
    /// Memory rejected by write policy
    Rejected { reason: String },
    /// Budget exceeded
    BudgetExceeded { memory_type: String, current: usize, max: usize },
    /// Duplicate memory detected
    Duplicate { existing_id: MemoryId },
    /// Write conflict (optimistic concurrency)
    WriteConflict(MemoryId),
    /// Query parsing error
    QueryParsing(String),
    /// Search failed
    SearchFailed(String),
    /// Index error
    IndexError(String),
    /// Embedding generation failed
    EmbeddingGeneration(String),
    /// Embedding provider not configured
    EmbeddingProviderNotConfigured,
    /// Rate limited
    RateLimited { retry_after_secs: u64 },
    /// Configuration error
    Configuration(String),
    /// Invalid configuration value
    InvalidConfigValue { key: String, message: String },
    /// Missing required configuration
    MissingConfig(String),
    /// Insufficient trust level
    InsufficientTrust { required: String, actual: String },
    /// Agent not found
    AgentNotFound(String),
    /// Memory visibility error
    VisibilityError { memory_id: MemoryId, visibility: String },
    /// Job scheduling error
    JobScheduling(String),
    /// Job execution error
    JobExecution { job_name: String, message: String },
    /// Job already running
    JobAlreadyRunning(String),
    /// Consolidation failed
    ConsolidationFailed(String),
    /// Decay calculation error
    DecayError(String),
    /// Audit log error
    AuditLog(String),
    /// FFI conversion error
    FfiConversion(String),
    /// Graph layer error
    GraphError(String),
    /// Internal error
    Internal(String),
    /// IO error, with the message of the underlying error
    Io(String),
    /// Operation cancelled
    Cancelled,
    /// Timeout, in seconds
    Timeout(u64),
}

/// Result type alias for Membrain operations.
pub type Result<T> = std::result::Result<T, Error>;

/// The error code for external APIs.
pub open spec fn code_of(e: Error) -> Seq<char> {
    match e {
        Error::InvalidConfidence(_) => "INVALID_CONFIDENCE"@,
        Error::EmbeddingDimensionMismatch { .. } => "EMBEDDING_DIMENSION_MISMATCH"@,
        Error::InvalidEmbeddingBytes => "INVALID_EMBEDDING_BYTES"@,
        Error::EmptyEmbeddingList => "EMPTY_EMBEDDING_LIST"@,
        Error::MemoryNotFound(_) => "MEMORY_NOT_FOUND"@,
        Error::Storage(_) => "STORAGE_ERROR"@,
        Error::DatabaseConnection(_) => "DATABASE_CONNECTION_ERROR"@,
        Error::TransactionFailed(_) => "TRANSACTION_FAILED"@,
        Error::Serialization(_) => "SERIALIZATION_ERROR"@,
        Error::Deserialization(_) => "DESERIALIZATION_ERROR"@,
        Error::SchemaMigration(_) => "SCHEMA_MIGRATION_ERROR"@,
        Error::Rejected { .. } => "REJECTED"@,
        Error::BudgetExceeded { .. } => "BUDGET_EXCEEDED"@,
        Error::Duplicate { .. } => "DUPLICATE"@,
        Error::WriteConflict(_) => "WRITE_CONFLICT"@,
        Error::QueryParsing(_) => "QUERY_PARSING_ERROR"@,
        Error::SearchFailed(_) => "SEARCH_FAILED"@,
        Error::IndexError(_) => "INDEX_ERROR"@,
        Error::EmbeddingGeneration(_) => "EMBEDDING_GENERATION_ERROR"@,
        Error::EmbeddingProviderNotConfigured => "EMBEDDING_PROVIDER_NOT_CONFIGURED"@,
        Error::RateLimited { .. } => "RATE_LIMITED"@,
        Error::Configuration(_) => "CONFIGURATION_ERROR"@,
        Error::InvalidConfigValue { .. } => "INVALID_CONFIG_VALUE"@,
        Error::MissingConfig(_) => "MISSING_CONFIG"@,
        Error::InsufficientTrust { .. } => "INSUFFICIENT_TRUST"@,
        Error::AgentNotFound(_) => "AGENT_NOT_FOUND"@,
        Error::VisibilityError { .. } => "VISIBILITY_ERROR"@,
        Error::JobScheduling(_) => "JOB_SCHEDULING_ERROR"@,
        Error::JobExecution { .. } => "JOB_EXECUTION_ERROR"@,
        Error::JobAlreadyRunning(_) => "JOB_ALREADY_RUNNING"@,
        Error::ConsolidationFailed(_) => "CONSOLIDATION_FAILED"@,
        Error::DecayError(_) => "DECAY_ERROR"@,
        Error::AuditLog(_) => "AUDIT_LOG_ERROR"@,
        Error::FfiConversion(_) => "FFI_CONVERSION_ERROR"@,
        Error::GraphError(_) => "GRAPH_ERROR"@,
        Error::Internal(_) => "INTERNAL_ERROR"@,
        Error::Io(_) => "IO_ERROR"@,
        Error::Cancelled => "CANCELLED"@,
        Error::Timeout(_) => "TIMEOUT"@,
    }
}

/// The position of an error's variant in the declaration, from zero.
pub open spec fn variant_index(e: Error) -> int {
    match e {
        Error::InvalidConfidence(_) => 0,
        Error::EmbeddingDimensionMismatch { .. } => 1,
        Error::InvalidEmbeddingBytes => 2,
        Error::EmptyEmbeddingList => 3,
        Error::MemoryNotFound(_) => 4,
        Error::Storage(_) => 5,
        Error::DatabaseConnection(_) => 6,
        Error::TransactionFailed(_) => 7,
        Error::Serialization(_) => 8,
        Error::Deserialization(_) => 9,
        Error::SchemaMigration(_) => 10,
        Error::Rejected { .. } => 11,
        Error::BudgetExceeded { .. } => 12,
        Error::Duplicate { .. } => 13,
        Error::WriteConflict(_) => 14,
        Error::QueryParsing(_) => 15,
        Error::SearchFailed(_) => 16,
        Error::IndexError(_) => 17,
        Error::EmbeddingGeneration(_) => 18,
        Error::EmbeddingProviderNotConfigured => 19,
        Error::RateLimited { .. } => 20,
        Error::Configuration(_) => 21,
        Error::InvalidConfigValue { .. } => 22,
        Error::MissingConfig(_) => 23,
        Error::InsufficientTrust { .. } => 24,
        Error::AgentNotFound(_) => 25,
        Error::VisibilityError { .. } => 26,
        Error::JobScheduling(_) => 27,
        Error::JobExecution { .. } => 28,
        Error::JobAlreadyRunning(_) => 29,
        Error::ConsolidationFailed(_) => 30,
        Error::DecayError(_) => 31,
        Error::AuditLog(_) => 32,
        Error::FfiConversion(_) => 33,
        Error::GraphError(_) => 34,
        Error::Internal(_) => 35,
        Error::Io(_) => 36,
        Error::Cancelled => 37,
        Error::Timeout(_) => 38,
    }
}

/// A character an error code may hold: an upper-case letter or `_`.
pub open spec fn code_char(c: char) -> bool {
    ('A' <= c && c <= 'Z') || c == '_'
}

/// The length, first and last character of a code, which tell the codes
/// apart.
pub open spec fn code_key(s: Seq<char>) -> (int, char, char) {
    (s.len() as int, s[0], s[s.len() - 1])
}

/// The variant whose code has the given key, or -1.
pub open spec fn variant_of_key(k: (int, char, char)) -> int {
    if k == (18int, 'I', 'E') {
        0
    } else if k == (28int, 'E', 'H') {
        1
    } else if k == (23int, 'I', 'S') {
        2
    } else if k == (20int, 'E', 'T') {
        3
    } else if k == (16int, 'M', 'D') {
        4
    } else if k == (13int, 'S', 'R') {
        5
    } else if k == (25int, 'D', 'R') {
        6
    } else if k == (18int, 'T', 'D') {
        7
    } else if k == (19int, 'S', 'R') {
        8
    } else if k == (21int, 'D', 'R') {
        9
    } else if k == (22int, 'S', 'R') {
        10
    } else if k == (8int, 'R', 'D') {
        11
    } else if k == (15int, 'B', 'D') {
        12
    } else if k == (9int, 'D', 'E') {
        13
    } else if k == (14int, 'W', 'T') {
        14
    } else if k == (19int, 'Q', 'R') {
        15
    } else if k == (13int, 'S', 'D') {
        16
    } else if k == (11int, 'I', 'R') {
        17
    } else if k == (26int, 'E', 'R') {
        18
    } else if k == (33int, 'E', 'D') {
        19
    } else if k == (12int, 'R', 'D') {
        20
    } else if k == (19int, 'C', 'R') {
        21
    } else if k == (20int, 'I', 'E') {
        22
    } else if k == (14int, 'M', 'G') {
        23
    } else if k == (18int, 'I', 'T') {
        24
    } else if k == (15int, 'A', 'D') {
        25
    } else if k == (16int, 'V', 'R') {
        26
    } else if k == (20int, 'J', 'R') {
        27
    } else if k == (19int, 'J', 'R') {
        28
    } else if k == (19int, 'J', 'G') {
        29
    } else if k == (20int, 'C', 'D') {
        30
    } else if k == (11int, 'D', 'R') {
        31
    } else if k == (15int, 'A', 'R') {
        32
    } else if k == (20int, 'F', 'R') {
        33
    } else if k == (11int, 'G', 'R') {
        34
    } else if k == (14int, 'I', 'R') {
        35
    } else if k == (8int, 'I', 'R') {
        36
    } else if k == (9int, 'C', 'D') {
        37
    } else if k == (7int, 'T', 'T') {
        38
    } else {
        -1
    }
}

proof fn lemma_code_shape(e: Error)
    ensures
        variant_of_key(code_key(code_of(e))) == variant_index(e),
        code_of(e).len() > 0,
        forall|i: int| 0 <= i < code_of(e).len() ==> code_char(#[trigger] code_of(e)[i]),
{
    match e {
        Error::InvalidConfidence(_) => {
            reveal_strlit("INVALID_CONFIDENCE");
            let s = "INVALID_CONFIDENCE"@;
            assert(s.len() == 18 && s[0] == 'I' && s[17] == 'E');
            assert forall|i: int| 0 <= i < s.len() implies code_char(#[trigger] s[i]) by {
                assert(i == 0 || i == 1 || i == 2 || i == 3 || i == 4 || i == 5 || i == 6 || i == 7 || i == 8 || i == 9 || i == 10 || i == 11 || i == 12 || i == 13 || i == 14 || i == 15 || i == 16 || i == 17);
            }
        },
        Error::EmbeddingDimensionMismatch { .. } => {
            reveal_strlit("EMBEDDING_DIMENSION_MISMATCH");
            let s = "EMBEDDING_DIMENSION_MISMATCH"@;
            assert(s.len() == 28 && s[0] == 'E' && s[27] == 'H');
            assert forall|i: int| 0 <= i < s.len() implies code_char(#[trigger] s[i]) by {
                assert(i == 0 || i == 1 || i == 2 || i == 3 || i == 4 || i == 5 || i == 6 || i == 7 || i == 8 || i == 9 || i == 10 || i == 11 || i == 12 || i == 13 || i == 14 || i == 15 || i == 16 || i == 17 || i == 18 || i == 19 || i == 20 || i == 21 || i == 22 || i == 23 || i == 24 || i == 25 || i == 26 || i == 27);
            }
        },
        Error::InvalidEmbeddingBytes => {
            reveal_strlit("INVALID_EMBEDDING_BYTES");
            let s = "INVALID_EMBEDDING_BYTES"@;
            assert(s.len() == 23 && s[0] == 'I' && s[22] == 'S');
            assert forall|i: int| 0 <= i < s.len() implies code_char(#[trigger] s[i]) by {
                assert(i == 0 || i == 1 || i == 2 || i == 3 || i == 4 || i == 5 || i == 6 || i == 7 || i == 8 || i == 9 || i == 10 || i == 11 || i == 12 || i == 13 || i == 14 || i == 15 || i == 16 || i == 17 || i == 18 || i == 19 || i == 20 || i == 21 || i == 22);
            }
        },
        Error::EmptyEmbeddingList => {
            reveal_strlit("EMPTY_EMBEDDING_LIST");
            let s = "EMPTY_EMBEDDING_LIST"@;
            assert(s.len() == 20 && s[0] == 'E' && s[19] == 'T');
            assert forall|i: int| 0 <= i < s.len() implies code_char(#[trigger] s[i]) by {
                assert(i == 0 || i == 1 || i == 2 || i == 3 || i == 4 || i == 5 || i == 6 || i == 7 || i == 8 || i == 9 || i == 10 || i == 11 || i == 12 || i == 13 || i == 14 || i == 15 || i == 16 || i == 17 || i == 18 || i == 19);
            }
        },
        Error::MemoryNotFound(_) => {
            reveal_strlit("MEMORY_NOT_FOUND");
            let s = "MEMORY_NOT_FOUND"@;
            assert(s.len() == 16 && s[0] == 'M' && s[15] == 'D');
            assert forall|i: int| 0 <= i < s.len() implies code_char(#[trigger] s[i]) by {
                assert(i == 0 || i == 1 || i == 2 || i == 3 || i == 4 || i == 5 || i == 6 || i == 7 || i == 8 || i == 9 || i == 10 || i == 11 || i == 12 || i == 13 || i == 14 || i == 15);
            }
        },
        Error::Storage(_) => {
            reveal_strlit("STORAGE_ERROR");
            let s = "STORAGE_ERROR"@;
            assert(s.len() == 13 && s[0] == 'S' && s[12] == 'R');
            assert forall|i: int| 0 <= i < s.len() implies code_char(#[trigger] s[i]) by {
                assert(i == 0 || i == 1 || i == 2 || i == 3 || i == 4 || i == 5 || i == 6 || i == 7 || i == 8 || i == 9 || i == 10 || i == 11 || i == 12);
            }
        },
        Error::DatabaseConnection(_) => {
            reveal_strlit("DATABASE_CONNECTION_ERROR");
            let s = "DATABASE_CONNECTION_ERROR"@;
            assert(s.len() == 25 && s[0] == 'D' && s[24] == 'R');
            assert forall|i: int| 0 <= i < s.len() implies code_char(#[trigger] s[i]) by {
                assert(i == 0 || i == 1 || i == 2 || i == 3 || i == 4 || i == 5 || i == 6 || i == 7 || i == 8 || i == 9 || i == 10 || i == 11 || i == 12 || i == 13 || i == 14 || i == 15 || i == 16 || i == 17 || i == 18 || i == 19 || i == 20 || i == 21 || i == 22 || i == 23 || i == 24);
            }
        },
        Error::TransactionFailed(_) => {
            reveal_strlit("TRANSACTION_FAILED");
            let s = "TRANSACTION_FAILED"@;
            assert(s.len() == 18 && s[0] == 'T' && s[17] == 'D');
            assert forall|i: int| 0 <= i < s.len() implies code_char(#[trigger] s[i]) by {
                assert(i == 0 || i == 1 || i == 2 || i == 3 || i == 4 || i == 5 || i == 6 || i == 7 || i == 8 || i == 9 || i == 10 || i == 11 || i == 12 || i == 13 || i == 14 || i == 15 || i == 16 || i == 17);
            }
        },
        Error::Serialization(_) => {
            reveal_strlit("SERIALIZATION_ERROR");
            let s = "SERIALIZATION_ERROR"@;
            assert(s.len() == 19 && s[0] == 'S' && s[18] == 'R');
            assert forall|i: int| 0 <= i < s.len() implies code_char(#[trigger] s[i]) by {
                assert(i == 0 || i == 1 || i == 2 || i == 3 || i == 4 || i == 5 || i == 6 || i == 7 || i == 8 || i == 9 || i == 10 || i == 11 || i == 12 || i == 13 || i == 14 || i == 15 || i == 16 || i == 17 || i == 18);
            }
        },
        Error::Deserialization(_) => {
            reveal_strlit("DESERIALIZATION_ERROR");
            let s = "DESERIALIZATION_ERROR"@;
            assert(s.len() == 21 && s[0] == 'D' && s[20] == 'R');
            assert forall|i: int| 0 <= i < s.len() implies code_char(#[trigger] s[i]) by {
                assert(i == 0 || i == 1 || i == 2 || i == 3 || i == 4 || i == 5 || i == 6 || i == 7 || i == 8 || i == 9 || i == 10 || i == 11 || i == 12 || i == 13 || i == 14 || i == 15 || i == 16 || i == 17 || i == 18 || i == 19 || i == 20);
            }
        },
        Error::SchemaMigration(_) => {
            reveal_strlit("SCHEMA_MIGRATION_ERROR");
            let s = "SCHEMA_MIGRATION_ERROR"@;
            assert(s.len() == 22 && s[0] == 'S' && s[21] == 'R');
            assert forall|i: int| 0 <= i < s.len() implies code_char(#[trigger] s[i]) by {
                assert(i == 0 || i == 1 || i == 2 || i == 3 || i == 4 || i == 5 || i == 6 || i == 7 || i == 8 || i == 9 || i == 10 || i == 11 || i == 12 || i == 13 || i == 14 || i == 15 || i == 16 || i == 17 || i == 18 || i == 19 || i == 20 || i == 21);
            }
        },
        Error::Rejected { .. } => {
            reveal_strlit("REJECTED");
            let s = "REJECTED"@;
            assert(s.len() == 8 && s[0] == 'R' && s[7] == 'D');
            assert forall|i: int| 0 <= i < s.len() implies code_char(#[trigger] s[i]) by {
                assert(i == 0 || i == 1 || i == 2 || i == 3 || i == 4 || i == 5 || i == 6 || i == 7);
            }
        },
        Error::BudgetExceeded { .. } => {
            reveal_strlit("BUDGET_EXCEEDED");
            let s = "BUDGET_EXCEEDED"@;
            assert(s.len() == 15 && s[0] == 'B' && s[14] == 'D');
            assert forall|i: int| 0 <= i < s.len() implies code_char(#[trigger] s[i]) by {
                assert(i == 0 || i == 1 || i == 2 || i == 3 || i == 4 || i == 5 || i == 6 || i == 7 || i == 8 || i == 9 || i == 10 || i == 11 || i == 12 || i == 13 || i == 14);
            }
        },
        Error::Duplicate { .. } => {
            reveal_strlit("DUPLICATE");
            let s = "DUPLICATE"@;
            assert(s.len() == 9 && s[0] == 'D' && s[8] == 'E');
            assert forall|i: int| 0 <= i < s.len() implies code_char(#[trigger] s[i]) by {
                assert(i == 0 || i == 1 || i == 2 || i == 3 || i == 4 || i == 5 || i == 6 || i == 7 || i == 8);
            }
        },
        Error::WriteConflict(_) => {
            reveal_strlit("WRITE_CONFLICT");
            let s = "WRITE_CONFLICT"@;
            assert(s.len() == 14 && s[0] == 'W' && s[13] == 'T');
            assert forall|i: int| 0 <= i < s.len() implies code_char(#[trigger] s[i]) by {
                assert(i == 0 || i == 1 || i == 2 || i == 3 || i == 4 || i == 5 || i == 6 || i == 7 || i == 8 || i == 9 || i == 10 || i == 11 || i == 12 || i == 13);
            }
        },
        Error::QueryParsing(_) => {
            reveal_strlit("QUERY_PARSING_ERROR");
            let s = "QUERY_PARSING_ERROR"@;
            assert(s.len() == 19 && s[0] == 'Q' && s[18] == 'R');
            assert forall|i: int| 0 <= i < s.len() implies code_char(#[trigger] s[i]) by {
                assert(i == 0 || i == 1 || i == 2 || i == 3 || i == 4 || i == 5 || i == 6 || i == 7 || i == 8 || i == 9 || i == 10 || i == 11 || i == 12 || i == 13 || i == 14 || i == 15 || i == 16 || i == 17 || i == 18);
            }
        },
        Error::SearchFailed(_) => {
            reveal_strlit("SEARCH_FAILED");
            let s = "SEARCH_FAILED"@;
            assert(s.len() == 13 && s[0] == 'S' && s[12] == 'D');
            assert forall|i: int| 0 <= i < s.len() implies code_char(#[trigger] s[i]) by {
                assert(i == 0 || i == 1 || i == 2 || i == 3 || i == 4 || i == 5 || i == 6 || i == 7 || i == 8 || i == 9 || i == 10 || i == 11 || i == 12);
            }
        },
        Error::IndexError(_) => {
            reveal_strlit("INDEX_ERROR");
            let s = "INDEX_ERROR"@;
            assert(s.len() == 11 && s[0] == 'I' && s[10] == 'R');
            assert forall|i: int| 0 <= i < s.len() implies code_char(#[trigger] s[i]) by {
                assert(i == 0 || i == 1 || i == 2 || i == 3 || i == 4 || i == 5 || i == 6 || i == 7 || i == 8 || i == 9 || i == 10);
            }
        },
        Error::EmbeddingGeneration(_) => {
            reveal_strlit("EMBEDDING_GENERATION_ERROR");
            let s = "EMBEDDING_GENERATION_ERROR"@;
            assert(s.len() == 26 && s[0] == 'E' && s[25] == 'R');
            assert forall|i: int| 0 <= i < s.len() implies code_char(#[trigger] s[i]) by {
                assert(i == 0 || i == 1 || i == 2 || i == 3 || i == 4 || i == 5 || i == 6 || i == 7 || i == 8 || i == 9 || i == 10 || i == 11 || i == 12 || i == 13 || i == 14 || i == 15 || i == 16 || i == 17 || i == 18 || i == 19 || i == 20 || i == 21 || i == 22 || i == 23 || i == 24 || i == 25);
            }
        },
        Error::EmbeddingProviderNotConfigured => {
            reveal_strlit("EMBEDDING_PROVIDER_NOT_CONFIGURED");
            let s = "EMBEDDING_PROVIDER_NOT_CONFIGURED"@;
            assert(s.len() == 33 && s[0] == 'E' && s[32] == 'D');
            assert forall|i: int| 0 <= i < s.len() implies code_char(#[trigger] s[i]) by {
                assert(i == 0 || i == 1 || i == 2 || i == 3 || i == 4 || i == 5 || i == 6 || i == 7 || i == 8 || i == 9 || i == 10 || i == 11 || i == 12 || i == 13 || i == 14 || i == 15 || i == 16 || i == 17 || i == 18 || i == 19 || i == 20 || i == 21 || i == 22 || i == 23 || i == 24 || i == 25 || i == 26 || i == 27 || i == 28 || i == 29 || i == 30 || i == 31 || i == 32);
            }
        },
        Error::RateLimited { .. } => {
            reveal_strlit("RATE_LIMITED");
            let s = "RATE_LIMITED"@;
            assert(s.len() == 12 && s[0] == 'R' && s[11] == 'D');
            assert forall|i: int| 0 <= i < s.len() implies code_char(#[trigger] s[i]) by {
                assert(i == 0 || i == 1 || i == 2 || i == 3 || i == 4 || i == 5 || i == 6 || i == 7 || i == 8 || i == 9 || i == 10 || i == 11);
            }
        },
        Error::Configuration(_) => {
            reveal_strlit("CONFIGURATION_ERROR");
            let s = "CONFIGURATION_ERROR"@;
            assert(s.len() == 19 && s[0] == 'C' && s[18] == 'R');
            assert forall|i: int| 0 <= i < s.len() implies code_char(#[trigger] s[i]) by {
                assert(i == 0 || i == 1 || i == 2 || i == 3 || i == 4 || i == 5 || i == 6 || i == 7 || i == 8 || i == 9 || i == 10 || i == 11 || i == 12 || i == 13 || i == 14 || i == 15 || i == 16 || i == 17 || i == 18);
            }
        },
        Error::InvalidConfigValue { .. } => {
            reveal_strlit("INVALID_CONFIG_VALUE");
            let s = "INVALID_CONFIG_VALUE"@;
            assert(s.len() == 20 && s[0] == 'I' && s[19] == 'E');
            assert forall|i: int| 0 <= i < s.len() implies code_char(#[trigger] s[i]) by {
                assert(i == 0 || i == 1 || i == 2 || i == 3 || i == 4 || i == 5 || i == 6 || i == 7 || i == 8 || i == 9 || i == 10 || i == 11 || i == 12 || i == 13 || i == 14 || i == 15 || i == 16 || i == 17 || i == 18 || i == 19);
            }
        },
        Error::MissingConfig(_) => {
            reveal_strlit("MISSING_CONFIG");
            let s = "MISSING_CONFIG"@;
            assert(s.len() == 14 && s[0] == 'M' && s[13] == 'G');
            assert forall|i: int| 0 <= i < s.len() implies code_char(#[trigger] s[i]) by {
                assert(i == 0 || i == 1 || i == 2 || i == 3 || i == 4 || i == 5 || i == 6 || i == 7 || i == 8 || i == 9 || i == 10 || i == 11 || i == 12 || i == 13);
            }
        },
        Error::InsufficientTrust { .. } => {
            reveal_strlit("INSUFFICIENT_TRUST");
            let s = "INSUFFICIENT_TRUST"@;
            assert(s.len() == 18 && s[0] == 'I' && s[17] == 'T');
            assert forall|i: int| 0 <= i < s.len() implies code_char(#[trigger] s[i]) by {
                assert(i == 0 || i == 1 || i == 2 || i == 3 || i == 4 || i == 5 || i == 6 || i == 7 || i == 8 || i == 9 || i == 10 || i == 11 || i == 12 || i == 13 || i == 14 || i == 15 || i == 16 || i == 17);
            }
        },
        Error::AgentNotFound(_) => {
            reveal_strlit("AGENT_NOT_FOUND");
            let s = "AGENT_NOT_FOUND"@;
            assert(s.len() == 15 && s[0] == 'A' && s[14] == 'D');
            assert forall|i: int| 0 <= i < s.len() implies code_char(#[trigger] s[i]) by {
                assert(i == 0 || i == 1 || i == 2 || i == 3 || i == 4 || i == 5 || i == 6 || i == 7 || i == 8 || i == 9 || i == 10 || i == 11 || i == 12 || i == 13 || i == 14);
            }
        },
        Error::VisibilityError { .. } => {
            reveal_strlit("VISIBILITY_ERROR");
            let s = "VISIBILITY_ERROR"@;
            assert(s.len() == 16 && s[0] == 'V' && s[15] == 'R');
            assert forall|i: int| 0 <= i < s.len() implies code_char(#[trigger] s[i]) by {
                assert(i == 0 || i == 1 || i == 2 || i == 3 || i == 4 || i == 5 || i == 6 || i == 7 || i == 8 || i == 9 || i == 10 || i == 11 || i == 12 || i == 13 || i == 14 || i == 15);
            }
        },
        Error::JobScheduling(_) => {
            reveal_strlit("JOB_SCHEDULING_ERROR");
            let s = "JOB_SCHEDULING_ERROR"@;
            assert(s.len() == 20 && s[0] == 'J' && s[19] == 'R');
            assert forall|i: int| 0 <= i < s.len() implies code_char(#[trigger] s[i]) by {
                assert(i == 0 || i == 1 || i == 2 || i == 3 || i == 4 || i == 5 || i == 6 || i == 7 || i == 8 || i == 9 || i == 10 || i == 11 || i == 12 || i == 13 || i == 14 || i == 15 || i == 16 || i == 17 || i == 18 || i == 19);
            }
        },
        Error::JobExecution { .. } => {
            reveal_strlit("JOB_EXECUTION_ERROR");
            let s = "JOB_EXECUTION_ERROR"@;
            assert(s.len() == 19 && s[0] == 'J' && s[18] == 'R');
            assert forall|i: int| 0 <= i < s.len() implies code_char(#[trigger] s[i]) by {
                assert(i == 0 || i == 1 || i == 2 || i == 3 || i == 4 || i == 5 || i == 6 || i == 7 || i == 8 || i == 9 || i == 10 || i == 11 || i == 12 || i == 13 || i == 14 || i == 15 || i == 16 || i == 17 || i == 18);
            }
        },
        Error::JobAlreadyRunning(_) => {
            reveal_strlit("JOB_ALREADY_RUNNING");
            let s = "JOB_ALREADY_RUNNING"@;
            assert(s.len() == 19 && s[0] == 'J' && s[18] == 'G');
            assert forall|i: int| 0 <= i < s.len() implies code_char(#[trigger] s[i]) by {
                assert(i == 0 || i == 1 || i == 2 || i == 3 || i == 4 || i == 5 || i == 6 || i == 7 || i == 8 || i == 9 || i == 10 || i == 11 || i == 12 || i == 13 || i == 14 || i == 15 || i == 16 || i == 17 || i == 18);
            }
        },
        Error::ConsolidationFailed(_) => {
            reveal_strlit("CONSOLIDATION_FAILED");
            let s = "CONSOLIDATION_FAILED"@;
            assert(s.len() == 20 && s[0] == 'C' && s[19] == 'D');
            assert forall|i: int| 0 <= i < s.len() implies code_char(#[trigger] s[i]) by {
                assert(i == 0 || i == 1 || i == 2 || i == 3 || i == 4 || i == 5 || i == 6 || i == 7 || i == 8 || i == 9 || i == 10 || i == 11 || i == 12 || i == 13 || i == 14 || i == 15 || i == 16 || i == 17 || i == 18 || i == 19);
            }
        },
        Error::DecayError(_) => {
            reveal_strlit("DECAY_ERROR");
            let s = "DECAY_ERROR"@;
            assert(s.len() == 11 && s[0] == 'D' && s[10] == 'R');
            assert forall|i: int| 0 <= i < s.len() implies code_char(#[trigger] s[i]) by {
                assert(i == 0 || i == 1 || i == 2 || i == 3 || i == 4 || i == 5 || i == 6 || i == 7 || i == 8 || i == 9 || i == 10);
            }
        },
        Error::AuditLog(_) => {
            reveal_strlit("AUDIT_LOG_ERROR");
            let s = "AUDIT_LOG_ERROR"@;
            assert(s.len() == 15 && s[0] == 'A' && s[14] == 'R');
            assert forall|i: int| 0 <= i < s.len() implies code_char(#[trigger] s[i]) by {
                assert(i == 0 || i == 1 || i == 2 || i == 3 || i == 4 || i == 5 || i == 6 || i == 7 || i == 8 || i == 9 || i == 10 || i == 11 || i == 12 || i == 13 || i == 14);
            }
        },
        Error::FfiConversion(_) => {
            reveal_strlit("FFI_CONVERSION_ERROR");
            let s = "FFI_CONVERSION_ERROR"@;
            assert(s.len() == 20 && s[0] == 'F' && s[19] == 'R');
            assert forall|i: int| 0 <= i < s.len() implies code_char(#[trigger] s[i]) by {
                assert(i == 0 || i == 1 || i == 2 || i == 3 || i == 4 || i == 5 || i == 6 || i == 7 || i == 8 || i == 9 || i == 10 || i == 11 || i == 12 || i == 13 || i == 14 || i == 15 || i == 16 || i == 17 || i == 18 || i == 19);
            }
        },
        Error::GraphError(_) => {
            reveal_strlit("GRAPH_ERROR");
            let s = "GRAPH_ERROR"@;
            assert(s.len() == 11 && s[0] == 'G' && s[10] == 'R');
            assert forall|i: int| 0 <= i < s.len() implies code_char(#[trigger] s[i]) by {
                assert(i == 0 || i == 1 || i == 2 || i == 3 || i == 4 || i == 5 || i == 6 || i == 7 || i == 8 || i == 9 || i == 10);
            }
        },
        Error::Internal(_) => {
            reveal_strlit("INTERNAL_ERROR");
            let s = "INTERNAL_ERROR"@;
            assert(s.len() == 14 && s[0] == 'I' && s[13] == 'R');
            assert forall|i: int| 0 <= i < s.len() implies code_char(#[trigger] s[i]) by {
                assert(i == 0 || i == 1 || i == 2 || i == 3 || i == 4 || i == 5 || i == 6 || i == 7 || i == 8 || i == 9 || i == 10 || i == 11 || i == 12 || i == 13);
            }
        },
        Error::Io(_) => {
            reveal_strlit("IO_ERROR");
            let s = "IO_ERROR"@;
            assert(s.len() == 8 && s[0] == 'I' && s[7] == 'R');
            assert forall|i: int| 0 <= i < s.len() implies code_char(#[trigger] s[i]) by {
                assert(i == 0 || i == 1 || i == 2 || i == 3 || i == 4 || i == 5 || i == 6 || i == 7);
            }
        },
        Error::Cancelled => {
            reveal_strlit("CANCELLED");
            let s = "CANCELLED"@;
            assert(s.len() == 9 && s[0] == 'C' && s[8] == 'D');
            assert forall|i: int| 0 <= i < s.len() implies code_char(#[trigger] s[i]) by {
                assert(i == 0 || i == 1 || i == 2 || i == 3 || i == 4 || i == 5 || i == 6 || i == 7 || i == 8);
            }
        },
        Error::Timeout(_) => {
            reveal_strlit("TIMEOUT");
            let s = "TIMEOUT"@;
            assert(s.len() == 7 && s[0] == 'T' && s[6] == 'T');
            assert forall|i: int| 0 <= i < s.len() implies code_char(#[trigger] s[i]) by {
                assert(i == 0 || i == 1 || i == 2 || i == 3 || i == 4 || i == 5 || i == 6);
            }
        },
    }
}

/// The error code depends on the variant alone: two errors have the same
/// code exactly when they are of the same variant, so the variants have
/// distinct codes; and every code is non-empty and made of upper-case
/// letters and `_`.
pub proof fn lemma_error_codes_by_variant(e1: Error, e2: Error)
    ensures
        code_of(e1) == code_of(e2) <==> variant_index(e1) == variant_index(e2),
        code_of(e1).len() > 0,
        forall|i: int| 0 <= i < code_of(e1).len() ==> code_char(#[trigger] code_of(e1)[i]),
{
    lemma_code_shape(e1);
    lemma_code_shape(e2);
}

/// Errors worth retrying: rate limits, lost connections, timeouts and write
/// conflicts.
pub open spec fn retryable(e: Error) -> bool {
    ||| e is RateLimited
    ||| e is DatabaseConnection
    ||| e is Timeout
    ||| e is WriteConflict
}

impl Error {
    /// Check if this error is retryable.
    pub fn is_retryable(&self) -> (r: bool)
        ensures
            r == retryable(*self),
    {
        match self {
            Error::RateLimited { .. } | Error::DatabaseConnection(_) | Error::Timeout(_)
            | Error::WriteConflict(_) => true,
            _ => false,
        }
    }

    /// Get the error code for external APIs.
    pub fn error_code(&self) -> (r: &'static str)
        ensures
            r@ == code_of(*self),
    {
        match self {
            Error::InvalidConfidence(_) => "INVALID_CONFIDENCE",
            Error::EmbeddingDimensionMismatch { .. } => "EMBEDDING_DIMENSION_MISMATCH",
            Error::InvalidEmbeddingBytes => "INVALID_EMBEDDING_BYTES",
            Error::EmptyEmbeddingList => "EMPTY_EMBEDDING_LIST",
            Error::MemoryNotFound(_) => "MEMORY_NOT_FOUND",
            Error::Storage(_) => "STORAGE_ERROR",
            Error::DatabaseConnection(_) => "DATABASE_CONNECTION_ERROR",
            Error::TransactionFailed(_) => "TRANSACTION_FAILED",
            Error::Serialization(_) => "SERIALIZATION_ERROR",
            Error::Deserialization(_) => "DESERIALIZATION_ERROR",
            Error::SchemaMigration(_) => "SCHEMA_MIGRATION_ERROR",
            Error::Rejected { .. } => "REJECTED",
            Error::BudgetExceeded { .. } => "BUDGET_EXCEEDED",
            Error::Duplicate { .. } => "DUPLICATE",
            Error::WriteConflict(_) => "WRITE_CONFLICT",
            Error::QueryParsing(_) => "QUERY_PARSING_ERROR",
            Error::SearchFailed(_) => "SEARCH_FAILED",
            Error::IndexError(_) => "INDEX_ERROR",
            Error::EmbeddingGeneration(_) => "EMBEDDING_GENERATION_ERROR",
            Error::EmbeddingProviderNotConfigured => "EMBEDDING_PROVIDER_NOT_CONFIGURED",
            Error::RateLimited { .. } => "RATE_LIMITED",
            Error::Configuration(_) => "CONFIGURATION_ERROR",
            Error::InvalidConfigValue { .. } => "INVALID_CONFIG_VALUE",
            Error::MissingConfig(_) => "MISSING_CONFIG",
            Error::InsufficientTrust { .. } => "INSUFFICIENT_TRUST",
            Error::AgentNotFound(_) => "AGENT_NOT_FOUND",
            Error::VisibilityError { .. } => "VISIBILITY_ERROR",
            Error::JobScheduling(_) => "JOB_SCHEDULING_ERROR",
            Error::JobExecution { .. } => "JOB_EXECUTION_ERROR",
            Error::JobAlreadyRunning(_) => "JOB_ALREADY_RUNNING",
            Error::ConsolidationFailed(_) => "CONSOLIDATION_FAILED",
            Error::DecayError(_) => "DECAY_ERROR",
            Error::AuditLog(_) => "AUDIT_LOG_ERROR",
            Error::FfiConversion(_) => "FFI_CONVERSION_ERROR",
            Error::GraphError(_) => "GRAPH_ERROR",
            Error::Internal(_) => "INTERNAL_ERROR",
            Error::Io(_) => "IO_ERROR",
            Error::Cancelled => "CANCELLED",
            Error::Timeout(_) => "TIMEOUT",
        }
    }
}

} // verus!
