//! Configuration records of the memory system and the rules that decide
//! whether a storage or scope configuration is acceptable.

use vstd::prelude::*;

use crate::error::Error;
use crate::memory_type::MemoryType;
use crate::text::{opt_text, owned, str_eq, texts};

verus! {

/// The storage backends the system knows.
pub open spec fn known_backend(b: Seq<char>) -> bool {
    ||| b == "memscaledb"@
    ||| b == "sqlite"@
    ||| b == "memory"@
    ||| b == "postgres"@
}

/// Storage backend configuration.
#[derive(Debug, Clone)]
pub struct StorageConfig {
    /// Backend type: "memscaledb", "sqlite", "memory", "postgres"
    pub backend: String,
    /// Path for file-based storage (MemscaleDB directory or SQLite file)
    pub path: Option<String>,
    /// Connection string for database backends
    pub connection_string: Option<String>,
    /// Maximum connections in pool
    pub max_connections: u32,
    /// Connection timeout in seconds
    pub connection_timeout_secs: u64,
    /// Enable WAL mode for SQLite
    pub sqlite_wal_mode: bool,
    /// Metadata keys to build a secondary index on.
    pub indexed_metadata_keys: Vec<String>,
}

/// The settings every storage constructor shares with the default.
pub open spec fn storage_tuning_is_default(c: StorageConfig) -> bool {
    &&& c.max_connections == 5
    &&& c.connection_timeout_secs == 30
    &&& c.sqlite_wal_mode
    &&& c.indexed_metadata_keys@.len() == 0
}

impl Default for StorageConfig {
    fn default() -> (r: Self)
        ensures
            r.backend@ == "memscaledb"@,
            opt_text(r.path) == Some("memscaledb"@),
            r.connection_string is None,
            storage_tuning_is_default(r),
            storage_valid(r),
    {
        StorageConfig {
            backend: owned("memscaledb"),
            path: Some(owned("memscaledb")),
            connection_string: None,
            max_connections: 5,
            connection_timeout_secs: 30,
            sqlite_wal_mode: true,
            indexed_metadata_keys: Vec::new(),
        }
    }
}

impl StorageConfig {
    /// Create MemscaleDB configuration.
    pub fn memscaledb(path: &str) -> (r: Self)
        ensures
            r.backend@ == "memscaledb"@,
            opt_text(r.path) == Some(path@),
            r.connection_string is None,
            storage_tuning_is_default(r),
            storage_valid(r),
    {
        StorageConfig { backend: owned("memscaledb"), path: Some(owned(path)), ..Self::default() }
    }

    /// Create SQLite configuration.
    pub fn sqlite(path: &str) -> (r: Self)
        ensures
            r.backend@ == "sqlite"@,
            opt_text(r.path) == Some(path@),
            r.connection_string is None,
            storage_tuning_is_default(r),
            storage_valid(r),
    {
        StorageConfig { backend: owned("sqlite"), path: Some(owned(path)), ..Self::default() }
    }

    /// Create in-memory configuration.
    pub fn memory() -> (r: Self)
        ensures
            r.backend@ == "memory"@,
            r.path is None,
            r.connection_string is None,
            storage_tuning_is_default(r),
            storage_valid(r),
    {
        StorageConfig { backend: owned("memory"), path: None, ..Self::default() }
    }

    /// Create Postgres configuration.
    pub fn postgres(connection_string: &str) -> (r: Self)
        ensures
            r.backend@ == "postgres"@,
            r.path is None,
            opt_text(r.connection_string) == Some(connection_string@),
            storage_tuning_is_default(r),
            storage_valid(r),
    {
        StorageConfig {
            backend: owned("postgres"),
            connection_string: Some(owned(connection_string)),
            path: None,
            ..Self::default()
        }
    }
}

/// `e` reports an invalid value for the configuration key `key` with the
/// given message.
pub open spec fn invalid_value(e: Error, key: Seq<char>, message: Seq<char>) -> bool {
    match e {
        Error::InvalidConfigValue { key: k, message: m } => k@ == key && m@ == message,
        _ => false,
    }
}

/// Entry `i` of an indexed-key list is empty or repeats an earlier entry.
pub open spec fn key_at_fault(keys: Seq<Seq<char>>, i: int) -> bool {
    ||| keys[i].len() == 0
    ||| exists|j: int| 0 <= j < i && keys[j] == keys[i]
}

/// The error reported for the offending entry `i` of an indexed-key list.
pub open spec fn indexed_key_error(keys: Seq<Seq<char>>, i: int, e: Error) -> bool {
    if keys[i].len() == 0 {
        invalid_value(e, "storage.indexed_metadata_keys"@, "Indexed metadata key must not be empty"@)
    } else {
        invalid_value(
            e,
            "storage.indexed_metadata_keys"@,
            "Duplicate indexed metadata key: "@ + keys[i],
        )
    }
}

/// The outcome the indexed-key check owes for `keys`: success exactly when
/// no entry is at fault, and otherwise the error for the first faulty entry.
pub open spec fn indexed_keys_outcome(keys: Seq<Seq<char>>, r: Result<(), Error>) -> bool {
    &&& (r is Ok <==> forall|i: int| 0 <= i < keys.len() ==> !key_at_fault(keys, i))
    &&& (r matches Err(e) ==> exists|i: int|
        0 <= i < keys.len() && key_at_fault(keys, i) && (forall|j: int|
            0 <= j < i ==> !key_at_fault(keys, j)) && indexed_key_error(keys, i, e))
}

/// A storage configuration passes validation: its backend is known and its
/// indexed metadata keys are non-empty and distinct.
pub open spec fn storage_valid(c: StorageConfig) -> bool {
    &&& known_backend(c.backend@)
    &&& forall|i: int|
        0 <= i < c.indexed_metadata_keys@.len() ==> !key_at_fault(texts(c.indexed_metadata_keys@), i)
}

/// Check a storage backend name: only the known backends are accepted.
pub fn validate_backend(backend: &str) -> (r: Result<(), Error>)
    ensures
        r is Ok <==> known_backend(backend@),
        r matches Err(e) ==> invalid_value(e, "storage.backend"@, "Unknown backend: "@ + backend@),
{
    if str_eq(backend, "memscaledb") || str_eq(backend, "sqlite") || str_eq(backend, "memory")
        || str_eq(backend, "postgres") {
        Ok(())
    } else {
        let mut message = owned("Unknown backend: ");
        message.append(backend);
        Err(Error::InvalidConfigValue { key: owned("storage.backend"), message })
    }
}

/// Check the indexed metadata keys: every key must be non-empty and no key
/// may occur twice. The first offending entry is reported.
pub fn validate_indexed_metadata_keys(keys: &Vec<String>) -> (r: Result<(), Error>)
    ensures
        indexed_keys_outcome(texts(keys@), r),
{
    let ghost ks = texts(keys@);
    let mut i: usize = 0;
    while i < keys.len()
        invariant
            i <= keys@.len(),
            ks == texts(keys@),
            forall|j: int| 0 <= j < i ==> !key_at_fault(ks, j),
        decreases keys.len() - i,
    {
        let key = &keys[i];
        assert(ks[i as int] == keys@[i as int]@);
        if key.as_str().is_empty() {
            assert(key_at_fault(ks, i as int));
            let e = Error::InvalidConfigValue {
                key: owned("storage.indexed_metadata_keys"),
                message: owned("Indexed metadata key must not be empty"),
            };
            assert(indexed_key_error(ks, i as int, e));
            return Err(e);
        }
        let mut j: usize = 0;
        while j < i
            invariant
                j <= i < keys@.len(),
                ks == texts(keys@),
                ks[i as int] == key@,
                key@.len() > 0,
                forall|m: int| 0 <= m < i ==> !key_at_fault(ks, m),
                forall|m: int| 0 <= m < j ==> ks[m] != ks[i as int],
            decreases i - j,
        {
            assert(ks[j as int] == keys@[j as int]@);
            if keys[j] == *key {
                assert(ks[j as int] == ks[i as int]);
                assert(key_at_fault(ks, i as int));
                let mut message = owned("Duplicate indexed metadata key: ");
                message.append(key.as_str());
                let e = Error::InvalidConfigValue {
                    key: owned("storage.indexed_metadata_keys"),
                    message,
                };
                assert(indexed_key_error(ks, i as int, e));
                return Err(e);
            }
            j += 1;
        }
        assert(!key_at_fault(ks, i as int));
        i += 1;
    }
    Ok(())
}

impl StorageConfig {
    /// Validate the storage settings: the backend first, then the indexed
    /// metadata keys.
    pub fn validate(&self) -> (r: Result<(), Error>)
        ensures
            r is Ok <==> storage_valid(*self),
            !known_backend(self.backend@) ==> (r matches Err(e) && invalid_value(
                e,
                "storage.backend"@,
                "Unknown backend: "@ + self.backend@,
            )),
            known_backend(self.backend@) ==> indexed_keys_outcome(
                texts(self.indexed_metadata_keys@),
                r,
            ),
    {
        match validate_backend(self.backend.as_str()) {
            Err(e) => Err(e),
            Ok(()) => validate_indexed_metadata_keys(&self.indexed_metadata_keys),
        }
    }
}

/// LLM-based conflict resolution configuration.
#[derive(Debug, Clone)]
pub struct ConflictResolutionConfig {
    /// Whether conflict resolution is enabled
    pub enabled: bool,
    /// LLM provider for conflict resolution (e.g. "openai")
    pub provider: String,
    /// Model identifier (e.g. "gpt-4o-mini")
    pub model: String,
    /// API key (falls back to embedding.api_key if not set)
    pub api_key: Option<String>,
    /// API base URL (falls back to embedding.base_url if not set)
    pub base_url: Option<String>,
    /// Request timeout in seconds
    pub timeout_secs: u64,
    /// Number of retries on failure
    pub retries: u32,
    /// Maximum number of similar memories to compare against
    pub max_similar_to_compare: usize,
}

impl Default for ConflictResolutionConfig {
    fn default() -> (r: Self)
        ensures
            !r.enabled,
            r.provider@ == "openai"@,
            r.model@ == "gpt-4o-mini"@,
            r.api_key is None,
            r.base_url is None,
            r.timeout_secs == 30,
            r.retries == 2,
            r.max_similar_to_compare == 5,
    {
        ConflictResolutionConfig {
            enabled: false,
            provider: owned("openai"),
            model: owned("gpt-4o-mini"),
            api_key: None,
            base_url: None,
            timeout_secs: 30,
            retries: 2,
            max_similar_to_compare: 5,
        }
    }
}

/// Action when budget is exceeded.
#[derive(Debug, Clone, Copy, PartialEq, Eq, Structural)]
pub enum BudgetExceededAction {
    /// Reject the new memory
    Reject,
    /// Remove oldest memories to make room
    RemoveOldest,
    /// Remove lowest confidence memories
    RemoveLowestConfidence,
    /// Trigger consolidation
    Consolidate,
}

impl Default for BudgetExceededAction {
    fn default() -> (r: Self)
        ensures
            r == BudgetExceededAction::Reject,
    {
        BudgetExceededAction::Reject
    }
}

/// The per-type limits of the default budget.
pub open spec fn default_type_limits() -> Seq<(MemoryType, usize)> {
    seq![
        (MemoryType::EpisodicConversation, 10000usize),
        (MemoryType::EpisodicEvent, 5000usize),
        (MemoryType::EpisodicObservation, 5000usize),
        (MemoryType::SemanticFact, 50000usize),
        (MemoryType::SemanticPreference, 1000usize),
        (MemoryType::SemanticEntity, 10000usize),
        (MemoryType::ProceduralWorkflow, 1000usize),
        (MemoryType::ProceduralSkill, 1000usize),
        (MemoryType::ProceduralCase, 10000usize),
    ]
}

/// Budget configuration.
#[derive(Debug, Clone)]
pub struct BudgetConfig {
    /// Global maximum number of memories
    pub global_max_memories: usize,
    /// Per-type limits, one entry per limited type
    pub type_limits: Vec<(MemoryType, usize)>,
    /// Action when budget exceeded
    pub on_exceeded: BudgetExceededAction,
}

impl Default for BudgetConfig {
    fn default() -> (r: Self)
        ensures
            r.global_max_memories == 100000,
            r.type_limits@ == default_type_limits(),
            r.on_exceeded == BudgetExceededAction::Reject,
    {
        let mut type_limits: Vec<(MemoryType, usize)> = Vec::new();
        type_limits.push((MemoryType::EpisodicConversation, 10000));
        type_limits.push((MemoryType::EpisodicEvent, 5000));
        type_limits.push((MemoryType::EpisodicObservation, 5000));
        type_limits.push((MemoryType::SemanticFact, 50000));
        type_limits.push((MemoryType::SemanticPreference, 1000));
        type_limits.push((MemoryType::SemanticEntity, 10000));
        type_limits.push((MemoryType::ProceduralWorkflow, 1000));
        type_limits.push((MemoryType::ProceduralSkill, 1000));
        type_limits.push((MemoryType::ProceduralCase, 10000));
        assert(type_limits@ =~= default_type_limits());
        BudgetConfig {
            global_max_memories: 100000,
            type_limits,
            on_exceeded: BudgetExceededAction::Reject,
        }
    }
}

/// Method for fusing vector and text search results in hybrid search.
#[derive(Debug, Clone, Copy, PartialEq, Eq, Structural)]
pub enum HybridFusionMethod {
    /// Simple weighted average of normalized scores
    WeightedAverage,
    /// Reciprocal Rank Fusion -- robust, parameter-free fusion
    ReciprocalRankFusion,
}

impl Default for HybridFusionMethod {
    fn default() -> (r: Self)
        ensures
            r == HybridFusionMethod::ReciprocalRankFusion,
    {
        HybridFusionMethod::ReciprocalRankFusion
    }
}

/// Reranker configuration (used by language-level rerankers).
#[derive(Debug, Clone)]
pub struct RerankerConfig {
    /// Whether reranking is enabled
    pub enabled: bool,
    /// Reranker type: "cross_encoder", "llm", "none"
    pub reranker_type: String,
    /// Provider name: "cohere", "jina", "openai", "anthropic"
    pub provider: String,
    /// Model identifier
    pub model: String,
    /// Number of results to keep after reranking
    pub top_k: usize,
}

impl Default for RerankerConfig {
    fn default() -> (r: Self)
        ensures
            !r.enabled,
            r.reranker_type@ == "none"@,
            r.provider@.len() == 0,
            r.model@.len() == 0,
            r.top_k == 5,
    {
        RerankerConfig {
            enabled: false,
            reranker_type: owned("none"),
            provider: String::new(),
            model: String::new(),
            top_k: 5,
        }
    }
}

/// The duration `std::time::Duration::from_secs` builds from a number of seconds.
pub uninterp spec fn duration_of_secs(secs: u64) -> std::time::Duration;

/// Calls `std::time::Duration::from_secs`; the value is named, since a
/// `Duration` is opaque here.
#[verifier::external_body]
fn duration_from_secs(secs: u64) -> (d: std::time::Duration)
    ensures
        d == duration_of_secs(secs),
{
    std::time::Duration::from_secs(secs)
}

/// Configuration for a scheduled job.
#[derive(Debug, Clone, Copy, PartialEq, Eq, Structural)]
pub struct JobScheduleConfig {
    /// Whether this job is enabled
    pub enabled: bool,
    /// Interval between runs in seconds
    pub interval_secs: u64,
    /// Batch size for processing
    pub batch_size: usize,
}

impl Default for JobScheduleConfig {
    fn default() -> (r: Self)
        ensures
            r == (JobScheduleConfig { enabled: true, interval_secs: 3600, batch_size: 100 }),
    {
        JobScheduleConfig { enabled: true, interval_secs: 3600, batch_size: 100 }
    }
}

impl JobScheduleConfig {
    /// Get interval as Duration.
    pub fn interval(&self) -> (d: std::time::Duration)
        ensures
            d == duration_of_secs(self.interval_secs),
    {
        duration_from_secs(self.interval_secs)
    }
}

/// Background jobs configuration.
#[derive(Debug, Clone, Copy, PartialEq, Eq, Structural)]
pub struct JobsConfig {
    /// Whether jobs are enabled
    pub enabled: bool,
    /// Maximum concurrent jobs
    pub max_concurrent: usize,
    /// Consolidation job configuration
    pub consolidation: JobScheduleConfig,
    /// Decay job configuration
    pub decay: JobScheduleConfig,
    /// Contradiction detection job configuration
    pub contradiction: JobScheduleConfig,
    /// Index maintenance job configuration
    pub index_maintenance: JobScheduleConfig,
}

impl Default for JobsConfig {
    fn default() -> (r: Self)
        ensures
            r.enabled,
            r.max_concurrent == 2,
            r.consolidation == (JobScheduleConfig { enabled: true, interval_secs: 3600, batch_size: 100 }),
            r.decay == (JobScheduleConfig { enabled: true, interval_secs: 86400, batch_size: 1000 }),
            r.contradiction == (JobScheduleConfig { enabled: true, interval_secs: 3600, batch_size: 50 }),
            r.index_maintenance == (JobScheduleConfig {
                enabled: true,
                interval_secs: 86400,
                batch_size: 10000,
            }),
    {
        JobsConfig {
            enabled: true,
            max_concurrent: 2,
            consolidation: JobScheduleConfig { enabled: true, interval_secs: 3600, batch_size: 100 },
            decay: JobScheduleConfig { enabled: true, interval_secs: 86400, batch_size: 1000 },
            contradiction: JobScheduleConfig { enabled: true, interval_secs: 3600, batch_size: 50 },
            index_maintenance: JobScheduleConfig {
                enabled: true,
                interval_secs: 86400,
                batch_size: 10000,
            },
        }
    }
}

/// Audit configuration.
#[derive(Debug, Clone, Copy, PartialEq, Eq, Structural)]
pub struct AuditConfig {
    /// Whether audit logging is enabled
    pub enabled: bool,
    /// Retention period in days
    pub retention_days: u32,
    /// Whether to log storage decisions
    pub log_storage: bool,
    /// Whether to log retrieval decisions
    pub log_retrieval: bool,
    /// Whether to log rejections
    pub log_rejections: bool,
}

impl Default for AuditConfig {
    fn default() -> (r: Self)
        ensures
            r == (AuditConfig {
                enabled: true,
                retention_days: 30,
                log_storage: true,
                log_retrieval: true,
                log_rejections: true,
            }),
    {
        AuditConfig {
            enabled: true,
            retention_days: 30,
            log_storage: true,
            log_retrieval: true,
            log_rejections: true,
        }
    }
}

/// Multi-agent configuration.
#[derive(Debug, Clone)]
pub struct MultiAgentConfig {
    /// Whether multi-agent mode is enabled
    pub enabled: bool,
    /// Default trust level for new agents
    pub default_trust_level: String,
    /// Whether to allow cross-agent memory sharing
    pub allow_sharing: bool,
}

impl Default for MultiAgentConfig {
    fn default() -> (r: Self)
        ensures
            !r.enabled,
            r.default_trust_level@ == "read_only"@,
            !r.allow_sharing,
    {
        MultiAgentConfig {
            enabled: false,
            default_trust_level: owned("read_only"),
            allow_sharing: false,
        }
    }
}

} // verus!
