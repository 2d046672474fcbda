use membrain::config::{
    validate_backend, validate_indexed_metadata_keys, AuditConfig, BudgetConfig, BudgetExceededAction,
    ConflictResolutionConfig, HybridFusionMethod, JobScheduleConfig, JobsConfig, MultiAgentConfig,
    RerankerConfig, StorageConfig,
};
use membrain::error::Error;
use membrain::memory_type::MemoryType;
use membrain::scope::ScopeConfig;

fn entry(k: &str, v: &str) -> (String, String) {
    (k.to_string(), v.to_string())
}

fn value_of(target: &[(String, String)], key: &str) -> Option<String> {
    target.iter().rev().find(|(k, _)| k == key).map(|(_, v)| v.clone())
}

#[test]
fn scope_config_apply_preserves_per_call_keys() {
    let scope = ScopeConfig::from_entries(vec![
        entry("user_id", "\"alice\""),
        entry("tenant_id", "\"acme\""),
    ]);
    let mut target = vec![entry("user_id", "\"bob\"")];
    scope.apply_to(&mut target);
    assert_eq!(value_of(&target, "user_id"), Some("\"bob\"".to_string()));
    assert_eq!(value_of(&target, "tenant_id"), Some("\"acme\"".to_string()));
}

#[test]
fn scope_config_empty_is_noop() {
    let scope = ScopeConfig::new();
    assert!(scope.is_empty());
    let mut target = vec![entry("user_id", "\"alice\"")];
    scope.apply_to(&mut target);
    assert_eq!(target.len(), 1);
}

#[test]
fn scope_from_entries_keeps_last_value_per_key() {
    let scope = ScopeConfig::from_entries(vec![entry("k", "1"), entry("j", "2"), entry("k", "3")]);
    let mut target = Vec::new();
    scope.apply_to(&mut target);
    assert_eq!(target.len(), 2);
    assert_eq!(value_of(&target, "k"), Some("3".to_string()));
    assert_eq!(value_of(&target, "j"), Some("2".to_string()));
}

#[test]
fn scope_validation_rejects_empty_key() {
    let ok = ScopeConfig::from_entries(vec![entry("user_id", "\"alice\"")]);
    assert!(ok.validate().is_ok());
    let bad = ScopeConfig::from_entries(vec![entry("", "1")]);
    match bad.validate() {
        Err(Error::InvalidConfigValue { key, message }) => {
            assert_eq!(key, "scope.default_scope");
            assert_eq!(message, "Scope key must not be empty");
        }
        other => panic!("unexpected {:?}", other),
    }
}

#[test]
fn validation_rejects_empty_indexed_key() {
    let mut config = StorageConfig::default();
    config.indexed_metadata_keys = vec![String::new()];
    assert!(config.validate().is_err());
}

#[test]
fn validation_rejects_duplicate_indexed_keys() {
    let mut config = StorageConfig::default();
    config.indexed_metadata_keys = vec!["user_id".into(), "user_id".into()];
    match config.validate() {
        Err(Error::InvalidConfigValue { key, message }) => {
            assert_eq!(key, "storage.indexed_metadata_keys");
            assert_eq!(message, "Duplicate indexed metadata key: user_id");
        }
        other => panic!("unexpected {:?}", other),
    }
}

#[test]
fn default_storage_config_is_valid() {
    let config = StorageConfig::default();
    assert_eq!(config.backend, "memscaledb");
    assert_eq!(config.path, Some("memscaledb".to_string()));
    assert_eq!(config.max_connections, 5);
    assert_eq!(config.connection_timeout_secs, 30);
    assert!(config.sqlite_wal_mode);
    assert!(config.validate().is_ok());
}

#[test]
fn unknown_backend_is_rejected_with_its_name() {
    match validate_backend("mongodb") {
        Err(Error::InvalidConfigValue { key, message }) => {
            assert_eq!(key, "storage.backend");
            assert_eq!(message, "Unknown backend: mongodb");
        }
        other => panic!("unexpected {:?}", other),
    }
    for ok in ["memscaledb", "sqlite", "memory", "postgres"] {
        assert!(validate_backend(ok).is_ok());
    }
}

#[test]
fn first_faulty_indexed_key_is_reported() {
    let keys = vec!["a".to_string(), "b".to_string(), "a".to_string(), String::new()];
    match validate_indexed_metadata_keys(&keys) {
        Err(Error::InvalidConfigValue { message, .. }) => {
            assert_eq!(message, "Duplicate indexed metadata key: a")
        }
        other => panic!("unexpected {:?}", other),
    }
    let keys = vec!["a".to_string(), String::new(), "a".to_string()];
    match validate_indexed_metadata_keys(&keys) {
        Err(Error::InvalidConfigValue { message, .. }) => {
            assert_eq!(message, "Indexed metadata key must not be empty")
        }
        other => panic!("unexpected {:?}", other),
    }
    let keys = vec!["user_id".to_string(), "thread_id".to_string()];
    assert!(validate_indexed_metadata_keys(&keys).is_ok());
}

#[test]
fn config_defaults() {
    let c = ConflictResolutionConfig::default();
    assert!(!c.enabled);
    assert_eq!(c.provider, "openai");
    assert_eq!(c.model, "gpt-4o-mini");
    assert_eq!(c.timeout_secs, 30);
    assert_eq!(c.retries, 2);
    assert_eq!(c.max_similar_to_compare, 5);

    let b = BudgetConfig::default();
    assert_eq!(b.global_max_memories, 100000);
    assert_eq!(b.type_limits.len(), 9);
    assert!(b.type_limits.contains(&(MemoryType::SemanticFact, 50000)));
    assert_eq!(b.on_exceeded, BudgetExceededAction::Reject);

    assert_eq!(HybridFusionMethod::default(), HybridFusionMethod::ReciprocalRankFusion);

    let r = RerankerConfig::default();
    assert!(!r.enabled);
    assert_eq!(r.reranker_type, "none");
    assert_eq!(r.top_k, 5);

    let j = JobsConfig::default();
    assert!(j.enabled);
    assert_eq!(j.max_concurrent, 2);
    assert_eq!(j.decay.interval_secs, 86400);
    assert_eq!(j.index_maintenance.batch_size, 10000);

    let s = JobScheduleConfig::default();
    assert_eq!(s.interval(), std::time::Duration::from_secs(3600));

    let a = AuditConfig::default();
    assert!(a.enabled && a.log_storage && a.log_retrieval && a.log_rejections);
    assert_eq!(a.retention_days, 30);

    let m = MultiAgentConfig::default();
    assert!(!m.enabled);
    assert_eq!(m.default_trust_level, "read_only");
    assert!(!m.allow_sharing);
}

#[test]
fn scope_merge_twice_is_merge_once() {
    let scope = ScopeConfig::from_entries(vec![entry("user_id", "\"alice\""), entry("tenant_id", "\"acme\"")]);
    let mut once = vec![entry("thread", "1")];
    scope.apply_to(&mut once);
    let mut twice = once.clone();
    scope.apply_to(&mut twice);
    assert_eq!(twice, once);
    let copy = scope.entries();
    assert_eq!(copy, vec![entry("user_id", "\"alice\""), entry("tenant_id", "\"acme\"")]);
    assert!(ScopeConfig::default().is_empty());
}
