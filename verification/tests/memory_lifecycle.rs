use membrain::audit::AuditEntry;
use membrain::clock::instant_ns;
use membrain::embedding::Embedding;
use membrain::embedding_config::EmbeddingConfig;
use membrain::error::Error;
use membrain::ids::{AgentId, MemoryId};
use membrain::memory::{MemoryCommon, DEFAULT_CONFIDENCE_BITS};
use membrain::setup::{embedding_setup, fallback_endpoint};
use membrain::provenance::{Provenance, Source};

fn direct_common(agent: AgentId) -> MemoryCommon {
    MemoryCommon::new(agent, Provenance::new_direct(Source::user_input("test"), agent))
}


fn version_nibble(id: u128) -> u128 {
    (id >> 76) & 0xF
}

fn variant_bits(id: u128) -> u128 {
    (id >> 62) & 0x3
}

#[test]
fn new_common_fields_have_defaults() {
    let agent = AgentId::new();
    let common = direct_common(agent);
    assert_eq!(common.version, 1);
    assert_eq!(common.confidence, DEFAULT_CONFIDENCE_BITS);
    assert_eq!(f64::from_bits(common.confidence), 0.5);
    assert!(common.embedding.is_none());
    assert!(common.tags.is_empty());
    assert!(common.metadata.is_empty());
    assert_eq!(common.agent_id, agent);
    assert_eq!(version_nibble(common.id.0), 7);
    assert_eq!(variant_bits(common.id.0), 2);
    assert!(common.valid_from_ns.is_none());
    assert!(common.valid_until_ns.is_none());
}

#[test]
fn common_builders_set_their_fields() {
    let common = direct_common(AgentId::new())
        .with_confidence(0.9f64.to_bits())
        .with_tag("work")
        .with_tags(vec!["rust", "verus"])
        .with_metadata("source", "\"chat\"")
        .with_metadata("source", "\"email\"")
        .with_metadata("turn", "3")
        .with_embedding(Embedding::new(vec![1.0f32.to_bits(), 2.0f32.to_bits()]));
    assert_eq!(f64::from_bits(common.confidence), 0.9);
    assert_eq!(common.tags, vec!["work".to_string(), "rust".to_string(), "verus".to_string()]);
    assert_eq!(
        common.metadata,
        vec![
            ("source".to_string(), "\"email\"".to_string()),
            ("turn".to_string(), "3".to_string())
        ]
    );
    assert_eq!(common.embedding.map(|e| e.dimension()), Some(2));
}

#[test]
fn validity_window_is_half_open() {
    let common = direct_common(AgentId::new()).with_valid_from(100).with_valid_until(200);
    assert!(!common.was_valid_at(99));
    assert!(common.was_valid_at(100));
    assert!(common.was_valid_at(199));
    assert!(!common.was_valid_at(200));
    assert!(!common.was_valid_at(250));

    let open = direct_common(AgentId::new());
    assert!(open.was_valid_at(-5));
    assert!(open.was_valid_at(i128::MAX));
}

#[test]
fn invalidated_memory_is_no_longer_valid() {
    let mut common = direct_common(AgentId::new());
    assert!(common.is_valid());
    common.invalidate();
    let end = common.valid_until_ns.expect("invalidate sets an end");
    assert!(end > 0);
    assert!(!common.is_valid());
    assert!(!common.was_valid_at(end));
    assert!(common.was_valid_at(end - 1));

    let ended_long_ago = direct_common(AgentId::new()).with_valid_until(1);
    assert!(!ended_long_ago.is_valid());
    let ends_far_ahead = direct_common(AgentId::new()).with_valid_until(i128::MAX);
    assert!(ends_far_ahead.is_valid());
}

#[test]
fn increment_version_adds_one() {
    let mut common = direct_common(AgentId::new());
    common.increment_version();
    common.increment_version();
    assert_eq!(common.version, 3);
}

#[test]
fn instant_combines_seconds_and_nanoseconds() {
    assert_eq!(instant_ns(0, 0), 0);
    assert_eq!(instant_ns(1, 500), 1_000_000_500);
    assert_eq!(instant_ns(1_700_000_000, 123_456_789), 1_700_000_000_123_456_789);
    assert_eq!(instant_ns(-1, 999_999_999), -1);
}

#[test]
fn audit_entry_ids_are_random_uuids() {
    let entry = AuditEntry::retrieval_decision("query", 3);
    assert_eq!(version_nibble(entry.id), 4);
    assert_eq!(variant_bits(entry.id), 2);
    assert!(entry.timestamp_ns > 0);
    assert!(entry.memory_type.is_none());
    assert!(entry.agent_id.is_none());
    assert!(entry.duration_ms.is_none());
    assert!(entry.metadata.is_none());

    let rejection = AuditEntry::rejection(MemoryId::new(), "too short");
    assert!(rejection.memory_type.is_none());
    assert!(rejection.agent_id.is_none());
    assert!(rejection.duration_ms.is_none());
    assert!(rejection.metadata.is_none());
}

#[test]
fn error_codes_depend_on_the_variant_only() {
    let a = Error::Storage("disk full".to_string());
    let b = Error::Storage("another message".to_string());
    assert_eq!(a.error_code(), b.error_code());
    let c = Error::Serialization("disk full".to_string());
    assert_ne!(a.error_code(), c.error_code());
    let d = Error::RateLimited { retry_after_secs: 1 };
    let e = Error::RateLimited { retry_after_secs: 60 };
    assert_eq!(d.error_code(), e.error_code());
    for code in [a.error_code(), c.error_code(), d.error_code()] {
        assert!(!code.is_empty());
        assert!(code.chars().all(|ch| ch.is_ascii_uppercase() || ch == '_'));
    }
}

#[test]
fn openai_embedding_needs_a_key() {
    assert!(embedding_setup(&EmbeddingConfig::openai("text-embedding-3-small")).is_none());
    let keyed = EmbeddingConfig::openai("text-embedding-3-small").with_api_key("sk-test");
    let chosen = embedding_setup(&keyed).expect("a keyed openai provider is set up");
    assert_eq!(chosen.provider, "openai");
    assert_eq!(chosen.api_key, Some("sk-test".to_string()));
    assert_eq!(chosen.base_url, None);
}

#[test]
fn ollama_embedding_defaults_to_local_address() {
    let mut config = EmbeddingConfig::openai("nomic-embed-text");
    config.provider = "ollama".to_string();
    let chosen = embedding_setup(&config).expect("ollama needs no key");
    assert_eq!(chosen.base_url, Some("http://localhost:11434/v1".to_string()));
    assert_eq!(chosen.model, "nomic-embed-text");

    config.base_url = Some("http://gpu-box:11434/v1".to_string());
    let chosen = embedding_setup(&config).expect("ollama needs no key");
    assert_eq!(chosen.base_url, Some("http://gpu-box:11434/v1".to_string()));
}

#[test]
fn other_embedding_providers_are_not_set_up() {
    let config = EmbeddingConfig::cohere("embed-english-v3.0").with_api_key("key");
    assert!(embedding_setup(&config).is_none());
}

#[test]
fn service_endpoints_fall_back_to_the_embedding() {
    let own = fallback_endpoint(
        Some("own-key".to_string()),
        Some("http://own".to_string()),
        "openai",
        Some("emb-key".to_string()),
        Some("http://emb".to_string()),
    );
    assert_eq!(own, (Some("own-key".to_string()), Some("http://own".to_string())));

    let borrowed = fallback_endpoint(None, None, "openai", Some("emb-key".to_string()), Some("http://emb".to_string()));
    assert_eq!(borrowed, (Some("emb-key".to_string()), Some("http://emb".to_string())));

    let local = fallback_endpoint(None, None, "ollama", None, None);
    assert_eq!(local, (None, Some("http://localhost:11434/v1".to_string())));

    let none = fallback_endpoint(None, None, "openai", None, None);
    assert_eq!(none, (None, None));
}

#[test]
fn distillation_defaults() {
    let config = membrain::distillation::DistillationConfig::default();
    assert_eq!(config.min_age_hours, 24);
    assert_eq!(config.min_mentions, 2);
    assert_eq!(f64::from_bits(config.confidence_threshold), 0.6);
}

#[test]
fn record_access_updates_provenance() {
    let agent = AgentId::new();
    let mut common = direct_common(agent);
    assert_eq!(common.provenance.access_count, 0);
    assert_eq!(common.provenance.agent_id, agent);
    assert!(common.provenance.derived_from.is_empty());
    assert!(matches!(&common.provenance.source, Source::UserInput { input } if input == "test"));
    common.record_access();
    common.record_access();
    assert_eq!(common.provenance.access_count, 2);
    assert!(common.provenance.last_accessed_ms >= common.provenance.created_at_ms);
    assert_eq!(common.version, 1);
}
