use membrain::config::StorageConfig;
use membrain::embedding_config::{infer_embedding_dimension, EmbeddingConfig, NoOpEmbeddingProvider};
use membrain::error::{Error, Result};
use membrain::ids::MemoryId;
use membrain::memory_type::{MemoryCategory, MemoryType};
use membrain::semantic::{ConceptMemory, FactMemory, PreferenceMemory, PreferenceStrength};

#[test]
fn storage_config_helpers() {
    let sqlite = StorageConfig::sqlite("test.db");
    assert_eq!(sqlite.backend, "sqlite");
    assert_eq!(sqlite.path, Some("test.db".to_string()));

    let memory = StorageConfig::memory();
    assert_eq!(memory.backend, "memory");

    let postgres = StorageConfig::postgres("postgresql://localhost/test");
    assert_eq!(postgres.backend, "postgres");
    assert!(postgres.connection_string.is_some());
}

#[test]
fn storage_config_constructors_set_backend_field() {
    assert_eq!(StorageConfig::memscaledb("/tmp/db").backend, "memscaledb");
    assert_eq!(StorageConfig::sqlite("/tmp/db.sqlite").backend, "sqlite");
    assert_eq!(StorageConfig::memory().backend, "memory");
    assert_eq!(StorageConfig::postgres("postgres://localhost/db").backend, "postgres");
}

#[test]
fn memory_type_categories() {
    assert_eq!(MemoryType::EpisodicConversation.category(), MemoryCategory::Episodic);
    assert_eq!(MemoryType::SemanticFact.category(), MemoryCategory::Semantic);
    assert_eq!(MemoryType::ProceduralWorkflow.category(), MemoryCategory::Procedural);
    assert_eq!(MemoryType::AgentStateGoal.category(), MemoryCategory::AgentState);
}

#[test]
fn fact_memory_creation() {
    let fact = FactMemory::with_triple(
        "The Eiffel Tower is in Paris",
        "Eiffel Tower",
        "located in",
        "Paris",
    );

    assert_eq!(fact.subject, Some("Eiffel Tower".to_string()));
    assert!(fact.text_content().contains("Eiffel Tower"));
}

#[test]
fn preference_memory_creation() {
    let pref = PreferenceMemory::new("user", "theme", "dark mode")
        .with_strength(PreferenceStrength::Strong)
        .with_reason("easier on the eyes");

    let text = pref.text_content();
    assert!(text.contains("strongly prefers"));
    assert!(text.contains("dark mode"));
    assert!(text.contains("easier on the eyes"));
}

#[test]
fn concept_memory_creation() {
    let concept = ConceptMemory::new("Machine Learning", "A subset of AI that learns from data")
        .with_examples(vec!["neural networks", "decision trees"])
        .with_related(vec!["artificial intelligence", "deep learning"])
        .with_domain("computer science");

    let text = concept.text_content();
    assert!(text.contains("Machine Learning"));
    assert!(text.contains("neural networks"));
}

#[test]
fn embedding_config_builders() {
    let openai = EmbeddingConfig::openai("text-embedding-3-small")
        .with_api_key("sk-test")
        .with_batch_size(50);

    assert_eq!(openai.provider, "openai");
    assert_eq!(openai.batch_size, 50);
    assert!(openai.api_key.is_some());

    let local = EmbeddingConfig::local("http://localhost:8080", "bge-base");
    assert_eq!(local.provider, "local");
    assert!(local.base_url.is_some());
}

#[test]
fn result_alias_usable_in_function_signature() {
    fn ok() -> Result<u8> {
        Ok(7)
    }
    assert_eq!(ok().expect("ok"), 7);
}

#[test]
fn error_codes_for_sample_variants() {
    assert_eq!(Error::InvalidConfidence(0).error_code(), "INVALID_CONFIDENCE");
    assert_eq!(Error::MemoryNotFound(MemoryId::from_u128(1)).error_code(), "MEMORY_NOT_FOUND");
    assert_eq!(Error::Storage("disk".into()).error_code(), "STORAGE_ERROR");
    assert_eq!(Error::Cancelled.error_code(), "CANCELLED");
    assert_eq!(Error::Timeout(1).error_code(), "TIMEOUT");
}

#[test]
fn retryable_errors_are_the_transient_ones() {
    assert!(Error::RateLimited { retry_after_secs: 1 }.is_retryable());
    assert!(Error::DatabaseConnection("db down".into()).is_retryable());
    assert!(Error::Timeout(1).is_retryable());
    assert!(Error::WriteConflict(MemoryId::from_u128(3)).is_retryable());
    assert!(!Error::Rejected { reason: "validation".into() }.is_retryable());
}

#[test]
fn inferred_dimensions_of_known_models() {
    assert_eq!(infer_embedding_dimension("text-embedding-3-large"), 3072);
    assert_eq!(infer_embedding_dimension("all-minilm:l6-v2"), 384);
    assert_eq!(infer_embedding_dimension("nomic-embed-text"), 768);
    assert_eq!(infer_embedding_dimension("something-else"), 1536);
    assert_eq!(NoOpEmbeddingProvider::default().dimension(), 1536);
}
