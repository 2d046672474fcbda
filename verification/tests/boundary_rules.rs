use membrain::config::StorageConfig;
use membrain::decay::{default_decay_schedule, DecaySchedule, SECS_PER_DAY};
use membrain::distillation::{extract_from_memory, extraction_plan, DistillationConfig, DistilledKind};
use membrain::episodic::{EpisodicContent, EpisodicMemory};
use membrain::memory::{Memory, MemoryCommon};
use membrain::semantic::{PreferenceStrength, SemanticContent, SemanticMemory};
use membrain::embedding::Embedding;
use membrain::embedding_config::EmbeddingConfig;
use membrain::episodic::{ConversationMemory, Message};
use membrain::error::Error;
use membrain::ffi::{
    check_slice, slice_fault, MEMBRAIN_ERR_MISALIGNED, MEMBRAIN_ERR_NULL_POINTER, MEMBRAIN_ERR_OVERFLOW,
};
use membrain::ids::{AgentId, MemoryId, SessionId};
use membrain::memory_type::MemoryType;
use membrain::provenance::{DerivationType, Provenance, Source};

fn direct_common(agent: AgentId) -> MemoryCommon {
    MemoryCommon::new(agent, Provenance::new_direct(Source::user_input("test"), agent))
}


const F32_SIZE: usize = std::mem::size_of::<f32>();
const F32_ALIGN: usize = std::mem::align_of::<f32>();

#[test]
fn rejects_null() {
    let err = check_slice(0, 4, F32_SIZE, F32_ALIGN).unwrap_err();
    assert_eq!(err, MEMBRAIN_ERR_NULL_POINTER);
}

#[test]
fn rejects_misaligned() {
    let buf = [0f32; 4];
    let misaligned = buf.as_ptr() as usize + 1;
    let err = check_slice(misaligned, 2, F32_SIZE, F32_ALIGN).unwrap_err();
    assert_eq!(err, MEMBRAIN_ERR_MISALIGNED);
}

#[test]
fn rejects_overflow() {
    let buf = [0f32; 4];
    let err = check_slice(buf.as_ptr() as usize, usize::MAX, F32_SIZE, F32_ALIGN).unwrap_err();
    assert_eq!(err, MEMBRAIN_ERR_OVERFLOW);
}

#[test]
fn accepts_valid() {
    let buf = [1.0f32, 2.0, 3.0, 4.0];
    assert_eq!(check_slice(buf.as_ptr() as usize, 4, F32_SIZE, F32_ALIGN), Ok(()));
}

#[test]
fn slice_checks_come_in_order() {
    // A null pointer is reported before an overflowing length, and an
    // overflowing length before misalignment.
    assert_eq!(check_slice(0, usize::MAX, 4, 4), Err(MEMBRAIN_ERR_NULL_POINTER));
    assert_eq!(check_slice(3, usize::MAX, 4, 4), Err(MEMBRAIN_ERR_OVERFLOW));
    assert_eq!(check_slice(3, 1, 4, 4), Err(MEMBRAIN_ERR_MISALIGNED));
    assert_eq!(check_slice(8, 0, 4, 4), Ok(()));
    assert_eq!(slice_fault(MEMBRAIN_ERR_NULL_POINTER), "null pointer");
    assert_eq!(slice_fault(MEMBRAIN_ERR_OVERFLOW), "length * size_of::<T> overflows usize");
    assert_eq!(slice_fault(MEMBRAIN_ERR_MISALIGNED), "pointer misaligned for target type");
}

#[test]
fn memory_id_roundtrip() {
    let id = MemoryId::new();
    let bytes = id.as_bytes();
    let restored = MemoryId::from_bytes(bytes);
    assert_eq!(id, restored);
}

#[test]
fn memory_id_string_roundtrip() {
    let id = MemoryId::new();
    let s = id.to_text();
    let restored = MemoryId::parse(&s).unwrap();
    assert_eq!(id, restored);
}

#[test]
fn memory_id_timestamp() {
    let before = std::time::SystemTime::now().duration_since(std::time::UNIX_EPOCH).unwrap().as_millis() as u64;

    let id = MemoryId::new();
    let ts = id.timestamp_millis().unwrap();

    let after = std::time::SystemTime::now().duration_since(std::time::UNIX_EPOCH).unwrap().as_millis() as u64;

    assert!(ts >= before && ts <= after);
}

#[test]
fn id_bytes_are_big_endian() {
    let id = MemoryId::from_u128(0x0102_0304_0506_0708_090a_0b0c_0d0e_0f10);
    assert_eq!(id.as_bytes(), [1, 2, 3, 4, 5, 6, 7, 8, 9, 10, 11, 12, 13, 14, 15, 16]);
    assert_eq!(AgentId::from_bytes([0xff; 16]).0, u128::MAX);
    assert_eq!(SessionId::from_u128(7).as_bytes()[15], 7);
    assert_eq!(id.timestamp_millis(), Some(0x0102_0304_0506));
}

#[test]
fn id_text_is_hyphenated_lowercase() {
    let id = MemoryId::from_u128(0x67e5_5044_10b1_426f_9247_bb68_0e5f_e0c8);
    assert_eq!(id.to_text(), "67e55044-10b1-426f-9247-bb680e5fe0c8");
    assert_eq!(MemoryId::parse("67E55044-10B1-426F-9247-BB680E5FE0C8"), Some(id));
    assert_eq!(MemoryId::parse("not a uuid"), None);
    let session = SessionId::new();
    assert_eq!(SessionId::parse(&session.to_text()), Some(session));
}

#[test]
fn error_retryable() {
    assert!(Error::RateLimited { retry_after_secs: 60 }.is_retryable());
    assert!(Error::DatabaseConnection("test".into()).is_retryable());
    assert!(Error::Timeout(30).is_retryable());
    assert!(!Error::InvalidConfidence(1.5f64.to_bits()).is_retryable());
}

#[test]
fn error_codes() {
    assert_eq!(Error::InvalidConfidence(1.5f64.to_bits()).error_code(), "INVALID_CONFIDENCE");
    assert_eq!(Error::MemoryNotFound(MemoryId::new()).error_code(), "MEMORY_NOT_FOUND");
}

#[test]
fn error_code_maps_every_major_variant() {
    let sample = [
        (Error::InvalidConfidence(0.5f64.to_bits()), "INVALID_CONFIDENCE"),
        (Error::MemoryNotFound(MemoryId::new()), "MEMORY_NOT_FOUND"),
        (Error::Storage("disk".into()), "STORAGE_ERROR"),
        (Error::Cancelled, "CANCELLED"),
        (Error::Timeout(1), "TIMEOUT"),
    ];
    for (error, code) in sample {
        assert_eq!(error.error_code(), code);
    }
}

#[test]
fn is_retryable_covers_all_transient_variants() {
    assert!(Error::RateLimited { retry_after_secs: 1 }.is_retryable());
    assert!(Error::DatabaseConnection("db down".into()).is_retryable());
    assert!(Error::Timeout(1).is_retryable());
    assert!(Error::WriteConflict(MemoryId::new()).is_retryable());
    assert!(!Error::Rejected { reason: "validation".into() }.is_retryable());
}

#[test]
fn storage_validation_reports_the_first_fault() {
    assert_eq!(StorageConfig::default().validate(), Ok(()));
    let unknown = StorageConfig { backend: "redis".to_string(), ..StorageConfig::default() };
    assert_eq!(
        unknown.validate(),
        Err(Error::InvalidConfigValue {
            key: "storage.backend".to_string(),
            message: "Unknown backend: redis".to_string(),
        })
    );
    let keys = StorageConfig {
        indexed_metadata_keys: vec!["user".to_string(), "".to_string(), "user".to_string()],
        ..StorageConfig::memory()
    };
    assert_eq!(
        keys.validate(),
        Err(Error::InvalidConfigValue {
            key: "storage.indexed_metadata_keys".to_string(),
            message: "Indexed metadata key must not be empty".to_string(),
        })
    );
    let duplicate = StorageConfig {
        indexed_metadata_keys: vec!["user".to_string(), "team".to_string(), "user".to_string()],
        ..StorageConfig::sqlite("x.db")
    };
    assert_eq!(
        duplicate.validate(),
        Err(Error::InvalidConfigValue {
            key: "storage.indexed_metadata_keys".to_string(),
            message: "Duplicate indexed metadata key: user".to_string(),
        })
    );
}

#[test]
fn from_config_works_without_api_key() {
    let config = EmbeddingConfig {
        provider: "ollama".to_string(),
        model: "nomic-embed-text".to_string(),
        api_key: None,
        base_url: Some("http://localhost:11434/v1".to_string()),
        ..Default::default()
    };

    assert!(config.api_key.is_none());
    assert_eq!(config.effective_dimension(), 768);
}

#[test]
fn from_config_sets_dimension() {
    let config = EmbeddingConfig {
        provider: "openai".to_string(),
        model: "text-embedding-3-large".to_string(),
        api_key: Some("sk-test".to_string()),
        ..Default::default()
    };

    assert_eq!(config.effective_dimension(), 3072);
}

#[test]
fn from_config_defaults_to_1536() {
    let config = EmbeddingConfig {
        provider: "openai".to_string(),
        model: "text-embedding-3-small".to_string(),
        api_key: Some("sk-test".to_string()),
        ..Default::default()
    };

    assert_eq!(config.effective_dimension(), 1536);
}

#[test]
fn from_config_custom_base_url() {
    let config = EmbeddingConfig {
        provider: "openai".to_string(),
        model: "text-embedding-3-small".to_string(),
        api_key: Some("sk-test".to_string()),
        base_url: Some("http://localhost:8080/v1".to_string()),
        ..Default::default()
    };

    assert_eq!(config.effective_base_url(), "http://localhost:8080/v1");
    assert_eq!(EmbeddingConfig::default().effective_base_url(), "https://api.openai.com/v1");
}

#[test]
fn from_config_ollama_model_dimensions() {
    let models_and_dims =
        [("nomic-embed-text", 768), ("all-minilm", 384), ("mxbai-embed-large", 1024), ("snowflake-arctic-embed", 1024)];

    for (model, expected_dim) in models_and_dims {
        let config = EmbeddingConfig { provider: "ollama".to_string(), model: model.to_string(), ..Default::default() };

        assert_eq!(config.effective_dimension(), expected_dim, "wrong dimension for {}", model);
    }
}

#[test]
fn from_config_explicit_dimension_overrides_model_default() {
    let config = EmbeddingConfig {
        provider: "ollama".to_string(),
        model: "nomic-embed-text".to_string(),
        dimension: Some(512),
        ..Default::default()
    };

    assert_eq!(config.effective_dimension(), 512);
}

fn create_conversation(text: &str) -> Memory {
    let common = direct_common(AgentId::new()).with_confidence(0.8f64.to_bits());
    let conversation = ConversationMemory::new(SessionId::new(), vec![Message::user(text), Message::assistant("Noted.")]);
    Memory::Episodic(EpisodicMemory { common, content: EpisodicContent::Conversation(conversation) })
}

fn extractions_of(memory: &Memory) -> Vec<Memory> {
    let text = match memory {
        Memory::Episodic(e) => e.text_content(),
        _ => unreachable!(),
    };
    extract_from_memory(&text, memory, DistillationConfig::default().confidence_threshold)
}

#[test]
fn test_extract_preference() {
    let memory = create_conversation("The user prefers dark mode for the IDE");
    let extractions = extractions_of(&memory);

    assert!(!extractions.is_empty());
    assert!(matches!(
        extractions[0],
        Memory::Semantic(SemanticMemory { content: SemanticContent::Preference(_), .. })
    ));
}

#[test]
fn test_extract_fact() {
    let memory = create_conversation("Rust is a systems programming language");
    let extractions = extractions_of(&memory);

    assert!(!extractions.is_empty());
    assert!(matches!(
        extractions[0],
        Memory::Semantic(SemanticMemory { content: SemanticContent::Fact(_), .. })
    ));
}

#[test]
fn test_no_extraction() {
    let memory = create_conversation("Hello, how are you?");
    let extractions = extractions_of(&memory);

    assert!(extractions.is_empty());
}

#[test]
fn distilled_memories_carry_the_source_agent_and_text() {
    let memory = create_conversation("Alice likes tea; tea is a drink");
    let text = match &memory {
        Memory::Episodic(e) => e.text_content(),
        _ => unreachable!(),
    };
    let extractions = extractions_of(&memory);
    assert_eq!(extractions.len(), 2);
    for extracted in &extractions {
        assert_eq!(extracted.common().agent_id, memory.common().agent_id);
        assert_eq!(f64::from_bits(extracted.confidence()), 0.6);
        assert_ne!(extracted.id(), memory.id());
    }
    match &extractions[0] {
        Memory::Semantic(SemanticMemory { content: SemanticContent::Preference(p), .. }) => {
            assert_eq!(p.holder, "user");
            assert_eq!(p.subject, "setting");
            assert_eq!(p.preference, text);
            assert_eq!(p.strength, PreferenceStrength::Moderate);
        }
        _ => panic!("a preference comes first"),
    }
    match &extractions[1] {
        Memory::Semantic(SemanticMemory { content: SemanticContent::Fact(f), .. }) => assert_eq!(f.statement, text),
        _ => panic!("a fact comes second"),
    }
    assert_eq!(extractions[1].memory_type(), MemoryType::SemanticFact);
    for extracted in &extractions {
        let provenance = &extracted.common().provenance;
        assert!(matches!(
            &provenance.source,
            Source::Consolidated { source_count: 1, method } if method == "distillation"
        ));
        assert_eq!(provenance.derived_from.len(), 1);
        assert_eq!(provenance.derived_from[0].source_ids, vec![*memory.id()]);
        assert_eq!(provenance.derived_from[0].derivation_type, DerivationType::Distillation);
        assert_eq!(provenance.agent_id, memory.common().agent_id);
        assert_eq!(provenance.access_count, 0);
    }
}

#[test]
fn default_decay_schedule_table() {
    let week = DecaySchedule { half_life_secs: 7 * SECS_PER_DAY, min_confidence_tenths: 1 };
    assert_eq!(default_decay_schedule(MemoryType::EpisodicConversation), Some(week));
    assert_eq!(
        default_decay_schedule(MemoryType::SemanticFact),
        Some(DecaySchedule { half_life_secs: 90 * 86400, min_confidence_tenths: 2 })
    );
    assert_eq!(
        default_decay_schedule(MemoryType::ProceduralWorkflow),
        Some(DecaySchedule { half_life_secs: 365 * 86400, min_confidence_tenths: 3 })
    );
    assert_eq!(
        default_decay_schedule(MemoryType::AgentStateGoal),
        Some(DecaySchedule { half_life_secs: 365 * 86400, min_confidence_tenths: 0 })
    );
    assert_eq!(default_decay_schedule(MemoryType::SemanticEntity), None);
    assert_eq!(default_decay_schedule(MemoryType::AgentStateTask), None);
}

fn bits(values: &[f32]) -> Vec<u32> {
    values.iter().map(|v| v.to_bits()).collect()
}

fn floats(values: &[u32]) -> Vec<f32> {
    values.iter().map(|b| f32::from_bits(*b)).collect()
}

#[test]
fn embedding_creation() {
    let emb = Embedding::new(bits(&[1.0, 2.0, 3.0]));
    assert_eq!(emb.dimension(), 3);
    assert_eq!(floats(emb.values()), vec![1.0, 2.0, 3.0]);
}

#[test]
fn embedding_dimension_validation() {
    let result = Embedding::with_dimension(bits(&[1.0, 2.0]), 3);
    assert!(result.is_err());

    let result = Embedding::with_dimension(bits(&[1.0, 2.0, 3.0]), 3);
    assert!(result.is_ok());
}

#[test]
fn bytes_roundtrip() {
    let emb = Embedding::new(bits(&[1.5, -2.5, 3.25]));
    let bytes = emb.to_bytes();
    let restored = Embedding::from_bytes(&bytes).unwrap();

    assert_eq!(emb.dimension(), restored.dimension());
    for (a, b) in floats(emb.values()).iter().zip(floats(restored.values()).iter()) {
        assert!((a - b).abs() < 0.0001);
    }
}

#[test]
fn embedding_bytes_are_little_endian_f32() {
    let emb = Embedding::new(bits(&[1.0, -2.5]));
    let mut expected = 1.0f32.to_le_bytes().to_vec();
    expected.extend_from_slice(&(-2.5f32).to_le_bytes());
    assert_eq!(emb.to_bytes(), expected);
    assert_eq!(Embedding::zeros(3).to_bytes(), vec![0u8; 12]);
}

#[test]
fn dimension_mismatch_errors() {
    let a = Embedding::new(bits(&[1.0, 2.0]));
    let b = Embedding::new(bits(&[1.0, 2.0, 3.0]));

    assert_eq!(a.check_same_dimension(&b), Err(Error::EmbeddingDimensionMismatch { expected: 2, actual: 3 }));
    assert_eq!(a.check_same_dimension(&a.clone()), Ok(()));
    assert_eq!(Embedding::common_dimension(&vec![]), Err(Error::EmptyEmbeddingList));
    assert_eq!(
        Embedding::common_dimension(&vec![a.clone(), a.clone(), b.clone()]),
        Err(Error::EmbeddingDimensionMismatch { expected: 2, actual: 3 })
    );
    assert_eq!(Embedding::common_dimension(&vec![a.clone(), a]), Ok(2));
}

#[test]
fn embedding_from_bytes_rejects_odd_length() {
    let bytes = vec![0_u8; 13];
    assert!(Embedding::from_bytes(&bytes).is_err());
    assert_eq!(Embedding::from_bytes(&bytes).unwrap_err(), Error::InvalidEmbeddingBytes);
}

#[test]
fn embedding_with_dimension_rejects_mismatch() {
    let result = Embedding::with_dimension(bits(&[0.0; 4]), 8);
    assert!(result.is_err());
}

#[test]
fn cues_are_found_whatever_the_case() {
    assert_eq!(extraction_plan("Alice LIKES tea; tea IS A drink"), vec![DistilledKind::Preference, DistilledKind::Fact]);
    assert_eq!(extraction_plan("nothing here"), vec![]);
}

#[test]
fn new_ids_are_version_7() {
    for v in [MemoryId::new().0, AgentId::new().0, SessionId::new().0] {
        assert_eq!((v >> 76) & 0xf, 7);
        assert_eq!((v >> 62) & 0x3, 2);
    }
}
