use membrain::audit::{AuditEntry, AuditEntryType, AuditLog, DecisionContext, DecisionOutcome};
use membrain::config::AuditConfig;
use membrain::ids::MemoryId;
use membrain::memory_type::MemoryType;
use membrain::metrics::{sorted_samples, total_of, Metrics};

#[test]
fn test_audit_log_basic() {
    let mut log = AuditLog::default();

    let entry = AuditEntry::new(AuditEntryType::StorageDecision, DecisionOutcome::Stored);
    log.log(entry);

    assert_eq!(log.len(), 1);
}

#[test]
fn test_audit_log_disabled() {
    let config = AuditConfig { enabled: false, ..Default::default() };
    let mut log = AuditLog::new(config);

    let entry = AuditEntry::new(AuditEntryType::StorageDecision, DecisionOutcome::Stored);
    log.log(entry);

    assert!(log.is_empty());
}

#[test]
fn test_audit_entry_builders() {
    let memory_id = MemoryId::new();

    let entry = AuditEntry::storage_decision(memory_id, MemoryType::SemanticFact, DecisionOutcome::Stored)
        .with_context(
            DecisionContext::new()
                .with_salience(0.8f64.to_bits())
                .with_novelty(0.9f64.to_bits())
                .with_policy("default"),
        )
        .with_duration_ms(15);

    assert_eq!(entry.memory_id, Some(memory_id));
    assert_eq!(entry.context.salience_score, Some(0.8f64.to_bits()));
    assert_eq!(entry.duration_ms, Some(15));
}

#[test]
fn test_audit_log_filtering() {
    let mut log = AuditLog::default();
    let memory_id = MemoryId::new();

    log.log(
        AuditEntry::new(AuditEntryType::StorageDecision, DecisionOutcome::Stored).with_memory_id(memory_id),
    );
    log.log(AuditEntry::new(AuditEntryType::RetrievalDecision, DecisionOutcome::Retrieved { count: 5 }));

    let storage_entries = log.by_type(AuditEntryType::StorageDecision);
    assert_eq!(storage_entries.len(), 1);

    let memory_entries = log.for_memory(&memory_id);
    assert_eq!(memory_entries.len(), 1);
}

#[test]
fn test_audit_log_max_entries() {
    let config = AuditConfig::default();
    let mut log = AuditLog::with_max_entries(config, 5);

    for _ in 0..10 {
        log.log(AuditEntry::new(AuditEntryType::StorageDecision, DecisionOutcome::Stored));
    }

    assert_eq!(log.len(), 5);
}

#[test]
fn test_decision_context() {
    let ctx = DecisionContext::new()
        .with_salience(0.7f64.to_bits())
        .with_novelty(0.8f64.to_bits())
        .with_max_similarity(0.3f64.to_bits())
        .with_policy("salience_check")
        .with_notes("Passed threshold");

    assert_eq!(ctx.salience_score, Some(0.7f64.to_bits()));
    assert_eq!(ctx.novelty_score, Some(0.8f64.to_bits()));
    assert_eq!(ctx.policy, Some("salience_check".to_string()));
}

#[test]
fn audit_log_keeps_the_newest_entries() {
    let mut log = AuditLog::with_max_entries(AuditConfig::default(), 3);
    for count in 0..6usize {
        log.log(AuditEntry::new(
            AuditEntryType::RetrievalDecision,
            DecisionOutcome::Retrieved { count },
        ));
    }
    let kept: Vec<usize> = log
        .all()
        .iter()
        .map(|e| match e.outcome {
            DecisionOutcome::Retrieved { count } => count,
            _ => usize::MAX,
        })
        .collect();
    assert_eq!(kept, vec![3, 4, 5]);
    let newest: Vec<usize> = log
        .recent(2)
        .iter()
        .map(|e| match e.outcome {
            DecisionOutcome::Retrieved { count } => count,
            _ => usize::MAX,
        })
        .collect();
    assert_eq!(newest, vec![5, 4]);
}

#[test]
fn audit_log_respects_the_category_switches() {
    let config = AuditConfig { log_retrieval: false, ..Default::default() };
    let mut log = AuditLog::new(config);
    log.log_retrieval(AuditEntry::retrieval_decision("query", 3));
    assert!(log.is_empty());
    log.log_storage(AuditEntry::new(AuditEntryType::StorageDecision, DecisionOutcome::Stored));
    log.log_rejection(AuditEntry::rejection(MemoryId::new(), "too short"));
    assert_eq!(log.len(), 2);
    log.clear();
    assert!(log.is_empty());
}

#[test]
fn audit_log_time_range_is_inclusive() {
    let mut log = AuditLog::default();
    let mut entry = AuditEntry::new(AuditEntryType::Decay, DecisionOutcome::Stored);
    entry.timestamp_ns = 1_000;
    log.log(entry);
    let mut later = AuditEntry::new(AuditEntryType::Decay, DecisionOutcome::Stored);
    later.timestamp_ns = 2_000;
    log.log(later);
    assert_eq!(log.in_range(1_000, 1_999).len(), 1);
    assert_eq!(log.in_range(1_000, 2_000).len(), 2);
    assert_eq!(log.in_range(2_001, 3_000).len(), 0);
}

#[test]
fn test_counters() {
    let mut metrics = Metrics::new();

    metrics.increment("test.counter");
    assert_eq!(metrics.get_counter("test.counter"), 1);

    metrics.increment_by("test.counter", 5);
    assert_eq!(metrics.get_counter("test.counter"), 6);
}

#[test]
fn test_timings() {
    let mut metrics = Metrics::new();

    metrics.record_timing("test.op", 10_000);
    metrics.record_timing("test.op", 20_000);
    metrics.record_timing("test.op", 15_000);

    let stats = metrics.timing_summary("test.op").unwrap();
    assert_eq!(stats.count, 3);
    assert!(stats.min_us >= 10000);
    assert!(stats.max_us >= 20000);
}

#[test]
fn timing_summary_orders_the_samples() {
    let mut metrics = Metrics::new();
    for micros in [40u64, 10, 30, 20, 50] {
        metrics.record_timing("op", micros);
    }
    let stats = metrics.timing_summary("op").unwrap();
    assert_eq!(stats.sorted_us, vec![10, 20, 30, 40, 50]);
    assert_eq!(stats.min_us, 10);
    assert_eq!(stats.max_us, 50);
    assert_eq!(stats.p50_us, 30);
    assert_eq!(stats.total_us, 150);
    assert!(metrics.timing_summary("missing").is_none());
}

#[test]
fn sorting_keeps_duplicates() {
    assert_eq!(sorted_samples(&vec![3, 1, 3, 2, 1]), vec![1, 1, 2, 3, 3]);
    assert_eq!(sorted_samples(&vec![]), Vec::<u64>::new());
    assert_eq!(total_of(&vec![u64::MAX, u64::MAX]), 2 * (u64::MAX as u128));
}

#[test]
fn timing_window_keeps_the_newest_samples() {
    let mut metrics = Metrics::new();
    for micros in 0..1005u64 {
        metrics.record_timing("op", micros);
    }
    let samples = metrics.timing_samples("op").unwrap();
    assert_eq!(samples.len(), 1000);
    assert_eq!(samples[0], 5);
    assert_eq!(samples[999], 1004);
}

#[test]
fn test_gauges() {
    let mut metrics = Metrics::new();

    metrics.set_gauge("test.gauge", 1.25f64.to_bits());
    assert!((f64::from_bits(metrics.get_gauge("test.gauge").unwrap()) - 1.25).abs() < 0.01);

    metrics.set_gauge("test.gauge", 2.71f64.to_bits());
    assert!((f64::from_bits(metrics.get_gauge("test.gauge").unwrap()) - 2.71).abs() < 0.01);
}

#[test]
fn test_reset() {
    let mut metrics = Metrics::new();

    metrics.increment("test");
    metrics.set_gauge("test", 1.0f64.to_bits());

    metrics.reset();

    assert_eq!(metrics.get_counter("test"), 0);
    assert!(metrics.get_gauge("test").is_none());
}

#[test]
fn metric_listings_cover_every_name() {
    let mut metrics = Metrics::default();
    metrics.increment("a");
    metrics.increment_by("b", 3);
    metrics.set_gauge("g", 2.0f64.to_bits());
    metrics.record_timing("t1", 5);
    metrics.record_timing("t2", 7);
    let mut counters = metrics.counter_entries();
    counters.sort();
    assert_eq!(counters, vec![("a".to_string(), 1), ("b".to_string(), 3)]);
    assert_eq!(metrics.gauge_entries(), vec![("g".to_string(), 2.0f64.to_bits())]);
    let mut names = metrics.timing_names();
    names.sort();
    assert_eq!(names, vec!["t1".to_string(), "t2".to_string()]);
}
