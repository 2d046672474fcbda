use membrain::ids::MemoryId;
use membrain::memory_type::MemoryType;
use membrain::search::{SearchFilters, SearchMode, SearchQuery};

#[test]
fn search_query_builder() {
    let query = SearchQuery::new()
        .with_query("test query")
        .with_limit(20)
        .with_offset(10)
        .with_mode(SearchMode::Hybrid)
        .with_filters(
            SearchFilters::new().with_min_confidence(0.5f64.to_bits()).with_tags(vec!["important".to_string()]),
        );

    assert_eq!(query.query, Some("test query".to_string()));
    assert_eq!(query.limit, 20);
    assert_eq!(query.offset, 10);
    assert_eq!(query.mode, SearchMode::Hybrid);
    assert!(query.filters.min_confidence.is_some());
}

#[test]
fn search_filters_builder() {
    let filters = SearchFilters::new()
        .with_types(vec![MemoryType::SemanticFact])
        .with_min_confidence(0.7f64.to_bits())
        .with_tags(vec!["test".to_string()])
        .exclude(vec![MemoryId::new()]);

    assert!(filters.memory_types.is_some());
    assert!(filters.min_confidence.is_some());
    assert!(filters.exclude_ids.is_some());
}

#[test]
fn search_query_defaults() {
    let query = SearchQuery::new();
    assert_eq!(query.limit, 10);
    assert_eq!(query.offset, 0);
    assert_eq!(query.mode, SearchMode::Hybrid);
    assert!(query.query.is_none() && query.embedding.is_none() && query.min_score.is_none());
    assert_eq!(SearchQuery::default().limit, 0);
}

#[test]
fn metadata_entries_replace_earlier_values() {
    let filters = SearchFilters::new()
        .with_metadata_entry("user_id", "\"alice\"")
        .with_metadata_entry("thread", "7")
        .with_metadata_entry("user_id", "\"bob\"");
    let metadata = filters.metadata.unwrap();
    assert_eq!(metadata.len(), 2);
    assert!(metadata.contains(&("user_id".to_string(), "\"bob\"".to_string())));
    assert!(metadata.contains(&("thread".to_string(), "7".to_string())));
}

#[test]
fn time_filters_are_recorded() {
    let filters = SearchFilters::new().created_between(1_000, 2_000).valid_at(1_500).known_at(1_700).exclude_invalidated();
    assert_eq!(filters.created_after_ms, Some(1_000));
    assert_eq!(filters.created_before_ms, Some(2_000));
    assert_eq!(filters.valid_at_ms, Some(1_500));
    assert_eq!(filters.known_at_ms, Some(1_700));
    assert_eq!(filters.exclude_invalidated, Some(true));
}
