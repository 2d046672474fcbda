//! Search queries and their filters, search modes, how a result was
//! matched, and the kinds of facts extracted from memories. Times are
//! milliseconds since the Unix epoch; a confidence or score is held as the
//! IEEE-754 bit pattern of its `f64` value; metadata values are JSON texts.

use vstd::prelude::*;

use crate::embedding::Embedding;
use crate::entries::{lookup, set_entry};
use crate::ids::{AgentId, MemoryId};
use crate::memory_type::MemoryType;
use crate::text::{owned, str_eq};

verus! {

/// Search mode.
#[derive(Debug, Clone, Copy, PartialEq, Eq, Structural)]
pub enum SearchMode {
    /// Vector similarity search only
    Vector,
    /// Full-text search only
    Text,
    /// Combined vector and text search
    Hybrid,
}

impl Default for SearchMode {
    fn default() -> (r: Self)
        ensures
            r == SearchMode::Hybrid,
    {
        SearchMode::Hybrid
    }
}

/// How a search result was matched.
#[derive(Debug, Clone, Copy, PartialEq, Eq, Structural)]
pub enum MatchType {
    /// Matched by vector similarity
    Vector,
    /// Matched by text search
    Text,
    /// Matched by both
    Hybrid,
    /// Exact ID match
    Exact,
}

/// The type of fact extracted from a memory.
#[derive(Debug, Clone, Copy, PartialEq, Eq, Structural)]
pub enum ExtractedFactType {
    /// A concrete, verifiable statement
    Fact,
    /// A preference or opinion held by someone
    Preference,
    /// An event tied to a specific time
    TemporalEvent,
    /// A relationship between two entities
    Relationship,
}

/// The snake_case name of an extracted fact type, as replies write it.
pub open spec fn fact_type_name(t: ExtractedFactType) -> Seq<char> {
    match t {
        ExtractedFactType::Fact => "fact"@,
        ExtractedFactType::Preference => "preference"@,
        ExtractedFactType::TemporalEvent => "temporal_event"@,
        ExtractedFactType::Relationship => "relationship"@,
    }
}

/// The extracted fact type a reply names, if any.
pub open spec fn fact_type_named(s: Seq<char>) -> Option<ExtractedFactType> {
    if s == "fact"@ {
        Some(ExtractedFactType::Fact)
    } else if s == "preference"@ {
        Some(ExtractedFactType::Preference)
    } else if s == "temporal_event"@ {
        Some(ExtractedFactType::TemporalEvent)
    } else if s == "relationship"@ {
        Some(ExtractedFactType::Relationship)
    } else {
        None
    }
}

impl ExtractedFactType {
    /// The snake_case name of this fact type.
    pub fn name(&self) -> (r: &'static str)
        ensures
            r@ == fact_type_name(*self),
    {
        match self {
            ExtractedFactType::Fact => "fact",
            ExtractedFactType::Preference => "preference",
            ExtractedFactType::TemporalEvent => "temporal_event",
            ExtractedFactType::Relationship => "relationship",
        }
    }

    /// The fact type a reply names; `None` for any other text.
    pub fn from_name(s: &str) -> (r: Option<ExtractedFactType>)
        ensures
            r == fact_type_named(s@),
    {
        if str_eq(s, "fact") {
            Some(ExtractedFactType::Fact)
        } else if str_eq(s, "preference") {
            Some(ExtractedFactType::Preference)
        } else if str_eq(s, "temporal_event") {
            Some(ExtractedFactType::TemporalEvent)
        } else if str_eq(s, "relationship") {
            Some(ExtractedFactType::Relationship)
        } else {
            None
        }
    }
}

/// Reading back the name of a fact type gives that type again.
pub proof fn lemma_fact_type_name_round_trip(t: ExtractedFactType)
    ensures
        fact_type_named(fact_type_name(t)) == Some(t),
{
    reveal_strlit("fact");
    reveal_strlit("preference");
    reveal_strlit("temporal_event");
    reveal_strlit("relationship");
    assert("preference"@.len() != "fact"@.len());
    assert("temporal_event"@.len() != "fact"@.len());
    assert("temporal_event"@.len() != "preference"@.len());
    assert("relationship"@.len() != "fact"@.len());
    assert("relationship"@.len() != "preference"@.len());
    assert("relationship"@.len() != "temporal_event"@.len());
}

/// Search filters; a filter that is `None` does not restrict.
#[derive(Debug, Clone)]
pub struct SearchFilters {
    /// Filter by memory types
    pub memory_types: Option<Vec<MemoryType>>,
    /// Filter by minimum confidence (an `f64` bit pattern)
    pub min_confidence: Option<u64>,
    /// Filter by agent IDs
    pub agent_ids: Option<Vec<AgentId>>,
    /// Filter by tags (any match)
    pub tags: Option<Vec<String>>,
    /// Filter by required tags (all must match)
    pub required_tags: Option<Vec<String>>,
    /// Created after this time
    pub created_after_ms: Option<i64>,
    /// Created before this time
    pub created_before_ms: Option<i64>,
    /// Last accessed after this time
    pub accessed_after_ms: Option<i64>,
    /// Metadata key/value pairs that must all match (values as JSON texts)
    pub metadata: Option<Vec<(String, String)>>,
    /// Exclude specific memory IDs
    pub exclude_ids: Option<Vec<MemoryId>>,
    /// Facts valid at this time: valid_from <= T and (no valid_until or valid_until > T)
    pub valid_at_ms: Option<i64>,
    /// Facts known to the system at this time: created_at <= T
    pub known_at_ms: Option<i64>,
    /// Exclude memories whose validity has ended
    pub exclude_invalidated: Option<bool>,
}

/// Filters that restrict nothing.
pub open spec fn no_filters(f: SearchFilters) -> bool {
    &&& f.memory_types is None
    &&& f.min_confidence is None
    &&& f.agent_ids is None
    &&& f.tags is None
    &&& f.required_tags is None
    &&& f.created_after_ms is None
    &&& f.created_before_ms is None
    &&& f.accessed_after_ms is None
    &&& f.metadata is None
    &&& f.exclude_ids is None
    &&& f.valid_at_ms is None
    &&& f.known_at_ms is None
    &&& f.exclude_invalidated is None
}

/// The metadata value a filter requires for a key, if any.
pub open spec fn metadata_value(f: SearchFilters, k: Seq<char>) -> Option<Seq<char>> {
    match f.metadata {
        Some(m) => lookup(m@, k),
        None => None,
    }
}

impl Default for SearchFilters {
    fn default() -> (r: Self)
        ensures
            no_filters(r),
    {
        SearchFilters {
            memory_types: None,
            min_confidence: None,
            agent_ids: None,
            tags: None,
            required_tags: None,
            created_after_ms: None,
            created_before_ms: None,
            accessed_after_ms: None,
            metadata: None,
            exclude_ids: None,
            valid_at_ms: None,
            known_at_ms: None,
            exclude_invalidated: None,
        }
    }
}

impl SearchFilters {
    /// Create new empty filters.
    pub fn new() -> (r: Self)
        ensures
            no_filters(r),
    {
        Self::default()
    }

    /// Filter by memory types.
    pub fn with_types(self, types: Vec<MemoryType>) -> (r: Self)
        ensures
            r == (SearchFilters { memory_types: Some(types), ..self }),
    {
        SearchFilters { memory_types: Some(types), ..self }
    }

    /// Filter by minimum confidence (an `f64` bit pattern).
    pub fn with_min_confidence(self, confidence: u64) -> (r: Self)
        ensures
            r == (SearchFilters { min_confidence: Some(confidence), ..self }),
    {
        SearchFilters { min_confidence: Some(confidence), ..self }
    }

    /// Filter by agent IDs.
    pub fn with_agents(self, agents: Vec<AgentId>) -> (r: Self)
        ensures
            r == (SearchFilters { agent_ids: Some(agents), ..self }),
    {
        SearchFilters { agent_ids: Some(agents), ..self }
    }

    /// Filter by tags.
    pub fn with_tags(self, tags: Vec<String>) -> (r: Self)
        ensures
            r == (SearchFilters { tags: Some(tags), ..self }),
    {
        SearchFilters { tags: Some(tags), ..self }
    }

    /// Filter by a creation time range.
    pub fn created_between(self, after_ms: i64, before_ms: i64) -> (r: Self)
        ensures
            r == (SearchFilters {
                created_after_ms: Some(after_ms),
                created_before_ms: Some(before_ms),
                ..self
            }),
    {
        SearchFilters { created_after_ms: Some(after_ms), created_before_ms: Some(before_ms), ..self }
    }

    /// Exclude specific IDs.
    pub fn exclude(self, ids: Vec<MemoryId>) -> (r: Self)
        ensures
            r == (SearchFilters { exclude_ids: Some(ids), ..self }),
    {
        SearchFilters { exclude_ids: Some(ids), ..self }
    }

    /// Filter by metadata key/value pairs (all must match).
    pub fn with_metadata(self, metadata: Vec<(String, String)>) -> (r: Self)
        ensures
            r == (SearchFilters { metadata: Some(metadata), ..self }),
    {
        SearchFilters { metadata: Some(metadata), ..self }
    }

    /// Add one metadata key/value filter; a value already required for the
    /// key is replaced.
    pub fn with_metadata_entry(self, key: &str, value: &str) -> (r: Self)
        ensures
            r == (SearchFilters { metadata: r.metadata, ..self }),
            r.metadata is Some,
            forall|k: Seq<char>|
                metadata_value(r, k) == (if k == key@ {
                    Some(value@)
                } else {
                    metadata_value(self, k)
                }),
    {
        let mut entries = match self.metadata {
            Some(m) => m,
            None => Vec::new(),
        };
        set_entry(&mut entries, owned(key), owned(value));
        SearchFilters { metadata: Some(entries), ..self }
    }

    /// Filter for facts valid at a point in time.
    pub fn valid_at(self, at_ms: i64) -> (r: Self)
        ensures
            r == (SearchFilters { valid_at_ms: Some(at_ms), ..self }),
    {
        SearchFilters { valid_at_ms: Some(at_ms), ..self }
    }

    /// Filter for facts known to the system at a point in time.
    pub fn known_at(self, at_ms: i64) -> (r: Self)
        ensures
            r == (SearchFilters { known_at_ms: Some(at_ms), ..self }),
    {
        SearchFilters { known_at_ms: Some(at_ms), ..self }
    }

    /// Exclude memories whose validity has ended.
    pub fn exclude_invalidated(self) -> (r: Self)
        ensures
            r == (SearchFilters { exclude_invalidated: Some(true), ..self }),
    {
        SearchFilters { exclude_invalidated: Some(true), ..self }
    }
}

/// Search query parameters.
#[derive(Debug, Clone)]
pub struct SearchQuery {
    /// Text query for semantic/keyword search
    pub query: Option<String>,
    /// Vector for similarity search
    pub embedding: Option<Embedding>,
    /// Filters to apply
    pub filters: SearchFilters,
    /// Maximum number of results
    pub limit: usize,
    /// Offset for pagination
    pub offset: usize,
    /// Minimum similarity score (an `f64` bit pattern)
    pub min_score: Option<u64>,
    /// Search mode
    pub mode: SearchMode,
}

impl Default for SearchQuery {
    fn default() -> (r: Self)
        ensures
            r.query is None,
            r.embedding is None,
            no_filters(r.filters),
            r.limit == 0,
            r.offset == 0,
            r.min_score is None,
            r.mode == SearchMode::Hybrid,
    {
        SearchQuery {
            query: None,
            embedding: None,
            filters: SearchFilters::default(),
            limit: 0,
            offset: 0,
            min_score: None,
            mode: SearchMode::default(),
        }
    }
}

impl SearchQuery {
    /// Create a new search query returning at most ten results.
    pub fn new() -> (r: Self)
        ensures
            r.query is None,
            r.embedding is None,
            no_filters(r.filters),
            r.limit == 10,
            r.offset == 0,
            r.min_score is None,
            r.mode == SearchMode::Hybrid,
    {
        SearchQuery { limit: 10, ..Self::default() }
    }

    /// Set the text query.
    pub fn with_query(self, query: &str) -> (r: Self)
        ensures
            r == (SearchQuery { query: r.query, ..self }),
            r.query matches Some(q) && q@ == query@,
    {
        SearchQuery { query: Some(owned(query)), ..self }
    }

    /// Set the embedding for vector search.
    pub fn with_embedding(self, embedding: Embedding) -> (r: Self)
        ensures
            r == (SearchQuery { embedding: Some(embedding), ..self }),
    {
        SearchQuery { embedding: Some(embedding), ..self }
    }

    /// Set filters.
    pub fn with_filters(self, filters: SearchFilters) -> (r: Self)
        ensures
            r == (SearchQuery { filters, ..self }),
    {
        SearchQuery { filters, ..self }
    }

    /// Set limit.
    pub fn with_limit(self, limit: usize) -> (r: Self)
        ensures
            r == (SearchQuery { limit, ..self }),
    {
        SearchQuery { limit, ..self }
    }

    /// Set offset.
    pub fn with_offset(self, offset: usize) -> (r: Self)
        ensures
            r == (SearchQuery { offset, ..self }),
    {
        SearchQuery { offset, ..self }
    }

    /// Set search mode.
    pub fn with_mode(self, mode: SearchMode) -> (r: Self)
        ensures
            r == (SearchQuery { mode, ..self }),
    {
        SearchQuery { mode, ..self }
    }
}

} // verus!
