//! Semantic memory content: facts, preferences, concepts and entities, with
//! the text each one is embedded and indexed by.

use vstd::prelude::*;

use crate::clock::now_millis;
use crate::entries::{distinct_keys, lookup, set_entry};
use crate::memory::MemoryCommon;
use crate::text::{extend_owned, join, joined, opt_text, owned, texts};

verus! {

/// `pre + s + post` when the option holds `s`, nothing otherwise.
pub open spec fn optional_part(o: Option<String>, pre: Seq<char>, post: Seq<char>) -> Seq<char> {
    match o {
        Some(s) => pre + s@ + post,
        None => Seq::empty(),
    }
}

/// A factual statement.
#[derive(Debug, Clone)]
pub struct FactMemory {
    /// The factual statement
    pub statement: String,
    /// Subject of the fact (optional structured extraction)
    pub subject: Option<String>,
    /// Predicate/relation
    pub predicate: Option<String>,
    /// Object of the fact
    pub object: Option<String>,
}

impl FactMemory {
    /// Create a new fact memory.
    pub fn new(statement: &str) -> (r: Self)
        ensures
            r.statement@ == statement@,
            r.subject is None,
            r.predicate is None,
            r.object is None,
    {
        FactMemory { statement: owned(statement), subject: None, predicate: None, object: None }
    }

    /// Create with subject-predicate-object triple.
    pub fn with_triple(statement: &str, subject: &str, predicate: &str, object: &str) -> (r: Self)
        ensures
            r.statement@ == statement@,
            opt_text(r.subject) == Some(subject@),
            opt_text(r.predicate) == Some(predicate@),
            opt_text(r.object) == Some(object@),
    {
        FactMemory {
            statement: owned(statement),
            subject: Some(owned(subject)),
            predicate: Some(owned(predicate)),
            object: Some(owned(object)),
        }
    }

    /// Get text content for embedding: the statement itself.
    pub fn text_content(&self) -> (r: String)
        ensures
            r@ == self.statement@,
    {
        self.statement.clone()
    }
}

/// Strength of a preference.
#[derive(Debug, Clone, Copy, PartialEq, Eq, Structural)]
pub enum PreferenceStrength {
    Weak,
    Moderate,
    Strong,
    Absolute,
}

/// The verb phrase a preference of this strength is written with.
pub open spec fn strength_phrase(s: PreferenceStrength) -> Seq<char> {
    match s {
        PreferenceStrength::Weak => "slightly prefers"@,
        PreferenceStrength::Moderate => "prefers"@,
        PreferenceStrength::Strong => "strongly prefers"@,
        PreferenceStrength::Absolute => "always wants"@,
    }
}

/// A preference.
#[derive(Debug, Clone)]
pub struct PreferenceMemory {
    /// Who holds this preference
    pub holder: String,
    /// What the preference is about
    pub subject: String,
    /// The preferred value/option
    pub preference: String,
    /// Strength of preference
    pub strength: PreferenceStrength,
    /// Context in which this preference applies
    pub context: Option<String>,
    /// Alternative that was not preferred
    pub alternative: Option<String>,
    /// Reason for the preference (if known)
    pub reason: Option<String>,
}

/// The text of a preference: "HOLDER PHRASE PREFERENCE for SUBJECT", then
/// " (when CONTEXT)" and " because REASON" when those are known.
pub open spec fn preference_text(p: PreferenceMemory) -> Seq<char> {
    p.holder@ + " "@ + strength_phrase(p.strength) + " "@ + p.preference@ + " for "@ + p.subject@
        + optional_part(p.context, " (when "@, ")"@) + optional_part(p.reason, " because "@, ""@)
}

impl PreferenceMemory {
    /// Create a new preference memory of moderate strength.
    pub fn new(holder: &str, subject: &str, preference: &str) -> (r: Self)
        ensures
            r.holder@ == holder@,
            r.subject@ == subject@,
            r.preference@ == preference@,
            r.strength == PreferenceStrength::Moderate,
            r.context is None,
            r.alternative is None,
            r.reason is None,
    {
        PreferenceMemory {
            holder: owned(holder),
            subject: owned(subject),
            preference: owned(preference),
            strength: PreferenceStrength::Moderate,
            context: None,
            alternative: None,
            reason: None,
        }
    }

    /// Set strength.
    pub fn with_strength(self, strength: PreferenceStrength) -> (r: Self)
        ensures
            r == (PreferenceMemory { strength, ..self }),
    {
        PreferenceMemory { strength, ..self }
    }

    /// Set context.
    pub fn with_context(self, context: &str) -> (r: Self)
        ensures
            r == (PreferenceMemory { context: r.context, ..self }),
            opt_text(r.context) == Some(context@),
    {
        PreferenceMemory { context: Some(owned(context)), ..self }
    }

    /// Set reason.
    pub fn with_reason(self, reason: &str) -> (r: Self)
        ensures
            r == (PreferenceMemory { reason: r.reason, ..self }),
            opt_text(r.reason) == Some(reason@),
    {
        PreferenceMemory { reason: Some(owned(reason)), ..self }
    }

    /// Get text content for embedding.
    pub fn text_content(&self) -> (r: String)
        ensures
            r@ == preference_text(*self),
    {
        let strength_text = match self.strength {
            PreferenceStrength::Weak => "slightly prefers",
            PreferenceStrength::Moderate => "prefers",
            PreferenceStrength::Strong => "strongly prefers",
            PreferenceStrength::Absolute => "always wants",
        };
        let mut text = self.holder.clone();
        text.append(" ");
        text.append(strength_text);
        text.append(" ");
        text.append(self.preference.as_str());
        text.append(" for ");
        text.append(self.subject.as_str());
        let ghost head = text@;
        if let Some(context) = &self.context {
            text.append(" (when ");
            text.append(context.as_str());
            text.append(")");
        }
        assert(text@ == head + optional_part(self.context, " (when "@, ")"@));
        let ghost mid = text@;
        if let Some(reason) = &self.reason {
            text.append(" because ");
            text.append(reason.as_str());
        }
        proof {
            reveal_strlit("");
        }
        assert(text@ =~= mid + optional_part(self.reason, " because "@, ""@));
        text
    }
}

/// A concept definition.
#[derive(Debug, Clone)]
pub struct ConceptMemory {
    /// Name of the concept
    pub name: String,
    /// Definition/description
    pub definition: String,
    /// Examples of the concept
    pub examples: Vec<String>,
    /// Related concepts
    pub related: Vec<String>,
    /// Parent/broader concepts
    pub broader: Vec<String>,
    /// Child/narrower concepts
    pub narrower: Vec<String>,
    /// Domain or category
    pub domain: Option<String>,
}

/// `[line]` when `cond` holds, nothing otherwise.
pub open spec fn line_if(cond: bool, line: Seq<char>) -> Seq<Seq<char>> {
    if cond {
        seq![line]
    } else {
        Seq::empty()
    }
}

/// `[pre + s]` when the option holds `s`, nothing otherwise.
pub open spec fn line_of(o: Option<String>, pre: Seq<char>) -> Seq<Seq<char>> {
    match o {
        Some(s) => seq![pre + s@],
        None => Seq::empty(),
    }
}

/// A labelled comma-separated list line, present only for a non-empty list.
pub open spec fn list_line(label: Seq<char>, items: Seq<String>) -> Seq<Seq<char>> {
    line_if(items.len() > 0, label + joined(texts(items), ", "@))
}

/// The lines describing a concept.
pub open spec fn concept_lines(c: ConceptMemory) -> Seq<Seq<char>> {
    seq!["Concept: "@ + c.name@, "Definition: "@ + c.definition@] + list_line(
        "Examples: "@,
        c.examples@,
    ) + list_line("Related: "@, c.related@) + line_of(c.domain, "Domain: "@)
}

/// Push `label + (items joined by ", ")` when the list is non-empty.
pub fn push_list_line(parts: &mut Vec<String>, label: &str, items: &Vec<String>)
    ensures
        texts(final(parts)@) == texts(old(parts)@) + list_line(label@, items@),
{
    let ghost before = texts(parts@);
    if items.len() > 0 {
        let mut line = owned(label);
        let list = join(items, ", ");
        line.append(list.as_str());
        parts.push(line);
        assert(texts(parts@) =~= before + list_line(label@, items@));
    } else {
        assert(texts(parts@) =~= before + list_line(label@, items@));
    }
}

/// Push `label + s` when the option holds `s`.
pub fn push_optional_line(parts: &mut Vec<String>, label: &str, o: &Option<String>)
    ensures
        texts(final(parts)@) == texts(old(parts)@) + line_of(*o, label@),
{
    let ghost before = texts(parts@);
    if let Some(s) = o {
        let mut line = owned(label);
        line.append(s.as_str());
        parts.push(line);
    }
    assert(texts(parts@) =~= before + line_of(*o, label@));
}

/// Push `label + s`.
pub fn push_line(parts: &mut Vec<String>, label: &str, s: &String)
    ensures
        texts(final(parts)@) == texts(old(parts)@).push(label@ + s@),
{
    let mut line = owned(label);
    line.append(s.as_str());
    parts.push(line);
    assert(texts(parts@) =~= texts(old(parts)@).push(label@ + s@));
}

impl ConceptMemory {
    /// Create a new concept memory.
    pub fn new(name: &str, definition: &str) -> (r: Self)
        ensures
            r.name@ == name@,
            r.definition@ == definition@,
            r.examples@.len() == 0,
            r.related@.len() == 0,
            r.broader@.len() == 0,
            r.narrower@.len() == 0,
            r.domain is None,
    {
        ConceptMemory {
            name: owned(name),
            definition: owned(definition),
            examples: Vec::new(),
            related: Vec::new(),
            broader: Vec::new(),
            narrower: Vec::new(),
            domain: None,
        }
    }

    /// Add examples.
    pub fn with_examples(self, examples: Vec<&str>) -> (r: Self)
        ensures
            r == (ConceptMemory { examples: r.examples, ..self }),
            texts(r.examples@) == texts(self.examples@) + examples@.map_values(|s: &str| s@),
    {
        let mut s = self;
        extend_owned(&mut s.examples, &examples);
        s
    }

    /// Add related concepts.
    pub fn with_related(self, related: Vec<&str>) -> (r: Self)
        ensures
            r == (ConceptMemory { related: r.related, ..self }),
            texts(r.related@) == texts(self.related@) + related@.map_values(|s: &str| s@),
    {
        let mut s = self;
        extend_owned(&mut s.related, &related);
        s
    }

    /// Set domain.
    pub fn with_domain(self, domain: &str) -> (r: Self)
        ensures
            r == (ConceptMemory { domain: r.domain, ..self }),
            opt_text(r.domain) == Some(domain@),
    {
        ConceptMemory { domain: Some(owned(domain)), ..self }
    }

    /// Get text content for embedding: one line each for the name, the
    /// definition, the examples and related concepts (when any) and the
    /// domain (when known).
    pub fn text_content(&self) -> (r: String)
        ensures
            r@ == joined(concept_lines(*self), "\n"@),
    {
        let mut parts: Vec<String> = Vec::new();
        push_line(&mut parts, "Concept: ", &self.name);
        push_line(&mut parts, "Definition: ", &self.definition);
        push_list_line(&mut parts, "Examples: ", &self.examples);
        push_list_line(&mut parts, "Related: ", &self.related);
        push_optional_line(&mut parts, "Domain: ", &self.domain);
        assert(texts(parts@) =~= concept_lines(*self));
        join(&parts, "\n")
    }
}

/// Type of entity.
#[derive(Debug, Clone, Copy, PartialEq, Eq, Structural)]
pub enum EntityType {
    Person,
    Organization,
    Place,
    Product,
    Event,
    Concept,
    Document,
    Technology,
    Other,
}

/// The lower-case name of an entity type.
pub open spec fn entity_type_name(t: EntityType) -> Seq<char> {
    match t {
        EntityType::Person => "person"@,
        EntityType::Organization => "organization"@,
        EntityType::Place => "place"@,
        EntityType::Product => "product"@,
        EntityType::Event => "event"@,
        EntityType::Concept => "concept"@,
        EntityType::Document => "document"@,
        EntityType::Technology => "technology"@,
        EntityType::Other => "other"@,
    }
}

impl EntityType {
    /// The lower-case name of this entity type.
    pub fn name(&self) -> (r: &'static str)
        ensures
            r@ == entity_type_name(*self),
    {
        match self {
            EntityType::Person => "person",
            EntityType::Organization => "organization",
            EntityType::Place => "place",
            EntityType::Product => "product",
            EntityType::Event => "event",
            EntityType::Concept => "concept",
            EntityType::Document => "document",
            EntityType::Technology => "technology",
            EntityType::Other => "other",
        }
    }
}

/// A relationship between entities.
#[derive(Debug, Clone)]
pub struct EntityRelationship {
    /// The type of relationship
    pub relation_type: String,
    /// Target entity name
    pub target_entity: String,
    /// When this relationship was established, in milliseconds since the Unix epoch
    pub established_ms: Option<i64>,
    /// Additional context
    pub context: Option<String>,
}

impl EntityRelationship {
    /// Create a new relationship.
    pub fn new(relation_type: &str, target: &str) -> (r: Self)
        ensures
            r.relation_type@ == relation_type@,
            r.target_entity@ == target@,
            r.established_ms is None,
            r.context is None,
    {
        EntityRelationship {
            relation_type: owned(relation_type),
            target_entity: owned(target),
            established_ms: None,
            context: None,
        }
    }
}

/// An entity (person, place, thing, organization).
#[derive(Debug, Clone)]
pub struct EntityMemory {
    /// Name of the entity
    pub name: String,
    /// Type of entity
    pub entity_type: EntityType,
    /// Description
    pub description: Option<String>,
    /// Aliases/alternative names
    pub aliases: Vec<String>,
    /// Attributes (key-value pairs), one entry per key, in insertion order
    pub attributes: Vec<(String, String)>,
    /// Relationships to other entities
    pub relationships: Vec<EntityRelationship>,
    /// First seen/mentioned, in milliseconds since the Unix epoch
    pub first_seen_ms: i64,
    /// Last seen/mentioned, in milliseconds since the Unix epoch
    pub last_seen_ms: i64,
    /// Mention count
    pub mention_count: u32,
}

/// The line an attribute is shown with: "KEY: VALUE".
pub open spec fn attribute_line(a: (String, String)) -> Seq<char> {
    a.0@ + ": "@ + a.1@
}

/// The line a relationship of `name` is shown with.
pub open spec fn relationship_line(name: Seq<char>, r: EntityRelationship) -> Seq<char> {
    "Relationship: "@ + name + " "@ + r.relation_type@ + " "@ + r.target_entity@
}

/// The lines describing an entity: its name and type, the description and
/// aliases when known, one line per attribute and one per relationship.
pub open spec fn entity_lines(e: EntityMemory) -> Seq<Seq<char>> {
    seq!["Entity: "@ + e.name@ + " ("@ + entity_type_name(e.entity_type) + ")"@] + line_of(
        e.description,
        "Description: "@,
    ) + list_line("Also known as: "@, e.aliases@) + e.attributes@.map_values(
        |a: (String, String)| attribute_line(a),
    ) + e.relationships@.map_values(|r: EntityRelationship| relationship_line(e.name@, r))
}

impl EntityMemory {
    /// Create a new entity memory, first and last seen now, mentioned once.
    pub fn new(name: &str, entity_type: EntityType) -> (r: Self)
        ensures
            r.name@ == name@,
            r.entity_type == entity_type,
            r.description is None,
            r.aliases@.len() == 0,
            r.attributes@.len() == 0,
            r.relationships@.len() == 0,
            r.first_seen_ms == r.last_seen_ms,
            r.mention_count == 1,
    {
        let now = now_millis();
        EntityMemory {
            name: owned(name),
            entity_type,
            description: None,
            aliases: Vec::new(),
            attributes: Vec::new(),
            relationships: Vec::new(),
            first_seen_ms: now,
            last_seen_ms: now,
            mention_count: 1,
        }
    }

    /// Set description.
    pub fn with_description(self, description: &str) -> (r: Self)
        ensures
            r == (EntityMemory { description: r.description, ..self }),
            opt_text(r.description) == Some(description@),
    {
        EntityMemory { description: Some(owned(description)), ..self }
    }

    /// Add aliases.
    pub fn with_aliases(self, aliases: Vec<&str>) -> (r: Self)
        ensures
            r == (EntityMemory { aliases: r.aliases, ..self }),
            texts(r.aliases@) == texts(self.aliases@) + aliases@.map_values(|s: &str| s@),
    {
        let mut s = self;
        extend_owned(&mut s.aliases, &aliases);
        s
    }

    /// Add an attribute; a key that is already present gets the new value.
    pub fn with_attribute(self, key: &str, value: &str) -> (r: Self)
        ensures
            r == (EntityMemory { attributes: r.attributes, ..self }),
            forall|k: Seq<char>|
                lookup(r.attributes@, k) == (if k == key@ {
                    Some(value@)
                } else {
                    lookup(self.attributes@, k)
                }),
            distinct_keys(self.attributes@) ==> distinct_keys(r.attributes@),
    {
        let mut s = self;
        set_entry(&mut s.attributes, owned(key), owned(value));
        s
    }

    /// Add a relationship.
    pub fn with_relationship(self, relationship: EntityRelationship) -> (r: Self)
        ensures
            r == (EntityMemory { relationships: r.relationships, ..self }),
            r.relationships@ == self.relationships@.push(relationship),
    {
        let mut s = self;
        s.relationships.push(relationship);
        s
    }

    /// Record a mention: seen now, one more mention.
    pub fn record_mention(&mut self)
        requires
            old(self).mention_count < u32::MAX,
        ensures
            final(self).mention_count == old(self).mention_count + 1,
            *final(self) == (EntityMemory {
                last_seen_ms: final(self).last_seen_ms,
                mention_count: final(self).mention_count,
                ..*old(self)
            }),
    {
        self.last_seen_ms = now_millis();
        self.mention_count = self.mention_count + 1;
    }

    /// Get text content for embedding.
    pub fn text_content(&self) -> (r: String)
        ensures
            r@ == joined(entity_lines(*self), "\n"@),
    {
        let mut first = owned("Entity: ");
        first.append(self.name.as_str());
        first.append(" (");
        first.append(self.entity_type.name());
        first.append(")");
        let mut parts: Vec<String> = Vec::new();
        parts.push(first);
        push_optional_line(&mut parts, "Description: ", &self.description);
        push_list_line(&mut parts, "Also known as: ", &self.aliases);
        let ghost head = texts(parts@);
        let mut i: usize = 0;
        while i < self.attributes.len()
            invariant
                i <= self.attributes@.len(),
                texts(parts@) == head + self.attributes@.take(i as int).map_values(
                    |a: (String, String)| attribute_line(a),
                ),
            decreases self.attributes.len() - i,
        {
            let mut line = self.attributes[i].0.clone();
            line.append(": ");
            line.append(self.attributes[i].1.as_str());
            let ghost before = parts@;
            parts.push(line);
            assert(texts(parts@) =~= texts(before).push(attribute_line(self.attributes@[i as int])));
            assert(self.attributes@.take(i as int + 1).map_values(
                |a: (String, String)| attribute_line(a),
            ) =~= self.attributes@.take(i as int).map_values(
                |a: (String, String)| attribute_line(a),
            ).push(attribute_line(self.attributes@[i as int])));
            i += 1;
        }
        assert(self.attributes@.take(self.attributes@.len() as int) =~= self.attributes@);
        let ghost mid = texts(parts@);
        let mut j: usize = 0;
        while j < self.relationships.len()
            invariant
                j <= self.relationships@.len(),
                texts(parts@) == mid + self.relationships@.take(j as int).map_values(
                    |r: EntityRelationship| relationship_line(self.name@, r),
                ),
            decreases self.relationships.len() - j,
        {
            let rel = &self.relationships[j];
            let mut line = owned("Relationship: ");
            line.append(self.name.as_str());
            line.append(" ");
            line.append(rel.relation_type.as_str());
            line.append(" ");
            line.append(rel.target_entity.as_str());
            let ghost before = parts@;
            parts.push(line);
            assert(texts(parts@) =~= texts(before).push(
                relationship_line(self.name@, self.relationships@[j as int]),
            ));
            assert(self.relationships@.take(j as int + 1).map_values(
                |r: EntityRelationship| relationship_line(self.name@, r),
            ) =~= self.relationships@.take(j as int).map_values(
                |r: EntityRelationship| relationship_line(self.name@, r),
            ).push(relationship_line(self.name@, self.relationships@[j as int])));
            j += 1;
        }
        assert(self.relationships@.take(self.relationships@.len() as int) =~= self.relationships@);
        assert(texts(parts@) =~= entity_lines(*self));
        join(&parts, "\n")
    }
}

/// Types of semantic content.
#[derive(Debug, Clone)]
pub enum SemanticContent {
    /// A factual statement
    Fact(FactMemory),
    /// A preference
    Preference(PreferenceMemory),
    /// A concept definition
    Concept(ConceptMemory),
    /// An entity (person, place, thing)
    Entity(EntityMemory),
}

/// Semantic memory containing knowledge.
#[derive(Debug, Clone)]
pub struct SemanticMemory {
    /// Common memory fields
    pub common: MemoryCommon,
    /// The specific semantic content
    pub content: SemanticContent,
}

/// The text a semantic content is embedded by.
pub open spec fn semantic_text(c: SemanticContent) -> Seq<char> {
    match c {
        SemanticContent::Fact(f) => f.statement@,
        SemanticContent::Preference(p) => preference_text(p),
        SemanticContent::Concept(c) => joined(concept_lines(c), "\n"@),
        SemanticContent::Entity(e) => joined(entity_lines(e), "\n"@),
    }
}

impl SemanticMemory {
    /// Get text content for embedding/indexing.
    pub fn text_content(&self) -> (r: String)
        ensures
            r@ == semantic_text(self.content),
    {
        match &self.content {
            SemanticContent::Fact(f) => f.text_content(),
            SemanticContent::Preference(p) => p.text_content(),
            SemanticContent::Concept(c) => c.text_content(),
            SemanticContent::Entity(e) => e.text_content(),
        }
    }
}

} // verus!
