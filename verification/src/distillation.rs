//! Distillation of episodic memories into semantic ones: the cues in a
//! memory's text that mark a preference or a factual assertion, and the
//! counts a distillation or decay run reports.

use vstd::prelude::*;

use crate::decode::{has_prefix, matches_at};
use crate::ids::{is_v7, MemoryId};
use crate::memory::{common_of, Memory, MemoryCommon};
use crate::provenance::{Derivation, DerivationType, Provenance, Source};
use crate::semantic::{FactMemory, PreferenceMemory, PreferenceStrength, SemanticContent, SemanticMemory};
use crate::text::{chars_of, owned};

verus! {

/// What `str::to_lowercase` makes of a text.
pub uninterp spec fn lowercased(s: Seq<char>) -> Seq<char>;

/// Calls `str::to_lowercase`; the result is named, since its Unicode case
/// mapping takes pages to state.
#[verifier::external_body]
fn to_lower(s: &str) -> (r: String)
    ensures
        r@ == lowercased(s@),
{
    s.to_lowercase()
}

/// `needle` occurs in `hay`, as `str::contains` finds it.
pub open spec fn occurs_in(needle: Seq<char>, hay: Seq<char>) -> bool {
    exists|i: int| 0 <= i <= hay.len() - needle.len() && has_prefix(#[trigger] hay.skip(i), needle)
}

/// Whether `needle` occurs in `hay`.
fn contains_chars(hay: &Vec<char>, needle: &Vec<char>) -> (r: bool)
    ensures
        r == occurs_in(needle@, hay@),
{
    if needle.len() > hay.len() {
        assert forall|i: int| 0 <= i <= hay@.len() - needle@.len() implies !has_prefix(
            #[trigger] hay@.skip(i),
            needle@,
        ) by {}
        return false;
    }
    let last = hay.len() - needle.len();
    let mut i: usize = 0;
    while i < last
        invariant
            i <= last,
            last == hay@.len() - needle@.len(),
            forall|j: int| 0 <= j < i ==> !has_prefix(#[trigger] hay@.skip(j), needle@),
        decreases last - i,
    {
        if matches_at(hay, i, needle) {
            return true;
        }
        i += 1;
    }
    matches_at(hay, last, needle)
}

/// Wordings that mark a preference.
pub open spec fn preference_cues() -> Seq<Seq<char>> {
    seq!["prefers"@, "likes"@, "wants"@, "favorite"@, "always uses"@, "never uses"@]
}

/// Wordings that mark a factual assertion.
pub open spec fn fact_cues() -> Seq<Seq<char>> {
    seq!["is a"@, "are a"@, "consists of"@, "contains"@, "means"@, "defined as"@]
}

/// Some cue occurs in the lower-cased text.
pub open spec fn has_cue(cues: Seq<Seq<char>>, text: Seq<char>) -> bool {
    exists|k: int| 0 <= k < cues.len() && occurs_in(#[trigger] cues[k], lowercased(text))
}

/// Whether any of `cues` occurs in `lower`.
fn any_cue(lower: &Vec<char>, cues: &Vec<&str>) -> (r: bool)
    ensures
        r == exists|k: int| 0 <= k < cues@.len() && occurs_in(#[trigger] cues@[k]@, lower@),
{
    let mut k: usize = 0;
    while k < cues.len()
        invariant
            k <= cues@.len(),
            forall|j: int| 0 <= j < k ==> !occurs_in(#[trigger] cues@[j]@, lower@),
        decreases cues.len() - k,
    {
        let needle = chars_of(cues[k]);
        if contains_chars(lower, &needle) {
            return true;
        }
        k += 1;
    }
    false
}

/// Whether the text of a memory, lower-cased, holds a preference cue
/// ("prefers", "likes", "wants", "favorite", "always uses", "never uses").
pub fn mentions_preference(text: &str) -> (r: bool)
    ensures
        r == has_cue(preference_cues(), text@),
        r <==> (occurs_in("prefers"@, lowercased(text@))
            || occurs_in("likes"@, lowercased(text@))
            || occurs_in("wants"@, lowercased(text@))
            || occurs_in("favorite"@, lowercased(text@))
            || occurs_in("always uses"@, lowercased(text@))
            || occurs_in("never uses"@, lowercased(text@))),
{
    proof {
        lemma_preference_cue_words(text@);
    }
    let lower = chars_of(to_lower(text).as_str());
    let cues: Vec<&str> = vec!["prefers", "likes", "wants", "favorite", "always uses", "never uses"];
    let r = any_cue(&lower, &cues);
    proof {
        assert(cues@.map_values(|c: &str| c@) =~= preference_cues());
        if r {
            let k = choose|k: int| 0 <= k < cues@.len() && occurs_in(#[trigger] cues@[k]@, lower@);
            assert(preference_cues()[k] == cues@[k]@);
        } else {
            assert forall|k: int| 0 <= k < preference_cues().len() implies !occurs_in(
                #[trigger] preference_cues()[k],
                lowercased(text@),
            ) by {
                assert(preference_cues()[k] == cues@[k]@);
            }
        }
    }
    r
}

/// Whether the text of a memory, lower-cased, holds a factual-assertion cue
/// ("is a", "are a", "consists of", "contains", "means", "defined as").
pub fn states_fact(text: &str) -> (r: bool)
    ensures
        r == has_cue(fact_cues(), text@),
        r <==> (occurs_in("is a"@, lowercased(text@))
            || occurs_in("are a"@, lowercased(text@))
            || occurs_in("consists of"@, lowercased(text@))
            || occurs_in("contains"@, lowercased(text@))
            || occurs_in("means"@, lowercased(text@))
            || occurs_in("defined as"@, lowercased(text@))),
{
    proof {
        lemma_fact_cue_words(text@);
    }
    let lower = chars_of(to_lower(text).as_str());
    let cues: Vec<&str> = vec!["is a", "are a", "consists of", "contains", "means", "defined as"];
    let r = any_cue(&lower, &cues);
    proof {
        assert(cues@.map_values(|c: &str| c@) =~= fact_cues());
        if r {
            let k = choose|k: int| 0 <= k < cues@.len() && occurs_in(#[trigger] cues@[k]@, lower@);
            assert(fact_cues()[k] == cues@[k]@);
        } else {
            assert forall|k: int| 0 <= k < fact_cues().len() implies !occurs_in(
                #[trigger] fact_cues()[k],
                lowercased(text@),
            ) by {
                assert(fact_cues()[k] == cues@[k]@);
            }
        }
    }
    r
}

/// What a distillation pass would draw out of a memory's text: a preference
/// first, then a fact, each when its cue is present.
pub open spec fn distilled_kinds(text: Seq<char>) -> Seq<DistilledKind> {
    (if has_cue(preference_cues(), text) {
        seq![DistilledKind::Preference]
    } else {
        Seq::empty()
    }) + (if has_cue(fact_cues(), text) {
        seq![DistilledKind::Fact]
    } else {
        Seq::empty()
    })
}

/// A kind of semantic memory distilled from an episodic one.
#[derive(Debug, Clone, Copy, PartialEq, Eq, Structural)]
pub enum DistilledKind {
    Preference,
    Fact,
}

/// The kinds of semantic memory to extract from a memory's text, in the
/// order they are extracted.
pub fn extraction_plan(text: &str) -> (r: Vec<DistilledKind>)
    ensures
        r@ == distilled_kinds(text@),
{
    let mut r: Vec<DistilledKind> = Vec::new();
    if mentions_preference(text) {
        r.push(DistilledKind::Preference);
    }
    if states_fact(text) {
        r.push(DistilledKind::Fact);
    }
    assert(r@ =~= distilled_kinds(text@));
    r
}

/// Result of a distillation operation.
#[derive(Debug, Clone, Copy, PartialEq, Eq, Structural)]
pub struct DistillationResult {
    /// Number of episodic memories processed
    pub processed: usize,
    /// Number of semantic memories extracted
    pub extracted: usize,
}

/// Result of a decay operation.
#[derive(Debug, Clone, Copy, PartialEq, Eq, Structural)]
pub struct DecayResult {
    /// Number of memories processed
    pub processed: usize,
    /// Number of memories updated
    pub updated: usize,
    /// Number of memories deleted
    pub deleted: usize,
}

/// Configuration for distillation.
#[derive(Debug, Clone, Copy, PartialEq, Eq, Structural)]
pub struct DistillationConfig {
    /// Minimum age (hours) before distillation
    pub min_age_hours: u64,
    /// Minimum times mentioned before extracting as fact
    pub min_mentions: u32,
    /// Confidence given to extracted memories (an `f64` bit pattern)
    pub confidence_threshold: u64,
}

impl Default for DistillationConfig {
    fn default() -> (r: Self)
        ensures
            r.min_age_hours == 24,
            r.min_mentions == 2,
            r.confidence_threshold == 0x3FE3_3333_3333_3333u64,
    {
        DistillationConfig { min_age_hours: 24, min_mentions: 2, confidence_threshold: 0x3FE3_3333_3333_3333u64 }
    }
}

/// The provenance of a memory distilled from `source`: consolidated from one
/// memory by "distillation", derived by distillation from the source's id
/// alone, recorded for the source's agent, new and never accessed.
pub open spec fn distillation_provenance(p: Provenance, source: Memory) -> bool {
    &&& p.source matches Source::Consolidated { source_count, method } && source_count == 1
        && method@ == "distillation"@
    &&& p.derived_from@.len() == 1
    &&& p.derived_from@[0].source_ids@ == seq![common_of(source).id]
    &&& p.derived_from@[0].derivation_type == DerivationType::Distillation
    &&& p.agent_id == common_of(source).agent_id
    &&& p.created_at_ms >= 0
    &&& p.last_accessed_ms == p.created_at_ms
    &&& p.access_count == 0
}

/// `m` is a new semantic memory of `kind` distilled from the text `text` of
/// `source`: it belongs to the source's agent, carries the given confidence
/// and a provenance derived from the source by distillation and nothing else
/// of its own, and holds the text as a moderate preference of "user" about
/// "setting", or as a fact's statement.
pub open spec fn distilled_from(
    m: Memory,
    kind: DistilledKind,
    text: Seq<char>,
    source: Memory,
    confidence: u64,
) -> bool {
    &&& m matches Memory::Semantic(s)
    &&& is_v7(s.common.id.0)
    &&& s.common.version == 1
    &&& s.common.confidence == confidence
    &&& s.common.embedding is None
    &&& s.common.tags@.len() == 0
    &&& s.common.metadata@.len() == 0
    &&& s.common.agent_id == common_of(source).agent_id
    &&& s.common.valid_from_ns is None
    &&& s.common.valid_until_ns is None
    &&& distillation_provenance(s.common.provenance, source)
    &&& match kind {
        DistilledKind::Preference => s.content matches SemanticContent::Preference(p) && p.holder@
            == "user"@ && p.subject@ == "setting"@ && p.preference@ == text && p.strength
            == PreferenceStrength::Moderate && p.context is None && p.alternative is None
            && p.reason is None,
        DistilledKind::Fact => s.content matches SemanticContent::Fact(f) && f.statement@ == text
            && f.subject is None && f.predicate is None && f.object is None,
    }
}

/// A new semantic memory of `kind` drawn from `text`, for the agent of
/// `source`, with the given confidence.
fn distilled_memory(kind: DistilledKind, text: &str, source: &Memory, confidence: u64) -> (r: Memory)
    ensures
        distilled_from(r, kind, text@, *source, confidence),
{
    let agent_id = source.common().agent_id;
    let mut source_ids: Vec<MemoryId> = Vec::new();
    source_ids.push(*source.id());
    let derivation = Derivation::new(source_ids, DerivationType::Distillation);
    let mut derivations: Vec<Derivation> = Vec::new();
    derivations.push(derivation);
    let provenance = Provenance::new_derived(
        Source::Consolidated { source_count: 1, method: owned("distillation") },
        derivations,
        agent_id,
    );
    assert(provenance.derived_from@[0].source_ids@ =~= seq![common_of(*source).id]);
    let common = MemoryCommon::new(agent_id, provenance).with_confidence(confidence);
    let content = match kind {
        DistilledKind::Preference => SemanticContent::Preference(
            PreferenceMemory::new("user", "setting", text).with_strength(PreferenceStrength::Moderate),
        ),
        DistilledKind::Fact => SemanticContent::Fact(FactMemory::new(text)),
    };
    proof {
        reveal_strlit("user");
        reveal_strlit("setting");
        reveal_strlit("distillation");
    }
    Memory::Semantic(SemanticMemory { common, content })
}

/// A preference drawn from a memory's text, when the text carries a
/// preference cue.
pub fn extract_preference(text: &str, source: &Memory, confidence: u64) -> (r: Option<Memory>)
    ensures
        r is Some <==> has_cue(preference_cues(), text@),
        r matches Some(m) ==> distilled_from(m, DistilledKind::Preference, text@, *source, confidence),
{
    if mentions_preference(text) {
        Some(distilled_memory(DistilledKind::Preference, text, source, confidence))
    } else {
        None
    }
}

/// A fact drawn from a memory's text, when the text carries a cue of a
/// factual assertion.
pub fn extract_fact(text: &str, source: &Memory, confidence: u64) -> (r: Option<Memory>)
    ensures
        r is Some <==> has_cue(fact_cues(), text@),
        r matches Some(m) ==> distilled_from(m, DistilledKind::Fact, text@, *source, confidence),
{
    if states_fact(text) {
        Some(distilled_memory(DistilledKind::Fact, text, source, confidence))
    } else {
        None
    }
}

/// The semantic memories drawn from a memory whose text is `text`: a
/// preference first, then a fact, each when its cue is present, each with
/// the given confidence.
pub fn extract_from_memory(text: &str, source: &Memory, confidence: u64) -> (r: Vec<Memory>)
    ensures
        r@.len() == distilled_kinds(text@).len(),
        forall|i: int|
            0 <= i < r@.len() ==> distilled_from(
                #[trigger] r@[i],
                distilled_kinds(text@)[i],
                text@,
                *source,
                confidence,
            ),
{
    let mut extractions: Vec<Memory> = Vec::new();
    if let Some(preference) = extract_preference(text, source, confidence) {
        extractions.push(preference);
    }
    if let Some(fact) = extract_fact(text, source, confidence) {
        extractions.push(fact);
    }
    extractions
}

/// A text carries a preference cue exactly when its lower-cased form contains
/// "prefers", "likes", "wants", "favorite", "always uses" or "never uses".
pub proof fn lemma_preference_cue_words(text: Seq<char>)
    ensures
        has_cue(preference_cues(), text) <==> (occurs_in("prefers"@, lowercased(text))
            || occurs_in("likes"@, lowercased(text))
            || occurs_in("wants"@, lowercased(text))
            || occurs_in("favorite"@, lowercased(text))
            || occurs_in("always uses"@, lowercased(text))
            || occurs_in("never uses"@, lowercased(text))),
{
    assert(preference_cues().len() == 6);
    assert(preference_cues()[0] == "prefers"@);
    assert(preference_cues()[1] == "likes"@);
    assert(preference_cues()[2] == "wants"@);
    assert(preference_cues()[3] == "favorite"@);
    assert(preference_cues()[4] == "always uses"@);
    assert(preference_cues()[5] == "never uses"@);
}

/// A text carries a cue of a factual assertion exactly when its lower-cased
/// form contains "is a", "are a", "consists of", "contains", "means" or
/// "defined as".
pub proof fn lemma_fact_cue_words(text: Seq<char>)
    ensures
        has_cue(fact_cues(), text) <==> (occurs_in("is a"@, lowercased(text))
            || occurs_in("are a"@, lowercased(text))
            || occurs_in("consists of"@, lowercased(text))
            || occurs_in("contains"@, lowercased(text))
            || occurs_in("means"@, lowercased(text))
            || occurs_in("defined as"@, lowercased(text))),
{
    assert(fact_cues().len() == 6);
    assert(fact_cues()[0] == "is a"@);
    assert(fact_cues()[1] == "are a"@);
    assert(fact_cues()[2] == "consists of"@);
    assert(fact_cues()[3] == "contains"@);
    assert(fact_cues()[4] == "means"@);
    assert(fact_cues()[5] == "defined as"@);
}

/// What distillation draws from a text: a preference when its lower-cased
/// form contains a preference cue word, then a fact when it contains a fact
/// cue word, and nothing else.
pub proof fn lemma_distilled_kinds_by_cue_words(text: Seq<char>)
    ensures
        distilled_kinds(text) == (if occurs_in("prefers"@, lowercased(text))
            || occurs_in("likes"@, lowercased(text))
            || occurs_in("wants"@, lowercased(text))
            || occurs_in("favorite"@, lowercased(text))
            || occurs_in("always uses"@, lowercased(text))
            || occurs_in("never uses"@, lowercased(text)) {
            seq![DistilledKind::Preference]
        } else {
            Seq::<DistilledKind>::empty()
        }) + (if occurs_in("is a"@, lowercased(text))
            || occurs_in("are a"@, lowercased(text))
            || occurs_in("consists of"@, lowercased(text))
            || occurs_in("contains"@, lowercased(text))
            || occurs_in("means"@, lowercased(text))
            || occurs_in("defined as"@, lowercased(text)) {
            seq![DistilledKind::Fact]
        } else {
            Seq::<DistilledKind>::empty()
        }),
{
    lemma_preference_cue_words(text);
    lemma_fact_cue_words(text);
}

/// A word occurs in a text exactly when the text is some text, then the
/// word, then some more text.
pub proof fn lemma_occurs_in_is_substring(needle: Seq<char>, hay: Seq<char>)
    ensures
        occurs_in(needle, hay) <==> exists|a: Seq<char>, b: Seq<char>| hay == a + needle + b,
{
    if occurs_in(needle, hay) {
        let i = choose|i: int| 0 <= i <= hay.len() - needle.len() && has_prefix(#[trigger] hay.skip(i), needle);
        let a = hay.take(i);
        let b = hay.skip(i + needle.len());
        assert(hay.skip(i).take(needle.len() as int) == needle);
        assert(hay =~= a + needle + b);
    }
    if exists|a: Seq<char>, b: Seq<char>| hay == a + needle + b {
        let (a, b) = choose|a: Seq<char>, b: Seq<char>| hay == a + needle + b;
        let i = a.len() as int;
        assert(hay.skip(i).take(needle.len() as int) =~= needle);
        assert(has_prefix(hay.skip(i), needle));
    }
}

} // verus!
