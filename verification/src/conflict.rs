//! Conflict resolution between a new memory and similar existing ones: the
//! prompt shown to the model, and the decision read back from its reply.

use vstd::prelude::*;

use crate::error::Error;
use crate::ids::{parse_uuid, render_uuid, uuid_parsed, uuid_text, MemoryId};
use crate::text::{
    decimal, decimal_text, lemma_decimal_injective, lemma_decimal_len_usize, opt_text, owned, str_eq,
};

verus! {

/// How a new memory relates to existing ones.
#[derive(Debug, Clone)]
pub enum ConflictDecision {
    /// New memory is genuinely new information. Store it as-is.
    Add,
    /// New memory augments or replaces an existing one.
    Update {
        /// ID of the existing memory to update
        target_id: MemoryId,
        /// Merged content that combines old and new information
        merged_content: String,
    },
    /// New memory contradicts an existing one, which is to be invalidated.
    Delete {
        /// ID of the existing memory to invalidate
        target_id: MemoryId,
        /// Explanation of why the old memory is superseded
        reason: String,
    },
    /// New memory is already known or irrelevant. Discard it.
    Noop {
        /// Explanation of why the memory was discarded
        reason: String,
    },
}

/// The fields of a model reply that decide the outcome, as decoded from its
/// JSON.
#[derive(Debug, Clone)]
pub struct ResolutionReply {
    /// "add", "update", "delete" or "noop"
    pub decision: String,
    /// The memory the decision is about, as UUID text or as shown in the prompt
    pub target_id: Option<String>,
    /// Merged content for an update
    pub merged_content: Option<String>,
    /// Reason for a delete or noop
    pub reason: Option<String>,
    /// The model's confidence (an `f64` bit pattern)
    pub confidence: Option<u64>,
    /// Free-form reasoning
    pub reasoning: Option<String>,
}

/// The `f64` bit pattern of 0.5, the confidence assumed when a reply gives none.
pub const HALF_CONFIDENCE_BITS: u64 = 0x3FE0_0000_0000_0000;

/// The `f64` bit pattern of 1.0.
pub const FULL_CONFIDENCE_BITS: u64 = 0x3FF0_0000_0000_0000;

/// The result of conflict resolution.
#[derive(Debug, Clone)]
pub struct ConflictResolutionResult {
    /// The decision
    pub decision: ConflictDecision,
    /// Confidence in the decision (an `f64` bit pattern)
    pub confidence: u64,
    /// Explanation of the decision
    pub reasoning: String,
}

/// `e` is an internal error with the given message.
pub open spec fn internal_error(e: Error, message: Seq<char>) -> bool {
    match e {
        Error::Internal(m) => m@ == message,
        _ => false,
    }
}

/// The first position below `n` whose identifier is written as `s`.
pub open spec fn shown_index(ids: Seq<MemoryId>, s: Seq<char>, n: nat) -> Option<int>
    decreases n,
{
    if n == 0 {
        None
    } else {
        match shown_index(ids, s, (n - 1) as nat) {
            Some(k) => Some(k),
            None => if uuid_text(ids[n - 1].0) == s {
                Some(n - 1)
            } else {
                None
            },
        }
    }
}

/// How the prompt labels the `k`-th similar memory (from one): `Memory k`.
pub open spec fn memory_label(k: nat) -> Seq<char> {
    "Memory "@ + decimal(k)
}

/// The first position below `n` whose label is `s`.
pub open spec fn labelled_index(s: Seq<char>, n: nat) -> Option<int>
    decreases n,
{
    if n == 0 {
        None
    } else {
        match labelled_index(s, (n - 1) as nat) {
            Some(k) => Some(k),
            None => if memory_label(n) == s {
                Some(n - 1)
            } else {
                None
            },
        }
    }
}

/// The memory a reply's target designates: the parsed UUID, else the first
/// similar memory shown with that text, else the memory whose 1-based label
/// (`Memory i`) it is, else the only similar memory.
pub open spec fn designated_target(s: Seq<char>, ids: Seq<MemoryId>) -> Option<MemoryId> {
    match uuid_parsed(s) {
        Some(v) => Some(MemoryId(v)),
        None => match shown_index(ids, s, ids.len()) {
            Some(k) => Some(ids[k]),
            None => match labelled_index(s, ids.len()) {
                Some(k) => Some(ids[k]),
                None => if ids.len() == 1 {
                    Some(ids[0])
                } else {
                    None
                },
            },
        },
    }
}

/// Once found below `n`, the first labelled position stays the same below
/// any larger bound.
proof fn lemma_labelled_index_stable(s: Seq<char>, n: nat, m: nat)
    requires
        n <= m,
        labelled_index(s, n) is Some,
    ensures
        labelled_index(s, m) == labelled_index(s, n),
    decreases m - n,
{
    if n < m {
        lemma_labelled_index_stable(s, n, (m - 1) as nat);
    }
}

/// Below a bound, the label of `i` is found at position `i - 1`: no smaller
/// number has the same label.
proof fn lemma_labelled_index_of_label(i: nat, n: nat)
    requires
        1 <= i <= n,
    ensures
        labelled_index(memory_label(i), n) == Some(i - 1),
    decreases n,
{
    if n > i {
        lemma_labelled_index_of_label(i, (n - 1) as nat);
    } else {
        assert forall|j: nat| 1 <= j < i implies #[trigger] memory_label(j) != memory_label(i) by {
            if memory_label(j) == memory_label(i) {
                reveal_strlit("Memory ");
                assert(memory_label(j).skip(7) =~= decimal(j));
                assert(memory_label(i).skip(7) =~= decimal(i));
                lemma_decimal_injective(j, i);
            }
        }
        lemma_labelled_index_none_below(i, (i - 1) as nat);
    }
}

/// No number from one to `n` below `i` has the label of `i`.
proof fn lemma_labelled_index_none_below(i: nat, n: nat)
    requires
        n < i,
        forall|j: nat| 1 <= j < i ==> #[trigger] memory_label(j) != memory_label(i),
    ensures
        labelled_index(memory_label(i), n) is None,
    decreases n,
{
    if n > 0 {
        lemma_labelled_index_none_below(i, (n - 1) as nat);
    }
}

/// A label is shorter than any UUID text and than any form a UUID parses from.
proof fn lemma_label_len(i: nat)
    requires
        i <= usize::MAX,
    ensures
        memory_label(i).len() <= 27,
{
    reveal_strlit("Memory ");
    lemma_decimal_len_usize(i);
}

/// Nothing shown with a UUID's text is a label.
proof fn lemma_label_not_shown(ids: Seq<MemoryId>, i: nat, n: nat)
    requires
        i <= usize::MAX,
        n <= ids.len(),
    ensures
        shown_index(ids, memory_label(i), n) is None,
    decreases n,
{
    lemma_label_len(i);
    if n > 0 {
        lemma_label_not_shown(ids, i, (n - 1) as nat);
        assert(uuid_text(ids[n - 1].0).len() == 36);
    }
}

/// Once found below `n`, the first shown position stays the same below any
/// larger bound.
proof fn lemma_shown_index_stable(ids: Seq<MemoryId>, s: Seq<char>, n: nat, m: nat)
    requires
        n <= m,
        shown_index(ids, s, n) is Some,
    ensures
        shown_index(ids, s, m) == shown_index(ids, s, n),
    decreases m - n,
{
    if n < m {
        lemma_shown_index_stable(ids, s, n, (m - 1) as nat);
    }
}

/// The outcome owed for a reply target among the similar memories.
pub open spec fn target_outcome(raw: Option<Seq<char>>, ids: Seq<MemoryId>, r: Result<MemoryId, Error>) -> bool {
    match raw {
        None => r matches Err(e) && internal_error(
            e,
            "Conflict resolution response missing target_id"@,
        ),
        Some(s) => match designated_target(s, ids) {
            Some(id) => r matches Ok(x) && x == id,
            None => r matches Err(e) && internal_error(
                e,
                "Could not resolve target_id '"@ + s + "' from conflict resolution response"@,
            ),
        },
    }
}

/// Resolve the target of a reply. The model may return the full UUID string
/// or a 1-based index like "Memory 1". The UUID is tried first, then the
/// identifiers shown in the prompt, then the labels; when nothing matches and
/// there is exactly one similar memory, that one is meant.
pub fn resolve_target_id(raw_id: &Option<String>, similar: &Vec<MemoryId>) -> (r: Result<MemoryId, Error>)
    ensures
        target_outcome(opt_text(*raw_id), similar@, r),
        forall|i: nat|
            1 <= i <= similar@.len() && opt_text(*raw_id) == Some(#[trigger] memory_label(i)) ==> r
                == Ok::<MemoryId, Error>(similar@[i - 1]),
{
    let id_str = match raw_id {
        None => {
            return Err(Error::Internal(owned("Conflict resolution response missing target_id")));
        },
        Some(s) => s,
    };
    let count = similar.len();
    let parsed = parse_uuid(id_str.as_str());
    proof {
        assert forall|i: nat| 1 <= i <= similar@.len() && id_str@ == #[trigger] memory_label(i) implies parsed
            is None by {
            lemma_label_len(i);
        }
    }
    if let Some(v) = parsed {
        return Ok(MemoryId(v));
    }
    proof {
        assert forall|i: nat| 1 <= i <= similar@.len() && id_str@ == #[trigger] memory_label(i) implies shown_index(
            similar@,
            id_str@,
            similar@.len(),
        ) is None by {
            lemma_label_not_shown(similar@, i, similar@.len());
        }
    }
    let mut i: usize = 0;
    while i < similar.len()
        invariant
            i <= similar@.len(),
            shown_index(similar@, id_str@, i as nat) is None,
            uuid_parsed(id_str@) is None,
            opt_text(*raw_id) == Some(id_str@),
            count == similar@.len(),
            forall|k: nat|
                1 <= k <= similar@.len() && id_str@ == #[trigger] memory_label(k) ==> shown_index(
                    similar@,
                    id_str@,
                    similar@.len(),
                ) is None,
        decreases similar.len() - i,
    {
        let shown = render_uuid(similar[i].0);
        if shown == *id_str {
            proof {
                assert(shown_index(similar@, id_str@, (i + 1) as nat) == Some(i as int));
                lemma_shown_index_stable(similar@, id_str@, (i + 1) as nat, similar@.len());
                assert(opt_text(*raw_id) == Some(id_str@));
                assert(designated_target(id_str@, similar@) == Some(similar@[i as int]));
                assert forall|k: nat| 1 <= k <= similar@.len() && id_str@ == #[trigger] memory_label(k) implies false by {}
            }
            return Ok(similar[i]);
        }
        i += 1;
    }
    let mut j: usize = 0;
    while j < similar.len()
        invariant
            j <= similar@.len(),
            labelled_index(id_str@, j as nat) is None,
            shown_index(similar@, id_str@, similar@.len()) is None,
            uuid_parsed(id_str@) is None,
            opt_text(*raw_id) == Some(id_str@),
        decreases similar.len() - j,
    {
        let mut label = owned("Memory ");
        let n = decimal_text(j + 1);
        label.append(n.as_str());
        if label == *id_str {
            proof {
                assert(label@ =~= memory_label((j + 1) as nat));
                assert(labelled_index(id_str@, (j + 1) as nat) == Some(j as int));
                lemma_labelled_index_stable(id_str@, (j + 1) as nat, similar@.len());
                assert forall|k: nat| 1 <= k <= similar@.len() && id_str@ == #[trigger] memory_label(k) implies k
                    == j + 1 by {
                    lemma_labelled_index_of_label(k, similar@.len());
                }
            }
            return Ok(similar[j]);
        }
        proof {
            assert(label@ =~= memory_label((j + 1) as nat));
        }
        j += 1;
    }
    proof {
        assert forall|k: nat| 1 <= k <= similar@.len() && id_str@ == #[trigger] memory_label(k) implies false by {
            lemma_labelled_index_of_label(k, similar@.len());
        }
    }
    if similar.len() == 1 {
        return Ok(similar[0]);
    }
    let mut message = owned("Could not resolve target_id '");
    message.append(id_str.as_str());
    message.append("' from conflict resolution response");
    Err(Error::Internal(message))
}

/// The decision a reply asks for; an unknown decision counts as "add".
pub open spec fn decision_outcome(
    reply: ResolutionReply,
    ids: Seq<MemoryId>,
    r: Result<ConflictDecision, Error>,
) -> bool {
    let d = reply.decision@;
    if d == "update"@ {
        match designated_target_outcome(opt_text(reply.target_id), ids) {
            Ok(id) => r matches Ok(ConflictDecision::Update { target_id, merged_content })
                && target_id == id && merged_content@ == (match reply.merged_content {
                Some(m) => m@,
                None => Seq::empty(),
            }),
            Err(()) => r is Err && (r matches Err(e) && target_outcome(
                opt_text(reply.target_id),
                ids,
                Err(e),
            )),
        }
    } else if d == "delete"@ {
        match designated_target_outcome(opt_text(reply.target_id), ids) {
            Ok(id) => r matches Ok(ConflictDecision::Delete { target_id, reason }) && target_id == id
                && reason@ == (match reply.reason {
                Some(m) => m@,
                None => "Contradicted by new information"@,
            }),
            Err(()) => r is Err && (r matches Err(e) && target_outcome(
                opt_text(reply.target_id),
                ids,
                Err(e),
            )),
        }
    } else if d == "noop"@ {
        r matches Ok(ConflictDecision::Noop { reason }) && reason@ == (match reply.reason {
            Some(m) => m@,
            None => "Already known"@,
        })
    } else {
        r matches Ok(ConflictDecision::Add)
    }
}

/// The designated target of an optional reply target, if any.
pub open spec fn designated_target_outcome(raw: Option<Seq<char>>, ids: Seq<MemoryId>) -> Result<MemoryId, ()> {
    match raw {
        None => Err(()),
        Some(s) => match designated_target(s, ids) {
            Some(id) => Ok(id),
            None => Err(()),
        },
    }
}

/// Read the decision from a decoded reply.
pub fn decide(reply: ResolutionReply, similar: &Vec<MemoryId>) -> (r: Result<ConflictDecision, Error>)
    ensures
        decision_outcome(reply, similar@, r),
{
    let d = reply.decision.as_str();
    if str_eq(d, "add") {
        proof {
            reveal_strlit("add");
            reveal_strlit("update");
            reveal_strlit("delete");
            reveal_strlit("noop");
            assert(reply.decision@ == "add"@);
            assert(reply.decision@.len() != "update"@.len());
            assert(reply.decision@ != "delete"@);
            assert(reply.decision@ != "noop"@);
        }
        Ok(ConflictDecision::Add)
    } else if str_eq(d, "update") {
        let target_id = match resolve_target_id(&reply.target_id, similar) {
            Ok(t) => t,
            Err(e) => {
                return Err(e);
            },
        };
        let merged_content = match reply.merged_content {
            Some(m) => m,
            None => String::new(),
        };
        assert(designated_target_outcome(opt_text(reply.target_id), similar@) == Ok::<MemoryId, ()>(target_id));
        assert(reply.decision@ == "update"@);
        Ok(ConflictDecision::Update { target_id, merged_content })
    } else if str_eq(d, "delete") {
        proof {
            reveal_strlit("update");
            reveal_strlit("delete");
        }
        let target_id = match resolve_target_id(&reply.target_id, similar) {
            Ok(t) => t,
            Err(e) => {
                return Err(e);
            },
        };
        let reason = match reply.reason {
            Some(m) => m,
            None => owned("Contradicted by new information"),
        };
        Ok(ConflictDecision::Delete { target_id, reason })
    } else if str_eq(d, "noop") {
        proof {
            reveal_strlit("update");
            reveal_strlit("delete");
            reveal_strlit("noop");
        }
        let reason = match reply.reason {
            Some(m) => m,
            None => owned("Already known"),
        };
        Ok(ConflictDecision::Noop { reason })
    } else {
        Ok(ConflictDecision::Add)
    }
}

/// The block presenting the existing memory at position `i` (from zero).
pub open spec fn existing_block(i: int, id: MemoryId, text: Seq<char>) -> Seq<char> {
    "---\nMemory "@ + decimal((i + 1) as nat) + " (ID: "@ + uuid_text(id.0) + "):\n"@ + text + "\n"@
}

/// The blocks presenting the existing memories, in order.
pub open spec fn existing_blocks(es: Seq<(MemoryId, String)>) -> Seq<char>
    decreases es.len(),
{
    if es.len() == 0 {
        Seq::empty()
    } else {
        existing_blocks(es.drop_last()) + existing_block(
            es.len() - 1,
            es.last().0,
            es.last().1@,
        )
    }
}

/// The prompt presenting a new memory and the similar existing ones.
pub open spec fn prompt_text(new_text: Seq<char>, existing: Seq<(MemoryId, String)>) -> Seq<char> {
    "NEW MEMORY:\n"@ + new_text + "\n\nEXISTING MEMORIES:\n"@ + existing_blocks(existing) + (if existing.len()
        == 0 {
        "(none)\n"@
    } else {
        Seq::empty()
    })
}

/// Build the user prompt presenting the new memory and existing memories,
/// each given by its identifier and its text.
pub fn build_prompt(new_text: &str, existing: &Vec<(MemoryId, String)>) -> (r: String)
    requires
        existing@.len() < usize::MAX,
    ensures
        r@ == prompt_text(new_text@, existing@),
{
    let mut prompt = owned("NEW MEMORY:\n");
    prompt.append(new_text);
    prompt.append("\n\nEXISTING MEMORIES:\n");
    let ghost head = prompt@;
    let mut i: usize = 0;
    while i < existing.len()
        invariant
            i <= existing@.len() < usize::MAX,
            prompt@ == head + existing_blocks(existing@.take(i as int)),
        decreases existing.len() - i,
    {
        let ghost before = prompt@;
        prompt.append("---\nMemory ");
        let n = decimal_text(i + 1);
        prompt.append(n.as_str());
        prompt.append(" (ID: ");
        let shown = render_uuid(existing[i].0.0);
        prompt.append(shown.as_str());
        prompt.append("):\n");
        prompt.append(existing[i].1.as_str());
        prompt.append("\n");
        assert(existing@.take(i as int + 1).drop_last() =~= existing@.take(i as int));
        assert(prompt@ =~= before + existing_block(i as int, existing@[i as int].0, existing@[i as int].1@));
        i += 1;
    }
    assert(existing@.take(existing@.len() as int) =~= existing@);
    if existing.len() == 0 {
        prompt.append("(none)\n");
    }
    proof {
        reveal_strlit("");
    }
    assert(prompt@ =~= prompt_text(new_text@, existing@));
    prompt
}

/// The result of a decoded reply: the decision it asks for, its confidence
/// (0.5 when it gives none) and its reasoning (empty when it gives none).
pub fn resolution_of(reply: ResolutionReply, similar: &Vec<MemoryId>) -> (r: Result<
    ConflictResolutionResult,
    Error,
>)
    ensures
        r matches Err(e) ==> decision_outcome(reply, similar@, Err(e)),
        r matches Ok(res) ==> decision_outcome(reply, similar@, Ok(res.decision)) && res.confidence == (
        match reply.confidence {
            Some(c) => c,
            None => HALF_CONFIDENCE_BITS,
        }) && res.reasoning@ == (match reply.reasoning {
            Some(t) => t@,
            None => Seq::empty(),
        }),
        r is Err ==> (forall|d: ConflictDecision| !decision_outcome(reply, similar@, Ok(d))),
{
    let confidence = match reply.confidence {
        Some(c) => c,
        None => HALF_CONFIDENCE_BITS,
    };
    let reasoning = match &reply.reasoning {
        Some(t) => t.clone(),
        None => String::new(),
    };
    match decide(reply, similar) {
        Ok(decision) => Ok(ConflictResolutionResult { decision, confidence, reasoning }),
        Err(e) => Err(e),
    }
}

/// The result given without asking the model: with no similar memory the new
/// one is new, with full confidence. `None` when the model must be asked.
pub fn immediate_resolution(similar: &Vec<MemoryId>) -> (r: Option<ConflictResolutionResult>)
    ensures
        r is Some <==> similar@.len() == 0,
        r matches Some(res) ==> res.decision is Add && res.confidence == FULL_CONFIDENCE_BITS
            && res.reasoning@ == "No similar existing memories found"@,
{
    if similar.len() == 0 {
        Some(ConflictResolutionResult {
            decision: ConflictDecision::Add,
            confidence: FULL_CONFIDENCE_BITS,
            reasoning: owned("No similar existing memories found"),
        })
    } else {
        None
    }
}

} // verus!
