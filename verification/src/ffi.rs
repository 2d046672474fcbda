//! The C boundary's rules: status codes, the checks a `(pointer, length)`
//! pair must pass before it is read as a slice, and the records returned to
//! C callers as JSON.

use vstd::prelude::*;

use crate::memory_type::{memory_type_named, MemoryType};

verus! {

/// Success.
pub const MEMBRAIN_OK: i32 = 0;
/// A required pointer was null.
pub const MEMBRAIN_ERR_NULL_POINTER: i32 = -1;
/// A string argument was not valid UTF-8.
pub const MEMBRAIN_ERR_INVALID_UTF8: i32 = -2;
/// Storing failed.
pub const MEMBRAIN_ERR_STORE: i32 = -4;
/// A query failed.
pub const MEMBRAIN_ERR_QUERY: i32 = -5;
/// Serialization failed.
pub const MEMBRAIN_ERR_SERIALIZE: i32 = -6;
/// A graph operation failed.
pub const MEMBRAIN_ERR_GRAPH: i32 = -8;
/// An index operation failed.
pub const MEMBRAIN_ERR_INDEX: i32 = -9;
/// A distributed operation failed.
pub const MEMBRAIN_ERR_DISTRIBUTED: i32 = -10;
/// `len * size_of::<T>()` does not fit in `usize`.
pub const MEMBRAIN_ERR_OVERFLOW: i32 = -20;
/// The pointer is not aligned for the element type.
pub const MEMBRAIN_ERR_MISALIGNED: i32 = -21;

/// The status a `(pointer, length)` pair earns: null first, then a byte length
/// that overflows, then misalignment.
pub open spec fn slice_status(addr: usize, len: usize, elem_size: usize, align: usize) -> i32 {
    if addr == 0 {
        MEMBRAIN_ERR_NULL_POINTER
    } else if len * elem_size > usize::MAX {
        MEMBRAIN_ERR_OVERFLOW
    } else if addr % align != 0 {
        MEMBRAIN_ERR_MISALIGNED
    } else {
        MEMBRAIN_OK
    }
}

/// Check a `(pointer, length)` pair, given the pointer's address and the size
/// and alignment of the element type: the pointer must be non-null, the byte
/// length `len * elem_size` must fit in `usize`, and the address must be a
/// multiple of the alignment. It cannot tell whether the memory is there.
pub fn check_slice(addr: usize, len: usize, elem_size: usize, align: usize) -> (r: Result<(), i32>)
    requires
        align > 0,
    ensures
        r is Ok <==> slice_status(addr, len, elem_size, align) == MEMBRAIN_OK,
        r matches Err(code) ==> code == slice_status(addr, len, elem_size, align),
{
    if addr == 0 {
        return Err(MEMBRAIN_ERR_NULL_POINTER);
    }
    if len.checked_mul(elem_size).is_none() {
        return Err(MEMBRAIN_ERR_OVERFLOW);
    }
    if addr % align != 0 {
        return Err(MEMBRAIN_ERR_MISALIGNED);
    }
    Ok(())
}

/// The last-error message recorded for a failed slice check.
pub open spec fn slice_fault_message(code: i32) -> Seq<char> {
    if code == MEMBRAIN_ERR_NULL_POINTER {
        "null pointer"@
    } else if code == MEMBRAIN_ERR_OVERFLOW {
        "length * size_of::<T> overflows usize"@
    } else {
        "pointer misaligned for target type"@
    }
}

/// The last-error message for a failed slice check.
pub fn slice_fault(code: i32) -> (r: &'static str)
    ensures
        r@ == slice_fault_message(code),
{
    if code == MEMBRAIN_ERR_NULL_POINTER {
        "null pointer"
    } else if code == MEMBRAIN_ERR_OVERFLOW {
        "length * size_of::<T> overflows usize"
    } else {
        "pointer misaligned for target type"
    }
}

/// The memory types named in a filter, in order; names that are not memory
/// types are skipped.
pub open spec fn named_types(names: Seq<String>) -> Seq<MemoryType>
    decreases names.len(),
{
    if names.len() == 0 {
        Seq::empty()
    } else {
        match memory_type_named(names.last()@) {
            Some(t) => named_types(names.drop_last()).push(t),
            None => named_types(names.drop_last()),
        }
    }
}

/// Read the memory types of a search filter from their snake_case names.
pub fn parse_memory_types(names: &Vec<String>) -> (r: Vec<MemoryType>)
    ensures
        r@ == named_types(names@),
{
    let mut r: Vec<MemoryType> = Vec::new();
    let mut i: usize = 0;
    while i < names.len()
        invariant
            i <= names@.len(),
            r@ == named_types(names@.take(i as int)),
        decreases names.len() - i,
    {
        assert(names@.take(i as int + 1).drop_last() =~= names@.take(i as int));
        if let Some(t) = MemoryType::from_name(names[i].as_str()) {
            r.push(t);
        }
        i += 1;
    }
    assert(names@.take(names@.len() as int) =~= names@);
    r
}

/// Result of a store operation.
#[derive(Debug, Clone)]
pub struct StoreResult {
    pub success: bool,
    pub id: Option<String>,
    pub merged_with: Option<String>,
    pub rejection_reason: Option<String>,
    pub duration_ms: u64,
}

/// Vector backend health check result.
#[derive(Debug, Clone)]
pub struct VectorBackendHealthResult {
    pub status: String,
    pub backend: String,
}

/// Vector backend capabilities.
#[derive(Debug, Clone, Copy, PartialEq, Eq, Structural)]
pub struct VectorBackendCapabilities {
    pub supports_metadata_filtering: bool,
    pub supports_hybrid_search: bool,
    pub supports_batch_operations: bool,
    pub max_dimension: usize,
}

/// Vector backend statistics result.
#[derive(Debug, Clone)]
pub struct VectorBackendStatsResult {
    pub backend: String,
    pub total_vectors: usize,
    pub capabilities: VectorBackendCapabilities,
}

/// JSON-serializable pruning result.
#[derive(Debug, Clone, Copy, PartialEq, Eq, Structural)]
pub struct GraphPruningResultJson {
    pub edges_removed: usize,
    pub nodes_removed: usize,
    pub edges_remaining: usize,
    pub nodes_remaining: usize,
}

/// JSON-serializable graph info.
#[derive(Debug, Clone, Copy, PartialEq, Eq, Structural)]
pub struct GraphInfoJson {
    pub node_count: usize,
    pub edge_count: usize,
}

} // verus!
