//! Strongly-typed identifiers. Each identifier is a UUID, held here as its
//! 128-bit value in big-endian order (the order `uuid::Uuid::as_u128` uses).

use vstd::prelude::*;

verus! {

/// The number of hyphens that precede position `i` of the hyphenated form.
pub open spec fn hyphens_before(i: int) -> int {
    if i > 23 {
        4
    } else if i > 18 {
        3
    } else if i > 13 {
        2
    } else if i > 8 {
        1
    } else {
        0
    }
}

/// Lower-case hexadecimal digit for a nibble.
pub open spec fn hex_digit(n: u128) -> char {
    "0123456789abcdef"@[n as int]
}

/// The hyphenated lower-case text of a UUID, such as
/// `67e55044-10b1-426f-9247-bb680e5fe0c8`: 32 hex digits, most significant
/// first, with hyphens after the 8th, 12th, 16th and 20th digit.
pub open spec fn uuid_text(v: u128) -> Seq<char> {
    Seq::new(
        36,
        |i: int|
            if i == 8 || i == 13 || i == 18 || i == 23 {
                '-'
            } else {
                hex_digit((v >> ((4 * (31 - (i - hyphens_before(i)))) as u128)) & 0xf)
            },
    )
}

/// What `uuid::Uuid::parse_str` accepts and produces, as a 128-bit value.
pub uninterp spec fn uuid_parsed(s: Seq<char>) -> Option<u128>;

/// A version-7 UUID of the RFC 4122 variant: its version nibble (bits 76 to
/// 79) is 7 and its two variant bits (62 and 63) are `10`.
pub open spec fn is_v7(v: u128) -> bool {
    &&& (v >> 76u128) & 0xfu128 == 7
    &&& (v >> 62u128) & 0x3u128 == 2
}

/// Calls `uuid::Uuid::now_v7`, a fresh time-ordered UUID. Its documentation
/// promises a version-7 UUID, and its source (`encode_unix_timestamp_millis`)
/// sets the version nibble to 7 and the RFC 4122 variant; the timestamp and
/// the random bits depend on the clock and on chance, and are not claimed.
#[verifier::external_body]
fn fresh_v7() -> (r: u128)
    ensures
        is_v7(r),
{
    uuid::Uuid::now_v7().as_u128()
}

/// A version-4 (random) UUID of the RFC 4122 variant: its version nibble
/// (bits 76 to 79) is 4 and its two variant bits (62 and 63) are `10`.
pub open spec fn is_v4(v: u128) -> bool {
    &&& (v >> 76u128) & 0xfu128 == 4
    &&& (v >> 62u128) & 0x3u128 == 2
}

/// Calls `uuid::Uuid::new_v4`, a fresh random UUID. Its source masks the
/// random bits to set version 4 and the RFC 4122 variant; the other bits
/// depend on chance and are not claimed.
#[verifier::external_body]
pub(crate) fn fresh_v4() -> (r: u128)
    ensures
        is_v4(r),
{
    uuid::Uuid::new_v4().as_u128()
}

/// Calls the `Display` of `uuid::Uuid` (built with `Uuid::from_u128`), which
/// writes the hyphenated lower-case form, as its source in `fmt.rs` shows.
#[verifier::external_body]
pub(crate) fn render_uuid(v: u128) -> (r: String)
    ensures
        r@ == uuid_text(v),
{
    uuid::Uuid::from_u128(v).to_string()
}

/// Calls `uuid::Uuid::parse_str`; the result is named, not restated: the
/// parser accepts the simple, hyphenated, braced and URN forms. What is
/// claimed beyond the name: the hyphenated form that `Display` writes parses
/// back to the same value, as the documentation promises; and, as the
/// source's `try_parse` shows, only ASCII texts of 32, 36, 38 or 45
/// characters parse at all.
#[verifier::external_body]
pub(crate) fn parse_uuid(s: &str) -> (r: Option<u128>)
    ensures
        r == uuid_parsed(s@),
        forall|v: u128| #[trigger] uuid_text(v) == s@ ==> r == Some(v),
        r is Some ==> (s@.len() == 32 || s@.len() == 36 || s@.len() == 38 || s@.len() == 45),
{
    match uuid::Uuid::parse_str(s) {
        Ok(u) => Some(u.as_u128()),
        Err(_) => None,
    }
}

/// The sixteen bytes of a UUID value, most significant first (the layout of
/// `uuid::Uuid::as_bytes`).
pub open spec fn be_bytes(v: u128) -> Seq<u8> {
    Seq::new(16, |i: int| (v >> ((8 * (15 - i)) as u128)) as u8)
}

/// The value of sixteen bytes read most significant first.
pub open spec fn be_value(b: Seq<u8>) -> u128 {
    (b[0] as u128) << 120u128 | (b[1] as u128) << 112u128 | (b[2] as u128) << 104u128
        | (b[3] as u128) << 96u128 | (b[4] as u128) << 88u128 | (b[5] as u128) << 80u128
        | (b[6] as u128) << 72u128 | (b[7] as u128) << 64u128 | (b[8] as u128) << 56u128
        | (b[9] as u128) << 48u128 | (b[10] as u128) << 40u128 | (b[11] as u128) << 32u128
        | (b[12] as u128) << 24u128 | (b[13] as u128) << 16u128 | (b[14] as u128) << 8u128
        | (b[15] as u128)
}

/// Reading back the bytes of a value gives the value.
pub proof fn lemma_value_of_bytes(v: u128)
    ensures
        be_value(be_bytes(v)) == v,
{
    let b = be_bytes(v);
    assert(b[0] == (v >> 120u128) as u8 && b[1] == (v >> 112u128) as u8 && b[2] == (v >> 104u128) as u8
        && b[3] == (v >> 96u128) as u8 && b[4] == (v >> 88u128) as u8 && b[5] == (v >> 80u128) as u8
        && b[6] == (v >> 72u128) as u8 && b[7] == (v >> 64u128) as u8 && b[8] == (v >> 56u128) as u8
        && b[9] == (v >> 48u128) as u8 && b[10] == (v >> 40u128) as u8 && b[11] == (v >> 32u128) as u8
        && b[12] == (v >> 24u128) as u8 && b[13] == (v >> 16u128) as u8 && b[14] == (v >> 8u128) as u8
        && b[15] == (v >> 0u128) as u8);
    assert(v == (((v >> 120u128) as u8) as u128) << 120u128 | (((v >> 112u128) as u8) as u128) << 112u128
        | (((v >> 104u128) as u8) as u128) << 104u128 | (((v >> 96u128) as u8) as u128) << 96u128
        | (((v >> 88u128) as u8) as u128) << 88u128 | (((v >> 80u128) as u8) as u128) << 80u128
        | (((v >> 72u128) as u8) as u128) << 72u128 | (((v >> 64u128) as u8) as u128) << 64u128
        | (((v >> 56u128) as u8) as u128) << 56u128 | (((v >> 48u128) as u8) as u128) << 48u128
        | (((v >> 40u128) as u8) as u128) << 40u128 | (((v >> 32u128) as u8) as u128) << 32u128
        | (((v >> 24u128) as u8) as u128) << 24u128 | (((v >> 16u128) as u8) as u128) << 16u128
        | (((v >> 8u128) as u8) as u128) << 8u128 | (((v >> 0u128) as u8) as u128)) by (bit_vector);
}

/// Taking the bytes of the value of sixteen bytes gives those bytes.
pub proof fn lemma_bytes_of_value(b: Seq<u8>)
    requires
        b.len() == 16,
    ensures
        be_bytes(be_value(b)) == b,
{
    let w = be_value(b);
    let (b0, b1, b2, b3, b4, b5, b6, b7) = (b[0], b[1], b[2], b[3], b[4], b[5], b[6], b[7]);
    let (b8, b9, b10, b11, b12, b13, b14, b15) = (b[8], b[9], b[10], b[11], b[12], b[13], b[14], b[15]);
    assert((w >> 120u128) as u8 == b0 && (w >> 112u128) as u8 == b1 && (w >> 104u128) as u8 == b2
        && (w >> 96u128) as u8 == b3 && (w >> 88u128) as u8 == b4 && (w >> 80u128) as u8 == b5
        && (w >> 72u128) as u8 == b6 && (w >> 64u128) as u8 == b7 && (w >> 56u128) as u8 == b8
        && (w >> 48u128) as u8 == b9 && (w >> 40u128) as u8 == b10 && (w >> 32u128) as u8 == b11
        && (w >> 24u128) as u8 == b12 && (w >> 16u128) as u8 == b13 && (w >> 8u128) as u8 == b14
        && (w >> 0u128) as u8 == b15) by (bit_vector)
        requires
            w == (b0 as u128) << 120u128 | (b1 as u128) << 112u128 | (b2 as u128) << 104u128
                | (b3 as u128) << 96u128 | (b4 as u128) << 88u128 | (b5 as u128) << 80u128
                | (b6 as u128) << 72u128 | (b7 as u128) << 64u128 | (b8 as u128) << 56u128
                | (b9 as u128) << 48u128 | (b10 as u128) << 40u128 | (b11 as u128) << 32u128
                | (b12 as u128) << 24u128 | (b13 as u128) << 16u128 | (b14 as u128) << 8u128
                | (b15 as u128),
    ;
    assert(be_bytes(w) =~= b);
}

/// The bytes of a UUID value, most significant first.
fn bytes_of(v: u128) -> (r: [u8; 16])
    ensures
        r@ == be_bytes(v),
{
    let r: [u8; 16] = [
        (v >> 120u128) as u8,
        (v >> 112u128) as u8,
        (v >> 104u128) as u8,
        (v >> 96u128) as u8,
        (v >> 88u128) as u8,
        (v >> 80u128) as u8,
        (v >> 72u128) as u8,
        (v >> 64u128) as u8,
        (v >> 56u128) as u8,
        (v >> 48u128) as u8,
        (v >> 40u128) as u8,
        (v >> 32u128) as u8,
        (v >> 24u128) as u8,
        (v >> 16u128) as u8,
        (v >> 8u128) as u8,
        v as u8,
    ];
    assert(v >> 0u128 == v) by (bit_vector);
    assert(r@ =~= be_bytes(v));
    r
}

/// The UUID value of sixteen bytes, most significant first.
fn value_from_bytes(b: [u8; 16]) -> (r: u128)
    ensures
        r == be_value(b@),
{
    (b[0] as u128) << 120u128 | (b[1] as u128) << 112u128 | (b[2] as u128) << 104u128
        | (b[3] as u128) << 96u128 | (b[4] as u128) << 88u128 | (b[5] as u128) << 80u128
        | (b[6] as u128) << 72u128 | (b[7] as u128) << 64u128 | (b[8] as u128) << 56u128
        | (b[9] as u128) << 48u128 | (b[10] as u128) << 40u128 | (b[11] as u128) << 32u128
        | (b[12] as u128) << 24u128 | (b[13] as u128) << 16u128 | (b[14] as u128) << 8u128
        | (b[15] as u128)
}

/// The 48-bit millisecond timestamp carried by a version-7 UUID: its first six
/// bytes, read big-endian.
pub open spec fn v7_timestamp(v: u128) -> u64 {
    (v >> 80u128) as u64
}

/// Unique identifier for a memory entry.
#[derive(Debug, Clone, Copy, PartialEq, Eq, Hash, Structural)]
pub struct MemoryId(pub u128);

impl MemoryId {
    /// Create a new unique memory ID using UUID v7 (time-ordered).
    pub fn new() -> (r: Self)
        ensures
            is_v7(r.0),
    {
        MemoryId(fresh_v7())
    }

    /// Create from the 128-bit value of an existing UUID.
    pub fn from_u128(v: u128) -> (r: Self)
        ensures
            r.0 == v,
    {
        MemoryId(v)
    }

    /// The identifier as bytes for storage, most significant first.
    pub fn as_bytes(&self) -> (r: [u8; 16])
        ensures
            r@ == be_bytes(self.0),
    {
        bytes_of(self.0)
    }

    /// Create from bytes, most significant first.
    pub fn from_bytes(bytes: [u8; 16]) -> (r: Self)
        ensures
            r.0 == be_value(bytes@),
    {
        MemoryId(value_from_bytes(bytes))
    }

    /// The 128-bit value of the underlying UUID.
    pub fn as_u128(&self) -> (r: u128)
        ensures
            r == self.0,
    {
        self.0
    }

    /// Extract the timestamp of a UUID v7 (milliseconds since the Unix epoch).
    pub fn timestamp_millis(&self) -> (r: Option<u64>)
        ensures
            r == Some(v7_timestamp(self.0)),
    {
        let t = (self.0 >> 80u128) as u64;
        Some(t)
    }

    /// The hyphenated text of this identifier.
    pub fn to_text(&self) -> (r: String)
        ensures
            r@ == uuid_text(self.0),
    {
        render_uuid(self.0)
    }

    /// Parse an identifier from UUID text.
    pub fn parse(s: &str) -> (r: Option<MemoryId>)
        ensures
            r == (match uuid_parsed(s@) {
                Some(v) => Some(MemoryId(v)),
                None => None,
            }),
            forall|v: u128| #[trigger] uuid_text(v) == s@ ==> r == Some(MemoryId(v)),
    {
        match parse_uuid(s) {
            Some(v) => Some(MemoryId(v)),
            None => None,
        }
    }
}

/// Unique identifier for an agent.
#[derive(Debug, Clone, Copy, PartialEq, Eq, Hash, Structural)]
pub struct AgentId(pub u128);

impl AgentId {
    /// Create a new unique agent ID.
    pub fn new() -> (r: Self)
        ensures
            is_v7(r.0),
    {
        AgentId(fresh_v7())
    }

    /// Create from the 128-bit value of an existing UUID.
    pub fn from_u128(v: u128) -> (r: Self)
        ensures
            r.0 == v,
    {
        AgentId(v)
    }

    /// The identifier as bytes for storage, most significant first.
    pub fn as_bytes(&self) -> (r: [u8; 16])
        ensures
            r@ == be_bytes(self.0),
    {
        bytes_of(self.0)
    }

    /// Create from bytes, most significant first.
    pub fn from_bytes(bytes: [u8; 16]) -> (r: Self)
        ensures
            r.0 == be_value(bytes@),
    {
        AgentId(value_from_bytes(bytes))
    }

    /// The hyphenated text of this identifier.
    pub fn to_text(&self) -> (r: String)
        ensures
            r@ == uuid_text(self.0),
    {
        render_uuid(self.0)
    }

    /// Parse an identifier from UUID text.
    pub fn parse(s: &str) -> (r: Option<AgentId>)
        ensures
            r == (match uuid_parsed(s@) {
                Some(v) => Some(AgentId(v)),
                None => None,
            }),
            forall|v: u128| #[trigger] uuid_text(v) == s@ ==> r == Some(AgentId(v)),
    {
        match parse_uuid(s) {
            Some(v) => Some(AgentId(v)),
            None => None,
        }
    }
}

/// Unique identifier for a session/conversation.
#[derive(Debug, Clone, Copy, PartialEq, Eq, Hash, Structural)]
pub struct SessionId(pub u128);

impl SessionId {
    /// Create a new unique session ID.
    pub fn new() -> (r: Self)
        ensures
            is_v7(r.0),
    {
        SessionId(fresh_v7())
    }

    /// Create from the 128-bit value of an existing UUID.
    pub fn from_u128(v: u128) -> (r: Self)
        ensures
            r.0 == v,
    {
        SessionId(v)
    }

    /// The identifier as bytes for storage, most significant first.
    pub fn as_bytes(&self) -> (r: [u8; 16])
        ensures
            r@ == be_bytes(self.0),
    {
        bytes_of(self.0)
    }

    /// Create from bytes, most significant first.
    pub fn from_bytes(bytes: [u8; 16]) -> (r: Self)
        ensures
            r.0 == be_value(bytes@),
    {
        SessionId(value_from_bytes(bytes))
    }

    /// The hyphenated text of this identifier.
    pub fn to_text(&self) -> (r: String)
        ensures
            r@ == uuid_text(self.0),
    {
        render_uuid(self.0)
    }

    /// Parse an identifier from UUID text.
    pub fn parse(s: &str) -> (r: Option<SessionId>)
        ensures
            r == (match uuid_parsed(s@) {
                Some(v) => Some(SessionId(v)),
                None => None,
            }),
            forall|v: u128| #[trigger] uuid_text(v) == s@ ==> r == Some(SessionId(v)),
    {
        match parse_uuid(s) {
            Some(v) => Some(SessionId(v)),
            None => None,
        }
    }
}

} // verus!
