//! Vector embeddings: their dimension checks and their byte encoding. The
//! components are `f32` values, held here as their IEEE-754 bit patterns; the
//! arithmetic on them (similarity, distance, averages) is done by callers
//! in floating point.

use vstd::prelude::*;

use crate::error::Error;

verus! {

/// The four little-endian bytes of a component.
pub open spec fn component_byte(w: u32, j: int) -> u8 {
    (w >> ((8 * j) as u32)) as u8
}

/// The bytes of the components, each in little-endian order.
pub open spec fn le_bytes(values: Seq<u32>) -> Seq<u8> {
    Seq::new(4 * values.len(), |k: int| component_byte(values[k / 4], k % 4))
}

/// The component made of four little-endian bytes.
pub open spec fn component_of(b0: u8, b1: u8, b2: u8, b3: u8) -> u32 {
    (b0 as u32) | (b1 as u32) << 8u32 | (b2 as u32) << 16u32 | (b3 as u32) << 24u32
}

/// The components a byte string encodes, four bytes each.
pub open spec fn le_components(bytes: Seq<u8>) -> Seq<u32> {
    Seq::new(
        bytes.len() / 4,
        |i: int| component_of(bytes[4 * i], bytes[4 * i + 1], bytes[4 * i + 2], bytes[4 * i + 3]),
    )
}

proof fn lemma_component_bytes(w: u32)
    ensures
        component_of(
            component_byte(w, 0),
            component_byte(w, 1),
            component_byte(w, 2),
            component_byte(w, 3),
        ) == w,
{
    assert(w == ((w >> 0u32) as u8 as u32) | ((w >> 8u32) as u8 as u32) << 8u32 | ((w >> 16u32) as u8
        as u32) << 16u32 | ((w >> 24u32) as u8 as u32) << 24u32) by (bit_vector);
}

proof fn lemma_bytes_component(b0: u8, b1: u8, b2: u8, b3: u8)
    ensures
        component_byte(component_of(b0, b1, b2, b3), 0) == b0,
        component_byte(component_of(b0, b1, b2, b3), 1) == b1,
        component_byte(component_of(b0, b1, b2, b3), 2) == b2,
        component_byte(component_of(b0, b1, b2, b3), 3) == b3,
{
    let w = component_of(b0, b1, b2, b3);
    assert((w >> 0u32) as u8 == b0 && (w >> 8u32) as u8 == b1 && (w >> 16u32) as u8 == b2 && (w
        >> 24u32) as u8 == b3) by (bit_vector)
        requires
            w == (b0 as u32) | (b1 as u32) << 8u32 | (b2 as u32) << 16u32 | (b3 as u32) << 24u32,
    ;
}

/// Decoding the encoding of components gives the components back.
pub proof fn lemma_decode_encoded(values: Seq<u32>)
    ensures
        le_components(le_bytes(values)) == values,
{
    let b = le_bytes(values);
    assert(b.len() / 4 == values.len()) by (nonlinear_arith)
        requires
            b.len() == 4 * values.len(),
    ;
    assert forall|i: int| 0 <= i < values.len() implies #[trigger] le_components(b)[i] == values[i] by {
        assert((4 * i) / 4 == i && (4 * i + 1) / 4 == i && (4 * i + 2) / 4 == i && (4 * i + 3) / 4 == i);
        assert((4 * i) % 4 == 0 && (4 * i + 1) % 4 == 1 && (4 * i + 2) % 4 == 2 && (4 * i + 3) % 4 == 3);
        lemma_component_bytes(values[i]);
    }
    assert(le_components(b) =~= values);
}

/// Encoding the components of a byte string whose length is a multiple of
/// four gives the byte string back.
pub proof fn lemma_encode_decoded(bytes: Seq<u8>)
    requires
        bytes.len() % 4 == 0,
    ensures
        le_bytes(le_components(bytes)) == bytes,
{
    let v = le_components(bytes);
    assert(4 * (bytes.len() / 4) == bytes.len());
    assert forall|k: int| 0 <= k < bytes.len() implies #[trigger] le_bytes(v)[k] == bytes[k] by {
        let i = k / 4;
        let j = k % 4;
        assert(0 <= i < v.len());
        assert(k == 4 * i + j);
        lemma_bytes_component(bytes[4 * i], bytes[4 * i + 1], bytes[4 * i + 2], bytes[4 * i + 3]);
    }
    assert(le_bytes(v) =~= bytes);
}

/// A vector embedding with dimension validation.
#[derive(Debug, Clone)]
pub struct Embedding {
    values: Vec<u32>,
}

/// The error for two dimensions that differ.
pub open spec fn mismatch(e: Error, expected: usize, actual: usize) -> bool {
    e == Error::EmbeddingDimensionMismatch { expected, actual }
}

impl Embedding {
    /// The components, as `f32` bit patterns.
    pub closed spec fn view(&self) -> Seq<u32> {
        self.values@
    }

    /// Create a new embedding, its dimension that of the values.
    pub fn new(values: Vec<u32>) -> (r: Self)
        ensures
            r@ == values@,
    {
        Embedding { values }
    }

    /// Create a new embedding of an expected dimension; values of another
    /// length are refused.
    pub fn with_dimension(values: Vec<u32>, expected_dimension: usize) -> (r: Result<Self, Error>)
        ensures
            r is Ok <==> values@.len() == expected_dimension,
            r matches Ok(e) ==> e@ == values@,
            r matches Err(e) ==> mismatch(e, expected_dimension, values@.len() as usize),
    {
        if values.len() != expected_dimension {
            return Err(Error::EmbeddingDimensionMismatch { expected: expected_dimension, actual: values.len() });
        }
        Ok(Embedding { values })
    }

    /// The dimension of this embedding.
    pub fn dimension(&self) -> (d: usize)
        ensures
            d == self@.len(),
    {
        self.values.len()
    }

    /// The components, as `f32` bit patterns.
    pub fn values(&self) -> (r: &Vec<u32>)
        ensures
            r@ == self@,
    {
        &self.values
    }

    /// Convert to the owned components.
    pub fn into_values(self) -> (r: Vec<u32>)
        ensures
            r@ == self@,
    {
        self.values
    }

    /// A zero embedding of the given dimension.
    pub fn zeros(dimension: usize) -> (r: Self)
        ensures
            r@ == Seq::new(dimension as nat, |i: int| 0u32),
    {
        let mut values: Vec<u32> = Vec::new();
        let mut i: usize = 0;
        while i < dimension
            invariant
                i <= dimension,
                values@ == Seq::new(i as nat, |k: int| 0u32),
            decreases dimension - i,
        {
            values.push(0u32);
            i += 1;
            assert(values@ =~= Seq::new(i as nat, |k: int| 0u32));
        }
        Embedding { values }
    }

    /// Check that another embedding has this one's dimension; the error
    /// names this one's dimension as expected.
    pub fn check_same_dimension(&self, other: &Embedding) -> (r: Result<(), Error>)
        ensures
            r is Ok <==> self@.len() == other@.len(),
            r matches Err(e) ==> mismatch(e, self@.len() as usize, other@.len() as usize),
    {
        if self.values.len() != other.values.len() {
            return Err(Error::EmbeddingDimensionMismatch {
                expected: self.values.len(),
                actual: other.values.len(),
            });
        }
        Ok(())
    }

    /// The bytes for storage: each component's four bytes, little-endian.
    pub fn to_bytes(&self) -> (r: Vec<u8>)
        requires
            4 * self@.len() <= usize::MAX,
        ensures
            r@ == le_bytes(self@),
    {
        let mut out: Vec<u8> = Vec::new();
        let mut i: usize = 0;
        while i < self.values.len()
            invariant
                i <= self.values@.len(),
                4 * self.values@.len() <= usize::MAX,
                out@.len() == 4 * i,
                forall|k: int| 0 <= k < 4 * i ==> out@[k] == component_byte(self.values@[k / 4], k % 4),
            decreases self.values.len() - i,
        {
            let w = self.values[i];
            out.push(w as u8);
            out.push((w >> 8u32) as u8);
            out.push((w >> 16u32) as u8);
            out.push((w >> 24u32) as u8);
            proof {
                assert(w >> 0u32 == w) by (bit_vector);
                assert forall|k: int| 0 <= k < 4 * (i + 1) implies out@[k] == component_byte(
                    self.values@[k / 4],
                    k % 4,
                ) by {
                    if k >= 4 * i {
                        assert(k / 4 == i);
                    }
                }
            }
            i += 1;
        }
        assert(out@ =~= le_bytes(self@));
        out
    }

    /// Read an embedding from bytes; a length that is not a multiple of four
    /// is refused.
    pub fn from_bytes(bytes: &[u8]) -> (r: Result<Self, Error>)
        ensures
            r is Ok <==> bytes@.len() % 4 == 0,
            r matches Ok(e) ==> e@ == le_components(bytes@),
            r matches Err(e) ==> e == Error::InvalidEmbeddingBytes,
    {
        if bytes.len() % 4 != 0 {
            return Err(Error::InvalidEmbeddingBytes);
        }
        let len = bytes.len();
        let n = len / 4;
        let mut values: Vec<u32> = Vec::new();
        let mut i: usize = 0;
        while i < n
            invariant
                len == bytes@.len(),
                n == bytes@.len() / 4,
                i <= n,
                values@.len() == i,
                forall|j: int| 0 <= j < i ==> values@[j] == le_components(bytes@)[j],
            decreases n - i,
        {
            assert(4 * i + 3 < bytes@.len()) by (nonlinear_arith)
                requires
                    i < n,
                    n == bytes@.len() / 4,
            ;
            let b = 4 * i;
            let w = (bytes[b] as u32) | (bytes[b + 1] as u32) << 8u32 | (bytes[b + 2] as u32) << 16u32
                | (bytes[b + 3] as u32) << 24u32;
            values.push(w);
            i += 1;
        }
        assert(values@ =~= le_components(bytes@));
        Ok(Self::new(values))
    }

    /// The dimension shared by a non-empty list of embeddings: the error is
    /// the empty list, or the first embedding whose dimension differs from
    /// the first one's.
    pub fn common_dimension(embeddings: &Vec<Embedding>) -> (r: Result<usize, Error>)
        ensures
            embeddings@.len() == 0 ==> r == Err::<usize, Error>(Error::EmptyEmbeddingList),
            embeddings@.len() > 0 ==> (r is Ok <==> forall|i: int|
                0 <= i < embeddings@.len() ==> (#[trigger] embeddings@[i])@.len() == embeddings@[0]@.len()),
            r matches Ok(d) ==> d == embeddings@[0]@.len(),
            r matches Err(e) ==> (embeddings@.len() > 0 ==> exists|i: int|
                0 < i < embeddings@.len() && (forall|j: int|
                    0 <= j < i ==> (#[trigger] embeddings@[j])@.len() == embeddings@[0]@.len())
                    && mismatch(e, embeddings@[0]@.len() as usize, (#[trigger] embeddings@[i])@.len() as usize)),
    {
        if embeddings.len() == 0 {
            return Err(Error::EmptyEmbeddingList);
        }
        let dimension = embeddings[0].dimension();
        let mut i: usize = 1;
        while i < embeddings.len()
            invariant
                1 <= i <= embeddings@.len(),
                dimension == embeddings@[0]@.len(),
                forall|j: int| 0 <= j < i ==> (#[trigger] embeddings@[j])@.len() == dimension,
            decreases embeddings.len() - i,
        {
            let d = embeddings[i].dimension();
            if d != dimension {
                return Err(Error::EmbeddingDimensionMismatch { expected: dimension, actual: d });
            }
            i += 1;
        }
        Ok(dimension)
    }
}

} // verus!
