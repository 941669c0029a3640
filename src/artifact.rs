//! Protocol artifacts with a canonical byte encoding.

use vstd::prelude::*;

verus! {

/// A protocol value (key, message, envelope) with a deterministic byte
/// serialization and a deserialization that reconstructs it.
pub trait SerializableArtifact: View + Sized {
    /// Why serialization failed.
    type Error;

    /// The bytes that serialize `v`, or `None` where `v` cannot be serialized.
    spec fn spec_bytes(v: Self::V) -> Option<Seq<u8>>;

    /// The value that `bytes` encode, or `None` where they encode none.
    spec fn spec_parse(bytes: Seq<u8>) -> Option<Self::V>;

    /// Deserialization inverts serialization.
    proof fn lemma_parse_bytes(v: Self::V)
        ensures
            Self::spec_bytes(v) matches Some(b) ==> Self::spec_parse(b) == Some(v),
    ;

    /// Serializes the value.
    fn serialize(&self) -> (r: Result<Vec<u8>, Self::Error>)
        ensures
            match r {
                Ok(b) => Self::spec_bytes(self@) == Some(b@),
                Err(_) => Self::spec_bytes(self@) is None,
            },
    ;

    /// Reconstructs a value from its bytes.
    fn deserialize(bytes: &[u8]) -> (r: Option<Self>)
        ensures
            match r {
                Some(x) => Self::spec_parse(bytes@) == Some(x@),
                None => Self::spec_parse(bytes@) is None,
            },
    ;
}

/// Serialization is injective: two values with the same bytes are equal.
pub proof fn lemma_bytes_injective<A: SerializableArtifact>(v1: A::V, v2: A::V)
    requires
        A::spec_bytes(v1) is Some,
        A::spec_bytes(v1) == A::spec_bytes(v2),
    ensures
        v1 == v2,
{
    A::lemma_parse_bytes(v1);
    A::lemma_parse_bytes(v2);
}

/// An artifact that is a byte string of fixed length `N`, such as a digest or
/// an encoded group element of a given suite.
#[derive(Debug, Clone, PartialEq, Eq)]
pub struct FixedBytes<const N: usize> {
    bytes: Vec<u8>,
}

impl<const N: usize> View for FixedBytes<N> {
    type V = Seq<u8>;

    closed spec fn view(&self) -> Seq<u8> {
        self.bytes@
    }
}

impl<const N: usize> FixedBytes<N> {
    /// The value is exactly `N` bytes long.
    pub closed spec fn wf(&self) -> bool {
        self.bytes@.len() == N
    }

    /// Wraps `bytes` where they are exactly `N` bytes long.
    pub fn from_bytes(bytes: Vec<u8>) -> (r: Option<Self>)
        ensures
            match r {
                Some(x) => x.wf() && x@ == bytes@,
                None => bytes@.len() != N,
            },
    {
        if bytes.len() == N {
            Some(FixedBytes { bytes })
        } else {
            None
        }
    }

    /// The bytes of the value.
    pub fn as_bytes(&self) -> (r: &[u8])
        ensures
            r@ == self@,
    {
        self.bytes.as_slice()
    }
}

impl<const N: usize> SerializableArtifact for FixedBytes<N> {
    type Error = ();

    open spec fn spec_bytes(v: Seq<u8>) -> Option<Seq<u8>> {
        if v.len() == N {
            Some(v)
        } else {
            None
        }
    }

    open spec fn spec_parse(bytes: Seq<u8>) -> Option<Seq<u8>> {
        if bytes.len() == N {
            Some(bytes)
        } else {
            None
        }
    }

    proof fn lemma_parse_bytes(v: Seq<u8>) {
    }

    fn serialize(&self) -> (r: Result<Vec<u8>, ()>) {
        if self.bytes.len() == N {
            Ok(self.bytes.clone())
        } else {
            Err(())
        }
    }

    fn deserialize(bytes: &[u8]) -> (r: Option<Self>) {
        if bytes.len() == N {
            Some(FixedBytes { bytes: vstd::slice::slice_to_vec(bytes) })
        } else {
            None
        }
    }
}

} // verus!
