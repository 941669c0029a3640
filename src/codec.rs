//! Converts protocol artifacts to and from their transport form: base64 text
//! for text-oriented destinations, raw bytes otherwise.

use vstd::prelude::*;
use crate::artifact::{FixedBytes, SerializableArtifact};
use crate::text::{base64_bytes, base64_text, decode_base64, encode_base64, has_foreign_symbol};

verus! {

/// The transport representation of an artifact.
#[derive(Debug, Clone, PartialEq, Eq)]
pub enum EncodedForm {
    /// The serialized bytes in base64.
    Text(String),
    /// The serialized bytes as they are.
    Binary(Vec<u8>),
}

/// The mathematical value of an `EncodedForm`.
pub enum EncodedView {
    Text(Seq<char>),
    Binary(Seq<u8>),
}

impl View for EncodedForm {
    type V = EncodedView;

    open spec fn view(&self) -> EncodedView {
        match self {
            EncodedForm::Text(s) => EncodedView::Text(s@),
            EncodedForm::Binary(b) => EncodedView::Binary(b@),
        }
    }
}

/// Why an encoded artifact could not be decoded.
#[derive(Debug, Clone, PartialEq, Eq)]
pub enum CodecError {
    /// The text is not base64.
    MalformedText,
    /// The bytes do not encode an artifact; they are carried here.
    InvalidArtifact(Vec<u8>),
}

/// The transport form of the artifact `v`, in text or binary, or `None`
/// where `v` cannot be serialized.
pub open spec fn encoded<A: SerializableArtifact>(v: A::V, text: bool) -> Option<EncodedView> {
    match A::spec_bytes(v) {
        Some(b) => Some(
            if text {
                EncodedView::Text(base64_text(b))
            } else {
                EncodedView::Binary(b)
            },
        ),
        None => None,
    }
}

/// `r` is what deserializing `bytes` gives: the artifact they encode, or
/// `InvalidArtifact` carrying them.
pub open spec fn parsed<A: SerializableArtifact>(bytes: Seq<u8>, r: Result<A, CodecError>) -> bool {
    match A::spec_parse(bytes) {
        Some(v) => r matches Ok(x) && x@ == v,
        None => r matches Err(CodecError::InvalidArtifact(b)) && b@ == bytes,
    }
}

/// `r` is what decoding `form` gives. Binary forms are deserialized as they
/// are; text forms are first decoded from base64, and text that is not base64
/// gives `MalformedText`.
pub open spec fn decoded<A: SerializableArtifact>(form: EncodedView, r: Result<A, CodecError>) -> bool {
    match form {
        EncodedView::Binary(b) => parsed(b, r),
        EncodedView::Text(s) => {
            &&& match base64_bytes(s) {
                Some(b) => parsed(b, r),
                None => r matches Err(CodecError::MalformedText),
            }
            &&& forall|b: Seq<u8>| #[trigger] base64_text(b) == s ==> parsed(b, r)
            &&& has_foreign_symbol(s) ==> r matches Err(CodecError::MalformedText)
        },
    }
}

/// Encodes `artifact` for a text-oriented destination (`text`) or a binary
/// one. A serialization failure is returned as the artifact reported it.
pub fn encode<A: SerializableArtifact>(artifact: &A, text: bool) -> (r: Result<EncodedForm, A::Error>)
    ensures
        match r {
            Ok(f) => encoded::<A>(artifact@, text) == Some(f@),
            Err(_) => encoded::<A>(artifact@, text) is None,
        },
{
    let bytes = artifact.serialize()?;
    if text {
        Ok(EncodedForm::Text(encode_base64(bytes.as_slice())))
    } else {
        Ok(EncodedForm::Binary(bytes))
    }
}

/// Deserializes `bytes`, keeping them in the error where they encode no artifact.
fn deserialize_bytes<A: SerializableArtifact>(bytes: Vec<u8>) -> (r: Result<A, CodecError>)
    ensures
        parsed(bytes@, r),
{
    match A::deserialize(bytes.as_slice()) {
        Some(x) => Ok(x),
        None => Err(CodecError::InvalidArtifact(bytes)),
    }
}

/// Decodes an artifact from its transport form.
pub fn decode<A: SerializableArtifact>(form: EncodedForm) -> (r: Result<A, CodecError>)
    ensures
        decoded(form@, r),
{
    match form {
        EncodedForm::Text(s) => match decode_base64(s.as_str()) {
            Ok(bytes) => deserialize_bytes(bytes),
            Err(_) => Err(CodecError::MalformedText),
        },
        EncodedForm::Binary(bytes) => deserialize_bytes(bytes),
    }
}

/// Decoding inverts encoding: whichever form a serializable artifact is
/// encoded in, decoding that form gives the artifact back.
pub proof fn lemma_round_trip<A: SerializableArtifact>(
    v: A::V,
    text: bool,
    form: EncodedView,
    r: Result<A, CodecError>,
)
    requires
        encoded::<A>(v, text) == Some(form),
        decoded(form, r),
    ensures
        r is Ok,
        r->Ok_0@ == v,
{
    A::lemma_parse_bytes(v);
}

/// The text form decoded through base64 and the binary form decoded directly
/// give the same artifact.
pub proof fn lemma_formats_agree<A: SerializableArtifact>(
    v: A::V,
    text_form: EncodedView,
    binary_form: EncodedView,
    from_text: Result<A, CodecError>,
    from_binary: Result<A, CodecError>,
)
    requires
        encoded::<A>(v, true) == Some(text_form),
        encoded::<A>(v, false) == Some(binary_form),
        decoded(text_form, from_text),
        decoded(binary_form, from_binary),
    ensures
        from_text is Ok,
        from_binary is Ok,
        from_text->Ok_0@ == from_binary->Ok_0@,
{
    lemma_round_trip::<A>(v, true, text_form, from_text);
    lemma_round_trip::<A>(v, false, binary_form, from_binary);
}

/// Text holding a character outside the base64 alphabet is rejected as
/// malformed, before any deserialization.
pub proof fn lemma_foreign_symbol_malformed<A: SerializableArtifact>(
    s: Seq<char>,
    r: Result<A, CodecError>,
)
    requires
        has_foreign_symbol(s),
        decoded(EncodedView::Text(s), r),
    ensures
        r matches Err(CodecError::MalformedText),
{
}

/// A binary blob one byte shorter than a fixed-length artifact is rejected as
/// an invalid artifact, which carries the blob.
pub proof fn lemma_short_blob_invalid<const N: usize>(
    b: Seq<u8>,
    r: Result<FixedBytes<N>, CodecError>,
)
    requires
        b.len() + 1 == N,
        decoded(EncodedView::Binary(b), r),
    ensures
        r matches Err(CodecError::InvalidArtifact(e)) && e@ == b,
{
}

} // verus!
