//! The text alphabet: standard, padded base64.

use vstd::prelude::*;

verus! {

/// The standard padded base64 encoding of `bytes`.
pub uninterp spec fn base64_text(bytes: Seq<u8>) -> Seq<char>;

/// What standard base64 decoding makes of `text`: its bytes, or `None`
/// where the text is not base64.
pub uninterp spec fn base64_bytes(text: Seq<char>) -> Option<Seq<u8>>;

/// A character of the standard base64 alphabet, or its padding character.
pub open spec fn is_base64_symbol(c: char) -> bool {
    ('A' <= c && c <= 'Z') || ('a' <= c && c <= 'z') || ('0' <= c && c <= '9') || c == '+'
        || c == '/' || c == '='
}

/// `text` holds a character that base64 does not use.
pub open spec fn has_foreign_symbol(text: Seq<char>) -> bool {
    exists|i: int| 0 <= i < text.len() && !is_base64_symbol(#[trigger] text[i])
}

#[verifier::external_type_specification]
#[verifier::external_body]
pub struct ExBase64DecodeError(base64::DecodeError);

/// Relies on `base64::encode`: the standard alphabet with padding, so every
/// character of the result is a base64 symbol.
#[verifier::external_body]
pub(crate) fn encode_base64(bytes: &[u8]) -> (r: String)
    ensures
        r@ == base64_text(bytes@),
        forall|i: int| 0 <= i < r@.len() ==> is_base64_symbol(#[trigger] r@[i]),
{
    base64::encode(bytes)
}

/// Relies on `base64::decode` with the standard alphabet: it inverts
/// `base64::encode`, and rejects any byte outside the alphabet.
#[verifier::external_body]
pub(crate) fn decode_base64(text: &str) -> (r: Result<Vec<u8>, base64::DecodeError>)
    ensures
        r is Ok ==> base64_bytes(text@) == Some(r->Ok_0@),
        r is Err ==> base64_bytes(text@) is None,
        forall|b: Seq<u8>| #[trigger] base64_text(b) == text@ ==> r is Ok && r->Ok_0@ == b,
        has_foreign_symbol(text@) ==> r is Err,
{
    base64::decode(text)
}

} // verus!
