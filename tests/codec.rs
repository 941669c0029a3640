use opaque_ke::artifact::{FixedBytes, SerializableArtifact};
use opaque_ke::codec::{decode, encode, CodecError, EncodedForm};

fn artifact32(seed: u8) -> FixedBytes<32> {
    let bytes: Vec<u8> = (0..32u8).map(|i| i.wrapping_mul(7).wrapping_add(seed)).collect();
    FixedBytes::<32>::from_bytes(bytes).unwrap()
}

#[test]
fn round_trip_text() {
    let a = artifact32(5);
    let form = encode(&a, true).unwrap();
    assert!(matches!(form, EncodedForm::Text(_)));
    let back: FixedBytes<32> = decode(form).unwrap();
    assert_eq!(back, a);
}

#[test]
fn round_trip_binary() {
    let a = artifact32(9);
    let form = encode(&a, false).unwrap();
    assert_eq!(form, EncodedForm::Binary(a.as_bytes().to_vec()));
    let back: FixedBytes<32> = decode(form).unwrap();
    assert_eq!(back, a);
}

#[test]
fn text_and_binary_decode_to_same_artifact() {
    let a = artifact32(200);
    let from_text: FixedBytes<32> = decode(encode(&a, true).unwrap()).unwrap();
    let from_binary: FixedBytes<32> = decode(encode(&a, false).unwrap()).unwrap();
    assert_eq!(from_text, from_binary);
}

#[test]
fn text_form_is_standard_base64() {
    let a = FixedBytes::<3>::from_bytes(vec![1, 2, 3]).unwrap();
    assert_eq!(encode(&a, true).unwrap(), EncodedForm::Text("AQID".to_string()));
    let b = FixedBytes::<2>::from_bytes(vec![0xff, 0xfe]).unwrap();
    assert_eq!(encode(&b, true).unwrap(), EncodedForm::Text("//4=".to_string()));
}

#[test]
fn text_decodes_from_base64() {
    let back: FixedBytes<3> = decode(EncodedForm::Text("AQID".to_string())).unwrap();
    assert_eq!(back.as_bytes(), &[1u8, 2, 3][..]);
}

#[test]
fn foreign_symbol_is_malformed_text() {
    let r: Result<FixedBytes<3>, CodecError> = decode(EncodedForm::Text("AQ!D".to_string()));
    assert_eq!(r, Err(CodecError::MalformedText));
    let r: Result<FixedBytes<3>, CodecError> = decode(EncodedForm::Text("AQ ID".to_string()));
    assert_eq!(r, Err(CodecError::MalformedText));
}

#[test]
fn bad_padding_is_malformed_text() {
    let r: Result<FixedBytes<1>, CodecError> = decode(EncodedForm::Text("A===".to_string()));
    assert_eq!(r, Err(CodecError::MalformedText));
}

#[test]
fn short_binary_blob_is_invalid_artifact() {
    let blob = vec![7u8; 31];
    let r: Result<FixedBytes<32>, CodecError> = decode(EncodedForm::Binary(blob.clone()));
    assert_eq!(r, Err(CodecError::InvalidArtifact(blob)));
}

#[test]
fn wrong_length_text_is_invalid_artifact() {
    let r: Result<FixedBytes<4>, CodecError> = decode(EncodedForm::Text("AQID".to_string()));
    assert_eq!(r, Err(CodecError::InvalidArtifact(vec![1, 2, 3])));
}

#[test]
fn empty_artifact_round_trips() {
    let a = FixedBytes::<0>::from_bytes(Vec::new()).unwrap();
    let form = encode(&a, true).unwrap();
    assert_eq!(form, EncodedForm::Text(String::new()));
    let back: FixedBytes<0> = decode(form).unwrap();
    assert_eq!(back, a);
}

#[test]
fn fixed_bytes_rejects_wrong_length() {
    assert!(FixedBytes::<4>::from_bytes(vec![1, 2, 3]).is_none());
    assert!(FixedBytes::<4>::deserialize(&[1, 2, 3, 4, 5]).is_none());
    assert_eq!(FixedBytes::<2>::deserialize(&[9, 8]).unwrap().serialize(), Ok(vec![9, 8]));
}
