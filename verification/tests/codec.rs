use printer::base64::{decode, encode};
use printer::error::PrintError;

fn bytes(s: &str) -> Vec<u8> {
    s.as_bytes().to_vec()
}

#[test]
fn decode_three_bytes() {
    assert_eq!(decode(&bytes("QUJD")).unwrap(), b"ABC".to_vec());
}

#[test]
fn decode_one_byte_padding() {
    assert_eq!(decode(&bytes("QQ==")).unwrap(), b"A".to_vec());
}

#[test]
fn decode_two_byte_padding() {
    assert_eq!(decode(&bytes("QUI=")).unwrap(), b"AB".to_vec());
}

#[test]
fn decode_empty() {
    assert_eq!(decode(&bytes("")).unwrap(), Vec::<u8>::new());
}

#[test]
fn decode_longer_text() {
    assert_eq!(
        decode(&bytes("aGVsbG8gd29ybGQ=")).unwrap(),
        b"hello world".to_vec()
    );
}

#[test]
fn decode_all_alphabet_ranges() {
    // 'z' (lower), '9' (digit), '+' and '/' all appear.
    assert_eq!(decode(&bytes("+/9z")).unwrap(), vec![0xfb, 0xff, 0x73]);
}

#[test]
fn decode_rejects_bad_length() {
    assert_eq!(decode(&bytes("QUJ")).unwrap_err(), PrintError::DecodeError);
    assert_eq!(decode(&bytes("Q")).unwrap_err(), PrintError::DecodeError);
}

#[test]
fn decode_rejects_bad_byte() {
    assert_eq!(decode(&bytes("QU!D")).unwrap_err(), PrintError::DecodeError);
    assert_eq!(decode(&bytes("Q D=")).unwrap_err(), PrintError::DecodeError);
}

#[test]
fn decode_rejects_padding_inside() {
    // padding in a non-final block
    assert_eq!(
        decode(&bytes("QQ==QUJD")).unwrap_err(),
        PrintError::DecodeError
    );
    // pad in third-to-last place
    assert_eq!(decode(&bytes("Q=AA")).unwrap_err(), PrintError::DecodeError);
    // pad followed by a plain byte
    assert_eq!(decode(&bytes("QU=A")).unwrap_err(), PrintError::DecodeError);
}

#[test]
fn encode_known_values() {
    assert_eq!(encode(&b"ABC".to_vec()), bytes("QUJD"));
    assert_eq!(encode(&b"A".to_vec()), bytes("QQ=="));
    assert_eq!(encode(&b"AB".to_vec()), bytes("QUI="));
    assert_eq!(encode(&Vec::new()), Vec::<u8>::new());
}

#[test]
fn encode_then_decode_round_trips() {
    let cases: Vec<Vec<u8>> = vec![
        Vec::new(),
        vec![0],
        vec![255],
        vec![1, 2],
        vec![1, 2, 3],
        vec![1, 2, 3, 4],
        b"the quick brown fox".to_vec(),
        (0u8..=255).collect(),
    ];
    for data in cases {
        let text = encode(&data);
        assert_eq!(decode(&text).unwrap(), data);
    }
}
