use cln_client::error::ClientError;
use cln_client::identity::decode_identity;

#[test]
fn decodes_pairs_of_digits() {
    assert_eq!(decode_identity("00"), Ok(vec![0x00]));
    assert_eq!(decode_identity("0a"), Ok(vec![0x0a]));
    assert_eq!(decode_identity("a0"), Ok(vec![0xa0]));
    assert_eq!(decode_identity("ff"), Ok(vec![0xff]));
    assert_eq!(decode_identity("0123456789abcdef"), Ok(vec![
        0x01, 0x23, 0x45, 0x67, 0x89, 0xab, 0xcd, 0xef
    ]));
}

#[test]
fn decoding_changes_the_text() {
    let decoded = decode_identity("3031").unwrap();
    assert_eq!(decoded, vec![0x30, 0x31]);
    assert_ne!(decoded, "3031".as_bytes().to_vec());
}

#[test]
fn accepts_either_case_and_a_mix() {
    assert_eq!(decode_identity("f9b4ca"), Ok(vec![0xf9, 0xb4, 0xca]));
    assert_eq!(decode_identity("F9B4CA"), Ok(vec![0xf9, 0xb4, 0xca]));
    assert_eq!(decode_identity("f9B4Ca"), Ok(vec![0xf9, 0xb4, 0xca]));
}

#[test]
fn the_empty_identity_is_no_bytes() {
    assert_eq!(decode_identity(""), Ok(vec![]));
}

#[test]
fn decodes_a_compressed_public_key() {
    let key = decode_identity("02736e7dad83d7205826649fc17db672ce08f8e87a2b47c7785ccbf79f24e91db0")
        .unwrap();
    assert_eq!(key.len(), 33);
    assert_eq!(key[0], 0x02);
    assert_eq!(key[1], 0x73);
    assert_eq!(key[32], 0xb0);
}

#[test]
fn rejects_an_odd_number_of_digits() {
    assert_eq!(decode_identity("0"), Err(ClientError::InvalidIdentity));
    assert_eq!(decode_identity("123"), Err(ClientError::InvalidIdentity));
    assert_eq!(decode_identity("not-hex"), Err(ClientError::InvalidIdentity));
}

#[test]
fn rejects_what_is_no_digit() {
    assert_eq!(decode_identity("zz"), Err(ClientError::InvalidIdentity));
    assert_eq!(decode_identity("0g"), Err(ClientError::InvalidIdentity));
    assert_eq!(decode_identity("g0"), Err(ClientError::InvalidIdentity));
    assert_eq!(decode_identity("0x12"), Err(ClientError::InvalidIdentity));
    assert_eq!(decode_identity(" 12 "), Err(ClientError::InvalidIdentity));
    assert_eq!(decode_identity("not-hex!"), Err(ClientError::InvalidIdentity));
}

#[test]
fn rejects_characters_beyond_ascii() {
    assert_eq!(decode_identity("é"), Err(ClientError::InvalidIdentity));
    assert_eq!(decode_identity("aé"), Err(ClientError::InvalidIdentity));
    assert_eq!(decode_identity("１２"), Err(ClientError::InvalidIdentity));
    assert_eq!(decode_identity("0aé0"), Err(ClientError::InvalidIdentity));
}
