//! Node identities as they are typed: public keys written in hexadecimal.

use crate::error::ClientError;
use vstd::prelude::*;
use vstd::string::*;
use vstd::utf8::*;

verus! {

/// Whether `b` is the ASCII code of a hexadecimal digit, of either case.
pub open spec fn is_hex_digit(b: u8) -> bool {
    ||| 0x30 <= b <= 0x39
    ||| 0x41 <= b <= 0x46
    ||| 0x61 <= b <= 0x66
}

/// The number that the hexadecimal digit with ASCII code `b` stands for.
pub open spec fn hex_digit_value(b: u8) -> int
    recommends
        is_hex_digit(b),
{
    if 0x30 <= b <= 0x39 {
        b - 0x30
    } else if 0x41 <= b <= 0x46 {
        b - 0x41 + 10
    } else {
        b - 0x61 + 10
    }
}

/// Whether `text` is an even number of hexadecimal digits.
pub open spec fn is_hex_text(text: Seq<u8>) -> bool {
    &&& text.len() % 2 == 0
    &&& forall|i: int| 0 <= i < text.len() ==> is_hex_digit(#[trigger] text[i])
}

/// The bytes that `text` spells, two digits to the byte, the high one first.
pub open spec fn hex_text_bytes(text: Seq<u8>) -> Seq<u8>
    recommends
        is_hex_text(text),
{
    Seq::new(
        text.len() / 2,
        |i: int| (16 * hex_digit_value(text[2 * i]) + hex_digit_value(text[2 * i + 1])) as u8,
    )
}

/// Whether `c` is a hexadecimal digit, of either case.
pub open spec fn is_hex_char(c: char) -> bool {
    ||| '0' <= c <= '9'
    ||| 'A' <= c <= 'F'
    ||| 'a' <= c <= 'f'
}

/// The number that the hexadecimal digit `c` stands for.
pub open spec fn hex_char_value(c: char) -> int
    recommends
        is_hex_char(c),
{
    if '0' <= c <= '9' {
        c as int - '0' as int
    } else if 'A' <= c <= 'F' {
        c as int - 'A' as int + 10
    } else {
        c as int - 'a' as int + 10
    }
}

/// Whether `s` is a well-formed identity: an even number of hexadecimal digits.
pub open spec fn is_hex_string(s: Seq<char>) -> bool {
    &&& s.len() % 2 == 0
    &&& forall|i: int| 0 <= i < s.len() ==> is_hex_char(#[trigger] s[i])
}

/// The key bytes that the identity `s` spells.
pub open spec fn hex_string_bytes(s: Seq<char>) -> Seq<u8>
    recommends
        is_hex_string(s),
{
    Seq::new(
        s.len() / 2,
        |i: int| (16 * hex_char_value(s[2 * i]) + hex_char_value(s[2 * i + 1])) as u8,
    )
}

/// The first byte of a character's UTF-8 encoding is a hexadecimal digit only
/// when the character itself is one.
proof fn lemma_leading_byte_hex(ch: char)
    requires
        is_hex_digit(encode_scalar(ch as u32)[0]),
    ensures
        is_hex_char(ch),
{
    let c = ch as u32;
    char_is_scalar(ch);
    if has_width_1_encoding(c) {
        assert(leading_byte_width_1(c) == c as u8) by (bit_vector)
            requires
                c <= 0x7F,
        ;
    } else if has_width_2_encoding(c) {
        assert(leading_byte_width_2(c) >= 0xC0) by (bit_vector);
    } else if has_width_3_encoding(c) {
        assert(leading_byte_width_3(c) >= 0xC0) by (bit_vector);
    } else {
        assert(leading_byte_width_4(c) >= 0xC0) by (bit_vector);
    }
}

/// A string whose UTF-8 encoding holds hexadecimal digits only is made of
/// hexadecimal digits only.
proof fn lemma_hex_encoding_has_hex_chars(s: Seq<char>)
    requires
        forall|j: int| 0 <= j < encode_utf8(s).len() ==> is_hex_digit(#[trigger] encode_utf8(s)[j]),
    ensures
        forall|i: int| 0 <= i < s.len() ==> is_hex_char(#[trigger] s[i]),
    decreases s.len(),
{
    if s.len() > 0 {
        let head = encode_scalar(s[0] as u32);
        let tail = encode_utf8(s.drop_first());
        assert(encode_utf8(s)[0] == head[0]);
        lemma_leading_byte_hex(s[0]);
        assert forall|j: int| 0 <= j < tail.len() implies is_hex_digit(#[trigger] tail[j]) by {
            assert(encode_utf8(s)[head.len() + j] == tail[j]);
        }
        lemma_hex_encoding_has_hex_chars(s.drop_first());
        assert forall|i: int| 0 <= i < s.len() implies is_hex_char(#[trigger] s[i]) by {
            if i > 0 {
                assert(s[i] == s.drop_first()[i - 1]);
            }
        }
    }
}

/// Reading a string as hexadecimal by its UTF-8 bytes and reading it by its
/// characters come to the same thing.
pub proof fn lemma_hex_string_by_bytes(s: Seq<char>)
    ensures
        is_hex_text(encode_utf8(s)) <==> is_hex_string(s),
        is_hex_string(s) ==> hex_text_bytes(encode_utf8(s)) == hex_string_bytes(s),
{
    let text = encode_utf8(s);
    if is_hex_text(text) {
        lemma_hex_encoding_has_hex_chars(s);
    }
    if forall|i: int| 0 <= i < s.len() ==> is_hex_char(#[trigger] s[i]) {
        is_ascii_chars_encode_utf8(s);
        assert forall|i: int| 0 <= i < text.len() implies is_hex_digit(#[trigger] text[i])
            && hex_digit_value(text[i]) == hex_char_value(s[i]) by {
            assert(text[i] == s[i] as u8);
        }
        if is_hex_string(s) {
            assert(hex_text_bytes(text) =~= hex_string_bytes(s));
        }
    }
}

/// `hex::FromHexError`, the reason that `hex::decode` gives for a failure.
/// Nothing is read from it.
#[verifier::external_type_specification]
#[verifier::external_body]
pub struct ExFromHexError(hex::FromHexError);

/// `hex::decode` on a byte slice. It succeeds exactly on an even number of
/// hexadecimal digits of either case, and then returns one byte for each
/// pair of digits, the first digit of the pair being the high half.
#[verifier::external_body]
fn hex_decode(text: &[u8]) -> (r: Result<Vec<u8>, hex::FromHexError>)
    ensures
        r is Ok <==> is_hex_text(text@),
        r matches Ok(bytes) ==> bytes@ == hex_text_bytes(text@),
{
    hex::decode(text)
}

/// Decodes a node identity from hexadecimal into the raw bytes of the key.
pub fn decode_identity(id: &str) -> (r: Result<Vec<u8>, ClientError>)
    ensures
        is_hex_string(id@) ==> (r matches Ok(bytes) && bytes@ == hex_string_bytes(id@)),
        !is_hex_string(id@) ==> r == Err::<Vec<u8>, ClientError>(ClientError::InvalidIdentity),
{
    proof {
        lemma_hex_string_by_bytes(id@);
    }
    match hex_decode(id.as_bytes()) {
        Ok(bytes) => Ok(bytes),
        Err(_) => Err(ClientError::InvalidIdentity),
    }
}

} // verus!
