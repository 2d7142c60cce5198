//! Hexadecimal text.
//!
//! Encoding and decoding are done by the `hex` crate. This module states
//! what the crate's two functions return and proves that decoding undoes
//! encoding.

use crate::text::{ascii_chars, is_ascii_bytes, lemma_ascii_round_trip, lemma_ascii_str_bytes};
use vstd::prelude::*;

verus! {

/// The lowercase hexadecimal digit for a value below 16.
pub open spec fn hex_digit(nibble: u8) -> u8 {
    if nibble < 10 {
        (48 + nibble) as u8
    } else {
        (87 + nibble) as u8
    }
}

/// The value of a hexadecimal digit of either case, if `c` is one.
pub open spec fn hex_value(c: u8) -> Option<u8> {
    if 48 <= c <= 57 {
        Some((c - 48) as u8)
    } else if 97 <= c <= 102 {
        Some((c - 87) as u8)
    } else if 65 <= c <= 70 {
        Some((c - 55) as u8)
    } else {
        None
    }
}

/// Two lowercase digits for every byte, high half first.
pub open spec fn hex_encode(data: Seq<u8>) -> Seq<u8> {
    Seq::new(
        2 * data.len(),
        |i: int|
            if i % 2 == 0 {
                hex_digit(data[i / 2] / 16)
            } else {
                hex_digit(data[i / 2] % 16)
            },
    )
}

/// True for an even number of hexadecimal digits.
pub open spec fn is_hex(text: Seq<u8>) -> bool {
    &&& text.len() % 2 == 0
    &&& forall|i: int| 0 <= i < text.len() ==> (#[trigger] hex_value(text[i])) is Some
}

/// One byte for every two digits of `text`, high half first.
pub open spec fn hex_decode(text: Seq<u8>) -> Seq<u8> {
    Seq::new(
        text.len() / 2,
        |i: int| (hex_value(text[2 * i])->0 * 16 + hex_value(text[2 * i + 1])->0) as u8,
    )
}

/// True when every byte is a decimal digit or one of `a` to `f`.
pub open spec fn is_lower_hex(text: Seq<u8>) -> bool {
    forall|i: int|
        0 <= i < text.len() ==> 48 <= #[trigger] text[i] <= 57 || 97 <= text[i] <= 102
}

/// Encoded text is lowercase hexadecimal, twice as long as the data.
pub proof fn lemma_hex_encode_shape(data: Seq<u8>)
    ensures
        hex_encode(data).len() == 2 * data.len(),
        is_lower_hex(hex_encode(data)),
        is_hex(hex_encode(data)),
        is_ascii_bytes(hex_encode(data)),
{
    let text = hex_encode(data);
    assert forall|i: int| 0 <= i < text.len() implies (48 <= #[trigger] text[i] <= 57 || 97
        <= text[i] <= 102) by {
        let b = data[i / 2];
        assert(0 <= b / 16 < 16 && 0 <= b % 16 < 16);
    }
    assert forall|i: int| 0 <= i < text.len() implies (#[trigger] hex_value(text[i])) is Some by {
        assert(48 <= text[i] <= 57 || 97 <= text[i] <= 102);
    }
}

/// Decoding undoes encoding.
pub proof fn lemma_hex_round_trip(data: Seq<u8>)
    ensures
        is_hex(hex_encode(data)),
        hex_decode(hex_encode(data)) == data,
{
    lemma_hex_encode_shape(data);
    let text = hex_encode(data);
    assert forall|i: int| 0 <= i < data.len() implies hex_decode(text)[i] == data[i] by {
        let b = data[i];
        assert((2 * i) / 2 == i && (2 * i) % 2 == 0);
        assert((2 * i + 1) / 2 == i && (2 * i + 1) % 2 == 1);
        assert(text[2 * i] == hex_digit(b / 16));
        assert(text[2 * i + 1] == hex_digit(b % 16));
        assert(hex_value(hex_digit(b / 16)) == Some(b / 16));
        assert(hex_value(hex_digit(b % 16)) == Some(b % 16));
        assert((b / 16) * 16 + b % 16 == b);
    }
    assert(hex_decode(text) =~= data);
}

/// `hex::FromHexError`, the reason `hex::decode` gives for refusing a text.
#[verifier::external_type_specification]
#[verifier::external_body]
pub struct ExFromHexError(hex::FromHexError);

/// `hex::encode`: the lowercase hexadecimal text of `data`, two characters
/// for each byte.
#[verifier::external_body]
fn hex_encode_to_string(data: &[u8]) -> (text: String)
    ensures
        text@ == ascii_chars(hex_encode(data@)),
{
    hex::encode(data)
}

/// `hex::decode`: the bytes that `text` spells, digits of either case being
/// accepted. It fails exactly when the length is odd or a byte is no
/// hexadecimal digit.
#[verifier::external_body]
fn hex_decode_to_vec(text: &[u8]) -> (decoded: Result<Vec<u8>, hex::FromHexError>)
    ensures
        decoded is Ok <==> is_hex(text@),
        decoded is Ok ==> decoded->Ok_0@ == hex_decode(text@),
{
    hex::decode(text)
}

/// The lowercase hexadecimal text of `data` as a string.
pub fn encode(data: &[u8]) -> (text: String)
    ensures
        text@ == ascii_chars(hex_encode(data@)),
{
    hex_encode_to_string(data)
}

/// The lowercase hexadecimal text of `data` as bytes.
pub fn encode_bytes(data: &[u8]) -> (text: Vec<u8>)
    ensures
        text@ == hex_encode(data@),
{
    let string = hex_encode_to_string(data);
    let chars = string.as_str();
    let bytes = chars.as_bytes();
    proof {
        lemma_hex_encode_shape(data@);
        lemma_ascii_round_trip(hex_encode(data@));
        lemma_ascii_str_bytes(chars);
    }
    vstd::slice::slice_to_vec(bytes)
}

/// The bytes that `text` spells in hexadecimal, or `None` when `text` is not
/// an even number of hexadecimal digits.
pub fn decode(text: &[u8]) -> (decoded: Option<Vec<u8>>)
    ensures
        decoded is Some <==> is_hex(text@),
        decoded is Some ==> decoded->Some_0@ == hex_decode(text@),
{
    match hex_decode_to_vec(text) {
        Ok(bytes) => Some(bytes),
        Err(_) => None,
    }
}

} // verus!
