//! Hexadecimal text: what it denotes, and the calls that read and write it.
//!
//! Text is modelled as the sequence of its bytes. A hexadecimal text holds
//! only the digits `0-9`, `a-f` and `A-F`; two digits denote one byte, the
//! high half first.

use vstd::prelude::*;

verus! {

/// The bytes of a string: its characters in UTF-8, as `str::as_bytes` gives
/// them.
pub open spec fn text_bytes(text: Seq<char>) -> Seq<u8> {
    vstd::utf8::encode_utf8(text)
}

/// Whether `b` is one of `0-9`, `A-F`, `a-f`.
pub open spec fn is_hex_digit(b: u8) -> bool {
    ||| 0x30 <= b <= 0x39
    ||| 0x41 <= b <= 0x46
    ||| 0x61 <= b <= 0x66
}

/// The number, below 16, that a hexadecimal digit stands for.
pub open spec fn digit_value(b: u8) -> int {
    if 0x30 <= b <= 0x39 {
        b - 0x30
    } else if 0x41 <= b <= 0x46 {
        b - 0x41 + 10
    } else {
        b - 0x61 + 10
    }
}

/// Whether every byte of `text` is a hexadecimal digit.
pub open spec fn is_hex_text(text: Seq<u8>) -> bool {
    forall|i: int| 0 <= i < text.len() ==> is_hex_digit(#[trigger] text[i])
}

/// The bytes that a hexadecimal text of even length denotes.
pub open spec fn hex_bytes(text: Seq<u8>) -> Seq<u8> {
    Seq::new(
        text.len() / 2,
        |i: int| (16 * digit_value(text[2 * i]) + digit_value(text[2 * i + 1])) as u8,
    )
}

/// The lower-case digit for a number below 16.
pub open spec fn lower_digit(n: int) -> u8 {
    if n < 10 {
        (0x30 + n) as u8
    } else {
        (0x61 + n - 10) as u8
    }
}

/// The lower-case hexadecimal text of `bytes`: two digits for each byte.
pub open spec fn hex_text(bytes: Seq<u8>) -> Seq<u8> {
    Seq::new(
        2 * bytes.len(),
        |i: int|
            if i % 2 == 0 {
                lower_digit(bytes[i / 2] as int / 16)
            } else {
                lower_digit(bytes[i / 2] as int % 16)
            },
    )
}

/// The lower-case hexadecimal digits of `bytes` as characters.
pub open spec fn hex_chars(bytes: Seq<u8>) -> Seq<char> {
    Seq::new(hex_text(bytes).len(), |i: int| hex_text(bytes)[i] as char)
}

/// `hex::FromHexError`, the reason that `hex::decode` gives for a failure.
/// Nothing is read from it.
#[verifier::external_type_specification]
#[verifier::external_body]
pub struct ExFromHexError(hex::FromHexError);

/// `hex::decode` on a byte slice. It succeeds exactly on a text of even
/// length that holds only hexadecimal digits, in either case, and then
/// returns one byte for each pair of digits, the first digit of a pair
/// being the high half of the byte.
#[verifier::external_body]
fn decode(text: &[u8]) -> (r: Result<Vec<u8>, hex::FromHexError>)
    ensures
        r.is_ok() == (text@.len() % 2 == 0 && is_hex_text(text@)),
        r.is_ok() ==> r.unwrap()@ == hex_bytes(text@),
{
    hex::decode(text)
}

/// `hex::encode` on a byte slice. The string that it returns is made of the
/// lower-case digits of the bytes, two for each byte and the high half
/// first, and of nothing else.
#[verifier::external_body]
fn encode(bytes: &[u8]) -> (r: String)
    ensures
        r@ == hex_chars(bytes@),
{
    hex::encode(bytes)
}

/// Why a text denotes no bytes.
#[derive(Clone, Copy, Debug, PartialEq, Eq, Structural)]
pub enum HexFault {
    /// Some byte of the text is no hexadecimal digit.
    NotHex,
    /// Every byte is a digit, but their number is odd.
    OddLength,
}

/// Whether every byte of `text` is a hexadecimal digit.
pub fn all_hex_digits(text: &[u8]) -> (r: bool)
    ensures
        r == is_hex_text(text@),
{
    let mut i: usize = 0;
    while i < text.len()
        invariant
            i <= text.len(),
            forall|j: int| 0 <= j < i ==> is_hex_digit(#[trigger] text@[j]),
        decreases text.len() - i,
    {
        let b: u8 = text[i];
        let digit = (0x30 <= b && b <= 0x39) || (0x41 <= b && b <= 0x46) || (0x61 <= b && b
            <= 0x66);
        if !digit {
            return false;
        }
        i += 1;
    }
    true
}

/// What `text` denotes: its bytes, or the reason why it denotes none.
pub open spec fn hex_decoding(text: Seq<u8>) -> Result<Seq<u8>, HexFault> {
    if !is_hex_text(text) {
        Err(HexFault::NotHex)
    } else if text.len() % 2 != 0 {
        Err(HexFault::OddLength)
    } else {
        Ok(hex_bytes(text))
    }
}

/// Reads hexadecimal text. A byte that is no digit is reported whatever the
/// length of the text.
pub fn decode_hex(text: &[u8]) -> (r: Result<Vec<u8>, HexFault>)
    ensures
        match r {
            Ok(bytes) => hex_decoding(text@) == Ok::<Seq<u8>, HexFault>(bytes@),
            Err(fault) => hex_decoding(text@) == Err::<Seq<u8>, HexFault>(fault),
        },
{
    match decode(text) {
        Ok(bytes) => Ok(bytes),
        Err(_) => {
            if all_hex_digits(text) {
                Err(HexFault::OddLength)
            } else {
                Err(HexFault::NotHex)
            }
        },
    }
}

/// Writes `bytes` as lower-case hexadecimal text.
pub fn encode_hex(bytes: &[u8]) -> (r: String)
    ensures
        r@ == hex_chars(bytes@),
        text_bytes(r@) == hex_text(bytes@),
        hex_decoding(text_bytes(r@)) == Ok::<Seq<u8>, HexFault>(bytes@),
{
    proof {
        lemma_hex_round_trip(bytes@);
        lemma_hex_chars_bytes(bytes@);
    }
    encode(bytes)
}

/// Whether `text` holds characters of ASCII only.
pub open spec fn is_ascii_text(text: Seq<char>) -> bool {
    vstd::utf8::is_ascii_chars(text)
}

/// Text of ASCII has one byte for each character, and texts of ASCII set
/// one after the other have the bytes of the first and then those of the
/// second.
pub proof fn lemma_ascii_text_bytes(first: Seq<char>, second: Seq<char>)
    requires
        is_ascii_text(first),
        is_ascii_text(second),
    ensures
        is_ascii_text(first + second),
        text_bytes(first).len() == first.len(),
        forall|i: int| 0 <= i < first.len() ==> #[trigger] text_bytes(first)[i] == first[i] as u8,
        text_bytes(first + second) == text_bytes(first) + text_bytes(second),
{
    let both = first + second;
    assert forall|i: int| 0 <= i < both.len() implies '\0' <= #[trigger] both[i] <= '\u{7f}' by {
        if i < first.len() {
            assert(both[i] == first[i]);
        } else {
            assert(both[i] == second[i - first.len()]);
        }
    }
    vstd::utf8::is_ascii_chars_encode_utf8(first);
    vstd::utf8::is_ascii_chars_encode_utf8(second);
    vstd::utf8::is_ascii_chars_encode_utf8(both);
    assert forall|i: int| 0 <= i < both.len() implies text_bytes(both)[i] == (text_bytes(first)
        + text_bytes(second))[i] by {
        if i < first.len() {
            assert(both[i] == first[i]);
        } else {
            assert(both[i] == second[i - first.len()]);
        }
    }
    assert(text_bytes(both) =~= text_bytes(first) + text_bytes(second));
}

/// The digits of `bytes` written as characters are ASCII.
pub proof fn lemma_hex_chars_ascii(bytes: Seq<u8>)
    ensures
        is_ascii_text(hex_chars(bytes)),
{
    lemma_hex_round_trip(bytes);
    let chars = hex_chars(bytes);
    assert forall|i: int| 0 <= i < chars.len() implies '\0' <= #[trigger] chars[i] <= '\u{7f}' by {}
}

/// The bytes of the digits of `bytes` written as characters are those
/// digits: each digit is one byte of the string.
pub proof fn lemma_hex_chars_bytes(bytes: Seq<u8>)
    ensures
        text_bytes(hex_chars(bytes)) == hex_text(bytes),
{
    lemma_hex_chars_ascii(bytes);
    lemma_ascii_text_bytes(hex_chars(bytes), Seq::empty());
    assert(text_bytes(hex_chars(bytes)) =~= hex_text(bytes));
}

/// Writing bytes as hexadecimal text and reading that text gives the bytes
/// back: the text holds only digits, two for each byte, and denotes the
/// bytes it was written from.
pub proof fn lemma_hex_round_trip(bytes: Seq<u8>)
    ensures
        hex_text(bytes).len() == 2 * bytes.len(),
        is_hex_text(hex_text(bytes)),
        hex_bytes(hex_text(bytes)) == bytes,
        hex_decoding(hex_text(bytes)) == Ok::<Seq<u8>, HexFault>(bytes),
{
    let text = hex_text(bytes);
    assert forall|i: int| 0 <= i < text.len() implies is_hex_digit(#[trigger] text[i]) by {}
    assert forall|k: int| 0 <= k < bytes.len() implies hex_bytes(text)[k] == bytes[k] by {}
}

} // verus!
