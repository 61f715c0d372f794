//! The value coercer: maps one raw database cell into a JSON-safe value.
//! Coercion never fails; unrepresentable cases degrade to a string or null.

use vstd::prelude::*;
use vstd::utf8::decode_utf8;
use vstd::utf8::encode_utf8;
use vstd::utf8::valid_utf8;

use crate::decimal::dec_rep;
use crate::decimal::i64_to_dec;
use crate::decimal::int_dec_rep;
use crate::decimal::u64_to_dec;

verus! {

/// The largest integer magnitude a double-precision JSON consumer holds
/// without precision loss.
pub const JSON_SAFE_INT_MAX: u64 = 9007199254740991;

/// One raw database cell, as the driver hands it over: the floating-point
/// kind arrives pre-rendered as its decimal text together with whether it is
/// finite, and date-time kinds arrive in their canonical textual form.
pub enum RawCell {
    Null,
    Bytes(Vec<u8>),
    Int(i64),
    UInt(u64),
    Float { finite: bool, text: String },
    DateTime(String),
    Other,
}

/// A JSON-safe value: null, a string, a number (signed, unsigned, or the
/// decimal text of a finite float), or raw bytes as small integers.
pub enum JsonValue {
    Null,
    Str(String),
    Int(i64),
    UInt(u64),
    Num(String),
    Bytes(Vec<u8>),
}

/// What the coercer owes for each raw kind.
pub open spec fn coerce_spec(cell: RawCell, r: JsonValue) -> bool {
    match cell {
        RawCell::Null => r is Null,
        RawCell::Bytes(b) => if valid_utf8(b@) {
            r matches JsonValue::Str(s) && s@ == decode_utf8(b@)
        } else {
            r matches JsonValue::Bytes(a) && a@ == b@
        },
        RawCell::Int(i) => r matches JsonValue::Int(j) && j == i,
        RawCell::UInt(u) => if u <= JSON_SAFE_INT_MAX {
            r matches JsonValue::UInt(v) && v == u
        } else {
            r matches JsonValue::Str(s) && s@ == dec_rep(u as nat)
        },
        RawCell::Float { finite, text } => if finite {
            r matches JsonValue::Num(s) && s@ == text@
        } else {
            r matches JsonValue::Str(s) && s@ == text@
        },
        RawCell::DateTime(d) => r matches JsonValue::Str(s) && s@ == d@,
        RawCell::Other => r is Null,
    }
}

/// Relies on std's String::from_utf8: it returns Ok exactly on valid UTF-8
/// input, and the resulting string holds the decoding of those bytes.
#[verifier::external_body]
fn utf8_decode(b: &Vec<u8>) -> (r: Option<String>)
    ensures
        r is Some <==> valid_utf8(b@),
        r matches Some(s) ==> s@ == decode_utf8(b@),
{
    String::from_utf8(b.clone()).ok()
}

/// Coerces one raw cell to its JSON-safe value. Never fails: a non-UTF-8
/// byte string becomes the array of its byte values, an unsigned integer
/// beyond the JSON-safe range and a non-finite float become decimal strings,
/// and an unrecognized kind becomes null.
pub fn coerce(cell: RawCell) -> (r: JsonValue)
    ensures
        coerce_spec(cell, r),
{
    match cell {
        RawCell::Null => JsonValue::Null,
        RawCell::Bytes(b) => {
            match utf8_decode(&b) {
                Some(s) => JsonValue::Str(s),
                None => JsonValue::Bytes(b),
            }
        },
        RawCell::Int(i) => JsonValue::Int(i),
        RawCell::UInt(u) => {
            if u <= JSON_SAFE_INT_MAX {
                JsonValue::UInt(u)
            } else {
                JsonValue::Str(u64_to_dec(u))
            }
        },
        RawCell::Float { finite, text } => {
            if finite {
                JsonValue::Num(text)
            } else {
                JsonValue::Str(text)
            }
        },
        RawCell::DateTime(d) => JsonValue::Str(d),
        RawCell::Other => JsonValue::Null,
    }
}

/// What the lossy UTF-8 decoding of a byte sequence is. It depends on the
/// bytes alone; nothing more is assumed of it beyond the wrapper's clauses.
pub uninterp spec fn lossy_utf8(b: Seq<u8>) -> Seq<char>;

/// Relies on std's String::from_utf8_lossy: the result is a function of the
/// bytes alone, and valid UTF-8 input comes back as exactly its decoding.
#[verifier::external_body]
fn utf8_decode_lossy(b: &Vec<u8>) -> (r: String)
    ensures
        r@ == lossy_utf8(b@),
        valid_utf8(b@) ==> r@ == decode_utf8(b@),
{
    String::from_utf8_lossy(b.as_slice()).to_string()
}

/// What the display-text rendering owes for each raw kind: empty text for
/// null and unrecognized cells, lossy decoding for byte strings, canonical
/// decimal numerals for integers, and the given text for the rest.
pub open spec fn cell_text_spec(cell: RawCell, r: Seq<char>) -> bool {
    match cell {
        RawCell::Null => r == Seq::<char>::empty(),
        RawCell::Bytes(b) => r == lossy_utf8(b@),
        RawCell::Int(i) => r == int_dec_rep(i as int),
        RawCell::UInt(u) => r == dec_rep(u as nat),
        RawCell::Float { finite: _, text } => r == text@,
        RawCell::DateTime(d) => r == d@,
        RawCell::Other => r == Seq::<char>::empty(),
    }
}

/// Renders one raw cell as display text, for the string-typed column
/// metadata listing: null and unrecognized cells become empty text, byte
/// strings are decoded lossily, numbers print as decimal numerals, and
/// pre-rendered kinds keep their text.
pub fn cell_text(cell: RawCell) -> (r: String)
    ensures
        cell_text_spec(cell, r@),
{
    match cell {
        RawCell::Null => String::new(),
        RawCell::Bytes(b) => utf8_decode_lossy(&b),
        RawCell::Int(i) => i64_to_dec(i),
        RawCell::UInt(u) => u64_to_dec(u),
        RawCell::Float { finite: _, text } => text,
        RawCell::DateTime(d) => d,
        RawCell::Other => String::new(),
    }
}

/// Law: byte cells round-trip. A null cell coerces to JSON null; a valid
/// UTF-8 byte string coerces to the string whose UTF-8 encoding is exactly
/// the original bytes; a non-UTF-8 byte string coerces to the array of
/// exactly its byte values.
pub proof fn lemma_bytes_coercion_round_trip(cell: RawCell, r: JsonValue)
    requires
        coerce_spec(cell, r),
    ensures
        cell is Null ==> r is Null,
        cell matches RawCell::Bytes(b) ==> if valid_utf8(b@) {
            r matches JsonValue::Str(s) && encode_utf8(s@) == b@
        } else {
            r matches JsonValue::Bytes(a) && a@ == b@
        },
{
    match cell {
        RawCell::Bytes(b) => {
            if valid_utf8(b@) {
                vstd::utf8::decode_utf8_encode_utf8(b@);
            }
        },
        _ => {},
    }
}

} // verus!
