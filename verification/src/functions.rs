use vstd::prelude::*;
use crate::text::{hex_lower, push_hex};

verus! {

/// The bytes that `base64::decode` gives for a text (standard alphabet);
/// `None` where it reports an error.
pub uninterp spec fn base64_decoding(text: Seq<char>) -> Option<Seq<u8>>;

/// Calls `base64::decode` (standard alphabet) on the text.
/// Its result is named `base64_decoding` of the text; nothing more of it is
/// claimed here.
#[verifier::external_body]
fn base64_decode(text: &str) -> (res: Option<Vec<u8>>)
    ensures
        res is Some <==> base64_decoding(text@) is Some,
        res matches Some(v) ==> v@ == base64_decoding(text@)->0,
{
    base64::decode(text).ok()
}

/// Calls `hex::encode`, which writes each byte as two lower-case hexadecimal
/// digits, most significant first (its documentation and its table
/// `HEX_CHARS_LOWER` say so).
#[verifier::external_body]
fn hex_encode(bytes: &[u8]) -> (res: String)
    ensures
        res@ == hex_lower(bytes@),
{
    hex::encode(bytes)
}

/// Writes the bytes as lower-case hexadecimal, two digits per byte.
pub fn buffer_as_hex(bytes: Vec<u8>) -> (res: String)
    ensures
        res@ == hex_lower(bytes@),
{
    let mut out = String::new();
    push_hex(&mut out, bytes.as_slice());
    out
}

/// Writes the bytes as lower-case hexadecimal, two digits per byte.
pub fn bytes_to_string(bytes: &[u8]) -> (res: String)
    ensures
        res@ == hex_lower(bytes@),
{
    let mut out = String::new();
    push_hex(&mut out, bytes);
    out
}

/// Decodes a base64 text and writes its bytes as lower-case hexadecimal.
/// The text must be valid base64: on any other text this function would
/// have nothing to return.
pub fn base64_to_hex(base64_str: String) -> (res: String)
    requires
        base64_decoding(base64_str@) is Some,
    ensures
        res@ == hex_lower(base64_decoding(base64_str@)->0),
{
    match base64_decode(base64_str.as_str()) {
        Some(decoded_bytes) => hex_encode(decoded_bytes.as_slice()),
        None => String::new(),
    }
}

/// `base64_to_hex` for any text: `None` exactly where the text is not valid
/// base64.
pub fn try_base64_to_hex(base64_str: String) -> (res: Option<String>)
    ensures
        res is Some <==> base64_decoding(base64_str@) is Some,
        res matches Some(h) ==> h@ == hex_lower(base64_decoding(base64_str@)->0),
{
    match base64_decode(base64_str.as_str()) {
        Some(_) => Some(base64_to_hex(base64_str)),
        None => None,
    }
}

} // verus!
